//! Colouring of Logo code in the editor. The code is cut into spans, each
//! with the kind of text it holds; the front end picks a colour for each
//! kind.
use vstd::prelude::*;

use crate::gui::editor::syntax::{
    control_flow_commands, definition_commands, is_control_flow_command, is_definition_command,
    is_other_command, is_word_list_command, lemma_object_commands, lemma_quoted_words_are_no_commands,
    obj_def_count, object_definition_count,
    other_commands, var_def_count, variable_definition_count, word_list_commands,
};
use crate::interpreter::language::lexer_spec::{
    cur, line_end, skip_ws, lemma_line_end_bounds, lemma_skip_ws_bounds,
};
use crate::text::{numeric, char_is_whitespace, is_numeric, is_whitespace, string_from_chars, string_from_range};

verus! {

/// The kind of text a span holds.
#[derive(Debug, Clone, Copy, PartialEq, Eq, Hash)]
pub enum Highlight {
    /// Whitespace, brackets, parentheses and text of no other kind.
    Plain,
    Comment,
    Definition,
    ControlFlow,
    Command,
    Variable,
    Object,
    Word,
    Number,
}

/// A span of code and the kind of text it holds.
pub type Span = (Seq<char>, Highlight);

/// What the highlighter remembers of the code before the current position:
/// whether whitespace belongs to the current word (inside `"|...|`), how
/// deeply brackets are nested, for how many more words a variable name, an
/// object name or a word list is expected, and whether the code is inside
/// the list of a `let`.
pub struct Marks {
    pub allow_ws: bool,
    pub brackets: int,
    pub var_def: int,
    pub obj_def: int,
    pub word_list: int,
    pub is_let: bool,
}

/// The marks at the start of the code.
pub open spec fn initial_marks() -> Marks {
    Marks { allow_ws: false, brackets: 0, var_def: 0, obj_def: 0, word_list: 0, is_let: false }
}

/// The first position at or after `p` that holds no parenthesis.
pub open spec fn paren_end(t: Seq<char>, p: int) -> int
    decreases t.len() - p,
{
    if 0 <= p < t.len() && (t[p] == '(' || t[p] == ')') {
        paren_end(t, p + 1)
    } else {
        p
    }
}

/// One plain span for each character of `t[p..q]`.
pub open spec fn char_spans(t: Seq<char>, p: int, q: int) -> Seq<Span> {
    Seq::new((q - p) as nat, |i: int| (seq![t[p + i]], Highlight::Plain))
}

/// The first position at or after `p` that holds `]` or NUL, or the end of
/// the text.
pub open spec fn list_end(t: Seq<char>, p: int) -> int
    decreases t.len() - p,
{
    if 0 <= p < t.len() && t[p] != ']' && t[p] != '\0' {
        list_end(t, p + 1)
    } else {
        p
    }
}

/// The position after `p`; the end of the text is never passed.
pub open spec fn step(t: Seq<char>, p: int) -> int {
    if p < t.len() {
        p + 1
    } else {
        p
    }
}

/// Reads the brackets at `p`: each is a plain span and moves the nesting
/// depth; the end of the outermost list ends a `let`. A `[` that opens an
/// expected word list takes the whole list, up to its `]`, as one word.
/// Gives the position after the brackets, the spans and the marks.
pub open spec fn bracket_phase(t: Seq<char>, p: int, m: Marks) -> (int, Seq<Span>, Marks)
    decreases t.len() - p,
{
    if 0 <= p < t.len() && (t[p] == '[' || t[p] == ']') {
        let c = t[p];
        let b = if c == '[' {
            m.brackets + 1
        } else {
            m.brackets - 1
        };
        let m1 = Marks { brackets: b, is_let: if b == 0 {
            false
        } else {
            m.is_let
        }, ..m };
        if c == '[' && m1.word_list > 0 {
            let q = list_end(t, p + 1);
            let m2 = Marks { word_list: 0, ..m1 };
            if p < q <= t.len() {
                let spans = seq![
                    (seq![c], Highlight::Plain),
                    (t.subrange(p + 1, q), Highlight::Word),
                    (seq![cur(t, q)], Highlight::Plain),
                ];
                let (r, rest, m3) = bracket_phase(t, step(t, q), m2);
                (r, spans + rest, m3)
            } else {
                (p, Seq::empty(), m)
            }
        } else {
            let (r, rest, m3) = bracket_phase(t, p + 1, m1);
            (r, seq![(seq![c], Highlight::Plain)] + rest, m3)
        }
    } else {
        (p, Seq::empty(), m)
    }
}

/// Reads a word from `p`, after the characters `elem` already read: it ends
/// at whitespace (unless whitespace is allowed), at `)`, at `]` or at the
/// end. A `|` right after `"` allows whitespace; the next `|` forbids it
/// again. Gives the position after the word, the word and whether
/// whitespace is allowed.
pub open spec fn ident_phase(t: Seq<char>, p: int, elem: Seq<char>, allow: bool) -> (int, Seq<char>, bool)
    decreases t.len() - p,
{
    let c = cur(t, p);
    if 0 <= p < t.len() && (!char_is_whitespace(c) || allow) && c != ')' && c != ']' && c != '\0' {
        let allow2 = if c == '|' {
            if elem == seq!['"'] {
                true
            } else if allow {
                false
            } else {
                allow
            }
        } else {
            allow
        };
        ident_phase(t, p + 1, elem.push(c), allow2)
    } else {
        (p, elem, allow)
    }
}

/// Whether every character of `w` is numeric, `-` or `.`.
pub open spec fn is_number_like(w: Seq<char>) -> bool {
    forall|i: int| 0 <= i < w.len() ==> numeric(#[trigger] w[i]) || w[i] == '-' || w[i] == '.'
}

/// The kind of the word `w` and the marks before the expected counts are
/// counted down.
pub open spec fn classify_word(w: Seq<char>, m: Marks) -> (Highlight, Marks) {
    if definition_commands(w) && !m.is_let {
        let m1 = if let Some(n) = variable_definition_count(w) {
            Marks { var_def: n + 1, ..m }
        } else if let Some(n) = object_definition_count(w) {
            Marks { obj_def: n + 1, ..m }
        } else if w == "let"@ {
            Marks { is_let: true, ..m }
        } else {
            m
        };
        (Highlight::Definition, m1)
    } else if control_flow_commands(w) && !m.is_let {
        (Highlight::ControlFlow, m)
    } else if other_commands(w) && !m.is_let {
        let m1 = if let Some(n) = object_definition_count(w) {
            Marks { obj_def: n + 1, ..m }
        } else if word_list_commands(w) {
            Marks { word_list: 2, ..m }
        } else {
            m
        };
        (Highlight::Command, m1)
    } else if w[0] == ':' {
        (Highlight::Variable, m)
    } else if w[0] == '"' {
        if m.var_def > 0 {
            (Highlight::Variable, m)
        } else if m.obj_def > 0 {
            (Highlight::Object, m)
        } else {
            (Highlight::Word, m)
        }
    } else if is_number_like(w) {
        (Highlight::Number, m)
    } else if w.last() == ',' {
        (Highlight::Object, m)
    } else if w.len() >= 2 && w[w.len() - 2] == '\'' && w[w.len() - 1] == 's' {
        (Highlight::Object, Marks { var_def: 2, ..m })
    } else if m.is_let && m.brackets > 0 && m.brackets % 2 != 0 {
        (Highlight::Variable, m)
    } else {
        (Highlight::Plain, m)
    }
}

/// A count of expected words, one word later.
pub open spec fn count_down(n: int) -> int {
    if n > 0 {
        n - 1
    } else {
        n
    }
}

/// The kind of the word `w` and the marks after it.
pub open spec fn classify(w: Seq<char>, m: Marks) -> (Highlight, Marks) {
    let (h, m1) = classify_word(w, m);
    (
        h,
        Marks {
            var_def: count_down(m1.var_def),
            obj_def: count_down(m1.obj_def),
            word_list: count_down(m1.word_list),
            ..m1
        },
    )
}

/// The spans of whitespace, a comment and parentheses at `p`, each when
/// present, and the position after them.
pub open spec fn lead(t: Seq<char>, p: int) -> (int, Seq<Span>) {
    let p1 = skip_ws(t, p);
    let s1 = if p1 > p {
        seq![(t.subrange(p, p1), Highlight::Plain)]
    } else {
        Seq::empty()
    };
    let p2 = if cur(t, p1) == ';' {
        line_end(t, p1)
    } else {
        p1
    };
    let s2 = if cur(t, p1) == ';' {
        seq![(t.subrange(p1, p2), Highlight::Comment)]
    } else {
        Seq::empty()
    };
    let p3 = paren_end(t, p2);
    (p3, s1 + s2 + char_spans(t, p2, p3))
}

/// The spans of one round of reading at `p`: whitespace, a comment,
/// parentheses, brackets and a word, each when present. Gives the position
/// after them, the spans and the marks.
pub open spec fn round(t: Seq<char>, p: int, m: Marks) -> (int, Seq<Span>, Marks) {
    let (p3, s) = lead(t, p);
    let (p4, s4, m4) = bracket_phase(t, p3, m);
    let (p5, w, allow) = ident_phase(t, p4, Seq::empty(), m4.allow_ws);
    let m5 = Marks { allow_ws: allow, ..m4 };
    if w.len() > 0 {
        let (h, m6) = classify(w, m5);
        (p5, s + s4 + seq![(w, h)], m6)
    } else {
        (p5, s + s4, m5)
    }
}

/// The spans of the code from `p` on, with marks `m`; reading stops at the
/// end of the text or at a NUL character.
pub open spec fn highlight_from(t: Seq<char>, p: int, m: Marks) -> Seq<Span>
    decreases t.len() - p,
{
    if cur(t, p) == '\0' || p < 0 {
        Seq::empty()
    } else {
        let (q, spans, m1) = round(t, p, m);
        if p < q <= t.len() {
            spans + highlight_from(t, q, m1)
        } else {
            spans
        }
    }
}

/// The spans of the code `t`.
pub open spec fn highlights(t: Seq<char>) -> Seq<Span> {
    highlight_from(t, 0, initial_marks())
}

/// The values of spans.
pub open spec fn spans_view(v: Seq<(String, Highlight)>) -> Seq<Span> {
    v.map_values(|s: (String, Highlight)| (s.0@, s.1))
}

/// Reading parentheses ends within the text, at or after `p`.
proof fn lemma_paren_end_bounds(t: Seq<char>, p: int)
    requires
        0 <= p <= t.len(),
    ensures
        p <= paren_end(t, p) <= t.len(),
    decreases t.len() - p,
{
    if 0 <= p < t.len() && (t[p] == '(' || t[p] == ')') {
        lemma_paren_end_bounds(t, p + 1);
    }
}

/// Reading a word list ends within the text, at or after `p`.
proof fn lemma_list_end_bounds(t: Seq<char>, p: int)
    requires
        0 <= p <= t.len(),
    ensures
        p <= list_end(t, p) <= t.len(),
    decreases t.len() - p,
{
    if 0 <= p < t.len() && t[p] != ']' && t[p] != '\0' {
        lemma_list_end_bounds(t, p + 1);
    }
}

/// Reading brackets ends within the text, at or after `p`; the nesting
/// depth moves by at most the number of characters read.
proof fn lemma_bracket_phase_bounds(t: Seq<char>, p: int, m: Marks)
    requires
        0 <= p <= t.len(),
    ensures
        p <= bracket_phase(t, p, m).0 <= t.len(),
        bracket_phase(t, p, m).2.brackets - m.brackets <= bracket_phase(t, p, m).0 - p,
        m.brackets - bracket_phase(t, p, m).2.brackets <= bracket_phase(t, p, m).0 - p,
        bracket_phase(t, p, m).2.var_def == m.var_def,
        bracket_phase(t, p, m).2.obj_def == m.obj_def,
        bracket_phase(t, p, m).2.allow_ws == m.allow_ws,
        0 <= m.word_list ==> 0 <= bracket_phase(t, p, m).2.word_list <= m.word_list,
        0 <= p < t.len() && (t[p] == '[' || t[p] == ']') ==> p < bracket_phase(t, p, m).0,
    decreases t.len() - p,
{
    if 0 <= p < t.len() && (t[p] == '[' || t[p] == ']') {
        let c = t[p];
        let b = if c == '[' {
            m.brackets + 1
        } else {
            m.brackets - 1
        };
        let m1 = Marks { brackets: b, is_let: if b == 0 {
            false
        } else {
            m.is_let
        }, ..m };
        if c == '[' && m1.word_list > 0 {
            let q = list_end(t, p + 1);
            lemma_list_end_bounds(t, p + 1);
            let m2 = Marks { word_list: 0, ..m1 };
            lemma_bracket_phase_bounds(t, step(t, q), m2);
        } else {
            lemma_bracket_phase_bounds(t, p + 1, m1);
        }
    }
}

/// Reading a word ends within the text, at or after `p`.
proof fn lemma_ident_phase_bounds(t: Seq<char>, p: int, elem: Seq<char>, allow: bool)
    requires
        0 <= p <= t.len(),
    ensures
        p <= ident_phase(t, p, elem, allow).0 <= t.len(),
        ident_phase(t, p, elem, allow).1 == elem + t.subrange(p, ident_phase(t, p, elem, allow).0),
        0 <= p < t.len() && (!char_is_whitespace(cur(t, p)) || allow) && cur(t, p) != ')' && cur(t, p)
            != ']' && cur(t, p) != '\0' ==> p < ident_phase(t, p, elem, allow).0,
    decreases t.len() - p,
{
    let c = cur(t, p);
    if 0 <= p < t.len() && (!char_is_whitespace(c) || allow) && c != ')' && c != ']' && c != '\0' {
        let allow2 = if c == '|' {
            if elem == seq!['"'] {
                true
            } else if allow {
                false
            } else {
                allow
            }
        } else {
            allow
        };
        lemma_ident_phase_bounds(t, p + 1, elem.push(c), allow2);
        let q = ident_phase(t, p, elem, allow).0;
        assert(elem.push(c) + t.subrange(p + 1, q) =~= elem + t.subrange(p, q));
    } else {
        assert(elem + t.subrange(p, p) =~= elem);
    }
}

/// Every round of reading at a character other than NUL moves forward.
proof fn lemma_round_moves(t: Seq<char>, p: int, m: Marks)
    requires
        0 <= p <= t.len(),
        cur(t, p) != '\0',
    ensures
        p < round(t, p, m).0 <= t.len(),
{
    let p1 = skip_ws(t, p);
    lemma_skip_ws_bounds(t, p);
    let p2 = if cur(t, p1) == ';' {
        line_end(t, p1)
    } else {
        p1
    };
    lemma_line_end_bounds(t, p1);
    if cur(t, p1) == ';' {
        assert(line_end(t, p1) == line_end(t, p1 + 1));
        lemma_line_end_bounds(t, p1 + 1);
    }
    let p3 = paren_end(t, p2);
    lemma_paren_end_bounds(t, p2);
    assert(lead(t, p).0 == p3);
    let (p4, s4, m4) = bracket_phase(t, p3, m);
    lemma_bracket_phase_bounds(t, p3, m);
    lemma_ident_phase_bounds(t, p4, Seq::empty(), m4.allow_ws);
    let (p5, w, allow) = ident_phase(t, p4, Seq::empty(), m4.allow_ws);
    if p1 == p {
        assert(!(char_is_whitespace(t[p]) && t[p] != '\0'));
        if cur(t, p) != ';' {
            assert(p2 == p);
            if p3 == p {
                if t[p] == '(' || t[p] == ')' {
                    lemma_paren_end_bounds(t, p + 1);
                }
                assert(!(t[p] == '(' || t[p] == ')'));
                if p4 == p {
                    assert(!(t[p] == '[' || t[p] == ']'));
                    assert(p < p5);
                }
            }
        }
    }
}

/// The spans end with the plain NUL span that closes a word list still open
/// at the end of the code.
pub open spec fn closes_open_list(spans: Seq<Span>) -> bool {
    spans.len() > 0 && spans.last() == (seq!['\0'], Highlight::Plain)
}

/// The code ends inside a word list that was never closed, so that its
/// spans end with the NUL span that closes it.
pub open spec fn ends_in_open_word_list(t: Seq<char>) -> bool {
    closes_open_list(highlights(t))
}

/// The text of a sequence of spans, one after the other.
pub open spec fn span_text(spans: Seq<Span>) -> Seq<char>
    decreases spans.len(),
{
    if spans.len() == 0 {
        Seq::empty()
    } else {
        span_text(spans.drop_last()) + spans.last().0
    }
}

/// The text of two sequences of spans is the text of the first followed by
/// that of the second.
proof fn lemma_span_text_concat(a: Seq<Span>, b: Seq<Span>)
    ensures
        span_text(a + b) == span_text(a) + span_text(b),
    decreases b.len(),
{
    if b.len() == 0 {
        assert(a + b =~= a);
        assert(span_text(a) + Seq::<char>::empty() =~= span_text(a));
    } else {
        lemma_span_text_concat(a, b.drop_last());
        assert((a + b).drop_last() =~= a + b.drop_last());
        assert(span_text(a) + span_text(b.drop_last()) + b.last().0 =~= span_text(a) + (span_text(
            b.drop_last(),
        ) + b.last().0));
    }
}

/// The text of one span is its own text.
proof fn lemma_span_text_one(x: Span)
    ensures
        span_text(seq![x]) == x.0,
{
    assert(seq![x].drop_last() =~= Seq::<Span>::empty());
    assert(span_text(Seq::<Span>::empty()) == Seq::<char>::empty());
    assert(span_text(seq![x]) == span_text(seq![x].drop_last()) + seq![x].last().0);
    assert(Seq::<char>::empty() + x.0 =~= x.0);
}

/// The spans of single characters give back those characters.
proof fn lemma_char_spans_text(t: Seq<char>, p: int, q: int)
    requires
        0 <= p <= q <= t.len(),
    ensures
        span_text(char_spans(t, p, q)) == t.subrange(p, q),
    decreases q - p,
{
    if q == p {
        assert(char_spans(t, p, q) =~= Seq::<Span>::empty());
        assert(t.subrange(p, q) =~= Seq::<char>::empty());
    } else {
        lemma_char_spans_text(t, p, q - 1);
        assert(char_spans(t, p, q).drop_last() =~= char_spans(t, p, q - 1));
        assert(t.subrange(p, q - 1) + seq![t[q - 1]] =~= t.subrange(p, q));
    }
}

/// The spans of whitespace, comment and parentheses give back the text
/// they were read from.
proof fn lemma_lead_text(t: Seq<char>, p: int)
    requires
        0 <= p <= t.len(),
    ensures
        p <= lead(t, p).0 <= t.len(),
        span_text(lead(t, p).1) == t.subrange(p, lead(t, p).0),
{
    let p1 = skip_ws(t, p);
    lemma_skip_ws_bounds(t, p);
    let s1 = if p1 > p {
        seq![(t.subrange(p, p1), Highlight::Plain)]
    } else {
        Seq::empty()
    };
    let p2 = if cur(t, p1) == ';' {
        line_end(t, p1)
    } else {
        p1
    };
    lemma_line_end_bounds(t, p1);
    let s2 = if cur(t, p1) == ';' {
        seq![(t.subrange(p1, p2), Highlight::Comment)]
    } else {
        Seq::empty()
    };
    let p3 = paren_end(t, p2);
    lemma_paren_end_bounds(t, p2);
    lemma_char_spans_text(t, p2, p3);
    lemma_span_text_concat(s1, s2);
    lemma_span_text_concat(s1 + s2, char_spans(t, p2, p3));
    if p1 > p {
        lemma_span_text_one((t.subrange(p, p1), Highlight::Plain));
    } else {
        assert(span_text(s1) =~= t.subrange(p, p1));
    }
    if cur(t, p1) == ';' {
        lemma_span_text_one((t.subrange(p1, p2), Highlight::Comment));
    } else {
        assert(span_text(s2) =~= t.subrange(p1, p2));
    }
    assert(t.subrange(p, p1) + t.subrange(p1, p2) + t.subrange(p2, p3) =~= t.subrange(p, p3));
}

/// The spans of brackets give back the text they were read from, and a
/// NUL after it when a word list is still open at the end of the text.
proof fn lemma_bracket_text(t: Seq<char>, p: int, m: Marks)
    requires
        0 <= p <= t.len(),
    ensures
        ({
            let (r, spans, m1) = bracket_phase(t, p, m);
            ||| span_text(spans) == t.subrange(p, r)
            ||| (r == t.len() && span_text(spans) == t.subrange(p, r).push('\0') && closes_open_list(
                spans,
            ))
        }),
    decreases t.len() - p,
{
    lemma_bracket_phase_bounds(t, p, m);
    if 0 <= p < t.len() && (t[p] == '[' || t[p] == ']') {
        let c = t[p];
        let b = if c == '[' {
            m.brackets + 1
        } else {
            m.brackets - 1
        };
        let m1 = Marks { brackets: b, is_let: if b == 0 {
            false
        } else {
            m.is_let
        }, ..m };
        if c == '[' && m1.word_list > 0 {
            let q = list_end(t, p + 1);
            lemma_list_end_bounds(t, p + 1);
            let m2 = Marks { word_list: 0, ..m1 };
            let spans = seq![
                (seq![c], Highlight::Plain),
                (t.subrange(p + 1, q), Highlight::Word),
                (seq![cur(t, q)], Highlight::Plain),
            ];
            let (r, rest, m3) = bracket_phase(t, step(t, q), m2);
            lemma_bracket_text(t, step(t, q), m2);
            lemma_bracket_phase_bounds(t, step(t, q), m2);
            lemma_span_text_concat(spans, rest);
            assert(spans =~= seq![spans[0]] + seq![spans[1]] + seq![spans[2]]);
            lemma_span_text_concat(seq![spans[0]] + seq![spans[1]], seq![spans[2]]);
            lemma_span_text_concat(seq![spans[0]], seq![spans[1]]);
            lemma_span_text_one(spans[0]);
            lemma_span_text_one(spans[1]);
            lemma_span_text_one(spans[2]);
            if q < t.len() {
                assert(seq![c] + t.subrange(p + 1, q) + seq![t[q]] =~= t.subrange(p, q + 1));
                if span_text(rest) == t.subrange(q + 1, r) {
                    assert(t.subrange(p, q + 1) + t.subrange(q + 1, r) =~= t.subrange(p, r));
                } else {
                    assert(t.subrange(p, q + 1) + t.subrange(q + 1, r).push('\0') =~= t.subrange(
                        p,
                        r,
                    ).push('\0'));
                }
            } else {
                assert(r == t.len());
                assert(t.subrange(q, r) =~= Seq::<char>::empty());
                assert(bracket_phase(t, q, m2).1 =~= Seq::<Span>::empty());
                assert(seq![c] + t.subrange(p + 1, q) + seq!['\0'] + Seq::<char>::empty()
                    =~= t.subrange(p, r).push('\0'));
            }
        } else {
            let (r, rest, m3) = bracket_phase(t, p + 1, m1);
            lemma_bracket_text(t, p + 1, m1);
            lemma_bracket_phase_bounds(t, p + 1, m1);
            lemma_span_text_concat(seq![(seq![c], Highlight::Plain)], rest);
            lemma_span_text_one((seq![c], Highlight::Plain));
            if span_text(rest) == t.subrange(p + 1, r) {
                assert(seq![c] + t.subrange(p + 1, r) =~= t.subrange(p, r));
            } else {
                assert(seq![c] + t.subrange(p + 1, r).push('\0') =~= t.subrange(p, r).push('\0'));
            }
        }
    } else {
        assert(span_text(Seq::<Span>::empty()) =~= t.subrange(p, p));
    }
}

/// The spans of one round give back the text read, and a NUL after it when
/// a word list is still open at the end of the text.
proof fn lemma_round_text(t: Seq<char>, p: int, m: Marks)
    requires
        0 <= p <= t.len(),
    ensures
        ({
            let (q, spans, m1) = round(t, p, m);
            &&& p <= q <= t.len()
            &&& {
                ||| span_text(spans) == t.subrange(p, q)
                ||| (q == t.len() && span_text(spans) == t.subrange(p, q).push('\0')
                    && closes_open_list(spans))
            }
        }),
{
    let (p3, s) = lead(t, p);
    lemma_lead_text(t, p);
    let (p4, s4, m4) = bracket_phase(t, p3, m);
    lemma_bracket_text(t, p3, m);
    lemma_bracket_phase_bounds(t, p3, m);
    let (p5, w, allow) = ident_phase(t, p4, Seq::empty(), m4.allow_ws);
    lemma_ident_phase_bounds(t, p4, Seq::empty(), m4.allow_ws);
    assert(Seq::<char>::empty() + t.subrange(p4, p5) =~= t.subrange(p4, p5));
    lemma_span_text_concat(s, s4);
    let m5 = Marks { allow_ws: allow, ..m4 };
    if span_text(s4) == t.subrange(p3, p4) {
        assert(t.subrange(p, p3) + t.subrange(p3, p4) =~= t.subrange(p, p4));
        if w.len() > 0 {
            let (h, m6) = classify(w, m5);
            lemma_span_text_concat(s + s4, seq![(w, h)]);
            lemma_span_text_one((w, h));
            assert(t.subrange(p, p4) + t.subrange(p4, p5) =~= t.subrange(p, p5));
        } else {
            assert(t.subrange(p4, p5) =~= Seq::<char>::empty());
            assert(p4 == p5);
        }
    } else {
        assert(p4 == t.len());
        assert(p5 == p4);
        assert(w =~= Seq::<char>::empty());
        assert(t.subrange(p, p3) + t.subrange(p3, p4).push('\0') =~= t.subrange(p, p4).push('\0'));
    }
}

/// The spans from `p` on give back the rest of a text without NUL
/// characters, and a NUL after it when a word list is still open at its
/// end.
proof fn lemma_highlight_text(t: Seq<char>, p: int, m: Marks)
    requires
        0 <= p <= t.len(),
        forall|i: int| 0 <= i < t.len() ==> t[i] != '\0',
    ensures
        ({
            let x = span_text(highlight_from(t, p, m));
            ||| x == t.subrange(p, t.len() as int)
            ||| (x == t.subrange(p, t.len() as int).push('\0') && closes_open_list(
                highlight_from(t, p, m),
            ))
        }),
    decreases t.len() - p,
{
    if cur(t, p) == '\0' {
        assert(p == t.len());
        assert(span_text(Seq::<Span>::empty()) =~= t.subrange(p, t.len() as int));
    } else {
        let (q, spans, m1) = round(t, p, m);
        lemma_round_moves(t, p, m);
        lemma_round_text(t, p, m);
        lemma_highlight_text(t, q, m1);
        lemma_span_text_concat(spans, highlight_from(t, q, m1));
        let rest = span_text(highlight_from(t, q, m1));
        if span_text(spans) == t.subrange(p, q) {
            if rest == t.subrange(q, t.len() as int) {
                assert(t.subrange(p, q) + rest =~= t.subrange(p, t.len() as int));
            } else {
                assert(t.subrange(p, q) + rest =~= t.subrange(p, t.len() as int).push('\0'));
            }
        } else {
            assert(q == t.len());
            assert(highlight_from(t, q, m1) =~= Seq::<Span>::empty());
            assert(rest =~= Seq::<char>::empty());
            assert(span_text(spans) + rest =~= t.subrange(p, t.len() as int).push('\0'));
        }
    }
}

/// Highlighting shows every character of the code once and in order: the
/// spans of a code without NUL characters, one after the other, give back
/// exactly the code, unless a word list is still open at its end; then
/// they give back the code followed by the NUL that closes the list.
pub proof fn law_spans_give_back_text(t: Seq<char>)
    requires
        forall|i: int| 0 <= i < t.len() ==> t[i] != '\0',
    ensures
        !ends_in_open_word_list(t) ==> span_text(highlights(t)) == t,
        ends_in_open_word_list(t) ==> span_text(highlights(t)) == t.push('\0'),
{
    lemma_highlight_text(t, 0, initial_marks());
    let h = highlights(t);
    assert(t.subrange(0, t.len() as int) =~= t);
    if ends_in_open_word_list(t) && span_text(h) == t {
        assert(span_text(h) == span_text(h.drop_last()) + seq!['\0']);
        assert(t[t.len() - 1] == span_text(h)[span_text(h).len() - 1]);
    }
}

/// The state of an exec reading of the code.
struct HighlightState {
    pos: usize,
    allow_ws: bool,
    brackets: i64,
    var_def: u8,
    obj_def: u8,
    word_list: u8,
    is_let: bool,
}

impl HighlightState {
    spec fn marks(self) -> Marks {
        Marks {
            allow_ws: self.allow_ws,
            brackets: self.brackets as int,
            var_def: self.var_def as int,
            obj_def: self.obj_def as int,
            word_list: self.word_list as int,
            is_let: self.is_let,
        }
    }

    /// The position lies in the text, the nesting depth is no more than
    /// the position, and each count is small.
    spec fn wf(self, t: Seq<char>) -> bool {
        &&& self.pos <= t.len()
        &&& -(self.pos as int) <= self.brackets <= self.pos
        &&& self.var_def <= 3
        &&& self.obj_def <= 3
        &&& self.word_list <= 2
    }
}

/// The character at `p`, or NUL past the end.
fn char_at(t: &Vec<char>, p: usize) -> (c: char)
    ensures
        c == cur(t@, p as int),
{
    if p < t.len() {
        t[p]
    } else {
        '\0'
    }
}

/// Reads the brackets at the current position (see `bracket_phase`).
fn read_brackets(t: &Vec<char>, st: &mut HighlightState, out: &mut Vec<(String, Highlight)>)
    requires
        old(st).wf(t@),
        t@.len() < i32::MAX,
    ensures
        final(st).wf(t@),
        ({
            let (r, spans, m) = bracket_phase(t@, old(st).pos as int, old(st).marks());
            &&& final(st).pos == r
            &&& final(st).marks() == m
            &&& spans_view(final(out)@) == spans_view(old(out)@) + spans
        }),
{
    let ghost p0 = st.pos as int;
    let ghost m0 = st.marks();
    while char_at(t, st.pos) == '[' || char_at(t, st.pos) == ']'
        invariant
            st.wf(t@),
            t@.len() < i32::MAX,
            p0 <= st.pos,
            ({
                let (r, spans, m) = bracket_phase(t@, st.pos as int, st.marks());
                let (r0, spans0, mm0) = bracket_phase(t@, p0, m0);
                &&& r == r0
                &&& m == mm0
                &&& spans_view(out@) + spans == spans_view(old(out)@) + spans0
            }),
        decreases t@.len() - st.pos,
    {
        let c = char_at(t, st.pos);
        let ghost p = st.pos as int;
        let ghost m = st.marks();
        let ghost before = out@;
        if c == '[' {
            st.brackets = st.brackets + 1;
        } else {
            st.brackets = st.brackets - 1;
        }
        if st.brackets == 0 {
            st.is_let = false;
        }
        let mut open = String::new();
        crate::text::push_char(&mut open, c);
        out.push((open, Highlight::Plain));
        if c == '[' && st.word_list > 0 {
            let start = st.pos + 1;
            proof {
                lemma_list_end_bounds(t@, start as int);
            }
            let mut q = start;
            while q < t.len() && t[q] != ']' && t[q] != '\0'
                invariant
                    start <= q <= t@.len(),
                    list_end(t@, q as int) == list_end(t@, start as int),
                decreases t@.len() - q,
            {
                q = q + 1;
            }
            let word = string_from_range(t, start, q);
            out.push((word, Highlight::Word));
            let mut close = String::new();
            crate::text::push_char(&mut close, char_at(t, q));
            out.push((close, Highlight::Plain));
            st.word_list = 0;
            st.pos = if q < t.len() {
                q + 1
            } else {
                q
            };
            proof {
                let spans = seq![
                    (seq![c], Highlight::Plain),
                    (t@.subrange(p + 1, q as int), Highlight::Word),
                    (seq![cur(t@, q as int)], Highlight::Plain),
                ];
                assert(spans_view(out@) =~= spans_view(before) + spans);
            }
        } else {
            st.pos = st.pos + 1;
            proof {
                assert(spans_view(out@) =~= spans_view(before) + seq![(seq![c], Highlight::Plain)]);
            }
        }
    }
    assert(spans_view(out@) + Seq::<Span>::empty() =~= spans_view(out@));
    assert(bracket_phase(t@, st.pos as int, st.marks()) == (
        st.pos as int,
        Seq::<Span>::empty(),
        st.marks(),
    ));
}

/// Reads a word at the current position (see `ident_phase`).
fn read_word(t: &Vec<char>, st: &mut HighlightState) -> (w: Vec<char>)
    requires
        old(st).wf(t@),
        t@.len() < i32::MAX,
    ensures
        final(st).wf(t@),
        ({
            let (r, elem, allow) = ident_phase(t@, old(st).pos as int, Seq::empty(), old(st).allow_ws);
            &&& final(st).pos == r
            &&& w@ == elem
            &&& final(st).marks() == Marks { allow_ws: allow, ..old(st).marks() }
        }),
{
    let ghost p0 = st.pos as int;
    let ghost a0 = st.allow_ws;
    let mut w: Vec<char> = Vec::new();
    proof {
        lemma_ident_phase_bounds(t@, p0, Seq::empty(), a0);
    }
    while (!is_whitespace(char_at(t, st.pos)) || st.allow_ws) && char_at(t, st.pos) != ')'
        && char_at(t, st.pos) != ']' && char_at(t, st.pos) != '\0'
        invariant
            st.wf(t@),
            t@.len() < i32::MAX,
            old(st).pos <= st.pos,
            st.brackets == old(st).brackets,
            st.var_def == old(st).var_def,
            st.obj_def == old(st).obj_def,
            st.word_list == old(st).word_list,
            st.is_let == old(st).is_let,
            ident_phase(t@, st.pos as int, w@, st.allow_ws) == ident_phase(
                t@,
                p0,
                Seq::empty(),
                a0,
            ),
        decreases t@.len() - st.pos,
    {
        let c = char_at(t, st.pos);
        if c == '|' {
            if w.len() == 1 && w[0] == '"' {
                st.allow_ws = true;
            } else if st.allow_ws {
                st.allow_ws = false;
            }
            proof {
                assert((w@.len() == 1 && w@[0] == '"') == (w@ =~= seq!['"']));
            }
        }
        assert(st.pos < t@.len());
        w.push(c);
        st.pos = st.pos + 1;
    }
    assert(ident_phase(t@, st.pos as int, w@, st.allow_ws) == (st.pos as int, w@, st.allow_ws));
    w
}

/// Whether every character of `w` is numeric, `-` or `.`.
fn check_number_like(w: &Vec<char>) -> (b: bool)
    ensures
        b == is_number_like(w@),
{
    let mut i: usize = 0;
    while i < w.len()
        invariant
            i <= w@.len(),
            forall|j: int| 0 <= j < i ==> numeric(#[trigger] w@[j]) || w@[j] == '-' || w@[j] == '.',
        decreases w@.len() - i,
    {
        let c = w[i];
        if !(is_numeric(c) || c == '-' || c == '.') {
            return false;
        }
        i = i + 1;
    }
    true
}

/// The kind of the word `w`, updating the marks (see `classify`).
fn classify_and_mark(w: &Vec<char>, st: &mut HighlightState) -> (h: Highlight)
    requires
        old(st).var_def <= 3,
        old(st).obj_def <= 3,
        old(st).word_list <= 2,
        w@.len() > 0,
    ensures
        final(st).pos == old(st).pos,
        (h, final(st).marks()) == classify(w@, old(st).marks()),
        final(st).var_def <= 3,
        final(st).obj_def <= 3,
        final(st).word_list <= 2,
        final(st).brackets == old(st).brackets,
{
    let word = string_from_chars(w);
    let n = w.len();
    let h: Highlight;
    if is_definition_command(&word) && !st.is_let {
        if let Some(count) = var_def_count(&word) {
            st.var_def = count + 1;
        } else if let Some(count) = obj_def_count(&word) {
            st.obj_def = count + 1;
        } else if n == 3 && w[0] == 'l' && w[1] == 'e' && w[2] == 't' {
            st.is_let = true;
        }
        proof {
            reveal_strlit("let");
            assert((n == 3 && w@[0] == 'l' && w@[1] == 'e' && w@[2] == 't') == (w@ =~= "let"@));
        }
        h = Highlight::Definition;
    } else if is_control_flow_command(&word) && !st.is_let {
        h = Highlight::ControlFlow;
    } else if is_other_command(&word) && !st.is_let {
        if let Some(count) = obj_def_count(&word) {
            st.obj_def = count + 1;
        } else if is_word_list_command(&word) {
            st.word_list = 2;
        }
        h = Highlight::Command;
    } else if w[0] == ':' {
        h = Highlight::Variable;
    } else if w[0] == '"' {
        if st.var_def > 0 {
            h = Highlight::Variable;
        } else if st.obj_def > 0 {
            h = Highlight::Object;
        } else {
            h = Highlight::Word;
        }
    } else if check_number_like(w) {
        h = Highlight::Number;
    } else if w[n - 1] == ',' {
        h = Highlight::Object;
    } else if n >= 2 && w[n - 2] == '\'' && w[n - 1] == 's' {
        st.var_def = 2;
        h = Highlight::Object;
    } else if st.is_let && st.brackets > 0 && st.brackets % 2 != 0 {
        h = Highlight::Variable;
    } else {
        h = Highlight::Plain;
    }
    if st.var_def > 0 {
        st.var_def = st.var_def - 1;
    }
    if st.obj_def > 0 {
        st.obj_def = st.obj_def - 1;
    }
    if st.word_list > 0 {
        st.word_list = st.word_list - 1;
    }
    h
}

/// Reads whitespace, a comment and parentheses (see `lead`).
fn read_lead(t: &Vec<char>, st: &mut HighlightState, out: &mut Vec<(String, Highlight)>)
    requires
        old(st).wf(t@),
        t@.len() < i32::MAX,
    ensures
        final(st).wf(t@),
        final(st).marks() == old(st).marks(),
        final(st).pos == lead(t@, old(st).pos as int).0,
        spans_view(final(out)@) == spans_view(old(out)@) + lead(t@, old(st).pos as int).1,
{
    let ghost p = st.pos as int;
    let ghost m = st.marks();
    let ghost before = out@;
    // Whitespace.
    let start = st.pos;
    proof {
        lemma_skip_ws_bounds(t@, p);
    }
    while st.pos < t.len() && is_whitespace(t[st.pos]) && t[st.pos] != '\0'
        invariant
            st.wf(t@),
            t@.len() < i32::MAX,
            start <= st.pos,
            skip_ws(t@, st.pos as int) == skip_ws(t@, start as int),
            st.marks() == m,
        decreases t@.len() - st.pos,
    {
        st.pos = st.pos + 1;
    }
    let ghost p1 = st.pos as int;
    if st.pos > start {
        out.push((string_from_range(t, start, st.pos), Highlight::Plain));
    }
    let ghost after1 = out@;
    // A comment.
    if char_at(t, st.pos) == ';' {
        let s = st.pos;
        while st.pos < t.len() && t[st.pos] != '\n' && t[st.pos] != '\0'
            invariant
                st.wf(t@),
                t@.len() < i32::MAX,
                s <= st.pos,
                line_end(t@, st.pos as int) == line_end(t@, s as int),
                st.marks() == m,
            decreases t@.len() - st.pos,
        {
            st.pos = st.pos + 1;
        }
        out.push((string_from_range(t, s, st.pos), Highlight::Comment));
    }
    let ghost p2 = st.pos as int;
    let ghost after2 = out@;
    // Parentheses.
    while char_at(t, st.pos) == '(' || char_at(t, st.pos) == ')'
        invariant
            st.wf(t@),
            t@.len() < i32::MAX,
            p2 <= st.pos,
            paren_end(t@, st.pos as int) == paren_end(t@, p2),
            spans_view(out@) == spans_view(after2) + char_spans(t@, p2, st.pos as int),
            st.marks() == m,
        decreases t@.len() - st.pos,
    {
        let c = char_at(t, st.pos);
        let mut one = String::new();
        crate::text::push_char(&mut one, c);
        let ghost mid = out@;
        out.push((one, Highlight::Plain));
        proof {
            assert(spans_view(out@) =~= spans_view(mid).push((seq![c], Highlight::Plain)));
            assert(char_spans(t@, p2, st.pos + 1) =~= char_spans(t@, p2, st.pos as int).push(
                (seq![c], Highlight::Plain),
            ));
        }
        st.pos = st.pos + 1;
    }
    proof {
        let s1 = if p1 > p {
            seq![(t@.subrange(p, p1), Highlight::Plain)]
        } else {
            Seq::empty()
        };
        let s2 = if cur(t@, p1) == ';' {
            seq![(t@.subrange(p1, p2), Highlight::Comment)]
        } else {
            Seq::empty()
        };
        assert(spans_view(after1) =~= spans_view(before) + s1);
        assert(spans_view(after2) =~= spans_view(after1) + s2);
        assert(spans_view(out@) =~= spans_view(before) + (s1 + s2 + char_spans(t@, p2, st.pos as int)));
    }
}

/// Reads one round (see `round`).
fn read_round(t: &Vec<char>, st: &mut HighlightState, out: &mut Vec<(String, Highlight)>)
    requires
        old(st).wf(t@),
        t@.len() < i32::MAX,
    ensures
        final(st).wf(t@),
        ({
            let (q, spans, m1) = round(t@, old(st).pos as int, old(st).marks());
            &&& final(st).pos == q
            &&& final(st).marks() == m1
            &&& spans_view(final(out)@) == spans_view(old(out)@) + spans
        }),
{
    let ghost before = out@;
    read_lead(t, st, out);
    let ghost after1 = out@;
    read_brackets(t, st, out);
    let ghost after2 = out@;
    let w = read_word(t, st);
    if w.len() > 0 {
        let h = classify_and_mark(&w, st);
        let word = string_from_chars(&w);
        out.push((word, h));
        proof {
            assert(spans_view(out@) =~= spans_view(after2).push((w@, h)));
        }
    }
    proof {
        let (p3, s) = lead(t@, old(st).pos as int);
        let (p4, s4, m4) = bracket_phase(t@, p3, old(st).marks());
        if w.len() > 0 {
            let (h, m6) = classify(w@, Marks { allow_ws: st.allow_ws, ..m4 });
            assert(spans_view(out@) =~= spans_view(before) + (s + s4 + seq![(w@, h)]));
        } else {
            assert(spans_view(out@) =~= spans_view(before) + (s + s4));
        }
    }
}

/// Cuts Logo code into spans, each with the kind of text it holds.
#[derive(Default, Debug, Clone)]
pub struct Highlighter {}

impl Highlighter {
    /// A highlighter.
    pub fn new() -> (h: Self) {
        Highlighter {  }
    }

    /// The spans of `text` and the kind of each (see `highlights`).
    pub fn compute_highlights(&self, text: &str) -> (r: Vec<(String, Highlight)>)
        requires
            text@.len() < i32::MAX,
        ensures
            spans_view(r@) == highlights(text@),
    {
        let t = crate::text::chars_of(text);
        let mut st = HighlightState {
            pos: 0,
            allow_ws: false,
            brackets: 0,
            var_def: 0,
            obj_def: 0,
            word_list: 0,
            is_let: false,
        };
        let mut out: Vec<(String, Highlight)> = Vec::new();
        assert(spans_view(out@) =~= Seq::<Span>::empty());
        assert(st.marks() == initial_marks());
        while char_at(&t, st.pos) != '\0'
            invariant
                st.wf(t@),
                t@ == text@,
                t@.len() < i32::MAX,
                spans_view(out@) + highlight_from(t@, st.pos as int, st.marks()) == highlights(t@),
            decreases t@.len() - st.pos,
        {
            proof {
                lemma_round_moves(t@, st.pos as int, st.marks());
            }
            read_round(&t, &mut st, &mut out);
        }
        out
    }
}

/// A word that starts with `"`, read while object names are expected and no
/// variable name is, is an object name, and one object name fewer is
/// expected after it.
pub proof fn law_quoted_word_is_object_name(q: Seq<char>, m: Marks)
    requires
        q.len() > 0,
        q[0] == '"',
        m.var_def == 0,
        m.obj_def > 0,
    ensures
        classify(q, m).0 == Highlight::Object,
        classify(q, m).1.obj_def == m.obj_def - 1,
        classify(q, m).1.var_def == 0,
{
    lemma_quoted_words_are_no_commands(q);
}

/// After a command that expects `n` object names (`ask`, `talkto`,
/// `touching?`, ...), read outside the list of a `let` and while no
/// variable name is expected, `n` object names are expected; so the word
/// after it, when it starts with `"`, is an object name.
pub proof fn law_object_names_after_command(w: Seq<char>, q: Seq<char>, m: Marks)
    requires
        object_definition_count(w) is Some,
        !m.is_let,
        m.var_def == 0,
        q.len() > 0,
        q[0] == '"',
    ensures
        classify(w, m).1.obj_def == object_definition_count(w).unwrap() as int,
        classify(w, m).1.var_def == 0,
        classify(q, classify(w, m).1).0 == Highlight::Object,
{
    lemma_object_commands(w);
    let n = object_definition_count(w).unwrap();
    assert(n >= 1);
    law_quoted_word_is_object_name(q, classify(w, m).1);
}

} // verus!


