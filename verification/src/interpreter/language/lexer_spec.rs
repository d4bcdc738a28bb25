//! What the lexer reads: the meaning of each reading step, over the text of
//! a code block and a position in it.
use vstd::prelude::*;

use crate::interpreter::language::command::{Params, SCommand};
use crate::interpreter::language::language::SLanguage;
use crate::interpreter::language::token::SToken;
use crate::interpreter::language::util::ascii_lower;
use crate::text::{alphanumeric, char_is_whitespace};

verus! {

/// The character at position `p`, or NUL past the end of the text.
pub open spec fn cur(t: Seq<char>, p: int) -> char {
    if 0 <= p < t.len() {
        t[p]
    } else {
        '\0'
    }
}

/// The position after `p`; the end of the text is never passed.
pub open spec fn adv(t: Seq<char>, p: int) -> int {
    if p < t.len() {
        p + 1
    } else {
        p
    }
}

/// The first position at or after `p` that does not hold whitespace.
pub open spec fn skip_ws(t: Seq<char>, p: int) -> int
    decreases t.len() - p,
{
    if 0 <= p < t.len() && char_is_whitespace(t[p]) && t[p] != '\0' {
        skip_ws(t, p + 1)
    } else {
        p
    }
}

/// The first position at or after `p` that holds a newline or NUL.
pub open spec fn line_end(t: Seq<char>, p: int) -> int
    decreases t.len() - p,
{
    if 0 <= p < t.len() && t[p] != '\n' && t[p] != '\0' {
        line_end(t, p + 1)
    } else {
        p
    }
}

/// The position after the end of the line that holds `p`.
pub open spec fn skip_line(t: Seq<char>, p: int) -> int {
    adv(t, line_end(t, p))
}

/// Reading an identifier from `p` with bracket depth `depth`, inside bars
/// when `barred`, having read `acc`: the end position, the final depth and
/// bar state, and the identifier. Bars at depth zero are dropped and let
/// whitespace into the identifier.
pub open spec fn ident_scan(t: Seq<char>, p: int, depth: int, barred: bool, acc: Seq<char>) -> (
    int,
    int,
    bool,
    Seq<char>,
)
    decreases t.len() - p,
{
    if 0 <= p < t.len() && (!char_is_whitespace(t[p]) || depth != 0 || barred) && t[p] != '\0' {
        let c = t[p];
        let d = if c == '[' {
            depth + 1
        } else if c == ']' {
            depth - 1
        } else {
            depth
        };
        if c == '|' && d == 0 {
            ident_scan(t, p + 1, d, !barred, acc)
        } else {
            ident_scan(t, p + 1, d, barred, acc.push(c))
        }
    } else {
        (p, depth, barred, acc)
    }
}

/// Reading an identifier after skipping whitespace: the end position and
/// the identifier, or an error for unmatched brackets or bars.
pub open spec fn spec_read_identifier(t: Seq<char>, p: int) -> (int, Result<Seq<char>, Seq<char>>) {
    let (q, depth, barred, ident) = ident_scan(t, skip_ws(t, p), 0, false, Seq::empty());
    if depth != 0 {
        (q, Err("found unmatched brackets"@))
    } else if barred {
        (q, Err("found unmatched pipes"@))
    } else {
        (q, Ok(ident))
    }
}

/// Reading the inside of parentheses from `p` at nesting `depth`: the
/// position of the closing parenthesis (or of the end), the final depth and
/// the code read.
pub open spec fn paren_scan(t: Seq<char>, p: int, depth: int, acc: Seq<char>) -> (int, int, Seq<char>)
    decreases t.len() - p,
{
    if depth != 0 && 0 <= p < t.len() && t[p] != '\0' {
        let c = t[p];
        let d = if c == '(' {
            depth + 1
        } else if c == ')' {
            depth - 1
        } else {
            depth
        };
        if d == 0 {
            (p, d, acc)
        } else {
            paren_scan(t, p + 1, d, acc.push(c))
        }
    } else {
        (p, depth, acc)
    }
}

/// The hidden command that evaluates the code inside parentheses.
pub open spec fn paren_command() -> SCommand {
    SCommand { name: "__paren"@, is_reserved: true, params: Params::Fixed(1) }
}

/// The command that `name,` stands for.
pub open spec fn talkto_command() -> SCommand {
    SCommand { name: "talkto"@, is_reserved: true, params: Params::Fixed(1) }
}

/// The command that `name's` stands for.
pub open spec fn ask_command() -> SCommand {
    SCommand { name: "ask"@, is_reserved: true, params: Params::Fixed(2) }
}

/// Reading a parenthesised group at `p`: the grouping command applied to
/// the code inside, or an error when the parentheses do not match.
pub open spec fn spec_read_parenthesis(t: Seq<char>, p: int) -> (int, Result<SToken, Seq<char>>) {
    let (p0, d0) = if cur(t, p) == '(' {
        (adv(t, p), 1int)
    } else {
        (p, 0int)
    };
    let (q, d, code) = paren_scan(t, p0, d0, Seq::empty());
    if d != 0 {
        (q, Err("found unmatched parenthesis"@))
    } else {
        (adv(t, q), Ok(SToken::Command(paren_command(), seq![SToken::List(code)])))
    }
}

/// The characters from `p` up to whitespace or NUL.
pub open spec fn word_scan(t: Seq<char>, p: int, acc: Seq<char>) -> (int, Seq<char>)
    decreases t.len() - p,
{
    if 0 <= p < t.len() && !char_is_whitespace(t[p]) && t[p] != '\0' {
        word_scan(t, p + 1, acc.push(t[p]))
    } else {
        (p, acc)
    }
}

/// Looking for an infix operator after `p`: the position after it and the
/// operator, or `p` itself when the next word is no infix operator.
pub open spec fn spec_peek_infix(lang: SLanguage, t: Seq<char>, p: int) -> (int, Option<SCommand>) {
    let (q, op) = word_scan(t, skip_ws(t, p), Seq::empty());
    if lang.infix.contains_key(op) {
        (q, Some(lang.infix[op]))
    } else {
        (p, None)
    }
}

/// The alphanumeric characters from `p`.
pub open spec fn name_scan(t: Seq<char>, p: int, acc: Seq<char>) -> (int, Seq<char>)
    decreases t.len() - p,
{
    if 0 <= p < t.len() && alphanumeric(t[p]) {
        name_scan(t, p + 1, acc.push(t[p]))
    } else {
        (p, acc)
    }
}

/// The first position at or after `p` holding a colon, newline or NUL.
pub open spec fn colon_scan(t: Seq<char>, p: int) -> int
    decreases t.len() - p,
{
    if 0 <= p < t.len() && t[p] != ':' && t[p] != '\n' && t[p] != '\0' {
        colon_scan(t, p + 1)
    } else {
        p
    }
}

/// The characters from `p` up to a space, newline or NUL.
pub open spec fn param_scan(t: Seq<char>, p: int, acc: Seq<char>) -> (int, Seq<char>)
    decreases t.len() - p,
{
    if 0 <= p < t.len() && t[p] != ' ' && t[p] != '\n' && t[p] != '\0' {
        param_scan(t, p + 1, acc.push(t[p]))
    } else {
        (p, acc)
    }
}

/// The first position at or after `p` that does not hold a space.
pub open spec fn space_scan(t: Seq<char>, p: int) -> int
    decreases t.len() - p,
{
    if 0 <= p < t.len() && t[p] == ' ' {
        space_scan(t, p + 1)
    } else {
        p
    }
}

/// One step of reading parameter names: skip to the next colon, read the
/// name after it, and skip the spaces that follow.
pub open spec fn param_step(t: Seq<char>, p: int) -> (int, Seq<char>) {
    let (q, w) = param_scan(t, adv(t, colon_scan(t, p)), Seq::empty());
    (space_scan(t, q), w)
}

/// Reading the parameter names of a procedure header from `p` up to the
/// end of its line. Reading stops at the end of the text too.
pub open spec fn params_scan(t: Seq<char>, p: int, acc: Seq<Seq<char>>) -> (int, Seq<Seq<char>>)
    decreases t.len() - p,
{
    if 0 <= p < t.len() && t[p] != '\n' {
        let (q, w) = param_step(t, p);
        let acc2 = if w.len() > 0 {
            acc.push(w)
        } else {
            acc
        };
        if p < q <= t.len() {
            params_scan(t, q, acc2)
        } else {
            (q, acc2)
        }
    } else {
        (p, acc)
    }
}

/// The characters from `p` up to a newline or NUL.
pub open spec fn line_scan(t: Seq<char>, p: int, acc: Seq<char>) -> (int, Seq<char>)
    decreases t.len() - p,
{
    if 0 <= p < t.len() && t[p] != '\n' && t[p] != '\0' {
        line_scan(t, p + 1, acc.push(t[p]))
    } else {
        (p, acc)
    }
}

/// Reading the body of a procedure from `p`, line by line with leading
/// whitespace removed, up to a line that is exactly `end`: the end
/// position, the body, and whether the `end` line was found.
pub open spec fn body_scan(t: Seq<char>, p: int, code: Seq<char>) -> (int, Seq<char>, bool)
    decreases t.len() - p,
{
    if 0 <= p < t.len() && t[p] != '\0' {
        let (b, line) = line_scan(t, skip_ws(t, p), Seq::empty());
        let full = line.push(cur(t, b));
        let c = adv(t, b);
        if full == "end\n"@ {
            (c, code, true)
        } else if p < c <= t.len() {
            body_scan(t, c, code + full)
        } else {
            (c, code + full, false)
        }
    } else {
        (p, code, false)
    }
}

/// Reading a procedure definition from `p`: its name, the parameter names
/// on the rest of the line, and the body up to the line `end`.
pub open spec fn spec_read_procedure(t: Seq<char>, p: int) -> (int, Result<SToken, Seq<char>>) {
    let (q1, name) = name_scan(t, skip_ws(t, p), Seq::empty());
    let (q2, params) = params_scan(t, q1, Seq::empty());
    let (q4, code, complete) = body_scan(t, skip_line(t, q2), Seq::empty());
    if complete {
        (q4, Ok(SToken::Procedure(name, params, code)))
    } else {
        (q4, Err("procedure "@ + name + " has no end"@))
    }
}

/// Whether `c` is a decimal digit.
pub open spec fn is_digit(c: char) -> bool {
    '0' <= c && c <= '9'
}

/// `s` without one leading `+` or `-`.
pub open spec fn unsigned_part(s: Seq<char>) -> Seq<char> {
    if s.len() > 0 && (s[0] == '+' || s[0] == '-') {
        s.drop_first()
    } else {
        s
    }
}

/// The position of the first `e` or `E` at or after `i`, or the length.
pub open spec fn exponent_mark(s: Seq<char>, i: int) -> int
    decreases s.len() - i,
{
    if 0 <= i < s.len() && s[i] != 'e' && s[i] != 'E' {
        exponent_mark(s, i + 1)
    } else {
        i
    }
}

/// Digits with at most one decimal point and at least one digit.
pub open spec fn is_mantissa(m: Seq<char>) -> bool {
    &&& forall|i: int| 0 <= i < m.len() ==> is_digit(m[i]) || m[i] == '.'
    &&& forall|i: int, j: int| 0 <= i < m.len() && 0 <= j < m.len() && m[i] == '.' && m[j] == '.' ==> i == j
    &&& exists|i: int| 0 <= i < m.len() && is_digit(m[i])
}

/// An optional sign followed by at least one digit.
pub open spec fn is_exponent(x: Seq<char>) -> bool {
    let d = unsigned_part(x);
    d.len() > 0 && forall|i: int| 0 <= i < d.len() ==> is_digit(d[i])
}

/// A decimal number with an optional exponent.
pub open spec fn is_decimal(s: Seq<char>) -> bool {
    let k = exponent_mark(s, 0);
    if k >= s.len() {
        is_mantissa(s)
    } else {
        is_mantissa(s.subrange(0, k)) && is_exponent(s.subrange(k + 1, s.len() as int))
    }
}

/// `s` in lower case, for ASCII letters.
pub open spec fn lower_seq(s: Seq<char>) -> Seq<char> {
    s.map_values(|c: char| ascii_lower(c))
}

/// The syntax of numbers: an optional sign, then `inf`, `infinity` or `nan`
/// in any case, or a decimal number with an optional exponent (the syntax
/// that `f32`'s `FromStr` accepts).
pub open spec fn is_number_literal(s: Seq<char>) -> bool {
    let body = unsigned_part(s);
    let low = lower_seq(body);
    low == "inf"@ || low == "infinity"@ || low == "nan"@ || is_decimal(body)
}

/// Whether `s` ends with `'s`.
pub open spec fn ends_with_apostrophe_s(s: Seq<char>) -> bool {
    s.len() >= 2 && s[s.len() - 2] == '\'' && s[s.len() - 1] == 's'
}

/// The position and tokens after reading, from `p`, up to `k` more inputs
/// of the command called `name`; inputs that fail to read are left out.
/// The inputs of `to` are procedure definitions.
pub open spec fn spec_read_fixed(
    lang: SLanguage,
    t: Seq<char>,
    p: int,
    in_paren: bool,
    name: Seq<char>,
    k: nat,
    acc: Seq<SToken>,
) -> (int, Seq<SToken>)
    decreases t.len() - p, 2int, k,
{
    if !(0 <= p <= t.len()) || k == 0 {
        (p, acc)
    } else {
        let (p1, r) = if name == "to"@ {
            spec_read_procedure(t, p)
        } else {
            spec_read_token(lang, t, p, in_paren)
        };
        let acc2 = match r {
            Ok(tok) => acc.push(tok),
            Err(_) => acc,
        };
        if p <= p1 <= t.len() {
            spec_read_fixed(lang, t, p1, in_paren, name, (k - 1) as nat, acc2)
        } else {
            (p1, acc2)
        }
    }
}

/// The position and tokens after reading, from `p`, every input up to the
/// first that fails to read.
pub open spec fn spec_read_all(
    lang: SLanguage,
    t: Seq<char>,
    p: int,
    in_paren: bool,
    acc: Seq<SToken>,
) -> (int, Seq<SToken>)
    decreases t.len() - p, 2int, 0nat,
{
    if !(0 <= p <= t.len()) {
        (p, acc)
    } else {
        let (p1, r) = spec_read_token(lang, t, p, in_paren);
        match r {
            Ok(tok) => if p < p1 <= t.len() {
                spec_read_all(lang, t, p1, in_paren, acc.push(tok))
            } else {
                (p1, acc.push(tok))
            },
            Err(_) => (p1, acc),
        }
    }
}

/// The inputs of `command` read from `p`: a fixed number, a default number
/// (or every input up to the end inside parentheses), or none.
pub open spec fn spec_read_arguments(
    lang: SLanguage,
    t: Seq<char>,
    p: int,
    in_paren: bool,
    command: SCommand,
) -> (int, Seq<SToken>)
    decreases t.len() - p, 3int, 0nat,
{
    if !(0 <= p <= t.len()) {
        (p, Seq::empty())
    } else {
        match command.params {
            Params::Fixed(n) => spec_read_fixed(lang, t, p, in_paren, command.name, n as nat, Seq::empty()),
            Params::Variadic(n) => if in_paren {
                spec_read_all(lang, t, p, in_paren, Seq::empty())
            } else {
                spec_read_fixed(lang, t, p, in_paren, command.name, n as nat, Seq::empty())
            },
            Params::Empty => (p, Seq::empty()),
        }
    }
}

/// The operator applied to `left` and the one input read after it.
pub open spec fn spec_read_infix(
    lang: SLanguage,
    t: Seq<char>,
    p: int,
    in_paren: bool,
    left: SToken,
    operator: SCommand,
) -> (int, SToken)
    decreases t.len() - p, 3int, 0nat,
{
    if !(0 <= p <= t.len()) {
        (p, SToken::Command(operator, seq![left]))
    } else {
        let (q, rest) = spec_read_fixed(lang, t, p, in_paren, operator.name, 1, Seq::empty());
        (q, SToken::Command(operator, seq![left] + rest))
    }
}

/// `token`, or an infix operator applied to it when one follows.
pub open spec fn spec_handle_infix(
    lang: SLanguage,
    t: Seq<char>,
    p: int,
    in_paren: bool,
    token: SToken,
) -> (int, Result<SToken, Seq<char>>)
    decreases t.len() - p, 4int, 0nat,
{
    if !(0 <= p <= t.len()) {
        (p, Ok(token))
    } else {
        let (q, op) = spec_peek_infix(lang, t, p);
        match op {
            Some(operator) => if p <= q <= t.len() {
                let (q2, tok) = spec_read_infix(lang, t, q, in_paren, token, operator);
                (q2, Ok(tok))
            } else {
                (q, Ok(token))
            },
            None => (q, Ok(token)),
        }
    }
}

/// Reading one token from `p`: the end position, and the token or an
/// error. At the end of the text the error is `eof`; a comment gives the
/// void token; parentheses give a group; a command reads its inputs;
/// variables (`:name`), words (`"name`), numbers, booleans and lists
/// (`[...]`) stand for themselves; `name,` talks to an object and `name's`
/// asks one; any other word is undefined. A value may be followed by an
/// infix operator and its right input.
pub open spec fn spec_read_token(lang: SLanguage, t: Seq<char>, p: int, in_paren: bool) -> (
    int,
    Result<SToken, Seq<char>>,
)
    decreases t.len() - p, 0int, 0nat,
{
    if !(0 <= p <= t.len()) {
        (p, Err("eof"@))
    } else {
        let q = skip_ws(t, p);
        let c = cur(t, q);
        if c == '\0' {
            (q, Err("eof"@))
        } else if c == ';' {
            (skip_line(t, q), Ok(SToken::Void))
        } else if c == '(' {
            let (q2, r) = spec_read_parenthesis(t, q);
            match r {
                Err(e) => (q2, Err(e)),
                Ok(tok) => if p < q2 <= t.len() {
                    spec_handle_infix(lang, t, q2, in_paren, tok)
                } else {
                    (q2, Ok(tok))
                },
            }
        } else {
            let (q2, ri) = spec_read_identifier(t, q);
            match ri {
                Err(e) => (q2, Err(e)),
                Ok(ident) => if !(p < q2 <= t.len()) {
                    (q2, Ok(SToken::Undefined(ident)))
                } else if lang.commands.contains_key(ident) {
                    let command = lang.commands[ident];
                    let (q3, args) = spec_read_arguments(lang, t, q2, in_paren, command);
                    if q2 <= q3 <= t.len() {
                        spec_handle_infix(lang, t, q3, in_paren, SToken::Command(command, args))
                    } else {
                        (q3, Ok(SToken::Command(command, args)))
                    }
                } else if ident.len() > 0 && ident[0] == ':' {
                    spec_handle_infix(lang, t, q2, in_paren, SToken::Variable(ident.drop_first()))
                } else if ident.len() > 0 && ident[0] == '"' {
                    spec_handle_infix(lang, t, q2, in_paren, SToken::Word(ident.drop_first()))
                } else if is_number_literal(ident) {
                    spec_handle_infix(lang, t, q2, in_paren, SToken::Number(ident))
                } else if ident == "true"@ || ident == "false"@ {
                    spec_handle_infix(lang, t, q2, in_paren, SToken::Boolean(ident == "true"@))
                } else if ident.len() > 0 && ident[0] == '[' {
                    spec_handle_infix(
                        lang,
                        t,
                        q2,
                        in_paren,
                        SToken::List(ident.subrange(1, ident.len() - 1)),
                    )
                } else if ident.len() > 0 && ident.last() == ',' {
                    (q2, Ok(SToken::Command(talkto_command(), seq![SToken::Word(ident.drop_last())])))
                } else if ends_with_apostrophe_s(ident) {
                    let (q3, rest) = spec_read_fixed(lang, t, q2, in_paren, "ask"@, 1, Seq::empty());
                    let args = seq![SToken::Word(ident.subrange(0, ident.len() - 2))] + rest;
                    if q2 <= q3 <= t.len() {
                        spec_handle_infix(lang, t, q3, in_paren, SToken::Command(ask_command(), args))
                    } else {
                        (q3, Ok(SToken::Command(ask_command(), args)))
                    }
                } else if ident.len() == 0 {
                    (q2, Err("eof"@))
                } else {
                    (q2, Ok(SToken::Undefined(ident)))
                },
            }
        }
    }
}

/// Reading an identifier ends within the text, after its start.
pub proof fn lemma_ident_scan_bounds(t: Seq<char>, p: int, depth: int, barred: bool, acc: Seq<char>)
    requires
        0 <= p <= t.len(),
    ensures
        p <= ident_scan(t, p, depth, barred, acc).0 <= t.len(),
    decreases t.len() - p,
{
    if 0 <= p < t.len() && (!char_is_whitespace(t[p]) || depth != 0 || barred) && t[p] != '\0' {
        let c = t[p];
        let d = if c == '[' {
            depth + 1
        } else if c == ']' {
            depth - 1
        } else {
            depth
        };
        if c == '|' && d == 0 {
            lemma_ident_scan_bounds(t, p + 1, d, !barred, acc);
        } else {
            lemma_ident_scan_bounds(t, p + 1, d, barred, acc.push(c));
        }
    }
}

/// Skipping whitespace ends within the text, at or after the start.
pub proof fn lemma_skip_ws_bounds(t: Seq<char>, p: int)
    requires
        0 <= p <= t.len(),
    ensures
        p <= skip_ws(t, p) <= t.len(),
        skip_ws(t, p) < t.len() ==> !(char_is_whitespace(t[skip_ws(t, p)]) && t[skip_ws(t, p)] != '\0'),
    decreases t.len() - p,
{
    if 0 <= p < t.len() && char_is_whitespace(t[p]) && t[p] != '\0' {
        lemma_skip_ws_bounds(t, p + 1);
    }
}

/// The end of a line lies within the text, at or after the start.
pub proof fn lemma_line_end_bounds(t: Seq<char>, p: int)
    requires
        0 <= p <= t.len(),
    ensures
        p <= line_end(t, p) <= t.len(),
    decreases t.len() - p,
{
    if 0 <= p < t.len() && t[p] != '\n' && t[p] != '\0' {
        lemma_line_end_bounds(t, p + 1);
    }
}

/// Reading a word ends within the text, at or after its start.
pub proof fn lemma_word_scan_bounds(t: Seq<char>, p: int, acc: Seq<char>)
    requires
        0 <= p <= t.len(),
    ensures
        p <= word_scan(t, p, acc).0 <= t.len(),
    decreases t.len() - p,
{
    if 0 <= p < t.len() && !char_is_whitespace(t[p]) && t[p] != '\0' {
        lemma_word_scan_bounds(t, p + 1, acc.push(t[p]));
    }
}

} // verus!
