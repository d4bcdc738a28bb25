//! The lexer: reads tokens from a stack of code blocks.
use vstd::prelude::*;

use crate::interpreter::language::command::{Command, Params, SCommand};
use crate::interpreter::language::language::{Language, SLanguage};
use crate::interpreter::language::lexer_spec::{
    adv, ask_command, body_scan, colon_scan, cur, ends_with_apostrophe_s, exponent_mark,
    ident_scan, is_decimal, is_digit, is_exponent, is_mantissa, is_number_literal,
    lemma_ident_scan_bounds, lemma_line_end_bounds, lemma_skip_ws_bounds, lemma_word_scan_bounds, line_end,
    line_scan, lower_seq, name_scan, param_scan, param_step, params_scan, paren_command,
    paren_scan, skip_line, skip_ws, space_scan, spec_handle_infix, spec_peek_infix,
    spec_read_all, spec_read_arguments, spec_read_fixed, spec_read_identifier, spec_read_infix,
    spec_read_parenthesis, spec_read_procedure, spec_read_token, talkto_command, unsigned_part,
    word_scan,
};
use crate::interpreter::language::token::{SToken, Token};
use crate::interpreter::language::util::to_ascii_lowercase;
use crate::interpreter::util::error::{eof_error, LogoError};
use crate::text::{
    alphanumeric, char_is_whitespace, chars_of, is_alphanumeric, is_whitespace,
    string_from_chars, string_from_range,
};

verus! {

/// The outcome of a reading step as values: the token, or the error's
/// message.
pub open spec fn token_result(r: Result<Token, LogoError>) -> Result<SToken, Seq<char>> {
    match r {
        Ok(t) => Ok(t@),
        Err(e) => Err(e.message@),
    }
}

/// The characters `v[from..to]`.
pub(crate) fn copy_range(v: &Vec<char>, from: usize, to: usize) -> (r: Vec<char>)
    requires
        from <= to <= v@.len(),
    ensures
        r@ == v@.subrange(from as int, to as int),
{
    let mut r: Vec<char> = Vec::new();
    let mut i = from;
    while i < to
        invariant
            from <= i <= to <= v@.len(),
            r@ == v@.subrange(from as int, i as int),
        decreases to - i,
    {
        r.push(v[i]);
        assert(r@ =~= v@.subrange(from as int, i + 1));
        i = i + 1;
    }
    r
}

/// Whether `c` is a decimal digit.
fn char_is_digit(c: char) -> (b: bool)
    ensures
        b == is_digit(c),
{
    '0' <= c && c <= '9'
}

/// Whether `m` is made of digits with at most one decimal point and at
/// least one digit.
fn check_mantissa(m: &Vec<char>) -> (b: bool)
    ensures
        b == is_mantissa(m@),
{
    let mut seen_dot = false;
    let mut dot_at: usize = 0;
    let mut seen_digit = false;
    let mut i: usize = 0;
    while i < m.len()
        invariant
            i <= m@.len(),
            forall|j: int| 0 <= j < i ==> is_digit(m@[j]) || m@[j] == '.',
            seen_dot ==> dot_at < i && m@[dot_at as int] == '.',
            forall|j: int| 0 <= j < i && m@[j] == '.' ==> seen_dot && j == dot_at,
            seen_digit == exists|j: int| 0 <= j < i && is_digit(m@[j]),
        decreases m@.len() - i,
    {
        let c = m[i];
        if char_is_digit(c) {
            seen_digit = true;
        } else if c == '.' {
            if seen_dot {
                assert(m@[dot_at as int] == '.' && m@[i as int] == '.' && dot_at != i);
                return false;
            }
            seen_dot = true;
            dot_at = i;
        } else {
            return false;
        }
        i = i + 1;
    }
    seen_digit
}

/// Whether `x` is an optional sign followed by at least one digit.
fn check_exponent(x: &Vec<char>) -> (b: bool)
    ensures
        b == is_exponent(x@),
{
    let start: usize = if x.len() > 0 && (x[0] == '+' || x[0] == '-') {
        1
    } else {
        0
    };
    let d = copy_range(x, start, x.len());
    assert(d@ =~= unsigned_part(x@));
    if d.len() == 0 {
        return false;
    }
    let mut i: usize = 0;
    while i < d.len()
        invariant
            i <= d@.len(),
            d@ == unsigned_part(x@),
            forall|j: int| 0 <= j < i ==> is_digit(d@[j]),
        decreases d@.len() - i,
    {
        if !char_is_digit(d[i]) {
            return false;
        }
        i = i + 1;
    }
    true
}

/// Whether `s` is a decimal number with an optional exponent.
fn check_decimal(s: &Vec<char>) -> (b: bool)
    ensures
        b == is_decimal(s@),
{
    let mut k: usize = 0;
    while k < s.len() && s[k] != 'e' && s[k] != 'E'
        invariant
            k <= s@.len(),
            exponent_mark(s@, k as int) == exponent_mark(s@, 0),
        decreases s@.len() - k,
    {
        k = k + 1;
    }
    if k >= s.len() {
        check_mantissa(s)
    } else {
        let m = copy_range(s, 0, k);
        let x = copy_range(s, k + 1, s.len());
        check_mantissa(&m) && check_exponent(&x)
    }
}

/// Whether `s` has the syntax of a number (see `is_number_literal`).
pub fn check_number_literal(s: &Vec<char>) -> (b: bool)
    ensures
        b == is_number_literal(s@),
{
    let start: usize = if s.len() > 0 && (s[0] == '+' || s[0] == '-') {
        1
    } else {
        0
    };
    let body = copy_range(s, start, s.len());
    assert(body@ =~= unsigned_part(s@));
    let mut low = String::new();
    let mut i: usize = 0;
    while i < body.len()
        invariant
            i <= body@.len(),
            low@ == lower_seq(body@.subrange(0, i as int)),
        decreases body@.len() - i,
    {
        crate::text::push_char(&mut low, to_ascii_lowercase(body[i]));
        assert(low@ =~= lower_seq(body@.subrange(0, i + 1)));
        i = i + 1;
    }
    assert(body@.subrange(0, body@.len() as int) =~= body@);
    low == String::from_str("inf") || low == String::from_str("infinity") || low == String::from_str(
        "nan",
    ) || check_decimal(&body)
}

/// A block of code being read, with the position of the next character.
#[derive(Debug, Clone)]
pub struct CodeBlock {
    text: Vec<char>,
    position: usize,
    in_paren: bool,
}

impl CodeBlock {
    /// The text of the block.
    pub closed spec fn text(self) -> Seq<char> {
        self.text@
    }

    /// The position of the next character.
    pub closed spec fn pos(self) -> int {
        self.position as int
    }

    /// Whether the block is the inside of parentheses.
    pub closed spec fn paren(self) -> bool {
        self.in_paren
    }

    /// The position lies within the text, and the text is short enough for
    /// bracket and parenthesis counts to fit in an `i32`.
    pub closed spec fn wf(self) -> bool {
        self.position <= self.text@.len() && self.text@.len() < i32::MAX
    }

    /// A block holding `text`, to be read from its start.
    pub fn new(text: &str, in_paren: bool) -> (b: Self)
        requires
            text@.len() < i32::MAX,
        ensures
            b.wf(),
            b.text() == text@,
            b.pos() == 0,
            b.paren() == in_paren,
    {
        CodeBlock { text: chars_of(text), position: 0, in_paren }
    }

    /// The character at the current position, or NUL at the end.
    /// The outcome of reading an identifier, as values.
    pub open spec fn ident_result(r: Result<Vec<char>, LogoError>) -> Result<Seq<char>, Seq<char>> {
        match r {
            Ok(v) => Ok(v@),
            Err(e) => Err(e.message@),
        }
    }

    /// The character at the current position, or NUL at the end.
    pub fn current_char(&self) -> (c: char)
        ensures
            c == cur(self.text(), self.pos()),
    {
        if self.position < self.text.len() {
            self.text[self.position]
        } else {
            '\0'
        }
    }

    /// Moves to the next character; the end of the text is never passed.
    pub fn next(&mut self)
        requires
            old(self).wf(),
        ensures
            final(self).wf(),
            final(self).text() == old(self).text(),
            final(self).paren() == old(self).paren(),
            final(self).pos() == adv(old(self).text(), old(self).pos()),
    {
        if self.position < self.text.len() {
            self.position = self.position + 1;
        }
    }

    /// Moves back to the start of the block.
    pub fn rewind(&mut self)
        ensures
            final(self).text() == old(self).text(),
            final(self).paren() == old(self).paren(),
            final(self).pos() == 0,
            old(self).wf() ==> final(self).wf(),
    {
        self.position = 0;
    }

    /// Skips whitespace.
    fn consume_whitespace(&mut self)
        requires
            old(self).wf(),
        ensures
            final(self).wf(),
            final(self).text() == old(self).text(),
            final(self).paren() == old(self).paren(),
            final(self).pos() == skip_ws(old(self).text(), old(self).pos()),
    {
        let ghost p0 = self.pos();
        while is_whitespace(self.current_char()) && self.current_char() != '\0'
            invariant
                self.wf(),
                self.text() == old(self).text(),
                self.paren() == old(self).paren(),
                skip_ws(self.text(), self.pos()) == skip_ws(self.text(), p0),
            decreases self.text().len() - self.pos(),
        {
            self.next();
        }
    }

    /// Reads an identifier: characters up to whitespace outside brackets
    /// and bars; bars at bracket depth zero are dropped.
    fn read_identifier(&mut self) -> (r: Result<Vec<char>, LogoError>)
        requires
            old(self).wf(),
        ensures
            final(self).wf(),
            final(self).text() == old(self).text(),
            final(self).paren() == old(self).paren(),
            (final(self).pos(), Self::ident_result(r)) == spec_read_identifier(
                old(self).text(),
                old(self).pos(),
            ),
            !char_is_whitespace(cur(old(self).text(), old(self).pos())) && cur(
                old(self).text(),
                old(self).pos(),
            ) != '\0' ==> old(self).pos() < final(self).pos(),
            r is Ok && r->Ok_0@.len() > 0 && r->Ok_0@[0] == '[' ==> r->Ok_0@.len() >= 2,
    {
        let ghost p0 = self.pos();
        let ghost t = self.text();
        self.consume_whitespace();
        let ghost q0 = self.pos();
        let mut identifier: Vec<char> = Vec::new();
        let mut bracket_count: i32 = 0;
        let mut allow_whitespace = false;
        proof {
            lemma_ident_scan_bounds(t, q0, 0, false, Seq::empty());
        }
        while (!is_whitespace(self.current_char()) || bracket_count != 0 || allow_whitespace)
            && self.current_char() != '\0'
            invariant
                self.wf(),
                self.text() == t,
                self.paren() == old(self).paren(),
                0 <= q0 <= self.pos(),
                -(self.pos() - q0) <= bracket_count <= self.pos() - q0,
                ident_scan(t, self.pos(), bracket_count as int, allow_whitespace, identifier@)
                    == ident_scan(t, q0, 0, false, Seq::empty()),
                identifier@.len() == 0 ==> bracket_count == 0,
                identifier@.len() == 1 && identifier@[0] == '[' ==> bracket_count == 1,
            decreases t.len() - self.pos(),
        {
            let chr = self.current_char();
            if chr == '[' {
                bracket_count = bracket_count + 1;
            } else if chr == ']' {
                bracket_count = bracket_count - 1;
            }
            if chr == '|' && bracket_count == 0 {
                allow_whitespace = !allow_whitespace;
                self.next();
                continue ;
            }
            identifier.push(chr);
            self.next();
        }
        proof {
            if !char_is_whitespace(cur(t, p0)) && cur(t, p0) != '\0' {
                assert(q0 == p0);
                lemma_ident_scan_bounds(t, q0 + 1, 0, false, Seq::empty());
                lemma_ident_scan_bounds(t, q0 + 1, 0, true, Seq::empty());
                lemma_ident_scan_bounds(t, q0 + 1, 1, false, seq![t[q0]]);
                lemma_ident_scan_bounds(t, q0 + 1, -1, false, seq![t[q0]]);
                lemma_ident_scan_bounds(t, q0 + 1, 0, false, seq![t[q0]]);
            }
        }
        if bracket_count != 0 {
            return Err(LogoError::from_str("found unmatched brackets"));
        }
        if allow_whitespace {
            return Err(LogoError::from_str("found unmatched pipes"));
        }
        Ok(identifier)
    }

    /// Reads a group in parentheses, up to the matching closing
    /// parenthesis, as the grouping command applied to the code inside.
    fn read_parenthesis(&mut self) -> (r: Result<Token, LogoError>)
        requires
            old(self).wf(),
        ensures
            final(self).wf(),
            final(self).text() == old(self).text(),
            final(self).paren() == old(self).paren(),
            (final(self).pos(), token_result(r)) == spec_read_parenthesis(
                old(self).text(),
                old(self).pos(),
            ),
            cur(old(self).text(), old(self).pos()) == '(' ==> old(self).pos() < final(self).pos(),
    {
        let ghost t = self.text();
        let mut code: Vec<char> = Vec::new();
        let mut paren_count: i32 = 0;
        if self.current_char() == '(' {
            paren_count = paren_count + 1;
            self.next();
        }
        let ghost p0 = self.pos();
        let ghost d0 = paren_count as int;
        while paren_count != 0 && self.current_char() != '\0'
            invariant
                self.wf(),
                self.text() == t,
                self.paren() == old(self).paren(),
                0 <= p0 <= self.pos(),
                0 <= paren_count <= self.pos() - p0 + 1,
                paren_scan(t, self.pos(), paren_count as int, code@) == paren_scan(t, p0, d0, Seq::empty()),
            decreases t.len() - self.pos(), paren_count,
        {
            let chr = self.current_char();
            let next_count = if chr == '(' {
                paren_count + 1
            } else if chr == ')' {
                paren_count - 1
            } else {
                paren_count
            };
            if next_count == 0 {
                paren_count = 0;
            } else {
                paren_count = next_count;
                code.push(chr);
                self.next();
            }
        }
        if paren_count != 0 {
            return Err(LogoError::from_str("found unmatched parenthesis"));
        }
        self.next();
        let mut args: Vec<Token> = Vec::new();
        let item = Token::List(string_from_chars(&code));
        let ghost g = item;
        args.push(item);
        proof {
            Token::lemma_seq_view_push(Seq::empty(), g);
            assert(args@ =~= Seq::<Token>::empty().push(g));
            assert(Token::seq_view(Seq::<Token>::empty()) =~= Seq::<SToken>::empty());
            assert(Token::seq_view(args@) =~= seq![SToken::List(code@)]);
        }
        Ok(Token::Command(Command::paren(), args))
    }

    /// Reads characters up to whitespace or NUL.
    fn read_word(&mut self) -> (w: Vec<char>)
        requires
            old(self).wf(),
        ensures
            final(self).wf(),
            final(self).text() == old(self).text(),
            final(self).paren() == old(self).paren(),
            (final(self).pos(), w@) == word_scan(old(self).text(), old(self).pos(), Seq::empty()),
    {
        let ghost t = self.text();
        let ghost p0 = self.pos();
        let mut word: Vec<char> = Vec::new();
        while !is_whitespace(self.current_char()) && self.current_char() != '\0'
            invariant
                self.wf(),
                self.text() == t,
                self.paren() == old(self).paren(),
                word_scan(t, self.pos(), word@) == word_scan(t, p0, Seq::empty()),
            decreases t.len() - self.pos(),
        {
            word.push(self.current_char());
            self.next();
        }
        word
    }

    /// Reads one parameter name of a procedure header: skips to the next
    /// colon, reads the name after it and skips the spaces that follow.
    fn read_param(&mut self) -> (w: Vec<char>)
        requires
            old(self).wf(),
            old(self).pos() < old(self).text().len(),
        ensures
            final(self).wf(),
            final(self).text() == old(self).text(),
            final(self).paren() == old(self).paren(),
            (final(self).pos(), w@) == param_step(old(self).text(), old(self).pos()),
            old(self).pos() < final(self).pos(),
    {
        let ghost t = self.text();
        let ghost p0 = self.pos();
        while self.current_char() != ':' && self.current_char() != '\n' && self.current_char()
            != '\0'
            invariant
                self.wf(),
                self.text() == t,
                self.paren() == old(self).paren(),
                p0 <= self.pos(),
                colon_scan(t, self.pos()) == colon_scan(t, p0),
            decreases t.len() - self.pos(),
        {
            self.next();
        }
        self.next();
        let ghost p1 = self.pos();
        assert(p0 < p1);
        let mut param: Vec<char> = Vec::new();
        while self.current_char() != ' ' && self.current_char() != '\n' && self.current_char()
            != '\0'
            invariant
                self.wf(),
                self.text() == t,
                self.paren() == old(self).paren(),
                p1 <= self.pos(),
                param_scan(t, self.pos(), param@) == param_scan(t, p1, Seq::empty()),
            decreases t.len() - self.pos(),
        {
            param.push(self.current_char());
            self.next();
        }
        let ghost p2 = self.pos();
        while self.current_char() == ' ' && self.current_char() != '\n' && self.current_char()
            != '\0'
            invariant
                self.wf(),
                self.text() == t,
                self.paren() == old(self).paren(),
                p2 <= self.pos(),
                space_scan(t, self.pos()) == space_scan(t, p2),
            decreases t.len() - self.pos(),
        {
            self.next();
        }
        param
    }

    /// Reads a procedure definition: the name, the parameter names on the
    /// rest of the line and the body up to a line that reads `end`.
    fn read_procedure(&mut self) -> (r: Result<Token, LogoError>)
        requires
            old(self).wf(),
        ensures
            final(self).wf(),
            final(self).text() == old(self).text(),
            final(self).paren() == old(self).paren(),
            (final(self).pos(), token_result(r)) == spec_read_procedure(
                old(self).text(),
                old(self).pos(),
            ),
            old(self).pos() <= final(self).pos(),
    {
        let ghost t = self.text();
        proof {
            lemma_skip_ws_bounds(t, old(self).pos());
        }
        self.consume_whitespace();
        let ghost q0 = self.pos();
        // The name.
        let mut name: Vec<char> = Vec::new();
        while self.position < self.text.len() && is_alphanumeric(self.current_char())
            invariant
                self.wf(),
                self.text() == t,
                self.paren() == old(self).paren(),
                q0 <= self.pos(),
                name_scan(t, self.pos(), name@) == name_scan(t, q0, Seq::empty()),
            decreases t.len() - self.pos(),
        {
            name.push(self.current_char());
            self.next();
        }
        // The parameter names.
        let ghost q1 = self.pos();
        let mut params: Vec<String> = Vec::new();
        proof {
            assert(Seq::<String>::empty().map_values(|x: String| x@) =~= Seq::<Seq<char>>::empty());
        }
        while self.current_char() != '\n' && self.position < self.text.len()
            invariant
                self.wf(),
                self.text() == t,
                self.paren() == old(self).paren(),
                q1 <= self.pos(),
                params_scan(t, self.pos(), params@.map_values(|x: String| x@)) == params_scan(
                    t,
                    q1,
                    Seq::empty(),
                ),
            decreases t.len() - self.pos(),
        {
            let ghost before = params@.map_values(|x: String| x@);
            let param = self.read_param();
            if param.len() > 0 {
                params.push(string_from_chars(&param));
                assert(params@.map_values(|x: String| x@) =~= before.push(param@));
            }
        }
        proof {
            lemma_line_end_bounds(t, self.pos());
        }
        self.consume_until_newline();
        // The body.
        let ghost q3 = self.pos();
        let mut code: Vec<char> = Vec::new();
        let mut is_proc_complete = false;
        let end_line = String::from_str("end\n");
        while !is_proc_complete && self.current_char() != '\0'
            invariant
                self.wf(),
                self.text() == t,
                self.paren() == old(self).paren(),
                q3 <= self.pos(),
                end_line@ == "end\n"@,
                !is_proc_complete ==> body_scan(t, self.pos(), code@) == body_scan(t, q3, Seq::empty()),
                is_proc_complete ==> (self.pos(), code@, true) == body_scan(t, q3, Seq::empty()),
            decreases t.len() - self.pos(),
        {
            let ghost p_it = self.pos();
            proof {
                lemma_skip_ws_bounds(t, p_it);
            }
            self.consume_whitespace();
            let ghost a = self.pos();
            let mut line: Vec<char> = Vec::new();
            while self.current_char() != '\n' && self.current_char() != '\0'
                invariant
                    self.wf(),
                    self.text() == t,
                    self.paren() == old(self).paren(),
                    a <= self.pos(),
                    line_scan(t, self.pos(), line@) == line_scan(t, a, Seq::empty()),
                decreases t.len() - self.pos(),
            {
                line.push(self.current_char());
                self.next();
            }
            line.push(self.current_char());
            self.next();
            let line_text = string_from_chars(&line);
            if line_text == end_line {
                is_proc_complete = true;
            } else {
                let ghost before = code@;
                let mut i: usize = 0;
                while i < line.len()
                    invariant
                        i <= line@.len(),
                        code@ == before + line@.subrange(0, i as int),
                    decreases line@.len() - i,
                {
                    code.push(line[i]);
                    assert(code@ =~= before + line@.subrange(0, i + 1));
                    i = i + 1;
                }
                assert(line@.subrange(0, line@.len() as int) =~= line@);
            }
        }
        let name_text = string_from_chars(&name);
        if !is_proc_complete {
            let mut message = String::from_str("procedure ");
            message.append(name_text.as_str());
            message.append(" has no end");
            return Err(LogoError::new(message));
        }
        let body = string_from_chars(&code);
        let token = Token::Procedure(name_text, params, body);
        proof {
            assert(params@.map_values(|x: String| x@) == crate::interpreter::language::token::strings_view(params@));
        }
        Ok(token)
    }

    /// Skips to just after the end of the current line.
    fn consume_until_newline(&mut self)
        requires
            old(self).wf(),
        ensures
            final(self).wf(),
            final(self).text() == old(self).text(),
            final(self).paren() == old(self).paren(),
            final(self).pos() == skip_line(old(self).text(), old(self).pos()),
    {
        let ghost p0 = self.pos();
        while self.current_char() != '\n' && self.current_char() != '\0'
            invariant
                self.wf(),
                self.text() == old(self).text(),
                self.paren() == old(self).paren(),
                line_end(self.text(), self.pos()) == line_end(self.text(), p0),
            decreases self.text().len() - self.pos(),
        {
            self.next();
        }
        self.next();
    }
}

/// The value of an optional command.
pub open spec fn command_option(r: Option<Command>) -> Option<SCommand> {
    match r {
        Some(c) => Some(c@),
        None => None,
    }
}

/// Looks for an infix operator at the current position; when the next word
/// is no infix operator the position is left unchanged.
fn peek_infix_operator(language: &Language, block: &mut CodeBlock) -> (r: Option<Command>)
    requires
        language.wf(),
        old(block).wf(),
    ensures
        final(block).wf(),
        final(block).text() == old(block).text(),
        final(block).paren() == old(block).paren(),
        (final(block).pos(), command_option(r)) == spec_peek_infix(
            language@,
            old(block).text(),
            old(block).pos(),
        ),
        old(block).pos() <= final(block).pos(),
{
    let ghost t = block.text();
    let saved = block.position;
    proof {
        lemma_skip_ws_bounds(t, block.pos());
    }
    block.consume_whitespace();
    proof {
        lemma_word_scan_bounds(t, block.pos(), Seq::empty());
    }
    let op = block.read_word();
    let name = string_from_chars(&op);
    match language.lookup_infix(name.as_str()) {
        Some(command) => Some(command),
        None => {
            block.position = saved;
            None
        },
    }
}

/// `s` with `x` in front.
proof fn lemma_seq_view_prepend(x: Token, s: Seq<Token>)
    ensures
        Token::seq_view(seq![x] + s) == seq![x@] + Token::seq_view(s),
{
    Token::lemma_seq_view_index(seq![x] + s);
    Token::lemma_seq_view_index(s);
    assert(Token::seq_view(seq![x] + s) =~= seq![x@] + Token::seq_view(s));
}

/// Reads the right input of an infix operator whose left input is `left`.
fn read_infix_operator(
    language: &Language,
    block: &mut CodeBlock,
    left: Token,
    operator: Command,
) -> (r: Token)
    requires
        language.wf(),
        old(block).wf(),
    ensures
        final(block).wf(),
        final(block).text() == old(block).text(),
        final(block).paren() == old(block).paren(),
        (final(block).pos(), r@) == spec_read_infix(
            language@,
            old(block).text(),
            old(block).pos(),
            old(block).paren(),
            left@,
            operator@,
        ),
        old(block).pos() <= final(block).pos(),
    decreases old(block).text().len() - old(block).pos(), 3int, 0nat,
{
    let mut args = read_fixed_arguments(language, block, &operator.name, 1);
    let ghost rest = args@;
    let ghost l = left;
    args.insert(0, left);
    proof {
        assert(args@ =~= seq![l] + rest);
        lemma_seq_view_prepend(l, rest);
    }
    Token::Command(operator, args)
}

/// `token`, or an infix operator applied to it when one follows.
fn handle_parse_infix(language: &Language, block: &mut CodeBlock, token: Token) -> (r: Token)
    requires
        language.wf(),
        old(block).wf(),
    ensures
        final(block).wf(),
        final(block).text() == old(block).text(),
        final(block).paren() == old(block).paren(),
        (final(block).pos(), Ok::<SToken, Seq<char>>(r@)) == spec_handle_infix(
            language@,
            old(block).text(),
            old(block).pos(),
            old(block).paren(),
            token@,
        ),
        old(block).pos() <= final(block).pos(),
    decreases old(block).text().len() - old(block).pos(), 4int, 0nat,
{
    match peek_infix_operator(language, block) {
        Some(command) => read_infix_operator(language, block, token, command),
        None => token,
    }
}

/// Reads up to `count` inputs of the command called `command_name`;
/// inputs that fail to read are left out. The inputs of `to` are procedure
/// definitions.
fn read_fixed_arguments(
    language: &Language,
    block: &mut CodeBlock,
    command_name: &String,
    count: usize,
) -> (r: Vec<Token>)
    requires
        language.wf(),
        old(block).wf(),
    ensures
        final(block).wf(),
        final(block).text() == old(block).text(),
        final(block).paren() == old(block).paren(),
        (final(block).pos(), Token::seq_view(r@)) == spec_read_fixed(
            language@,
            old(block).text(),
            old(block).pos(),
            old(block).paren(),
            command_name@,
            count as nat,
            Seq::empty(),
        ),
        old(block).pos() <= final(block).pos(),
    decreases old(block).text().len() - old(block).pos(), 2int, count,
{
    let ghost t = block.text();
    let ghost p0 = block.pos();
    let is_to = *command_name == String::from_str("to");
    let mut args: Vec<Token> = Vec::new();
    let mut i: usize = 0;
    while i < count
        invariant
            language.wf(),
            block.wf(),
            block.text() == t,
            block.paren() == old(block).paren(),
            p0 <= block.pos(),
            p0 == old(block).pos(),
            t == old(block).text(),
            i <= count,
            is_to == (command_name@ == "to"@),
            spec_read_fixed(
                language@,
                t,
                block.pos(),
                block.paren(),
                command_name@,
                (count - i) as nat,
                Token::seq_view(args@),
            ) == spec_read_fixed(
                language@,
                t,
                p0,
                block.paren(),
                command_name@,
                count as nat,
                Seq::empty(),
            ),
        decreases count - i,
    {
        let r = if is_to {
            block.read_procedure()
        } else {
            read_token(language, block)
        };
        match r {
            Ok(token) => {
                proof {
                    Token::lemma_seq_view_push(args@, token);
                }
                args.push(token);
            },
            Err(_) => {},
        }
        i = i + 1;
    }
    args
}

/// Reads every input up to the first that fails to read.
fn read_all_arguments(language: &Language, block: &mut CodeBlock) -> (r: Vec<Token>)
    requires
        language.wf(),
        old(block).wf(),
    ensures
        final(block).wf(),
        final(block).text() == old(block).text(),
        final(block).paren() == old(block).paren(),
        (final(block).pos(), Token::seq_view(r@)) == spec_read_all(
            language@,
            old(block).text(),
            old(block).pos(),
            old(block).paren(),
            Seq::empty(),
        ),
        old(block).pos() <= final(block).pos(),
    decreases old(block).text().len() - old(block).pos(), 2int, 0nat,
{
    let ghost t = block.text();
    let ghost p0 = block.pos();
    let ghost target = spec_read_all(language@, t, p0, block.paren(), Seq::empty());
    let mut args: Vec<Token> = Vec::new();
    let mut done = false;
    while !done
        invariant
            language.wf(),
            block.wf(),
            block.text() == t,
            block.paren() == old(block).paren(),
            p0 <= block.pos(),
            p0 == old(block).pos(),
            t == old(block).text(),
            !done ==> spec_read_all(language@, t, block.pos(), block.paren(), Token::seq_view(args@))
                == target,
            done ==> (block.pos(), Token::seq_view(args@)) == target,
        decreases t.len() - block.pos(), if done {
            0int
        } else {
            1int
        },
    {
        match read_token(language, block) {
            Ok(token) => {
                proof {
                    Token::lemma_seq_view_push(args@, token);
                }
                args.push(token);
            },
            Err(_) => {
                done = true;
            },
        }
    }
    args
}

/// Reads the inputs of `command`.
fn read_arguments(language: &Language, block: &mut CodeBlock, command: &Command) -> (r: Vec<
    Token,
>)
    requires
        language.wf(),
        old(block).wf(),
    ensures
        final(block).wf(),
        final(block).text() == old(block).text(),
        final(block).paren() == old(block).paren(),
        (final(block).pos(), Token::seq_view(r@)) == spec_read_arguments(
            language@,
            old(block).text(),
            old(block).pos(),
            old(block).paren(),
            command@,
        ),
        old(block).pos() <= final(block).pos(),
    decreases old(block).text().len() - old(block).pos(), 3int, 0nat,
{
    match command.params {
        Params::Fixed(count) => read_fixed_arguments(language, block, &command.name, count),
        Params::Variadic(count) => {
            if block.in_paren {
                read_all_arguments(language, block)
            } else {
                read_fixed_arguments(language, block, &command.name, count)
            }
        },
        Params::Empty => Vec::new(),
    }
}

/// Reads one token (see `spec_read_token`).
fn read_token(language: &Language, block: &mut CodeBlock) -> (r: Result<Token, LogoError>)
    requires
        language.wf(),
        old(block).wf(),
    ensures
        final(block).wf(),
        final(block).text() == old(block).text(),
        final(block).paren() == old(block).paren(),
        (final(block).pos(), token_result(r)) == spec_read_token(
            language@,
            old(block).text(),
            old(block).pos(),
            old(block).paren(),
        ),
        old(block).pos() <= final(block).pos(),
        r is Ok ==> old(block).pos() < final(block).pos(),
    decreases old(block).text().len() - old(block).pos(), 0int, 0nat,
{
    let ghost t = block.text();
    let ghost p0 = block.pos();
    proof {
        lemma_skip_ws_bounds(t, p0);
    }
    block.consume_whitespace();
    let ghost q = block.pos();
    let c = block.current_char();
    if c == '\0' {
        return Err(eof_error());
    }
    if c == ';' {
        proof {
            lemma_line_end_bounds(t, q);
        }
        block.consume_until_newline();
        return Ok(Token::Void);
    }
    if c == '(' {
        match block.read_parenthesis() {
            Ok(token) => {
                return Ok(handle_parse_infix(language, block, token));
            },
            Err(e) => {
                return Err(e);
            },
        }
    }
    let identifier = match block.read_identifier() {
        Ok(identifier) => identifier,
        Err(e) => {
            return Err(e);
        },
    };
    let ghost q2 = block.pos();
    assert(p0 < q2);
    let name = string_from_chars(&identifier);
    let len = identifier.len();
    let token: Token;
    if let Some(command) = language.lookup(name.as_str()) {
        let args = read_arguments(language, block, &command);
        token = Token::Command(command, args);
    } else if len > 0 && identifier[0] == ':' {
        token = Token::Variable(string_from_range(&identifier, 1, len));
    } else if len > 0 && identifier[0] == '"' {
        token = Token::Word(string_from_range(&identifier, 1, len));
    } else if check_number_literal(&identifier) {
        token = Token::Number(name);
    } else if name == String::from_str("true") || name == String::from_str("false") {
        let is_true = name == String::from_str("true");
        token = Token::Boolean(is_true);
    } else if len > 0 && identifier[0] == '[' {
        token = Token::List(string_from_range(&identifier, 1, len - 1));
    } else if len > 0 && identifier[len - 1] == ',' {
        let mut args: Vec<Token> = Vec::new();
        let word = Token::Word(string_from_range(&identifier, 0, len - 1));
        let ghost w = word;
        args.push(word);
        proof {
            Token::lemma_seq_view_push(Seq::empty(), w);
            assert(args@ =~= Seq::<Token>::empty().push(w));
            assert(Token::seq_view(Seq::<Token>::empty()) =~= Seq::<SToken>::empty());
            assert(Token::seq_view(args@) =~= seq![w@]);
        }
        return Ok(Token::Command(Command::talkto(), args));
    } else if len >= 2 && identifier[len - 2] == '\'' && identifier[len - 1] == 's' {
        let command = Command::ask();
        let rest = read_fixed_arguments(language, block, &command.name, 1);
        let ghost rs = rest@;
        let word = Token::Word(string_from_range(&identifier, 0, len - 2));
        let ghost w = word;
        let mut args = rest;
        args.insert(0, word);
        proof {
            assert(args@ =~= seq![w] + rs);
            lemma_seq_view_prepend(w, rs);
        }
        token = Token::Command(command, args);
    } else if len == 0 {
        return Err(eof_error());
    } else {
        return Ok(Token::Undefined(name));
    }
    Ok(handle_parse_infix(language, block, token))
}

/// The value of a code block: its text, position and whether it is the
/// inside of parentheses.
pub open spec fn block_view(b: CodeBlock) -> (Seq<char>, int, bool) {
    (b.text(), b.pos(), b.paren())
}

/// Reads tokens from a stack of code blocks, using a language to recognise
/// commands and infix operators.
pub struct Lexer {
    language: Language,
    code_blocks: Vec<CodeBlock>,
}

impl Lexer {
    /// The language used to read commands.
    pub closed spec fn lang(self) -> SLanguage {
        self.language@
    }

    /// The code blocks, innermost last.
    pub closed spec fn blocks(self) -> Seq<(Seq<char>, int, bool)> {
        self.code_blocks@.map_values(|b: CodeBlock| block_view(b))
    }

    /// The language is well formed and each block's position lies in its
    /// text.
    pub closed spec fn wf(self) -> bool {
        &&& self.language.wf()
        &&& forall|i: int| 0 <= i < self.code_blocks@.len() ==> #[trigger] self.code_blocks@[i].wf()
    }

    /// A lexer with the default language and no code.
    pub fn new() -> (l: Self)
        ensures
            l.wf(),
            l.blocks() == Seq::<(Seq<char>, int, bool)>::empty(),
            l.lang().commands == crate::interpreter::language::language::default_commands(),
            l.lang().infix == crate::interpreter::language::language::default_infix(),
    {
        let l = Lexer { language: Language::default(), code_blocks: Vec::new() };
        assert(l.blocks() =~= Seq::<(Seq<char>, int, bool)>::empty());
        l
    }

    /// Starts reading `text`, inside parentheses when `in_paren`, until the
    /// block is popped.
    pub fn push_block(&mut self, text: &str, in_paren: bool)
        requires
            old(self).wf(),
            text@.len() < i32::MAX,
        ensures
            final(self).wf(),
            final(self).lang() == old(self).lang(),
            final(self).blocks() == old(self).blocks().push((text@, 0int, in_paren)),
    {
        let block = CodeBlock::new(text, in_paren);
        self.code_blocks.push(block);
        assert(self.blocks() =~= old(self).blocks().push((text@, 0int, in_paren)));
    }

    /// Stops reading the innermost block; returns whether it was the only
    /// one.
    pub fn pop_block(&mut self) -> (exiting_main: bool)
        requires
            old(self).wf(),
        ensures
            final(self).wf(),
            final(self).lang() == old(self).lang(),
            exiting_main == (old(self).blocks().len() == 1),
            final(self).blocks() == if old(self).blocks().len() > 0 {
                old(self).blocks().drop_last()
            } else {
                old(self).blocks()
            },
    {
        let exiting_main = self.code_blocks.len() == 1;
        if self.code_blocks.len() > 0 {
            self.code_blocks.pop();
            assert(self.blocks() =~= old(self).blocks().drop_last());
        }
        exiting_main
    }

    /// Stops reading every block.
    pub fn clear_blocks(&mut self)
        requires
            old(self).wf(),
        ensures
            final(self).wf(),
            final(self).lang() == old(self).lang(),
            final(self).blocks() == Seq::<(Seq<char>, int, bool)>::empty(),
    {
        self.code_blocks.clear();
        assert(self.blocks() =~= Seq::<(Seq<char>, int, bool)>::empty());
    }

    /// Moves back to the start of the innermost block.
    pub fn return_to_start_of_block(&mut self)
        requires
            old(self).wf(),
            old(self).blocks().len() > 0,
        ensures
            final(self).wf(),
            final(self).lang() == old(self).lang(),
            final(self).blocks() == old(self).blocks().update(
                old(self).blocks().len() - 1,
                (old(self).blocks().last().0, 0int, old(self).blocks().last().2),
            ),
    {
        let n = self.code_blocks.len();
        let mut block = self.code_blocks.pop().unwrap();
        block.rewind();
        self.code_blocks.push(block);
        assert(self.blocks() =~= old(self).blocks().update(
            n - 1,
            (old(self).blocks().last().0, 0int, old(self).blocks().last().2),
        ));
    }

    /// Defines a command of the program being run; a built-in command of the
    /// same name cannot be replaced.
    pub fn define(&mut self, name: &str, params: Params) -> (r: Result<(), LogoError>)
        requires
            old(self).wf(),
        ensures
            final(self).wf(),
            final(self).blocks() == old(self).blocks(),
            final(self).lang().infix == old(self).lang().infix,
            old(self).lang().commands.contains_key(name@) && old(self).lang().commands[name@].is_reserved
                ==> (r matches Err(e) && e.message@ == name@ + " is reserved"@ && final(self).lang()
                == old(self).lang()),
            !(old(self).lang().commands.contains_key(name@)
                && old(self).lang().commands[name@].is_reserved) ==> r is Ok
                && final(self).lang().commands == old(self).lang().commands.insert(
                name@,
                SCommand { name: name@, is_reserved: false, params },
            ),
    {
        if let Some(command) = self.language.lookup(name) {
            if command.is_reserved {
                let mut message = String::from_str(name);
                message.append(" is reserved");
                return Err(LogoError::new(message));
            }
        }
        let new_command = Command::user_defined(name, params);
        self.language.add(new_command);
        Ok(())
    }

    /// Reads the next token of the innermost block (see `spec_read_token`).
    pub fn read_token(&mut self) -> (r: Result<Token, LogoError>)
        requires
            old(self).wf(),
            old(self).blocks().len() > 0,
        ensures
            final(self).wf(),
            final(self).lang() == old(self).lang(),
            ({
                let b = old(self).blocks().last();
                let (p, res) = spec_read_token(old(self).lang(), b.0, b.1, b.2);
                &&& token_result(r) == res
                &&& final(self).blocks() == old(self).blocks().update(
                    old(self).blocks().len() - 1,
                    (b.0, p, b.2),
                )
            }),
    {
        let n = self.code_blocks.len();
        let mut block = self.code_blocks.pop().unwrap();
        assert(block.wf());
        let r = read_token(&self.language, &mut block);
        self.code_blocks.push(block);
        assert(self.blocks() =~= old(self).blocks().update(
            n - 1,
            (old(self).blocks().last().0, block.pos(), old(self).blocks().last().2),
        ));
        r
    }
}

} // verus!
