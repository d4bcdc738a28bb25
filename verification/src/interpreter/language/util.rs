//! Helpers for keys and tokens.
use vstd::prelude::*;

pub mod decode;
pub mod io;

use crate::interpreter::language::number::{number_key, numbers_equal, same_number};
use crate::interpreter::language::procedure::Procedure;
use crate::interpreter::language::token::{list_string, list_text, strings_view, SToken, Token};
use crate::interpreter::util::error::LogoError;
use crate::text::push_char;

verus! {

/// `c` with ASCII upper-case letters turned into lower case.
pub open spec fn ascii_lower(c: char) -> char {
    if 'A' <= c && c <= 'Z' {
        ((c as u32) + 32) as char
    } else {
        c
    }
}

/// The key code that a key name stands for: the named keys `space`, `enter`,
/// `left`, `up`, `right` and `down`, or a single ASCII character, taken in
/// lower case.
pub open spec fn key_code_of(key: Seq<char>) -> Option<u8> {
    if key == "space"@ {
        Some(32u8)
    } else if key == "enter"@ {
        Some(10u8)
    } else if key == "left"@ {
        Some(37u8)
    } else if key == "up"@ {
        Some(38u8)
    } else if key == "right"@ {
        Some(39u8)
    } else if key == "down"@ {
        Some(40u8)
    } else if key.len() == 1 && (key[0] as u32) < 128 {
        Some(ascii_lower(key[0]) as u8)
    } else {
        None
    }
}

/// The key name of a key code: the named keys for 32, 10 and 37 to 40, and
/// otherwise the ASCII character itself.
pub open spec fn key_name_of(code: u8) -> Option<Seq<char>> {
    if code == 32 {
        Some("space"@)
    } else if code == 10 {
        Some("enter"@)
    } else if code == 37 {
        Some("left"@)
    } else if code == 38 {
        Some("up"@)
    } else if code == 39 {
        Some("right"@)
    } else if code == 40 {
        Some("down"@)
    } else if code < 128 {
        Some(seq![code as char])
    } else {
        None
    }
}

/// The ASCII letter `c` in lower case.
pub fn to_ascii_lowercase(c: char) -> (r: char)
    ensures
        r == ascii_lower(c),
{
    if c >= 'A' && c <= 'Z' {
        let code = c as u32;
        let lower = (code + 32) as u8;
        assert(lower as char == ((c as u32) + 32) as char);
        lower as char
    } else {
        c
    }
}

/// The key code of a key name, or an error when the name is neither a
/// named key nor a single ASCII character.
pub fn ascii_for_key(key: &str) -> (r: Result<u8, LogoError>)
    ensures
        match key_code_of(key@) {
            Some(code) => r == Ok::<u8, LogoError>(code),
            None => r matches Err(e) && e.message@ == "key is not an ascii character"@,
        },
{
    let k = String::from_str(key);
    if k == String::from_str("space") {
        Ok(32)
    } else if k == String::from_str("enter") {
        Ok(10)
    } else if k == String::from_str("left") {
        Ok(37)
    } else if k == String::from_str("up") {
        Ok(38)
    } else if k == String::from_str("right") {
        Ok(39)
    } else if k == String::from_str("down") {
        Ok(40)
    } else if key.unicode_len() == 1 && (key.get_char(0) as u32) < 128 {
        let lower = to_ascii_lowercase(key.get_char(0));
        Ok(lower as u8)
    } else {
        Err(LogoError::from_str("key is not an ascii character"))
    }
}

/// The name of a key code, or an error when the code is not ASCII.
pub fn key_for_ascii(ascii: u8) -> (r: Result<String, LogoError>)
    ensures
        match key_name_of(ascii) {
            Some(name) => r matches Ok(s) && s@ == name,
            None => r matches Err(e) && e.message@ == "number does not represent an ascii key"@,
        },
{
    if ascii == 32 {
        Ok(String::from_str("space"))
    } else if ascii == 10 {
        Ok(String::from_str("enter"))
    } else if ascii == 37 {
        Ok(String::from_str("left"))
    } else if ascii == 38 {
        Ok(String::from_str("up"))
    } else if ascii == 39 {
        Ok(String::from_str("right"))
    } else if ascii == 40 {
        Ok(String::from_str("down"))
    } else if ascii < 128 {
        let mut s = String::new();
        push_char(&mut s, ascii as char);
        assert(s@ =~= seq![ascii as char]);
        Ok(s)
    } else {
        Err(LogoError::from_str("number does not represent an ascii key"))
    }
}

/// Naming a key code and reading the name back gives the code again, for
/// every ASCII code that is not an upper-case letter.
pub proof fn law_key_name_round_trip(code: u8)
    requires
        code < 128,
        !(65 <= code <= 90),
    ensures
        key_name_of(code) matches Some(name) && key_code_of(name) == Some(code),
{
    reveal_strlit("space");
    reveal_strlit("enter");
    reveal_strlit("left");
    reveal_strlit("up");
    reveal_strlit("right");
    reveal_strlit("down");
    let name = key_name_of(code).unwrap();
    assert("space"@.len() == 5 && "enter"@.len() == 5 && "left"@.len() == 4 && "up"@.len() == 2
        && "right"@.len() == 5 && "down"@.len() == 4);
    assert("space"@[0] == 's' && "enter"@[0] == 'e' && "right"@[0] == 'r' && "down"@[0] == 'd' && "left"@[0] == 'l');
    if code != 32 && code != 10 && !(37 <= code <= 40) {
        assert(name == seq![code as char]);
        assert(name.len() == 1);
        assert(name != "space"@);
        assert(name != "enter"@);
        assert(name != "left"@);
        assert(name != "up"@);
        assert(name != "right"@);
        assert(name != "down"@);
        assert((code as char) as u32 == code as u32);
        assert(!('A' <= (code as char) && (code as char) <= 'Z'));
        assert(ascii_lower(code as char) == code as char);
        assert(((code as char) as u8) == code);
    }
}

/// The characters whose codes are named by a word rather than by the
/// character itself: space, newline, `%`, `&`, `'` and `(`.
pub open spec fn has_named_code(c: char) -> bool {
    c == ' ' || c == '\n' || c == '%' || c == '&' || c == '\'' || c == '('
}

/// Reading a key and naming its code gives the key again: a named key
/// itself, and a single ASCII character in lower case, unless its code is
/// one of the named keys.
pub proof fn law_key_code_round_trip(key: Seq<char>)
    requires
        key == "space"@ || key == "enter"@ || key == "left"@ || key == "up"@ || key == "right"@
            || key == "down"@ || (key.len() == 1 && (key[0] as u32) < 128 && !has_named_code(
            key[0],
        )),
    ensures
        key_code_of(key) matches Some(code) && key_name_of(code) == Some(
            if key.len() == 1 {
                seq![ascii_lower(key[0])]
            } else {
                key
            },
        ),
{
    reveal_strlit("space");
    reveal_strlit("enter");
    reveal_strlit("left");
    reveal_strlit("up");
    reveal_strlit("right");
    reveal_strlit("down");
    if key.len() == 1 {
        let c = key[0];
        let l = ascii_lower(c);
        assert((l as u32) < 128);
        assert(((l as u8) as char) == l);
        assert(l as u8 != 32 && l as u8 != 10 && !(37 <= l as u8 <= 40));
    }
}

/// The character of the digit `d`.
pub open spec fn digit_char(d: nat) -> char {
    if d == 0 {
        '0'
    } else if d == 1 {
        '1'
    } else if d == 2 {
        '2'
    } else if d == 3 {
        '3'
    } else if d == 4 {
        '4'
    } else if d == 5 {
        '5'
    } else if d == 6 {
        '6'
    } else if d == 7 {
        '7'
    } else if d == 8 {
        '8'
    } else {
        '9'
    }
}

/// The decimal digits of `n`, without leading zeros.
pub open spec fn decimal(n: nat) -> Seq<char>
    decreases n,
{
    if n < 10 {
        seq![digit_char(n)]
    } else {
        decimal(n / 10).push(digit_char(n % 10))
    }
}

/// Appends the decimal digits of `n` to `s`.
pub fn push_decimal(s: &mut String, n: usize)
    ensures
        final(s)@ == old(s)@ + decimal(n as nat),
    decreases n,
{
    if n >= 10 {
        push_decimal(s, n / 10);
    }
    let d = n % 10;
    let c = if d == 0 {
        '0'
    } else if d == 1 {
        '1'
    } else if d == 2 {
        '2'
    } else if d == 3 {
        '3'
    } else if d == 4 {
        '4'
    } else if d == 5 {
        '5'
    } else if d == 6 {
        '6'
    } else if d == 7 {
        '7'
    } else if d == 8 {
        '8'
    } else {
        '9'
    };
    push_char(s, c);
    assert(final(s)@ =~= old(s)@ + decimal(n as nat)) by {
        if n >= 10 {
            assert(old(s)@ + decimal((n / 10) as nat) + seq![c] =~= old(s)@ + decimal(n as nat));
        }
    }
}

/// The message of a command whose input at `index` is missing or not of
/// the kind `what`.
pub open spec fn expected_message(com: Seq<char>, what: Seq<char>, index: nat) -> Seq<char> {
    com + " expected "@ + what + " for input "@ + decimal(index)
}

/// The error of a command whose input at `index` is missing or not of the
/// kind `what`.
pub(crate) fn expected_error(com: &str, what: &str, index: usize) -> (e: LogoError)
    ensures
        e.message@ == expected_message(com@, what@, index as nat),
{
    let mut message = String::from_str(com);
    message.append(" expected ");
    message.append(what);
    message.append(" for input ");
    push_decimal(&mut message, index);
    LogoError::new(message)
}

/// The input at `index` as the text of a number.
pub fn decode_number(com: &str, args: &Vec<Token>, index: usize) -> (r: Result<String, LogoError>)
    ensures
        match r {
            Ok(n) => index < args@.len() && args@[index as int]@ == SToken::Number(n@),
            Err(e) => !(index < args@.len() && args@[index as int]@ is Number) && e.message@
                == expected_message(com@, "number"@, index as nat),
        },
{
    if index < args.len() {
        if let Token::Number(num) = &args[index] {
            return Ok(num.clone());
        }
    }
    Err(expected_error(com, "number", index))
}

/// The input at `index` as a word.
pub fn decode_word(com: &str, args: &Vec<Token>, index: usize) -> (r: Result<String, LogoError>)
    ensures
        match r {
            Ok(w) => index < args@.len() && args@[index as int]@ == SToken::Word(w@),
            Err(e) => !(index < args@.len() && args@[index as int]@ is Word) && e.message@
                == expected_message(com@, "word"@, index as nat),
        },
{
    if index < args.len() {
        if let Token::Word(word) = &args[index] {
            return Ok(word.clone());
        }
    }
    Err(expected_error(com, "word", index))
}

/// The input at `index` as a boolean.
pub fn decode_boolean(com: &str, args: &Vec<Token>, index: usize) -> (r: Result<bool, LogoError>)
    ensures
        match r {
            Ok(b) => index < args@.len() && args@[index as int]@ == SToken::Boolean(b),
            Err(e) => !(index < args@.len() && args@[index as int]@ is Boolean) && e.message@
                == expected_message(com@, "boolean"@, index as nat),
        },
{
    if index < args.len() {
        if let Token::Boolean(boolean) = &args[index] {
            return Ok(*boolean);
        }
    }
    Err(expected_error(com, "boolean", index))
}

/// The input at `index` as the text of a list.
pub fn decode_list(com: &str, args: &Vec<Token>, index: usize) -> (r: Result<String, LogoError>)
    ensures
        match r {
            Ok(l) => index < args@.len() && args@[index as int]@ == SToken::List(l@),
            Err(e) => !(index < args@.len() && args@[index as int]@ is List) && e.message@
                == expected_message(com@, "list"@, index as nat),
        },
{
    if index < args.len() {
        if let Token::List(list) = &args[index] {
            return Ok(list.clone());
        }
    }
    Err(expected_error(com, "list", index))
}

/// A copy of a vector of strings.
pub(crate) fn copy_strings(v: &Vec<String>) -> (r: Vec<String>)
    ensures
        strings_view(r@) == strings_view(v@),
{
    let mut r: Vec<String> = Vec::new();
    let mut i: usize = 0;
    while i < v.len()
        invariant
            i <= v@.len(),
            strings_view(r@) == strings_view(v@).take(i as int),
        decreases v@.len() - i,
    {
        let ghost before = r@;
        let s = v[i].clone();
        assert(s@ == v@[i as int]@);
        r.push(s);
        assert(r@ == before.push(s));
        assert(strings_view(r@) =~= strings_view(before).push(s@));
        assert(strings_view(r@) =~= strings_view(v@).take(i + 1));
        i = i + 1;
    }
    assert(strings_view(v@).take(i as int) =~= strings_view(v@));
    r
}

/// The input at `index` as a procedure.
pub fn decode_proc(com: &str, args: &Vec<Token>, index: usize) -> (r: Result<Procedure, LogoError>)
    ensures
        match r {
            Ok(p) => index < args@.len() && args@[index as int]@ == SToken::Procedure(
                p.name@,
                strings_view(p.params@),
                p.code@,
            ),
            Err(e) => !(index < args@.len() && args@[index as int]@ is Procedure) && e.message@
                == expected_message(com@, "code block"@, index as nat),
        },
{
    if index < args.len() {
        if let Token::Procedure(name, params, code) = &args[index] {
            return Ok(
                Procedure { name: name.clone(), params: copy_strings(params), code: code.clone() },
            );
        }
    }
    Err(expected_error(com, "code block", index))
}

/// The message of a command whose input at `index` is missing.
pub open spec fn missing_message(com: Seq<char>, index: nat) -> Seq<char> {
    com + " expected an input at "@ + decimal(index)
}

/// The input at `index`, of any kind.
pub fn decode_token(com: &str, args: &Vec<Token>, index: usize) -> (r: Result<Token, LogoError>)
    ensures
        match r {
            Ok(t) => index < args@.len() && t@ == args@[index as int]@,
            Err(e) => index >= args@.len() && e.message@ == missing_message(com@, index as nat),
        },
{
    if index < args.len() {
        return Ok(args[index].duplicate());
    }
    let mut message = String::from_str(com);
    message.append(" expected an input at ");
    push_decimal(&mut message, index);
    Err(LogoError::new(message))
}

/// Whether two tokens are equal numbers (by value, see `same_number`),
/// equal words or equal booleans.
pub open spec fn tokens_equal(a: SToken, b: SToken) -> bool {
    match (a, b) {
        (SToken::Number(x), SToken::Number(y)) => same_number(x, y),
        (SToken::Word(x), SToken::Word(y)) => x == y,
        (SToken::Boolean(x), SToken::Boolean(y)) => x == y,
        _ => false,
    }
}

/// Whether two tokens are equal numbers (by value, see `same_number`),
/// equal words or equal booleans.
pub fn are_tokens_equal(arg1: &Token, arg2: &Token) -> (b: bool)
    ensures
        b == tokens_equal(arg1@, arg2@),
{
    match (arg1, arg2) {
        (Token::Number(num1), Token::Number(num2)) => numbers_equal(num1, num2),
        (Token::Word(str1), Token::Word(str2)) => *str1 == *str2,
        (Token::Boolean(bool1), Token::Boolean(bool2)) => *bool1 == *bool2,
        _ => false,
    }
}

/// The text of a list made of `tokens` (see `list_text`).
pub fn join_to_list_string(tokens: Vec<Token>) -> (s: String)
    ensures
        s@ == list_text(Token::seq_view(tokens@)),
{
    list_string(&tokens)
}

/// `equal?` compares like with like: two booleans are equal exactly when
/// they are the same value, two words exactly when they have the same
/// text, a number equals itself when it is a decimal number, tokens of
/// different kinds are never equal, and the comparison is symmetric.
pub proof fn law_equality_of_values(a: SToken, b: SToken, x: bool, y: bool, v: Seq<char>, w: Seq<char>)
    ensures
        tokens_equal(SToken::Boolean(x), SToken::Boolean(y)) == (x == y),
        tokens_equal(SToken::Word(v), SToken::Word(w)) == (v == w),
        !tokens_equal(SToken::Boolean(x), SToken::Word(w)),
        !tokens_equal(SToken::Word(v), SToken::Number(w)),
        !tokens_equal(SToken::Number(v), SToken::Boolean(y)),
        tokens_equal(a, b) == tokens_equal(b, a),
        number_key(v) is Finite || number_key(v) is Zero ==> tokens_equal(
            SToken::Number(v),
            SToken::Number(v),
        ),
{
}

} // verus!

