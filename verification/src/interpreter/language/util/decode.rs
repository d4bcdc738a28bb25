//! Reading the inputs of a command, by kind.
use vstd::prelude::*;

use crate::interpreter::language::procedure::Procedure;
use crate::interpreter::language::token::{strings_view, SToken, Token};
use crate::interpreter::language::util::{
    copy_strings, expected_error, expected_message, missing_message, push_decimal,
};
use crate::interpreter::util::error::LogoError;

verus! {

/// The input at `index` as the text of a number.
pub fn number(com: &str, args: &Vec<Token>, index: usize) -> (r: Result<String, LogoError>)
    ensures
        match r {
            Ok(n) => index < args@.len() && args@[index as int]@ == SToken::Number(n@),
            Err(e) => !(index < args@.len() && args@[index as int]@ is Number) && e.message@
                == expected_message(com@, "a number"@, index as nat),
        },
{
    if index < args.len() {
        if let Token::Number(num) = &args[index] {
            return Ok(num.clone());
        }
    }
    Err(expected_error(com, "a number", index))
}

/// The input at `index` as a word.
pub fn word(com: &str, args: &Vec<Token>, index: usize) -> (r: Result<String, LogoError>)
    ensures
        match r {
            Ok(w) => index < args@.len() && args@[index as int]@ == SToken::Word(w@),
            Err(e) => !(index < args@.len() && args@[index as int]@ is Word) && e.message@
                == expected_message(com@, "a word"@, index as nat),
        },
{
    if index < args.len() {
        if let Token::Word(word) = &args[index] {
            return Ok(word.clone());
        }
    }
    Err(expected_error(com, "a word", index))
}

/// The input at `index` as a boolean.
pub fn boolean(com: &str, args: &Vec<Token>, index: usize) -> (r: Result<bool, LogoError>)
    ensures
        match r {
            Ok(b) => index < args@.len() && args@[index as int]@ == SToken::Boolean(b),
            Err(e) => !(index < args@.len() && args@[index as int]@ is Boolean) && e.message@
                == expected_message(com@, "a boolean"@, index as nat),
        },
{
    if index < args.len() {
        if let Token::Boolean(boolean) = &args[index] {
            return Ok(*boolean);
        }
    }
    Err(expected_error(com, "a boolean", index))
}

/// The input at `index` as the text of a list.
pub fn list(com: &str, args: &Vec<Token>, index: usize) -> (r: Result<String, LogoError>)
    ensures
        match r {
            Ok(l) => index < args@.len() && args@[index as int]@ == SToken::List(l@),
            Err(e) => !(index < args@.len() && args@[index as int]@ is List) && e.message@
                == expected_message(com@, "a list"@, index as nat),
        },
{
    if index < args.len() {
        if let Token::List(list) = &args[index] {
            return Ok(list.clone());
        }
    }
    Err(expected_error(com, "a list", index))
}

/// The input at `index` as a procedure.
pub fn procedure(com: &str, args: &Vec<Token>, index: usize) -> (r: Result<Procedure, LogoError>)
    ensures
        match r {
            Ok(p) => index < args@.len() && args@[index as int]@ == SToken::Procedure(
                p.name@,
                strings_view(p.params@),
                p.code@,
            ),
            Err(e) => !(index < args@.len() && args@[index as int]@ is Procedure) && e.message@
                == expected_message(com@, "a code block"@, index as nat),
        },
{
    if index < args.len() {
        if let Token::Procedure(name, params, code) = &args[index] {
            return Ok(
                Procedure { name: name.clone(), params: copy_strings(params), code: code.clone() },
            );
        }
    }
    Err(expected_error(com, "a code block", index))
}

/// The input at `index`, of any kind.
pub fn token(com: &str, args: &Vec<Token>, index: usize) -> (r: Result<Token, LogoError>)
    ensures
        match r {
            Ok(t) => index < args@.len() && t@ == args@[index as int]@,
            Err(e) => index >= args@.len() && e.message@ == missing_message(com@, index as nat),
        },
{
    if index < args.len() {
        return Ok(args[index].duplicate());
    }
    let mut message = String::from_str(com);
    message.append(" expected an input at ");
    push_decimal(&mut message, index);
    Err(LogoError::new(message))
}

} // verus!
