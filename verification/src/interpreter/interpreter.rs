//! The parts of running Logo code that decide on data: reading lists,
//! binding the inputs of a procedure and entering and leaving its scope.
use vstd::prelude::*;

use crate::interpreter::language::lexer::check_number_literal;
use crate::interpreter::language::procedure::Procedure;
use crate::interpreter::language::token::strings_view;
use crate::interpreter::language::util::{decimal, push_decimal};
use crate::interpreter::state::datastore::{scope_assign, scopes_after_pop, MAX_SCOPE_DEPTH};
use crate::interpreter::language::lexer_spec::is_number_literal;
use crate::interpreter::language::token::{SToken, Token};
use crate::interpreter::state::datastore::{scope_lookup, DataStore};
use crate::interpreter::util::error::LogoError;
use crate::text::{char_is_whitespace, chars_of, is_whitespace, push_char, string_from_range};

verus! {

/// The value of one item of a list read from text: the value of a variable
/// for `:name`, a number when numbers are wanted and the text is one, and
/// otherwise a word.
pub open spec fn list_item(
    scopes: Seq<Map<Seq<char>, SToken>>,
    text: Seq<char>,
    parse_numbers: bool,
) -> Result<SToken, Seq<char>> {
    if text.len() > 0 && text[0] == ':' {
        let name = text.subrange(1, text.len() as int);
        match scope_lookup(scopes, name) {
            Some(v) => Ok(v),
            None => Err(name + " has no value"@),
        }
    } else if parse_numbers && is_number_literal(text) {
        Ok(SToken::Number(text))
    } else {
        Ok(SToken::Word(text))
    }
}

/// Reading the characters of `s` as a list: the items read so far (or the
/// first error), the item being read and whether it is a bracketed list.
/// A bracketed list `[...]` is one item, kept as its text; other items are
/// separated by whitespace.
pub open spec fn list_scan(
    scopes: Seq<Map<Seq<char>, SToken>>,
    s: Seq<char>,
    parse_numbers: bool,
) -> (Result<Seq<SToken>, Seq<char>>, Seq<char>, bool)
    decreases s.len(),
{
    if s.len() == 0 {
        (Ok(Seq::empty()), Seq::empty(), false)
    } else {
        let (acc, current, reading) = list_scan(scopes, s.drop_last(), parse_numbers);
        let c = s.last();
        match acc {
            Err(e) => (Err(e), current, reading),
            Ok(items) => if c == '[' {
                (Ok(items), current, true)
            } else if c == ']' {
                (Ok(items.push(SToken::List(current))), Seq::empty(), false)
            } else if reading || !char_is_whitespace(c) {
                (Ok(items), current.push(c), reading)
            } else if current.len() > 0 {
                match list_item(scopes, current, parse_numbers) {
                    Ok(t) => (Ok(items.push(t)), Seq::empty(), reading),
                    Err(e) => (Err(e), current, reading),
                }
            } else {
                (Ok(items), current, reading)
            },
        }
    }
}

/// The items of the list written `s`, or the first error.
pub open spec fn list_items(
    scopes: Seq<Map<Seq<char>, SToken>>,
    s: Seq<char>,
    parse_numbers: bool,
) -> Result<Seq<SToken>, Seq<char>> {
    let (acc, current, _) = list_scan(scopes, s, parse_numbers);
    match acc {
        Err(e) => Err(e),
        Ok(items) => if current.len() > 0 {
            match list_item(scopes, current, parse_numbers) {
                Ok(t) => Ok(items.push(t)),
                Err(e) => Err(e),
            }
        } else {
            Ok(items)
        },
    }
}

/// Once reading a list has failed, it stays failed with the same error.
proof fn lemma_scan_error_stays(
    scopes: Seq<Map<Seq<char>, SToken>>,
    s: Seq<char>,
    parse_numbers: bool,
    k: int,
)
    requires
        0 <= k <= s.len(),
        list_scan(scopes, s.take(k), parse_numbers).0 is Err,
    ensures
        list_scan(scopes, s, parse_numbers).0 == list_scan(scopes, s.take(k), parse_numbers).0,
    decreases s.len() - k,
{
    if k < s.len() {
        assert(s.take(k + 1).drop_last() =~= s.take(k));
        lemma_scan_error_stays(scopes, s, parse_numbers, k + 1);
    } else {
        assert(s.take(k) =~= s);
    }
}

/// The values of a list of tokens, or the message of an error.
pub open spec fn tokens_result(r: Result<Vec<Token>, LogoError>) -> Result<Seq<SToken>, Seq<char>> {
    match r {
        Ok(v) => Ok(Token::seq_view(v@)),
        Err(e) => Err(e.message@),
    }
}

/// The value of one item of a list (see `list_item`).
fn parse_list_token(data: &DataStore, text: String, parse_numbers: bool) -> (r: Result<
    Token,
    LogoError,
>)
    requires
        data.wf(),
    ensures
        match (r, list_item(data.scopes(), text@, parse_numbers)) {
            (Ok(t), Ok(v)) => t@ == v,
            (Err(e), Err(m)) => e.message@ == m,
            _ => false,
        },
{
    let chars = chars_of(text.as_str());
    let n = chars.len();
    if n > 0 && chars[0] == ':' {
        let var_name = string_from_range(&chars, 1, n);
        match data.get_variable(var_name.as_str()) {
            Some(var) => Ok(var.duplicate()),
            None => {
                let mut message = var_name;
                message.append(" has no value");
                Err(LogoError::new(message))
            },
        }
    } else if parse_numbers && check_number_literal(&chars) {
        Ok(Token::Number(text))
    } else {
        Ok(Token::Word(text))
    }
}

/// Reads the list written `list` into its items (see `list_items`):
/// bracketed lists stay whole, `:name` stands for the value of the variable
/// `name`, and numbers are read as numbers when `parse_numbers`.
pub fn parse_list(data: &DataStore, list: &String, parse_numbers: bool) -> (r: Result<
    Vec<Token>,
    LogoError,
>)
    requires
        data.wf(),
    ensures
        tokens_result(r) == list_items(data.scopes(), list@, parse_numbers),
{
    let chars = chars_of(list.as_str());
    let ghost s = chars@;
    let mut items: Vec<Token> = Vec::new();
    let mut current = String::new();
    let mut reading_list = false;
    let mut i: usize = 0;
    while i < chars.len()
        invariant
            data.wf(),
            s == chars@,
            s == list@,
            i <= s.len(),
            list_scan(data.scopes(), s.take(i as int), parse_numbers) == (
                Ok::<Seq<SToken>, Seq<char>>(Token::seq_view(items@)),
                current@,
                reading_list,
            ),
        decreases s.len() - i,
    {
        let chr = chars[i];
        assert(s.take(i + 1).drop_last() =~= s.take(i as int));
        let ghost before = items@;
        if chr == '[' {
            reading_list = true;
        } else if chr == ']' {
            reading_list = false;
            let token = Token::List(current);
            proof {
                Token::lemma_seq_view_push(items@, token);
            }
            items.push(token);
            current = String::new();
        } else if reading_list {
            push_char(&mut current, chr);
        } else if !is_whitespace(chr) {
            push_char(&mut current, chr);
        } else if !current.as_str().is_empty() {
            let item = current;
            current = String::new();
            match parse_list_token(data, item, parse_numbers) {
                Ok(token) => {
                    proof {
                        Token::lemma_seq_view_push(items@, token);
                    }
                    items.push(token);
                },
                Err(e) => {
                    proof {
                        lemma_scan_error_stays(data.scopes(), s, parse_numbers, i + 1);
                    }
                    return Err(e);
                },
            }
        }
        i = i + 1;
    }
    assert(s.take(i as int) =~= s);
    if !current.as_str().is_empty() {
        match parse_list_token(data, current, parse_numbers) {
            Ok(token) => {
                proof {
                    Token::lemma_seq_view_push(items@, token);
                }
                items.push(token);
            },
            Err(e) => {
                return Err(e);
            },
        }
    }
    Ok(items)
}

/// The message of a procedure called with the wrong number of inputs.
pub open spec fn arity_message(name: Seq<char>, count: nat) -> Seq<char> {
    name + " expected "@ + decimal(count) + " inputs"@
}

/// Pairs each parameter of `procedure` with the input at its place; fails
/// unless there are as many inputs as parameters.
pub fn procedure_bindings(procedure: &Procedure, args: &Vec<Token>) -> (r: Result<
    Vec<(String, Token)>,
    LogoError,
>)
    ensures
        match r {
            Ok(b) => {
                &&& procedure.params@.len() == args@.len()
                &&& b@.len() == args@.len()
                &&& forall|i: int|
                    0 <= i < b@.len() ==> (#[trigger] b@[i]).0@ == procedure.params@[i]@ && b@[i].1@
                        == args@[i]@
            },
            Err(e) => procedure.params@.len() != args@.len() && e.message@ == arity_message(
                procedure.name@,
                procedure.params@.len(),
            ),
        },
{
    let n = procedure.params.len();
    if n != args.len() {
        let mut message = procedure.name.clone();
        message.append(" expected ");
        push_decimal(&mut message, n);
        message.append(" inputs");
        return Err(LogoError::new(message));
    }
    let mut bindings: Vec<(String, Token)> = Vec::new();
    let mut i: usize = 0;
    while i < n
        invariant
            n == procedure.params@.len(),
            n == args@.len(),
            i <= n,
            bindings@.len() == i,
            forall|j: int|
                0 <= j < i ==> (#[trigger] bindings@[j]).0@ == procedure.params@[j]@
                    && bindings@[j].1@ == args@[j]@,
        decreases n - i,
    {
        bindings.push((procedure.params[i].clone(), args[i].duplicate()));
        i = i + 1;
    }
    Ok(bindings)
}

/// The scopes after each binding is set in turn.
pub open spec fn assign_all(
    scopes: Seq<Map<Seq<char>, SToken>>,
    bindings: Seq<(Seq<char>, SToken)>,
) -> Seq<Map<Seq<char>, SToken>>
    decreases bindings.len(),
{
    if bindings.len() == 0 {
        scopes
    } else {
        scope_assign(
            assign_all(scopes, bindings.drop_last()),
            bindings.last().0,
            bindings.last().1,
        )
    }
}

/// The values of bindings.
pub open spec fn bindings_view(b: Seq<(String, Token)>) -> Seq<(Seq<char>, SToken)> {
    b.map_values(|x: (String, Token)| (x.0@, x.1@))
}

/// Enters the scope of a procedure call: fails when scopes are nested as
/// deeply as allowed; otherwise enters a new scope and sets each binding
/// in turn.
pub fn enter_procedure_scope(data: &mut DataStore, bindings: &Vec<(String, Token)>) -> (r: Result<
    (),
    LogoError,
>)
    requires
        old(data).wf(),
    ensures
        final(data).wf(),
        final(data).procedures() == old(data).procedures(),
        final(data).shapes() == old(data).shapes(),
        match r {
            Ok(_) => old(data).scopes().len() < MAX_SCOPE_DEPTH && final(data).scopes()
                == assign_all(
                old(data).scopes().push(Map::<Seq<char>, SToken>::empty()),
                bindings_view(bindings@),
            ),
            Err(e) => old(data).scopes().len() >= MAX_SCOPE_DEPTH && e.message@
                == "maximum stack depth exceeded"@ && *final(data) == *old(data),
        },
{
    if data.reached_max_scope_depth() {
        return Err(LogoError::from_str("maximum stack depth exceeded"));
    }
    data.push_scope();
    let ghost start = data.scopes();
    let mut i: usize = 0;
    while i < bindings.len()
        invariant
            data.wf(),
            i <= bindings@.len(),
            data.procedures() == old(data).procedures(),
            data.shapes() == old(data).shapes(),
            start == old(data).scopes().push(Map::<Seq<char>, SToken>::empty()),
            data.scopes() == assign_all(start, bindings_view(bindings@).take(i as int)),
        decreases bindings@.len() - i,
    {
        let value = bindings[i].1.duplicate();
        data.set_variable(bindings[i].0.as_str(), value);
        assert(bindings_view(bindings@).take(i + 1).drop_last() =~= bindings_view(bindings@).take(
            i as int,
        ));
        i = i + 1;
    }
    assert(bindings_view(bindings@).take(i as int) =~= bindings_view(bindings@));
    Ok(())
}

/// The scopes after each name is removed in turn from the innermost scope.
pub open spec fn remove_all(scopes: Seq<Map<Seq<char>, SToken>>, names: Seq<Seq<char>>) -> Seq<
    Map<Seq<char>, SToken>,
>
    decreases names.len(),
{
    if names.len() == 0 {
        scopes
    } else {
        let s = remove_all(scopes, names.drop_last());
        s.update(s.len() - 1, s.last().remove(names.last()))
    }
}

/// Leaves the scope of a procedure call: removes each parameter from the
/// innermost scope, then leaves it.
pub fn leave_procedure_scope(data: &mut DataStore, bindings: &Vec<(String, Token)>)
    requires
        old(data).wf(),
    ensures
        final(data).wf(),
        final(data).procedures() == old(data).procedures(),
        final(data).shapes() == old(data).shapes(),
        final(data).scopes() == scopes_after_pop(
            remove_all(old(data).scopes(), bindings_view(bindings@).map_values(|b: (Seq<char>, SToken)| b.0)),
        ),
{
    let ghost names = bindings_view(bindings@).map_values(|b: (Seq<char>, SToken)| b.0);
    let mut i: usize = 0;
    while i < bindings.len()
        invariant
            data.wf(),
            i <= bindings@.len(),
            names == bindings_view(bindings@).map_values(|b: (Seq<char>, SToken)| b.0),
            data.procedures() == old(data).procedures(),
            data.shapes() == old(data).shapes(),
            data.scopes() == remove_all(old(data).scopes(), names.take(i as int)),
            data.scopes().len() == old(data).scopes().len(),
        decreases bindings@.len() - i,
    {
        proof {
            data.lemma_has_global();
        }
        data.remove_variable(bindings[i].0.as_str());
        assert(names.take(i + 1).drop_last() =~= names.take(i as int));
        i = i + 1;
    }
    assert(names.take(i as int) =~= names);
    data.pop_scope();
}

} // verus!
