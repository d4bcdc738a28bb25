//! What the commands that work on words, lists and truth values do with
//! their inputs. Each takes the name the command was called by and its
//! inputs, and gives the command's value or an error.
use vstd::prelude::*;

use crate::interpreter::interpreter::{list_items, parse_list, tokens_result};
use crate::interpreter::language::lexer::token_result;
use crate::interpreter::language::token::{list_string, list_text, same_token, SToken, Token};
use crate::interpreter::language::util::{
    ascii_for_key, decimal, decode_boolean, decode_list, decode_token, decode_word,
    expected_message, key_code_of, missing_message, push_decimal, tokens_equal,
};
use crate::interpreter::state::datastore::{scope_assign, scope_init_local, DataStore};
use crate::interpreter::state::input::InputManager;
use crate::interpreter::state::object::{TextStyle, TurtleShape};
use crate::interpreter::util::error::LogoError;

verus! {

/// The input at `i`, of any kind.
pub open spec fn input(com: Seq<char>, a: Seq<SToken>, i: int) -> Result<SToken, Seq<char>> {
    if 0 <= i < a.len() {
        Ok(a[i])
    } else {
        Err(missing_message(com, i as nat))
    }
}

/// The input at `i` as a word.
pub open spec fn word_input(com: Seq<char>, a: Seq<SToken>, i: int) -> Result<Seq<char>, Seq<char>> {
    if 0 <= i < a.len() && a[i] is Word {
        match a[i] {
            SToken::Word(w) => Ok(w),
            _ => Err(Seq::empty()),
        }
    } else {
        Err(expected_message(com, "word"@, i as nat))
    }
}

/// The input at `i` as the text of a list.
pub open spec fn list_input(com: Seq<char>, a: Seq<SToken>, i: int) -> Result<Seq<char>, Seq<char>> {
    if 0 <= i < a.len() && a[i] is List {
        match a[i] {
            SToken::List(l) => Ok(l),
            _ => Err(Seq::empty()),
        }
    } else {
        Err(expected_message(com, "list"@, i as nat))
    }
}

/// The input at `i` as a boolean.
pub open spec fn bool_input(com: Seq<char>, a: Seq<SToken>, i: int) -> Result<bool, Seq<char>> {
    if 0 <= i < a.len() && a[i] is Boolean {
        match a[i] {
            SToken::Boolean(b) => Ok(b),
            _ => Err(Seq::empty()),
        }
    } else {
        Err(expected_message(com, "boolean"@, i as nat))
    }
}

/// The values of the inputs.
pub open spec fn inputs(args: Seq<Token>) -> Seq<SToken> {
    Token::seq_view(args)
}

/// The value of a command that gives `v` unless an input fails.
pub open spec fn bool_value(v: Result<bool, Seq<char>>) -> Result<SToken, Seq<char>> {
    match v {
        Ok(b) => Ok(SToken::Boolean(b)),
        Err(e) => Err(e),
    }
}

/// `output` (and `op`): its input, as the value of the procedure it ends.
pub fn output(com: &str, args: &Vec<Token>) -> (r: Result<Token, LogoError>)
    ensures
        token_result(r) == input(com@, inputs(args@), 0),
{
    proof {
        Token::lemma_seq_view_index(args@);
    }
    match decode_token(com, args, 0) {
        Ok(t) => Ok(t),
        Err(e) => Err(e),
    }
}

/// `equal?`: whether its two inputs are equal numbers, words or booleans.
pub fn equal(com: &str, args: &Vec<Token>) -> (r: Result<Token, LogoError>)
    ensures
        token_result(r) == match (input(com@, inputs(args@), 0), input(com@, inputs(args@), 1)) {
            (Ok(a), Ok(b)) => Ok(SToken::Boolean(tokens_equal(a, b))),
            (Err(e), _) => Err(e),
            (_, Err(e)) => Err(e),
        },
{
    proof {
        Token::lemma_seq_view_index(args@);
    }
    let a = match decode_token(com, args, 0) {
        Ok(t) => t,
        Err(e) => {
            return Err(e);
        },
    };
    let b = match decode_token(com, args, 1) {
        Ok(t) => t,
        Err(e) => {
            return Err(e);
        },
    };
    Ok(Token::Boolean(crate::interpreter::language::util::are_tokens_equal(&a, &b)))
}

/// `not`: the negation of its boolean input.
pub fn not(com: &str, args: &Vec<Token>) -> (r: Result<Token, LogoError>)
    ensures
        token_result(r) == bool_value(
            match bool_input(com@, inputs(args@), 0) {
                Ok(b) => Ok(!b),
                Err(e) => Err(e),
            },
        ),
{
    proof {
        Token::lemma_seq_view_index(args@);
    }
    match decode_boolean(com, args, 0) {
        Ok(b) => Ok(Token::Boolean(!b)),
        Err(e) => Err(e),
    }
}

/// The kind of token `number?`, `word?` and `list?` test for.
pub enum Kind {
    Number,
    Word,
    List,
}

/// Whether `t` is of kind `k`.
pub open spec fn is_kind(t: SToken, k: Kind) -> bool {
    match k {
        Kind::Number => t is Number,
        Kind::Word => t is Word,
        Kind::List => t is List,
    }
}

/// `number?`, `word?` and `list?`: whether the input is of kind `kind`.
pub fn is_of_kind(com: &str, args: &Vec<Token>, kind: Kind) -> (r: Result<Token, LogoError>)
    ensures
        token_result(r) == match input(com@, inputs(args@), 0) {
            Ok(t) => Ok(SToken::Boolean(is_kind(t, kind))),
            Err(e) => Err(e),
        },
{
    proof {
        Token::lemma_seq_view_index(args@);
    }
    let token = match decode_token(com, args, 0) {
        Ok(t) => t,
        Err(e) => {
            return Err(e);
        },
    };
    let result = match (kind, &token) {
        (Kind::Number, Token::Number(..)) => true,
        (Kind::Word, Token::Word(..)) => true,
        (Kind::List, Token::List(..)) => true,
        _ => false,
    };
    Ok(Token::Boolean(result))
}

/// `empty?`: whether the word or list given is empty.
pub fn empty(com: &str, args: &Vec<Token>) -> (r: Result<Token, LogoError>)
    ensures
        token_result(r) == match input(com@, inputs(args@), 0) {
            Ok(SToken::Word(w)) => Ok(SToken::Boolean(w.len() == 0)),
            Ok(SToken::List(l)) => Ok(SToken::Boolean(l.len() == 0)),
            Ok(_) => Err("empty? expected a word or list as input"@),
            Err(e) => Err(e),
        },
{
    proof {
        Token::lemma_seq_view_index(args@);
    }
    let token = match decode_token(com, args, 0) {
        Ok(t) => t,
        Err(e) => {
            return Err(e);
        },
    };
    match &token {
        Token::Word(word) => Ok(Token::Boolean(word.as_str().is_empty())),
        Token::List(list) => Ok(Token::Boolean(list.as_str().is_empty())),
        _ => Err(LogoError::from_str("empty? expected a word or list as input")),
    }
}

/// `fput`: the list given with the first input's text put in front.
pub fn fput(com: &str, args: &Vec<Token>) -> (r: Result<Token, LogoError>)
    ensures
        token_result(r) == match (input(com@, inputs(args@), 0), list_input(com@, inputs(args@), 1)) {
            (Ok(item), Ok(list)) => Ok(SToken::List(item.text() + " "@ + list)),
            (Err(e), _) => Err(e),
            (_, Err(e)) => Err(e),
        },
{
    proof {
        Token::lemma_seq_view_index(args@);
    }
    let item = match decode_token(com, args, 0) {
        Ok(t) => t,
        Err(e) => {
            return Err(e);
        },
    };
    let list = match decode_list(com, args, 1) {
        Ok(l) => l,
        Err(e) => {
            return Err(e);
        },
    };
    let mut result = item.to_string();
    result.append(" ");
    result.append(list.as_str());
    Ok(Token::List(result))
}

/// `lput`: the list given with the first input's text put at its end.
pub fn lput(com: &str, args: &Vec<Token>) -> (r: Result<Token, LogoError>)
    ensures
        token_result(r) == match (input(com@, inputs(args@), 0), list_input(com@, inputs(args@), 1)) {
            (Ok(item), Ok(list)) => Ok(SToken::List(list + " "@ + item.text())),
            (Err(e), _) => Err(e),
            (_, Err(e)) => Err(e),
        },
{
    proof {
        Token::lemma_seq_view_index(args@);
    }
    let item = match decode_token(com, args, 0) {
        Ok(t) => t,
        Err(e) => {
            return Err(e);
        },
    };
    let list = match decode_list(com, args, 1) {
        Ok(l) => l,
        Err(e) => {
            return Err(e);
        },
    };
    let mut result = list;
    result.append(" ");
    let text = item.to_string();
    result.append(text.as_str());
    Ok(Token::List(result))
}

/// `ascii`: the code of the key named by the word given.
pub fn ascii(com: &str, args: &Vec<Token>) -> (r: Result<Token, LogoError>)
    ensures
        token_result(r) == match word_input(com@, inputs(args@), 0) {
            Ok(w) => match key_code_of(w) {
                Some(code) => Ok(SToken::Number(decimal(code as nat))),
                None => Err("key is not an ascii character"@),
            },
            Err(e) => Err(e),
        },
{
    proof {
        Token::lemma_seq_view_index(args@);
    }
    let word = match decode_word(com, args, 0) {
        Ok(w) => w,
        Err(e) => {
            return Err(e);
        },
    };
    match ascii_for_key(word.as_str()) {
        Ok(code) => {
            let mut text = String::new();
            push_decimal(&mut text, code as usize);
            Ok(Token::Number(text))
        },
        Err(e) => Err(e),
    }
}

/// `key?`: whether a typed key waits to be read.
pub fn key<C>(input: &mut InputManager<C>) -> (r: Token)
    ensures
        *final(input) == *old(input),
        r@ == SToken::Boolean(old(input).keys().len() > 0),
{
    Token::Boolean(input.has_key())
}

/// `readchar`: the oldest typed key, or the empty word when there is none.
pub fn readchar<C>(input: &mut InputManager<C>) -> (r: Token)
    requires
        old(input).wf(),
    ensures
        final(input).wf(),
        final(input).down() == old(input).down(),
        final(input).clicks() == old(input).clicks(),
        old(input).keys().len() > 0 ==> r@ == SToken::Word(old(input).keys()[0]) && final(input).keys() == old(input).keys().drop_first(),
        old(input).keys().len() == 0 ==> r@ == SToken::Word(Seq::empty()) && final(input).keys()
            == old(input).keys(),
{
    match input.get_one_key() {
        Some(key) => Token::Word(key),
        None => Token::Word(String::new()),
    }
}

/// `number?`: whether the input is a number.
pub fn isnumber(com: &str, args: &Vec<Token>) -> (r: Result<Token, LogoError>)
    ensures
        token_result(r) == match input(com@, inputs(args@), 0) {
            Ok(t) => Ok(SToken::Boolean(t is Number)),
            Err(e) => Err(e),
        },
{
    is_of_kind(com, args, Kind::Number)
}

/// `word?`: whether the input is a word.
pub fn isword(com: &str, args: &Vec<Token>) -> (r: Result<Token, LogoError>)
    ensures
        token_result(r) == match input(com@, inputs(args@), 0) {
            Ok(t) => Ok(SToken::Boolean(t is Word)),
            Err(e) => Err(e),
        },
{
    is_of_kind(com, args, Kind::Word)
}

/// `list?`: whether the input is a list.
pub fn islist(com: &str, args: &Vec<Token>) -> (r: Result<Token, LogoError>)
    ensures
        token_result(r) == match input(com@, inputs(args@), 0) {
            Ok(t) => Ok(SToken::Boolean(t is List)),
            Err(e) => Err(e),
        },
{
    is_of_kind(com, args, Kind::List)
}

/// The first `n` inputs, which must be words, joined; the first input that
/// is no word is reported.
pub open spec fn word_fold(com: Seq<char>, a: Seq<SToken>, n: int) -> Result<Seq<char>, Seq<char>>
    decreases n,
{
    if n <= 1 {
        word_input(com, a, 0)
    } else {
        match word_fold(com, a, n - 1) {
            Err(e) => Err(e),
            Ok(w) => match word_input(com, a, n - 1) {
                Ok(x) => Ok(w + x),
                Err(e) => Err(e),
            },
        }
    }
}

/// `word`: its word inputs joined into one word.
pub fn word(com: &str, args: &Vec<Token>) -> (r: Result<Token, LogoError>)
    ensures
        token_result(r) == match word_fold(com@, inputs(args@), args@.len() as int) {
            Ok(w) => Ok(SToken::Word(w)),
            Err(e) => Err(e),
        },
{
    proof {
        Token::lemma_seq_view_index(args@);
    }
    let mut result = match decode_word(com, args, 0) {
        Ok(w) => w,
        Err(e) => {
            proof {
                if args@.len() >= 1 {
                    lemma_word_fold_error_stays(com@, inputs(args@), 1, args@.len() as int);
                }
            }
            return Err(e);
        },
    };
    let mut i: usize = 1;
    while i < args.len()
        invariant
            1 <= i <= args@.len(),
            Token::seq_view(args@).len() == args@.len(),
            forall|j: int| 0 <= j < args@.len() ==> #[trigger] Token::seq_view(args@)[j] == args@[j]@,
            word_fold(com@, inputs(args@), i as int) == Ok::<Seq<char>, Seq<char>>(result@),
        decreases args@.len() - i,
    {
        match decode_word(com, args, i) {
            Ok(w) => {
                result.append(w.as_str());
            },
            Err(e) => {
                proof {
                    lemma_word_fold_error_stays(com@, inputs(args@), i as int + 1, args@.len() as int);
                }
                return Err(e);
            },
        }
        i = i + 1;
    }
    Ok(Token::Word(result))
}

/// Once joining words has failed, it stays failed with the same error.
proof fn lemma_word_fold_error_stays(com: Seq<char>, a: Seq<SToken>, k: int, n: int)
    requires
        1 <= k <= n,
        word_fold(com, a, k) is Err,
    ensures
        word_fold(com, a, n) == word_fold(com, a, k),
    decreases n - k,
{
    if k < n {
        lemma_word_fold_error_stays(com, a, k, n - 1);
    }
}

/// The first `n` inputs, which must be booleans, combined with `or` (or
/// with `and` when `conj`); the first input that is no boolean is
/// reported.
pub open spec fn bool_fold(com: Seq<char>, a: Seq<SToken>, n: int, conj: bool) -> Result<
    bool,
    Seq<char>,
>
    decreases n,
{
    if n <= 1 {
        bool_input(com, a, 0)
    } else {
        match bool_fold(com, a, n - 1, conj) {
            Err(e) => Err(e),
            Ok(b) => match bool_input(com, a, n - 1) {
                Ok(x) => Ok(
                    if conj {
                        b && x
                    } else {
                        b || x
                    },
                ),
                Err(e) => Err(e),
            },
        }
    }
}

/// Once combining booleans has failed, it stays failed with the same
/// error.
proof fn lemma_bool_fold_error_stays(com: Seq<char>, a: Seq<SToken>, k: int, n: int, conj: bool)
    requires
        1 <= k <= n,
        bool_fold(com, a, k, conj) is Err,
    ensures
        bool_fold(com, a, n, conj) == bool_fold(com, a, k, conj),
    decreases n - k,
{
    if k < n {
        lemma_bool_fold_error_stays(com, a, k, n - 1, conj);
    }
}

/// On boolean inputs, `or` is true exactly when some input is true, and
/// `and` exactly when every input is true.
pub proof fn law_or_and_of_booleans(com: Seq<char>, a: Seq<SToken>, n: int)
    requires
        1 <= n <= a.len(),
        forall|i: int| 0 <= i < n ==> #[trigger] a[i] is Boolean,
    ensures
        bool_fold(com, a, n, false) == Ok::<bool, Seq<char>>(
            exists|i: int| 0 <= i < n && #[trigger] a[i] == SToken::Boolean(true),
        ),
        bool_fold(com, a, n, true) == Ok::<bool, Seq<char>>(
            forall|i: int| 0 <= i < n ==> #[trigger] a[i] == SToken::Boolean(true),
        ),
    decreases n,
{
    if n > 1 {
        law_or_and_of_booleans(com, a, n - 1);
        assert(a[n - 1] is Boolean);
        if a[n - 1] == SToken::Boolean(true) {
            assert(exists|i: int| 0 <= i < n && #[trigger] a[i] == SToken::Boolean(true));
        } else {
            assert(a[n - 1] == SToken::Boolean(false));
            if exists|i: int| 0 <= i < n && #[trigger] a[i] == SToken::Boolean(true) {
                let i = choose|i: int| 0 <= i < n && #[trigger] a[i] == SToken::Boolean(true);
                assert(i < n - 1);
            }
        }
    } else {
        assert(a[0] is Boolean);
        if a[0] == SToken::Boolean(false) {
            assert(forall|i: int| 0 <= i < n ==> #[trigger] a[i] == SToken::Boolean(false));
        }
    }
}

/// `or` (or `and` when `conj`) of the boolean inputs.
fn combine(com: &str, args: &Vec<Token>, conj: bool) -> (r: Result<Token, LogoError>)
    ensures
        token_result(r) == bool_value(bool_fold(com@, inputs(args@), args@.len() as int, conj)),
{
    proof {
        Token::lemma_seq_view_index(args@);
    }
    let mut result = match decode_boolean(com, args, 0) {
        Ok(b) => b,
        Err(e) => {
            proof {
                if args@.len() >= 1 {
                    lemma_bool_fold_error_stays(com@, inputs(args@), 1, args@.len() as int, conj);
                }
            }
            return Err(e);
        },
    };
    let mut i: usize = 1;
    while i < args.len()
        invariant
            1 <= i <= args@.len(),
            Token::seq_view(args@).len() == args@.len(),
            forall|j: int| 0 <= j < args@.len() ==> #[trigger] Token::seq_view(args@)[j] == args@[j]@,
            bool_fold(com@, inputs(args@), i as int, conj) == Ok::<bool, Seq<char>>(result),
        decreases args@.len() - i,
    {
        match decode_boolean(com, args, i) {
            Ok(b) => {
                result = if conj {
                    result && b
                } else {
                    result || b
                };
            },
            Err(e) => {
                proof {
                    lemma_bool_fold_error_stays(
                        com@,
                        inputs(args@),
                        i as int + 1,
                        args@.len() as int,
                        conj,
                    );
                }
                return Err(e);
            },
        }
        i = i + 1;
    }
    Ok(Token::Boolean(result))
}

/// `or`: whether any boolean input is true.
pub fn or(com: &str, args: &Vec<Token>) -> (r: Result<Token, LogoError>)
    ensures
        token_result(r) == bool_value(bool_fold(com@, inputs(args@), args@.len() as int, false)),
{
    combine(com, args, false)
}

/// `and`: whether every boolean input is true.
pub fn and(com: &str, args: &Vec<Token>) -> (r: Result<Token, LogoError>)
    ensures
        token_result(r) == bool_value(bool_fold(com@, inputs(args@), args@.len() as int, true)),
{
    combine(com, args, true)
}

/// The texts of the first `n` inputs, separated by spaces.
pub open spec fn text_fold(a: Seq<SToken>, n: int) -> Seq<char>
    decreases n,
{
    if n <= 1 {
        a[0].text()
    } else {
        text_fold(a, n - 1) + " "@ + a[n - 1].text()
    }
}

/// `list`: the list of the texts of its inputs.
pub fn list(com: &str, args: &Vec<Token>) -> (r: Result<Token, LogoError>)
    ensures
        args@.len() == 0 ==> token_result(r) == Err::<SToken, Seq<char>>(missing_message(com@, 0)),
        args@.len() > 0 ==> token_result(r) == Ok::<SToken, Seq<char>>(
            SToken::List(text_fold(inputs(args@), args@.len() as int)),
        ),
{
    proof {
        Token::lemma_seq_view_index(args@);
    }
    let first = match decode_token(com, args, 0) {
        Ok(t) => t,
        Err(e) => {
            return Err(e);
        },
    };
    let mut result = first.to_string();
    let mut i: usize = 1;
    while i < args.len()
        invariant
            1 <= i <= args@.len(),
            Token::seq_view(args@).len() == args@.len(),
            forall|j: int| 0 <= j < args@.len() ==> #[trigger] Token::seq_view(args@)[j] == args@[j]@,
            result@ == text_fold(inputs(args@), i as int),
        decreases args@.len() - i,
    {
        result.append(" ");
        let text = args[i].to_string();
        result.append(text.as_str());
        i = i + 1;
    }
    Ok(Token::List(result))
}

/// The items of the list input at `i`, numbers read as numbers when
/// `numbers`.
pub open spec fn items_input(
    scopes: Seq<Map<Seq<char>, SToken>>,
    com: Seq<char>,
    a: Seq<SToken>,
    i: int,
    numbers: bool,
) -> Result<Seq<SToken>, Seq<char>> {
    match list_input(com, a, i) {
        Ok(l) => list_items(scopes, l, numbers),
        Err(e) => Err(e),
    }
}

/// The items of the list input at `i`.
fn read_items(data: &DataStore, com: &str, args: &Vec<Token>, i: usize, numbers: bool) -> (r: Result<
    Vec<Token>,
    LogoError,
>)
    requires
        data.wf(),
    ensures
        tokens_result(r) == items_input(data.scopes(), com@, inputs(args@), i as int, numbers),
{
    proof {
        Token::lemma_seq_view_index(args@);
    }
    match decode_list(com, args, i) {
        Ok(list) => parse_list(data, &list, numbers),
        Err(e) => Err(e),
    }
}

/// `first`: the first item of the list given.
pub fn first(data: &DataStore, com: &str, args: &Vec<Token>) -> (r: Result<Token, LogoError>)
    requires
        data.wf(),
    ensures
        token_result(r) == match items_input(data.scopes(), com@, inputs(args@), 0, true) {
            Ok(items) => if items.len() > 0 {
                Ok(items[0])
            } else {
                Err("first cannot get from empty list"@)
            },
            Err(e) => Err(e),
        },
{
    let items = match read_items(data, com, args, 0, true) {
        Ok(items) => items,
        Err(e) => {
            return Err(e);
        },
    };
    proof {
        Token::lemma_seq_view_index(items@);
    }
    if items.len() > 0 {
        Ok(items[0].duplicate())
    } else {
        Err(LogoError::from_str("first cannot get from empty list"))
    }
}

/// `last`: the last item of the list given.
pub fn last(data: &DataStore, com: &str, args: &Vec<Token>) -> (r: Result<Token, LogoError>)
    requires
        data.wf(),
    ensures
        token_result(r) == match items_input(data.scopes(), com@, inputs(args@), 0, true) {
            Ok(items) => if items.len() > 0 {
                Ok(items.last())
            } else {
                Err("last cannot get from empty list"@)
            },
            Err(e) => Err(e),
        },
{
    let items = match read_items(data, com, args, 0, true) {
        Ok(items) => items,
        Err(e) => {
            return Err(e);
        },
    };
    proof {
        Token::lemma_seq_view_index(items@);
    }
    let n = items.len();
    if n > 0 {
        Ok(items[n - 1].duplicate())
    } else {
        Err(LogoError::from_str("last cannot get from empty list"))
    }
}

/// Copies of `items[from..to]`.
fn copy_range(items: &Vec<Token>, from: usize, to: usize) -> (r: Vec<Token>)
    requires
        from <= to <= items@.len(),
    ensures
        Token::seq_view(r@) == Token::seq_view(items@).subrange(from as int, to as int),
{
    proof {
        Token::lemma_seq_view_index(items@);
    }
    let mut r: Vec<Token> = Vec::new();
    let mut i = from;
    while i < to
        invariant
            from <= i <= to <= items@.len(),
            Token::seq_view(items@).len() == items@.len(),
            forall|j: int| 0 <= j < items@.len() ==> #[trigger] Token::seq_view(items@)[j] == items@[j]@,
            Token::seq_view(r@) == Token::seq_view(items@).subrange(from as int, i as int),
        decreases to - i,
    {
        let t = items[i].duplicate();
        proof {
            Token::lemma_seq_view_push(r@, t);
        }
        r.push(t);
        assert(Token::seq_view(r@) =~= Token::seq_view(items@).subrange(from as int, i + 1));
        i = i + 1;
    }
    r
}

/// `butfirst`: the list given without its first item.
pub fn butfirst(data: &DataStore, com: &str, args: &Vec<Token>) -> (r: Result<Token, LogoError>)
    requires
        data.wf(),
    ensures
        token_result(r) == match items_input(data.scopes(), com@, inputs(args@), 0, false) {
            Ok(items) => if items.len() > 0 {
                Ok(SToken::List(list_text(items.subrange(1, items.len() as int))))
            } else {
                Err("butfirst cannot get from empty list"@)
            },
            Err(e) => Err(e),
        },
{
    let items = match read_items(data, com, args, 0, false) {
        Ok(items) => items,
        Err(e) => {
            return Err(e);
        },
    };
    proof {
        Token::lemma_seq_view_index(items@);
    }
    let n = items.len();
    if n == 0 {
        return Err(LogoError::from_str("butfirst cannot get from empty list"));
    }
    let rest = copy_range(&items, 1, n);
    Ok(Token::List(list_string(&rest)))
}

/// `butlast`: the list given without its last item.
pub fn butlast(data: &DataStore, com: &str, args: &Vec<Token>) -> (r: Result<Token, LogoError>)
    requires
        data.wf(),
    ensures
        token_result(r) == match items_input(data.scopes(), com@, inputs(args@), 0, false) {
            Ok(items) => if items.len() > 0 {
                Ok(SToken::List(list_text(items.subrange(0, items.len() - 1))))
            } else {
                Err("butlast cannot get from empty list"@)
            },
            Err(e) => Err(e),
        },
{
    let items = match read_items(data, com, args, 0, false) {
        Ok(items) => items,
        Err(e) => {
            return Err(e);
        },
    };
    proof {
        Token::lemma_seq_view_index(items@);
    }
    let n = items.len();
    if n == 0 {
        return Err(LogoError::from_str("butlast cannot get from empty list"));
    }
    let rest = copy_range(&items, 0, n - 1);
    Ok(Token::List(list_string(&rest)))
}

/// Whether `item` equals one of `items`.
pub open spec fn has_item(items: Seq<SToken>, item: SToken) -> bool {
    exists|i: int| 0 <= i < items.len() && same_token(#[trigger] items[i], item)
}

/// `member?`: whether the first input equals an item of the list given.
pub fn member(data: &DataStore, com: &str, args: &Vec<Token>) -> (r: Result<Token, LogoError>)
    requires
        data.wf(),
    ensures
        token_result(r) == match input(com@, inputs(args@), 0) {
            Err(e) => Err(e),
            Ok(item) => match items_input(data.scopes(), com@, inputs(args@), 1, true) {
                Ok(items) => Ok(SToken::Boolean(has_item(items, item))),
                Err(e) => Err(e),
            },
        },
{
    proof {
        Token::lemma_seq_view_index(args@);
    }
    let item = match decode_token(com, args, 0) {
        Ok(t) => t,
        Err(e) => {
            return Err(e);
        },
    };
    let items = match read_items(data, com, args, 1, true) {
        Ok(items) => items,
        Err(e) => {
            return Err(e);
        },
    };
    proof {
        Token::lemma_seq_view_index(items@);
    }
    let ghost sv = Token::seq_view(items@);
    assert(input(com@, inputs(args@), 0) == Ok::<SToken, Seq<char>>(item@));
    assert(items_input(data.scopes(), com@, inputs(args@), 1, true) == Ok::<Seq<SToken>, Seq<char>>(sv));
    let mut i: usize = 0;
    while i < items.len()
        invariant
            i <= items@.len(),
            sv == Token::seq_view(items@),
            sv.len() == items@.len(),
            forall|j: int| 0 <= j < items@.len() ==> #[trigger] sv[j] == items@[j]@,
            forall|j: int| 0 <= j < i ==> !same_token(#[trigger] sv[j], item@),
            input(com@, inputs(args@), 0) == Ok::<SToken, Seq<char>>(item@),
            items_input(data.scopes(), com@, inputs(args@), 1, true) == Ok::<Seq<SToken>, Seq<char>>(
                sv,
            ),
        decreases items@.len() - i,
    {
        if items[i].same_as(&item) {
            assert(same_token(sv[i as int], item@));
            assert(has_item(sv, item@));
            return Ok(Token::Boolean(true));
        }
        i = i + 1;
    }
    assert(!has_item(sv, item@));
    Ok(Token::Boolean(false))
}

/// What `make` gives and the scopes after it: the second input is stored
/// under the word given first, a list in the form its items are written
/// back in.
pub open spec fn make_effect(
    scopes: Seq<Map<Seq<char>, SToken>>,
    com: Seq<char>,
    a: Seq<SToken>,
) -> (Result<SToken, Seq<char>>, Seq<Map<Seq<char>, SToken>>) {
    match word_input(com, a, 0) {
        Err(e) => (Err(e), scopes),
        Ok(name) => match input(com, a, 1) {
            Err(e) => (Err(e), scopes),
            Ok(SToken::List(l)) => match list_items(scopes, l, false) {
                Err(e) => (Err(e), scopes),
                Ok(items) => (
                    Ok(SToken::Void),
                    scope_assign(scopes, name, SToken::List(list_text(items))),
                ),
            },
            Ok(t) => (Ok(SToken::Void), scope_assign(scopes, name, t)),
        },
    }
}

/// `make`: sets the variable named by the first input to the second.
pub fn make(data: &mut DataStore, com: &str, args: &Vec<Token>) -> (r: Result<Token, LogoError>)
    requires
        old(data).wf(),
    ensures
        final(data).wf(),
        final(data).procedures() == old(data).procedures(),
        final(data).shapes() == old(data).shapes(),
        (token_result(r), final(data).scopes()) == make_effect(
            old(data).scopes(),
            com@,
            inputs(args@),
        ),
{
    proof {
        Token::lemma_seq_view_index(args@);
    }
    let name = match decode_word(com, args, 0) {
        Ok(w) => w,
        Err(e) => {
            return Err(e);
        },
    };
    let token = match decode_token(com, args, 1) {
        Ok(t) => t,
        Err(e) => {
            return Err(e);
        },
    };
    let value = match token {
        Token::List(list) => {
            let tokens = match parse_list(data, &list, false) {
                Ok(tokens) => tokens,
                Err(e) => {
                    return Err(e);
                },
            };
            Token::List(list_string(&tokens))
        },
        token => token,
    };
    data.set_variable(name.as_str(), value);
    Ok(Token::Void)
}

/// `local`: gives the variable named by the input an empty value in the
/// innermost scope, unless that scope holds it already.
pub fn local(data: &mut DataStore, com: &str, args: &Vec<Token>) -> (r: Result<Token, LogoError>)
    requires
        old(data).wf(),
    ensures
        final(data).wf(),
        final(data).procedures() == old(data).procedures(),
        final(data).shapes() == old(data).shapes(),
        (token_result(r), final(data).scopes()) == match word_input(com@, inputs(args@), 0) {
            Err(e) => (Err(e), old(data).scopes()),
            Ok(name) => (
                Ok(SToken::Void),
                scope_init_local(old(data).scopes(), name, SToken::Void),
            ),
        },
{
    proof {
        Token::lemma_seq_view_index(args@);
    }
    let name = match decode_word(com, args, 0) {
        Ok(w) => w,
        Err(e) => {
            return Err(e);
        },
    };
    data.init_local(name.as_str(), Token::Void);
    Ok(Token::Void)
}

/// The scopes after the pairs of `items` from index `j` on are given, each
/// word at an even index naming a local variable with the item after it
/// as its value.
pub open spec fn let_from(
    scopes: Seq<Map<Seq<char>, SToken>>,
    items: Seq<SToken>,
    j: int,
) -> Seq<Map<Seq<char>, SToken>>
    decreases items.len() + 1 - j,
{
    if j < 0 || j >= items.len() {
        scopes
    } else {
        let next = match items[j] {
            SToken::Word(name) => if j + 1 < items.len() {
                scope_init_local(scopes, name, items[j + 1])
            } else {
                scopes
            },
            _ => scopes,
        };
        let_from(next, items, j + 2)
    }
}

/// `let`: gives local variables the values listed after their names.
pub fn letvar(data: &mut DataStore, com: &str, args: &Vec<Token>) -> (r: Result<Token, LogoError>)
    requires
        old(data).wf(),
    ensures
        final(data).wf(),
        final(data).procedures() == old(data).procedures(),
        final(data).shapes() == old(data).shapes(),
        (token_result(r), final(data).scopes()) == match items_input(
            old(data).scopes(),
            com@,
            inputs(args@),
            0,
            true,
        ) {
            Err(e) => (Err(e), old(data).scopes()),
            Ok(items) => (Ok(SToken::Void), let_from(old(data).scopes(), items, 0)),
        },
{
    let items = match read_items(data, com, args, 0, true) {
        Ok(items) => items,
        Err(e) => {
            return Err(e);
        },
    };
    proof {
        Token::lemma_seq_view_index(items@);
    }
    let ghost sv = Token::seq_view(items@);
    let ghost start = data.scopes();
    let n = items.len();
    let mut index: usize = 0;
    while index < n
        invariant
            data.wf(),
            n == items@.len(),
            sv == Token::seq_view(items@),
            sv.len() == items@.len(),
            forall|j: int| 0 <= j < items@.len() ==> #[trigger] sv[j] == items@[j]@,
            data.procedures() == old(data).procedures(),
            data.shapes() == old(data).shapes(),
            start == old(data).scopes(),
            let_from(data.scopes(), sv, index as int) == let_from(start, sv, 0),
        decreases n - index,
    {
        let ghost before = data.scopes();
        let ghost i = index as int;
        if let Token::Word(name) = &items[index] {
            if index + 1 < n {
                let value = items[index + 1].duplicate();
                data.init_local(name.as_str(), value);
            }
        }
        if n - index < 2 {
            index = n;
        } else {
            index = index + 2;
        }
        assert(let_from(data.scopes(), sv, i + 2) == let_from(data.scopes(), sv, index as int));
        assert(let_from(before, sv, i) == let_from(data.scopes(), sv, i + 2));
    }
    Ok(Token::Void)
}

/// `rand::thread_rng().gen_range(0..n)`: a number drawn at random from
/// `0..n`. The contract states only that it lies in that range; which
/// number comes out is left to chance. The call also panics when the
/// operating system gives no randomness to seed the generator, which no
/// input can rule out.
#[verifier::external_body]
fn random_below(n: usize) -> (r: usize)
    requires
        n > 0,
    ensures
        r < n,
{
    rand::Rng::gen_range(&mut rand::thread_rng(), 0..n)
}

/// What `pick` chooses from: the characters of a word, each as a word, or
/// the items of a list.
pub open spec fn pick_candidates(
    scopes: Seq<Map<Seq<char>, SToken>>,
    com: Seq<char>,
    a: Seq<SToken>,
) -> Result<Seq<SToken>, Seq<char>> {
    match input(com, a, 0) {
        Err(e) => Err(e),
        Ok(SToken::Word(w)) => Ok(Seq::new(w.len(), |i: int| SToken::Word(seq![w[i]]))),
        Ok(SToken::List(l)) => list_items(scopes, l, true),
        Ok(_) => Err("expected a word or list"@),
    }
}

/// The candidates `pick` chooses from (see `pick_candidates`).
pub fn candidates(data: &DataStore, com: &str, args: &Vec<Token>) -> (r: Result<
    Vec<Token>,
    LogoError,
>)
    requires
        data.wf(),
    ensures
        tokens_result(r) == pick_candidates(data.scopes(), com@, inputs(args@)),
{
    proof {
        Token::lemma_seq_view_index(args@);
    }
    let token = match decode_token(com, args, 0) {
        Ok(t) => t,
        Err(e) => {
            return Err(e);
        },
    };
    match &token {
        Token::Word(word) => {
            let chars = crate::text::chars_of(word.as_str());
            let mut out: Vec<Token> = Vec::new();
            let mut i: usize = 0;
            while i < chars.len()
                invariant
                    i <= chars@.len(),
                    chars@ == word@,
                    Token::seq_view(out@) == Seq::new(i as nat, |k: int| SToken::Word(seq![word@[k]])),
                decreases chars@.len() - i,
            {
                let mut one = String::new();
                crate::text::push_char(&mut one, chars[i]);
                let t = Token::Word(one);
                proof {
                    Token::lemma_seq_view_push(out@, t);
                }
                out.push(t);
                assert(Token::seq_view(out@) =~= Seq::new((i + 1) as nat, |k: int| SToken::Word(seq![word@[k]])));
                i = i + 1;
            }
            Ok(out)
        },
        Token::List(list) => parse_list(data, list, true),
        _ => Err(LogoError::from_str("expected a word or list")),
    }
}

/// The candidate at `index`.
pub fn pick_at(candidates: &Vec<Token>, index: usize) -> (r: Token)
    requires
        index < candidates@.len(),
    ensures
        r@ == candidates@[index as int]@,
{
    candidates[index].duplicate()
}

/// `pick`: a character of the word given, or an item of the list given,
/// chosen at random. Which one is left to chance; it is always one of the
/// candidates.
pub fn pick(data: &DataStore, com: &str, args: &Vec<Token>) -> (r: Result<Token, LogoError>)
    requires
        data.wf(),
        pick_candidates(data.scopes(), com@, inputs(args@)) matches Ok(c) ==> c.len() > 0,
    ensures
        match pick_candidates(data.scopes(), com@, inputs(args@)) {
            Err(e) => r matches Err(x) && x.message@ == e,
            Ok(c) => r matches Ok(t) && exists|i: int| 0 <= i < c.len() && c[i] == t@,
        },
{
    let options = match candidates(data, com, args) {
        Ok(options) => options,
        Err(e) => {
            return Err(e);
        },
    };
    proof {
        Token::lemma_seq_view_index(options@);
    }
    let index = random_below(options.len());
    let t = pick_at(&options, index);
    assert(Token::seq_view(options@)[index as int] == t@);
    Ok(t)
}

/// `currentdir`: the base directory, as a word.
pub fn currentdir(data: &DataStore) -> (r: Token)
    ensures
        r@ == SToken::Word(data.base_directory()),
{
    Token::Word(data.get_base_directory().clone())
}

/// `chdir`: makes the word given the base directory.
pub fn chdir(data: &mut DataStore, com: &str, args: &Vec<Token>) -> (r: Result<Token, LogoError>)
    requires
        old(data).wf(),
    ensures
        final(data).wf(),
        final(data).scopes() == old(data).scopes(),
        final(data).procedures() == old(data).procedures(),
        final(data).shapes() == old(data).shapes(),
        match word_input(com@, inputs(args@), 0) {
            Ok(path) => token_result(r) == Ok::<SToken, Seq<char>>(SToken::Void)
                && final(data).base_directory() == crate::interpreter::state::datastore::as_directory(path),
            Err(e) => token_result(r) == Err::<SToken, Seq<char>>(e) && final(data).base_directory()
                == old(data).base_directory(),
        },
{
    proof {
        Token::lemma_seq_view_index(args@);
    }
    match decode_word(com, args, 0) {
        Ok(path) => {
            data.set_base_directory(path);
            Ok(Token::Void)
        },
        Err(e) => Err(e),
    }
}

/// The path of the file named by the word input at `i`: the base
/// directory followed by the word.
pub fn file_path(data: &DataStore, com: &str, args: &Vec<Token>, i: usize) -> (r: Result<
    String,
    LogoError,
>)
    ensures
        match word_input(com@, inputs(args@), i as int) {
            Ok(path) => r matches Ok(full) && full@ == data.base_directory() + path,
            Err(e) => r matches Err(x) && x.message@ == e,
        },
{
    proof {
        Token::lemma_seq_view_index(args@);
    }
    match decode_word(com, args, i) {
        Ok(path) => {
            let mut full = data.get_base_directory().clone();
            full.append(path.as_str());
            Ok(full)
        },
        Err(e) => Err(e),
    }
}

/// What `loadshape` does with the shapes: `None` when the image is already
/// loaded under that name from that path, an error when a built-in shape
/// has the name, and otherwise the image's name and path, stored as a new
/// shape.
pub open spec fn loadshape_effect(
    shapes: Map<Seq<char>, TurtleShape>,
    base: Seq<char>,
    com: Seq<char>,
    a: Seq<SToken>,
) -> Result<Option<(Seq<char>, Seq<char>)>, Seq<char>> {
    match word_input(com, a, 0) {
        Err(e) => Err(e),
        Ok(name) => match word_input(com, a, 1) {
            Err(e) => Err(e),
            Ok(path) => {
                let full = base + path;
                if shapes.contains_key(name) {
                    match shapes[name] {
                        TurtleShape::Image(n, p) => if n@ == name && p@ == full {
                            Ok(None)
                        } else {
                            Ok(Some((name, full)))
                        },
                        _ => Err("shape named "@ + name + " already exists"@),
                    }
                } else {
                    Ok(Some((name, full)))
                }
            },
        },
    }
}

/// `loadshape`: loads the image at the path given (from the base
/// directory) as a shape under the name given. Gives the name and path of
/// an image to load, or `None` when it is loaded already.
pub fn loadshape(data: &mut DataStore, com: &str, args: &Vec<Token>) -> (r: Result<
    Option<(String, String)>,
    LogoError,
>)
    requires
        old(data).wf(),
    ensures
        final(data).wf(),
        final(data).scopes() == old(data).scopes(),
        final(data).procedures() == old(data).procedures(),
        final(data).base_directory() == old(data).base_directory(),
        match loadshape_effect(old(data).shapes(), old(data).base_directory(), com@, inputs(args@)) {
            Err(e) => r matches Err(x) && x.message@ == e && final(data).shapes() == old(
                data,
            ).shapes(),
            Ok(None) => r matches Ok(None) && final(data).shapes() == old(data).shapes(),
            Ok(Some((name, full))) => r matches Ok(Some((n, p))) && n@ == name && p@ == full
                && final(data).shapes() == old(data).shapes().insert(
                name,
                TurtleShape::Image(n, p),
            ),
        },
{
    proof {
        Token::lemma_seq_view_index(args@);
    }
    let name = match decode_word(com, args, 0) {
        Ok(w) => w,
        Err(e) => {
            return Err(e);
        },
    };
    let full_path = match file_path(data, com, args, 1) {
        Ok(p) => p,
        Err(e) => {
            return Err(e);
        },
    };
    match data.get_shape(name.as_str()) {
        Some(TurtleShape::Image(existing_name, existing_path)) => {
            if *existing_name == name && *existing_path == full_path {
                return Ok(None);
            }
        },
        Some(_) => {
            let mut message = String::from_str("shape named ");
            message.append(name.as_str());
            message.append(" already exists");
            return Err(LogoError::new(message));
        },
        None => {},
    }
    let shape = TurtleShape::Image(name.clone(), full_path.clone());
    data.set_shape(name.as_str(), shape);
    Ok(Some((name, full_path)))
}

/// Whether `name` ends with `suffix`.
pub open spec fn ends_with(name: Seq<char>, suffix: Seq<char>) -> bool {
    name.len() >= suffix.len() && name.subrange(name.len() - suffix.len(), name.len() as int)
        == suffix
}

/// Whether `name` ends with `suffix`.
fn check_ends_with(name: &Vec<char>, suffix: &str) -> (b: bool)
    ensures
        b == ends_with(name@, suffix@),
{
    let suf = crate::text::chars_of(suffix);
    let n = name.len();
    let m = suf.len();
    if n < m {
        return false;
    }
    let mut i: usize = 0;
    while i < m
        invariant
            n == name@.len(),
            m == suf@.len(),
            suf@ == suffix@,
            m <= n,
            i <= m,
            forall|j: int| 0 <= j < i ==> name@[n - m + j] == suf@[j],
        decreases m - i,
    {
        if name[n - m + i] != suf[i] {
            assert(name@.subrange(n - m, n as int)[i as int] != suffix@[i as int]);
            return false;
        }
        i = i + 1;
    }
    assert(name@.subrange(n - m, n as int) =~= suffix@);
    true
}

/// Whether a file name is that of a picture: it ends with `.jpg`, `.bmp`
/// or `.png`.
pub fn is_picture_file(name: &String) -> (b: bool)
    ensures
        b == (ends_with(name@, ".jpg"@) || ends_with(name@, ".bmp"@) || ends_with(name@, ".png"@)),
{
    let chars = crate::text::chars_of(name.as_str());
    check_ends_with(&chars, ".jpg") || check_ends_with(&chars, ".bmp") || check_ends_with(
        &chars,
        ".png",
    )
}

/// Whether a file name is that of a text: it ends with `.txt`.
pub fn is_text_file(name: &String) -> (b: bool)
    ensures
        b == ends_with(name@, ".txt"@),
{
    let chars = crate::text::chars_of(name.as_str());
    check_ends_with(&chars, ".txt")
}

/// Names joined with single spaces.
pub open spec fn joined(names: Seq<Seq<char>>) -> Seq<char>
    decreases names.len(),
{
    if names.len() == 0 {
        Seq::empty()
    } else if names.len() == 1 {
        names[0]
    } else {
        joined(names.drop_last()) + " "@ + names.last()
    }
}

/// The names given, joined with single spaces, as the list of files.
pub fn join_names(names: &Vec<String>) -> (r: String)
    ensures
        r@ == joined(names@.map_values(|s: String| s@)),
{
    let ghost v = names@.map_values(|s: String| s@);
    let mut r = String::new();
    let mut i: usize = 0;
    while i < names.len()
        invariant
            i <= names@.len(),
            v == names@.map_values(|s: String| s@),
            r@ == joined(v.take(i as int)),
        decreases names@.len() - i,
    {
        if i > 0 {
            r.append(" ");
        }
        r.append(names[i].as_str());
        proof {
            assert(v.take(i + 1).drop_last() =~= v.take(i as int));
            if i == 0 {
                assert(r@ =~= v.take(1)[0]);
            }
        }
        i = i + 1;
    }
    assert(v.take(i as int) =~= v);
    r
}

/// The text `show` prints for its input.
pub fn show_text(com: &str, args: &Vec<Token>) -> (r: Result<String, LogoError>)
    ensures
        match input(com@, inputs(args@), 0) {
            Ok(t) => r matches Ok(text) && text@ == t.text(),
            Err(e) => r matches Err(x) && x.message@ == e,
        },
{
    proof {
        Token::lemma_seq_view_index(args@);
    }
    match decode_token(com, args, 0) {
        Ok(t) => Ok(t.to_string()),
        Err(e) => Err(e),
    }
}

/// The text `announce` shows for its input: a list without its brackets,
/// anything else as it is shown.
pub fn announce_text(com: &str, args: &Vec<Token>) -> (r: Result<String, LogoError>)
    ensures
        match input(com@, inputs(args@), 0) {
            Ok(SToken::List(l)) => r matches Ok(text) && text@ == l,
            Ok(t) => r matches Ok(text) && text@ == t.text(),
            Err(e) => r matches Err(x) && x.message@ == e,
        },
{
    proof {
        Token::lemma_seq_view_index(args@);
    }
    match decode_token(com, args, 0) {
        Ok(Token::List(list)) => Ok(list),
        Ok(t) => Ok(t.to_string()),
        Err(e) => Err(e),
    }
}

/// The text `print` puts in a text object: a word or number as it is
/// written, a list as its items written back.
pub open spec fn print_text_of(
    scopes: Seq<Map<Seq<char>, SToken>>,
    com: Seq<char>,
    a: Seq<SToken>,
) -> Result<Seq<char>, Seq<char>> {
    match input(com, a, 0) {
        Err(e) => Err(e),
        Ok(SToken::Word(w)) => Ok(w),
        Ok(SToken::Number(n)) => Ok(n),
        Ok(SToken::List(l)) => match list_items(scopes, l, false) {
            Ok(items) => Ok(list_text(items)),
            Err(e) => Err(e),
        },
        Ok(_) => Err("expected word, number or list"@),
    }
}

/// The text `print` puts in a text object (see `print_text_of`).
pub fn print_text(data: &DataStore, com: &str, args: &Vec<Token>) -> (r: Result<
    String,
    LogoError,
>)
    requires
        data.wf(),
    ensures
        match print_text_of(data.scopes(), com@, inputs(args@)) {
            Ok(text) => r matches Ok(s) && s@ == text,
            Err(e) => r matches Err(x) && x.message@ == e,
        },
{
    proof {
        Token::lemma_seq_view_index(args@);
    }
    let token = match decode_token(com, args, 0) {
        Ok(t) => t,
        Err(e) => {
            return Err(e);
        },
    };
    match token {
        Token::Word(word) => Ok(word),
        Token::Number(number) => Ok(number),
        Token::List(list) => match parse_list(data, &list, false) {
            Ok(items) => Ok(list_string(&items)),
            Err(e) => Err(e),
        },
        _ => Err(LogoError::from_str("expected word, number or list")),
    }
}

/// The shape called by the word input, for `setshape`.
pub fn shape_named(data: &DataStore, com: &str, args: &Vec<Token>) -> (r: Result<
    TurtleShape,
    LogoError,
>)
    requires
        data.wf(),
    ensures
        match word_input(com@, inputs(args@), 0) {
            Err(e) => r matches Err(x) && x.message@ == e,
            Ok(name) => if data.shapes().contains_key(name) {
                r == Ok::<TurtleShape, LogoError>(data.shapes()[name])
            } else {
                r matches Err(x) && x.message@ == "no shape named "@ + name
            },
        },
{
    proof {
        Token::lemma_seq_view_index(args@);
    }
    let name = match decode_word(com, args, 0) {
        Ok(w) => w,
        Err(e) => {
            return Err(e);
        },
    };
    match data.get_shape(name.as_str()) {
        Some(shape) => Ok(shape.duplicate()),
        None => {
            let mut message = String::from_str("no shape named ");
            message.append(name.as_str());
            Err(LogoError::new(message))
        },
    }
}

/// Whether `t` is a word that names the style `s`.
pub open spec fn names_style(t: SToken, s: TextStyle) -> bool {
    match t {
        SToken::Word(w) => TextStyle::spec_from(w) == Some(s),
        _ => false,
    }
}

/// The styles named by the words among `items`.
pub open spec fn styles_of(items: Seq<SToken>) -> Set<TextStyle> {
    Set::new(|s: TextStyle| exists|i: int| 0 <= i < items.len() && names_style(#[trigger] items[i], s))
}

/// The styles `setstyle` gives a text: the style a word names, or those
/// named by the words of a list; words that name no style are passed
/// over.
pub open spec fn style_set_of(
    scopes: Seq<Map<Seq<char>, SToken>>,
    com: Seq<char>,
    a: Seq<SToken>,
) -> Result<Set<TextStyle>, Seq<char>> {
    match input(com, a, 0) {
        Err(e) => Err(e),
        Ok(SToken::Word(w)) => Ok(
            match TextStyle::spec_from(w) {
                Some(s) => set![s],
                None => Set::empty(),
            },
        ),
        Ok(SToken::List(l)) => match list_items(scopes, l, false) {
            Ok(items) => Ok(styles_of(items)),
            Err(e) => Err(e),
        },
        Ok(_) => Err("setstyle expected a word or list as input"@),
    }
}

/// The styles `setstyle` gives a text (see `style_set_of`), each once.
pub fn style_set(data: &DataStore, com: &str, args: &Vec<Token>) -> (r: Result<
    Vec<TextStyle>,
    LogoError,
>)
    requires
        data.wf(),
    ensures
        match style_set_of(data.scopes(), com@, inputs(args@)) {
            Ok(set) => r matches Ok(v) && v@.no_duplicates() && v@.to_set() == set,
            Err(e) => r matches Err(x) && x.message@ == e,
        },
{
    proof {
        Token::lemma_seq_view_index(args@);
    }
    let token = match decode_token(com, args, 0) {
        Ok(t) => t,
        Err(e) => {
            return Err(e);
        },
    };
    match token {
        Token::Word(word) => {
            let mut v: Vec<TextStyle> = Vec::new();
            match TextStyle::from(word) {
                Some(style) => {
                    v.push(style);
                    assert(v@ =~= seq![style]);
                    assert forall|x: TextStyle| #[trigger] v@.to_set().contains(x) == (x == style) by {
                        if x == style {
                            assert(v@[0] == style);
                        }
                    }
                    assert(v@.to_set() =~= set![style]);
                },
                None => {
                    assert(v@.to_set() =~= Set::<TextStyle>::empty());
                },
            }
            Ok(v)
        },
        Token::List(list) => {
            let items = match parse_list(data, &list, false) {
                Ok(items) => items,
                Err(e) => {
                    return Err(e);
                },
            };
            proof {
                Token::lemma_seq_view_index(items@);
            }
            let ghost sv = Token::seq_view(items@);
            let mut bold = false;
            let mut italic = false;
            let mut underline = false;
            let mut i: usize = 0;
            while i < items.len()
                invariant
                    i <= items@.len(),
                    sv == Token::seq_view(items@),
                    sv.len() == items@.len(),
                    forall|j: int| 0 <= j < items@.len() ==> #[trigger] sv[j] == items@[j]@,
                    bold == styles_of(sv.take(i as int)).contains(TextStyle::Bold),
                    italic == styles_of(sv.take(i as int)).contains(TextStyle::Italic),
                    underline == styles_of(sv.take(i as int)).contains(TextStyle::Underline),
                decreases items@.len() - i,
            {
                let ghost before = sv.take(i as int);
                let ghost after = sv.take(i + 1);
                assert(after =~= before.push(sv[i as int]));
                if let Token::Word(word) = &items[i] {
                    match TextStyle::from(word.clone()) {
                        Some(TextStyle::Bold) => {
                            bold = true;
                        },
                        Some(TextStyle::Italic) => {
                            italic = true;
                        },
                        Some(TextStyle::Underline) => {
                            underline = true;
                        },
                        None => {},
                    }
                }
                proof {
                    assert forall|s: TextStyle| #[trigger] styles_of(after).contains(s) == (styles_of(
                        before,
                    ).contains(s) || names_style(sv[i as int], s)) by {
                        if styles_of(after).contains(s) {
                            let k = choose|k: int|
                                0 <= k < after.len() && names_style(#[trigger] after[k], s);
                            if k < i {
                                assert(before[k] == after[k]);
                            }
                        }
                        if styles_of(before).contains(s) {
                            let k = choose|k: int|
                                0 <= k < before.len() && names_style(#[trigger] before[k], s);
                            assert(after[k] == before[k]);
                        }
                        if names_style(sv[i as int], s) {
                            assert(after[i as int] == sv[i as int]);
                        }
                    }
                }
                i = i + 1;
            }
            assert(sv.take(i as int) =~= sv);
            let mut v: Vec<TextStyle> = Vec::new();
            if bold {
                v.push(TextStyle::Bold);
            }
            if italic {
                v.push(TextStyle::Italic);
            }
            if underline {
                v.push(TextStyle::Underline);
            }
            proof {
                let set = styles_of(sv);
                assert forall|s: TextStyle| #[trigger] v@.to_set().contains(s) == set.contains(s) by {
                    match s {
                        TextStyle::Bold => {
                            if bold {
                                assert(v@[0] == TextStyle::Bold);
                            }
                        },
                        TextStyle::Italic => {
                            if italic {
                                assert(v@[if bold {
                                    1int
                                } else {
                                    0int
                                }] == TextStyle::Italic);
                            }
                        },
                        TextStyle::Underline => {
                            if underline {
                                assert(v@.last() == TextStyle::Underline);
                            }
                        },
                    }
                }
                assert(v@.to_set() =~= set);
            }
            Ok(v)
        },
        _ => Err(LogoError::from_str("setstyle expected a word or list as input")),
    }
}

/// `if`: the code to run, when the condition given is true.
pub fn if_branch(com: &str, args: &Vec<Token>) -> (r: Result<Option<String>, LogoError>)
    ensures
        match (bool_input(com@, inputs(args@), 0), list_input(com@, inputs(args@), 1)) {
            (Err(e), _) => r matches Err(x) && x.message@ == e,
            (_, Err(e)) => r matches Err(x) && x.message@ == e,
            (Ok(c), Ok(code)) => if c {
                r matches Ok(Some(s)) && s@ == code
            } else {
                r matches Ok(None)
            },
        },
{
    proof {
        Token::lemma_seq_view_index(args@);
    }
    let condition = match decode_boolean(com, args, 0) {
        Ok(b) => b,
        Err(e) => {
            return Err(e);
        },
    };
    let code = match decode_list(com, args, 1) {
        Ok(l) => l,
        Err(e) => {
            return Err(e);
        },
    };
    if condition {
        Ok(Some(code))
    } else {
        Ok(None)
    }
}

/// `ifelse`: the code to run: the first list given when the condition is
/// true, else the second.
pub fn ifelse_branch(com: &str, args: &Vec<Token>) -> (r: Result<String, LogoError>)
    ensures
        match (
            bool_input(com@, inputs(args@), 0),
            list_input(com@, inputs(args@), 1),
            list_input(com@, inputs(args@), 2),
        ) {
            (Err(e), _, _) => r matches Err(x) && x.message@ == e,
            (_, Err(e), _) => r matches Err(x) && x.message@ == e,
            (_, _, Err(e)) => r matches Err(x) && x.message@ == e,
            (Ok(c), Ok(yes), Ok(no)) => r matches Ok(s) && s@ == if c {
                yes
            } else {
                no
            },
        },
{
    proof {
        Token::lemma_seq_view_index(args@);
    }
    let condition = match decode_boolean(com, args, 0) {
        Ok(b) => b,
        Err(e) => {
            return Err(e);
        },
    };
    let yes = match decode_list(com, args, 1) {
        Ok(l) => l,
        Err(e) => {
            return Err(e);
        },
    };
    let no = match decode_list(com, args, 2) {
        Ok(l) => l,
        Err(e) => {
            return Err(e);
        },
    };
    if condition {
        Ok(yes)
    } else {
        Ok(no)
    }
}

/// The lists given at `0` and `1`, as for `carefully`: the code to try and
/// the code to run when it fails.
pub fn two_lists(com: &str, args: &Vec<Token>) -> (r: Result<(String, String), LogoError>)
    ensures
        match (list_input(com@, inputs(args@), 0), list_input(com@, inputs(args@), 1)) {
            (Err(e), _) => r matches Err(x) && x.message@ == e,
            (_, Err(e)) => r matches Err(x) && x.message@ == e,
            (Ok(a), Ok(b)) => r matches Ok((x, y)) && x@ == a && y@ == b,
        },
{
    proof {
        Token::lemma_seq_view_index(args@);
    }
    let a = match decode_list(com, args, 0) {
        Ok(l) => l,
        Err(e) => {
            return Err(e);
        },
    };
    let b = match decode_list(com, args, 1) {
        Ok(l) => l,
        Err(e) => {
            return Err(e);
        },
    };
    Ok((a, b))
}

/// The code run for a group in parentheses: `op` followed by the group,
/// so that the group gives its value.
pub fn paren_code(com: &str, args: &Vec<Token>) -> (r: Result<String, LogoError>)
    ensures
        match list_input(com@, inputs(args@), 0) {
            Ok(code) => r matches Ok(s) && s@ == "op "@ + code,
            Err(e) => r matches Err(x) && x.message@ == e,
        },
{
    proof {
        Token::lemma_seq_view_index(args@);
    }
    match decode_list(com, args, 0) {
        Ok(code) => {
            let mut s = String::from_str("op ");
            s.append(code.as_str());
            Ok(s)
        },
        Err(e) => Err(e),
    }
}

/// What `dotimes` loops over: the variable named first in its list, the
/// count (a number) second, and the code to run.
pub open spec fn dotimes_config_of(
    scopes: Seq<Map<Seq<char>, SToken>>,
    com: Seq<char>,
    a: Seq<SToken>,
) -> Result<(Seq<char>, Seq<char>, Seq<char>), Seq<char>> {
    match (list_input(com, a, 0), list_input(com, a, 1)) {
        (Err(e), _) => Err(e),
        (_, Err(e)) => Err(e),
        (Ok(config), Ok(code)) => match list_items(scopes, config, true) {
            Err(e) => Err(e),
            Ok(items) => if items.len() > 0 && items[0] is Word {
                if items.len() > 1 && items[1] is Number {
                    match (items[0], items[1]) {
                        (SToken::Word(v), SToken::Number(n)) => Ok((v, n, code)),
                        _ => Err(Seq::empty()),
                    }
                } else {
                    Err("dotimes expected number for input 1 in input 0"@)
                }
            } else {
                Err("dotimes expected word for input 0 in input 0"@)
            },
        },
    }
}

/// What `dotimes` loops over (see `dotimes_config_of`): the variable, the
/// text of the count and the code.
pub fn dotimes_config(data: &DataStore, com: &str, args: &Vec<Token>) -> (r: Result<
    (String, String, String),
    LogoError,
>)
    requires
        data.wf(),
    ensures
        match dotimes_config_of(data.scopes(), com@, inputs(args@)) {
            Ok((v, n, code)) => r matches Ok((x, y, z)) && x@ == v && y@ == n && z@ == code,
            Err(e) => r matches Err(x) && x.message@ == e,
        },
{
    let (config, code) = match two_lists(com, args) {
        Ok(p) => p,
        Err(e) => {
            return Err(e);
        },
    };
    let items = match parse_list(data, &config, true) {
        Ok(items) => items,
        Err(e) => {
            return Err(e);
        },
    };
    proof {
        Token::lemma_seq_view_index(items@);
    }
    if items.len() > 0 {
        if let Token::Word(var_name) = &items[0] {
            if items.len() > 1 {
                if let Token::Number(count) = &items[1] {
                    return Ok((var_name.clone(), count.clone(), code));
                }
            }
            return Err(LogoError::from_str("dotimes expected number for input 1 in input 0"));
        }
    }
    Err(LogoError::from_str("dotimes expected word for input 0 in input 0"))
}

/// What `dolist` loops over: the variable named first in its list, the
/// items of the list second, and the code to run.
pub open spec fn dolist_config_of(
    scopes: Seq<Map<Seq<char>, SToken>>,
    com: Seq<char>,
    a: Seq<SToken>,
) -> Result<(Seq<char>, Seq<SToken>, Seq<char>), Seq<char>> {
    match (list_input(com, a, 0), list_input(com, a, 1)) {
        (Err(e), _) => Err(e),
        (_, Err(e)) => Err(e),
        (Ok(config), Ok(code)) => match list_items(scopes, config, false) {
            Err(e) => Err(e),
            Ok(items) => if items.len() > 0 && items[0] is Word {
                if items.len() > 1 && items[1] is List {
                    match (items[0], items[1]) {
                        (SToken::Word(v), SToken::List(l)) => match list_items(scopes, l, true) {
                            Ok(values) => Ok((v, values, code)),
                            Err(e) => Err(e),
                        },
                        _ => Err(Seq::empty()),
                    }
                } else {
                    Err("dolist expected list for input 1 in input 0"@)
                }
            } else {
                Err("dolist expected word for input 0 in input 0"@)
            },
        },
    }
}

/// What `dolist` loops over (see `dolist_config_of`): the variable, the
/// values it takes in turn and the code.
pub fn dolist_config(data: &DataStore, com: &str, args: &Vec<Token>) -> (r: Result<
    (String, Vec<Token>, String),
    LogoError,
>)
    requires
        data.wf(),
    ensures
        match dolist_config_of(data.scopes(), com@, inputs(args@)) {
            Ok((v, values, code)) => r matches Ok((x, y, z)) && x@ == v && Token::seq_view(y@)
                == values && z@ == code,
            Err(e) => r matches Err(x) && x.message@ == e,
        },
{
    let (config, code) = match two_lists(com, args) {
        Ok(p) => p,
        Err(e) => {
            return Err(e);
        },
    };
    let items = match parse_list(data, &config, false) {
        Ok(items) => items,
        Err(e) => {
            return Err(e);
        },
    };
    proof {
        Token::lemma_seq_view_index(items@);
    }
    if items.len() > 0 {
        if let Token::Word(var_name) = &items[0] {
            if items.len() > 1 {
                if let Token::List(list) = &items[1] {
                    return match parse_list(data, list, true) {
                        Ok(values) => Ok((var_name.clone(), values, code)),
                        Err(e) => Err(e),
                    };
                }
            }
            return Err(LogoError::from_str("dolist expected list for input 1 in input 0"));
        }
    }
    Err(LogoError::from_str("dolist expected word for input 0 in input 0"))
}

} // verus!
