//! Tokens read from Logo code.
use vstd::prelude::*;

use crate::interpreter::language::command::{Command, SCommand};
use crate::interpreter::language::number::{numbers_equal, same_number};
use crate::text::{contains_char, trim, trimmed};
use vstd::std_specs::cmp::PartialEqSpecImpl;

verus! {

/// A token of Logo code. Numbers are kept as the text of the number.
#[derive(Debug)]
pub enum Token {
    Command(Command, Vec<Token>),
    Word(String),
    Number(String),
    Boolean(bool),
    List(String),
    Variable(String),
    Procedure(String, Vec<String>, String),
    Undefined(String),
    Void,
}

/// The mathematical value of a token.
pub enum SToken {
    Command(SCommand, Seq<SToken>),
    Word(Seq<char>),
    Number(Seq<char>),
    Boolean(bool),
    List(Seq<char>),
    Variable(Seq<char>),
    Procedure(Seq<char>, Seq<Seq<char>>, Seq<char>),
    Undefined(Seq<char>),
    Void,
}

/// The values of a sequence of strings.
pub open spec fn strings_view(s: Seq<String>) -> Seq<Seq<char>> {
    s.map_values(|x: String| x@)
}

impl Token {
    /// The mathematical value of the token.
    pub open spec fn sv(self) -> SToken
        decreases self,
    {
        match self {
            Token::Command(c, args) => SToken::Command(c@, Token::seq_view(args@)),
            Token::Word(w) => SToken::Word(w@),
            Token::Number(n) => SToken::Number(n@),
            Token::Boolean(b) => SToken::Boolean(b),
            Token::List(l) => SToken::List(l@),
            Token::Variable(v) => SToken::Variable(v@),
            Token::Procedure(n, ps, code) => SToken::Procedure(n@, strings_view(ps@), code@),
            Token::Undefined(u) => SToken::Undefined(u@),
            Token::Void => SToken::Void,
        }
    }

    /// The values of a sequence of tokens.
    pub open spec fn seq_view(s: Seq<Token>) -> Seq<SToken>
        decreases s,
    {
        if s.len() == 0 {
            Seq::empty()
        } else {
            Token::seq_view(s.drop_last()).push(s.last().sv())
        }
    }
}

/// Whether two tokens count as equal: commands by name and inputs,
/// procedures by name and parameters, numbers by value (see
/// `same_number`), words, lists, variables and undefined words by their
/// text, and booleans by value. No other pair of
/// tokens is equal; in particular the void token equals nothing.
pub open spec fn same_token(a: SToken, b: SToken) -> bool
    decreases a,
{
    match (a, b) {
        (SToken::Command(c1, args1), SToken::Command(c2, args2)) => c1.name == c2.name
            && same_tokens(args1, args2),
        (SToken::Word(x), SToken::Word(y)) => x == y,
        (SToken::Number(x), SToken::Number(y)) => same_number(x, y),
        (SToken::Boolean(x), SToken::Boolean(y)) => x == y,
        (SToken::List(x), SToken::List(y)) => x == y,
        (SToken::Variable(x), SToken::Variable(y)) => x == y,
        (SToken::Procedure(n1, p1, _), SToken::Procedure(n2, p2, _)) => n1 == n2 && p1 == p2,
        (SToken::Undefined(x), SToken::Undefined(y)) => x == y,
        _ => false,
    }
}

/// Whether two sequences of tokens have the same length and pairwise equal
/// tokens.
pub open spec fn same_tokens(a: Seq<SToken>, b: Seq<SToken>) -> bool
    decreases a,
{
    if a.len() != b.len() {
        false
    } else if a.len() == 0 {
        true
    } else {
        same_tokens(a.drop_last(), b.drop_last()) && same_token(a.last(), b.last())
    }
}

/// The text of a boolean.
pub open spec fn bool_text(b: bool) -> Seq<char> {
    if b {
        "true"@
    } else {
        "false"@
    }
}

impl SToken {
    /// The text a token is shown as: commands by name, lists in brackets,
    /// variables with a leading colon; procedures and the void token are
    /// shown as nothing.
    pub open spec fn text(self) -> Seq<char> {
        match self {
            SToken::Command(c, _) => c.name,
            SToken::Word(w) => w,
            SToken::Number(n) => n,
            SToken::Boolean(b) => bool_text(b),
            SToken::List(l) => "["@ + l + "]"@,
            SToken::Variable(v) => ":"@ + v,
            SToken::Undefined(u) => u,
            _ => Seq::empty(),
        }
    }

    /// The text of the token as an item of a list: words holding a space
    /// are enclosed in bars, lists in brackets; tokens that cannot be list
    /// items give `None`.
    pub open spec fn list_item_text(self) -> Option<Seq<char>> {
        match self {
            SToken::Word(w) => Some(
                if w.contains(' ') {
                    "|"@ + w + "|"@
                } else {
                    w
                },
            ),
            SToken::Number(n) => Some(n),
            SToken::List(l) => Some("["@ + l + "]"@),
            SToken::Boolean(b) => Some(bool_text(b)),
            _ => None,
        }
    }
}

/// The list items of `s`, each followed by a space.
pub open spec fn spaced_items(s: Seq<SToken>) -> Seq<char>
    decreases s.len(),
{
    if s.len() == 0 {
        Seq::empty()
    } else {
        spaced_items(s.drop_last()) + match s.last().list_item_text() {
            Some(t) => t + " "@,
            None => Seq::empty(),
        }
    }
}

/// The text of a list made of the tokens `s`: the items separated by
/// spaces, without leading or trailing whitespace.
pub open spec fn list_text(s: Seq<SToken>) -> Seq<char> {
    trimmed(spaced_items(s))
}

/// The text of a boolean (`bool::to_string`).
pub fn bool_to_string(b: bool) -> (s: String)
    ensures
        s@ == bool_text(b),
{
    if b {
        String::from_str("true")
    } else {
        String::from_str("false")
    }
}

impl Token {
    /// A copy of the token.
    pub fn duplicate(&self) -> (r: Token)
        ensures
            r@ == self@,
        decreases self,
    {
        match self {
            Token::Command(c, args) => {
                let mut copied: Vec<Token> = Vec::new();
                let mut i: usize = 0;
                while i < args.len()
                    invariant
                        *self == Token::Command(*c, *args),
                        i <= args@.len(),
                        Token::seq_view(copied@) == Token::seq_view(args@.subrange(0, i as int)),
                    decreases args@.len() - i,
                {
                    proof {
                        assert((*self)->Command_1 == *args);
                        assert(decreases_to!(*self => (*self)->Command_1));
                        assert(decreases_to!(*args => args@));
                        assert(decreases_to!(args@ => args@[i as int]));
                    }
                    let t = args[i].duplicate();
                    proof {
                        let a = args@.subrange(0, i + 1);
                        assert(a.drop_last() =~= args@.subrange(0, i as int));
                        Token::lemma_seq_view_push(copied@, t);
                        Token::lemma_seq_view_push(args@.subrange(0, i as int), args@[i as int]);
                        assert(a =~= args@.subrange(0, i as int).push(args@[i as int]));
                    }
                    copied.push(t);
                    i = i + 1;
                }
                assert(args@.subrange(0, args@.len() as int) =~= args@);
                Token::Command(c.duplicate(), copied)
            },
            Token::Word(w) => Token::Word(w.clone()),
            Token::Number(n) => Token::Number(n.clone()),
            Token::Boolean(b) => Token::Boolean(*b),
            Token::List(l) => Token::List(l.clone()),
            Token::Variable(v) => Token::Variable(v.clone()),
            Token::Procedure(n, ps, code) => {
                let mut copied: Vec<String> = Vec::new();
                let mut i: usize = 0;
                while i < ps.len()
                    invariant
                        i <= ps@.len(),
                        copied@.len() == i,
                        forall|j: int| 0 <= j < i ==> copied@[j]@ == ps@[j]@,
                    decreases ps@.len() - i,
                {
                    copied.push(ps[i].clone());
                    i = i + 1;
                }
                assert(strings_view(copied@) =~= strings_view(ps@));
                Token::Procedure(n.clone(), copied, code.clone())
            },
            Token::Undefined(u) => Token::Undefined(u.clone()),
            Token::Void => Token::Void,
        }
    }

    /// The text the token is shown as (see `SToken::text`).
    pub fn to_string(&self) -> (s: String)
        ensures
            s@ == self@.text(),
    {
        match self {
            Token::Command(c, _) => c.name.clone(),
            Token::Word(w) => w.clone(),
            Token::Number(n) => n.clone(),
            Token::Boolean(b) => bool_to_string(*b),
            Token::List(l) => {
                let mut s = String::from_str("[");
                s.append(l.as_str());
                s.append("]");
                s
            },
            Token::Variable(v) => {
                let mut s = String::from_str(":");
                s.append(v.as_str());
                s
            },
            Token::Undefined(u) => u.clone(),
            _ => String::new(),
        }
    }

    /// Appends the token as a list item followed by a space; tokens that
    /// cannot be list items are skipped.
    fn append_list_item(&self, list: &mut String)
        ensures
            final(list)@ == old(list)@ + match self@.list_item_text() {
                Some(t) => t + " "@,
                None => Seq::<char>::empty(),
            },
    {
        match self {
            Token::Word(word) => {
                if contains_char(word, ' ') {
                    list.append("|");
                    list.append(word.as_str());
                    list.append("|");
                } else {
                    list.append(word.as_str());
                }
            },
            Token::Number(number) => list.append(number.as_str()),
            Token::List(other) => {
                list.append("[");
                list.append(other.as_str());
                list.append("]");
            },
            Token::Boolean(b) => {
                let t = bool_to_string(*b);
                list.append(t.as_str());
            },
            _ => {
                assert(list@ =~= old(list)@ + Seq::<char>::empty());
                return ;
            },
        }
        list.append(" ");
        proof {
            reveal_strlit(" ");
        }
    }
}

impl Token {
    /// Whether the two tokens count as equal (see `same_token`).
    pub fn same_as(&self, other: &Token) -> (b: bool)
        ensures
            b == same_token(self@, other@),
        decreases self,
    {
        match (self, other) {
            (Token::Command(c1, args1), Token::Command(c2, args2)) => {
                if !(c1.name == c2.name) {
                    return false;
                }
                if args1.len() != args2.len() {
                    proof {
                        Token::lemma_seq_view_index(args1@);
                        Token::lemma_seq_view_index(args2@);
                    }
                    return false;
                }
                let n = args1.len();
                let mut i: usize = 0;
                while i < n
                    invariant
                        *self == Token::Command(*c1, *args1),
                        *other == Token::Command(*c2, *args2),
                        c1.name@ == c2.name@,
                        n == args1@.len() == args2@.len(),
                        i <= n,
                        same_tokens(
                            Token::seq_view(args1@.subrange(0, i as int)),
                            Token::seq_view(args2@.subrange(0, i as int)),
                        ),
                    decreases n - i,
                {
                    proof {
                        assert((*self)->Command_1 == *args1);
                        assert(decreases_to!(*self => (*self)->Command_1));
                        assert(decreases_to!(*args1 => args1@));
                        assert(decreases_to!(args1@ => args1@[i as int]));
                    }
                    let eq = args1[i].same_as(&args2[i]);
                    proof {
                        let a1 = args1@.subrange(0, i as int);
                        let a2 = args2@.subrange(0, i as int);
                        assert(args1@.subrange(0, i + 1) =~= a1.push(args1@[i as int]));
                        assert(args2@.subrange(0, i + 1) =~= a2.push(args2@[i as int]));
                        Token::lemma_seq_view_push(a1, args1@[i as int]);
                        Token::lemma_seq_view_push(a2, args2@[i as int]);
                        Token::lemma_seq_view_index(a1);
                        Token::lemma_seq_view_index(a2);
                        let s1 = Token::seq_view(a1).push(args1@[i as int]@);
                        let s2 = Token::seq_view(a2).push(args2@[i as int]@);
                        assert(s1.drop_last() =~= Token::seq_view(a1));
                        assert(s2.drop_last() =~= Token::seq_view(a2));
                    }
                    if !eq {
                        proof {
                            let v1 = Token::seq_view(args1@);
                            let v2 = Token::seq_view(args2@);
                            Token::lemma_seq_view_index(args1@);
                            Token::lemma_seq_view_index(args2@);
                            if same_tokens(v1, v2) {
                                Token::lemma_same_tokens_prefix(v1, v2, i as int + 1);
                                Token::lemma_seq_view_prefix(args1@, i as int + 1);
                                Token::lemma_seq_view_prefix(args2@, i as int + 1);
                            }
                        }
                        return false;
                    }
                    i = i + 1;
                }
                assert(args1@.subrange(0, n as int) =~= args1@);
                assert(args2@.subrange(0, n as int) =~= args2@);
                true
            },
            (Token::Word(x), Token::Word(y)) => *x == *y,
            (Token::Number(x), Token::Number(y)) => numbers_equal(x, y),
            (Token::Boolean(x), Token::Boolean(y)) => *x == *y,
            (Token::List(x), Token::List(y)) => *x == *y,
            (Token::Variable(x), Token::Variable(y)) => *x == *y,
            (Token::Procedure(n1, p1, code1), Token::Procedure(n2, p2, code2)) => {
                if !(*n1 == *n2) || p1.len() != p2.len() {
                    assert(strings_view(p1@).len() == p1@.len());
                    assert(strings_view(p2@).len() == p2@.len());
                    return false;
                }
                let mut i: usize = 0;
                while i < p1.len()
                    invariant
                        *self == Token::Procedure(*n1, *p1, *code1),
                        *other == Token::Procedure(*n2, *p2, *code2),
                        n1@ == n2@,
                        p1@.len() == p2@.len(),
                        i <= p1@.len(),
                        forall|j: int| 0 <= j < i ==> p1@[j]@ == p2@[j]@,
                    decreases p1@.len() - i,
                {
                    if !(p1[i] == p2[i]) {
                        assert(strings_view(p1@)[i as int] != strings_view(p2@)[i as int]);
                        return false;
                    }
                    i = i + 1;
                }
                assert(strings_view(p1@) =~= strings_view(p2@));
                true
            },
            (Token::Undefined(x), Token::Undefined(y)) => *x == *y,
            _ => false,
        }
    }

    /// The values of a prefix are the prefix of the values.
    pub proof fn lemma_seq_view_prefix(s: Seq<Token>, k: int)
        requires
            0 <= k <= s.len(),
        ensures
            Token::seq_view(s.subrange(0, k)) == Token::seq_view(s).subrange(0, k),
    {
        Token::lemma_seq_view_index(s);
        Token::lemma_seq_view_index(s.subrange(0, k));
        assert(Token::seq_view(s.subrange(0, k)) =~= Token::seq_view(s).subrange(0, k));
    }

    /// Equal sequences have equal prefixes.
    pub proof fn lemma_same_tokens_prefix(a: Seq<SToken>, b: Seq<SToken>, k: int)
        requires
            same_tokens(a, b),
            0 <= k <= a.len(),
        ensures
            same_tokens(a.subrange(0, k), b.subrange(0, k)),
        decreases a.len(),
    {
        if k < a.len() {
            assert(a.drop_last() =~= a.subrange(0, a.len() - 1));
            assert(b.drop_last() =~= b.subrange(0, b.len() - 1));
            Token::lemma_same_tokens_prefix(a.drop_last(), b.drop_last(), k);
            assert(a.drop_last().subrange(0, k) =~= a.subrange(0, k));
            assert(b.drop_last().subrange(0, k) =~= b.subrange(0, k));
        } else {
            assert(a.subrange(0, k) =~= a);
            assert(b.subrange(0, k) =~= b);
        }
    }
}

impl PartialEq for Token {
    fn eq(&self, other: &Token) -> (b: bool) {
        self.same_as(other)
    }
}

impl PartialEqSpecImpl for Token {
    open spec fn obeys_eq_spec() -> bool {
        true
    }

    open spec fn eq_spec(&self, other: &Token) -> bool {
        same_token(self@, other@)
    }
}

/// Joining tokens into the text of a list.
pub trait TokenVec {
    fn join_to_list_string(&self) -> String;
}

impl TokenVec for Vec<Token> {
    /// The text of a list made of these tokens (see `list_text`).
    fn join_to_list_string(&self) -> (s: String)
        ensures
            s@ == list_text(Token::seq_view(self@)),
    {
        list_string(self)
    }
}

/// The text of a list made of `tokens`: each token that can be a list item,
/// separated by spaces, with leading and trailing whitespace removed.
pub(crate) fn list_string(tokens: &Vec<Token>) -> (s: String)
    ensures
        s@ == list_text(Token::seq_view(tokens@)),
{
    let mut list = String::new();
    let mut i: usize = 0;
    while i < tokens.len()
        invariant
            i <= tokens@.len(),
            list@ == spaced_items(Token::seq_view(tokens@.subrange(0, i as int))),
        decreases tokens@.len() - i,
    {
        tokens[i].append_list_item(&mut list);
        proof {
            let a = tokens@.subrange(0, i + 1);
            assert(a =~= tokens@.subrange(0, i as int).push(tokens@[i as int]));
            Token::lemma_seq_view_push(tokens@.subrange(0, i as int), tokens@[i as int]);
            let sv = Token::seq_view(a);
            assert(sv.drop_last() =~= Token::seq_view(tokens@.subrange(0, i as int)));
        }
        i = i + 1;
    }
    assert(tokens@.subrange(0, tokens@.len() as int) =~= tokens@);
    trim(&list)
}

impl Token {
    /// Viewing a sequence with one more token gives one more value.
    pub proof fn lemma_seq_view_push(s: Seq<Token>, t: Token)
        ensures
            Token::seq_view(s.push(t)) == Token::seq_view(s).push(t@),
    {
        assert(s.push(t).drop_last() =~= s);
    }

    /// The values of a sequence of tokens, one for each token.
    pub proof fn lemma_seq_view_index(s: Seq<Token>)
        ensures
            Token::seq_view(s).len() == s.len(),
            forall|i: int| 0 <= i < s.len() ==> #[trigger] Token::seq_view(s)[i] == s[i]@,
        decreases s.len(),
    {
        if s.len() > 0 {
            Token::lemma_seq_view_index(s.drop_last());
        }
    }
}

impl View for Token {
    type V = SToken;

    open spec fn view(&self) -> SToken {
        self.sv()
    }
}

} // verus!
