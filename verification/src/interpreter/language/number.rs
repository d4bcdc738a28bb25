//! Equality of numbers written as text: two numbers are equal when they
//! have the same value, whatever way they are written.
use vstd::prelude::*;

use crate::interpreter::language::lexer::{check_number_literal, copy_range};
use crate::interpreter::language::lexer_spec::{
    exponent_mark, is_number_literal, lower_seq, unsigned_part,
};
use crate::interpreter::language::util::to_ascii_lowercase;
use crate::text::chars_of;

verus! {

/// What decides the equality of a number: not a number at all, an infinity
/// of a sign, zero, a finite value written as its significant digits (no
/// leading or trailing zero), its sign and the position of the decimal
/// point relative to the first digit; or, for a text that is no number
/// literal or whose exponent has more than 30 digits, the text itself.
pub enum NumberKey {
    NotANumber,
    Infinite(bool),
    Zero,
    Finite(bool, Seq<char>, int),
    Text(Seq<char>),
}

/// The first position at or after `i` that holds `c`, or the length.
pub open spec fn index_from(s: Seq<char>, c: char, i: int) -> int
    decreases s.len() - i,
{
    if 0 <= i < s.len() && s[i] != c {
        index_from(s, c, i + 1)
    } else {
        i
    }
}

/// The first position at or after `i` that holds no `0`, or the length.
pub open spec fn zeros_end(d: Seq<char>, i: int) -> int
    decreases d.len() - i,
{
    if 0 <= i < d.len() && d[i] == '0' {
        zeros_end(d, i + 1)
    } else {
        i
    }
}

/// The end of `d[..j]` without its trailing `0`s.
pub open spec fn zeros_start(d: Seq<char>, j: int) -> int
    decreases j,
{
    if 0 < j <= d.len() && d[j - 1] == '0' {
        zeros_start(d, j - 1)
    } else {
        j
    }
}

/// The value of a string of decimal digits.
pub open spec fn digits_value(x: Seq<char>) -> int
    decreases x.len(),
{
    if x.len() == 0 {
        0
    } else {
        digits_value(x.drop_last()) * 10 + (x.last() as int - '0' as int)
    }
}

/// Ten to the power `n`.
pub open spec fn pow10(n: nat) -> int
    decreases n,
{
    if n == 0 {
        1
    } else {
        10 * pow10((n - 1) as nat)
    }
}

/// The exponent part of the decimal body `body`, after its `e` or `E`.
pub open spec fn exponent_text(body: Seq<char>) -> Seq<char> {
    let k = exponent_mark(body, 0);
    if k < body.len() {
        body.subrange(k + 1, body.len() as int)
    } else {
        Seq::empty()
    }
}

/// The digits of the mantissa `m`, without its decimal point.
pub open spec fn mantissa_digits(m: Seq<char>) -> Seq<char> {
    let dot = index_from(m, '.', 0);
    if dot < m.len() {
        m.subrange(0, dot) + m.subrange(dot + 1, m.len() as int)
    } else {
        m
    }
}

/// What decides the equality of the number written `s`.
pub open spec fn number_key(s: Seq<char>) -> NumberKey {
    if !is_number_literal(s) {
        NumberKey::Text(s)
    } else {
        let neg = s.len() > 0 && s[0] == '-';
        let body = unsigned_part(s);
        let low = lower_seq(body);
        if low == "nan"@ {
            NumberKey::NotANumber
        } else if low == "inf"@ || low == "infinity"@ {
            NumberKey::Infinite(neg)
        } else {
            let x = exponent_text(body);
            let xd = unsigned_part(x);
            if xd.len() > 30 {
                NumberKey::Text(s)
            } else {
                let e = if x.len() > 0 && x[0] == '-' {
                    -digits_value(xd)
                } else {
                    digits_value(xd)
                };
                let m = body.subrange(0, exponent_mark(body, 0));
                let int_len = index_from(m, '.', 0);
                let d = mantissa_digits(m);
                let a = zeros_end(d, 0);
                let b = zeros_start(d, d.len() as int);
                if a == d.len() {
                    NumberKey::Zero
                } else {
                    NumberKey::Finite(neg, d.subrange(a, b), int_len - a + e)
                }
            }
        }
    }
}

/// Whether the numbers written `x` and `y` are equal: not-a-number equals
/// nothing, zero equals zero whatever its sign, infinities of the same sign
/// are equal, and finite numbers are equal when their values are; texts
/// that are no number literal, or whose exponent has more than 30 digits,
/// are compared as texts.
pub open spec fn same_number(x: Seq<char>, y: Seq<char>) -> bool {
    let kx = number_key(x);
    let ky = number_key(y);
    !(kx is NotANumber) && !(ky is NotANumber) && kx == ky
}

/// Ten to a power of at most 30 is at most ten to the 30.
proof fn lemma_pow10_bound(n: nat)
    requires
        n <= 30,
    ensures
        1 <= pow10(n) <= pow10(30),
        pow10(30) == 1_000_000_000_000_000_000_000_000_000_000,
    decreases 30 - n,
{
    reveal_with_fuel(pow10, 31);
    if n < 30 {
        lemma_pow10_bound(n + 1);
        assert(pow10(n + 1) == 10 * pow10(n));
    }
}

/// A non-zero digit at `a` before `j` keeps it in `d[..zeros_start(d, j)]`.
proof fn lemma_zeros_start_past(d: Seq<char>, j: int, a: int)
    requires
        0 <= a < j <= d.len(),
        d[a] != '0',
    ensures
        a < zeros_start(d, j) <= j,
    decreases j,
{
    if d[j - 1] == '0' {
        lemma_zeros_start_past(d, j - 1, a);
    }
}

/// The key of a number as the executable code computes it; `Text` stands
/// for the number's own text.
pub enum NumKey {
    NotANumber,
    Infinite(bool),
    Zero,
    Finite(bool, Vec<char>, i128),
    Text,
}

/// The key that `k` stands for, for the number written `s`.
pub open spec fn key_view(k: NumKey, s: Seq<char>) -> NumberKey {
    match k {
        NumKey::NotANumber => NumberKey::NotANumber,
        NumKey::Infinite(n) => NumberKey::Infinite(n),
        NumKey::Zero => NumberKey::Zero,
        NumKey::Finite(n, d, p) => NumberKey::Finite(n, d@, p as int),
        NumKey::Text => NumberKey::Text(s),
    }
}

/// Whether `a` and `b` hold the same characters.
fn same_chars(a: &Vec<char>, b: &Vec<char>) -> (r: bool)
    ensures
        r == (a@ == b@),
{
    if a.len() != b.len() {
        return false;
    }
    let mut i: usize = 0;
    while i < a.len()
        invariant
            a@.len() == b@.len(),
            i <= a@.len(),
            forall|j: int| 0 <= j < i ==> a@[j] == b@[j],
        decreases a@.len() - i,
    {
        if a[i] != b[i] {
            return false;
        }
        i = i + 1;
    }
    assert(a@ =~= b@);
    true
}

/// `v` with ASCII letters in lower case.
fn lowered(v: &Vec<char>) -> (r: Vec<char>)
    ensures
        r@ == lower_seq(v@),
{
    let mut r: Vec<char> = Vec::new();
    let mut i: usize = 0;
    while i < v.len()
        invariant
            i <= v@.len(),
            r@ == lower_seq(v@.subrange(0, i as int)),
        decreases v@.len() - i,
    {
        r.push(to_ascii_lowercase(v[i]));
        assert(r@ =~= lower_seq(v@.subrange(0, i + 1)));
        i = i + 1;
    }
    assert(v@.subrange(0, v@.len() as int) =~= v@);
    r
}

/// The first position of `c` in `m`, or the length.
fn index_of(m: &Vec<char>, c: char) -> (r: usize)
    ensures
        r == index_from(m@, c, 0),
        r <= m@.len(),
        r < m@.len() ==> m@[r as int] == c,
{
    let mut i: usize = 0;
    while i < m.len() && m[i] != c
        invariant
            i <= m@.len(),
            index_from(m@, c, i as int) == index_from(m@, c, 0),
        decreases m@.len() - i,
    {
        i = i + 1;
    }
    i
}

/// The number of leading `0`s of `d`.
fn leading_zeros(d: &Vec<char>) -> (r: usize)
    ensures
        r == zeros_end(d@, 0),
        r <= d@.len(),
        r < d@.len() ==> d@[r as int] != '0',
{
    let mut i: usize = 0;
    while i < d.len() && d[i] == '0'
        invariant
            i <= d@.len(),
            zeros_end(d@, i as int) == zeros_end(d@, 0),
        decreases d@.len() - i,
    {
        i = i + 1;
    }
    i
}

/// The length of `d` without its trailing `0`s.
fn without_trailing_zeros(d: &Vec<char>) -> (r: usize)
    ensures
        r == zeros_start(d@, d@.len() as int),
        r <= d@.len(),
{
    let mut j: usize = d.len();
    while j > 0 && d[j - 1] == '0'
        invariant
            j <= d@.len(),
            zeros_start(d@, j as int) == zeros_start(d@, d@.len() as int),
        decreases j,
    {
        j = j - 1;
    }
    j
}

/// The value of a string of at most 30 decimal digits.
fn parse_digits(x: &Vec<char>) -> (v: i128)
    requires
        x@.len() <= 30,
        forall|i: int| 0 <= i < x@.len() ==> '0' <= #[trigger] x@[i] <= '9',
    ensures
        v == digits_value(x@),
        0 <= v < 1_000_000_000_000_000_000_000_000_000_000,
{
    let mut v: i128 = 0;
    let mut i: usize = 0;
    proof {
        lemma_pow10_bound(0);
    }
    while i < x.len()
        invariant
            i <= x@.len() <= 30,
            forall|k: int| 0 <= k < x@.len() ==> '0' <= #[trigger] x@[k] <= '9',
            v == digits_value(x@.subrange(0, i as int)),
            0 <= v < pow10(i as nat),
            pow10(30) == 1_000_000_000_000_000_000_000_000_000_000,
        decreases x@.len() - i,
    {
        proof {
            lemma_pow10_bound((i + 1) as nat);
            assert(pow10((i + 1) as nat) == 10 * pow10(i as nat));
            assert(x@.subrange(0, i + 1).drop_last() =~= x@.subrange(0, i as int));
            assert(x@.subrange(0, i + 1).last() == x@[i as int]);
        }
        let c = x[i];
        let digit = (c as u32 - '0' as u32) as i128;
        v = v * 10 + digit;
        i = i + 1;
    }
    proof {
        lemma_pow10_bound(i as nat);
        assert(x@.subrange(0, x@.len() as int) =~= x@);
    }
    v
}

/// The characters of `a` followed by those of `b`.
fn joined(a: Vec<char>, b: &Vec<char>) -> (r: Vec<char>)
    ensures
        r@ == a@ + b@,
{
    let mut r = a;
    let ghost start = r@;
    let mut i: usize = 0;
    while i < b.len()
        invariant
            i <= b@.len(),
            r@ == start + b@.subrange(0, i as int),
        decreases b@.len() - i,
    {
        r.push(b[i]);
        assert(r@ =~= start + b@.subrange(0, i + 1));
        i = i + 1;
    }
    assert(b@.subrange(0, b@.len() as int) =~= b@);
    r
}

/// What decides the equality of the number written `s` (see `number_key`).
fn number_key_of(s: &Vec<char>) -> (k: NumKey)
    ensures
        key_view(k, s@) == number_key(s@),
{
    if !check_number_literal(s) {
        return NumKey::Text;
    }
    let neg = s.len() > 0 && s[0] == '-';
    let start: usize = if s.len() > 0 && (s[0] == '+' || s[0] == '-') {
        1
    } else {
        0
    };
    let body = copy_range(s, start, s.len());
    assert(body@ =~= unsigned_part(s@));
    let low = lowered(&body);
    if same_chars(&low, &chars_of("nan")) {
        return NumKey::NotANumber;
    }
    if same_chars(&low, &chars_of("inf")) || same_chars(&low, &chars_of("infinity")) {
        return NumKey::Infinite(neg);
    }
    let mut k: usize = 0;
    while k < body.len() && body[k] != 'e' && body[k] != 'E'
        invariant
            k <= body@.len(),
            exponent_mark(body@, k as int) == exponent_mark(body@, 0),
        decreases body@.len() - k,
    {
        k = k + 1;
    }
    let x = if k < body.len() {
        copy_range(&body, k + 1, body.len())
    } else {
        Vec::new()
    };
    assert(x@ =~= exponent_text(body@));
    let xstart: usize = if x.len() > 0 && (x[0] == '+' || x[0] == '-') {
        1
    } else {
        0
    };
    let xd = copy_range(&x, xstart, x.len());
    assert(xd@ =~= unsigned_part(x@));
    if xd.len() > 30 {
        return NumKey::Text;
    }
    let ev = parse_digits(&xd);
    let e: i128 = if x.len() > 0 && x[0] == '-' {
        -ev
    } else {
        ev
    };
    let m = copy_range(&body, 0, k);
    let dot = index_of(&m, '.');
    let d = if dot < m.len() {
        joined(copy_range(&m, 0, dot), &copy_range(&m, dot + 1, m.len()))
    } else {
        m
    };
    assert(d@ == mantissa_digits(body@.subrange(0, exponent_mark(body@, 0))));
    let a = leading_zeros(&d);
    let b = without_trailing_zeros(&d);
    if a == d.len() {
        return NumKey::Zero;
    }
    proof {
        lemma_zeros_start_past(d@, d@.len() as int, a as int);
    }
    let digits = copy_range(&d, a, b);
    NumKey::Finite(neg, digits, dot as i128 - a as i128 + e)
}

/// Whether the numbers written `x` and `y` are equal (see `same_number`).
pub fn numbers_equal(x: &String, y: &String) -> (b: bool)
    ensures
        b == same_number(x@, y@),
{
    let kx = number_key_of(&chars_of(x.as_str()));
    let ky = number_key_of(&chars_of(y.as_str()));
    match (kx, ky) {
        (NumKey::Infinite(a), NumKey::Infinite(b)) => a == b,
        (NumKey::Zero, NumKey::Zero) => true,
        (NumKey::Finite(n1, d1, p1), NumKey::Finite(n2, d2, p2)) => {
            n1 == n2 && p1 == p2 && same_chars(&d1, &d2)
        },
        (NumKey::Text, NumKey::Text) => *x == *y,
        _ => false,
    }
}

} // verus!

