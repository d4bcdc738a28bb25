//! Character-level helpers for strings.
use vstd::prelude::*;

verus! {

/// Whether `c` has the Unicode `White_Space` property, as
/// `char::is_whitespace` reports it: the controls U+0009 to U+000D, the
/// space, U+0085, U+00A0, U+1680, U+2000 to U+200A, U+2028, U+2029, U+202F,
/// U+205F and U+3000.
pub open spec fn char_is_whitespace(c: char) -> bool {
    ||| '\u{9}' <= c <= '\u{d}'
    ||| c == ' '
    ||| c == '\u{85}'
    ||| c == '\u{a0}'
    ||| c == '\u{1680}'
    ||| '\u{2000}' <= c <= '\u{200a}'
    ||| c == '\u{2028}'
    ||| c == '\u{2029}'
    ||| c == '\u{202f}'
    ||| c == '\u{205f}'
    ||| c == '\u{3000}'
}

/// Whether `c` is one of the ASCII digits `0` to `9`.
pub open spec fn ascii_digit(c: char) -> bool {
    '0' <= c <= '9'
}

/// Whether `c` is one of the ASCII letters.
pub open spec fn ascii_letter(c: char) -> bool {
    ('a' <= c <= 'z') || ('A' <= c <= 'Z')
}

/// Whether a character beyond ASCII is alphabetic or numeric, as
/// `char::is_alphanumeric` reports it.
pub uninterp spec fn char_is_alphanumeric(c: char) -> bool;

/// Whether a character beyond ASCII is numeric, as `char::is_numeric`
/// reports it.
pub uninterp spec fn char_is_numeric(c: char) -> bool;

/// Whether `c` is alphabetic or numeric: among ASCII characters the letters
/// and digits, beyond ASCII as the Unicode tables say.
pub open spec fn alphanumeric(c: char) -> bool {
    if c <= '\u{7f}' {
        ascii_digit(c) || ascii_letter(c)
    } else {
        char_is_alphanumeric(c)
    }
}

/// Whether `c` is numeric: among ASCII characters the digits, beyond ASCII
/// as the Unicode tables say.
pub open spec fn numeric(c: char) -> bool {
    if c <= '\u{7f}' {
        ascii_digit(c)
    } else {
        char_is_numeric(c)
    }
}

/// `char::is_numeric`: whether `c` is in a numeric general category of
/// Unicode (`Nd`, `Nl` or `No`). The result is the named property of `c`;
/// among ASCII characters exactly the digits have it, and which other
/// characters have it is left to the Unicode tables that std follows.
#[verifier::external_body]
pub(crate) fn is_numeric(c: char) -> (b: bool)
    ensures
        c <= '\u{7f}' ==> (b <==> ascii_digit(c)),
        c > '\u{7f}' ==> b == char_is_numeric(c),
{
    c.is_numeric()
}

/// Whether `c` has the Unicode `White_Space` property, as
/// `char::is_whitespace` decides it.
pub fn is_whitespace(c: char) -> (b: bool)
    ensures
        b == char_is_whitespace(c),
{
    ('\u{9}' <= c && c <= '\u{d}') || c == ' ' || c == '\u{85}' || c == '\u{a0}'
        || c == '\u{1680}' || ('\u{2000}' <= c && c <= '\u{200a}') || c == '\u{2028}'
        || c == '\u{2029}' || c == '\u{202f}' || c == '\u{205f}' || c == '\u{3000}'
}

/// `char::is_alphanumeric`: whether `c` is alphabetic or numeric. The result
/// is the named property of `c`; among ASCII characters exactly the letters
/// and digits have it, and which other characters have it is left to the
/// Unicode tables that std follows.
#[verifier::external_body]
pub(crate) fn is_alphanumeric(c: char) -> (b: bool)
    ensures
        c <= '\u{7f}' ==> (b <==> ascii_digit(c) || ascii_letter(c)),
        c > '\u{7f}' ==> b == char_is_alphanumeric(c),
{
    c.is_alphanumeric()
}

/// `String::push`: appends `c` to the end of `s`.
#[verifier::external_body]
pub(crate) fn push_char(s: &mut String, c: char)
    ensures
        final(s)@ == old(s)@.push(c),
{
    s.push(c);
}

/// Collects the characters of `s` into a vector.
pub fn chars_of(s: &str) -> (v: Vec<char>)
    ensures
        v@ == s@,
{
    let mut v: Vec<char> = Vec::new();
    for c in it: s.chars()
        invariant
            v@ == it.seq().take(it.index()),
            it.seq() == s@,
    {
        v.push(c);
    }
    v
}

/// The string made of the characters `v[from..to]`.
pub fn string_from_range(v: &Vec<char>, from: usize, to: usize) -> (s: String)
    requires
        from <= to <= v@.len(),
    ensures
        s@ == v@.subrange(from as int, to as int),
{
    let mut s = String::new();
    let mut i = from;
    while i < to
        invariant
            from <= i <= to <= v@.len(),
            s@ == v@.subrange(from as int, i as int),
        decreases to - i,
    {
        push_char(&mut s, v[i]);
        assert(s@ =~= v@.subrange(from as int, i + 1));
        i = i + 1;
    }
    s
}

/// The string made of the characters of `v`.
pub fn string_from_chars(v: &Vec<char>) -> (s: String)
    ensures
        s@ == v@,
{
    let s = string_from_range(v, 0, v.len());
    assert(v@.subrange(0, v@.len() as int) =~= v@);
    s
}

/// The index of the first character at or after `i` that is not
/// whitespace, or the length of `s`.
pub open spec fn skip_whitespace_from(s: Seq<char>, i: int) -> int
    decreases s.len() - i,
{
    if 0 <= i < s.len() && char_is_whitespace(s[i]) {
        skip_whitespace_from(s, i + 1)
    } else {
        i
    }
}

/// The end of `s[..j]` once trailing whitespace after index `lo` is removed.
pub open spec fn trim_end_from(s: Seq<char>, lo: int, j: int) -> int
    decreases j - lo,
{
    if lo < j && char_is_whitespace(s[j - 1]) {
        trim_end_from(s, lo, j - 1)
    } else {
        j
    }
}

/// `s` without leading and trailing whitespace, as `str::trim` gives it.
pub open spec fn trimmed(s: Seq<char>) -> Seq<char> {
    let a = skip_whitespace_from(s, 0);
    s.subrange(a, trim_end_from(s, a, s.len() as int))
}

proof fn lemma_skip_whitespace_bounds(s: Seq<char>, i: int)
    requires
        0 <= i <= s.len(),
    ensures
        i <= skip_whitespace_from(s, i) <= s.len(),
    decreases s.len() - i,
{
    if i < s.len() && char_is_whitespace(s[i]) {
        lemma_skip_whitespace_bounds(s, i + 1);
    }
}

proof fn lemma_trim_end_bounds(s: Seq<char>, lo: int, j: int)
    requires
        lo <= j,
    ensures
        lo <= trim_end_from(s, lo, j) <= j,
    decreases j - lo,
{
    if lo < j && char_is_whitespace(s[j - 1]) {
        lemma_trim_end_bounds(s, lo, j - 1);
    }
}

/// `s` without leading and trailing whitespace (`str::trim`).
pub fn trim(s: &String) -> (r: String)
    ensures
        r@ == trimmed(s@),
{
    let v = chars_of(s.as_str());
    let n = v.len();
    let mut a: usize = 0;
    while a < n && is_whitespace(v[a])
        invariant
            a <= n == v@.len(),
            v@ == s@,
            skip_whitespace_from(v@, a as int) == skip_whitespace_from(v@, 0),
        decreases n - a,
    {
        a = a + 1;
    }
    let mut b: usize = n;
    while a < b && is_whitespace(v[b - 1])
        invariant
            a <= b <= n == v@.len(),
            v@ == s@,
            a == skip_whitespace_from(v@, 0),
            trim_end_from(v@, a as int, b as int) == trim_end_from(v@, a as int, n as int),
        decreases b - a,
    {
        b = b - 1;
    }
    string_from_range(&v, a, b)
}

/// Whether `c` occurs in `s`.
pub fn contains_char(s: &String, c: char) -> (b: bool)
    ensures
        b == s@.contains(c),
{
    let v = chars_of(s.as_str());
    let mut i: usize = 0;
    while i < v.len()
        invariant
            i <= v@.len(),
            v@ == s@,
            forall|j: int| 0 <= j < i ==> v@[j] != c,
        decreases v@.len() - i,
    {
        if v[i] == c {
            assert(s@[i as int] == c);
            return true;
        }
        i = i + 1;
    }
    false
}

} // verus!
