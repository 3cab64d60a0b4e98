//! Character-level helpers shared by the path and name handling code.
use vstd::prelude::*;
use vstd::string::*;

verus! {

/// The characters of `s`, in order.
pub fn chars_of(s: &str) -> (v: Vec<char>)
    ensures
        v@ == s@,
{
    let n = s.unicode_len();
    let mut v: Vec<char> = Vec::new();
    let mut i: usize = 0;
    while i < n
        invariant
            n == s@.len(),
            i <= n,
            v@ == s@.subrange(0, i as int),
        decreases n - i,
    {
        let c = s.get_char(i);
        v.push(c);
        i = i + 1;
        assert(v@ =~= s@.subrange(0, i as int));
    }
    assert(v@ =~= s@);
    v
}

/// Whether two character sequences are equal.
pub fn chars_equal(a: &[char], b: &[char]) -> (r: bool)
    ensures
        r == (a@ == b@),
{
    if a.len() != b.len() {
        return false;
    }
    let mut i: usize = 0;
    while i < a.len()
        invariant
            a@.len() == b@.len(),
            i <= a@.len(),
            forall|j: int| 0 <= j < i ==> a@[j] == b@[j],
        decreases a@.len() - i,
    {
        if a[i] != b[i] {
            return false;
        }
        i = i + 1;
    }
    assert(a@ =~= b@);
    true
}

/// Whether the characters `a` spell exactly the string `b`.
pub fn chars_equal_str(a: &[char], b: &str) -> (r: bool)
    ensures
        r == (a@ == b@),
{
    let bv = chars_of(b);
    chars_equal(a, bv.as_slice())
}

/// Whether two strings hold the same characters.
pub fn str_equal(a: &str, b: &str) -> (r: bool)
    ensures
        r == (a@ == b@),
{
    let av = chars_of(a);
    chars_equal_str(av.as_slice(), b)
}

/// Whether two byte strings are equal.
pub fn bytes_equal(a: &[u8], b: &[u8]) -> (r: bool)
    ensures
        r == (a@ == b@),
{
    if a.len() != b.len() {
        return false;
    }
    let mut i: usize = 0;
    while i < a.len()
        invariant
            a@.len() == b@.len(),
            i <= a@.len(),
            forall|j: int| 0 <= j < i ==> a@[j] == b@[j],
        decreases a@.len() - i,
    {
        if a[i] != b[i] {
            return false;
        }
        i = i + 1;
    }
    assert(a@ =~= b@);
    true
}

/// Appends one character to a string.
#[verifier::external_body]
pub(crate) fn push_char(s: &mut String, c: char)
    ensures
        final(s)@ == old(s)@.push(c),
{
    s.push(c);
}

/// A string holding the characters `v`.
pub fn string_from_chars(v: &[char]) -> (s: String)
    ensures
        s@ == v@,
{
    let mut s = String::new();
    let mut i: usize = 0;
    while i < v.len()
        invariant
            i <= v@.len(),
            s@ == v@.subrange(0, i as int),
        decreases v@.len() - i,
    {
        push_char(&mut s, v[i]);
        i = i + 1;
        assert(s@ =~= v@.subrange(0, i as int));
    }
    assert(s@ =~= v@);
    s
}

/// The UTF-8 encoding of `v` followed by a terminating NUL byte, as a C
/// string holds it.
pub open spec fn utf8_with_nul(v: Seq<char>) -> Seq<u8> {
    vstd::utf8::encode_utf8(v).push(0u8)
}

/// The bytes of `s` with a terminating NUL.
pub fn bytes_with_nul(s: &str) -> (b: Vec<u8>)
    ensures
        b@ == utf8_with_nul(s@),
{
    let mut b = s.as_bytes_vec();
    b.push(0u8);
    b
}

/// The value of a decimal numeral.
pub open spec fn decimal_value(d: Seq<char>) -> nat
    decreases d.len(),
{
    if d.len() == 0 {
        0
    } else {
        decimal_value(d.drop_last()) * 10 + ((d.last() as u32) - ('0' as u32)) as nat
    }
}

pub open spec fn is_digit(c: char) -> bool {
    '0' <= c && c <= '9'
}

/// Whether every character is a decimal digit.
pub open spec fn all_digits(d: Seq<char>) -> bool {
    forall|i: int| 0 <= i < d.len() ==> is_digit(#[trigger] d[i])
}

/// A numeral without its leading `+`, if it has one.
pub open spec fn digits_part(s: Seq<char>) -> Seq<char> {
    if s.len() > 1 && s[0] == '+' {
        s.drop_first()
    } else {
        s
    }
}

/// The unsigned number a string spells as `from_str` of an unsigned type
/// whose largest value is `max` reads it: decimal digits, optionally after
/// a `+`, of a value that fits.
pub open spec fn spec_parse_decimal(s: Seq<char>, max: nat) -> Option<nat> {
    let d = digits_part(s);
    if d.len() == 0 || !all_digits(d) {
        None
    } else if decimal_value(d) > max {
        None
    } else {
        Some(decimal_value(d))
    }
}

/// Reads an unsigned decimal number of at most `max`.
pub fn parse_decimal(s: &str, max: u32) -> (r: Option<u32>)
    ensures
        match spec_parse_decimal(s@, max as nat) {
            Some(v) => r == Some(v as u32),
            None => r.is_none(),
        },
{
    let cs = chars_of(s);
    let start: usize = if cs.len() > 1 && cs[0] == '+' {
        1
    } else {
        0
    };
    let ghost d = cs@.subrange(start as int, cs@.len() as int);
    assert(d =~= digits_part(s@));
    if start == cs.len() {
        return None;
    }
    let mut acc: u64 = 0;
    let mut i: usize = start;
    assert(d.subrange(0, 0) =~= Seq::<char>::empty());
    while i < cs.len()
        invariant
            start <= i <= cs@.len(),
            d == cs@.subrange(start as int, cs@.len() as int),
            d == digits_part(s@),
            forall|k: int| 0 <= k < i - start ==> is_digit(#[trigger] d[k]),
            decimal_value(d.subrange(0, i - start)) <= max ==> acc == decimal_value(
                d.subrange(0, i - start),
            ),
            decimal_value(d.subrange(0, i - start)) > max ==> acc > max,
            acc <= (max as u64) * 10 + 9,
        decreases cs@.len() - i,
    {
        let c = cs[i];
        if !('0' <= c && c <= '9') {
            assert(d[i - start] == c);
            assert(!is_digit(d[i - start]));
            return None;
        }
        let dig = (c as u32) - ('0' as u32);
        proof {
            assert(d.subrange(0, i - start + 1).drop_last() =~= d.subrange(0, i - start));
            assert(d.subrange(0, i - start + 1).last() == c);
        }
        if acc <= max as u64 {
            acc = acc * 10 + dig as u64;
        }
        i = i + 1;
    }
    assert(d.subrange(0, d.len() as int) =~= d);
    if acc > max as u64 {
        None
    } else {
        Some(acc as u32)
    }
}

} // verus!
