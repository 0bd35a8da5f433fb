//! Conversions between Rust strings and the character sequences that the
//! parsers work on.
use vstd::prelude::*;

verus! {

/// Relies on `str::chars` collected into a `Vec`: the characters of `s`, in order.
#[verifier::external_body]
pub fn chars_of(s: &str) -> (r: Vec<char>)
    ensures
        r@ == s@,
{
    s.chars().collect()
}

/// Relies on `String`'s `FromIterator<&char>`: the string made of exactly the
/// characters `v[start..end]`.
#[verifier::external_body]
pub fn string_of(v: &[char], start: usize, end: usize) -> (r: String)
    requires
        start <= end <= v@.len(),
    ensures
        r@ == v@.subrange(start as int, end as int),
{
    v[start..end].iter().collect()
}

/// `c` with an ASCII capital letter made small; every other character unchanged.
pub open spec fn ascii_lower(c: char) -> char {
    if 'A' <= c && c <= 'Z' {
        ((c as u32) + 32) as char
    } else {
        c
    }
}

/// Relies on `char::to_ascii_lowercase`, which maps 'A'..='Z' to 'a'..='z' and
/// leaves every other character as it is.
#[verifier::external_body]
pub fn lower_ascii(c: char) -> (r: char)
    ensures
        r == ascii_lower(c),
{
    c.to_ascii_lowercase()
}

/// Relies on `str`'s `==`: two strings are equal when they hold the same characters.
#[verifier::external_body]
pub fn text_eq(a: &str, b: &str) -> (r: bool)
    ensures
        r == (a@ == b@),
{
    a == b
}

/// Whether the characters `a` spell exactly the text `b`.
pub fn same_text(a: &[char], b: &str) -> (r: bool)
    ensures
        r == (a@ == b@),
{
    let bc = chars_of(b);
    if a.len() != bc.len() {
        return false;
    }
    let mut i: usize = 0;
    while i < a.len()
        invariant
            a@.len() == bc@.len(),
            bc@ == b@,
            i <= a@.len(),
            a@.subrange(0, i as int) == bc@.subrange(0, i as int),
        decreases a@.len() - i,
    {
        if a[i] != bc[i] {
            return false;
        }
        assert(a@.subrange(0, i + 1) =~= a@.subrange(0, i as int).push(a@[i as int]));
        assert(bc@.subrange(0, i + 1) =~= bc@.subrange(0, i as int).push(bc@[i as int]));
        i = i + 1;
    }
    assert(a@ =~= a@.subrange(0, a@.len() as int));
    assert(bc@ =~= bc@.subrange(0, bc@.len() as int));
    true
}

} // verus!
