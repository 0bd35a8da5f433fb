//! Character classes and the scanning primitives that every token parser
//! is built from. Positions are indexes into the source's characters.
use vstd::prelude::*;

verus! {

/// The kinds of characters that a run can be made of.
#[derive(Clone, Copy)]
pub enum CharClass {
    /// Space, tab, carriage return or line feed.
    Space,
    /// An ASCII decimal digit.
    Digit,
    /// An ASCII letter.
    Alpha,
    /// An ASCII letter or digit.
    Alnum,
    /// Any character but the one given.
    Not(char),
}

pub open spec fn is_space(c: char) -> bool {
    c == ' ' || c == '\t' || c == '\r' || c == '\n'
}

pub open spec fn is_digit(c: char) -> bool {
    '0' <= c && c <= '9'
}

pub open spec fn is_alpha(c: char) -> bool {
    ('a' <= c && c <= 'z') || ('A' <= c && c <= 'Z')
}

pub open spec fn in_class(c: char, class: CharClass) -> bool {
    match class {
        CharClass::Space => is_space(c),
        CharClass::Digit => is_digit(c),
        CharClass::Alpha => is_alpha(c),
        CharClass::Alnum => is_alpha(c) || is_digit(c),
        CharClass::Not(q) => c != q,
    }
}

/// The end of the longest run of `class` characters that starts at `i`.
pub open spec fn scan(s: Seq<char>, i: int, class: CharClass) -> int
    decreases s.len() - i,
{
    if 0 <= i < s.len() && in_class(s[i], class) {
        scan(s, i + 1, class)
    } else {
        i
    }
}

/// The first position at or after `i` that holds no white space.
pub open spec fn skip_space(s: Seq<char>, i: int) -> int {
    scan(s, i, CharClass::Space)
}

/// The value of the decimal digits `s[a..b]`.
pub open spec fn digits_value(s: Seq<char>, a: int, b: int) -> int
    decreases b - a,
{
    if b <= a {
        0
    } else {
        digits_value(s, a, b - 1) * 10 + (s[b - 1] as int - '0' as int)
    }
}

pub proof fn lemma_scan_bounds(s: Seq<char>, i: int, class: CharClass)
    requires
        0 <= i <= s.len(),
    ensures
        i <= scan(s, i, class) <= s.len(),
        scan(s, i, class) < s.len() ==> !in_class(s[scan(s, i, class)], class),
        forall|k: int| i <= k < scan(s, i, class) ==> in_class(#[trigger] s[k], class),
    decreases s.len() - i,
{
    if i < s.len() && in_class(s[i], class) {
        lemma_scan_bounds(s, i + 1, class);
    }
}

pub proof fn lemma_digits_value_grows(s: Seq<char>, a: int, b: int)
    requires
        a <= b,
        forall|k: int| a <= k < b ==> is_digit(#[trigger] s[k]),
    ensures
        digits_value(s, a, b) >= 0,
        forall|k: int| a <= k <= b ==> digits_value(s, a, k) <= #[trigger] digits_value(s, a, b),
    decreases b - a,
{
    if a < b {
        lemma_digits_value_grows(s, a, b - 1);
    }
}

pub fn class_holds(c: char, class: CharClass) -> (r: bool)
    ensures
        r == in_class(c, class),
{
    match class {
        CharClass::Space => c == ' ' || c == '\t' || c == '\r' || c == '\n',
        CharClass::Digit => '0' <= c && c <= '9',
        CharClass::Alpha => ('a' <= c && c <= 'z') || ('A' <= c && c <= 'Z'),
        CharClass::Alnum => ('a' <= c && c <= 'z') || ('A' <= c && c <= 'Z') || ('0' <= c && c
            <= '9'),
        CharClass::Not(q) => c != q,
    }
}

/// Finds the end of the run of `class` characters that starts at `i`.
pub fn scan_run(s: &[char], i: usize, class: CharClass) -> (r: usize)
    requires
        i <= s@.len(),
    ensures
        r == scan(s@, i as int, class),
        i <= r <= s@.len(),
{
    let mut j = i;
    while j < s.len() && class_holds(s[j], class)
        invariant
            i <= j <= s@.len(),
            scan(s@, i as int, class) == scan(s@, j as int, class),
        decreases s@.len() - j,
    {
        j = j + 1;
    }
    j
}

pub fn skip_spaces(s: &[char], i: usize) -> (r: usize)
    requires
        i <= s@.len(),
    ensures
        r == skip_space(s@, i as int),
        i <= r <= s@.len(),
{
    scan_run(s, i, CharClass::Space)
}

/// The value of the decimal digits `s[a..b]`, or `None` where it exceeds `limit`.
pub fn decimal_value(s: &[char], a: usize, b: usize, limit: u64) -> (r: Option<u64>)
    requires
        a <= b <= s@.len(),
        limit <= u32::MAX,
        forall|k: int| a <= k < b ==> is_digit(#[trigger] s@[k]),
    ensures
        match r {
            Some(v) => v == digits_value(s@, a as int, b as int) && v <= limit,
            None => digits_value(s@, a as int, b as int) > limit,
        },
{
    let mut acc: u64 = 0;
    let mut k = a;
    while k < b
        invariant
            a <= k <= b <= s@.len(),
            limit <= u32::MAX,
            forall|t: int| a <= t < b ==> is_digit(#[trigger] s@[t]),
            acc == digits_value(s@, a as int, k as int),
            acc <= limit,
        decreases b - k,
    {
        let d = (s[k] as u32 - '0' as u32) as u64;
        acc = acc * 10 + d;
        k = k + 1;
        assert(acc == digits_value(s@, a as int, k as int));
        if acc > limit {
            proof {
                lemma_digits_value_grows(s@, a as int, b as int);
                assert(digits_value(s@, a as int, k as int) <= digits_value(s@, a as int, b as int));
            }
            return None;
        }
    }
    Some(acc)
}

} // verus!
