//! Mnemonics: a run of letters, read without regard to case.
use vstd::prelude::*;

use super::scan::{scan, scan_run, skip_space, skip_spaces, CharClass};
use super::token::{token_at, token_outcome, token_result, ParseResult, Token, TokenView};
use crate::instruction::{opcode_from_name, opcode_named};
use crate::text::{ascii_lower, chars_of, lower_ascii};

verus! {

/// `s[a..b]` with its capital ASCII letters made small.
pub open spec fn lowered(s: Seq<char>, a: int, b: int) -> Seq<char> {
    s.subrange(a, b).map_values(|c: char| ascii_lower(c))
}

/// A mnemonic at `i`, after white space: one or more ASCII letters. Text
/// that names no operation gives `IGL`, not a failure.
pub open spec fn parse_opcode(s: Seq<char>, i: int) -> Option<(TokenView, int)> {
    let j = skip_space(s, i);
    let k = scan(s, j, CharClass::Alpha);
    if k > j {
        Some((TokenView::Op { code: opcode_named(lowered(s, j, k)) }, k))
    } else {
        None
    }
}

fn lowered_chars(s: &[char], a: usize, b: usize) -> (r: Vec<char>)
    requires
        a <= b <= s@.len(),
    ensures
        r@ == lowered(s@, a as int, b as int),
{
    let mut out: Vec<char> = Vec::new();
    let mut t = a;
    while t < b
        invariant
            a <= t <= b <= s@.len(),
            out@ == lowered(s@, a as int, t as int),
        decreases b - t,
    {
        out.push(lower_ascii(s[t]));
        assert(lowered(s@, a as int, t + 1) =~= lowered(s@, a as int, t as int).push(
            ascii_lower(s@[t as int]),
        ));
        t = t + 1;
    }
    out
}

pub fn opcode_at(s: &[char], i: usize) -> (r: Option<(Token, usize)>)
    requires
        i <= s@.len(),
    ensures
        token_at(r) == parse_opcode(s@, i as int),
        r matches Some((_, e)) ==> i < e <= s@.len(),
{
    let j = skip_spaces(s, i);
    let k = scan_run(s, j, CharClass::Alpha);
    if k > j {
        let name = lowered_chars(s, j, k);
        let code = opcode_from_name(name.as_slice());
        Some((Token::Op { code }, k))
    } else {
        None
    }
}

/// Parses a mnemonic at the start of `input`.
pub fn opcode(input: &str) -> (r: ParseResult<Token>)
    ensures
        token_outcome(r, input@, parse_opcode(input@, 0)),
{
    let chars = chars_of(input);
    let t = opcode_at(chars.as_slice(), 0);
    token_result(&chars, t)
}

} // verus!
