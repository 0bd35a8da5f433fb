//! Register operands: `$` and a decimal index from 0 to 255.
use vstd::prelude::*;

use super::scan::{
    decimal_value, digits_value, lemma_scan_bounds, scan, scan_run, skip_space, skip_spaces, CharClass,
};
use super::token::{token_at, token_outcome, token_result, ParseResult, Token, TokenView};
use crate::text::chars_of;

verus! {

/// A register operand at `i`, after white space: `$` and one or more digits
/// whose value is at most 255.
pub open spec fn parse_register(s: Seq<char>, i: int) -> Option<(TokenView, int)> {
    let j = skip_space(s, i);
    if j < s.len() && s[j] == '$' {
        let k = scan(s, j + 1, CharClass::Digit);
        if k > j + 1 && digits_value(s, j + 1, k) <= 255 {
            Some((TokenView::Register { reg_num: digits_value(s, j + 1, k) as u8 }, k))
        } else {
            None
        }
    } else {
        None
    }
}

pub fn register_at(s: &[char], i: usize) -> (r: Option<(Token, usize)>)
    requires
        i <= s@.len(),
    ensures
        token_at(r) == parse_register(s@, i as int),
        r matches Some((_, e)) ==> i <= e <= s@.len(),
{
    let j = skip_spaces(s, i);
    if j < s.len() && s[j] == '$' {
        let k = scan_run(s, j + 1, CharClass::Digit);
        if k > j + 1 {
            proof {
                lemma_scan_bounds(s@, j + 1, CharClass::Digit);
            }
            match decimal_value(s, j + 1, k, 255) {
                Some(v) => Some((Token::Register { reg_num: v as u8 }, k)),
                None => None,
            }
        } else {
            None
        }
    } else {
        None
    }
}

/// Parses a register operand at the start of `input`.
pub fn register(input: &str) -> (r: ParseResult<Token>)
    ensures
        token_outcome(r, input@, parse_register(input@, 0)),
{
    let chars = chars_of(input);
    let t = register_at(chars.as_slice(), 0);
    token_result(&chars, t)
}

} // verus!
