//! Operands: integers (`#-12`), decimal fractions (`#1.5`), label usages,
//! registers and quoted strings.
use vstd::prelude::*;

use super::label_parsers::{label_usage_at, parse_label_usage};
use super::register_parser::{parse_register, register_at};
use super::scan::{
    decimal_value, digits_value, lemma_scan_bounds, scan, scan_run, skip_space, skip_spaces,
    CharClass,
};
use super::token::{token_at, token_outcome, token_result, ParseResult, Token, TokenView};
use crate::text::{chars_of, string_of};

verus! {

/// Where the digits of a number that starts with `#` at `j` begin: after
/// the `#` and an optional `-`.
pub open spec fn number_digits_start(s: Seq<char>, j: int) -> int {
    if j + 1 < s.len() && s[j + 1] == '-' {
        j + 2
    } else {
        j + 1
    }
}

/// An integer operand at `i`, after white space: `#`, an optional `-` and
/// one or more digits, whose value fits in 32 signed bits; the white space
/// after it is consumed too.
pub open spec fn parse_integer_operand(s: Seq<char>, i: int) -> Option<(TokenView, int)> {
    let j = skip_space(s, i);
    if j < s.len() && s[j] == '#' {
        let d = number_digits_start(s, j);
        let k = scan(s, d, CharClass::Digit);
        let m = digits_value(s, d, k);
        let v = if d == j + 2 { -m } else { m };
        if k > d && i32::MIN <= v <= i32::MAX {
            Some((TokenView::IntegerOperand { value: v as i32 }, skip_space(s, k)))
        } else {
            None
        }
    } else {
        None
    }
}

/// A decimal fraction at `i`, after white space: `#`, an optional `-`,
/// digits, `.` and digits; the token keeps the text after `#`.
pub open spec fn parse_float_operand(s: Seq<char>, i: int) -> Option<(TokenView, int)> {
    let j = skip_space(s, i);
    if j < s.len() && s[j] == '#' {
        let d = number_digits_start(s, j);
        let k = scan(s, d, CharClass::Digit);
        if k > d && k < s.len() && s[k] == '.' {
            let m = scan(s, k + 1, CharClass::Digit);
            if m > k + 1 {
                Some((TokenView::Float { literal: s.subrange(j + 1, m) }, skip_space(s, m)))
            } else {
                None
            }
        } else {
            None
        }
    } else {
        None
    }
}

/// A string at `i`, after white space, between two `quote` characters; no
/// escapes. The white space after it is consumed too.
pub open spec fn parse_quoted(s: Seq<char>, i: int, quote: char) -> Option<(TokenView, int)> {
    let j = skip_space(s, i);
    if j < s.len() && s[j] == quote {
        let k = scan(s, j + 1, CharClass::Not(quote));
        if k < s.len() {
            Some((TokenView::IrString { name: s.subrange(j + 1, k) }, skip_space(s, k + 1)))
        } else {
            None
        }
    } else {
        None
    }
}

/// A string in single quotes, or else one in double quotes.
pub open spec fn parse_ir_string(s: Seq<char>, i: int) -> Option<(TokenView, int)> {
    match parse_quoted(s, i, '\'') {
        Some(r) => Some(r),
        None => parse_quoted(s, i, '"'),
    }
}

/// The first of these operand forms that matches at `i`: decimal fraction,
/// integer, label usage, register, string.
pub open spec fn parse_operand(s: Seq<char>, i: int) -> Option<(TokenView, int)> {
    if parse_float_operand(s, i) is Some {
        parse_float_operand(s, i)
    } else if parse_integer_operand(s, i) is Some {
        parse_integer_operand(s, i)
    } else if parse_label_usage(s, i) is Some {
        parse_label_usage(s, i)
    } else if parse_register(s, i) is Some {
        parse_register(s, i)
    } else {
        parse_ir_string(s, i)
    }
}

fn digits_start(s: &[char], j: usize) -> (d: usize)
    requires
        j < s@.len(),
    ensures
        d == number_digits_start(s@, j as int),
        d <= s@.len(),
{
    if s.len() - j > 1 && s[j + 1] == '-' {
        j + 2
    } else {
        j + 1
    }
}

pub fn integer_operand_at(s: &[char], i: usize) -> (r: Option<(Token, usize)>)
    requires
        i <= s@.len(),
    ensures
        token_at(r) == parse_integer_operand(s@, i as int),
        r matches Some((_, e)) ==> i <= e <= s@.len(),
{
    let j = skip_spaces(s, i);
    if j < s.len() && s[j] == '#' {
        let d = digits_start(s, j);
        let k = scan_run(s, d, CharClass::Digit);
        if k <= d {
            return None;
        }
        proof {
            lemma_scan_bounds(s@, d as int, CharClass::Digit);
        }
        let negative = d == j + 2;
        let limit: u64 = if negative { 0x8000_0000 } else { 0x7fff_ffff };
        match decimal_value(s, d, k, limit) {
            Some(m) => {
                let value: i32 = if negative {
                    if m == 0x8000_0000 {
                        i32::MIN
                    } else {
                        -(m as i32)
                    }
                } else {
                    m as i32
                };
                let e = skip_spaces(s, k);
                Some((Token::IntegerOperand { value }, e))
            },
            None => None,
        }
    } else {
        None
    }
}

pub fn float_operand_at(s: &[char], i: usize) -> (r: Option<(Token, usize)>)
    requires
        i <= s@.len(),
    ensures
        token_at(r) == parse_float_operand(s@, i as int),
        r matches Some((_, e)) ==> i <= e <= s@.len(),
{
    let j = skip_spaces(s, i);
    if j < s.len() && s[j] == '#' {
        let d = digits_start(s, j);
        let k = scan_run(s, d, CharClass::Digit);
        if k > d && k < s.len() && s[k] == '.' {
            let m = scan_run(s, k + 1, CharClass::Digit);
            if m > k + 1 {
                let literal = string_of(s, j + 1, m);
                let e = skip_spaces(s, m);
                Some((Token::Float { literal }, e))
            } else {
                None
            }
        } else {
            None
        }
    } else {
        None
    }
}

pub fn quoted_at(s: &[char], i: usize, quote: char) -> (r: Option<(Token, usize)>)
    requires
        i <= s@.len(),
    ensures
        token_at(r) == parse_quoted(s@, i as int, quote),
        r matches Some((_, e)) ==> i <= e <= s@.len(),
{
    let j = skip_spaces(s, i);
    if j < s.len() && s[j] == quote {
        let k = scan_run(s, j + 1, CharClass::Not(quote));
        if k < s.len() {
            let name = string_of(s, j + 1, k);
            let e = skip_spaces(s, k + 1);
            Some((Token::IrString { name }, e))
        } else {
            None
        }
    } else {
        None
    }
}

pub fn ir_string_at(s: &[char], i: usize) -> (r: Option<(Token, usize)>)
    requires
        i <= s@.len(),
    ensures
        token_at(r) == parse_ir_string(s@, i as int),
        r matches Some((_, e)) ==> i <= e <= s@.len(),
{
    match quoted_at(s, i, '\'') {
        Some(r) => Some(r),
        None => quoted_at(s, i, '"'),
    }
}

pub fn operand_at(s: &[char], i: usize) -> (r: Option<(Token, usize)>)
    requires
        i <= s@.len(),
    ensures
        token_at(r) == parse_operand(s@, i as int),
        r matches Some((_, e)) ==> i <= e <= s@.len(),
{
    if let Some(r) = float_operand_at(s, i) {
        return Some(r);
    }
    if let Some(r) = integer_operand_at(s, i) {
        return Some(r);
    }
    if let Some(r) = label_usage_at(s, i) {
        return Some(r);
    }
    if let Some(r) = register_at(s, i) {
        return Some(r);
    }
    ir_string_at(s, i)
}

/// Parses an integer operand such as `#-12` at the start of `input`.
pub fn integer_operand(input: &str) -> (r: ParseResult<Token>)
    ensures
        token_outcome(r, input@, parse_integer_operand(input@, 0)),
{
    let chars = chars_of(input);
    let t = integer_operand_at(chars.as_slice(), 0);
    token_result(&chars, t)
}

/// Parses a decimal fraction operand such as `#-100.3` at the start of `input`.
pub fn float_operand(input: &str) -> (r: ParseResult<Token>)
    ensures
        token_outcome(r, input@, parse_float_operand(input@, 0)),
{
    let chars = chars_of(input);
    let t = float_operand_at(chars.as_slice(), 0);
    token_result(&chars, t)
}

/// Parses a string in single quotes at the start of `input`.
pub fn ir_string_single_quota(input: &str) -> (r: ParseResult<Token>)
    ensures
        token_outcome(r, input@, parse_quoted(input@, 0, '\'')),
{
    let chars = chars_of(input);
    let t = quoted_at(chars.as_slice(), 0, '\'');
    token_result(&chars, t)
}

/// Parses a string in double quotes at the start of `input`.
pub fn ir_string_double_quota(input: &str) -> (r: ParseResult<Token>)
    ensures
        token_outcome(r, input@, parse_quoted(input@, 0, '"')),
{
    let chars = chars_of(input);
    let t = quoted_at(chars.as_slice(), 0, '"');
    token_result(&chars, t)
}

/// Parses a string in single or double quotes at the start of `input`.
pub fn ir_string(input: &str) -> (r: ParseResult<Token>)
    ensures
        token_outcome(r, input@, parse_ir_string(input@, 0)),
{
    let chars = chars_of(input);
    let t = ir_string_at(chars.as_slice(), 0);
    token_result(&chars, t)
}

/// Parses any operand at the start of `input`.
pub fn operand(input: &str) -> (r: ParseResult<Token>)
    ensures
        token_outcome(r, input@, parse_operand(input@, 0)),
{
    let chars = chars_of(input);
    let t = operand_at(chars.as_slice(), 0);
    token_result(&chars, t)
}

} // verus!
