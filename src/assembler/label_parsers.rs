//! Label declarations (`name:`) and label usages (`@name`).
use vstd::prelude::*;

use super::scan::{lemma_scan_bounds, scan, scan_run, skip_space, skip_spaces, CharClass};
use super::token::{token_at, token_outcome, token_result, ParseResult, Token, TokenView};
use crate::text::{chars_of, string_of};

verus! {

/// A label declaration at `i`, after white space: letters and digits followed
/// directly by `:`.
pub open spec fn parse_label_declaration(s: Seq<char>, i: int) -> Option<(TokenView, int)> {
    let j = skip_space(s, i);
    let k = scan(s, j, CharClass::Alnum);
    if k > j && k < s.len() && s[k] == ':' {
        Some((TokenView::LabelDeclaration { name: s.subrange(j, k) }, k + 1))
    } else {
        None
    }
}

/// A label usage at `i`, after white space: `@` directly followed by letters
/// and digits; the white space after it is consumed too.
pub open spec fn parse_label_usage(s: Seq<char>, i: int) -> Option<(TokenView, int)> {
    let j = skip_space(s, i);
    if j < s.len() && s[j] == '@' {
        let k = scan(s, j + 1, CharClass::Alnum);
        if k > j + 1 {
            Some((TokenView::LabelUsage { name: s.subrange(j + 1, k) }, skip_space(s, k)))
        } else {
            None
        }
    } else {
        None
    }
}

pub fn label_declaration_at(s: &[char], i: usize) -> (r: Option<(Token, usize)>)
    requires
        i <= s@.len(),
    ensures
        token_at(r) == parse_label_declaration(s@, i as int),
        r matches Some((_, e)) ==> i <= e <= s@.len(),
{
    let j = skip_spaces(s, i);
    let k = scan_run(s, j, CharClass::Alnum);
    if k > j && k < s.len() && s[k] == ':' {
        let name = string_of(s, j, k);
        Some((Token::LabelDeclaration { name }, k + 1))
    } else {
        None
    }
}

pub fn label_usage_at(s: &[char], i: usize) -> (r: Option<(Token, usize)>)
    requires
        i <= s@.len(),
    ensures
        token_at(r) == parse_label_usage(s@, i as int),
        r matches Some((_, e)) ==> i <= e <= s@.len(),
{
    let j = skip_spaces(s, i);
    if j < s.len() && s[j] == '@' {
        let k = scan_run(s, j + 1, CharClass::Alnum);
        if k > j + 1 {
            let name = string_of(s, j + 1, k);
            let e = skip_spaces(s, k);
            Some((Token::LabelUsage { name }, e))
        } else {
            None
        }
    } else {
        None
    }
}

/// Parses a label declaration such as `label1:` at the start of `input`.
pub fn label_declaration(input: &str) -> (r: ParseResult<Token>)
    ensures
        token_outcome(r, input@, parse_label_declaration(input@, 0)),
{
    let chars = chars_of(input);
    let t = label_declaration_at(chars.as_slice(), 0);
    token_result(&chars, t)
}

/// Parses a label usage such as `@label1` at the start of `input`.
pub fn label_usage(input: &str) -> (r: ParseResult<Token>)
    ensures
        token_outcome(r, input@, parse_label_usage(input@, 0)),
{
    let chars = chars_of(input);
    let t = label_usage_at(chars.as_slice(), 0);
    token_result(&chars, t)
}

} // verus!
