//! Directives: `.` followed by a name, as in `.data`, `.code` and `.asciiz`.
use vstd::prelude::*;

use super::instruction_parsers::{
    instruction_outcome, instruction_result, line_at, parse_line, AssemblerInstruction,
};
use super::scan::{scan, scan_run, skip_space, skip_spaces, CharClass};
use super::token::{token_at, token_outcome, token_result, ParseResult, Token, TokenView};
use crate::text::{chars_of, string_of};

verus! {

/// A directive at `i`, after white space: `.` directly followed by one or
/// more ASCII letters.
pub open spec fn parse_directive_declaration(s: Seq<char>, i: int) -> Option<(TokenView, int)> {
    let j = skip_space(s, i);
    if j < s.len() && s[j] == '.' {
        let k = scan(s, j + 1, CharClass::Alpha);
        if k > j + 1 {
            Some((TokenView::Directive { name: s.subrange(j + 1, k) }, k))
        } else {
            None
        }
    } else {
        None
    }
}

pub fn directive_declaration_at(s: &[char], i: usize) -> (r: Option<(Token, usize)>)
    requires
        i <= s@.len(),
    ensures
        token_at(r) == parse_directive_declaration(s@, i as int),
        r matches Some((_, e)) ==> i < e <= s@.len(),
{
    let j = skip_spaces(s, i);
    if j < s.len() && s[j] == '.' {
        let k = scan_run(s, j + 1, CharClass::Alpha);
        if k > j + 1 {
            let name = string_of(s, j + 1, k);
            Some((Token::Directive { name }, k))
        } else {
            None
        }
    } else {
        None
    }
}

/// Parses a directive name such as `.data` at the start of `input`.
pub fn directive_declaration(input: &str) -> (r: ParseResult<Token>)
    ensures
        token_outcome(r, input@, parse_directive_declaration(input@, 0)),
{
    let chars = chars_of(input);
    let t = directive_declaration_at(chars.as_slice(), 0);
    token_result(&chars, t)
}

/// Parses one directive line: an optional label, the directive and up to
/// three operands.
pub fn directive_combined(input: &str) -> (r: ParseResult<AssemblerInstruction>)
    ensures
        instruction_outcome(r, input@, parse_line(input@, 0, true)),
{
    let chars = chars_of(input);
    let t = line_at(chars.as_slice(), 0, true);
    instruction_result(&chars, t)
}

/// Parses one directive line.
pub fn directive(input: &str) -> (r: ParseResult<AssemblerInstruction>)
    ensures
        instruction_outcome(r, input@, parse_line(input@, 0, true)),
{
    directive_combined(input)
}

} // verus!
