//! Whole programs: one or more lines, which must use up the whole text.
use vstd::prelude::*;

use super::instruction_parsers::{
    instruction_at, instruction_bytes, line_at, parse_line, AssemblerInstruction,
    InstructionView,
};
use super::symbols::{SymbolTable, SymbolView};
use super::token::{ParseError, ParseResult};
use crate::text::chars_of;

verus! {

/// The lines of a program, in source order.
#[derive(Debug, PartialEq)]
pub struct Program {
    pub instructions: Vec<AssemblerInstruction>,
}

impl View for Program {
    type V = Seq<InstructionView>;

    open spec fn view(&self) -> Seq<InstructionView> {
        self.instructions@.map_values(|i: AssemblerInstruction| i@)
    }
}

/// An instruction line at `i`, or else a directive line.
pub open spec fn parse_statement(s: Seq<char>, i: int) -> Option<(InstructionView, int)> {
    if parse_line(s, i, false) is Some {
        parse_line(s, i, false)
    } else {
        parse_line(s, i, true)
    }
}

/// The lines parsed one after another from `i` until none matches, and
/// where the last one ended.
pub open spec fn parse_lines(s: Seq<char>, i: int) -> (Seq<InstructionView>, int)
    decreases s.len() - i,
{
    match parse_statement(s, i) {
        Some((ins, e)) => if i < e <= s.len() {
            let (rest, end) = parse_lines(s, e);
            (seq![ins] + rest, end)
        } else {
            (Seq::empty(), i)
        },
        None => (Seq::empty(), i),
    }
}

/// A program: at least one line, and nothing left over after the last.
pub open spec fn parse_program(s: Seq<char>) -> Option<Seq<InstructionView>> {
    let (lines, end) = parse_lines(s, 0);
    if lines.len() > 0 && end == s.len() {
        Some(lines)
    } else {
        None
    }
}

/// The bytes of one line, where `only_code` leaves out the lines without
/// a mnemonic.
pub open spec fn line_bytes(ins: InstructionView, syms: Seq<SymbolView>, only_code: bool) -> Seq<
    u8,
> {
    if only_code && ins.opcode is None {
        Seq::empty()
    } else {
        instruction_bytes(ins, syms)
    }
}

/// The bytes of the lines one after another.
pub open spec fn lines_bytes(lines: Seq<InstructionView>, syms: Seq<SymbolView>, only_code: bool) -> Seq<
    u8,
>
    decreases lines.len(),
{
    if lines.len() == 0 {
        Seq::empty()
    } else {
        lines_bytes(lines.drop_last(), syms, only_code) + line_bytes(lines.last(), syms, only_code)
    }
}

pub fn statement_at(s: &[char], i: usize) -> (r: Option<(AssemblerInstruction, usize)>)
    requires
        i <= s@.len(),
    ensures
        instruction_at(r) == parse_statement(s@, i as int),
        r matches Some((_, e)) ==> i < e <= s@.len(),
{
    match line_at(s, i, false) {
        Some(r) => Some(r),
        None => line_at(s, i, true),
    }
}

/// Parses a whole program. On success the rest is empty: text left over
/// after the last line that parses is an error at the position where it
/// begins.
pub fn program(input: &str) -> (r: ParseResult<Program>)
    ensures
        match parse_program(input@) {
            Some(lines) => match r {
                Ok((rest, p)) => rest@.len() == 0 && p@ == lines,
                Err(_) => false,
            },
            None => match r {
                Ok(_) => false,
                Err(e) => e.position == parse_lines(input@, 0).1,
            },
        },
{
    let chars = chars_of(input);
    let s = chars.as_slice();
    let mut instructions: Vec<AssemblerInstruction> = Vec::new();
    let mut pos: usize = 0;
    loop
        invariant
            s@ == input@,
            pos <= s@.len(),
            instructions@.map_values(|i: AssemblerInstruction| i@) + parse_lines(s@, pos as int).0
                == parse_lines(s@, 0).0,
            parse_lines(s@, pos as int).1 == parse_lines(s@, 0).1,
        ensures
            pos <= s@.len(),
            instructions@.map_values(|i: AssemblerInstruction| i@) == parse_lines(s@, 0).0,
            pos == parse_lines(s@, 0).1,
        decreases s@.len() - pos,
    {
        match statement_at(s, pos) {
            Some((ins, e)) => {
                let ghost before = instructions@.map_values(|i: AssemblerInstruction| i@);
                instructions.push(ins);
                assert(instructions@.map_values(|i: AssemblerInstruction| i@) =~= before.push(
                    ins@,
                ));
                assert(parse_lines(s@, pos as int).0 =~= seq![ins@] + parse_lines(s@, e as int).0);
                assert(before.push(ins@) + parse_lines(s@, e as int).0 =~= before + (seq![ins@]
                    + parse_lines(s@, e as int).0));
                pos = e;
            },
            None => {
                assert(instructions@.map_values(|i: AssemblerInstruction| i@) =~= parse_lines(
                    s@,
                    0,
                ).0);
                break ;
            },
        }
    }
    if instructions.len() > 0 && pos == s.len() {
        Ok((String::new(), Program { instructions }))
    } else {
        Err(ParseError { position: pos })
    }
}

impl Program {
    /// The bytes of every line, one after another.
    pub fn to_bytes(&self, symbols: &SymbolTable) -> (r: Vec<u8>)
        ensures
            r@ == lines_bytes(self@, symbols@, false),
    {
        encode_lines(&self.instructions, symbols, false)
    }
}

/// The bytes of `lines` one after another, where `only_code` leaves out the
/// lines without a mnemonic.
pub fn encode_lines(lines: &Vec<AssemblerInstruction>, symbols: &SymbolTable, only_code: bool) -> (r:
    Vec<u8>)
    ensures
        r@ == lines_bytes(lines@.map_values(|i: AssemblerInstruction| i@), symbols@, only_code),
{
    let ghost all = lines@.map_values(|i: AssemblerInstruction| i@);
    let mut out: Vec<u8> = Vec::new();
    let mut k: usize = 0;
    while k < lines.len()
        invariant
            k <= lines@.len(),
            all == lines@.map_values(|i: AssemblerInstruction| i@),
            out@ == lines_bytes(all.subrange(0, k as int), symbols@, only_code),
        decreases lines@.len() - k,
    {
        if !only_code || lines[k].is_opcode() {
            let mut b = lines[k].to_bytes(symbols);
            out.append(&mut b);
        }
        assert(all.subrange(0, k + 1).drop_last() =~= all.subrange(0, k as int));
        k = k + 1;
    }
    assert(all.subrange(0, lines@.len() as int) =~= all);
    out
}

} // verus!
