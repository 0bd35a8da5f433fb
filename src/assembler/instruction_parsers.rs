//! One line of assembly: an optional label, a mnemonic or a directive, and
//! up to three operands; and the bytes that such a line encodes to.
use vstd::prelude::*;

use super::directive_parsers::{directive_declaration_at, parse_directive_declaration};
use super::label_parsers::{label_declaration_at, parse_label_declaration};
use super::opcode_parsers::{opcode_at, parse_opcode};
use super::operand_parser::{operand_at, parse_operand};
use super::scan::{skip_space, skip_spaces};
use super::symbols::{offset_of, SymbolTable, SymbolView};
use super::token::{option_view, ParseError, ParseResult, Token, TokenView};
use crate::instruction::opcode_byte;
use crate::text::{chars_of, string_of};

verus! {

/// One parsed line. A line that the parser makes holds exactly one of
/// `opcode` and `directive`.
#[derive(Debug, PartialEq, Clone)]
pub struct AssemblerInstruction {
    pub opcode: Option<Token>,
    pub label: Option<Token>,
    pub directive: Option<Token>,
    pub operand1: Option<Token>,
    pub operand2: Option<Token>,
    pub operand3: Option<Token>,
}

pub struct InstructionView {
    pub opcode: Option<TokenView>,
    pub label: Option<TokenView>,
    pub directive: Option<TokenView>,
    pub operand1: Option<TokenView>,
    pub operand2: Option<TokenView>,
    pub operand3: Option<TokenView>,
}

impl View for AssemblerInstruction {
    type V = InstructionView;

    open spec fn view(&self) -> InstructionView {
        InstructionView {
            opcode: option_view(self.opcode),
            label: option_view(self.label),
            directive: option_view(self.directive),
            operand1: option_view(self.operand1),
            operand2: option_view(self.operand2),
            operand3: option_view(self.operand3),
        }
    }
}

/// The name of a line's label declaration.
pub open spec fn label_name(ins: InstructionView) -> Option<Seq<char>> {
    match ins.label {
        Some(TokenView::LabelDeclaration { name }) => Some(name),
        _ => None,
    }
}

/// The name of a line's directive.
pub open spec fn directive_name(ins: InstructionView) -> Option<Seq<char>> {
    match ins.directive {
        Some(TokenView::Directive { name }) => Some(name),
        _ => None,
    }
}

/// The string of a line whose first operand is a string.
pub open spec fn string_constant(ins: InstructionView) -> Option<Seq<char>> {
    match ins.operand1 {
        Some(TokenView::IrString { name }) => Some(name),
        _ => None,
    }
}

pub open spec fn has_operands(ins: InstructionView) -> bool {
    ins.operand1 is Some || ins.operand2 is Some || ins.operand3 is Some
}

/// Two bytes holding the low 16 bits of `n`, high byte first.
pub open spec fn be16(n: int) -> Seq<u8> {
    seq![((n / 256) % 256) as u8, (n % 256) as u8]
}

/// The bytes an operand encodes to: a register its index, an integer its
/// low 16 bits, a label usage the offset of its symbol (nothing where the
/// symbol has none), anything else nothing.
pub open spec fn operand_bytes(t: TokenView, syms: Seq<SymbolView>) -> Seq<u8> {
    match t {
        TokenView::Register { reg_num } => seq![reg_num],
        TokenView::IntegerOperand { value } => be16(value as int % 65536),
        TokenView::LabelUsage { name } => match offset_of(syms, name) {
            Some(off) => be16(off as int),
            None => Seq::empty(),
        },
        _ => Seq::empty(),
    }
}

pub open spec fn optional_operand_bytes(t: Option<TokenView>, syms: Seq<SymbolView>) -> Seq<u8> {
    match t {
        Some(t) => operand_bytes(t, syms),
        None => Seq::empty(),
    }
}

pub open spec fn opcode_bytes(t: Option<TokenView>) -> Seq<u8> {
    match t {
        Some(TokenView::Op { code }) => seq![opcode_byte(code)],
        _ => Seq::empty(),
    }
}

/// The opcode byte and the operand bytes of a line, before padding.
pub open spec fn unpadded_bytes(ins: InstructionView, syms: Seq<SymbolView>) -> Seq<u8> {
    opcode_bytes(ins.opcode) + optional_operand_bytes(ins.operand1, syms) + optional_operand_bytes(
        ins.operand2,
        syms,
    ) + optional_operand_bytes(ins.operand3, syms)
}

/// `b` padded with zeros to four bytes where it holds one to three.
pub open spec fn pad_to_word(b: Seq<u8>) -> Seq<u8> {
    if 0 < b.len() < 4 {
        b + Seq::new((4 - b.len()) as nat, |k: int| 0u8)
    } else {
        b
    }
}

/// The bytes a line encodes to.
pub open spec fn instruction_bytes(ins: InstructionView, syms: Seq<SymbolView>) -> Seq<u8> {
    pad_to_word(unpadded_bytes(ins, syms))
}

impl AssemblerInstruction {
    /// The bytes this line encodes to, with label usages looked up in `symbols`.
    pub fn to_bytes(&self, symbols: &SymbolTable) -> (r: Vec<u8>)
        ensures
            r@ == instruction_bytes(self@, symbols@),
    {
        let mut results: Vec<u8> = Vec::new();
        match &self.opcode {
            Some(Token::Op { code }) => results.push(code.to_byte()),
            _ => {},
        }
        assert(results@ == opcode_bytes(self@.opcode));
        if let Some(t) = &self.operand1 {
            AssemblerInstruction::extract_operand(t, &mut results, symbols);
        }
        if let Some(t) = &self.operand2 {
            AssemblerInstruction::extract_operand(t, &mut results, symbols);
        }
        if let Some(t) = &self.operand3 {
            AssemblerInstruction::extract_operand(t, &mut results, symbols);
        }
        let ghost raw = results@;
        assert(raw =~= unpadded_bytes(self@, symbols@));
        if 0 < results.len() && results.len() < 4 {
            while results.len() < 4
                invariant
                    0 < raw.len() < 4,
                    raw.len() <= results@.len() <= 4,
                    results@ =~= raw + Seq::new((results@.len() - raw.len()) as nat, |k: int| 0u8),
                decreases 4 - results@.len(),
            {
                results.push(0);
                assert(results@ =~= raw + Seq::new(
                    (results@.len() - raw.len()) as nat,
                    |k: int| 0u8,
                ));
            }
        }
        results
    }

    /// Appends the bytes of operand `t` to `results`.
    fn extract_operand(t: &Token, results: &mut Vec<u8>, symbols: &SymbolTable)
        ensures
            final(results)@ == old(results)@ + operand_bytes(t@, symbols@),
    {
        match t {
            Token::Register { reg_num } => {
                results.push(*reg_num);
            },
            Token::IntegerOperand { value } => {
                let converted: u32 = if *value >= 0 {
                    (*value as u32) % 65536
                } else {
                    (((*value as i64) + 4294967296i64) as u32) % 65536
                };
                assert(converted == *value as int % 65536) by (nonlinear_arith)
                    requires
                        converted == (if *value >= 0 {
                            (*value as int) % 65536
                        } else {
                            ((*value as int) + 4294967296) % 65536
                        }),
                ;
                results.push((converted / 256) as u8);
                results.push((converted % 256) as u8);
            },
            Token::LabelUsage { name } => {
                if let Some(value) = symbols.symbol_value(name.as_str()) {
                    results.push(((value / 256) % 256) as u8);
                    results.push((value % 256) as u8);
                }
            },
            _ => {},
        }
        assert(final(results)@ =~= old(results)@ + operand_bytes(t@, symbols@));
    }

    pub fn is_label(&self) -> (r: bool)
        ensures
            r == self.label is Some,
    {
        self.label.is_some()
    }

    pub fn is_opcode(&self) -> (r: bool)
        ensures
            r == self.opcode is Some,
    {
        self.opcode.is_some()
    }

    pub fn is_directive(&self) -> (r: bool)
        ensures
            r == self.directive is Some,
    {
        self.directive.is_some()
    }

    /// Whether the line has any operand at all.
    pub fn has_operands(&self) -> (r: bool)
        ensures
            r == has_operands(self@),
    {
        self.operand1.is_some() || self.operand2.is_some() || self.operand3.is_some()
    }

    pub fn get_label_name(&self) -> (r: Option<String>)
        ensures
            match r {
                Some(n) => label_name(self@) == Some(n@),
                None => label_name(self@) is None,
            },
    {
        match &self.label {
            Some(Token::LabelDeclaration { name }) => Some(name.clone()),
            _ => None,
        }
    }

    pub fn get_directive_name(&self) -> (r: Option<String>)
        ensures
            match r {
                Some(n) => directive_name(self@) == Some(n@),
                None => directive_name(self@) is None,
            },
    {
        match &self.directive {
            Some(Token::Directive { name }) => Some(name.clone()),
            _ => None,
        }
    }

    pub fn get_string_constant(&self) -> (r: Option<String>)
        ensures
            match r {
                Some(n) => string_constant(self@) == Some(n@),
                None => string_constant(self@) is None,
            },
    {
        match &self.operand1 {
            Some(Token::IrString { name }) => Some(name.clone()),
            _ => None,
        }
    }
}

/// An optional parsed token and where the parse stopped.
pub open spec fn optional_at(p: Option<(TokenView, int)>, i: int) -> (Option<TokenView>, int) {
    match p {
        Some((t, e)) => (Some(t), e),
        None => (None, i),
    }
}

/// One line at `i`: white space, an optional label declaration, then a
/// directive (where `directive` holds) or a mnemonic, then up to three
/// operands, then white space.
pub open spec fn parse_line(s: Seq<char>, i: int, directive: bool) -> Option<(InstructionView, int)> {
    let j = skip_space(s, i);
    let (label, p) = optional_at(parse_label_declaration(s, j), j);
    let head = if directive {
        parse_directive_declaration(s, p)
    } else {
        parse_opcode(s, p)
    };
    match head {
        None => None,
        Some((h, p0)) => {
            let (o1, p1) = optional_at(parse_operand(s, p0), p0);
            let (o2, p2) = optional_at(parse_operand(s, p1), p1);
            let (o3, p3) = optional_at(parse_operand(s, p2), p2);
            Some(
                (
                    InstructionView {
                        opcode: if directive {
                            None
                        } else {
                            Some(h)
                        },
                        label,
                        directive: if directive {
                            Some(h)
                        } else {
                            None
                        },
                        operand1: o1,
                        operand2: o2,
                        operand3: o3,
                    },
                    skip_space(s, p3),
                ),
            )
        },
    }
}

pub open spec fn instruction_at(r: Option<(AssemblerInstruction, usize)>) -> Option<
    (InstructionView, int),
> {
    match r {
        Some((t, e)) => Some((t@, e as int)),
        None => None,
    }
}

/// `r` is what a line parser of `s` that stops where `p` says hands back.
pub open spec fn instruction_outcome(
    r: ParseResult<AssemblerInstruction>,
    s: Seq<char>,
    p: Option<(InstructionView, int)>,
) -> bool {
    match p {
        Some((t, e)) => match r {
            Ok((rest, ins)) => ins@ == t && rest@ == s.subrange(e, s.len() as int),
            Err(_) => false,
        },
        None => r is Err,
    }
}

fn optional_operand_at(s: &[char], i: usize) -> (r: (Option<Token>, usize))
    requires
        i <= s@.len(),
    ensures
        (option_view(r.0), r.1 as int) == optional_at(parse_operand(s@, i as int), i as int),
        i <= r.1 <= s@.len(),
{
    match operand_at(s, i) {
        Some((t, e)) => (Some(t), e),
        None => (None, i),
    }
}

pub fn line_at(s: &[char], i: usize, directive: bool) -> (r: Option<(AssemblerInstruction, usize)>)
    requires
        i <= s@.len(),
    ensures
        instruction_at(r) == parse_line(s@, i as int, directive),
        r matches Some((_, e)) ==> i < e <= s@.len(),
{
    let j = skip_spaces(s, i);
    let (label, p) = match label_declaration_at(s, j) {
        Some((t, e)) => (Some(t), e),
        None => (None, j),
    };
    let head = if directive {
        directive_declaration_at(s, p)
    } else {
        opcode_at(s, p)
    };
    match head {
        None => None,
        Some((h, p0)) => {
            let (operand1, p1) = optional_operand_at(s, p0);
            let (operand2, p2) = optional_operand_at(s, p1);
            let (operand3, p3) = optional_operand_at(s, p2);
            let e = skip_spaces(s, p3);
            let ins = if directive {
                AssemblerInstruction {
                    opcode: None,
                    label,
                    directive: Some(h),
                    operand1,
                    operand2,
                    operand3,
                }
            } else {
                AssemblerInstruction {
                    opcode: Some(h),
                    label,
                    directive: None,
                    operand1,
                    operand2,
                    operand3,
                }
            };
            Some((ins, e))
        },
    }
}

/// Turns a line parser's result and end position into its result on `chars`.
pub fn instruction_result(chars: &Vec<char>, r: Option<(AssemblerInstruction, usize)>) -> (out:
    ParseResult<AssemblerInstruction>)
    requires
        r matches Some((_, e)) ==> e <= chars@.len(),
    ensures
        instruction_outcome(out, chars@, instruction_at(r)),
{
    match r {
        Some((t, e)) => Ok((string_of(chars.as_slice(), e, chars.len()), t)),
        None => Err(ParseError { position: 0 }),
    }
}

/// Parses one instruction line: an optional label, a mnemonic and up to
/// three operands.
pub fn instruction_combined(input: &str) -> (r: ParseResult<AssemblerInstruction>)
    ensures
        instruction_outcome(r, input@, parse_line(input@, 0, false)),
{
    let chars = chars_of(input);
    let t = line_at(chars.as_slice(), 0, false);
    instruction_result(&chars, t)
}

/// Parses one instruction line.
pub fn instruction(input: &str) -> (r: ParseResult<AssemblerInstruction>)
    ensures
        instruction_outcome(r, input@, parse_line(input@, 0, false)),
{
    instruction_combined(input)
}

} // verus!
