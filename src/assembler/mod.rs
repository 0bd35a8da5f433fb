//! The two-pass assembler and its parsers.
//!
//! The first pass walks the parsed lines to open sections, declare labels
//! and lay out the read-only data; the second encodes every line that has a
//! mnemonic. The result is a 64-byte header, the read-only data and the
//! encoded instructions.
pub mod directive_parsers;
pub mod instruction_parsers;
pub mod label_parsers;
pub mod opcode_parsers;
pub mod operand_parser;
pub mod program_parser;
pub mod register_parser;
pub mod scan;
pub mod symbols;
pub mod token;

use vstd::prelude::*;

use crate::bytes::{le32, u32_to_le_bytes};
use crate::text::text_eq;
use instruction_parsers::{
    directive_name, has_operands, instruction_bytes, label_name, optional_operand_bytes,
    string_constant, AssemblerInstruction, InstructionView,
};
use program_parser::{parse_lines, parse_program, program, Program};
use symbols::{first_index, offset_of, Symbol, SymbolTable, SymbolType, SymbolView};
use token::TokenView;
use vstd::string::StringSliceAdditionalSpecFns;
use vstd::utf8::encode_utf8;

pub use token::Token;

verus! {

/// The bytes that begin every bytecode file.
pub const PIE_HEADER_PREFIX: [u8; 4] = [45, 50, 49, 45];

/// The length of the header; what follows the prefix is zeros but for the
/// read-only data length.
pub const PIE_HEADER_LENGTH: usize = 64;

pub open spec fn header_prefix() -> Seq<u8> {
    seq![45u8, 50u8, 49u8, 45u8]
}

pub open spec fn zeros(n: nat) -> Seq<u8> {
    Seq::new(n, |k: int| 0u8)
}

/// The header of an assembled file: the prefix, the length of the
/// read-only data as a little-endian 32-bit number, and zeros up to 64 bytes.
pub open spec fn file_header(ro_len: nat) -> Seq<u8> {
    header_prefix() + le32(ro_len as u32) + zeros(56)
}

/// `body` after a header whose length field is zero.
pub open spec fn with_plain_header(body: Seq<u8>) -> Seq<u8> {
    header_prefix() + zeros(60) + body
}

/// Puts a header with a zero length field in front of `append_bytes`.
pub fn prepend_header(append_bytes: Vec<u8>) -> (r: Vec<u8>)
    ensures
        r@ == with_plain_header(append_bytes@),
{
    let mut append_bytes = append_bytes;
    let mut prepension: Vec<u8> = Vec::new();
    let prefix = PIE_HEADER_PREFIX;
    let mut k: usize = 0;
    while k < 4
        invariant
            k <= 4,
            prefix@ == header_prefix(),
            prepension@ == header_prefix().subrange(0, k as int),
        decreases 4 - k,
    {
        prepension.push(prefix[k]);
        assert(prepension@ =~= header_prefix().subrange(0, k + 1));
        k = k + 1;
    }
    while prepension.len() < PIE_HEADER_LENGTH
        invariant
            4 <= prepension@.len() <= 64,
            prepension@ =~= header_prefix() + zeros((prepension@.len() - 4) as nat),
        decreases 64 - prepension@.len(),
    {
        prepension.push(0);
        assert(prepension@ =~= header_prefix() + zeros((prepension@.len() - 4) as nat));
    }
    prepension.append(&mut append_bytes);
    prepension
}

#[derive(Debug, PartialEq, Eq, Clone, Copy, Structural)]
pub enum AssemblerPhase {
    First,
    Second,
}

impl Default for AssemblerPhase {
    fn default() -> (r: AssemblerPhase)
        ensures
            r == AssemblerPhase::First,
    {
        AssemblerPhase::First
    }
}

#[derive(Debug, PartialEq, Eq, Clone, Copy, Structural)]
pub enum AssemblerSection {
    Data { starting_instruction: Option<u32> },
    Code { starting_instruction: Option<u32> },
    Unknown,
}

impl Default for AssemblerSection {
    fn default() -> (r: AssemblerSection)
        ensures
            r == AssemblerSection::Unknown,
    {
        AssemblerSection::Unknown
    }
}

/// The section a section header names: `data` and `code`, case-sensitive.
pub open spec fn section_named(name: Seq<char>) -> AssemblerSection {
    if name == "data"@ {
        AssemblerSection::Data { starting_instruction: None }
    } else if name == "code"@ {
        AssemblerSection::Code { starting_instruction: None }
    } else {
        AssemblerSection::Unknown
    }
}

impl From<&str> for AssemblerSection {
    fn from(value: &str) -> (r: AssemblerSection) {
        if text_eq(value, "data") {
            AssemblerSection::Data { starting_instruction: None }
        } else if text_eq(value, "code") {
            AssemblerSection::Code { starting_instruction: None }
        } else {
            AssemblerSection::Unknown
        }
    }
}

impl vstd::std_specs::convert::FromSpecImpl<&str> for AssemblerSection {
    open spec fn obeys_from_spec() -> bool {
        true
    }

    open spec fn from_spec(v: &str) -> AssemblerSection {
        section_named(v@)
    }
}

/// What stops an assembly.
#[derive(Debug, PartialEq, Clone)]
pub enum AssemblerError {
    /// The text is not a program; `position` counts characters.
    ParseError { position: usize },
    NoSegmentDeclarationFound { instruction: u32 },
    StringConstantDeclaredWithoutLabel { instruction: u32 },
    SymbolAlreadyDeclared,
    UnknownDirectiveFound { directive: String },
    InsufficientSections,
}

pub enum ErrorView {
    ParseError { position: usize },
    NoSegmentDeclarationFound { instruction: u32 },
    StringConstantDeclaredWithoutLabel { instruction: u32 },
    SymbolAlreadyDeclared,
    UnknownDirectiveFound { directive: Seq<char> },
    InsufficientSections,
}

impl View for AssemblerError {
    type V = ErrorView;

    open spec fn view(&self) -> ErrorView {
        match self {
            AssemblerError::ParseError { position } => ErrorView::ParseError {
                position: *position,
            },
            AssemblerError::NoSegmentDeclarationFound { instruction } =>
                ErrorView::NoSegmentDeclarationFound { instruction: *instruction },
            AssemblerError::StringConstantDeclaredWithoutLabel { instruction } =>
                ErrorView::StringConstantDeclaredWithoutLabel { instruction: *instruction },
            AssemblerError::SymbolAlreadyDeclared => ErrorView::SymbolAlreadyDeclared,
            AssemblerError::UnknownDirectiveFound { directive } =>
                ErrorView::UnknownDirectiveFound { directive: directive@ },
            AssemblerError::InsufficientSections => ErrorView::InsufficientSections,
        }
    }
}

/// What the assembler notes and goes on from.
#[derive(Debug, PartialEq, Eq, Clone, Copy, Structural)]
pub enum AssemblerWarning {
    /// An `.asciiz` line without a label: its string is left out.
    StringConstantWithoutLabel { instruction: u32 },
    /// An `.asciiz` line whose first operand is no string.
    MissingStringConstant { instruction: u32 },
    /// A section header other than `.data` and `.code`.
    UnknownSection { instruction: u32 },
}

pub fn copy_error(e: &AssemblerError) -> (r: AssemblerError)
    ensures
        r@ == e@,
{
    match e {
        AssemblerError::ParseError { position } => AssemblerError::ParseError {
            position: *position,
        },
        AssemblerError::NoSegmentDeclarationFound { instruction } =>
            AssemblerError::NoSegmentDeclarationFound { instruction: *instruction },
        AssemblerError::StringConstantDeclaredWithoutLabel { instruction } =>
            AssemblerError::StringConstantDeclaredWithoutLabel { instruction: *instruction },
        AssemblerError::SymbolAlreadyDeclared => AssemblerError::SymbolAlreadyDeclared,
        AssemblerError::UnknownDirectiveFound { directive } =>
            AssemblerError::UnknownDirectiveFound { directive: directive.clone() },
        AssemblerError::InsufficientSections => AssemblerError::InsufficientSections,
    }
}

pub open spec fn errors_view(errors: Seq<AssemblerError>) -> Seq<ErrorView> {
    errors.map_values(|e: AssemblerError| e@)
}

/// The assembler, which may be used for more than one text: symbols,
/// read-only data, sections and errors carry over from one to the next.
pub struct Assembler {
    pub phase: AssemblerPhase,
    pub symbols: SymbolTable,
    /// The read-only data: every `.asciiz` string followed by a zero byte.
    pub ro: Vec<u8>,
    pub bytecode: Vec<u8>,
    /// The offset the next string will have in the read-only data.
    pub ro_offset: u32,
    pub sections: Vec<AssemblerSection>,
    pub current_section: Option<AssemblerSection>,
    /// The index of the line being processed, for error reports.
    pub current_instruction: u32,
    pub errors: Vec<AssemblerError>,
    pub warnings: Vec<AssemblerWarning>,
}

pub struct AsmState {
    pub phase: AssemblerPhase,
    pub bytecode: Seq<u8>,
    pub symbols: Seq<SymbolView>,
    pub ro: Seq<u8>,
    pub ro_offset: u32,
    pub sections: Seq<AssemblerSection>,
    pub current_section: Option<AssemblerSection>,
    pub current_instruction: u32,
    pub errors: Seq<ErrorView>,
    pub warnings: Seq<AssemblerWarning>,
}

impl View for Assembler {
    type V = AsmState;

    open spec fn view(&self) -> AsmState {
        AsmState {
            phase: self.phase,
            bytecode: self.bytecode@,
            symbols: self.symbols@,
            ro: self.ro@,
            ro_offset: self.ro_offset,
            sections: self.sections@,
            current_section: self.current_section,
            current_instruction: self.current_instruction,
            errors: errors_view(self.errors@),
            warnings: self.warnings@,
        }
    }
}

/// `syms` with the first symbol named `name` given offset `off`, where
/// there is one.
pub open spec fn with_offset(syms: Seq<SymbolView>, name: Seq<char>, off: u32) -> Seq<SymbolView> {
    let k = first_index(syms, name);
    if k >= 0 {
        syms.update(k, SymbolView { name, symbol_type: syms[k].symbol_type, offset: Some(off) })
    } else {
        syms
    }
}

/// A label declaration in the first pass: a new label without an offset,
/// or an error where the name is taken.
pub open spec fn label_step(st: AsmState, ins: InstructionView) -> AsmState {
    match label_name(ins) {
        None => AsmState {
            errors: st.errors.push(
                ErrorView::StringConstantDeclaredWithoutLabel { instruction: st.current_instruction },
            ),
            ..st
        },
        Some(name) => if first_index(st.symbols, name) >= 0 {
            AsmState { errors: st.errors.push(ErrorView::SymbolAlreadyDeclared), ..st }
        } else {
            AsmState {
                symbols: st.symbols.push(
                    SymbolView { name, symbol_type: SymbolType::Label, offset: None },
                ),
                ..st
            }
        },
    }
}

/// An `.asciiz` line: in the first pass its string and a zero byte are
/// added to the read-only data, its label gets the read-only offset, and
/// the offset moves on by the bytes added (modulo 2^32).
pub open spec fn asciiz_step(st: AsmState, ins: InstructionView) -> AsmState {
    if st.phase != AssemblerPhase::First {
        st
    } else {
        match string_constant(ins) {
            None => AsmState {
                warnings: st.warnings.push(
                    AssemblerWarning::MissingStringConstant { instruction: st.current_instruction },
                ),
                ..st
            },
            Some(text) => match label_name(ins) {
                None => AsmState {
                    warnings: st.warnings.push(
                        AssemblerWarning::StringConstantWithoutLabel {
                            instruction: st.current_instruction,
                        },
                    ),
                    ..st
                },
                Some(name) => {
                    let added = encode_utf8(text) + seq![0u8];
                    AsmState {
                        symbols: with_offset(st.symbols, name, st.ro_offset),
                        ro: st.ro + added,
                        ro_offset: st.ro_offset.wrapping_add(added.len() as u32),
                        ..st
                    }
                },
            },
        }
    }
}

/// A section header: opens `.data` or `.code`; any other name is noted.
pub open spec fn section_step(st: AsmState, name: Seq<char>) -> AsmState {
    let sec = section_named(name);
    if sec == AssemblerSection::Unknown {
        AsmState {
            warnings: st.warnings.push(
                AssemblerWarning::UnknownSection { instruction: st.current_instruction },
            ),
            ..st
        }
    } else {
        AsmState { sections: st.sections.push(sec), current_section: Some(sec), ..st }
    }
}

/// A directive line: `.asciiz` with operands, a section header without.
pub open spec fn directive_step(st: AsmState, ins: InstructionView) -> AsmState {
    match directive_name(ins) {
        None => st,
        Some(name) => if has_operands(ins) {
            if name == "asciiz"@ {
                asciiz_step(st, ins)
            } else {
                AsmState {
                    errors: st.errors.push(ErrorView::UnknownDirectiveFound { directive: name }),
                    ..st
                }
            }
        } else {
            section_step(st, name)
        },
    }
}

pub open spec fn next_instruction(st: AsmState) -> AsmState {
    AsmState { current_instruction: st.current_instruction.wrapping_add(1), ..st }
}

/// One line of the first pass.
pub open spec fn first_pass_step(st: AsmState, ins: InstructionView) -> AsmState {
    let st1 = if ins.label is Some {
        if st.current_section is Some {
            label_step(st, ins)
        } else {
            AsmState {
                errors: st.errors.push(
                    ErrorView::NoSegmentDeclarationFound { instruction: st.current_instruction },
                ),
                ..st
            }
        }
    } else {
        st
    };
    let st2 = if ins.directive is Some {
        directive_step(st1, ins)
    } else {
        st1
    };
    next_instruction(st2)
}

pub open spec fn first_pass_lines(st: AsmState, lines: Seq<InstructionView>) -> AsmState
    decreases lines.len(),
{
    if lines.len() == 0 {
        st
    } else {
        first_pass_step(first_pass_lines(st, lines.drop_last()), lines.last())
    }
}

/// The state after the first pass over `lines`.
pub open spec fn first_pass(st: AsmState, lines: Seq<InstructionView>) -> AsmState {
    AsmState { phase: AssemblerPhase::Second, ..first_pass_lines(st, lines) }
}

/// Before a line with a mnemonic is encoded, its label, where it has one,
/// is given `offset`: the number of code bytes before it.
pub open spec fn mark_label(st: AsmState, ins: InstructionView, offset: int) -> AsmState {
    match label_name(ins) {
        Some(name) => if ins.opcode is Some {
            AsmState { symbols: with_offset(st.symbols, name, offset as u32), ..st }
        } else {
            st
        },
        None => st,
    }
}

/// One line of the second pass, from the state and the code so far: a line
/// with a mnemonic marks its label and adds its bytes; a directive line is
/// processed again.
pub open spec fn second_pass_step(acc: (AsmState, Seq<u8>), ins: InstructionView) -> (
    AsmState,
    Seq<u8>,
) {
    let st1 = mark_label(acc.0, ins, acc.1.len() as int);
    let code = if ins.opcode is Some {
        acc.1 + instruction_bytes(ins, st1.symbols)
    } else {
        acc.1
    };
    let st2 = if ins.directive is Some {
        directive_step(st1, ins)
    } else {
        st1
    };
    (next_instruction(st2), code)
}

pub open spec fn second_pass_lines(st: AsmState, lines: Seq<InstructionView>) -> (
    AsmState,
    Seq<u8>,
)
    decreases lines.len(),
{
    if lines.len() == 0 {
        (st, Seq::empty())
    } else {
        second_pass_step(second_pass_lines(st, lines.drop_last()), lines.last())
    }
}

/// The state after the second pass over `lines`, and the code it encoded.
pub open spec fn second_pass(st: AsmState, lines: Seq<InstructionView>) -> (AsmState, Seq<u8>) {
    second_pass_lines(AsmState { current_instruction: 0, ..st }, lines)
}

/// Whether both a data and a code section have been opened.
pub open spec fn has_both_sections(sections: Seq<AssemblerSection>) -> bool {
    (exists|k: int| 0 <= k < sections.len() && sections[k] is Data) && (exists|k: int|
        0 <= k < sections.len() && sections[k] is Code)
}

/// The file assembled from `lines` once the first pass has left `st`.
pub open spec fn assembled(st: AsmState, lines: Seq<InstructionView>) -> Seq<u8> {
    file_header(st.ro.len()) + st.ro + second_pass(st, lines).1
}

/// What `assemble` hands back and the state it leaves, from state `st` and
/// source text `src`.
pub open spec fn assembly(st: AsmState, src: Seq<char>) -> (Result<Seq<u8>, Seq<ErrorView>>, AsmState) {
    match parse_program(src) {
        None => (Err(seq![ErrorView::ParseError { position: parse_lines(src, 0).1 as usize }]), st),
        Some(lines) => {
            let st1 = first_pass(st, lines);
            if st1.errors.len() > 0 {
                (Err(st1.errors), st1)
            } else if !has_both_sections(st1.sections) {
                let st2 = AsmState { errors: st1.errors.push(ErrorView::InsufficientSections), ..st1 };
                (Err(st2.errors), st2)
            } else {
                (Ok(assembled(st1, lines)), second_pass(st1, lines).0)
            }
        },
    }
}

pub open spec fn result_view(r: Result<Vec<u8>, Vec<AssemblerError>>) -> Result<Seq<u8>, Seq<ErrorView>> {
    match r {
        Ok(b) => Ok(b@),
        Err(e) => Err(errors_view(e@)),
    }
}

/// The number of bytes an operand encodes to, counted from its kind alone.
pub open spec fn operand_width(t: Option<TokenView>, syms: Seq<SymbolView>) -> int {
    match t {
        Some(TokenView::Register { .. }) => 1,
        Some(TokenView::IntegerOperand { .. }) => 2,
        Some(TokenView::LabelUsage { name }) => if offset_of(syms, name) is Some {
            2
        } else {
            0
        },
        _ => 0,
    }
}

/// The width of a line with a mnemonic: one byte for the opcode and the
/// operands' bytes, at least four.
pub open spec fn instruction_width(ins: InstructionView, syms: Seq<SymbolView>) -> int {
    let raw = (if ins.opcode matches Some(TokenView::Op { .. }) {
        1int
    } else {
        0int
    }) + operand_width(ins.operand1, syms) + operand_width(ins.operand2, syms) + operand_width(
        ins.operand3,
        syms,
    );
    if 0 < raw < 4 {
        4
    } else {
        raw
    }
}

/// The total width of the lines with a mnemonic, each taken with the
/// symbols that the second pass from `st` encodes it with.
pub open spec fn code_width(st: AsmState, lines: Seq<InstructionView>) -> int
    decreases lines.len(),
{
    if lines.len() == 0 {
        0
    } else {
        let prev = second_pass_lines(st, lines.drop_last());
        code_width(st, lines.drop_last()) + if lines.last().opcode is Some {
            instruction_width(
                lines.last(),
                mark_label(prev.0, lines.last(), prev.1.len() as int).symbols,
            )
        } else {
            0
        }
    }
}

proof fn lemma_operand_width(t: Option<TokenView>, syms: Seq<SymbolView>)
    ensures
        optional_operand_bytes(t, syms).len() == operand_width(t, syms),
{
}

proof fn lemma_instruction_width(ins: InstructionView, syms: Seq<SymbolView>)
    ensures
        instruction_bytes(ins, syms).len() == instruction_width(ins, syms),
{
    lemma_operand_width(ins.operand1, syms);
    lemma_operand_width(ins.operand2, syms);
    lemma_operand_width(ins.operand3, syms);
}

proof fn lemma_code_width(st: AsmState, lines: Seq<InstructionView>)
    ensures
        second_pass_lines(st, lines).1.len() == code_width(st, lines),
    decreases lines.len(),
{
    if lines.len() > 0 {
        lemma_code_width(st, lines.drop_last());
        let prev = second_pass_lines(st, lines.drop_last());
        lemma_instruction_width(
            lines.last(),
            mark_label(prev.0, lines.last(), prev.1.len() as int).symbols,
        );
    }
}

/// Every file that `assemble` produces begins with the header prefix, and
/// its length is the header's, plus the read-only data's, plus the widths
/// of the instruction lines as their operand kinds give them.
pub proof fn lemma_assembled_layout(st: AsmState, src: Seq<char>)
    requires
        assembly(st, src).0 is Ok,
    ensures
        ({
            let lines = parse_program(src)->0;
            let st1 = first_pass(st, lines);
            let b = assembly(st, src).0->Ok_0;
            &&& b.subrange(0, 4) == header_prefix()
            &&& b.len() == 64 + st1.ro.len() + code_width(
                AsmState { current_instruction: 0, ..st1 },
                lines,
            )
        }),
{
    let lines = parse_program(src)->0;
    let st1 = first_pass(st, lines);
    lemma_code_width(AsmState { current_instruction: 0, ..st1 }, lines);
    let b = assembled(st1, lines);
    assert(b.subrange(0, 4) =~= header_prefix());
}

/// A label declared again in a section is refused: the line adds exactly
/// one `SymbolAlreadyDeclared` error and leaves the symbol table as it was.
pub proof fn lemma_duplicate_label(st: AsmState, ins: InstructionView)
    requires
        st.current_section is Some,
        ins.label matches Some(TokenView::LabelDeclaration { name }) && first_index(
            st.symbols,
            name,
        ) >= 0,
        ins.directive is None,
    ensures
        first_pass_step(st, ins).errors == st.errors.push(ErrorView::SymbolAlreadyDeclared),
        first_pass_step(st, ins).symbols == st.symbols,
{
}

/// Where the first pass finds any error, `assemble` fails with exactly the
/// errors found and the second pass never runs.
pub proof fn lemma_errors_stop_assembly(st: AsmState, src: Seq<char>)
    requires
        parse_program(src) is Some,
        first_pass(st, parse_program(src)->0).errors.len() > 0,
    ensures
        assembly(st, src) == (
            Err::<Seq<u8>, Seq<ErrorView>>(first_pass(st, parse_program(src)->0).errors),
            first_pass(st, parse_program(src)->0),
        ),
{
}

/// An `.asciiz` line without a label adds a warning, no error, and nothing
/// to the read-only data.
pub proof fn lemma_asciiz_without_label(st: AsmState, ins: InstructionView)
    requires
        st.phase == AssemblerPhase::First,
        ins.label is None,
        directive_name(ins) == Some("asciiz"@),
        string_constant(ins) is Some,
    ensures
        first_pass_step(st, ins).ro == st.ro,
        first_pass_step(st, ins).errors == st.errors,
        first_pass_step(st, ins).warnings == st.warnings.push(
            AssemblerWarning::StringConstantWithoutLabel { instruction: st.current_instruction },
        ),
{
}

/// A program whose first pass finds no error but that opens no data
/// section or no code section fails with `InsufficientSections` as its last
/// error, and gives no bytes.
pub proof fn lemma_missing_sections(st: AsmState, src: Seq<char>)
    requires
        parse_program(src) is Some,
        first_pass(st, parse_program(src)->0).errors.len() == 0,
        !has_both_sections(first_pass(st, parse_program(src)->0).sections),
    ensures
        assembly(st, src).0 is Err,
        assembly(st, src).0->Err_0.last() == ErrorView::InsufficientSections,
{
}

impl Assembler {
    pub fn new() -> (r: Assembler)
        ensures
            r@ == (AsmState {
                phase: AssemblerPhase::First,
                bytecode: Seq::empty(),
                symbols: Seq::empty(),
                ro: Seq::empty(),
                ro_offset: 0,
                sections: Seq::empty(),
                current_section: None,
                current_instruction: 0,
                errors: Seq::empty(),
                warnings: Seq::empty(),
            }),
    {
        let r = Assembler {
            phase: AssemblerPhase::First,
            symbols: SymbolTable::new(),
            ro: Vec::new(),
            bytecode: Vec::new(),
            ro_offset: 0,
            sections: Vec::new(),
            current_section: None,
            current_instruction: 0,
            errors: Vec::new(),
            warnings: Vec::new(),
        };
        assert(errors_view(r.errors@) =~= Seq::empty());
        r
    }

    fn push_error(&mut self, e: AssemblerError)
        ensures
            final(self)@ == (AsmState { errors: old(self)@.errors.push(e@), ..old(self)@ }),
    {
        self.errors.push(e);
        assert(errors_view(self.errors@) =~= errors_view(old(self).errors@).push(e@));
    }

    /// Assembles `raw`: a header, the read-only data and the encoded
    /// instructions, or every error found.
    pub fn assemble(&mut self, raw: &str) -> (r: Result<Vec<u8>, Vec<AssemblerError>>)
        ensures
            (result_view(r), final(self)@) == assembly(old(self)@, raw@),
    {
        match program(raw) {
            Ok((_rest, p)) => {
                self.process_first_phase(&p);
                if self.errors.len() > 0 {
                    return Err(self.copy_errors());
                }
                if !self.has_data_and_code() {
                    self.push_error(AssemblerError::InsufficientSections);
                    return Err(self.copy_errors());
                }
                let ghost st1 = self@;
                let ro = self.ro.clone();
                let mut body = self.process_second_phase(&p);
                let mut assembled_program = self.write_pie_header_for(ro.len());
                let mut ro = ro;
                assembled_program.append(&mut ro);
                assembled_program.append(&mut body);
                assert(assembled_program@ =~= assembled(st1, p@));
                Ok(assembled_program)
            },
            Err(e) => {
                let mut errors: Vec<AssemblerError> = Vec::new();
                errors.push(AssemblerError::ParseError { position: e.position });
                assert(errors_view(errors@) =~= seq![
                    ErrorView::ParseError { position: parse_lines(raw@, 0).1 as usize },
                ]);
                Err(errors)
            },
        }
    }

    fn copy_errors(&self) -> (r: Vec<AssemblerError>)
        ensures
            errors_view(r@) == self@.errors,
    {
        let mut out: Vec<AssemblerError> = Vec::new();
        let mut k: usize = 0;
        while k < self.errors.len()
            invariant
                k <= self.errors@.len(),
                errors_view(out@) =~= errors_view(self.errors@).subrange(0, k as int),
            decreases self.errors@.len() - k,
        {
            let e = copy_error(&self.errors[k]);
            let ghost before = out@;
            out.push(e);
            assert(out@ == before.push(e));
            assert(errors_view(out@) =~= errors_view(before).push(e@));
            assert(errors_view(self.errors@)[k as int] == self.errors@[k as int]@);
            assert(errors_view(out@) =~= errors_view(self.errors@).subrange(0, k + 1));
            k = k + 1;
        }
        assert(errors_view(self.errors@).subrange(0, self.errors@.len() as int) =~= errors_view(
            self.errors@,
        ));
        out
    }

    fn has_data_and_code(&self) -> (r: bool)
        ensures
            r == has_both_sections(self.sections@),
    {
        let mut data = false;
        let mut code = false;
        let mut k: usize = 0;
        while k < self.sections.len()
            invariant
                k <= self.sections@.len(),
                data == exists|j: int| 0 <= j < k && self.sections@[j] is Data,
                code == exists|j: int| 0 <= j < k && self.sections@[j] is Code,
            decreases self.sections@.len() - k,
        {
            match self.sections[k] {
                AssemblerSection::Data { .. } => {
                    data = true;
                },
                AssemblerSection::Code { .. } => {
                    code = true;
                },
                AssemblerSection::Unknown => {},
            }
            k = k + 1;
        }
        data && code
    }

    /// The header for read-only data of `ro_len` bytes.
    fn write_pie_header_for(&self, ro_len: usize) -> (r: Vec<u8>)
        ensures
            r@ == file_header(ro_len as nat),
    {
        let mut header: Vec<u8> = Vec::new();
        let prefix = PIE_HEADER_PREFIX;
        header.push(prefix[0]);
        header.push(prefix[1]);
        header.push(prefix[2]);
        header.push(prefix[3]);
        let mut wtr = u32_to_le_bytes(ro_len as u32);
        header.append(&mut wtr);
        assert(header@ =~= header_prefix() + le32(ro_len as u32));
        while header.len() < PIE_HEADER_LENGTH
            invariant
                8 <= header@.len() <= 64,
                header@ =~= header_prefix() + le32(ro_len as u32) + zeros((header@.len() - 8) as nat),
            decreases 64 - header@.len(),
        {
            header.push(0);
            assert(header@ =~= header_prefix() + le32(ro_len as u32) + zeros(
                (header@.len() - 8) as nat,
            ));
        }
        header
    }

    /// The header for the read-only data gathered so far.
    pub fn write_pie_header(&self) -> (r: Vec<u8>)
        ensures
            r@ == file_header(self.ro@.len()),
    {
        self.write_pie_header_for(self.ro.len())
    }

    /// The first pass: declares labels, opens sections and lays out the
    /// read-only data.
    pub fn process_first_phase(&mut self, p: &Program)
        ensures
            final(self)@ == first_pass(old(self)@, p@),
    {
        let mut k: usize = 0;
        while k < p.instructions.len()
            invariant
                k <= p@.len(),
                p@.len() == p.instructions@.len(),
                self@ == first_pass_lines(old(self)@, p@.subrange(0, k as int)),
            decreases p@.len() - k,
        {
            let i = &p.instructions[k];
            assert(p@[k as int] == i@);
            if i.is_label() {
                if self.current_section.is_some() {
                    self.process_label_declaration(i);
                } else {
                    let e = AssemblerError::NoSegmentDeclarationFound {
                        instruction: self.current_instruction,
                    };
                    self.push_error(e);
                }
            }
            if i.is_directive() {
                self.process_directive(i);
            }
            self.current_instruction = self.current_instruction.wrapping_add(1);
            assert(p@.subrange(0, k + 1).drop_last() =~= p@.subrange(0, k as int));
            k = k + 1;
        }
        assert(p@.subrange(0, p@.len() as int) =~= p@);
        self.phase = AssemblerPhase::Second;
    }

    /// The second pass: the bytes of every line with a mnemonic, each
    /// label of such a line standing for the code offset where it begins.
    pub fn process_second_phase(&mut self, p: &Program) -> (r: Vec<u8>)
        ensures
            (final(self)@, r@) == second_pass(old(self)@, p@),
    {
        self.current_instruction = 0;
        let ghost start = self@;
        let mut program: Vec<u8> = Vec::new();
        let mut k: usize = 0;
        while k < p.instructions.len()
            invariant
                k <= p@.len(),
                p@.len() == p.instructions@.len(),
                (self@, program@) == second_pass_lines(start, p@.subrange(0, k as int)),
            decreases p@.len() - k,
        {
            let i = &p.instructions[k];
            assert(p@[k as int] == i@);
            if i.is_opcode() {
                if let Some(name) = i.get_label_name() {
                    let offset = #[verifier::truncate] (program.len() as u32);
                    self.symbols.set_symbol_offset(name.as_str(), offset);
                }
                let mut bytes = i.to_bytes(&self.symbols);
                program.append(&mut bytes);
            }
            if i.is_directive() {
                self.process_directive(i);
            }
            self.current_instruction = self.current_instruction.wrapping_add(1);
            assert(p@.subrange(0, k + 1).drop_last() =~= p@.subrange(0, k as int));
            k = k + 1;
        }
        assert(p@.subrange(0, p@.len() as int) =~= p@);
        program
    }

    /// A label declaration on a line of the first pass.
    pub fn process_label_declaration(&mut self, i: &AssemblerInstruction)
        ensures
            final(self)@ == label_step(old(self)@, i@),
    {
        let name = match i.get_label_name() {
            Some(name) => name,
            None => {
                let e = AssemblerError::StringConstantDeclaredWithoutLabel {
                    instruction: self.current_instruction,
                };
                self.push_error(e);
                return ;
            },
        };
        if self.symbols.has_symbol(name.as_str()) {
            self.push_error(AssemblerError::SymbolAlreadyDeclared);
            return ;
        }
        let symbol = Symbol::new(name, SymbolType::Label);
        self.symbols.add_symbol(symbol);
    }

    pub fn process_directive(&mut self, i: &AssemblerInstruction)
        ensures
            final(self)@ == directive_step(old(self)@, i@),
    {
        let directive_name = match i.get_directive_name() {
            Some(name) => name,
            None => {
                return ;
            },
        };
        if i.has_operands() {
            if text_eq(directive_name.as_str(), "asciiz") {
                self.handle_asciiz(i);
            } else {
                self.push_error(AssemblerError::UnknownDirectiveFound { directive: directive_name });
            }
        } else {
            self.process_section_header(directive_name.as_str());
        }
    }

    /// A string constant such as `hello: .asciiz 'Hello!'`, which counts in
    /// the first pass only.
    pub fn handle_asciiz(&mut self, i: &AssemblerInstruction)
        ensures
            final(self)@ == asciiz_step(old(self)@, i@),
    {
        if self.phase != AssemblerPhase::First {
            return ;
        }
        match i.get_string_constant() {
            Some(s) => {
                match i.get_label_name() {
                    Some(name) => {
                        self.symbols.set_symbol_offset(name.as_str(), self.ro_offset);
                    },
                    None => {
                        self.warnings.push(
                            AssemblerWarning::StringConstantWithoutLabel {
                                instruction: self.current_instruction,
                            },
                        );
                        return ;
                    },
                };
                let bytes = s.as_str().as_bytes();
                let mut extra: Vec<u8> = Vec::new();
                let mut k: usize = 0;
                while k < bytes.len()
                    invariant
                        k <= bytes@.len(),
                        extra@ == bytes@.subrange(0, k as int),
                    decreases bytes@.len() - k,
                {
                    extra.push(bytes[k]);
                    assert(extra@ =~= bytes@.subrange(0, k + 1));
                    k = k + 1;
                }
                extra.push(0);
                assert(extra@ =~= bytes@ + seq![0u8]);
                let added = #[verifier::truncate] (extra.len() as u32);
                self.ro.append(&mut extra);
                self.ro_offset = self.ro_offset.wrapping_add(added);
                proof {
                    let st = old(self)@;
                    let name = label_name(i@)->0;
                    assert(self@.symbols == with_offset(st.symbols, name, st.ro_offset));
                    assert(self@.ro == st.ro + encode_utf8(string_constant(i@)->0) + seq![0u8]);
                    assert(self@.errors == st.errors);
                    assert(self@.warnings == st.warnings);
                    assert(self@.sections == st.sections);
                }
            },
            None => {
                self.warnings.push(
                    AssemblerWarning::MissingStringConstant {
                        instruction: self.current_instruction,
                    },
                );
            },
        }
    }

    pub fn process_section_header(&mut self, header_name: &str)
        ensures
            final(self)@ == section_step(old(self)@, header_name@),
    {
        let new_section = AssemblerSection::from(header_name);
        if new_section == AssemblerSection::Unknown {
            self.warnings.push(
                AssemblerWarning::UnknownSection { instruction: self.current_instruction },
            );
            return ;
        }
        self.sections.push(new_section);
        self.current_section = Some(new_section);
    }
}

} // verus!
