//! The instruction set: every operation the virtual machine knows, its
//! one-byte encoding and its assembly mnemonic.
use vstd::prelude::*;

use crate::text::{chars_of, same_text};

verus! {

/// One operation of the virtual machine.
#[derive(Debug, PartialEq, Eq, Clone, Copy, Structural)]
pub enum Opcode {
    LOAD,
    ADD,
    SUB,
    MUL,
    DIV,
    HLT,
    JMP,
    JMPF,
    JMPB,
    EQ,
    NEQ,
    GTE,
    LTE,
    LT,
    GT,
    JMPE,
    NOP,
    ALOC,
    INC,
    DEC,
    DJMPE,
    IGL,
    PRTS,
    LOADF64,
    ADDF64,
    SUBF64,
    MULF64,
    DIVF64,
    EQF64,
    NEQF64,
    GTF64,
    GTEF64,
    LTF64,
    LTEF64,
    SHL,
    SHR,
    AND,
    OR,
    XOR,
    NOT,
    LUI,
    CLOOP,
    LOOP,
    LOADM,
    SETM,
    PUSH,
    POP,
    CALL,
    RET,
}

/// The byte that encodes `op`: 0 to 47 for the real operations, 100 for `IGL`.
pub open spec fn opcode_byte(op: Opcode) -> u8 {
    match op {
        Opcode::LOAD => 0,
        Opcode::ADD => 1,
        Opcode::SUB => 2,
        Opcode::MUL => 3,
        Opcode::DIV => 4,
        Opcode::HLT => 5,
        Opcode::JMP => 6,
        Opcode::JMPF => 7,
        Opcode::JMPB => 8,
        Opcode::EQ => 9,
        Opcode::NEQ => 10,
        Opcode::GTE => 11,
        Opcode::LTE => 12,
        Opcode::LT => 13,
        Opcode::GT => 14,
        Opcode::JMPE => 15,
        Opcode::NOP => 16,
        Opcode::ALOC => 17,
        Opcode::INC => 18,
        Opcode::DEC => 19,
        Opcode::DJMPE => 20,
        Opcode::PRTS => 21,
        Opcode::LOADF64 => 22,
        Opcode::ADDF64 => 23,
        Opcode::SUBF64 => 24,
        Opcode::MULF64 => 25,
        Opcode::DIVF64 => 26,
        Opcode::EQF64 => 27,
        Opcode::NEQF64 => 28,
        Opcode::GTF64 => 29,
        Opcode::GTEF64 => 30,
        Opcode::LTF64 => 31,
        Opcode::LTEF64 => 32,
        Opcode::SHL => 33,
        Opcode::SHR => 34,
        Opcode::AND => 35,
        Opcode::OR => 36,
        Opcode::XOR => 37,
        Opcode::NOT => 38,
        Opcode::LUI => 39,
        Opcode::CLOOP => 40,
        Opcode::LOOP => 41,
        Opcode::LOADM => 42,
        Opcode::SETM => 43,
        Opcode::PUSH => 44,
        Opcode::POP => 45,
        Opcode::CALL => 46,
        Opcode::RET => 47,
        Opcode::IGL => 100,
    }
}

/// The operation that byte `b` decodes to; a byte that encodes no
/// operation decodes to `IGL`.
pub open spec fn opcode_of_byte(b: u8) -> Opcode {
    if b == 0 { Opcode::LOAD }
    else if b == 1 { Opcode::ADD }
    else if b == 2 { Opcode::SUB }
    else if b == 3 { Opcode::MUL }
    else if b == 4 { Opcode::DIV }
    else if b == 5 { Opcode::HLT }
    else if b == 6 { Opcode::JMP }
    else if b == 7 { Opcode::JMPF }
    else if b == 8 { Opcode::JMPB }
    else if b == 9 { Opcode::EQ }
    else if b == 10 { Opcode::NEQ }
    else if b == 11 { Opcode::GTE }
    else if b == 12 { Opcode::LTE }
    else if b == 13 { Opcode::LT }
    else if b == 14 { Opcode::GT }
    else if b == 15 { Opcode::JMPE }
    else if b == 16 { Opcode::NOP }
    else if b == 17 { Opcode::ALOC }
    else if b == 18 { Opcode::INC }
    else if b == 19 { Opcode::DEC }
    else if b == 20 { Opcode::DJMPE }
    else if b == 21 { Opcode::PRTS }
    else if b == 22 { Opcode::LOADF64 }
    else if b == 23 { Opcode::ADDF64 }
    else if b == 24 { Opcode::SUBF64 }
    else if b == 25 { Opcode::MULF64 }
    else if b == 26 { Opcode::DIVF64 }
    else if b == 27 { Opcode::EQF64 }
    else if b == 28 { Opcode::NEQF64 }
    else if b == 29 { Opcode::GTF64 }
    else if b == 30 { Opcode::GTEF64 }
    else if b == 31 { Opcode::LTF64 }
    else if b == 32 { Opcode::LTEF64 }
    else if b == 33 { Opcode::SHL }
    else if b == 34 { Opcode::SHR }
    else if b == 35 { Opcode::AND }
    else if b == 36 { Opcode::OR }
    else if b == 37 { Opcode::XOR }
    else if b == 38 { Opcode::NOT }
    else if b == 39 { Opcode::LUI }
    else if b == 40 { Opcode::CLOOP }
    else if b == 41 { Opcode::LOOP }
    else if b == 42 { Opcode::LOADM }
    else if b == 43 { Opcode::SETM }
    else if b == 44 { Opcode::PUSH }
    else if b == 45 { Opcode::POP }
    else if b == 46 { Opcode::CALL }
    else if b == 47 { Opcode::RET }
    else { Opcode::IGL }
}

/// The operation whose mnemonic is exactly `s` (lower case); any other
/// text names `IGL`.
pub open spec fn opcode_named(s: Seq<char>) -> Opcode {
    if s == "load"@ { Opcode::LOAD }
    else if s == "add"@ { Opcode::ADD }
    else if s == "sub"@ { Opcode::SUB }
    else if s == "mul"@ { Opcode::MUL }
    else if s == "div"@ { Opcode::DIV }
    else if s == "hlt"@ { Opcode::HLT }
    else if s == "jmp"@ { Opcode::JMP }
    else if s == "jmpf"@ { Opcode::JMPF }
    else if s == "jmpb"@ { Opcode::JMPB }
    else if s == "eq"@ { Opcode::EQ }
    else if s == "neq"@ { Opcode::NEQ }
    else if s == "gte"@ { Opcode::GTE }
    else if s == "lte"@ { Opcode::LTE }
    else if s == "lt"@ { Opcode::LT }
    else if s == "gt"@ { Opcode::GT }
    else if s == "jmpe"@ { Opcode::JMPE }
    else if s == "nop"@ { Opcode::NOP }
    else if s == "aloc"@ { Opcode::ALOC }
    else if s == "inc"@ { Opcode::INC }
    else if s == "dec"@ { Opcode::DEC }
    else if s == "djmpe"@ { Opcode::DJMPE }
    else if s == "igl"@ { Opcode::IGL }
    else if s == "prts"@ { Opcode::PRTS }
    else if s == "loadf64"@ { Opcode::LOADF64 }
    else if s == "addf64"@ { Opcode::ADDF64 }
    else if s == "subf64"@ { Opcode::SUBF64 }
    else if s == "mulf64"@ { Opcode::MULF64 }
    else if s == "divf64"@ { Opcode::DIVF64 }
    else if s == "eqf64"@ { Opcode::EQF64 }
    else if s == "neqf64"@ { Opcode::NEQF64 }
    else if s == "gtf64"@ { Opcode::GTF64 }
    else if s == "gtef64"@ { Opcode::GTEF64 }
    else if s == "ltf64"@ { Opcode::LTF64 }
    else if s == "ltef64"@ { Opcode::LTEF64 }
    else if s == "shl"@ { Opcode::SHL }
    else if s == "shr"@ { Opcode::SHR }
    else if s == "and"@ { Opcode::AND }
    else if s == "or"@ { Opcode::OR }
    else if s == "xor"@ { Opcode::XOR }
    else if s == "not"@ { Opcode::NOT }
    else if s == "lui"@ { Opcode::LUI }
    else if s == "cloop"@ { Opcode::CLOOP }
    else if s == "loop"@ { Opcode::LOOP }
    else if s == "loadm"@ { Opcode::LOADM }
    else if s == "setm"@ { Opcode::SETM }
    else if s == "push"@ { Opcode::PUSH }
    else if s == "pop"@ { Opcode::POP }
    else if s == "call"@ { Opcode::CALL }
    else if s == "ret"@ { Opcode::RET }
    else { Opcode::IGL }
}

impl Opcode {
    /// The encoding byte of this operation.
    pub fn to_byte(self) -> (r: u8)
        ensures
            r == opcode_byte(self),
    {
        match self {
            Opcode::LOAD => 0,
            Opcode::ADD => 1,
            Opcode::SUB => 2,
            Opcode::MUL => 3,
            Opcode::DIV => 4,
            Opcode::HLT => 5,
            Opcode::JMP => 6,
            Opcode::JMPF => 7,
            Opcode::JMPB => 8,
            Opcode::EQ => 9,
            Opcode::NEQ => 10,
            Opcode::GTE => 11,
            Opcode::LTE => 12,
            Opcode::LT => 13,
            Opcode::GT => 14,
            Opcode::JMPE => 15,
            Opcode::NOP => 16,
            Opcode::ALOC => 17,
            Opcode::INC => 18,
            Opcode::DEC => 19,
            Opcode::DJMPE => 20,
            Opcode::PRTS => 21,
            Opcode::LOADF64 => 22,
            Opcode::ADDF64 => 23,
            Opcode::SUBF64 => 24,
            Opcode::MULF64 => 25,
            Opcode::DIVF64 => 26,
            Opcode::EQF64 => 27,
            Opcode::NEQF64 => 28,
            Opcode::GTF64 => 29,
            Opcode::GTEF64 => 30,
            Opcode::LTF64 => 31,
            Opcode::LTEF64 => 32,
            Opcode::SHL => 33,
            Opcode::SHR => 34,
            Opcode::AND => 35,
            Opcode::OR => 36,
            Opcode::XOR => 37,
            Opcode::NOT => 38,
            Opcode::LUI => 39,
            Opcode::CLOOP => 40,
            Opcode::LOOP => 41,
            Opcode::LOADM => 42,
            Opcode::SETM => 43,
            Opcode::PUSH => 44,
            Opcode::POP => 45,
            Opcode::CALL => 46,
            Opcode::RET => 47,
            Opcode::IGL => 100,
        }
    }

    /// Decodes one byte of a program.
    pub fn from_byte(value: u8) -> (r: Opcode)
        ensures
            r == opcode_of_byte(value),
    {
        match value {
            0 => Opcode::LOAD,
            1 => Opcode::ADD,
            2 => Opcode::SUB,
            3 => Opcode::MUL,
            4 => Opcode::DIV,
            5 => Opcode::HLT,
            6 => Opcode::JMP,
            7 => Opcode::JMPF,
            8 => Opcode::JMPB,
            9 => Opcode::EQ,
            10 => Opcode::NEQ,
            11 => Opcode::GTE,
            12 => Opcode::LTE,
            13 => Opcode::LT,
            14 => Opcode::GT,
            15 => Opcode::JMPE,
            16 => Opcode::NOP,
            17 => Opcode::ALOC,
            18 => Opcode::INC,
            19 => Opcode::DEC,
            20 => Opcode::DJMPE,
            21 => Opcode::PRTS,
            22 => Opcode::LOADF64,
            23 => Opcode::ADDF64,
            24 => Opcode::SUBF64,
            25 => Opcode::MULF64,
            26 => Opcode::DIVF64,
            27 => Opcode::EQF64,
            28 => Opcode::NEQF64,
            29 => Opcode::GTF64,
            30 => Opcode::GTEF64,
            31 => Opcode::LTF64,
            32 => Opcode::LTEF64,
            33 => Opcode::SHL,
            34 => Opcode::SHR,
            35 => Opcode::AND,
            36 => Opcode::OR,
            37 => Opcode::XOR,
            38 => Opcode::NOT,
            39 => Opcode::LUI,
            40 => Opcode::CLOOP,
            41 => Opcode::LOOP,
            42 => Opcode::LOADM,
            43 => Opcode::SETM,
            44 => Opcode::PUSH,
            45 => Opcode::POP,
            46 => Opcode::CALL,
            47 => Opcode::RET,
            _ => Opcode::IGL,
        }
    }
}

/// Looks up a lower-case mnemonic; unknown text gives `IGL`.
pub fn opcode_from_name(s: &[char]) -> (r: Opcode)
    ensures
        r == opcode_named(s@),
{
    if same_text(s, "load") { Opcode::LOAD }
    else if same_text(s, "add") { Opcode::ADD }
    else if same_text(s, "sub") { Opcode::SUB }
    else if same_text(s, "mul") { Opcode::MUL }
    else if same_text(s, "div") { Opcode::DIV }
    else if same_text(s, "hlt") { Opcode::HLT }
    else if same_text(s, "jmp") { Opcode::JMP }
    else if same_text(s, "jmpf") { Opcode::JMPF }
    else if same_text(s, "jmpb") { Opcode::JMPB }
    else if same_text(s, "eq") { Opcode::EQ }
    else if same_text(s, "neq") { Opcode::NEQ }
    else if same_text(s, "gte") { Opcode::GTE }
    else if same_text(s, "lte") { Opcode::LTE }
    else if same_text(s, "lt") { Opcode::LT }
    else if same_text(s, "gt") { Opcode::GT }
    else if same_text(s, "jmpe") { Opcode::JMPE }
    else if same_text(s, "nop") { Opcode::NOP }
    else if same_text(s, "aloc") { Opcode::ALOC }
    else if same_text(s, "inc") { Opcode::INC }
    else if same_text(s, "dec") { Opcode::DEC }
    else if same_text(s, "djmpe") { Opcode::DJMPE }
    else if same_text(s, "igl") { Opcode::IGL }
    else if same_text(s, "prts") { Opcode::PRTS }
    else if same_text(s, "loadf64") { Opcode::LOADF64 }
    else if same_text(s, "addf64") { Opcode::ADDF64 }
    else if same_text(s, "subf64") { Opcode::SUBF64 }
    else if same_text(s, "mulf64") { Opcode::MULF64 }
    else if same_text(s, "divf64") { Opcode::DIVF64 }
    else if same_text(s, "eqf64") { Opcode::EQF64 }
    else if same_text(s, "neqf64") { Opcode::NEQF64 }
    else if same_text(s, "gtf64") { Opcode::GTF64 }
    else if same_text(s, "gtef64") { Opcode::GTEF64 }
    else if same_text(s, "ltf64") { Opcode::LTF64 }
    else if same_text(s, "ltef64") { Opcode::LTEF64 }
    else if same_text(s, "shl") { Opcode::SHL }
    else if same_text(s, "shr") { Opcode::SHR }
    else if same_text(s, "and") { Opcode::AND }
    else if same_text(s, "or") { Opcode::OR }
    else if same_text(s, "xor") { Opcode::XOR }
    else if same_text(s, "not") { Opcode::NOT }
    else if same_text(s, "lui") { Opcode::LUI }
    else if same_text(s, "cloop") { Opcode::CLOOP }
    else if same_text(s, "loop") { Opcode::LOOP }
    else if same_text(s, "loadm") { Opcode::LOADM }
    else if same_text(s, "setm") { Opcode::SETM }
    else if same_text(s, "push") { Opcode::PUSH }
    else if same_text(s, "pop") { Opcode::POP }
    else if same_text(s, "call") { Opcode::CALL }
    else if same_text(s, "ret") { Opcode::RET }
    else { Opcode::IGL }
}

impl From<u8> for Opcode {
    fn from(value: u8) -> (r: Opcode) {
        Opcode::from_byte(value)
    }
}

impl vstd::std_specs::convert::FromSpecImpl<u8> for Opcode {
    open spec fn obeys_from_spec() -> bool {
        true
    }

    open spec fn from_spec(v: u8) -> Opcode {
        opcode_of_byte(v)
    }
}

impl From<Opcode> for u8 {
    fn from(value: Opcode) -> (r: u8) {
        value.to_byte()
    }
}

impl vstd::std_specs::convert::FromSpecImpl<Opcode> for u8 {
    open spec fn obeys_from_spec() -> bool {
        true
    }

    open spec fn from_spec(v: Opcode) -> u8 {
        opcode_byte(v)
    }
}

impl From<&str> for Opcode {
    fn from(value: &str) -> (r: Opcode) {
        let chars = chars_of(value);
        opcode_from_name(chars.as_slice())
    }
}

impl vstd::std_specs::convert::FromSpecImpl<&str> for Opcode {
    open spec fn obeys_from_spec() -> bool {
        true
    }

    open spec fn from_spec(v: &str) -> Opcode {
        opcode_named(v@)
    }
}

/// A single decoded operation.
pub struct Instruction {
    pub opcode: Opcode,
}

impl Instruction {
    pub fn new(opcode: Opcode) -> (r: Instruction)
        ensures
            r.opcode == opcode,
    {
        Instruction { opcode }
    }
}

} // verus!
