//! The virtual machine: registers, memory and the fetch-decode-execute loop.
use vstd::prelude::*;

use crate::assembler::{header_prefix, PIE_HEADER_LENGTH, PIE_HEADER_PREFIX};
use crate::bytes::{le32_value, u32_from_le_bytes};
use crate::host::{append_text, decode_text, logical_core_count, new_id, now_millis};
use crate::instruction::{opcode_of_byte, Opcode};
use vstd::utf8::{decode_utf8, valid_utf8};

verus! {

/// The size of the heap of a new machine.
pub const DEFAULT_HEAP_STARTING_SIZE: usize = 64;

/// Stop code of `HLT`.
pub const HALTED: u32 = 0;

/// Stop code of a program counter past the end of the program.
pub const RAN_OFF_END: u32 = 1;

/// Crash code of a file whose header is wrong.
pub const BAD_HEADER: u32 = 1;

/// Crash code of `IGL` and of every operation the machine does not carry out.
pub const ILLEGAL_INSTRUCTION: u32 = 1;

/// Crash code of a division by zero, or of `i32::MIN` divided by -1.
pub const DIVISION_FAULT: u32 = 2;

/// Crash code of a jump to a negative address or past the address range.
pub const JUMP_FAULT: u32 = 3;

/// Crash code of a register index of 32 or more.
pub const REGISTER_FAULT: u32 = 4;

/// Crash code of an instruction whose operands run past the end of the program.
pub const TRUNCATED_INSTRUCTION: u32 = 5;

/// Crash code of `PRTS` at an offset with no zero byte at or after it.
pub const STRING_FAULT: u32 = 6;

/// Crash code of an allocation that would overflow the address range.
pub const ALLOCATION_FAULT: u32 = 7;

/// Crash code of a run that used up its step budget.
pub const STEP_LIMIT: u32 = 8;

/// The number of integer registers.
pub const REGISTER_COUNT: usize = 32;

/// What one step of the machine came to.
#[derive(Debug, PartialEq, Eq, Clone, Copy, Structural)]
pub enum Step {
    /// Go on with the next instruction.
    Continue,
    /// The program stopped as it should.
    Halt { code: u32 },
    /// The program cannot go on.
    Crash { code: u32 },
    /// A floating-point instruction, decoded with its three operand bytes,
    /// for the host's floating-point registers; the machine goes on after it.
    Float { opcode: Opcode, a: u8, b: u8, c: u8 },
}

#[derive(Debug, PartialEq, Eq, Clone, Copy, Structural)]
pub enum VMEventType {
    Start,
    GracefulStop { code: u32 },
    Crash { code: u32 },
}

/// One entry of a machine's log: what happened, when (milliseconds since
/// the Unix epoch) and on which machine.
#[derive(Debug, PartialEq, Eq, Clone, Copy, Structural)]
pub struct VMEvent {
    pub event: VMEventType,
    pub at: i64,
    pub application_id: u128,
}

/// The machine. Floating-point registers belong to the host: the machine
/// decodes floating-point instructions and hands them out (see `Step`).
#[derive(Debug, Clone)]
pub struct VM {
    pub registers: [i32; 32],
    pub program: Vec<u8>,
    pub logical_cores: usize,
    pub alias: Option<String>,
    /// The index of the next byte to decode.
    pub pc: usize,
    pub heap: Vec<u8>,
    pub stack: Vec<u8>,
    /// The remainder of the last integer division.
    pub remainder: i32,
    /// The result of the last comparison.
    pub equal_flag: bool,
    pub loop_counter: usize,
    pub ro_data: Vec<u8>,
    pub id: u128,
    pub events: Vec<VMEvent>,
    pub server_addr: Option<String>,
    pub server_port: Option<String>,
    /// The text that `PRTS` has written.
    pub output: String,
    /// The read-only offsets at which `PRTS` found bytes that are no UTF-8.
    pub print_errors: Vec<usize>,
}

/// The part of the machine that instructions read and write.
pub struct MachineState {
    pub registers: Seq<i32>,
    pub program: Seq<u8>,
    pub pc: int,
    pub heap: Seq<u8>,
    pub remainder: i32,
    pub equal_flag: bool,
    pub ro_data: Seq<u8>,
    pub output: Seq<char>,
    pub print_errors: Seq<usize>,
}

impl VM {
    pub open spec fn state(&self) -> MachineState {
        MachineState {
            registers: self.registers@,
            program: self.program@,
            pc: self.pc as int,
            heap: self.heap@,
            remainder: self.remainder,
            equal_flag: self.equal_flag,
            ro_data: self.ro_data@,
            output: self.output@,
            print_errors: self.print_errors@,
        }
    }
}

/// `a` and `b` agree on every field that instructions neither read nor write.
pub open spec fn keeps_host_fields(a: VM, b: VM) -> bool {
    &&& a.stack == b.stack
    &&& a.loop_counter == b.loop_counter
    &&& a.alias == b.alias
    &&& a.logical_cores == b.logical_cores
    &&& a.server_addr == b.server_addr
    &&& a.server_port == b.server_port
    &&& a.id == b.id
}

/// A 16-bit big-endian value read as a signed number.
pub open spec fn signed16(hi: u8, lo: u8) -> i32 {
    let v = hi * 256 + lo;
    if v >= 32768 {
        (v - 65536) as i32
    } else {
        v as i32
    }
}

/// The first zero byte at or after `k`, or the length where there is none.
pub open spec fn zero_at_or_after(b: Seq<u8>, k: int) -> int
    decreases b.len() - k,
{
    if k < 0 || k >= b.len() {
        b.len() as int
    } else if b[k] == 0 {
        k
    } else {
        zero_at_or_after(b, k + 1)
    }
}

/// The number of bytes after the opcode that `op` occupies. Every
/// instruction but the halts and the jumps that always set the counter
/// fills a 4-byte slot, as the assembler pads it; the bytes it does not use
/// are skipped.
pub open spec fn operand_count(op: Opcode) -> int {
    match op {
        Opcode::HLT | Opcode::IGL => 0,
        Opcode::JMP | Opcode::JMPF | Opcode::JMPB => 1,
        _ => 3,
    }
}

pub open spec fn is_float_op(op: Opcode) -> bool {
    match op {
        Opcode::LOADF64 | Opcode::ADDF64 | Opcode::SUBF64 | Opcode::MULF64 | Opcode::DIVF64
        | Opcode::EQF64 | Opcode::NEQF64 | Opcode::GTF64 | Opcode::GTEF64 | Opcode::LTF64
        | Opcode::LTEF64 => true,
        _ => false,
    }
}

/// Whether the machine carries out `op` at all.
pub open spec fn is_implemented(op: Opcode) -> bool {
    match op {
        Opcode::LOAD | Opcode::ADD | Opcode::SUB | Opcode::MUL | Opcode::DIV | Opcode::HLT
        | Opcode::JMP | Opcode::JMPF | Opcode::JMPB | Opcode::EQ | Opcode::NEQ | Opcode::GTE
        | Opcode::LTE | Opcode::LT | Opcode::GT | Opcode::JMPE | Opcode::ALOC | Opcode::PRTS
        | Opcode::SHL | Opcode::SHR | Opcode::AND => true,
        _ => is_float_op(op),
    }
}

/// The number of registers among the operands of `op`, counted from the first.
pub open spec fn register_operands(op: Opcode) -> int {
    match op {
        Opcode::LOAD | Opcode::JMP | Opcode::JMPF | Opcode::JMPB | Opcode::JMPE | Opcode::ALOC
        | Opcode::SHL | Opcode::SHR | Opcode::LOADF64 => 1,
        Opcode::EQ | Opcode::NEQ | Opcode::GTE | Opcode::LTE | Opcode::LT | Opcode::GT
        | Opcode::EQF64 | Opcode::NEQF64 | Opcode::GTF64 | Opcode::GTEF64 | Opcode::LTF64
        | Opcode::LTEF64 => 2,
        Opcode::ADD | Opcode::SUB | Opcode::MUL | Opcode::DIV | Opcode::ADDF64 | Opcode::SUBF64
        | Opcode::MULF64 | Opcode::DIVF64 => 3,
        _ => 0,
    }
}

pub open spec fn crash(s: MachineState, code: u32) -> (MachineState, Step) {
    (MachineState { pc: s.pc + 1, ..s }, Step::Crash { code })
}

pub open spec fn compare(op: Opcode, x: i32, y: i32) -> bool {
    match op {
        Opcode::EQ => x == y,
        Opcode::NEQ => x != y,
        Opcode::GTE => x >= y,
        Opcode::LTE => x <= y,
        Opcode::LT => x < y,
        _ => x > y,
    }
}

/// A jump to address `t`: a negative one is a fault.
pub open spec fn jump_to(s: MachineState, t: int) -> (MachineState, Step) {
    if t < 0 || t > usize::MAX {
        crash(s, JUMP_FAULT)
    } else {
        (MachineState { pc: t, ..s }, Step::Continue)
    }
}

/// One fetch-decode-execute step on a machine whose counter is in the program.
/// A crash leaves everything but the counter, which moves past the opcode.
pub open spec fn step(s: MachineState) -> (MachineState, Step) {
    let p = s.program;
    let pc = s.pc;
    let op = opcode_of_byte(p[pc]);
    let n = operand_count(op);
    let a = p[pc + 1];
    let b = p[pc + 2];
    let c = p[pc + 3];
    let regs = s.registers;
    let next = pc + 1 + n;
    if op == Opcode::HLT {
        (MachineState { pc: pc + 1, ..s }, Step::Halt { code: HALTED })
    } else if !is_implemented(op) {
        crash(s, ILLEGAL_INSTRUCTION)
    } else if pc + 1 + n > p.len() {
        crash(s, TRUNCATED_INSTRUCTION)
    } else if (register_operands(op) >= 1 && a >= 32) || (register_operands(op) >= 2 && b >= 32)
        || (register_operands(op) >= 3 && c >= 32) {
        crash(s, REGISTER_FAULT)
    } else if is_float_op(op) {
        (MachineState { pc: next, ..s }, Step::Float { opcode: op, a, b, c })
    } else {
        match op {
            Opcode::LOAD => (
                MachineState { registers: regs.update(a as int, signed16(b, c)), pc: next, ..s },
                Step::Continue,
            ),
            Opcode::ADD => (
                MachineState {
                    registers: regs.update(c as int, regs[a as int].wrapping_add(regs[b as int])),
                    pc: next,
                    ..s
                },
                Step::Continue,
            ),
            Opcode::SUB => (
                MachineState {
                    registers: regs.update(c as int, regs[a as int].wrapping_sub(regs[b as int])),
                    pc: next,
                    ..s
                },
                Step::Continue,
            ),
            Opcode::MUL => (
                MachineState {
                    registers: regs.update(c as int, regs[a as int].wrapping_mul(regs[b as int])),
                    pc: next,
                    ..s
                },
                Step::Continue,
            ),
            Opcode::DIV => match (
                regs[a as int].checked_div(regs[b as int]),
                regs[a as int].checked_rem(regs[b as int]),
            ) {
                (Some(q), Some(r)) => (
                    MachineState {
                        registers: regs.update(c as int, q),
                        remainder: r,
                        pc: next,
                        ..s
                    },
                    Step::Continue,
                ),
                _ => crash(s, DIVISION_FAULT),
            },
            Opcode::JMP => jump_to(s, regs[a as int] as int),
            Opcode::JMPF => if regs[a as int] < 0 {
                crash(s, JUMP_FAULT)
            } else {
                jump_to(s, next + regs[a as int])
            },
            Opcode::JMPB => if regs[a as int] < 0 {
                crash(s, JUMP_FAULT)
            } else {
                jump_to(s, next - regs[a as int])
            },
            Opcode::JMPE => if s.equal_flag {
                jump_to(s, regs[a as int] as int)
            } else {
                (MachineState { pc: next, ..s }, Step::Continue)
            },
            Opcode::ALOC => if regs[a as int] <= 0 {
                (MachineState { pc: next, ..s }, Step::Continue)
            } else if s.heap.len() + regs[a as int] > usize::MAX {
                crash(s, ALLOCATION_FAULT)
            } else {
                (
                    MachineState {
                        heap: s.heap + Seq::new(regs[a as int] as nat, |k: int| 0u8),
                        pc: next,
                        ..s
                    },
                    Step::Continue,
                )
            },
            Opcode::PRTS => {
                let start = a * 256 + b;
                let end = zero_at_or_after(s.ro_data, start);
                if end >= s.ro_data.len() {
                    crash(s, STRING_FAULT)
                } else {
                    let text = s.ro_data.subrange(start, end);
                    if valid_utf8(text) {
                        (
                            MachineState { output: s.output + decode_utf8(text), pc: next, ..s },
                            Step::Continue,
                        )
                    } else {
                        (
                            MachineState {
                                print_errors: s.print_errors.push(start as usize),
                                pc: next,
                                ..s
                            },
                            Step::Continue,
                        )
                    }
                }
            },
            Opcode::SHL => (
                MachineState {
                    registers: regs.update(
                        a as int,
                        regs[a as int].wrapping_shl(
                            if c == 0 {
                                16
                            } else {
                                c as u32
                            },
                        ),
                    ),
                    pc: next,
                    ..s
                },
                Step::Continue,
            ),
            Opcode::SHR => (
                MachineState {
                    registers: regs.update(
                        a as int,
                        regs[a as int].wrapping_shr(
                            if c == 0 {
                                16
                            } else {
                                c as u32
                            },
                        ),
                    ),
                    pc: next,
                    ..s
                },
                Step::Continue,
            ),
            Opcode::AND => (MachineState { pc: next, ..s }, Step::Continue),
            _ => (
                MachineState { equal_flag: compare(op, regs[a as int], regs[b as int]), pc: next, ..s },
                Step::Continue,
            ),
        }
    }
}

/// One step from any state: a counter past the program stops it with `RAN_OFF_END`.
pub open spec fn execute(s: MachineState) -> (MachineState, Step) {
    if s.pc >= s.program.len() {
        (s, Step::Halt { code: RAN_OFF_END })
    } else {
        step(s)
    }
}

/// Whether `p` begins with a complete header: the prefix and 60 more bytes.
pub open spec fn header_ok(p: Seq<u8>) -> bool {
    p.len() >= 64 && p.subrange(0, 4) == header_prefix()
}

/// Where the code of a file begins: after the header and the read-only
/// data whose length the header gives, or at the end of the file where the
/// data would run past it.
pub open spec fn code_start(p: Seq<u8>) -> int {
    let start = 64 + le32_value(p.subrange(4, 8));
    if start <= p.len() {
        start
    } else {
        p.len() as int
    }
}

/// The machine ready to run a file: read-only data from the file, the
/// counter at its code.
pub open spec fn loaded(s: MachineState) -> MachineState {
    MachineState {
        pc: code_start(s.program),
        ro_data: s.program.subrange(64, code_start(s.program)),
        ..s
    }
}

/// Steps until the program stops, or until `fuel` steps have been taken.
pub open spec fn run_from(s: MachineState, fuel: nat) -> (MachineState, VMEventType)
    decreases fuel,
{
    if fuel == 0 {
        (s, VMEventType::Crash { code: STEP_LIMIT })
    } else {
        let (s1, st) = execute(s);
        match st {
            Step::Halt { code } => (s1, VMEventType::GracefulStop { code }),
            Step::Crash { code } => (s1, VMEventType::Crash { code }),
            _ => run_from(s1, (fuel - 1) as nat),
        }
    }
}

/// A whole run of a file with a budget of `fuel` steps: the state it leaves
/// and the event that ends it.
pub open spec fn run_outcome(s: MachineState, fuel: nat) -> (MachineState, VMEventType) {
    if !header_ok(s.program) {
        (s, VMEventType::Crash { code: BAD_HEADER })
    } else {
        run_from(loaded(s), fuel)
    }
}

/// `SHL` with a shift amount of zero shifts by 16 bits.
pub proof fn lemma_shl_zero_shifts_sixteen(s: MachineState)
    requires
        s.pc + 4 <= s.program.len(),
        opcode_of_byte(s.program[s.pc]) == Opcode::SHL,
        s.program[s.pc + 1] < 32,
        s.program[s.pc + 3] == 0,
    ensures
        ({
            let r = s.program[s.pc + 1] as int;
            execute(s).0.registers == s.registers.update(r, s.registers[r].wrapping_shl(16))
        }),
        execute(s).1 == Step::Continue,
{
}

/// `ALOC` with a positive register value grows the heap by exactly that
/// many zero bytes, from whatever length it had.
pub proof fn lemma_aloc_grows_heap(s: MachineState)
    requires
        s.pc + 4 <= s.program.len(),
        opcode_of_byte(s.program[s.pc]) == Opcode::ALOC,
        s.program[s.pc + 1] < 32,
        s.registers.len() == 32,
        s.registers[s.program[s.pc + 1] as int] > 0,
        s.heap.len() + s.registers[s.program[s.pc + 1] as int] <= usize::MAX,
    ensures
        ({
            let v = s.registers[s.program[s.pc + 1] as int] as int;
            &&& execute(s).0.heap.len() == s.heap.len() + v
            &&& execute(s).0.heap.subrange(0, s.heap.len() as int) == s.heap
        }),
{
    let v = s.registers[s.program[s.pc + 1] as int] as int;
    assert(execute(s).0.heap.subrange(0, s.heap.len() as int) =~= s.heap);
}

/// `JMPE` with the equality flag clear changes nothing but the counter,
/// which moves on to the next instruction.
pub proof fn lemma_jmpe_falls_through(s: MachineState)
    requires
        s.pc + 4 <= s.program.len(),
        opcode_of_byte(s.program[s.pc]) == Opcode::JMPE,
        s.program[s.pc + 1] < 32,
        !s.equal_flag,
    ensures
        execute(s) == (MachineState { pc: s.pc + 4, ..s }, Step::Continue),
{
}

/// `PRTS` writes exactly the bytes from its offset up to the first zero
/// byte, decoded, and reads nothing past that byte.
pub proof fn lemma_prts_stops_at_zero(s: MachineState)
    requires
        s.pc + 4 <= s.program.len(),
        opcode_of_byte(s.program[s.pc]) == Opcode::PRTS,
        zero_at_or_after(s.ro_data, s.program[s.pc + 1] * 256 + s.program[s.pc + 2])
            < s.ro_data.len(),
        valid_utf8(
            s.ro_data.subrange(
                s.program[s.pc + 1] * 256 + s.program[s.pc + 2],
                zero_at_or_after(s.ro_data, s.program[s.pc + 1] * 256 + s.program[s.pc + 2]),
            ),
        ),
    ensures
        ({
            let start = s.program[s.pc + 1] * 256 + s.program[s.pc + 2];
            let end = zero_at_or_after(s.ro_data, start);
            &&& s.ro_data[end] == 0
            &&& forall|k: int| start <= k < end ==> #[trigger] s.ro_data[k] != 0
            &&& execute(s).0.output == s.output + decode_utf8(s.ro_data.subrange(start, end))
        }),
{
    let start = s.program[s.pc + 1] * 256 + s.program[s.pc + 2];
    lemma_zero_at_or_after(s.ro_data, start as int);
}

proof fn lemma_zero_at_or_after(b: Seq<u8>, k: int)
    requires
        0 <= k,
    ensures
        k <= zero_at_or_after(b, k) <= b.len() || (k > b.len() && zero_at_or_after(b, k)
            == b.len()),
        zero_at_or_after(b, k) < b.len() ==> b[zero_at_or_after(b, k)] == 0,
        forall|j: int| k <= j < zero_at_or_after(b, k) ==> #[trigger] b[j] != 0,
    decreases b.len() - k,
{
    if k < b.len() && b[k] != 0 {
        lemma_zero_at_or_after(b, k + 1);
    }
}

fn operand_count_of(op: Opcode) -> (r: usize)
    ensures
        r == operand_count(op),
{
    match op {
        Opcode::HLT | Opcode::IGL => 0,
        Opcode::JMP | Opcode::JMPF | Opcode::JMPB => 1,
        _ => 3,
    }
}

fn float_op(op: Opcode) -> (r: bool)
    ensures
        r == is_float_op(op),
{
    match op {
        Opcode::LOADF64 | Opcode::ADDF64 | Opcode::SUBF64 | Opcode::MULF64 | Opcode::DIVF64
        | Opcode::EQF64 | Opcode::NEQF64 | Opcode::GTF64 | Opcode::GTEF64 | Opcode::LTF64
        | Opcode::LTEF64 => true,
        _ => false,
    }
}

fn implemented(op: Opcode) -> (r: bool)
    ensures
        r == is_implemented(op),
{
    match op {
        Opcode::LOAD | Opcode::ADD | Opcode::SUB | Opcode::MUL | Opcode::DIV | Opcode::HLT
        | Opcode::JMP | Opcode::JMPF | Opcode::JMPB | Opcode::EQ | Opcode::NEQ | Opcode::GTE
        | Opcode::LTE | Opcode::LT | Opcode::GT | Opcode::JMPE | Opcode::ALOC | Opcode::PRTS
        | Opcode::SHL | Opcode::SHR | Opcode::AND => true,
        _ => float_op(op),
    }
}

fn register_operand_count(op: Opcode) -> (r: usize)
    ensures
        r == register_operands(op),
{
    match op {
        Opcode::LOAD | Opcode::JMP | Opcode::JMPF | Opcode::JMPB | Opcode::JMPE | Opcode::ALOC
        | Opcode::SHL | Opcode::SHR | Opcode::LOADF64 => 1,
        Opcode::EQ | Opcode::NEQ | Opcode::GTE | Opcode::LTE | Opcode::LT | Opcode::GT
        | Opcode::EQF64 | Opcode::NEQF64 | Opcode::GTF64 | Opcode::GTEF64 | Opcode::LTF64
        | Opcode::LTEF64 => 2,
        Opcode::ADD | Opcode::SUB | Opcode::MUL | Opcode::DIV | Opcode::ADDF64 | Opcode::SUBF64
        | Opcode::MULF64 | Opcode::DIVF64 => 3,
        _ => 0,
    }
}

impl VM {
    /// Moves the counter past the opcode and reports a crash.
    fn crash_with(&mut self, code: u32) -> (r: Step)
        requires
            old(self).pc < old(self).program@.len(),
        ensures
            (final(self).state(), r) == crash(old(self).state(), code),
            final(self).events == old(self).events,
            final(self).id == old(self).id,
            keeps_host_fields(*old(self), *final(self)),
    {
        assert(self.program@.len() == self.program.len());
        self.pc = self.pc + 1;
        Step::Crash { code }
    }

    /// Sets the counter to `t`, where it is an address.
    fn jump(&mut self, t: i64) -> (r: Step)
        requires
            old(self).pc < old(self).program@.len(),
        ensures
            (final(self).state(), r) == jump_to(old(self).state(), t as int),
            final(self).events == old(self).events,
            final(self).id == old(self).id,
            keeps_host_fields(*old(self), *final(self)),
    {
        if t < 0 || t as u64 > usize::MAX as u64 {
            self.crash_with(JUMP_FAULT)
        } else {
            self.pc = t as usize;
            Step::Continue
        }
    }

    /// Decodes and carries out the instruction at the counter.
    pub fn execute_instruction(&mut self) -> (r: Step)
        ensures
            (final(self).state(), r) == execute(old(self).state()),
            final(self).events == old(self).events,
            final(self).id == old(self).id,
            keeps_host_fields(*old(self), *final(self)),
    {
        if self.pc >= self.program.len() {
            return Step::Halt { code: RAN_OFF_END };
        }
        let pc = self.pc;
        let op = Opcode::from_byte(self.program[pc]);
        if op == Opcode::HLT {
            self.pc = pc + 1;
            return Step::Halt { code: HALTED };
        }
        if !implemented(op) {
            return self.crash_with(ILLEGAL_INSTRUCTION);
        }
        let n = operand_count_of(op);
        if self.program.len() - pc - 1 < n {
            return self.crash_with(TRUNCATED_INSTRUCTION);
        }
        let next = pc + 1 + n;
        let a: u8 = if n >= 1 { self.program[pc + 1] } else { 0 };
        let b: u8 = if n >= 2 { self.program[pc + 2] } else { 0 };
        let c: u8 = if n >= 3 { self.program[pc + 3] } else { 0 };
        let ghost s = self.state();
        assert(n >= 1 ==> a == s.program[pc + 1]);
        assert(n >= 2 ==> b == s.program[pc + 2]);
        assert(n >= 3 ==> c == s.program[pc + 3]);
        let k = register_operand_count(op);
        if (k >= 1 && a >= 32) || (k >= 2 && b >= 32) || (k >= 3 && c >= 32) {
            return self.crash_with(REGISTER_FAULT);
        }
        if float_op(op) {
            self.pc = next;
            return Step::Float { opcode: op, a, b, c };
        }
        match op {
            Opcode::LOAD => {
                let v: u32 = b as u32 * 256 + c as u32;
                let value: i32 = if v >= 32768 { (v as i64 - 65536) as i32 } else { v as i32 };
                self.registers[a as usize] = value;
                self.pc = next;
                Step::Continue
            },
            Opcode::ADD => {
                let x = self.registers[a as usize];
                let y = self.registers[b as usize];
                self.registers[c as usize] = x.wrapping_add(y);
                self.pc = next;
                Step::Continue
            },
            Opcode::SUB => {
                let x = self.registers[a as usize];
                let y = self.registers[b as usize];
                self.registers[c as usize] = x.wrapping_sub(y);
                self.pc = next;
                Step::Continue
            },
            Opcode::MUL => {
                let x = self.registers[a as usize];
                let y = self.registers[b as usize];
                self.registers[c as usize] = x.wrapping_mul(y);
                self.pc = next;
                Step::Continue
            },
            Opcode::DIV => {
                let x = self.registers[a as usize];
                let y = self.registers[b as usize];
                match (x.checked_div(y), x.checked_rem(y)) {
                    (Some(q), Some(r)) => {
                        self.registers[c as usize] = q;
                        self.remainder = r;
                        self.pc = next;
                        Step::Continue
                    },
                    _ => self.crash_with(DIVISION_FAULT),
                }
            },
            Opcode::JMP => {
                let t = self.registers[a as usize];
                self.jump(t as i64)
            },
            Opcode::JMPF => {
                let v = self.registers[a as usize];
                if v < 0 {
                    self.crash_with(JUMP_FAULT)
                } else if v as usize > usize::MAX - next {
                    self.crash_with(JUMP_FAULT)
                } else {
                    self.pc = next + v as usize;
                    Step::Continue
                }
            },
            Opcode::JMPB => {
                let v = self.registers[a as usize];
                if v < 0 {
                    self.crash_with(JUMP_FAULT)
                } else if v as usize > next {
                    self.crash_with(JUMP_FAULT)
                } else {
                    self.pc = next - v as usize;
                    Step::Continue
                }
            },
            Opcode::JMPE => {
                if self.equal_flag {
                    let t = self.registers[a as usize];
                    self.jump(t as i64)
                } else {
                    self.pc = next;
                    Step::Continue
                }
            },
            Opcode::ALOC => {
                let v = self.registers[a as usize];
                if v <= 0 {
                    self.pc = next;
                    Step::Continue
                } else if self.heap.len() > usize::MAX - v as usize {
                    self.crash_with(ALLOCATION_FAULT)
                } else {
                    let new_end = self.heap.len() + v as usize;
                    self.heap.resize(new_end, 0);
                    assert(self.heap@ =~= s.heap + Seq::new(v as nat, |k: int| 0u8));
                    self.pc = next;
                    Step::Continue
                }
            },
            Opcode::PRTS => self.print_string(a, b, next),
            Opcode::SHL => {
                let amount: u32 = if c == 0 { 16 } else { c as u32 };
                let x = self.registers[a as usize];
                self.registers[a as usize] = x.wrapping_shl(amount);
                self.pc = next;
                Step::Continue
            },
            Opcode::SHR => {
                let amount: u32 = if c == 0 { 16 } else { c as u32 };
                let x = self.registers[a as usize];
                self.registers[a as usize] = x.wrapping_shr(amount);
                self.pc = next;
                Step::Continue
            },
            Opcode::AND => {
                self.pc = next;
                Step::Continue
            },
            _ => {
                let x = self.registers[a as usize];
                let y = self.registers[b as usize];
                self.equal_flag = match op {
                    Opcode::EQ => x == y,
                    Opcode::NEQ => x != y,
                    Opcode::GTE => x >= y,
                    Opcode::LTE => x <= y,
                    Opcode::LT => x < y,
                    _ => x > y,
                };
                self.pc = next;
                Step::Continue
            },
        }
    }

    /// `PRTS`: writes the zero-terminated string at read-only offset
    /// `hi * 256 + lo` to the output.
    fn print_string(&mut self, hi: u8, lo: u8, next: usize) -> (r: Step)
        requires
            old(self).pc < old(self).program@.len(),
            old(self).pc + 4 <= old(self).program@.len(),
            opcode_of_byte(old(self).program@[old(self).pc as int]) == Opcode::PRTS,
            hi == old(self).program@[old(self).pc + 1],
            lo == old(self).program@[old(self).pc + 2],
            next == old(self).pc + 4,
        ensures
            (final(self).state(), r) == step(old(self).state()),
            final(self).events == old(self).events,
            final(self).id == old(self).id,
            keeps_host_fields(*old(self), *final(self)),
    {
        let start: usize = hi as usize * 256 + lo as usize;
        let mut end = start;
        while end < self.ro_data.len() && self.ro_data[end] != 0
            invariant
                start <= end,
                zero_at_or_after(self.ro_data@, start as int) == zero_at_or_after(
                    self.ro_data@,
                    end as int,
                ),
            decreases self.ro_data@.len() - end,
        {
            end = end + 1;
        }
        if end >= self.ro_data.len() {
            return self.crash_with(STRING_FAULT);
        }
        let mut text: Vec<u8> = Vec::new();
        let mut k = start;
        while k < end
            invariant
                start <= k <= end < self.ro_data@.len(),
                text@ == self.ro_data@.subrange(start as int, k as int),
            decreases end - k,
        {
            text.push(self.ro_data[k]);
            assert(text@ =~= self.ro_data@.subrange(start as int, k + 1));
            k = k + 1;
        }
        match decode_text(text.as_slice()) {
            Some(t) => append_text(&mut self.output, t.as_str()),
            None => self.print_errors.push(start),
        }
        self.pc = next;
        Step::Continue
    }
}

/// A machine with a freshly drawn identifier.
pub fn get_test_vm() -> (r: VM)
    ensures
        r.state() == (MachineState {
            registers: VM::new_state().registers.update(0, 5).update(1, 10),
            ..VM::new_state()
        }),
        r.events@.len() == 0,
        r.alias is None,
        r.server_addr is None,
        r.server_port is None,
{
    let mut test_vm = VM::new();
    test_vm.equal_flag = false;
    test_vm.registers[0] = 5;
    test_vm.registers[1] = 10;
    assert(test_vm.registers@ =~= VM::new_state().registers.update(0, 5).update(1, 10));
    test_vm
}

impl VM {
    /// The state of a new machine.
    pub open spec fn new_state() -> MachineState {
        MachineState {
            registers: Seq::new(32, |k: int| 0i32),
            program: Seq::empty(),
            pc: 0,
            heap: Seq::new(64, |k: int| 0u8),
            remainder: 0,
            equal_flag: false,
            ro_data: Seq::empty(),
            output: Seq::empty(),
            print_errors: Seq::empty(),
        }
    }

    pub fn new() -> (r: VM)
        ensures
            r.state() == VM::new_state(),
            r.events@.len() == 0,
            r.alias is None,
            r.server_addr is None,
            r.server_port is None,
    {
        let r = VM {
            registers: [0i32; 32],
            program: Vec::new(),
            logical_cores: logical_core_count(),
            alias: None,
            pc: 0,
            heap: vec![0u8; DEFAULT_HEAP_STARTING_SIZE],
            stack: Vec::new(),
            remainder: 0,
            equal_flag: false,
            loop_counter: 0,
            ro_data: Vec::new(),
            id: new_id(),
            events: Vec::new(),
            server_addr: None,
            server_port: None,
            output: String::new(),
            print_errors: Vec::new(),
        };
        assert(r.registers@ =~= Seq::new(32, |k: int| 0i32));
        assert(r.heap@ =~= Seq::new(64, |k: int| 0u8));
        r
    }

    fn event(&self, event: VMEventType) -> (r: VMEvent)
        ensures
            r.event == event,
            r.application_id == self.id,
    {
        VMEvent { event, at: now_millis(), application_id: self.id }
    }

    /// Whether the program begins with a complete header.
    pub fn verify_header(&self) -> (r: bool)
        ensures
            r == header_ok(self.program@),
    {
        if self.program.len() < PIE_HEADER_LENGTH {
            return false;
        }
        let prefix = PIE_HEADER_PREFIX;
        let ok = self.program[0] == prefix[0] && self.program[1] == prefix[1] && self.program[2]
            == prefix[2] && self.program[3] == prefix[3];
        assert(ok ==> self.program@.subrange(0, 4) =~= header_prefix());
        assert(self.program@.subrange(0, 4) == header_prefix() ==> self.program@[0]
            == header_prefix()[0] && self.program@[1] == header_prefix()[1] && self.program@[2]
            == header_prefix()[2] && self.program@[3] == header_prefix()[3]);
        ok
    }

    /// Logs the start of a run and, where the header is right, loads the
    /// read-only data and sets the counter to the code; where it is wrong,
    /// logs the crash and answers `false`.
    pub fn begin_run(&mut self) -> (r: bool)
        ensures
            r == header_ok(old(self).program@),
            r ==> final(self).state() == loaded(old(self).state()),
            !r ==> final(self).state() == old(self).state(),
            final(self).id == old(self).id,
            keeps_host_fields(*old(self), *final(self)),
            final(self).events@.len() == old(self).events@.len() + if r {
                1int
            } else {
                2int
            },
            final(self).events@.subrange(0, old(self).events@.len() as int) == old(self).events@,
            final(self).events@[old(self).events@.len() as int].event == VMEventType::Start,
            !r ==> final(self).events@[old(self).events@.len() as int + 1].event == (VMEventType::Crash {
                code: BAD_HEADER,
            }),
            forall|k: int|
                old(self).events@.len() <= k < final(self).events@.len() ==> (
                #[trigger] final(self).events@[k]).application_id == old(self).id,
    {
        let e = self.event(VMEventType::Start);
        self.events.push(e);
        if !self.verify_header() {
            let e = self.event(VMEventType::Crash { code: BAD_HEADER });
            self.events.push(e);
            assert(self.events@.subrange(0, old(self).events@.len() as int) =~= old(
                self,
            ).events@);
            return false;
        }
        let field: Vec<u8> = vec![self.program[4], self.program[5], self.program[6], self.program[7]];
        assert(field@ =~= self.program@.subrange(4, 8));
        let ro_len = u32_from_le_bytes(field.as_slice());
        let start: usize = if (ro_len as usize) <= self.program.len() - PIE_HEADER_LENGTH {
            PIE_HEADER_LENGTH + ro_len as usize
        } else {
            self.program.len()
        };
        let mut ro: Vec<u8> = Vec::new();
        let mut k: usize = PIE_HEADER_LENGTH;
        while k < start
            invariant
                64 <= k <= start <= self.program@.len(),
                ro@ == self.program@.subrange(64, k as int),
            decreases start - k,
        {
            ro.push(self.program[k]);
            assert(ro@ =~= self.program@.subrange(64, k + 1));
            k = k + 1;
        }
        self.ro_data = ro;
        self.pc = start;
        assert(self.events@.subrange(0, old(self).events@.len() as int) =~= old(self).events@);
        true
    }

    /// Logs the event that ends a run and hands back the whole log.
    pub fn end_run(&mut self, event: VMEventType) -> (r: Vec<VMEvent>)
        ensures
            final(self).events@ == old(self).events@.push(final(self).events@.last()),
            final(self).events@.last().event == event,
            final(self).events@.last().application_id == old(self).id,
            final(self).state() == old(self).state(),
            final(self).id == old(self).id,
            keeps_host_fields(*old(self), *final(self)),
            r@ == final(self).events@,
    {
        let e = self.event(event);
        self.events.push(e);
        let r = self.events.clone();
        assert(r@ =~= self.events@);
        r
    }

    /// Runs the program in memory, which must begin with a header, until it
    /// stops; hands back the log, whose last two entries are the start and
    /// the end of this run. Floating-point instructions are decoded and
    /// skipped: a host with floating-point registers runs the loop itself
    /// with `begin_run`, `execute_instruction` and `end_run`.
    pub fn run(&mut self) -> (r: Vec<VMEvent>)
        ensures
            keeps_host_fields(*old(self), *final(self)),
            final(self).state() == run_outcome(old(self).state(), u64::MAX as nat).0,
            final(self).events@.len() == old(self).events@.len() + 2,
            final(self).events@.subrange(0, old(self).events@.len() as int) == old(self).events@,
            final(self).events@[old(self).events@.len() as int].event == VMEventType::Start,
            final(self).events@[old(self).events@.len() as int + 1].event == run_outcome(
                old(self).state(),
                u64::MAX as nat,
            ).1,
            r@ == final(self).events@,
    {
        self.run_with_limit(u64::MAX)
    }

    /// `run`, with at most `limit` steps.
    pub fn run_with_limit(&mut self, limit: u64) -> (r: Vec<VMEvent>)
        ensures
            keeps_host_fields(*old(self), *final(self)),
            final(self).state() == run_outcome(old(self).state(), limit as nat).0,
            final(self).events@.len() == old(self).events@.len() + 2,
            final(self).events@.subrange(0, old(self).events@.len() as int) == old(self).events@,
            final(self).events@[old(self).events@.len() as int].event == VMEventType::Start,
            final(self).events@[old(self).events@.len() as int + 1].event == run_outcome(
                old(self).state(),
                limit as nat,
            ).1,
            forall|k: int|
                old(self).events@.len() <= k < final(self).events@.len() ==> (
                #[trigger] final(self).events@[k]).application_id == old(self).id,
            r@ == final(self).events@,
    {
        let ghost n0 = old(self).events@.len();
        if !self.begin_run() {
            let r = self.events.clone();
            assert(r@ =~= self.events@);
            return r;
        }
        let ghost after_start = self.events@;
        let mut fuel: u64 = limit;
        let mut last: VMEventType = VMEventType::Crash { code: STEP_LIMIT };
        while fuel > 0
            invariant
                fuel > 0 ==> run_from(self.state(), fuel as nat) == run_outcome(
                    old(self).state(),
                    limit as nat,
                ),
                fuel == 0 ==> run_outcome(old(self).state(), limit as nat) == (self.state(), last),
                self.events@ == after_start,
                self.id == old(self).id,
                keeps_host_fields(*old(self), *self),
            decreases fuel,
        {
            let ghost before = self.state();
            let st = self.execute_instruction();
            assert(run_from(before, fuel as nat) == match st {
                Step::Halt { code } => (self.state(), VMEventType::GracefulStop { code }),
                Step::Crash { code } => (self.state(), VMEventType::Crash { code }),
                _ => run_from(self.state(), (fuel - 1) as nat),
            });
            match st {
                Step::Halt { code } => {
                    last = VMEventType::GracefulStop { code };
                    fuel = 0;
                },
                Step::Crash { code } => {
                    last = VMEventType::Crash { code };
                    fuel = 0;
                },
                _ => {
                    fuel = fuel - 1;
                    if fuel == 0 {
                        last = VMEventType::Crash { code: STEP_LIMIT };
                        assert(run_from(self.state(), 0) == (self.state(), last));
                    }
                },
            }
        }
        let r = self.end_run(last);
        assert(self.events@.subrange(0, n0 as int) =~= old(self).events@);
        r
    }

    /// Carries out one instruction at the counter, without a header; for
    /// feeding a program in piece by piece.
    pub fn run_once(&mut self) -> (r: Step)
        ensures
            (final(self).state(), r) == execute(old(self).state()),
            final(self).events == old(self).events,
            keeps_host_fields(*old(self), *final(self)),
    {
        self.execute_instruction()
    }

    pub fn add_byte(&mut self, byte: u8)
        ensures
            final(self).program@ == old(self).program@.push(byte),
            final(self).pc == old(self).pc,
    {
        self.program.push(byte);
    }

    pub fn add_bytes(&mut self, bytes: Vec<u8>)
        ensures
            final(self).program@ == old(self).program@ + bytes@,
            final(self).pc == old(self).pc,
    {
        let mut bytes = bytes;
        self.program.append(&mut bytes);
    }

    /// The machine with `alias` as its alias; an empty one means none.
    pub fn with_alias(self, alias: String) -> (r: VM)
        ensures
            alias@.len() == 0 ==> r.alias is None,
            alias@.len() > 0 ==> r.alias == Some(alias),
            r.state() == self.state(),
    {
        let mut vm = self;
        if alias.as_str().is_empty() {
            vm.alias = None;
        } else {
            vm.alias = Some(alias);
        }
        vm
    }

    /// The machine with the address and port it serves other machines on.
    pub fn with_cluster_bind(self, server_addr: String, server_port: String) -> (r: VM)
        ensures
            r.server_addr == Some(server_addr),
            r.server_port == Some(server_port),
            r.state() == self.state(),
    {
        let mut vm = self;
        vm.server_addr = Some(server_addr);
        vm.server_port = Some(server_port);
        vm
    }
}

} // verus!
