//! The decode/execute engine: instruction decoding, operand validation and
//! the effect of each opcode on the register file and memory.
//!
//! Operand convention: `ADD` and `XOR` read both operand fields as register
//! indexes. `LD` reads its first field as the destination register and its
//! second field as the memory address itself. `ST` reads its first field as
//! the memory address and its second field as the value to store.

use vstd::prelude::*;
use crate::{Error, MAX_MEMORY_SIZE, MAX_REGISTER_INDEX, REGISTER_COUNT};
use crate::memory::{loaded, store_outcome, stored, Memory};

verus! {

/// The operation selector of an instruction. The encodings are
/// `LD = 0x00`, `ST = 0x01`, `ADD = 0x02`, `XOR = 0x03`.
#[derive(Debug, Clone, Copy, PartialEq, Eq, Structural)]
pub enum OpCode {
    LD,
    ST,
    ADD,
    XOR,
}

/// A decoded instruction: the opcode and the two operand fields. Decoding
/// yields only instructions whose operands are register indexes; execution
/// checks the operands again, so one built by hand is rejected, not trusted.
#[derive(Debug, Clone, Copy, PartialEq, Eq, Structural)]
pub struct Instruction {
    pub opcode: OpCode,
    pub op0: u8,
    pub op1: u8,
}

/// The engine: eight 16-bit registers and the memory it owns.
#[derive(Debug)]
pub struct Cpu {
    pub memory: Memory,
    registers: [u16; REGISTER_COUNT],
}

/// The machine state as mathematics: registers by index, memory by address.
pub struct CpuState {
    pub registers: Seq<u16>,
    pub memory: Seq<u8>,
}

impl CpuState {
    /// The state has one entry per register and one per memory slot.
    pub open spec fn well_formed(self) -> bool {
        &&& self.registers.len() == REGISTER_COUNT
        &&& self.memory.len() == MAX_MEMORY_SIZE
    }
}

/// The byte that encodes an opcode.
pub open spec fn encoding(opcode: OpCode) -> u8 {
    match opcode {
        OpCode::LD => 0x00,
        OpCode::ST => 0x01,
        OpCode::ADD => 0x02,
        OpCode::XOR => 0x03,
    }
}

/// The opcode that a byte encodes, or `InvalidOpCode` with that byte.
pub open spec fn opcode_of(byte: u8) -> Result<OpCode, Error> {
    if byte == 0x00 {
        Ok(OpCode::LD)
    } else if byte == 0x01 {
        Ok(OpCode::ST)
    } else if byte == 0x02 {
        Ok(OpCode::ADD)
    } else if byte == 0x03 {
        Ok(OpCode::XOR)
    } else {
        Err(Error::InvalidOpCode(byte))
    }
}

/// Bits 15 to 8 of an instruction word.
pub open spec fn opcode_field(insn: u16) -> u8 {
    (insn / 256) as u8
}

/// Bits 7 to 4 of an instruction word.
pub open spec fn op0_field(insn: u16) -> u8 {
    ((insn / 16) % 16) as u8
}

/// Bits 3 to 0 of an instruction word.
pub open spec fn op1_field(insn: u16) -> u8 {
    (insn % 16) as u8
}

/// What decoding an instruction word yields. The opcode is checked first,
/// then the first operand, then the second.
pub open spec fn decode(insn: u16) -> Result<Instruction, Error> {
    match opcode_of(opcode_field(insn)) {
        Err(e) => Err(e),
        Ok(opcode) => if op0_field(insn) > MAX_REGISTER_INDEX {
            Err(Error::Op0OutOfRange)
        } else if op1_field(insn) > MAX_REGISTER_INDEX {
            Err(Error::Op1OutOfRange)
        } else {
            Ok(Instruction { opcode, op0: op0_field(insn), op1: op1_field(insn) })
        },
    }
}

/// Checked 16-bit addition: the sum, or `AdditionOverflow` with both operands
/// when the sum exceeds `u16::MAX`.
pub open spec fn add_outcome(op0: u16, op1: u16) -> Result<u16, Error> {
    if op0 + op1 > u16::MAX {
        Err(Error::AdditionOverflow(op0, op1))
    } else {
        Ok((op0 + op1) as u16)
    }
}

/// What executing one instruction on state `s` yields: the next state, or
/// the error that stopped it. Operand ranges are checked before anything else.
pub open spec fn step(s: CpuState, insn: Instruction) -> Result<CpuState, Error>
    recommends
        s.well_formed(),
{
    let op0 = insn.op0 as int;
    let op1 = insn.op1 as int;
    if insn.op0 > MAX_REGISTER_INDEX {
        Err(Error::Op0OutOfRange)
    } else if insn.op1 > MAX_REGISTER_INDEX {
        Err(Error::Op1OutOfRange)
    } else {
        match insn.opcode {
            OpCode::ADD => match add_outcome(s.registers[op0], s.registers[op1]) {
                Ok(sum) => Ok(CpuState { registers: s.registers.update(op0, sum), memory: s.memory }),
                Err(e) => Err(e),
            },
            OpCode::XOR => Ok(
                CpuState {
                    registers: s.registers.update(op0, s.registers[op0] ^ s.registers[op1]),
                    memory: s.memory,
                },
            ),
            OpCode::LD => match loaded(s.memory, insn.op1 as usize) {
                Ok(value) => Ok(
                    CpuState { registers: s.registers.update(op0, value as u16), memory: s.memory },
                ),
                Err(e) => Err(e),
            },
            OpCode::ST => match store_outcome(insn.op0 as usize, insn.op1 as usize) {
                Ok(_) => Ok(
                    CpuState {
                        registers: s.registers,
                        memory: stored(s.memory, insn.op0 as usize, insn.op1 as usize),
                    },
                ),
                Err(e) => Err(e),
            },
        }
    }
}

/// What processing one instruction word on state `s` yields: decode, then
/// execute.
pub open spec fn process_step(s: CpuState, insn: u16) -> Result<CpuState, Error>
    recommends
        s.well_formed(),
{
    match decode(insn) {
        Ok(decoded) => step(s, decoded),
        Err(e) => Err(e),
    }
}

/// Every opcode byte other than `0x00` to `0x03` is rejected with
/// `InvalidOpCode`, and so is every instruction word whose high byte is one.
pub proof fn lemma_unknown_opcode_rejected(insn: u16)
    ensures
        forall|byte: u8|
            byte > 0x03 ==> #[trigger] opcode_of(byte) == Err::<OpCode, Error>(
                Error::InvalidOpCode(byte),
            ),
        forall|byte: u8| byte <= 0x03 ==> #[trigger] opcode_of(byte) is Ok,
        opcode_field(insn) > 0x03 ==> decode(insn) == Err::<Instruction, Error>(
            Error::InvalidOpCode(opcode_field(insn)),
        ),
{
}

/// Each opcode has one encoding of its own: a byte decodes to an opcode
/// exactly when it is that opcode's encoding.
pub proof fn lemma_encoding_is_unique(byte: u8, opcode: OpCode)
    ensures
        opcode_of(byte) == Ok::<OpCode, Error>(opcode) <==> byte == encoding(opcode),
{
}

/// Decoding depends on the word alone: two results of decoding one word are
/// the same result.
pub proof fn lemma_decode_deterministic(
    insn: u16,
    first: Result<Instruction, Error>,
    second: Result<Instruction, Error>,
)
    requires
        first == decode(insn),
        second == decode(insn),
    ensures
        first == second,
{
}

/// A word with an operand field above `MAX_REGISTER_INDEX` never decodes.
/// Under a valid opcode the error names the operand: the first where that is
/// out of range, the second where only that is.
pub proof fn lemma_operand_out_of_range_rejected(insn: u16)
    requires
        op0_field(insn) > MAX_REGISTER_INDEX || op1_field(insn) > MAX_REGISTER_INDEX,
    ensures
        decode(insn) is Err,
        opcode_field(insn) <= 0x03 && op0_field(insn) > MAX_REGISTER_INDEX ==> decode(insn)
            == Err::<Instruction, Error>(Error::Op0OutOfRange),
        opcode_field(insn) <= 0x03 && op0_field(insn) <= MAX_REGISTER_INDEX ==> decode(insn)
            == Err::<Instruction, Error>(Error::Op1OutOfRange),
{
}

/// A word decodes exactly when its opcode byte is known and both operand
/// fields are register indexes; the instruction then holds the three fields.
pub proof fn lemma_decode_succeeds(insn: u16)
    ensures
        decode(insn) is Ok <==> opcode_field(insn) <= 0x03 && op0_field(insn) <= MAX_REGISTER_INDEX
            && op1_field(insn) <= MAX_REGISTER_INDEX,
        decode(insn) is Ok ==> {
            &&& decode(insn)->Ok_0.well_formed()
            &&& opcode_of(opcode_field(insn)) == Ok::<OpCode, Error>(decode(insn)->Ok_0.opcode)
            &&& decode(insn)->Ok_0.op0 == op0_field(insn)
            &&& decode(insn)->Ok_0.op1 == op1_field(insn)
        },
{
}

/// An `ADD` whose sum exceeds `u16::MAX` fails with `AdditionOverflow` and
/// both operands; an `ADD` whose sum fits writes it to the first register
/// and changes nothing else.
pub proof fn lemma_add_is_checked(s: CpuState, insn: Instruction)
    requires
        s.well_formed(),
        insn.well_formed(),
        insn.opcode == OpCode::ADD,
    ensures
        s.registers[insn.op0 as int] + s.registers[insn.op1 as int] > u16::MAX ==> step(s, insn)
            == Err::<CpuState, Error>(
            Error::AdditionOverflow(s.registers[insn.op0 as int], s.registers[insn.op1 as int]),
        ),
        s.registers[insn.op0 as int] + s.registers[insn.op1 as int] <= u16::MAX ==> {
            &&& step(s, insn) is Ok
            &&& step(s, insn)->Ok_0.memory == s.memory
            &&& step(s, insn)->Ok_0.registers == s.registers.update(
                insn.op0 as int,
                (s.registers[insn.op0 as int] + s.registers[insn.op1 as int]) as u16,
            )
        },
{
}

/// `XOR` never fails: it writes the exclusive-or of the two registers to the
/// first and changes nothing else.
pub proof fn lemma_xor_is_total(s: CpuState, insn: Instruction)
    requires
        s.well_formed(),
        insn.well_formed(),
        insn.opcode == OpCode::XOR,
    ensures
        step(s, insn) is Ok,
        step(s, insn)->Ok_0.memory == s.memory,
        step(s, insn)->Ok_0.registers == s.registers.update(
            insn.op0 as int,
            s.registers[insn.op0 as int] ^ s.registers[insn.op1 as int],
        ),
{
}

/// A word that does not decode is processed into the decoder's error, on
/// every state.
pub proof fn lemma_decode_failure_stops_processing(s: CpuState, insn: u16)
    requires
        decode(insn) is Err,
    ensures
        process_step(s, insn) == Err::<CpuState, Error>(decode(insn)->Err_0),
{
}

/// Processing fails on exactly two grounds: the word does not decode, or it
/// is an `ADD` whose sum overflows. A decoded `LD`, `ST` or `XOR` always
/// succeeds.
pub proof fn lemma_process_failures(s: CpuState, insn: u16)
    requires
        s.well_formed(),
    ensures
        process_step(s, insn) is Err <==> {
            ||| decode(insn) is Err
            ||| {
                &&& decode(insn)->Ok_0.opcode == OpCode::ADD
                &&& s.registers[op0_field(insn) as int] + s.registers[op1_field(insn) as int]
                    > u16::MAX
            }
        },
{
}

/// The dense memory has no stack limit: neither a memory access nor the
/// processing of any word reports `StackOverflow`.
pub proof fn lemma_stack_overflow_never_reported(s: CpuState, insn: u16, addr: usize, value: usize)
    ensures
        !(store_outcome(addr, value) is Err && store_outcome(addr, value)->Err_0 is StackOverflow),
        !(loaded(s.memory, addr) is Err && loaded(s.memory, addr)->Err_0 is StackOverflow),
        !(process_step(s, insn) is Err && process_step(s, insn)->Err_0 is StackOverflow),
{
}

impl OpCode {
    /// Maps an opcode byte to its opcode; any byte above `0x03` is rejected.
    pub fn from_u8(opcode: u8) -> (res: Result<OpCode, Error>)
        ensures
            res == opcode_of(opcode),
    {
        match opcode {
            0x00 => Ok(OpCode::LD),
            0x01 => Ok(OpCode::ST),
            0x02 => Ok(OpCode::ADD),
            0x03 => Ok(OpCode::XOR),
            _ => Err(Error::InvalidOpCode(opcode)),
        }
    }
}

impl Instruction {
    /// Both operand fields are valid register indexes.
    pub open spec fn well_formed(self) -> bool {
        self.op0 <= MAX_REGISTER_INDEX && self.op1 <= MAX_REGISTER_INDEX
    }

    /// Decodes an instruction word: the opcode from the high byte, the two
    /// operands from the nibbles of the low byte, each validated.
    pub fn disassemble(insn: u16) -> (res: Result<Instruction, Error>)
        ensures
            res == decode(insn),
    {
        assert(insn >> 8 == insn / 256) by (bit_vector);
        assert((insn & 0xf0) >> 4 == (insn / 16) % 16) by (bit_vector);
        assert(insn & 0xf == insn % 16) by (bit_vector);
        let opcode = match OpCode::from_u8((insn >> 8) as u8) {
            Ok(opcode) => opcode,
            Err(e) => {
                return Err(e);
            },
        };
        let op0: u8 = ((insn & 0xf0) >> 4) as u8;
        let op1: u8 = (insn & 0xf) as u8;

        if op0 > MAX_REGISTER_INDEX {
            return Err(Error::Op0OutOfRange);
        }
        if op1 > MAX_REGISTER_INDEX {
            return Err(Error::Op1OutOfRange);
        }
        Ok(Instruction { opcode, op0, op1 })
    }
}

/// A register file with every register zero.
pub fn get_register_zeros() -> (registers: [u16; REGISTER_COUNT])
    ensures
        registers@ == Seq::new(REGISTER_COUNT as nat, |index: int| 0u16),
{
    let registers = [0u16; REGISTER_COUNT];
    assert(registers@ =~= Seq::new(REGISTER_COUNT as nat, |index: int| 0u16));
    registers
}

impl View for Cpu {
    type V = CpuState;

    /// The registers and the slots of the owned memory.
    closed spec fn view(&self) -> CpuState {
        CpuState { registers: self.registers@, memory: self.memory@ }
    }
}

impl Cpu {
    /// The state of every engine is well formed.
    pub proof fn lemma_well_formed(&self)
        ensures
            self@.well_formed(),
    {
        self.memory.lemma_len();
    }

    /// The memory that the engine owns, for reading.
    pub fn memory(&self) -> (memory: &Memory)
        ensures
            memory@ == self@.memory,
    {
        &self.memory
    }

    /// An engine that owns `memory`, with every register zero.
    pub fn new(memory: Memory) -> (cpu: Cpu)
        ensures
            cpu@.memory == memory@,
            cpu@.registers == Seq::new(REGISTER_COUNT as nat, |index: int| 0u16),
    {
        Cpu { registers: get_register_zeros(), memory }
    }

    /// The registers, by index, for display.
    pub fn dump_state(&self) -> (registers: [u16; REGISTER_COUNT])
        ensures
            registers@ == self@.registers,
    {
        self.registers
    }

    /// Decodes and executes one instruction word. On any failure the state is
    /// left exactly as it was.
    pub fn process(&mut self, insn: u16) -> (res: Result<(), Error>)
        ensures
            res is Ok <==> process_step(old(self)@, insn) is Ok,
            res is Ok ==> final(self)@ == process_step(old(self)@, insn)->Ok_0,
            res is Err ==> res->Err_0 == process_step(old(self)@, insn)->Err_0,
            res is Err ==> final(self)@ == old(self)@,
    {
        match Instruction::disassemble(insn) {
            Ok(decoded) => self.execute(&decoded),
            Err(e) => Err(e),
        }
    }

    /// Executes one decoded instruction. Operand ranges are validated, and
    /// the opcode's effect computed, before anything is written: on any
    /// failure the state is left exactly as it was.
    pub fn execute(&mut self, insn: &Instruction) -> (res: Result<(), Error>)
        ensures
            res is Ok <==> step(old(self)@, *insn) is Ok,
            res is Ok ==> final(self)@ == step(old(self)@, *insn)->Ok_0,
            res is Err ==> res->Err_0 == step(old(self)@, *insn)->Err_0,
            res is Err ==> final(self)@ == old(self)@,
    {
        if insn.op0 > MAX_REGISTER_INDEX {
            return Err(Error::Op0OutOfRange);
        }
        if insn.op1 > MAX_REGISTER_INDEX {
            return Err(Error::Op1OutOfRange);
        }
        let op0: usize = insn.op0 as usize;
        let op1: usize = insn.op1 as usize;
        match insn.opcode {
            OpCode::ADD => {
                let sum = match self.add(self.registers[op0], self.registers[op1]) {
                    Ok(sum) => sum,
                    Err(e) => {
                        return Err(e);
                    },
                };
                self.registers[op0] = sum;
            },
            OpCode::XOR => {
                let value = self.xor(self.registers[op0], self.registers[op1]);
                self.registers[op0] = value;
            },
            OpCode::LD => {
                let value = match self.memory.load(op1) {
                    Ok(value) => value,
                    Err(e) => {
                        return Err(e);
                    },
                };
                self.registers[op0] = value as u16;
            },
            OpCode::ST => {
                match self.memory.store(op0, op1) {
                    Ok(_) => {},
                    Err(e) => {
                        return Err(e);
                    },
                }
            },
        }
        assert(self@ =~= step(old(self)@, *insn)->Ok_0);
        Ok(())
    }

    /// Checked addition of two register values.
    pub fn add(&self, op0: u16, op1: u16) -> (res: Result<u16, Error>)
        ensures
            res == add_outcome(op0, op1),
    {
        match op0.checked_add(op1) {
            Some(sum) => Ok(sum),
            None => Err(Error::AdditionOverflow(op0, op1)),
        }
    }

    /// Bitwise exclusive-or of two register values; it never fails.
    pub fn xor(&self, op0: u16, op1: u16) -> (res: u16)
        ensures
            res == op0 ^ op1,
    {
        op0 ^ op1
    }
}

} // verus!
