//! A one-instruction simulator for the do-core1 architecture.
//!
//! The library decodes a 16-bit instruction word, validates it, and executes
//! it against a register file of eight 16-bit registers and a dense,
//! byte-addressed memory. Every operation either succeeds or reports a typed
//! [`Error`] and leaves the machine state as it was.

use vstd::prelude::*;

pub mod cpu;
pub mod memory;

verus! {

/// Highest valid register index: registers are numbered 0 through 7.
pub const MAX_REGISTER_INDEX: u8 = 7;

/// Number of registers in the register file.
pub const REGISTER_COUNT: usize = 8;

/// Number of byte-wide slots in memory; valid addresses are `0..MAX_MEMORY_SIZE`.
pub const MAX_MEMORY_SIZE: usize = 4096;

/// Everything that can go wrong while decoding or executing an instruction.
#[derive(Debug, Clone, Copy, PartialEq, Eq, Structural)]
pub enum Error {
    /// The high byte of the instruction word is not one of the known opcodes.
    InvalidOpCode(u8),
    /// The first operand field exceeds `MAX_REGISTER_INDEX`.
    Op0OutOfRange,
    /// The second operand field exceeds `MAX_REGISTER_INDEX`.
    Op1OutOfRange,
    /// The sum of the two ADD operands does not fit in 16 bits.
    AdditionOverflow(u16, u16),
    /// Reserved for memory organisations with a declared stack limit; the
    /// dense memory of this crate never reports it.
    StackOverflow(usize),
    /// A memory access named an address outside `0..MAX_MEMORY_SIZE`.
    AddressOutOfRange(usize),
    /// A value handed to a store does not fit in one byte-wide slot.
    ValueOutOfRange(usize),
}

} // verus!
