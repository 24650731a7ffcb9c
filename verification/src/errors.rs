//! Error taxonomy: every layer reports a typed failure that the step loop
//! surfaces to the caller unchanged.

use vstd::prelude::*;

use crate::instructions::{Instruction, Operand};

verus! {

/// Failure while writing to memory.
#[derive(Clone, Copy, PartialEq, Eq, Structural, Debug)]
pub enum WriteError {
    /// The target range exceeds the memory bounds.
    MemoryOverflow,
}

/// Failure while reading from memory.
#[derive(Clone, Copy, PartialEq, Eq, Structural, Debug)]
pub enum ReadError {
    /// The source range exceeds the memory bounds.
    MemoryOverflow,
}

/// Failure while decoding an opcode byte.
#[derive(Clone, Copy, PartialEq, Eq, Structural, Debug)]
pub enum DecodeError {
    /// Invalid index into the 8-register lookup table.
    RPTableLookupError(u8),
    /// Invalid index into the first 16-bit register-pair lookup table.
    RP1TableLookupError(u8),
    /// Invalid index into the second 16-bit register-pair lookup table.
    RP2TableLookupError(u8),
    /// Invalid index into the ALU operation table.
    AluDecodeError(u8),
    /// No known bit pattern matches: the opcode byte and its derived
    /// fields `x`, `y`, `z`, `p`, `q`.
    Unmatched(u8, u8, u8, u8, u8, u8),
}

/// Failure while executing a decoded instruction.
#[derive(Clone, Copy, PartialEq, Eq, Debug)]
pub enum CpuError {
    /// A syntactically valid instruction whose operand combination the
    /// executor does not implement.
    UnsupportedInstruction(Instruction),
    /// A source/destination pair no load accepts.
    InvalidLoadOperands(Operand, Operand),
    /// An operand was resolved in a context its kind does not support.
    FetchError,
    /// A memory read failed.
    Read(ReadError),
    /// A memory write failed.
    Write(WriteError),
    /// The opcode byte could not be decoded.
    Decode(DecodeError),
}

} // verus!
