//! Decoded instructions and their operands: tagged descriptors of where a
//! value comes from or goes to, and what a step does once decoded.

use vstd::prelude::*;

use crate::errors::DecodeError;
use crate::registers::{Register16, Register8};

verus! {

/// Where an instruction's data comes from or goes to: a register, a 16-bit
/// register used as a memory pointer, or immediate data at the program
/// counter.
#[derive(Clone, Copy, PartialEq, Eq, Structural, Debug)]
pub enum Operand {
    /// Read or write an 8-bit register.
    Reg8(Register8),
    /// Read or write through a 16-bit register; when a byte is moved the
    /// register's value is treated as a memory address.
    Reg16(Register16),
    /// 8-bit immediate data at the program counter.
    Immediate8,
    /// 16-bit immediate data at the program counter, low byte first.
    Immediate16,
}

/// A side effect applied to the address register after a load completes,
/// modelling the post-increment and post-decrement addressing modes.
#[derive(Clone, Copy, PartialEq, Eq, Structural, Debug)]
pub enum FollowUp {
    /// Increment the address register.
    Inc,
    /// Decrement the address register.
    Dec,
}

/// The decoded operation kinds.
#[derive(Clone, Copy, PartialEq, Eq, Debug)]
pub enum InstructionType {
    /// Move a value from `src` to `dest`, then apply the optional followup
    /// to the address register.
    Load { src: Operand, dest: Operand, followup: Option<FollowUp> },
    /// Reserved: 8-bit arithmetic/logic operations.
    Arith8,
    /// Reserved: 16-bit arithmetic/logic operations.
    Arith16,
    /// Wrapping increment of the operand.
    Inc(Operand),
    /// Wrapping decrement of the operand.
    Dec(Operand),
    /// No effect.
    Nop,
    /// Stop the step loop.
    Halt,
}

/// The arithmetic/logic operations the ALU table can select. Reserved for
/// the arithmetic instruction group; decoding recognizes the table index
/// but execution does not implement these yet.
#[derive(Clone, Copy, PartialEq, Eq, Structural, Debug)]
pub enum ArithOp {
    Add,
    Adc,
    Sub,
    Sbc,
    And,
    Or,
    Xor,
    Cmp,
}

/// The ALU operation selected by a three-bit table index.
pub open spec fn alu_op(value: u8) -> ArithOp
    recommends
        value < 8,
{
    if value == 0 {
        ArithOp::Add
    } else if value == 1 {
        ArithOp::Adc
    } else if value == 2 {
        ArithOp::Sub
    } else if value == 3 {
        ArithOp::Sbc
    } else if value == 4 {
        ArithOp::And
    } else if value == 5 {
        ArithOp::Or
    } else if value == 6 {
        ArithOp::Xor
    } else {
        ArithOp::Cmp
    }
}

impl ArithOp {
    /// Look an ALU operation up by its three-bit table index.
    pub fn try_from(value: u8) -> (r: Result<ArithOp, DecodeError>)
        ensures
            value < 8 ==> r == Ok::<ArithOp, DecodeError>(alu_op(value)),
            value >= 8 ==> r == Err::<ArithOp, DecodeError>(DecodeError::AluDecodeError(value)),
    {
        match value {
            0 => Ok(ArithOp::Add),
            1 => Ok(ArithOp::Adc),
            2 => Ok(ArithOp::Sub),
            3 => Ok(ArithOp::Sbc),
            4 => Ok(ArithOp::And),
            5 => Ok(ArithOp::Or),
            6 => Ok(ArithOp::Xor),
            7 => Ok(ArithOp::Cmp),
            _ => Err(DecodeError::AluDecodeError(value)),
        }
    }
}

/// A decoded instruction: an operation kind and its cycle count. Created by
/// the decoder and consumed exactly once by the executor.
#[derive(Clone, Copy, PartialEq, Eq, Debug)]
pub struct Instruction {
    pub instruction: InstructionType,
    pub cycles: u8,
}

impl Instruction {
    /// A load from `src` to `dest` with an optional followup.
    pub fn load(src: Operand, dest: Operand, followup: Option<FollowUp>) -> (r: Self)
        ensures
            r == (Instruction {
                instruction: InstructionType::Load { src, dest, followup },
                cycles: 1,
            }),
    {
        Instruction { instruction: InstructionType::Load { src, dest, followup }, cycles: 1 }
    }

    /// A HALT instruction.
    pub fn halt() -> (r: Self)
        ensures
            r == (Instruction { instruction: InstructionType::Halt, cycles: 1 }),
    {
        Instruction { instruction: InstructionType::Halt, cycles: 1 }
    }

    /// A NOP instruction.
    pub fn nop() -> (r: Self)
        ensures
            r == (Instruction { instruction: InstructionType::Nop, cycles: 1 }),
    {
        Instruction { instruction: InstructionType::Nop, cycles: 1 }
    }

    /// An increment of the passed operand.
    pub fn inc(operand: Operand) -> (r: Self)
        ensures
            r == (Instruction { instruction: InstructionType::Inc(operand), cycles: 1 }),
    {
        Instruction { instruction: InstructionType::Inc(operand), cycles: 1 }
    }

    /// A decrement of the passed operand.
    pub fn dec(operand: Operand) -> (r: Self)
        ensures
            r == (Instruction { instruction: InstructionType::Dec(operand), cycles: 1 }),
    {
        Instruction { instruction: InstructionType::Dec(operand), cycles: 1 }
    }

    /// The operation kind.
    pub fn itype(&self) -> (r: InstructionType)
        ensures
            r == self.instruction,
    {
        self.instruction
    }
}

/// The 8-register lookup table, indexed by a three-bit field: index 6
/// selects `HL` used as a memory pointer instead of an 8-bit register.
pub open spec fn r_operand(trip: u8) -> Operand
    recommends
        trip < 8,
{
    if trip == 0 {
        Operand::Reg8(Register8::B)
    } else if trip == 1 {
        Operand::Reg8(Register8::C)
    } else if trip == 2 {
        Operand::Reg8(Register8::D)
    } else if trip == 3 {
        Operand::Reg8(Register8::E)
    } else if trip == 4 {
        Operand::Reg8(Register8::H)
    } else if trip == 5 {
        Operand::Reg8(Register8::L)
    } else if trip == 6 {
        Operand::Reg16(Register16::HL)
    } else {
        Operand::Reg8(Register8::A)
    }
}

/// The first 16-bit register-pair lookup table, indexed by a two-bit field.
pub open spec fn rp_operand(dub: u8) -> Operand
    recommends
        dub < 4,
{
    if dub == 0 {
        Operand::Reg16(Register16::BC)
    } else if dub == 1 {
        Operand::Reg16(Register16::DE)
    } else if dub == 2 {
        Operand::Reg16(Register16::HL)
    } else {
        Operand::Reg16(Register16::SP)
    }
}

/// The second 16-bit register-pair lookup table, indexed by a two-bit field.
pub open spec fn rp2_operand(dub: u8) -> Operand
    recommends
        dub < 4,
{
    if dub == 0 {
        Operand::Reg16(Register16::BC)
    } else if dub == 1 {
        Operand::Reg16(Register16::DE)
    } else if dub == 2 {
        Operand::Reg16(Register16::HL)
    } else {
        Operand::Reg16(Register16::AF)
    }
}

impl Operand {
    /// Look an operand up in the 8-register table by a three-bit field.
    pub fn from_r_table(trip: u8) -> (r: Result<Self, DecodeError>)
        ensures
            trip < 8 ==> r == Ok::<Operand, DecodeError>(r_operand(trip)),
            trip >= 8 ==> r == Err::<Operand, DecodeError>(DecodeError::RPTableLookupError(trip)),
    {
        match trip {
            0 => Ok(Operand::Reg8(Register8::B)),
            1 => Ok(Operand::Reg8(Register8::C)),
            2 => Ok(Operand::Reg8(Register8::D)),
            3 => Ok(Operand::Reg8(Register8::E)),
            4 => Ok(Operand::Reg8(Register8::H)),
            5 => Ok(Operand::Reg8(Register8::L)),
            6 => Ok(Operand::Reg16(Register16::HL)),
            7 => Ok(Operand::Reg8(Register8::A)),
            _ => Err(DecodeError::RPTableLookupError(trip)),
        }
    }

    /// Look an operand up in the first 16-bit register-pair table by a
    /// two-bit field.
    pub fn from_rp_table(dub: u8) -> (r: Result<Self, DecodeError>)
        ensures
            dub < 4 ==> r == Ok::<Operand, DecodeError>(rp_operand(dub)),
            dub >= 4 ==> r == Err::<Operand, DecodeError>(DecodeError::RP1TableLookupError(dub)),
    {
        match dub {
            0 => Ok(Operand::Reg16(Register16::BC)),
            1 => Ok(Operand::Reg16(Register16::DE)),
            2 => Ok(Operand::Reg16(Register16::HL)),
            3 => Ok(Operand::Reg16(Register16::SP)),
            _ => Err(DecodeError::RP1TableLookupError(dub)),
        }
    }

    /// Look an operand up in the second 16-bit register-pair table by a
    /// two-bit field.
    pub fn from_rp2_table(dub: u8) -> (r: Result<Self, DecodeError>)
        ensures
            dub < 4 ==> r == Ok::<Operand, DecodeError>(rp2_operand(dub)),
            dub >= 4 ==> r == Err::<Operand, DecodeError>(DecodeError::RP1TableLookupError(dub)),
    {
        match dub {
            0 => Ok(Operand::Reg16(Register16::BC)),
            1 => Ok(Operand::Reg16(Register16::DE)),
            2 => Ok(Operand::Reg16(Register16::HL)),
            3 => Ok(Operand::Reg16(Register16::AF)),
            _ => Err(DecodeError::RP1TableLookupError(dub)),
        }
    }
}

} // verus!
