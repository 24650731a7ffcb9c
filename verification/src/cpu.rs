//! The CPU: opcode decoder, executor and fetch-decode-execute step loop
//! over the register file and memory.
//!
//! Every operation is specified against a functional model: spec functions
//! that map the machine state (register file and memory contents) to the
//! state after the operation, including the outcome returned.

use vstd::prelude::*;

use crate::errors::{CpuError, DecodeError, ReadError, WriteError};
use crate::instructions::{r_operand, rp_operand, FollowUp, Instruction, InstructionType, Operand};
use crate::memory::{Address, Memory, MEM_SIZE};
use crate::registers::{wrap_inc16, Register16, Register8, RegisterTrait, Registers};

verus! {

/// Whether the step loop keeps going.
#[derive(Clone, Copy, PartialEq, Eq, Structural, Debug)]
pub enum CpuState {
    /// Keep stepping.
    Running,
    /// A HALT instruction was executed.
    Halted,
}

/// The CPU: a register file and the memory it addresses.
pub struct Cpu {
    pub registers: Registers,
    pub mem: Memory,
}

/// Opcode bit field `x`: bits 7..6.
pub open spec fn opcode_x(opcode: u8) -> u8 {
    opcode / 64
}

/// Opcode bit field `y`: bits 5..3.
pub open spec fn opcode_y(opcode: u8) -> u8 {
    (opcode / 8) % 8
}

/// Opcode bit field `z`: bits 2..0.
pub open spec fn opcode_z(opcode: u8) -> u8 {
    opcode % 8
}

/// Derived field `p`: the high two bits of `y`.
pub open spec fn opcode_p(opcode: u8) -> u8 {
    opcode_y(opcode) / 2
}

/// Derived field `q`: the low bit of `y`.
pub open spec fn opcode_q(opcode: u8) -> u8 {
    opcode_y(opcode) % 2
}

/// The instruction an opcode byte decodes to, or the decode failure.
/// The decoder is a closed world: a bit pattern outside the recognized
/// groups is an error, never silently a NOP.
pub open spec fn decode_spec(opcode: u8) -> Result<Instruction, DecodeError> {
    let x = opcode_x(opcode);
    let y = opcode_y(opcode);
    let z = opcode_z(opcode);
    let p = opcode_p(opcode);
    let q = opcode_q(opcode);
    if x == 0 && z == 2 {
        // Indirect loads between the accumulator and memory addressed by a
        // register pair, with post-increment/decrement for the HL forms.
        let pair = if p == 0 {
            Register16::BC
        } else if p == 1 {
            Register16::DE
        } else {
            Register16::HL
        };
        let followup = if p == 2 {
            Some(FollowUp::Inc)
        } else if p == 3 {
            Some(FollowUp::Dec)
        } else {
            None
        };
        if q == 0 {
            Ok(
                Instruction {
                    instruction: InstructionType::Load {
                        src: Operand::Reg8(Register8::A),
                        dest: Operand::Reg16(pair),
                        followup,
                    },
                    cycles: 1,
                },
            )
        } else {
            Ok(
                Instruction {
                    instruction: InstructionType::Load {
                        src: Operand::Reg16(pair),
                        dest: Operand::Reg8(Register8::A),
                        followup,
                    },
                    cycles: 1,
                },
            )
        }
    } else if x == 0 && z == 3 {
        // 16-bit increment or decrement of a register pair.
        if q == 0 {
            Ok(Instruction { instruction: InstructionType::Inc(rp_operand(p)), cycles: 1 })
        } else {
            Ok(Instruction { instruction: InstructionType::Dec(rp_operand(p)), cycles: 1 })
        }
    } else if x == 1 && y == 6 && z == 6 {
        // The one opcode that collides with the register-to-register load
        // pattern.
        Ok(Instruction { instruction: InstructionType::Halt, cycles: 1 })
    } else if x == 1 {
        // Register-to-register load; a load from a register to itself is a
        // NOP.
        if r_operand(z) == r_operand(y) {
            Ok(Instruction { instruction: InstructionType::Nop, cycles: 1 })
        } else {
            Ok(
                Instruction {
                    instruction: InstructionType::Load {
                        src: r_operand(z),
                        dest: r_operand(y),
                        followup: None,
                    },
                    cycles: 1,
                },
            )
        }
    } else if x == 0 && z == 6 {
        // Load an 8-bit immediate into the register selected by `y`.
        Ok(
            Instruction {
                instruction: InstructionType::Load {
                    src: Operand::Immediate8,
                    dest: r_operand(y),
                    followup: None,
                },
                cycles: 1,
            },
        )
    } else if x == 0 && y == 0 && z == 0 {
        Ok(Instruction { instruction: InstructionType::Nop, cycles: 1 })
    } else {
        Err(DecodeError::Unmatched(opcode, x, y, z, p, q))
    }
}

/// Resolving an operand to a byte: the value fetched (or the failure) and
/// the register file afterwards. Memory is never changed. An 8-bit
/// immediate advances the program counter past itself; a 16-bit register
/// is dereferenced as a memory address; a 16-bit immediate cannot yield a
/// byte.
pub open spec fn fetch_byte_outcome(regs: Registers, mem: Seq<u8>, op: Operand) -> (Result<
    u8,
    CpuError,
>, Registers)
    recommends
        mem.len() == MEM_SIZE,
{
    match op {
        Operand::Reg8(reg) => (Ok(reg.value_of(regs)), regs),
        Operand::Reg16(reg) => (Ok(mem[reg.value_of(regs) as int]), regs),
        Operand::Immediate8 => (Ok(mem[regs.pc as int]), Register16::PC.incremented(regs)),
        Operand::Immediate16 => (Err(CpuError::FetchError), regs),
    }
}

/// Resolving an operand to a word: the value fetched (or the failure) and
/// the register file afterwards. A 16-bit immediate is read at the program
/// counter, low byte first, and advances the program counter past both
/// bytes; no other operand but a 16-bit register yields a word.
pub open spec fn fetch_word_outcome(regs: Registers, mem: Seq<u8>, op: Operand) -> (Result<
    u16,
    CpuError,
>, Registers)
    recommends
        mem.len() == MEM_SIZE,
{
    match op {
        Operand::Reg16(reg) => (Ok(reg.value_of(regs)), regs),
        Operand::Immediate16 => {
            let lo = mem[regs.pc as int];
            let hi = mem[wrap_inc16(regs.pc) as int];
            (
                Ok((hi * 256 + lo) as u16),
                Register16::PC.incremented(Register16::PC.incremented(regs)),
            )
        },
        Operand::Reg8(_) => (Err(CpuError::FetchError), regs),
        Operand::Immediate8 => (Err(CpuError::FetchError), regs),
    }
}

/// The 16-bit register a load used as its memory address, if any: the
/// destination if the destination is a register pair, else the source.
pub open spec fn address_register(src: Operand, dest: Operand) -> Option<Register16> {
    match dest {
        Operand::Reg16(reg) => Some(reg),
        _ => match src {
            Operand::Reg16(reg) => Some(reg),
            _ => None,
        },
    }
}

/// The register file after a load's followup: a wrapping increment or
/// decrement of the address register. A load without an address register
/// has nothing to follow up on.
pub open spec fn followup_applied(
    regs: Registers,
    src: Operand,
    dest: Operand,
    followup: Option<FollowUp>,
) -> Registers {
    match followup {
        None => regs,
        Some(f) => match address_register(src, dest) {
            None => regs,
            Some(reg) => match f {
                FollowUp::Inc => reg.incremented(regs),
                FollowUp::Dec => reg.decremented(regs),
            },
        },
    }
}

/// Executing one decoded instruction: the outcome handed to the step loop
/// (or the failure), the register file and the memory afterwards.
pub open spec fn execute_outcome(regs: Registers, mem: Seq<u8>, instr: Instruction) -> (Result<
    CpuState,
    CpuError,
>, Registers, Seq<u8>)
    recommends
        mem.len() == MEM_SIZE,
{
    match instr.instruction {
        InstructionType::Load { src, dest, followup } => match dest {
            Operand::Reg8(dreg) => {
                let (fetched, regs1) = fetch_byte_outcome(regs, mem, src);
                match fetched {
                    Ok(byte) => (
                        Ok(CpuState::Running),
                        followup_applied(dreg.updated(regs1, byte), src, dest, followup),
                        mem,
                    ),
                    Err(e) => (Err(e), regs1, mem),
                }
            },
            Operand::Reg16(dreg) => match src {
                Operand::Reg8(_) | Operand::Immediate8 => {
                    let addr = dreg.value_of(regs);
                    let (fetched, regs1) = fetch_byte_outcome(regs, mem, src);
                    match fetched {
                        Ok(byte) => (
                            Ok(CpuState::Running),
                            followup_applied(regs1, src, dest, followup),
                            mem.update(addr as int, byte),
                        ),
                        Err(e) => (Err(e), regs1, mem),
                    }
                },
                _ => (Err(CpuError::UnsupportedInstruction(instr)), regs, mem),
            },
            _ => (Err(CpuError::UnsupportedInstruction(instr)), regs, mem),
        },
        InstructionType::Inc(op) => match op {
            Operand::Reg8(reg) => (Ok(CpuState::Running), reg.incremented(regs), mem),
            Operand::Reg16(reg) => (Ok(CpuState::Running), reg.incremented(regs), mem),
            _ => (Err(CpuError::UnsupportedInstruction(instr)), regs, mem),
        },
        InstructionType::Dec(op) => match op {
            Operand::Reg8(reg) => (Ok(CpuState::Running), reg.decremented(regs), mem),
            Operand::Reg16(reg) => (Ok(CpuState::Running), reg.decremented(regs), mem),
            _ => (Err(CpuError::UnsupportedInstruction(instr)), regs, mem),
        },
        InstructionType::Nop => (Ok(CpuState::Running), regs, mem),
        InstructionType::Halt => (Ok(CpuState::Halted), regs, mem),
        InstructionType::Arith8 => (Err(CpuError::UnsupportedInstruction(instr)), regs, mem),
        InstructionType::Arith16 => (Err(CpuError::UnsupportedInstruction(instr)), regs, mem),
    }
}

/// One whole step: read the opcode at the program counter, advance the
/// counter past it, decode, execute.
pub open spec fn step_outcome(regs: Registers, mem: Seq<u8>) -> (Result<
    CpuState,
    CpuError,
>, Registers, Seq<u8>)
    recommends
        mem.len() == MEM_SIZE,
{
    let opcode = mem[regs.pc as int];
    let regs1 = Register16::PC.incremented(regs);
    match decode_spec(opcode) {
        Ok(instr) => execute_outcome(regs1, mem, instr),
        Err(e) => (Err(CpuError::Decode(e)), regs1, mem),
    }
}

/// Up to `fuel` steps: stepping stops early when a step halts or fails,
/// and the outcome is `Ok(Running)` when the budget runs out first.
pub open spec fn run_outcome(regs: Registers, mem: Seq<u8>, fuel: nat) -> (Result<
    CpuState,
    CpuError,
>, Registers, Seq<u8>)
    recommends
        mem.len() == MEM_SIZE,
    decreases fuel,
{
    if fuel == 0 {
        (Ok(CpuState::Running), regs, mem)
    } else {
        let stepped = step_outcome(regs, mem);
        if stepped.0 == Ok::<CpuState, CpuError>(CpuState::Running) {
            run_outcome(stepped.1, stepped.2, (fuel - 1) as nat)
        } else {
            stepped
        }
    }
}

/// A 16-bit value incremented with wrap-around, as the program counter
/// advances.
fn wrap_add_one(v: u16) -> (r: u16)
    ensures
        r == wrap_inc16(v),
{
    if v == 0xFFFF {
        0
    } else {
        v + 1
    }
}

/// Apply a load's followup: a wrapping increment or decrement of the
/// address register, if the load used one.
fn apply_followup(regs: &mut Registers, src: Operand, dest: Operand, followup: Option<FollowUp>)
    ensures
        *final(regs) == followup_applied(*old(regs), src, dest, followup),
{
    match followup {
        None => {},
        Some(f) => {
            let target: Option<Register16> = match (dest, src) {
                (Operand::Reg16(reg), _) => Some(reg),
                (_, Operand::Reg16(reg)) => Some(reg),
                _ => None,
            };
            match target {
                Some(reg) => match f {
                    FollowUp::Inc => regs.inc(reg),
                    FollowUp::Dec => regs.dec(reg),
                },
                None => {},
            }
        },
    }
}

impl Cpu {
    /// Well-formed: the memory covers the whole address space.
    pub open spec fn wf(self) -> bool {
        self.mem.wf()
    }

    /// Decode an opcode byte by decomposing it into the bit fields
    /// `x = bits[7:6]`, `y = bits[5:3]`, `z = bits[2:0]`, `p = y >> 1`,
    /// `q = y & 1` and dispatching on them. Referentially transparent:
    /// nothing but the opcode value matters.
    pub fn decode(&self, opcode: u8) -> (r: Result<Instruction, DecodeError>)
        ensures
            r == decode_spec(opcode),
    {
        let x = (opcode & 0xC0) >> 6;
        let y = (opcode & 0x38) >> 3;
        let q = y & 1;
        let p = y >> 1;
        let z = opcode & 0x07;
        proof {
            assert((opcode & 0xC0) >> 6 == opcode / 64) by (bit_vector);
            assert((opcode & 0x38) >> 3 == (opcode / 8) % 8) by (bit_vector);
            assert(opcode & 0x07 == opcode % 8) by (bit_vector);
            assert(((opcode & 0x38) >> 3) & 1 == ((opcode / 8) % 8) % 2) by (bit_vector);
            assert(((opcode & 0x38) >> 3) >> 1 == ((opcode / 8) % 8) / 2) by (bit_vector);
        }
        match (x, y, z, p, q) {
            // LD (BC), A
            (0, _, 2, 0, 0) => {
                let dest = Operand::Reg16(Register16::BC);
                let src = Operand::Reg8(Register8::A);
                Ok(Instruction::load(src, dest, None))
            },
            // LD (DE), A
            (0, _, 2, 1, 0) => {
                let dest = Operand::Reg16(Register16::DE);
                let src = Operand::Reg8(Register8::A);
                Ok(Instruction::load(src, dest, None))
            },
            // LD (HL+), A
            (0, _, 2, 2, 0) => {
                let dest = Operand::Reg16(Register16::HL);
                let src = Operand::Reg8(Register8::A);
                Ok(Instruction::load(src, dest, Some(FollowUp::Inc)))
            },
            // LD (HL-), A
            (0, _, 2, 3, 0) => {
                let dest = Operand::Reg16(Register16::HL);
                let src = Operand::Reg8(Register8::A);
                Ok(Instruction::load(src, dest, Some(FollowUp::Dec)))
            },
            // LD A, (BC)
            (0, _, 2, 0, 1) => {
                let dest = Operand::Reg8(Register8::A);
                let src = Operand::Reg16(Register16::BC);
                Ok(Instruction::load(src, dest, None))
            },
            // LD A, (DE)
            (0, _, 2, 1, 1) => {
                let dest = Operand::Reg8(Register8::A);
                let src = Operand::Reg16(Register16::DE);
                Ok(Instruction::load(src, dest, None))
            },
            // LD A, (HL+)
            (0, _, 2, 2, 1) => {
                let dest = Operand::Reg8(Register8::A);
                let src = Operand::Reg16(Register16::HL);
                Ok(Instruction::load(src, dest, Some(FollowUp::Inc)))
            },
            // LD A, (HL-)
            (0, _, 2, 3, 1) => {
                let dest = Operand::Reg8(Register8::A);
                let src = Operand::Reg16(Register16::HL);
                Ok(Instruction::load(src, dest, Some(FollowUp::Dec)))
            },
            // 16-bit INC
            (0, _, 3, _, 0) => Ok(Instruction::inc(Operand::from_rp_table(p)?)),
            // 16-bit DEC
            (0, _, 3, _, 1) => Ok(Instruction::dec(Operand::from_rp_table(p)?)),
            // HALT collides with the LD r, r pattern and comes first
            (1, 6, 6, _, _) => Ok(Instruction::halt()),
            // LD r, r
            (1, _, _, _, _) => {
                let dest = Operand::from_r_table(y)?;
                let src = Operand::from_r_table(z)?;
                // a register-to-itself load has no effect
                if src == dest {
                    return Ok(Instruction::nop());
                }
                Ok(Instruction::load(src, dest, None))
            },
            // LD r, d8
            (0, _, 6, _, _) => {
                let dest = Operand::from_r_table(y)?;
                let src = Operand::Immediate8;
                Ok(Instruction::load(src, dest, None))
            },
            // NOP
            (0, 0, 0, _, _) => Ok(Instruction::nop()),
            _ => Err(DecodeError::Unmatched(opcode, x, y, z, p, q)),
        }
    }

    /// Resolve an operand to a byte, reading a register, memory through a
    /// register pair, or an 8-bit immediate at the program counter.
    pub fn fetch_byte_from_operand(&mut self, operand: Operand) -> (r: Result<u8, CpuError>)
        requires
            old(self).wf(),
        ensures
            final(self).wf(),
            final(self).mem@ == old(self).mem@,
            r == fetch_byte_outcome(old(self).registers, old(self).mem@, operand).0,
            final(self).registers == fetch_byte_outcome(
                old(self).registers,
                old(self).mem@,
                operand,
            ).1,
    {
        match operand {
            Operand::Reg8(reg) => Ok(self.registers.fetch(reg)),
            Operand::Reg16(reg) => {
                let addr = self.registers.as_addr(reg);
                match self.mem.read_byte(addr) {
                    Ok(byte) => Ok(byte),
                    Err(_) => Err(CpuError::Read(ReadError::MemoryOverflow)),
                }
            },
            Operand::Immediate8 => {
                let pc = self.registers.fetch(Register16::PC);
                let byte = match self.mem.read_byte(Address(pc)) {
                    Ok(byte) => byte,
                    Err(_) => return Err(CpuError::Read(ReadError::MemoryOverflow)),
                };
                self.registers.inc(Register16::PC);
                Ok(byte)
            },
            Operand::Immediate16 => Err(CpuError::FetchError),
        }
    }

    /// Resolve an operand to a word: a 16-bit register's value, or a
    /// 16-bit immediate read at the program counter, low byte first.
    pub fn fetch_word_from_operand(&mut self, operand: Operand) -> (r: Result<u16, CpuError>)
        requires
            old(self).wf(),
        ensures
            final(self).wf(),
            final(self).mem@ == old(self).mem@,
            r == fetch_word_outcome(old(self).registers, old(self).mem@, operand).0,
            final(self).registers == fetch_word_outcome(
                old(self).registers,
                old(self).mem@,
                operand,
            ).1,
    {
        match operand {
            Operand::Reg16(reg) => Ok(self.registers.fetch(reg)),
            Operand::Immediate16 => {
                let pc = self.registers.fetch(Register16::PC);
                let lo = match self.mem.read_byte(Address(pc)) {
                    Ok(byte) => byte as u16,
                    Err(_) => return Err(CpuError::Read(ReadError::MemoryOverflow)),
                };
                let hi = match self.mem.read_byte(Address(wrap_add_one(pc))) {
                    Ok(byte) => byte as u16,
                    Err(_) => return Err(CpuError::Read(ReadError::MemoryOverflow)),
                };
                self.registers.inc(Register16::PC);
                self.registers.inc(Register16::PC);
                proof {
                    assert((hi << 8) | lo == hi * 256 + lo) by (bit_vector)
                        requires
                            hi < 256,
                            lo < 256,
                    ;
                }
                Ok((hi << 8) | lo)
            },
            _ => Err(CpuError::FetchError),
        }
    }

    /// Execute a decoded instruction: resolve its operands and apply its
    /// effects to the register file and memory. `Ok(Halted)` is the HALT
    /// signal for the step loop; reserved and malformed instructions fail
    /// with `UnsupportedInstruction`.
    pub fn fetch_and_execute(&mut self, instr: Instruction) -> (r: Result<CpuState, CpuError>)
        requires
            old(self).wf(),
        ensures
            final(self).wf(),
            r == execute_outcome(old(self).registers, old(self).mem@, instr).0,
            final(self).registers == execute_outcome(old(self).registers, old(self).mem@, instr).1,
            final(self).mem@ == execute_outcome(old(self).registers, old(self).mem@, instr).2,
    {
        match instr.itype() {
            InstructionType::Load { src, dest, followup } => {
                match dest {
                    Operand::Reg8(reg) => {
                        let byte = match self.fetch_byte_from_operand(src) {
                            Ok(byte) => byte,
                            Err(e) => return Err(e),
                        };
                        self.registers.write(reg, byte);
                        apply_followup(&mut self.registers, src, dest, followup);
                        Ok(CpuState::Running)
                    },
                    Operand::Reg16(reg) => match src {
                        Operand::Reg8(_) | Operand::Immediate8 => {
                            let addr = self.registers.as_addr(reg);
                            let byte = match self.fetch_byte_from_operand(src) {
                                Ok(byte) => byte,
                                Err(e) => return Err(e),
                            };
                            match self.mem.write_byte(addr, byte) {
                                Ok(_) => {},
                                Err(_) => return Err(
                                    CpuError::Write(WriteError::MemoryOverflow),
                                ),
                            }
                            apply_followup(&mut self.registers, src, dest, followup);
                            Ok(CpuState::Running)
                        },
                        _ => Err(CpuError::UnsupportedInstruction(instr)),
                    },
                    _ => Err(CpuError::UnsupportedInstruction(instr)),
                }
            },
            InstructionType::Inc(op) => match op {
                Operand::Reg8(reg) => {
                    self.registers.inc(reg);
                    Ok(CpuState::Running)
                },
                Operand::Reg16(reg) => {
                    self.registers.inc(reg);
                    Ok(CpuState::Running)
                },
                _ => Err(CpuError::UnsupportedInstruction(instr)),
            },
            InstructionType::Dec(op) => match op {
                Operand::Reg8(reg) => {
                    self.registers.dec(reg);
                    Ok(CpuState::Running)
                },
                Operand::Reg16(reg) => {
                    self.registers.dec(reg);
                    Ok(CpuState::Running)
                },
                _ => Err(CpuError::UnsupportedInstruction(instr)),
            },
            InstructionType::Nop => Ok(CpuState::Running),
            InstructionType::Halt => Ok(CpuState::Halted),
            InstructionType::Arith8 => Err(CpuError::UnsupportedInstruction(instr)),
            InstructionType::Arith16 => Err(CpuError::UnsupportedInstruction(instr)),
        }
    }

    /// One step of execution: read the opcode at the program counter,
    /// advance the counter past it, decode, execute.
    pub fn step(&mut self) -> (r: Result<CpuState, CpuError>)
        requires
            old(self).wf(),
        ensures
            final(self).wf(),
            r == step_outcome(old(self).registers, old(self).mem@).0,
            final(self).registers == step_outcome(old(self).registers, old(self).mem@).1,
            final(self).mem@ == step_outcome(old(self).registers, old(self).mem@).2,
    {
        let pc = self.registers.fetch(Register16::PC);
        self.registers.inc(Register16::PC);
        let opcode = match self.mem.read_byte(Address(pc)) {
            Ok(byte) => byte,
            Err(_) => return Err(CpuError::Read(ReadError::MemoryOverflow)),
        };
        let instr = match self.decode(opcode) {
            Ok(instr) => instr,
            Err(e) => return Err(CpuError::Decode(e)),
        };
        self.fetch_and_execute(instr)
    }

    /// Step repeatedly, at most `max_steps` times: `Ok(Halted)` when a
    /// HALT instruction stopped the machine, `Err` when a step failed, and
    /// `Ok(Running)` when the budget ran out first.
    #[verifier::rlimit(100)]
    pub fn run(&mut self, max_steps: usize) -> (r: Result<CpuState, CpuError>)
        requires
            old(self).wf(),
        ensures
            final(self).wf(),
            r == run_outcome(old(self).registers, old(self).mem@, max_steps as nat).0,
            final(self).registers == run_outcome(
                old(self).registers,
                old(self).mem@,
                max_steps as nat,
            ).1,
            final(self).mem@ == run_outcome(
                old(self).registers,
                old(self).mem@,
                max_steps as nat,
            ).2,
    {
        let ghost orig_regs = self.registers;
        let ghost orig_mem = self.mem@;
        let mut steps_left: usize = max_steps;
        while steps_left > 0
            invariant
                self.wf(),
                orig_regs == old(self).registers,
                orig_mem == old(self).mem@,
                run_outcome(orig_regs, orig_mem, max_steps as nat) == run_outcome(
                    self.registers,
                    self.mem@,
                    steps_left as nat,
                ),
            decreases steps_left,
        {
            let ghost prev_regs = self.registers;
            let ghost prev_mem = self.mem@;
            let ghost fuel = steps_left as nat;
            let res = self.step();
            proof {
                let stepped = step_outcome(prev_regs, prev_mem);
                assert(run_outcome(prev_regs, prev_mem, fuel) == (if stepped.0 == Ok::<
                    CpuState,
                    CpuError,
                >(CpuState::Running) {
                    run_outcome(stepped.1, stepped.2, (fuel - 1) as nat)
                } else {
                    stepped
                }));
            }
            steps_left = steps_left - 1;
            match res {
                Ok(CpuState::Running) => {},
                _ => return res,
            }
        }
        Ok(CpuState::Running)
    }
}

impl Default for Cpu {
    /// A CPU with zero-initialized registers and zero-filled memory.
    fn default() -> (r: Self)
        ensures
            r.wf(),
            r.registers == (Registers {
                a: 0,
                f: 0,
                b: 0,
                c: 0,
                d: 0,
                e: 0,
                h: 0,
                l: 0,
                sp: 0,
                pc: 0,
            }),
            forall|i: int| 0 <= i < MEM_SIZE ==> r.mem@[i] == 0u8,
    {
        Cpu { registers: Registers::default(), mem: Memory::default() }
    }
}

} // verus!

