//! The register file: named 8-bit registers, their 16-bit pair views, the
//! stack pointer and the program counter, with wrapping increment and
//! decrement.

use vstd::prelude::*;

use crate::memory::Address;

verus! {

/// The raw register storage. A 16-bit pair such as `BC` is a view composed
/// from two 8-bit registers: high byte first, low byte second.
#[derive(Clone, Copy, PartialEq, Eq, Structural, Debug)]
pub struct Registers {
    pub a: u8,
    pub f: u8,
    pub b: u8,
    pub c: u8,
    pub d: u8,
    pub e: u8,
    pub h: u8,
    pub l: u8,
    pub sp: u16,
    pub pc: u16,
}

/// The 8-bit register identifiers.
#[derive(Clone, Copy, PartialEq, Eq, Structural, Debug)]
pub enum Register8 {
    A,
    F,
    B,
    C,
    D,
    E,
    H,
    L,
}

/// The 16-bit register identifiers: four pair views over 8-bit registers,
/// plus the stack pointer and the program counter.
#[derive(Clone, Copy, PartialEq, Eq, Structural, Debug)]
pub enum Register16 {
    AF,
    BC,
    DE,
    HL,
    SP,
    PC,
}

/// An 8-bit value incremented with wrap-around mod 256.
pub open spec fn wrap_inc8(v: u8) -> u8 {
    if v == 0xFF {
        0u8
    } else {
        (v + 1) as u8
    }
}

/// An 8-bit value decremented with wrap-around mod 256.
pub open spec fn wrap_dec8(v: u8) -> u8 {
    if v == 0 {
        0xFFu8
    } else {
        (v - 1) as u8
    }
}

/// A 16-bit value incremented with wrap-around mod 65536.
pub open spec fn wrap_inc16(v: u16) -> u16 {
    if v == 0xFFFF {
        0u16
    } else {
        (v + 1) as u16
    }
}

/// A 16-bit value decremented with wrap-around mod 65536.
pub open spec fn wrap_dec16(v: u16) -> u16 {
    if v == 0 {
        0xFFFFu16
    } else {
        (v - 1) as u16
    }
}

/// A register identifier whose operations on the register file are fully
/// described by the identifier's spec-level view of that file.
pub trait RegisterTrait: Sized + Copy {
    /// The width of the identified register: `u8` or `u16`.
    type Size;

    /// The value the identifier selects out of the register file.
    spec fn value_of(self, regs: Registers) -> Self::Size;

    /// The register file after storing `value` in the identified register.
    spec fn updated(self, regs: Registers, value: Self::Size) -> Registers;

    /// The register file after a wrapping increment of the identified register.
    spec fn incremented(self, regs: Registers) -> Registers;

    /// The register file after a wrapping decrement of the identified register.
    spec fn decremented(self, regs: Registers) -> Registers;

    /// Fetch the identified register.
    fn fetch(&self, registers: &Registers) -> (r: Self::Size)
        ensures
            r == self.value_of(*registers),
    ;

    /// Write the identified register.
    fn write(&self, registers: &mut Registers, value: Self::Size)
        ensures
            *final(registers) == self.updated(*old(registers), value),
    ;

    /// Increment the identified register, wrapping at its width.
    fn inc(&self, registers: &mut Registers)
        ensures
            *final(registers) == self.incremented(*old(registers)),
    ;

    /// Decrement the identified register, wrapping at its width.
    fn dec(&self, registers: &mut Registers)
        ensures
            *final(registers) == self.decremented(*old(registers)),
    ;
}

impl RegisterTrait for Register8 {
    type Size = u8;

    open spec fn value_of(self, regs: Registers) -> u8 {
        match self {
            Register8::A => regs.a,
            Register8::F => regs.f,
            Register8::B => regs.b,
            Register8::C => regs.c,
            Register8::D => regs.d,
            Register8::E => regs.e,
            Register8::H => regs.h,
            Register8::L => regs.l,
        }
    }

    open spec fn updated(self, regs: Registers, value: u8) -> Registers {
        match self {
            Register8::A => Registers { a: value, ..regs },
            Register8::F => Registers { f: value, ..regs },
            Register8::B => Registers { b: value, ..regs },
            Register8::C => Registers { c: value, ..regs },
            Register8::D => Registers { d: value, ..regs },
            Register8::E => Registers { e: value, ..regs },
            Register8::H => Registers { h: value, ..regs },
            Register8::L => Registers { l: value, ..regs },
        }
    }

    open spec fn incremented(self, regs: Registers) -> Registers {
        self.updated(regs, wrap_inc8(self.value_of(regs)))
    }

    open spec fn decremented(self, regs: Registers) -> Registers {
        self.updated(regs, wrap_dec8(self.value_of(regs)))
    }

    fn fetch(&self, registers: &Registers) -> (r: u8)
        ensures
            r == self.value_of(*registers),
    {
        match self {
            Register8::A => registers.a,
            Register8::F => registers.f,
            Register8::B => registers.b,
            Register8::C => registers.c,
            Register8::D => registers.d,
            Register8::E => registers.e,
            Register8::H => registers.h,
            Register8::L => registers.l,
        }
    }

    fn write(&self, registers: &mut Registers, value: u8)
        ensures
            *final(registers) == self.updated(*old(registers), value),
    {
        match self {
            Register8::A => registers.a = value,
            Register8::F => registers.f = value,
            Register8::B => registers.b = value,
            Register8::C => registers.c = value,
            Register8::D => registers.d = value,
            Register8::E => registers.e = value,
            Register8::H => registers.h = value,
            Register8::L => registers.l = value,
        }
    }

    fn inc(&self, registers: &mut Registers)
        ensures
            *final(registers) == self.incremented(*old(registers)),
    {
        let v = self.fetch(registers);
        let next = if v == 0xFF {
            0u8
        } else {
            v + 1
        };
        self.write(registers, next);
    }

    fn dec(&self, registers: &mut Registers)
        ensures
            *final(registers) == self.decremented(*old(registers)),
    {
        let v = self.fetch(registers);
        let next = if v == 0 {
            0xFFu8
        } else {
            v - 1
        };
        self.write(registers, next);
    }
}

impl Register16 {
    /// The 8-bit register holding the high byte of a pair view, if this
    /// identifier is a pair.
    pub open spec fn high_half(self) -> Option<Register8> {
        match self {
            Register16::AF => Some(Register8::A),
            Register16::BC => Some(Register8::B),
            Register16::DE => Some(Register8::D),
            Register16::HL => Some(Register8::H),
            Register16::SP => None,
            Register16::PC => None,
        }
    }

    /// The 8-bit register holding the low byte of a pair view, if this
    /// identifier is a pair.
    pub open spec fn low_half(self) -> Option<Register8> {
        match self {
            Register16::AF => Some(Register8::F),
            Register16::BC => Some(Register8::C),
            Register16::DE => Some(Register8::E),
            Register16::HL => Some(Register8::L),
            Register16::SP => None,
            Register16::PC => None,
        }
    }
}

impl RegisterTrait for Register16 {
    type Size = u16;

    open spec fn value_of(self, regs: Registers) -> u16 {
        match self {
            Register16::AF => (regs.a * 256 + regs.f) as u16,
            Register16::BC => (regs.b * 256 + regs.c) as u16,
            Register16::DE => (regs.d * 256 + regs.e) as u16,
            Register16::HL => (regs.h * 256 + regs.l) as u16,
            Register16::SP => regs.sp,
            Register16::PC => regs.pc,
        }
    }

    open spec fn updated(self, regs: Registers, value: u16) -> Registers {
        match self {
            Register16::AF => Registers { a: (value / 256) as u8, f: (value % 256) as u8, ..regs },
            Register16::BC => Registers { b: (value / 256) as u8, c: (value % 256) as u8, ..regs },
            Register16::DE => Registers { d: (value / 256) as u8, e: (value % 256) as u8, ..regs },
            Register16::HL => Registers { h: (value / 256) as u8, l: (value % 256) as u8, ..regs },
            Register16::SP => Registers { sp: value, ..regs },
            Register16::PC => Registers { pc: value, ..regs },
        }
    }

    open spec fn incremented(self, regs: Registers) -> Registers {
        self.updated(regs, wrap_inc16(self.value_of(regs)))
    }

    open spec fn decremented(self, regs: Registers) -> Registers {
        self.updated(regs, wrap_dec16(self.value_of(regs)))
    }

    fn fetch(&self, registers: &Registers) -> (r: u16)
        ensures
            r == self.value_of(*registers),
    {
        match self {
            Register16::AF => (registers.a as u16) * 256 + (registers.f as u16),
            Register16::BC => (registers.b as u16) * 256 + (registers.c as u16),
            Register16::DE => (registers.d as u16) * 256 + (registers.e as u16),
            Register16::HL => (registers.h as u16) * 256 + (registers.l as u16),
            Register16::SP => registers.sp,
            Register16::PC => registers.pc,
        }
    }

    fn write(&self, registers: &mut Registers, value: u16)
        ensures
            *final(registers) == self.updated(*old(registers), value),
    {
        let high = (value / 256) as u8;
        let low = (value % 256) as u8;
        match self {
            Register16::AF => {
                registers.a = high;
                registers.f = low;
            },
            Register16::BC => {
                registers.b = high;
                registers.c = low;
            },
            Register16::DE => {
                registers.d = high;
                registers.e = low;
            },
            Register16::HL => {
                registers.h = high;
                registers.l = low;
            },
            Register16::SP => registers.sp = value,
            Register16::PC => registers.pc = value,
        }
    }

    fn inc(&self, registers: &mut Registers)
        ensures
            *final(registers) == self.incremented(*old(registers)),
    {
        let v = self.fetch(registers);
        let next = if v == 0xFFFF {
            0u16
        } else {
            v + 1
        };
        self.write(registers, next);
    }

    fn dec(&self, registers: &mut Registers)
        ensures
            *final(registers) == self.decremented(*old(registers)),
    {
        let v = self.fetch(registers);
        let next = if v == 0 {
            0xFFFFu16
        } else {
            v - 1
        };
        self.write(registers, next);
    }
}

impl Registers {
    /// Fetch the value of the passed register; the width of the result is
    /// the width the identifier declares.
    pub fn fetch<R: RegisterTrait>(&self, fetcher: R) -> (r: R::Size)
        ensures
            r == fetcher.value_of(*self),
    {
        fetcher.fetch(self)
    }

    /// Write `value` to the passed register; a 16-bit pair write updates
    /// both constituent 8-bit registers.
    pub fn write<R: RegisterTrait>(&mut self, dest: R, value: R::Size)
        ensures
            *final(self) == dest.updated(*old(self), value),
    {
        dest.write(self, value)
    }

    /// Increment the passed register, wrapping at its width.
    pub fn inc<R: RegisterTrait>(&mut self, dest: R)
        ensures
            *final(self) == dest.incremented(*old(self)),
    {
        dest.inc(self);
    }

    /// Decrement the passed register, wrapping at its width.
    pub fn dec<R: RegisterTrait>(&mut self, dest: R)
        ensures
            *final(self) == dest.decremented(*old(self)),
    {
        dest.dec(self);
    }

    /// The current value of a 16-bit register, coerced to a memory address.
    pub fn as_addr(&self, reg: Register16) -> (r: Address)
        ensures
            r == Address(reg.value_of(*self)),
    {
        Address(reg.fetch(self))
    }
}

impl Default for Registers {
    /// All registers start at zero.
    fn default() -> (r: Self)
        ensures
            r == (Registers { a: 0, f: 0, b: 0, c: 0, d: 0, e: 0, h: 0, l: 0, sp: 0, pc: 0 }),
    {
        Registers { a: 0, f: 0, b: 0, c: 0, d: 0, e: 0, h: 0, l: 0, sp: 0, pc: 0 }
    }
}

/// Law: writing an 8-bit register and then fetching it gives back the
/// written value, for every register and every value.
pub proof fn lemma_write8_then_fetch(regs: Registers, r: Register8, v: u8)
    ensures
        r.value_of(r.updated(regs, v)) == v,
{
}

/// Law: writing a 16-bit register and then fetching it gives back the
/// written value; for a pair view the two constituent 8-bit registers hold
/// the value's high and low bytes.
pub proof fn lemma_write16_then_fetch(regs: Registers, p: Register16, v: u16)
    ensures
        p.value_of(p.updated(regs, v)) == v,
        p.high_half() matches Some(hi) ==> hi.value_of(p.updated(regs, v)) == v / 256,
        p.low_half() matches Some(lo) ==> lo.value_of(p.updated(regs, v)) == v % 256,
{
}

/// Law: incrementing an 8-bit register wraps mod 256.
pub proof fn lemma_inc8_wraps(regs: Registers, r: Register8)
    ensures
        r.value_of(r.incremented(regs)) == (r.value_of(regs) + 1) % 256,
{
}

/// Law: decrementing an 8-bit register wraps mod 256.
pub proof fn lemma_dec8_wraps(regs: Registers, r: Register8)
    ensures
        r.value_of(r.decremented(regs)) == (r.value_of(regs) + 255) % 256,
{
}

/// Law: incrementing a 16-bit register wraps mod 65536.
pub proof fn lemma_inc16_wraps(regs: Registers, p: Register16)
    ensures
        p.value_of(p.incremented(regs)) == (p.value_of(regs) + 1) % 65536,
{
    lemma_write16_then_fetch(regs, p, wrap_inc16(p.value_of(regs)));
}

/// Law: decrementing a 16-bit register wraps mod 65536.
pub proof fn lemma_dec16_wraps(regs: Registers, p: Register16)
    ensures
        p.value_of(p.decremented(regs)) == (p.value_of(regs) + 65535) % 65536,
{
    lemma_write16_then_fetch(regs, p, wrap_dec16(p.value_of(regs)));
}

} // verus!
