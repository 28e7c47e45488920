//! The registers of the emulated CPU.
use vstd::prelude::*;

use crate::flags::{is_single_bit, with_bits, Flags, FlagsEnum};

verus! {

/// Enum to define the register target of a function.
#[derive(Debug, Copy, Clone, PartialEq, Eq, Structural)]
pub enum Target {
    /// Register `A` (accumulator)
    A,
    /// Register `B`
    B,
    /// Register `C`
    C,
    /// Register `D`
    D,
    /// Register `E`
    E,
    /// Register `H`
    H,
    /// Register `L`
    L,
}

impl Target {
    /// The name of the register, as written in instruction mnemonics.
    pub open spec fn text(self) -> Seq<char> {
        match self {
            Target::A => "A"@,
            Target::B => "B"@,
            Target::C => "C"@,
            Target::D => "D"@,
            Target::E => "E"@,
            Target::H => "H"@,
            Target::L => "L"@,
        }
    }

    /// The name of the register, as written in instruction mnemonics.
    pub fn name(&self) -> (r: &'static str)
        ensures
            r@ == self.text(),
    {
        match self {
            Target::A => "A",
            Target::B => "B",
            Target::C => "C",
            Target::D => "D",
            Target::E => "E",
            Target::H => "H",
            Target::L => "L",
        }
    }
}

/// Enum to define the virtual register target of a function.
#[derive(Debug, Copy, Clone, PartialEq, Eq, Structural)]
pub enum VirtTarget {
    /// Virtual register `AF`
    AF,
    /// Virtual register `BC`
    BC,
    /// Virtual register `DE`
    DE,
    /// Virtual register `HL`
    HL,
}

impl VirtTarget {
    /// The name of the register pair, as written in instruction mnemonics.
    pub open spec fn text(self) -> Seq<char> {
        match self {
            VirtTarget::AF => "AF"@,
            VirtTarget::BC => "BC"@,
            VirtTarget::DE => "DE"@,
            VirtTarget::HL => "HL"@,
        }
    }

    /// The name of the register pair, as written in instruction mnemonics.
    pub fn name(&self) -> (r: &'static str)
        ensures
            r@ == self.text(),
    {
        match self {
            VirtTarget::AF => "AF",
            VirtTarget::BC => "BC",
            VirtTarget::DE => "DE",
            VirtTarget::HL => "HL",
        }
    }
}

/// The bit masks for the different flags of register `F`.
#[derive(Debug, Copy, Clone, PartialEq, Eq, Structural)]
pub enum RegFlag {
    /// `Z`: Zero flag
    Z,
    /// `N`: Subtraction flag
    N,
    /// `H`: Half Carry flag
    H,
    /// `C`: Carry flag
    C,
}

impl RegFlag {
    /// The bit of register `F` that holds this flag.
    pub open spec fn mask(self) -> u8 {
        match self {
            RegFlag::Z => 0b1000_0000,
            RegFlag::N => 0b0100_0000,
            RegFlag::H => 0b0010_0000,
            RegFlag::C => 0b0001_0000,
        }
    }
}

impl FlagsEnum for RegFlag {
    open spec fn spec_val(&self) -> u8 {
        self.mask()
    }

    fn val(&self) -> (r: u8) {
        match self {
            Self::Z => 0b1000_0000,
            Self::N => 0b0100_0000,
            Self::H => 0b0010_0000,
            Self::C => 0b0001_0000,
        }
    }

    proof fn lemma_single_bit(&self) {
    }
}

/// The registers of the emulated CPU.
#[derive(Debug, Copy, Clone, PartialEq, Eq, Structural)]
pub struct Registers {
    /// Register `A` (accumulator)
    pub a: u8,
    /// Register `B`
    pub b: u8,
    /// Register `C`
    pub c: u8,
    /// Register `D`
    pub d: u8,
    /// Register `E`
    pub e: u8,
    /// Register `F` (flags)
    pub f: Flags,
    /// Register `H`
    pub h: u8,
    /// Register `L`
    pub l: u8,
}

impl Default for Registers {
    fn default() -> (r: Self)
        ensures
            r == Registers::zeroed(),
    {
        Self::new()
    }
}

/// The 16-bit value whose high byte is `hi` and whose low byte is `lo`.
pub open spec fn word(hi: u8, lo: u8) -> u16 {
    (hi as int * 256 + lo as int) as u16
}

/// The high byte of a 16-bit value.
pub open spec fn hi_byte(v: u16) -> u8 {
    (v as int / 256) as u8
}

/// The low byte of a 16-bit value.
pub open spec fn lo_byte(v: u16) -> u8 {
    (v as int % 256) as u8
}

impl Registers {
    /// All registers zero.
    pub open spec fn zeroed() -> Registers {
        Registers { a: 0, b: 0, c: 0, d: 0, e: 0, f: Flags { byte: 0 }, h: 0, l: 0 }
    }

    /// The value of an 8-bit register.
    pub open spec fn reg(self, target: Target) -> u8 {
        match target {
            Target::A => self.a,
            Target::B => self.b,
            Target::C => self.c,
            Target::D => self.d,
            Target::E => self.e,
            Target::H => self.h,
            Target::L => self.l,
        }
    }

    /// These registers with one 8-bit register replaced.
    pub open spec fn with_reg(self, target: Target, value: u8) -> Registers {
        match target {
            Target::A => Registers { a: value, ..self },
            Target::B => Registers { b: value, ..self },
            Target::C => Registers { c: value, ..self },
            Target::D => Registers { d: value, ..self },
            Target::E => Registers { e: value, ..self },
            Target::H => Registers { h: value, ..self },
            Target::L => Registers { l: value, ..self },
        }
    }

    /// The value of a 16-bit register pair.
    pub open spec fn virt(self, target: VirtTarget) -> u16 {
        match target {
            VirtTarget::AF => word(self.a, self.f.byte),
            VirtTarget::BC => word(self.b, self.c),
            VirtTarget::DE => word(self.d, self.e),
            VirtTarget::HL => word(self.h, self.l),
        }
    }

    /// These registers with one register pair replaced.
    pub open spec fn with_virt(self, target: VirtTarget, value: u16) -> Registers {
        let hi = hi_byte(value);
        let lo = lo_byte(value);
        match target {
            VirtTarget::AF => Registers { a: hi, f: Flags { byte: lo }, ..self },
            VirtTarget::BC => Registers { b: hi, c: lo, ..self },
            VirtTarget::DE => Registers { d: hi, e: lo, ..self },
            VirtTarget::HL => Registers { h: hi, l: lo, ..self },
        }
    }

    /// The value of a flag of register `F`.
    pub open spec fn flag(self, flag: RegFlag) -> bool {
        self.f.byte & flag.mask() != 0
    }

    /// These registers with one flag of register `F` replaced.
    pub open spec fn with_flag(self, flag: RegFlag, value: bool) -> Registers {
        Registers { f: Flags { byte: with_bits(self.f.byte, flag.mask(), value) }, ..self }
    }

    /// These registers with register `F` cleared.
    pub open spec fn with_flags_reset(self) -> Registers {
        Registers { f: Flags { byte: 0 }, ..self }
    }

    /// Create new [Registers], all initialised to zero.
    pub fn new() -> (r: Self)
        ensures
            r == Registers::zeroed(),
    {
        Registers { a: 0, b: 0, c: 0, d: 0, e: 0, f: Flags::new(0), h: 0, l: 0 }
    }

    /// Get the value of a register.
    pub fn get_reg(&self, target: Target) -> (r: u8)
        ensures
            r == self.reg(target),
    {
        match target {
            Target::A => self.a,
            Target::B => self.b,
            Target::C => self.c,
            Target::D => self.d,
            Target::E => self.e,
            Target::H => self.h,
            Target::L => self.l,
        }
    }

    /// Set the value of a register.
    pub fn set_reg(&mut self, target: Target, value: u8)
        ensures
            *final(self) == old(self).with_reg(target, value),
    {
        match target {
            Target::A => self.a = value,
            Target::B => self.b = value,
            Target::C => self.c = value,
            Target::D => self.d = value,
            Target::E => self.e = value,
            Target::H => self.h = value,
            Target::L => self.l = value,
        }
    }

    /// Get the value of a given virtual register.
    pub fn get_virt_reg(&self, target: VirtTarget) -> (r: u16)
        ensures
            r == self.virt(target),
    {
        let (first_register, second_register) = match target {
            VirtTarget::AF => (self.a, self.f.read_byte()),
            VirtTarget::BC => (self.b, self.c),
            VirtTarget::DE => (self.d, self.e),
            VirtTarget::HL => (self.h, self.l),
        };
        let r = ((first_register as u16) << 8) | (second_register as u16);
        assert(r == first_register as u16 * 256 + second_register as u16) by (bit_vector)
            requires
                r == ((first_register as u16) << 8) | (second_register as u16),
        ;
        r
    }

    /// Set the value of a given virtual register.
    pub fn set_virt_reg(&mut self, target: VirtTarget, value: u16)
        ensures
            *final(self) == old(self).with_virt(target, value),
    {
        let hi = ((value & 0xFF00) >> 8) as u8;
        let lo = (value & 0x00FF) as u8;
        assert(hi == value / 256 && lo == value % 256) by (bit_vector)
            requires
                hi == ((value & 0xFF00) >> 8) as u8,
                lo == (value & 0x00FF) as u8,
        ;
        match target {
            VirtTarget::AF => {
                self.a = hi;
                self.f.write_byte(lo);
            },
            VirtTarget::BC => {
                self.b = hi;
                self.c = lo;
            },
            VirtTarget::DE => {
                self.d = hi;
                self.e = lo;
            },
            VirtTarget::HL => {
                self.h = hi;
                self.l = lo;
            },
        }
    }

    /// Get flag.
    pub fn get_flag(&self, flag: RegFlag) -> (r: bool)
        ensures
            r == self.flag(flag),
    {
        self.f.get(flag)
    }

    /// Set flag.
    pub fn set_flag(&mut self, flag: RegFlag, value: bool)
        ensures
            *final(self) == old(self).with_flag(flag, value),
    {
        self.f.set(flag, value)
    }

    /// Reset flags.
    pub fn reset_flags(&mut self)
        ensures
            *final(self) == old(self).with_flags_reset(),
    {
        self.f.write_byte(0b0000_0000);
    }

    /// Get the contents of register `F`.
    pub fn get_flag_byte(&self) -> (r: u8)
        ensures
            r == self.f.byte,
    {
        self.f.read_byte()
    }
}

/// Setting one flag leaves the other flags as they were.
pub broadcast proof fn lemma_with_flag_other(r: Registers, f1: RegFlag, v: bool, f2: RegFlag)
    requires
        f1 != f2,
    ensures
        #[trigger] r.with_flag(f1, v).flag(f2) == r.flag(f2),
{
    let b = r.f.byte;
    let m1 = f1.mask();
    let m2 = f2.mask();
    assert(with_bits(b, m1, v) & m2 != 0 <==> b & m2 != 0) by (bit_vector)
        requires
            m1 == 0x80 || m1 == 0x40 || m1 == 0x20 || m1 == 0x10,
            m2 == 0x80 || m2 == 0x40 || m2 == 0x20 || m2 == 0x10,
            m1 != m2,
            with_bits(b, m1, v) == if v {
                b | m1
            } else {
                b & !m1
            },
    ;
}

/// A flag reads back as it was set.
pub broadcast proof fn lemma_with_flag_same(r: Registers, f: RegFlag, v: bool)
    ensures
        #[trigger] r.with_flag(f, v).flag(f) == v,
{
    let b = r.f.byte;
    let m = f.mask();
    assert(with_bits(b, m, v) & m != 0 <==> v) by (bit_vector)
        requires
            m == 0x80 || m == 0x40 || m == 0x20 || m == 0x10,
            with_bits(b, m, v) == if v {
                b | m
            } else {
                b & !m
            },
    ;
}

} // verus!
