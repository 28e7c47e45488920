//! Single-byte registers whose bits act like flags.
use vstd::prelude::*;
use vstd::std_specs::bits::u8_trailing_zeros;
use vstd::std_specs::ops::{BitAndSpecImpl, BitOrSpecImpl, BitXorSpecImpl};

verus! {

/// True iff exactly one bit of `v` is set.
pub open spec fn is_single_bit(v: u8) -> bool {
    ||| v == 0x01
    ||| v == 0x02
    ||| v == 0x04
    ||| v == 0x08
    ||| v == 0x10
    ||| v == 0x20
    ||| v == 0x40
    ||| v == 0x80
}

/// The byte `byte` with the bits of `mask` set to `value`.
pub open spec fn with_bits(byte: u8, mask: u8, value: bool) -> u8 {
    if value {
        byte | mask
    } else {
        byte & !mask
    }
}

/// For enums that index the bits of a [Flags].
pub trait FlagsEnum {
    /// The bit mask that this flag stands for.
    spec fn spec_val(&self) -> u8;

    /// Get the value of the enum.
    fn val(&self) -> (r: u8)
        ensures
            r == self.spec_val(),
    ;

    /// Every flag stands for exactly one bit.
    proof fn lemma_single_bit(&self)
        ensures
            is_single_bit(self.spec_val()),
    ;
}

/// For single-byte I/O registers whose bits act like flags.
#[derive(Debug, Copy, Clone, PartialEq, Eq, Structural)]
pub struct Flags {
    /// The contents of the register.
    pub byte: u8,
}

impl Default for Flags {
    fn default() -> (r: Self)
        ensures
            r.byte == 0,
    {
        Flags { byte: 0 }
    }
}

proof fn lemma_trailing_zeros_single_bit(v: u8)
    requires
        is_single_bit(v),
    ensures
        u8_trailing_zeros(v) < 8,
        (1u8 << (u8_trailing_zeros(v) as u8)) == v,
{
    broadcast use vstd::std_specs::bits::axiom_u8_trailing_zeros;
    let t = u8_trailing_zeros(v) as u8;
    assert(v != 0);
    assert(t < 8);
    assert((v >> t) & 1u8 == 1u8);
    assert(v == 1u8 << t) by (bit_vector)
        requires
            v == 0x01 || v == 0x02 || v == 0x04 || v == 0x08 || v == 0x10 || v == 0x20 || v == 0x40
                || v == 0x80,
            t < 8,
            (v >> t) & 1u8 == 1u8,
    ;
}

impl Flags {
    /// Create a new instance of the struct with its default boot values.
    pub fn new(default_vals: u8) -> (r: Self)
        ensures
            r.byte == default_vals,
    {
        Self { byte: default_vals }
    }

    /// Read the contents of the register.
    pub fn read_byte(&self) -> (r: u8)
        ensures
            r == self.byte,
    {
        self.byte
    }

    /// Get a mutable reference to the contents of the register.
    pub fn read_byte_mut(&mut self) -> (r: &mut u8)
        ensures
            *r == old(self).byte,
            final(self).byte == *final(r),
    {
        &mut self.byte
    }

    /// Overwrite the contents of the register.
    pub fn write_byte(&mut self, byte: u8)
        ensures
            final(self).byte == byte,
    {
        self.byte = byte
    }

    /// Get the value of the given flag.
    pub fn get<F: FlagsEnum>(&self, flag: F) -> (r: bool)
        ensures
            r == (self.byte & flag.spec_val() != 0),
    {
        (self.byte & flag.val()) != 0
    }

    /// Set the value of the given flag.
    pub fn set<F: FlagsEnum>(&mut self, flag: F, value: bool)
        ensures
            final(self).byte == with_bits(old(self).byte, flag.spec_val(), value),
    {
        let v = flag.val();
        proof {
            flag.lemma_single_bit();
            lemma_trailing_zeros_single_bit(v);
        }
        let pos = v.trailing_zeros();
        let p = pos as u8;
        let old_byte = self.byte;
        let bit: u8 = if value { 1 } else { 0 };
        let new_byte = (old_byte & !(1u8 << p)) | (bit << p);
        assert(new_byte == with_bits(old_byte, v, value)) by (bit_vector)
            requires
                p < 8,
                v == 1u8 << p,
                bit == (if value { 1u8 } else { 0u8 }),
                new_byte == (old_byte & !(1u8 << p)) | (bit << p),
        ;
        self.byte = new_byte;
    }
}

impl core::ops::BitAnd for Flags {
    type Output = Self;

    fn bitand(self, rhs: Self) -> (r: Self::Output) {
        Flags::new(self.byte & rhs.byte)
    }
}

impl BitAndSpecImpl for Flags {
    open spec fn obeys_bitand_spec() -> bool {
        true
    }

    open spec fn bitand_req(self, rhs: Self) -> bool {
        true
    }

    open spec fn bitand_spec(self, rhs: Self) -> Self {
        Flags { byte: self.byte & rhs.byte }
    }
}

impl core::ops::BitOr for Flags {
    type Output = Self;

    fn bitor(self, rhs: Self) -> (r: Self::Output) {
        Flags::new(self.byte | rhs.byte)
    }
}

impl BitOrSpecImpl for Flags {
    open spec fn obeys_bitor_spec() -> bool {
        true
    }

    open spec fn bitor_req(self, rhs: Self) -> bool {
        true
    }

    open spec fn bitor_spec(self, rhs: Self) -> Self {
        Flags { byte: self.byte | rhs.byte }
    }
}

impl core::ops::BitXor for Flags {
    type Output = Self;

    fn bitxor(self, rhs: Self) -> (r: Self::Output) {
        Flags::new(self.byte ^ rhs.byte)
    }
}

impl BitXorSpecImpl for Flags {
    open spec fn obeys_bitxor_spec() -> bool {
        true
    }

    open spec fn bitxor_req(self, rhs: Self) -> bool {
        true
    }

    open spec fn bitxor_spec(self, rhs: Self) -> Self {
        Flags { byte: self.byte ^ rhs.byte }
    }
}

impl core::ops::BitAndAssign for Flags {
    fn bitand_assign(&mut self, rhs: Self)
        ensures
            final(self).byte == old(self).byte & rhs.byte,
    {
        self.byte = self.byte & rhs.byte;
    }
}

impl core::ops::BitOrAssign for Flags {
    fn bitor_assign(&mut self, rhs: Self) {
        self.byte = self.byte | rhs.byte;
    }
}

impl core::ops::BitXorAssign for Flags {
    fn bitxor_assign(&mut self, rhs: Self) {
        self.byte = self.byte ^ rhs.byte;
    }
}

} // verus!
