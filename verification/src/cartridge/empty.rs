//! The stand-in for "no cartridge inserted".
use vstd::prelude::*;

use super::{no_features, CartFeatures, Cartridge};

verus! {

/// An empty cartridge. Allows for read & write testing when no cartridge is inserted.
/// Acts as a ROM-only cartridge (data from 0x0000..=0x7FFF) that can be written to; it has no
/// RAM, so that the RAM window 0xA000..=0xBFFF reads 0xFF and ignores writes.
#[derive(Debug)]
pub struct CartEmpty {
    rom: Vec<u8>,
    cart_features: CartFeatures,
}

impl View for CartEmpty {
    type V = Seq<u8>;

    /// The memory of the empty cartridge.
    closed spec fn view(&self) -> Seq<u8> {
        self.rom@
    }
}

/// The byte at `address` of an empty cartridge's memory `mem` (0xFF past its end).
pub open spec fn empty_byte(mem: Seq<u8>, address: u16) -> u8 {
    if address < mem.len() {
        mem[address as int]
    } else {
        0xFF
    }
}

/// The memory `mem` of an empty cartridge once `value` was written at `address`.
pub open spec fn empty_written(mem: Seq<u8>, address: u16, value: u8) -> Seq<u8> {
    if address < mem.len() {
        mem.update(address as int, value)
    } else {
        mem
    }
}

impl CartEmpty {
    /// The features of an empty cartridge: none.
    pub closed spec fn features(&self) -> CartFeatures {
        self.cart_features
    }

    /// Create an empty cartridge: 0x8000 zero bytes and no features.
    pub fn new() -> (r: Self)
        ensures
            r@ == Seq::new(0x8000, |i: int| 0u8),
            r.features() == no_features(),
    {
        let mut rom: Vec<u8> = Vec::new();
        while rom.len() < 0x8000
            invariant
                rom.len() <= 0x8000,
                forall|i: int| 0 <= i < rom.len() ==> rom@[i] == 0u8,
            decreases 0x8000 - rom.len(),
        {
            rom.push(0x00);
        }
        let r = Self { rom, cart_features: CartFeatures::default() };
        assert(r@ =~= Seq::new(0x8000, |i: int| 0u8));
        r
    }
}

impl Cartridge for CartEmpty {
    open spec fn rom_view(&self) -> Seq<u8> {
        self@
    }

    open spec fn features_view(&self) -> CartFeatures {
        self.features()
    }

    open spec fn spec_is_empty(&self) -> bool {
        true
    }

    open spec fn rom_readable(&self, address: u16) -> bool {
        true
    }

    open spec fn rom_byte(&self, address: u16) -> u8 {
        empty_byte(self@, address)
    }

    open spec fn ram_accessible(&self, address: u16) -> bool {
        true
    }

    open spec fn ram_byte(&self, address: u16) -> u8 {
        empty_byte(self@, address)
    }

    open spec fn rom_writable(&self, address: u16) -> bool {
        true
    }

    open spec fn rom_written(&self, address: u16, value: u8, after: &Self) -> bool {
        after@ == empty_written(self@, address, value) && after.features() == self.features()
    }

    open spec fn ram_written(&self, address: u16, value: u8, after: &Self) -> bool {
        after@ == empty_written(self@, address, value) && after.features() == self.features()
    }

    fn rom(&self) -> (r: &[u8]) {
        self.rom.as_slice()
    }

    fn cart_features(&self) -> (r: &CartFeatures) {
        &self.cart_features
    }

    fn is_empty(&self) -> (r: bool) {
        true
    }

    fn read_rom(&self, address: u16) -> (r: u8) {
        if (address as usize) < self.rom.len() {
            self.rom[address as usize]
        } else {
            0xFF
        }
    }

    fn read_ram(&self, address: u16) -> (r: u8) {
        self.read_rom(address)
    }

    fn write_rom(&mut self, address: u16, value: u8) {
        if (address as usize) < self.rom.len() {
            self.rom.set(address as usize, value);
        }
    }

    fn write_ram(&mut self, address: u16, value: u8) {
        self.write_rom(address, value)
    }
}

} // verus!
