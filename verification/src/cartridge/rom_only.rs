//! Cartridges with nothing but ROM.
use vstd::prelude::*;

use super::{CartFeatures, Cartridge};

verus! {

/// A ROM-only cartridge.
#[derive(Debug)]
pub struct CartRomOnly {
    rom: Vec<u8>,
    cart_features: CartFeatures,
}

impl View for CartRomOnly {
    type V = Seq<u8>;

    /// The ROM contents.
    closed spec fn view(&self) -> Seq<u8> {
        self.rom@
    }
}

impl CartRomOnly {
    /// The features that the cartridge was made with.
    pub closed spec fn features(&self) -> CartFeatures {
        self.cart_features
    }

    /// Create a ROM-only cartridge from its contents and features.
    pub fn new(data: Vec<u8>, cart_features: CartFeatures) -> (r: Self)
        ensures
            r@ == data@,
            r.features() == cart_features,
    {
        Self { rom: data, cart_features }
    }
}

impl Cartridge for CartRomOnly {
    open spec fn rom_view(&self) -> Seq<u8> {
        self@
    }

    open spec fn features_view(&self) -> CartFeatures {
        self.features()
    }

    open spec fn spec_is_empty(&self) -> bool {
        false
    }

    open spec fn rom_readable(&self, address: u16) -> bool {
        address < self@.len()
    }

    open spec fn rom_byte(&self, address: u16) -> u8 {
        self@[address as int]
    }

    open spec fn ram_accessible(&self, address: u16) -> bool {
        true
    }

    /// There is no RAM: reads give 0xFF.
    open spec fn ram_byte(&self, address: u16) -> u8 {
        0xFF
    }

    open spec fn rom_writable(&self, address: u16) -> bool {
        true
    }

    /// Writes to the ROM have no effect.
    open spec fn rom_written(&self, address: u16, value: u8, after: &Self) -> bool {
        after@ == self@ && after.features() == self.features()
    }

    /// Writes to the RAM have no effect.
    open spec fn ram_written(&self, address: u16, value: u8, after: &Self) -> bool {
        after@ == self@ && after.features() == self.features()
    }

    fn rom(&self) -> (r: &[u8]) {
        self.rom.as_slice()
    }

    fn cart_features(&self) -> (r: &CartFeatures) {
        &self.cart_features
    }

    fn is_empty(&self) -> (r: bool) {
        false
    }

    fn read_rom(&self, address: u16) -> (r: u8) {
        self.rom[address as usize]
    }

    fn read_ram(&self, address: u16) -> (r: u8) {
        0xFF
    }

    fn write_rom(&mut self, address: u16, value: u8) {
    }

    fn write_ram(&mut self, address: u16, value: u8) {
    }
}

} // verus!
