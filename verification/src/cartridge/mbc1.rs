//! Cartridges with the MBC1 memory bank controller.
use vstd::prelude::*;

use super::{
    features_for_code, header_ram_size, header_rom_size, CartFeatures, Cartridge, BYTES_IN_KIB,
};

verus! {

/// An MBC1 cartridge.
#[derive(Debug)]
pub struct CartMBC1 {
    /// The full ROM contents.
    pub rom: Vec<u8>,
    /// The cartridge RAM.
    pub ram: Vec<u8>,
    /// The features announced by the header.
    pub cart_features: CartFeatures,
    /// Whether the RAM can be read and written.
    pub ram_enable: bool,
    /// The ROM bank number register.
    pub rom_bank_number: u8,
    /// The RAM bank number register.
    pub ram_bank_number: u8,
    /// false = 0 = simple, true = 1 = advanced
    pub banking_mode_select: bool,
}

/// The state of an MBC1 cartridge.
pub struct MBC1View {
    pub rom: Seq<u8>,
    pub ram: Seq<u8>,
    pub features: CartFeatures,
    pub ram_enable: bool,
    pub rom_bank_number: u8,
    pub ram_bank_number: u8,
    pub banking_mode_select: bool,
}

impl View for CartMBC1 {
    type V = MBC1View;

    open spec fn view(&self) -> MBC1View {
        MBC1View {
            rom: self.rom@,
            ram: self.ram@,
            features: self.cart_features,
            ram_enable: self.ram_enable,
            rom_bank_number: self.rom_bank_number,
            ram_bank_number: self.ram_bank_number,
            banking_mode_select: self.banking_mode_select,
        }
    }
}

/// The ROM images that make a valid MBC1 cartridge: the header announces an MBC1 and exactly
/// as much ROM as there is, at most 2 MiB of ROM, at most 32 KiB of RAM, and not both more
/// than 512 KiB of ROM and more than 8 KiB of RAM.
pub open spec fn mbc1_data_ok(data: Seq<u8>) -> bool {
    &&& data.len() > 0x149
    &&& features_for_code(data[0x147]).mbc1
    &&& data.len() == header_rom_size(data[0x148])
    &&& data.len() <= 2048 * 1024
    &&& header_ram_size(data[0x149]) <= 32 * 1024
    &&& !(data.len() > 512 * 1024 && header_ram_size(data[0x149]) > 8 * 1024)
}

impl MBC1View {
    /// The header announces between 32 KiB and 2 MiB of ROM, so that the bank count fits a
    /// byte and is at least 2.
    pub open spec fn wf(self) -> bool {
        self.rom.len() > 0x149 && self.rom[0x148] <= 6
    }

    /// Number of 16 KiB ROM banks announced by the header.
    pub open spec fn num_rom_banks(self) -> u8 {
        (header_rom_size(self.rom[0x148]) / 0x4000) as u8
    }

    /// Number of 8 KiB RAM banks announced by the header.
    pub open spec fn num_ram_banks(self) -> u8 {
        (header_ram_size(self.rom[0x149]) / 0x2000) as u8
    }

    /// The ROM bank mapped at 0x4000..=0x7FFF (low five bits).
    pub open spec fn rom_bank(self) -> u8 {
        let rbn = self.rom_bank_number & 0b0001_1111;
        if rbn == 0 || rbn == 1 {
            1
        } else if rbn > self.num_rom_banks() - 1 {
            rbn & ((self.num_rom_banks() - 1) as u8)
        } else {
            rbn
        }
    }

    /// The RAM bank number (two bits).
    pub open spec fn ram_bank(self) -> u8 {
        self.ram_bank_number & 0b0000_0011
    }

    /// The offset in the ROM or RAM that a cartridge address maps to.
    pub open spec fn internal_addr(self, address: u16) -> int {
        if address <= 0x3FFF {
            (if self.banking_mode_select {
                self.ram_bank() * 0x80000
            } else {
                0
            }) + address % 0x4000
        } else if address <= 0x7FFF {
            self.ram_bank() * 0x80000 + self.rom_bank() * 0x4000 + address % 0x4000
        } else {
            (if self.banking_mode_select {
                self.ram_bank() * 0x2000
            } else {
                0
            }) + address % 0x2000
        }
    }

    /// The byte read at a ROM address (0xFF past the end of the ROM).
    pub open spec fn read_rom(self, address: u16) -> u8 {
        let i = self.internal_addr(address);
        if i < self.rom.len() {
            self.rom[i]
        } else {
            0xFF
        }
    }

    /// Reading or writing RAM at `address` stays inside the RAM (or the RAM is disabled).
    pub open spec fn ram_accessible(self, address: u16) -> bool {
        !self.ram_enable || self.internal_addr(address) < self.ram.len()
    }

    /// The byte read at a RAM address (0xFF while the RAM is disabled).
    pub open spec fn read_ram(self, address: u16) -> u8 {
        if self.ram_enable {
            self.ram[self.internal_addr(address)]
        } else {
            0xFF
        }
    }

    /// The cartridge once `value` was written at a ROM address: this sets a register.
    pub open spec fn rom_written(self, address: u16, value: u8) -> MBC1View {
        if address <= 0x1FFF {
            MBC1View { ram_enable: value & 0x0F == 0x0A, ..self }
        } else if address <= 0x3FFF {
            MBC1View { rom_bank_number: value & 0b0001_1111, ..self }
        } else if address <= 0x5FFF {
            if self.num_rom_banks() > 32 || self.num_ram_banks() > 1 {
                MBC1View { ram_bank_number: value & 0b0000_0011, ..self }
            } else {
                self
            }
        } else {
            MBC1View { banking_mode_select: value & 1 == 1, ..self }
        }
    }

    /// The cartridge once `value` was written at a RAM address.
    pub open spec fn ram_written(self, address: u16, value: u8) -> MBC1View {
        if self.ram_enable {
            MBC1View { ram: self.ram.update(self.internal_addr(address), value), ..self }
        } else {
            self
        }
    }
}

/// Addresses that map into the cartridge: ROM 0x0000..=0x7FFF and RAM 0xA000..=0xBFFF.
pub open spec fn is_cart_address(address: u16) -> bool {
    address <= 0x7FFF || 0xA000 <= address <= 0xBFFF
}

impl CartMBC1 {
    /// Check whether `data` makes a valid MBC1 cartridge (see [mbc1_data_ok]).
    pub fn data_ok(data: &[u8]) -> (r: bool)
        ensures
            r == mbc1_data_ok(data@),
    {
        if data.len() <= 0x149 {
            return false;
        }
        let cf = CartFeatures::from_data(data);
        let rom_size = header_rom_size_exec(data[0x148]);
        let ram_size = header_ram_size_exec(data[0x149]);
        cf.mbc1 && data.len() == rom_size as usize && data.len() <= (2048 * BYTES_IN_KIB) as usize
            && ram_size <= 32 * BYTES_IN_KIB && !(data.len() > (512 * BYTES_IN_KIB) as usize
            && ram_size > 8 * BYTES_IN_KIB)
    }

    /// Create an MBC1 cartridge from its ROM image. The RAM is as large as the header says,
    /// and zeroed.
    pub fn new(data: Vec<u8>) -> (r: Self)
        requires
            mbc1_data_ok(data@),
        ensures
            r@ == (MBC1View {
                rom: data@,
                ram: Seq::new(header_ram_size(data@[0x149]) as nat, |i: int| 0u8),
                features: features_for_code(data@[0x147]),
                ram_enable: false,
                rom_bank_number: 0,
                ram_bank_number: 0,
                banking_mode_select: false,
            }),
            r@.wf(),
    {
        let cart_features = CartFeatures::from_data(data.as_slice());
        let ram_size = header_ram_size_exec(data[0x149]);
        let mut ram: Vec<u8> = Vec::new();
        while ram.len() < ram_size as usize
            invariant
                ram.len() <= ram_size,
                ram_size <= 128 * 1024,
                forall|i: int| 0 <= i < ram.len() ==> ram@[i] == 0u8,
            decreases ram_size - ram.len(),
        {
            ram.push(0x00);
        }
        let r = Self {
            rom: data,
            ram,
            cart_features,
            ram_enable: false,
            rom_bank_number: 0x00,
            ram_bank_number: 0x00,
            banking_mode_select: false,
        };
        proof {
            assert(r.ram@ =~= Seq::new(header_ram_size(r.rom@[0x149]) as nat, |i: int| 0u8));
            lemma_rom_size_code(r.rom@[0x148]);
        }
        r
    }

    /// Number of 16 KiB ROM banks.
    pub fn num_rom_banks(&self) -> (r: u8)
        requires
            self@.wf(),
        ensures
            r == self@.num_rom_banks(),
            2 <= r <= 128,
    {
        proof {
            lemma_rom_size_code(self.rom@[0x148]);
        }
        let size = header_rom_size_exec(self.rom[0x148]);
        (size / 0x4000) as u8
    }

    /// Number of 8 KiB RAM banks.
    pub fn num_ram_banks(&self) -> (r: u8)
        requires
            self@.rom.len() > 0x149,
        ensures
            r == self@.num_ram_banks(),
            r <= 16,
    {
        let size = header_ram_size_exec(self.rom[0x149]);
        (size / 0x2000) as u8
    }

    /// The ROM bank mapped at 0x4000..=0x7FFF.
    pub fn get_rom_bank_number(&self) -> (r: u8)
        requires
            self@.wf(),
        ensures
            r == self@.rom_bank(),
            r < 32,
    {
        let n = self.num_rom_banks();
        let reg = self.rom_bank_number;
        let rbn = reg & 0b0001_1111;
        assert(rbn < 32) by (bit_vector)
            requires
                rbn == reg & 0b0001_1111,
        ;
        if rbn == 0x00 || rbn == 0x01 {
            0b0000_0001
        } else if rbn > n - 1 {
            let m = n - 1;
            assert(rbn & m <= rbn) by (bit_vector);
            rbn & m
        } else {
            rbn
        }
    }

    /// Set the ROM bank number register (its five low bits).
    pub fn set_rom_bank_number(&mut self, value: u8)
        ensures
            final(self)@ == (MBC1View { rom_bank_number: value & 0b0001_1111, ..old(self)@ }),
    {
        self.rom_bank_number = value & 0b0001_1111;
    }

    /// The RAM bank number.
    pub fn get_ram_bank_number(&self) -> (r: u8)
        ensures
            r == self@.ram_bank(),
            r < 4,
    {
        let n = self.ram_bank_number;
        let r = n & 0b0000_0011;
        assert(r < 4) by (bit_vector)
            requires
                r == n & 0b0000_0011,
        ;
        r
    }

    /// Set the RAM bank number register (its two low bits).
    pub fn set_ram_bank_number(&mut self, value: u8)
        ensures
            final(self)@ == (MBC1View { ram_bank_number: value & 0b0000_0011, ..old(self)@ }),
    {
        self.ram_bank_number = value & 0b0000_0011;
    }

    /// The offset in the ROM or RAM that a cartridge address maps to.
    pub fn internal_addr(&self, address: u16) -> (r: usize)
        requires
            0x4000 <= address <= 0x7FFF ==> self@.wf(),
            is_cart_address(address),
        ensures
            r == self@.internal_addr(address),
    {
        let rb = self.get_ram_bank_number() as u32;
        let result: u32 = if address <= 0x3FFF {
            let low = (address as u32) & 0b0011_1111_1111_1111;
            if self.banking_mode_select {
                assert(((rb << 19) | low) == rb * 0x80000 + address % 0x4000) by (bit_vector)
                    requires
                        rb < 4,
                        low == (address as u32) & 0b0011_1111_1111_1111,
                ;
                (rb << 19) | low
            } else {
                assert(low == address % 0x4000) by (bit_vector)
                    requires
                        low == (address as u32) & 0b0011_1111_1111_1111,
                ;
                low
            }
        } else if address <= 0x7FFF {
            let rbn = self.get_rom_bank_number() as u32;
            let low = (address as u32) & 0b0011_1111_1111_1111;
            assert(((rb << 19) | (rbn << 14) | low) == rb * 0x80000 + rbn * 0x4000 + address
                % 0x4000) by (bit_vector)
                requires
                    rb < 4,
                    rbn < 32,
                    low == (address as u32) & 0b0011_1111_1111_1111,
            ;
            (rb << 19) | (rbn << 14) | low
        } else {
            let low = (address as u32) & 0b0001_1111_1111_1111;
            if self.banking_mode_select {
                assert(((rb << 13) | low) == rb * 0x2000 + address % 0x2000) by (bit_vector)
                    requires
                        rb < 4,
                        low == (address as u32) & 0b0001_1111_1111_1111,
                ;
                (rb << 13) | low
            } else {
                assert(low == address % 0x2000) by (bit_vector)
                    requires
                        low == (address as u32) & 0b0001_1111_1111_1111,
                ;
                low
            }
        };
        result as usize
    }
}

/// The ROM size (in bytes) that a header code announces.
fn header_rom_size_exec(code: u8) -> (r: u32)
    ensures
        r == header_rom_size(code),
{
    if code <= 0x08 {
        proof {
            vstd::arithmetic::power2::lemma2_to64();
            assert((code == 0 && (1u32 << code) == 1) || (code == 1 && (1u32 << code) == 2) || (
            code == 2 && (1u32 << code) == 4) || (code == 3 && (1u32 << code) == 8) || (code == 4
                && (1u32 << code) == 16) || (code == 5 && (1u32 << code) == 32) || (code == 6 && (
            1u32 << code) == 64) || (code == 7 && (1u32 << code) == 128) || (code == 8 && (1u32
                << code) == 256)) by (bit_vector)
                requires
                    code <= 8,
            ;
        }
        (1u32 << code) * 32 * BYTES_IN_KIB
    } else {
        0
    }
}

/// The RAM size (in bytes) that a header code announces.
fn header_ram_size_exec(code: u8) -> (r: u32)
    ensures
        r == header_ram_size(code),
{
    (match code {
        0x02 => 8,
        0x03 => 32,
        0x04 => 128,
        0x05 => 64,
        _ => 0,
    }) * BYTES_IN_KIB
}

/// The ROM sizes that the header codes announce.
proof fn lemma_rom_size_code(code: u8)
    ensures
        code <= 6 ==> 0x8000 <= header_rom_size(code) <= 2048 * 1024,
        code <= 6 ==> header_rom_size(code) % 0x4000 == 0,
        code > 6 ==> header_rom_size(code) == 0 || header_rom_size(code) > 2048 * 1024,
{
    vstd::arithmetic::power2::lemma2_to64();
}

impl Cartridge for CartMBC1 {
    open spec fn rom_view(&self) -> Seq<u8> {
        self.rom@
    }

    open spec fn features_view(&self) -> CartFeatures {
        self.cart_features
    }

    open spec fn spec_is_empty(&self) -> bool {
        false
    }

    open spec fn rom_readable(&self, address: u16) -> bool {
        self@.wf() && address <= 0x7FFF
    }

    open spec fn rom_byte(&self, address: u16) -> u8 {
        self@.read_rom(address)
    }

    open spec fn ram_accessible(&self, address: u16) -> bool {
        self@.wf() && 0xA000 <= address <= 0xBFFF && self@.ram_accessible(address)
    }

    open spec fn ram_byte(&self, address: u16) -> u8 {
        self@.read_ram(address)
    }

    /// Setting the RAM bank number needs the bank count, which only exists for valid headers.
    open spec fn rom_writable(&self, address: u16) -> bool {
        address <= 0x7FFF && (0x4000 <= address <= 0x5FFF ==> self@.wf())
    }

    open spec fn rom_written(&self, address: u16, value: u8, after: &Self) -> bool {
        after@ == self@.rom_written(address, value)
    }

    open spec fn ram_written(&self, address: u16, value: u8, after: &Self) -> bool {
        after@ == self@.ram_written(address, value)
    }

    fn rom(&self) -> (r: &[u8]) {
        self.rom.as_slice()
    }

    fn cart_features(&self) -> (r: &CartFeatures) {
        &self.cart_features
    }

    fn is_empty(&self) -> (r: bool) {
        false
    }

    fn read_rom(&self, address: u16) -> (r: u8) {
        let i = self.internal_addr(address);
        if i < self.rom.len() {
            self.rom[i]
        } else {
            0xFF
        }
    }

    fn read_ram(&self, address: u16) -> (r: u8) {
        if !self.ram_enable {
            return 0xFF;
        }
        self.ram[self.internal_addr(address)]
    }

    fn write_rom(&mut self, address: u16, value: u8) {
        if address <= 0x1FFF {
            // RAM enable
            self.ram_enable = (value & 0x0F) == 0x0A;
        } else if address <= 0x3FFF {
            // ROM bank number
            self.set_rom_bank_number(value);
        } else if address <= 0x5FFF {
            // RAM bank number
            if self.num_rom_banks() > 32 || self.num_ram_banks() > 1 {
                self.set_ram_bank_number(value);
            }
        } else {
            // Banking mode select
            self.banking_mode_select = (value & 0b0000_0001) == 0x01;
        }
    }

    fn write_ram(&mut self, address: u16, value: u8) {
        if !self.ram_enable {
            return;
        }
        let addr = self.internal_addr(address);
        self.ram.set(addr, value);
    }
}

} // verus!
