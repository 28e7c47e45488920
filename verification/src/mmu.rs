//! The memory management unit: routes reads and writes to the devices that own each address.
use vstd::prelude::*;

use crate::audio::{is_audio_address, Audio};
use crate::cartridge::{Cart, CartEmpty, CartView, Cartridge};
use crate::flags::Flags;
use crate::joypad::Joypad;
use crate::ppu::{is_ppu_address, PPU};
use crate::timer::{is_timer_address, Timer};

verus! {

/// Number of T-cycles that an OAM DMA transfer keeps the bus busy.
pub const OAM_DMA_CYCLES: u32 = 640;

/// Memory management unit. Routes reads and writes and controls device state.
#[derive(Debug)]
pub struct Mmu {
    /// The cartridge.
    pub cart: Cart,
    /// The boot ROM.
    pub boot_rom: Option<[u8; 0x0100]>,
    /// Work RAM.
    pub wram: [u8; 0x2000],
    /// Echo RAM. Mirror of 0xC000-0xDDFF.
    pub eram: [u8; 0x1E00],
    /// Joypad input.
    pub joypad: Joypad,
    /// Serial transfer data.
    pub serial_data: u8,
    /// Serial transfer control.
    pub serial_control: Flags,
    /// Timer.
    pub timer: Timer,
    /// Interrupt flags register.
    pub if_reg: Flags,
    /// Audio.
    pub audio: Audio,
    /// Pixel processing unit.
    pub ppu: PPU,
    /// Disable boot ROM flag.
    pub disable_boot_rom: u8,
    /// High RAM.
    pub hram: [u8; 0x007F],
    /// Interrupt enable register.
    pub ie_reg: Flags,
    /// T-cycles left until the running OAM DMA transfer ends (0: none is running).
    pub oam_dma_remaining_cycles: u32,
}

/// The state of the memory bus.
pub struct MmuView {
    pub cart: CartView,
    pub boot_rom: Option<[u8; 0x0100]>,
    pub wram: [u8; 0x2000],
    pub eram: [u8; 0x1E00],
    pub joypad: Joypad,
    pub serial_data: u8,
    pub serial_control: Flags,
    pub timer: Timer,
    pub if_reg: Flags,
    pub audio: Audio,
    pub ppu: PPU,
    pub disable_boot_rom: u8,
    pub hram: [u8; 0x007F],
    pub ie_reg: Flags,
    pub oam_dma_remaining_cycles: u32,
}

impl View for Mmu {
    type V = MmuView;

    open spec fn view(&self) -> MmuView {
        MmuView {
            cart: self.cart@,
            boot_rom: self.boot_rom,
            wram: self.wram,
            eram: self.eram,
            joypad: self.joypad,
            serial_data: self.serial_data,
            serial_control: self.serial_control,
            timer: self.timer,
            if_reg: self.if_reg,
            audio: self.audio,
            ppu: self.ppu,
            disable_boot_rom: self.disable_boot_rom,
            hram: self.hram,
            ie_reg: self.ie_reg,
            oam_dma_remaining_cycles: self.oam_dma_remaining_cycles,
        }
    }
}

/// High RAM, the only memory that stays usable during an OAM DMA transfer.
pub open spec fn is_hram(address: u16) -> bool {
    0xFF80 <= address <= 0xFFFE
}

impl MmuView {
    /// True iff an OAM DMA transfer blocks `address`.
    pub open spec fn blocked(self, address: u16) -> bool {
        self.oam_dma_remaining_cycles > 0 && !is_hram(address)
    }

    /// True iff reads of 0x0000..=0x00FF go to the boot ROM.
    pub open spec fn boot_rom_mapped(self) -> bool {
        self.disable_boot_rom == 0 && self.boot_rom is Some
    }

    /// True iff reading `address` succeeds (only cartridge accesses can fail).
    pub open spec fn read_ok(self, address: u16) -> bool {
        if self.blocked(address) {
            true
        } else if address <= 0x00FF && self.boot_rom_mapped() {
            true
        } else if address <= 0x7FFF {
            self.cart.rom_readable(address)
        } else if 0xA000 <= address <= 0xBFFF {
            self.cart.ram_accessible(address)
        } else {
            true
        }
    }

    /// The byte read at `address`.
    pub open spec fn read(self, address: u16) -> u8 {
        if self.blocked(address) {
            0xFF
        } else if address <= 0x00FF && self.boot_rom_mapped() {
            self.boot_rom->0[address as int]
        } else if address <= 0x7FFF {
            self.cart.read_rom(address)
        } else if address <= 0x9FFF {
            self.ppu.read(address)
        } else if address <= 0xBFFF {
            self.cart.read_ram(address)
        } else if address <= 0xDFFF {
            self.wram[address - 0xC000]
        } else if address <= 0xFDFF {
            self.eram[address - 0xE000]
        } else if address <= 0xFE9F {
            self.ppu.read(address)
        } else if address <= 0xFEFF {
            0x00
        } else if address == 0xFF00 {
            self.joypad.data.byte | 0b1100_0000
        } else if address == 0xFF01 {
            self.serial_data
        } else if address == 0xFF02 {
            self.serial_control.byte
        } else if is_timer_address(address) {
            self.timer.read(address)
        } else if address == 0xFF0F {
            self.if_reg.byte
        } else if is_audio_address(address) {
            self.audio.read(address)
        } else if address == 0xFF50 {
            self.disable_boot_rom
        } else if is_ppu_address(address) {
            self.ppu.read(address)
        } else if is_hram(address) {
            self.hram[address - 0xFF80]
        } else if address == 0xFFFF {
            self.ie_reg.byte
        } else {
            0xFF
        }
    }

    /// The OAM contents after a DMA transfer from `source_high` * 0x100.
    pub open spec fn dma_oam(self, source_high: u8) -> Seq<u8> {
        Seq::new(0xA0, |i: int| self.read((source_high * 0x100 + i) as u16))
    }

    /// The OAM array whose contents are [Self::dma_oam].
    pub open spec fn dma_oam_array(self, source_high: u8) -> [u8; 0xA0] {
        choose|a: [u8; 0xA0]| a@ == self.dma_oam(source_high)
    }

    /// True iff all the reads of a DMA transfer from `source_high` * 0x100 succeed.
    pub open spec fn dma_ok(self, source_high: u8) -> bool {
        forall|i: int| 0 <= i < 0xA0 ==> #[trigger] self.read_ok((source_high * 0x100 + i) as u16)
    }

    /// True iff writing `value` at `address` succeeds (only cartridge accesses and the reads of
    /// a DMA transfer can fail).
    pub open spec fn write_ok(self, address: u16, value: u8) -> bool {
        if self.blocked(address) {
            true
        } else if address <= 0x00FF {
            self.disable_boot_rom != 0 ==> self.cart.rom_writable(address)
        } else if address <= 0x7FFF {
            self.cart.rom_writable(address)
        } else if 0xA000 <= address <= 0xBFFF {
            self.cart.ram_accessible(address)
        } else if address == 0xFF46 {
            self.dma_ok(value)
        } else {
            true
        }
    }

    /// The memory bus after writing `value` at `address`.
    pub open spec fn written(self, address: u16, value: u8) -> MmuView {
        if self.blocked(address) {
            self
        } else if address <= 0x7FFF {
            if address <= 0x00FF && self.disable_boot_rom == 0 {
                self
            } else {
                MmuView { cart: self.cart.rom_written(address, value), ..self }
            }
        } else if address <= 0x9FFF {
            MmuView { ppu: self.ppu.written(address, value), ..self }
        } else if address <= 0xBFFF {
            MmuView { cart: self.cart.ram_written(address, value), ..self }
        } else if address <= 0xDDFF {
            MmuView {
                wram: vstd::array::spec_array_update(self.wram, address - 0xC000, value),
                eram: vstd::array::spec_array_update(self.eram, address - 0xC000, value),
                ..self
            }
        } else if address <= 0xDFFF {
            MmuView {
                wram: vstd::array::spec_array_update(self.wram, address - 0xC000, value),
                ..self
            }
        } else if address <= 0xFDFF {
            self
        } else if address <= 0xFE9F {
            MmuView { ppu: self.ppu.written(address, value), ..self }
        } else if address == 0xFF00 {
            MmuView { joypad: self.joypad.written(value), ..self }
        } else if address == 0xFF01 {
            MmuView { serial_data: value, ..self }
        } else if address == 0xFF02 {
            MmuView { serial_control: Flags { byte: value }, ..self }
        } else if is_timer_address(address) {
            MmuView { timer: self.timer.written(address, value), ..self }
        } else if address == 0xFF0F {
            MmuView { if_reg: Flags { byte: value }, ..self }
        } else if is_audio_address(address) {
            MmuView { audio: self.audio.written(address, value), ..self }
        } else if address == 0xFF46 {
            MmuView {
                ppu: PPU { oam: self.dma_oam_array(value), ..self.ppu },
                oam_dma_remaining_cycles: OAM_DMA_CYCLES,
                ..self
            }
        } else if 0xFF40 <= address <= 0xFF4F || 0xFF68 <= address <= 0xFF6B {
            MmuView { ppu: self.ppu.bus_written(address, value), ..self }
        } else if address == 0xFF50 {
            MmuView { disable_boot_rom: value, ..self }
        } else if is_hram(address) {
            MmuView {
                hram: vstd::array::spec_array_update(self.hram, address - 0xFF80, value),
                ..self
            }
        } else if address == 0xFFFF {
            MmuView { ie_reg: Flags { byte: value }, ..self }
        } else {
            self
        }
    }
}


impl MmuView {
    /// The memory bus of a fresh machine with cartridge `cart` and boot ROM `boot_rom`.
    pub open spec fn initial(cart: CartView, boot_rom: Option<[u8; 0x0100]>) -> MmuView {
        MmuView {
            cart,
            boot_rom,
            wram: vstd::array::spec_array_fill_for_copy_type(0u8),
            eram: vstd::array::spec_array_fill_for_copy_type(0u8),
            joypad: Joypad::initial(),
            serial_data: 0,
            serial_control: Flags { byte: 0 },
            timer: Timer::initial(),
            if_reg: Flags { byte: 0 },
            audio: Audio::initial(),
            ppu: PPU::initial(),
            disable_boot_rom: if boot_rom is Some {
                0
            } else {
                1
            },
            hram: vstd::array::spec_array_fill_for_copy_type(0u8),
            ie_reg: Flags { byte: 0 },
            oam_dma_remaining_cycles: 0,
        }
    }

    /// The cartridge ROM can be read everywhere: a ROM-only cartridge holds the whole
    /// 0x0000..=0x7FFF range, an MBC1 header announces a supported ROM size.
    pub open spec fn rom_safe(self) -> bool {
        match self.cart {
            CartView::Empty { .. } => true,
            CartView::RomOnly { rom, .. } => rom.len() >= 0x8000,
            CartView::Mbc1(m) => m.wf(),
        }
    }

    /// The cartridge RAM window 0xA000..=0xBFFF maps inside the RAM (or the RAM is disabled).
    pub open spec fn ram_safe(self) -> bool {
        match self.cart {
            CartView::Mbc1(m) => m.ram_enable ==> (if m.banking_mode_select {
                m.ram_bank() * 0x2000
            } else {
                0
            }) + 0x2000 <= m.ram.len(),
            _ => true,
        }
    }

    /// Every read and every write succeeds.
    pub open spec fn mem_safe(self) -> bool {
        self.rom_safe() && self.ram_safe()
    }

    /// The memory bus after `t_cycles` T-cycles: the timer advances and raises its
    /// interrupts in IF, and a running OAM DMA transfer comes closer to its end.
    pub open spec fn cycled(self, t_cycles: u32) -> MmuView {
        let timer = self.timer.cycled(t_cycles);
        MmuView {
            timer,
            if_reg: Flags { byte: self.if_reg.byte | timer.interrupt_flags.byte },
            oam_dma_remaining_cycles: if self.oam_dma_remaining_cycles >= t_cycles {
                (self.oam_dma_remaining_cycles - t_cycles) as u32
            } else {
                0
            },
            ..self
        }
    }

    /// The 16-bit little-endian value at `address` and `address + 1`.
    pub open spec fn read_word(self, address: u16) -> u16 {
        (self.read(address) + self.read((address + 1) as u16) * 256) as u16
    }

    /// True iff writing the 16-bit value `value` at `address` succeeds.
    pub open spec fn write_word_ok(self, address: u16, value: u16) -> bool {
        &&& self.write_ok(address, (value % 256) as u8)
        &&& self.written(address, (value % 256) as u8).write_ok(
            (address + 1) as u16,
            (value / 256) as u8,
        )
    }

    /// The memory bus after writing `value` little-endian at `address` and `address + 1`.
    pub open spec fn written_word(self, address: u16, value: u16) -> MmuView {
        self.written(address, (value % 256) as u8).written((address + 1) as u16, (value / 256) as u8)
    }
}

/// True iff writing `address` cannot fail nor change which reads and writes succeed: it is
/// neither a cartridge address nor the DMA or boot ROM register.
pub open spec fn plain_address(address: u16) -> bool {
    (0x8000 <= address <= 0x9FFF) || (0xC000 <= address <= 0xFF45) || (0xFF47 <= address
        <= 0xFF4F) || (0xFF51 <= address)
}

impl MmuView {
    /// Reading `address` succeeds (see [MmuView::read_ok]); kept opaque so that the
    /// requirements of many instructions can be combined cheaply.
    #[verifier::opaque]
    pub open spec fn reads_ok(self, address: u16) -> bool {
        self.read_ok(address)
    }

    /// Writing any value at `address` succeeds (for the DMA register: the bus is blocked or
    /// memory-safe, so that the transfer's reads succeed).
    #[verifier::opaque]
    pub open spec fn write_safe(self, address: u16) -> bool {
        if address == 0xFF46 {
            self.blocked(address) || self.mem_safe()
        } else {
            self.write_ok(address, 0)
        }
    }

    /// Writing any 16-bit value at `address` succeeds: both bytes are plain addresses, or the
    /// bus is memory-safe.
    #[verifier::opaque]
    pub open spec fn word_write_safe(self, address: u16) -> bool {
        self.mem_safe() || (plain_address(address) && plain_address((address + 1) as u16))
    }
}

/// A read that [MmuView::reads_ok] admits succeeds.
pub broadcast proof fn lemma_reads_ok(m: MmuView, address: u16)
    requires
        m.reads_ok(address),
    ensures
        #[trigger] m.read_ok(address),
{
    reveal(MmuView::reads_ok);
}

/// A write that [MmuView::write_safe] admits succeeds, whatever the value.
pub broadcast proof fn lemma_write_safe(m: MmuView, address: u16, value: u8)
    requires
        m.write_safe(address),
    ensures
        #[trigger] m.write_ok(address, value),
{
    reveal(MmuView::write_safe);
    if address == 0xFF46 && !m.blocked(address) {
        lemma_safe_write_ok(m, address, value);
    }
}

/// Writing a plain address leaves every read and write check as it was.
pub proof fn lemma_plain_write(m: MmuView, address: u16, value: u8, other: u16)
    requires
        plain_address(address),
    ensures
        m.write_ok(address, value),
        m.written(address, value).read_ok(other) == m.read_ok(other),
        m.written(address, value).reads_ok(other) == m.reads_ok(other),
        m.written(address, value).mem_safe() == m.mem_safe(),
        m.written(address, value).word_write_safe(other) == m.word_write_safe(other),
        m.written(address, value).cart == m.cart,
{
    reveal(MmuView::reads_ok);
    reveal(MmuView::word_write_safe);
}

/// A 16-bit write that [MmuView::word_write_safe] admits succeeds; on plain addresses it
/// leaves every read check as it was.
pub proof fn lemma_word_write_safe(m: MmuView, address: u16, value: u16, other: u16)
    requires
        m.word_write_safe(address),
        address < 0xFFFF,
    ensures
        m.write_word_ok(address, value),
        plain_address(address) && plain_address((address + 1) as u16) ==> m.written_word(
            address,
            value,
        ).reads_ok(other) == m.reads_ok(other),
{
    reveal(MmuView::word_write_safe);
    if plain_address(address) && plain_address((address + 1) as u16) {
        let lo = (value % 256) as u8;
        let hi = (value / 256) as u8;
        lemma_plain_write(m, address, lo, other);
        let m1 = m.written(address, lo);
        lemma_plain_write(m1, (address + 1) as u16, hi, other);
    } else {
        lemma_safe_word_write(m, address, value);
    }
}

/// A write never changes whether the cartridge ROM can be read.
pub proof fn lemma_written_rom_readable(m: MmuView, address: u16, value: u8, other: u16)
    ensures
        m.written(address, value).cart.rom_readable(other) == m.cart.rom_readable(other),
{
}

/// Every read of a memory-safe bus succeeds.
pub broadcast proof fn lemma_safe_read_ok(m: MmuView, address: u16)
    requires
        m.mem_safe(),
    ensures
        #[trigger] m.read_ok(address),
{
}

/// Every write of a memory-safe bus succeeds.
pub broadcast proof fn lemma_safe_write_ok(m: MmuView, address: u16, value: u8)
    requires
        m.mem_safe(),
    ensures
        #[trigger] m.write_ok(address, value),
{
    if address == 0xFF46 && !m.blocked(address) {
        assert forall|i: int| 0 <= i < 0xA0 implies #[trigger] m.read_ok(
            (value * 0x100 + i) as u16,
        ) by {
            lemma_safe_read_ok(m, (value * 0x100 + i) as u16);
        }
    }
}

/// Writes never touch the timer's helper counters.
pub broadcast proof fn lemma_written_keeps_timer_sums(m: MmuView, address: u16, value: u8)
    ensures
        #[trigger] m.written(address, value).timer.timer_internal_clocksum
            == m.timer.timer_internal_clocksum,
        m.written(address, value).timer.timer_clocksum == m.timer.timer_clocksum,
{
}

/// Writes never make the cartridge ROM unreadable, and only writes to the cartridge registers
/// (0x0000..=0x7FFF) can make its RAM window unsafe.
pub proof fn lemma_written_safety(m: MmuView, address: u16, value: u8)
    ensures
        m.rom_safe() ==> m.written(address, value).rom_safe(),
        m.ram_safe() && address > 0x7FFF ==> m.written(address, value).ram_safe(),
{
}

/// On a memory-safe bus a 16-bit write succeeds, and leaves the cartridge ROM readable; it
/// leaves the RAM window safe when it does not start at a cartridge register.
pub proof fn lemma_safe_word_write(m: MmuView, address: u16, value: u16)
    requires
        m.mem_safe(),
        address < 0xFFFF,
    ensures
        m.write_word_ok(address, value),
        m.written_word(address, value).rom_safe(),
        address > 0x7FFF ==> m.written_word(address, value).mem_safe(),
{
    let lo = (value % 256) as u8;
    let hi = (value / 256) as u8;
    lemma_safe_write_ok(m, address, lo);
    let m1 = m.written(address, lo);
    lemma_written_safety(m, address, lo);
    let a1 = (address + 1) as u16;
    if address > 0x7FFF {
        lemma_safe_write_ok(m1, a1, hi);
    }
    lemma_written_safety(m1, a1, hi);
}

/// Check [plain_address].
pub(crate) fn is_plain_exec(address: u16) -> (r: bool)
    ensures
        r == plain_address(address),
{
    (0x8000 <= address && address <= 0x9FFF) || (0xC000 <= address && address <= 0xFF45) || (
    0xFF47 <= address && address <= 0xFF4F) || (0xFF51 <= address)
}

impl Mmu {
    /// Create a new [Mmu] with the given cartridge and boot ROM.
    fn new_helper(cart: Cart, boot_rom: Option<[u8; 0x0100]>) -> (r: Self)
        ensures
            r@ == MmuView::initial(cart@, boot_rom),
    {
        let have_boot_rom = boot_rom.is_some();
        Self {
            cart,
            boot_rom,
            wram: [0x00; 0x2000],
            eram: [0x00; 0x1E00],
            joypad: Joypad::new(),
            serial_data: 0x00,
            serial_control: Flags::new(0b0000_0000),
            timer: Timer::new(),
            if_reg: Flags::new(0b0000_0000),
            audio: Audio::new(),
            ppu: PPU::new(),
            disable_boot_rom: if have_boot_rom {
                0x00
            } else {
                0x01
            },
            hram: [0x00; 0x007F],
            ie_reg: Flags::new(0b0000_0000),
            oam_dma_remaining_cycles: 0,
        }
    }

    /// Create a new [Mmu] with a cartridge and a boot ROM.
    pub fn new_boot_cart(cart: Cart, boot_rom: [u8; 0x0100]) -> (r: Self)
        ensures
            r@ == MmuView::initial(cart@, Some(boot_rom)),
    {
        Self::new_helper(cart, Some(boot_rom))
    }

    /// Create a new [Mmu] with a boot ROM and no cartridge.
    pub fn new_boot(boot_rom: [u8; 0x0100]) -> (r: Self)
        ensures
            r@.cart is Empty,
            r@.cart->Empty_mem == Seq::new(0x8000, |i: int| 0u8),
            r@ == MmuView::initial(r@.cart, Some(boot_rom)),
    {
        Self::new_helper(Cart::Empty(CartEmpty::new()), Some(boot_rom))
    }

    /// Create a new [Mmu] with a cartridge and no boot ROM.
    pub fn new_cart(cart: Cart) -> (r: Self)
        ensures
            r@ == MmuView::initial(cart@, None),
    {
        Self::new_helper(cart, None)
    }

    /// Create a new [Mmu] without loading a cartridge or a boot ROM.
    pub fn new() -> (r: Self)
        ensures
            r@.cart is Empty,
            r@.cart->Empty_mem == Seq::new(0x8000, |i: int| 0u8),
            r@ == MmuView::initial(r@.cart, None),
    {
        Self::new_helper(Cart::Empty(CartEmpty::new()), None)
    }

    /// Check whether every read and every write succeeds (see [MmuView::mem_safe]).
    pub fn is_mem_safe(&self) -> (r: bool)
        ensures
            r == self@.mem_safe(),
    {
        match &self.cart {
            Cart::Empty(_) => true,
            Cart::RomOnly(c) => c.rom().len() >= 0x8000,
            Cart::Mbc1(m) => {
                if !(m.rom.len() > 0x149 && m.rom[0x148] <= 6) {
                    false
                } else if !m.ram_enable {
                    true
                } else {
                    let base: usize = if m.banking_mode_select {
                        m.get_ram_bank_number() as usize * 0x2000
                    } else {
                        0
                    };
                    base + 0x2000 <= m.ram.len()
                }
            },
        }
    }

    /// Check whether the cartridge ROM is readable up to 0x62, where the interrupt handlers
    /// start.
    pub fn vectors_readable(&self) -> (r: bool)
        ensures
            r == self@.cart.rom_readable(0x62),
    {
        match &self.cart {
            Cart::Empty(_) => true,
            Cart::RomOnly(c) => 0x62 < c.rom().len(),
            Cart::Mbc1(m) => m.rom.len() > 0x149 && m.rom[0x148] <= 6,
        }
    }

    /// Check whether reading `address` succeeds (see [MmuView::read_ok]).
    pub fn can_read(&self, address: u16) -> (r: bool)
        ensures
            r == self@.reads_ok(address),
    {
        proof {
            reveal(MmuView::reads_ok);
        }
        if self.oam_dma_remaining_cycles > 0 && !(0xFF80 <= address && address <= 0xFFFE) {
            return true;
        }
        if address <= 0x00FF && self.disable_boot_rom == 0 && self.boot_rom.is_some() {
            return true;
        }
        if address <= 0x7FFF {
            match &self.cart {
                Cart::Empty(_) => true,
                Cart::RomOnly(c) => (address as usize) < c.rom().len(),
                Cart::Mbc1(m) => m.rom.len() > 0x149 && m.rom[0x148] <= 6,
            }
        } else if 0xA000 <= address && address <= 0xBFFF {
            self.cart_ram_accessible(address)
        } else {
            true
        }
    }

    /// Check whether the cartridge RAM at `address` (0xA000..=0xBFFF) can be accessed.
    fn cart_ram_accessible(&self, address: u16) -> (r: bool)
        requires
            0xA000 <= address <= 0xBFFF,
        ensures
            r == self@.cart.ram_accessible(address),
    {
        match &self.cart {
            Cart::Mbc1(m) => {
                if !(m.rom.len() > 0x149 && m.rom[0x148] <= 6) {
                    false
                } else if !m.ram_enable {
                    true
                } else {
                    m.internal_addr(address) < m.ram.len()
                }
            },
            _ => true,
        }
    }

    /// Check whether writing any value at `address` succeeds (see [MmuView::write_safe]).
    pub fn can_write_any(&self, address: u16) -> (r: bool)
        ensures
            r == self@.write_safe(address),
    {
        proof {
            reveal(MmuView::write_safe);
        }
        if self.oam_dma_remaining_cycles > 0 && !(0xFF80 <= address && address <= 0xFFFE) {
            return true;
        }
        if address == 0xFF46 {
            return self.is_mem_safe();
        }
        if address <= 0x00FF && self.disable_boot_rom == 0 {
            return true;
        }
        if address <= 0x7FFF {
            match &self.cart {
                Cart::Mbc1(m) => !(0x4000 <= address && address <= 0x5FFF) || (m.rom.len()
                    > 0x149 && m.rom[0x148] <= 6),
                _ => true,
            }
        } else if 0xA000 <= address && address <= 0xBFFF {
            self.cart_ram_accessible(address)
        } else {
            true
        }
    }

    /// Check whether writing any 16-bit value at `address` succeeds (see
    /// [MmuView::word_write_safe]).
    pub fn can_write_word_any(&self, address: u16) -> (r: bool)
        ensures
            r == self@.word_write_safe(address),
    {
        proof {
            reveal(MmuView::word_write_safe);
        }
        if address == 0xFFFF {
            assert((address + 1) as u16 == 0) by (bit_vector)
                requires
                    address == 0xFFFF,
            ;
            return self.is_mem_safe();
        }
        self.is_mem_safe() || (is_plain_exec(address) && is_plain_exec(address + 1))
    }

    /// Directly read the byte at the given address.
    pub fn read_byte(&self, address: u16) -> (r: u8)
        requires
            self@.read_ok(address),
        ensures
            r == self@.read(address),
    {
        if self.oam_dma_remaining_cycles > 0 && !(0xFF80 <= address && address <= 0xFFFE) {
            return 0xFF;
        }
        if address <= 0x00FF && self.disable_boot_rom == 0 {
            if let Some(boot_rom) = &self.boot_rom {
                return boot_rom[address as usize];
            }
        }
        if address <= 0x7FFF {
            self.cart.read_rom(address)
        } else if address <= 0x9FFF {
            self.ppu.read_byte(address)
        } else if address <= 0xBFFF {
            self.cart.read_ram(address)
        } else if address <= 0xDFFF {
            self.wram[(address - 0xC000) as usize]
        } else if address <= 0xFDFF {
            self.eram[(address - 0xE000) as usize]
        } else if address <= 0xFE9F {
            self.ppu.read_byte(address)
        } else if address <= 0xFEFF {
            0x00
        } else if address == 0xFF00 {
            self.joypad.read_byte() | 0b1100_0000
        } else if address == 0xFF01 {
            self.serial_data
        } else if address == 0xFF02 {
            self.serial_control.read_byte()
        } else if 0xFF04 <= address && address <= 0xFF07 {
            self.timer.read_byte(address)
        } else if address == 0xFF0F {
            self.if_reg.read_byte()
        } else if (0xFF10 <= address && address <= 0xFF26) || (0xFF30 <= address && address
            <= 0xFF3F) {
            self.audio.read_byte(address)
        } else if address == 0xFF50 {
            self.disable_boot_rom
        } else if (0xFF40 <= address && address <= 0xFF4F) || (0xFF51 <= address && address
            <= 0xFF55) || (0xFF68 <= address && address <= 0xFF6B) || address == 0xFF70 {
            self.ppu.read_byte(address)
        } else if 0xFF80 <= address && address <= 0xFFFE {
            self.hram[(address - 0xFF80) as usize]
        } else if address == 0xFFFF {
            self.ie_reg.read_byte()
        } else {
            0xFF
        }
    }

    /// Read 2 bytes from the given (little-endian) start address.
    pub fn read_2_bytes(&mut self, start_address: u16) -> (r: u16)
        requires
            start_address < 0xFFFF,
            old(self)@.read_ok(start_address),
            old(self)@.read_ok((start_address + 1) as u16),
        ensures
            r == old(self)@.read_word(start_address),
            *final(self) == *old(self),
    {
        let lo = self.read_byte(start_address);
        let hi = self.read_byte(start_address + 1);
        assert((lo as u16) | ((hi as u16) << 8) == lo + hi * 256) by (bit_vector);
        (lo as u16) | ((hi as u16) << 8)
    }

    /// Start an OAM DMA transfer: copy 0xA0 bytes from `source_high` * 0x100 into OAM and keep
    /// the bus busy for [OAM_DMA_CYCLES] T-cycles.
    pub fn oam_dma_transfer(&mut self, source_high: u8)
        requires
            old(self)@.dma_ok(source_high),
        ensures
            final(self)@ == (MmuView {
                ppu: PPU { oam: old(self)@.dma_oam_array(source_high), ..old(self)@.ppu },
                oam_dma_remaining_cycles: OAM_DMA_CYCLES,
                ..old(self)@
            }),
    {
        let base: u16 = (source_high as u16) * 0x100;
        let mut oam: [u8; 0xA0] = [0x00; 0xA0];
        let mut i: usize = 0;
        while i < 0xA0
            invariant
                i <= 0xA0,
                base == source_high * 0x100,
                self@.dma_ok(source_high),
                forall|j: int| 0 <= j < i ==> oam@[j] == self@.read((source_high * 0x100 + j) as u16),
            decreases 0xA0 - i,
        {
            assert(self@.read_ok((source_high * 0x100 + i) as u16));
            let b = self.read_byte(base + i as u16);
            oam[i] = b;
            i = i + 1;
        }
        proof {
            let want = self@.dma_oam(source_high);
            assert(oam@ =~= want);
            let c = self@.dma_oam_array(source_high);
            assert(c@ == want);
            assert(c =~= oam);
        }
        self.ppu.oam = oam;
        self.oam_dma_remaining_cycles = OAM_DMA_CYCLES;
    }

    /// Directly write to the byte at the given address.
    pub fn write_byte(&mut self, address: u16, value: u8)
        requires
            old(self)@.write_ok(address, value),
        ensures
            final(self)@ == old(self)@.written(address, value),
    {
        if self.oam_dma_remaining_cycles > 0 && !(0xFF80 <= address && address <= 0xFFFE) {
            return ;
        }
        if address <= 0x00FF {
            if self.disable_boot_rom != 0 {
                self.cart.write_rom(address, value);
            }
        } else if address <= 0x7FFF {
            self.cart.write_rom(address, value);
        } else if address <= 0x9FFF {
            self.ppu.write_byte(address, value);
        } else if address <= 0xBFFF {
            self.cart.write_ram(address, value);
        } else if address <= 0xDDFF {
            let i = (address - 0xC000) as usize;
            self.wram[i] = value;
            self.eram[i] = value;
            assert(self.wram =~= vstd::array::spec_array_update(old(self).wram, i as int, value));
            assert(self.eram =~= vstd::array::spec_array_update(old(self).eram, i as int, value));
        } else if address <= 0xDFFF {
            let i = (address - 0xC000) as usize;
            self.wram[i] = value;
            assert(self.wram =~= vstd::array::spec_array_update(old(self).wram, i as int, value));
        } else if address <= 0xFDFF {
        } else if address <= 0xFE9F {
            self.ppu.write_byte(address, value);
        } else if address <= 0xFEFF {
        } else if address == 0xFF00 {
            self.joypad.write_byte(value);
        } else if address == 0xFF01 {
            self.serial_data = value;
        } else if address == 0xFF02 {
            self.serial_control.write_byte(value);
        } else if 0xFF04 <= address && address <= 0xFF07 {
            self.timer.write_byte(address, value);
        } else if address == 0xFF0F {
            self.if_reg.write_byte(value);
        } else if (0xFF10 <= address && address <= 0xFF26) || (0xFF30 <= address && address
            <= 0xFF3F) {
            self.audio.write_byte(address, value);
        } else if address == 0xFF46 {
            self.oam_dma_transfer(value);
        } else if (0xFF40 <= address && address <= 0xFF4F) || (0xFF68 <= address && address
            <= 0xFF6B) {
            self.ppu.bus_write_byte(address, value);
        } else if address == 0xFF50 {
            self.disable_boot_rom = value;
        } else if 0xFF80 <= address && address <= 0xFFFE {
            let i = (address - 0xFF80) as usize;
            self.hram[i] = value;
            assert(self.hram =~= vstd::array::spec_array_update(old(self).hram, i as int, value));
        } else if address == 0xFFFF {
            self.ie_reg.write_byte(value);
        }
    }

    /// Write 2 (little-endian) bytes to a given start address.
    pub fn write_2_bytes(&mut self, start_address: u16, value: u16)
        requires
            start_address < 0xFFFF,
            old(self)@.write_word_ok(start_address, value),
        ensures
            final(self)@ == old(self)@.written_word(start_address, value),
    {
        let lo = (value & 0x00FF) as u8;
        let hi = (value >> 8) as u8;
        assert(lo == value % 256 && hi == value / 256) by (bit_vector)
            requires
                lo == (value & 0x00FF) as u8,
                hi == (value >> 8) as u8,
        ;
        self.write_byte(start_address, lo);
        self.write_byte(start_address + 1, hi);
    }

    /// Perform one full cycle, returning the PPU t-cycles.
    pub fn cycle(&mut self, t_cycles: u32) -> (r: u32)
        requires
            old(self).timer.timer_internal_clocksum + t_cycles <= u32::MAX,
            old(self).timer.timer_clocksum + t_cycles <= u32::MAX,
        ensures
            r == t_cycles,
            final(self)@ == old(self)@.cycled(t_cycles),
            old(self).timer.inv() && t_cycles <= 256 ==> final(self).timer.inv(),
    {
        // Cycle the timer.
        self.timer.cycle(t_cycles);
        // Update IF register in case the timer triggered any interrupts.
        self.if_reg = self.if_reg | self.timer.interrupt_flags;
        // Sound generation is not emulated.
        self.audio.cycle(t_cycles);
        // Advance the OAM DMA transfer.
        self.oam_dma_remaining_cycles = self.oam_dma_remaining_cycles.saturating_sub(t_cycles);
        t_cycles
    }
}

} // verus!
