//! The pixel processing unit: VRAM, OAM, the LCD registers and scanline rendering.
use vstd::prelude::*;

use crate::flags::{with_bits, Flags, FlagsEnum};
use crate::interrupts::If;

verus! {

/// For debug: lock read value of lcd_y_coord to 0x90.
pub const LY_STUBBED: bool = false;

/// Width of the Game Boy display in pixels.
pub const DISPLAY_WIDTH: usize = 160;

/// Height of the Game Boy display in pixels.
pub const DISPLAY_HEIGHT: usize = 144;

/// Number of pixels of the display.
pub const DISPLAY_SIZE: usize = 23040;

const OAM_CYCLES: u32 = 80;

const DRAW_PX_CYCLES: u32 = 172;

const HBLANK_CYCLES: u32 = 204;

const VBLANK_CYCLES: u32 = 456;

const MAX_SCANLINES: u8 = 153;

const VRAM_ADDR_OFFSET: u16 = 0x8000;

const WINMAP_START_0: u16 = 0x9800;

const WINMAP_START_1: u16 = 0x9C00;

const BGMAP_START_0: u16 = 0x9800;

const BGMAP_START_1: u16 = 0x9C00;

/// True iff the PPU answers reads and writes at `address`.
pub open spec fn is_ppu_address(address: u16) -> bool {
    ||| 0x8000 <= address <= 0x9FFF
    ||| 0xFE00 <= address <= 0xFE9F
    ||| 0xFF40 <= address <= 0xFF4F
    ||| 0xFF51 <= address <= 0xFF55
    ||| 0xFF68 <= address <= 0xFF6B
    ||| address == 0xFF70
}

/// LCD control enum.
#[derive(Debug, Copy, Clone, PartialEq, Eq, Structural)]
pub enum Lcdc {
    /// LCD & PPU enable.
    LcdPpuEnable,
    /// Window tile map area.
    WindowTileMapArea,
    /// Window enable.
    WindowEnable,
    /// Background & window tile data area.
    BGWindowTileDataArea,
    /// Background tile map area.
    BGTileMapArea,
    /// Object size.
    OBJSize,
    /// Object enable.
    OBJEnable,
    /// Background & window enable / priority.
    BGWindowEnablePriority,
}

impl Lcdc {
    /// The bit of LCDC that this enum stands for.
    pub open spec fn mask(self) -> u8 {
        match self {
            Lcdc::LcdPpuEnable => 0b1000_0000,
            Lcdc::WindowTileMapArea => 0b0100_0000,
            Lcdc::WindowEnable => 0b0010_0000,
            Lcdc::BGWindowTileDataArea => 0b0001_0000,
            Lcdc::BGTileMapArea => 0b0000_1000,
            Lcdc::OBJSize => 0b0000_0100,
            Lcdc::OBJEnable => 0b0000_0010,
            Lcdc::BGWindowEnablePriority => 0b0000_0001,
        }
    }
}

impl FlagsEnum for Lcdc {
    open spec fn spec_val(&self) -> u8 {
        self.mask()
    }

    fn val(&self) -> (r: u8) {
        match self {
            Lcdc::LcdPpuEnable => 0b1000_0000,
            Lcdc::WindowTileMapArea => 0b0100_0000,
            Lcdc::WindowEnable => 0b0010_0000,
            Lcdc::BGWindowTileDataArea => 0b0001_0000,
            Lcdc::BGTileMapArea => 0b0000_1000,
            Lcdc::OBJSize => 0b0000_0100,
            Lcdc::OBJEnable => 0b0000_0010,
            Lcdc::BGWindowEnablePriority => 0b0000_0001,
        }
    }

    proof fn lemma_single_bit(&self) {
    }
}

/// LCD status enum.
#[derive(Debug, Copy, Clone, PartialEq, Eq, Structural)]
pub enum Stat {
    /// LYC == LY interrupt select.
    LycIntSelect,
    /// Mode 2 interrupt select.
    Mode2IntSelect,
    /// Mode 1 interrupt select.
    Mode1IntSelect,
    /// Mode 0 interrupt select.
    Mode0IntSelect,
    /// LYC == LY (read-only).
    LycEqLy,
    /// PPU mode, bit 1 (read-only).
    PpuModeBit1,
    /// PPU mode, bit 0 (read-only).
    PpuModeBit0,
}

impl Stat {
    /// The bit of STAT that this enum stands for.
    pub open spec fn mask(self) -> u8 {
        match self {
            Stat::LycIntSelect => 0b0100_0000,
            Stat::Mode2IntSelect => 0b0010_0000,
            Stat::Mode1IntSelect => 0b0001_0000,
            Stat::Mode0IntSelect => 0b0000_1000,
            Stat::LycEqLy => 0b0000_0100,
            Stat::PpuModeBit1 => 0b0000_0010,
            Stat::PpuModeBit0 => 0b0000_0001,
        }
    }
}

impl FlagsEnum for Stat {
    open spec fn spec_val(&self) -> u8 {
        self.mask()
    }

    fn val(&self) -> (r: u8) {
        match self {
            Stat::LycIntSelect => 0b0100_0000,
            Stat::Mode2IntSelect => 0b0010_0000,
            Stat::Mode1IntSelect => 0b0001_0000,
            Stat::Mode0IntSelect => 0b0000_1000,
            Stat::LycEqLy => 0b0000_0100,
            Stat::PpuModeBit1 => 0b0000_0010,
            Stat::PpuModeBit0 => 0b0000_0001,
        }
    }

    proof fn lemma_single_bit(&self) {
    }
}

/// Pixel processing unit.
#[derive(Debug, Copy, Clone)]
pub struct PPU {
    /// Data output of screen: one value (0-3) per pixel, row by row.
    pub data_output: [u8; 23040],
    /// Clone of interrupt flags to keep track of any interrupts set by the PPU.
    pub interrupt_flags: Flags,
    /// 8KiB Video RAM (VRAM).
    pub vram: [u8; 0x2000],
    /// Object attribute memory.
    pub oam: [u8; 0x00A0],
    /// Clock to keep track of timing while in a given PPU mode.
    pub mode_clock: u32,
    /// [0xFF40]
    pub lcd_control: Flags,
    /// [0xFF44] read-only
    pub lcd_y_coord: u8,
    /// [0xFF45]
    pub ly_compare: u8,
    /// [0xFF41]
    pub lcd_status: Flags,
    /// [0xFF42]
    pub bg_view_y: u8,
    /// [0xFF43]
    pub bg_view_x: u8,
    /// [0xFF4A]
    pub win_y: u8,
    /// [0xFF4B]
    pub win_x: u8,
    /// [0xFF47] (DMG mode only)
    pub bg_palette: Flags,
    /// [0xFF48] (DMG mode only)
    pub obj_palette_0: Flags,
    /// [0xFF49] (DMG mode only)
    pub obj_palette_1: Flags,
}

impl PPU {
    /// True iff LCDC enables the LCD and the PPU.
    pub open spec fn enabled(self) -> bool {
        self.lcd_control.byte & 0b1000_0000 != 0
    }

    /// The mode held in the two low bits of STAT.
    pub open spec fn mode(self) -> u8 {
        self.lcd_status.byte & 0b0000_0011
    }

    /// VRAM can be accessed unless the LCD is on and the PPU is drawing pixels.
    pub open spec fn vram_accessible(self) -> bool {
        !self.enabled() || self.mode() != 3
    }

    /// OAM can be accessed unless the LCD is on and the PPU is scanning OAM or drawing pixels.
    pub open spec fn oam_accessible(self) -> bool {
        !self.enabled() || (self.mode() != 2 && self.mode() != 3)
    }

    /// The value read at a PPU address.
    pub open spec fn read(self, address: u16) -> u8 {
        if 0x8000 <= address <= 0x9FFF {
            if self.vram_accessible() {
                self.vram[address - 0x8000]
            } else {
                0xFF
            }
        } else if 0xFE00 <= address <= 0xFE9F {
            if self.oam_accessible() {
                self.oam[address - 0xFE00]
            } else {
                0xFF
            }
        } else if address == 0xFF40 {
            self.lcd_control.byte
        } else if address == 0xFF41 {
            self.lcd_status.byte
        } else if address == 0xFF42 {
            self.bg_view_y
        } else if address == 0xFF43 {
            self.bg_view_x
        } else if address == 0xFF44 {
            if LY_STUBBED {
                0x90
            } else {
                self.lcd_y_coord
            }
        } else if address == 0xFF45 {
            self.ly_compare
        } else if address == 0xFF47 {
            self.bg_palette.byte
        } else if address == 0xFF48 {
            self.obj_palette_0.byte
        } else if address == 0xFF49 {
            self.obj_palette_1.byte
        } else if address == 0xFF4A {
            self.win_y
        } else if address == 0xFF4B {
            self.win_x
        } else {
            0xFF
        }
    }

    /// The LCD interrupt is requested when LYC == LY and its select bit is set.
    pub open spec fn lyc_checked(self) -> PPU {
        if self.lcd_status.byte & Stat::LycIntSelect.mask() != 0 && self.lcd_y_coord
            == self.ly_compare {
            PPU {
                interrupt_flags: Flags {
                    byte: with_bits(self.interrupt_flags.byte, If::Lcd.mask(), true),
                },
                ..self
            }
        } else {
            self
        }
    }

    /// The PPU after the program writes `value` at one of its addresses: the mode and
    /// coincidence bits of STAT (0-2) are read-only, and turning the LCD off stops the PPU, so
    /// that STAT reports mode 0 and no coincidence.
    pub open spec fn bus_written(self, address: u16, value: u8) -> PPU {
        if address == 0xFF41 {
            self.written(address, (value & 0xF8) | (self.lcd_status.byte & 0x07))
        } else if address == 0xFF40 && value & 0x80 == 0 {
            let p = self.written(address, value);
            PPU { lcd_status: Flags { byte: p.lcd_status.byte & 0xF8 }, ..p }
        } else {
            self.written(address, value)
        }
    }

    /// The PPU after a direct write of `value` at one of its addresses.
    pub open spec fn written(self, address: u16, value: u8) -> PPU {
        if 0x8000 <= address <= 0x9FFF {
            if self.vram_accessible() {
                PPU {
                    vram: vstd::array::spec_array_update(self.vram, address - 0x8000, value),
                    ..self
                }
            } else {
                self
            }
        } else if 0xFE00 <= address <= 0xFE9F {
            if self.oam_accessible() {
                PPU { oam: vstd::array::spec_array_update(self.oam, address - 0xFE00, value), ..self }
            } else {
                self
            }
        } else if address == 0xFF40 {
            PPU { lcd_control: Flags { byte: value }, ..self }
        } else if address == 0xFF41 {
            PPU { lcd_status: Flags { byte: value }, ..self }
        } else if address == 0xFF42 {
            PPU { bg_view_y: value, ..self }
        } else if address == 0xFF43 {
            PPU { bg_view_x: value, ..self }
        } else if address == 0xFF45 {
            PPU { ly_compare: value, ..self }.lyc_checked()
        } else if address == 0xFF47 {
            PPU { bg_palette: Flags { byte: value }, ..self }
        } else if address == 0xFF48 {
            PPU { obj_palette_0: Flags { byte: value }, ..self }
        } else if address == 0xFF49 {
            PPU { obj_palette_1: Flags { byte: value }, ..self }
        } else if address == 0xFF4A {
            PPU { win_y: value, ..self }
        } else if address == 0xFF4B {
            PPU { win_x: value, ..self }
        } else {
            self
        }
    }

    /// A freshly powered-on PPU.
    pub open spec fn initial() -> PPU {
        PPU {
            data_output: vstd::array::spec_array_fill_for_copy_type(0u8),
            interrupt_flags: Flags { byte: 0 },
            vram: vstd::array::spec_array_fill_for_copy_type(0u8),
            oam: vstd::array::spec_array_fill_for_copy_type(0u8),
            mode_clock: 0,
            lcd_control: Flags { byte: 0b0101_1000 },
            lcd_y_coord: 0,
            ly_compare: 0,
            lcd_status: Flags { byte: 0b1000_0100 },
            bg_view_y: 0,
            bg_view_x: 0,
            win_y: 0,
            win_x: 0,
            bg_palette: Flags { byte: 0 },
            obj_palette_0: Flags { byte: 0 },
            obj_palette_1: Flags { byte: 1 },
        }
    }

    /// Create a new PPU.
    pub fn new() -> (r: Self)
        ensures
            r == PPU::initial(),
            r.data_output@ == Seq::new(23040, |i: int| 0u8),
            r.vram@ == Seq::new(0x2000, |i: int| 0u8),
            r.oam@ == Seq::new(0xA0, |i: int| 0u8),
            r.interrupt_flags.byte == 0,
            r.mode_clock == 0,
            r.lcd_control.byte == 0b0101_1000,
            r.lcd_y_coord == 0,
            r.ly_compare == 0,
            r.lcd_status.byte == 0b1000_0100,
            r.bg_view_y == 0,
            r.bg_view_x == 0,
            r.win_y == 0,
            r.win_x == 0,
            r.bg_palette.byte == 0,
            r.obj_palette_0.byte == 0,
            r.obj_palette_1.byte == 1,
    {
        let r = Self {
            data_output: [0x00; 23040],
            interrupt_flags: Flags::new(0b0000_0000),
            vram: [0x00; 0x2000],
            oam: [0x00; 0x00A0],
            mode_clock: 0,
            lcd_control: Flags::new(0b0101_1000),
            lcd_y_coord: 0b0000_0000,
            ly_compare: 0b0000_0000,
            lcd_status: Flags::new(0b1000_0100),
            bg_view_y: 0b0000_0000,
            bg_view_x: 0b0000_0000,
            win_y: 0b0000_0000,
            win_x: 0b0000_0000,
            bg_palette: Flags::new(0b0000_0000),
            obj_palette_0: Flags::new(0b0000_0000),
            obj_palette_1: Flags::new(0b0000_0001),
        };
        assert(r.data_output@ =~= Seq::new(23040, |i: int| 0u8));
        assert(r.vram@ =~= Seq::new(0x2000, |i: int| 0u8));
        assert(r.oam@ =~= Seq::new(0xA0, |i: int| 0u8));
        r
    }

    /// Get the mode of the PPU.
    pub fn get_mode(&self) -> (r: u8)
        ensures
            r == self.mode(),
    {
        let b1: u8 = if self.lcd_status.get(Stat::PpuModeBit1) {
            1
        } else {
            0
        };
        let b0: u8 = if self.lcd_status.get(Stat::PpuModeBit0) {
            1
        } else {
            0
        };
        let s = self.lcd_status.byte;
        let r = (b1 << 1) | b0;
        assert(r == s & 3) by (bit_vector)
            requires
                b1 == (if s & 2 != 0 { 1u8 } else { 0u8 }),
                b0 == (if s & 1 != 0 { 1u8 } else { 0u8 }),
                r == (b1 << 1) | b0,
        ;
        r
    }

    /// Directly read the byte of a given address.
    pub fn read_byte(&self, address: u16) -> (r: u8)
        requires
            is_ppu_address(address),
        ensures
            r == self.read(address),
    {
        let enabled = self.lcd_control.get(Lcdc::LcdPpuEnable);
        let mode = self.get_mode();
        match address {
            0x8000..=0x9FFF => {
                if !enabled || mode != 3 {
                    self.vram[(address - 0x8000) as usize]
                } else {
                    0xFF
                }
            },
            0xFE00..=0xFE9F => {
                if !enabled || (mode != 2 && mode != 3) {
                    self.oam[(address - 0xFE00) as usize]
                } else {
                    0xFF
                }
            },
            0xFF40 => self.lcd_control.read_byte(),
            0xFF41 => self.lcd_status.read_byte(),
            0xFF42 => self.bg_view_y,
            0xFF43 => self.bg_view_x,
            0xFF44 => {
                if LY_STUBBED {
                    0x90
                } else {
                    self.lcd_y_coord
                }
            },
            0xFF45 => self.ly_compare,
            0xFF46 => 0xFF,
            0xFF47 => self.bg_palette.read_byte(),
            0xFF48 => self.obj_palette_0.read_byte(),
            0xFF49 => self.obj_palette_1.read_byte(),
            0xFF4A => self.win_y,
            0xFF4B => self.win_x,
            // CGB only
            _ => 0xFF,
        }
    }

    /// Write `value` at one of the PPU's addresses, as the program does (see
    /// [PPU::bus_written]).
    pub fn bus_write_byte(&mut self, address: u16, value: u8)
        requires
            is_ppu_address(address),
        ensures
            *final(self) == old(self).bus_written(address, value),
    {
        if address == 0xFF41 {
            let v = (value & 0xF8) | (self.lcd_status.byte & 0x07);
            self.write_byte(address, v);
        } else if address == 0xFF40 && value & 0x80 == 0 {
            self.write_byte(address, value);
            self.lcd_status = Flags { byte: self.lcd_status.byte & 0xF8 };
        } else {
            self.write_byte(address, value);
        }
    }

    /// Directly replace the byte at the given address.
    pub fn write_byte(&mut self, address: u16, value: u8)
        requires
            is_ppu_address(address),
        ensures
            *final(self) == old(self).written(address, value),
    {
        let enabled = self.lcd_control.get(Lcdc::LcdPpuEnable);
        let mode = self.get_mode();
        match address {
            0x8000..=0x9FFF => {
                if !enabled || mode != 3 {
                    self.vram[(address - 0x8000) as usize] = value;
                    assert(self.vram =~= vstd::array::spec_array_update(
                        old(self).vram,
                        address - 0x8000,
                        value,
                    ));
                }
            },
            0xFE00..=0xFE9F => {
                if !enabled || (mode != 2 && mode != 3) {
                    self.oam[(address - 0xFE00) as usize] = value;
                    assert(self.oam =~= vstd::array::spec_array_update(
                        old(self).oam,
                        address - 0xFE00,
                        value,
                    ));
                }
            },
            0xFF40 => self.lcd_control.write_byte(value),
            0xFF41 => self.lcd_status.write_byte(value),
            0xFF42 => self.bg_view_y = value,
            0xFF43 => self.bg_view_x = value,
            0xFF44 => {},
            0xFF45 => {
                self.ly_compare = value;
                self.check_lyc_ly();
            },
            0xFF46 => {},
            0xFF47 => self.bg_palette.write_byte(value),
            0xFF48 => self.obj_palette_0.write_byte(value),
            0xFF49 => self.obj_palette_1.write_byte(value),
            0xFF4A => self.win_y = value,
            0xFF4B => self.win_x = value,
            // CGB only
            _ => {},
        }
    }

    /// If LYC int select and LYC == LY, activate the LCD status interrupt.
    fn check_lyc_ly(&mut self)
        ensures
            *final(self) == old(self).lyc_checked(),
    {
        if self.lcd_status.get(Stat::LycIntSelect) && (self.lcd_y_coord == self.ly_compare) {
            self.interrupt_flags.set(If::Lcd, true);
        }
    }
}

impl Default for PPU {
    fn default() -> (r: Self)
        ensures
            r.data_output@ == Seq::new(23040, |i: int| 0u8),
            r.lcd_control.byte == 0b0101_1000,
            r.lcd_status.byte == 0b1000_0100,
    {
        Self::new()
    }
}

/// `a + b` modulo 256.
pub open spec fn wadd8(a: u8, b: u8) -> u8 {
    ((a as int + b as int) % 256) as u8
}

/// `a - b` modulo 256.
pub open spec fn wsub8(a: u8, b: u8) -> u8 {
    ((a as int - b as int + 256) % 256) as u8
}

/// Bit `i` (0 = least significant) of `v`.
pub open spec fn bit_of(v: u8, i: u8) -> u8 {
    (v >> i) & 1
}

/// The two-bit colour index of a pixel: bit `bit_index` of the high byte `right_byte` and
/// of the low byte `left_byte` of a tile row.
pub open spec fn colour_index(left_byte: u8, right_byte: u8, bit_index: u8) -> u8 {
    (2 * bit_of(right_byte, bit_index) + bit_of(left_byte, bit_index)) as u8
}

/// The shade (0-3) that `palette` gives to the colour index `index`.
pub open spec fn palette_shade(palette: u8, index: u8) -> u8 {
    if index == 3 {
        palette >> 6
    } else if index == 2 {
        (palette & 0b0011_0000) >> 4
    } else if index == 1 {
        (palette & 0b0000_1100) >> 2
    } else {
        palette & 0b0000_0011
    }
}

/// Offset in VRAM of the tile map entry for the pixel at (`x_offset`, `y_offset`) of a map that
/// starts at offset `start`.
pub open spec fn map_addr(start: u16, x_offset: u8, y_offset: u8) -> int {
    start + (y_offset / 8) * 32 + x_offset / 8
}

impl PPU {
    /// These registers with the PPU mode replaced.
    pub open spec fn with_mode(self, mode: u8) -> PPU {
        PPU {
            lcd_status: Flags {
                byte: with_bits(
                    with_bits(self.lcd_status.byte, 0b10, mode & 0b10 != 0),
                    0b01,
                    mode & 0b01 != 0,
                ),
            },
            ..self
        }
    }

    /// The PPU with interrupt `flag` requested.
    pub open spec fn requested(self, flag: If) -> PPU {
        PPU { interrupt_flags: Flags { byte: with_bits(self.interrupt_flags.byte, flag.mask(), true) }, ..self }
    }

    /// The PPU with the interrupt `flag` requested iff `cond`.
    pub open spec fn requested_if(self, cond: bool, flag: If) -> PPU {
        if cond {
            self.requested(flag)
        } else {
            self
        }
    }

    /// True iff bit `mask` of STAT is set.
    pub open spec fn stat_bit(self, mask: u8) -> bool {
        self.lcd_status.byte & mask != 0
    }

    /// True iff bit `mask` of LCDC is set.
    pub open spec fn lcdc_bit(self, mask: u8) -> bool {
        self.lcd_control.byte & mask != 0
    }

    /// Offset in VRAM where the data of tile `tile_num` starts, as selected by LCDC.
    pub open spec fn tile_data_addr(self, tile_num: u8) -> int {
        if self.lcdc_bit(0b0001_0000) || tile_num > 0x7F {
            tile_num * 16
        } else {
            0x1000 + tile_num * 16
        }
    }

    /// True iff the pixel at column `x` of the current line belongs to the window.
    pub open spec fn px_is_window(self, x: u8) -> bool {
        let win_en = self.lcdc_bit(0b0010_0000);
        &&& win_en
        &&& self.lcd_y_coord >= self.win_y
        &&& x >= wsub8(self.win_x, 7)
    }

    /// The tile number that the tile maps give to column `x` of the current line.
    pub open spec fn tile_num_at(self, x: u8) -> u8 {
        if self.px_is_window(x) {
            let start: u16 = if self.lcdc_bit(0b0100_0000) { 0x1C00 } else { 0x1800 };
            self.vram[map_addr(
                start,
                wsub8(x, wsub8(self.win_x, 7)),
                wsub8(self.lcd_y_coord, self.win_y),
            )]
        } else {
            let start: u16 = if self.lcdc_bit(0b0000_1000) { 0x1C00 } else { 0x1800 };
            self.vram[map_addr(
                start,
                wadd8(x, self.bg_view_x),
                wadd8(self.lcd_y_coord, self.bg_view_y),
            )]
        }
    }

    /// The shade (0-3) of the background or window pixel at column `x` of the current line.
    pub open spec fn bg_shade(self, x: u8) -> u8 {
        let is_win = self.px_is_window(x);
        let tds = self.tile_data_addr(self.tile_num_at(x));
        let row = if is_win {
            (self.lcd_y_coord - self.win_y) as u8
        } else {
            wadd8(self.lcd_y_coord, self.bg_view_y)
        };
        let left = self.vram[tds + (row % 8) * 2];
        let right = self.vram[tds + (row % 8) * 2 + 1];
        let bit_index: u8 = if is_win {
            wsub8(self.win_x, x) % 8
        } else {
            (7 - wadd8(x, self.bg_view_x) % 8) as u8
        };
        palette_shade(self.bg_palette.byte, colour_index(left, right, bit_index))
    }

    /// The screen output after the current line is rendered.
    pub open spec fn output_with_line(self) -> Seq<u8> {
        let base = self.lcd_y_coord * 160;
        Seq::new(
            23040,
            |i: int|
                if base <= i < base + 160 {
                    self.bg_shade((i - base) as u8)
                } else {
                    self.data_output[i]
                },
        )
    }

    /// What `cycle` requires: no counter overflows, and a line is only rendered on screen.
    pub open spec fn cycle_ok(self, t_cycles: u32) -> bool {
        &&& self.mode_clock + t_cycles <= u32::MAX
        &&& self.lcd_y_coord < 255
        &&& self.mode() == 3 ==> self.lcd_y_coord < 144
    }

    /// The registers of the PPU (all but the screen output) after `t_cycles` t-cycles.
    pub open spec fn cycled_state(self, t_cycles: u32) -> PPU {
        let clock = (self.mode_clock + t_cycles) as u32;
        let s = PPU { mode_clock: clock, ..self };
        if !self.enabled() {
            self
        } else if self.mode() == 2 {
            if clock >= 80 {
                PPU { mode_clock: clock % 80, ..s }.with_mode(3)
            } else {
                s
            }
        } else if self.mode() == 3 {
            if clock >= 172 {
                PPU { mode_clock: clock % 172, ..s.requested_if(s.stat_bit(0b0000_1000), If::Lcd) }.with_mode(0)
            } else {
                s
            }
        } else if self.mode() == 0 {
            if clock >= 204 {
                let ly = (self.lcd_y_coord + 1) as u8;
                let s1 = PPU { mode_clock: clock % 204, lcd_y_coord: ly, ..s };
                if ly == 144 {
                    s1.requested(If::VBlank).requested_if(s.stat_bit(0b0001_0000), If::Lcd).with_mode(1)
                } else {
                    s1.requested_if(s.stat_bit(0b0010_0000), If::Lcd).with_mode(2)
                }
            } else {
                s
            }
        } else {
            if clock >= 456 {
                let ly = (self.lcd_y_coord + 1) as u8;
                let s1 = PPU { mode_clock: clock % 456, lcd_y_coord: ly, ..s }.lyc_checked();
                if ly > 153 {
                    PPU { lcd_y_coord: 0, ..s1.requested_if(s.stat_bit(0b0010_0000), If::Lcd).with_mode(2) }
                } else {
                    s1
                }
            } else {
                s
            }
        }
    }

    /// The screen output after `t_cycles` t-cycles: a line is rendered when the PPU leaves the
    /// pixel drawing mode.
    pub open spec fn cycled_output(self, t_cycles: u32) -> Seq<u8> {
        if self.enabled() && self.mode() == 3 && self.mode_clock + t_cycles >= 172 {
            self.output_with_line()
        } else {
            self.data_output@
        }
    }

    /// Set the mode of the PPU.
    fn set_mode(&mut self, value: u8)
        ensures
            *final(self) == old(self).with_mode(value),
    {
        self.lcd_status.set(Stat::PpuModeBit1, (value & 0b10) != 0);
        self.lcd_status.set(Stat::PpuModeBit0, (value & 0b01) != 0);
    }

    /// Advance PPU state equal to the number of t-cycles the CPU advanced.
    pub fn cycle(&mut self, t_cycles: u32)
        requires
            old(self).cycle_ok(t_cycles),
        ensures
            (PPU { data_output: old(self).data_output, ..*final(self) }) == old(self).cycled_state(
                t_cycles,
            ),
            final(self).data_output@ == old(self).cycled_output(t_cycles),
    {
        if !self.lcd_control.get(Lcdc::LcdPpuEnable) {
            return ;
        }
        self.mode_clock = self.mode_clock + t_cycles;
        let mode = self.get_mode();
        if mode == 2 {
            // OAM scan.
            if self.mode_clock >= OAM_CYCLES {
                // Enter drawing pixels mode
                self.mode_clock = self.mode_clock % OAM_CYCLES;
                self.set_mode(3);
            }
        } else if mode == 3 {
            // Drawing pixels.
            if self.mode_clock >= DRAW_PX_CYCLES {
                self.render_scanline();
                // Enter HBlank mode
                if self.lcd_status.get(Stat::Mode0IntSelect) {
                    self.interrupt_flags.set(If::Lcd, true);
                }
                self.mode_clock = self.mode_clock % DRAW_PX_CYCLES;
                self.set_mode(0);
            }
        } else if mode == 0 {
            // HBlank. After the last HBlank, enter VBlank.
            if self.mode_clock >= HBLANK_CYCLES {
                self.mode_clock = self.mode_clock % HBLANK_CYCLES;
                self.lcd_y_coord = self.lcd_y_coord + 1;
                if self.lcd_y_coord as usize == DISPLAY_HEIGHT {
                    // Lines done. Set VBlank interrupt & enter VBlank mode
                    self.interrupt_flags.set(If::VBlank, true);
                    if self.lcd_status.get(Stat::Mode1IntSelect) {
                        self.interrupt_flags.set(If::Lcd, true);
                    }
                    self.set_mode(1);
                } else {
                    // Still more lines. Go to next line.
                    if self.lcd_status.get(Stat::Mode2IntSelect) {
                        self.interrupt_flags.set(If::Lcd, true);
                    }
                    self.set_mode(2);
                }
            }
        } else {
            // VBlank. Wait until next frame.
            if self.mode_clock >= VBLANK_CYCLES {
                self.mode_clock = self.mode_clock % VBLANK_CYCLES;
                self.lcd_y_coord = self.lcd_y_coord + 1;
                self.check_lyc_ly();
                if self.lcd_y_coord > MAX_SCANLINES {
                    // Restart scanning modes
                    if self.lcd_status.get(Stat::Mode2IntSelect) {
                        self.interrupt_flags.set(If::Lcd, true);
                    }
                    self.set_mode(2);
                    self.lcd_y_coord = 0;
                }
            }
        }
    }

    /// Render a line of pixels on the LCD.
    fn render_scanline(&mut self)
        requires
            old(self).lcd_y_coord < 144,
        ensures
            (PPU { data_output: old(self).data_output, ..*final(self) }) == *old(self),
            final(self).data_output@ == old(self).output_with_line(),
    {
        // Reset line
        let y = self.lcd_y_coord as usize;
        let ghost start = *self;
        for x in 0..DISPLAY_WIDTH
            invariant
                y == self.lcd_y_coord,
                y < 144,
                (PPU { data_output: start.data_output, ..*self }) == start,
                forall|i: int|
                    0 <= i < 23040 ==> #[trigger] self.data_output@[i] == if y * 160 <= i < y
                        * 160 + x {
                        255u8
                    } else {
                        start.data_output@[i]
                    },
        {
            self.set_pixel(x, y, 255);
        }
        self.render_bg_line();
        self.render_obj_line();
        assert(self.data_output@ =~= start.output_with_line());
    }

    /// Draw the background layer on the LCD.
    fn render_bg_line(&mut self)
        requires
            old(self).lcd_y_coord < 144,
        ensures
            (PPU { data_output: old(self).data_output, ..*final(self) }) == *old(self),
            forall|i: int|
                0 <= i < 23040 ==> #[trigger] final(self).data_output@[i] == if old(
                    self,
                ).lcd_y_coord * 160 <= i < old(self).lcd_y_coord * 160 + 160 {
                    old(self).bg_shade((i - old(self).lcd_y_coord * 160) as u8)
                } else {
                    old(self).data_output@[i]
                },
    {
        let ghost start = *self;
        let ly = self.lcd_y_coord;
        let bg_map_y = self.lcd_y_coord.wrapping_add(self.bg_view_y);
        // Check whether the current scanline is located within the window.
        let row_is_window = self.lcd_control.get(Lcdc::WindowEnable) && (self.lcd_y_coord
            >= self.win_y);
        let mut x: u8 = 0;
        while x < (DISPLAY_WIDTH as u8)
            invariant
                ly == self.lcd_y_coord,
                ly < 144,
                x <= 160,
                bg_map_y == wadd8(ly, self.bg_view_y),
                row_is_window == (self.lcdc_bit(0b0010_0000) && ly >= self.win_y),
                (PPU { data_output: start.data_output, ..*self }) == start,
                forall|i: int|
                    0 <= i < 23040 ==> #[trigger] self.data_output@[i] == if ly * 160 <= i < ly
                        * 160 + x {
                        start.bg_shade((i - ly * 160) as u8)
                    } else {
                        start.data_output@[i]
                    },
            decreases 160 - x,
        {
            let colour = self.bg_pixel(x, bg_map_y, row_is_window);
            let data_output_index = ((self.lcd_y_coord as usize) * DISPLAY_WIDTH) + (x as usize);
            self.data_output[data_output_index] = colour;
            x = x + 1;
        }
    }

    /// The shade of the background or window pixel at column `x` of the current line.
    #[verifier::rlimit(60)]
    #[verifier::spinoff_prover]
    fn bg_pixel(&self, x: u8, bg_map_y: u8, row_is_window: bool) -> (r: u8)
        requires
            x < 160,
            bg_map_y == wadd8(self.lcd_y_coord, self.bg_view_y),
            row_is_window == (self.lcdc_bit(0b0010_0000) && self.lcd_y_coord >= self.win_y),
        ensures
            r == self.bg_shade(x),
    {
        let bg_map_x = x.wrapping_add(self.bg_view_x);
        // Check whether the current column is located within the window.
        let col_is_window = self.lcd_control.get(Lcdc::WindowEnable) && (x
            >= self.win_x.wrapping_sub(7));
        let px_is_window = row_is_window && col_is_window;
        // Calc index of px in tile data.
        let tile_num = self.pixel_tile_num(x, bg_map_x, bg_map_y, px_is_window);
        // Each tile occupies 16 bytes.
        let tile_data_start_addr = self.tile_data_start_addr(tile_num);
        // Each line of the tile occupies 2 bytes.
        let row: u8 = if px_is_window {
            self.lcd_y_coord - self.win_y
        } else {
            bg_map_y
        };
        // Bit 7 represents leftmost pixel, bit 0 the rightmost pixel.
        let bit_index = if px_is_window {
            self.win_x.wrapping_sub(x) % 8
        } else {
            7 - (bg_map_x % 8)
        };
        self.tile_pixel_shade(tile_data_start_addr, row, bit_index)
    }

    /// The tile number of the pixel at column `x` of the current line.
    #[verifier::rlimit(60)]
    #[verifier::spinoff_prover]
    fn pixel_tile_num(&self, x: u8, bg_map_x: u8, bg_map_y: u8, px_is_window: bool) -> (r: u8)
        requires
            bg_map_x == wadd8(x, self.bg_view_x),
            bg_map_y == wadd8(self.lcd_y_coord, self.bg_view_y),
            px_is_window == self.px_is_window(x),
        ensures
            r == self.tile_num_at(x),
    {
        if px_is_window {
            let start = (if self.lcd_control.get(Lcdc::WindowTileMapArea) {
                WINMAP_START_1
            } else {
                WINMAP_START_0
            }) - VRAM_ADDR_OFFSET;
            let x_addr_offset = x.wrapping_sub(self.win_x.wrapping_sub(7));
            let y_addr_offset = self.lcd_y_coord.wrapping_sub(self.win_y);
            let addr = Self::get_map_addr(start, x_addr_offset, y_addr_offset);
            self.vram[addr]
        } else {
            let start = (if self.lcd_control.get(Lcdc::BGTileMapArea) {
                BGMAP_START_1
            } else {
                BGMAP_START_0
            }) - VRAM_ADDR_OFFSET;
            let addr = Self::get_map_addr(start, bg_map_x, bg_map_y);
            self.vram[addr]
        }
    }

    /// The shade of one pixel of a tile: `row` selects the row of the tile, `bit_index` the
    /// pixel within the row.
    fn tile_pixel_shade(&self, tile_data_start_addr: u16, row: u8, bit_index: u8) -> (r: u8)
        requires
            tile_data_start_addr <= 0x1FF0,
            bit_index < 8,
        ensures
            r == palette_shade(
                self.bg_palette.byte,
                colour_index(
                    self.vram[tile_data_start_addr + (row % 8) * 2],
                    self.vram[tile_data_start_addr + (row % 8) * 2 + 1],
                    bit_index,
                ),
            ),
    {
        let y_tile_data_addr_offset = ((row as u16) % 8) * 2;
        let left_byte_addr = tile_data_start_addr + y_tile_data_addr_offset;
        let right_byte_addr = left_byte_addr + 1;
        let left_byte = self.vram[left_byte_addr as usize];
        let right_byte = self.vram[right_byte_addr as usize];
        // Assemble the colour index from left & right bytes.
        let colour_idx = Self::get_colour_index(left_byte, right_byte, bit_index);
        let palette = self.bg_palette.read_byte();
        if colour_idx == 3 {
            palette >> 6
        } else if colour_idx == 2 {
            (palette & 0b0011_0000) >> 4
        } else if colour_idx == 1 {
            (palette & 0b0000_1100) >> 2
        } else {
            palette & 0b0000_0011
        }
    }

    /// Get the colour index of a pixel from the two bytes of its tile row.
    fn get_colour_index(left_byte: u8, right_byte: u8, bit_index: u8) -> (r: u8)
        requires
            bit_index < 8,
        ensures
            r == colour_index(left_byte, right_byte, bit_index),
            r < 4,
    {
        let bit_0: u8 = if left_byte & (1u8 << bit_index) > 0 {
            1
        } else {
            0
        };
        let bit_1: u8 = if right_byte & (1u8 << bit_index) > 0 {
            1
        } else {
            0
        };
        assert(bit_0 == bit_of(left_byte, bit_index) && bit_1 == bit_of(right_byte, bit_index))
            by (bit_vector)
            requires
                bit_index < 8,
                bit_0 == (if left_byte & (1u8 << bit_index) > 0 { 1u8 } else { 0u8 }),
                bit_1 == (if right_byte & (1u8 << bit_index) > 0 { 1u8 } else { 0u8 }),
        ;
        let r = (bit_1 << 1) | bit_0;
        assert(r == 2 * bit_1 + bit_0) by (bit_vector)
            requires
                bit_0 <= 1,
                bit_1 <= 1,
                r == (bit_1 << 1) | bit_0,
        ;
        r
    }

    /// Get the tile map address based on the X & Y offsets.
    fn get_map_addr(start: u16, x_offset: u8, y_offset: u8) -> (r: usize)
        requires
            start <= 0x1C00,
        ensures
            r == map_addr(start, x_offset, y_offset),
            r < 0x2000,
    {
        (start + (((y_offset as u16) / 8) * 32) + ((x_offset as u16) / 8)) as usize
    }

    /// Get the address in VRAM where the data of tile `tile_num` starts.
    pub fn tile_data_start_addr(&self, tile_num: u8) -> (r: u16)
        ensures
            r == self.tile_data_addr(tile_num),
            r <= 0x1FF0,
    {
        let t = tile_num as u16;
        if self.lcd_control.get(Lcdc::BGWindowTileDataArea) || tile_num > 0x7F {
            assert(t << 4 == t * 16) by (bit_vector)
                requires
                    t < 256,
            ;
            t << 4
        } else {
            assert(0x1000 | (t << 4) == 0x1000 + t * 16) by (bit_vector)
                requires
                    t < 128,
            ;
            0x1000 | (t << 4)
        }
    }

    /// Draw the sprites layer on the LCD. Sprites are not drawn yet: nothing changes.
    fn render_obj_line(&mut self)
        ensures
            *final(self) == *old(self),
    {
        if !self.lcd_control.get(Lcdc::OBJEnable) {
            return ;
        }
    }

    /// Get the start address of the background tile map.
    pub fn bg_map_start(&self) -> (r: u16)
        ensures
            r == (if self.lcdc_bit(0b0000_1000) { 0x1C00u16 } else { 0x1800u16 }),
    {
        Self::map_start_helper(self.lcd_control.get(Lcdc::BGTileMapArea))
    }

    /// Get the start address of the window tile map.
    pub fn win_map_start(&self) -> (r: u16)
        ensures
            r == (if self.lcdc_bit(0b0100_0000) { 0x1C00u16 } else { 0x1800u16 }),
    {
        Self::map_start_helper(self.lcd_control.get(Lcdc::WindowTileMapArea))
    }

    fn map_start_helper(value: bool) -> (r: u16)
        ensures
            r == (if value { 0x1C00u16 } else { 0x1800u16 }),
    {
        if value {
            0x1C00
        } else {
            0x1800
        }
    }

    /// Get the start address of the tile data.
    pub fn tile_data_start(&self) -> (r: u16)
        ensures
            r == (if self.lcdc_bit(0b0001_0000) { 0x0000u16 } else { 0x0800u16 }),
    {
        if self.lcd_control.get(Lcdc::BGWindowTileDataArea) {
            0x0000
        } else {
            0x0800
        }
    }

    /// Set the colour of a pixel.
    fn set_pixel(&mut self, x: usize, y: usize, colour: u8)
        requires
            x < 160,
            y < 144,
        ensures
            (PPU { data_output: old(self).data_output, ..*final(self) }) == *old(self),
            final(self).data_output@ == old(self).data_output@.update(y * 160 + x, colour),
    {
        let pixel_index = (y * DISPLAY_WIDTH) + x;
        self.data_output[pixel_index] = colour;
    }
}

/// Colour ID bits of a palette register (OBP0/OBP1/BGP).
#[derive(Debug, Copy, Clone, PartialEq, Eq, Structural)]
pub enum ColorID {
    ID3Bit1,
    ID3Bit0,
    ID2Bit1,
    ID2Bit0,
    ID1Bit1,
    ID1Bit0,
    /// Ignored for OBJ.
    ID0Bit1,
    /// Ignored for OBJ.
    ID0Bit0,
}

impl ColorID {
    /// The bit that this flag stands for.
    pub open spec fn mask(self) -> u8 {
        match self {
            ColorID::ID3Bit1 => 0b1000_0000,
            ColorID::ID3Bit0 => 0b0100_0000,
            ColorID::ID2Bit1 => 0b0010_0000,
            ColorID::ID2Bit0 => 0b0001_0000,
            ColorID::ID1Bit1 => 0b0000_1000,
            ColorID::ID1Bit0 => 0b0000_0100,
            ColorID::ID0Bit1 => 0b0000_0010,
            ColorID::ID0Bit0 => 0b0000_0001,
        }
    }
}

impl FlagsEnum for ColorID {
    open spec fn spec_val(&self) -> u8 {
        self.mask()
    }

    fn val(&self) -> (r: u8) {
        match self {
            ColorID::ID3Bit1 => 0b1000_0000,
            ColorID::ID3Bit0 => 0b0100_0000,
            ColorID::ID2Bit1 => 0b0010_0000,
            ColorID::ID2Bit0 => 0b0001_0000,
            ColorID::ID1Bit1 => 0b0000_1000,
            ColorID::ID1Bit0 => 0b0000_0100,
            ColorID::ID0Bit1 => 0b0000_0010,
            ColorID::ID0Bit0 => 0b0000_0001,
        }
    }

    proof fn lemma_single_bit(&self) {
    }
}

/// Background colour palette index
#[derive(Debug, Copy, Clone, PartialEq, Eq, Structural)]
pub enum Bcps {
    AutoInc,
    AddrBit5,
    AddrBit4,
    AddrBit3,
    AddrBit2,
    AddrBit1,
    AddrBit0,
}

impl Bcps {
    /// The bit that this flag stands for.
    pub open spec fn mask(self) -> u8 {
        match self {
            Bcps::AutoInc => 0b1000_0000,
            Bcps::AddrBit5 => 0b0010_0000,
            Bcps::AddrBit4 => 0b0001_0000,
            Bcps::AddrBit3 => 0b0000_1000,
            Bcps::AddrBit2 => 0b0000_0100,
            Bcps::AddrBit1 => 0b0000_0010,
            Bcps::AddrBit0 => 0b0000_0001,
        }
    }
}

impl FlagsEnum for Bcps {
    open spec fn spec_val(&self) -> u8 {
        self.mask()
    }

    fn val(&self) -> (r: u8) {
        match self {
            Bcps::AutoInc => 0b1000_0000,
            Bcps::AddrBit5 => 0b0010_0000,
            Bcps::AddrBit4 => 0b0001_0000,
            Bcps::AddrBit3 => 0b0000_1000,
            Bcps::AddrBit2 => 0b0000_0100,
            Bcps::AddrBit1 => 0b0000_0010,
            Bcps::AddrBit0 => 0b0000_0001,
        }
    }

    proof fn lemma_single_bit(&self) {
    }
}

/// Colour palette data 0 (bits 0..=7)
#[derive(Debug, Copy, Clone, PartialEq, Eq, Structural)]
pub enum Cpd0 {
    G2,
    G1,
    G0,
    R4,
    R3,
    R2,
    R1,
    R0,
}

impl Cpd0 {
    /// The bit that this flag stands for.
    pub open spec fn mask(self) -> u8 {
        match self {
            Cpd0::G2 => 0b1000_0000,
            Cpd0::G1 => 0b0100_0000,
            Cpd0::G0 => 0b0010_0000,
            Cpd0::R4 => 0b0001_0000,
            Cpd0::R3 => 0b0000_1000,
            Cpd0::R2 => 0b0000_0100,
            Cpd0::R1 => 0b0000_0010,
            Cpd0::R0 => 0b0000_0001,
        }
    }
}

impl FlagsEnum for Cpd0 {
    open spec fn spec_val(&self) -> u8 {
        self.mask()
    }

    fn val(&self) -> (r: u8) {
        match self {
            Cpd0::G2 => 0b1000_0000,
            Cpd0::G1 => 0b0100_0000,
            Cpd0::G0 => 0b0010_0000,
            Cpd0::R4 => 0b0001_0000,
            Cpd0::R3 => 0b0000_1000,
            Cpd0::R2 => 0b0000_0100,
            Cpd0::R1 => 0b0000_0010,
            Cpd0::R0 => 0b0000_0001,
        }
    }

    proof fn lemma_single_bit(&self) {
    }
}

/// Colour palette data 1 (bits 8..=15)
#[derive(Debug, Copy, Clone, PartialEq, Eq, Structural)]
pub enum Cpd1 {
    B4,
    B3,
    B2,
    B1,
    B0,
    G4,
    G3,
}

impl Cpd1 {
    /// The bit that this flag stands for.
    pub open spec fn mask(self) -> u8 {
        match self {
            Cpd1::B4 => 0b0100_0000,
            Cpd1::B3 => 0b0010_0000,
            Cpd1::B2 => 0b0001_0000,
            Cpd1::B1 => 0b0000_1000,
            Cpd1::B0 => 0b0000_0100,
            Cpd1::G4 => 0b0000_0010,
            Cpd1::G3 => 0b0000_0001,
        }
    }
}

impl FlagsEnum for Cpd1 {
    open spec fn spec_val(&self) -> u8 {
        self.mask()
    }

    fn val(&self) -> (r: u8) {
        match self {
            Cpd1::B4 => 0b0100_0000,
            Cpd1::B3 => 0b0010_0000,
            Cpd1::B2 => 0b0001_0000,
            Cpd1::B1 => 0b0000_1000,
            Cpd1::B0 => 0b0000_0100,
            Cpd1::G4 => 0b0000_0010,
            Cpd1::G3 => 0b0000_0001,
        }
    }

    proof fn lemma_single_bit(&self) {
    }
}

} // verus!
