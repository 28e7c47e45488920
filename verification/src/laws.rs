//! Properties that hold across the operations of the library: what a read gives back of a
//! write, what one operation undoes of another, and what stays unchanged.
use vstd::prelude::*;

use crate::cartridge::{byte_sum, header_checksum, CartView, MBC1View};
use crate::cpu::{loaded, lowest_bit, CpuView};
use crate::flags::{with_bits, Flags};
use crate::instructions::{add_regs, rlc_value, rrc_value, swapped};
use crate::joypad::{Button, Joypad};
use crate::mmu::{is_hram, MmuView, OAM_DMA_CYCLES};
use crate::registers::{hi_byte, lo_byte, word, RegFlag, Registers, Target, VirtTarget};
use crate::interrupts::If;
use crate::timer::Timer;
use crate::ppu::{palette_shade, PPU};

verus! {

broadcast use {crate::registers::lemma_with_flag_other, crate::registers::lemma_with_flag_same};

/// Setting a register and reading it back gives the value set; the other registers keep
/// their values.
pub proof fn law_register_read_after_write(r: Registers, t: Target, v: u8, other: Target)
    ensures
        r.with_reg(t, v).reg(t) == v,
        other != t ==> r.with_reg(t, v).reg(other) == r.reg(other),
{
}

/// Setting a register pair and reading it back gives the value set; the pair's high byte is
/// its first register and its low byte its second.
pub proof fn law_register_pair_read_after_write(r: Registers, t: VirtTarget, v: u16)
    ensures
        r.with_virt(t, v).virt(t) == v,
        r.with_virt(VirtTarget::HL, v).h == hi_byte(v),
        r.with_virt(VirtTarget::HL, v).l == lo_byte(v),
{
}

/// Setting a flag and reading it back gives the value set; the other flags keep their values.
pub proof fn law_flag_read_after_write(r: Registers, f: RegFlag, v: bool, other: RegFlag)
    ensures
        r.with_flag(f, v).flag(f) == v,
        other != f ==> r.with_flag(f, v).flag(other) == r.flag(other),
{
}

/// Setting the bits of a single-bit mask in a flag register and testing them gives the value
/// set; the other bits are unchanged.
pub proof fn law_flags_set_get(byte: u8, mask: u8, v: bool, other: u8)
    requires
        crate::flags::is_single_bit(mask),
        crate::flags::is_single_bit(other),
        other != mask,
    ensures
        (with_bits(byte, mask, v) & mask != 0) == v,
        (with_bits(byte, mask, v) & other != 0) == (byte & other != 0),
{
    assert((with_bits(byte, mask, v) & mask != 0) == v && ((with_bits(byte, mask, v) & other
        != 0) == (byte & other != 0))) by (bit_vector)
        requires
            mask == 1 || mask == 2 || mask == 4 || mask == 8 || mask == 16 || mask == 32 || mask
                == 64 || mask == 128,
            other == 1 || other == 2 || other == 4 || other == 8 || other == 16 || other == 32
                || other == 64 || other == 128,
            other != mask,
            with_bits(byte, mask, v) == if v {
                byte | mask
            } else {
                byte & !mask
            },
    ;
}

/// Work RAM, high RAM and the other plain memory give back what was written, as long as no
/// OAM DMA transfer blocks the bus.
pub proof fn law_ram_read_after_write(m: MmuView, address: u16, value: u8)
    requires
        m.oam_dma_remaining_cycles == 0,
        (0xC000 <= address <= 0xDFFF) || is_hram(address) || address == 0xFF01 || address
            == 0xFF02 || address == 0xFF0F || address == 0xFF50 || address == 0xFFFF,
    ensures
        m.written(address, value).read(address) == value,
{
    if 0xC000 <= address <= 0xDFFF {
        assert(m.written(address, value).wram@ == m.wram@.update(address - 0xC000, value));
    } else if is_hram(address) {
        assert(m.written(address, value).hram@ == m.hram@.update(address - 0xFF80, value));
    }
}

/// Echo RAM mirrors work RAM: a byte written at 0xC000 + i (i < 0x1E00) is read back at
/// 0xE000 + i, and writes to echo RAM itself change nothing.
pub proof fn law_echo_ram_mirror(m: MmuView, i: u16, value: u8)
    requires
        m.oam_dma_remaining_cycles == 0,
        i < 0x1E00,
    ensures
        m.written((0xC000 + i) as u16, value).read((0xE000 + i) as u16) == value,
        m.written((0xE000 + i) as u16, value) == m,
{
    let a = (0xC000 + i) as u16;
    assert(m.written(a, value).eram@ == m.eram@.update(i as int, value));
}

/// A 16-bit little-endian value written to work RAM is read back unchanged.
pub proof fn law_word_read_after_write(m: MmuView, address: u16, value: u16)
    requires
        m.oam_dma_remaining_cycles == 0,
        0xC000 <= address < 0xDFFF,
    ensures
        m.written_word(address, value).read_word(address) == value,
{
    let lo = (value % 256) as u8;
    let hi = (value / 256) as u8;
    let m1 = m.written(address, lo);
    law_ram_read_after_write(m, address, lo);
    law_ram_read_after_write(m1, (address + 1) as u16, hi);
    let m2 = m1.written((address + 1) as u16, hi);
    assert(m2.wram@ == m1.wram@.update(address + 1 - 0xC000, hi));
    assert(m2.read(address) == lo);
}

/// A 16-bit little-endian value written to high RAM is read back unchanged.
pub proof fn law_hram_word_read_after_write(m: MmuView, address: u16, value: u16)
    requires
        m.oam_dma_remaining_cycles == 0,
        0xFF80 <= address < 0xFFFE,
    ensures
        m.written_word(address, value).read_word(address) == value,
{
    let lo = (value % 256) as u8;
    let hi = (value / 256) as u8;
    let m1 = m.written(address, lo);
    law_ram_read_after_write(m, address, lo);
    law_ram_read_after_write(m1, (address + 1) as u16, hi);
    let m2 = m1.written((address + 1) as u16, hi);
    assert(m2.hram@ == m1.hram@.update(address + 1 - 0xFF80, hi));
    assert(m2.read(address) == lo);
}

/// A 16-bit little-endian value written to video RAM while the PPU lets the program reach it,
/// or to the ROM area of the empty cartridge above 0x00FF, is read back unchanged.
pub proof fn law_vram_cart_word_read_after_write(m: MmuView, address: u16, value: u16)
    requires
        m.oam_dma_remaining_cycles == 0,
        (0x8000 <= address < 0x9FFF && m.ppu.vram_accessible()) || (0x0100 <= address < 0x7FFF
            && m.cart is Empty && m.cart->Empty_mem.len() == 0x8000),
    ensures
        m.written_word(address, value).read_word(address) == value,
{
    let lo = (value % 256) as u8;
    let hi = (value / 256) as u8;
    let a1 = (address + 1) as u16;
    let m1 = m.written(address, lo);
    let m2 = m1.written(a1, hi);
    if 0x8000 <= address {
        assert(m1.ppu.vram@ == m.ppu.vram@.update(address - 0x8000, lo));
        assert(m2.ppu.vram@ == m1.ppu.vram@.update(a1 - 0x8000, hi));
        assert(m2.read(address) == lo);
        assert(m2.read(a1) == hi);
    } else {
        let mem = m.cart->Empty_mem;
        assert(m1.cart->Empty_mem == mem.update(address as int, lo));
        assert(m2.cart->Empty_mem == mem.update(address as int, lo).update(a1 as int, hi));
        assert(m2.read(address) == lo);
        assert(m2.read(a1) == hi);
    }
}

/// Pushing a value on a stack in high RAM and popping it gives it back and restores the
/// stack pointer.
pub proof fn law_push_pop_hram(c: CpuView, value: u16)
    requires
        c.mmu.oam_dma_remaining_cycles == 0,
        0xFF82 <= c.sp <= 0xFFFF,
    ensures
        c.pushed(value).stack_top() == value,
        c.pushed(value).popped().sp == c.sp,
{
    let sp = c.sp.wrapping_sub(2);
    law_hram_word_read_after_write(c.mmu, sp, value);
}

/// While an OAM DMA transfer runs, every address but high RAM reads 0xFF and ignores writes.
pub proof fn law_dma_blocks_bus(m: MmuView, address: u16, value: u8)
    requires
        m.oam_dma_remaining_cycles > 0,
        !is_hram(address),
    ensures
        m.read(address) == 0xFF,
        m.written(address, value) == m,
{
}

/// Starting an OAM DMA transfer keeps the bus busy for 640 T-cycles: it is still blocked
/// after 639 and free again after 640.
pub proof fn law_dma_duration(m: MmuView, source_high: u8)
    requires
        m.oam_dma_remaining_cycles == 0,
    ensures
        m.written(0xFF46, source_high).oam_dma_remaining_cycles == OAM_DMA_CYCLES,
        m.written(0xFF46, source_high).cycled(639).oam_dma_remaining_cycles > 0,
        m.written(0xFF46, source_high).cycled(640).oam_dma_remaining_cycles == 0,
{
}

/// Writing the divider register resets it, whatever is written.
pub proof fn law_divider_reset(m: MmuView, value: u8)
    requires
        m.oam_dma_remaining_cycles == 0,
    ensures
        m.written(0xFF04, value).read(0xFF04) == 0,
{
}

/// When TIMA is enabled and its period elapses once while it holds 0xFF, it overflows: it is
/// reloaded from TMA and the timer interrupt is requested.
pub proof fn law_timer_overflow(t: Timer, n: u32)
    requires
        t.enabled(),
        t.timer_counter == 0xFF,
        t.frequency() <= t.timer_clocksum + n < 2 * t.frequency(),
    ensures
        t.cycled(n).timer_counter == t.timer_modulo,
        t.cycled(n).interrupt_flags.byte == with_bits(
            t.interrupt_flags.byte,
            If::Timer.mask(),
            true,
        ),
{
    let f = t.frequency() as int;
    let total = t.timer_clocksum + n;
    assert(f > 0);
    assert(total / f == 1) by {
        vstd::arithmetic::div_mod::lemma_fundamental_div_mod_converse(total, f, 1, total - f);
    }
    let ics = t.timer_internal_clocksum + n;
    let s1 = if ics >= 256 {
        Timer {
            divider: ((t.divider as int + 1) % 256) as u8,
            timer_internal_clocksum: (ics - 256) as u32,
            ..t
        }
    } else {
        Timer { timer_internal_clocksum: ics as u32, ..t }
    };
    let base = Timer { timer_clocksum: (total % f) as u32, ..s1 };
    assert(t.cycled(n) == base.ticked(1));
    assert(base.ticked(1) == base.ticked(0).tick());
    assert(base.timer_counter == 0xFF);
}

/// While TAC disables TIMA, cycling the timer leaves TIMA, TMA and the interrupt requests as
/// they are.
pub proof fn law_timer_disabled(t: Timer, n: u32)
    requires
        !t.enabled(),
    ensures
        t.cycled(n).timer_counter == t.timer_counter,
        t.cycled(n).timer_modulo == t.timer_modulo,
        t.cycled(n).interrupt_flags == t.interrupt_flags,
{
}

/// Pressing a button of a selected group while the register shows no button pressed requests
/// the joypad interrupt.
pub proof fn law_joypad_press_interrupt(j: Joypad, b: Button)
    requires
        j.data.byte & 0b0000_1111 == 0b0000_1111,
        b.is_dpad() ==> j.data.byte & 0b0001_0000 == 0,
        !b.is_dpad() ==> j.data.byte & 0b0010_0000 == 0,
    ensures
        j.with_button(b, true).interrupt_flags.byte == j.interrupt_flags.byte | 0b0001_0000,
{
    let m = b.bit().mask();
    let d = j.data.byte;
    let pd = with_bits(j.internal_dpad.byte, m, false);
    let pb = with_bits(j.internal_buttons.byte, m, false);
    let bd = j.internal_buttons.byte;
    let dd = j.internal_dpad.byte;
    assert(((0x0Fu8 & bd) & (dd & !m)) != 0x0F && (0x0Fu8 & (dd & !m)) != 0x0F && (0x0Fu8 & (
    bd & !m)) != 0x0F && ((0x0Fu8 & (bd & !m)) & dd) != 0x0F) by (bit_vector)
        requires
            m == 1 || m == 2 || m == 4 || m == 8,
    ;
    if b.is_dpad() {
        assert(pd == dd & !m);
        let n1: u8 = if d & 0b0010_0000 == 0 { 0x0Fu8 & bd } else { 0x0Fu8 };
        assert(n1 & pd != 0x0F);
    } else {
        assert(pb == bd & !m);
    }
}

/// Pushing a value on the stack and popping it gives it back and restores the stack pointer,
/// when the stack lies in work RAM.
pub proof fn law_push_pop(c: CpuView, value: u16)
    requires
        c.mmu.oam_dma_remaining_cycles == 0,
        0xC002 <= c.sp <= 0xE000,
    ensures
        c.pushed(value).stack_top() == value,
        c.pushed(value).popped().sp == c.sp,
{
    let sp = c.sp.wrapping_sub(2);
    law_word_read_after_write(c.mmu, sp, value);
}

/// CALL nn followed by RET returns to the instruction after the CALL, restores the stack
/// pointer and takes 16 T-cycles, when the stack lies in work RAM or high RAM.
pub proof fn law_call_ret(c: CpuView)
    requires
        c.mmu.oam_dma_remaining_cycles == 0,
        (0xC002 <= c.sp <= 0xE000) || (0xFF82 <= c.sp <= 0xFFFF),
        c.pc + 3 <= 0xFFFF,
    ensures
        c.call_nn().cpu.ret().cpu.pc == c.pc + 3,
        c.call_nn().cpu.ret().cpu.sp == c.sp,
        c.call_nn().cpu.ret().cycles == 16,
{
    let ret_addr = (c.pc + 3) as u16;
    if 0xC002 <= c.sp <= 0xE000 {
        law_push_pop(c, ret_addr);
    } else {
        law_push_pop_hram(c, ret_addr);
    }
}

/// The bytes that [crate::cpu::Cpu::load] writes into work RAM keep the bus free of DMA.
proof fn lemma_loaded_dma_free(m: MmuView, start: u16, data: Seq<u8>)
    requires
        m.oam_dma_remaining_cycles == 0,
        0xC000 <= start,
        start + data.len() <= 0xE000,
    ensures
        loaded(m, start, data).oam_dma_remaining_cycles == 0,
    decreases data.len(),
{
    if data.len() > 0 {
        lemma_loaded_dma_free(m, start, data.drop_last());
    }
}

/// After [crate::cpu::Cpu::load] writes `data` into work RAM from `start` on, every byte
/// reads back as loaded.
pub proof fn law_load_read_back(m: MmuView, start: u16, data: Seq<u8>, i: int)
    requires
        m.oam_dma_remaining_cycles == 0,
        0xC000 <= start,
        start + data.len() <= 0xE000,
        0 <= i < data.len(),
    ensures
        loaded(m, start, data).read((start + i) as u16) == data[i],
    decreases data.len(),
{
    let n = data.len();
    let prev = loaded(m, start, data.drop_last());
    let a = (start + n - 1) as u16;
    lemma_loaded_dma_free(m, start, data.drop_last());
    if i == n - 1 {
        law_ram_read_after_write(prev, a, data.last());
    } else {
        law_load_read_back(m, start, data.drop_last(), i);
        let b = (start + i) as u16;
        assert(prev.written(a, data.last()).wram@ == prev.wram@.update(a - 0xC000, data.last()));
        assert(prev.written(a, data.last()).read(b) == prev.read(b));
    }
}

/// Pressing a released button and releasing it again leaves the joypad register as it was,
/// when the register was up to date with the buttons.
pub proof fn law_button_press_release_register(j: Joypad, b: Button)
    requires
        j.data.byte & 0x0F == j.selected_nibble(),
        b.is_dpad() ==> j.internal_dpad.byte & b.bit().mask() != 0,
        !b.is_dpad() ==> j.internal_buttons.byte & b.bit().mask() != 0,
    ensures
        j.with_button(b, true).with_button(b, false).data == j.data,
{
    let m = b.bit().mask();
    let d = j.internal_dpad.byte;
    let k = j.internal_buttons.byte;
    let x = j.data.byte;
    let p = b.is_dpad();
    let jp = if p {
        Joypad { internal_dpad: Flags { byte: with_bits(d, m, false) }, ..j }
    } else {
        Joypad { internal_buttons: Flags { byte: with_bits(k, m, false) }, ..j }
    };
    let j1 = j.with_button(b, true);
    assert(j1 == jp.updated());
    let n1 = jp.selected_nibble();
    let a1 = jp.internal_buttons.byte;
    let a2 = jp.internal_dpad.byte;
    assert((p ==> with_bits(with_bits(d, m, false), m, true) == d) && (!p ==> with_bits(
        with_bits(k, m, false),
        m,
        true,
    ) == k)) by (bit_vector)
        requires
            m == 1 || m == 2 || m == 4 || m == 8,
            p ==> d & m != 0,
            !p ==> k & m != 0,
            with_bits(with_bits(d, m, false), m, true) == (d & !m) | m,
            with_bits(with_bits(k, m, false), m, true) == (k & !m) | m,
    ;
    assert(j1.data.byte == (x & 0xF0) | n1);
    assert(((x & 0xF0) | n1) & 0x20 == x & 0x20 && ((x & 0xF0) | n1) & 0x10 == x & 0x10 && ((x
        & 0xF0) | n1) & 0xF0 == x & 0xF0 && (x & 0xF0) | (x & 0x0F) == x) by (bit_vector)
        requires
            n1 == 0x0F || n1 == 0x0F & a1 || n1 == (0x0F & a1) & a2 || n1 == 0x0F & a2,
    ;
    let jq = if p {
        Joypad { internal_dpad: Flags { byte: with_bits(j1.internal_dpad.byte, m, true) }, ..j1 }
    } else {
        Joypad {
            internal_buttons: Flags { byte: with_bits(j1.internal_buttons.byte, m, true) },
            ..j1
        }
    };
    assert(j1.with_button(b, false) == jq.updated());
    assert(jq.internal_dpad == j.internal_dpad && jq.internal_buttons == j.internal_buttons);
    assert(jq.selected_nibble() == j.selected_nibble());
}

/// Every pixel of the PPU's output is a shade from 0 to 3.
pub open spec fn pixels_are_shades(p: PPU) -> bool {
    forall|i: int| 0 <= i < 23040 ==> #[trigger] p.data_output@[i] <= 3
}

/// Every shade a palette gives is 0 to 3.
proof fn lemma_palette_shade(palette: u8, index: u8)
    ensures
        palette_shade(palette, index) <= 3,
{
    assert(palette >> 6 <= 3 && (palette & 0b0011_0000) >> 4 <= 3 && (palette & 0b0000_1100)
        >> 2 <= 3 && palette & 0b0000_0011 <= 3) by (bit_vector);
}

/// The pixels stay shades from 0 to 3: a PPU cycle stores only shades, and the memory bus
/// neither cycles the PPU nor writes its pixels.
pub proof fn law_pixels_are_shades(p: PPU, t: u32, m: MmuView, address: u16, value: u8, n: u32)
    requires
        pixels_are_shades(p),
    ensures
        forall|i: int| 0 <= i < 23040 ==> #[trigger] p.cycled_output(t)[i] <= 3,
        m.written(address, value).ppu.data_output == m.ppu.data_output,
        m.cycled(n).ppu.data_output == m.ppu.data_output,
{
    assert forall|i: int| 0 <= i < 23040 implies #[trigger] p.cycled_output(t)[i] <= 3 by {
        let base = p.lcd_y_coord * 160;
        if p.enabled() && p.mode() == 3 && p.mode_clock + t >= 172 && base <= i < base + 160 {
            let x = (i - base) as u8;
            let is_win = p.px_is_window(x);
            let tds = p.tile_data_addr(p.tile_num_at(x));
            let row = if is_win {
                (p.lcd_y_coord - p.win_y) as u8
            } else {
                crate::ppu::wadd8(p.lcd_y_coord, p.bg_view_y)
            };
            let left = p.vram[tds + (row % 8) * 2];
            let right = p.vram[tds + (row % 8) * 2 + 1];
            let bit_index: u8 = if is_win {
                crate::ppu::wsub8(p.win_x, x) % 8
            } else {
                (7 - crate::ppu::wadd8(x, p.bg_view_x) % 8) as u8
            };
            lemma_palette_shade(p.bg_palette.byte, crate::ppu::colour_index(left, right, bit_index));
        }
    }
}

/// Every instruction is 1 to 3 bytes long.
#[verifier::rlimit(80)]
pub proof fn law_instruction_size(c: CpuView, opcode: u8)
    ensures
        1 <= c.step(opcode).size <= 3,
{
    reveal(CpuView::step);
}

/// CP n sets the flags as SUB n does and keeps A.
pub proof fn law_cp_is_sub(c: CpuView)
    ensures
        c.cp_n_n().cpu == (CpuView {
            regs: c.sub_n_n().cpu.regs.with_reg(Target::A, c.regs.a),
            ..c.sub_n_n().cpu
        }),
        c.cp_n_n().cycles == c.sub_n_n().cycles,
        c.cp_n_n().size == c.sub_n_n().size,
{
}

/// ADD A,n: A becomes (A + n) mod 256; Z is set iff it is 0, N is cleared, H is the carry
/// out of bit 3 and C the carry out of bit 7; the other registers are unchanged.
pub proof fn law_add_result(c: CpuView)
    ensures
        c.add_a_n_n().cpu.regs.a == (c.regs.a + c.next_byte()) % 256,
        c.add_a_n_n().cpu.regs.flag(RegFlag::Z) == ((c.regs.a + c.next_byte()) % 256 == 0),
        !c.add_a_n_n().cpu.regs.flag(RegFlag::N),
        c.add_a_n_n().cpu.regs.flag(RegFlag::H) == ((c.regs.a & 0x0F) + (c.next_byte() & 0x0F)
            > 0x0F),
        c.add_a_n_n().cpu.regs.flag(RegFlag::C) == (c.regs.a + c.next_byte() > 0xFF),
        c.add_a_n_n().cpu.regs.b == c.regs.b && c.add_a_n_n().cpu.regs.c == c.regs.c
            && c.add_a_n_n().cpu.regs.h == c.regs.h && c.add_a_n_n().cpu.regs.l == c.regs.l,
        c.add_a_n_n().cpu.mmu == c.mmu,
        c.add_a_n_n().cpu.sp == c.sp,
{
    let r = c.regs;
    let n = c.next_byte();
    let sum = ((r.a + n) % 256) as u8;
    let r1 = r.with_flags_reset().with_flag(RegFlag::Z, sum == 0);
    let r2 = r1.with_flag(RegFlag::N, false);
    let r3 = r2.with_flag(RegFlag::H, (r.a & 0x0F) + (n & 0x0F) > 0x0F);
    let r4 = r3.with_flag(RegFlag::C, r.a + n > 0xFF);
    assert(r1.flag(RegFlag::Z) == (sum == 0));
    assert(r2.flag(RegFlag::Z) == (sum == 0));
    assert(r3.flag(RegFlag::Z) == (sum == 0));
    assert(r4.flag(RegFlag::Z) == (sum == 0));
    assert(!r2.flag(RegFlag::N));
    assert(!r3.flag(RegFlag::N));
    assert(!r4.flag(RegFlag::N));
    assert(r3.flag(RegFlag::H) == ((r.a & 0x0F) + (n & 0x0F) > 0x0F));
    assert(r4.flag(RegFlag::H) == ((r.a & 0x0F) + (n & 0x0F) > 0x0F));
    assert(r4.flag(RegFlag::C) == (r.a + n > 0xFF));
    assert(r4.with_reg(Target::A, sum).f == r4.f);
    assert(add_regs(r, n, false) == r4.with_reg(Target::A, sum));
}

/// SWAP twice gives the value back.
pub proof fn law_swap_involution(v: u8)
    ensures
        swapped(swapped(v)) == v,
{
    assert(swapped(swapped(v)) == v) by (bit_vector);
}

/// RRC undoes RLC and RLC undoes RRC.
pub proof fn law_rotate_inverse(v: u8)
    ensures
        rrc_value(rlc_value(v)) == v,
        rlc_value(rrc_value(v)) == v,
{
    assert(rrc_value(rlc_value(v)) == v && rlc_value(rrc_value(v)) == v) by (bit_vector);
}

/// CPL twice restores A.
pub proof fn law_cpl_involution(c: CpuView)
    requires
        c.pc + 2 <= 0xFFFF,
    ensures
        c.cpl().cpu.cpl().cpu.regs.a == c.regs.a,
{
    let a = c.regs.a;
    assert((a ^ 0xFF) ^ 0xFF == a) by (bit_vector);
}

/// CCF twice restores the carry flag; SCF sets it; both clear N and H and keep Z.
pub proof fn law_ccf_scf(c: CpuView)
    ensures
        c.ccf().cpu.ccf().cpu.regs.flag(RegFlag::C) == c.regs.flag(RegFlag::C),
        c.scf().cpu.regs.flag(RegFlag::C),
        !c.scf().cpu.regs.flag(RegFlag::N) && !c.scf().cpu.regs.flag(RegFlag::H),
        !c.ccf().cpu.regs.flag(RegFlag::N) && !c.ccf().cpu.regs.flag(RegFlag::H),
        c.scf().cpu.regs.flag(RegFlag::Z) == c.regs.flag(RegFlag::Z),
        c.ccf().cpu.regs.flag(RegFlag::Z) == c.regs.flag(RegFlag::Z),
{
}

/// XOR A with itself clears A and sets Z.
pub proof fn law_xor_a_clears(c: CpuView)
    ensures
        c.xor_n(Target::A).cpu.regs.a == 0,
        c.xor_n(Target::A).cpu.regs.flag(RegFlag::Z),
{
    let a = c.regs.a;
    assert(a ^ a == 0) by (bit_vector);
    let r1 = c.regs.with_flags_reset().with_flag(RegFlag::Z, true);
    assert(r1.flag(RegFlag::Z));
    assert(r1.with_reg(Target::A, 0).f == r1.f);
}

/// After LD r1,r2 both registers hold r2's value.
pub proof fn law_load_copies(c: CpuView, r1: Target, r2: Target)
    ensures
        c.ld_r1_r2(r1, r2).cpu.regs.reg(r1) == c.regs.reg(r2),
{
}

/// ADD A,n then SUB n gives A back.
pub proof fn law_add_sub_inverse(c: CpuView, t: Target)
    requires
        t != Target::A,
    ensures
        c.add_a_n(t).cpu.sub_n(t).cpu.regs.a == c.regs.a,
{
}

/// PUSH rr followed by POP rr restores rr (for BC, DE and HL) and the stack pointer, when the
/// stack lies in work RAM.
pub proof fn law_push_pop_pair(c: CpuView, t: VirtTarget)
    requires
        t != VirtTarget::AF,
        c.mmu.oam_dma_remaining_cycles == 0,
        0xC002 <= c.sp <= 0xE000,
        c.pc + 2 <= 0xFFFF,
    ensures
        c.push_nn(t).cpu.pop_nn(t).cpu.regs.virt(t) == c.regs.virt(t),
        c.push_nn(t).cpu.pop_nn(t).cpu.sp == c.sp,
{
    law_push_pop(c, c.regs.virt(t));
    let c1 = c.push_nn(t).cpu;
    assert(c1.stack_top() == c.pushed(c.regs.virt(t)).stack_top());
    assert(c1.regs == c.regs);
}

/// Pressing a button clears its bit (0 = pressed); releasing it sets the bit again, so that
/// a press followed by a release leaves the button released and the other buttons as they
/// were.
pub proof fn law_button_press_release(j: Joypad, b: Button)
    ensures
        b.is_dpad() ==> j.with_button(b, true).internal_dpad.byte & b.bit().mask() == 0,
        !b.is_dpad() ==> j.with_button(b, true).internal_buttons.byte & b.bit().mask() == 0,
        b.is_dpad() ==> j.with_button(b, true).with_button(b, false).internal_dpad.byte
            == with_bits(j.internal_dpad.byte, b.bit().mask(), true),
        !b.is_dpad() ==> j.with_button(b, true).with_button(b, false).internal_buttons.byte
            == with_bits(j.internal_buttons.byte, b.bit().mask(), true),
{
    let m = b.bit().mask();
    let d = j.internal_dpad.byte;
    let k = j.internal_buttons.byte;
    assert(with_bits(d, m, false) & m == 0 && with_bits(k, m, false) & m == 0) by (bit_vector)
        requires
            m == 1 || m == 2 || m == 4 || m == 8,
            with_bits(d, m, false) == d & !m,
            with_bits(k, m, false) == k & !m,
    ;
    assert(with_bits(with_bits(d, m, false), m, true) == with_bits(d, m, true) && with_bits(
        with_bits(k, m, false),
        m,
        true,
    ) == with_bits(k, m, true)) by (bit_vector)
        requires
            with_bits(d, m, false) == d & !m,
            with_bits(k, m, false) == k & !m,
            with_bits(with_bits(d, m, false), m, true) == (d & !m) | m,
            with_bits(with_bits(k, m, false), m, true) == (k & !m) | m,
            with_bits(d, m, true) == d | m,
            with_bits(k, m, true) == k | m,
    ;
}

/// The MBC1 ROM bank mapped at 0x4000..=0x7FFF always lies inside the cartridge.
pub proof fn law_mbc1_rom_bank_in_range(m: MBC1View)
    requires
        m.wf(),
    ensures
        m.rom_bank() < m.num_rom_banks(),
{
    vstd::arithmetic::power2::lemma2_to64();
    let n = m.num_rom_banks();
    let rbn = m.rom_bank_number & 0b0001_1111;
    assert(n == 2 || n == 4 || n == 8 || n == 16 || n == 32 || n == 64 || n == 128);
    assert(rbn > n - 1 ==> rbn & ((n - 1) as u8) < n) by (bit_vector)
        requires
            n == 2 || n == 4 || n == 8 || n == 16 || n == 32 || n == 64 || n == 128,
    ;
}

/// Writing a value whose low nibble is 0xA to 0x0000..=0x1FFF enables the MBC1 RAM; any other
/// value disables it.
pub proof fn law_mbc1_ram_enable(m: MBC1View, address: u16, value: u8)
    requires
        address <= 0x1FFF,
    ensures
        m.rom_written(address, value).ram_enable == (value & 0x0F == 0x0A),
{
}

/// While the MBC1 RAM is disabled, it reads 0xFF and ignores writes.
pub proof fn law_mbc1_ram_disabled(m: MBC1View, address: u16, value: u8)
    requires
        !m.ram_enable,
    ensures
        m.read_ram(address) == 0xFF,
        m.ram_written(address, value) == m,
{
}

/// The header checksum field matches the checksum computed over 0x0134..=0x014C exactly when
/// validation reports no error: storing the computed checksum makes the header valid.
pub proof fn law_checksum_roundtrip(rom: Seq<u8>)
    requires
        rom.len() > 0x14D,
    ensures
        rom.update(0x14D, header_checksum(rom))[0x14D] == header_checksum(rom.update(
            0x14D,
            header_checksum(rom),
        )),
{
    let r2 = rom.update(0x14D, header_checksum(rom));
    lemma_byte_sum_prefix(rom, r2, 0x134, 0x14D);
}

/// The checksum only depends on the bytes it sums.
proof fn lemma_byte_sum_prefix(a: Seq<u8>, b: Seq<u8>, lo: int, hi: int)
    requires
        0 <= lo,
        hi <= a.len(),
        hi <= b.len(),
        forall|i: int| lo <= i < hi ==> a[i] == b[i],
    ensures
        crate::cartridge::byte_sum(a, lo, hi) == crate::cartridge::byte_sum(b, lo, hi),
    decreases hi - lo,
{
    if hi > lo {
        lemma_byte_sum_prefix(a, b, lo, hi - 1);
    }
}

/// EI enables interrupts only after the instruction that follows it: one cycle later they are
/// still as they were, two cycles later they are enabled (unless a DI is pending).
pub proof fn law_ei_delay(c: CpuView)
    requires
        c.di_countdown == 0,
    ensures
        c.ei().cpu.countdown_updated().interrupts_enabled == c.interrupts_enabled,
        c.ei().cpu.countdown_updated().countdown_updated().interrupts_enabled,
{
}

/// Dispatching an interrupt jumps to 0x40 + 8 * the index of the lowest activated interrupt,
/// disables interrupts and takes 20 T-cycles (24 when the CPU was halted).
pub proof fn law_interrupt_vector(c: CpuView)
    requires
        c.interrupts_enabled,
        c.activated_interrupts() != 0,
    ensures
        c.interrupt_handled().0.pc == 0x40 + 8 * crate::cpu::lowest_bit(c.activated_interrupts()),
        !c.interrupt_handled().0.interrupts_enabled,
        c.interrupt_handled().1 == 20 + (if c.is_halted {
            4int
        } else {
            0
        }),
{
}

/// The shade that the palette gives to colour index `index` (0..=3) is bits
/// 2 * index + 1 ..= 2 * index of the palette byte.
pub proof fn law_palette_shade_bits(palette: u8, index: u8)
    requires
        index < 4,
    ensures
        palette_shade(palette, index) == (palette >> ((2 * index) as u8)) & 3,
{
    assert(palette_shade(palette, index) == (palette >> ((2 * index) as u8)) & 3) by (bit_vector)
        requires
            index < 4,
    ;
}

/// The number of T-cycles between two increments of TIMA for the clock select bits (bit 1,
/// bit 0) of TAC: 1024 for 0b00, 16 for 0b01, 64 for 0b10 and 256 for 0b11.
pub open spec fn tac_period(bit1: bool, bit0: bool) -> u32 {
    if !bit1 && !bit0 {
        1024
    } else if !bit1 && bit0 {
        16
    } else if bit1 && !bit0 {
        64
    } else {
        256
    }
}

/// An enabled timer whose helper counter is at 0 increments TIMA (below 0xFF) exactly once
/// after the period that TAC's clock select bits give, and not one T-cycle earlier.
pub proof fn law_timer_period(t: Timer, bit1: bool, bit0: bool)
    requires
        t.enabled(),
        t.timer_clocksum == 0,
        t.timer_counter < 0xFF,
        (t.timer_control.byte & 0b10 != 0) == bit1,
        (t.timer_control.byte & 0b01 != 0) == bit0,
    ensures
        t.cycled(tac_period(bit1, bit0)).timer_counter == t.timer_counter + 1,
        t.cycled((tac_period(bit1, bit0) - 1) as u32).timer_counter == t.timer_counter,
{
    let p = tac_period(bit1, bit0);
    assert(t.frequency() == p);
    assert(p as int / p as int == 1 && (p - 1) as int / p as int == 0 && p as int % p as int == 0);
    let ics = t.timer_internal_clocksum + p;
    let s1 = if ics >= 256 {
        Timer {
            divider: ((t.divider as int + 1) % 256) as u8,
            timer_internal_clocksum: (ics - 256) as u32,
            ..t
        }
    } else {
        Timer { timer_internal_clocksum: ics as u32, ..t }
    };
    let base = Timer { timer_clocksum: 0, ..s1 };
    assert(t.cycled(p) == base.ticked(1));
    assert(base.ticked(1) == base.ticked(0).tick());
    assert(base.timer_counter == t.timer_counter);
}

/// Dispatching an interrupt acknowledges that interrupt alone in IF: its bit (the lowest
/// activated one) is cleared and every other request bit keeps its value, when the stack lies
/// in work RAM or high RAM.
pub proof fn law_interrupt_acknowledge(c: CpuView, j: u8)
    requires
        c.interrupts_enabled,
        c.activated_interrupts() != 0,
        c.mmu.oam_dma_remaining_cycles == 0,
        (0xC002 <= c.sp <= 0xE000) || (0xFF82 <= c.sp <= 0xFFFF),
        j < 5,
    ensures
        (c.interrupt_handled().0.mmu.read(0xFF0F) >> j) & 1 == if j == lowest_bit(
            c.activated_interrupts(),
        ) {
            0
        } else {
            (c.mmu.read(0xFF0F) >> j) & 1
        },
{
    let k = lowest_bit(c.activated_interrupts());
    let b = c.mmu.read(0xFF0F);
    let v = b & 0b0001_1111;
    assert(k < 5);
    assert(((v & !(1u8 << k)) >> j) & 1 == if j == k {
        0
    } else {
        (b >> j) & 1
    }) by (bit_vector)
        requires
            k < 5,
            j < 5,
            v == b & 0b0001_1111,
    ;
}

/// The sum of (byte + 1) over `rom[lo..hi]`.
pub open spec fn sum_plus_one(rom: Seq<u8>, lo: int, hi: int) -> int
    decreases hi - lo,
{
    if hi <= lo {
        0
    } else {
        sum_plus_one(rom, lo, hi - 1) + rom[hi - 1] + 1
    }
}

proof fn lemma_sum_plus_one(rom: Seq<u8>, lo: int, hi: int)
    requires
        lo <= hi,
    ensures
        sum_plus_one(rom, lo, hi) == byte_sum(rom, lo, hi) + (hi - lo),
    decreases hi - lo,
{
    if hi > lo {
        lemma_sum_plus_one(rom, lo, hi - 1);
    }
}

/// The header checksum is 0 minus the sum of (byte + 1) over the header bytes
/// 0x0134..=0x014C, modulo 256; so the checksum plus that sum is 0 modulo 256.
pub proof fn law_header_checksum(rom: Seq<u8>)
    ensures
        header_checksum(rom) == ((0 - sum_plus_one(rom, 0x134, 0x14D)) % 256) as u8,
        (header_checksum(rom) + sum_plus_one(rom, 0x134, 0x14D)) % 256 == 0,
{
    lemma_sum_plus_one(rom, 0x134, 0x14D);
    let s = sum_plus_one(rom, 0x134, 0x14D);
    assert((((0 - s) % 256) + s) % 256 == 0) by (nonlinear_arith);
}

/// The interrupt that is dispatched first is the lowest activated one: its bit is set in the
/// activated requests and every lower bit is clear.
pub proof fn law_lowest_interrupt(v: u8, j: u8)
    requires
        v != 0,
        v < 32,
    ensures
        (v >> lowest_bit(v)) & 1 == 1,
        j < lowest_bit(v) ==> (v >> j) & 1 == 0,
{
    let k = lowest_bit(v);
    assert((v >> k) & 1 == 1 && (j < k ==> (v >> j) & 1 == 0)) by (bit_vector)
        requires
            v != 0,
            v < 32,
            k == lowest_bit(v),
    ;
}

/// DIV advances once every 256 T-cycles: from a zero helper counter it is one higher (modulo
/// 256) after 256 T-cycles and unchanged after 255.
pub proof fn law_divider_period(t: Timer)
    requires
        t.timer_internal_clocksum == 0,
    ensures
        t.cycled(256).divider == (t.divider + 1) % 256,
        t.cycled(255).divider == t.divider,
{
    if t.enabled() {
        let f = t.frequency() as int;
        assert(f > 0);
        lemma_ticked_keeps_divider(
            Timer {
                timer_clocksum: ((t.timer_clocksum + 256) % f) as u32,
                divider: ((t.divider as int + 1) % 256) as u8,
                timer_internal_clocksum: 0,
                ..t
            },
            ((t.timer_clocksum + 256) / f) as nat,
        );
        lemma_ticked_keeps_divider(
            Timer { timer_clocksum: ((t.timer_clocksum + 255) % f) as u32, timer_internal_clocksum: 255, ..t },
            ((t.timer_clocksum + 255) / f) as nat,
        );
    }
}

/// TIMA increments never change DIV.
proof fn lemma_ticked_keeps_divider(t: Timer, n: nat)
    ensures
        t.ticked(n).divider == t.divider,
    decreases n,
{
    if n > 0 {
        lemma_ticked_keeps_divider(t, (n - 1) as nat);
    }
}

} // verus!
