//! The emulated CPU of the Game Boy: its state, interrupts, the stack and the machine cycle.
use vstd::prelude::*;
use vstd::string::StringExecFns;
use vstd::std_specs::bits::u8_trailing_zeros;

use crate::flags::Flags;
use crate::instructions::{execute_opcode, keeps_timer_sums, Step};
use crate::joypad::Button;
use crate::mmu::{lemma_plain_write, lemma_reads_ok, lemma_word_write_safe, lemma_written_rom_readable, Mmu, MmuView};
use crate::ppu::DISPLAY_SIZE;
use crate::registers::{RegFlag, Registers, Target};

verus! {

/// The emulated CPU of the Game Boy.
#[derive(Debug)]
pub struct Cpu {
    /// Registers
    pub regs: Registers,
    /// Program counter
    pub pc: u16,
    /// Stack pointer
    pub sp: u16,
    /// MMU
    pub mmu: Mmu,
    /// Halted
    pub is_halted: bool,
    /// Stopped
    pub is_stopped: bool,
    /// Countdown until interrupts are disabled.
    pub di_countdown: usize,
    /// Countdown until interrupts are enabled.
    pub ei_countdown: usize,
    /// Whether interrupts are enabled or not.
    pub interrupts_enabled: bool,
}

/// The state of the CPU and of everything on its memory bus.
pub struct CpuView {
    pub regs: Registers,
    pub pc: u16,
    pub sp: u16,
    pub mmu: MmuView,
    pub is_halted: bool,
    pub is_stopped: bool,
    pub di_countdown: usize,
    pub ei_countdown: usize,
    pub interrupts_enabled: bool,
}

impl View for Cpu {
    type V = CpuView;

    open spec fn view(&self) -> CpuView {
        CpuView {
            regs: self.regs,
            pc: self.pc,
            sp: self.sp,
            mmu: self.mmu@,
            is_halted: self.is_halted,
            is_stopped: self.is_stopped,
            di_countdown: self.di_countdown,
            ei_countdown: self.ei_countdown,
            interrupts_enabled: self.interrupts_enabled,
        }
    }
}

/// The index of the lowest set bit of a non-zero five-bit interrupt mask.
pub open spec fn lowest_bit(v: u8) -> u8 {
    if v & 0b00001 != 0 {
        0
    } else if v & 0b00010 != 0 {
        1
    } else if v & 0b00100 != 0 {
        2
    } else if v & 0b01000 != 0 {
        3
    } else {
        4
    }
}

impl CpuView {
    /// The byte right after the opcode.
    pub open spec fn next_byte(self) -> u8 {
        self.mmu.read((self.pc + 1) as u16)
    }

    /// The 16-bit little-endian value right after the opcode.
    pub open spec fn next_word(self) -> u16 {
        self.mmu.read_word((self.pc + 1) as u16)
    }

    /// True iff pushing on the stack does not overflow the address space.
    pub open spec fn push_ok(self) -> bool {
        self.sp != 1 && self.mmu.word_write_safe(self.sp.wrapping_sub(2))
    }

    /// True iff popping from the stack does not overflow the address space.
    pub open spec fn pop_ok(self) -> bool {
        self.sp != 0xFFFF && self.mmu.reads_ok(self.sp) && self.mmu.reads_ok((self.sp + 1) as u16)
    }

    /// The CPU after pushing `value` on the stack.
    pub open spec fn pushed(self, value: u16) -> CpuView {
        let sp = self.sp.wrapping_sub(2);
        CpuView { sp, mmu: self.mmu.written_word(sp, value), ..self }
    }

    /// The CPU after popping from the stack (the popped value is [Self::stack_top]).
    pub open spec fn popped(self) -> CpuView {
        CpuView { sp: self.sp.wrapping_add(2), ..self }
    }

    /// The 16-bit value on top of the stack.
    pub open spec fn stack_top(self) -> u16 {
        self.mmu.read_word(self.sp)
    }

    /// The CPU after the pending EI / DI countdowns advance by one instruction.
    pub open spec fn countdown_updated(self) -> CpuView {
        let c1 = if self.ei_countdown == 2 {
            CpuView { ei_countdown: 1, ..self }
        } else if self.ei_countdown == 1 {
            CpuView { ei_countdown: 0, interrupts_enabled: true, ..self }
        } else {
            CpuView { ei_countdown: 0, ..self }
        };
        if c1.di_countdown == 2 {
            CpuView { di_countdown: 1, ..c1 }
        } else if c1.di_countdown == 1 {
            CpuView { di_countdown: 0, interrupts_enabled: false, ..c1 }
        } else {
            CpuView { di_countdown: 0, ..c1 }
        }
    }

    /// The interrupts that are both enabled (IE) and requested (IF).
    pub open spec fn activated_interrupts(self) -> u8 {
        (self.mmu.read(0xFFFF) & 0b0001_1111) & (self.mmu.read(0xFF0F) & 0b0001_1111)
    }

    /// The CPU after it checks for interrupts, and the T-cycles spent dispatching one (0 if
    /// none was dispatched). An activated interrupt ends HALT; if interrupts are enabled, the
    /// lowest activated one is acknowledged in IF, the program counter is pushed and the CPU
    /// jumps to its handler at 0x40 + 8 * its index.
    pub open spec fn interrupt_handled(self) -> (CpuView, u32) {
        if !self.interrupts_enabled && !self.is_halted {
            (self, 0)
        } else if self.activated_interrupts() == 0 {
            (self, 0)
        } else {
            let c1 = CpuView { is_halted: false, ..self };
            if !self.interrupts_enabled {
                (c1, 0)
            } else {
                let off = lowest_bit(self.activated_interrupts());
                let iflag = self.mmu.read(0xFF0F) & 0b0001_1111;
                let c2 = CpuView {
                    interrupts_enabled: false,
                    mmu: c1.mmu.written(0xFF0F, iflag & !(1u8 << off)),
                    ..c1
                };
                let c3 = c2.pushed(c2.pc);
                (
                    CpuView { pc: (0x40 + off * 8) as u16, ..c3 },
                    (20 + if self.is_halted {
                        4int
                    } else {
                        0int
                    }) as u32,
                )
            }
        }
    }

    /// What one CPU cycle needs to run without failing.
    pub open spec fn cycle_ok(self) -> bool {
        let c1 = self.countdown_updated();
        let (c2, t) = c1.interrupt_handled();
        &&& self.mmu.timer.inv()
        &&& c1.interrupts_enabled && c1.activated_interrupts() != 0 ==> c1.push_ok()
            && c1.mmu.cart.rom_readable(0x62)
        &&& (t == 0 && !c2.is_halted) ==> c2.mmu.reads_ok(c2.pc) && c2.step_ok(c2.mmu.read(c2.pc))
    }

    /// Capturing the state before an instruction reads the two bytes after the program
    /// counter, which must not leave the address space and must be readable.
    pub open spec fn state_capture_ok(self) -> bool {
        let (c2, t) = self.countdown_updated().interrupt_handled();
        t == 0 && !c2.is_halted ==> c2.pc < 0xFFFE && c2.mmu.reads_ok((c2.pc + 1) as u16)
            && c2.mmu.reads_ok((c2.pc + 2) as u16)
    }

    /// The CPU after one cycle, and the T-cycles it took: a dispatched interrupt, 4 idle
    /// T-cycles while halted, or the instruction at the program counter; the memory bus then
    /// advances by as many T-cycles.
    pub open spec fn cycled(self) -> (CpuView, u32) {
        let c1 = self.countdown_updated();
        let (c2, t) = c1.interrupt_handled();
        if t != 0 {
            (CpuView { mmu: c2.mmu.cycled(t), ..c2 }, t)
        } else if c2.is_halted {
            (CpuView { mmu: c2.mmu.cycled(4), ..c2 }, 4)
        } else {
            let s = c2.step(c2.mmu.read(c2.pc));
            (CpuView { mmu: s.cpu.mmu.cycled(s.cycles), ..s.cpu }, s.cycles)
        }
    }
}

/// True iff each write of [Cpu::load] succeeds, in turn.
pub open spec fn load_ok(m: MmuView, start: u16, data: Seq<u8>) -> bool
    decreases data.len(),
{
    if data.len() == 0 {
        true
    } else {
        load_ok(m, start, data.drop_last()) && loaded(m, start, data.drop_last()).write_ok(
            (start + data.len() - 1) as u16,
            data.last(),
        )
    }
}

/// The writes of a prefix of the data succeed when those of the whole data do.
proof fn lemma_load_ok_prefix(m: MmuView, start: u16, data: Seq<u8>, i: int)
    requires
        load_ok(m, start, data),
        0 <= i <= data.len(),
    ensures
        load_ok(m, start, data.subrange(0, i)),
    decreases data.len(),
{
    if i < data.len() {
        lemma_load_ok_prefix(m, start, data.drop_last(), i);
        assert(data.drop_last().subrange(0, i) =~= data.subrange(0, i));
    } else {
        assert(data.subrange(0, i) =~= data);
    }
}

/// The bytes that [Cpu::load] writes, written one after the other.
pub open spec fn loaded(m: MmuView, start: u16, data: Seq<u8>) -> MmuView
    decreases data.len(),
{
    if data.len() == 0 {
        m
    } else {
        loaded(m, start, data.drop_last()).written(
            (start + data.len() - 1) as u16,
            data.last(),
        )
    }
}

impl Cpu {
    /// Create a new [Cpu] with no boot ROM or cartridge, for testing: all registers zero,
    /// execution from address 0x0000 and the stack at 0xFFFE.
    pub fn new() -> (r: Self)
        ensures
            r@.mmu.cart is Empty,
            r@.mmu.cart->Empty_mem == Seq::new(0x8000, |i: int| 0u8),
            r@.mmu == MmuView::initial(r@.mmu.cart, None),
            r@ == (CpuView { sp: 0xFFFE, ..Cpu::powered_on(r@.mmu) }),
    {
        let mut cpu = Self::new_with_boot_helper(Mmu::new());
        cpu.sp = 0xFFFE;
        cpu
    }

    /// Create a new [Cpu] with a cartridge and no boot ROM. Execution starts at the cartridge
    /// entry point 0x0100.
    pub fn new_cart(cart: crate::cartridge::Cart) -> (r: Self)
        ensures
            r@ == Cpu::after_boot_rom(MmuView::initial(cart@, None), 0x0100),
    {
        Self::new_no_boot_helper(Mmu::new_cart(cart), 0x0100)
    }

    /// Create a new [Cpu] with a boot ROM and no cartridge.
    pub fn new_boot(boot_rom: [u8; 0x0100]) -> (r: Self)
        ensures
            r@.mmu.cart is Empty,
            r@.mmu == MmuView::initial(r@.mmu.cart, Some(boot_rom)),
            r@ == Cpu::powered_on(r@.mmu),
    {
        Self::new_with_boot_helper(Mmu::new_boot(boot_rom))
    }

    /// Create a new [Cpu] with a cartridge and a boot ROM.
    pub fn new_boot_cart(cart: crate::cartridge::Cart, boot_rom: [u8; 0x0100]) -> (r: Self)
        ensures
            r@ == Cpu::powered_on(MmuView::initial(cart@, Some(boot_rom))),
    {
        Self::new_with_boot_helper(Mmu::new_boot_cart(cart, boot_rom))
    }

    /// A CPU at power-on: everything zero, so that the boot ROM runs from 0x0000.
    pub open spec fn powered_on(mmu: MmuView) -> CpuView {
        CpuView {
            regs: Registers::zeroed(),
            pc: 0x0000,
            sp: 0x0000,
            mmu,
            is_halted: false,
            is_stopped: false,
            di_countdown: 0,
            ei_countdown: 0,
            interrupts_enabled: false,
        }
    }

    /// A CPU in the state that the boot ROM leaves: A=0x01, BC=0x0013, DE=0x00D8, HL=0x014D,
    /// flags Z, H and C set, SP=0xFFFE.
    pub open spec fn after_boot_rom(mmu: MmuView, pc: u16) -> CpuView {
        CpuView {
            regs: Registers {
                a: 0x01,
                b: 0x00,
                c: 0x13,
                d: 0x00,
                e: 0xD8,
                f: Flags { byte: 0b1011_0000 },
                h: 0x01,
                l: 0x4D,
            },
            pc,
            sp: 0xFFFE,
            mmu,
            is_halted: false,
            is_stopped: false,
            di_countdown: 0,
            ei_countdown: 0,
            interrupts_enabled: false,
        }
    }

    fn new_with_boot_helper(mmu: Mmu) -> (r: Self)
        ensures
            r@ == Cpu::powered_on(mmu@),
    {
        Self {
            regs: Registers::new(),
            pc: 0x0000,
            sp: 0x0000,
            mmu,
            is_halted: false,
            is_stopped: false,
            ei_countdown: 0,
            di_countdown: 0,
            interrupts_enabled: false,
        }
    }

    fn new_no_boot_helper(mmu: Mmu, pc: u16) -> (r: Self)
        ensures
            r@ == Cpu::after_boot_rom(mmu@, pc),
    {
        let mut cpu = Self {
            regs: Registers::new(),
            pc,
            sp: 0xFFFE,
            mmu,
            is_halted: false,
            is_stopped: false,
            ei_countdown: 0,
            di_countdown: 0,
            interrupts_enabled: false,
        };
        cpu.regs.set_reg(Target::A, 0x01);
        cpu.regs.set_reg(Target::B, 0x00);
        cpu.regs.set_reg(Target::C, 0x13);
        cpu.regs.set_reg(Target::D, 0x00);
        cpu.regs.set_reg(Target::E, 0xD8);
        cpu.regs.set_reg(Target::H, 0x01);
        cpu.regs.set_reg(Target::L, 0x4D);
        cpu.regs.set_flag(RegFlag::Z, true);
        cpu.regs.set_flag(RegFlag::N, false);
        cpu.regs.set_flag(RegFlag::H, true);
        cpu.regs.set_flag(RegFlag::C, true);
        proof {
            let fb = cpu.regs.f.byte;
            assert(fb == 0b1011_0000) by (bit_vector)
                requires
                    fb == (((0u8 | 0b1000_0000) & !0b0100_0000u8) | 0b0010_0000) | 0b0001_0000,
            ;
        }
        cpu
    }

    /// Get the output of the PPU. This is an array of values ranging from 0-3. Each value
    /// represents one pixel.
    ///
    /// To render this output, perform the following conversion:
    /// 0 -> White
    /// 1 -> Light grey
    /// 2 -> Dark grey
    /// 3 -> Black
    pub fn get_pixels(&self) -> (r: &[u8; DISPLAY_SIZE])
        ensures
            *r == self.mmu.ppu.data_output,
    {
        &self.mmu.ppu.data_output
    }

    /// Handle a button press; returns the joypad register.
    pub fn button_down(&mut self, button: Button) -> (r: Flags)
        ensures
            final(self).mmu.joypad == old(self).mmu.joypad.with_button(button, true),
            final(self)@ == (CpuView {
                mmu: MmuView { joypad: final(self).mmu.joypad, ..old(self)@.mmu },
                ..old(self)@
            }),
            r == final(self).mmu.joypad.data,
    {
        self.mmu.joypad.button_down(button)
    }

    /// Handle a button release; returns the joypad register.
    pub fn button_up(&mut self, button: Button) -> (r: Flags)
        ensures
            final(self).mmu.joypad == old(self).mmu.joypad.with_button(button, false),
            final(self)@ == (CpuView {
                mmu: MmuView { joypad: final(self).mmu.joypad, ..old(self)@.mmu },
                ..old(self)@
            }),
            r == final(self).mmu.joypad.data,
    {
        self.mmu.joypad.button_up(button)
    }

    /// Perform one cycle. Return number of T-cycles taken and, for an interrupt or when
    /// `get_state` asks for it, the state of the CPU before the instruction. Printing the
    /// debug output that `debug` asks for is left to the caller.
    pub fn cycle(&mut self, debug: bool, get_state: bool) -> (r: (u32, Option<EmuState>))
        requires
            old(self)@.cycle_ok(),
            get_state ==> old(self)@.state_capture_ok(),
        ensures
            (final(self)@, r.0) == old(self)@.cycled(),
            final(self).mmu.timer.inv(),
            ({
                let c1 = old(self)@.countdown_updated();
                let (c2, t) = c1.interrupt_handled();
                if t != 0 {
                    r.1 matches Some(s) && s.describes(c2) && s.size == 0 && s.cycles == t
                        && s.instruction_string@ == "INTERRUPT"@
                } else if c2.is_halted {
                    r.1 is None
                } else {
                    let st = c2.step(c2.mmu.read(c2.pc));
                    &&& get_state <==> r.1 is Some
                    &&& r.1 matches Some(s) ==> s.describes(c2) && s.size == st.size && s.cycles
                        == st.cycles && s.instruction_string@ == st.text
                }
            }),
    {
        self.update_interrupt_countdown();
        let interrupt = self.handle_interrupt();
        let cycles_and_state = if interrupt != 0 {
            assert(self@.mmu.read_ok(self.pc));
            assert(self@.mmu.read_ok((self.pc + 1) as u16));
            assert(self@.mmu.read_ok((self.pc + 2) as u16));
            let mut emu_state = EmuState::new(self);
            emu_state.update(0, interrupt, String::from_str("INTERRUPT"));
            (interrupt, Some(emu_state))
        } else if self.is_halted {
            (4, None)
        } else {
            proof {
                lemma_reads_ok(self.mmu@, self.pc);
            }
            let opcode = self.mmu.read_byte(self.pc);
            execute_opcode(self, opcode, debug, get_state)
        };
        self.mmu.cycle(cycles_and_state.0);
        cycles_and_state
    }

    /// Check whether one CPU cycle can run without failing (see [CpuView::cycle_ok]) and,
    /// when `get_state` asks for the state, whether it can be captured (see
    /// [CpuView::state_capture_ok]).
    pub fn can_cycle(&self, get_state: bool) -> (r: bool)
        ensures
            r == (self@.cycle_ok() && (get_state ==> self@.state_capture_ok())),
    {
        if !(self.mmu.timer.timer_internal_clocksum < 256 && self.mmu.timer.timer_clocksum < 1024) {
            return false;
        }
        // Interrupts as enabled once the EI / DI countdowns advance.
        let ime = if self.di_countdown == 1 {
            false
        } else if self.ei_countdown == 1 {
            true
        } else {
            self.interrupts_enabled
        };
        let ie = self.mmu.read_byte(0xFFFF) & 0b0001_1111;
        let iflag = self.mmu.read_byte(0xFF0F) & 0b0001_1111;
        let activated = ie & iflag;
        if ime && activated != 0 {
            // An interrupt is dispatched: it pushes the program counter and the state at
            // the handler is captured.
            return self.sp != 1 && self.mmu.can_write_word_any(self.sp.wrapping_sub(2))
                && self.mmu.vectors_readable();
        }
        if self.is_halted && activated == 0 {
            // Still halted: nothing runs.
            return true;
        }
        if !self.mmu.can_read(self.pc) {
            return false;
        }
        proof {
            lemma_reads_ok(self.mmu@, self.pc);
        }
        let opcode = self.mmu.read_byte(self.pc);
        self.can_step(opcode) && (!get_state || (self.pc < 0xFFFE && self.mmu.can_read(self.pc
            + 1) && self.mmu.can_read(self.pc + 2)))
    }

    /// Dispatch an interrupt if one is activated and interrupts are enabled (see
    /// [CpuView::interrupt_handled]).
    fn handle_interrupt(&mut self) -> (r: u32)
        requires
            old(self)@.interrupts_enabled && old(self)@.activated_interrupts() != 0 ==> old(
                self,
            )@.push_ok() && old(self)@.mmu.cart.rom_readable(0x62),
        ensures
            (final(self)@, r) == old(self)@.interrupt_handled(),
            r == 0 ==> final(self)@.mmu == old(self)@.mmu,
            keeps_timer_sums(old(self)@, final(self)@),
            r <= 24,
            r != 0 ==> final(self)@.mmu.cart.rom_readable(0x62) && final(self)@.pc <= 0x60,
    {
        if !self.interrupts_enabled && !self.is_halted {
            return 0;
        }
        let raw_ie = self.mmu.read_byte(0xFFFF);
        let raw_if = self.mmu.read_byte(0xFF0F);
        let interrupt_enable_register = raw_ie & 0b0001_1111;
        let interrupt_flag_register = raw_if & 0b0001_1111;
        let interrupt_activated = interrupt_enable_register & interrupt_flag_register;
        if interrupt_activated == 0 {
            return 0;
        }
        let halted_penalty: u32 = if self.is_halted {
            4
        } else {
            0
        };
        self.is_halted = false;
        if !self.interrupts_enabled {
            return 0;
        }
        self.interrupts_enabled = false;
        // Prioritise lowest activated interrupt
        let offset = interrupt_activated.trailing_zeros();
        proof {
            broadcast use vstd::std_specs::bits::axiom_u8_trailing_zeros;

            let t = u8_trailing_zeros(interrupt_activated) as u8;
            let a = interrupt_activated;
            let ie = interrupt_enable_register;
            let ifr = interrupt_flag_register;
            assert(a < 32) by (bit_vector)
                requires
                    a == ie & ifr,
                    ie == raw_ie & 0b0001_1111,
            ;
            let b0 = (a >> 0u8) & 1u8;
            let b1 = (a >> 1u8) & 1u8;
            let b2 = (a >> 2u8) & 1u8;
            let b3 = (a >> 3u8) & 1u8;
            assert(t > 0 ==> b0 == 0u8);
            assert(t > 1 ==> b1 == 0u8);
            assert(t > 2 ==> b2 == 0u8);
            assert(t > 3 ==> b3 == 0u8);
            assert(t == lowest_bit(a) && t < 5) by (bit_vector)
                requires
                    a != 0,
                    a < 32,
                    t < 8,
                    (a >> t) & 1u8 == 1u8,
                    b0 == (a >> 0u8) & 1u8,
                    b1 == (a >> 1u8) & 1u8,
                    b2 == (a >> 2u8) & 1u8,
                    b3 == (a >> 3u8) & 1u8,
                    t > 0 ==> b0 == 0u8,
                    t > 1 ==> b1 == 0u8,
                    t > 2 ==> b2 == 0u8,
                    t > 3 ==> b3 == 0u8,
            ;
        }
        let off = offset as u8;
        let new_if = interrupt_flag_register & !(1u8 << off);
        proof {
            lemma_plain_write(self.mmu@, 0xFF0F, new_if, self.sp.wrapping_sub(2));
        }
        self.mmu.write_byte(0xFF0F, new_if);
        let pc = self.pc;
        self.push_stack(pc);
        self.pc = 0x0040 | ((off as u16) << 3);
        assert(0x0040 | ((off as u16) << 3) == 0x40 + off * 8) by (bit_vector)
            requires
                off < 5,
        ;
        20 + halted_penalty
    }

    /// Advance the EI / DI countdowns by one instruction (see [CpuView::countdown_updated]).
    fn update_interrupt_countdown(&mut self)
        ensures
            final(self)@ == old(self)@.countdown_updated(),
            final(self).mmu == old(self).mmu,
    {
        self.ei_countdown = if self.ei_countdown == 2 {
            1
        } else if self.ei_countdown == 1 {
            self.interrupts_enabled = true;
            0
        } else {
            0
        };
        self.di_countdown = if self.di_countdown == 2 {
            1
        } else if self.di_countdown == 1 {
            self.interrupts_enabled = false;
            0
        } else {
            0
        };
    }

    /// Load something into memory: write the bytes of `data` one after the other from
    /// `start_index` on.
    pub fn load(&mut self, start_index: u16, data: &[u8])
        requires
            start_index + data@.len() <= 0x10000,
            load_ok(old(self)@.mmu, start_index, data@),
        ensures
            final(self)@ == (CpuView { mmu: loaded(old(self)@.mmu, start_index, data@), ..old(self)@ }),
    {
        let mut i: usize = 0;
        while i < data.len()
            invariant
                start_index + data@.len() <= 0x10000,
                i <= data@.len(),
                load_ok(old(self)@.mmu, start_index, data@),
                self@ == (CpuView {
                    mmu: loaded(old(self)@.mmu, start_index, data@.subrange(0, i as int)),
                    ..old(self)@
                }),
            decreases data@.len() - i,
        {
            proof {
                let next = data@.subrange(0, i + 1);
                lemma_load_ok_prefix(old(self)@.mmu, start_index, data@, i + 1);
                assert(next.drop_last() =~= data@.subrange(0, i as int));
            }
            self.mmu.write_byte(start_index + (i as u16), data[i]);
            i = i + 1;
        }
        assert(data@.subrange(0, data@.len() as int) =~= data@);
    }

    /// Get next byte.
    pub fn get_next_byte(&mut self) -> (r: u8)
        requires
            old(self).pc < 0xFFFF,
            old(self)@.mmu.read_ok((old(self).pc + 1) as u16),
        ensures
            r == old(self)@.next_byte(),
            *final(self) == *old(self),
    {
        self.mmu.read_byte(self.pc + 1)
    }

    /// Get next two bytes (little-endian).
    pub fn get_next_2_bytes(&mut self) -> (r: u16)
        requires
            old(self).pc < 0xFFFE,
            old(self)@.mmu.read_ok((old(self).pc + 1) as u16),
            old(self)@.mmu.read_ok((old(self).pc + 2) as u16),
        ensures
            r == old(self)@.next_word(),
            *final(self) == *old(self),
    {
        self.mmu.read_2_bytes(self.pc + 1)
    }

    /// Push to stack.
    pub fn push_stack(&mut self, value: u16)
        requires
            old(self)@.push_ok(),
        ensures
            final(self)@ == old(self)@.pushed(value),
            final(self)@.mmu.cart.rom_readable(0x62) == old(self)@.mmu.cart.rom_readable(0x62),
    {
        self.sp = self.sp.wrapping_sub(2);
        proof {
            let m = self.mmu@;
            lemma_word_write_safe(m, self.sp, value, 0);
            lemma_written_rom_readable(m, self.sp, (value % 256) as u8, 0x62);
            lemma_written_rom_readable(
                m.written(self.sp, (value % 256) as u8),
                (self.sp + 1) as u16,
                (value / 256) as u8,
                0x62,
            );
        }
        self.mmu.write_2_bytes(self.sp, value);
    }

    /// Pop from stack.
    pub fn pop_stack(&mut self) -> (r: u16)
        requires
            old(self)@.pop_ok(),
        ensures
            r == old(self)@.stack_top(),
            final(self)@ == old(self)@.popped(),
    {
        proof {
            lemma_reads_ok(self.mmu@, self.sp);
            lemma_reads_ok(self.mmu@, (self.sp + 1) as u16);
        }
        let popped_val = self.mmu.read_2_bytes(self.sp);
        self.sp = self.sp.wrapping_add(2);
        popped_val
    }
}

impl Default for Cpu {
    fn default() -> (r: Self)
        ensures
            r@.mmu.cart is Empty,
            r@ == (CpuView { sp: 0xFFFE, ..Cpu::powered_on(r@.mmu) }),
    {
        Self::new()
    }
}

/// The state of the emulator at a specific point in time.
pub struct EmuState {
    /// Program counter.
    pub pc: u16,
    /// Stack pointer.
    pub sp: u16,
    /// Byte at the program counter.
    pub byte_0: u8,
    /// Byte after the program counter.
    pub byte_1: u8,
    /// Byte 2 after the program counter.
    pub byte_2: u8,
    /// Zero flag.
    pub z_flag: bool,
    /// Subtraction flag.
    pub n_flag: bool,
    /// Half-carry flag.
    pub h_flag: bool,
    /// Carry flag.
    pub c_flag: bool,
    /// A register.
    pub a_reg: u8,
    /// B register.
    pub b_reg: u8,
    /// C register.
    pub c_reg: u8,
    /// D register.
    pub d_reg: u8,
    /// E register.
    pub e_reg: u8,
    /// H register.
    pub h_reg: u8,
    /// L register.
    pub l_reg: u8,
    /// Instruction size.
    pub size: u16,
    /// Instruction cycles.
    pub cycles: u32,
    /// Instruction string.
    pub instruction_string: String,
}

impl EmuState {
    /// The CPU fields of this state are those of `cpu`.
    pub open spec fn describes(&self, cpu: CpuView) -> bool {
        &&& self.pc == cpu.pc
        &&& self.sp == cpu.sp
        &&& self.byte_0 == cpu.mmu.read(cpu.pc)
        &&& self.byte_1 == cpu.mmu.read((cpu.pc + 1) as u16)
        &&& self.byte_2 == cpu.mmu.read((cpu.pc + 2) as u16)
        &&& self.z_flag == cpu.regs.flag(RegFlag::Z)
        &&& self.n_flag == cpu.regs.flag(RegFlag::N)
        &&& self.h_flag == cpu.regs.flag(RegFlag::H)
        &&& self.c_flag == cpu.regs.flag(RegFlag::C)
        &&& self.a_reg == cpu.regs.a
        &&& self.b_reg == cpu.regs.b
        &&& self.c_reg == cpu.regs.c
        &&& self.d_reg == cpu.regs.d
        &&& self.e_reg == cpu.regs.e
        &&& self.h_reg == cpu.regs.h
        &&& self.l_reg == cpu.regs.l
    }

    /// Create an EmuState from the current state of the CPU. Default fields for instruction
    /// info.
    pub fn new(cpu: &Cpu) -> (r: Self)
        requires
            cpu.pc < 0xFFFE,
            cpu@.mmu.read_ok(cpu.pc),
            cpu@.mmu.read_ok((cpu.pc + 1) as u16),
            cpu@.mmu.read_ok((cpu.pc + 2) as u16),
        ensures
            r.describes(cpu@),
            r.size == 0,
            r.cycles == 0,
            r.instruction_string@ == Seq::<char>::empty(),
    {
        Self {
            pc: cpu.pc,
            sp: cpu.sp,
            byte_0: cpu.mmu.read_byte(cpu.pc),
            byte_1: cpu.mmu.read_byte(cpu.pc + 1),
            byte_2: cpu.mmu.read_byte(cpu.pc + 2),
            z_flag: cpu.regs.get_flag(RegFlag::Z),
            n_flag: cpu.regs.get_flag(RegFlag::N),
            h_flag: cpu.regs.get_flag(RegFlag::H),
            c_flag: cpu.regs.get_flag(RegFlag::C),
            a_reg: cpu.regs.get_reg(Target::A),
            b_reg: cpu.regs.get_reg(Target::B),
            c_reg: cpu.regs.get_reg(Target::C),
            d_reg: cpu.regs.get_reg(Target::D),
            e_reg: cpu.regs.get_reg(Target::E),
            h_reg: cpu.regs.get_reg(Target::H),
            l_reg: cpu.regs.get_reg(Target::L),
            size: 0,
            cycles: 0,
            instruction_string: String::new(),
        }
    }

    /// Populate the empty fields with the info from the executed instruction.
    pub fn update(&mut self, instr_size: u16, instr_cycles: u32, instr_string: String)
        ensures
            final(self).size == instr_size,
            final(self).cycles == instr_cycles,
            final(self).instruction_string@ == instr_string@,
            final(self).describes_same(old(self)),
    {
        self.size = instr_size;
        self.cycles = instr_cycles;
        self.instruction_string = instr_string;
    }

    /// The CPU fields of this state are those of `other`.
    pub open spec fn describes_same(&self, other: &EmuState) -> bool {
        &&& self.pc == other.pc
        &&& self.sp == other.sp
        &&& self.byte_0 == other.byte_0
        &&& self.byte_1 == other.byte_1
        &&& self.byte_2 == other.byte_2
        &&& self.z_flag == other.z_flag
        &&& self.n_flag == other.n_flag
        &&& self.h_flag == other.h_flag
        &&& self.c_flag == other.c_flag
        &&& self.a_reg == other.a_reg
        &&& self.b_reg == other.b_reg
        &&& self.c_reg == other.c_reg
        &&& self.d_reg == other.d_reg
        &&& self.e_reg == other.e_reg
        &&& self.h_reg == other.h_reg
        &&& self.l_reg == other.l_reg
    }
}

} // verus!
