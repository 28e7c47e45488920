//! The device timer (DIV, TIMA, TMA and TAC registers).
use vstd::prelude::*;

use crate::flags::{with_bits, Flags, FlagsEnum};
use crate::interrupts::If;

verus! {

/// Device timer.
#[derive(Debug, Copy, Clone, PartialEq, Eq, Structural)]
pub struct Timer {
    /// Used to alert MMU that the timer triggered some interrupt flags.
    pub interrupt_flags: Flags,
    /// Internal helper counter of the divider.
    pub timer_internal_clocksum: u32,
    /// Internal helper counter of TIMA.
    pub timer_clocksum: u32,
    /// [0xFF04] DIV.
    pub divider: u8,
    /// [0xFF05] TIMA.
    pub timer_counter: u8,
    /// [0xFF06] TMA.
    pub timer_modulo: u8,
    /// [0xFF07] TAC.
    pub timer_control: Flags,
}

/// Timer control enum.
#[derive(Debug, Copy, Clone, PartialEq, Eq, Structural)]
pub enum Tac {
    /// If 1, increment TIMA.
    Enable,
    /// Bit 1 of clock select.
    ClockSelect1,
    /// Bit 0 of clock select.
    ClockSelect0,
}

impl FlagsEnum for Tac {
    open spec fn spec_val(&self) -> u8 {
        match self {
            Self::Enable => 0b0000_0100,
            Self::ClockSelect1 => 0b0000_0010,
            Self::ClockSelect0 => 0b0000_0001,
        }
    }

    fn val(&self) -> (r: u8) {
        match self {
            Self::Enable => 0b0000_0100,
            Self::ClockSelect1 => 0b0000_0010,
            Self::ClockSelect0 => 0b0000_0001,
        }
    }

    proof fn lemma_single_bit(&self) {
    }
}

/// True iff `address` is one of the timer registers.
pub open spec fn is_timer_address(address: u16) -> bool {
    0xFF04 <= address <= 0xFF07
}

impl Timer {
    /// A freshly powered-on timer.
    pub open spec fn initial() -> Timer {
        Timer {
            interrupt_flags: Flags { byte: 0 },
            timer_internal_clocksum: 0,
            timer_clocksum: 0,
            divider: 0,
            timer_counter: 0,
            timer_modulo: 0,
            timer_control: Flags { byte: 0 },
        }
    }

    /// The helper counters stay below one period, so that any number of cycles that an
    /// instruction takes can be added without overflow.
    pub open spec fn inv(self) -> bool {
        &&& self.timer_internal_clocksum < 256
        &&& self.timer_clocksum < 1024
    }

    /// The value read at a timer register.
    pub open spec fn read(self, address: u16) -> u8 {
        if address == 0xFF04 {
            self.divider
        } else if address == 0xFF05 {
            self.timer_counter
        } else if address == 0xFF06 {
            self.timer_modulo
        } else {
            self.timer_control.byte
        }
    }

    /// The timer after writing `value` to a timer register. Writing DIV resets it.
    pub open spec fn written(self, address: u16, value: u8) -> Timer {
        if address == 0xFF04 {
            Timer { divider: 0, ..self }
        } else if address == 0xFF05 {
            Timer { timer_counter: value, ..self }
        } else if address == 0xFF06 {
            Timer { timer_modulo: value, ..self }
        } else {
            Timer { timer_control: Flags { byte: value }, ..self }
        }
    }

    /// True iff TAC enables TIMA.
    pub open spec fn enabled(self) -> bool {
        self.timer_control.byte & 0b100 != 0
    }

    /// Number of t-cycles between two increments of TIMA, as selected by TAC.
    pub open spec fn frequency(self) -> u32 {
        let b1 = self.timer_control.byte & 0b10 != 0;
        let b0 = self.timer_control.byte & 0b01 != 0;
        if b1 && b0 {
            256u32
        } else if !b1 && b0 {
            16u32
        } else if b1 && !b0 {
            64u32
        } else {
            1024u32
        }
    }

    /// One increment of TIMA: on overflow it is reloaded from TMA and the timer interrupt is
    /// requested.
    pub open spec fn tick(self) -> Timer {
        let c = ((self.timer_counter as int + 1) % 256) as u8;
        if c == 0 {
            Timer {
                timer_counter: self.timer_modulo,
                interrupt_flags: Flags {
                    byte: with_bits(self.interrupt_flags.byte, If::Timer.mask(), true),
                },
                ..self
            }
        } else {
            Timer { timer_counter: c, ..self }
        }
    }

    /// `n` increments of TIMA.
    pub open spec fn ticked(self, n: nat) -> Timer
        decreases n,
    {
        if n == 0 {
            self
        } else {
            self.ticked((n - 1) as nat).tick()
        }
    }

    /// The timer after `t_cycles` t-cycles: DIV advances once when its helper counter reaches
    /// 256, and TIMA, when enabled, advances once per `frequency` t-cycles accumulated.
    pub open spec fn cycled(self, t_cycles: u32) -> Timer {
        let ics = self.timer_internal_clocksum + t_cycles;
        let s1 = if ics >= 256 {
            Timer {
                divider: ((self.divider as int + 1) % 256) as u8,
                timer_internal_clocksum: (ics - 256) as u32,
                ..self
            }
        } else {
            Timer { timer_internal_clocksum: ics as u32, ..self }
        };
        if self.enabled() {
            let total = self.timer_clocksum + t_cycles;
            let f = self.frequency();
            Timer { timer_clocksum: (total % (f as int)) as u32, ..s1 }.ticked((total / (f as int)) as nat)
        } else {
            s1
        }
    }

    /// Create a new [Timer].
    pub fn new() -> (r: Self)
        ensures
            r == Timer::initial(),
    {
        Self {
            interrupt_flags: Flags::new(0b0000_0000),
            timer_internal_clocksum: 0,
            timer_clocksum: 0,
            divider: 0x00,
            timer_counter: 0x00,
            timer_modulo: 0x00,
            timer_control: Flags::new(0b0000_0000),
        }
    }

    /// Directly read the byte at the given address.
    pub fn read_byte(&self, address: u16) -> (r: u8)
        requires
            is_timer_address(address),
        ensures
            r == self.read(address),
    {
        match address {
            0xFF04 => self.divider,
            0xFF05 => self.timer_counter,
            0xFF06 => self.timer_modulo,
            _ => self.timer_control.read_byte(),
        }
    }

    /// Directly write to the byte at the given address.
    pub fn write_byte(&mut self, address: u16, value: u8)
        requires
            is_timer_address(address),
        ensures
            *final(self) == old(self).written(address, value),
    {
        match address {
            0xFF04 => self.divider = 0x00,
            0xFF05 => self.timer_counter = value,
            0xFF06 => self.timer_modulo = value,
            _ => self.timer_control.write_byte(value),
        }
    }

    /// Perform one timer cycle.
    pub fn cycle(&mut self, t_cycles: u32)
        requires
            old(self).timer_internal_clocksum + t_cycles <= u32::MAX,
            old(self).timer_clocksum + t_cycles <= u32::MAX,
        ensures
            *final(self) == old(self).cycled(t_cycles),
            old(self).inv() && t_cycles <= 256 ==> final(self).inv(),
    {
        let ghost start = *self;
        // Set timer divider.
        self.timer_internal_clocksum = self.timer_internal_clocksum + t_cycles;
        if self.timer_internal_clocksum >= 256 {
            self.divider = self.divider.wrapping_add(1);
            self.timer_internal_clocksum = self.timer_internal_clocksum - 256;
        }
        // Check whether TIMA gets incremented.
        if self.timer_control.get(Tac::Enable) {
            // Increase helper counter.
            self.timer_clocksum = self.timer_clocksum + t_cycles;
            // Get frequency from TAC register: increment every <frequency> t-cycles.
            let frequency: u32 = match (
                self.timer_control.get(Tac::ClockSelect1),
                self.timer_control.get(Tac::ClockSelect0),
            ) {
                // 0b11: 64 m-cycles
                (true, true) => 64 * 4,
                // 0b01: 4 m-cycles
                (false, true) => 4 * 4,
                // 0b10: 16 m-cycles
                (true, false) => 16 * 4,
                // 0b00: 256 m-cycles
                _ => 256 * 4,
            };
            let ghost total = self.timer_clocksum;
            let ghost base = Timer { timer_clocksum: (total as int % frequency as int) as u32, ..*self };
            let ghost mut k: nat = 0;
            // Increment the timer according to the frequency.
            while self.timer_clocksum >= frequency
                invariant
                    frequency > 0,
                    frequency <= 1024,
                    self.timer_internal_clocksum == base.timer_internal_clocksum,
                    total == self.timer_clocksum + k * frequency,
                    (Timer { timer_clocksum: base.timer_clocksum, ..*self }) == base.ticked(k),
                decreases self.timer_clocksum,
            {
                self.timer_clocksum = self.timer_clocksum - frequency;
                // Increase TIMA
                self.timer_counter = self.timer_counter.wrapping_add(1);
                // If TIMA overflows...
                if self.timer_counter == 0x00 {
                    // ...reset to TMA value...
                    self.timer_counter = self.timer_modulo;
                    // ...and request an interrupt.
                    self.interrupt_flags.set(If::Timer, true);
                }
                proof {
                    assert((k + 1) * frequency == k * frequency + frequency) by (nonlinear_arith);
                    k = k + 1;
                }
            }
            proof {
                vstd::arithmetic::div_mod::lemma_fundamental_div_mod_converse(
                    total as int,
                    frequency as int,
                    k as int,
                    self.timer_clocksum as int,
                );
            }
        }
    }
}

impl Default for Timer {
    fn default() -> (r: Self)
        ensures
            r == Timer::initial(),
    {
        Self::new()
    }
}

} // verus!
