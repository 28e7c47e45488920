//! The device joypad (buttons) and its register (0xFF00).
use vstd::prelude::*;

use crate::flags::{with_bits, Flags, FlagsEnum};

verus! {

/// Device joypad (buttons).
#[derive(Debug, Copy, Clone, PartialEq, Eq, Structural)]
pub struct Joypad {
    /// Used to alert MMU that the joypad triggered some interrupt flags.
    pub interrupt_flags: Flags,
    /// The joypad register as the program sees it.
    pub data: Flags,
    /// State of the action buttons (0 = pressed).
    pub internal_buttons: Flags,
    /// State of the directional keys (0 = pressed).
    pub internal_dpad: Flags,
}

/// Button enum.
#[derive(Debug, Copy, Clone, PartialEq, Eq, Structural)]
pub enum Button {
    /// D-pad up.
    Up,
    /// D-pad down.
    Down,
    /// D-pad left.
    Left,
    /// D-pad right.
    Right,
    /// The A button.
    A,
    /// The B button.
    B,
    /// The Start button.
    Start,
    /// The Select button.
    Select,
}

/// Joypad enum.
#[derive(Debug, Copy, Clone, PartialEq, Eq, Structural)]
pub enum Joyp {
    /// If 0, buttons (SsBA) can be read from lower nibble.
    SelectButtons,
    /// If 0, directional keys can be read from lower nibble.
    SelectDPad,
    /// 0 = pressed.
    StartDown,
    /// 0 = pressed.
    SelectUp,
    /// 0 = pressed.
    BLeft,
    /// 0 = pressed.
    ARight,
}

impl Joyp {
    /// The bit of the joypad register that this enum stands for.
    pub open spec fn mask(self) -> u8 {
        match self {
            Self::SelectButtons => 0b0010_0000,
            Self::SelectDPad => 0b0001_0000,
            Self::StartDown => 0b0000_1000,
            Self::SelectUp => 0b0000_0100,
            Self::BLeft => 0b0000_0010,
            Self::ARight => 0b0000_0001,
        }
    }
}

impl FlagsEnum for Joyp {
    open spec fn spec_val(&self) -> u8 {
        self.mask()
    }

    fn val(&self) -> (r: u8) {
        match self {
            Self::SelectButtons => 0b0010_0000,
            Self::SelectDPad => 0b0001_0000,
            Self::StartDown => 0b0000_1000,
            Self::SelectUp => 0b0000_0100,
            Self::BLeft => 0b0000_0010,
            Self::ARight => 0b0000_0001,
        }
    }

    proof fn lemma_single_bit(&self) {
    }
}

impl Button {
    /// True iff the button is a direction of the D-pad.
    pub open spec fn is_dpad(self) -> bool {
        match self {
            Button::Up | Button::Down | Button::Left | Button::Right => true,
            _ => false,
        }
    }

    /// The bit of the lower nibble that reports this button.
    pub open spec fn bit(self) -> Joyp {
        match self {
            Button::Up => Joyp::SelectUp,
            Button::Down => Joyp::StartDown,
            Button::Left => Joyp::BLeft,
            Button::Right => Joyp::ARight,
            Button::A => Joyp::ARight,
            Button::B => Joyp::BLeft,
            Button::Start => Joyp::StartDown,
            Button::Select => Joyp::SelectUp,
        }
    }
}

impl Joypad {
    /// A joypad with all buttons released and nothing selected.
    pub open spec fn initial() -> Joypad {
        Joypad {
            interrupt_flags: Flags { byte: 0 },
            data: Flags { byte: 0b0011_1111 },
            internal_buttons: Flags { byte: 0b0011_1111 },
            internal_dpad: Flags { byte: 0b0011_1111 },
        }
    }

    /// The lower nibble the program reads: the pressed (0) bits of every selected group.
    pub open spec fn selected_nibble(self) -> u8 {
        let n0: u8 = 0b0000_1111;
        let n1: u8 = if self.data.byte & 0b0010_0000 == 0 {
            n0 & self.internal_buttons.byte
        } else {
            n0
        };
        if self.data.byte & 0b0001_0000 == 0 {
            n1 & self.internal_dpad.byte
        } else {
            n1
        }
    }

    /// The joypad after its register is brought up to date with the pressed buttons. A
    /// joypad interrupt is requested when no selected button was pressed before and some is
    /// pressed now.
    pub open spec fn updated(self) -> Joypad {
        let old_vals = self.data.byte & 0b0000_1111;
        let new_vals = self.selected_nibble();
        Joypad {
            interrupt_flags: if old_vals == 0b0000_1111 && new_vals != 0b0000_1111 {
                Flags { byte: self.interrupt_flags.byte | 0b0001_0000 }
            } else {
                self.interrupt_flags
            },
            data: Flags { byte: (self.data.byte & 0b1111_0000) | new_vals },
            ..self
        }
    }

    /// The joypad after the program writes `value` to its register: only the two select bits
    /// are taken from `value`.
    pub open spec fn written(self, value: u8) -> Joypad {
        let d1 = with_bits(self.data.byte, 0b0010_0000, value & 0b0010_0000 != 0);
        let d2 = with_bits(d1, 0b0001_0000, value & 0b0001_0000 != 0);
        Joypad { data: Flags { byte: d2 }, ..self }.updated()
    }

    /// The joypad after `button` is pressed (`pressed`) or released.
    pub open spec fn with_button(self, button: Button, pressed: bool) -> Joypad {
        let mask = button.bit().mask();
        if button.is_dpad() {
            Joypad {
                internal_dpad: Flags { byte: with_bits(self.internal_dpad.byte, mask, !pressed) },
                ..self
            }.updated()
        } else {
            Joypad {
                internal_buttons: Flags {
                    byte: with_bits(self.internal_buttons.byte, mask, !pressed),
                },
                ..self
            }.updated()
        }
    }

    /// Create a new [Joypad].
    pub fn new() -> (r: Self)
        ensures
            r == Joypad::initial(),
    {
        Self {
            interrupt_flags: Flags::new(0b0000_0000),
            data: Flags::new(0b0011_1111),
            internal_buttons: Flags::new(0b0011_1111),
            internal_dpad: Flags::new(0b0011_1111),
        }
    }

    /// Directly read the byte at the given address.
    pub fn read_byte(&self) -> (r: u8)
        ensures
            r == self.data.byte,
    {
        self.data.read_byte()
    }

    /// Directly write to the byte at the given address.
    pub fn write_byte(&mut self, value: u8)
        ensures
            *final(self) == old(self).written(value),
    {
        let value_flags = Flags::new(value);
        self.data.set(Joyp::SelectButtons, value_flags.get(Joyp::SelectButtons));
        self.data.set(Joyp::SelectDPad, value_flags.get(Joyp::SelectDPad));
        self.update();
    }

    /// Update Joypad state to match the pressed buttons.
    fn update(&mut self)
        ensures
            *final(self) == old(self).updated(),
    {
        let old_vals = self.data.read_byte() & 0b0000_1111;
        let mut new_vals = Flags::new(0b0000_1111);
        if !self.data.get(Joyp::SelectButtons) {
            // Add any pressed buttons to current data
            new_vals = new_vals & self.internal_buttons;
        }
        if !self.data.get(Joyp::SelectDPad) {
            // Add any pressed D-pad directions to current data
            new_vals = new_vals & self.internal_dpad;
        }
        // If no buttons were pressed, but now some are...
        if old_vals == 0b0000_1111 && new_vals != Flags::new(0b0000_1111) {
            // ...activate interrupt flag.
            self.interrupt_flags = self.interrupt_flags | Flags::new(0b0001_0000);
        }
        // Update buttons pressed, but not the "Select" state
        self.data = (self.data & Flags::new(0b1111_0000)) | new_vals;
    }

    /// Handle a pressed button. Returns the joypad register afterwards.
    pub fn button_down(&mut self, button: Button) -> (r: Flags)
        ensures
            *final(self) == old(self).with_button(button, true),
            r == final(self).data,
    {
        match button {
            Button::Up => self.internal_dpad.set(Joyp::SelectUp, false),
            Button::Down => self.internal_dpad.set(Joyp::StartDown, false),
            Button::Left => self.internal_dpad.set(Joyp::BLeft, false),
            Button::Right => self.internal_dpad.set(Joyp::ARight, false),
            Button::A => self.internal_buttons.set(Joyp::ARight, false),
            Button::B => self.internal_buttons.set(Joyp::BLeft, false),
            Button::Start => self.internal_buttons.set(Joyp::StartDown, false),
            Button::Select => self.internal_buttons.set(Joyp::SelectUp, false),
        }
        self.update();
        self.data
    }

    /// Handle a released button. Returns the joypad register afterwards.
    pub fn button_up(&mut self, button: Button) -> (r: Flags)
        ensures
            *final(self) == old(self).with_button(button, false),
            r == final(self).data,
    {
        match button {
            Button::Up => self.internal_dpad.set(Joyp::SelectUp, true),
            Button::Down => self.internal_dpad.set(Joyp::StartDown, true),
            Button::Left => self.internal_dpad.set(Joyp::BLeft, true),
            Button::Right => self.internal_dpad.set(Joyp::ARight, true),
            Button::A => self.internal_buttons.set(Joyp::ARight, true),
            Button::B => self.internal_buttons.set(Joyp::BLeft, true),
            Button::Start => self.internal_buttons.set(Joyp::StartDown, true),
            Button::Select => self.internal_buttons.set(Joyp::SelectUp, true),
        }
        self.update();
        self.data
    }
}

impl Default for Joypad {
    fn default() -> (r: Self)
        ensures
            r == Joypad::initial(),
    {
        Self::new()
    }
}

} // verus!
