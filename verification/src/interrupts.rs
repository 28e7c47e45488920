//! The interrupt request flags shared by the devices of the memory map.
use vstd::prelude::*;

use crate::flags::FlagsEnum;

verus! {

/// Interrupt flags enum. Controls whether the different interrupt handlers are being requested.
#[derive(Debug, Copy, Clone, PartialEq, Eq, Structural)]
pub enum If {
    /// Joypad interrupt handler.
    Joypad,
    /// Serial interrupt handler.
    Serial,
    /// Timer interrupt handler.
    Timer,
    /// LCD interrupt handler.
    Lcd,
    /// VBlank interrupt handler.
    VBlank,
}

impl If {
    /// The bit of the IF register that requests this interrupt.
    pub open spec fn mask(self) -> u8 {
        match self {
            Self::Joypad => 0b0001_0000,
            Self::Serial => 0b0000_1000,
            Self::Timer => 0b0000_0100,
            Self::Lcd => 0b0000_0010,
            Self::VBlank => 0b0000_0001,
        }
    }
}

impl FlagsEnum for If {
    open spec fn spec_val(&self) -> u8 {
        self.mask()
    }

    fn val(&self) -> (r: u8) {
        match self {
            Self::Joypad => 0b0001_0000,
            Self::Serial => 0b0000_1000,
            Self::Timer => 0b0000_0100,
            Self::Lcd => 0b0000_0010,
            Self::VBlank => 0b0000_0001,
        }
    }

    proof fn lemma_single_bit(&self) {
    }
}

} // verus!
