//! Interrupt enable register components.
use vstd::prelude::*;

use crate::flags::FlagsEnum;

verus! {

/// Enum for accessing IE register components.
#[derive(Debug, Copy, Clone, PartialEq, Eq, Structural)]
#[allow(clippy::upper_case_acronyms)]
pub enum IEHandler {
    /// Joypad interrupt handler
    Joypad,
    /// Serial interrupt handler
    Serial,
    /// Timer interrupt handler
    Timer,
    /// LCD interrupt handler
    LCD,
    /// VBlank interrupt handler
    VBlank,
}

impl FlagsEnum for IEHandler {
    open spec fn spec_val(&self) -> u8 {
        match self {
            Self::Joypad => 0b0001_0000,
            Self::Serial => 0b0000_1000,
            Self::Timer => 0b0000_0100,
            Self::LCD => 0b0000_0010,
            Self::VBlank => 0b0000_0001,
        }
    }

    fn val(&self) -> (r: u8) {
        match self {
            Self::Joypad => 0b0001_0000,
            Self::Serial => 0b0000_1000,
            Self::Timer => 0b0000_0100,
            Self::LCD => 0b0000_0010,
            Self::VBlank => 0b0000_0001,
        }
    }

    proof fn lemma_single_bit(&self) {
    }
}

} // verus!
