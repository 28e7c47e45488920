//! Core library of a Game Boy (DMG) emulator: registers, memory map, cartridges, timer,
//! joypad, pixel processing unit and the CPU instruction set.
#![allow(unused_imports)]

pub mod flags;
pub mod registers;
pub mod ie_register;
pub mod interrupts;
pub mod timer;
pub mod audio;
pub mod joypad;
pub mod ppu;
pub mod cartridge;
pub mod mmu;
pub mod cpu;
pub mod instructions;
pub mod palette;
pub mod debugger;
pub mod laws;

pub use flags::{Flags, FlagsEnum};
pub use audio::Audio;
pub use cartridge::Cartridge;
pub use cpu::{Cpu, EmuState};
pub use joypad::{Button, Joypad};
pub use mmu::Mmu;
pub use ppu::{DISPLAY_HEIGHT, DISPLAY_WIDTH, PPU};
pub use registers::{RegFlag, Registers, Target, VirtTarget};
pub use timer::Timer;
