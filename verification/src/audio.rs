//! Device audio registers.
use vstd::prelude::*;

use crate::flags::Flags;

verus! {

/// True iff `address` is one of the audio registers (including the unused 0xFF15 and 0xFF1F)
/// or wave pattern RAM.
pub open spec fn is_audio_address(address: u16) -> bool {
    (0xFF10 <= address <= 0xFF26) || (0xFF30 <= address <= 0xFF3F)
}

/// Device audio.
#[derive(Debug, Copy, Clone)]
pub struct Audio {
    /// Used to alert MMU that the audio triggered some interrupt flags.
    pub interrupt_flags: Flags,
    /// [0xFF10]
    pub c1_sweep: Flags,
    /// [0xFF11]
    pub c1_len_duty: Flags,
    /// [0xFF12]
    pub c1_vol_env: Flags,
    /// [0xFF13]; write-only
    pub c1_period_low: Flags,
    /// [0xFF14]
    pub c1_period_high_control: Flags,
    /// [0xFF16]
    pub c2_len_duty: Flags,
    /// [0xFF17]
    pub c2_vol_env: Flags,
    /// [0xFF18]; write-only
    pub c2_period_low: Flags,
    /// [0xFF19]
    pub c2_period_high_control: Flags,
    /// [0xFF1A]
    pub c3_dac_enable: u8,
    /// [0xFF1B]; write-only
    pub c3_len_timer: u8,
    /// [0xFF1C]
    pub c3_out_level: Flags,
    /// [0xFF1D]; write-only
    pub c3_period_low: Flags,
    /// [0xFF1E]
    pub c3_period_high_control: Flags,
    /// [0xFF20]
    pub c4_len_timer: Flags,
    /// [0xFF21]
    pub c4_vol_env: Flags,
    /// [0xFF22]
    pub c4_freq_rand: Flags,
    /// [0xFF23]
    pub c4_control: Flags,
    /// [0xFF24]
    pub master_vol_vin_panning: Flags,
    /// [0xFF25]
    pub sound_panning: Flags,
    /// [0xFF26]
    pub audio_master_control: Flags,
    /// [0xFF30-0xFF3F] Wave pattern RAM.
    pub wave_pattern_ram: [u8; 0x10],
}

impl Audio {
    /// Audio registers after power-on.
    pub open spec fn initial() -> Audio {
        Audio {
            interrupt_flags: Flags { byte: 0 },
            c1_sweep: Flags { byte: 0 },
            c1_len_duty: Flags { byte: 0 },
            c1_vol_env: Flags { byte: 0 },
            c1_period_low: Flags { byte: 0 },
            c1_period_high_control: Flags { byte: 0 },
            c2_len_duty: Flags { byte: 0 },
            c2_vol_env: Flags { byte: 0 },
            c2_period_low: Flags { byte: 0 },
            c2_period_high_control: Flags { byte: 0 },
            c3_dac_enable: 0,
            c3_len_timer: 0,
            c3_out_level: Flags { byte: 0 },
            c3_period_low: Flags { byte: 0 },
            c3_period_high_control: Flags { byte: 0 },
            c4_len_timer: Flags { byte: 0 },
            c4_vol_env: Flags { byte: 0 },
            c4_freq_rand: Flags { byte: 0 },
            c4_control: Flags { byte: 0 },
            master_vol_vin_panning: Flags { byte: 0 },
            sound_panning: Flags { byte: 0 },
            audio_master_control: Flags { byte: 0 },
            wave_pattern_ram: vstd::array::spec_array_fill_for_copy_type::<u8, 16>(0),
        }
    }

    /// The value read at an audio address. Write-only and unused registers read as 0xFF.
    pub open spec fn read(self, address: u16) -> u8 {
        if address == 0xFF10 {
            self.c1_sweep.byte
        } else if address == 0xFF11 {
            self.c1_len_duty.byte
        } else if address == 0xFF12 {
            self.c1_vol_env.byte
        } else if address == 0xFF13 {
            0xFF
        } else if address == 0xFF14 {
            self.c1_period_high_control.byte
        } else if address == 0xFF16 {
            self.c2_len_duty.byte
        } else if address == 0xFF17 {
            self.c2_vol_env.byte
        } else if address == 0xFF18 {
            0xFF
        } else if address == 0xFF19 {
            self.c2_period_high_control.byte
        } else if address == 0xFF1A {
            self.c3_dac_enable
        } else if address == 0xFF1B {
            0xFF
        } else if address == 0xFF1C {
            self.c3_out_level.byte
        } else if address == 0xFF1D {
            0xFF
        } else if address == 0xFF1E {
            self.c3_period_high_control.byte
        } else if address == 0xFF20 {
            self.c4_len_timer.byte
        } else if address == 0xFF21 {
            self.c4_vol_env.byte
        } else if address == 0xFF22 {
            self.c4_freq_rand.byte
        } else if address == 0xFF23 {
            self.c4_control.byte
        } else if address == 0xFF24 {
            self.master_vol_vin_panning.byte
        } else if address == 0xFF25 {
            self.sound_panning.byte
        } else if address == 0xFF26 {
            self.audio_master_control.byte
        } else if 0xFF30 <= address <= 0xFF3F {
            self.wave_pattern_ram[address - 0xFF30]
        } else {
            0xFF
        }
    }

    /// The audio registers after writing `value` at an audio address.
    pub open spec fn written(self, address: u16, value: u8) -> Audio {
        if address == 0xFF10 {
            Audio { c1_sweep: Flags { byte: value }, ..self }
        } else if address == 0xFF11 {
            Audio { c1_len_duty: Flags { byte: value }, ..self }
        } else if address == 0xFF12 {
            Audio { c1_vol_env: Flags { byte: value }, ..self }
        } else if address == 0xFF13 {
            Audio { c1_period_low: Flags { byte: value }, ..self }
        } else if address == 0xFF14 {
            Audio { c1_period_high_control: Flags { byte: value }, ..self }
        } else if address == 0xFF16 {
            Audio { c2_len_duty: Flags { byte: value }, ..self }
        } else if address == 0xFF17 {
            Audio { c2_vol_env: Flags { byte: value }, ..self }
        } else if address == 0xFF18 {
            Audio { c2_period_low: Flags { byte: value }, ..self }
        } else if address == 0xFF19 {
            Audio { c2_period_high_control: Flags { byte: value }, ..self }
        } else if address == 0xFF1A {
            Audio { c3_dac_enable: value, ..self }
        } else if address == 0xFF1B {
            Audio { c3_len_timer: value, ..self }
        } else if address == 0xFF1C {
            Audio { c3_out_level: Flags { byte: value }, ..self }
        } else if address == 0xFF1D {
            Audio { c3_period_low: Flags { byte: value }, ..self }
        } else if address == 0xFF1E {
            Audio { c3_period_high_control: Flags { byte: value }, ..self }
        } else if address == 0xFF20 {
            Audio { c4_len_timer: Flags { byte: value }, ..self }
        } else if address == 0xFF21 {
            Audio { c4_vol_env: Flags { byte: value }, ..self }
        } else if address == 0xFF22 {
            Audio { c4_freq_rand: Flags { byte: value }, ..self }
        } else if address == 0xFF23 {
            Audio { c4_control: Flags { byte: value }, ..self }
        } else if address == 0xFF24 {
            Audio { master_vol_vin_panning: Flags { byte: value }, ..self }
        } else if address == 0xFF25 {
            Audio { sound_panning: Flags { byte: value }, ..self }
        } else if address == 0xFF26 {
            Audio { audio_master_control: Flags { byte: value }, ..self }
        } else if 0xFF30 <= address <= 0xFF3F {
            Audio {
                wave_pattern_ram: vstd::array::spec_array_update(
                    self.wave_pattern_ram,
                    address - 0xFF30,
                    value,
                ),
                ..self
            }
        } else {
            self
        }
    }

    /// Create new [Audio].
    pub fn new() -> (r: Self)
        ensures
            r == Audio::initial(),
    {
        Self {
            interrupt_flags: Flags::new(0b0000_0000),
            c1_sweep: Flags::new(0b0000_0000),
            c1_len_duty: Flags::new(0b0000_0000),
            c1_vol_env: Flags::new(0b0000_0000),
            c1_period_low: Flags::new(0b0000_0000),
            c1_period_high_control: Flags::new(0b0000_0000),
            c2_len_duty: Flags::new(0b0000_0000),
            c2_vol_env: Flags::new(0b0000_0000),
            c2_period_low: Flags::new(0b0000_0000),
            c2_period_high_control: Flags::new(0b0000_0000),
            c3_dac_enable: 0x00,
            c3_len_timer: 0x00,
            c3_out_level: Flags::new(0b0000_0000),
            c3_period_low: Flags::new(0b0000_0000),
            c3_period_high_control: Flags::new(0b0000_0000),
            c4_len_timer: Flags::new(0b0000_0000),
            c4_vol_env: Flags::new(0b0000_0000),
            c4_freq_rand: Flags::new(0b0000_0000),
            c4_control: Flags::new(0b0000_0000),
            master_vol_vin_panning: Flags::new(0b0000_0000),
            sound_panning: Flags::new(0b0000_0000),
            audio_master_control: Flags::new(0b0000_0000),
            wave_pattern_ram: [0x00; 0x10],
        }
    }

    /// Directly read the byte at the given address.
    pub fn read_byte(&self, address: u16) -> (r: u8)
        requires
            is_audio_address(address),
        ensures
            r == self.read(address),
    {
        match address {
            0xFF10 => self.c1_sweep.read_byte(),
            0xFF11 => self.c1_len_duty.read_byte(),
            0xFF12 => self.c1_vol_env.read_byte(),
            0xFF13 => 0xFF,
            0xFF14 => self.c1_period_high_control.read_byte(),
            0xFF16 => self.c2_len_duty.read_byte(),
            0xFF17 => self.c2_vol_env.read_byte(),
            0xFF18 => 0xFF,
            0xFF19 => self.c2_period_high_control.read_byte(),
            0xFF1A => self.c3_dac_enable,
            0xFF1B => 0xFF,
            0xFF1C => self.c3_out_level.read_byte(),
            0xFF1D => 0xFF,
            0xFF1E => self.c3_period_high_control.read_byte(),
            0xFF20 => self.c4_len_timer.read_byte(),
            0xFF21 => self.c4_vol_env.read_byte(),
            0xFF22 => self.c4_freq_rand.read_byte(),
            0xFF23 => self.c4_control.read_byte(),
            0xFF24 => self.master_vol_vin_panning.read_byte(),
            0xFF25 => self.sound_panning.read_byte(),
            0xFF26 => self.audio_master_control.read_byte(),
            0xFF30..=0xFF3F => self.wave_pattern_ram[(address - 0xFF30) as usize],
            _ => 0xFF,
        }
    }

    /// Directly write to the byte at the given address.
    pub fn write_byte(&mut self, address: u16, value: u8)
        requires
            is_audio_address(address),
        ensures
            *final(self) == old(self).written(address, value),
    {
        match address {
            0xFF10 => self.c1_sweep.write_byte(value),
            0xFF11 => self.c1_len_duty.write_byte(value),
            0xFF12 => self.c1_vol_env.write_byte(value),
            0xFF13 => self.c1_period_low.write_byte(value),
            0xFF14 => self.c1_period_high_control.write_byte(value),
            0xFF16 => self.c2_len_duty.write_byte(value),
            0xFF17 => self.c2_vol_env.write_byte(value),
            0xFF18 => self.c2_period_low.write_byte(value),
            0xFF19 => self.c2_period_high_control.write_byte(value),
            0xFF1A => self.c3_dac_enable = value,
            0xFF1B => self.c3_len_timer = value,
            0xFF1C => self.c3_out_level.write_byte(value),
            0xFF1D => self.c3_period_low.write_byte(value),
            0xFF1E => self.c3_period_high_control.write_byte(value),
            0xFF20 => self.c4_len_timer.write_byte(value),
            0xFF21 => self.c4_vol_env.write_byte(value),
            0xFF22 => self.c4_freq_rand.write_byte(value),
            0xFF23 => self.c4_control.write_byte(value),
            0xFF24 => self.master_vol_vin_panning.write_byte(value),
            0xFF25 => self.sound_panning.write_byte(value),
            0xFF26 => self.audio_master_control.write_byte(value),
            0xFF30..=0xFF3F => {
                self.wave_pattern_ram[(address - 0xFF30) as usize] = value;
                assert(self.wave_pattern_ram =~= vstd::array::spec_array_update(
                    old(self).wave_pattern_ram,
                    address - 0xFF30,
                    value,
                ));
            },
            _ => {},
        }
    }

    /// Perform one audio cycle. Sound generation is not emulated: nothing changes.
    pub fn cycle(&mut self, _t_cycles: u32)
        ensures
            *final(self) == *old(self),
    {
    }
}

impl Default for Audio {
    fn default() -> (r: Self)
        ensures
            r == Audio::initial(),
    {
        Self::new()
    }
}

} // verus!
