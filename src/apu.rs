//! The register-visible state of the sound unit's two pulse channels. No
//! sound is produced.

use vstd::prelude::*;

verus! {

#[derive(Clone, Copy, Debug, PartialEq, Eq, Structural)]
pub enum SoundTrend {
    Increasing,
    Decreasing,
}

#[derive(Clone, Copy, Debug, PartialEq, Eq, Structural)]
pub struct Channel1 {
    pub sweep_time: u8,
    pub sweep_trend: SoundTrend,
    pub sweep_shift: u8,
    pub wave_pattern_duty: u8,
    pub length_counter: u8,
    pub initial_volume_envelope: u8,
    pub envelope_direction: SoundTrend,
    pub envelope_sweep: u8,
    pub frequency: u16,
    pub counter_enabled: bool,
}

#[derive(Clone, Copy, Debug, PartialEq, Eq, Structural)]
pub struct Channel2 {
    pub wave_pattern_duty: u8,
    pub length_counter: u8,
    pub initial_volume_envelope: u8,
    pub envelope_direction: SoundTrend,
    pub envelope_sweep: u8,
    pub frequency: u16,
    pub counter_enabled: bool,
}

#[derive(Clone, Copy, Debug, PartialEq, Eq, Structural)]
pub struct Apu {
    pub channel1: Channel1,
    pub channel2: Channel2,
}

} // verus!
