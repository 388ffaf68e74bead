//! The waveform selectors of the oscillators and the LFO, as stored in the
//! parameter set (one byte each).

use vstd::prelude::*;

verus! {

/// Oscillator waveform.
#[derive(Clone, Copy, PartialEq, Eq, Debug, Structural)]
pub enum Waveform {
    Saw,
    Pulse,
    Triangle,
}

impl Default for Waveform {
    fn default() -> (w: Waveform)
        ensures
            w == Waveform::Saw,
    {
        Waveform::Saw
    }
}

/// The oscillator waveform a stored byte selects: 0 saw, 1 pulse,
/// 2 triangle, anything else saw.
pub open spec fn spec_u8_to_waveform(value: u8) -> Waveform {
    if value == 1 {
        Waveform::Pulse
    } else if value == 2 {
        Waveform::Triangle
    } else {
        Waveform::Saw
    }
}

/// The oscillator waveform a stored byte selects.
pub fn u8_to_waveform(value: u8) -> (w: Waveform)
    ensures
        w == spec_u8_to_waveform(value),
{
    match value {
        0 => Waveform::Saw,
        1 => Waveform::Pulse,
        2 => Waveform::Triangle,
        _ => Waveform::Saw,
    }
}

/// LFO waveform.
#[derive(Clone, Copy, PartialEq, Eq, Debug, Structural)]
pub enum LfoWaveform {
    Triangle,
    Saw,
    Square,
    /// Sample and hold.
    Random,
}

impl Default for LfoWaveform {
    fn default() -> (w: LfoWaveform)
        ensures
            w == LfoWaveform::Triangle,
    {
        LfoWaveform::Triangle
    }
}

/// The LFO waveform a stored byte selects: 0 triangle, 1 saw, 2 square,
/// anything else sample and hold.
pub open spec fn spec_lfo_waveform(value: u8) -> LfoWaveform {
    if value == 0 {
        LfoWaveform::Triangle
    } else if value == 1 {
        LfoWaveform::Saw
    } else if value == 2 {
        LfoWaveform::Square
    } else {
        LfoWaveform::Random
    }
}

/// The LFO waveform a stored byte selects.
pub fn lfo_waveform_from_u8(value: u8) -> (w: LfoWaveform)
    ensures
        w == spec_lfo_waveform(value),
{
    match value {
        0 => LfoWaveform::Triangle,
        1 => LfoWaveform::Saw,
        2 => LfoWaveform::Square,
        _ => LfoWaveform::Random,
    }
}

} // verus!
