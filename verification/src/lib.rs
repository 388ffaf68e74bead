//! Premonition: the discrete control logic of a Prophet-style polyphonic
//! synthesizer, with its behaviour stated and proved.

pub mod rng;
pub mod params;
pub mod midi;
pub mod voices;
pub mod engine;
pub mod delay_line;
pub mod console;
pub mod viz;
pub mod wrap;
pub mod waveforms;
pub mod envelope;
pub mod pitch;
