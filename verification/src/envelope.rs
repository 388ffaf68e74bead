//! The stages of an ADSR envelope and how one moves through them.

use vstd::prelude::*;

verus! {

/// Stage of an envelope.
#[derive(Clone, Copy, PartialEq, Eq, Debug, Structural)]
pub enum EnvelopeStage {
    Idle,
    Attack,
    Decay,
    Sustain,
    Release,
}

/// The stage after one step of the envelope, where `target_reached` says
/// whether the level reached the stage's target in that step (full scale
/// in attack, the sustain level in decay, zero in release): attack moves on
/// to decay, decay to sustain, release to idle; idle and sustain stay.
pub open spec fn spec_next_stage(stage: EnvelopeStage, target_reached: bool) -> EnvelopeStage {
    match stage {
        EnvelopeStage::Attack => if target_reached {
            EnvelopeStage::Decay
        } else {
            EnvelopeStage::Attack
        },
        EnvelopeStage::Decay => if target_reached {
            EnvelopeStage::Sustain
        } else {
            EnvelopeStage::Decay
        },
        EnvelopeStage::Release => if target_reached {
            EnvelopeStage::Idle
        } else {
            EnvelopeStage::Release
        },
        _ => stage,
    }
}

/// The stage after one step of the envelope.
pub fn next_stage(stage: EnvelopeStage, target_reached: bool) -> (next: EnvelopeStage)
    ensures
        next == spec_next_stage(stage, target_reached),
{
    match stage {
        EnvelopeStage::Attack => if target_reached {
            EnvelopeStage::Decay
        } else {
            EnvelopeStage::Attack
        },
        EnvelopeStage::Decay => if target_reached {
            EnvelopeStage::Sustain
        } else {
            EnvelopeStage::Decay
        },
        EnvelopeStage::Release => if target_reached {
            EnvelopeStage::Idle
        } else {
            EnvelopeStage::Release
        },
        EnvelopeStage::Idle => EnvelopeStage::Idle,
        EnvelopeStage::Sustain => EnvelopeStage::Sustain,
    }
}

/// An envelope only moves forward: idle and sustain are where it rests,
/// and a triggered envelope whose targets are reached comes to rest at
/// sustain after two steps, a released one at idle after one.
pub proof fn lemma_stages_settle(stage: EnvelopeStage)
    ensures
        spec_next_stage(EnvelopeStage::Idle, true) == EnvelopeStage::Idle,
        spec_next_stage(EnvelopeStage::Sustain, true) == EnvelopeStage::Sustain,
        spec_next_stage(spec_next_stage(EnvelopeStage::Attack, true), true) == EnvelopeStage::Sustain,
        spec_next_stage(EnvelopeStage::Release, true) == EnvelopeStage::Idle,
        spec_next_stage(stage, false) == stage,
{
}

} // verus!
