//! Identifiers of the synthesizer's parameters, their raw numbers and their
//! display names.

use vstd::prelude::*;

verus! {

/// Number of parameters the synthesizer exposes.
pub const PARAM_COUNT: u32 = 36;

/// A parameter of the synthesizer. Each has a raw number, its position in
/// this list, counted from 0.
#[derive(Clone, Copy, PartialEq, Eq, Debug, Structural)]
pub enum ParameterId {
    Osc1Wave,
    Osc1Freq,
    Osc1Fine,
    Osc1PulseWidth,
    Osc1PitchEnvDepth,
    Osc2Wave,
    Osc2Coarse,
    Osc2Fine,
    Osc2PulseWidth,
    NoiseLevel,
    OscMix,
    FilterCutoff,
    FilterResonance,
    FilterEnvAmount,
    FilterKeyTracking,
    AmpAttack,
    AmpDecay,
    AmpSustain,
    AmpRelease,
    FilterAttack,
    FilterDecay,
    FilterSustain,
    FilterRelease,
    LfoRate,
    LfoWave,
    LfoDepth,
    LfoToOsc,
    LfoToFilter,
    LfoToPw,
    PolyModOsc2ToOsc1Freq,
    PolyModOsc2ToOsc1Pw,
    PolyModFilterEnvToFilter,
    Slop,
    UnisonVoices,
    UnisonDetune,
    MasterVolume,
}

/// The raw number of a parameter.
pub open spec fn param_index(p: ParameterId) -> u32 {
    match p {
        ParameterId::Osc1Wave => 0,
        ParameterId::Osc1Freq => 1,
        ParameterId::Osc1Fine => 2,
        ParameterId::Osc1PulseWidth => 3,
        ParameterId::Osc1PitchEnvDepth => 4,
        ParameterId::Osc2Wave => 5,
        ParameterId::Osc2Coarse => 6,
        ParameterId::Osc2Fine => 7,
        ParameterId::Osc2PulseWidth => 8,
        ParameterId::NoiseLevel => 9,
        ParameterId::OscMix => 10,
        ParameterId::FilterCutoff => 11,
        ParameterId::FilterResonance => 12,
        ParameterId::FilterEnvAmount => 13,
        ParameterId::FilterKeyTracking => 14,
        ParameterId::AmpAttack => 15,
        ParameterId::AmpDecay => 16,
        ParameterId::AmpSustain => 17,
        ParameterId::AmpRelease => 18,
        ParameterId::FilterAttack => 19,
        ParameterId::FilterDecay => 20,
        ParameterId::FilterSustain => 21,
        ParameterId::FilterRelease => 22,
        ParameterId::LfoRate => 23,
        ParameterId::LfoWave => 24,
        ParameterId::LfoDepth => 25,
        ParameterId::LfoToOsc => 26,
        ParameterId::LfoToFilter => 27,
        ParameterId::LfoToPw => 28,
        ParameterId::PolyModOsc2ToOsc1Freq => 29,
        ParameterId::PolyModOsc2ToOsc1Pw => 30,
        ParameterId::PolyModFilterEnvToFilter => 31,
        ParameterId::Slop => 32,
        ParameterId::UnisonVoices => 33,
        ParameterId::UnisonDetune => 34,
        ParameterId::MasterVolume => 35,
    }
}

/// The parameter a raw number stands for; every number past the last one
/// stands for the master volume.
pub open spec fn param_from_index(id: u32) -> ParameterId {
    if id == 0 {
        ParameterId::Osc1Wave
    } else if id == 1 {
        ParameterId::Osc1Freq
    } else if id == 2 {
        ParameterId::Osc1Fine
    } else if id == 3 {
        ParameterId::Osc1PulseWidth
    } else if id == 4 {
        ParameterId::Osc1PitchEnvDepth
    } else if id == 5 {
        ParameterId::Osc2Wave
    } else if id == 6 {
        ParameterId::Osc2Coarse
    } else if id == 7 {
        ParameterId::Osc2Fine
    } else if id == 8 {
        ParameterId::Osc2PulseWidth
    } else if id == 9 {
        ParameterId::NoiseLevel
    } else if id == 10 {
        ParameterId::OscMix
    } else if id == 11 {
        ParameterId::FilterCutoff
    } else if id == 12 {
        ParameterId::FilterResonance
    } else if id == 13 {
        ParameterId::FilterEnvAmount
    } else if id == 14 {
        ParameterId::FilterKeyTracking
    } else if id == 15 {
        ParameterId::AmpAttack
    } else if id == 16 {
        ParameterId::AmpDecay
    } else if id == 17 {
        ParameterId::AmpSustain
    } else if id == 18 {
        ParameterId::AmpRelease
    } else if id == 19 {
        ParameterId::FilterAttack
    } else if id == 20 {
        ParameterId::FilterDecay
    } else if id == 21 {
        ParameterId::FilterSustain
    } else if id == 22 {
        ParameterId::FilterRelease
    } else if id == 23 {
        ParameterId::LfoRate
    } else if id == 24 {
        ParameterId::LfoWave
    } else if id == 25 {
        ParameterId::LfoDepth
    } else if id == 26 {
        ParameterId::LfoToOsc
    } else if id == 27 {
        ParameterId::LfoToFilter
    } else if id == 28 {
        ParameterId::LfoToPw
    } else if id == 29 {
        ParameterId::PolyModOsc2ToOsc1Freq
    } else if id == 30 {
        ParameterId::PolyModOsc2ToOsc1Pw
    } else if id == 31 {
        ParameterId::PolyModFilterEnvToFilter
    } else if id == 32 {
        ParameterId::Slop
    } else if id == 33 {
        ParameterId::UnisonVoices
    } else if id == 34 {
        ParameterId::UnisonDetune
    } else {
        ParameterId::MasterVolume
    }
}

/// The display name of a parameter.
pub open spec fn param_label(p: ParameterId) -> Seq<char> {
    match p {
        ParameterId::Osc1Wave => "Osc1 Wave"@,
        ParameterId::Osc1Freq => "Osc1 Frequency"@,
        ParameterId::Osc1Fine => "Osc1 Fine Tune"@,
        ParameterId::Osc1PulseWidth => "Osc1 Pulse Width"@,
        ParameterId::Osc1PitchEnvDepth => "Osc1 Pitch Env"@,
        ParameterId::Osc2Wave => "Osc2 Wave"@,
        ParameterId::Osc2Coarse => "Osc2 Coarse"@,
        ParameterId::Osc2Fine => "Osc2 Fine Tune"@,
        ParameterId::Osc2PulseWidth => "Osc2 Pulse Width"@,
        ParameterId::NoiseLevel => "Noise Level"@,
        ParameterId::OscMix => "Osc Mix"@,
        ParameterId::FilterCutoff => "Filter Cutoff"@,
        ParameterId::FilterResonance => "Filter Resonance"@,
        ParameterId::FilterEnvAmount => "Filter Env Amount"@,
        ParameterId::FilterKeyTracking => "Filter Key Track"@,
        ParameterId::AmpAttack => "Amp Attack"@,
        ParameterId::AmpDecay => "Amp Decay"@,
        ParameterId::AmpSustain => "Amp Sustain"@,
        ParameterId::AmpRelease => "Amp Release"@,
        ParameterId::FilterAttack => "Filter Attack"@,
        ParameterId::FilterDecay => "Filter Decay"@,
        ParameterId::FilterSustain => "Filter Sustain"@,
        ParameterId::FilterRelease => "Filter Release"@,
        ParameterId::LfoRate => "LFO Rate"@,
        ParameterId::LfoWave => "LFO Wave"@,
        ParameterId::LfoDepth => "LFO Depth"@,
        ParameterId::LfoToOsc => "LFO to Osc"@,
        ParameterId::LfoToFilter => "LFO to Filter"@,
        ParameterId::LfoToPw => "LFO to PW"@,
        ParameterId::PolyModOsc2ToOsc1Freq => "PolyMod Osc2>Freq"@,
        ParameterId::PolyModOsc2ToOsc1Pw => "PolyMod Osc2>PW"@,
        ParameterId::PolyModFilterEnvToFilter => "PolyMod Env>Filter"@,
        ParameterId::Slop => "Slop"@,
        ParameterId::UnisonVoices => "Unison Voices"@,
        ParameterId::UnisonDetune => "Unison Detune"@,
        ParameterId::MasterVolume => "Master Volume"@,
    }
}

impl ParameterId {
    /// The parameter that a raw number names; numbers past the last
    /// parameter fall back to the master volume.
    pub fn from_raw(id: u32) -> (p: ParameterId)
        ensures
            p == param_from_index(id),
            id < PARAM_COUNT ==> param_index(p) == id,
            id >= PARAM_COUNT ==> p == ParameterId::MasterVolume,
    {
        match id {
            0 => ParameterId::Osc1Wave,
            1 => ParameterId::Osc1Freq,
            2 => ParameterId::Osc1Fine,
            3 => ParameterId::Osc1PulseWidth,
            4 => ParameterId::Osc1PitchEnvDepth,
            5 => ParameterId::Osc2Wave,
            6 => ParameterId::Osc2Coarse,
            7 => ParameterId::Osc2Fine,
            8 => ParameterId::Osc2PulseWidth,
            9 => ParameterId::NoiseLevel,
            10 => ParameterId::OscMix,
            11 => ParameterId::FilterCutoff,
            12 => ParameterId::FilterResonance,
            13 => ParameterId::FilterEnvAmount,
            14 => ParameterId::FilterKeyTracking,
            15 => ParameterId::AmpAttack,
            16 => ParameterId::AmpDecay,
            17 => ParameterId::AmpSustain,
            18 => ParameterId::AmpRelease,
            19 => ParameterId::FilterAttack,
            20 => ParameterId::FilterDecay,
            21 => ParameterId::FilterSustain,
            22 => ParameterId::FilterRelease,
            23 => ParameterId::LfoRate,
            24 => ParameterId::LfoWave,
            25 => ParameterId::LfoDepth,
            26 => ParameterId::LfoToOsc,
            27 => ParameterId::LfoToFilter,
            28 => ParameterId::LfoToPw,
            29 => ParameterId::PolyModOsc2ToOsc1Freq,
            30 => ParameterId::PolyModOsc2ToOsc1Pw,
            31 => ParameterId::PolyModFilterEnvToFilter,
            32 => ParameterId::Slop,
            33 => ParameterId::UnisonVoices,
            34 => ParameterId::UnisonDetune,
            35 => ParameterId::MasterVolume,
            _ => ParameterId::MasterVolume,
        }
    }

    /// The raw number of this parameter.
    pub fn raw(&self) -> (id: u32)
        ensures
            id == param_index(*self),
            id < PARAM_COUNT,
    {
        match self {
            ParameterId::Osc1Wave => 0,
            ParameterId::Osc1Freq => 1,
            ParameterId::Osc1Fine => 2,
            ParameterId::Osc1PulseWidth => 3,
            ParameterId::Osc1PitchEnvDepth => 4,
            ParameterId::Osc2Wave => 5,
            ParameterId::Osc2Coarse => 6,
            ParameterId::Osc2Fine => 7,
            ParameterId::Osc2PulseWidth => 8,
            ParameterId::NoiseLevel => 9,
            ParameterId::OscMix => 10,
            ParameterId::FilterCutoff => 11,
            ParameterId::FilterResonance => 12,
            ParameterId::FilterEnvAmount => 13,
            ParameterId::FilterKeyTracking => 14,
            ParameterId::AmpAttack => 15,
            ParameterId::AmpDecay => 16,
            ParameterId::AmpSustain => 17,
            ParameterId::AmpRelease => 18,
            ParameterId::FilterAttack => 19,
            ParameterId::FilterDecay => 20,
            ParameterId::FilterSustain => 21,
            ParameterId::FilterRelease => 22,
            ParameterId::LfoRate => 23,
            ParameterId::LfoWave => 24,
            ParameterId::LfoDepth => 25,
            ParameterId::LfoToOsc => 26,
            ParameterId::LfoToFilter => 27,
            ParameterId::LfoToPw => 28,
            ParameterId::PolyModOsc2ToOsc1Freq => 29,
            ParameterId::PolyModOsc2ToOsc1Pw => 30,
            ParameterId::PolyModFilterEnvToFilter => 31,
            ParameterId::Slop => 32,
            ParameterId::UnisonVoices => 33,
            ParameterId::UnisonDetune => 34,
            ParameterId::MasterVolume => 35,
        }
    }
}

/// Number of parameters, as the web front end asks for it.
pub fn get_param_count() -> (n: u32)
    ensures
        n == PARAM_COUNT,
{
    PARAM_COUNT
}

/// The display name of the parameter that a raw number names (numbers past
/// the last parameter name the master volume).
pub fn get_param_name(param_id: u32) -> (name: String)
    ensures
        name@ == param_label(param_from_index(param_id)),
{
    let param = ParameterId::from_raw(param_id);
    let label: &str = match param {
        ParameterId::Osc1Wave => "Osc1 Wave",
        ParameterId::Osc1Freq => "Osc1 Frequency",
        ParameterId::Osc1Fine => "Osc1 Fine Tune",
        ParameterId::Osc1PulseWidth => "Osc1 Pulse Width",
        ParameterId::Osc1PitchEnvDepth => "Osc1 Pitch Env",
        ParameterId::Osc2Wave => "Osc2 Wave",
        ParameterId::Osc2Coarse => "Osc2 Coarse",
        ParameterId::Osc2Fine => "Osc2 Fine Tune",
        ParameterId::Osc2PulseWidth => "Osc2 Pulse Width",
        ParameterId::NoiseLevel => "Noise Level",
        ParameterId::OscMix => "Osc Mix",
        ParameterId::FilterCutoff => "Filter Cutoff",
        ParameterId::FilterResonance => "Filter Resonance",
        ParameterId::FilterEnvAmount => "Filter Env Amount",
        ParameterId::FilterKeyTracking => "Filter Key Track",
        ParameterId::AmpAttack => "Amp Attack",
        ParameterId::AmpDecay => "Amp Decay",
        ParameterId::AmpSustain => "Amp Sustain",
        ParameterId::AmpRelease => "Amp Release",
        ParameterId::FilterAttack => "Filter Attack",
        ParameterId::FilterDecay => "Filter Decay",
        ParameterId::FilterSustain => "Filter Sustain",
        ParameterId::FilterRelease => "Filter Release",
        ParameterId::LfoRate => "LFO Rate",
        ParameterId::LfoWave => "LFO Wave",
        ParameterId::LfoDepth => "LFO Depth",
        ParameterId::LfoToOsc => "LFO to Osc",
        ParameterId::LfoToFilter => "LFO to Filter",
        ParameterId::LfoToPw => "LFO to PW",
        ParameterId::PolyModOsc2ToOsc1Freq => "PolyMod Osc2>Freq",
        ParameterId::PolyModOsc2ToOsc1Pw => "PolyMod Osc2>PW",
        ParameterId::PolyModFilterEnvToFilter => "PolyMod Env>Filter",
        ParameterId::Slop => "Slop",
        ParameterId::UnisonVoices => "Unison Voices",
        ParameterId::UnisonDetune => "Unison Detune",
        ParameterId::MasterVolume => "Master Volume",
    };
    label.to_string()
}

/// Reading a parameter's raw number back gives the parameter again.
pub proof fn lemma_raw_round_trip(p: ParameterId)
    ensures
        param_from_index(param_index(p)) == p,
{
}

/// Every raw number below the parameter count names the parameter whose
/// raw number it is.
pub proof fn lemma_index_round_trip(id: u32)
    requires
        id < PARAM_COUNT,
    ensures
        param_index(param_from_index(id)) == id,
{
}

/// Distinct parameters have distinct raw numbers.
pub proof fn lemma_index_distinct(p: ParameterId, q: ParameterId)
    requires
        p != q,
    ensures
        param_index(p) != param_index(q),
{
    lemma_raw_round_trip(p);
    lemma_raw_round_trip(q);
}

} // verus!
