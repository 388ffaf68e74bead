//! The linear congruential generator that drives per-voice imperfections,
//! the noise source and the output stage's noise floor.

use vstd::prelude::*;

verus! {

/// Modulus of 32-bit wrapping arithmetic.
pub open spec fn word() -> int {
    0x1_0000_0000
}

/// One step of the generator: `state * 1103515245 + 12345`, modulo 2^32.
pub open spec fn spec_lcg_next(state: u32) -> u32 {
    ((state * 1103515245int + 12345) % word()) as u32
}

/// The 15 output bits that a generator state carries: bits 16 to 30.
pub open spec fn spec_lcg_output(state: u32) -> u16 {
    ((state / 0x1_0000) % 0x8000) as u16
}

/// Advances the generator by one step.
pub fn lcg_next(state: u32) -> (next: u32)
    ensures
        next == spec_lcg_next(state),
{
    state.wrapping_mul(1103515245).wrapping_add(12345)
}

/// The 15-bit sample a state yields, in `0..32768`; divided by 32768 it is
/// a value in `[0, 1)`.
pub fn lcg_output(state: u32) -> (sample: u16)
    ensures
        sample == spec_lcg_output(state),
        sample < 0x8000,
{
    let s = (state >> 16) & 0x7FFF;
    assert(s == (state / 0x1_0000) % 0x8000 && s < 0x8000) by (bit_vector)
        requires
            s == (state >> 16) & 0x7FFF,
    ;
    s as u16
}

/// The 15 bits that a seed yields after one generator step: what a voice's
/// imperfection draws for each of its fixed offsets.
pub fn seeded_random_bits(seed: u32) -> (sample: u16)
    ensures
        sample == spec_lcg_output(spec_lcg_next(seed)),
        sample < 0x8000,
{
    lcg_output(lcg_next(seed))
}

/// The seed of a voice's imperfections: the voice index, truncated to 32
/// bits, times 2654435761, plus one, modulo 2^32.
pub fn imperfection_seed(voice_index: usize) -> (seed: u32)
    ensures
        seed == ((voice_index as u32) * 2654435761int + 1) % word(),
{
    (voice_index as u32).wrapping_mul(2654435761).wrapping_add(1)
}

} // verus!
