//! Integer side of the fast power-of-two used for pitch modulation: the
//! exponent field of a single-precision float equal to `2^i`.

use vstd::prelude::*;

verus! {

/// The biased exponent `i + 127`, kept within `0..=255`.
pub open spec fn biased_exponent(i: int) -> int {
    if i + 127 < 0 {
        0
    } else if i + 127 > 255 {
        255
    } else {
        i + 127
    }
}

/// The bits of a single-precision float whose exponent field is the biased
/// exponent of `i` and whose sign and fraction are zero: the float `2^i`
/// for `-126 <= i <= 127`, zero below, infinity above.
pub fn exp2_bits(i: i32) -> (bits: u32)
    requires
        i <= i32::MAX - 127,
    ensures
        bits == biased_exponent(i as int) * 0x80_0000,
{
    let biased = i + 127;
    let clamped: u32 = if biased < 0 {
        0
    } else if biased > 255 {
        255
    } else {
        biased as u32
    };
    assert(clamped << 23 == clamped * 0x80_0000) by (bit_vector)
        requires
            clamped <= 255,
    ;
    clamped << 23
}

} // verus!
