//! Arithmetic facts about positions taken round a circular range.

use vstd::prelude::*;

verus! {

/// Wrapping a position that is at most one buffer length out of range.
pub proof fn lemma_wrap(x: int, n: int)
    requires
        n > 0,
        -n <= x < 2 * n,
    ensures
        x % n == if x < 0 {
            x + n
        } else if x < n {
            x
        } else {
            x - n
        },
{
    if x < 0 {
        vstd::arithmetic::div_mod::lemma_fundamental_div_mod_converse(x, n, -1, x + n);
    } else if x < n {
        vstd::arithmetic::div_mod::lemma_fundamental_div_mod_converse(x, n, 0, x);
    } else {
        vstd::arithmetic::div_mod::lemma_fundamental_div_mod_converse(x, n, 1, x - n);
    }
}

} // verus!
