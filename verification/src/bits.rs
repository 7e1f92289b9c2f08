//! Single-bit masks.

use vstd::prelude::*;
use vstd::arithmetic::power2::pow2;

verus! {

/// The mask with bit `nr` set and no other.
pub fn bit(nr: u32) -> (mask: u32)
    requires
        nr < 32,
    ensures
        mask == 1u32 << nr,
        mask == pow2(nr as nat),
{
    proof {
        vstd::arithmetic::power2::lemma_pow2_strictly_increases(nr as nat, 32);
        vstd::arithmetic::power2::lemma2_to64();
        vstd::bits::lemma_u32_shl_is_mul(1, nr);
    }
    1u32 << nr
}

/// A bit is set in a word after it has been or-ed in, and no other bit has changed.
pub proof fn law_set_bit(word: u32, nr: u32, other: u32)
    requires
        nr < 32,
        other < 32,
    ensures
        (word | (1u32 << nr)) & (1u32 << nr) != 0,
        other != nr ==> (word | (1u32 << nr)) & (1u32 << other) == word & (1u32 << other),
{
    assert((word | (1u32 << nr)) & (1u32 << nr) != 0) by (bit_vector)
        requires
            nr < 32,
    ;
    assert(other != nr ==> (word | (1u32 << nr)) & (1u32 << other) == word & (1u32 << other))
        by (bit_vector)
        requires
            nr < 32,
            other < 32,
    ;
}

} // verus!
