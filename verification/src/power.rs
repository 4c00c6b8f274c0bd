//! Powers of two in 32 bits.

use vstd::prelude::*;

verus! {

/// Two to the power `n`, for an exponent that a `u32` can hold.
pub fn pow2(n: u32) -> (r: u32)
    requires
        n < 32,
    ensures
        r == vstd::arithmetic::power2::pow2(n as nat),
{
    proof {
        vstd::bits::lemma_u32_pow2_no_overflow(n as nat);
        vstd::bits::lemma_u32_shl_is_mul(1u32, n);
    }
    1u32 << n
}

} // verus!
