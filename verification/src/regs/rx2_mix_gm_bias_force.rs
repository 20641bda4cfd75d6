use vstd::prelude::*;

verus! {

/// Rx2 Mix Gm Bias<4:0>
pub fn rx2_mix_gm_bias(x: u8) -> (r: u8)
    ensures
        r == x % 32,
{
    proof {
        vstd::bits::lemma_u8_low_bits_mask_is_mod(x, 5);
        vstd::arithmetic::power2::lemma2_to64();
    }
    x & 0x1F
}

} // verus!
