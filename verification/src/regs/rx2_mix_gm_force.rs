use vstd::prelude::*;

verus! {

/// Force Rx2 Mix Gm
pub const FORCE_RX2_MIX_GM: u8 = 1 << 6;

/// Rx2 Mix Gm Gain<5:0>
pub fn rx2_mix_gm_gain(x: u8) -> (r: u8)
    ensures
        r == x % 64,
{
    proof {
        vstd::bits::lemma_u8_low_bits_mask_is_mod(x, 6);
        vstd::arithmetic::power2::lemma2_to64();
    }
    x & 0x3F
}

} // verus!
