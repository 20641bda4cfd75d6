use vstd::prelude::*;

verus! {

/// Ext LNA High Gain<5:0>
pub fn ext_lna_high_gain(x: u8) -> (r: u8)
    ensures
        r == x % 64,
{
    proof {
        vstd::bits::lemma_u8_low_bits_mask_is_mod(x, 6);
        vstd::arithmetic::power2::lemma2_to64();
    }
    x & 0x3F
}

} // verus!
