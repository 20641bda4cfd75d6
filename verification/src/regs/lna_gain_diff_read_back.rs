use vstd::prelude::*;

verus! {

/// LNA Calib Table Gain Difference Word<5:0>
pub fn lna_calib_table_gain_difference_word(x: u8) -> (r: u8)
    ensures
        r == x % 64,
{
    proof {
        vstd::bits::lemma_u8_low_bits_mask_is_mod(x, 6);
        vstd::arithmetic::power2::lemma2_to64();
    }
    x & 0x3F
}

} // verus!
