use vstd::prelude::*;

verus! {

/// AuxADC Word LSB<3:0>
pub fn auxadc_word_lsb(x: u8) -> (r: u8)
    ensures
        r == x % 16,
{
    proof {
        vstd::bits::lemma_u8_low_bits_mask_is_mod(x, 4);
        vstd::arithmetic::power2::lemma2_to64();
    }
    x & 0xF
}

} // verus!
