use vstd::prelude::*;

verus! {

/// Number SDM Dither Bits<3:0>
pub fn number_sdm_dither_bits(x: u8) -> (r: u8)
    ensures
        r == (x % 16) * 16,
{
    proof {
        crate::regs::lemma_u8_field(x, 4, 4);
        vstd::arithmetic::power2::lemma2_to64();
    }
    (x & 0xF) << 4u8
}

/// Forced CP Cal Word<3:0>
pub fn forced_cp_cal_word(x: u8) -> (r: u8)
    ensures
        r == x % 16,
{
    proof {
        vstd::bits::lemma_u8_low_bits_mask_is_mod(x, 4);
        vstd::arithmetic::power2::lemma2_to64();
    }
    x & 0xF
}

} // verus!
