use vstd::prelude::*;

verus! {

/// DAC Test Enable
pub const DAC_TEST_ENABLE: u8 = 1 << 7;

/// DAC test Word <22:16>
pub fn dac_test_word(x: u8) -> (r: u8)
    ensures
        r == x % 128,
{
    proof {
        vstd::bits::lemma_u8_low_bits_mask_is_mod(x, 7);
        vstd::arithmetic::power2::lemma2_to64();
    }
    x & 0x7F
}

} // verus!
