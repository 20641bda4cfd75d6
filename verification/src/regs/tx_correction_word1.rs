use vstd::prelude::*;

verus! {

/// Update Freq Word
pub const UPDATE_FREQ_WORD: u8 = 1 << 7;

/// Frequency Correction Word<6:0>
pub fn freq_correction_word_lsb(x: u8) -> (r: u8)
    ensures
        r == x % 128,
{
    proof {
        vstd::bits::lemma_u8_low_bits_mask_is_mod(x, 7);
        vstd::arithmetic::power2::lemma2_to64();
    }
    x & 0x7F
}

} // verus!
