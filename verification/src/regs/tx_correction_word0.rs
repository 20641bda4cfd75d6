use vstd::prelude::*;

verus! {

/// Update Freq Word
pub const UPDATE_FREQ_WORD: u8 = 1 << 7;

/// Read Effective Tuning Word
pub const READ_EFFECTIVE_TUNING_WORD: u8 = 1 << 5;

/// Frequency Correction Word<11:7>
pub fn freq_correction_word_msb(x: u8) -> (r: u8)
    ensures
        r == x % 32,
{
    proof {
        vstd::bits::lemma_u8_low_bits_mask_is_mod(x, 5);
        vstd::arithmetic::power2::lemma2_to64();
    }
    x & 0x1F
}

} // verus!
