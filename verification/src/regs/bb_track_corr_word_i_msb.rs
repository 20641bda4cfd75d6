use vstd::prelude::*;

verus! {

/// RX1/RX2 BB DC Offset Tracking correction word I<14:8>
pub fn rx1rx2_bb_dc_offset_tracking_correction_word_i(x: u8) -> (r: u8)
    ensures
        r == x % 128,
{
    proof {
        vstd::bits::lemma_u8_low_bits_mask_is_mod(x, 7);
        vstd::arithmetic::power2::lemma2_to64();
    }
    x & 0x7F
}

} // verus!
