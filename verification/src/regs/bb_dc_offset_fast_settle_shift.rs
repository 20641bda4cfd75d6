use vstd::prelude::*;

verus! {

/// Read Back  CH Sel
pub const READ_BACK_CH_SEL: u8 = 1 << 7;

/// Update Tracking Word
pub const UPDATE_TRACKING_WORD: u8 = 1 << 6;

/// Force Rx Null
pub const FORCE_RX_NULL: u8 = 1 << 5;

/// BB DC Tracking Fast Settle M Shift<4:0>
pub fn bb_dc_tracking_fast_settle_m_shift(x: u8) -> (r: u8)
    ensures
        r == x % 32,
{
    proof {
        vstd::bits::lemma_u8_low_bits_mask_is_mod(x, 5);
        vstd::arithmetic::power2::lemma2_to64();
    }
    x & 0x1F
}

} // verus!
