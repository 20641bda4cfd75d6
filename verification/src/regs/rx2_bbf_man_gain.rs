use vstd::prelude::*;

verus! {

/// Rx2 BBF Force Gain
pub const RX2_BBF_FORCE_GAIN: u8 = 1 << 5;

/// Rx2 BBF BQ Gain<1:0>
pub fn rx2_bbf_bq_gain(x: u8) -> (r: u8)
    ensures
        r == (x % 4) * 8,
{
    proof {
        crate::regs::lemma_u8_field(x, 2, 3);
        vstd::arithmetic::power2::lemma2_to64();
    }
    (x & 0x3) << 3u8
}

/// Rx2 BBF Pole Gain<2:0>
pub fn rx2_bbf_pole_gain(x: u8) -> (r: u8)
    ensures
        r == x % 8,
{
    proof {
        vstd::bits::lemma_u8_low_bits_mask_is_mod(x, 3);
        vstd::arithmetic::power2::lemma2_to64();
    }
    x & 0x7
}

} // verus!
