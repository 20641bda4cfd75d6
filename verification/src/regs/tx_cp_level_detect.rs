use vstd::prelude::*;

verus! {

/// CP Level Detect Power Down
pub const CP_LEVEL_DETECT_POWER_DOWN: u8 = 1 << 6;

/// CP Level Detect Threshold Low<2:0>
pub fn cp_level_detect_thresh_low(x: u8) -> (r: u8)
    ensures
        r == (x % 8) * 8,
{
    proof {
        crate::regs::lemma_u8_field(x, 3, 3);
        vstd::arithmetic::power2::lemma2_to64();
    }
    (x & 0x7) << 3u8
}

/// CP Level Detect Threshold High<2:0>
pub fn cp_level_detect_thresh_high(x: u8) -> (r: u8)
    ensures
        r == x % 8,
{
    proof {
        vstd::bits::lemma_u8_low_bits_mask_is_mod(x, 3);
        vstd::arithmetic::power2::lemma2_to64();
    }
    x & 0x7
}

} // verus!
