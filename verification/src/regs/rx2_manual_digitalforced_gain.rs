use vstd::prelude::*;

verus! {

/// Force Rx2 Digital Gain
pub const FORCE_RX2_DIGITAL_GAIN: u8 = 1 << 5;

/// Rx2 Manual/Forced Digital Gain<4:0>
pub fn rx2_manualforced_digital_gain(x: u8) -> (r: u8)
    ensures
        r == x % 32,
{
    proof {
        vstd::bits::lemma_u8_low_bits_mask_is_mod(x, 5);
        vstd::arithmetic::power2::lemma2_to64();
    }
    x & 0x1F
}

} // verus!
