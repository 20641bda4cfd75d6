use vstd::prelude::*;

verus! {

/// Force Rx1 Digital Gain
pub const FORCE_RX1_DIGITAL_GAIN: u8 = 1 << 5;

/// Rx1 Manual/Forced Digital Gain<4:0>
pub fn rx1_manualforced_digital_gain(x: u8) -> (r: u8)
    ensures
        r == x % 32,
{
    proof {
        vstd::bits::lemma_u8_low_bits_mask_is_mod(x, 5);
        vstd::arithmetic::power2::lemma2_to64();
    }
    x & 0x1F
}

pub const RX_DIGITAL_IDX_MASK: u8 = 0x1F;

} // verus!
