use vstd::prelude::*;

verus! {

/// Force Rx2 LNA Gain
pub const FORCE_RX2_LNA_GAIN: u8 = 1 << 7;

/// Rx2 LNA Bypass
pub const RX2_LNA_BYPASS: u8 = 1 << 6;

/// Force Rx1 LNA Gain
pub const FORCE_RX1_LNA_GAIN: u8 = 1 << 3;

/// Rx1 LNA Bypass
pub const RX1_LNA_BYPASS: u8 = 1 << 2;

/// Rx2 LNA Gain<1:0>
pub fn rx2_lna_gain(x: u8) -> (r: u8)
    ensures
        r == (x % 4) * 16,
{
    proof {
        crate::regs::lemma_u8_field(x, 2, 4);
        vstd::arithmetic::power2::lemma2_to64();
    }
    (x & 0x3) << 4u8
}

/// Rx1 LNA Gain<1:0>
pub fn rx1_lna_gain(x: u8) -> (r: u8)
    ensures
        r == x % 4,
{
    proof {
        vstd::bits::lemma_u8_low_bits_mask_is_mod(x, 2);
        vstd::arithmetic::power2::lemma2_to64();
    }
    x & 0x3
}

} // verus!
