use vstd::prelude::*;

verus! {

/// VCO Bypass Bias DAC R
pub const VCO_BYPASS_BIAS_DAC_R: u8 = 1 << 7;

/// VCO Cop Bypass Bias R
pub const VCO_COMP_BYPASS_BIAS_R: u8 = 1 << 4;

/// Bypass Prescale R
pub const BYPASS_PRESCALE_R: u8 = 1 << 3;

/// Last ALC Enable
pub const LAST_ALC_ENABLE: u8 = 1 << 2;

/// Prescale Bias <1:0>
pub fn prescale_bias(x: u8) -> (r: u8)
    ensures
        r == x % 4,
{
    proof {
        vstd::bits::lemma_u8_low_bits_mask_is_mod(x, 2);
        vstd::arithmetic::power2::lemma2_to64();
    }
    x & 0x3
}

} // verus!
