use vstd::prelude::*;

verus! {

/// Power Down Bandgap Ref
pub const POWER_DOWN_BANDGAP_REF: u8 = 1 << 7;

/// Master Bias Filter Bypass
pub const MASTER_BIAS_FILTER_BYPASS: u8 = 1 << 6;

/// Master Bias Ref Sel
pub const MASTER_BIAS_REF_SEL: u8 = 1 << 5;

/// Master Bias Trim<4:0>
pub fn master_bias_trim(x: u8) -> (r: u8)
    ensures
        r == x % 32,
{
    proof {
        vstd::bits::lemma_u8_low_bits_mask_is_mod(x, 5);
        vstd::arithmetic::power2::lemma2_to64();
    }
    x & 0x1F
}

} // verus!
