use vstd::prelude::*;

verus! {

/// VCO LDO Filter Bypass
pub const VCO_LDO_FILTER_BYPASS: u8 = 1 << 7;

/// VCO LDO Ref Sel
pub const VCO_LDO_REF_SEL: u8 = 1 << 6;

/// Bandgap Ref Reset
pub const BANDGAP_REF_RESET: u8 = 1 << 5;

/// Bandgap Temp Trim<4:0>
pub fn bandgap_temp_trim(x: u8) -> (r: u8)
    ensures
        r == x % 32,
{
    proof {
        vstd::bits::lemma_u8_low_bits_mask_is_mod(x, 5);
        vstd::arithmetic::power2::lemma2_to64();
    }
    x & 0x1F
}

} // verus!
