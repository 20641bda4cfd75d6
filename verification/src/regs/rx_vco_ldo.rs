use vstd::prelude::*;

verus! {

/// VCO LDO Bypass
pub const VCO_LDO_BYPASS: u8 = 1 << 7;

/// VCO LDO Inrush<1:0>
pub fn vco_ldo_inrush(x: u8) -> (r: u8)
    ensures
        r == (x % 4) * 32,
{
    proof {
        crate::regs::lemma_u8_field(x, 2, 5);
        vstd::arithmetic::power2::lemma2_to64();
    }
    (x & 0x3) << 5u8
}

/// VCO LDO Sel<2:0>
pub fn vco_ldo_sel(x: u8) -> (r: u8)
    ensures
        r == (x % 8) * 4,
{
    proof {
        crate::regs::lemma_u8_field(x, 3, 2);
        vstd::arithmetic::power2::lemma2_to64();
    }
    (x & 0x7) << 2u8
}

/// VCO LDO Vdrop Sel<1:0>
pub fn vco_ldo_vdrop_sel(x: u8) -> (r: u8)
    ensures
        r == x % 4,
{
    proof {
        vstd::bits::lemma_u8_low_bits_mask_is_mod(x, 2);
        vstd::arithmetic::power2::lemma2_to64();
    }
    x & 0x3
}

} // verus!
