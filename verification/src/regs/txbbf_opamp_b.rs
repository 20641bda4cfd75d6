use vstd::prelude::*;

verus! {

/// OpAmpB Output Bias<1:0>
pub fn opampb_output_bias(x: u8) -> (r: u8)
    ensures
        r == (x % 4) * 32,
{
    proof {
        crate::regs::lemma_u8_field(x, 2, 5);
        vstd::arithmetic::power2::lemma2_to64();
    }
    (x & 0x3) << 5u8
}

/// OpAmpB RZ<1:0>
pub fn opampb_rz(x: u8) -> (r: u8)
    ensures
        r == (x % 4) * 8,
{
    proof {
        crate::regs::lemma_u8_field(x, 2, 3);
        vstd::arithmetic::power2::lemma2_to64();
    }
    (x & 0x3) << 3u8
}

/// OpAmp B CC<2:0>
pub fn opamp_b_cc(x: u8) -> (r: u8)
    ensures
        r == x % 8,
{
    proof {
        vstd::bits::lemma_u8_low_bits_mask_is_mod(x, 3);
        vstd::arithmetic::power2::lemma2_to64();
    }
    x & 0x7
}

} // verus!
