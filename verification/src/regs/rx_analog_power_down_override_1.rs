use vstd::prelude::*;

verus! {

/// Rx Offset DAC CGin Power Down<1:0>
pub fn rx_offset_dac_cgin_power_down(x: u8) -> (r: u8)
    ensures
        r == (x % 4) * 64,
{
    proof {
        crate::regs::lemma_u8_field(x, 2, 6);
        vstd::arithmetic::power2::lemma2_to64();
    }
    (x & 0x3) << 6u8
}

/// Rx LMT Overload Power Down<1:0>
pub fn rx_lmt_overload_power_down(x: u8) -> (r: u8)
    ensures
        r == (x % 4) * 16,
{
    proof {
        crate::regs::lemma_u8_field(x, 2, 4);
        vstd::arithmetic::power2::lemma2_to64();
    }
    (x & 0x3) << 4u8
}

/// Rx Mixer Gm Power Down<1:0>
pub fn rx_mixer_gm_power_down(x: u8) -> (r: u8)
    ensures
        r == (x % 4) * 4,
{
    proof {
        crate::regs::lemma_u8_field(x, 2, 2);
        vstd::arithmetic::power2::lemma2_to64();
    }
    (x & 0x3) << 2u8
}

/// Rx CGB Power Down<1:0>
pub fn rx_cgb_power_down(x: u8) -> (r: u8)
    ensures
        r == x % 4,
{
    proof {
        vstd::bits::lemma_u8_low_bits_mask_is_mod(x, 2);
        vstd::arithmetic::power2::lemma2_to64();
    }
    x & 0x3
}

} // verus!
