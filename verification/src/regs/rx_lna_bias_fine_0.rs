use vstd::prelude::*;

verus! {

/// Rx LNA p-Cascode Bias<2:0>
pub fn rx_lna_pcascode_bias(x: u8) -> (r: u8)
    ensures
        r == (x % 8) * 32,
{
    proof {
        crate::regs::lemma_u8_field(x, 3, 5);
        vstd::arithmetic::power2::lemma2_to64();
    }
    (x & 0x7) << 5u8
}

/// Rx LNA Bias<4:0>
pub fn rx_lna_bias(x: u8) -> (r: u8)
    ensures
        r == x % 32,
{
    proof {
        vstd::bits::lemma_u8_low_bits_mask_is_mod(x, 5);
        vstd::arithmetic::power2::lemma2_to64();
    }
    x & 0x1F
}

} // verus!
