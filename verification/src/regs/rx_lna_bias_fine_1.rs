use vstd::prelude::*;

verus! {

/// Rx LNA p- Cascode Bias Fine<4:3>
pub fn rx_lna_p_cascode_bias_fine(x: u8) -> (r: u8)
    ensures
        r == x % 4,
{
    proof {
        vstd::bits::lemma_u8_low_bits_mask_is_mod(x, 2);
        vstd::arithmetic::power2::lemma2_to64();
    }
    x & 0x3
}

} // verus!
