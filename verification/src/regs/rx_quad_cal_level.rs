use vstd::prelude::*;

verus! {

/// Rx Quad Cal Level <3 :0>
pub fn rx_quad_cal_level(x: u8) -> (r: u8)
    ensures
        r == x % 16,
{
    proof {
        vstd::bits::lemma_u8_low_bits_mask_is_mod(x, 4);
        vstd::arithmetic::power2::lemma2_to64();
    }
    x & 0xF
}

} // verus!
