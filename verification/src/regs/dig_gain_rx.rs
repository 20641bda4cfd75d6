use vstd::prelude::*;

verus! {

/// Digital gain Rx1<4:0>
pub fn digital_gain_rx(x: u8) -> (r: u8)
    ensures
        r == x % 32,
{
    proof {
        vstd::bits::lemma_u8_low_bits_mask_is_mod(x, 5);
        vstd::arithmetic::power2::lemma2_to64();
    }
    x & 0x1F
}

} // verus!
