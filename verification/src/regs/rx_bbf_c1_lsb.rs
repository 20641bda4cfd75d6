use vstd::prelude::*;

verus! {

/// Rx BBF C1 LSB<6:0>
pub fn rx_bbf_c1_lsb(x: u8) -> (r: u8)
    ensures
        r == x % 128,
{
    proof {
        vstd::bits::lemma_u8_low_bits_mask_is_mod(x, 7);
        vstd::arithmetic::power2::lemma2_to64();
    }
    x & 0x7F
}

} // verus!
