use vstd::prelude::*;

verus! {

/// Force Rx2 Resistors
pub const FORCE_RX2_RESISTORS: u8 = 1 << 7;

/// Rx2 BBF R1A<5:0>
pub fn rx2_bbf_r1a(x: u8) -> (r: u8)
    ensures
        r == x % 64,
{
    proof {
        vstd::bits::lemma_u8_low_bits_mask_is_mod(x, 6);
        vstd::arithmetic::power2::lemma2_to64();
    }
    x & 0x3F
}

} // verus!
