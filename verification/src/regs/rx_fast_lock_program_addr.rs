use vstd::prelude::*;

verus! {

/// Rx Fast Lock Profile<2:0>
pub fn rx_fast_lock_profile_addr(x: u8) -> (r: u8)
    ensures
        r == (x % 8) * 16,
{
    proof {
        crate::regs::lemma_u8_field(x, 3, 4);
        vstd::arithmetic::power2::lemma2_to64();
    }
    (x & 0x7) << 4u8
}

/// Configuration Word <3:0>
pub fn rx_fast_lock_profile_word(x: u8) -> (r: u8)
    ensures
        r == x % 16,
{
    proof {
        vstd::bits::lemma_u8_low_bits_mask_is_mod(x, 4);
        vstd::arithmetic::power2::lemma2_to64();
    }
    x & 0xF
}

} // verus!
