use vstd::prelude::*;

verus! {

/// SIF clock
pub const SIF_CLOCK: u8 = 1 << 6;

/// SIF Reset Bar
pub const SIF_RESET_BAR: u8 = 1 << 5;

/// SIF Addr<4:0>
pub fn sif_addr(x: u8) -> (r: u8)
    ensures
        r == x % 32,
{
    proof {
        vstd::bits::lemma_u8_low_bits_mask_is_mod(x, 5);
        vstd::arithmetic::power2::lemma2_to64();
    }
    x & 0x1F
}

} // verus!
