use vstd::prelude::*;

verus! {

/// Override enable
pub const OVERRIDE_ENABLE: u8 = 1 << 7;

/// R1<4:0>
pub fn r1(x: u8) -> (r: u8)
    ensures
        r == x % 32,
{
    proof {
        vstd::bits::lemma_u8_low_bits_mask_is_mod(x, 5);
        vstd::arithmetic::power2::lemma2_to64();
    }
    x & 0x1F
}

} // verus!
