use vstd::prelude::*;

verus! {

/// Force ALC Enable
pub const FORCE_ALC_ENABLE: u8 = 1 << 7;

/// Force ALC Word<6:0>
pub fn force_alc_word(x: u8) -> (r: u8)
    ensures
        r == x % 128,
{
    proof {
        vstd::bits::lemma_u8_low_bits_mask_is_mod(x, 7);
        vstd::arithmetic::power2::lemma2_to64();
    }
    x & 0x7F
}

} // verus!
