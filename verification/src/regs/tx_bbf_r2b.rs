use vstd::prelude::*;

verus! {

/// Bypass Bias R
pub const TX_BBF_BYPASS_BIAS_R: u8 = 1 << 7;

/// R2b Ovr
pub const R2B_OVR: u8 = 1 << 5;

/// R2b<4:0>
pub fn r2b(x: u8) -> (r: u8)
    ensures
        r == x % 32,
{
    proof {
        vstd::bits::lemma_u8_low_bits_mask_is_mod(x, 5);
        vstd::arithmetic::power2::lemma2_to64();
    }
    x & 0x1F
}

} // verus!
