use vstd::prelude::*;

verus! {

/// Large LMT Overload Threshold<5:0>
pub fn large_lmt_overload_thresh(x: u8) -> (r: u8)
    ensures
        r == x % 64,
{
    proof {
        vstd::bits::lemma_u8_low_bits_mask_is_mod(x, 6);
        vstd::arithmetic::power2::lemma2_to64();
    }
    x & 0x3F
}

} // verus!
