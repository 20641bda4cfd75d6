use vstd::prelude::*;

verus! {

/// DCXO Tune Fine<4:0>
pub fn dcxo_tune_fine_low(x: u8) -> (r: u8)
    ensures
        r == (x % 32) * 8,
{
    proof {
        crate::regs::lemma_u8_field(x, 5, 3);
        vstd::arithmetic::power2::lemma2_to64();
    }
    (x & 0x1F) << 3u8
}

} // verus!
