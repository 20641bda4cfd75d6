use vstd::prelude::*;

verus! {

/// DCXO Tune Fine<12:5>
pub fn dcxo_tune_fine_high(x: u16) -> (r: u16)
    ensures
        r == x / 32,
{
    proof {
        vstd::bits::lemma_u16_shr_is_div(x, 5);
        vstd::arithmetic::power2::lemma2_to64();
    }
    x >> 5u16
}

} // verus!
