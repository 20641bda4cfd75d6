use vstd::prelude::*;

verus! {

/// LO Common Mode<1:0>
pub fn lo_common_mode(x: u8) -> (r: u8)
    ensures
        r == (x % 4) * 32,
{
    proof {
        crate::regs::lemma_u8_field(x, 2, 5);
        vstd::arithmetic::power2::lemma2_to64();
    }
    (x & 0x3) << 5u8
}

} // verus!
