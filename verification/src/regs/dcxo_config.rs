use vstd::prelude::*;

verus! {

/// Must be zero
pub const MUST_BE_ZERO: u8 = 1 << 7;

/// DCXO Rtail<2:0>
pub fn dcxo_rtail(x: u8) -> (r: u8)
    ensures
        r == (x % 8) * 16,
{
    proof {
        crate::regs::lemma_u8_field(x, 3, 4);
        vstd::arithmetic::power2::lemma2_to64();
    }
    (x & 0x7) << 4u8
}

/// DCXO Rd<1:0>
pub fn dcxo_rd(x: u8) -> (r: u8)
    ensures
        r == (x % 4) * 4,
{
    proof {
        crate::regs::lemma_u8_field(x, 2, 2);
        vstd::arithmetic::power2::lemma2_to64();
    }
    (x & 0x3) << 2u8
}

} // verus!
