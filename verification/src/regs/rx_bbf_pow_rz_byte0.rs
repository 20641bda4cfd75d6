use vstd::prelude::*;

verus! {

/// Must be zero
pub const MUST_BE_ZERO: u8 = 1 << 7;

/// Rx1 BBF Pow Ctr<1:0>
pub fn rx1_bbf_pow_ctr(x: u8) -> (r: u8)
    ensures
        r == (x % 4) * 32,
{
    proof {
        crate::regs::lemma_u8_field(x, 2, 5);
        vstd::arithmetic::power2::lemma2_to64();
    }
    (x & 0x3) << 5u8
}

/// Rx BBF Rz1 Ctr<1:0>
pub fn rx_bbf_rz1_ctr(x: u8) -> (r: u8)
    ensures
        r == (x % 4) * 8,
{
    proof {
        crate::regs::lemma_u8_field(x, 2, 3);
        vstd::arithmetic::power2::lemma2_to64();
    }
    (x & 0x3) << 3u8
}

} // verus!
