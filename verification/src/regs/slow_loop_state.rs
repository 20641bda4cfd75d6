use vstd::prelude::*;

verus! {

/// Slow Loop State Rx2<2:0>
pub fn slow_loop_state_rx2(x: u8) -> (r: u8)
    ensures
        r == (x % 8) * 16,
{
    proof {
        crate::regs::lemma_u8_field(x, 3, 4);
        vstd::arithmetic::power2::lemma2_to64();
    }
    (x & 0x7) << 4u8
}

/// Slow Loop State Rx1<2:0>
pub fn slow_loop_state_rx1(x: u8) -> (r: u8)
    ensures
        r == x % 8,
{
    proof {
        vstd::bits::lemma_u8_low_bits_mask_is_mod(x, 3);
        vstd::arithmetic::power2::lemma2_to64();
    }
    x & 0x7
}

} // verus!
