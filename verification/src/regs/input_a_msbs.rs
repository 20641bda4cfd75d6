use vstd::prelude::*;

verus! {

/// Input A RX1 Q<9:8>
pub fn input_a_rx1_q(x: u8) -> (r: u8)
    ensures
        r == (x % 4) * 64,
{
    proof {
        crate::regs::lemma_u8_field(x, 2, 6);
        vstd::arithmetic::power2::lemma2_to64();
    }
    (x & 0x3) << 6u8
}

/// Input A RX1 I<9:8>
pub fn input_a_rx1_i(x: u8) -> (r: u8)
    ensures
        r == (x % 4) * 16,
{
    proof {
        crate::regs::lemma_u8_field(x, 2, 4);
        vstd::arithmetic::power2::lemma2_to64();
    }
    (x & 0x3) << 4u8
}

/// Input A RX2 I<9:8>
pub fn input_a_rx2_i(x: u8) -> (r: u8)
    ensures
        r == (x % 4) * 4,
{
    proof {
        crate::regs::lemma_u8_field(x, 2, 2);
        vstd::arithmetic::power2::lemma2_to64();
    }
    (x & 0x3) << 2u8
}

/// Input A RX2 Q<9:8>
pub fn input_a_rx2_q(x: u8) -> (r: u8)
    ensures
        r == x % 4,
{
    proof {
        vstd::bits::lemma_u8_low_bits_mask_is_mod(x, 2);
        vstd::arithmetic::power2::lemma2_to64();
    }
    x & 0x3
}

} // verus!
