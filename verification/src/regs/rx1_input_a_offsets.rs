use vstd::prelude::*;

verus! {

/// Rx1 Input A "I" DC Offset<5:0>
pub fn rx1_input_a_i_dc_offset_lsb(x: u8) -> (r: u8)
    ensures
        r == (x % 64) * 4,
{
    proof {
        crate::regs::lemma_u8_field(x, 6, 2);
        vstd::arithmetic::power2::lemma2_to64();
    }
    (x & 0x3F) << 2u8
}

/// Rx1 Input A "Q" DC Offset<9:8>
pub fn rx1_input_a_q_dc_offset(x: u8) -> (r: u8)
    ensures
        r == x % 4,
{
    proof {
        vstd::bits::lemma_u8_low_bits_mask_is_mod(x, 2);
        vstd::arithmetic::power2::lemma2_to64();
    }
    x & 0x3
}

} // verus!
