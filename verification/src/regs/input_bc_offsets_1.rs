use vstd::prelude::*;

verus! {

/// Rx2 Input B&C "Q" DC Offset<3:0>
pub fn rx2_input_bc_q_dc_offset_lsb(x: u8) -> (r: u8)
    ensures
        r == (x % 16) * 16,
{
    proof {
        crate::regs::lemma_u8_field(x, 4, 4);
        vstd::arithmetic::power2::lemma2_to64();
    }
    (x & 0xF) << 4u8
}

/// Rx1 Input B&C "I" DC Offset<9:6>
pub fn rx1_input_bc_i_dc_offset_msb(x: u8) -> (r: u8)
    ensures
        r == x % 16,
{
    proof {
        vstd::bits::lemma_u8_low_bits_mask_is_mod(x, 4);
        vstd::arithmetic::power2::lemma2_to64();
    }
    x & 0xF
}

} // verus!
