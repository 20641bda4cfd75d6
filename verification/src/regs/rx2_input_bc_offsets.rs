use vstd::prelude::*;

verus! {

/// Rx2 Input B&C "I" DC Offset<1:0>
pub fn rx2_input_bc_i_dc_offset(x: u8) -> (r: u8)
    ensures
        r == (x % 4) * 64,
{
    proof {
        crate::regs::lemma_u8_field(x, 2, 6);
        vstd::arithmetic::power2::lemma2_to64();
    }
    (x & 0x3) << 6u8
}

/// Rx2 Input B&C "Q" DC Offset<9:4>
pub fn rx2_input_bc_q_dc_offset_msb(x: u8) -> (r: u8)
    ensures
        r == x % 64,
{
    proof {
        vstd::bits::lemma_u8_low_bits_mask_is_mod(x, 6);
        vstd::arithmetic::power2::lemma2_to64();
    }
    x & 0x3F
}

} // verus!
