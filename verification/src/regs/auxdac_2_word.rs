use vstd::prelude::*;

verus! {

/// AuxDAC 2 Word<9:2>
pub fn auxdac_2_word_msb(x: u16) -> (r: u8)
    ensures
        r == (x % 64) * 4,
{
    proof {
        crate::regs::lemma_u16_field(x, 6, 2);
        vstd::arithmetic::power2::lemma2_to64();
    }
    let v: u16 = (x & 0x3F) << 2u16;
    v as u8
}

/// AuxDAC 1 Word <1:0>
pub fn auxdac_1_word(x: u8) -> (r: u8)
    ensures
        r == x % 4,
{
    proof {
        vstd::bits::lemma_u8_low_bits_mask_is_mod(x, 2);
        vstd::arithmetic::power2::lemma2_to64();
    }
    x & 0x3
}

} // verus!
