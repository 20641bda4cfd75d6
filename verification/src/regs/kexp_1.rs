use vstd::prelude::*;

verus! {

/// Kexp Tx<1:0>
pub fn kexp_tx(x: u8) -> (r: u8)
    ensures
        r == (x % 4) * 64,
{
    proof {
        crate::regs::lemma_u8_field(x, 2, 6);
        vstd::arithmetic::power2::lemma2_to64();
    }
    (x & 0x3) << 6u8
}

/// Kexp Tx_comp <1:0>
pub fn kexp_tx_comp(x: u8) -> (r: u8)
    ensures
        r == (x % 4) * 16,
{
    proof {
        crate::regs::lemma_u8_field(x, 2, 4);
        vstd::arithmetic::power2::lemma2_to64();
    }
    (x & 0x3) << 4u8
}

/// Kexp DC I <1:0>
pub fn kexp_dc_i(x: u8) -> (r: u8)
    ensures
        r == (x % 4) * 4,
{
    proof {
        crate::regs::lemma_u8_field(x, 2, 2);
        vstd::arithmetic::power2::lemma2_to64();
    }
    (x & 0x3) << 2u8
}

/// Kexp DC Q <1:0>
pub fn kexp_dc_q(x: u8) -> (r: u8)
    ensures
        r == x % 4,
{
    proof {
        vstd::bits::lemma_u8_low_bits_mask_is_mod(x, 2);
        vstd::arithmetic::power2::lemma2_to64();
    }
    x & 0x3
}

} // verus!
