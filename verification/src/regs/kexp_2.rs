use vstd::prelude::*;

verus! {

/// Invert I data
pub const INVERT_I_DATA: u8 = 1 << 5;

/// Invert Q data
pub const INVERT_Q_DATA: u8 = 1 << 4;

/// Tx NCO frequency<1:0>
pub fn tx_nco_freq(x: u8) -> (r: u8)
    ensures
        r == (x % 4) * 64,
{
    proof {
        crate::regs::lemma_u8_field(x, 2, 6);
        vstd::arithmetic::power2::lemma2_to64();
    }
    (x & 0x3) << 6u8
}

/// Kexp Phase <1:0>
pub fn kexp_phase(x: u8) -> (r: u8)
    ensures
        r == (x % 4) * 4,
{
    proof {
        crate::regs::lemma_u8_field(x, 2, 2);
        vstd::arithmetic::power2::lemma2_to64();
    }
    (x & 0x3) << 2u8
}

/// Kexp Amp <1:0>
pub fn kexp_amp(x: u8) -> (r: u8)
    ensures
        r == x % 4,
{
    proof {
        vstd::bits::lemma_u8_low_bits_mask_is_mod(x, 2);
        vstd::arithmetic::power2::lemma2_to64();
    }
    x & 0x3
}

} // verus!
