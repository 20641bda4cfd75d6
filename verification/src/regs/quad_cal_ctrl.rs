use vstd::prelude::*;

verus! {

/// Free Run Enable
pub const FREE_RUN_ENABLE: u8 = 1 << 7;

/// Settle Main Enable
pub const SETTLE_MAIN_ENABLE: u8 = 1 << 6;

/// DC Offset Enable
pub const DC_OFFSET_ENABLE: u8 = 1 << 5;

/// Gain Enable
pub const GAIN_ENABLE: u8 = 1 << 4;

/// Phase Enable
pub const PHASE_ENABLE: u8 = 1 << 3;

/// Quad Cal Soft Reset
pub const QUAD_CAL_SOFT_RESET: u8 = 1 << 2;

/// M<1:0>
pub fn m_decim(x: u8) -> (r: u8)
    ensures
        r == x % 4,
{
    proof {
        vstd::bits::lemma_u8_low_bits_mask_is_mod(x, 2);
        vstd::arithmetic::power2::lemma2_to64();
    }
    x & 0x3
}

} // verus!
