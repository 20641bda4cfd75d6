use vstd::prelude::*;

verus! {

/// DCXO Tempco En
pub const DCXO_TEMPCO_EN: u8 = 1 << 7;

/// DCXO Tempco Clk
pub const DCXO_TEMPCO_CLK: u8 = 1 << 6;

/// DCXO Temperature Coefficient Address<5:0>
pub fn dcxo_temperature_coef_address(x: u8) -> (r: u8)
    ensures
        r == x % 64,
{
    proof {
        vstd::bits::lemma_u8_low_bits_mask_is_mod(x, 6);
        vstd::arithmetic::power2::lemma2_to64();
    }
    x & 0x3F
}

} // verus!
