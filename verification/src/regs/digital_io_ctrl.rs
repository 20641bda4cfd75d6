use vstd::prelude::*;

verus! {

/// CLK Out Drive
pub const CLK_OUT_DRIVE: u8 = 1 << 7;

/// DATACLK drive
pub const DATACLK_DRIVE: u8 = 1 << 6;

/// Data Port Drive
pub const DATA_PORT_DRIVE: u8 = 1 << 2;

/// DATACLK slew <1:0>
pub fn dataclk_slew(x: u8) -> (r: u8)
    ensures
        r == (x % 4) * 16,
{
    proof {
        crate::regs::lemma_u8_field(x, 2, 4);
        vstd::arithmetic::power2::lemma2_to64();
    }
    (x & 0x3) << 4u8
}

/// Data Port Slew<1:0>
pub fn data_port_slew(x: u8) -> (r: u8)
    ensures
        r == x % 4,
{
    proof {
        vstd::bits::lemma_u8_low_bits_mask_is_mod(x, 2);
        vstd::arithmetic::power2::lemma2_to64();
    }
    x & 0x3
}

} // verus!
