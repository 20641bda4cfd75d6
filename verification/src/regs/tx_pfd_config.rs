use vstd::prelude::*;

verus! {

/// Div Test En
pub const DIV_TEST_EN: u8 = 1 << 5;

/// PFD Clk Edge
pub const PFD_CLK_EDGE: u8 = 1 << 1;

/// Bypass Ld Synth
pub const BYPASS_LD_SYNTH: u8 = 1 << 0;

/// PFD Width <1:0>
pub fn pfd_width(x: u8) -> (r: u8)
    ensures
        r == (x % 4) * 4,
{
    proof {
        crate::regs::lemma_u8_field(x, 2, 2);
        vstd::arithmetic::power2::lemma2_to64();
    }
    (x & 0x3) << 2u8
}

} // verus!
