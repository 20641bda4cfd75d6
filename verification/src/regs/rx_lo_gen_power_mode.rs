use vstd::prelude::*;

verus! {

/// Power Mode<3:0>
pub fn rx_lo_gen_power_mode(x: u8) -> (r: u8)
    ensures
        r == (x % 4) * 16,
{
    proof {
        crate::regs::lemma_u8_field(x, 2, 4);
        vstd::arithmetic::power2::lemma2_to64();
    }
    (x & 0x3) << 4u8
}

} // verus!
