use vstd::prelude::*;

verus! {

/// dB Gain Read-back Channel
pub const DB_GAIN_READBACK_CHANNEL: u8 = 1 << 0;

/// Max LNA Gain<6:0>
pub fn max_lna_gain(x: u8) -> (r: u8)
    ensures
        r == (x % 128) * 2,
{
    proof {
        crate::regs::lemma_u8_field(x, 7, 1);
        vstd::arithmetic::power2::lemma2_to64();
    }
    (x & 0x7F) << 1u8
}

} // verus!
