use vstd::prelude::*;

verus! {

/// Rx LNA Power Down
pub const RX_LNA_POWER_DOWN: u8 = 1 << 6;

/// DCXO Power Down
pub const DCXO_POWER_DOWN: u8 = 1 << 1;

/// Master Bias Power Down
pub const MASTER_BIAS_POWER_DOWN: u8 = 1 << 0;

/// Rx Calibration Power Down<1:0>
pub fn rx_calibration_power_down(x: u8) -> (r: u8)
    ensures
        r == (x % 4) * 4,
{
    proof {
        crate::regs::lemma_u8_field(x, 2, 2);
        vstd::arithmetic::power2::lemma2_to64();
    }
    (x & 0x3) << 2u8
}

} // verus!
