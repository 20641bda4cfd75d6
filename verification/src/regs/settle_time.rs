use vstd::prelude::*;

verus! {

/// Enable Dig Gain Corr
pub const ENABLE_DIG_GAIN_CORR: u8 = 1 << 7;

/// Force Temp Sensor for Cal
pub const FORCE_TEMP_SENSOR_FOR_CAL: u8 = 1 << 6;

/// Settle Time<5:0>
pub fn settle_time(x: u8) -> (r: u8)
    ensures
        r == x % 64,
{
    proof {
        vstd::bits::lemma_u8_low_bits_mask_is_mod(x, 6);
        vstd::arithmetic::power2::lemma2_to64();
    }
    x & 0x3F
}

} // verus!
