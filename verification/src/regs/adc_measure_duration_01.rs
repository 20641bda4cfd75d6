use vstd::prelude::*;

verus! {

/// ADC Power Measurement Duration 1<3:0>
pub fn adc_power_measurement_duration_1(x: u8) -> (r: u8)
    ensures
        r == (x % 16) * 16,
{
    proof {
        crate::regs::lemma_u8_field(x, 4, 4);
        vstd::arithmetic::power2::lemma2_to64();
    }
    (x & 0xF) << 4u8
}

/// ADC Power Measurement Duration 0 <3:0>
pub fn adc_power_measurement_duration_0(x: u8) -> (r: u8)
    ensures
        r == x % 16,
{
    proof {
        vstd::bits::lemma_u8_low_bits_mask_is_mod(x, 4);
        vstd::arithmetic::power2::lemma2_to64();
    }
    x & 0xF
}

} // verus!
