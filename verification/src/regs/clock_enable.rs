use vstd::prelude::*;

verus! {

#[derive(Debug, Clone, Copy, PartialEq, Eq, Structural)]
pub enum ExternalClockConfig {
    /// External oscillator connected to the REF_CLK_IN pin.
    Oscillator,
    /// External crystal in combination with internal digital programmable capacitor.
    Dcxo,
}

impl ExternalClockConfig {
    /// Raw 1 bit register value of the variant.
    pub open spec fn raw(self) -> u8 {
        match self {
            ExternalClockConfig::Oscillator => 1,
            ExternalClockConfig::Dcxo => 0,
        }
    }

    /// Raw 1 bit register value of the variant.
    pub fn raw_value(&self) -> (r: u8)
        ensures
            r == self.raw(),
            r < 2,
    {
        match self {
            ExternalClockConfig::Oscillator => 1,
            ExternalClockConfig::Dcxo => 0,
        }
    }

    /// Decodes a raw 1 bit register value.
    pub fn new_with_raw_value(value: u8) -> (r: Self)
        requires
            value < 2,
        ensures
            r.raw() == value,
    {
        if value == 1 {
            ExternalClockConfig::Oscillator
        } else {
            ExternalClockConfig::Dcxo
        }
    }
}

} // verus!
