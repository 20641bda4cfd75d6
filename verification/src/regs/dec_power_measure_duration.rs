use vstd::prelude::*;

verus! {

/// Decimation power measurement source selection.
#[derive(Debug, Clone, Copy, PartialEq, Eq, Structural)]
pub enum DecPowerMeasurementSource {
    RxFirOut,
    Hb1Out,
}

impl DecPowerMeasurementSource {
    /// Raw 1 bit register value of the variant.
    pub open spec fn raw(self) -> u8 {
        match self {
            DecPowerMeasurementSource::RxFirOut => 0,
            DecPowerMeasurementSource::Hb1Out => 1,
        }
    }

    /// Raw 1 bit register value of the variant.
    pub fn raw_value(&self) -> (r: u8)
        ensures
            r == self.raw(),
            r < 2,
    {
        match self {
            DecPowerMeasurementSource::RxFirOut => 0,
            DecPowerMeasurementSource::Hb1Out => 1,
        }
    }

    /// Decodes a raw 1 bit register value.
    pub fn new_with_raw_value(value: u8) -> (r: Self)
        requires
            value < 2,
        ensures
            r.raw() == value,
    {
        if value == 0 {
            DecPowerMeasurementSource::RxFirOut
        } else {
            DecPowerMeasurementSource::Hb1Out
        }
    }
}

} // verus!
