use vstd::prelude::*;

verus! {

/// RSSI restart/trigger mode
#[derive(Debug, Clone, Copy, PartialEq, Eq, Structural)]
pub enum RestartMode {
    AgcInFastAttackModeLocksTheGain,
    EnAgcPinIsPulledHigh,
    EntersRxMode,
    GainChangeOccurs,
    SpiWriteToRegister,
    GainChangeOccursOrEnAgcPinPulledHigh,
}

impl RestartMode {
    /// Raw 3 bit register value of the variant.
    pub open spec fn raw(self) -> u8 {
        match self {
            RestartMode::AgcInFastAttackModeLocksTheGain => 0,
            RestartMode::EnAgcPinIsPulledHigh => 1,
            RestartMode::EntersRxMode => 2,
            RestartMode::GainChangeOccurs => 3,
            RestartMode::SpiWriteToRegister => 4,
            RestartMode::GainChangeOccursOrEnAgcPinPulledHigh => 5,
        }
    }

    /// Raw 3 bit register value of the variant.
    pub fn raw_value(&self) -> (r: u8)
        ensures
            r == self.raw(),
            r < 8,
    {
        match self {
            RestartMode::AgcInFastAttackModeLocksTheGain => 0,
            RestartMode::EnAgcPinIsPulledHigh => 1,
            RestartMode::EntersRxMode => 2,
            RestartMode::GainChangeOccurs => 3,
            RestartMode::SpiWriteToRegister => 4,
            RestartMode::GainChangeOccursOrEnAgcPinPulledHigh => 5,
        }
    }

    /// Decodes a raw 3 bit register value. A value that no variant has is handed
    /// back as the error.
    pub fn new_with_raw_value(value: u8) -> (r: Result<Self, u8>)
        requires
            value < 8,
        ensures
            match r {
                Ok(v) => v.raw() == value,
                Err(e) => e == value && forall|v: RestartMode| v.raw() != value,
            },
    {
        if value == 0 {
            Ok(RestartMode::AgcInFastAttackModeLocksTheGain)
        } else if value == 1 {
            Ok(RestartMode::EnAgcPinIsPulledHigh)
        } else if value == 2 {
            Ok(RestartMode::EntersRxMode)
        } else if value == 3 {
            Ok(RestartMode::GainChangeOccurs)
        } else if value == 4 {
            Ok(RestartMode::SpiWriteToRegister)
        } else if value == 5 {
            Ok(RestartMode::GainChangeOccursOrEnAgcPinPulledHigh)
        } else {
            Err(value)
        }
    }
}

} // verus!
