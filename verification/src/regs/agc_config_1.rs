use vstd::prelude::*;

verus! {

#[derive(Debug, Clone, Copy, PartialEq, Eq, Structural)]
pub enum RxGainControlSetup {
    /// MGC
    Manual,
    /// AGC Fast Attack
    AutomaticFastAttack,
    /// AGC Slow Attack
    AutomaticSlowAttack,
    /// AGC Slow Attack Hybrid
    AutomaticSlowAttackHybrid,
}

impl RxGainControlSetup {
    /// Raw 2 bit register value of the variant.
    pub open spec fn raw(self) -> u8 {
        match self {
            RxGainControlSetup::Manual => 0,
            RxGainControlSetup::AutomaticFastAttack => 1,
            RxGainControlSetup::AutomaticSlowAttack => 2,
            RxGainControlSetup::AutomaticSlowAttackHybrid => 3,
        }
    }

    /// Raw 2 bit register value of the variant.
    pub fn raw_value(&self) -> (r: u8)
        ensures
            r == self.raw(),
            r < 4,
    {
        match self {
            RxGainControlSetup::Manual => 0,
            RxGainControlSetup::AutomaticFastAttack => 1,
            RxGainControlSetup::AutomaticSlowAttack => 2,
            RxGainControlSetup::AutomaticSlowAttackHybrid => 3,
        }
    }

    /// Decodes a raw 2 bit register value.
    pub fn new_with_raw_value(value: u8) -> (r: Self)
        requires
            value < 4,
        ensures
            r.raw() == value,
    {
        if value == 0 {
            RxGainControlSetup::Manual
        } else if value == 1 {
            RxGainControlSetup::AutomaticFastAttack
        } else if value == 2 {
            RxGainControlSetup::AutomaticSlowAttack
        } else {
            RxGainControlSetup::AutomaticSlowAttackHybrid
        }
    }
}

/// Register setting of a gain control mode.
pub open spec fn gain_control_setup(value: crate::types::GainControlMode) -> RxGainControlSetup {
    match value {
        crate::types::GainControlMode::Manual => RxGainControlSetup::Manual,
        crate::types::GainControlMode::AutoFastAttack => RxGainControlSetup::AutomaticFastAttack,
        crate::types::GainControlMode::AutoSlowAttack => RxGainControlSetup::AutomaticSlowAttack,
        crate::types::GainControlMode::AutoHybrid => RxGainControlSetup::AutomaticSlowAttackHybrid,
    }
}

impl From<crate::types::GainControlMode> for RxGainControlSetup {
    fn from(value: crate::types::GainControlMode) -> (r: Self) {
        match value {
            crate::types::GainControlMode::Manual => RxGainControlSetup::Manual,
            crate::types::GainControlMode::AutoFastAttack => {
                RxGainControlSetup::AutomaticFastAttack
            },
            crate::types::GainControlMode::AutoSlowAttack => {
                RxGainControlSetup::AutomaticSlowAttack
            },
            crate::types::GainControlMode::AutoHybrid => {
                RxGainControlSetup::AutomaticSlowAttackHybrid
            },
        }
    }
}

impl vstd::std_specs::convert::FromSpecImpl<crate::types::GainControlMode> for RxGainControlSetup {
    open spec fn obeys_from_spec() -> bool {
        true
    }

    open spec fn from_spec(v: crate::types::GainControlMode) -> Self {
        gain_control_setup(v)
    }
}

} // verus!
