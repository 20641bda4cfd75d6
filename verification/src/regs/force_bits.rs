use vstd::prelude::*;

verus! {

/// Rx2 Input B&C Force offset
pub const RX2_INPUT_BC_FORCE_OFFSET: u8 = 1 << 7;

/// Rx1 Input B&C Force offset
pub const RX1_INPUT_BC_FORCE_OFFSET: u8 = 1 << 6;

/// Rx2 Input B&C Force Ph/Gain
pub const RX2_INPUT_BC_FORCE_PHGAIN: u8 = 1 << 5;

/// Rx1 Input B&C Force Ph/Gain
pub const RX1_INPUT_BC_FORCE_PHGAIN: u8 = 1 << 4;

/// Rx2 Input A Force offset
pub const RX2_INPUT_A_FORCE_OFFSET: u8 = 1 << 3;

/// Rx1 Input A Force offset
pub const RX1_INPUT_A_FORCE_OFFSET: u8 = 1 << 2;

/// Rx2 Input A Force Ph/Gain
pub const RX2_INPUT_A_FORCE_PHGAIN: u8 = 1 << 1;

/// Rx1 Input A Force Ph/Gain
pub const RX1_INPUT_A_FORCE_PHGAIN: u8 = 1 << 0;

} // verus!
