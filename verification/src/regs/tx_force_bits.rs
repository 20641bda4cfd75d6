use vstd::prelude::*;

verus! {

/// Force Out 2 Tx2 Offset
pub const FORCE_OUT_2_TX2_OFFSET: u8 = 1 << 7;

/// Force Out 2 Tx1 Offset
pub const FORCE_OUT_2_TX1_OFFSET: u8 = 1 << 6;

/// Force Out 2 Tx2 Phase & Gain
pub const FORCE_OUT_2_TX2_PHASE_GAIN: u8 = 1 << 5;

/// Force Out 2 Tx1 Phase & Gain
pub const FORCE_OUT_2_TX1_PHASE_GAIN: u8 = 1 << 4;

/// Force Out 1 Tx2 Offset
pub const FORCE_OUT_1_TX2_OFFSET: u8 = 1 << 3;

/// Force Out 1 Tx1 Offset
pub const FORCE_OUT_1_TX1_OFFSET: u8 = 1 << 2;

/// Force Out 1 Tx2 Phase & Gain
pub const FORCE_OUT_1_TX2_PHASE_GAIN: u8 = 1 << 1;

/// Force Out 1 Tx1 Phase & Gain
pub const FORCE_OUT_1_TX1_PHASE_GAIN: u8 = 1 << 0;

} // verus!
