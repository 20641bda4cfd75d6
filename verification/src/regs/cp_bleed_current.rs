use vstd::prelude::*;

verus! {

/// MCS refclk Scale En
pub const MCS_REFCLK_SCALE_EN: u8 = 1 << 7;

} // verus!
