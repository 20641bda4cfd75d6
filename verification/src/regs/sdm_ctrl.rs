use vstd::prelude::*;

verus! {

/// Cal Clock div 4
pub const CAL_CLOCK_DIV_4: u8 = 1 << 4;

} // verus!
