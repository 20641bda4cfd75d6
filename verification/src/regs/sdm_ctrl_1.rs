use vstd::prelude::*;

verus! {

/// Init BB FO CAL
pub const INIT_BB_FO_CAL: u8 = 1 << 2;

/// BBPLL Reset Bar
pub const BBPLL_RESET_BAR: u8 = 1 << 0;

} // verus!
