use vstd::prelude::*;

verus! {

/// Force CGin DAC
pub const FORCE_CGIN_DAC: u8 = 1 << 2;

} // verus!
