use vstd::prelude::*;

verus! {

/// Set to 1
pub const CTRL_ENABLE: u8 = 1 << 0;

} // verus!
