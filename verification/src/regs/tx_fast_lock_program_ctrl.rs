use vstd::prelude::*;

verus! {

/// Tx Fast Lock Program Write
pub const TX_FAST_LOCK_PROGRAM_WRITE: u8 = 1 << 1;

/// Tx Fast Lock Program Clock Enable
pub const TX_FAST_LOCK_PROGRAM_CLOCK_ENABLE: u8 = 1 << 0;

} // verus!
