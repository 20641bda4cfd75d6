use vstd::prelude::*;

verus! {

/// Rx Fast Lock Program Write
pub const RX_FAST_LOCK_PROGRAM_WRITE: u8 = 1 << 1;

/// Rx Fast Lock Program Clock Enable
pub const RX_FAST_LOCK_PROGRAM_CLOCK_ENABLE: u8 = 1 << 0;

} // verus!
