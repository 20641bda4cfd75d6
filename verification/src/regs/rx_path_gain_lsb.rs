use vstd::prelude::*;

verus! {

/// Rx Path Gain<0>
pub const RX_PATH_GAIN: u8 = 1 << 0;

} // verus!
