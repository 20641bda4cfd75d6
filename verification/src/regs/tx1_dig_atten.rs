use vstd::prelude::*;

verus! {

/// Sel Tx1 & Ttx2
pub const SEL_TX1_TX2: u8 = 1 << 6;

} // verus!
