use vstd::prelude::*;

verus! {

/// Tx 1 Atten <8>
pub const TX_1_ATTEN: u8 = 1 << 0;

} // verus!
