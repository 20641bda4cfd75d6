use vstd::prelude::*;

verus! {

/// Tx 2 Atten <8>
pub const TX_2_ATTEN: u8 = 1 << 0;

} // verus!
