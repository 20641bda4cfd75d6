use vstd::prelude::*;

verus! {

/// Tx RSSI 2<0>
pub const TX_RSSI_2: u8 = 1 << 1;

/// TX RSSI 1<0>
pub const TX_RSSI_1: u8 = 1 << 0;

} // verus!
