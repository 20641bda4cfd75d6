use vstd::prelude::*;

verus! {

/// Rx2 RSSI symbol <0>
pub const RX2_RSSI_SYMBOL: u8 = 1 << 1;

/// Rx1 RSSI symbol <0>
pub const RX1_RSSI_SYMBOL: u8 = 1 << 0;

} // verus!
