use vstd::prelude::*;

verus! {

/// Rx2 RSSI preamble <0>
pub const RX2_RSSI_PREAMBLE: u8 = 1 << 1;

/// Rx1 RSSI preamble <0>
pub const RX1_RSSI_PREAMBLE: u8 = 1 << 0;

} // verus!
