use vstd::prelude::*;

verus! {

pub const RSSI_LSB_SHIFT: u8 = 1;

pub const RSSI_LSB_MASK1: u8 = 0x01;

pub const RSSI_LSB_MASK2: u8 = 0x02;

} // verus!
