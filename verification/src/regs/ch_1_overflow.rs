use vstd::prelude::*;

verus! {

/// BBPLL Lock
pub const BBPLL_LOCK: u8 = 1 << 7;

/// CH 1 INT3
pub const CH_1_INT3: u8 = 1 << 6;

/// CH1 HB3
pub const CH1_HB3: u8 = 1 << 5;

/// CH1 HB2
pub const CH1_HB2: u8 = 1 << 4;

/// CH1 QEC
pub const CH1_QEC: u8 = 1 << 3;

/// CH1 HB1
pub const CH1_HB1: u8 = 1 << 2;

/// CH1 TFIR
pub const CH1_TFIR: u8 = 1 << 1;

/// CH1 RFIR
pub const CH1_RFIR: u8 = 1 << 0;

} // verus!
