use vstd::prelude::*;

verus! {

/// CH2 INT3
pub const CH2_INT3: u8 = 1 << 6;

/// CH2 HB3
pub const CH2_HB3: u8 = 1 << 5;

/// CH2 HB2
pub const CH2_HB2: u8 = 1 << 4;

/// CH2 QEC
pub const CH2_QEC: u8 = 1 << 3;

/// CH2 HB1
pub const CH2_HB1: u8 = 1 << 2;

/// CH2 TFIR
pub const CH2_TFIR: u8 = 1 << 1;

/// CH2 RFIR
pub const CH2_RFIR: u8 = 1 << 0;

} // verus!
