use vstd::prelude::*;

verus! {

/// Use Tx1 Pin & Symbol Atten
pub const USE_TX1_PIN_SYMBOL_ATTEN: u8 = 1 << 3;

/// Use CTRL IN for symbol Atten
pub const USE_CTRL_IN_FOR_SYMBOL_ATTEN: u8 = 1 << 1;

/// Enable Symbol Atten
pub const ENABLE_SYMBOL_ATTEN: u8 = 1 << 0;

} // verus!
