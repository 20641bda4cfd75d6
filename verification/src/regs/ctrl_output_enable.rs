use vstd::prelude::*;

verus! {

/// En ctrl7
pub const EN_CTRL7: u8 = 1 << 7;

/// En ctrl6
pub const EN_CTRL6: u8 = 1 << 6;

/// En ctrl5
pub const EN_CTRL5: u8 = 1 << 5;

/// En ctrl4
pub const EN_CTRL4: u8 = 1 << 4;

/// En ctrl3
pub const EN_CTRL3: u8 = 1 << 3;

/// En ctrl2
pub const EN_CTRL2: u8 = 1 << 2;

/// En ctrl1
pub const EN_CTRL1: u8 = 1 << 1;

/// En ctrl0
pub const EN_CTRL0: u8 = 1 << 0;

} // verus!
