use vstd::prelude::*;

verus! {

/// Gain Lock 1
pub const GAIN_LOCK_1: u8 = 1 << 6;

/// Low Power 1
pub const LOW_POWER_1: u8 = 1 << 5;

/// Large LMT OL
pub const LARGE_LMT_OL: u8 = 1 << 4;

/// Small LMT OL
pub const SMALL_LMT_OL: u8 = 1 << 3;

/// Large ADC OL
pub const LARGE_ADC_OL: u8 = 1 << 2;

/// Small ADC OL
pub const SMALL_ADC_OL: u8 = 1 << 1;

/// Dig Sat
pub const DIG_SAT: u8 = 1 << 0;

} // verus!
