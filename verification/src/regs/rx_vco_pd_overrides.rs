use vstd::prelude::*;

verus! {

/// Power Down Varactor Ref
pub const POWER_DOWN_VARACTOR_REF: u8 = 1 << 3;

/// Pwr Down Varact Ref Tcf
pub const PWR_DOWN_VARACT_REF_TCF: u8 = 1 << 2;

/// Power Down Cal Tcf
pub const POWER_DOWN_CAL_TCF: u8 = 1 << 1;

/// Power Down VCO Bufffer
pub const POWER_DOWN_VCO_BUFFFER: u8 = 1 << 0;

} // verus!
