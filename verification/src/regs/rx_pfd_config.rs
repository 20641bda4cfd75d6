use vstd::prelude::*;

verus! {

/// Bypass Ld Synth
pub const BYPASS_LD_SYNTH: u8 = 1 << 0;

} // verus!
