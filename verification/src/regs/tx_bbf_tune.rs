use vstd::prelude::*;

verus! {

/// BBF1 Comp I
pub const BBF1_COMP_I: u8 = 1 << 3;

/// BBF1 Comp Q
pub const BBF1_COMP_Q: u8 = 1 << 2;

/// BBF2 Comp I
pub const BBF2_COMP_I: u8 = 1 << 1;

/// BBF2 Comp Q
pub const BBF2_COMP_Q: u8 = 1 << 0;

} // verus!
