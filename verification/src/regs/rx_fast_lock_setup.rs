use vstd::prelude::*;

verus! {

/// Rx Fast Lock Load Synth
pub const RX_FAST_LOCK_LOAD_SYNTH: u8 = 1 << 3;

/// Rx Fast Lock Profile Init
pub const RX_FAST_LOCK_PROFILE_INIT: u8 = 1 << 2;

/// Rx Fast Lock Profile Pin Select
pub const RX_FAST_LOCK_PROFILE_PIN_SELECT: u8 = 1 << 1;

/// Rx Fast Lock Mode Enable
pub const RX_FAST_LOCK_MODE_ENABLE: u8 = 1 << 0;

/// Rx Fast Lock Profile<2:0>
pub fn rx_fast_lock_profile(x: u8) -> (r: u8)
    ensures
        r == (x % 8) * 32,
{
    proof {
        crate::regs::lemma_u8_field(x, 3, 5);
        vstd::arithmetic::power2::lemma2_to64();
    }
    (x & 0x7) << 5u8
}

} // verus!
