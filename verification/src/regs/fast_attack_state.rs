use vstd::prelude::*;

verus! {

/// Fast Attack State Rx2<2:0>
pub fn fast_attack_state_rx2(x: u8) -> (r: u8)
    ensures
        r == (x % 8) * 16,
{
    proof {
        crate::regs::lemma_u8_field(x, 3, 4);
        vstd::arithmetic::power2::lemma2_to64();
    }
    (x & 0x7) << 4u8
}

/// Fast Attack State Rx1<2:0>
pub fn fast_attack_state_rx1(x: u8) -> (r: u8)
    ensures
        r == x % 8,
{
    proof {
        vstd::bits::lemma_u8_low_bits_mask_is_mod(x, 3);
        vstd::arithmetic::power2::lemma2_to64();
    }
    x & 0x7
}

pub const FAST_ATK_MASK: u8 = 0x7;

pub const RX1_FAST_ATK_SHIFT: u8 = 0;

pub const RX2_FAST_ATK_SHIFT: u8 = 4;

pub const FAST_ATK_RESET: u8 = 0;

pub const FAST_ATK_PEAK_DETECT: u8 = 1;

pub const FAST_ATK_PWR_MEASURE: u8 = 2;

pub const FAST_ATK_FINAL_SETTELING: u8 = 3;

pub const FAST_ATK_FINAL_OVER: u8 = 4;

pub const FAST_ATK_GAIN_LOCKED: u8 = 5;

} // verus!
