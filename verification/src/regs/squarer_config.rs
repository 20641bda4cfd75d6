use vstd::prelude::*;

verus! {

/// Gm Stage Time Con Override
pub const GM_STAGE_TIME_CON_OVERRIDE: u8 = 1 << 5;

/// Gm Stage MV HP Pole
pub const GM_STAGE_MV_HP_POLE: u8 = 1 << 4;

/// Gm Stage Lower CM
pub const GM_STAGE_LOWER_CM: u8 = 1 << 3;

/// Bypass Bias R
pub const BYPASS_BIAS_R: u8 = 1 << 0;

/// Vbias Control<1:0>
pub fn vbias_ctrl(x: u8) -> (r: u8)
    ensures
        r == (x % 4) * 2,
{
    proof {
        crate::regs::lemma_u8_field(x, 2, 1);
        vstd::arithmetic::power2::lemma2_to64();
    }
    (x & 0x3) << 1u8
}

} // verus!
