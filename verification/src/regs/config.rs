use vstd::prelude::*;

verus! {

/// Read Select
pub const READ_SELECT: u8 = 1 << 4;

/// Write Mixer Error Table
pub const WRITE_MIXER_ERROR_TABLE: u8 = 1 << 3;

/// Write LNA Error Table
pub const WRITE_LNA_ERROR_TABLE: u8 = 1 << 2;

/// Write LNA Gain Diff
pub const WRITE_LNA_GAIN_DIFF: u8 = 1 << 1;

/// Start Calib Table Clock
pub const START_CALIB_TABLE_CLOCK: u8 = 1 << 0;

/// Calib Table Select<1:0>
pub fn calib_table_select(x: u8) -> (r: u8)
    ensures
        r == (x % 4) * 32,
{
    proof {
        crate::regs::lemma_u8_field(x, 2, 5);
        vstd::arithmetic::power2::lemma2_to64();
    }
    (x & 0x3) << 5u8
}

} // verus!
