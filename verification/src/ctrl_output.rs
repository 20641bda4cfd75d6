//! Reading of the control output pins.
//!
//! The per-signal accessors follow the control output table of the datasheet.
use vstd::prelude::*;

use crate::bits::{bit_of, lemma_clear_bit, lemma_set_bit, lemma_shr_and_one_is_bit};

verus! {

/// Levels of the eight control output pins together with the mask of the pins that are
/// enabled. `REG` is the control output table entry the pins show.
pub struct ControlOutputReader<const REG: usize> {
    raw: u8,
    enabled: u8,
}

impl<const REG: usize> ControlOutputReader<REG> {
    /// Levels of the eight pins, bit `i` for pin `i`.
    pub closed spec fn raw_bits(self) -> u8 {
        self.raw
    }

    /// Mask of the enabled pins, bit `i` for pin `i`.
    pub closed spec fn enabled_mask(self) -> u8 {
        self.enabled
    }

    /// What a read of pin `pos` gives: its level while it is enabled, [`None`] otherwise.
    pub open spec fn checked(self, pos: nat) -> Option<bool> {
        if bit_of(self.enabled_mask(), pos) {
            Some(bit_of(self.raw_bits(), pos))
        } else {
            None
        }
    }

    /// Creates a reader from the pin levels `raw` and the enable mask `enabled`.
    pub fn new(raw: u8, enabled: u8) -> (r: Self)
        ensures
            r.raw_bits() == raw,
            r.enabled_mask() == enabled,
    {
        Self { raw, enabled }
    }

    /// Level of pin `pos`, or [`None`] if the pin is not enabled.
    pub fn checked_bit(&self, pos: u8) -> (r: Option<bool>)
        requires
            pos < 8,
        ensures
            r == self.checked(pos as nat),
    {
        proof {
            lemma_shr_and_one_is_bit(self.enabled, pos);
            lemma_shr_and_one_is_bit(self.raw, pos);
        }
        if ((self.enabled >> pos) & 1) == 0 {
            return None;
        }
        Some((self.raw >> pos) & 1 == 1)
    }

    /// Replaces all eight pin levels.
    pub fn update_raw(&mut self, raw: u8)
        ensures
            final(self).raw_bits() == raw,
            final(self).enabled_mask() == old(self).enabled_mask(),
    {
        self.raw = raw;
    }

    /// Sets the level of pin `pos` to `value` and leaves the other pins as they were.
    pub fn update_bit(&mut self, pos: u8, value: bool)
        requires
            pos < 8,
        ensures
            final(self).enabled_mask() == old(self).enabled_mask(),
            bit_of(final(self).raw_bits(), pos as nat) == value,
            forall|i: nat| i < 8 && i != pos ==> bit_of(final(self).raw_bits(), i) == bit_of(
                old(self).raw_bits(),
                i,
            ),
            final(self).raw_bits() == (old(self).raw_bits() & !(1u8 << pos)) | ((if value {
                1u8
            } else {
                0u8
            }) << pos),
    {
        let old_raw = self.raw;
        if value {
            self.raw = self.raw | (1u8 << pos);
            proof {
                assert(old_raw | (1u8 << pos) == (old_raw & !(1u8 << pos)) | (1u8 << pos))
                    by (bit_vector);
                assert forall|i: nat| i < 8 implies bit_of(self.raw, i) == (i == pos || bit_of(
                    old_raw,
                    i,
                )) by {
                    lemma_set_bit(old_raw, pos, i as u8);
                    lemma_shr_and_one_is_bit(self.raw, i as u8);
                    lemma_shr_and_one_is_bit(old_raw, i as u8);
                }
                lemma_set_bit(old_raw, pos, pos);
                lemma_shr_and_one_is_bit(self.raw, pos);
            }
        } else {
            self.raw = self.raw & !(1u8 << pos);
            proof {
                assert(old_raw & !(1u8 << pos) == (old_raw & !(1u8 << pos)) | (0u8 << pos))
                    by (bit_vector);
                assert forall|i: nat| i < 8 implies bit_of(self.raw, i) == (i != pos && bit_of(
                    old_raw,
                    i,
                )) by {
                    lemma_clear_bit(old_raw, pos, i as u8);
                    lemma_shr_and_one_is_bit(self.raw, i as u8);
                    lemma_shr_and_one_is_bit(old_raw, i as u8);
                }
                lemma_clear_bit(old_raw, pos, pos);
                lemma_shr_and_one_is_bit(self.raw, pos);
            }
        }
    }

    /// Sets the level of pin 0.
    pub fn update_d0(&mut self, value: bool)
        ensures
            final(self).enabled_mask() == old(self).enabled_mask(),
            bit_of(final(self).raw_bits(), 0) == value,
            forall|i: nat| i < 8 && i != 0 ==> bit_of(final(self).raw_bits(), i) == bit_of(
                old(self).raw_bits(),
                i,
            ),
    {
        self.update_bit(0, value);
    }

    /// Sets the level of pin 1.
    pub fn update_d1(&mut self, value: bool)
        ensures
            final(self).enabled_mask() == old(self).enabled_mask(),
            bit_of(final(self).raw_bits(), 1) == value,
            forall|i: nat| i < 8 && i != 1 ==> bit_of(final(self).raw_bits(), i) == bit_of(
                old(self).raw_bits(),
                i,
            ),
    {
        self.update_bit(1, value);
    }

    /// Sets the level of pin 2.
    pub fn update_d2(&mut self, value: bool)
        ensures
            final(self).enabled_mask() == old(self).enabled_mask(),
            bit_of(final(self).raw_bits(), 2) == value,
            forall|i: nat| i < 8 && i != 2 ==> bit_of(final(self).raw_bits(), i) == bit_of(
                old(self).raw_bits(),
                i,
            ),
    {
        self.update_bit(2, value);
    }

    /// Sets the level of pin 3.
    pub fn update_d3(&mut self, value: bool)
        ensures
            final(self).enabled_mask() == old(self).enabled_mask(),
            bit_of(final(self).raw_bits(), 3) == value,
            forall|i: nat| i < 8 && i != 3 ==> bit_of(final(self).raw_bits(), i) == bit_of(
                old(self).raw_bits(),
                i,
            ),
    {
        self.update_bit(3, value);
    }

    /// Sets the level of pin 4.
    pub fn update_d4(&mut self, value: bool)
        ensures
            final(self).enabled_mask() == old(self).enabled_mask(),
            bit_of(final(self).raw_bits(), 4) == value,
            forall|i: nat| i < 8 && i != 4 ==> bit_of(final(self).raw_bits(), i) == bit_of(
                old(self).raw_bits(),
                i,
            ),
    {
        self.update_bit(4, value);
    }

    /// Sets the level of pin 5.
    pub fn update_d5(&mut self, value: bool)
        ensures
            final(self).enabled_mask() == old(self).enabled_mask(),
            bit_of(final(self).raw_bits(), 5) == value,
            forall|i: nat| i < 8 && i != 5 ==> bit_of(final(self).raw_bits(), i) == bit_of(
                old(self).raw_bits(),
                i,
            ),
    {
        self.update_bit(5, value);
    }

    /// Sets the level of pin 6.
    pub fn update_d6(&mut self, value: bool)
        ensures
            final(self).enabled_mask() == old(self).enabled_mask(),
            bit_of(final(self).raw_bits(), 6) == value,
            forall|i: nat| i < 8 && i != 6 ==> bit_of(final(self).raw_bits(), i) == bit_of(
                old(self).raw_bits(),
                i,
            ),
    {
        self.update_bit(6, value);
    }

    /// Sets the level of pin 7.
    pub fn update_d7(&mut self, value: bool)
        ensures
            final(self).enabled_mask() == old(self).enabled_mask(),
            bit_of(final(self).raw_bits(), 7) == value,
            forall|i: nat| i < 8 && i != 7 ==> bit_of(final(self).raw_bits(), i) == bit_of(
                old(self).raw_bits(),
                i,
            ),
    {
        self.update_bit(7, value);
    }

    /// Replaces the pin levels by the levels read from the eight pins, `levels[i]` for pin `i`.
    pub fn update_from_levels(&mut self, levels: [bool; 8])
        ensures
            final(self).enabled_mask() == old(self).enabled_mask(),
            forall|i: nat| i < 8 ==> bit_of(final(self).raw_bits(), i) == levels@[i as int],
    {
        let mut raw = 0u8;
        let mut i: u8 = 0;
        proof {
            assert forall|j: nat| j < 8 implies !bit_of(0u8, j) by {
                vstd::arithmetic::power2::lemma_pow2_pos(j);
            }
        }
        while i < 8
            invariant
                i <= 8,
                forall|j: nat| j < i ==> bit_of(raw, j) == levels@[j as int],
                forall|j: nat| i <= j < 8 ==> !bit_of(raw, j),
            decreases 8 - i,
        {
            let old_raw = raw;
            if levels[i as usize] {
                raw = raw | (1u8 << i);
                proof {
                    assert forall|j: nat| j < 8 implies bit_of(raw, j) == (j == i || bit_of(
                        old_raw,
                        j,
                    )) by {
                        lemma_set_bit(old_raw, i, j as u8);
                        lemma_shr_and_one_is_bit(raw, j as u8);
                        lemma_shr_and_one_is_bit(old_raw, j as u8);
                    }
                }
            }
            i += 1;
        }
        self.raw = raw;
    }
}

/// A read of a pin gives back the level last written to it while the pin is enabled, and
/// writing one pin leaves the reads of the others unchanged.
pub proof fn lemma_checked_after_update<const REG: usize>(
    before: ControlOutputReader<REG>,
    after: ControlOutputReader<REG>,
    pos: nat,
    value: bool,
)
    requires
        pos < 8,
        after.enabled_mask() == before.enabled_mask(),
        bit_of(after.raw_bits(), pos) == value,
        forall|i: nat| i < 8 && i != pos ==> bit_of(after.raw_bits(), i) == bit_of(
            before.raw_bits(),
            i,
        ),
    ensures
        bit_of(before.enabled_mask(), pos) ==> after.checked(pos) == Some(value),
        !bit_of(before.enabled_mask(), pos) ==> after.checked(pos) == None::<bool>,
        forall|i: nat| i < 8 && i != pos ==> after.checked(i) == before.checked(i),
{
}

/// Reader of the control output table entry 0x00.
pub type CtrlOutReader0x00 = ControlOutputReader<0x00>;
/// Reader of the control output table entry 0x01.
pub type CtrlOutReader0x01 = ControlOutputReader<0x01>;
/// Reader of the control output table entry 0x02.
pub type CtrlOutReader0x02 = ControlOutputReader<0x02>;
/// Reader of the control output table entry 0x03.
pub type CtrlOutReader0x03 = ControlOutputReader<0x03>;
/// Reader of the control output table entry 0x04.
pub type CtrlOutReader0x04 = ControlOutputReader<0x04>;
/// Reader of the control output table entry 0x05.
pub type CtrlOutReader0x05 = ControlOutputReader<0x05>;
/// Reader of the control output table entry 0x06.
pub type CtrlOutReader0x06 = ControlOutputReader<0x06>;
/// Reader of the control output table entry 0x07.
pub type CtrlOutReader0x07 = ControlOutputReader<0x07>;
/// Reader of the control output table entry 0x08.
pub type CtrlOutReader0x08 = ControlOutputReader<0x08>;
/// Reader of the control output table entry 0x09.
pub type CtrlOutReader0x09 = ControlOutputReader<0x09>;
/// Reader of the control output table entry 0x0A.
pub type CtrlOutReader0x0A = ControlOutputReader<0x0A>;
/// Reader of the control output table entry 0x0B.
pub type CtrlOutReader0x0B = ControlOutputReader<0x0B>;
/// Reader of the control output table entry 0x0C.
pub type CtrlOutReader0x0C = ControlOutputReader<0x0C>;
/// Reader of the control output table entry 0x0D.
pub type CtrlOutReader0x0D = ControlOutputReader<0x0D>;
/// Reader of the control output table entry 0x0E.
pub type CtrlOutReader0x0E = ControlOutputReader<0x0E>;
/// Reader of the control output table entry 0x0F.
pub type CtrlOutReader0x0F = ControlOutputReader<0x0F>;
/// Reader of the control output table entry 0x10.
pub type CtrlOutReader0x10 = ControlOutputReader<0x10>;
/// Reader of the control output table entry 0x11.
pub type CtrlOutReader0x11 = ControlOutputReader<0x11>;
/// Reader of the control output table entry 0x12.
pub type CtrlOutReader0x12 = ControlOutputReader<0x12>;
/// Reader of the control output table entry 0x13.
pub type CtrlOutReader0x13 = ControlOutputReader<0x13>;
/// Reader of the control output table entry 0x14.
pub type CtrlOutReader0x14 = ControlOutputReader<0x14>;
/// Reader of the control output table entry 0x15.
pub type CtrlOutReader0x15 = ControlOutputReader<0x15>;
/// Reader of the control output table entry 0x16.
pub type CtrlOutReader0x16 = ControlOutputReader<0x16>;
/// Reader of the control output table entry 0x17.
pub type CtrlOutReader0x17 = ControlOutputReader<0x17>;
/// Reader of the control output table entry 0x18.
pub type CtrlOutReader0x18 = ControlOutputReader<0x18>;
/// Reader of the control output table entry 0x19.
pub type CtrlOutReader0x19 = ControlOutputReader<0x19>;
/// Reader of the control output table entry 0x1A.
pub type CtrlOutReader0x1A = ControlOutputReader<0x1A>;
/// Reader of the control output table entry 0x1B.
pub type CtrlOutReader0x1B = ControlOutputReader<0x1B>;
/// Reader of the control output table entry 0x1C.
pub type CtrlOutReader0x1C = ControlOutputReader<0x1C>;
/// Reader of the control output table entry 0x1D.
pub type CtrlOutReader0x1D = ControlOutputReader<0x1D>;
/// Reader of the control output table entry 0x1E.
pub type CtrlOutReader0x1E = ControlOutputReader<0x1E>;
/// Reader of the control output table entry 0x1F.
pub type CtrlOutReader0x1F = ControlOutputReader<0x1F>;

impl ControlOutputReader<0x00> {
    /// Signal on bit 7 of this table entry, [`None`] while the pin is disabled.
    pub fn calibration_done(&self) -> (r: Option<bool>)
        ensures
            r == self.checked(7),
    {
        self.checked_bit(7)
    }

    /// Signal on bit 6 of this table entry, [`None`] while the pin is disabled.
    pub fn tx_cp_cal_done(&self) -> (r: Option<bool>)
        ensures
            r == self.checked(6),
    {
        self.checked_bit(6)
    }

    /// Signal on bit 5 of this table entry, [`None`] while the pin is disabled.
    pub fn rx_cp_cal_done(&self) -> (r: Option<bool>)
        ensures
            r == self.checked(5),
    {
        self.checked_bit(5)
    }

    /// Signal on bit 4 of this table entry, [`None`] while the pin is disabled.
    pub fn rx_bb_filter_tuning_done(&self) -> (r: Option<bool>)
        ensures
            r == self.checked(4),
    {
        self.checked_bit(4)
    }

    /// Signal on bit 3 of this table entry, [`None`] while the pin is disabled.
    pub fn tx_bb_filter_tuning_done(&self) -> (r: Option<bool>)
        ensures
            r == self.checked(3),
    {
        self.checked_bit(3)
    }

    /// Signal on bit 2 of this table entry, [`None`] while the pin is disabled.
    pub fn gain_step_cal_busy(&self) -> (r: Option<bool>)
        ensures
            r == self.checked(2),
    {
        self.checked_bit(2)
    }

    /// Signal on bit 1 of this table entry, [`None`] while the pin is disabled.
    pub fn rx_synth_vco_cal_busy(&self) -> (r: Option<bool>)
        ensures
            r == self.checked(1),
    {
        self.checked_bit(1)
    }

    /// Signal on bit 0 of this table entry, [`None`] while the pin is disabled.
    pub fn tx_synth_vco_cal_busy(&self) -> (r: Option<bool>)
        ensures
            r == self.checked(0),
    {
        self.checked_bit(0)
    }
}

impl ControlOutputReader<0x01> {
    /// Signal on bit 7 of this table entry, [`None`] while the pin is disabled.
    pub fn tx_rf_pll_lock(&self) -> (r: Option<bool>)
        ensures
            r == self.checked(7),
    {
        self.checked_bit(7)
    }

    /// Signal on bit 6 of this table entry, [`None`] while the pin is disabled.
    pub fn rx_rf_pll_lock(&self) -> (r: Option<bool>)
        ensures
            r == self.checked(6),
    {
        self.checked_bit(6)
    }

    /// Signal on bit 5 of this table entry, [`None`] while the pin is disabled.
    pub fn bbpll_lock(&self) -> (r: Option<bool>)
        ensures
            r == self.checked(5),
    {
        self.checked_bit(5)
    }
}

impl ControlOutputReader<0x02> {
    /// Signal on bit 7 of this table entry, [`None`] while the pin is disabled.
    pub fn bb_dc_cal_busy(&self) -> (r: Option<bool>)
        ensures
            r == self.checked(7),
    {
        self.checked_bit(7)
    }

    /// Signal on bit 6 of this table entry, [`None`] while the pin is disabled.
    pub fn rf_dc_cal_busy(&self) -> (r: Option<bool>)
        ensures
            r == self.checked(6),
    {
        self.checked_bit(6)
    }

    /// Signal on bit 5 of this table entry, [`None`] while the pin is disabled.
    pub fn ch1_rx_quad_cal_busy(&self) -> (r: Option<bool>)
        ensures
            r == self.checked(5),
    {
        self.checked_bit(5)
    }

    /// Signal on bit 4 of this table entry, [`None`] while the pin is disabled.
    pub fn ch1_tx_quad_cal_busy(&self) -> (r: Option<bool>)
        ensures
            r == self.checked(4),
    {
        self.checked_bit(4)
    }

    /// Signal on bit 3 of this table entry, [`None`] while the pin is disabled.
    pub fn ch2_rx_quad_cal_busy(&self) -> (r: Option<bool>)
        ensures
            r == self.checked(3),
    {
        self.checked_bit(3)
    }

    /// Signal on bit 2 of this table entry, [`None`] while the pin is disabled.
    pub fn ch2_tx_quad_cal_busy(&self) -> (r: Option<bool>)
        ensures
            r == self.checked(2),
    {
        self.checked_bit(2)
    }

    /// Signal on bit 1 of this table entry, [`None`] while the pin is disabled.
    pub fn gain_step_cal_busy(&self) -> (r: Option<bool>)
        ensures
            r == self.checked(1),
    {
        self.checked_bit(1)
    }

    /// Signal on bit 0 of this table entry, [`None`] while the pin is disabled.
    pub fn tx_mon_cal_busy(&self) -> (r: Option<bool>)
        ensures
            r == self.checked(0),
    {
        self.checked_bit(0)
    }
}

impl ControlOutputReader<0x03> {
    /// Signal on bit 7 of this table entry, [`None`] while the pin is disabled.
    pub fn ch1_adc_low_power(&self) -> (r: Option<bool>)
        ensures
            r == self.checked(7),
    {
        self.checked_bit(7)
    }

    /// Signal on bit 6 of this table entry, [`None`] while the pin is disabled.
    pub fn ch1_lg_lmt_ovrg(&self) -> (r: Option<bool>)
        ensures
            r == self.checked(6),
    {
        self.checked_bit(6)
    }

    /// Signal on bit 5 of this table entry, [`None`] while the pin is disabled.
    pub fn ch1_lg_adc_ovrg(&self) -> (r: Option<bool>)
        ensures
            r == self.checked(5),
    {
        self.checked_bit(5)
    }

    /// Signal on bit 4 of this table entry, [`None`] while the pin is disabled.
    pub fn ch1_sm_adc_ovrg(&self) -> (r: Option<bool>)
        ensures
            r == self.checked(4),
    {
        self.checked_bit(4)
    }

    /// Signal on bit 3 of this table entry, [`None`] while the pin is disabled.
    pub fn ch2_low_power(&self) -> (r: Option<bool>)
        ensures
            r == self.checked(3),
    {
        self.checked_bit(3)
    }

    /// Signal on bit 2 of this table entry, [`None`] while the pin is disabled.
    pub fn ch2_lg_lmt_ovrg(&self) -> (r: Option<bool>)
        ensures
            r == self.checked(2),
    {
        self.checked_bit(2)
    }

    /// Signal on bit 1 of this table entry, [`None`] while the pin is disabled.
    pub fn ch2_lg_adc_ovrg(&self) -> (r: Option<bool>)
        ensures
            r == self.checked(1),
    {
        self.checked_bit(1)
    }

    /// Signal on bit 0 of this table entry, [`None`] while the pin is disabled.
    pub fn ch2_sm_adc_ovrg(&self) -> (r: Option<bool>)
        ensures
            r == self.checked(0),
    {
        self.checked_bit(0)
    }
}

impl ControlOutputReader<0x04> {
    /// Signal on bit 7 of this table entry, [`None`] while the pin is disabled.
    pub fn ch2_rx_gain_6(&self) -> (r: Option<bool>)
        ensures
            r == self.checked(7),
    {
        self.checked_bit(7)
    }

    /// Signal on bit 6 of this table entry, [`None`] while the pin is disabled.
    pub fn ch2_rx_gain_5(&self) -> (r: Option<bool>)
        ensures
            r == self.checked(6),
    {
        self.checked_bit(6)
    }

    /// Signal on bit 5 of this table entry, [`None`] while the pin is disabled.
    pub fn ch2_rx_gain_4(&self) -> (r: Option<bool>)
        ensures
            r == self.checked(5),
    {
        self.checked_bit(5)
    }

    /// Signal on bit 4 of this table entry, [`None`] while the pin is disabled.
    pub fn ch2_rx_gain_3(&self) -> (r: Option<bool>)
        ensures
            r == self.checked(4),
    {
        self.checked_bit(4)
    }

    /// Signal on bit 3 of this table entry, [`None`] while the pin is disabled.
    pub fn ch2_rx_gain_2(&self) -> (r: Option<bool>)
        ensures
            r == self.checked(3),
    {
        self.checked_bit(3)
    }

    /// Signal on bit 2 of this table entry, [`None`] while the pin is disabled.
    pub fn ch2_lg_lmt_ovrg(&self) -> (r: Option<bool>)
        ensures
            r == self.checked(2),
    {
        self.checked_bit(2)
    }

    /// Signal on bit 1 of this table entry, [`None`] while the pin is disabled.
    pub fn ch2_lg_adc_ovrg(&self) -> (r: Option<bool>)
        ensures
            r == self.checked(1),
    {
        self.checked_bit(1)
    }

    /// Signal on bit 0 of this table entry, [`None`] while the pin is disabled.
    pub fn ch2_gain_lock(&self) -> (r: Option<bool>)
        ensures
            r == self.checked(0),
    {
        self.checked_bit(0)
    }
}

impl ControlOutputReader<0x05> {
    /// Signal on bit 7 of this table entry, [`None`] while the pin is disabled.
    pub fn ch2_gain_change(&self) -> (r: Option<bool>)
        ensures
            r == self.checked(7),
    {
        self.checked_bit(7)
    }

    /// Signal on bit 6 of this table entry, [`None`] while the pin is disabled.
    pub fn ch1_gain_change(&self) -> (r: Option<bool>)
        ensures
            r == self.checked(6),
    {
        self.checked_bit(6)
    }

    /// Signal on bit 5 of this table entry, [`None`] while the pin is disabled.
    pub fn ch2_low_power(&self) -> (r: Option<bool>)
        ensures
            r == self.checked(5),
    {
        self.checked_bit(5)
    }

    /// Signal on bit 4 of this table entry, [`None`] while the pin is disabled.
    pub fn ch2_lg_lmt_ovrg(&self) -> (r: Option<bool>)
        ensures
            r == self.checked(4),
    {
        self.checked_bit(4)
    }

    /// Signal on bit 3 of this table entry, [`None`] while the pin is disabled.
    pub fn ch2_lg_adc_ovrg(&self) -> (r: Option<bool>)
        ensures
            r == self.checked(3),
    {
        self.checked_bit(3)
    }

    /// Signal on bit 2 of this table entry, [`None`] while the pin is disabled.
    pub fn ch2_gain_lock(&self) -> (r: Option<bool>)
        ensures
            r == self.checked(2),
    {
        self.checked_bit(2)
    }

    /// Signal on bit 1 of this table entry, [`None`] while the pin is disabled.
    pub fn ch2_energy_lost(&self) -> (r: Option<bool>)
        ensures
            r == self.checked(1),
    {
        self.checked_bit(1)
    }

    /// Signal on bit 0 of this table entry, [`None`] while the pin is disabled.
    pub fn ch2_stronger_signal(&self) -> (r: Option<bool>)
        ensures
            r == self.checked(0),
    {
        self.checked_bit(0)
    }
}

impl ControlOutputReader<0x06> {
    /// Signal on bit 7 of this table entry, [`None`] while the pin is disabled.
    pub fn ch1_low_power(&self) -> (r: Option<bool>)
        ensures
            r == self.checked(7),
    {
        self.checked_bit(7)
    }

    /// Signal on bit 6 of this table entry, [`None`] while the pin is disabled.
    pub fn ch1_lg_lmt_ovrg(&self) -> (r: Option<bool>)
        ensures
            r == self.checked(6),
    {
        self.checked_bit(6)
    }

    /// Signal on bit 5 of this table entry, [`None`] while the pin is disabled.
    pub fn ch1_lg_adc_ovrg(&self) -> (r: Option<bool>)
        ensures
            r == self.checked(5),
    {
        self.checked_bit(5)
    }

    /// Signal on bit 4 of this table entry, [`None`] while the pin is disabled.
    pub fn ch1_rx_gain_6(&self) -> (r: Option<bool>)
        ensures
            r == self.checked(4),
    {
        self.checked_bit(4)
    }

    /// Signal on bit 3 of this table entry, [`None`] while the pin is disabled.
    pub fn ch1_rx_gain_5(&self) -> (r: Option<bool>)
        ensures
            r == self.checked(3),
    {
        self.checked_bit(3)
    }

    /// Signal on bit 2 of this table entry, [`None`] while the pin is disabled.
    pub fn ch1_rx_gain_4(&self) -> (r: Option<bool>)
        ensures
            r == self.checked(2),
    {
        self.checked_bit(2)
    }

    /// Signal on bit 1 of this table entry, [`None`] while the pin is disabled.
    pub fn ch1_rx_gain_3(&self) -> (r: Option<bool>)
        ensures
            r == self.checked(1),
    {
        self.checked_bit(1)
    }

    /// Signal on bit 0 of this table entry, [`None`] while the pin is disabled.
    pub fn ch1_rx_gain_2(&self) -> (r: Option<bool>)
        ensures
            r == self.checked(0),
    {
        self.checked_bit(0)
    }
}

impl ControlOutputReader<0x07> {
    /// Signal on bit 7 of this table entry, [`None`] while the pin is disabled.
    pub fn ch1_low_power(&self) -> (r: Option<bool>)
        ensures
            r == self.checked(7),
    {
        self.checked_bit(7)
    }

    /// Signal on bit 6 of this table entry, [`None`] while the pin is disabled.
    pub fn ch1_lg_lmt_ovrg(&self) -> (r: Option<bool>)
        ensures
            r == self.checked(6),
    {
        self.checked_bit(6)
    }

    /// Signal on bit 5 of this table entry, [`None`] while the pin is disabled.
    pub fn ch1_lg_adc_ovrg(&self) -> (r: Option<bool>)
        ensures
            r == self.checked(5),
    {
        self.checked_bit(5)
    }

    /// Signal on bit 4 of this table entry, [`None`] while the pin is disabled.
    pub fn ch1_sm_adc_ovrg(&self) -> (r: Option<bool>)
        ensures
            r == self.checked(4),
    {
        self.checked_bit(4)
    }

    /// Signal on bit 3 of this table entry, [`None`] while the pin is disabled.
    pub fn ch1_agc_sm_2(&self) -> (r: Option<bool>)
        ensures
            r == self.checked(3),
    {
        self.checked_bit(3)
    }

    /// Signal on bit 2 of this table entry, [`None`] while the pin is disabled.
    pub fn ch1_agc_sm_1(&self) -> (r: Option<bool>)
        ensures
            r == self.checked(2),
    {
        self.checked_bit(2)
    }

    /// Signal on bit 1 of this table entry, [`None`] while the pin is disabled.
    pub fn ch1_agc_sm_0(&self) -> (r: Option<bool>)
        ensures
            r == self.checked(1),
    {
        self.checked_bit(1)
    }

    /// Signal on bit 0 of this table entry, [`None`] while the pin is disabled.
    pub fn ch1_gain_lock(&self) -> (r: Option<bool>)
        ensures
            r == self.checked(0),
    {
        self.checked_bit(0)
    }
}

impl ControlOutputReader<0x08> {
    /// Signal on bit 7 of this table entry, [`None`] while the pin is disabled.
    pub fn ch1_stronger_signal(&self) -> (r: Option<bool>)
        ensures
            r == self.checked(7),
    {
        self.checked_bit(7)
    }

    /// Signal on bit 6 of this table entry, [`None`] while the pin is disabled.
    pub fn ch1_gain_lock(&self) -> (r: Option<bool>)
        ensures
            r == self.checked(6),
    {
        self.checked_bit(6)
    }

    /// Signal on bit 5 of this table entry, [`None`] while the pin is disabled.
    pub fn ch1_energy_lost(&self) -> (r: Option<bool>)
        ensures
            r == self.checked(5),
    {
        self.checked_bit(5)
    }

    /// Signal on bit 4 of this table entry, [`None`] while the pin is disabled.
    pub fn ch1_gain_change(&self) -> (r: Option<bool>)
        ensures
            r == self.checked(4),
    {
        self.checked_bit(4)
    }

    /// Signal on bit 3 of this table entry, [`None`] while the pin is disabled.
    pub fn ch2_stronger_signal(&self) -> (r: Option<bool>)
        ensures
            r == self.checked(3),
    {
        self.checked_bit(3)
    }

    /// Signal on bit 2 of this table entry, [`None`] while the pin is disabled.
    pub fn ch2_gain_lock(&self) -> (r: Option<bool>)
        ensures
            r == self.checked(2),
    {
        self.checked_bit(2)
    }

    /// Signal on bit 1 of this table entry, [`None`] while the pin is disabled.
    pub fn ch2_energy_lost(&self) -> (r: Option<bool>)
        ensures
            r == self.checked(1),
    {
        self.checked_bit(1)
    }

    /// Signal on bit 0 of this table entry, [`None`] while the pin is disabled.
    pub fn ch2_gain_change(&self) -> (r: Option<bool>)
        ensures
            r == self.checked(0),
    {
        self.checked_bit(0)
    }
}

impl ControlOutputReader<0x09> {
    /// Signal on bit 7 of this table entry, [`None`] while the pin is disabled.
    pub fn rx_on(&self) -> (r: Option<bool>)
        ensures
            r == self.checked(7),
    {
        self.checked_bit(7)
    }

    /// Signal on bit 6 of this table entry, [`None`] while the pin is disabled.
    pub fn ch1_rssi_preamble_ready(&self) -> (r: Option<bool>)
        ensures
            r == self.checked(6),
    {
        self.checked_bit(6)
    }

    /// Signal on bit 5 of this table entry, [`None`] while the pin is disabled.
    pub fn ch1_rssi_symbol_ready(&self) -> (r: Option<bool>)
        ensures
            r == self.checked(5),
    {
        self.checked_bit(5)
    }

    /// Signal on bit 4 of this table entry, [`None`] while the pin is disabled.
    pub fn tx_on(&self) -> (r: Option<bool>)
        ensures
            r == self.checked(4),
    {
        self.checked_bit(4)
    }

    /// Signal on bit 3 of this table entry, [`None`] while the pin is disabled.
    pub fn ch2_rssi_preamble_ready(&self) -> (r: Option<bool>)
        ensures
            r == self.checked(3),
    {
        self.checked_bit(3)
    }

    /// Signal on bit 2 of this table entry, [`None`] while the pin is disabled.
    pub fn ch2_rssi_symbol_ready(&self) -> (r: Option<bool>)
        ensures
            r == self.checked(2),
    {
        self.checked_bit(2)
    }
}

impl ControlOutputReader<0x0A> {
    /// Signal on bit 7 of this table entry, [`None`] while the pin is disabled.
    pub fn ch1_tx_int3_overflow(&self) -> (r: Option<bool>)
        ensures
            r == self.checked(7),
    {
        self.checked_bit(7)
    }

    /// Signal on bit 6 of this table entry, [`None`] while the pin is disabled.
    pub fn ch1_tx_hb3_overflow(&self) -> (r: Option<bool>)
        ensures
            r == self.checked(6),
    {
        self.checked_bit(6)
    }

    /// Signal on bit 5 of this table entry, [`None`] while the pin is disabled.
    pub fn ch1_tx_hb2_overflow(&self) -> (r: Option<bool>)
        ensures
            r == self.checked(5),
    {
        self.checked_bit(5)
    }

    /// Signal on bit 4 of this table entry, [`None`] while the pin is disabled.
    pub fn ch1_tx_qec_overflow(&self) -> (r: Option<bool>)
        ensures
            r == self.checked(4),
    {
        self.checked_bit(4)
    }

    /// Signal on bit 3 of this table entry, [`None`] while the pin is disabled.
    pub fn ch1_tx_hb1_overflow(&self) -> (r: Option<bool>)
        ensures
            r == self.checked(3),
    {
        self.checked_bit(3)
    }

    /// Signal on bit 2 of this table entry, [`None`] while the pin is disabled.
    pub fn ch1_tx_fir_overflow(&self) -> (r: Option<bool>)
        ensures
            r == self.checked(2),
    {
        self.checked_bit(2)
    }

    /// Signal on bit 1 of this table entry, [`None`] while the pin is disabled.
    pub fn ch1_rx_fir_overflow(&self) -> (r: Option<bool>)
        ensures
            r == self.checked(1),
    {
        self.checked_bit(1)
    }
}

impl ControlOutputReader<0x0B> {
    /// Signal on bit 7 of this table entry, [`None`] while the pin is disabled.
    pub fn cal_seq_state_3(&self) -> (r: Option<bool>)
        ensures
            r == self.checked(7),
    {
        self.checked_bit(7)
    }

    /// Signal on bit 6 of this table entry, [`None`] while the pin is disabled.
    pub fn cal_seq_state_2(&self) -> (r: Option<bool>)
        ensures
            r == self.checked(6),
    {
        self.checked_bit(6)
    }

    /// Signal on bit 5 of this table entry, [`None`] while the pin is disabled.
    pub fn cal_seq_state_1(&self) -> (r: Option<bool>)
        ensures
            r == self.checked(5),
    {
        self.checked_bit(5)
    }

    /// Signal on bit 4 of this table entry, [`None`] while the pin is disabled.
    pub fn cal_seq_state_0(&self) -> (r: Option<bool>)
        ensures
            r == self.checked(4),
    {
        self.checked_bit(4)
    }

    /// Signal on bit 3 of this table entry, [`None`] while the pin is disabled.
    pub fn ensm_3(&self) -> (r: Option<bool>)
        ensures
            r == self.checked(3),
    {
        self.checked_bit(3)
    }

    /// Signal on bit 2 of this table entry, [`None`] while the pin is disabled.
    pub fn ensm_2(&self) -> (r: Option<bool>)
        ensures
            r == self.checked(2),
    {
        self.checked_bit(2)
    }

    /// Signal on bit 1 of this table entry, [`None`] while the pin is disabled.
    pub fn ensm_1(&self) -> (r: Option<bool>)
        ensures
            r == self.checked(1),
    {
        self.checked_bit(1)
    }

    /// Signal on bit 0 of this table entry, [`None`] while the pin is disabled.
    pub fn ensm_0(&self) -> (r: Option<bool>)
        ensures
            r == self.checked(0),
    {
        self.checked_bit(0)
    }
}

impl ControlOutputReader<0x0C> {
    /// Signal on bit 7 of this table entry, [`None`] while the pin is disabled.
    pub fn ch1_energy_lost(&self) -> (r: Option<bool>)
        ensures
            r == self.checked(7),
    {
        self.checked_bit(7)
    }

    /// Signal on bit 6 of this table entry, [`None`] while the pin is disabled.
    pub fn ch1_reset_peak_detect(&self) -> (r: Option<bool>)
        ensures
            r == self.checked(6),
    {
        self.checked_bit(6)
    }

    /// Signal on bit 5 of this table entry, [`None`] while the pin is disabled.
    pub fn ch2_energy_lost(&self) -> (r: Option<bool>)
        ensures
            r == self.checked(5),
    {
        self.checked_bit(5)
    }

    /// Signal on bit 4 of this table entry, [`None`] while the pin is disabled.
    pub fn ch2_reset_peak_detect(&self) -> (r: Option<bool>)
        ensures
            r == self.checked(4),
    {
        self.checked_bit(4)
    }

    /// Signal on bit 3 of this table entry, [`None`] while the pin is disabled.
    pub fn gain_freeze(&self) -> (r: Option<bool>)
        ensures
            r == self.checked(3),
    {
        self.checked_bit(3)
    }

    /// Signal on bit 2 of this table entry, [`None`] while the pin is disabled.
    pub fn ch1_digital_sat(&self) -> (r: Option<bool>)
        ensures
            r == self.checked(2),
    {
        self.checked_bit(2)
    }

    /// Signal on bit 1 of this table entry, [`None`] while the pin is disabled.
    pub fn ch2_digital_sat(&self) -> (r: Option<bool>)
        ensures
            r == self.checked(1),
    {
        self.checked_bit(1)
    }
}

impl ControlOutputReader<0x0D> {
    /// Signal on bit 7 of this table entry, [`None`] while the pin is disabled.
    pub fn ch1_tx_quad_cal_status_1(&self) -> (r: Option<bool>)
        ensures
            r == self.checked(7),
    {
        self.checked_bit(7)
    }

    /// Signal on bit 6 of this table entry, [`None`] while the pin is disabled.
    pub fn ch1_tx_quad_cal_status_0(&self) -> (r: Option<bool>)
        ensures
            r == self.checked(6),
    {
        self.checked_bit(6)
    }

    /// Signal on bit 5 of this table entry, [`None`] while the pin is disabled.
    pub fn ch1_tx_quad_cal_done(&self) -> (r: Option<bool>)
        ensures
            r == self.checked(5),
    {
        self.checked_bit(5)
    }

    /// Signal on bit 4 of this table entry, [`None`] while the pin is disabled.
    pub fn rf_dc_cal_busy(&self) -> (r: Option<bool>)
        ensures
            r == self.checked(4),
    {
        self.checked_bit(4)
    }

    /// Signal on bit 3 of this table entry, [`None`] while the pin is disabled.
    pub fn ch2_tx_quad_cal_status_1(&self) -> (r: Option<bool>)
        ensures
            r == self.checked(3),
    {
        self.checked_bit(3)
    }

    /// Signal on bit 2 of this table entry, [`None`] while the pin is disabled.
    pub fn ch2_tx_quad_cal_status_0(&self) -> (r: Option<bool>)
        ensures
            r == self.checked(2),
    {
        self.checked_bit(2)
    }

    /// Signal on bit 1 of this table entry, [`None`] while the pin is disabled.
    pub fn ch2_tx_quad_cal_done(&self) -> (r: Option<bool>)
        ensures
            r == self.checked(1),
    {
        self.checked_bit(1)
    }
}

impl ControlOutputReader<0x0E> {
    /// Signal on bit 4 of this table entry, [`None`] while the pin is disabled.
    pub fn bb_dc_cal_busy(&self) -> (r: Option<bool>)
        ensures
            r == self.checked(4),
    {
        self.checked_bit(4)
    }
}

impl ControlOutputReader<0x0F> {
    /// Signal on bit 7 of this table entry, [`None`] while the pin is disabled.
    pub fn ch1_agc_state_2(&self) -> (r: Option<bool>)
        ensures
            r == self.checked(7),
    {
        self.checked_bit(7)
    }

    /// Signal on bit 6 of this table entry, [`None`] while the pin is disabled.
    pub fn ch1_agc_state_1(&self) -> (r: Option<bool>)
        ensures
            r == self.checked(6),
    {
        self.checked_bit(6)
    }

    /// Signal on bit 5 of this table entry, [`None`] while the pin is disabled.
    pub fn ch1_agc_state_0(&self) -> (r: Option<bool>)
        ensures
            r == self.checked(5),
    {
        self.checked_bit(5)
    }

    /// Signal on bit 4 of this table entry, [`None`] while the pin is disabled.
    pub fn ch1_reset_peak_detect(&self) -> (r: Option<bool>)
        ensures
            r == self.checked(4),
    {
        self.checked_bit(4)
    }

    /// Signal on bit 3 of this table entry, [`None`] while the pin is disabled.
    pub fn ch2_reset_peak_detect(&self) -> (r: Option<bool>)
        ensures
            r == self.checked(3),
    {
        self.checked_bit(3)
    }

    /// Signal on bit 2 of this table entry, [`None`] while the pin is disabled.
    pub fn ch1_rf_dc_cal_state_1(&self) -> (r: Option<bool>)
        ensures
            r == self.checked(2),
    {
        self.checked_bit(2)
    }

    /// Signal on bit 1 of this table entry, [`None`] while the pin is disabled.
    pub fn ch1_rf_dc_cal_state_0(&self) -> (r: Option<bool>)
        ensures
            r == self.checked(1),
    {
        self.checked_bit(1)
    }
}

impl ControlOutputReader<0x10> {
    /// Signal on bit 7 of this table entry, [`None`] while the pin is disabled.
    pub fn ch2_agc_state_2(&self) -> (r: Option<bool>)
        ensures
            r == self.checked(7),
    {
        self.checked_bit(7)
    }

    /// Signal on bit 6 of this table entry, [`None`] while the pin is disabled.
    pub fn ch2_agc_state_1(&self) -> (r: Option<bool>)
        ensures
            r == self.checked(6),
    {
        self.checked_bit(6)
    }

    /// Signal on bit 5 of this table entry, [`None`] while the pin is disabled.
    pub fn ch2_agc_state_0(&self) -> (r: Option<bool>)
        ensures
            r == self.checked(5),
    {
        self.checked_bit(5)
    }

    /// Signal on bit 4 of this table entry, [`None`] while the pin is disabled.
    pub fn ch2_enable_rssi(&self) -> (r: Option<bool>)
        ensures
            r == self.checked(4),
    {
        self.checked_bit(4)
    }

    /// Signal on bit 3 of this table entry, [`None`] while the pin is disabled.
    pub fn ch1_enable_rssi(&self) -> (r: Option<bool>)
        ensures
            r == self.checked(3),
    {
        self.checked_bit(3)
    }

    /// Signal on bit 2 of this table entry, [`None`] while the pin is disabled.
    pub fn ch2_rf_dc_cal_state_1(&self) -> (r: Option<bool>)
        ensures
            r == self.checked(2),
    {
        self.checked_bit(2)
    }

    /// Signal on bit 1 of this table entry, [`None`] while the pin is disabled.
    pub fn ch2_rf_dc_cal_state_0(&self) -> (r: Option<bool>)
        ensures
            r == self.checked(1),
    {
        self.checked_bit(1)
    }
}

impl ControlOutputReader<0x11> {
    /// Signal on bit 7 of this table entry, [`None`] while the pin is disabled.
    pub fn auxadc_output_11(&self) -> (r: Option<bool>)
        ensures
            r == self.checked(7),
    {
        self.checked_bit(7)
    }

    /// Signal on bit 6 of this table entry, [`None`] while the pin is disabled.
    pub fn auxadc_output_10(&self) -> (r: Option<bool>)
        ensures
            r == self.checked(6),
    {
        self.checked_bit(6)
    }

    /// Signal on bit 5 of this table entry, [`None`] while the pin is disabled.
    pub fn auxadc_output_9(&self) -> (r: Option<bool>)
        ensures
            r == self.checked(5),
    {
        self.checked_bit(5)
    }

    /// Signal on bit 4 of this table entry, [`None`] while the pin is disabled.
    pub fn auxadc_output_8(&self) -> (r: Option<bool>)
        ensures
            r == self.checked(4),
    {
        self.checked_bit(4)
    }

    /// Signal on bit 3 of this table entry, [`None`] while the pin is disabled.
    pub fn auxadc_output_7(&self) -> (r: Option<bool>)
        ensures
            r == self.checked(3),
    {
        self.checked_bit(3)
    }

    /// Signal on bit 2 of this table entry, [`None`] while the pin is disabled.
    pub fn auxadc_output_6(&self) -> (r: Option<bool>)
        ensures
            r == self.checked(2),
    {
        self.checked_bit(2)
    }

    /// Signal on bit 1 of this table entry, [`None`] while the pin is disabled.
    pub fn auxadc_output_5(&self) -> (r: Option<bool>)
        ensures
            r == self.checked(1),
    {
        self.checked_bit(1)
    }

    /// Signal on bit 0 of this table entry, [`None`] while the pin is disabled.
    pub fn auxadc_output_4(&self) -> (r: Option<bool>)
        ensures
            r == self.checked(0),
    {
        self.checked_bit(0)
    }
}

impl ControlOutputReader<0x12> {
    /// Signal on bit 7 of this table entry, [`None`] while the pin is disabled.
    pub fn ch1_filter_power_ready(&self) -> (r: Option<bool>)
        ensures
            r == self.checked(7),
    {
        self.checked_bit(7)
    }

    /// Signal on bit 6 of this table entry, [`None`] while the pin is disabled.
    pub fn ch1_gain_lock(&self) -> (r: Option<bool>)
        ensures
            r == self.checked(6),
    {
        self.checked_bit(6)
    }

    /// Signal on bit 5 of this table entry, [`None`] while the pin is disabled.
    pub fn ch1_energy_lost(&self) -> (r: Option<bool>)
        ensures
            r == self.checked(5),
    {
        self.checked_bit(5)
    }

    /// Signal on bit 4 of this table entry, [`None`] while the pin is disabled.
    pub fn ch1_stronger_signal(&self) -> (r: Option<bool>)
        ensures
            r == self.checked(4),
    {
        self.checked_bit(4)
    }

    /// Signal on bit 3 of this table entry, [`None`] while the pin is disabled.
    pub fn ch1_adc_power_ready(&self) -> (r: Option<bool>)
        ensures
            r == self.checked(3),
    {
        self.checked_bit(3)
    }

    /// Signal on bit 2 of this table entry, [`None`] while the pin is disabled.
    pub fn ch1_agc_state_2(&self) -> (r: Option<bool>)
        ensures
            r == self.checked(2),
    {
        self.checked_bit(2)
    }

    /// Signal on bit 1 of this table entry, [`None`] while the pin is disabled.
    pub fn ch1_agc_state_1(&self) -> (r: Option<bool>)
        ensures
            r == self.checked(1),
    {
        self.checked_bit(1)
    }

    /// Signal on bit 0 of this table entry, [`None`] while the pin is disabled.
    pub fn ch1_agc_state_0(&self) -> (r: Option<bool>)
        ensures
            r == self.checked(0),
    {
        self.checked_bit(0)
    }
}

impl ControlOutputReader<0x13> {
    /// Signal on bit 7 of this table entry, [`None`] while the pin is disabled.
    pub fn ch2_filter_power_ready(&self) -> (r: Option<bool>)
        ensures
            r == self.checked(7),
    {
        self.checked_bit(7)
    }

    /// Signal on bit 6 of this table entry, [`None`] while the pin is disabled.
    pub fn ch2_gain_lock(&self) -> (r: Option<bool>)
        ensures
            r == self.checked(6),
    {
        self.checked_bit(6)
    }

    /// Signal on bit 5 of this table entry, [`None`] while the pin is disabled.
    pub fn ch2_energy_lost(&self) -> (r: Option<bool>)
        ensures
            r == self.checked(5),
    {
        self.checked_bit(5)
    }

    /// Signal on bit 4 of this table entry, [`None`] while the pin is disabled.
    pub fn ch2_stronger_signal(&self) -> (r: Option<bool>)
        ensures
            r == self.checked(4),
    {
        self.checked_bit(4)
    }

    /// Signal on bit 3 of this table entry, [`None`] while the pin is disabled.
    pub fn ch2_adc_power_ready(&self) -> (r: Option<bool>)
        ensures
            r == self.checked(3),
    {
        self.checked_bit(3)
    }

    /// Signal on bit 2 of this table entry, [`None`] while the pin is disabled.
    pub fn ch2_agc_state_2(&self) -> (r: Option<bool>)
        ensures
            r == self.checked(2),
    {
        self.checked_bit(2)
    }

    /// Signal on bit 1 of this table entry, [`None`] while the pin is disabled.
    pub fn ch2_agc_state_1(&self) -> (r: Option<bool>)
        ensures
            r == self.checked(1),
    {
        self.checked_bit(1)
    }

    /// Signal on bit 0 of this table entry, [`None`] while the pin is disabled.
    pub fn ch2_agc_state_0(&self) -> (r: Option<bool>)
        ensures
            r == self.checked(0),
    {
        self.checked_bit(0)
    }
}

impl ControlOutputReader<0x14> {
    /// Signal on bit 7 of this table entry, [`None`] while the pin is disabled.
    pub fn ch2_tx_int3_overflow(&self) -> (r: Option<bool>)
        ensures
            r == self.checked(7),
    {
        self.checked_bit(7)
    }

    /// Signal on bit 6 of this table entry, [`None`] while the pin is disabled.
    pub fn ch2_tx_hb3_overflow(&self) -> (r: Option<bool>)
        ensures
            r == self.checked(6),
    {
        self.checked_bit(6)
    }

    /// Signal on bit 5 of this table entry, [`None`] while the pin is disabled.
    pub fn ch2_tx_hb2_overflow(&self) -> (r: Option<bool>)
        ensures
            r == self.checked(5),
    {
        self.checked_bit(5)
    }

    /// Signal on bit 4 of this table entry, [`None`] while the pin is disabled.
    pub fn ch2_tx_qec_overflow(&self) -> (r: Option<bool>)
        ensures
            r == self.checked(4),
    {
        self.checked_bit(4)
    }

    /// Signal on bit 3 of this table entry, [`None`] while the pin is disabled.
    pub fn ch2_tx_hb1_overflow(&self) -> (r: Option<bool>)
        ensures
            r == self.checked(3),
    {
        self.checked_bit(3)
    }

    /// Signal on bit 2 of this table entry, [`None`] while the pin is disabled.
    pub fn ch2_tx_fir_overflow(&self) -> (r: Option<bool>)
        ensures
            r == self.checked(2),
    {
        self.checked_bit(2)
    }

    /// Signal on bit 1 of this table entry, [`None`] while the pin is disabled.
    pub fn ch2_rx_fir_overflow(&self) -> (r: Option<bool>)
        ensures
            r == self.checked(1),
    {
        self.checked_bit(1)
    }
}

impl ControlOutputReader<0x15> {
    /// Signal on bit 7 of this table entry, [`None`] while the pin is disabled.
    pub fn ch1_soi_present(&self) -> (r: Option<bool>)
        ensures
            r == self.checked(7),
    {
        self.checked_bit(7)
    }

    /// Signal on bit 6 of this table entry, [`None`] while the pin is disabled.
    pub fn ch1_update_dcrf(&self) -> (r: Option<bool>)
        ensures
            r == self.checked(6),
    {
        self.checked_bit(6)
    }

    /// Signal on bit 5 of this table entry, [`None`] while the pin is disabled.
    pub fn ch1_measure_dcrf(&self) -> (r: Option<bool>)
        ensures
            r == self.checked(5),
    {
        self.checked_bit(5)
    }

    /// Signal on bit 4 of this table entry, [`None`] while the pin is disabled.
    pub fn ch1_dc_track_count_reached(&self) -> (r: Option<bool>)
        ensures
            r == self.checked(4),
    {
        self.checked_bit(4)
    }
}

impl ControlOutputReader<0x16> {
    /// Signal on bit 7 of this table entry, [`None`] while the pin is disabled.
    pub fn ch1_gain_lock(&self) -> (r: Option<bool>)
        ensures
            r == self.checked(7),
    {
        self.checked_bit(7)
    }

    /// Signal on bit 6 of this table entry, [`None`] while the pin is disabled.
    pub fn ch1_rx_gain_6(&self) -> (r: Option<bool>)
        ensures
            r == self.checked(6),
    {
        self.checked_bit(6)
    }

    /// Signal on bit 5 of this table entry, [`None`] while the pin is disabled.
    pub fn ch1_rx_gain_5(&self) -> (r: Option<bool>)
        ensures
            r == self.checked(5),
    {
        self.checked_bit(5)
    }

    /// Signal on bit 4 of this table entry, [`None`] while the pin is disabled.
    pub fn ch1_rx_gain_4(&self) -> (r: Option<bool>)
        ensures
            r == self.checked(4),
    {
        self.checked_bit(4)
    }

    /// Signal on bit 3 of this table entry, [`None`] while the pin is disabled.
    pub fn ch1_rx_gain_3(&self) -> (r: Option<bool>)
        ensures
            r == self.checked(3),
    {
        self.checked_bit(3)
    }

    /// Signal on bit 2 of this table entry, [`None`] while the pin is disabled.
    pub fn ch1_rx_gain_2(&self) -> (r: Option<bool>)
        ensures
            r == self.checked(2),
    {
        self.checked_bit(2)
    }

    /// Signal on bit 1 of this table entry, [`None`] while the pin is disabled.
    pub fn ch1_rx_gain_1(&self) -> (r: Option<bool>)
        ensures
            r == self.checked(1),
    {
        self.checked_bit(1)
    }

    /// Signal on bit 0 of this table entry, [`None`] while the pin is disabled.
    pub fn ch1_rx_gain_0(&self) -> (r: Option<bool>)
        ensures
            r == self.checked(0),
    {
        self.checked_bit(0)
    }
}

impl ControlOutputReader<0x17> {
    /// Signal on bit 7 of this table entry, [`None`] while the pin is disabled.
    pub fn ch2_gain_lock(&self) -> (r: Option<bool>)
        ensures
            r == self.checked(7),
    {
        self.checked_bit(7)
    }

    /// Signal on bit 6 of this table entry, [`None`] while the pin is disabled.
    pub fn ch2_rx_gain_6(&self) -> (r: Option<bool>)
        ensures
            r == self.checked(6),
    {
        self.checked_bit(6)
    }

    /// Signal on bit 5 of this table entry, [`None`] while the pin is disabled.
    pub fn ch2_rx_gain_5(&self) -> (r: Option<bool>)
        ensures
            r == self.checked(5),
    {
        self.checked_bit(5)
    }

    /// Signal on bit 4 of this table entry, [`None`] while the pin is disabled.
    pub fn ch2_rx_gain_4(&self) -> (r: Option<bool>)
        ensures
            r == self.checked(4),
    {
        self.checked_bit(4)
    }

    /// Signal on bit 3 of this table entry, [`None`] while the pin is disabled.
    pub fn ch2_rx_gain_3(&self) -> (r: Option<bool>)
        ensures
            r == self.checked(3),
    {
        self.checked_bit(3)
    }

    /// Signal on bit 2 of this table entry, [`None`] while the pin is disabled.
    pub fn ch2_rx_gain_2(&self) -> (r: Option<bool>)
        ensures
            r == self.checked(2),
    {
        self.checked_bit(2)
    }

    /// Signal on bit 1 of this table entry, [`None`] while the pin is disabled.
    pub fn ch2_rx_gain_1(&self) -> (r: Option<bool>)
        ensures
            r == self.checked(1),
    {
        self.checked_bit(1)
    }

    /// Signal on bit 0 of this table entry, [`None`] while the pin is disabled.
    pub fn ch2_rx_gain_0(&self) -> (r: Option<bool>)
        ensures
            r == self.checked(0),
    {
        self.checked_bit(0)
    }
}

impl ControlOutputReader<0x18> {
    /// Signal on bit 7 of this table entry, [`None`] while the pin is disabled.
    pub fn ch2_soi_present(&self) -> (r: Option<bool>)
        ensures
            r == self.checked(7),
    {
        self.checked_bit(7)
    }

    /// Signal on bit 6 of this table entry, [`None`] while the pin is disabled.
    pub fn ch2_update_dcrf(&self) -> (r: Option<bool>)
        ensures
            r == self.checked(6),
    {
        self.checked_bit(6)
    }

    /// Signal on bit 5 of this table entry, [`None`] while the pin is disabled.
    pub fn ch2_measure_dcrf(&self) -> (r: Option<bool>)
        ensures
            r == self.checked(5),
    {
        self.checked_bit(5)
    }

    /// Signal on bit 4 of this table entry, [`None`] while the pin is disabled.
    pub fn ch2_dc_track_count_reached(&self) -> (r: Option<bool>)
        ensures
            r == self.checked(4),
    {
        self.checked_bit(4)
    }

    /// Signal on bit 3 of this table entry, [`None`] while the pin is disabled.
    pub fn ch2_enable_dec_pwr(&self) -> (r: Option<bool>)
        ensures
            r == self.checked(3),
    {
        self.checked_bit(3)
    }

    /// Signal on bit 2 of this table entry, [`None`] while the pin is disabled.
    pub fn ch2_enable_adc_pwr(&self) -> (r: Option<bool>)
        ensures
            r == self.checked(2),
    {
        self.checked_bit(2)
    }

    /// Signal on bit 1 of this table entry, [`None`] while the pin is disabled.
    pub fn ch1_enable_dec_pwr(&self) -> (r: Option<bool>)
        ensures
            r == self.checked(1),
    {
        self.checked_bit(1)
    }

    /// Signal on bit 0 of this table entry, [`None`] while the pin is disabled.
    pub fn ch1_enable_adc_pwr(&self) -> (r: Option<bool>)
        ensures
            r == self.checked(0),
    {
        self.checked_bit(0)
    }
}

impl ControlOutputReader<0x19> {
    /// Signal on bit 7 of this table entry, [`None`] while the pin is disabled.
    pub fn rx_syn_cp_cal_3(&self) -> (r: Option<bool>)
        ensures
            r == self.checked(7),
    {
        self.checked_bit(7)
    }

    /// Signal on bit 6 of this table entry, [`None`] while the pin is disabled.
    pub fn rx_syn_cp_cal_2(&self) -> (r: Option<bool>)
        ensures
            r == self.checked(6),
    {
        self.checked_bit(6)
    }

    /// Signal on bit 5 of this table entry, [`None`] while the pin is disabled.
    pub fn rx_syn_cp_cal_1(&self) -> (r: Option<bool>)
        ensures
            r == self.checked(5),
    {
        self.checked_bit(5)
    }

    /// Signal on bit 4 of this table entry, [`None`] while the pin is disabled.
    pub fn rx_syn_cp_cal_0(&self) -> (r: Option<bool>)
        ensures
            r == self.checked(4),
    {
        self.checked_bit(4)
    }

    /// Signal on bit 3 of this table entry, [`None`] while the pin is disabled.
    pub fn tx_syn_cp_cal_3(&self) -> (r: Option<bool>)
        ensures
            r == self.checked(3),
    {
        self.checked_bit(3)
    }

    /// Signal on bit 2 of this table entry, [`None`] while the pin is disabled.
    pub fn tx_syn_cp_cal_2(&self) -> (r: Option<bool>)
        ensures
            r == self.checked(2),
    {
        self.checked_bit(2)
    }

    /// Signal on bit 1 of this table entry, [`None`] while the pin is disabled.
    pub fn tx_syn_cp_cal_1(&self) -> (r: Option<bool>)
        ensures
            r == self.checked(1),
    {
        self.checked_bit(1)
    }

    /// Signal on bit 0 of this table entry, [`None`] while the pin is disabled.
    pub fn tx_syn_cp_cal_0(&self) -> (r: Option<bool>)
        ensures
            r == self.checked(0),
    {
        self.checked_bit(0)
    }
}

impl ControlOutputReader<0x1A> {
    /// Signal on bit 7 of this table entry, [`None`] while the pin is disabled.
    pub fn rx_syn_vco_tuning_8(&self) -> (r: Option<bool>)
        ensures
            r == self.checked(7),
    {
        self.checked_bit(7)
    }

    /// Signal on bit 6 of this table entry, [`None`] while the pin is disabled.
    pub fn rx_synth_vco_alc_6(&self) -> (r: Option<bool>)
        ensures
            r == self.checked(6),
    {
        self.checked_bit(6)
    }

    /// Signal on bit 5 of this table entry, [`None`] while the pin is disabled.
    pub fn rx_synth_vco_alc_5(&self) -> (r: Option<bool>)
        ensures
            r == self.checked(5),
    {
        self.checked_bit(5)
    }

    /// Signal on bit 4 of this table entry, [`None`] while the pin is disabled.
    pub fn rx_synth_vco_alc_4(&self) -> (r: Option<bool>)
        ensures
            r == self.checked(4),
    {
        self.checked_bit(4)
    }

    /// Signal on bit 3 of this table entry, [`None`] while the pin is disabled.
    pub fn rx_synth_vco_alc_3(&self) -> (r: Option<bool>)
        ensures
            r == self.checked(3),
    {
        self.checked_bit(3)
    }

    /// Signal on bit 2 of this table entry, [`None`] while the pin is disabled.
    pub fn rx_synth_vco_alc_2(&self) -> (r: Option<bool>)
        ensures
            r == self.checked(2),
    {
        self.checked_bit(2)
    }

    /// Signal on bit 1 of this table entry, [`None`] while the pin is disabled.
    pub fn rx_synth_vco_alc_1(&self) -> (r: Option<bool>)
        ensures
            r == self.checked(1),
    {
        self.checked_bit(1)
    }

    /// Signal on bit 0 of this table entry, [`None`] while the pin is disabled.
    pub fn rx_synth_vco_alc_0(&self) -> (r: Option<bool>)
        ensures
            r == self.checked(0),
    {
        self.checked_bit(0)
    }
}

impl ControlOutputReader<0x1B> {
    /// Signal on bit 7 of this table entry, [`None`] while the pin is disabled.
    pub fn tx_syn_vco_tuning_8(&self) -> (r: Option<bool>)
        ensures
            r == self.checked(7),
    {
        self.checked_bit(7)
    }

    /// Signal on bit 6 of this table entry, [`None`] while the pin is disabled.
    pub fn tx_synth_vco_alc_6(&self) -> (r: Option<bool>)
        ensures
            r == self.checked(6),
    {
        self.checked_bit(6)
    }

    /// Signal on bit 5 of this table entry, [`None`] while the pin is disabled.
    pub fn tx_synth_vco_alc_5(&self) -> (r: Option<bool>)
        ensures
            r == self.checked(5),
    {
        self.checked_bit(5)
    }

    /// Signal on bit 4 of this table entry, [`None`] while the pin is disabled.
    pub fn tx_synth_vco_alc_4(&self) -> (r: Option<bool>)
        ensures
            r == self.checked(4),
    {
        self.checked_bit(4)
    }

    /// Signal on bit 3 of this table entry, [`None`] while the pin is disabled.
    pub fn tx_synth_vco_alc_3(&self) -> (r: Option<bool>)
        ensures
            r == self.checked(3),
    {
        self.checked_bit(3)
    }

    /// Signal on bit 2 of this table entry, [`None`] while the pin is disabled.
    pub fn tx_synth_vco_alc_2(&self) -> (r: Option<bool>)
        ensures
            r == self.checked(2),
    {
        self.checked_bit(2)
    }

    /// Signal on bit 1 of this table entry, [`None`] while the pin is disabled.
    pub fn tx_synth_vco_alc_1(&self) -> (r: Option<bool>)
        ensures
            r == self.checked(1),
    {
        self.checked_bit(1)
    }

    /// Signal on bit 0 of this table entry, [`None`] while the pin is disabled.
    pub fn tx_synth_vco_alc_0(&self) -> (r: Option<bool>)
        ensures
            r == self.checked(0),
    {
        self.checked_bit(0)
    }
}

impl ControlOutputReader<0x1C> {
    /// Signal on bit 7 of this table entry, [`None`] while the pin is disabled.
    pub fn rx_syn_vco_tuning_7(&self) -> (r: Option<bool>)
        ensures
            r == self.checked(7),
    {
        self.checked_bit(7)
    }

    /// Signal on bit 6 of this table entry, [`None`] while the pin is disabled.
    pub fn rx_syn_vco_tuning_6(&self) -> (r: Option<bool>)
        ensures
            r == self.checked(6),
    {
        self.checked_bit(6)
    }

    /// Signal on bit 5 of this table entry, [`None`] while the pin is disabled.
    pub fn rx_syn_vco_tuning_5(&self) -> (r: Option<bool>)
        ensures
            r == self.checked(5),
    {
        self.checked_bit(5)
    }

    /// Signal on bit 4 of this table entry, [`None`] while the pin is disabled.
    pub fn rx_syn_vco_tuning_4(&self) -> (r: Option<bool>)
        ensures
            r == self.checked(4),
    {
        self.checked_bit(4)
    }

    /// Signal on bit 3 of this table entry, [`None`] while the pin is disabled.
    pub fn rx_syn_vco_tuning_3(&self) -> (r: Option<bool>)
        ensures
            r == self.checked(3),
    {
        self.checked_bit(3)
    }

    /// Signal on bit 2 of this table entry, [`None`] while the pin is disabled.
    pub fn rx_syn_vco_tuning_2(&self) -> (r: Option<bool>)
        ensures
            r == self.checked(2),
    {
        self.checked_bit(2)
    }

    /// Signal on bit 1 of this table entry, [`None`] while the pin is disabled.
    pub fn rx_syn_vco_tuning_1(&self) -> (r: Option<bool>)
        ensures
            r == self.checked(1),
    {
        self.checked_bit(1)
    }

    /// Signal on bit 0 of this table entry, [`None`] while the pin is disabled.
    pub fn rx_syn_vco_tuning_0(&self) -> (r: Option<bool>)
        ensures
            r == self.checked(0),
    {
        self.checked_bit(0)
    }
}

impl ControlOutputReader<0x1D> {
    /// Signal on bit 7 of this table entry, [`None`] while the pin is disabled.
    pub fn tx_syn_vco_tuning_7(&self) -> (r: Option<bool>)
        ensures
            r == self.checked(7),
    {
        self.checked_bit(7)
    }

    /// Signal on bit 6 of this table entry, [`None`] while the pin is disabled.
    pub fn tx_syn_vco_tuning_6(&self) -> (r: Option<bool>)
        ensures
            r == self.checked(6),
    {
        self.checked_bit(6)
    }

    /// Signal on bit 5 of this table entry, [`None`] while the pin is disabled.
    pub fn tx_syn_vco_tuning_5(&self) -> (r: Option<bool>)
        ensures
            r == self.checked(5),
    {
        self.checked_bit(5)
    }

    /// Signal on bit 4 of this table entry, [`None`] while the pin is disabled.
    pub fn tx_syn_vco_tuning_4(&self) -> (r: Option<bool>)
        ensures
            r == self.checked(4),
    {
        self.checked_bit(4)
    }

    /// Signal on bit 3 of this table entry, [`None`] while the pin is disabled.
    pub fn tx_syn_vco_tuning_3(&self) -> (r: Option<bool>)
        ensures
            r == self.checked(3),
    {
        self.checked_bit(3)
    }

    /// Signal on bit 2 of this table entry, [`None`] while the pin is disabled.
    pub fn tx_syn_vco_tuning_2(&self) -> (r: Option<bool>)
        ensures
            r == self.checked(2),
    {
        self.checked_bit(2)
    }

    /// Signal on bit 1 of this table entry, [`None`] while the pin is disabled.
    pub fn tx_syn_vco_tuning_1(&self) -> (r: Option<bool>)
        ensures
            r == self.checked(1),
    {
        self.checked_bit(1)
    }

    /// Signal on bit 0 of this table entry, [`None`] while the pin is disabled.
    pub fn tx_syn_vco_tuning_0(&self) -> (r: Option<bool>)
        ensures
            r == self.checked(0),
    {
        self.checked_bit(0)
    }
}

impl ControlOutputReader<0x1E> {
    /// Signal on bit 7 of this table entry, [`None`] while the pin is disabled.
    pub fn ch1_low_thresh_exceeded(&self) -> (r: Option<bool>)
        ensures
            r == self.checked(7),
    {
        self.checked_bit(7)
    }

    /// Signal on bit 6 of this table entry, [`None`] while the pin is disabled.
    pub fn ch1_high_thresh_exceeded(&self) -> (r: Option<bool>)
        ensures
            r == self.checked(6),
    {
        self.checked_bit(6)
    }

    /// Signal on bit 5 of this table entry, [`None`] while the pin is disabled.
    pub fn ch1_gain_upd_count_exp(&self) -> (r: Option<bool>)
        ensures
            r == self.checked(5),
    {
        self.checked_bit(5)
    }

    /// Signal on bit 4 of this table entry, [`None`] while the pin is disabled.
    pub fn ch1_agc_state_1(&self) -> (r: Option<bool>)
        ensures
            r == self.checked(4),
    {
        self.checked_bit(4)
    }

    /// Signal on bit 3 of this table entry, [`None`] while the pin is disabled.
    pub fn ch1_agc_state_0(&self) -> (r: Option<bool>)
        ensures
            r == self.checked(3),
    {
        self.checked_bit(3)
    }

    /// Signal on bit 2 of this table entry, [`None`] while the pin is disabled.
    pub fn ch1_gain_change(&self) -> (r: Option<bool>)
        ensures
            r == self.checked(2),
    {
        self.checked_bit(2)
    }

    /// Signal on bit 1 of this table entry, [`None`] while the pin is disabled.
    pub fn temp_sense_valid(&self) -> (r: Option<bool>)
        ensures
            r == self.checked(1),
    {
        self.checked_bit(1)
    }

    /// Signal on bit 0 of this table entry, [`None`] while the pin is disabled.
    pub fn auxadc_valid(&self) -> (r: Option<bool>)
        ensures
            r == self.checked(0),
    {
        self.checked_bit(0)
    }
}

impl ControlOutputReader<0x1F> {
    /// Signal on bit 7 of this table entry, [`None`] while the pin is disabled.
    pub fn ch2_low_thresh_exceeded(&self) -> (r: Option<bool>)
        ensures
            r == self.checked(7),
    {
        self.checked_bit(7)
    }

    /// Signal on bit 6 of this table entry, [`None`] while the pin is disabled.
    pub fn ch2_high_thresh_exceeded(&self) -> (r: Option<bool>)
        ensures
            r == self.checked(6),
    {
        self.checked_bit(6)
    }

    /// Signal on bit 5 of this table entry, [`None`] while the pin is disabled.
    pub fn ch2_gain_upd_count_exp(&self) -> (r: Option<bool>)
        ensures
            r == self.checked(5),
    {
        self.checked_bit(5)
    }

    /// Signal on bit 4 of this table entry, [`None`] while the pin is disabled.
    pub fn ch2_agc_sm_1(&self) -> (r: Option<bool>)
        ensures
            r == self.checked(4),
    {
        self.checked_bit(4)
    }

    /// Signal on bit 3 of this table entry, [`None`] while the pin is disabled.
    pub fn ch2_agc_sm_0(&self) -> (r: Option<bool>)
        ensures
            r == self.checked(3),
    {
        self.checked_bit(3)
    }

    /// Signal on bit 2 of this table entry, [`None`] while the pin is disabled.
    pub fn ch2_gain_change(&self) -> (r: Option<bool>)
        ensures
            r == self.checked(2),
    {
        self.checked_bit(2)
    }
}

} // verus!
