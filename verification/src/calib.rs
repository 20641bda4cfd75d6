//! Register values computed during bring-up, calibration and operation: rounding helpers, the
//! temperature and attenuation conversions, the auxiliary DAC words, the baseband filter tuning
//! values, the RSSI measurement setup, the RX ADC setup and the decisions of the TX quadrature
//! calibration.
use vstd::arithmetic::power2::pow2;
use vstd::prelude::*;

use crate::bits::{field8, lemma_field_bounds, set_field, set_flag, with_field8};
use crate::config::{
    AuxAdcConfig, GainControl, GainControlAutoConfig, GainControlFastAutoConfig, RxGainTableType,
    SplitTableManualMode, RssiConfig, RssiRestartMode, TemporalConfig, TransceiverChannelMode,
    TxMonConfigParams,
};
use crate::driver::{find_longest_success_window, first_longest_window, InitError};
use crate::regs::auxdac_config::Vref;
use crate::regs::{ClockScaler, Register};
use crate::regs::state as regs_state;
use crate::clocks::{
    BbPllConfig, ClockConfig, LocalOscClockConfig, PllVcoDivider, RfPllConfig, RxConfig, TxConfig,
};
use crate::config::{external_clock_reg, DigitalInterfaceConfig, ExternalClockConfig};
use crate::regs;
use crate::regs::{AdcDivisor, ClkOutMode};
use crate::config::{RxRfPathConfig, TxRfPathConfig};
use crate::config::{
    DivisionDuplexConfig, ExternalLnaConfig, FirChSelect, GpoConfig, RxFirConfig,
    TxFirConfig,
};
use crate::types::ReceiverId;
use crate::regs::agc_config_1::gain_control_setup;
use crate::types::{FastAgcTargetGainIndexType, GainControlMode, RxPhaseConfig, TransmitterId};

verus! {


/// `a / b` rounded to the nearest integer, halves rounded up (for even `b`).
pub open spec fn div_round(a: int, b: int) -> int {
    (a + b / 2) / b
}

/// `a / b` rounded up.
pub open spec fn div_ceil(a: int, b: int) -> int {
    (a + b - 1) / b
}

/// `x` limited to `lo ..= hi`.
pub open spec fn clamp(x: int, lo: int, hi: int) -> int {
    if x < lo {
        lo
    } else if x > hi {
        hi
    } else {
        x
    }
}

/// The smaller of `a` and `b`.
pub open spec fn min(a: int, b: int) -> int {
    if a < b {
        a
    } else {
        b
    }
}

/// `a / b` rounded to the nearest integer.
pub fn div_round_u32(a: u32, b: u32) -> (r: u32)
    requires
        b > 0,
        a + b / 2 <= u32::MAX,
    ensures
        r == div_round(a as int, b as int),
{
    (a + b / 2) / b
}

/// `a / b` rounded to the nearest integer.
pub fn div_round_u64(a: u64, b: u64) -> (r: u64)
    requires
        b > 0,
        a + b / 2 <= u64::MAX,
    ensures
        r == div_round(a as int, b as int),
{
    (a + b / 2) / b
}

/// `a / b` rounded up.
fn div_ceil_u64(a: u64, b: u64) -> (r: u64)
    requires
        b > 0,
    ensures
        r == div_ceil(a as int, b as int),
{
    let q = a / b;
    if a % b == 0 {
        proof {
            assert(div_ceil(a as int, b as int) == q) by (nonlinear_arith)
                requires
                    b > 0,
                    q == a / b,
                    a % b == 0,
            ;
        }
        q
    } else {
        proof {
            assert(div_ceil(a as int, b as int) == q + 1) by (nonlinear_arith)
                requires
                    b > 0,
                    q == a / b,
                    a % b != 0,
            ;
            assert(b >= 2);
            assert(q <= a / 2) by (nonlinear_arith)
                requires
                    b >= 2,
                    q == a / b,
            ;
        }
        q + 1
    }
}

// ---------------------------------------------------------------------------------------------
// Temperature sensor.
// ---------------------------------------------------------------------------------------------
/// Die temperature in millidegrees Celsius for a raw temperature register value: the raw code
/// scaled by `1_000_000 / 1140`, rounded to the nearest integer.
pub open spec fn temperature_from_raw(raw: u8) -> int {
    (raw * 1_000_000 + 570) / 1140
}

/// Converts a raw temperature register value to millidegrees Celsius.
pub fn temperature_millicelsius(raw: u8) -> (r: i32)
    ensures
        r == temperature_from_raw(raw),
{
    let v: i64 = ((raw as i64) * 1_000_000 + 570) / 1140;
    assert(0 <= v <= 223685);
    v as i32
}

// ---------------------------------------------------------------------------------------------
// TX attenuation.
// ---------------------------------------------------------------------------------------------
/// Attenuation written while TX is muted, in milli-dB.
pub const TX_MUTE_ATTENUATION_MDB: u32 = 89750;

/// The 16 bit attenuation code for an attenuation in milli-dB, in steps of 0.25 dB. Codes above
/// 16 bits are truncated, as the register write does.
pub open spec fn tx_atten_code(atten_md_b: u32) -> u16 {
    (atten_md_b / 250) as u16
}

/// Attenuation in milli-dB of a code read back from the two attenuation registers.
pub open spec fn tx_atten_from_code(msb: u8, lsb: u8) -> int {
    (msb * 256 + lsb) * 250
}

/// The bytes written to the attenuation registers `TxNAtten1` (high byte) and `TxNAtten0`
/// (low byte) for an attenuation in milli-dB.
pub fn tx_atten_code_bytes(atten_md_b: u32) -> (r: (u8, u8))
    ensures
        r.0 == tx_atten_code(atten_md_b) / 256,
        r.1 == tx_atten_code(atten_md_b) % 256,
{
    let code = (atten_md_b / 250) as u16;
    assert(code >> 8u16 == code / 256) by (bit_vector);
    assert(code & 0xffu16 == code % 256) by (bit_vector);
    ((code >> 8) as u8, (code & 0xff) as u8)
}

/// The attenuation in milli-dB that the bytes read back from `TxNAtten1` (high byte) and
/// `TxNAtten0` (low byte) stand for.
pub fn tx_atten_from_bytes(msb: u8, lsb: u8) -> (r: u32)
    ensures
        r == tx_atten_from_code(msb, lsb),
{
    let m = msb as u32;
    let l = lsb as u32;
    assert((m << 8u32) | l == m * 256 + l) by (bit_vector)
        requires
            m < 256,
            l < 256,
    ;
    ((m << 8) | l) * 250
}

/// Writing back the attenuation that was read from the registers writes the very bytes that
/// were read: unmuting TX restores the attenuation that was active before muting.
pub proof fn lemma_tx_atten_restore(msb: u8, lsb: u8)
    ensures
        tx_atten_from_code(msb, lsb) <= u32::MAX,
        tx_atten_code(tx_atten_from_code(msb, lsb) as u32) / 256 == msb,
        tx_atten_code(tx_atten_from_code(msb, lsb) as u32) % 256 == lsb,
{
    let a = tx_atten_from_code(msb, lsb);
    assert(a / 250 == msb * 256 + lsb);
    let c = (msb * 256 + lsb) as u32;
    assert(c < 65536);
    assert((c as u16) == c) by (bit_vector)
        requires
            c < 65536,
    ;
}

/// An attenuation written and read back is the attenuation rounded down to a multiple of
/// 0.25 dB, as long as its code fits in 16 bits.
pub proof fn lemma_tx_atten_roundtrip(atten_md_b: u32)
    requires
        atten_md_b / 250 < 65536,
    ensures
        tx_atten_from_code(
            (tx_atten_code(atten_md_b) / 256) as u8,
            (tx_atten_code(atten_md_b) % 256) as u8,
        ) == (atten_md_b / 250) * 250,
{
    let c = (atten_md_b / 250) as u32;
    assert((c as u16) == c) by (bit_vector)
        requires
            c < 65536,
    ;
    assert(tx_atten_code(atten_md_b) == c);
}

// ---------------------------------------------------------------------------------------------
// Auxiliary DACs.
// ---------------------------------------------------------------------------------------------
/// Output voltage in millivolts that the auxiliary DAC setup works with: at least 306 mV.
pub open spec fn aux_dac_output_mv(value_mv: u32) -> int {
    if value_mv < 306 {
        306
    } else {
        value_mv as int
    }
}

/// Whether the 1 V reference is used for an output voltage (else the 2.5 V one).
pub open spec fn aux_dac_uses_1v_ref(value_mv: u32) -> bool {
    aux_dac_output_mv(value_mv) < 1888
}

/// The 10 bit DAC word for an output voltage in millivolts.
pub open spec fn aux_dac_word(value_mv: u32) -> int {
    let v = aux_dac_output_mv(value_mv);
    let w = if v < 1888 {
        (v - 306) * 1000 / 1469
    } else {
        (v - 1761) * 1000 / 1512
    };
    clamp(w, 0, 1023)
}

/// Register values of one auxiliary DAC.
#[derive(Debug, Clone, Copy, PartialEq, Eq, Structural)]
pub struct AuxDacSetting {
    /// Upper 8 bits of the DAC word, for `AuxdacNWord`.
    pub word_msb: u8,
    /// The `AuxdacNConfig` register: reference voltage and the lower 2 bits of the DAC word.
    pub config: u8,
    /// The output voltage in millivolts that was set, truncated to 16 bits.
    pub value_mv: u16,
}

/// Computes the register values of an auxiliary DAC for an output voltage in millivolts. The
/// voltage is raised to at least 306 mV; below 1888 mV the 1 V reference is used, else the 2.5 V
/// one.
pub fn aux_dac_setting(value_mv: u32) -> (r: AuxDacSetting)
    requires
        value_mv <= 4_296_728,
    ensures
        r.word_msb == aux_dac_word(value_mv) / 4,
        r.config == (if aux_dac_uses_1v_ref(value_mv) {
            Vref::_1V
        } else {
            Vref::_2_5V
        }).raw() * 4 + aux_dac_word(value_mv) % 4,
        r.value_mv == (aux_dac_output_mv(value_mv) as u32) as u16,
{
    let val_mv = if value_mv < 306 {
        306
    } else {
        value_mv
    };
    let vref;
    let mut val: u32;
    if val_mv < 1888 {
        val = ((val_mv - 306) * 1000) / 1469;
        vref = Vref::_1V;
    } else {
        val = ((val_mv - 1761) * 1000) / 1512;
        vref = Vref::_2_5V;
    }
    if val > 1023 {
        val = 1023;
    }
    assert(val >> 2u32 == val / 4) by (bit_vector);
    assert(val & 3u32 == val % 4) by (bit_vector);
    let low = (val & 0b11) as u8;
    let vr = vref.raw_value();
    assert((vr << 2u8) | low == vr * 4 + low) by (bit_vector)
        requires
            vr < 4,
            low < 4,
    ;
    AuxDacSetting { word_msb: (val >> 2) as u8, config: (vr << 2) | low, value_mv: val_mv as u16 }
}

// ---------------------------------------------------------------------------------------------
// Baseband filter tuning.
// ---------------------------------------------------------------------------------------------
/// RX baseband bandwidth used for the filter tuning: limited to 200 kHz ..= 28 MHz.
pub open spec fn rx_bb_tune_bw(rx_bb_bw: u32) -> int {
    clamp(rx_bb_bw as int, 200_000, 28_000_000)
}

/// The RX baseband filter tune divider: the BB PLL clock over `126906 * (bw / 10 kHz)`,
/// rounded up and limited to 511.
pub open spec fn rx_bb_tune_divider(rx_bb_bw: u32, bbpll_freq: u32) -> int {
    min(div_ceil(bbpll_freq as int, 126_906 * (rx_bb_tune_bw(rx_bb_bw) / 10_000)), 511)
}

/// The RX baseband filter is tuned for the requested bandwidth when it lies in the chip's RX
/// baseband range of 200 kHz ..= 28 MHz, and for the nearer end of that range otherwise.
pub proof fn lemma_rx_bb_tune_bandwidth(rx_bb_bw: u32)
    ensures
        200_000 <= rx_bb_bw <= 28_000_000 ==> rx_bb_tune_bw(rx_bb_bw) == rx_bb_bw,
        rx_bb_bw < 200_000 ==> rx_bb_tune_bw(rx_bb_bw) == 200_000,
        rx_bb_bw > 28_000_000 ==> rx_bb_tune_bw(rx_bb_bw) == 28_000_000,
        200_000 <= rx_bb_tune_bw(rx_bb_bw) <= 28_000_000,
{
}

/// Register values of the RX baseband filter tuning.
#[derive(Debug, Clone, Copy, PartialEq, Eq, Structural)]
pub struct RxBbFilterTune {
    /// The 9 bit tune divider: low 8 bits go to `RxBbfTuneDivide`, bit 8 to the
    /// `rx_bbf_tune_divide_msb` bit of `RxBbfTuneConfig`.
    pub divider: u32,
    /// Whole megahertz of the bandwidth, for `RxBbbwMhz`.
    pub bw_mhz: u8,
    /// Remaining kilohertz of the bandwidth in steps of 1/128 MHz, for `RxBbbwKhz`.
    pub bw_khz: u8,
}

/// Computes the RX baseband filter tuning values for a bandwidth and the BB PLL clock.
pub fn rx_bb_filter_tune(rx_bb_bw: u32, bbpll_freq: u32) -> (r: RxBbFilterTune)
    ensures
        r.divider == rx_bb_tune_divider(rx_bb_bw, bbpll_freq),
        r.bw_mhz == rx_bb_tune_bw(rx_bb_bw) / 1_000_000,
        r.bw_khz == min(div_round((rx_bb_tune_bw(rx_bb_bw) % 1_000_000) * 128, 1_000_000), 127),
        200_000 <= rx_bb_bw <= 28_000_000 ==> r.bw_mhz == rx_bb_bw / 1_000_000 && r.bw_khz == min(
            ((rx_bb_bw % 1_000_000) * 128 + 500_000) / 1_000_000,
            127,
        ),
        rx_bb_bw > 28_000_000 ==> r.bw_mhz == 28 && r.bw_khz == 0,
        rx_bb_bw < 200_000 ==> r.bw_mhz == 0 && r.bw_khz == 26,
{
    let bw: u32 = if rx_bb_bw < 200_000 {
        200_000
    } else if rx_bb_bw > 28_000_000 {
        28_000_000
    } else {
        rx_bb_bw
    };
    let target: u64 = 126_906u64 * (bw as u64 / 10_000);
    let d = div_ceil_u64(bbpll_freq as u64, target);
    let divider: u32 = if d < 511 {
        d as u32
    } else {
        511
    };
    let khz = div_round_u32((bw % 1_000_000) * 128, 1_000_000);
    RxBbFilterTune {
        divider,
        bw_mhz: (bw / 1_000_000) as u8,
        bw_khz: if khz < 127 {
            khz as u8
        } else {
            127
        },
    }
}

/// TX baseband bandwidth used for the filter tuning: limited to 625 kHz ..= 20 MHz.
pub open spec fn tx_bb_tune_bw(tx_bb_bw: u32) -> int {
    clamp(tx_bb_bw as int, 625_000, 20_000_000)
}

/// The TX baseband filter tune divider: the BB PLL clock over `145036 * (bw / 10 kHz)`,
/// rounded up and limited to 511. The low 8 bits go to `TxBbfTuneDivider`, bit 8 to the
/// `tx_bbf_tune_divider_msb` bit of `TxBbfTuneMode`.
pub fn tx_bb_filter_divider(tx_bb_bw: u32, bbpll_freq: u32) -> (r: u16)
    ensures
        r == min(div_ceil(bbpll_freq as int, 145_036 * (tx_bb_tune_bw(tx_bb_bw) / 10_000)), 511),
{
    let bw: u32 = if tx_bb_bw < 625_000 {
        625_000
    } else if tx_bb_bw > 20_000_000 {
        20_000_000
    } else {
        tx_bb_bw
    };
    let target: u64 = 145_036u64 * (bw as u64 / 10_000);
    let d = div_ceil_u64(bbpll_freq as u64, target);
    if d < 511 {
        d as u16
    } else {
        511
    }
}

/// Feedback capacitance of the RX TIA in femtofarad, from the RX baseband filter's
/// `RxBbfC3Msb`, `RxBbfC3Lsb` and `RxBbfR2346` registers.
pub open spec fn rx_tia_ctia_ff(c3_msb: u8, c3_lsb: u8, r2346: u8) -> int {
    (c3_msb * 160 + c3_lsb * 10 + 140) * (18_300 * (r2346 as int % 8)) * 560 / 3_500_000
}

/// Register values of the RX TIA calibration.
#[derive(Debug, Clone, Copy, PartialEq, Eq, Structural)]
pub struct RxTiaSettings {
    /// `RxTiaConfig`.
    pub config: u8,
    /// `Tia1CLsb`.
    pub tia1_c_lsb: u8,
    /// `Tia1CMsb`.
    pub tia1_c_msb: u8,
    /// `Tia2CLsb`.
    pub tia2_c_lsb: u8,
    /// `Tia2CMsb`.
    pub tia2_c_msb: u8,
}

/// Computes the RX TIA register values from the RX baseband filter registers and the baseband
/// bandwidth (limited to 200 kHz ..= 20 MHz).
pub fn rx_tia_settings(c3_msb: u8, c3_lsb: u8, r2346: u8, bb_bw_hz: u32) -> (r: RxTiaSettings)
    ensures
        ({
            let bw = clamp(bb_bw_hz as int, 200_000, 20_000_000);
            r.config == (if bw <= 3_000_000 {
                0xE0int
            } else if bw <= 10_000_000 {
                0x60int
            } else {
                0x20int
            })
        }),
        ({
            let c = rx_tia_ctia_ff(c3_msb, c3_lsb, r2346);
            if c > 2920 {
                let t = min(div_round(c - 400, 320), 127);
                r.tia1_c_lsb == 0x40 && r.tia2_c_lsb == 0x40 && r.tia1_c_msb == t && r.tia2_c_msb
                    == t
            } else {
                let t = min(div_round(if c > 400 { c - 400 } else { 0 }, 40) + 0x40, 255);
                r.tia1_c_lsb == t && r.tia2_c_lsb == t && r.tia1_c_msb == 0 && r.tia2_c_msb == 0
            }
        }),
{
    let bw: u32 = if bb_bw_hz < 200_000 {
        200_000
    } else if bb_bw_hz > 20_000_000 {
        20_000_000
    } else {
        bb_bw_hz
    };
    let cbbf: u64 = (c3_msb as u64 * 160) + (c3_lsb as u64 * 10) + 140;
    let r7 = r2346 & 0x07;
    assert(r2346 & 0x07u8 == r2346 % 8) by (bit_vector);
    let r: u64 = 18300u64 * r7 as u64;
    assert(cbbf * r <= 43490 * 128100) by (nonlinear_arith)
        requires
            cbbf <= 43490,
            r <= 128100,
    ;
    let p = cbbf * r;
    let ctia_ff: u64 = p * 560 / 3_500_000;
    assert(ctia_ff <= 891_372) by (nonlinear_arith)
        requires
            p <= 43490 * 128100,
            ctia_ff == p * 560 / 3_500_000,
    ;
    let config: u8 = if bw <= 3_000_000 {
        0xE0
    } else if bw <= 10_000_000 {
        0x60
    } else {
        0x20
    };
    if ctia_ff > 2920 {
        let t = div_round_u32((ctia_ff - 400) as u32, 320);
        let t: u8 = if t < 127 {
            t as u8
        } else {
            127
        };
        RxTiaSettings {
            config,
            tia1_c_lsb: 0x40,
            tia1_c_msb: t,
            tia2_c_lsb: 0x40,
            tia2_c_msb: t,
        }
    } else {
        let d: u32 = if ctia_ff > 400 {
            (ctia_ff - 400) as u32
        } else {
            0
        };
        let t = div_round_u32(d, 40) + 0x40;
        let t: u8 = if t < 255 {
            t as u8
        } else {
            255
        };
        RxTiaSettings { config, tia1_c_lsb: t, tia1_c_msb: 0, tia2_c_lsb: t, tia2_c_msb: 0 }
    }
}

/// Capacitor code of the TX second baseband filter for a corner value and a resistor factor.
pub open spec fn tx2_filter_cap(corner: int, res: int) -> int {
    let c = (500_000_000 + corner * res / 2) / (corner * res);
    if c > 12 {
        c - 12
    } else {
        0
    }
}

/// Corner value of the TX second baseband filter: `15708 * (bw / 10 kHz)`, with the bandwidth
/// limited to 530 kHz ..= 20 MHz.
pub open spec fn tx2_filter_corner(tx_bb_bw: u32) -> int {
    15_708 * (clamp(tx_bb_bw as int, 530_000, 20_000_000) / 10_000)
}

/// The resistor factor of the TX second baseband filter: the first of 1, 2, 4, 8 whose
/// capacitor code is below 64, else 16 (with the capacitor code of 8).
pub open spec fn tx2_filter_res(corner: int) -> int {
    if tx2_filter_cap(corner, 1) < 64 {
        1
    } else if tx2_filter_cap(corner, 2) < 64 {
        2
    } else if tx2_filter_cap(corner, 4) < 64 {
        4
    } else if tx2_filter_cap(corner, 8) < 64 {
        8
    } else {
        16
    }
}

/// Register values of the TX second baseband filter.
#[derive(Debug, Clone, Copy, PartialEq, Eq, Structural)]
pub struct TxSecondFilterSettings {
    /// `Config0`.
    pub config: u8,
    /// `Resistor`.
    pub resistor: u8,
    /// `Capacitor`, at most 63.
    pub capacitor: u8,
}

fn tx2_filter_cap_exec(corner: u64, res: u64) -> (r: u64)
    requires
        1 <= corner <= 31_416_000,
        1 <= res <= 8,
    ensures
        r == tx2_filter_cap(corner as int, res as int),
{
    assert(corner * res <= 31_416_000 * 8) by (nonlinear_arith)
        requires
            corner <= 31_416_000,
            res <= 8,
    ;
    assert(corner * res >= 1) by (nonlinear_arith)
        requires
            corner >= 1,
            res >= 1,
    ;
    let div = corner * res;
    assert(div >> 1u64 == div / 2) by (bit_vector);
    let c = (500_000_000u64 + (div >> 1)) / div;
    if c > 12 {
        c - 12
    } else {
        0
    }
}

/// Computes the TX second baseband filter register values for a TX baseband bandwidth.
pub fn tx_second_filter_settings(tx_bb_bw: u32) -> (r: TxSecondFilterSettings)
    ensures
        ({
            let corner = tx2_filter_corner(tx_bb_bw);
            let res = tx2_filter_res(corner);
            &&& r.capacitor == min(tx2_filter_cap(corner, if res == 16 { 8 } else { res }), 63)
            &&& r.resistor == (if res == 1 {
                0x0Cint
            } else if res == 2 {
                0x04int
            } else if res == 4 {
                0x03int
            } else {
                0x01int
            })
        }),
        ({
            let bw = clamp(tx_bb_bw as int, 530_000, 20_000_000);
            r.config == (if bw <= 4_500_000 {
                0x59int
            } else if bw <= 12_000_000 {
                0x56int
            } else {
                0x57int
            })
        }),
{
    let bw: u32 = if tx_bb_bw < 530_000 {
        530_000
    } else if tx_bb_bw > 20_000_000 {
        20_000_000
    } else {
        tx_bb_bw
    };
    let corner: u64 = 15_708u64 * (bw as u64 / 10_000);
    let mut res: u64 = 1;
    let mut cap = tx2_filter_cap_exec(corner, 1);
    if cap >= 64 {
        res = 2;
        cap = tx2_filter_cap_exec(corner, 2);
        if cap >= 64 {
            res = 4;
            cap = tx2_filter_cap_exec(corner, 4);
            if cap >= 64 {
                res = 8;
                cap = tx2_filter_cap_exec(corner, 8);
                if cap >= 64 {
                    res = 16;
                }
            }
        }
    }
    let capacitor: u8 = if cap < 63 {
        cap as u8
    } else {
        63
    };
    let config: u8 = if bw <= 4_500_000 {
        0x59
    } else if bw <= 12_000_000 {
        0x56
    } else {
        0x57
    };
    let resistor: u8 = if res == 1 {
        0x0C
    } else if res == 2 {
        0x04
    } else if res == 4 {
        0x03
    } else {
        0x01
    };
    TxSecondFilterSettings { config, resistor, capacitor }
}

// ---------------------------------------------------------------------------------------------
// Auxiliary ADC and temperature sensor.
// ---------------------------------------------------------------------------------------------
/// Register values of the auxiliary ADC and the temperature sensor.
#[derive(Debug, Clone, Copy, PartialEq, Eq, Structural)]
pub struct AuxAdcSetup {
    /// `TempOffset`: the signed offset in two's complement.
    pub temp_offset: u8,
    /// `TempSense2`: the measurement interval in units of `2^29` BB PLL cycles (at most 127) and
    /// the periodic measurement enable.
    pub temp_sense2: u8,
    /// `TempSensorConfig`: the temperature sensor decimation.
    pub temp_sensor_config: u8,
    /// `AuxadcClockDivider`: the BB PLL clock divider for the ADC clock, at most 63.
    pub clock_divider: u8,
    /// `AuxadcConfig`: the ADC decimation, with the ADC powered up.
    pub auxadc_config: u8,
}

/// Measurement interval of the temperature sensor in units of `2^29` BB PLL cycles.
pub open spec fn temp_sense_interval(interval_ms: u16, bb_pll_hz: u32) -> int {
    div_round(interval_ms * (bb_pll_hz / 1000), 0x2000_0000)
}

/// Computes the auxiliary ADC and temperature sensor registers for the BB PLL clock.
pub fn aux_adc_setup(config: &AuxAdcConfig, bb_pll_hz: u32) -> (r: AuxAdcSetup)
    requires
        config.clock_rate_hz > 0,
        config.decimation.0 < 8,
        config.temp_sense.decimation.0 < 8,
    ensures
        r.temp_offset == config.temp_sense.offset_signed as u8,
        r.temp_sense2 == min(temp_sense_interval(config.temp_sense.measurement_interval_ms, bb_pll_hz), 127) * 2
            + (if config.temp_sense.enable_periodic { 1int } else { 0int }),
        r.temp_sensor_config == config.temp_sense.decimation.0,
        r.clock_divider == min(
            if div_ceil(bb_pll_hz as int, config.clock_rate_hz as int) > 0 {
                div_ceil(bb_pll_hz as int, config.clock_rate_hz as int) - 1
            } else {
                0
            },
            63,
        ),
        r.auxadc_config == config.decimation.0 * 2,
{
    let interval = config.temp_sense.measurement_interval_ms as u64;
    let khz = bb_pll_hz as u64 / 1000;
    assert(interval * khz <= 65535 * 4_294_967) by (nonlinear_arith)
        requires
            interval <= 65535,
            khz <= 4_294_967,
    ;
    let val = div_round_u64(interval * khz, 0x2000_0000);
    let val: u8 = if val < 127 {
        val as u8
    } else {
        127
    };
    let periodic: u8 = if config.temp_sense.enable_periodic {
        1
    } else {
        0
    };
    let d = div_ceil_u64(bb_pll_hz as u64, config.clock_rate_hz as u64);
    let d = if d > 0 {
        d - 1
    } else {
        0
    };
    let clock_divider: u8 = if d < 63 {
        d as u8
    } else {
        63
    };
    AuxAdcSetup {
        temp_offset: config.temp_sense.offset_signed as u8,
        temp_sense2: val * 2 + periodic,
        temp_sensor_config: config.temp_sense.decimation.0,
        clock_divider,
        auxadc_config: config.decimation.0 * 2,
    }
}

// ---------------------------------------------------------------------------------------------
// TX monitor.
// ---------------------------------------------------------------------------------------------
/// Base 2 logarithm of `x`, rounded down; 0 below 2.
pub open spec fn ilog2(x: int) -> int
    decreases x,
{
    if x < 2 {
        0
    } else {
        1 + ilog2(x / 2)
    }
}

proof fn lemma_ilog2_bound(x: int, k: nat)
    requires
        0 <= x < vstd::arithmetic::power2::pow2(k),
        k >= 1,
    ensures
        0 <= ilog2(x) < k,
    decreases x,
{
    if x >= 2 {
        vstd::arithmetic::power2::lemma_pow2_unfold(k);
        if k == 1 {
            vstd::arithmetic::power2::lemma2_to64();
        } else {
            lemma_ilog2_bound(x / 2, (k - 1) as nat);
        }
    }
}

fn ilog2_u32(x: u32) -> (r: u32)
    ensures
        r == ilog2(x as int),
        r < 32,
{
    proof {
        vstd::arithmetic::power2::lemma2_to64();
        lemma_ilog2_bound(x as int, 32);
    }
    let mut v = x;
    let mut r: u32 = 0;
    while v >= 2
        invariant
            r + ilog2(v as int) == ilog2(x as int),
            ilog2(x as int) < 32,
            ilog2(v as int) >= 0,
        decreases v,
    {
        proof {
            vstd::arithmetic::power2::lemma2_to64();
            lemma_ilog2_bound((v / 2) as int, 32);
        }
        r = r + 1;
        v = v / 2;
    }
    r
}

/// Register values of the TX monitor.
#[derive(Debug, Clone, Copy, PartialEq, Eq, Structural)]
pub struct TxMonSetup {
    /// `TpmModeEnable`: one shot mode and the measurement duration, with both monitors off.
    pub tpm_mode_enable: u8,
    /// `TxMonDelay`: low 8 bits of the monitor delay.
    pub tx_mon_delay: u8,
    /// `TxLevelThresh`: its value before, with the 2 bit delay counter replaced by bits 8 and 9
    /// of the monitor delay.
    pub tx_level_thresh: u8,
    /// `TxMon1Config`.
    pub tx1_mon_config: u8,
    /// `TxMon2Config`.
    pub tx2_mon_config: u8,
    /// `TxAttenThresh`.
    pub tx_atten_thresh: u8,
    /// `TxMonHighGain`.
    pub high_gain: u8,
    /// `TxMonLowGain`.
    pub low_gain: u8,
}

/// Computes the TX monitor registers. `tx_level_thresh` is the current value of the
/// `TxLevelThresh` register, of which only the delay counter is replaced. The attenuation
/// threshold is written as the larger of `threshold / 250` and 255, truncated to 8 bits.
pub fn tx_mon_setup(config: &TxMonConfigParams, tx_level_thresh: u8) -> (r: TxMonSetup)
    requires
        config.tx_mon_duration >= 16,
        config.tx_mon_delay < 1024,
        config.tx1_mon_lo_cm < 64,
        config.tx2_mon_lo_cm < 64,
        config.tx1_mon_front_end_gain < 4,
        config.tx2_mon_front_end_gain < 4,
        config.high_gain_d_b < 32,
        config.low_gain_d_b < 32,
    ensures
        r.tpm_mode_enable == (if config.one_shot_mode { 64int } else { 0int }) + min(
            ilog2((config.tx_mon_duration / 16) as int),
            15,
        ),
        r.tx_mon_delay == config.tx_mon_delay % 256,
        r.tx_level_thresh == tx_level_thresh / 4 * 4 + config.tx_mon_delay / 256,
        r.tx1_mon_config == config.tx1_mon_lo_cm * 4 + config.tx1_mon_front_end_gain,
        r.tx2_mon_config == config.tx2_mon_lo_cm * 4 + config.tx2_mon_front_end_gain,
        r.tx_atten_thresh == (if config.low_high_gain_threshold_md_b / 250 > 255 {
            config.low_high_gain_threshold_md_b / 250
        } else {
            255
        }) as u8,
        r.high_gain == config.high_gain_d_b,
        r.low_gain == (if config.tx_mon_track { 32int } else { 0int }) + config.low_gain_d_b,
{
    let l = ilog2_u32(config.tx_mon_duration / 16);
    let l: u8 = if l < 15 {
        l as u8
    } else {
        15
    };
    let one_shot: u8 = if config.one_shot_mode {
        64
    } else {
        0
    };
    let delay = config.tx_mon_delay;
    assert(delay & 0xffu16 == delay % 256) by (bit_vector);
    assert((delay >> 8u16) & 3u16 == delay / 256) by (bit_vector)
        requires
            delay < 1024,
    ;
    assert(tx_level_thresh & 0xfcu8 == tx_level_thresh / 4 * 4) by (bit_vector);
    let counter = ((delay >> 8) & 0b11) as u8;
    let thresh = config.low_high_gain_threshold_md_b / 250;
    let thresh = if thresh > 255 {
        thresh
    } else {
        255
    };
    let track: u8 = if config.tx_mon_track {
        32
    } else {
        0
    };
    TxMonSetup {
        tpm_mode_enable: one_shot + l,
        tx_mon_delay: (delay & 0xff) as u8,
        tx_level_thresh: (tx_level_thresh & 0xfc) + counter,
        tx1_mon_config: config.tx1_mon_lo_cm * 4 + config.tx1_mon_front_end_gain,
        tx2_mon_config: config.tx2_mon_lo_cm * 4 + config.tx2_mon_front_end_gain,
        tx_atten_thresh: thresh as u8,
        high_gain: config.high_gain_d_b,
        low_gain: track + config.low_gain_d_b,
    }
}

// ---------------------------------------------------------------------------------------------
// DCXO.
// ---------------------------------------------------------------------------------------------
/// The bytes of `DcxoCoarseTune`, `DcxoFineTuneHigh` and `DcxoFineTuneLow` for a 6 bit coarse
/// and a 13 bit fine tune word: the upper 8 bits of the fine word go to the high register, its
/// lower 5 bits to bits 3 to 7 of the low register.
pub fn dcxo_tune_bytes(coarse: u8, fine: u16) -> (r: (u8, u8, u8))
    requires
        coarse < 64,
        fine < 8192,
    ensures
        r.0 == coarse,
        r.1 == fine / 32,
        r.2 == fine % 32 * 8,
{
    assert((fine >> 5u16) & 0xffu16 == fine / 32) by (bit_vector)
        requires
            fine < 8192,
    ;
    assert((fine & 31u16) << 3u16 == fine % 32 * 8) by (bit_vector);
    (coarse, ((fine >> 5) & 0xff) as u8, ((fine & 0b11111) << 3) as u8)
}


// ---------------------------------------------------------------------------------------------
// Gain control.
// ---------------------------------------------------------------------------------------------
/// `Rx1ManualLpfGainOrAgcCurrentLpf` with the split gain table.
pub const SPLIT_TABLE_RX1_LPF_GAIN: u8 = 0x58;

/// `Rx2ManualLpfGainOrAgcCurentLpf` with the split gain table.
pub const SPLIT_TABLE_RX2_LPF_GAIN: u8 = 0x18;

/// `FastInitialLmtGainLimit` with the split gain table.
pub const SPLIT_TABLE_FAST_INITIAL_LMT_GAIN_LIMIT: u8 = 0x27;

/// A step count of 1 to 8 as its 3 bit register code.
pub open spec fn step_code(steps: u8) -> int {
    clamp(steps as int, 1, 8) - 1
}

fn step_code_exec(steps: u8) -> (r: u8)
    ensures
        r == step_code(steps),
        r < 8,
{
    if steps < 1 {
        0
    } else if steps > 8 {
        7
    } else {
        steps - 1
    }
}

/// An LMT overload threshold in mV peak as its 6 bit register code.
pub open spec fn lmt_thresh_code(mv_peak: u16) -> int {
    min(if mv_peak / 16 >= 1 { mv_peak / 16 - 1 } else { 0 }, 63)
}

fn lmt_thresh_code_exec(mv_peak: u16) -> (r: u8)
    ensures
        r == lmt_thresh_code(mv_peak),
{
    let v = mv_peak / 16;
    let v = if v >= 1 {
        v - 1
    } else {
        0
    };
    if v < 63 {
        v as u8
    } else {
        63
    }
}

/// The registers that the generic gain control setup changes.
#[derive(Debug, Clone, Copy, PartialEq, Eq, Structural)]
pub struct GainControlRegisters {
    /// `AgcConfig1`.
    pub agc_config_1: u8,
    /// `AgcConfig2`.
    pub agc_config_2: u8,
    /// `AgcConfig3`.
    pub agc_config_3: u8,
    /// `PeakWaitTime`.
    pub peak_wait_time: u8,
    /// `DigitalGain`, written only with a digital gain configuration.
    pub digital_gain: Option<u8>,
    /// `AdcSmallOverloadThresh`.
    pub adc_small_overload_thresh: u8,
    /// `AdcLargeOverloadThresh`.
    pub adc_large_overload_thresh: u8,
    /// `SmallLmtOverloadThresh`.
    pub small_lmt_overload_thresh: u8,
    /// `LargeLmtOverloadThresh`.
    pub large_lmt_overload_thresh: u8,
    /// `FastLowPowerThresh`.
    pub fast_low_power_thresh: u8,
    /// `DecPowerMeasureDuration`.
    pub dec_power_measure_duration: u8,
}

/// Computes the registers of the generic gain control setup. `agc_config_2`, `peak_wait_time`,
/// `small_lmt_overload_thresh` and `dec_power_measure_duration` are the values of those registers
/// before, of which only the fields that the configuration sets change; the others are written
/// whole. With the split gain table the three `SPLIT_TABLE_*` values are written too, and the
/// manual digital gains and `TxSymbolAttenConfig` are cleared.
#[verifier::rlimit(50)]
pub fn gain_control_registers(
    config: &GainControl,
    agc_config_2: u8,
    peak_wait_time: u8,
    small_lmt_overload_thresh: u8,
    dec_power_measure_duration: u8,
) -> (r: GainControlRegisters)
    requires
        config.common_spec().dec_pow_measurement_duration.0 < 16,
        config.common_spec().digital_config matches Some(d) ==> d.max_dig_gain < 32,
    ensures
        ({
            let hybrid = config.rx1_mode_spec() == GainControlMode::AutoHybrid
                || config.rx2_mode_spec() == GainControlMode::AutoHybrid;
            r.agc_config_1 == 0xE0 + (if hybrid { 16int } else { 0int }) + gain_control_setup(
                config.rx2_mode_spec(),
            ).raw() * 4 + gain_control_setup(config.rx1_mode_spec()).raw()
        }),
        field8(r.agc_config_2, 2, 1) == (if config.common_spec().digital_config is Some {
            1
        } else {
            field8(agc_config_2, 2, 1)
        }),
        field8(r.agc_config_2, 1, 1) == (match config.manual_spec() {
            Some(m) => b8(m.rx2_ctrl_input),
            None => field8(agc_config_2, 1, 1),
        }),
        field8(r.agc_config_2, 0, 1) == (match config.manual_spec() {
            Some(m) => b8(m.rx1_ctrl_input),
            None => field8(agc_config_2, 0, 1),
        }),
        field8(r.agc_config_2, 3, 5) == field8(agc_config_2, 3, 5),
        r.agc_config_3 == step_code(config.common_spec().adc_ovr_sample_size) + (
        match config.manual_spec() {
            Some(m) => step_code(m.inc_gain_step) * 32 + (match m.split_table_mode {
                Some(SplitTableManualMode::Agc) => 8int,
                Some(SplitTableManualMode::OnlyInLmt) => 16int,
                _ => 0int,
            }),
            None => 0int,
        }),
        field8(r.peak_wait_time, 5, 3) == (match config.manual_spec() {
            Some(m) => step_code(m.dec_gain_step) as u8,
            None => field8(peak_wait_time, 5, 3),
        }),
        field8(r.peak_wait_time, 0, 5) == field8(peak_wait_time, 0, 5),
        r.digital_gain == (match config.common_spec().digital_config {
            Some(d) => Some((step_code(d.dig_gain_step_size) * 32 + d.max_dig_gain) as u8),
            None => None,
        }),
        r.adc_small_overload_thresh == config.common_spec().adc_small_overload_thresh,
        r.adc_large_overload_thresh == config.common_spec().adc_large_overload_thresh,
        field8(r.small_lmt_overload_thresh, 0, 6) == lmt_thresh_code(
            config.common_spec().lmt_overload_low_thresh_mv_peak,
        ),
        field8(r.small_lmt_overload_thresh, 6, 2) == field8(small_lmt_overload_thresh, 6, 2),
        r.large_lmt_overload_thresh == lmt_thresh_code(
            config.common_spec().lmt_overload_high_thresh_mv_peak,
        ),
        r.fast_low_power_thresh == min(config.common_spec().low_power_thresh as int, 64) * 2,
        field8(r.dec_power_measure_duration, 6, 1) == config.common_spec().dec_pwr_meas_source.raw(),
        field8(r.dec_power_measure_duration, 5, 1) == 1,
        field8(r.dec_power_measure_duration, 0, 4) == config.common_spec().dec_pow_measurement_duration.0,
        field8(r.dec_power_measure_duration, 4, 1) == field8(dec_power_measure_duration, 4, 1),
        field8(r.dec_power_measure_duration, 7, 1) == field8(dec_power_measure_duration, 7, 1),
{
    proof {
        lemma_field_bounds();
    }
    let rx1 = config.rx1_mode();
    let rx2 = config.rx2_mode();
    let hybrid: u8 = if rx1 == GainControlMode::AutoHybrid || rx2 == GainControlMode::AutoHybrid {
        16
    } else {
        0
    };
    let s1: crate::regs::agc_config_1::RxGainControlSetup = rx1.into();
    let s2: crate::regs::agc_config_1::RxGainControlSetup = rx2.into();
    let agc1 = 0xE0 + hybrid + s2.raw_value() * 4 + s1.raw_value();
    let mut agc2 = agc_config_2;
    if config.common().digital_config.is_some() {
        agc2 = set_flag(agc2, 2, true);
    }
    let mut agc3 = step_code_exec(config.common().adc_ovr_sample_size);
    let mut peak = peak_wait_time;
    match config.manual() {
        Some(m) => {
            agc2 = set_flag(agc2, 1, m.rx2_ctrl_input);
            agc2 = set_flag(agc2, 0, m.rx1_ctrl_input);
            agc3 = agc3 + step_code_exec(m.inc_gain_step) * 32;
            match m.split_table_mode {
                Some(SplitTableManualMode::Agc) => {
                    agc3 = agc3 + 8;
                },
                Some(SplitTableManualMode::OnlyInLmt) => {
                    agc3 = agc3 + 16;
                },
                _ => {},
            }
            peak = set_field(peak, 5, 3, step_code_exec(m.dec_gain_step));
        },
        None => {},
    }
    let digital_gain = match &config.common().digital_config {
        Some(d) => Some(step_code_exec(d.dig_gain_step_size) * 32 + d.max_dig_gain),
        None => None,
    };
    let small = set_field(
        small_lmt_overload_thresh,
        0,
        6,
        lmt_thresh_code_exec(config.common().lmt_overload_low_thresh_mv_peak),
    );
    let large = lmt_thresh_code_exec(config.common().lmt_overload_high_thresh_mv_peak);
    let low: u8 = if config.common().low_power_thresh < 64 {
        config.common().low_power_thresh * 2
    } else {
        128
    };
    let mut dec = set_flag(
        dec_power_measure_duration,
        6,
        config.common().dec_pwr_meas_source.raw_value() == 1,
    );
    dec = set_flag(dec, 5, true);
    dec = set_field(dec, 0, 4, config.common().dec_pow_measurement_duration.0);
    GainControlRegisters {
        agc_config_1: agc1,
        agc_config_2: agc2,
        agc_config_3: agc3,
        peak_wait_time: peak,
        digital_gain,
        adc_small_overload_thresh: config.common().adc_small_overload_thresh,
        adc_large_overload_thresh: config.common().adc_large_overload_thresh,
        small_lmt_overload_thresh: small,
        large_lmt_overload_thresh: large,
        fast_low_power_thresh: low,
        dec_power_measure_duration: dec,
    }
}

/// The registers that the automatic gain control setup changes.
#[derive(Debug, Clone, Copy, PartialEq, Eq, Structural)]
pub struct AutoGainRegisters {
    /// `AgcLockLevel`.
    pub agc_lock_level: u8,
    /// `AgcInnerLowThresh`.
    pub agc_inner_low_thresh: u8,
    /// `OuterPowerThreshs`.
    pub outer_power_threshs: u8,
    /// `GainStep2`.
    pub gain_step2: u8,
    /// `GainStep1`.
    pub gain_step1: u8,
    /// `AdcOverloadCounters`.
    pub adc_overload_counters: u8,
    /// `GainStepConfig2`.
    pub gain_step_config2: u8,
    /// `LmtOverloadCounters`.
    pub lmt_overload_counters: u8,
    /// `GainStepConfig1`.
    pub gain_step_config1: u8,
    /// `DigitalSaturationCounter`.
    pub digital_saturation_counter: u8,
}

/// The decrement step for a small LPF gain change used by the automatic gain
/// control: the fast AGC's, or 0 without fast AGC.
pub open spec fn small_lpf_decrement_step(config: GainControl) -> int {
    match config.fast_spec() {
        Some(f) => f.decrement_step_small_lpf_gain_full_table_case_2 as int,
        None => 0,
    }
}

/// Computes the registers of the automatic gain control setup; `None` without an automatic gain
/// control configuration. `agc_lock_level` and `gain_step_config1` are the values of those
/// registers before, of which only the fields that the configuration sets change; the others
/// are written whole.
#[verifier::rlimit(50)]
pub fn auto_gain_registers(config: &GainControl, agc_lock_level: u8, gain_step_config1: u8) -> (r:
    Option<AutoGainRegisters>)
    requires
        config.auto_spec() matches Some(a) ==> {
            &&& a.inner_thresh_high_negative_dbfs < 128
            &&& a.inner_thresh_low_negative_dbfs < 128
            &&& a.outer_thresh_offset_to_inner_high < 16
            &&& a.outer_thresh_offset_to_inner_low < 16
            &&& a.outer_thresh_high_dec_steps < 16
            &&& a.outer_thresh_low_inc_steps < 16
            &&& a.inner_thresh_high_dec_steps < 8
            &&& a.inner_thresh_low_inc_steps < 8
            &&& a.adc_large_overload_exceed_counter < 16
            &&& a.adc_small_overload_exceed_counter < 16
            &&& a.decrement_step_size_large_lpf_or_full_table_case_1 < 16
            &&& a.lmt_overload_large_exceed_counter < 16
            &&& a.lmt_overload_small_exceed_counter < 16
            &&& a.decrement_step_size_large_lmt_overload_full_table_case_3 < 8
            &&& a.dig_saturation_exceed_counter < 16
        },
        config.fast_spec() matches Some(f) ==> f.decrement_step_small_lpf_gain_full_table_case_2
            < 8,
    ensures
        r is None <==> config.auto_spec() is None,
        r matches Some(g) ==> {
            let a = config.auto_spec()->0;
            &&& field8(g.agc_lock_level, 0, 7) == a.inner_thresh_high_negative_dbfs
            &&& field8(g.agc_lock_level, 7, 1) == field8(agc_lock_level, 7, 1)
            &&& g.agc_inner_low_thresh == b8(a.prevent_gain_inc_lmt_adc_small_overload) * 128
                + a.inner_thresh_low_negative_dbfs
            &&& g.outer_power_threshs == a.outer_thresh_offset_to_inner_high * 16
                + a.outer_thresh_offset_to_inner_low
            &&& g.gain_step2 == a.outer_thresh_high_dec_steps * 16 + a.outer_thresh_low_inc_steps
            &&& g.gain_step1 == b8(a.immed_gain_change_if_large_lmt_overload) * 128
                + a.inner_thresh_high_dec_steps * 16 + b8(
                a.immed_gain_change_if_large_adc_overload,
            ) * 8 + a.inner_thresh_low_inc_steps
            &&& g.adc_overload_counters == a.adc_large_overload_exceed_counter * 16
                + a.adc_small_overload_exceed_counter
            &&& g.gain_step_config2 == small_lpf_decrement_step(*config) * 16
                + a.decrement_step_size_large_lpf_or_full_table_case_1
            &&& g.lmt_overload_counters == a.lmt_overload_large_exceed_counter * 16
                + a.lmt_overload_small_exceed_counter
            &&& field8(g.gain_step_config1, 2, 3)
                == a.decrement_step_size_large_lmt_overload_full_table_case_3
            &&& field8(g.gain_step_config1, 0, 2) == field8(gain_step_config1, 0, 2)
            &&& field8(g.gain_step_config1, 5, 3) == field8(gain_step_config1, 5, 3)
            &&& g.digital_saturation_counter == b8(a.enable_sync_for_gain_counter) * 16
                + a.dig_saturation_exceed_counter
        },
{
    proof {
        lemma_field_bounds();
    }
    let a = match config.auto() {
        Some(a) => a,
        None => {
            return None;
        },
    };
    let small_lpf: u8 = match config.fast() {
        Some(f) => f.decrement_step_small_lpf_gain_full_table_case_2,
        None => 0,
    };
    let lock = set_field(agc_lock_level, 0, 7, a.inner_thresh_high_negative_dbfs);
    let prevent: u8 = if a.prevent_gain_inc_lmt_adc_small_overload {
        128
    } else {
        0
    };
    let immed_lmt: u8 = if a.immed_gain_change_if_large_lmt_overload {
        128
    } else {
        0
    };
    let immed_adc: u8 = if a.immed_gain_change_if_large_adc_overload {
        8
    } else {
        0
    };
    let sync: u8 = if a.enable_sync_for_gain_counter {
        16
    } else {
        0
    };
    let step1 = set_field(
        gain_step_config1,
        2,
        3,
        a.decrement_step_size_large_lmt_overload_full_table_case_3,
    );
    Some(
        AutoGainRegisters {
            agc_lock_level: lock,
            agc_inner_low_thresh: prevent + a.inner_thresh_low_negative_dbfs,
            outer_power_threshs: a.outer_thresh_offset_to_inner_high * 16
                + a.outer_thresh_offset_to_inner_low,
            gain_step2: a.outer_thresh_high_dec_steps * 16 + a.outer_thresh_low_inc_steps,
            gain_step1: immed_lmt + a.inner_thresh_high_dec_steps * 16 + immed_adc
                + a.inner_thresh_low_inc_steps,
            adc_overload_counters: a.adc_large_overload_exceed_counter * 16
                + a.adc_small_overload_exceed_counter,
            gain_step_config2: small_lpf * 16 + a.decrement_step_size_large_lpf_or_full_table_case_1,
            lmt_overload_counters: a.lmt_overload_large_exceed_counter * 16
                + a.lmt_overload_small_exceed_counter,
            gain_step_config1: step1,
            digital_saturation_counter: sync + a.dig_saturation_exceed_counter,
        },
    )
}

// ---------------------------------------------------------------------------------------------
// Gain control timing.
// ---------------------------------------------------------------------------------------------
/// The AGC attack delay in µs (6 bit field, at most 31) for the external LNA settling delay in ns
/// and the RX FIR input clock: `ceil(((200 + delay) / 2 + 14e6 / (clk / 500)) / 1000)` plus the
/// extra margin.
pub open spec fn attack_delay_code(delay_lna_ns: u32, rx_fir_input: u32, margin_us: u32) -> int {
    clamp(
        div_ceil((200 + delay_lna_ns) / 2 + 14_000_000int / ((rx_fir_input / 500) as int), 1000)
            + margin_us,
        0,
        31,
    )
}

/// The peak overload wait time in RX FIR input clock cycles, at most 31.
pub open spec fn peak_wait_code(delay_lna_ns: u32, rx_fir_input: u32) -> int {
    clamp(div_ceil((delay_lna_ns + 100) * (rx_fir_input / 1000), 1_000_000) + 1, 0, 31)
}

/// The settling delay in RX FIR input clock cycles, at most 31.
pub open spec fn settling_delay_code(delay_lna_ns: u32, rx_fir_input: u32) -> int {
    clamp(div_ceil((delay_lna_ns + 200) * (rx_fir_input / 2000), 1_000_000) + 7, 0, 31)
}

/// The gain update counter: the gain update interval in RX FIR input clock cycles less the
/// settling, halved and rounded, at most 131071 (a value below 0 becomes 0).
pub open spec fn gain_update_counter(interval_us: u32, rx_fir_input: u32, settling: int) -> int {
    let cycles = interval_us * (rx_fir_input / 1000);
    let rest = if cycles > settling * 2000 + 2000 {
        cycles - (settling * 2000 + 2000)
    } else {
        0
    };
    clamp(div_round(rest, 2000), 0, 131071)
}

/// The decimated power measurement duration code: with fast AGC the configured one; else, when
/// the configured duration is less than two gain update periods long, the base 2 logarithm of
/// the gain update period over 16 RX samples (at least 1, at most 15).
pub open spec fn dec_power_code(
    config: GainControl,
    counter: int,
    rx_fir_input: u32,
    rx_sample: u32,
) -> int {
    let configured = config.common_spec().dec_pow_measurement_duration.0 as int;
    if config.fast_spec() is Some {
        configured
    } else {
        let fir_div = div_round(rx_fir_input as int, rx_sample as int);
        if (counter * 2 / fir_div) / ((16 * pow2(configured as nat)) as int) < 2 {
            let d = counter / fir_div / 16;
            min(ilog2(if d < 1 { 1 } else { d }), 15)
        } else {
            configured
        }
    }
}

/// The registers that depend on the RX FIR input clock and the gain control timing.
#[derive(Debug, Clone, Copy, PartialEq, Eq, Structural)]
pub struct GainUpdateRegisters {
    /// `AgcAttackDelay`, with automatic gain control only.
    pub agc_attack_delay: Option<u8>,
    /// `PeakWaitTime` with the peak overload wait time, written first.
    pub peak_wait_time_first: u8,
    /// `PeakWaitTime` with the settling delay in the same bits, written after it.
    pub peak_wait_time: u8,
    /// `DecPowerMeasureDuration`.
    pub dec_power_measure_duration: u8,
    /// `DigitalSaturationCounter`.
    pub digital_saturation_counter: u8,
    /// `GainUpdateCounter1`: low byte of the gain update counter (halved above 65535).
    pub gain_update_counter_1: u8,
    /// `GainUpdateCounter2`: high byte of the gain update counter (halved above 65535).
    pub gain_update_counter_2: u8,
    /// `FastEnergyDetectCount`, with fast AGC only.
    pub fast_energy_detect_count: Option<u8>,
}

/// Whether the gain control timing can be computed within 32 bits for these clocks.
pub open spec fn gain_update_fits(
    config: GainControl,
    delay_lna_ns: u32,
    rx_fir_input: u32,
    rx_sample: u32,
) -> bool {
    &&& rx_fir_input >= 2000
    &&& rx_sample > 0
    &&& rx_fir_input + rx_sample / 2 <= u32::MAX
    &&& div_round(rx_fir_input as int, rx_sample as int) > 0
    &&& delay_lna_ns + 200 <= u32::MAX
    &&& (delay_lna_ns + 200) * (rx_fir_input / 1000) + 1_000_000 <= u32::MAX
    &&& config.auto_spec() matches Some(a) ==> (200 + delay_lna_ns) / 2 + 14_000_000int / (
    (rx_fir_input / 500) as int) + 1000 + a.attack_delay_extra_margin_us <= u32::MAX
    &&& config.common_spec().gain_update_interval_us * (rx_fir_input / 1000) <= u32::MAX
    &&& config.common_spec().dec_pow_measurement_duration.0 < 16
    &&& config.fast_spec() matches Some(f) ==> f.state_wait_time_ns * (rx_fir_input / 1000)
        + 500_000 <= u32::MAX
}

/// Computes the registers of the gain control timing for the RX FIR input clock and the RX
/// sample clock, with the external LNA settling delay (0 without external LNA).
/// `agc_attack_delay`, `peak_wait_time`, `dec_power_measure_duration`,
/// `digital_saturation_counter` and `fast_energy_detect_count` are the values of those registers
/// before, of which only the timing fields change.
#[verifier::rlimit(50)]
pub fn gain_update_registers(
    config: &GainControl,
    delay_lna_ns: u32,
    rx_fir_input: u32,
    rx_sample: u32,
    agc_attack_delay: u8,
    peak_wait_time: u8,
    dec_power_measure_duration: u8,
    digital_saturation_counter: u8,
    fast_energy_detect_count: u8,
) -> (r: GainUpdateRegisters)
    requires
        gain_update_fits(*config, delay_lna_ns, rx_fir_input, rx_sample),
    ensures
        ({
            let settling = settling_delay_code(delay_lna_ns, rx_fir_input);
            let counter = gain_update_counter(
                config.common_spec().gain_update_interval_us,
                rx_fir_input,
                settling,
            );
            let counter_reg = if counter > 65535 {
                counter / 2
            } else {
                counter
            };
            &&& r.agc_attack_delay == (match config.auto_spec() {
                Some(a) => Some(
                    with_field8(
                        agc_attack_delay,
                        0,
                        6,
                        attack_delay_code(delay_lna_ns, rx_fir_input, a.attack_delay_extra_margin_us)
                            as u8,
                    ),
                ),
                None => None,
            })
            &&& r.peak_wait_time_first == with_field8(
                peak_wait_time,
                0,
                5,
                peak_wait_code(delay_lna_ns, rx_fir_input) as u8,
            )
            &&& r.peak_wait_time == with_field8(peak_wait_time, 0, 5, settling as u8)
            &&& r.dec_power_measure_duration == with_field8(
                dec_power_measure_duration,
                0,
                4,
                dec_power_code(*config, counter, rx_fir_input, rx_sample) as u8,
            )
            &&& r.digital_saturation_counter == with_field8(
                digital_saturation_counter,
                5,
                1,
                b8(counter > 65535),
            )
            &&& r.gain_update_counter_1 == counter_reg % 256
            &&& r.gain_update_counter_2 == counter_reg / 256
            &&& r.fast_energy_detect_count == (match config.fast_spec() {
                Some(f) => Some(
                    with_field8(
                        fast_energy_detect_count,
                        0,
                        5,
                        min(div_round(f.state_wait_time_ns * (rx_fir_input / 1000), 1_000_000), 31)
                            as u8,
                    ),
                ),
                None => None,
            })
        }),
{
    proof {
        lemma_field_bounds();
    }
    let attack = match config.auto() {
        Some(a) => {
            let v = (200 + delay_lna_ns) / 2 + (14_000_000 / (rx_fir_input / 500));
            let v = div_ceil_u64(v as u64, 1000) as u32 + a.attack_delay_extra_margin_us;
            let v: u8 = if v > 31 {
                31
            } else {
                v as u8
            };
            Some(set_field(agc_attack_delay, 0, 6, v))
        },
        None => None,
    };
    assert((delay_lna_ns + 100) * (rx_fir_input / 1000) <= (delay_lna_ns + 200) * (rx_fir_input
        / 1000)) by (nonlinear_arith);
    assert((delay_lna_ns + 200) * (rx_fir_input / 2000) <= (delay_lna_ns + 200) * (rx_fir_input
        / 1000)) by (nonlinear_arith);
    let v = (delay_lna_ns + 100) * (rx_fir_input / 1000);
    let v = div_ceil_u64(v as u64, 1_000_000) + 1;
    let peak_code: u8 = if v > 31 {
        31
    } else {
        v as u8
    };
    let peak_first = set_field(peak_wait_time, 0, 5, peak_code);
    let v = (delay_lna_ns + 200) * (rx_fir_input / 2000);
    let v = div_ceil_u64(v as u64, 1_000_000) + 7;
    let settling: u8 = if v > 31 {
        31
    } else {
        v as u8
    };
    let peak = set_field(peak_wait_time, 0, 5, settling);
    let cycles = config.common().gain_update_interval_us * (rx_fir_input / 1000);
    let settle = settling as u32 * 2000 + 2000;
    let rest = if cycles > settle {
        cycles - settle
    } else {
        0
    };
    let counter = div_round_u32(rest, 2000);
    let counter: u32 = if counter > 131071 {
        131071
    } else {
        counter
    };
    let configured = config.common().dec_pow_measurement_duration.0;
    let dur: u8 = if config.fast().is_some() {
        configured
    } else {
        let fir_div = div_round_u32(rx_fir_input, rx_sample);
        let cyc = config.common().dec_pow_measurement_duration.rx_cycles();
        proof {
            vstd::arithmetic::power2::lemma_pow2_pos(configured as nat);
        }
        if (counter * 2 / fir_div) / cyc < 2 {
            let d = counter / fir_div / 16;
            let d = if d < 1 {
                1
            } else {
                d
            };
            let l = ilog2_u32(d);
            if l < 15 {
                l as u8
            } else {
                15
            }
        } else {
            configured
        }
    };
    let dec = set_field(dec_power_measure_duration, 0, 4, dur);
    let sat = set_flag(digital_saturation_counter, 5, counter > 65535);
    let counter_reg = if counter > 65535 {
        counter / 2
    } else {
        counter
    };
    assert(counter_reg & 0xff == counter_reg % 256) by (bit_vector);
    assert(counter_reg >> 8u32 == counter_reg / 256) by (bit_vector);
    let fast = match config.fast() {
        Some(f) => {
            let v = div_round_u32(f.state_wait_time_ns * (rx_fir_input / 1000), 1_000_000);
            let v: u8 = if v > 31 {
                31
            } else {
                v as u8
            };
            Some(set_field(fast_energy_detect_count, 0, 5, v))
        },
        None => None,
    };
    proof {
        let settling_s = settling_delay_code(delay_lna_ns, rx_fir_input);
        assert(settling == settling_s);
        let counter_s = gain_update_counter(
            config.common_spec().gain_update_interval_us,
            rx_fir_input,
            settling_s,
        );
        assert(counter == counter_s);
        assert(dur == dec_power_code(*config, counter_s, rx_fir_input, rx_sample));
        assert(peak_code == peak_wait_code(delay_lna_ns, rx_fir_input));
        assert(attack == (match config.auto_spec() {
            Some(a) => Some(
                with_field8(
                    agc_attack_delay,
                    0,
                    6,
                    attack_delay_code(delay_lna_ns, rx_fir_input, a.attack_delay_extra_margin_us)
                        as u8,
                ),
            ),
            None => None,
        }));
        assert(sat == with_field8(digital_saturation_counter, 5, 1, b8(counter_s > 65535)));
        assert(fast == (match config.fast_spec() {
            Some(f) => Some(
                with_field8(
                    fast_energy_detect_count,
                    0,
                    5,
                    min(div_round(f.state_wait_time_ns * (rx_fir_input / 1000), 1_000_000), 31)
                        as u8,
                ),
            ),
            None => None,
        }));
    }
    GainUpdateRegisters {
        agc_attack_delay: attack,
        peak_wait_time_first: peak_first,
        peak_wait_time: peak,
        dec_power_measure_duration: dec,
        digital_saturation_counter: sat,
        gain_update_counter_1: (counter_reg & 0xff) as u8,
        gain_update_counter_2: (counter_reg >> 8) as u8,
        fast_energy_detect_count: fast,
    }
}

// ---------------------------------------------------------------------------------------------
// Tracking, external LNA, synthesizer reference dividers and BB PLL words.
// ---------------------------------------------------------------------------------------------
/// `CalibrationConfig2`: no soft reset, the two bits that must be ones, and phase exponent 0x15.
pub const CALIBRATION_CONFIG_2: u8 = 0x75;

/// `CalibrationConfig3`: positive loop gain prevented, amplitude exponent 0x15.
pub const CALIBRATION_CONFIG_3: u8 = 0x95;

/// Register values of the tracking control setup.
#[derive(Debug, Clone, Copy, PartialEq, Eq, Structural)]
pub struct TrackingRegisters {
    /// `DcOffsetConfig2`.
    pub dc_offset_config_2: u8,
    /// `RxQuadGain2`.
    pub rx_quad_gain2: u8,
    /// `CalibrationConfig1`.
    pub calibration_config_1: u8,
}

/// Computes the tracking control registers: DC offset tracking of the baseband and RF with the
/// wait counter for the RF DC calibration and the given 3 bit update event; the quadrature
/// correction word decimation 4 in slow mode, else 0 (the rest of `RxQuadGain2`, its value
/// before, stays); phase and gain correction, free running, correction word decimation and the
/// tracking of the receivers in use.
pub fn tracking_registers(
    dc_offset_update_event: u8,
    qec_slow_mode: bool,
    mode: TransceiverChannelMode,
    rx_quad_gain2: u8,
) -> (r: TrackingRegisters)
    requires
        dc_offset_update_event < 8,
    ensures
        r.dc_offset_config_2 == 0xA8 + dc_offset_update_event,
        r.rx_quad_gain2 == with_field8(rx_quad_gain2, 5, 3, if qec_slow_mode { 4u8 } else { 0u8 }),
        r.calibration_config_1 == 0xCC + (match mode {
            TransceiverChannelMode::Dual => 3int,
            TransceiverChannelMode::Single { rx, .. } => if rx == ReceiverId::Rx1 {
                1int
            } else {
                2int
            },
        }),
{
    proof {
        lemma_field_bounds();
    }
    let quad = set_field(
        rx_quad_gain2,
        5,
        3,
        if qec_slow_mode {
            4
        } else {
            0
        },
    );
    let ch: u8 = match mode {
        TransceiverChannelMode::Dual => 3,
        TransceiverChannelMode::Single { rx, tx: _ } => if rx == ReceiverId::Rx1 {
            1
        } else {
            2
        },
    };
    TrackingRegisters {
        dc_offset_config_2: 0xA8 + dc_offset_update_event,
        rx_quad_gain2: quad,
        calibration_config_1: 0xCC + ch,
    }
}

/// Register values of the external LNA setup: `ExternalLnaCtrl` (its value before, with the
/// control bits 5 and 6 of the two receivers set as configured), and the gain and bypass loss
/// in steps of 500 mdB (at most 63) for `ExtLnaHighGain` and `ExtLnaLowGain`.
pub fn external_lna_registers(config: &ExternalLnaConfig, external_lna_ctrl: u8) -> (r: (
    u8,
    u8,
    u8,
))
    ensures
        r.0 == with_field8(
            with_field8(external_lna_ctrl, 5, 1, b8(config.rx1_gpo0_control)),
            6,
            1,
            b8(config.rx2_gpo1_control),
        ),
        r.1 == min((config.gain_md_b / 500) as int, 63),
        r.2 == min((config.bypass_loss_md_b / 500) as int, 63),
{
    let ctrl = set_flag(external_lna_ctrl, 5, config.rx1_gpo0_control);
    let ctrl = set_flag(ctrl, 6, config.rx2_gpo1_control);
    let high = config.gain_md_b / 500;
    let low = config.bypass_loss_md_b / 500;
    (
        ctrl,
        if high < 63 {
            high as u8
        } else {
            63
        },
        if low < 63 {
            low as u8
        } else {
            63
        },
    )
}

/// `RefDivideConfig1` and `RefDivideConfig2` with the RX synthesizer reference divider: the
/// upper bit of its 2 bit code in bit 0 of the first, the lower bit in bit 7 of the second.
pub fn rx_synth_divider_registers(div: ClockScaler, ref_divide_config_1: u8, ref_divide_config_2: u8) -> (r: (
    u8,
    u8,
))
    ensures
        r.0 == with_field8(ref_divide_config_1, 0, 1, div.raw() / 2),
        r.1 == with_field8(ref_divide_config_2, 7, 1, div.raw() % 2),
{
    let raw = div.raw_value();
    (set_flag(ref_divide_config_1, 0, raw / 2 == 1), set_flag(ref_divide_config_2, 7, raw % 2 == 1))
}

/// `RefDivideConfig2` with the TX synthesizer reference divider in bits 2 and 3 and the bits that
/// must be ones (0 to 1 and 4 to 6) set; bit 7 stays.
pub fn tx_synth_divider_register(div: ClockScaler, ref_divide_config_2: u8) -> (r: u8)
    ensures
        r == with_field8(
            with_field8(with_field8(ref_divide_config_2, 2, 2, div.raw()), 4, 3, 7),
            0,
            2,
            3,
        ),
{
    proof {
        lemma_field_bounds();
    }
    let v = set_field(ref_divide_config_2, 2, 2, div.raw_value());
    let v = set_field(v, 4, 3, 0b111);
    set_field(v, 0, 2, 0b11)
}

/// The BB PLL frequency word bytes: the integer word for `IntegerBbFreqWord` and the 21 bit
/// fractional word split into `FractBbFreqWord3` (bits 0 to 7), `FractBbFreqWord2` (bits 8 to
/// 15) and `FractBbFreqWord1` (bits 16 to 20).
pub fn bb_pll_word_bytes(config: &BbPllConfig) -> (r: (u8, u8, u8, u8))
    requires
        config.wf(),
    ensures
        r.0 == config.integer_freq_word,
        r.1 == config.fractional_freq_word % 256,
        r.2 == config.fractional_freq_word / 256 % 256,
        r.3 == config.fractional_freq_word / 65536,
{
    let f = config.fractional_freq_word;
    assert(f & 0xff == f % 256) by (bit_vector);
    assert((f >> 8u32) & 0xff == f / 256 % 256) by (bit_vector);
    assert((f >> 16u32) & 0xff == f / 65536) by (bit_vector)
        requires
            f < 0x20_0000,
    ;
    (config.integer_freq_word, (f & 0xff) as u8, ((f >> 8) & 0xff) as u8, ((f >> 16) & 0xff) as u8)
}

// ---------------------------------------------------------------------------------------------
// FIR coefficient loading.
// ---------------------------------------------------------------------------------------------
/// One register write.
#[derive(Debug, Clone, Copy, PartialEq, Eq, Structural)]
pub struct RegisterWrite {
    /// The register.
    pub reg: Register,
    /// The value written.
    pub value: u8,
}

/// The registers of one direction of the FIR coefficient RAM protocol.
#[derive(Debug, Clone, Copy, PartialEq, Eq, Structural)]
pub struct FirRegisterSet {
    /// Enable and ratio register of the filter chain.
    pub enable_ctrl: Register,
    /// Coefficient address.
    pub coef_addr: Register,
    /// Low byte of the coefficient.
    pub coef_data1: Register,
    /// High byte of the coefficient.
    pub coef_data2: Register,
    /// Register written twice as a delay after each coefficient.
    pub coef_read_delay: Register,
    /// Filter configuration: taps, channels, write strobe (bit 2) and clock (bit 1).
    pub filter_conf: Register,
}

/// The registers of the TX FIR.
pub fn tx_fir_registers() -> (r: FirRegisterSet)
    ensures
        r == (FirRegisterSet {
            enable_ctrl: Register::TxEnableFilterCtrl,
            coef_addr: Register::TxFilterCoefAddr,
            coef_data1: Register::TxFilterCoefWriteData1,
            coef_data2: Register::TxFilterCoefWriteData2,
            coef_read_delay: Register::TxFilterCoefReadData2,
            filter_conf: Register::TxFilterConf,
        }),
{
    FirRegisterSet {
        enable_ctrl: Register::TxEnableFilterCtrl,
        coef_addr: Register::TxFilterCoefAddr,
        coef_data1: Register::TxFilterCoefWriteData1,
        coef_data2: Register::TxFilterCoefWriteData2,
        coef_read_delay: Register::TxFilterCoefReadData2,
        filter_conf: Register::TxFilterConf,
    }
}

/// The registers of the RX FIR.
pub fn rx_fir_registers() -> (r: FirRegisterSet)
    ensures
        r == (FirRegisterSet {
            enable_ctrl: Register::RxEnableFilterCtrl,
            coef_addr: Register::RxFilterCoefAddr,
            coef_data1: Register::RxFilterCoefData1,
            coef_data2: Register::RxFilterCoefData2,
            coef_read_delay: Register::RxFilterCoefReadData2,
            filter_conf: Register::RxFilterConfig,
        }),
{
    FirRegisterSet {
        enable_ctrl: Register::RxEnableFilterCtrl,
        coef_addr: Register::RxFilterCoefAddr,
        coef_data1: Register::RxFilterCoefData1,
        coef_data2: Register::RxFilterCoefData2,
        coef_read_delay: Register::RxFilterCoefReadData2,
        filter_conf: Register::RxFilterConfig,
    }
}

/// The channel select bits 3 (channel 1) and 4 (channel 2) of a filter configuration.
pub open spec fn fir_channel_bits(sel: FirChSelect) -> int {
    (if sel == FirChSelect::Ch1 || sel == FirChSelect::Both {
        8int
    } else {
        0int
    }) + (if sel == FirChSelect::Ch2 || sel == FirChSelect::Both {
        16int
    } else {
        0int
    })
}

/// `TxFilterConf` for loading the coefficients: the number of taps in bits 5 to 7, the
/// channels, and the -6 dB attenuation in bit 0.
pub fn tx_fir_filter_conf(config: &TxFirConfig) -> (r: u8)
    ensures
        r == config.num_taps.raw() * 32 + fir_channel_bits(config.ch_select) + b8(
            config.attentuate_6db,
        ),
{
    let c1: u8 = if config.ch_select.channel1() {
        8
    } else {
        0
    };
    let c2: u8 = if config.ch_select.channel2() {
        16
    } else {
        0
    };
    let att: u8 = if config.attentuate_6db {
        1
    } else {
        0
    };
    config.num_taps.raw_value() * 32 + c2 + c1 + att
}

/// `RxFilterConfig` for loading the coefficients: the number of taps in bits 5 to 7 and the
/// channels.
pub fn rx_fir_filter_conf(config: &RxFirConfig) -> (r: u8)
    ensures
        r == config.num_taps.raw() * 32 + fir_channel_bits(config.ch_select),
{
    let c1: u8 = if config.ch_select.channel1() {
        8
    } else {
        0
    };
    let c2: u8 = if config.ch_select.channel2() {
        16
    } else {
        0
    };
    config.num_taps.raw_value() * 32 + c2 + c1
}

/// The writes that load coefficient `i` with value `c`: its address, its low and high byte (of
/// the two's complement), the write strobe, and two writes of 0 to the delay register.
pub open spec fn fir_coef_writes(set: FirRegisterSet, conf: u8, i: int, c: i16) -> Seq<
    RegisterWrite,
> {
    seq![
        RegisterWrite { reg: set.coef_addr, value: i as u8 },
        RegisterWrite { reg: set.coef_data1, value: ((c as u16) % 256) as u8 },
        RegisterWrite { reg: set.coef_data2, value: ((c as u16) / 256) as u8 },
        RegisterWrite { reg: set.filter_conf, value: conf | 4 },
        RegisterWrite { reg: set.coef_read_delay, value: 0 },
        RegisterWrite { reg: set.coef_read_delay, value: 0 },
    ]
}

/// The writes that load the first `n` coefficients.
pub open spec fn fir_coefs_writes(set: FirRegisterSet, conf: u8, coefs: Seq<i16>, n: int) -> Seq<
    RegisterWrite,
>
    decreases n,
{
    if n <= 0 {
        Seq::empty()
    } else {
        fir_coefs_writes(set, conf, coefs, n - 1) + fir_coef_writes(set, conf, n - 1, coefs[n - 1])
    }
}

/// The writes that load FIR coefficients: the enable register is set to `enable_ctrl_target`,
/// the filter clock (bit 1) is started, the first `num_taps` coefficients are written, the clock
/// is stopped again and the enable register gets back `enable_ctrl_before`.
pub open spec fn fir_load_writes(
    set: FirRegisterSet,
    enable_ctrl_before: u8,
    enable_ctrl_target: u8,
    filter_conf_base: u8,
    coefs: Seq<i16>,
    num_taps: int,
) -> Seq<RegisterWrite> {
    let conf = filter_conf_base | 2;
    let n = min(num_taps, coefs.len() as int);
    seq![
        RegisterWrite { reg: set.enable_ctrl, value: enable_ctrl_target },
        RegisterWrite { reg: set.filter_conf, value: conf },
    ] + fir_coefs_writes(set, conf, coefs, n) + seq![
        RegisterWrite { reg: set.filter_conf, value: conf },
        RegisterWrite { reg: set.filter_conf, value: conf & !2u8 },
        RegisterWrite { reg: set.enable_ctrl, value: enable_ctrl_before },
    ]
}

/// Computes the register writes that load FIR coefficients, see [`fir_load_writes`]. The
/// enable register holds the FIR ratio in bits 0 and 1 in both directions.
pub fn fir_load_register_writes(
    set: FirRegisterSet,
    enable_ctrl_before: u8,
    enable_ctrl_target: u8,
    filter_conf_base: u8,
    coefs: &[i16],
    num_taps: u8,
) -> (r: Vec<RegisterWrite>)
    ensures
        r@ == fir_load_writes(
            set,
            enable_ctrl_before,
            enable_ctrl_target,
            filter_conf_base,
            coefs@,
            num_taps as int,
        ),
{
    let conf = filter_conf_base | 2;
    let mut v: Vec<RegisterWrite> = Vec::new();
    v.push(RegisterWrite { reg: set.enable_ctrl, value: enable_ctrl_target });
    v.push(RegisterWrite { reg: set.filter_conf, value: conf });
    let n: usize = if (num_taps as usize) < coefs.len() {
        num_taps as usize
    } else {
        coefs.len()
    };
    let mut i: usize = 0;
    while i < n
        invariant
            i <= n <= coefs@.len(),
            n <= 255,
            v@ == seq![
                RegisterWrite { reg: set.enable_ctrl, value: enable_ctrl_target },
                RegisterWrite { reg: set.filter_conf, value: conf },
            ] + fir_coefs_writes(set, conf, coefs@, i as int),
        decreases n - i,
    {
        let c = coefs[i];
        let u = c as u16;
        assert(u & 0xffu16 == u % 256) by (bit_vector);
        assert(u >> 8u16 == u / 256) by (bit_vector);
        let ghost before = v@;
        v.push(RegisterWrite { reg: set.coef_addr, value: i as u8 });
        v.push(RegisterWrite { reg: set.coef_data1, value: (u & 0xff) as u8 });
        v.push(RegisterWrite { reg: set.coef_data2, value: (u >> 8) as u8 });
        v.push(RegisterWrite { reg: set.filter_conf, value: conf | 4 });
        v.push(RegisterWrite { reg: set.coef_read_delay, value: 0 });
        v.push(RegisterWrite { reg: set.coef_read_delay, value: 0 });
        proof {
            assert(v@ =~= before + fir_coef_writes(set, conf, i as int, coefs@[i as int]));
        }
        i = i + 1;
    }
    v.push(RegisterWrite { reg: set.filter_conf, value: conf });
    v.push(RegisterWrite { reg: set.filter_conf, value: conf & !2u8 });
    v.push(RegisterWrite { reg: set.enable_ctrl, value: enable_ctrl_before });
    proof {
        assert(v@ =~= fir_load_writes(
            set,
            enable_ctrl_before,
            enable_ctrl_target,
            filter_conf_base,
            coefs@,
            num_taps as int,
        ));
    }
    v
}

// ---------------------------------------------------------------------------------------------
// Calibration runs.
// ---------------------------------------------------------------------------------------------
/// `CalibrationCtrl` value that starts the RX baseband filter tuning (bit 7).
pub const CAL_RX_BB_TUNE: u8 = 0x80;

/// `CalibrationCtrl` value that starts the TX baseband filter tuning (bit 6).
pub const CAL_TX_BB_TUNE: u8 = 0x40;

/// `CalibrationCtrl` value that starts the TX quadrature calibration (bit 4).
pub const CAL_TX_QUAD: u8 = 0x10;

/// `CalibrationCtrl` value that starts the RF DC offset calibration (bit 1).
pub const CAL_RF_DC: u8 = 0x02;

/// `CalibrationCtrl` value that starts the baseband DC offset calibration (bit 0).
pub const CAL_BB_DC: u8 = 0x01;

/// Number of polls after which a calibration times out.
pub const CALIBRATION_MAX_POLLS: u32 = 20_000;

/// One step of waiting for a calibration.
#[derive(Debug, Clone, Copy, PartialEq, Eq, Structural)]
pub enum CalibrationStep {
    /// The calibration finished.
    Done,
    /// Wait and poll again.
    Wait,
    /// The calibration timed out.
    Timeout,
}

/// Decides the wait for a calibration after a poll, when `polls` polls came before it: done when
/// the calibration is no longer busy, a timeout after `max_polls` earlier polls, else wait.
pub fn calibration_poll_step(busy: bool, polls: u32, max_polls: u32) -> (r: CalibrationStep)
    ensures
        !busy ==> r == CalibrationStep::Done,
        busy && polls >= max_polls ==> r == CalibrationStep::Timeout,
        busy && polls < max_polls ==> r == CalibrationStep::Wait,
{
    if !busy {
        CalibrationStep::Done
    } else if polls >= max_polls {
        CalibrationStep::Timeout
    } else {
        CalibrationStep::Wait
    }
}

/// Whether a calibration started by the `CalibrationCtrl` bits `start` still runs: the bits
/// clear themselves when it is done.
pub fn calibration_busy(calibration_ctrl: u8, start: u8) -> (r: bool)
    ensures
        r == (calibration_ctrl & start != 0),
{
    calibration_ctrl & start != 0
}

/// Whether the charge pump calibration of a synthesizer is done: bit 5 of its `CalStatus`.
pub fn cp_calibration_done(cal_status: u8) -> (r: bool)
    ensures
        r == (field8(cal_status, 5, 1) == 1),
{
    proof {
        lemma_field_bounds();
    }
    (cal_status >> 5) & 1 == 1
}

/// The VCO calibration count of a synthesizer charge pump calibration: 3 in FDD mode, else 1
/// above a 40 MHz reference and 0 up to it.
pub open spec fn cp_cal_count(refin_hz: u32, fdd: bool) -> u8 {
    if fdd {
        3
    } else if refin_hz > 40_000_000 {
        1
    } else {
        0
    }
}

/// The register writes that prepare and start the charge pump calibration of the TX (`tx`) or
/// RX synthesizer: level detect, sigma delta, LO generator, VCO LDO and power down override,
/// charge pump current and configuration with the bleed current off, the VCO calibration,
/// dual synthesizer FDD mode in the alert state, and then the calibration enable.
pub open spec fn cp_calibration_writes(refin_hz: u32, fdd: bool, tx: bool) -> Seq<RegisterWrite> {
    let w = |reg: Register, value: u8| RegisterWrite { reg, value };
    let cp_config = if tx {
        Register::TxCpConfig
    } else {
        Register::RxCpConfig
    };
    seq![
        w(if tx { Register::TxCpLevelDetect } else { Register::RxCpLevelDetect }, 0x17),
        w(if tx { Register::TxDsmSetup1 } else { Register::RxDsmSetup1 }, 0x00),
        w(if tx { Register::TxLoGenPowerMode } else { Register::RxLoGenPowerMode }, 0x00),
        w(if tx { Register::TxVcoLdo } else { Register::RxVcoLdo }, 0x0B),
        w(if tx { Register::TxVcoPdOverrides } else { Register::RxVcoPdOverrides }, 0x02),
        w(if tx { Register::TxCpCurrent } else { Register::RxCpCurrent }, 0x80),
        w(cp_config, 0x10),
        w(
            if tx { Register::TxVcoCal } else { Register::RxVcoCal },
            (0x82 + cp_cal_count(refin_hz, fdd) * 4) as u8,
        ),
        w(Register::EnsmConfig2, 0x04),
        w(Register::EnsmConfig1, 0x05),
        w(Register::EnsmMode, 0x01),
        w(cp_config, 0x14),
    ]
}

/// Computes the register writes of [`cp_calibration_writes`]; afterwards `TxCalStatus` or
/// `RxCalStatus` is polled until [`cp_calibration_done`].
pub fn cp_calibration_register_writes(refin_hz: u32, fdd: bool, tx: bool) -> (r: Vec<
    RegisterWrite,
>)
    ensures
        r@ == cp_calibration_writes(refin_hz, fdd, tx),
{
    let count: u8 = if fdd {
        3
    } else if refin_hz > 40_000_000 {
        1
    } else {
        0
    };
    let cp_config = if tx {
        Register::TxCpConfig
    } else {
        Register::RxCpConfig
    };
    let mut v: Vec<RegisterWrite> = Vec::new();
    v.push(
        RegisterWrite {
            reg: if tx {
                Register::TxCpLevelDetect
            } else {
                Register::RxCpLevelDetect
            },
            value: 0x17,
        },
    );
    v.push(
        RegisterWrite {
            reg: if tx {
                Register::TxDsmSetup1
            } else {
                Register::RxDsmSetup1
            },
            value: 0x00,
        },
    );
    v.push(
        RegisterWrite {
            reg: if tx {
                Register::TxLoGenPowerMode
            } else {
                Register::RxLoGenPowerMode
            },
            value: 0x00,
        },
    );
    v.push(
        RegisterWrite {
            reg: if tx {
                Register::TxVcoLdo
            } else {
                Register::RxVcoLdo
            },
            value: 0x0B,
        },
    );
    v.push(
        RegisterWrite {
            reg: if tx {
                Register::TxVcoPdOverrides
            } else {
                Register::RxVcoPdOverrides
            },
            value: 0x02,
        },
    );
    v.push(
        RegisterWrite {
            reg: if tx {
                Register::TxCpCurrent
            } else {
                Register::RxCpCurrent
            },
            value: 0x80,
        },
    );
    v.push(RegisterWrite { reg: cp_config, value: 0x10 });
    v.push(
        RegisterWrite {
            reg: if tx {
                Register::TxVcoCal
            } else {
                Register::RxVcoCal
            },
            value: 0x82 + count * 4,
        },
    );
    v.push(RegisterWrite { reg: Register::EnsmConfig2, value: 0x04 });
    v.push(RegisterWrite { reg: Register::EnsmConfig1, value: 0x05 });
    v.push(RegisterWrite { reg: Register::EnsmMode, value: 0x01 });
    v.push(RegisterWrite { reg: cp_config, value: 0x14 });
    assert(v@ =~= cp_calibration_writes(refin_hz, fdd, tx));
    v
}

// ---------------------------------------------------------------------------------------------
// ENSM setup, path enables, GPOs and the configured TX attenuation.
// ---------------------------------------------------------------------------------------------
/// The state the ENSM is brought into after the setup: FDD in FDD mode, RX in TDD mode.
pub open spec fn ensm_setup_target(duplex: DivisionDuplexConfig) -> regs_state::EnsmState {
    if duplex is Fdd {
        regs_state::EnsmState::Fdd
    } else {
        regs_state::EnsmState::Rx
    }
}

/// Computes the ENSM setup: the `EnsmConfig1` value (to alert, level mode unless the enable pin
/// is pulsed, pin control as configured, the RX data port for calibration with the TX monitor in
/// TDD mode, and forced TX on in FDD mode or forced RX on in TDD mode), `EnsmConfig2` (its value
/// before, with TXNRX taken from SPI as RX in TDD mode when neither pin control nor the dual
/// synthesizer is used) and the target state.
pub fn ensm_state_setup(
    duplex: DivisionDuplexConfig,
    pin_pulse_mode: bool,
    txnrx_control: bool,
    ensm_config_2: u8,
) -> (r: (
    u8,
    u8,
    regs_state::EnsmState,
))
    ensures
        r.0 == 1 + (if !pin_pulse_mode { 8int } else { 0int }) + (
        if txnrx_control {
            16int
        } else {
            0int
        }) + (match duplex {
            DivisionDuplexConfig::Fdd { .. } => 32int,
            DivisionDuplexConfig::Tdd { enable_txmon, .. } => 64int + if enable_txmon {
                128int
            } else {
                0int
            },
        }),
        r.1 == (match duplex {
            DivisionDuplexConfig::Tdd { use_dual_synth, .. } => if !txnrx_control
                && !use_dual_synth {
                with_field8(ensm_config_2, 4, 1, 0)
            } else {
                ensm_config_2
            },
            DivisionDuplexConfig::Fdd { .. } => ensm_config_2,
        }),
        r.2 == ensm_setup_target(duplex),
{
    let level: u8 = if !pin_pulse_mode {
        8
    } else {
        0
    };
    let pin: u8 = if txnrx_control {
        16
    } else {
        0
    };
    match duplex {
        DivisionDuplexConfig::Fdd { independent_mode: _ } => {
            (1 + level + pin + 32, ensm_config_2, regs_state::EnsmState::Fdd)
        },
        DivisionDuplexConfig::Tdd { enable_txmon, use_dual_synth } => {
            let txmon: u8 = if enable_txmon {
                128
            } else {
                0
            };
            let c2 = if !txnrx_control && !use_dual_synth {
                set_flag(ensm_config_2, 4, false)
            } else {
                ensm_config_2
            };
            (1 + level + pin + 64 + txmon, c2, regs_state::EnsmState::Rx)
        },
    }
}

/// Computes the ENSM mode setup: `EnsmMode` (bit 0 for FDD) and `EnsmConfig2` from its value
/// before: FDD uses the dual synthesizer (bit 2) and, in independent mode, the external FDD
/// control (bit 7); TDD with the dual synthesizer turns synthesizer pin control (bit 3) off and
/// the dual synthesizer on, else synthesizer pin control follows the TXNRX pin control.
pub fn ensm_mode_setup(duplex: DivisionDuplexConfig, txnrx_control: bool, ensm_config_2: u8) -> (r: (
    u8,
    u8,
))
    ensures
        r.0 == (if duplex is Fdd { 1int } else { 0int }),
        r.1 == (match duplex {
            DivisionDuplexConfig::Fdd { independent_mode } => if independent_mode {
                with_field8(with_field8(ensm_config_2, 2, 1, 1), 7, 1, 1)
            } else {
                with_field8(ensm_config_2, 2, 1, 1)
            },
            DivisionDuplexConfig::Tdd { use_dual_synth, .. } => if use_dual_synth {
                with_field8(with_field8(ensm_config_2, 3, 1, 0), 2, 1, 1)
            } else {
                with_field8(ensm_config_2, 3, 1, b8(txnrx_control))
            },
        }),
{
    match duplex {
        DivisionDuplexConfig::Fdd { independent_mode } => {
            let c2 = set_flag(ensm_config_2, 2, true);
            let c2 = if independent_mode {
                set_flag(c2, 7, true)
            } else {
                c2
            };
            (1, c2)
        },
        DivisionDuplexConfig::Tdd { enable_txmon: _, use_dual_synth } => {
            let c2 = if use_dual_synth {
                let c = set_flag(ensm_config_2, 3, false);
                set_flag(c, 2, true)
            } else {
                set_flag(ensm_config_2, 3, txnrx_control)
            };
            (0, c2)
        },
    }
}

/// A filter control register (`RxEnableFilterCtrl` or `TxEnableFilterCtrl`) with channel 1
/// (bit 6) and channel 2 (bit 7) enabled or disabled.
pub fn path_enables(filter_ctrl: u8, enable_1: bool, enable_2: bool) -> (r: u8)
    ensures
        r == with_field8(with_field8(filter_ctrl, 6, 1, b8(enable_1)), 7, 1, b8(enable_2)),
{
    let v = set_flag(filter_ctrl, 6, enable_1);
    set_flag(v, 7, enable_2)
}

/// The channels a transceiver channel mode uses: both, or the single RX and TX one.
pub open spec fn channels_used(mode: TransceiverChannelMode) -> (bool, bool, bool, bool) {
    match mode {
        TransceiverChannelMode::Dual => (true, true, true, true),
        TransceiverChannelMode::Single { rx, tx } => (
            rx == ReceiverId::Rx1,
            rx == ReceiverId::Rx2,
            tx == TransmitterId::Tx1,
            tx == TransmitterId::Tx2,
        ),
    }
}

/// Which receivers and transmitters a transceiver channel mode enables: `(rx1, rx2, tx1, tx2)`.
pub fn channel_enables(mode: TransceiverChannelMode) -> (r: (bool, bool, bool, bool))
    ensures
        r == channels_used(mode),
{
    match mode {
        TransceiverChannelMode::Dual => (true, true, true, true),
        TransceiverChannelMode::Single { rx, tx } => (
            rx == ReceiverId::Rx1,
            rx == ReceiverId::Rx2,
            tx == TransmitterId::Tx1,
            tx == TransmitterId::Tx2,
        ),
    }
}

/// `AutoGpo` and `GpoForceAndInit` of a GPO configuration: bit `4 + i` and bit `i` of the first
/// are the RX and TX slave enables of pin `i`, of the second its initial state and its high
/// inactive state.
pub fn gpo_registers(config: &GpoConfig) -> (r: (u8, u8))
    ensures
        forall|i: int|
            0 <= i < 4 ==> field8(r.0, (4 + i) as u8, 1) == b8(config.gpo[i].slave_rx_enable)
                && field8(r.0, i as u8, 1) == b8(config.gpo[i].slave_tx_enable) && field8(
                r.1,
                (4 + i) as u8,
                1,
            ) == b8(config.gpo[i].init_state) && field8(r.1, i as u8, 1) == b8(
                config.gpo[i].inactive_state_high,
            ),
{
    let mut auto: u8 = 0;
    let mut force: u8 = 0;
    let mut i: usize = 0;
    while i < 4
        invariant
            i <= 4,
            forall|k: int|
                0 <= k < i ==> field8(auto, (4 + k) as u8, 1) == b8(config.gpo[k].slave_rx_enable)
                    && field8(auto, k as u8, 1) == b8(config.gpo[k].slave_tx_enable) && field8(
                    force,
                    (4 + k) as u8,
                    1,
                ) == b8(config.gpo[k].init_state) && field8(force, k as u8, 1) == b8(
                    config.gpo[k].inactive_state_high,
                ),
        decreases 4 - i,
    {
        let g = &config.gpo[i];
        let ghost a0 = auto;
        let ghost f0 = force;
        auto = set_flag(auto, 4 + i as u8, g.slave_rx_enable);
        let ghost a1 = auto;
        auto = set_flag(auto, i as u8, g.slave_tx_enable);
        force = set_flag(force, 4 + i as u8, g.init_state);
        let ghost f1 = force;
        force = set_flag(force, i as u8, g.inactive_state_high);
        proof {
            assert forall|k: int|
                #![trigger field8(auto, k as u8, 1)]
                0 <= k < i implies field8(auto, (4 + k) as u8, 1) == field8(
                a0,
                (4 + k) as u8,
                1,
            ) && field8(auto, k as u8, 1) == field8(a0, k as u8, 1) && field8(
                force,
                (4 + k) as u8,
                1,
            ) == field8(f0, (4 + k) as u8, 1) && field8(force, k as u8, 1) == field8(
                f0,
                k as u8,
                1,
            ) by {
                assert(field8(a1, (4 + k) as u8, 1) == field8(a0, (4 + k) as u8, 1));
                assert(field8(a1, k as u8, 1) == field8(a0, k as u8, 1));
                assert(field8(f1, (4 + k) as u8, 1) == field8(f0, (4 + k) as u8, 1));
                assert(field8(f1, k as u8, 1) == field8(f0, k as u8, 1));
            }
            assert(field8(auto, (4 + i) as u8, 1) == field8(a1, (4 + i) as u8, 1));
            assert(field8(force, (4 + i) as u8, 1) == field8(f1, (4 + i) as u8, 1));
        }
        i = i + 1;
    }
    (auto, force)
}

/// `Tx2DigAtten` with the immediate attenuation update (bit 6) on or off.
pub fn tx_atten_immediate_update(tx2_dig_atten: u8, enable: bool) -> (r: u8)
    ensures
        r == with_field8(tx2_dig_atten, 6, 1, b8(enable)),
{
    set_flag(tx2_dig_atten, 6, enable)
}

/// One attenuation word of the configured TX attenuation: the transmitter and the high and low
/// byte written to its `TxNAtten1`/`TxNAtten0` pair.
#[derive(Debug, Clone, Copy, PartialEq, Eq, Structural)]
pub struct TxAttenBytes {
    /// The transmitter.
    pub tx: TransmitterId,
    /// Bits 8 to 15 of the attenuation code.
    pub msb: u8,
    /// Bits 0 to 7 of the attenuation code.
    pub lsb: u8,
}

/// The attenuation words of an attenuation in milli-dB, in steps of 0.25 dB.
pub open spec fn atten_bytes(tx: TransmitterId, atten_md_b: u32) -> TxAttenBytes {
    TxAttenBytes {
        tx,
        msb: ((atten_md_b / 250) / 256 % 256) as u8,
        lsb: ((atten_md_b / 250) % 256) as u8,
    }
}

/// The attenuation words of the configured TX attenuation, in the order they are written: in
/// dual mode both transmitters get the configured attenuation; in single mode the one in use
/// gets it and then the other one gets the mute attenuation.
pub open spec fn tx_attenuation_setup_writes(mode: TransceiverChannelMode, atten_md_b: u32) -> Seq<
    TxAttenBytes,
> {
    match mode {
        TransceiverChannelMode::Dual => seq![
            atten_bytes(TransmitterId::Tx1, atten_md_b),
            atten_bytes(TransmitterId::Tx2, atten_md_b),
        ],
        TransceiverChannelMode::Single { tx, .. } => if tx == TransmitterId::Tx1 {
            seq![
                atten_bytes(TransmitterId::Tx1, atten_md_b),
                atten_bytes(TransmitterId::Tx2, TX_MUTE_ATTENUATION_MDB),
            ]
        } else {
            seq![
                atten_bytes(TransmitterId::Tx2, atten_md_b),
                atten_bytes(TransmitterId::Tx1, TX_MUTE_ATTENUATION_MDB),
            ]
        },
    }
}

fn atten_bytes_exec(tx: TransmitterId, atten_md_b: u32) -> (r: TxAttenBytes)
    ensures
        r == atten_bytes(tx, atten_md_b),
{
    let v = atten_md_b / 250;
    assert((v >> 8u32) & 0xff == v / 256 % 256) by (bit_vector);
    assert(v & 0xff == v % 256) by (bit_vector);
    TxAttenBytes { tx, msb: ((v >> 8) & 0xff) as u8, lsb: (v & 0xff) as u8 }
}

/// Computes the attenuation words of the configured TX attenuation, see
/// [`tx_attenuation_setup_writes`]. They are written between turning the immediate update of
/// `Tx2DigAtten` off and on again.
pub fn tx_attenuation_setup(mode: TransceiverChannelMode, atten_md_b: u32) -> (r: Vec<TxAttenBytes>)
    ensures
        r@ == tx_attenuation_setup_writes(mode, atten_md_b),
{
    let mut v: Vec<TxAttenBytes> = Vec::new();
    match mode {
        TransceiverChannelMode::Dual => {
            v.push(atten_bytes_exec(TransmitterId::Tx1, atten_md_b));
            v.push(atten_bytes_exec(TransmitterId::Tx2, atten_md_b));
        },
        TransceiverChannelMode::Single { rx: _, tx } => {
            if tx == TransmitterId::Tx1 {
                v.push(atten_bytes_exec(TransmitterId::Tx1, atten_md_b));
                v.push(atten_bytes_exec(TransmitterId::Tx2, TX_MUTE_ATTENUATION_MDB));
            } else {
                v.push(atten_bytes_exec(TransmitterId::Tx2, atten_md_b));
                v.push(atten_bytes_exec(TransmitterId::Tx1, TX_MUTE_ATTENUATION_MDB));
            }
        },
    }
    assert(v@ =~= tx_attenuation_setup_writes(mode, atten_md_b));
    v
}

/// Whether [`gain_update_registers`] can be computed, see [`gain_update_fits`].
pub fn gain_update_check(config: &GainControl, delay_lna_ns: u32, rx_fir_input: u32, rx_sample: u32) -> (r:
    bool)
    ensures
        r == gain_update_fits(*config, delay_lna_ns, rx_fir_input, rx_sample),
{
    if rx_fir_input < 2000 || rx_sample == 0 || rx_fir_input as u64 + (rx_sample / 2) as u64
        > u32::MAX as u64 {
        return false;
    }
    if div_round_u32(rx_fir_input, rx_sample) == 0 {
        return false;
    }
    if delay_lna_ns as u64 + 200 > u32::MAX as u64 {
        return false;
    }
    let khz = (rx_fir_input / 1000) as u64;
    assert((delay_lna_ns + 200) * khz <= 0x1_0000_0000 * 0xFFFF_FFFFu64) by (nonlinear_arith)
        requires
            delay_lna_ns + 200 <= 0x1_0000_0000,
            khz <= 0xFFFF_FFFF,
    ;
    if (delay_lna_ns as u64 + 200) * khz + 1_000_000 > u32::MAX as u64 {
        return false;
    }
    match config.auto() {
        Some(a) => {
            let v = (200 + delay_lna_ns as u64) / 2 + 14_000_000 / ((rx_fir_input / 500) as u64)
                + 1000 + a.attack_delay_extra_margin_us as u64;
            if v > u32::MAX as u64 {
                return false;
            }
        },
        None => {},
    }
    let interval = config.common().gain_update_interval_us as u64;
    assert(interval * khz <= 0xFFFF_FFFF * 0xFFFF_FFFFu64) by (nonlinear_arith)
        requires
            interval <= 0xFFFF_FFFF,
            khz <= 0xFFFF_FFFF,
    ;
    if interval * khz > u32::MAX as u64 {
        return false;
    }
    if config.common().dec_pow_measurement_duration.0 >= 16 {
        return false;
    }
    match config.fast() {
        Some(f) => {
            let w = f.state_wait_time_ns as u64;
            assert(w * khz <= 0xFFFF_FFFF * 0xFFFF_FFFFu64) by (nonlinear_arith)
                requires
                    w <= 0xFFFF_FFFF,
                    khz <= 0xFFFF_FFFF,
            ;
            if w * khz + 500_000 > u32::MAX as u64 {
                return false;
            }
        },
        None => {},
    }
    true
}

// ---------------------------------------------------------------------------------------------
// Fast AGC.
// ---------------------------------------------------------------------------------------------
/// A flag as a 1 bit field value.
pub open spec fn b8(b: bool) -> u8 {
    if b {
        1
    } else {
        0
    }
}

/// The registers that the fast AGC setup changes.
#[derive(Debug, Clone, Copy, PartialEq, Eq, Structural)]
pub struct FastAgcRegisters {
    /// `FastConfig1`.
    pub fast_config_1: u8,
    /// `FastIncrementTime`.
    pub fast_increment_time: u8,
    /// `FastEnergyDetectCount`.
    pub fast_energy_detect_count: u8,
    /// `FastConfig2SettlingDelay`.
    pub fast_config_2_settling_delay: u8,
    /// `FastAgcllUpperLimit`.
    pub fast_agcll_upper_limit: u8,
    /// `FastEnergyLostThresh`.
    pub fast_energy_lost_thresh: u8,
    /// `FastStrongerSignalThresh`.
    pub fast_stronger_signal_thresh: u8,
    /// `FastFinalOverRangeAndOptGain`.
    pub fast_final_over_range_and_opt_gain: u8,
    /// `AgcConfig2`.
    pub agc_config_2: u8,
    /// `EnsmConfig1`.
    pub ensm_config_1: u8,
    /// `FastLowPowerThresh`.
    pub fast_low_power_thresh: u8,
    /// `FastStrongSignalFreeze`.
    pub fast_strong_signal_freeze: u8,
    /// `FastGainLockExitCount`.
    pub fast_gain_lock_exit_count: u8,
    /// `Rx1ManualLpfGainOrAgcCurrentLpf`.
    pub rx1_manual_lpf_gain: u8,
    /// `Rx1ManualLmtFullGain`.
    pub rx1_manual_lmt_full_gain: u8,
}

/// Whether the EN_AGC pin is used by the fast AGC.
pub open spec fn fast_agc_pin_used(c: GainControlFastAutoConfig) -> bool {
    c.gain_index_type_on_en_agc_high is Some
}

/// Whether any gain unlock of the fast AGC is suppressed.
pub open spec fn fast_agc_unlock_suppressed(c: GainControlFastAutoConfig) -> bool {
    c.suppress_gain_unlock_on_energy_lost_threshold_exceeded
        || c.suppress_gain_unlock_on_large_adc_large_lmt_overload
        || c.suppress_gain_unlock_on_stronger_signal_threshold_exceeded
}

/// The 4 bit power measurement duration code of state 5: the base 2 logarithm of the duration
/// over 16, at most 15.
pub open spec fn fast_agc_power_meas_code(c: GainControlFastAutoConfig) -> int {
    min(ilog2((c.power_measurement_duration_in_state5 / 16) as int), 15)
}

/// Computes the registers of the fast AGC from their values `before` the setup. Every field the
/// configuration sets is written; all other fields keep their value. The EN_AGC pin target
/// decides `goto_max_gain_or_opt_gain_if_en_agc_high` (bit 5 of `FastConfig2SettlingDelay`) and
/// the EN_AGC bits of `FastConfig1`; the gain unlock control (bit 6 of `AgcConfig2`) is set when
/// the pin is used or a gain unlock is suppressed, and `auto_gain_lock` (bit 1 of `EnsmConfig1`)
/// is set unless the pin is used without any suppression.
#[verifier::rlimit(50)]
pub fn fast_agc_registers(c: &GainControlFastAutoConfig, before: FastAgcRegisters) -> (r:
    FastAgcRegisters)
    requires
        c.lock_level_gain_increase_upper_limit < 64,
        c.lpf_final_settling_steps < 4,
        c.lmt_final_settling_steps < 4,
        c.final_overrange_count < 8,
        c.optimized_gain_offset < 16,
        c.rst_gla_stronger_sig_thresh_above_ll < 64,
        c.rst_gla_energy_lost_sig_thresh_below_ll < 64,
        c.energy_lost_stronger_sig_gain_lock_exit_cnt < 64,
        c.power_measurement_duration_in_state5 >= 16,
    ensures
        // FastConfig1
        field8(r.fast_config_1, 0, 1) == b8(c.allow_agc_gain_increase),
        field8(r.fast_config_1, 1, 1) == b8(c.suppress_gain_unlock_on_large_adc_large_lmt_overload),
        field8(r.fast_config_1, 2, 1) == b8(
            c.gain_index_type_after_exit_rx_mode == FastAgcTargetGainIndexType::OptimizedGain,
        ),
        field8(r.fast_config_1, 3, 1) == b8(
            c.suppress_gain_unlock_on_energy_lost_threshold_exceeded,
        ),
        field8(r.fast_config_1, 4, 1) == b8(
            c.gain_index_type_after_exit_rx_mode == FastAgcTargetGainIndexType::SetGain
                && c.gain_index_type_on_en_agc_high != Some(FastAgcTargetGainIndexType::MaxGain),
        ),
        field8(r.fast_config_1, 5, 1) == (match c.gain_index_type_on_en_agc_high {
            Some(FastAgcTargetGainIndexType::SetGain) => 1u8,
            Some(FastAgcTargetGainIndexType::OptimizedGain) => 0u8,
            _ => field8(before.fast_config_1, 5, 1),
        }),
        field8(r.fast_config_1, 6, 1) == (match c.gain_index_type_on_en_agc_high {
            Some(FastAgcTargetGainIndexType::OptimizedGain) => 1u8,
            Some(FastAgcTargetGainIndexType::SetGain) => field8(before.fast_config_1, 6, 1),
            Some(_) => 0u8,
            None => field8(before.fast_config_1, 6, 1),
        }),
        field8(r.fast_config_1, 7, 1) == b8(c.gain_increase_after_gain_lock),
        // FastIncrementTime
        r.fast_increment_time == c.lp_thresh_increment_time,
        // FastEnergyDetectCount
        field8(r.fast_energy_detect_count, 5, 3) == clamp(c.lp_thresh_increment_steps as int, 1, 8)
            - 1,
        field8(r.fast_energy_detect_count, 0, 5) == field8(before.fast_energy_detect_count, 0, 5),
        // FastConfig2SettlingDelay
        field8(r.fast_config_2_settling_delay, 0, 5) == field8(
            before.fast_config_2_settling_delay,
            0,
            5,
        ),
        field8(r.fast_config_2_settling_delay, 5, 1) == (match c.gain_index_type_on_en_agc_high {
            Some(FastAgcTargetGainIndexType::MaxGain) => 1u8,
            Some(FastAgcTargetGainIndexType::OptimizedGain) => 1u8,
            Some(_) => 0u8,
            None => field8(before.fast_config_2_settling_delay, 5, 1),
        }),
        field8(r.fast_config_2_settling_delay, 6, 1) == b8(c.lock_level_lmt_gain_increase),
        field8(r.fast_config_2_settling_delay, 7, 1) == b8(c.use_last_lock_level_for_set_gain),
        // FastAgcllUpperLimit
        field8(r.fast_agcll_upper_limit, 0, 6) == c.lock_level_gain_increase_upper_limit,
        field8(r.fast_agcll_upper_limit, 6, 2) == field8(before.fast_agcll_upper_limit, 6, 2),
        // FastEnergyLostThresh
        field8(r.fast_energy_lost_thresh, 0, 6) == c.rst_gla_energy_lost_sig_thresh_below_ll,
        field8(r.fast_energy_lost_thresh, 6, 2) == c.lpf_final_settling_steps,
        // FastStrongerSignalThresh
        field8(r.fast_stronger_signal_thresh, 0, 6) == c.rst_gla_stronger_sig_thresh_above_ll,
        field8(r.fast_stronger_signal_thresh, 6, 2) == c.lmt_final_settling_steps,
        // FastFinalOverRangeAndOptGain
        field8(r.fast_final_over_range_and_opt_gain, 0, 4) == c.optimized_gain_offset,
        field8(r.fast_final_over_range_and_opt_gain, 4, 1) == field8(
            before.fast_final_over_range_and_opt_gain,
            4,
            1,
        ),
        field8(r.fast_final_over_range_and_opt_gain, 5, 3) == c.final_overrange_count,
        // AgcConfig2
        field8(r.agc_config_2, 6, 1) == b8(fast_agc_pin_used(*c) || fast_agc_unlock_suppressed(*c)),
        field8(r.agc_config_2, 0, 6) == field8(before.agc_config_2, 0, 6),
        field8(r.agc_config_2, 7, 1) == field8(before.agc_config_2, 7, 1),
        // EnsmConfig1
        field8(r.ensm_config_1, 1, 1) == (if !fast_agc_pin_used(*c) || fast_agc_unlock_suppressed(
            *c,
        ) {
            1u8
        } else {
            field8(before.ensm_config_1, 1, 1)
        }),
        field8(r.ensm_config_1, 0, 1) == field8(before.ensm_config_1, 0, 1),
        field8(r.ensm_config_1, 2, 6) == field8(before.ensm_config_1, 2, 6),
        // FastLowPowerThresh
        field8(r.fast_low_power_thresh, 7, 1) == b8(c.suppress_gain_unlock_on_adc_overload),
        field8(r.fast_low_power_thresh, 0, 7) == field8(before.fast_low_power_thresh, 0, 7),
        // FastStrongSignalFreeze
        field8(r.fast_strong_signal_freeze, 7, 1) == b8(
            c.suppress_gain_unlock_on_stronger_signal_threshold_exceeded,
        ),
        field8(r.fast_strong_signal_freeze, 0, 7) == field8(before.fast_strong_signal_freeze, 0, 7),
        // FastGainLockExitCount
        field8(r.fast_gain_lock_exit_count, 0, 6) == c.energy_lost_stronger_sig_gain_lock_exit_cnt,
        field8(r.fast_gain_lock_exit_count, 6, 2) == field8(before.fast_gain_lock_exit_count, 6, 2),
        // Rx1ManualLpfGainOrAgcCurrentLpf and Rx1ManualLmtFullGain
        field8(r.rx1_manual_lpf_gain, 5, 3) == fast_agc_power_meas_code(*c) % 8,
        field8(r.rx1_manual_lpf_gain, 0, 5) == field8(before.rx1_manual_lpf_gain, 0, 5),
        field8(r.rx1_manual_lmt_full_gain, 7, 1) == fast_agc_power_meas_code(*c) / 8,
        field8(r.rx1_manual_lmt_full_gain, 0, 7) == field8(before.rx1_manual_lmt_full_gain, 0, 7),
{
    proof {
        lemma_field_bounds();
    }
    let mut fc1 = set_flag(before.fast_config_1, 0, c.allow_agc_gain_increase);
    let steps: u8 = if c.lp_thresh_increment_steps < 1 {
        1
    } else if c.lp_thresh_increment_steps > 8 {
        8
    } else {
        c.lp_thresh_increment_steps
    };
    let edc = set_field(before.fast_energy_detect_count, 5, 3, steps - 1);
    let mut fc2 = set_flag(before.fast_config_2_settling_delay, 6, c.lock_level_lmt_gain_increase);
    let upper = set_field(before.fast_agcll_upper_limit, 0, 6, c.lock_level_gain_increase_upper_limit);
    let mut lost = set_field(before.fast_energy_lost_thresh, 6, 2, c.lpf_final_settling_steps);
    let mut stronger = set_field(before.fast_stronger_signal_thresh, 6, 2, c.lmt_final_settling_steps);
    let mut over = set_field(before.fast_final_over_range_and_opt_gain, 5, 3, c.final_overrange_count);
    fc1 = set_flag(fc1, 7, c.gain_increase_after_gain_lock);
    fc2 = set_flag(fc2, 7, c.use_last_lock_level_for_set_gain);
    over = set_field(over, 0, 4, c.optimized_gain_offset);
    fc1 = set_flag(
        fc1,
        4,
        c.gain_index_type_after_exit_rx_mode == FastAgcTargetGainIndexType::SetGain,
    );
    fc1 = set_flag(
        fc1,
        2,
        c.gain_index_type_after_exit_rx_mode == FastAgcTargetGainIndexType::OptimizedGain,
    );
    fc1 = set_flag(fc1, 1, c.suppress_gain_unlock_on_large_adc_large_lmt_overload);
    fc1 = set_flag(fc1, 3, c.suppress_gain_unlock_on_energy_lost_threshold_exceeded);
    let en_agc_pin_used = c.gain_index_type_on_en_agc_high.is_some();
    let any_gain_unlock_suppressed = c.suppress_gain_unlock_on_energy_lost_threshold_exceeded
        || c.suppress_gain_unlock_on_large_adc_large_lmt_overload
        || c.suppress_gain_unlock_on_stronger_signal_threshold_exceeded;
    let agc2 = set_flag(before.agc_config_2, 6, en_agc_pin_used || any_gain_unlock_suppressed);
    match c.gain_index_type_on_en_agc_high {
        Some(FastAgcTargetGainIndexType::MaxGain) => {
            fc2 = set_flag(fc2, 5, true);
            fc1 = set_flag(fc1, 4, false);
            fc1 = set_flag(fc1, 6, false);
        },
        Some(FastAgcTargetGainIndexType::SetGain) => {
            fc2 = set_flag(fc2, 5, false);
            fc1 = set_flag(fc1, 5, true);
        },
        Some(FastAgcTargetGainIndexType::OptimizedGain) => {
            fc2 = set_flag(fc2, 5, true);
            fc1 = set_flag(fc1, 5, false);
            fc1 = set_flag(fc1, 6, true);
        },
        Some(FastAgcTargetGainIndexType::NoGainChange) => {
            fc2 = set_flag(fc2, 5, false);
            fc1 = set_flag(fc1, 6, false);
        },
        None => {},
    }
    let ensm1 = if !en_agc_pin_used || any_gain_unlock_suppressed {
        set_flag(before.ensm_config_1, 1, true)
    } else {
        before.ensm_config_1
    };
    let low = set_flag(before.fast_low_power_thresh, 7, c.suppress_gain_unlock_on_adc_overload);
    let freeze = set_flag(
        before.fast_strong_signal_freeze,
        7,
        c.suppress_gain_unlock_on_stronger_signal_threshold_exceeded,
    );
    stronger = set_field(stronger, 0, 6, c.rst_gla_stronger_sig_thresh_above_ll);
    lost = set_field(lost, 0, 6, c.rst_gla_energy_lost_sig_thresh_below_ll);
    let exit = set_field(before.fast_gain_lock_exit_count, 0, 6, c.energy_lost_stronger_sig_gain_lock_exit_cnt);
    let l = ilog2_u32(c.power_measurement_duration_in_state5 / 16);
    let pmd: u8 = if l < 15 {
        l as u8
    } else {
        15
    };
    assert(pmd & 7 == pmd % 8) by (bit_vector);
    assert((pmd >> 3u8) == pmd / 8) by (bit_vector);
    let lpf = set_field(before.rx1_manual_lpf_gain, 5, 3, pmd & 0b111);
    let lmt = set_flag(before.rx1_manual_lmt_full_gain, 7, (pmd >> 3) == 1);
    FastAgcRegisters {
        fast_config_1: fc1,
        fast_increment_time: c.lp_thresh_increment_time,
        fast_energy_detect_count: edc,
        fast_config_2_settling_delay: fc2,
        fast_agcll_upper_limit: upper,
        fast_energy_lost_thresh: lost,
        fast_stronger_signal_thresh: stronger,
        fast_final_over_range_and_opt_gain: over,
        agc_config_2: agc2,
        ensm_config_1: ensm1,
        fast_low_power_thresh: low,
        fast_strong_signal_freeze: freeze,
        fast_gain_lock_exit_count: exit,
        rx1_manual_lpf_gain: lpf,
        rx1_manual_lmt_full_gain: lmt,
    }
}

// ---------------------------------------------------------------------------------------------
// RSSI measurement.
// ---------------------------------------------------------------------------------------------

/// The exponents of the powers of two taken greedily from `rem`, largest first: the exponents
/// `k - 1` down to 0 are tried in turn, one is taken when its power still fits into what is left,
/// and at most `n` are taken.
pub open spec fn greedy_terms(rem: int, k: nat, n: nat) -> Seq<int>
    decreases k,
{
    if k == 0 || n == 0 {
        Seq::empty()
    } else if rem >= pow2((k - 1) as nat) {
        seq![(k - 1) as int] + greedy_terms(
            rem - pow2((k - 1) as nat),
            (k - 1) as nat,
            (n - 1) as nat,
        )
    } else {
        greedy_terms(rem, (k - 1) as nat, n)
    }
}

/// What is left of `rem` after the greedy decomposition of [`greedy_terms`].
pub open spec fn greedy_rest(rem: int, k: nat, n: nat) -> int
    decreases k,
{
    if k == 0 || n == 0 {
        rem
    } else if rem >= pow2((k - 1) as nat) {
        greedy_rest(rem - pow2((k - 1) as nat), (k - 1) as nat, (n - 1) as nat)
    } else {
        greedy_rest(rem, (k - 1) as nat, n)
    }
}

/// The exponents of an RSSI measurement duration: up to four powers of two of at most `2^14`.
pub open spec fn rssi_terms(duration: int) -> Seq<int> {
    greedy_terms(duration, 15, 4)
}

/// The greedy decomposition takes at most `n` exponents, each below `k`, in decreasing order,
/// and the taken powers plus what is left make up `rem`.
pub proof fn lemma_greedy_terms(rem: int, k: nat, n: nat)
    ensures
        greedy_terms(rem, k, n).len() <= n,
        forall|j: int|
            0 <= j < greedy_terms(rem, k, n).len() ==> 0 <= #[trigger] greedy_terms(rem, k, n)[j]
                < k,
        forall|i: int, j: int|
            0 <= i < j < greedy_terms(rem, k, n).len() ==> greedy_terms(rem, k, n)[i]
                > greedy_terms(rem, k, n)[j],
        rem >= 0 ==> pow2_sum(greedy_terms(rem, k, n)) + greedy_rest(rem, k, n) == rem,
        rem >= 0 ==> greedy_rest(rem, k, n) >= 0,
    decreases k,
{
    if k == 0 || n == 0 {
    } else {
        let p = pow2((k - 1) as nat) as int;
        if rem >= p {
            lemma_greedy_terms(rem - p, (k - 1) as nat, (n - 1) as nat);
            let t = greedy_terms(rem - p, (k - 1) as nat, (n - 1) as nat);
            let s = seq![(k - 1) as int] + t;
            assert(greedy_terms(rem, k, n) == s);
            lemma_pow2_sum_prepend((k - 1) as int, t);
        } else {
            lemma_greedy_terms(rem, (k - 1) as nat, n);
        }
    }
}

/// Sum of `2^e` over the exponents `e` of `t`.
pub open spec fn pow2_sum(t: Seq<int>) -> int
    decreases t.len(),
{
    if t.len() == 0 {
        0
    } else {
        pow2_sum(t.drop_last()) + pow2(t.last() as nat)
    }
}

proof fn lemma_pow2_sum_prepend(e: int, t: Seq<int>)
    ensures
        pow2_sum(seq![e] + t) == pow2(e as nat) + pow2_sum(t),
    decreases t.len(),
{
    let s = seq![e] + t;
    if t.len() == 0 {
        assert(s.drop_last() =~= Seq::<int>::empty());
        assert(s.last() == e);
        assert(pow2_sum(s.drop_last()) == 0);
        assert(pow2_sum(t) == 0);
    } else {
        assert(s.drop_last() =~= seq![e] + t.drop_last());
        assert(s.last() == t.last());
        lemma_pow2_sum_prepend(e, t.drop_last());
        assert(pow2_sum(s) == pow2_sum(s.drop_last()) + pow2(s.last() as nat));
        assert(pow2_sum(t) == pow2_sum(t.drop_last()) + pow2(t.last() as nat));
    }
}

/// Total duration of the partial measurements, at least 1.
pub open spec fn rssi_total(t: Seq<int>) -> int {
    if pow2_sum(t) < 1 {
        1
    } else {
        pow2_sum(t)
    }
}

/// Weight of the partial measurement `j` before the correction: its share of 255, rounded.
pub open spec fn rssi_raw_weight(t: Seq<int>, j: int) -> int {
    div_round((255 * pow2(t[j] as nat)) as int, rssi_total(t))
}

/// Sum of the first `m` weights before the correction.
pub open spec fn rssi_raw_weight_sum(t: Seq<int>, m: int) -> int
    decreases m,
{
    if m <= 0 {
        0
    } else {
        rssi_raw_weight_sum(t, m - 1) + rssi_raw_weight(t, m - 1)
    }
}

/// How far the rounded weights exceed 255; taken off the last weight.
pub open spec fn rssi_correction(t: Seq<int>) -> int {
    let s = rssi_raw_weight_sum(t, t.len() as int);
    if s > 255 {
        s - 255
    } else {
        0
    }
}

/// The final weight of the partial measurement `j`.
pub open spec fn rssi_weight(t: Seq<int>, j: int) -> int {
    if j == t.len() - 1 {
        rssi_raw_weight(t, j) - rssi_correction(t)
    } else {
        rssi_raw_weight(t, j)
    }
}

/// Whether the correction can be taken off the last weight without going below zero.
pub open spec fn rssi_weights_fit(t: Seq<int>) -> bool {
    t.len() > 0 ==> rssi_raw_weight(t, t.len() - 1) >= rssi_correction(t)
}

/// The RSSI delay, duration and wait in RX samples: as configured, or converted from
/// microseconds with the RX sample rate rounded to kHz.
pub open spec fn rssi_samples(inner: TemporalConfig, rx_sample_hz: u32) -> (int, int, int) {
    match inner {
        TemporalConfig::RxSamples { delay, duration, wait } => (
            delay as int,
            duration as int,
            wait as int,
        ),
        TemporalConfig::TimeUs { delay_us, duration_us, wait_us } => {
            let rate = div_round(rx_sample_hz as int, 1000);
            (
                div_round(delay_us * rate, 1000),
                div_round(duration_us * rate, 1000),
                div_round(wait_us * rate, 1000),
            )
        },
    }
}

/// Whether converting microseconds to RX samples stays within 32 bits.
pub open spec fn rssi_samples_fit(inner: TemporalConfig, rx_sample_hz: u32) -> bool {
    match inner {
        TemporalConfig::RxSamples { .. } => true,
        TemporalConfig::TimeUs { delay_us, duration_us, wait_us } => {
            let rate = div_round(rx_sample_hz as int, 1000);
            &&& rx_sample_hz + 500 <= u32::MAX
            &&& delay_us * rate + 500 <= u32::MAX
            &&& duration_us * rate + 500 <= u32::MAX
            &&& wait_us * rate + 500 <= u32::MAX
        },
    }
}

/// Register values of the RSSI measurement.
#[derive(Debug, Clone, Copy, PartialEq, Eq)]
pub struct RssiSetup {
    /// `RssiDelay`, in units of 8 RX samples.
    pub delay: u8,
    /// `RssiWaitTime`, in units of 4 RX samples.
    pub wait: u8,
    /// Exponents of the partial measurement durations; 0 where unused.
    pub durations: [u8; 4],
    /// `MeasureDuration01`: the exponent of duration 1 in bits 4 to 7, of duration 0 in bits 0
    /// to 3.
    pub measure_duration_01: u8,
    /// `MeasureDuration23`: the exponent of duration 3 in bits 4 to 7, of duration 2 in bits 0
    /// to 3.
    pub measure_duration_23: u8,
    /// `RssiWeight0` to `RssiWeight3`; 0 where unused.
    pub weights: [u8; 4],
    /// The `RssiConfig` register.
    pub config: u8,
}

fn pow2_u32(e: u8) -> (r: u32)
    requires
        e < 15,
    ensures
        r == pow2(e as nat),
        r <= 16384,
{
    let mut r: u32 = 1;
    let mut i: u8 = 0;
    proof {
        vstd::arithmetic::power2::lemma2_to64();
    }
    while i < e
        invariant
            i <= e < 15,
            r == pow2(i as nat),
            r <= pow2(14),
        decreases e - i,
    {
        proof {
            vstd::arithmetic::power2::lemma_pow2_unfold((i + 1) as nat);
            if i + 1 < 14 {
                vstd::arithmetic::power2::lemma_pow2_strictly_increases((i + 1) as nat, 14);
            }
            vstd::arithmetic::power2::lemma2_to64();
        }
        r = r * 2;
        i = i + 1;
    }
    proof {
        vstd::arithmetic::power2::lemma2_to64();
    }
    r
}

/// Decomposes an RSSI measurement duration greedily into up to four powers of two of at most
/// `2^14`, largest first. Returns the exponents (0 where unused), their number and what is left
/// of the duration.
pub fn rssi_duration_terms(duration: u32) -> (r: ([u8; 4], usize, u32))
    ensures
        r.1 == rssi_terms(duration as int).len(),
        forall|j: int| 0 <= j < r.1 ==> r.0[j] == rssi_terms(duration as int)[j],
        forall|j: int| r.1 <= j < 4 ==> r.0[j] == 0,
        r.2 == greedy_rest(duration as int, 15, 4),
{
    let mut terms: [u8; 4] = [0u8; 4];
    let mut count: usize = 0;
    let mut rest: u32 = duration;
    let mut k: u32 = 15;
    let mut p: u32 = 32768;
    proof {
        vstd::arithmetic::power2::lemma2_to64();
    }
    while k > 0 && count < 4
        invariant
            k <= 15,
            count <= 4,
            p == pow2(k as nat),
            rest <= duration,
            Seq::new(count as nat, |j: int| terms[j] as int) + greedy_terms(
                rest as int,
                k as nat,
                (4 - count) as nat,
            ) == rssi_terms(duration as int),
            forall|j: int| count <= j < 4 ==> terms[j] == 0,
            greedy_rest(rest as int, k as nat, (4 - count) as nat) == greedy_rest(
                duration as int,
                15,
                4,
            ),
        decreases k,
    {
        proof {
            vstd::arithmetic::power2::lemma_pow2_unfold(k as nat);
        }
        let ghost old_prefix = Seq::new(count as nat, |j: int| terms[j] as int);
        let ghost old_rest = greedy_terms(rest as int, k as nat, (4 - count) as nat);
        p = p / 2;
        k = k - 1;
        if rest >= p {
            terms[count] = k as u8;
            count = count + 1;
            rest = rest - p;
            proof {
                let new_prefix = Seq::new(count as nat, |j: int| terms[j] as int);
                assert(new_prefix =~= old_prefix.push(k as int));
                assert(old_rest == seq![k as int] + greedy_terms(
                    rest as int,
                    k as nat,
                    (4 - count) as nat,
                ));
                assert(new_prefix + greedy_terms(rest as int, k as nat, (4 - count) as nat)
                    =~= old_prefix + old_rest);
            }
        } else {
            proof {
                assert(Seq::new(count as nat, |j: int| terms[j] as int) =~= old_prefix);
            }
        }
    }
    proof {
        let pre = Seq::new(count as nat, |j: int| terms[j] as int);
        assert(greedy_terms(rest as int, k as nat, (4 - count) as nat) =~= Seq::<int>::empty());
        assert(pre + Seq::<int>::empty() =~= pre);
        assert forall|j: int| 0 <= j < count implies terms[j] == rssi_terms(duration as int)[j] by {
            assert(pre[j] == terms[j] as int);
        }
    }
    (terms, count, rest)
}

/// Each power of two in a sum is at most the sum.
proof fn lemma_pow2_sum_ge(t: Seq<int>, j: int)
    requires
        0 <= j < t.len(),
    ensures
        pow2(t[j] as nat) <= pow2_sum(t),
        pow2_sum(t) >= 0,
    decreases t.len(),
{
    if j == t.len() - 1 {
        lemma_pow2_sum_nonneg(t.drop_last());
    } else {
        lemma_pow2_sum_ge(t.drop_last(), j);
    }
}

proof fn lemma_pow2_sum_nonneg(t: Seq<int>)
    ensures
        pow2_sum(t) >= 0,
    decreases t.len(),
{
    if t.len() > 0 {
        lemma_pow2_sum_nonneg(t.drop_last());
    }
}

/// The exponents `terms[..count]` as a sequence.
pub open spec fn terms_seq(terms: [u8; 4], count: usize) -> Seq<int> {
    Seq::new(count as nat, |j: int| terms[j] as int)
}

/// Computes the weights of the partial measurements with the exponents `terms[..count]`: each
/// one's share of 255, rounded, with the excess of the sum over 255 taken off the last one.
/// Unused weights are 0.
#[verifier::spinoff_prover]
pub fn rssi_weights(terms: [u8; 4], count: usize) -> (r: [u8; 4])
    requires
        count <= 4,
        forall|j: int| 0 <= j < count ==> terms[j] < 15,
        rssi_weights_fit(terms_seq(terms, count)),
    ensures
        forall|j: int| 0 <= j < count ==> r[j] == rssi_weight(terms_seq(terms, count), j),
        forall|j: int| count <= j < 4 ==> r[j] == 0,
{
    let ghost t = terms_seq(terms, count);
    let mut total: u32 = 0;
    let mut j: usize = 0;
    while j < count
        invariant
            j <= count <= 4,
            forall|i: int| 0 <= i < count ==> terms[i] < 15,
            t == terms_seq(terms, count),
            total == pow2_sum(t.take(j as int)),
            total <= 16384 * j,
        decreases count - j,
    {
        let p = pow2_u32(terms[j]);
        proof {
            assert(t.take(j + 1).drop_last() =~= t.take(j as int));
            assert(t.take(j + 1).last() == terms[j as int]);
        }
        total = total + p;
        j = j + 1;
    }
    proof {
        assert(t.take(count as int) =~= t);
    }
    if total < 1 {
        total = 1;
    }
    assert(total == rssi_total(t));
    let mut w: [u32; 4] = [0u32; 4];
    let mut sum: u32 = 0;
    j = 0;
    while j < count
        invariant
            j <= count <= 4,
            forall|i: int| 0 <= i < count ==> terms[i] < 15,
            t == terms_seq(terms, count),
            total == rssi_total(t),
            total >= 1,
            sum == rssi_raw_weight_sum(t, j as int),
            sum <= 255 * j,
            forall|i: int| 0 <= i < j ==> w[i] == rssi_raw_weight(t, i) && w[i] <= 255,
            forall|i: int| j <= i < 4 ==> w[i] == 0,
        decreases count - j,
    {
        let p = pow2_u32(terms[j]);
        proof {
            lemma_pow2_sum_ge(t, j as int);
        }
        let a = 255 * p;
        let wj = div_round_u32(a, total);
        proof {
            assert(wj <= 255) by (nonlinear_arith)
                requires
                    wj == (a + total / 2) / (total as int),
                    a == 255 * p,
                    p <= total,
                    total >= 1,
            ;
        }
        w[j] = wj;
        sum = sum + wj;
        j = j + 1;
    }
    let correction: u32 = if sum > 255 {
        sum - 255
    } else {
        0
    };
    assert(correction == rssi_correction(t));
    if count > 0 {
        w[count - 1] = w[count - 1] - correction;
    }
    let r: [u8; 4] = [w[0] as u8, w[1] as u8, w[2] as u8, w[3] as u8];
    r
}

/// Whether the weights of an RSSI measurement duration can be computed: see
/// [`rssi_weights_fit`].
pub fn rssi_duration_weights_fit(duration: u32) -> (r: bool)
    ensures
        r == rssi_weights_fit(rssi_terms(duration as int)),
{
    let (terms, count, _rest) = rssi_duration_terms(duration);
    proof {
        lemma_greedy_terms(duration as int, 15, 4);
        assert(terms_seq(terms, count) =~= rssi_terms(duration as int));
        assert forall|j: int| 0 <= j < count implies terms[j] < 15 by {
            assert(terms[j] == rssi_terms(duration as int)[j]);
        }
    }
    if count == 0 {
        return true;
    }
    let (raw_last, correction) = rssi_raw_last_and_correction(terms, count);
    raw_last >= correction
}

#[verifier::spinoff_prover]
fn rssi_raw_last_and_correction(terms: [u8; 4], count: usize) -> (r: (u32, u32))
    requires
        1 <= count <= 4,
        forall|j: int| 0 <= j < count ==> terms[j] < 15,
    ensures
        r.0 == rssi_raw_weight(terms_seq(terms, count), count - 1),
        r.1 == rssi_correction(terms_seq(terms, count)),
{
    let ghost t = terms_seq(terms, count);
    let mut total: u32 = 0;
    let mut j: usize = 0;
    while j < count
        invariant
            j <= count <= 4,
            forall|i: int| 0 <= i < count ==> terms[i] < 15,
            t == terms_seq(terms, count),
            total == pow2_sum(t.take(j as int)),
            total <= 16384 * j,
        decreases count - j,
    {
        let p = pow2_u32(terms[j]);
        proof {
            assert(t.take(j + 1).drop_last() =~= t.take(j as int));
            assert(t.take(j + 1).last() == terms[j as int]);
        }
        total = total + p;
        j = j + 1;
    }
    proof {
        assert(t.take(count as int) =~= t);
    }
    if total < 1 {
        total = 1;
    }
    let mut sum: u32 = 0;
    let mut last: u32 = 0;
    j = 0;
    while j < count
        invariant
            j <= count <= 4,
            1 <= count,
            forall|i: int| 0 <= i < count ==> terms[i] < 15,
            t == terms_seq(terms, count),
            total == rssi_total(t),
            total >= 1,
            sum == rssi_raw_weight_sum(t, j as int),
            sum <= 255 * j,
            j > 0 ==> last == rssi_raw_weight(t, j - 1),
        decreases count - j,
    {
        let p = pow2_u32(terms[j]);
        proof {
            lemma_pow2_sum_ge(t, j as int);
        }
        let a = 255 * p;
        let wj = div_round_u32(a, total);
        proof {
            assert(wj <= 255) by (nonlinear_arith)
                requires
                    wj == (a + total / 2) / (total as int),
                    a == 255 * p,
                    p <= total,
                    total >= 1,
            ;
        }
        last = wj;
        sum = sum + wj;
        j = j + 1;
    }
    let correction: u32 = if sum > 255 {
        sum - 255
    } else {
        0
    };
    (last, correction)
}

/// Computes the RSSI measurement registers. The delay, duration and wait are taken in RX
/// samples or converted from microseconds with the RX sample rate; with the restart mode
/// `EnAgcPinIsPulledHigh` the delay is 0. The delay is written in units of 8 samples and the wait
/// in units of 4, each at most 255. The duration is split into up to four powers of two (see
/// [`rssi_terms`]) with the weights of [`rssi_weights`]; the default measurement mode is set when
/// the duration is a single power of two. When `update` is set and the timing is given in RX
/// samples, nothing needs to change and the result is `None`.
pub fn rssi_setup(rssi: &RssiConfig, rx_sample_hz: u32, update: bool) -> (r: Option<RssiSetup>)
    requires
        rssi_samples_fit(rssi.inner, rx_sample_hz),
        rssi_weights_fit(rssi_terms(rssi_samples(rssi.inner, rx_sample_hz).1)),
    ensures
        r is None <==> (update && rssi.inner is RxSamples),
        r matches Some(s) ==> {
            let (delay, duration, wait) = rssi_samples(rssi.inner, rx_sample_hz);
            let t = rssi_terms(duration);
            &&& s.delay == (if rssi.restart_mode == RssiRestartMode::EnAgcPinIsPulledHigh {
                0
            } else {
                min(delay / 8, 255)
            })
            &&& s.wait == min(wait / 4, 255)
            &&& forall|j: int| 0 <= j < t.len() ==> s.durations[j] == t[j] && s.weights[j]
                == rssi_weight(t, j)
            &&& forall|j: int| t.len() <= j < 4 ==> s.durations[j] == 0 && s.weights[j] == 0
            &&& s.measure_duration_01 == s.durations[1] * 16 + s.durations[0]
            &&& s.measure_duration_23 == s.durations[3] * 16 + s.durations[2]
            &&& s.config == (if rssi.restart_mode == RssiRestartMode::SpiWriteToRegister {
                32int
            } else {
                0int
            }) + rssi.restart_mode.raw() * 4 + (if greedy_rest(duration, 15, 4) == 0 && t.len()
                == 1 {
                1int
            } else {
                0int
            })
        },
{
    let (delay, duration, wait): (u32, u32, u32) = match rssi.inner {
        TemporalConfig::RxSamples { delay, duration, wait } => {
            if update {
                return None;
            }
            (delay, duration, wait)
        },
        TemporalConfig::TimeUs { delay_us, duration_us, wait_us } => {
            let rate = div_round_u32(rx_sample_hz, 1000);
            (
                div_round_u32(delay_us * rate, 1000),
                div_round_u32(duration_us * rate, 1000),
                div_round_u32(wait_us * rate, 1000),
            )
        },
    };
    let delay: u32 = if rssi.restart_mode == RssiRestartMode::EnAgcPinIsPulledHigh {
        0
    } else {
        delay
    };
    let delay: u8 = if delay / 8 < 255 {
        (delay / 8) as u8
    } else {
        255
    };
    let wait: u8 = if wait / 4 < 255 {
        (wait / 4) as u8
    } else {
        255
    };
    let (terms, count, rest) = rssi_duration_terms(duration);
    proof {
        lemma_greedy_terms(duration as int, 15, 4);
        assert(terms_seq(terms, count) =~= rssi_terms(duration as int));
        assert forall|j: int| 0 <= j < count implies terms[j] < 15 by {
            assert(terms[j] == rssi_terms(duration as int)[j]);
        }
    }
    let weights = rssi_weights(terms, count);
    let start: u8 = if rssi.restart_mode == RssiRestartMode::SpiWriteToRegister {
        32
    } else {
        0
    };
    let default_mode: u8 = if rest == 0 && count == 1 {
        1
    } else {
        0
    };
    let config: u8 = start + rssi.restart_mode.raw_value() * 4 + default_mode;
    Some(
        RssiSetup {
            delay,
            wait,
            durations: terms,
            measure_duration_01: terms[1] * 16 + terms[0],
            measure_duration_23: terms[3] * 16 + terms[2],
            weights,
            config,
        },
    )
}

/// Whether [`rssi_setup`] can be computed for an RSSI configuration and RX sample rate: the
/// conversion from microseconds stays within 32 bits and the weights of the duration fit.
pub fn rssi_setup_fits(rssi: &RssiConfig, rx_sample_hz: u32) -> (r: bool)
    ensures
        r == (rssi_samples_fit(rssi.inner, rx_sample_hz) && rssi_weights_fit(
            rssi_terms(rssi_samples(rssi.inner, rx_sample_hz).1),
        )),
{
    let duration: u32 = match rssi.inner {
        TemporalConfig::RxSamples { delay: _, duration, wait: _ } => duration,
        TemporalConfig::TimeUs { delay_us, duration_us, wait_us } => {
            if rx_sample_hz as u64 + 500 > u32::MAX as u64 {
                return false;
            }
            let rate = div_round_u32(rx_sample_hz, 1000) as u64;
            assert(delay_us * rate <= 0xFFFF_FFFF * 0xFFFF_FFFFu64) by (nonlinear_arith)
                requires
                    rate <= 0xFFFF_FFFF,
            ;
            assert(duration_us * rate <= 0xFFFF_FFFF * 0xFFFF_FFFFu64) by (nonlinear_arith)
                requires
                    rate <= 0xFFFF_FFFF,
            ;
            assert(wait_us * rate <= 0xFFFF_FFFF * 0xFFFF_FFFFu64) by (nonlinear_arith)
                requires
                    rate <= 0xFFFF_FFFF,
            ;
            if delay_us as u64 * rate + 500 > u32::MAX as u64 || duration_us as u64 * rate + 500
                > u32::MAX as u64 || wait_us as u64 * rate + 500 > u32::MAX as u64 {
                return false;
            }
            div_round_u32(duration_us * (rate as u32), 1000)
        },
    };
    rssi_duration_weights_fit(duration)
}

/// Sum of the first `m` final weights.
pub open spec fn rssi_weight_sum(t: Seq<int>, m: int) -> int
    decreases m,
{
    if m <= 0 {
        0
    } else {
        rssi_weight_sum(t, m - 1) + rssi_weight(t, m - 1)
    }
}

proof fn lemma_rssi_weight_sum_prefix(t: Seq<int>, m: int)
    requires
        0 <= m < t.len(),
    ensures
        rssi_weight_sum(t, m) == rssi_raw_weight_sum(t, m),
    decreases m,
{
    if m > 0 {
        lemma_rssi_weight_sum_prefix(t, m - 1);
    }
}

/// The weights of an RSSI measurement never add up to more than 255: when the rounded shares
/// exceed 255 the excess is taken off the last weight, so that they add up to exactly 255.
pub proof fn lemma_rssi_weights_at_most_255(duration: u32)
    requires
        rssi_weights_fit(rssi_terms(duration as int)),
    ensures
        ({
            let t = rssi_terms(duration as int);
            let raw = rssi_raw_weight_sum(t, t.len() as int);
            rssi_weight_sum(t, t.len() as int) == (if raw > 255 {
                255
            } else {
                raw
            })
        }),
        rssi_weight_sum(rssi_terms(duration as int), rssi_terms(duration as int).len() as int)
            <= 255,
{
    let t = rssi_terms(duration as int);
    if t.len() > 0 {
        lemma_rssi_weight_sum_prefix(t, t.len() - 1);
    }
}

/// The RSSI duration is the sum of at most four distinct powers of two of at most `2^14`, in
/// decreasing order, and what is left over.
pub proof fn lemma_rssi_duration_decomposition(duration: u32)
    ensures
        rssi_terms(duration as int).len() <= 4,
        forall|j: int|
            0 <= j < rssi_terms(duration as int).len() ==> 0 <= #[trigger] rssi_terms(
                duration as int,
            )[j] <= 14,
        forall|i: int, j: int|
            0 <= i < j < rssi_terms(duration as int).len() ==> rssi_terms(duration as int)[i]
                > rssi_terms(duration as int)[j],
        pow2_sum(rssi_terms(duration as int)) + greedy_rest(duration as int, 15, 4)
            == duration,
        greedy_rest(duration as int, 15, 4) >= 0,
{
    lemma_greedy_terms(duration as int, 15, 4);
}


// ---------------------------------------------------------------------------------------------
// RX ADC setup.
// ---------------------------------------------------------------------------------------------

/// Whether `r` is the square root of `n`, rounded down.
pub open spec fn is_isqrt(n: int, r: int) -> bool {
    0 <= r && r * r <= n < (r + 1) * (r + 1)
}

/// The square root of `n`, rounded down: the `r >= 0` with `r * r <= n < (r + 1) * (r + 1)`.
pub open spec fn isqrt(n: int) -> int {
    choose|r: int| #[trigger] is_isqrt(n, r)
}

/// Any `r >= 0` with `r * r <= n < (r + 1) * (r + 1)` is the square root of `n`.
pub proof fn lemma_isqrt_unique(n: int, r: int)
    requires
        0 <= r,
        r * r <= n < (r + 1) * (r + 1),
    ensures
        isqrt(n) == r,
{
    assert(is_isqrt(n, r));
    let s = isqrt(n);
    assert(is_isqrt(n, s));
    if s < r {
        assert((s + 1) * (s + 1) <= r * r) by (nonlinear_arith)
            requires
                0 <= s < r,
        ;
    } else if r < s {
        assert((r + 1) * (r + 1) <= s * s) by (nonlinear_arith)
            requires
                0 <= r < s,
        ;
    }
}

/// The square root of `n`, rounded down.
pub fn isqrt_u32(n: u32) -> (r: u32)
    ensures
        r == isqrt(n as int),
        r <= 65535,
{
    let mut lo: u64 = 0;
    let mut hi: u64 = 65536;
    while hi - lo > 1
        invariant
            lo < hi <= 65536,
            lo * lo <= n,
            n < hi * hi,
        decreases hi - lo,
    {
        let mid = lo + (hi - lo) / 2;
        assert(mid * mid <= 65536 * 65536) by (nonlinear_arith)
            requires
                mid <= 65536,
        ;
        if mid * mid <= n as u64 {
            lo = mid;
        } else {
            hi = mid;
        }
    }
    proof {
        lemma_isqrt_unique(n as int, lo as int);
    }
    lo as u32
}

/// The inputs of the RX ADC setup.
#[derive(Debug, Clone, Copy, PartialEq, Eq, Structural)]
pub struct RxAdcParams {
    /// BB PLL clock in Hz.
    pub bbpll_hz: u32,
    /// ADC sample clock in Hz.
    pub adc_hz: u32,
    /// The RX baseband filter tune divider.
    pub rxbbf_div: u32,
    /// The `RxBbfC3Msb` register.
    pub c3_msb: u8,
    /// The `RxBbfC3Lsb` register.
    pub c3_lsb: u8,
    /// The `RxBbfR2346` register.
    pub r2346: u8,
}

/// The baseband bandwidth that the tune divider stands for, limited to 200 kHz ..= 28 MHz.
pub open spec fn rx_adc_bb_bw(p: RxAdcParams) -> int {
    clamp(p.bbpll_hz * 10_000 / (126_906 * p.rxbbf_div), 200_000, 28_000_000)
}

/// Product of the RC time constant before its scaling: `160975 * R * C * bw`, times the
/// bandwidth factor above 18 MHz.
pub open spec fn rx_adc_rc_product(p: RxAdcParams) -> int {
    let bw = rx_adc_bb_bw(p);
    let base = 160_975 * p.r2346 * (160 * p.c3_msb + 10 * p.c3_lsb + 140) * bw;
    if bw >= 18_000_000 {
        base * (1000 + (10 * (bw - 18_000_000)) / 1_000_000)
    } else {
        base
    }
}

/// Inverse RC time constant, scaled by `10^6`.
pub open spec fn rx_adc_invrc(p: RxAdcParams) -> int {
    let bw = rx_adc_bb_bw(p);
    (if bw >= 18_000_000 {
        rx_adc_rc_product(p) / 1000
    } else {
        rx_adc_rc_product(p)
    }) / 1_000_000_000
}

/// ADC clock scaled down by 640, rounded.
pub open spec fn rx_adc_scaled_clk(p: RxAdcParams) -> int {
    div_round(p.adc_hz as int, 640)
}

/// Inverse of the scaled ADC clock, scaled by `10^3`.
pub open spec fn rx_adc_inv_scaled_clk(p: RxAdcParams) -> int {
    div_round(640_000_000, div_round(p.adc_hz as int, 1000))
}

/// `a - b` wrapped to `0 .. m`.
pub open spec fn wrap_sub(a: int, b: int, m: int) -> int {
    if a >= b {
        a - b
    } else {
        a - b + m
    }
}

/// Square root term of the inverse RC constant.
pub open spec fn rx_adc_sqrt_inv_rc(p: RxAdcParams) -> int {
    isqrt((rx_adc_invrc(p) as u32) as int)
}

/// Square root term of the scaled ADC clock, times 2, at most 1000.
pub open spec fn rx_adc_min_sqrt_term(p: RxAdcParams) -> int {
    min(isqrt(4 * rx_adc_scaled_clk(p)), 1000)
}

/// Integrator 1 resistance (value 7).
pub open spec fn rx_adc_d7(p: RxAdcParams) -> int {
    let snr = if p.adc_hz < 80_000_000 {
        1000int
    } else {
        1585int
    };
    min(
        wrap_sub(
            8 * snr * rx_adc_sqrt_inv_rc(p) * rx_adc_min_sqrt_term(p),
            50_000_000,
            0x1_0000_0000_0000_0000,
        ) / 100_000_000,
        124,
    )
}

/// Integrator 2 resistance (value 10).
pub open spec fn rx_adc_d10(p: RxAdcParams) -> int {
    min(
        wrap_sub(
            77 * rx_adc_sqrt_inv_rc(p) * rx_adc_min_sqrt_term(p),
            500_000,
            0x1_0000_0000_0000_0000,
        ) / 1_000_000,
        127,
    )
}

/// Integrator 3 resistance (value 12).
pub open spec fn rx_adc_d12(p: RxAdcParams) -> int {
    min(
        wrap_sub(
            (80 * rx_adc_sqrt_inv_rc(p) * rx_adc_min_sqrt_term(p)) % 0x1_0000_0000,
            500_000,
            0x1_0000_0000,
        ) / 1_000_000,
        127,
    )
}

/// Integrator feedback DAC current factor, scaled by `10^3`.
pub open spec fn rx_adc_t(p: RxAdcParams) -> int {
    let inv = rx_adc_inv_scaled_clk(p);
    div_round(
        980_000 + 20 * (if div_round(inv, 4) > 1000 {
            div_round(inv, 4)
        } else {
            1000
        }),
        1000,
    )
}

/// The RX ADC setup values 7 to 34 that are computed, by index.
pub open spec fn rx_adc_value(p: RxAdcParams, i: int) -> int {
    let invrc = rx_adc_invrc(p);
    let inv = rx_adc_inv_scaled_clk(p);
    let scaled = rx_adc_scaled_clk(p);
    let st = isqrt(scaled);
    let t = rx_adc_t(p);
    let d7 = rx_adc_d7(p);
    let d10 = rx_adc_d10(p);
    let d12 = rx_adc_d12(p);
    let d15 = min((500 + 1025 * d7) / 1000, 127);
    let d18 = min((500 + 975 * d10) / 1000, 127);
    let d21 = min((500 + 975 * d12) / 1000, 127);
    if i == 7 {
        d7
    } else if i == 8 {
        min((invrc / 2 + (20 * inv * d7 / 80) * 1000) / invrc, 255)
    } else if i == 9 {
        min(800 * d10 / 1000, 127)
    } else if i == 10 {
        d10
    } else if i == 11 {
        min((invrc / 2 + 20 * inv * d10 * 1000) / (invrc * 77), 255)
    } else if i == 12 {
        d12
    } else if i == 13 {
        min(wrap_sub(inv * d12 * 250, 3 * (invrc / 2), 0x1_0000_0000_0000_0000) / invrc, 255)
    } else if i == 14 {
        ((21 * (inv / 10_000)) as u8) as int
    } else if i == 15 {
        d15
    } else if i == 16 {
        min(d15 * t / 1000, 127)
    } else if i == 18 {
        d18
    } else if i == 19 {
        min(d18 * t / 1000, 127)
    } else if i == 21 {
        d21
    } else if i == 22 {
        min(d21 * t / 1000, 127)
    } else if i == 25 {
        128 + min(div_round(63 * scaled, 1000), 63_000) / 1000
    } else if i == 26 {
        min((63 * scaled / 1_000_000) * (920 + 80 * inv / 1000) / 1000, 63)
    } else if i == 27 {
        min(32 * st / 1000, 63)
    } else if i == 33 {
        min(63 * st / 1000, 63)
    } else if i == 34 {
        min(64 * st / 1000, 127)
    } else {
        0
    }
}

/// The 40 RX ADC setup values, written in order to the registers `AdcSetup0` to `AdcSetup39`.
pub open spec fn rx_adc_setup_values(p: RxAdcParams) -> Seq<int> {
    let v = |i: int| rx_adc_value(p, i);
    seq![
        0, 0, 0, 0x24, 0x24, 0, 0, v(7), v(8), v(9), v(10), v(11), v(12), v(13), v(14), v(15),
        v(16), v(15), v(18), v(19), v(18), v(21), v(22), v(21), 0x2E, v(25), v(26), v(27), v(25),
        v(26), v(27), v(25), v(26), v(33), v(34), 0x40, 0x40, 0x2C, 0, 0,
    ]
}

/// Whether the RX ADC setup can be computed for `p` within the integer widths it uses: the
/// divider is not 0, the ADC clock is at least 500 Hz and its rounding stays within 32 bits, the
/// RC product fits in 64 bits and the inverse RC constant is not 0, and 80 times the inverse
/// scaled ADC clock fits in 32 bits.
pub open spec fn rx_adc_params_fit(p: RxAdcParams) -> bool {
    &&& p.rxbbf_div > 0
    &&& 500 <= p.adc_hz
    &&& p.adc_hz + 500 <= u32::MAX
    &&& rx_adc_rc_product(p) <= u64::MAX
    &&& rx_adc_invrc(p) >= 1
    &&& 80 * rx_adc_inv_scaled_clk(p) <= u32::MAX
}

/// Whether [`rx_adc_setup`] can be computed for `p`, see [`rx_adc_params_fit`].
pub fn rx_adc_params_check(p: &RxAdcParams) -> (r: bool)
    ensures
        r == rx_adc_params_fit(*p),
{
    if p.rxbbf_div == 0 || p.adc_hz < 500 || p.adc_hz as u64 + 500 > u32::MAX as u64 {
        return false;
    }
    let tmp: u64 = (p.bbpll_hz as u64) * 10_000u64 / (126_906u64 * (p.rxbbf_div as u64));
    assert(tmp <= 4_294_967_295u64 * 10_000 / 126_906) by (nonlinear_arith)
        requires
            p.rxbbf_div >= 1,
            tmp == (p.bbpll_hz as u64) * 10_000 / (126_906 * (p.rxbbf_div as int)),
    ;
    let bw0 = tmp as u32;
    let bw: u128 = if bw0 < 200_000 {
        200_000
    } else if bw0 > 28_000_000 {
        28_000_000
    } else {
        bw0 as u128
    };
    let c3: u128 = 160 * (p.c3_msb as u128) + 10 * (p.c3_lsb as u128) + 140;
    let r: u128 = p.r2346 as u128;
    assert(160_975 * r * c3 * bw <= 160_975 * 255 * 43_490 * 28_000_000) by (nonlinear_arith)
        requires
            r <= 255,
            c3 <= 43_490,
            bw <= 28_000_000,
    ;
    assert(160_975 * r * c3 <= 160_975 * 255 * 43_490) by (nonlinear_arith)
        requires
            r <= 255,
            c3 <= 43_490,
    ;
    let base: u128 = 160_975 * r * c3 * bw;
    let prod: u128 = if bw >= 18_000_000 {
        let factor: u128 = 1000 + (10 * (bw - 18_000_000)) / 1_000_000;
        assert(base * factor <= 160_975 * 255 * 43_490 * 28_000_000 * 1100) by (nonlinear_arith)
            requires
                base <= 160_975 * 255 * 43_490 * 28_000_000,
                factor <= 1100,
        ;
        base * factor
    } else {
        base
    };
    assert(prod == rx_adc_rc_product(*p));
    if prod > u64::MAX as u128 {
        return false;
    }
    let invrc = (if bw >= 18_000_000 {
        prod / 1000
    } else {
        prod
    }) / 1_000_000_000;
    if invrc < 1 {
        return false;
    }
    let adc_khz = div_round_u32(p.adc_hz, 1000);
    let inv = div_round_u32(640_000_000, adc_khz);
    80 * (inv as u64) <= u32::MAX as u64
}

fn min_u64(a: u64, b: u64) -> (r: u64)
    ensures
        r == min(a as int, b as int),
{
    if a < b {
        a
    } else {
        b
    }
}

/// Computes the 40 RX ADC setup values, see [`rx_adc_setup_values`].
#[verifier::rlimit(50)]
pub fn rx_adc_setup(p: &RxAdcParams) -> (r: [u8; 40])
    requires
        rx_adc_params_fit(*p),
    ensures
        forall|i: int| 0 <= i < 40 ==> r[i] == rx_adc_setup_values(*p)[i],
{
    let tmp: u64 = (p.bbpll_hz as u64) * 10_000u64 / (126_906u64 * (p.rxbbf_div as u64));
    assert(tmp <= 4_294_967_295u64 * 10_000 / 126_906) by (nonlinear_arith)
        requires
            p.rxbbf_div >= 1,
            tmp == (p.bbpll_hz as u64) * 10_000 / (126_906 * (p.rxbbf_div as int)),
    ;
    let bw0 = tmp as u32;
    let bb_bw: u32 = if bw0 < 200_000 {
        200_000
    } else if bw0 > 28_000_000 {
        28_000_000
    } else {
        bw0
    };
    assert(bb_bw == rx_adc_bb_bw(*p));
    let c3: u64 = 160 * (p.c3_msb as u64) + 10 * (p.c3_lsb as u64) + 140;
    let ghost prod = rx_adc_rc_product(*p);
    let invrc: u64 = if bb_bw >= 18_000_000 {
        let factor: u64 = 1000 + (10 * (bb_bw as u64 - 18_000_000)) / 1_000_000;
        proof {
            let b = 160_975 * p.r2346 * c3 * bb_bw;
            assert(b * factor == prod);
            assert(b <= prod) by (nonlinear_arith)
                requires
                    b * factor == prod,
                    factor >= 1,
                    b >= 0,
            ;
            assert(160_975 * p.r2346 <= b) by (nonlinear_arith)
                requires
                    b == 160_975 * p.r2346 * c3 * bb_bw,
                    c3 >= 1,
                    bb_bw >= 1,
                    p.r2346 >= 0,
            ;
            assert(160_975 * p.r2346 * c3 <= b) by (nonlinear_arith)
                requires
                    b == 160_975 * p.r2346 * c3 * bb_bw,
                    c3 >= 1,
                    bb_bw >= 1,
                    p.r2346 >= 0,
            ;
        }
        let val = 160_975u64 * (p.r2346 as u64) * c3 * (bb_bw as u64) * factor;
        val / 1000
    } else {
        proof {
            assert(160_975 * p.r2346 <= prod) by (nonlinear_arith)
                requires
                    prod == 160_975 * p.r2346 * c3 * bb_bw,
                    c3 >= 1,
                    bb_bw >= 1,
                    p.r2346 >= 0,
            ;
            assert(160_975 * p.r2346 * c3 <= prod) by (nonlinear_arith)
                requires
                    prod == 160_975 * p.r2346 * c3 * bb_bw,
                    c3 >= 1,
                    bb_bw >= 1,
                    p.r2346 >= 0,
            ;
        }
        160_975u64 * (p.r2346 as u64) * c3 * (bb_bw as u64)
    };
    let invrc = invrc / 1_000_000_000;
    assert(invrc == rx_adc_invrc(*p));
    assert(invrc <= 18_446_744_073);
    let sqrt_inv_rc = isqrt_u32(invrc as u32) as u64;
    let scaled = div_round_u32(p.adc_hz, 640);
    let adc_khz = div_round_u32(p.adc_hz, 1000);
    assert(adc_khz >= 1);
    let inv = div_round_u32(640_000_000, adc_khz);
    assert(inv <= 53_687_091);
    let inv4 = div_round_u32(inv, 4);
    let inv4: u32 = if inv4 > 1000 {
        inv4
    } else {
        1000
    };
    let t = div_round_u32(980_000 + 20 * inv4, 1000);
    assert(scaled <= 6_710_887);
    let sqrt_term = isqrt_u32(scaled) as u64;
    let ms = isqrt_u32(4 * scaled);
    let min_sqrt_term: u64 = if ms < 1000 {
        ms as u64
    } else {
        1000
    };
    let scale_snr: u64 = if p.adc_hz < 80_000_000 {
        1000
    } else {
        1585
    };
    let ghost v = |i: int| rx_adc_value(*p, i);
    assert(8 * scale_snr * sqrt_inv_rc <= 8 * 1585 * 65535) by (nonlinear_arith)
        requires
            scale_snr <= 1585,
            sqrt_inv_rc <= 65535,
    ;
    assert(8 * scale_snr * sqrt_inv_rc * min_sqrt_term <= 8 * 1585 * 65535 * 1000) by (
    nonlinear_arith)
        requires
            8 * scale_snr * sqrt_inv_rc <= 8 * 1585 * 65535,
            min_sqrt_term <= 1000,
    ;
    let d7 = min_u64(
        (8u64 * scale_snr * sqrt_inv_rc * min_sqrt_term).wrapping_sub(50_000_000) / 100_000_000,
        124,
    );
    assert(d7 == v(7));
    let inv64 = inv as u64;
    assert(20 * inv64 * d7 <= 20 * 53_687_091 * 124) by (nonlinear_arith)
        requires
            inv64 <= 53_687_091,
            d7 <= 124,
    ;
    assert(invrc >> 1u64 == invrc / 2) by (bit_vector);
    assert(20 * inv64 * d7 == (20 * inv64) * d7);
    let d8 = min_u64(((invrc >> 1) + ((20u64 * inv64 * d7) / 80) * 1000) / invrc, 255);
    assert(d8 == v(8));
    assert(77 * sqrt_inv_rc * min_sqrt_term <= 77 * 65535 * 1000) by (nonlinear_arith)
        requires
            sqrt_inv_rc <= 65535,
            min_sqrt_term <= 1000,
    ;
    assert(77 * sqrt_inv_rc <= 77 * 65535);
    let d10 = min_u64((77u64 * sqrt_inv_rc * min_sqrt_term).wrapping_sub(500_000) / 1_000_000, 127);
    assert(d10 == v(10));
    let d9 = min_u64(800 * d10 / 1000, 127);
    assert(d9 == v(9));
    assert(20 * inv64 * d10 * 1000 <= 20 * 53_687_091 * 127 * 1000) by (nonlinear_arith)
        requires
            inv64 <= 53_687_091,
            d10 <= 127,
    ;
    let d11 = min_u64(((invrc >> 1) + (20u64 * inv64 * d10 * 1000)) / (invrc * 77), 255);
    assert(d11 == v(11));
    let si32 = sqrt_inv_rc as u32;
    let ms32 = min_sqrt_term as u32;
    let product = 80u32.wrapping_mul(si32).wrapping_mul(ms32);
    proof {
        assert(80 * si32 < 0x1_0000_0000) by (nonlinear_arith)
            requires
                si32 <= 65535,
        ;
        assert((80 * si32) % 0x1_0000_0000 == 80 * si32);
        assert(product == (80 * si32 * ms32) % 0x1_0000_0000);
    }
    let d12 = min_u64((product.wrapping_sub(500_000) as u64) / 1_000_000, 127);
    assert(d12 == v(12));
    assert(inv64 * d12 * 250 <= 53_687_091 * 127 * 250) by (nonlinear_arith)
        requires
            inv64 <= 53_687_091,
            d12 <= 127,
    ;
    let term1 = 3u64 * (invrc >> 1);
    let term2 = inv64 * d12 * 250u64;
    let d13 = min_u64(term2.wrapping_sub(term1) / invrc, 255);
    assert(d13 == v(13));
    let d14 = (21 * (inv / 10_000)) as u8;
    assert(d14 == v(14));
    let d15 = min_u64((500 + 1025 * d7) / 1000, 127);
    assert(d15 == v(15));
    let t64 = t as u64;
    assert(t64 <= 1_269_416);
    assert(d15 * t64 <= 127 * 1_269_416) by (nonlinear_arith)
        requires
            d15 <= 127,
            t64 <= 1_269_416,
    ;
    let d16 = min_u64(d15 * t64 / 1000, 127);
    assert(d16 == v(16));
    let d18 = min_u64((500 + 975 * d10) / 1000, 127);
    assert(d18 == v(18));
    assert(d18 * t64 <= 127 * 1_269_416) by (nonlinear_arith)
        requires
            d18 <= 127,
            t64 <= 1_269_416,
    ;
    let d19 = min_u64(d18 * t64 / 1000, 127);
    assert(d19 == v(19));
    let d21 = min_u64((500 + 975 * d12) / 1000, 127);
    assert(d21 == v(21));
    assert(d21 * t64 <= 127 * 1_269_416) by (nonlinear_arith)
        requires
            d21 <= 127,
            t64 <= 1_269_416,
    ;
    let d22 = min_u64(d21 * t64 / 1000, 127);
    assert(d22 == v(22));
    let s64 = scaled as u64;
    let inner = div_round_u32(63 * scaled, 1000);
    let inner: u32 = if inner < 63_000 {
        inner
    } else {
        63_000
    };
    let d25 = (128 + inner / 1000) as u64;
    assert(d25 == v(25));
    let inner26 = 920 + (80 * inv) / 1000;
    let val = (63 * scaled) / 1_000_000;
    assert(val * inner26 <= 422 * 4_295_887) by (nonlinear_arith)
        requires
            val <= 422,
            inner26 <= 4_295_887,
    ;
    let val = val * inner26 / 1000;
    let d26: u64 = if val < 63 {
        val as u64
    } else {
        63
    };
    assert(d26 == v(26));
    let d27 = min_u64((32 * sqrt_term) / 1000, 63);
    assert(d27 == v(27));
    let d33 = min_u64((63 * sqrt_term) / 1000, 63);
    assert(d33 == v(33));
    let d34 = min_u64((64 * sqrt_term) / 1000, 127);
    assert(d34 == v(34));
    let _ = s64;
    let r: [u8; 40] = [
        0,
        0,
        0,
        0x24,
        0x24,
        0,
        0,
        d7 as u8,
        d8 as u8,
        d9 as u8,
        d10 as u8,
        d11 as u8,
        d12 as u8,
        d13 as u8,
        d14,
        d15 as u8,
        d16 as u8,
        d15 as u8,
        d18 as u8,
        d19 as u8,
        d18 as u8,
        d21 as u8,
        d22 as u8,
        d21 as u8,
        0x2E,
        d25 as u8,
        d26 as u8,
        d27 as u8,
        d25 as u8,
        d26 as u8,
        d27 as u8,
        d25 as u8,
        d26 as u8,
        d33 as u8,
        d34 as u8,
        0x40,
        0x40,
        0x2C,
        0x00,
        0x00,
    ];
    r
}


/// The register that RX ADC setup value `i` is written to: `AdcSetup0` at address 0x200 and the
/// 39 registers after it.
#[verifier::spinoff_prover]
#[verifier::rlimit(100)]
pub fn rx_adc_setup_register(i: usize) -> (r: Register)
    requires
        i < 40,
    ensures
        r.address() == 0x200 + i,
{
    if i == 0 {
        Register::AdcSetup0
    } else if i == 1 {
        Register::FbDacClkDelay1
    } else if i == 2 {
        Register::FbDacClkDelay2
    } else if i == 3 {
        Register::FlashSampleClkDelay3p
    } else if i == 4 {
        Register::FlashSampleClkDelay3n
    } else if i == 5 {
        Register::TestMux2i
    } else if i == 6 {
        Register::TestMux2q
    } else if i == 7 {
        Register::Integrator1Resistance
    } else if i == 8 {
        Register::Integrator1Capacitance
    } else if i == 9 {
        Register::Integrator23Resistance
    } else if i == 10 {
        Register::Integrator2Resistance
    } else if i == 11 {
        Register::Integrator2Capacitance
    } else if i == 12 {
        Register::Integrator3Resistance
    } else if i == 13 {
        Register::Integrator3Capacitance
    } else if i == 14 {
        Register::IntegratorAmpCc
    } else if i == 15 {
        Register::Int1FbDacNmosCurrentSource
    } else if i == 16 {
        Register::Int1FbDacNmosCasoadeBiasCurrent
    } else if i == 17 {
        Register::Int1FbDacPmosCurrentSource
    } else if i == 18 {
        Register::Int2FbDacNmosCurrentSource
    } else if i == 19 {
        Register::Int2FbDacNmosCascodeBiasCurrent
    } else if i == 20 {
        Register::Int2FbDacPmosCurrentSource
    } else if i == 21 {
        Register::Int3FbDacNmosCurrentSource
    } else if i == 22 {
        Register::Int3FbDacNmosCascodeBiasCurrent
    } else if i == 23 {
        Register::Int3FbDacPmosCurrentSource
    } else if i == 24 {
        Register::FbDacBiasCurrent
    } else if i == 25 {
        Register::Int11stStageCurrent
    } else if i == 26 {
        Register::Int11stStageCascodeCurrent
    } else if i == 27 {
        Register::Int12ndStageCurrent
    } else if i == 28 {
        Register::Integrator21stStageCurrent
    } else if i == 29 {
        Register::Int21stStageCascodeCurrent
    } else if i == 30 {
        Register::Int22ndStageCurrent
    } else if i == 31 {
        Register::Int31stStageCurrent
    } else if i == 32 {
        Register::Int31stStageCascodeCurrent
    } else if i == 33 {
        Register::Int32ndStageCurrent
    } else if i == 34 {
        Register::FlashBiasCurrent
    } else if i == 35 {
        Register::FlashLadderBias
    } else if i == 36 {
        Register::FlashLadderCascodeCurrent
    } else if i == 37 {
        Register::FlashLadderBias2
    } else if i == 38 {
        Register::Reset
    } else {
        Register::AdcSetup39
    }
}

// ---------------------------------------------------------------------------------------------
// Bandwidth update write sequences.
// ---------------------------------------------------------------------------------------------
/// The writes before the RX baseband filter tuning runs: the tune divider (low byte, and its
/// bit 8 into bit 0 of `RxBbfTuneConfig`, whose other bits keep their value), the bandwidth in
/// MHz and kHz, the mixer LO common mode and GM load, and the resampling of both tuners.
pub open spec fn rx_bb_filter_tune_writes(tune: RxBbFilterTune, rx_bbf_tune_config: u8) -> Seq<
    RegisterWrite,
> {
    seq![
        RegisterWrite { reg: Register::RxBbfTuneDivide, value: (tune.divider % 256) as u8 },
        RegisterWrite {
            reg: Register::RxBbfTuneConfig,
            value: with_field8(rx_bbf_tune_config, 0, 1, b8(tune.divider >= 256)),
        },
        RegisterWrite { reg: Register::RxBbbwMhz, value: tune.bw_mhz },
        RegisterWrite { reg: Register::RxBbbwKhz, value: tune.bw_khz },
        RegisterWrite { reg: Register::RxMixLoCm, value: 0x3F },
        RegisterWrite { reg: Register::RxMixGmConfig, value: 0x03 },
        RegisterWrite { reg: Register::Rx1TuneCtrl, value: 0x02 },
        RegisterWrite { reg: Register::Rx2TuneCtrl, value: 0x02 },
    ]
}

/// Computes the writes of [`rx_bb_filter_tune_writes`]. After them the tuning runs
/// ([`CAL_RX_BB_TUNE`]), and then both tuners are powered down ([`RX_TUNE_DONE`]).
pub fn rx_bb_filter_tune_register_writes(tune: &RxBbFilterTune, rx_bbf_tune_config: u8) -> (r: Vec<
    RegisterWrite,
>)
    requires
        tune.divider <= 511,
    ensures
        r@ == rx_bb_filter_tune_writes(*tune, rx_bbf_tune_config),
{
    let mut v: Vec<RegisterWrite> = Vec::new();
    v.push(RegisterWrite { reg: Register::RxBbfTuneDivide, value: (tune.divider % 256) as u8 });
    v.push(
        RegisterWrite {
            reg: Register::RxBbfTuneConfig,
            value: set_flag(rx_bbf_tune_config, 0, tune.divider >= 256),
        },
    );
    v.push(RegisterWrite { reg: Register::RxBbbwMhz, value: tune.bw_mhz });
    v.push(RegisterWrite { reg: Register::RxBbbwKhz, value: tune.bw_khz });
    v.push(RegisterWrite { reg: Register::RxMixLoCm, value: 0x3F });
    v.push(RegisterWrite { reg: Register::RxMixGmConfig, value: 0x03 });
    v.push(RegisterWrite { reg: Register::Rx1TuneCtrl, value: 0x02 });
    v.push(RegisterWrite { reg: Register::Rx2TuneCtrl, value: 0x02 });
    assert(v@ =~= rx_bb_filter_tune_writes(*tune, rx_bbf_tune_config));
    v
}

/// `Rx1TuneCtrl` and `Rx2TuneCtrl` after the RX baseband filter tuning: resampling and the tuner
/// powered down.
pub const RX_TUNE_DONE: u8 = 0x03;

/// The writes before the TX baseband filter tuning runs: the tune divider (low byte, and its
/// bit 8 into bit 0 of `TxBbfTuneMode`, whose other bits keep their value) and the tuner control
/// with resampling.
pub open spec fn tx_bb_filter_tune_writes(divider: u16, tx_bbf_tune_mode: u8) -> Seq<RegisterWrite> {
    seq![
        RegisterWrite { reg: Register::TxBbfTuneDivider, value: (divider % 256) as u8 },
        RegisterWrite {
            reg: Register::TxBbfTuneMode,
            value: with_field8(tx_bbf_tune_mode, 0, 1, b8(divider >= 256)),
        },
        RegisterWrite { reg: Register::TxTuneCtrl, value: 0x22 },
    ]
}

/// Computes the writes of [`tx_bb_filter_tune_writes`]. After them the tuning runs
/// ([`CAL_TX_BB_TUNE`]), and then the tuner is powered down ([`TX_TUNE_DONE`]).
pub fn tx_bb_filter_tune_register_writes(divider: u16, tx_bbf_tune_mode: u8) -> (r: Vec<
    RegisterWrite,
>)
    ensures
        r@ == tx_bb_filter_tune_writes(divider, tx_bbf_tune_mode),
{
    let mut v: Vec<RegisterWrite> = Vec::new();
    v.push(RegisterWrite { reg: Register::TxBbfTuneDivider, value: (divider % 256) as u8 });
    v.push(
        RegisterWrite {
            reg: Register::TxBbfTuneMode,
            value: set_flag(tx_bbf_tune_mode, 0, divider >= 256),
        },
    );
    v.push(RegisterWrite { reg: Register::TxTuneCtrl, value: 0x22 });
    assert(v@ =~= tx_bb_filter_tune_writes(divider, tx_bbf_tune_mode));
    v
}

/// `TxTuneCtrl` after the TX baseband filter tuning: resampling and the tuner powered down.
pub const TX_TUNE_DONE: u8 = 0x26;

/// The writes of the RX TIA settings.
pub fn rx_tia_register_writes(t: &RxTiaSettings) -> (r: Vec<RegisterWrite>)
    ensures
        r@ == seq![
            RegisterWrite { reg: Register::RxTiaConfig, value: t.config },
            RegisterWrite { reg: Register::Tia1CLsb, value: t.tia1_c_lsb },
            RegisterWrite { reg: Register::Tia1CMsb, value: t.tia1_c_msb },
            RegisterWrite { reg: Register::Tia2CLsb, value: t.tia2_c_lsb },
            RegisterWrite { reg: Register::Tia2CMsb, value: t.tia2_c_msb },
        ],
{
    let mut v: Vec<RegisterWrite> = Vec::new();
    v.push(RegisterWrite { reg: Register::RxTiaConfig, value: t.config });
    v.push(RegisterWrite { reg: Register::Tia1CLsb, value: t.tia1_c_lsb });
    v.push(RegisterWrite { reg: Register::Tia1CMsb, value: t.tia1_c_msb });
    v.push(RegisterWrite { reg: Register::Tia2CLsb, value: t.tia2_c_lsb });
    v.push(RegisterWrite { reg: Register::Tia2CMsb, value: t.tia2_c_msb });
    v
}

/// The writes of the TX second baseband filter settings.
pub fn tx_second_filter_register_writes(t: &TxSecondFilterSettings) -> (r: Vec<RegisterWrite>)
    ensures
        r@ == seq![
            RegisterWrite { reg: Register::Config0, value: t.config },
            RegisterWrite { reg: Register::Resistor, value: t.resistor },
            RegisterWrite { reg: Register::Capacitor, value: t.capacitor },
        ],
{
    let mut v: Vec<RegisterWrite> = Vec::new();
    v.push(RegisterWrite { reg: Register::Config0, value: t.config });
    v.push(RegisterWrite { reg: Register::Resistor, value: t.resistor });
    v.push(RegisterWrite { reg: Register::Capacitor, value: t.capacitor });
    v
}

/// The writes of the RX ADC setup: value `i` to the register at address `0x200 + i`.
#[verifier::spinoff_prover]
pub fn rx_adc_register_writes(values: &[u8; 40]) -> (r: Vec<RegisterWrite>)
    ensures
        r@.len() == 40,
        forall|i: int|
            #![trigger r@[i]]
            0 <= i < 40 ==> r@[i].reg.address() == 0x200 + i && r@[i].value == values[i],
{
    let mut v: Vec<RegisterWrite> = Vec::new();
    let mut i: usize = 0;
    while i < 40
        invariant
            i <= 40,
            v@.len() == i,
            forall|k: int|
                #![trigger v@[k]]
                0 <= k < i ==> v@[k].reg.address() == 0x200 + k && v@[k].value == values[k],
        decreases 40 - i,
    {
        let ghost before = v@;
        let reg = rx_adc_setup_register(i);
        v.push(RegisterWrite { reg, value: values[i] });
        proof {
            assert forall|k: int|
                #![trigger v@[k]]
                0 <= k < i + 1 implies v@[k].reg.address() == 0x200 + k && v@[k].value
                == values[k] by {
                if k < i {
                    assert(v@[k] == before[k]);
                    assert(before[k].reg.address() == 0x200 + k && before[k].value == values[k]);
                } else {
                    assert(k == i);
                    assert(v@[k].reg == reg);
                    assert(reg.address() == 0x200 + i);
                    assert(v@[k].value == values[i as int]);
                }
            }
        }
        i = i + 1;
    }
    v
}

// ---------------------------------------------------------------------------------------------
// TX quadrature calibration.
// ---------------------------------------------------------------------------------------------

/// NCO setup of the TX quadrature calibration.
#[derive(Debug, Clone, Copy, PartialEq, Eq, Structural)]
pub struct TxQuadNco {
    /// 2 bit TX NCO frequency word.
    pub tx_nco_word: u8,
    /// 2 bit RX NCO frequency word.
    pub rx_nco_word: u8,
    /// 2 bit decimation of the calibration.
    pub decimation: u8,
    /// 5 bit RX phase derived from the clock relationship.
    pub calculated_rx_phase: u8,
    /// TX NCO frequency in Hz.
    pub tx_nco_freq: u32,
    /// Whether the RF bandwidth has to be widened to eight times the NCO frequency while the
    /// calibration runs.
    pub widen_bandwidth: bool,
}

/// The TX NCO word before the adjustment to the clock relationship.
pub open spec fn tx_quad_initial_word(rf_tx_bw_hz: u32, clk_tx_fir: u32) -> int {
    let w = div_round((rf_tx_bw_hz / 2) * 8, clk_tx_fir as int);
    min(if w > 0 { w - 1 } else { 0 }, 3)
}

/// The NCO setup of the TX quadrature calibration for the RF bandwidths, the RX FIR input clock,
/// the TX FIR output clock and the `TxEnableFilterCtrl` register. `None` when the RX FIR input
/// clock is neither the TX FIR output clock nor (within 1 Hz) twice it.
pub open spec fn tx_quad_nco_spec(
    rf_tx_bw_hz: u32,
    rf_rx_bw_hz: u32,
    clk_rx_fir: u32,
    clk_tx_fir: u32,
    tx_filter_ctrl: u8,
) -> Option<TxQuadNco> {
    let w = tx_quad_initial_word(rf_tx_bw_hz, clk_tx_fir);
    let diff = clk_rx_fir - 2 * clk_tx_fir;
    let double = -2 < diff < 2;
    if !double && clk_rx_fir != clk_tx_fir {
        None
    } else {
        let (tx_w, rx_w, phase) = if double {
            if w == 0 {
                (1int, 0int, 0x0Eint)
            } else if w == 1 {
                (1, 0, 0x0E)
            } else if w == 2 {
                (1, 0, 0x0E)
            } else {
                (3, 1, 0x08)
            }
        } else {
            (
                w,
                w,
                if w == 0 || w == 3 {
                    0x15int
                } else if w == 2 {
                    0x1F
                } else if (tx_filter_ctrl / 16) % 4 == 2 && tx_filter_ctrl % 4 == 2 {
                    0x15
                } else {
                    0x1A
                },
            )
        };
        let freq = clk_tx_fir * (tx_w + 1) / 32;
        Some(
            TxQuadNco {
                tx_nco_word: tx_w as u8,
                rx_nco_word: rx_w as u8,
                decimation: if clk_tx_fir <= 4_000_000 {
                    2
                } else {
                    3
                },
                calculated_rx_phase: phase as u8,
                tx_nco_freq: freq as u32,
                widen_bandwidth: freq > (rf_tx_bw_hz / 2) / 4 || freq > (rf_rx_bw_hz / 2) / 4,
            },
        )
    }
}

/// The RX phase of the TX quadrature calibration for the NCO word that the calibration uses.
/// With equal RX FIR input and TX FIR output clocks both NCOs run on the same word and the phase
/// is 0x15 for word 0 or 3, 0x1F for word 2, and for word 1 0x15 when both the TX FIR and the
/// first TX half-band field of `TxEnableFilterCtrl` read 2, 0x1A otherwise. With the RX FIR
/// clock twice the TX FIR clock (within 1 Hz) the TX NCO runs on word 1 with the RX NCO on word
/// 0 and phase 0x0E, or on word 3 with the RX NCO on word 1 and phase 0x08.
pub proof fn lemma_tx_quad_phase_table(
    rf_tx_bw_hz: u32,
    rf_rx_bw_hz: u32,
    clk_rx_fir: u32,
    clk_tx_fir: u32,
    tx_filter_ctrl: u8,
)
    ensures
        clk_rx_fir == clk_tx_fir && clk_tx_fir >= 2 ==> (tx_quad_nco_spec(
            rf_tx_bw_hz,
            rf_rx_bw_hz,
            clk_rx_fir,
            clk_tx_fir,
            tx_filter_ctrl,
        ) matches Some(v) && v.rx_nco_word == v.tx_nco_word && v.tx_nco_word <= 3
            && v.calculated_rx_phase == if v.tx_nco_word == 0 || v.tx_nco_word == 3 {
            0x15u8
        } else if v.tx_nco_word == 2 {
            0x1Fu8
        } else if (tx_filter_ctrl / 16) % 4 == 2 && tx_filter_ctrl % 4 == 2 {
            0x15u8
        } else {
            0x1Au8
        }),
        -2 < clk_rx_fir - 2 * clk_tx_fir < 2 ==> (tx_quad_nco_spec(
            rf_tx_bw_hz,
            rf_rx_bw_hz,
            clk_rx_fir,
            clk_tx_fir,
            tx_filter_ctrl,
        ) matches Some(v) && ((v.tx_nco_word == 1 && v.rx_nco_word == 0
            && v.calculated_rx_phase == 0x0E) || (v.tx_nco_word == 3 && v.rx_nco_word == 1
            && v.calculated_rx_phase == 0x08))),
{
}

/// Computes the NCO setup of the TX quadrature calibration, see [`tx_quad_nco_spec`]. The error
/// names both clocks.
pub fn tx_quad_nco_setup<E>(
    rf_tx_bw_hz: u32,
    rf_rx_bw_hz: u32,
    clk_rx_fir: u32,
    clk_tx_fir: u32,
    tx_filter_ctrl: u8,
) -> (r: Result<TxQuadNco, InitError<E>>)
    requires
        clk_tx_fir > 0,
        clk_tx_fir * 4 <= u32::MAX,
        (rf_tx_bw_hz / 2) * 8 + clk_tx_fir / 2 <= u32::MAX,
    ensures
        r is Err <==> tx_quad_nco_spec(
            rf_tx_bw_hz,
            rf_rx_bw_hz,
            clk_rx_fir,
            clk_tx_fir,
            tx_filter_ctrl,
        ) is None,
        r matches Ok(v) ==> Some(v) == tx_quad_nco_spec(
            rf_tx_bw_hz,
            rf_rx_bw_hz,
            clk_rx_fir,
            clk_tx_fir,
            tx_filter_ctrl,
        ),
        clk_rx_fir == clk_tx_fir && clk_tx_fir >= 2 ==> (r matches Ok(v) && v.rx_nco_word
            == v.tx_nco_word && v.tx_nco_word <= 3 && v.calculated_rx_phase == if v.tx_nco_word
            == 0 || v.tx_nco_word == 3 {
            0x15u8
        } else if v.tx_nco_word == 2 {
            0x1Fu8
        } else if (tx_filter_ctrl / 16) % 4 == 2 && tx_filter_ctrl % 4 == 2 {
            0x15u8
        } else {
            0x1Au8
        }),
        r is Err ==> r == (Err::<TxQuadNco, InitError<E>>(
            InitError::UnsymetricFirClocks {
                tx_fir_output_hz: clk_tx_fir,
                rx_fir_input_hz: clk_rx_fir,
            },
        )),
{
    let real_tx_bw_hz = rf_tx_bw_hz / 2;
    let real_rx_bw_hz = rf_rx_bw_hz / 2;
    let w = div_round_u32(real_tx_bw_hz * 8, clk_tx_fir);
    let w = if w > 0 {
        w - 1
    } else {
        0
    };
    let mut tx_nco_word: u32 = if w < 3 {
        w
    } else {
        3
    };
    let mut rx_nco_word = tx_nco_word;
    let decimation: u8 = if clk_tx_fir <= 4_000_000 {
        2
    } else {
        3
    };
    let twice = clk_tx_fir * 2;
    let diff = if clk_rx_fir > twice {
        clk_rx_fir - twice
    } else {
        twice - clk_rx_fir
    };
    let phase: u8 = if diff < 2 {
        let mut rx_phase: u8 = 0x0E;
        if tx_nco_word == 0 {
            tx_nco_word = 1;
        } else if tx_nco_word == 1 {
            rx_nco_word = 0;
        } else if tx_nco_word == 2 {
            rx_nco_word = 0;
            tx_nco_word = 1;
        } else {
            rx_nco_word = 1;
            rx_phase = 0x08;
        }
        rx_phase
    } else if clk_rx_fir == clk_tx_fir {
        if tx_nco_word == 0 || tx_nco_word == 3 {
            0x15
        } else if tx_nco_word == 2 {
            0x1F
        } else if (tx_filter_ctrl / 16) % 4 == 2 && tx_filter_ctrl % 4 == 2 {
            0x15
        } else {
            0x1A
        }
    } else {
        return Err(
            InitError::UnsymetricFirClocks {
                tx_fir_output_hz: clk_tx_fir,
                rx_fir_input_hz: clk_rx_fir,
            },
        );
    };
    assert(clk_tx_fir * (tx_nco_word + 1) <= clk_tx_fir * 4) by (nonlinear_arith)
        requires
            tx_nco_word <= 3,
    ;
    let tx_nco_freq = clk_tx_fir * (tx_nco_word + 1) / 32;
    let widen_bandwidth = tx_nco_freq > (real_tx_bw_hz / 4) || tx_nco_freq > (real_rx_bw_hz / 4);
    Ok(
        TxQuadNco {
            tx_nco_word: tx_nco_word as u8,
            rx_nco_word: rx_nco_word as u8,
            decimation,
            calculated_rx_phase: phase,
            tx_nco_freq,
            widen_bandwidth,
        },
    )
}

/// The phase that the calibration starts from: the configured one, the calculated one, or none
/// (go straight to the sweep).
pub fn tx_quad_initial_phase(config: RxPhaseConfig, calculated: u8) -> (r: Option<u8>)
    ensures
        r == (match config {
            RxPhaseConfig::Manual(p) => Some(p),
            RxPhaseConfig::Calculated => Some(calculated),
            RxPhaseConfig::ForceSearch => None,
        }),
{
    match config {
        RxPhaseConfig::Manual(p) => Some(p),
        RxPhaseConfig::Calculated => Some(calculated),
        RxPhaseConfig::ForceSearch => None,
    }
}

/// Whether a `QuadCalStatusTxN` register reports convergence: both the LO and the sideband
/// convergence bits (bits 1 and 0) are set.
pub open spec fn tx_quad_status_converged(status: u8) -> bool {
    status % 4 == 3
}

/// Whether the calibration converged on the transmitters in use: both in dual mode, else the
/// one that is used.
pub fn tx_quad_converged(mode: TransceiverChannelMode, tx1_status: u8, tx2_status: u8) -> (r:
    bool)
    ensures
        r == (match mode {
            TransceiverChannelMode::Dual => tx_quad_status_converged(tx1_status)
                && tx_quad_status_converged(tx2_status),
            TransceiverChannelMode::Single { tx, .. } => match tx {
                TransmitterId::Tx1 => tx_quad_status_converged(tx1_status),
                TransmitterId::Tx2 => tx_quad_status_converged(tx2_status),
            },
        }),
{
    let c1 = tx1_status % 4 == 3;
    let c2 = tx2_status % 4 == 3;
    match mode {
        TransceiverChannelMode::Dual => c1 && c2,
        TransceiverChannelMode::Single { rx: _, tx } => match tx {
            TransmitterId::Tx1 => c1,
            TransmitterId::Tx2 => c2,
        },
    }
}

/// The phase chosen after sweeping all 32 phases (`failed[p]` is whether phase `p` did not
/// converge): the middle of the first longest run of converged phases, where a run may wrap
/// around from phase 31 to phase 0.
pub fn tx_quad_best_phase(failed: &[bool; 32]) -> (r: u8)
    ensures
        r < 32,
        forall|s: int, l: int|
            first_longest_window(failed@ + failed@, 64, s, l) ==> r == (s + l / 2) % 32,
{
    let mut doubled: Vec<bool> = Vec::new();
    let mut i: usize = 0;
    while i < 64
        invariant
            i <= 64,
            doubled@.len() == i,
            forall|j: int| 0 <= j < i ==> doubled@[j] == (failed@ + failed@)[j],
        decreases 64 - i,
    {
        let v = if i < 32 {
            failed[i]
        } else {
            failed[i - 32]
        };
        doubled.push(v);
        i = i + 1;
    }
    assert(doubled@ =~= failed@ + failed@);
    let (start, len) = find_longest_success_window(doubled.as_slice());
    proof {
        assert forall|s: int, l: int| first_longest_window(failed@ + failed@, 64, s, l) implies s
            == start && l == len by {
            crate::driver::lemma_first_longest_window_unique(
                failed@ + failed@,
                64,
                s,
                l,
                start as int,
                len as int,
            );
        }
    }
    let m = start + len / 2;
    assert(m & 0x1f == m % 32) by (bit_vector);
    (m & 0x1f) as u8
}


// ---------------------------------------------------------------------------------------------
// RF synthesizers.
// ---------------------------------------------------------------------------------------------
/// Which synthesizer settings table applies.
#[derive(Debug, Clone, Copy, PartialEq, Eq, Structural)]
pub enum SynthLutType {
    /// The table for FDD operation with distinct RX and TX LOs.
    Fdd,
    /// The table for TDD operation, also used in FDD mode when both LOs are the same.
    Tdd,
}

/// The synthesizer table of a configuration: the FDD table in FDD mode without independent
/// mode when the RX and TX LOs differ, else the TDD table.
pub open spec fn synth_lut_type_spec(
    duplex: DivisionDuplexConfig,
    rx_lo: LocalOscClockConfig,
    tx_lo: LocalOscClockConfig,
) -> SynthLutType {
    if duplex == (DivisionDuplexConfig::Fdd { independent_mode: false }) && rx_lo != tx_lo {
        SynthLutType::Fdd
    } else {
        SynthLutType::Tdd
    }
}

/// Chooses the synthesizer table, see [`synth_lut_type_spec`].
pub fn synth_lut_type(
    duplex: &DivisionDuplexConfig,
    rx_lo: &LocalOscClockConfig,
    tx_lo: &LocalOscClockConfig,
) -> (r: SynthLutType)
    ensures
        r == synth_lut_type_spec(*duplex, *rx_lo, *tx_lo),
{
    let differs = !(*rx_lo == *tx_lo);
    match duplex {
        DivisionDuplexConfig::Fdd { independent_mode: false } if differs => SynthLutType::Fdd,
        _ => SynthLutType::Tdd,
    }
}

/// Reference clock band of a synthesizer table.
#[derive(Debug, Clone, Copy, PartialEq, Eq, Structural)]
pub enum LutFrequency {
    /// Synthesizer reference clocks below 50 MHz.
    Mhz40,
    /// Synthesizer reference clocks from 50 MHz up to 70 MHz.
    Mhz60,
    /// Synthesizer reference clocks of 70 MHz and above.
    Mhz80,
}

/// The table band of a synthesizer reference clock.
pub open spec fn lut_frequency_spec(synth_ref_clk: u32) -> LutFrequency {
    if synth_ref_clk < 50_000_000 {
        LutFrequency::Mhz40
    } else if synth_ref_clk < 70_000_000 {
        LutFrequency::Mhz60
    } else {
        LutFrequency::Mhz80
    }
}

/// Chooses the table band of a synthesizer reference clock, see [`lut_frequency_spec`].
pub fn lut_frequency(synth_ref_clk: u32) -> (r: LutFrequency)
    ensures
        r == lut_frequency_spec(synth_ref_clk),
{
    if synth_ref_clk < 50_000_000 {
        LutFrequency::Mhz40
    } else if synth_ref_clk < 70_000_000 {
        LutFrequency::Mhz60
    } else {
        LutFrequency::Mhz80
    }
}

/// One row of a synthesizer settings table: the VCO frequency the row starts at and the field
/// values of the VCO, charge pump and loop filter registers.
#[derive(Debug, Clone, Copy, PartialEq, Eq, Structural)]
pub struct SynthLutEntry {
    /// VCO frequency in MHz.
    pub vco_mhz: u16,
    /// VCO output level, 4 bits.
    pub vco_output_level: u8,
    /// VCO varactor, 4 bits.
    pub vco_varactor: u8,
    /// VCO bias reference, 3 bits.
    pub vco_bias_ref: u8,
    /// VCO bias temperature coefficient, 2 bits.
    pub vco_bias_tcf: u8,
    /// VCO calibration offset, 4 bits.
    pub vco_cal_offset: u8,
    /// VCO varactor reference, 4 bits.
    pub vco_varactor_reference: u8,
    /// Charge pump current, 6 bits.
    pub charge_pump_reg: u8,
    /// Loop filter C2, 4 bits.
    pub lf_c2: u8,
    /// Loop filter C1, 4 bits.
    pub lf_c1: u8,
    /// Loop filter R1, 4 bits.
    pub lf_r1: u8,
    /// Loop filter C3, 4 bits.
    pub lf_c3: u8,
    /// Loop filter R3, 4 bits.
    pub lf_r3: u8,
}

impl SynthLutEntry {
    /// Every field value fits its register field.
    pub open spec fn wf(self) -> bool {
        &&& self.vco_output_level < 16
        &&& self.vco_varactor < 16
        &&& self.vco_bias_ref < 8
        &&& self.vco_bias_tcf < 4
        &&& self.vco_cal_offset < 16
        &&& self.vco_varactor_reference < 16
        &&& self.charge_pump_reg < 64
        &&& self.lf_c2 < 16
        &&& self.lf_c1 < 16
        &&& self.lf_r1 < 16
        &&& self.lf_c3 < 16
        &&& self.lf_r3 < 16
    }
}

/// A VCO frequency in whole MHz, truncated to 16 bits.
pub open spec fn vco_mhz_of(pll_vco_hz: u64) -> u16 {
    (pll_vco_hz / 1_000_000) as u16
}

/// The row of a synthesizer table (rows ordered by falling VCO frequency) for a VCO frequency:
/// the first row that starts at or below it, or the last row.
pub fn synth_lut_index(lut: &[SynthLutEntry], pll_vco_hz: u64) -> (r: usize)
    requires
        lut@.len() >= 1,
    ensures
        r < lut@.len(),
        r == lut@.len() - 1 || lut@[r as int].vco_mhz <= vco_mhz_of(pll_vco_hz),
        forall|j: int| 0 <= j < r ==> lut@[j].vco_mhz > vco_mhz_of(pll_vco_hz),
{
    let vco_mhz: u16 = (pll_vco_hz / 1_000_000) as u16;
    let last: usize = lut.len() - 1;
    let mut i: usize = 0;
    while i < last && lut[i].vco_mhz > vco_mhz
        invariant
            last == lut@.len() - 1,
            i <= last,
            vco_mhz == vco_mhz_of(pll_vco_hz),
            forall|j: int| 0 <= j < i ==> lut@[j].vco_mhz > vco_mhz,
        decreases last - i,
    {
        i = i + 1;
    }
    i
}

/// The registers of one RF synthesizer.
#[derive(Debug, Clone, Copy, PartialEq, Eq, Structural)]
pub struct SynthRegisters {
    /// VCO output level and logic power-on.
    pub vco_output: Register,
    /// ALC and VCO varactor.
    pub alc_varactor: Register,
    /// VCO bias.
    pub vco_bias_1: Register,
    /// VCO calibration offset and forced tuning.
    pub force_vco_tune_1: Register,
    /// VCO varactor reference.
    pub vco_varactor_ctrl_1: Register,
    /// VCO varactor offset and reference temperature coefficient.
    pub vco_varactor_ctrl_0: Register,
    /// VCO calibration reference.
    pub vco_cal_ref: Register,
    /// Charge pump current.
    pub cp_current: Register,
    /// Loop filter C2 and C1.
    pub loop_filter_1: Register,
    /// Loop filter R1 and C3.
    pub loop_filter_2: Register,
    /// Loop filter R3 and bypasses.
    pub loop_filter_3: Register,
    /// Highest byte of the divider words; a multi-byte write walks down from it through the
    /// fractional bytes to the integer bytes.
    pub fract_byte_2: Register,
    /// Low byte of the integer divider word.
    pub integer_byte_0: Register,
    /// VCO lock detect (bit 1).
    pub vco_lock: Register,
}

/// The registers of the TX synthesizer when `tx`, else of the RX synthesizer.
pub open spec fn synth_registers_spec(tx: bool) -> SynthRegisters {
    if tx {
        SynthRegisters {
            vco_output: Register::TxVcoOutput,
            alc_varactor: Register::TxAlcVaractor,
            vco_bias_1: Register::TxVcoBias1,
            force_vco_tune_1: Register::TxForceVcoTune1,
            vco_varactor_ctrl_1: Register::TxVcoVaractorCtrl1,
            vco_varactor_ctrl_0: Register::TxVcoVaractorCtrl0,
            vco_cal_ref: Register::TxVcoCalRef,
            cp_current: Register::TxCpCurrent,
            loop_filter_1: Register::TxLoopFilter1,
            loop_filter_2: Register::TxLoopFilter2,
            loop_filter_3: Register::TxLoopFilter3,
            fract_byte_2: Register::TxFractByte2,
            integer_byte_0: Register::TxIntegerByte0,
            vco_lock: Register::TxCpOverrangeVcoLock,
        }
    } else {
        SynthRegisters {
            vco_output: Register::RxVcoOutput,
            alc_varactor: Register::RxAlcVaractor,
            vco_bias_1: Register::RxVcoBias1,
            force_vco_tune_1: Register::RxForceVcoTune1,
            vco_varactor_ctrl_1: Register::RxVcoVaractorCtrl1,
            vco_varactor_ctrl_0: Register::RxVcoVaractorCtrl0,
            vco_cal_ref: Register::RxVcoCalRef,
            cp_current: Register::RxCpCurrent,
            loop_filter_1: Register::RxLoopFilter1,
            loop_filter_2: Register::RxLoopFilter2,
            loop_filter_3: Register::RxLoopFilter3,
            fract_byte_2: Register::RxFractByte2,
            integer_byte_0: Register::RxIntegerByte0,
            vco_lock: Register::RxCpOverrangeVcoLock,
        }
    }
}

/// The registers of the TX synthesizer when `tx`, else of the RX synthesizer.
pub fn synth_registers(tx: bool) -> (r: SynthRegisters)
    ensures
        r == synth_registers_spec(tx),
{
    if tx {
        SynthRegisters {
            vco_output: Register::TxVcoOutput,
            alc_varactor: Register::TxAlcVaractor,
            vco_bias_1: Register::TxVcoBias1,
            force_vco_tune_1: Register::TxForceVcoTune1,
            vco_varactor_ctrl_1: Register::TxVcoVaractorCtrl1,
            vco_varactor_ctrl_0: Register::TxVcoVaractorCtrl0,
            vco_cal_ref: Register::TxVcoCalRef,
            cp_current: Register::TxCpCurrent,
            loop_filter_1: Register::TxLoopFilter1,
            loop_filter_2: Register::TxLoopFilter2,
            loop_filter_3: Register::TxLoopFilter3,
            fract_byte_2: Register::TxFractByte2,
            integer_byte_0: Register::TxIntegerByte0,
            vco_lock: Register::TxCpOverrangeVcoLock,
        }
    } else {
        SynthRegisters {
            vco_output: Register::RxVcoOutput,
            alc_varactor: Register::RxAlcVaractor,
            vco_bias_1: Register::RxVcoBias1,
            force_vco_tune_1: Register::RxForceVcoTune1,
            vco_varactor_ctrl_1: Register::RxVcoVaractorCtrl1,
            vco_varactor_ctrl_0: Register::RxVcoVaractorCtrl0,
            vco_cal_ref: Register::RxVcoCalRef,
            cp_current: Register::RxCpCurrent,
            loop_filter_1: Register::RxLoopFilter1,
            loop_filter_2: Register::RxLoopFilter2,
            loop_filter_3: Register::RxLoopFilter3,
            fract_byte_2: Register::RxFractByte2,
            integer_byte_0: Register::RxIntegerByte0,
            vco_lock: Register::RxCpOverrangeVcoLock,
        }
    }
}

/// The writes of a synthesizer table row, in order: VCO output level with the VCO logic powered
/// on (bit 6); the VCO varactor into bits 0 to 3 of the ALC register, whose other bits keep
/// their value; the VCO bias (temperature coefficient in bits 3 and 4, reference in bits 0 to
/// 2); the calibration offset in bits 3 to 6 without forced tuning; the varactor reference; a
/// zero calibration reference; varactor offset 0 with reference temperature coefficient 7; the
/// charge pump current into bits 0 to 5 of its register, whose other bits keep their value;
/// and the loop filter (C2 and C1, R1 and C3, R3 without bypasses).
pub open spec fn rf_pll_setting_writes(
    regs: SynthRegisters,
    e: SynthLutEntry,
    alc_varactor: u8,
    cp_current: u8,
) -> Seq<RegisterWrite> {
    seq![
        RegisterWrite { reg: regs.vco_output, value: (0x40 + e.vco_output_level) as u8 },
        RegisterWrite { reg: regs.alc_varactor, value: with_field8(alc_varactor, 0, 4, e.vco_varactor) },
        RegisterWrite { reg: regs.vco_bias_1, value: (e.vco_bias_tcf * 8 + e.vco_bias_ref) as u8 },
        RegisterWrite { reg: regs.force_vco_tune_1, value: (e.vco_cal_offset * 8) as u8 },
        RegisterWrite { reg: regs.vco_varactor_ctrl_1, value: e.vco_varactor_reference },
        RegisterWrite { reg: regs.vco_cal_ref, value: 0 },
        RegisterWrite { reg: regs.vco_varactor_ctrl_0, value: 0x70 },
        RegisterWrite { reg: regs.cp_current, value: with_field8(cp_current, 0, 6, e.charge_pump_reg) },
        RegisterWrite { reg: regs.loop_filter_1, value: (e.lf_c2 * 16 + e.lf_c1) as u8 },
        RegisterWrite { reg: regs.loop_filter_2, value: (e.lf_r1 * 16 + e.lf_c3) as u8 },
        RegisterWrite { reg: regs.loop_filter_3, value: e.lf_r3 },
    ]
}

/// Computes the writes of [`rf_pll_setting_writes`] for the TX synthesizer when `tx`, else for
/// the RX synthesizer, given the current values of its ALC and charge pump registers.
pub fn rf_pll_setting_register_writes(
    tx: bool,
    e: &SynthLutEntry,
    alc_varactor: u8,
    cp_current: u8,
) -> (r: Vec<RegisterWrite>)
    requires
        e.wf(),
    ensures
        r@ == rf_pll_setting_writes(synth_registers_spec(tx), *e, alc_varactor, cp_current),
{
    proof {
        lemma_field_bounds();
    }
    let regs = synth_registers(tx);
    let mut v: Vec<RegisterWrite> = Vec::new();
    v.push(RegisterWrite { reg: regs.vco_output, value: 0x40 + e.vco_output_level });
    v.push(
        RegisterWrite {
            reg: regs.alc_varactor,
            value: set_field(alc_varactor, 0, 4, e.vco_varactor),
        },
    );
    v.push(RegisterWrite { reg: regs.vco_bias_1, value: e.vco_bias_tcf * 8 + e.vco_bias_ref });
    v.push(RegisterWrite { reg: regs.force_vco_tune_1, value: e.vco_cal_offset * 8 });
    v.push(RegisterWrite { reg: regs.vco_varactor_ctrl_1, value: e.vco_varactor_reference });
    v.push(RegisterWrite { reg: regs.vco_cal_ref, value: 0 });
    v.push(RegisterWrite { reg: regs.vco_varactor_ctrl_0, value: 0x70 });
    v.push(
        RegisterWrite {
            reg: regs.cp_current,
            value: set_field(cp_current, 0, 6, e.charge_pump_reg),
        },
    );
    v.push(RegisterWrite { reg: regs.loop_filter_1, value: e.lf_c2 * 16 + e.lf_c1 });
    v.push(RegisterWrite { reg: regs.loop_filter_2, value: e.lf_r1 * 16 + e.lf_c3 });
    v.push(RegisterWrite { reg: regs.loop_filter_3, value: e.lf_r3 });
    assert(v@ =~= rf_pll_setting_writes(regs, *e, alc_varactor, cp_current));
    v
}

/// The divider bytes of a synthesizer, written from its `fract_byte_2` register downwards: the
/// fractional word from its high byte down, then the integer word, its bits 8 to 10 into bits 0
/// to 2 of `integer_byte_0` (the value read from the low integer byte register, whose other
/// bits are kept) and its low byte.
pub open spec fn rf_pll_divider_bytes_spec(c: RfPllConfig, integer_byte_0: u8) -> Seq<u8> {
    seq![
        (c.pll_frac / 65536) as u8,
        (c.pll_frac / 256 % 256) as u8,
        (c.pll_frac % 256) as u8,
        with_field8(integer_byte_0, 0, 3, (c.pll_int / 256) as u8),
        (c.pll_int % 256) as u8,
    ]
}

/// Computes the divider bytes of [`rf_pll_divider_bytes_spec`].
pub fn rf_pll_divider_bytes(c: &RfPllConfig, integer_byte_0: u8) -> (r: [u8; 5])
    requires
        c.wf(),
    ensures
        r@ == rf_pll_divider_bytes_spec(*c, integer_byte_0),
{
    proof {
        lemma_field_bounds();
    }
    let f = c.pll_frac;
    let n = c.pll_int;
    assert((f >> 16u32) & 0xff == f / 65536) by (bit_vector)
        requires
            f < 0x80_0000,
    ;
    assert((f >> 8u32) & 0xff == f / 256 % 256) by (bit_vector);
    assert(f & 0xff == f % 256) by (bit_vector);
    assert((n >> 8u16) & 0xff == n / 256 && n / 256 < 8) by (bit_vector)
        requires
            n < 0x800,
    ;
    let b0 = ((f >> 16) & 0xff) as u8;
    let b1 = ((f >> 8) & 0xff) as u8;
    let b2 = (f & 0xff) as u8;
    let b3 = set_field(integer_byte_0, 0, 3, ((n >> 8) & 0xff) as u8);
    let b4 = (n % 256) as u8;
    let r = [b0, b1, b2, b3, b4];
    assert(r@ =~= rf_pll_divider_bytes_spec(*c, integer_byte_0));
    r
}

/// `RfPllDividers` with the VCO divider of the TX synthesizer (bits 4 to 7) when `tx`, else of
/// the RX synthesizer (bits 0 to 3); the other half keeps its value.
pub fn rf_pll_dividers_register(tx: bool, vco_div: PllVcoDivider, rf_pll_dividers: u8) -> (r: u8)
    ensures
        tx ==> r == with_field8(rf_pll_dividers, 4, 4, vco_div.reg_bits_spec().raw()),
        !tx ==> r == with_field8(rf_pll_dividers, 0, 4, vco_div.reg_bits_spec().raw()),
{
    proof {
        lemma_field_bounds();
    }
    let bits = vco_div.as_reg_bits().raw_value();
    if tx {
        set_field(rf_pll_dividers, 4, 4, bits)
    } else {
        set_field(rf_pll_dividers, 0, 4, bits)
    }
}

/// Whether a synthesizer VCO has locked: bit 1 of its lock register.
pub fn rf_pll_locked(vco_lock: u8) -> (r: bool)
    ensures
        r == (field8(vco_lock, 1, 1) == 1),
{
    proof {
        lemma_field_bounds();
    }
    (vco_lock >> 1) & 1 == 1
}

/// Number of lock polls, 120 us apart, after which a PLL lock times out: once more than 20 ms
/// have passed.
pub const PLL_LOCK_MAX_POLLS: u32 = 167;


/// Whether a BB PLL has locked: bit 7 of `Ch1Overflow`.
pub fn bb_pll_locked(ch1_overflow: u8) -> (r: bool)
    ensures
        r == (field8(ch1_overflow, 7, 1) == 1),
{
    proof {
        lemma_field_bounds();
    }
    (ch1_overflow >> 7) & 1 == 1
}

// ---------------------------------------------------------------------------------------------
// BB PLL setup.
// ---------------------------------------------------------------------------------------------
/// Loop filter bytes of the BB PLL, written from `LoopFilter3` downwards.
pub fn bb_pll_loop_filter() -> (r: [u8; 3])
    ensures
        r@ == seq![0x35u8, 0x5Bu8, 0xE8u8],
{
    let r = [0x35u8, 0x5B, 0xE8];
    assert(r@ =~= seq![0x35u8, 0x5Bu8, 0xE8u8]);
    r
}

/// The writes that set up and calibrate the BB PLL after its charge pump current and loop
/// filter: VCO frequency calibration enabled (bit 7) with the bits that must be one (5 and 6),
/// the calibration clock at a quarter of the reference, the frequency words (integer, then the
/// fractional bytes from low to high), the calibration started and the PLL out of reset (bits 2
/// and 0), then only out of reset, and the higher VCO gain and phase margin.
pub open spec fn bb_pll_calibration_writes(c: BbPllConfig) -> Seq<RegisterWrite> {
    seq![
        RegisterWrite { reg: Register::VcoCtrl, value: 0xE0 },
        RegisterWrite { reg: Register::SdmCtrl, value: 0x10 },
        RegisterWrite { reg: Register::IntegerBbFreqWord, value: c.integer_freq_word },
        RegisterWrite { reg: Register::FractBbFreqWord3, value: (c.fractional_freq_word % 256) as u8 },
        RegisterWrite {
            reg: Register::FractBbFreqWord2,
            value: (c.fractional_freq_word / 256 % 256) as u8,
        },
        RegisterWrite { reg: Register::FractBbFreqWord1, value: (c.fractional_freq_word / 65536) as u8 },
        RegisterWrite { reg: Register::BbPllCtrl1, value: 0x05 },
        RegisterWrite { reg: Register::BbPllCtrl1, value: 0x01 },
        RegisterWrite { reg: Register::VcoProgram1, value: 0x86 },
        RegisterWrite { reg: Register::VcoProgram2, value: 0x01 },
        RegisterWrite { reg: Register::VcoProgram2, value: 0x05 },
    ]
}

/// Computes the writes of [`bb_pll_calibration_writes`]. Before them the charge pump current
/// goes to `CpCurrent` and [`bb_pll_loop_filter`] to the loop filter; after them the lock is
/// polled with [`bb_pll_locked`].
pub fn bb_pll_calibration_register_writes(c: &BbPllConfig) -> (r: Vec<RegisterWrite>)
    requires
        c.wf(),
    ensures
        r@ == bb_pll_calibration_writes(*c),
{
    let (int_word, f0, f1, f2) = bb_pll_word_bytes(c);
    let mut v: Vec<RegisterWrite> = Vec::new();
    v.push(RegisterWrite { reg: Register::VcoCtrl, value: 0xE0 });
    v.push(RegisterWrite { reg: Register::SdmCtrl, value: 0x10 });
    v.push(RegisterWrite { reg: Register::IntegerBbFreqWord, value: int_word });
    v.push(RegisterWrite { reg: Register::FractBbFreqWord3, value: f0 });
    v.push(RegisterWrite { reg: Register::FractBbFreqWord2, value: f1 });
    v.push(RegisterWrite { reg: Register::FractBbFreqWord1, value: f2 });
    v.push(RegisterWrite { reg: Register::BbPllCtrl1, value: 0x05 });
    v.push(RegisterWrite { reg: Register::BbPllCtrl1, value: 0x01 });
    v.push(RegisterWrite { reg: Register::VcoProgram1, value: 0x86 });
    v.push(RegisterWrite { reg: Register::VcoProgram2, value: 0x01 });
    v.push(RegisterWrite { reg: Register::VcoProgram2, value: 0x05 });
    assert(v@ =~= bb_pll_calibration_writes(*c));
    v
}

// ---------------------------------------------------------------------------------------------
// Clock chain registers.
// ---------------------------------------------------------------------------------------------
/// `BbPll` with the ADC divisor in bits 0 to 2; the other bits keep their value.
pub fn adc_clock_register(bb_pll: u8, adc_div: AdcDivisor) -> (r: u8)
    ensures
        r == with_field8(bb_pll, 0, 3, adc_div.raw()),
{
    proof {
        lemma_field_bounds();
    }
    set_field(bb_pll, 0, 3, adc_div.raw_value())
}

/// `BbPll` with the DAC clock halving in bit 3; the other bits keep their value.
pub fn dac_clock_register(bb_pll: u8, dac_div2: bool) -> (r: u8)
    ensures
        r == with_field8(bb_pll, 3, 1, b8(dac_div2)),
{
    set_flag(bb_pll, 3, dac_div2)
}

/// `RxEnableFilterCtrl` with the half-band stages of `c` (HB3 in bits 4 and 5, HB2 in bit 3,
/// HB1 in bit 2) and the FIR bypassed (bits 0 and 1 cleared); the receiver enables keep their
/// value. The FIR stays bypassed until the calibrations are done, see [`fir_enable_registers`].
pub fn rx_hb_chain_register(filter_ctrl: u8, c: &RxConfig) -> (r: u8)
    ensures
        r == with_field8(
            with_field8(
                with_field8(with_field8(filter_ctrl, 4, 2, c.rhb3.raw()), 3, 1, b8(c.rhb2)),
                2,
                1,
                b8(c.rhb1),
            ),
            0,
            2,
            0,
        ),
{
    proof {
        lemma_field_bounds();
    }
    let v = set_field(filter_ctrl, 4, 2, c.rhb3.raw_value());
    let v = set_flag(v, 3, c.rhb2);
    let v = set_flag(v, 2, c.rhb1);
    set_field(v, 0, 2, 0)
}

/// `TxEnableFilterCtrl` with the half-band stages of `c` (HB3 in bits 4 and 5, HB2 in bit 3,
/// HB1 in bit 2) and the FIR bypassed (bits 0 and 1 cleared); the transmitter enables keep
/// their value.
pub fn tx_hb_chain_register(filter_ctrl: u8, c: &TxConfig) -> (r: u8)
    ensures
        r == with_field8(
            with_field8(
                with_field8(with_field8(filter_ctrl, 4, 2, c.thb3.raw()), 3, 1, b8(c.thb2)),
                2,
                1,
                b8(c.thb1),
            ),
            0,
            2,
            0,
        ),
{
    proof {
        lemma_field_bounds();
    }
    let v = set_field(filter_ctrl, 4, 2, c.thb3.raw_value());
    let v = set_flag(v, 3, c.thb2);
    let v = set_flag(v, 2, c.thb1);
    set_field(v, 0, 2, 0)
}

/// `RxEnableFilterCtrl` and `TxEnableFilterCtrl` with the FIR ratios of `c` in bits 0 and 1;
/// the other bits keep their value.
pub fn fir_enable_registers(rx_filter_ctrl: u8, tx_filter_ctrl: u8, c: &ClockConfig) -> (r: (
    u8,
    u8,
))
    ensures
        r.0 == with_field8(rx_filter_ctrl, 0, 2, c.rx.rx_fir.raw()),
        r.1 == with_field8(tx_filter_ctrl, 0, 2, c.tx.tx_fir.raw()),
{
    proof {
        lemma_field_bounds();
    }
    (
        set_field(rx_filter_ctrl, 0, 2, c.rx.rx_fir.raw_value()),
        set_field(tx_filter_ctrl, 0, 2, c.tx.tx_fir.raw_value()),
    )
}

// ---------------------------------------------------------------------------------------------
// Digital interface.
// ---------------------------------------------------------------------------------------------
/// The writes of the digital interface setup: the three parallel port registers, the RX and TX
/// clock/data delays, and the LVDS bias and inversion registers, or only the LVDS bias reset
/// value 0x03 without LVDS.
pub open spec fn digital_port_writes(d: DigitalInterfaceConfig) -> Seq<RegisterWrite> {
    seq![
        RegisterWrite { reg: Register::ParallelPortConf1, value: d.pp1_config.raw() },
        RegisterWrite { reg: Register::ParallelPortConf2, value: d.pp2_config.raw() },
        RegisterWrite { reg: Register::ParallelPortConf3, value: d.pp3_config.0.raw() },
        RegisterWrite { reg: Register::RxClockDataDelay, value: d.rx_default_delay.raw() },
        RegisterWrite { reg: Register::TxClockDataDelay, value: d.tx_default_delay.raw() },
    ] + match d.lvds_config {
        Some(l) => seq![
            RegisterWrite { reg: Register::LvdsBiasCtrl, value: l.bias_control.raw() },
            RegisterWrite { reg: Register::LvdsInvertCtrl1, value: l.invert1_control.raw() },
            RegisterWrite { reg: Register::LvdsInvertCtrl2, value: l.invert2_control.raw() },
        ],
        None => seq![RegisterWrite { reg: Register::LvdsBiasCtrl, value: 0x03 }],
    }
}

/// Computes the writes of [`digital_port_writes`].
pub fn digital_port_register_writes(d: &DigitalInterfaceConfig) -> (r: Vec<RegisterWrite>)
    ensures
        r@ == digital_port_writes(*d),
{
    let mut v: Vec<RegisterWrite> = Vec::new();
    v.push(RegisterWrite { reg: Register::ParallelPortConf1, value: d.pp1_config().raw_value() });
    v.push(RegisterWrite { reg: Register::ParallelPortConf2, value: d.pp2_config().raw_value() });
    v.push(RegisterWrite { reg: Register::ParallelPortConf3, value: d.pp3_config().raw_value() });
    v.push(
        RegisterWrite { reg: Register::RxClockDataDelay, value: d.rx_default_delay.raw_value() },
    );
    v.push(
        RegisterWrite { reg: Register::TxClockDataDelay, value: d.tx_default_delay.raw_value() },
    );
    match &d.lvds_config {
        Some(l) => {
            v.push(RegisterWrite { reg: Register::LvdsBiasCtrl, value: l.bias_control.raw_value() });
            v.push(
                RegisterWrite {
                    reg: Register::LvdsInvertCtrl1,
                    value: l.invert1_control.raw_value(),
                },
            );
            v.push(
                RegisterWrite {
                    reg: Register::LvdsInvertCtrl2,
                    value: l.invert2_control.raw_value(),
                },
            );
        },
        None => {
            v.push(RegisterWrite { reg: Register::LvdsBiasCtrl, value: 0x03 });
        },
    }
    assert(v@ =~= digital_port_writes(*d));
    v
}

/// Whether RX2 is inverted against RX1, by the phase inversion setting or by the parallel port.
pub open spec fn rx2_phase_inverted(d: DigitalInterfaceConfig) -> bool {
    d.rx1rx2_phase_inversion || d.pp2_config.invert_rx2_spec()
}

/// `InvertBits` after the digital interface setup: with both the phase inversion setting and
/// the parallel port inverting RX2, the inversion of the RX2 RF DC correction word (bit 5) is
/// cleared and the other bits keep their value; otherwise the register is not written.
pub fn digital_port_invert_bits(d: &DigitalInterfaceConfig, invert_bits: u8) -> (r: Option<u8>)
    ensures
        r == (if d.rx1rx2_phase_inversion && d.pp2_config.invert_rx2_spec() {
            Some(with_field8(invert_bits, 5, 1, 0))
        } else {
            None
        }),
{
    if d.rx1rx2_phase_inversion && d.pp2_config().invert_rx2() {
        Some(set_flag(invert_bits, 5, false))
    } else {
        None
    }
}

// ---------------------------------------------------------------------------------------------
// DC offset calibrations.
// ---------------------------------------------------------------------------------------------
/// The writes before the baseband DC offset calibration: count 63, M shift 15 and attenuation 1.
/// After them the calibration runs ([`CAL_BB_DC`]).
pub fn bb_dc_offset_register_writes() -> (r: Vec<RegisterWrite>)
    ensures
        r@ == seq![
            RegisterWrite { reg: Register::BbDcOffsetCount, value: 63 },
            RegisterWrite { reg: Register::BbDcOffsetShift, value: 15 },
            RegisterWrite { reg: Register::BbDcOffsetAtten, value: 1 },
        ],
{
    let mut v: Vec<RegisterWrite> = Vec::new();
    v.push(RegisterWrite { reg: Register::BbDcOffsetCount, value: 63 });
    v.push(RegisterWrite { reg: Register::BbDcOffsetShift, value: 15 });
    v.push(RegisterWrite { reg: Register::BbDcOffsetAtten, value: 1 });
    v
}

/// Whether an RX LO frequency lies in the low range of the RF DC offset calibration, up to 4 GHz.
pub open spec fn rf_dc_low_range(rx_lo: u64) -> bool {
    rx_lo <= 4_000_000_000
}

/// The writes before the RF DC offset calibration: wait count 0x20; the count and attenuation of
/// the LO range (low up to 4 GHz, high above); the DAC full scale (2 in the low range, 3 above,
/// in bits 4 and 5) with calibration count 4; the wait counter used for the initial calibration
/// (bit 7) with DC offset update 3; and the inversion of the RX1 RF DC correction word (bit 4),
/// with that of RX2 (bit 5) only when RX2 is not inverted already. After them the calibration
/// runs ([`CAL_RF_DC`]).
pub open spec fn rf_dc_offset_writes(
    rx_lo: u64,
    count_low_range: u8,
    attenuation_low_range: u8,
    count_high_range: u8,
    attenuation_high_range: u8,
    d: DigitalInterfaceConfig,
) -> Seq<RegisterWrite> {
    let low = rf_dc_low_range(rx_lo);
    seq![
        RegisterWrite { reg: Register::WaitCount, value: 0x20 },
        RegisterWrite {
            reg: Register::RfDcOffsetCount,
            value: if low { count_low_range } else { count_high_range },
        },
        RegisterWrite { reg: Register::RfDcOffsetConfig1, value: if low { 0x24u8 } else { 0x34u8 } },
        RegisterWrite {
            reg: Register::RfDcOffsetAtten,
            value: if low { attenuation_low_range } else { attenuation_high_range },
        },
        RegisterWrite { reg: Register::DcOffsetConfig2, value: 0x83 },
        RegisterWrite {
            reg: Register::InvertBits,
            value: if rx2_phase_inverted(d) { 0x10u8 } else { 0x30u8 },
        },
    ]
}

/// Computes the writes of [`rf_dc_offset_writes`]. The attenuation of the LO range must fit its
/// 5 bit field.
pub fn rf_dc_offset_register_writes(
    rx_lo: u64,
    count_low_range: u8,
    attenuation_low_range: u8,
    count_high_range: u8,
    attenuation_high_range: u8,
    d: &DigitalInterfaceConfig,
) -> (r: Vec<RegisterWrite>)
    requires
        if rf_dc_low_range(rx_lo) {
            attenuation_low_range < 32
        } else {
            attenuation_high_range < 32
        },
    ensures
        r@ == rf_dc_offset_writes(
            rx_lo,
            count_low_range,
            attenuation_low_range,
            count_high_range,
            attenuation_high_range,
            *d,
        ),
{
    let low = rx_lo <= 4_000_000_000;
    let (count, atten, config1) = if low {
        (count_low_range, attenuation_low_range, 0x24u8)
    } else {
        (count_high_range, attenuation_high_range, 0x34u8)
    };
    let inverted = d.rx1rx2_phase_inversion || d.pp2_config().invert_rx2();
    let mut v: Vec<RegisterWrite> = Vec::new();
    v.push(RegisterWrite { reg: Register::WaitCount, value: 0x20 });
    v.push(RegisterWrite { reg: Register::RfDcOffsetCount, value: count });
    v.push(RegisterWrite { reg: Register::RfDcOffsetConfig1, value: config1 });
    v.push(RegisterWrite { reg: Register::RfDcOffsetAtten, value: atten });
    v.push(RegisterWrite { reg: Register::DcOffsetConfig2, value: 0x83 });
    v.push(
        RegisterWrite {
            reg: Register::InvertBits,
            value: if inverted {
                0x10
            } else {
                0x30
            },
        },
    );
    assert(v@ =~= rf_dc_offset_writes(
        rx_lo,
        count_low_range,
        attenuation_low_range,
        count_high_range,
        attenuation_high_range,
        *d,
    ));
    v
}

// ---------------------------------------------------------------------------------------------
// Bring-up registers.
// ---------------------------------------------------------------------------------------------
/// `ClockEnable` at bring-up: the reference clock source in bit 4 (1 for an external
/// oscillator), digital power up, default clock enable and BB PLL enable (bits 2 to 0).
pub fn clock_enable_register(ext: &ExternalClockConfig) -> (r: u8)
    ensures
        r == external_clock_reg(*ext).raw() * 16 + 7,
{
    let bypass: regs::ExternalClockConfig = regs::ExternalClockConfig::from(*ext);
    bypass.raw_value() * 16 + 7
}

/// `RefDivideConfig1` and `RefDivideConfig2` at bring-up: the bits that must be ones (1 and 2 of
/// the first, 0, 1 and 4 to 6 of the second) set, the other bits kept.
pub fn ref_divide_defaults(ref_divide_config_1: u8, ref_divide_config_2: u8) -> (r: (u8, u8))
    ensures
        r.0 == with_field8(ref_divide_config_1, 1, 2, 3),
        r.1 == with_field8(with_field8(ref_divide_config_2, 4, 3, 7), 0, 2, 3),
{
    proof {
        lemma_field_bounds();
    }
    let v = set_field(ref_divide_config_2, 4, 3, 7);
    (set_field(ref_divide_config_1, 1, 2, 3), set_field(v, 0, 2, 3))
}

/// `ClockCtrl` with the BB PLL reference scaler in bits 0 and 1; the other bits keep their value.
pub fn bb_ref_scaler_register(clock_ctrl: u8, scaler: ClockScaler) -> (r: u8)
    ensures
        r == with_field8(clock_ctrl, 0, 2, scaler.raw()),
{
    proof {
        lemma_field_bounds();
    }
    set_field(clock_ctrl, 0, 2, scaler.raw_value())
}

/// `ReferenceClockCycles`: reference clock cycles per microsecond minus one, at most 127.
pub fn reference_clock_cycles(reference_clk_rate: u32) -> (r: u8)
    requires
        reference_clk_rate >= 1_000_000,
    ensures
        r == min(reference_clk_rate / 1_000_000 - 1, 127),
{
    let cycles = reference_clk_rate / 1_000_000 - 1;
    if cycles > 127 {
        127
    } else {
        cycles as u8
    }
}

/// `InputSelect` with the TX RF path in bit 6 and the RX RF path in bits 0 to 5; bit 7 keeps its
/// value.
pub fn input_select_register(input_select: u8, tx: TxRfPathConfig, rx: RxRfPathConfig) -> (r: u8)
    ensures
        r == with_field8(with_field8(input_select, 6, 1, tx.raw()), 0, 6, rx.raw()),
{
    proof {
        lemma_field_bounds();
    }
    let v = set_field(input_select, 6, 1, tx.raw_value());
    set_field(v, 0, 6, rx.raw_value())
}

/// `BbPll` with the CLKOUT pin: enabled (bit 4) with the output selection in bits 5 to 7 for a
/// mode, else disabled with the selection kept; bits 0 to 3 keep their value.
pub fn clkout_register(bb_pll: u8, mode: Option<ClkOutMode>) -> (r: u8)
    ensures
        r == match mode {
            Some(m) => with_field8(with_field8(bb_pll, 4, 1, 1), 5, 3, m.raw()),
            None => with_field8(bb_pll, 4, 1, 0),
        },
{
    proof {
        lemma_field_bounds();
    }
    match mode {
        Some(m) => {
            let v = set_flag(bb_pll, 4, true);
            set_field(v, 5, 3, m.raw_value())
        },
        None => set_flag(bb_pll, 4, false),
    }
}

/// `TxAttenOffset` with the mask of the attenuation update clear (bit 6 cleared); the other bits
/// keep their value.
pub fn tx_atten_offset_unmasked(tx_atten_offset: u8) -> (r: u8)
    ensures
        r == with_field8(tx_atten_offset, 6, 1, 0),
{
    set_flag(tx_atten_offset, 6, false)
}

/// `ParallelPortConf3` with full duplex (bit 3 cleared) for the calibrations; the other bits
/// keep their value.
pub fn full_duplex_register(parallel_port_conf_3: u8) -> (r: u8)
    ensures
        r == with_field8(parallel_port_conf_3, 3, 1, 0),
{
    set_flag(parallel_port_conf_3, 3, false)
}


// ---------------------------------------------------------------------------------------------
// Gain tables.
// ---------------------------------------------------------------------------------------------
/// Whether a gain table row can serve the TX quadrature calibration: in its second byte the TIA
/// bit (5) set and, for a full table, the LPF gain (bits 0 to 4) zero.
pub open spec fn gain_row_for_tx_quad(row: [u8; 3], t: RxGainTableType) -> bool {
    match t {
        RxGainTableType::Full => row@[1] & 0x3F == 0x20,
        RxGainTableType::Split => row@[1] & 0x20 == 0x20,
    }
}

/// The seven writes that load row `i` of the RX gain table: its address, its three bytes, the
/// write strobe for both receivers with the table clock running, and two dummy writes for the
/// delay.
pub open spec fn gain_table_row_writes(i: int, row: [u8; 3]) -> Seq<RegisterWrite> {
    seq![
        RegisterWrite { reg: Register::GainTableAddress, value: i as u8 },
        RegisterWrite { reg: Register::GainTableWriteData1, value: row@[0] },
        RegisterWrite { reg: Register::GainTableWriteData2, value: row@[1] },
        RegisterWrite { reg: Register::GainTableWriteData3, value: row@[2] },
        RegisterWrite { reg: Register::GainTableConfig, value: 0x1E },
        RegisterWrite { reg: Register::GainTableReadData1, value: 0 },
        RegisterWrite { reg: Register::GainTableReadData1, value: 0 },
    ]
}

/// The writes that load the rows of `table`, row by row.
pub open spec fn gain_table_rows_writes(table: Seq<[u8; 3]>) -> Seq<RegisterWrite>
    decreases table.len(),
{
    if table.len() == 0 {
        seq![]
    } else {
        gain_table_rows_writes(table.drop_last()) + gain_table_row_writes(
            table.len() - 1,
            table.last(),
        )
    }
}

/// The writes that load the RX gain table: the table type into bit 3 of `AgcConfig2` (set for a
/// full table; the other bits keep their value), the highest row index into `MaxLmtFullGain`,
/// the rows, then the write strobe cleared with the clock still running, two dummy writes, and
/// the table clock stopped.
pub open spec fn gain_table_writes(
    table: Seq<[u8; 3]>,
    t: RxGainTableType,
    agc_config_2: u8,
) -> Seq<RegisterWrite> {
    seq![
        RegisterWrite {
            reg: Register::AgcConfig2,
            value: with_field8(agc_config_2, 3, 1, b8(t == RxGainTableType::Full)),
        },
        RegisterWrite { reg: Register::MaxLmtFullGain, value: (table.len() - 1) as u8 },
    ] + gain_table_rows_writes(table) + seq![
        RegisterWrite { reg: Register::GainTableConfig, value: 0x1A },
        RegisterWrite { reg: Register::GainTableReadData1, value: 0 },
        RegisterWrite { reg: Register::GainTableReadData1, value: 0 },
        RegisterWrite { reg: Register::GainTableConfig, value: 0x00 },
    ]
}

/// Computes the writes of [`gain_table_writes`] for a table of 1 to 128 rows, and the row for
/// the TX quadrature calibration: the last row for which [`gain_row_for_tx_quad`] holds, or
/// `None` when no row qualifies.
pub fn gain_table_register_writes(
    table: &[[u8; 3]],
    t: RxGainTableType,
    agc_config_2: u8,
) -> (r: (Vec<RegisterWrite>, Option<u8>))
    requires
        1 <= table@.len() <= 128,
    ensures
        r.0@ == gain_table_writes(table@, t, agc_config_2),
        r.1 matches Some(i) ==> i < table@.len() && gain_row_for_tx_quad(table@[i as int], t)
            && forall|j: int| i < j < table@.len() ==> !gain_row_for_tx_quad(table@[j], t),
        r.1 is None ==> forall|j: int|
            0 <= j < table@.len() ==> !gain_row_for_tx_quad(table@[j], t),
{
    let mask: u8 = match t {
        RxGainTableType::Full => 0x3F,
        RxGainTableType::Split => 0x20,
    };
    let full = match t {
        RxGainTableType::Full => true,
        RxGainTableType::Split => false,
    };
    let mut v: Vec<RegisterWrite> = Vec::new();
    v.push(RegisterWrite { reg: Register::AgcConfig2, value: set_flag(agc_config_2, 3, full) });
    v.push(RegisterWrite { reg: Register::MaxLmtFullGain, value: (table.len() - 1) as u8 });
    let ghost head = v@;
    let mut found: Option<u8> = None;
    let mut i: usize = 0;
    while i < table.len()
        invariant
            i <= table@.len() <= 128,
            mask == (if t == RxGainTableType::Full { 0x3Fu8 } else { 0x20u8 }),
            v@ == head + gain_table_rows_writes(table@.subrange(0, i as int)),
            found matches Some(k) ==> k < i && gain_row_for_tx_quad(table@[k as int], t)
                && forall|j: int| k < j < i ==> !gain_row_for_tx_quad(table@[j], t),
            found is None ==> forall|j: int| 0 <= j < i ==> !gain_row_for_tx_quad(table@[j], t),
        decreases table@.len() - i,
    {
        let row = table[i];
        let ghost before = v@;
        v.push(RegisterWrite { reg: Register::GainTableAddress, value: i as u8 });
        v.push(RegisterWrite { reg: Register::GainTableWriteData1, value: row[0] });
        v.push(RegisterWrite { reg: Register::GainTableWriteData2, value: row[1] });
        v.push(RegisterWrite { reg: Register::GainTableWriteData3, value: row[2] });
        v.push(RegisterWrite { reg: Register::GainTableConfig, value: 0x1E });
        v.push(RegisterWrite { reg: Register::GainTableReadData1, value: 0 });
        v.push(RegisterWrite { reg: Register::GainTableReadData1, value: 0 });
        proof {
            let prefix = table@.subrange(0, i as int + 1);
            assert(prefix.drop_last() =~= table@.subrange(0, i as int));
            assert(prefix.last() == row);
            assert(v@ =~= before + gain_table_row_writes(i as int, row));
            assert(v@ =~= head + gain_table_rows_writes(prefix));
        }
        if row[1] & mask == 0x20 {
            found = Some(i as u8);
        }
        i = i + 1;
    }
    proof {
        assert(table@.subrange(0, table@.len() as int) =~= table@);
    }
    v.push(RegisterWrite { reg: Register::GainTableConfig, value: 0x1A });
    v.push(RegisterWrite { reg: Register::GainTableReadData1, value: 0 });
    v.push(RegisterWrite { reg: Register::GainTableReadData1, value: 0 });
    v.push(RegisterWrite { reg: Register::GainTableConfig, value: 0x00 });
    assert(v@ =~= gain_table_writes(table@, t, agc_config_2));
    (v, found)
}

/// The seven writes that load one entry of the mixer GM subtable at address `addr`: the address,
/// a zero bias, the gain and control words, the write strobe with the subtable clock running,
/// and two dummy writes for the delay.
pub open spec fn mixer_row_writes(addr: int, ctrl: u8, gain: u8) -> Seq<RegisterWrite> {
    seq![
        RegisterWrite { reg: Register::GmSubTableAddress, value: addr as u8 },
        RegisterWrite { reg: Register::GmSubTableBiasWrite, value: 0 },
        RegisterWrite { reg: Register::GmSubTableGainWrite, value: gain },
        RegisterWrite { reg: Register::GmSubTableCtrlWrite, value: ctrl },
        RegisterWrite { reg: Register::GmSubTableConfig, value: 0x06 },
        RegisterWrite { reg: Register::GmSubTableGainRead, value: 0 },
        RegisterWrite { reg: Register::GmSubTableGainRead, value: 0 },
    ]
}

/// The writes of the first `n` entries of the mixer GM subtable: entry `k` goes to address
/// `len - 1 - k`, so the table is written from its highest address down.
pub open spec fn mixer_rows_writes(ctrl: Seq<u8>, gain: Seq<u8>, n: int) -> Seq<RegisterWrite>
    decreases n,
{
    if n <= 0 {
        seq![]
    } else {
        mixer_rows_writes(ctrl, gain, n - 1) + mixer_row_writes(
            ctrl.len() - 1 - (n - 1),
            ctrl[n - 1],
            gain[n - 1],
        )
    }
}

/// The writes that load the mixer GM subtable: the subtable clock started, the entries, the
/// write strobe cleared with the clock running, two dummy writes, and the clock stopped.
pub open spec fn mixer_subtable_writes(ctrl: Seq<u8>, gain: Seq<u8>) -> Seq<RegisterWrite> {
    seq![RegisterWrite { reg: Register::GmSubTableConfig, value: 0x02 }] + mixer_rows_writes(
        ctrl,
        gain,
        ctrl.len() as int,
    ) + seq![
        RegisterWrite { reg: Register::GmSubTableConfig, value: 0x02 },
        RegisterWrite { reg: Register::GmSubTableGainRead, value: 0 },
        RegisterWrite { reg: Register::GmSubTableGainRead, value: 0 },
        RegisterWrite { reg: Register::GmSubTableConfig, value: 0x00 },
    ]
}

/// Computes the writes of [`mixer_subtable_writes`] for control and gain words of the same
/// length, 1 to 256 entries.
pub fn mixer_subtable_register_writes(ctrl: &[u8], gain: &[u8]) -> (r: Vec<RegisterWrite>)
    requires
        1 <= ctrl@.len() <= 256,
        gain@.len() == ctrl@.len(),
    ensures
        r@ == mixer_subtable_writes(ctrl@, gain@),
{
    let last: usize = ctrl.len() - 1;
    let mut v: Vec<RegisterWrite> = Vec::new();
    v.push(RegisterWrite { reg: Register::GmSubTableConfig, value: 0x02 });
    let ghost head = v@;
    let mut k: usize = 0;
    while k < ctrl.len()
        invariant
            last == ctrl@.len() - 1,
            ctrl@.len() <= 256,
            gain@.len() == ctrl@.len(),
            k <= ctrl@.len(),
            v@ == head + mixer_rows_writes(ctrl@, gain@, k as int),
        decreases ctrl@.len() - k,
    {
        let ghost before = v@;
        v.push(RegisterWrite { reg: Register::GmSubTableAddress, value: (last - k) as u8 });
        v.push(RegisterWrite { reg: Register::GmSubTableBiasWrite, value: 0 });
        v.push(RegisterWrite { reg: Register::GmSubTableGainWrite, value: gain[k] });
        v.push(RegisterWrite { reg: Register::GmSubTableCtrlWrite, value: ctrl[k] });
        v.push(RegisterWrite { reg: Register::GmSubTableConfig, value: 0x06 });
        v.push(RegisterWrite { reg: Register::GmSubTableGainRead, value: 0 });
        v.push(RegisterWrite { reg: Register::GmSubTableGainRead, value: 0 });
        proof {
            assert(v@ =~= before + mixer_row_writes(ctrl@.len() - 1 - k, ctrl@[k as int], gain@[k as int]));
            assert(v@ =~= head + mixer_rows_writes(ctrl@, gain@, k as int + 1));
        }
        k = k + 1;
    }
    v.push(RegisterWrite { reg: Register::GmSubTableConfig, value: 0x02 });
    v.push(RegisterWrite { reg: Register::GmSubTableGainRead, value: 0 });
    v.push(RegisterWrite { reg: Register::GmSubTableGainRead, value: 0 });
    v.push(RegisterWrite { reg: Register::GmSubTableConfig, value: 0x00 });
    assert(v@ =~= mixer_subtable_writes(ctrl@, gain@));
    v
}


// ---------------------------------------------------------------------------------------------
// TX quadrature calibration setup.
// ---------------------------------------------------------------------------------------------
/// The writes that set up the TX quadrature calibration after its NCO setup: the TX NCO word
/// into bits 6 and 7 of `Kexp2` (the other bits keep their value), the calibration count 0xFF,
/// the exponents 0x7F, both magnitude thresholds 3, the gain table row for the calibration when
/// there is one, the settle count 0xF0 and a zero LPF gain.
pub open spec fn tx_quad_setup_writes(tx_nco_word: u8, kexp_2: u8, gain_index: Option<u8>) -> Seq<
    RegisterWrite,
> {
    seq![
        RegisterWrite { reg: Register::Kexp2, value: with_field8(kexp_2, 6, 2, tx_nco_word) },
        RegisterWrite { reg: Register::QuadCalCount, value: 0xFF },
        RegisterWrite { reg: Register::Kexp1, value: 0x7F },
        RegisterWrite { reg: Register::MagFtestThresh, value: 0x03 },
        RegisterWrite { reg: Register::MagFtestThresh2, value: 0x03 },
    ] + match gain_index {
        Some(i) => seq![RegisterWrite { reg: Register::TxQuadFullLmtGain, value: i }],
        None => seq![],
    } + seq![
        RegisterWrite { reg: Register::QuadSettleCount, value: 0xF0 },
        RegisterWrite { reg: Register::TxQuadLpfGain, value: 0x00 },
    ]
}

/// Computes the writes of [`tx_quad_setup_writes`] for a 2 bit TX NCO word.
pub fn tx_quad_setup_register_writes(tx_nco_word: u8, kexp_2: u8, gain_index: Option<u8>) -> (r:
    Vec<RegisterWrite>)
    requires
        tx_nco_word < 4,
    ensures
        r@ == tx_quad_setup_writes(tx_nco_word, kexp_2, gain_index),
{
    proof {
        lemma_field_bounds();
    }
    let mut v: Vec<RegisterWrite> = Vec::new();
    v.push(RegisterWrite { reg: Register::Kexp2, value: set_field(kexp_2, 6, 2, tx_nco_word) });
    v.push(RegisterWrite { reg: Register::QuadCalCount, value: 0xFF });
    v.push(RegisterWrite { reg: Register::Kexp1, value: 0x7F });
    v.push(RegisterWrite { reg: Register::MagFtestThresh, value: 0x03 });
    v.push(RegisterWrite { reg: Register::MagFtestThresh2, value: 0x03 });
    if let Some(i) = gain_index {
        v.push(RegisterWrite { reg: Register::TxQuadFullLmtGain, value: i });
    }
    v.push(RegisterWrite { reg: Register::QuadSettleCount, value: 0xF0 });
    v.push(RegisterWrite { reg: Register::TxQuadLpfGain, value: 0x00 });
    assert(v@ =~= tx_quad_setup_writes(tx_nco_word, kexp_2, gain_index));
    v
}

/// `InvertBits` while the TX quadrature calibration runs with RX2 phase inversion: the RF DC
/// correction words of both receivers inverted (bits 4 and 5).
pub const TX_QUAD_INVERT_BITS: u8 = 0x30;

/// The TX quadrature calibration leaves `ParallelPortConf2` as it found it when the parallel
/// port inverts RX2: clearing the RX2 inversion for the calibration and setting it again
/// afterwards gives back the value before.
pub proof fn lemma_rx2_inversion_restore(parallel_port_conf_2: u8)
    requires
        field8(parallel_port_conf_2, 5, 1) == 1,
    ensures
        with_field8(with_field8(parallel_port_conf_2, 5, 1, b8(false)), 5, 1, b8(true))
            == parallel_port_conf_2,
{
    let x = parallel_port_conf_2;
    assert(with_field8(with_field8(x, 5, 1, 0), 5, 1, 1) == x) by (bit_vector)
        requires
            field8(x, 5, 1) == 1,
    ;
}

/// `ParallelPortConf2` with the RX2 inversion (bit 5) set to `invert`; the other bits keep their
/// value. The TX quadrature calibration clears it while it runs with phase inversion and sets it
/// again afterwards.
pub fn rx2_inversion_register(parallel_port_conf_2: u8, invert: bool) -> (r: u8)
    ensures
        r == with_field8(parallel_port_conf_2, 5, 1, b8(invert)),
{
    set_flag(parallel_port_conf_2, 5, invert)
}


/// The writes of one TX quadrature calibration run at RX phase `rx_phase`: the RX NCO word (bits
/// 5 and 6) with the phase (bits 0 to 4); the calibration control with main settling, DC offset,
/// gain and phase enabled and the decimation in bits 0 and 1, first with the soft reset (bit 2),
/// then without; and the start of the calibration ([`CAL_TX_QUAD`]).
pub fn tx_quad_run_register_writes(rx_phase: u8, rx_nco_word: u8, decimation: u8) -> (r: Vec<
    RegisterWrite,
>)
    requires
        rx_phase < 32,
        rx_nco_word < 4,
        decimation < 4,
    ensures
        r@ == seq![
            RegisterWrite {
                reg: Register::QuadCalNcoFreqPhaseOffset,
                value: (rx_nco_word * 32 + rx_phase) as u8,
            },
            RegisterWrite { reg: Register::QuadCalCtrl, value: (0x7C + decimation) as u8 },
            RegisterWrite { reg: Register::QuadCalCtrl, value: (0x78 + decimation) as u8 },
            RegisterWrite { reg: Register::CalibrationCtrl, value: CAL_TX_QUAD },
        ],
{
    let mut v: Vec<RegisterWrite> = Vec::new();
    v.push(
        RegisterWrite { reg: Register::QuadCalNcoFreqPhaseOffset, value: rx_nco_word * 32 + rx_phase },
    );
    v.push(RegisterWrite { reg: Register::QuadCalCtrl, value: 0x7C + decimation });
    v.push(RegisterWrite { reg: Register::QuadCalCtrl, value: 0x78 + decimation });
    v.push(RegisterWrite { reg: Register::CalibrationCtrl, value: CAL_TX_QUAD });
    v
}

} // verus!
