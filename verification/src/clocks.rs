//! Clock tree calculation and configuration.
use vstd::prelude::*;

use crate::limits;
use crate::regs;

pub use crate::regs::clk_bb_pll::AdcDivisor;
pub use crate::regs::rx_enable_filter_ctrl::{Rhb3Decimation, RxFirDecimation};
pub use crate::regs::tx_enable_filter_ctrl::{Thb3Interpolation, TxFirInterpolation};

verus! {

/// Modulus of the fractional BB PLL divider.
pub const BB_PLL_MODULUS: u32 = 2_088_960;

/// Modulus of the fractional RF PLL divider.
pub const RFPLL_MODULUS: u32 = 8_388_593;

/// Clocks of the AD9361 clock tree.
#[derive(Debug, Clone, Copy, PartialEq, Eq, Structural, Hash)]
pub enum ClockId {
    /// External reference clock which is fed into the the RX, TX and BB PLLs.
    ///
    /// This has to be provided by an external clock with a range of 5 MHz to 320 MHz.
    /// 19 to 80 MHz are recommended.
    ExtRefClk,
    /// Base-band reference clock which is fed into the BB PLLs. This is derived from the external
    /// reference clock. For the best performance, this should have a value from 35 to 70 MHz.
    BbRef,
    /// This clock is fed into the RX PLL. Also called RX SYNTH in the datasheet.
    /// This is the reference clock for the RX LO (local oscillator) clock.
    ///
    /// For best performance, this should have a value of 35 to 80 MHz.
    RxRef,
    /// PLL frequency, ranging from 6 to 12 GHz. Derived from the RX reference clock.
    RxPll,
    /// The RX local oscillator frequency. This is the frequency the RX mixer
    /// uses to downconvert the incoming RF signal to baseband.
    RxLo,
    /// RX LO, but supplied externally.
    RxLoExternal,
    /// This clock is fed into the TX PLL. Also called TX SYNTH in the datasheet.
    /// This is the reference clock for the TX LO (local oscillator) clock.
    ///
    /// For best performance, this should have a value of 35 to 80 MHz.
    TxRef,
    /// PLL frequency, ranging from 6 to 12 GHz. Derived from the TX reference clock.
    TxPll,
    /// The TX local oscillator frequency. This is the frequency the TX mixer
    /// uses to upconvert the baseband signal to RF.
    TxLo,
    /// TX LO, but supplied externally.
    TxLoExternal,
    /// BB PLL output clock. This is an integer multiple of the RX ADC clock, the TX ADC clock,
    /// all analog calibration clocks as well as the clocks used in the digital section.
    BbPll,
    /// ADC master clock. All the other clocks which are part of the RX signal path are derived
    /// from this clock.
    Adc,
    /// Clock signal after decimation by RX HB3.
    Hb3,
    /// Clock signal after decimation by RX HB2.
    Hb2,
    /// Clock signal after decimation by RX HB1, input to the RX FIR.
    Hb1,
    /// Clock signal after decimation by the RX FIR, relevant clock for reading IQ data
    /// with a processor/FPGA.
    RxSample,
    /// DAC clock, derived from the ADC clock.
    Dac,
    /// Input clock of the TX HB3 stage.
    T2,
    /// Input clock of the TX HB2 stage.
    T1,
    /// Input clock of the TX HB1 stage, which is the output clock of the TX FIR.
    ClkTf,
    /// Sample clock before the TX FIR, relevant clock for writing IQ data with a processor/FPGA.
    TxSample,
}

/// The clock each clock is derived from; the external reference clock and the external LO
/// clocks have none.
pub open spec fn clock_parent(c: ClockId) -> Option<ClockId> {
    match c {
        ClockId::ExtRefClk => None,
        ClockId::BbRef => Some(ClockId::ExtRefClk),
        ClockId::RxRef => Some(ClockId::ExtRefClk),
        ClockId::RxPll => Some(ClockId::RxRef),
        ClockId::RxLo => Some(ClockId::RxPll),
        ClockId::RxLoExternal => None,
        ClockId::TxRef => Some(ClockId::ExtRefClk),
        ClockId::TxPll => Some(ClockId::TxRef),
        ClockId::TxLo => Some(ClockId::TxPll),
        ClockId::TxLoExternal => None,
        ClockId::BbPll => Some(ClockId::BbRef),
        ClockId::Adc => Some(ClockId::BbPll),
        ClockId::Hb3 => Some(ClockId::Adc),
        ClockId::Hb2 => Some(ClockId::Hb3),
        ClockId::Hb1 => Some(ClockId::Hb2),
        ClockId::RxSample => Some(ClockId::Hb1),
        ClockId::Dac => Some(ClockId::Adc),
        ClockId::T2 => Some(ClockId::Dac),
        ClockId::T1 => Some(ClockId::T2),
        ClockId::ClkTf => Some(ClockId::T1),
        ClockId::TxSample => Some(ClockId::ClkTf),
    }
}

/// Number of derivation steps between a clock and the root of its tree.
pub open spec fn clock_depth(c: ClockId) -> nat {
    match c {
        ClockId::ExtRefClk => 0,
        ClockId::RxLoExternal => 0,
        ClockId::TxLoExternal => 0,
        ClockId::BbRef => 1,
        ClockId::RxRef => 1,
        ClockId::TxRef => 1,
        ClockId::RxPll => 2,
        ClockId::TxPll => 2,
        ClockId::BbPll => 2,
        ClockId::RxLo => 3,
        ClockId::TxLo => 3,
        ClockId::Adc => 3,
        ClockId::Hb3 => 4,
        ClockId::Dac => 4,
        ClockId::Hb2 => 5,
        ClockId::T2 => 5,
        ClockId::Hb1 => 6,
        ClockId::T1 => 6,
        ClockId::RxSample => 7,
        ClockId::ClkTf => 7,
        ClockId::TxSample => 8,
    }
}

/// The `n`-th ancestor of a clock, [`None`] once the walk has passed the root.
pub open spec fn clock_ancestor(c: ClockId, n: nat) -> Option<ClockId>
    decreases n,
{
    if n == 0 {
        Some(c)
    } else {
        match clock_parent(c) {
            Some(p) => clock_ancestor(p, (n - 1) as nat),
            None => None,
        }
    }
}

/// The clock tree has no cycle: every parent is one step closer to a root, every clock reaches
/// a root (a clock without a parent) after `clock_depth` steps, and every root is the external
/// reference clock or an external LO.
pub proof fn lemma_clock_tree_is_acyclic(c: ClockId)
    ensures
        clock_parent(c) matches Some(p) ==> clock_depth(p) + 1 == clock_depth(c),
        clock_ancestor(c, clock_depth(c)) matches Some(root) && clock_parent(root) is None,
        clock_ancestor(c, clock_depth(c) + 1) is None,
        clock_parent(c) is None <==> (c == ClockId::ExtRefClk || c == ClockId::RxLoExternal || c
            == ClockId::TxLoExternal),
{
    reveal_with_fuel(clock_ancestor, 10);
}

impl ClockId {
    /// Returns the clock this clock is derived from, or [`None`] for the external reference clock
    /// and the external LO clocks.
    pub fn parent(&self) -> (r: Option<Self>)
        ensures
            r == clock_parent(*self),
    {
        match self {
            ClockId::ExtRefClk => None,
            ClockId::BbRef => Some(ClockId::ExtRefClk),
            ClockId::RxRef => Some(ClockId::ExtRefClk),
            ClockId::RxPll => Some(ClockId::RxRef),
            ClockId::RxLo => Some(ClockId::RxPll),
            ClockId::RxLoExternal => None,
            ClockId::TxRef => Some(ClockId::ExtRefClk),
            ClockId::TxPll => Some(ClockId::TxRef),
            ClockId::TxLo => Some(ClockId::TxPll),
            ClockId::TxLoExternal => None,
            ClockId::BbPll => Some(ClockId::BbRef),
            ClockId::Adc => Some(ClockId::BbPll),
            ClockId::Hb3 => Some(ClockId::Adc),
            ClockId::Hb2 => Some(ClockId::Hb3),
            ClockId::Hb1 => Some(ClockId::Hb2),
            ClockId::RxSample => Some(ClockId::Hb1),
            ClockId::Dac => Some(ClockId::Adc),
            ClockId::T2 => Some(ClockId::Dac),
            ClockId::T1 => Some(ClockId::T2),
            ClockId::ClkTf => Some(ClockId::T1),
            ClockId::TxSample => Some(ClockId::ClkTf),
        }
    }
}

/// Clock in Hz after scaling `clock_hz` with `scaler`.
pub open spec fn scaled_clock(clock_hz: int, scaler: regs::ClockScaler) -> int {
    clock_hz * scaler.mult_spec() / scaler.div_spec() as int
}

/// What each scaler does to a clock.
pub proof fn lemma_scaled_clock(clock_hz: int, scaler: regs::ClockScaler)
    ensures
        scaled_clock(clock_hz, scaler) == match scaler {
            regs::ClockScaler::Div1 => clock_hz,
            regs::ClockScaler::Div2 => clock_hz / 2,
            regs::ClockScaler::Div4 => clock_hz / 4,
            regs::ClockScaler::Mul2 => clock_hz * 2,
        },
{
    assert(clock_hz * 2 / 1 == clock_hz * 2) by (nonlinear_arith);
    assert(clock_hz * 1 / 1 == clock_hz) by (nonlinear_arith);
    assert(clock_hz * 1 / 2 == clock_hz / 2) by (nonlinear_arith);
    assert(clock_hz * 1 / 4 == clock_hz / 4) by (nonlinear_arith);
}

/// The scaler for a reference clock: doubling if the doubled clock stays at or below `max`,
/// else no scaling if the clock is at or below `max`, else the smallest divider that brings the
/// clock to `max` or below, and at most a division by 4.
pub open spec fn best_clock_scaler(refin_hz: int, max: int) -> regs::ClockScaler {
    if refin_hz <= max / 2 {
        regs::ClockScaler::Mul2
    } else if refin_hz <= max {
        regs::ClockScaler::Div1
    } else if refin_hz <= max * 2 {
        regs::ClockScaler::Div2
    } else {
        regs::ClockScaler::Div4
    }
}

/// `max * 2` is only computed for a clock above `max`, and then has to fit in a `u32`.
pub open spec fn best_divisor_fits(refin_hz: u32, max: u32) -> bool {
    refin_hz <= max || max * 2 <= u32::MAX
}

/// Returns the scaler which keeps `refin_hz` at or below `max` after scaling, with the largest
/// possible multiplier or the smallest possible divisor.
pub fn calculate_best_clock_divisor_for_max_value(refin_hz: u32, max: u32) -> (r:
    regs::ClockScaler)
    requires
        best_divisor_fits(refin_hz, max),
    ensures
        r == best_clock_scaler(refin_hz as int, max as int),
        refin_hz <= 4 * max ==> scaled_clock(refin_hz as int, r) <= max,
        r != regs::ClockScaler::Mul2 ==> refin_hz * 2 > max,
        r == regs::ClockScaler::Div2 ==> refin_hz > max,
        r == regs::ClockScaler::Div4 ==> refin_hz > 2 * max,
{
    if refin_hz <= max / 2 {
        proof { lemma_scaled_clock(refin_hz as int, regs::ClockScaler::Mul2); }
        regs::ClockScaler::Mul2
    } else if refin_hz <= max {
        proof { lemma_scaled_clock(refin_hz as int, regs::ClockScaler::Div1); }
        regs::ClockScaler::Div1
    } else if refin_hz <= max * 2 {
        proof { lemma_scaled_clock(refin_hz as int, regs::ClockScaler::Div2); }
        regs::ClockScaler::Div2
    } else {
        proof { lemma_scaled_clock(refin_hz as int, regs::ClockScaler::Div4); }
        regs::ClockScaler::Div4
    }
}

/// The charge pump register value is 0.
#[derive(Debug, Clone, Copy, PartialEq, Eq, Structural)]
pub struct InvalidChargePumpError;

/// Charge pump setting of the BB PLL, a register value from 1 to 63.
#[derive(Debug, PartialEq, Eq, Structural, Copy, Clone)]
pub struct ChargePumpConfig(u8);

/// Charge pump value for a BB PLL rate and reference clock: 150 uA at 1280 MHz BB PLL and
/// 40 MHz reference clock, 25 uA per LSB with a 25 uA offset, clamped to 1..=63. Both clocks
/// are taken in units of 128 Hz, rounded down.
pub open spec fn charge_pump_value(bbpll_rate_hz: u32, ref_clk_rate_hz: u32) -> int {
    let tmp = (bbpll_rate_hz as int / 128) * 150 / ((ref_clk_rate_hz as int / 128) * 32);
    let icp = (tmp + 12) / 25 - 1;
    if icp < 1 {
        1
    } else if icp > 63 {
        63
    } else {
        icp
    }
}

/// The charge pump value scales with the ratio of the BB PLL clock to the reference clock, both
/// in units of 128 Hz: 150 uA per 32, at 25 uA per step with a 25 uA offset, rounded to the
/// nearest step and clamped to 1..=63.
pub proof fn lemma_charge_pump_value_formula(bbpll_rate_hz: u32, ref_clk_rate_hz: u32)
    requires
        ref_clk_rate_hz >= 128,
    ensures
        ({
            let icp = ((bbpll_rate_hz / 128) * 150 / ((ref_clk_rate_hz / 128) * 32) + 12) / 25 - 1;
            charge_pump_value(bbpll_rate_hz, ref_clk_rate_hz) == if icp < 1 {
                1
            } else if icp > 63 {
                63
            } else {
                icp
            }
        }),
        1 <= charge_pump_value(bbpll_rate_hz, ref_clk_rate_hz) <= 63,
{
}

/// A faster BB PLL clock never gets a smaller charge pump value, and a faster reference clock
/// never gets a larger one.
pub proof fn lemma_charge_pump_value_monotone(bb_lo: u32, bb_hi: u32, ref_lo: u32, ref_hi: u32)
    requires
        bb_lo <= bb_hi,
        128 <= ref_lo <= ref_hi,
    ensures
        charge_pump_value(bb_lo, ref_hi) <= charge_pump_value(bb_hi, ref_hi),
        charge_pump_value(bb_lo, ref_hi) <= charge_pump_value(bb_lo, ref_lo),
{
    let b1 = bb_lo as int / 128;
    let b2 = bb_hi as int / 128;
    let r1 = (ref_lo as int / 128) * 32;
    let r2 = (ref_hi as int / 128) * 32;
    vstd::arithmetic::div_mod::lemma_div_is_ordered(bb_lo as int, bb_hi as int, 128);
    vstd::arithmetic::div_mod::lemma_div_is_ordered(ref_lo as int, ref_hi as int, 128);
    assert(b1 * 150 <= b2 * 150);
    assert(32 <= r1 <= r2);
    vstd::arithmetic::div_mod::lemma_div_is_ordered(b1 * 150, b2 * 150, r2);
    vstd::arithmetic::div_mod::lemma_div_is_ordered_by_denominator(b1 * 150, r1, r2);
    let t1 = b1 * 150 / r2;
    let t2 = b2 * 150 / r2;
    let t3 = b1 * 150 / r1;
    vstd::arithmetic::div_mod::lemma_div_is_ordered(t1 + 12, t2 + 12, 25);
    vstd::arithmetic::div_mod::lemma_div_is_ordered(t1 + 12, t3 + 12, 25);
}

impl ChargePumpConfig {
    #[verifier::type_invariant]
    spec fn in_range(self) -> bool {
        1 <= self.0 <= 63
    }

    /// Register value of the charge pump setting.
    pub closed spec fn value(self) -> u8 {
        self.0
    }

    /// Creates a new charge pump setting from a 6 bit register value, which must not be 0.
    pub fn new(charge_pump: u8) -> (r: Result<Self, InvalidChargePumpError>)
        requires
            charge_pump < 64,
        ensures
            charge_pump == 0 <==> r is Err,
            r matches Ok(c) ==> c.value() == charge_pump,
    {
        if charge_pump == 0 {
            return Err(InvalidChargePumpError {  });
        }
        Ok(Self(charge_pump))
    }

    /// Calculates the charge pump current for a target BB PLL frequency and reference clock.
    ///
    /// The scale is 150uA @
    /// (1280 MHz BBPLL, 40 MHz REFCLK), 25uA/LSB with a 25uA offset, clamped to a valid
    /// register value of 1 to 63.
    pub fn calculate(bbpll_rate_hz: u32, ref_clk_rate_hz: u32) -> (r: Self)
        requires
            ref_clk_rate_hz >= 128,
        ensures
            r.value() == charge_pump_value(bbpll_rate_hz, ref_clk_rate_hz),
            ({
                let icp = ((bbpll_rate_hz / 128) * 150 / ((ref_clk_rate_hz / 128) * 32) + 12) / 25
                    - 1;
                r.value() == if icp < 1 {
                    1
                } else if icp > 63 {
                    63
                } else {
                    icp
                }
            }),
    {
        let tmp = (bbpll_rate_hz as u64 / 128) * 150;
        let tmp = tmp / ((ref_clk_rate_hz as u64 / 128) * 32);
        let icp_val = ((tmp + 12) / 25) as i64 - 1;
        let icp_val = if icp_val < 1 {
            1
        } else if icp_val > 63 {
            63
        } else {
            icp_val
        };
        Self(icp_val as u8)
    }

    /// Register value of the charge pump setting.
    pub fn reg_value(&self) -> (r: u8)
        ensures
            r == self.value(),
            1 <= r <= 63,
    {
        proof {
            use_type_invariant(self);
        }
        self.0
    }

    /// Charge pump current in uA: 25 uA per LSB with a 25 uA offset.
    pub fn current(&self) -> (r: u32)
        ensures
            r == (self.value() + 1) * 25,
    {
        proof {
            use_type_invariant(self);
        }
        (self.0 as u32 + 1) * 25
    }
}

/// BB PLL configuration.
#[derive(Debug, PartialEq, Eq, Structural, Copy, Clone)]
pub struct BbPllConfig {
    /// Integer part of the PLL divider.
    pub integer_freq_word: u8,
    /// Fractional part of the PLL divider in units of `1 / BBPLL_MODULUS`, a 21 bit value.
    pub fractional_freq_word: u32,
    /// Charge pump setting.
    pub charge_pump: ChargePumpConfig,
}

/// Integer part of the BB PLL divider for `target_clock`: the quotient, at most 255.
pub open spec fn bb_pll_integer_word(bb_ref_clk_hz: int, target_clock: int) -> int {
    let q = target_clock / bb_ref_clk_hz;
    if q < 255 {
        q
    } else {
        255
    }
}

/// Fractional part of the BB PLL divider for `target_clock`, in units of `1 / BBPLL_MODULUS`,
/// at most the largest 21 bit value.
pub open spec fn bb_pll_fractional_word(bb_ref_clk_hz: int, target_clock: int) -> int {
    let n_int = bb_pll_integer_word(bb_ref_clk_hz, target_clock);
    let f = limits::BBPLL_MODULUS as int * (target_clock - n_int * bb_ref_clk_hz) / bb_ref_clk_hz;
    if f < 0x1F_FFFF {
        f
    } else {
        0x1F_FFFF
    }
}

impl BbPllConfig {
    /// The fractional word fits in its 21 bit register field.
    pub open spec fn wf(self) -> bool {
        self.fractional_freq_word < 0x20_0000
    }

    /// Calculates the configuration which generates `target_clock` from `bb_ref_clk_hz`.
    pub fn calculate(bb_ref_clk_hz: u32, target_clock: u32) -> (r: Self)
        requires
            bb_ref_clk_hz >= 128,
        ensures
            r.wf(),
            r.integer_freq_word == bb_pll_integer_word(bb_ref_clk_hz as int, target_clock as int),
            r.fractional_freq_word == bb_pll_fractional_word(
                bb_ref_clk_hz as int,
                target_clock as int,
            ),
            r.charge_pump.value() == charge_pump_value(target_clock, bb_ref_clk_hz),
    {
        let q = target_clock / bb_ref_clk_hz;
        let n_int: u8 = if q < 255 {
            q as u8
        } else {
            255
        };
        proof {
            assert(n_int as int * bb_ref_clk_hz <= target_clock) by (nonlinear_arith)
                requires
                    n_int <= q,
                    q == target_clock / bb_ref_clk_hz,
                    bb_ref_clk_hz > 0,
            ;
        }
        let rest = target_clock as u64 - n_int as u64 * bb_ref_clk_hz as u64;
        proof {
            assert(limits::BBPLL_MODULUS as u64 * rest <= 2_088_960 * 0xFFFF_FFFFu64) by (
            nonlinear_arith)
                requires
                    rest <= 0xFFFF_FFFFu64,
            ;
        }
        let f = limits::BBPLL_MODULUS as u64 * rest / bb_ref_clk_hz as u64;
        let n_fract: u32 = if f < 0x1F_FFFF {
            f as u32
        } else {
            0x1F_FFFF
        };
        Self {
            integer_freq_word: n_int,
            fractional_freq_word: n_fract,
            charge_pump: ChargePumpConfig::calculate(target_clock, bb_ref_clk_hz),
        }
    }
}

/// Divider between the RF PLL VCO and the LO clock.
#[derive(Debug, Copy, Clone, PartialEq, Eq, Structural)]
pub enum PllVcoDivider {
    /// Divide by 2.
    Div2,
    /// Divide by 4.
    Div4,
    /// Divide by 8.
    Div8,
    /// Divide by 16.
    Div16,
    /// Divide by 32.
    Div32,
    /// Divide by 64.
    Div64,
    /// Divide by 128.
    Div128,
}

impl PllVcoDivider {
    /// Value of the divider.
    pub open spec fn divider_spec(self) -> u32 {
        match self {
            PllVcoDivider::Div2 => 2,
            PllVcoDivider::Div4 => 4,
            PllVcoDivider::Div8 => 8,
            PllVcoDivider::Div16 => 16,
            PllVcoDivider::Div32 => 32,
            PllVcoDivider::Div64 => 64,
            PllVcoDivider::Div128 => 128,
        }
    }

    /// Register bits of the divider.
    pub open spec fn reg_bits_spec(self) -> regs::PllVcoDividerBits {
        match self {
            PllVcoDivider::Div2 => regs::PllVcoDividerBits::Div2,
            PllVcoDivider::Div4 => regs::PllVcoDividerBits::Div4,
            PllVcoDivider::Div8 => regs::PllVcoDividerBits::Div8,
            PllVcoDivider::Div16 => regs::PllVcoDividerBits::Div16,
            PllVcoDivider::Div32 => regs::PllVcoDividerBits::Div32,
            PllVcoDivider::Div64 => regs::PllVcoDividerBits::Div64,
            PllVcoDivider::Div128 => regs::PllVcoDividerBits::Div128,
        }
    }

    /// Value of the divider.
    pub fn divider(&self) -> (r: u32)
        ensures
            r == self.divider_spec(),
            r == vstd::arithmetic::power2::pow2(self.reg_bits_spec().raw() as nat + 1),
    {
        proof {
            vstd::arithmetic::power2::lemma2_to64();
        }
        match self {
            PllVcoDivider::Div2 => 2,
            PllVcoDivider::Div4 => 4,
            PllVcoDivider::Div8 => 8,
            PllVcoDivider::Div16 => 16,
            PllVcoDivider::Div32 => 32,
            PllVcoDivider::Div64 => 64,
            PllVcoDivider::Div128 => 128,
        }
    }

    /// Register bits of the divider.
    pub fn as_reg_bits(&self) -> (r: regs::PllVcoDividerBits)
        ensures
            r == self.reg_bits_spec(),
            r != regs::PllVcoDividerBits::External,
    {
        match self {
            PllVcoDivider::Div2 => regs::PllVcoDividerBits::Div2,
            PllVcoDivider::Div4 => regs::PllVcoDividerBits::Div4,
            PllVcoDivider::Div8 => regs::PllVcoDividerBits::Div8,
            PllVcoDivider::Div16 => regs::PllVcoDividerBits::Div16,
            PllVcoDivider::Div32 => regs::PllVcoDividerBits::Div32,
            PllVcoDivider::Div64 => regs::PllVcoDividerBits::Div64,
            PllVcoDivider::Div128 => regs::PllVcoDividerBits::Div128,
        }
    }
}

/// RF PLL configuration.
#[derive(Debug, PartialEq, Eq, Structural, Copy, Clone)]
pub struct RfPllConfig {
    /// Divider between the VCO and the LO clock.
    pub vco_div: PllVcoDivider,
    /// Integer part of the PLL divider, an 11 bit value.
    pub pll_int: u16,
    /// Fractional part of the PLL divider in units of `1 / RFPLL_MODULUS`, a 23 bit value.
    pub pll_frac: u32,
}

impl RfPllConfig {
    /// Both divider words fit in their register fields.
    pub open spec fn wf(self) -> bool {
        self.pll_int < 0x800 && self.pll_frac < 0x80_0000
    }
}

/// Configuration of an LO clock, which is either generated internally or supplied externally.
#[derive(Debug, PartialEq, Eq, Structural, Copy, Clone)]
pub enum LocalOscClockConfig {
    /// External VCO.
    External {
        /// LO frequency will be half of this value.
        external_vco_freq: u64,
    },
    /// VCO divider, which scales the RF PLL clock down to the LO clock.
    Internal(RfPllConfig),
}

impl LocalOscClockConfig {
    /// An internal LO has divider words that fit in their register fields.
    pub open spec fn wf(self) -> bool {
        match self {
            LocalOscClockConfig::External { .. } => true,
            LocalOscClockConfig::Internal(c) => c.wf(),
        }
    }
}

/// Error while calculating an RF PLL configuration.
#[derive(Debug, PartialEq, Eq, Structural, Clone, Copy)]
pub enum RfPllFreqError {
    /// The reference clock is out of range.
    InvalidRefClock,
    /// The VCO clock is out of range.
    InvalidVcoClock,
    /// There is no valid VCO clock for the LO clock.
    InvalidLoClock,
    /// The VCO divider is not valid for an internal LO.
    InvalidPllVcoDivider,
}

/// Whether `synth_clk` is a valid RF PLL reference clock.
pub open spec fn synth_ref_in_range(synth_clk: int) -> bool {
    limits::MIN_SYNTH_FREF <= synth_clk <= limits::MAX_SYNTH_FREF
}

/// Integer part of the RF PLL divider for a VCO clock: the quotient, at most 2047.
pub open spec fn rf_pll_integer_word(synth_clk: int, target_vco_clk: int) -> int {
    let q = target_vco_clk / synth_clk;
    if q < 0x7FF {
        q
    } else {
        0x7FF
    }
}

/// Fractional part of the RF PLL divider for a VCO clock in units of `1 / RFPLL_MODULUS`, at
/// most the largest 23 bit value.
pub open spec fn rf_pll_fractional_word(synth_clk: int, target_vco_clk: int) -> int {
    let f = RFPLL_MODULUS as int * (target_vco_clk - rf_pll_integer_word(synth_clk, target_vco_clk)
        * synth_clk) / synth_clk;
    if f < 0x7F_FFFF {
        f
    } else {
        0x7F_FFFF
    }
}

/// RF PLL configuration which generates `target_vco_clk` from `synth_clk`.
pub open spec fn rf_pll_config_for(synth_clk: int, target_vco_clk: int, div: PllVcoDivider) -> RfPllConfig {
    RfPllConfig {
        vco_div: div,
        pll_int: rf_pll_integer_word(synth_clk, target_vco_clk) as u16,
        pll_frac: rf_pll_fractional_word(synth_clk, target_vco_clk) as u32,
    }
}

/// Result of the internal LO calculation for a given VCO clock and VCO divider.
pub open spec fn internal_lo_for_vco(synth_clk: int, target_vco_clk: int, div: PllVcoDivider) -> Result<
    LocalOscClockConfig,
    RfPllFreqError,
> {
    if !synth_ref_in_range(synth_clk) {
        Err(RfPllFreqError::InvalidRefClock)
    } else {
        Ok(LocalOscClockConfig::Internal(rf_pll_config_for(synth_clk, target_vco_clk, div)))
    }
}

/// The fractional word is computed in a `u64`, which the product with the modulus must fit.
pub open spec fn rf_pll_fits(synth_clk: int, target_vco_clk: int) -> bool {
    !synth_ref_in_range(synth_clk) || RFPLL_MODULUS as int * (target_vco_clk
        - rf_pll_integer_word(synth_clk, target_vco_clk) * synth_clk) <= u64::MAX
}

/// Smallest VCO divider which brings the VCO clock for `lo` up to the minimum VCO clock, if
/// there is one.
pub open spec fn lo_vco_divider(lo: int) -> Option<PllVcoDivider> {
    if lo * 2 >= limits::MIN_VCO_FREQ_HZ {
        Some(PllVcoDivider::Div2)
    } else if lo * 4 >= limits::MIN_VCO_FREQ_HZ {
        Some(PllVcoDivider::Div4)
    } else if lo * 8 >= limits::MIN_VCO_FREQ_HZ {
        Some(PllVcoDivider::Div8)
    } else if lo * 16 >= limits::MIN_VCO_FREQ_HZ {
        Some(PllVcoDivider::Div16)
    } else if lo * 32 >= limits::MIN_VCO_FREQ_HZ {
        Some(PllVcoDivider::Div32)
    } else if lo * 64 >= limits::MIN_VCO_FREQ_HZ {
        Some(PllVcoDivider::Div64)
    } else if lo * 128 >= limits::MIN_VCO_FREQ_HZ {
        Some(PllVcoDivider::Div128)
    } else {
        None
    }
}

/// Result of the internal LO calculation for an LO clock.
pub open spec fn internal_lo_for(synth_clk: int, target_lo_clock: int) -> Result<
    LocalOscClockConfig,
    RfPllFreqError,
> {
    if target_lo_clock * 2 > limits::MAX_VCO_FREQ_HZ {
        Err(RfPllFreqError::InvalidVcoClock)
    } else {
        match lo_vco_divider(target_lo_clock) {
            None => Err(RfPllFreqError::InvalidLoClock),
            Some(d) => internal_lo_for_vco(synth_clk, target_lo_clock * d.divider_spec(), d),
        }
    }
}

impl LocalOscClockConfig {
    /// Creates the configuration for an externally supplied VCO clock.
    pub fn new_for_external_lo(external_vco_freq: u64) -> (r: Self)
        ensures
            r == (LocalOscClockConfig::External { external_vco_freq }),
    {
        Self::External { external_vco_freq }
    }

    /// Calculate the local oscillator configuration when generating the LO with
    /// the internal RX or TX PLLs.
    ///
    /// ## Arguments
    ///
    /// * `synth_clk` - Reference clock for the PLL also called F_REF.
    /// * `target_vco_clk` - Target VCO clock frequency, which ranges from 6 GHz to 12 GHz
    /// * `pll_vco_div` - PLL VCO divider, which scales the RF PLL clock down to the LO clock.
    pub fn calculate_for_internal_lo_with_target_vco_clock(
        synth_clk: u32,
        target_vco_clk: u64,
        pll_vco_div: PllVcoDivider,
    ) -> (r: Result<Self, RfPllFreqError>)
        requires
            rf_pll_fits(synth_clk as int, target_vco_clk as int),
        ensures
            r == internal_lo_for_vco(synth_clk as int, target_vco_clk as int, pll_vco_div),
            r matches Ok(c) ==> c.wf(),
    {
        if !(limits::MIN_SYNTH_FREF <= synth_clk && synth_clk <= limits::MAX_SYNTH_FREF) {
            return Err(RfPllFreqError::InvalidRefClock);
        }
        let q = target_vco_clk / synth_clk as u64;
        let n_int: u16 = if q < 0x7FF {
            q as u16
        } else {
            0x7FF
        };
        proof {
            assert(n_int as int * synth_clk <= target_vco_clk) by (nonlinear_arith)
                requires
                    n_int <= q,
                    q == (target_vco_clk as int) / (synth_clk as int),
                    synth_clk > 0,
            ;
            assert(n_int as int * synth_clk <= 0x7FF * 0xFFFF_FFFF) by (nonlinear_arith)
                requires
                    n_int <= 0x7FF,
                    synth_clk <= 0xFFFF_FFFF,
            ;
        }
        // Calculation using integer arithmetic. The formula can be achieved with
        // a slight rearrangement of the formula in the register datasheet.
        let rest = target_vco_clk - n_int as u64 * synth_clk as u64;
        let f = RFPLL_MODULUS as u64 * rest / synth_clk as u64;
        let n_fract: u32 = if f < 0x7F_FFFF {
            f as u32
        } else {
            0x7F_FFFF
        };
        Ok(Self::Internal(RfPllConfig { vco_div: pll_vco_div, pll_int: n_int, pll_frac: n_fract }))
    }

    /// Calculates the LO configuration for a target LO clock. Uses the smallest VCO divider which
    /// brings the VCO clock into its valid range.
    pub fn calculate_for_internal_lo(synth_clk: u32, target_lo_clock: u64) -> (r: Result<
        Self,
        RfPllFreqError,
    >)
        requires
            target_lo_clock * 2 <= u64::MAX,
        ensures
            r == internal_lo_for(synth_clk as int, target_lo_clock as int),
            r matches Ok(c) ==> c.wf(),
            r matches Ok(c) ==> (c matches LocalOscClockConfig::Internal(p) && limits::MIN_VCO_FREQ_HZ
                <= target_lo_clock * p.vco_div.divider_spec() <= limits::MAX_VCO_FREQ_HZ),
    {
        let mut pll_vco_div = PllVcoDivider::Div2;

        let mut target_vco_clk = target_lo_clock * pll_vco_div.divider() as u64;
        if target_vco_clk > limits::MAX_VCO_FREQ_HZ {
            return Err(RfPllFreqError::InvalidVcoClock);
        }
        while target_vco_clk < limits::MIN_VCO_FREQ_HZ
            invariant
                target_lo_clock * 2 <= limits::MAX_VCO_FREQ_HZ,
                target_vco_clk == target_lo_clock * pll_vco_div.divider_spec(),
                forall|d: PllVcoDivider|
                    d.divider_spec() < pll_vco_div.divider_spec() ==> target_lo_clock
                        * d.divider_spec() < limits::MIN_VCO_FREQ_HZ,
                target_vco_clk <= limits::MAX_VCO_FREQ_HZ,
            decreases 128 - pll_vco_div.divider_spec(),
        {
            pll_vco_div = match pll_vco_div {
                PllVcoDivider::Div2 => PllVcoDivider::Div4,
                PllVcoDivider::Div4 => PllVcoDivider::Div8,
                PllVcoDivider::Div8 => PllVcoDivider::Div16,
                PllVcoDivider::Div16 => PllVcoDivider::Div32,
                PllVcoDivider::Div32 => PllVcoDivider::Div64,
                PllVcoDivider::Div64 => PllVcoDivider::Div128,
                PllVcoDivider::Div128 => {
                    return Err(RfPllFreqError::InvalidLoClock);
                },
            };
            target_vco_clk = target_lo_clock * pll_vco_div.divider() as u64;
        }
        proof {
            assert(lo_vco_divider(target_lo_clock as int) == Some(pll_vco_div));
            let n_int = rf_pll_integer_word(synth_clk as int, target_vco_clk as int);
            if synth_ref_in_range(synth_clk as int) {
                assert(n_int * synth_clk <= target_vco_clk) by (nonlinear_arith)
                    requires
                        n_int <= (target_vco_clk as int) / (synth_clk as int),
                        synth_clk > 0,
                        n_int >= 0,
                ;
                assert(0 <= n_int);
            }
        }
        Self::calculate_for_internal_lo_with_target_vco_clock(
            synth_clk,
            target_vco_clk,
            pll_vco_div,
        )
    }

    /// Register bits of the VCO divider. An external LO has its own value.
    pub fn vco_div_reg_value(&self) -> (r: regs::PllVcoDividerBits)
        ensures
            r == match self {
                LocalOscClockConfig::External { .. } => regs::PllVcoDividerBits::External,
                LocalOscClockConfig::Internal(c) => c.vco_div.reg_bits_spec(),
            },
    {
        match self {
            LocalOscClockConfig::External { external_vco_freq: _ } => regs::PllVcoDividerBits::External,
            LocalOscClockConfig::Internal(pll_cfg) => pll_cfg.vco_div.as_reg_bits(),
        }
    }
}

/// Frequencies of the RX clocks in Hz.
pub struct RxClocksView {
    /// Input clock of the RX PLL block.
    pub synth_ref: u32,
    /// Frequency of the RX PLL VCO, [`None`] for an external LO.
    pub pll_vco: Option<u64>,
    /// Frequency of the RX LO.
    pub lo: u64,
    /// Clock after HB3 decimation.
    pub hb3: u32,
    /// Clock after HB2 decimation.
    pub hb2: u32,
    /// Clock after HB1 decimation, the RX FIR input clock.
    pub rx_fir_input: u32,
    /// Sample clock after the RX FIR.
    pub rx_sample: u32,
}

/// Frequencies of the TX clocks in Hz.
pub struct TxClocksView {
    /// Input clock of the TX PLL block.
    pub synth_ref: u32,
    /// Frequency of the TX PLL VCO, [`None`] for an external LO.
    pub pll_vco: Option<u64>,
    /// Frequency of the TX LO.
    pub lo: u64,
    /// Sample clock before the TX FIR.
    pub tx_sample: u32,
    /// Clock after TX FIR interpolation.
    pub tx_fir: u32,
    /// Clock after HB1 interpolation.
    pub hb1: u32,
    /// Clock after HB2 interpolation.
    pub hb2: u32,
    /// DAC clock.
    pub dac_clk: u32,
}

/// Frequencies of all clocks in Hz.
pub struct ClocksView {
    /// External reference clock.
    pub ext_clk: u32,
    /// BB PLL reference clock.
    pub bb_refclk: u32,
    /// BB PLL output clock.
    pub bb_pll: u32,
    /// ADC clock.
    pub adc: u32,
    /// RX clocks.
    pub rx: RxClocksView,
    /// TX clocks.
    pub tx: TxClocksView,
}

/// Frequencies of all clocks in Hz, calculated from a [`ClockConfig`].
#[derive(Debug, PartialEq, Eq, Clone)]
pub struct Clocks {
    ext_clk: u32,
    bb_refclk: u32,
    bb_pll: u32,
    adc: u32,
    rx: RxClocks,
    tx: TxClocks,
}

/// Frequencies of the RX clocks in Hz.
#[derive(Debug, PartialEq, Eq, Clone)]
pub struct RxClocks {
    synth_ref: u32,
    pll_vco: Option<u64>,
    lo: u64,
    hb3: u32,
    hb2: u32,
    rx_fir_input: u32,
    rx_sample: u32,
}

/// Frequencies of the TX clocks in Hz.
#[derive(Debug, PartialEq, Eq, Clone)]
pub struct TxClocks {
    synth_ref: u32,
    pll_vco: Option<u64>,
    lo: u64,
    tx_sample: u32,
    tx_fir: u32,
    hb1: u32,
    hb2: u32,
    dac_clk: u32,
}

impl View for RxClocks {
    type V = RxClocksView;

    closed spec fn view(&self) -> RxClocksView {
        RxClocksView {
            synth_ref: self.synth_ref,
            pll_vco: self.pll_vco,
            lo: self.lo,
            hb3: self.hb3,
            hb2: self.hb2,
            rx_fir_input: self.rx_fir_input,
            rx_sample: self.rx_sample,
        }
    }
}

impl View for TxClocks {
    type V = TxClocksView;

    closed spec fn view(&self) -> TxClocksView {
        TxClocksView {
            synth_ref: self.synth_ref,
            pll_vco: self.pll_vco,
            lo: self.lo,
            tx_sample: self.tx_sample,
            tx_fir: self.tx_fir,
            hb1: self.hb1,
            hb2: self.hb2,
            dac_clk: self.dac_clk,
        }
    }
}

impl View for Clocks {
    type V = ClocksView;

    closed spec fn view(&self) -> ClocksView {
        ClocksView {
            ext_clk: self.ext_clk,
            bb_refclk: self.bb_refclk,
            bb_pll: self.bb_pll,
            adc: self.adc,
            rx: self.rx@,
            tx: self.tx@,
        }
    }
}

impl Clocks {
    /// External reference clock.
    pub fn ext_clk(&self) -> (r: u32)
        ensures
            r == self@.ext_clk,
    {
        self.ext_clk
    }

    /// Base-band PLL reference clock which is fed into the BB PLL.
    pub fn bb_refclk(&self) -> (r: u32)
        ensures
            r == self@.bb_refclk,
    {
        self.bb_refclk
    }

    /// BB PLL output clock. This is an integer multiple of the RX ADC clock, the TX ADC clock,
    /// all analog calibration clocks as well as the clocks used in the digital section.
    pub fn bb_pll(&self) -> (r: u32)
        ensures
            r == self@.bb_pll,
    {
        self.bb_pll
    }

    /// ADC clock, which is also the DAC clock reference.
    pub fn adc(&self) -> (r: u32)
        ensures
            r == self@.adc,
    {
        self.adc
    }

    /// RX clocks.
    pub fn rx(&self) -> (r: &RxClocks)
        ensures
            r@ == self@.rx,
    {
        &self.rx
    }

    /// TX clocks.
    pub fn tx(&self) -> (r: &TxClocks)
        ensures
            r@ == self@.tx,
    {
        &self.tx
    }
}

impl RxClocks {
    /// Input clock of the RX PLL block.
    pub fn synth_ref(&self) -> (r: u32)
        ensures
            r == self@.synth_ref,
    {
        self.synth_ref
    }

    /// Frequency of the RX PLL VCO, or [`None`] if the LO is supplied externally.
    pub fn pll_vco(&self) -> (r: Option<u64>)
        ensures
            r == self@.pll_vco,
    {
        self.pll_vco
    }

    /// Frequency of the RX LO.
    pub fn lo(&self) -> (r: u64)
        ensures
            r == self@.lo,
    {
        self.lo
    }

    /// Clock after HB3 decimation, fed into HB2.
    pub fn hb3(&self) -> (r: u32)
        ensures
            r == self@.hb3,
    {
        self.hb3
    }

    /// Clock after HB2 decimation, fed into HB1.
    pub fn hb2(&self) -> (r: u32)
        ensures
            r == self@.hb2,
    {
        self.hb2
    }

    /// Clock after HB1 decimation, fed into RX FIR.
    pub fn hb1(&self) -> (r: u32)
        ensures
            r == self@.rx_fir_input,
    {
        self.rx_fir_input
    }

    /// RX FIR Input clock (CLKRF).
    pub fn rx_fir_input(&self) -> (r: u32)
        ensures
            r == self@.rx_fir_input,
    {
        self.rx_fir_input
    }

    /// Sample clock after decimation by the RX FIR, relevant clock for reading IQ data with a
    /// processor/FPGA.
    pub fn rx_sample(&self) -> (r: u32)
        ensures
            r == self@.rx_sample,
    {
        self.rx_sample
    }
}

impl TxClocks {
    /// Input clock of the TX PLL block.
    pub fn synth_ref(&self) -> (r: u32)
        ensures
            r == self@.synth_ref,
    {
        self.synth_ref
    }

    /// Frequency of the TX PLL VCO, or [`None`] if the LO is supplied externally.
    pub fn pll_vco(&self) -> (r: Option<u64>)
        ensures
            r == self@.pll_vco,
    {
        self.pll_vco
    }

    /// Frequency of the TX LO.
    pub fn lo(&self) -> (r: u64)
        ensures
            r == self@.lo,
    {
        self.lo
    }

    /// TX sample clock before it goes into the FIR.
    pub fn tx_sample(&self) -> (r: u32)
        ensures
            r == self@.tx_sample,
    {
        self.tx_sample
    }

    /// Clock after TX FIR interpolation, fed into HB1 (CLKTF).
    pub fn tx_fir(&self) -> (r: u32)
        ensures
            r == self@.tx_fir,
    {
        self.tx_fir
    }

    /// Clock after HB1 interpolation, fed into HB2.
    pub fn hb1(&self) -> (r: u32)
        ensures
            r == self@.hb1,
    {
        self.hb1
    }

    /// Clock after HB2 interpolation, fed into HB3.
    pub fn hb2(&self) -> (r: u32)
        ensures
            r == self@.hb2,
    {
        self.hb2
    }

    /// Clock after HB3 interpolation, fed into the DAC. Is basically the DAC clock.
    pub fn hb3(&self) -> (r: u32)
        ensures
            r == self@.dac_clk,
    {
        self.dac_clk
    }

    /// DAC clock. Derived from the ADC clock.
    pub fn dac_clk(&self) -> (r: u32)
        ensures
            r == self@.dac_clk,
    {
        self.dac_clk
    }
}

/// Scalers which derive the PLL reference clocks from the external reference clock.
#[derive(Debug, Copy, Clone, PartialEq, Eq, Structural)]
pub struct RefClockScalers {
    /// Scaler for the BB PLL reference clock.
    pub bb_refclk: regs::ClockScaler,
    /// You can use [calculate_best_clock_divisor_for_max_value] to calculate the best divisor
    /// for a target reference clock.
    pub rx_synth: regs::ClockScaler,
    /// You can use [calculate_best_clock_divisor_for_max_value] to calculate the best divisor
    /// for a target reference clock.
    pub tx_synth: regs::ClockScaler,
}

impl RefClockScalers {
    /// Calculates the RX synth reference clock from the external reference clock `refin_hz`.
    pub fn calculate_rx_synth_clock(&self, refin_hz: u32) -> (r: u32)
        requires
            refin_hz * self.rx_synth.mult_spec() <= u32::MAX,
        ensures
            r == scaled_clock(refin_hz as int, self.rx_synth),
    {
        refin_hz * self.rx_synth.mult() / self.rx_synth.div()
    }

    /// Calculates the TX synth reference clock from the external reference clock `refin_hz`.
    pub fn calculate_tx_synth_clock(&self, refin_hz: u32) -> (r: u32)
        requires
            refin_hz * self.tx_synth.mult_spec() <= u32::MAX,
        ensures
            r == scaled_clock(refin_hz as int, self.tx_synth),
    {
        refin_hz * self.tx_synth.mult() / self.tx_synth.div()
    }

    /// Calculates the BB PLL reference clock from the external reference clock `refin_hz`.
    pub fn calculate_bb_pll_synth_clock(&self, refin_hz: u32) -> (r: u32)
        requires
            refin_hz * self.bb_refclk.mult_spec() <= u32::MAX,
        ensures
            r == scaled_clock(refin_hz as int, self.bb_refclk),
    {
        refin_hz * self.bb_refclk.mult() / self.bb_refclk.div()
    }
}

/// Error for target PLL reference clocks which are out of range.
#[derive(Debug, Copy, Clone, PartialEq, Eq, Structural)]
pub enum RefClockRangeError {
    /// The target reference clock is too high to be derived from the external reference clock.
    TooHigh {
        /// Requested reference clock in Hz.
        target_refclk: u32,
        /// Highest possible reference clock in Hz.
        max_possible_refclk: u32,
    },
    /// The target reference clock is too low to be derived from the external reference clock.
    TooLow {
        /// Requested reference clock in Hz.
        target_refclk: u32,
        /// Lowest possible reference clock in Hz.
        min_possible_refclk: u32,
    },
}

/// Result of [`RefClockScalers::calculate`]. A synthesizer reference clock above the maximum
/// gives [`RefClockRangeError::TooHigh`], else one below the minimum
/// [`RefClockRangeError::TooLow`]; the error names the offending clock, the RX one when both
/// are.
pub open spec fn ref_clock_scalers_for(
    refin_hz: u32,
    bb_pll_clk: u32,
    rx_synth_fref_clk: u32,
    tx_synth_fref_clk: u32,
) -> Result<RefClockScalers, RefClockRangeError> {
    if rx_synth_fref_clk > limits::MAX_SYNTH_FREF || tx_synth_fref_clk > limits::MAX_SYNTH_FREF {
        Err(
            RefClockRangeError::TooHigh {
                target_refclk: if rx_synth_fref_clk > limits::MAX_SYNTH_FREF {
                    rx_synth_fref_clk
                } else {
                    tx_synth_fref_clk
                },
                max_possible_refclk: limits::MAX_SYNTH_FREF,
            },
        )
    } else if rx_synth_fref_clk < limits::MIN_SYNTH_FREF || tx_synth_fref_clk
        < limits::MIN_SYNTH_FREF {
        Err(
            RefClockRangeError::TooLow {
                target_refclk: if rx_synth_fref_clk < limits::MIN_SYNTH_FREF {
                    rx_synth_fref_clk
                } else {
                    tx_synth_fref_clk
                },
                min_possible_refclk: limits::MIN_SYNTH_FREF,
            },
        )
    } else {
        Ok(
            RefClockScalers {
                bb_refclk: best_clock_scaler(refin_hz as int, bb_pll_clk as int),
                rx_synth: best_clock_scaler(refin_hz as int, rx_synth_fref_clk as int),
                tx_synth: best_clock_scaler(refin_hz as int, tx_synth_fref_clk as int),
            },
        )
    }
}

impl RefClockScalers {
    /// Calculate the divisors for target PLL input clocks.
    ///
    /// This function does not perform any checks for the BB PLL clock target value.
    ///
    /// For the BB PLL clock, the recommended range is 35 to 70 MHz. For the RX and TX PLL clocks,
    /// the recommended range is 35 to 80 MHz.
    pub fn calculate(
        refin_hz: u32,
        bb_pll_clk: u32,
        rx_synth_fref_clk: u32,
        tx_synth_fref_clk: u32,
    ) -> (r: Result<Self, RefClockRangeError>)
        requires
            ref_clock_scalers_for(refin_hz, bb_pll_clk, rx_synth_fref_clk, tx_synth_fref_clk) is Ok
                ==> best_divisor_fits(refin_hz, bb_pll_clk),
        ensures
            r == ref_clock_scalers_for(refin_hz, bb_pll_clk, rx_synth_fref_clk, tx_synth_fref_clk),
    {
        if rx_synth_fref_clk > limits::MAX_SYNTH_FREF || tx_synth_fref_clk > limits::MAX_SYNTH_FREF {
            return Err(
                RefClockRangeError::TooHigh {
                    target_refclk: if rx_synth_fref_clk > limits::MAX_SYNTH_FREF {
                        rx_synth_fref_clk
                    } else {
                        tx_synth_fref_clk
                    },
                    max_possible_refclk: limits::MAX_SYNTH_FREF,
                },
            );
        }
        if rx_synth_fref_clk < limits::MIN_SYNTH_FREF || tx_synth_fref_clk < limits::MIN_SYNTH_FREF {
            return Err(
                RefClockRangeError::TooLow {
                    target_refclk: if rx_synth_fref_clk < limits::MIN_SYNTH_FREF {
                        rx_synth_fref_clk
                    } else {
                        tx_synth_fref_clk
                    },
                    min_possible_refclk: limits::MIN_SYNTH_FREF,
                },
            );
        }
        Ok(
            Self {
                bb_refclk: calculate_best_clock_divisor_for_max_value(refin_hz, bb_pll_clk),
                rx_synth: calculate_best_clock_divisor_for_max_value(refin_hz, rx_synth_fref_clk),
                tx_synth: calculate_best_clock_divisor_for_max_value(refin_hz, tx_synth_fref_clk),
            },
        )
    }
}

/// RX clock path configuration.
#[derive(Debug, Clone, Copy, PartialEq, Eq, Structural)]
pub struct RxConfig {
    /// RX LO configuration.
    pub lo: LocalOscClockConfig,
    /// RX HB3 decimation.
    pub rhb3: Rhb3Decimation,
    /// Enables the RX HB2 stage.
    pub rhb2: bool,
    /// Enables the RX HB1 stage.
    pub rhb1: bool,
    /// If this is anything other than [`RxFirDecimation::Div1BypassFilter`], real filter taps
    /// must be loaded for correct operation. Without them the FIR runs with whatever
    /// coefficients are in its coefficient RAM, typically all zero after a power-on reset.
    pub rx_fir: RxFirDecimation,
}

/// TX clock path configuration.
#[derive(Debug, Clone, Copy, PartialEq, Eq, Structural)]
pub struct TxConfig {
    /// TX LO configuration.
    pub lo: LocalOscClockConfig,
    /// Halves the DAC clock relative to the ADC clock.
    pub dac_div2: bool,
    /// TX HB3 interpolation.
    pub thb3: Thb3Interpolation,
    /// Enables the TX HB2 stage.
    pub thb2: bool,
    /// Enables the TX HB1 stage.
    pub thb1: bool,
    /// If this is anything other than [`TxFirInterpolation::Mult1BypassFilter`], real filter taps
    /// must be loaded for correct operation. Without them the FIR runs with whatever
    /// coefficients are in its coefficient RAM, typically all zero after a power-on reset.
    pub tx_fir: TxFirInterpolation,
}

/// Clock tree configuration.
#[derive(Debug, Clone, Copy, PartialEq, Eq, Structural)]
pub struct ClockConfig {
    /// Scalers of the PLL reference clocks.
    pub ref_clk_scalers: RefClockScalers,
    /// BB PLL configuration.
    pub bb_pll: BbPllConfig,
    /// Divisor from the BB PLL clock to the ADC clock.
    pub adc: AdcDivisor,
    /// RX path configuration.
    pub rx: RxConfig,
    /// TX path configuration.
    pub tx: TxConfig,
}

/// `x` halved if `halve`.
pub open spec fn half_if(x: int, halve: bool) -> int {
    if halve {
        x / 2
    } else {
        x
    }
}

/// VCO clock of an RF PLL with reference clock `synth_clk`.
pub open spec fn pll_vco_clock(synth_clk: int, c: RfPllConfig) -> int {
    synth_clk * c.pll_int + synth_clk * c.pll_frac / RFPLL_MODULUS as int
}

/// VCO clock (for an internal LO) and LO clock of an LO configuration.
pub open spec fn lo_clocks(synth_clk: int, lo: LocalOscClockConfig) -> (Option<u64>, u64) {
    match lo {
        LocalOscClockConfig::External { external_vco_freq } => (None, (external_vco_freq / 2) as u64),
        LocalOscClockConfig::Internal(c) => (
            Some(pll_vco_clock(synth_clk, c) as u64),
            (pll_vco_clock(synth_clk, c) / c.vco_div.divider_spec() as int) as u64,
        ),
    }
}

/// BB PLL reference clock of a configuration.
pub open spec fn bb_refclk_of(refclk_hz: u32, config: ClockConfig) -> int {
    scaled_clock(refclk_hz as int, config.ref_clk_scalers.bb_refclk)
}

/// BB PLL output clock of a configuration. The fractional part is taken modulo 2^32, as it is
/// stored in a `u32`.
pub open spec fn bb_pll_of(refclk_hz: u32, config: ClockConfig) -> int {
    let bb_refclk = bb_refclk_of(refclk_hz, config);
    bb_refclk * config.bb_pll.integer_freq_word + (bb_refclk * config.bb_pll.fractional_freq_word
        / BB_PLL_MODULUS as int) % 0x1_0000_0000
}

/// Every clock of the tree stays within a `u32`, and the PLL divider words fit in their
/// register fields.
pub open spec fn clocks_fit(refclk_hz: u32, config: ClockConfig) -> bool {
    &&& refclk_hz * config.ref_clk_scalers.bb_refclk.mult_spec() <= u32::MAX
    &&& refclk_hz * config.ref_clk_scalers.rx_synth.mult_spec() <= u32::MAX
    &&& refclk_hz * config.ref_clk_scalers.tx_synth.mult_spec() <= u32::MAX
    &&& bb_pll_of(refclk_hz, config) <= u32::MAX
    &&& config.bb_pll.wf()
    &&& config.rx.lo.wf()
    &&& config.tx.lo.wf()
}

/// All clocks of the tree for a configuration: each stage divides its input clock by its
/// decimation or interpolation factor, rounding down.
pub open spec fn clocks_for(refclk_hz: u32, config: ClockConfig) -> ClocksView {
    let bb_refclk = bb_refclk_of(refclk_hz, config);
    let bb_pll = bb_pll_of(refclk_hz, config);
    let adc = bb_pll / config.adc.divisor_spec() as int;
    let hb3 = adc / config.rx.rhb3.divisor_spec() as int;
    let hb2 = half_if(hb3, config.rx.rhb2);
    let rx_fir_input = half_if(hb2, config.rx.rhb1);
    let rx_sample = rx_fir_input / config.rx.rx_fir.divisor_spec() as int;
    let dac = half_if(adc, config.tx.dac_div2);
    let tx_hb2 = dac / config.tx.thb3.multiplier_spec() as int;
    let tx_hb1 = half_if(tx_hb2, config.tx.thb2);
    let tx_fir = half_if(tx_hb1, config.tx.thb1);
    let tx_sample = tx_fir / config.tx.tx_fir.multiplier_spec() as int;
    let rx_synth = scaled_clock(refclk_hz as int, config.ref_clk_scalers.rx_synth);
    let tx_synth = scaled_clock(refclk_hz as int, config.ref_clk_scalers.tx_synth);
    let rx_lo = lo_clocks(rx_synth, config.rx.lo);
    let tx_lo = lo_clocks(tx_synth, config.tx.lo);
    ClocksView {
        ext_clk: refclk_hz,
        bb_refclk: bb_refclk as u32,
        bb_pll: bb_pll as u32,
        adc: adc as u32,
        rx: RxClocksView {
            synth_ref: rx_synth as u32,
            pll_vco: rx_lo.0,
            lo: rx_lo.1,
            hb3: hb3 as u32,
            hb2: hb2 as u32,
            rx_fir_input: rx_fir_input as u32,
            rx_sample: rx_sample as u32,
        },
        tx: TxClocksView {
            synth_ref: tx_synth as u32,
            pll_vco: tx_lo.0,
            lo: tx_lo.1,
            tx_sample: tx_sample as u32,
            tx_fir: tx_fir as u32,
            hb1: tx_hb1 as u32,
            hb2: tx_hb2 as u32,
            dac_clk: dac as u32,
        },
    }
}

/// VCO and LO clocks of an LO configuration.
fn lo_clocks_exec(synth_clk: u32, lo: &LocalOscClockConfig) -> (r: (Option<u64>, u64))
    requires
        lo.wf(),
    ensures
        r == lo_clocks(synth_clk as int, *lo),
{
    match lo {
        LocalOscClockConfig::External { external_vco_freq } => (None, *external_vco_freq / 2),
        LocalOscClockConfig::Internal(pll_config) => {
            proof {
                assert(synth_clk as u64 * pll_config.pll_int as u64 <= 0xFFFF_FFFF * 0x7FF) by (
                nonlinear_arith)
                    requires
                        synth_clk <= 0xFFFF_FFFF,
                        pll_config.pll_int < 0x800,
                ;
                assert(synth_clk as u64 * pll_config.pll_frac as u64 <= 0xFFFF_FFFF * 0x7F_FFFF)
                    by (nonlinear_arith)
                    requires
                        synth_clk <= 0xFFFF_FFFF,
                        pll_config.pll_frac < 0x80_0000,
                ;
            }
            let vco = synth_clk as u64 * pll_config.pll_int as u64 + (synth_clk as u64
                * pll_config.pll_frac as u64) / RFPLL_MODULUS as u64;
            (Some(vco), vco / pll_config.vco_div.divider() as u64)
        },
    }
}

impl Clocks {
    /// Create a new [Clocks] information structure.
    pub fn new(refclk_hz: u32, config: &ClockConfig) -> (r: Self)
        requires
            clocks_fit(refclk_hz, *config),
        ensures
            r@ == clocks_for(refclk_hz, *config),
    {
        let bb_refclk = refclk_hz * config.ref_clk_scalers.bb_refclk.mult()
            / config.ref_clk_scalers.bb_refclk.div();
        proof {
            assert(bb_refclk as u64 * config.bb_pll.fractional_freq_word as u64 <= 0xFFFF_FFFF
                * 0x1F_FFFF) by (nonlinear_arith)
                requires
                    bb_refclk <= 0xFFFF_FFFF,
                    config.bb_pll.fractional_freq_word < 0x20_0000,
            ;
            assert(bb_refclk as int * config.bb_pll.integer_freq_word <= bb_pll_of(
                refclk_hz,
                *config,
            )) by (nonlinear_arith)
                requires
                    bb_pll_of(refclk_hz, *config) == bb_refclk as int
                        * config.bb_pll.integer_freq_word + (bb_refclk as int
                        * config.bb_pll.fractional_freq_word / BB_PLL_MODULUS as int)
                        % 0x1_0000_0000,
            ;
        }
        let frac = ((bb_refclk as u64 * config.bb_pll.fractional_freq_word as u64)
            / BB_PLL_MODULUS as u64) % 0x1_0000_0000;
        let bb_pll_clk = (bb_refclk * config.bb_pll.integer_freq_word as u32) + frac as u32;

        let adc_clk = bb_pll_clk / config.adc.divisor();
        let hb2_clk = adc_clk / config.rx.rhb3.divisor();
        let hb1_clk = hb2_clk / if config.rx.rhb2 {
            2
        } else {
            1
        };
        let rx_fir_clk = hb1_clk / if config.rx.rhb1 {
            2
        } else {
            1
        };
        let rx_sample = rx_fir_clk / config.rx.rx_fir.divisor();

        // Calculate from right to left. We have a desired output frequency which is derived
        // from the ADC clock. All other clocks are derived from that.
        let dac_clk = if config.tx.dac_div2 {
            adc_clk / 2
        } else {
            adc_clk
        };
        let tx_hb2 = dac_clk / config.tx.thb3.multiplier();
        let tx_hb1 = if config.tx.thb2 {
            tx_hb2 / 2
        } else {
            tx_hb2
        };
        let tx_fir = if config.tx.thb1 {
            tx_hb1 / 2
        } else {
            tx_hb1
        };
        let tx_sample = tx_fir / config.tx.tx_fir.multiplier();

        let rx_synth_clk = refclk_hz * config.ref_clk_scalers.rx_synth.mult()
            / config.ref_clk_scalers.rx_synth.div();
        let (rx_pll_vco, rx_lo_freq) = lo_clocks_exec(rx_synth_clk, &config.rx.lo);

        let tx_synth_clk = refclk_hz * config.ref_clk_scalers.tx_synth.mult()
            / config.ref_clk_scalers.tx_synth.div();
        let (tx_pll_vco, tx_lo_freq) = lo_clocks_exec(tx_synth_clk, &config.tx.lo);
        Self {
            ext_clk: refclk_hz,
            bb_refclk,
            bb_pll: bb_pll_clk,
            adc: adc_clk,
            rx: RxClocks {
                synth_ref: rx_synth_clk,
                pll_vco: rx_pll_vco,
                lo: rx_lo_freq,
                hb3: hb2_clk,
                hb2: hb1_clk,
                rx_fir_input: rx_fir_clk,
                rx_sample,
            },
            tx: TxClocks {
                synth_ref: tx_synth_clk,
                pll_vco: tx_pll_vco,
                lo: tx_lo_freq,
                tx_fir,
                hb1: tx_hb1,
                hb2: tx_hb2,
                dac_clk,
                tx_sample,
            },
        }
    }
}

/// Error while calculating a clock path configuration.
#[derive(Debug, PartialEq, Eq, Structural, Clone, Copy)]
pub enum RfClockPathCalculationError {
    /// The TX sample rate exceeds the maximum baseband rate.
    TxSampleRateTooFast,
    /// The target frequencies can not be reached with the path configuration.
    InvalidPathConfig,
    /// There is no valid configuration for the TX and RX sample rates.
    CouldNotFindValidConfig,
    /// The BB PLL clock derived from the sample clocks is too slow.
    ClocksTooSlow,
    /// The BB PLL clock derived from the sample clocks is too fast.
    ClocksTooFast,
    /// The ADC clock is too fast.
    AdcClockTooFast,
    /// The ADC clock is too slow.
    AdcClockTooSlow,
    /// The DAC clock is too fast.
    DacClockTooFast,
    /// The RX sample rate exceeds the maximum baseband rate.
    RxSampleRateTooFast,
    /// The clock of the RX HB1 stage (CLKRF) is too fast.
    RxHb1ClockTooFast,
    /// The clock of the RX HB2 stage (R1) is too fast.
    RxHb2ClockTooFast,
    /// The clock of the RX HB3 stage (R2) is too fast.
    RxHb3ClockTooFast,
    /// The clock of the TX HB1 stage (CLKTF) is too fast.
    TxHb1ClockTooFast,
    /// The clock of the TX HB2 stage (T1) is too fast.
    TxHb2ClockTooFast,
    /// The clock of the TX HB3 stage (T2) is too fast.
    TxHb3ClockTooFast,
}

/// Computed BB PLL / ADC clock configuration including the full digital filter path.
///
/// Holds the BB PLL output frequency, the ADC divisor applied to it to obtain the ADC master
/// clock, the `dac_div2` flag, and all RX/TX half-band filter settings that were used to arrive
/// at those clocks. The `dac_div2` flag controls whether the DAC clock is half the ADC clock
/// (`true`) or equal to it (`false`).
#[derive(Debug, Copy, Clone, PartialEq, Eq, Structural)]
pub struct BbClockPathConfigHelper {
    bb_pll_clock_hz: u32,
    adc_div: AdcDivisor,
    dac_div2: bool,
    rhb3: Rhb3Decimation,
    rhb2: bool,
    rhb1: bool,
    rx_fir: RxFirDecimation,
    thb3: Thb3Interpolation,
    thb2: bool,
    thb1: bool,
    tx_fir: TxFirInterpolation,
}

/// The values of a [`BbClockPathConfigHelper`].
#[derive(PartialEq, Eq, Structural)]
pub struct BbClockPathView {
    /// BB PLL clock in Hz.
    pub bb_pll_clock_hz: u32,
    /// Divisor from the BB PLL clock to the ADC clock.
    pub adc_div: AdcDivisor,
    /// Whether the DAC clock is half of the ADC clock.
    pub dac_div2: bool,
    /// RX HB3 decimation.
    pub rhb3: Rhb3Decimation,
    /// RX HB2 stage enabled.
    pub rhb2: bool,
    /// RX HB1 stage enabled.
    pub rhb1: bool,
    /// RX FIR decimation.
    pub rx_fir: RxFirDecimation,
    /// TX HB3 interpolation.
    pub thb3: Thb3Interpolation,
    /// TX HB2 stage enabled.
    pub thb2: bool,
    /// TX HB1 stage enabled.
    pub thb1: bool,
    /// TX FIR interpolation.
    pub tx_fir: TxFirInterpolation,
}

impl View for BbClockPathConfigHelper {
    type V = BbClockPathView;

    closed spec fn view(&self) -> BbClockPathView {
        BbClockPathView {
            bb_pll_clock_hz: self.bb_pll_clock_hz,
            adc_div: self.adc_div,
            dac_div2: self.dac_div2,
            rhb3: self.rhb3,
            rhb2: self.rhb2,
            rhb1: self.rhb1,
            rx_fir: self.rx_fir,
            thb3: self.thb3,
            thb2: self.thb2,
            thb1: self.thb1,
            tx_fir: self.tx_fir,
        }
    }
}

/// `x` doubled if `double`.
pub open spec fn double_if(x: int, double: bool) -> int {
    if double {
        x * 2
    } else {
        x
    }
}

/// Factor by which the TX FIR raises the clock in the path calculation. Unlike
/// [`TxFirInterpolation::multiplier`], an enabled FIR with interpolation 1 counts as 2 here.
pub open spec fn path_tx_fir_factor(tx_fir: TxFirInterpolation) -> int {
    match tx_fir {
        TxFirInterpolation::Mult1BypassFilter => 1,
        TxFirInterpolation::Mult1EnableFilter => 2,
        TxFirInterpolation::Mult2EnableFilter => 2,
        TxFirInterpolation::Mult4EnableFilter => 4,
    }
}

/// Clock checkpoints of a filter path, each the output clock of a stage walking away from the
/// baseband sample rate: RX sample rate, RX FIR, RX HB1, RX HB2 and RX HB3 (the ADC clock),
/// then TX FIR, TX HB1, TX HB2 and TX HB3 (the DAC clock).
pub struct PathClocks {
    /// RX sample rate.
    pub rx_sample: int,
    /// Output of the RX FIR (CLKRF).
    pub rx_fir_out: int,
    /// Output of RX HB1 (R1).
    pub rx_hb1_out: int,
    /// Output of RX HB2 (R2).
    pub rx_hb2_out: int,
    /// ADC clock required by the RX chain.
    pub adc: int,
    /// Output of the TX FIR (CLKTF).
    pub tx_fir_out: int,
    /// Output of TX HB1 (T1).
    pub tx_hb1_out: int,
    /// Output of TX HB2 (T2).
    pub tx_hb2_out: int,
    /// DAC clock required by the TX chain.
    pub dac: int,
}

/// Clock checkpoints of a filter path.
#[verifier::opaque]
pub open spec fn path_clocks(
    tx_sample_hz: u32,
    rx_sample_is_twice_tx_sample: bool,
    rhb3: Rhb3Decimation,
    rhb2: bool,
    rhb1: bool,
    rx_fir: RxFirDecimation,
    thb3: Thb3Interpolation,
    thb2: bool,
    thb1: bool,
    tx_fir: TxFirInterpolation,
) -> PathClocks {
    let rx_sample = double_if(tx_sample_hz as int, rx_sample_is_twice_tx_sample);
    let rx_fir_out = rx_sample * rx_fir.divisor_spec();
    let rx_hb1_out = double_if(rx_fir_out, rhb1);
    let rx_hb2_out = double_if(rx_hb1_out, rhb2);
    let adc = rx_hb2_out * rhb3.divisor_spec();
    let tx_fir_out = tx_sample_hz * path_tx_fir_factor(tx_fir);
    let tx_hb1_out = double_if(tx_fir_out, thb1);
    let tx_hb2_out = double_if(tx_hb1_out, thb2);
    let dac = tx_hb2_out * thb3.multiplier_spec();
    PathClocks {
        rx_sample,
        rx_fir_out,
        rx_hb1_out,
        rx_hb2_out,
        adc,
        tx_fir_out,
        tx_hb1_out,
        tx_hb2_out,
        dac,
    }
}

/// Whether the BB PLL clock for ADC clock `adc` and ADC divisor `d` is in the BB PLL range.
pub open spec fn bb_pll_in_range(adc: int, d: AdcDivisor) -> bool {
    limits::MIN_BBPLL_FREQ <= adc * d.divisor_spec() <= limits::MAX_BBPLL_FREQ
}

/// Smallest ADC divisor which puts the BB PLL clock for ADC clock `adc` into the BB PLL range.
pub open spec fn smallest_adc_divisor(adc: int) -> Option<AdcDivisor> {
    if bb_pll_in_range(adc, AdcDivisor::Div2) {
        Some(AdcDivisor::Div2)
    } else if bb_pll_in_range(adc, AdcDivisor::Div4) {
        Some(AdcDivisor::Div4)
    } else if bb_pll_in_range(adc, AdcDivisor::Div8) {
        Some(AdcDivisor::Div8)
    } else if bb_pll_in_range(adc, AdcDivisor::Div16) {
        Some(AdcDivisor::Div16)
    } else if bb_pll_in_range(adc, AdcDivisor::Div32) {
        Some(AdcDivisor::Div32)
    } else if bb_pll_in_range(adc, AdcDivisor::Div64) {
        Some(AdcDivisor::Div64)
    } else {
        None
    }
}

/// Result of the BB PLL / ADC clock calculation for a fully specified filter path. The checks
/// come in the order of the stages: sample rates, RX chain, TX chain, DAC clock, the ADC/DAC
/// relation, the BB PLL range and last the ADC clock range.
pub open spec fn full_path_result(
    tx_sample_hz: u32,
    rx_sample_is_twice_tx_sample: bool,
    rhb3: Rhb3Decimation,
    rhb2: bool,
    rhb1: bool,
    rx_fir: RxFirDecimation,
    thb3: Thb3Interpolation,
    thb2: bool,
    thb1: bool,
    tx_fir: TxFirInterpolation,
) -> Result<BbClockPathView, RfClockPathCalculationError> {
    let c = path_clocks(
        tx_sample_hz,
        rx_sample_is_twice_tx_sample,
        rhb3,
        rhb2,
        rhb1,
        rx_fir,
        thb3,
        thb2,
        thb1,
        tx_fir,
    );
    if tx_sample_hz > limits::MAX_BASEBAND_RATE {
        Err(RfClockPathCalculationError::TxSampleRateTooFast)
    } else if c.rx_sample > limits::MAX_BASEBAND_RATE {
        Err(RfClockPathCalculationError::RxSampleRateTooFast)
    } else if c.rx_fir_out > limits::MAX_RX_HB1 {
        Err(RfClockPathCalculationError::RxHb1ClockTooFast)
    } else if c.rx_hb1_out > limits::MAX_RX_HB2 {
        Err(RfClockPathCalculationError::RxHb2ClockTooFast)
    } else if c.rx_hb2_out > limits::MAX_RX_HB3 {
        Err(RfClockPathCalculationError::RxHb3ClockTooFast)
    } else if c.tx_fir_out > limits::MAX_TX_HB1 {
        Err(RfClockPathCalculationError::TxHb1ClockTooFast)
    } else if c.tx_hb1_out > limits::MAX_TX_HB2 {
        Err(RfClockPathCalculationError::TxHb2ClockTooFast)
    } else if c.tx_hb2_out > limits::MAX_TX_HB3 {
        Err(RfClockPathCalculationError::TxHb3ClockTooFast)
    } else {
        path_tail_result(c.adc, c.dac, rhb3, rhb2, rhb1, rx_fir, thb3, thb2, thb1, tx_fir)
    }
}

/// Result of the path calculation once the RX and TX chains are within their limits, for ADC
/// clock `adc` and DAC clock `dac`: the DAC clock limit, the ADC/DAC relation, the BB PLL range
/// and the ADC clock range.
#[verifier::opaque]
pub open spec fn path_tail_result(
    adc: int,
    dac: int,
    rhb3: Rhb3Decimation,
    rhb2: bool,
    rhb1: bool,
    rx_fir: RxFirDecimation,
    thb3: Thb3Interpolation,
    thb2: bool,
    thb1: bool,
    tx_fir: TxFirInterpolation,
) -> Result<BbClockPathView, RfClockPathCalculationError> {
    if dac > limits::MAX_DAC_CLK {
        Err(RfClockPathCalculationError::DacClockTooFast)
    } else if adc != 2 * dac && adc != dac {
        Err(RfClockPathCalculationError::InvalidPathConfig)
    } else {
        match smallest_adc_divisor(adc) {
            None => if adc * 2 < limits::MIN_BBPLL_FREQ {
                Err(RfClockPathCalculationError::ClocksTooSlow)
            } else {
                Err(RfClockPathCalculationError::ClocksTooFast)
            },
            Some(d) => if adc > limits::MAX_ADC_CLK {
                Err(RfClockPathCalculationError::AdcClockTooFast)
            } else if adc < limits::MIN_ADC_CLK {
                Err(RfClockPathCalculationError::AdcClockTooSlow)
            } else {
                Ok(
                    BbClockPathView {
                        bb_pll_clock_hz: (adc * d.divisor_spec()) as u32,
                        adc_div: d,
                        dac_div2: adc == 2 * dac,
                        rhb3,
                        rhb2,
                        rhb1,
                        rx_fir,
                        thb3,
                        thb2,
                        thb1,
                        tx_fir,
                    },
                )
            },
        }
    }
}

/// DAC clock of a path configuration: the BB PLL clock divided by the ADC divisor, halved if
/// `dac_div2`.
pub open spec fn path_dac_clock(p: BbClockPathView) -> int {
    half_if(p.bb_pll_clock_hz as int / p.adc_div.divisor_spec() as int, p.dac_div2)
}

/// Every clock path the calculation accepts keeps each stage within its limits: the RX and TX
/// chain stages, the ADC clock, the DAC clock and the BB PLL clock. The BB PLL clock is the ADC
/// clock times the ADC divisor, the smallest divisor that lands in the BB PLL range, and the DAC
/// clock of the configuration is the clock the TX chain needs.
#[verifier::rlimit(40)]
pub proof fn lemma_full_path_in_range(
    tx_sample_hz: u32,
    rx_sample_is_twice_tx_sample: bool,
    rhb3: Rhb3Decimation,
    rhb2: bool,
    rhb1: bool,
    rx_fir: RxFirDecimation,
    thb3: Thb3Interpolation,
    thb2: bool,
    thb1: bool,
    tx_fir: TxFirInterpolation,
)
    requires
        full_path_result(
            tx_sample_hz,
            rx_sample_is_twice_tx_sample,
            rhb3,
            rhb2,
            rhb1,
            rx_fir,
            thb3,
            thb2,
            thb1,
            tx_fir,
        ) is Ok,
    ensures
        ({
            let c = path_clocks(
                tx_sample_hz,
                rx_sample_is_twice_tx_sample,
                rhb3,
                rhb2,
                rhb1,
                rx_fir,
                thb3,
                thb2,
                thb1,
                tx_fir,
            );
            let p = full_path_result(
                tx_sample_hz,
                rx_sample_is_twice_tx_sample,
                rhb3,
                rhb2,
                rhb1,
                rx_fir,
                thb3,
                thb2,
                thb1,
                tx_fir,
            )->Ok_0;
            &&& c.rx_sample <= limits::MAX_BASEBAND_RATE
            &&& c.rx_fir_out <= limits::MAX_RX_HB1
            &&& c.rx_hb1_out <= limits::MAX_RX_HB2
            &&& c.rx_hb2_out <= limits::MAX_RX_HB3
            &&& limits::MIN_ADC_CLK <= c.adc <= limits::MAX_ADC_CLK
            &&& c.tx_fir_out <= limits::MAX_TX_HB1
            &&& c.tx_hb1_out <= limits::MAX_TX_HB2
            &&& c.tx_hb2_out <= limits::MAX_TX_HB3
            &&& c.dac <= limits::MAX_DAC_CLK
            &&& limits::MIN_BBPLL_FREQ <= p.bb_pll_clock_hz <= limits::MAX_BBPLL_FREQ
            &&& p.bb_pll_clock_hz == c.adc * p.adc_div.divisor_spec()
            &&& forall|d: AdcDivisor|
                d.divisor_spec() < p.adc_div.divisor_spec() ==> !bb_pll_in_range(c.adc, d)
            &&& path_dac_clock(p) == c.dac
            &&& p.rhb3 == rhb3 && p.rhb2 == rhb2 && p.rhb1 == rhb1 && p.rx_fir == rx_fir
            &&& p.thb3 == thb3 && p.thb2 == thb2 && p.thb1 == thb1 && p.tx_fir == tx_fir
        }),
{
    reveal(path_clocks);
    reveal(path_tail_result);
    let c = path_clocks(
        tx_sample_hz,
        rx_sample_is_twice_tx_sample,
        rhb3,
        rhb2,
        rhb1,
        rx_fir,
        thb3,
        thb2,
        thb1,
        tx_fir,
    );
    let d = smallest_adc_divisor(c.adc)->Some_0;
    let k = d.divisor_spec() as int;
    assert((c.adc * k) / k == c.adc) by (nonlinear_arith)
        requires
            k > 0,
    ;
}

/// One row of the AD9361 RX/TX digital filter chain lookup table.
///
/// Other factorizations of the same total ratio are possible, but the search only picks
/// combinations of these seven known-valid rows.
#[derive(Debug, Copy, Clone)]
struct ClockChainRow {
    stage3: u8,
    stage2_enabled: bool,
    stage1_enabled: bool,
}

/// Row `i` of the filter chain table as (HB3 factor, HB2 enabled, HB1 enabled), ordered from
/// the widest oversampling ratio (12x) down to 1:1.
pub open spec fn clock_chain_row(i: int) -> (u8, bool, bool) {
    if i == 0 {
        (3, true, true)
    } else if i == 1 {
        (2, true, true)
    } else if i == 2 {
        (3, false, true)
    } else if i == 3 {
        (2, true, false)
    } else if i == 4 {
        (3, false, false)
    } else if i == 5 {
        (2, false, false)
    } else {
        (1, false, false)
    }
}

/// Number of rows of the filter chain table.
pub const CLOCK_CHAIN_ROWS: usize = 7;

/// The RX HB3 setting with decimation factor `k` (1, 2 or 3).
pub open spec fn rhb3_for(k: u8) -> Rhb3Decimation {
    if k == 1 {
        Rhb3Decimation::Div1NoFiltering
    } else if k == 2 {
        Rhb3Decimation::Div2HalfBand
    } else {
        Rhb3Decimation::Div3Filter
    }
}

/// The TX HB3 setting with interpolation factor `k` (1, 2 or 3).
pub open spec fn thb3_for(k: u8) -> Thb3Interpolation {
    if k == 1 {
        Thb3Interpolation::Mult1NoFiltering
    } else if k == 2 {
        Thb3Interpolation::Mult2HalfBand
    } else {
        Thb3Interpolation::Mult3Filter
    }
}

/// Result of the full path calculation with RX table row `i` and TX table row `j`.
pub open spec fn path_for_rows(
    tx_sample_hz: u32,
    rx_sample_is_twice_tx_sample: bool,
    rx_fir: RxFirDecimation,
    tx_fir: TxFirInterpolation,
    i: int,
    j: int,
) -> Result<BbClockPathView, RfClockPathCalculationError> {
    let rx_row = clock_chain_row(i);
    let tx_row = clock_chain_row(j);
    full_path_result(
        tx_sample_hz,
        rx_sample_is_twice_tx_sample,
        rhb3_for(rx_row.0),
        rx_row.1,
        rx_row.2,
        rx_fir,
        thb3_for(tx_row.0),
        tx_row.1,
        tx_row.2,
        tx_fir,
    )
}

/// The first valid path among the row pairs from `(i, j)` on, in the order RX row first, TX
/// row second, both rows starting at `skip`.
pub open spec fn first_valid_path(
    tx_sample_hz: u32,
    rx_sample_is_twice_tx_sample: bool,
    rx_fir: RxFirDecimation,
    tx_fir: TxFirInterpolation,
    skip: int,
    i: int,
    j: int,
) -> Result<BbClockPathView, RfClockPathCalculationError>
    decreases 7 - i, 8 - j,
{
    if i >= 7 || skip >= 7 {
        Err(RfClockPathCalculationError::CouldNotFindValidConfig)
    } else if j >= 7 {
        first_valid_path(
            tx_sample_hz,
            rx_sample_is_twice_tx_sample,
            rx_fir,
            tx_fir,
            skip,
            i + 1,
            if skip < 0 { 0 } else { skip },
        )
    } else {
        let p = path_for_rows(tx_sample_hz, rx_sample_is_twice_tx_sample, rx_fir, tx_fir, i, j);
        if p is Ok {
            p
        } else {
            first_valid_path(
                tx_sample_hz,
                rx_sample_is_twice_tx_sample,
                rx_fir,
                tx_fir,
                skip,
                i,
                j + 1,
            )
        }
    }
}

/// AD9361 oversampling search preference (the `rate_governor` setting).
///
/// The digital filter chain search in [`BbClockPathConfigHelper::calculate_and_validate`] can
/// either prefer the widest oversampling ratio it can make work (`HighestOsr`), or skip that
/// widest ratio and prefer a lower one (`Nominal`), trading oversampling margin for lower digital
/// filter power. `Nominal` is the default.
#[derive(Debug, Copy, Clone, PartialEq, Eq, Structural, Default)]
pub enum RateGovernor {
    /// Prefer the widest oversampling ratio (the first, 12x, row of the table) that produces a
    /// valid clock path.
    HighestOsr,
    /// Skip the widest oversampling ratio and prefer the next one down. This is the default.
    #[default]
    Nominal,
}

/// Number of leading (highest-ratio) rows of the filter chain table to skip when searching.
pub open spec fn governor_skip_rows(g: RateGovernor) -> int {
    match g {
        RateGovernor::HighestOsr => 0,
        RateGovernor::Nominal => 1,
    }
}

impl RateGovernor {
    /// Number of leading (highest-ratio) rows of the filter chain table to skip when searching.
    fn skip_rows(self) -> (r: usize)
        ensures
            r == governor_skip_rows(self),
    {
        match self {
            RateGovernor::HighestOsr => 0,
            RateGovernor::Nominal => 1,
        }
    }
}

/// Result of the filter path search: the search from the governor's first row, and for
/// `Nominal`, if that finds nothing, the search over the full table.
pub open spec fn auto_path_result(
    tx_sample_hz: u32,
    rx_sample_is_twice_tx_sample: bool,
    rx_fir: RxFirDecimation,
    tx_fir: TxFirInterpolation,
    rate_governor: RateGovernor,
) -> Result<BbClockPathView, RfClockPathCalculationError> {
    let skip = governor_skip_rows(rate_governor);
    let first = first_valid_path(
        tx_sample_hz,
        rx_sample_is_twice_tx_sample,
        rx_fir,
        tx_fir,
        skip,
        skip,
        skip,
    );
    if rate_governor == RateGovernor::Nominal && first == Err::<
        BbClockPathView,
        RfClockPathCalculationError,
    >(RfClockPathCalculationError::CouldNotFindValidConfig) {
        first_valid_path(tx_sample_hz, rx_sample_is_twice_tx_sample, rx_fir, tx_fir, 0, 0, 0)
    } else {
        first
    }
}

/// A search result is either the first valid path of the table or the search error: the
/// search hands back a path only if some row pair produces it.
pub proof fn lemma_first_valid_path_is_a_row_path(
    tx_sample_hz: u32,
    rx_sample_is_twice_tx_sample: bool,
    rx_fir: RxFirDecimation,
    tx_fir: TxFirInterpolation,
    skip: int,
    i: int,
    j: int,
)
    requires
        0 <= skip <= i,
        skip <= j,
    ensures
        ({
            let r = first_valid_path(
                tx_sample_hz,
                rx_sample_is_twice_tx_sample,
                rx_fir,
                tx_fir,
                skip,
                i,
                j,
            );
            r is Ok ==> exists|a: int, b: int|
                skip <= a < 7 && skip <= b < 7 && path_for_rows(
                    tx_sample_hz,
                    rx_sample_is_twice_tx_sample,
                    rx_fir,
                    tx_fir,
                    a,
                    b,
                ) == r
        }),
        ({
            let r = first_valid_path(
                tx_sample_hz,
                rx_sample_is_twice_tx_sample,
                rx_fir,
                tx_fir,
                skip,
                i,
                j,
            );
            r is Err ==> r == Err::<BbClockPathView, RfClockPathCalculationError>(
                RfClockPathCalculationError::CouldNotFindValidConfig,
            )
        }),
    decreases 7 - i, 8 - j,
{
    if i >= 7 || skip >= 7 {
    } else if j >= 7 {
        lemma_first_valid_path_is_a_row_path(
            tx_sample_hz,
            rx_sample_is_twice_tx_sample,
            rx_fir,
            tx_fir,
            skip,
            i + 1,
            skip,
        );
    } else {
        let p = path_for_rows(tx_sample_hz, rx_sample_is_twice_tx_sample, rx_fir, tx_fir, i, j);
        if p is Ok {
            assert(path_for_rows(tx_sample_hz, rx_sample_is_twice_tx_sample, rx_fir, tx_fir, i, j)
                == p);
        } else {
            lemma_first_valid_path_is_a_row_path(
                tx_sample_hz,
                rx_sample_is_twice_tx_sample,
                rx_fir,
                tx_fir,
                skip,
                i,
                j + 1,
            );
        }
    }
}

/// Whether row pair `(a, b)` (RX row, TX row) lies in the table search from `(i, j)` on with
/// both rows starting at `skip`.
pub open spec fn in_row_search(skip: int, i: int, j: int, a: int, b: int) -> bool {
    skip <= b < 7 && a < 7 && (a > i || (a == i && b >= j))
}

/// Whether row pair `(a, b)` comes before `(c, d)`: RX row first, then TX row.
pub open spec fn row_pair_before(a: int, b: int, c: int, d: int) -> bool {
    a < c || (a == c && b < d)
}

/// The table search from `(i, j)` on hands back the path of the first valid row pair, returned
/// here; without any valid pair it fails with `CouldNotFindValidConfig`.
proof fn lemma_first_valid_path_minimal(
    tx_sample_hz: u32,
    rx_sample_is_twice_tx_sample: bool,
    rx_fir: RxFirDecimation,
    tx_fir: TxFirInterpolation,
    skip: int,
    i: int,
    j: int,
) -> (ab: (int, int))
    requires
        0 <= skip <= i,
        skip <= j,
    ensures
        ({
            let r = first_valid_path(
                tx_sample_hz,
                rx_sample_is_twice_tx_sample,
                rx_fir,
                tx_fir,
                skip,
                i,
                j,
            );
            &&& r is Ok ==> in_row_search(skip, i, j, ab.0, ab.1) && path_for_rows(
                tx_sample_hz,
                rx_sample_is_twice_tx_sample,
                rx_fir,
                tx_fir,
                ab.0,
                ab.1,
            ) == r
            &&& r is Ok ==> forall|a: int, b: int|
                #![trigger path_for_rows(tx_sample_hz, rx_sample_is_twice_tx_sample, rx_fir, tx_fir, a, b)]
                in_row_search(skip, i, j, a, b) && row_pair_before(a, b, ab.0, ab.1)
                    ==> path_for_rows(
                    tx_sample_hz,
                    rx_sample_is_twice_tx_sample,
                    rx_fir,
                    tx_fir,
                    a,
                    b,
                ) is Err
            &&& r is Err ==> r == Err::<BbClockPathView, RfClockPathCalculationError>(
                RfClockPathCalculationError::CouldNotFindValidConfig,
            )
            &&& r is Err ==> forall|a: int, b: int|
                #![trigger path_for_rows(tx_sample_hz, rx_sample_is_twice_tx_sample, rx_fir, tx_fir, a, b)]
                in_row_search(skip, i, j, a, b) ==> path_for_rows(
                    tx_sample_hz,
                    rx_sample_is_twice_tx_sample,
                    rx_fir,
                    tx_fir,
                    a,
                    b,
                ) is Err
        }),
    decreases 7 - i, 8 - j,
{
    if i >= 7 || skip >= 7 {
        (0, 0)
    } else if j >= 7 {
        lemma_first_valid_path_minimal(
            tx_sample_hz,
            rx_sample_is_twice_tx_sample,
            rx_fir,
            tx_fir,
            skip,
            i + 1,
            skip,
        )
    } else {
        let p = path_for_rows(tx_sample_hz, rx_sample_is_twice_tx_sample, rx_fir, tx_fir, i, j);
        if p is Ok {
            (i, j)
        } else {
            lemma_first_valid_path_minimal(
                tx_sample_hz,
                rx_sample_is_twice_tx_sample,
                rx_fir,
                tx_fir,
                skip,
                i,
                j + 1,
            )
        }
    }
}

/// The automatic clock path search picks the lexicographically first valid row pair (RX row
/// first, TX row second) among the table rows its rate governor allows (all rows for
/// `HighestOsr`, all but the widest for `Nominal`), returned here. Without a valid pair there,
/// `Nominal` gives what `HighestOsr` gives, and `HighestOsr` fails with
/// `CouldNotFindValidConfig`.
pub proof fn lemma_auto_path_is_first_valid_row_pair(
    tx_sample_hz: u32,
    rx_sample_is_twice_tx_sample: bool,
    rx_fir: RxFirDecimation,
    tx_fir: TxFirInterpolation,
    rate_governor: RateGovernor,
) -> (ab: (int, int))
    ensures
        ({
            let s = governor_skip_rows(rate_governor);
            let r = auto_path_result(
                tx_sample_hz,
                rx_sample_is_twice_tx_sample,
                rx_fir,
                tx_fir,
                rate_governor,
            );
            let any_valid = exists|a: int, b: int|
                #![trigger path_for_rows(tx_sample_hz, rx_sample_is_twice_tx_sample, rx_fir, tx_fir, a, b)]
                s <= a < 7 && s <= b < 7 && path_for_rows(
                    tx_sample_hz,
                    rx_sample_is_twice_tx_sample,
                    rx_fir,
                    tx_fir,
                    a,
                    b,
                ) is Ok;
            &&& any_valid ==> s <= ab.0 < 7 && s <= ab.1 < 7 && r == path_for_rows(
                tx_sample_hz,
                rx_sample_is_twice_tx_sample,
                rx_fir,
                tx_fir,
                ab.0,
                ab.1,
            ) && r is Ok
            &&& any_valid ==> forall|a: int, b: int|
                #![trigger path_for_rows(tx_sample_hz, rx_sample_is_twice_tx_sample, rx_fir, tx_fir, a, b)]
                s <= a < 7 && s <= b < 7 && row_pair_before(a, b, ab.0, ab.1) ==> path_for_rows(
                    tx_sample_hz,
                    rx_sample_is_twice_tx_sample,
                    rx_fir,
                    tx_fir,
                    a,
                    b,
                ) is Err
            &&& !any_valid && rate_governor == RateGovernor::Nominal ==> r == auto_path_result(
                tx_sample_hz,
                rx_sample_is_twice_tx_sample,
                rx_fir,
                tx_fir,
                RateGovernor::HighestOsr,
            )
            &&& !any_valid && rate_governor == RateGovernor::HighestOsr ==> r == Err::<
                BbClockPathView,
                RfClockPathCalculationError,
            >(RfClockPathCalculationError::CouldNotFindValidConfig)
        }),
{
    let s = governor_skip_rows(rate_governor);
    let ab = lemma_first_valid_path_minimal(
        tx_sample_hz,
        rx_sample_is_twice_tx_sample,
        rx_fir,
        tx_fir,
        s,
        s,
        s,
    );
    let first = first_valid_path(tx_sample_hz, rx_sample_is_twice_tx_sample, rx_fir, tx_fir, s, s, s);
    if first is Ok {
        assert(path_for_rows(tx_sample_hz, rx_sample_is_twice_tx_sample, rx_fir, tx_fir, ab.0, ab.1)
            is Ok);
    }
    ab
}

/// Every clock path that the calculation for a fully specified filter path hands back runs the
/// DAC at most at `MAX_DAC_CLK`, the DAC clock being the BB PLL clock divided by the ADC divisor
/// and halved with `dac_div2`.
pub proof fn lemma_full_path_dac_clock_in_range(
    tx_sample_hz: u32,
    rx_sample_is_twice_tx_sample: bool,
    rhb3: Rhb3Decimation,
    rhb2: bool,
    rhb1: bool,
    rx_fir: RxFirDecimation,
    thb3: Thb3Interpolation,
    thb2: bool,
    thb1: bool,
    tx_fir: TxFirInterpolation,
)
    requires
        full_path_result(
            tx_sample_hz,
            rx_sample_is_twice_tx_sample,
            rhb3,
            rhb2,
            rhb1,
            rx_fir,
            thb3,
            thb2,
            thb1,
            tx_fir,
        ) is Ok,
    ensures
        path_dac_clock(
            full_path_result(
                tx_sample_hz,
                rx_sample_is_twice_tx_sample,
                rhb3,
                rhb2,
                rhb1,
                rx_fir,
                thb3,
                thb2,
                thb1,
                tx_fir,
            )->Ok_0,
        ) <= limits::MAX_DAC_CLK,
{
    lemma_full_path_in_range(
        tx_sample_hz,
        rx_sample_is_twice_tx_sample,
        rhb3,
        rhb2,
        rhb1,
        rx_fir,
        thb3,
        thb2,
        thb1,
        tx_fir,
    );
}

/// Every clock path that the automatic search hands back runs the DAC at most at
/// `MAX_DAC_CLK`.
pub proof fn lemma_auto_path_dac_clock_in_range(
    tx_sample_hz: u32,
    rx_sample_is_twice_tx_sample: bool,
    rx_fir: RxFirDecimation,
    tx_fir: TxFirInterpolation,
    rate_governor: RateGovernor,
)
    requires
        auto_path_result(tx_sample_hz, rx_sample_is_twice_tx_sample, rx_fir, tx_fir, rate_governor)
            is Ok,
    ensures
        path_dac_clock(
            auto_path_result(
                tx_sample_hz,
                rx_sample_is_twice_tx_sample,
                rx_fir,
                tx_fir,
                rate_governor,
            )->Ok_0,
        ) <= limits::MAX_DAC_CLK,
{
    let r = auto_path_result(tx_sample_hz, rx_sample_is_twice_tx_sample, rx_fir, tx_fir, rate_governor);
    let s = governor_skip_rows(rate_governor);
    let skip = if first_valid_path(
        tx_sample_hz,
        rx_sample_is_twice_tx_sample,
        rx_fir,
        tx_fir,
        s,
        s,
        s,
    ) is Ok {
        s
    } else {
        0
    };
    let ab = lemma_first_valid_path_minimal(
        tx_sample_hz,
        rx_sample_is_twice_tx_sample,
        rx_fir,
        tx_fir,
        skip,
        skip,
        skip,
    );
    let rx_row = clock_chain_row(ab.0);
    let tx_row = clock_chain_row(ab.1);
    lemma_full_path_dac_clock_in_range(
        tx_sample_hz,
        rx_sample_is_twice_tx_sample,
        rhb3_for(rx_row.0),
        rx_row.1,
        rx_row.2,
        rx_fir,
        thb3_for(tx_row.0),
        tx_row.1,
        tx_row.2,
        tx_fir,
    );
}

/// The BB PLL clock of a configuration computed for `target` gives back `target` up to the
/// rounding of the fractional word: it is at most `target` and at least
/// `target - bb_refclk / BB_PLL_MODULUS - 1`, when the target over the BB PLL reference clock
/// fits the 8 bit integer word.
pub proof fn lemma_bb_pll_roundtrip(refclk_hz: u32, config: ClockConfig, target: u32)
    requires
        bb_refclk_of(refclk_hz, config) >= 128,
        target as int / bb_refclk_of(refclk_hz, config) <= 255,
        config.bb_pll.integer_freq_word == bb_pll_integer_word(
            bb_refclk_of(refclk_hz, config),
            target as int,
        ),
        config.bb_pll.fractional_freq_word == bb_pll_fractional_word(
            bb_refclk_of(refclk_hz, config),
            target as int,
        ),
    ensures
        target - bb_refclk_of(refclk_hz, config) / BB_PLL_MODULUS as int - 1 <= bb_pll_of(
            refclk_hz,
            config,
        ) <= target,
{
    let b = bb_refclk_of(refclk_hz, config);
    let t = target as int;
    let m = BB_PLL_MODULUS as int;
    let q = t / b;
    let rest = t - q * b;
    assert(0 <= rest < b) by (nonlinear_arith)
        requires
            b > 0,
            t >= 0,
            q == t / b,
            rest == t - q * b,
    ;
    assert(config.bb_pll.integer_freq_word == q);
    let f = m * rest / b;
    assert(0 <= f < m) by (nonlinear_arith)
        requires
            b > 0,
            0 <= rest < b,
            m > 0,
            f == m * rest / b,
    ;
    assert(config.bb_pll.fractional_freq_word == f);
    let x = b * f;
    assert(x <= m * rest && x > m * rest - b) by (nonlinear_arith)
        requires
            b > 0,
            rest >= 0,
            m > 0,
            f == m * rest / b,
            x == b * f,
    ;
    let k = b / m;
    let y = x / m;
    assert(y <= rest && y >= rest - k - 1) by (nonlinear_arith)
        requires
            m > 0,
            b >= 0,
            x >= 0,
            x <= m * rest,
            x > m * rest - b,
            k == b / m,
            y == x / m,
    ;
    assert(y < 0x1_0000_0000);
    assert(y % 0x1_0000_0000 == y);
    assert(bb_pll_of(refclk_hz, config) == b * q + y);
}

/// The VCO and LO clocks of an LO configuration: for an internal LO, the VCO clock is the
/// reference clock times the divider `pll_int + pll_frac / 8_388_593`, rounded down, and the LO
/// clock is the VCO clock over the VCO divider, rounded down; for an external LO the LO clock is
/// half the external VCO clock, rounded down.
pub proof fn lemma_lo_clock_from_vco(synth_clk: int, lo: LocalOscClockConfig)
    requires
        0 <= synth_clk <= u32::MAX,
        lo.wf(),
    ensures
        lo matches LocalOscClockConfig::Internal(c) ==> (lo_clocks(synth_clk, lo).0 matches Some(
            vco,
        ) && vco * 8_388_593 <= synth_clk * (c.pll_int * 8_388_593 + c.pll_frac) < (vco + 1)
            * 8_388_593 && lo_clocks(synth_clk, lo).1 * c.vco_div.divider_spec() <= vco < (
        lo_clocks(synth_clk, lo).1 + 1) * c.vco_div.divider_spec()),
        lo matches LocalOscClockConfig::External { external_vco_freq } ==> (lo_clocks(
            synth_clk,
            lo,
        ).0 is None && lo_clocks(synth_clk, lo).1 * 2 <= external_vco_freq < lo_clocks(
            synth_clk,
            lo,
        ).1 * 2 + 2),
{
    match lo {
        LocalOscClockConfig::External { external_vco_freq } => {},
        LocalOscClockConfig::Internal(c) => {
            let m = RFPLL_MODULUS as int;
            let a = synth_clk * c.pll_int;
            let x = synth_clk * c.pll_frac;
            let q = x / m;
            assert(0 <= a <= 0xFFFF_FFFF * 0x7FF) by (nonlinear_arith)
                requires
                    0 <= synth_clk <= 0xFFFF_FFFF,
                    0 <= c.pll_int < 0x800,
                    a == synth_clk * c.pll_int,
            ;
            assert(0 <= x <= 0xFFFF_FFFF * 0x7F_FFFF) by (nonlinear_arith)
                requires
                    0 <= synth_clk <= 0xFFFF_FFFF,
                    0 <= c.pll_frac < 0x80_0000,
                    x == synth_clk * c.pll_frac,
            ;
            assert(q * m <= x < (q + 1) * m && 0 <= q <= x) by (nonlinear_arith)
                requires
                    m == 8_388_593,
                    q == x / m,
                    x >= 0,
            ;
            let vco = a + q;
            assert(vco == pll_vco_clock(synth_clk, c));
            assert(0 <= vco < 0x1_0000_0000_0000_0000);
            assert(vco * m == a * m + q * m) by (nonlinear_arith)
                requires
                    vco == a + q,
            ;
            assert(synth_clk * (c.pll_int * m + c.pll_frac) == a * m + x) by (nonlinear_arith)
                requires
                    a == synth_clk * c.pll_int,
                    x == synth_clk * c.pll_frac,
            ;
            let d = c.vco_div.divider_spec() as int;
            let l = vco / d;
            assert(l * d <= vco < (l + 1) * d && 0 <= l <= vco) by (nonlinear_arith)
                requires
                    d >= 2,
                    l == vco / d,
                    vco >= 0,
            ;
            assert(lo_clocks(synth_clk, lo).1 == l);
        },
    }
}

/// In the clock tree, the RX and TX LO clocks of an internal LO times the VCO divider give back
/// the VCO clock up to the rounding of the division: `lo * divider <= vco < (lo + 1) * divider`.
pub proof fn lemma_clock_tree_lo_clocks(refclk_hz: u32, config: ClockConfig)
    requires
        clocks_fit(refclk_hz, config),
    ensures
        config.rx.lo matches LocalOscClockConfig::Internal(c) ==> (clocks_for(
            refclk_hz,
            config,
        ).rx.pll_vco matches Some(vco) && clocks_for(refclk_hz, config).rx.lo
            * c.vco_div.divider_spec() <= vco < (clocks_for(refclk_hz, config).rx.lo + 1)
            * c.vco_div.divider_spec()),
        config.tx.lo matches LocalOscClockConfig::Internal(c) ==> (clocks_for(
            refclk_hz,
            config,
        ).tx.pll_vco matches Some(vco) && clocks_for(refclk_hz, config).tx.lo
            * c.vco_div.divider_spec() <= vco < (clocks_for(refclk_hz, config).tx.lo + 1)
            * c.vco_div.divider_spec()),
{
    let rx_synth = scaled_clock(refclk_hz as int, config.ref_clk_scalers.rx_synth);
    let tx_synth = scaled_clock(refclk_hz as int, config.ref_clk_scalers.tx_synth);
    lemma_scaled_clock(refclk_hz as int, config.ref_clk_scalers.rx_synth);
    lemma_scaled_clock(refclk_hz as int, config.ref_clk_scalers.tx_synth);
    lemma_lo_clock_from_vco(rx_synth, config.rx.lo);
    lemma_lo_clock_from_vco(tx_synth, config.tx.lo);
}

/// An LO computed for `target_lo_clock`, whose VCO clock is a whole multiple of the reference
/// clock (no fractional part), runs at exactly `target_lo_clock`, with the VCO at the target
/// times the divider.
pub proof fn lemma_internal_lo_roundtrip(synth_clk: u32, target_lo_clock: u64)
    requires
        internal_lo_for(synth_clk as int, target_lo_clock as int) matches Ok(
            LocalOscClockConfig::Internal(p),
        ) && (target_lo_clock * p.vco_div.divider_spec()) % (synth_clk as int) == 0,
    ensures
        internal_lo_for(synth_clk as int, target_lo_clock as int) matches Ok(lo) && lo_clocks(
            synth_clk as int,
            lo,
        ).1 == target_lo_clock && lo_clocks(synth_clk as int, lo).0 == Some(
            (target_lo_clock * lo->Internal_0.vco_div.divider_spec()) as u64,
        ),
{
    let lo = internal_lo_for(synth_clk as int, target_lo_clock as int)->Ok_0;
    let p = lo->Internal_0;
    let d = p.vco_div.divider_spec() as int;
    let s = synth_clk as int;
    let f = target_lo_clock as int;
    let t = f * d;
    assert(lo_vco_divider(f) == Some(p.vco_div));
    assert(t <= limits::MAX_VCO_FREQ_HZ) by (nonlinear_arith)
        requires
            f * 2 <= limits::MAX_VCO_FREQ_HZ,
            lo_vco_divider(f) == Some(p.vco_div),
            d == p.vco_div.divider_spec(),
            t == f * d,
            f >= 0,
    ;
    let q = t / s;
    assert(q * s == t && q < 0x7FF) by (nonlinear_arith)
        requires
            s >= 9_999_000,
            t % s == 0,
            q == t / s,
            0 <= t <= 12_000_000_000,
    ;
    assert(p.pll_int == q);
    assert(t - q * s == 0);
    assert(p.pll_frac == 0);
    assert(pll_vco_clock(s, p) == t) by (nonlinear_arith)
        requires
            p.pll_int == q,
            p.pll_frac == 0,
            q * s == t,
            pll_vco_clock(s, p) == s * p.pll_int + s * p.pll_frac / RFPLL_MODULUS as int,
    ;
    assert(t / d == f) by (nonlinear_arith)
        requires
            t == f * d,
            d >= 2,
    ;
}

/// The values of a path calculation result.
pub open spec fn path_result_view(
    r: Result<BbClockPathConfigHelper, RfClockPathCalculationError>,
) -> Result<BbClockPathView, RfClockPathCalculationError> {
    match r {
        Ok(p) => Ok(p@),
        Err(e) => Err(e),
    }
}

/// The RX sample rate of a filter path is the TX sample rate, doubled if requested.
proof fn lemma_path_rx_sample(
    tx_sample_hz: u32,
    rx_sample_is_twice_tx_sample: bool,
    rhb3: Rhb3Decimation,
    rhb2: bool,
    rhb1: bool,
    rx_fir: RxFirDecimation,
    thb3: Thb3Interpolation,
    thb2: bool,
    thb1: bool,
    tx_fir: TxFirInterpolation,
)
    ensures
        path_clocks(
            tx_sample_hz,
            rx_sample_is_twice_tx_sample,
            rhb3,
            rhb2,
            rhb1,
            rx_fir,
            thb3,
            thb2,
            thb1,
            tx_fir,
        ).rx_sample == double_if(tx_sample_hz as int, rx_sample_is_twice_tx_sample),
{
    reveal(path_clocks);
}

/// `x` doubled if the stage is enabled.
fn double_if_enabled(x: u32, enabled: bool) -> (r: u32)
    requires
        x * 2 <= u32::MAX,
    ensures
        r == double_if(x as int, enabled),
{
    if enabled {
        x * 2
    } else {
        x
    }
}

/// Factor by which the TX FIR raises the clock in the path calculation.
fn path_tx_fir_factor_exec(tx_fir: TxFirInterpolation) -> (r: u32)
    ensures
        r == path_tx_fir_factor(tx_fir),
{
    match tx_fir {
        TxFirInterpolation::Mult1BypassFilter => 1,
        TxFirInterpolation::Mult1EnableFilter => 2,
        TxFirInterpolation::Mult2EnableFilter => 2,
        TxFirInterpolation::Mult4EnableFilter => 4,
    }
}

/// Walks the RX decimation chain from the RX sample rate up to the ADC clock, checking each
/// stage against its limit.
#[allow(clippy::too_many_arguments)]
fn rx_chain_clock(
    tx_sample_hz: u32,
    rx_sample_is_twice_tx_sample: bool,
    rx_sample_hz: u32,
    rhb3: Rhb3Decimation,
    rhb2: bool,
    rhb1: bool,
    rx_fir: RxFirDecimation,
    thb3: Thb3Interpolation,
    thb2: bool,
    thb1: bool,
    tx_fir: TxFirInterpolation,
) -> (r: Result<u32, RfClockPathCalculationError>)
    requires
        rx_sample_hz == path_clocks(
            tx_sample_hz,
            rx_sample_is_twice_tx_sample,
            rhb3,
            rhb2,
            rhb1,
            rx_fir,
            thb3,
            thb2,
            thb1,
            tx_fir,
        ).rx_sample,
        rx_sample_hz <= limits::MAX_BASEBAND_RATE,
    ensures
        ({
            let c = path_clocks(
                tx_sample_hz,
                rx_sample_is_twice_tx_sample,
                rhb3,
                rhb2,
                rhb1,
                rx_fir,
                thb3,
                thb2,
                thb1,
                tx_fir,
            );
            r == if c.rx_fir_out > limits::MAX_RX_HB1 {
                Err(RfClockPathCalculationError::RxHb1ClockTooFast)
            } else if c.rx_hb1_out > limits::MAX_RX_HB2 {
                Err(RfClockPathCalculationError::RxHb2ClockTooFast)
            } else if c.rx_hb2_out > limits::MAX_RX_HB3 {
                Err(RfClockPathCalculationError::RxHb3ClockTooFast)
            } else {
                Ok(c.adc as u32)
            }
        }),
        r matches Ok(adc) ==> adc <= 3 * limits::MAX_RX_HB3,
        r matches Ok(adc) ==> adc == path_clocks(
            tx_sample_hz,
            rx_sample_is_twice_tx_sample,
            rhb3,
            rhb2,
            rhb1,
            rx_fir,
            thb3,
            thb2,
            thb1,
            tx_fir,
        ).adc,
{
    reveal(path_clocks);
    let rx_fir_output_hz = rx_sample_hz * rx_fir.divisor();
    if rx_fir_output_hz > limits::MAX_RX_HB1 {
        return Err(RfClockPathCalculationError::RxHb1ClockTooFast);
    }
    let rx_half_band_1_output_hz = double_if_enabled(rx_fir_output_hz, rhb1);
    if rx_half_band_1_output_hz > limits::MAX_RX_HB2 {
        return Err(RfClockPathCalculationError::RxHb2ClockTooFast);
    }
    let rx_half_band_2_output_hz = double_if_enabled(rx_half_band_1_output_hz, rhb2);
    if rx_half_band_2_output_hz > limits::MAX_RX_HB3 {
        return Err(RfClockPathCalculationError::RxHb3ClockTooFast);
    }
    proof {
        assert(rx_half_band_2_output_hz * rhb3.divisor_spec() <= 3 * limits::MAX_RX_HB3) by (
        nonlinear_arith)
            requires
                rx_half_band_2_output_hz <= limits::MAX_RX_HB3,
                rhb3.divisor_spec() <= 3,
        ;
    }
    Ok(rx_half_band_2_output_hz * rhb3.divisor())
}

/// Walks the TX interpolation chain from the TX sample rate up to the DAC clock, checking each
/// stage against its limit.
#[allow(clippy::too_many_arguments)]
fn tx_chain_clock(
    tx_sample_hz: u32,
    rx_sample_is_twice_tx_sample: bool,
    rhb3: Rhb3Decimation,
    rhb2: bool,
    rhb1: bool,
    rx_fir: RxFirDecimation,
    thb3: Thb3Interpolation,
    thb2: bool,
    thb1: bool,
    tx_fir: TxFirInterpolation,
) -> (r: Result<u32, RfClockPathCalculationError>)
    requires
        tx_sample_hz <= limits::MAX_BASEBAND_RATE,
    ensures
        ({
            let c = path_clocks(
                tx_sample_hz,
                rx_sample_is_twice_tx_sample,
                rhb3,
                rhb2,
                rhb1,
                rx_fir,
                thb3,
                thb2,
                thb1,
                tx_fir,
            );
            r == if c.tx_fir_out > limits::MAX_TX_HB1 {
                Err(RfClockPathCalculationError::TxHb1ClockTooFast)
            } else if c.tx_hb1_out > limits::MAX_TX_HB2 {
                Err(RfClockPathCalculationError::TxHb2ClockTooFast)
            } else if c.tx_hb2_out > limits::MAX_TX_HB3 {
                Err(RfClockPathCalculationError::TxHb3ClockTooFast)
            } else {
                Ok(c.dac as u32)
            }
        }),
        r matches Ok(dac) ==> dac <= 3 * limits::MAX_TX_HB3,
        r matches Ok(dac) ==> dac == path_clocks(
            tx_sample_hz,
            rx_sample_is_twice_tx_sample,
            rhb3,
            rhb2,
            rhb1,
            rx_fir,
            thb3,
            thb2,
            thb1,
            tx_fir,
        ).dac,
{
    reveal(path_clocks);
    let tx_fir_output_hz = tx_sample_hz * path_tx_fir_factor_exec(tx_fir);
    if tx_fir_output_hz > limits::MAX_TX_HB1 {
        return Err(RfClockPathCalculationError::TxHb1ClockTooFast);
    }
    let tx_half_band_1_output_hz = double_if_enabled(tx_fir_output_hz, thb1);
    if tx_half_band_1_output_hz > limits::MAX_TX_HB2 {
        return Err(RfClockPathCalculationError::TxHb2ClockTooFast);
    }
    let tx_half_band_2_output_hz = double_if_enabled(tx_half_band_1_output_hz, thb2);
    if tx_half_band_2_output_hz > limits::MAX_TX_HB3 {
        return Err(RfClockPathCalculationError::TxHb3ClockTooFast);
    }
    proof {
        assert(tx_half_band_2_output_hz * thb3.multiplier_spec() <= 3 * limits::MAX_TX_HB3) by (
        nonlinear_arith)
            requires
                tx_half_band_2_output_hz <= limits::MAX_TX_HB3,
                thb3.multiplier_spec() <= 3,
        ;
    }
    Ok(tx_half_band_2_output_hz * thb3.multiplier())
}

/// Last steps of the path calculation: the DAC clock limit, the ADC/DAC relation, the ADC
/// divisor search and the ADC clock range.
#[allow(clippy::too_many_arguments)]
fn finish_path(
    adc: u32,
    dac: u32,
    rhb3: Rhb3Decimation,
    rhb2: bool,
    rhb1: bool,
    rx_fir: RxFirDecimation,
    thb3: Thb3Interpolation,
    thb2: bool,
    thb1: bool,
    tx_fir: TxFirInterpolation,
) -> (r: Result<BbClockPathConfigHelper, RfClockPathCalculationError>)
    requires
        adc <= 3 * limits::MAX_RX_HB3,
        dac <= 3 * limits::MAX_TX_HB3,
    ensures
        path_result_view(r) == path_tail_result(
            adc as int,
            dac as int,
            rhb3,
            rhb2,
            rhb1,
            rx_fir,
            thb3,
            thb2,
            thb1,
            tx_fir,
        ),
{
    reveal(path_tail_result);
    // If we get here and the clock is already too fast, configuration is invalid.
    if dac > limits::MAX_DAC_CLK {
        return Err(RfClockPathCalculationError::DacClockTooFast);
    }
    let dac_div2 = if adc == 2 * dac {
        true
    } else if adc == dac {
        false
    } else {
        return Err(RfClockPathCalculationError::InvalidPathConfig);
    };
    // The BB PLL feeds the ADC/DAC chain through a mandatory divider, so the BB PLL itself
    // has to run some multiple of `adc` faster. Pick the smallest divider (the lowest BB PLL
    // frequency) that lands in range.
    let (adc_div, bb_pll_clock_hz) = match find_adc_divisor(adc) {
        Some(found) => found,
        None => {
            // The smallest divisor gives the lowest possible BB PLL frequency; if even that
            // is below the minimum, no divisor can work.
            if adc * AdcDivisor::Div2.divisor() < limits::MIN_BBPLL_FREQ {
                return Err(RfClockPathCalculationError::ClocksTooSlow);
            }
            return Err(RfClockPathCalculationError::ClocksTooFast);
        },
    };
    if adc > limits::MAX_ADC_CLK {
        return Err(RfClockPathCalculationError::AdcClockTooFast);
    } else if adc < limits::MIN_ADC_CLK {
        return Err(RfClockPathCalculationError::AdcClockTooSlow);
    }
    Ok(
        BbClockPathConfigHelper {
            bb_pll_clock_hz,
            adc_div,
            dac_div2,
            rhb3,
            rhb2,
            rhb1,
            rx_fir,
            thb3,
            thb2,
            thb1,
            tx_fir,
        },
    )
}

/// The BB PLL clock for ADC clock `adc_clock` and ADC divisor `d`, if it lies in the BB PLL
/// range. A product beyond `u32` is far above the range.
fn bb_pll_for_divisor(adc_clock: u32, d: AdcDivisor) -> (r: Option<u32>)
    ensures
        match r {
            Some(v) => bb_pll_in_range(adc_clock as int, d) && v == adc_clock * d.divisor_spec(),
            None => !bb_pll_in_range(adc_clock as int, d),
        },
{
    match adc_clock.checked_mul(d.divisor()) {
        Some(value) => if value <= limits::MAX_BBPLL_FREQ && value >= limits::MIN_BBPLL_FREQ {
            Some(value)
        } else {
            None
        },
        None => None,
    }
}

/// Searches the ADC divisors from the smallest up for the first one which puts the BB PLL
/// clock for `adc_clock` into the BB PLL range, and returns it with that BB PLL clock.
fn find_adc_divisor(adc_clock: u32) -> (r: Option<(AdcDivisor, u32)>)
    ensures
        match r {
            Some((d, bb_pll)) => smallest_adc_divisor(adc_clock as int) == Some(d) && bb_pll
                == adc_clock * d.divisor_spec(),
            None => smallest_adc_divisor(adc_clock as int) is None,
        },
{
    if let Some(v) = bb_pll_for_divisor(adc_clock, AdcDivisor::Div2) {
        return Some((AdcDivisor::Div2, v));
    }
    if let Some(v) = bb_pll_for_divisor(adc_clock, AdcDivisor::Div4) {
        return Some((AdcDivisor::Div4, v));
    }
    if let Some(v) = bb_pll_for_divisor(adc_clock, AdcDivisor::Div8) {
        return Some((AdcDivisor::Div8, v));
    }
    if let Some(v) = bb_pll_for_divisor(adc_clock, AdcDivisor::Div16) {
        return Some((AdcDivisor::Div16, v));
    }
    if let Some(v) = bb_pll_for_divisor(adc_clock, AdcDivisor::Div32) {
        return Some((AdcDivisor::Div32, v));
    }
    if let Some(v) = bb_pll_for_divisor(adc_clock, AdcDivisor::Div64) {
        return Some((AdcDivisor::Div64, v));
    }
    None
}

/// Row `i` of the filter chain table.
fn clock_chain_table_row(i: usize) -> (r: ClockChainRow)
    requires
        i < CLOCK_CHAIN_ROWS,
    ensures
        (r.stage3, r.stage2_enabled, r.stage1_enabled) == clock_chain_row(i as int),
{
    match i {
        0 => ClockChainRow { stage3: 3, stage2_enabled: true, stage1_enabled: true },
        1 => ClockChainRow { stage3: 2, stage2_enabled: true, stage1_enabled: true },
        2 => ClockChainRow { stage3: 3, stage2_enabled: false, stage1_enabled: true },
        3 => ClockChainRow { stage3: 2, stage2_enabled: true, stage1_enabled: false },
        4 => ClockChainRow { stage3: 3, stage2_enabled: false, stage1_enabled: false },
        5 => ClockChainRow { stage3: 2, stage2_enabled: false, stage1_enabled: false },
        _ => ClockChainRow { stage3: 1, stage2_enabled: false, stage1_enabled: false },
    }
}

impl BbClockPathConfigHelper {
    /// Calculates and validates the BB PLL / ADC clock for a fully-specified digital filter path.
    ///
    /// The BB PLL always feeds the ADC/DAC chain through a mandatory divider (the smallest
    /// supported divider is `Div2`). This picks the smallest one for which the clock required at
    /// the input of the RX/TX digital filter chain, times the divider, lies within the BB PLL's
    /// supported frequency range, and uses that as the BB PLL target frequency.
    ///
    /// Returns [`RfClockPathCalculationError::InvalidPathConfig`] if the RX and TX paths do not
    /// result in a consistent ADC/DAC clock relationship, or
    /// [`RfClockPathCalculationError::ClocksTooSlow`]/[`RfClockPathCalculationError::ClocksTooFast`]
    /// if no supported ADC divisor brings the BB PLL clock into its valid range.
    #[allow(clippy::too_many_arguments)]
    #[verifier::rlimit(60)]
    pub fn calculate_and_validate_with_full_path(
        tx_sample_hz: u32,
        rx_sample_is_twice_tx_sample: bool,
        rhb3: Rhb3Decimation,
        rhb2: bool,
        rhb1: bool,
        rx_fir: RxFirDecimation,
        thb3: Thb3Interpolation,
        thb2: bool,
        thb1: bool,
        tx_fir: TxFirInterpolation,
    ) -> (r: Result<Self, RfClockPathCalculationError>)
        ensures
            path_result_view(r) == full_path_result(
                tx_sample_hz,
                rx_sample_is_twice_tx_sample,
                rhb3,
                rhb2,
                rhb1,
                rx_fir,
                thb3,
                thb2,
                thb1,
                tx_fir,
            ),
    {
        let ghost c = path_clocks(
            tx_sample_hz,
            rx_sample_is_twice_tx_sample,
            rhb3,
            rhb2,
            rhb1,
            rx_fir,
            thb3,
            thb2,
            thb1,
            tx_fir,
        );
        // Each variable below is named for the stage that just produced it, and feeds directly
        // into the next stage's calculation, walking the RX decimation chain from the baseband
        // sample rate up to the ADC clock and the TX interpolation chain from the baseband
        // sample rate up to the DAC clock. These stages are also known as CLKRF/R1/R2 (RX) and
        // CLKTF/T1/T2 (TX).
        proof {
            lemma_path_rx_sample(
                tx_sample_hz,
                rx_sample_is_twice_tx_sample,
                rhb3,
                rhb2,
                rhb1,
                rx_fir,
                thb3,
                thb2,
                thb1,
                tx_fir,
            );
        }
        if tx_sample_hz > limits::MAX_BASEBAND_RATE {
            return Err(RfClockPathCalculationError::TxSampleRateTooFast);
        }
        let rx_sample_hz = if rx_sample_is_twice_tx_sample {
            tx_sample_hz * 2
        } else {
            tx_sample_hz
        };
        if rx_sample_hz > limits::MAX_BASEBAND_RATE {
            return Err(RfClockPathCalculationError::RxSampleRateTooFast);
        }
        let adc_clock_from_rx = match rx_chain_clock(
            tx_sample_hz,
            rx_sample_is_twice_tx_sample,
            rx_sample_hz,
            rhb3,
            rhb2,
            rhb1,
            rx_fir,
            thb3,
            thb2,
            thb1,
            tx_fir,
        ) {
            Ok(clock) => clock,
            Err(e) => return Err(e),
        };
        let dac_clock_from_tx = match tx_chain_clock(
            tx_sample_hz,
            rx_sample_is_twice_tx_sample,
            rhb3,
            rhb2,
            rhb1,
            rx_fir,
            thb3,
            thb2,
            thb1,
            tx_fir,
        ) {
            Ok(clock) => clock,
            Err(e) => return Err(e),
        };
        finish_path(
            adc_clock_from_rx,
            dac_clock_from_tx,
            rhb3,
            rhb2,
            rhb1,
            rx_fir,
            thb3,
            thb2,
            thb1,
            tx_fir,
        )
    }

    /// RF clock path calculator.
    ///
    /// This searches the filter chain table starting from the row `rate_governor` selects and
    /// lets [`Self::calculate_and_validate_with_full_path`] confirm whether a given pairing
    /// actually produces a consistent ADC/DAC clock relationship. If `rate_governor` is
    /// [`RateGovernor::Nominal`] and no row from its starting point onward works, this retries
    /// once against the full table (i.e. falls back to [`RateGovernor::HighestOsr`]), so that
    /// `Nominal` never fails where the widest oversampling ratio would reach `MIN_ADC_CLK`.
    ///
    /// Returns [`RfClockPathCalculationError::CouldNotFindValidConfig`] if no combination works.
    pub fn calculate_and_validate(
        tx_sample_hz: u32,
        rx_sample_is_twice_tx_sample: bool,
        rx_fir: RxFirDecimation,
        tx_fir: TxFirInterpolation,
        rate_governor: RateGovernor,
    ) -> (r: Result<Self, RfClockPathCalculationError>)
        ensures
            path_result_view(r) == auto_path_result(
                tx_sample_hz,
                rx_sample_is_twice_tx_sample,
                rx_fir,
                tx_fir,
                rate_governor,
            ),
    {
        let config = Self::calculate_and_validate_from_row(
            tx_sample_hz,
            rx_sample_is_twice_tx_sample,
            rx_fir,
            tx_fir,
            rate_governor.skip_rows(),
        );
        let not_found = match config {
            Err(RfClockPathCalculationError::CouldNotFindValidConfig) => true,
            _ => false,
        };
        if rate_governor == RateGovernor::Nominal && not_found {
            return Self::calculate_and_validate_from_row(
                tx_sample_hz,
                rx_sample_is_twice_tx_sample,
                rx_fir,
                tx_fir,
                RateGovernor::HighestOsr.skip_rows(),
            );
        }
        config
    }

    /// Searches the filter chain table from row `skip_rows` on, RX row first, TX row second,
    /// and returns the first row pair that gives a valid path.
    fn calculate_and_validate_from_row(
        tx_sample_hz: u32,
        rx_sample_is_twice_tx_sample: bool,
        rx_fir: RxFirDecimation,
        tx_fir: TxFirInterpolation,
        skip_rows: usize,
    ) -> (r: Result<Self, RfClockPathCalculationError>)
        requires
            skip_rows < CLOCK_CHAIN_ROWS,
        ensures
            path_result_view(r) == first_valid_path(
                tx_sample_hz,
                rx_sample_is_twice_tx_sample,
                rx_fir,
                tx_fir,
                skip_rows as int,
                skip_rows as int,
                skip_rows as int,
            ),
    {
        let ghost skip = skip_rows as int;
        let mut i = skip_rows;
        while i < CLOCK_CHAIN_ROWS
            invariant
                skip == skip_rows as int,
                skip_rows <= i <= CLOCK_CHAIN_ROWS,
                skip_rows < CLOCK_CHAIN_ROWS,
                first_valid_path(
                    tx_sample_hz,
                    rx_sample_is_twice_tx_sample,
                    rx_fir,
                    tx_fir,
                    skip,
                    skip,
                    skip,
                ) == first_valid_path(
                    tx_sample_hz,
                    rx_sample_is_twice_tx_sample,
                    rx_fir,
                    tx_fir,
                    skip,
                    i as int,
                    skip,
                ),
            decreases CLOCK_CHAIN_ROWS - i,
        {
            let rx_row = clock_chain_table_row(i);
            let mut j = skip_rows;
            while j < CLOCK_CHAIN_ROWS
                invariant
                    skip == skip_rows as int,
                    skip_rows <= j <= CLOCK_CHAIN_ROWS,
                    skip_rows <= i < CLOCK_CHAIN_ROWS,
                    (rx_row.stage3, rx_row.stage2_enabled, rx_row.stage1_enabled)
                        == clock_chain_row(i as int),
                    first_valid_path(
                        tx_sample_hz,
                        rx_sample_is_twice_tx_sample,
                        rx_fir,
                        tx_fir,
                        skip,
                        skip,
                        skip,
                    ) == first_valid_path(
                        tx_sample_hz,
                        rx_sample_is_twice_tx_sample,
                        rx_fir,
                        tx_fir,
                        skip,
                        i as int,
                        j as int,
                    ),
                decreases CLOCK_CHAIN_ROWS - j,
            {
                let tx_row = clock_chain_table_row(j);
                let rhb3 = Rhb3Decimation::from_raw_divisor(rx_row.stage3).unwrap();
                let thb3 = Thb3Interpolation::from_raw_multiplier(tx_row.stage3).unwrap();
                assert(rhb3 == rhb3_for(rx_row.stage3));
                assert(thb3 == thb3_for(tx_row.stage3));
                let result = Self::calculate_and_validate_with_full_path(
                    tx_sample_hz,
                    rx_sample_is_twice_tx_sample,
                    rhb3,
                    rx_row.stage2_enabled,
                    rx_row.stage1_enabled,
                    rx_fir,
                    thb3,
                    tx_row.stage2_enabled,
                    tx_row.stage1_enabled,
                    tx_fir,
                );
                if let Ok(config) = result {
                    return Ok(config);
                }
                j += 1;
            }
            i += 1;
        }
        Err(RfClockPathCalculationError::CouldNotFindValidConfig)
    }

    /// BB PLL clock in Hz.
    pub fn bb_pll_clock_hz(&self) -> (r: u32)
        ensures
            r == self@.bb_pll_clock_hz,
    {
        self.bb_pll_clock_hz
    }

    /// Divisor from the BB PLL clock to the ADC clock.
    pub fn adc_div(&self) -> (r: AdcDivisor)
        ensures
            r == self@.adc_div,
    {
        self.adc_div
    }

    /// Whether the DAC clock is half of the ADC clock.
    pub fn dac_div2(&self) -> (r: bool)
        ensures
            r == self@.dac_div2,
    {
        self.dac_div2
    }

    /// The actual clock rate the DAC is programmed to, in Hz. For a configuration that the
    /// path calculation produced this is at most [`crate::limits::MAX_DAC_CLK`]
    /// ([`lemma_full_path_in_range`]).
    pub fn dac_clock_hz(&self) -> (r: u32)
        ensures
            r == path_dac_clock(self@),
    {
        let adc_clock_hz = self.bb_pll_clock_hz / self.adc_div.divisor();
        if self.dac_div2 {
            adc_clock_hz / 2
        } else {
            adc_clock_hz
        }
    }

    /// RX HB3 decimation.
    pub fn rhb3(&self) -> (r: Rhb3Decimation)
        ensures
            r == self@.rhb3,
    {
        self.rhb3
    }

    /// Whether the RX HB2 stage is enabled.
    pub fn rhb2(&self) -> (r: bool)
        ensures
            r == self@.rhb2,
    {
        self.rhb2
    }

    /// Whether the RX HB1 stage is enabled.
    pub fn rhb1(&self) -> (r: bool)
        ensures
            r == self@.rhb1,
    {
        self.rhb1
    }

    /// RX FIR decimation.
    pub fn rx_fir(&self) -> (r: RxFirDecimation)
        ensures
            r == self@.rx_fir,
    {
        self.rx_fir
    }

    /// TX HB3 interpolation.
    pub fn thb3(&self) -> (r: Thb3Interpolation)
        ensures
            r == self@.thb3,
    {
        self.thb3
    }

    /// Whether the TX HB2 stage is enabled.
    pub fn thb2(&self) -> (r: bool)
        ensures
            r == self@.thb2,
    {
        self.thb2
    }

    /// Whether the TX HB1 stage is enabled.
    pub fn thb1(&self) -> (r: bool)
        ensures
            r == self@.thb1,
    {
        self.thb1
    }

    /// TX FIR interpolation.
    pub fn tx_fir(&self) -> (r: TxFirInterpolation)
        ensures
            r == self@.tx_fir,
    {
        self.tx_fir
    }

    /// Builds the [`RxConfig`] matching this computed clock path. `lo` is not part of the
    /// BB PLL / digital filter path calculation and must be supplied separately.
    pub fn rx_config(&self, lo: LocalOscClockConfig) -> (r: RxConfig)
        ensures
            r == (RxConfig {
                lo,
                rhb3: self@.rhb3,
                rhb2: self@.rhb2,
                rhb1: self@.rhb1,
                rx_fir: self@.rx_fir,
            }),
    {
        RxConfig { lo, rhb3: self.rhb3, rhb2: self.rhb2, rhb1: self.rhb1, rx_fir: self.rx_fir }
    }

    /// Builds the [`TxConfig`] matching this computed clock path. `lo` is not part of the
    /// BB PLL / digital filter path calculation and must be supplied separately.
    pub fn tx_config(&self, lo: LocalOscClockConfig) -> (r: TxConfig)
        ensures
            r == (TxConfig {
                lo,
                dac_div2: self@.dac_div2,
                thb3: self@.thb3,
                thb2: self@.thb2,
                thb1: self@.thb1,
                tx_fir: self@.tx_fir,
            }),
    {
        TxConfig {
            lo,
            dac_div2: self.dac_div2,
            thb3: self.thb3,
            thb2: self.thb2,
            thb1: self.thb1,
            tx_fir: self.tx_fir,
        }
    }
}

/// Maximum number of TX FIR taps for a configuration: 16 per ratio step between the DAC clock
/// and the TX sample clock, capped at 64 for an interpolation of 1; [`None`] while the FIR is
/// bypassed.
pub open spec fn max_tx_fir_taps_for(refclk_hz: u32, config: ClockConfig) -> Option<u32> {
    let v = clocks_for(refclk_hz, config);
    let max = (v.tx.dac_clk / v.tx.tx_sample) * 16;
    if config.tx.tx_fir == TxFirInterpolation::Mult1BypassFilter {
        None
    } else if config.tx.tx_fir == TxFirInterpolation::Mult1EnableFilter {
        Some(if max < 64 { max as u32 } else { 64 })
    } else {
        Some(max as u32)
    }
}

/// Clock the RX FIR tap limit is taken from: the ADC clock, or half of it if HB3 decimates.
pub open spec fn rx_fir_limit_clock(v: ClocksView) -> int {
    if v.adc == v.rx.hb3 {
        v.adc as int
    } else {
        v.adc as int / 2
    }
}

/// Maximum number of RX FIR taps for a configuration: 16 per ratio step between the RX FIR
/// limit clock and the RX sample clock; [`None`] while the FIR is bypassed.
pub open spec fn max_rx_fir_taps_for(refclk_hz: u32, config: ClockConfig) -> Option<u32> {
    let v = clocks_for(refclk_hz, config);
    if config.rx.rx_fir == RxFirDecimation::Div1BypassFilter {
        None
    } else {
        Some(((rx_fir_limit_clock(v) / v.rx.rx_sample as int) * 16) as u32)
    }
}

impl ClockConfig {
    /// Whether [`Clocks::new`] can compute the clocks of this configuration from `refclk_hz`,
    /// see [`clocks_fit`].
    pub fn fits(&self, refclk_hz: u32) -> (r: bool)
        ensures
            r == clocks_fit(refclk_hz, *self),
    {
        let bb_mult = self.ref_clk_scalers.bb_refclk.mult();
        let rx_mult = self.ref_clk_scalers.rx_synth.mult();
        let tx_mult = self.ref_clk_scalers.tx_synth.mult();
        assert(bb_mult <= 2 && rx_mult <= 2 && tx_mult <= 2);
        if refclk_hz as u64 * bb_mult as u64 > u32::MAX as u64 {
            return false;
        }
        if refclk_hz as u64 * rx_mult as u64 > u32::MAX as u64 {
            return false;
        }
        if refclk_hz as u64 * tx_mult as u64 > u32::MAX as u64 {
            return false;
        }
        if self.bb_pll.fractional_freq_word >= 0x20_0000 {
            return false;
        }
        let lo_ok = |lo: &LocalOscClockConfig| -> (b: bool)
            ensures
                b == lo.wf(),
            {
                match lo {
                    LocalOscClockConfig::External { .. } => true,
                    LocalOscClockConfig::Internal(c) => c.pll_int < 0x800 && c.pll_frac < 0x80_0000,
                }
            };
        if !lo_ok(&self.rx.lo) || !lo_ok(&self.tx.lo) {
            return false;
        }
        let bb_refclk = refclk_hz * bb_mult / self.ref_clk_scalers.bb_refclk.div();
        proof {
            assert(bb_refclk as u64 * self.bb_pll.fractional_freq_word as u64 <= 0xFFFF_FFFF
                * 0x1F_FFFF) by (nonlinear_arith)
                requires
                    bb_refclk <= 0xFFFF_FFFF,
                    self.bb_pll.fractional_freq_word < 0x20_0000,
            ;
            assert(bb_refclk as u64 * self.bb_pll.integer_freq_word as u64 <= 0xFFFF_FFFF * 255)
                by (nonlinear_arith)
                requires
                    bb_refclk <= 0xFFFF_FFFF,
                    self.bb_pll.integer_freq_word <= 255,
            ;
        }
        let frac = ((bb_refclk as u64 * self.bb_pll.fractional_freq_word as u64)
            / BB_PLL_MODULUS as u64) % 0x1_0000_0000;
        let total = bb_refclk as u64 * self.bb_pll.integer_freq_word as u64 + frac;
        total <= u32::MAX as u64
    }
}

impl ClockConfig {
    /// Calculates and validates the BB PLL and ADC clocks for a fully specified half-band and FIR
    /// path.
    #[allow(clippy::too_many_arguments)]
    pub fn calculate_and_validate_rf_pll_from_sample_clock(
        tx_sample_hz: u32,
        rx_sample_is_twice_tx_sample: bool,
        rhb3: Rhb3Decimation,
        rhb2: bool,
        rhb1: bool,
        rx_fir: RxFirDecimation,
        thb3: Thb3Interpolation,
        thb2: bool,
        thb1: bool,
        tx_fir: TxFirInterpolation,
    ) -> (r: Result<BbClockPathConfigHelper, RfClockPathCalculationError>)
        ensures
            path_result_view(r) == full_path_result(
                tx_sample_hz,
                rx_sample_is_twice_tx_sample,
                rhb3,
                rhb2,
                rhb1,
                rx_fir,
                thb3,
                thb2,
                thb1,
                tx_fir,
            ),
    {
        BbClockPathConfigHelper::calculate_and_validate_with_full_path(
            tx_sample_hz,
            rx_sample_is_twice_tx_sample,
            rhb3,
            rhb2,
            rhb1,
            rx_fir,
            thb3,
            thb2,
            thb1,
            tx_fir,
        )
    }

    /// Maximum number of TX FIR taps which the clock ratio allows, or [`None`] while the TX FIR
    /// is bypassed. At most 64 taps are allowed for an interpolation of 1.
    pub fn max_tx_fir_taps(&self, reference_clk_rate: u32) -> (r: Option<u32>)
        requires
            clocks_fit(reference_clk_rate, *self),
            self.tx.tx_fir != TxFirInterpolation::Mult1BypassFilter ==> ({
                let v = clocks_for(reference_clk_rate, *self);
                v.tx.tx_sample != 0 && (v.tx.dac_clk / v.tx.tx_sample) * 16 <= u32::MAX
            }),
        ensures
            r == max_tx_fir_taps_for(reference_clk_rate, *self),
    {
        if self.tx.tx_fir == TxFirInterpolation::Mult1BypassFilter {
            return None;
        }
        let clocks = Clocks::new(reference_clk_rate, self);
        let max = (clocks.tx.dac_clk / clocks.tx.tx_sample) * 16;
        if self.tx.tx_fir == TxFirInterpolation::Mult1EnableFilter {
            return Some(
                if max < 64 {
                    max
                } else {
                    64
                },
            );
        }
        Some(max)
    }

    /// Maximum number of RX FIR taps which the clock ratio allows, or [`None`] while the RX FIR
    /// is bypassed.
    pub fn max_rx_fir_taps(&self, reference_clk_rate: u32) -> (r: Option<u32>)
        requires
            clocks_fit(reference_clk_rate, *self),
            self.rx.rx_fir != RxFirDecimation::Div1BypassFilter ==> ({
                let v = clocks_for(reference_clk_rate, *self);
                v.rx.rx_sample != 0 && (rx_fir_limit_clock(v) / v.rx.rx_sample as int) * 16
                    <= u32::MAX
            }),
        ensures
            r == max_rx_fir_taps_for(reference_clk_rate, *self),
    {
        if self.rx.rx_fir == RxFirDecimation::Div1BypassFilter {
            return None;
        }
        let clocks = Clocks::new(reference_clk_rate, self);
        // Only half of the ADC clock is available to the FIR if HB3 decimates.
        let adc_for_fir = if clocks.adc == clocks.rx.hb3 {
            clocks.adc
        } else {
            clocks.adc / 2
        };
        Some((adc_for_fir / clocks.rx.rx_sample) * 16)
    }
}

} // verus!
