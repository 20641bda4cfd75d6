//! Driver types and the computations of the driver: register values derived from the
//! configuration, conversions of values read back, and the search for the widest error-free
//! window of the digital interface tuning.
use vstd::prelude::*;

use crate::calib::{aux_dac_setting, aux_dac_output_mv, TX_MUTE_ATTENUATION_MDB};
use crate::clocks::{
    bb_pll_fractional_word, bb_pll_integer_word, charge_pump_value, clocks_fit, clocks_for,
    max_rx_fir_taps_for, max_tx_fir_taps_for, rx_fir_limit_clock, scaled_clock,
    BbClockPathConfigHelper, BbPllConfig, ClockConfig, RxConfig, RxFirDecimation, TxConfig,
    TxFirInterpolation,
};
use crate::config::AuxDacConfig;
use crate::bits::{field8, lemma_field_bounds, set_flag, with_field8};
use crate::regs;
use crate::types::RxPhaseConfig;

verus! {

/// Whether the entries `s .. s + l` of `f` all are `false` (no error).
pub open spec fn clean_window(f: Seq<bool>, s: int, l: int) -> bool {
    &&& 0 <= s
    &&& 0 <= l
    &&& s + l <= f.len()
    &&& forall|k: int| s <= k < s + l ==> !f[k]
}

/// Whether `(s, l)` is the first longest window of `false` entries that ends at or before
/// `bound`: the window is clean, no clean window before `bound` is longer, and no clean window
/// of the same length starts earlier. An empty window starts at 0.
pub open spec fn first_longest_window(f: Seq<bool>, bound: int, s: int, l: int) -> bool {
    &&& l == 0 ==> s == 0
    &&& clean_window(f, s, l)
    &&& s + l <= bound
    &&& forall|s2: int, l2: int| #[trigger]
        clean_window(f, s2, l2) && s2 + l2 <= bound ==> l2 <= l
    &&& l > 0 ==> forall|s2: int| 0 <= s2 < s && s2 + l <= bound ==> !#[trigger] clean_window(f, s2, l)
}

/// Closing the run of `false` entries at `p .. p + cur_len`, which starts after an error (or at
/// 0) and ends at `bound` or before an error at `bound - 1`, keeps the first longest window: the
/// run replaces the best window only if it is strictly longer.
proof fn lemma_close_run(f: Seq<bool>, p: int, cur_len: int, bound: int, bs: int, bl: int)
    requires
        first_longest_window(f, p, bs, bl),
        clean_window(f, p, cur_len),
        p == 0 || f[p - 1],
        bound == p + cur_len || (bound == p + cur_len + 1 && bound <= f.len() && f[p + cur_len]),
    ensures
        cur_len > bl ==> first_longest_window(f, bound, p, cur_len),
        cur_len <= bl ==> first_longest_window(f, bound, bs, bl),
{
    assert forall|s2: int, l2: int|
        clean_window(f, s2, l2) && s2 + l2 <= bound implies l2 <= (if cur_len > bl {
            cur_len
        } else {
            bl
        }) by {
        if l2 > 0 {
            if bound == p + cur_len + 1 && s2 + l2 == bound {
                assert(!f[p + cur_len]);
            } else if s2 < p && s2 + l2 > p {
                assert(!f[p - 1]);
            } else if s2 >= p {
            } else {
                assert(s2 + l2 <= p);
            }
        }
    }
    if cur_len > bl {
        assert forall|s2: int| 0 <= s2 < p && s2 + cur_len <= bound implies !#[trigger] clean_window(
            f,
            s2,
            cur_len,
        ) by {
            if clean_window(f, s2, cur_len) {
                if s2 + cur_len > p {
                    assert(!f[p - 1]);
                } else {
                    assert(cur_len <= bl);
                }
            }
        }
    } else {
        assert forall|s2: int| 0 <= s2 < bs && s2 + bl <= bound implies !#[trigger] clean_window(
            f,
            s2,
            bl,
        ) by {
            if bl > 0 && clean_window(f, s2, bl) {
                if s2 + bl > p {
                    if bound == p + cur_len + 1 && s2 + bl == bound {
                        assert(!f[p + cur_len]);
                    } else if s2 < p {
                        assert(!f[p - 1]);
                    } else {
                        assert(bl <= cur_len);
                        assert(s2 >= p);
                        assert(bs + bl <= p);
                        assert(false);
                    }
                }
            }
        }
    }
}

/// Finds the longest run of successful (`false`) entries in `failed` and returns its start and
/// length. Of several runs of the same length the first one wins, and without any successful
/// entry the result is `(0, 0)`.
pub fn find_longest_success_window(failed: &[bool]) -> (r: (usize, usize))
    ensures
        first_longest_window(failed@, failed@.len() as int, r.0 as int, r.1 as int),
{
    let mut current_start: Option<usize> = None;
    let mut current_len: usize = 0;
    let mut best_start: usize = 0;
    let mut best_len: usize = 0;
    let mut idx: usize = 0;
    while idx < failed.len()
        invariant
            idx <= failed@.len(),
            current_len <= idx,
            current_len > 0 ==> current_start == Some((idx - current_len) as usize),
            current_len == 0 ==> current_start is None,
            clean_window(failed@, idx - current_len, current_len as int),
            idx - current_len == 0 || failed@[idx - current_len - 1],
            first_longest_window(
                failed@,
                idx - current_len,
                best_start as int,
                best_len as int,
            ),
        decreases failed@.len() - idx,
    {
        let did_fail = failed[idx];
        if !did_fail {
            if current_start.is_none() {
                current_start = Some(idx);
            }
            current_len += 1;
        } else {
            proof {
                lemma_close_run(
                    failed@,
                    idx - current_len,
                    current_len as int,
                    idx + 1,
                    best_start as int,
                    best_len as int,
                );
            }
            if current_len > best_len {
                best_len = current_len;
                best_start = match current_start {
                    Some(s) => s,
                    None => 0,
                };
            }
            current_start = None;
            current_len = 0;
        }
        idx += 1;
    }
    proof {
        lemma_close_run(
            failed@,
            idx - current_len,
            current_len as int,
            idx as int,
            best_start as int,
            best_len as int,
        );
    }
    if current_len > best_len {
        best_len = current_len;
        best_start = match current_start {
            Some(s) => s,
            None => 0,
        };
    }
    (best_start, best_len)
}

/// Finds the widest run of `false` ("no error") entries in `field`, returning `(count, start)`.
/// Of several runs of the same length the first one wins, and without any error-free entry the
/// result is `(0, 0)`.
pub fn find_opt(field: &[bool; 16]) -> (r: (usize, usize))
    ensures
        first_longest_window(field@, 16, r.1 as int, r.0 as int),
{
    let (start, count) = find_longest_success_window(field.as_slice());
    (count, start)
}

/// Uniqueness of the first longest window: at most one window has that property.
pub proof fn lemma_first_longest_window_unique(
    f: Seq<bool>,
    bound: int,
    s1: int,
    l1: int,
    s2: int,
    l2: int,
)
    requires
        first_longest_window(f, bound, s1, l1),
        first_longest_window(f, bound, s2, l2),
    ensures
        s1 == s2,
        l1 == l2,
{
    assert(l1 <= l2 && l2 <= l1);
    if l1 > 0 {
        if s1 < s2 {
            assert(!clean_window(f, s1, l2));
        } else if s2 < s1 {
            assert(!clean_window(f, s2, l1));
        }
    }
}

// ---------------------------------------------------------------------------------------------
// Digital interface delay.
// ---------------------------------------------------------------------------------------------
/// A clock/data delay pair of `RxClockDataDelay`/`TxClockDataDelay`, each a 4 bit value.
#[derive(Debug, Clone, Copy, PartialEq, Eq, Structural)]
pub struct ClockDataDelay {
    /// Clock delay, bits 4 to 7 of the register.
    pub clock_delay: u8,
    /// Data delay, bits 0 to 3 of the register.
    pub data_delay: u8,
}

impl ClockDataDelay {
    /// Whether both delays fit in 4 bits.
    pub open spec fn valid(self) -> bool {
        self.clock_delay < 16 && self.data_delay < 16
    }

    /// Raw register value.
    pub open spec fn raw(self) -> int {
        self.clock_delay * 16 + self.data_delay
    }

    /// Decodes a raw `RxClockDataDelay`/`TxClockDataDelay` register value.
    pub fn from_register(raw: u8) -> (r: Self)
        ensures
            r == clock_data_delay_of(raw),
            r.valid(),
            r.raw() == raw,
    {
        ClockDataDelay { clock_delay: raw / 16, data_delay: raw % 16 }
    }

    /// Raw register value.
    pub fn register_value(&self) -> (r: u8)
        requires
            self.valid(),
        ensures
            r == self.raw(),
    {
        self.clock_delay * 16 + self.data_delay
    }
}

/// The interface delays found by the digital interface tuning, one pair for RX and one for TX.
#[derive(Debug, Clone, Copy, PartialEq, Eq, Structural)]
pub struct DigitalInterfaceDelay {
    rx: ClockDataDelay,
    tx: ClockDataDelay,
}

impl DigitalInterfaceDelay {
    /// RX delay pair.
    pub closed spec fn rx_spec(self) -> ClockDataDelay {
        self.rx
    }

    /// TX delay pair.
    pub closed spec fn tx_spec(self) -> ClockDataDelay {
        self.tx
    }

    /// Reads the delays from the `RxClockDataDelay` and `TxClockDataDelay` register values.
    pub fn from_registers(rx_raw: u8, tx_raw: u8) -> (r: Self)
        ensures
            r.rx_spec() == clock_data_delay_of(rx_raw),
            r.tx_spec() == clock_data_delay_of(tx_raw),
    {
        DigitalInterfaceDelay {
            rx: ClockDataDelay::from_register(rx_raw),
            tx: ClockDataDelay::from_register(tx_raw),
        }
    }

    /// The values to write to `RxClockDataDelay` and `TxClockDataDelay` to restore the delays.
    pub fn register_values(&self) -> (r: (u8, u8))
        requires
            self.rx_spec().valid(),
            self.tx_spec().valid(),
        ensures
            r.0 == self.rx_spec().raw(),
            r.1 == self.tx_spec().raw(),
    {
        (self.rx.register_value(), self.tx.register_value())
    }
}

/// The delay pair that a raw `RxClockDataDelay`/`TxClockDataDelay` value stands for.
pub open spec fn clock_data_delay_of(raw: u8) -> ClockDataDelay {
    ClockDataDelay { clock_delay: raw / 16, data_delay: raw % 16 }
}

/// Decoding a register value and encoding the delay pair again gives the register value back,
/// and every valid delay pair is the decoding of its register value: restoring the interface
/// delays that were read writes back the very values that were read.
pub proof fn lemma_interface_delay_roundtrip(raw: u8, c: ClockDataDelay)
    ensures
        clock_data_delay_of(raw).valid(),
        clock_data_delay_of(raw).raw() == raw,
        c.valid() ==> c.raw() < 256 && clock_data_delay_of(c.raw() as u8) == c,
{
}

/// The delay pair probed at step `j` (0 to 15) of sweep `row`: sweep 0 holds the clock delay at
/// 0 and sweeps the data delay up from 0, sweep 1 holds the clock delay at 15 and sweeps the data
/// delay down from 15.
pub fn interface_delay_probe(row: usize, j: usize) -> (r: ClockDataDelay)
    requires
        row < 2,
        j < 16,
    ensures
        r.valid(),
        row == 0 ==> r.clock_delay == 0 && r.data_delay == j,
        row == 1 ==> r.clock_delay == 15 && r.data_delay == 15 - j,
{
    if row == 0 {
        ClockDataDelay { clock_delay: 0, data_delay: j as u8 }
    } else {
        ClockDataDelay { clock_delay: 15, data_delay: (15 - j) as u8 }
    }
}

/// Picks the interface delay from the error maps of the two sweeps (see
/// [`interface_delay_probe`]; `true` is an error). With the first longest error-free window
/// `(start, count)` of each sweep, the result is the probed setting in the middle of the longer
/// window: when the second sweep's is longer, clock delay 15 with the data delay probed at step
/// `start + count / 2` of that sweep (15 minus it); else clock delay 0 with the data delay
/// `start + count / 2` of the first sweep. Without any error-free probe the result is `None`.
pub fn choose_interface_delay(field0: &[bool; 16], field1: &[bool; 16]) -> (r: Option<
    ClockDataDelay,
>)
    ensures
        forall|s0: int, c0: int, s1: int, c1: int|
            first_longest_window(field0@, 16, s0, c0) && first_longest_window(field1@, 16, s1, c1)
                ==> {
                &&& (r is None <==> c0 == 0 && c1 == 0)
                &&& r matches Some(d) ==> d.valid() && if c1 > c0 {
                    d.clock_delay == 15 && d.data_delay == 15 - (s1 + c1 / 2)
                } else {
                    d.clock_delay == 0 && d.data_delay == s0 + c0 / 2
                }
            },
{
    let (count0, start0) = find_opt(field0);
    let (count1, start1) = find_opt(field1);
    proof {
        assert forall|s0: int, c0: int, s1: int, c1: int|
            first_longest_window(field0@, 16, s0, c0) && first_longest_window(
                field1@,
                16,
                s1,
                c1,
            ) implies s0 == start0 && c0 == count0 && s1 == start1 && c1 == count1 by {
            lemma_first_longest_window_unique(
                field0@,
                16,
                s0,
                c0,
                start0 as int,
                count0 as int,
            );
            lemma_first_longest_window_unique(
                field1@,
                16,
                s1,
                c1,
                start1 as int,
                count1 as int,
            );
        }
    }
    if count0 == 0 && count1 == 0 {
        return None;
    }
    if count1 > count0 {
        Some(ClockDataDelay { clock_delay: 15, data_delay: (15 - (start1 + count1 / 2)) as u8 })
    } else {
        Some(ClockDataDelay { clock_delay: 0, data_delay: (start0 + count0 / 2) as u8 })
    }
}

// ---------------------------------------------------------------------------------------------
// Driver state and errors.
// ---------------------------------------------------------------------------------------------
/// Product ID and silicon revision, as read back from the `ProductId` register.
#[derive(Debug, Clone, Copy, PartialEq, Eq, Structural)]
pub struct ProductIdReg {
    raw: u8,
}

impl ProductIdReg {
    /// Raw register value.
    pub closed spec fn raw(self) -> u8 {
        self.raw
    }

    /// Wraps a raw register value.
    pub fn new_with_raw_value(raw: u8) -> (r: Self)
        ensures
            r.raw() == raw,
    {
        ProductIdReg { raw }
    }

    /// Raw register value.
    pub fn raw_value(&self) -> (r: u8)
        ensures
            r == self.raw(),
    {
        self.raw
    }

    /// Product ID: bits 3 to 7.
    pub fn product_id(&self) -> (r: u8)
        ensures
            r == self.raw() / 8,
    {
        self.raw / 8
    }

    /// Silicon revision: bits 0 to 2.
    pub fn rev(&self) -> (r: u8)
        ensures
            r == self.raw() % 8,
    {
        self.raw % 8
    }
}

/// Identifies one of the two auxiliary DACs (not the main TX signal DAC).
#[derive(Debug, Clone, Copy, PartialEq, Eq, Structural)]
pub enum Dac {
    /// First auxiliary DAC.
    Dac1,
    /// Second auxiliary DAC.
    Dac2,
}

/// A calibration or setup module, used in [`InitError::CalibrationTimeout`] to say which one
/// timed out.
#[derive(Debug, Clone, Copy, PartialEq, Eq, Structural)]
pub enum ModuleId {
    /// BB PLL.
    BbPll,
    /// TX RF PLL.
    TxPll,
    /// RX RF PLL.
    RxPll,
    /// TX quadrature calibration.
    TxQuad,
    /// RF DC offset calibration.
    RfDcOffset,
    /// RX baseband filter tuning.
    RxBbTune,
    /// TX baseband filter tuning.
    TxBbTune,
    /// Baseband DC offset calibration.
    BbDc,
}

/// Error of a hardware reset.
#[derive(Debug)]
pub enum ResetError<Spi, Gpio> {
    /// SPI error.
    Spi(Spi),
    /// GPIO error.
    Gpio(Gpio),
}

/// Error while reading or changing the ENSM state.
#[derive(Debug)]
pub enum EnsmError<Spi> {
    /// SPI error.
    SpiError(Spi),
    /// The state register holds an invalid ENSM state. The value is the raw 4 bit state.
    InvalidEnsmState(u8),
    /// The state transition timed out. The value is the last raw 4 bit state read.
    EnsmTransitionTimeout(u8),
}

/// Error of the bring-up, of an RF clock update and of the FIR setters.
#[derive(Debug)]
pub enum InitError<Spi> {
    /// SPI error.
    Spi(Spi),
    /// ENSM error.
    Ensm(EnsmError<Spi>),
    /// The calibration of the module timed out.
    CalibrationTimeout(ModuleId),
    /// The state register holds an invalid ENSM state.
    InvalidEnsmState,
    /// The RX FIR input clock must be equal to or twice the TX FIR output clock.
    UnsymetricFirClocks {
        /// TX FIR output clock in Hz.
        tx_fir_output_hz: u32,
        /// RX FIR input clock in Hz.
        rx_fir_input_hz: u32,
    },
    /// No gain table index was found for the TX quadrature calibration.
    NoGainTableIndexForTxQuadCalibrationFound,
    /// The TX FIR has more taps than the clock ratio allows.
    TxFirTapsExceedClockRatio {
        /// Number of taps in the configuration.
        taps: u32,
        /// Maximum number of taps for the clock ratio.
        max: u32,
    },
    /// The RX FIR has more taps than the clock ratio allows.
    RxFirTapsExceedClockRatio {
        /// Number of taps in the configuration.
        taps: u32,
        /// Maximum number of taps for the clock ratio.
        max: u32,
    },
}

/// Error of a temperature reading.
#[derive(Debug)]
pub enum TemperatureReadError<Spi> {
    /// SPI error.
    Spi(Spi),
    /// Manual mode only: the temperature sensor valid signal did not toggle within the timeout.
    Timeout,
}

/// Error of the digital interface tuning.
#[derive(Debug)]
pub enum TuneError<Spi> {
    /// SPI error.
    Spi(Spi),
    /// ENSM error.
    Ensm(EnsmError<Spi>),
    /// No interface delay window without errors was found.
    NoValidWindow,
    /// Tuning across the fixed calibration rates is not implemented yet.
    RateSweepUnsupported,
}

/// The ENSM (Enable State Machine) state: a state reported by the `State` register, or the fully
/// powered down sleep state, which that register does not report.
#[derive(Debug, PartialEq, Eq, Clone, Copy, Structural)]
pub enum EnsmState {
    /// State reported by the state register.
    DeviceState(regs::EnsmState),
    /// Fully powered down.
    Sleep,
}

impl From<regs::EnsmState> for EnsmState {
    fn from(value: regs::EnsmState) -> (r: Self) {
        EnsmState::DeviceState(value)
    }
}

impl vstd::std_specs::convert::FromSpecImpl<regs::EnsmState> for EnsmState {
    open spec fn obeys_from_spec() -> bool {
        true
    }

    open spec fn from_spec(v: regs::EnsmState) -> Self {
        EnsmState::DeviceState(v)
    }
}

/// Auxiliary DAC output values in millivolts: `.0` is [`Dac::Dac1`], `.1` is [`Dac::Dac2`].
#[derive(Debug, Clone, Copy, PartialEq, Eq, Structural)]
pub struct AuxDacValuesMv(pub Option<u16>, pub Option<u16>);

/// The output voltages that the auxiliary DAC setup reports for the configured DACs.
pub fn aux_dac_values(config: &AuxDacConfig) -> (r: AuxDacValuesMv)
    requires
        config.dac_config[0] matches Some(c) ==> c.default_value_m_v <= 4_296_728,
        config.dac_config[1] matches Some(c) ==> c.default_value_m_v <= 4_296_728,
    ensures
        r.0 == (match config.dac_config[0] {
            Some(c) => Some((aux_dac_output_mv(c.default_value_m_v) as u32) as u16),
            None => None,
        }),
        r.1 == (match config.dac_config[1] {
            Some(c) => Some((aux_dac_output_mv(c.default_value_m_v) as u32) as u16),
            None => None,
        }),
{
    let v0 = match &config.dac_config[0] {
        Some(c) => Some(aux_dac_setting(c.default_value_m_v).value_mv),
        None => None,
    };
    let v1 = match &config.dac_config[1] {
        Some(c) => Some(aux_dac_setting(c.default_value_m_v).value_mv),
        None => None,
    };
    AuxDacValuesMv(v0, v1)
}

/// The `AuxdacEnableCtrl` register after the auxiliary DAC setup. A configured DAC is enabled and
/// follows the ENSM in the states its configuration asks for; an unconfigured one is disabled
/// everywhere. Bit 7/6: DAC 2/1 disabled, bit 5/4: not in TX, bit 3/2: not in RX, bit 1/0: not in
/// alert.
pub open spec fn aux_dac_enable_ctrl_value(config: AuxDacConfig) -> int {
    let d1 = config.dac_config[0];
    let d2 = config.dac_config[1];
    (if d2 is None { 128int } else { 0 }) + (if d1 is None { 64int } else { 0 }) + (if d2 is None
        || !d2->0.active_in_tx { 32int } else { 0 }) + (if d1 is None || !d1->0.active_in_tx {
        16int
    } else {
        0
    }) + (if d2 is None || !d2->0.active_in_rx { 8int } else { 0 }) + (if d1 is None
        || !d1->0.active_in_rx { 4int } else { 0 }) + (if d2 is None || !d2->0.active_in_alert {
        2int
    } else {
        0
    }) + (if d1 is None || !d1->0.active_in_alert { 1int } else { 0 })
}

fn flag(b: bool, w: u8) -> (r: u8)
    ensures
        r == (if b { w } else { 0 }),
{
    if b {
        w
    } else {
        0
    }
}

/// Computes the `AuxdacEnableCtrl` register after the auxiliary DAC setup.
pub fn aux_dac_enable_ctrl(config: &AuxDacConfig) -> (r: u8)
    ensures
        r == aux_dac_enable_ctrl_value(*config),
{
    let (n1, tx1, rx1, al1) = match &config.dac_config[0] {
        Some(c) => (false, !c.active_in_tx, !c.active_in_rx, !c.active_in_alert),
        None => (true, true, true, true),
    };
    let (n2, tx2, rx2, al2) = match &config.dac_config[1] {
        Some(c) => (false, !c.active_in_tx, !c.active_in_rx, !c.active_in_alert),
        None => (true, true, true, true),
    };
    flag(n2, 128) + flag(n1, 64) + flag(tx2, 32) + flag(tx1, 16) + flag(rx2, 8) + flag(rx1, 4)
        + flag(al2, 2) + flag(al1, 1)
}

// ---------------------------------------------------------------------------------------------
// TX mute.
// ---------------------------------------------------------------------------------------------
/// One TX attenuation write: the attenuation in milli-dB and the transmitters it goes to.
#[derive(Debug, Clone, Copy, PartialEq, Eq, Structural)]
pub struct TxAttenWrite {
    /// Attenuation in milli-dB.
    pub atten_md_b: u32,
    /// Write to TX1.
    pub tx1: bool,
    /// Write to TX2.
    pub tx2: bool,
}

/// The attenuation write that mutes both transmitters.
pub fn tx_mute_write() -> (r: TxAttenWrite)
    ensures
        r == (TxAttenWrite { atten_md_b: TX_MUTE_ATTENUATION_MDB, tx1: true, tx2: true }),
{
    TxAttenWrite { atten_md_b: TX_MUTE_ATTENUATION_MDB, tx1: true, tx2: true }
}

/// The TX1/TX2 attenuation that was active before TX was muted; it is restored on unmuting.
#[derive(Debug)]
pub struct TxMuteGuard {
    tx1_md_b: u32,
    tx2_md_b: u32,
    restored: bool,
}

impl TxMuteGuard {
    /// TX1 attenuation before muting, in milli-dB.
    pub closed spec fn tx1_spec(&self) -> u32 {
        self.tx1_md_b
    }

    /// TX2 attenuation before muting, in milli-dB.
    pub closed spec fn tx2_spec(&self) -> u32 {
        self.tx2_md_b
    }

    /// Whether the attenuation was restored.
    pub closed spec fn restored_spec(&self) -> bool {
        self.restored
    }

    /// A guard holding the attenuation read before muting.
    pub fn new(tx1_md_b: u32, tx2_md_b: u32) -> (r: Self)
        ensures
            r.tx1_spec() == tx1_md_b,
            r.tx2_spec() == tx2_md_b,
            !r.restored_spec(),
    {
        TxMuteGuard { tx1_md_b, tx2_md_b, restored: false }
    }

    /// Whether the attenuation was restored.
    pub fn is_restored(&self) -> (r: bool)
        ensures
            r == self.restored_spec(),
    {
        self.restored
    }

    /// Marks the guard as restored and returns the writes that restore the attenuation: one write
    /// to both transmitters when both had the same attenuation, else one write to each.
    pub fn unmute(&mut self) -> (r: Vec<TxAttenWrite>)
        ensures
            final(self).restored_spec(),
            final(self).tx1_spec() == old(self).tx1_spec(),
            final(self).tx2_spec() == old(self).tx2_spec(),
            old(self).tx1_spec() == old(self).tx2_spec() ==> r@ == seq![
                TxAttenWrite { atten_md_b: old(self).tx1_spec(), tx1: true, tx2: true },
            ],
            old(self).tx1_spec() != old(self).tx2_spec() ==> r@ == seq![
                TxAttenWrite { atten_md_b: old(self).tx1_spec(), tx1: true, tx2: false },
                TxAttenWrite { atten_md_b: old(self).tx2_spec(), tx1: false, tx2: true },
            ],
    {
        self.restored = true;
        let mut v: Vec<TxAttenWrite> = Vec::new();
        if self.tx1_md_b == self.tx2_md_b {
            v.push(TxAttenWrite { atten_md_b: self.tx1_md_b, tx1: true, tx2: true });
        } else {
            v.push(TxAttenWrite { atten_md_b: self.tx1_md_b, tx1: true, tx2: false });
            v.push(TxAttenWrite { atten_md_b: self.tx2_md_b, tx1: false, tx2: true });
        }
        v
    }
}

/// `BistConfig2` for the internal TX to RX loopback of the digital interface tuning: the loop
/// test enabled (bit 0), and its output enable for single port half duplex (bit 7) set exactly
/// when `ParallelPortConf3` selects single port mode (bit 2) with half duplex (bit 3); the other
/// bits keep their value.
pub fn internal_loopback_register(parallel_port_conf_3: u8, bist_config_2: u8) -> (r: u8)
    ensures
        r == with_field8(
            with_field8(
                bist_config_2,
                7,
                1,
                if field8(parallel_port_conf_3, 2, 1) == 1 && field8(parallel_port_conf_3, 3, 1)
                    == 1 {
                    1u8
                } else {
                    0u8
                },
            ),
            0,
            1,
            1,
        ),
{
    proof {
        lemma_field_bounds();
    }
    let single_port = (parallel_port_conf_3 >> 2) & 1 == 1;
    let half_duplex = (parallel_port_conf_3 >> 3) & 1 == 1;
    let v = set_flag(bist_config_2, 7, single_port && half_duplex);
    set_flag(v, 0, true)
}

/// `BistConfig` while the RX side of the digital interface is tuned: PRBS injection (BIST
/// enabled, bit 0) at the ADC digital output (control point 2, bits 2 and 3).
pub const RX_TUNE_BIST_CONFIG: u8 = 0x09;

/// `BistConfig2` before the RX side of the digital interface is tuned: the data port loop test
/// (bit 0) and its output enable (bit 7) cleared; the other bits keep their value.
pub fn loopback_disabled_register(bist_config_2: u8) -> (r: u8)
    ensures
        r == with_field8(with_field8(bist_config_2, 7, 1, 0), 0, 1, 0),
{
    let v = set_flag(bist_config_2, 7, false);
    set_flag(v, 0, false)
}

/// `EnsmMode` while the digital interface is tuned: FDD mode (bit 0), so that both
/// synthesizers run.
pub const TUNE_ENSM_MODE: u8 = 0x01;

/// `EnsmConfig2` while the digital interface is tuned: the external FDD control (bit 7), the
/// TXNRX SPI control (bit 4, RX) and the synthesizer pin control (bit 3) cleared and the dual
/// synthesizer mode (bit 2) set; the synthesizer power downs and ready masks keep their value.
/// The value before is written back after the tuning.
pub fn tune_ensm_config_2(ensm_config_2: u8) -> (r: u8)
    ensures
        r == with_field8(
            with_field8(with_field8(with_field8(ensm_config_2, 7, 1, 0), 4, 1, 0), 3, 1, 0),
            2,
            1,
            1,
        ),
{
    let v = set_flag(ensm_config_2, 7, false);
    let v = set_flag(v, 4, false);
    let v = set_flag(v, 3, false);
    set_flag(v, 2, true)
}

// ---------------------------------------------------------------------------------------------
// Runtime clock changes.
// ---------------------------------------------------------------------------------------------
/// The clock configuration for a new clock path at runtime: the reference clock scalers and LOs
/// stay those of `clock`; the BB PLL is computed for the path's BB PLL clock from the scaled
/// reference clock, and the ADC divisor and filter stages are those of the path.
pub fn clock_for_path(
    clock: &ClockConfig,
    reference_clk_rate: u32,
    path: &BbClockPathConfigHelper,
) -> (r: ClockConfig)
    requires
        reference_clk_rate * clock.ref_clk_scalers.bb_refclk.mult_spec() <= u32::MAX,
        scaled_clock(reference_clk_rate as int, clock.ref_clk_scalers.bb_refclk) >= 128,
    ensures
        r.ref_clk_scalers == clock.ref_clk_scalers,
        r.bb_pll.wf(),
        r.bb_pll.integer_freq_word == bb_pll_integer_word(
            scaled_clock(reference_clk_rate as int, clock.ref_clk_scalers.bb_refclk),
            path@.bb_pll_clock_hz as int,
        ),
        r.bb_pll.fractional_freq_word == bb_pll_fractional_word(
            scaled_clock(reference_clk_rate as int, clock.ref_clk_scalers.bb_refclk),
            path@.bb_pll_clock_hz as int,
        ),
        r.bb_pll.charge_pump.value() == charge_pump_value(
            path@.bb_pll_clock_hz,
            scaled_clock(reference_clk_rate as int, clock.ref_clk_scalers.bb_refclk) as u32,
        ),
        r.adc == path@.adc_div,
        r.rx == (RxConfig {
            lo: clock.rx.lo,
            rhb3: path@.rhb3,
            rhb2: path@.rhb2,
            rhb1: path@.rhb1,
            rx_fir: path@.rx_fir,
        }),
        r.tx == (TxConfig {
            lo: clock.tx.lo,
            dac_div2: path@.dac_div2,
            thb3: path@.thb3,
            thb2: path@.thb2,
            thb1: path@.thb1,
            tx_fir: path@.tx_fir,
        }),
{
    let ref_clk_scalers = clock.ref_clk_scalers;
    let bb_pll_ref_clock = ref_clk_scalers.calculate_bb_pll_synth_clock(reference_clk_rate);
    ClockConfig {
        ref_clk_scalers,
        bb_pll: BbPllConfig::calculate(bb_pll_ref_clock, path.bb_pll_clock_hz()),
        adc: path.adc_div(),
        rx: path.rx_config(clock.rx.lo),
        tx: path.tx_config(clock.tx.lo),
    }
}

// ---------------------------------------------------------------------------------------------
// FIR taps.
// ---------------------------------------------------------------------------------------------
/// Checks the number of TX and RX FIR taps against the limits of `clock`. The limits do not apply
/// while a FIR is bypassed, nor to a FIR without loaded taps (`None`). The TX FIR is checked
/// first.
pub fn check_fir_taps<E>(
    clock: &ClockConfig,
    reference_clk_rate: u32,
    tx_taps: Option<u8>,
    rx_taps: Option<u8>,
) -> (r: Result<(), InitError<E>>)
    requires
        clocks_fit(reference_clk_rate, *clock),
        tx_taps is Some && clock.tx.tx_fir != TxFirInterpolation::Mult1BypassFilter ==> ({
            let v = clocks_for(reference_clk_rate, *clock);
            v.tx.tx_sample != 0 && (v.tx.dac_clk / v.tx.tx_sample) * 16 <= u32::MAX
        }),
        rx_taps is Some && clock.rx.rx_fir != RxFirDecimation::Div1BypassFilter ==> ({
            let v = clocks_for(reference_clk_rate, *clock);
            v.rx.rx_sample != 0 && (rx_fir_limit_clock(v) / v.rx.rx_sample as int) * 16
                <= u32::MAX
        }),
    ensures
        ({
            let tx_over = tx_taps matches Some(t) && max_tx_fir_taps_for(
                reference_clk_rate,
                *clock,
            ) matches Some(m) && t > m;
            let rx_over = rx_taps matches Some(t) && max_rx_fir_taps_for(
                reference_clk_rate,
                *clock,
            ) matches Some(m) && t > m;
            &&& r is Ok <==> !tx_over && !rx_over
            &&& tx_over ==> r == (Err::<(), InitError<E>>(
                InitError::TxFirTapsExceedClockRatio {
                    taps: tx_taps->0 as u32,
                    max: max_tx_fir_taps_for(reference_clk_rate, *clock)->0,
                },
            ))
            &&& !tx_over && rx_over ==> r == (Err::<(), InitError<E>>(
                InitError::RxFirTapsExceedClockRatio {
                    taps: rx_taps->0 as u32,
                    max: max_rx_fir_taps_for(reference_clk_rate, *clock)->0,
                },
            ))
        }),
{
    if let Some(taps) = tx_taps {
        if let Some(max) = clock.max_tx_fir_taps(reference_clk_rate) {
            if taps as u32 > max {
                return Err(InitError::TxFirTapsExceedClockRatio { taps: taps as u32, max });
            }
        }
    }
    if let Some(taps) = rx_taps {
        if let Some(max) = clock.max_rx_fir_taps(reference_clk_rate) {
            if taps as u32 > max {
                return Err(InitError::RxFirTapsExceedClockRatio { taps: taps as u32, max });
            }
        }
    }
    Ok(())
}

/// A driver instance before the bring-up has run: the SPI device, the reset pin and the delay
/// source it works with.
pub struct Ad9361Uninit<Spi, ResetPin, Delay> {
    spi: Spi,
    reset_pin: ResetPin,
    delay: Delay,
}

impl<Spi, ResetPin, Delay> Ad9361Uninit<Spi, ResetPin, Delay> {
    /// The SPI device.
    pub closed spec fn spi_spec(&self) -> Spi {
        self.spi
    }

    /// The reset pin.
    pub closed spec fn reset_pin_spec(&self) -> ResetPin {
        self.reset_pin
    }

    /// The delay source.
    pub closed spec fn delay_spec(&self) -> Delay {
        self.delay
    }

    /// Creates a new, unconfigured driver.
    pub fn new(spi: Spi, reset_pin: ResetPin, delay: Delay) -> (r: Self)
        ensures
            r.spi_spec() == spi,
            r.reset_pin_spec() == reset_pin,
            r.delay_spec() == delay,
    {
        Ad9361Uninit { spi, reset_pin, delay }
    }

    /// Hands back the SPI device, the reset pin and the delay source.
    pub fn into_parts(self) -> (r: (Spi, ResetPin, Delay))
        ensures
            r == (self.spi_spec(), self.reset_pin_spec(), self.delay_spec()),
    {
        (self.spi, self.reset_pin, self.delay)
    }
}

// ---------------------------------------------------------------------------------------------
// ENSM state changes.
// ---------------------------------------------------------------------------------------------
/// Bit `i` of `x`.
pub open spec fn bit8(x: u8, i: u8) -> bool {
    (x >> i) & 1 == 1
}

proof fn lemma_update_bits(x: u8, set: u8, clear: u8, i: u8)
    requires
        i < 8,
    ensures
        bit8((x & !clear) | set, i) == (bit8(set, i) || (!bit8(clear, i) && bit8(x, i))),
{
    assert(((((x & !clear) | set) >> i) & 1 == 1) == (((set >> i) & 1 == 1) || (!((clear >> i)
        & 1 == 1) && ((x >> i) & 1 == 1)))) by (bit_vector)
        requires
            i < 8,
    ;
}

/// `x` with the bits of `set` set and then the bits of `clear` that are not in `set` cleared.
fn update_bits(x: u8, set: u8, clear: u8) -> (r: u8)
    ensures
        forall|i: u8| i < 8 ==> bit8(r, i) == (bit8(set, i) || (!bit8(clear, i) && bit8(x, i))),
{
    let r = (x & !clear) | set;
    assert forall|i: u8| i < 8 implies bit8(r, i) == (bit8(set, i) || (!bit8(clear, i) && bit8(
        x,
        i,
    ))) by {
        lemma_update_bits(x, set, clear, i);
    }
    r
}

proof fn lemma_bit_constants(i: u8)
    requires
        i < 8,
    ensures
        bit8(0x01, i) == (i == 0),
        bit8(0x04, i) == (i == 2),
        bit8(0x08, i) == (i == 3),
        bit8(0x10, i) == (i == 4),
        bit8(0x20, i) == (i == 5),
        bit8(0x40, i) == (i == 6),
        bit8(0x60, i) == (i == 5 || i == 6),
        bit8(0x61, i) == (i == 0 || i == 5 || i == 6),
        bit8(0x65, i) == (i == 0 || i == 2 || i == 5 || i == 6),
        bit8(0x71, i) == (i == 0 || i == 4 || i == 5 || i == 6),
        bit8(0x11, i) == (i == 0 || i == 4),
        bit8(0x28, i) == (i == 3 || i == 5),
        bit8(0x03, i) == (i == 0 || i == 1),
        bit8(0x21, i) == (i == 0 || i == 5),
        bit8(0x41, i) == (i == 0 || i == 6),
        bit8(0x00, i) == false,
{
    assert({
        &&& bit8(0x01, i) == (i == 0)
        &&& bit8(0x04, i) == (i == 2)
        &&& bit8(0x08, i) == (i == 3)
        &&& bit8(0x10, i) == (i == 4)
        &&& bit8(0x20, i) == (i == 5)
        &&& bit8(0x40, i) == (i == 6)
        &&& bit8(0x60, i) == (i == 5 || i == 6)
        &&& bit8(0x61, i) == (i == 0 || i == 5 || i == 6)
        &&& bit8(0x65, i) == (i == 0 || i == 2 || i == 5 || i == 6)
        &&& bit8(0x71, i) == (i == 0 || i == 4 || i == 5 || i == 6)
        &&& bit8(0x11, i) == (i == 0 || i == 4)
        &&& bit8(0x28, i) == (i == 3 || i == 5)
        &&& bit8(0x03, i) == (i == 0 || i == 1)
        &&& bit8(0x21, i) == (i == 0 || i == 5)
        &&& bit8(0x41, i) == (i == 0 || i == 6)
        &&& bit8(0x00, i) == false
    }) by (bit_vector)
        requires
            i < 8,
    ;
}

/// `EnsmConfig1` value that forces the alert state: `to_alert` (bit 0) and
/// `force_alert_state` (bit 2). It is written before every forced state change.
pub const ENSM_CONFIG1_FORCE_ALERT: u8 = 0x05;

/// Whether the ENSM can be forced into `target`: the alert, TX, FDD and RX states.
pub open spec fn ensm_forcible(target: regs::EnsmState) -> bool {
    target == regs::EnsmState::Alert || target == regs::EnsmState::Tx || target
        == regs::EnsmState::Fdd || target == regs::EnsmState::Rx
}

/// The `EnsmConfig1` value that forces the ENSM from its current configuration into `target`:
/// `to_alert` (bit 0) is set only for the alert state, which also clears `force_tx_on` (bit 5)
/// and `force_rx_on` (bit 6); TX and FDD set `force_tx_on`, RX sets `force_rx_on`; with pin
/// control the pin control bit (bit 4) is cleared; the other bits stay. `None` for a state that
/// cannot be forced.
pub fn ensm_force_config1(config1: u8, target: regs::EnsmState, pin_control: bool) -> (r: Option<
    u8,
>)
    ensures
        r is None <==> !ensm_forcible(target),
        r matches Some(v) ==> forall|i: u8|
            i < 8 ==> bit8(v, i) == (if i == 0 {
                target == regs::EnsmState::Alert
            } else if i == 4 && pin_control {
                false
            } else if i == 5 && (target == regs::EnsmState::Tx || target == regs::EnsmState::Fdd) {
                true
            } else if i == 6 && target == regs::EnsmState::Rx {
                true
            } else if (i == 5 || i == 6) && target == regs::EnsmState::Alert {
                false
            } else {
                bit8(config1, i)
            }),
{
    let pin: u8 = if pin_control {
        0x10
    } else {
        0
    };
    let (set, clear): (u8, u8) = match target {
        regs::EnsmState::Alert => (0x01, 0x61 | pin),
        regs::EnsmState::Tx | regs::EnsmState::Fdd => (0x20, 0x01 | pin),
        regs::EnsmState::Rx => (0x40, 0x01 | pin),
        _ => {
            return None;
        },
    };
    let v = update_bits(config1, set, clear);
    proof {
        assert forall|i: u8| i < 8 implies bit8(0x61u8 | pin, i) == (i == 0 || i == 5 || i == 6
            || (pin_control && i == 4)) by {
            lemma_bit_constants(i);
            if pin_control {
                assert(0x61u8 | 0x10u8 == 0x71u8) by (bit_vector);
            } else {
                assert(0x61u8 | 0u8 == 0x61u8) by (bit_vector);
            }
        }
        assert forall|i: u8| i < 8 implies bit8(0x01u8 | pin, i) == (i == 0 || (pin_control && i
            == 4)) by {
            lemma_bit_constants(i);
            if pin_control {
                assert(0x01u8 | 0x10u8 == 0x11u8) by (bit_vector);
            } else {
                assert(0x01u8 | 0u8 == 0x01u8) by (bit_vector);
            }
        }
        assert forall|i: u8| i < 8 implies bit8(0x01u8, i) == (i == 0) && bit8(0x20u8, i) == (i
            == 5) && bit8(0x40u8, i) == (i == 6) by {
            lemma_bit_constants(i);
        }
    }
    Some(v)
}

/// The `EnsmConfig1` values that bring the ENSM back into `previous` after a forced change:
/// `force_rx_on` (bit 6), `force_tx_on` (bit 5) and `force_alert_state` (bit 2) are cleared and
/// `to_alert` (bit 0) is set; TX and FDD then set `force_tx_on`, RX sets `force_rx_on`. The
/// second value, written after the first, also sets the pin control bit (bit 4). `None` for a
/// state that cannot be restored that way.
pub fn ensm_restore_config1(config1: u8, previous: regs::EnsmState) -> (r: Option<(u8, u8)>)
    ensures
        r is None <==> !ensm_forcible(previous),
        r matches Some(v) ==> forall|i: u8|
            i < 8 ==> bit8(v.0, i) == (if i == 0 {
                true
            } else if i == 2 {
                false
            } else if i == 5 {
                previous == regs::EnsmState::Tx || previous == regs::EnsmState::Fdd
            } else if i == 6 {
                previous == regs::EnsmState::Rx
            } else {
                bit8(config1, i)
            }) && bit8(v.1, i) == (i == 4 || bit8(v.0, i)),
{
    let set: u8 = match previous {
        regs::EnsmState::Alert => 0x01,
        regs::EnsmState::Tx | regs::EnsmState::Fdd => 0x21,
        regs::EnsmState::Rx => 0x41,
        _ => {
            return None;
        },
    };
    let v = update_bits(config1, set, 0x65);
    let w = update_bits(v, 0x10, 0);
    proof {
        assert forall|i: u8| i < 8 implies bit8(0x65u8, i) == (i == 0 || i == 2 || i == 5 || i
            == 6) && bit8(0x10u8, i) == (i == 4) && bit8(0u8, i) == false by {
            lemma_bit_constants(i);
        }
        assert forall|i: u8| i < 8 implies bit8(0x01u8, i) == (i == 0) by {
            lemma_bit_constants(i);
        }
        assert forall|i: u8| i < 8 implies bit8(0x21u8, i) == (i == 0 || i == 5) && bit8(
            0x41u8,
            i,
        ) == (i == 0 || i == 6) by {
            lemma_bit_constants(i);
        }
    }
    Some((v, w))
}

/// Decodes the ENSM state from the `State` register: the low 4 bits. A value that no state has
/// is the error [`EnsmError::InvalidEnsmState`].
pub fn ensm_state_from_register<E>(state_reg: u8) -> (r: Result<regs::EnsmState, EnsmError<E>>)
    ensures
        match r {
            Ok(s) => s.raw() == state_reg % 16,
            Err(e) => e == EnsmError::<E>::InvalidEnsmState(state_reg % 16) && forall|
                s: regs::EnsmState,
            | s.raw() != state_reg % 16,
        },
{
    match regs::EnsmState::new_with_raw_value(state_reg % 16) {
        Ok(s) => Ok(s),
        Err(v) => Err(EnsmError::InvalidEnsmState(v)),
    }
}

/// One step of waiting for a forced ENSM state change.
#[derive(Debug, Clone, Copy, PartialEq, Eq, Structural)]
pub enum EnsmWait {
    /// The target state was reached.
    Reached,
    /// Wait one more millisecond and read the state again.
    Wait,
    /// The change timed out; the value is the raw 4 bit state read last.
    Timeout(u8),
}

/// Decides the wait for a forced ENSM state change after reading the `State` register, when
/// `waited_ms` milliseconds have passed before that read: done when the state is the target,
/// else another millisecond, unless that makes more than 10.
pub fn ensm_wait_step(state_reg: u8, target: regs::EnsmState, waited_ms: u32) -> (r: EnsmWait)
    ensures
        target.raw() == state_reg % 16 ==> r == EnsmWait::Reached,
        target.raw() != state_reg % 16 && waited_ms + 1 <= 10 ==> r == EnsmWait::Wait,
        target.raw() != state_reg % 16 && waited_ms + 1 > 10 ==> r == EnsmWait::Timeout(
            state_reg % 16,
        ),
{
    let raw = state_reg % 16;
    if target.raw_value() == raw {
        EnsmWait::Reached
    } else if waited_ms >= 10 {
        EnsmWait::Timeout(raw)
    } else {
        EnsmWait::Wait
    }
}

/// `DcOffsetConfig2` and `CalibrationConfig1` with tracking turned off: the BB DC offset (bit 5)
/// and RF DC offset (bit 3) tracking of the first and the tracking of both channels (bits 1 and
/// 0) of the second are cleared. The values before are restored afterwards.
pub fn tracking_disabled(dc_offset_config_2: u8, calibration_config_1: u8) -> (r: (u8, u8))
    ensures
        forall|i: u8|
            i < 8 ==> bit8(r.0, i) == (i != 5 && i != 3 && bit8(dc_offset_config_2, i)) && bit8(
                r.1,
                i,
            ) == (i != 1 && i != 0 && bit8(calibration_config_1, i)),
{
    let a = update_bits(dc_offset_config_2, 0, 0x28);
    let b = update_bits(calibration_config_1, 0, 0x03);
    proof {
        assert forall|i: u8| i < 8 implies bit8(0x28u8, i) == (i == 3 || i == 5) && bit8(
            0x03u8,
            i,
        ) == (i == 0 || i == 1) && bit8(0u8, i) == false by {
            lemma_bit_constants(i);
        }
    }
    (a, b)
}

// ---------------------------------------------------------------------------------------------
// Driver state after the bring-up.
// ---------------------------------------------------------------------------------------------
/// What the TX quadrature calibration needs when it runs again after a clock change: the phase
/// setting, the gain table index found while the RX gain table was loaded, and whether the RX
/// phase is inverted.
#[derive(Debug, Clone, Copy, PartialEq, Eq, Structural)]
pub struct TxQuadCalibParams {
    /// Phase setting of the configuration.
    pub phase_config: RxPhaseConfig,
    /// Gain table index used during the calibration.
    pub gain_table_index: u8,
    /// Whether the RX1/RX2 phase inversion or the RX2 inversion of the parallel port is on.
    pub phase_inversion_en: bool,
}

/// The TX quadrature calibration parameters of the bring-up: none when the calibration is not
/// configured; [`InitError::NoGainTableIndexForTxQuadCalibrationFound`] when it is configured but
/// loading the RX gain table gave no index for it; otherwise the phase setting, that index and
/// whether either RX phase inversion (`rx1rx2_phase_inversion` or the parallel port's
/// `invert_rx2`) is on.
pub fn tx_quad_params<E>(
    tx_quad_calib: Option<RxPhaseConfig>,
    gain_table_index: Option<u8>,
    rx1rx2_phase_inversion: bool,
    invert_rx2: bool,
) -> (r: Result<Option<TxQuadCalibParams>, InitError<E>>)
    ensures
        tx_quad_calib is None ==> r == Ok::<Option<TxQuadCalibParams>, InitError<E>>(None),
        tx_quad_calib is Some && gain_table_index is None ==> r == Err::<
            Option<TxQuadCalibParams>,
            InitError<E>,
        >(InitError::NoGainTableIndexForTxQuadCalibrationFound),
        tx_quad_calib is Some && gain_table_index is Some ==> r == Ok::<
            Option<TxQuadCalibParams>,
            InitError<E>,
        >(
            Some(
                TxQuadCalibParams {
                    phase_config: tx_quad_calib->0,
                    gain_table_index: gain_table_index->0,
                    phase_inversion_en: rx1rx2_phase_inversion || invert_rx2,
                },
            ),
        ),
{
    match tx_quad_calib {
        None => Ok(None),
        Some(phase_config) => match gain_table_index {
            None => Err(InitError::NoGainTableIndexForTxQuadCalibrationFound),
            Some(index) => Ok(
                Some(
                    TxQuadCalibParams {
                        phase_config,
                        gain_table_index: index,
                        phase_inversion_en: rx1rx2_phase_inversion || invert_rx2,
                    },
                ),
            ),
        },
    }
}

/// What the driver keeps after the bring-up: the reference clock, the clock configuration the
/// chip runs, the TX quadrature calibration parameters, the FIR taps loaded since, the last known
/// ENSM state and whether the ENSM is under pin control.
#[derive(Debug, Clone, Copy)]
pub struct DriverState {
    reference_clk_rate: u32,
    clock: ClockConfig,
    tx_quad: Option<TxQuadCalibParams>,
    tx_fir_taps: Option<u8>,
    rx_fir_taps: Option<u8>,
    ensm_state: EnsmState,
    ensm_pin_control: bool,
}

impl DriverState {
    /// The reference clock in Hz.
    pub closed spec fn reference_clk_rate_spec(&self) -> u32 {
        self.reference_clk_rate
    }

    /// The clock configuration the chip runs.
    pub closed spec fn clock_spec(&self) -> ClockConfig {
        self.clock
    }

    /// The TX quadrature calibration parameters, `None` if the calibration is off.
    pub closed spec fn tx_quad_spec(&self) -> Option<TxQuadCalibParams> {
        self.tx_quad
    }

    /// The number of TX FIR taps loaded, `None` before any were.
    pub closed spec fn tx_fir_taps_spec(&self) -> Option<u8> {
        self.tx_fir_taps
    }

    /// The number of RX FIR taps loaded, `None` before any were.
    pub closed spec fn rx_fir_taps_spec(&self) -> Option<u8> {
        self.rx_fir_taps
    }

    /// The last known ENSM state.
    pub closed spec fn ensm_state_spec(&self) -> EnsmState {
        self.ensm_state
    }

    /// Whether the ENSM is under pin control.
    pub closed spec fn ensm_pin_control_spec(&self) -> bool {
        self.ensm_pin_control
    }

    /// The state at the end of the bring-up: no FIR taps are loaded yet.
    pub fn new(
        reference_clk_rate: u32,
        clock: ClockConfig,
        tx_quad: Option<TxQuadCalibParams>,
        ensm_state: EnsmState,
        ensm_pin_control: bool,
    ) -> (r: Self)
        ensures
            r.reference_clk_rate_spec() == reference_clk_rate,
            r.clock_spec() == clock,
            r.tx_quad_spec() == tx_quad,
            r.tx_fir_taps_spec() is None,
            r.rx_fir_taps_spec() is None,
            r.ensm_state_spec() == ensm_state,
            r.ensm_pin_control_spec() == ensm_pin_control,
    {
        DriverState {
            reference_clk_rate,
            clock,
            tx_quad,
            tx_fir_taps: None,
            rx_fir_taps: None,
            ensm_state,
            ensm_pin_control,
        }
    }

    /// The reference clock in Hz.
    pub fn reference_clk_rate(&self) -> (r: u32)
        ensures
            r == self.reference_clk_rate_spec(),
    {
        self.reference_clk_rate
    }

    /// The clock configuration the chip runs, as last applied by the bring-up or a clock
    /// update.
    pub fn clock_config(&self) -> (r: &ClockConfig)
        ensures
            *r == self.clock_spec(),
    {
        &self.clock
    }

    /// The TX quadrature calibration parameters, `None` if the calibration is off.
    pub fn tx_quad(&self) -> (r: Option<TxQuadCalibParams>)
        ensures
            r == self.tx_quad_spec(),
    {
        self.tx_quad
    }

    /// The number of TX FIR taps loaded, `None` before any were.
    pub fn tx_fir_taps(&self) -> (r: Option<u8>)
        ensures
            r == self.tx_fir_taps_spec(),
    {
        self.tx_fir_taps
    }

    /// The number of RX FIR taps loaded, `None` before any were.
    pub fn rx_fir_taps(&self) -> (r: Option<u8>)
        ensures
            r == self.rx_fir_taps_spec(),
    {
        self.rx_fir_taps
    }

    /// The last known ENSM state: a value kept by the driver, not a register read.
    pub fn ensm_state(&self) -> (r: EnsmState)
        ensures
            r == self.ensm_state_spec(),
    {
        self.ensm_state
    }

    /// Whether the ENSM is under pin control.
    pub fn ensm_pin_control(&self) -> (r: bool)
        ensures
            r == self.ensm_pin_control_spec(),
    {
        self.ensm_pin_control
    }

    /// Records that `taps` TX FIR taps were loaded; nothing else changes.
    pub fn set_tx_fir_taps(&mut self, taps: u8)
        ensures
            final(self).tx_fir_taps_spec() == Some(taps),
            final(self).rx_fir_taps_spec() == old(self).rx_fir_taps_spec(),
            final(self).clock_spec() == old(self).clock_spec(),
            final(self).reference_clk_rate_spec() == old(self).reference_clk_rate_spec(),
            final(self).tx_quad_spec() == old(self).tx_quad_spec(),
            final(self).ensm_state_spec() == old(self).ensm_state_spec(),
            final(self).ensm_pin_control_spec() == old(self).ensm_pin_control_spec(),
    {
        self.tx_fir_taps = Some(taps);
    }

    /// Records that `taps` RX FIR taps were loaded; nothing else changes.
    pub fn set_rx_fir_taps(&mut self, taps: u8)
        ensures
            final(self).rx_fir_taps_spec() == Some(taps),
            final(self).tx_fir_taps_spec() == old(self).tx_fir_taps_spec(),
            final(self).clock_spec() == old(self).clock_spec(),
            final(self).reference_clk_rate_spec() == old(self).reference_clk_rate_spec(),
            final(self).tx_quad_spec() == old(self).tx_quad_spec(),
            final(self).ensm_state_spec() == old(self).ensm_state_spec(),
            final(self).ensm_pin_control_spec() == old(self).ensm_pin_control_spec(),
    {
        self.rx_fir_taps = Some(taps);
    }

    /// Records the clock configuration the chip runs after a clock update; nothing else
    /// changes.
    pub fn set_clock(&mut self, clock: ClockConfig)
        ensures
            final(self).clock_spec() == clock,
            final(self).tx_fir_taps_spec() == old(self).tx_fir_taps_spec(),
            final(self).rx_fir_taps_spec() == old(self).rx_fir_taps_spec(),
            final(self).reference_clk_rate_spec() == old(self).reference_clk_rate_spec(),
            final(self).tx_quad_spec() == old(self).tx_quad_spec(),
            final(self).ensm_state_spec() == old(self).ensm_state_spec(),
            final(self).ensm_pin_control_spec() == old(self).ensm_pin_control_spec(),
    {
        self.clock = clock;
    }
}

} // verus!
