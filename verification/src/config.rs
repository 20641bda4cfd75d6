//! Driver configuration and its validation.
use vstd::prelude::*;

pub use crate::regs::lvds_bias_ctrl::Register as BiasControlRegister;
pub use crate::regs::lvds_invert_ctrl1::Register as LvdsInversionRegister1;
pub use crate::regs::lvds_invert_ctrl2::Register as LvdsInversionRegister2;
pub use crate::regs::parallel_port_conf_1::Register as Pp1Register;
pub use crate::regs::parallel_port_conf_2::Register as Pp2Register;
pub use crate::regs::rx_clock_data_delay::Register as RxClockDelayConfig;
pub use crate::regs::tx_clock_data_delay::Register as TxClockDelayConfig;

pub use crate::regs::rssi_config::RestartMode as RssiRestartMode;

pub use crate::clocks::ClockConfig;
pub use crate::regs::input_select::{RxRfPathConfig, TxRfPathConfig};
pub use crate::regs::parallel_port_conf_3::DataRate;
pub use crate::regs::DecPowerMeasurementSource;

use crate::limits;
use crate::limits::MAX_TX_ATTENUATION_DB;
use crate::regs;
use crate::regs::parallel_port_conf_3::Duplex;
use crate::regs::ClkOutMode;
use crate::types::{
    FastAgcTargetGainIndexType, GainControlMode, ReceiverId, RxClock, RxPhaseConfig,
    TransmitterId, TxClock,
};

verus! {

/// Gain table of the receivers: one full table, or split LNA/mixer and LPF tables.
#[derive(Debug, Clone, Copy, PartialEq, Eq, Structural)]
pub enum RxGainTableType {
    /// Full gain table.
    Full,
    /// Split gain table.
    Split,
}

/// Which gain step size a [`ValidationError::InvalidStepSize`] is about.
#[derive(Debug, Copy, Clone, PartialEq, Eq, Structural)]
pub enum StepSizeKind {
    ManualGainInc,
    ManualGainDec,
    DigitalGain,
}

/// Error of [`ConfigRaw::validate`].
#[derive(Debug, Clone, Copy, PartialEq, Eq, Structural)]
pub enum ValidationError {
    /// Invalid RF RX bandwidth.
    InvalidRfRxBandwidth,
    /// Invalid RF TX bandwidth.
    InvalidRfTxBandwidth,
    /// Invalid CMOS data clock larger than 61.44 MSPS.
    InvalidCmosDataClock,
    /// Invalid RX clock rate.
    InvalidRxClock(RxClock),
    /// Invalid TX clock rate.
    InvalidTxClock(TxClock),
    /// Invalid ADC overrange sample, must be in range 1..=8.
    AdcOverrangeSampleInvalid(u8),
    /// Invalid step size.
    InvalidStepSize(StepSizeKind, u8),
    /// Invalid ADC thresholds.
    InvalidAdcOverloadThresholds,
    /// Invalid LMT overload thresholds.
    InvalidLmtOverloadThreshold,
    /// Invalid AGC thresholds.
    InvalidAgcThresholds,
    /// TX attenuation invalid, out of bounds.
    TxAttenuationInvalid(u32),
    /// A value does not fit the width of its register field.
    FieldOutOfRange,
}

/// FIR channel selection.
#[derive(Debug, Clone, Copy, PartialEq, Eq, Structural)]
pub enum FirChSelect {
    Ch1,
    Ch2,
    Both,
}

impl FirChSelect {
    /// Whether channel 1 is selected.
    pub fn channel1(&self) -> (r: bool)
        ensures
            r == (*self == FirChSelect::Ch1 || *self == FirChSelect::Both),
    {
        match self {
            FirChSelect::Ch1 | FirChSelect::Both => true,
            _ => false,
        }
    }

    /// Whether channel 2 is selected.
    pub fn channel2(&self) -> (r: bool)
        ensures
            r == (*self == FirChSelect::Ch2 || *self == FirChSelect::Both),
    {
        match self {
            FirChSelect::Ch2 | FirChSelect::Both => true,
            _ => false,
        }
    }
}

/// Every FIR channel selection selects at least one channel, and both only for `Both`.
pub proof fn lemma_fir_ch_select_covers(sel: FirChSelect)
    ensures
        (sel == FirChSelect::Ch1 || sel == FirChSelect::Both) || (sel == FirChSelect::Ch2 || sel
            == FirChSelect::Both),
        ((sel == FirChSelect::Ch1 || sel == FirChSelect::Both) && (sel == FirChSelect::Ch2 || sel
            == FirChSelect::Both)) <==> sel == FirChSelect::Both,
{
}

/// TX FIR configuration.
#[derive(Debug, Clone, PartialEq, Eq)]
pub struct TxFirConfig<'coef> {
    /// Channels the coefficients are loaded into.
    pub ch_select: FirChSelect,
    /// -6dB gain.
    pub attentuate_6db: bool,
    /// Coefficient for each taps. Only a part of this might be used, depending on the number
    /// of taps.
    pub tx_coefs: &'coef [i16],
    /// Number of taps.
    pub num_taps: regs::tx_filter_conf::NumberOfTapsRaw,
}

/// The number of coefficients does not match the number of taps.
#[derive(Debug, Clone, Copy, PartialEq, Eq, Structural)]
pub struct InvalidNumberOfCoefficientsError;

impl<'coef> TxFirConfig<'coef> {
    /// Whether there is exactly one coefficient per tap.
    pub fn tx_coeffs_size_equal_to_num_of_taps(&self) -> (r: bool)
        ensures
            r == (self.tx_coefs@.len() == self.num_taps.number_spec()),
    {
        self.tx_coefs.len() == self.num_taps.number() as usize
    }
}

/// RX FIR configuration.
#[derive(Debug, Clone, PartialEq, Eq)]
pub struct RxFirConfig<'coef> {
    /// Channels the coefficients are loaded into.
    pub ch_select: FirChSelect,
    /// Filter gain.
    pub gain: regs::rx_filter_gain::FilterGain,
    /// Coefficient for each taps. Only a part of this might be used, depending on the number
    /// of taps.
    pub rx_coefs: &'coef [i16],
    /// Number of taps.
    pub num_taps: regs::tx_filter_conf::NumberOfTapsRaw,
}

impl<'coef> RxFirConfig<'coef> {
    /// Whether there is exactly one coefficient per tap.
    pub fn rx_coeffs_size_equal_to_num_of_taps(&self) -> (r: bool)
        ensures
            r == (self.rx_coefs@.len() == self.num_taps.number_spec()),
    {
        self.rx_coefs.len() == self.num_taps.number() as usize
    }
}

/// Select between enabling all channels and only enabling one TX and one RX path.
#[derive(Debug, PartialEq, Eq, Structural, Copy, Clone)]
pub enum TransceiverChannelMode {
    Dual,
    Single { rx: ReceiverId, tx: TransmitterId },
}

/// Parallel port mode configuration, the value of the parallel port configuration 3 register.
#[derive(Debug, Clone, Copy, PartialEq, Eq, Structural)]
pub struct ParallelPortModeConfig(pub regs::parallel_port_conf_3::Register);

/// Whether `r` holds exactly the given parallel port mode fields.
pub open spec fn pp3_fields(
    r: regs::parallel_port_conf_3::Register,
    fdd_rx_rate_2tx_rate: bool,
    swap_ports: bool,
    data_rate: DataRate,
    lvds_mode: bool,
    duplex_mode: Duplex,
    single_port_mode: bool,
    full_port: bool,
    full_duplex_swap_bits: bool,
) -> bool {
    &&& r.fdd_rx_rate_2tx_rate_spec() == fdd_rx_rate_2tx_rate
    &&& r.swap_ports_spec() == swap_ports
    &&& r.data_rate_spec() == data_rate
    &&& r.lvds_mode_spec() == lvds_mode
    &&& r.duplex_mode_spec() == duplex_mode
    &&& r.single_port_mode_spec() == single_port_mode
    &&& r.full_port_spec() == full_port
    &&& r.full_duplex_swap_bits_spec() == full_duplex_swap_bits
}

/// Register holding the given parallel port mode fields.
fn pp3_register(
    fdd_rx_rate_2tx_rate: bool,
    swap_ports: bool,
    data_rate: DataRate,
    lvds_mode: bool,
    duplex_mode: Duplex,
    single_port_mode: bool,
    full_port: bool,
    full_duplex_swap_bits: bool,
) -> (r: regs::parallel_port_conf_3::Register)
    ensures
        pp3_fields(
            r,
            fdd_rx_rate_2tx_rate,
            swap_ports,
            data_rate,
            lvds_mode,
            duplex_mode,
            single_port_mode,
            full_port,
            full_duplex_swap_bits,
        ),
{
    regs::parallel_port_conf_3::Register::zero().with_fdd_rx_rate_2tx_rate(
        fdd_rx_rate_2tx_rate,
    ).with_swap_ports(swap_ports).with_data_rate(data_rate).with_lvds_mode(
        lvds_mode,
    ).with_duplex_mode(duplex_mode).with_single_port_mode(single_port_mode).with_full_port(
        full_port,
    ).with_full_duplex_swap_bits(full_duplex_swap_bits)
}

impl ParallelPortModeConfig {
    /// LVDS mode: double data rate, full duplex, no port or bit swapping.
    pub fn new_for_lvds() -> (r: Self)
        ensures
            pp3_fields(
                r.0,
                false,
                false,
                DataRate::Double,
                true,
                Duplex::Full,
                false,
                false,
                false,
            ),
    {
        Self(
            pp3_register(
                false,
                false,
                DataRate::Double,
                true,
                Duplex::Full,
                false,
                false,
                false,
            ),
        )
    }

    /// CMOS dual port full duplex mode.
    pub fn new_for_dual_port_full_duplex_cmos(
        data_rate: DataRate,
        rx_is_tx_times_two: bool,
        swap_ports: bool,
        swap_bits: bool,
    ) -> (r: Self)
        ensures
            pp3_fields(
                r.0,
                rx_is_tx_times_two,
                swap_ports,
                data_rate,
                false,
                Duplex::Full,
                false,
                true,
                swap_bits,
            ),
    {
        Self(
            pp3_register(
                rx_is_tx_times_two,
                swap_ports,
                data_rate,
                false,
                Duplex::Full,
                false,
                true,
                swap_bits,
            ),
        )
    }

    /// CMOS dual port half duplex mode.
    pub fn new_for_dual_port_half_duplex_cmos(data_rate: DataRate) -> (r: Self)
        ensures
            pp3_fields(r.0, false, false, data_rate, false, Duplex::Half, false, false, false),
    {
        Self(pp3_register(false, false, data_rate, false, Duplex::Half, false, false, false))
    }

    /// CMOS single port half duplex mode.
    pub fn new_for_single_port_half_duplex_cmos(data_rate: DataRate) -> (r: Self)
        ensures
            pp3_fields(r.0, false, false, data_rate, false, Duplex::Half, true, true, false),
    {
        Self(pp3_register(false, false, data_rate, false, Duplex::Half, true, true, false))
    }
}

/// Reference clock source.
#[derive(Debug, Copy, Clone, PartialEq, Eq, Structural)]
pub enum ExternalClockConfig {
    /// External oscillator connected to the REF_CLK_IN pin.
    Oscillator,
    /// External crystal in combination with internal digital programmable capacitor. The coarse
    /// tune word has 6 bits, the fine tune word 13.
    Dcxo { coarse_tune: u8, fine_tune: u16 },
}

/// Register setting of a reference clock source.
pub open spec fn external_clock_reg(value: ExternalClockConfig) -> regs::ExternalClockConfig {
    match value {
        ExternalClockConfig::Oscillator => regs::ExternalClockConfig::Oscillator,
        ExternalClockConfig::Dcxo { .. } => regs::ExternalClockConfig::Dcxo,
    }
}

impl From<ExternalClockConfig> for regs::ExternalClockConfig {
    fn from(value: ExternalClockConfig) -> (r: Self) {
        match value {
            ExternalClockConfig::Oscillator => Self::Oscillator,
            ExternalClockConfig::Dcxo { .. } => Self::Dcxo,
        }
    }
}

impl vstd::std_specs::convert::FromSpecImpl<ExternalClockConfig> for regs::ExternalClockConfig {
    open spec fn obeys_from_spec() -> bool {
        true
    }

    open spec fn from_spec(v: ExternalClockConfig) -> Self {
        external_clock_reg(v)
    }
}

/// LVDS configuration.
#[derive(Debug, Clone, Copy, PartialEq, Eq, Structural)]
pub struct LvdsConfig {
    /// LVDS bias control register.
    pub bias_control: BiasControlRegister,
    /// First LVDS inversion register.
    pub invert1_control: LvdsInversionRegister1,
    /// Second LVDS inversion register.
    pub invert2_control: LvdsInversionRegister2,
}

/// LVDS bias register value for a bias in mV: 75 mV steps above 75 mV, in three bits.
pub open spec fn lvds_bias_bits(milli_volts: u32) -> u8 {
    ((if milli_volts < 75 { 0 } else { milli_volts - 75 }) / 75 % 8) as u8
}

impl LvdsConfig {
    /// LVDS configuration with bias `lvds_bias_mv`, all lanes inverted.
    pub fn new(lvds_bias_mv: u32, rx_onchip_termination: bool) -> (r: Self)
        ensures
            r.bias_control.lvds_bias_spec() == lvds_bias_bits(lvds_bias_mv),
            r.bias_control.rx_on_chip_term_spec() == rx_onchip_termination,
            r.bias_control.clk_out_slew_spec() == 0,
            !r.bias_control.lvds_bypass_bias_r_spec(),
            !r.bias_control.lvds_tx_lo_vcm_spec(),
            r.invert1_control.raw() == 0xFF,
            r.invert2_control.raw() == 0x0F,
    {
        let invert1_control = LvdsInversionRegister1::new_with_raw_value(0xFF);
        let invert2_control = LvdsInversionRegister2::new_with_raw_value(0x0F);
        proof {
            vstd::arithmetic::power2::lemma2_to64();
        }
        Self {
            bias_control: BiasControlRegister::zero().with_lvds_bias(
                Self::lvds_bias_reg_value(lvds_bias_mv),
            ).with_rx_on_chip_term(rx_onchip_termination),
            invert1_control,
            invert2_control,
        }
    }

    /// LVDS bias register value for a bias in mV.
    pub fn lvds_bias_reg_value(milli_volts: u32) -> (r: u8)
        ensures
            r == lvds_bias_bits(milli_volts),
            r < 8,
    {
        let above = if milli_volts < 75 {
            0
        } else {
            milli_volts - 75
        };
        proof {
            vstd::bits::lemma_u32_low_bits_mask_is_mod(above / 75, 3);
            vstd::arithmetic::power2::lemma2_to64();
        }
        ((above / 75) & 0x7) as u8
    }
}

/// Digital interface configuration.
#[derive(Debug, Clone, Copy, PartialEq, Eq, Structural)]
pub struct DigitalInterfaceConfig {
    /// Parallel port configuration 1 register.
    pub pp1_config: Pp1Register,
    /// Parallel port configuration 2 register.
    pub pp2_config: Pp2Register,
    /// Parallel port configuration 3 register (parallel port mode config).
    pub pp3_config: ParallelPortModeConfig,
    /// RX interface delay written at setup; tuning may replace it later.
    pub rx_default_delay: RxClockDelayConfig,
    /// TX interface delay written at setup; tuning may replace it later.
    pub tx_default_delay: TxClockDelayConfig,
    /// LVDS configuration, [`None`] for CMOS.
    pub lvds_config: Option<LvdsConfig>,
    /// Inverts the phase of RX1 against RX2.
    pub rx1rx2_phase_inversion: bool,
}

impl DigitalInterfaceConfig {
    /// Parallel port configuration 1 register.
    pub fn pp1_config(&self) -> (r: regs::parallel_port_conf_1::Register)
        ensures
            r == self.pp1_config,
    {
        self.pp1_config
    }

    /// Parallel port configuration 2 register.
    pub fn pp2_config(&self) -> (r: regs::parallel_port_conf_2::Register)
        ensures
            r == self.pp2_config,
    {
        self.pp2_config
    }

    /// Parallel port configuration 3 register.
    pub fn pp3_config(&self) -> (r: regs::parallel_port_conf_3::Register)
        ensures
            r == self.pp3_config.0,
    {
        self.pp3_config.0
    }
}

/// TX monitor configuration.
#[derive(Debug, Clone, Copy, PartialEq, Eq)]
pub enum TxMonitorConfig {
    Enabled(TxMonConfigParams),
    Disabled,
}

/// Division duplex mode.
#[derive(Debug, Copy, Clone, PartialEq, Eq, Structural)]
pub enum DivisionDuplexMode {
    /// Frequency division duplex mode. In this mode, RX and TX can work at the same time on
    /// different frequency bands.
    Fdd,
    /// Time division duplex mode. In this mode, the RX and TX synthesizers are shared, and the
    /// device rapidly switches between RX and TX modes.
    Tdd,
}

/// Division duplex configuration.
#[derive(Debug, Clone, Copy, PartialEq, Eq, Structural)]
pub enum DivisionDuplexConfig {
    Fdd { independent_mode: bool },
    Tdd { enable_txmon: bool, use_dual_synth: bool },
}

impl DivisionDuplexConfig {
    /// Duplex mode of the configuration.
    pub fn mode(&self) -> (r: DivisionDuplexMode)
        ensures
            (r == DivisionDuplexMode::Fdd) <==> (*self is Fdd),
    {
        match self {
            DivisionDuplexConfig::Fdd { .. } => DivisionDuplexMode::Fdd,
            DivisionDuplexConfig::Tdd { .. } => DivisionDuplexMode::Tdd,
        }
    }
}

/// Auxiliary DAC configuration.
#[derive(Debug, Clone, Copy, PartialEq, Eq)]
pub struct AuxDacConfig {
    /// Manual control of the auxiliary DACs.
    pub aux_dac_manual_mode_enable: bool,
    /// Configuration of DAC 1 and DAC 2, [`None`] for a disabled DAC.
    pub dac_config: [Option<SingleDacConfig>; 2],
}

/// TX monitor parameters.
#[derive(Debug, Clone, Copy, PartialEq, Eq, Structural)]
pub struct TxMonConfigParams {
    /// Enable TX1 monitor.
    pub enable_tx1: bool,
    /// Enable TX2 monitor.
    pub enable_tx2: bool,
    /// Threshold between the low and the high gain in milli-dB.
    pub low_high_gain_threshold_md_b: u32,
    /// Low gain in dB, a 5 bit value.
    pub low_gain_d_b: u8,
    /// High gain in dB, a 5 bit value.
    pub high_gain_d_b: u8,
    /// TX monitor tracking.
    pub tx_mon_track: bool,
    /// One shot mode.
    pub one_shot_mode: bool,
    /// TX monitor delay, a 10 bit value.
    pub tx_mon_delay: u16,
    /// TX monitor duration.
    pub tx_mon_duration: u32,
    /// TX1 monitor front end gain, a 2 bit value.
    pub tx1_mon_front_end_gain: u8,
    /// TX2 monitor front end gain, a 2 bit value.
    pub tx2_mon_front_end_gain: u8,
    /// TX1 monitor LO common mode, a 6 bit value.
    pub tx1_mon_lo_cm: u8,
    /// TX2 monitor LO common mode, a 6 bit value.
    pub tx2_mon_lo_cm: u8,
}

/// Configuration of one auxiliary DAC.
#[derive(Debug, Clone, Copy, PartialEq, Eq, Structural)]
pub struct SingleDacConfig {
    pub default_value_m_v: u32,
    pub active_in_rx: bool,
    pub active_in_tx: bool,
    pub active_in_alert: bool,
    pub rx_delay_us: u8,
    pub tx_delay_us: u8,
}

/// General Purpose Output (GPO) pin configuration.
#[derive(Debug, Clone, Copy, PartialEq, Eq)]
pub struct GpoConfig {
    /// When set, the GPOs can be controlled manually. Otherwise, the GPOs are ENSM slaves.
    pub manual_mode_enable: bool,
    /// Configuration of the four pins.
    pub gpo: [SingleGpoConfig; 4],
}

/// Configuration for an individual pin.
#[derive(Debug, Copy, Clone, PartialEq, Eq, Structural)]
pub struct SingleGpoConfig {
    pub init_state: bool,
    pub inactive_state_high: bool,
    pub slave_rx_enable: bool,
    pub slave_tx_enable: bool,
    pub rx_delay_us: u8,
    pub tx_delay_us: u8,
}

/// A GPO pin that is low, slave to nothing and has no delays.
pub open spec fn idle_gpo() -> SingleGpoConfig {
    SingleGpoConfig {
        init_state: false,
        inactive_state_high: false,
        slave_rx_enable: false,
        slave_tx_enable: false,
        rx_delay_us: 0,
        tx_delay_us: 0,
    }
}

impl Default for SingleGpoConfig {
    fn default() -> (r: Self)
        ensures
            r == idle_gpo(),
    {
        SingleGpoConfig {
            init_state: false,
            inactive_state_high: false,
            slave_rx_enable: false,
            slave_tx_enable: false,
            rx_delay_us: 0,
            tx_delay_us: 0,
        }
    }
}

impl Default for GpoConfig {
    fn default() -> (r: Self)
        ensures
            r.manual_mode_enable,
            forall|i: int| 0 <= i < 4 ==> r.gpo[i] == idle_gpo(),
    {
        let pin = SingleGpoConfig {
            init_state: false,
            inactive_state_high: false,
            slave_rx_enable: false,
            slave_tx_enable: false,
            rx_delay_us: 0,
            tx_delay_us: 0,
        };
        Self { manual_mode_enable: true, gpo: [pin, pin, pin, pin] }
    }
}

/// External LNA configuration.
#[derive(Debug, PartialEq, Eq, Structural, Clone, Copy)]
pub struct ExternalLnaConfig {
    pub settling_delay_ns: u32,
    pub gain_md_b: u32,
    pub bypass_loss_md_b: u32,
    pub rx1_gpo0_control: bool,
    pub rx2_gpo1_control: bool,
    pub enable_for_all_indexes_in_gt: bool,
}

/// Error of [`GainControl::new`].
#[derive(Debug, PartialEq, Eq, Structural, Clone, Copy)]
pub enum GainControlConfigError {
    /// Manual config required when either channel is in manual mode.
    ManualConfigMissing,
    /// Auto config required when either channel uses an auto AGC mode.
    AutoConfigMissing,
    /// Fast AGC config required when either channel uses fast or hybrid AGC mode.
    FastConfigMissing,
}

/// Digital gain configuration.
#[derive(Debug, PartialEq, Eq, Structural, Copy, Clone)]
pub struct DigitalGainConfig {
    /// Maximum digital gain, a 5 bit value.
    pub max_dig_gain: u8,
    /// Must be in range 1..=8.
    pub dig_gain_step_size: u8,
}

/// Raw 4 bit register value of the power measurement duration.
#[derive(Debug, PartialEq, Eq, Structural, Copy, Clone)]
pub struct DecPowerMeasurementDuration(pub u8);

impl DecPowerMeasurementDuration {
    /// Wraps a 4 bit register value.
    pub fn new(value: u8) -> (r: Self)
        requires
            value < 16,
        ensures
            r.0 == value,
    {
        Self(value)
    }

    /// Corresponding RX cycles: 16 times 2 to the power of the register value.
    pub fn rx_cycles(&self) -> (r: u32)
        requires
            self.0 < 16,
        ensures
            r == 16 * vstd::arithmetic::power2::pow2(self.0 as nat),
    {
        proof {
            vstd::arithmetic::power2::lemma2_to64();
            vstd::arithmetic::power2::lemma_pow2_adds(4, self.0 as nat);
            vstd::bits::lemma_u32_shl_is_mul(16, self.0 as u32);
        }
        16u32 << (self.0 as u32)
    }
}

/// Gain control settings shared by all modes.
#[derive(Debug, PartialEq, Eq, Structural, Clone, Copy)]
pub struct GainControlCommon {
    /// Digital gain, [`None`] if it is disabled.
    pub digital_config: Option<DigitalGainConfig>,
    /// Must be non-zero and not larger than 8.
    pub adc_ovr_sample_size: u8,
    /// Power measurement duration in RX cycles: 16 times 2 to the power of a 4 bit register
    /// value.
    pub dec_pow_measurement_duration: DecPowerMeasurementDuration,
    /// Low power threshold of the fast AGC in negative dBFS, 0.5 dB/LSB, 0 to 64.
    pub low_power_thresh: u8,
    /// Source of the decimated power measurement.
    pub dec_pwr_meas_source: DecPowerMeasurementSource,
    /// Gain update interval.
    pub gain_update_interval_us: u32,
    /// Small ADC overload threshold.
    pub adc_small_overload_thresh: u8,
    /// Large ADC overload threshold.
    pub adc_large_overload_thresh: u8,
    /// Low LMT overload threshold in mV peak.
    pub lmt_overload_low_thresh_mv_peak: u16,
    /// High LMT overload threshold in mV peak.
    pub lmt_overload_high_thresh_mv_peak: u16,
}

/// Auto Gain Control (AGC) configuration. The `u8` fields hold register fields of 3, 4 or 7
/// bits as noted.
#[derive(Debug, PartialEq, Eq, Structural, Clone, Copy)]
pub struct GainControlAutoConfig {
    pub prevent_gain_inc_lmt_adc_small_overload: bool,
    pub immed_gain_change_if_large_adc_overload: bool,
    pub immed_gain_change_if_large_lmt_overload: bool,
    /// 4 bits.
    pub decrement_step_size_large_lpf_or_full_table_case_1: u8,
    /// 3 bits.
    pub decrement_step_size_large_lmt_overload_full_table_case_3: u8,
    /// 4 bits.
    pub adc_small_overload_exceed_counter: u8,
    /// 4 bits.
    pub adc_large_overload_exceed_counter: u8,
    /// 4 bits.
    pub dig_saturation_exceed_counter: u8,
    /// 4 bits.
    pub lmt_overload_large_exceed_counter: u8,
    /// 4 bits.
    pub lmt_overload_small_exceed_counter: u8,
    /// Offset to inner high threshold in dB/LSB, 4 bits.
    pub outer_thresh_offset_to_inner_high: u8,
    /// Inner high threshold in minus dBFS, 7 bits.
    pub inner_thresh_high_negative_dbfs: u8,
    /// Inner low threshold in minus dBFS, 7 bits. Must be a larger value than the inner high
    /// threshold so the threshold is lower.
    pub inner_thresh_low_negative_dbfs: u8,
    /// Offset to inner low threshold in dB/LSB, 4 bits.
    pub outer_thresh_offset_to_inner_low: u8,
    /// Gain A step decrease, 4 bits.
    pub outer_thresh_high_dec_steps: u8,
    /// Gain B step decrease, 3 bits.
    pub inner_thresh_high_dec_steps: u8,
    /// Gain C step increase, 3 bits.
    pub inner_thresh_low_inc_steps: u8,
    /// Gain D step increase, 4 bits.
    pub outer_thresh_low_inc_steps: u8,
    pub attack_delay_extra_margin_us: u32,
    /// Allows resetting the gain counter with CTRL_IN2.
    pub enable_sync_for_gain_counter: bool,
}

/// Split table manual gain mode.
#[derive(Debug, PartialEq, Eq, Structural, Copy, Clone)]
pub enum SplitTableManualMode {
    Agc,
    OnlyInLpf,
    OnlyInLmt,
}

/// Manual gain control configuration.
#[derive(Debug, PartialEq, Eq, Structural, Copy, Clone)]
pub struct GainControlManualConfig {
    /// Must be in range 1..=8.
    pub dec_gain_step: u8,
    /// Must be in range 1..=8.
    pub inc_gain_step: u8,
    pub rx1_ctrl_input: bool,
    pub rx2_ctrl_input: bool,
    pub split_table_mode: Option<SplitTableManualMode>,
}

/// Fast AGC configuration. The `u8` fields hold register fields of 2, 3, 4 or 6 bits as noted.
#[derive(Debug, PartialEq, Eq, Structural, Clone, Copy)]
pub struct GainControlFastAutoConfig {
    pub state_wait_time_ns: u32,
    pub allow_agc_gain_increase: bool,
    pub lp_thresh_increment_time: u8,
    pub lp_thresh_increment_steps: u8,
    pub lock_level_lmt_gain_increase: bool,
    /// 6 bits.
    pub lock_level_gain_increase_upper_limit: u8,
    /// 2 bits.
    pub lpf_final_settling_steps: u8,
    /// 2 bits.
    pub lmt_final_settling_steps: u8,
    /// 3 bits.
    pub final_overrange_count: u8,
    pub gain_increase_after_gain_lock: bool,
    pub use_last_lock_level_for_set_gain: bool,
    /// 4 bits.
    pub optimized_gain_offset: u8,
    /// 6 bits.
    pub rst_gla_stronger_sig_thresh_above_ll: u8,
    /// 6 bits.
    pub rst_gla_energy_lost_sig_thresh_below_ll: u8,
    /// 6 bits.
    pub energy_lost_stronger_sig_gain_lock_exit_cnt: u8,
    pub suppress_gain_unlock_on_energy_lost_threshold_exceeded: bool,
    /// If the LMT overload suppression is enabled, the ADC overload will always be suppressed
    /// as well.
    pub suppress_gain_unlock_on_large_adc_large_lmt_overload: bool,
    pub suppress_gain_unlock_on_adc_overload: bool,
    pub suppress_gain_unlock_on_stronger_signal_threshold_exceeded: bool,
    pub gain_index_type_after_exit_rx_mode: FastAgcTargetGainIndexType,
    /// If this is None, the EN_AGC pin is not used.
    pub gain_index_type_on_en_agc_high: Option<FastAgcTargetGainIndexType>,
    pub power_measurement_duration_in_state5: u32,
    /// Decrement Step size for: Small LPF Gain Change or Full Table Case #2, 3 bits.
    pub decrement_step_small_lpf_gain_full_table_case_2: u8,
}

/// Received Signal Strength Indicator (RSSI) configuration.
#[derive(Debug, PartialEq, Eq, Structural, Clone, Copy)]
pub struct RssiConfig {
    pub restart_mode: RssiRestartMode,
    pub inner: TemporalConfig,
}

impl Default for RssiConfig {
    fn default() -> (r: Self)
        ensures
            r.restart_mode == RssiRestartMode::EnAgcPinIsPulledHigh,
            r.inner == (TemporalConfig::RxSamples { delay: 0, duration: 0, wait: 0 }),
    {
        Self {
            restart_mode: RssiRestartMode::EnAgcPinIsPulledHigh,
            inner: TemporalConfig::RxSamples { delay: 0, duration: 0, wait: 0 },
        }
    }
}

/// RSSI timing, in RX samples or in microseconds.
#[derive(Debug, PartialEq, Eq, Structural, Clone, Copy)]
pub enum TemporalConfig {
    RxSamples { delay: u32, duration: u32, wait: u32 },
    TimeUs { delay_us: u32, duration_us: u32, wait_us: u32 },
}

/// Raw 3 bit register value of the auxiliary ADC decimation.
#[derive(Debug, Copy, Clone, PartialEq, Eq, Structural)]
pub struct AuxAdcDecimationBits(pub u8);

impl AuxAdcDecimationBits {
    /// Wraps a 3 bit register value.
    pub fn new(value: u8) -> (r: Self)
        requires
            value < 8,
        ensures
            r.0 == value,
    {
        Self(value)
    }

    /// Actual decimation value, calculate per formula 256 * 2 to the power of the register value.
    pub fn decimation(&self) -> (r: u32)
        requires
            self.0 < 8,
        ensures
            r == 256 * vstd::arithmetic::power2::pow2(self.0 as nat),
    {
        proof {
            vstd::arithmetic::power2::lemma2_to64();
            vstd::bits::lemma_u32_shl_is_mul(1, self.0 as u32);
        }
        256 * (1u32 << (self.0 as u32))
    }
}

/// Auxiliary ADC configuration.
#[derive(Debug, Clone, Copy, PartialEq, Eq, Structural)]
pub struct AuxAdcConfig {
    /// Decimation of the auxiliary ADC.
    pub decimation: AuxAdcDecimationBits,
    /// Clock rate of the auxiliary ADC in Hz, never 0.
    pub clock_rate_hz: u32,
    /// Temperature sensor configuration.
    pub temp_sense: TempSenseConfig,
}

/// Temperature sensor configuration.
#[derive(Debug, Clone, Copy, PartialEq, Eq, Structural)]
pub struct TempSenseConfig {
    pub decimation: AuxAdcDecimationBits,
    pub measurement_interval_ms: u16,
    pub offset_signed: i8,
    pub enable_periodic: bool,
}

/// Gain control configuration.
#[derive(Debug, PartialEq, Eq, Structural, Clone, Copy)]
pub struct GainControl {
    rx1_mode: GainControlMode,
    rx2_mode: GainControlMode,
    manual: Option<GainControlManualConfig>,
    auto: Option<GainControlAutoConfig>,
    fast: Option<GainControlFastAutoConfig>,
    /// Settings shared by all modes.
    pub common: GainControlCommon,
}

/// Whether a mode is one of the automatic gain control modes.
pub open spec fn is_auto_mode(m: GainControlMode) -> bool {
    m == GainControlMode::AutoSlowAttack || m == GainControlMode::AutoFastAttack || m
        == GainControlMode::AutoHybrid
}

/// Whether a mode uses the fast AGC.
pub open spec fn is_fast_mode(m: GainControlMode) -> bool {
    m == GainControlMode::AutoFastAttack || m == GainControlMode::AutoHybrid
}

/// The error of [`GainControl::new`] for the given modes and configurations, [`None`] if every
/// configuration that a mode of either receiver needs is there.
pub open spec fn gain_control_error(
    rx1_mode: GainControlMode,
    rx2_mode: GainControlMode,
    manual: Option<GainControlManualConfig>,
    auto: Option<GainControlAutoConfig>,
    fast: Option<GainControlFastAutoConfig>,
) -> Option<GainControlConfigError> {
    if (rx1_mode == GainControlMode::Manual || rx2_mode == GainControlMode::Manual)
        && manual is None {
        Some(GainControlConfigError::ManualConfigMissing)
    } else if (is_auto_mode(rx1_mode) || is_auto_mode(rx2_mode)) && auto is None {
        Some(GainControlConfigError::AutoConfigMissing)
    } else if (is_fast_mode(rx1_mode) || is_fast_mode(rx2_mode)) && fast is None {
        Some(GainControlConfigError::FastConfigMissing)
    } else {
        None
    }
}

impl GainControl {
    /// Settings shared by all modes.
    pub closed spec fn common_spec(self) -> GainControlCommon {
        self.common
    }

    /// Mode of receiver 1.
    pub closed spec fn rx1_mode_spec(self) -> GainControlMode {
        self.rx1_mode
    }

    /// Mode of receiver 2.
    pub closed spec fn rx2_mode_spec(self) -> GainControlMode {
        self.rx2_mode
    }

    /// Manual gain control configuration.
    pub closed spec fn manual_spec(self) -> Option<GainControlManualConfig> {
        self.manual
    }

    /// Automatic gain control configuration.
    pub closed spec fn auto_spec(self) -> Option<GainControlAutoConfig> {
        self.auto
    }

    /// Fast AGC configuration.
    pub closed spec fn fast_spec(self) -> Option<GainControlFastAutoConfig> {
        self.fast
    }

    /// Creates a gain control configuration. Every configuration that a mode of either
    /// receiver needs must be there.
    pub fn new(
        rx1_mode: GainControlMode,
        rx2_mode: GainControlMode,
        common: GainControlCommon,
        manual: Option<GainControlManualConfig>,
        auto: Option<GainControlAutoConfig>,
        fast: Option<GainControlFastAutoConfig>,
    ) -> (r: Result<Self, GainControlConfigError>)
        ensures
            match gain_control_error(rx1_mode, rx2_mode, manual, auto, fast) {
                Some(e) => r == Err::<Self, GainControlConfigError>(e),
                None => r matches Ok(g) && g.rx1_mode_spec() == rx1_mode && g.rx2_mode_spec()
                    == rx2_mode && g.manual_spec() == manual && g.auto_spec() == auto
                    && g.fast_spec() == fast && g.common_spec() == common,
            },
    {
        let needs_manual = rx1_mode == GainControlMode::Manual || rx2_mode
            == GainControlMode::Manual;
        let needs_auto = matches!(
            rx1_mode,
            GainControlMode::AutoSlowAttack | GainControlMode::AutoFastAttack
                | GainControlMode::AutoHybrid
        ) || matches!(
            rx2_mode,
            GainControlMode::AutoSlowAttack | GainControlMode::AutoFastAttack
                | GainControlMode::AutoHybrid
        );
        let needs_fast = matches!(
            rx1_mode,
            GainControlMode::AutoFastAttack | GainControlMode::AutoHybrid
        ) || matches!(rx2_mode, GainControlMode::AutoFastAttack | GainControlMode::AutoHybrid);

        if needs_manual && manual.is_none() {
            return Err(GainControlConfigError::ManualConfigMissing);
        }
        if needs_auto && auto.is_none() {
            return Err(GainControlConfigError::AutoConfigMissing);
        }
        if needs_fast && fast.is_none() {
            return Err(GainControlConfigError::FastConfigMissing);
        }
        Ok(Self { rx1_mode, rx2_mode, common, manual, auto, fast })
    }

    /// Settings shared by all gain control modes.
    pub fn common(&self) -> (r: &GainControlCommon)
        ensures
            *r == self.common_spec(),
    {
        &self.common
    }

    /// Mode of receiver 1.
    pub fn rx1_mode(&self) -> (r: GainControlMode)
        ensures
            r == self.rx1_mode_spec(),
    {
        self.rx1_mode
    }

    /// Mode of receiver 2.
    pub fn rx2_mode(&self) -> (r: GainControlMode)
        ensures
            r == self.rx2_mode_spec(),
    {
        self.rx2_mode
    }

    /// Mutable access to the manual configuration. Changing it through the reference changes
    /// the manual configuration of `self` and nothing else.
    pub fn manual_mut(&mut self) -> (r: Option<&mut GainControlManualConfig>)
        ensures
            old(self).manual_spec() is None ==> r is None && final(self).manual_spec() is None,
            old(self).manual_spec() matches Some(c) ==> (r matches Some(m) && *m == c
                && final(self).manual_spec() == Some(*final(m))),
            final(self).rx1_mode_spec() == old(self).rx1_mode_spec(),
            final(self).rx2_mode_spec() == old(self).rx2_mode_spec(),
            final(self).common_spec() == old(self).common_spec(),
            final(self).auto_spec() == old(self).auto_spec(),
            final(self).fast_spec() == old(self).fast_spec(),
    {
        self.manual.as_mut()
    }

    /// Mutable access to the auto configuration. Changing it through the reference changes
    /// the auto configuration of `self` and nothing else.
    pub fn auto_mut(&mut self) -> (r: Option<&mut GainControlAutoConfig>)
        ensures
            old(self).auto_spec() is None ==> r is None && final(self).auto_spec() is None,
            old(self).auto_spec() matches Some(c) ==> (r matches Some(m) && *m == c
                && final(self).auto_spec() == Some(*final(m))),
            final(self).rx1_mode_spec() == old(self).rx1_mode_spec(),
            final(self).rx2_mode_spec() == old(self).rx2_mode_spec(),
            final(self).common_spec() == old(self).common_spec(),
            final(self).manual_spec() == old(self).manual_spec(),
            final(self).fast_spec() == old(self).fast_spec(),
    {
        self.auto.as_mut()
    }

    /// Mutable access to the fast configuration. Changing it through the reference changes
    /// the fast configuration of `self` and nothing else.
    pub fn fast_mut(&mut self) -> (r: Option<&mut GainControlFastAutoConfig>)
        ensures
            old(self).fast_spec() is None ==> r is None && final(self).fast_spec() is None,
            old(self).fast_spec() matches Some(c) ==> (r matches Some(m) && *m == c
                && final(self).fast_spec() == Some(*final(m))),
            final(self).rx1_mode_spec() == old(self).rx1_mode_spec(),
            final(self).rx2_mode_spec() == old(self).rx2_mode_spec(),
            final(self).common_spec() == old(self).common_spec(),
            final(self).manual_spec() == old(self).manual_spec(),
            final(self).auto_spec() == old(self).auto_spec(),
    {
        self.fast.as_mut()
    }

    /// Manual gain control configuration.
    pub fn manual(&self) -> (r: Option<&GainControlManualConfig>)
        ensures
            match r {
                Some(m) => self.manual_spec() == Some(*m),
                None => self.manual_spec() is None,
            },
    {
        self.manual.as_ref()
    }

    /// Automatic gain control configuration.
    pub fn auto(&self) -> (r: Option<&GainControlAutoConfig>)
        ensures
            match r {
                Some(a) => self.auto_spec() == Some(*a),
                None => self.auto_spec() is None,
            },
    {
        self.auto.as_ref()
    }

    /// Fast AGC configuration.
    pub fn fast(&self) -> (r: Option<&GainControlFastAutoConfig>)
        ensures
            match r {
                Some(f) => self.fast_spec() == Some(*f),
                None => self.fast_spec() is None,
            },
    {
        self.fast.as_ref()
    }
}

/// Raw driver configuration, checked by [`ConfigRaw::validate`].
#[derive(Debug, Clone, Copy, PartialEq, Eq)]
pub struct ConfigRaw {
    /// Reference clock rate in Hz.
    pub reference_clk_rate: u32,
    /// RX bandwidth.
    pub rf_rx_bandwidth_hz: u32,
    /// TX bandwidth.
    pub rf_tx_bandwidth_hz: u32,
    /// Clock configuration.
    ///
    /// If `clock.rx.rx_fir`/`clock.tx.tx_fir` are set to a non-bypass value, filter taps have
    /// to be loaded after setup for correct operation.
    pub clock: ClockConfig,
    /// Transceiver channel mode.
    pub transceiver_channel_mode: TransceiverChannelMode,
    /// Hardware configuration of the RX RF path.
    pub rx_path: RxRfPathConfig,
    /// Hardware configuration of the TX RF path.
    pub tx_path: TxRfPathConfig,
    /// TX monitor configuration.
    pub tx_monitoring: TxMonitorConfig,
    /// Division duplex configuration, FDD or TDD.
    pub division_duplex_config: DivisionDuplexConfig,
    /// Digital Interface Control
    pub digital_interface: DigitalInterfaceConfig,
    /// Reference clock source.
    pub external_clock_config: ExternalClockConfig,
    /// Gain table type.
    pub gain_table_type: RxGainTableType,
    /// If [None], the CLKOUT pin is driven to 0.
    pub clkout_mode: Option<ClkOutMode>,
    /// ENSM pin pulse mode.
    pub ensm_enable_pin_pulse_mode: bool,
    /// ENSM TXNRX control.
    pub ensm_enable_txnrx_control: bool,
    /// TX quadrature calibration, [`None`] to skip it.
    pub tx_quad_calib: Option<RxPhaseConfig>,
    /// DC offset tracking update event, a 3 bit value.
    pub dc_offset_tracking_update_event: u8,
    pub dc_offset_attenuation_high_range: u8,
    pub dc_offset_attenuation_low_range: u8,
    pub dc_offset_count_high_range: u8,
    pub dc_offset_count_low_range: u8,
    pub qec_tracking_slow_mode: bool,
    /// TX attenuation in milli-dB.
    pub tx_attenuation_md_b: u32,
    pub update_tx_gain_in_alert: bool,
    /// Gain control.
    pub gain_control: GainControl,
    /// RSSI control
    pub rssi: RssiConfig,
    /// AuxADC config
    pub aux_adc: AuxAdcConfig,
    /// AuxDAC config
    pub aux_dac: AuxDacConfig,
    /// Control output enable mask.
    pub ctrl_outs_enable_mask: u8,
    /// Control output table index.
    pub ctrl_outs_index: u8,
    /// External LNA Control
    pub elna: Option<ExternalLnaConfig>,
    /// GPO configuration.
    pub gpo_config: GpoConfig,
}

/// A configuration that passed [`ConfigRaw::validate`].
pub struct ConfigValidated(pub ConfigRaw);

/// Whether a gain step size is in 1..=8.
pub open spec fn step_size_valid(step: u8) -> bool {
    1 <= step <= 8
}

/// Whether the automatic gain control values fit their register fields.
pub open spec fn auto_fields_fit(a: GainControlAutoConfig) -> bool {
    &&& a.decrement_step_size_large_lpf_or_full_table_case_1 < 16
    &&& a.decrement_step_size_large_lmt_overload_full_table_case_3 < 8
    &&& a.adc_small_overload_exceed_counter < 16
    &&& a.adc_large_overload_exceed_counter < 16
    &&& a.dig_saturation_exceed_counter < 16
    &&& a.lmt_overload_large_exceed_counter < 16
    &&& a.lmt_overload_small_exceed_counter < 16
    &&& a.outer_thresh_offset_to_inner_high < 16
    &&& a.inner_thresh_high_negative_dbfs < 128
    &&& a.inner_thresh_low_negative_dbfs < 128
    &&& a.outer_thresh_offset_to_inner_low < 16
    &&& a.outer_thresh_high_dec_steps < 16
    &&& a.inner_thresh_high_dec_steps < 8
    &&& a.inner_thresh_low_inc_steps < 8
    &&& a.outer_thresh_low_inc_steps < 16
}

/// Whether the fast AGC values fit their register fields.
pub open spec fn fast_fields_fit(f: GainControlFastAutoConfig) -> bool {
    &&& f.lock_level_gain_increase_upper_limit < 64
    &&& f.lpf_final_settling_steps < 4
    &&& f.lmt_final_settling_steps < 4
    &&& f.final_overrange_count < 8
    &&& f.optimized_gain_offset < 16
    &&& f.rst_gla_stronger_sig_thresh_above_ll < 64
    &&& f.rst_gla_energy_lost_sig_thresh_below_ll < 64
    &&& f.energy_lost_stronger_sig_gain_lock_exit_cnt < 64
    &&& f.decrement_step_small_lpf_gain_full_table_case_2 < 8
}

/// Whether the TX monitor values fit their register fields.
pub open spec fn tx_mon_fields_fit(t: TxMonConfigParams) -> bool {
    &&& t.low_gain_d_b < 32
    &&& t.high_gain_d_b < 32
    &&& t.tx_mon_delay < 1024
    &&& t.tx1_mon_front_end_gain < 4
    &&& t.tx2_mon_front_end_gain < 4
    &&& t.tx1_mon_lo_cm < 64
    &&& t.tx2_mon_lo_cm < 64
}

/// Whether every value of a configuration that stands for a register field of fewer than 8, 16
/// or 32 bits fits that field: the DCXO tune words (6 and 13 bits), the DC offset update event
/// (3 bits), the TX monitor values, the maximum digital gain (5 bits), the power measurement
/// duration (4 bits), the AuxADC decimations (3 bits) and the automatic and fast gain control
/// values.
pub open spec fn config_fields_fit(c: ConfigRaw) -> bool {
    let common = c.gain_control.common_spec();
    &&& c.external_clock_config matches ExternalClockConfig::Dcxo { coarse_tune, fine_tune } ==> (
    coarse_tune < 64 && fine_tune < 8192)
    &&& c.dc_offset_tracking_update_event < 8
    &&& c.tx_monitoring matches TxMonitorConfig::Enabled(t) ==> tx_mon_fields_fit(t)
    &&& common.digital_config matches Some(d) ==> d.max_dig_gain < 32
    &&& common.dec_pow_measurement_duration.0 < 16
    &&& c.aux_adc.decimation.0 < 8
    &&& c.aux_adc.temp_sense.decimation.0 < 8
    &&& c.gain_control.auto_spec() matches Some(a) ==> auto_fields_fit(a)
    &&& c.gain_control.fast_spec() matches Some(f) ==> fast_fields_fit(f)
}

/// The first rule that a configuration breaks, [`None`] if it breaks none. The rules in order:
/// the RX and TX bandwidths lie in the RF bandwidth range; the ADC overrange sample size is in
/// 1..=8; the manual gain increment and decrement steps are in 1..=8; the digital gain step is in
/// 1..=8 (a bad step is reported with its kind and value); the small ADC overload threshold is
/// not above the large one; the low LMT overload threshold is not above the high one; the inner
/// low AGC threshold is not above the inner high one in dBFS; the TX attenuation is at most
/// 89.75 dB; every value fits its register field ([`config_fields_fit`]).
pub open spec fn config_violation(c: ConfigRaw) -> Option<ValidationError> {
    let common = c.gain_control.common_spec();
    let manual = c.gain_control.manual_spec();
    let auto = c.gain_control.auto_spec();
    if c.rf_rx_bandwidth_hz < limits::MIN_RF_BW || c.rf_rx_bandwidth_hz > limits::MAX_RF_BW {
        Some(ValidationError::InvalidRfRxBandwidth)
    } else if c.rf_tx_bandwidth_hz < limits::MIN_RF_BW || c.rf_tx_bandwidth_hz
        > limits::MAX_RF_BW {
        Some(ValidationError::InvalidRfTxBandwidth)
    } else if !step_size_valid(common.adc_ovr_sample_size) {
        Some(ValidationError::AdcOverrangeSampleInvalid(common.adc_ovr_sample_size))
    } else if manual matches Some(m) && !step_size_valid(m.inc_gain_step) {
        Some(ValidationError::InvalidStepSize(StepSizeKind::ManualGainInc, manual->Some_0.inc_gain_step))
    } else if manual matches Some(m) && !step_size_valid(m.dec_gain_step) {
        Some(ValidationError::InvalidStepSize(StepSizeKind::ManualGainDec, manual->Some_0.dec_gain_step))
    } else if common.digital_config matches Some(d) && !step_size_valid(d.dig_gain_step_size) {
        Some(
            ValidationError::InvalidStepSize(
                StepSizeKind::DigitalGain,
                common.digital_config->Some_0.dig_gain_step_size,
            ),
        )
    } else if common.adc_small_overload_thresh > common.adc_large_overload_thresh {
        Some(ValidationError::InvalidAdcOverloadThresholds)
    } else if common.lmt_overload_low_thresh_mv_peak > common.lmt_overload_high_thresh_mv_peak {
        Some(ValidationError::InvalidLmtOverloadThreshold)
    } else if auto matches Some(a) && a.inner_thresh_low_negative_dbfs
        < a.inner_thresh_high_negative_dbfs {
        Some(ValidationError::InvalidAgcThresholds)
    } else if c.tx_attenuation_md_b > MAX_TX_ATTENUATION_DB {
        Some(ValidationError::TxAttenuationInvalid(c.tx_attenuation_md_b))
    } else if !config_fields_fit(c) {
        Some(ValidationError::FieldOutOfRange)
    } else {
        None
    }
}

impl ConfigRaw {
    /// Checks the configuration. Returns it unchanged as a [`ConfigValidated`] if it breaks no
    /// rule of [`config_violation`], and the first rule it breaks otherwise.
    pub fn validate(self) -> (r: Result<ConfigValidated, ValidationError>)
        ensures
            match config_violation(self) {
                Some(e) => r matches Err(re) && re == e,
                None => r matches Ok(v) && v.0 == self,
            },
    {
        if self.rf_rx_bandwidth_hz < limits::MIN_RF_BW || self.rf_rx_bandwidth_hz
            > limits::MAX_RF_BW {
            return Err(ValidationError::InvalidRfRxBandwidth);
        }
        if self.rf_tx_bandwidth_hz < limits::MIN_RF_BW || self.rf_tx_bandwidth_hz
            > limits::MAX_RF_BW {
            return Err(ValidationError::InvalidRfTxBandwidth);
        }
        if self.gain_control.common.adc_ovr_sample_size == 0
            || self.gain_control.common.adc_ovr_sample_size > 8 {
            return Err(
                ValidationError::AdcOverrangeSampleInvalid(
                    self.gain_control.common.adc_ovr_sample_size,
                ),
            );
        }
        if let Some(manual_config) = self.gain_control.manual() {
            if manual_config.inc_gain_step == 0 || manual_config.inc_gain_step > 8 {
                return Err(
                    ValidationError::InvalidStepSize(
                        StepSizeKind::ManualGainInc,
                        manual_config.inc_gain_step,
                    ),
                );
            }
            if manual_config.dec_gain_step == 0 || manual_config.dec_gain_step > 8 {
                return Err(
                    ValidationError::InvalidStepSize(
                        StepSizeKind::ManualGainDec,
                        manual_config.dec_gain_step,
                    ),
                );
            }
        }
        if let Some(digital_config) = &self.gain_control.common.digital_config {
            if digital_config.dig_gain_step_size == 0 || digital_config.dig_gain_step_size > 8 {
                return Err(
                    ValidationError::InvalidStepSize(
                        StepSizeKind::DigitalGain,
                        digital_config.dig_gain_step_size,
                    ),
                );
            }
        }
        if self.gain_control.common.adc_small_overload_thresh
            > self.gain_control.common.adc_large_overload_thresh {
            return Err(ValidationError::InvalidAdcOverloadThresholds);
        }
        if self.gain_control.common.lmt_overload_low_thresh_mv_peak
            > self.gain_control.common.lmt_overload_high_thresh_mv_peak {
            return Err(ValidationError::InvalidLmtOverloadThreshold);
        }
        if let Some(auto_config) = self.gain_control.auto() {
            if auto_config.inner_thresh_low_negative_dbfs
                < auto_config.inner_thresh_high_negative_dbfs {
                return Err(ValidationError::InvalidAgcThresholds);
            }
        }
        if self.tx_attenuation_md_b > MAX_TX_ATTENUATION_DB {
            return Err(ValidationError::TxAttenuationInvalid(self.tx_attenuation_md_b));
        }
        if !self.fields_fit() {
            return Err(ValidationError::FieldOutOfRange);
        }
        Ok(ConfigValidated(self))
    }

    /// Whether every value fits its register field, see [`config_fields_fit`].
    pub fn fields_fit(&self) -> (r: bool)
        ensures
            r == config_fields_fit(*self),
    {
        if let ExternalClockConfig::Dcxo { coarse_tune, fine_tune } = self.external_clock_config {
            if coarse_tune >= 64 || fine_tune >= 8192 {
                return false;
            }
        }
        if self.dc_offset_tracking_update_event >= 8 {
            return false;
        }
        if let TxMonitorConfig::Enabled(t) = &self.tx_monitoring {
            if t.low_gain_d_b >= 32 || t.high_gain_d_b >= 32 || t.tx_mon_delay >= 1024
                || t.tx1_mon_front_end_gain >= 4 || t.tx2_mon_front_end_gain >= 4
                || t.tx1_mon_lo_cm >= 64 || t.tx2_mon_lo_cm >= 64 {
                return false;
            }
        }
        let common = self.gain_control.common();
        if let Some(d) = &common.digital_config {
            if d.max_dig_gain >= 32 {
                return false;
            }
        }
        if common.dec_pow_measurement_duration.0 >= 16 {
            return false;
        }
        if self.aux_adc.decimation.0 >= 8 || self.aux_adc.temp_sense.decimation.0 >= 8 {
            return false;
        }
        if let Some(a) = self.gain_control.auto() {
            if a.decrement_step_size_large_lpf_or_full_table_case_1 >= 16
                || a.decrement_step_size_large_lmt_overload_full_table_case_3 >= 8
                || a.adc_small_overload_exceed_counter >= 16
                || a.adc_large_overload_exceed_counter >= 16
                || a.dig_saturation_exceed_counter >= 16
                || a.lmt_overload_large_exceed_counter >= 16
                || a.lmt_overload_small_exceed_counter >= 16
                || a.outer_thresh_offset_to_inner_high >= 16
                || a.inner_thresh_high_negative_dbfs >= 128
                || a.inner_thresh_low_negative_dbfs >= 128
                || a.outer_thresh_offset_to_inner_low >= 16
                || a.outer_thresh_high_dec_steps >= 16
                || a.inner_thresh_high_dec_steps >= 8
                || a.inner_thresh_low_inc_steps >= 8
                || a.outer_thresh_low_inc_steps >= 16 {
                return false;
            }
        }
        if let Some(f) = self.gain_control.fast() {
            if f.lock_level_gain_increase_upper_limit >= 64 || f.lpf_final_settling_steps >= 4
                || f.lmt_final_settling_steps >= 4 || f.final_overrange_count >= 8
                || f.optimized_gain_offset >= 16 || f.rst_gla_stronger_sig_thresh_above_ll >= 64
                || f.rst_gla_energy_lost_sig_thresh_below_ll >= 64
                || f.energy_lost_stronger_sig_gain_lock_exit_cnt >= 64
                || f.decrement_step_small_lpf_gain_full_table_case_2 >= 8 {
                return false;
            }
        }
        true
    }
}

} // verus!
