use ad9361_embedded::clocks::{
    RefClockRangeError, AdcDivisor, BbClockPathConfigHelper, BbPllConfig, ClockConfig, LocalOscClockConfig,
    PllVcoDivider, RateGovernor, RefClockScalers, Rhb3Decimation, RfClockPathCalculationError,
    RxFirDecimation, Thb3Interpolation, TxFirInterpolation,
};
use ad9361_embedded::driver::{check_fir_taps, clock_for_path, InitError};
use ad9361_embedded::limits;
use ad9361_embedded::regs;

#[test]
fn test_bb_pll_clock_calc_full_path_config() {
    // THB3 bypassed: the DAC runs at 245.76 MHz while the RX side puts the ADC at 491.52 MHz,
    // so dac_div2 comes out true.
    let bb_pll_config = BbClockPathConfigHelper::calculate_and_validate_with_full_path(
        30_720_000,
        false,
        Rhb3Decimation::Div1NoFiltering,
        true,
        true,
        RxFirDecimation::Div4EnableFilter,
        Thb3Interpolation::Mult1NoFiltering,
        true,
        false,
        TxFirInterpolation::Mult4EnableFilter,
    )
    .expect("BB PLL Clock calulation failed");
    assert_eq!(bb_pll_config.bb_pll_clock_hz(), 983040000);
    assert_eq!(bb_pll_config.adc_div(), AdcDivisor::Div2);
    assert_eq!(bb_pll_config.dac_div2(), true);
    assert!(bb_pll_config.dac_clock_hz() <= limits::MAX_DAC_CLK);
}

#[test]
fn dac_clock_too_fast_is_rejected() {
    // 30.72 MHz sample rate x4 (FIR) x2 (THB2) x2 (THB3) = 491.52 MHz at the DAC, which exceeds
    // MAX_DAC_CLK (320 MHz).
    let result = BbClockPathConfigHelper::calculate_and_validate_with_full_path(
        30_720_000,
        false,
        Rhb3Decimation::Div1NoFiltering,
        true,
        true,
        RxFirDecimation::Div4EnableFilter,
        Thb3Interpolation::Mult2HalfBand,
        true,
        false,
        TxFirInterpolation::Mult4EnableFilter,
    );
    assert_eq!(result, Err(RfClockPathCalculationError::DacClockTooFast));
}

#[test]
fn test_bb_pll_clock_calc_auto_calc() {
    let bb_pll_config = BbClockPathConfigHelper::calculate_and_validate(
        30_720_000,
        false,
        RxFirDecimation::Div4EnableFilter,
        TxFirInterpolation::Mult4EnableFilter,
        RateGovernor::Nominal,
    )
    .expect("BB PLL Clock calulation failed");
    assert_eq!(
        bb_pll_config.bb_pll_clock_hz(),
        983040000,
        "bb pll config {}",
        bb_pll_config.bb_pll_clock_hz()
    );
    assert!(
        bb_pll_config.dac_clock_hz() <= limits::MAX_DAC_CLK,
        "dac clock {} exceeds MAX_DAC_CLK {}",
        bb_pll_config.dac_clock_hz(),
        limits::MAX_DAC_CLK
    );
}

#[test]
fn calculate_local_osc_config() {
    let local_osc_config = LocalOscClockConfig::calculate_for_internal_lo_with_target_vco_clock(
        40_000_000,
        6_000_000_000,
        PllVcoDivider::Div4,
    )
    .expect("Failed to calculate local oscillator config");
    match local_osc_config {
        LocalOscClockConfig::External { external_vco_freq: _ } => panic!("should be internal"),
        LocalOscClockConfig::Internal(rf_pll_config) => {
            assert_eq!(rf_pll_config.vco_div, PllVcoDivider::Div4);
            assert_eq!(rf_pll_config.pll_int, (6_000_000_000_u64 / 40_000_000) as u16);
            assert_eq!(rf_pll_config.pll_frac, 0);
        }
    }
}

#[test]
fn calculate_local_osc_config_direct_lo() {
    let local_osc_config = LocalOscClockConfig::calculate_for_internal_lo(40_000_000, 2_400_000_000)
        .expect("Failed to calculate local oscillator config");
    match local_osc_config {
        LocalOscClockConfig::External { external_vco_freq: _ } => panic!("should be internal"),
        LocalOscClockConfig::Internal(rf_pll_config) => {
            let vco_clock = 2_400_000_000_u64 * rf_pll_config.vco_div.divider() as u64;
            assert!(
                vco_clock >= limits::MIN_VCO_FREQ_HZ && vco_clock <= limits::MAX_VCO_FREQ_HZ
            );
            assert_eq!(vco_clock / rf_pll_config.pll_int as u64, 40_000_000_u64);
            assert_eq!(rf_pll_config.pll_frac, 0);
        }
    }
}

/// Sample rates swept by the `auto_calc_*` tests: from well under the maximum baseband rate up
/// to and including it.
const SWEEP_SAMPLE_RATES_HZ: [u32; 7] = [
    520_833, 1_000_000, 2_500_000, 7_680_000, 15_360_000, 30_720_000, 61_440_000,
];
const SWEEP_RX_FIRS: [RxFirDecimation; 4] = [
    RxFirDecimation::Div1BypassFilter,
    RxFirDecimation::Div1EnableFilter,
    RxFirDecimation::Div2EnableFilter,
    RxFirDecimation::Div4EnableFilter,
];
const SWEEP_TX_FIRS: [TxFirInterpolation; 4] = [
    TxFirInterpolation::Mult1BypassFilter,
    TxFirInterpolation::Mult1EnableFilter,
    TxFirInterpolation::Mult2EnableFilter,
    TxFirInterpolation::Mult4EnableFilter,
];
const SWEEP_RATE_GOVERNORS: [RateGovernor; 2] = [RateGovernor::Nominal, RateGovernor::HighestOsr];

#[derive(Debug)]
struct SweepResult {
    tx_sample_hz: u32,
    rx_sample_is_twice_tx_sample: bool,
    config: BbClockPathConfigHelper,
}

fn sweep_auto_calculated_configs() -> Vec<SweepResult> {
    let mut results = Vec::new();
    for &tx_sample_hz in &SWEEP_SAMPLE_RATES_HZ {
        for rx_sample_is_twice_tx_sample in [false, true] {
            for rx_fir in SWEEP_RX_FIRS {
                for tx_fir in SWEEP_TX_FIRS {
                    for rate_governor in SWEEP_RATE_GOVERNORS {
                        if let Ok(config) = BbClockPathConfigHelper::calculate_and_validate(
                            tx_sample_hz,
                            rx_sample_is_twice_tx_sample,
                            rx_fir,
                            tx_fir,
                            rate_governor,
                        ) {
                            results.push(SweepResult {
                                tx_sample_hz,
                                rx_sample_is_twice_tx_sample,
                                config,
                            });
                        }
                    }
                }
            }
        }
    }
    results
}

fn rx_chain_checkpoints_hz(
    tx_sample_hz: u32,
    rx_sample_is_twice_tx_sample: bool,
    config: &BbClockPathConfigHelper,
) -> [u32; 4] {
    let rx_sample_hz = if rx_sample_is_twice_tx_sample { tx_sample_hz * 2 } else { tx_sample_hz };
    let mut rx_fir_output_hz = rx_sample_hz;
    match config.rx_fir() {
        RxFirDecimation::Div1BypassFilter | RxFirDecimation::Div1EnableFilter => (),
        RxFirDecimation::Div2EnableFilter => rx_fir_output_hz *= 2,
        RxFirDecimation::Div4EnableFilter => rx_fir_output_hz *= 4,
    }
    let mut rx_half_band_1_output_hz = rx_fir_output_hz;
    if config.rhb1() {
        rx_half_band_1_output_hz *= 2;
    }
    let mut rx_half_band_2_output_hz = rx_half_band_1_output_hz;
    if config.rhb2() {
        rx_half_band_2_output_hz *= 2;
    }
    let mut adc_clock_from_rx = rx_half_band_2_output_hz;
    match config.rhb3() {
        Rhb3Decimation::Div1NoFiltering => (),
        Rhb3Decimation::Div2HalfBand => adc_clock_from_rx *= 2,
        Rhb3Decimation::Div3Filter => adc_clock_from_rx *= 3,
    }
    [rx_fir_output_hz, rx_half_band_1_output_hz, rx_half_band_2_output_hz, adc_clock_from_rx]
}

fn tx_chain_checkpoints_hz(tx_sample_hz: u32, config: &BbClockPathConfigHelper) -> [u32; 4] {
    let mut tx_fir_output_hz = tx_sample_hz;
    match config.tx_fir() {
        TxFirInterpolation::Mult1BypassFilter => (),
        TxFirInterpolation::Mult1EnableFilter | TxFirInterpolation::Mult2EnableFilter => {
            tx_fir_output_hz *= 2
        }
        TxFirInterpolation::Mult4EnableFilter => tx_fir_output_hz *= 4,
    }
    let mut tx_half_band_1_output_hz = tx_fir_output_hz;
    if config.thb1() {
        tx_half_band_1_output_hz *= 2;
    }
    let mut tx_half_band_2_output_hz = tx_half_band_1_output_hz;
    if config.thb2() {
        tx_half_band_2_output_hz *= 2;
    }
    let mut dac_clock_from_tx = tx_half_band_2_output_hz;
    match config.thb3() {
        Thb3Interpolation::Mult1NoFiltering => (),
        Thb3Interpolation::Mult2HalfBand => dac_clock_from_tx *= 2,
        Thb3Interpolation::Mult3Filter => dac_clock_from_tx *= 3,
    }
    [tx_fir_output_hz, tx_half_band_1_output_hz, tx_half_band_2_output_hz, dac_clock_from_tx]
}

#[test]
fn auto_calc_sweep_produces_results() {
    assert!(
        !sweep_auto_calculated_configs().is_empty(),
        "no sample rate / FIR combination in the sweep produced a valid clock path"
    );
}

#[test]
fn auto_calc_bb_pll_clock_stays_in_range() {
    for SweepResult { config, .. } in sweep_auto_calculated_configs() {
        assert!(
            config.bb_pll_clock_hz() >= limits::MIN_BBPLL_FREQ
                && config.bb_pll_clock_hz() <= limits::MAX_BBPLL_FREQ,
            "bb_pll_clock_hz {} out of [{}, {}] for config {config:?}",
            config.bb_pll_clock_hz(),
            limits::MIN_BBPLL_FREQ,
            limits::MAX_BBPLL_FREQ
        );
    }
}

#[test]
fn auto_calc_rx_chain_stays_in_range() {
    for SweepResult { tx_sample_hz, rx_sample_is_twice_tx_sample, config } in
        sweep_auto_calculated_configs()
    {
        let [hb1_output, hb2_output, hb3_output, adc_clock] =
            rx_chain_checkpoints_hz(tx_sample_hz, rx_sample_is_twice_tx_sample, &config);
        assert!(
            hb1_output <= limits::MAX_RX_HB1,
            "RX HB1 stage clock {hb1_output} exceeds MAX_RX_HB1 for config {config:?}"
        );
        assert!(
            hb2_output <= limits::MAX_RX_HB2,
            "RX HB2 stage clock {hb2_output} exceeds MAX_RX_HB2 for config {config:?}"
        );
        assert!(
            hb3_output <= limits::MAX_RX_HB3,
            "RX HB3 stage clock {hb3_output} exceeds MAX_RX_HB3 for config {config:?}"
        );
        assert!(
            adc_clock >= limits::MIN_ADC_CLK && adc_clock <= limits::MAX_ADC_CLK,
            "ADC clock {adc_clock} out of range for config {config:?}"
        );
    }
}

#[test]
fn auto_calc_tx_chain_stays_in_range() {
    for SweepResult { tx_sample_hz, config, .. } in sweep_auto_calculated_configs() {
        let [hb1_output, hb2_output, hb3_output, dac_clock] =
            tx_chain_checkpoints_hz(tx_sample_hz, &config);
        assert!(
            hb1_output <= limits::MAX_TX_HB1,
            "TX HB1 stage clock {hb1_output} exceeds MAX_TX_HB1 for config {config:?}"
        );
        assert!(
            hb2_output <= limits::MAX_TX_HB2,
            "TX HB2 stage clock {hb2_output} exceeds MAX_TX_HB2 for config {config:?}"
        );
        assert!(
            hb3_output <= limits::MAX_TX_HB3,
            "TX HB3 stage clock {hb3_output} exceeds MAX_TX_HB3 for config {config:?}"
        );
        assert!(
            dac_clock <= limits::MAX_DAC_CLK,
            "DAC clock {dac_clock} exceeds MAX_DAC_CLK for config {config:?}"
        );
        assert_eq!(
            dac_clock,
            config.dac_clock_hz(),
            "independently recomputed DAC clock disagrees with dac_clock_hz() for config {config:?}"
        );
    }
}

const REF_CLK_HZ: u32 = 40_000_000;

#[allow(clippy::too_many_arguments)]
fn clock_config_for_stages(
    rhb3: Rhb3Decimation,
    rhb2: bool,
    rhb1: bool,
    rx_fir: RxFirDecimation,
    thb3: Thb3Interpolation,
    thb2: bool,
    thb1: bool,
    tx_fir: TxFirInterpolation,
) -> ClockConfig {
    clock_config_for_path(
        BbClockPathConfigHelper::calculate_and_validate_with_full_path(
            30_720_000, false, rhb3, rhb2, rhb1, rx_fir, thb3, thb2, thb1, tx_fir,
        )
        .expect("invalid clock path"),
    )
}

fn clock_config_for_path(path: BbClockPathConfigHelper) -> ClockConfig {
    let ref_clk_scalers = RefClockScalers {
        bb_refclk: regs::ClockScaler::Div1,
        rx_synth: regs::ClockScaler::Mul2,
        tx_synth: regs::ClockScaler::Mul2,
    };
    let lo = LocalOscClockConfig::calculate_for_internal_lo(80_000_000, 2_400_000_000)
        .expect("invalid LO");
    ClockConfig {
        ref_clk_scalers,
        bb_pll: BbPllConfig::calculate(
            ref_clk_scalers.calculate_bb_pll_synth_clock(REF_CLK_HZ),
            path.bb_pll_clock_hz(),
        ),
        adc: path.adc_div(),
        rx: path.rx_config(lo),
        tx: path.tx_config(lo),
    }
}

#[test]
fn firmware_fir_ratios_fit_64_taps_at_every_sample_rate() {
    let mut checked = 0;
    for tx_sample_hz in [2_500_000, 7_680_000, 15_360_000, 23_040_000, 30_720_000] {
        let Ok(path) = BbClockPathConfigHelper::calculate_and_validate(
            tx_sample_hz,
            false,
            RxFirDecimation::Div4EnableFilter,
            TxFirInterpolation::Mult4EnableFilter,
            RateGovernor::Nominal,
        ) else {
            continue;
        };
        let config = clock_config_for_path(path);
        assert!(config.max_tx_fir_taps(REF_CLK_HZ) >= Some(64));
        assert!(config.max_rx_fir_taps(REF_CLK_HZ) >= Some(64));
        checked += 1;
    }
    assert!(checked > 0, "no sample rate produced a valid path");
}

#[test]
fn fir_tap_limit_without_half_bands_is_four_times_16() {
    let config = clock_config_for_stages(
        Rhb3Decimation::Div1NoFiltering,
        false,
        false,
        RxFirDecimation::Div4EnableFilter,
        Thb3Interpolation::Mult1NoFiltering,
        false,
        false,
        TxFirInterpolation::Mult4EnableFilter,
    );
    assert_eq!(config.max_tx_fir_taps(REF_CLK_HZ), Some(64));
    assert_eq!(config.max_rx_fir_taps(REF_CLK_HZ), Some(64));
}

#[test]
fn fir_tap_limit_grows_with_half_bands() {
    let config = clock_config_for_stages(
        Rhb3Decimation::Div1NoFiltering,
        false,
        true,
        RxFirDecimation::Div4EnableFilter,
        Thb3Interpolation::Mult1NoFiltering,
        false,
        true,
        TxFirInterpolation::Mult4EnableFilter,
    );
    assert_eq!(config.max_tx_fir_taps(REF_CLK_HZ), Some(128));
    assert_eq!(config.max_rx_fir_taps(REF_CLK_HZ), Some(128));
}

#[test]
fn rx_fir_tap_limit_uses_half_the_adc_clock_if_hb3_decimates() {
    let config = clock_config_for_stages(
        Rhb3Decimation::Div2HalfBand,
        false,
        false,
        RxFirDecimation::Div4EnableFilter,
        Thb3Interpolation::Mult1NoFiltering,
        false,
        true,
        TxFirInterpolation::Mult4EnableFilter,
    );
    assert_eq!(config.max_rx_fir_taps(REF_CLK_HZ), Some(64));
    assert_eq!(config.max_tx_fir_taps(REF_CLK_HZ), Some(128));
}

#[test]
fn fir_tap_limit_does_not_apply_to_bypassed_fir() {
    let config = clock_config_for_stages(
        Rhb3Decimation::Div1NoFiltering,
        true,
        true,
        RxFirDecimation::Div1BypassFilter,
        Thb3Interpolation::Mult1NoFiltering,
        true,
        true,
        TxFirInterpolation::Mult1BypassFilter,
    );
    assert_eq!(config.max_tx_fir_taps(REF_CLK_HZ), None);
    assert_eq!(config.max_rx_fir_taps(REF_CLK_HZ), None);
}

#[test]
fn tx_fir_tap_limit_is_64_for_interpolation_of_1() {
    let mut config = clock_config_for_stages(
        Rhb3Decimation::Div2HalfBand,
        true,
        true,
        RxFirDecimation::Div1BypassFilter,
        Thb3Interpolation::Mult2HalfBand,
        true,
        true,
        TxFirInterpolation::Mult1BypassFilter,
    );
    config.tx.tx_fir = TxFirInterpolation::Mult1EnableFilter;
    assert_eq!(config.max_tx_fir_taps(REF_CLK_HZ), Some(64));
}

#[test]
fn fir_taps_within_the_limits_pass_the_check() {
    let config = clock_config_for_stages(
        Rhb3Decimation::Div1NoFiltering,
        false,
        false,
        RxFirDecimation::Div4EnableFilter,
        Thb3Interpolation::Mult1NoFiltering,
        false,
        false,
        TxFirInterpolation::Mult4EnableFilter,
    );
    assert!(check_fir_taps::<()>(&config, REF_CLK_HZ, Some(64), Some(64)).is_ok());
    assert!(check_fir_taps::<()>(&config, REF_CLK_HZ, None, None).is_ok());
    assert!(matches!(
        check_fir_taps::<()>(&config, REF_CLK_HZ, Some(65), Some(128)),
        Err(InitError::TxFirTapsExceedClockRatio { taps: 65, max: 64 })
    ));
    assert!(matches!(
        check_fir_taps::<()>(&config, REF_CLK_HZ, Some(64), Some(65)),
        Err(InitError::RxFirTapsExceedClockRatio { taps: 65, max: 64 })
    ));
}

#[test]
fn runtime_clock_path_keeps_scalers_and_los() {
    let base = clock_config_for_stages(
        Rhb3Decimation::Div1NoFiltering,
        false,
        false,
        RxFirDecimation::Div4EnableFilter,
        Thb3Interpolation::Mult1NoFiltering,
        false,
        false,
        TxFirInterpolation::Mult4EnableFilter,
    );
    let path = BbClockPathConfigHelper::calculate_and_validate(
        7_680_000,
        false,
        RxFirDecimation::Div4EnableFilter,
        TxFirInterpolation::Mult4EnableFilter,
        RateGovernor::Nominal,
    )
    .expect("invalid clock path");
    let new = clock_for_path(&base, REF_CLK_HZ, &path);
    assert_eq!(new.ref_clk_scalers, base.ref_clk_scalers);
    assert_eq!(new.rx.lo, base.rx.lo);
    assert_eq!(new.tx.lo, base.tx.lo);
    assert_eq!(new.adc, path.adc_div());
    assert_eq!(new.bb_pll, BbPllConfig::calculate(REF_CLK_HZ, path.bb_pll_clock_hz()));
    assert_eq!(new, clock_config_for_path(path));
}

#[test]
fn smallest_adc_divisor_in_bb_pll_range_is_picked() {
    // ADC clock 357.5 MHz: both 715 MHz (x2) and 1430 MHz (x4) lie in the BB PLL range.
    let h = BbClockPathConfigHelper::calculate_and_validate_with_full_path(
        44_687_500,
        false,
        Rhb3Decimation::Div2HalfBand,
        false,
        false,
        RxFirDecimation::Div4EnableFilter,
        Thb3Interpolation::Mult1NoFiltering,
        false,
        true,
        TxFirInterpolation::Mult2EnableFilter,
    )
    .expect("valid path");
    assert_eq!(h.adc_div(), AdcDivisor::Div2);
    assert_eq!(h.bb_pll_clock_hz(), 715_000_000);
    assert!(h.dac_div2());
}

#[test]
fn tx_rate_above_maximum_is_rejected_before_doubling() {
    for tx in [61_440_001, u32::MAX / 2 + 1, u32::MAX] {
        assert_eq!(
            BbClockPathConfigHelper::calculate_and_validate_with_full_path(
                tx,
                true,
                Rhb3Decimation::Div1NoFiltering,
                false,
                false,
                RxFirDecimation::Div1BypassFilter,
                Thb3Interpolation::Mult1NoFiltering,
                false,
                false,
                TxFirInterpolation::Mult1BypassFilter,
            ),
            Err(RfClockPathCalculationError::TxSampleRateTooFast)
        );
        assert_eq!(
            BbClockPathConfigHelper::calculate_and_validate(
                tx,
                true,
                RxFirDecimation::Div1BypassFilter,
                TxFirInterpolation::Mult1BypassFilter,
                RateGovernor::HighestOsr,
            ),
            Err(RfClockPathCalculationError::CouldNotFindValidConfig)
        );
    }
    assert_eq!(
        BbClockPathConfigHelper::calculate_and_validate_with_full_path(
            40_000_000,
            true,
            Rhb3Decimation::Div1NoFiltering,
            false,
            false,
            RxFirDecimation::Div1BypassFilter,
            Thb3Interpolation::Mult1NoFiltering,
            false,
            false,
            TxFirInterpolation::Mult1BypassFilter,
        ),
        Err(RfClockPathCalculationError::RxSampleRateTooFast)
    );
}

#[test]
fn reference_clock_range_error_names_the_offending_clock() {
    let high = limits::MAX_SYNTH_FREF + 1;
    let low = limits::MIN_SYNTH_FREF - 1;
    let ok = limits::MIN_SYNTH_FREF;
    assert_eq!(
        RefClockScalers::calculate(40_000_000, 40_000_000, ok, high),
        Err(RefClockRangeError::TooHigh {
            target_refclk: high,
            max_possible_refclk: limits::MAX_SYNTH_FREF
        })
    );
    assert_eq!(
        RefClockScalers::calculate(40_000_000, 40_000_000, high, high + 1),
        Err(RefClockRangeError::TooHigh {
            target_refclk: high,
            max_possible_refclk: limits::MAX_SYNTH_FREF
        })
    );
    assert_eq!(
        RefClockScalers::calculate(40_000_000, 40_000_000, ok, low),
        Err(RefClockRangeError::TooLow {
            target_refclk: low,
            min_possible_refclk: limits::MIN_SYNTH_FREF
        })
    );
    assert_eq!(
        RefClockScalers::calculate(40_000_000, 40_000_000, low, ok),
        Err(RefClockRangeError::TooLow {
            target_refclk: low,
            min_possible_refclk: limits::MIN_SYNTH_FREF
        })
    );
}
