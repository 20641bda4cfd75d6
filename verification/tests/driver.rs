use ad9361_embedded::calib::{
    adc_clock_register, bb_dc_offset_register_writes, bb_pll_calibration_register_writes,
    bb_pll_locked, bb_pll_loop_filter, bb_ref_scaler_register, clkout_register,
    clock_enable_register, dac_clock_register, digital_port_invert_bits,
    digital_port_register_writes, fir_enable_registers, full_duplex_register,
    input_select_register, lut_frequency, reference_clock_cycles, ref_divide_defaults,
    rf_dc_offset_register_writes, rf_pll_divider_bytes, rf_pll_dividers_register,
    rf_pll_locked, rf_pll_setting_register_writes, rx_hb_chain_register, synth_lut_index,
    synth_lut_type, synth_registers, tx_atten_offset_unmasked, tx_hb_chain_register,
    LutFrequency, SynthLutEntry, SynthLutType, PLL_LOCK_MAX_POLLS, gain_table_register_writes,
    mixer_subtable_register_writes, rx2_inversion_register, tx_quad_setup_register_writes,
    TX_QUAD_INVERT_BITS, tx_quad_run_register_writes,
};
use ad9361_embedded::clocks::{
    BbPllConfig, ChargePumpConfig, ClockConfig, LocalOscClockConfig, PllVcoDivider,
    RefClockScalers, RfPllConfig, RxConfig, TxConfig,
};
use ad9361_embedded::config::{
    DigitalInterfaceConfig, ExternalClockConfig, LvdsConfig, ParallelPortModeConfig,
    Pp1Register, Pp2Register, RxClockDelayConfig, RxRfPathConfig, TxClockDelayConfig,
    TxRfPathConfig,
};
use ad9361_embedded::calib::{
    aux_adc_setup, aux_dac_setting, dcxo_tune_bytes, div_round_u32, div_round_u64,
    rssi_duration_terms, rssi_duration_weights_fit, rssi_setup, rssi_weights, rx_adc_setup,
    rx_bb_filter_tune, rx_tia_settings, temperature_millicelsius, tx_atten_code_bytes,
    tx_atten_from_bytes, tx_bb_filter_divider, tx_mon_setup, tx_quad_best_phase,
    tx_quad_converged, tx_quad_initial_phase, tx_quad_nco_setup, tx_second_filter_settings,
    RxAdcParams, TX_MUTE_ATTENUATION_MDB, auto_gain_registers, fast_agc_registers,
    gain_control_registers, gain_update_registers, rx_adc_setup_register, FastAgcRegisters,
    bb_pll_word_bytes, external_lna_registers, rx_synth_divider_registers, tracking_registers,
    tx_synth_divider_register, CALIBRATION_CONFIG_2, CALIBRATION_CONFIG_3,
    fir_load_register_writes, rx_fir_filter_conf, rx_fir_registers, tx_fir_filter_conf,
    tx_fir_registers, RegisterWrite, calibration_busy, calibration_poll_step, channel_enables,
    cp_calibration_done, cp_calibration_register_writes, ensm_mode_setup, ensm_state_setup,
    gpo_registers, path_enables, tx_atten_immediate_update, tx_attenuation_setup,
    CalibrationStep, TxAttenBytes, CAL_RX_BB_TUNE, CALIBRATION_MAX_POLLS,
};
use ad9361_embedded::config::{
    AuxAdcConfig, AuxAdcDecimationBits, AuxDacConfig, RssiConfig, RssiRestartMode,
    SingleDacConfig, TempSenseConfig, TemporalConfig, TransceiverChannelMode, TxMonConfigParams,
    DecPowerMeasurementDuration, DecPowerMeasurementSource, DigitalGainConfig, GainControl,
    GainControlAutoConfig, GainControlCommon, GainControlFastAutoConfig, GainControlManualConfig,
    SplitTableManualMode, ExternalLnaConfig, FirChSelect, RxFirConfig, TxFirConfig,
    DivisionDuplexConfig, GpoConfig, SingleGpoConfig, RxGainTableType, StepSizeKind,
    ValidationError,
};
use ad9361_embedded::driver::{
    aux_dac_enable_ctrl, aux_dac_values, choose_interface_delay, find_longest_success_window,
    find_opt, interface_delay_probe, internal_loopback_register, tune_ensm_config_2, tx_mute_write,
    TUNE_ENSM_MODE, RX_TUNE_BIST_CONFIG, loopback_disabled_register, Ad9361Uninit, ClockDataDelay,
    DigitalInterfaceDelay, EnsmState, InitError, ProductIdReg, TxAttenWrite, TxMuteGuard,
    ensm_force_config1, ensm_restore_config1, ensm_state_from_register, ensm_wait_step,
    tracking_disabled, EnsmError, EnsmWait, ENSM_CONFIG1_FORCE_ALERT, tx_quad_params,
    TxQuadCalibParams, DriverState,
};
use ad9361_embedded::regs;
use ad9361_embedded::{
    FastAgcTargetGainIndexType, GainControlMode, ReceiverId, RxPhaseConfig, TransmitterId,
};

/// `F` = false (no error), `T` = true (error), for compact test tables.
const F: bool = false;
const T: bool = true;

#[test]
fn all_clean_is_one_full_length_window() {
    assert_eq!(find_opt(&[F; 16]), (16, 0));
}

#[test]
fn all_errors_has_no_window() {
    assert_eq!(find_opt(&[T; 16]), (0, 0));
}

#[test]
fn single_run_in_the_middle() {
    let field = [T, T, F, F, F, F, T, T, T, T, T, T, T, T, T, T];
    assert_eq!(find_opt(&field), (4, 2));
}

#[test]
fn picks_the_longer_of_two_runs() {
    let field = [F, F, T, F, F, F, F, T, T, T, T, T, T, T, T, T];
    assert_eq!(find_opt(&field), (4, 3));
}

#[test]
fn ties_keep_the_first_run() {
    // Two equal-length runs of 3 (indices 0-2 and 6-8): on a tie the earlier run wins.
    let field = [F, F, F, T, T, T, F, F, F, T, T, T, T, T, T, T];
    assert_eq!(find_opt(&field), (3, 0));
}

#[test]
fn run_touching_the_start() {
    let field = [F, F, F, F, F, T, T, T, T, T, T, T, T, T, T, T];
    assert_eq!(find_opt(&field), (5, 0));
}

#[test]
fn run_touching_the_end() {
    // The trailing run never hits an error sample, so it only gets counted after the loop ends.
    let field = [T, T, T, T, T, T, T, T, T, T, T, F, F, F, F, F];
    assert_eq!(find_opt(&field), (5, 11));
}

#[test]
fn single_isolated_clean_sample() {
    let mut field = [T; 16];
    field[7] = F;
    assert_eq!(find_opt(&field), (1, 7));
}

#[test]
fn window_search_on_a_slice_keeps_the_first_longest_run() {
    assert_eq!(find_longest_success_window(&[T, F, F, T, F, F, T]), (1, 2));
    assert_eq!(find_longest_success_window(&[]), (0, 0));
    assert_eq!(find_longest_success_window(&[F, F, F]), (0, 3));
}

#[test]
fn rounding_division_rounds_halves_up() {
    assert_eq!(div_round_u32(7, 2), 4);
    assert_eq!(div_round_u32(5, 3), 2);
    assert_eq!(div_round_u32(4, 3), 1);
    assert_eq!(div_round_u64(1_000_000_000_000, 3), 333_333_333_333);
}

#[test]
fn temperature_conversion_rounds_to_the_nearest_millidegree() {
    assert_eq!(temperature_millicelsius(0), 0);
    assert_eq!(temperature_millicelsius(100), 87_719);
    assert_eq!(temperature_millicelsius(255), 223_684);
}

#[test]
fn attenuation_code_bytes_and_read_back() {
    assert_eq!(tx_atten_code_bytes(10_000), (0, 40));
    assert_eq!(tx_atten_code_bytes(TX_MUTE_ATTENUATION_MDB), (1, 103));
    assert_eq!(tx_atten_code_bytes(10_249), (0, 40));
    assert_eq!(tx_atten_from_bytes(1, 103), 89_750);
    assert_eq!(tx_atten_from_bytes(0, 40), 10_000);
}

#[test]
fn attenuation_read_back_restores_the_same_bytes() {
    for msb in [0u8, 1, 7, 255] {
        for lsb in [0u8, 1, 128, 255] {
            assert_eq!(tx_atten_code_bytes(tx_atten_from_bytes(msb, lsb)), (msb, lsb));
        }
    }
}

#[test]
fn mute_and_unmute_restore_the_previous_attenuation() {
    assert_eq!(
        tx_mute_write(),
        TxAttenWrite { atten_md_b: 89_750, tx1: true, tx2: true }
    );
    let mut same = TxMuteGuard::new(10_000, 10_000);
    assert!(!same.is_restored());
    assert_eq!(
        same.unmute(),
        vec![TxAttenWrite { atten_md_b: 10_000, tx1: true, tx2: true }]
    );
    assert!(same.is_restored());
    let mut different = TxMuteGuard::new(10_000, 20_000);
    assert_eq!(
        different.unmute(),
        vec![
            TxAttenWrite { atten_md_b: 10_000, tx1: true, tx2: false },
            TxAttenWrite { atten_md_b: 20_000, tx1: false, tx2: true },
        ]
    );
}

#[test]
fn aux_dac_words_for_both_references() {
    let low = aux_dac_setting(0);
    assert_eq!((low.word_msb, low.config, low.value_mv), (0, 0, 306));
    let one_volt = aux_dac_setting(1000);
    assert_eq!((one_volt.word_msb, one_volt.config, one_volt.value_mv), (118, 0, 1000));
    let two_volt = aux_dac_setting(2000);
    assert_eq!((two_volt.word_msb, two_volt.config, two_volt.value_mv), (39, 14, 2000));
    let three_volt = aux_dac_setting(3000);
    assert_eq!((three_volt.word_msb, three_volt.config), (204, 15));
    let clamped = aux_dac_setting(4000);
    assert_eq!((clamped.word_msb, clamped.config), (255, 15));
}

fn dac(value_mv: u32, tx: bool, rx: bool, alert: bool) -> SingleDacConfig {
    SingleDacConfig {
        default_value_m_v: value_mv,
        active_in_rx: rx,
        active_in_tx: tx,
        active_in_alert: alert,
        rx_delay_us: 0,
        tx_delay_us: 0,
    }
}

#[test]
fn aux_dac_enable_bits_and_reported_values() {
    let none = AuxDacConfig { aux_dac_manual_mode_enable: false, dac_config: [None, None] };
    assert_eq!(aux_dac_enable_ctrl(&none), 0xFF);
    let values = aux_dac_values(&none);
    assert_eq!((values.0, values.1), (None, None));

    let first = AuxDacConfig {
        aux_dac_manual_mode_enable: false,
        dac_config: [Some(dac(100, true, true, true)), None],
    };
    // DAC 1 enabled in all states, DAC 2 disabled everywhere.
    assert_eq!(aux_dac_enable_ctrl(&first), 0b1010_1010);
    let values = aux_dac_values(&first);
    assert_eq!((values.0, values.1), (Some(306), None));

    let second = AuxDacConfig {
        aux_dac_manual_mode_enable: true,
        dac_config: [None, Some(dac(1500, false, true, false))],
    };
    assert_eq!(aux_dac_enable_ctrl(&second), 0b0111_0111);
}

#[test]
fn rx_baseband_filter_tuning() {
    let t = rx_bb_filter_tune(18_000_000, 983_040_000);
    assert_eq!((t.divider, t.bw_mhz, t.bw_khz), (5, 18, 0));
    let t = rx_bb_filter_tune(1_500_000, 983_040_000);
    assert_eq!((t.divider, t.bw_mhz, t.bw_khz), (52, 1, 64));
    // Below 200 kHz the bandwidth is raised to 200 kHz.
    let t = rx_bb_filter_tune(100, 983_040_000);
    assert_eq!((t.divider, t.bw_mhz, t.bw_khz), (388, 0, 26));
}

#[test]
fn tx_baseband_filter_divider() {
    assert_eq!(tx_bb_filter_divider(9_000_000, 983_040_000), 8);
    assert_eq!(tx_bb_filter_divider(100, 983_040_000), 110);
}

#[test]
fn rx_tia_settings_for_large_and_small_capacitance() {
    let large = rx_tia_settings(10, 5, 3, 5_000_000);
    assert_eq!(
        (large.config, large.tia1_c_lsb, large.tia1_c_msb, large.tia2_c_lsb, large.tia2_c_msb),
        (0x60, 0x40, 48, 0x40, 48)
    );
    let small = rx_tia_settings(0, 0, 1, 25_000_000);
    assert_eq!(
        (small.config, small.tia1_c_lsb, small.tia1_c_msb, small.tia2_c_lsb, small.tia2_c_msb),
        (0x20, 64, 0, 64, 0)
    );
    let mid = rx_tia_settings(2, 0, 1, 1_000_000);
    assert_eq!((mid.config, mid.tia1_c_lsb, mid.tia1_c_msb), (0xE0, 88, 0));
}

#[test]
fn tx_second_filter_resistor_search() {
    let s = tx_second_filter_settings(5_000_000);
    assert_eq!((s.config, s.resistor, s.capacitor), (0x56, 0x0C, 52));
    // At the lowest bandwidth the search goes up to a resistor factor of 8.
    let s = tx_second_filter_settings(100);
    assert_eq!((s.config, s.resistor, s.capacitor), (0x59, 0x01, 63));
    let s = tx_second_filter_settings(20_000_000);
    assert_eq!((s.config, s.resistor, s.capacitor), (0x57, 0x0C, 4));
}

#[test]
fn rssi_duration_decomposition_and_weights() {
    assert_eq!(rssi_duration_terms(11), ([3, 1, 0, 0], 3, 0));
    assert_eq!(rssi_weights([3, 1, 0, 0], 3), [185, 46, 23, 0]);
    assert_eq!(rssi_duration_terms(16), ([4, 0, 0, 0], 1, 0));
    assert_eq!(rssi_weights([4, 0, 0, 0], 1), [255, 0, 0, 0]);
    assert_eq!(rssi_duration_terms(1000), ([9, 8, 7, 6], 4, 40));
    assert_eq!(rssi_weights([9, 8, 7, 6], 4), [136, 68, 34, 17]);
    assert_eq!(rssi_duration_terms(0), ([0, 0, 0, 0], 0, 0));
    assert_eq!(rssi_weights([0, 0, 0, 0], 0), [0, 0, 0, 0]);
    assert_eq!(rssi_duration_terms(40_000), ([14, 13, 12, 11], 4, 9280));
}

#[test]
fn rssi_weights_that_would_go_below_zero_are_detected() {
    assert!(rssi_duration_weights_fit(11));
    assert!(rssi_duration_weights_fit(1000));
    assert!(!rssi_duration_weights_fit(1289));
}

#[test]
fn rssi_setup_from_microseconds() {
    let config = RssiConfig {
        restart_mode: RssiRestartMode::GainChangeOccurs,
        inner: TemporalConfig::TimeUs { delay_us: 10, duration_us: 100, wait_us: 7 },
    };
    let s = rssi_setup(&config, 30_720_000, false).unwrap();
    assert_eq!(s.delay, 38);
    assert_eq!(s.wait, 53);
    assert_eq!(s.durations, [11, 10, 0, 0]);
    assert_eq!((s.measure_duration_01, s.measure_duration_23), (10 * 16 + 11, 0));
    assert_eq!(s.weights, [170, 85, 0, 0]);
    assert_eq!(s.config, 12);
    // An update with the same configuration rewrites the registers.
    assert!(rssi_setup(&config, 30_720_000, true).is_some());
}

#[test]
fn rssi_setup_from_samples() {
    let config = RssiConfig {
        restart_mode: RssiRestartMode::SpiWriteToRegister,
        inner: TemporalConfig::RxSamples { delay: 4000, duration: 16, wait: 12 },
    };
    let s = rssi_setup(&config, 30_720_000, false).unwrap();
    assert_eq!((s.delay, s.wait), (255, 3));
    assert_eq!(s.durations, [4, 0, 0, 0]);
    assert_eq!(s.weights, [255, 0, 0, 0]);
    assert_eq!(s.config, 32 + 4 * 4 + 1);
    assert!(rssi_setup(&config, 30_720_000, true).is_none());
    let pulled = RssiConfig::default();
    let s = rssi_setup(&pulled, 30_720_000, false).unwrap();
    assert_eq!((s.delay, s.config), (0, 4));
}

#[test]
fn rx_adc_setup_values() {
    let p = RxAdcParams {
        bbpll_hz: 983_040_000,
        adc_hz: 122_880_000,
        rxbbf_div: 5,
        c3_msb: 10,
        c3_lsb: 5,
        r2346: 3,
    };
    assert_eq!(
        rx_adc_setup(&p),
        [
            0, 0, 0, 36, 36, 0, 0, 124, 12, 101, 127, 12, 127, 10, 0, 127, 127, 127, 124, 124,
            124, 124, 124, 124, 46, 140, 16, 14, 140, 16, 14, 140, 16, 27, 28, 64, 64, 44, 0, 0
        ]
    );
    let p = RxAdcParams {
        bbpll_hz: 983_040_000,
        adc_hz: 61_440_000,
        rxbbf_div: 20,
        c3_msb: 20,
        c3_lsb: 8,
        r2346: 2,
    };
    assert_eq!(
        rx_adc_setup(&p),
        [
            0, 0, 0, 36, 36, 0, 0, 101, 62, 77, 97, 61, 101, 60, 21, 104, 107, 104, 95, 98, 95,
            98, 101, 98, 46, 134, 10, 9, 134, 10, 9, 134, 10, 19, 19, 64, 64, 44, 0, 0
        ]
    );
    let p = RxAdcParams {
        bbpll_hz: 1_228_800_000,
        adc_hz: 245_760_000,
        rxbbf_div: 4,
        c3_msb: 3,
        c3_lsb: 1,
        r2346: 5,
    };
    assert_eq!(
        rx_adc_setup(&p),
        [
            0, 0, 0, 36, 36, 0, 0, 124, 6, 101, 127, 6, 127, 4, 0, 127, 127, 127, 124, 124, 124,
            124, 124, 124, 46, 152, 27, 19, 152, 27, 19, 152, 27, 38, 39, 64, 64, 44, 0, 0
        ]
    );
}

#[test]
fn aux_adc_and_temperature_sensor_registers() {
    let config = AuxAdcConfig {
        decimation: AuxAdcDecimationBits::new(3),
        clock_rate_hz: 40_000_000,
        temp_sense: TempSenseConfig {
            decimation: AuxAdcDecimationBits::new(5),
            measurement_interval_ms: 1000,
            offset_signed: -2,
            enable_periodic: true,
        },
    };
    let s = aux_adc_setup(&config, 983_040_000);
    assert_eq!(s.temp_offset, 0xFE);
    assert_eq!(s.temp_sense2, 2 * 2 + 1);
    assert_eq!(s.temp_sensor_config, 5);
    assert_eq!(s.clock_divider, 24);
    assert_eq!(s.auxadc_config, 6);
}

#[test]
fn tx_monitor_registers() {
    let config = TxMonConfigParams {
        enable_tx1: true,
        enable_tx2: false,
        low_high_gain_threshold_md_b: 37_000,
        low_gain_d_b: 0,
        high_gain_d_b: 24,
        tx_mon_track: true,
        one_shot_mode: true,
        tx_mon_delay: 511,
        tx_mon_duration: 8192,
        tx1_mon_front_end_gain: 2,
        tx2_mon_front_end_gain: 1,
        tx1_mon_lo_cm: 48,
        tx2_mon_lo_cm: 3,
    };
    let s = tx_mon_setup(&config, 0b1010_1111);
    assert_eq!(s.tpm_mode_enable, 64 + 9);
    assert_eq!(s.tx_mon_delay, 255);
    assert_eq!(s.tx_level_thresh, 0b1010_1101);
    assert_eq!(s.tx1_mon_config, 48 * 4 + 2);
    assert_eq!(s.tx2_mon_config, 3 * 4 + 1);
    // The threshold is the larger of threshold / 250 and 255, truncated to 8 bits.
    assert_eq!(s.tx_atten_thresh, 255);
    assert_eq!(s.high_gain, 24);
    assert_eq!(s.low_gain, 32);
}

#[test]
fn dcxo_tune_word_split() {
    assert_eq!(dcxo_tune_bytes(10, 5000), (10, 156, 64));
    assert_eq!(dcxo_tune_bytes(63, 8191), (63, 255, 248));
}

#[test]
fn tx_quad_nco_for_equal_fir_clocks() {
    let nco = tx_quad_nco_setup::<()>(18_000_000, 18_000_000, 30_720_000, 30_720_000, 0)
        .unwrap();
    assert_eq!((nco.tx_nco_word, nco.rx_nco_word, nco.decimation), (1, 1, 3));
    assert_eq!(nco.calculated_rx_phase, 0x1A);
    assert_eq!(nco.tx_nco_freq, 1_920_000);
    assert!(!nco.widen_bandwidth);
    // THB3 x3 with the FIR interpolating by 2 picks the other phase.
    let nco = tx_quad_nco_setup::<()>(18_000_000, 18_000_000, 30_720_000, 30_720_000, 0b10_0010)
        .unwrap();
    assert_eq!(nco.calculated_rx_phase, 0x15);
}

#[test]
fn tx_quad_nco_for_twice_the_rx_clock() {
    let nco = tx_quad_nco_setup::<()>(18_000_000, 18_000_000, 61_440_000, 30_720_000, 0)
        .unwrap();
    assert_eq!((nco.tx_nco_word, nco.rx_nco_word), (1, 0));
    assert_eq!(nco.calculated_rx_phase, 0x0E);
    let nco = tx_quad_nco_setup::<()>(1_000_000, 1_000_000, 7_680_000, 3_840_000, 0).unwrap();
    assert_eq!((nco.tx_nco_word, nco.rx_nco_word, nco.decimation), (1, 0, 2));
    assert_eq!(nco.tx_nco_freq, 240_000);
    assert!(nco.widen_bandwidth);
}

#[test]
fn tx_quad_nco_rejects_unsymmetric_clocks() {
    let r = tx_quad_nco_setup::<()>(18_000_000, 18_000_000, 92_160_000, 30_720_000, 0);
    assert!(matches!(
        r,
        Err(InitError::UnsymetricFirClocks { tx_fir_output_hz: 30_720_000, rx_fir_input_hz: 92_160_000 })
    ));
}

#[test]
fn tx_quad_phase_choice_and_convergence() {
    assert_eq!(tx_quad_initial_phase(RxPhaseConfig::Manual(7), 0x15), Some(7));
    assert_eq!(tx_quad_initial_phase(RxPhaseConfig::Calculated, 0x15), Some(0x15));
    assert_eq!(tx_quad_initial_phase(RxPhaseConfig::ForceSearch, 0x15), None);
    assert_eq!(tx_quad_best_phase(&[false; 32]), 0);
    let mut failed = [false; 32];
    for f in failed.iter_mut().take(10) {
        *f = true;
    }
    assert_eq!(tx_quad_best_phase(&failed), 21);
    // A window that wraps from phase 31 to phase 0.
    let mut failed = [true; 32];
    for p in [29usize, 30, 31, 0, 1, 2, 3] {
        failed[p] = false;
    }
    assert_eq!(tx_quad_best_phase(&failed), 0);
    assert!(tx_quad_converged(TransceiverChannelMode::Dual, 0b111, 0b011));
    assert!(!tx_quad_converged(TransceiverChannelMode::Dual, 0b111, 0b010));
    let single_tx2 = TransceiverChannelMode::Single { rx: ReceiverId::Rx1, tx: TransmitterId::Tx2 };
    assert!(tx_quad_converged(single_tx2, 0, 3));
    assert!(!tx_quad_converged(single_tx2, 3, 1));
}

#[test]
fn interface_delay_choice() {
    assert_eq!(
        choose_interface_delay(&[F; 16], &[T; 16]),
        Some(ClockDataDelay { clock_delay: 0, data_delay: 8 })
    );
    assert_eq!(choose_interface_delay(&[T; 16], &[T; 16]), None);
    let field1 = [T, T, F, F, F, F, F, T, T, T, T, T, T, T, T, T];
    let field0 = [F, F, T, T, T, T, T, T, T, T, T, T, T, T, T, T];
    assert_eq!(
        choose_interface_delay(&field0, &field1),
        Some(ClockDataDelay { clock_delay: 15, data_delay: 11 })
    );
    // The chosen setting is the one probed in the middle of the second sweep's window.
    assert_eq!(choose_interface_delay(&field0, &field1), Some(interface_delay_probe(1, 4)));
    assert_eq!(
        interface_delay_probe(0, 5),
        ClockDataDelay { clock_delay: 0, data_delay: 5 }
    );
    assert_eq!(
        interface_delay_probe(1, 5),
        ClockDataDelay { clock_delay: 15, data_delay: 10 }
    );
}

#[test]
fn interface_delay_read_back_restores_the_registers() {
    let d = DigitalInterfaceDelay::from_registers(0x3A, 0xC1);
    assert_eq!(d.register_values(), (0x3A, 0xC1));
    let c = ClockDataDelay::from_register(0x3A);
    assert_eq!((c.clock_delay, c.data_delay), (3, 10));
    assert_eq!(c.register_value(), 0x3A);
}

#[test]
fn product_id_fields() {
    let id = ProductIdReg::new_with_raw_value(0x0A);
    assert_eq!((id.product_id(), id.rev(), id.raw_value()), (1, 2, 0x0A));
}

#[test]
fn ensm_state_from_register_state() {
    assert_eq!(
        EnsmState::from(regs::EnsmState::Fdd),
        EnsmState::DeviceState(regs::EnsmState::Fdd)
    );
    assert_ne!(EnsmState::from(regs::EnsmState::Alert), EnsmState::Sleep);
}

#[test]
fn uninitialized_driver_hands_back_its_parts() {
    let driver = Ad9361Uninit::new(1u8, 2u16, 3u32);
    assert_eq!(driver.into_parts(), (1, 2, 3));
}

fn fast_config() -> GainControlFastAutoConfig {
    GainControlFastAutoConfig {
        state_wait_time_ns: 260,
        allow_agc_gain_increase: true,
        lp_thresh_increment_time: 5,
        lp_thresh_increment_steps: 3,
        lock_level_lmt_gain_increase: true,
        lock_level_gain_increase_upper_limit: 10,
        lpf_final_settling_steps: 2,
        lmt_final_settling_steps: 1,
        final_overrange_count: 3,
        gain_increase_after_gain_lock: false,
        use_last_lock_level_for_set_gain: true,
        optimized_gain_offset: 5,
        rst_gla_stronger_sig_thresh_above_ll: 10,
        rst_gla_energy_lost_sig_thresh_below_ll: 12,
        energy_lost_stronger_sig_gain_lock_exit_cnt: 8,
        suppress_gain_unlock_on_energy_lost_threshold_exceeded: false,
        suppress_gain_unlock_on_large_adc_large_lmt_overload: false,
        suppress_gain_unlock_on_adc_overload: true,
        suppress_gain_unlock_on_stronger_signal_threshold_exceeded: false,
        gain_index_type_after_exit_rx_mode: FastAgcTargetGainIndexType::SetGain,
        gain_index_type_on_en_agc_high: Some(FastAgcTargetGainIndexType::OptimizedGain),
        power_measurement_duration_in_state5: 64,
        decrement_step_small_lpf_gain_full_table_case_2: 4,
    }
}

fn auto_config() -> GainControlAutoConfig {
    GainControlAutoConfig {
        prevent_gain_inc_lmt_adc_small_overload: true,
        immed_gain_change_if_large_adc_overload: true,
        immed_gain_change_if_large_lmt_overload: false,
        decrement_step_size_large_lpf_or_full_table_case_1: 5,
        decrement_step_size_large_lmt_overload_full_table_case_3: 4,
        adc_small_overload_exceed_counter: 10,
        adc_large_overload_exceed_counter: 11,
        dig_saturation_exceed_counter: 3,
        lmt_overload_large_exceed_counter: 12,
        lmt_overload_small_exceed_counter: 6,
        outer_thresh_offset_to_inner_high: 2,
        inner_thresh_high_negative_dbfs: 10,
        inner_thresh_low_negative_dbfs: 12,
        outer_thresh_offset_to_inner_low: 3,
        outer_thresh_high_dec_steps: 2,
        inner_thresh_high_dec_steps: 1,
        inner_thresh_low_inc_steps: 1,
        outer_thresh_low_inc_steps: 3,
        attack_delay_extra_margin_us: 0,
        enable_sync_for_gain_counter: true,
    }
}

fn gain_control() -> GainControl {
    let common = GainControlCommon {
        digital_config: Some(DigitalGainConfig { max_dig_gain: 20, dig_gain_step_size: 3 }),
        adc_ovr_sample_size: 4,
        dec_pow_measurement_duration: DecPowerMeasurementDuration::new(5),
        low_power_thresh: 24,
        dec_pwr_meas_source: DecPowerMeasurementSource::Hb1Out,
        gain_update_interval_us: 0,
        adc_small_overload_thresh: 47,
        adc_large_overload_thresh: 58,
        lmt_overload_low_thresh_mv_peak: 704,
        lmt_overload_high_thresh_mv_peak: 806,
    };
    let manual = GainControlManualConfig {
        dec_gain_step: 2,
        inc_gain_step: 3,
        rx1_ctrl_input: true,
        rx2_ctrl_input: false,
        split_table_mode: Some(SplitTableManualMode::OnlyInLmt),
    };
    GainControl::new(
        GainControlMode::Manual,
        GainControlMode::AutoHybrid,
        common,
        Some(manual),
        Some(auto_config()),
        Some(fast_config()),
    )
    .unwrap()
}

#[test]
fn fast_agc_register_fields() {
    let before = FastAgcRegisters {
        fast_config_1: 0,
        fast_increment_time: 0,
        fast_energy_detect_count: 0,
        fast_config_2_settling_delay: 0x1F,
        fast_agcll_upper_limit: 0,
        fast_energy_lost_thresh: 0,
        fast_stronger_signal_thresh: 0,
        fast_final_over_range_and_opt_gain: 0,
        agc_config_2: 0x81,
        ensm_config_1: 0,
        fast_low_power_thresh: 0,
        fast_strong_signal_freeze: 0,
        fast_gain_lock_exit_count: 0,
        rx1_manual_lpf_gain: 0,
        rx1_manual_lmt_full_gain: 0,
    };
    let r = fast_agc_registers(&fast_config(), before);
    assert_eq!(r.fast_config_1, 81);
    assert_eq!(r.fast_increment_time, 5);
    assert_eq!(r.fast_energy_detect_count, 64);
    assert_eq!(r.fast_config_2_settling_delay, 0xFF);
    assert_eq!(r.fast_agcll_upper_limit, 10);
    assert_eq!(r.fast_energy_lost_thresh, 140);
    assert_eq!(r.fast_stronger_signal_thresh, 74);
    assert_eq!(r.fast_final_over_range_and_opt_gain, 101);
    assert_eq!(r.agc_config_2, 0xC1);
    assert_eq!(r.ensm_config_1, 0);
    assert_eq!(r.fast_low_power_thresh, 128);
    assert_eq!(r.fast_strong_signal_freeze, 0);
    assert_eq!(r.fast_gain_lock_exit_count, 8);
    assert_eq!(r.rx1_manual_lpf_gain, 64);
    assert_eq!(r.rx1_manual_lmt_full_gain, 0);
}

#[test]
fn fast_agc_without_the_enable_pin_locks_the_gain_automatically() {
    let mut config = fast_config();
    config.gain_index_type_on_en_agc_high = None;
    config.power_measurement_duration_in_state5 = 16 * 512;
    let before = FastAgcRegisters {
        fast_config_1: 0x60,
        fast_increment_time: 0,
        fast_energy_detect_count: 0x1F,
        fast_config_2_settling_delay: 0,
        fast_agcll_upper_limit: 0,
        fast_energy_lost_thresh: 0,
        fast_stronger_signal_thresh: 0,
        fast_final_over_range_and_opt_gain: 0x10,
        agc_config_2: 0,
        ensm_config_1: 0x80,
        fast_low_power_thresh: 0x7F,
        fast_strong_signal_freeze: 0,
        fast_gain_lock_exit_count: 0,
        rx1_manual_lpf_gain: 0x1F,
        rx1_manual_lmt_full_gain: 0x7F,
    };
    let r = fast_agc_registers(&config, before);
    // The EN_AGC bits 5 and 6 keep their value, bit 4 follows the exit target.
    assert_eq!(r.fast_config_1, 0x60 | 0x10 | 0x01);
    assert_eq!(r.fast_energy_detect_count, 0x1F | 0x40);
    assert_eq!(r.fast_final_over_range_and_opt_gain, 0x10 | 101);
    assert_eq!(r.agc_config_2, 0);
    assert_eq!(r.ensm_config_1, 0x82);
    assert_eq!(r.fast_low_power_thresh, 0xFF);
    // Duration code 9: low 3 bits in the LPF gain register, the MSB in the LMT gain register.
    assert_eq!(r.rx1_manual_lpf_gain, 0x1F | (1 << 5));
    assert_eq!(r.rx1_manual_lmt_full_gain, 0xFF);
}

#[test]
fn generic_gain_control_registers() {
    let r = gain_control_registers(&gain_control(), 0x08, 0x1F, 0xC0, 0x10);
    assert_eq!(r.agc_config_1, 252);
    assert_eq!(r.agc_config_2, 0x0D);
    assert_eq!(r.agc_config_3, 83);
    assert_eq!(r.peak_wait_time, 0x3F);
    assert_eq!(r.digital_gain, Some(84));
    assert_eq!(r.adc_small_overload_thresh, 47);
    assert_eq!(r.adc_large_overload_thresh, 58);
    assert_eq!(r.small_lmt_overload_thresh, 235);
    assert_eq!(r.large_lmt_overload_thresh, 49);
    assert_eq!(r.fast_low_power_thresh, 48);
    assert_eq!(r.dec_power_measure_duration, 117);
}

#[test]
fn automatic_gain_control_registers() {
    let r = auto_gain_registers(&gain_control(), 0x80, 0xE3).unwrap();
    assert_eq!(r.agc_lock_level, 138);
    assert_eq!(r.agc_inner_low_thresh, 140);
    assert_eq!(r.outer_power_threshs, 35);
    assert_eq!(r.gain_step2, 35);
    assert_eq!(r.gain_step1, 25);
    assert_eq!(r.adc_overload_counters, 186);
    assert_eq!(r.gain_step_config2, 69);
    assert_eq!(r.lmt_overload_counters, 198);
    assert_eq!(r.gain_step_config1, 0xF3);
    assert_eq!(r.digital_saturation_counter, 19);
    let manual_only = GainControl::new(
        GainControlMode::Manual,
        GainControlMode::Manual,
        gain_control().common,
        Some(GainControlManualConfig {
            dec_gain_step: 1,
            inc_gain_step: 1,
            rx1_ctrl_input: false,
            rx2_ctrl_input: false,
            split_table_mode: None,
        }),
        None,
        None,
    )
    .unwrap();
    assert!(auto_gain_registers(&manual_only, 0, 0).is_none());
}

#[test]
fn ensm_forced_state_changes() {
    assert_eq!(ENSM_CONFIG1_FORCE_ALERT, 0x05);
    assert_eq!(ensm_force_config1(0xFF, regs::EnsmState::Alert, true), Some(0x8F));
    assert_eq!(ensm_force_config1(0x01, regs::EnsmState::Fdd, false), Some(0x20));
    assert_eq!(ensm_force_config1(0x00, regs::EnsmState::Rx, false), Some(0x40));
    assert_eq!(ensm_force_config1(0x00, regs::EnsmState::SleepWait, false), None);
    assert_eq!(ensm_restore_config1(0x00, regs::EnsmState::Tx), Some((0x21, 0x31)));
    assert_eq!(ensm_restore_config1(0xFF, regs::EnsmState::Rx), Some((0xDB, 0xDB)));
    assert_eq!(ensm_restore_config1(0x00, regs::EnsmState::TxFlush), None);
}

#[test]
fn ensm_state_decoding_and_waiting() {
    assert!(matches!(ensm_state_from_register::<()>(0x3A), Ok(regs::EnsmState::Fdd)));
    assert!(matches!(
        ensm_state_from_register::<()>(0x03),
        Err(EnsmError::InvalidEnsmState(3))
    ));
    assert_eq!(ensm_wait_step(0x5A, regs::EnsmState::Fdd, 3), EnsmWait::Reached);
    assert_eq!(ensm_wait_step(0x05, regs::EnsmState::Fdd, 3), EnsmWait::Wait);
    assert_eq!(ensm_wait_step(0x05, regs::EnsmState::Fdd, 10), EnsmWait::Timeout(5));
}

#[test]
fn tracking_bits_are_cleared_while_calibrating() {
    assert_eq!(tracking_disabled(0xFF, 0xFF), (0xD7, 0xFC));
    assert_eq!(tracking_disabled(0x00, 0x00), (0x00, 0x00));
}

#[test]
fn register_addresses() {
    assert_eq!(regs::Register::AdcSetup0.as_u10(), 0x200);
    assert_eq!(regs::Register::SpiConf.as_u10(), 0x000);
    assert_eq!(regs::Register::ProductId.as_u10(), 0x037);
    assert_eq!(regs::Register::DacTest2.as_u10(), 0x3FE);
    assert_eq!(rx_adc_setup_register(0), regs::Register::AdcSetup0);
    assert_eq!(rx_adc_setup_register(7), regs::Register::Integrator1Resistance);
    assert_eq!(rx_adc_setup_register(39).as_u10(), 0x227);
}

#[test]
fn gain_control_timing_registers() {
    let mut common = gain_control().common;
    common.gain_update_interval_us = 1000;
    let config = GainControl::new(
        GainControlMode::Manual,
        GainControlMode::AutoHybrid,
        common,
        gain_control().manual().copied(),
        Some(auto_config()),
        Some(fast_config()),
    )
    .unwrap();
    let r = gain_update_registers(&config, 0, 61_440_000, 30_720_000, 0xC0, 0xE0, 0xF0, 0xDF, 0xE0);
    assert_eq!(r.agc_attack_delay, Some(0xC1));
    assert_eq!(r.peak_wait_time_first, 0xE8);
    assert_eq!(r.peak_wait_time, 0xEE);
    assert_eq!(r.dec_power_measure_duration, 0xF5);
    assert_eq!(r.digital_saturation_counter, 0xDF);
    assert_eq!((r.gain_update_counter_1, r.gain_update_counter_2), (241, 119));
    assert_eq!(r.fast_energy_detect_count, Some(0xF0));
}

#[test]
fn gain_control_timing_shortens_the_power_measurement() {
    let mut common = gain_control().common;
    common.gain_update_interval_us = 10;
    let manual = GainControlManualConfig {
        dec_gain_step: 1,
        inc_gain_step: 1,
        rx1_ctrl_input: false,
        rx2_ctrl_input: false,
        split_table_mode: None,
    };
    let config = GainControl::new(
        GainControlMode::Manual,
        GainControlMode::Manual,
        common,
        Some(manual),
        None,
        None,
    )
    .unwrap();
    let r = gain_update_registers(&config, 0, 61_440_000, 30_720_000, 0, 0, 0, 0, 0);
    assert_eq!(r.agc_attack_delay, None);
    assert_eq!(r.fast_energy_detect_count, None);
    assert_eq!((r.gain_update_counter_1, r.gain_update_counter_2), (36, 1));
    assert_eq!(r.dec_power_measure_duration, 3);
}

#[test]
fn tracking_control_registers() {
    assert_eq!((CALIBRATION_CONFIG_2, CALIBRATION_CONFIG_3), (0x75, 0x95));
    let r = tracking_registers(3, true, TransceiverChannelMode::Dual, 0x1F);
    assert_eq!((r.dc_offset_config_2, r.rx_quad_gain2, r.calibration_config_1), (0xAB, 0x9F, 0xCF));
    let single_rx2 = TransceiverChannelMode::Single { rx: ReceiverId::Rx2, tx: TransmitterId::Tx1 };
    let r = tracking_registers(0, false, single_rx2, 0xFF);
    assert_eq!((r.dc_offset_config_2, r.rx_quad_gain2, r.calibration_config_1), (0xA8, 0x1F, 0xCE));
}

#[test]
fn external_lna_register_values() {
    let config = ExternalLnaConfig {
        settling_delay_ns: 0,
        gain_md_b: 14_000,
        bypass_loss_md_b: 40_000,
        rx1_gpo0_control: true,
        rx2_gpo1_control: false,
        enable_for_all_indexes_in_gt: false,
    };
    assert_eq!(external_lna_registers(&config, 0xC0), (0xA0, 28, 63));
}

#[test]
fn synthesizer_reference_divider_bits() {
    assert_eq!(rx_synth_divider_registers(regs::ClockScaler::Div4, 0x06, 0x00), (0x07, 0x00));
    assert_eq!(rx_synth_divider_registers(regs::ClockScaler::Mul2, 0x06, 0x00), (0x07, 0x80));
    assert_eq!(rx_synth_divider_registers(regs::ClockScaler::Div1, 0x07, 0xFF), (0x06, 0x7F));
    assert_eq!(tx_synth_divider_register(regs::ClockScaler::Div2, 0x80), 0xF7);
}

#[test]
fn bb_pll_frequency_word_bytes() {
    let config = ad9361_embedded::clocks::BbPllConfig::calculate(40_000_000, 983_040_000);
    let (integer, low, mid, high) = bb_pll_word_bytes(&config);
    assert_eq!(integer, config.integer_freq_word);
    assert_eq!(
        (high as u32) << 16 | (mid as u32) << 8 | low as u32,
        config.fractional_freq_word
    );
    assert_eq!(integer, 24);
}

#[test]
fn fir_filter_configuration_values() {
    let coefs = [0i16; 64];
    let tx = TxFirConfig {
        ch_select: FirChSelect::Both,
        attentuate_6db: true,
        tx_coefs: &coefs,
        num_taps: regs::tx_filter_conf::NumberOfTapsRaw::_64,
    };
    assert_eq!(tx_fir_filter_conf(&tx), 3 * 32 + 16 + 8 + 1);
    let rx = RxFirConfig {
        ch_select: FirChSelect::Ch2,
        gain: regs::rx_filter_gain::FilterGain::Zero,
        rx_coefs: &coefs,
        num_taps: regs::tx_filter_conf::NumberOfTapsRaw::_16,
    };
    assert_eq!(rx_fir_filter_conf(&rx), 16);
}

#[test]
fn fir_coefficient_load_sequence() {
    let set = tx_fir_registers();
    let w = |reg, value| RegisterWrite { reg, value };
    let writes = fir_load_register_writes(set, 0x40, 0x43, 0x59, &[1, -2, 7], 2);
    assert_eq!(
        writes,
        vec![
            w(regs::Register::TxEnableFilterCtrl, 0x43),
            w(regs::Register::TxFilterConf, 0x5B),
            w(regs::Register::TxFilterCoefAddr, 0),
            w(regs::Register::TxFilterCoefWriteData1, 1),
            w(regs::Register::TxFilterCoefWriteData2, 0),
            w(regs::Register::TxFilterConf, 0x5F),
            w(regs::Register::TxFilterCoefReadData2, 0),
            w(regs::Register::TxFilterCoefReadData2, 0),
            w(regs::Register::TxFilterCoefAddr, 1),
            w(regs::Register::TxFilterCoefWriteData1, 0xFE),
            w(regs::Register::TxFilterCoefWriteData2, 0xFF),
            w(regs::Register::TxFilterConf, 0x5F),
            w(regs::Register::TxFilterCoefReadData2, 0),
            w(regs::Register::TxFilterCoefReadData2, 0),
            w(regs::Register::TxFilterConf, 0x5B),
            w(regs::Register::TxFilterConf, 0x59),
            w(regs::Register::TxEnableFilterCtrl, 0x40),
        ]
    );
    let rx = fir_load_register_writes(rx_fir_registers(), 0, 1, 0, &[], 16);
    assert_eq!(rx.len(), 5);
    assert_eq!(rx[0], w(regs::Register::RxEnableFilterCtrl, 1));
}

#[test]
fn ensm_setup_values() {
    let fdd = DivisionDuplexConfig::Fdd { independent_mode: false };
    assert_eq!(ensm_state_setup(fdd, false, false, 0xFF), (41, 0xFF, regs::EnsmState::Fdd));
    let tdd = DivisionDuplexConfig::Tdd { enable_txmon: true, use_dual_synth: false };
    assert_eq!(ensm_state_setup(tdd, true, false, 0xFF), (193, 0xEF, regs::EnsmState::Rx));
    assert_eq!(ensm_state_setup(tdd, true, true, 0xFF), (209, 0xFF, regs::EnsmState::Rx));
    let independent = DivisionDuplexConfig::Fdd { independent_mode: true };
    assert_eq!(ensm_mode_setup(independent, false, 0x00), (1, 0x84));
    let dual = DivisionDuplexConfig::Tdd { enable_txmon: false, use_dual_synth: true };
    assert_eq!(ensm_mode_setup(dual, true, 0x08), (0, 0x04));
    assert_eq!(ensm_mode_setup(tdd, true, 0x00), (0, 0x08));
}

#[test]
fn path_and_channel_enables() {
    assert_eq!(path_enables(0x00, true, false), 0x40);
    assert_eq!(path_enables(0xFF, false, true), 0xBF);
    assert_eq!(channel_enables(TransceiverChannelMode::Dual), (true, true, true, true));
    let single = TransceiverChannelMode::Single { rx: ReceiverId::Rx2, tx: TransmitterId::Tx1 };
    assert_eq!(channel_enables(single), (false, true, true, false));
}

fn gpo(rx: bool, tx: bool, init: bool, inactive_high: bool) -> SingleGpoConfig {
    SingleGpoConfig {
        init_state: init,
        inactive_state_high: inactive_high,
        slave_rx_enable: rx,
        slave_tx_enable: tx,
        rx_delay_us: 0,
        tx_delay_us: 0,
    }
}

#[test]
fn gpo_register_values() {
    let config = GpoConfig {
        manual_mode_enable: false,
        gpo: [
            gpo(true, false, true, false),
            gpo(true, true, false, true),
            gpo(false, true, false, true),
            gpo(false, false, false, false),
        ],
    };
    assert_eq!(gpo_registers(&config), (0x36, 0x16));
    assert_eq!(gpo_registers(&GpoConfig::default()), (0, 0));
}

#[test]
fn configured_tx_attenuation_words() {
    assert_eq!(tx_atten_immediate_update(0x00, true), 0x40);
    assert_eq!(tx_atten_immediate_update(0xFF, false), 0xBF);
    assert_eq!(
        tx_attenuation_setup(TransceiverChannelMode::Dual, 10_000),
        vec![
            TxAttenBytes { tx: TransmitterId::Tx1, msb: 0, lsb: 40 },
            TxAttenBytes { tx: TransmitterId::Tx2, msb: 0, lsb: 40 },
        ]
    );
    let single = TransceiverChannelMode::Single { rx: ReceiverId::Rx1, tx: TransmitterId::Tx2 };
    assert_eq!(
        tx_attenuation_setup(single, 70_000),
        vec![
            TxAttenBytes { tx: TransmitterId::Tx2, msb: 1, lsb: 24 },
            TxAttenBytes { tx: TransmitterId::Tx1, msb: 1, lsb: 103 },
        ]
    );
}

#[test]
fn calibration_polling_decisions() {
    assert_eq!(calibration_poll_step(false, 5, CALIBRATION_MAX_POLLS), CalibrationStep::Done);
    assert_eq!(calibration_poll_step(true, 20_000, CALIBRATION_MAX_POLLS), CalibrationStep::Timeout);
    assert_eq!(calibration_poll_step(true, 3, CALIBRATION_MAX_POLLS), CalibrationStep::Wait);
    assert!(calibration_busy(0x82, CAL_RX_BB_TUNE));
    assert!(!calibration_busy(0x02, CAL_RX_BB_TUNE));
    assert!(cp_calibration_done(0x20));
    assert!(!cp_calibration_done(0xDF));
}

#[test]
fn charge_pump_calibration_writes() {
    let tx = cp_calibration_register_writes(40_000_000, false, true);
    assert_eq!(tx.len(), 12);
    assert_eq!(tx[0], RegisterWrite { reg: regs::Register::TxCpLevelDetect, value: 0x17 });
    assert_eq!(tx[7], RegisterWrite { reg: regs::Register::TxVcoCal, value: 0x82 });
    assert_eq!(tx[11], RegisterWrite { reg: regs::Register::TxCpConfig, value: 0x14 });
    let rx = cp_calibration_register_writes(50_000_000, false, false);
    assert_eq!(rx[7], RegisterWrite { reg: regs::Register::RxVcoCal, value: 0x86 });
    let fdd = cp_calibration_register_writes(40_000_000, true, false);
    assert_eq!(fdd[7].value, 0x8E);
    assert_eq!(fdd[10], RegisterWrite { reg: regs::Register::EnsmMode, value: 0x01 });
}


fn internal_lo(pll_int: u16) -> LocalOscClockConfig {
    LocalOscClockConfig::Internal(RfPllConfig { vco_div: PllVcoDivider::Div2, pll_int, pll_frac: 0 })
}

#[test]
fn synth_table_choice() {
    let fdd = DivisionDuplexConfig::Fdd { independent_mode: false };
    let fdd_independent = DivisionDuplexConfig::Fdd { independent_mode: true };
    let tdd = DivisionDuplexConfig::Tdd { enable_txmon: false, use_dual_synth: false };
    let a = internal_lo(100);
    let b = internal_lo(101);
    assert_eq!(synth_lut_type(&fdd, &a, &b), SynthLutType::Fdd);
    assert_eq!(synth_lut_type(&fdd, &a, &a), SynthLutType::Tdd);
    assert_eq!(synth_lut_type(&fdd_independent, &a, &b), SynthLutType::Tdd);
    assert_eq!(synth_lut_type(&tdd, &a, &b), SynthLutType::Tdd);
    let ext = LocalOscClockConfig::External { external_vco_freq: 4_000_000_000 };
    assert_eq!(synth_lut_type(&fdd, &a, &ext), SynthLutType::Fdd);

    assert_eq!(lut_frequency(40_000_000), LutFrequency::Mhz40);
    assert_eq!(lut_frequency(49_999_999), LutFrequency::Mhz40);
    assert_eq!(lut_frequency(50_000_000), LutFrequency::Mhz60);
    assert_eq!(lut_frequency(69_999_999), LutFrequency::Mhz60);
    assert_eq!(lut_frequency(70_000_000), LutFrequency::Mhz80);
}

fn lut_row(vco_mhz: u16) -> SynthLutEntry {
    SynthLutEntry {
        vco_mhz,
        vco_output_level: 5,
        vco_varactor: 7,
        vco_bias_ref: 5,
        vco_bias_tcf: 2,
        vco_cal_offset: 9,
        vco_varactor_reference: 0xC,
        charge_pump_reg: 0x2A,
        lf_c2: 3,
        lf_c1: 4,
        lf_r1: 5,
        lf_c3: 6,
        lf_r3: 7,
    }
}

#[test]
fn synth_table_row_lookup() {
    let lut = [lut_row(12000), lut_row(10000), lut_row(8000), lut_row(6000)];
    assert_eq!(synth_lut_index(&lut, 13_000_000_000), 0);
    assert_eq!(synth_lut_index(&lut, 10_000_000_000), 1);
    assert_eq!(synth_lut_index(&lut, 10_000_999_999), 1);
    assert_eq!(synth_lut_index(&lut, 9_999_999_999), 2);
    assert_eq!(synth_lut_index(&lut, 9_500_000_000), 2);
    assert_eq!(synth_lut_index(&lut, 5_000_000_000), 3);
    assert_eq!(synth_lut_index(&lut[..1], 5_000_000_000), 0);
}

#[test]
fn synth_row_register_writes() {
    let w = rf_pll_setting_register_writes(true, &lut_row(8000), 0xA3, 0xC0);
    let expected = [
        (regs::Register::TxVcoOutput, 0x45),
        (regs::Register::TxAlcVaractor, 0xA7),
        (regs::Register::TxVcoBias1, 0x15),
        (regs::Register::TxForceVcoTune1, 0x48),
        (regs::Register::TxVcoVaractorCtrl1, 0x0C),
        (regs::Register::TxVcoCalRef, 0x00),
        (regs::Register::TxVcoVaractorCtrl0, 0x70),
        (regs::Register::TxCpCurrent, 0xEA),
        (regs::Register::TxLoopFilter1, 0x34),
        (regs::Register::TxLoopFilter2, 0x56),
        (regs::Register::TxLoopFilter3, 0x07),
    ];
    assert_eq!(w.len(), expected.len());
    for (got, (reg, value)) in w.iter().zip(expected.iter()) {
        assert_eq!(*got, RegisterWrite { reg: *reg, value: *value });
    }
    let rx = rf_pll_setting_register_writes(false, &lut_row(8000), 0xA3, 0xC0);
    assert_eq!(rx[0].reg, regs::Register::RxVcoOutput);
    assert_eq!(rx[7].reg, regs::Register::RxCpCurrent);
    assert_eq!(rx[10].reg, regs::Register::RxLoopFilter3);

    let tx_regs = synth_registers(true);
    assert_eq!(tx_regs.fract_byte_2, regs::Register::TxFractByte2);
    assert_eq!(tx_regs.integer_byte_0, regs::Register::TxIntegerByte0);
    assert_eq!(tx_regs.vco_lock, regs::Register::TxCpOverrangeVcoLock);
    let rx_regs = synth_registers(false);
    assert_eq!(rx_regs.fract_byte_2, regs::Register::RxFractByte2);
    assert_eq!(rx_regs.vco_lock, regs::Register::RxCpOverrangeVcoLock);
}

#[test]
fn synth_divider_bytes_and_lock() {
    let c = RfPllConfig { vco_div: PllVcoDivider::Div8, pll_int: 0x3AB, pll_frac: 0x12_3456 };
    assert_eq!(rf_pll_divider_bytes(&c, 0xF8), [0x12, 0x34, 0x56, 0xFB, 0xAB]);
    assert_eq!(rf_pll_divider_bytes(&c, 0x07), [0x12, 0x34, 0x56, 0x03, 0xAB]);
    assert_eq!(rf_pll_dividers_register(true, PllVcoDivider::Div8, 0x5F), 0x2F);
    assert_eq!(rf_pll_dividers_register(false, PllVcoDivider::Div16, 0x5F), 0x53);
    assert!(rf_pll_locked(0x02));
    assert!(!rf_pll_locked(0xFD));
    assert!(bb_pll_locked(0x80));
    assert!(!bb_pll_locked(0x7F));
    assert_eq!(calibration_poll_step(true, 166, PLL_LOCK_MAX_POLLS), CalibrationStep::Wait);
    assert_eq!(calibration_poll_step(true, 167, PLL_LOCK_MAX_POLLS), CalibrationStep::Timeout);
    assert_eq!(calibration_poll_step(false, 167, PLL_LOCK_MAX_POLLS), CalibrationStep::Done);
}

#[test]
fn bb_pll_setup_writes() {
    assert_eq!(bb_pll_loop_filter(), [0x35, 0x5B, 0xE8]);
    let c = BbPllConfig {
        integer_freq_word: 0x2A,
        fractional_freq_word: 0x1A_BCDE,
        charge_pump: ChargePumpConfig::new(10).unwrap(),
    };
    let w = bb_pll_calibration_register_writes(&c);
    let expected = [
        (regs::Register::VcoCtrl, 0xE0),
        (regs::Register::SdmCtrl, 0x10),
        (regs::Register::IntegerBbFreqWord, 0x2A),
        (regs::Register::FractBbFreqWord3, 0xDE),
        (regs::Register::FractBbFreqWord2, 0xBC),
        (regs::Register::FractBbFreqWord1, 0x1A),
        (regs::Register::BbPllCtrl1, 0x05),
        (regs::Register::BbPllCtrl1, 0x01),
        (regs::Register::VcoProgram1, 0x86),
        (regs::Register::VcoProgram2, 0x01),
        (regs::Register::VcoProgram2, 0x05),
    ];
    assert_eq!(w.len(), expected.len());
    for (got, (reg, value)) in w.iter().zip(expected.iter()) {
        assert_eq!(*got, RegisterWrite { reg: *reg, value: *value });
    }
}

fn test_clock_config() -> ClockConfig {
    ClockConfig {
        ref_clk_scalers: RefClockScalers {
            bb_refclk: regs::ClockScaler::Div1,
            rx_synth: regs::ClockScaler::Div1,
            tx_synth: regs::ClockScaler::Div1,
        },
        bb_pll: BbPllConfig {
            integer_freq_word: 0x20,
            fractional_freq_word: 0,
            charge_pump: ChargePumpConfig::new(10).unwrap(),
        },
        adc: regs::AdcDivisor::Div4,
        rx: RxConfig {
            lo: internal_lo(100),
            rhb3: regs::rx_enable_filter_ctrl::Rhb3Decimation::Div3Filter,
            rhb2: true,
            rhb1: false,
            rx_fir: regs::rx_enable_filter_ctrl::RxFirDecimation::Div2EnableFilter,
        },
        tx: TxConfig {
            lo: internal_lo(100),
            dac_div2: false,
            thb3: regs::tx_enable_filter_ctrl::Thb3Interpolation::Mult2HalfBand,
            thb2: false,
            thb1: true,
            tx_fir: regs::tx_enable_filter_ctrl::TxFirInterpolation::Mult4EnableFilter,
        },
    }
}

#[test]
fn clock_chain_registers() {
    let c = test_clock_config();
    assert_eq!(adc_clock_register(0xF8, regs::AdcDivisor::Div4), 0xFA);
    assert_eq!(adc_clock_register(0x07, regs::AdcDivisor::Div64), 0x06);
    assert_eq!(dac_clock_register(0xF7, true), 0xFF);
    assert_eq!(dac_clock_register(0x08, false), 0x00);
    // Half-band stages set, FIR bypassed, receiver enables kept.
    assert_eq!(rx_hb_chain_register(0xC3, &c.rx), 0xE8);
    assert_eq!(tx_hb_chain_register(0x01, &c.tx), 0x14);
    assert_eq!(fir_enable_registers(0xFC, 0x00, &c), (0xFE, 0x03));
}

fn digital_interface(lvds: bool, phase_inversion: bool, pp2: u8) -> DigitalInterfaceConfig {
    DigitalInterfaceConfig {
        pp1_config: Pp1Register::new_with_raw_value(0xA5),
        pp2_config: Pp2Register::new_with_raw_value(pp2),
        pp3_config: ParallelPortModeConfig(regs::parallel_port_conf_3::Register::new_with_raw_value(
            0x1C,
        )),
        rx_default_delay: RxClockDelayConfig::new_with_raw_value(0x32),
        tx_default_delay: TxClockDelayConfig::new_with_raw_value(0x47),
        lvds_config: if lvds {
            Some(LvdsConfig::new(150, true))
        } else {
            None
        },
        rx1rx2_phase_inversion: phase_inversion,
    }
}

#[test]
fn digital_port_setup_writes() {
    let w = digital_port_register_writes(&digital_interface(true, false, 0x24));
    let expected = [
        (regs::Register::ParallelPortConf1, 0xA5),
        (regs::Register::ParallelPortConf2, 0x24),
        (regs::Register::ParallelPortConf3, 0x1C),
        (regs::Register::RxClockDataDelay, 0x32),
        (regs::Register::TxClockDataDelay, 0x47),
        (regs::Register::LvdsBiasCtrl, 0x21),
        (regs::Register::LvdsInvertCtrl1, 0xFF),
        (regs::Register::LvdsInvertCtrl2, 0x0F),
    ];
    assert_eq!(w.len(), expected.len());
    for (got, (reg, value)) in w.iter().zip(expected.iter()) {
        assert_eq!(*got, RegisterWrite { reg: *reg, value: *value });
    }
    let cmos = digital_port_register_writes(&digital_interface(false, false, 0x24));
    assert_eq!(cmos.len(), 6);
    assert_eq!(cmos[5], RegisterWrite { reg: regs::Register::LvdsBiasCtrl, value: 0x03 });

    assert_eq!(digital_port_invert_bits(&digital_interface(false, true, 0x20), 0xFF), Some(0xDF));
    assert_eq!(digital_port_invert_bits(&digital_interface(false, true, 0x00), 0xFF), None);
    assert_eq!(digital_port_invert_bits(&digital_interface(false, false, 0x20), 0xFF), None);
}

#[test]
fn dc_offset_calibration_writes() {
    let bb = bb_dc_offset_register_writes();
    assert_eq!(
        bb,
        vec![
            RegisterWrite { reg: regs::Register::BbDcOffsetCount, value: 63 },
            RegisterWrite { reg: regs::Register::BbDcOffsetShift, value: 15 },
            RegisterWrite { reg: regs::Register::BbDcOffsetAtten, value: 1 },
        ]
    );
    let d = digital_interface(false, false, 0x00);
    let low = rf_dc_offset_register_writes(2_400_000_000, 0x32, 6, 0x28, 5, &d);
    assert_eq!(
        low,
        vec![
            RegisterWrite { reg: regs::Register::WaitCount, value: 0x20 },
            RegisterWrite { reg: regs::Register::RfDcOffsetCount, value: 0x32 },
            RegisterWrite { reg: regs::Register::RfDcOffsetConfig1, value: 0x24 },
            RegisterWrite { reg: regs::Register::RfDcOffsetAtten, value: 6 },
            RegisterWrite { reg: regs::Register::DcOffsetConfig2, value: 0x83 },
            RegisterWrite { reg: regs::Register::InvertBits, value: 0x30 },
        ]
    );
    let edge = rf_dc_offset_register_writes(4_000_000_000, 0x32, 6, 0x28, 5, &d);
    assert_eq!(edge[1].value, 0x32);
    let high = rf_dc_offset_register_writes(4_000_000_001, 0x32, 6, 0x28, 5, &d);
    assert_eq!(high[1].value, 0x28);
    assert_eq!(high[2].value, 0x34);
    assert_eq!(high[3].value, 5);
    let inverted = rf_dc_offset_register_writes(5_800_000_000, 0x32, 6, 0x28, 5, &digital_interface(false, true, 0x00));
    assert_eq!(inverted[5].value, 0x10);
    let pp_inverted = rf_dc_offset_register_writes(5_800_000_000, 0x32, 6, 0x28, 5, &digital_interface(false, false, 0x20));
    assert_eq!(pp_inverted[5].value, 0x10);
}

#[test]
fn bring_up_registers() {
    assert_eq!(clock_enable_register(&ExternalClockConfig::Oscillator), 0x17);
    assert_eq!(clock_enable_register(&ExternalClockConfig::Dcxo { coarse_tune: 8, fine_tune: 5920 }), 0x07);
    assert_eq!(ref_divide_defaults(0x00, 0x80), (0x06, 0xF3));
    assert_eq!(ref_divide_defaults(0xF9, 0x0C), (0xFF, 0x7F));
    assert_eq!(bb_ref_scaler_register(0xF0, regs::ClockScaler::Div4), 0xF2);
    assert_eq!(bb_ref_scaler_register(0x03, regs::ClockScaler::Div1), 0x00);
    assert_eq!(reference_clock_cycles(40_000_000), 39);
    assert_eq!(reference_clock_cycles(1_000_000), 0);
    assert_eq!(reference_clock_cycles(128_999_999), 127);
    assert_eq!(reference_clock_cycles(200_000_000), 127);
    assert_eq!(input_select_register(0x80, TxRfPathConfig::PortB, RxRfPathConfig::Diff_Rx1A_NP_Rx2A_NP), 0xC3);
    assert_eq!(input_select_register(0x7F, TxRfPathConfig::PortA, RxRfPathConfig::SingleEnded_Rx1C_P_Rx2C_P), 0x20);
    assert_eq!(clkout_register(0x0F, Some(regs::ClkOutMode::AdcClkDiv4)), 0x7F);
    assert_eq!(clkout_register(0xFF, None), 0xEF);
    assert_eq!(tx_atten_offset_unmasked(0xFF), 0xBF);
    assert_eq!(full_duplex_register(0xFF), 0xF7);
}

#[test]
fn internal_loopback_for_interface_tuning() {
    // Single port half duplex: loop test with its output enable.
    assert_eq!(internal_loopback_register(0x0C, 0x00), 0x81);
    // Single port full duplex: the output enable is cleared.
    assert_eq!(internal_loopback_register(0x04, 0xFF), 0x7F);
    // Dual port half duplex: only the loop test, the other bits kept.
    assert_eq!(internal_loopback_register(0x08, 0x5E), 0x5F);
}

#[test]
fn gain_table_loading() {
    let table = [[0x01, 0x20, 0x00], [0x02, 0x21, 0x10], [0x03, 0x20, 0x11], [0x04, 0x00, 0x12]];
    let (w, quad) = gain_table_register_writes(&table, RxGainTableType::Full, 0xF7);
    assert_eq!(quad, Some(2));
    assert_eq!(w.len(), 2 + 7 * 4 + 4);
    assert_eq!(w[0], RegisterWrite { reg: regs::Register::AgcConfig2, value: 0xFF });
    assert_eq!(w[1], RegisterWrite { reg: regs::Register::MaxLmtFullGain, value: 3 });
    let row2 = [
        (regs::Register::GainTableAddress, 2),
        (regs::Register::GainTableWriteData1, 0x03),
        (regs::Register::GainTableWriteData2, 0x20),
        (regs::Register::GainTableWriteData3, 0x11),
        (regs::Register::GainTableConfig, 0x1E),
        (regs::Register::GainTableReadData1, 0),
        (regs::Register::GainTableReadData1, 0),
    ];
    for (k, (reg, value)) in row2.iter().enumerate() {
        assert_eq!(w[2 + 14 + k], RegisterWrite { reg: *reg, value: *value });
    }
    assert_eq!(w[30], RegisterWrite { reg: regs::Register::GainTableConfig, value: 0x1A });
    assert_eq!(w[31], RegisterWrite { reg: regs::Register::GainTableReadData1, value: 0 });
    assert_eq!(w[32], RegisterWrite { reg: regs::Register::GainTableReadData1, value: 0 });
    assert_eq!(w[33], RegisterWrite { reg: regs::Register::GainTableConfig, value: 0x00 });

    let (split, quad) = gain_table_register_writes(&table, RxGainTableType::Split, 0x08);
    assert_eq!(split[0], RegisterWrite { reg: regs::Register::AgcConfig2, value: 0x00 });
    assert_eq!(quad, Some(2));
    let other = [[0x01, 0x21, 0x00], [0x02, 0x00, 0x00]];
    assert_eq!(gain_table_register_writes(&other, RxGainTableType::Split, 0).1, Some(0));
    assert_eq!(gain_table_register_writes(&other, RxGainTableType::Full, 0).1, None);
}

#[test]
fn mixer_subtable_loading() {
    let w = mixer_subtable_register_writes(&[0xA0, 0xA1, 0xA2], &[0x10, 0x11, 0x12]);
    assert_eq!(w.len(), 1 + 7 * 3 + 4);
    assert_eq!(w[0], RegisterWrite { reg: regs::Register::GmSubTableConfig, value: 0x02 });
    for (k, addr) in [2u8, 1, 0].iter().enumerate() {
        let base = 1 + 7 * k;
        assert_eq!(w[base], RegisterWrite { reg: regs::Register::GmSubTableAddress, value: *addr });
        assert_eq!(w[base + 1], RegisterWrite { reg: regs::Register::GmSubTableBiasWrite, value: 0 });
        assert_eq!(
            w[base + 2],
            RegisterWrite { reg: regs::Register::GmSubTableGainWrite, value: 0x10 + k as u8 }
        );
        assert_eq!(
            w[base + 3],
            RegisterWrite { reg: regs::Register::GmSubTableCtrlWrite, value: 0xA0 + k as u8 }
        );
        assert_eq!(w[base + 4], RegisterWrite { reg: regs::Register::GmSubTableConfig, value: 0x06 });
        assert_eq!(w[base + 5], RegisterWrite { reg: regs::Register::GmSubTableGainRead, value: 0 });
        assert_eq!(w[base + 6], RegisterWrite { reg: regs::Register::GmSubTableGainRead, value: 0 });
    }
    assert_eq!(w[22], RegisterWrite { reg: regs::Register::GmSubTableConfig, value: 0x02 });
    assert_eq!(w[25], RegisterWrite { reg: regs::Register::GmSubTableConfig, value: 0x00 });
}

#[test]
fn tx_quad_calibration_setup_writes() {
    let w = tx_quad_setup_register_writes(2, 0x3F, Some(0x2A));
    let expected = [
        (regs::Register::Kexp2, 0xBF),
        (regs::Register::QuadCalCount, 0xFF),
        (regs::Register::Kexp1, 0x7F),
        (regs::Register::MagFtestThresh, 0x03),
        (regs::Register::MagFtestThresh2, 0x03),
        (regs::Register::TxQuadFullLmtGain, 0x2A),
        (regs::Register::QuadSettleCount, 0xF0),
        (regs::Register::TxQuadLpfGain, 0x00),
    ];
    assert_eq!(w.len(), expected.len());
    for (got, (reg, value)) in w.iter().zip(expected.iter()) {
        assert_eq!(*got, RegisterWrite { reg: *reg, value: *value });
    }
    let without = tx_quad_setup_register_writes(0, 0xFF, None);
    assert_eq!(without.len(), 7);
    assert_eq!(without[0].value, 0x3F);
    assert_eq!(without[5].reg, regs::Register::QuadSettleCount);
    assert_eq!(TX_QUAD_INVERT_BITS, 0x30);
    assert_eq!(rx2_inversion_register(0xFF, false), 0xDF);
    assert_eq!(rx2_inversion_register(0x00, true), 0x20);
    // With the parallel port inverting RX2, clearing and setting the inversion restores it.
    assert_eq!(rx2_inversion_register(rx2_inversion_register(0xE4, false), true), 0xE4);
}

#[test]
fn tx_quad_calibration_run_writes() {
    assert_eq!(
        tx_quad_run_register_writes(0x0E, 1, 3),
        vec![
            RegisterWrite { reg: regs::Register::QuadCalNcoFreqPhaseOffset, value: 0x2E },
            RegisterWrite { reg: regs::Register::QuadCalCtrl, value: 0x7F },
            RegisterWrite { reg: regs::Register::QuadCalCtrl, value: 0x7B },
            RegisterWrite { reg: regs::Register::CalibrationCtrl, value: 0x10 },
        ]
    );
    assert_eq!(tx_quad_run_register_writes(31, 3, 0)[0].value, 0x7F);
}

#[test]
fn clock_tree_fit_check() {
    let c = test_clock_config();
    assert!(c.fits(40_000_000));
    let mut too_fine = test_clock_config();
    too_fine.bb_pll.fractional_freq_word = 0x20_0000;
    assert!(!too_fine.fits(40_000_000));
    let mut doubled = test_clock_config();
    doubled.ref_clk_scalers.rx_synth = regs::ClockScaler::Mul2;
    doubled.bb_pll.integer_freq_word = 1;
    assert!(doubled.fits(2_000_000_000));
    assert!(!doubled.fits(2_200_000_000));
    let mut bad_lo = test_clock_config();
    bad_lo.tx.lo = LocalOscClockConfig::Internal(RfPllConfig {
        vco_div: PllVcoDivider::Div2,
        pll_int: 0x800,
        pll_frac: 0,
    });
    assert!(!bad_lo.fits(40_000_000));
    // BB PLL of 0x20 * 40 MHz = 1.28 GHz fits; 0x20 * 200 MHz does not.
    assert!(!c.fits(200_000_000));
}

#[test]
fn ensm_settings_for_interface_tuning() {
    assert_eq!(TUNE_ENSM_MODE, 0x01);
    assert_eq!(tune_ensm_config_2(0xFF), 0x67);
    assert_eq!(tune_ensm_config_2(0x00), 0x04);
    assert_eq!(tune_ensm_config_2(0x63), 0x67);
    assert_eq!(RX_TUNE_BIST_CONFIG, 0x09);
    assert_eq!(loopback_disabled_register(0xFF), 0x7E);
    assert_eq!(loopback_disabled_register(0x81), 0x00);
}

#[test]
fn charge_pump_current_has_offset() {
    let cp = ad9361_embedded::clocks::ChargePumpConfig::calculate(1_280_000_000, 40_000_000);
    assert_eq!(cp.reg_value(), 5);
    assert_eq!(cp.current(), 150);
    assert_eq!(ad9361_embedded::clocks::ChargePumpConfig::new(1).unwrap().current(), 50);
}

#[test]
fn bb_pll_clock_undoes_the_divider_words_up_to_rounding() {
    let mut c = test_clock_config();
    c.bb_pll = BbPllConfig::calculate(40_000_000, 983_040_000);
    assert_eq!(c.bb_pll.integer_freq_word, 24);
    assert_eq!(c.bb_pll.fractional_freq_word, 1_203_240);
    assert!(c.fits(40_000_000));
    let clocks = ad9361_embedded::clocks::Clocks::new(40_000_000, &c);
    assert_eq!(clocks.bb_pll(), 983_039_981);
    assert!(clocks.bb_pll() <= 983_040_000);
    assert!(clocks.bb_pll() > 983_040_000 - 40_000_000 / 2_088_960 - 1);
}

#[test]
fn control_output_bit_update_keeps_the_other_pins() {
    let mut r = ad9361_embedded::ctrl_output::ControlOutputReader::<0>::new(0b1010_0101, 0xFF);
    r.update_bit(1, true);
    assert_eq!(r.checked_bit(1), Some(true));
    assert_eq!(r.checked_bit(0), Some(true));
    assert_eq!(r.checked_bit(2), Some(true));
    r.update_bit(7, false);
    assert_eq!(r.checked_bit(7), Some(false));
    assert_eq!(r.checked_bit(5), Some(true));
    let mut masked = ad9361_embedded::ctrl_output::ControlOutputReader::<1>::new(0, 0b0000_0001);
    masked.update_bit(3, true);
    assert_eq!(masked.checked_bit(3), None);
    assert_eq!(masked.checked_bit(0), Some(false));
}

#[test]
fn tx_quad_parameters_of_the_bring_up() {
    assert!(matches!(tx_quad_params::<()>(None, None, true, true), Ok(None)));
    assert!(matches!(tx_quad_params::<()>(None, Some(3), false, false), Ok(None)));
    assert!(matches!(
        tx_quad_params::<()>(Some(RxPhaseConfig::Calculated), None, false, false),
        Err(InitError::NoGainTableIndexForTxQuadCalibrationFound)
    ));
    let r = tx_quad_params::<()>(Some(RxPhaseConfig::Manual(4)), Some(0x2A), false, true);
    assert_eq!(
        r.unwrap(),
        Some(TxQuadCalibParams {
            phase_config: RxPhaseConfig::Manual(4),
            gain_table_index: 0x2A,
            phase_inversion_en: true,
        })
    );
    let r = tx_quad_params::<()>(Some(RxPhaseConfig::ForceSearch), Some(0), false, false);
    assert_eq!(r.unwrap().unwrap().phase_inversion_en, false);
}

#[test]
fn driver_state_keeps_what_the_bring_up_and_later_calls_set() {
    let clock = test_clock_config();
    let mut s = DriverState::new(
        40_000_000,
        clock,
        None,
        EnsmState::DeviceState(regs::EnsmState::Fdd),
        true,
    );
    assert_eq!(s.reference_clk_rate(), 40_000_000);
    assert_eq!(*s.clock_config(), clock);
    assert_eq!(s.tx_fir_taps(), None);
    assert_eq!(s.rx_fir_taps(), None);
    assert_eq!(s.ensm_state(), EnsmState::DeviceState(regs::EnsmState::Fdd));
    assert!(s.ensm_pin_control());
    assert_eq!(s.tx_quad(), None);
    s.set_tx_fir_taps(64);
    s.set_rx_fir_taps(128);
    assert_eq!(s.tx_fir_taps(), Some(64));
    assert_eq!(s.rx_fir_taps(), Some(128));
    let mut other = clock;
    other.adc = regs::AdcDivisor::Div2;
    s.set_clock(other);
    assert_eq!(s.clock_config().adc, regs::AdcDivisor::Div2);
    assert_eq!(s.tx_fir_taps(), Some(64));
    assert_eq!(s.rx_fir_taps(), Some(128));
}

fn gain_control_with(common: GainControlCommon, manual: GainControlManualConfig) -> GainControl {
    GainControl::new(
        GainControlMode::Manual,
        GainControlMode::Manual,
        common,
        Some(manual),
        None,
        None,
    )
    .unwrap()
}

fn manual_steps(inc: u8, dec: u8) -> GainControlManualConfig {
    GainControlManualConfig {
        dec_gain_step: dec,
        inc_gain_step: inc,
        rx1_ctrl_input: false,
        rx2_ctrl_input: false,
        split_table_mode: None,
    }
}

fn base_config() -> ad9361_embedded::config::ConfigRaw {
    ad9361_embedded::config::ConfigRaw {
        reference_clk_rate: 40_000_000,
        rf_rx_bandwidth_hz: 18_000_000,
        rf_tx_bandwidth_hz: 18_000_000,
        clock: test_clock_config(),
        transceiver_channel_mode: TransceiverChannelMode::Dual,
        rx_path: RxRfPathConfig::Diff_Rx1A_NP_Rx2A_NP,
        tx_path: TxRfPathConfig::PortA,
        tx_monitoring: ad9361_embedded::config::TxMonitorConfig::Disabled,
        division_duplex_config: DivisionDuplexConfig::Fdd { independent_mode: false },
        digital_interface: digital_interface(true, false, 0),
        external_clock_config: ExternalClockConfig::Oscillator,
        gain_table_type: RxGainTableType::Full,
        clkout_mode: None,
        ensm_enable_pin_pulse_mode: false,
        ensm_enable_txnrx_control: false,
        tx_quad_calib: None,
        dc_offset_tracking_update_event: 5,
        dc_offset_attenuation_high_range: 6,
        dc_offset_attenuation_low_range: 5,
        dc_offset_count_high_range: 0x28,
        dc_offset_count_low_range: 0x32,
        qec_tracking_slow_mode: false,
        tx_attenuation_md_b: 10_000,
        update_tx_gain_in_alert: false,
        gain_control: gain_control_with(gain_control().common, manual_steps(2, 2)),
        rssi: RssiConfig {
            restart_mode: RssiRestartMode::GainChangeOccurs,
            inner: TemporalConfig::TimeUs { delay_us: 10, duration_us: 100, wait_us: 7 },
        },
        aux_adc: AuxAdcConfig {
            decimation: AuxAdcDecimationBits::new(3),
            clock_rate_hz: 40_000_000,
            temp_sense: TempSenseConfig {
                decimation: AuxAdcDecimationBits::new(5),
                measurement_interval_ms: 1000,
                offset_signed: -2,
                enable_periodic: true,
            },
        },
        aux_dac: AuxDacConfig { aux_dac_manual_mode_enable: false, dac_config: [None, None] },
        ctrl_outs_enable_mask: 0xFF,
        ctrl_outs_index: 0,
        elna: None,
        gpo_config: GpoConfig::default(),
    }
}

#[test]
fn configuration_errors_name_the_broken_rule() {
    assert!(base_config().validate().is_ok());

    let mut c = base_config();
    c.gain_control = gain_control_with(gain_control().common, manual_steps(2, 9));
    assert!(matches!(
        c.validate(),
        Err(ValidationError::InvalidStepSize(StepSizeKind::ManualGainDec, 9))
    ));
    c.gain_control = gain_control_with(gain_control().common, manual_steps(0, 9));
    assert!(matches!(
        c.validate(),
        Err(ValidationError::InvalidStepSize(StepSizeKind::ManualGainInc, 0))
    ));

    let mut common = gain_control().common;
    common.lmt_overload_low_thresh_mv_peak = 900;
    let mut c = base_config();
    c.gain_control = gain_control_with(common, manual_steps(2, 2));
    assert!(matches!(c.validate(), Err(ValidationError::InvalidLmtOverloadThreshold)));
    common.adc_small_overload_thresh = 60;
    c.gain_control = gain_control_with(common, manual_steps(2, 2));
    assert!(matches!(c.validate(), Err(ValidationError::InvalidAdcOverloadThresholds)));

    let mut c = base_config();
    c.dc_offset_tracking_update_event = 8;
    assert!(matches!(c.validate(), Err(ValidationError::FieldOutOfRange)));
    let mut c = base_config();
    c.external_clock_config = ExternalClockConfig::Dcxo { coarse_tune: 64, fine_tune: 0 };
    assert!(matches!(c.validate(), Err(ValidationError::FieldOutOfRange)));
    let mut c = base_config();
    c.tx_attenuation_md_b = 89_751;
    assert!(matches!(c.validate(), Err(ValidationError::TxAttenuationInvalid(89_751))));
    let mut c = base_config();
    c.rf_tx_bandwidth_hz = 56_000_001;
    assert!(matches!(c.validate(), Err(ValidationError::InvalidRfTxBandwidth)));
}
