//! Register map of the AD9361: register field encoders, field value enums and bit masks.
use vstd::prelude::*;

pub use clk_bb_pll::{AdcDivisor, ClkOutMode};
pub use clock_enable::ExternalClockConfig;
pub use dec_power_measure_duration::DecPowerMeasurementSource;
pub use rfpll_dividers::PllVcoDividerBits;
pub use state::EnsmState;

verus! {

/// Masking the low `width` bits of `x` and shifting them up by `shift` places the value
/// `x mod 2^width` at bit `shift` of a byte.
pub proof fn lemma_u8_field(x: u8, width: nat, shift: nat)
    requires
        0 < width < 8,
        width + shift <= 8,
    ensures
        ((x & (vstd::bits::low_bits_mask(width) as u8)) << (shift as u8)) as int == (x as int
            % vstd::arithmetic::power2::pow2(width) as int) * vstd::arithmetic::power2::pow2(
            shift,
        ) as int,
{
    let pw = vstd::arithmetic::power2::pow2(width) as int;
    let ps = vstd::arithmetic::power2::pow2(shift) as int;
    vstd::arithmetic::power2::lemma2_to64();
    vstd::arithmetic::power2::lemma_pow2_pos(width);
    vstd::arithmetic::power2::lemma_pow2_pos(shift);
    vstd::arithmetic::power2::lemma_pow2_adds(width, shift);
    assert(vstd::arithmetic::power2::pow2(width + shift) <= 256) by {
        if width + shift < 8 {
            vstd::arithmetic::power2::lemma_pow2_strictly_increases(width + shift, 8);
        }
    }
    vstd::bits::lemma_u8_low_bits_mask_is_mod(x, width);
    let y = x & (vstd::bits::low_bits_mask(width) as u8);
    assert(y as int == x as int % pw);
    assert(y < pw);
    assert(y * ps <= (pw - 1) * ps) by (nonlinear_arith)
        requires
            y < pw,
            ps > 0,
    ;
    assert((pw - 1) * ps == pw * ps - ps) by (nonlinear_arith);
    vstd::bits::lemma_u8_shl_is_mul(y, shift as u8);
}

/// Masking the low `width` bits of `x` and shifting them up by `shift` places the value
/// `x mod 2^width` at bit `shift` of a 16 bit word.
pub proof fn lemma_u16_field(x: u16, width: nat, shift: nat)
    requires
        0 < width < 16,
        width + shift <= 16,
    ensures
        ((x & (vstd::bits::low_bits_mask(width) as u16)) << (shift as u16)) as int == (x as int
            % vstd::arithmetic::power2::pow2(width) as int) * vstd::arithmetic::power2::pow2(
            shift,
        ) as int,
{
    let pw = vstd::arithmetic::power2::pow2(width) as int;
    let ps = vstd::arithmetic::power2::pow2(shift) as int;
    vstd::arithmetic::power2::lemma2_to64();
    vstd::arithmetic::power2::lemma_pow2_pos(width);
    vstd::arithmetic::power2::lemma_pow2_pos(shift);
    vstd::arithmetic::power2::lemma_pow2_adds(width, shift);
    assert(vstd::arithmetic::power2::pow2(width + shift) <= 65536) by {
        if width + shift < 16 {
            vstd::arithmetic::power2::lemma_pow2_strictly_increases(width + shift, 16);
        }
    }
    vstd::bits::lemma_u16_low_bits_mask_is_mod(x, width);
    let y = x & (vstd::bits::low_bits_mask(width) as u16);
    assert(y as int == x as int % pw);
    assert(y < pw);
    assert(y * ps <= (pw - 1) * ps) by (nonlinear_arith)
        requires
            y < pw,
            ps > 0,
    ;
    assert((pw - 1) * ps == pw * ps - ps) by (nonlinear_arith);
    vstd::bits::lemma_u16_shl_is_mul(y, shift as u16);
}

/// Scaler of a reference clock.
#[derive(Debug, Clone, Copy, PartialEq, Eq, Structural)]
pub enum ClockScaler {
    Div1,
    Div2,
    Div4,
    Mul2,
}

impl ClockScaler {
    /// Raw 2 bit register value of the variant.
    pub open spec fn raw(self) -> u8 {
        match self {
            ClockScaler::Div1 => 0,
            ClockScaler::Div2 => 1,
            ClockScaler::Div4 => 2,
            ClockScaler::Mul2 => 3,
        }
    }

    /// Multiplier of the scaler.
    pub open spec fn mult_spec(self) -> u32 {
        match self {
            ClockScaler::Mul2 => 2,
            _ => 1,
        }
    }

    /// Divisor of the scaler.
    pub open spec fn div_spec(self) -> u32 {
        match self {
            ClockScaler::Div1 => 1,
            ClockScaler::Div2 => 2,
            ClockScaler::Div4 => 4,
            ClockScaler::Mul2 => 1,
        }
    }

    /// Raw 2 bit register value of the variant.
    pub fn raw_value(&self) -> (r: u8)
        ensures
            r == self.raw(),
            r < 4,
    {
        match self {
            ClockScaler::Div1 => 0,
            ClockScaler::Div2 => 1,
            ClockScaler::Div4 => 2,
            ClockScaler::Mul2 => 3,
        }
    }

    /// Decodes a raw 2 bit register value.
    pub fn new_with_raw_value(value: u8) -> (r: Self)
        requires
            value < 4,
        ensures
            r.raw() == value,
    {
        if value == 0 {
            ClockScaler::Div1
        } else if value == 1 {
            ClockScaler::Div2
        } else if value == 2 {
            ClockScaler::Div4
        } else {
            ClockScaler::Mul2
        }
    }

    /// Multiplier of the scaler: 2 for `Mul2`, 1 otherwise.
    pub fn mult(&self) -> (r: u32)
        ensures
            r == self.mult_spec(),
    {
        match self {
            ClockScaler::Div1 => 1,
            ClockScaler::Div2 => 1,
            ClockScaler::Div4 => 1,
            ClockScaler::Mul2 => 2,
        }
    }

    /// Divisor of the scaler: 1, 2 or 4 for the dividing variants, 1 for `Mul2`.
    pub fn div(&self) -> (r: u32)
        ensures
            r == self.div_spec(),
    {
        match self {
            ClockScaler::Div1 => 1,
            ClockScaler::Div2 => 2,
            ClockScaler::Div4 => 4,
            ClockScaler::Mul2 => 1,
        }
    }
}

} // verus!

verus! {

/// The registers of the AD9361, by name.
#[derive(Debug, Clone, Copy, PartialEq, Eq, Hash, Structural)]
pub enum Register {
    /// SPI Configuration
    SpiConf,
    /// Multi-Chip Sync and Tx Mon Control
    MultichipSyncAndTxMonCtrl,
    /// Tx Enable & Filter Control
    TxEnableFilterCtrl,
    /// Rx Enable & Filter Control
    RxEnableFilterCtrl,
    /// Input Select
    InputSelect,
    /// RFPLL Dividers
    RfPllDividers,
    /// Rx Clock & Data Delay
    RxClockDataDelay,
    /// Tx Clock & Data Delay
    TxClockDataDelay,
    /// Clock Enable
    ClockEnable,
    /// BBPLL
    BbPll,
    /// Offset
    TempOffset,
    /// Start Temp Reading
    StartTempReading,
    /// Temp Sense2
    TempSense2,
    /// Temperature
    Temperature,
    /// Temp Sensor Config
    TempSensorConfig,
    /// Parallel Port Configuration 1
    ParallelPortConf1,
    /// Parallel Port Configuration 2
    ParallelPortConf2,
    /// Parallel Port Configuration 3
    ParallelPortConf3,
    /// ENSM Mode
    EnsmMode,
    /// ENSM Config 1
    EnsmConfig1,
    /// ENSM Config 2
    EnsmConfig2,
    /// Calibration Control
    CalibrationCtrl,
    /// State
    State,
    /// AuxDAC 1 Word
    Auxdac1Word,
    /// AuxDAC 2 Word
    Auxdac2Word,
    /// AuxDAC 1 Config
    Auxdac1Config,
    /// AuxDAC 2 Config
    Auxdac2Config,
    /// AuxADC Clock Divider
    AuxadcClockDivider,
    /// Aux ADC Config
    AuxadcConfig,
    /// AuxADC Word MSB
    AuxadcWordMsb,
    /// AuxADC LSB
    AuxadcLsb,
    /// Auto GPO
    AutoGpo,
    /// AGC Gain Lock Delay
    AgcGainLockDelay,
    /// AGC Attack Delay
    AgcAttackDelay,
    /// AuxDAC Enable Control
    AuxdacEnableCtrl,
    /// RX Load Synth Delay
    RxLoadSynthDelay,
    /// TX Load Synth Delay
    TxLoadSynthDelay,
    /// External LNA control
    ExternalLnaCtrl,
    /// GPO Force and Init
    GpoForceAndInit,
    /// GPO0 Rx delay
    Gpo0RxDelay,
    /// GPO1 Rx delay
    Gpo1RxDelay,
    /// GPO2 Rx delay
    Gpo2RxDelay,
    /// GPO3 Rx delay
    Gpo3RxDelay,
    /// GPO0 Tx Delay
    Gpo0TxDelay,
    /// GPO1 Tx Delay
    Gpo1TxDelay,
    /// GPO2 Tx Delay
    Gpo2TxDelay,
    /// GPO3 Tx Delay
    Gpo3TxDelay,
    /// AuxDAC1 Rx Delay
    Auxdac1RxDelay,
    /// AuxDAC1 Tx Delay
    Auxdac1TxDelay,
    /// AuxDAC2 Rx Delay
    Auxdac2RxDelay,
    /// AuxDAC2 Tx Delay
    Auxdac2TxDelay,
    /// Control Output Pointer
    CtrlOutputPointer,
    /// Control Output Enable
    CtrlOutputEnable,
    /// Product ID
    ProductId,
    /// Reference Clock Cycles
    ReferenceClockCycles,
    /// Digital I/O Control
    DigitalIoCtrl,
    /// LVDS Bias control
    LvdsBiasCtrl,
    /// LVDS Invert control1
    LvdsInvertCtrl1,
    /// LVDS Invert control2
    LvdsInvertCtrl2,
    /// BB PLL Control 1
    BbPllCtrl1,
    /// Fractional BB Freq Word 1
    FractBbFreqWord1,
    /// Fractional BB Freq Word 2
    FractBbFreqWord2,
    /// Fractional BB Freq Word 3
    FractBbFreqWord3,
    /// Integer BB Freq Word
    IntegerBbFreqWord,
    /// Clock Control
    ClockCtrl,
    /// CP Current
    CpCurrent,
    /// CP Bleed Current
    CpBleedCurrent,
    /// Loop Filter 1
    LoopFilter1,
    /// Loop Filter 2
    LoopFilter2,
    /// Loop Filter 3
    LoopFilter3,
    /// VCO Control
    VcoCtrl,
    VcoProgram1,
    VcoProgram2,
    /// SDM Control
    SdmCtrl,
    /// Rx Synth Power Down Override
    RxSynthPowerDownOverride,
    /// TX Synth Power Down Override
    TxSynthPowerDownOverride,
    /// Rx Analog Power Down Override 1
    RxAnalogPowerDownOverride1,
    /// Rx Analog Power Down Override 2
    RxAnalogPowerDownOverride2,
    /// Rx1 ADC Power Down Override
    Rx1AdcPowerDownOverride,
    /// Rx2 ADC Power Down Override
    Rx2AdcPowerDownOverride,
    /// Tx Analog Power Down Override 1
    TxAnalogPowerDownOverride1,
    /// Analog Power Down Override
    AnalogPowerDownOverride,
    /// Misc Power Down Override
    MiscPowerDownOverride,
    /// CH 1 Overflow
    Ch1Overflow,
    /// CH 2 Overflow
    Ch2Overflow,
    /// TX Filter Coefficient Address
    TxFilterCoefAddr,
    /// TX Filter Coefficient Write Data 1
    TxFilterCoefWriteData1,
    /// TX Filter Coefficient Write Data 2
    TxFilterCoefWriteData2,
    /// TX Filter Coefficient Read Data 1
    TxFilterCoefReadData1,
    /// TX Filter Coefficient Read Data 2
    TxFilterCoefReadData2,
    /// TX Filter Configuration
    TxFilterConf,
    /// Tx Mon Low Gain
    TxMonLowGain,
    /// Tx Mon High Gain
    TxMonHighGain,
    /// Tx Mon Delay
    TxMonDelay,
    /// Tx Level Threshold
    TxLevelThresh,
    /// TX RSSI1
    TxRssi1,
    /// TX RSSI2
    TxRssi2,
    /// TX RSSI LSB
    TxRssiLsb,
    /// TPM Mode Enable
    TpmModeEnable,
    /// Temp Gain Coefficient
    TxMonTempGainCoef,
    /// Tx Mon 1 Config
    TxMon1Config,
    /// Tx Mon 2 Config
    TxMon2Config,
    /// Tx1 Atten 0
    Tx1Atten0,
    /// Tx1 Atten 1
    Tx1Atten1,
    /// Tx2 Atten 0
    Tx2Atten0,
    /// Tx2 Atten 1
    Tx2Atten1,
    /// Tx Atten Offset
    TxAttenOffset,
    /// Tx Atten Threshold
    TxAttenThresh,
    /// Tx1 Dig Attenuation
    Tx1DigAtten,
    /// Tx2 Dig Attenuation
    Tx2DigAtten,
    /// TX1 Symbol Attenuation
    Tx1SymbolAtten,
    /// TX2 Symbol Attenuation
    Tx2SymbolAtten,
    /// TX Symbol Atten Config
    TxSymbolAttenConfig,
    /// Tx1 Out 1 Phase Corr
    Tx1Out1PhaseCorr,
    /// Tx1 Out 1 Gain Corr
    Tx1Out1GainCorr,
    /// Tx2 Out 1 Phase Corr
    Tx2Out1PhaseCorr,
    /// Tx2 Out 1 Gain Corr
    Tx2Out1GainCorr,
    /// Tx1 Out 1 Offset I
    Tx1Out1OffsetI,
    /// Tx1 Out 1 Offset Q
    Tx1Out1OffsetQ,
    /// Tx2 Out 1 Offset I
    Tx2Out1OffsetI,
    /// Tx2 Out 1 Offset Q
    Tx2Out1OffsetQ,
    /// Tx1 Out 2 Phase Corr
    Tx1Out2PhaseCorr,
    /// Tx1 Out 2 Gain Corr
    Tx1Out2GainCorr,
    /// Tx2 Out 2 Phase Corr
    Tx2Out2PhaseCorr,
    /// Tx2 Out 2 Gain Corr
    Tx2Out2GainCorr,
    /// Tx1 Out 2 Offset I
    Tx1Out2OffsetI,
    /// Tx1 Out 2 Offset Q
    Tx1Out2OffsetQ,
    /// Tx2 Out 2 Offset I
    Tx2Out2OffsetI,
    /// Tx2 Out 2 Offset Q
    Tx2Out2OffsetQ,
    /// Force Bits
    TxForceBits,
    /// Quad Cal NCO Freq & Phase Offset
    QuadCalNcoFreqPhaseOffset,
    /// Quad Cal Control
    QuadCalCtrl,
    /// Kexp 1
    Kexp1,
    /// Kexp 2
    Kexp2,
    /// QUAD Settle count
    QuadSettleCount,
    /// Mag. Ftest Thresh
    MagFtestThresh,
    /// Mag. Ftest Thresh 2
    MagFtestThresh2,
    /// Quad cal status Tx1
    QuadCalStatusTx1,
    /// Quad cal status Tx2
    QuadCalStatusTx2,
    /// Quad cal Count
    QuadCalCount,
    /// Tx Quad Full/LMT Gain
    TxQuadFullLmtGain,
    /// Squarer Config
    SquarerConfig,
    /// TX Quad Cal Atten
    TxQuadCalAtten,
    /// Thresh Accum
    ThreshAccum,
    /// Tx Quad LPF Gain
    TxQuadLpfGain,
    /// TxDAC Vds I
    TxdacVdsI,
    /// TxDAC Vds Q
    TxdacVdsQ,
    /// TxDAC gn I
    TxdacGnI,
    /// TxDAC gn Q
    TxdacGnQ,
    /// TxBBF OpAmp A
    TxbbfOpampA,
    /// TxBBF OpAmp B
    TxbbfOpampB,
    /// Tx BBF R1
    TxBbfR1,
    /// Tx BBF R2
    TxBbfR2,
    /// Tx BBF R3
    TxBbfR3,
    /// Tx BBF R4
    TxBbfR4,
    /// Tx BBF RP
    TxBbfRp,
    /// Tx BBF C1
    TxBbfC1,
    /// Tx BBF C2
    TxBbfC2,
    /// Tx BBF Cp
    TxBbfCp,
    /// Tx Tune Control
    TxTuneCtrl,
    /// Tx BBF R2b
    TxBbfR2b,
    /// Tx BBF Tune
    TxBbfTune,
    /// Config0
    Config0,
    /// Resistor
    Resistor,
    /// Capacitor
    Capacitor,
    /// LO CM
    LoCm,
    /// TX BBF Tune Divider
    TxBbfTuneDivider,
    /// TX BBF Tune Mode
    TxBbfTuneMode,
    /// Rx Filter Coeff Addr
    RxFilterCoefAddr,
    /// Rx Filter Coeff Data 1
    RxFilterCoefData1,
    /// Rx Filter Coeff Data 2
    RxFilterCoefData2,
    /// Rx Filter Coeff Read Data 1
    RxFilterCoefReadData1,
    /// Rx Filter Coeff Read Data 2
    RxFilterCoefReadData2,
    /// Rx Filter Config
    RxFilterConfig,
    /// Rx Filter Gain
    RxFilterGain,
    /// AGC Config1
    AgcConfig1,
    /// AGC config2
    AgcConfig2,
    /// AGC Config3
    AgcConfig3,
    /// Max LMT/Full Gain
    MaxLmtFullGain,
    /// Peak Wait Time
    PeakWaitTime,
    /// Digital Gain
    DigitalGain,
    /// AGC Lock Level
    AgcLockLevel,
    /// ADC noise Correction Factor
    AdcNoiseCorrectionFactor,
    /// Gain Step Config1
    GainStepConfig1,
    /// ADC Small Overload Threshold
    AdcSmallOverloadThresh,
    /// ADC Large Overload Threshold
    AdcLargeOverloadThresh,
    /// Gain Step Config 2
    GainStepConfig2,
    /// Small LMT Overload Threshold
    SmallLmtOverloadThresh,
    /// Large LMT Overload Threshold
    LargeLmtOverloadThresh,
    /// Rx1 Manual LMT/Full Gain
    Rx1ManualLmtFullGain,
    /// Rx1 Manual LPF gain
    Rx1ManualLpfGainOrAgcCurrentLpf,
    /// Rx1 Manual Digital/Forced Gain
    Rx1ManualDigitalOrForcedGain,
    /// Rx2 Manual LMT/Full Gain
    Rx2ManualLmtFullGain,
    /// Rx2 Manual LPF Gain
    Rx2ManualLpfGainOrAgcCurentLpf,
    /// Rx2 Manual Digital/Forced Gain
    Rx2ManualDigitalOrForcedGain,
    /// Config 1
    FastConfig1,
    /// Config 2 & Settling Delay
    FastConfig2SettlingDelay,
    /// Energy Lost Threshold
    FastEnergyLostThresh,
    /// Stronger Signal Threshold
    FastStrongerSignalThresh,
    /// Low Power Threshold
    FastLowPowerThresh,
    /// Strong Signal Freeze
    FastStrongSignalFreeze,
    /// Final Over Range and Opt Gain
    FastFinalOverRangeAndOptGain,
    /// Energy Detect Count
    FastEnergyDetectCount,
    /// AGCLL Upper Limit
    FastAgcllUpperLimit,
    /// Gain Lock Exit Count
    FastGainLockExitCount,
    /// Initial LMT Gain Limit. LMT table splits at this value.
    FastInitialLmtGainLimit,
    /// Increment Time
    FastIncrementTime,
    /// AGC Inner Low Threshold
    AgcInnerLowThresh,
    /// LMT Overload Counters
    LmtOverloadCounters,
    /// ADC Overload Counters
    AdcOverloadCounters,
    /// Gain Step1
    GainStep1,
    /// Gain Update Counter1
    GainUpdateCounter1,
    /// Gain Update Counter2
    GainUpdateCounter2,
    /// Digital Sat Counter
    DigitalSaturationCounter,
    /// Outer Power Thresholds
    OuterPowerThreshs,
    /// Gain Step 2
    GainStep2,
    /// Ext LNA High Gain
    ExtLnaHighGain,
    /// Ext LNA Low Gain
    ExtLnaLowGain,
    /// Gain Table Address
    GainTableAddress,
    /// Gain Table Write Data1
    GainTableWriteData1,
    /// Gain Table Write Data2
    GainTableWriteData2,
    /// Gain Table Write Data 3
    GainTableWriteData3,
    /// Gain Table Read Data 1
    GainTableReadData1,
    /// Gain Table Read Data 2
    GainTableReadData2,
    /// Gain Table Read Data 3
    GainTableReadData3,
    /// Gain Table Config
    GainTableConfig,
    /// Gm Sub Table Address
    GmSubTableAddress,
    /// Gm Sub Table Gain Word Write
    GmSubTableGainWrite,
    /// Gm Sub Table Bias Word Write
    GmSubTableBiasWrite,
    /// Gm Sub Table Control Word Write
    GmSubTableCtrlWrite,
    /// Gm Sub Table Gain Word Read
    GmSubTableGainRead,
    /// Gm Sub Table Bias Word Read
    GmSubTableBiasRead,
    /// Gm Sub Table Control Word Read
    GmSubTableCtrlRead,
    /// Gm Sub Table Config
    GmSubTableConfig,
    /// Word Address
    WordAddress,
    /// Gain Diff Word/Error Write
    GainDiffWorderrorWrite,
    /// Gain Error Read
    GainErrorRead,
    /// Config
    Config,
    /// LNA Gain Diff Read Back
    LnaGainDiffReadBack,
    /// Max Mixer Calibration Gain Index
    MaxMixerCalibrationGainIndex,
    /// Temp Gain Coefficient
    TempGainCoef,
    /// Settle Time
    SettleTime,
    /// Measure Duration
    MeasureDuration,
    /// Cal Temp sensor word
    CalTempSensorWord,
    /// Measure Duration 0&1
    MeasureDuration01,
    /// Measure Duration 2&3
    MeasureDuration23,
    /// RSSI Weight 0
    RssiWeight0,
    /// RSSI Weight 1
    RssiWeight1,
    /// RSSI Weight 2
    RssiWeight2,
    /// RSSI Weight 3
    RssiWeight3,
    /// RSSI delay
    RssiDelay,
    /// RSSI wait time
    RssiWaitTime,
    /// RSSI Config
    RssiConfig,
    /// ADC Measure Duration 0&1
    AdcMeasureDuration01,
    /// ADC Weight 0
    AdcWeight0,
    /// ADC Weight 1
    AdcWeight1,
    /// Dec Power Measure Duration 0
    DecPowerMeasureDuration,
    /// LNA Gain
    LnaGain,
    /// CH1 ADC Power
    Ch1AdcPower,
    /// CH1 Rx filter Power
    Ch1RxFilterPower,
    /// CH2 ADC Power
    Ch2AdcPower,
    /// CH2 Rx filter Power
    Ch2RxFilterPower,
    /// Rx Quad Cal Level
    RxQuadCalLevel,
    /// Calibration Config 1
    CalibrationConfig1,
    /// Calibration config2
    CalibrationConfig2,
    /// Calibration config3
    CalibrationConfig3,
    /// Calib count
    CalibCount,
    /// Settle count
    SettleCount,
    /// Rx Quad gain1
    RxQuadGain1,
    /// Rx Quad gain2
    RxQuadGain2,
    /// Rx1 Input A Phase Corr
    Rx1InputAPhaseCorr,
    /// Rx1 Input A Gain Corr
    Rx1InputAGainCorr,
    /// Rx2 Input A Phase Corr
    Rx2InputAPhaseCorr,
    /// Rx2 Input A Gain Corr
    Rx2InputAGainCorr,
    /// Rx1 Input A Q" Offset
    Rx1InputAQOffset,
    /// Rx1 Input A Offsets
    Rx1InputAOffsets,
    /// Input A Offsets 1
    InputAOffsets1,
    /// Rx2 Input A Offsets
    Rx2InputAOffsets,
    /// Rx2 Input A "I" Offset
    Rx2InputAIOffset,
    /// Rx1 Input B&C Phase Corr
    Rx1InputBcPhaseCorr,
    /// Rx1 Input B&C Gain Corr
    Rx1InputBcGainCorr,
    /// Rx2 Input B&C Phase Corr
    Rx2InputBcPhaseCorr,
    /// Rx2 Input B&C Gain Corr
    Rx2InputBcGainCorr,
    /// Rx1 Input B&C "Q" Offset
    Rx1InputBcQOffset,
    /// Rx1 Input B&C Offsets
    Rx1InputBcOffsets,
    /// Input B&C Offsets 1
    InputBcOffsets1,
    /// Rx2 Input B&C Offsets
    Rx2InputBcOffsets,
    /// Rx2 Input B&C "I" Offset
    Rx2InputBcIOffset,
    /// Force Bits
    ForceBits,
    /// Wait Count
    WaitCount,
    /// RF DC Offset Count
    RfDcOffsetCount,
    /// RF DC Offset Config1
    RfDcOffsetConfig1,
    /// RF DC Offset Attenuation
    RfDcOffsetAtten,
    /// Invert Bits
    InvertBits,
    /// DC Offset Config2
    DcOffsetConfig2,
    /// RF Cal Gain Index
    RfCalGainIndex,
    /// SOI Threshold
    SoiThresh,
    /// BB DC Offset Shift
    BbDcOffsetShift,
    /// BB DC Offset Fast Settle Shift
    BbDcOffsetFastSettleShift,
    /// BB Fast Settle Dur
    BbFastSettleDur,
    /// BB DC Offset Count
    BbDcOffsetCount,
    /// BB DC Offset Attenuation
    BbDcOffsetAtten,
    /// RX1 BB DC word I MSB
    Rx1BbDcWordIMsb,
    /// RX1 BB DC word I LSB
    Rx1BbDcWordILsb,
    /// RX1 BB DC word Q MSB
    Rx1BbDcWordQMsb,
    /// RX1 BB DC word Q LSB
    Rx1BbDcWordQLsb,
    /// RX2 BB DC word I MSB
    Rx2BbDcWordIMsb,
    /// RX2 BB DC word I LSB
    Rx2BbDcWordILsb,
    /// RX2 BB DC word Q MSB
    Rx2BbDcWordQMsb,
    /// RX2 BB DC word Q LSB
    Rx2BbDcWordQLsb,
    /// BB Track corr word I MSB
    BbTrackCorrWordIMsb,
    /// BB Track corr word I LSB
    BbTrackCorrWordILsb,
    /// BB Track corr word Q MSB
    BbTrackCorrWordQMsb,
    /// BB Track corr word Q LSB
    BbTrackCorrWordQLsb,
    /// Rx1 RSSI Symbol
    Rx1RssiSymbol,
    /// Rx1 RSSI preamble
    Rx1RssiPreamble,
    /// Rx2 RSSI symbol
    Rx2RssiSymbol,
    /// Rx2 RSSI preamble
    Rx2RssiPreamble,
    /// Symbol LSB
    SymbolLsb,
    /// Preamble LSB
    PreambleLsb,
    /// Rx Path Gain
    RxPathGainMsb,
    /// Rx Path Gain
    RxPathGainLsb,
    /// Rx Diff LNA Force
    RxDiffLnaForce,
    /// Rx LNA Bias Coarse
    RxLnaBiasCoarse,
    /// Rx LNA Bias Fine 0
    RxLnaBiasFine0,
    /// Rx LNA Bias Fine 1
    RxLnaBiasFine1,
    /// Rx Mix Gm Config
    RxMixGmConfig,
    /// Rx1 Mix Gm Force
    Rx1MixGmForce,
    /// Rx1 Mix Gm Bias (Force)
    Rx1MixGmBiasForce,
    /// Rx2 Mix Gm Force
    Rx2MixGmForce,
    /// Rx2 Mix Gm Bias (Force)
    Rx2MixGmBiasForce,
    /// Input A MSBs
    InputAMsbs,
    /// Input A RX1 I
    InputARx1I,
    /// Input A RX1 Q
    InputARx1Q,
    /// Input A RX2 I
    InputARx2I,
    /// Input A RX2 Q
    InputARx2Q,
    /// Inputs B&C RX1 I
    InputsBcRx1I,
    /// Band1 RX1 Q
    Band1Rx1Q,
    /// Inputs B&C RX2 I
    InputsBcRx2I,
    /// Inputs B&C RX2 Q
    InputsBcRx2Q,
    /// Inputs B&C MSBs
    InputsBcMsbs,
    /// Force OS DAC
    ForceOsDac,
    /// Rx Mix LO CM
    RxMixLoCm,
    /// Rx CGB Seg Enable
    RxCgbSegEnable,
    /// Rx Mix Input/Bias
    RxMixInputbias,
    /// Rx TIA Config
    RxTiaConfig,
    /// TIA1 C LSB
    Tia1CLsb,
    /// TIA1 C MSB
    Tia1CMsb,
    /// TIA2 C LSB
    Tia2CLsb,
    /// TIA2 C MSB
    Tia2CMsb,
    /// Rx1 BBF R1A
    Rx1BbfR1a,
    /// Rx2 BBF R1A
    Rx2BbfR1a,
    /// Rx1 Tune Control
    Rx1TuneCtrl,
    /// Rx2 Tune Control
    Rx2TuneCtrl,
    /// Rx1 BBF R5
    Rx1BbfR5,
    /// Rx2 BBF R5
    Rx2BbfR5,
    /// Rx BBF R2346
    RxBbfR2346,
    /// Rx BBF C1 MSB
    RxBbfC1Msb,
    /// Rx BBF C1 LSB
    RxBbfC1Lsb,
    /// Rx BBF C2 MSB
    RxBbfC2Msb,
    /// Rx BBF C2 LSB
    RxBbfC2Lsb,
    /// Rx BBF C3 MSB
    RxBbfC3Msb,
    /// Rx BBF C3 LSB
    RxBbfC3Lsb,
    /// Rx BBF CC1 Ctr
    RxBbfCc1Ctr,
    /// Rx BBF Pow Rz Byte0
    RxBbfPowRzByte0,
    /// Rx BBF CC2 Ctr
    RxBbfCc2Ctr,
    /// Rx BBF Pow Rz Byte1
    RxBbfPowRzByte1,
    /// Rx BBF CC3 Ctr
    RxBbfCc3Ctr,
    /// Rx BBF R5 Tune
    RxBbfR5Tune,
    /// Rx BBF Tune
    RxBbfTune,
    /// Rx1 BBF Man Gain
    Rx1BbfManGain,
    /// Rx2 BBF Man Gain
    Rx2BbfManGain,
    /// RX BBF Tune Divide
    RxBbfTuneDivide,
    /// RX BBF Tune Config
    RxBbfTuneConfig,
    /// Pole gain
    PoleGain,
    /// Rx BBBW MHz
    RxBbbwMhz,
    /// Rx BBBW kHz
    RxBbbwKhz,
    /// ADC Setup Byte 0
    AdcSetup0,
    /// FB DAC Clk Delay1
    FbDacClkDelay1,
    /// FB DAC Clk Delay2
    FbDacClkDelay2,
    /// Flash Sample Clk Delay 3p
    FlashSampleClkDelay3p,
    /// Flash Sample Clk Delay 3n
    FlashSampleClkDelay3n,
    /// Test MUX 2i
    TestMux2i,
    /// Test MUX 2q
    TestMux2q,
    /// Integrator 1 Resistance
    Integrator1Resistance,
    /// Integrator 1 Capacitance
    Integrator1Capacitance,
    /// Integrator 23 Resistance
    Integrator23Resistance,
    /// Integrator 2 Resistance
    Integrator2Resistance,
    /// Integrator 2 Capacitance
    Integrator2Capacitance,
    /// Integrator 3 Resistance
    Integrator3Resistance,
    /// Integrator 3 Capacitance
    Integrator3Capacitance,
    /// Integrator Amp Cc
    IntegratorAmpCc,
    /// Int 1 FB DAC NMOS Current Source
    Int1FbDacNmosCurrentSource,
    /// Int 1 FB DAC NMOS Casoade Bias Current
    Int1FbDacNmosCasoadeBiasCurrent,
    /// Int 1 FB DAC PMOS Current Source
    Int1FbDacPmosCurrentSource,
    /// Int 2 FB DAC NMOS Current Source
    Int2FbDacNmosCurrentSource,
    /// Int 2 FB DAC NMOS Cascode Bias Current
    Int2FbDacNmosCascodeBiasCurrent,
    /// Int 2 FB DAC PMOS Current Source
    Int2FbDacPmosCurrentSource,
    /// Int 3 FB DAC NMOS Current Source
    Int3FbDacNmosCurrentSource,
    /// Int 3 FB DAC NMOS Cascode Bias Current
    Int3FbDacNmosCascodeBiasCurrent,
    /// Int 3 FB DAC PMOS Current Source
    Int3FbDacPmosCurrentSource,
    /// FB DAC Bias Current
    FbDacBiasCurrent,
    /// Int 1 1st Stage Current
    Int11stStageCurrent,
    /// Int 1 1st Stage Cascode Current
    Int11stStageCascodeCurrent,
    /// Int 1 2nd Stage Current
    Int12ndStageCurrent,
    /// Integrator 2 1st Stage Current
    Integrator21stStageCurrent,
    /// Int 2 1st Stage Cascode Current
    Int21stStageCascodeCurrent,
    /// Int 2 2nd Stage Current
    Int22ndStageCurrent,
    /// Int 3 1st Stage Current
    Int31stStageCurrent,
    /// Int 3 1st Stage Cascode Current
    Int31stStageCascodeCurrent,
    /// Int 3 2nd Stage Current
    Int32ndStageCurrent,
    /// Flash Bias Current
    FlashBiasCurrent,
    /// Flash Ladder Bias
    FlashLadderBias,
    /// Flash Ladder Cascode Current
    FlashLadderCascodeCurrent,
    /// Flash Ladder Bias2
    FlashLadderBias2,
    /// Reset
    Reset,
    /// ADC Setup Byte 39
    AdcSetup39,
    /// RX PFD Config
    RxPfdConfig,
    /// RX Integer Byte 0
    RxIntegerByte0,
    /// RX Integer Byte 1
    RxIntegerByte1,
    /// RX Fractional Byte 0
    RxFractByte0,
    /// RX Fractional Byte 1
    RxFractByte1,
    /// RX Fractional Byte 2
    RxFractByte2,
    /// RX Force ALC
    RxForceAlc,
    /// RX Force VCO Tune 0
    RxForceVcoTune0,
    /// RX Force VCO Tune 1
    RxForceVcoTune1,
    /// RX ALC/Varactor
    RxAlcVaractor,
    /// RX VCO Output
    RxVcoOutput,
    /// RX CP Current
    RxCpCurrent,
    /// RX CP Offset
    RxCpOffset,
    /// RX CP Config
    RxCpConfig,
    /// RX Loop Filter 1
    RxLoopFilter1,
    /// RX Loop Filter 2
    RxLoopFilter2,
    /// RX Loop Filter 3
    RxLoopFilter3,
    /// RX Dither/CP Cal
    RxDithercpCal,
    /// RX VCO Bias 1
    RxVcoBias1,
    /// RX Cal Status
    RxCalStatus,
    /// RX VCO Cal Ref
    RxVcoCalRef,
    /// RX VCO Pd Overrides
    RxVcoPdOverrides,
    /// RX CP Over Range/VCO Lock
    RxCpOverrangeVcoLock,
    /// RX VCO LDO
    RxVcoLdo,
    /// RX VCO Cal
    RxVcoCal,
    /// RX Lock Detect Config
    RxLockDetectConfig,
    /// RX CP Level Detect
    RxCpLevelDetect,
    /// RX DSM Setup 0
    RxDsmSetup0,
    /// RX DSM Setup 1
    RxDsmSetup1,
    /// RX Correction Word0
    RxCorrectionWord0,
    /// RX Correction Word1
    RxCorrectionWord1,
    /// RX VCO Varactor Control 0
    RxVcoVaractorCtrl0,
    /// RX VCO Varactor Control 1
    RxVcoVaractorCtrl1,
    /// Rx Fast Lock Setup
    RxFastLockSetup,
    /// Rx Fast Lock Setup Init Delay
    RxFastLockSetupInitDelay,
    /// Rx Fast Lock Program Addr
    RxFastLockProgramAddr,
    /// Rx Fast Lock Program Data
    RxFastLockProgramData,
    /// Rx Fast Lock Program Read
    RxFastLockProgramRead,
    /// Rx Fast Lock Program Control
    RxFastLockProgramCtrl,
    /// Rx LO Gen Power Mode
    RxLoGenPowerMode,
    /// TX PFD Config
    TxPfdConfig,
    /// TX Integer Byte 0
    TxIntegerByte0,
    /// TX Integer Byte 1
    TxIntegerByte1,
    /// TX Fractional Byte 0
    TxFractByte0,
    /// TX Fractional Byte 1
    TxFractByte1,
    /// TX Fractional Byte 2
    TxFractByte2,
    /// TX Force ALC
    TxForceAlc,
    /// TX Force VCO Tune 0
    TxForceVcoTune0,
    /// TX Force VCO Tune 1
    TxForceVcoTune1,
    /// TX ALC/Varactor
    TxAlcVaractor,
    /// TX VCO Output
    TxVcoOutput,
    /// TX CP Current
    TxCpCurrent,
    /// TX CP Offset
    TxCpOffset,
    /// TX CP Config
    TxCpConfig,
    /// TX Loop Filter 1
    TxLoopFilter1,
    /// TX Loop Filter 2
    TxLoopFilter2,
    /// TX Loop Filter 3
    TxLoopFilter3,
    /// TX Dither/CP Cal
    TxDithercpCal,
    /// TX VCO Bias 1
    TxVcoBias1,
    /// TX VCO Bias 2
    TxVcoBias2,
    /// TX Cal Status
    TxCalStatus,
    /// TX VCO Cal Ref
    TxVcoCalRef,
    /// TX VCO Pd Overrides
    TxVcoPdOverrides,
    /// TX CP Over Range/VCO Lock
    TxCpOverrangeVcoLock,
    /// TX VCO LDO
    TxVcoLdo,
    /// TX VCO Cal
    TxVcoCal,
    /// TX Lock Detect Config
    TxLockDetectConfig,
    /// TX CP Level Detect
    TxCpLevelDetect,
    /// TX DSM Setup 0
    TxDsmSetup0,
    /// TX DSM Setup 1
    TxDsmSetup1,
    /// TX Correction Word0
    TxCorrectionWord0,
    /// TX Correction Word1
    TxCorrectionWord1,
    /// TX VCO Varactor Control 0
    TxVcoVaractorCtrl0,
    /// TX VCO Varactor Control 1
    TxVcoVaractorCtrl1,
    /// DCXO Coarse Tune
    DcxoCoarseTune,
    /// DCXO Fine Tune2
    DcxoFineTuneHigh,
    /// DCXO Fine Tune1
    DcxoFineTuneLow,
    /// DCXO Config
    DcxoConfig,
    /// DCXO Tempco Write
    DcxoTempcoWrite,
    /// DCXO Tempco Read
    DcxoTempcoRead,
    /// DCXO Tempco Addr
    DcxoTempcoAddr,
    /// Delta T Read
    DeltaTRead,
    /// Tx Fast Lock Setup
    TxFastLockSetup,
    /// Tx Fast Lock Setup Init Delay
    TxFastLockSetupInitDelay,
    /// Tx Fast Lock Program Addr
    TxFastLockProgramAddr,
    /// Tx Fast Lock Program Data
    TxFastLockProgramData,
    /// Tx Fast Lock Program Read
    TxFastLockProgramRead,
    /// Tx Fast Lock Program Ctrl
    TxFastLockProgramCtrl,
    /// Tx LO Gen Power Mode
    TxLoGenPowerMode,
    /// Bandgap Config0
    BandgapConfig0,
    /// Bandgap Config1
    BandgapConfig1,
    /// Ref Divide Config 1
    RefDivideConfig1,
    /// Ref Divide Config 2
    RefDivideConfig2,
    /// Gain Rx1
    GainRx1,
    /// LPF Gain Rx1
    LpfGainRx1,
    /// Dig gain Rx1
    DigGainRx1,
    /// Fast Attack State
    FastAttackState,
    /// Slow Loop State
    SlowLoopState,
    /// Gain Rx2
    GainRx2,
    /// LPF Gain Rx2
    LpfGainRx2,
    /// Dig Gain Rx2
    DigGainRx2,
    /// Ovrg Sigs Rx1
    OvrgSigsRx1,
    /// Ovrg Sigs Rx2
    OvrgSigsRx2,
    /// Control
    Ctrl,
    /// BIST Config
    BistConfig,
    /// BIST Config 2
    BistConfig2,
    /// BIST and Data Port Test Config
    BistAndDataPortTestConfig,
    /// DAC Test 0
    DacTest0,
    /// DAC Test 1
    DacTest1,
    /// DAC Test 2
    DacTest2,
}

impl Register {
    /// The 10 bit SPI address of the register.
    pub open spec fn address(self) -> u16 {
        match self {
            Register::SpiConf => 0x000,
            Register::MultichipSyncAndTxMonCtrl => 0x001,
            Register::TxEnableFilterCtrl => 0x002,
            Register::RxEnableFilterCtrl => 0x003,
            Register::InputSelect => 0x004,
            Register::RfPllDividers => 0x005,
            Register::RxClockDataDelay => 0x006,
            Register::TxClockDataDelay => 0x007,
            Register::ClockEnable => 0x009,
            Register::BbPll => 0x00A,
            Register::TempOffset => 0x00B,
            Register::StartTempReading => 0x00C,
            Register::TempSense2 => 0x00D,
            Register::Temperature => 0x00E,
            Register::TempSensorConfig => 0x00F,
            Register::ParallelPortConf1 => 0x010,
            Register::ParallelPortConf2 => 0x011,
            Register::ParallelPortConf3 => 0x012,
            Register::EnsmMode => 0x013,
            Register::EnsmConfig1 => 0x014,
            Register::EnsmConfig2 => 0x015,
            Register::CalibrationCtrl => 0x016,
            Register::State => 0x017,
            Register::Auxdac1Word => 0x018,
            Register::Auxdac2Word => 0x019,
            Register::Auxdac1Config => 0x01A,
            Register::Auxdac2Config => 0x01B,
            Register::AuxadcClockDivider => 0x01C,
            Register::AuxadcConfig => 0x01D,
            Register::AuxadcWordMsb => 0x01E,
            Register::AuxadcLsb => 0x01F,
            Register::AutoGpo => 0x020,
            Register::AgcGainLockDelay => 0x021,
            Register::AgcAttackDelay => 0x022,
            Register::AuxdacEnableCtrl => 0x023,
            Register::RxLoadSynthDelay => 0x024,
            Register::TxLoadSynthDelay => 0x025,
            Register::ExternalLnaCtrl => 0x026,
            Register::GpoForceAndInit => 0x027,
            Register::Gpo0RxDelay => 0x028,
            Register::Gpo1RxDelay => 0x029,
            Register::Gpo2RxDelay => 0x02A,
            Register::Gpo3RxDelay => 0x02B,
            Register::Gpo0TxDelay => 0x02C,
            Register::Gpo1TxDelay => 0x02D,
            Register::Gpo2TxDelay => 0x02E,
            Register::Gpo3TxDelay => 0x02F,
            Register::Auxdac1RxDelay => 0x030,
            Register::Auxdac1TxDelay => 0x031,
            Register::Auxdac2RxDelay => 0x032,
            Register::Auxdac2TxDelay => 0x033,
            Register::CtrlOutputPointer => 0x035,
            Register::CtrlOutputEnable => 0x036,
            Register::ProductId => 0x037,
            Register::ReferenceClockCycles => 0x03A,
            Register::DigitalIoCtrl => 0x03B,
            Register::LvdsBiasCtrl => 0x03C,
            Register::LvdsInvertCtrl1 => 0x03D,
            Register::LvdsInvertCtrl2 => 0x03E,
            Register::BbPllCtrl1 => 0x03F,
            Register::FractBbFreqWord1 => 0x041,
            Register::FractBbFreqWord2 => 0x042,
            Register::FractBbFreqWord3 => 0x043,
            Register::IntegerBbFreqWord => 0x044,
            Register::ClockCtrl => 0x045,
            Register::CpCurrent => 0x046,
            Register::CpBleedCurrent => 0x047,
            Register::LoopFilter1 => 0x048,
            Register::LoopFilter2 => 0x049,
            Register::LoopFilter3 => 0x04A,
            Register::VcoCtrl => 0x04B,
            Register::VcoProgram1 => 0x04C,
            Register::VcoProgram2 => 0x04D,
            Register::SdmCtrl => 0x04E,
            Register::RxSynthPowerDownOverride => 0x050,
            Register::TxSynthPowerDownOverride => 0x051,
            Register::RxAnalogPowerDownOverride1 => 0x052,
            Register::RxAnalogPowerDownOverride2 => 0x053,
            Register::Rx1AdcPowerDownOverride => 0x054,
            Register::Rx2AdcPowerDownOverride => 0x055,
            Register::TxAnalogPowerDownOverride1 => 0x056,
            Register::AnalogPowerDownOverride => 0x057,
            Register::MiscPowerDownOverride => 0x058,
            Register::Ch1Overflow => 0x05E,
            Register::Ch2Overflow => 0x05F,
            Register::TxFilterCoefAddr => 0x060,
            Register::TxFilterCoefWriteData1 => 0x061,
            Register::TxFilterCoefWriteData2 => 0x062,
            Register::TxFilterCoefReadData1 => 0x063,
            Register::TxFilterCoefReadData2 => 0x064,
            Register::TxFilterConf => 0x065,
            Register::TxMonLowGain => 0x067,
            Register::TxMonHighGain => 0x068,
            Register::TxMonDelay => 0x069,
            Register::TxLevelThresh => 0x06A,
            Register::TxRssi1 => 0x06B,
            Register::TxRssi2 => 0x06C,
            Register::TxRssiLsb => 0x06D,
            Register::TpmModeEnable => 0x06E,
            Register::TxMonTempGainCoef => 0x06F,
            Register::TxMon1Config => 0x070,
            Register::TxMon2Config => 0x071,
            Register::Tx1Atten0 => 0x073,
            Register::Tx1Atten1 => 0x074,
            Register::Tx2Atten0 => 0x075,
            Register::Tx2Atten1 => 0x076,
            Register::TxAttenOffset => 0x077,
            Register::TxAttenThresh => 0x078,
            Register::Tx1DigAtten => 0x079,
            Register::Tx2DigAtten => 0x07C,
            Register::Tx1SymbolAtten => 0x07F,
            Register::Tx2SymbolAtten => 0x080,
            Register::TxSymbolAttenConfig => 0x081,
            Register::Tx1Out1PhaseCorr => 0x08E,
            Register::Tx1Out1GainCorr => 0x08F,
            Register::Tx2Out1PhaseCorr => 0x090,
            Register::Tx2Out1GainCorr => 0x091,
            Register::Tx1Out1OffsetI => 0x092,
            Register::Tx1Out1OffsetQ => 0x093,
            Register::Tx2Out1OffsetI => 0x094,
            Register::Tx2Out1OffsetQ => 0x095,
            Register::Tx1Out2PhaseCorr => 0x096,
            Register::Tx1Out2GainCorr => 0x097,
            Register::Tx2Out2PhaseCorr => 0x098,
            Register::Tx2Out2GainCorr => 0x099,
            Register::Tx1Out2OffsetI => 0x09A,
            Register::Tx1Out2OffsetQ => 0x09B,
            Register::Tx2Out2OffsetI => 0x09C,
            Register::Tx2Out2OffsetQ => 0x09D,
            Register::TxForceBits => 0x09F,
            Register::QuadCalNcoFreqPhaseOffset => 0x0A0,
            Register::QuadCalCtrl => 0x0A1,
            Register::Kexp1 => 0x0A2,
            Register::Kexp2 => 0x0A3,
            Register::QuadSettleCount => 0x0A4,
            Register::MagFtestThresh => 0x0A5,
            Register::MagFtestThresh2 => 0x0A6,
            Register::QuadCalStatusTx1 => 0x0A7,
            Register::QuadCalStatusTx2 => 0x0A8,
            Register::QuadCalCount => 0x0A9,
            Register::TxQuadFullLmtGain => 0x0AA,
            Register::SquarerConfig => 0x0AB,
            Register::TxQuadCalAtten => 0x0AC,
            Register::ThreshAccum => 0x0AD,
            Register::TxQuadLpfGain => 0x0AE,
            Register::TxdacVdsI => 0x0B0,
            Register::TxdacVdsQ => 0x0B1,
            Register::TxdacGnI => 0x0B2,
            Register::TxdacGnQ => 0x0B3,
            Register::TxbbfOpampA => 0x0C0,
            Register::TxbbfOpampB => 0x0C1,
            Register::TxBbfR1 => 0x0C2,
            Register::TxBbfR2 => 0x0C3,
            Register::TxBbfR3 => 0x0C4,
            Register::TxBbfR4 => 0x0C5,
            Register::TxBbfRp => 0x0C6,
            Register::TxBbfC1 => 0x0C7,
            Register::TxBbfC2 => 0x0C8,
            Register::TxBbfCp => 0x0C9,
            Register::TxTuneCtrl => 0x0CA,
            Register::TxBbfR2b => 0x0CB,
            Register::TxBbfTune => 0x0CC,
            Register::Config0 => 0x0D0,
            Register::Resistor => 0x0D1,
            Register::Capacitor => 0x0D2,
            Register::LoCm => 0x0D3,
            Register::TxBbfTuneDivider => 0x0D6,
            Register::TxBbfTuneMode => 0x0D7,
            Register::RxFilterCoefAddr => 0x0F0,
            Register::RxFilterCoefData1 => 0x0F1,
            Register::RxFilterCoefData2 => 0x0F2,
            Register::RxFilterCoefReadData1 => 0x0F3,
            Register::RxFilterCoefReadData2 => 0x0F4,
            Register::RxFilterConfig => 0x0F5,
            Register::RxFilterGain => 0x0F6,
            Register::AgcConfig1 => 0x0FA,
            Register::AgcConfig2 => 0x0FB,
            Register::AgcConfig3 => 0x0FC,
            Register::MaxLmtFullGain => 0x0FD,
            Register::PeakWaitTime => 0x0FE,
            Register::DigitalGain => 0x100,
            Register::AgcLockLevel => 0x101,
            Register::AdcNoiseCorrectionFactor => 0x102,
            Register::GainStepConfig1 => 0x103,
            Register::AdcSmallOverloadThresh => 0x104,
            Register::AdcLargeOverloadThresh => 0x105,
            Register::GainStepConfig2 => 0x106,
            Register::SmallLmtOverloadThresh => 0x107,
            Register::LargeLmtOverloadThresh => 0x108,
            Register::Rx1ManualLmtFullGain => 0x109,
            Register::Rx1ManualLpfGainOrAgcCurrentLpf => 0x10A,
            Register::Rx1ManualDigitalOrForcedGain => 0x10B,
            Register::Rx2ManualLmtFullGain => 0x10C,
            Register::Rx2ManualLpfGainOrAgcCurentLpf => 0x10D,
            Register::Rx2ManualDigitalOrForcedGain => 0x10E,
            Register::FastConfig1 => 0x110,
            Register::FastConfig2SettlingDelay => 0x111,
            Register::FastEnergyLostThresh => 0x112,
            Register::FastStrongerSignalThresh => 0x113,
            Register::FastLowPowerThresh => 0x114,
            Register::FastStrongSignalFreeze => 0x115,
            Register::FastFinalOverRangeAndOptGain => 0x116,
            Register::FastEnergyDetectCount => 0x117,
            Register::FastAgcllUpperLimit => 0x118,
            Register::FastGainLockExitCount => 0x119,
            Register::FastInitialLmtGainLimit => 0x11A,
            Register::FastIncrementTime => 0x11B,
            Register::AgcInnerLowThresh => 0x120,
            Register::LmtOverloadCounters => 0x121,
            Register::AdcOverloadCounters => 0x122,
            Register::GainStep1 => 0x123,
            Register::GainUpdateCounter1 => 0x124,
            Register::GainUpdateCounter2 => 0x125,
            Register::DigitalSaturationCounter => 0x128,
            Register::OuterPowerThreshs => 0x129,
            Register::GainStep2 => 0x12A,
            Register::ExtLnaHighGain => 0x12C,
            Register::ExtLnaLowGain => 0x12D,
            Register::GainTableAddress => 0x130,
            Register::GainTableWriteData1 => 0x131,
            Register::GainTableWriteData2 => 0x132,
            Register::GainTableWriteData3 => 0x133,
            Register::GainTableReadData1 => 0x134,
            Register::GainTableReadData2 => 0x135,
            Register::GainTableReadData3 => 0x136,
            Register::GainTableConfig => 0x137,
            Register::GmSubTableAddress => 0x138,
            Register::GmSubTableGainWrite => 0x139,
            Register::GmSubTableBiasWrite => 0x13A,
            Register::GmSubTableCtrlWrite => 0x13B,
            Register::GmSubTableGainRead => 0x13C,
            Register::GmSubTableBiasRead => 0x13D,
            Register::GmSubTableCtrlRead => 0x13E,
            Register::GmSubTableConfig => 0x13F,
            Register::WordAddress => 0x140,
            Register::GainDiffWorderrorWrite => 0x141,
            Register::GainErrorRead => 0x142,
            Register::Config => 0x143,
            Register::LnaGainDiffReadBack => 0x144,
            Register::MaxMixerCalibrationGainIndex => 0x145,
            Register::TempGainCoef => 0x146,
            Register::SettleTime => 0x147,
            Register::MeasureDuration => 0x148,
            Register::CalTempSensorWord => 0x149,
            Register::MeasureDuration01 => 0x150,
            Register::MeasureDuration23 => 0x151,
            Register::RssiWeight0 => 0x152,
            Register::RssiWeight1 => 0x153,
            Register::RssiWeight2 => 0x154,
            Register::RssiWeight3 => 0x155,
            Register::RssiDelay => 0x156,
            Register::RssiWaitTime => 0x157,
            Register::RssiConfig => 0x158,
            Register::AdcMeasureDuration01 => 0x159,
            Register::AdcWeight0 => 0x15A,
            Register::AdcWeight1 => 0x15B,
            Register::DecPowerMeasureDuration => 0x15C,
            Register::LnaGain => 0x15D,
            Register::Ch1AdcPower => 0x160,
            Register::Ch1RxFilterPower => 0x161,
            Register::Ch2AdcPower => 0x162,
            Register::Ch2RxFilterPower => 0x163,
            Register::RxQuadCalLevel => 0x168,
            Register::CalibrationConfig1 => 0x169,
            Register::CalibrationConfig2 => 0x16A,
            Register::CalibrationConfig3 => 0x16B,
            Register::CalibCount => 0x16C,
            Register::SettleCount => 0x16D,
            Register::RxQuadGain1 => 0x16E,
            Register::RxQuadGain2 => 0x16F,
            Register::Rx1InputAPhaseCorr => 0x170,
            Register::Rx1InputAGainCorr => 0x171,
            Register::Rx2InputAPhaseCorr => 0x172,
            Register::Rx2InputAGainCorr => 0x173,
            Register::Rx1InputAQOffset => 0x174,
            Register::Rx1InputAOffsets => 0x175,
            Register::InputAOffsets1 => 0x176,
            Register::Rx2InputAOffsets => 0x177,
            Register::Rx2InputAIOffset => 0x178,
            Register::Rx1InputBcPhaseCorr => 0x179,
            Register::Rx1InputBcGainCorr => 0x17A,
            Register::Rx2InputBcPhaseCorr => 0x17B,
            Register::Rx2InputBcGainCorr => 0x17C,
            Register::Rx1InputBcQOffset => 0x17D,
            Register::Rx1InputBcOffsets => 0x17E,
            Register::InputBcOffsets1 => 0x17F,
            Register::Rx2InputBcOffsets => 0x180,
            Register::Rx2InputBcIOffset => 0x181,
            Register::ForceBits => 0x182,
            Register::WaitCount => 0x185,
            Register::RfDcOffsetCount => 0x186,
            Register::RfDcOffsetConfig1 => 0x187,
            Register::RfDcOffsetAtten => 0x188,
            Register::InvertBits => 0x189,
            Register::DcOffsetConfig2 => 0x18B,
            Register::RfCalGainIndex => 0x18C,
            Register::SoiThresh => 0x18D,
            Register::BbDcOffsetShift => 0x190,
            Register::BbDcOffsetFastSettleShift => 0x191,
            Register::BbFastSettleDur => 0x192,
            Register::BbDcOffsetCount => 0x193,
            Register::BbDcOffsetAtten => 0x194,
            Register::Rx1BbDcWordIMsb => 0x19A,
            Register::Rx1BbDcWordILsb => 0x19B,
            Register::Rx1BbDcWordQMsb => 0x19C,
            Register::Rx1BbDcWordQLsb => 0x19D,
            Register::Rx2BbDcWordIMsb => 0x19E,
            Register::Rx2BbDcWordILsb => 0x19F,
            Register::Rx2BbDcWordQMsb => 0x1A0,
            Register::Rx2BbDcWordQLsb => 0x1A1,
            Register::BbTrackCorrWordIMsb => 0x1A2,
            Register::BbTrackCorrWordILsb => 0x1A3,
            Register::BbTrackCorrWordQMsb => 0x1A4,
            Register::BbTrackCorrWordQLsb => 0x1A5,
            Register::Rx1RssiSymbol => 0x1A7,
            Register::Rx1RssiPreamble => 0x1A8,
            Register::Rx2RssiSymbol => 0x1A9,
            Register::Rx2RssiPreamble => 0x1AA,
            Register::SymbolLsb => 0x1AB,
            Register::PreambleLsb => 0x1AC,
            Register::RxPathGainMsb => 0x1AD,
            Register::RxPathGainLsb => 0x1AE,
            Register::RxDiffLnaForce => 0x1B0,
            Register::RxLnaBiasCoarse => 0x1B1,
            Register::RxLnaBiasFine0 => 0x1B2,
            Register::RxLnaBiasFine1 => 0x1B3,
            Register::RxMixGmConfig => 0x1C0,
            Register::Rx1MixGmForce => 0x1C1,
            Register::Rx1MixGmBiasForce => 0x1C2,
            Register::Rx2MixGmForce => 0x1C3,
            Register::Rx2MixGmBiasForce => 0x1C4,
            Register::InputAMsbs => 0x1C8,
            Register::InputARx1I => 0x1C9,
            Register::InputARx1Q => 0x1CA,
            Register::InputARx2I => 0x1CB,
            Register::InputARx2Q => 0x1CC,
            Register::InputsBcRx1I => 0x1CD,
            Register::Band1Rx1Q => 0x1CE,
            Register::InputsBcRx2I => 0x1CF,
            Register::InputsBcRx2Q => 0x1D0,
            Register::InputsBcMsbs => 0x1D1,
            Register::ForceOsDac => 0x1D2,
            Register::RxMixLoCm => 0x1D5,
            Register::RxCgbSegEnable => 0x1D6,
            Register::RxMixInputbias => 0x1D7,
            Register::RxTiaConfig => 0x1DB,
            Register::Tia1CLsb => 0x1DC,
            Register::Tia1CMsb => 0x1DD,
            Register::Tia2CLsb => 0x1DE,
            Register::Tia2CMsb => 0x1DF,
            Register::Rx1BbfR1a => 0x1E0,
            Register::Rx2BbfR1a => 0x1E1,
            Register::Rx1TuneCtrl => 0x1E2,
            Register::Rx2TuneCtrl => 0x1E3,
            Register::Rx1BbfR5 => 0x1E4,
            Register::Rx2BbfR5 => 0x1E5,
            Register::RxBbfR2346 => 0x1E6,
            Register::RxBbfC1Msb => 0x1E7,
            Register::RxBbfC1Lsb => 0x1E8,
            Register::RxBbfC2Msb => 0x1E9,
            Register::RxBbfC2Lsb => 0x1EA,
            Register::RxBbfC3Msb => 0x1EB,
            Register::RxBbfC3Lsb => 0x1EC,
            Register::RxBbfCc1Ctr => 0x1ED,
            Register::RxBbfPowRzByte0 => 0x1EE,
            Register::RxBbfCc2Ctr => 0x1EF,
            Register::RxBbfPowRzByte1 => 0x1F0,
            Register::RxBbfCc3Ctr => 0x1F1,
            Register::RxBbfR5Tune => 0x1F2,
            Register::RxBbfTune => 0x1F3,
            Register::Rx1BbfManGain => 0x1F4,
            Register::Rx2BbfManGain => 0x1F5,
            Register::RxBbfTuneDivide => 0x1F8,
            Register::RxBbfTuneConfig => 0x1F9,
            Register::PoleGain => 0x1FA,
            Register::RxBbbwMhz => 0x1FB,
            Register::RxBbbwKhz => 0x1FC,
            Register::AdcSetup0 => 0x200,
            Register::FbDacClkDelay1 => 0x201,
            Register::FbDacClkDelay2 => 0x202,
            Register::FlashSampleClkDelay3p => 0x203,
            Register::FlashSampleClkDelay3n => 0x204,
            Register::TestMux2i => 0x205,
            Register::TestMux2q => 0x206,
            Register::Integrator1Resistance => 0x207,
            Register::Integrator1Capacitance => 0x208,
            Register::Integrator23Resistance => 0x209,
            Register::Integrator2Resistance => 0x20A,
            Register::Integrator2Capacitance => 0x20B,
            Register::Integrator3Resistance => 0x20C,
            Register::Integrator3Capacitance => 0x20D,
            Register::IntegratorAmpCc => 0x20E,
            Register::Int1FbDacNmosCurrentSource => 0x20F,
            Register::Int1FbDacNmosCasoadeBiasCurrent => 0x210,
            Register::Int1FbDacPmosCurrentSource => 0x211,
            Register::Int2FbDacNmosCurrentSource => 0x212,
            Register::Int2FbDacNmosCascodeBiasCurrent => 0x213,
            Register::Int2FbDacPmosCurrentSource => 0x214,
            Register::Int3FbDacNmosCurrentSource => 0x215,
            Register::Int3FbDacNmosCascodeBiasCurrent => 0x216,
            Register::Int3FbDacPmosCurrentSource => 0x217,
            Register::FbDacBiasCurrent => 0x218,
            Register::Int11stStageCurrent => 0x219,
            Register::Int11stStageCascodeCurrent => 0x21A,
            Register::Int12ndStageCurrent => 0x21B,
            Register::Integrator21stStageCurrent => 0x21C,
            Register::Int21stStageCascodeCurrent => 0x21D,
            Register::Int22ndStageCurrent => 0x21E,
            Register::Int31stStageCurrent => 0x21F,
            Register::Int31stStageCascodeCurrent => 0x220,
            Register::Int32ndStageCurrent => 0x221,
            Register::FlashBiasCurrent => 0x222,
            Register::FlashLadderBias => 0x223,
            Register::FlashLadderCascodeCurrent => 0x224,
            Register::FlashLadderBias2 => 0x225,
            Register::Reset => 0x226,
            Register::AdcSetup39 => 0x227,
            Register::RxPfdConfig => 0x230,
            Register::RxIntegerByte0 => 0x231,
            Register::RxIntegerByte1 => 0x232,
            Register::RxFractByte0 => 0x233,
            Register::RxFractByte1 => 0x234,
            Register::RxFractByte2 => 0x235,
            Register::RxForceAlc => 0x236,
            Register::RxForceVcoTune0 => 0x237,
            Register::RxForceVcoTune1 => 0x238,
            Register::RxAlcVaractor => 0x239,
            Register::RxVcoOutput => 0x23A,
            Register::RxCpCurrent => 0x23B,
            Register::RxCpOffset => 0x23C,
            Register::RxCpConfig => 0x23D,
            Register::RxLoopFilter1 => 0x23E,
            Register::RxLoopFilter2 => 0x23F,
            Register::RxLoopFilter3 => 0x240,
            Register::RxDithercpCal => 0x241,
            Register::RxVcoBias1 => 0x242,
            Register::RxCalStatus => 0x244,
            Register::RxVcoCalRef => 0x245,
            Register::RxVcoPdOverrides => 0x246,
            Register::RxCpOverrangeVcoLock => 0x247,
            Register::RxVcoLdo => 0x248,
            Register::RxVcoCal => 0x249,
            Register::RxLockDetectConfig => 0x24A,
            Register::RxCpLevelDetect => 0x24B,
            Register::RxDsmSetup0 => 0x24C,
            Register::RxDsmSetup1 => 0x24D,
            Register::RxCorrectionWord0 => 0x24E,
            Register::RxCorrectionWord1 => 0x24F,
            Register::RxVcoVaractorCtrl0 => 0x250,
            Register::RxVcoVaractorCtrl1 => 0x251,
            Register::RxFastLockSetup => 0x25A,
            Register::RxFastLockSetupInitDelay => 0x25B,
            Register::RxFastLockProgramAddr => 0x25C,
            Register::RxFastLockProgramData => 0x25D,
            Register::RxFastLockProgramRead => 0x25E,
            Register::RxFastLockProgramCtrl => 0x25F,
            Register::RxLoGenPowerMode => 0x261,
            Register::TxPfdConfig => 0x270,
            Register::TxIntegerByte0 => 0x271,
            Register::TxIntegerByte1 => 0x272,
            Register::TxFractByte0 => 0x273,
            Register::TxFractByte1 => 0x274,
            Register::TxFractByte2 => 0x275,
            Register::TxForceAlc => 0x276,
            Register::TxForceVcoTune0 => 0x277,
            Register::TxForceVcoTune1 => 0x278,
            Register::TxAlcVaractor => 0x279,
            Register::TxVcoOutput => 0x27A,
            Register::TxCpCurrent => 0x27B,
            Register::TxCpOffset => 0x27C,
            Register::TxCpConfig => 0x27D,
            Register::TxLoopFilter1 => 0x27E,
            Register::TxLoopFilter2 => 0x27F,
            Register::TxLoopFilter3 => 0x280,
            Register::TxDithercpCal => 0x281,
            Register::TxVcoBias1 => 0x282,
            Register::TxVcoBias2 => 0x283,
            Register::TxCalStatus => 0x284,
            Register::TxVcoCalRef => 0x285,
            Register::TxVcoPdOverrides => 0x286,
            Register::TxCpOverrangeVcoLock => 0x287,
            Register::TxVcoLdo => 0x288,
            Register::TxVcoCal => 0x289,
            Register::TxLockDetectConfig => 0x28A,
            Register::TxCpLevelDetect => 0x28B,
            Register::TxDsmSetup0 => 0x28C,
            Register::TxDsmSetup1 => 0x28D,
            Register::TxCorrectionWord0 => 0x28E,
            Register::TxCorrectionWord1 => 0x28F,
            Register::TxVcoVaractorCtrl0 => 0x290,
            Register::TxVcoVaractorCtrl1 => 0x291,
            Register::DcxoCoarseTune => 0x292,
            Register::DcxoFineTuneHigh => 0x293,
            Register::DcxoFineTuneLow => 0x294,
            Register::DcxoConfig => 0x295,
            Register::DcxoTempcoWrite => 0x296,
            Register::DcxoTempcoRead => 0x297,
            Register::DcxoTempcoAddr => 0x298,
            Register::DeltaTRead => 0x299,
            Register::TxFastLockSetup => 0x29A,
            Register::TxFastLockSetupInitDelay => 0x29B,
            Register::TxFastLockProgramAddr => 0x29C,
            Register::TxFastLockProgramData => 0x29D,
            Register::TxFastLockProgramRead => 0x29E,
            Register::TxFastLockProgramCtrl => 0x29F,
            Register::TxLoGenPowerMode => 0x2A1,
            Register::BandgapConfig0 => 0x2A6,
            Register::BandgapConfig1 => 0x2A8,
            Register::RefDivideConfig1 => 0x2AB,
            Register::RefDivideConfig2 => 0x2AC,
            Register::GainRx1 => 0x2B0,
            Register::LpfGainRx1 => 0x2B1,
            Register::DigGainRx1 => 0x2B2,
            Register::FastAttackState => 0x2B3,
            Register::SlowLoopState => 0x2B4,
            Register::GainRx2 => 0x2B5,
            Register::LpfGainRx2 => 0x2B6,
            Register::DigGainRx2 => 0x2B7,
            Register::OvrgSigsRx1 => 0x2B8,
            Register::OvrgSigsRx2 => 0x2B9,
            Register::Ctrl => 0x3DF,
            Register::BistConfig => 0x3F4,
            Register::BistConfig2 => 0x3F5,
            Register::BistAndDataPortTestConfig => 0x3F6,
            Register::DacTest0 => 0x3FC,
            Register::DacTest1 => 0x3FD,
            Register::DacTest2 => 0x3FE,
        }
    }

    /// Register address as a raw 10 bit value.
    pub fn as_u10(&self) -> (r: u16)
        ensures
            r == self.address(),
            r < 1024,
    {
        match self {
            Register::SpiConf => 0x000,
            Register::MultichipSyncAndTxMonCtrl => 0x001,
            Register::TxEnableFilterCtrl => 0x002,
            Register::RxEnableFilterCtrl => 0x003,
            Register::InputSelect => 0x004,
            Register::RfPllDividers => 0x005,
            Register::RxClockDataDelay => 0x006,
            Register::TxClockDataDelay => 0x007,
            Register::ClockEnable => 0x009,
            Register::BbPll => 0x00A,
            Register::TempOffset => 0x00B,
            Register::StartTempReading => 0x00C,
            Register::TempSense2 => 0x00D,
            Register::Temperature => 0x00E,
            Register::TempSensorConfig => 0x00F,
            Register::ParallelPortConf1 => 0x010,
            Register::ParallelPortConf2 => 0x011,
            Register::ParallelPortConf3 => 0x012,
            Register::EnsmMode => 0x013,
            Register::EnsmConfig1 => 0x014,
            Register::EnsmConfig2 => 0x015,
            Register::CalibrationCtrl => 0x016,
            Register::State => 0x017,
            Register::Auxdac1Word => 0x018,
            Register::Auxdac2Word => 0x019,
            Register::Auxdac1Config => 0x01A,
            Register::Auxdac2Config => 0x01B,
            Register::AuxadcClockDivider => 0x01C,
            Register::AuxadcConfig => 0x01D,
            Register::AuxadcWordMsb => 0x01E,
            Register::AuxadcLsb => 0x01F,
            Register::AutoGpo => 0x020,
            Register::AgcGainLockDelay => 0x021,
            Register::AgcAttackDelay => 0x022,
            Register::AuxdacEnableCtrl => 0x023,
            Register::RxLoadSynthDelay => 0x024,
            Register::TxLoadSynthDelay => 0x025,
            Register::ExternalLnaCtrl => 0x026,
            Register::GpoForceAndInit => 0x027,
            Register::Gpo0RxDelay => 0x028,
            Register::Gpo1RxDelay => 0x029,
            Register::Gpo2RxDelay => 0x02A,
            Register::Gpo3RxDelay => 0x02B,
            Register::Gpo0TxDelay => 0x02C,
            Register::Gpo1TxDelay => 0x02D,
            Register::Gpo2TxDelay => 0x02E,
            Register::Gpo3TxDelay => 0x02F,
            Register::Auxdac1RxDelay => 0x030,
            Register::Auxdac1TxDelay => 0x031,
            Register::Auxdac2RxDelay => 0x032,
            Register::Auxdac2TxDelay => 0x033,
            Register::CtrlOutputPointer => 0x035,
            Register::CtrlOutputEnable => 0x036,
            Register::ProductId => 0x037,
            Register::ReferenceClockCycles => 0x03A,
            Register::DigitalIoCtrl => 0x03B,
            Register::LvdsBiasCtrl => 0x03C,
            Register::LvdsInvertCtrl1 => 0x03D,
            Register::LvdsInvertCtrl2 => 0x03E,
            Register::BbPllCtrl1 => 0x03F,
            Register::FractBbFreqWord1 => 0x041,
            Register::FractBbFreqWord2 => 0x042,
            Register::FractBbFreqWord3 => 0x043,
            Register::IntegerBbFreqWord => 0x044,
            Register::ClockCtrl => 0x045,
            Register::CpCurrent => 0x046,
            Register::CpBleedCurrent => 0x047,
            Register::LoopFilter1 => 0x048,
            Register::LoopFilter2 => 0x049,
            Register::LoopFilter3 => 0x04A,
            Register::VcoCtrl => 0x04B,
            Register::VcoProgram1 => 0x04C,
            Register::VcoProgram2 => 0x04D,
            Register::SdmCtrl => 0x04E,
            Register::RxSynthPowerDownOverride => 0x050,
            Register::TxSynthPowerDownOverride => 0x051,
            Register::RxAnalogPowerDownOverride1 => 0x052,
            Register::RxAnalogPowerDownOverride2 => 0x053,
            Register::Rx1AdcPowerDownOverride => 0x054,
            Register::Rx2AdcPowerDownOverride => 0x055,
            Register::TxAnalogPowerDownOverride1 => 0x056,
            Register::AnalogPowerDownOverride => 0x057,
            Register::MiscPowerDownOverride => 0x058,
            Register::Ch1Overflow => 0x05E,
            Register::Ch2Overflow => 0x05F,
            Register::TxFilterCoefAddr => 0x060,
            Register::TxFilterCoefWriteData1 => 0x061,
            Register::TxFilterCoefWriteData2 => 0x062,
            Register::TxFilterCoefReadData1 => 0x063,
            Register::TxFilterCoefReadData2 => 0x064,
            Register::TxFilterConf => 0x065,
            Register::TxMonLowGain => 0x067,
            Register::TxMonHighGain => 0x068,
            Register::TxMonDelay => 0x069,
            Register::TxLevelThresh => 0x06A,
            Register::TxRssi1 => 0x06B,
            Register::TxRssi2 => 0x06C,
            Register::TxRssiLsb => 0x06D,
            Register::TpmModeEnable => 0x06E,
            Register::TxMonTempGainCoef => 0x06F,
            Register::TxMon1Config => 0x070,
            Register::TxMon2Config => 0x071,
            Register::Tx1Atten0 => 0x073,
            Register::Tx1Atten1 => 0x074,
            Register::Tx2Atten0 => 0x075,
            Register::Tx2Atten1 => 0x076,
            Register::TxAttenOffset => 0x077,
            Register::TxAttenThresh => 0x078,
            Register::Tx1DigAtten => 0x079,
            Register::Tx2DigAtten => 0x07C,
            Register::Tx1SymbolAtten => 0x07F,
            Register::Tx2SymbolAtten => 0x080,
            Register::TxSymbolAttenConfig => 0x081,
            Register::Tx1Out1PhaseCorr => 0x08E,
            Register::Tx1Out1GainCorr => 0x08F,
            Register::Tx2Out1PhaseCorr => 0x090,
            Register::Tx2Out1GainCorr => 0x091,
            Register::Tx1Out1OffsetI => 0x092,
            Register::Tx1Out1OffsetQ => 0x093,
            Register::Tx2Out1OffsetI => 0x094,
            Register::Tx2Out1OffsetQ => 0x095,
            Register::Tx1Out2PhaseCorr => 0x096,
            Register::Tx1Out2GainCorr => 0x097,
            Register::Tx2Out2PhaseCorr => 0x098,
            Register::Tx2Out2GainCorr => 0x099,
            Register::Tx1Out2OffsetI => 0x09A,
            Register::Tx1Out2OffsetQ => 0x09B,
            Register::Tx2Out2OffsetI => 0x09C,
            Register::Tx2Out2OffsetQ => 0x09D,
            Register::TxForceBits => 0x09F,
            Register::QuadCalNcoFreqPhaseOffset => 0x0A0,
            Register::QuadCalCtrl => 0x0A1,
            Register::Kexp1 => 0x0A2,
            Register::Kexp2 => 0x0A3,
            Register::QuadSettleCount => 0x0A4,
            Register::MagFtestThresh => 0x0A5,
            Register::MagFtestThresh2 => 0x0A6,
            Register::QuadCalStatusTx1 => 0x0A7,
            Register::QuadCalStatusTx2 => 0x0A8,
            Register::QuadCalCount => 0x0A9,
            Register::TxQuadFullLmtGain => 0x0AA,
            Register::SquarerConfig => 0x0AB,
            Register::TxQuadCalAtten => 0x0AC,
            Register::ThreshAccum => 0x0AD,
            Register::TxQuadLpfGain => 0x0AE,
            Register::TxdacVdsI => 0x0B0,
            Register::TxdacVdsQ => 0x0B1,
            Register::TxdacGnI => 0x0B2,
            Register::TxdacGnQ => 0x0B3,
            Register::TxbbfOpampA => 0x0C0,
            Register::TxbbfOpampB => 0x0C1,
            Register::TxBbfR1 => 0x0C2,
            Register::TxBbfR2 => 0x0C3,
            Register::TxBbfR3 => 0x0C4,
            Register::TxBbfR4 => 0x0C5,
            Register::TxBbfRp => 0x0C6,
            Register::TxBbfC1 => 0x0C7,
            Register::TxBbfC2 => 0x0C8,
            Register::TxBbfCp => 0x0C9,
            Register::TxTuneCtrl => 0x0CA,
            Register::TxBbfR2b => 0x0CB,
            Register::TxBbfTune => 0x0CC,
            Register::Config0 => 0x0D0,
            Register::Resistor => 0x0D1,
            Register::Capacitor => 0x0D2,
            Register::LoCm => 0x0D3,
            Register::TxBbfTuneDivider => 0x0D6,
            Register::TxBbfTuneMode => 0x0D7,
            Register::RxFilterCoefAddr => 0x0F0,
            Register::RxFilterCoefData1 => 0x0F1,
            Register::RxFilterCoefData2 => 0x0F2,
            Register::RxFilterCoefReadData1 => 0x0F3,
            Register::RxFilterCoefReadData2 => 0x0F4,
            Register::RxFilterConfig => 0x0F5,
            Register::RxFilterGain => 0x0F6,
            Register::AgcConfig1 => 0x0FA,
            Register::AgcConfig2 => 0x0FB,
            Register::AgcConfig3 => 0x0FC,
            Register::MaxLmtFullGain => 0x0FD,
            Register::PeakWaitTime => 0x0FE,
            Register::DigitalGain => 0x100,
            Register::AgcLockLevel => 0x101,
            Register::AdcNoiseCorrectionFactor => 0x102,
            Register::GainStepConfig1 => 0x103,
            Register::AdcSmallOverloadThresh => 0x104,
            Register::AdcLargeOverloadThresh => 0x105,
            Register::GainStepConfig2 => 0x106,
            Register::SmallLmtOverloadThresh => 0x107,
            Register::LargeLmtOverloadThresh => 0x108,
            Register::Rx1ManualLmtFullGain => 0x109,
            Register::Rx1ManualLpfGainOrAgcCurrentLpf => 0x10A,
            Register::Rx1ManualDigitalOrForcedGain => 0x10B,
            Register::Rx2ManualLmtFullGain => 0x10C,
            Register::Rx2ManualLpfGainOrAgcCurentLpf => 0x10D,
            Register::Rx2ManualDigitalOrForcedGain => 0x10E,
            Register::FastConfig1 => 0x110,
            Register::FastConfig2SettlingDelay => 0x111,
            Register::FastEnergyLostThresh => 0x112,
            Register::FastStrongerSignalThresh => 0x113,
            Register::FastLowPowerThresh => 0x114,
            Register::FastStrongSignalFreeze => 0x115,
            Register::FastFinalOverRangeAndOptGain => 0x116,
            Register::FastEnergyDetectCount => 0x117,
            Register::FastAgcllUpperLimit => 0x118,
            Register::FastGainLockExitCount => 0x119,
            Register::FastInitialLmtGainLimit => 0x11A,
            Register::FastIncrementTime => 0x11B,
            Register::AgcInnerLowThresh => 0x120,
            Register::LmtOverloadCounters => 0x121,
            Register::AdcOverloadCounters => 0x122,
            Register::GainStep1 => 0x123,
            Register::GainUpdateCounter1 => 0x124,
            Register::GainUpdateCounter2 => 0x125,
            Register::DigitalSaturationCounter => 0x128,
            Register::OuterPowerThreshs => 0x129,
            Register::GainStep2 => 0x12A,
            Register::ExtLnaHighGain => 0x12C,
            Register::ExtLnaLowGain => 0x12D,
            Register::GainTableAddress => 0x130,
            Register::GainTableWriteData1 => 0x131,
            Register::GainTableWriteData2 => 0x132,
            Register::GainTableWriteData3 => 0x133,
            Register::GainTableReadData1 => 0x134,
            Register::GainTableReadData2 => 0x135,
            Register::GainTableReadData3 => 0x136,
            Register::GainTableConfig => 0x137,
            Register::GmSubTableAddress => 0x138,
            Register::GmSubTableGainWrite => 0x139,
            Register::GmSubTableBiasWrite => 0x13A,
            Register::GmSubTableCtrlWrite => 0x13B,
            Register::GmSubTableGainRead => 0x13C,
            Register::GmSubTableBiasRead => 0x13D,
            Register::GmSubTableCtrlRead => 0x13E,
            Register::GmSubTableConfig => 0x13F,
            Register::WordAddress => 0x140,
            Register::GainDiffWorderrorWrite => 0x141,
            Register::GainErrorRead => 0x142,
            Register::Config => 0x143,
            Register::LnaGainDiffReadBack => 0x144,
            Register::MaxMixerCalibrationGainIndex => 0x145,
            Register::TempGainCoef => 0x146,
            Register::SettleTime => 0x147,
            Register::MeasureDuration => 0x148,
            Register::CalTempSensorWord => 0x149,
            Register::MeasureDuration01 => 0x150,
            Register::MeasureDuration23 => 0x151,
            Register::RssiWeight0 => 0x152,
            Register::RssiWeight1 => 0x153,
            Register::RssiWeight2 => 0x154,
            Register::RssiWeight3 => 0x155,
            Register::RssiDelay => 0x156,
            Register::RssiWaitTime => 0x157,
            Register::RssiConfig => 0x158,
            Register::AdcMeasureDuration01 => 0x159,
            Register::AdcWeight0 => 0x15A,
            Register::AdcWeight1 => 0x15B,
            Register::DecPowerMeasureDuration => 0x15C,
            Register::LnaGain => 0x15D,
            Register::Ch1AdcPower => 0x160,
            Register::Ch1RxFilterPower => 0x161,
            Register::Ch2AdcPower => 0x162,
            Register::Ch2RxFilterPower => 0x163,
            Register::RxQuadCalLevel => 0x168,
            Register::CalibrationConfig1 => 0x169,
            Register::CalibrationConfig2 => 0x16A,
            Register::CalibrationConfig3 => 0x16B,
            Register::CalibCount => 0x16C,
            Register::SettleCount => 0x16D,
            Register::RxQuadGain1 => 0x16E,
            Register::RxQuadGain2 => 0x16F,
            Register::Rx1InputAPhaseCorr => 0x170,
            Register::Rx1InputAGainCorr => 0x171,
            Register::Rx2InputAPhaseCorr => 0x172,
            Register::Rx2InputAGainCorr => 0x173,
            Register::Rx1InputAQOffset => 0x174,
            Register::Rx1InputAOffsets => 0x175,
            Register::InputAOffsets1 => 0x176,
            Register::Rx2InputAOffsets => 0x177,
            Register::Rx2InputAIOffset => 0x178,
            Register::Rx1InputBcPhaseCorr => 0x179,
            Register::Rx1InputBcGainCorr => 0x17A,
            Register::Rx2InputBcPhaseCorr => 0x17B,
            Register::Rx2InputBcGainCorr => 0x17C,
            Register::Rx1InputBcQOffset => 0x17D,
            Register::Rx1InputBcOffsets => 0x17E,
            Register::InputBcOffsets1 => 0x17F,
            Register::Rx2InputBcOffsets => 0x180,
            Register::Rx2InputBcIOffset => 0x181,
            Register::ForceBits => 0x182,
            Register::WaitCount => 0x185,
            Register::RfDcOffsetCount => 0x186,
            Register::RfDcOffsetConfig1 => 0x187,
            Register::RfDcOffsetAtten => 0x188,
            Register::InvertBits => 0x189,
            Register::DcOffsetConfig2 => 0x18B,
            Register::RfCalGainIndex => 0x18C,
            Register::SoiThresh => 0x18D,
            Register::BbDcOffsetShift => 0x190,
            Register::BbDcOffsetFastSettleShift => 0x191,
            Register::BbFastSettleDur => 0x192,
            Register::BbDcOffsetCount => 0x193,
            Register::BbDcOffsetAtten => 0x194,
            Register::Rx1BbDcWordIMsb => 0x19A,
            Register::Rx1BbDcWordILsb => 0x19B,
            Register::Rx1BbDcWordQMsb => 0x19C,
            Register::Rx1BbDcWordQLsb => 0x19D,
            Register::Rx2BbDcWordIMsb => 0x19E,
            Register::Rx2BbDcWordILsb => 0x19F,
            Register::Rx2BbDcWordQMsb => 0x1A0,
            Register::Rx2BbDcWordQLsb => 0x1A1,
            Register::BbTrackCorrWordIMsb => 0x1A2,
            Register::BbTrackCorrWordILsb => 0x1A3,
            Register::BbTrackCorrWordQMsb => 0x1A4,
            Register::BbTrackCorrWordQLsb => 0x1A5,
            Register::Rx1RssiSymbol => 0x1A7,
            Register::Rx1RssiPreamble => 0x1A8,
            Register::Rx2RssiSymbol => 0x1A9,
            Register::Rx2RssiPreamble => 0x1AA,
            Register::SymbolLsb => 0x1AB,
            Register::PreambleLsb => 0x1AC,
            Register::RxPathGainMsb => 0x1AD,
            Register::RxPathGainLsb => 0x1AE,
            Register::RxDiffLnaForce => 0x1B0,
            Register::RxLnaBiasCoarse => 0x1B1,
            Register::RxLnaBiasFine0 => 0x1B2,
            Register::RxLnaBiasFine1 => 0x1B3,
            Register::RxMixGmConfig => 0x1C0,
            Register::Rx1MixGmForce => 0x1C1,
            Register::Rx1MixGmBiasForce => 0x1C2,
            Register::Rx2MixGmForce => 0x1C3,
            Register::Rx2MixGmBiasForce => 0x1C4,
            Register::InputAMsbs => 0x1C8,
            Register::InputARx1I => 0x1C9,
            Register::InputARx1Q => 0x1CA,
            Register::InputARx2I => 0x1CB,
            Register::InputARx2Q => 0x1CC,
            Register::InputsBcRx1I => 0x1CD,
            Register::Band1Rx1Q => 0x1CE,
            Register::InputsBcRx2I => 0x1CF,
            Register::InputsBcRx2Q => 0x1D0,
            Register::InputsBcMsbs => 0x1D1,
            Register::ForceOsDac => 0x1D2,
            Register::RxMixLoCm => 0x1D5,
            Register::RxCgbSegEnable => 0x1D6,
            Register::RxMixInputbias => 0x1D7,
            Register::RxTiaConfig => 0x1DB,
            Register::Tia1CLsb => 0x1DC,
            Register::Tia1CMsb => 0x1DD,
            Register::Tia2CLsb => 0x1DE,
            Register::Tia2CMsb => 0x1DF,
            Register::Rx1BbfR1a => 0x1E0,
            Register::Rx2BbfR1a => 0x1E1,
            Register::Rx1TuneCtrl => 0x1E2,
            Register::Rx2TuneCtrl => 0x1E3,
            Register::Rx1BbfR5 => 0x1E4,
            Register::Rx2BbfR5 => 0x1E5,
            Register::RxBbfR2346 => 0x1E6,
            Register::RxBbfC1Msb => 0x1E7,
            Register::RxBbfC1Lsb => 0x1E8,
            Register::RxBbfC2Msb => 0x1E9,
            Register::RxBbfC2Lsb => 0x1EA,
            Register::RxBbfC3Msb => 0x1EB,
            Register::RxBbfC3Lsb => 0x1EC,
            Register::RxBbfCc1Ctr => 0x1ED,
            Register::RxBbfPowRzByte0 => 0x1EE,
            Register::RxBbfCc2Ctr => 0x1EF,
            Register::RxBbfPowRzByte1 => 0x1F0,
            Register::RxBbfCc3Ctr => 0x1F1,
            Register::RxBbfR5Tune => 0x1F2,
            Register::RxBbfTune => 0x1F3,
            Register::Rx1BbfManGain => 0x1F4,
            Register::Rx2BbfManGain => 0x1F5,
            Register::RxBbfTuneDivide => 0x1F8,
            Register::RxBbfTuneConfig => 0x1F9,
            Register::PoleGain => 0x1FA,
            Register::RxBbbwMhz => 0x1FB,
            Register::RxBbbwKhz => 0x1FC,
            Register::AdcSetup0 => 0x200,
            Register::FbDacClkDelay1 => 0x201,
            Register::FbDacClkDelay2 => 0x202,
            Register::FlashSampleClkDelay3p => 0x203,
            Register::FlashSampleClkDelay3n => 0x204,
            Register::TestMux2i => 0x205,
            Register::TestMux2q => 0x206,
            Register::Integrator1Resistance => 0x207,
            Register::Integrator1Capacitance => 0x208,
            Register::Integrator23Resistance => 0x209,
            Register::Integrator2Resistance => 0x20A,
            Register::Integrator2Capacitance => 0x20B,
            Register::Integrator3Resistance => 0x20C,
            Register::Integrator3Capacitance => 0x20D,
            Register::IntegratorAmpCc => 0x20E,
            Register::Int1FbDacNmosCurrentSource => 0x20F,
            Register::Int1FbDacNmosCasoadeBiasCurrent => 0x210,
            Register::Int1FbDacPmosCurrentSource => 0x211,
            Register::Int2FbDacNmosCurrentSource => 0x212,
            Register::Int2FbDacNmosCascodeBiasCurrent => 0x213,
            Register::Int2FbDacPmosCurrentSource => 0x214,
            Register::Int3FbDacNmosCurrentSource => 0x215,
            Register::Int3FbDacNmosCascodeBiasCurrent => 0x216,
            Register::Int3FbDacPmosCurrentSource => 0x217,
            Register::FbDacBiasCurrent => 0x218,
            Register::Int11stStageCurrent => 0x219,
            Register::Int11stStageCascodeCurrent => 0x21A,
            Register::Int12ndStageCurrent => 0x21B,
            Register::Integrator21stStageCurrent => 0x21C,
            Register::Int21stStageCascodeCurrent => 0x21D,
            Register::Int22ndStageCurrent => 0x21E,
            Register::Int31stStageCurrent => 0x21F,
            Register::Int31stStageCascodeCurrent => 0x220,
            Register::Int32ndStageCurrent => 0x221,
            Register::FlashBiasCurrent => 0x222,
            Register::FlashLadderBias => 0x223,
            Register::FlashLadderCascodeCurrent => 0x224,
            Register::FlashLadderBias2 => 0x225,
            Register::Reset => 0x226,
            Register::AdcSetup39 => 0x227,
            Register::RxPfdConfig => 0x230,
            Register::RxIntegerByte0 => 0x231,
            Register::RxIntegerByte1 => 0x232,
            Register::RxFractByte0 => 0x233,
            Register::RxFractByte1 => 0x234,
            Register::RxFractByte2 => 0x235,
            Register::RxForceAlc => 0x236,
            Register::RxForceVcoTune0 => 0x237,
            Register::RxForceVcoTune1 => 0x238,
            Register::RxAlcVaractor => 0x239,
            Register::RxVcoOutput => 0x23A,
            Register::RxCpCurrent => 0x23B,
            Register::RxCpOffset => 0x23C,
            Register::RxCpConfig => 0x23D,
            Register::RxLoopFilter1 => 0x23E,
            Register::RxLoopFilter2 => 0x23F,
            Register::RxLoopFilter3 => 0x240,
            Register::RxDithercpCal => 0x241,
            Register::RxVcoBias1 => 0x242,
            Register::RxCalStatus => 0x244,
            Register::RxVcoCalRef => 0x245,
            Register::RxVcoPdOverrides => 0x246,
            Register::RxCpOverrangeVcoLock => 0x247,
            Register::RxVcoLdo => 0x248,
            Register::RxVcoCal => 0x249,
            Register::RxLockDetectConfig => 0x24A,
            Register::RxCpLevelDetect => 0x24B,
            Register::RxDsmSetup0 => 0x24C,
            Register::RxDsmSetup1 => 0x24D,
            Register::RxCorrectionWord0 => 0x24E,
            Register::RxCorrectionWord1 => 0x24F,
            Register::RxVcoVaractorCtrl0 => 0x250,
            Register::RxVcoVaractorCtrl1 => 0x251,
            Register::RxFastLockSetup => 0x25A,
            Register::RxFastLockSetupInitDelay => 0x25B,
            Register::RxFastLockProgramAddr => 0x25C,
            Register::RxFastLockProgramData => 0x25D,
            Register::RxFastLockProgramRead => 0x25E,
            Register::RxFastLockProgramCtrl => 0x25F,
            Register::RxLoGenPowerMode => 0x261,
            Register::TxPfdConfig => 0x270,
            Register::TxIntegerByte0 => 0x271,
            Register::TxIntegerByte1 => 0x272,
            Register::TxFractByte0 => 0x273,
            Register::TxFractByte1 => 0x274,
            Register::TxFractByte2 => 0x275,
            Register::TxForceAlc => 0x276,
            Register::TxForceVcoTune0 => 0x277,
            Register::TxForceVcoTune1 => 0x278,
            Register::TxAlcVaractor => 0x279,
            Register::TxVcoOutput => 0x27A,
            Register::TxCpCurrent => 0x27B,
            Register::TxCpOffset => 0x27C,
            Register::TxCpConfig => 0x27D,
            Register::TxLoopFilter1 => 0x27E,
            Register::TxLoopFilter2 => 0x27F,
            Register::TxLoopFilter3 => 0x280,
            Register::TxDithercpCal => 0x281,
            Register::TxVcoBias1 => 0x282,
            Register::TxVcoBias2 => 0x283,
            Register::TxCalStatus => 0x284,
            Register::TxVcoCalRef => 0x285,
            Register::TxVcoPdOverrides => 0x286,
            Register::TxCpOverrangeVcoLock => 0x287,
            Register::TxVcoLdo => 0x288,
            Register::TxVcoCal => 0x289,
            Register::TxLockDetectConfig => 0x28A,
            Register::TxCpLevelDetect => 0x28B,
            Register::TxDsmSetup0 => 0x28C,
            Register::TxDsmSetup1 => 0x28D,
            Register::TxCorrectionWord0 => 0x28E,
            Register::TxCorrectionWord1 => 0x28F,
            Register::TxVcoVaractorCtrl0 => 0x290,
            Register::TxVcoVaractorCtrl1 => 0x291,
            Register::DcxoCoarseTune => 0x292,
            Register::DcxoFineTuneHigh => 0x293,
            Register::DcxoFineTuneLow => 0x294,
            Register::DcxoConfig => 0x295,
            Register::DcxoTempcoWrite => 0x296,
            Register::DcxoTempcoRead => 0x297,
            Register::DcxoTempcoAddr => 0x298,
            Register::DeltaTRead => 0x299,
            Register::TxFastLockSetup => 0x29A,
            Register::TxFastLockSetupInitDelay => 0x29B,
            Register::TxFastLockProgramAddr => 0x29C,
            Register::TxFastLockProgramData => 0x29D,
            Register::TxFastLockProgramRead => 0x29E,
            Register::TxFastLockProgramCtrl => 0x29F,
            Register::TxLoGenPowerMode => 0x2A1,
            Register::BandgapConfig0 => 0x2A6,
            Register::BandgapConfig1 => 0x2A8,
            Register::RefDivideConfig1 => 0x2AB,
            Register::RefDivideConfig2 => 0x2AC,
            Register::GainRx1 => 0x2B0,
            Register::LpfGainRx1 => 0x2B1,
            Register::DigGainRx1 => 0x2B2,
            Register::FastAttackState => 0x2B3,
            Register::SlowLoopState => 0x2B4,
            Register::GainRx2 => 0x2B5,
            Register::LpfGainRx2 => 0x2B6,
            Register::DigGainRx2 => 0x2B7,
            Register::OvrgSigsRx1 => 0x2B8,
            Register::OvrgSigsRx2 => 0x2B9,
            Register::Ctrl => 0x3DF,
            Register::BistConfig => 0x3F4,
            Register::BistConfig2 => 0x3F5,
            Register::BistAndDataPortTestConfig => 0x3F6,
            Register::DacTest0 => 0x3FC,
            Register::DacTest1 => 0x3FD,
            Register::DacTest2 => 0x3FE,
        }
    }
}

/// The register at an SPI address, if there is one (a bisection over the sorted addresses).
pub open spec fn register_at(addr: u16) -> Option<Register> {
    if addr < 0x169 {
        if addr < 0x0A1 {
            if addr < 0x046 {
                if addr < 0x021 {
                    if addr < 0x011 {
                        if addr < 0x009 {
                            if addr < 0x004 {
                                if addr < 0x002 {
                                    if addr < 0x001 {
                                        if addr == 0x000 {
                                            Some(Register::SpiConf)
                                        } else {
                                            None
                                        }
                                    } else {
                                        if addr == 0x001 {
                                            Some(Register::MultichipSyncAndTxMonCtrl)
                                        } else {
                                            None
                                        }
                                    }
                                } else {
                                    if addr < 0x003 {
                                        if addr == 0x002 {
                                            Some(Register::TxEnableFilterCtrl)
                                        } else {
                                            None
                                        }
                                    } else {
                                        if addr == 0x003 {
                                            Some(Register::RxEnableFilterCtrl)
                                        } else {
                                            None
                                        }
                                    }
                                }
                            } else {
                                if addr < 0x006 {
                                    if addr < 0x005 {
                                        if addr == 0x004 {
                                            Some(Register::InputSelect)
                                        } else {
                                            None
                                        }
                                    } else {
                                        if addr == 0x005 {
                                            Some(Register::RfPllDividers)
                                        } else {
                                            None
                                        }
                                    }
                                } else {
                                    if addr < 0x007 {
                                        if addr == 0x006 {
                                            Some(Register::RxClockDataDelay)
                                        } else {
                                            None
                                        }
                                    } else {
                                        if addr == 0x007 {
                                            Some(Register::TxClockDataDelay)
                                        } else {
                                            None
                                        }
                                    }
                                }
                            }
                        } else {
                            if addr < 0x00D {
                                if addr < 0x00B {
                                    if addr < 0x00A {
                                        if addr == 0x009 {
                                            Some(Register::ClockEnable)
                                        } else {
                                            None
                                        }
                                    } else {
                                        if addr == 0x00A {
                                            Some(Register::BbPll)
                                        } else {
                                            None
                                        }
                                    }
                                } else {
                                    if addr < 0x00C {
                                        if addr == 0x00B {
                                            Some(Register::TempOffset)
                                        } else {
                                            None
                                        }
                                    } else {
                                        if addr == 0x00C {
                                            Some(Register::StartTempReading)
                                        } else {
                                            None
                                        }
                                    }
                                }
                            } else {
                                if addr < 0x00F {
                                    if addr < 0x00E {
                                        if addr == 0x00D {
                                            Some(Register::TempSense2)
                                        } else {
                                            None
                                        }
                                    } else {
                                        if addr == 0x00E {
                                            Some(Register::Temperature)
                                        } else {
                                            None
                                        }
                                    }
                                } else {
                                    if addr < 0x010 {
                                        if addr == 0x00F {
                                            Some(Register::TempSensorConfig)
                                        } else {
                                            None
                                        }
                                    } else {
                                        if addr == 0x010 {
                                            Some(Register::ParallelPortConf1)
                                        } else {
                                            None
                                        }
                                    }
                                }
                            }
                        }
                    } else {
                        if addr < 0x019 {
                            if addr < 0x015 {
                                if addr < 0x013 {
                                    if addr < 0x012 {
                                        if addr == 0x011 {
                                            Some(Register::ParallelPortConf2)
                                        } else {
                                            None
                                        }
                                    } else {
                                        if addr == 0x012 {
                                            Some(Register::ParallelPortConf3)
                                        } else {
                                            None
                                        }
                                    }
                                } else {
                                    if addr < 0x014 {
                                        if addr == 0x013 {
                                            Some(Register::EnsmMode)
                                        } else {
                                            None
                                        }
                                    } else {
                                        if addr == 0x014 {
                                            Some(Register::EnsmConfig1)
                                        } else {
                                            None
                                        }
                                    }
                                }
                            } else {
                                if addr < 0x017 {
                                    if addr < 0x016 {
                                        if addr == 0x015 {
                                            Some(Register::EnsmConfig2)
                                        } else {
                                            None
                                        }
                                    } else {
                                        if addr == 0x016 {
                                            Some(Register::CalibrationCtrl)
                                        } else {
                                            None
                                        }
                                    }
                                } else {
                                    if addr < 0x018 {
                                        if addr == 0x017 {
                                            Some(Register::State)
                                        } else {
                                            None
                                        }
                                    } else {
                                        if addr == 0x018 {
                                            Some(Register::Auxdac1Word)
                                        } else {
                                            None
                                        }
                                    }
                                }
                            }
                        } else {
                            if addr < 0x01D {
                                if addr < 0x01B {
                                    if addr < 0x01A {
                                        if addr == 0x019 {
                                            Some(Register::Auxdac2Word)
                                        } else {
                                            None
                                        }
                                    } else {
                                        if addr == 0x01A {
                                            Some(Register::Auxdac1Config)
                                        } else {
                                            None
                                        }
                                    }
                                } else {
                                    if addr < 0x01C {
                                        if addr == 0x01B {
                                            Some(Register::Auxdac2Config)
                                        } else {
                                            None
                                        }
                                    } else {
                                        if addr == 0x01C {
                                            Some(Register::AuxadcClockDivider)
                                        } else {
                                            None
                                        }
                                    }
                                }
                            } else {
                                if addr < 0x01F {
                                    if addr < 0x01E {
                                        if addr == 0x01D {
                                            Some(Register::AuxadcConfig)
                                        } else {
                                            None
                                        }
                                    } else {
                                        if addr == 0x01E {
                                            Some(Register::AuxadcWordMsb)
                                        } else {
                                            None
                                        }
                                    }
                                } else {
                                    if addr < 0x020 {
                                        if addr == 0x01F {
                                            Some(Register::AuxadcLsb)
                                        } else {
                                            None
                                        }
                                    } else {
                                        if addr == 0x020 {
                                            Some(Register::AutoGpo)
                                        } else {
                                            None
                                        }
                                    }
                                }
                            }
                        }
                    }
                } else {
                    if addr < 0x031 {
                        if addr < 0x029 {
                            if addr < 0x025 {
                                if addr < 0x023 {
                                    if addr < 0x022 {
                                        if addr == 0x021 {
                                            Some(Register::AgcGainLockDelay)
                                        } else {
                                            None
                                        }
                                    } else {
                                        if addr == 0x022 {
                                            Some(Register::AgcAttackDelay)
                                        } else {
                                            None
                                        }
                                    }
                                } else {
                                    if addr < 0x024 {
                                        if addr == 0x023 {
                                            Some(Register::AuxdacEnableCtrl)
                                        } else {
                                            None
                                        }
                                    } else {
                                        if addr == 0x024 {
                                            Some(Register::RxLoadSynthDelay)
                                        } else {
                                            None
                                        }
                                    }
                                }
                            } else {
                                if addr < 0x027 {
                                    if addr < 0x026 {
                                        if addr == 0x025 {
                                            Some(Register::TxLoadSynthDelay)
                                        } else {
                                            None
                                        }
                                    } else {
                                        if addr == 0x026 {
                                            Some(Register::ExternalLnaCtrl)
                                        } else {
                                            None
                                        }
                                    }
                                } else {
                                    if addr < 0x028 {
                                        if addr == 0x027 {
                                            Some(Register::GpoForceAndInit)
                                        } else {
                                            None
                                        }
                                    } else {
                                        if addr == 0x028 {
                                            Some(Register::Gpo0RxDelay)
                                        } else {
                                            None
                                        }
                                    }
                                }
                            }
                        } else {
                            if addr < 0x02D {
                                if addr < 0x02B {
                                    if addr < 0x02A {
                                        if addr == 0x029 {
                                            Some(Register::Gpo1RxDelay)
                                        } else {
                                            None
                                        }
                                    } else {
                                        if addr == 0x02A {
                                            Some(Register::Gpo2RxDelay)
                                        } else {
                                            None
                                        }
                                    }
                                } else {
                                    if addr < 0x02C {
                                        if addr == 0x02B {
                                            Some(Register::Gpo3RxDelay)
                                        } else {
                                            None
                                        }
                                    } else {
                                        if addr == 0x02C {
                                            Some(Register::Gpo0TxDelay)
                                        } else {
                                            None
                                        }
                                    }
                                }
                            } else {
                                if addr < 0x02F {
                                    if addr < 0x02E {
                                        if addr == 0x02D {
                                            Some(Register::Gpo1TxDelay)
                                        } else {
                                            None
                                        }
                                    } else {
                                        if addr == 0x02E {
                                            Some(Register::Gpo2TxDelay)
                                        } else {
                                            None
                                        }
                                    }
                                } else {
                                    if addr < 0x030 {
                                        if addr == 0x02F {
                                            Some(Register::Gpo3TxDelay)
                                        } else {
                                            None
                                        }
                                    } else {
                                        if addr == 0x030 {
                                            Some(Register::Auxdac1RxDelay)
                                        } else {
                                            None
                                        }
                                    }
                                }
                            }
                        }
                    } else {
                        if addr < 0x03C {
                            if addr < 0x036 {
                                if addr < 0x033 {
                                    if addr < 0x032 {
                                        if addr == 0x031 {
                                            Some(Register::Auxdac1TxDelay)
                                        } else {
                                            None
                                        }
                                    } else {
                                        if addr == 0x032 {
                                            Some(Register::Auxdac2RxDelay)
                                        } else {
                                            None
                                        }
                                    }
                                } else {
                                    if addr < 0x035 {
                                        if addr == 0x033 {
                                            Some(Register::Auxdac2TxDelay)
                                        } else {
                                            None
                                        }
                                    } else {
                                        if addr == 0x035 {
                                            Some(Register::CtrlOutputPointer)
                                        } else {
                                            None
                                        }
                                    }
                                }
                            } else {
                                if addr < 0x03A {
                                    if addr < 0x037 {
                                        if addr == 0x036 {
                                            Some(Register::CtrlOutputEnable)
                                        } else {
                                            None
                                        }
                                    } else {
                                        if addr == 0x037 {
                                            Some(Register::ProductId)
                                        } else {
                                            None
                                        }
                                    }
                                } else {
                                    if addr < 0x03B {
                                        if addr == 0x03A {
                                            Some(Register::ReferenceClockCycles)
                                        } else {
                                            None
                                        }
                                    } else {
                                        if addr == 0x03B {
                                            Some(Register::DigitalIoCtrl)
                                        } else {
                                            None
                                        }
                                    }
                                }
                            }
                        } else {
                            if addr < 0x041 {
                                if addr < 0x03E {
                                    if addr < 0x03D {
                                        if addr == 0x03C {
                                            Some(Register::LvdsBiasCtrl)
                                        } else {
                                            None
                                        }
                                    } else {
                                        if addr == 0x03D {
                                            Some(Register::LvdsInvertCtrl1)
                                        } else {
                                            None
                                        }
                                    }
                                } else {
                                    if addr < 0x03F {
                                        if addr == 0x03E {
                                            Some(Register::LvdsInvertCtrl2)
                                        } else {
                                            None
                                        }
                                    } else {
                                        if addr == 0x03F {
                                            Some(Register::BbPllCtrl1)
                                        } else {
                                            None
                                        }
                                    }
                                }
                            } else {
                                if addr < 0x043 {
                                    if addr < 0x042 {
                                        if addr == 0x041 {
                                            Some(Register::FractBbFreqWord1)
                                        } else {
                                            None
                                        }
                                    } else {
                                        if addr == 0x042 {
                                            Some(Register::FractBbFreqWord2)
                                        } else {
                                            None
                                        }
                                    }
                                } else {
                                    if addr < 0x044 {
                                        if addr == 0x043 {
                                            Some(Register::FractBbFreqWord3)
                                        } else {
                                            None
                                        }
                                    } else {
                                        if addr < 0x045 {
                                            if addr == 0x044 {
                                                Some(Register::IntegerBbFreqWord)
                                            } else {
                                                None
                                            }
                                        } else {
                                            if addr == 0x045 {
                                                Some(Register::ClockCtrl)
                                            } else {
                                                None
                                            }
                                        }
                                    }
                                }
                            }
                        }
                    }
                }
            } else {
                if addr < 0x06E {
                    if addr < 0x057 {
                        if addr < 0x04E {
                            if addr < 0x04A {
                                if addr < 0x048 {
                                    if addr < 0x047 {
                                        if addr == 0x046 {
                                            Some(Register::CpCurrent)
                                        } else {
                                            None
                                        }
                                    } else {
                                        if addr == 0x047 {
                                            Some(Register::CpBleedCurrent)
                                        } else {
                                            None
                                        }
                                    }
                                } else {
                                    if addr < 0x049 {
                                        if addr == 0x048 {
                                            Some(Register::LoopFilter1)
                                        } else {
                                            None
                                        }
                                    } else {
                                        if addr == 0x049 {
                                            Some(Register::LoopFilter2)
                                        } else {
                                            None
                                        }
                                    }
                                }
                            } else {
                                if addr < 0x04C {
                                    if addr < 0x04B {
                                        if addr == 0x04A {
                                            Some(Register::LoopFilter3)
                                        } else {
                                            None
                                        }
                                    } else {
                                        if addr == 0x04B {
                                            Some(Register::VcoCtrl)
                                        } else {
                                            None
                                        }
                                    }
                                } else {
                                    if addr < 0x04D {
                                        if addr == 0x04C {
                                            Some(Register::VcoProgram1)
                                        } else {
                                            None
                                        }
                                    } else {
                                        if addr == 0x04D {
                                            Some(Register::VcoProgram2)
                                        } else {
                                            None
                                        }
                                    }
                                }
                            }
                        } else {
                            if addr < 0x053 {
                                if addr < 0x051 {
                                    if addr < 0x050 {
                                        if addr == 0x04E {
                                            Some(Register::SdmCtrl)
                                        } else {
                                            None
                                        }
                                    } else {
                                        if addr == 0x050 {
                                            Some(Register::RxSynthPowerDownOverride)
                                        } else {
                                            None
                                        }
                                    }
                                } else {
                                    if addr < 0x052 {
                                        if addr == 0x051 {
                                            Some(Register::TxSynthPowerDownOverride)
                                        } else {
                                            None
                                        }
                                    } else {
                                        if addr == 0x052 {
                                            Some(Register::RxAnalogPowerDownOverride1)
                                        } else {
                                            None
                                        }
                                    }
                                }
                            } else {
                                if addr < 0x055 {
                                    if addr < 0x054 {
                                        if addr == 0x053 {
                                            Some(Register::RxAnalogPowerDownOverride2)
                                        } else {
                                            None
                                        }
                                    } else {
                                        if addr == 0x054 {
                                            Some(Register::Rx1AdcPowerDownOverride)
                                        } else {
                                            None
                                        }
                                    }
                                } else {
                                    if addr < 0x056 {
                                        if addr == 0x055 {
                                            Some(Register::Rx2AdcPowerDownOverride)
                                        } else {
                                            None
                                        }
                                    } else {
                                        if addr == 0x056 {
                                            Some(Register::TxAnalogPowerDownOverride1)
                                        } else {
                                            None
                                        }
                                    }
                                }
                            }
                        }
                    } else {
                        if addr < 0x064 {
                            if addr < 0x060 {
                                if addr < 0x05E {
                                    if addr < 0x058 {
                                        if addr == 0x057 {
                                            Some(Register::AnalogPowerDownOverride)
                                        } else {
                                            None
                                        }
                                    } else {
                                        if addr == 0x058 {
                                            Some(Register::MiscPowerDownOverride)
                                        } else {
                                            None
                                        }
                                    }
                                } else {
                                    if addr < 0x05F {
                                        if addr == 0x05E {
                                            Some(Register::Ch1Overflow)
                                        } else {
                                            None
                                        }
                                    } else {
                                        if addr == 0x05F {
                                            Some(Register::Ch2Overflow)
                                        } else {
                                            None
                                        }
                                    }
                                }
                            } else {
                                if addr < 0x062 {
                                    if addr < 0x061 {
                                        if addr == 0x060 {
                                            Some(Register::TxFilterCoefAddr)
                                        } else {
                                            None
                                        }
                                    } else {
                                        if addr == 0x061 {
                                            Some(Register::TxFilterCoefWriteData1)
                                        } else {
                                            None
                                        }
                                    }
                                } else {
                                    if addr < 0x063 {
                                        if addr == 0x062 {
                                            Some(Register::TxFilterCoefWriteData2)
                                        } else {
                                            None
                                        }
                                    } else {
                                        if addr == 0x063 {
                                            Some(Register::TxFilterCoefReadData1)
                                        } else {
                                            None
                                        }
                                    }
                                }
                            }
                        } else {
                            if addr < 0x069 {
                                if addr < 0x067 {
                                    if addr < 0x065 {
                                        if addr == 0x064 {
                                            Some(Register::TxFilterCoefReadData2)
                                        } else {
                                            None
                                        }
                                    } else {
                                        if addr == 0x065 {
                                            Some(Register::TxFilterConf)
                                        } else {
                                            None
                                        }
                                    }
                                } else {
                                    if addr < 0x068 {
                                        if addr == 0x067 {
                                            Some(Register::TxMonLowGain)
                                        } else {
                                            None
                                        }
                                    } else {
                                        if addr == 0x068 {
                                            Some(Register::TxMonHighGain)
                                        } else {
                                            None
                                        }
                                    }
                                }
                            } else {
                                if addr < 0x06B {
                                    if addr < 0x06A {
                                        if addr == 0x069 {
                                            Some(Register::TxMonDelay)
                                        } else {
                                            None
                                        }
                                    } else {
                                        if addr == 0x06A {
                                            Some(Register::TxLevelThresh)
                                        } else {
                                            None
                                        }
                                    }
                                } else {
                                    if addr < 0x06C {
                                        if addr == 0x06B {
                                            Some(Register::TxRssi1)
                                        } else {
                                            None
                                        }
                                    } else {
                                        if addr < 0x06D {
                                            if addr == 0x06C {
                                                Some(Register::TxRssi2)
                                            } else {
                                                None
                                            }
                                        } else {
                                            if addr == 0x06D {
                                                Some(Register::TxRssiLsb)
                                            } else {
                                                None
                                            }
                                        }
                                    }
                                }
                            }
                        }
                    }
                } else {
                    if addr < 0x08F {
                        if addr < 0x077 {
                            if addr < 0x073 {
                                if addr < 0x070 {
                                    if addr < 0x06F {
                                        if addr == 0x06E {
                                            Some(Register::TpmModeEnable)
                                        } else {
                                            None
                                        }
                                    } else {
                                        if addr == 0x06F {
                                            Some(Register::TxMonTempGainCoef)
                                        } else {
                                            None
                                        }
                                    }
                                } else {
                                    if addr < 0x071 {
                                        if addr == 0x070 {
                                            Some(Register::TxMon1Config)
                                        } else {
                                            None
                                        }
                                    } else {
                                        if addr == 0x071 {
                                            Some(Register::TxMon2Config)
                                        } else {
                                            None
                                        }
                                    }
                                }
                            } else {
                                if addr < 0x075 {
                                    if addr < 0x074 {
                                        if addr == 0x073 {
                                            Some(Register::Tx1Atten0)
                                        } else {
                                            None
                                        }
                                    } else {
                                        if addr == 0x074 {
                                            Some(Register::Tx1Atten1)
                                        } else {
                                            None
                                        }
                                    }
                                } else {
                                    if addr < 0x076 {
                                        if addr == 0x075 {
                                            Some(Register::Tx2Atten0)
                                        } else {
                                            None
                                        }
                                    } else {
                                        if addr == 0x076 {
                                            Some(Register::Tx2Atten1)
                                        } else {
                                            None
                                        }
                                    }
                                }
                            }
                        } else {
                            if addr < 0x07F {
                                if addr < 0x079 {
                                    if addr < 0x078 {
                                        if addr == 0x077 {
                                            Some(Register::TxAttenOffset)
                                        } else {
                                            None
                                        }
                                    } else {
                                        if addr == 0x078 {
                                            Some(Register::TxAttenThresh)
                                        } else {
                                            None
                                        }
                                    }
                                } else {
                                    if addr < 0x07C {
                                        if addr == 0x079 {
                                            Some(Register::Tx1DigAtten)
                                        } else {
                                            None
                                        }
                                    } else {
                                        if addr == 0x07C {
                                            Some(Register::Tx2DigAtten)
                                        } else {
                                            None
                                        }
                                    }
                                }
                            } else {
                                if addr < 0x081 {
                                    if addr < 0x080 {
                                        if addr == 0x07F {
                                            Some(Register::Tx1SymbolAtten)
                                        } else {
                                            None
                                        }
                                    } else {
                                        if addr == 0x080 {
                                            Some(Register::Tx2SymbolAtten)
                                        } else {
                                            None
                                        }
                                    }
                                } else {
                                    if addr < 0x08E {
                                        if addr == 0x081 {
                                            Some(Register::TxSymbolAttenConfig)
                                        } else {
                                            None
                                        }
                                    } else {
                                        if addr == 0x08E {
                                            Some(Register::Tx1Out1PhaseCorr)
                                        } else {
                                            None
                                        }
                                    }
                                }
                            }
                        }
                    } else {
                        if addr < 0x097 {
                            if addr < 0x093 {
                                if addr < 0x091 {
                                    if addr < 0x090 {
                                        if addr == 0x08F {
                                            Some(Register::Tx1Out1GainCorr)
                                        } else {
                                            None
                                        }
                                    } else {
                                        if addr == 0x090 {
                                            Some(Register::Tx2Out1PhaseCorr)
                                        } else {
                                            None
                                        }
                                    }
                                } else {
                                    if addr < 0x092 {
                                        if addr == 0x091 {
                                            Some(Register::Tx2Out1GainCorr)
                                        } else {
                                            None
                                        }
                                    } else {
                                        if addr == 0x092 {
                                            Some(Register::Tx1Out1OffsetI)
                                        } else {
                                            None
                                        }
                                    }
                                }
                            } else {
                                if addr < 0x095 {
                                    if addr < 0x094 {
                                        if addr == 0x093 {
                                            Some(Register::Tx1Out1OffsetQ)
                                        } else {
                                            None
                                        }
                                    } else {
                                        if addr == 0x094 {
                                            Some(Register::Tx2Out1OffsetI)
                                        } else {
                                            None
                                        }
                                    }
                                } else {
                                    if addr < 0x096 {
                                        if addr == 0x095 {
                                            Some(Register::Tx2Out1OffsetQ)
                                        } else {
                                            None
                                        }
                                    } else {
                                        if addr == 0x096 {
                                            Some(Register::Tx1Out2PhaseCorr)
                                        } else {
                                            None
                                        }
                                    }
                                }
                            }
                        } else {
                            if addr < 0x09B {
                                if addr < 0x099 {
                                    if addr < 0x098 {
                                        if addr == 0x097 {
                                            Some(Register::Tx1Out2GainCorr)
                                        } else {
                                            None
                                        }
                                    } else {
                                        if addr == 0x098 {
                                            Some(Register::Tx2Out2PhaseCorr)
                                        } else {
                                            None
                                        }
                                    }
                                } else {
                                    if addr < 0x09A {
                                        if addr == 0x099 {
                                            Some(Register::Tx2Out2GainCorr)
                                        } else {
                                            None
                                        }
                                    } else {
                                        if addr == 0x09A {
                                            Some(Register::Tx1Out2OffsetI)
                                        } else {
                                            None
                                        }
                                    }
                                }
                            } else {
                                if addr < 0x09D {
                                    if addr < 0x09C {
                                        if addr == 0x09B {
                                            Some(Register::Tx1Out2OffsetQ)
                                        } else {
                                            None
                                        }
                                    } else {
                                        if addr == 0x09C {
                                            Some(Register::Tx2Out2OffsetI)
                                        } else {
                                            None
                                        }
                                    }
                                } else {
                                    if addr < 0x09F {
                                        if addr == 0x09D {
                                            Some(Register::Tx2Out2OffsetQ)
                                        } else {
                                            None
                                        }
                                    } else {
                                        if addr < 0x0A0 {
                                            if addr == 0x09F {
                                                Some(Register::TxForceBits)
                                            } else {
                                                None
                                            }
                                        } else {
                                            if addr == 0x0A0 {
                                                Some(Register::QuadCalNcoFreqPhaseOffset)
                                            } else {
                                                None
                                            }
                                        }
                                    }
                                }
                            }
                        }
                    }
                }
            }
        } else {
            if addr < 0x112 {
                if addr < 0x0D2 {
                    if addr < 0x0B2 {
                        if addr < 0x0A9 {
                            if addr < 0x0A5 {
                                if addr < 0x0A3 {
                                    if addr < 0x0A2 {
                                        if addr == 0x0A1 {
                                            Some(Register::QuadCalCtrl)
                                        } else {
                                            None
                                        }
                                    } else {
                                        if addr == 0x0A2 {
                                            Some(Register::Kexp1)
                                        } else {
                                            None
                                        }
                                    }
                                } else {
                                    if addr < 0x0A4 {
                                        if addr == 0x0A3 {
                                            Some(Register::Kexp2)
                                        } else {
                                            None
                                        }
                                    } else {
                                        if addr == 0x0A4 {
                                            Some(Register::QuadSettleCount)
                                        } else {
                                            None
                                        }
                                    }
                                }
                            } else {
                                if addr < 0x0A7 {
                                    if addr < 0x0A6 {
                                        if addr == 0x0A5 {
                                            Some(Register::MagFtestThresh)
                                        } else {
                                            None
                                        }
                                    } else {
                                        if addr == 0x0A6 {
                                            Some(Register::MagFtestThresh2)
                                        } else {
                                            None
                                        }
                                    }
                                } else {
                                    if addr < 0x0A8 {
                                        if addr == 0x0A7 {
                                            Some(Register::QuadCalStatusTx1)
                                        } else {
                                            None
                                        }
                                    } else {
                                        if addr == 0x0A8 {
                                            Some(Register::QuadCalStatusTx2)
                                        } else {
                                            None
                                        }
                                    }
                                }
                            }
                        } else {
                            if addr < 0x0AD {
                                if addr < 0x0AB {
                                    if addr < 0x0AA {
                                        if addr == 0x0A9 {
                                            Some(Register::QuadCalCount)
                                        } else {
                                            None
                                        }
                                    } else {
                                        if addr == 0x0AA {
                                            Some(Register::TxQuadFullLmtGain)
                                        } else {
                                            None
                                        }
                                    }
                                } else {
                                    if addr < 0x0AC {
                                        if addr == 0x0AB {
                                            Some(Register::SquarerConfig)
                                        } else {
                                            None
                                        }
                                    } else {
                                        if addr == 0x0AC {
                                            Some(Register::TxQuadCalAtten)
                                        } else {
                                            None
                                        }
                                    }
                                }
                            } else {
                                if addr < 0x0B0 {
                                    if addr < 0x0AE {
                                        if addr == 0x0AD {
                                            Some(Register::ThreshAccum)
                                        } else {
                                            None
                                        }
                                    } else {
                                        if addr == 0x0AE {
                                            Some(Register::TxQuadLpfGain)
                                        } else {
                                            None
                                        }
                                    }
                                } else {
                                    if addr < 0x0B1 {
                                        if addr == 0x0B0 {
                                            Some(Register::TxdacVdsI)
                                        } else {
                                            None
                                        }
                                    } else {
                                        if addr == 0x0B1 {
                                            Some(Register::TxdacVdsQ)
                                        } else {
                                            None
                                        }
                                    }
                                }
                            }
                        }
                    } else {
                        if addr < 0x0C6 {
                            if addr < 0x0C2 {
                                if addr < 0x0C0 {
                                    if addr < 0x0B3 {
                                        if addr == 0x0B2 {
                                            Some(Register::TxdacGnI)
                                        } else {
                                            None
                                        }
                                    } else {
                                        if addr == 0x0B3 {
                                            Some(Register::TxdacGnQ)
                                        } else {
                                            None
                                        }
                                    }
                                } else {
                                    if addr < 0x0C1 {
                                        if addr == 0x0C0 {
                                            Some(Register::TxbbfOpampA)
                                        } else {
                                            None
                                        }
                                    } else {
                                        if addr == 0x0C1 {
                                            Some(Register::TxbbfOpampB)
                                        } else {
                                            None
                                        }
                                    }
                                }
                            } else {
                                if addr < 0x0C4 {
                                    if addr < 0x0C3 {
                                        if addr == 0x0C2 {
                                            Some(Register::TxBbfR1)
                                        } else {
                                            None
                                        }
                                    } else {
                                        if addr == 0x0C3 {
                                            Some(Register::TxBbfR2)
                                        } else {
                                            None
                                        }
                                    }
                                } else {
                                    if addr < 0x0C5 {
                                        if addr == 0x0C4 {
                                            Some(Register::TxBbfR3)
                                        } else {
                                            None
                                        }
                                    } else {
                                        if addr == 0x0C5 {
                                            Some(Register::TxBbfR4)
                                        } else {
                                            None
                                        }
                                    }
                                }
                            }
                        } else {
                            if addr < 0x0CA {
                                if addr < 0x0C8 {
                                    if addr < 0x0C7 {
                                        if addr == 0x0C6 {
                                            Some(Register::TxBbfRp)
                                        } else {
                                            None
                                        }
                                    } else {
                                        if addr == 0x0C7 {
                                            Some(Register::TxBbfC1)
                                        } else {
                                            None
                                        }
                                    }
                                } else {
                                    if addr < 0x0C9 {
                                        if addr == 0x0C8 {
                                            Some(Register::TxBbfC2)
                                        } else {
                                            None
                                        }
                                    } else {
                                        if addr == 0x0C9 {
                                            Some(Register::TxBbfCp)
                                        } else {
                                            None
                                        }
                                    }
                                }
                            } else {
                                if addr < 0x0CC {
                                    if addr < 0x0CB {
                                        if addr == 0x0CA {
                                            Some(Register::TxTuneCtrl)
                                        } else {
                                            None
                                        }
                                    } else {
                                        if addr == 0x0CB {
                                            Some(Register::TxBbfR2b)
                                        } else {
                                            None
                                        }
                                    }
                                } else {
                                    if addr < 0x0D0 {
                                        if addr == 0x0CC {
                                            Some(Register::TxBbfTune)
                                        } else {
                                            None
                                        }
                                    } else {
                                        if addr < 0x0D1 {
                                            if addr == 0x0D0 {
                                                Some(Register::Config0)
                                            } else {
                                                None
                                            }
                                        } else {
                                            if addr == 0x0D1 {
                                                Some(Register::Resistor)
                                            } else {
                                                None
                                            }
                                        }
                                    }
                                }
                            }
                        }
                    }
                } else {
                    if addr < 0x100 {
                        if addr < 0x0F4 {
                            if addr < 0x0F0 {
                                if addr < 0x0D6 {
                                    if addr < 0x0D3 {
                                        if addr == 0x0D2 {
                                            Some(Register::Capacitor)
                                        } else {
                                            None
                                        }
                                    } else {
                                        if addr == 0x0D3 {
                                            Some(Register::LoCm)
                                        } else {
                                            None
                                        }
                                    }
                                } else {
                                    if addr < 0x0D7 {
                                        if addr == 0x0D6 {
                                            Some(Register::TxBbfTuneDivider)
                                        } else {
                                            None
                                        }
                                    } else {
                                        if addr == 0x0D7 {
                                            Some(Register::TxBbfTuneMode)
                                        } else {
                                            None
                                        }
                                    }
                                }
                            } else {
                                if addr < 0x0F2 {
                                    if addr < 0x0F1 {
                                        if addr == 0x0F0 {
                                            Some(Register::RxFilterCoefAddr)
                                        } else {
                                            None
                                        }
                                    } else {
                                        if addr == 0x0F1 {
                                            Some(Register::RxFilterCoefData1)
                                        } else {
                                            None
                                        }
                                    }
                                } else {
                                    if addr < 0x0F3 {
                                        if addr == 0x0F2 {
                                            Some(Register::RxFilterCoefData2)
                                        } else {
                                            None
                                        }
                                    } else {
                                        if addr == 0x0F3 {
                                            Some(Register::RxFilterCoefReadData1)
                                        } else {
                                            None
                                        }
                                    }
                                }
                            }
                        } else {
                            if addr < 0x0FB {
                                if addr < 0x0F6 {
                                    if addr < 0x0F5 {
                                        if addr == 0x0F4 {
                                            Some(Register::RxFilterCoefReadData2)
                                        } else {
                                            None
                                        }
                                    } else {
                                        if addr == 0x0F5 {
                                            Some(Register::RxFilterConfig)
                                        } else {
                                            None
                                        }
                                    }
                                } else {
                                    if addr < 0x0FA {
                                        if addr == 0x0F6 {
                                            Some(Register::RxFilterGain)
                                        } else {
                                            None
                                        }
                                    } else {
                                        if addr == 0x0FA {
                                            Some(Register::AgcConfig1)
                                        } else {
                                            None
                                        }
                                    }
                                }
                            } else {
                                if addr < 0x0FD {
                                    if addr < 0x0FC {
                                        if addr == 0x0FB {
                                            Some(Register::AgcConfig2)
                                        } else {
                                            None
                                        }
                                    } else {
                                        if addr == 0x0FC {
                                            Some(Register::AgcConfig3)
                                        } else {
                                            None
                                        }
                                    }
                                } else {
                                    if addr < 0x0FE {
                                        if addr == 0x0FD {
                                            Some(Register::MaxLmtFullGain)
                                        } else {
                                            None
                                        }
                                    } else {
                                        if addr == 0x0FE {
                                            Some(Register::PeakWaitTime)
                                        } else {
                                            None
                                        }
                                    }
                                }
                            }
                        }
                    } else {
                        if addr < 0x108 {
                            if addr < 0x104 {
                                if addr < 0x102 {
                                    if addr < 0x101 {
                                        if addr == 0x100 {
                                            Some(Register::DigitalGain)
                                        } else {
                                            None
                                        }
                                    } else {
                                        if addr == 0x101 {
                                            Some(Register::AgcLockLevel)
                                        } else {
                                            None
                                        }
                                    }
                                } else {
                                    if addr < 0x103 {
                                        if addr == 0x102 {
                                            Some(Register::AdcNoiseCorrectionFactor)
                                        } else {
                                            None
                                        }
                                    } else {
                                        if addr == 0x103 {
                                            Some(Register::GainStepConfig1)
                                        } else {
                                            None
                                        }
                                    }
                                }
                            } else {
                                if addr < 0x106 {
                                    if addr < 0x105 {
                                        if addr == 0x104 {
                                            Some(Register::AdcSmallOverloadThresh)
                                        } else {
                                            None
                                        }
                                    } else {
                                        if addr == 0x105 {
                                            Some(Register::AdcLargeOverloadThresh)
                                        } else {
                                            None
                                        }
                                    }
                                } else {
                                    if addr < 0x107 {
                                        if addr == 0x106 {
                                            Some(Register::GainStepConfig2)
                                        } else {
                                            None
                                        }
                                    } else {
                                        if addr == 0x107 {
                                            Some(Register::SmallLmtOverloadThresh)
                                        } else {
                                            None
                                        }
                                    }
                                }
                            }
                        } else {
                            if addr < 0x10C {
                                if addr < 0x10A {
                                    if addr < 0x109 {
                                        if addr == 0x108 {
                                            Some(Register::LargeLmtOverloadThresh)
                                        } else {
                                            None
                                        }
                                    } else {
                                        if addr == 0x109 {
                                            Some(Register::Rx1ManualLmtFullGain)
                                        } else {
                                            None
                                        }
                                    }
                                } else {
                                    if addr < 0x10B {
                                        if addr == 0x10A {
                                            Some(Register::Rx1ManualLpfGainOrAgcCurrentLpf)
                                        } else {
                                            None
                                        }
                                    } else {
                                        if addr == 0x10B {
                                            Some(Register::Rx1ManualDigitalOrForcedGain)
                                        } else {
                                            None
                                        }
                                    }
                                }
                            } else {
                                if addr < 0x10E {
                                    if addr < 0x10D {
                                        if addr == 0x10C {
                                            Some(Register::Rx2ManualLmtFullGain)
                                        } else {
                                            None
                                        }
                                    } else {
                                        if addr == 0x10D {
                                            Some(Register::Rx2ManualLpfGainOrAgcCurentLpf)
                                        } else {
                                            None
                                        }
                                    }
                                } else {
                                    if addr < 0x110 {
                                        if addr == 0x10E {
                                            Some(Register::Rx2ManualDigitalOrForcedGain)
                                        } else {
                                            None
                                        }
                                    } else {
                                        if addr < 0x111 {
                                            if addr == 0x110 {
                                                Some(Register::FastConfig1)
                                            } else {
                                                None
                                            }
                                        } else {
                                            if addr == 0x111 {
                                                Some(Register::FastConfig2SettlingDelay)
                                            } else {
                                                None
                                            }
                                        }
                                    }
                                }
                            }
                        }
                    }
                }
            } else {
                if addr < 0x13C {
                    if addr < 0x128 {
                        if addr < 0x11A {
                            if addr < 0x116 {
                                if addr < 0x114 {
                                    if addr < 0x113 {
                                        if addr == 0x112 {
                                            Some(Register::FastEnergyLostThresh)
                                        } else {
                                            None
                                        }
                                    } else {
                                        if addr == 0x113 {
                                            Some(Register::FastStrongerSignalThresh)
                                        } else {
                                            None
                                        }
                                    }
                                } else {
                                    if addr < 0x115 {
                                        if addr == 0x114 {
                                            Some(Register::FastLowPowerThresh)
                                        } else {
                                            None
                                        }
                                    } else {
                                        if addr == 0x115 {
                                            Some(Register::FastStrongSignalFreeze)
                                        } else {
                                            None
                                        }
                                    }
                                }
                            } else {
                                if addr < 0x118 {
                                    if addr < 0x117 {
                                        if addr == 0x116 {
                                            Some(Register::FastFinalOverRangeAndOptGain)
                                        } else {
                                            None
                                        }
                                    } else {
                                        if addr == 0x117 {
                                            Some(Register::FastEnergyDetectCount)
                                        } else {
                                            None
                                        }
                                    }
                                } else {
                                    if addr < 0x119 {
                                        if addr == 0x118 {
                                            Some(Register::FastAgcllUpperLimit)
                                        } else {
                                            None
                                        }
                                    } else {
                                        if addr == 0x119 {
                                            Some(Register::FastGainLockExitCount)
                                        } else {
                                            None
                                        }
                                    }
                                }
                            }
                        } else {
                            if addr < 0x122 {
                                if addr < 0x120 {
                                    if addr < 0x11B {
                                        if addr == 0x11A {
                                            Some(Register::FastInitialLmtGainLimit)
                                        } else {
                                            None
                                        }
                                    } else {
                                        if addr == 0x11B {
                                            Some(Register::FastIncrementTime)
                                        } else {
                                            None
                                        }
                                    }
                                } else {
                                    if addr < 0x121 {
                                        if addr == 0x120 {
                                            Some(Register::AgcInnerLowThresh)
                                        } else {
                                            None
                                        }
                                    } else {
                                        if addr == 0x121 {
                                            Some(Register::LmtOverloadCounters)
                                        } else {
                                            None
                                        }
                                    }
                                }
                            } else {
                                if addr < 0x124 {
                                    if addr < 0x123 {
                                        if addr == 0x122 {
                                            Some(Register::AdcOverloadCounters)
                                        } else {
                                            None
                                        }
                                    } else {
                                        if addr == 0x123 {
                                            Some(Register::GainStep1)
                                        } else {
                                            None
                                        }
                                    }
                                } else {
                                    if addr < 0x125 {
                                        if addr == 0x124 {
                                            Some(Register::GainUpdateCounter1)
                                        } else {
                                            None
                                        }
                                    } else {
                                        if addr == 0x125 {
                                            Some(Register::GainUpdateCounter2)
                                        } else {
                                            None
                                        }
                                    }
                                }
                            }
                        }
                    } else {
                        if addr < 0x133 {
                            if addr < 0x12D {
                                if addr < 0x12A {
                                    if addr < 0x129 {
                                        if addr == 0x128 {
                                            Some(Register::DigitalSaturationCounter)
                                        } else {
                                            None
                                        }
                                    } else {
                                        if addr == 0x129 {
                                            Some(Register::OuterPowerThreshs)
                                        } else {
                                            None
                                        }
                                    }
                                } else {
                                    if addr < 0x12C {
                                        if addr == 0x12A {
                                            Some(Register::GainStep2)
                                        } else {
                                            None
                                        }
                                    } else {
                                        if addr == 0x12C {
                                            Some(Register::ExtLnaHighGain)
                                        } else {
                                            None
                                        }
                                    }
                                }
                            } else {
                                if addr < 0x131 {
                                    if addr < 0x130 {
                                        if addr == 0x12D {
                                            Some(Register::ExtLnaLowGain)
                                        } else {
                                            None
                                        }
                                    } else {
                                        if addr == 0x130 {
                                            Some(Register::GainTableAddress)
                                        } else {
                                            None
                                        }
                                    }
                                } else {
                                    if addr < 0x132 {
                                        if addr == 0x131 {
                                            Some(Register::GainTableWriteData1)
                                        } else {
                                            None
                                        }
                                    } else {
                                        if addr == 0x132 {
                                            Some(Register::GainTableWriteData2)
                                        } else {
                                            None
                                        }
                                    }
                                }
                            }
                        } else {
                            if addr < 0x137 {
                                if addr < 0x135 {
                                    if addr < 0x134 {
                                        if addr == 0x133 {
                                            Some(Register::GainTableWriteData3)
                                        } else {
                                            None
                                        }
                                    } else {
                                        if addr == 0x134 {
                                            Some(Register::GainTableReadData1)
                                        } else {
                                            None
                                        }
                                    }
                                } else {
                                    if addr < 0x136 {
                                        if addr == 0x135 {
                                            Some(Register::GainTableReadData2)
                                        } else {
                                            None
                                        }
                                    } else {
                                        if addr == 0x136 {
                                            Some(Register::GainTableReadData3)
                                        } else {
                                            None
                                        }
                                    }
                                }
                            } else {
                                if addr < 0x139 {
                                    if addr < 0x138 {
                                        if addr == 0x137 {
                                            Some(Register::GainTableConfig)
                                        } else {
                                            None
                                        }
                                    } else {
                                        if addr == 0x138 {
                                            Some(Register::GmSubTableAddress)
                                        } else {
                                            None
                                        }
                                    }
                                } else {
                                    if addr < 0x13A {
                                        if addr == 0x139 {
                                            Some(Register::GmSubTableGainWrite)
                                        } else {
                                            None
                                        }
                                    } else {
                                        if addr < 0x13B {
                                            if addr == 0x13A {
                                                Some(Register::GmSubTableBiasWrite)
                                            } else {
                                                None
                                            }
                                        } else {
                                            if addr == 0x13B {
                                                Some(Register::GmSubTableCtrlWrite)
                                            } else {
                                                None
                                            }
                                        }
                                    }
                                }
                            }
                        }
                    }
                } else {
                    if addr < 0x152 {
                        if addr < 0x144 {
                            if addr < 0x140 {
                                if addr < 0x13E {
                                    if addr < 0x13D {
                                        if addr == 0x13C {
                                            Some(Register::GmSubTableGainRead)
                                        } else {
                                            None
                                        }
                                    } else {
                                        if addr == 0x13D {
                                            Some(Register::GmSubTableBiasRead)
                                        } else {
                                            None
                                        }
                                    }
                                } else {
                                    if addr < 0x13F {
                                        if addr == 0x13E {
                                            Some(Register::GmSubTableCtrlRead)
                                        } else {
                                            None
                                        }
                                    } else {
                                        if addr == 0x13F {
                                            Some(Register::GmSubTableConfig)
                                        } else {
                                            None
                                        }
                                    }
                                }
                            } else {
                                if addr < 0x142 {
                                    if addr < 0x141 {
                                        if addr == 0x140 {
                                            Some(Register::WordAddress)
                                        } else {
                                            None
                                        }
                                    } else {
                                        if addr == 0x141 {
                                            Some(Register::GainDiffWorderrorWrite)
                                        } else {
                                            None
                                        }
                                    }
                                } else {
                                    if addr < 0x143 {
                                        if addr == 0x142 {
                                            Some(Register::GainErrorRead)
                                        } else {
                                            None
                                        }
                                    } else {
                                        if addr == 0x143 {
                                            Some(Register::Config)
                                        } else {
                                            None
                                        }
                                    }
                                }
                            }
                        } else {
                            if addr < 0x148 {
                                if addr < 0x146 {
                                    if addr < 0x145 {
                                        if addr == 0x144 {
                                            Some(Register::LnaGainDiffReadBack)
                                        } else {
                                            None
                                        }
                                    } else {
                                        if addr == 0x145 {
                                            Some(Register::MaxMixerCalibrationGainIndex)
                                        } else {
                                            None
                                        }
                                    }
                                } else {
                                    if addr < 0x147 {
                                        if addr == 0x146 {
                                            Some(Register::TempGainCoef)
                                        } else {
                                            None
                                        }
                                    } else {
                                        if addr == 0x147 {
                                            Some(Register::SettleTime)
                                        } else {
                                            None
                                        }
                                    }
                                }
                            } else {
                                if addr < 0x150 {
                                    if addr < 0x149 {
                                        if addr == 0x148 {
                                            Some(Register::MeasureDuration)
                                        } else {
                                            None
                                        }
                                    } else {
                                        if addr == 0x149 {
                                            Some(Register::CalTempSensorWord)
                                        } else {
                                            None
                                        }
                                    }
                                } else {
                                    if addr < 0x151 {
                                        if addr == 0x150 {
                                            Some(Register::MeasureDuration01)
                                        } else {
                                            None
                                        }
                                    } else {
                                        if addr == 0x151 {
                                            Some(Register::MeasureDuration23)
                                        } else {
                                            None
                                        }
                                    }
                                }
                            }
                        }
                    } else {
                        if addr < 0x15A {
                            if addr < 0x156 {
                                if addr < 0x154 {
                                    if addr < 0x153 {
                                        if addr == 0x152 {
                                            Some(Register::RssiWeight0)
                                        } else {
                                            None
                                        }
                                    } else {
                                        if addr == 0x153 {
                                            Some(Register::RssiWeight1)
                                        } else {
                                            None
                                        }
                                    }
                                } else {
                                    if addr < 0x155 {
                                        if addr == 0x154 {
                                            Some(Register::RssiWeight2)
                                        } else {
                                            None
                                        }
                                    } else {
                                        if addr == 0x155 {
                                            Some(Register::RssiWeight3)
                                        } else {
                                            None
                                        }
                                    }
                                }
                            } else {
                                if addr < 0x158 {
                                    if addr < 0x157 {
                                        if addr == 0x156 {
                                            Some(Register::RssiDelay)
                                        } else {
                                            None
                                        }
                                    } else {
                                        if addr == 0x157 {
                                            Some(Register::RssiWaitTime)
                                        } else {
                                            None
                                        }
                                    }
                                } else {
                                    if addr < 0x159 {
                                        if addr == 0x158 {
                                            Some(Register::RssiConfig)
                                        } else {
                                            None
                                        }
                                    } else {
                                        if addr == 0x159 {
                                            Some(Register::AdcMeasureDuration01)
                                        } else {
                                            None
                                        }
                                    }
                                }
                            }
                        } else {
                            if addr < 0x160 {
                                if addr < 0x15C {
                                    if addr < 0x15B {
                                        if addr == 0x15A {
                                            Some(Register::AdcWeight0)
                                        } else {
                                            None
                                        }
                                    } else {
                                        if addr == 0x15B {
                                            Some(Register::AdcWeight1)
                                        } else {
                                            None
                                        }
                                    }
                                } else {
                                    if addr < 0x15D {
                                        if addr == 0x15C {
                                            Some(Register::DecPowerMeasureDuration)
                                        } else {
                                            None
                                        }
                                    } else {
                                        if addr == 0x15D {
                                            Some(Register::LnaGain)
                                        } else {
                                            None
                                        }
                                    }
                                }
                            } else {
                                if addr < 0x162 {
                                    if addr < 0x161 {
                                        if addr == 0x160 {
                                            Some(Register::Ch1AdcPower)
                                        } else {
                                            None
                                        }
                                    } else {
                                        if addr == 0x161 {
                                            Some(Register::Ch1RxFilterPower)
                                        } else {
                                            None
                                        }
                                    }
                                } else {
                                    if addr < 0x163 {
                                        if addr == 0x162 {
                                            Some(Register::Ch2AdcPower)
                                        } else {
                                            None
                                        }
                                    } else {
                                        if addr < 0x168 {
                                            if addr == 0x163 {
                                                Some(Register::Ch2RxFilterPower)
                                            } else {
                                                None
                                            }
                                        } else {
                                            if addr == 0x168 {
                                                Some(Register::RxQuadCalLevel)
                                            } else {
                                                None
                                            }
                                        }
                                    }
                                }
                            }
                        }
                    }
                }
            }
        }
    } else {
        if addr < 0x212 {
            if addr < 0x1C3 {
                if addr < 0x18D {
                    if addr < 0x179 {
                        if addr < 0x171 {
                            if addr < 0x16D {
                                if addr < 0x16B {
                                    if addr < 0x16A {
                                        if addr == 0x169 {
                                            Some(Register::CalibrationConfig1)
                                        } else {
                                            None
                                        }
                                    } else {
                                        if addr == 0x16A {
                                            Some(Register::CalibrationConfig2)
                                        } else {
                                            None
                                        }
                                    }
                                } else {
                                    if addr < 0x16C {
                                        if addr == 0x16B {
                                            Some(Register::CalibrationConfig3)
                                        } else {
                                            None
                                        }
                                    } else {
                                        if addr == 0x16C {
                                            Some(Register::CalibCount)
                                        } else {
                                            None
                                        }
                                    }
                                }
                            } else {
                                if addr < 0x16F {
                                    if addr < 0x16E {
                                        if addr == 0x16D {
                                            Some(Register::SettleCount)
                                        } else {
                                            None
                                        }
                                    } else {
                                        if addr == 0x16E {
                                            Some(Register::RxQuadGain1)
                                        } else {
                                            None
                                        }
                                    }
                                } else {
                                    if addr < 0x170 {
                                        if addr == 0x16F {
                                            Some(Register::RxQuadGain2)
                                        } else {
                                            None
                                        }
                                    } else {
                                        if addr == 0x170 {
                                            Some(Register::Rx1InputAPhaseCorr)
                                        } else {
                                            None
                                        }
                                    }
                                }
                            }
                        } else {
                            if addr < 0x175 {
                                if addr < 0x173 {
                                    if addr < 0x172 {
                                        if addr == 0x171 {
                                            Some(Register::Rx1InputAGainCorr)
                                        } else {
                                            None
                                        }
                                    } else {
                                        if addr == 0x172 {
                                            Some(Register::Rx2InputAPhaseCorr)
                                        } else {
                                            None
                                        }
                                    }
                                } else {
                                    if addr < 0x174 {
                                        if addr == 0x173 {
                                            Some(Register::Rx2InputAGainCorr)
                                        } else {
                                            None
                                        }
                                    } else {
                                        if addr == 0x174 {
                                            Some(Register::Rx1InputAQOffset)
                                        } else {
                                            None
                                        }
                                    }
                                }
                            } else {
                                if addr < 0x177 {
                                    if addr < 0x176 {
                                        if addr == 0x175 {
                                            Some(Register::Rx1InputAOffsets)
                                        } else {
                                            None
                                        }
                                    } else {
                                        if addr == 0x176 {
                                            Some(Register::InputAOffsets1)
                                        } else {
                                            None
                                        }
                                    }
                                } else {
                                    if addr < 0x178 {
                                        if addr == 0x177 {
                                            Some(Register::Rx2InputAOffsets)
                                        } else {
                                            None
                                        }
                                    } else {
                                        if addr == 0x178 {
                                            Some(Register::Rx2InputAIOffset)
                                        } else {
                                            None
                                        }
                                    }
                                }
                            }
                        }
                    } else {
                        if addr < 0x181 {
                            if addr < 0x17D {
                                if addr < 0x17B {
                                    if addr < 0x17A {
                                        if addr == 0x179 {
                                            Some(Register::Rx1InputBcPhaseCorr)
                                        } else {
                                            None
                                        }
                                    } else {
                                        if addr == 0x17A {
                                            Some(Register::Rx1InputBcGainCorr)
                                        } else {
                                            None
                                        }
                                    }
                                } else {
                                    if addr < 0x17C {
                                        if addr == 0x17B {
                                            Some(Register::Rx2InputBcPhaseCorr)
                                        } else {
                                            None
                                        }
                                    } else {
                                        if addr == 0x17C {
                                            Some(Register::Rx2InputBcGainCorr)
                                        } else {
                                            None
                                        }
                                    }
                                }
                            } else {
                                if addr < 0x17F {
                                    if addr < 0x17E {
                                        if addr == 0x17D {
                                            Some(Register::Rx1InputBcQOffset)
                                        } else {
                                            None
                                        }
                                    } else {
                                        if addr == 0x17E {
                                            Some(Register::Rx1InputBcOffsets)
                                        } else {
                                            None
                                        }
                                    }
                                } else {
                                    if addr < 0x180 {
                                        if addr == 0x17F {
                                            Some(Register::InputBcOffsets1)
                                        } else {
                                            None
                                        }
                                    } else {
                                        if addr == 0x180 {
                                            Some(Register::Rx2InputBcOffsets)
                                        } else {
                                            None
                                        }
                                    }
                                }
                            }
                        } else {
                            if addr < 0x187 {
                                if addr < 0x185 {
                                    if addr < 0x182 {
                                        if addr == 0x181 {
                                            Some(Register::Rx2InputBcIOffset)
                                        } else {
                                            None
                                        }
                                    } else {
                                        if addr == 0x182 {
                                            Some(Register::ForceBits)
                                        } else {
                                            None
                                        }
                                    }
                                } else {
                                    if addr < 0x186 {
                                        if addr == 0x185 {
                                            Some(Register::WaitCount)
                                        } else {
                                            None
                                        }
                                    } else {
                                        if addr == 0x186 {
                                            Some(Register::RfDcOffsetCount)
                                        } else {
                                            None
                                        }
                                    }
                                }
                            } else {
                                if addr < 0x189 {
                                    if addr < 0x188 {
                                        if addr == 0x187 {
                                            Some(Register::RfDcOffsetConfig1)
                                        } else {
                                            None
                                        }
                                    } else {
                                        if addr == 0x188 {
                                            Some(Register::RfDcOffsetAtten)
                                        } else {
                                            None
                                        }
                                    }
                                } else {
                                    if addr < 0x18B {
                                        if addr == 0x189 {
                                            Some(Register::InvertBits)
                                        } else {
                                            None
                                        }
                                    } else {
                                        if addr < 0x18C {
                                            if addr == 0x18B {
                                                Some(Register::DcOffsetConfig2)
                                            } else {
                                                None
                                            }
                                        } else {
                                            if addr == 0x18C {
                                                Some(Register::RfCalGainIndex)
                                            } else {
                                                None
                                            }
                                        }
                                    }
                                }
                            }
                        }
                    }
                } else {
                    if addr < 0x1A4 {
                        if addr < 0x19C {
                            if addr < 0x193 {
                                if addr < 0x191 {
                                    if addr < 0x190 {
                                        if addr == 0x18D {
                                            Some(Register::SoiThresh)
                                        } else {
                                            None
                                        }
                                    } else {
                                        if addr == 0x190 {
                                            Some(Register::BbDcOffsetShift)
                                        } else {
                                            None
                                        }
                                    }
                                } else {
                                    if addr < 0x192 {
                                        if addr == 0x191 {
                                            Some(Register::BbDcOffsetFastSettleShift)
                                        } else {
                                            None
                                        }
                                    } else {
                                        if addr == 0x192 {
                                            Some(Register::BbFastSettleDur)
                                        } else {
                                            None
                                        }
                                    }
                                }
                            } else {
                                if addr < 0x19A {
                                    if addr < 0x194 {
                                        if addr == 0x193 {
                                            Some(Register::BbDcOffsetCount)
                                        } else {
                                            None
                                        }
                                    } else {
                                        if addr == 0x194 {
                                            Some(Register::BbDcOffsetAtten)
                                        } else {
                                            None
                                        }
                                    }
                                } else {
                                    if addr < 0x19B {
                                        if addr == 0x19A {
                                            Some(Register::Rx1BbDcWordIMsb)
                                        } else {
                                            None
                                        }
                                    } else {
                                        if addr == 0x19B {
                                            Some(Register::Rx1BbDcWordILsb)
                                        } else {
                                            None
                                        }
                                    }
                                }
                            }
                        } else {
                            if addr < 0x1A0 {
                                if addr < 0x19E {
                                    if addr < 0x19D {
                                        if addr == 0x19C {
                                            Some(Register::Rx1BbDcWordQMsb)
                                        } else {
                                            None
                                        }
                                    } else {
                                        if addr == 0x19D {
                                            Some(Register::Rx1BbDcWordQLsb)
                                        } else {
                                            None
                                        }
                                    }
                                } else {
                                    if addr < 0x19F {
                                        if addr == 0x19E {
                                            Some(Register::Rx2BbDcWordIMsb)
                                        } else {
                                            None
                                        }
                                    } else {
                                        if addr == 0x19F {
                                            Some(Register::Rx2BbDcWordILsb)
                                        } else {
                                            None
                                        }
                                    }
                                }
                            } else {
                                if addr < 0x1A2 {
                                    if addr < 0x1A1 {
                                        if addr == 0x1A0 {
                                            Some(Register::Rx2BbDcWordQMsb)
                                        } else {
                                            None
                                        }
                                    } else {
                                        if addr == 0x1A1 {
                                            Some(Register::Rx2BbDcWordQLsb)
                                        } else {
                                            None
                                        }
                                    }
                                } else {
                                    if addr < 0x1A3 {
                                        if addr == 0x1A2 {
                                            Some(Register::BbTrackCorrWordIMsb)
                                        } else {
                                            None
                                        }
                                    } else {
                                        if addr == 0x1A3 {
                                            Some(Register::BbTrackCorrWordILsb)
                                        } else {
                                            None
                                        }
                                    }
                                }
                            }
                        }
                    } else {
                        if addr < 0x1AD {
                            if addr < 0x1A9 {
                                if addr < 0x1A7 {
                                    if addr < 0x1A5 {
                                        if addr == 0x1A4 {
                                            Some(Register::BbTrackCorrWordQMsb)
                                        } else {
                                            None
                                        }
                                    } else {
                                        if addr == 0x1A5 {
                                            Some(Register::BbTrackCorrWordQLsb)
                                        } else {
                                            None
                                        }
                                    }
                                } else {
                                    if addr < 0x1A8 {
                                        if addr == 0x1A7 {
                                            Some(Register::Rx1RssiSymbol)
                                        } else {
                                            None
                                        }
                                    } else {
                                        if addr == 0x1A8 {
                                            Some(Register::Rx1RssiPreamble)
                                        } else {
                                            None
                                        }
                                    }
                                }
                            } else {
                                if addr < 0x1AB {
                                    if addr < 0x1AA {
                                        if addr == 0x1A9 {
                                            Some(Register::Rx2RssiSymbol)
                                        } else {
                                            None
                                        }
                                    } else {
                                        if addr == 0x1AA {
                                            Some(Register::Rx2RssiPreamble)
                                        } else {
                                            None
                                        }
                                    }
                                } else {
                                    if addr < 0x1AC {
                                        if addr == 0x1AB {
                                            Some(Register::SymbolLsb)
                                        } else {
                                            None
                                        }
                                    } else {
                                        if addr == 0x1AC {
                                            Some(Register::PreambleLsb)
                                        } else {
                                            None
                                        }
                                    }
                                }
                            }
                        } else {
                            if addr < 0x1B2 {
                                if addr < 0x1B0 {
                                    if addr < 0x1AE {
                                        if addr == 0x1AD {
                                            Some(Register::RxPathGainMsb)
                                        } else {
                                            None
                                        }
                                    } else {
                                        if addr == 0x1AE {
                                            Some(Register::RxPathGainLsb)
                                        } else {
                                            None
                                        }
                                    }
                                } else {
                                    if addr < 0x1B1 {
                                        if addr == 0x1B0 {
                                            Some(Register::RxDiffLnaForce)
                                        } else {
                                            None
                                        }
                                    } else {
                                        if addr == 0x1B1 {
                                            Some(Register::RxLnaBiasCoarse)
                                        } else {
                                            None
                                        }
                                    }
                                }
                            } else {
                                if addr < 0x1C0 {
                                    if addr < 0x1B3 {
                                        if addr == 0x1B2 {
                                            Some(Register::RxLnaBiasFine0)
                                        } else {
                                            None
                                        }
                                    } else {
                                        if addr == 0x1B3 {
                                            Some(Register::RxLnaBiasFine1)
                                        } else {
                                            None
                                        }
                                    }
                                } else {
                                    if addr < 0x1C1 {
                                        if addr == 0x1C0 {
                                            Some(Register::RxMixGmConfig)
                                        } else {
                                            None
                                        }
                                    } else {
                                        if addr < 0x1C2 {
                                            if addr == 0x1C1 {
                                                Some(Register::Rx1MixGmForce)
                                            } else {
                                                None
                                            }
                                        } else {
                                            if addr == 0x1C2 {
                                                Some(Register::Rx1MixGmBiasForce)
                                            } else {
                                                None
                                            }
                                        }
                                    }
                                }
                            }
                        }
                    }
                }
            } else {
                if addr < 0x1EC {
                    if addr < 0x1DB {
                        if addr < 0x1CE {
                            if addr < 0x1CA {
                                if addr < 0x1C8 {
                                    if addr < 0x1C4 {
                                        if addr == 0x1C3 {
                                            Some(Register::Rx2MixGmForce)
                                        } else {
                                            None
                                        }
                                    } else {
                                        if addr == 0x1C4 {
                                            Some(Register::Rx2MixGmBiasForce)
                                        } else {
                                            None
                                        }
                                    }
                                } else {
                                    if addr < 0x1C9 {
                                        if addr == 0x1C8 {
                                            Some(Register::InputAMsbs)
                                        } else {
                                            None
                                        }
                                    } else {
                                        if addr == 0x1C9 {
                                            Some(Register::InputARx1I)
                                        } else {
                                            None
                                        }
                                    }
                                }
                            } else {
                                if addr < 0x1CC {
                                    if addr < 0x1CB {
                                        if addr == 0x1CA {
                                            Some(Register::InputARx1Q)
                                        } else {
                                            None
                                        }
                                    } else {
                                        if addr == 0x1CB {
                                            Some(Register::InputARx2I)
                                        } else {
                                            None
                                        }
                                    }
                                } else {
                                    if addr < 0x1CD {
                                        if addr == 0x1CC {
                                            Some(Register::InputARx2Q)
                                        } else {
                                            None
                                        }
                                    } else {
                                        if addr == 0x1CD {
                                            Some(Register::InputsBcRx1I)
                                        } else {
                                            None
                                        }
                                    }
                                }
                            }
                        } else {
                            if addr < 0x1D2 {
                                if addr < 0x1D0 {
                                    if addr < 0x1CF {
                                        if addr == 0x1CE {
                                            Some(Register::Band1Rx1Q)
                                        } else {
                                            None
                                        }
                                    } else {
                                        if addr == 0x1CF {
                                            Some(Register::InputsBcRx2I)
                                        } else {
                                            None
                                        }
                                    }
                                } else {
                                    if addr < 0x1D1 {
                                        if addr == 0x1D0 {
                                            Some(Register::InputsBcRx2Q)
                                        } else {
                                            None
                                        }
                                    } else {
                                        if addr == 0x1D1 {
                                            Some(Register::InputsBcMsbs)
                                        } else {
                                            None
                                        }
                                    }
                                }
                            } else {
                                if addr < 0x1D6 {
                                    if addr < 0x1D5 {
                                        if addr == 0x1D2 {
                                            Some(Register::ForceOsDac)
                                        } else {
                                            None
                                        }
                                    } else {
                                        if addr == 0x1D5 {
                                            Some(Register::RxMixLoCm)
                                        } else {
                                            None
                                        }
                                    }
                                } else {
                                    if addr < 0x1D7 {
                                        if addr == 0x1D6 {
                                            Some(Register::RxCgbSegEnable)
                                        } else {
                                            None
                                        }
                                    } else {
                                        if addr == 0x1D7 {
                                            Some(Register::RxMixInputbias)
                                        } else {
                                            None
                                        }
                                    }
                                }
                            }
                        }
                    } else {
                        if addr < 0x1E3 {
                            if addr < 0x1DF {
                                if addr < 0x1DD {
                                    if addr < 0x1DC {
                                        if addr == 0x1DB {
                                            Some(Register::RxTiaConfig)
                                        } else {
                                            None
                                        }
                                    } else {
                                        if addr == 0x1DC {
                                            Some(Register::Tia1CLsb)
                                        } else {
                                            None
                                        }
                                    }
                                } else {
                                    if addr < 0x1DE {
                                        if addr == 0x1DD {
                                            Some(Register::Tia1CMsb)
                                        } else {
                                            None
                                        }
                                    } else {
                                        if addr == 0x1DE {
                                            Some(Register::Tia2CLsb)
                                        } else {
                                            None
                                        }
                                    }
                                }
                            } else {
                                if addr < 0x1E1 {
                                    if addr < 0x1E0 {
                                        if addr == 0x1DF {
                                            Some(Register::Tia2CMsb)
                                        } else {
                                            None
                                        }
                                    } else {
                                        if addr == 0x1E0 {
                                            Some(Register::Rx1BbfR1a)
                                        } else {
                                            None
                                        }
                                    }
                                } else {
                                    if addr < 0x1E2 {
                                        if addr == 0x1E1 {
                                            Some(Register::Rx2BbfR1a)
                                        } else {
                                            None
                                        }
                                    } else {
                                        if addr == 0x1E2 {
                                            Some(Register::Rx1TuneCtrl)
                                        } else {
                                            None
                                        }
                                    }
                                }
                            }
                        } else {
                            if addr < 0x1E7 {
                                if addr < 0x1E5 {
                                    if addr < 0x1E4 {
                                        if addr == 0x1E3 {
                                            Some(Register::Rx2TuneCtrl)
                                        } else {
                                            None
                                        }
                                    } else {
                                        if addr == 0x1E4 {
                                            Some(Register::Rx1BbfR5)
                                        } else {
                                            None
                                        }
                                    }
                                } else {
                                    if addr < 0x1E6 {
                                        if addr == 0x1E5 {
                                            Some(Register::Rx2BbfR5)
                                        } else {
                                            None
                                        }
                                    } else {
                                        if addr == 0x1E6 {
                                            Some(Register::RxBbfR2346)
                                        } else {
                                            None
                                        }
                                    }
                                }
                            } else {
                                if addr < 0x1E9 {
                                    if addr < 0x1E8 {
                                        if addr == 0x1E7 {
                                            Some(Register::RxBbfC1Msb)
                                        } else {
                                            None
                                        }
                                    } else {
                                        if addr == 0x1E8 {
                                            Some(Register::RxBbfC1Lsb)
                                        } else {
                                            None
                                        }
                                    }
                                } else {
                                    if addr < 0x1EA {
                                        if addr == 0x1E9 {
                                            Some(Register::RxBbfC2Msb)
                                        } else {
                                            None
                                        }
                                    } else {
                                        if addr < 0x1EB {
                                            if addr == 0x1EA {
                                                Some(Register::RxBbfC2Lsb)
                                            } else {
                                                None
                                            }
                                        } else {
                                            if addr == 0x1EB {
                                                Some(Register::RxBbfC3Msb)
                                            } else {
                                                None
                                            }
                                        }
                                    }
                                }
                            }
                        }
                    }
                } else {
                    if addr < 0x201 {
                        if addr < 0x1F4 {
                            if addr < 0x1F0 {
                                if addr < 0x1EE {
                                    if addr < 0x1ED {
                                        if addr == 0x1EC {
                                            Some(Register::RxBbfC3Lsb)
                                        } else {
                                            None
                                        }
                                    } else {
                                        if addr == 0x1ED {
                                            Some(Register::RxBbfCc1Ctr)
                                        } else {
                                            None
                                        }
                                    }
                                } else {
                                    if addr < 0x1EF {
                                        if addr == 0x1EE {
                                            Some(Register::RxBbfPowRzByte0)
                                        } else {
                                            None
                                        }
                                    } else {
                                        if addr == 0x1EF {
                                            Some(Register::RxBbfCc2Ctr)
                                        } else {
                                            None
                                        }
                                    }
                                }
                            } else {
                                if addr < 0x1F2 {
                                    if addr < 0x1F1 {
                                        if addr == 0x1F0 {
                                            Some(Register::RxBbfPowRzByte1)
                                        } else {
                                            None
                                        }
                                    } else {
                                        if addr == 0x1F1 {
                                            Some(Register::RxBbfCc3Ctr)
                                        } else {
                                            None
                                        }
                                    }
                                } else {
                                    if addr < 0x1F3 {
                                        if addr == 0x1F2 {
                                            Some(Register::RxBbfR5Tune)
                                        } else {
                                            None
                                        }
                                    } else {
                                        if addr == 0x1F3 {
                                            Some(Register::RxBbfTune)
                                        } else {
                                            None
                                        }
                                    }
                                }
                            }
                        } else {
                            if addr < 0x1FA {
                                if addr < 0x1F8 {
                                    if addr < 0x1F5 {
                                        if addr == 0x1F4 {
                                            Some(Register::Rx1BbfManGain)
                                        } else {
                                            None
                                        }
                                    } else {
                                        if addr == 0x1F5 {
                                            Some(Register::Rx2BbfManGain)
                                        } else {
                                            None
                                        }
                                    }
                                } else {
                                    if addr < 0x1F9 {
                                        if addr == 0x1F8 {
                                            Some(Register::RxBbfTuneDivide)
                                        } else {
                                            None
                                        }
                                    } else {
                                        if addr == 0x1F9 {
                                            Some(Register::RxBbfTuneConfig)
                                        } else {
                                            None
                                        }
                                    }
                                }
                            } else {
                                if addr < 0x1FC {
                                    if addr < 0x1FB {
                                        if addr == 0x1FA {
                                            Some(Register::PoleGain)
                                        } else {
                                            None
                                        }
                                    } else {
                                        if addr == 0x1FB {
                                            Some(Register::RxBbbwMhz)
                                        } else {
                                            None
                                        }
                                    }
                                } else {
                                    if addr < 0x200 {
                                        if addr == 0x1FC {
                                            Some(Register::RxBbbwKhz)
                                        } else {
                                            None
                                        }
                                    } else {
                                        if addr == 0x200 {
                                            Some(Register::AdcSetup0)
                                        } else {
                                            None
                                        }
                                    }
                                }
                            }
                        }
                    } else {
                        if addr < 0x209 {
                            if addr < 0x205 {
                                if addr < 0x203 {
                                    if addr < 0x202 {
                                        if addr == 0x201 {
                                            Some(Register::FbDacClkDelay1)
                                        } else {
                                            None
                                        }
                                    } else {
                                        if addr == 0x202 {
                                            Some(Register::FbDacClkDelay2)
                                        } else {
                                            None
                                        }
                                    }
                                } else {
                                    if addr < 0x204 {
                                        if addr == 0x203 {
                                            Some(Register::FlashSampleClkDelay3p)
                                        } else {
                                            None
                                        }
                                    } else {
                                        if addr == 0x204 {
                                            Some(Register::FlashSampleClkDelay3n)
                                        } else {
                                            None
                                        }
                                    }
                                }
                            } else {
                                if addr < 0x207 {
                                    if addr < 0x206 {
                                        if addr == 0x205 {
                                            Some(Register::TestMux2i)
                                        } else {
                                            None
                                        }
                                    } else {
                                        if addr == 0x206 {
                                            Some(Register::TestMux2q)
                                        } else {
                                            None
                                        }
                                    }
                                } else {
                                    if addr < 0x208 {
                                        if addr == 0x207 {
                                            Some(Register::Integrator1Resistance)
                                        } else {
                                            None
                                        }
                                    } else {
                                        if addr == 0x208 {
                                            Some(Register::Integrator1Capacitance)
                                        } else {
                                            None
                                        }
                                    }
                                }
                            }
                        } else {
                            if addr < 0x20D {
                                if addr < 0x20B {
                                    if addr < 0x20A {
                                        if addr == 0x209 {
                                            Some(Register::Integrator23Resistance)
                                        } else {
                                            None
                                        }
                                    } else {
                                        if addr == 0x20A {
                                            Some(Register::Integrator2Resistance)
                                        } else {
                                            None
                                        }
                                    }
                                } else {
                                    if addr < 0x20C {
                                        if addr == 0x20B {
                                            Some(Register::Integrator2Capacitance)
                                        } else {
                                            None
                                        }
                                    } else {
                                        if addr == 0x20C {
                                            Some(Register::Integrator3Resistance)
                                        } else {
                                            None
                                        }
                                    }
                                }
                            } else {
                                if addr < 0x20F {
                                    if addr < 0x20E {
                                        if addr == 0x20D {
                                            Some(Register::Integrator3Capacitance)
                                        } else {
                                            None
                                        }
                                    } else {
                                        if addr == 0x20E {
                                            Some(Register::IntegratorAmpCc)
                                        } else {
                                            None
                                        }
                                    }
                                } else {
                                    if addr < 0x210 {
                                        if addr == 0x20F {
                                            Some(Register::Int1FbDacNmosCurrentSource)
                                        } else {
                                            None
                                        }
                                    } else {
                                        if addr < 0x211 {
                                            if addr == 0x210 {
                                                Some(Register::Int1FbDacNmosCasoadeBiasCurrent)
                                            } else {
                                                None
                                            }
                                        } else {
                                            if addr == 0x211 {
                                                Some(Register::Int1FbDacPmosCurrentSource)
                                            } else {
                                                None
                                            }
                                        }
                                    }
                                }
                            }
                        }
                    }
                }
            }
        } else {
            if addr < 0x274 {
                if addr < 0x23B {
                    if addr < 0x222 {
                        if addr < 0x21A {
                            if addr < 0x216 {
                                if addr < 0x214 {
                                    if addr < 0x213 {
                                        if addr == 0x212 {
                                            Some(Register::Int2FbDacNmosCurrentSource)
                                        } else {
                                            None
                                        }
                                    } else {
                                        if addr == 0x213 {
                                            Some(Register::Int2FbDacNmosCascodeBiasCurrent)
                                        } else {
                                            None
                                        }
                                    }
                                } else {
                                    if addr < 0x215 {
                                        if addr == 0x214 {
                                            Some(Register::Int2FbDacPmosCurrentSource)
                                        } else {
                                            None
                                        }
                                    } else {
                                        if addr == 0x215 {
                                            Some(Register::Int3FbDacNmosCurrentSource)
                                        } else {
                                            None
                                        }
                                    }
                                }
                            } else {
                                if addr < 0x218 {
                                    if addr < 0x217 {
                                        if addr == 0x216 {
                                            Some(Register::Int3FbDacNmosCascodeBiasCurrent)
                                        } else {
                                            None
                                        }
                                    } else {
                                        if addr == 0x217 {
                                            Some(Register::Int3FbDacPmosCurrentSource)
                                        } else {
                                            None
                                        }
                                    }
                                } else {
                                    if addr < 0x219 {
                                        if addr == 0x218 {
                                            Some(Register::FbDacBiasCurrent)
                                        } else {
                                            None
                                        }
                                    } else {
                                        if addr == 0x219 {
                                            Some(Register::Int11stStageCurrent)
                                        } else {
                                            None
                                        }
                                    }
                                }
                            }
                        } else {
                            if addr < 0x21E {
                                if addr < 0x21C {
                                    if addr < 0x21B {
                                        if addr == 0x21A {
                                            Some(Register::Int11stStageCascodeCurrent)
                                        } else {
                                            None
                                        }
                                    } else {
                                        if addr == 0x21B {
                                            Some(Register::Int12ndStageCurrent)
                                        } else {
                                            None
                                        }
                                    }
                                } else {
                                    if addr < 0x21D {
                                        if addr == 0x21C {
                                            Some(Register::Integrator21stStageCurrent)
                                        } else {
                                            None
                                        }
                                    } else {
                                        if addr == 0x21D {
                                            Some(Register::Int21stStageCascodeCurrent)
                                        } else {
                                            None
                                        }
                                    }
                                }
                            } else {
                                if addr < 0x220 {
                                    if addr < 0x21F {
                                        if addr == 0x21E {
                                            Some(Register::Int22ndStageCurrent)
                                        } else {
                                            None
                                        }
                                    } else {
                                        if addr == 0x21F {
                                            Some(Register::Int31stStageCurrent)
                                        } else {
                                            None
                                        }
                                    }
                                } else {
                                    if addr < 0x221 {
                                        if addr == 0x220 {
                                            Some(Register::Int31stStageCascodeCurrent)
                                        } else {
                                            None
                                        }
                                    } else {
                                        if addr == 0x221 {
                                            Some(Register::Int32ndStageCurrent)
                                        } else {
                                            None
                                        }
                                    }
                                }
                            }
                        }
                    } else {
                        if addr < 0x232 {
                            if addr < 0x226 {
                                if addr < 0x224 {
                                    if addr < 0x223 {
                                        if addr == 0x222 {
                                            Some(Register::FlashBiasCurrent)
                                        } else {
                                            None
                                        }
                                    } else {
                                        if addr == 0x223 {
                                            Some(Register::FlashLadderBias)
                                        } else {
                                            None
                                        }
                                    }
                                } else {
                                    if addr < 0x225 {
                                        if addr == 0x224 {
                                            Some(Register::FlashLadderCascodeCurrent)
                                        } else {
                                            None
                                        }
                                    } else {
                                        if addr == 0x225 {
                                            Some(Register::FlashLadderBias2)
                                        } else {
                                            None
                                        }
                                    }
                                }
                            } else {
                                if addr < 0x230 {
                                    if addr < 0x227 {
                                        if addr == 0x226 {
                                            Some(Register::Reset)
                                        } else {
                                            None
                                        }
                                    } else {
                                        if addr == 0x227 {
                                            Some(Register::AdcSetup39)
                                        } else {
                                            None
                                        }
                                    }
                                } else {
                                    if addr < 0x231 {
                                        if addr == 0x230 {
                                            Some(Register::RxPfdConfig)
                                        } else {
                                            None
                                        }
                                    } else {
                                        if addr == 0x231 {
                                            Some(Register::RxIntegerByte0)
                                        } else {
                                            None
                                        }
                                    }
                                }
                            }
                        } else {
                            if addr < 0x236 {
                                if addr < 0x234 {
                                    if addr < 0x233 {
                                        if addr == 0x232 {
                                            Some(Register::RxIntegerByte1)
                                        } else {
                                            None
                                        }
                                    } else {
                                        if addr == 0x233 {
                                            Some(Register::RxFractByte0)
                                        } else {
                                            None
                                        }
                                    }
                                } else {
                                    if addr < 0x235 {
                                        if addr == 0x234 {
                                            Some(Register::RxFractByte1)
                                        } else {
                                            None
                                        }
                                    } else {
                                        if addr == 0x235 {
                                            Some(Register::RxFractByte2)
                                        } else {
                                            None
                                        }
                                    }
                                }
                            } else {
                                if addr < 0x238 {
                                    if addr < 0x237 {
                                        if addr == 0x236 {
                                            Some(Register::RxForceAlc)
                                        } else {
                                            None
                                        }
                                    } else {
                                        if addr == 0x237 {
                                            Some(Register::RxForceVcoTune0)
                                        } else {
                                            None
                                        }
                                    }
                                } else {
                                    if addr < 0x239 {
                                        if addr == 0x238 {
                                            Some(Register::RxForceVcoTune1)
                                        } else {
                                            None
                                        }
                                    } else {
                                        if addr < 0x23A {
                                            if addr == 0x239 {
                                                Some(Register::RxAlcVaractor)
                                            } else {
                                                None
                                            }
                                        } else {
                                            if addr == 0x23A {
                                                Some(Register::RxVcoOutput)
                                            } else {
                                                None
                                            }
                                        }
                                    }
                                }
                            }
                        }
                    }
                } else {
                    if addr < 0x24C {
                        if addr < 0x244 {
                            if addr < 0x23F {
                                if addr < 0x23D {
                                    if addr < 0x23C {
                                        if addr == 0x23B {
                                            Some(Register::RxCpCurrent)
                                        } else {
                                            None
                                        }
                                    } else {
                                        if addr == 0x23C {
                                            Some(Register::RxCpOffset)
                                        } else {
                                            None
                                        }
                                    }
                                } else {
                                    if addr < 0x23E {
                                        if addr == 0x23D {
                                            Some(Register::RxCpConfig)
                                        } else {
                                            None
                                        }
                                    } else {
                                        if addr == 0x23E {
                                            Some(Register::RxLoopFilter1)
                                        } else {
                                            None
                                        }
                                    }
                                }
                            } else {
                                if addr < 0x241 {
                                    if addr < 0x240 {
                                        if addr == 0x23F {
                                            Some(Register::RxLoopFilter2)
                                        } else {
                                            None
                                        }
                                    } else {
                                        if addr == 0x240 {
                                            Some(Register::RxLoopFilter3)
                                        } else {
                                            None
                                        }
                                    }
                                } else {
                                    if addr < 0x242 {
                                        if addr == 0x241 {
                                            Some(Register::RxDithercpCal)
                                        } else {
                                            None
                                        }
                                    } else {
                                        if addr == 0x242 {
                                            Some(Register::RxVcoBias1)
                                        } else {
                                            None
                                        }
                                    }
                                }
                            }
                        } else {
                            if addr < 0x248 {
                                if addr < 0x246 {
                                    if addr < 0x245 {
                                        if addr == 0x244 {
                                            Some(Register::RxCalStatus)
                                        } else {
                                            None
                                        }
                                    } else {
                                        if addr == 0x245 {
                                            Some(Register::RxVcoCalRef)
                                        } else {
                                            None
                                        }
                                    }
                                } else {
                                    if addr < 0x247 {
                                        if addr == 0x246 {
                                            Some(Register::RxVcoPdOverrides)
                                        } else {
                                            None
                                        }
                                    } else {
                                        if addr == 0x247 {
                                            Some(Register::RxCpOverrangeVcoLock)
                                        } else {
                                            None
                                        }
                                    }
                                }
                            } else {
                                if addr < 0x24A {
                                    if addr < 0x249 {
                                        if addr == 0x248 {
                                            Some(Register::RxVcoLdo)
                                        } else {
                                            None
                                        }
                                    } else {
                                        if addr == 0x249 {
                                            Some(Register::RxVcoCal)
                                        } else {
                                            None
                                        }
                                    }
                                } else {
                                    if addr < 0x24B {
                                        if addr == 0x24A {
                                            Some(Register::RxLockDetectConfig)
                                        } else {
                                            None
                                        }
                                    } else {
                                        if addr == 0x24B {
                                            Some(Register::RxCpLevelDetect)
                                        } else {
                                            None
                                        }
                                    }
                                }
                            }
                        }
                    } else {
                        if addr < 0x25C {
                            if addr < 0x250 {
                                if addr < 0x24E {
                                    if addr < 0x24D {
                                        if addr == 0x24C {
                                            Some(Register::RxDsmSetup0)
                                        } else {
                                            None
                                        }
                                    } else {
                                        if addr == 0x24D {
                                            Some(Register::RxDsmSetup1)
                                        } else {
                                            None
                                        }
                                    }
                                } else {
                                    if addr < 0x24F {
                                        if addr == 0x24E {
                                            Some(Register::RxCorrectionWord0)
                                        } else {
                                            None
                                        }
                                    } else {
                                        if addr == 0x24F {
                                            Some(Register::RxCorrectionWord1)
                                        } else {
                                            None
                                        }
                                    }
                                }
                            } else {
                                if addr < 0x25A {
                                    if addr < 0x251 {
                                        if addr == 0x250 {
                                            Some(Register::RxVcoVaractorCtrl0)
                                        } else {
                                            None
                                        }
                                    } else {
                                        if addr == 0x251 {
                                            Some(Register::RxVcoVaractorCtrl1)
                                        } else {
                                            None
                                        }
                                    }
                                } else {
                                    if addr < 0x25B {
                                        if addr == 0x25A {
                                            Some(Register::RxFastLockSetup)
                                        } else {
                                            None
                                        }
                                    } else {
                                        if addr == 0x25B {
                                            Some(Register::RxFastLockSetupInitDelay)
                                        } else {
                                            None
                                        }
                                    }
                                }
                            }
                        } else {
                            if addr < 0x261 {
                                if addr < 0x25E {
                                    if addr < 0x25D {
                                        if addr == 0x25C {
                                            Some(Register::RxFastLockProgramAddr)
                                        } else {
                                            None
                                        }
                                    } else {
                                        if addr == 0x25D {
                                            Some(Register::RxFastLockProgramData)
                                        } else {
                                            None
                                        }
                                    }
                                } else {
                                    if addr < 0x25F {
                                        if addr == 0x25E {
                                            Some(Register::RxFastLockProgramRead)
                                        } else {
                                            None
                                        }
                                    } else {
                                        if addr == 0x25F {
                                            Some(Register::RxFastLockProgramCtrl)
                                        } else {
                                            None
                                        }
                                    }
                                }
                            } else {
                                if addr < 0x271 {
                                    if addr < 0x270 {
                                        if addr == 0x261 {
                                            Some(Register::RxLoGenPowerMode)
                                        } else {
                                            None
                                        }
                                    } else {
                                        if addr == 0x270 {
                                            Some(Register::TxPfdConfig)
                                        } else {
                                            None
                                        }
                                    }
                                } else {
                                    if addr < 0x272 {
                                        if addr == 0x271 {
                                            Some(Register::TxIntegerByte0)
                                        } else {
                                            None
                                        }
                                    } else {
                                        if addr < 0x273 {
                                            if addr == 0x272 {
                                                Some(Register::TxIntegerByte1)
                                            } else {
                                                None
                                            }
                                        } else {
                                            if addr == 0x273 {
                                                Some(Register::TxFractByte0)
                                            } else {
                                                None
                                            }
                                        }
                                    }
                                }
                            }
                        }
                    }
                }
            } else {
                if addr < 0x295 {
                    if addr < 0x284 {
                        if addr < 0x27C {
                            if addr < 0x278 {
                                if addr < 0x276 {
                                    if addr < 0x275 {
                                        if addr == 0x274 {
                                            Some(Register::TxFractByte1)
                                        } else {
                                            None
                                        }
                                    } else {
                                        if addr == 0x275 {
                                            Some(Register::TxFractByte2)
                                        } else {
                                            None
                                        }
                                    }
                                } else {
                                    if addr < 0x277 {
                                        if addr == 0x276 {
                                            Some(Register::TxForceAlc)
                                        } else {
                                            None
                                        }
                                    } else {
                                        if addr == 0x277 {
                                            Some(Register::TxForceVcoTune0)
                                        } else {
                                            None
                                        }
                                    }
                                }
                            } else {
                                if addr < 0x27A {
                                    if addr < 0x279 {
                                        if addr == 0x278 {
                                            Some(Register::TxForceVcoTune1)
                                        } else {
                                            None
                                        }
                                    } else {
                                        if addr == 0x279 {
                                            Some(Register::TxAlcVaractor)
                                        } else {
                                            None
                                        }
                                    }
                                } else {
                                    if addr < 0x27B {
                                        if addr == 0x27A {
                                            Some(Register::TxVcoOutput)
                                        } else {
                                            None
                                        }
                                    } else {
                                        if addr == 0x27B {
                                            Some(Register::TxCpCurrent)
                                        } else {
                                            None
                                        }
                                    }
                                }
                            }
                        } else {
                            if addr < 0x280 {
                                if addr < 0x27E {
                                    if addr < 0x27D {
                                        if addr == 0x27C {
                                            Some(Register::TxCpOffset)
                                        } else {
                                            None
                                        }
                                    } else {
                                        if addr == 0x27D {
                                            Some(Register::TxCpConfig)
                                        } else {
                                            None
                                        }
                                    }
                                } else {
                                    if addr < 0x27F {
                                        if addr == 0x27E {
                                            Some(Register::TxLoopFilter1)
                                        } else {
                                            None
                                        }
                                    } else {
                                        if addr == 0x27F {
                                            Some(Register::TxLoopFilter2)
                                        } else {
                                            None
                                        }
                                    }
                                }
                            } else {
                                if addr < 0x282 {
                                    if addr < 0x281 {
                                        if addr == 0x280 {
                                            Some(Register::TxLoopFilter3)
                                        } else {
                                            None
                                        }
                                    } else {
                                        if addr == 0x281 {
                                            Some(Register::TxDithercpCal)
                                        } else {
                                            None
                                        }
                                    }
                                } else {
                                    if addr < 0x283 {
                                        if addr == 0x282 {
                                            Some(Register::TxVcoBias1)
                                        } else {
                                            None
                                        }
                                    } else {
                                        if addr == 0x283 {
                                            Some(Register::TxVcoBias2)
                                        } else {
                                            None
                                        }
                                    }
                                }
                            }
                        }
                    } else {
                        if addr < 0x28C {
                            if addr < 0x288 {
                                if addr < 0x286 {
                                    if addr < 0x285 {
                                        if addr == 0x284 {
                                            Some(Register::TxCalStatus)
                                        } else {
                                            None
                                        }
                                    } else {
                                        if addr == 0x285 {
                                            Some(Register::TxVcoCalRef)
                                        } else {
                                            None
                                        }
                                    }
                                } else {
                                    if addr < 0x287 {
                                        if addr == 0x286 {
                                            Some(Register::TxVcoPdOverrides)
                                        } else {
                                            None
                                        }
                                    } else {
                                        if addr == 0x287 {
                                            Some(Register::TxCpOverrangeVcoLock)
                                        } else {
                                            None
                                        }
                                    }
                                }
                            } else {
                                if addr < 0x28A {
                                    if addr < 0x289 {
                                        if addr == 0x288 {
                                            Some(Register::TxVcoLdo)
                                        } else {
                                            None
                                        }
                                    } else {
                                        if addr == 0x289 {
                                            Some(Register::TxVcoCal)
                                        } else {
                                            None
                                        }
                                    }
                                } else {
                                    if addr < 0x28B {
                                        if addr == 0x28A {
                                            Some(Register::TxLockDetectConfig)
                                        } else {
                                            None
                                        }
                                    } else {
                                        if addr == 0x28B {
                                            Some(Register::TxCpLevelDetect)
                                        } else {
                                            None
                                        }
                                    }
                                }
                            }
                        } else {
                            if addr < 0x290 {
                                if addr < 0x28E {
                                    if addr < 0x28D {
                                        if addr == 0x28C {
                                            Some(Register::TxDsmSetup0)
                                        } else {
                                            None
                                        }
                                    } else {
                                        if addr == 0x28D {
                                            Some(Register::TxDsmSetup1)
                                        } else {
                                            None
                                        }
                                    }
                                } else {
                                    if addr < 0x28F {
                                        if addr == 0x28E {
                                            Some(Register::TxCorrectionWord0)
                                        } else {
                                            None
                                        }
                                    } else {
                                        if addr == 0x28F {
                                            Some(Register::TxCorrectionWord1)
                                        } else {
                                            None
                                        }
                                    }
                                }
                            } else {
                                if addr < 0x292 {
                                    if addr < 0x291 {
                                        if addr == 0x290 {
                                            Some(Register::TxVcoVaractorCtrl0)
                                        } else {
                                            None
                                        }
                                    } else {
                                        if addr == 0x291 {
                                            Some(Register::TxVcoVaractorCtrl1)
                                        } else {
                                            None
                                        }
                                    }
                                } else {
                                    if addr < 0x293 {
                                        if addr == 0x292 {
                                            Some(Register::DcxoCoarseTune)
                                        } else {
                                            None
                                        }
                                    } else {
                                        if addr < 0x294 {
                                            if addr == 0x293 {
                                                Some(Register::DcxoFineTuneHigh)
                                            } else {
                                                None
                                            }
                                        } else {
                                            if addr == 0x294 {
                                                Some(Register::DcxoFineTuneLow)
                                            } else {
                                                None
                                            }
                                        }
                                    }
                                }
                            }
                        }
                    }
                } else {
                    if addr < 0x2B0 {
                        if addr < 0x29D {
                            if addr < 0x299 {
                                if addr < 0x297 {
                                    if addr < 0x296 {
                                        if addr == 0x295 {
                                            Some(Register::DcxoConfig)
                                        } else {
                                            None
                                        }
                                    } else {
                                        if addr == 0x296 {
                                            Some(Register::DcxoTempcoWrite)
                                        } else {
                                            None
                                        }
                                    }
                                } else {
                                    if addr < 0x298 {
                                        if addr == 0x297 {
                                            Some(Register::DcxoTempcoRead)
                                        } else {
                                            None
                                        }
                                    } else {
                                        if addr == 0x298 {
                                            Some(Register::DcxoTempcoAddr)
                                        } else {
                                            None
                                        }
                                    }
                                }
                            } else {
                                if addr < 0x29B {
                                    if addr < 0x29A {
                                        if addr == 0x299 {
                                            Some(Register::DeltaTRead)
                                        } else {
                                            None
                                        }
                                    } else {
                                        if addr == 0x29A {
                                            Some(Register::TxFastLockSetup)
                                        } else {
                                            None
                                        }
                                    }
                                } else {
                                    if addr < 0x29C {
                                        if addr == 0x29B {
                                            Some(Register::TxFastLockSetupInitDelay)
                                        } else {
                                            None
                                        }
                                    } else {
                                        if addr == 0x29C {
                                            Some(Register::TxFastLockProgramAddr)
                                        } else {
                                            None
                                        }
                                    }
                                }
                            }
                        } else {
                            if addr < 0x2A6 {
                                if addr < 0x29F {
                                    if addr < 0x29E {
                                        if addr == 0x29D {
                                            Some(Register::TxFastLockProgramData)
                                        } else {
                                            None
                                        }
                                    } else {
                                        if addr == 0x29E {
                                            Some(Register::TxFastLockProgramRead)
                                        } else {
                                            None
                                        }
                                    }
                                } else {
                                    if addr < 0x2A1 {
                                        if addr == 0x29F {
                                            Some(Register::TxFastLockProgramCtrl)
                                        } else {
                                            None
                                        }
                                    } else {
                                        if addr == 0x2A1 {
                                            Some(Register::TxLoGenPowerMode)
                                        } else {
                                            None
                                        }
                                    }
                                }
                            } else {
                                if addr < 0x2AB {
                                    if addr < 0x2A8 {
                                        if addr == 0x2A6 {
                                            Some(Register::BandgapConfig0)
                                        } else {
                                            None
                                        }
                                    } else {
                                        if addr == 0x2A8 {
                                            Some(Register::BandgapConfig1)
                                        } else {
                                            None
                                        }
                                    }
                                } else {
                                    if addr < 0x2AC {
                                        if addr == 0x2AB {
                                            Some(Register::RefDivideConfig1)
                                        } else {
                                            None
                                        }
                                    } else {
                                        if addr == 0x2AC {
                                            Some(Register::RefDivideConfig2)
                                        } else {
                                            None
                                        }
                                    }
                                }
                            }
                        }
                    } else {
                        if addr < 0x2B8 {
                            if addr < 0x2B4 {
                                if addr < 0x2B2 {
                                    if addr < 0x2B1 {
                                        if addr == 0x2B0 {
                                            Some(Register::GainRx1)
                                        } else {
                                            None
                                        }
                                    } else {
                                        if addr == 0x2B1 {
                                            Some(Register::LpfGainRx1)
                                        } else {
                                            None
                                        }
                                    }
                                } else {
                                    if addr < 0x2B3 {
                                        if addr == 0x2B2 {
                                            Some(Register::DigGainRx1)
                                        } else {
                                            None
                                        }
                                    } else {
                                        if addr == 0x2B3 {
                                            Some(Register::FastAttackState)
                                        } else {
                                            None
                                        }
                                    }
                                }
                            } else {
                                if addr < 0x2B6 {
                                    if addr < 0x2B5 {
                                        if addr == 0x2B4 {
                                            Some(Register::SlowLoopState)
                                        } else {
                                            None
                                        }
                                    } else {
                                        if addr == 0x2B5 {
                                            Some(Register::GainRx2)
                                        } else {
                                            None
                                        }
                                    }
                                } else {
                                    if addr < 0x2B7 {
                                        if addr == 0x2B6 {
                                            Some(Register::LpfGainRx2)
                                        } else {
                                            None
                                        }
                                    } else {
                                        if addr == 0x2B7 {
                                            Some(Register::DigGainRx2)
                                        } else {
                                            None
                                        }
                                    }
                                }
                            }
                        } else {
                            if addr < 0x3F5 {
                                if addr < 0x3DF {
                                    if addr < 0x2B9 {
                                        if addr == 0x2B8 {
                                            Some(Register::OvrgSigsRx1)
                                        } else {
                                            None
                                        }
                                    } else {
                                        if addr == 0x2B9 {
                                            Some(Register::OvrgSigsRx2)
                                        } else {
                                            None
                                        }
                                    }
                                } else {
                                    if addr < 0x3F4 {
                                        if addr == 0x3DF {
                                            Some(Register::Ctrl)
                                        } else {
                                            None
                                        }
                                    } else {
                                        if addr == 0x3F4 {
                                            Some(Register::BistConfig)
                                        } else {
                                            None
                                        }
                                    }
                                }
                            } else {
                                if addr < 0x3FC {
                                    if addr < 0x3F6 {
                                        if addr == 0x3F5 {
                                            Some(Register::BistConfig2)
                                        } else {
                                            None
                                        }
                                    } else {
                                        if addr == 0x3F6 {
                                            Some(Register::BistAndDataPortTestConfig)
                                        } else {
                                            None
                                        }
                                    }
                                } else {
                                    if addr < 0x3FD {
                                        if addr == 0x3FC {
                                            Some(Register::DacTest0)
                                        } else {
                                            None
                                        }
                                    } else {
                                        if addr < 0x3FE {
                                            if addr == 0x3FD {
                                                Some(Register::DacTest1)
                                            } else {
                                                None
                                            }
                                        } else {
                                            if addr == 0x3FE {
                                                Some(Register::DacTest2)
                                            } else {
                                                None
                                            }
                                        }
                                    }
                                }
                            }
                        }
                    }
                }
            }
        }
    }
}

/// No two registers share an address: the register found at a register's address is that
/// register.
#[verifier::spinoff_prover]
#[verifier::rlimit(100)]
pub proof fn lemma_register_addresses_distinct(r: Register)
    ensures
        register_at(r.address()) == Some(r),
{
    match r {
        Register::SpiConf => {},
        Register::MultichipSyncAndTxMonCtrl => {},
        Register::TxEnableFilterCtrl => {},
        Register::RxEnableFilterCtrl => {},
        Register::InputSelect => {},
        Register::RfPllDividers => {},
        Register::RxClockDataDelay => {},
        Register::TxClockDataDelay => {},
        Register::ClockEnable => {},
        Register::BbPll => {},
        Register::TempOffset => {},
        Register::StartTempReading => {},
        Register::TempSense2 => {},
        Register::Temperature => {},
        Register::TempSensorConfig => {},
        Register::ParallelPortConf1 => {},
        Register::ParallelPortConf2 => {},
        Register::ParallelPortConf3 => {},
        Register::EnsmMode => {},
        Register::EnsmConfig1 => {},
        Register::EnsmConfig2 => {},
        Register::CalibrationCtrl => {},
        Register::State => {},
        Register::Auxdac1Word => {},
        Register::Auxdac2Word => {},
        Register::Auxdac1Config => {},
        Register::Auxdac2Config => {},
        Register::AuxadcClockDivider => {},
        Register::AuxadcConfig => {},
        Register::AuxadcWordMsb => {},
        Register::AuxadcLsb => {},
        Register::AutoGpo => {},
        Register::AgcGainLockDelay => {},
        Register::AgcAttackDelay => {},
        Register::AuxdacEnableCtrl => {},
        Register::RxLoadSynthDelay => {},
        Register::TxLoadSynthDelay => {},
        Register::ExternalLnaCtrl => {},
        Register::GpoForceAndInit => {},
        Register::Gpo0RxDelay => {},
        Register::Gpo1RxDelay => {},
        Register::Gpo2RxDelay => {},
        Register::Gpo3RxDelay => {},
        Register::Gpo0TxDelay => {},
        Register::Gpo1TxDelay => {},
        Register::Gpo2TxDelay => {},
        Register::Gpo3TxDelay => {},
        Register::Auxdac1RxDelay => {},
        Register::Auxdac1TxDelay => {},
        Register::Auxdac2RxDelay => {},
        Register::Auxdac2TxDelay => {},
        Register::CtrlOutputPointer => {},
        Register::CtrlOutputEnable => {},
        Register::ProductId => {},
        Register::ReferenceClockCycles => {},
        Register::DigitalIoCtrl => {},
        Register::LvdsBiasCtrl => {},
        Register::LvdsInvertCtrl1 => {},
        Register::LvdsInvertCtrl2 => {},
        Register::BbPllCtrl1 => {},
        Register::FractBbFreqWord1 => {},
        Register::FractBbFreqWord2 => {},
        Register::FractBbFreqWord3 => {},
        Register::IntegerBbFreqWord => {},
        Register::ClockCtrl => {},
        Register::CpCurrent => {},
        Register::CpBleedCurrent => {},
        Register::LoopFilter1 => {},
        Register::LoopFilter2 => {},
        Register::LoopFilter3 => {},
        Register::VcoCtrl => {},
        Register::VcoProgram1 => {},
        Register::VcoProgram2 => {},
        Register::SdmCtrl => {},
        Register::RxSynthPowerDownOverride => {},
        Register::TxSynthPowerDownOverride => {},
        Register::RxAnalogPowerDownOverride1 => {},
        Register::RxAnalogPowerDownOverride2 => {},
        Register::Rx1AdcPowerDownOverride => {},
        Register::Rx2AdcPowerDownOverride => {},
        Register::TxAnalogPowerDownOverride1 => {},
        Register::AnalogPowerDownOverride => {},
        Register::MiscPowerDownOverride => {},
        Register::Ch1Overflow => {},
        Register::Ch2Overflow => {},
        Register::TxFilterCoefAddr => {},
        Register::TxFilterCoefWriteData1 => {},
        Register::TxFilterCoefWriteData2 => {},
        Register::TxFilterCoefReadData1 => {},
        Register::TxFilterCoefReadData2 => {},
        Register::TxFilterConf => {},
        Register::TxMonLowGain => {},
        Register::TxMonHighGain => {},
        Register::TxMonDelay => {},
        Register::TxLevelThresh => {},
        Register::TxRssi1 => {},
        Register::TxRssi2 => {},
        Register::TxRssiLsb => {},
        Register::TpmModeEnable => {},
        Register::TxMonTempGainCoef => {},
        Register::TxMon1Config => {},
        Register::TxMon2Config => {},
        Register::Tx1Atten0 => {},
        Register::Tx1Atten1 => {},
        Register::Tx2Atten0 => {},
        Register::Tx2Atten1 => {},
        Register::TxAttenOffset => {},
        Register::TxAttenThresh => {},
        Register::Tx1DigAtten => {},
        Register::Tx2DigAtten => {},
        Register::Tx1SymbolAtten => {},
        Register::Tx2SymbolAtten => {},
        Register::TxSymbolAttenConfig => {},
        Register::Tx1Out1PhaseCorr => {},
        Register::Tx1Out1GainCorr => {},
        Register::Tx2Out1PhaseCorr => {},
        Register::Tx2Out1GainCorr => {},
        Register::Tx1Out1OffsetI => {},
        Register::Tx1Out1OffsetQ => {},
        Register::Tx2Out1OffsetI => {},
        Register::Tx2Out1OffsetQ => {},
        Register::Tx1Out2PhaseCorr => {},
        Register::Tx1Out2GainCorr => {},
        Register::Tx2Out2PhaseCorr => {},
        Register::Tx2Out2GainCorr => {},
        Register::Tx1Out2OffsetI => {},
        Register::Tx1Out2OffsetQ => {},
        Register::Tx2Out2OffsetI => {},
        Register::Tx2Out2OffsetQ => {},
        Register::TxForceBits => {},
        Register::QuadCalNcoFreqPhaseOffset => {},
        Register::QuadCalCtrl => {},
        Register::Kexp1 => {},
        Register::Kexp2 => {},
        Register::QuadSettleCount => {},
        Register::MagFtestThresh => {},
        Register::MagFtestThresh2 => {},
        Register::QuadCalStatusTx1 => {},
        Register::QuadCalStatusTx2 => {},
        Register::QuadCalCount => {},
        Register::TxQuadFullLmtGain => {},
        Register::SquarerConfig => {},
        Register::TxQuadCalAtten => {},
        Register::ThreshAccum => {},
        Register::TxQuadLpfGain => {},
        Register::TxdacVdsI => {},
        Register::TxdacVdsQ => {},
        Register::TxdacGnI => {},
        Register::TxdacGnQ => {},
        Register::TxbbfOpampA => {},
        Register::TxbbfOpampB => {},
        Register::TxBbfR1 => {},
        Register::TxBbfR2 => {},
        Register::TxBbfR3 => {},
        Register::TxBbfR4 => {},
        Register::TxBbfRp => {},
        Register::TxBbfC1 => {},
        Register::TxBbfC2 => {},
        Register::TxBbfCp => {},
        Register::TxTuneCtrl => {},
        Register::TxBbfR2b => {},
        Register::TxBbfTune => {},
        Register::Config0 => {},
        Register::Resistor => {},
        Register::Capacitor => {},
        Register::LoCm => {},
        Register::TxBbfTuneDivider => {},
        Register::TxBbfTuneMode => {},
        Register::RxFilterCoefAddr => {},
        Register::RxFilterCoefData1 => {},
        Register::RxFilterCoefData2 => {},
        Register::RxFilterCoefReadData1 => {},
        Register::RxFilterCoefReadData2 => {},
        Register::RxFilterConfig => {},
        Register::RxFilterGain => {},
        Register::AgcConfig1 => {},
        Register::AgcConfig2 => {},
        Register::AgcConfig3 => {},
        Register::MaxLmtFullGain => {},
        Register::PeakWaitTime => {},
        Register::DigitalGain => {},
        Register::AgcLockLevel => {},
        Register::AdcNoiseCorrectionFactor => {},
        Register::GainStepConfig1 => {},
        Register::AdcSmallOverloadThresh => {},
        Register::AdcLargeOverloadThresh => {},
        Register::GainStepConfig2 => {},
        Register::SmallLmtOverloadThresh => {},
        Register::LargeLmtOverloadThresh => {},
        Register::Rx1ManualLmtFullGain => {},
        Register::Rx1ManualLpfGainOrAgcCurrentLpf => {},
        Register::Rx1ManualDigitalOrForcedGain => {},
        Register::Rx2ManualLmtFullGain => {},
        Register::Rx2ManualLpfGainOrAgcCurentLpf => {},
        Register::Rx2ManualDigitalOrForcedGain => {},
        Register::FastConfig1 => {},
        Register::FastConfig2SettlingDelay => {},
        Register::FastEnergyLostThresh => {},
        Register::FastStrongerSignalThresh => {},
        Register::FastLowPowerThresh => {},
        Register::FastStrongSignalFreeze => {},
        Register::FastFinalOverRangeAndOptGain => {},
        Register::FastEnergyDetectCount => {},
        Register::FastAgcllUpperLimit => {},
        Register::FastGainLockExitCount => {},
        Register::FastInitialLmtGainLimit => {},
        Register::FastIncrementTime => {},
        Register::AgcInnerLowThresh => {},
        Register::LmtOverloadCounters => {},
        Register::AdcOverloadCounters => {},
        Register::GainStep1 => {},
        Register::GainUpdateCounter1 => {},
        Register::GainUpdateCounter2 => {},
        Register::DigitalSaturationCounter => {},
        Register::OuterPowerThreshs => {},
        Register::GainStep2 => {},
        Register::ExtLnaHighGain => {},
        Register::ExtLnaLowGain => {},
        Register::GainTableAddress => {},
        Register::GainTableWriteData1 => {},
        Register::GainTableWriteData2 => {},
        Register::GainTableWriteData3 => {},
        Register::GainTableReadData1 => {},
        Register::GainTableReadData2 => {},
        Register::GainTableReadData3 => {},
        Register::GainTableConfig => {},
        Register::GmSubTableAddress => {},
        Register::GmSubTableGainWrite => {},
        Register::GmSubTableBiasWrite => {},
        Register::GmSubTableCtrlWrite => {},
        Register::GmSubTableGainRead => {},
        Register::GmSubTableBiasRead => {},
        Register::GmSubTableCtrlRead => {},
        Register::GmSubTableConfig => {},
        Register::WordAddress => {},
        Register::GainDiffWorderrorWrite => {},
        Register::GainErrorRead => {},
        Register::Config => {},
        Register::LnaGainDiffReadBack => {},
        Register::MaxMixerCalibrationGainIndex => {},
        Register::TempGainCoef => {},
        Register::SettleTime => {},
        Register::MeasureDuration => {},
        Register::CalTempSensorWord => {},
        Register::MeasureDuration01 => {},
        Register::MeasureDuration23 => {},
        Register::RssiWeight0 => {},
        Register::RssiWeight1 => {},
        Register::RssiWeight2 => {},
        Register::RssiWeight3 => {},
        Register::RssiDelay => {},
        Register::RssiWaitTime => {},
        Register::RssiConfig => {},
        Register::AdcMeasureDuration01 => {},
        Register::AdcWeight0 => {},
        Register::AdcWeight1 => {},
        Register::DecPowerMeasureDuration => {},
        Register::LnaGain => {},
        Register::Ch1AdcPower => {},
        Register::Ch1RxFilterPower => {},
        Register::Ch2AdcPower => {},
        Register::Ch2RxFilterPower => {},
        Register::RxQuadCalLevel => {},
        Register::CalibrationConfig1 => {},
        Register::CalibrationConfig2 => {},
        Register::CalibrationConfig3 => {},
        Register::CalibCount => {},
        Register::SettleCount => {},
        Register::RxQuadGain1 => {},
        Register::RxQuadGain2 => {},
        Register::Rx1InputAPhaseCorr => {},
        Register::Rx1InputAGainCorr => {},
        Register::Rx2InputAPhaseCorr => {},
        Register::Rx2InputAGainCorr => {},
        Register::Rx1InputAQOffset => {},
        Register::Rx1InputAOffsets => {},
        Register::InputAOffsets1 => {},
        Register::Rx2InputAOffsets => {},
        Register::Rx2InputAIOffset => {},
        Register::Rx1InputBcPhaseCorr => {},
        Register::Rx1InputBcGainCorr => {},
        Register::Rx2InputBcPhaseCorr => {},
        Register::Rx2InputBcGainCorr => {},
        Register::Rx1InputBcQOffset => {},
        Register::Rx1InputBcOffsets => {},
        Register::InputBcOffsets1 => {},
        Register::Rx2InputBcOffsets => {},
        Register::Rx2InputBcIOffset => {},
        Register::ForceBits => {},
        Register::WaitCount => {},
        Register::RfDcOffsetCount => {},
        Register::RfDcOffsetConfig1 => {},
        Register::RfDcOffsetAtten => {},
        Register::InvertBits => {},
        Register::DcOffsetConfig2 => {},
        Register::RfCalGainIndex => {},
        Register::SoiThresh => {},
        Register::BbDcOffsetShift => {},
        Register::BbDcOffsetFastSettleShift => {},
        Register::BbFastSettleDur => {},
        Register::BbDcOffsetCount => {},
        Register::BbDcOffsetAtten => {},
        Register::Rx1BbDcWordIMsb => {},
        Register::Rx1BbDcWordILsb => {},
        Register::Rx1BbDcWordQMsb => {},
        Register::Rx1BbDcWordQLsb => {},
        Register::Rx2BbDcWordIMsb => {},
        Register::Rx2BbDcWordILsb => {},
        Register::Rx2BbDcWordQMsb => {},
        Register::Rx2BbDcWordQLsb => {},
        Register::BbTrackCorrWordIMsb => {},
        Register::BbTrackCorrWordILsb => {},
        Register::BbTrackCorrWordQMsb => {},
        Register::BbTrackCorrWordQLsb => {},
        Register::Rx1RssiSymbol => {},
        Register::Rx1RssiPreamble => {},
        Register::Rx2RssiSymbol => {},
        Register::Rx2RssiPreamble => {},
        Register::SymbolLsb => {},
        Register::PreambleLsb => {},
        Register::RxPathGainMsb => {},
        Register::RxPathGainLsb => {},
        Register::RxDiffLnaForce => {},
        Register::RxLnaBiasCoarse => {},
        Register::RxLnaBiasFine0 => {},
        Register::RxLnaBiasFine1 => {},
        Register::RxMixGmConfig => {},
        Register::Rx1MixGmForce => {},
        Register::Rx1MixGmBiasForce => {},
        Register::Rx2MixGmForce => {},
        Register::Rx2MixGmBiasForce => {},
        Register::InputAMsbs => {},
        Register::InputARx1I => {},
        Register::InputARx1Q => {},
        Register::InputARx2I => {},
        Register::InputARx2Q => {},
        Register::InputsBcRx1I => {},
        Register::Band1Rx1Q => {},
        Register::InputsBcRx2I => {},
        Register::InputsBcRx2Q => {},
        Register::InputsBcMsbs => {},
        Register::ForceOsDac => {},
        Register::RxMixLoCm => {},
        Register::RxCgbSegEnable => {},
        Register::RxMixInputbias => {},
        Register::RxTiaConfig => {},
        Register::Tia1CLsb => {},
        Register::Tia1CMsb => {},
        Register::Tia2CLsb => {},
        Register::Tia2CMsb => {},
        Register::Rx1BbfR1a => {},
        Register::Rx2BbfR1a => {},
        Register::Rx1TuneCtrl => {},
        Register::Rx2TuneCtrl => {},
        Register::Rx1BbfR5 => {},
        Register::Rx2BbfR5 => {},
        Register::RxBbfR2346 => {},
        Register::RxBbfC1Msb => {},
        Register::RxBbfC1Lsb => {},
        Register::RxBbfC2Msb => {},
        Register::RxBbfC2Lsb => {},
        Register::RxBbfC3Msb => {},
        Register::RxBbfC3Lsb => {},
        Register::RxBbfCc1Ctr => {},
        Register::RxBbfPowRzByte0 => {},
        Register::RxBbfCc2Ctr => {},
        Register::RxBbfPowRzByte1 => {},
        Register::RxBbfCc3Ctr => {},
        Register::RxBbfR5Tune => {},
        Register::RxBbfTune => {},
        Register::Rx1BbfManGain => {},
        Register::Rx2BbfManGain => {},
        Register::RxBbfTuneDivide => {},
        Register::RxBbfTuneConfig => {},
        Register::PoleGain => {},
        Register::RxBbbwMhz => {},
        Register::RxBbbwKhz => {},
        Register::AdcSetup0 => {},
        Register::FbDacClkDelay1 => {},
        Register::FbDacClkDelay2 => {},
        Register::FlashSampleClkDelay3p => {},
        Register::FlashSampleClkDelay3n => {},
        Register::TestMux2i => {},
        Register::TestMux2q => {},
        Register::Integrator1Resistance => {},
        Register::Integrator1Capacitance => {},
        Register::Integrator23Resistance => {},
        Register::Integrator2Resistance => {},
        Register::Integrator2Capacitance => {},
        Register::Integrator3Resistance => {},
        Register::Integrator3Capacitance => {},
        Register::IntegratorAmpCc => {},
        Register::Int1FbDacNmosCurrentSource => {},
        Register::Int1FbDacNmosCasoadeBiasCurrent => {},
        Register::Int1FbDacPmosCurrentSource => {},
        Register::Int2FbDacNmosCurrentSource => {},
        Register::Int2FbDacNmosCascodeBiasCurrent => {},
        Register::Int2FbDacPmosCurrentSource => {},
        Register::Int3FbDacNmosCurrentSource => {},
        Register::Int3FbDacNmosCascodeBiasCurrent => {},
        Register::Int3FbDacPmosCurrentSource => {},
        Register::FbDacBiasCurrent => {},
        Register::Int11stStageCurrent => {},
        Register::Int11stStageCascodeCurrent => {},
        Register::Int12ndStageCurrent => {},
        Register::Integrator21stStageCurrent => {},
        Register::Int21stStageCascodeCurrent => {},
        Register::Int22ndStageCurrent => {},
        Register::Int31stStageCurrent => {},
        Register::Int31stStageCascodeCurrent => {},
        Register::Int32ndStageCurrent => {},
        Register::FlashBiasCurrent => {},
        Register::FlashLadderBias => {},
        Register::FlashLadderCascodeCurrent => {},
        Register::FlashLadderBias2 => {},
        Register::Reset => {},
        Register::AdcSetup39 => {},
        Register::RxPfdConfig => {},
        Register::RxIntegerByte0 => {},
        Register::RxIntegerByte1 => {},
        Register::RxFractByte0 => {},
        Register::RxFractByte1 => {},
        Register::RxFractByte2 => {},
        Register::RxForceAlc => {},
        Register::RxForceVcoTune0 => {},
        Register::RxForceVcoTune1 => {},
        Register::RxAlcVaractor => {},
        Register::RxVcoOutput => {},
        Register::RxCpCurrent => {},
        Register::RxCpOffset => {},
        Register::RxCpConfig => {},
        Register::RxLoopFilter1 => {},
        Register::RxLoopFilter2 => {},
        Register::RxLoopFilter3 => {},
        Register::RxDithercpCal => {},
        Register::RxVcoBias1 => {},
        Register::RxCalStatus => {},
        Register::RxVcoCalRef => {},
        Register::RxVcoPdOverrides => {},
        Register::RxCpOverrangeVcoLock => {},
        Register::RxVcoLdo => {},
        Register::RxVcoCal => {},
        Register::RxLockDetectConfig => {},
        Register::RxCpLevelDetect => {},
        Register::RxDsmSetup0 => {},
        Register::RxDsmSetup1 => {},
        Register::RxCorrectionWord0 => {},
        Register::RxCorrectionWord1 => {},
        Register::RxVcoVaractorCtrl0 => {},
        Register::RxVcoVaractorCtrl1 => {},
        Register::RxFastLockSetup => {},
        Register::RxFastLockSetupInitDelay => {},
        Register::RxFastLockProgramAddr => {},
        Register::RxFastLockProgramData => {},
        Register::RxFastLockProgramRead => {},
        Register::RxFastLockProgramCtrl => {},
        Register::RxLoGenPowerMode => {},
        Register::TxPfdConfig => {},
        Register::TxIntegerByte0 => {},
        Register::TxIntegerByte1 => {},
        Register::TxFractByte0 => {},
        Register::TxFractByte1 => {},
        Register::TxFractByte2 => {},
        Register::TxForceAlc => {},
        Register::TxForceVcoTune0 => {},
        Register::TxForceVcoTune1 => {},
        Register::TxAlcVaractor => {},
        Register::TxVcoOutput => {},
        Register::TxCpCurrent => {},
        Register::TxCpOffset => {},
        Register::TxCpConfig => {},
        Register::TxLoopFilter1 => {},
        Register::TxLoopFilter2 => {},
        Register::TxLoopFilter3 => {},
        Register::TxDithercpCal => {},
        Register::TxVcoBias1 => {},
        Register::TxVcoBias2 => {},
        Register::TxCalStatus => {},
        Register::TxVcoCalRef => {},
        Register::TxVcoPdOverrides => {},
        Register::TxCpOverrangeVcoLock => {},
        Register::TxVcoLdo => {},
        Register::TxVcoCal => {},
        Register::TxLockDetectConfig => {},
        Register::TxCpLevelDetect => {},
        Register::TxDsmSetup0 => {},
        Register::TxDsmSetup1 => {},
        Register::TxCorrectionWord0 => {},
        Register::TxCorrectionWord1 => {},
        Register::TxVcoVaractorCtrl0 => {},
        Register::TxVcoVaractorCtrl1 => {},
        Register::DcxoCoarseTune => {},
        Register::DcxoFineTuneHigh => {},
        Register::DcxoFineTuneLow => {},
        Register::DcxoConfig => {},
        Register::DcxoTempcoWrite => {},
        Register::DcxoTempcoRead => {},
        Register::DcxoTempcoAddr => {},
        Register::DeltaTRead => {},
        Register::TxFastLockSetup => {},
        Register::TxFastLockSetupInitDelay => {},
        Register::TxFastLockProgramAddr => {},
        Register::TxFastLockProgramData => {},
        Register::TxFastLockProgramRead => {},
        Register::TxFastLockProgramCtrl => {},
        Register::TxLoGenPowerMode => {},
        Register::BandgapConfig0 => {},
        Register::BandgapConfig1 => {},
        Register::RefDivideConfig1 => {},
        Register::RefDivideConfig2 => {},
        Register::GainRx1 => {},
        Register::LpfGainRx1 => {},
        Register::DigGainRx1 => {},
        Register::FastAttackState => {},
        Register::SlowLoopState => {},
        Register::GainRx2 => {},
        Register::LpfGainRx2 => {},
        Register::DigGainRx2 => {},
        Register::OvrgSigsRx1 => {},
        Register::OvrgSigsRx2 => {},
        Register::Ctrl => {},
        Register::BistConfig => {},
        Register::BistConfig2 => {},
        Register::BistAndDataPortTestConfig => {},
        Register::DacTest0 => {},
        Register::DacTest1 => {},
        Register::DacTest2 => {},
    }
}

} // verus!

pub mod tx_enable_filter_ctrl;
pub mod rx_enable_filter_ctrl;
pub mod input_select;
pub mod rfpll_dividers;
pub mod rx_clock_data_delay;
pub mod tx_clock_data_delay;
pub mod clock_enable;
pub mod clk_bb_pll;
pub mod parallel_port_conf_1;
pub mod parallel_port_conf_2;
pub mod parallel_port_conf_3;
pub mod ensm_config_2;
pub mod state;
pub mod auxdac_2_word;
pub mod auxdac_config;
pub mod auxadc_lsb;
pub mod ctrl_output_enable;
pub mod product_id;
pub mod reference_clock_cycles;
pub mod digital_io_ctrl;
pub mod lvds_bias_ctrl;
pub mod lvds_invert_ctrl1;
pub mod lvds_invert_ctrl2;
pub mod sdm_ctrl_1;
pub mod cp_bleed_current;
pub mod sdm_ctrl;
pub mod rx_analog_power_down_override_1;
pub mod rx_analog_power_down_override_2;
pub mod tx_analog_power_down_override_1;
pub mod analog_power_down_override;
pub mod misc_power_down_override;
pub mod ch_1_overflow;
pub mod ch_2_overflow;
pub mod tx_filter_conf;
pub mod tx_rssi_lsb;
pub mod tx1_atten_1;
pub mod tx2_atten_1;
pub mod tx1_dig_atten;
pub mod tx1_symbol_atten;
pub mod tx2_symbol_atten;
pub mod tx_symbol_atten_config;
pub mod tx_force_bits;
pub mod quad_cal_ctrl;
pub mod kexp_1;
pub mod kexp_2;
pub mod tx_quad_full_lmt_gain;
pub mod squarer_config;
pub mod thresh_accum;
pub mod tx_quad_lpf_gain;
pub mod txdac_vds_i;
pub mod txdac_vds_q;
pub mod txdac_gn_i;
pub mod txdac_gn_q;
pub mod txbbf_opamp_a;
pub mod txbbf_opamp_b;
pub mod tx_bbf_r1;
pub mod tx_bbf_r2;
pub mod tx_bbf_r3;
pub mod tx_bbf_r4;
pub mod tx_bbf_rp;
pub mod tx_bbf_c1;
pub mod tx_bbf_c2;
pub mod tx_bbf_cp;
pub mod tx_bbf_r2b;
pub mod tx_bbf_tune;
pub mod lo_cm;
pub mod rx_filter_gain;
pub mod agc_config_1;
pub mod large_lmt_overload_thresh;
pub mod rx1_manual_digitalforced_gain;
pub mod rx2_manual_lmt_full_gain;
pub mod rx2_manual_lpf_gain;
pub mod rx2_manual_digitalforced_gain;
pub mod fast_initial_lmt_gain_limit;
pub mod ext_lna_high_gain;
pub mod ext_lna_low_gain;
pub mod gain_diff_worderror_write;
pub mod gain_error_read;
pub mod config;
pub mod lna_gain_diff_read_back;
pub mod max_mixer_calibration_gain_index;
pub mod settle_time;
pub mod measure_duration;
pub mod rssi_config;
pub mod adc_measure_duration_01;
pub mod dec_power_measure_duration;
pub mod lna_gain;
pub mod rx_quad_cal_level;
pub mod rx_quad_gain1;
pub mod rx1_input_a_offsets;
pub mod input_a_offsets_1;
pub mod rx2_input_a_offsets;
pub mod rx1_input_bc_offsets;
pub mod input_bc_offsets_1;
pub mod rx2_input_bc_offsets;
pub mod force_bits;
pub mod rf_cal_gain_index;
pub mod soi_thresh;
pub mod bb_dc_offset_fast_settle_shift;
pub mod rx1_bb_dc_word_i_msb;
pub mod rx1_bb_dc_word_q_msb;
pub mod rx2_bb_dc_word_i_msb;
pub mod rx2_bb_dc_word_q_msb;
pub mod bb_track_corr_word_i_msb;
pub mod bb_track_corr_word_q_msb;
pub mod symbol_lsb;
pub mod preamble_lsb;
pub mod rssi_lsb;
pub mod rx_path_gain_lsb;
pub mod rx_diff_lna_force;
pub mod rx_lna_bias_coarse;
pub mod rx_lna_bias_fine_0;
pub mod rx_lna_bias_fine_1;
pub mod rx1_mix_gm_force;
pub mod rx1_mix_gm_bias_force;
pub mod rx2_mix_gm_force;
pub mod rx2_mix_gm_bias_force;
pub mod input_a_msbs;
pub mod inputs_bc_msbs;
pub mod force_os_dac;
pub mod rx_cgb_seg_enable;
pub mod rx_mix_inputbias;
pub mod rx1_bbf_r1a;
pub mod rx2_bbf_r1a;
pub mod rx_bbf_c1_msb;
pub mod rx_bbf_c1_lsb;
pub mod rx_bbf_c2_msb;
pub mod rx_bbf_c2_lsb;
pub mod rx_bbf_cc1_ctr;
pub mod rx_bbf_pow_rz_byte0;
pub mod rx_bbf_cc2_ctr;
pub mod rx_bbf_pow_rz_byte1;
pub mod rx_bbf_cc3_ctr;
pub mod rx_bbf_tune;
pub mod rx1_bbf_man_gain;
pub mod rx2_bbf_man_gain;
pub mod pole_gain;
pub mod rx_pfd_config;
pub mod rx_fract_byte_2;
pub mod rx_dithercp_cal;
pub mod rx_vco_pd_overrides;
pub mod rx_vco_ldo;
pub mod rx_lock_detect_config;
pub mod rx_cp_level_detect;
pub mod rx_dsm_setup_0;
pub mod rx_dsm_setup_1;
pub mod rx_correction_word0;
pub mod rx_correction_word1;
pub mod rx_fast_lock_setup;
pub mod rx_fast_lock_program_addr;
pub mod rx_fast_lock_program_ctrl;
pub mod rx_lo_gen_power_mode;
pub mod tx_pfd_config;
pub mod tx_fract_byte_2;
pub mod tx_force_alc;
pub mod tx_dithercp_cal;
pub mod tx_vco_bias_2;
pub mod tx_vco_pd_overrides;
pub mod tx_vco_ldo;
pub mod tx_lock_detect_config;
pub mod tx_cp_level_detect;
pub mod tx_dsm_setup_0;
pub mod tx_dsm_setup_1;
pub mod tx_correction_word0;
pub mod tx_correction_word1;
pub mod dcxo_coarse_tune;
pub mod dcxo_fine_tune_low;
pub mod dcxo_fine_tune_high;
pub mod dcxo_config;
pub mod dcxo_tempco_addr;
pub mod tx_fast_lock_setup;
pub mod tx_fast_lock_program_ctrl;
pub mod tx_lo_gen_power_mode;
pub mod bandgap_config0;
pub mod bandgap_config1;
pub mod gain_rx;
pub mod lpf_gain_rx;
pub mod dig_gain_rx;
pub mod fast_attack_state;
pub mod slow_loop_state;
pub mod ovrg_sigs_rx;
pub mod ctrl;
pub mod dac_test_2;
