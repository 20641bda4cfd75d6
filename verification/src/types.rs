//! Types shared by the driver API.
use vstd::prelude::*;

use crate::limits;

verus! {

/// How TX quadrature calibration picks the RX NCO phase it uses to observe the TX calibration
/// tone. `Manual`/`Calculated` both try one specific phase first and only fall back to a full
/// sweep across all candidate phases if that doesn't converge; `ForceSearch` always does the
/// full sweep.
#[derive(Debug, PartialEq, Eq, Structural, Copy, Clone)]
pub enum RxPhaseConfig {
    /// Try this exact phase value first (a 5 bit value, below 32).
    Manual(u8),
    /// Try the phase derived from the configured RX/TX clock relationship first.
    Calculated,
    /// Skip straight to sweeping all candidate phases and picking whichever gives the best
    /// calibration result.
    ForceSearch,
}

/// Identifies one of the two RX channels.
#[derive(Debug, PartialEq, Eq, Structural, Copy, Clone)]
pub enum ReceiverId {
    Rx1,
    Rx2,
}

/// Identifies one of the two TX channels.
#[derive(Debug, PartialEq, Eq, Structural, Copy, Clone)]
pub enum TransmitterId {
    Tx1,
    Tx2,
}

/// Gain control mode of one receiver.
#[derive(Debug, Clone, Copy, PartialEq, Eq, Structural, Hash)]
pub enum GainControlMode {
    Manual,
    AutoFastAttack,
    AutoSlowAttack,
    AutoHybrid,
}

/// Gain index the fast AGC moves to on an event.
#[derive(Debug, Clone, Copy, PartialEq, Eq, Structural, Hash)]
pub enum FastAgcTargetGainIndexType {
    MaxGain,
    SetGain,
    OptimizedGain,
    NoGainChange,
}

/// Clocks of the RX path which have an upper limit.
#[derive(Debug, Clone, Copy, PartialEq, Eq, Structural, Hash)]
pub enum RxClock {
    BbPll,
    Adc,
    R2,
    R1,
    ClkRf,
    RxSample,
}

/// Upper limit of each RX clock in Hz.
pub open spec fn rx_clock_limit(clock: RxClock) -> u32 {
    match clock {
        RxClock::BbPll => limits::MAX_BBPLL_FREQ,
        RxClock::Adc => limits::MAX_ADC_CLK,
        RxClock::R2 => limits::MAX_RX_HB3,
        RxClock::R1 => limits::MAX_RX_HB2,
        RxClock::ClkRf => limits::MAX_RX_HB1,
        RxClock::RxSample => limits::MAX_BASEBAND_RATE,
    }
}

impl RxClock {
    /// Number of RX clocks.
    pub const NUM_CLOCKS: usize = 6;

    /// Upper limit of this clock in Hz.
    pub fn limit_hz(&self) -> (r: u32)
        ensures
            r == rx_clock_limit(*self),
    {
        match self {
            RxClock::BbPll => limits::MAX_BBPLL_FREQ,
            RxClock::Adc => limits::MAX_ADC_CLK,
            RxClock::R2 => limits::MAX_RX_HB3,
            RxClock::R1 => limits::MAX_RX_HB2,
            RxClock::ClkRf => limits::MAX_RX_HB1,
            RxClock::RxSample => limits::MAX_BASEBAND_RATE,
        }
    }
}

/// Clocks of the TX path which have an upper limit.
#[derive(Debug, Clone, Copy, PartialEq, Eq, Structural, Hash)]
pub enum TxClock {
    Ignore,
    Dac,
    T2,
    T1,
    ClkTf,
    TxSample,
}

/// Upper limit of each TX clock in Hz.
pub open spec fn tx_clock_limit(clock: TxClock) -> u32 {
    match clock {
        TxClock::Ignore => limits::MAX_BBPLL_FREQ,
        TxClock::Dac => limits::MAX_DAC_CLK,
        TxClock::T2 => limits::MAX_TX_HB3,
        TxClock::T1 => limits::MAX_TX_HB2,
        TxClock::ClkTf => limits::MAX_TX_HB1,
        TxClock::TxSample => limits::MAX_BASEBAND_RATE,
    }
}

impl TxClock {
    /// Number of TX clocks.
    pub const NUM_CLOCKS: usize = 6;

    /// Upper limit of this clock in Hz.
    pub fn limit_hz(&self) -> (r: u32)
        ensures
            r == tx_clock_limit(*self),
    {
        match self {
            TxClock::Ignore => limits::MAX_BBPLL_FREQ,
            TxClock::Dac => limits::MAX_DAC_CLK,
            TxClock::T2 => limits::MAX_TX_HB3,
            TxClock::T1 => limits::MAX_TX_HB2,
            TxClock::ClkTf => limits::MAX_TX_HB1,
            TxClock::TxSample => limits::MAX_BASEBAND_RATE,
        }
    }
}

} // verus!
