//! Verified driver logic for the AD9361 RF agile transceiver.
pub mod limits;
pub mod types;
pub use types::{
    FastAgcTargetGainIndexType, GainControlMode, ReceiverId, RxClock, RxPhaseConfig, TransmitterId,
    TxClock,
};
pub mod regs;
pub mod ctrl_output;
pub mod bits;
pub mod clocks;
pub mod config;
pub mod spi;
pub mod driver;
pub mod calib;
