use vstd::prelude::*;

verus! {

/// Configure the TX RF output channels.
#[derive(Debug, Clone, Copy, PartialEq, Eq, Structural)]
pub enum TxRfPathConfig {
    PortA,
    PortB,
}

impl TxRfPathConfig {
    /// Raw 1 bit register value of the variant.
    pub open spec fn raw(self) -> u8 {
        match self {
            TxRfPathConfig::PortA => 0,
            TxRfPathConfig::PortB => 1,
        }
    }

    /// Raw 1 bit register value of the variant.
    pub fn raw_value(&self) -> (r: u8)
        ensures
            r == self.raw(),
            r < 2,
    {
        match self {
            TxRfPathConfig::PortA => 0,
            TxRfPathConfig::PortB => 1,
        }
    }

    /// Decodes a raw 1 bit register value.
    pub fn new_with_raw_value(value: u8) -> (r: Self)
        requires
            value < 2,
        ensures
            r.raw() == value,
    {
        if value == 0 {
            TxRfPathConfig::PortA
        } else {
            TxRfPathConfig::PortB
        }
    }
}

/// Configure the RX RF input channels.
#[derive(Debug, Clone, Copy, PartialEq, Eq, Structural)]
#[allow(non_camel_case_types)]
pub enum RxRfPathConfig {
    /// Single-ended: enables the A negative input on RX1 and RX2.
    SingleEnded_Rx1A_N_Rx2A_N,
    /// Single-ended: enables the A positive input on RX1 and RX2.
    SingleEnded_Rx1A_P_Rx2A_P,
    /// Single-ended: enables the B negative input on RX1 and RX2.
    SingleEnded_Rx1B_N_Rx2B_N,
    /// Single-ended: enables the B positive input on RX1 and RX2.
    SingleEnded_Rx1B_P_Rx2B_P,
    /// Single-ended: enables the C negative input on RX1 and RX2.
    SingleEnded_Rx1C_N_Rx2C_N,
    /// Single-ended: enables the C positive input on RX1 and RX2.
    SingleEnded_Rx1C_P_Rx2C_P,
    /// Differential: enables both A inputs as a differential pair on RX1 and RX2.
    Diff_Rx1A_NP_Rx2A_NP,
    /// Differential: enables both B inputs as a differential pair on RX1 and RX2.
    Diff_Rx1B_NP_Rx2B_NP,
    /// Differential: enables both C inputs as a differential pair on RX1 and RX2.
    Diff_Rx1C_NP_Rx2C_NP,
}

impl RxRfPathConfig {
    /// Raw 6 bit register value of the variant.
    pub open spec fn raw(self) -> u8 {
        match self {
            RxRfPathConfig::SingleEnded_Rx1A_N_Rx2A_N => 1,
            RxRfPathConfig::SingleEnded_Rx1A_P_Rx2A_P => 2,
            RxRfPathConfig::SingleEnded_Rx1B_N_Rx2B_N => 4,
            RxRfPathConfig::SingleEnded_Rx1B_P_Rx2B_P => 8,
            RxRfPathConfig::SingleEnded_Rx1C_N_Rx2C_N => 16,
            RxRfPathConfig::SingleEnded_Rx1C_P_Rx2C_P => 32,
            RxRfPathConfig::Diff_Rx1A_NP_Rx2A_NP => 3,
            RxRfPathConfig::Diff_Rx1B_NP_Rx2B_NP => 12,
            RxRfPathConfig::Diff_Rx1C_NP_Rx2C_NP => 48,
        }
    }

    /// Raw 6 bit register value of the variant.
    pub fn raw_value(&self) -> (r: u8)
        ensures
            r == self.raw(),
            r < 64,
    {
        match self {
            RxRfPathConfig::SingleEnded_Rx1A_N_Rx2A_N => 1,
            RxRfPathConfig::SingleEnded_Rx1A_P_Rx2A_P => 2,
            RxRfPathConfig::SingleEnded_Rx1B_N_Rx2B_N => 4,
            RxRfPathConfig::SingleEnded_Rx1B_P_Rx2B_P => 8,
            RxRfPathConfig::SingleEnded_Rx1C_N_Rx2C_N => 16,
            RxRfPathConfig::SingleEnded_Rx1C_P_Rx2C_P => 32,
            RxRfPathConfig::Diff_Rx1A_NP_Rx2A_NP => 3,
            RxRfPathConfig::Diff_Rx1B_NP_Rx2B_NP => 12,
            RxRfPathConfig::Diff_Rx1C_NP_Rx2C_NP => 48,
        }
    }

    /// Decodes a raw 6 bit register value. A value that no variant has is handed
    /// back as the error.
    pub fn new_with_raw_value(value: u8) -> (r: Result<Self, u8>)
        requires
            value < 64,
        ensures
            match r {
                Ok(v) => v.raw() == value,
                Err(e) => e == value && forall|v: RxRfPathConfig| v.raw() != value,
            },
    {
        if value == 1 {
            Ok(RxRfPathConfig::SingleEnded_Rx1A_N_Rx2A_N)
        } else if value == 2 {
            Ok(RxRfPathConfig::SingleEnded_Rx1A_P_Rx2A_P)
        } else if value == 4 {
            Ok(RxRfPathConfig::SingleEnded_Rx1B_N_Rx2B_N)
        } else if value == 8 {
            Ok(RxRfPathConfig::SingleEnded_Rx1B_P_Rx2B_P)
        } else if value == 16 {
            Ok(RxRfPathConfig::SingleEnded_Rx1C_N_Rx2C_N)
        } else if value == 32 {
            Ok(RxRfPathConfig::SingleEnded_Rx1C_P_Rx2C_P)
        } else if value == 3 {
            Ok(RxRfPathConfig::Diff_Rx1A_NP_Rx2A_NP)
        } else if value == 12 {
            Ok(RxRfPathConfig::Diff_Rx1B_NP_Rx2B_NP)
        } else if value == 48 {
            Ok(RxRfPathConfig::Diff_Rx1C_NP_Rx2C_NP)
        } else {
            Err(value)
        }
    }
}

} // verus!
