use vstd::prelude::*;

verus! {

#[derive(Debug, Clone, Copy, PartialEq, Eq, Structural)]
pub enum EnsmState {
    SleepWait,
    Alert,
    Tx,
    TxFlush,
    Rx,
    RxFlush,
    Fdd,
    FddFlush,
}

impl EnsmState {
    /// Raw 4 bit register value of the variant.
    pub open spec fn raw(self) -> u8 {
        match self {
            EnsmState::SleepWait => 0,
            EnsmState::Alert => 5,
            EnsmState::Tx => 6,
            EnsmState::TxFlush => 7,
            EnsmState::Rx => 8,
            EnsmState::RxFlush => 9,
            EnsmState::Fdd => 10,
            EnsmState::FddFlush => 11,
        }
    }

    /// Raw 4 bit register value of the variant.
    pub fn raw_value(&self) -> (r: u8)
        ensures
            r == self.raw(),
            r < 16,
    {
        match self {
            EnsmState::SleepWait => 0,
            EnsmState::Alert => 5,
            EnsmState::Tx => 6,
            EnsmState::TxFlush => 7,
            EnsmState::Rx => 8,
            EnsmState::RxFlush => 9,
            EnsmState::Fdd => 10,
            EnsmState::FddFlush => 11,
        }
    }

    /// Decodes a raw 4 bit register value. A value that no variant has is handed
    /// back as the error.
    pub fn new_with_raw_value(value: u8) -> (r: Result<Self, u8>)
        requires
            value < 16,
        ensures
            match r {
                Ok(v) => v.raw() == value,
                Err(e) => e == value && forall|v: EnsmState| v.raw() != value,
            },
    {
        if value == 0 {
            Ok(EnsmState::SleepWait)
        } else if value == 5 {
            Ok(EnsmState::Alert)
        } else if value == 6 {
            Ok(EnsmState::Tx)
        } else if value == 7 {
            Ok(EnsmState::TxFlush)
        } else if value == 8 {
            Ok(EnsmState::Rx)
        } else if value == 9 {
            Ok(EnsmState::RxFlush)
        } else if value == 10 {
            Ok(EnsmState::Fdd)
        } else if value == 11 {
            Ok(EnsmState::FddFlush)
        } else {
            Err(value)
        }
    }
}

} // verus!
