use vstd::prelude::*;

verus! {

#[derive(Debug, Clone, Copy, PartialEq, Eq, Structural)]
pub enum TxNRxSpiCtrl {
    Rx,
    Tx,
}

impl TxNRxSpiCtrl {
    /// Raw 1 bit register value of the variant.
    pub open spec fn raw(self) -> u8 {
        match self {
            TxNRxSpiCtrl::Rx => 0,
            TxNRxSpiCtrl::Tx => 1,
        }
    }

    /// Raw 1 bit register value of the variant.
    pub fn raw_value(&self) -> (r: u8)
        ensures
            r == self.raw(),
            r < 2,
    {
        match self {
            TxNRxSpiCtrl::Rx => 0,
            TxNRxSpiCtrl::Tx => 1,
        }
    }

    /// Decodes a raw 1 bit register value.
    pub fn new_with_raw_value(value: u8) -> (r: Self)
        requires
            value < 2,
        ensures
            r.raw() == value,
    {
        if value == 0 {
            TxNRxSpiCtrl::Rx
        } else {
            TxNRxSpiCtrl::Tx
        }
    }
}

} // verus!
