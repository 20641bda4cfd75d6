use vstd::prelude::*;

verus! {

/// Filter gain, `REG_RX_FILTER_GAIN`. The raw value follows from a dB figure
/// as `3 - (gain_dB + 12) / 6`, which inverts the naive bit order: `Plus6dB` = 0, `Zero` =
/// 1, `Minus6dB` = 2, `Minus12dB` = 3.
#[derive(Debug, Clone, Copy, PartialEq, Eq, Structural)]
pub enum FilterGain {
    Plus6dB,
    Zero,
    Minus6dB,
    Minus12dB,
}

impl FilterGain {
    /// Raw 2 bit register value of the variant.
    pub open spec fn raw(self) -> u8 {
        match self {
            FilterGain::Plus6dB => 0,
            FilterGain::Zero => 1,
            FilterGain::Minus6dB => 2,
            FilterGain::Minus12dB => 3,
        }
    }

    /// Raw 2 bit register value of the variant.
    pub fn raw_value(&self) -> (r: u8)
        ensures
            r == self.raw(),
            r < 4,
    {
        match self {
            FilterGain::Plus6dB => 0,
            FilterGain::Zero => 1,
            FilterGain::Minus6dB => 2,
            FilterGain::Minus12dB => 3,
        }
    }

    /// Decodes a raw 2 bit register value.
    pub fn new_with_raw_value(value: u8) -> (r: Self)
        requires
            value < 4,
        ensures
            r.raw() == value,
    {
        if value == 0 {
            FilterGain::Plus6dB
        } else if value == 1 {
            FilterGain::Zero
        } else if value == 2 {
            FilterGain::Minus6dB
        } else {
            FilterGain::Minus12dB
        }
    }
}

} // verus!
