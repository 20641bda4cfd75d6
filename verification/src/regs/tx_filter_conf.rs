use vstd::prelude::*;

verus! {

#[derive(Debug, Clone, Copy, PartialEq, Eq, Structural)]
pub enum NumberOfTapsRaw {
    _16,
    _32,
    _48,
    _64,
    _80,
    _96,
    _112,
    _128,
}

impl NumberOfTapsRaw {
    /// Raw 3 bit register value of the variant.
    pub open spec fn raw(self) -> u8 {
        match self {
            NumberOfTapsRaw::_16 => 0,
            NumberOfTapsRaw::_32 => 1,
            NumberOfTapsRaw::_48 => 2,
            NumberOfTapsRaw::_64 => 3,
            NumberOfTapsRaw::_80 => 4,
            NumberOfTapsRaw::_96 => 5,
            NumberOfTapsRaw::_112 => 6,
            NumberOfTapsRaw::_128 => 7,
        }
    }

    /// Raw 3 bit register value of the variant.
    pub fn raw_value(&self) -> (r: u8)
        ensures
            r == self.raw(),
            r < 8,
    {
        match self {
            NumberOfTapsRaw::_16 => 0,
            NumberOfTapsRaw::_32 => 1,
            NumberOfTapsRaw::_48 => 2,
            NumberOfTapsRaw::_64 => 3,
            NumberOfTapsRaw::_80 => 4,
            NumberOfTapsRaw::_96 => 5,
            NumberOfTapsRaw::_112 => 6,
            NumberOfTapsRaw::_128 => 7,
        }
    }

    /// Decodes a raw 3 bit register value.
    pub fn new_with_raw_value(value: u8) -> (r: Self)
        requires
            value < 8,
        ensures
            r.raw() == value,
    {
        if value == 0 {
            NumberOfTapsRaw::_16
        } else if value == 1 {
            NumberOfTapsRaw::_32
        } else if value == 2 {
            NumberOfTapsRaw::_48
        } else if value == 3 {
            NumberOfTapsRaw::_64
        } else if value == 4 {
            NumberOfTapsRaw::_80
        } else if value == 5 {
            NumberOfTapsRaw::_96
        } else if value == 6 {
            NumberOfTapsRaw::_112
        } else {
            NumberOfTapsRaw::_128
        }
    }
}

impl NumberOfTapsRaw {
    /// Actual number of taps: 16 times the raw value plus one.
    pub open spec fn number_spec(self) -> u8 {
        ((self.raw() + 1) * 16) as u8
    }

    /// Actual number of taps.
    pub fn number(&self) -> (r: u8)
        ensures
            r == self.number_spec(),
            r as int == (self.raw() + 1) * 16,
    {
        match self {
            NumberOfTapsRaw::_16 => 16,
            NumberOfTapsRaw::_32 => 32,
            NumberOfTapsRaw::_48 => 48,
            NumberOfTapsRaw::_64 => 64,
            NumberOfTapsRaw::_80 => 80,
            NumberOfTapsRaw::_96 => 96,
            NumberOfTapsRaw::_112 => 112,
            NumberOfTapsRaw::_128 => 128,
        }
    }
}

} // verus!
