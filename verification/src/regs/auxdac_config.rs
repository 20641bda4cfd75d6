use vstd::prelude::*;

verus! {

#[derive(Debug, Clone, Copy, PartialEq, Eq, Structural)]
#[allow(non_camel_case_types)]
pub enum Vref {
    _1V,
    _1_5V,
    _2V,
    _2_5V,
}

impl Vref {
    /// Raw 2 bit register value of the variant.
    pub open spec fn raw(self) -> u8 {
        match self {
            Vref::_1V => 0,
            Vref::_1_5V => 1,
            Vref::_2V => 2,
            Vref::_2_5V => 3,
        }
    }

    /// Raw 2 bit register value of the variant.
    pub fn raw_value(&self) -> (r: u8)
        ensures
            r == self.raw(),
            r < 4,
    {
        match self {
            Vref::_1V => 0,
            Vref::_1_5V => 1,
            Vref::_2V => 2,
            Vref::_2_5V => 3,
        }
    }

    /// Decodes a raw 2 bit register value.
    pub fn new_with_raw_value(value: u8) -> (r: Self)
        requires
            value < 4,
        ensures
            r.raw() == value,
    {
        if value == 0 {
            Vref::_1V
        } else if value == 1 {
            Vref::_1_5V
        } else if value == 2 {
            Vref::_2V
        } else {
            Vref::_2_5V
        }
    }
}

} // verus!
