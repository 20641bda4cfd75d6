use vstd::prelude::*;

verus! {

#[derive(Debug, Clone, Copy, PartialEq, Eq, Structural)]
pub enum PllVcoDividerBits {
    Div2,
    Div4,
    Div8,
    Div16,
    Div32,
    Div64,
    Div128,
    External,
}

impl PllVcoDividerBits {
    /// Raw 4 bit register value of the variant.
    pub open spec fn raw(self) -> u8 {
        match self {
            PllVcoDividerBits::Div2 => 0,
            PllVcoDividerBits::Div4 => 1,
            PllVcoDividerBits::Div8 => 2,
            PllVcoDividerBits::Div16 => 3,
            PllVcoDividerBits::Div32 => 4,
            PllVcoDividerBits::Div64 => 5,
            PllVcoDividerBits::Div128 => 6,
            PllVcoDividerBits::External => 7,
        }
    }

    /// Raw 4 bit register value of the variant.
    pub fn raw_value(&self) -> (r: u8)
        ensures
            r == self.raw(),
            r < 16,
    {
        match self {
            PllVcoDividerBits::Div2 => 0,
            PllVcoDividerBits::Div4 => 1,
            PllVcoDividerBits::Div8 => 2,
            PllVcoDividerBits::Div16 => 3,
            PllVcoDividerBits::Div32 => 4,
            PllVcoDividerBits::Div64 => 5,
            PllVcoDividerBits::Div128 => 6,
            PllVcoDividerBits::External => 7,
        }
    }

    /// Decodes a raw 4 bit register value. A value that no variant has is handed
    /// back as the error.
    pub fn new_with_raw_value(value: u8) -> (r: Result<Self, u8>)
        requires
            value < 16,
        ensures
            match r {
                Ok(v) => v.raw() == value,
                Err(e) => e == value && forall|v: PllVcoDividerBits| v.raw() != value,
            },
    {
        if value == 0 {
            Ok(PllVcoDividerBits::Div2)
        } else if value == 1 {
            Ok(PllVcoDividerBits::Div4)
        } else if value == 2 {
            Ok(PllVcoDividerBits::Div8)
        } else if value == 3 {
            Ok(PllVcoDividerBits::Div16)
        } else if value == 4 {
            Ok(PllVcoDividerBits::Div32)
        } else if value == 5 {
            Ok(PllVcoDividerBits::Div64)
        } else if value == 6 {
            Ok(PllVcoDividerBits::Div128)
        } else if value == 7 {
            Ok(PllVcoDividerBits::External)
        } else {
            Err(value)
        }
    }
}

} // verus!
