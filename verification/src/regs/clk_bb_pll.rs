use vstd::prelude::*;

verus! {

#[derive(Debug, Clone, Copy, PartialEq, Eq, Structural)]
pub enum ClkOutMode {
    XtalnN,
    AdcClkDiv2,
    AdcClkDiv3,
    AdcClkDiv4,
    AdcClkDiv8,
    AdcClkDiv16,
    AdcClkDiv32,
    AdcClkDiv64,
}

impl ClkOutMode {
    /// Raw 3 bit register value of the variant.
    pub open spec fn raw(self) -> u8 {
        match self {
            ClkOutMode::XtalnN => 0,
            ClkOutMode::AdcClkDiv2 => 1,
            ClkOutMode::AdcClkDiv3 => 2,
            ClkOutMode::AdcClkDiv4 => 3,
            ClkOutMode::AdcClkDiv8 => 4,
            ClkOutMode::AdcClkDiv16 => 5,
            ClkOutMode::AdcClkDiv32 => 6,
            ClkOutMode::AdcClkDiv64 => 7,
        }
    }

    /// Raw 3 bit register value of the variant.
    pub fn raw_value(&self) -> (r: u8)
        ensures
            r == self.raw(),
            r < 8,
    {
        match self {
            ClkOutMode::XtalnN => 0,
            ClkOutMode::AdcClkDiv2 => 1,
            ClkOutMode::AdcClkDiv3 => 2,
            ClkOutMode::AdcClkDiv4 => 3,
            ClkOutMode::AdcClkDiv8 => 4,
            ClkOutMode::AdcClkDiv16 => 5,
            ClkOutMode::AdcClkDiv32 => 6,
            ClkOutMode::AdcClkDiv64 => 7,
        }
    }

    /// Decodes a raw 3 bit register value.
    pub fn new_with_raw_value(value: u8) -> (r: Self)
        requires
            value < 8,
        ensures
            r.raw() == value,
    {
        if value == 0 {
            ClkOutMode::XtalnN
        } else if value == 1 {
            ClkOutMode::AdcClkDiv2
        } else if value == 2 {
            ClkOutMode::AdcClkDiv3
        } else if value == 3 {
            ClkOutMode::AdcClkDiv4
        } else if value == 4 {
            ClkOutMode::AdcClkDiv8
        } else if value == 5 {
            ClkOutMode::AdcClkDiv16
        } else if value == 6 {
            ClkOutMode::AdcClkDiv32
        } else {
            ClkOutMode::AdcClkDiv64
        }
    }
}

#[derive(Debug, Clone, Copy, PartialEq, Eq, Structural)]
pub enum AdcDivisor {
    Div2,
    Div4,
    Div8,
    Div16,
    Div32,
    Div64,
}

impl AdcDivisor {
    /// Raw 3 bit register value of the variant.
    pub open spec fn raw(self) -> u8 {
        match self {
            AdcDivisor::Div2 => 1,
            AdcDivisor::Div4 => 2,
            AdcDivisor::Div8 => 3,
            AdcDivisor::Div16 => 4,
            AdcDivisor::Div32 => 5,
            AdcDivisor::Div64 => 6,
        }
    }

    /// Raw 3 bit register value of the variant.
    pub fn raw_value(&self) -> (r: u8)
        ensures
            r == self.raw(),
            r < 8,
    {
        match self {
            AdcDivisor::Div2 => 1,
            AdcDivisor::Div4 => 2,
            AdcDivisor::Div8 => 3,
            AdcDivisor::Div16 => 4,
            AdcDivisor::Div32 => 5,
            AdcDivisor::Div64 => 6,
        }
    }

    /// Decodes a raw 3 bit register value. A value that no variant has is handed
    /// back as the error.
    pub fn new_with_raw_value(value: u8) -> (r: Result<Self, u8>)
        requires
            value < 8,
        ensures
            match r {
                Ok(v) => v.raw() == value,
                Err(e) => e == value && forall|v: AdcDivisor| v.raw() != value,
            },
    {
        if value == 1 {
            Ok(AdcDivisor::Div2)
        } else if value == 2 {
            Ok(AdcDivisor::Div4)
        } else if value == 3 {
            Ok(AdcDivisor::Div8)
        } else if value == 4 {
            Ok(AdcDivisor::Div16)
        } else if value == 5 {
            Ok(AdcDivisor::Div32)
        } else if value == 6 {
            Ok(AdcDivisor::Div64)
        } else {
            Err(value)
        }
    }
}

impl AdcDivisor {
    /// Divisor applied to the BB PLL clock to obtain the ADC master clock.
    pub open spec fn divisor_spec(self) -> u32 {
        match self {
            AdcDivisor::Div2 => 2,
            AdcDivisor::Div4 => 4,
            AdcDivisor::Div8 => 8,
            AdcDivisor::Div16 => 16,
            AdcDivisor::Div32 => 32,
            AdcDivisor::Div64 => 64,
        }
    }

    /// The next smaller divisor; `Div2` stays `Div2`.
    pub open spec fn next_smaller_spec(self) -> AdcDivisor {
        match self {
            AdcDivisor::Div2 => AdcDivisor::Div2,
            AdcDivisor::Div4 => AdcDivisor::Div2,
            AdcDivisor::Div8 => AdcDivisor::Div4,
            AdcDivisor::Div16 => AdcDivisor::Div8,
            AdcDivisor::Div32 => AdcDivisor::Div16,
            AdcDivisor::Div64 => AdcDivisor::Div32,
        }
    }

    /// Divisor applied to the BB PLL clock to obtain the ADC master clock.
    pub fn divisor(&self) -> (r: u32)
        ensures
            r == self.divisor_spec(),
    {
        match self {
            AdcDivisor::Div2 => 2,
            AdcDivisor::Div4 => 4,
            AdcDivisor::Div8 => 8,
            AdcDivisor::Div16 => 16,
            AdcDivisor::Div32 => 32,
            AdcDivisor::Div64 => 64,
        }
    }

    /// The next smaller divisor; `Div2` stays `Div2`.
    pub fn next_smaller(&self) -> (r: Self)
        ensures
            r == self.next_smaller_spec(),
    {
        match self {
            AdcDivisor::Div2 => AdcDivisor::Div2,
            AdcDivisor::Div4 => AdcDivisor::Div2,
            AdcDivisor::Div8 => AdcDivisor::Div4,
            AdcDivisor::Div16 => AdcDivisor::Div8,
            AdcDivisor::Div32 => AdcDivisor::Div16,
            AdcDivisor::Div64 => AdcDivisor::Div32,
        }
    }
}

/// Stepping down from any divisor but `Div2` halves it, and the register value of every ADC
/// divisor `d` is `log2(d)`.
pub proof fn lemma_adc_divisor_next_smaller(d: AdcDivisor)
    ensures
        d != AdcDivisor::Div2 ==> d.next_smaller_spec().divisor_spec() * 2 == d.divisor_spec(),
        d == AdcDivisor::Div2 ==> d.next_smaller_spec() == d,
        d.divisor_spec() == vstd::arithmetic::power2::pow2(d.raw() as nat),
{
    vstd::arithmetic::power2::lemma2_to64();
}

} // verus!
