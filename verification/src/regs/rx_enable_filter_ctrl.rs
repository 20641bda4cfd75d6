use vstd::prelude::*;

verus! {

#[derive(Debug, Clone, Copy, PartialEq, Eq, Structural)]
pub enum Rhb3Decimation {
    Div1NoFiltering,
    Div2HalfBand,
    Div3Filter,
}

impl Rhb3Decimation {
    /// Raw 2 bit register value of the variant.
    pub open spec fn raw(self) -> u8 {
        match self {
            Rhb3Decimation::Div1NoFiltering => 0,
            Rhb3Decimation::Div2HalfBand => 1,
            Rhb3Decimation::Div3Filter => 2,
        }
    }

    /// Raw 2 bit register value of the variant.
    pub fn raw_value(&self) -> (r: u8)
        ensures
            r == self.raw(),
            r < 4,
    {
        match self {
            Rhb3Decimation::Div1NoFiltering => 0,
            Rhb3Decimation::Div2HalfBand => 1,
            Rhb3Decimation::Div3Filter => 2,
        }
    }

    /// Decodes a raw 2 bit register value. A value that no variant has is handed
    /// back as the error.
    pub fn new_with_raw_value(value: u8) -> (r: Result<Self, u8>)
        requires
            value < 4,
        ensures
            match r {
                Ok(v) => v.raw() == value,
                Err(e) => e == value && forall|v: Rhb3Decimation| v.raw() != value,
            },
    {
        if value == 0 {
            Ok(Rhb3Decimation::Div1NoFiltering)
        } else if value == 1 {
            Ok(Rhb3Decimation::Div2HalfBand)
        } else if value == 2 {
            Ok(Rhb3Decimation::Div3Filter)
        } else {
            Err(value)
        }
    }
}

#[derive(Debug, Clone, Copy, PartialEq, Eq, Structural)]
pub enum RxFirDecimation {
    Div1BypassFilter,
    Div1EnableFilter,
    Div2EnableFilter,
    Div4EnableFilter,
}

impl RxFirDecimation {
    /// Raw 2 bit register value of the variant.
    pub open spec fn raw(self) -> u8 {
        match self {
            RxFirDecimation::Div1BypassFilter => 0,
            RxFirDecimation::Div1EnableFilter => 1,
            RxFirDecimation::Div2EnableFilter => 2,
            RxFirDecimation::Div4EnableFilter => 3,
        }
    }

    /// Raw 2 bit register value of the variant.
    pub fn raw_value(&self) -> (r: u8)
        ensures
            r == self.raw(),
            r < 4,
    {
        match self {
            RxFirDecimation::Div1BypassFilter => 0,
            RxFirDecimation::Div1EnableFilter => 1,
            RxFirDecimation::Div2EnableFilter => 2,
            RxFirDecimation::Div4EnableFilter => 3,
        }
    }

    /// Decodes a raw 2 bit register value.
    pub fn new_with_raw_value(value: u8) -> (r: Self)
        requires
            value < 4,
        ensures
            r.raw() == value,
    {
        if value == 0 {
            RxFirDecimation::Div1BypassFilter
        } else if value == 1 {
            RxFirDecimation::Div1EnableFilter
        } else if value == 2 {
            RxFirDecimation::Div2EnableFilter
        } else {
            RxFirDecimation::Div4EnableFilter
        }
    }
}

impl Rhb3Decimation {
    /// Decimation factor of the RX HB3 stage.
    pub open spec fn divisor_spec(self) -> u32 {
        match self {
            Rhb3Decimation::Div1NoFiltering => 1,
            Rhb3Decimation::Div2HalfBand => 2,
            Rhb3Decimation::Div3Filter => 3,
        }
    }

    /// Decimation factor of the RX HB3 stage.
    pub fn divisor(&self) -> (r: u32)
        ensures
            r == self.divisor_spec(),
    {
        match self {
            Rhb3Decimation::Div1NoFiltering => 1,
            Rhb3Decimation::Div2HalfBand => 2,
            Rhb3Decimation::Div3Filter => 3,
        }
    }

    /// The setting with the decimation factor `div`, if there is one.
    pub fn from_raw_divisor(div: u8) -> (r: Option<Self>)
        ensures
            match r {
                Some(v) => v.divisor_spec() == div,
                None => div < 1 || div > 3,
            },
    {
        match div {
            1 => Some(Self::Div1NoFiltering),
            2 => Some(Self::Div2HalfBand),
            3 => Some(Self::Div3Filter),
            _ => None,
        }
    }
}

impl RxFirDecimation {
    /// Decimation factor of the RX FIR.
    pub open spec fn divisor_spec(self) -> u32 {
        match self {
            RxFirDecimation::Div1BypassFilter => 1,
            RxFirDecimation::Div1EnableFilter => 1,
            RxFirDecimation::Div2EnableFilter => 2,
            RxFirDecimation::Div4EnableFilter => 4,
        }
    }

    /// Decimation factor of the RX FIR.
    pub fn divisor(&self) -> (r: u32)
        ensures
            r == self.divisor_spec(),
    {
        match self {
            RxFirDecimation::Div1BypassFilter => 1,
            RxFirDecimation::Div1EnableFilter => 1,
            RxFirDecimation::Div2EnableFilter => 2,
            RxFirDecimation::Div4EnableFilter => 4,
        }
    }
}

/// The decimation factor of an RX HB3 setting identifies it: decoding the factor gives the
/// setting back.
pub proof fn lemma_rhb3_divisor_roundtrip(v: Rhb3Decimation, w: Rhb3Decimation)
    ensures
        1 <= v.divisor_spec() <= 3,
        v.divisor_spec() == w.divisor_spec() ==> v == w,
{
}

} // verus!
