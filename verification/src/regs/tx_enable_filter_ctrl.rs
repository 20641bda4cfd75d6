use vstd::prelude::*;

verus! {

#[derive(Debug, Clone, Copy, PartialEq, Eq, Structural)]
pub enum Thb3Interpolation {
    Mult1NoFiltering,
    Mult2HalfBand,
    Mult3Filter,
}

impl Thb3Interpolation {
    /// Raw 2 bit register value of the variant.
    pub open spec fn raw(self) -> u8 {
        match self {
            Thb3Interpolation::Mult1NoFiltering => 0,
            Thb3Interpolation::Mult2HalfBand => 1,
            Thb3Interpolation::Mult3Filter => 2,
        }
    }

    /// Raw 2 bit register value of the variant.
    pub fn raw_value(&self) -> (r: u8)
        ensures
            r == self.raw(),
            r < 4,
    {
        match self {
            Thb3Interpolation::Mult1NoFiltering => 0,
            Thb3Interpolation::Mult2HalfBand => 1,
            Thb3Interpolation::Mult3Filter => 2,
        }
    }

    /// Decodes a raw 2 bit register value. A value that no variant has is handed
    /// back as the error.
    pub fn new_with_raw_value(value: u8) -> (r: Result<Self, u8>)
        requires
            value < 4,
        ensures
            match r {
                Ok(v) => v.raw() == value,
                Err(e) => e == value && forall|v: Thb3Interpolation| v.raw() != value,
            },
    {
        if value == 0 {
            Ok(Thb3Interpolation::Mult1NoFiltering)
        } else if value == 1 {
            Ok(Thb3Interpolation::Mult2HalfBand)
        } else if value == 2 {
            Ok(Thb3Interpolation::Mult3Filter)
        } else {
            Err(value)
        }
    }
}

#[derive(Debug, Clone, Copy, PartialEq, Eq, Structural)]
pub enum TxFirInterpolation {
    Mult1BypassFilter,
    Mult1EnableFilter,
    Mult2EnableFilter,
    Mult4EnableFilter,
}

impl TxFirInterpolation {
    /// Raw 2 bit register value of the variant.
    pub open spec fn raw(self) -> u8 {
        match self {
            TxFirInterpolation::Mult1BypassFilter => 0,
            TxFirInterpolation::Mult1EnableFilter => 1,
            TxFirInterpolation::Mult2EnableFilter => 2,
            TxFirInterpolation::Mult4EnableFilter => 3,
        }
    }

    /// Raw 2 bit register value of the variant.
    pub fn raw_value(&self) -> (r: u8)
        ensures
            r == self.raw(),
            r < 4,
    {
        match self {
            TxFirInterpolation::Mult1BypassFilter => 0,
            TxFirInterpolation::Mult1EnableFilter => 1,
            TxFirInterpolation::Mult2EnableFilter => 2,
            TxFirInterpolation::Mult4EnableFilter => 3,
        }
    }

    /// Decodes a raw 2 bit register value.
    pub fn new_with_raw_value(value: u8) -> (r: Self)
        requires
            value < 4,
        ensures
            r.raw() == value,
    {
        if value == 0 {
            TxFirInterpolation::Mult1BypassFilter
        } else if value == 1 {
            TxFirInterpolation::Mult1EnableFilter
        } else if value == 2 {
            TxFirInterpolation::Mult2EnableFilter
        } else {
            TxFirInterpolation::Mult4EnableFilter
        }
    }
}

impl Thb3Interpolation {
    /// Interpolation factor of the TX HB3 stage.
    pub open spec fn multiplier_spec(self) -> u32 {
        match self {
            Thb3Interpolation::Mult1NoFiltering => 1,
            Thb3Interpolation::Mult2HalfBand => 2,
            Thb3Interpolation::Mult3Filter => 3,
        }
    }

    /// Interpolation factor of the TX HB3 stage.
    pub fn multiplier(&self) -> (r: u32)
        ensures
            r == self.multiplier_spec(),
    {
        match self {
            Self::Mult1NoFiltering => 1,
            Self::Mult2HalfBand => 2,
            Self::Mult3Filter => 3,
        }
    }

    /// The setting with the interpolation factor `div`, if there is one.
    pub fn from_raw_multiplier(div: u8) -> (r: Option<Self>)
        ensures
            match r {
                Some(v) => v.multiplier_spec() == div,
                None => div < 1 || div > 3,
            },
    {
        match div {
            1 => Some(Self::Mult1NoFiltering),
            2 => Some(Self::Mult2HalfBand),
            3 => Some(Self::Mult3Filter),
            _ => None,
        }
    }
}

impl TxFirInterpolation {
    /// Interpolation factor of the TX FIR.
    pub open spec fn multiplier_spec(self) -> u32 {
        match self {
            TxFirInterpolation::Mult1BypassFilter => 1,
            TxFirInterpolation::Mult1EnableFilter => 1,
            TxFirInterpolation::Mult2EnableFilter => 2,
            TxFirInterpolation::Mult4EnableFilter => 4,
        }
    }

    /// Interpolation factor of the TX FIR.
    pub fn multiplier(&self) -> (r: u32)
        ensures
            r == self.multiplier_spec(),
    {
        match self {
            Self::Mult1BypassFilter => 1,
            Self::Mult1EnableFilter => 1,
            Self::Mult2EnableFilter => 2,
            Self::Mult4EnableFilter => 4,
        }
    }
}

/// The interpolation factor of a TX HB3 setting identifies it: decoding the factor gives the
/// setting back.
pub proof fn lemma_thb3_multiplier_roundtrip(v: Thb3Interpolation, w: Thb3Interpolation)
    ensures
        1 <= v.multiplier_spec() <= 3,
        v.multiplier_spec() == w.multiplier_spec() ==> v == w,
{
}

} // verus!
