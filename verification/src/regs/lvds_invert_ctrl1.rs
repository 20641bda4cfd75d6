use vstd::prelude::*;

verus! {

/// Register value, one field per bit range.
#[derive(Debug, Clone, Copy, PartialEq, Eq, Structural)]
pub struct Register {
    invert_p0_3_2: bool,
    invert_p0_1_0: bool,
    invert_p1_11_10: bool,
    invert_p1_9_8: bool,
    invert_p1_7_6: bool,
    invert_p1_5_4: bool,
    invert_p1_3_2: bool,
    invert_p1_2_0: bool,
}

impl Register {
    /// Multi-bit fields fit in their bit ranges.
    #[verifier::type_invariant]
    spec fn fields_fit(self) -> bool {
        true
    }

    /// Raw register value: each field shifted to its bit range.
    pub open spec fn raw(self) -> u8 {
        ((if self.invert_p0_3_2_spec() { 1int } else { 0int }) * 128
            + (if self.invert_p0_1_0_spec() { 1int } else { 0int }) * 64
            + (if self.invert_p1_11_10_spec() { 1int } else { 0int }) * 32
            + (if self.invert_p1_9_8_spec() { 1int } else { 0int }) * 16
            + (if self.invert_p1_7_6_spec() { 1int } else { 0int }) * 8
            + (if self.invert_p1_5_4_spec() { 1int } else { 0int }) * 4
            + (if self.invert_p1_3_2_spec() { 1int } else { 0int }) * 2
            + (if self.invert_p1_2_0_spec() { 1int } else { 0int }) * 1) as u8
    }

    /// Value of the field `invert_p0_3_2`.
    pub closed spec fn invert_p0_3_2_spec(self) -> bool {
        self.invert_p0_3_2
    }

    /// Value of the field `invert_p0_1_0`.
    pub closed spec fn invert_p0_1_0_spec(self) -> bool {
        self.invert_p0_1_0
    }

    /// Value of the field `invert_p1_11_10`.
    pub closed spec fn invert_p1_11_10_spec(self) -> bool {
        self.invert_p1_11_10
    }

    /// Value of the field `invert_p1_9_8`.
    pub closed spec fn invert_p1_9_8_spec(self) -> bool {
        self.invert_p1_9_8
    }

    /// Value of the field `invert_p1_7_6`.
    pub closed spec fn invert_p1_7_6_spec(self) -> bool {
        self.invert_p1_7_6
    }

    /// Value of the field `invert_p1_5_4`.
    pub closed spec fn invert_p1_5_4_spec(self) -> bool {
        self.invert_p1_5_4
    }

    /// Value of the field `invert_p1_3_2`.
    pub closed spec fn invert_p1_3_2_spec(self) -> bool {
        self.invert_p1_3_2
    }

    /// Value of the field `invert_p1_2_0`.
    pub closed spec fn invert_p1_2_0_spec(self) -> bool {
        self.invert_p1_2_0
    }

    /// The register value 0.
    pub fn zero() -> (r: Self)
        ensures
            r.raw() == 0,
            !r.invert_p0_3_2_spec(),
            !r.invert_p0_1_0_spec(),
            !r.invert_p1_11_10_spec(),
            !r.invert_p1_9_8_spec(),
            !r.invert_p1_7_6_spec(),
            !r.invert_p1_5_4_spec(),
            !r.invert_p1_3_2_spec(),
            !r.invert_p1_2_0_spec(),
    {
        Register {
            invert_p0_3_2: false,
            invert_p0_1_0: false,
            invert_p1_11_10: false,
            invert_p1_9_8: false,
            invert_p1_7_6: false,
            invert_p1_5_4: false,
            invert_p1_3_2: false,
            invert_p1_2_0: false,
        }
    }

    /// Decodes a raw register value into its fields.
    pub fn new_with_raw_value(raw: u8) -> (r: Self)
        ensures
            r.invert_p0_3_2_spec() == crate::bits::bit_of(raw, 7),
            r.invert_p0_1_0_spec() == crate::bits::bit_of(raw, 6),
            r.invert_p1_11_10_spec() == crate::bits::bit_of(raw, 5),
            r.invert_p1_9_8_spec() == crate::bits::bit_of(raw, 4),
            r.invert_p1_7_6_spec() == crate::bits::bit_of(raw, 3),
            r.invert_p1_5_4_spec() == crate::bits::bit_of(raw, 2),
            r.invert_p1_3_2_spec() == crate::bits::bit_of(raw, 1),
            r.invert_p1_2_0_spec() == crate::bits::bit_of(raw, 0),
    {
        proof {
            crate::bits::lemma_shr_and_one_is_bit(raw, 7);
            crate::bits::lemma_shr_and_one_is_bit(raw, 6);
            crate::bits::lemma_shr_and_one_is_bit(raw, 5);
            crate::bits::lemma_shr_and_one_is_bit(raw, 4);
            crate::bits::lemma_shr_and_one_is_bit(raw, 3);
            crate::bits::lemma_shr_and_one_is_bit(raw, 2);
            crate::bits::lemma_shr_and_one_is_bit(raw, 1);
            crate::bits::lemma_shr_and_one_is_bit(raw, 0);
            vstd::arithmetic::power2::lemma2_to64();
        }
        Register {
            invert_p0_3_2: (raw >> 7u8) & 1 == 1,
            invert_p0_1_0: (raw >> 6u8) & 1 == 1,
            invert_p1_11_10: (raw >> 5u8) & 1 == 1,
            invert_p1_9_8: (raw >> 4u8) & 1 == 1,
            invert_p1_7_6: (raw >> 3u8) & 1 == 1,
            invert_p1_5_4: (raw >> 2u8) & 1 == 1,
            invert_p1_3_2: (raw >> 1u8) & 1 == 1,
            invert_p1_2_0: (raw >> 0u8) & 1 == 1,
        }
    }

    /// Raw register value.
    pub fn raw_value(&self) -> (r: u8)
        ensures
            r == self.raw(),
    {
        proof {
            use_type_invariant(self);
        }
        let mut raw: u8 = 0;
        if self.invert_p1_2_0 {
            raw = raw + 1;
        }
        if self.invert_p1_3_2 {
            raw = raw + 2;
        }
        if self.invert_p1_5_4 {
            raw = raw + 4;
        }
        if self.invert_p1_7_6 {
            raw = raw + 8;
        }
        if self.invert_p1_9_8 {
            raw = raw + 16;
        }
        if self.invert_p1_11_10 {
            raw = raw + 32;
        }
        if self.invert_p0_1_0 {
            raw = raw + 64;
        }
        if self.invert_p0_3_2 {
            raw = raw + 128;
        }
        raw
    }

    /// Invert P0\[3:2\]
    pub fn invert_p0_3_2(&self) -> (r: bool)
        ensures
            r == self.invert_p0_3_2_spec(),
    {
        self.invert_p0_3_2
    }

    /// The register with the field `invert_p0_3_2` set to `value` and the other fields unchanged.
    pub fn with_invert_p0_3_2(self, value: bool) -> (r: Self)
        ensures
            r.invert_p0_3_2_spec() == value,
            r.invert_p0_1_0_spec() == self.invert_p0_1_0_spec(),
            r.invert_p1_11_10_spec() == self.invert_p1_11_10_spec(),
            r.invert_p1_9_8_spec() == self.invert_p1_9_8_spec(),
            r.invert_p1_7_6_spec() == self.invert_p1_7_6_spec(),
            r.invert_p1_5_4_spec() == self.invert_p1_5_4_spec(),
            r.invert_p1_3_2_spec() == self.invert_p1_3_2_spec(),
            r.invert_p1_2_0_spec() == self.invert_p1_2_0_spec(),
    {
        proof {
            use_type_invariant(self);
        }
        Register { invert_p0_3_2: value, ..self }
    }

    /// Invert P0\[1:0\]
    pub fn invert_p0_1_0(&self) -> (r: bool)
        ensures
            r == self.invert_p0_1_0_spec(),
    {
        self.invert_p0_1_0
    }

    /// The register with the field `invert_p0_1_0` set to `value` and the other fields unchanged.
    pub fn with_invert_p0_1_0(self, value: bool) -> (r: Self)
        ensures
            r.invert_p0_1_0_spec() == value,
            r.invert_p0_3_2_spec() == self.invert_p0_3_2_spec(),
            r.invert_p1_11_10_spec() == self.invert_p1_11_10_spec(),
            r.invert_p1_9_8_spec() == self.invert_p1_9_8_spec(),
            r.invert_p1_7_6_spec() == self.invert_p1_7_6_spec(),
            r.invert_p1_5_4_spec() == self.invert_p1_5_4_spec(),
            r.invert_p1_3_2_spec() == self.invert_p1_3_2_spec(),
            r.invert_p1_2_0_spec() == self.invert_p1_2_0_spec(),
    {
        proof {
            use_type_invariant(self);
        }
        Register { invert_p0_1_0: value, ..self }
    }

    /// Invert P1\[11:10\]
    pub fn invert_p1_11_10(&self) -> (r: bool)
        ensures
            r == self.invert_p1_11_10_spec(),
    {
        self.invert_p1_11_10
    }

    /// The register with the field `invert_p1_11_10` set to `value` and the other fields unchanged.
    pub fn with_invert_p1_11_10(self, value: bool) -> (r: Self)
        ensures
            r.invert_p1_11_10_spec() == value,
            r.invert_p0_3_2_spec() == self.invert_p0_3_2_spec(),
            r.invert_p0_1_0_spec() == self.invert_p0_1_0_spec(),
            r.invert_p1_9_8_spec() == self.invert_p1_9_8_spec(),
            r.invert_p1_7_6_spec() == self.invert_p1_7_6_spec(),
            r.invert_p1_5_4_spec() == self.invert_p1_5_4_spec(),
            r.invert_p1_3_2_spec() == self.invert_p1_3_2_spec(),
            r.invert_p1_2_0_spec() == self.invert_p1_2_0_spec(),
    {
        proof {
            use_type_invariant(self);
        }
        Register { invert_p1_11_10: value, ..self }
    }

    /// Invert P1\[9:8\]
    pub fn invert_p1_9_8(&self) -> (r: bool)
        ensures
            r == self.invert_p1_9_8_spec(),
    {
        self.invert_p1_9_8
    }

    /// The register with the field `invert_p1_9_8` set to `value` and the other fields unchanged.
    pub fn with_invert_p1_9_8(self, value: bool) -> (r: Self)
        ensures
            r.invert_p1_9_8_spec() == value,
            r.invert_p0_3_2_spec() == self.invert_p0_3_2_spec(),
            r.invert_p0_1_0_spec() == self.invert_p0_1_0_spec(),
            r.invert_p1_11_10_spec() == self.invert_p1_11_10_spec(),
            r.invert_p1_7_6_spec() == self.invert_p1_7_6_spec(),
            r.invert_p1_5_4_spec() == self.invert_p1_5_4_spec(),
            r.invert_p1_3_2_spec() == self.invert_p1_3_2_spec(),
            r.invert_p1_2_0_spec() == self.invert_p1_2_0_spec(),
    {
        proof {
            use_type_invariant(self);
        }
        Register { invert_p1_9_8: value, ..self }
    }

    /// Invert P1\[7:6\]
    pub fn invert_p1_7_6(&self) -> (r: bool)
        ensures
            r == self.invert_p1_7_6_spec(),
    {
        self.invert_p1_7_6
    }

    /// The register with the field `invert_p1_7_6` set to `value` and the other fields unchanged.
    pub fn with_invert_p1_7_6(self, value: bool) -> (r: Self)
        ensures
            r.invert_p1_7_6_spec() == value,
            r.invert_p0_3_2_spec() == self.invert_p0_3_2_spec(),
            r.invert_p0_1_0_spec() == self.invert_p0_1_0_spec(),
            r.invert_p1_11_10_spec() == self.invert_p1_11_10_spec(),
            r.invert_p1_9_8_spec() == self.invert_p1_9_8_spec(),
            r.invert_p1_5_4_spec() == self.invert_p1_5_4_spec(),
            r.invert_p1_3_2_spec() == self.invert_p1_3_2_spec(),
            r.invert_p1_2_0_spec() == self.invert_p1_2_0_spec(),
    {
        proof {
            use_type_invariant(self);
        }
        Register { invert_p1_7_6: value, ..self }
    }

    /// Invert P1\[5:4\]
    pub fn invert_p1_5_4(&self) -> (r: bool)
        ensures
            r == self.invert_p1_5_4_spec(),
    {
        self.invert_p1_5_4
    }

    /// The register with the field `invert_p1_5_4` set to `value` and the other fields unchanged.
    pub fn with_invert_p1_5_4(self, value: bool) -> (r: Self)
        ensures
            r.invert_p1_5_4_spec() == value,
            r.invert_p0_3_2_spec() == self.invert_p0_3_2_spec(),
            r.invert_p0_1_0_spec() == self.invert_p0_1_0_spec(),
            r.invert_p1_11_10_spec() == self.invert_p1_11_10_spec(),
            r.invert_p1_9_8_spec() == self.invert_p1_9_8_spec(),
            r.invert_p1_7_6_spec() == self.invert_p1_7_6_spec(),
            r.invert_p1_3_2_spec() == self.invert_p1_3_2_spec(),
            r.invert_p1_2_0_spec() == self.invert_p1_2_0_spec(),
    {
        proof {
            use_type_invariant(self);
        }
        Register { invert_p1_5_4: value, ..self }
    }

    /// Invert P1\[3:2\]
    pub fn invert_p1_3_2(&self) -> (r: bool)
        ensures
            r == self.invert_p1_3_2_spec(),
    {
        self.invert_p1_3_2
    }

    /// The register with the field `invert_p1_3_2` set to `value` and the other fields unchanged.
    pub fn with_invert_p1_3_2(self, value: bool) -> (r: Self)
        ensures
            r.invert_p1_3_2_spec() == value,
            r.invert_p0_3_2_spec() == self.invert_p0_3_2_spec(),
            r.invert_p0_1_0_spec() == self.invert_p0_1_0_spec(),
            r.invert_p1_11_10_spec() == self.invert_p1_11_10_spec(),
            r.invert_p1_9_8_spec() == self.invert_p1_9_8_spec(),
            r.invert_p1_7_6_spec() == self.invert_p1_7_6_spec(),
            r.invert_p1_5_4_spec() == self.invert_p1_5_4_spec(),
            r.invert_p1_2_0_spec() == self.invert_p1_2_0_spec(),
    {
        proof {
            use_type_invariant(self);
        }
        Register { invert_p1_3_2: value, ..self }
    }

    /// Invert P1\[2:0\]
    pub fn invert_p1_2_0(&self) -> (r: bool)
        ensures
            r == self.invert_p1_2_0_spec(),
    {
        self.invert_p1_2_0
    }

    /// The register with the field `invert_p1_2_0` set to `value` and the other fields unchanged.
    pub fn with_invert_p1_2_0(self, value: bool) -> (r: Self)
        ensures
            r.invert_p1_2_0_spec() == value,
            r.invert_p0_3_2_spec() == self.invert_p0_3_2_spec(),
            r.invert_p0_1_0_spec() == self.invert_p0_1_0_spec(),
            r.invert_p1_11_10_spec() == self.invert_p1_11_10_spec(),
            r.invert_p1_9_8_spec() == self.invert_p1_9_8_spec(),
            r.invert_p1_7_6_spec() == self.invert_p1_7_6_spec(),
            r.invert_p1_5_4_spec() == self.invert_p1_5_4_spec(),
            r.invert_p1_3_2_spec() == self.invert_p1_3_2_spec(),
    {
        proof {
            use_type_invariant(self);
        }
        Register { invert_p1_2_0: value, ..self }
    }
}

} // verus!
