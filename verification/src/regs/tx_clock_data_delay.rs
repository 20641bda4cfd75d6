use vstd::prelude::*;

verus! {

/// Register value, one field per bit range.
#[derive(Debug, Clone, Copy, PartialEq, Eq, Structural)]
pub struct Register {
    fb_clk_delay: u8,
    tx_data_delay: u8,
}

impl Register {
    /// Multi-bit fields fit in their bit ranges.
    #[verifier::type_invariant]
    spec fn fields_fit(self) -> bool {
        self.fb_clk_delay < 16 && self.tx_data_delay < 16
    }

    /// Raw register value: each field shifted to its bit range.
    pub open spec fn raw(self) -> u8 {
        (self.fb_clk_delay_spec() as int * 16
            + self.tx_data_delay_spec() as int * 1) as u8
    }

    /// Value of the field `fb_clk_delay`.
    pub closed spec fn fb_clk_delay_spec(self) -> u8 {
        self.fb_clk_delay
    }

    /// Value of the field `tx_data_delay`.
    pub closed spec fn tx_data_delay_spec(self) -> u8 {
        self.tx_data_delay
    }

    /// The register value 0.
    pub fn zero() -> (r: Self)
        ensures
            r.raw() == 0,
            r.fb_clk_delay_spec() == 0,
            r.tx_data_delay_spec() == 0,
    {
        Register {
            fb_clk_delay: 0,
            tx_data_delay: 0,
        }
    }

    /// Decodes a raw register value into its fields.
    pub fn new_with_raw_value(raw: u8) -> (r: Self)
        ensures
            r.fb_clk_delay_spec() == crate::bits::field_of(raw, 4, 4),
            r.tx_data_delay_spec() == crate::bits::field_of(raw, 0, 4),
    {
        proof {
            crate::bits::lemma_shr_and_mask_is_field(raw, 4, 4);
            crate::bits::lemma_shr_and_mask_is_field(raw, 0, 4);
            vstd::arithmetic::power2::lemma2_to64();
        }
        Register {
            fb_clk_delay: (raw >> 4u8) & 0xF,
            tx_data_delay: (raw >> 0u8) & 0xF,
        }
    }

    /// Raw register value.
    pub fn raw_value(&self) -> (r: u8)
        ensures
            r == self.raw(),
    {
        proof {
            use_type_invariant(self);
        }
        let mut raw: u8 = 0;
        raw = raw + self.tx_data_delay * 1;
        raw = raw + self.fb_clk_delay * 16;
        raw
    }

    /// FB_CLK Delay<3:0>
    pub fn fb_clk_delay(&self) -> (r: u8)
        ensures
            r == self.fb_clk_delay_spec(),
            r < 16,
    {
        proof {
            use_type_invariant(self);
        }
        self.fb_clk_delay
    }

    /// The register with the field `fb_clk_delay` set to `value` and the other fields unchanged.
    pub fn with_fb_clk_delay(self, value: u8) -> (r: Self)
        requires
            value < 16,
        ensures
            r.fb_clk_delay_spec() == value,
            r.tx_data_delay_spec() == self.tx_data_delay_spec(),
    {
        proof {
            use_type_invariant(self);
        }
        Register { fb_clk_delay: value, ..self }
    }

    /// Tx Data Delay<3:0>
    pub fn tx_data_delay(&self) -> (r: u8)
        ensures
            r == self.tx_data_delay_spec(),
            r < 16,
    {
        proof {
            use_type_invariant(self);
        }
        self.tx_data_delay
    }

    /// The register with the field `tx_data_delay` set to `value` and the other fields unchanged.
    pub fn with_tx_data_delay(self, value: u8) -> (r: Self)
        requires
            value < 16,
        ensures
            r.tx_data_delay_spec() == value,
            r.fb_clk_delay_spec() == self.fb_clk_delay_spec(),
    {
        proof {
            use_type_invariant(self);
        }
        Register { tx_data_delay: value, ..self }
    }
}

} // verus!
