use vstd::prelude::*;

verus! {

/// Register value, one field per bit range.
#[derive(Debug, Clone, Copy, PartialEq, Eq, Structural)]
pub struct Register {
    data_clk_delay: u8,
    rx_data_delay: u8,
}

impl Register {
    /// Multi-bit fields fit in their bit ranges.
    #[verifier::type_invariant]
    spec fn fields_fit(self) -> bool {
        self.data_clk_delay < 16 && self.rx_data_delay < 16
    }

    /// Raw register value: each field shifted to its bit range.
    pub open spec fn raw(self) -> u8 {
        (self.data_clk_delay_spec() as int * 16
            + self.rx_data_delay_spec() as int * 1) as u8
    }

    /// Value of the field `data_clk_delay`.
    pub closed spec fn data_clk_delay_spec(self) -> u8 {
        self.data_clk_delay
    }

    /// Value of the field `rx_data_delay`.
    pub closed spec fn rx_data_delay_spec(self) -> u8 {
        self.rx_data_delay
    }

    /// The register value 0.
    pub fn zero() -> (r: Self)
        ensures
            r.raw() == 0,
            r.data_clk_delay_spec() == 0,
            r.rx_data_delay_spec() == 0,
    {
        Register {
            data_clk_delay: 0,
            rx_data_delay: 0,
        }
    }

    /// Decodes a raw register value into its fields.
    pub fn new_with_raw_value(raw: u8) -> (r: Self)
        ensures
            r.data_clk_delay_spec() == crate::bits::field_of(raw, 4, 4),
            r.rx_data_delay_spec() == crate::bits::field_of(raw, 0, 4),
    {
        proof {
            crate::bits::lemma_shr_and_mask_is_field(raw, 4, 4);
            crate::bits::lemma_shr_and_mask_is_field(raw, 0, 4);
            vstd::arithmetic::power2::lemma2_to64();
        }
        Register {
            data_clk_delay: (raw >> 4u8) & 0xF,
            rx_data_delay: (raw >> 0u8) & 0xF,
        }
    }

    /// Raw register value.
    pub fn raw_value(&self) -> (r: u8)
        ensures
            r == self.raw(),
    {
        proof {
            use_type_invariant(self);
        }
        let mut raw: u8 = 0;
        raw = raw + self.rx_data_delay * 1;
        raw = raw + self.data_clk_delay * 16;
        raw
    }

    /// DATA_CLK Delay<3:0>
    pub fn data_clk_delay(&self) -> (r: u8)
        ensures
            r == self.data_clk_delay_spec(),
            r < 16,
    {
        proof {
            use_type_invariant(self);
        }
        self.data_clk_delay
    }

    /// The register with the field `data_clk_delay` set to `value` and the other fields unchanged.
    pub fn with_data_clk_delay(self, value: u8) -> (r: Self)
        requires
            value < 16,
        ensures
            r.data_clk_delay_spec() == value,
            r.rx_data_delay_spec() == self.rx_data_delay_spec(),
    {
        proof {
            use_type_invariant(self);
        }
        Register { data_clk_delay: value, ..self }
    }

    /// Rx Data Delay<3:0>
    pub fn rx_data_delay(&self) -> (r: u8)
        ensures
            r == self.rx_data_delay_spec(),
            r < 16,
    {
        proof {
            use_type_invariant(self);
        }
        self.rx_data_delay
    }

    /// The register with the field `rx_data_delay` set to `value` and the other fields unchanged.
    pub fn with_rx_data_delay(self, value: u8) -> (r: Self)
        requires
            value < 16,
        ensures
            r.rx_data_delay_spec() == value,
            r.data_clk_delay_spec() == self.data_clk_delay_spec(),
    {
        proof {
            use_type_invariant(self);
        }
        Register { rx_data_delay: value, ..self }
    }
}

} // verus!
