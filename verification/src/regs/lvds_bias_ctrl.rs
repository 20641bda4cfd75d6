use vstd::prelude::*;

verus! {

/// Register value, one field per bit range.
#[derive(Debug, Clone, Copy, PartialEq, Eq, Structural)]
pub struct Register {
    clk_out_slew: u8,
    rx_on_chip_term: bool,
    lvds_bypass_bias_r: bool,
    lvds_tx_lo_vcm: bool,
    lvds_bias: u8,
}

impl Register {
    /// Multi-bit fields fit in their bit ranges.
    #[verifier::type_invariant]
    spec fn fields_fit(self) -> bool {
        self.clk_out_slew < 4 && self.lvds_bias < 8
    }

    /// Raw register value: each field shifted to its bit range.
    pub open spec fn raw(self) -> u8 {
        (self.clk_out_slew_spec() as int * 64
            + (if self.rx_on_chip_term_spec() { 1int } else { 0int }) * 32
            + (if self.lvds_bypass_bias_r_spec() { 1int } else { 0int }) * 16
            + (if self.lvds_tx_lo_vcm_spec() { 1int } else { 0int }) * 8
            + self.lvds_bias_spec() as int * 1) as u8
    }

    /// Value of the field `clk_out_slew`.
    pub closed spec fn clk_out_slew_spec(self) -> u8 {
        self.clk_out_slew
    }

    /// Value of the field `rx_on_chip_term`.
    pub closed spec fn rx_on_chip_term_spec(self) -> bool {
        self.rx_on_chip_term
    }

    /// Value of the field `lvds_bypass_bias_r`.
    pub closed spec fn lvds_bypass_bias_r_spec(self) -> bool {
        self.lvds_bypass_bias_r
    }

    /// Value of the field `lvds_tx_lo_vcm`.
    pub closed spec fn lvds_tx_lo_vcm_spec(self) -> bool {
        self.lvds_tx_lo_vcm
    }

    /// Value of the field `lvds_bias`.
    pub closed spec fn lvds_bias_spec(self) -> u8 {
        self.lvds_bias
    }

    /// The register value 0.
    pub fn zero() -> (r: Self)
        ensures
            r.raw() == 0,
            r.clk_out_slew_spec() == 0,
            !r.rx_on_chip_term_spec(),
            !r.lvds_bypass_bias_r_spec(),
            !r.lvds_tx_lo_vcm_spec(),
            r.lvds_bias_spec() == 0,
    {
        Register {
            clk_out_slew: 0,
            rx_on_chip_term: false,
            lvds_bypass_bias_r: false,
            lvds_tx_lo_vcm: false,
            lvds_bias: 0,
        }
    }

    /// Decodes a raw register value into its fields.
    pub fn new_with_raw_value(raw: u8) -> (r: Self)
        ensures
            r.clk_out_slew_spec() == crate::bits::field_of(raw, 6, 2),
            r.rx_on_chip_term_spec() == crate::bits::bit_of(raw, 5),
            r.lvds_bypass_bias_r_spec() == crate::bits::bit_of(raw, 4),
            r.lvds_tx_lo_vcm_spec() == crate::bits::bit_of(raw, 3),
            r.lvds_bias_spec() == crate::bits::field_of(raw, 0, 3),
    {
        proof {
            crate::bits::lemma_shr_and_mask_is_field(raw, 6, 2);
            crate::bits::lemma_shr_and_one_is_bit(raw, 5);
            crate::bits::lemma_shr_and_one_is_bit(raw, 4);
            crate::bits::lemma_shr_and_one_is_bit(raw, 3);
            crate::bits::lemma_shr_and_mask_is_field(raw, 0, 3);
            vstd::arithmetic::power2::lemma2_to64();
        }
        Register {
            clk_out_slew: (raw >> 6u8) & 0x3,
            rx_on_chip_term: (raw >> 5u8) & 1 == 1,
            lvds_bypass_bias_r: (raw >> 4u8) & 1 == 1,
            lvds_tx_lo_vcm: (raw >> 3u8) & 1 == 1,
            lvds_bias: (raw >> 0u8) & 0x7,
        }
    }

    /// Raw register value.
    pub fn raw_value(&self) -> (r: u8)
        ensures
            r == self.raw(),
    {
        proof {
            use_type_invariant(self);
        }
        let mut raw: u8 = 0;
        raw = raw + self.lvds_bias * 1;
        if self.lvds_tx_lo_vcm {
            raw = raw + 8;
        }
        if self.lvds_bypass_bias_r {
            raw = raw + 16;
        }
        if self.rx_on_chip_term {
            raw = raw + 32;
        }
        raw = raw + self.clk_out_slew * 64;
        raw
    }

    /// CLK Out Slew<1:0>
    pub fn clk_out_slew(&self) -> (r: u8)
        ensures
            r == self.clk_out_slew_spec(),
            r < 4,
    {
        proof {
            use_type_invariant(self);
        }
        self.clk_out_slew
    }

    /// The register with the field `clk_out_slew` set to `value` and the other fields unchanged.
    pub fn with_clk_out_slew(self, value: u8) -> (r: Self)
        requires
            value < 4,
        ensures
            r.clk_out_slew_spec() == value,
            r.rx_on_chip_term_spec() == self.rx_on_chip_term_spec(),
            r.lvds_bypass_bias_r_spec() == self.lvds_bypass_bias_r_spec(),
            r.lvds_tx_lo_vcm_spec() == self.lvds_tx_lo_vcm_spec(),
            r.lvds_bias_spec() == self.lvds_bias_spec(),
    {
        proof {
            use_type_invariant(self);
        }
        Register { clk_out_slew: value, ..self }
    }

    /// Rx On Chip Term
    pub fn rx_on_chip_term(&self) -> (r: bool)
        ensures
            r == self.rx_on_chip_term_spec(),
    {
        self.rx_on_chip_term
    }

    /// The register with the field `rx_on_chip_term` set to `value` and the other fields unchanged.
    pub fn with_rx_on_chip_term(self, value: bool) -> (r: Self)
        ensures
            r.rx_on_chip_term_spec() == value,
            r.clk_out_slew_spec() == self.clk_out_slew_spec(),
            r.lvds_bypass_bias_r_spec() == self.lvds_bypass_bias_r_spec(),
            r.lvds_tx_lo_vcm_spec() == self.lvds_tx_lo_vcm_spec(),
            r.lvds_bias_spec() == self.lvds_bias_spec(),
    {
        proof {
            use_type_invariant(self);
        }
        Register { rx_on_chip_term: value, ..self }
    }

    /// Bypass Bias R
    pub fn lvds_bypass_bias_r(&self) -> (r: bool)
        ensures
            r == self.lvds_bypass_bias_r_spec(),
    {
        self.lvds_bypass_bias_r
    }

    /// The register with the field `lvds_bypass_bias_r` set to `value` and the other fields unchanged.
    pub fn with_lvds_bypass_bias_r(self, value: bool) -> (r: Self)
        ensures
            r.lvds_bypass_bias_r_spec() == value,
            r.clk_out_slew_spec() == self.clk_out_slew_spec(),
            r.rx_on_chip_term_spec() == self.rx_on_chip_term_spec(),
            r.lvds_tx_lo_vcm_spec() == self.lvds_tx_lo_vcm_spec(),
            r.lvds_bias_spec() == self.lvds_bias_spec(),
    {
        proof {
            use_type_invariant(self);
        }
        Register { lvds_bypass_bias_r: value, ..self }
    }

    /// LVDS Tx LO VCM
    pub fn lvds_tx_lo_vcm(&self) -> (r: bool)
        ensures
            r == self.lvds_tx_lo_vcm_spec(),
    {
        self.lvds_tx_lo_vcm
    }

    /// The register with the field `lvds_tx_lo_vcm` set to `value` and the other fields unchanged.
    pub fn with_lvds_tx_lo_vcm(self, value: bool) -> (r: Self)
        ensures
            r.lvds_tx_lo_vcm_spec() == value,
            r.clk_out_slew_spec() == self.clk_out_slew_spec(),
            r.rx_on_chip_term_spec() == self.rx_on_chip_term_spec(),
            r.lvds_bypass_bias_r_spec() == self.lvds_bypass_bias_r_spec(),
            r.lvds_bias_spec() == self.lvds_bias_spec(),
    {
        proof {
            use_type_invariant(self);
        }
        Register { lvds_tx_lo_vcm: value, ..self }
    }

    /// LVDS Bias<2:0>
    pub fn lvds_bias(&self) -> (r: u8)
        ensures
            r == self.lvds_bias_spec(),
            r < 8,
    {
        proof {
            use_type_invariant(self);
        }
        self.lvds_bias
    }

    /// The register with the field `lvds_bias` set to `value` and the other fields unchanged.
    pub fn with_lvds_bias(self, value: u8) -> (r: Self)
        requires
            value < 8,
        ensures
            r.lvds_bias_spec() == value,
            r.clk_out_slew_spec() == self.clk_out_slew_spec(),
            r.rx_on_chip_term_spec() == self.rx_on_chip_term_spec(),
            r.lvds_bypass_bias_r_spec() == self.lvds_bypass_bias_r_spec(),
            r.lvds_tx_lo_vcm_spec() == self.lvds_tx_lo_vcm_spec(),
    {
        proof {
            use_type_invariant(self);
        }
        Register { lvds_bias: value, ..self }
    }
}

} // verus!
