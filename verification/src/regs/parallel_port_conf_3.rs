use vstd::prelude::*;

verus! {

#[derive(Debug, Clone, Copy, PartialEq, Eq, Structural)]
pub enum DataRate {
    Single,
    /// DDR, both edges of DATA_CLK are used.
    Double,
}

impl DataRate {
    /// Raw 1 bit register value of the variant.
    pub open spec fn raw(self) -> u8 {
        match self {
            DataRate::Single => 1,
            DataRate::Double => 0,
        }
    }

    /// Raw 1 bit register value of the variant.
    pub fn raw_value(&self) -> (r: u8)
        ensures
            r == self.raw(),
            r < 2,
    {
        match self {
            DataRate::Single => 1,
            DataRate::Double => 0,
        }
    }

    /// Decodes a raw 1 bit register value.
    pub fn new_with_raw_value(value: u8) -> (r: Self)
        requires
            value < 2,
        ensures
            r.raw() == value,
    {
        if value == 1 {
            DataRate::Single
        } else {
            DataRate::Double
        }
    }
}

#[derive(Debug, Clone, Copy, PartialEq, Eq, Structural)]
pub enum Duplex {
    /// Data only flows into both directions.
    Full,
    /// Data only flows into one direction at a time.
    Half,
}

impl Duplex {
    /// Raw 1 bit register value of the variant.
    pub open spec fn raw(self) -> u8 {
        match self {
            Duplex::Full => 0,
            Duplex::Half => 1,
        }
    }

    /// Raw 1 bit register value of the variant.
    pub fn raw_value(&self) -> (r: u8)
        ensures
            r == self.raw(),
            r < 2,
    {
        match self {
            Duplex::Full => 0,
            Duplex::Half => 1,
        }
    }

    /// Decodes a raw 1 bit register value.
    pub fn new_with_raw_value(value: u8) -> (r: Self)
        requires
            value < 2,
        ensures
            r.raw() == value,
    {
        if value == 0 {
            Duplex::Full
        } else {
            Duplex::Half
        }
    }
}

/// Register value, one field per bit range.
#[derive(Debug, Clone, Copy, PartialEq, Eq, Structural)]
pub struct Register {
    fdd_rx_rate_2tx_rate: bool,
    swap_ports: bool,
    data_rate: DataRate,
    lvds_mode: bool,
    duplex_mode: Duplex,
    single_port_mode: bool,
    full_port: bool,
    full_duplex_swap_bits: bool,
}

impl Register {
    /// Multi-bit fields fit in their bit ranges.
    #[verifier::type_invariant]
    spec fn fields_fit(self) -> bool {
        true
    }

    /// Raw register value: each field shifted to its bit range.
    pub open spec fn raw(self) -> u8 {
        ((if self.fdd_rx_rate_2tx_rate_spec() { 1int } else { 0int }) * 128
            + (if self.swap_ports_spec() { 1int } else { 0int }) * 64
            + self.data_rate_spec().raw() as int * 32
            + (if self.lvds_mode_spec() { 1int } else { 0int }) * 16
            + self.duplex_mode_spec().raw() as int * 8
            + (if self.single_port_mode_spec() { 1int } else { 0int }) * 4
            + (if self.full_port_spec() { 1int } else { 0int }) * 2
            + (if self.full_duplex_swap_bits_spec() { 1int } else { 0int }) * 1) as u8
    }

    /// Value of the field `fdd_rx_rate_2tx_rate`.
    pub closed spec fn fdd_rx_rate_2tx_rate_spec(self) -> bool {
        self.fdd_rx_rate_2tx_rate
    }

    /// Value of the field `swap_ports`.
    pub closed spec fn swap_ports_spec(self) -> bool {
        self.swap_ports
    }

    /// Value of the field `data_rate`.
    pub closed spec fn data_rate_spec(self) -> DataRate {
        self.data_rate
    }

    /// Value of the field `lvds_mode`.
    pub closed spec fn lvds_mode_spec(self) -> bool {
        self.lvds_mode
    }

    /// Value of the field `duplex_mode`.
    pub closed spec fn duplex_mode_spec(self) -> Duplex {
        self.duplex_mode
    }

    /// Value of the field `single_port_mode`.
    pub closed spec fn single_port_mode_spec(self) -> bool {
        self.single_port_mode
    }

    /// Value of the field `full_port`.
    pub closed spec fn full_port_spec(self) -> bool {
        self.full_port
    }

    /// Value of the field `full_duplex_swap_bits`.
    pub closed spec fn full_duplex_swap_bits_spec(self) -> bool {
        self.full_duplex_swap_bits
    }

    /// The register value 0.
    pub fn zero() -> (r: Self)
        ensures
            r.raw() == 0,
            !r.fdd_rx_rate_2tx_rate_spec(),
            !r.swap_ports_spec(),
            r.data_rate_spec().raw() == 0,
            !r.lvds_mode_spec(),
            r.duplex_mode_spec().raw() == 0,
            !r.single_port_mode_spec(),
            !r.full_port_spec(),
            !r.full_duplex_swap_bits_spec(),
    {
        Register {
            fdd_rx_rate_2tx_rate: false,
            swap_ports: false,
            data_rate: DataRate::new_with_raw_value(0),
            lvds_mode: false,
            duplex_mode: Duplex::new_with_raw_value(0),
            single_port_mode: false,
            full_port: false,
            full_duplex_swap_bits: false,
        }
    }

    /// Decodes a raw register value into its fields.
    pub fn new_with_raw_value(raw: u8) -> (r: Self)
        ensures
            r.fdd_rx_rate_2tx_rate_spec() == crate::bits::bit_of(raw, 7),
            r.swap_ports_spec() == crate::bits::bit_of(raw, 6),
            r.data_rate_spec().raw() == crate::bits::field_of(raw, 5, 1),
            r.lvds_mode_spec() == crate::bits::bit_of(raw, 4),
            r.duplex_mode_spec().raw() == crate::bits::field_of(raw, 3, 1),
            r.single_port_mode_spec() == crate::bits::bit_of(raw, 2),
            r.full_port_spec() == crate::bits::bit_of(raw, 1),
            r.full_duplex_swap_bits_spec() == crate::bits::bit_of(raw, 0),
    {
        proof {
            crate::bits::lemma_shr_and_one_is_bit(raw, 7);
            crate::bits::lemma_shr_and_one_is_bit(raw, 6);
            crate::bits::lemma_shr_and_mask_is_field(raw, 5, 1);
            crate::bits::lemma_shr_and_one_is_bit(raw, 4);
            crate::bits::lemma_shr_and_mask_is_field(raw, 3, 1);
            crate::bits::lemma_shr_and_one_is_bit(raw, 2);
            crate::bits::lemma_shr_and_one_is_bit(raw, 1);
            crate::bits::lemma_shr_and_one_is_bit(raw, 0);
            vstd::arithmetic::power2::lemma2_to64();
        }
        Register {
            fdd_rx_rate_2tx_rate: (raw >> 7u8) & 1 == 1,
            swap_ports: (raw >> 6u8) & 1 == 1,
            data_rate: DataRate::new_with_raw_value((raw >> 5u8) & 0x1),
            lvds_mode: (raw >> 4u8) & 1 == 1,
            duplex_mode: Duplex::new_with_raw_value((raw >> 3u8) & 0x1),
            single_port_mode: (raw >> 2u8) & 1 == 1,
            full_port: (raw >> 1u8) & 1 == 1,
            full_duplex_swap_bits: (raw >> 0u8) & 1 == 1,
        }
    }

    /// Raw register value.
    pub fn raw_value(&self) -> (r: u8)
        ensures
            r == self.raw(),
    {
        proof {
            use_type_invariant(self);
        }
        let mut raw: u8 = 0;
        if self.full_duplex_swap_bits {
            raw = raw + 1;
        }
        if self.full_port {
            raw = raw + 2;
        }
        if self.single_port_mode {
            raw = raw + 4;
        }
        raw = raw + self.duplex_mode.raw_value() * 8;
        if self.lvds_mode {
            raw = raw + 16;
        }
        raw = raw + self.data_rate.raw_value() * 32;
        if self.swap_ports {
            raw = raw + 64;
        }
        if self.fdd_rx_rate_2tx_rate {
            raw = raw + 128;
        }
        raw
    }

    /// FDD Rx Rate = 2*Tx Rate. Can only be set in full duplex mode.
    pub fn fdd_rx_rate_2tx_rate(&self) -> (r: bool)
        ensures
            r == self.fdd_rx_rate_2tx_rate_spec(),
    {
        self.fdd_rx_rate_2tx_rate
    }

    /// The register with the field `fdd_rx_rate_2tx_rate` set to `value` and the other fields unchanged.
    pub fn with_fdd_rx_rate_2tx_rate(self, value: bool) -> (r: Self)
        ensures
            r.fdd_rx_rate_2tx_rate_spec() == value,
            r.swap_ports_spec() == self.swap_ports_spec(),
            r.data_rate_spec() == self.data_rate_spec(),
            r.lvds_mode_spec() == self.lvds_mode_spec(),
            r.duplex_mode_spec() == self.duplex_mode_spec(),
            r.single_port_mode_spec() == self.single_port_mode_spec(),
            r.full_port_spec() == self.full_port_spec(),
            r.full_duplex_swap_bits_spec() == self.full_duplex_swap_bits_spec(),
    {
        proof {
            use_type_invariant(self);
        }
        Register { fdd_rx_rate_2tx_rate: value, ..self }
    }

    /// Swap Ports 0 and 1. Must be clear for LVDS mode.
    pub fn swap_ports(&self) -> (r: bool)
        ensures
            r == self.swap_ports_spec(),
    {
        self.swap_ports
    }

    /// The register with the field `swap_ports` set to `value` and the other fields unchanged.
    pub fn with_swap_ports(self, value: bool) -> (r: Self)
        ensures
            r.swap_ports_spec() == value,
            r.fdd_rx_rate_2tx_rate_spec() == self.fdd_rx_rate_2tx_rate_spec(),
            r.data_rate_spec() == self.data_rate_spec(),
            r.lvds_mode_spec() == self.lvds_mode_spec(),
            r.duplex_mode_spec() == self.duplex_mode_spec(),
            r.single_port_mode_spec() == self.single_port_mode_spec(),
            r.full_port_spec() == self.full_port_spec(),
            r.full_duplex_swap_bits_spec() == self.full_duplex_swap_bits_spec(),
    {
        proof {
            use_type_invariant(self);
        }
        Register { swap_ports: value, ..self }
    }

    /// Single Data Rate
    pub fn data_rate(&self) -> (r: DataRate)
        ensures
            r == self.data_rate_spec(),
    {
        self.data_rate
    }

    /// The register with the field `data_rate` set to `value` and the other fields unchanged.
    pub fn with_data_rate(self, value: DataRate) -> (r: Self)
        ensures
            r.data_rate_spec() == value,
            r.fdd_rx_rate_2tx_rate_spec() == self.fdd_rx_rate_2tx_rate_spec(),
            r.swap_ports_spec() == self.swap_ports_spec(),
            r.lvds_mode_spec() == self.lvds_mode_spec(),
            r.duplex_mode_spec() == self.duplex_mode_spec(),
            r.single_port_mode_spec() == self.single_port_mode_spec(),
            r.full_port_spec() == self.full_port_spec(),
            r.full_duplex_swap_bits_spec() == self.full_duplex_swap_bits_spec(),
    {
        proof {
            use_type_invariant(self);
        }
        Register { data_rate: value, ..self }
    }

    /// LVDS Mode
    pub fn lvds_mode(&self) -> (r: bool)
        ensures
            r == self.lvds_mode_spec(),
    {
        self.lvds_mode
    }

    /// The register with the field `lvds_mode` set to `value` and the other fields unchanged.
    pub fn with_lvds_mode(self, value: bool) -> (r: Self)
        ensures
            r.lvds_mode_spec() == value,
            r.fdd_rx_rate_2tx_rate_spec() == self.fdd_rx_rate_2tx_rate_spec(),
            r.swap_ports_spec() == self.swap_ports_spec(),
            r.data_rate_spec() == self.data_rate_spec(),
            r.duplex_mode_spec() == self.duplex_mode_spec(),
            r.single_port_mode_spec() == self.single_port_mode_spec(),
            r.full_port_spec() == self.full_port_spec(),
            r.full_duplex_swap_bits_spec() == self.full_duplex_swap_bits_spec(),
    {
        proof {
            use_type_invariant(self);
        }
        Register { lvds_mode: value, ..self }
    }

    /// Half Duplex Mode
    pub fn duplex_mode(&self) -> (r: Duplex)
        ensures
            r == self.duplex_mode_spec(),
    {
        self.duplex_mode
    }

    /// The register with the field `duplex_mode` set to `value` and the other fields unchanged.
    pub fn with_duplex_mode(self, value: Duplex) -> (r: Self)
        ensures
            r.duplex_mode_spec() == value,
            r.fdd_rx_rate_2tx_rate_spec() == self.fdd_rx_rate_2tx_rate_spec(),
            r.swap_ports_spec() == self.swap_ports_spec(),
            r.data_rate_spec() == self.data_rate_spec(),
            r.lvds_mode_spec() == self.lvds_mode_spec(),
            r.single_port_mode_spec() == self.single_port_mode_spec(),
            r.full_port_spec() == self.full_port_spec(),
            r.full_duplex_swap_bits_spec() == self.full_duplex_swap_bits_spec(),
    {
        proof {
            use_type_invariant(self);
        }
        Register { duplex_mode: value, ..self }
    }

    /// Single Port Mode
    pub fn single_port_mode(&self) -> (r: bool)
        ensures
            r == self.single_port_mode_spec(),
    {
        self.single_port_mode
    }

    /// The register with the field `single_port_mode` set to `value` and the other fields unchanged.
    pub fn with_single_port_mode(self, value: bool) -> (r: Self)
        ensures
            r.single_port_mode_spec() == value,
            r.fdd_rx_rate_2tx_rate_spec() == self.fdd_rx_rate_2tx_rate_spec(),
            r.swap_ports_spec() == self.swap_ports_spec(),
            r.data_rate_spec() == self.data_rate_spec(),
            r.lvds_mode_spec() == self.lvds_mode_spec(),
            r.duplex_mode_spec() == self.duplex_mode_spec(),
            r.full_port_spec() == self.full_port_spec(),
            r.full_duplex_swap_bits_spec() == self.full_duplex_swap_bits_spec(),
    {
        proof {
            use_type_invariant(self);
        }
        Register { single_port_mode: value, ..self }
    }

    /// Full Port, used for dual port full duplex mode (CMOS)
    ///
    /// Used only in full duplex mode and dual port mode.
    /// Setting this bit forces the receivers to be on one port
    /// and the transmitters to be on the on the other port. Clearing the
    /// bit mixes receivers and transmitters on each port.
    pub fn full_port(&self) -> (r: bool)
        ensures
            r == self.full_port_spec(),
    {
        self.full_port
    }

    /// The register with the field `full_port` set to `value` and the other fields unchanged.
    pub fn with_full_port(self, value: bool) -> (r: Self)
        ensures
            r.full_port_spec() == value,
            r.fdd_rx_rate_2tx_rate_spec() == self.fdd_rx_rate_2tx_rate_spec(),
            r.swap_ports_spec() == self.swap_ports_spec(),
            r.data_rate_spec() == self.data_rate_spec(),
            r.lvds_mode_spec() == self.lvds_mode_spec(),
            r.duplex_mode_spec() == self.duplex_mode_spec(),
            r.single_port_mode_spec() == self.single_port_mode_spec(),
            r.full_duplex_swap_bits_spec() == self.full_duplex_swap_bits_spec(),
    {
        proof {
            use_type_invariant(self);
        }
        Register { full_port: value, ..self }
    }

    /// Full Duplex Swap Bits.
    ///
    /// This bit toggles between the bits used for receive data and those
    /// used for transmit data with one exception. If the FDD Alt Word
    /// Order bit (0x011\[D7\]) of parallel port configuration 2 is set, then the effect is to
    /// swap the most significant 6 bits with the least significant 6 bits. It is not always
    /// valid to set this bit.
    pub fn full_duplex_swap_bits(&self) -> (r: bool)
        ensures
            r == self.full_duplex_swap_bits_spec(),
    {
        self.full_duplex_swap_bits
    }

    /// The register with the field `full_duplex_swap_bits` set to `value` and the other fields unchanged.
    pub fn with_full_duplex_swap_bits(self, value: bool) -> (r: Self)
        ensures
            r.full_duplex_swap_bits_spec() == value,
            r.fdd_rx_rate_2tx_rate_spec() == self.fdd_rx_rate_2tx_rate_spec(),
            r.swap_ports_spec() == self.swap_ports_spec(),
            r.data_rate_spec() == self.data_rate_spec(),
            r.lvds_mode_spec() == self.lvds_mode_spec(),
            r.duplex_mode_spec() == self.duplex_mode_spec(),
            r.single_port_mode_spec() == self.single_port_mode_spec(),
            r.full_port_spec() == self.full_port_spec(),
    {
        proof {
            use_type_invariant(self);
        }
        Register { full_duplex_swap_bits: value, ..self }
    }
}

} // verus!
