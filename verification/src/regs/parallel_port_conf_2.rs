use vstd::prelude::*;

verus! {

/// Register value, one field per bit range.
#[derive(Debug, Clone, Copy, PartialEq, Eq, Structural)]
pub struct Register {
    fdd_alt_word_order: bool,
    invert_rx1: bool,
    invert_rx2: bool,
    invert_tx1: bool,
    invert_tx2: bool,
    invert_rx_frame: bool,
    delay_rx_data: u8,
}

impl Register {
    /// Multi-bit fields fit in their bit ranges.
    #[verifier::type_invariant]
    spec fn fields_fit(self) -> bool {
        self.delay_rx_data < 4
    }

    /// Raw register value: each field shifted to its bit range.
    pub open spec fn raw(self) -> u8 {
        ((if self.fdd_alt_word_order_spec() { 1int } else { 0int }) * 128
            + (if self.invert_rx1_spec() { 1int } else { 0int }) * 64
            + (if self.invert_rx2_spec() { 1int } else { 0int }) * 32
            + (if self.invert_tx1_spec() { 1int } else { 0int }) * 16
            + (if self.invert_tx2_spec() { 1int } else { 0int }) * 8
            + (if self.invert_rx_frame_spec() { 1int } else { 0int }) * 4
            + self.delay_rx_data_spec() as int * 1) as u8
    }

    /// Value of the field `fdd_alt_word_order`.
    pub closed spec fn fdd_alt_word_order_spec(self) -> bool {
        self.fdd_alt_word_order
    }

    /// Value of the field `invert_rx1`.
    pub closed spec fn invert_rx1_spec(self) -> bool {
        self.invert_rx1
    }

    /// Value of the field `invert_rx2`.
    pub closed spec fn invert_rx2_spec(self) -> bool {
        self.invert_rx2
    }

    /// Value of the field `invert_tx1`.
    pub closed spec fn invert_tx1_spec(self) -> bool {
        self.invert_tx1
    }

    /// Value of the field `invert_tx2`.
    pub closed spec fn invert_tx2_spec(self) -> bool {
        self.invert_tx2
    }

    /// Value of the field `invert_rx_frame`.
    pub closed spec fn invert_rx_frame_spec(self) -> bool {
        self.invert_rx_frame
    }

    /// Value of the field `delay_rx_data`.
    pub closed spec fn delay_rx_data_spec(self) -> u8 {
        self.delay_rx_data
    }

    /// The register value 0.
    pub fn zero() -> (r: Self)
        ensures
            r.raw() == 0,
            !r.fdd_alt_word_order_spec(),
            !r.invert_rx1_spec(),
            !r.invert_rx2_spec(),
            !r.invert_tx1_spec(),
            !r.invert_tx2_spec(),
            !r.invert_rx_frame_spec(),
            r.delay_rx_data_spec() == 0,
    {
        Register {
            fdd_alt_word_order: false,
            invert_rx1: false,
            invert_rx2: false,
            invert_tx1: false,
            invert_tx2: false,
            invert_rx_frame: false,
            delay_rx_data: 0,
        }
    }

    /// Decodes a raw register value into its fields.
    pub fn new_with_raw_value(raw: u8) -> (r: Self)
        ensures
            r.fdd_alt_word_order_spec() == crate::bits::bit_of(raw, 7),
            r.invert_rx1_spec() == crate::bits::bit_of(raw, 6),
            r.invert_rx2_spec() == crate::bits::bit_of(raw, 5),
            r.invert_tx1_spec() == crate::bits::bit_of(raw, 4),
            r.invert_tx2_spec() == crate::bits::bit_of(raw, 3),
            r.invert_rx_frame_spec() == crate::bits::bit_of(raw, 2),
            r.delay_rx_data_spec() == crate::bits::field_of(raw, 0, 2),
    {
        proof {
            crate::bits::lemma_shr_and_one_is_bit(raw, 7);
            crate::bits::lemma_shr_and_one_is_bit(raw, 6);
            crate::bits::lemma_shr_and_one_is_bit(raw, 5);
            crate::bits::lemma_shr_and_one_is_bit(raw, 4);
            crate::bits::lemma_shr_and_one_is_bit(raw, 3);
            crate::bits::lemma_shr_and_one_is_bit(raw, 2);
            crate::bits::lemma_shr_and_mask_is_field(raw, 0, 2);
            vstd::arithmetic::power2::lemma2_to64();
        }
        Register {
            fdd_alt_word_order: (raw >> 7u8) & 1 == 1,
            invert_rx1: (raw >> 6u8) & 1 == 1,
            invert_rx2: (raw >> 5u8) & 1 == 1,
            invert_tx1: (raw >> 4u8) & 1 == 1,
            invert_tx2: (raw >> 3u8) & 1 == 1,
            invert_rx_frame: (raw >> 2u8) & 1 == 1,
            delay_rx_data: (raw >> 0u8) & 0x3,
        }
    }

    /// Raw register value.
    pub fn raw_value(&self) -> (r: u8)
        ensures
            r == self.raw(),
    {
        proof {
            use_type_invariant(self);
        }
        let mut raw: u8 = 0;
        raw = raw + self.delay_rx_data * 1;
        if self.invert_rx_frame {
            raw = raw + 4;
        }
        if self.invert_tx2 {
            raw = raw + 8;
        }
        if self.invert_tx1 {
            raw = raw + 16;
        }
        if self.invert_rx2 {
            raw = raw + 32;
        }
        if self.invert_rx1 {
            raw = raw + 64;
        }
        if self.fdd_alt_word_order {
            raw = raw + 128;
        }
        raw
    }

    /// FDD Alt Word Order
    pub fn fdd_alt_word_order(&self) -> (r: bool)
        ensures
            r == self.fdd_alt_word_order_spec(),
    {
        self.fdd_alt_word_order
    }

    /// The register with the field `fdd_alt_word_order` set to `value` and the other fields unchanged.
    pub fn with_fdd_alt_word_order(self, value: bool) -> (r: Self)
        ensures
            r.fdd_alt_word_order_spec() == value,
            r.invert_rx1_spec() == self.invert_rx1_spec(),
            r.invert_rx2_spec() == self.invert_rx2_spec(),
            r.invert_tx1_spec() == self.invert_tx1_spec(),
            r.invert_tx2_spec() == self.invert_tx2_spec(),
            r.invert_rx_frame_spec() == self.invert_rx_frame_spec(),
            r.delay_rx_data_spec() == self.delay_rx_data_spec(),
    {
        proof {
            use_type_invariant(self);
        }
        Register { fdd_alt_word_order: value, ..self }
    }

    /// Invert Rx1
    pub fn invert_rx1(&self) -> (r: bool)
        ensures
            r == self.invert_rx1_spec(),
    {
        self.invert_rx1
    }

    /// The register with the field `invert_rx1` set to `value` and the other fields unchanged.
    pub fn with_invert_rx1(self, value: bool) -> (r: Self)
        ensures
            r.invert_rx1_spec() == value,
            r.fdd_alt_word_order_spec() == self.fdd_alt_word_order_spec(),
            r.invert_rx2_spec() == self.invert_rx2_spec(),
            r.invert_tx1_spec() == self.invert_tx1_spec(),
            r.invert_tx2_spec() == self.invert_tx2_spec(),
            r.invert_rx_frame_spec() == self.invert_rx_frame_spec(),
            r.delay_rx_data_spec() == self.delay_rx_data_spec(),
    {
        proof {
            use_type_invariant(self);
        }
        Register { invert_rx1: value, ..self }
    }

    /// Invert Rx2
    pub fn invert_rx2(&self) -> (r: bool)
        ensures
            r == self.invert_rx2_spec(),
    {
        self.invert_rx2
    }

    /// The register with the field `invert_rx2` set to `value` and the other fields unchanged.
    pub fn with_invert_rx2(self, value: bool) -> (r: Self)
        ensures
            r.invert_rx2_spec() == value,
            r.fdd_alt_word_order_spec() == self.fdd_alt_word_order_spec(),
            r.invert_rx1_spec() == self.invert_rx1_spec(),
            r.invert_tx1_spec() == self.invert_tx1_spec(),
            r.invert_tx2_spec() == self.invert_tx2_spec(),
            r.invert_rx_frame_spec() == self.invert_rx_frame_spec(),
            r.delay_rx_data_spec() == self.delay_rx_data_spec(),
    {
        proof {
            use_type_invariant(self);
        }
        Register { invert_rx2: value, ..self }
    }

    /// Invert Tx1
    pub fn invert_tx1(&self) -> (r: bool)
        ensures
            r == self.invert_tx1_spec(),
    {
        self.invert_tx1
    }

    /// The register with the field `invert_tx1` set to `value` and the other fields unchanged.
    pub fn with_invert_tx1(self, value: bool) -> (r: Self)
        ensures
            r.invert_tx1_spec() == value,
            r.fdd_alt_word_order_spec() == self.fdd_alt_word_order_spec(),
            r.invert_rx1_spec() == self.invert_rx1_spec(),
            r.invert_rx2_spec() == self.invert_rx2_spec(),
            r.invert_tx2_spec() == self.invert_tx2_spec(),
            r.invert_rx_frame_spec() == self.invert_rx_frame_spec(),
            r.delay_rx_data_spec() == self.delay_rx_data_spec(),
    {
        proof {
            use_type_invariant(self);
        }
        Register { invert_tx1: value, ..self }
    }

    /// Invert Tx2
    pub fn invert_tx2(&self) -> (r: bool)
        ensures
            r == self.invert_tx2_spec(),
    {
        self.invert_tx2
    }

    /// The register with the field `invert_tx2` set to `value` and the other fields unchanged.
    pub fn with_invert_tx2(self, value: bool) -> (r: Self)
        ensures
            r.invert_tx2_spec() == value,
            r.fdd_alt_word_order_spec() == self.fdd_alt_word_order_spec(),
            r.invert_rx1_spec() == self.invert_rx1_spec(),
            r.invert_rx2_spec() == self.invert_rx2_spec(),
            r.invert_tx1_spec() == self.invert_tx1_spec(),
            r.invert_rx_frame_spec() == self.invert_rx_frame_spec(),
            r.delay_rx_data_spec() == self.delay_rx_data_spec(),
    {
        proof {
            use_type_invariant(self);
        }
        Register { invert_tx2: value, ..self }
    }

    /// Invert Rx Frame
    pub fn invert_rx_frame(&self) -> (r: bool)
        ensures
            r == self.invert_rx_frame_spec(),
    {
        self.invert_rx_frame
    }

    /// The register with the field `invert_rx_frame` set to `value` and the other fields unchanged.
    pub fn with_invert_rx_frame(self, value: bool) -> (r: Self)
        ensures
            r.invert_rx_frame_spec() == value,
            r.fdd_alt_word_order_spec() == self.fdd_alt_word_order_spec(),
            r.invert_rx1_spec() == self.invert_rx1_spec(),
            r.invert_rx2_spec() == self.invert_rx2_spec(),
            r.invert_tx1_spec() == self.invert_tx1_spec(),
            r.invert_tx2_spec() == self.invert_tx2_spec(),
            r.delay_rx_data_spec() == self.delay_rx_data_spec(),
    {
        proof {
            use_type_invariant(self);
        }
        Register { invert_rx_frame: value, ..self }
    }

    /// Delay Rx Data\[1:0\]
    pub fn delay_rx_data(&self) -> (r: u8)
        ensures
            r == self.delay_rx_data_spec(),
            r < 4,
    {
        proof {
            use_type_invariant(self);
        }
        self.delay_rx_data
    }

    /// The register with the field `delay_rx_data` set to `value` and the other fields unchanged.
    pub fn with_delay_rx_data(self, value: u8) -> (r: Self)
        requires
            value < 4,
        ensures
            r.delay_rx_data_spec() == value,
            r.fdd_alt_word_order_spec() == self.fdd_alt_word_order_spec(),
            r.invert_rx1_spec() == self.invert_rx1_spec(),
            r.invert_rx2_spec() == self.invert_rx2_spec(),
            r.invert_tx1_spec() == self.invert_tx1_spec(),
            r.invert_tx2_spec() == self.invert_tx2_spec(),
            r.invert_rx_frame_spec() == self.invert_rx_frame_spec(),
    {
        proof {
            use_type_invariant(self);
        }
        Register { delay_rx_data: value, ..self }
    }
}

} // verus!
