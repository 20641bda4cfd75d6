use vstd::prelude::*;

verus! {

/// Register value, one field per bit range.
#[derive(Debug, Clone, Copy, PartialEq, Eq, Structural)]
pub struct Register {
    pp_tx_swap_iq: bool,
    pp_rx_swap_iq: bool,
    tx_channel_swap: bool,
    rx_channel_swap: bool,
    rx_frame_pulse_mode: bool,
    r2t2_timing: bool,
    invert_data_bus: bool,
    invert_data_clk: bool,
}

impl Register {
    /// Multi-bit fields fit in their bit ranges.
    #[verifier::type_invariant]
    spec fn fields_fit(self) -> bool {
        true
    }

    /// Raw register value: each field shifted to its bit range.
    pub open spec fn raw(self) -> u8 {
        ((if self.pp_tx_swap_iq_spec() { 1int } else { 0int }) * 128
            + (if self.pp_rx_swap_iq_spec() { 1int } else { 0int }) * 64
            + (if self.tx_channel_swap_spec() { 1int } else { 0int }) * 32
            + (if self.rx_channel_swap_spec() { 1int } else { 0int }) * 16
            + (if self.rx_frame_pulse_mode_spec() { 1int } else { 0int }) * 8
            + (if self.r2t2_timing_spec() { 1int } else { 0int }) * 4
            + (if self.invert_data_bus_spec() { 1int } else { 0int }) * 2
            + (if self.invert_data_clk_spec() { 1int } else { 0int }) * 1) as u8
    }

    /// Value of the field `pp_tx_swap_iq`.
    pub closed spec fn pp_tx_swap_iq_spec(self) -> bool {
        self.pp_tx_swap_iq
    }

    /// Value of the field `pp_rx_swap_iq`.
    pub closed spec fn pp_rx_swap_iq_spec(self) -> bool {
        self.pp_rx_swap_iq
    }

    /// Value of the field `tx_channel_swap`.
    pub closed spec fn tx_channel_swap_spec(self) -> bool {
        self.tx_channel_swap
    }

    /// Value of the field `rx_channel_swap`.
    pub closed spec fn rx_channel_swap_spec(self) -> bool {
        self.rx_channel_swap
    }

    /// Value of the field `rx_frame_pulse_mode`.
    pub closed spec fn rx_frame_pulse_mode_spec(self) -> bool {
        self.rx_frame_pulse_mode
    }

    /// Value of the field `r2t2_timing`.
    pub closed spec fn r2t2_timing_spec(self) -> bool {
        self.r2t2_timing
    }

    /// Value of the field `invert_data_bus`.
    pub closed spec fn invert_data_bus_spec(self) -> bool {
        self.invert_data_bus
    }

    /// Value of the field `invert_data_clk`.
    pub closed spec fn invert_data_clk_spec(self) -> bool {
        self.invert_data_clk
    }

    /// The register value 0.
    pub fn zero() -> (r: Self)
        ensures
            r.raw() == 0,
            !r.pp_tx_swap_iq_spec(),
            !r.pp_rx_swap_iq_spec(),
            !r.tx_channel_swap_spec(),
            !r.rx_channel_swap_spec(),
            !r.rx_frame_pulse_mode_spec(),
            !r.r2t2_timing_spec(),
            !r.invert_data_bus_spec(),
            !r.invert_data_clk_spec(),
    {
        Register {
            pp_tx_swap_iq: false,
            pp_rx_swap_iq: false,
            tx_channel_swap: false,
            rx_channel_swap: false,
            rx_frame_pulse_mode: false,
            r2t2_timing: false,
            invert_data_bus: false,
            invert_data_clk: false,
        }
    }

    /// Decodes a raw register value into its fields.
    pub fn new_with_raw_value(raw: u8) -> (r: Self)
        ensures
            r.pp_tx_swap_iq_spec() == crate::bits::bit_of(raw, 7),
            r.pp_rx_swap_iq_spec() == crate::bits::bit_of(raw, 6),
            r.tx_channel_swap_spec() == crate::bits::bit_of(raw, 5),
            r.rx_channel_swap_spec() == crate::bits::bit_of(raw, 4),
            r.rx_frame_pulse_mode_spec() == crate::bits::bit_of(raw, 3),
            r.r2t2_timing_spec() == crate::bits::bit_of(raw, 2),
            r.invert_data_bus_spec() == crate::bits::bit_of(raw, 1),
            r.invert_data_clk_spec() == crate::bits::bit_of(raw, 0),
    {
        proof {
            crate::bits::lemma_shr_and_one_is_bit(raw, 7);
            crate::bits::lemma_shr_and_one_is_bit(raw, 6);
            crate::bits::lemma_shr_and_one_is_bit(raw, 5);
            crate::bits::lemma_shr_and_one_is_bit(raw, 4);
            crate::bits::lemma_shr_and_one_is_bit(raw, 3);
            crate::bits::lemma_shr_and_one_is_bit(raw, 2);
            crate::bits::lemma_shr_and_one_is_bit(raw, 1);
            crate::bits::lemma_shr_and_one_is_bit(raw, 0);
            vstd::arithmetic::power2::lemma2_to64();
        }
        Register {
            pp_tx_swap_iq: (raw >> 7u8) & 1 == 1,
            pp_rx_swap_iq: (raw >> 6u8) & 1 == 1,
            tx_channel_swap: (raw >> 5u8) & 1 == 1,
            rx_channel_swap: (raw >> 4u8) & 1 == 1,
            rx_frame_pulse_mode: (raw >> 3u8) & 1 == 1,
            r2t2_timing: (raw >> 2u8) & 1 == 1,
            invert_data_bus: (raw >> 1u8) & 1 == 1,
            invert_data_clk: (raw >> 0u8) & 1 == 1,
        }
    }

    /// Raw register value.
    pub fn raw_value(&self) -> (r: u8)
        ensures
            r == self.raw(),
    {
        proof {
            use_type_invariant(self);
        }
        let mut raw: u8 = 0;
        if self.invert_data_clk {
            raw = raw + 1;
        }
        if self.invert_data_bus {
            raw = raw + 2;
        }
        if self.r2t2_timing {
            raw = raw + 4;
        }
        if self.rx_frame_pulse_mode {
            raw = raw + 8;
        }
        if self.rx_channel_swap {
            raw = raw + 16;
        }
        if self.tx_channel_swap {
            raw = raw + 32;
        }
        if self.pp_rx_swap_iq {
            raw = raw + 64;
        }
        if self.pp_tx_swap_iq {
            raw = raw + 128;
        }
        raw
    }

    /// PP Tx Swap IQ
    pub fn pp_tx_swap_iq(&self) -> (r: bool)
        ensures
            r == self.pp_tx_swap_iq_spec(),
    {
        self.pp_tx_swap_iq
    }

    /// The register with the field `pp_tx_swap_iq` set to `value` and the other fields unchanged.
    pub fn with_pp_tx_swap_iq(self, value: bool) -> (r: Self)
        ensures
            r.pp_tx_swap_iq_spec() == value,
            r.pp_rx_swap_iq_spec() == self.pp_rx_swap_iq_spec(),
            r.tx_channel_swap_spec() == self.tx_channel_swap_spec(),
            r.rx_channel_swap_spec() == self.rx_channel_swap_spec(),
            r.rx_frame_pulse_mode_spec() == self.rx_frame_pulse_mode_spec(),
            r.r2t2_timing_spec() == self.r2t2_timing_spec(),
            r.invert_data_bus_spec() == self.invert_data_bus_spec(),
            r.invert_data_clk_spec() == self.invert_data_clk_spec(),
    {
        proof {
            use_type_invariant(self);
        }
        Register { pp_tx_swap_iq: value, ..self }
    }

    /// PP Rx Swap IQ
    pub fn pp_rx_swap_iq(&self) -> (r: bool)
        ensures
            r == self.pp_rx_swap_iq_spec(),
    {
        self.pp_rx_swap_iq
    }

    /// The register with the field `pp_rx_swap_iq` set to `value` and the other fields unchanged.
    pub fn with_pp_rx_swap_iq(self, value: bool) -> (r: Self)
        ensures
            r.pp_rx_swap_iq_spec() == value,
            r.pp_tx_swap_iq_spec() == self.pp_tx_swap_iq_spec(),
            r.tx_channel_swap_spec() == self.tx_channel_swap_spec(),
            r.rx_channel_swap_spec() == self.rx_channel_swap_spec(),
            r.rx_frame_pulse_mode_spec() == self.rx_frame_pulse_mode_spec(),
            r.r2t2_timing_spec() == self.r2t2_timing_spec(),
            r.invert_data_bus_spec() == self.invert_data_bus_spec(),
            r.invert_data_clk_spec() == self.invert_data_clk_spec(),
    {
        proof {
            use_type_invariant(self);
        }
        Register { pp_rx_swap_iq: value, ..self }
    }

    /// Tx Channel swap
    pub fn tx_channel_swap(&self) -> (r: bool)
        ensures
            r == self.tx_channel_swap_spec(),
    {
        self.tx_channel_swap
    }

    /// The register with the field `tx_channel_swap` set to `value` and the other fields unchanged.
    pub fn with_tx_channel_swap(self, value: bool) -> (r: Self)
        ensures
            r.tx_channel_swap_spec() == value,
            r.pp_tx_swap_iq_spec() == self.pp_tx_swap_iq_spec(),
            r.pp_rx_swap_iq_spec() == self.pp_rx_swap_iq_spec(),
            r.rx_channel_swap_spec() == self.rx_channel_swap_spec(),
            r.rx_frame_pulse_mode_spec() == self.rx_frame_pulse_mode_spec(),
            r.r2t2_timing_spec() == self.r2t2_timing_spec(),
            r.invert_data_bus_spec() == self.invert_data_bus_spec(),
            r.invert_data_clk_spec() == self.invert_data_clk_spec(),
    {
        proof {
            use_type_invariant(self);
        }
        Register { tx_channel_swap: value, ..self }
    }

    /// Rx Channel swap
    pub fn rx_channel_swap(&self) -> (r: bool)
        ensures
            r == self.rx_channel_swap_spec(),
    {
        self.rx_channel_swap
    }

    /// The register with the field `rx_channel_swap` set to `value` and the other fields unchanged.
    pub fn with_rx_channel_swap(self, value: bool) -> (r: Self)
        ensures
            r.rx_channel_swap_spec() == value,
            r.pp_tx_swap_iq_spec() == self.pp_tx_swap_iq_spec(),
            r.pp_rx_swap_iq_spec() == self.pp_rx_swap_iq_spec(),
            r.tx_channel_swap_spec() == self.tx_channel_swap_spec(),
            r.rx_frame_pulse_mode_spec() == self.rx_frame_pulse_mode_spec(),
            r.r2t2_timing_spec() == self.r2t2_timing_spec(),
            r.invert_data_bus_spec() == self.invert_data_bus_spec(),
            r.invert_data_clk_spec() == self.invert_data_clk_spec(),
    {
        proof {
            use_type_invariant(self);
        }
        Register { rx_channel_swap: value, ..self }
    }

    /// Rx Frame Pulse Mode
    pub fn rx_frame_pulse_mode(&self) -> (r: bool)
        ensures
            r == self.rx_frame_pulse_mode_spec(),
    {
        self.rx_frame_pulse_mode
    }

    /// The register with the field `rx_frame_pulse_mode` set to `value` and the other fields unchanged.
    pub fn with_rx_frame_pulse_mode(self, value: bool) -> (r: Self)
        ensures
            r.rx_frame_pulse_mode_spec() == value,
            r.pp_tx_swap_iq_spec() == self.pp_tx_swap_iq_spec(),
            r.pp_rx_swap_iq_spec() == self.pp_rx_swap_iq_spec(),
            r.tx_channel_swap_spec() == self.tx_channel_swap_spec(),
            r.rx_channel_swap_spec() == self.rx_channel_swap_spec(),
            r.r2t2_timing_spec() == self.r2t2_timing_spec(),
            r.invert_data_bus_spec() == self.invert_data_bus_spec(),
            r.invert_data_clk_spec() == self.invert_data_clk_spec(),
    {
        proof {
            use_type_invariant(self);
        }
        Register { rx_frame_pulse_mode: value, ..self }
    }

    /// 2R2T Timing
    pub fn r2t2_timing(&self) -> (r: bool)
        ensures
            r == self.r2t2_timing_spec(),
    {
        self.r2t2_timing
    }

    /// The register with the field `r2t2_timing` set to `value` and the other fields unchanged.
    pub fn with_r2t2_timing(self, value: bool) -> (r: Self)
        ensures
            r.r2t2_timing_spec() == value,
            r.pp_tx_swap_iq_spec() == self.pp_tx_swap_iq_spec(),
            r.pp_rx_swap_iq_spec() == self.pp_rx_swap_iq_spec(),
            r.tx_channel_swap_spec() == self.tx_channel_swap_spec(),
            r.rx_channel_swap_spec() == self.rx_channel_swap_spec(),
            r.rx_frame_pulse_mode_spec() == self.rx_frame_pulse_mode_spec(),
            r.invert_data_bus_spec() == self.invert_data_bus_spec(),
            r.invert_data_clk_spec() == self.invert_data_clk_spec(),
    {
        proof {
            use_type_invariant(self);
        }
        Register { r2t2_timing: value, ..self }
    }

    /// Invert data bus
    pub fn invert_data_bus(&self) -> (r: bool)
        ensures
            r == self.invert_data_bus_spec(),
    {
        self.invert_data_bus
    }

    /// The register with the field `invert_data_bus` set to `value` and the other fields unchanged.
    pub fn with_invert_data_bus(self, value: bool) -> (r: Self)
        ensures
            r.invert_data_bus_spec() == value,
            r.pp_tx_swap_iq_spec() == self.pp_tx_swap_iq_spec(),
            r.pp_rx_swap_iq_spec() == self.pp_rx_swap_iq_spec(),
            r.tx_channel_swap_spec() == self.tx_channel_swap_spec(),
            r.rx_channel_swap_spec() == self.rx_channel_swap_spec(),
            r.rx_frame_pulse_mode_spec() == self.rx_frame_pulse_mode_spec(),
            r.r2t2_timing_spec() == self.r2t2_timing_spec(),
            r.invert_data_clk_spec() == self.invert_data_clk_spec(),
    {
        proof {
            use_type_invariant(self);
        }
        Register { invert_data_bus: value, ..self }
    }

    /// Invert DATA CLK
    pub fn invert_data_clk(&self) -> (r: bool)
        ensures
            r == self.invert_data_clk_spec(),
    {
        self.invert_data_clk
    }

    /// The register with the field `invert_data_clk` set to `value` and the other fields unchanged.
    pub fn with_invert_data_clk(self, value: bool) -> (r: Self)
        ensures
            r.invert_data_clk_spec() == value,
            r.pp_tx_swap_iq_spec() == self.pp_tx_swap_iq_spec(),
            r.pp_rx_swap_iq_spec() == self.pp_rx_swap_iq_spec(),
            r.tx_channel_swap_spec() == self.tx_channel_swap_spec(),
            r.rx_channel_swap_spec() == self.rx_channel_swap_spec(),
            r.rx_frame_pulse_mode_spec() == self.rx_frame_pulse_mode_spec(),
            r.r2t2_timing_spec() == self.r2t2_timing_spec(),
            r.invert_data_bus_spec() == self.invert_data_bus_spec(),
    {
        proof {
            use_type_invariant(self);
        }
        Register { invert_data_clk: value, ..self }
    }
}

} // verus!
