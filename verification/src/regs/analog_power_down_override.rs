use vstd::prelude::*;

verus! {

/// Rx Ext VCO Buffer Power Down
pub const RX_EXT_VCO_BUFFER_POWER_DOWN: u8 = 1 << 5;

/// Tx Ext VCO Buffer Power Down
pub const TX_EXT_VCO_BUFFER_POWER_DOWN: u8 = 1 << 4;

/// Tx Monitor Power Down<1:0>
pub fn tx_monitor_power_down(x: u8) -> (r: u8)
    ensures
        r == (x % 4) * 4,
{
    proof {
        crate::regs::lemma_u8_field(x, 2, 2);
        vstd::arithmetic::power2::lemma2_to64();
    }
    (x & 0x3) << 2u8
}

/// Tx Upconverter Power Down<1:0>
pub fn tx_upconverter_power_down(x: u8) -> (r: u8)
    ensures
        r == x % 4,
{
    proof {
        vstd::bits::lemma_u8_low_bits_mask_is_mod(x, 2);
        vstd::arithmetic::power2::lemma2_to64();
    }
    x & 0x3
}

} // verus!
