use vstd::prelude::*;

verus! {

/// RxBBF Bypass Bias R
pub const RXBBF_BYPASS_BIAS_R: u8 = 1 << 7;

/// Rx BBF R5 Tune
pub const RX_BBF_R5_TUNE: u8 = 1 << 4;

/// Rx1 BBF Tune Comp I
pub const RX1_BBF_TUNE_COMP_I: u8 = 1 << 3;

/// Rx1 BBF Tune Comp Q
pub const RX1_BBF_TUNE_COMP_Q: u8 = 1 << 2;

/// Rx2 BBF Tune Comp I
pub const RX2_BBF_TUNE_COMP_I: u8 = 1 << 1;

/// Rx2 BBF Tune Comp Q
pub const RX2_BBF_TUNE_COMP_Q: u8 = 1 << 0;

/// Rx BBF Tune Ctr<1:0>
pub fn rx_bbf_tune_ctr(x: u8) -> (r: u8)
    ensures
        r == (x % 4) * 32,
{
    proof {
        crate::regs::lemma_u8_field(x, 2, 5);
        vstd::arithmetic::power2::lemma2_to64();
    }
    (x & 0x3) << 5u8
}

} // verus!
