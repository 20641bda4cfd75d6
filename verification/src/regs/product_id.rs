use vstd::prelude::*;

verus! {

pub const PRODUCT_ID_MASK: u8 = 0xF8;

pub const PRODUCT_ID_9361: u8 = 0x08;

pub const REV_MASK: u8 = 0x07;

} // verus!
