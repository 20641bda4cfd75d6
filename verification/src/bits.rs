//! Bits and bit fields of register values.
use vstd::prelude::*;

verus! {

/// Bit `pos` of `x`.
pub open spec fn bit_of(x: u8, pos: nat) -> bool {
    (x as nat / vstd::arithmetic::power2::pow2(pos)) % 2 == 1
}

/// Shifting right and masking with 1 reads bit `pos`.
pub proof fn lemma_shr_and_one_is_bit(x: u8, pos: u8)
    requires
        pos < 8,
    ensures
        ((x >> pos) & 1 == 1) == bit_of(x, pos as nat),
        ((x >> pos) & 1 == 0) == !bit_of(x, pos as nat),
{
    vstd::bits::lemma_u8_shr_is_div(x, pos);
    vstd::bits::lemma_u8_low_bits_mask_is_mod(x >> pos, 1);
    vstd::arithmetic::power2::lemma2_to64();
}

/// Setting bit `pos` changes that bit alone.
pub proof fn lemma_set_bit(x: u8, pos: u8, i: u8)
    requires
        pos < 8,
        i < 8,
    ensures
        (((x | (1u8 << pos)) >> i) & 1 == 1) == (i == pos || ((x >> i) & 1 == 1)),
{
    assert((((x | (1u8 << pos)) >> i) & 1 == 1) == (i == pos || ((x >> i) & 1 == 1)))
        by (bit_vector)
        requires
            pos < 8,
            i < 8,
    ;
}

/// Clearing bit `pos` changes that bit alone.
pub proof fn lemma_clear_bit(x: u8, pos: u8, i: u8)
    requires
        pos < 8,
        i < 8,
    ensures
        (((x & !(1u8 << pos)) >> i) & 1 == 1) == (i != pos && ((x >> i) & 1 == 1)),
{
    assert((((x & !(1u8 << pos)) >> i) & 1 == 1) == (i != pos && ((x >> i) & 1 == 1)))
        by (bit_vector)
        requires
            pos < 8,
            i < 8,
    ;
}

/// The `width` bit field starting at bit `lo` of `x`.
pub open spec fn field_of(x: u8, lo: nat, width: nat) -> nat {
    (x as nat / vstd::arithmetic::power2::pow2(lo)) % vstd::arithmetic::power2::pow2(width)
}

/// Shifting right by `lo` and masking the low `width` bits reads the field.
pub proof fn lemma_shr_and_mask_is_field(x: u8, lo: u8, width: nat)
    requires
        lo < 8,
        0 < width < 8,
    ensures
        ((x >> lo) & (vstd::bits::low_bits_mask(width) as u8)) as nat == field_of(x, lo as nat, width),
{
    vstd::bits::lemma_u8_shr_is_div(x, lo);
    vstd::bits::lemma_u8_low_bits_mask_is_mod(x >> lo, width);
    vstd::arithmetic::power2::lemma2_to64();
}

/// The `w` bit field of `x` starting at bit `lo`.
pub open spec fn field8(x: u8, lo: u8, w: u8) -> u8 {
    (x >> lo) & ((((1u16 << w) - 1) as u8))
}

/// `x` with the `w` bit field starting at bit `lo` replaced by `v`.
pub open spec fn with_field8(x: u8, lo: u8, w: u8, v: u8) -> u8 {
    (x & !(((((1u16 << w) - 1) as u8)) << lo)) | (v << lo)
}

/// Whether a `w` bit field at bit `lo` lies within a byte.
pub open spec fn field_fits(lo: u8, w: u8) -> bool {
    1 <= w && lo + w <= 8
}

proof fn lemma_field_written(x: u8, lo: u8, w: u8, v: u8)
    requires
        field_fits(lo, w),
        (v as u16) < (1u16 << w),
    ensures
        field8(with_field8(x, lo, w, v), lo, w) == v,
{
    assert(field8(with_field8(x, lo, w, v), lo, w) == v) by (bit_vector)
        requires
            1 <= w,
            lo + w <= 8,
            (v as u16) < (1u16 << w),
    ;
}

proof fn lemma_field_kept(x: u8, lo: u8, w: u8, v: u8, lo2: u8, w2: u8)
    requires
        field_fits(lo, w),
        field_fits(lo2, w2),
        lo2 + w2 <= lo || lo + w <= lo2,
        (v as u16) < (1u16 << w),
    ensures
        field8(with_field8(x, lo, w, v), lo2, w2) == field8(x, lo2, w2),
{
    assert(field8(with_field8(x, lo, w, v), lo2, w2) == field8(x, lo2, w2)) by (bit_vector)
        requires
            (v as u16) < (1u16 << w),
            1 <= w,
            lo + w <= 8,
            1 <= w2,
            lo2 + w2 <= 8,
            lo2 + w2 <= lo || lo + w <= lo2,
    ;
}

/// Writes the `w` bit field of `x` that starts at bit `lo`: that field reads `v` afterwards and
/// every field that does not overlap it keeps its value.
pub fn set_field(x: u8, lo: u8, w: u8, v: u8) -> (r: u8)
    requires
        field_fits(lo, w),
        (v as u16) < (1u16 << w),
    ensures
        r == with_field8(x, lo, w, v),
        field8(r, lo, w) == v,
        forall|lo2: u8, w2: u8|
            field_fits(lo2, w2) && (lo2 + w2 <= lo || lo + w <= lo2) ==> #[trigger] field8(
                r,
                lo2,
                w2,
            ) == field8(x, lo2, w2),
{
    let mask: u8 = ((1u16 << w) - 1) as u8;
    let r = (x & !(mask << lo)) | (v << lo);
    proof {
        lemma_field_written(x, lo, w, v);
        assert forall|lo2: u8, w2: u8|
            field_fits(lo2, w2) && (lo2 + w2 <= lo || lo + w <= lo2) implies #[trigger] field8(
            r,
            lo2,
            w2,
        ) == field8(x, lo2, w2) by {
            lemma_field_kept(x, lo, w, v, lo2, w2);
        }
    }
    r
}

/// Writes bit `pos` of `x`, see [`set_field`].
pub fn set_flag(x: u8, pos: u8, b: bool) -> (r: u8)
    requires
        pos < 8,
    ensures
        r == with_field8(x, pos, 1, if b { 1u8 } else { 0u8 }),
        field8(r, pos, 1) == (if b { 1u8 } else { 0u8 }),
        forall|lo2: u8, w2: u8|
            field_fits(lo2, w2) && (lo2 + w2 <= pos || pos + 1 <= lo2) ==> #[trigger] field8(
                r,
                lo2,
                w2,
            ) == field8(x, lo2, w2),
{
    assert(1u16 << 1u16 == 2) by (bit_vector);
    set_field(
        x,
        pos,
        1,
        if b {
            1
        } else {
            0
        },
    )
}

/// The powers of two that bound the values of fields of 1 to 8 bits.
pub proof fn lemma_field_bounds()
    ensures
        1u16 << 1u8 == 2,
        1u16 << 2u8 == 4,
        1u16 << 3u8 == 8,
        1u16 << 4u8 == 16,
        1u16 << 5u8 == 32,
        1u16 << 6u8 == 64,
        1u16 << 7u8 == 128,
        1u16 << 8u8 == 256,
{
    assert({
        &&& 1u16 << 1u8 == 2
        &&& 1u16 << 2u8 == 4
        &&& 1u16 << 3u8 == 8
        &&& 1u16 << 4u8 == 16
        &&& 1u16 << 5u8 == 32
        &&& 1u16 << 6u8 == 64
        &&& 1u16 << 7u8 == 128
        &&& 1u16 << 8u8 == 256
    }) by (bit_vector);
}

} // verus!
