//! Bit-level helpers shared by the register layouts: reading and replacing a
//! field of `w` bits that starts at bit `off` of an 8-bit or 16-bit value.
//! A one-bit field holds a flag.
use vstd::prelude::*;

verus! {

/// The mask of the low `w` bits of an 8-bit value.
pub open spec fn mask8(w: u8) -> u8 {
    0xffu8 >> ((8u8 - w) as u8)
}

/// The `w`-bit field of `b` that starts at bit `off`.
pub open spec fn field8(b: u8, off: u8, w: u8) -> u8 {
    (b >> off) & mask8(w)
}

/// `b` with its `w`-bit field at `off` replaced by the low `w` bits of `v`,
/// every other bit kept.
pub open spec fn with_field8(b: u8, off: u8, w: u8, v: u8) -> u8 {
    (b & !(mask8(w) << off)) | ((v & mask8(w)) << off)
}

/// Flag `i` of `b`.
pub open spec fn flag8(b: u8, i: u8) -> bool {
    field8(b, i, 1) != 0
}

/// The mask of the low `w` bits of a 16-bit value.
pub open spec fn mask16(w: u16) -> u16 {
    0xffffu16 >> ((16u16 - w) as u16)
}

/// The `w`-bit field of `b` that starts at bit `off`.
pub open spec fn field16(b: u16, off: u16, w: u16) -> u16 {
    (b >> off) & mask16(w)
}

/// `b` with its `w`-bit field at `off` replaced by the low `w` bits of `v`,
/// every other bit kept.
pub open spec fn with_field16(b: u16, off: u16, w: u16, v: u16) -> u16 {
    (b & !(mask16(w) << off)) | ((v & mask16(w)) << off)
}

/// Flag `i` of `b`.
pub open spec fn flag16(b: u16, i: u16) -> bool {
    field16(b, i, 1) != 0
}

/// Reads the `w`-bit field at `off` of an 8-bit value.
pub fn get_field8(b: u8, off: u8, w: u8) -> (r: u8)
    requires
        1 <= w,
        off + w <= 8,
    ensures
        r == field8(b, off, w),
{
    (b >> off) & (0xffu8 >> (8u8 - w))
}

/// Replaces the `w`-bit field at `off` of an 8-bit value.
pub fn put_field8(b: u8, off: u8, w: u8, v: u8) -> (r: u8)
    requires
        1 <= w,
        off + w <= 8,
    ensures
        r == with_field8(b, off, w, v),
{
    let m = 0xffu8 >> (8u8 - w);
    (b & !(m << off)) | ((v & m) << off)
}

/// Reads the `w`-bit field at `off` of a 16-bit value.
pub fn get_field16(b: u16, off: u16, w: u16) -> (r: u16)
    requires
        1 <= w,
        off + w <= 16,
    ensures
        r == field16(b, off, w),
{
    (b >> off) & (0xffffu16 >> (16u16 - w))
}

/// Replaces the `w`-bit field at `off` of a 16-bit value.
pub fn put_field16(b: u16, off: u16, w: u16, v: u16) -> (r: u16)
    requires
        1 <= w,
        off + w <= 16,
    ensures
        r == with_field16(b, off, w, v),
{
    let m = 0xffffu16 >> (16u16 - w);
    (b & !(m << off)) | ((v & m) << off)
}

/// The masks of the field widths that the register layouts use.
pub proof fn lemma_masks()
    ensures
        mask8(1) == 1,
        mask8(2) == 3,
        mask8(3) == 7,
        mask8(4) == 15,
        mask8(6) == 63,
        mask16(1) == 1,
        mask16(2) == 3,
        mask16(3) == 7,
        mask16(4) == 15,
        mask16(8) == 255,
{
    assert(mask8(1) == 1 && mask8(2) == 3 && mask8(3) == 7 && mask8(4) == 15 && mask8(6) == 63)
        by (bit_vector);
    assert(mask16(1) == 1 && mask16(2) == 3 && mask16(3) == 7 && mask16(4) == 15 && mask16(8)
        == 255) by (bit_vector);
}

/// A field of an 8-bit value fits its width; a field read back after being
/// replaced is the written value truncated to the width; replacing a field
/// leaves every field that does not overlap it as it was.
pub proof fn lemma_field8(b: u8, off: u8, w: u8, v: u8, off2: u8, w2: u8)
    requires
        1 <= w,
        off + w <= 8,
        1 <= w2,
        off2 + w2 <= 8,
    ensures
        field8(b, off, w) <= mask8(w),
        field8(0, off, w) == 0,
        field8(with_field8(b, off, w, v), off, w) == v & mask8(w),
        v <= mask8(w) ==> v & mask8(w) == v,
        with_field8(b, off, w, field8(b, off, w)) == b,
        off2 + w2 <= off || off + w <= off2 ==> field8(with_field8(b, off, w, v), off2, w2)
            == field8(b, off2, w2),
{
    assert(field8(b, off, w) <= mask8(w) && field8(0, off, w) == 0) by (bit_vector)
        requires
            1 <= w,
            off + w <= 8,
    ;
    assert(field8(with_field8(b, off, w, v), off, w) == v & mask8(w)) by (bit_vector)
        requires
            1 <= w,
            off + w <= 8,
    ;
    assert(v <= mask8(w) ==> v & mask8(w) == v) by (bit_vector)
        requires
            1 <= w,
            w <= 8,
    ;
    assert(with_field8(b, off, w, field8(b, off, w)) == b) by (bit_vector)
        requires
            1 <= w,
            off + w <= 8,
    ;
    assert(off2 + w2 <= off || off + w <= off2 ==> field8(with_field8(b, off, w, v), off2, w2)
        == field8(b, off2, w2)) by (bit_vector)
        requires
            1 <= w,
            off + w <= 8,
            1 <= w2,
            off2 + w2 <= 8,
    ;
}

/// The same facts for 16-bit values.
pub proof fn lemma_field16(b: u16, off: u16, w: u16, v: u16, off2: u16, w2: u16)
    requires
        1 <= w,
        off + w <= 16,
        1 <= w2,
        off2 + w2 <= 16,
    ensures
        field16(b, off, w) <= mask16(w),
        field16(0, off, w) == 0,
        field16(with_field16(b, off, w, v), off, w) == v & mask16(w),
        v <= mask16(w) ==> v & mask16(w) == v,
        with_field16(b, off, w, field16(b, off, w)) == b,
        off2 + w2 <= off || off + w <= off2 ==> field16(with_field16(b, off, w, v), off2, w2)
            == field16(b, off2, w2),
{
    assert(field16(b, off, w) <= mask16(w) && field16(0, off, w) == 0) by (bit_vector)
        requires
            1 <= w,
            off + w <= 16,
    ;
    assert(field16(with_field16(b, off, w, v), off, w) == v & mask16(w)) by (bit_vector)
        requires
            1 <= w,
            off + w <= 16,
    ;
    assert(v <= mask16(w) ==> v & mask16(w) == v) by (bit_vector)
        requires
            1 <= w,
            w <= 16,
    ;
    assert(with_field16(b, off, w, field16(b, off, w)) == b) by (bit_vector)
        requires
            1 <= w,
            off + w <= 16,
    ;
    assert(off2 + w2 <= off || off + w <= off2 ==> field16(with_field16(b, off, w, v), off2, w2)
        == field16(b, off2, w2)) by (bit_vector)
        requires
            1 <= w,
            off + w <= 16,
            1 <= w2,
            off2 + w2 <= 16,
    ;
}

} // verus!
