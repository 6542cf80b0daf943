//! Bit fields inside one register byte.
//!
//! A field is given by the position of its lowest bit (`shift`) and the number
//! of bits it spans (`width`). Reading a field never fails; writing one keeps
//! the low `width` bits of the value and leaves every other bit of the byte
//! as it was.

use vstd::prelude::*;

verus! {

/// A field lies inside the byte.
pub open spec fn is_field(shift: u8, width: u8) -> bool {
    1 <= width && shift + width <= 8
}

/// The largest value a field of `width` bits can hold: `width` ones.
pub open spec fn low_mask(width: u8) -> u8 {
    0xFFu8 >> ((8 - width) as u8)
}

/// The bits of the byte that belong to the field.
pub open spec fn field_mask(shift: u8, width: u8) -> u8 {
    low_mask(width) << shift
}

/// The value held in the field.
pub open spec fn extract(raw: u8, shift: u8, width: u8) -> u8 {
    (raw >> shift) & low_mask(width)
}

/// The byte with the field replaced by the low `width` bits of `v`.
pub open spec fn insert(raw: u8, shift: u8, width: u8, v: u8) -> u8 {
    (raw & !field_mask(shift, width)) | ((v << shift) & field_mask(shift, width))
}

/// Reads the field out of `raw`.
pub fn get_bits(raw: u8, shift: u8, width: u8) -> (r: u8)
    requires
        is_field(shift, width),
    ensures
        r == extract(raw, shift, width),
        r <= low_mask(width),
{
    proof {
        lemma_extract_bounded(raw, shift, width);
    }
    (raw >> shift) & (0xFFu8 >> (8 - width))
}

/// Writes the low `width` bits of `v` into the field of `raw`.
pub fn set_bits(raw: u8, shift: u8, width: u8, v: u8) -> (r: u8)
    requires
        is_field(shift, width),
    ensures
        r == insert(raw, shift, width, v),
        r & !field_mask(shift, width) == raw & !field_mask(shift, width),
        extract(r, shift, width) == v & low_mask(width),
{
    proof {
        lemma_insert_keeps_other_bits(raw, shift, width, v);
        lemma_insert_then_extract(raw, shift, width, v);
    }
    let mask: u8 = (0xFFu8 >> (8 - width)) << shift;
    (raw & !mask) | ((v << shift) & mask)
}

/// A field read back after a write holds the low `width` bits of what was
/// written, and so the value itself when it fits the field.
pub proof fn lemma_insert_then_extract(raw: u8, shift: u8, width: u8, v: u8)
    requires
        is_field(shift, width),
    ensures
        extract(insert(raw, shift, width, v), shift, width) == v & low_mask(width),
        v <= low_mask(width) ==> extract(insert(raw, shift, width, v), shift, width) == v,
{
    let w: u8 = (8 - width) as u8;
    assert(((((raw & !((0xFFu8 >> w) << shift)) | ((v << shift) & ((0xFFu8 >> w) << shift))) >> shift)
        & (0xFFu8 >> w)) == v & (0xFFu8 >> w)) by (bit_vector)
        requires
            w < 8,
            shift <= w,
    ;
    assert(v <= (0xFFu8 >> w) ==> v & (0xFFu8 >> w) == v) by (bit_vector)
        requires
            w < 8,
    ;
}

/// A field never holds more than its width allows.
pub proof fn lemma_extract_bounded(raw: u8, shift: u8, width: u8)
    requires
        is_field(shift, width),
    ensures
        extract(raw, shift, width) <= low_mask(width),
        width == 1 ==> low_mask(width) == 0x01,
        width == 2 ==> low_mask(width) == 0x03,
        width == 3 ==> low_mask(width) == 0x07,
        width == 4 ==> low_mask(width) == 0x0F,
        width == 7 ==> low_mask(width) == 0x7F,
        width == 8 ==> low_mask(width) == 0xFF,
{
    let w: u8 = (8 - width) as u8;
    assert((raw >> shift) & (0xFFu8 >> w) <= (0xFFu8 >> w)) by (bit_vector);
    assert(0xFFu8 >> 7u8 == 0x01 && 0xFFu8 >> 6u8 == 0x03 && 0xFFu8 >> 5u8 == 0x07 && 0xFFu8 >> 4u8
        == 0x0F && 0xFFu8 >> 1u8 == 0x7F && 0xFFu8 >> 0u8 == 0xFF) by (bit_vector);
}

/// Writing a field changes no bit outside the field's mask.
pub proof fn lemma_insert_keeps_other_bits(raw: u8, shift: u8, width: u8, v: u8)
    requires
        is_field(shift, width),
    ensures
        insert(raw, shift, width, v) & !field_mask(shift, width) == raw & !field_mask(shift, width),
{
    let m: u8 = field_mask(shift, width);
    assert(((raw & !m) | ((v << shift) & m)) & !m == raw & !m) by (bit_vector);
}

/// Writing a field leaves every field that does not overlap it as it was.
pub proof fn lemma_insert_keeps_disjoint_field(
    raw: u8,
    shift: u8,
    width: u8,
    v: u8,
    other_shift: u8,
    other_width: u8,
)
    requires
        is_field(shift, width),
        is_field(other_shift, other_width),
        shift + width <= other_shift || other_shift + other_width <= shift,
    ensures
        extract(insert(raw, shift, width, v), other_shift, other_width) == extract(
            raw,
            other_shift,
            other_width,
        ),
{
    let w: u8 = (8 - width) as u8;
    let ow: u8 = (8 - other_width) as u8;
    assert(((((raw & !((0xFFu8 >> w) << shift)) | ((v << shift) & ((0xFFu8 >> w) << shift)))
        >> other_shift) & (0xFFu8 >> ow)) == (raw >> other_shift) & (0xFFu8 >> ow)) by (bit_vector)
        requires
            w < 8,
            ow < 8,
            shift <= w,
            other_shift <= ow,
            shift + (8 - w) <= other_shift || other_shift + (8 - ow) <= shift,
    ;
}

/// Two decimal digits packed as binary-coded decimal come back unchanged:
/// the ones digit in the low nibble, the tens digit in the `tens_width` bits
/// above it, written in either order over any earlier content.
pub proof fn lemma_digits_round_trip(raw: u8, tens_width: u8, tens: u8, ones: u8)
    requires
        1 <= tens_width <= 4,
        ones <= 9,
        tens <= 9,
        tens <= low_mask(tens_width),
    ensures
        extract(insert(insert(raw, 4, tens_width, tens), 0, 4, ones), 0, 4) == ones,
        extract(insert(insert(raw, 4, tens_width, tens), 0, 4, ones), 4, tens_width) == tens,
        extract(insert(insert(raw, 0, 4, ones), 4, tens_width, tens), 0, 4) == ones,
        extract(insert(insert(raw, 0, 4, ones), 4, tens_width, tens), 4, tens_width) == tens,
{
    lemma_extract_bounded(raw, 0, 4);
    let with_tens = insert(raw, 4, tens_width, tens);
    let with_ones = insert(raw, 0, 4, ones);
    lemma_insert_then_extract(with_tens, 0, 4, ones);
    lemma_insert_keeps_disjoint_field(with_tens, 0, 4, ones, 4, tens_width);
    lemma_insert_then_extract(raw, 4, tens_width, tens);
    lemma_insert_then_extract(with_ones, 4, tens_width, tens);
    lemma_insert_keeps_disjoint_field(with_ones, 4, tens_width, tens, 0, 4);
    lemma_insert_then_extract(raw, 0, 4, ones);
}

} // verus!
