//! Bit ranges inside a register byte.
//!
//! Bits are numbered from 0, the least significant, to 7. A field occupies
//! the bits `lsb ..= msb`.

use vstd::prelude::*;
use bitfield::{Bit, BitRange};

verus! {

/// The byte whose set bits are exactly `lsb ..= msb`.
pub open spec fn field_mask(msb: u8, lsb: u8) -> u8 {
    (0xFFu8 >> ((7 - msb + lsb) as u8)) << lsb
}

/// The value of the field `lsb ..= msb` of `raw`, moved down to bit 0.
pub open spec fn get_field(raw: u8, msb: u8, lsb: u8) -> u8 {
    (raw & field_mask(msb, lsb)) >> lsb
}

/// `raw` with the field `lsb ..= msb` replaced by the low bits of `value`.
/// Bits of `value` that do not fit into the field are dropped; every bit of
/// `raw` outside the field is kept.
pub open spec fn set_field(raw: u8, msb: u8, lsb: u8, value: u8) -> u8 {
    (raw & !field_mask(msb, lsb)) | ((value << lsb) & field_mask(msb, lsb))
}

/// Whether bit `bit` of `raw` is set.
pub open spec fn get_bit(raw: u8, bit: u8) -> bool {
    get_field(raw, bit, bit) != 0
}

/// `raw` with bit `bit` set to `value` and every other bit kept.
pub open spec fn set_bit(raw: u8, bit: u8, value: bool) -> u8 {
    set_field(raw, bit, bit, if value { 1u8 } else { 0u8 })
}

/// Calls `bitfield::BitRange::<u8>::bit_range` on a `u8`. The contract
/// claims that the crate returns the bits `lsb ..= msb` of `raw`, right
/// aligned. Positions outside a byte, or `msb < lsb`, overflow the crate's
/// shift arithmetic and are excluded.
#[verifier::external_body]
pub(crate) fn bit_range(raw: u8, msb: u8, lsb: u8) -> (r: u8)
    requires
        lsb <= msb <= 7,
    ensures
        r == get_field(raw, msb, lsb),
{
    BitRange::<u8>::bit_range(&raw, usize::from(msb), usize::from(lsb))
}

/// Calls `bitfield::BitRange::<u8>::set_bit_range` on a `u8`. The contract
/// claims that the crate clears the bits `lsb ..= msb` of the byte and then
/// ors in `value << lsb`, cut to those bits.
#[verifier::external_body]
pub(crate) fn set_bit_range(raw: &mut u8, msb: u8, lsb: u8, value: u8)
    requires
        lsb <= msb <= 7,
    ensures
        *final(raw) == set_field(*old(raw), msb, lsb, value),
{
    BitRange::<u8>::set_bit_range(raw, usize::from(msb), usize::from(lsb), value)
}

/// Calls `bitfield::Bit::bit` on a `u8`. The contract claims that the crate
/// reports whether the one-bit range at `pos` is non-zero.
#[verifier::external_body]
pub(crate) fn read_bit(raw: u8, pos: u8) -> (r: bool)
    requires
        pos <= 7,
    ensures
        r == get_bit(raw, pos),
{
    Bit::bit(&raw, usize::from(pos))
}

/// Calls `bitfield::Bit::set_bit` on a `u8`. The contract claims that the
/// crate writes `value` as 0 or 1 into the one-bit range at `pos`.
#[verifier::external_body]
pub(crate) fn write_bit(raw: &mut u8, pos: u8, value: bool)
    requires
        pos <= 7,
    ensures
        *final(raw) == set_bit(*old(raw), pos, value),
{
    Bit::set_bit(raw, usize::from(pos), value)
}

/// Writing a bit changes that bit and no other.
pub proof fn lemma_set_bit(raw: u8, pos: u8, value: bool, other: u8)
    requires
        pos <= 7,
        other <= 7,
    ensures
        get_bit(set_bit(raw, pos, value), pos) == value,
        other != pos ==> get_bit(set_bit(raw, pos, value), other) == get_bit(raw, other),
{
    assert(get_bit(set_bit(raw, pos, value), pos) == value && (other != pos ==> get_bit(
        set_bit(raw, pos, value),
        other,
    ) == get_bit(raw, other))) by (bit_vector)
        requires
            pos <= 7,
            other <= 7,
    ;
}

/// Writing a field stores the low bits of the value and changes no bit
/// outside the field.
pub proof fn lemma_set_field(raw: u8, msb: u8, lsb: u8, value: u8)
    requires
        lsb <= msb <= 7,
    ensures
        get_field(set_field(raw, msb, lsb, value), msb, lsb) == value & field_mask(
            (msb - lsb) as u8,
            0,
        ),
        set_field(raw, msb, lsb, value) & !field_mask(msb, lsb) == raw & !field_mask(msb, lsb),
{
    assert(get_field(set_field(raw, msb, lsb, value), msb, lsb) == value & field_mask(
        (msb - lsb) as u8,
        0,
    ) && set_field(raw, msb, lsb, value) & !field_mask(msb, lsb) == raw & !field_mask(msb, lsb))
        by (bit_vector)
        requires
            lsb <= msb <= 7,
    ;
}

/// A bit outside a field reads the same before and after the field is
/// written.
pub proof fn lemma_set_field_keeps_bit(raw: u8, msb: u8, lsb: u8, value: u8, other: u8)
    requires
        lsb <= msb <= 7,
        other <= 7,
        other < lsb || other > msb,
    ensures
        get_bit(set_field(raw, msb, lsb, value), other) == get_bit(raw, other),
{
    assert(get_bit(set_field(raw, msb, lsb, value), other) == get_bit(raw, other))
        by (bit_vector)
        requires
            lsb <= msb <= 7,
            other <= 7,
            other < lsb || other > msb,
    ;
}

/// A field reads the same before and after a bit outside it is written.
pub proof fn lemma_set_bit_keeps_field(raw: u8, pos: u8, value: bool, msb: u8, lsb: u8)
    requires
        lsb <= msb <= 7,
        pos <= 7,
        pos < lsb || pos > msb,
    ensures
        get_field(set_bit(raw, pos, value), msb, lsb) == get_field(raw, msb, lsb),
{
    assert(get_field(set_bit(raw, pos, value), msb, lsb) == get_field(raw, msb, lsb))
        by (bit_vector)
        requires
            lsb <= msb <= 7,
            pos <= 7,
            pos < lsb || pos > msb,
    ;
}

} // verus!
