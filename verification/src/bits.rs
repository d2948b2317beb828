//! Bit-level updates of a configuration byte.

use bit_field::BitField;
use vstd::prelude::*;

verus! {

/// `value` with bit number `bit` forced to `on`; bit 0 is the least
/// significant one.
pub open spec fn with_bit(value: u8, bit: usize, on: bool) -> u8 {
    if on {
        value | (1u8 << bit)
    } else {
        value & !(1u8 << bit)
    }
}

/// The byte whose bits `lo..hi` are set and whose other bits are clear.
pub open spec fn field_mask(lo: usize, hi: usize) -> u8 {
    ((0xffu8 >> (8 - (hi - lo)) as usize) << lo)
}

/// Whether `field` has no bit set outside its `width` lowest bits.
pub open spec fn fits_in(field: u8, width: usize) -> bool {
    field >> width == 0
}

/// `value` with its bits `lo..hi` replaced by the lowest `hi - lo` bits of
/// `field`.
pub open spec fn with_bits(value: u8, lo: usize, hi: usize, field: u8) -> u8 {
    (value & !field_mask(lo, hi)) | (field << lo)
}

/// Calls `bit_field::BitField::set_bit` on a copy of `value`.
///
/// Trusted: for a bit index below eight the call overwrites exactly that
/// bit with `on` and leaves the other seven as they were.
#[verifier::external_body]
pub(crate) fn set_bit(value: u8, bit: usize, on: bool) -> (r: u8)
    requires
        bit < 8,
    ensures
        r == with_bit(value, bit, on),
{
    let mut byte: u8 = value;
    byte.set_bit(bit, on);
    byte
}

/// Calls `bit_field::BitField::set_bits` on a copy of `value` with the
/// range `lo..hi`.
///
/// Trusted: for a non-empty range inside the byte and a `field` that fits
/// in `hi - lo` bits, the call stores `field` in bits `lo..hi` and leaves
/// the bits outside the range as they were.
#[verifier::external_body]
pub(crate) fn set_bits(value: u8, lo: usize, hi: usize, field: u8) -> (r: u8)
    requires
        lo < hi <= 8,
        fits_in(field, (hi - lo) as usize),
    ensures
        r == with_bits(value, lo, hi, field),
{
    let mut byte: u8 = value;
    byte.set_bits(lo..hi, field);
    byte
}

} // verus!
