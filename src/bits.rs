use bit_field::BitField;
use vstd::prelude::*;

verus! {

/// The mask of the `width` lowest bits of a 64-bit word (`1 <= width <= 64`).
pub open spec fn low_mask(width: u64) -> u64 {
    u64::MAX >> ((64 - width) as u64)
}

/// Bits `start..end` of `x`, shifted down to bit 0.
pub open spec fn bit_range(x: u64, start: u64, end: u64) -> u64 {
    (x >> start) & low_mask((end - start) as u64)
}

/// `x` with bits `start..end` replaced by `value`.
pub open spec fn with_bit_range(x: u64, start: u64, end: u64, value: u64) -> u64 {
    (x & !(low_mask((end - start) as u64) << start)) | (value << start)
}

/// Relies on `BitField::get_bits` of bit_field for `u64`: it returns bits
/// `start..end` shifted down, and panics unless `start < 64`, `end <= 64`
/// and `start <= end`.
#[verifier::external_body]
pub(crate) fn get_bits(x: u64, start: usize, end: usize) -> (r: u64)
    requires
        start < end <= 64,
    ensures
        r == bit_range(x, start as u64, end as u64),
{
    x.get_bits(start..end)
}

/// Relies on `BitField::set_bits` of bit_field for `u64`: it replaces bits
/// `start..end` by `value`, and panics unless the range lies in the word and
/// `value` fits in its width.
#[verifier::external_body]
pub(crate) fn set_bits(x: &mut u64, start: usize, end: usize, value: u64)
    requires
        start < end <= 64,
        value <= low_mask((end - start) as u64),
    ensures
        *final(x) == with_bit_range(*old(x), start as u64, end as u64, value),
{
    x.set_bits(start..end, value);
}

} // verus!
