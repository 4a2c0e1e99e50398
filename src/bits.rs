use bit_field::BitField;
use vstd::prelude::*;

verus! {

/// Bit `i` of `x`, bit 0 being the least significant.
pub open spec fn bit_of(x: u8, i: usize) -> bool {
    (x & (1u8 << (i as u8))) != 0u8
}

/// `x` with bit `i` set to `v`.
pub open spec fn with_bit(x: u8, i: usize, v: bool) -> u8 {
    if v {
        x | (1u8 << (i as u8))
    } else {
        x & !(1u8 << (i as u8))
    }
}

/// The bits `lo..hi` of `x`, moved down to bit 0.
pub open spec fn bits_of(x: u8, lo: usize, hi: usize) -> u8 {
    ((x >> (lo as u8)) & (0xffu8 >> ((8 - (hi - lo)) as u8)))
}

/// `x` with the bits `lo..hi` replaced by the low bits of `v`.
pub open spec fn with_bits(x: u8, lo: usize, hi: usize, v: u8) -> u8 {
    (x & !((0xffu8 >> ((8 - (hi - lo)) as u8)) << (lo as u8))) | (v << (lo as u8))
}

/// Relies on `BitField::get_bit` of bit_field for `u8`: it tests `x & (1 << i)`
/// and panics when `i` is 8 or more.
#[verifier::external_body]
pub(crate) fn get_bit(x: u8, i: usize) -> (r: bool)
    requires
        i < 8,
    ensures
        r == bit_of(x, i),
{
    x.get_bit(i)
}

/// Relies on `BitField::set_bit` of bit_field for `u8`: it ors in `1 << i`, or
/// masks it out, and panics when `i` is 8 or more.
#[verifier::external_body]
pub(crate) fn set_bit(x: u8, i: usize, v: bool) -> (r: u8)
    requires
        i < 8,
    ensures
        r == with_bit(x, i, v),
{
    let mut y = x;
    y.set_bit(i, v);
    y
}

/// Relies on `BitField::get_bits` of bit_field for `u8` on the range `lo..hi`:
/// it shifts away the bits above `hi` and below `lo`; it panics unless
/// `lo < 8`, `hi <= 8` and `lo <= hi`.
#[verifier::external_body]
pub(crate) fn get_bits(x: u8, lo: usize, hi: usize) -> (r: u8)
    requires
        lo < hi <= 8,
    ensures
        r == bits_of(x, lo, hi),
{
    x.get_bits(lo..hi)
}

/// Relies on `BitField::set_bits` of bit_field for `u8` on the range `lo..hi`:
/// it masks the range out and ors in `v << lo`; it panics when the range is out
/// of bounds or `v` does not fit in `hi - lo` bits.
#[verifier::external_body]
pub(crate) fn set_bits(x: u8, lo: usize, hi: usize, v: u8) -> (r: u8)
    requires
        lo < hi <= 8,
        v <= (0xffu8 >> ((8 - (hi - lo)) as u8)),
    ensures
        r == with_bits(x, lo, hi, v),
{
    let mut y = x;
    y.set_bits(lo..hi, v);
    y
}

} // verus!
