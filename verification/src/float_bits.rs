//! Comparisons of IEEE-754 floating-point numbers carried as their bit
//! patterns. Setting values and vehicle data points hold floats this way, so
//! that the rules that compare them can be stated and checked on integers.
//!
//! A binary32 number with bits `b` is NaN when its exponent field is all ones
//! and its fraction is not zero, that is when `b` without its sign bit
//! exceeds `0x7f80_0000`. The other numbers are ordered as their
//! sign-magnitude reading: positive numbers by their bits, negative numbers by
//! their negated magnitude, with both zeros equal.

use vstd::prelude::*;

verus! {

/// The sign bit of a binary32 number.
pub const F32_SIGN_BIT: u32 = 0x8000_0000;

/// The bits of positive infinity in binary32.
pub const F32_INFINITY_BITS: u32 = 0x7f80_0000;

/// Whether the binary32 number with bits `b` is NaN.
pub open spec fn f32_is_nan(b: u32) -> bool {
    b % 0x8000_0000 > 0x7f80_0000
}

/// The position of a non-NaN binary32 number in the order of the reals.
pub open spec fn f32_order_key(b: u32) -> int {
    if b < 0x8000_0000 {
        b as int
    } else {
        -((b - 0x8000_0000) as int)
    }
}

/// `a >= b` on binary32 numbers: false when either is NaN.
pub open spec fn f32_ge(a: u32, b: u32) -> bool {
    !f32_is_nan(a) && !f32_is_nan(b) && f32_order_key(a) >= f32_order_key(b)
}

/// `a <= b` on binary32 numbers: false when either is NaN.
pub open spec fn f32_le(a: u32, b: u32) -> bool {
    !f32_is_nan(a) && !f32_is_nan(b) && f32_order_key(a) <= f32_order_key(b)
}

/// Whether the binary32 number with bits `b` is NaN.
pub fn f32_bits_is_nan(b: u32) -> (r: bool)
    ensures
        r == f32_is_nan(b),
{
    b % F32_SIGN_BIT > F32_INFINITY_BITS
}

fn f32_bits_order_key(b: u32) -> (k: i64)
    ensures
        k == f32_order_key(b),
{
    if b < F32_SIGN_BIT {
        b as i64
    } else {
        -((b - F32_SIGN_BIT) as i64)
    }
}

/// `a >= b` on the binary32 numbers with bits `a` and `b`.
pub fn f32_bits_ge(a: u32, b: u32) -> (r: bool)
    ensures
        r == f32_ge(a, b),
{
    !f32_bits_is_nan(a) && !f32_bits_is_nan(b) && f32_bits_order_key(a) >= f32_bits_order_key(b)
}

/// `a <= b` on the binary32 numbers with bits `a` and `b`.
pub fn f32_bits_le(a: u32, b: u32) -> (r: bool)
    ensures
        r == f32_le(a, b),
{
    !f32_bits_is_nan(a) && !f32_bits_is_nan(b) && f32_bits_order_key(a) <= f32_bits_order_key(b)
}

} // verus!
