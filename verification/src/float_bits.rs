//! IEEE-754 floating-point values held as their bit patterns.
//!
//! A `u64` here is the binary64 encoding of an `f64` (`f64::to_bits`), a `u32`
//! the binary32 encoding of an `f32` (`f32::to_bits`). The top bit is the sign;
//! the remaining bits (the magnitude) order non-NaN values of one sign exactly as
//! their numeric values are ordered, with the largest finite magnitude just below
//! the infinity pattern and every pattern above it a NaN. Comparisons follow IEEE
//! semantics: any comparison with a NaN is false and `-0.0 == +0.0`.
use vstd::prelude::*;

verus! {

pub const F64_SIGN: u64 = 0x8000_0000_0000_0000u64;

pub const F64_INFINITY: u64 = 0x7ff0_0000_0000_0000u64;

pub const F32_SIGN: u32 = 0x8000_0000u32;

pub const F32_INFINITY: u32 = 0x7f80_0000u32;

/// The magnitude part (all bits but the sign) of a binary64 pattern.
pub open spec fn f64_magnitude(b: u64) -> int {
    if b >= F64_SIGN {
        b - F64_SIGN
    } else {
        b as int
    }
}

pub open spec fn f64_is_nan_spec(b: u64) -> bool {
    f64_magnitude(b) > F64_INFINITY
}

pub open spec fn f64_is_infinite_spec(b: u64) -> bool {
    f64_magnitude(b) == F64_INFINITY
}

/// An integer that orders non-NaN binary64 values as their numeric values:
/// the magnitude, negated for negative values (both zeros map to 0).
pub open spec fn f64_order_key(b: u64) -> int {
    if b >= F64_SIGN {
        -f64_magnitude(b)
    } else {
        f64_magnitude(b)
    }
}

/// `a < b` on the `f64` values that `a` and `b` encode.
pub open spec fn f64_lt_spec(a: u64, b: u64) -> bool {
    !f64_is_nan_spec(a) && !f64_is_nan_spec(b) && f64_order_key(a) < f64_order_key(b)
}

/// `a <= b` on the `f64` values that `a` and `b` encode.
pub open spec fn f64_le_spec(a: u64, b: u64) -> bool {
    !f64_is_nan_spec(a) && !f64_is_nan_spec(b) && f64_order_key(a) <= f64_order_key(b)
}

pub open spec fn f32_magnitude(b: u32) -> int {
    if b >= F32_SIGN {
        b - F32_SIGN
    } else {
        b as int
    }
}

pub open spec fn f32_is_nan_spec(b: u32) -> bool {
    f32_magnitude(b) > F32_INFINITY
}

pub open spec fn f32_is_finite_spec(b: u32) -> bool {
    f32_magnitude(b) < F32_INFINITY
}

/// An integer that orders non-NaN binary32 values as their numeric values.
pub open spec fn f32_order_key(b: u32) -> int {
    if b >= F32_SIGN {
        -f32_magnitude(b)
    } else {
        f32_magnitude(b)
    }
}

/// `a <= b` on the `f32` values that `a` and `b` encode.
pub open spec fn f32_le_spec(a: u32, b: u32) -> bool {
    !f32_is_nan_spec(a) && !f32_is_nan_spec(b) && f32_order_key(a) <= f32_order_key(b)
}

fn f64_magnitude_of(b: u64) -> (m: u64)
    ensures
        m == f64_magnitude(b),
{
    if b >= F64_SIGN {
        b - F64_SIGN
    } else {
        b
    }
}

/// `f64::is_nan`.
pub fn f64_is_nan(b: u64) -> (r: bool)
    ensures
        r == f64_is_nan_spec(b),
{
    f64_magnitude_of(b) > F64_INFINITY
}

/// `f64::is_infinite`.
pub fn f64_is_infinite(b: u64) -> (r: bool)
    ensures
        r == f64_is_infinite_spec(b),
{
    f64_magnitude_of(b) == F64_INFINITY
}

/// `a < b` on `f64` values.
pub fn f64_lt(a: u64, b: u64) -> (r: bool)
    ensures
        r == f64_lt_spec(a, b),
{
    let ma = f64_magnitude_of(a);
    let mb = f64_magnitude_of(b);
    if ma > F64_INFINITY || mb > F64_INFINITY {
        return false;
    }
    let na = a >= F64_SIGN;
    let nb = b >= F64_SIGN;
    if na && nb {
        mb < ma
    } else if na {
        !(ma == 0 && mb == 0)
    } else if nb {
        false
    } else {
        ma < mb
    }
}

/// `a <= b` on `f64` values.
pub fn f64_le(a: u64, b: u64) -> (r: bool)
    ensures
        r == f64_le_spec(a, b),
{
    let ma = f64_magnitude_of(a);
    let mb = f64_magnitude_of(b);
    if ma > F64_INFINITY || mb > F64_INFINITY {
        return false;
    }
    !f64_lt(b, a)
}

fn f32_magnitude_of(b: u32) -> (m: u32)
    ensures
        m == f32_magnitude(b),
{
    if b >= F32_SIGN {
        b - F32_SIGN
    } else {
        b
    }
}

/// `f32::is_finite`.
pub fn f32_is_finite(b: u32) -> (r: bool)
    ensures
        r == f32_is_finite_spec(b),
{
    f32_magnitude_of(b) < F32_INFINITY
}

/// `a <= b` on `f32` values.
pub fn f32_le(a: u32, b: u32) -> (r: bool)
    ensures
        r == f32_le_spec(a, b),
{
    let ma = f32_magnitude_of(a);
    let mb = f32_magnitude_of(b);
    if ma > F32_INFINITY || mb > F32_INFINITY {
        return false;
    }
    let na = a >= F32_SIGN;
    let nb = b >= F32_SIGN;
    if na && nb {
        ma >= mb
    } else if na {
        true
    } else if nb {
        ma == 0 && mb == 0
    } else {
        ma <= mb
    }
}

} // verus!
