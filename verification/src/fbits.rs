//! Ordering of single-precision floats held as their IEEE 754 bit patterns.
//!
//! Values that the library only stores, compares or clamps are kept as `u32`
//! bit patterns (`f32::to_bits`); comparison follows IEEE 754: NaN is
//! unordered, `-0.0 == +0.0`, and otherwise values are ordered by sign and
//! magnitude.

use vstd::prelude::*;

verus! {

/// Bit pattern of `0.0`.
pub const F32_ZERO: u32 = 0;

/// Bit pattern of `1.0`.
pub const F32_ONE: u32 = 0x3F80_0000;

/// The sign bit is set.
pub open spec fn f32_sign(b: u32) -> bool {
    b >= 0x8000_0000
}

/// The value without its sign (exponent and mantissa bits).
pub open spec fn f32_magnitude(b: u32) -> u32 {
    (b % 0x8000_0000) as u32
}

/// The pattern encodes NaN (all exponent bits set, non-zero mantissa).
pub open spec fn f32_is_nan(b: u32) -> bool {
    f32_magnitude(b) > 0x7F80_0000
}

/// IEEE 754 `a < b` on the values that the two patterns encode.
pub open spec fn f32_lt(a: u32, b: u32) -> bool {
    &&& !f32_is_nan(a)
    &&& !f32_is_nan(b)
    &&& if !f32_sign(a) && !f32_sign(b) {
        f32_magnitude(a) < f32_magnitude(b)
    } else if f32_sign(a) && !f32_sign(b) {
        f32_magnitude(a) != 0 || f32_magnitude(b) != 0
    } else if !f32_sign(a) && f32_sign(b) {
        false
    } else {
        f32_magnitude(a) > f32_magnitude(b)
    }
}

/// IEEE 754 `a == b` on the values that the two patterns encode.
pub open spec fn f32_eq(a: u32, b: u32) -> bool {
    &&& !f32_is_nan(a)
    &&& !f32_is_nan(b)
    &&& (a == b || (f32_magnitude(a) == 0 && f32_magnitude(b) == 0))
}

/// `f32::clamp(x, 0.0, 1.0)`: below zero gives `0.0`, above one gives `1.0`,
/// anything else (NaN included) is kept.
pub open spec fn f32_clamp_unit(x: u32) -> u32 {
    if f32_lt(x, F32_ZERO) {
        F32_ZERO
    } else if f32_lt(F32_ONE, x) {
        F32_ONE
    } else {
        x
    }
}

/// IEEE 754 `a < b` on two bit patterns.
pub fn f32_bits_lt(a: u32, b: u32) -> (r: bool)
    ensures
        r == f32_lt(a, b),
{
    let ma = a % 0x8000_0000;
    let mb = b % 0x8000_0000;
    if ma > 0x7F80_0000 || mb > 0x7F80_0000 {
        return false;
    }
    let sa = a >= 0x8000_0000;
    let sb = b >= 0x8000_0000;
    if !sa && !sb {
        ma < mb
    } else if sa && !sb {
        ma != 0 || mb != 0
    } else if !sa && sb {
        false
    } else {
        ma > mb
    }
}

/// `f32::clamp(x, 0.0, 1.0)` on a bit pattern.
pub fn f32_bits_clamp_unit(x: u32) -> (r: u32)
    ensures
        r == f32_clamp_unit(x),
{
    if f32_bits_lt(x, F32_ZERO) {
        F32_ZERO
    } else if f32_bits_lt(F32_ONE, x) {
        F32_ONE
    } else {
        x
    }
}

/// `<` is a strict order on non-NaN values: irreflexive and transitive, and
/// two values are either ordered one way or the other, or equal.
pub proof fn lemma_f32_lt_order(a: u32, b: u32, c: u32)
    requires
        !f32_is_nan(a),
        !f32_is_nan(b),
        !f32_is_nan(c),
    ensures
        !f32_lt(a, a),
        f32_lt(a, b) ==> !f32_lt(b, a),
        f32_lt(a, b) && f32_lt(b, c) ==> f32_lt(a, c),
        f32_lt(a, b) || f32_lt(b, a) || f32_eq(a, b),
        f32_eq(a, b) ==> (f32_lt(a, c) <==> f32_lt(b, c)) && (f32_lt(c, a) <==> f32_lt(c, b)),
{
    if !f32_sign(a) && !f32_sign(b) && f32_magnitude(a) == f32_magnitude(b) {
        assert(a == b);
    }
    if f32_sign(a) && f32_sign(b) && f32_magnitude(a) == f32_magnitude(b) {
        assert(a == b);
    }
}

} // verus!
