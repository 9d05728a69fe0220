//! Exact predicates on IEEE 754 single-precision bit patterns.
//!
//! Verified code never computes with floats. Where the renderer stores a
//! 32-bit float, the core stores its bit pattern as a `u32` and decides
//! sign, ordering and special-value questions by integer arithmetic on that
//! pattern. The layout is the IEEE 754 binary32 one: bit 31 is the sign,
//! bits 23..31 the exponent, bits 0..23 the mantissa. Two facts carry the
//! whole module: a pattern is a NaN exactly when its magnitude bits exceed
//! those of infinity, and on patterns with clear sign bit the float order is
//! the unsigned integer order.

use vstd::prelude::*;

verus! {

/// Bit pattern of positive infinity: exponent all ones, mantissa zero.
pub const F32_INFINITY_BITS: u32 = 0x7F80_0000;

/// The sign bit.
pub const F32_SIGN_MASK: u32 = 0x8000_0000;

/// Exponent and mantissa together: everything but the sign.
pub const F32_MAGNITUDE_MASK: u32 = 0x7FFF_FFFF;

/// Bit pattern of 1.0.
pub const F32_ONE_BITS: u32 = 0x3F80_0000;

/// Bit pattern of the 32-bit float nearest 1e-5, the guard threshold the
/// integrator compares degenerate quantities against.
pub const F32_GUARD_EPS_BITS: u32 = 0x3727_C5AC;

/// The pattern encodes a NaN: exponent all ones and nonzero mantissa.
pub open spec fn spec_is_nan(b: u32) -> bool {
    b & F32_MAGNITUDE_MASK > F32_INFINITY_BITS
}

/// The sign bit is set (the encoded value is negative, a negative zero, or a
/// NaN with sign set).
pub open spec fn spec_sign_negative(b: u32) -> bool {
    b & F32_SIGN_MASK != 0
}

/// The pattern encodes a zero of either sign.
pub open spec fn spec_is_zero(b: u32) -> bool {
    b & F32_MAGNITUDE_MASK == 0
}

/// The pattern encodes a strictly positive finite value: its unsigned value
/// lies strictly between the pattern of +0.0 and the pattern of infinity.
pub open spec fn spec_is_pos_finite(b: u32) -> bool {
    0 < b < F32_INFINITY_BITS
}

/// The IEEE 754 `<` comparison, decided on bit patterns: false whenever an
/// operand is a NaN; the two zeros are equal; otherwise patterns with clear
/// sign compare as unsigned integers and patterns with set sign compare
/// reversed.
pub open spec fn spec_lt(a: u32, b: u32) -> bool {
    &&& !spec_is_nan(a)
    &&& !spec_is_nan(b)
    &&& if !spec_sign_negative(a) && !spec_sign_negative(b) {
        a < b
    } else if spec_sign_negative(a) && spec_sign_negative(b) {
        a > b
    } else if spec_sign_negative(a) {
        // a has sign set, b has not: a < b unless both are zeros.
        !(spec_is_zero(a) && spec_is_zero(b))
    } else {
        false
    }
}

/// The encoded value is strictly negative: it compares below +0.0.
pub open spec fn spec_lt_zero(b: u32) -> bool {
    spec_lt(b, 0)
}

/// The IEEE 754 `<=` comparison: false whenever an operand is a NaN,
/// otherwise the negation of the reversed `<` comparison.
pub open spec fn spec_le(a: u32, b: u32) -> bool {
    !spec_is_nan(a) && !spec_is_nan(b) && !spec_lt(b, a)
}

/// Clearing the sign bit is exact IEEE 754 absolute value.
pub open spec fn spec_abs(b: u32) -> u32 {
    b & F32_MAGNITUDE_MASK
}

/// Flipping the sign bit is exact IEEE 754 negation.
pub open spec fn spec_neg(b: u32) -> u32 {
    b ^ F32_SIGN_MASK
}

/// Decides the IEEE 754 `<` comparison of the floats encoded by `a` and `b`.
pub fn f32_bits_lt(a: u32, b: u32) -> (r: bool)
    ensures
        r == spec_lt(a, b),
{
    let a_nan = a & F32_MAGNITUDE_MASK > F32_INFINITY_BITS;
    let b_nan = b & F32_MAGNITUDE_MASK > F32_INFINITY_BITS;
    if a_nan || b_nan {
        false
    } else if a & F32_SIGN_MASK == 0 && b & F32_SIGN_MASK == 0 {
        a < b
    } else if a & F32_SIGN_MASK != 0 && b & F32_SIGN_MASK != 0 {
        a > b
    } else if a & F32_SIGN_MASK != 0 {
        !(a & F32_MAGNITUDE_MASK == 0 && b & F32_MAGNITUDE_MASK == 0)
    } else {
        false
    }
}

/// Decides the IEEE 754 `<=` comparison of the floats encoded by `a` and
/// `b`.
pub fn f32_bits_le(a: u32, b: u32) -> (r: bool)
    ensures
        r == spec_le(a, b),
{
    let a_nan = a & F32_MAGNITUDE_MASK > F32_INFINITY_BITS;
    let b_nan = b & F32_MAGNITUDE_MASK > F32_INFINITY_BITS;
    !a_nan && !b_nan && !f32_bits_lt(b, a)
}

/// Takes the absolute value of the encoded float by clearing its sign bit.
pub fn f32_bits_abs(b: u32) -> (r: u32)
    ensures
        r == spec_abs(b),
{
    b & F32_MAGNITUDE_MASK
}

/// Decides whether the encoded value is strictly negative.
pub fn f32_bits_is_negative(b: u32) -> (r: bool)
    ensures
        r == spec_lt_zero(b),
{
    f32_bits_lt(b, 0)
}

/// Negates the encoded float by flipping its sign bit.
pub fn f32_bits_neg(b: u32) -> (r: u32)
    ensures
        r == spec_neg(b),
{
    b ^ F32_SIGN_MASK
}

/// On strictly positive finite patterns the float order is exactly the
/// unsigned integer order of the patterns.
pub proof fn lemma_lt_pos_finite_is_bit_lt(a: u32, b: u32)
    requires
        spec_is_pos_finite(a),
        spec_is_pos_finite(b),
    ensures
        spec_lt(a, b) == (a < b),
{
    assert((a < F32_INFINITY_BITS ==> (a & F32_MAGNITUDE_MASK == a && a & F32_SIGN_MASK == 0))
        && (b < F32_INFINITY_BITS ==> (b & F32_MAGNITUDE_MASK == b && b & F32_SIGN_MASK == 0)))
        by (bit_vector);
}

} // verus!
