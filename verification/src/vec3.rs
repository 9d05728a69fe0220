//! Bit-pattern carriers for the renderer's vector quantities.
//!
//! Positions, directions and linear RGB radiance are triples of 32-bit
//! floats; rotations are float quaternions. The core stores each component
//! as its IEEE 754 bit pattern (see `fbits`) and operates on them only where
//! integer arithmetic on the patterns is exact float arithmetic — negation
//! is one such operation. Everything else is the embedder's.

use crate::fbits;
use vstd::prelude::*;

verus! {

/// A triple of 32-bit float bit patterns.
#[derive(Clone, Copy, Debug, PartialEq, Eq, Structural)]
pub struct Vec3Bits {
    pub x: u32,
    pub y: u32,
    pub z: u32,
}

/// A pair of 32-bit float bit patterns (a planar extent).
#[derive(Clone, Copy, Debug, PartialEq, Eq, Structural)]
pub struct Vec2Bits {
    pub x: u32,
    pub y: u32,
}

/// A quaternion of 32-bit float bit patterns (a rotation).
#[derive(Clone, Copy, Debug, PartialEq, Eq, Structural)]
pub struct QuatBits {
    pub x: u32,
    pub y: u32,
    pub z: u32,
    pub w: u32,
}

/// The tangent-frame rule: the tangent is built against the x axis exactly
/// when `|n.x| > |n.y|`, which keeps the chosen axis away from the
/// normal's dominant direction. Decided on the component bit patterns.
pub fn tangent_prefers_x(normal_x: u32, normal_y: u32) -> (r: bool)
    ensures
        r == fbits::spec_lt(fbits::spec_abs(normal_y), fbits::spec_abs(normal_x)),
{
    fbits::f32_bits_lt(fbits::f32_bits_abs(normal_y), fbits::f32_bits_abs(normal_x))
}

/// Componentwise sign flip: exact IEEE 754 negation of the encoded vector.
pub open spec fn spec_neg_vec3(v: Vec3Bits) -> Vec3Bits {
    Vec3Bits { x: fbits::spec_neg(v.x), y: fbits::spec_neg(v.y), z: fbits::spec_neg(v.z) }
}

impl Vec3Bits {
    /// Negates the encoded vector by flipping the three sign bits.
    pub fn neg(&self) -> (r: Vec3Bits)
        ensures
            r == spec_neg_vec3(*self),
    {
        Vec3Bits {
            x: fbits::f32_bits_neg(self.x),
            y: fbits::f32_bits_neg(self.y),
            z: fbits::f32_bits_neg(self.z),
        }
    }

    /// Every component is a finite pattern.
    pub open spec fn all_finite(self) -> bool {
        &&& self.x & fbits::F32_MAGNITUDE_MASK < fbits::F32_INFINITY_BITS
        &&& self.y & fbits::F32_MAGNITUDE_MASK < fbits::F32_INFINITY_BITS
        &&& self.z & fbits::F32_MAGNITUDE_MASK < fbits::F32_INFINITY_BITS
    }

    /// Every component encodes a value in [0, 1]: the pattern of a
    /// nonnegative float no greater than the pattern of 1.0.
    pub open spec fn all_unit_interval(self) -> bool {
        &&& self.x <= fbits::F32_ONE_BITS
        &&& self.y <= fbits::F32_ONE_BITS
        &&& self.z <= fbits::F32_ONE_BITS
    }
}

} // verus!
