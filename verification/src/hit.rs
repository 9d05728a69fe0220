//! Hit records and their orientation invariant.
//!
//! A hit names its primitive by index, so the record is plain data that can
//! cross threads freely. Its normal must always oppose the incoming ray:
//! the constructor takes the bit pattern of `ray.direction · outward_normal`
//! — the one piece of float arithmetic, done by the embedder — and performs
//! the sign test and the conditional flip itself, exactly, on the patterns.

use crate::fbits;
use crate::vec3::{spec_neg_vec3, Vec3Bits};
use vstd::prelude::*;

verus! {

/// A ray-surface intersection: the hit point, the oriented unit normal, the
/// ray parameter `t` (as a float bit pattern), which side was struck, and
/// the index of the primitive in the scene.
#[derive(Clone, Copy, Debug, PartialEq, Eq, Structural)]
pub struct HitRecord {
    pub point: Vec3Bits,
    pub normal: Vec3Bits,
    pub t: u32,
    pub front_face: bool,
    pub object_index: usize,
}

impl HitRecord {
    /// The ray parameter is a strictly positive finite float, as every hit
    /// accepted from a positive `t_min` has.
    pub open spec fn wf(self) -> bool {
        fbits::spec_is_pos_finite(self.t)
    }

    /// Builds the record from the outward surface normal and the sign of
    /// `ray.direction · outward_normal` (passed as the dot product's bit
    /// pattern): the hit is front-face exactly when that dot is negative,
    /// and the stored normal is the outward normal flipped, if needed, to
    /// oppose the ray.
    pub fn new(
        point: Vec3Bits,
        outward_normal: Vec3Bits,
        t: u32,
        direction_dot_outward: u32,
        object_index: usize,
    ) -> (r: HitRecord)
        ensures
            r.point == point,
            r.t == t,
            r.object_index == object_index,
            r.front_face == fbits::spec_lt_zero(direction_dot_outward),
            r.normal == if r.front_face {
                outward_normal
            } else {
                spec_neg_vec3(outward_normal)
            },
    {
        let front_face = fbits::f32_bits_is_negative(direction_dot_outward);
        let normal = if front_face {
            outward_normal
        } else {
            outward_normal.neg()
        };
        HitRecord { point, normal, t, front_face, object_index }
    }
}

} // verus!
