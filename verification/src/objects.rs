//! The closed set of scene primitives.
//!
//! A primitive is a shape — sphere, rotated box, finite rectangle — plus its
//! material. The shape parameters are float bit patterns the embedder's
//! intersection, area and surface-sampling arithmetic reads; the core reads
//! only the material, which is what the scene's emitter registry and the
//! integrator's decisions depend on.

use crate::fbits;
use crate::material::Material;
use crate::vec3::{QuatBits, Vec2Bits, Vec3Bits};
use vstd::prelude::*;

verus! {

/// A face of a box, named by outward axis direction.
#[derive(Clone, Copy, Debug, PartialEq, Eq, Structural)]
pub enum CuboidFace {
    XPlus,
    XMinus,
    YPlus,
    YMinus,
    ZPlus,
    ZMinus,
}

/// The face a uniform draw selects when faces are drawn with probability
/// proportional to area: `cdf` holds the five cumulative thresholds (as
/// float bit patterns) between the six faces, in the order +x, -x, +y,
/// -y, +z; a draw above them all lands on -z.
pub open spec fn spec_select_face(dice: u32, cdf: [u32; 5]) -> CuboidFace {
    if fbits::spec_lt(dice, cdf[0]) {
        CuboidFace::XPlus
    } else if fbits::spec_lt(dice, cdf[1]) {
        CuboidFace::XMinus
    } else if fbits::spec_lt(dice, cdf[2]) {
        CuboidFace::YPlus
    } else if fbits::spec_lt(dice, cdf[3]) {
        CuboidFace::YMinus
    } else if fbits::spec_lt(dice, cdf[4]) {
        CuboidFace::ZPlus
    } else {
        CuboidFace::ZMinus
    }
}

/// Selects the sampled face of a box from a uniform draw and the faces'
/// cumulative area thresholds.
pub fn select_face(dice: u32, cdf: &[u32; 5]) -> (f: CuboidFace)
    ensures
        f == spec_select_face(dice, *cdf),
{
    if fbits::f32_bits_lt(dice, cdf[0]) {
        CuboidFace::XPlus
    } else if fbits::f32_bits_lt(dice, cdf[1]) {
        CuboidFace::XMinus
    } else if fbits::f32_bits_lt(dice, cdf[2]) {
        CuboidFace::YPlus
    } else if fbits::f32_bits_lt(dice, cdf[3]) {
        CuboidFace::YMinus
    } else if fbits::f32_bits_lt(dice, cdf[4]) {
        CuboidFace::ZPlus
    } else {
        CuboidFace::ZMinus
    }
}

/// A sphere given by center and radius.
#[derive(Clone, Copy, Debug, PartialEq, Eq, Structural)]
pub struct Sphere {
    pub center: Vec3Bits,
    pub radius: u32,
    pub material: Material,
}

/// An axis-aligned box of the given size, rotated about its center.
#[derive(Clone, Copy, Debug, PartialEq, Eq, Structural)]
pub struct Cuboid {
    pub center: Vec3Bits,
    pub size: Vec3Bits,
    pub rotation: QuatBits,
    pub material: Material,
}

/// A finite planar rectangle given by center, unit normal and 2-D extent.
#[derive(Clone, Copy, Debug, PartialEq, Eq, Structural)]
pub struct Plain {
    pub center: Vec3Bits,
    pub normal: Vec3Bits,
    pub size: Vec2Bits,
    pub material: Material,
}

/// A primitive of the scene: one of the closed set of shapes.
#[derive(Clone, Copy, Debug, PartialEq, Eq, Structural)]
pub enum SceneObject {
    Sphere(Sphere),
    Cuboid(Cuboid),
    Plain(Plain),
}

impl SceneObject {
    /// The material of the primitive, whichever shape carries it.
    pub open spec fn spec_material(self) -> Material {
        match self {
            SceneObject::Sphere(s) => s.material,
            SceneObject::Cuboid(c) => c.material,
            SceneObject::Plain(p) => p.material,
        }
    }

    /// The primitive emits light.
    pub open spec fn spec_is_emissive(self) -> bool {
        self.spec_material().is_emissive
    }

    /// Returns the primitive's material.
    pub fn material(&self) -> (m: &Material)
        ensures
            *m == self.spec_material(),
    {
        match self {
            SceneObject::Sphere(s) => &s.material,
            SceneObject::Cuboid(c) => &c.material,
            SceneObject::Plain(p) => &p.material,
        }
    }

    /// Returns whether the primitive emits light.
    pub fn is_emissive(&self) -> (r: bool)
        ensures
            r == self.spec_is_emissive(),
    {
        self.material().is_emissive
    }
}

} // verus!
