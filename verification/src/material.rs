//! The Disney principled-BRDF parameter block.
//!
//! A material is plain data built by the embedder before the render begins.
//! The core interprets `is_emissive` (the scene counts and selects emitters
//! by it) and, at the bit level, `roughness` and `metallic` (the delta-
//! surface predicate); every other field is carried through to the
//! embedder's shading arithmetic untouched.

use crate::fbits;
use crate::vec3::Vec3Bits;
use vstd::prelude::*;

verus! {

/// One scalar Disney parameter encodes a value in [0, 1]: its pattern is
/// that of a nonnegative float no greater than 1.0.
pub open spec fn spec_unit_interval(b: u32) -> bool {
    b <= fbits::F32_ONE_BITS
}

/// The Disney parameter block. Scalar parameters are 32-bit float bit
/// patterns; color parameters are triples of them.
#[derive(Clone, Copy, Debug, PartialEq, Eq, Structural)]
pub struct Material {
    /// The primitive emits light; its emission is returned directly and the
    /// scene registers it as an emitter.
    pub is_emissive: bool,
    /// Emitted radiance, ignored unless `is_emissive`.
    pub emission: Vec3Bits,
    /// Base color, componentwise in [0, 1].
    pub albedo: Vec3Bits,
    pub subsurface: u32,
    pub metallic: u32,
    pub specular: u32,
    pub specular_tint: Vec3Bits,
    pub roughness: u32,
    pub anisotropic: u32,
    pub sheen: u32,
    pub sheen_tint: Vec3Bits,
    pub clearcoat: u32,
    pub clearcoat_gloss: u32,
}

impl Material {
    /// The parameters the renderer reads lie in their documented ranges:
    /// the five used scalars and the base color in [0, 1], the emission
    /// finite.
    pub open spec fn wf(self) -> bool {
        &&& spec_unit_interval(self.metallic)
        &&& spec_unit_interval(self.specular)
        &&& spec_unit_interval(self.roughness)
        &&& spec_unit_interval(self.clearcoat)
        &&& spec_unit_interval(self.clearcoat_gloss)
        &&& self.albedo.all_unit_interval()
        &&& self.emission.all_finite()
    }
}

} // verus!
