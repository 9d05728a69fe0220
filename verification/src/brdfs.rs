//! The two reflectance models and their delta-surface predicates.
//!
//! A BRDF's evaluation and sampling are floating-point arithmetic the
//! embedder performs; what the integrator's control flow needs from the
//! model — and what is decided here, exactly, on the parameter bit
//! patterns — is whether a material scatters as a Dirac delta. Next-event
//! estimation and multiple importance sampling must skip delta surfaces;
//! BRDF sampling alone may reach them.

use crate::fbits;
use crate::material::Material;
use vstd::prelude::*;

verus! {

/// Bit pattern of the largest 32-bit float that a roughness must stay
/// under to make the Disney model a delta scatterer: the float nearest
/// 1e-5. On the bit patterns of floats in [0, 1] the comparison below this
/// constant is exactly the float comparison `roughness < 1e-5`.
pub const DELTA_ROUGHNESS_BITS: u32 = 0x3727_C5AC;

/// Bit pattern of the smallest 32-bit float strictly above 1 - 1e-5. A
/// metallic parameter in [0, 1] satisfies `|1 - metallic| < 1e-5` exactly
/// when its pattern is at least this constant.
pub const DELTA_METALLIC_BITS: u32 = 0x3F7F_FF59;

/// The ideal-diffuse model: `f_r = albedo / pi`, cosine-weighted sampling.
#[derive(Clone, Copy, Debug, PartialEq, Eq, Structural)]
pub struct LambertianBrdf;

impl LambertianBrdf {
    /// A Lambertian surface is never a delta scatterer.
    pub fn is_delta_surface(&self, _material: &Material) -> (r: bool)
        ensures
            !r,
    {
        false
    }
}

/// The Disney principled model: diffuse, specular microfacet and clearcoat
/// lobes.
#[derive(Clone, Copy, Debug, PartialEq, Eq, Structural)]
pub struct Disney;

impl Disney {
    /// The Disney model degenerates to a perfect mirror exactly when the
    /// roughness vanishes (below 1e-5) and the material is fully metallic
    /// (within 1e-5 of 1), stated on the parameter bit patterns of a
    /// well-formed material.
    pub open spec fn spec_is_delta(material: Material) -> bool {
        material.roughness < DELTA_ROUGHNESS_BITS && material.metallic >= DELTA_METALLIC_BITS
    }

    /// Decides the delta predicate: `roughness < 1e-5` and
    /// `|1 - metallic| < 1e-5`.
    pub fn is_delta_surface(&self, material: &Material) -> (r: bool)
        requires
            material.wf(),
        ensures
            r == Disney::spec_is_delta(*material),
    {
        material.roughness < DELTA_ROUGHNESS_BITS && material.metallic >= DELTA_METALLIC_BITS
    }
}

/// The three lobes the Disney sampler draws from.
#[derive(Clone, Copy, Debug, PartialEq, Eq, Structural)]
pub enum DisneyLobe {
    /// A GTR1 half-vector, reflected.
    Clearcoat,
    /// A GTR2 half-vector, reflected.
    Specular,
    /// A cosine-weighted hemisphere direction.
    Diffuse,
}

/// The lobe a uniform draw selects, against the selection distribution's
/// cumulative thresholds: clearcoat below `p_clearcoat`, specular from
/// there to `p_clearcoat + p_specular`, diffuse above.
pub open spec fn spec_select_lobe(xi: u32, cdf_clearcoat: u32, cdf_specular: u32) -> DisneyLobe {
    if fbits::spec_lt(xi, cdf_clearcoat) {
        DisneyLobe::Clearcoat
    } else if fbits::spec_lt(xi, cdf_specular) {
        DisneyLobe::Specular
    } else {
        DisneyLobe::Diffuse
    }
}

/// Selects the sampled lobe from a uniform draw and the cumulative
/// thresholds (all as float bit patterns).
pub fn select_lobe(xi: u32, cdf_clearcoat: u32, cdf_specular: u32) -> (l: DisneyLobe)
    ensures
        l == spec_select_lobe(xi, cdf_clearcoat, cdf_specular),
{
    if fbits::f32_bits_lt(xi, cdf_clearcoat) {
        DisneyLobe::Clearcoat
    } else if fbits::f32_bits_lt(xi, cdf_specular) {
        DisneyLobe::Specular
    } else {
        DisneyLobe::Diffuse
    }
}

/// On well-formed parameters the delta predicate's roughness test is the
/// float order against the guard threshold.
pub proof fn lemma_delta_roughness_is_float_order(material: Material)
    requires
        material.wf(),
    ensures
        (material.roughness < DELTA_ROUGHNESS_BITS) == fbits::spec_lt(
            material.roughness,
            fbits::F32_GUARD_EPS_BITS,
        ),
{
    let r = material.roughness;
    assert(r <= 0x3F80_0000 ==> (r & fbits::F32_MAGNITUDE_MASK == r && r & fbits::F32_SIGN_MASK
        == 0)) by (bit_vector);
    assert(fbits::F32_GUARD_EPS_BITS & fbits::F32_MAGNITUDE_MASK == fbits::F32_GUARD_EPS_BITS
        && fbits::F32_GUARD_EPS_BITS & fbits::F32_SIGN_MASK == 0) by (bit_vector);
}

} // verus!
