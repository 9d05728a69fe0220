//! Next-event estimation's gates and visibility rule.
//!
//! One emitter is selected uniformly, a point is sampled on it by area, and
//! the contribution is scored only when the configuration is sound: the
//! emitter's area, the squared distance and the receiving-side cosine must
//! all clear the guard threshold, the shadow ray must reach the selected
//! emitter, and at least one of the two pdfs entering the
//! multiple-importance-sampling weight must clear the guard. The
//! floating-point quantities arrive as bit patterns; the decisions here are
//! exact.

use crate::fbits;
use crate::hit::HitRecord;
use vstd::prelude::*;

verus! {

/// A light sample is discarded before the shadow ray is cast: the emitter's
/// area, the squared distance to the sampled point, or the cosine on the
/// emitter's side compares below the 1e-5 guard.
pub open spec fn spec_light_sample_rejected(area: u32, dist_sq: u32, cos_theta_light: u32) -> bool {
    ||| fbits::spec_lt(area, fbits::F32_GUARD_EPS_BITS)
    ||| fbits::spec_lt(dist_sq, fbits::F32_GUARD_EPS_BITS)
    ||| fbits::spec_lt(cos_theta_light, fbits::F32_GUARD_EPS_BITS)
}

/// Decides whether a light sample (given by the bit patterns of the
/// emitter's area, the squared distance and the emitter-side cosine) is
/// discarded.
pub fn light_sample_rejected(area: u32, dist_sq: u32, cos_theta_light: u32) -> (r: bool)
    ensures
        r == spec_light_sample_rejected(area, dist_sq, cos_theta_light),
{
    fbits::f32_bits_lt(area, fbits::F32_GUARD_EPS_BITS) || fbits::f32_bits_lt(
        dist_sq,
        fbits::F32_GUARD_EPS_BITS,
    ) || fbits::f32_bits_lt(cos_theta_light, fbits::F32_GUARD_EPS_BITS)
}

/// The sampled emitter point is visible from the shaded point: the shadow
/// ray either strikes nothing on the way, or its first hit is the selected
/// emitter itself.
pub open spec fn spec_target_visible(shadow_hit: Option<HitRecord>, light_index: usize) -> bool {
    match shadow_hit {
        None => true,
        Some(h) => h.object_index == light_index,
    }
}

/// Decides visibility from the shadow ray's first hit.
pub fn target_visible(shadow_hit: &Option<HitRecord>, light_index: usize) -> (r: bool)
    ensures
        r == spec_target_visible(*shadow_hit, light_index),
{
    match shadow_hit {
        None => true,
        Some(h) => h.object_index == light_index,
    }
}

/// The sample is dropped after evaluation: both the BRDF pdf and the
/// light's solid-angle pdf compare below the guard, so the
/// multiple-importance-sampling weight's denominator would be degenerate.
/// One healthy pdf suffices to score the sample.
pub open spec fn spec_pdfs_rejected(pdf_brdf: u32, pdf_light: u32) -> bool {
    fbits::spec_lt(pdf_brdf, fbits::F32_GUARD_EPS_BITS) && fbits::spec_lt(
        pdf_light,
        fbits::F32_GUARD_EPS_BITS,
    )
}

/// Decides whether the pair of pdfs is degenerate.
pub fn pdfs_rejected(pdf_brdf: u32, pdf_light: u32) -> (r: bool)
    ensures
        r == spec_pdfs_rejected(pdf_brdf, pdf_light),
{
    fbits::f32_bits_lt(pdf_brdf, fbits::F32_GUARD_EPS_BITS) && fbits::f32_bits_lt(
        pdf_light,
        fbits::F32_GUARD_EPS_BITS,
    )
}

} // verus!
