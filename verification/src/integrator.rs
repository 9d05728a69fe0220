//! The path-tracing integrator's decision core.
//!
//! The integrator walks a ray through the scene, accumulating radiance with
//! an explicit throughput product. Between the embedder's floating-point
//! evaluations it must decide, at every vertex, whether the path escapes,
//! deposits emission and stops, or scatters on — and whether next-event
//! estimation applies, whether a BRDF sample is too degenerate to follow,
//! and how an emitter reached by a bounce is weighted. Those decisions are
//! discrete, and they are made here, exactly.
//!
//! Per bounce: a miss or a back face escapes with no contribution; an
//! emissive front face deposits `throughput * emission` and ends the path;
//! any other front face is shaded — by next-event estimation unless the
//! surface is a delta scatterer, then by one BRDF sample. A degenerate
//! sample (attenuation or pdf under the guard threshold) ends the path.
//! When the sampled bounce lands on an emitter, a delta surface deposits
//! the unweighted emission while any other surface applies the
//! multiple-importance-sampling weight; landing on a non-emissive front
//! face continues the walk; anything else ends it.

use crate::fbits;
use crate::hit::HitRecord;
use crate::objects::SceneObject;
use crate::scene::Scene;
use vstd::prelude::*;

verus! {

/// What an optional hit is to the integrator.
#[derive(Clone, Copy, Debug, PartialEq, Eq, Structural)]
pub enum HitClass {
    /// No surface was struck.
    Miss,
    /// A surface was struck from behind.
    BackFace,
    /// The front face of an emissive primitive.
    EmissiveFront,
    /// The front face of a non-emissive primitive.
    ScatterFront,
}

/// The classification of `hit` against the primitives `objects`.
pub open spec fn spec_classify(objects: Seq<SceneObject>, hit: Option<HitRecord>) -> HitClass {
    match hit {
        None => HitClass::Miss,
        Some(h) => if !h.front_face {
            HitClass::BackFace
        } else if objects[h.object_index as int].spec_is_emissive() {
            HitClass::EmissiveFront
        } else {
            HitClass::ScatterFront
        },
    }
}

/// Classifies an optional hit against the scene's registry.
pub fn classify_hit(scene: &Scene, hit: &Option<HitRecord>) -> (c: HitClass)
    requires
        hit is Some ==> hit->Some_0.object_index < scene.spec_objects().len(),
    ensures
        c == spec_classify(scene.spec_objects(), *hit),
{
    match hit {
        None => HitClass::Miss,
        Some(h) => {
            if !h.front_face {
                HitClass::BackFace
            } else if scene.objects()[h.object_index].is_emissive() {
                HitClass::EmissiveFront
            } else {
                HitClass::ScatterFront
            }
        },
    }
}

/// What to do at the current path vertex.
#[derive(Clone, Copy, Debug, PartialEq, Eq, Structural)]
pub enum SurfaceDecision {
    /// The path escapes: terminate, adding nothing (the environment is
    /// black).
    Escape,
    /// Deposit `throughput * emission` and terminate.
    EmitAndStop,
    /// Scatter: run next-event estimation if `with_nee`, then draw one BRDF
    /// sample.
    Shade { with_nee: bool },
}

/// The decision at a vertex of class `class` on a surface whose scattering
/// is a Dirac delta iff `is_delta`: misses and back faces escape, emitters
/// stop the path with their emission, and every other front face is shaded,
/// with next-event estimation skipped exactly on delta surfaces.
pub open spec fn spec_surface_decision(class: HitClass, is_delta: bool) -> SurfaceDecision {
    match class {
        HitClass::Miss => SurfaceDecision::Escape,
        HitClass::BackFace => SurfaceDecision::Escape,
        HitClass::EmissiveFront => SurfaceDecision::EmitAndStop,
        HitClass::ScatterFront => SurfaceDecision::Shade { with_nee: !is_delta },
    }
}

/// Decides what happens at the current path vertex.
pub fn surface_decision(class: HitClass, is_delta: bool) -> (d: SurfaceDecision)
    ensures
        d == spec_surface_decision(class, is_delta),
{
    match class {
        HitClass::Miss => SurfaceDecision::Escape,
        HitClass::BackFace => SurfaceDecision::Escape,
        HitClass::EmissiveFront => SurfaceDecision::EmitAndStop,
        HitClass::ScatterFront => SurfaceDecision::Shade { with_nee: !is_delta },
    }
}

/// A BRDF sample is too degenerate to follow: its attenuation's squared
/// length or its pdf compares below the 1e-5 guard. The comparison is the
/// IEEE one, so a NaN pdf is not rejected here — the guards of the
/// arithmetic itself must keep NaN out.
pub open spec fn spec_sample_rejected(attenuation_len_sq: u32, pdf: u32) -> bool {
    fbits::spec_lt(attenuation_len_sq, fbits::F32_GUARD_EPS_BITS) || fbits::spec_lt(
        pdf,
        fbits::F32_GUARD_EPS_BITS,
    )
}

/// Decides whether a BRDF sample (given by the bit patterns of its
/// attenuation's squared length and its pdf) ends the path.
pub fn sample_rejected(attenuation_len_sq: u32, pdf: u32) -> (r: bool)
    ensures
        r == spec_sample_rejected(attenuation_len_sq, pdf),
{
    fbits::f32_bits_lt(attenuation_len_sq, fbits::F32_GUARD_EPS_BITS) || fbits::f32_bits_lt(
        pdf,
        fbits::F32_GUARD_EPS_BITS,
    )
}

/// How the path ends or continues after following a BRDF sample.
#[derive(Clone, Copy, Debug, PartialEq, Eq, Structural)]
pub enum BounceDecision {
    /// The bounce landed on an emitter from a delta surface: deposit
    /// `throughput * emission * attenuation` unweighted — next-event
    /// estimation could not have sampled a Dirac direction — and terminate.
    EmitDelta,
    /// The bounce landed on an emitter from a non-delta surface: deposit
    /// the emission weighted by the BRDF-sample MIS weight and terminate.
    EmitWithMis,
    /// The bounce landed on a non-emissive front face: multiply the
    /// throughput by the sample's attenuation and keep walking.
    Continue,
    /// The bounce escaped or struck a back face: terminate, adding nothing.
    Stop,
}

/// The decision for a followed bounce that arrived at a hit of class
/// `next_class`, leaving a surface that was a delta scatterer iff
/// `is_delta`.
pub open spec fn spec_bounce_decision(is_delta: bool, next_class: HitClass) -> BounceDecision {
    match next_class {
        HitClass::EmissiveFront => if is_delta {
            BounceDecision::EmitDelta
        } else {
            BounceDecision::EmitWithMis
        },
        HitClass::ScatterFront => BounceDecision::Continue,
        HitClass::Miss => BounceDecision::Stop,
        HitClass::BackFace => BounceDecision::Stop,
    }
}

/// Decides how the path proceeds after a followed bounce.
pub fn bounce_decision(is_delta: bool, next_class: HitClass) -> (d: BounceDecision)
    ensures
        d == spec_bounce_decision(is_delta, next_class),
{
    match next_class {
        HitClass::EmissiveFront => if is_delta {
            BounceDecision::EmitDelta
        } else {
            BounceDecision::EmitWithMis
        },
        HitClass::ScatterFront => BounceDecision::Continue,
        HitClass::Miss => BounceDecision::Stop,
        HitClass::BackFace => BounceDecision::Stop,
    }
}

/// The receiving-side cosine of an emitter reached by a bounce compares
/// below the guard: the weighted contribution is dropped (its solid-angle
/// conversion would divide by a near-zero).
pub fn emitter_cosine_rejected(cos_theta_light: u32) -> (r: bool)
    ensures
        r == fbits::spec_lt(cos_theta_light, fbits::F32_GUARD_EPS_BITS),
{
    fbits::f32_bits_lt(cos_theta_light, fbits::F32_GUARD_EPS_BITS)
}

} // verus!
