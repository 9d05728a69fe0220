//! The exact algebra behind multiple importance sampling.
//!
//! The balance heuristic weights two sampling strategies by
//! `p_i / (p_1 + p_2)`. Its correctness rests on two partition-of-unity
//! facts that hold in exact arithmetic: the two balance weights sum to one,
//! and the Disney lobe-selection probabilities sum to one. Both are stated
//! here over exact rationals — a rational is a pair of integers, numerator
//! over positive denominator — and proved; the embedder's floating-point
//! weights are rounded images of these.

use vstd::prelude::*;

verus! {

/// The rationals `a_num / a_den` and `b_num / b_den` are equal (by cross
/// multiplication; meaningful for nonzero denominators).
pub open spec fn rat_eq(a_num: int, a_den: int, b_num: int, b_den: int) -> bool {
    a_num * b_den == b_num * a_den
}

/// Numerator of the balance-heuristic weight of the strategy with density
/// `p_self` against the strategy with density `p_other`.
pub open spec fn mis_weight_num(p_self: int, p_other: int) -> int {
    p_self
}

/// Denominator of the balance-heuristic weight.
pub open spec fn mis_weight_den(p_self: int, p_other: int) -> int {
    p_self + p_other
}

/// The balance heuristic is a partition of unity: for any two strictly
/// positive densities, the light-strategy weight and the BRDF-strategy
/// weight share one denominator, each lies in [0, 1], and their sum is
/// exactly 1.
pub proof fn lemma_mis_weights_partition(pdf_light: int, pdf_brdf: int)
    requires
        pdf_light > 0,
        pdf_brdf > 0,
    ensures
        mis_weight_den(pdf_light, pdf_brdf) == mis_weight_den(pdf_brdf, pdf_light),
        0 < mis_weight_num(pdf_light, pdf_brdf) < mis_weight_den(pdf_light, pdf_brdf),
        0 < mis_weight_num(pdf_brdf, pdf_light) < mis_weight_den(pdf_brdf, pdf_light),
        rat_eq(
            mis_weight_num(pdf_light, pdf_brdf) + mis_weight_num(pdf_brdf, pdf_light),
            mis_weight_den(pdf_light, pdf_brdf),
            1,
            1,
        ),
{
}

/// The Disney sampler picks a lobe with probabilities
/// `p_clearcoat = clearcoat / 4`,
/// `p_specular = (1 - p_clearcoat) * (metallic + (1 - metallic) * specular)`
/// and
/// `p_diffuse = (1 - p_clearcoat) * (1 - metallic) * (1 - specular)`.
/// With the three material parameters given as exact rationals
/// `c / cd`, `m / md`, `s / sd` in [0, 1], the three probabilities — here
/// written over the common denominator `4 * cd * md * sd` — are each
/// nonnegative and sum to exactly 1, so the joint sampled pdf is a genuine
/// mixture density.
pub proof fn lemma_lobe_selection_partition(c: int, cd: int, m: int, md: int, s: int, sd: int)
    requires
        0 <= c <= cd,
        0 <= m <= md,
        0 <= s <= sd,
        cd > 0,
        md > 0,
        sd > 0,
    ensures
        c * (md * sd) >= 0,
        (4 * cd - c) * (m * sd + (md - m) * s) >= 0,
        (4 * cd - c) * ((md - m) * (sd - s)) >= 0,
        c * (md * sd) + (4 * cd - c) * (m * sd + (md - m) * s) + (4 * cd - c) * ((md - m) * (sd
            - s)) == 4 * cd * (md * sd),
{
    assert(c * (md * sd) >= 0) by (nonlinear_arith)
        requires
            c >= 0,
            md > 0,
            sd > 0,
    ;
    assert((4 * cd - c) * (m * sd + (md - m) * s) >= 0) by (nonlinear_arith)
        requires
            0 <= c <= cd,
            0 <= m <= md,
            0 <= s <= sd,
            cd > 0,
            md > 0,
            sd > 0,
    ;
    assert((4 * cd - c) * ((md - m) * (sd - s)) >= 0) by (nonlinear_arith)
        requires
            0 <= c <= cd,
            0 <= m <= md,
            0 <= s <= sd,
    ;
    assert(c * (md * sd) + (4 * cd - c) * (m * sd + (md - m) * s) + (4 * cd - c) * ((md - m) * (sd
        - s)) == 4 * cd * (md * sd)) by (nonlinear_arith);
}

} // verus!
