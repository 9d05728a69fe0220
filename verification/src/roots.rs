//! Root selection for primitive intersection.
//!
//! Every primitive's intersection ends the same way: the arithmetic yields
//! one or two candidate ray parameters, and a chain of float comparisons
//! decides which, if either, lies in the accepted `[t_min, t_max]` range.
//! Those comparisons are decided here, exactly, on the bit patterns, with
//! the same NaN behavior the float comparisons have.

use crate::fbits;
use vstd::prelude::*;

verus! {

/// The candidate is thrown out of `[t_min, t_max]` by the exclusion test
/// `t < t_min || t > t_max` — the sphere's form of the range check. A NaN
/// candidate fails both comparisons and is therefore not excluded.
pub open spec fn spec_excluded(t: u32, t_min: u32, t_max: u32) -> bool {
    fbits::spec_lt(t, t_min) || fbits::spec_lt(t_max, t)
}

/// The nearest acceptable quadratic root: the near root unless the range
/// excludes it, else the far root unless the range excludes it, else
/// nothing. The sphere tries the far root exactly when the near one is
/// clipped.
pub open spec fn spec_select_nearest_root(t_near: u32, t_far: u32, t_min: u32, t_max: u32) -> Option<
    u32,
> {
    if !spec_excluded(t_near, t_min, t_max) {
        Some(t_near)
    } else if !spec_excluded(t_far, t_min, t_max) {
        Some(t_far)
    } else {
        None
    }
}

/// Selects the nearest acceptable root of a quadratic intersection.
pub fn select_nearest_root(t_near: u32, t_far: u32, t_min: u32, t_max: u32) -> (r: Option<u32>)
    ensures
        r == spec_select_nearest_root(t_near, t_far, t_min, t_max),
{
    if !(fbits::f32_bits_lt(t_near, t_min) || fbits::f32_bits_lt(t_max, t_near)) {
        Some(t_near)
    } else if !(fbits::f32_bits_lt(t_far, t_min) || fbits::f32_bits_lt(t_max, t_far)) {
        Some(t_far)
    } else {
        None
    }
}

/// The slab entry/exit choice of the box intersection: the entry parameter
/// when the inclusive test `t_min <= t <= t_max` accepts it, else the exit
/// parameter, else nothing. The inclusive test rejects NaN.
pub open spec fn spec_select_slab_root(t_near: u32, t_far: u32, t_min: u32, t_max: u32) -> Option<
    u32,
> {
    if fbits::spec_le(t_min, t_near) && fbits::spec_le(t_near, t_max) {
        Some(t_near)
    } else if fbits::spec_le(t_min, t_far) && fbits::spec_le(t_far, t_max) {
        Some(t_far)
    } else {
        None
    }
}

/// Selects the accepted parameter of a slab intersection.
pub fn select_slab_root(t_near: u32, t_far: u32, t_min: u32, t_max: u32) -> (r: Option<u32>)
    ensures
        r == spec_select_slab_root(t_near, t_far, t_min, t_max),
{
    if fbits::f32_bits_le(t_min, t_near) && fbits::f32_bits_le(t_near, t_max) {
        Some(t_near)
    } else if fbits::f32_bits_le(t_min, t_far) && fbits::f32_bits_le(t_far, t_max) {
        Some(t_far)
    } else {
        None
    }
}

/// The rectangle's plane test rejects a ray whose direction is within the
/// guard of parallel: `|direction . normal| < 1e-5`, decided by clearing
/// the dot product's sign bit.
pub fn plane_parallel_rejected(direction_dot_normal: u32) -> (r: bool)
    ensures
        r == fbits::spec_lt(fbits::spec_abs(direction_dot_normal), fbits::F32_GUARD_EPS_BITS),
{
    fbits::f32_bits_lt(fbits::f32_bits_abs(direction_dot_normal), fbits::F32_GUARD_EPS_BITS)
}

/// A plane hit lies on the rectangle: its local coordinates are accepted
/// unless either magnitude exceeds the half-extent —
/// `|x| <= size.x / 2 && |y| <= size.y / 2` in the comparison form the
/// intersection uses.
pub open spec fn spec_rect_contains(local_x: u32, local_y: u32, half_x: u32, half_y: u32) -> bool {
    !(fbits::spec_lt(half_x, fbits::spec_abs(local_x)) || fbits::spec_lt(
        half_y,
        fbits::spec_abs(local_y),
    ))
}

/// Decides whether the projected hit point lies within the rectangle's
/// extent.
pub fn rect_contains(local_x: u32, local_y: u32, half_x: u32, half_y: u32) -> (r: bool)
    ensures
        r == spec_rect_contains(local_x, local_y, half_x, half_y),
{
    !(fbits::f32_bits_lt(half_x, fbits::f32_bits_abs(local_x)) || fbits::f32_bits_lt(
        half_y,
        fbits::f32_bits_abs(local_y),
    ))
}

} // verus!
