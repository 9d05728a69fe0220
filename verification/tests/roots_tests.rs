use raytracer::brdfs::{select_lobe, DisneyLobe};
use raytracer::objects::{select_face, CuboidFace};
use raytracer::roots::{plane_parallel_rejected, rect_contains, select_nearest_root, select_slab_root};

fn b(x: f32) -> u32 {
    x.to_bits()
}

#[test]
fn the_near_root_wins_when_it_lies_in_range() {
    assert_eq!(select_nearest_root(b(1.0), b(3.0), b(1e-5), b(f32::INFINITY)), Some(b(1.0)));
}

#[test]
fn the_far_root_is_tried_when_the_near_one_is_clipped() {
    // Ray origin inside the sphere: the near root is behind the origin.
    assert_eq!(select_nearest_root(b(-2.0), b(4.0), b(1e-5), b(f32::INFINITY)), Some(b(4.0)));
    // Near root clipped by t_min, far root beyond t_max.
    assert_eq!(select_nearest_root(b(-2.0), b(9.0), b(1e-5), b(5.0)), None);
}

#[test]
fn roots_outside_the_range_give_no_hit() {
    assert_eq!(select_nearest_root(b(-3.0), b(-1.0), b(1e-5), b(f32::INFINITY)), None);
    assert_eq!(select_nearest_root(b(10.0), b(20.0), b(1e-5), b(5.0)), None);
}

#[test]
fn slab_roots_accept_the_entry_then_the_exit() {
    assert_eq!(select_slab_root(b(2.0), b(3.0), b(1e-5), b(f32::INFINITY)), Some(b(2.0)));
    assert_eq!(select_slab_root(b(-1.0), b(3.0), b(1e-5), b(f32::INFINITY)), Some(b(3.0)));
    assert_eq!(select_slab_root(b(-4.0), b(-1.0), b(1e-5), b(f32::INFINITY)), None);
    // The inclusive test accepts exact boundary parameters.
    assert_eq!(select_slab_root(b(5.0), b(6.0), b(1e-5), b(5.0)), Some(b(5.0)));
    // A NaN entry parameter is rejected rather than accepted.
    assert_eq!(select_slab_root(b(f32::NAN), b(3.0), b(1e-5), b(10.0)), Some(b(3.0)));
}

#[test]
fn nearly_parallel_rays_are_rejected_by_the_plane_test() {
    assert!(plane_parallel_rejected(b(0.0)));
    assert!(plane_parallel_rejected(b(1e-6)));
    assert!(plane_parallel_rejected(b(-1e-6)));
    assert!(!plane_parallel_rejected(b(0.5)));
    assert!(!plane_parallel_rejected(b(-0.5)));
}

#[test]
fn face_selection_walks_the_cumulative_thresholds() {
    let cdf = [b(0.1), b(0.2), b(0.45), b(0.7), b(0.85)];
    assert_eq!(select_face(b(0.05), &cdf), CuboidFace::XPlus);
    assert_eq!(select_face(b(0.15), &cdf), CuboidFace::XMinus);
    assert_eq!(select_face(b(0.3), &cdf), CuboidFace::YPlus);
    assert_eq!(select_face(b(0.6), &cdf), CuboidFace::YMinus);
    assert_eq!(select_face(b(0.8), &cdf), CuboidFace::ZPlus);
    assert_eq!(select_face(b(0.9), &cdf), CuboidFace::ZMinus);
    // Boundary draws belong to the following face: the comparison is
    // strict.
    assert_eq!(select_face(b(0.1), &cdf), CuboidFace::XMinus);
}

#[test]
fn lobe_selection_walks_the_cumulative_thresholds() {
    let p_clearcoat = 0.25f32;
    let cdf_specular = 0.7f32;
    assert_eq!(select_lobe(b(0.1), b(p_clearcoat), b(cdf_specular)), DisneyLobe::Clearcoat);
    assert_eq!(select_lobe(b(0.25), b(p_clearcoat), b(cdf_specular)), DisneyLobe::Specular);
    assert_eq!(select_lobe(b(0.5), b(p_clearcoat), b(cdf_specular)), DisneyLobe::Specular);
    assert_eq!(select_lobe(b(0.7), b(p_clearcoat), b(cdf_specular)), DisneyLobe::Diffuse);
    assert_eq!(select_lobe(b(0.99), b(p_clearcoat), b(cdf_specular)), DisneyLobe::Diffuse);
    // With no clearcoat the first threshold is zero and can never win.
    assert_eq!(select_lobe(b(0.0), b(0.0), b(0.5)), DisneyLobe::Specular);
}

#[test]
fn rectangle_containment_matches_the_half_extent_test() {
    assert!(rect_contains(b(0.2), b(-0.2), b(0.25), b(0.25)));
    assert!(rect_contains(b(0.25), b(0.25), b(0.25), b(0.25)));
    assert!(!rect_contains(b(0.26), b(0.0), b(0.25), b(0.25)));
    assert!(!rect_contains(b(0.0), b(-0.3), b(0.25), b(0.25)));
}

#[test]
fn the_tangent_axis_avoids_the_dominant_component() {
    assert!(raytracer::vec3::tangent_prefers_x(b(0.9), b(0.1)));
    assert!(raytracer::vec3::tangent_prefers_x(b(-0.9), b(0.1)));
    assert!(!raytracer::vec3::tangent_prefers_x(b(0.1), b(-0.9)));
    assert!(!raytracer::vec3::tangent_prefers_x(b(0.5), b(0.5)));
}
