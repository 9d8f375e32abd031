use ripples::radial::{
    radial_ray_length_t, radial_segment_bounds_t, radial_segment_fraction_k,
    radial_segment_opacity_k, RADIAL_RAYS, RADIAL_SEGMENTS,
};

#[test]
fn segment_fractions_divide_the_ray() {
    assert_eq!(radial_segment_fraction_k(0, 15), 0);
    assert_eq!(radial_segment_fraction_k(1, 15), 66);
    assert_eq!(radial_segment_fraction_k(5, 15), 333);
    assert_eq!(radial_segment_fraction_k(15, 15), 1000);
}

#[test]
fn segment_opacity_fades_outward() {
    assert_eq!(radial_segment_opacity_k(0, 15), 900);
    assert_eq!(radial_segment_opacity_k(1, 15), 653); // 0.7 * (1 - 1/15)
    assert_eq!(radial_segment_opacity_k(14, 15), 46);
    let mut previous = radial_segment_opacity_k(1, 15);
    for j in 2..15 {
        let o = radial_segment_opacity_k(j, 15);
        assert!(o <= previous);
        previous = o;
    }
}

#[test]
fn ray_reaches_farthest_extent() {
    assert_eq!(radial_ray_length_t(8000, 6000), 8000);
    assert_eq!(radial_ray_length_t(6000, 8000), 8000);
    assert_eq!(radial_ray_length_t(500, 500), 500);
}

#[test]
fn segment_bounds_follow_fractions() {
    let (s, e) = radial_segment_bounds_t(1500, 3, 15);
    assert_eq!(s, 300); // 1500 * 200 / 1000
    assert_eq!(e, 399); // 1500 * 266 / 1000
    let (s0, _) = radial_segment_bounds_t(1500, 0, 15);
    assert_eq!(s0, 0);
    let (_, last) = radial_segment_bounds_t(1500, 14, 15);
    assert_eq!(last, 1500);
}

#[test]
fn radial_defaults() {
    assert_eq!(RADIAL_RAYS, 300);
    assert_eq!(RADIAL_SEGMENTS, 15);
}
