use noise::{NoiseFn, Perlin};
use ripples::background::{octave_coords, row_color_from_samples, water_config};
use ripples::clamp_unit_k;

/// Sample the noise source at fixed-point coordinates (millionths of a
/// noise unit) and return the sample in thousandths, defensively pinned
/// into the unit interval — the frame loop's side of the noise boundary.
fn sample_k(perlin: &Perlin, coords: (i64, i64, i64)) -> i64 {
    let v = perlin.get([
        coords.0 as f64 / 1_000_000.0,
        coords.1 as f64 / 1_000_000.0,
        coords.2 as f64 / 1_000_000.0,
    ]);
    clamp_unit_k((v * 1000.0) as i64)
}

#[test]
fn noise_stays_in_unit_interval() {
    // A broad sweep of seeds and coordinates: every raw sample lies in
    // [-1, 1], so the clamp never has to change a value.
    for seed in 0..20u32 {
        let perlin = Perlin::new(seed);
        for i in 0..500 {
            let x = (i as f64) * 0.137 - 31.4;
            let y = (i as f64) * 0.219 + 7.9;
            let z = (i as f64) * 0.071 - 1.5;
            let v = perlin.get([x, y, z]);
            assert!((-1.0..=1.0).contains(&v), "sample {v} out of range");
            let k = (v * 1000.0) as i64;
            assert_eq!(clamp_unit_k(k), k);
        }
    }
}

#[test]
fn water_row_color_is_reproducible() {
    // Two noise sources built from the same seed must shade a fixed row
    // at a fixed time to exactly the same color, bit for bit.
    let cfg = water_config();
    let (y, bottom, top) = (120, -3000, 3000);
    let time_ms = 12_345;
    let mut colors = Vec::new();
    for _ in 0..2 {
        let perlin = Perlin::new(9001);
        let mut samples = Vec::new();
        for i in 0..cfg.detail_levels {
            samples.push(sample_k(&perlin, octave_coords(&cfg, time_ms, y, i)));
        }
        colors.push(row_color_from_samples(&cfg, y, bottom, top, &samples));
    }
    assert_eq!(colors[0], colors[1]);
    assert!(colors[0].red <= 1000 && colors[0].green <= 1000 && colors[0].blue <= 1000);
}

#[test]
fn different_seeds_may_shade_differently() {
    // The color genuinely depends on the noise source: across a spread of
    // rows, two different seeds do not agree everywhere.
    let cfg = water_config();
    let a = Perlin::new(1);
    let b = Perlin::new(2);
    let mut differs = false;
    for row in 0..50 {
        let y = row * 60 - 1500;
        let mut sa = Vec::new();
        let mut sb = Vec::new();
        for i in 0..cfg.detail_levels {
            let c = octave_coords(&cfg, 777, y, i);
            sa.push(sample_k(&a, c));
            sb.push(sample_k(&b, c));
        }
        if row_color_from_samples(&cfg, y, -1500, 1500, &sa)
            != row_color_from_samples(&cfg, y, -1500, 1500, &sb)
        {
            differs = true;
        }
    }
    assert!(differs);
}
