use ripples::color::{Color, PALETTE_LEN};
use ripples::color::random_color;
use ripples::ripple::{Ripple, FADE_DISTANCE_T, MAX_RADIUS_T, MAX_RINGS};

fn palette_vec() -> Vec<Color> {
    vec![
        Color { red: 255, green: 222, blue: 173 },
        Color { red: 250, green: 250, blue: 210 },
        Color { red: 250, green: 235, blue: 215 },
        Color { red: 255, green: 235, blue: 205 },
        Color { red: 255, green: 255, blue: 255 },
        Color { red: 224, green: 255, blue: 255 },
        Color { red: 135, green: 206, blue: 235 },
        Color { red: 176, green: 196, blue: 222 },
    ]
}

fn ripple_at(radius: u32, copies: usize) -> Ripple {
    let palette = palette_vec();
    Ripple {
        center_x: 0,
        center_y: 0,
        color_sequence: palette[..copies].to_vec(),
        radius,
        copies,
    }
}

#[test]
fn growth_scenario_five_ticks() {
    // Spawned at radius 10.0, increment 1.5, ring spacing 7: the radius
    // trace is 11.5, 13, 14.5, 16, 17.5 and a second ring appears as soon
    // as the whole-unit radius exceeds 7, a third when it exceeds 14.
    let mut r = Ripple::new(0, 0);
    assert_eq!(r.radius, 100);
    assert_eq!(r.copies, 1);
    let expected_radius = [115, 130, 145, 160, 175];
    let expected_copies = [2, 2, 2, 3, 3];
    for i in 0..5 {
        r.update();
        assert_eq!(r.radius, expected_radius[i]);
        assert_eq!(r.copies, expected_copies[i]);
        assert_eq!(r.color_sequence.len(), r.copies);
    }
}

#[test]
fn radius_strictly_increases() {
    let mut r = Ripple::new(0, 0);
    let mut previous = r.radius;
    while !r.is_expired() {
        r.update();
        assert!(r.radius > previous);
        previous = r.radius;
    }
}

#[test]
fn ring_count_capped_and_in_lockstep() {
    let mut r = Ripple::new(50, -70);
    while !r.is_expired() {
        r.update();
        assert!(1 <= r.copies && r.copies <= MAX_RINGS);
        assert_eq!(r.color_sequence.len(), r.copies);
    }
    assert_eq!(r.copies, MAX_RINGS);
}

#[test]
fn ring_colors_never_change() {
    let mut r = Ripple::new(0, 0);
    let mut seen: Vec<Color> = r.color_sequence.clone();
    while !r.is_expired() {
        r.update();
        assert_eq!(&r.color_sequence[..seen.len()], &seen[..]);
        seen = r.color_sequence.clone();
    }
}

#[test]
fn opacity_fades_over_last_distance() {
    assert_eq!(ripple_at(100, 1).opacity(MAX_RADIUS_T, true), 1000);
    assert_eq!(ripple_at(1500, 1).opacity(MAX_RADIUS_T, true), 1000);
    assert_eq!(ripple_at(1600, 1).opacity(MAX_RADIUS_T, true), 800);
    assert_eq!(ripple_at(1750, 1).opacity(MAX_RADIUS_T, true), 500);
    assert_eq!(ripple_at(1999, 1).opacity(MAX_RADIUS_T, true), 2);
    assert_eq!(ripple_at(2000, 1).opacity(MAX_RADIUS_T, true), 0);
    assert_eq!(ripple_at(2100, 1).opacity(MAX_RADIUS_T, true), 0);
}

#[test]
fn opacity_nonincreasing_in_radius() {
    let mut previous = 1000;
    for radius in 100..=2100 {
        let o = ripple_at(radius, 1).opacity(MAX_RADIUS_T, true);
        assert!(o <= previous);
        previous = o;
    }
}

#[test]
fn opacity_full_without_fade() {
    assert_eq!(ripple_at(1999, 1).opacity(MAX_RADIUS_T, false), 1000);
    assert_eq!(ripple_at(100, 1).opacity(MAX_RADIUS_T, false), 1000);
}

#[test]
fn fade_starts_at_fade_distance_from_expiry() {
    let fade_start = MAX_RADIUS_T - FADE_DISTANCE_T;
    assert_eq!(ripple_at(fade_start, 1).opacity(MAX_RADIUS_T, true), 1000);
    assert_eq!(ripple_at(fade_start + 1, 1).opacity(MAX_RADIUS_T, true), 998);
}

#[test]
fn expiry_boundary() {
    assert!(!ripple_at(1999, 1).is_expired());
    assert!(ripple_at(2000, 1).is_expired());
    assert!(ripple_at(2015, 1).is_expired());
}

#[test]
fn random_color_stays_in_palette() {
    let palette = palette_vec();
    assert_eq!(palette.len(), PALETTE_LEN);
    for _ in 0..200 {
        let c = random_color();
        assert!(palette.contains(&c));
    }
}

#[test]
fn draw_plan_one_ring_per_color() {
    let r = ripple_at(300, 3);
    let plan = r.draw_plan(true, true);
    assert_eq!(plan.len(), 3);
    let expected_radii = [300, 230, 160];
    for (i, ring) in plan.iter().enumerate() {
        assert_eq!(ring.center_x, 0);
        assert_eq!(ring.center_y, 0);
        assert_eq!(ring.radius_t, expected_radii[i]);
        assert_eq!(ring.color, r.color_sequence[i]);
        assert_eq!(ring.opacity_k, 1000);
        assert!(ring.wobble);
        assert_eq!(ring.stroke_weight_t, 30);
    }
}

#[test]
fn draw_plan_carries_fade_and_wobble() {
    let r = ripple_at(1750, 2);
    let plan = r.draw_plan(false, true);
    assert_eq!(plan.len(), 2);
    assert_eq!(plan[0].opacity_k, 500);
    assert_eq!(plan[1].opacity_k, 500);
    assert!(!plan[0].wobble);
}
