use vstd::prelude::*;
use vstd::arithmetic::div_mod::{lemma_div_is_ordered, lemma_div_multiples_vanish};

verus! {

/// How many rays the radial background draws, one per angular step of a
/// full turn divided by this count.
pub const RADIAL_RAYS: usize = 300;

/// How many sub-segments each ray is divided into, each with its own
/// opacity.
pub const RADIAL_SEGMENTS: usize = 15;

/// Speed of the center-brightness pulse (thousandths per time unit).
pub const RADIAL_ANIMATION_SPEED_K: u32 = 100;

/// Speed at which the ray colors drift through noise space (thousandths
/// per time unit).
pub const RADIAL_COLOR_SPEED_K: u32 = 200;

/// How far along a ray a segment boundary sits, in thousandths of the
/// ray's length.
pub open spec fn segment_fraction_spec(j: int, segments: int) -> int {
    j * 1000 / segments
}

/// The fraction (thousandths) of the ray length where segment boundary
/// `j` of `segments` lies.
pub fn radial_segment_fraction_k(j: usize, segments: usize) -> (f: u32)
    requires
        0 < segments <= 1000,
        j <= segments,
    ensures
        f == segment_fraction_spec(j as int, segments as int),
        f <= 1000,
{
    proof {
        assert((j as int) * 1000 <= (segments as int) * 1000) by (nonlinear_arith)
            requires
                j <= segments,
        ;
        lemma_div_is_ordered((j as int) * 1000, (segments as int) * 1000, segments as int);
        lemma_div_multiples_vanish(1000, segments as int);
    }
    ((j * 1000) / segments) as u32
}

/// A radial segment's opacity, in thousandths: brightest at the center
/// segment, then fading with the segment's start fraction `t` along the
/// ray as `0.7 * (1 - t)`.
pub open spec fn segment_opacity_spec(j: int, segments: int) -> int {
    if j == 0 {
        900
    } else {
        700 * (1000 - segment_fraction_spec(j, segments)) / 1000
    }
}

/// Opacity of segment `j` of a ray divided into `segments`.
pub fn radial_segment_opacity_k(j: usize, segments: usize) -> (o: u32)
    requires
        0 < segments <= 1000,
        j < segments,
    ensures
        o == segment_opacity_spec(j as int, segments as int),
        o <= 900,
{
    if j == 0 {
        900
    } else {
        let frac = radial_segment_fraction_k(j, segments);
        proof {
            lemma_div_is_ordered(700 * (1000 - frac as int), 700_000, 1000);
        }
        700 * (1000 - frac) / 1000
    }
}

/// How far a ray reaches: the larger of the canvas's width and height
/// (tenths of a canvas unit).
pub fn radial_ray_length_t(width_t: u32, height_t: u32) -> (l: u32)
    ensures
        l == if width_t >= height_t { width_t } else { height_t },
{
    if width_t >= height_t {
        width_t
    } else {
        height_t
    }
}

/// Where segment `j` of a ray starts and ends, as distances from the
/// center (tenths of a canvas unit) along the ray.
pub fn radial_segment_bounds_t(length_t: u32, j: usize, segments: usize) -> (b: (u32, u32))
    requires
        0 < segments <= 1000,
        j < segments,
        length_t <= 100_000_000,
    ensures
        b.0 == length_t * segment_fraction_spec(j as int, segments as int) / 1000,
        b.1 == length_t * segment_fraction_spec(j + 1, segments as int) / 1000,
        b.0 <= length_t,
        b.1 <= length_t,
{
    let f0 = radial_segment_fraction_k(j, segments);
    let f1 = radial_segment_fraction_k(j + 1, segments);
    proof {
        assert((length_t as int) * f0 <= (length_t as int) * 1000) by (nonlinear_arith)
            requires
                f0 <= 1000,
                0 <= length_t,
        ;
        assert((length_t as int) * f1 <= (length_t as int) * 1000) by (nonlinear_arith)
            requires
                f1 <= 1000,
                0 <= length_t,
        ;
        lemma_div_is_ordered((length_t as int) * f0, (length_t as int) * 1000, 1000);
        lemma_div_is_ordered((length_t as int) * f1, (length_t as int) * 1000, 1000);
        lemma_div_multiples_vanish(length_t as int, 1000);
    }
    let start = ((length_t as u64) * (f0 as u64) / 1000) as u32;
    let end = ((length_t as u64) * (f1 as u64) / 1000) as u32;
    (start, end)
}

} // verus!
