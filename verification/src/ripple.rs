use vstd::prelude::*;
use crate::color::{Color, palette, random_color};

verus! {

// Tunables of the ripple animation. Lengths are in tenths of a canvas
// unit, so `MAX_RADIUS_T == 2000` stands for a radius of 200.0.

/// Maximum number of concentric rings a ripple shows.
pub const MAX_RINGS: usize = 5;

/// Radius at which a ripple expires and leaves the field (tenths).
pub const MAX_RADIUS_T: u32 = 2000;

/// How much the outer radius grows per tick (tenths; 1.5 units).
pub const RADIUS_INCREMENT_T: u32 = 15;

/// Radius a ripple starts with (tenths; 10 units).
pub const INITIAL_RADIUS_T: u32 = 100;

/// Spacing between consecutive rings, in whole canvas units.
pub const RING_SPACING: u32 = 7;

/// Spacing between consecutive rings, in tenths.
pub const RING_SPACING_T: u32 = 70;

/// Stroke width of a ring outline (tenths; 3 units).
pub const STROKE_WEIGHT_T: u32 = 30;

/// Length of the radius interval over which an expiring ripple fades
/// (tenths; 50 units).
pub const FADE_DISTANCE_T: u32 = 500;

/// Scale of fixed-point opacities: 1000 stands for fully opaque.
pub const OPACITY_UNIT_K: u32 = 1000;

/// One expanding multi-ring animation, spawned by a pointer press.
///
/// The center never moves; the outer radius grows strictly each tick until
/// it reaches `MAX_RADIUS_T`, at which point the owning field removes the
/// ripple. `color_sequence` holds one color per visible ring, innermost
/// ring last; a color, once assigned, never changes.
pub struct Ripple {
    /// Center of every ring, in tenths of a canvas unit.
    pub center_x: i32,
    pub center_y: i32,
    /// Colors of the rings, index 0 for the outermost ring.
    pub color_sequence: Vec<Color>,
    /// Current radius of the outermost ring, in tenths.
    pub radius: u32,
    /// Number of concentric rings currently visible.
    pub copies: usize,
}

/// Whether a ripple that has just grown to `radius` (tenths) while showing
/// `copies` rings earns one more ring: the count is capped at `MAX_RINGS`,
/// and a new ring appears once the whole-unit radius exceeds
/// `copies * RING_SPACING`.
pub open spec fn earns_ring(radius: int, copies: int) -> bool {
    copies < MAX_RINGS && radius / 10 > copies * (RING_SPACING as int)
}

impl Ripple {
    /// Structural invariant: ring count within bounds, one color per ring,
    /// every color from the palette, and the radius far enough out that
    /// even the innermost ring has a positive radius.
    pub open spec fn well_formed(&self) -> bool {
        &&& 1 <= self.copies <= MAX_RINGS
        &&& self.color_sequence@.len() == self.copies
        &&& self.radius >= (self.copies - 1) * (RING_SPACING_T as int) + 10
        &&& forall|i: int|
            0 <= i < self.color_sequence@.len() ==> palette().contains(
                #[trigger] self.color_sequence@[i],
            )
    }

    /// Create a ripple at the given position: initial radius, one ring,
    /// one random palette color.
    pub fn new(center_x: i32, center_y: i32) -> (r: Ripple)
        ensures
            r.well_formed(),
            r.center_x == center_x,
            r.center_y == center_y,
            r.radius == INITIAL_RADIUS_T,
            r.copies == 1,
            r.color_sequence@.len() == 1,
    {
        let mut colors: Vec<Color> = Vec::new();
        colors.push(random_color());
        Ripple { center_x, center_y, color_sequence: colors, radius: INITIAL_RADIUS_T, copies: 1 }
    }

    /// One tick of the growth state machine: the radius grows by
    /// `RADIUS_INCREMENT_T`, and if the new radius has outgrown the
    /// current ring count, one ring with a fresh random color is appended.
    /// Ring colors already assigned are never touched.
    pub fn update(&mut self)
        requires
            old(self).well_formed(),
            old(self).radius < MAX_RADIUS_T,
        ensures
            final(self).well_formed(),
            final(self).center_x == old(self).center_x,
            final(self).center_y == old(self).center_y,
            final(self).radius == old(self).radius + RADIUS_INCREMENT_T,
            earns_ring(old(self).radius + RADIUS_INCREMENT_T, old(self).copies as int) ==> {
                &&& final(self).copies == old(self).copies + 1
                &&& final(self).color_sequence@.len() == old(self).color_sequence@.len() + 1
                &&& palette().contains(final(self).color_sequence@.last())
            },
            !earns_ring(old(self).radius + RADIUS_INCREMENT_T, old(self).copies as int) ==> {
                &&& final(self).copies == old(self).copies
                &&& final(self).color_sequence@ == old(self).color_sequence@
            },
            forall|i: int|
                0 <= i < old(self).color_sequence@.len() ==> final(self).color_sequence@[i] == old(self).color_sequence@[i],
    {
        self.radius = self.radius + RADIUS_INCREMENT_T;
        if self.copies < MAX_RINGS && self.radius / 10 > (self.copies as u32) * RING_SPACING {
            self.copies = self.copies + 1;
            self.color_sequence.push(random_color());
            proof {
                // The new ring count is still covered by the radius: the
                // whole-unit radius exceeds the old count times the spacing.
                assert(self.radius / 10 >= (self.copies - 1) * (RING_SPACING as int) + 1);
                assert(self.radius >= (self.radius / 10) * 10) by {
                    vstd::arithmetic::div_mod::lemma_fundamental_div_mod(
                        self.radius as int,
                        10,
                    );
                }
                assert(self.radius >= (self.copies - 1) * (RING_SPACING_T as int) + 10);
            }
        }
    }

    /// Whether a ripple's radius (tenths) maps to a given opacity
    /// (thousandths): fully opaque until the radius enters the last
    /// `FADE_DISTANCE_T` of growth, then falling linearly to zero at
    /// `max_radius`, and pinned to zero beyond it.
    pub open spec fn opacity_spec(radius: int, max_radius: int, fade_enabled: bool) -> int {
        if !fade_enabled {
            OPACITY_UNIT_K as int
        } else {
            let fade_start = if max_radius >= FADE_DISTANCE_T { max_radius - FADE_DISTANCE_T } else {
                0
            };
            if radius <= fade_start {
                OPACITY_UNIT_K as int
            } else if radius >= fade_start + FADE_DISTANCE_T {
                0
            } else {
                OPACITY_UNIT_K - (radius - fade_start) * 2
            }
        }
    }

    /// Opacity of the whole ripple at its current radius, in thousandths.
    /// Purely radius-based: two ripples at the same radius fade alike, no
    /// matter when they were spawned.
    pub fn opacity(&self, max_radius_t: u32, fade_enabled: bool) -> (k: u32)
        ensures
            k == Self::opacity_spec(self.radius as int, max_radius_t as int, fade_enabled),
            k <= OPACITY_UNIT_K,
    {
        if fade_enabled {
            let fade_start = if max_radius_t >= FADE_DISTANCE_T {
                max_radius_t - FADE_DISTANCE_T
            } else {
                0
            };
            if self.radius <= fade_start {
                OPACITY_UNIT_K
            } else if self.radius - fade_start >= FADE_DISTANCE_T {
                0
            } else {
                OPACITY_UNIT_K - (self.radius - fade_start) * 2
            }
        } else {
            OPACITY_UNIT_K
        }
    }

    /// Whether the ripple has reached its maximum radius and should be
    /// removed from the field this tick.
    pub fn is_expired(&self) -> (e: bool)
        ensures
            e == (self.radius >= MAX_RADIUS_T),
    {
        self.radius >= MAX_RADIUS_T
    }

    /// The draw pass for this ripple: one primitive per ring, outermost
    /// first. Ring `i` is a stroked circle of radius
    /// `radius - i * RING_SPACING_T` in the ring's own color, the whole
    /// ripple at one radius-based opacity. A renderer draws each entry as
    /// a circle, or as a wobbled closed polyline when `wobble` is set.
    pub fn draw_plan(&self, wobble_enabled: bool, fade_enabled: bool) -> (plan: Vec<RingSpec>)
        requires
            self.well_formed(),
        ensures
            plan@.len() == self.copies,
            forall|i: int|
                0 <= i < plan@.len() ==> {
                    let ring = #[trigger] plan@[i];
                    &&& ring.center_x == self.center_x
                    &&& ring.center_y == self.center_y
                    &&& ring.radius_t == self.radius - i * RING_SPACING_T
                    &&& ring.radius_t > 0
                    &&& ring.color == self.color_sequence@[i]
                    &&& ring.opacity_k == Self::opacity_spec(
                        self.radius as int,
                        MAX_RADIUS_T as int,
                        fade_enabled,
                    )
                    &&& ring.wobble == wobble_enabled
                    &&& ring.stroke_weight_t == STROKE_WEIGHT_T
                },
    {
        let opacity_k = self.opacity(MAX_RADIUS_T, fade_enabled);
        let mut plan: Vec<RingSpec> = Vec::new();
        let mut i: usize = 0;
        while i < self.copies
            invariant
                self.well_formed(),
                0 <= i <= self.copies,
                plan@.len() == i,
                forall|j: int|
                    0 <= j < plan@.len() ==> {
                        let ring = #[trigger] plan@[j];
                        &&& ring.center_x == self.center_x
                        &&& ring.center_y == self.center_y
                        &&& ring.radius_t == self.radius - j * RING_SPACING_T
                        &&& ring.radius_t > 0
                        &&& ring.color == self.color_sequence@[j]
                        &&& ring.opacity_k == opacity_k
                        &&& ring.wobble == wobble_enabled
                        &&& ring.stroke_weight_t == STROKE_WEIGHT_T
                    },
                opacity_k == Self::opacity_spec(
                    self.radius as int,
                    MAX_RADIUS_T as int,
                    fade_enabled,
                ),
            decreases self.copies - i,
        {
            let ring_radius = self.radius - (i as u32) * RING_SPACING_T;
            plan.push(
                RingSpec {
                    center_x: self.center_x,
                    center_y: self.center_y,
                    radius_t: ring_radius,
                    color: self.color_sequence[i],
                    opacity_k,
                    wobble: wobble_enabled,
                    stroke_weight_t: STROKE_WEIGHT_T,
                },
            );
            i = i + 1;
        }
        plan
    }
}

/// One ring of a ripple, ready to draw: a stroked circle, or a wobbled
/// closed polyline when `wobble` is set, at the given center, radius,
/// color and opacity.
pub struct RingSpec {
    /// Center of the ring, in tenths of a canvas unit.
    pub center_x: i32,
    pub center_y: i32,
    /// Radius of the ring, in tenths; always positive.
    pub radius_t: u32,
    /// The ring's fixed color.
    pub color: Color,
    /// Opacity of the stroke, in thousandths.
    pub opacity_k: u32,
    /// Whether the outline should be drawn with the organic radial jitter
    /// instead of a perfect circle.
    pub wobble: bool,
    /// Width of the stroke, in tenths.
    pub stroke_weight_t: u32,
}

/// Fade monotonicity: with fading enabled, opacity is a non-increasing
/// function of the radius; it stays at full opacity until the radius
/// passes `max_radius - FADE_DISTANCE_T` and reaches exactly zero at
/// `max_radius`.
pub proof fn lemma_fade_monotone(r1: int, r2: int, max_radius: int)
    requires
        max_radius >= FADE_DISTANCE_T,
        r1 <= r2,
    ensures
        Ripple::opacity_spec(r2, max_radius, true) <= Ripple::opacity_spec(r1, max_radius, true),
        Ripple::opacity_spec(max_radius, max_radius, true) == 0,
        r1 <= max_radius - FADE_DISTANCE_T ==> Ripple::opacity_spec(r1, max_radius, true)
            == OPACITY_UNIT_K,
{
}

/// Ring-count/color invariant: a well-formed ripple always shows between
/// one and `MAX_RINGS` rings and holds exactly one color per ring.
pub proof fn lemma_ring_count_invariant(r: Ripple)
    requires
        r.well_formed(),
    ensures
        r.color_sequence@.len() == r.copies,
        1 <= r.copies <= MAX_RINGS,
{
}

} // verus!

