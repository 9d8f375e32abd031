//! Core of an interactive ripple toy: expanding multi-ring ripple
//! animations over a procedurally shaded background.
//!
//! The library owns the animation model — ripple lifecycle, spawn
//! debouncing, the fixed-point color math of the background variants, and
//! the menu's hit-testing geometry. Quantities that the rendering
//! collaborator handles as floating point are modeled here as scaled
//! integers: lengths in tenths of a canvas unit, times in milliseconds,
//! unit-interval factors in thousandths, and noise coordinates and
//! samples in millionths and thousandths. A frame loop around the library
//! supplies pointer input, elapsed time and a noise source, and turns the
//! draw plans it gets back into actual draw calls.

use vstd::prelude::*;

pub mod background;
pub mod color;
pub mod field;
pub mod menu;
pub mod radial;
pub mod ripple;

verus! {

/// Scale factor for fixed-point "unit" values: 1000 stands for 1.0.
pub const UNIT_K: i64 = 1000;

/// A raw sample pinned into the unit interval [-1.0, 1.0] (thousandths).
pub open spec fn clamped_unit(v: int) -> int {
    if v > UNIT_K {
        UNIT_K as int
    } else if v < -UNIT_K {
        -UNIT_K
    } else {
        v
    }
}

/// Clamp a raw fixed-point noise sample into the unit interval [-1.0, 1.0]
/// (thousandths). Downstream color math assumes a bounded sample, so any
/// out-of-range reading from a noise source is pinned to the nearer bound.
pub fn clamp_unit_k(v: i64) -> (r: i64)
    ensures
        r == clamped_unit(v as int),
        -UNIT_K <= r <= UNIT_K,
        -UNIT_K <= v <= UNIT_K ==> r == v,
{
    if v > UNIT_K {
        UNIT_K
    } else if v < -UNIT_K {
        -UNIT_K
    } else {
        v
    }
}

} // verus!
