use vstd::prelude::*;
use crate::{clamped_unit, clamp_unit_k};
use vstd::arithmetic::div_mod::lemma_div_is_ordered;

verus! {

/// Which full-canvas procedural background is active.
#[derive(Clone, Copy, PartialEq, Eq, Structural, Debug)]
pub enum BackgroundType {
    Off,
    Water,
    Lava,
    Radial,
}

impl BackgroundType {
    /// The next variant when the background button is clicked: the four
    /// variants cycle in a fixed order.
    pub fn cycle(self) -> (n: BackgroundType)
        ensures
            self == BackgroundType::Off ==> n == BackgroundType::Water,
            self == BackgroundType::Water ==> n == BackgroundType::Lava,
            self == BackgroundType::Lava ==> n == BackgroundType::Radial,
            self == BackgroundType::Radial ==> n == BackgroundType::Off,
    {
        match self {
            BackgroundType::Off => BackgroundType::Water,
            BackgroundType::Water => BackgroundType::Lava,
            BackgroundType::Lava => BackgroundType::Radial,
            BackgroundType::Radial => BackgroundType::Off,
        }
    }
}

/// A color with channels in thousandths of full intensity: 1000 stands
/// for a channel value of 1.0.
#[derive(Clone, Copy, PartialEq, Eq, Structural, Debug)]
pub struct ColorK {
    pub red: u32,
    pub green: u32,
    pub blue: u32,
}

impl ColorK {
    /// Every channel within the displayable range.
    pub open spec fn well_formed(&self) -> bool {
        self.red <= 1000 && self.green <= 1000 && self.blue <= 1000
    }
}

/// How far down the canvas a row sits, in thousandths: 0 at the bottom
/// edge, 1000 at the top. A degenerate canvas (no height) is treated as
/// one unit high rather than dividing by zero, and the result is pinned
/// into [0, 1000].
pub open spec fn depth_factor_spec(y: int, bottom: int, top: int) -> int {
    let h = if top > bottom {
        top - bottom
    } else {
        1
    };
    if y <= bottom {
        0
    } else if (y - bottom) * 1000 / h > 1000 {
        1000
    } else {
        (y - bottom) * 1000 / h
    }
}

/// Depth factor of the row at height `y` on a canvas spanning `bottom`
/// to `top` (canvas units), in thousandths.
pub fn depth_factor_k(y: i32, bottom: i32, top: i32) -> (df: u32)
    requires
        -10_000_000 <= y <= 10_000_000,
        -10_000_000 <= bottom <= 10_000_000,
        -10_000_000 <= top <= 10_000_000,
    ensures
        df == depth_factor_spec(y as int, bottom as int, top as int),
        df <= 1000,
{
    let h: u64 = if top > bottom {
        ((top as i64) - (bottom as i64)) as u64
    } else {
        1
    };
    if y <= bottom {
        0
    } else {
        let num: u64 = (((y as i64) - (bottom as i64)) as u64) * 1000;
        let raw = num / h;
        if raw > 1000 {
            1000
        } else {
            raw as u32
        }
    }
}

/// Linear interpolation of one color channel, in thousandths: the weighted
/// average of `a` and `b` with weight `p` toward `b`.
pub open spec fn lerp_channel_spec(a: int, b: int, p: int) -> int {
    (a * (1000 - p) + b * p) / 1000
}

/// Interpolate one channel (thousandths) by `p` thousandths toward `b`.
pub fn lerp_channel_k(a: u32, b: u32, p: u32) -> (c: u32)
    requires
        a <= 1000,
        b <= 1000,
        p <= 1000,
    ensures
        c == lerp_channel_spec(a as int, b as int, p as int),
        c <= 1000,
{
    proof {
        assert(a * (1000 - p) <= 1000 * (1000 - p)) by (nonlinear_arith)
            requires
                a <= 1000,
                p <= 1000,
        ;
        assert(b * p <= 1000 * p) by (nonlinear_arith)
            requires
                b <= 1000,
        ;
        lemma_div_is_ordered(a * (1000 - p) + b * p, 1_000_000, 1000);
    }
    (a * (1000 - p) + b * p) / 1000
}

/// Linear interpolation between two colors, channel by channel.
pub open spec fn lerp_color_spec(a: ColorK, b: ColorK, p: int) -> ColorK {
    ColorK {
        red: lerp_channel_spec(a.red as int, b.red as int, p) as u32,
        green: lerp_channel_spec(a.green as int, b.green as int, p) as u32,
        blue: lerp_channel_spec(a.blue as int, b.blue as int, p) as u32,
    }
}

/// Interpolate between two colors by `p` thousandths.
pub fn lerp_color_k(a: ColorK, b: ColorK, p: u32) -> (c: ColorK)
    requires
        a.well_formed(),
        b.well_formed(),
        p <= 1000,
    ensures
        c == lerp_color_spec(a, b, p as int),
        c.well_formed(),
{
    ColorK {
        red: lerp_channel_k(a.red, b.red, p),
        green: lerp_channel_k(a.green, b.green, p),
        blue: lerp_channel_k(a.blue, b.blue, p),
    }
}

/// One color channel lit by a noise value: the channel (thousandths) is
/// scaled by `1 + noise * strength`, with the noise value in millionths
/// and the strength in thousandths, and the result capped at full
/// intensity.
pub open spec fn shaded_channel_spec(c: int, noise_u: int, strength_k: int) -> int {
    let v = c * (1_000_000_000 + noise_u * strength_k) / 1_000_000_000;
    if v > 1000 {
        1000
    } else {
        v
    }
}

/// Apply the light factor `1 + noise * strength` to a channel.
pub fn shaded_channel_k(c: u32, noise_u: i64, strength_k: u32) -> (s: u32)
    requires
        c <= 1000,
        -2_000_000 <= noise_u <= 2_000_000,
        strength_k <= 400,
    ensures
        s == shaded_channel_spec(c as int, noise_u as int, strength_k as int),
        s <= 1000,
{
    proof {
        assert(-800_000_000 <= noise_u * strength_k <= 800_000_000) by (nonlinear_arith)
            requires
                -2_000_000 <= noise_u <= 2_000_000,
                0 <= strength_k <= 400,
        ;
    }
    let num: i64 = 1_000_000_000 + noise_u * (strength_k as i64);
    proof {
        assert((c as u64) * (num as u64) <= 1000 * 1_800_000_000) by (nonlinear_arith)
            requires
                c <= 1000,
                0 <= (num as u64) <= 1_800_000_000,
        ;
    }
    let v: u64 = (c as u64) * (num as u64) / 1_000_000_000;
    if v > 1000 {
        1000
    } else {
        v as u32
    }
}

/// The dark color of the deepest water rows.
pub open spec fn water_deep_color() -> ColorK {
    ColorK { red: 0, green: 50, blue: 200 }
}

/// The bright color of the water surface rows.
pub open spec fn water_surface_color() -> ColorK {
    ColorK { red: 0, green: 300, blue: 600 }
}

/// The dark red of the deepest lava rows.
pub open spec fn lava_deep_color() -> ColorK {
    ColorK { red: 400, green: 0, blue: 0 }
}

/// The orange-red of the topmost lava rows.
pub open spec fn lava_surface_color() -> ColorK {
    ColorK { red: 900, green: 300, blue: 0 }
}

/// A scanline's color: the vertical gradient from `deep` to `surface` at
/// the row's depth factor, then every channel lit by the noise value.
pub open spec fn row_color_spec(
    y: int,
    bottom: int,
    top: int,
    noise_u: int,
    deep: ColorK,
    surface: ColorK,
    strength_k: int,
) -> ColorK {
    let base = lerp_color_spec(deep, surface, depth_factor_spec(y, bottom, top));
    ColorK {
        red: shaded_channel_spec(base.red as int, noise_u, strength_k) as u32,
        green: shaded_channel_spec(base.green as int, noise_u, strength_k) as u32,
        blue: shaded_channel_spec(base.blue as int, noise_u, strength_k) as u32,
    }
}

/// Color of one scanline, from the row's position and a fractal noise
/// value (millionths).
pub fn row_color_k(
    y: i32,
    bottom: i32,
    top: i32,
    noise_u: i64,
    deep: ColorK,
    surface: ColorK,
    strength_k: u32,
) -> (c: ColorK)
    requires
        -10_000_000 <= y <= 10_000_000,
        -10_000_000 <= bottom <= 10_000_000,
        -10_000_000 <= top <= 10_000_000,
        -2_000_000 <= noise_u <= 2_000_000,
        deep.well_formed(),
        surface.well_formed(),
        strength_k <= 400,
    ensures
        c == row_color_spec(
            y as int,
            bottom as int,
            top as int,
            noise_u as int,
            deep,
            surface,
            strength_k as int,
        ),
        c.well_formed(),
{
    let df = depth_factor_k(y, bottom, top);
    let base = lerp_color_k(deep, surface, df);
    ColorK {
        red: shaded_channel_k(base.red, noise_u, strength_k),
        green: shaded_channel_k(base.green, noise_u, strength_k),
        blue: shaded_channel_k(base.blue, noise_u, strength_k),
    }
}

/// Amplitude of the `i`-th noise octave, in thousandths: the base
/// amplitude (thousandths) raised to the `i`-th power.
pub open spec fn pow_amp(base_k: int, i: nat) -> int
    decreases i,
{
    if i == 0 {
        1000
    } else {
        pow_amp(base_k, (i - 1) as nat) * base_k / 1000
    }
}

/// Sum of the amplitudes of the first `n` octaves, in thousandths.
pub open spec fn amp_sum(base_k: int, n: nat) -> int
    decreases n,
{
    if n == 0 {
        0
    } else {
        amp_sum(base_k, (n - 1) as nat) + pow_amp(base_k, (n - 1) as nat)
    }
}

/// The fractal (multi-octave) noise sum, in millionths: each sample
/// (thousandths) weighted by its octave's amplitude (thousandths).
pub open spec fn fractal_sum_spec(samples: Seq<i64>, base_k: int) -> int
    decreases samples.len(),
{
    if samples.len() == 0 {
        0
    } else {
        fractal_sum_spec(samples.drop_last(), base_k) + pow_amp(
            base_k,
            (samples.len() - 1) as nat,
        ) * samples.last()
    }
}

/// Octave amplitudes never grow: with a base amplitude of at most one,
/// every octave's amplitude stays within [0, 1].
pub proof fn lemma_pow_amp_bounds(base_k: int, i: nat)
    requires
        0 <= base_k <= 1000,
    ensures
        0 <= pow_amp(base_k, i) <= 1000,
    decreases i,
{
    if i > 0 {
        lemma_pow_amp_bounds(base_k, (i - 1) as nat);
        let p = pow_amp(base_k, (i - 1) as nat);
        assert(0 <= p * base_k <= 1_000_000) by (nonlinear_arith)
            requires
                0 <= p <= 1000,
                0 <= base_k <= 1000,
        ;
        lemma_div_is_ordered(p * base_k, 1_000_000, 1000);
        lemma_div_is_ordered(0, p * base_k, 1000);
    }
}

/// The amplitude sum of `n` octaves lies within [0, n].
pub proof fn lemma_amp_sum_bounds(base_k: int, n: nat)
    requires
        0 <= base_k <= 1000,
    ensures
        0 <= amp_sum(base_k, n) <= 1000 * n,
    decreases n,
{
    if n > 0 {
        lemma_amp_sum_bounds(base_k, (n - 1) as nat);
        lemma_pow_amp_bounds(base_k, (n - 1) as nat);
    }
}

/// The fractal noise sum of the first `detail_levels` octaves of a set of
/// unit-bounded samples: sample `i` (thousandths, within [-1000, 1000])
/// weighted by amplitude `base^i`. The result is in millionths and
/// bounded by the amplitude sum.
pub fn fractal_sum_u(samples: &Vec<i64>, base_amplitude_k: u32) -> (sum_u: i64)
    requires
        base_amplitude_k <= 1000,
        samples@.len() <= 16,
        forall|i: int| 0 <= i < samples@.len() ==> -1000 <= #[trigger] samples@[i] <= 1000,
    ensures
        sum_u == fractal_sum_spec(samples@, base_amplitude_k as int),
        -1000 * amp_sum(base_amplitude_k as int, samples@.len()) <= sum_u <= 1000 * amp_sum(
            base_amplitude_k as int,
            samples@.len(),
        ),
{
    let ghost base = base_amplitude_k as int;
    let mut sum: i64 = 0;
    let mut amp: u32 = 1000;
    let mut i: usize = 0;
    while i < samples.len()
        invariant
            0 <= i <= samples@.len(),
            samples@.len() <= 16,
            base == base_amplitude_k as int,
            0 <= base <= 1000,
            forall|j: int| 0 <= j < samples@.len() ==> -1000 <= #[trigger] samples@[j] <= 1000,
            amp == pow_amp(base, i as nat),
            amp <= 1000,
            sum == fractal_sum_spec(samples@.take(i as int), base),
            -1000 * amp_sum(base, i as nat) <= sum <= 1000 * amp_sum(base, i as nat),
        decreases samples@.len() - i,
    {
        let s = samples[i];
        proof {
            lemma_amp_sum_bounds(base, i as nat);
            assert(-1000 * (amp as int) <= (amp as int) * (s as int) <= 1000 * (amp as int))
                by (nonlinear_arith)
                requires
                    0 <= amp,
                    -1000 <= s <= 1000,
            ;
            assert(samples@.take(i + 1).drop_last() =~= samples@.take(i as int));
            assert(samples@.take(i + 1).last() == samples@[i as int]);
        }
        let term: i64 = (amp as i64) * s;
        sum = sum + term;
        proof {
            lemma_pow_amp_bounds(base, (i + 1) as nat);
        }
        amp = amp * base_amplitude_k / 1000;
        i = i + 1;
    }
    proof {
        assert(samples@.take(i as int) =~= samples@);
    }
    sum
}

/// Configuration of one scanline-shaded background variant: how many
/// noise octaves, their base amplitude, the noise-space speeds and
/// scales, the row stride, the light strength, and the vertical gradient.
/// Noise-space distances are in millionths of a noise unit.
pub struct ScanlineConfig {
    /// How many noise octaves the fractal sum takes.
    pub detail_levels: usize,
    /// Base amplitude of the octaves (thousandths); octave `i` weighs
    /// `base^i`.
    pub base_amplitude_k: u32,
    /// Horizontal noise drift per millisecond per octave step (millionths).
    pub time_speed_u: i64,
    /// Noise-space distance per canvas row per octave step (millionths).
    pub y_scale_u: i64,
    /// Depth noise drift per millisecond (millionths).
    pub z_speed_u: i64,
    /// Only every this-many-th row is sampled and drawn.
    pub row_stride: u32,
    /// Strength of the shimmer or glow light factor (thousandths).
    pub strength_k: u32,
    /// Gradient color at the bottom of the canvas.
    pub deep_color: ColorK,
    /// Gradient color at the top of the canvas.
    pub surface_color: ColorK,
}

impl ScanlineConfig {
    /// Bounds under which all the fixed-point scanline math stays exact.
    pub open spec fn well_formed(&self) -> bool {
        &&& 1 <= self.detail_levels <= 16
        &&& self.base_amplitude_k <= 1000
        &&& 0 <= self.time_speed_u <= 100_000
        &&& 0 <= self.y_scale_u <= 100_000
        &&& 0 <= self.z_speed_u <= 100_000
        &&& 1 <= self.row_stride <= 1000
        &&& self.strength_k <= 400
        &&& self.deep_color.well_formed()
        &&& self.surface_color.well_formed()
        &&& amp_sum(self.base_amplitude_k as int, self.detail_levels as nat) <= 2000
    }
}

/// The water variant: four noise octaves at base amplitude 0.5, a gentle
/// shimmer, a dark-deep to bright-surface blue gradient, every third row.
pub fn water_config() -> (cfg: ScanlineConfig)
    ensures
        cfg.well_formed(),
        cfg.detail_levels == 4,
        cfg.base_amplitude_k == 500,
        cfg.time_speed_u == 150,
        cfg.y_scale_u == 10_000,
        cfg.z_speed_u == 50,
        cfg.row_stride == 3,
        cfg.strength_k == 200,
        cfg.deep_color == water_deep_color(),
        cfg.surface_color == water_surface_color(),
        amp_sum(500, 4) == 1875,
{
    proof {
        assert(pow_amp(500, 0) == 1000);
        assert(pow_amp(500, 1) == 500);
        assert(pow_amp(500, 2) == 250);
        assert(pow_amp(500, 3) == 125);
        assert(amp_sum(500, 0) == 0);
        assert(amp_sum(500, 1) == 1000);
        assert(amp_sum(500, 2) == 1500);
        assert(amp_sum(500, 3) == 1750);
        assert(amp_sum(500, 4) == 1875);
    }
    ScanlineConfig {
        detail_levels: 4,
        base_amplitude_k: 500,
        time_speed_u: 150,
        y_scale_u: 10_000,
        z_speed_u: 50,
        row_stride: 3,
        strength_k: 200,
        deep_color: ColorK { red: 0, green: 50, blue: 200 },
        surface_color: ColorK { red: 0, green: 300, blue: 600 },
    }
}

/// The lava variant: three coarser octaves at base amplitude 0.6, a
/// stronger glow, a dark-red to orange-red gradient, every fourth row.
pub fn lava_config() -> (cfg: ScanlineConfig)
    ensures
        cfg.well_formed(),
        cfg.detail_levels == 3,
        cfg.base_amplitude_k == 600,
        cfg.time_speed_u == 50,
        cfg.y_scale_u == 8_000,
        cfg.z_speed_u == 30,
        cfg.row_stride == 4,
        cfg.strength_k == 400,
        cfg.deep_color == lava_deep_color(),
        cfg.surface_color == lava_surface_color(),
        amp_sum(600, 3) == 1960,
{
    proof {
        assert(pow_amp(600, 0) == 1000);
        assert(pow_amp(600, 1) == 600);
        assert(pow_amp(600, 2) == 360);
        assert(amp_sum(600, 0) == 0);
        assert(amp_sum(600, 1) == 1000);
        assert(amp_sum(600, 2) == 1600);
        assert(amp_sum(600, 3) == 1960);
    }
    ScanlineConfig {
        detail_levels: 3,
        base_amplitude_k: 600,
        time_speed_u: 50,
        y_scale_u: 8_000,
        z_speed_u: 30,
        row_stride: 4,
        strength_k: 400,
        deep_color: ColorK { red: 400, green: 0, blue: 0 },
        surface_color: ColorK { red: 900, green: 300, blue: 0 },
    }
}

/// Where in noise space octave `i` of a scanline is sampled: the noise
/// source is asked at these three coordinates (millionths of a noise
/// unit). Deeper octaves drift and scale faster by the factor `i + 1`.
pub fn octave_coords(cfg: &ScanlineConfig, time_ms: u64, y: i32, i: usize) -> (c: (i64, i64, i64))
    requires
        cfg.well_formed(),
        time_ms <= 1_000_000_000,
        -10_000_000 <= y <= 10_000_000,
        i < cfg.detail_levels,
    ensures
        c.0 == time_ms * cfg.time_speed_u * (i + 1),
        c.1 == y * cfg.y_scale_u * (i + 1),
        c.2 == time_ms * cfg.z_speed_u,
{
    let m: i64 = (i as i64) + 1;
    proof {
        assert((time_ms as int) * cfg.time_speed_u <= 100_000_000_000_000) by (nonlinear_arith)
            requires
                0 <= time_ms <= 1_000_000_000,
                0 <= cfg.time_speed_u <= 100_000,
        ;
        assert(0 <= (time_ms as int) * cfg.time_speed_u) by (nonlinear_arith)
            requires
                0 <= time_ms,
                0 <= cfg.time_speed_u,
        ;
        assert(0 <= (time_ms as int) * cfg.time_speed_u * m <= 1_600_000_000_000_000)
            by (nonlinear_arith)
            requires
                0 <= (time_ms as int) * cfg.time_speed_u <= 100_000_000_000_000,
                1 <= m <= 16,
        ;
        assert(-1_000_000_000_000 <= (y as int) * cfg.y_scale_u <= 1_000_000_000_000)
            by (nonlinear_arith)
            requires
                -10_000_000 <= y <= 10_000_000,
                0 <= cfg.y_scale_u <= 100_000,
        ;
        assert(-16_000_000_000_000 <= (y as int) * cfg.y_scale_u * m <= 16_000_000_000_000)
            by (nonlinear_arith)
            requires
                -1_000_000_000_000 <= (y as int) * cfg.y_scale_u <= 1_000_000_000_000,
                1 <= m <= 16,
        ;
        assert(0 <= (time_ms as int) * cfg.z_speed_u <= 100_000_000_000_000) by (nonlinear_arith)
            requires
                0 <= time_ms <= 1_000_000_000,
                0 <= cfg.z_speed_u <= 100_000,
        ;
    }
    let x_u: i64 = (time_ms as i64) * cfg.time_speed_u * m;
    let y_u: i64 = (y as i64) * cfg.y_scale_u * m;
    let z_u: i64 = (time_ms as i64) * cfg.z_speed_u;
    (x_u, y_u, z_u)
}

/// The sequence of raw samples pinned into the unit interval, one by one.
pub open spec fn clamped_samples(raw: Seq<i64>) -> Seq<i64> {
    raw.map_values(|v: i64| clamped_unit(v as int) as i64)
}

/// The color of one scanline of a variant, from the raw octave samples a
/// noise source returned for it: each sample is defensively pinned into
/// the unit interval, the fractal sum is taken at the variant's base
/// amplitude, and the row is shaded with the variant's gradient and light
/// strength.
pub fn row_color_from_samples(
    cfg: &ScanlineConfig,
    y: i32,
    bottom: i32,
    top: i32,
    raw_samples: &Vec<i64>,
) -> (c: ColorK)
    requires
        cfg.well_formed(),
        raw_samples@.len() == cfg.detail_levels,
        -10_000_000 <= y <= 10_000_000,
        -10_000_000 <= bottom <= 10_000_000,
        -10_000_000 <= top <= 10_000_000,
    ensures
        c == row_color_spec(
            y as int,
            bottom as int,
            top as int,
            fractal_sum_spec(clamped_samples(raw_samples@), cfg.base_amplitude_k as int),
            cfg.deep_color,
            cfg.surface_color,
            cfg.strength_k as int,
        ),
        c.well_formed(),
{
    let mut clamped: Vec<i64> = Vec::new();
    let mut i: usize = 0;
    while i < raw_samples.len()
        invariant
            0 <= i <= raw_samples@.len(),
            clamped@.len() == i,
            forall|j: int| 0 <= j < i ==> #[trigger] clamped@[j] == clamped_unit(
                raw_samples@[j] as int,
            ),
        decreases raw_samples@.len() - i,
    {
        clamped.push(clamp_unit_k(raw_samples[i]));
        i = i + 1;
    }
    proof {
        assert(clamped@ =~= clamped_samples(raw_samples@));
        assert(forall|j: int|
            0 <= j < clamped@.len() ==> -1000 <= #[trigger] clamped@[j] <= 1000);
        lemma_amp_sum_bounds(cfg.base_amplitude_k as int, clamped@.len());
    }
    let sum_u = fractal_sum_u(&clamped, cfg.base_amplitude_k);
    proof {
        // The variant's amplitude sum is at most 2.0, so the fractal sum
        // of unit-bounded samples stays within the shading bound of 2.0.
        assert(-2_000_000 <= sum_u <= 2_000_000);
    }
    row_color_k(
        y,
        bottom,
        top,
        sum_u,
        cfg.deep_color,
        cfg.surface_color,
        cfg.strength_k,
    )
}

/// The rows a scanline pass draws: from `bottom` upward in steps of
/// `stride`, stopping below `top`.
pub fn scan_rows(bottom: i32, top: i32, stride: u32) -> (rows: Vec<i32>)
    requires
        1 <= stride <= 1000,
        -10_000_000 <= bottom <= 10_000_000,
        -10_000_000 <= top <= 10_000_000,
    ensures
        forall|k: int| 0 <= k < rows@.len() ==> #[trigger] rows@[k] == bottom + k * stride,
        bottom + rows@.len() * stride >= top,
        rows@.len() > 0 ==> bottom + (rows@.len() - 1) * stride < top,
        bottom < top ==> rows@.len() > 0,
        bottom >= top ==> rows@.len() == 0,
{
    let mut rows: Vec<i32> = Vec::new();
    let mut y: i64 = bottom as i64;
    let stride_w: i64 = stride as i64;
    proof {
        assert(rows@.len() == 0);
        assert(0 * stride_w == 0) by (nonlinear_arith);
    }
    while y < top as i64
        invariant
            1 <= stride_w <= 1000,
            stride_w == stride,
            -10_000_000 <= bottom <= 10_000_000,
            -10_000_000 <= top <= 10_000_000,
            y == bottom + rows@.len() * stride_w,
            rows@.len() > 0 ==> bottom + (rows@.len() - 1) * stride_w < top,
            forall|k: int| 0 <= k < rows@.len() ==> #[trigger] rows@[k] == bottom + k * stride_w,
        decreases top + stride_w - y,
    {
        rows.push(y as i32);
        proof {
            let n = rows@.len() as int;
            assert(n * stride_w == (n - 1) * stride_w + stride_w) by (nonlinear_arith);
        }
        y = y + stride_w;
    }
    rows
}

/// Configuration of one pass of noise-gated particles (specks, bubbles or
/// sparks) scattered over the canvas.
pub struct ParticleConfig {
    /// How many random positions are tried per frame.
    pub count: usize,
    /// Noise-space distance per canvas unit of position (millionths).
    pub coord_scale_u: i64,
    /// Noise drift per millisecond (millionths).
    pub time_scale_u: i64,
    /// A particle shows only where the noise sample exceeds this
    /// threshold (thousandths).
    pub threshold_k: i64,
    /// Alpha the particle is drawn with (thousandths).
    pub alpha_k: u32,
    /// Smallest and largest particle size (tenths of a canvas unit).
    pub min_size_t: u32,
    pub max_size_t: u32,
}

impl ParticleConfig {
    /// Bounds under which the particle coordinate math stays exact.
    pub open spec fn well_formed(&self) -> bool {
        &&& 0 <= self.coord_scale_u <= 100_000
        &&& 0 <= self.time_scale_u <= 100_000
        &&& -1000 <= self.threshold_k < 1000
        &&& self.alpha_k <= 1000
        &&& self.min_size_t <= self.max_size_t
    }
}

/// Water surface specks: many, sparse (high threshold), small, gray.
pub fn water_speck_config() -> (cfg: ParticleConfig)
    ensures
        cfg.well_formed(),
        cfg.count == 500,
        cfg.coord_scale_u == 10_000,
        cfg.time_scale_u == 500,
        cfg.threshold_k == 700,
        cfg.alpha_k == 600,
        cfg.min_size_t == 10,
        cfg.max_size_t == 30,
{
    ParticleConfig {
        count: 500,
        coord_scale_u: 10_000,
        time_scale_u: 500,
        threshold_k: 700,
        alpha_k: 600,
        min_size_t: 10,
        max_size_t: 30,
    }
}

/// Lava bubbles: fewer than water specks, a lower threshold, larger.
pub fn lava_bubble_config() -> (cfg: ParticleConfig)
    ensures
        cfg.well_formed(),
        cfg.count == 300,
        cfg.coord_scale_u == 15_000,
        cfg.time_scale_u == 200,
        cfg.threshold_k == 650,
        cfg.alpha_k == 700,
        cfg.min_size_t == 10,
        cfg.max_size_t == 50,
{
    ParticleConfig {
        count: 300,
        coord_scale_u: 15_000,
        time_scale_u: 200,
        threshold_k: 650,
        alpha_k: 700,
        min_size_t: 10,
        max_size_t: 50,
    }
}

/// Lava sparks: rare (few tries and a high threshold), small and bright.
pub fn lava_spark_config() -> (cfg: ParticleConfig)
    ensures
        cfg.well_formed(),
        cfg.count == 50,
        cfg.coord_scale_u == 20_000,
        cfg.time_scale_u == 1_500,
        cfg.threshold_k == 800,
        cfg.alpha_k == 900,
        cfg.min_size_t == 10,
        cfg.max_size_t == 25,
{
    ParticleConfig {
        count: 50,
        coord_scale_u: 20_000,
        time_scale_u: 1_500,
        threshold_k: 800,
        alpha_k: 900,
        min_size_t: 10,
        max_size_t: 25,
    }
}

/// Where in noise space a particle at canvas position `(x, y)` is
/// sampled (millionths of a noise unit).
pub fn particle_coords(cfg: &ParticleConfig, x: i32, y: i32, time_ms: u64) -> (c: (i64, i64, i64))
    requires
        cfg.well_formed(),
        -10_000_000 <= x <= 10_000_000,
        -10_000_000 <= y <= 10_000_000,
        time_ms <= 1_000_000_000,
    ensures
        c.0 == x * cfg.coord_scale_u,
        c.1 == y * cfg.coord_scale_u,
        c.2 == time_ms * cfg.time_scale_u,
{
    proof {
        assert(-1_000_000_000_000 <= (x as int) * cfg.coord_scale_u <= 1_000_000_000_000)
            by (nonlinear_arith)
            requires
                -10_000_000 <= x <= 10_000_000,
                0 <= cfg.coord_scale_u <= 100_000,
        ;
        assert(-1_000_000_000_000 <= (y as int) * cfg.coord_scale_u <= 1_000_000_000_000)
            by (nonlinear_arith)
            requires
                -10_000_000 <= y <= 10_000_000,
                0 <= cfg.coord_scale_u <= 100_000,
        ;
        assert(0 <= (time_ms as int) * cfg.time_scale_u <= 100_000_000_000_000)
            by (nonlinear_arith)
            requires
                0 <= time_ms <= 1_000_000_000,
                0 <= cfg.time_scale_u <= 100_000,
        ;
    }
    ((x as i64) * cfg.coord_scale_u, (y as i64) * cfg.coord_scale_u, (time_ms as i64)
        * cfg.time_scale_u)
}

/// Whether a particle shows at all: its raw noise sample, pinned into the
/// unit interval, must exceed the pass's threshold. This is what makes
/// particles flicker in and out as the noise drifts over time.
pub fn particle_visible(cfg: &ParticleConfig, raw_sample_k: i64) -> (v: bool)
    ensures
        v == (clamped_unit(raw_sample_k as int) > cfg.threshold_k),
{
    clamp_unit_k(raw_sample_k) > cfg.threshold_k
}

/// A water speck's gray color from its brightness (thousandths).
pub fn speck_color_k(brightness_k: u32) -> (c: ColorK)
    requires
        brightness_k <= 1000,
    ensures
        c == (ColorK { red: brightness_k, green: brightness_k, blue: brightness_k }),
        c.well_formed(),
{
    ColorK { red: brightness_k, green: brightness_k, blue: brightness_k }
}

/// A lava bubble's brightness grows toward the top of the canvas, from
/// 0.7 at the bottom to 1.0 at the surface, suggesting rising heat.
pub fn bubble_brightness_k(y: i32, bottom: i32, top: i32) -> (b: u32)
    requires
        -10_000_000 <= y <= 10_000_000,
        -10_000_000 <= bottom <= 10_000_000,
        -10_000_000 <= top <= 10_000_000,
    ensures
        b == 700 + 300 * depth_factor_spec(y as int, bottom as int, top as int) / 1000,
        700 <= b <= 1000,
{
    let df = depth_factor_k(y, bottom, top);
    proof {
        lemma_div_is_ordered(300 * (df as int), 300_000, 1000);
    }
    700 + 300 * df / 1000
}

/// A lava bubble's yellow-orange glow from its brightness: the green
/// channel at six tenths of the red, no blue.
pub fn bubble_color_k(brightness_k: u32) -> (c: ColorK)
    requires
        brightness_k <= 1000,
    ensures
        c.red == brightness_k,
        c.green == brightness_k * 600 / 1000,
        c.blue == 0,
        c.well_formed(),
{
    proof {
        lemma_div_is_ordered(brightness_k * 600, 600_000, 1000);
    }
    ColorK { red: brightness_k, green: brightness_k * 600 / 1000, blue: 0 }
}

/// The fixed bright yellow of a lava spark.
pub fn spark_color_k() -> (c: ColorK)
    ensures
        c == (ColorK { red: 1000, green: 1000, blue: 300 }),
        c.well_formed(),
{
    ColorK { red: 1000, green: 1000, blue: 300 }
}

} // verus!
