//! Turning a tile's elevation into a visual classification.
use vstd::prelude::*;

verus! {

/// Fixed-point unit of elevations, sea levels, blend factors and color channels.
pub const ELEVATION_ONE: i32 = 1_000_000;

/// The threshold rule: a tile lies under water when its elevation is below the sea level.
pub open spec fn is_under_water(elevation: int, sea_level: int) -> bool {
    elevation < sea_level
}

/// Binary land/water classification of one elevation.
pub fn under_water(elevation: i32, sea_level: i32) -> (r: bool)
    ensures
        r == is_under_water(elevation as int, sea_level as int),
{
    elevation < sea_level
}

} // verus!

verus! {

/// An RGB color with channels in millionths (`ELEVATION_ONE` is full intensity).
#[derive(Clone, Copy, Debug, PartialEq, Eq, Structural)]
pub struct Rgb {
    pub r: i64,
    pub g: i64,
    pub b: i64,
}

impl Rgb {
    /// Each channel lies in `[0, ELEVATION_ONE]`.
    pub open spec fn valid(self) -> bool {
        &&& 0 <= self.r <= ELEVATION_ONE
        &&& 0 <= self.g <= ELEVATION_ONE
        &&& 0 <= self.b <= ELEVATION_ONE
    }
}

/// What the gradient does with a blend factor outside `[0, 1]`.
#[derive(Clone, Copy, Debug, PartialEq, Eq, Structural)]
pub enum BlendClamp {
    /// The elevation is used as the blend factor as it is, so colors may leave
    /// the gamut. This is the default.
    Unclamped,
    /// The blend factor is clamped into `[0, 1]` first.
    ClampToUnit,
}

impl BlendClamp {
    /// The default policy: no clamping.
    pub fn default_policy() -> (r: BlendClamp)
        ensures
            r == BlendClamp::Unclamped,
    {
        BlendClamp::Unclamped
    }
}

/// How elevations are turned into what is drawn. A deployment picks one.
#[derive(Clone, Copy, Debug, PartialEq, Eq, Structural)]
pub enum ElevationPolicy {
    /// Water below the sea level, land elsewhere.
    Threshold,
    /// A color blended from `low` to `high` by the elevation.
    Gradient { low: Rgb, high: Rgb, clamp: BlendClamp },
}

impl ElevationPolicy {
    pub open spec fn valid(self) -> bool {
        match self {
            ElevationPolicy::Threshold => true,
            ElevationPolicy::Gradient { low, high, .. } => low.valid() && high.valid(),
        }
    }
}

/// What a policy makes of one elevation.
#[derive(Clone, Copy, Debug, PartialEq, Eq, Structural)]
pub enum Classification {
    Threshold { under_water: bool },
    Gradient { factor: i64, color: Rgb },
}

/// The blend factor for `elevation` under `clamp`, in millionths.
pub open spec fn blend_factor(clamp: BlendClamp, elevation: int) -> int {
    match clamp {
        BlendClamp::Unclamped => elevation,
        BlendClamp::ClampToUnit => if elevation < 0 {
            0
        } else if elevation > ELEVATION_ONE {
            ELEVATION_ONE as int
        } else {
            elevation
        },
    }
}

/// One channel of `mix(lo, hi, t)`: `lo + (hi - lo) * t`, with `t` in
/// millionths and the product rounded down.
pub open spec fn mix_channel(lo: int, hi: int, t: int) -> int {
    lo + ((hi - lo) * t) / (ELEVATION_ONE as int)
}

pub open spec fn mix(low: Rgb, high: Rgb, t: int) -> Rgb {
    Rgb {
        r: mix_channel(low.r as int, high.r as int, t) as i64,
        g: mix_channel(low.g as int, high.g as int, t) as i64,
        b: mix_channel(low.b as int, high.b as int, t) as i64,
    }
}

/// What `policy` makes of `elevation` when the sea lies at `sea_level`.
pub open spec fn spec_classify(policy: ElevationPolicy, sea_level: int, elevation: int) -> Classification {
    match policy {
        ElevationPolicy::Threshold => Classification::Threshold {
            under_water: is_under_water(elevation, sea_level),
        },
        ElevationPolicy::Gradient { low, high, clamp } => {
            let t = blend_factor(clamp, elevation);
            Classification::Gradient { factor: t as i64, color: mix(low, high, t) }
        },
    }
}

/// `n / d` rounded down.
fn floor_div(n: i64, d: i64) -> (r: i64)
    requires
        d > 0,
    ensures
        r == n as int / d as int,
{
    if n >= 0 {
        n / d
    } else {
        let m: i64 = -(n + 1);
        let q: i64 = m / d;
        proof {
            let qi = m as int / d as int;
            let ri = m as int % d as int;
            assert(m as int == d as int * qi + ri && 0 <= ri < d) by {
                vstd::arithmetic::div_mod::lemma_fundamental_div_mod(m as int, d as int);
            };
            // n == d * (-qi - 1) + (d - 1 - ri), with 0 <= d - 1 - ri < d
            assert(n as int == d as int * (-qi - 1) + (d - 1 - ri)) by (nonlinear_arith)
                requires
                    m as int == d as int * qi + ri,
                    m == -(n + 1),
            ;
            vstd::arithmetic::div_mod::lemma_fundamental_div_mod_converse(
                n as int,
                d as int,
                -qi - 1,
                d - 1 - ri,
            );
        }
        -q - 1
    }
}

fn mix_channel_exec(lo: i64, hi: i64, t: i64) -> (r: i64)
    requires
        0 <= lo <= ELEVATION_ONE,
        0 <= hi <= ELEVATION_ONE,
        -0x8000_0000 <= t <= 0x7fff_ffff,
    ensures
        r == mix_channel(lo as int, hi as int, t as int),
{
    let diff: i64 = hi - lo;
    assert(-1_000_000 * 0x8000_0000 <= diff * t <= 1_000_000 * 0x8000_0000) by (nonlinear_arith)
        requires
            -1_000_000 <= diff <= 1_000_000,
            -0x8000_0000 <= t <= 0x7fff_ffff,
    ;
    let q = floor_div(diff * t, ELEVATION_ONE as i64);
    assert(-0x8000_0000 <= q <= 0x8000_0000) by {
        vstd::arithmetic::div_mod::lemma_div_is_ordered(diff * t, 1_000_000 * 0x8000_0000int, 1_000_000int);
        vstd::arithmetic::div_mod::lemma_div_is_ordered(-1_000_000 * 0x8000_0000int, diff * t, 1_000_000int);
    };
    lo + q
}

fn mix_exec(low: Rgb, high: Rgb, t: i64) -> (r: Rgb)
    requires
        low.valid(),
        high.valid(),
        -0x8000_0000 <= t <= 0x7fff_ffff,
    ensures
        r == mix(low, high, t as int),
{
    Rgb {
        r: mix_channel_exec(low.r, high.r, t),
        g: mix_channel_exec(low.g, high.g, t),
        b: mix_channel_exec(low.b, high.b, t),
    }
}

impl ElevationPolicy {
    /// Classifies one elevation; the sea level matters only to the threshold rule.
    pub fn classify(&self, sea_level: i32, elevation: i32) -> (r: Classification)
        requires
            self.valid(),
        ensures
            r == spec_classify(*self, sea_level as int, elevation as int),
    {
        match self {
            ElevationPolicy::Threshold => Classification::Threshold {
                under_water: under_water(elevation, sea_level),
            },
            ElevationPolicy::Gradient { low, high, clamp } => {
                let e = elevation as i64;
                let t: i64 = match clamp {
                    BlendClamp::Unclamped => e,
                    BlendClamp::ClampToUnit => if e < 0 {
                        0
                    } else if e > ELEVATION_ONE as i64 {
                        ELEVATION_ONE as i64
                    } else {
                        e
                    },
                };
                Classification::Gradient { factor: t, color: mix_exec(*low, *high, t) }
            },
        }
    }
}

} // verus!
