//! Properties of sampled grids that hold across calls and parameter choices.
use vstd::prelude::*;
use crate::grid::{deterministic, expected_tile, noise_point, sampled_grid, GridGeometry, Tile};
use crate::params::SamplingParameters;
use crate::policy::{Classification, ElevationPolicy};

verus! {

/// Number of tiles in `tiles` classified as under water.
pub open spec fn water_count(tiles: Seq<Tile>) -> nat
    decreases tiles.len(),
{
    if tiles.len() == 0 {
        0
    } else {
        water_count(tiles.drop_last()) + if tiles.last().classification == (Classification::Threshold {
            under_water: true,
        }) {
            1nat
        } else {
            0nat
        }
    }
}

/// Distinct tiles of a grid whose tiles have an extent never share a position.
pub proof fn lemma_positions_distinct(g: GridGeometry, k1: int, k2: int)
    requires
        g.valid(),
        g.tile_width >= 1,
        g.tile_height >= 1,
        0 <= k1 < g.cell_count(),
        0 <= k2 < g.cell_count(),
        k1 != k2,
    ensures
        g.position_of(k1) != g.position_of(k2),
{
    let rows = g.rows as int;
    assert(rows > 0) by (nonlinear_arith)
        requires
            0 <= k1 < g.columns as int * rows,
            g.columns >= 0,
    ;
    vstd::arithmetic::div_mod::lemma_fundamental_div_mod(k1, rows);
    vstd::arithmetic::div_mod::lemma_fundamental_div_mod(k2, rows);
    let (i1, i2, j1, j2) = (g.column_of(k1), g.column_of(k2), g.row_of(k1), g.row_of(k2));
    if i1 == i2 {
        assert(j1 != j2);
        assert(g.spec_y(j1) != g.spec_y(j2)) by (nonlinear_arith)
            requires
                j1 != j2,
                g.tile_height >= 1,
        ;
    } else {
        assert(g.spec_x(i1) != g.spec_x(i2)) by (nonlinear_arith)
            requires
                i1 != i2,
                g.tile_width >= 1,
        ;
    }
}

/// Every grid of a geometry has its tiles at the same positions, whatever the
/// parameters, the policy or the noise field: only elevations and
/// classifications vary.
pub proof fn lemma_positions_fixed<F1: Fn(i64, i64) -> i32, F2: Fn(i64, i64) -> i32>(
    g: GridGeometry,
    p1: SamplingParameters,
    policy1: ElevationPolicy,
    noise1: F1,
    a: Seq<Tile>,
    p2: SamplingParameters,
    policy2: ElevationPolicy,
    noise2: F2,
    b: Seq<Tile>,
)
    requires
        sampled_grid(g, p1, policy1, noise1, a),
        sampled_grid(g, p2, policy2, noise2, b),
    ensures
        a.len() == b.len(),
        forall|k: int|
            0 <= k < a.len() ==> #[trigger] a[k].x == b[k].x && a[k].y == b[k].y && a[k].width == b[k].width
                && a[k].height == b[k].height,
{
    assert forall|k: int| 0 <= k < a.len() implies #[trigger] a[k].x == b[k].x && a[k].y == b[k].y
        && a[k].width == b[k].width && a[k].height == b[k].height by {
        assert(a[k] == expected_tile(g, p1, policy1, k, a[k].elevation));
        assert(b[k] == expected_tile(g, p2, policy2, k, b[k].elevation));
    }
}

/// Sampling the same deterministic field twice with the same parameters gives
/// the same grid, tile for tile.
pub proof fn lemma_recompute_deterministic<F: Fn(i64, i64) -> i32>(
    g: GridGeometry,
    p: SamplingParameters,
    policy: ElevationPolicy,
    noise: F,
    a: Seq<Tile>,
    b: Seq<Tile>,
)
    requires
        deterministic(noise),
        sampled_grid(g, p, policy, noise, a),
        sampled_grid(g, p, policy, noise, b),
    ensures
        a == b,
{
    assert forall|k: int| 0 <= k < a.len() implies #[trigger] a[k] == b[k] by {
        assert(noise.ensures(noise_point(g, p, k), a[k].elevation));
        assert(noise.ensures(noise_point(g, p, k), b[k].elevation));
        assert(a[k] == expected_tile(g, p, policy, k, a[k].elevation));
        assert(b[k] == expected_tile(g, p, policy, k, b[k].elevation));
    }
    assert(a =~= b);
}

/// Under the threshold policy a tile is under water exactly when its
/// elevation is below the sea level.
pub proof fn lemma_threshold_consistent<F: Fn(i64, i64) -> i32>(
    g: GridGeometry,
    p: SamplingParameters,
    noise: F,
    a: Seq<Tile>,
)
    requires
        sampled_grid(g, p, ElevationPolicy::Threshold, noise, a),
    ensures
        forall|k: int|
            0 <= k < a.len() ==> (#[trigger] a[k]).classification == (Classification::Threshold {
                under_water: a[k].elevation < p.sea_level,
            }),
{
    assert forall|k: int| 0 <= k < a.len() implies (#[trigger] a[k]).classification == (
    Classification::Threshold { under_water: a[k].elevation < p.sea_level }) by {
        assert(a[k] == expected_tile(g, p, ElevationPolicy::Threshold, k, a[k].elevation));
    }
}

proof fn lemma_count_monotone(a: Seq<Tile>, b: Seq<Tile>, s1: int, s2: int)
    requires
        s1 <= s2,
        a.len() == b.len(),
        forall|k: int|
            0 <= k < a.len() ==> (#[trigger] a[k]).elevation == b[k].elevation && a[k].classification == (
            Classification::Threshold { under_water: a[k].elevation < s1 }) && b[k].classification == (
            Classification::Threshold { under_water: b[k].elevation < s2 }),
    ensures
        water_count(a) <= water_count(b),
    decreases a.len(),
{
    if a.len() > 0 {
        let n = a.len() - 1;
        assert(a[n].elevation == b[n].elevation);
        lemma_count_monotone(a.drop_last(), b.drop_last(), s1, s2);
    }
}

/// Raising the sea level, with everything else held fixed, never lowers the
/// number of tiles under water.
pub proof fn lemma_sea_level_monotone<F: Fn(i64, i64) -> i32>(
    g: GridGeometry,
    p1: SamplingParameters,
    p2: SamplingParameters,
    noise: F,
    a: Seq<Tile>,
    b: Seq<Tile>,
)
    requires
        deterministic(noise),
        p1.scale == p2.scale,
        p1.offset_x == p2.offset_x,
        p1.offset_y == p2.offset_y,
        p1.sea_level <= p2.sea_level,
        sampled_grid(g, p1, ElevationPolicy::Threshold, noise, a),
        sampled_grid(g, p2, ElevationPolicy::Threshold, noise, b),
    ensures
        water_count(a) <= water_count(b),
{
    lemma_threshold_consistent(g, p1, noise, a);
    lemma_threshold_consistent(g, p2, noise, b);
    assert forall|k: int| 0 <= k < a.len() implies (#[trigger] a[k]).elevation == b[k].elevation by {
        assert(noise_point(g, p1, k) == noise_point(g, p2, k));
        assert(noise.ensures(noise_point(g, p1, k), a[k].elevation));
        assert(noise.ensures(noise_point(g, p2, k), b[k].elevation));
    }
    lemma_count_monotone(a, b, p1.sea_level as int, p2.sea_level as int);
}

/// With scale zero every tile samples the origin of noise space, so a
/// deterministic field gives the whole grid one elevation.
pub proof fn lemma_scale_zero_uniform<F: Fn(i64, i64) -> i32>(
    g: GridGeometry,
    p: SamplingParameters,
    policy: ElevationPolicy,
    noise: F,
    a: Seq<Tile>,
)
    requires
        p.scale == 0,
        deterministic(noise),
        sampled_grid(g, p, policy, noise, a),
    ensures
        forall|k: int| 0 <= k < a.len() ==> #[trigger] noise_point(g, p, k) == (0i64, 0i64),
        forall|k1: int, k2: int|
            0 <= k1 < a.len() && 0 <= k2 < a.len() ==> #[trigger] a[k1].elevation == #[trigger] a[k2].elevation,
{
    assert forall|k: int| 0 <= k < a.len() implies #[trigger] noise_point(g, p, k) == (0i64, 0i64) by {}
    assert forall|k1: int, k2: int| 0 <= k1 < a.len() && 0 <= k2 < a.len() implies #[trigger] a[k1].elevation
        == #[trigger] a[k2].elevation by {
        assert(noise_point(g, p, k1) == noise_point(g, p, k2));
        assert(noise.ensures(noise_point(g, p, k1), a[k1].elevation));
        assert(noise.ensures(noise_point(g, p, k2), a[k2].elevation));
    }
}

} // verus!
