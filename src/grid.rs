//! The fixed lattice of tiles and its sampling from a noise field.
use vstd::prelude::*;
use crate::params::{SamplingParameters, LENGTH_ONE, OFFSET_MAX, SCALE_MAX};
use crate::policy::{spec_classify, Classification, ElevationPolicy};

verus! {

/// The lattice's dimensions: `columns × rows` tiles of `tile_width × tile_height`
/// world units each, centered on the origin.
#[derive(Clone, Copy, Debug, PartialEq, Eq, Structural)]
pub struct GridGeometry {
    pub columns: u16,
    pub rows: u16,
    pub tile_width: u16,
    pub tile_height: u16,
}

/// One cell of a sampled grid. Position and size are in thousandths of a world
/// unit, the elevation in millionths.
#[derive(Clone, Copy, Debug, PartialEq, Eq, Structural)]
pub struct Tile {
    pub x: i64,
    pub y: i64,
    pub width: i64,
    pub height: i64,
    pub elevation: i32,
    pub classification: Classification,
}

impl GridGeometry {
    /// The tile count fits in memory.
    pub open spec fn valid(self) -> bool {
        self.columns as int * self.rows as int <= usize::MAX
    }

    pub open spec fn cell_count(self) -> int {
        self.columns as int * self.rows as int
    }

    /// Tiles are stored column by column: index `k` is column `k / rows`, row `k % rows`.
    pub open spec fn column_of(self, k: int) -> int {
        k / (self.rows as int)
    }

    pub open spec fn row_of(self, k: int) -> int {
        k % (self.rows as int)
    }

    /// World x of column `i`: `i·tw − W·tw/2`, in thousandths.
    pub open spec fn spec_x(self, i: int) -> int {
        i * self.tile_width * LENGTH_ONE - self.columns * self.tile_width * (LENGTH_ONE / 2)
    }

    /// World y of row `j`: `j·th − H·th/2`, in thousandths.
    pub open spec fn spec_y(self, j: int) -> int {
        j * self.tile_height * LENGTH_ONE - self.rows * self.tile_height * (LENGTH_ONE / 2)
    }

    /// Position of the tile at index `k`.
    pub open spec fn position_of(self, k: int) -> (int, int) {
        (self.spec_x(self.column_of(k)), self.spec_y(self.row_of(k)))
    }

    /// The geometry of the reference layout: 100 × 100 tiles of 10 × 10 units.
    pub fn reference() -> (r: GridGeometry)
        ensures
            r == (GridGeometry { columns: 100, rows: 100, tile_width: 10, tile_height: 10 }),
            r.valid(),
    {
        GridGeometry { columns: 100, rows: 100, tile_width: 10, tile_height: 10 }
    }
}

/// Noise-space coordinate of world coordinate `pos` under scale and offset:
/// `scale · (pos + offset)`, in billionths.
pub open spec fn noise_coord(scale: int, pos: int, offset: int) -> int {
    scale * (pos + offset)
}

/// The noise-space point sampled for the tile at index `k`.
pub open spec fn noise_point(g: GridGeometry, p: SamplingParameters, k: int) -> (i64, i64) {
    (
        noise_coord(p.scale as int, g.position_of(k).0, p.offset_x as int) as i64,
        noise_coord(p.scale as int, g.position_of(k).1, p.offset_y as int) as i64,
    )
}

/// The tile at index `k` of a grid, given the elevation sampled there.
pub open spec fn expected_tile(
    g: GridGeometry,
    p: SamplingParameters,
    policy: ElevationPolicy,
    k: int,
    elevation: i32,
) -> Tile {
    Tile {
        x: g.position_of(k).0 as i64,
        y: g.position_of(k).1 as i64,
        width: (g.tile_width * LENGTH_ONE) as i64,
        height: (g.tile_height * LENGTH_ONE) as i64,
        elevation,
        classification: spec_classify(policy, p.sea_level as int, elevation as int),
    }
}

/// `tiles` is a whole grid for `g`, `p` and `policy` whose elevations were
/// sampled from `noise`, one call per tile at that tile's noise-space point.
pub open spec fn sampled_grid<F: Fn(i64, i64) -> i32>(
    g: GridGeometry,
    p: SamplingParameters,
    policy: ElevationPolicy,
    noise: F,
    tiles: Seq<Tile>,
) -> bool {
    &&& tiles.len() == g.cell_count()
    &&& forall|k: int|
        0 <= k < tiles.len() ==> #[trigger] tiles[k] == expected_tile(g, p, policy, k, tiles[k].elevation)
    &&& forall|k: int|
        0 <= k < tiles.len() ==> noise.ensures(noise_point(g, p, k), #[trigger] tiles[k].elevation)
}

/// A noise field is deterministic when one point never gives two elevations.
pub open spec fn deterministic<F: Fn(i64, i64) -> i32>(noise: F) -> bool {
    forall|x: i64, y: i64, a: i32, b: i32|
        #[trigger] noise.ensures((x, y), a) && #[trigger] noise.ensures((x, y), b) ==> a == b
}

/// Where index `i` along an axis of `count` tiles of size `size` sits, in thousandths.
fn axis_position(i: u16, size: u16, count: u16) -> (r: i64)
    requires
        i < count,
    ensures
        r == i * size * LENGTH_ONE - count * size * (LENGTH_ONE / 2),
        -0x800_0000_0000 <= r <= 0x800_0000_0000,
{
    assert(0 <= i * size <= 0x1_0000_0000 && 0 <= count * size <= 0x1_0000_0000) by (nonlinear_arith)
        requires
            0 <= i <= 0xffff,
            0 <= count <= 0xffff,
            0 <= size <= 0xffff,
    ;
    let a = i as i64 * size as i64;
    let b = count as i64 * size as i64;
    a * LENGTH_ONE - b * (LENGTH_ONE / 2)
}

/// `scale · (pos + offset)` for in-range parameters.
fn scaled_coord(scale: i64, pos: i64, offset: i64) -> (r: i64)
    requires
        0 <= scale <= SCALE_MAX,
        0 <= offset <= OFFSET_MAX,
        -0x800_0000_0000 <= pos <= 0x800_0000_0000,
    ensures
        r == noise_coord(scale as int, pos as int, offset as int),
{
    let s = pos + offset;
    assert(-0x800_0000_0000 * 10_000 <= scale * s <= 0x801_0000_0000 * 10_000) by (nonlinear_arith)
        requires
            0 <= scale <= 10_000,
            -0x800_0000_0000 <= s <= 0x801_0000_0000,
    ;
    scale * s
}

proof fn lemma_index_split(k: int, i: int, j: int, rows: int)
    requires
        rows > 0,
        0 <= j < rows,
        0 <= i,
        k == i * rows + j,
    ensures
        k / rows == i,
        k % rows == j,
{
    vstd::arithmetic::div_mod::lemma_fundamental_div_mod_converse(k, rows, i, j);
}

/// Samples the whole grid: for each tile, in column-major order, its world
/// position, its noise-space point `scale · (position + offset)`, one call of
/// `noise` there, and the policy's classification of the elevation.
pub fn recompute<F: Fn(i64, i64) -> i32>(
    g: GridGeometry,
    p: SamplingParameters,
    policy: ElevationPolicy,
    noise: &F,
) -> (r: Vec<Tile>)
    requires
        g.valid(),
        p.valid(),
        policy.valid(),
        forall|x: i64, y: i64| noise.requires((x, y)),
    ensures
        sampled_grid(g, p, policy, *noise, r@),
{
    let mut tiles: Vec<Tile> = Vec::new();
    let w: i64 = g.tile_width as i64 * LENGTH_ONE;
    let h: i64 = g.tile_height as i64 * LENGTH_ONE;
    let mut i: u16 = 0;
    while i < g.columns
        invariant
            g.valid(),
            p.valid(),
            policy.valid(),
            forall|x: i64, y: i64| noise.requires((x, y)),
            0 <= i <= g.columns,
            w == g.tile_width * LENGTH_ONE,
            h == g.tile_height * LENGTH_ONE,
            tiles@.len() == i * g.rows,
            forall|k: int|
                0 <= k < tiles@.len() ==> #[trigger] tiles@[k] == expected_tile(g, p, policy, k, tiles@[k].elevation),
            forall|k: int|
                0 <= k < tiles@.len() ==> noise.ensures(noise_point(g, p, k), #[trigger] tiles@[k].elevation),
        decreases g.columns - i,
    {
        let x = axis_position(i, g.tile_width, g.columns);
        let qx = scaled_coord(p.scale, x, p.offset_x);
        let mut j: u16 = 0;
        while j < g.rows
            invariant
                g.valid(),
                p.valid(),
                policy.valid(),
                forall|x: i64, y: i64| noise.requires((x, y)),
                0 <= i < g.columns,
                0 <= j <= g.rows,
                w == g.tile_width * LENGTH_ONE,
                h == g.tile_height * LENGTH_ONE,
                x == g.spec_x(i as int),
                qx == noise_coord(p.scale as int, x as int, p.offset_x as int),
                tiles@.len() == i * g.rows + j,
                forall|k: int|
                    0 <= k < tiles@.len() ==> #[trigger] tiles@[k] == expected_tile(g, p, policy, k, tiles@[k].elevation),
                forall|k: int|
                    0 <= k < tiles@.len() ==> noise.ensures(noise_point(g, p, k), #[trigger] tiles@[k].elevation),
            decreases g.rows - j,
        {
            let y = axis_position(j, g.tile_height, g.rows);
            let qy = scaled_coord(p.scale, y, p.offset_y);
            let elevation = noise(qx, qy);
            let tile = Tile {
                x,
                y,
                width: w,
                height: h,
                elevation,
                classification: policy.classify(p.sea_level, elevation),
            };
            let ghost k = tiles@.len() as int;
            proof {
                lemma_index_split(k, i as int, j as int, g.rows as int);
                assert(k < usize::MAX) by (nonlinear_arith)
                    requires
                        k == i * g.rows + j,
                        j < g.rows,
                        i < g.columns,
                        g.columns as int * g.rows as int <= usize::MAX,
                ;
            }
            tiles.push(tile);
            proof {
                assert(tiles@[k] == expected_tile(g, p, policy, k, elevation));
                assert(noise_point(g, p, k) == (qx, qy));
            }
            j = j + 1;
        }
        proof {
            assert(tiles@.len() == (i + 1) * g.rows) by (nonlinear_arith)
                requires
                    tiles@.len() == i * g.rows + g.rows,
            ;
        }
        i = i + 1;
    }
    tiles
}

} // verus!
