use terrain_tiles::grid::{recompute, GridGeometry};
use terrain_tiles::params::{ParameterName, ParameterStore, SamplingParameters};
use terrain_tiles::policy::{under_water, BlendClamp, Classification, ElevationPolicy, Rgb};
use terrain_tiles::terrain::Terrain;

const BLACK: Rgb = Rgb { r: 0, g: 0, b: 0 };
const ORANGE: Rgb = Rgb { r: 1_000_000, g: 500_000, b: 0 };

fn gradient(clamp: BlendClamp) -> ElevationPolicy {
    ElevationPolicy::Gradient { low: BLACK, high: ORANGE, clamp }
}

#[test]
fn threshold_is_strict() {
    assert!(under_water(-1, 0));
    assert!(!under_water(0, 0));
    assert!(!under_water(1, 0));
    let c = ElevationPolicy::Threshold.classify(500_000, 499_999);
    assert_eq!(c, Classification::Threshold { under_water: true });
}

#[test]
fn gradient_blends_linearly() {
    let c = gradient(BlendClamp::Unclamped).classify(0, 250_000);
    assert_eq!(c, Classification::Gradient { factor: 250_000, color: Rgb { r: 250_000, g: 125_000, b: 0 } });
}

#[test]
fn gradient_unclamped_leaves_gamut() {
    let c = gradient(BlendClamp::Unclamped).classify(0, 1_500_000);
    assert_eq!(c, Classification::Gradient { factor: 1_500_000, color: Rgb { r: 1_500_000, g: 750_000, b: 0 } });
    // negative factors round down
    let c = gradient(BlendClamp::Unclamped).classify(0, -3);
    assert_eq!(c, Classification::Gradient { factor: -3, color: Rgb { r: -3, g: -2, b: 0 } });
}

#[test]
fn gradient_clamped_stays_in_gamut() {
    let c = gradient(BlendClamp::ClampToUnit).classify(0, 1_500_000);
    assert_eq!(c, Classification::Gradient { factor: 1_000_000, color: ORANGE });
    let c = gradient(BlendClamp::ClampToUnit).classify(0, -400_000);
    assert_eq!(c, Classification::Gradient { factor: 0, color: BLACK });
}

#[test]
fn gradient_from_high_to_low() {
    let p = ElevationPolicy::Gradient { low: ORANGE, high: BLACK, clamp: BlendClamp::Unclamped };
    let c = p.classify(0, 1);
    // 1_000_000 + floor(-1_000_000 * 1 / 1_000_000), 500_000 + floor(-500_000 / 1_000_000)
    assert_eq!(c, Classification::Gradient { factor: 1, color: Rgb { r: 999_999, g: 499_999, b: 0 } });
}

#[test]
fn default_clamp_is_none() {
    assert_eq!(BlendClamp::default_policy(), BlendClamp::Unclamped);
}

#[test]
fn gradient_grid_uses_elevation() {
    let tiles = recompute(
        GridGeometry { columns: 2, rows: 2, tile_width: 1, tile_height: 1 },
        SamplingParameters::default_parameters(),
        gradient(BlendClamp::Unclamped),
        &|_x: i64, _y: i64| 500_000,
    );
    for t in &tiles {
        assert_eq!(t.classification, Classification::Gradient { factor: 500_000, color: Rgb { r: 500_000, g: 250_000, b: 0 } });
    }
    assert_eq!((tiles[0].x, tiles[0].y), (-1_000, -1_000));
    assert_eq!((tiles[3].x, tiles[3].y), (0, 0));
}

#[test]
fn bounds_and_labels() {
    let s = ParameterName::Scale.bounds();
    assert_eq!((s.min, s.max), (0, 10_000));
    let o = ParameterName::OffsetX.bounds();
    assert_eq!((o.min, o.max), (0, 1_000_000));
    assert_eq!(ParameterName::OffsetY.bounds(), o);
    let l = ParameterName::SeaLevel.bounds();
    assert_eq!((l.min, l.max), (-1_000_000, 1_000_000));
    assert_eq!(ParameterName::Scale.label(), "Scale");
    assert_eq!(ParameterName::OffsetX.label(), "Offset X");
    assert_eq!(ParameterName::OffsetY.label(), "Offset Y");
    assert_eq!(ParameterName::SeaLevel.label(), "Sea Level");
}

#[test]
fn store_clamps_and_marks_dirty() {
    let mut s = ParameterStore::new();
    assert!(s.dirty);
    assert!(s.take_dirty());
    assert!(!s.take_dirty());
    // the default scale is already the largest, so an edit above it changes nothing
    assert!(!s.set_parameter(ParameterName::Scale, 50_000));
    assert!(!s.dirty);
    assert!(s.set_parameter(ParameterName::Scale, 2_500));
    assert_eq!(s.parameters.scale, 2_500);
    assert!(s.set_parameter(ParameterName::Scale, 50_000));
    assert_eq!(s.parameters.scale, 10_000);
    assert!(s.take_dirty());
    assert!(s.set_parameter(ParameterName::SeaLevel, -5_000_000));
    assert_eq!(s.parameters.sea_level, -1_000_000);
    assert!(s.set_parameter(ParameterName::OffsetX, 2_000_000));
    assert_eq!(s.parameters.offset_x, 1_000_000);
    assert!(s.set_parameter(ParameterName::OffsetX, -3));
    assert_eq!(s.parameters.offset_x, 0);
    assert!(!s.set_parameter(ParameterName::OffsetX, -10));
    assert!(s.set_parameter(ParameterName::OffsetY, 42));
    assert_eq!(s.parameters.get(ParameterName::OffsetY), 42);
    assert!(s.take_dirty());
    assert!(!s.set_parameter(ParameterName::OffsetY, 42));
    assert!(!s.dirty);
}

#[test]
fn session_recomputes_only_after_a_change() {
    let field = |x: i64, y: i64| ((x - y) / 10_000) as i32;
    let g = GridGeometry { columns: 4, rows: 3, tile_width: 10, tile_height: 10 };
    let mut t = Terrain::new(g, ElevationPolicy::Threshold, &field);
    assert_eq!(t.tiles.len(), 12);
    assert!(!t.refresh(&field));
    assert!(!t.edit(ParameterName::Scale, 10_000));
    assert!(!t.refresh(&field));
    assert!(t.edit(ParameterName::OffsetX, 20_000));
    assert!(t.refresh(&field));
    let expected = recompute(g, t.store.parameters, ElevationPolicy::Threshold, &field);
    assert_eq!(t.tiles, expected);
    assert_eq!(t.tiles[0].elevation, field(10_000 * (-20_000 + 20_000), 10_000 * -15_000));
}
