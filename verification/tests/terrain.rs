//! Tests of the terrain pipeline: normalization, synthesis, coloring.

use worldgen::config::GenConfig;
use worldgen::config::GenError;
use worldgen::config::default_config;
use worldgen::noisegen::PlateData;
use worldgen::noisegen::gen_elevation_map;
use worldgen::noisegen::gen_plate_map;
use worldgen::noisegen::trunc_plate_id;
use worldgen::tile::LandTileProperties;
use worldgen::tile::Rgba;
use worldgen::tile::Tile;
use worldgen::tile::TileType;
use worldgen::world::generate_new_world;

fn scenario_config() -> GenConfig {
    GenConfig::new(120, 180, 210, 200_000, 1_800_000, 26_000_000, 76_000_000, 4_000_000).unwrap()
}

fn tile_with(tile_type: TileType, elevation: u8) -> Tile {
    let mut t = Tile::default();
    t.tile_type = tile_type;
    t.elevation = elevation;
    t
}

#[test]
fn normalization_boundaries() {
    let m = gen_elevation_map(vec![-1_000_000, 1_000_000, 0, -2_000_000, 2_000_000, 500_000]);
    assert_eq!(m.get_height_from_noisemap(0), 0);
    assert_eq!(m.get_height_from_noisemap(1), 255);
    // (0 + 1) * 127.5 truncates to 127: the pipeline rounds toward zero
    assert_eq!(m.get_height_from_noisemap(2), 127);
    assert_eq!(m.get_height_from_noisemap(3), 0);
    assert_eq!(m.get_height_from_noisemap(4), 255);
    // (0.5 + 1) * 127.5 = 191.25, truncated to 191
    assert_eq!(m.get_height_from_noisemap(5), 191);
}

#[test]
fn ocean_color_interpolates_blue() {
    let cfg = scenario_config();
    let mut t = tile_with(TileType::Ocean, 50);
    assert!(t.update_color(&cfg).is_ok());
    // fraction 50/119: blue = 50 + truncate(150 * 50 / 119) = 113
    assert_eq!(t.tile_color, Rgba { r: 0, g: 50, b: 113, a: 255 });
}

#[test]
fn lowland_color_interpolates_green() {
    let cfg = scenario_config();
    let mut t = tile_with(TileType::Land, 150);
    assert!(t.update_color(&cfg).is_ok());
    // fraction 30/60: green = 120 + 60 * 30 / 60 = 150
    assert_eq!(t.tile_color, Rgba { r: 30, g: 150, b: 30, a: 255 });
}

#[test]
fn rock_color_is_flat_gray() {
    let cfg = scenario_config();
    let mut t = tile_with(TileType::Land, 190);
    assert!(t.update_color(&cfg).is_ok());
    assert_eq!(t.tile_color, Rgba { r: 105, g: 105, b: 105, a: 255 });
}

#[test]
fn snow_color_is_flat_white() {
    let cfg = scenario_config();
    let mut t = tile_with(TileType::Land, 255);
    assert!(t.update_color(&cfg).is_ok());
    assert_eq!(t.tile_color, Rgba { r: 255, g: 255, b: 255, a: 255 });

    let mut u = tile_with(TileType::Land, 210);
    assert!(u.update_color(&cfg).is_ok());
    assert_eq!(u.tile_color, Rgba { r: 255, g: 255, b: 255, a: 255 });
}

#[test]
fn classification_gap_is_reported() {
    let cfg = scenario_config();
    let mut t = tile_with(TileType::Land, 50);
    let before = t;
    assert_eq!(t.update_color(&cfg), Err(GenError::ClassificationGap));
    assert_eq!(t, before);
}

#[test]
fn classification_follows_water_level() {
    let cfg = default_config();
    let mut low = tile_with(TileType::Land, 129);
    low.update_tile_type(&cfg);
    assert_eq!(low.tile_type, TileType::Ocean);
    let mut high = tile_with(TileType::Ocean, 130);
    high.update_tile_type(&cfg);
    assert_eq!(high.tile_type, TileType::Land);
}

#[test]
fn default_tile_is_low_black_land() {
    let t = Tile::default();
    assert_eq!(t.tile_type, TileType::Land);
    assert_eq!(t.elevation, 1);
    assert!(t.properties.is_empty());
    assert_eq!(t.tile_color, Rgba { r: 0, g: 0, b: 0, a: 255 });
}

#[test]
fn property_flags_insert_and_contain() {
    let mut p = LandTileProperties::empty();
    assert!(p.is_empty());
    assert!(!p.contains(worldgen::tile::HAS_RIVER));
    p.insert(worldgen::tile::HAS_RIVER);
    p.insert(worldgen::tile::HAS_FOREST);
    assert!(!p.is_empty());
    assert!(p.contains(worldgen::tile::HAS_RIVER));
    assert!(p.contains(worldgen::tile::HAS_FOREST));
    assert!(!p.contains(worldgen::tile::HAS_SETTLEMENT));
}

#[test]
fn plate_id_truncates_and_saturates() {
    assert_eq!(trunc_plate_id(-500_000), 0);
    assert_eq!(trunc_plate_id(0), 0);
    assert_eq!(trunc_plate_id(999_999), 0);
    assert_eq!(trunc_plate_id(5_500_000), 5);
    assert_eq!(trunc_plate_id(i64::MAX), u32::MAX);
}

#[test]
fn shared_truncated_id_shares_a_kind() {
    let samples = vec![
        PlateData { id: 1_200_000, dist_to_edge: 0 },
        PlateData { id: 1_900_000, dist_to_edge: 300_000 },
        PlateData { id: 2_100_000, dist_to_edge: 0 },
    ];
    let m = gen_plate_map(samples, 1);
    assert_eq!(m.get_plate_type(0), m.get_plate_type(1));
    assert_eq!(m.get_distance_to_edge(1), 300_000);
}

#[test]
fn degenerate_grid_gets_identical_cells() {
    // A constant elevation field and one plate everywhere, every cell on
    // the boundary: every cell must end with the same mountain bonus and
    // the same final elevation.
    let cfg = default_config();
    let es = vec![0i64; 16];
    let ps = vec![PlateData { id: 5_500_000, dist_to_edge: 0 }; 16];
    let w = generate_new_world(4, 4, es, ps, 1, &cfg).unwrap();
    let tiles = w.tiles();
    assert_eq!(tiles.len(), 16);
    for t in tiles.iter() {
        assert_eq!(*t, tiles[0]);
    }
    // seed 1 gives the single plate an oceanic kind: base 127, bias -10,
    // bonus 1.8, truncated to 118, classified ocean under water level 130
    assert_eq!(tiles[0].elevation, 118);
    assert_eq!(tiles[0].tile_type, TileType::Ocean);
}

#[test]
fn nearer_boundary_never_ends_lower() {
    let cfg = default_config();
    let es = vec![0i64, 0];
    let ps = vec![
        PlateData { id: 1_500_000, dist_to_edge: 0 },
        PlateData { id: 1_500_000, dist_to_edge: 100_000 },
    ];
    let w = generate_new_world(2, 1, es, ps, 1, &cfg).unwrap();
    let tiles = w.tiles();
    // same base and plate kind: bonus 1.8 at the boundary, 0.45 halfway out
    assert!(tiles[0].elevation >= tiles[1].elevation);
    assert_eq!(tiles[0].elevation, 118);
    assert_eq!(tiles[1].elevation, 117);
}

#[test]
fn generation_is_deterministic() {
    let cfg = default_config();
    let n: i64 = 64;
    let mut es: Vec<i64> = Vec::new();
    let mut ps: Vec<PlateData> = Vec::new();
    for i in 0..n {
        es.push((i * 37) % 2_000_001 - 1_000_000);
        ps.push(PlateData { id: (i * 53) % 3_000_000, dist_to_edge: (i * 29) % 400_000 });
    }
    let w1 = generate_new_world(8, 8, es.clone(), ps.clone(), 28282828, &cfg).unwrap();
    let w2 = generate_new_world(8, 8, es, ps, 28282828, &cfg).unwrap();
    assert_eq!(w1.width(), w2.width());
    assert_eq!(w1.height(), w2.height());
    assert_eq!(w1.tiles(), w2.tiles());
}
