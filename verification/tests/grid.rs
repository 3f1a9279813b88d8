//! Tests of the world grid: allocation, bounds, coordinate mapping,
//! configuration validation, and the water-level pass.

use worldgen::config::GenConfig;
use worldgen::config::GenError;
use worldgen::config::default_config;
use worldgen::noisegen::PlateData;
use worldgen::tile::TileType;
use worldgen::world::World;
use worldgen::world::coords_from_index;
use worldgen::world::coords_to_index;
use worldgen::world::generate_new_world;
use worldgen::world::get_coords_from_index;
use worldgen::world::get_index_from_coords;

#[test]
fn grid_has_width_times_height_cells() {
    let w = World::new(7, 5).unwrap();
    assert_eq!(w.width(), 7);
    assert_eq!(w.height(), 5);
    assert_eq!(w.tiles().len(), 35);
}

#[test]
fn tile_lookup_respects_bounds() {
    let w = World::new(7, 5).unwrap();
    for x in 0..7 {
        for y in 0..5 {
            assert!(w.get_world_tile(x, y).is_some());
        }
    }
    assert!(w.get_world_tile(7, 0).is_none());
    assert!(w.get_world_tile(0, 5).is_none());
    assert!(w.get_world_tile(u32::MAX, u32::MAX).is_none());
}

#[test]
fn zero_dimension_is_refused() {
    assert_eq!(World::new(0, 5).unwrap_err(), GenError::ZeroDimension);
    assert_eq!(World::new(5, 0).unwrap_err(), GenError::ZeroDimension);
    assert_eq!(World::new(0, 0).unwrap_err(), GenError::ZeroDimension);
}

#[test]
fn misconfigured_thresholds_are_refused() {
    let r = GenConfig::new(190, 130, 215, 200_000, 1_800_000, 1, 1, 1);
    assert_eq!(r.unwrap_err(), GenError::ThresholdsOutOfOrder);
    let r = GenConfig::new(130, 130, 215, 200_000, 1_800_000, 1, 1, 1);
    assert_eq!(r.unwrap_err(), GenError::ThresholdsOutOfOrder);
}

#[test]
fn misconfigured_parameters_are_refused() {
    let r = GenConfig::new(130, 190, 215, 0, 1_800_000, 1, 1, 1);
    assert_eq!(r.unwrap_err(), GenError::ParameterOutOfRange);
    let r = GenConfig::new(130, 190, 215, 200_000, -1, 1, 1, 1);
    assert_eq!(r.unwrap_err(), GenError::ParameterOutOfRange);
    let r = GenConfig::new(130, 190, 215, 200_000, 1_800_000, 1, 0, 1);
    assert_eq!(r.unwrap_err(), GenError::ParameterOutOfRange);
}

#[test]
fn default_config_is_accepted() {
    let c = default_config();
    assert_eq!(c.water_level, 130);
    assert_eq!(c.rock_level, 190);
    assert_eq!(c.snow_level, 215);
    assert_eq!(c.mountain_formation_distance, 200_000);
    assert_eq!(c.mountain_max_height, 1_800_000);
    let rebuilt = GenConfig::new(
        c.water_level,
        c.rock_level,
        c.snow_level,
        c.mountain_formation_distance,
        c.mountain_max_height,
        c.elevation_noise_scale,
        c.plate_noise_scale,
        c.plate_distortion_strength,
    );
    assert_eq!(rebuilt.unwrap(), c);
}

#[test]
fn field_size_mismatch_is_refused() {
    let cfg = default_config();
    let es = vec![0i64; 3];
    let ps = vec![PlateData { id: 0, dist_to_edge: 0 }; 4];
    let r = generate_new_world(2, 2, es, ps, 1, &cfg);
    assert_eq!(r.unwrap_err(), GenError::FieldSizeMismatch);
}

#[test]
fn zero_dimension_world_is_refused() {
    let cfg = default_config();
    let r = generate_new_world(0, 4, Vec::new(), Vec::new(), 1, &cfg);
    assert_eq!(r.unwrap_err(), GenError::ZeroDimension);
}

#[test]
fn coordinate_mapping_round_trips() {
    assert_eq!(get_coords_from_index(0), (0, 0));
    assert_eq!(get_coords_from_index(255), (255, 0));
    assert_eq!(get_coords_from_index(256), (0, 1));
    assert_eq!(get_coords_from_index(1000), (232, 3));
    assert_eq!(get_index_from_coords(232, 3), 1000);
    assert_eq!(get_index_from_coords(0, 0), 0);
    assert_eq!(coords_from_index(11, 4), (3, 2));
    assert_eq!(coords_to_index(3, 2, 4), 11);
    for index in 0..65536usize {
        let (x, y) = get_coords_from_index(index);
        assert_eq!(get_index_from_coords(x, y) as usize, index);
    }
}

#[test]
fn water_level_pass_reclassifies_low_cells() {
    let cfg = default_config();
    let es = vec![0i64; 4];
    let ps = vec![PlateData { id: 1_500_000, dist_to_edge: 0 }; 4];
    let mut w = generate_new_world(2, 2, es, ps, 1, &cfg).unwrap();
    // seed 1 gives the plate an oceanic kind: every cell sits at 118
    assert_eq!(w.tiles()[0].elevation, 118);
    // a later pass with a higher water level must pull the cells under it
    let wetter = GenConfig::new(200, 210, 220, 200_000, 1_800_000, 1, 1, 1).unwrap();
    w.apply_water_level(&wetter);
    for t in w.tiles().iter() {
        assert_eq!(t.tile_type, TileType::Ocean);
        // blue = 50 + truncate(150 * 118 / 199) = 138
        assert_eq!(t.tile_color.b, 138);
        assert_eq!(t.tile_color.g, 50);
        assert_eq!(t.tile_color.r, 0);
    }
}
