//! World generation rules: fixed-point scale, default parameters, and the
//! validated configuration record.

use vstd::prelude::*;

verus! {

/// Number of micro-units in one whole unit: every fixed-point quantity in
/// this crate (noise samples, boundary distances, tunable parameters)
/// carries millionths of a unit.
pub const MICRO: i64 = 1_000_000;

/// Upper bound on the magnitude of the fixed-point tunable parameters; it
/// keeps every intermediate product of the synthesizer inside `i64`.
pub const MAX_PARAM_MICRO: i64 = 1_000_000_000_000;

/// Grid width of the default world.
pub const WORLD_X_WIDTH: u32 = 256;

/// Grid height of the default world.
pub const WORLD_Y_HEIGHT: u32 = 256;

/// Number of cells of the default world.
pub const WORLD_SIZE: u32 = WORLD_X_WIDTH * WORLD_Y_HEIGHT;

/// Side length, in pixels, of one cell when the grid is drawn.
pub const CELL_WIDTH: u8 = 4;

/// Seed the default world is generated from.
pub const WORLD_SEED: u64 = 28282828;

/// Cells whose final elevation lies below this threshold are ocean.
pub const WATER_LEVEL: u8 = 130;

/// Land at or above this elevation shows as bare rock.
pub const ROCK_LEVEL: u8 = 190;

/// Land at or above this elevation shows as snow.
pub const SNOW_LEVEL: u8 = 215;

/// Distance to the nearest plate boundary (in micro-units) below which a
/// mountain bonus is added.
pub const MOUNTAIN_FORMATION_DISTANCE: i64 = 200_000;

/// Largest mountain bonus, in micro elevation steps.
pub const MOUNTAIN_MAX_HEIGHT: i64 = 1_800_000;

/// Feature size of the elevation noise, in micro-units.
pub const PERLIN_SCALE: i64 = 26_000_000;

/// Feature size of the plate partitioning, in micro-units.
pub const VORONOI_SCALE: i64 = 76_000_000;

/// Strength of the domain warp applied before the plate query, in
/// micro-units.
pub const PLATE_DISTORTION_STRENGTH: i64 = 4_000_000;

/// Why the generator refused to run, or which defect a pass discovered.
#[derive(Clone, Copy, Debug, PartialEq, Eq, Structural)]
pub enum GenError {
    /// A grid dimension is zero.
    ZeroDimension,
    /// `width * height` does not fit the addressable index range.
    SizeOverflow,
    /// The water, rock and snow thresholds are not strictly ascending.
    ThresholdsOutOfOrder,
    /// A scale or mountain parameter lies outside its accepted range.
    ParameterOutOfRange,
    /// A field handed to the synthesizer does not cover the whole grid.
    FieldSizeMismatch,
    /// A land cell sits below the water level: no color rule matches it.
    ClassificationGap,
}

/// The tunable parameters of one generation run. All fixed-point fields
/// are in micro-units.
#[derive(Clone, Copy, Debug, PartialEq, Eq, Structural)]
pub struct GenConfig {
    /// Elevations below this are ocean.
    pub water_level: u8,
    /// Land elevations from here up are rock.
    pub rock_level: u8,
    /// Land elevations from here up are snow.
    pub snow_level: u8,
    /// Boundary distance under which mountains form (micro-units).
    pub mountain_formation_distance: i64,
    /// Largest mountain bonus (micro elevation steps).
    pub mountain_max_height: i64,
    /// Feature size of the elevation noise (micro-units).
    pub elevation_noise_scale: i64,
    /// Feature size of the plate partitioning (micro-units).
    pub plate_noise_scale: i64,
    /// Domain warp strength of the plate query (micro-units).
    pub plate_distortion_strength: i64,
}

impl GenConfig {
    /// The elevation thresholds must be strictly ascending.
    pub open spec fn thresholds_ok(water_level: u8, rock_level: u8, snow_level: u8) -> bool {
        water_level < rock_level && rock_level < snow_level
    }

    /// A positive parameter within the fixed-point range.
    pub open spec fn positive_param_ok(v: i64) -> bool {
        0 < v && v <= MAX_PARAM_MICRO
    }

    /// A non-negative parameter within the fixed-point range.
    pub open spec fn bonus_param_ok(v: i64) -> bool {
        0 <= v && v <= MAX_PARAM_MICRO
    }

    /// A well-formed configuration: validated once, before any generation
    /// work starts.
    pub open spec fn wf(&self) -> bool {
        &&& Self::thresholds_ok(self.water_level, self.rock_level, self.snow_level)
        &&& Self::positive_param_ok(self.mountain_formation_distance)
        &&& Self::bonus_param_ok(self.mountain_max_height)
        &&& Self::positive_param_ok(self.elevation_noise_scale)
        &&& Self::positive_param_ok(self.plate_noise_scale)
        &&& Self::positive_param_ok(self.plate_distortion_strength)
    }

    /// Builds a configuration, rejecting misconfigured parameters before
    /// any generation pass could discover them.
    pub fn new(
        water_level: u8,
        rock_level: u8,
        snow_level: u8,
        mountain_formation_distance: i64,
        mountain_max_height: i64,
        elevation_noise_scale: i64,
        plate_noise_scale: i64,
        plate_distortion_strength: i64,
    ) -> (r: Result<GenConfig, GenError>)
        ensures
            !Self::thresholds_ok(water_level, rock_level, snow_level) ==> r == Err::<
                GenConfig,
                GenError,
            >(GenError::ThresholdsOutOfOrder),
            Self::thresholds_ok(water_level, rock_level, snow_level) && !(
            Self::positive_param_ok(mountain_formation_distance) && Self::bonus_param_ok(
                mountain_max_height,
            ) && Self::positive_param_ok(elevation_noise_scale) && Self::positive_param_ok(
                plate_noise_scale,
            ) && Self::positive_param_ok(plate_distortion_strength)) ==> r == Err::<
                GenConfig,
                GenError,
            >(GenError::ParameterOutOfRange),
            r matches Ok(c) ==> c == (GenConfig {
                water_level,
                rock_level,
                snow_level,
                mountain_formation_distance,
                mountain_max_height,
                elevation_noise_scale,
                plate_noise_scale,
                plate_distortion_strength,
            }) && c.wf(),
            r is Ok <==> Self::thresholds_ok(water_level, rock_level, snow_level)
                && Self::positive_param_ok(mountain_formation_distance) && Self::bonus_param_ok(
                mountain_max_height,
            ) && Self::positive_param_ok(elevation_noise_scale) && Self::positive_param_ok(
                plate_noise_scale,
            ) && Self::positive_param_ok(plate_distortion_strength),
    {
        if !(water_level < rock_level && rock_level < snow_level) {
            return Err(GenError::ThresholdsOutOfOrder);
        }
        if !(0 < mountain_formation_distance && mountain_formation_distance <= MAX_PARAM_MICRO) {
            return Err(GenError::ParameterOutOfRange);
        }
        if !(0 <= mountain_max_height && mountain_max_height <= MAX_PARAM_MICRO) {
            return Err(GenError::ParameterOutOfRange);
        }
        if !(0 < elevation_noise_scale && elevation_noise_scale <= MAX_PARAM_MICRO) {
            return Err(GenError::ParameterOutOfRange);
        }
        if !(0 < plate_noise_scale && plate_noise_scale <= MAX_PARAM_MICRO) {
            return Err(GenError::ParameterOutOfRange);
        }
        if !(0 < plate_distortion_strength && plate_distortion_strength <= MAX_PARAM_MICRO) {
            return Err(GenError::ParameterOutOfRange);
        }
        Ok(
            GenConfig {
                water_level,
                rock_level,
                snow_level,
                mountain_formation_distance,
                mountain_max_height,
                elevation_noise_scale,
                plate_noise_scale,
                plate_distortion_strength,
            },
        )
    }
}

/// The configuration of the default world.
pub open spec fn spec_default_config() -> GenConfig {
    (GenConfig {
        water_level: WATER_LEVEL,
        rock_level: ROCK_LEVEL,
        snow_level: SNOW_LEVEL,
        mountain_formation_distance: MOUNTAIN_FORMATION_DISTANCE,
        mountain_max_height: MOUNTAIN_MAX_HEIGHT,
        elevation_noise_scale: PERLIN_SCALE,
        plate_noise_scale: VORONOI_SCALE,
        plate_distortion_strength: PLATE_DISTORTION_STRENGTH,
    })
}

/// The parameters the default world is generated with.
pub fn default_config() -> (c: GenConfig)
    ensures
        c == spec_default_config(),
        c.wf(),
{
    GenConfig {
        water_level: WATER_LEVEL,
        rock_level: ROCK_LEVEL,
        snow_level: SNOW_LEVEL,
        mountain_formation_distance: MOUNTAIN_FORMATION_DISTANCE,
        mountain_max_height: MOUNTAIN_MAX_HEIGHT,
        elevation_noise_scale: PERLIN_SCALE,
        plate_noise_scale: VORONOI_SCALE,
        plate_distortion_strength: PLATE_DISTORTION_STRENGTH,
    }
}

} // verus!
