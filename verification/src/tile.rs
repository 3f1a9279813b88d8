//! One cell of the world grid: elevation, land/ocean classification,
//! reserved property flags, and the derived display color.

use crate::config::GenConfig;
use crate::config::GenError;
use vstd::prelude::*;

verus! {

/// The surface classification of a cell.
#[derive(Clone, Copy, Debug, PartialEq, Eq, Structural)]
pub enum TileType {
    Land,
    Ocean,
}

/// A cell property reserved for future terrain rules: a river runs here.
pub const HAS_RIVER: u32 = 0b00000001;

/// A cell property reserved for future terrain rules: a mountain stands here.
pub const HAS_MOUNTAIN: u32 = 0b00000010;

/// A cell property reserved for future terrain rules: forest cover.
pub const HAS_FOREST: u32 = 0b00000100;

/// A cell property reserved for future terrain rules: a settlement.
pub const HAS_SETTLEMENT: u32 = 0b00001000;

/// A cell property reserved for future terrain rules: farmland.
pub const HAS_FARMLAND: u32 = 0b00010000;

/// A small set of per-cell property flags. The generation rules leave it
/// empty; it is an extension point for richer terrain rules.
#[derive(Clone, Copy, Debug, PartialEq, Eq, Structural)]
pub struct LandTileProperties {
    /// One bit per flag, `HAS_RIVER` through `HAS_FARMLAND`.
    pub bits: u32,
}

impl LandTileProperties {
    /// The set with no flags.
    pub fn empty() -> (r: Self)
        ensures
            r.bits == 0,
    {
        LandTileProperties { bits: 0 }
    }

    /// Whether no flag is set.
    pub fn is_empty(&self) -> (r: bool)
        ensures
            r == (self.bits == 0),
    {
        self.bits == 0
    }

    /// Whether every flag of `flags` is set.
    pub fn contains(&self, flags: u32) -> (r: bool)
        ensures
            r == (self.bits & flags == flags),
    {
        self.bits & flags == flags
    }

    /// Sets every flag of `flags`.
    pub fn insert(&mut self, flags: u32)
        ensures
            final(self).bits == (old(self).bits | flags),
    {
        self.bits = self.bits | flags;
    }
}

/// A display color, one byte per channel.
#[derive(Clone, Copy, Debug, PartialEq, Eq, Structural)]
pub struct Rgba {
    pub r: u8,
    pub g: u8,
    pub b: u8,
    pub a: u8,
}

/// One cell of the world grid.
#[derive(Clone, Copy, Debug, PartialEq, Eq, Structural)]
pub struct Tile {
    pub tile_type: TileType,
    pub elevation: u8,
    pub properties: LandTileProperties,
    pub tile_color: Rgba,
}

/// The cell every grid position starts from: low land, no properties,
/// colored black.
pub open spec fn spec_default_tile() -> Tile {
    (Tile {
        tile_type: TileType::Land,
        elevation: 1,
        properties: (LandTileProperties { bits: 0 }),
        tile_color: (Rgba { r: 0, g: 0, b: 0, a: 255 }),
    })
}

impl Default for Tile {
    /// A default cell, as allocated by the world grid before generation.
    fn default() -> (r: Self)
        ensures
            r == spec_default_tile(),
    {
        Tile {
            tile_type: TileType::Land,
            elevation: 1,
            properties: LandTileProperties { bits: 0 },
            tile_color: Rgba { r: 0, g: 0, b: 0, a: 255 },
        }
    }
}

/// The classification rule: ocean strictly below the water level, land
/// from the water level up.
pub open spec fn spec_classify(elevation: u8, water_level: u8) -> TileType {
    if elevation < water_level {
        TileType::Ocean
    } else {
        TileType::Land
    }
}

/// The blue channel of an ocean cell: interpolated from the deep value 50
/// toward the shallows value 200 as the elevation approaches the water
/// level, saturating at 255. The fraction is `elevation / (water_level - 1)`
/// and the interpolated value is truncated, as the whole pipeline truncates.
pub open spec fn spec_ocean_blue(elevation: u8, water_level: u8) -> u8 {
    if water_level <= 1 {
        50u8
    } else {
        let v = 50 + (150 * (elevation as int)) / ((water_level - 1) as int);
        if v > 255 {
            255u8
        } else {
            v as u8
        }
    }
}

/// The color of an ocean cell: fixed small green component, interpolated
/// blue, full opacity.
pub open spec fn spec_ocean_color(elevation: u8, water_level: u8) -> Rgba {
    (Rgba { r: 0, g: 50, b: spec_ocean_blue(elevation, water_level), a: 255 })
}

/// The color of a land cell at or above the water level: green lowlands
/// interpolated between 120 and 180 by `(elevation - water) / (rock - water)`,
/// flat gray rock, flat white snow.
pub open spec fn spec_land_color(elevation: u8, cfg: GenConfig) -> Rgba {
    if elevation < cfg.rock_level {
        let green = 120 + (60 * ((elevation - cfg.water_level) as int)) / ((cfg.rock_level
            - cfg.water_level) as int);
        (Rgba { r: 30, g: green as u8, b: 30, a: 255 })
    } else if elevation < cfg.snow_level {
        (Rgba { r: 105, g: 105, b: 105, a: 255 })
    } else {
        (Rgba { r: 255, g: 255, b: 255, a: 255 })
    }
}

/// Whether some color rule matches the cell: the only gap is a land cell
/// below the water level, which the classification rule never produces.
pub open spec fn spec_color_ok(tile_type: TileType, elevation: u8, water_level: u8) -> bool {
    !(tile_type == TileType::Land && elevation < water_level)
}

/// The display color of a cell, a pure function of its classification and
/// elevation. Meaningful when `spec_color_ok` holds.
pub open spec fn spec_tile_color(tile_type: TileType, elevation: u8, cfg: GenConfig) -> Rgba {
    match tile_type {
        TileType::Ocean => spec_ocean_color(elevation, cfg.water_level),
        TileType::Land => spec_land_color(elevation, cfg),
    }
}

impl Tile {
    /// Reclassifies the cell from its elevation: ocean strictly below the
    /// water level, land otherwise.
    pub fn update_tile_type(&mut self, cfg: &GenConfig)
        ensures
            final(self).tile_type == spec_classify(old(self).elevation, cfg.water_level),
            final(self).elevation == old(self).elevation,
            final(self).properties == old(self).properties,
            final(self).tile_color == old(self).tile_color,
    {
        if self.elevation < cfg.water_level {
            self.tile_type = TileType::Ocean;
        } else {
            self.tile_type = TileType::Land;
        }
    }

    /// Recomputes the display color from the classification and elevation.
    /// A land cell below the water level matches no color rule: that is a
    /// synthesizer defect, reported as an error with the cell untouched.
    pub fn update_color(&mut self, cfg: &GenConfig) -> (r: Result<(), GenError>)
        ensures
            spec_color_ok(old(self).tile_type, old(self).elevation, cfg.water_level) ==> r
                == Ok::<(), GenError>(()) && *final(self) == (Tile {
                tile_color: spec_tile_color(old(self).tile_type, old(self).elevation, *cfg),
                ..*old(self)
            }),
            !spec_color_ok(old(self).tile_type, old(self).elevation, cfg.water_level) ==> r
                == Err::<(), GenError>(GenError::ClassificationGap) && *final(self) == *old(self),
    {
        match self.tile_type {
            TileType::Ocean => {
                let blue: u8 = if cfg.water_level <= 1 {
                    50
                } else {
                    let v: u64 = 50 + (150 * (self.elevation as u64)) / ((cfg.water_level - 1)
                        as u64);
                    if v > 255 {
                        255
                    } else {
                        v as u8
                    }
                };
                self.tile_color = Rgba { r: 0, g: 50, b: blue, a: 255 };
                Ok(())
            },
            TileType::Land => {
                if self.elevation >= cfg.water_level {
                    if self.elevation < cfg.rock_level {
                        let num: u64 = 60 * ((self.elevation - cfg.water_level) as u64);
                        let denom: u64 = (cfg.rock_level - cfg.water_level) as u64;
                        let green: u64 = 120 + num / denom;
                        self.tile_color = Rgba { r: 30, g: green as u8, b: 30, a: 255 };
                        Ok(())
                    } else if self.elevation < cfg.snow_level {
                        self.tile_color = Rgba { r: 105, g: 105, b: 105, a: 255 };
                        Ok(())
                    } else {
                        self.tile_color = Rgba { r: 255, g: 255, b: 255, a: 255 };
                        Ok(())
                    }
                } else {
                    Err(GenError::ClassificationGap)
                }
            },
        }
    }
}

} // verus!
