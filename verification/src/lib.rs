//! Procedural terrain generation for a fixed rectangular grid world.
//!
//! Each cell of the grid receives an elevation, a land/ocean
//! classification and a display color. The elevation comes from a layered
//! noise field combined with a tectonic-plate field: a plate-kind bias and
//! a boundary-proximity mountain bonus are added to the base elevation,
//! the sum is clamped to the 8-bit elevation scale, and the classification
//! and color follow from the result.
//!
//! Continuous quantities (noise samples, boundary distances, tunable
//! parameters) are carried as fixed-point integers in millionths of a
//! unit, so the whole pipeline is exact integer arithmetic. Sampling the
//! noise functions themselves is left to the caller, who hands the raw
//! sample fields to [`world::generate_new_world`].

pub mod config;
pub mod noisegen;
pub mod tile;
pub mod world;
