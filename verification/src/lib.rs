//! Tile-world preparation library.
//!
//! Builds a tile-based 2D world from coherent-noise samples: terrain
//! classification, grid partitioning, grid-to-world coordinate mapping,
//! chroma-key background removal for sprite textures, and the per-tick
//! movement and camera-follow controllers.
//!
//! All positions and noise samples are fixed-point integers in thousandths
//! (milli-units), so every computation here is exact.

pub mod assets;
pub mod camera;
pub mod chroma;
pub mod config;
pub mod coords;
pub mod movement;
pub mod terrain;
