//! World-generation parameters.
//!
//! One configuration value holds everything a world build needs: grid
//! size, the noise sampling scale and classification threshold (both in
//! thousandths), tile pixel size, the sprite scale factor, and the noise
//! seed. The seed is explicit: `Some(seed)` makes repeated runs produce
//! the same world, `None` asks the caller to draw a fresh seed at
//! startup. A degenerate grid is rejected here, before any work is done.

use crate::terrain::GridError;
use vstd::prelude::*;

verus! {

/// Relies on rand::random: draws one value from the process-wide
/// generator. The outcome depends on the generator's state, so nothing is
/// promised of the result.
#[verifier::external_body]
fn draw_seed() -> u32 {
    rand::random()
}

/// The recognized world-generation options.
pub struct WorldConfig {
    pub cols: usize,
    pub rows: usize,
    /// Distance in noise space between adjacent cells, in thousandths.
    pub noise_scale_milli: i64,
    /// Classification threshold for noise samples, in thousandths.
    pub threshold_milli: i64,
    /// Tile width in pixels.
    pub tile_w: u32,
    /// Tile height in pixels.
    pub tile_h: u32,
    /// Uniform sprite scale factor.
    pub sprite_scale: u32,
    /// The noise seed; `None` means draw one fresh at startup.
    pub seed: Option<u32>,
}

impl WorldConfig {
    /// Validates the configuration: a world with no columns or no rows is
    /// a fatal configuration error, never a silently empty world.
    pub fn validate(&self) -> (result: Result<(), GridError>)
        ensures
            result is Ok <==> (self.cols > 0 && self.rows > 0),
            result is Err ==> result == Result::<(), GridError>::Err(GridError::EmptyGrid),
    {
        if self.cols == 0 || self.rows == 0 {
            Err(GridError::EmptyGrid)
        } else {
            Ok(())
        }
    }

    /// The seed a world build runs on: the configured seed when one is
    /// present — which is what makes repeated runs produce the same world
    /// — or one drawn fresh at startup.
    pub fn resolve_seed(&self) -> (seed: u32)
        ensures
            self.seed matches Some(configured) ==> seed == configured,
    {
        match self.seed {
            Some(seed) => seed,
            None => draw_seed(),
        }
    }

    /// The noise-space point sampled for cell `(col, row)`, in
    /// thousandths: each grid axis is stretched by the sampling scale.
    pub fn sample_point_milli(&self, col: usize, row: usize) -> (point: (i64, i64))
        requires
            col as int <= i64::MAX as int,
            row as int <= i64::MAX as int,
            col as int * self.noise_scale_milli as int <= i64::MAX as int,
            row as int * self.noise_scale_milli as int <= i64::MAX as int,
            i64::MIN as int <= col as int * self.noise_scale_milli as int,
            i64::MIN as int <= row as int * self.noise_scale_milli as int,
        ensures
            point.0 == col as int * self.noise_scale_milli as int,
            point.1 == row as int * self.noise_scale_milli as int,
    {
        ((col as i64) * self.noise_scale_milli, (row as i64) * self.noise_scale_milli)
    }
}

} // verus!
