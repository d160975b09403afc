//! Grid-to-world coordinate mapping.
//!
//! A grid cell `(col, row)` maps to the world position
//! `(col * tile_w * scale, row * tile_h * scale)`. Tile sizes are in pixels
//! and the scale factor is a whole number, so the map is exact integer
//! arithmetic: adjacent cells land exactly one scaled tile apart.

use crate::terrain::TerrainKind;
use crate::terrain::TileGrid;
use crate::terrain::flat_index;
use crate::terrain::lemma_flat_index_in_range;
use vstd::prelude::*;

verus! {

/// The world x coordinate of column `col`.
pub open spec fn world_x_spec(col: int, tile_w: int, scale: int) -> int {
    col * tile_w * scale
}

/// The world y coordinate of row `row`.
pub open spec fn world_y_spec(row: int, tile_h: int, scale: int) -> int {
    row * tile_h * scale
}

/// The stateless grid-to-world map: tile pixel size and a uniform
/// whole-number sprite scale factor.
pub struct CoordinateMapper {
    pub tile_w: u32,
    pub tile_h: u32,
    pub scale: u32,
}

impl CoordinateMapper {
    /// Maps grid cell `(col, row)` to its world position.
    pub fn to_world(&self, col: u32, row: u32) -> (pos: (i64, i64))
        requires
            world_x_spec(col as int, self.tile_w as int, self.scale as int) <= i64::MAX as int,
            world_y_spec(row as int, self.tile_h as int, self.scale as int) <= i64::MAX as int,
        ensures
            pos.0 == world_x_spec(col as int, self.tile_w as int, self.scale as int),
            pos.1 == world_y_spec(row as int, self.tile_h as int, self.scale as int),
    {
        proof {
            assert(0 <= col * self.tile_w <= u32::MAX as int * u32::MAX as int && 0 <= col
                * self.tile_w * self.scale <= u32::MAX as int * u32::MAX as int * u32::MAX
                as int) by (nonlinear_arith)
                requires
                    0 <= col <= u32::MAX,
                    0 <= self.tile_w <= u32::MAX,
                    0 <= self.scale <= u32::MAX,
            ;
            assert(0 <= row * self.tile_h <= u32::MAX as int * u32::MAX as int && 0 <= row
                * self.tile_h * self.scale <= u32::MAX as int * u32::MAX as int * u32::MAX
                as int) by (nonlinear_arith)
                requires
                    0 <= row <= u32::MAX,
                    0 <= self.tile_h <= u32::MAX,
                    0 <= self.scale <= u32::MAX,
            ;
        }
        let x: u128 = col as u128 * self.tile_w as u128 * self.scale as u128;
        let y: u128 = row as u128 * self.tile_h as u128 * self.scale as u128;
        (x as i64, y as i64)
    }
}

/// Coordinate linearity: one column to the right moves the world position
/// by exactly `(tile_w * scale, 0)`, and one row up moves it by exactly
/// `(0, tile_h * scale)`; the other axis is untouched because each world
/// axis depends on its own grid axis alone.
pub proof fn lemma_coordinate_linearity(col: int, row: int, tile_w: int, tile_h: int, scale: int)
    ensures
        world_x_spec(col + 1, tile_w, scale) - world_x_spec(col, tile_w, scale) == tile_w * scale,
        world_y_spec(row + 1, tile_h, scale) - world_y_spec(row, tile_h, scale) == tile_h * scale,
{
    assert((col + 1) * tile_w * scale - col * tile_w * scale == tile_w * scale)
        by (nonlinear_arith);
    assert((row + 1) * tile_h * scale - row * tile_h * scale == tile_h * scale)
        by (nonlinear_arith);
}

/// Lays every tile out in world space: one `(x, y, kind)` triple per grid
/// cell, in column-major order, each at the position the mapper assigns to
/// its cell.
pub fn tile_placements(grid: &TileGrid, mapper: &CoordinateMapper) -> (tiles: Vec<
    (i64, i64, TerrainKind),
>)
    requires
        grid.wf(),
        grid.cols <= u32::MAX,
        grid.rows <= u32::MAX,
        world_x_spec(grid.cols - 1, mapper.tile_w as int, mapper.scale as int) <= i64::MAX as int,
        world_y_spec(grid.rows - 1, mapper.tile_h as int, mapper.scale as int) <= i64::MAX as int,
    ensures
        tiles@.len() == grid.cols * grid.rows,
        forall|col: int, row: int|
            grid.in_domain(col, row) ==> {
                let tile = tiles@[#[trigger] flat_index(col, row, grid.rows as int)];
                &&& tile.0 == world_x_spec(col, mapper.tile_w as int, mapper.scale as int)
                &&& tile.1 == world_y_spec(row, mapper.tile_h as int, mapper.scale as int)
                &&& tile.2 == grid.kind_at(col, row)
            },
{
    let mut tiles: Vec<(i64, i64, TerrainKind)> = Vec::new();
    let mut col: usize = 0;
    while col < grid.cols
        invariant
            grid.wf(),
            grid.cols <= u32::MAX,
            grid.rows <= u32::MAX,
            world_x_spec(grid.cols - 1, mapper.tile_w as int, mapper.scale as int) <= i64::MAX
                as int,
            world_y_spec(grid.rows - 1, mapper.tile_h as int, mapper.scale as int) <= i64::MAX
                as int,
            col <= grid.cols,
            tiles@.len() == col * grid.rows,
            forall|c: int, r: int|
                0 <= c < col && 0 <= r < grid.rows ==> {
                    let tile = tiles@[#[trigger] flat_index(c, r, grid.rows as int)];
                    &&& tile.0 == world_x_spec(c, mapper.tile_w as int, mapper.scale as int)
                    &&& tile.1 == world_y_spec(r, mapper.tile_h as int, mapper.scale as int)
                    &&& tile.2 == grid.kind_at(c, r)
                },
        decreases grid.cols - col,
    {
        let mut row: usize = 0;
        while row < grid.rows
            invariant
                grid.wf(),
                grid.cols <= u32::MAX,
                grid.rows <= u32::MAX,
                world_x_spec(grid.cols - 1, mapper.tile_w as int, mapper.scale as int) <= i64::MAX
                    as int,
                world_y_spec(grid.rows - 1, mapper.tile_h as int, mapper.scale as int) <= i64::MAX
                    as int,
                col < grid.cols,
                row <= grid.rows,
                tiles@.len() == col * grid.rows + row,
                forall|c: int, r: int|
                    (0 <= c < col && 0 <= r < grid.rows) || (c == col && 0 <= r < row) ==> {
                        let tile = tiles@[#[trigger] flat_index(c, r, grid.rows as int)];
                        &&& tile.0 == world_x_spec(c, mapper.tile_w as int, mapper.scale as int)
                        &&& tile.1 == world_y_spec(r, mapper.tile_h as int, mapper.scale as int)
                        &&& tile.2 == grid.kind_at(c, r)
                    },
            decreases grid.rows - row,
        {
            proof {
                assert(col * mapper.tile_w * mapper.scale <= (grid.cols - 1) * mapper.tile_w
                    * mapper.scale && row * mapper.tile_h * mapper.scale <= (grid.rows - 1)
                    * mapper.tile_h * mapper.scale) by (nonlinear_arith)
                    requires
                        0 <= col <= grid.cols - 1,
                        0 <= row <= grid.rows - 1,
                        mapper.tile_w >= 0,
                        mapper.tile_h >= 0,
                        mapper.scale >= 0,
                ;
                lemma_flat_index_in_range(col as int, row as int, grid.cols as int, grid.rows as int);
            }
            let (x, y) = mapper.to_world(col as u32, row as u32);
            let kind = grid.kind_of_cell(col, row);
            let ghost prev_tiles = tiles@;
            tiles.push((x, y, kind));
            proof {
                assert forall|c: int, r: int|
                    (0 <= c < col && 0 <= r < grid.rows) || (c == col && 0 <= r < row + 1) implies {
                    let tile = tiles@[#[trigger] flat_index(c, r, grid.rows as int)];
                    &&& tile.0 == world_x_spec(c, mapper.tile_w as int, mapper.scale as int)
                    &&& tile.1 == world_y_spec(r, mapper.tile_h as int, mapper.scale as int)
                    &&& tile.2 == grid.kind_at(c, r)
                } by {
                    if c == col && r == row {
                        assert(flat_index(c, r, grid.rows as int) == prev_tiles.len());
                        assert(tiles@[flat_index(c, r, grid.rows as int)] == (x, y, kind));
                    } else {
                        assert(flat_index(c, r, grid.rows as int) < prev_tiles.len())
                            by (nonlinear_arith)
                            requires
                                (0 <= c < col && 0 <= r < grid.rows) || (c == col && 0 <= r < row),
                                prev_tiles.len() == col * grid.rows + row,
                                grid.rows > 0,
                                flat_index(c, r, grid.rows as int) == c * grid.rows + r,
                        ;
                        assert(tiles@[flat_index(c, r, grid.rows as int)] == prev_tiles[flat_index(
                            c,
                            r,
                            grid.rows as int,
                        )]);
                    }
                }
            }
            row += 1;
        }
        proof {
            assert((col + 1) * grid.rows == col * grid.rows + grid.rows) by (nonlinear_arith);
        }
        col += 1;
    }
    tiles
}

} // verus!
