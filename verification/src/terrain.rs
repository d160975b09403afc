//! Terrain classification and the tile grid.
//!
//! A noise sample is a fixed-point value in thousandths (a sample of 1000
//! stands for 1.0). The classifier applies a threshold policy: a sample
//! strictly above the threshold is `Water`, every other sample is `Grass`.
//! The grid builder classifies every cell of a `cols x rows` grid from a
//! flat, column-major vector of samples.

use vstd::prelude::*;

verus! {

/// The closed set of classification outcomes, one per grid cell.
#[derive(Clone, Copy, Debug, PartialEq, Eq, Structural)]
pub enum TerrainKind {
    Grass,
    Water,
}

/// The threshold policy: strictly above the threshold is water,
/// at or below it is grass.
pub open spec fn classify_spec(sample: int, threshold: int) -> TerrainKind {
    if sample > threshold {
        TerrainKind::Water
    } else {
        TerrainKind::Grass
    }
}

/// Classifies one fixed-point noise sample against a fixed-point threshold.
pub fn classify(sample: i64, threshold: i64) -> (kind: TerrainKind)
    ensures
        kind == classify_spec(sample as int, threshold as int),
{
    if sample > threshold {
        TerrainKind::Water
    } else {
        TerrainKind::Grass
    }
}

/// Why a grid could not be built.
#[derive(Clone, Copy, Debug, PartialEq, Eq, Structural)]
pub enum GridError {
    /// `cols == 0` or `rows == 0`: a degenerate world is a fatal
    /// configuration error, never an empty grid.
    EmptyGrid,
    /// The sample vector does not hold exactly one sample per cell.
    SampleCountMismatch,
}

/// Column-major flat index of cell `(col, row)` in a grid with `rows` rows.
pub open spec fn flat_index(col: int, row: int, rows: int) -> int {
    col * rows + row
}

/// A fixed-size grid of classified cells: logically a total function from
/// `(col, row)` in `[0, cols) x [0, rows)` to `TerrainKind`, stored as a
/// flat column-major vector.
pub struct TileGrid {
    pub cols: usize,
    pub rows: usize,
    pub kinds: Vec<TerrainKind>,
}

impl TileGrid {
    /// Well-formedness: a non-degenerate grid with one kind per cell.
    pub open spec fn wf(self) -> bool {
        &&& self.cols > 0
        &&& self.rows > 0
        &&& self.kinds.len() == self.cols * self.rows
    }

    /// The kind of cell `(col, row)`.
    pub open spec fn kind_at(self, col: int, row: int) -> TerrainKind {
        self.kinds[flat_index(col, row, self.rows as int)]
    }

    /// Whether `(col, row)` lies inside the grid domain.
    pub open spec fn in_domain(self, col: int, row: int) -> bool {
        0 <= col < self.cols && 0 <= row < self.rows
    }

    /// Reads the kind of one cell.
    pub fn kind_of_cell(&self, col: usize, row: usize) -> (kind: TerrainKind)
        requires
            self.wf(),
            self.in_domain(col as int, row as int),
        ensures
            kind == self.kind_at(col as int, row as int),
    {
        proof {
            lemma_flat_index_in_range(col as int, row as int, self.cols as int, self.rows as int);
        }
        self.kinds[col * self.rows + row]
    }
}

/// A cell inside the domain has a flat index inside the vector.
pub proof fn lemma_flat_index_in_range(col: int, row: int, cols: int, rows: int)
    requires
        0 <= col < cols,
        0 <= row < rows,
    ensures
        0 <= flat_index(col, row, rows) < cols * rows,
{
    assert(col * rows + row < cols * rows) by (nonlinear_arith)
        requires
            0 <= col < cols,
            0 <= row < rows,
    ;
    assert(col * rows + row >= 0) by (nonlinear_arith)
        requires
            0 <= col,
            0 <= row < rows,
    ;
}

/// Builds the tile grid: classifies every cell `(col, row)` from the sample
/// at its column-major flat index. Degenerate dimensions are rejected, as is
/// a sample vector whose length is not `cols * rows`.
pub fn build_tile_grid(cols: usize, rows: usize, samples: &Vec<i64>, threshold: i64) -> (result:
    Result<TileGrid, GridError>)
    ensures
        match result {
            Ok(grid) => {
                &&& cols > 0
                &&& rows > 0
                &&& samples.len() == cols * rows
                &&& grid.cols == cols
                &&& grid.rows == rows
                &&& grid.wf()
                &&& forall|col: int, row: int|
                    grid.in_domain(col, row) ==> grid.kind_at(col, row) == classify_spec(
                        samples[flat_index(col, row, rows as int)] as int,
                        threshold as int,
                    )
            },
            Err(GridError::EmptyGrid) => cols == 0 || rows == 0,
            Err(GridError::SampleCountMismatch) => cols > 0 && rows > 0 && samples.len() != cols
                * rows,
        },
{
    if cols == 0 || rows == 0 {
        return Err(GridError::EmptyGrid);
    }
    let total = match cols.checked_mul(rows) {
        Some(t) => t,
        None => {
            return Err(GridError::SampleCountMismatch);
        },
    };
    if samples.len() != total {
        return Err(GridError::SampleCountMismatch);
    }
    let mut kinds: Vec<TerrainKind> = Vec::new();
    let mut i: usize = 0;
    while i < total
        invariant
            total == cols * rows,
            samples.len() == total,
            i <= total,
            kinds.len() == i,
            forall|j: int|
                0 <= j < i ==> kinds[j] == classify_spec(samples[j] as int, threshold as int),
        decreases total - i,
    {
        kinds.push(classify(samples[i], threshold));
        i += 1;
    }
    let grid = TileGrid { cols, rows, kinds };
    proof {
        assert forall|col: int, row: int| grid.in_domain(col, row) implies grid.kind_at(col, row)
            == classify_spec(
            samples[flat_index(col, row, rows as int)] as int,
            threshold as int,
        ) by {
            lemma_flat_index_in_range(col, row, cols as int, rows as int);
        }
    }
    Ok(grid)
}

impl TileGrid {
    /// Splits the grid domain into the grass cells and the water cells.
    ///
    /// The two vectors partition the domain: together they hold exactly
    /// `cols * rows` cells, each without duplicates, and an in-domain cell
    /// stands in the grass vector exactly when it is classified `Grass` and
    /// in the water vector exactly when it is classified `Water`.
    pub fn partition_cells(&self) -> (parts: (Vec<(usize, usize)>, Vec<(usize, usize)>))
        requires
            self.wf(),
        ensures
            parts.0@.len() + parts.1@.len() == self.cols * self.rows,
            forall|i: int|
                0 <= i < parts.0@.len() ==> self.in_domain(
                    #[trigger] parts.0@[i].0 as int,
                    parts.0@[i].1 as int,
                ) && self.kind_at(parts.0@[i].0 as int, parts.0@[i].1 as int)
                    == TerrainKind::Grass,
            forall|i: int|
                0 <= i < parts.1@.len() ==> self.in_domain(
                    #[trigger] parts.1@[i].0 as int,
                    parts.1@[i].1 as int,
                ) && self.kind_at(parts.1@[i].0 as int, parts.1@[i].1 as int)
                    == TerrainKind::Water,
            forall|c: usize, r: usize|
                self.in_domain(c as int, r as int) ==> (parts.0@.contains((c, r))
                    <==> self.kind_at(c as int, r as int) == TerrainKind::Grass),
            forall|c: usize, r: usize|
                self.in_domain(c as int, r as int) ==> (parts.1@.contains((c, r))
                    <==> self.kind_at(c as int, r as int) == TerrainKind::Water),
            forall|i: int, j: int|
                0 <= i < j < parts.0@.len() ==> parts.0@[i] != parts.0@[j],
            forall|i: int, j: int|
                0 <= i < j < parts.1@.len() ==> parts.1@[i] != parts.1@[j],
    {
        let mut grass: Vec<(usize, usize)> = Vec::new();
        let mut water: Vec<(usize, usize)> = Vec::new();
        let mut col: usize = 0;
        while col < self.cols
            invariant
                self.wf(),
                col <= self.cols,
                grass@.len() + water@.len() == col * self.rows,
                forall|i: int|
                    0 <= i < grass@.len() ==> (#[trigger] grass@[i]).0 < col && grass@[i].1
                        < self.rows && self.kind_at(grass@[i].0 as int, grass@[i].1 as int)
                        == TerrainKind::Grass,
                forall|i: int|
                    0 <= i < water@.len() ==> (#[trigger] water@[i]).0 < col && water@[i].1
                        < self.rows && self.kind_at(water@[i].0 as int, water@[i].1 as int)
                        == TerrainKind::Water,
                forall|c: usize, r: usize|
                    c < col && r < self.rows && self.kind_at(c as int, r as int)
                        == TerrainKind::Grass ==> grass@.contains((c, r)),
                forall|c: usize, r: usize|
                    c < col && r < self.rows && self.kind_at(c as int, r as int)
                        == TerrainKind::Water ==> water@.contains((c, r)),
                forall|i: int, j: int| 0 <= i < j < grass@.len() ==> grass@[i] != grass@[j],
                forall|i: int, j: int| 0 <= i < j < water@.len() ==> water@[i] != water@[j],
            decreases self.cols - col,
        {
            let mut row: usize = 0;
            while row < self.rows
                invariant
                    self.wf(),
                    col < self.cols,
                    row <= self.rows,
                    grass@.len() + water@.len() == col * self.rows + row,
                    forall|i: int|
                        0 <= i < grass@.len() ==> ((#[trigger] grass@[i]).0 < col || (grass@[i].0
                            == col && grass@[i].1 < row)) && grass@[i].1 < self.rows
                            && self.kind_at(grass@[i].0 as int, grass@[i].1 as int)
                            == TerrainKind::Grass,
                    forall|i: int|
                        0 <= i < water@.len() ==> ((#[trigger] water@[i]).0 < col || (water@[i].0
                            == col && water@[i].1 < row)) && water@[i].1 < self.rows
                            && self.kind_at(water@[i].0 as int, water@[i].1 as int)
                            == TerrainKind::Water,
                    forall|c: usize, r: usize|
                        (c < col || (c == col && r < row)) && r < self.rows && self.kind_at(
                            c as int,
                            r as int,
                        ) == TerrainKind::Grass ==> grass@.contains((c, r)),
                    forall|c: usize, r: usize|
                        (c < col || (c == col && r < row)) && r < self.rows && self.kind_at(
                            c as int,
                            r as int,
                        ) == TerrainKind::Water ==> water@.contains((c, r)),
                    forall|i: int, j: int| 0 <= i < j < grass@.len() ==> grass@[i] != grass@[j],
                    forall|i: int, j: int| 0 <= i < j < water@.len() ==> water@[i] != water@[j],
                decreases self.rows - row,
            {
                let kind = self.kind_of_cell(col, row);
                let ghost prev_grass = grass@;
                let ghost prev_water = water@;
                match kind {
                    TerrainKind::Grass => grass.push((col, row)),
                    TerrainKind::Water => water.push((col, row)),
                }
                proof {
                    assert forall|c: usize, r: usize|
                        (c < col || (c == col && r < row + 1)) && r < self.rows && self.kind_at(
                            c as int,
                            r as int,
                        ) == TerrainKind::Grass implies grass@.contains((c, r)) by {
                        if c == col && r == row {
                            assert(grass@[grass@.len() - 1] == (c, r));
                        } else {
                            assert(prev_grass.contains((c, r)));
                            let i = choose|i: int|
                                0 <= i < prev_grass.len() && prev_grass[i] == (c, r);
                            assert(grass@[i] == (c, r));
                        }
                    }
                    assert forall|c: usize, r: usize|
                        (c < col || (c == col && r < row + 1)) && r < self.rows && self.kind_at(
                            c as int,
                            r as int,
                        ) == TerrainKind::Water implies water@.contains((c, r)) by {
                        if c == col && r == row {
                            assert(water@[water@.len() - 1] == (c, r));
                        } else {
                            assert(prev_water.contains((c, r)));
                            let i = choose|i: int|
                                0 <= i < prev_water.len() && prev_water[i] == (c, r);
                            assert(water@[i] == (c, r));
                        }
                    }
                }
                row += 1;
            }
            proof {
                assert((col + 1) * self.rows == col * self.rows + self.rows) by (nonlinear_arith);
            }
            col += 1;
        }
        proof {
            assert forall|c: usize, r: usize|
                self.in_domain(c as int, r as int) && grass@.contains(
                    (c, r),
                ) implies self.kind_at(c as int, r as int) == TerrainKind::Grass by {
                let i = choose|i: int| 0 <= i < grass@.len() && grass@[i] == (c, r);
                assert(self.kind_at(grass@[i].0 as int, grass@[i].1 as int) == TerrainKind::Grass);
            }
            assert forall|c: usize, r: usize|
                self.in_domain(c as int, r as int) && water@.contains(
                    (c, r),
                ) implies self.kind_at(c as int, r as int) == TerrainKind::Water by {
                let i = choose|i: int| 0 <= i < water@.len() && water@[i] == (c, r);
                assert(self.kind_at(water@[i].0 as int, water@[i].1 as int) == TerrainKind::Water);
            }
        }
        (grass, water)
    }
}

/// Determinism: the grid is a pure function of its inputs. Any two
/// well-formed grids whose cells were each classified from the same
/// dimensions, the same samples, and the same threshold agree on every
/// cell and hold identical kind vectors.
pub proof fn lemma_grid_deterministic(
    g1: TileGrid,
    g2: TileGrid,
    samples: Seq<i64>,
    threshold: int,
)
    requires
        g1.wf(),
        g2.wf(),
        g1.cols == g2.cols,
        g1.rows == g2.rows,
        samples.len() == g1.cols * g1.rows,
        forall|col: int, row: int|
            g1.in_domain(col, row) ==> g1.kind_at(col, row) == classify_spec(
                samples[flat_index(col, row, g1.rows as int)] as int,
                threshold,
            ),
        forall|col: int, row: int|
            g2.in_domain(col, row) ==> g2.kind_at(col, row) == classify_spec(
                samples[flat_index(col, row, g2.rows as int)] as int,
                threshold,
            ),
    ensures
        forall|col: int, row: int|
            g1.in_domain(col, row) ==> g1.kind_at(col, row) == g2.kind_at(col, row),
        g1.kinds@ =~= g2.kinds@,
{
    let rows = g1.rows as int;
    let cols = g1.cols as int;
    assert forall|j: int| 0 <= j < g1.kinds@.len() implies g1.kinds@[j] == g2.kinds@[j] by {
        let col = j / rows;
        let row = j % rows;
        vstd::arithmetic::div_mod::lemma_fundamental_div_mod(j, rows);
        vstd::arithmetic::div_mod::lemma_mod_division_less_than_divisor(j, rows);
        vstd::arithmetic::div_mod::lemma_div_pos_is_pos(j, rows);
        assert(col < cols) by (nonlinear_arith)
            requires
                rows * col + row == j,
                0 <= row < rows,
                j < cols * rows,
                0 <= col,
        ;
        assert(flat_index(col, row, rows) == j);
        assert(g1.kind_at(col, row) == g2.kind_at(col, row));
    }
}

} // verus!
