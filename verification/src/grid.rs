//! A grid of cells and the Game of Life on it.

use vstd::prelude::*;

verus! {

/// A grid of `num_rows` rows and `num_cols` columns of numbers. A cell that
/// holds 1 is alive; any other cell is dead. New grids hold 0 everywhere.
pub struct Grid {
    num_rows: usize,
    num_cols: usize,
    elems: Vec<usize>,
}

/// The value of a live cell.
pub const ALIVE: usize = 1;

/// What becomes of a cell in one step of the game: a live cell with two or
/// three live neighbours stays alive, a dead cell with exactly three live
/// neighbours comes alive, every other cell is dead.
pub open spec fn next_value(value: usize, neighbours: int) -> usize {
    if value == ALIVE {
        if neighbours == 2 || neighbours == 3 {
            ALIVE
        } else {
            0
        }
    } else {
        if neighbours == 3 {
            ALIVE
        } else {
            0
        }
    }
}

impl Grid {
    /// The number of rows.
    pub closed spec fn rows(&self) -> int {
        self.num_rows as int
    }

    /// The number of columns.
    pub closed spec fn cols(&self) -> int {
        self.num_cols as int
    }

    /// Whether the grid holds one number for each of its cells. Every grid
    /// that this module hands out does.
    pub closed spec fn wf(&self) -> bool {
        self.elems.len() == self.num_rows * self.num_cols
    }

    /// Whether `(row, col)` is a cell of the grid.
    pub open spec fn has(&self, row: int, col: int) -> bool {
        0 <= row < self.rows() && 0 <= col < self.cols()
    }

    /// The number in the cell `(row, col)`.
    pub closed spec fn cell(&self, row: int, col: int) -> usize {
        self.elems@[row * self.num_cols + col]
    }

    /// 1 if `(row, col)` is a live cell of the grid, else 0.
    pub open spec fn live(&self, row: int, col: int) -> int {
        if self.has(row, col) && self.cell(row, col) == ALIVE {
            1
        } else {
            0
        }
    }

    /// The number of live cells among the eight cells around `(row, col)`.
    /// Places past the edge of the grid count as dead.
    pub open spec fn live_neighbours(&self, row: int, col: int) -> int {
        self.live(row - 1, col - 1) + self.live(row - 1, col) + self.live(row - 1, col + 1)
            + self.live(row, col - 1) + self.live(row, col + 1) + self.live(row + 1, col - 1)
            + self.live(row + 1, col) + self.live(row + 1, col + 1)
    }

    proof fn lemma_index_in_range(&self, row: int, col: int)
        requires
            self.wf(),
            self.has(row, col),
        ensures
            0 <= row * self.num_cols + col < self.elems.len(),
    {
        let cols = self.num_cols as int;
        let rows = self.num_rows as int;
        assert(row * cols >= 0) by (nonlinear_arith)
            requires
                row >= 0,
                cols >= 0,
        ;
        assert(row * cols + cols <= rows * cols) by (nonlinear_arith)
            requires
                0 <= row < rows,
                cols >= 0,
        ;
    }

    proof fn lemma_index_is_one_to_one(&self, row: int, col: int, row2: int, col2: int)
        requires
            self.has(row, col),
            self.has(row2, col2),
            row * self.num_cols + col == row2 * self.num_cols + col2,
        ensures
            row == row2 && col == col2,
    {
        let cols = self.num_cols as int;
        if row < row2 {
            assert(row * cols + cols <= row2 * cols) by (nonlinear_arith)
                requires
                    row + 1 <= row2,
                    cols >= 0,
            ;
        }
        if row2 < row {
            assert(row2 * cols + cols <= row * cols) by (nonlinear_arith)
                requires
                    row2 + 1 <= row,
                    cols >= 0,
            ;
        }
    }

    /// A grid of `num_rows` by `num_cols` cells, all 0. The number of cells
    /// must fit a `usize`.
    pub fn new(num_rows: usize, num_cols: usize) -> (grid: Grid)
        requires
            num_rows * num_cols <= usize::MAX,
        ensures
            grid.wf(),
            grid.rows() == num_rows,
            grid.cols() == num_cols,
            forall|row: int, col: int| grid.has(row, col) ==> #[trigger] grid.cell(row, col) == 0,
    {
        let size = num_rows * num_cols;
        let mut elems: Vec<usize> = Vec::new();
        while elems.len() < size
            invariant
                elems.len() <= size,
                forall|i: int| 0 <= i < elems.len() ==> elems@[i] == 0,
            decreases size - elems.len(),
        {
            elems.push(0);
        }
        let grid = Grid { num_rows, num_cols, elems };
        assert forall|row: int, col: int| grid.has(row, col) implies #[trigger] grid.cell(
            row,
            col,
        ) == 0 by {
            grid.lemma_index_in_range(row, col);
        }
        grid
    }

    /// The numbers of rows and of columns.
    pub fn size(&self) -> (size: (usize, usize))
        ensures
            size.0 == self.rows(),
            size.1 == self.cols(),
    {
        (self.num_rows, self.num_cols)
    }

    /// The number in the cell `(row, col)`, or `None` if the grid has no
    /// such cell.
    pub fn get(&self, row: usize, col: usize) -> (value: Option<usize>)
        requires
            self.wf(),
        ensures
            value == if self.has(row as int, col as int) {
                Some(self.cell(row as int, col as int))
            } else {
                None
            },
    {
        if row < self.num_rows && col < self.num_cols {
            proof {
                self.lemma_index_in_range(row as int, col as int);
            }
            Some(self.elems[row * self.num_cols + col])
        } else {
            None
        }
    }

    /// Puts `val` in the cell `(row, col)` and leaves every other cell as it
    /// is. Fails, changing nothing, exactly when the grid has no such cell.
    pub fn set(&mut self, row: usize, col: usize, val: usize) -> (done: Result<(), &'static str>)
        requires
            old(self).wf(),
        ensures
            final(self).wf(),
            final(self).rows() == old(self).rows(),
            final(self).cols() == old(self).cols(),
            done is Ok == old(self).has(row as int, col as int),
            forall|r: int, c: int|
                old(self).has(r, c) ==> #[trigger] final(self).cell(r, c) == if r == row && c
                    == col {
                    val
                } else {
                    old(self).cell(r, c)
                },
    {
        if row < self.num_rows && col < self.num_cols {
            proof {
                self.lemma_index_in_range(row as int, col as int);
            }
            let index = row * self.num_cols + col;
            self.elems.set(index, val);
            proof {
                assert forall|r: int, c: int| old(self).has(r, c) implies #[trigger] self.cell(
                    r,
                    c,
                ) == if r == row && c == col {
                    val
                } else {
                    old(self).cell(r, c)
                } by {
                    old(self).lemma_index_in_range(r, c);
                    if r * self.num_cols + c == index {
                        old(self).lemma_index_is_one_to_one(r, c, row as int, col as int);
                    }
                }
            }
            Ok(())
        } else {
            Err("Row or column index out of bounds")
        }
    }

    /// Puts 0 in every cell.
    pub fn clear(&mut self)
        requires
            old(self).wf(),
        ensures
            final(self).wf(),
            final(self).rows() == old(self).rows(),
            final(self).cols() == old(self).cols(),
            forall|row: int, col: int|
                final(self).has(row, col) ==> #[trigger] final(self).cell(row, col) == 0,
    {
        let mut i: usize = 0;
        while i < self.elems.len()
            invariant
                i <= self.elems.len(),
                self.elems.len() == old(self).elems.len(),
                self.num_rows == old(self).num_rows,
                self.num_cols == old(self).num_cols,
                forall|k: int| 0 <= k < i ==> self.elems@[k] == 0,
            decreases self.elems.len() - i,
        {
            self.elems.set(i, 0);
            i += 1;
        }
        assert forall|row: int, col: int| self.has(row, col) implies #[trigger] self.cell(
            row,
            col,
        ) == 0 by {
            self.lemma_index_in_range(row, col);
        }
    }

    /// 1 if the cell at `(row + down - 1, col + right - 1)` is a live cell of
    /// the grid, else 0: the neighbour of `(row, col)` that lies `down - 1`
    /// rows below and `right - 1` columns to the right.
    fn neighbour(&self, row: usize, col: usize, down: usize, right: usize) -> (alive: usize)
        requires
            self.wf(),
            down <= 2,
            right <= 2,
        ensures
            alive == self.live(row + down - 1, col + right - 1),
    {
        let below = match row.checked_add(down) {
            Some(below) => below,
            None => { return 0; },
        };
        let beside = match col.checked_add(right) {
            Some(beside) => beside,
            None => { return 0; },
        };
        if below < 1 || beside < 1 {
            return 0;
        }
        match self.get(below - 1, beside - 1) {
            Some(value) => if value == ALIVE {
                1
            } else {
                0
            },
            None => 0,
        }
    }

    /// The number of live cells among the eight cells around `(row, col)`,
    /// which need not be a cell of the grid itself.
    pub fn count_alive(&self, row: usize, col: usize) -> (count: usize)
        requires
            self.wf(),
        ensures
            count == self.live_neighbours(row as int, col as int),
            count <= 8,
    {
        self.neighbour(row, col, 0, 0) + self.neighbour(row, col, 0, 1) + self.neighbour(
            row,
            col,
            0,
            2,
        ) + self.neighbour(row, col, 1, 0) + self.neighbour(row, col, 1, 2) + self.neighbour(
            row,
            col,
            2,
            0,
        ) + self.neighbour(row, col, 2, 1) + self.neighbour(row, col, 2, 2)
    }

    /// One step of the game: a grid of the same size in which each cell holds
    /// what [`next_value`] makes of the cell and its live neighbours in this
    /// grid.
    pub fn step(&self) -> (new_grid: Grid)
        requires
            self.wf(),
        ensures
            new_grid.wf(),
            new_grid.rows() == self.rows(),
            new_grid.cols() == self.cols(),
            forall|row: int, col: int|
                self.has(row, col) ==> #[trigger] new_grid.cell(row, col) == next_value(
                    self.cell(row, col),
                    self.live_neighbours(row, col),
                ),
    {
        proof {
            assert(self.num_rows * self.num_cols == self.elems.len());
        }
        let mut new_grid = Grid::new(self.num_rows, self.num_cols);
        let mut row: usize = 0;
        while row < self.num_rows
            invariant
                self.wf(),
                new_grid.wf(),
                row <= self.num_rows,
                new_grid.rows() == self.rows(),
                new_grid.cols() == self.cols(),
                forall|r: int, c: int|
                    self.has(r, c) ==> #[trigger] new_grid.cell(r, c) == if r < row {
                        next_value(self.cell(r, c), self.live_neighbours(r, c))
                    } else {
                        0
                    },
            decreases self.num_rows - row,
        {
            let mut col: usize = 0;
            while col < self.num_cols
                invariant
                    self.wf(),
                    new_grid.wf(),
                    row < self.num_rows,
                    col <= self.num_cols,
                    new_grid.rows() == self.rows(),
                    new_grid.cols() == self.cols(),
                    forall|r: int, c: int|
                        self.has(r, c) ==> #[trigger] new_grid.cell(r, c) == if r < row || (r
                            == row && c < col) {
                            next_value(self.cell(r, c), self.live_neighbours(r, c))
                        } else {
                            0
                        },
                decreases self.num_cols - col,
            {
                let current = match self.get(row, col) {
                    Some(value) => value,
                    None => 0,
                };
                let count = self.count_alive(row, col);
                let alive = if current == ALIVE {
                    count == 2 || count == 3
                } else {
                    count == 3
                };
                if alive {
                    let _ = new_grid.set(row, col, ALIVE);
                }
                col += 1;
            }
            row += 1;
        }
        new_grid
    }
}

} // verus!
