use vstd::arithmetic::div_mod::lemma_fundamental_div_mod;
use vstd::arithmetic::div_mod::lemma_fundamental_div_mod_converse;
use vstd::arithmetic::mul::lemma_mul_is_commutative;
use vstd::prelude::*;

verus! {

/// The mathematical value of a matrix: its shape and its cells in
/// column-major order, so that the cell in row `r` and column `c` is
/// `cells[c * rows + r]`.
pub struct Grid<T> {
    pub rows: nat,
    pub cols: nat,
    pub cells: Seq<T>,
}

impl<T> Grid<T> {
    /// There is exactly one cell for each position.
    pub open spec fn wf(self) -> bool {
        self.cells.len() == self.rows * self.cols
    }

    /// Both grids have the same number of rows and of columns.
    pub open spec fn same_shape(self, other: Grid<T>) -> bool {
        self.rows == other.rows && self.cols == other.cols
    }

    /// `(r, c)` names a position of this grid.
    pub open spec fn has(self, r: int, c: int) -> bool {
        0 <= r < self.rows && 0 <= c < self.cols
    }

    /// The cell in row `r` and column `c`.
    pub open spec fn at(self, r: int, c: int) -> T {
        self.cells[c * self.rows + r]
    }

    /// The grid of the given shape whose cell at `(r, c)` is `f(r, c)`.
    pub open spec fn tabulate(rows: nat, cols: nat, f: spec_fn(int, int) -> T) -> Grid<T> {
        Grid {
            rows,
            cols,
            cells: Seq::new(rows * cols, |i: int| f(i % (rows as int), i / (rows as int))),
        }
    }

    /// The grid with the given columns, each listed from top to bottom. The
    /// first column gives the number of rows.
    pub open spec fn of_columns(columns: Seq<Seq<T>>) -> Grid<T> {
        let rows = if columns.len() == 0 {
            0
        } else {
            columns[0].len()
        };
        Grid::tabulate(rows, columns.len(), |r: int, c: int| columns[c][r])
    }

    /// The grid whose every cell is `value`.
    pub open spec fn constant(rows: nat, cols: nat, value: T) -> Grid<T> {
        Grid { rows, cols, cells: Seq::new(rows * cols, |i: int| value) }
    }

    /// Rows and columns exchanged: the cell at `(r, c)` is this grid's cell
    /// at `(c, r)`.
    pub open spec fn transposed(self) -> Grid<T> {
        Grid::tabulate(self.cols, self.rows, |r: int, c: int| self.at(c, r))
    }

    /// This grid with rows `i` and `j` exchanged.
    pub open spec fn swapped_rows(self, i: int, j: int) -> Grid<T> {
        Grid::tabulate(
            self.rows,
            self.cols,
            |r: int, c: int|
                if r == i {
                    self.at(j, c)
                } else if r == j {
                    self.at(i, c)
                } else {
                    self.at(r, c)
                },
        )
    }

    /// This grid with columns `i` and `j` exchanged.
    pub open spec fn swapped_cols(self, i: int, j: int) -> Grid<T> {
        Grid::tabulate(
            self.rows,
            self.cols,
            |r: int, c: int|
                if c == i {
                    self.at(r, j)
                } else if c == j {
                    self.at(r, i)
                } else {
                    self.at(r, c)
                },
        )
    }

    /// Row `i` as a grid of one row.
    pub open spec fn row(self, i: int) -> Grid<T> {
        Grid::tabulate(1, self.cols, |r: int, c: int| self.at(i, c))
    }

    /// Column `j` as a grid of one column.
    pub open spec fn col(self, j: int) -> Grid<T> {
        Grid::tabulate(self.rows, 1, |r: int, c: int| self.at(r, j))
    }

    /// This grid with row `i` replaced by the only row of `row`.
    pub open spec fn with_row(self, i: int, row: Grid<T>) -> Grid<T> {
        Grid::tabulate(
            self.rows,
            self.cols,
            |r: int, c: int|
                if r == i {
                    row.at(0, c)
                } else {
                    self.at(r, c)
                },
        )
    }

    /// This grid with column `j` replaced by the only column of `col`.
    pub open spec fn with_col(self, j: int, col: Grid<T>) -> Grid<T> {
        Grid::tabulate(
            self.rows,
            self.cols,
            |r: int, c: int|
                if c == j {
                    col.at(r, 0)
                } else {
                    self.at(r, c)
                },
        )
    }

    /// This grid with the cell at `(r, c)` replaced by `value`.
    pub open spec fn with_cell(self, r: int, c: int, value: T) -> Grid<T> {
        Grid { rows: self.rows, cols: self.cols, cells: self.cells.update(c * self.rows + r, value) }
    }
}

/// A position inside a grid has a cell index inside the grid's storage, and
/// the index determines the position.
pub proof fn lemma_position_to_index(rows: nat, cols: nat, r: int, c: int)
    requires
        0 <= r < rows,
        0 <= c < cols,
    ensures
        0 <= c * rows + r < rows * cols,
        (c * rows + r) % (rows as int) == r,
        (c * rows + r) / (rows as int) == c,
{
    let n = rows as int;
    assert(c * n + n <= cols * n) by (nonlinear_arith)
        requires
            0 <= c < cols,
            0 < n,
    ;
    assert(cols * n == n * cols) by (nonlinear_arith);
    assert(c * n >= 0) by (nonlinear_arith)
        requires
            0 <= c,
            0 < n,
    ;
    lemma_mul_is_commutative(c, n);
    lemma_fundamental_div_mod_converse(c * n + r, n, c, r);
}

/// A cell index inside a grid's storage names a position inside the grid.
pub proof fn lemma_index_to_position(rows: nat, cols: nat, i: int)
    requires
        0 <= i < rows * cols,
    ensures
        rows > 0,
        0 <= i % (rows as int) < rows,
        0 <= i / (rows as int) < cols,
        (i / (rows as int)) * rows + i % (rows as int) == i,
{
    let n = rows as int;
    if n == 0 {
        assert(rows * cols == 0) by (nonlinear_arith)
            requires
                rows == 0,
        ;
    }
    lemma_fundamental_div_mod(i, n);
    let q = i / n;
    lemma_mul_is_commutative(q, n);
    assert(q >= 0) by (nonlinear_arith)
        requires
            i == n * q + i % n,
            0 <= i % n < n,
            0 <= i,
            0 < n,
    ;
    assert(q < cols) by (nonlinear_arith)
        requires
            i == n * q + i % n,
            0 <= i % n < n,
            i < n * cols,
            0 < n,
    ;
}

impl<T> Grid<T> {
    /// A tabulated grid is well formed and holds `f(r, c)` at every position.
    pub proof fn lemma_tabulate(rows: nat, cols: nat, f: spec_fn(int, int) -> T)
        ensures
            Grid::tabulate(rows, cols, f).wf(),
            Grid::tabulate(rows, cols, f).rows == rows,
            Grid::tabulate(rows, cols, f).cols == cols,
            forall|r: int, c: int|
                0 <= r < rows && 0 <= c < cols ==> #[trigger] Grid::tabulate(rows, cols, f).at(r, c)
                    == f(r, c),
    {
        let g = Grid::tabulate(rows, cols, f);
        assert forall|r: int, c: int| 0 <= r < rows && 0 <= c < cols implies #[trigger] g.at(r, c)
            == f(r, c) by {
            lemma_position_to_index(rows, cols, r, c);
        }
    }

    /// The transposed grid holds at `(r, c)` what this grid holds at `(c, r)`.
    pub proof fn lemma_transposed(self)
        ensures
            self.transposed().wf(),
            self.transposed().rows == self.cols,
            self.transposed().cols == self.rows,
            forall|r: int, c: int|
                0 <= r < self.cols && 0 <= c < self.rows ==> #[trigger] self.transposed().at(r, c) == self.at(c, r),
    {
        let g = self.transposed();
        assert forall|r: int, c: int| 0 <= r < self.cols && 0 <= c < self.rows implies #[trigger] g.at(
            r,
            c,
        ) == self.at(c, r) by {
            lemma_position_to_index(self.cols, self.rows, r, c);
        }
    }

    /// What a grid with two rows exchanged holds at each position.
    pub proof fn lemma_swapped_rows(self, i: int, j: int)
        ensures
            self.swapped_rows(i, j).wf(),
            self.swapped_rows(i, j).rows == self.rows,
            self.swapped_rows(i, j).cols == self.cols,
            forall|r: int, c: int|
                0 <= r < self.rows && 0 <= c < self.cols ==> #[trigger] self.swapped_rows(i, j).at(r, c) == if r == i {
                    self.at(j, c)
                } else if r == j {
                    self.at(i, c)
                } else {
                    self.at(r, c)
                },
    {
        let g = self.swapped_rows(i, j);
        assert forall|r: int, c: int| 0 <= r < self.rows && 0 <= c < self.cols implies #[trigger] g.at(
            r,
            c,
        ) == if r == i {
                    self.at(j, c)
                } else if r == j {
                    self.at(i, c)
                } else {
                    self.at(r, c)
                } by {
            lemma_position_to_index(self.rows, self.cols, r, c);
        }
    }

    /// What a grid with two columns exchanged holds at each position.
    pub proof fn lemma_swapped_cols(self, i: int, j: int)
        ensures
            self.swapped_cols(i, j).wf(),
            self.swapped_cols(i, j).rows == self.rows,
            self.swapped_cols(i, j).cols == self.cols,
            forall|r: int, c: int|
                0 <= r < self.rows && 0 <= c < self.cols ==> #[trigger] self.swapped_cols(i, j).at(r, c) == if c == i {
                    self.at(r, j)
                } else if c == j {
                    self.at(r, i)
                } else {
                    self.at(r, c)
                },
    {
        let g = self.swapped_cols(i, j);
        assert forall|r: int, c: int| 0 <= r < self.rows && 0 <= c < self.cols implies #[trigger] g.at(
            r,
            c,
        ) == if c == i {
                    self.at(r, j)
                } else if c == j {
                    self.at(r, i)
                } else {
                    self.at(r, c)
                } by {
            lemma_position_to_index(self.rows, self.cols, r, c);
        }
    }

    /// What the grid of one row holds at each position.
    pub proof fn lemma_row(self, i: int)
        ensures
            self.row(i).wf(),
            self.row(i).rows == 1,
            self.row(i).cols == self.cols,
            forall|r: int, c: int|
                0 <= r < 1 && 0 <= c < self.cols ==> #[trigger] self.row(i).at(r, c) == self.at(i, c),
    {
        let g = self.row(i);
        assert forall|r: int, c: int| 0 <= r < 1 && 0 <= c < self.cols implies #[trigger] g.at(
            r,
            c,
        ) == self.at(i, c) by {
            lemma_position_to_index(1, self.cols, r, c);
        }
    }

    /// What the grid of one column holds at each position.
    pub proof fn lemma_col(self, j: int)
        ensures
            self.col(j).wf(),
            self.col(j).rows == self.rows,
            self.col(j).cols == 1,
            forall|r: int, c: int|
                0 <= r < self.rows && 0 <= c < 1 ==> #[trigger] self.col(j).at(r, c) == self.at(r, j),
    {
        let g = self.col(j);
        assert forall|r: int, c: int| 0 <= r < self.rows && 0 <= c < 1 implies #[trigger] g.at(
            r,
            c,
        ) == self.at(r, j) by {
            lemma_position_to_index(self.rows, 1, r, c);
        }
    }

    /// What a grid with one row replaced holds at each position.
    pub proof fn lemma_with_row(self, i: int, row: Grid<T>)
        ensures
            self.with_row(i, row).wf(),
            self.with_row(i, row).rows == self.rows,
            self.with_row(i, row).cols == self.cols,
            forall|r: int, c: int|
                0 <= r < self.rows && 0 <= c < self.cols ==> #[trigger] self.with_row(i, row).at(r, c) == if r == i {
                    row.at(0, c)
                } else {
                    self.at(r, c)
                },
    {
        let g = self.with_row(i, row);
        assert forall|r: int, c: int| 0 <= r < self.rows && 0 <= c < self.cols implies #[trigger] g.at(
            r,
            c,
        ) == if r == i {
                    row.at(0, c)
                } else {
                    self.at(r, c)
                } by {
            lemma_position_to_index(self.rows, self.cols, r, c);
        }
    }

    /// What a grid with one column replaced holds at each position.
    pub proof fn lemma_with_col(self, j: int, col: Grid<T>)
        ensures
            self.with_col(j, col).wf(),
            self.with_col(j, col).rows == self.rows,
            self.with_col(j, col).cols == self.cols,
            forall|r: int, c: int|
                0 <= r < self.rows && 0 <= c < self.cols ==> #[trigger] self.with_col(j, col).at(r, c) == if c == j {
                    col.at(r, 0)
                } else {
                    self.at(r, c)
                },
    {
        let g = self.with_col(j, col);
        assert forall|r: int, c: int| 0 <= r < self.rows && 0 <= c < self.cols implies #[trigger] g.at(
            r,
            c,
        ) == if c == j {
                    col.at(r, 0)
                } else {
                    self.at(r, c)
                } by {
            lemma_position_to_index(self.rows, self.cols, r, c);
        }
    }

    /// A grid given by its columns holds at `(r, c)` the entry `r` of column
    /// `c`.
    pub proof fn lemma_of_columns(columns: Seq<Seq<T>>, rows: nat)
        requires
            columns.len() > 0,
            columns[0].len() == rows,
        ensures
            Grid::of_columns(columns).wf(),
            Grid::of_columns(columns).rows == rows,
            Grid::of_columns(columns).cols == columns.len(),
            forall|r: int, c: int|
                0 <= r < rows && 0 <= c < columns.len() ==> #[trigger] Grid::of_columns(columns).at(
                    r,
                    c,
                ) == columns[c][r],
    {
        let g = Grid::of_columns(columns);
        assert forall|r: int, c: int| 0 <= r < rows && 0 <= c < columns.len() implies #[trigger] g.at(
            r,
            c,
        ) == columns[c][r] by {
            lemma_position_to_index(rows, columns.len(), r, c);
        }
    }

    /// Replacing one cell keeps the shape and every other cell.
    pub proof fn lemma_with_cell(self, r: int, c: int, value: T)
        requires
            self.wf(),
            self.has(r, c),
        ensures
            self.with_cell(r, c, value).wf(),
            self.with_cell(r, c, value).rows == self.rows,
            self.with_cell(r, c, value).cols == self.cols,
            forall|r2: int, c2: int|
                self.has(r2, c2) ==> #[trigger] self.with_cell(r, c, value).at(r2, c2) == if r2 == r
                    && c2 == c {
                    value
                } else {
                    self.at(r2, c2)
                },
    {
        lemma_position_to_index(self.rows, self.cols, r, c);
        assert forall|r2: int, c2: int| self.has(r2, c2) implies #[trigger] self.with_cell(
            r,
            c,
            value,
        ).at(r2, c2) == if r2 == r && c2 == c {
            value
        } else {
            self.at(r2, c2)
        } by {
            lemma_position_to_index(self.rows, self.cols, r2, c2);
        }
    }

    /// Two well-formed grids of one shape that agree at every position are
    /// the same grid.
    pub proof fn lemma_equal_by_cells(self, other: Grid<T>)
        requires
            self.wf(),
            other.wf(),
            self.rows == other.rows,
            self.cols == other.cols,
            forall|r: int, c: int| self.has(r, c) ==> #[trigger] self.at(r, c) == other.at(r, c),
        ensures
            self == other,
    {
        assert forall|i: int| 0 <= i < self.cells.len() implies self.cells[i] == other.cells[i] by {
            lemma_index_to_position(self.rows, self.cols, i);
            let r = i % (self.rows as int);
            let c = i / (self.rows as int);
            assert(self.has(r, c));
            assert(self.at(r, c) == other.at(r, c));
        }
        assert(self.cells =~= other.cells);
    }
}

} // verus!
