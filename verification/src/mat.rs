use crate::grid::lemma_index_to_position;
use crate::grid::lemma_position_to_index;
use crate::grid::Grid;
use vstd::prelude::*;

verus! {

/// A column-major matrix with `ROWS` rows and `COLS` columns, and elements
/// of type `T`: `data[c][r]` is the element in row `r` and column `c`.
#[derive(Debug, Clone, Copy, PartialEq, Eq)]
pub struct Mat<const ROWS: usize, const COLS: usize, T> {
    pub(crate) data: [[T; ROWS]; COLS],
}

impl<const ROWS: usize, const COLS: usize, T> View for Mat<ROWS, COLS, T> {
    type V = Grid<T>;

    open(crate) spec fn view(&self) -> Grid<T> {
        Grid {
            rows: ROWS as nat,
            cols: COLS as nat,
            cells: Seq::new(
                (ROWS * COLS) as nat,
                |i: int| self.data[i / (ROWS as int)][i % (ROWS as int)],
            ),
        }
    }
}

impl<const ROWS: usize, const COLS: usize, T> Mat<ROWS, COLS, T> {
    /// The value of a matrix has its shape, one cell for each position, and
    /// at `(r, c)` the element `data[c][r]`.
    pub(crate) proof fn lemma_cells(&self)
        ensures
            self@.wf(),
            self@.rows == ROWS,
            self@.cols == COLS,
            forall|r: int, c: int|
                0 <= r < ROWS && 0 <= c < COLS ==> #[trigger] self@.at(r, c) == self.data[c][r],
    {
        assert(ROWS * COLS >= 0) by (nonlinear_arith);
        assert forall|r: int, c: int| 0 <= r < ROWS && 0 <= c < COLS implies #[trigger] self@.at(
            r,
            c,
        ) == self.data[c][r] by {
            lemma_position_to_index(ROWS as nat, COLS as nat, r, c);
        }
    }

    /// A matrix whose elements are those of `g`, position by position, has
    /// the value `g`.
    pub(crate) proof fn lemma_is(&self, g: Grid<T>)
        requires
            g.wf(),
            g.rows == ROWS,
            g.cols == COLS,
            forall|r: int, c: int|
                0 <= r < ROWS && 0 <= c < COLS ==> self.data[c][r] == #[trigger] g.at(r, c),
        ensures
            self@ == g,
    {
        self.lemma_cells();
        self@.lemma_equal_by_cells(g);
    }

    /// Every matrix is well formed and has the shape of its type.
    pub proof fn lemma_shape(&self)
        ensures
            self@.wf(),
            self@.rows == ROWS,
            self@.cols == COLS,
    {
        self.lemma_cells();
    }

    /// Creates a matrix from an array of columns.
    pub fn new(data: [[T; ROWS]; COLS]) -> (m: Self)
        ensures
            m@.wf(),
            m@.rows == ROWS,
            m@.cols == COLS,
            forall|r: int, c: int| 0 <= r < ROWS && 0 <= c < COLS ==> m@.at(r, c) == data[c][r],
    {
        let m = Mat { data };
        proof {
            m.lemma_cells();
        }
        m
    }

    /// The columns of the matrix.
    pub fn raw_data(&self) -> (d: &[[T; ROWS]; COLS])
        ensures
            forall|r: int, c: int| 0 <= r < ROWS && 0 <= c < COLS ==> d[c][r] == self@.at(r, c),
    {
        proof {
            self.lemma_cells();
        }
        &self.data
    }

    /// The number of rows.
    pub fn rows(&self) -> (n: usize)
        ensures
            n == ROWS,
            n == self@.rows,
    {
        ROWS
    }

    /// The number of columns.
    pub fn cols(&self) -> (n: usize)
        ensures
            n == COLS,
            n == self@.cols,
    {
        COLS
    }

    /// The number of elements.
    pub fn count(&self) -> (n: usize)
        requires
            ROWS * COLS <= usize::MAX,
        ensures
            n == ROWS * COLS,
    {
        ROWS * COLS
    }
}

impl<const ROWS: usize, const COLS: usize, T: Copy> Mat<ROWS, COLS, T> {
    /// Creates a matrix with every element equal to `value`.
    pub fn init(value: T) -> (m: Self)
        ensures
            m@ == Grid::constant(ROWS as nat, COLS as nat, value),
    {
        let m = Mat { data: [[value; ROWS]; COLS] };
        proof {
            m.lemma_cells();
            assert(m@.cells =~= Grid::constant(ROWS as nat, COLS as nat, value).cells) by {
                assert forall|i: int| 0 <= i < ROWS * COLS implies m@.cells[i] == value by {
                    lemma_index_to_position(ROWS as nat, COLS as nat, i);
                }
            }
        }
        m
    }

    /// Creates a matrix with every element equal to `init`.
    pub fn new_with_init(init: T) -> (m: Self)
        ensures
            m@ == Grid::constant(ROWS as nat, COLS as nat, init),
    {
        Self::init(init)
    }

    /// Overwrites every element with `value`.
    pub fn fill(&mut self, value: T)
        ensures
            final(self)@ == Grid::constant(ROWS as nat, COLS as nat, value),
    {
        *self = Self::init(value);
    }

    /// A reference to the element in row `row` and column `col`.
    pub fn index(&self, row: usize, col: usize) -> (e: &T)
        requires
            row < ROWS,
            col < COLS,
        ensures
            *e == self@.at(row as int, col as int),
    {
        proof {
            self.lemma_cells();
        }
        &self.data[col][row]
    }

    /// The element in row `row` and column `col`.
    pub fn at(&self, row: usize, col: usize) -> (e: T)
        requires
            row < ROWS,
            col < COLS,
        ensures
            e == self@.at(row as int, col as int),
    {
        proof {
            self.lemma_cells();
        }
        self.data[col][row]
    }

    /// Replaces the element in row `row` and column `col`.
    pub fn set(&mut self, row: usize, col: usize, value: T)
        requires
            row < ROWS,
            col < COLS,
        ensures
            final(self)@ == old(self)@.with_cell(row as int, col as int, value),
    {
        let ghost before = *self;
        self.data[col][row] = value;
        proof {
            before.lemma_cells();
            before@.lemma_with_cell(row as int, col as int, value);
            self.lemma_is(before@.with_cell(row as int, col as int, value));
        }
    }
}

impl<const ROWS: usize, const COLS: usize, T: Copy + Default> Default for Mat<ROWS, COLS, T> {
    /// The matrix with every element equal to the default value of `T`.
    fn default() -> (m: Self)
        ensures
            exists|v: T| call_ensures(T::default, (), v) && m@ == Grid::constant(
                ROWS as nat,
                COLS as nat,
                v,
            ),
    {
        Self::init(T::default())
    }
}

} // verus!
