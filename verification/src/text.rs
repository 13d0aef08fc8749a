use crate::dynamic::decimal;
use crate::dynamic::decimal_string;
use crate::dynamic::push_text;
use crate::dynamic::Matrix;
use crate::grid::lemma_position_to_index;
use crate::mat::Mat;
use core::fmt::Debug;
use vstd::prelude::*;

verus! {

/// The texts of row `r` in its first `c` columns, one after the other. The
/// texts are listed by columns, as a matrix stores its elements.
pub open spec fn row_cells(cells: Seq<Seq<char>>, rows: nat, r: int, c: nat) -> Seq<char>
    decreases c,
{
    if c == 0 {
        Seq::empty()
    } else {
        row_cells(cells, rows, r, (c - 1) as nat) + cells[(c - 1) * rows + r]
    }
}

/// The line of row `r`: its texts between two pipes.
pub open spec fn row_line(cells: Seq<Seq<char>>, rows: nat, cols: nat, r: int) -> Seq<char> {
    "| "@ + row_cells(cells, rows, r, cols) + " |\n"@
}

/// The lines of the first `r` rows.
pub open spec fn row_lines(cells: Seq<Seq<char>>, rows: nat, cols: nat, r: nat) -> Seq<char>
    decreases r,
{
    if r == 0 {
        Seq::empty()
    } else {
        row_lines(cells, rows, cols, (r - 1) as nat) + row_line(cells, rows, cols, r - 1)
    }
}

/// A matrix written out: the heading and an opening brace, one line for
/// each row, and a closing brace.
pub open spec fn layout_text(head: Seq<char>, cells: Seq<Seq<char>>, rows: nat, cols: nat) -> Seq<
    char,
> {
    head + " {\n"@ + row_lines(cells, rows, cols, rows) + "}"@
}

/// The heading of a static matrix: the name of its element type and its
/// shape between angle brackets.
pub open spec fn static_head(element: Seq<char>, rows: nat, cols: nat) -> Seq<char> {
    "Mat<"@ + element + ", "@ + decimal(rows) + ", "@ + decimal(cols) + ">"@
}

/// The heading of a dynamic matrix: the name of its element type between
/// angle brackets and its shape between round ones.
pub open spec fn dynamic_head(element: Seq<char>, rows: nat, cols: nat) -> Seq<char> {
    "Mat<"@ + element + ">("@ + decimal(rows) + ", "@ + decimal(cols) + ")"@
}

/// The texts as sequences of characters.
pub open spec fn texts(cells: Seq<String>) -> Seq<Seq<char>> {
    Seq::new(cells.len(), |i: int| cells[i]@)
}

/// Writes a value with `format!("{:^9?}", value)`: its `Debug` text,
/// centred in nine columns. What comes back is for the type's `Debug` to
/// decide, so nothing is promised of it.
#[verifier::external_body]
fn cell_string<T: Debug>(value: &T) -> (s: String) {
    format!("{:^9?}", value)
}

/// Writes out a matrix of `rows` by `cols` under the heading `head` from the
/// texts of its elements, listed by columns.
pub fn layout(head: &str, cells: &Vec<String>, rows: usize, cols: usize) -> (text: String)
    requires
        cells@.len() == rows * cols,
    ensures
        text@ == layout_text(head@, texts(cells@), rows as nat, cols as nat),
{
    let ghost t = texts(cells@);
    let len = cells.len();
    let mut text = String::new();
    push_text(&mut text, head);
    push_text(&mut text, " {\n");
    let ghost start = text@;
    assert(start =~= head@ + " {\n"@);
    let mut r: usize = 0;
    while r < rows
        invariant
            cells@.len() == rows * cols,
            len == cells@.len(),
            t == texts(cells@),
            r <= rows,
            text@ == start + row_lines(t, rows as nat, cols as nat, r as nat),
        decreases rows - r,
    {
        let ghost before = text@;
        push_text(&mut text, "| ");
        let mut c: usize = 0;
        while c < cols
            invariant
                cells@.len() == rows * cols,
                len == cells@.len(),
                t == texts(cells@),
                r < rows,
                c <= cols,
                text@ == before + "| "@ + row_cells(t, rows as nat, r as int, c as nat),
            decreases cols - c,
        {
            proof {
                lemma_position_to_index(rows as nat, cols as nat, r as int, c as int);
                assert(0 <= c * rows <= c * rows + r < len) by (nonlinear_arith)
                    requires
                        0 <= c,
                        0 <= rows,
                        0 <= r,
                        c * rows + r < len,
                ;
            }
            let ghost line = text@;
            push_text(&mut text, cells[c * rows + r].as_str());
            proof {
                assert(t[c * rows + r] == cells@[c * rows + r]@);
                assert(text@ =~= before + "| "@ + row_cells(
                    t,
                    rows as nat,
                    r as int,
                    (c + 1) as nat,
                ));
            }
            c += 1;
        }
        push_text(&mut text, " |\n");
        proof {
            assert(text@ =~= start + row_lines(t, rows as nat, cols as nat, (r + 1) as nat));
        }
        r += 1;
    }
    push_text(&mut text, "}");
    proof {
        assert(text@ =~= layout_text(head@, t, rows as nat, cols as nat));
    }
    text
}

/// The heading of a static matrix of the given element type and shape.
pub fn static_heading(element: &str, rows: usize, cols: usize) -> (head: String)
    ensures
        head@ == static_head(element@, rows as nat, cols as nat),
{
    let mut head = String::new();
    push_text(&mut head, "Mat<");
    push_text(&mut head, element);
    push_text(&mut head, ", ");
    push_text(&mut head, decimal_string(rows).as_str());
    push_text(&mut head, ", ");
    push_text(&mut head, decimal_string(cols).as_str());
    push_text(&mut head, ">");
    proof {
        assert(head@ =~= static_head(element@, rows as nat, cols as nat));
    }
    head
}

/// The heading of a dynamic matrix of the given element type and shape.
pub fn dynamic_heading(element: &str, rows: usize, cols: usize) -> (head: String)
    ensures
        head@ == dynamic_head(element@, rows as nat, cols as nat),
{
    let mut head = String::new();
    push_text(&mut head, "Mat<");
    push_text(&mut head, element);
    push_text(&mut head, ">(");
    push_text(&mut head, decimal_string(rows).as_str());
    push_text(&mut head, ", ");
    push_text(&mut head, decimal_string(cols).as_str());
    push_text(&mut head, ")");
    proof {
        assert(head@ =~= dynamic_head(element@, rows as nat, cols as nat));
    }
    head
}

impl<T: Copy + Debug> Matrix<T> {
    /// The matrix written out for people to read: a heading with the name
    /// `element` of the element type and the shape, then one line for each
    /// row with the `Debug` text of its elements between two pipes. The
    /// texts of the elements are what their `Debug` makes of them.
    pub fn to_text(&self, element: &str) -> (text: String)
        requires
            self.wf(),
        ensures
            exists|cells: Seq<Seq<char>>|
                cells.len() == self@.rows * self@.cols && text@ == layout_text(
                    dynamic_head(element@, self@.rows, self@.cols),
                    cells,
                    self@.rows,
                    self@.cols,
                ),
    {
        let n = self.data.len();
        let mut cells: Vec<String> = Vec::new();
        let mut i: usize = 0;
        while i < n
            invariant
                n == self.data@.len(),
                i <= n,
                cells@.len() == i,
            decreases n - i,
        {
            cells.push(cell_string(&self.data[i]));
            i += 1;
        }
        let head = dynamic_heading(element, self.rows, self.cols);
        let text = layout(head.as_str(), &cells, self.rows, self.cols);
        proof {
            assert(texts(cells@).len() == self@.rows * self@.cols);
        }
        text
    }
}

impl<const ROWS: usize, const COLS: usize, T: Copy + Debug> Mat<ROWS, COLS, T> {
    /// The matrix written out for people to read, as [`Matrix::to_text`]
    /// does, with the shape inside the angle brackets of the heading.
    pub fn to_text(&self, element: &str) -> (text: String)
        ensures
            exists|cells: Seq<Seq<char>>|
                cells.len() == ROWS * COLS && text@ == layout_text(
                    static_head(element@, ROWS as nat, COLS as nat),
                    cells,
                    ROWS as nat,
                    COLS as nat,
                ),
    {
        let m = self.to_matrix();
        let n = m.data.len();
        proof {
            self.lemma_shape();
        }
        let mut cells: Vec<String> = Vec::new();
        let mut i: usize = 0;
        while i < n
            invariant
                n == m.data@.len(),
                i <= n,
                cells@.len() == i,
            decreases n - i,
        {
            cells.push(cell_string(&m.data[i]));
            i += 1;
        }
        let head = static_heading(element, ROWS, COLS);
        let text = layout(head.as_str(), &cells, ROWS, COLS);
        proof {
            assert(texts(cells@).len() == ROWS * COLS);
        }
        text
    }
}

} // verus!
