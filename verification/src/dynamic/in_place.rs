use crate::dynamic::cycles::leads_cycle;
use crate::dynamic::cycles::lemma_closed_backwards;
use crate::dynamic::cycles::lemma_cycle_distinct;
use crate::dynamic::cycles::lemma_cycle_stays_above;
use crate::dynamic::cycles::lemma_target;
use crate::dynamic::cycles::lemma_walk_add;
use crate::dynamic::cycles::lemma_walk_in_range;
use crate::dynamic::cycles::lemma_walk_returns;
use crate::dynamic::cycles::target;
use crate::dynamic::cycles::walk;
use crate::dynamic::Matrix;
use crate::grid::lemma_index_to_position;
use vstd::prelude::*;

verus! {

/// The storage index to which transposing a `rows` by `cols` matrix with
/// `len` elements moves the element at index `i`.
fn destination(i: usize, rows: usize, cols: usize, len: usize) -> (d: usize)
    requires
        len == rows * cols,
        i < len,
    ensures
        d == target(rows as nat, cols as nat, i as int),
        d < len,
{
    proof {
        lemma_target(rows as nat, cols as nat, i as int);
        lemma_index_to_position(rows as nat, cols as nat, i as int);
        let r = i as int % rows as int;
        let c = i as int / rows as int;
        assert(0 <= r * cols <= r * cols + c) by (nonlinear_arith)
            requires
                0 <= r,
                0 <= c,
                0 <= cols,
        ;
    }
    (i % rows) * cols + i / rows
}

impl<T: Copy> Matrix<T> {
    /// Transposes the matrix in place, in constant extra space: every cycle
    /// of the permutation that transposing applies to the storage is rotated
    /// once, starting from its smallest index.
    pub fn transpose_self(&mut self)
        requires
            old(self).wf(),
        ensures
            final(self).wf(),
            final(self)@ == old(self)@.transposed(),
    {
        let n = self.data.len();
        let rows = self.rows;
        let cols = self.cols;
        let ghost orig = self.data@;
        let ghost r = rows as nat;
        let ghost c = cols as nat;
        let ghost mut steps: Map<int, nat> = Map::empty();
        let mut i: usize = 0;
        while i < n
            invariant
                self.rows == rows,
                self.cols == cols,
                r == rows,
                c == cols,
                n == r * c,
                self.data@.len() == n,
                orig.len() == n,
                i <= n,
                forall|d: int|
                    0 <= d < n ==> #[trigger] self.data@[d] == if steps.dom().contains(d) {
                        orig[target(c, r, d)]
                    } else {
                        orig[d]
                    },
                forall|d: int| #[trigger]
                    steps.dom().contains(d) ==> 0 <= d < n && steps.dom().contains(target(c, r, d))
                        && walk(r, c, d, steps[d]) < i,
                forall|d: int| 0 <= d < i ==> steps.dom().contains(d),
            decreases n - i,
        {
            let ghost period = lemma_walk_returns(r, c, i as int);
            let ghost mut t: nat = 1;
            let mut next = destination(i, rows, cols, n);
            proof {
                assert(walk(r, c, i as int, 0) == i);
                assert(walk(r, c, i as int, 1) == target(r, c, walk(r, c, i as int, 0)));
            }
            while next > i
                invariant
                    r == rows,
                    c == cols,
                    n == r * c,
                    i < n,
                    next < n,
                    1 <= t <= period,
                    walk(r, c, i as int, period) == i,
                    next == walk(r, c, i as int, t),
                    forall|s: nat| 1 <= s < t ==> #[trigger] walk(r, c, i as int, s) > i,
                decreases period - t,
            {
                next = destination(next, rows, cols, n);
                proof {
                    t = t + 1;
                }
            }
            if next == i {
                assert(leads_cycle(r, c, i as int, t));
                proof {
                    assert forall|s: nat| 1 <= s <= t implies !steps.dom().contains(
                        #[trigger] walk(r, c, i as int, s),
                    ) by {
                        let x = walk(r, c, i as int, s);
                        if steps.dom().contains(x) {
                            lemma_walk_add(r, c, i as int, s, steps[x]);
                            lemma_cycle_stays_above(r, c, i as int, t, s + steps[x]);
                        }
                    }
                    lemma_walk_in_range(r, c, i as int, (t - 1) as nat);
                    lemma_target(r, c, walk(r, c, i as int, (t - 1) as nat));
                }
                let ghost mut u: nat = t;
                let mut current = i;
                let mut before = destination(current, cols, rows, n);
                while before != i
                    invariant
                        self.rows == rows,
                        self.cols == cols,
                        r == rows,
                        c == cols,
                        n == r * c,
                        n == c * r,
                        self.data@.len() == n,
                        orig.len() == n,
                        i < n,
                        current < n,
                        before < n,
                        leads_cycle(r, c, i as int, t),
                        1 <= u <= t,
                        current == walk(r, c, i as int, u),
                        before == walk(r, c, i as int, (u - 1) as nat),
                        before == target(c, r, current as int),
                        u < t ==> steps.dom().contains(i as int),
                        forall|s: nat|
                            1 <= s <= u ==> !steps.dom().contains(
                                #[trigger] walk(r, c, i as int, s),
                            ),
                        forall|d: int|
                            0 <= d < n ==> #[trigger] self.data@[d] == if steps.dom().contains(d) {
                                orig[target(c, r, d)]
                            } else if d == current {
                                orig[i as int]
                            } else {
                                orig[d]
                            },
                        forall|d: int| #[trigger]
                            steps.dom().contains(d) ==> 0 <= d < n && (steps.dom().contains(
                                target(c, r, d),
                            ) || target(c, r, d) == current) && walk(r, c, d, steps[d]) < i + 1,
                        forall|d: int| 0 <= d < i ==> steps.dom().contains(d),
                    decreases u,
                {
                    proof {
                        assert(u >= 2) by {
                            if u == 1 {
                                assert(walk(r, c, i as int, 0) == i);
                            }
                        }
                        lemma_cycle_distinct(r, c, i as int, t, (u - 1) as nat, u);
                        assert(!steps.dom().contains(walk(r, c, i as int, (u - 1) as nat)));
                    }
                    let carried = self.data[current];
                    let arriving = self.data[before];
                    self.data[current] = arriving;
                    self.data[before] = carried;
                    proof {
                        lemma_walk_add(r, c, i as int, u, (t - u) as nat);
                        assert(u + (t - u) as nat == t);
                        assert forall|s: nat| 1 <= s <= u - 1 implies !steps.dom().insert(
                            current as int,
                        ).contains(#[trigger] walk(r, c, i as int, s)) by {
                            lemma_cycle_distinct(r, c, i as int, t, s, u);
                        }
                        steps = steps.insert(current as int, (t - u) as nat);
                        u = (u - 1) as nat;
                        lemma_walk_in_range(r, c, i as int, (u - 1) as nat);
                        lemma_target(r, c, walk(r, c, i as int, (u - 1) as nat));
                    }
                    current = before;
                    before = destination(current, cols, rows, n);
                }
                proof {
                    assert(u == 1) by {
                        if u > 1 {
                            assert(walk(r, c, i as int, (u - 1) as nat) > i);
                        }
                    }
                    lemma_walk_add(r, c, i as int, u, (t - u) as nat);
                    assert(u + (t - u) as nat == t);
                    steps = steps.insert(current as int, (t - u) as nat);
                }
            } else {
                proof {
                    lemma_closed_backwards(r, c, steps.dom(), i as int, t);
                }
            }
            i += 1;
        }
        self.rows = cols;
        self.cols = rows;
        proof {
            assert(c * r == r * c) by (nonlinear_arith);
            assert(self.data@ =~= old(self)@.transposed().cells);
        }
    }

    /// Transposes the matrix in place; a shorthand for `transpose_self()`.
    #[allow(non_snake_case)]
    pub fn T_self(&mut self)
        requires
            old(self).wf(),
        ensures
            final(self).wf(),
            final(self)@ == old(self)@.transposed(),
    {
        self.transpose_self()
    }
}

} // verus!
