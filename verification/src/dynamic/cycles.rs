use crate::grid::lemma_index_to_position;
use crate::grid::lemma_position_to_index;
use vstd::prelude::*;
use vstd::set_lib::lemma_int_range;
use vstd::set_lib::lemma_len_subset;
use vstd::set_lib::set_int_range;

verus! {

/// The storage index to which transposing a `rows` by `cols` grid moves the
/// cell at storage index `i`.
pub open spec fn target(rows: nat, cols: nat, i: int) -> int {
    (i % (rows as int)) * cols + i / (rows as int)
}

/// The storage index reached from `i` after `k` moves of [`target`].
pub open spec fn walk(rows: nat, cols: nat, i: int, k: nat) -> int
    decreases k,
{
    if k == 0 {
        i
    } else {
        target(rows, cols, walk(rows, cols, i, (k - 1) as nat))
    }
}

/// A move stays inside the storage, and the move of the transposed shape
/// undoes it.
pub proof fn lemma_target(rows: nat, cols: nat, i: int)
    requires
        0 <= i < rows * cols,
    ensures
        0 <= target(rows, cols, i) < rows * cols,
        target(cols, rows, target(rows, cols, i)) == i,
{
    lemma_index_to_position(rows, cols, i);
    let r = i % (rows as int);
    let c = i / (rows as int);
    lemma_position_to_index(cols, rows, c, r);
    assert(cols * rows == rows * cols) by (nonlinear_arith);
}

/// A walk stays inside the storage.
pub proof fn lemma_walk_in_range(rows: nat, cols: nat, i: int, k: nat)
    requires
        0 <= i < rows * cols,
    ensures
        0 <= walk(rows, cols, i, k) < rows * cols,
    decreases k,
{
    if k > 0 {
        lemma_walk_in_range(rows, cols, i, (k - 1) as nat);
        lemma_target(rows, cols, walk(rows, cols, i, (k - 1) as nat));
    }
}

/// Walking `a` moves and then `b` moves is walking `a + b` moves.
pub proof fn lemma_walk_add(rows: nat, cols: nat, i: int, a: nat, b: nat)
    ensures
        walk(rows, cols, walk(rows, cols, i, a), b) == walk(rows, cols, i, a + b),
    decreases b,
{
    if b > 0 {
        lemma_walk_add(rows, cols, i, a, (b - 1) as nat);
        assert((a + b - 1) as nat == a + (b - 1) as nat);
    }
}

/// Two walks of one length that end at the same index started at the same
/// index.
pub proof fn lemma_walk_injective(rows: nat, cols: nat, x: int, y: int, k: nat)
    requires
        0 <= x < rows * cols,
        0 <= y < rows * cols,
        walk(rows, cols, x, k) == walk(rows, cols, y, k),
    ensures
        x == y,
    decreases k,
{
    if k > 0 {
        let px = walk(rows, cols, x, (k - 1) as nat);
        let py = walk(rows, cols, y, (k - 1) as nat);
        lemma_walk_in_range(rows, cols, x, (k - 1) as nat);
        lemma_walk_in_range(rows, cols, y, (k - 1) as nat);
        lemma_target(rows, cols, px);
        lemma_target(rows, cols, py);
        lemma_walk_injective(rows, cols, x, y, (k - 1) as nat);
    }
}

/// The walk from `i` comes back to `i` after `t` moves and passes only
/// larger indices on the way.
pub open spec fn leads_cycle(rows: nat, cols: nat, i: int, t: nat) -> bool {
    &&& t >= 1
    &&& walk(rows, cols, i, t) == i
    &&& forall|s: nat| 1 <= s < t ==> #[trigger] walk(rows, cols, i, s) > i
}

/// A walk from the smallest index of its cycle never goes below it.
pub proof fn lemma_cycle_stays_above(rows: nat, cols: nat, i: int, t: nat, k: nat)
    requires
        leads_cycle(rows, cols, i, t),
    ensures
        walk(rows, cols, i, k) >= i,
    decreases k,
{
    if k >= t {
        lemma_cycle_stays_above(rows, cols, i, t, (k - t) as nat);
        lemma_walk_add(rows, cols, i, t, (k - t) as nat);
        assert(t + (k - t) as nat == k);
    } else if k > 0 {
        assert(walk(rows, cols, i, k) > i);
    }
}

/// The indices that a cycle passes are pairwise different.
pub proof fn lemma_cycle_distinct(rows: nat, cols: nat, i: int, t: nat, a: nat, b: nat)
    requires
        0 <= i < rows * cols,
        leads_cycle(rows, cols, i, t),
        1 <= a < b <= t,
    ensures
        walk(rows, cols, i, a) != walk(rows, cols, i, b),
{
    if walk(rows, cols, i, a) == walk(rows, cols, i, b) {
        let d = (b - a) as nat;
        lemma_walk_add(rows, cols, i, d, a);
        assert(d + a == b);
        lemma_walk_in_range(rows, cols, i, d);
        lemma_walk_injective(rows, cols, i, walk(rows, cols, i, d), a);
        assert(walk(rows, cols, i, d) > i);
    }
}

/// Every walk comes back to where it started within as many moves as the
/// storage has cells.
pub proof fn lemma_walk_returns(rows: nat, cols: nat, i: int) -> (k: nat)
    requires
        0 <= i < rows * cols,
    ensures
        1 <= k <= rows * cols,
        walk(rows, cols, i, k) == i,
{
    let n = rows * cols;
    if forall|k: nat| 1 <= k <= n ==> walk(rows, cols, i, k) != i {
        let path = Seq::new(n + 1, |k: int| walk(rows, cols, i, k as nat));
        assert forall|a: int, b: int| 0 <= a < b < path.len() implies path[a] != path[b] by {
            if path[a] == path[b] {
                let d = (b - a) as nat;
                lemma_walk_add(rows, cols, i, d, a as nat);
                assert(d + a as nat == b as nat);
                lemma_walk_in_range(rows, cols, i, d);
                lemma_walk_injective(rows, cols, i, walk(rows, cols, i, d), a as nat);
                assert(walk(rows, cols, i, d) != i);
            }
        }
        assert(path.no_duplicates());
        path.unique_seq_to_set();
        lemma_int_range(0, n as int);
        assert forall|x: int| path.to_set().contains(x) implies set_int_range(0, n as int).contains(
            x,
        ) by {
            let k = choose|k: int| 0 <= k < path.len() && path[k] == x;
            lemma_walk_in_range(rows, cols, i, k as nat);
        }
        lemma_len_subset(path.to_set(), set_int_range(0, n as int));
        assert(false);
        1
    } else {
        choose|k: nat| 1 <= k <= n && walk(rows, cols, i, k) == i
    }
}

/// A set of indices that holds, with each index, the index that moves to it
/// holds the start of every walk that ends in the set.
pub proof fn lemma_closed_backwards(rows: nat, cols: nat, done: Set<int>, i: int, t: nat)
    requires
        0 <= i < rows * cols,
        forall|d: int| #[trigger]
            done.contains(d) ==> 0 <= d < rows * cols && done.contains(target(cols, rows, d)),
        done.contains(walk(rows, cols, i, t)),
    ensures
        done.contains(i),
    decreases t,
{
    if t > 0 {
        let prev = walk(rows, cols, i, (t - 1) as nat);
        lemma_walk_in_range(rows, cols, i, (t - 1) as nat);
        lemma_target(rows, cols, prev);
        lemma_closed_backwards(rows, cols, done, i, (t - 1) as nat);
    }
}

} // verus!
