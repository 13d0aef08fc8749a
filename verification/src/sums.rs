use crate::grid::Grid;
use crate::laws::add_associative;
use crate::laws::add_commutative;
use crate::laws::distributive;
use crate::laws::zero_absorbs;
use crate::laws::zero_neutral;
use crate::traits::Zero;
use std::ops::Add;
use std::ops::Mul;
use vstd::prelude::*;
use vstd::std_specs::ops::AddSpec;
use vstd::std_specs::ops::MulSpec;

verus! {

/// The sum of `f(0)`, ..., `f(k - 1)`, added up from zero in this order.
pub open spec fn sum<T: Zero + Add<Output = T>>(f: spec_fn(int) -> T, k: nat) -> T
    decreases k,
{
    if k == 0 {
        T::zero_spec()
    } else {
        sum(f, (k - 1) as nat).add_spec(f(k - 1))
    }
}

/// Sums of terms that agree place by place agree.
pub proof fn lemma_sum_same<T: Zero + Add<Output = T>>(
    f: spec_fn(int) -> T,
    g: spec_fn(int) -> T,
    k: nat,
)
    requires
        forall|q: int| 0 <= q < k ==> #[trigger] f(q) == g(q),
    ensures
        sum(f, k) == sum(g, k),
    decreases k,
{
    if k > 0 {
        lemma_sum_same(f, g, (k - 1) as nat);
    }
}

/// A sum whose terms are all zero but the one at place `p` is that term.
pub proof fn lemma_sum_single<T: Zero + Add<Output = T>>(f: spec_fn(int) -> T, k: nat, p: int)
    requires
        zero_neutral::<T>(),
        forall|q: int| 0 <= q < k && q != p ==> #[trigger] f(q) == T::zero_spec(),
    ensures
        sum(f, k) == if 0 <= p < k {
            f(p)
        } else {
            T::zero_spec()
        },
    decreases k,
{
    if k > 0 {
        lemma_sum_single(f, (k - 1) as nat, p);
    }
}

/// A factor on the left moves into a sum.
pub proof fn lemma_sum_scaled_left<T: Zero + Add<Output = T> + Mul<Output = T>>(
    c: T,
    f: spec_fn(int) -> T,
    k: nat,
)
    requires
        distributive::<T>(),
        zero_absorbs::<T>(),
    ensures
        c.mul_spec(sum(f, k)) == sum(|q: int| c.mul_spec(f(q)), k),
    decreases k,
{
    if k > 0 {
        lemma_sum_scaled_left(c, f, (k - 1) as nat);
    }
}

/// A factor on the right moves into a sum.
pub proof fn lemma_sum_scaled_right<T: Zero + Add<Output = T> + Mul<Output = T>>(
    f: spec_fn(int) -> T,
    c: T,
    k: nat,
)
    requires
        distributive::<T>(),
        zero_absorbs::<T>(),
    ensures
        sum(f, k).mul_spec(c) == sum(|q: int| f(q).mul_spec(c), k),
    decreases k,
{
    if k > 0 {
        lemma_sum_scaled_right(f, c, (k - 1) as nat);
    }
}

/// The sum of sums taken term by term is the sum of the two sums.
pub proof fn lemma_sum_of_sums<T: Zero + Add<Output = T>>(
    f: spec_fn(int) -> T,
    g: spec_fn(int) -> T,
    k: nat,
)
    requires
        add_associative::<T>(),
        add_commutative::<T>(),
        zero_neutral::<T>(),
    ensures
        sum(|q: int| f(q).add_spec(g(q)), k) == sum(f, k).add_spec(sum(g, k)),
    decreases k,
{
    let h = |q: int| f(q).add_spec(g(q));
    if k > 0 {
        lemma_sum_of_sums(f, g, (k - 1) as nat);
        let a = sum(f, (k - 1) as nat);
        let b = sum(g, (k - 1) as nat);
        let x = f(k - 1);
        let y = g(k - 1);
        // (a + b) + (x + y) == (a + x) + (b + y)
        assert(a.add_spec(b).add_spec(x.add_spec(y)) == a.add_spec(b.add_spec(x.add_spec(y))));
        assert(b.add_spec(x.add_spec(y)) == b.add_spec(x).add_spec(y));
        assert(b.add_spec(x) == x.add_spec(b));
        assert(x.add_spec(b).add_spec(y) == x.add_spec(b.add_spec(y)));
        assert(a.add_spec(x.add_spec(b.add_spec(y))) == a.add_spec(x).add_spec(b.add_spec(y)));
        assert(sum(h, k) == sum(h, (k - 1) as nat).add_spec(h(k - 1)));
    }
}

/// The order of two nested sums does not matter.
pub proof fn lemma_sum_exchange<T: Zero + Add<Output = T>>(
    f: spec_fn(int, int) -> T,
    m: nat,
    n: nat,
)
    requires
        add_associative::<T>(),
        add_commutative::<T>(),
        zero_neutral::<T>(),
    ensures
        sum(|q: int| sum(|l: int| f(q, l), n), m) == sum(|l: int| sum(|q: int| f(q, l), m), n),
    decreases m,
{
    let outer = |q: int| sum(|l: int| f(q, l), n);
    let inner = |l: int| sum(|q: int| f(q, l), m);
    if m == 0 {
        lemma_sum_single(inner, n, -1);
    } else {
        let less = (m - 1) as nat;
        lemma_sum_exchange(f, less, n);
        let inner_less = |l: int| sum(|q: int| f(q, l), less);
        let last = |l: int| f(m - 1, l);
        lemma_sum_of_sums(inner_less, last, n);
        let both = |l: int| inner_less(l).add_spec(last(l));
        assert forall|l: int| 0 <= l < n implies #[trigger] inner(l) == both(l) by {
            assert(sum(|q: int| f(q, l), m) == sum(|q: int| f(q, l), less).add_spec(f(m - 1, l)));
        }
        lemma_sum_same(inner, both, n);
        let outer_less = |q: int| sum(|l: int| f(q, l), n);
        assert(sum(outer, m) == sum(outer, less).add_spec(outer(m - 1)));
        lemma_sum_same(|l: int| f(m - 1, l), last, n);
    }
}

impl<T: Zero + Add<Output = T> + Mul<Output = T>> Grid<T> {
    /// Row `i` of `self` times column `j` of `other` is the sum of the
    /// products of their cells.
    pub proof fn lemma_row_by_col_is_sum(self, other: Grid<T>, i: int, j: int, k: nat)
        ensures
            self.row_by_col(other, i, j, k) == sum(
                |q: int| self.at(i, q).mul_spec(other.at(q, j)),
                k,
            ),
        decreases k,
    {
        if k > 0 {
            self.lemma_row_by_col_is_sum(other, i, j, (k - 1) as nat);
        }
    }
}

} // verus!
