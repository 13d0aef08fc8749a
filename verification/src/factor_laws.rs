use crate::dynamic::solve::lemma_lu_shape;
use crate::grid::Grid;
use crate::laws::add_associative;
use crate::laws::law_identity_left;
use crate::laws::add_commutative;
use crate::laws::negative_cancels;
use crate::laws::one_neutral;
use crate::laws::sub_adds_negative;
use crate::laws::zero_absorbs;
use crate::laws::zero_neutral;
use crate::sums::lemma_sum_of_sums;
use crate::sums::lemma_sum_same;
use crate::sums::lemma_sum_single;
use crate::sums::sum;
use crate::traits::is_zero;
use crate::traits::UnitOne;
use crate::traits::Zero;
use std::ops::Add;
use std::ops::Div;
use std::ops::Mul;
use std::ops::Neg;
use std::ops::Sub;
use vstd::prelude::*;
use vstd::std_specs::ops::AddSpec;
use vstd::std_specs::ops::DivSpec;
use vstd::std_specs::ops::MulSpec;
use vstd::std_specs::ops::NegSpec;
use vstd::std_specs::ops::SubSpec;

verus! {

/// One where `r` is `c`, zero elsewhere.
pub open spec fn delta<T: Zero + UnitOne>(r: int, c: int) -> T {
    if r == c {
        T::unit_one_spec()
    } else {
        T::zero_spec()
    }
}

/// Ones on the diagonal and zeros above it.
pub open spec fn unit_lower_triangular<T: Zero + UnitOne>(l: Grid<T>) -> bool {
    forall|r: int, c: int| l.has(r, c) && r <= c ==> #[trigger] l.at(r, c) == delta::<T>(r, c)
}

/// Zeros below the diagonal.
pub open spec fn upper_triangular<T: Zero>(u: Grid<T>) -> bool {
    forall|r: int, c: int| u.has(r, c) && r > c ==> #[trigger] u.at(r, c) == T::zero_spec()
}

/// Multiplying a quotient by its divisor gives the dividend back, unless
/// the divisor compares equal to zero.
pub open spec fn quotient_restores<T: Zero + PartialEq + Mul<Output = T> + Div<Output = T>>() -> bool {
    forall|x: T, p: T| !is_zero(p) ==> #[trigger] x.div_spec(p).mul_spec(p) == x
}

/// The lower factor is the identity but for its cells below the diagonal in
/// the first `i` columns.
pub open spec fn lower_so_far<T: Zero + UnitOne>(l: Grid<T>, i: nat) -> bool {
    forall|r: int, c: int|
        l.has(r, c) && (r <= c || c >= i) ==> #[trigger] l.at(r, c) == delta::<T>(r, c)
}

/// The upper factor holds zeros below the diagonal in its first `i`
/// columns.
pub open spec fn upper_so_far<T: Zero>(u: Grid<T>, i: nat) -> bool {
    forall|r: int, c: int| u.has(r, c) && r > c && c < i ==> #[trigger] u.at(r, c) == T::zero_spec()
}

impl<T: Zero + UnitOne + PartialEq + Sub<Output = T> + Mul<Output = T> + Div<Output = T>> Grid<T> {
    /// No pivot among the first `i` is zero once its row was offered the
    /// exchange with the last row.
    pub open spec fn pivots_hold(self, i: nat) -> bool {
        forall|k: nat| k < i ==> !is_zero(#[trigger] self.lu_after(k).1.pivoted(k as int).at(k as int, k as int))
    }

    /// No pivot among the first `i` is zero as it is met, so that no rows
    /// change places.
    pub open spec fn pivots_hold_unmoved(self, i: nat) -> bool {
        forall|k: nat| k < i ==> !is_zero(#[trigger] self.lu_after(k).1.at(k as int, k as int))
    }

    /// After `i` columns the lower factor is still the identity outside the
    /// cells below the diagonal in these columns.
    pub proof fn lemma_lower_so_far(self, i: nat)
        requires
            self.wf(),
            self.rows == self.cols,
        ensures
            lower_so_far(self.lu_after(i).0, i),
        decreases i,
    {
        lemma_lu_shape(self, i);
        if i == 0 {
            Grid::<T>::lemma_identity(self.rows);
        } else {
            let k = (i - 1) as nat;
            self.lemma_lower_so_far(k);
            lemma_lu_shape(self, k);
            let (l, u) = self.lu_after(k);
            let p = u.pivoted(k as int);
            l.lemma_with_multipliers(p, k as int);
        }
    }

    /// After `i` columns whose pivots held, the upper factor has zeros below
    /// the diagonal in these columns.
    pub proof fn lemma_upper_so_far(self, i: nat)
        requires
            self.wf(),
            self.rows == self.cols,
            i <= self.rows,
            self.pivots_hold(i),
            quotient_restores::<T>(),
            forall|x: T| #[trigger] x.sub_spec(x) == T::zero_spec(),
        ensures
            upper_so_far(self.lu_after(i).1, i),
        decreases i,
    {
        lemma_lu_shape(self, i);
        if i > 0 {
            let k = (i - 1) as nat;
            self.lemma_upper_so_far(k);
            lemma_lu_shape(self, k);
            let (l, u) = self.lu_after(k);
            let p = u.pivoted(k as int);
            u.lemma_swapped_rows(k as int, u.rows - 1);
            p.lemma_eliminated_below(k as int);
            let next = p.eliminated_below(k as int);
            assert(!is_zero(p.at(k as int, k as int)));
            assert forall|r: int, c: int| next.has(r, c) && r > c && c < i implies #[trigger] next.at(
                r,
                c,
            ) == T::zero_spec() by {
                if c == k {
                    let x = p.at(r, k as int);
                    let d = p.at(k as int, k as int);
                    assert(x.div_spec(d).mul_spec(d) == x);
                    assert(x.sub_spec(x) == T::zero_spec());
                } else {
                    assert(p.at(r, c) == T::zero_spec()) by {
                        if is_zero(u.at(k as int, k as int)) {
                            if r == k {
                                assert(u.at(u.rows - 1, c) == T::zero_spec());
                            } else if r == u.rows - 1 {
                                assert(u.at(k as int, c) == T::zero_spec());
                            } else {
                                assert(u.at(r, c) == T::zero_spec());
                            }
                        } else {
                            assert(u.at(r, c) == T::zero_spec());
                        }
                    }
                }
            }
        }
    }

    /// The lower factor has ones on its diagonal and zeros above it, for
    /// every square matrix.
    pub proof fn law_lu_lower(self)
        requires
            self.wf(),
            self.rows == self.cols,
        ensures
            unit_lower_triangular(self.lu().0),
    {
        self.lemma_lower_so_far(self.rows);
    }

    /// The upper factor has zeros below its diagonal, wherever every pivot
    /// held when it was met, a quotient times its divisor is the dividend
    /// and a scalar minus itself is zero.
    pub proof fn law_lu_upper(self)
        requires
            self.wf(),
            self.rows == self.cols,
            self.pivots_hold(self.rows),
            quotient_restores::<T>(),
            forall|x: T| #[trigger] x.sub_spec(x) == T::zero_spec(),
        ensures
            upper_triangular(self.lu().1),
    {
        self.lemma_upper_so_far(self.rows);
        lemma_lu_shape(self, self.rows);
    }
}

/// What the exactness of the factors asks of the scalars: addition is
/// associative and commutative with zero as its neutral element, zero
/// absorbs and one is neutral in products, subtracting is adding the
/// negative, a scalar and its negative cancel, and a quotient times its
/// divisor is the dividend.
pub open spec fn exact_scalars<
    T: Zero + UnitOne + PartialEq + Add<Output = T> + Sub<Output = T> + Neg<Output = T> + Mul<
        Output = T,
    > + Div<Output = T>,
>() -> bool {
    &&& add_associative::<T>()
    &&& add_commutative::<T>()
    &&& zero_neutral::<T>()
    &&& zero_absorbs::<T>()
    &&& one_neutral::<T>()
    &&& sub_adds_negative::<T>()
    &&& negative_cancels::<T>()
    &&& quotient_restores::<T>()
}

/// Sums may be rearranged: addition is associative and commutative, and
/// zero is its neutral element.
#[verifier::opaque]
pub open spec fn sums_rearrange<T: Zero + Add<Output = T>>() -> bool {
    &&& add_associative::<T>()
    &&& add_commutative::<T>()
    &&& zero_neutral::<T>()
}

/// The sum of sums taken term by term is the sum of the two sums.
proof fn lemma_sum_split<T: Zero + Add<Output = T>>(
    f: spec_fn(int) -> T,
    g: spec_fn(int) -> T,
    k: nat,
)
    requires
        sums_rearrange::<T>(),
    ensures
        sum(|q: int| f(q).add_spec(g(q)), k) == sum(f, k).add_spec(sum(g, k)),
{
    reveal(sums_rearrange);
    lemma_sum_of_sums(f, g, k);
}

/// One cell of the product of the two factors does not change when a
/// column is eliminated.
proof fn lemma_cell_kept<
    T: Zero + UnitOne + PartialEq + Add<Output = T> + Sub<Output = T> + Neg<Output = T> + Mul<
        Output = T,
    > + Div<Output = T>,
>(l: Grid<T>, u: Grid<T>, i: nat, r: int, c: int)
    requires
        sums_rearrange::<T>(),
        zero_neutral::<T>(),
        zero_absorbs::<T>(),
        one_neutral::<T>(),
        sub_adds_negative::<T>(),
        negative_cancels::<T>(),
        l.wf(),
        u.wf(),
        l.rows == l.cols,
        u.rows == u.cols,
        l.rows == u.rows,
        i < l.rows,
        lower_so_far(l, i),
        upper_so_far(u, i),
        !is_zero(u.at(i as int, i as int)),
        0 <= r < l.rows,
        0 <= c < l.rows,
    ensures
        l.with_multipliers(u, i as int).row_by_col(u.eliminated_below(i as int), r, c, l.rows)
            == l.row_by_col(u, r, c, l.rows),
{
    let n = l.rows;
    let o = T::zero_spec();
    let l2 = l.with_multipliers(u, i as int);
    let u2 = u.eliminated_below(i as int);
    l.lemma_with_multipliers(u, i as int);
    u.lemma_eliminated_below(i as int);
    l.lemma_row_by_col_is_sum(u, r, c, n);
    l2.lemma_row_by_col_is_sum(u2, r, c, n);
    let f = |q: int| l.at(r, q).mul_spec(u.at(q, c));
    let g = |q: int| l2.at(r, q).mul_spec(u2.at(q, c));
    let m = u.multiplier(i as int, r);
    let x = m.mul_spec(u.at(i as int, c));
    if r <= i || c < i {
        assert forall|k: int| 0 <= k < n implies #[trigger] g(k) == f(k) by {
            if k > i && r <= i {
                assert(l.at(r, k) == o);
            } else if k == i && r > i {
                assert(u.at(i as int, c) == o);
                assert(l.at(r, k) == o);
            }
        }
        lemma_sum_same(g, f, n);
    } else {
        let nx = x.neg_spec();
        let d1 = |q: int|
            if q == i {
                x
            } else {
                o
            };
        let d2 = |q: int|
            if q == r {
                nx
            } else {
                o
            };
        let e = |q: int| d1(q).add_spec(d2(q));
        let fe = |q: int| f(q).add_spec(e(q));
        assert forall|k: int| 0 <= k < n implies #[trigger] g(k) == fe(k) by {
            assert(o.add_spec(o) == o);
            if k == i {
                assert(l.at(r, k) == o);
                assert(x.add_spec(o) == x);
                assert(o.add_spec(x) == x);
            } else if k == r {
                assert(l.at(r, r) == T::unit_one_spec());
                assert(o.add_spec(nx) == nx);
                assert(u.at(r, c).sub_spec(x) == u.at(r, c).add_spec(nx));
            } else if k > i {
                assert(l.at(r, k) == o);
            } else {
                assert(f(k).add_spec(o) == f(k));
            }
        }
        lemma_sum_same(g, fe, n);
        lemma_sum_split(f, e, n);
        lemma_sum_split(d1, d2, n);
        lemma_sum_single(d1, n, i as int);
        lemma_sum_single(d2, n, r);
        assert(x.add_spec(nx) == o);
        assert(sum(f, n).add_spec(o) == sum(f, n));
    }
}

impl<
    T: Zero + UnitOne + PartialEq + Add<Output = T> + Sub<Output = T> + Neg<Output = T> + Mul<
        Output = T,
    > + Div<Output = T>,
> Grid<T> {
    /// After `i` columns none of whose pivots was zero, the product of the
    /// two factors is still the matrix they come from.
    pub proof fn lemma_product_so_far(self, i: nat)
        requires
            exact_scalars::<T>(),
            self.wf(),
            self.rows == self.cols,
            i <= self.rows,
            self.pivots_hold_unmoved(i),
        ensures
            self.lu_after(i).0.product(self.lu_after(i).1) == self,
            self.pivots_hold(i),
        decreases i,
    {
        lemma_lu_shape(self, i);
        if i == 0 {
            law_identity_left(self);
        } else {
            let k = (i - 1) as nat;
            self.lemma_product_so_far(k);
            assert(!is_zero(self.lu_after(k).1.at(k as int, k as int)));
            assert(self.pivots_hold(i)) by {
                assert forall|j: nat| j < i implies !is_zero(
                    #[trigger] self.lu_after(j).1.pivoted(j as int).at(j as int, j as int),
                ) by {
                    assert(!is_zero(self.lu_after(j).1.at(j as int, j as int)));
                }
            }
            self.law_lu_step(k);
        }
    }

    /// Eliminating a column whose pivot held keeps the product of the two
    /// factors, taken after the rows of the upper factor were offered the
    /// exchange. The exchange moves rows of the upper factor alone, not the
    /// multipliers that the lower factor already holds for them.
    pub proof fn law_lu_step(self, i: nat)
        requires
            exact_scalars::<T>(),
            self.wf(),
            self.rows == self.cols,
            i < self.rows,
            self.pivots_hold(i + 1),
        ensures
            self.lu_after(i + 1).0.product(self.lu_after(i + 1).1) == self.lu_after(i).0.product(
                self.lu_after(i).1.pivoted(i as int),
            ),
    {
        lemma_lu_shape(self, i);
        lemma_lu_shape(self, i + 1);
        self.lemma_lower_so_far(i);
        assert forall|x: T| #[trigger] x.sub_spec(x) == T::zero_spec() by {
            assert(x.sub_spec(x) == x.add_spec(x.neg_spec()));
        }
        assert(self.pivots_hold(i)) by {
            assert forall|j: nat| j < i implies !is_zero(
                #[trigger] self.lu_after(j).1.pivoted(j as int).at(j as int, j as int),
            ) by {
            }
        }
        self.lemma_upper_so_far(i);
        let (l, u) = self.lu_after(i);
        let p = u.pivoted(i as int);
        u.lemma_swapped_rows(i as int, u.rows - 1);
        assert(!is_zero(p.at(i as int, i as int)));
        assert(upper_so_far(p, i)) by {
            assert forall|r: int, c: int| p.has(r, c) && r > c && c < i implies #[trigger] p.at(r, c)
                == T::zero_spec() by {
                if is_zero(u.at(i as int, i as int)) {
                    if r == i {
                        assert(u.at(u.rows - 1, c) == T::zero_spec());
                    } else if r == u.rows - 1 {
                        assert(u.at(i as int, c) == T::zero_spec());
                    } else {
                        assert(u.at(r, c) == T::zero_spec());
                    }
                } else {
                    assert(u.at(r, c) == T::zero_spec());
                }
            }
        }
        let l2 = l.with_multipliers(p, i as int);
        let u2 = p.eliminated_below(i as int);
        l.lemma_with_multipliers(p, i as int);
        p.lemma_eliminated_below(i as int);
        l.lemma_product(p);
        l2.lemma_product(u2);
        assert(sums_rearrange::<T>()) by {
            reveal(sums_rearrange);
        }
        assert forall|r: int, c: int| l2.product(u2).has(r, c) implies #[trigger] l2.product(u2).at(
            r,
            c,
        ) == l.product(p).at(r, c) by {
            lemma_cell_kept(l, p, i, r, c);
        }
        l2.product(u2).lemma_equal_by_cells(l.product(p));
    }

    /// The product of the two factors is the matrix itself, wherever no
    /// pivot is zero as it is met and the arithmetic of the scalars is
    /// exact: `L · U = A`.
    pub proof fn law_lu_product(self)
        requires
            exact_scalars::<T>(),
            self.wf(),
            self.rows == self.cols,
            self.pivots_hold_unmoved(self.rows),
        ensures
            self.lu().0.product(self.lu().1) == self,
    {
        self.lemma_product_so_far(self.rows);
    }
}

} // verus!
