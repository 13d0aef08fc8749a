use crate::factor_laws::delta;
use crate::grid::Grid;
use crate::grid::lemma_position_to_index;
use crate::inversion::negligible;
use crate::laws::commutative_ring;
use crate::laws::law_identity_left;
use crate::laws::law_identity_right;
use crate::laws::law_product_associative;
use crate::laws::lemma_difference_of_equals;
use crate::laws::lemma_negative_unique;
use crate::laws::ring_add_commutes;
use crate::laws::ring_add_zero;
use crate::laws::ring_distributes;
use crate::laws::ring_mul_associates;
use crate::laws::ring_mul_commutes;
use crate::laws::ring_mul_zero;
use crate::laws::ring_negative;
use crate::laws::ring_sub;
use crate::laws::zero_neutral;
use crate::sums::lemma_sum_of_sums;
use crate::sums::lemma_sum_same;
use crate::sums::lemma_sum_scaled_right;
use crate::sums::lemma_sum_single;
use crate::sums::sum;
use crate::traits::Float;
use crate::traits::is_zero;
use crate::traits::UnitOne;
use crate::traits::Zero;
use vstd::prelude::*;
use vstd::std_specs::ops::AddSpec;
use vstd::std_specs::ops::DivSpec;
use vstd::std_specs::ops::MulSpec;
use vstd::std_specs::ops::NegSpec;
use vstd::std_specs::ops::SubSpec;

verus! {

/// Division by a scalar that does not compare equal to zero behaves as in a
/// field: a scalar divided by itself is one, zero divided is zero, a sum is
/// divided term by term, and a factor may be taken into the dividend.
pub open spec fn division_exact<T: Float>() -> bool {
    &&& forall|p: T| !is_zero(p) ==> #[trigger] p.div_spec(p) == T::unit_one_spec()
    &&& forall|p: T| !is_zero(p) ==> #[trigger] T::zero_spec().div_spec(p) == T::zero_spec()
    &&& forall|a: T, b: T, p: T|
        !is_zero(p) ==> #[trigger] a.add_spec(b).div_spec(p) == a.div_spec(p).add_spec(
            b.div_spec(p),
        )
    &&& forall|x: T, p: T, y: T|
        !is_zero(p) ==> #[trigger] x.div_spec(p).mul_spec(y) == x.mul_spec(y).div_spec(p)
}

/// The scalars form a field with exact arithmetic, in which whatever
/// compares equal to zero is negligible.
#[verifier::opaque]
pub open spec fn exact_field<T: Float>() -> bool {
    &&& commutative_ring::<T>()
    &&& division_exact::<T>()
    &&& forall|x: T| is_zero(x) ==> #[trigger] negligible(x)
}

/// A field is a commutative ring.
proof fn field_is_ring<T: Float>()
    requires
        exact_field::<T>(),
    ensures
        commutative_ring::<T>(),
{
    reveal(exact_field);
}

/// In a field, a pivot that is not negligible is not zero.
proof fn field_pivot<T: Float>(p: T)
    requires
        exact_field::<T>(),
        !negligible(p),
    ensures
        !is_zero(p),
{
    reveal(exact_field);
}

/// In a field, `p / p = 1`, `0 / p = 0` and `(x / p) * y = (x * y) / p`
/// unless `p` is zero.
proof fn field_division<T: Float>(x: T, p: T, y: T)
    requires
        exact_field::<T>(),
        !is_zero(p),
    ensures
        p.div_spec(p) == T::unit_one_spec(),
        T::zero_spec().div_spec(p) == T::zero_spec(),
        x.div_spec(p).mul_spec(y) == x.mul_spec(y).div_spec(p),
{
    reveal(exact_field);
}

/// In a field, `1 * x = x` and `0 * x = 0`.
proof fn field_units<T: Float>(x: T)
    requires
        exact_field::<T>(),
    ensures
        T::unit_one_spec().mul_spec(x) == x,
        T::zero_spec().mul_spec(x) == T::zero_spec(),
{
    reveal(exact_field);
    reveal(commutative_ring);
}

/// In a field, a sum of quotients by one divisor is the quotient of the
/// sum.
proof fn field_sum_divided<T: Float>(t: spec_fn(int) -> T, p: T, k: nat)
    requires
        exact_field::<T>(),
        !is_zero(p),
    ensures
        sum(|q: int| t(q).div_spec(p), k) == sum(t, k).div_spec(p),
    decreases k,
{
    if k > 0 {
        field_sum_divided(t, p, (k - 1) as nat);
        assert(sum(t, (k - 1) as nat).add_spec(t(k - 1)).div_spec(p) == sum(
            t,
            (k - 1) as nat,
        ).div_spec(p).add_spec(t(k - 1).div_spec(p))) by {
            reveal(exact_field);
        }
    } else {
        field_division(p, p, p);
    }
}

/// In a field, a factor on the right moves into a sum.
proof fn field_sum_scaled<T: Float>(f: spec_fn(int) -> T, c: T, k: nat)
    requires
        exact_field::<T>(),
    ensures
        sum(f, k).mul_spec(c) == sum(|q: int| f(q).mul_spec(c), k),
{
    reveal(exact_field);
    reveal(commutative_ring);
    lemma_sum_scaled_right(f, c, k);
}

/// In a field, the sum of sums taken term by term is the sum of the two
/// sums.
proof fn field_sum_split<T: Float>(f: spec_fn(int) -> T, g: spec_fn(int) -> T, k: nat)
    requires
        exact_field::<T>(),
    ensures
        sum(|q: int| f(q).add_spec(g(q)), k) == sum(f, k).add_spec(sum(g, k)),
{
    reveal(exact_field);
    reveal(commutative_ring);
    lemma_sum_of_sums(f, g, k);
}

/// In a field, `x * (-z) = -(x * z)`.
proof fn field_mul_negative<T: Float>(x: T, z: T)
    requires
        exact_field::<T>(),
    ensures
        x.mul_spec(z.neg_spec()) == x.mul_spec(z).neg_spec(),
{
    field_is_ring::<T>();
    ring_distributes(x, z, z.neg_spec());
    ring_negative(z);
    ring_mul_zero(x);
    lemma_negative_unique(x.mul_spec(z), x.mul_spec(z.neg_spec()));
}

/// In a field, `x - 0 = x`.
proof fn field_minus_zero<T: Float>(x: T)
    requires
        exact_field::<T>(),
    ensures
        x.sub_spec(T::zero_spec()) == x,
{
    let o = T::zero_spec();
    field_is_ring::<T>();
    ring_sub(x, o);
    ring_negative(o);
    ring_add_zero(o.neg_spec());
    ring_add_zero(x);
}

/// In a field, the term of one row of the carried grid after a pivot step:
/// `(x - (v / p) * f) * y = x * y + ((v * y) / p) * (-f)`.
proof fn field_term<T: Float>(x: T, v: T, p: T, f: T, y: T)
    requires
        exact_field::<T>(),
        !is_zero(p),
    ensures
        x.sub_spec(v.div_spec(p).mul_spec(f)).mul_spec(y) == x.mul_spec(y).add_spec(
            v.mul_spec(y).div_spec(p).mul_spec(f.neg_spec()),
        ),
{
    field_is_ring::<T>();
    let u = v.div_spec(p);
    let uf = u.mul_spec(f);
    let nuf = uf.neg_spec();
    // (x - uf) * y = y * (x + -uf) = y * x + y * -uf
    ring_sub(x, uf);
    ring_mul_commutes(x.add_spec(nuf), y);
    ring_distributes(y, x, nuf);
    ring_mul_commutes(y, x);
    // y * -uf = -(y * uf), and y * uf = (u * y) * f
    field_mul_negative(y, uf);
    ring_mul_commutes(y, uf);
    ring_mul_associates(u, f, y);
    ring_mul_commutes(f, y);
    ring_mul_associates(u, y, f);
    // (u * y) * -f = -((u * y) * f)
    field_mul_negative(u.mul_spec(y), f);
    field_division(v, p, y);
}

/// The columns of the working grid before column `i` are those of the
/// identity.
pub open spec fn cleared<T: Float>(w: Grid<T>, i: nat) -> bool {
    forall|r: int, k: int| w.has(r, k) && k < i ==> #[trigger] w.at(r, k) == delta::<T>(r, k)
}

/// A pivot step clears one more column of the working grid.
proof fn lemma_step_clears<T: Float>(w: Grid<T>, i: nat)
    requires
        exact_field::<T>(),
        w.wf(),
        w.rows == w.cols,
        i < w.rows,
        cleared(w, i),
        !is_zero(w.at(i as int, i as int)),
    ensures
        cleared(w.pivot_step(i as int), i + 1),
{
    let o = T::zero_spec();
    let p = w.at(i as int, i as int);
    let next = w.pivot_step(i as int);
    w.lemma_pivot_step(i as int);
    assert forall|r: int, k: int| next.has(r, k) && k < i + 1 implies #[trigger] next.at(r, k)
        == delta::<T>(r, k) by {
        let f = w.at(r, i as int);
        let x = w.at(i as int, k);
        field_division(x, p, f);
        if k < i {
            assert(x == o);
            if r != i {
                field_units(f);
                field_minus_zero(w.at(r, k));
            }
        } else {
            if r != i {
                field_units(f);
                field_is_ring::<T>();
                lemma_difference_of_equals(f);
            }
        }
    }
}

/// A pivot step keeps the carried grid times the matrix equal to the
/// working grid, cell by cell.
proof fn lemma_step_cell<T: Float>(a: Grid<T>, w: Grid<T>, e: Grid<T>, i: nat, r: int, c: int)
    requires
        exact_field::<T>(),
        a.wf(),
        w.wf(),
        e.wf(),
        a.rows == a.cols,
        w.same_shape(a),
        e.same_shape(a),
        i < a.rows,
        e.product(a) == w,
        !is_zero(w.at(i as int, i as int)),
        0 <= r < a.rows,
        0 <= c < a.rows,
    ensures
        e.carried_step(w, i as int).row_by_col(a, r, c, a.rows) == w.pivot_step(i as int).at(r, c),
{
    let n = a.rows;
    let p = w.at(i as int, i as int);
    let e2 = e.carried_step(w, i as int);
    e.lemma_carried_step(w, i as int);
    w.lemma_pivot_step(i as int);
    e.lemma_product(a);
    e.lemma_row_by_col_is_sum(a, i as int, c, n);
    e.lemma_row_by_col_is_sum(a, r, c, n);
    e2.lemma_row_by_col_is_sum(a, r, c, n);
    let t = |q: int| e.at(i as int, q).mul_spec(a.at(q, c));
    let s = |q: int| e.at(r, q).mul_spec(a.at(q, c));
    let terms = |q: int| e2.at(r, q).mul_spec(a.at(q, c));
    let u = |q: int| t(q).div_spec(p);
    assert(sum(t, n) == w.at(i as int, c));
    assert(sum(s, n) == w.at(r, c));
    field_sum_divided(t, p, n);
    if r == i {
        assert forall|k: int| 0 <= k < n implies #[trigger] terms(k) == u(k) by {
            field_division(e.at(i as int, k), p, a.at(k, c));
        }
        lemma_sum_same(terms, u, n);
    } else {
        let f = w.at(r, i as int);
        let g = f.neg_spec();
        let ug = |q: int| u(q).mul_spec(g);
        let both = |q: int| s(q).add_spec(ug(q));
        assert forall|k: int| 0 <= k < n implies #[trigger] terms(k) == both(k) by {
            field_term(e.at(r, k), e.at(i as int, k), p, f, a.at(k, c));
        }
        lemma_sum_same(terms, both, n);
        field_sum_split(s, ug, n);
        field_sum_scaled(u, g, n);
        let d = w.at(i as int, c).div_spec(p);
        field_mul_negative(d, f);
        field_is_ring::<T>();
        ring_sub(w.at(r, c), d.mul_spec(f));
    }
}

/// What elimination returns from pivot `i` on is a left inverse, if the
/// carried grid times the matrix is the working grid and the columns of the
/// working grid before column `i` are cleared.
proof fn lemma_inverse_from<T: Float>(a: Grid<T>, w: Grid<T>, e: Grid<T>, i: nat)
    requires
        exact_field::<T>(),
        a.wf(),
        w.wf(),
        e.wf(),
        a.rows == a.cols,
        w.same_shape(a),
        e.same_shape(a),
        i <= a.rows,
        e.product(a) == w,
        cleared(w, i),
        w.inverse_from(e, i).is_some(),
    ensures
        w.inverse_from(e, i).unwrap().product(a) == Grid::<T>::identity(a.rows),
    decreases a.rows - i,
{
    let n = a.rows;
    if i >= n {
        Grid::<T>::lemma_identity(n);
        w.lemma_equal_by_cells(Grid::<T>::identity(n));
    } else {
        let p = w.at(i as int, i as int);
        field_pivot(p);
        let w2 = w.pivot_step(i as int);
        let e2 = e.carried_step(w, i as int);
        w.lemma_pivot_step(i as int);
        e.lemma_carried_step(w, i as int);
        lemma_step_clears(w, i);
        e2.lemma_product(a);
        assert forall|r: int, c: int| e2.product(a).has(r, c) implies #[trigger] e2.product(a).at(
            r,
            c,
        ) == w2.at(r, c) by {
            lemma_step_cell(a, w, e, i, r, c);
        }
        e2.product(a).lemma_equal_by_cells(w2);
        lemma_inverse_from(a, w2, e2, i + 1);
    }
}

/// What `inverse` returns is a left inverse, over an exact field: if it
/// returns `B` for the square matrix `A`, then `B · A = I`.
pub proof fn law_inverse_left<T: Float>(a: Grid<T>, b: Grid<T>)
    requires
        exact_field::<T>(),
        a.wf(),
        a.rows == a.cols,
        a.inverse() == Some(b),
    ensures
        b.product(a) == Grid::<T>::identity(a.rows),
{
    let unit = Grid::<T>::identity(a.rows);
    Grid::<T>::lemma_identity(a.rows);
    assert(unit.product(a) == a) by {
        reveal(exact_field);
        reveal(commutative_ring);
        law_identity_left(a);
    }
    lemma_inverse_from(a, a, unit, 0);
}

/// `inverse` returns nothing as soon as it meets a negligible pivot.
pub proof fn law_inverse_stops<T: Float>(w: Grid<T>, e: Grid<T>, i: nat)
    requires
        i < w.rows,
        negligible(w.at(i as int, i as int)),
    ensures
        w.inverse_from(e, i).is_none(),
{
}

/// In a field, `(-y) / p = -(y / p)` unless `p` is zero.
proof fn field_negative_divided<T: Float>(y: T, p: T)
    requires
        exact_field::<T>(),
        !is_zero(p),
    ensures
        y.neg_spec().div_spec(p) == y.div_spec(p).neg_spec(),
{
    field_is_ring::<T>();
    ring_negative(y);
    field_division(y, p, y);
    assert(y.add_spec(y.neg_spec()).div_spec(p) == y.div_spec(p).add_spec(
        y.neg_spec().div_spec(p),
    )) by {
        reveal(exact_field);
    }
    lemma_negative_unique(y.div_spec(p), y.neg_spec().div_spec(p));
}

/// In a field, `(1 / p) * x = x / p` and `x * (1 / p) = x / p` unless `p`
/// is zero.
proof fn field_reciprocal<T: Float>(x: T, p: T)
    requires
        exact_field::<T>(),
        !is_zero(p),
    ensures
        T::unit_one_spec().div_spec(p).mul_spec(x) == x.div_spec(p),
        x.mul_spec(T::unit_one_spec().div_spec(p)) == x.div_spec(p),
{
    field_is_ring::<T>();
    field_division(T::unit_one_spec(), p, x);
    field_units(x);
    ring_mul_commutes(x, T::unit_one_spec().div_spec(p));
}

/// In a field, `x * 1 = x` and `x * 0 = 0`.
proof fn field_units_right<T: Float>(x: T)
    requires
        exact_field::<T>(),
    ensures
        x.mul_spec(T::unit_one_spec()) == x,
        x.mul_spec(T::zero_spec()) == T::zero_spec(),
{
    reveal(exact_field);
    reveal(commutative_ring);
}

/// In a field, a sum whose terms are all zero but the one at place `p` is
/// that term.
proof fn field_sum_single<T: Float>(f: spec_fn(int) -> T, k: nat, p: int)
    requires
        exact_field::<T>(),
        0 <= p < k,
        forall|q: int| 0 <= q < k && q != p ==> #[trigger] f(q) == T::zero_spec(),
    ensures
        sum(f, k) == f(p),
{
    assert(zero_neutral::<T>()) by {
        reveal(exact_field);
        reveal(commutative_ring);
    }
    lemma_sum_single(f, k, p);
}

/// In a field, a sum whose terms are all zero but those at the places `i`
/// and `r` is the sum of these two.
proof fn field_sum_pair<T: Float>(f: spec_fn(int) -> T, k: nat, i: int, r: int)
    requires
        exact_field::<T>(),
        0 <= i < k,
        0 <= r < k,
        i != r,
        forall|q: int| 0 <= q < k && q != i && q != r ==> #[trigger] f(q) == T::zero_spec(),
    ensures
        sum(f, k) == f(i).add_spec(f(r)),
{
    let o = T::zero_spec();
    let d1 = |q: int|
        if q == i {
            f(i)
        } else {
            o
        };
    let d2 = |q: int|
        if q == r {
            f(r)
        } else {
            o
        };
    let both = |q: int| d1(q).add_spec(d2(q));
    field_is_ring::<T>();
    assert forall|q: int| 0 <= q < k implies #[trigger] f(q) == both(q) by {
        ring_add_zero(f(q));
        ring_add_zero(o);
    }
    lemma_sum_same(f, both, k);
    field_sum_split(d1, d2, k);
    field_sum_single(d1, k, i);
    field_sum_single(d2, k, r);
}

impl<T: Float> Grid<T> {
    /// The matrix of the pivot step on row `i` of the working grid `self`:
    /// the identity but for column `i`, which holds one divided by the
    /// pivot on the diagonal and elsewhere the negative of the working
    /// grid's cell, divided by the pivot.
    pub open spec fn step_matrix(self, i: int) -> Grid<T> {
        Grid::tabulate(
            self.rows,
            self.rows,
            |r: int, c: int|
                if c != i {
                    delta::<T>(r, c)
                } else if r == i {
                    T::unit_one_spec().div_spec(self.at(i, i))
                } else {
                    self.at(r, i).neg_spec().div_spec(self.at(i, i))
                },
        )
    }

    /// The matrix that undoes the pivot step on row `i` of the working grid
    /// `self`: the identity but for column `i`, which is the working grid's.
    pub open spec fn undo_matrix(self, i: int) -> Grid<T> {
        Grid::tabulate(
            self.rows,
            self.rows,
            |r: int, c: int|
                if c != i {
                    delta::<T>(r, c)
                } else {
                    self.at(r, i)
                },
        )
    }

    /// What the matrix of a pivot step holds at each position.
    proof fn lemma_step_matrix(self, i: int)
        ensures
            self.step_matrix(i).wf(),
            self.step_matrix(i).rows == self.rows,
            self.step_matrix(i).cols == self.rows,
            forall|r: int, c: int|
                0 <= r < self.rows && 0 <= c < self.rows ==> #[trigger] self.step_matrix(i).at(r, c)
                    == if c != i {
                    delta::<T>(r, c)
                } else if r == i {
                    T::unit_one_spec().div_spec(self.at(i, i))
                } else {
                    self.at(r, i).neg_spec().div_spec(self.at(i, i))
                },
    {
        let g = self.step_matrix(i);
        assert forall|r: int, c: int| 0 <= r < self.rows && 0 <= c < self.rows implies #[trigger] g.at(
            r,
            c,
        ) == if c != i {
            delta::<T>(r, c)
        } else if r == i {
            T::unit_one_spec().div_spec(self.at(i, i))
        } else {
            self.at(r, i).neg_spec().div_spec(self.at(i, i))
        } by {
            lemma_position_to_index(self.rows, self.rows, r, c);
        }
    }

    /// What the matrix that undoes a pivot step holds at each position.
    proof fn lemma_undo_matrix(self, i: int)
        ensures
            self.undo_matrix(i).wf(),
            self.undo_matrix(i).rows == self.rows,
            self.undo_matrix(i).cols == self.rows,
            forall|r: int, c: int|
                0 <= r < self.rows && 0 <= c < self.rows ==> #[trigger] self.undo_matrix(i).at(r, c)
                    == if c != i {
                    delta::<T>(r, c)
                } else {
                    self.at(r, i)
                },
    {
        let g = self.undo_matrix(i);
        assert forall|r: int, c: int| 0 <= r < self.rows && 0 <= c < self.rows implies #[trigger] g.at(
            r,
            c,
        ) == if c != i {
            delta::<T>(r, c)
        } else {
            self.at(r, i)
        } by {
            lemma_position_to_index(self.rows, self.rows, r, c);
        }
    }
}

/// The matrix of a pivot step times a grid is the grid after the row
/// operations of the step, cell by cell.
proof fn lemma_step_applies<T: Float>(w: Grid<T>, x: Grid<T>, i: nat, r: int, c: int)
    requires
        exact_field::<T>(),
        w.wf(),
        x.wf(),
        w.rows == w.cols,
        x.same_shape(w),
        i < w.rows,
        !is_zero(w.at(i as int, i as int)),
        0 <= r < w.rows,
        0 <= c < w.rows,
    ensures
        w.step_matrix(i as int).row_by_col(x, r, c, w.rows) == if r == i {
            x.at(i as int, c).div_spec(w.at(i as int, i as int))
        } else {
            x.at(r, c).sub_spec(
                x.at(i as int, c).div_spec(w.at(i as int, i as int)).mul_spec(w.at(r, i as int)),
            )
        },
{
    let n = w.rows;
    let p = w.at(i as int, i as int);
    let m = w.step_matrix(i as int);
    let xi = x.at(i as int, c);
    w.lemma_step_matrix(i as int);
    m.lemma_row_by_col_is_sum(x, r, c, n);
    let terms = |q: int| m.at(r, q).mul_spec(x.at(q, c));
    field_is_ring::<T>();
    assert forall|q: int| 0 <= q < n && q != i && q != r implies #[trigger] terms(q)
        == T::zero_spec() by {
        field_units(x.at(q, c));
    }
    if r == i {
        field_sum_single(terms, n, i as int);
        field_reciprocal(xi, p);
    } else {
        let f = w.at(r, i as int);
        field_sum_pair(terms, n, i as int, r);
        field_units(x.at(r, c));
        // ((-f) / p) * xi = -((xi / p) * f)
        field_division(f.neg_spec(), p, xi);
        ring_mul_commutes(f.neg_spec(), xi);
        field_mul_negative(xi, f);
        field_negative_divided(xi.mul_spec(f), p);
        field_division(xi, p, f);
        ring_add_commutes(terms(i as int), terms(r));
        ring_sub(x.at(r, c), xi.div_spec(p).mul_spec(f));
    }
}

/// The matrix that undoes a pivot step times the matrix of the step is the
/// identity, cell by cell.
proof fn lemma_undo_cell<T: Float>(w: Grid<T>, i: nat, r: int, c: int)
    requires
        exact_field::<T>(),
        w.wf(),
        w.rows == w.cols,
        i < w.rows,
        !is_zero(w.at(i as int, i as int)),
        0 <= r < w.rows,
        0 <= c < w.rows,
    ensures
        w.undo_matrix(i as int).row_by_col(w.step_matrix(i as int), r, c, w.rows) == delta::<T>(
            r,
            c,
        ),
{
    let n = w.rows;
    let o = T::zero_spec();
    let p = w.at(i as int, i as int);
    let m = w.step_matrix(i as int);
    let u = w.undo_matrix(i as int);
    w.lemma_step_matrix(i as int);
    w.lemma_undo_matrix(i as int);
    u.lemma_row_by_col_is_sum(m, r, c, n);
    let terms = |q: int| u.at(r, q).mul_spec(m.at(q, c));
    field_is_ring::<T>();
    if c != i {
        assert forall|q: int| 0 <= q < n && q != c implies #[trigger] terms(q) == o by {
            field_units_right(u.at(r, q));
        }
        field_sum_single(terms, n, c);
        field_units_right(u.at(r, c));
    } else {
        assert forall|q: int| 0 <= q < n && q != i && q != r implies #[trigger] terms(q) == o by {
            field_units(m.at(q, c));
        }
        if r == i {
            field_sum_single(terms, n, i as int);
            field_reciprocal(p, p);
            field_division(p, p, p);
        } else {
            let f = w.at(r, i as int);
            field_sum_pair(terms, n, i as int, r);
            field_reciprocal(f, p);
            field_units(f.neg_spec().div_spec(p));
            field_negative_divided(f, p);
            ring_negative(f.div_spec(p));
        }
    }
}

/// In a field, the matrix product is associative and the identity is
/// neutral on both of its sides.
proof fn field_products<T: Float>(a: Grid<T>, b: Grid<T>, c: Grid<T>)
    requires
        exact_field::<T>(),
        a.wf(),
        b.wf(),
        c.wf(),
        a.cols == b.rows,
        b.cols == c.rows,
    ensures
        a.product(b.product(c)) == a.product(b).product(c),
        Grid::<T>::identity(a.rows).product(a) == a,
        a.product(Grid::<T>::identity(a.cols)) == a,
{
    reveal(exact_field);
    reveal(commutative_ring);
    law_product_associative(a, b, c);
    law_identity_left(a);
    law_identity_right(a);
}

/// What elimination returns from pivot `i` on is a right inverse, if some
/// grid `f` times the carried grid is the identity and `f` times the
/// working grid is the matrix, and the columns of the working grid before
/// column `i` are cleared.
proof fn lemma_inverse_from_right<T: Float>(a: Grid<T>, f: Grid<T>, w: Grid<T>, e: Grid<T>, i: nat)
    requires
        exact_field::<T>(),
        a.wf(),
        f.wf(),
        w.wf(),
        e.wf(),
        a.rows == a.cols,
        f.same_shape(a),
        w.same_shape(a),
        e.same_shape(a),
        i <= a.rows,
        f.product(e) == Grid::<T>::identity(a.rows),
        f.product(w) == a,
        cleared(w, i),
        w.inverse_from(e, i).is_some(),
    ensures
        a.product(w.inverse_from(e, i).unwrap()) == Grid::<T>::identity(a.rows),
    decreases a.rows - i,
{
    let n = a.rows;
    let unit = Grid::<T>::identity(n);
    Grid::<T>::lemma_identity(n);
    if i >= n {
        w.lemma_equal_by_cells(unit);
        field_products(f, unit, unit);
    } else {
        let p = w.at(i as int, i as int);
        field_pivot(p);
        let m = w.step_matrix(i as int);
        let u = w.undo_matrix(i as int);
        let w2 = w.pivot_step(i as int);
        let e2 = e.carried_step(w, i as int);
        w.lemma_step_matrix(i as int);
        w.lemma_undo_matrix(i as int);
        w.lemma_pivot_step(i as int);
        e.lemma_carried_step(w, i as int);
        lemma_step_clears(w, i);
        m.lemma_product(w);
        m.lemma_product(e);
        u.lemma_product(m);
        assert forall|r: int, c: int| w2.has(r, c) implies #[trigger] m.product(w).at(r, c)
            == w2.at(r, c) by {
            lemma_step_applies(w, w, i, r, c);
        }
        m.product(w).lemma_equal_by_cells(w2);
        assert forall|r: int, c: int| e2.has(r, c) implies #[trigger] m.product(e).at(r, c)
            == e2.at(r, c) by {
            lemma_step_applies(w, e, i, r, c);
        }
        m.product(e).lemma_equal_by_cells(e2);
        assert forall|r: int, c: int| unit.has(r, c) implies #[trigger] u.product(m).at(r, c)
            == unit.at(r, c) by {
            lemma_undo_cell(w, i, r, c);
        }
        u.product(m).lemma_equal_by_cells(unit);
        let f2 = f.product(u);
        f.lemma_product(u);
        // f2 · (m · x) = f · (u · (m · x)) = f · ((u · m) · x) = f · x
        field_products(f, u, m.product(e));
        field_products(u, m, e);
        field_products(e, unit, unit);
        field_products(f, u, m.product(w));
        field_products(u, m, w);
        field_products(w, unit, unit);
        assert(f2.product(e2) == unit);
        assert(f2.product(w2) == a);
        lemma_inverse_from_right(a, f2, w2, e2, i + 1);
    }
}

/// What `inverse` returns is a right inverse too, over an exact field: if
/// it returns `B` for the square matrix `A`, then `A · B = I`.
pub proof fn law_inverse_right<T: Float>(a: Grid<T>, b: Grid<T>)
    requires
        exact_field::<T>(),
        a.wf(),
        a.rows == a.cols,
        a.inverse() == Some(b),
    ensures
        a.product(b) == Grid::<T>::identity(a.rows),
{
    let unit = Grid::<T>::identity(a.rows);
    Grid::<T>::lemma_identity(a.rows);
    field_products(a, unit, unit);
    field_products(unit, unit, unit);
    lemma_inverse_from_right(a, unit, a, unit, 0);
}

} // verus!
