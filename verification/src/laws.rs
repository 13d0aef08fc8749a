use crate::grid::lemma_position_to_index;
use crate::grid::Grid;
use crate::sums::lemma_sum_exchange;
use crate::sums::lemma_sum_same;
use crate::sums::lemma_sum_scaled_left;
use crate::sums::lemma_sum_scaled_right;
use crate::sums::lemma_sum_single;
use crate::sums::sum;
use crate::graphics::rotate2d_spec;
use crate::graphics::rotate3d_no_norm_spec;
use crate::graphics::rotate3d_spec;
use crate::graphics::rotate3d_x_spec;
use crate::graphics::rotate3d_y_spec;
use crate::graphics::rotate3d_z_spec;
use crate::graphics::translate2d_spec;
use crate::graphics::translate3d_spec;
use crate::traits::is_zero;
use crate::traits::Float;
use crate::vector::cross_spec;
use crate::vector::inner;
use crate::vector::norm_spec;
use crate::vector::normalize_spec;
use crate::traits::UnitOne;
use crate::traits::Zero;
use std::ops::Add;
use std::ops::Mul;
use std::ops::Neg;
use std::ops::Sub;
use vstd::prelude::*;
use vstd::std_specs::ops::AddSpec;
use vstd::std_specs::ops::MulSpec;
use vstd::std_specs::ops::NegSpec;
use vstd::std_specs::ops::SubSpec;

verus! {

/// Addition of scalars is associative.
pub open spec fn add_associative<T: Add<Output = T>>() -> bool {
    forall|x: T, y: T, z: T| #[trigger] x.add_spec(y).add_spec(z) == x.add_spec(y.add_spec(z))
}

/// Addition of scalars is commutative.
pub open spec fn add_commutative<T: Add<Output = T>>() -> bool {
    forall|x: T, y: T| #[trigger] x.add_spec(y) == y.add_spec(x)
}

/// Zero is neutral for the addition of scalars, on both sides.
pub open spec fn zero_neutral<T: Zero + Add<Output = T>>() -> bool {
    &&& forall|x: T| #[trigger] x.add_spec(T::zero_spec()) == x
    &&& forall|x: T| #[trigger] T::zero_spec().add_spec(x) == x
}

/// A scalar minus itself is zero.
pub open spec fn sub_cancels<T: Zero + Sub<Output = T>>() -> bool {
    forall|x: T| #[trigger] x.sub_spec(x) == T::zero_spec()
}

/// Negating a scalar twice gives it back.
pub open spec fn neg_involutive<T: Neg<Output = T>>() -> bool {
    forall|x: T| #[trigger] x.neg_spec().neg_spec() == x
}

/// Multiplication of scalars is associative.
pub open spec fn mul_associative<T: Mul<Output = T>>() -> bool {
    forall|x: T, y: T, z: T| #[trigger] x.mul_spec(y).mul_spec(z) == x.mul_spec(y.mul_spec(z))
}

/// Multiplication of scalars is commutative.
pub open spec fn mul_commutative<T: Mul<Output = T>>() -> bool {
    forall|x: T, y: T| #[trigger] x.mul_spec(y) == y.mul_spec(x)
}

/// Multiplication of scalars distributes over addition, on both sides.
pub open spec fn distributive<T: Add<Output = T> + Mul<Output = T>>() -> bool {
    &&& forall|x: T, y: T, z: T| #[trigger]
        x.mul_spec(y.add_spec(z)) == x.mul_spec(y).add_spec(x.mul_spec(z))
    &&& forall|x: T, y: T, z: T| #[trigger]
        x.add_spec(y).mul_spec(z) == x.mul_spec(z).add_spec(y.mul_spec(z))
}

/// A product with zero is zero, on both sides.
pub open spec fn zero_absorbs<T: Zero + Mul<Output = T>>() -> bool {
    &&& forall|x: T| #[trigger] x.mul_spec(T::zero_spec()) == T::zero_spec()
    &&& forall|x: T| #[trigger] T::zero_spec().mul_spec(x) == T::zero_spec()
}

/// One is neutral for the multiplication of scalars, on both sides.
pub open spec fn one_neutral<T: UnitOne + Mul<Output = T>>() -> bool {
    &&& forall|x: T| #[trigger] x.mul_spec(T::unit_one_spec()) == x
    &&& forall|x: T| #[trigger] T::unit_one_spec().mul_spec(x) == x
}

/// The scalars form a semiring: addition is associative and commutative
/// with zero as its neutral element, multiplication is associative with one
/// as its neutral element, distributes over addition, and zero absorbs.
pub open spec fn semiring<T: Zero + UnitOne + Add<Output = T> + Mul<Output = T>>() -> bool {
    &&& add_associative::<T>()
    &&& add_commutative::<T>()
    &&& zero_neutral::<T>()
    &&& mul_associative::<T>()
    &&& distributive::<T>()
    &&& zero_absorbs::<T>()
    &&& one_neutral::<T>()
}

/// Matrix addition is associative wherever scalar addition is:
/// `(A + B) + C = A + (B + C)`.
pub proof fn law_add_associative<T: Add<Output = T>>(a: Grid<T>, b: Grid<T>, c: Grid<T>)
    requires
        add_associative::<T>(),
        a.wf(),
        b.wf(),
        c.wf(),
        a.same_shape(b),
        b.same_shape(c),
    ensures
        a.plus(b).plus(c) == a.plus(b.plus(c)),
{
    assert(a.plus(b).plus(c).cells =~= a.plus(b.plus(c)).cells);
}

/// Adding the matrix of zeros changes nothing wherever the scalar zero is
/// neutral: `A + 0 = A`.
pub proof fn law_add_zero<T: Zero + Add<Output = T>>(a: Grid<T>)
    requires
        zero_neutral::<T>(),
        a.wf(),
    ensures
        a.plus(Grid::constant(a.rows, a.cols, T::zero_spec())) == a,
{
    assert(a.plus(Grid::constant(a.rows, a.cols, T::zero_spec())).cells =~= a.cells);
}

/// A matrix minus itself is the matrix of zeros wherever a scalar minus
/// itself is zero: `A - A = 0`.
pub proof fn law_sub_self<T: Zero + Sub<Output = T>>(a: Grid<T>)
    requires
        sub_cancels::<T>(),
        a.wf(),
    ensures
        a.minus(a) == Grid::constant(a.rows, a.cols, T::zero_spec()),
{
    assert(a.minus(a).cells =~= Grid::constant(a.rows, a.cols, T::zero_spec()).cells);
}

/// Negating a matrix twice gives it back wherever this holds of scalars:
/// `-(-A) = A`.
pub proof fn law_neg_neg<T: Neg<Output = T>>(a: Grid<T>)
    requires
        neg_involutive::<T>(),
    ensures
        a.negated().negated() == a,
{
    assert(a.negated().negated().cells =~= a.cells);
}

/// Transposing twice gives the matrix back: `(Aᵀ)ᵀ = A`. Two in-place
/// transpositions in a row therefore restore a matrix exactly.
pub proof fn law_transpose_twice<T>(a: Grid<T>)
    requires
        a.wf(),
    ensures
        a.transposed().transposed() == a,
{
    a.lemma_transposed();
    a.transposed().lemma_transposed();
    a.transposed().transposed().lemma_equal_by_cells(a);
}

/// The transpose of a sum is the sum of the transposes:
/// `(A + B)ᵀ = Aᵀ + Bᵀ`.
pub proof fn law_transpose_sum<T: Add<Output = T>>(a: Grid<T>, b: Grid<T>)
    requires
        a.wf(),
        b.wf(),
        a.same_shape(b),
    ensures
        a.plus(b).transposed() == a.transposed().plus(b.transposed()),
{
    let left = a.plus(b).transposed();
    let right = a.transposed().plus(b.transposed());
    a.lemma_transposed();
    b.lemma_transposed();
    a.plus(b).lemma_transposed();
    assert(right.wf());
    assert forall|r: int, c: int| left.has(r, c) implies #[trigger] left.at(r, c) == right.at(
        r,
        c,
    ) by {
        lemma_position_to_index(left.rows, left.cols, r, c);
        lemma_position_to_index(a.rows, a.cols, c, r);
        assert(a.transposed().at(r, c) == a.at(c, r));
        assert(b.transposed().at(r, c) == b.at(c, r));
        assert(a.plus(b).at(c, r) == a.at(c, r).add_spec(b.at(c, r)));
    }
    left.lemma_equal_by_cells(right);
}

/// One cell of the two ways to multiply three matrices.
proof fn lemma_product_cell<T: Zero + UnitOne + Add<Output = T> + Mul<Output = T>>(
    a: Grid<T>,
    b: Grid<T>,
    c: Grid<T>,
    i: int,
    j: int,
)
    requires
        semiring::<T>(),
        a.wf(),
        b.wf(),
        c.wf(),
        a.cols == b.rows,
        b.cols == c.rows,
        0 <= i < a.rows,
        0 <= j < c.cols,
    ensures
        a.row_by_col(b.product(c), i, j, a.cols) == a.product(b).row_by_col(c, i, j, b.cols),
{
    let n = a.cols;
    let p = b.cols;
    let bc = b.product(c);
    let ab = a.product(b);
    b.lemma_product(c);
    a.lemma_product(b);
    let f = |q: int, l: int| a.at(i, q).mul_spec(b.at(q, l).mul_spec(c.at(l, j)));
    a.lemma_row_by_col_is_sum(bc, i, j, n);
    let l1 = |q: int| a.at(i, q).mul_spec(bc.at(q, j));
    let l2 = |q: int| sum(|l: int| f(q, l), p);
    assert forall|k: int| 0 <= k < n implies #[trigger] l1(k) == l2(k) by {
        b.lemma_row_by_col_is_sum(c, k, j, p);
        let inner = |q: int| b.at(k, q).mul_spec(c.at(q, j));
        let x = a.at(i, k);
        lemma_sum_scaled_left(x, inner, p);
        lemma_sum_same(|q: int| x.mul_spec(inner(q)), |l: int| f(k, l), p);
    }
    lemma_sum_same(l1, l2, n);
    ab.lemma_row_by_col_is_sum(c, i, j, p);
    let r1 = |q: int| ab.at(i, q).mul_spec(c.at(q, j));
    let r2 = |l: int| sum(|q: int| f(q, l), n);
    assert forall|k: int| 0 <= k < p implies #[trigger] r1(k) == r2(k) by {
        a.lemma_row_by_col_is_sum(b, i, k, n);
        let inner = |q: int| a.at(i, q).mul_spec(b.at(q, k));
        let y = c.at(k, j);
        lemma_sum_scaled_right(inner, y, n);
        lemma_sum_same(|q: int| inner(q).mul_spec(y), |q: int| f(q, k), n);
    }
    lemma_sum_same(r1, r2, p);
    lemma_sum_exchange(f, n, p);
}

/// The matrix product is associative over a semiring:
/// `A · (B · C) = (A · B) · C`.
pub proof fn law_product_associative<T: Zero + UnitOne + Add<Output = T> + Mul<Output = T>>(
    a: Grid<T>,
    b: Grid<T>,
    c: Grid<T>,
)
    requires
        semiring::<T>(),
        a.wf(),
        b.wf(),
        c.wf(),
        a.cols == b.rows,
        b.cols == c.rows,
    ensures
        a.product(b.product(c)) == a.product(b).product(c),
{
    let left = a.product(b.product(c));
    let right = a.product(b).product(c);
    b.lemma_product(c);
    a.lemma_product(b);
    a.lemma_product(b.product(c));
    a.product(b).lemma_product(c);
    assert forall|i: int, j: int| left.has(i, j) implies #[trigger] left.at(i, j) == right.at(
        i,
        j,
    ) by {
        lemma_product_cell(a, b, c, i, j);
    }
    left.lemma_equal_by_cells(right);
}

/// The identity is neutral on the left of the matrix product: `I · A = A`.
pub proof fn law_identity_left<T: Zero + UnitOne + Add<Output = T> + Mul<Output = T>>(a: Grid<T>)
    requires
        zero_neutral::<T>(),
        zero_absorbs::<T>(),
        one_neutral::<T>(),
        a.wf(),
    ensures
        Grid::<T>::identity(a.rows).product(a) == a,
{
    let unit = Grid::<T>::identity(a.rows);
    let left = unit.product(a);
    Grid::<T>::lemma_identity(a.rows);
    unit.lemma_product(a);
    assert forall|i: int, j: int| left.has(i, j) implies #[trigger] left.at(i, j) == a.at(i, j) by {
        unit.lemma_row_by_col_is_sum(a, i, j, a.rows);
        let terms = |q: int| unit.at(i, q).mul_spec(a.at(q, j));
        lemma_sum_single(terms, a.rows, i);
    }
    left.lemma_equal_by_cells(a);
}

/// The identity is neutral on the right of the matrix product: `A · I = A`.
pub proof fn law_identity_right<T: Zero + UnitOne + Add<Output = T> + Mul<Output = T>>(a: Grid<T>)
    requires
        zero_neutral::<T>(),
        zero_absorbs::<T>(),
        one_neutral::<T>(),
        a.wf(),
    ensures
        a.product(Grid::<T>::identity(a.cols)) == a,
{
    let unit = Grid::<T>::identity(a.cols);
    let left = a.product(unit);
    Grid::<T>::lemma_identity(a.cols);
    a.lemma_product(unit);
    assert forall|i: int, j: int| left.has(i, j) implies #[trigger] left.at(i, j) == a.at(i, j) by {
        a.lemma_row_by_col_is_sum(unit, i, j, a.cols);
        let terms = |q: int| a.at(i, q).mul_spec(unit.at(q, j));
        lemma_sum_single(terms, a.cols, j);
    }
    left.lemma_equal_by_cells(a);
}

/// The transpose of a product is the product of the transposes in the
/// other order, wherever the multiplication of scalars is commutative:
/// `(A · B)ᵀ = Bᵀ · Aᵀ`.
pub proof fn law_transpose_product<T: Zero + Add<Output = T> + Mul<Output = T>>(
    a: Grid<T>,
    b: Grid<T>,
)
    requires
        mul_commutative::<T>(),
        a.wf(),
        b.wf(),
        a.cols == b.rows,
    ensures
        a.product(b).transposed() == b.transposed().product(a.transposed()),
{
    let bt = b.transposed();
    let at = a.transposed();
    let left = a.product(b).transposed();
    let right = bt.product(at);
    a.lemma_product(b);
    a.product(b).lemma_transposed();
    a.lemma_transposed();
    b.lemma_transposed();
    bt.lemma_product(at);
    assert forall|i: int, j: int| left.has(i, j) implies #[trigger] left.at(i, j) == right.at(
        i,
        j,
    ) by {
        a.lemma_row_by_col_is_sum(b, j, i, a.cols);
        bt.lemma_row_by_col_is_sum(at, i, j, a.cols);
        lemma_sum_same(
            |q: int| a.at(j, q).mul_spec(b.at(q, i)),
            |q: int| bt.at(i, q).mul_spec(at.at(q, j)),
            a.cols,
        );
    }
    left.lemma_equal_by_cells(right);
}

/// Subtracting is adding the negative.
pub open spec fn sub_adds_negative<T: Add<Output = T> + Sub<Output = T> + Neg<Output = T>>() -> bool {
    forall|x: T, y: T| #[trigger] x.sub_spec(y) == x.add_spec(y.neg_spec())
}

/// A scalar plus its negative is zero.
pub open spec fn negative_cancels<T: Zero + Add<Output = T> + Neg<Output = T>>() -> bool {
    forall|x: T| #[trigger] x.add_spec(x.neg_spec()) == T::zero_spec()
}

/// The scalars form a commutative ring: a semiring with commutative
/// multiplication in which every scalar has a negative and subtracting is
/// adding the negative.
#[verifier::opaque]
pub open spec fn commutative_ring<
    T: Zero + UnitOne + Add<Output = T> + Sub<Output = T> + Neg<Output = T> + Mul<Output = T>,
>() -> bool {
    &&& semiring::<T>()
    &&& mul_commutative::<T>()
    &&& sub_adds_negative::<T>()
    &&& negative_cancels::<T>()
}

/// In a commutative ring, `x + y = y + x`.
pub proof fn ring_add_commutes<
    T: Zero + UnitOne + Add<Output = T> + Sub<Output = T> + Neg<Output = T> + Mul<Output = T>,
>(x: T, y: T)
    requires
        commutative_ring::<T>(),
    ensures
        x.add_spec(y) == y.add_spec(x),
{
    reveal(commutative_ring);
}

/// In a commutative ring, `(x + y) + z = x + (y + z)`.
pub proof fn ring_add_associates<
    T: Zero + UnitOne + Add<Output = T> + Sub<Output = T> + Neg<Output = T> + Mul<Output = T>,
>(x: T, y: T, z: T)
    requires
        commutative_ring::<T>(),
    ensures
        x.add_spec(y).add_spec(z) == x.add_spec(y.add_spec(z)),
{
    reveal(commutative_ring);
}

/// In a commutative ring, `x + 0 = x` and `0 + x = x`.
pub proof fn ring_add_zero<
    T: Zero + UnitOne + Add<Output = T> + Sub<Output = T> + Neg<Output = T> + Mul<Output = T>,
>(x: T)
    requires
        commutative_ring::<T>(),
    ensures
        x.add_spec(T::zero_spec()) == x,
        T::zero_spec().add_spec(x) == x,
{
    reveal(commutative_ring);
}

/// In a commutative ring, `x - y = x + (-y)`.
pub proof fn ring_sub<
    T: Zero + UnitOne + Add<Output = T> + Sub<Output = T> + Neg<Output = T> + Mul<Output = T>,
>(x: T, y: T)
    requires
        commutative_ring::<T>(),
    ensures
        x.sub_spec(y) == x.add_spec(y.neg_spec()),
{
    reveal(commutative_ring);
}

/// In a commutative ring, `x + (-x) = 0`.
pub proof fn ring_negative<
    T: Zero + UnitOne + Add<Output = T> + Sub<Output = T> + Neg<Output = T> + Mul<Output = T>,
>(x: T)
    requires
        commutative_ring::<T>(),
    ensures
        x.add_spec(x.neg_spec()) == T::zero_spec(),
{
    reveal(commutative_ring);
}

/// In a commutative ring, `x * y = y * x`.
pub proof fn ring_mul_commutes<
    T: Zero + UnitOne + Add<Output = T> + Sub<Output = T> + Neg<Output = T> + Mul<Output = T>,
>(x: T, y: T)
    requires
        commutative_ring::<T>(),
    ensures
        x.mul_spec(y) == y.mul_spec(x),
{
    reveal(commutative_ring);
}

/// In a commutative ring, the only scalar that cancels `u` is its negative.
pub proof fn lemma_negative_unique<
    T: Zero + UnitOne + Add<Output = T> + Sub<Output = T> + Neg<Output = T> + Mul<Output = T>,
>(u: T, w: T)
    requires
        commutative_ring::<T>(),
        u.add_spec(w) == T::zero_spec(),
    ensures
        w == u.neg_spec(),
{
    let n = u.neg_spec();
    // w = 0 + w = (n + u) + w = n + (u + w) = n + 0 = n
    ring_add_zero(w);
    ring_negative(u);
    ring_add_commutes(n, u);
    ring_add_associates(n, u, w);
    ring_add_zero(n);
}

/// In a commutative ring, the negative of a difference is the difference
/// the other way round: `-(x - y) = y - x`.
pub proof fn lemma_negative_of_difference<
    T: Zero + UnitOne + Add<Output = T> + Sub<Output = T> + Neg<Output = T> + Mul<Output = T>,
>(x: T, y: T)
    requires
        commutative_ring::<T>(),
    ensures
        x.sub_spec(y).neg_spec() == y.sub_spec(x),
{
    let ny = y.neg_spec();
    let nx = x.neg_spec();
    let u = x.add_spec(ny);
    let w = y.add_spec(nx);
    ring_sub(x, y);
    ring_sub(y, x);
    // u + w = x + (ny + (y + nx)) = x + ((ny + y) + nx) = x + (0 + nx) = 0
    ring_add_associates(x, ny, w);
    ring_add_associates(ny, y, nx);
    ring_add_commutes(ny, y);
    ring_negative(y);
    ring_add_zero(nx);
    ring_negative(x);
    lemma_negative_unique(u, w);
}

/// In a commutative ring, a scalar minus itself is zero.
pub proof fn lemma_difference_of_equals<
    T: Zero + UnitOne + Add<Output = T> + Sub<Output = T> + Neg<Output = T> + Mul<Output = T>,
>(x: T)
    requires
        commutative_ring::<T>(),
    ensures
        x.sub_spec(x) == T::zero_spec(),
{
    ring_sub(x, x);
    ring_negative(x);
}

/// The cross product of a vector with itself is the zero vector, in a
/// commutative ring: `a × a = 0`.
pub proof fn law_cross_self<
    T: Zero + UnitOne + Add<Output = T> + Sub<Output = T> + Neg<Output = T> + Mul<Output = T>,
>(a: Seq<T>)
    requires
        commutative_ring::<T>(),
        a.len() == 3,
    ensures
        cross_spec(a, a) == seq![T::zero_spec(), T::zero_spec(), T::zero_spec()],
{
    lemma_difference_of_equals(a[1].mul_spec(a[2]));
    lemma_difference_of_equals(a[2].mul_spec(a[0]));
    lemma_difference_of_equals(a[0].mul_spec(a[1]));
    ring_mul_commutes(a[2], a[1]);
    ring_mul_commutes(a[0], a[2]);
    ring_mul_commutes(a[1], a[0]);
    assert(cross_spec(a, a) =~= seq![T::zero_spec(), T::zero_spec(), T::zero_spec()]);
}

/// The cross product changes its sign when its factors change places, in a
/// commutative ring: `a × b = -(b × a)`.
pub proof fn law_cross_anticommutes<
    T: Zero + UnitOne + Add<Output = T> + Sub<Output = T> + Neg<Output = T> + Mul<Output = T>,
>(a: Seq<T>, b: Seq<T>)
    requires
        commutative_ring::<T>(),
        a.len() == 3,
        b.len() == 3,
    ensures
        cross_spec(a, b) == Seq::new(3, |i: int| cross_spec(b, a)[i].neg_spec()),
{
    lemma_negative_of_difference(b[1].mul_spec(a[2]), b[2].mul_spec(a[1]));
    lemma_negative_of_difference(b[2].mul_spec(a[0]), b[0].mul_spec(a[2]));
    lemma_negative_of_difference(b[0].mul_spec(a[1]), b[1].mul_spec(a[0]));
    ring_mul_commutes(b[2], a[1]);
    ring_mul_commutes(b[1], a[2]);
    ring_mul_commutes(b[0], a[2]);
    ring_mul_commutes(b[2], a[0]);
    ring_mul_commutes(b[1], a[0]);
    ring_mul_commutes(b[0], a[1]);
    assert(cross_spec(a, b) =~= Seq::new(3, |i: int| cross_spec(b, a)[i].neg_spec()));
}

/// The vector of zeros scaled to length one is the vector of zeros,
/// wherever zero times zero and zero plus zero are zero, the square root of
/// zero is zero and zero compares equal to itself.
pub proof fn law_normalize_zero<T: Float>(n: nat)
    requires
        T::zero_spec().mul_spec(T::zero_spec()) == T::zero_spec(),
        T::zero_spec().add_spec(T::zero_spec()) == T::zero_spec(),
        T::zero_spec().sqrt_spec() == T::zero_spec(),
        is_zero(T::zero_spec()),
    ensures
        normalize_spec(Seq::new(n, |i: int| T::zero_spec())) == Seq::new(
            n,
            |i: int| T::zero_spec(),
        ),
{
    let zeros = Seq::new(n, |i: int| T::zero_spec());
    lemma_inner_of_zeros::<T>(zeros, n);
    assert(normalize_spec(zeros) =~= zeros);
}

/// The inner product of a vector of zeros with itself is zero.
proof fn lemma_inner_of_zeros<T: Float>(zeros: Seq<T>, k: nat)
    requires
        T::zero_spec().mul_spec(T::zero_spec()) == T::zero_spec(),
        T::zero_spec().add_spec(T::zero_spec()) == T::zero_spec(),
        k <= zeros.len(),
        forall|i: int| 0 <= i < zeros.len() ==> zeros[i] == T::zero_spec(),
    ensures
        inner(zeros, zeros, k) == T::zero_spec(),
    decreases k,
{
    if k > 0 {
        lemma_inner_of_zeros(zeros, (k - 1) as nat);
    }
}

/// In a commutative ring, `x * (y + z) = x * y + x * z`.
pub proof fn ring_distributes<
    T: Zero + UnitOne + Add<Output = T> + Sub<Output = T> + Neg<Output = T> + Mul<Output = T>,
>(x: T, y: T, z: T)
    requires
        commutative_ring::<T>(),
    ensures
        x.mul_spec(y.add_spec(z)) == x.mul_spec(y).add_spec(x.mul_spec(z)),
{
    reveal(commutative_ring);
}

/// In a commutative ring, `(x * y) * z = x * (y * z)`.
pub proof fn ring_mul_associates<
    T: Zero + UnitOne + Add<Output = T> + Sub<Output = T> + Neg<Output = T> + Mul<Output = T>,
>(x: T, y: T, z: T)
    requires
        commutative_ring::<T>(),
    ensures
        x.mul_spec(y).mul_spec(z) == x.mul_spec(y.mul_spec(z)),
{
    reveal(commutative_ring);
}

/// In a commutative ring, `x * 0 = 0`.
pub proof fn ring_mul_zero<
    T: Zero + UnitOne + Add<Output = T> + Sub<Output = T> + Neg<Output = T> + Mul<Output = T>,
>(x: T)
    requires
        commutative_ring::<T>(),
    ensures
        x.mul_spec(T::zero_spec()) == T::zero_spec(),
{
    reveal(commutative_ring);
}

/// In a commutative ring, `x * (y - z) = x * y - x * z`.
pub proof fn lemma_mul_difference<
    T: Zero + UnitOne + Add<Output = T> + Sub<Output = T> + Neg<Output = T> + Mul<Output = T>,
>(x: T, y: T, z: T)
    requires
        commutative_ring::<T>(),
    ensures
        x.mul_spec(y.sub_spec(z)) == x.mul_spec(y).sub_spec(x.mul_spec(z)),
{
    let nz = z.neg_spec();
    // x * z + x * (-z) = x * (z + -z) = x * 0 = 0, so x * (-z) = -(x * z)
    ring_distributes(x, z, nz);
    ring_negative(z);
    ring_mul_zero(x);
    lemma_negative_unique(x.mul_spec(z), x.mul_spec(nz));
    ring_sub(y, z);
    ring_distributes(x, y, nz);
    ring_sub(x.mul_spec(y), x.mul_spec(z));
}

/// In a commutative ring, `x * (y * z) = y * (x * z)`.
pub proof fn lemma_mul_swap<
    T: Zero + UnitOne + Add<Output = T> + Sub<Output = T> + Neg<Output = T> + Mul<Output = T>,
>(x: T, y: T, z: T)
    requires
        commutative_ring::<T>(),
    ensures
        x.mul_spec(y.mul_spec(z)) == y.mul_spec(x.mul_spec(z)),
{
    ring_mul_associates(x, y, z);
    ring_mul_commutes(x, y);
    ring_mul_associates(y, x, z);
}

/// In a commutative ring, `(x - y) + (y - z) = x - z`.
pub proof fn lemma_differences_chain<
    T: Zero + UnitOne + Add<Output = T> + Sub<Output = T> + Neg<Output = T> + Mul<Output = T>,
>(x: T, y: T, z: T)
    requires
        commutative_ring::<T>(),
    ensures
        x.sub_spec(y).add_spec(y.sub_spec(z)) == x.sub_spec(z),
{
    let ny = y.neg_spec();
    let nz = z.neg_spec();
    ring_sub(x, y);
    ring_sub(y, z);
    ring_sub(x, z);
    // (x + ny) + (y + nz) = x + (ny + (y + nz)) = x + ((ny + y) + nz) = x + nz
    ring_add_associates(x, ny, y.add_spec(nz));
    ring_add_associates(ny, y, nz);
    ring_add_commutes(ny, y);
    ring_negative(y);
    ring_add_zero(nz);
}

/// A vector is perpendicular to its cross product with any other vector,
/// in a commutative ring: `a · (a × b) = 0`.
pub proof fn law_cross_perpendicular<
    T: Zero + UnitOne + Add<Output = T> + Sub<Output = T> + Neg<Output = T> + Mul<Output = T>,
>(a: Seq<T>, b: Seq<T>)
    requires
        commutative_ring::<T>(),
        a.len() == 3,
        b.len() == 3,
    ensures
        inner(a, cross_spec(a, b), 3) == T::zero_spec(),
{
    let o = T::zero_spec();
    let c = cross_spec(a, b);
    let p = a[0].mul_spec(a[1].mul_spec(b[2]));
    let q = a[0].mul_spec(a[2].mul_spec(b[1]));
    let r = a[1].mul_spec(a[2].mul_spec(b[0]));
    lemma_mul_difference(a[0], a[1].mul_spec(b[2]), a[2].mul_spec(b[1]));
    lemma_mul_difference(a[1], a[2].mul_spec(b[0]), a[0].mul_spec(b[2]));
    lemma_mul_difference(a[2], a[0].mul_spec(b[1]), a[1].mul_spec(b[0]));
    lemma_mul_swap(a[1], a[0], b[2]);
    lemma_mul_swap(a[2], a[0], b[1]);
    lemma_mul_swap(a[2], a[1], b[0]);
    let t0 = a[0].mul_spec(c[0]);
    let t1 = a[1].mul_spec(c[1]);
    let t2 = a[2].mul_spec(c[2]);
    assert(t0 == p.sub_spec(q));
    assert(t1 == r.sub_spec(p));
    assert(t2 == q.sub_spec(r));
    assert(inner(a, c, 3) == o.add_spec(t0).add_spec(t1).add_spec(t2)) by {
        reveal_with_fuel(inner, 4);
    }
    ring_add_zero(t0);
    ring_add_commutes(t0, t1);
    lemma_differences_chain(r, p, q);
    lemma_differences_chain(r, q, r);
    lemma_difference_of_equals(r);
}

/// Turning the plane by the angle zero changes nothing, wherever the
/// cosine of zero is one, its sine is zero and zero is its own negative.
pub proof fn law_rotate2d_zero<T: Float>()
    requires
        T::zero_spec().cos_spec() == T::unit_one_spec(),
        T::zero_spec().sin_spec() == T::zero_spec(),
        T::zero_spec().neg_spec() == T::zero_spec(),
    ensures
        rotate2d_spec(T::zero_spec()) == Grid::<T>::identity(3),
{
    let o = T::zero_spec();
    let i = T::unit_one_spec();
    let columns = seq![seq![i, o, o], seq![o, i, o], seq![o, o, i]];
    Grid::lemma_of_columns(columns, 3);
    Grid::<T>::lemma_identity(3);
    Grid::of_columns(columns).lemma_equal_by_cells(Grid::<T>::identity(3));
}

/// Turning space about a coordinate axis by the angle zero changes
/// nothing, wherever the cosine of zero is one, its sine is zero and zero
/// is its own negative.
pub proof fn law_rotate3d_zero<T: Float>()
    requires
        T::zero_spec().cos_spec() == T::unit_one_spec(),
        T::zero_spec().sin_spec() == T::zero_spec(),
        T::zero_spec().neg_spec() == T::zero_spec(),
    ensures
        rotate3d_x_spec(T::zero_spec()) == Grid::<T>::identity(4),
        rotate3d_y_spec(T::zero_spec()) == Grid::<T>::identity(4),
        rotate3d_z_spec(T::zero_spec()) == Grid::<T>::identity(4),
{
    let o = T::zero_spec();
    let i = T::unit_one_spec();
    let columns = seq![seq![i, o, o, o], seq![o, i, o, o], seq![o, o, i, o], seq![o, o, o, i]];
    Grid::lemma_of_columns(columns, 4);
    Grid::<T>::lemma_identity(4);
    Grid::of_columns(columns).lemma_equal_by_cells(Grid::<T>::identity(4));
}

/// Turning about an axis is turning about the axis scaled to length one.
pub proof fn law_rotate3d_normalizes<T: Float>(axis: Seq<T>, angle: T)
    ensures
        rotate3d_spec(axis, angle) == rotate3d_no_norm_spec(normalize_spec(axis), angle),
{
}

/// Moving the plane by `w` and then by `v` is moving it by `v + w`,
/// wherever zero and one are neutral, zero absorbs and addition is
/// commutative.
pub proof fn law_translate2d_composes<T: Float>(v: Seq<T>, w: Seq<T>)
    requires
        zero_neutral::<T>(),
        zero_absorbs::<T>(),
        one_neutral::<T>(),
        add_commutative::<T>(),
        v.len() == 2,
        w.len() == 2,
    ensures
        translate2d_spec(v).product(translate2d_spec(w)) == translate2d_spec(
            seq![v[0].add_spec(w[0]), v[1].add_spec(w[1])],
        ),
{
    let o = T::zero_spec();
    let i = T::unit_one_spec();
    let a = translate2d_spec(v);
    let b = translate2d_spec(w);
    let sum = seq![v[0].add_spec(w[0]), v[1].add_spec(w[1])];
    Grid::lemma_of_columns(seq![seq![i, o, o], seq![o, i, o], seq![v[0], v[1], i]], 3);
    Grid::lemma_of_columns(seq![seq![i, o, o], seq![o, i, o], seq![w[0], w[1], i]], 3);
    Grid::lemma_of_columns(seq![seq![i, o, o], seq![o, i, o], seq![sum[0], sum[1], i]], 3);
    a.lemma_product(b);
    assert forall|r: int, c: int| 0 <= r < 3 && 0 <= c < 3 implies #[trigger] a.product(b).at(r, c)
        == translate2d_spec(sum).at(r, c) by {
        reveal_with_fuel(Grid::row_by_col, 4);
    }
    a.product(b).lemma_equal_by_cells(translate2d_spec(sum));
}

/// Moving space by `w` and then by `v` is moving it by `v + w`, wherever
/// zero and one are neutral, zero absorbs and addition is commutative.
pub proof fn law_translate3d_composes<T: Float>(v: Seq<T>, w: Seq<T>)
    requires
        zero_neutral::<T>(),
        zero_absorbs::<T>(),
        one_neutral::<T>(),
        add_commutative::<T>(),
        v.len() == 3,
        w.len() == 3,
    ensures
        translate3d_spec(v).product(translate3d_spec(w)) == translate3d_spec(
            seq![v[0].add_spec(w[0]), v[1].add_spec(w[1]), v[2].add_spec(w[2])],
        ),
{
    let o = T::zero_spec();
    let i = T::unit_one_spec();
    let a = translate3d_spec(v);
    let b = translate3d_spec(w);
    let sum = seq![v[0].add_spec(w[0]), v[1].add_spec(w[1]), v[2].add_spec(w[2])];
    Grid::lemma_of_columns(
        seq![seq![i, o, o, o], seq![o, i, o, o], seq![o, o, i, o], seq![v[0], v[1], v[2], i]],
        4,
    );
    Grid::lemma_of_columns(
        seq![seq![i, o, o, o], seq![o, i, o, o], seq![o, o, i, o], seq![w[0], w[1], w[2], i]],
        4,
    );
    Grid::lemma_of_columns(
        seq![seq![i, o, o, o], seq![o, i, o, o], seq![o, o, i, o], seq![sum[0], sum[1], sum[2], i]],
        4,
    );
    a.lemma_product(b);
    assert forall|r: int, c: int| 0 <= r < 4 && 0 <= c < 4 implies #[trigger] a.product(b).at(r, c)
        == translate3d_spec(sum).at(r, c) by {
        reveal_with_fuel(Grid::row_by_col, 5);
    }
    a.product(b).lemma_equal_by_cells(translate3d_spec(sum));
}

/// The bytes with the arithmetic that their operator specifications give,
/// which wraps around, form a semiring: the laws above are not stated of
/// nothing.
pub proof fn lemma_bytes_form_semiring()
    ensures
        semiring::<u8>(),
{
    assert forall|x: u8, y: u8, z: u8| #[trigger]
        x.add_spec(y).add_spec(z) == x.add_spec(y.add_spec(z)) by {
        assert(((x + y) as u8 + z) as u8 == (x + (y + z) as u8) as u8) by (bit_vector);
    }
    assert forall|x: u8, y: u8| #[trigger] x.add_spec(y) == y.add_spec(x) by {
        assert((x + y) as u8 == (y + x) as u8) by (bit_vector);
    }
    assert forall|x: u8, y: u8, z: u8| #[trigger]
        x.mul_spec(y).mul_spec(z) == x.mul_spec(y.mul_spec(z)) by {
        assert(((x * y) as u8 * z) as u8 == (x * (y * z) as u8) as u8) by (bit_vector);
    }
    assert forall|x: u8, y: u8, z: u8| #[trigger]
        x.mul_spec(y.add_spec(z)) == x.mul_spec(y).add_spec(x.mul_spec(z)) by {
        assert((x * (y + z) as u8) as u8 == ((x * y) as u8 + (x * z) as u8) as u8) by (bit_vector);
    }
    assert forall|x: u8, y: u8, z: u8| #[trigger]
        x.add_spec(y).mul_spec(z) == x.mul_spec(z).add_spec(y.mul_spec(z)) by {
        assert(((x + y) as u8 * z) as u8 == ((x * z) as u8 + (y * z) as u8) as u8) by (bit_vector);
    }
}

/// The signed bytes with the arithmetic that their operator specifications
/// give, which wraps around, form a commutative ring.
pub proof fn lemma_signed_bytes_form_ring()
    ensures
        commutative_ring::<i8>(),
{
    reveal(commutative_ring);
    assert forall|x: i8, y: i8, z: i8| #[trigger]
        x.add_spec(y).add_spec(z) == x.add_spec(y.add_spec(z)) by {
        assert(((x + y) as i8 + z) as i8 == (x + (y + z) as i8) as i8) by (bit_vector);
    }
    assert forall|x: i8, y: i8| #[trigger] x.add_spec(y) == y.add_spec(x) by {
        assert((x + y) as i8 == (y + x) as i8) by (bit_vector);
    }
    assert forall|x: i8, y: i8, z: i8| #[trigger]
        x.mul_spec(y).mul_spec(z) == x.mul_spec(y.mul_spec(z)) by {
        assert(((x * y) as i8 * z) as i8 == (x * (y * z) as i8) as i8) by (bit_vector);
    }
    assert forall|x: i8, y: i8| #[trigger] x.mul_spec(y) == y.mul_spec(x) by {
        assert((x * y) as i8 == (y * x) as i8) by (bit_vector);
    }
    assert forall|x: i8, y: i8, z: i8| #[trigger]
        x.mul_spec(y.add_spec(z)) == x.mul_spec(y).add_spec(x.mul_spec(z)) by {
        assert((x * (y + z) as i8) as i8 == ((x * y) as i8 + (x * z) as i8) as i8) by (bit_vector);
    }
    assert forall|x: i8, y: i8, z: i8| #[trigger]
        x.add_spec(y).mul_spec(z) == x.mul_spec(z).add_spec(y.mul_spec(z)) by {
        assert(((x + y) as i8 * z) as i8 == ((x * z) as i8 + (y * z) as i8) as i8) by (bit_vector);
    }
    assert forall|x: i8, y: i8| #[trigger] x.sub_spec(y) == x.add_spec(y.neg_spec()) by {
        assert((x - y) as i8 == (x + (-y) as i8) as i8) by (bit_vector);
    }
    assert forall|x: i8| #[trigger] x.add_spec(x.neg_spec()) == 0i8 by {
        assert((x + (-x) as i8) as i8 == 0i8) by (bit_vector);
    }
}

} // verus!
