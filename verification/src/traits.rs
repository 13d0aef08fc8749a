use std::ops::Add;
use std::ops::Div;
use std::ops::Mul;
use std::ops::Neg;
use std::ops::Sub;
use vstd::prelude::*;
use vstd::std_specs::cmp::PartialEqSpec;
use vstd::std_specs::cmp::PartialOrdSpec;
use vstd::std_specs::ops::AddSpec;
use vstd::std_specs::ops::DivSpec;
use vstd::std_specs::ops::MulSpec;
use vstd::std_specs::ops::NegSpec;
use vstd::std_specs::ops::SubSpec;

verus! {

/// A type with an additive identity.
///
/// For any value `a`, the zero `z` is meant to satisfy `z + a == a + z == a`
/// and `z * a == a * z == z`.
pub trait Zero: Copy {
    /// The additive identity, as a mathematical value. An implementation
    /// that is not verified may leave it out; nothing is then known of it.
    open spec fn zero_spec() -> Self {
        arbitrary()
    }

    /// Returns the additive identity.
    fn zero() -> (z: Self)
        ensures
            z == Self::zero_spec(),
    ;
}

/// A type with a multiplicative identity.
///
/// For any value `a`, the unit `i` is meant to satisfy `i * i == i` and
/// `i * a == a * i == a`.
pub trait UnitOne: Copy {
    /// The multiplicative identity, as a mathematical value. An
    /// implementation that is not verified may leave it out; nothing is then
    /// known of it.
    open spec fn unit_one_spec() -> Self {
        arbitrary()
    }

    /// Returns the multiplicative identity.
    fn unit_one() -> (i: Self)
        ensures
            i == Self::unit_one_spec(),
    ;
}

/// Addition on `T` is a function of its operands and never fails.
pub open spec fn add_total<T: Add<Output = T>>() -> bool {
    &&& T::obeys_add_spec()
    &&& forall|a: T, b: T| #[trigger] a.add_req(b)
}

/// Subtraction on `T` is a function of its operands and never fails.
pub open spec fn sub_total<T: Sub<Output = T>>() -> bool {
    &&& T::obeys_sub_spec()
    &&& forall|a: T, b: T| #[trigger] a.sub_req(b)
}

/// Multiplication on `T` is a function of its operands and never fails.
pub open spec fn mul_total<T: Mul<Output = T>>() -> bool {
    &&& T::obeys_mul_spec()
    &&& forall|a: T, b: T| #[trigger] a.mul_req(b)
}

/// Division on `T` is a function of its operands and never fails, whatever
/// the divisor.
pub open spec fn div_total<T: Div<Output = T>>() -> bool {
    &&& T::obeys_div_spec()
    &&& forall|a: T, b: T| #[trigger] a.div_req(b)
}

/// Division on `T` is a function of its operands and never fails as long as
/// the divisor does not compare equal to zero.
pub open spec fn div_total_nonzero<T: Div<Output = T> + Zero + PartialEq>() -> bool {
    &&& T::obeys_div_spec()
    &&& T::obeys_eq_spec()
    &&& forall|a: T, b: T| !b.eq_spec(&T::zero_spec()) ==> #[trigger] a.div_req(b)
}

/// Negation on `T` is a function of its operand and never fails.
pub open spec fn neg_total<T: Neg<Output = T>>() -> bool {
    &&& T::obeys_neg_spec()
    &&& forall|a: T| #[trigger] a.neg_req()
}

/// `x` compares equal to zero.
pub open spec fn is_zero<T: Zero + PartialEq>(x: T) -> bool {
    x.eq_spec(&T::zero_spec())
}

/// The operators that elimination uses return what their specifications
/// say: `==`, subtraction, multiplication and division.
pub open spec fn elimination_obeys<
    T: PartialEq + Sub<Output = T> + Mul<Output = T> + Div<Output = T>,
>() -> bool {
    &&& T::obeys_eq_spec()
    &&& T::obeys_sub_spec()
    &&& T::obeys_mul_spec()
    &&& T::obeys_div_spec()
}

/// Elimination never fails on matrices of `T`, whatever they hold: `==`
/// returns what its specification says, subtraction and multiplication
/// never fail, and neither does division by a value that does not compare
/// equal to zero.
pub open spec fn elimination_ready<
    T: Zero + PartialEq + Sub<Output = T> + Mul<Output = T> + Div<Output = T>,
>() -> bool {
    &&& sub_total::<T>()
    &&& mul_total::<T>()
    &&& div_total_nonzero::<T>()
}

/// The comparisons `<`, `<=`, `>` and `>=` on `T` return what the
/// specification of its order says.
pub open spec fn order_decided<T: PartialOrd>() -> bool {
    T::obeys_partial_cmp_spec()
}

/// A floating-point-like scalar: arithmetic that is defined on every pair of
/// operands, an order, the two identities, a few constants and the
/// elementary functions the transform builders need.
pub trait Float:
    Copy
    + Mul<Output = Self>
    + Div<Output = Self>
    + Neg<Output = Self>
    + Sub<Output = Self>
    + Add<Output = Self>
    + Zero
    + UnitOne
    + PartialOrd
{
    /// The ratio of a circle's circumference to its diameter.
    const PI: Self;

    /// The straight angle in degrees, that is 180.
    const STRAIGHT: Self;

    /// The distance between one and the next larger representable value.
    const EPSILON: Self;

    /// The sine of `self`, as a mathematical value: whatever the
    /// implementation computes, as a function of `self`.
    open spec fn sin_spec(self) -> Self {
        arbitrary()
    }

    /// The cosine of `self`, as a mathematical value: whatever the
    /// implementation computes, as a function of `self`.
    open spec fn cos_spec(self) -> Self {
        arbitrary()
    }

    /// The square root of `self`, as a mathematical value: whatever the
    /// implementation computes, as a function of `self`.
    open spec fn sqrt_spec(self) -> Self {
        arbitrary()
    }

    /// The absolute value of `self`, as a mathematical value: whatever the
    /// implementation computes, as a function of `self`.
    open spec fn abs_spec(self) -> Self {
        arbitrary()
    }

    /// The tangent of `self`, as a mathematical value: whatever the
    /// implementation computes, as a function of `self`.
    open spec fn tan_spec(self) -> Self {
        arbitrary()
    }

    /// Returns the sine of `self`.
    fn sin(self) -> (r: Self)
        ensures
            r == self.sin_spec(),
    ;

    /// Returns the cosine of `self`.
    fn cos(self) -> (r: Self)
        ensures
            r == self.cos_spec(),
    ;

    /// Returns the square root of `self`.
    fn sqrt(self) -> (r: Self)
        ensures
            r == self.sqrt_spec(),
    ;

    /// Returns the absolute value of `self`.
    fn abs(self) -> (r: Self)
        ensures
            r == self.abs_spec(),
    ;

    /// Returns the tangent of `self`.
    fn tan(self) -> (r: Self)
        ensures
            r == self.tan_spec(),
    ;

    /// Every arithmetic operator and comparison of a `Float` is defined on
    /// all operands and returns what its specification says.
    proof fn arithmetic_is_total()
        ensures
            add_total::<Self>(),
            sub_total::<Self>(),
            mul_total::<Self>(),
            div_total::<Self>(),
            neg_total::<Self>(),
            Self::obeys_eq_spec(),
            Self::obeys_partial_cmp_spec(),
    ;
}

impl Zero for i8 {
    open spec fn zero_spec() -> i8 {
        0i8
    }

    fn zero() -> (z: i8) {
        0i8
    }
}

impl UnitOne for i8 {
    open spec fn unit_one_spec() -> i8 {
        1i8
    }

    fn unit_one() -> (i: i8) {
        1i8
    }
}

impl Zero for u8 {
    open spec fn zero_spec() -> u8 {
        0u8
    }

    fn zero() -> (z: u8) {
        0u8
    }
}

impl UnitOne for u8 {
    open spec fn unit_one_spec() -> u8 {
        1u8
    }

    fn unit_one() -> (i: u8) {
        1u8
    }
}

impl Zero for i16 {
    open spec fn zero_spec() -> i16 {
        0i16
    }

    fn zero() -> (z: i16) {
        0i16
    }
}

impl UnitOne for i16 {
    open spec fn unit_one_spec() -> i16 {
        1i16
    }

    fn unit_one() -> (i: i16) {
        1i16
    }
}

impl Zero for u16 {
    open spec fn zero_spec() -> u16 {
        0u16
    }

    fn zero() -> (z: u16) {
        0u16
    }
}

impl UnitOne for u16 {
    open spec fn unit_one_spec() -> u16 {
        1u16
    }

    fn unit_one() -> (i: u16) {
        1u16
    }
}

impl Zero for i32 {
    open spec fn zero_spec() -> i32 {
        0i32
    }

    fn zero() -> (z: i32) {
        0i32
    }
}

impl UnitOne for i32 {
    open spec fn unit_one_spec() -> i32 {
        1i32
    }

    fn unit_one() -> (i: i32) {
        1i32
    }
}

impl Zero for u32 {
    open spec fn zero_spec() -> u32 {
        0u32
    }

    fn zero() -> (z: u32) {
        0u32
    }
}

impl UnitOne for u32 {
    open spec fn unit_one_spec() -> u32 {
        1u32
    }

    fn unit_one() -> (i: u32) {
        1u32
    }
}

impl Zero for i64 {
    open spec fn zero_spec() -> i64 {
        0i64
    }

    fn zero() -> (z: i64) {
        0i64
    }
}

impl UnitOne for i64 {
    open spec fn unit_one_spec() -> i64 {
        1i64
    }

    fn unit_one() -> (i: i64) {
        1i64
    }
}

impl Zero for u64 {
    open spec fn zero_spec() -> u64 {
        0u64
    }

    fn zero() -> (z: u64) {
        0u64
    }
}

impl UnitOne for u64 {
    open spec fn unit_one_spec() -> u64 {
        1u64
    }

    fn unit_one() -> (i: u64) {
        1u64
    }
}

impl Zero for i128 {
    open spec fn zero_spec() -> i128 {
        0i128
    }

    fn zero() -> (z: i128) {
        0i128
    }
}

impl UnitOne for i128 {
    open spec fn unit_one_spec() -> i128 {
        1i128
    }

    fn unit_one() -> (i: i128) {
        1i128
    }
}

impl Zero for u128 {
    open spec fn zero_spec() -> u128 {
        0u128
    }

    fn zero() -> (z: u128) {
        0u128
    }
}

impl UnitOne for u128 {
    open spec fn unit_one_spec() -> u128 {
        1u128
    }

    fn unit_one() -> (i: u128) {
        1u128
    }
}

impl Zero for isize {
    open spec fn zero_spec() -> isize {
        0isize
    }

    fn zero() -> (z: isize) {
        0isize
    }
}

impl UnitOne for isize {
    open spec fn unit_one_spec() -> isize {
        1isize
    }

    fn unit_one() -> (i: isize) {
        1isize
    }
}

impl Zero for usize {
    open spec fn zero_spec() -> usize {
        0usize
    }

    fn zero() -> (z: usize) {
        0usize
    }
}

impl UnitOne for usize {
    open spec fn unit_one_spec() -> usize {
        1usize
    }

    fn unit_one() -> (i: usize) {
        1usize
    }
}

} // verus!
