use crate::traits::Float;
use vstd::prelude::*;
use vstd::std_specs::ops::DivSpec;
use vstd::std_specs::ops::MulSpec;

verus! {

/// An angle in degrees as radians: `angle * PI / STRAIGHT`, the product
/// first.
pub open spec fn radian_spec<T: Float>(angle: T) -> T {
    angle.mul_spec(T::PI).div_spec(T::STRAIGHT)
}

/// An angle in radians as degrees: `angle * STRAIGHT / PI`, the product
/// first.
pub open spec fn degree_spec<T: Float>(angle: T) -> T {
    angle.mul_spec(T::STRAIGHT).div_spec(T::PI)
}

/// Converts an angle in degrees to radians.
pub fn radian<T: Float>(angle: T) -> (r: T)
    ensures
        r == radian_spec(angle),
{
    proof {
        T::arithmetic_is_total();
    }
    angle * T::PI / T::STRAIGHT
}

/// Converts an angle in radians to degrees.
pub fn degree<T: Float>(angle: T) -> (d: T)
    ensures
        d == degree_spec(angle),
{
    proof {
        T::arithmetic_is_total();
    }
    angle * T::STRAIGHT / T::PI
}

} // verus!
