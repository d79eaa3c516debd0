//! Linear interpolation of a single coordinate.
use crate::{exact_coordinates, Vector3Coordinate};
use vstd::prelude::*;
use vstd::std_specs::ops::*;

verus! {

/// `a + (b - a) * alpha`: the point a fraction `alpha` of the way from `a` to `b`.
pub open spec fn lerp_of<T: Vector3Coordinate>(a: T, b: T, alpha: T) -> T {
    a.add_spec(b.sub_spec(a).mul_spec(alpha))
}

/// The operations of [`lerp_of`] stay within the coordinate type.
pub open spec fn lerp_req<T: Vector3Coordinate>(a: T, b: T, alpha: T) -> bool {
    &&& b.sub_req(a)
    &&& b.sub_spec(a).mul_req(alpha)
    &&& a.add_req(b.sub_spec(a).mul_spec(alpha))
}

/// Linear interpolation between two values.
pub trait Lerp<T> {
    /// When an interpolation from `self` towards `goal` can be computed.
    spec fn lerp_requires(&self, goal: T, alpha: T) -> bool;

    /// The value that interpolation from `self` towards `goal` yields.
    spec fn lerp_result(&self, goal: T, alpha: T) -> T;

    /// Performs linear interpolation between `self` and `goal` by `alpha`.
    ///
    /// An `alpha` of zero gives `self` and an `alpha` of one gives `goal`;
    /// values outside that range extrapolate.
    fn lerp(&self, goal: T, alpha: T) -> (r: T)
        requires
            self.lerp_requires(goal, alpha),
        ensures
            r == self.lerp_result(goal, alpha),
    ;
}

impl<T: Vector3Coordinate> Lerp<T> for T {
    open spec fn lerp_requires(&self, goal: T, alpha: T) -> bool {
        exact_coordinates::<T>() && lerp_req(*self, goal, alpha)
    }

    open spec fn lerp_result(&self, goal: T, alpha: T) -> T {
        lerp_of(*self, goal, alpha)
    }

    fn lerp(&self, goal: T, alpha: T) -> (r: T) {
        *self + (goal - *self) * alpha
    }
}

} // verus!
