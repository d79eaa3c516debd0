//! Component-wise arithmetic: the operators `+`, `-`, `*` and `/` between
//! vectors and by a scalar, and their in-place counterparts.
use crate::{Vector3, Vector3Coordinate};
use vstd::prelude::*;
use vstd::std_specs::ops::{AddSpec, DivSpec, MulSpec, SubSpec};

verus! {

broadcast use Vector3::lemma_from_view;

impl<T: Vector3Coordinate> core::ops::Add<Vector3<T>> for Vector3<T> {
    type Output = Self;

    fn add(self, rhs: Vector3<T>) -> Self::Output {
        Vector3::new(self.get_x() + rhs.get_x(), self.get_y() + rhs.get_y(), self.get_z() + rhs.get_z())
    }
}

impl<T: Vector3Coordinate> vstd::std_specs::ops::AddSpecImpl<Vector3<T>> for Vector3<T> {
    open spec fn obeys_add_spec() -> bool {
        T::obeys_add_spec()
    }

    open spec fn add_req(self, rhs: Vector3<T>) -> bool {
        &&& self@.0.add_req(rhs@.0)
        &&& self@.1.add_req(rhs@.1)
        &&& self@.2.add_req(rhs@.2)
    }

    open spec fn add_spec(self, rhs: Vector3<T>) -> Vector3<T> {
        Vector3::from_view(
            (self@.0.add_spec(rhs@.0), self@.1.add_spec(rhs@.1), self@.2.add_spec(rhs@.2)),
        )
    }
}

impl<T: Vector3Coordinate> core::ops::Sub<Vector3<T>> for Vector3<T> {
    type Output = Self;

    fn sub(self, rhs: Vector3<T>) -> Self::Output {
        Vector3::new(self.get_x() - rhs.get_x(), self.get_y() - rhs.get_y(), self.get_z() - rhs.get_z())
    }
}

impl<T: Vector3Coordinate> vstd::std_specs::ops::SubSpecImpl<Vector3<T>> for Vector3<T> {
    open spec fn obeys_sub_spec() -> bool {
        T::obeys_sub_spec()
    }

    open spec fn sub_req(self, rhs: Vector3<T>) -> bool {
        &&& self@.0.sub_req(rhs@.0)
        &&& self@.1.sub_req(rhs@.1)
        &&& self@.2.sub_req(rhs@.2)
    }

    open spec fn sub_spec(self, rhs: Vector3<T>) -> Vector3<T> {
        Vector3::from_view(
            (self@.0.sub_spec(rhs@.0), self@.1.sub_spec(rhs@.1), self@.2.sub_spec(rhs@.2)),
        )
    }
}

/// Uniform scaling by a scalar.
impl<T: Vector3Coordinate> core::ops::Mul<T> for Vector3<T> {
    type Output = Self;

    fn mul(self, rhs: T) -> Self::Output {
        Vector3::new(self.get_x() * rhs, self.get_y() * rhs, self.get_z() * rhs)
    }
}

impl<T: Vector3Coordinate> vstd::std_specs::ops::MulSpecImpl<T> for Vector3<T> {
    open spec fn obeys_mul_spec() -> bool {
        T::obeys_mul_spec()
    }

    open spec fn mul_req(self, rhs: T) -> bool {
        &&& self@.0.mul_req(rhs)
        &&& self@.1.mul_req(rhs)
        &&& self@.2.mul_req(rhs)
    }

    open spec fn mul_spec(self, rhs: T) -> Vector3<T> {
        Vector3::from_view((self@.0.mul_spec(rhs), self@.1.mul_spec(rhs), self@.2.mul_spec(rhs)))
    }
}

/// The component-wise (Hadamard) product.
impl<T: Vector3Coordinate> core::ops::Mul<Vector3<T>> for Vector3<T> {
    type Output = Self;

    fn mul(self, rhs: Vector3<T>) -> Self::Output {
        Vector3::new(self.get_x() * rhs.get_x(), self.get_y() * rhs.get_y(), self.get_z() * rhs.get_z())
    }
}

impl<T: Vector3Coordinate> vstd::std_specs::ops::MulSpecImpl<Vector3<T>> for Vector3<T> {
    open spec fn obeys_mul_spec() -> bool {
        T::obeys_mul_spec()
    }

    open spec fn mul_req(self, rhs: Vector3<T>) -> bool {
        &&& self@.0.mul_req(rhs@.0)
        &&& self@.1.mul_req(rhs@.1)
        &&& self@.2.mul_req(rhs@.2)
    }

    open spec fn mul_spec(self, rhs: Vector3<T>) -> Vector3<T> {
        Vector3::from_view(
            (self@.0.mul_spec(rhs@.0), self@.1.mul_spec(rhs@.1), self@.2.mul_spec(rhs@.2)),
        )
    }
}

/// Division of every coordinate by a scalar.
impl<T: Vector3Coordinate> core::ops::Div<T> for Vector3<T> {
    type Output = Self;

    fn div(self, rhs: T) -> Self::Output {
        Vector3::new(self.get_x() / rhs, self.get_y() / rhs, self.get_z() / rhs)
    }
}

impl<T: Vector3Coordinate> vstd::std_specs::ops::DivSpecImpl<T> for Vector3<T> {
    open spec fn obeys_div_spec() -> bool {
        T::obeys_div_spec()
    }

    open spec fn div_req(self, rhs: T) -> bool {
        &&& self@.0.div_req(rhs)
        &&& self@.1.div_req(rhs)
        &&& self@.2.div_req(rhs)
    }

    open spec fn div_spec(self, rhs: T) -> Vector3<T> {
        Vector3::from_view((self@.0.div_spec(rhs), self@.1.div_spec(rhs), self@.2.div_spec(rhs)))
    }
}

/// Component-wise division.
impl<T: Vector3Coordinate> core::ops::Div<Vector3<T>> for Vector3<T> {
    type Output = Self;

    fn div(self, rhs: Vector3<T>) -> Self::Output {
        Vector3::new(self.get_x() / rhs.get_x(), self.get_y() / rhs.get_y(), self.get_z() / rhs.get_z())
    }
}

impl<T: Vector3Coordinate> vstd::std_specs::ops::DivSpecImpl<Vector3<T>> for Vector3<T> {
    open spec fn obeys_div_spec() -> bool {
        T::obeys_div_spec()
    }

    open spec fn div_req(self, rhs: Vector3<T>) -> bool {
        &&& self@.0.div_req(rhs@.0)
        &&& self@.1.div_req(rhs@.1)
        &&& self@.2.div_req(rhs@.2)
    }

    open spec fn div_spec(self, rhs: Vector3<T>) -> Vector3<T> {
        Vector3::from_view(
            (self@.0.div_spec(rhs@.0), self@.1.div_spec(rhs@.1), self@.2.div_spec(rhs@.2)),
        )
    }
}

impl<T: Vector3Coordinate> Vector3<T> {
    /// Adds `rhs` to this vector in place.
    pub fn add_assign(&mut self, rhs: Vector3<T>)
        requires
            old(self).add_req(rhs),
        ensures
            T::obeys_add_spec() ==> *final(self) == old(self).add_spec(rhs),
    {
        *self = *self + rhs;
    }

    /// Subtracts `rhs` from this vector in place.
    pub fn sub_assign(&mut self, rhs: Vector3<T>)
        requires
            old(self).sub_req(rhs),
        ensures
            T::obeys_sub_spec() ==> *final(self) == old(self).sub_spec(rhs),
    {
        *self = *self - rhs;
    }

    /// Scales this vector by `rhs` in place.
    pub fn mul_assign(&mut self, rhs: T)
        requires
            old(self).mul_req(rhs),
        ensures
            T::obeys_mul_spec() ==> *final(self) == old(self).mul_spec(rhs),
    {
        *self = *self * rhs;
    }

    /// Multiplies this vector by `rhs` component-wise, in place.
    pub fn mul_assign_vector(&mut self, rhs: Vector3<T>)
        requires
            old(self).mul_req(rhs),
        ensures
            T::obeys_mul_spec() ==> *final(self) == old(self).mul_spec(rhs),
    {
        *self = *self * rhs;
    }

    /// Divides every coordinate of this vector by `rhs`, in place.
    pub fn div_assign(&mut self, rhs: T)
        requires
            old(self).div_req(rhs),
        ensures
            T::obeys_div_spec() ==> *final(self) == old(self).div_spec(rhs),
    {
        *self = *self / rhs;
    }

    /// Divides this vector by `rhs` component-wise, in place.
    pub fn div_assign_vector(&mut self, rhs: Vector3<T>)
        requires
            old(self).div_req(rhs),
        ensures
            T::obeys_div_spec() ==> *final(self) == old(self).div_spec(rhs),
    {
        *self = *self / rhs;
    }
}

} // verus!
