//! A three-component vector over a numeric coordinate type.
//!
//! Every operation is stated over a triple of coordinates, the vector's view,
//! and over vstd's specifications of the coordinate type's operators. Where
//! those specifications are exact (the primitive integer types), the contracts
//! pin every result down.
use vstd::prelude::*;
use vstd::std_specs::cmp::*;
use vstd::std_specs::ops::*;

mod convert;
mod interpolate;
pub mod laws;
mod ops;
mod text;

pub use convert::{from_parsed_fields, vector_of_seq, ParseVector3Error};
pub use text::{
    comma_count, comma_free, format_fields, framed_text, inner_of, is_framed, opening, separator,
    split_fields, splits_into,
};
pub use interpolate::{lerp_of, lerp_req, Lerp};

verus! {

/// The numeric types a [`Vector3`] can hold: copyable values with the four
/// arithmetic operators, a partial order and a textual rendering.
pub trait Vector3Coordinate:
    Copy
    + PartialOrd
    + core::ops::Add<Output = Self>
    + core::ops::Sub<Output = Self>
    + core::ops::Mul<Output = Self>
    + core::ops::Div<Output = Self>
    + core::fmt::Display
    + core::fmt::Debug {

}

impl<T> Vector3Coordinate for T where
    T: Copy
    + PartialOrd
    + core::ops::Add<Output = T>
    + core::ops::Sub<Output = T>
    + core::ops::Mul<Output = T>
    + core::ops::Div<Output = T>
    + core::fmt::Display
    + core::fmt::Debug,
 {

}

/// Holds when the coordinate type's operators and comparisons compute what
/// vstd specifies of them; true of every primitive integer type.
pub open spec fn exact_coordinates<T: Vector3Coordinate>() -> bool {
    &&& T::obeys_add_spec()
    &&& T::obeys_sub_spec()
    &&& T::obeys_mul_spec()
    &&& T::obeys_div_spec()
    &&& T::obeys_partial_cmp_spec()
}

/// The dot product of two coordinate triples.
pub open spec fn dot_of<T: Vector3Coordinate>(a: (T, T, T), b: (T, T, T)) -> T {
    a.0.mul_spec(b.0).add_spec(a.1.mul_spec(b.1)).add_spec(a.2.mul_spec(b.2))
}

/// The products and sums of [`dot_of`] stay within the coordinate type.
pub open spec fn dot_req<T: Vector3Coordinate>(a: (T, T, T), b: (T, T, T)) -> bool {
    &&& a.0.mul_req(b.0)
    &&& a.1.mul_req(b.1)
    &&& a.2.mul_req(b.2)
    &&& a.0.mul_spec(b.0).add_req(a.1.mul_spec(b.1))
    &&& a.0.mul_spec(b.0).add_spec(a.1.mul_spec(b.1)).add_req(a.2.mul_spec(b.2))
}

/// One coordinate of a cross product: `p * q - r * s`.
pub open spec fn det_of<T: Vector3Coordinate>(p: T, q: T, r: T, s: T) -> T {
    p.mul_spec(q).sub_spec(r.mul_spec(s))
}

/// The operations of [`det_of`] stay within the coordinate type.
pub open spec fn det_req<T: Vector3Coordinate>(p: T, q: T, r: T, s: T) -> bool {
    &&& p.mul_req(q)
    &&& r.mul_req(s)
    &&& p.mul_spec(q).sub_req(r.mul_spec(s))
}

/// The right-handed cross product of two coordinate triples.
pub open spec fn cross_of<T: Vector3Coordinate>(a: (T, T, T), b: (T, T, T)) -> (T, T, T) {
    (det_of(a.1, b.2, a.2, b.1), det_of(a.2, b.0, a.0, b.2), det_of(a.0, b.1, a.1, b.0))
}

/// The operations of [`cross_of`] stay within the coordinate type.
pub open spec fn cross_req<T: Vector3Coordinate>(a: (T, T, T), b: (T, T, T)) -> bool {
    &&& det_req(a.1, b.2, a.2, b.1)
    &&& det_req(a.2, b.0, a.0, b.2)
    &&& det_req(a.0, b.1, a.1, b.0)
}

/// The larger of two coordinates; `b` unless `a` is greater.
pub open spec fn max_coord<T: Vector3Coordinate>(a: T, b: T) -> T {
    if a.is_gt(&b) {
        a
    } else {
        b
    }
}

/// The smaller of two coordinates; `b` unless `a` is less.
pub open spec fn min_coord<T: Vector3Coordinate>(a: T, b: T) -> T {
    if a.is_lt(&b) {
        a
    } else {
        b
    }
}

/// The distance between two coordinates: the larger minus the smaller.
pub open spec fn distance_of<T: Vector3Coordinate>(a: T, b: T) -> T {
    if a.is_gt(&b) {
        a.sub_spec(b)
    } else {
        b.sub_spec(a)
    }
}

/// The subtraction of [`distance_of`] stays within the coordinate type.
pub open spec fn distance_req<T: Vector3Coordinate>(a: T, b: T) -> bool {
    if a.is_gt(&b) {
        a.sub_req(b)
    } else {
        b.sub_req(a)
    }
}

/// Each coordinate of `a` lies within `epsilon` of the same coordinate of `b`.
pub open spec fn fuzzy_equal_of<T: Vector3Coordinate>(a: (T, T, T), b: (T, T, T), epsilon: T) -> bool {
    &&& distance_of(a.0, b.0).is_le(&epsilon)
    &&& distance_of(a.1, b.1).is_le(&epsilon)
    &&& distance_of(a.2, b.2).is_le(&epsilon)
}

/// The larger of two coordinates minus the smaller.
fn distance<T: Vector3Coordinate>(a: T, b: T) -> (r: T)
    requires
        exact_coordinates::<T>(),
        distance_req(a, b),
    ensures
        r == distance_of(a, b),
{
    if a > b {
        a - b
    } else {
        b - a
    }
}

/// Relies on rand::random, which draws a value of the standard distribution
/// of `T` from the thread-local generator. Nothing is known of the value.
pub assume_specification<T>[ rand::random::<T> ]() -> T
    where
        rand::distributions::Standard: rand::distributions::Distribution<T>,
;

/// A vector in 3D space.
#[derive(Debug, PartialOrd, PartialEq, Default, Clone, Copy)]
pub struct Vector3<T: Vector3Coordinate> {
    x: T,
    y: T,
    z: T,
}

impl<T: Vector3Coordinate> View for Vector3<T> {
    type V = (T, T, T);

    closed spec fn view(&self) -> (T, T, T) {
        (self.x, self.y, self.z)
    }
}

impl<T: Vector3Coordinate> Vector3<T> {
    /// The vector whose view is `v`.
    pub closed spec fn from_view(v: (T, T, T)) -> Vector3<T> {
        Vector3 { x: v.0, y: v.1, z: v.2 }
    }

    /// Building a vector from a triple and viewing it gives the triple back.
    pub broadcast proof fn lemma_from_view(v: (T, T, T))
        ensures
            #[trigger] Self::from_view(v)@ == v,
    {
    }

    /// Creates a new vector with the given coordinates.
    pub fn new(x: T, y: T, z: T) -> (r: Self)
        ensures
            r@ == (x, y, z),
    {
        Vector3 { x, y, z }
    }

    /// Computes the dot product between this vector and another vector.
    pub fn dot(&self, target: &Self) -> (r: T)
        requires
            exact_coordinates::<T>(),
            dot_req(self@, target@),
        ensures
            r == dot_of(self@, target@),
    {
        self.x * target.x + self.y * target.y + self.z * target.z
    }

    /// Computes the cross product between this vector and another vector.
    pub fn cross(&self, target: &Self) -> (r: Self)
        requires
            exact_coordinates::<T>(),
            cross_req(self@, target@),
        ensures
            r@ == cross_of(self@, target@),
    {
        Vector3 {
            x: self.y * target.z - self.z * target.y,
            y: self.z * target.x - self.x * target.z,
            z: self.x * target.y - self.y * target.x,
        }
    }

    /// Computes the component-wise maximum of this vector and another vector.
    pub fn max(&self, target: &Self) -> (r: Self)
        ensures
            T::obeys_partial_cmp_spec() ==> r@ == (
                max_coord(self@.0, target@.0),
                max_coord(self@.1, target@.1),
                max_coord(self@.2, target@.2),
            ),
    {
        let x = if self.x > target.x { self.x } else { target.x };
        let y = if self.y > target.y { self.y } else { target.y };
        let z = if self.z > target.z { self.z } else { target.z };
        Vector3 { x, y, z }
    }

    /// Computes the component-wise minimum of this vector and another vector.
    pub fn min(&self, target: &Self) -> (r: Self)
        ensures
            T::obeys_partial_cmp_spec() ==> r@ == (
                min_coord(self@.0, target@.0),
                min_coord(self@.1, target@.1),
                min_coord(self@.2, target@.2),
            ),
    {
        let x = if self.x < target.x { self.x } else { target.x };
        let y = if self.y < target.y { self.y } else { target.y };
        let z = if self.z < target.z { self.z } else { target.z };
        Vector3 { x, y, z }
    }

    /// Linearly interpolates between this vector and `target` by `alpha`,
    /// coordinate by coordinate.
    pub fn lerp(&self, target: &Self, alpha: T) -> (r: Self)
        requires
            exact_coordinates::<T>(),
            lerp_req(self@.0, target@.0, alpha),
            lerp_req(self@.1, target@.1, alpha),
            lerp_req(self@.2, target@.2, alpha),
        ensures
            r@ == (
                lerp_of(self@.0, target@.0, alpha),
                lerp_of(self@.1, target@.1, alpha),
                lerp_of(self@.2, target@.2, alpha),
            ),
    {
        Vector3 {
            x: self.x.lerp(target.x, alpha),
            y: self.y.lerp(target.y, alpha),
            z: self.z.lerp(target.z, alpha),
        }
    }

    /// Checks that every coordinate of this vector lies within `epsilon` of
    /// the same coordinate of `target`.
    pub fn fuzzy_equal(&self, target: &Self, epsilon: T) -> (r: bool)
        requires
            exact_coordinates::<T>(),
            distance_req(self@.0, target@.0),
            distance_req(self@.1, target@.1),
            distance_req(self@.2, target@.2),
        ensures
            r == fuzzy_equal_of(self@, target@, epsilon),
    {
        distance(self.x, target.x) <= epsilon && distance(self.y, target.y) <= epsilon
            && distance(self.z, target.z) <= epsilon
    }

    /// Draws a vector whose coordinates are independent samples of the
    /// standard distribution of `T` (uniform over `[0, 1)` for floating-point
    /// types).
    pub fn random() -> Self where
        rand::distributions::Standard: rand::distributions::Distribution<T>,
     {
        Vector3 { x: rand::random(), y: rand::random(), z: rand::random() }
    }

    /// Retrieves the X component of the vector.
    pub fn get_x(&self) -> (r: T)
        ensures
            r == self@.0,
    {
        self.x
    }

    /// Retrieves the Y component of the vector.
    pub fn get_y(&self) -> (r: T)
        ensures
            r == self@.1,
    {
        self.y
    }

    /// Retrieves the Z component of the vector.
    pub fn get_z(&self) -> (r: T)
        ensures
            r == self@.2,
    {
        self.z
    }
}

} // verus!
