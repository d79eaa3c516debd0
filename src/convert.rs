//! Conversions to and from tuples, arrays and sequences, and the textual
//! form `Vector3(x, y, z)`.
use crate::{Vector3, Vector3Coordinate};
use vstd::prelude::*;
use vstd::string::*;

verus! {

broadcast use Vector3::lemma_from_view;

impl<T: Vector3Coordinate> From<(T, T, T)> for Vector3<T> {
    fn from(value: (T, T, T)) -> Self {
        Vector3::new(value.0, value.1, value.2)
    }
}

impl<T: Vector3Coordinate> vstd::std_specs::convert::FromSpecImpl<(T, T, T)> for Vector3<T> {
    open spec fn obeys_from_spec() -> bool {
        true
    }

    open spec fn from_spec(v: (T, T, T)) -> Vector3<T> {
        Vector3::from_view(v)
    }
}

impl<T: Vector3Coordinate> From<Vector3<T>> for (T, T, T) {
    fn from(value: Vector3<T>) -> Self {
        (value.get_x(), value.get_y(), value.get_z())
    }
}

impl<T: Vector3Coordinate> vstd::std_specs::convert::FromSpecImpl<Vector3<T>> for (T, T, T) {
    open spec fn obeys_from_spec() -> bool {
        true
    }

    open spec fn from_spec(v: Vector3<T>) -> (T, T, T) {
        v@
    }
}

impl<T: Vector3Coordinate> From<[T; 3]> for Vector3<T> {
    fn from(value: [T; 3]) -> Self {
        Vector3::new(value[0], value[1], value[2])
    }
}

impl<T: Vector3Coordinate> vstd::std_specs::convert::FromSpecImpl<[T; 3]> for Vector3<T> {
    open spec fn obeys_from_spec() -> bool {
        true
    }

    open spec fn from_spec(v: [T; 3]) -> Vector3<T> {
        Vector3::from_view((v@[0], v@[1], v@[2]))
    }
}

impl<T: Vector3Coordinate> From<Vector3<T>> for [T; 3] {
    fn from(value: Vector3<T>) -> Self {
        [value.get_x(), value.get_y(), value.get_z()]
    }
}

impl<T: Vector3Coordinate> vstd::std_specs::convert::FromSpecImpl<Vector3<T>> for [T; 3] {
    open spec fn obeys_from_spec() -> bool {
        true
    }

    open spec fn from_spec(v: Vector3<T>) -> [T; 3] {
        [v@.0, v@.1, v@.2]
    }
}

/// Relies on std::num::ParseFloatError, the error of parsing a floating-point
/// literal; carried through unchanged.
#[verifier::external_type_specification]
#[verifier::external_body]
pub struct ExParseFloatError(core::num::ParseFloatError);

/// Why a vector could not be built from text or from a sequence.
#[derive(Debug)]
pub enum ParseVector3Error {
    /// A coordinate field is not a valid number.
    ParseNumberError(core::num::ParseFloatError),
    /// The text is not of the form `Vector3(x, y, z)`.
    InvalidFormat,
    /// The sequence holds fewer than three values.
    InvalidVec,
}

/// The vector made of the first three values of `v`, or `InvalidVec` when
/// there are fewer than three.
pub open spec fn vector_of_seq<T: Vector3Coordinate>(v: Seq<T>) -> Result<Vector3<T>, ParseVector3Error> {
    if v.len() >= 3 {
        Ok(Vector3::from_view((v[0], v[1], v[2])))
    } else {
        Err(ParseVector3Error::InvalidVec)
    }
}

impl<T: Vector3Coordinate> TryFrom<Vec<T>> for Vector3<T> {
    type Error = ParseVector3Error;

    fn try_from(value: Vec<T>) -> Result<Self, Self::Error> {
        if value.len() < 3 {
            return Err(ParseVector3Error::InvalidVec);
        }
        Ok(Vector3::new(value[0], value[1], value[2]))
    }
}

impl<T: Vector3Coordinate> vstd::std_specs::convert::TryFromSpecImpl<Vec<T>> for Vector3<T> {
    open spec fn obeys_try_from_spec() -> bool {
        true
    }

    open spec fn try_from_spec(v: Vec<T>) -> Result<Vector3<T>, ParseVector3Error> {
        vector_of_seq(v@)
    }
}

/// Builds a vector from the three coordinates that were read from text, in
/// order; the first coordinate that could not be read gives the error.
pub fn from_parsed_fields<T: Vector3Coordinate>(
    x: Result<T, core::num::ParseFloatError>,
    y: Result<T, core::num::ParseFloatError>,
    z: Result<T, core::num::ParseFloatError>,
) -> (r: Result<Vector3<T>, ParseVector3Error>)
    ensures
        r == match (x, y, z) {
            (Ok(a), Ok(b), Ok(c)) => Ok(Vector3::from_view((a, b, c))),
            (Err(e), _, _) => Err(ParseVector3Error::ParseNumberError(e)),
            (Ok(_), Err(e), _) => Err(ParseVector3Error::ParseNumberError(e)),
            (Ok(_), Ok(_), Err(e)) => Err(ParseVector3Error::ParseNumberError(e)),
        },
{
    match (x, y, z) {
        (Ok(a), Ok(b), Ok(c)) => Ok(Vector3::new(a, b, c)),
        (Err(e), _, _) => Err(ParseVector3Error::ParseNumberError(e)),
        (Ok(_), Err(e), _) => Err(ParseVector3Error::ParseNumberError(e)),
        (Ok(_), Ok(_), Err(e)) => Err(ParseVector3Error::ParseNumberError(e)),
    }
}

} // verus!
