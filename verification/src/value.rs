//! The typed runtime values carried by ports, with checked narrowing.
//!
//! Numeric payloads are stored as IEEE 754 single-precision bit patterns
//! (`u32`), so the core never computes on floating point itself; the GUI
//! layer converts to and from `f32` at the boundary. The all-zero pattern
//! is the bit pattern of `0.0`.

use vstd::prelude::*;
use crate::data_type::MyDataType;

verus! {

/// A 2-D vector payload: the bit patterns of its two components.
#[derive(Clone, Copy, Debug, PartialEq, Eq, Structural)]
pub struct Vec2Data {
    pub x: u32,
    pub y: u32,
}

/// A runtime value held by an input port, tagged with its type.
/// The tag must always match the owning port's declared `MyDataType`.
#[derive(Clone, Copy, Debug, PartialEq, Eq, Structural)]
pub enum MyValueType {
    Vec2 { value: Vec2Data },
    Scalar { value: u32 },
}

/// The failure raised when a narrowing cast requests a variant that
/// does not match the stored tag.
#[derive(Clone, Copy, Debug, PartialEq, Eq, Structural)]
pub struct TypeMismatch {
    pub expected: MyDataType,
    pub actual: MyDataType,
}

/// The type tag of a value.
pub open spec fn tag_of(v: MyValueType) -> MyDataType {
    match v {
        MyValueType::Vec2 { .. } => MyDataType::Vec2,
        MyValueType::Scalar { .. } => MyDataType::Scalar,
    }
}

impl MyValueType {
    /// What `try_to_scalar` returns: the payload if the tag is `Scalar`,
    /// else the mismatch of expected and actual kind.
    pub open spec fn try_to_scalar_spec(self) -> Result<u32, TypeMismatch> {
        match self {
            MyValueType::Scalar { value } => Result::Ok(value),
            MyValueType::Vec2 { .. } => Result::Err(
                TypeMismatch { expected: MyDataType::Scalar, actual: MyDataType::Vec2 },
            ),
        }
    }

    /// What `try_to_vec2` returns: the payload if the tag is `Vec2`,
    /// else the mismatch of expected and actual kind.
    pub open spec fn try_to_vec2_spec(self) -> Result<Vec2Data, TypeMismatch> {
        match self {
            MyValueType::Vec2 { value } => Result::Ok(value),
            MyValueType::Scalar { .. } => Result::Err(
                TypeMismatch { expected: MyDataType::Vec2, actual: MyDataType::Scalar },
            ),
        }
    }

    /// The type tag of this value.
    pub fn tag(&self) -> (d: MyDataType)
        ensures
            d == tag_of(*self),
    {
        match self {
            MyValueType::Vec2 { .. } => MyDataType::Vec2,
            MyValueType::Scalar { .. } => MyDataType::Scalar,
        }
    }

    /// Narrow to the vector payload; consumes the value.
    pub fn try_to_vec2(self) -> (r: Result<Vec2Data, TypeMismatch>)
        ensures
            r == self.try_to_vec2_spec(),
    {
        if let MyValueType::Vec2 { value } = self {
            Ok(value)
        } else {
            Err(TypeMismatch { expected: MyDataType::Vec2, actual: self.tag() })
        }
    }

    /// Narrow to the scalar payload; consumes the value.
    pub fn try_to_scalar(self) -> (r: Result<u32, TypeMismatch>)
        ensures
            r == self.try_to_scalar_spec(),
    {
        if let MyValueType::Scalar { value } = self {
            Ok(value)
        } else {
            Err(TypeMismatch { expected: MyDataType::Scalar, actual: self.tag() })
        }
    }
}

/// Narrowing round trip: a value narrows successfully to the variant of
/// its own tag and yields its payload unchanged, and fails on the other
/// variant with a `TypeMismatch` naming both kinds.
pub proof fn lemma_narrowing_round_trip(x: u32, v: Vec2Data)
    ensures
        (MyValueType::Scalar { value: x }).try_to_scalar_spec() == Result::<u32, TypeMismatch>::Ok(x),
        (MyValueType::Scalar { value: x }).try_to_vec2_spec() == Result::<Vec2Data, TypeMismatch>::Err(
            TypeMismatch { expected: MyDataType::Vec2, actual: MyDataType::Scalar },
        ),
        (MyValueType::Vec2 { value: v }).try_to_vec2_spec() == Result::<Vec2Data, TypeMismatch>::Ok(v),
        (MyValueType::Vec2 { value: v }).try_to_scalar_spec() == Result::<u32, TypeMismatch>::Err(
            TypeMismatch { expected: MyDataType::Scalar, actual: MyDataType::Vec2 },
        ),
{
}

} // verus!
