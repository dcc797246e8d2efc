//! The model of engine-native values and of typed result extraction.
//!
//! A settled request hands back a native value; the caller names the shape
//! it expects and the extraction either yields the value unchanged or
//! surfaces an `UnexpectedType` error carrying the expected shape and the
//! offending value.

use vstd::prelude::*;

use crate::error::Error;

verus! {

/// A scalar engine value: what a single record stores.
#[derive(Debug, PartialEq, Eq)]
pub enum ScalarValue {
    Undefined,
    Null,
    Bool(bool),
    Int(u64),
    Text(String),
    /// A structured record with a single numeric identifier field,
    /// enough to exercise typed conversion of structured values.
    Record { id: u64 },
}

impl Clone for ScalarValue {
    fn clone(&self) -> (r: Self)
        ensures
            r == *self,
    {
        match self {
            ScalarValue::Undefined => ScalarValue::Undefined,
            ScalarValue::Null => ScalarValue::Null,
            ScalarValue::Bool(b) => ScalarValue::Bool(*b),
            ScalarValue::Int(n) => ScalarValue::Int(*n),
            ScalarValue::Text(s) => ScalarValue::Text(s.clone()),
            ScalarValue::Record { id } => ScalarValue::Record { id: *id },
        }
    }
}

/// An engine value as carried by a settlement notification: either a single
/// scalar or an array of scalars (the shape of a batched read result).
#[derive(Debug, PartialEq, Eq)]
pub enum NativeValue {
    Scalar(ScalarValue),
    Array(Vec<ScalarValue>),
}

/// The shape a caller expects from a settled request.
#[derive(Clone, Copy, Debug, PartialEq, Eq, Structural)]
pub enum ValueKind {
    Undefined,
    Null,
    Bool,
    Int,
    Text,
    Record,
    Array,
    /// Accepts every native value.
    Any,
}

/// The shape of a native value.
pub open spec fn kind_of(v: NativeValue) -> ValueKind {
    match v {
        NativeValue::Scalar(s) => match s {
            ScalarValue::Undefined => ValueKind::Undefined,
            ScalarValue::Null => ValueKind::Null,
            ScalarValue::Bool(_) => ValueKind::Bool,
            ScalarValue::Int(_) => ValueKind::Int,
            ScalarValue::Text(_) => ValueKind::Text,
            ScalarValue::Record { .. } => ValueKind::Record,
        },
        NativeValue::Array(_) => ValueKind::Array,
    }
}

/// Whether a native value satisfies an expected shape.
pub open spec fn kind_matches(expected: ValueKind, v: NativeValue) -> bool {
    expected == ValueKind::Any || kind_of(v) == expected
}

/// Computes the shape of a native value.
pub fn kind_of_value(v: &NativeValue) -> (k: ValueKind)
    ensures
        k == kind_of(*v),
{
    match v {
        NativeValue::Scalar(s) => match s {
            ScalarValue::Undefined => ValueKind::Undefined,
            ScalarValue::Null => ValueKind::Null,
            ScalarValue::Bool(_) => ValueKind::Bool,
            ScalarValue::Int(_) => ValueKind::Int,
            ScalarValue::Text(_) => ValueKind::Text,
            ScalarValue::Record { .. } => ValueKind::Record,
        },
        NativeValue::Array(_) => ValueKind::Array,
    }
}

/// Typed result extraction: yields the value itself when it has the
/// expected shape, and otherwise an `UnexpectedType` error carrying the
/// expected shape and the offending value.
pub fn convert(value: NativeValue, expected: ValueKind) -> (r: Result<NativeValue, Error>)
    ensures
        kind_matches(expected, value) ==> r == Ok::<NativeValue, Error>(value),
        !kind_matches(expected, value) ==> r == Err::<NativeValue, Error>(
            Error::UnexpectedType { expected, value },
        ),
{
    let k = kind_of_value(&value);
    if expected == ValueKind::Any || k == expected {
        Ok(value)
    } else {
        Err(Error::UnexpectedType { expected, value })
    }
}

/// Unpacks an array value into the vector of its elements; a value of any
/// other shape is rejected as `UnexpectedType`.
pub fn array_to_vec(array: NativeValue) -> (r: Result<Vec<ScalarValue>, Error>)
    ensures
        array matches NativeValue::Array(items) ==> r == Ok::<Vec<ScalarValue>, Error>(items),
        array !is Array ==> r == Err::<Vec<ScalarValue>, Error>(
            Error::UnexpectedType { expected: ValueKind::Array, value: array },
        ),
{
    match array {
        NativeValue::Array(items) => Ok(items),
        other => Err(Error::UnexpectedType { expected: ValueKind::Array, value: other }),
    }
}

} // verus!
