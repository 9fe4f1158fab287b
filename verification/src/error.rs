//! Error taxonomy for conversions between dynamic values and typed data.
//!
//! Every failure carries its classification (an [`ErrorKind`]) together with
//! structured context: the shape that was requested and the kind of value
//! that was actually found, where those are meaningful.

use vstd::prelude::*;

verus! {

/// Classifies a conversion failure.
#[derive(Debug, Clone, Copy, PartialEq, Eq, Structural)]
pub enum ErrorKind {
    /// A failure raised by the external serialization protocol itself
    SerdeError,
    /// Invalid encoded data
    InvalidData,
    /// Failed to convert a value from/to the given type
    TypeError,
    /// A specified key does not exist
    NoSuchKey,
}

/// The shape a caller requested from a conversion.
#[derive(Debug, Clone, Copy, PartialEq, Eq, Structural)]
pub enum Shape {
    Bool,
    Integer,
    U8,
    U16,
    U32,
    U64,
    U128,
    Usize,
    I8,
    I16,
    I32,
    I64,
    I128,
    Isize,
    Float,
    Char,
    Str,
    Bytes,
    Sequence,
    Mapping,
    Enum,
    Unit,
    UnitVariant,
}

/// The kind of dynamic value that was actually present.
#[derive(Debug, Clone, Copy, PartialEq, Eq, Structural)]
pub enum ValueKind {
    Bool,
    Integer,
    Float,
    Utf8String,
    Bytes,
    Sequence,
    Mapping,
    Enum,
    Null,
}

/// A conversion error: a kind plus the requested and actual shapes,
/// where the failure has them.
#[derive(Debug, Clone, Copy, PartialEq, Eq)]
pub struct Error {
    /// What went wrong
    pub kind: ErrorKind,
    /// The shape the caller asked for, if the failure names one
    pub expected: Option<Shape>,
    /// The kind of value that was actually found, if the failure names one
    pub actual: Option<ValueKind>,
}

impl Error {
    /// The error raised when a value of kind `actual` cannot satisfy a
    /// request for shape `expected`.
    pub open spec fn type_error_spec(expected: Shape, actual: ValueKind) -> Error {
        Error { kind: ErrorKind::TypeError, expected: Some(expected), actual: Some(actual) }
    }

    /// The error raised when a structurally invalid payload is met.
    pub open spec fn invalid_data_spec() -> Error {
        Error { kind: ErrorKind::InvalidData, expected: None, actual: None }
    }

    /// The error raised when a map lookup finds no entry for the given key.
    pub open spec fn no_such_key_spec() -> Error {
        Error { kind: ErrorKind::NoSuchKey, expected: None, actual: None }
    }

    /// The error that stands for a failure of the external serialization
    /// protocol, passed through unchanged in classification.
    pub open spec fn serde_error_spec() -> Error {
        Error { kind: ErrorKind::SerdeError, expected: None, actual: None }
    }

    /// Builds a type error naming the requested and the actual shape.
    pub fn type_error(expected: Shape, actual: ValueKind) -> (r: Error)
        ensures
            r == Error::type_error_spec(expected, actual),
    {
        Error { kind: ErrorKind::TypeError, expected: Some(expected), actual: Some(actual) }
    }

    /// Builds an invalid-data error.
    pub fn invalid_data() -> (r: Error)
        ensures
            r == Error::invalid_data_spec(),
    {
        Error { kind: ErrorKind::InvalidData, expected: None, actual: None }
    }

    /// Builds a no-such-key error.
    pub fn no_such_key() -> (r: Error)
        ensures
            r == Error::no_such_key_spec(),
    {
        Error { kind: ErrorKind::NoSuchKey, expected: None, actual: None }
    }

    /// Builds a protocol-failure error.
    pub fn serde_error() -> (r: Error)
        ensures
            r == Error::serde_error_spec(),
    {
        Error { kind: ErrorKind::SerdeError, expected: None, actual: None }
    }
}

} // verus!
