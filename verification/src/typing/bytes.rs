//! A type unifier for native byte buffer types.

use vstd::prelude::*;
use vstd::slice::slice_to_vec;
use crate::error::{Error, Shape};
use crate::typing::{AnyValue, Val};

verus! {

/// A type unifier for byte vectors.
#[derive(Debug, Clone, PartialEq, Eq)]
pub struct Bytes {
    /// The wrapped value
    pub inner: Vec<u8>,
}

impl View for Bytes {
    type V = Seq<u8>;

    open spec fn view(&self) -> Seq<u8> {
        self.inner@
    }
}

impl Bytes {
    /// Wraps a native byte vector.
    pub fn new(value: Vec<u8>) -> (r: Bytes)
        ensures
            r@ == value@,
    {
        Bytes { inner: value }
    }

    /// Copies a byte slice into a new unifier.
    pub fn from_slice(value: &[u8]) -> (r: Bytes)
        ensures
            r@ == value@,
    {
        Bytes { inner: slice_to_vec(value) }
    }

    /// The number of bytes held.
    pub fn len(&self) -> (r: usize)
        ensures
            r == self@.len(),
    {
        self.inner.len()
    }

    /// Borrows the wrapped bytes.
    pub fn as_slice(&self) -> (r: &[u8])
        ensures
            r@ == self@,
    {
        self.inner.as_slice()
    }

    /// Appends one byte.
    pub fn push(&mut self, value: u8)
        ensures
            final(self)@ == old(self)@.push(value),
    {
        self.inner.push(value);
    }

    /// Replaces the wrapped bytes.
    pub fn set(&mut self, value: Vec<u8>)
        ensures
            final(self)@ == value@,
    {
        self.inner = value;
    }

    /// Unwraps into the native byte vector.
    pub fn into_vec(self) -> (r: Vec<u8>)
        ensures
            r@ == self@,
    {
        self.inner
    }

    /// Wraps this byte buffer into a dynamic value.
    pub fn into_value(self) -> (r: AnyValue)
        ensures
            r@ == Val::Bytes(self@),
    {
        AnyValue::Bytes(self)
    }

    /// Extracts a byte buffer from a dynamic value; any other kind of
    /// value is a type error.
    pub fn try_from_value(value: AnyValue) -> (r: Result<Bytes, Error>)
        ensures
            match r {
                Ok(b) => value@ == Val::Bytes(b@),
                Err(e) => {
                    &&& !(value@ is Bytes)
                    &&& e == Error::type_error_spec(Shape::Bytes, value@.kind())
                },
            },
    {
        match value {
            AnyValue::Bytes(b) => Ok(b),
            other => Err(Error::type_error(Shape::Bytes, other.kind())),
        }
    }
}

} // verus!
