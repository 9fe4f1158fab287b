//! A type unifier for boolean like native types.

use vstd::prelude::*;
use crate::error::{Error, Shape};
use crate::typing::{AnyValue, Val};

verus! {

/// A type unifier for booleans.
#[derive(Debug, Clone, Copy, PartialEq, Eq, Structural)]
pub struct Boolean {
    /// The wrapped value
    pub inner: bool,
}

impl View for Boolean {
    type V = bool;

    open spec fn view(&self) -> bool {
        self.inner
    }
}

impl Boolean {
    /// Wraps a native boolean.
    pub fn new(value: bool) -> (r: Boolean)
        ensures
            r@ == value,
    {
        Boolean { inner: value }
    }

    /// Reads the wrapped value.
    pub fn get(&self) -> (r: bool)
        ensures
            r == self@,
    {
        self.inner
    }

    /// Replaces the wrapped value.
    pub fn set(&mut self, value: bool)
        ensures
            final(self)@ == value,
    {
        self.inner = value;
    }

    /// Wraps this boolean into a dynamic value.
    pub fn into_value(self) -> (r: AnyValue)
        ensures
            r@ == Val::Bool(self@),
    {
        AnyValue::Bool(self)
    }

    /// Extracts a boolean from a dynamic value; any other kind of value is
    /// a type error.
    pub fn try_from_value(value: AnyValue) -> (r: Result<Boolean, Error>)
        ensures
            match r {
                Ok(b) => value@ == Val::Bool(b@),
                Err(e) => {
                    &&& !(value@ is Bool)
                    &&& e == Error::type_error_spec(Shape::Bool, value@.kind())
                },
            },
    {
        match value {
            AnyValue::Bool(b) => Ok(b),
            other => Err(Error::type_error(Shape::Bool, other.kind())),
        }
    }
}

} // verus!
