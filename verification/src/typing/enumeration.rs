//! A type unifier for enumerations: a variant name together with a boxed
//! payload value.

use vstd::prelude::*;
use crate::error::{Error, Shape};
use crate::typing::{AnyValue, Val, Utf8String};

verus! {

/// A type unifier for enumerations.
#[derive(Debug, PartialEq, Eq)]
pub struct Enumeration {
    /// The enum variant
    pub variant: Utf8String,
    /// The associated value
    pub value: Box<AnyValue>,
}

impl View for Enumeration {
    type V = Val;

    open spec fn view(&self) -> Val {
        Val::Enum(self.variant@, Box::new((*self.value)@))
    }
}

impl Enumeration {
    /// Creates a new enum with the given variant and no associated value.
    pub fn new(variant: Utf8String) -> (r: Enumeration)
        ensures
            r@ == Val::Enum(variant@, Box::new(Val::Null)),
    {
        Enumeration { variant, value: Box::new(AnyValue::Null) }
    }

    /// Creates a new enum with the given variant and an associated value.
    pub fn with_value(variant: Utf8String, value: AnyValue) -> (r: Enumeration)
        ensures
            r@ == Val::Enum(variant@, Box::new(value@)),
    {
        Enumeration { variant, value: Box::new(value) }
    }

    /// The enum variant.
    pub fn variant(&self) -> (r: &Utf8String)
        ensures
            r@ == self.variant@,
    {
        &self.variant
    }

    /// Replaces the enum variant.
    pub fn set_variant(&mut self, variant: Utf8String)
        ensures
            final(self)@ == Val::Enum(variant@, Box::new((*old(self).value)@)),
    {
        self.variant = variant;
    }

    /// The associated value.
    pub fn value(&self) -> (r: &AnyValue)
        ensures
            r@ == (*self.value)@,
    {
        &self.value
    }

    /// Replaces the associated value.
    pub fn set_value(&mut self, value: AnyValue)
        ensures
            final(self)@ == Val::Enum(old(self).variant@, Box::new(value@)),
    {
        self.value = Box::new(value);
    }

    /// Returns the underlying variant and the associated value.
    pub fn into_inner(self) -> (r: (Utf8String, AnyValue))
        ensures
            self@ == Val::Enum(r.0@, Box::new(r.1@)),
    {
        (self.variant, *self.value)
    }

    /// Wraps this enumeration into a dynamic value.
    pub fn into_value(self) -> (r: AnyValue)
        ensures
            r@ == self@,
    {
        AnyValue::Enum(self)
    }

    /// Extracts an enumeration from a dynamic value; any other kind of
    /// value is a type error.
    pub fn try_from_value(value: AnyValue) -> (r: Result<Enumeration, Error>)
        ensures
            match r {
                Ok(e) => value@ == e@ && value@ is Enum,
                Err(e) => {
                    &&& !(value@ is Enum)
                    &&& e == Error::type_error_spec(Shape::Enum, value@.kind())
                },
            },
    {
        match value {
            AnyValue::Enum(e) => Ok(e),
            other => Err(Error::type_error(Shape::Enum, other.kind())),
        }
    }
}

} // verus!
