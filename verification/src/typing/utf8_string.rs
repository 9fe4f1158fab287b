//! A type unifier for UTF-8 string like native types.

use vstd::prelude::*;
use crate::error::{Error, Shape, ValueKind};
use crate::typing::{AnyValue, Val};

verus! {

/// A type unifier for UTF-8 string types.
#[derive(Debug, Clone, PartialEq, Eq)]
pub struct Utf8String {
    /// The wrapped value
    pub inner: String,
}

impl View for Utf8String {
    type V = Seq<char>;

    open spec fn view(&self) -> Seq<char> {
        self.inner@
    }
}

/// Relies on String::from for char: the resulting string holds exactly
/// the one given character.
#[verifier::external_body]
fn char_to_string(c: char) -> (r: String)
    ensures
        r@ == seq![c],
{
    String::from(c)
}

impl Utf8String {
    /// Wraps a native string.
    pub fn new(value: String) -> (r: Utf8String)
        ensures
            r@ == value@,
    {
        Utf8String { inner: value }
    }

    /// Copies a string slice into a new unifier.
    pub fn from_str(value: &str) -> (r: Utf8String)
        ensures
            r@ == value@,
    {
        Utf8String { inner: String::from_str(value) }
    }

    /// Builds a one-character string from a native character.
    pub fn from_char(value: char) -> (r: Utf8String)
        ensures
            r@ == seq![value],
    {
        Utf8String { inner: char_to_string(value) }
    }

    /// Borrows the wrapped string.
    pub fn as_str(&self) -> (r: &str)
        ensures
            r@ == self@,
    {
        self.inner.as_str()
    }

    /// Replaces the wrapped string.
    pub fn set(&mut self, value: String)
        ensures
            final(self)@ == value@,
    {
        self.inner = value;
    }

    /// Unwraps into the native string.
    pub fn into_string(self) -> (r: String)
        ensures
            r@ == self@,
    {
        self.inner
    }

    /// Converts to a single character; the string must hold exactly one,
    /// else the conversion is a type error.
    pub fn to_char(&self) -> (r: Result<char, Error>)
        ensures
            r is Ok <==> self@.len() == 1,
            r matches Ok(c) ==> self@ == seq![c],
            r matches Err(e) ==> e == Error::type_error_spec(
                Shape::Char,
                ValueKind::Utf8String,
            ),
    {
        let s = self.inner.as_str();
        if s.unicode_len() == 1 {
            let c = s.get_char(0);
            proof {
                assert(self@ =~= seq![c]);
            }
            Ok(c)
        } else {
            Err(Error::type_error(Shape::Char, ValueKind::Utf8String))
        }
    }

    /// Wraps this string into a dynamic value.
    pub fn into_value(self) -> (r: AnyValue)
        ensures
            r@ == Val::Str(self@),
    {
        AnyValue::Utf8String(self)
    }

    /// Extracts a string from a dynamic value; any other kind of value is
    /// a type error.
    pub fn try_from_value(value: AnyValue) -> (r: Result<Utf8String, Error>)
        ensures
            match r {
                Ok(s) => value@ == Val::Str(s@),
                Err(e) => {
                    &&& !(value@ is Str)
                    &&& e == Error::type_error_spec(Shape::Str, value@.kind())
                },
            },
    {
        match value {
            AnyValue::Utf8String(s) => Ok(s),
            other => Err(Error::type_error(Shape::Str, other.kind())),
        }
    }
}

} // verus!
