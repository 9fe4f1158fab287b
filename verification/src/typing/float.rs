//! A type unifier for float like native types.
//!
//! The unifier holds the 64-bit pattern of the float and defines a total
//! order over all patterns, NaN included: patterns with the sign bit clear
//! are ordered by their magnitude bits, and patterns with the sign bit set
//! are ordered below them, by falling magnitude. This is the canonical
//! ordering of the model and intentionally diverges from native
//! floating-point comparison.

use vstd::prelude::*;
use crate::error::{Error, Shape};
use crate::order::{Cmp, cmp_int};
use crate::typing::{AnyValue, Val};

verus! {

/// A type unifier for floats, held as the 64-bit pattern of the value.
#[derive(Debug, Clone, Copy, PartialEq, Eq, Structural)]
pub struct Float {
    /// The 64-bit pattern of the wrapped value
    pub bits: u64,
}

impl View for Float {
    type V = u64;

    open spec fn view(&self) -> u64 {
        self.bits
    }
}

/// The total-order key of a float pattern. Patterns without the sign bit
/// keep their magnitude; patterns with the sign bit map to negative keys
/// in reverse magnitude order, so that plain integer comparison of keys
/// yields the canonical total order.
pub open spec fn float_key(bits: u64) -> int {
    if bits < 0x8000_0000_0000_0000u64 {
        bits as int
    } else {
        -1 - (bits - 0x8000_0000_0000_0000u64)
    }
}

impl Float {
    /// Wraps the 64-bit pattern of a float.
    pub fn from_bits(bits: u64) -> (r: Float)
        ensures
            r@ == bits,
    {
        Float { bits }
    }

    /// Reads the wrapped pattern.
    pub fn to_bits(&self) -> (r: u64)
        ensures
            r == self@,
    {
        self.bits
    }

    /// Replaces the wrapped pattern.
    pub fn set_bits(&mut self, bits: u64)
        ensures
            final(self)@ == bits,
    {
        self.bits = bits;
    }

    /// Compares two floats under the canonical total order.
    pub fn total_cmp(&self, other: &Float) -> (r: Cmp)
        ensures
            r == cmp_int(float_key(self@), float_key(other@)),
    {
        let a = self.bits;
        let b = other.bits;
        let a_neg = a >= 0x8000_0000_0000_0000u64;
        let b_neg = b >= 0x8000_0000_0000_0000u64;
        if a_neg && b_neg {
            if a < b {
                Cmp::Gt
            } else if a == b {
                Cmp::Eq
            } else {
                Cmp::Lt
            }
        } else if a_neg {
            Cmp::Lt
        } else if b_neg {
            Cmp::Gt
        } else {
            if a < b {
                Cmp::Lt
            } else if a == b {
                Cmp::Eq
            } else {
                Cmp::Gt
            }
        }
    }

    /// Wraps this float into a dynamic value.
    pub fn into_value(self) -> (r: AnyValue)
        ensures
            r@ == Val::Float(self@),
    {
        AnyValue::Float(self)
    }

    /// Extracts a float from a dynamic value; any other kind of value is
    /// a type error.
    pub fn try_from_value(value: AnyValue) -> (r: Result<Float, Error>)
        ensures
            match r {
                Ok(f) => value@ == Val::Float(f@),
                Err(e) => {
                    &&& !(value@ is Float)
                    &&& e == Error::type_error_spec(Shape::Float, value@.kind())
                },
            },
    {
        match value {
            AnyValue::Float(f) => Ok(f),
            other => Err(Error::type_error(Shape::Float, other.kind())),
        }
    }
}

} // verus!
