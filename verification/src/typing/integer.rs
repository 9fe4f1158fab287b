//! A type unifier for integer like native types.
//!
//! One logical domain spans the full unsigned and signed 128-bit ranges as
//! two tagged sub-ranges. Converting into a fixed-width target is range
//! checked and fails rather than truncating.

use vstd::prelude::*;
use crate::error::{Error, Shape, ValueKind};
use crate::typing::{AnyValue, Val};

verus! {

/// A type unifier for integers.
#[derive(Debug, Clone, Copy, PartialEq, Eq, Structural)]
pub enum Integer {
    /// An unsigned integer
    UnsignedInteger(u128),
    /// A signed integer
    SignedInteger(i128),
}

/// The tagged integer that unifying a native integer of value `value`
/// produces: non-negative values land in the unsigned sub-range,
/// negative ones in the signed sub-range.
pub open spec fn unify_int(value: int) -> Integer {
    if value >= 0 {
        Integer::UnsignedInteger(value as u128)
    } else {
        Integer::SignedInteger(value as i128)
    }
}

impl Integer {
    /// The numeric value of this integer.
    pub open spec fn as_int(self) -> int {
        match self {
            Integer::UnsignedInteger(v) => v as int,
            Integer::SignedInteger(v) => v as int,
        }
    }

    /// Wraps this integer into a dynamic value.
    pub fn into_value(self) -> (r: AnyValue)
        ensures
            r@ == Val::Int(self),
    {
        AnyValue::Integer(self)
    }

    /// Extracts an integer from a dynamic value; any other kind of value
    /// is a type error.
    pub fn try_from_value(value: AnyValue) -> (r: Result<Integer, Error>)
        ensures
            match r {
                Ok(i) => value@ == Val::Int(i),
                Err(e) => {
                    &&& !(value@ is Int)
                    &&& e == Error::type_error_spec(Shape::Integer, value@.kind())
                },
            },
    {
        match value {
            AnyValue::Integer(i) => Ok(i),
            other => Err(Error::type_error(Shape::Integer, other.kind())),
        }
    }
}

impl Default for Integer {
    /// The default integer is unsigned zero.
    fn default() -> (r: Integer)
        ensures
            r == Integer::UnsignedInteger(0u128),
    {
        Integer::UnsignedInteger(0)
    }
}

impl Integer {
    /// Unifies a native `u8`.
    pub fn from_u8(value: u8) -> (r: Integer)
        ensures
            r == Integer::UnsignedInteger(value as u128),
    {
        Integer::UnsignedInteger(value as u128)
    }

    /// Unifies a native `u16`.
    pub fn from_u16(value: u16) -> (r: Integer)
        ensures
            r == Integer::UnsignedInteger(value as u128),
    {
        Integer::UnsignedInteger(value as u128)
    }

    /// Unifies a native `u32`.
    pub fn from_u32(value: u32) -> (r: Integer)
        ensures
            r == Integer::UnsignedInteger(value as u128),
    {
        Integer::UnsignedInteger(value as u128)
    }

    /// Unifies a native `u64`.
    pub fn from_u64(value: u64) -> (r: Integer)
        ensures
            r == Integer::UnsignedInteger(value as u128),
    {
        Integer::UnsignedInteger(value as u128)
    }

    /// Unifies a native `u128`.
    pub fn from_u128(value: u128) -> (r: Integer)
        ensures
            r == Integer::UnsignedInteger(value as u128),
    {
        Integer::UnsignedInteger(value)
    }

    /// Unifies a native `usize`.
    pub fn from_usize(value: usize) -> (r: Integer)
        ensures
            r == Integer::UnsignedInteger(value as u128),
    {
        Integer::UnsignedInteger(value as u128)
    }

    /// Unifies a native `i8`; non-negative values land in the
    /// unsigned sub-range.
    pub fn from_i8(value: i8) -> (r: Integer)
        ensures
            r.as_int() == value as int,
            value >= 0 ==> r == Integer::UnsignedInteger(value as u128),
            value < 0 ==> r == Integer::SignedInteger(value as i128),
    {
        if value >= 0 {
            Integer::UnsignedInteger(value as u128)
        } else {
            Integer::SignedInteger(value as i128)
        }
    }

    /// Unifies a native `i16`; non-negative values land in the
    /// unsigned sub-range.
    pub fn from_i16(value: i16) -> (r: Integer)
        ensures
            r.as_int() == value as int,
            value >= 0 ==> r == Integer::UnsignedInteger(value as u128),
            value < 0 ==> r == Integer::SignedInteger(value as i128),
    {
        if value >= 0 {
            Integer::UnsignedInteger(value as u128)
        } else {
            Integer::SignedInteger(value as i128)
        }
    }

    /// Unifies a native `i32`; non-negative values land in the
    /// unsigned sub-range.
    pub fn from_i32(value: i32) -> (r: Integer)
        ensures
            r.as_int() == value as int,
            value >= 0 ==> r == Integer::UnsignedInteger(value as u128),
            value < 0 ==> r == Integer::SignedInteger(value as i128),
    {
        if value >= 0 {
            Integer::UnsignedInteger(value as u128)
        } else {
            Integer::SignedInteger(value as i128)
        }
    }

    /// Unifies a native `i64`; non-negative values land in the
    /// unsigned sub-range.
    pub fn from_i64(value: i64) -> (r: Integer)
        ensures
            r.as_int() == value as int,
            value >= 0 ==> r == Integer::UnsignedInteger(value as u128),
            value < 0 ==> r == Integer::SignedInteger(value as i128),
    {
        if value >= 0 {
            Integer::UnsignedInteger(value as u128)
        } else {
            Integer::SignedInteger(value as i128)
        }
    }

    /// Unifies a native `i128`; non-negative values land in the
    /// unsigned sub-range.
    pub fn from_i128(value: i128) -> (r: Integer)
        ensures
            r.as_int() == value as int,
            value >= 0 ==> r == Integer::UnsignedInteger(value as u128),
            value < 0 ==> r == Integer::SignedInteger(value as i128),
    {
        if value >= 0 {
            Integer::UnsignedInteger(value as u128)
        } else {
            Integer::SignedInteger(value)
        }
    }

    /// Unifies a native `isize`; non-negative values land in the
    /// unsigned sub-range.
    pub fn from_isize(value: isize) -> (r: Integer)
        ensures
            r.as_int() == value as int,
            value >= 0 ==> r == Integer::UnsignedInteger(value as u128),
            value < 0 ==> r == Integer::SignedInteger(value as i128),
    {
        if value >= 0 {
            Integer::UnsignedInteger(value as u128)
        } else {
            Integer::SignedInteger(value as i128)
        }
    }

    /// Converts to `u8`, failing with a type error when the value is
    /// out of range.
    pub fn to_u8(self) -> (r: Result<u8, Error>)
        ensures
            r is Ok <==> 0 <= self.as_int() <= u8::MAX,
            r matches Ok(n) ==> n as int == self.as_int(),
            r matches Err(e) ==> e == Error::type_error_spec(Shape::U8, ValueKind::Integer),
    {
        match self {
            Integer::UnsignedInteger(v) => {
                if v <= u8::MAX as u128 {
                    Ok(v as u8)
                } else {
                    Err(Error::type_error(Shape::U8, ValueKind::Integer))
                }
            },
            Integer::SignedInteger(v) => {
                if 0 <= v && v <= u8::MAX as i128 {
                    Ok(v as u8)
                } else {
                    Err(Error::type_error(Shape::U8, ValueKind::Integer))
                }
            },
        }
    }

    /// Converts to `u16`, failing with a type error when the value is
    /// out of range.
    pub fn to_u16(self) -> (r: Result<u16, Error>)
        ensures
            r is Ok <==> 0 <= self.as_int() <= u16::MAX,
            r matches Ok(n) ==> n as int == self.as_int(),
            r matches Err(e) ==> e == Error::type_error_spec(Shape::U16, ValueKind::Integer),
    {
        match self {
            Integer::UnsignedInteger(v) => {
                if v <= u16::MAX as u128 {
                    Ok(v as u16)
                } else {
                    Err(Error::type_error(Shape::U16, ValueKind::Integer))
                }
            },
            Integer::SignedInteger(v) => {
                if 0 <= v && v <= u16::MAX as i128 {
                    Ok(v as u16)
                } else {
                    Err(Error::type_error(Shape::U16, ValueKind::Integer))
                }
            },
        }
    }

    /// Converts to `u32`, failing with a type error when the value is
    /// out of range.
    pub fn to_u32(self) -> (r: Result<u32, Error>)
        ensures
            r is Ok <==> 0 <= self.as_int() <= u32::MAX,
            r matches Ok(n) ==> n as int == self.as_int(),
            r matches Err(e) ==> e == Error::type_error_spec(Shape::U32, ValueKind::Integer),
    {
        match self {
            Integer::UnsignedInteger(v) => {
                if v <= u32::MAX as u128 {
                    Ok(v as u32)
                } else {
                    Err(Error::type_error(Shape::U32, ValueKind::Integer))
                }
            },
            Integer::SignedInteger(v) => {
                if 0 <= v && v <= u32::MAX as i128 {
                    Ok(v as u32)
                } else {
                    Err(Error::type_error(Shape::U32, ValueKind::Integer))
                }
            },
        }
    }

    /// Converts to `u64`, failing with a type error when the value is
    /// out of range.
    pub fn to_u64(self) -> (r: Result<u64, Error>)
        ensures
            r is Ok <==> 0 <= self.as_int() <= u64::MAX,
            r matches Ok(n) ==> n as int == self.as_int(),
            r matches Err(e) ==> e == Error::type_error_spec(Shape::U64, ValueKind::Integer),
    {
        match self {
            Integer::UnsignedInteger(v) => {
                if v <= u64::MAX as u128 {
                    Ok(v as u64)
                } else {
                    Err(Error::type_error(Shape::U64, ValueKind::Integer))
                }
            },
            Integer::SignedInteger(v) => {
                if 0 <= v && v <= u64::MAX as i128 {
                    Ok(v as u64)
                } else {
                    Err(Error::type_error(Shape::U64, ValueKind::Integer))
                }
            },
        }
    }

    /// Converts to `u128`, failing with a type error when the value is
    /// out of range.
    pub fn to_u128(self) -> (r: Result<u128, Error>)
        ensures
            r is Ok <==> 0 <= self.as_int() <= u128::MAX,
            r matches Ok(n) ==> n as int == self.as_int(),
            r matches Err(e) ==> e == Error::type_error_spec(Shape::U128, ValueKind::Integer),
    {
        match self {
            Integer::UnsignedInteger(v) => Ok(v),
            Integer::SignedInteger(v) => {
                if 0 <= v {
                    Ok(v as u128)
                } else {
                    Err(Error::type_error(Shape::U128, ValueKind::Integer))
                }
            },
        }
    }

    /// Converts to `usize`, failing with a type error when the value is
    /// out of range.
    pub fn to_usize(self) -> (r: Result<usize, Error>)
        ensures
            r is Ok <==> 0 <= self.as_int() <= usize::MAX,
            r matches Ok(n) ==> n as int == self.as_int(),
            r matches Err(e) ==> e == Error::type_error_spec(Shape::Usize, ValueKind::Integer),
    {
        match self {
            Integer::UnsignedInteger(v) => {
                if v <= usize::MAX as u128 {
                    Ok(v as usize)
                } else {
                    Err(Error::type_error(Shape::Usize, ValueKind::Integer))
                }
            },
            Integer::SignedInteger(v) => {
                if 0 <= v && v <= usize::MAX as i128 {
                    Ok(v as usize)
                } else {
                    Err(Error::type_error(Shape::Usize, ValueKind::Integer))
                }
            },
        }
    }

    /// Converts to `i8`, failing with a type error when the value is
    /// out of range.
    pub fn to_i8(self) -> (r: Result<i8, Error>)
        ensures
            r is Ok <==> i8::MIN <= self.as_int() <= i8::MAX,
            r matches Ok(n) ==> n as int == self.as_int(),
            r matches Err(e) ==> e == Error::type_error_spec(Shape::I8, ValueKind::Integer),
    {
        match self {
            Integer::UnsignedInteger(v) => {
                if v <= i8::MAX as u128 {
                    Ok(v as i8)
                } else {
                    Err(Error::type_error(Shape::I8, ValueKind::Integer))
                }
            },
            Integer::SignedInteger(v) => {
                if i8::MIN as i128 <= v && v <= i8::MAX as i128 {
                    Ok(v as i8)
                } else {
                    Err(Error::type_error(Shape::I8, ValueKind::Integer))
                }
            },
        }
    }

    /// Converts to `i16`, failing with a type error when the value is
    /// out of range.
    pub fn to_i16(self) -> (r: Result<i16, Error>)
        ensures
            r is Ok <==> i16::MIN <= self.as_int() <= i16::MAX,
            r matches Ok(n) ==> n as int == self.as_int(),
            r matches Err(e) ==> e == Error::type_error_spec(Shape::I16, ValueKind::Integer),
    {
        match self {
            Integer::UnsignedInteger(v) => {
                if v <= i16::MAX as u128 {
                    Ok(v as i16)
                } else {
                    Err(Error::type_error(Shape::I16, ValueKind::Integer))
                }
            },
            Integer::SignedInteger(v) => {
                if i16::MIN as i128 <= v && v <= i16::MAX as i128 {
                    Ok(v as i16)
                } else {
                    Err(Error::type_error(Shape::I16, ValueKind::Integer))
                }
            },
        }
    }

    /// Converts to `i32`, failing with a type error when the value is
    /// out of range.
    pub fn to_i32(self) -> (r: Result<i32, Error>)
        ensures
            r is Ok <==> i32::MIN <= self.as_int() <= i32::MAX,
            r matches Ok(n) ==> n as int == self.as_int(),
            r matches Err(e) ==> e == Error::type_error_spec(Shape::I32, ValueKind::Integer),
    {
        match self {
            Integer::UnsignedInteger(v) => {
                if v <= i32::MAX as u128 {
                    Ok(v as i32)
                } else {
                    Err(Error::type_error(Shape::I32, ValueKind::Integer))
                }
            },
            Integer::SignedInteger(v) => {
                if i32::MIN as i128 <= v && v <= i32::MAX as i128 {
                    Ok(v as i32)
                } else {
                    Err(Error::type_error(Shape::I32, ValueKind::Integer))
                }
            },
        }
    }

    /// Converts to `i64`, failing with a type error when the value is
    /// out of range.
    pub fn to_i64(self) -> (r: Result<i64, Error>)
        ensures
            r is Ok <==> i64::MIN <= self.as_int() <= i64::MAX,
            r matches Ok(n) ==> n as int == self.as_int(),
            r matches Err(e) ==> e == Error::type_error_spec(Shape::I64, ValueKind::Integer),
    {
        match self {
            Integer::UnsignedInteger(v) => {
                if v <= i64::MAX as u128 {
                    Ok(v as i64)
                } else {
                    Err(Error::type_error(Shape::I64, ValueKind::Integer))
                }
            },
            Integer::SignedInteger(v) => {
                if i64::MIN as i128 <= v && v <= i64::MAX as i128 {
                    Ok(v as i64)
                } else {
                    Err(Error::type_error(Shape::I64, ValueKind::Integer))
                }
            },
        }
    }

    /// Converts to `i128`, failing with a type error when the value is
    /// out of range.
    pub fn to_i128(self) -> (r: Result<i128, Error>)
        ensures
            r is Ok <==> i128::MIN <= self.as_int() <= i128::MAX,
            r matches Ok(n) ==> n as int == self.as_int(),
            r matches Err(e) ==> e == Error::type_error_spec(Shape::I128, ValueKind::Integer),
    {
        match self {
            Integer::UnsignedInteger(v) => {
                if v <= i128::MAX as u128 {
                    Ok(v as i128)
                } else {
                    Err(Error::type_error(Shape::I128, ValueKind::Integer))
                }
            },
            Integer::SignedInteger(v) => Ok(v),
        }
    }

    /// Converts to `isize`, failing with a type error when the value is
    /// out of range.
    pub fn to_isize(self) -> (r: Result<isize, Error>)
        ensures
            r is Ok <==> isize::MIN <= self.as_int() <= isize::MAX,
            r matches Ok(n) ==> n as int == self.as_int(),
            r matches Err(e) ==> e == Error::type_error_spec(Shape::Isize, ValueKind::Integer),
    {
        match self {
            Integer::UnsignedInteger(v) => {
                if v <= isize::MAX as u128 {
                    Ok(v as isize)
                } else {
                    Err(Error::type_error(Shape::Isize, ValueKind::Integer))
                }
            },
            Integer::SignedInteger(v) => {
                if isize::MIN as i128 <= v && v <= isize::MAX as i128 {
                    Ok(v as isize)
                } else {
                    Err(Error::type_error(Shape::Isize, ValueKind::Integer))
                }
            },
        }
    }

}

} // verus!
