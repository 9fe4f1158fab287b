//! A simplified dynamic type model: a self-describing value tree with a
//! total order over all values, plus push-based encoding and pull-based
//! decoding engines that bridge it to strongly typed data.

pub mod de;
pub mod error;
pub mod laws;
pub mod order;
pub mod ser;
pub mod typing;

pub use crate::typing::{
    AnyValue, Boolean, Bytes, Enumeration, Float, Integer, Sequence, Utf8String, ValueMap,
};
