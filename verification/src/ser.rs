//! The push-based encoding engine: builders that accumulate typed data
//! into a dynamic value tree.
//!
//! Scalar operations are leaf calls that return the mapped dynamic value
//! directly. Composite operations return a writer that accumulates
//! children in call order and finalizes on an explicit end call. A writer
//! carries a completion tag: a plain writer hands the finished container
//! back as it is, while a variant writer wraps it into an enumeration
//! carrying the variant name.

use vstd::prelude::*;
use crate::typing::integer::unify_int;
use crate::typing::{
    AnyValue, Boolean, Bytes, Enumeration, Float, Integer, Sequence, Utf8String, Val, ValueMap,
};
use crate::typing::map::{spec_insert, entries_sorted};

verus! {

/// What an end call does with a finished container: hand it back, or
/// wrap it into an enumeration carrying a variant name.
#[derive(Debug)]
pub enum Completion {
    Plain,
    Variant(Utf8String),
}

impl View for Completion {
    type V = Option<Seq<char>>;

    open spec fn view(&self) -> Option<Seq<char>> {
        match self {
            Completion::Plain => None,
            Completion::Variant(name) => Some(name@),
        }
    }
}

/// The value an end call produces from the finished container `v` under
/// completion `c`.
pub open spec fn complete(c: Option<Seq<char>>, v: Val) -> Val {
    match c {
        None => v,
        Some(name) => Val::Enum(name, Box::new(v)),
    }
}

/// A sequence writer: accumulates elements in call order.
#[derive(Debug)]
pub struct SequenceWriter {
    /// The elements written so far
    pub values: Sequence,
    /// What finalizing does with the finished sequence
    pub on_end: Completion,
}

impl SequenceWriter {
    /// Creates a writer whose end call hands the sequence back.
    pub fn new() -> (r: SequenceWriter)
        ensures
            r.values@ == Seq::<Val>::empty(),
            r.on_end@ is None,
    {
        SequenceWriter { values: Sequence::empty(), on_end: Completion::Plain }
    }

    /// Creates a writer whose end call wraps the finished sequence into
    /// an enumeration carrying `variant`.
    pub fn with_completion(variant: Utf8String) -> (r: SequenceWriter)
        ensures
            r.values@ == Seq::<Val>::empty(),
            r.on_end@ == Some(variant@),
    {
        SequenceWriter { values: Sequence::empty(), on_end: Completion::Variant(variant) }
    }

    /// Appends the next element.
    pub fn serialize_element(&mut self, value: AnyValue)
        ensures
            final(self).values@ == old(self).values@.push(value@),
            final(self).on_end == old(self).on_end,
    {
        self.values.push(value);
    }

    /// Finalizes the sequence, applying the completion.
    pub fn end(self) -> (r: AnyValue)
        ensures
            r@ == complete(self.on_end@, Val::Sequence(self.values@)),
    {
        let list = self.values.into_value();
        match self.on_end {
            Completion::Plain => list,
            Completion::Variant(name) => Enumeration::with_value(name, list).into_value(),
        }
    }
}

/// A key-value writer: accumulates entries in call order, a key push
/// followed by exactly one value push, into a canonical map.
#[derive(Debug)]
pub struct KeyValueWriter {
    /// The pending key to insert
    pub pending_key: Option<AnyValue>,
    /// The map written so far
    pub map: ValueMap,
    /// What finalizing does with the finished map
    pub on_end: Completion,
}

impl KeyValueWriter {
    /// The writer's invariant: the accumulated map is canonical.
    pub open spec fn wf(&self) -> bool {
        entries_sorted(self.map@)
    }

    /// Creates a writer whose end call hands the map back.
    pub fn new() -> (r: KeyValueWriter)
        ensures
            r.pending_key is None,
            r.map@ == Seq::<(Val, Val)>::empty(),
            r.on_end@ is None,
            r.wf(),
    {
        KeyValueWriter { pending_key: None, map: ValueMap::new(), on_end: Completion::Plain }
    }

    /// Creates a writer whose end call wraps the finished map into an
    /// enumeration carrying `variant`.
    pub fn with_completion(variant: Utf8String) -> (r: KeyValueWriter)
        ensures
            r.pending_key is None,
            r.map@ == Seq::<(Val, Val)>::empty(),
            r.on_end@ == Some(variant@),
            r.wf(),
    {
        KeyValueWriter {
            pending_key: None,
            map: ValueMap::new(),
            on_end: Completion::Variant(variant),
        }
    }

    /// Writes the next key. A key may only be written once the previous
    /// key has received its value: violating that pairing is a calling
    /// contract defect, not a data error.
    pub fn serialize_key(&mut self, key: AnyValue)
        requires
            old(self).pending_key is None,
        ensures
            final(self).pending_key == Some(key),
            final(self).map == old(self).map,
            final(self).on_end == old(self).on_end,
    {
        self.pending_key = Some(key);
    }

    /// Writes the value for the pending key, binding the pair in the map;
    /// an equal key is overwritten, so the last write wins. A value needs
    /// a pending key: calling without one is a calling contract defect.
    pub fn serialize_value(&mut self, value: AnyValue)
        requires
            old(self).pending_key is Some,
            old(self).wf(),
        ensures
            final(self).pending_key is None,
            final(self).map@ == spec_insert(
                old(self).map@,
                old(self).pending_key->0@,
                value@,
            ),
            final(self).on_end == old(self).on_end,
            final(self).wf(),
    {
        let key = self.pending_key.take().unwrap();
        self.map.insert(key, value);
    }

    /// Writes one named field: a key push immediately followed by its
    /// value push.
    pub fn serialize_field(&mut self, key: &str, value: AnyValue)
        requires
            old(self).pending_key is None,
            old(self).wf(),
        ensures
            final(self).pending_key is None,
            final(self).map@ == spec_insert(old(self).map@, Val::Str(key@), value@),
            final(self).on_end == old(self).on_end,
            final(self).wf(),
    {
        self.serialize_key(Utf8String::from_str(key).into_value());
        self.serialize_value(value);
    }

    /// Finalizes the map, applying the completion. A dangling key that
    /// never received a value is dropped.
    pub fn end(self) -> (r: AnyValue)
        ensures
            r@ == complete(self.on_end@, Val::Mapping(self.map@)),
    {
        let map = self.map.into_value();
        match self.on_end {
            Completion::Plain => map,
            Completion::Variant(name) => Enumeration::with_value(name, map).into_value(),
        }
    }
}

/// The encoding engine: one start operation per shape family. Scalar
/// operations return the mapped dynamic value directly; composite
/// operations return the matching writer.
#[derive(Debug)]
pub struct Serializer;

impl Serializer {
    /// Creates a new serializer instance.
    pub fn new() -> (r: Serializer)
        ensures
            r == Serializer,
    {
        Serializer
    }

    /// Encodes a boolean.
    pub fn serialize_bool(self, value: bool) -> (r: AnyValue)
        ensures
            r@ == Val::Bool(value),
    {
        Boolean::new(value).into_value()
    }

    /// Encodes a signed 8-bit integer through the unified domain.
    pub fn serialize_i8(self, value: i8) -> (r: AnyValue)
        ensures
            r@ == Val::Int(unify_int(value as int)),
    {
        Integer::from_i8(value).into_value()
    }

    /// Encodes a signed 16-bit integer through the unified domain.
    pub fn serialize_i16(self, value: i16) -> (r: AnyValue)
        ensures
            r@ == Val::Int(unify_int(value as int)),
    {
        Integer::from_i16(value).into_value()
    }

    /// Encodes a signed 32-bit integer through the unified domain.
    pub fn serialize_i32(self, value: i32) -> (r: AnyValue)
        ensures
            r@ == Val::Int(unify_int(value as int)),
    {
        Integer::from_i32(value).into_value()
    }

    /// Encodes a signed 64-bit integer through the unified domain.
    pub fn serialize_i64(self, value: i64) -> (r: AnyValue)
        ensures
            r@ == Val::Int(unify_int(value as int)),
    {
        Integer::from_i64(value).into_value()
    }

    /// Encodes a signed 128-bit integer through the unified domain.
    pub fn serialize_i128(self, value: i128) -> (r: AnyValue)
        ensures
            r@ == Val::Int(unify_int(value as int)),
    {
        Integer::from_i128(value).into_value()
    }

    /// Encodes an unsigned 8-bit integer through the unified domain.
    pub fn serialize_u8(self, value: u8) -> (r: AnyValue)
        ensures
            r@ == Val::Int(unify_int(value as int)),
    {
        Integer::from_u8(value).into_value()
    }

    /// Encodes an unsigned 16-bit integer through the unified domain.
    pub fn serialize_u16(self, value: u16) -> (r: AnyValue)
        ensures
            r@ == Val::Int(unify_int(value as int)),
    {
        Integer::from_u16(value).into_value()
    }

    /// Encodes an unsigned 32-bit integer through the unified domain.
    pub fn serialize_u32(self, value: u32) -> (r: AnyValue)
        ensures
            r@ == Val::Int(unify_int(value as int)),
    {
        Integer::from_u32(value).into_value()
    }

    /// Encodes an unsigned 64-bit integer through the unified domain.
    pub fn serialize_u64(self, value: u64) -> (r: AnyValue)
        ensures
            r@ == Val::Int(unify_int(value as int)),
    {
        Integer::from_u64(value).into_value()
    }

    /// Encodes an unsigned 128-bit integer through the unified domain.
    pub fn serialize_u128(self, value: u128) -> (r: AnyValue)
        ensures
            r@ == Val::Int(unify_int(value as int)),
    {
        Integer::from_u128(value).into_value()
    }

    /// Encodes a float given as its 64-bit pattern.
    pub fn serialize_float_bits(self, bits: u64) -> (r: AnyValue)
        ensures
            r@ == Val::Float(bits),
    {
        Float::from_bits(bits).into_value()
    }

    /// Encodes a character as a one-character string.
    pub fn serialize_char(self, value: char) -> (r: AnyValue)
        ensures
            r@ == Val::Str(seq![value]),
    {
        Utf8String::from_char(value).into_value()
    }

    /// Encodes a string.
    pub fn serialize_str(self, value: &str) -> (r: AnyValue)
        ensures
            r@ == Val::Str(value@),
    {
        Utf8String::from_str(value).into_value()
    }

    /// Encodes a byte buffer.
    pub fn serialize_bytes(self, value: &[u8]) -> (r: AnyValue)
        ensures
            r@ == Val::Bytes(value@),
    {
        Bytes::from_slice(value).into_value()
    }

    /// Encodes an absent optional.
    pub fn serialize_none(self) -> (r: AnyValue)
        ensures
            r@ == Val::Null,
    {
        AnyValue::Null
    }

    /// Encodes a present optional: the wrapped value stands as it is.
    pub fn serialize_some(self, value: AnyValue) -> (r: AnyValue)
        ensures
            r@ == value@,
    {
        value
    }

    /// Encodes a unit.
    pub fn serialize_unit(self) -> (r: AnyValue)
        ensures
            r@ == Val::Null,
    {
        AnyValue::Null
    }

    /// Encodes a unit struct.
    pub fn serialize_unit_struct(self, _name: &str) -> (r: AnyValue)
        ensures
            r@ == Val::Null,
    {
        AnyValue::Null
    }

    /// Encodes a unit enum variant.
    pub fn serialize_unit_variant(self, variant: &str) -> (r: AnyValue)
        ensures
            r@ == Val::Enum(variant@, Box::new(Val::Null)),
    {
        Enumeration::new(Utf8String::from_str(variant)).into_value()
    }

    /// Encodes a newtype struct: the wrapped value stands as it is.
    pub fn serialize_newtype_struct(self, _name: &str, value: AnyValue) -> (r: AnyValue)
        ensures
            r@ == value@,
    {
        value
    }

    /// Encodes a newtype enum variant: the wrapped value verbatim, inside
    /// an enumeration carrying the variant name.
    pub fn serialize_newtype_variant(self, variant: &str, value: AnyValue) -> (r: AnyValue)
        ensures
            r@ == Val::Enum(variant@, Box::new(value@)),
    {
        Enumeration::with_value(Utf8String::from_str(variant), value).into_value()
    }

    /// Starts a sequence.
    pub fn serialize_seq(self, _len: Option<usize>) -> (r: SequenceWriter)
        ensures
            r.values@ == Seq::<Val>::empty(),
            r.on_end@ is None,
    {
        SequenceWriter::new()
    }

    /// Starts a tuple, encoded as a sequence of its positional fields.
    pub fn serialize_tuple(self, len: usize) -> (r: SequenceWriter)
        ensures
            r.values@ == Seq::<Val>::empty(),
            r.on_end@ is None,
    {
        self.serialize_seq(Some(len))
    }

    /// Starts a tuple struct, encoded as a sequence of its fields.
    pub fn serialize_tuple_struct(self, _name: &str, len: usize) -> (r: SequenceWriter)
        ensures
            r.values@ == Seq::<Val>::empty(),
            r.on_end@ is None,
    {
        self.serialize_seq(Some(len))
    }

    /// Starts a tuple enum variant: a sequence of the positional fields,
    /// wrapped on completion into an enumeration carrying the variant
    /// name.
    pub fn serialize_tuple_variant(self, variant: &str) -> (r: SequenceWriter)
        ensures
            r.values@ == Seq::<Val>::empty(),
            r.on_end@ == Some(variant@),
    {
        SequenceWriter::with_completion(Utf8String::from_str(variant))
    }

    /// Starts a map.
    pub fn serialize_map(self, _len: Option<usize>) -> (r: KeyValueWriter)
        ensures
            r.pending_key is None,
            r.map@ == Seq::<(Val, Val)>::empty(),
            r.on_end@ is None,
            r.wf(),
    {
        KeyValueWriter::new()
    }

    /// Starts a struct, encoded as a map of field name to value.
    pub fn serialize_struct(self, _name: &str, len: usize) -> (r: KeyValueWriter)
        ensures
            r.pending_key is None,
            r.map@ == Seq::<(Val, Val)>::empty(),
            r.on_end@ is None,
            r.wf(),
    {
        self.serialize_map(Some(len))
    }

    /// Starts a struct enum variant: a map of field name to value,
    /// wrapped on completion into an enumeration carrying the variant
    /// name.
    pub fn serialize_struct_variant(self, variant: &str) -> (r: KeyValueWriter)
        ensures
            r.pending_key is None,
            r.map@ == Seq::<(Val, Val)>::empty(),
            r.on_end@ == Some(variant@),
            r.wf(),
    {
        KeyValueWriter::with_completion(Utf8String::from_str(variant))
    }
}

} // verus!
