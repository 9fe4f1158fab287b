//! The pull-based decoding engine: type-directed dispatch that consumes a
//! dynamic value tree on behalf of a typed-data consumer.
//!
//! Scalar requests funnel through the unified integer and float
//! conversions with width-narrowing checks. Composite requests return a
//! stateful reader that hands children out one at a time, lazily, in
//! canonical order. Every shape mismatch is a type error naming both the
//! requested shape and the value's actual kind; nothing is coerced.

use vstd::prelude::*;
use crate::error::{Error, Shape, ValueKind};
use crate::typing::{
    AnyValue, Boolean, Bytes, Enumeration, Integer, Sequence, Utf8String, Val, ValueMap,
    model_entries, model_seq, lemma_model_entries, lemma_model_seq,
};

verus! {

/// What decoding a boolean request yields from a value.
pub open spec fn bool_from_val(v: Val) -> Result<bool, Error> {
    match v {
        Val::Bool(b) => Ok(b),
        _ => Err(Error::type_error_spec(Shape::Bool, v.kind())),
    }
}

/// What decoding an integer request with target range `lo ..= hi` yields
/// from a value: the numeric value when it is an in-range integer, a
/// type error naming the target width when it is out of range, and a
/// type error naming the integer domain when it is no integer at all.
pub open spec fn int_from_val(v: Val, lo: int, hi: int, target: Shape) -> Result<int, Error> {
    match v {
        Val::Int(i) => if lo <= i.as_int() <= hi {
            Ok(i.as_int())
        } else {
            Err(Error::type_error_spec(target, ValueKind::Integer))
        },
        _ => Err(Error::type_error_spec(Shape::Integer, v.kind())),
    }
}

/// What decoding a float request yields: the 64-bit pattern.
pub open spec fn float_bits_from_val(v: Val) -> Result<u64, Error> {
    match v {
        Val::Float(bits) => Ok(bits),
        _ => Err(Error::type_error_spec(Shape::Float, v.kind())),
    }
}

/// What decoding a character request yields: the single character of a
/// one-character string.
pub open spec fn char_from_val(v: Val) -> Result<char, Error> {
    match v {
        Val::Str(s) => if s.len() == 1 {
            Ok(s[0])
        } else {
            Err(Error::type_error_spec(Shape::Char, ValueKind::Utf8String))
        },
        _ => Err(Error::type_error_spec(Shape::Str, v.kind())),
    }
}

/// What decoding a string request yields.
pub open spec fn string_from_val(v: Val) -> Result<Seq<char>, Error> {
    match v {
        Val::Str(s) => Ok(s),
        _ => Err(Error::type_error_spec(Shape::Str, v.kind())),
    }
}

/// What decoding a byte-buffer request yields.
pub open spec fn bytes_from_val(v: Val) -> Result<Seq<u8>, Error> {
    match v {
        Val::Bytes(b) => Ok(b),
        _ => Err(Error::type_error_spec(Shape::Bytes, v.kind())),
    }
}

/// What decoding a unit request yields: only the absence marker is unit.
pub open spec fn unit_from_val(v: Val) -> Result<(), Error> {
    match v {
        Val::Null => Ok(()),
        _ => Err(Error::type_error_spec(Shape::Unit, v.kind())),
    }
}

/// What decoding an optional request yields: the absence marker is
/// absent, any other value is present as it is.
pub open spec fn option_from_val(v: Val) -> Option<Val> {
    match v {
        Val::Null => None,
        _ => Some(v),
    }
}

/// What decoding a sequence request yields.
pub open spec fn seq_from_val(v: Val) -> Result<Seq<Val>, Error> {
    match v {
        Val::Sequence(s) => Ok(s),
        _ => Err(Error::type_error_spec(Shape::Sequence, v.kind())),
    }
}

/// What decoding a map request yields: the canonical entry sequence.
pub open spec fn map_from_val(v: Val) -> Result<Seq<(Val, Val)>, Error> {
    match v {
        Val::Mapping(s) => Ok(s),
        _ => Err(Error::type_error_spec(Shape::Mapping, v.kind())),
    }
}

/// What decoding an enumeration request yields: the variant name and the
/// payload.
pub open spec fn enum_from_val(v: Val) -> Result<(Seq<char>, Val), Error> {
    match v {
        Val::Enum(name, payload) => Ok((name, *payload)),
        _ => Err(Error::type_error_spec(Shape::Enum, v.kind())),
    }
}

/// What interpreting an enumeration payload as a unit variant yields.
pub open spec fn unit_variant_from_val(payload: Val) -> Result<(), Error> {
    match payload {
        Val::Null => Ok(()),
        _ => Err(Error::type_error_spec(Shape::UnitVariant, payload.kind())),
    }
}

/// What interpreting an enumeration payload as a tuple variant yields:
/// the positional fields of its sequence payload.
pub open spec fn tuple_variant_from_val(payload: Val) -> Result<Seq<Val>, Error> {
    match payload {
        Val::Sequence(s) => Ok(s),
        _ => Err(Error::type_error_spec(Shape::Sequence, payload.kind())),
    }
}

/// What interpreting an enumeration payload as a struct variant yields:
/// the field map of its map payload.
pub open spec fn struct_variant_from_val(payload: Val) -> Result<Seq<(Val, Val)>, Error> {
    match payload {
        Val::Mapping(s) => Ok(s),
        _ => Err(Error::type_error_spec(Shape::Mapping, payload.kind())),
    }
}

/// The path a shape-agnostic request takes: what a dynamic value
/// naturally decodes as, classified purely by its own variant, with the
/// unified integer split into its two sub-ranges.
#[derive(Debug, Clone, Copy, PartialEq, Eq, Structural)]
pub enum NaturalShape {
    Bool,
    UnsignedInteger,
    SignedInteger,
    Float,
    Utf8String,
    Bytes,
    Sequence,
    Mapping,
    Enum,
    Unit,
}

/// Which path a shape-agnostic request over `v` takes.
pub open spec fn natural_shape_of(v: Val) -> NaturalShape {
    match v {
        Val::Bool(_) => NaturalShape::Bool,
        Val::Int(Integer::UnsignedInteger(_)) => NaturalShape::UnsignedInteger,
        Val::Int(Integer::SignedInteger(_)) => NaturalShape::SignedInteger,
        Val::Float(_) => NaturalShape::Float,
        Val::Str(_) => NaturalShape::Utf8String,
        Val::Bytes(_) => NaturalShape::Bytes,
        Val::Sequence(_) => NaturalShape::Sequence,
        Val::Mapping(_) => NaturalShape::Mapping,
        Val::Enum(_, _) => NaturalShape::Enum,
        Val::Null => NaturalShape::Unit,
    }
}

/// A sequence reader: hands the elements out one at a time, in order.
#[derive(Debug)]
pub struct SequenceReader {
    /// The elements not yet handed out
    pub values: Vec<AnyValue>,
}

impl View for SequenceReader {
    type V = Seq<Val>;

    open spec fn view(&self) -> Seq<Val> {
        model_seq(self.values@)
    }
}

impl SequenceReader {
    /// Creates a reader over the elements of `sequence`.
    pub fn new(sequence: Sequence) -> (r: SequenceReader)
        ensures
            r@ == sequence@,
    {
        SequenceReader { values: sequence.into_vec() }
    }

    /// Hands the next element out, or reports exhaustion.
    pub fn next_element(&mut self) -> (r: Option<AnyValue>)
        ensures
            old(self)@.len() == 0 ==> r is None && final(self)@ == old(self)@,
            old(self)@.len() > 0 ==> {
                &&& r matches Some(v) && v@ == old(self)@[0]
                &&& final(self)@ == old(self)@.drop_first()
            },
    {
        proof {
            lemma_model_seq(self.values@);
        }
        if self.values.len() == 0 {
            None
        } else {
            let ghost orig = self.values@;
            let v = self.values.remove(0);
            proof {
                lemma_model_seq(self.values@);
                assert(self@ =~= model_seq(orig).drop_first());
            }
            Some(v)
        }
    }
}

/// A key-value reader: hands entries out one at a time, in canonical
/// order, a key pull followed by exactly one value pull.
#[derive(Debug)]
pub struct KeyValueReader {
    /// The value of the entry whose key was handed out last
    pub pending_value: Option<AnyValue>,
    /// The entries not yet handed out
    pub entries: Vec<(AnyValue, AnyValue)>,
}

impl KeyValueReader {
    /// The entries not yet handed out.
    pub open spec fn remaining(&self) -> Seq<(Val, Val)> {
        model_entries(self.entries@)
    }

    /// The value owed after a key pull, if any.
    pub open spec fn pending(&self) -> Option<Val> {
        match self.pending_value {
            Some(v) => Some(v@),
            None => None,
        }
    }

    /// Creates a reader over the entries of `map`.
    pub fn new(map: ValueMap) -> (r: KeyValueReader)
        ensures
            r.remaining() == map@,
            r.pending() is None,
    {
        KeyValueReader { pending_value: None, entries: map.into_entries() }
    }

    /// Hands the next key out and retains its value, or reports
    /// exhaustion. Pulling a key while a value is owed is a calling
    /// contract defect, not a data error.
    pub fn next_key(&mut self) -> (r: Option<AnyValue>)
        requires
            old(self).pending() is None,
        ensures
            old(self).remaining().len() == 0 ==> {
                &&& r is None
                &&& final(self).remaining() == old(self).remaining()
                &&& final(self).pending() is None
            },
            old(self).remaining().len() > 0 ==> {
                &&& r matches Some(k) && k@ == old(self).remaining()[0].0
                &&& final(self).pending() == Some(old(self).remaining()[0].1)
                &&& final(self).remaining() == old(self).remaining().drop_first()
            },
    {
        proof {
            lemma_model_entries(self.entries@);
        }
        if self.entries.len() == 0 {
            None
        } else {
            let ghost orig = self.entries@;
            let (key, value) = self.entries.remove(0);
            self.pending_value = Some(value);
            proof {
                lemma_model_entries(self.entries@);
                assert(self.remaining() =~= model_entries(orig).drop_first());
            }
            Some(key)
        }
    }

    /// Hands the value owed for the last key out. Pulling a value before
    /// a key is a calling contract defect, not a data error.
    pub fn next_value(&mut self) -> (r: AnyValue)
        requires
            old(self).pending() is Some,
        ensures
            Some(r@) == old(self).pending(),
            final(self).pending() is None,
            final(self).remaining() == old(self).remaining(),
    {
        let value = self.pending_value.take().unwrap();
        value
    }
}

/// An enumeration payload reader: exposes exactly one of the four
/// payload interpretations.
#[derive(Debug)]
pub struct EnumValueReader {
    /// The payload value
    pub value: AnyValue,
}

impl EnumValueReader {
    /// Creates a reader over an enumeration payload.
    pub fn new(value: AnyValue) -> (r: EnumValueReader)
        ensures
            r.value == value,
    {
        EnumValueReader { value }
    }

    /// Interprets the payload as a unit variant: it must be the absence
    /// marker.
    pub fn unit_variant(self) -> (r: Result<(), Error>)
        ensures
            r == unit_variant_from_val(self.value@),
    {
        match self.value {
            AnyValue::Null => Ok(()),
            other => Err(Error::type_error(Shape::UnitVariant, other.kind())),
        }
    }

    /// Interprets the payload as a newtype variant: the wrapped value
    /// stands as it is.
    pub fn newtype_variant(self) -> (r: AnyValue)
        ensures
            r@ == self.value@,
    {
        self.value
    }

    /// Interprets the payload as a tuple variant: its sequence of
    /// positional fields, read through a sequence reader.
    pub fn tuple_variant(self) -> (r: Result<SequenceReader, Error>)
        ensures
            match r {
                Ok(reader) => tuple_variant_from_val(self.value@) == Ok::<Seq<Val>, Error>(
                    reader@,
                ),
                Err(e) => tuple_variant_from_val(self.value@) == Err::<Seq<Val>, Error>(e),
            },
    {
        match Sequence::try_from_value(self.value) {
            Ok(s) => Ok(SequenceReader::new(s)),
            Err(e) => Err(e),
        }
    }

    /// Interprets the payload as a struct variant: its map of named
    /// fields, read through a key-value reader.
    pub fn struct_variant(self) -> (r: Result<KeyValueReader, Error>)
        ensures
            match r {
                Ok(reader) => {
                    &&& struct_variant_from_val(self.value@) == Ok::<Seq<(Val, Val)>, Error>(
                        reader.remaining(),
                    )
                    &&& reader.pending() is None
                },
                Err(e) => struct_variant_from_val(self.value@) == Err::<Seq<(Val, Val)>, Error>(
                    e,
                ),
            },
    {
        match ValueMap::try_from_value(self.value) {
            Ok(m) => Ok(KeyValueReader::new(m)),
            Err(e) => Err(e),
        }
    }
}

/// An enumeration reader: hands the variant name out first, then the
/// payload reader.
#[derive(Debug)]
pub struct EnumReader {
    /// The enumeration itself
    pub enumeration: Enumeration,
}

impl EnumReader {
    /// Creates a reader over `enumeration`.
    pub fn new(enumeration: Enumeration) -> (r: EnumReader)
        ensures
            r.enumeration == enumeration,
    {
        EnumReader { enumeration }
    }

    /// Hands the variant name and the payload reader out.
    pub fn variant(self) -> (r: (Utf8String, EnumValueReader))
        ensures
            self.enumeration@ == Val::Enum(r.0@, Box::new(r.1.value@)),
    {
        let (variant, value) = self.enumeration.into_inner();
        (variant, EnumValueReader::new(value))
    }
}

/// The decoding engine: type-directed dispatch given a dynamic value and
/// a requested shape.
#[derive(Debug)]
pub struct Deserializer {
    /// The value to decode
    pub value: AnyValue,
}

impl View for Deserializer {
    type V = Val;

    open spec fn view(&self) -> Val {
        self.value@
    }
}

impl Deserializer {
    /// Creates a new deserializer that processes `value`.
    pub fn new(value: AnyValue) -> (r: Deserializer)
        ensures
            r@ == value@,
    {
        Deserializer { value }
    }

    /// Reports which kind of value is being decoded, so a shape-agnostic
    /// caller can dispatch on what the value naturally is.
    pub fn kind(&self) -> (k: ValueKind)
        ensures
            k == self@.kind(),
    {
        self.value.kind()
    }

    /// Classifies a shape-agnostic request purely by the value's own
    /// variant, so the caller can recurse into the matching scalar or
    /// composite path. An unsigned integer surfaces through the widest
    /// unsigned width, a signed one through the widest signed width.
    pub fn deserialize_any_shape(&self) -> (r: NaturalShape)
        ensures
            r == natural_shape_of(self@),
    {
        match &self.value {
            AnyValue::Bool(_) => NaturalShape::Bool,
            AnyValue::Integer(Integer::UnsignedInteger(_)) => NaturalShape::UnsignedInteger,
            AnyValue::Integer(Integer::SignedInteger(_)) => NaturalShape::SignedInteger,
            AnyValue::Float(_) => NaturalShape::Float,
            AnyValue::Utf8String(_) => NaturalShape::Utf8String,
            AnyValue::Bytes(_) => NaturalShape::Bytes,
            AnyValue::Sequence(_) => NaturalShape::Sequence,
            AnyValue::Mapping(_) => NaturalShape::Mapping,
            AnyValue::Enum(_) => NaturalShape::Enum,
            AnyValue::Null => NaturalShape::Unit,
        }
    }

    /// Decodes a boolean request.
    pub fn deserialize_bool(self) -> (r: Result<bool, Error>)
        ensures
            r == bool_from_val(self@),
    {
        match Boolean::try_from_value(self.value) {
            Ok(b) => Ok(b.get()),
            Err(e) => Err(e),
        }
    }

    /// Decodes a float request, yielding the 64-bit pattern.
    pub fn deserialize_float_bits(self) -> (r: Result<u64, Error>)
        ensures
            r == float_bits_from_val(self@),
    {
        match crate::typing::Float::try_from_value(self.value) {
            Ok(f) => Ok(f.to_bits()),
            Err(e) => Err(e),
        }
    }

    /// Decodes a character request: the value must be a one-character
    /// string.
    pub fn deserialize_char(self) -> (r: Result<char, Error>)
        ensures
            r == char_from_val(self@),
    {
        match Utf8String::try_from_value(self.value) {
            Ok(s) => s.to_char(),
            Err(e) => Err(e),
        }
    }

    /// Decodes a string request.
    pub fn deserialize_string(self) -> (r: Result<String, Error>)
        ensures
            match r {
                Ok(s) => string_from_val(self@) == Ok::<Seq<char>, Error>(s@),
                Err(e) => string_from_val(self@) == Err::<Seq<char>, Error>(e),
            },
    {
        match Utf8String::try_from_value(self.value) {
            Ok(s) => Ok(s.into_string()),
            Err(e) => Err(e),
        }
    }

    /// Decodes an identifier request: identifiers are strings.
    pub fn deserialize_identifier(self) -> (r: Result<String, Error>)
        ensures
            match r {
                Ok(s) => string_from_val(self@) == Ok::<Seq<char>, Error>(s@),
                Err(e) => string_from_val(self@) == Err::<Seq<char>, Error>(e),
            },
    {
        self.deserialize_string()
    }

    /// Decodes a byte-buffer request.
    pub fn deserialize_bytes(self) -> (r: Result<Vec<u8>, Error>)
        ensures
            match r {
                Ok(b) => bytes_from_val(self@) == Ok::<Seq<u8>, Error>(b@),
                Err(e) => bytes_from_val(self@) == Err::<Seq<u8>, Error>(e),
            },
    {
        match Bytes::try_from_value(self.value) {
            Ok(b) => Ok(b.into_vec()),
            Err(e) => Err(e),
        }
    }

    /// Decodes an optional request: the absence marker is absent, any
    /// other value is present and decodes as itself.
    pub fn deserialize_option(self) -> (r: Option<AnyValue>)
        ensures
            match r {
                Some(v) => option_from_val(self@) == Some(v@),
                None => option_from_val(self@) is None,
            },
    {
        match self.value {
            AnyValue::Null => None,
            other => Some(other),
        }
    }

    /// Decodes a unit request.
    pub fn deserialize_unit(self) -> (r: Result<(), Error>)
        ensures
            r == unit_from_val(self@),
    {
        match self.value {
            AnyValue::Null => Ok(()),
            other => Err(Error::type_error(Shape::Unit, other.kind())),
        }
    }

    /// Decodes a unit struct request.
    pub fn deserialize_unit_struct(self, _name: &str) -> (r: Result<(), Error>)
        ensures
            r == unit_from_val(self@),
    {
        self.deserialize_unit()
    }

    /// Decodes a newtype struct request: the wrapped value stands as it
    /// is.
    pub fn deserialize_newtype_struct(self, _name: &str) -> (r: AnyValue)
        ensures
            r@ == self@,
    {
        self.value
    }

    /// Decodes a sequence request.
    pub fn deserialize_seq(self) -> (r: Result<SequenceReader, Error>)
        ensures
            match r {
                Ok(reader) => seq_from_val(self@) == Ok::<Seq<Val>, Error>(reader@),
                Err(e) => seq_from_val(self@) == Err::<Seq<Val>, Error>(e),
            },
    {
        match Sequence::try_from_value(self.value) {
            Ok(s) => Ok(SequenceReader::new(s)),
            Err(e) => Err(e),
        }
    }

    /// Decodes a tuple request: tuples are sequences of positional
    /// fields.
    pub fn deserialize_tuple(self, _len: usize) -> (r: Result<SequenceReader, Error>)
        ensures
            match r {
                Ok(reader) => seq_from_val(self@) == Ok::<Seq<Val>, Error>(reader@),
                Err(e) => seq_from_val(self@) == Err::<Seq<Val>, Error>(e),
            },
    {
        self.deserialize_seq()
    }

    /// Decodes a tuple struct request.
    pub fn deserialize_tuple_struct(self, _name: &str, _len: usize) -> (r: Result<
        SequenceReader,
        Error,
    >)
        ensures
            match r {
                Ok(reader) => seq_from_val(self@) == Ok::<Seq<Val>, Error>(reader@),
                Err(e) => seq_from_val(self@) == Err::<Seq<Val>, Error>(e),
            },
    {
        self.deserialize_seq()
    }

    /// Decodes a map request: entries come out in canonical order.
    pub fn deserialize_map(self) -> (r: Result<KeyValueReader, Error>)
        ensures
            match r {
                Ok(reader) => {
                    &&& map_from_val(self@) == Ok::<Seq<(Val, Val)>, Error>(reader.remaining())
                    &&& reader.pending() is None
                },
                Err(e) => map_from_val(self@) == Err::<Seq<(Val, Val)>, Error>(e),
            },
    {
        match ValueMap::try_from_value(self.value) {
            Ok(m) => Ok(KeyValueReader::new(m)),
            Err(e) => Err(e),
        }
    }

    /// Decodes a struct request: structs are maps of named fields.
    pub fn deserialize_struct(self, _name: &str) -> (r: Result<KeyValueReader, Error>)
        ensures
            match r {
                Ok(reader) => {
                    &&& map_from_val(self@) == Ok::<Seq<(Val, Val)>, Error>(reader.remaining())
                    &&& reader.pending() is None
                },
                Err(e) => map_from_val(self@) == Err::<Seq<(Val, Val)>, Error>(e),
            },
    {
        self.deserialize_map()
    }

    /// Decodes an enumeration request.
    pub fn deserialize_enum(self) -> (r: Result<EnumReader, Error>)
        ensures
            match r {
                Ok(reader) => enum_from_val(self@) == Ok::<(Seq<char>, Val), Error>(
                    (
                        reader.enumeration.variant@,
                        (*reader.enumeration.value)@,
                    ),
                ),
                Err(e) => enum_from_val(self@) == Err::<(Seq<char>, Val), Error>(e),
            },
    {
        match Enumeration::try_from_value(self.value) {
            Ok(e) => Ok(EnumReader::new(e)),
            Err(e) => Err(e),
        }
    }

    /// Decodes a `u8` request through the unified integer domain,
    /// with a range check instead of truncation.
    pub fn deserialize_u8(self) -> (r: Result<u8, Error>)
        ensures
            match r {
                Ok(n) => int_from_val(self@, u8::MIN as int, u8::MAX as int, Shape::U8)
                    == Ok::<int, Error>(n as int),
                Err(e) => int_from_val(self@, u8::MIN as int, u8::MAX as int, Shape::U8)
                    == Err::<int, Error>(e),
            },
    {
        match Integer::try_from_value(self.value) {
            Ok(i) => i.to_u8(),
            Err(e) => Err(e),
        }
    }

    /// Decodes a `u16` request through the unified integer domain,
    /// with a range check instead of truncation.
    pub fn deserialize_u16(self) -> (r: Result<u16, Error>)
        ensures
            match r {
                Ok(n) => int_from_val(self@, u16::MIN as int, u16::MAX as int, Shape::U16)
                    == Ok::<int, Error>(n as int),
                Err(e) => int_from_val(self@, u16::MIN as int, u16::MAX as int, Shape::U16)
                    == Err::<int, Error>(e),
            },
    {
        match Integer::try_from_value(self.value) {
            Ok(i) => i.to_u16(),
            Err(e) => Err(e),
        }
    }

    /// Decodes a `u32` request through the unified integer domain,
    /// with a range check instead of truncation.
    pub fn deserialize_u32(self) -> (r: Result<u32, Error>)
        ensures
            match r {
                Ok(n) => int_from_val(self@, u32::MIN as int, u32::MAX as int, Shape::U32)
                    == Ok::<int, Error>(n as int),
                Err(e) => int_from_val(self@, u32::MIN as int, u32::MAX as int, Shape::U32)
                    == Err::<int, Error>(e),
            },
    {
        match Integer::try_from_value(self.value) {
            Ok(i) => i.to_u32(),
            Err(e) => Err(e),
        }
    }

    /// Decodes a `u64` request through the unified integer domain,
    /// with a range check instead of truncation.
    pub fn deserialize_u64(self) -> (r: Result<u64, Error>)
        ensures
            match r {
                Ok(n) => int_from_val(self@, u64::MIN as int, u64::MAX as int, Shape::U64)
                    == Ok::<int, Error>(n as int),
                Err(e) => int_from_val(self@, u64::MIN as int, u64::MAX as int, Shape::U64)
                    == Err::<int, Error>(e),
            },
    {
        match Integer::try_from_value(self.value) {
            Ok(i) => i.to_u64(),
            Err(e) => Err(e),
        }
    }

    /// Decodes a `u128` request through the unified integer domain,
    /// with a range check instead of truncation.
    pub fn deserialize_u128(self) -> (r: Result<u128, Error>)
        ensures
            match r {
                Ok(n) => int_from_val(self@, u128::MIN as int, u128::MAX as int, Shape::U128)
                    == Ok::<int, Error>(n as int),
                Err(e) => int_from_val(self@, u128::MIN as int, u128::MAX as int, Shape::U128)
                    == Err::<int, Error>(e),
            },
    {
        match Integer::try_from_value(self.value) {
            Ok(i) => i.to_u128(),
            Err(e) => Err(e),
        }
    }

    /// Decodes a `i8` request through the unified integer domain,
    /// with a range check instead of truncation.
    pub fn deserialize_i8(self) -> (r: Result<i8, Error>)
        ensures
            match r {
                Ok(n) => int_from_val(self@, i8::MIN as int, i8::MAX as int, Shape::I8)
                    == Ok::<int, Error>(n as int),
                Err(e) => int_from_val(self@, i8::MIN as int, i8::MAX as int, Shape::I8)
                    == Err::<int, Error>(e),
            },
    {
        match Integer::try_from_value(self.value) {
            Ok(i) => i.to_i8(),
            Err(e) => Err(e),
        }
    }

    /// Decodes a `i16` request through the unified integer domain,
    /// with a range check instead of truncation.
    pub fn deserialize_i16(self) -> (r: Result<i16, Error>)
        ensures
            match r {
                Ok(n) => int_from_val(self@, i16::MIN as int, i16::MAX as int, Shape::I16)
                    == Ok::<int, Error>(n as int),
                Err(e) => int_from_val(self@, i16::MIN as int, i16::MAX as int, Shape::I16)
                    == Err::<int, Error>(e),
            },
    {
        match Integer::try_from_value(self.value) {
            Ok(i) => i.to_i16(),
            Err(e) => Err(e),
        }
    }

    /// Decodes a `i32` request through the unified integer domain,
    /// with a range check instead of truncation.
    pub fn deserialize_i32(self) -> (r: Result<i32, Error>)
        ensures
            match r {
                Ok(n) => int_from_val(self@, i32::MIN as int, i32::MAX as int, Shape::I32)
                    == Ok::<int, Error>(n as int),
                Err(e) => int_from_val(self@, i32::MIN as int, i32::MAX as int, Shape::I32)
                    == Err::<int, Error>(e),
            },
    {
        match Integer::try_from_value(self.value) {
            Ok(i) => i.to_i32(),
            Err(e) => Err(e),
        }
    }

    /// Decodes a `i64` request through the unified integer domain,
    /// with a range check instead of truncation.
    pub fn deserialize_i64(self) -> (r: Result<i64, Error>)
        ensures
            match r {
                Ok(n) => int_from_val(self@, i64::MIN as int, i64::MAX as int, Shape::I64)
                    == Ok::<int, Error>(n as int),
                Err(e) => int_from_val(self@, i64::MIN as int, i64::MAX as int, Shape::I64)
                    == Err::<int, Error>(e),
            },
    {
        match Integer::try_from_value(self.value) {
            Ok(i) => i.to_i64(),
            Err(e) => Err(e),
        }
    }

    /// Decodes a `i128` request through the unified integer domain,
    /// with a range check instead of truncation.
    pub fn deserialize_i128(self) -> (r: Result<i128, Error>)
        ensures
            match r {
                Ok(n) => int_from_val(self@, i128::MIN as int, i128::MAX as int, Shape::I128)
                    == Ok::<int, Error>(n as int),
                Err(e) => int_from_val(self@, i128::MIN as int, i128::MAX as int, Shape::I128)
                    == Err::<int, Error>(e),
            },
    {
        match Integer::try_from_value(self.value) {
            Ok(i) => i.to_i128(),
            Err(e) => Err(e),
        }
    }

}

} // verus!
