//! The simplified type model: a dynamic value tree that can represent
//! primitives, sequences, maps and enumerations, and allows runtime
//! inspection.
//!
//! The mathematical model of a tree is [`Val`]; every dynamic value views
//! to its model, and all contracts of this crate are stated over models.

use vstd::prelude::*;
use crate::error::ValueKind;

pub mod boolean;
pub mod bytes;
pub mod enumeration;
pub mod float;
pub mod integer;
pub mod map;
pub mod sequence;
pub mod utf8_string;

pub use crate::typing::{
    boolean::Boolean, bytes::Bytes, enumeration::Enumeration, float::Float,
    integer::Integer, map::ValueMap, sequence::Sequence, utf8_string::Utf8String,
};

verus! {

/// The mathematical model of a dynamic value: a purely structural tree.
///
/// Strings are sequences of characters, byte buffers are sequences of
/// bytes, a float is its 64-bit pattern, and a map is its canonical
/// (sorted) entry sequence.
#[verifier::ext_equal]
pub enum Val {
    Bool(bool),
    Int(Integer),
    Float(u64),
    Str(Seq<char>),
    Bytes(Seq<u8>),
    Sequence(Seq<Val>),
    Mapping(Seq<(Val, Val)>),
    Enum(Seq<char>, Box<Val>),
    Null,
}

impl Val {
    /// The kind of dynamic value this model describes.
    pub open spec fn kind(self) -> ValueKind {
        match self {
            Val::Bool(_) => ValueKind::Bool,
            Val::Int(_) => ValueKind::Integer,
            Val::Float(_) => ValueKind::Float,
            Val::Str(_) => ValueKind::Utf8String,
            Val::Bytes(_) => ValueKind::Bytes,
            Val::Sequence(_) => ValueKind::Sequence,
            Val::Mapping(_) => ValueKind::Mapping,
            Val::Enum(_, _) => ValueKind::Enum,
            Val::Null => ValueKind::Null,
        }
    }
}

/// A simplified type model which can represent various data structures and
/// allows dynamic runtime inspection.
#[derive(Debug, PartialEq, Eq)]
pub enum AnyValue {
    /// A boolean value
    Bool(Boolean),
    /// An integer value
    Integer(Integer),
    /// A floating point value, held as its 64-bit pattern
    Float(Float),
    /// An UTF-8 string value
    Utf8String(Utf8String),
    /// A binary vector
    Bytes(Bytes),
    /// A sequence
    Sequence(Sequence),
    /// A map
    Mapping(ValueMap),
    /// An enum value
    Enum(Enumeration),
    /// A non-existent value (absence or unit marker)
    Null,
}

impl AnyValue {
    /// The mathematical value that this dynamic value represents.
    pub open spec fn model(self) -> Val
        decreases self,
    {
        match self {
            AnyValue::Bool(b) => Val::Bool(b.inner),
            AnyValue::Integer(i) => Val::Int(i),
            AnyValue::Float(f) => Val::Float(f.bits),
            AnyValue::Utf8String(s) => Val::Str(s.inner@),
            AnyValue::Bytes(b) => Val::Bytes(b.inner@),
            AnyValue::Sequence(s) => Val::Sequence(model_seq(s.inner@)),
            AnyValue::Mapping(m) => Val::Mapping(model_entries(m.entries@)),
            AnyValue::Enum(e) => Val::Enum(e.variant.inner@, Box::new((*e.value).model())),
            AnyValue::Null => Val::Null,
        }
    }

    /// Reports which kind of value this is.
    pub fn kind(&self) -> (k: ValueKind)
        ensures
            k == self@.kind(),
    {
        match self {
            AnyValue::Bool(_) => ValueKind::Bool,
            AnyValue::Integer(_) => ValueKind::Integer,
            AnyValue::Float(_) => ValueKind::Float,
            AnyValue::Utf8String(_) => ValueKind::Utf8String,
            AnyValue::Bytes(_) => ValueKind::Bytes,
            AnyValue::Sequence(_) => ValueKind::Sequence,
            AnyValue::Mapping(_) => ValueKind::Mapping,
            AnyValue::Enum(_) => ValueKind::Enum,
            AnyValue::Null => ValueKind::Null,
        }
    }
}

impl View for AnyValue {
    type V = Val;

    open spec fn view(&self) -> Val {
        self.model()
    }
}

/// The models of a sequence of dynamic values, element by element.
pub open spec fn model_seq(s: Seq<AnyValue>) -> Seq<Val>
    decreases s,
{
    if s.len() == 0 {
        Seq::empty()
    } else {
        model_seq(s.drop_last()).push(s.last().model())
    }
}

/// The models of a sequence of key-value entries, entry by entry.
pub open spec fn model_entries(s: Seq<(AnyValue, AnyValue)>) -> Seq<(Val, Val)>
    decreases s,
{
    if s.len() == 0 {
        Seq::empty()
    } else {
        model_entries(s.drop_last()).push((s.last().0.model(), s.last().1.model()))
    }
}

/// `model_seq` is the element-wise model.
pub proof fn lemma_model_seq(s: Seq<AnyValue>)
    ensures
        model_seq(s).len() == s.len(),
        forall|i: int| 0 <= i < s.len() ==> model_seq(s)[i] == s[i].model(),
    decreases s,
{
    if s.len() > 0 {
        lemma_model_seq(s.drop_last());
    }
}

/// Pushing an element commutes with taking models.
pub proof fn lemma_model_seq_push(s: Seq<AnyValue>, v: AnyValue)
    ensures
        model_seq(s.push(v)) == model_seq(s).push(v.model()),
{
    assert(s.push(v).drop_last() =~= s);
}

/// Pushing an entry commutes with taking models.
pub proof fn lemma_model_entries_push(s: Seq<(AnyValue, AnyValue)>, k: AnyValue, v: AnyValue)
    ensures
        model_entries(s.push((k, v))) == model_entries(s).push((k.model(), v.model())),
{
    assert(s.push((k, v)).drop_last() =~= s);
}

/// `model_entries` is the entry-wise model.
pub proof fn lemma_model_entries(s: Seq<(AnyValue, AnyValue)>)
    ensures
        model_entries(s).len() == s.len(),
        forall|i: int| 0 <= i < s.len() ==> model_entries(s)[i]
            == (s[i].0.model(), s[i].1.model()),
    decreases s,
{
    if s.len() > 0 {
        lemma_model_entries(s.drop_last());
    }
}

} // verus!
