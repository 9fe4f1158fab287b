//! A type unifier for sequence like native types: an ordered list of
//! dynamic values whose order is semantic and preserved exactly.

use vstd::prelude::*;
use crate::error::{Error, Shape};
use crate::typing::{AnyValue, Val, model_seq, lemma_model_seq, lemma_model_seq_push};

verus! {

/// A type unifier for sequence likes.
#[derive(Debug, PartialEq, Eq)]
pub struct Sequence {
    /// The wrapped value
    pub inner: Vec<AnyValue>,
}

impl View for Sequence {
    type V = Seq<Val>;

    open spec fn view(&self) -> Seq<Val> {
        model_seq(self.inner@)
    }
}

impl Sequence {
    /// Wraps a native vector of dynamic values.
    pub fn new(value: Vec<AnyValue>) -> (r: Sequence)
        ensures
            r@ == model_seq(value@),
    {
        Sequence { inner: value }
    }

    /// A sequence with no elements.
    pub fn empty() -> (r: Sequence)
        ensures
            r@ == Seq::<Val>::empty(),
    {
        Sequence { inner: Vec::new() }
    }

    /// The number of elements held.
    pub fn len(&self) -> (r: usize)
        ensures
            r == self@.len(),
    {
        proof {
            lemma_model_seq(self.inner@);
        }
        self.inner.len()
    }

    /// Borrows the element at `index`, in insertion order.
    pub fn get(&self, index: usize) -> (r: &AnyValue)
        requires
            index < self@.len(),
        ensures
            r@ == self@[index as int],
    {
        proof {
            lemma_model_seq(self.inner@);
        }
        &self.inner[index]
    }

    /// Appends one element.
    pub fn push(&mut self, value: AnyValue)
        ensures
            final(self)@ == old(self)@.push(value@),
    {
        proof {
            lemma_model_seq_push(self.inner@, value);
        }
        self.inner.push(value);
    }

    /// Unwraps into the native vector.
    pub fn into_vec(self) -> (r: Vec<AnyValue>)
        ensures
            model_seq(r@) == self@,
    {
        self.inner
    }

    /// Wraps this sequence into a dynamic value.
    pub fn into_value(self) -> (r: AnyValue)
        ensures
            r@ == Val::Sequence(self@),
    {
        AnyValue::Sequence(self)
    }

    /// Extracts a sequence from a dynamic value; any other kind of value
    /// is a type error.
    pub fn try_from_value(value: AnyValue) -> (r: Result<Sequence, Error>)
        ensures
            match r {
                Ok(s) => value@ == Val::Sequence(s@),
                Err(e) => {
                    &&& !(value@ is Sequence)
                    &&& e == Error::type_error_spec(Shape::Sequence, value@.kind())
                },
            },
    {
        match value {
            AnyValue::Sequence(s) => Ok(s),
            other => Err(Error::type_error(Shape::Sequence, other.kind())),
        }
    }
}

} // verus!
