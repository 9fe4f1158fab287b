//! The laws of the model, proved once and for all: every encoded shape
//! decodes back to what was encoded, map canonicalization is independent
//! of insertion order, and the order over values is total and
//! transitive (see the order module for the latter).

use vstd::prelude::*;
use crate::de::{
    bool_from_val, bytes_from_val, char_from_val, enum_from_val, float_bits_from_val,
    int_from_val, map_from_val, seq_from_val, string_from_val, struct_variant_from_val,
    tuple_variant_from_val, unit_variant_from_val,
};
use crate::error::{Error, Shape, ValueKind};
use crate::order::{Cmp, cmp_val, cmp_int, lemma_cmp_val_eq, lemma_cmp_val_flip};
use crate::ser::complete;
use crate::typing::float::float_key;
use crate::typing::integer::unify_int;
use crate::typing::map::{spec_from_entries, spec_insert};
use crate::typing::Val;

verus! {

/// Round trip: an encoded boolean decodes back to itself.
pub proof fn lemma_round_trip_bool(value: bool)
    ensures
        bool_from_val(Val::Bool(value)) == Ok::<bool, Error>(value),
{
}

/// Round trip: an integer encoded through the unified domain decodes
/// back to itself under any width whose range holds it.
pub proof fn lemma_round_trip_int(value: int, lo: int, hi: int, target: Shape)
    requires
        lo <= value <= hi,
        i128::MIN <= value <= u128::MAX,
    ensures
        int_from_val(Val::Int(unify_int(value)), lo, hi, target) == Ok::<int, Error>(value),
{
}

/// Width narrowing: an integer outside the target range decodes to a
/// type error naming the target width, never to a truncated value.
pub proof fn lemma_int_narrowing(value: int, lo: int, hi: int, target: Shape)
    requires
        !(lo <= value <= hi),
        i128::MIN <= value <= u128::MAX,
    ensures
        int_from_val(Val::Int(unify_int(value)), lo, hi, target) == Err::<int, Error>(
            Error::type_error_spec(target, ValueKind::Integer),
        ),
{
}

/// Round trip: an encoded float pattern decodes back to the same
/// pattern, NaN patterns included.
pub proof fn lemma_round_trip_float(bits: u64)
    ensures
        float_bits_from_val(Val::Float(bits)) == Ok::<u64, Error>(bits),
{
}

/// Round trip: an encoded character decodes back to itself.
pub proof fn lemma_round_trip_char(value: char)
    ensures
        char_from_val(Val::Str(seq![value])) == Ok::<char, Error>(value),
{
}

/// Round trip: an encoded string decodes back to itself.
pub proof fn lemma_round_trip_string(value: Seq<char>)
    ensures
        string_from_val(Val::Str(value)) == Ok::<Seq<char>, Error>(value),
{
}

/// Round trip: an encoded byte buffer decodes back to itself.
pub proof fn lemma_round_trip_bytes(value: Seq<u8>)
    ensures
        bytes_from_val(Val::Bytes(value)) == Ok::<Seq<u8>, Error>(value),
{
}

/// Round trip: a finalized plain sequence decodes back to exactly the
/// elements that were written, in order.
pub proof fn lemma_round_trip_seq(elems: Seq<Val>)
    ensures
        seq_from_val(complete(None, Val::Sequence(elems))) == Ok::<Seq<Val>, Error>(elems),
{
}

/// Round trip: a finalized plain map decodes back to exactly its
/// canonical entries.
pub proof fn lemma_round_trip_map(entries: Seq<(Val, Val)>)
    ensures
        map_from_val(complete(None, Val::Mapping(entries))) == Ok::<Seq<(Val, Val)>, Error>(
            entries,
        ),
{
}

/// Round trip: an encoded unit variant decodes back as the same variant
/// name with a unit payload.
pub proof fn lemma_round_trip_unit_variant(name: Seq<char>)
    ensures
        enum_from_val(Val::Enum(name, Box::new(Val::Null))) == Ok::<(Seq<char>, Val), Error>(
            (name, Val::Null),
        ),
        unit_variant_from_val(Val::Null) == Ok::<(), Error>(()),
{
}

/// Round trip: an encoded newtype variant decodes back as the same
/// variant name with the wrapped value verbatim.
pub proof fn lemma_round_trip_newtype_variant(name: Seq<char>, value: Val)
    ensures
        enum_from_val(Val::Enum(name, Box::new(value))) == Ok::<(Seq<char>, Val), Error>(
            (name, value),
        ),
{
}

/// Round trip: a finalized tuple variant decodes back as the same
/// variant name with exactly the positional fields that were written.
pub proof fn lemma_round_trip_tuple_variant(name: Seq<char>, elems: Seq<Val>)
    ensures
        enum_from_val(complete(Some(name), Val::Sequence(elems))) == Ok::<
            (Seq<char>, Val),
            Error,
        >((name, Val::Sequence(elems))),
        tuple_variant_from_val(Val::Sequence(elems)) == Ok::<Seq<Val>, Error>(elems),
{
}

/// Round trip: a finalized struct variant decodes back as the same
/// variant name with exactly the field map that was written.
pub proof fn lemma_round_trip_struct_variant(name: Seq<char>, fields: Seq<(Val, Val)>)
    ensures
        enum_from_val(complete(Some(name), Val::Mapping(fields))) == Ok::<
            (Seq<char>, Val),
            Error,
        >((name, Val::Mapping(fields))),
        struct_variant_from_val(Val::Mapping(fields)) == Ok::<Seq<(Val, Val)>, Error>(fields),
{
}

/// Map canonicalization: two distinct bindings yield the same canonical
/// map in either insertion order.
pub proof fn lemma_map_canonicalization(k1: Val, v1: Val, k2: Val, v2: Val)
    requires
        k1 != k2,
    ensures
        spec_from_entries(seq![(k1, v1), (k2, v2)]) == spec_from_entries(
            seq![(k2, v2), (k1, v1)],
        ),
{
    let empty = Seq::<(Val, Val)>::empty();
    let one = seq![(k1, v1), (k2, v2)];
    let two = seq![(k2, v2), (k1, v1)];
    assert(one.drop_last() =~= seq![(k1, v1)]);
    assert(two.drop_last() =~= seq![(k2, v2)]);
    assert(seq![(k1, v1)].drop_last() =~= empty);
    assert(seq![(k2, v2)].drop_last() =~= empty);
    assert(spec_from_entries(empty) == empty);
    assert(spec_insert(empty, k1, v1) == seq![(k1, v1)]);
    assert(spec_insert(empty, k2, v2) == seq![(k2, v2)]);
    assert(spec_from_entries(seq![(k1, v1)]) == seq![(k1, v1)]);
    assert(spec_from_entries(seq![(k2, v2)]) == seq![(k2, v2)]);
    assert(one.last() == (k2, v2) && two.last() == (k1, v1));
    assert(spec_from_entries(one) == spec_insert(seq![(k1, v1)], k2, v2));
    assert(spec_from_entries(two) == spec_insert(seq![(k2, v2)], k1, v1));
    lemma_cmp_val_flip(k1, k2);
    if cmp_val(k2, k1) == Cmp::Eq {
        lemma_cmp_val_eq(k2, k1);
    }
    if cmp_val(k2, k1) == Cmp::Lt {
        assert(cmp_val(k1, k2) == Cmp::Gt);
        assert(seq![(k2, v2)].drop_first() =~= empty);
        assert(spec_insert(seq![(k1, v1)], k2, v2) =~= seq![(k2, v2), (k1, v1)]);
        assert(spec_insert(seq![(k2, v2)], k1, v1) == seq![(k2, v2)] + spec_insert(
            empty,
            k1,
            v1,
        ));
        assert(spec_insert(seq![(k2, v2)], k1, v1) =~= seq![(k2, v2), (k1, v1)]);
    } else {
        assert(cmp_val(k2, k1) == Cmp::Gt && cmp_val(k1, k2) == Cmp::Lt);
        assert(seq![(k1, v1)].drop_first() =~= empty);
        assert(spec_insert(seq![(k1, v1)], k2, v2) == seq![(k1, v1)] + spec_insert(
            empty,
            k2,
            v2,
        ));
        assert(spec_insert(seq![(k1, v1)], k2, v2) =~= seq![(k1, v1), (k2, v2)]);
        assert(spec_insert(seq![(k2, v2)], k1, v1) =~= seq![(k1, v1), (k2, v2)]);
    }
}

/// Enum shape mismatch: an enumeration whose payload is a sequence,
/// interpreted as a struct variant, is a type error — whatever the
/// fields are.
pub proof fn lemma_enum_shape_mismatch(name: Seq<char>, elems: Seq<Val>)
    ensures
        enum_from_val(Val::Enum(name, Box::new(Val::Sequence(elems)))) == Ok::<
            (Seq<char>, Val),
            Error,
        >((name, Val::Sequence(elems))),
        struct_variant_from_val(Val::Sequence(elems)) == Err::<Seq<(Val, Val)>, Error>(
            Error::type_error_spec(Shape::Mapping, ValueKind::Sequence),
        ),
{
}

/// Float ordering: every pattern with the sign bit set sorts strictly
/// below every pattern without it; in particular the negative zero
/// pattern sorts below the positive zero pattern.
pub proof fn lemma_float_order_sign(a: u64, b: u64)
    requires
        a >= 0x8000_0000_0000_0000u64,
        b < 0x8000_0000_0000_0000u64,
    ensures
        cmp_val(Val::Float(a), Val::Float(b)) == Cmp::Lt,
        float_key(a) < 0 <= float_key(b),
{
    assert(cmp_int(float_key(a), float_key(b)) == Cmp::Lt);
}

} // verus!
