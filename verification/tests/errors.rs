use serde_dynamic_typing::de::{Deserializer, NaturalShape};
use serde_dynamic_typing::error::{Error, ErrorKind, Shape, ValueKind};
use serde_dynamic_typing::ser::Serializer;
use serde_dynamic_typing::{AnyValue, Integer, Utf8String, ValueMap};

#[test]
fn integer_width_narrowing() {
    // Encoding 300 and decoding it as an 8-bit unsigned target fails
    // with a type error instead of truncating.
    let serialized = Serializer::new().serialize_u16(300);
    let narrow = Deserializer::new(serialized).deserialize_u8();
    let error = narrow.expect_err("out-of-range narrowing must fail");
    assert_eq!(error.kind, ErrorKind::TypeError);
    assert_eq!(error.expected, Some(Shape::U8));
    assert_eq!(error.actual, Some(ValueKind::Integer));

    // 200 fits and round-trips.
    let serialized = Serializer::new().serialize_u16(200);
    let narrow = Deserializer::new(serialized).deserialize_u8();
    assert_eq!(narrow.expect("in-range narrowing must succeed"), 200u8);
}

#[test]
fn signed_to_unsigned_narrowing() {
    let serialized = Serializer::new().serialize_i32(-1);
    let error = Deserializer::new(serialized)
        .deserialize_u32()
        .expect_err("a negative value has no unsigned form");
    assert_eq!(error.kind, ErrorKind::TypeError);
    assert_eq!(error.expected, Some(Shape::U32));

    let serialized = Serializer::new().serialize_i32(-1);
    let back = Deserializer::new(serialized)
        .deserialize_i64()
        .expect("a widening decode must succeed");
    assert_eq!(back, -1i64);
}

#[test]
fn enum_shape_mismatch() {
    // An enum whose payload is a sequence, decoded with a struct-variant
    // request, fails with a type error.
    let mut writer = Serializer::new().serialize_tuple_variant("VariantA");
    writer.serialize_element(Serializer::new().serialize_str("ValueA"));
    let serialized = writer.end();

    let reader = Deserializer::new(serialized)
        .deserialize_enum()
        .expect("the value is an enum");
    let (variant, payload) = reader.variant();
    assert_eq!(variant.as_str(), "VariantA");
    let error = payload
        .struct_variant()
        .expect_err("a sequence payload is no struct variant");
    assert_eq!(error.kind, ErrorKind::TypeError);
    assert_eq!(error.expected, Some(Shape::Mapping));
    assert_eq!(error.actual, Some(ValueKind::Sequence));
}

#[test]
fn scalar_shape_mismatch() {
    // No implicit coercion between variants: a string does not decode
    // as a number, and the error names both sides.
    let serialized = Serializer::new().serialize_str("42");
    let error = Deserializer::new(serialized)
        .deserialize_u32()
        .expect_err("no string-to-number coercion");
    assert_eq!(error.kind, ErrorKind::TypeError);
    assert_eq!(error.expected, Some(Shape::Integer));
    assert_eq!(error.actual, Some(ValueKind::Utf8String));

    let serialized = Serializer::new().serialize_bool(true);
    let error = Deserializer::new(serialized)
        .deserialize_string()
        .expect_err("a boolean is no string");
    assert_eq!(error.expected, Some(Shape::Str));
    assert_eq!(error.actual, Some(ValueKind::Bool));
}

#[test]
fn char_decoding() {
    // A character round-trips through a one-character string.
    let serialized = Serializer::new().serialize_char('T');
    assert_eq!(
        serialized,
        AnyValue::Utf8String(Utf8String::from_str("T")),
    );
    let back = Deserializer::new(serialized)
        .deserialize_char()
        .expect("a one-character string decodes as a char");
    assert_eq!(back, 'T');

    // A longer string does not.
    let serialized = Serializer::new().serialize_str("TT");
    let error = Deserializer::new(serialized)
        .deserialize_char()
        .expect_err("a two-character string is no char");
    assert_eq!(error.kind, ErrorKind::TypeError);
    assert_eq!(error.expected, Some(Shape::Char));
    assert_eq!(error.actual, Some(ValueKind::Utf8String));
}

#[test]
fn absent_key_lookup() {
    // Looking an absent key up in a decoded map fails with no-such-key.
    let mut writer = Serializer::new().serialize_map(Some(1));
    writer.serialize_key(Serializer::new().serialize_str("Key0"));
    writer.serialize_value(Serializer::new().serialize_u64(0));
    let serialized = writer.end();

    let map = match serialized {
        AnyValue::Mapping(map) => map,
        _ => panic!("the encoded value must be a map"),
    };
    let absent = AnyValue::Utf8String(Utf8String::from_str("Key1"));
    let error = map.lookup(&absent).expect_err("the key is absent");
    assert_eq!(error.kind, ErrorKind::NoSuchKey);

    let present = AnyValue::Utf8String(Utf8String::from_str("Key0"));
    let bound = map.lookup(&present).expect("the key is present");
    assert_eq!(bound, &AnyValue::Integer(Integer::from_u64(0)));
}

#[test]
fn error_constructors_classify() {
    assert_eq!(Error::invalid_data().kind, ErrorKind::InvalidData);
    assert_eq!(Error::no_such_key().kind, ErrorKind::NoSuchKey);
    assert_eq!(Error::serde_error().kind, ErrorKind::SerdeError);
    let type_error = Error::type_error(Shape::Bool, ValueKind::Null);
    assert_eq!(type_error.kind, ErrorKind::TypeError);
    assert_eq!(type_error.expected, Some(Shape::Bool));
    assert_eq!(type_error.actual, Some(ValueKind::Null));
}

#[test]
fn optional_decoding() {
    // Absence decodes as absent; any other value is present.
    let absent = Serializer::new().serialize_none();
    assert!(Deserializer::new(absent).deserialize_option().is_none());

    let present = Serializer::new().serialize_some(Serializer::new().serialize_bool(true));
    let inner = Deserializer::new(
        Deserializer::new(present)
            .deserialize_option()
            .expect("the value is present"),
    );
    assert!(inner.deserialize_bool().expect("the inner value is a boolean"));

    // Unit decodes only from the absence marker.
    let unit = Serializer::new().serialize_unit();
    Deserializer::new(unit).deserialize_unit().expect("unit decodes from absence");
    let not_unit = Serializer::new().serialize_bool(false);
    let error = Deserializer::new(not_unit)
        .deserialize_unit()
        .expect_err("a boolean is no unit");
    assert_eq!(error.expected, Some(Shape::Unit));

    let map = ValueMap::new();
    assert_eq!(map.len(), 0);
}

#[test]
fn natural_shape_classification() {
    let cases = vec![
        (Serializer::new().serialize_bool(true), NaturalShape::Bool),
        (Serializer::new().serialize_u64(7), NaturalShape::UnsignedInteger),
        (Serializer::new().serialize_i64(-7), NaturalShape::SignedInteger),
        (
            Serializer::new().serialize_float_bits(0.5f64.to_bits()),
            NaturalShape::Float,
        ),
        (Serializer::new().serialize_str("x"), NaturalShape::Utf8String),
        (Serializer::new().serialize_bytes(&[1]), NaturalShape::Bytes),
        (Serializer::new().serialize_seq(None).end(), NaturalShape::Sequence),
        (Serializer::new().serialize_map(None).end(), NaturalShape::Mapping),
        (
            Serializer::new().serialize_unit_variant("VariantA"),
            NaturalShape::Enum,
        ),
        (Serializer::new().serialize_none(), NaturalShape::Unit),
    ];
    for (value, expected) in cases {
        assert_eq!(Deserializer::new(value).deserialize_any_shape(), expected);
    }
}

#[test]
fn large_width_round_trips() {
    let serialized = Serializer::new().serialize_u128(u128::MAX);
    let back = Deserializer::new(serialized)
        .deserialize_u128()
        .expect("the widest unsigned width round-trips");
    assert_eq!(back, u128::MAX);

    let serialized = Serializer::new().serialize_i128(i128::MIN);
    let back = Deserializer::new(serialized)
        .deserialize_i128()
        .expect("the widest signed width round-trips");
    assert_eq!(back, i128::MIN);

    // The widest unsigned value does not fit any signed width.
    let serialized = Serializer::new().serialize_u128(u128::MAX);
    let error = Deserializer::new(serialized)
        .deserialize_i128()
        .expect_err("the value exceeds the signed range");
    assert_eq!(error.kind, ErrorKind::TypeError);
    assert_eq!(error.expected, Some(Shape::I128));
}
