use serde_dynamic_typing::de::Deserializer;
use serde_dynamic_typing::ser::Serializer;
use serde_dynamic_typing::{AnyValue, Enumeration, Integer, Sequence, Utf8String, ValueMap};

#[derive(Debug, PartialEq, Eq)]
enum UnitEnum {
    VariantA,
    VariantB,
}

#[test]
fn enum_unit() {
    let value = UnitEnum::VariantA;
    let _ = UnitEnum::VariantB;
    let expected = AnyValue::Enum(Enumeration::new(Utf8String::from_str("VariantA")));

    let serialized = match value {
        UnitEnum::VariantA => Serializer::new().serialize_unit_variant("VariantA"),
        UnitEnum::VariantB => Serializer::new().serialize_unit_variant("VariantB"),
    };
    assert_eq!(serialized, expected);

    let reader = Deserializer::new(serialized)
        .deserialize_enum()
        .expect("Failed to deserialize enum");
    let (variant, payload) = reader.variant();
    let deserialized = match variant.as_str() {
        "VariantA" => {
            payload.unit_variant().expect("Failed to deserialize enum");
            UnitEnum::VariantA
        },
        "VariantB" => {
            payload.unit_variant().expect("Failed to deserialize enum");
            UnitEnum::VariantB
        },
        _ => panic!("Failed to deserialize enum"),
    };
    assert_eq!(deserialized, value);
}

#[derive(Debug, PartialEq, Eq)]
enum UnitVariant {
    VariantA(String),
    VariantB(String),
}

#[test]
fn enum_newtype() {
    let value = UnitVariant::VariantA("ValueA".to_string());
    let _ = UnitVariant::VariantB(String::new());
    let expected = AnyValue::Enum(Enumeration::with_value(
        Utf8String::from_str("VariantA"),
        AnyValue::Utf8String(Utf8String::from_str("ValueA")),
    ));

    let serialized = match &value {
        UnitVariant::VariantA(text) => Serializer::new()
            .serialize_newtype_variant("VariantA", Serializer::new().serialize_str(text)),
        UnitVariant::VariantB(text) => Serializer::new()
            .serialize_newtype_variant("VariantB", Serializer::new().serialize_str(text)),
    };
    assert_eq!(serialized, expected);

    let reader = Deserializer::new(serialized)
        .deserialize_enum()
        .expect("Failed to deserialize enum");
    let (variant, payload) = reader.variant();
    let inner = Deserializer::new(payload.newtype_variant())
        .deserialize_string()
        .expect("Failed to deserialize enum");
    let deserialized = match variant.as_str() {
        "VariantA" => UnitVariant::VariantA(inner),
        "VariantB" => UnitVariant::VariantB(inner),
        _ => panic!("Failed to deserialize enum"),
    };
    assert_eq!(deserialized, value);
}

#[derive(Debug, PartialEq, Eq)]
enum TupleVariant {
    VariantA(String, u64),
    VariantB(String, u64),
}

#[test]
fn enum_tuple() {
    let value = TupleVariant::VariantA("ValueA".to_string(), 0);
    let _ = TupleVariant::VariantB(String::new(), 0);
    let expected = AnyValue::Enum(Enumeration::with_value(
        Utf8String::from_str("VariantA"),
        AnyValue::Sequence(Sequence::new(vec![
            AnyValue::Utf8String(Utf8String::from_str("ValueA")),
            AnyValue::Integer(Integer::from_u64(0)),
        ])),
    ));

    let serialized = match &value {
        TupleVariant::VariantA(text, index) | TupleVariant::VariantB(text, index) => {
            let name = match &value {
                TupleVariant::VariantA(_, _) => "VariantA",
                TupleVariant::VariantB(_, _) => "VariantB",
            };
            let mut writer = Serializer::new().serialize_tuple_variant(name);
            writer.serialize_element(Serializer::new().serialize_str(text));
            writer.serialize_element(Serializer::new().serialize_u64(*index));
            writer.end()
        },
    };
    assert_eq!(serialized, expected);

    let reader = Deserializer::new(serialized)
        .deserialize_enum()
        .expect("Failed to deserialize enum");
    let (variant, payload) = reader.variant();
    let mut fields = payload.tuple_variant().expect("Failed to deserialize enum");
    let text = Deserializer::new(fields.next_element().expect("Failed to deserialize enum"))
        .deserialize_string()
        .expect("Failed to deserialize enum");
    let index = Deserializer::new(fields.next_element().expect("Failed to deserialize enum"))
        .deserialize_u64()
        .expect("Failed to deserialize enum");
    let deserialized = match variant.as_str() {
        "VariantA" => TupleVariant::VariantA(text, index),
        "VariantB" => TupleVariant::VariantB(text, index),
        _ => panic!("Failed to deserialize enum"),
    };
    assert_eq!(deserialized, value);
}

#[derive(Debug, PartialEq, Eq)]
enum StructVariant {
    VariantA { value_name: String, value_index: u64 },
    VariantB { value_name: String, value_index: u64 },
}

#[test]
fn enum_struct() {
    let value = StructVariant::VariantA { value_name: "ValueA".to_string(), value_index: 0 };
    let _ = StructVariant::VariantB { value_name: String::new(), value_index: 0 };
    let expected = AnyValue::Enum(Enumeration::with_value(
        Utf8String::from_str("VariantA"),
        AnyValue::Mapping(ValueMap::from_entries(vec![
            (
                AnyValue::Utf8String(Utf8String::from_str("value_name")),
                AnyValue::Utf8String(Utf8String::from_str("ValueA")),
            ),
            (
                AnyValue::Utf8String(Utf8String::from_str("value_index")),
                AnyValue::Integer(Integer::from_u64(0)),
            ),
        ])),
    ));

    let serialized = match &value {
        StructVariant::VariantA { value_name, value_index }
        | StructVariant::VariantB { value_name, value_index } => {
            let name = match &value {
                StructVariant::VariantA { .. } => "VariantA",
                StructVariant::VariantB { .. } => "VariantB",
            };
            let mut writer = Serializer::new().serialize_struct_variant(name);
            writer.serialize_field("value_name", Serializer::new().serialize_str(value_name));
            writer.serialize_field("value_index", Serializer::new().serialize_u64(*value_index));
            writer.end()
        },
    };
    assert_eq!(serialized, expected);

    let reader = Deserializer::new(serialized)
        .deserialize_enum()
        .expect("Failed to deserialize enum");
    let (variant, payload) = reader.variant();
    let mut fields = payload.struct_variant().expect("Failed to deserialize enum");
    let mut value_name: Option<String> = None;
    let mut value_index: Option<u64> = None;
    while let Some(key) = fields.next_key() {
        let field = Deserializer::new(key)
            .deserialize_identifier()
            .expect("Failed to deserialize enum");
        match field.as_str() {
            "value_name" => {
                value_name = Some(
                    Deserializer::new(fields.next_value())
                        .deserialize_string()
                        .expect("Failed to deserialize enum"),
                );
            },
            "value_index" => {
                value_index = Some(
                    Deserializer::new(fields.next_value())
                        .deserialize_u64()
                        .expect("Failed to deserialize enum"),
                );
            },
            _ => panic!("Failed to deserialize enum"),
        }
    }
    let value_name = value_name.expect("Failed to deserialize enum");
    let value_index = value_index.expect("Failed to deserialize enum");
    let deserialized = match variant.as_str() {
        "VariantA" => StructVariant::VariantA { value_name, value_index },
        "VariantB" => StructVariant::VariantB { value_name, value_index },
        _ => panic!("Failed to deserialize enum"),
    };
    assert_eq!(deserialized, value);
}
