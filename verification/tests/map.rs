use serde_dynamic_typing::de::Deserializer;
use serde_dynamic_typing::ser::Serializer;
use serde_dynamic_typing::{AnyValue, Integer, Utf8String, ValueMap};
use std::collections::HashMap;

#[test]
fn map() {
    let value: HashMap<String, i32> = HashMap::from_iter(vec![
        ("Key0".to_string(), 0),
        ("Key1".to_string(), 1),
    ]);
    let expected = AnyValue::Mapping(ValueMap::from_entries(vec![
        (
            AnyValue::Utf8String(Utf8String::from_str("Key0")),
            AnyValue::Integer(Integer::from_i32(0)),
        ),
        (
            AnyValue::Utf8String(Utf8String::from_str("Key1")),
            AnyValue::Integer(Integer::from_i32(1)),
        ),
    ]));

    let mut writer = Serializer::new().serialize_map(Some(value.len()));
    let mut sorted: Vec<(&String, &i32)> = value.iter().collect();
    sorted.sort();
    for (key, entry) in sorted {
        writer.serialize_key(Serializer::new().serialize_str(key));
        writer.serialize_value(Serializer::new().serialize_i32(*entry));
    }
    let serialized = writer.end();
    assert_eq!(serialized, expected);

    let mut reader = Deserializer::new(serialized)
        .deserialize_map()
        .expect("Failed to deserialize map");
    let mut deserialized: HashMap<String, i32> = HashMap::new();
    while let Some(key) = reader.next_key() {
        let name = Deserializer::new(key)
            .deserialize_string()
            .expect("Failed to deserialize map");
        let entry = Deserializer::new(reader.next_value())
            .deserialize_i32()
            .expect("Failed to deserialize map");
        deserialized.insert(name, entry);
    }
    assert_eq!(deserialized, value);
}
