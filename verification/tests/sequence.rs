use serde_dynamic_typing::de::Deserializer;
use serde_dynamic_typing::ser::Serializer;
use serde_dynamic_typing::{AnyValue, Sequence, Utf8String};

#[test]
fn sequence() {
    let value = vec!["Key0".to_string(), "Key1".to_string()];
    let expected = AnyValue::Sequence(Sequence::new(vec![
        AnyValue::Utf8String(Utf8String::from_str("Key0")),
        AnyValue::Utf8String(Utf8String::from_str("Key1")),
    ]));

    let mut writer = Serializer::new().serialize_seq(Some(value.len()));
    for element in &value {
        writer.serialize_element(Serializer::new().serialize_str(element));
    }
    let serialized = writer.end();
    assert_eq!(serialized, expected);

    let mut reader = Deserializer::new(serialized)
        .deserialize_seq()
        .expect("Failed to deserialize sequence");
    let mut deserialized: Vec<String> = Vec::new();
    while let Some(element) = reader.next_element() {
        let text = Deserializer::new(element)
            .deserialize_string()
            .expect("Failed to deserialize sequence");
        deserialized.push(text);
    }
    assert_eq!(deserialized, value);
}
