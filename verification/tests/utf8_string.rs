use serde_dynamic_typing::de::Deserializer;
use serde_dynamic_typing::ser::Serializer;
use serde_dynamic_typing::{AnyValue, Utf8String};

#[test]
fn utf8_string() {
    let value = "Testolope".to_string();
    let expected = AnyValue::Utf8String(Utf8String::from_str("Testolope"));

    let serialized = Serializer::new().serialize_str(&value);
    assert_eq!(serialized, expected);

    let deserialized: String = Deserializer::new(serialized)
        .deserialize_string()
        .expect("Failed to deserialize string");
    assert_eq!(deserialized, value);
}
