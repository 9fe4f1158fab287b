use serde_dynamic_typing::de::Deserializer;
use serde_dynamic_typing::ser::Serializer;
use serde_dynamic_typing::{AnyValue, Boolean};

#[test]
fn boolean() {
    let value = true;
    let expected = AnyValue::Bool(Boolean::new(true));

    let serialized = Serializer::new().serialize_bool(value);
    assert_eq!(serialized, expected);

    let deserialized: bool = Deserializer::new(serialized)
        .deserialize_bool()
        .expect("Failed to deserialize boolean");
    assert_eq!(deserialized, value);
}
