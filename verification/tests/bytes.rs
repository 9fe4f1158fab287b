use serde_dynamic_typing::de::Deserializer;
use serde_dynamic_typing::ser::Serializer;
use serde_dynamic_typing::{AnyValue, Bytes};

#[test]
fn bytes() {
    let value = b"Testolope".to_vec();
    let expected = AnyValue::Bytes(Bytes::new(b"Testolope".to_vec()));

    let serialized = Serializer::new().serialize_bytes(&value);
    assert_eq!(serialized, expected);

    let deserialized: Vec<u8> = Deserializer::new(serialized)
        .deserialize_bytes()
        .expect("Failed to deserialize bytes");
    assert_eq!(deserialized, value);
}
