use serde_dynamic_typing::de::Deserializer;
use serde_dynamic_typing::ser::Serializer;
use serde_dynamic_typing::{AnyValue, Integer};

#[test]
fn integer() {
    let value = 7usize;
    let expected = AnyValue::Integer(Integer::from_usize(7));

    let serialized = Serializer::new().serialize_u64(value as u64);
    assert_eq!(serialized, expected);

    let deserialized: usize = Deserializer::new(serialized)
        .deserialize_u64()
        .expect("Failed to deserialize integer") as usize;
    assert_eq!(deserialized, value);
}
