use serde_dynamic_typing::de::Deserializer;
use serde_dynamic_typing::ser::Serializer;
use serde_dynamic_typing::{AnyValue, Float};

#[test]
fn float() {
    let value = 0.478f64;
    let expected = AnyValue::Float(Float::from_bits(0.478f64.to_bits()));

    let serialized = Serializer::new().serialize_float_bits(value.to_bits());
    assert_eq!(serialized, expected);

    let bits = Deserializer::new(serialized)
        .deserialize_float_bits()
        .expect("Failed to deserialize float");
    let deserialized: f64 = f64::from_bits(bits);
    assert_eq!(deserialized, value);
}
