use serde_dynamic_typing::order::{cmp_value, Cmp};
use serde_dynamic_typing::{
    AnyValue, Boolean, Bytes, Enumeration, Float, Integer, Sequence, Utf8String, ValueMap,
};

#[test]
fn total_order_trichotomy() {
    let values = vec![
        AnyValue::Bool(Boolean::new(false)),
        AnyValue::Bool(Boolean::new(true)),
        AnyValue::Integer(Integer::UnsignedInteger(5)),
        AnyValue::Integer(Integer::SignedInteger(-3)),
        AnyValue::Float(Float::from_bits(0.5f64.to_bits())),
        AnyValue::Utf8String(Utf8String::from_str("abc")),
        AnyValue::Bytes(Bytes::new(vec![1, 2, 3])),
        AnyValue::Sequence(Sequence::new(vec![AnyValue::Null])),
        AnyValue::Mapping(ValueMap::new()),
        AnyValue::Null,
    ];
    for a in &values {
        for b in &values {
            let ab = cmp_value(a, b);
            let ba = cmp_value(b, a);
            // Exactly one of below, equal and above holds, and the
            // outcome flips with the sides.
            match ab {
                Cmp::Lt => assert!(matches!(ba, Cmp::Gt)),
                Cmp::Eq => assert!(matches!(ba, Cmp::Eq)),
                Cmp::Gt => assert!(matches!(ba, Cmp::Lt)),
            }
            if std::ptr::eq(a, b) {
                assert!(matches!(ab, Cmp::Eq));
            }
        }
    }
}

#[test]
fn total_order_by_variant() {
    // Bool < Integer < Float, by variant alone.
    let boolean = AnyValue::Bool(Boolean::new(true));
    let integer = AnyValue::Integer(Integer::UnsignedInteger(0));
    let float = AnyValue::Float(Float::from_bits(0));
    assert!(matches!(cmp_value(&boolean, &integer), Cmp::Lt));
    assert!(matches!(cmp_value(&integer, &float), Cmp::Lt));
    assert!(matches!(cmp_value(&boolean, &float), Cmp::Lt));
}

#[test]
fn total_order_integer_subranges() {
    // The whole unsigned sub-range sorts before the signed one.
    let unsigned = AnyValue::Integer(Integer::UnsignedInteger(5));
    let signed = AnyValue::Integer(Integer::SignedInteger(-3));
    assert!(matches!(cmp_value(&unsigned, &signed), Cmp::Lt));

    let two = AnyValue::Integer(Integer::UnsignedInteger(2));
    let ten = AnyValue::Integer(Integer::UnsignedInteger(10));
    assert!(matches!(cmp_value(&two, &ten), Cmp::Lt));
}

#[test]
fn total_order_strings_and_bytes() {
    let a = AnyValue::Utf8String(Utf8String::from_str("abc"));
    let b = AnyValue::Utf8String(Utf8String::from_str("abd"));
    let prefix = AnyValue::Utf8String(Utf8String::from_str("ab"));
    assert!(matches!(cmp_value(&a, &b), Cmp::Lt));
    assert!(matches!(cmp_value(&prefix, &a), Cmp::Lt));

    let x = AnyValue::Bytes(Bytes::new(vec![1, 2]));
    let y = AnyValue::Bytes(Bytes::new(vec![1, 2, 0]));
    assert!(matches!(cmp_value(&x, &y), Cmp::Lt));
}

#[test]
fn float_ordering() {
    // Negative zero sorts strictly below positive zero: the order goes
    // by the adjusted bit patterns, not by native float comparison.
    let neg_zero = AnyValue::Float(Float::from_bits((-0.0f64).to_bits()));
    let pos_zero = AnyValue::Float(Float::from_bits(0.0f64.to_bits()));
    assert!(matches!(cmp_value(&neg_zero, &pos_zero), Cmp::Lt));

    // NaN takes a deterministic, reproducible position: the quiet NaN
    // pattern sorts above positive infinity, and equal to itself.
    let nan = AnyValue::Float(Float::from_bits(f64::NAN.to_bits()));
    let infinity = AnyValue::Float(Float::from_bits(f64::INFINITY.to_bits()));
    let nan_again = AnyValue::Float(Float::from_bits(f64::NAN.to_bits()));
    assert!(matches!(cmp_value(&nan, &infinity), Cmp::Gt));
    assert!(matches!(cmp_value(&nan, &nan_again), Cmp::Eq));

    // Ordinary magnitudes sort as numbers.
    let one = AnyValue::Float(Float::from_bits(1.0f64.to_bits()));
    let two = AnyValue::Float(Float::from_bits(2.0f64.to_bits()));
    let minus_one = AnyValue::Float(Float::from_bits((-1.0f64).to_bits()));
    let minus_two = AnyValue::Float(Float::from_bits((-2.0f64).to_bits()));
    assert!(matches!(cmp_value(&one, &two), Cmp::Lt));
    assert!(matches!(cmp_value(&minus_two, &minus_one), Cmp::Lt));
    assert!(matches!(cmp_value(&minus_one, &one), Cmp::Lt));
}

#[test]
fn total_order_transitive_spot_check() {
    // Transitivity across mixed variants and inside one variant.
    let bool_true = AnyValue::Bool(Boolean::new(true));
    let int_seven = AnyValue::Integer(Integer::UnsignedInteger(7));
    let text = AnyValue::Utf8String(Utf8String::from_str("x"));
    assert!(matches!(cmp_value(&bool_true, &int_seven), Cmp::Lt));
    assert!(matches!(cmp_value(&int_seven, &text), Cmp::Lt));
    assert!(matches!(cmp_value(&bool_true, &text), Cmp::Lt));

    let a = AnyValue::Utf8String(Utf8String::from_str("a"));
    let ab = AnyValue::Utf8String(Utf8String::from_str("ab"));
    let b = AnyValue::Utf8String(Utf8String::from_str("b"));
    assert!(matches!(cmp_value(&a, &ab), Cmp::Lt));
    assert!(matches!(cmp_value(&ab, &b), Cmp::Lt));
    assert!(matches!(cmp_value(&a, &b), Cmp::Lt));
}

#[test]
fn map_canonicalization() {
    // The same two bindings, in both insertion orders, give identical
    // dynamic values.
    let key0 = || AnyValue::Utf8String(Utf8String::from_str("Key0"));
    let key1 = || AnyValue::Utf8String(Utf8String::from_str("Key1"));
    let val0 = || AnyValue::Integer(Integer::from_i32(0));
    let val1 = || AnyValue::Integer(Integer::from_i32(1));

    let forward = ValueMap::from_entries(vec![(key0(), val0()), (key1(), val1())]);
    let backward = ValueMap::from_entries(vec![(key1(), val1()), (key0(), val0())]);
    assert_eq!(forward, backward);

    // And the identical values take the identical position under the
    // total order.
    let forward = AnyValue::Mapping(forward);
    let backward = AnyValue::Mapping(backward);
    assert!(matches!(cmp_value(&forward, &backward), Cmp::Eq));

    // Duplicate keys collapse and the last write wins.
    let collapsed = ValueMap::from_entries(vec![(key0(), val0()), (key0(), val1())]);
    assert_eq!(collapsed.len(), 1);
    let bound = collapsed.lookup(&key0()).expect("key must be present");
    assert_eq!(*bound, val1());
}

#[test]
fn map_iterates_in_canonical_order() {
    let mut map = ValueMap::new();
    map.insert(
        AnyValue::Utf8String(Utf8String::from_str("Key1")),
        AnyValue::Null,
    );
    map.insert(
        AnyValue::Utf8String(Utf8String::from_str("Key0")),
        AnyValue::Null,
    );
    assert_eq!(
        &map.entry(0).0,
        &AnyValue::Utf8String(Utf8String::from_str("Key0")),
    );
    assert_eq!(
        &map.entry(1).0,
        &AnyValue::Utf8String(Utf8String::from_str("Key1")),
    );
}

#[test]
fn composite_keys_order_canonically() {
    // Maps may be keyed by any dynamic value, composites included; the
    // canonical order recurses structurally.
    let seq_key_short = || {
        AnyValue::Sequence(Sequence::new(vec![AnyValue::Integer(Integer::from_u64(1))]))
    };
    let seq_key_long = || {
        AnyValue::Sequence(Sequence::new(vec![
            AnyValue::Integer(Integer::from_u64(1)),
            AnyValue::Integer(Integer::from_u64(2)),
        ]))
    };
    assert!(matches!(cmp_value(&seq_key_short(), &seq_key_long()), Cmp::Lt));

    let mut map = ValueMap::new();
    map.insert(seq_key_long(), AnyValue::Null);
    map.insert(seq_key_short(), AnyValue::Null);
    assert_eq!(map.len(), 2);
    assert_eq!(&map.entry(0).0, &seq_key_short());
    assert_eq!(&map.entry(1).0, &seq_key_long());

    // Inserting an equal composite key again overwrites, not duplicates.
    map.insert(seq_key_short(), AnyValue::Bool(Boolean::new(true)));
    assert_eq!(map.len(), 2);
    assert_eq!(
        map.lookup(&seq_key_short()).expect("the key is present"),
        &AnyValue::Bool(Boolean::new(true)),
    );
}

#[test]
fn enumeration_order_by_name_then_payload() {
    let a_unit = AnyValue::Enum(Enumeration::new(Utf8String::from_str("A")));
    let a_one = AnyValue::Enum(Enumeration::with_value(
        Utf8String::from_str("A"),
        AnyValue::Integer(Integer::from_u64(1)),
    ));
    let b_unit = AnyValue::Enum(Enumeration::new(Utf8String::from_str("B")));
    // Names first: every "A" variant sorts before every "B" variant.
    assert!(matches!(cmp_value(&a_unit, &b_unit), Cmp::Lt));
    assert!(matches!(cmp_value(&a_one, &b_unit), Cmp::Lt));
    // Equal names fall back to the payload; Integer sorts before Null
    // by variant rank.
    assert!(matches!(cmp_value(&a_one, &a_unit), Cmp::Lt));
}
