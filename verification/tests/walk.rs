//! Both directions of the codec, called event by event as a walk over a
//! typed value calls them.

use serde_datastore::datastore::{
    Blob, Double, Entity, Int, Key, LatLng, PartitionId, Timestamp, Value,
};
use serde_datastore::serde_ds::de::{int_value, ArrayAccess, Deserializer, EntityAccess, Visit};
use serde_datastore::serde_ds::ser::{key_of, Serializer};
use serde_datastore::serde_ds::Error;

fn double(v: f64) -> Double {
    Double::from_bits(v.to_bits())
}

#[test]
fn integer_text_of_an_encoded_byte() {
    match Serializer.serialize_u8(14) {
        Ok(Value::Integer { integer_value }) => assert_eq!("14", integer_value.as_str()),
        other => panic!("unexpected result {:?}", other),
    }
}

#[test]
fn scalars_encode_to_their_variants() {
    assert_eq!(Ok(Value::Boolean { boolean_value: false }), Serializer.serialize_bool(false));
    assert_eq!(Ok(Value::from(-8)), Serializer.serialize_i8(-8));
    assert_eq!(Ok(Value::from(-16)), Serializer.serialize_i16(-16));
    assert_eq!(Ok(Value::from(-32)), Serializer.serialize_i32(-32));
    assert_eq!(Ok(Value::from(-64)), Serializer.serialize_i64(-64));
    assert_eq!(Ok(Value::from(8)), Serializer.serialize_u8(8));
    assert_eq!(Ok(Value::from(16)), Serializer.serialize_u16(16));
    assert_eq!(Ok(Value::from(32)), Serializer.serialize_u32(32));
    assert_eq!(Ok(Value::from(64)), Serializer.serialize_u64(64));
    assert_eq!(
        Ok(Value::Double { double_value: double(2.5) }),
        Serializer.serialize_f64(double(2.5))
    );
    assert_eq!(Ok(Value::from("text")), Serializer.serialize_str("text"));
    assert_eq!(Ok(Value::from(Blob(vec![1, 2]))), Serializer.serialize_bytes(&[1, 2]));
    assert_eq!(Ok(Value::from(())), Serializer.serialize_none());
    assert_eq!(Ok(Value::from(())), Serializer.serialize_unit());
    assert_eq!(Ok(Value::from(())), Serializer.serialize_unit_struct("Foo"));
    assert_eq!(Ok(Value::from("Red")), Serializer.serialize_unit_variant("Colour", 0, "Red"));
    assert_eq!(Ok(Value::from(5)), Serializer.serialize_some(Value::from(5)));
    assert_eq!(Ok(Value::from(5)), Serializer.serialize_newtype_struct("Metres", Value::from(5)));
}

#[test]
fn unsigned_above_the_signed_range_is_refused() {
    assert_eq!(
        Ok(Value::from(9223372036854775807i64)),
        Serializer.serialize_u64(9223372036854775807)
    );
    assert_eq!(Err(Error::IntegerSizeMismatch()), Serializer.serialize_u64(9223372036854775808));
    assert_eq!(Err(Error::IntegerSizeMismatch()), Serializer.serialize_u64(u64::MAX));
}

#[test]
fn shapes_without_a_wire_form_are_refused() {
    assert_eq!(Err(Error::UnsupportedValueType("char")), Serializer.serialize_char('x'));
    assert_eq!(
        Some(Error::UnsupportedValueType("serde tuple")),
        Serializer.serialize_tuple(2).err()
    );
    assert_eq!(
        Some(Error::UnsupportedValueType("serde tuple struct")),
        Serializer.serialize_tuple_struct("Pair", 2).err()
    );
    assert_eq!(
        Some(Error::UnsupportedValueType("serde tuple variant")),
        Serializer.serialize_tuple_variant("E", 0, "V", 2).err()
    );
    assert_eq!(
        Err(Error::UnsupportedValueType("serde newtype variant")),
        Serializer.serialize_newtype_variant("E", 0, "V", Value::from(1))
    );
    assert_eq!(
        Some(Error::UnsupportedValueType("serde struct variant")),
        Serializer.serialize_struct_variant("E", 0, "V", 2).err()
    );
}

#[test]
fn sequence_keeps_length_and_order() {
    let mut seq = Serializer.serialize_seq(Some(3)).ok().expect("no sequence");
    assert_eq!(Ok(()), seq.serialize_element(Value::from(3)));
    assert_eq!(Ok(()), seq.serialize_element(Value::from(1)));
    assert_eq!(Ok(()), seq.serialize_element(Value::from(3)));
    assert_eq!(
        Ok(Value::from(vec![Value::from(3), Value::from(1), Value::from(3)])),
        seq.end()
    );
    let empty = Serializer.serialize_seq(None).ok().expect("no sequence");
    assert_eq!(Ok(Value::from(vec![])), empty.end());
}

#[test]
fn map_takes_keys_then_values() {
    let mut map = Serializer.serialize_map(None).ok().expect("no map");
    assert_eq!(Ok(()), map.serialize_key(Value::from("a")));
    assert_eq!(Ok(()), map.serialize_value(Value::from(1)));
    assert_eq!(Ok(()), map.serialize_entry(Value::from("b"), Value::from(2)));
    assert_eq!(Ok(()), map.serialize_field("c", Value::from(3)));

    let expected = Entity::from_properties(vec![
        ("c".to_string(), Value::from(3)),
        ("b".to_string(), Value::from(2)),
        ("a".to_string(), Value::from(1)),
    ]);
    assert_eq!(Ok(Value::from(expected)), map.end());
}

#[test]
fn map_refuses_keys_that_are_no_strings() {
    let mut map = Serializer.serialize_map(None).ok().expect("no map");
    assert_eq!(Err(Error::UnsupportedKeyType()), map.serialize_key(Value::from(1)));
    assert_eq!(
        Err(Error::UnsupportedKeyType()),
        map.serialize_entry(Value::from(true), Value::from(1))
    );
    assert_eq!(Ok(Value::from(Entity::new())), map.end());
}

#[test]
fn only_a_string_names_a_property() {
    assert_eq!(Ok("name".to_string()), key_of(Value::from("name")));
    assert_eq!(Ok(String::new()), key_of(Value::from("")));
    assert_eq!(Err(Error::UnsupportedKeyType()), key_of(Value::from(1)));
    assert_eq!(Err(Error::UnsupportedKeyType()), key_of(Value::from(())));
    assert_eq!(Err(Error::UnsupportedKeyType()), key_of(Value::from(Blob(vec![b'a']))));
}

#[test]
fn map_value_without_key_is_an_error() {
    let mut map = Serializer.serialize_struct("S", 1).ok().expect("no map");
    assert_eq!(
        Err(Error::SerializationError("map key is missing".to_string())),
        map.serialize_value(Value::from(1))
    );
    assert_eq!(Ok(Value::from(Entity::new())), map.end());
}

#[test]
fn map_key_stays_for_later_values() {
    let mut map = Serializer.serialize_map(None).ok().expect("no map");
    assert_eq!(Ok(()), map.serialize_key(Value::from("a")));
    assert_eq!(Ok(()), map.serialize_value(Value::from(1)));
    assert_eq!(Ok(()), map.serialize_value(Value::from(2)));
    let expected = Entity::from_properties(vec![("a".to_string(), Value::from(2))]);
    assert_eq!(Ok(Value::from(expected)), map.end());
}

#[test]
fn integer_of_a_value() {
    let value = Value::from(5);
    assert_eq!(Ok(&Int::from(5)), int_value(&value));
    assert_eq!(Err(Error::ExpectedType("integer")), int_value(&Value::from("5")));
}

#[test]
fn scalars_decode_from_their_variants() {
    assert_eq!(Ok(true), Deserializer::new(Value::from(true)).deserialize_bool());
    assert_eq!(Ok(-8), Deserializer::new(Value::from(-8)).deserialize_i8());
    assert_eq!(Ok(-16), Deserializer::new(Value::from(-16)).deserialize_i16());
    assert_eq!(Ok(-32), Deserializer::new(Value::from(-32)).deserialize_i32());
    assert_eq!(Ok(-64), Deserializer::new(Value::from(-64)).deserialize_i64());
    assert_eq!(Ok(8), Deserializer::new(Value::from(8)).deserialize_u8());
    assert_eq!(Ok(16), Deserializer::new(Value::from(16)).deserialize_u16());
    assert_eq!(Ok(32), Deserializer::new(Value::from(32)).deserialize_u32());
    assert_eq!(Ok(64), Deserializer::new(Value::from(64)).deserialize_u64());
    assert_eq!(Ok(double(2.5)), Deserializer::new(Value::from(double(2.5))).deserialize_f64());
    assert_eq!(Ok(double(2.5)), Deserializer::new(Value::from(double(2.5))).deserialize_f32());
    assert_eq!(Ok("text"), Deserializer::new(Value::from("text")).deserialize_str());
    assert_eq!(Ok("text"), Deserializer::new(Value::from("text")).deserialize_identifier());
    assert_eq!(
        Ok("text".to_string()),
        Deserializer::new(Value::from("text")).deserialize_string()
    );
    let bytes: &[u8] = &[1, 2];
    assert_eq!(Ok(bytes), Deserializer::new(Value::from(Blob(vec![1, 2]))).deserialize_bytes());
    assert_eq!(
        Ok(vec![1, 2]),
        Deserializer::new(Value::from(Blob(vec![1, 2]))).deserialize_byte_buf()
    );
    assert_eq!(Ok(()), Deserializer::new(Value::from(())).deserialize_unit());
    assert_eq!(Ok(()), Deserializer::new(Value::from(())).deserialize_unit_struct("Foo"));
}

#[test]
fn decoding_the_wrong_variant_names_the_expected_one() {
    let text = Deserializer::new(Value::from("text"));
    assert_eq!(Err(Error::ExpectedType("bool")), text.deserialize_bool());
    assert_eq!(Err(Error::ExpectedType("integer")), text.deserialize_i8());
    assert_eq!(Err(Error::ExpectedType("integer")), text.deserialize_u64());
    assert_eq!(Err(Error::ExpectedType("double")), text.deserialize_f32());
    assert_eq!(Err(Error::ExpectedType("double")), text.deserialize_f64());
    assert_eq!(Err(Error::ExpectedType("blob")), text.deserialize_bytes());
    assert_eq!(Err(Error::ExpectedType("blob")), text.deserialize_byte_buf());
    assert_eq!(Err(Error::ExpectedType("null")), text.deserialize_unit());
    assert_eq!(Err(Error::ExpectedType("null")), text.deserialize_unit_struct("Foo"));
    assert_eq!(Some(Error::ExpectedType("array")), text.deserialize_seq().err());
    assert_eq!(Some(Error::ExpectedType("entity")), text.deserialize_map().err());
    assert_eq!(Some(Error::ExpectedType("entity")), text.deserialize_struct("S", &["a"]).err());
    assert_eq!(Some(Error::ExpectedType("array")), ArrayAccess::new(&Value::from(1)).err());
    assert_eq!(Some(Error::ExpectedType("entity")), EntityAccess::new(&Value::from(1)).err());
    let number = Deserializer::new(Value::from(1));
    assert_eq!(Err(Error::ExpectedType("string")), number.deserialize_str());
    assert_eq!(Err(Error::ExpectedType("string")), number.deserialize_string());
    assert_eq!(Err(Error::ExpectedType("string")), number.deserialize_identifier());
}

#[test]
fn targets_that_are_not_offered() {
    let value = Deserializer::new(Value::from("x"));
    assert_eq!(Err(Error::UnsupportedValueType("char")), value.deserialize_char());
    assert_eq!(
        Some(Error::NotYetImplemented("tuple deserialization")),
        value.deserialize_tuple(2).err()
    );
    assert_eq!(
        Some(Error::UnsupportedValueType("tuple struct deserialization")),
        value.deserialize_tuple_struct("Pair", 2).err()
    );
    assert_eq!(
        Some(Error::NotYetImplemented("enum deserialization")),
        value.deserialize_enum("Colour", &["Red"]).err()
    );
    assert_eq!(
        Some(Error::NotYetImplemented("ignored value deserialization")),
        value.deserialize_ignored_any().err()
    );
}

#[test]
fn integer_too_wide_for_the_target() {
    let stored = Value::Integer { integer_value: Int::new("9223372036854775807".to_string()) };
    let de = Deserializer::new(stored);
    assert_eq!(Err(Error::IntegerSizeMismatch()), de.deserialize_i8());
    assert_eq!(Err(Error::IntegerSizeMismatch()), de.deserialize_i16());
    assert_eq!(Err(Error::IntegerSizeMismatch()), de.deserialize_i32());
    assert_eq!(Err(Error::IntegerSizeMismatch()), de.deserialize_u8());
    assert_eq!(Err(Error::IntegerSizeMismatch()), de.deserialize_u16());
    assert_eq!(Err(Error::IntegerSizeMismatch()), de.deserialize_u32());
    assert_eq!(Ok(9223372036854775807), de.deserialize_i64());
    assert_eq!(Ok(9223372036854775807), de.deserialize_u64());
}

#[test]
fn malformed_integer_text_on_decode() {
    let stored = Value::Integer { integer_value: Int::new("four".to_string()) };
    let de = Deserializer::new(stored);
    assert_eq!(Err(Error::ParseIntError()), de.deserialize_i64());
    assert_eq!(Err(Error::ParseIntError()), de.deserialize_u8());
    assert_eq!(Some(Error::ParseIntError()), de.deserialize_any().err());
}

#[test]
fn double_too_large_for_single_precision() {
    let largest = Deserializer::new(Value::from(double(f64::MAX)));
    assert_eq!(Err(Error::DoubleSizeMismatch()), largest.deserialize_f32());
    assert_eq!(Ok(double(f64::MAX)), largest.deserialize_f64());
    let lowest = Deserializer::new(Value::from(double(-f64::MAX)));
    assert_eq!(Err(Error::DoubleSizeMismatch()), lowest.deserialize_f32());
    let single = Deserializer::new(Value::from(double(f32::MAX as f64)));
    assert_eq!(Ok(double(f32::MAX as f64)), single.deserialize_f32());
}

#[test]
fn option_is_absent_only_for_null() {
    assert!(Deserializer::new(Value::from(())).deserialize_option().is_none());
    let present = Deserializer::new(Value::from(42));
    match present.deserialize_option() {
        Some(inner) => assert_eq!(Ok(42u8), inner.deserialize_u8()),
        None => panic!("the option is absent"),
    }
    let wrapped = Deserializer::new(Value::from("inside"));
    assert_eq!(Ok("inside"), wrapped.deserialize_newtype_struct("Wrapper").deserialize_str());
}

fn visit(value: Value) -> Result<Visit, Error> {
    Deserializer::new(value).deserialize_any()
}

#[test]
fn self_describing_values() {
    assert!(matches!(visit(Value::from(())), Ok(Visit::Unit)));
    assert!(matches!(visit(Value::from("s")), Ok(Visit::Text(s)) if s == "s"));
    assert!(matches!(visit(Value::from(-7)), Ok(Visit::I64(-7))));
    assert!(matches!(visit(Value::from(double(0.5))), Ok(Visit::F64(d)) if d == double(0.5)));
    assert!(matches!(visit(Value::from(true)), Ok(Visit::Bool(true))));
    assert!(matches!(visit(Value::from(Blob(vec![9]))), Ok(Visit::Bytes(b)) if b == vec![9]));
    match visit(Value::from(vec![Value::from(1), Value::from("two")])) {
        Ok(Visit::Elements(mut access)) => {
            let first = access.next_element_seed().expect("no first element");
            assert_eq!(Ok(1u8), first.deserialize_u8());
            let second = access.next_element_seed().expect("no second element");
            assert_eq!(Ok("two"), second.deserialize_str());
            assert!(access.next_element_seed().is_none());
        }
        _ => panic!("an array must be visited as a sequence"),
    }
    // An integer is visited as a signed 64-bit one, which not every text fits.
    assert_eq!(
        Some(Error::IntegerSizeMismatch()),
        visit(Value::Integer { integer_value: Int::from(u64::MAX) }).err()
    );
}

#[test]
fn values_that_do_not_describe_themselves() {
    let key = Key {
        partition_id: PartitionId { project_id: "p".to_string(), namespace_id: "n".to_string() },
        path: vec![],
    };
    let point = LatLng { latitude: double(1.0), longitude: double(2.0) };
    let instant = Timestamp { seconds: 1505972493, nanos: 0 };
    let values = vec![
        Value::from(Entity::new()),
        Value::KeyValue { key_value: key },
        Value::GeoPoint { geo_point_value: point },
        Value::Timestamp { timestamp_value: instant },
    ];
    for value in values {
        assert_eq!(Some(Error::NonSelfDescribingType()), visit(value).err());
    }
}

#[test]
fn array_elements_come_in_stored_order() {
    let stored = Value::from(vec![Value::from(3), Value::from(1), Value::from(2)]);
    let mut access = Deserializer::new(stored).deserialize_seq().ok().expect("no access");
    let mut seen = Vec::new();
    while let Some(element) = access.next_element_seed() {
        seen.push(element.deserialize_u8());
    }
    assert_eq!(vec![Ok(3), Ok(1), Ok(2)], seen);
    assert!(access.next_element_seed().is_none());
}

#[test]
fn entity_properties_come_once_each() {
    let mut entity = Entity::new();
    entity.insert("name".to_string(), Value::from("Rust"));
    entity.insert("strongly_typed".to_string(), Value::from(true));
    entity.insert("name".to_string(), Value::from("Rust!"));
    let de = Deserializer::new(Value::from(entity));
    let mut access = de.deserialize_map().ok().expect("no access");
    assert!(!access.has_next_value());

    let mut seen = Vec::new();
    while let Some(key) = access.next_key_seed() {
        assert!(access.has_next_value());
        let name = key.deserialize_string().expect("the key is no string");
        let value = access.next_value_seed();
        assert!(!access.has_next_value());
        seen.push((name, value.deserialize_any().ok().expect("no value")));
    }
    seen.sort_by(|a, b| a.0.cmp(&b.0));
    assert_eq!(2, seen.len());
    assert_eq!("name", seen[0].0);
    assert!(matches!(&seen[0].1, Visit::Text(s) if s == "Rust!"));
    assert_eq!("strongly_typed", seen[1].0);
    assert!(matches!(&seen[1].1, Visit::Bool(true)));
    assert!(access.next_key_seed().is_none());
}
