//! The value tree and its scalar wrappers, used directly.

use serde_datastore::datastore::{
    ArrayValue, Blob, Double, Entity, Int, Key, LatLng, PartitionId, PathElement, Timestamp, Value,
};
use serde_datastore::serde_ds::Error;

#[test]
fn test_blob_serialisation() {
    let blob = Blob(vec![82, 117, 115, 116, 33]);
    let expected = "\"UnVzdCE=\"".to_string();

    let serialised = serde_json::to_string(&blob.to_base64()).expect("Serialisation failed");
    assert_eq!(expected, serialised, "Serialisation should match expected value");

    let text: String = serde_json::from_str(serialised.as_str()).expect("Deserialisation failed");
    let deserialised = Blob::from_base64(&text).expect("Deserialisation failed");
    assert_eq!(blob, deserialised, "Deserialised blob should match initial value");
}

#[test]
fn test_int_serialisation() {
    let int = Int::from(1337); // Sometimes a cliche is required.
    let expected = "\"1337\"".to_string();

    let serialised = serde_json::to_string(int.as_str()).expect("Serialisation failed");
    assert_eq!(expected, serialised, "Serialisation should match expected value");

    let text: String = serde_json::from_str(serialised.as_str()).expect("Deserialisation failed");
    let deserialised = Int::new(text);
    assert_eq!(int, deserialised, "Deserialised int shoudl match initial value");
}

#[test]
fn int_text_is_decimal() {
    assert_eq!("14", Int::from(14u8).as_str());
    assert_eq!("0", Int::from(0u32).as_str());
    assert_eq!("-42", Int::from(-42i64).as_str());
    assert_eq!("-128", Int::from(i8::MIN).as_str());
    assert_eq!("65535", Int::from(u16::MAX).as_str());
    assert_eq!("-2147483648", Int::from(i32::MIN).as_str());
    assert_eq!("18446744073709551615", Int::from(u64::MAX).as_str());
    assert_eq!("-9223372036854775808", Int::from(i64::MIN).as_str());
    assert_eq!("9223372036854775807", Int::from(i64::MAX).as_str());
    assert_eq!("1000", Int::from(1000i16).as_str());
    assert_eq!("10", Int::from(10u8).as_str());
}

#[test]
fn int_parses_into_every_width_that_holds_it() {
    let int = Int::from(200u8);
    assert_eq!(Ok(200u8), int.parse::<u8>());
    assert_eq!(Ok(200u16), int.parse::<u16>());
    assert_eq!(Ok(200u32), int.parse::<u32>());
    assert_eq!(Ok(200u64), int.parse::<u64>());
    assert_eq!(Err(Error::IntegerSizeMismatch()), int.parse::<i8>());
    assert_eq!(Ok(200i16), int.parse::<i16>());
    assert_eq!(Ok(200i32), int.parse::<i32>());
    assert_eq!(Ok(200i64), int.parse::<i64>());

    let negative = Int::from(-1i8);
    assert_eq!(Ok(-1i8), negative.parse::<i8>());
    assert_eq!(Ok(-1i64), negative.parse::<i64>());
    assert_eq!(Err(Error::IntegerSizeMismatch()), negative.parse::<u8>());
    assert_eq!(Err(Error::IntegerSizeMismatch()), negative.parse::<u64>());

    assert_eq!(Ok(u64::MAX), Int::from(u64::MAX).parse::<u64>());
    assert_eq!(Err(Error::IntegerSizeMismatch()), Int::from(u64::MAX).parse::<i64>());
    assert_eq!(Ok(i64::MIN), Int::from(i64::MIN).parse::<i64>());
    assert_eq!(Ok(i8::MIN), Int::from(i8::MIN).parse::<i8>());
    assert_eq!(Err(Error::IntegerSizeMismatch()), Int::from(-129i16).parse::<i8>());
    assert_eq!(Err(Error::IntegerSizeMismatch()), Int::from(256u16).parse::<u8>());
    assert_eq!(Ok(255u8), Int::from(255u16).parse::<u8>());
}

#[test]
fn int_text_beyond_every_width_is_a_size_mismatch() {
    let huge = Int::new("18446744073709551616".to_string());
    assert_eq!(Err(Error::IntegerSizeMismatch()), huge.parse::<u64>());
    let huger = Int::new("-99999999999999999999999999999999999999999999".to_string());
    assert_eq!(Err(Error::IntegerSizeMismatch()), huger.parse::<i64>());
}

#[test]
fn int_text_with_sign_or_leading_zeros_is_read() {
    assert_eq!(Ok(5u8), Int::new("+5".to_string()).parse::<u8>());
    assert_eq!(Ok(7i32), Int::new("007".to_string()).parse::<i32>());
    assert_eq!(Ok(0u8), Int::new("-0".to_string()).parse::<u8>());
    assert_eq!(Ok(-12i8), Int::new("-012".to_string()).parse::<i8>());
}

#[test]
fn malformed_int_text_is_a_parse_error() {
    for text in ["", "-", "+", "abc", "12a", "1 2", " 12", "1-2", "--1", "1.0", "１２", "0x10"] {
        assert_eq!(
            Err(Error::ParseIntError()),
            Int::new(text.to_string()).parse::<i64>(),
            "text {:?}",
            text
        );
    }
    // Malformed stays malformed however long the digits before the fault.
    assert_eq!(
        Err(Error::ParseIntError()),
        Int::new("99999999999999999999999999x".to_string()).parse::<u8>()
    );
}

#[test]
fn blob_base64_of_known_texts() {
    assert_eq!("", Blob(vec![]).to_base64());
    assert_eq!("Zg==", Blob(vec![b'f']).to_base64());
    assert_eq!("Zm8=", Blob(vec![b'f', b'o']).to_base64());
    assert_eq!("Zm9v", Blob(vec![b'f', b'o', b'o']).to_base64());
    assert_eq!("+/8=", Blob(vec![0xfb, 0xff]).to_base64());
    assert_eq!(Ok(Blob(vec![b'f', b'o', b'o'])), Blob::from_base64("Zm9v"));
    assert_eq!(Ok(Blob(vec![])), Blob::from_base64(""));
}

#[test]
fn blob_from_text_that_is_no_base64() {
    match Blob::from_base64("!!!") {
        Err(Error::DeserializationError(message)) => {
            assert!(message.starts_with("base64-decoding failed: "), "message {:?}", message);
            assert!(message.len() > "base64-decoding failed: ".len());
        }
        other => panic!("unexpected result {:?}", other),
    }
    assert!(Blob::from_base64("Zm9").is_err());
}

#[test]
fn blob_from_decoding_outcome() {
    assert_eq!(Ok(Blob(vec![1, 2])), Blob::from_decoded(Ok(vec![1, 2])));
    assert_eq!(
        Err(Error::DeserializationError("base64-decoding failed: InvalidLength".to_string())),
        Blob::from_decoded(Err("InvalidLength".to_string()))
    );
}

#[test]
fn blob_from_bytes() {
    let bytes: &[u8] = &[1, 2, 3];
    assert_eq!(Blob(vec![1, 2, 3]), Blob::from(bytes));
    assert!(Blob::from(bytes).can_encode());
    assert_eq!(Blob(vec![1, 2, 3]), Blob::from(vec![1, 2, 3]));
    assert_eq!(Blob(vec![1, 2, 3]), Blob(vec![1, 2, 3]).clone());
    assert_ne!(Blob(vec![1, 2, 3]), Blob(vec![1, 2]));
    assert_ne!(Blob(vec![1, 2, 3]), Blob(vec![1, 2, 4]));
}

fn double(v: f64) -> Double {
    Double::from_bits(v.to_bits())
}

#[test]
fn double_beyond_single_precision() {
    assert!(double(f64::MAX).is_beyond_single());
    assert!(double(-f64::MAX).is_beyond_single());
    assert!(double(f64::INFINITY).is_beyond_single());
    assert!(double(f64::NEG_INFINITY).is_beyond_single());
    assert!(double(f32::MAX as f64 * 1.0000001).is_beyond_single());
    assert!(double(f64::from_bits((f32::MAX as f64).to_bits() + 1)).is_beyond_single());
    assert!(!double(f32::MAX as f64).is_beyond_single());
    assert!(!double(-(f32::MAX as f64)).is_beyond_single());
    assert!(!double(0.0).is_beyond_single());
    assert!(!double(-0.0).is_beyond_single());
    assert!(!double(10.0).is_beyond_single());
    assert!(!double(f64::NAN).is_beyond_single());
    assert!(!double(f64::MIN_POSITIVE).is_beyond_single());
    assert_eq!(0x47ef_ffff_e000_0000, (f32::MAX as f64).to_bits());
    assert_eq!(10.0f64.to_bits(), double(10.0).to_bits());
}

fn sample_key() -> Key {
    Key {
        partition_id: PartitionId {
            project_id: "project".to_string(),
            namespace_id: "space".to_string(),
        },
        path: vec![
            PathElement::Id { kind: "TestKind".to_string(), id: "42".to_string() },
            PathElement::Name { kind: "TestKind".to_string(), name: "foo".to_string() },
        ],
    }
}

#[test]
fn keys_compare_by_content() {
    assert_eq!(sample_key(), sample_key());
    assert_eq!(sample_key(), sample_key().clone());

    let mut other_project = sample_key();
    other_project.partition_id.project_id = "other".to_string();
    assert_ne!(sample_key(), other_project);

    let mut shorter = sample_key();
    shorter.path.pop();
    assert_ne!(sample_key(), shorter);

    let mut swapped = sample_key();
    swapped.path.reverse();
    assert_ne!(sample_key(), swapped);

    assert_ne!(
        PathElement::Id { kind: "K".to_string(), id: "foo".to_string() },
        PathElement::Name { kind: "K".to_string(), name: "foo".to_string() }
    );
}

#[test]
fn entity_equality_ignores_insertion_order() {
    let mut first = Entity::new();
    first.insert("name".to_string(), Value::from("Rust"));
    first.insert("strongly_typed".to_string(), Value::from(true));
    first.insert("age".to_string(), Value::from(9));

    let mut second = Entity::new();
    second.insert("age".to_string(), Value::from(9));
    second.insert("strongly_typed".to_string(), Value::from(true));
    second.insert("name".to_string(), Value::from("Rust"));

    assert_eq!(first, second);
    assert_eq!(Value::from(first.clone()), Value::from(second.clone()));

    second.insert("age".to_string(), Value::from(10));
    assert_ne!(first, second);

    let mut third = first.clone();
    third.insert("extra".to_string(), Value::from(()));
    assert_ne!(first, third);
    assert_ne!(third, first);
}

#[test]
fn entity_insert_replaces_and_hands_back() {
    let mut entity = Entity::new();
    assert_eq!(None, entity.insert("a".to_string(), Value::from(1)));
    assert_eq!(None, entity.insert("b".to_string(), Value::from(2)));
    assert_eq!(Some(Value::from(1)), entity.insert("a".to_string(), Value::from(3)));
    assert_eq!(Some(&Value::from(3)), entity.get("a"));
    assert_eq!(Some(&Value::from(2)), entity.get("b"));
    assert_eq!(None, entity.get("c"));
    assert_eq!(2, entity.properties().len());
}

#[test]
fn entity_from_properties_keeps_the_later_of_two() {
    let entity = Entity::from_properties(vec![
        ("a".to_string(), Value::from(1)),
        ("b".to_string(), Value::from(2)),
        ("a".to_string(), Value::from(3)),
    ]);
    assert_eq!(Some(&Value::from(3)), entity.get("a"));
    assert_eq!(Some(&Value::from(2)), entity.get("b"));
    let mut properties = entity.into_properties();
    properties.sort_by(|x, y| x.0.cmp(&y.0));
    assert_eq!(
        vec![("a".to_string(), Value::from(3)), ("b".to_string(), Value::from(2))],
        properties
    );
}

#[test]
fn arrays_compare_in_order() {
    let forward = Value::from(vec![Value::from(1), Value::from(2)]);
    let backward = Value::from(vec![Value::from(2), Value::from(1)]);
    let longer = Value::from(vec![Value::from(1), Value::from(2), Value::from(2)]);
    assert_eq!(forward, forward.clone());
    assert_ne!(forward, backward);
    assert_ne!(forward, longer);
    assert_eq!(
        ArrayValue { values: vec![Value::from("a")] },
        ArrayValue { values: vec![Value::from("a".to_string())] }
    );
}

#[test]
fn values_of_different_variants_differ() {
    let point = LatLng { latitude: double(59.9), longitude: double(10.7) };
    let instant = Timestamp { seconds: 1505972493, nanos: 0 };
    let values = vec![
        Value::from(()),
        Value::from("1"),
        Value::from(true),
        Value::from(1),
        Value::from(double(1.0)),
        Value::from(vec![Value::from(1)]),
        Value::GeoPoint { geo_point_value: point },
        Value::from(Entity::new()),
        Value::KeyValue { key_value: sample_key() },
        Value::from(Blob(vec![1])),
        Value::Timestamp { timestamp_value: instant },
    ];
    for (i, a) in values.iter().enumerate() {
        for (j, b) in values.iter().enumerate() {
            assert_eq!(i == j, a == b, "values {:?} and {:?}", a, b);
        }
        assert_eq!(a, &a.clone());
        assert_eq!(a, &a.duplicate());
        assert!(a.equals(&a.duplicate()));
    }
}

#[test]
fn nested_values_are_copied_whole() {
    let mut inner = Entity::new();
    inner.insert("scoringStatus".to_string(), Value::from("Accepted"));
    let mut outer = Entity::new();
    outer.insert("status".to_string(), Value::from(inner));
    outer.insert("availableProducts".to_string(), Value::from(vec![Value::from("creditline")]));
    outer.insert("signingId".to_string(), Value::from(()));
    let value = Value::from(outer);
    let copy = value.duplicate();
    assert_eq!(value, copy);
    match copy {
        Value::EntityValue { entity_value } => match entity_value.get("status") {
            Some(Value::EntityValue { entity_value }) => {
                assert_eq!(Some(&Value::from("Accepted")), entity_value.get("scoringStatus"));
            }
            other => panic!("unexpected property {:?}", other),
        },
        other => panic!("unexpected value {:?}", other),
    }
}

#[test]
fn values_from_integers_of_all_widths() {
    let expected = Value::Integer { integer_value: Int::new("7".to_string()) };
    assert_eq!(expected, Value::from(7u8));
    assert_eq!(expected, Value::from(7u16));
    assert_eq!(expected, Value::from(7u32));
    assert_eq!(expected, Value::from(7u64));
    assert_eq!(expected, Value::from(7i8));
    assert_eq!(expected, Value::from(7i16));
    assert_eq!(expected, Value::from(7i32));
    assert_eq!(expected, Value::from(7i64));
    // The text is what counts: another way to write seven is another value.
    assert_ne!(expected, Value::Integer { integer_value: Int::new("07".to_string()) });
}

fn wire_object(value: &Value, payload: &str) -> String {
    let mut object = serde_json::Map::new();
    object.insert(value.wire_key().to_string(), serde_json::Value::String(payload.to_string()));
    serde_json::to_string(&serde_json::Value::Object(object)).expect("Serialisation failed")
}

#[test]
fn integer_on_the_wire() {
    let value = Value::from(14u8);
    match &value {
        Value::Integer { integer_value } => {
            assert_eq!("{\"integerValue\":\"14\"}", wire_object(&value, integer_value.as_str()));
        }
        other => panic!("unexpected value {:?}", other),
    }
}

#[test]
fn blob_on_the_wire() {
    let value = Value::from(Blob(vec![82, 117, 115, 116, 33]));
    match &value {
        Value::Blob { blob_value } => {
            let text = blob_value.to_base64();
            assert_eq!("{\"blobValue\":\"UnVzdCE=\"}", wire_object(&value, &text));
            assert_eq!(Ok(Blob(vec![82, 117, 115, 116, 33])), Blob::from_base64("UnVzdCE="));
        }
        other => panic!("unexpected value {:?}", other),
    }
}

#[test]
fn every_variant_has_its_wire_key() {
    let point = LatLng { latitude: double(59.9), longitude: double(10.7) };
    let instant = Timestamp { seconds: 1505972493, nanos: 0 };
    assert_eq!("nullValue", Value::from(()).wire_key());
    assert_eq!("stringValue", Value::from("s").wire_key());
    assert_eq!("booleanValue", Value::from(false).wire_key());
    assert_eq!("integerValue", Value::from(1).wire_key());
    assert_eq!("doubleValue", Value::from(double(1.0)).wire_key());
    assert_eq!("arrayValue", Value::from(vec![]).wire_key());
    assert_eq!("geoPointValue", Value::GeoPoint { geo_point_value: point }.wire_key());
    assert_eq!("entityValue", Value::from(Entity::new()).wire_key());
    assert_eq!("keyValue", Value::KeyValue { key_value: sample_key() }.wire_key());
    assert_eq!("blobValue", Value::from(Blob(vec![])).wire_key());
    assert_eq!("timestampValue", Value::Timestamp { timestamp_value: instant }.wire_key());
}
