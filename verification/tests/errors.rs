//! The error type: its fixed descriptions and its full messages.

use serde_datastore::serde_ds::Error;

#[test]
fn descriptions_name_the_kind() {
    assert_eq!("could not parse integer from value", Error::ParseIntError().description());
    assert_eq!(
        "cannot automatically determine desired type representation",
        Error::NonSelfDescribingType().description()
    );
    assert_eq!(
        "floating-point value too large for chosen type",
        Error::DoubleSizeMismatch().description()
    );
    assert_eq!(
        "integer value too large for chosen type",
        Error::IntegerSizeMismatch().description()
    );
    assert_eq!(
        "error during serialization",
        Error::SerializationError("x".to_string()).description()
    );
    assert_eq!(
        "error during deserialization",
        Error::DeserializationError("x".to_string()).description()
    );
    assert_eq!(
        "support for type not yet implemented",
        Error::NotYetImplemented("x").description()
    );
    assert_eq!("unexpected type encountered", Error::ExpectedType("x").description());
    assert_eq!("unsupported value type", Error::UnsupportedValueType("x").description());
    assert_eq!("non-string key types are unsupported", Error::UnsupportedKeyType().description());
}

#[test]
fn messages_add_the_detail() {
    assert_eq!(
        "error during serialization: map key is missing",
        Error::SerializationError("map key is missing".to_string()).to_string()
    );
    assert_eq!(
        "error during deserialization: no such field",
        Error::DeserializationError("no such field".to_string()).to_string()
    );
    assert_eq!(
        "support for type not yet implemented: enum deserialization",
        Error::NotYetImplemented("enum deserialization").to_string()
    );
    assert_eq!(
        "unexpected type encountered: expected bool",
        Error::ExpectedType("bool").to_string()
    );
    assert_eq!("unsupported value type: char", Error::UnsupportedValueType("char").to_string());
    assert_eq!("error during serialization: ", Error::SerializationError(String::new()).to_string());
}

#[test]
fn messages_without_detail_are_the_description() {
    let plain = [
        Error::ParseIntError(),
        Error::NonSelfDescribingType(),
        Error::DoubleSizeMismatch(),
        Error::IntegerSizeMismatch(),
        Error::UnsupportedKeyType(),
    ];
    for error in plain.iter() {
        assert_eq!(error.description(), error.to_string());
    }
}

#[test]
fn errors_compare_by_kind_and_detail() {
    assert_eq!(Error::ExpectedType("bool"), Error::ExpectedType("bool"));
    assert_ne!(Error::ExpectedType("bool"), Error::ExpectedType("null"));
    assert_ne!(Error::ExpectedType("char"), Error::UnsupportedValueType("char"));
    assert_ne!(Error::IntegerSizeMismatch(), Error::DoubleSizeMismatch());
    assert_eq!(Error::ParseIntError(), Error::ParseIntError().clone());
}
