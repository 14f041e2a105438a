//! The error type shared by both directions of the codec.

use vstd::prelude::*;
use vstd::string::StringExecFns;

verus! {

/// Everything that can go wrong while encoding or decoding a value.
#[derive(Clone, Debug, PartialEq)]
pub enum Error {
    /// A custom message raised while a typed value was being encoded.
    SerializationError(String),
    /// A custom message raised while a typed value was being decoded.
    DeserializationError(String),
    /// The text of an integer value is no decimal literal.
    ParseIntError(),
    /// The shape has no representation in the datastore.
    UnsupportedValueType(&'static str),
    /// A map key did not encode to a string value.
    UnsupportedKeyType(),
    /// The value's variant alone does not say which typed value is meant.
    NonSelfDescribingType(),
    /// The value's variant is not the one the decoder was asked for.
    ExpectedType(&'static str),
    /// The integer does not fit into the requested width.
    IntegerSizeMismatch(),
    /// The double does not fit into the requested width.
    DoubleSizeMismatch(),
    /// Decoding into this shape is not offered.
    NotYetImplemented(&'static str),
}

/// What an [`Error`] says, with every text taken as a sequence of characters.
pub enum ErrorModel {
    SerializationError(Seq<char>),
    DeserializationError(Seq<char>),
    ParseIntError,
    UnsupportedValueType(Seq<char>),
    UnsupportedKeyType,
    NonSelfDescribingType,
    ExpectedType(Seq<char>),
    IntegerSizeMismatch,
    DoubleSizeMismatch,
    NotYetImplemented(Seq<char>),
}

impl View for Error {
    type V = ErrorModel;

    open spec fn view(&self) -> ErrorModel {
        match *self {
            Error::SerializationError(msg) => ErrorModel::SerializationError(msg@),
            Error::DeserializationError(msg) => ErrorModel::DeserializationError(msg@),
            Error::ParseIntError() => ErrorModel::ParseIntError,
            Error::UnsupportedValueType(kind) => ErrorModel::UnsupportedValueType(kind@),
            Error::UnsupportedKeyType() => ErrorModel::UnsupportedKeyType,
            Error::NonSelfDescribingType() => ErrorModel::NonSelfDescribingType,
            Error::ExpectedType(kind) => ErrorModel::ExpectedType(kind@),
            Error::IntegerSizeMismatch() => ErrorModel::IntegerSizeMismatch,
            Error::DoubleSizeMismatch() => ErrorModel::DoubleSizeMismatch,
            Error::NotYetImplemented(feature) => ErrorModel::NotYetImplemented(feature@),
        }
    }
}

impl ErrorModel {
    /// The fixed sentence that names the kind of error.
    pub open spec fn description(self) -> Seq<char> {
        match self {
            ErrorModel::ParseIntError => "could not parse integer from value"@,
            ErrorModel::NonSelfDescribingType =>
                "cannot automatically determine desired type representation"@,
            ErrorModel::IntegerSizeMismatch => "integer value too large for chosen type"@,
            ErrorModel::DoubleSizeMismatch => "floating-point value too large for chosen type"@,
            ErrorModel::SerializationError(_) => "error during serialization"@,
            ErrorModel::DeserializationError(_) => "error during deserialization"@,
            ErrorModel::NotYetImplemented(_) => "support for type not yet implemented"@,
            ErrorModel::ExpectedType(_) => "unexpected type encountered"@,
            ErrorModel::UnsupportedValueType(_) => "unsupported value type"@,
            ErrorModel::UnsupportedKeyType => "non-string key types are unsupported"@,
        }
    }

    /// What follows the description in the full message: the detail that the
    /// error carries, behind its separator, or nothing.
    pub open spec fn detail(self) -> Seq<char> {
        match self {
            ErrorModel::SerializationError(msg) => ": "@ + msg,
            ErrorModel::DeserializationError(msg) => ": "@ + msg,
            ErrorModel::NotYetImplemented(feature) => ": "@ + feature,
            ErrorModel::ExpectedType(kind) => ": expected "@ + kind,
            ErrorModel::UnsupportedValueType(kind) => ": "@ + kind,
            _ => Seq::empty(),
        }
    }

    /// The full message: the description, then the detail.
    pub open spec fn message(self) -> Seq<char> {
        self.description() + self.detail()
    }
}

/// A result with its value and its error each taken by their view.
pub open spec fn outcome<T: View>(r: Result<T, Error>) -> Result<T::V, ErrorModel> {
    match r {
        Ok(value) => Ok(value@),
        Err(error) => Err(error@),
    }
}

impl Error {
    /// The fixed sentence that names the kind of error, without its detail.
    pub fn description(&self) -> (text: &'static str)
        ensures
            text@ == self@.description(),
    {
        match *self {
            Error::ParseIntError() => "could not parse integer from value",
            Error::NonSelfDescribingType() =>
                "cannot automatically determine desired type representation",
            Error::IntegerSizeMismatch() => "integer value too large for chosen type",
            Error::DoubleSizeMismatch() => "floating-point value too large for chosen type",
            Error::SerializationError(_) => "error during serialization",
            Error::DeserializationError(_) => "error during deserialization",
            Error::NotYetImplemented(_) => "support for type not yet implemented",
            Error::ExpectedType(_) => "unexpected type encountered",
            Error::UnsupportedValueType(_) => "unsupported value type",
            Error::UnsupportedKeyType() => "non-string key types are unsupported",
        }
    }

    /// The message to show: the description, followed for the errors that
    /// carry a detail by a colon and that detail.
    pub fn to_string(&self) -> (text: String)
        ensures
            text@ == self@.message(),
    {
        let mut text = String::from_str(self.description());
        match self {
            Error::SerializationError(msg) => {
                text.append(": ");
                text.append(msg.as_str());
            },
            Error::DeserializationError(msg) => {
                text.append(": ");
                text.append(msg.as_str());
            },
            Error::NotYetImplemented(feature) => {
                text.append(": ");
                text.append(feature);
            },
            Error::ExpectedType(kind) => {
                text.append(": expected ");
                text.append(kind);
            },
            Error::UnsupportedValueType(kind) => {
                text.append(": ");
                text.append(kind);
            },
            _ => {},
        }
        text
    }
}

} // verus!
