//! The binary scalar of the datastore, which travels as base64 text.

use vstd::prelude::*;
use vstd::slice::slice_to_vec;
use vstd::string::StringExecFns;

use crate::serde_ds::error::{Error, ErrorModel};

verus! {

/// A sequence of raw bytes. Only on the wire is it written as base64 text.
#[derive(Debug)]
pub struct Blob(pub Vec<u8>);

impl View for Blob {
    type V = Seq<u8>;

    open spec fn view(&self) -> Seq<u8> {
        self.0@
    }
}

/// The padded base64 text, in the standard alphabet, of a sequence of bytes.
pub uninterp spec fn base64_text(bytes: Seq<u8>) -> Seq<char>;

/// The bytes that a text stands for as padded base64 in the standard
/// alphabet, or nothing where the text is no such encoding.
pub uninterp spec fn base64_bytes(text: Seq<char>) -> Option<Seq<u8>>;

/// Whether bytes of this number can be encoded: the encoded text, of four
/// characters for every three bytes begun, must fit into one allocation.
pub open spec fn encodable_len(len: nat) -> bool {
    (len / 3 + 1) * 4 <= isize::MAX
}

/// `base64::DecodeError`: why a text is no base64 encoding.
#[verifier::external_type_specification]
#[verifier::external_body]
pub struct ExDecodeError(base64::DecodeError);

/// `base64::encode`: the text it returns is the named encoding of the
/// bytes. It panics where the size of that text cannot be allocated, which
/// the precondition leaves out.
#[verifier::external_body]
fn encode_base64(bytes: &Vec<u8>) -> (text: String)
    requires
        encodable_len(bytes@.len()),
    ensures
        text@ == base64_text(bytes@),
{
    base64::encode(bytes)
}

/// `base64::decode`: it returns bytes exactly where the text is an
/// encoding, and then the bytes that the text stands for.
#[verifier::external_body]
fn decode_base64(text: &str) -> (decoded: Result<Vec<u8>, base64::DecodeError>)
    ensures
        match decoded {
            Ok(bytes) => base64_bytes(text@) == Some(bytes@),
            Err(_) => base64_bytes(text@) is None,
        },
{
    base64::decode(text)
}

/// The `Debug` text of a `base64::DecodeError`, of which nothing is
/// claimed.
#[verifier::external_body]
fn decode_error_text(error: &base64::DecodeError) -> (text: String) {
    format!("{:?}", error)
}

impl Blob {
    /// Whether the blob is short enough for its base64 text to be made.
    pub fn can_encode(&self) -> (short_enough: bool)
        ensures
            short_enough == encodable_len(self@.len()),
    {
        self.0.len() / 3 < (isize::MAX as usize) / 4
    }

    /// The base64 text that stands for the blob on the wire.
    pub fn to_base64(&self) -> (text: String)
        requires
            encodable_len(self@.len()),
        ensures
            text@ == base64_text(self@),
    {
        encode_base64(&self.0)
    }

    /// Reads a blob from its base64 text. Text that is no encoding is
    /// refused with a message that says what is wrong with it.
    pub fn from_base64(text: &str) -> (r: Result<Blob, Error>)
        ensures
            Blob::decoded_spec(base64_bytes(text@), r),
    {
        match decode_base64(text) {
            Ok(bytes) => Blob::from_decoded(Ok(bytes)),
            Err(error) => Blob::from_decoded(Err(decode_error_text(&error))),
        }
    }

    /// How the result of reading a blob follows from what the text stands
    /// for: the bytes where it stands for some, else a decoding error whose
    /// message begins by naming the base64 decoding.
    pub open spec fn decoded_spec(decoded: Option<Seq<u8>>, r: Result<Blob, Error>) -> bool {
        match r {
            Ok(blob) => decoded == Some(blob@),
            Err(e) => {
                &&& decoded is None
                &&& e@ is DeserializationError
                &&& "base64-decoding failed: "@.is_prefix_of(e@->DeserializationError_0)
            },
        }
    }

    /// Turns the outcome of a base64 decoding, its error given as text,
    /// into a blob or into the codec's error.
    pub fn from_decoded(outcome: Result<Vec<u8>, String>) -> (r: Result<Blob, Error>)
        ensures
            match outcome {
                Ok(bytes) => r is Ok && r->Ok_0@ == bytes@,
                Err(detail) => r is Err && r->Err_0@ == ErrorModel::DeserializationError(
                    "base64-decoding failed: "@ + detail@,
                ),
            },
    {
        match outcome {
            Ok(bytes) => Ok(Blob(bytes)),
            Err(detail) => {
                let mut message = String::from_str("base64-decoding failed: ");
                message.append(detail.as_str());
                Err(Error::DeserializationError(message))
            },
        }
    }
}

impl Clone for Blob {
    fn clone(&self) -> (copy: Blob)
        ensures
            copy@ == self@,
    {
        let mut bytes: Vec<u8> = Vec::new();
        let mut i: usize = 0;
        while i < self.0.len()
            invariant
                i <= self.0.len(),
                bytes@ == self.0@.subrange(0, i as int),
            decreases self.0.len() - i,
        {
            bytes.push(self.0[i]);
            assert(bytes@ =~= self.0@.subrange(0, i + 1));
            i = i + 1;
        }
        assert(bytes@ =~= self.0@);
        Blob(bytes)
    }
}

impl PartialEq for Blob {
    fn eq(&self, other: &Blob) -> (equal: bool) {
        if self.0.len() != other.0.len() {
            return false;
        }
        let mut i: usize = 0;
        while i < self.0.len()
            invariant
                i <= self.0.len(),
                self.0.len() == other.0.len(),
                forall|k: int| 0 <= k < i ==> self.0[k] == other.0[k],
            decreases self.0.len() - i,
        {
            if self.0[i] != other.0[i] {
                return false;
            }
            i = i + 1;
        }
        assert(self@ =~= other@);
        true
    }
}

impl vstd::std_specs::cmp::PartialEqSpecImpl for Blob {
    open spec fn obeys_eq_spec() -> bool {
        true
    }

    open spec fn eq_spec(&self, other: &Blob) -> bool {
        self@ == other@
    }
}

impl From<Vec<u8>> for Blob {
    /// The blob that holds `v`.
    fn from(v: Vec<u8>) -> (blob: Blob)
        ensures
            blob@ == v@,
    {
        Blob(v)
    }
}

impl vstd::std_specs::convert::FromSpecImpl<Vec<u8>> for Blob {
    open spec fn obeys_from_spec() -> bool {
        true
    }

    open spec fn from_spec(v: Vec<u8>) -> Blob {
        Blob(v)
    }
}

impl<'a> From<&'a [u8]> for Blob {
    /// The blob that holds a copy of `v`.
    fn from(v: &'a [u8]) -> (blob: Blob)
        ensures
            blob@ == v@,
    {
        Blob(slice_to_vec(v))
    }
}

impl<'a> vstd::std_specs::convert::FromSpecImpl<&'a [u8]> for Blob {
    open spec fn obeys_from_spec() -> bool {
        false
    }

    open spec fn from_spec(v: &'a [u8]) -> Blob {
        arbitrary()
    }
}

} // verus!
