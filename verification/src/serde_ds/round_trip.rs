//! What encoding and decoding are to each other: a value that was encoded
//! decodes to itself.

use vstd::prelude::*;

use crate::datastore::decimal::{decimal_text, lemma_decimal_text};
use crate::datastore::double::Double;
use crate::datastore::value::ValueModel;
use crate::serde_ds::de::{
    decode_array, decode_bool, decode_bytes, decode_double, decode_entity, decode_int,
    decode_option, decode_single, decode_string, decode_unit, describe,
};
use crate::serde_ds::error::ErrorModel;
use crate::serde_ds::ser::encode_int;

verus! {

/// An integer of any width that was encoded decodes to itself into every
/// width that can hold it. Encoding takes every integer up to the greatest
/// of the signed 64-bit range.
pub proof fn lemma_int_round_trip(v: int, lowest: int, highest: int)
    requires
        lowest <= v <= highest,
        v <= i64::MAX,
    ensures
        encode_int(v) is Ok,
        decode_int(encode_int(v)->Ok_0, lowest, highest) == Ok::<int, ErrorModel>(v),
{
    lemma_decimal_text(v);
}

/// An integer that was encoded is refused as a size mismatch by every
/// width that cannot hold it.
pub proof fn lemma_int_too_wide(v: int, lowest: int, highest: int)
    requires
        v < lowest || highest < v,
        v <= i64::MAX,
    ensures
        encode_int(v) is Ok,
        decode_int(encode_int(v)->Ok_0, lowest, highest) == Err::<int, ErrorModel>(
            ErrorModel::IntegerSizeMismatch,
        ),
{
    lemma_decimal_text(v);
}

/// An unsigned integer beyond the signed 64-bit range is not encoded.
pub proof fn lemma_int_beyond_signed(v: int)
    requires
        v > i64::MAX,
    ensures
        encode_int(v) == Err::<ValueModel, ErrorModel>(ErrorModel::IntegerSizeMismatch),
{
}

/// A double decodes for a target of single precision exactly when its
/// magnitude is within single precision, and then to itself.
pub proof fn lemma_single_round_trip(d: Double)
    ensures
        !d.exceeds_single() ==> decode_single(ValueModel::Double(d)) == Ok::<Double, ErrorModel>(
            d,
        ),
        d.exceeds_single() ==> decode_single(ValueModel::Double(d)) == Err::<Double, ErrorModel>(
            ErrorModel::DoubleSizeMismatch,
        ),
{
}

/// Properties put into an entity under two different names give the same
/// entity in either order.
pub proof fn lemma_insert_order(
    properties: Map<Seq<char>, ValueModel>,
    first: Seq<char>,
    first_value: ValueModel,
    second: Seq<char>,
    second_value: ValueModel,
)
    requires
        first != second,
    ensures
        properties.insert(first, first_value).insert(second, second_value) == properties.insert(
            second,
            second_value,
        ).insert(first, first_value),
{
    assert(properties.insert(first, first_value).insert(second, second_value)
        =~= properties.insert(second, second_value).insert(first, first_value));
}

/// An entity, a key, a point and a timestamp are not decoded without a
/// known target.
pub proof fn lemma_not_self_describing(v: ValueModel)
    requires
        v is EntityValue || v is KeyValue || v is GeoPoint || v is Timestamp,
    ensures
        describe(v) == Err::<crate::serde_ds::de::VisitModel, ErrorModel>(
            ErrorModel::NonSelfDescribingType,
        ),
{
}

/// The shapes of typed values that go through both directions of the
/// codec and come back as they were.
pub enum Shape {
    /// The unit, and a struct without data.
    Unit,
    /// A boolean.
    Bool,
    /// An integer type of fixed width, signed or unsigned, given by its
    /// least and its greatest value.
    Int { lowest: int, highest: int },
    /// A number of double precision.
    Double,
    /// A number of single precision, which travels widened to a double.
    Single,
    /// A string.
    Text,
    /// A sequence of raw bytes.
    Bytes,
    /// An option of the inner shape.
    Optional(Box<Shape>),
    /// An ordered sequence of the inner shape.
    Sequence(Box<Shape>),
    /// A map from strings to the inner shape.
    Dictionary(Box<Shape>),
}

/// A typed value of one of the shapes.
pub enum Typed {
    Unit,
    Bool(bool),
    Int(int),
    Number(Double),
    Text(Seq<char>),
    Bytes(Seq<u8>),
    Absent,
    Present(Box<Typed>),
    Sequence(Seq<Typed>),
    Dictionary(Map<Seq<char>, Typed>),
}

/// The value tree that a walk over `t` builds: each scalar by its own
/// encoding, an absent option as the null value, a present one as what it
/// holds, a sequence element by element and a map value by value.
pub open spec fn encode(t: Typed) -> ValueModel
    decreases t,
{
    match t {
        Typed::Unit => ValueModel::Null,
        Typed::Bool(b) => ValueModel::Boolean(b),
        Typed::Int(v) => ValueModel::Integer(decimal_text(v)),
        Typed::Number(d) => ValueModel::Double(d),
        Typed::Text(s) => ValueModel::String(s),
        Typed::Bytes(bytes) => ValueModel::Blob(bytes),
        Typed::Absent => ValueModel::Null,
        Typed::Present(inner) => encode(*inner),
        Typed::Sequence(items) => ValueModel::Array(
            Seq::new(
                items.len(),
                |i: int|
                    if 0 <= i < items.len() {
                        encode(items[i])
                    } else {
                        ValueModel::Null
                    },
            ),
        ),
        Typed::Dictionary(entries) => ValueModel::EntityValue(
            Map::new(
                |name: Seq<char>| entries.contains_key(name),
                |name: Seq<char>|
                    if entries.dom().finite() && entries.contains_key(name) {
                        encode(entries[name])
                    } else {
                        ValueModel::Null
                    },
            ),
        ),
    }
}

/// Whether `t` is a value of `shape` that comes back as it was: an integer
/// within its width and not beyond the signed 64-bit range, a number of
/// single precision within single precision, and inside an option nothing
/// that is itself encoded as the null value, which would come back as the
/// absent option.
pub open spec fn conforms(t: Typed, shape: Shape) -> bool
    decreases shape,
{
    match shape {
        Shape::Unit => t is Unit,
        Shape::Bool => t is Bool,
        Shape::Int { lowest, highest } => t is Int && lowest <= t->Int_0 <= highest && t->Int_0
            <= i64::MAX,
        Shape::Double => t is Number,
        Shape::Single => t is Number && !t->Number_0.exceeds_single(),
        Shape::Text => t is Text,
        Shape::Bytes => t is Bytes,
        Shape::Optional(inner) => t is Absent || (t is Present && conforms(*t->Present_0, *inner)
            && !(encode(*t->Present_0) is Null)),
        Shape::Sequence(inner) => t is Sequence && forall|i: int|
            0 <= i < t->Sequence_0.len() ==> conforms(#[trigger] t->Sequence_0[i], *inner),
        Shape::Dictionary(inner) => t is Dictionary && t->Dictionary_0.dom().finite()
            && forall|name: Seq<char>| #[trigger]
            t->Dictionary_0.contains_key(name) ==> conforms(t->Dictionary_0[name], *inner),
    }
}

/// The typed value of `shape` that a walk over the shape reads from `v`,
/// or nothing where some part of `v` is refused.
pub open spec fn decode(shape: Shape, v: ValueModel) -> Option<Typed>
    decreases shape,
{
    match shape {
        Shape::Unit => match decode_unit(v) {
            Ok(_) => Some(Typed::Unit),
            Err(_) => None,
        },
        Shape::Bool => match decode_bool(v) {
            Ok(b) => Some(Typed::Bool(b)),
            Err(_) => None,
        },
        Shape::Int { lowest, highest } => match decode_int(v, lowest, highest) {
            Ok(i) => Some(Typed::Int(i)),
            Err(_) => None,
        },
        Shape::Double => match decode_double(v) {
            Ok(d) => Some(Typed::Number(d)),
            Err(_) => None,
        },
        Shape::Single => match decode_single(v) {
            Ok(d) => Some(Typed::Number(d)),
            Err(_) => None,
        },
        Shape::Text => match decode_string(v) {
            Ok(s) => Some(Typed::Text(s)),
            Err(_) => None,
        },
        Shape::Bytes => match decode_bytes(v) {
            Ok(bytes) => Some(Typed::Bytes(bytes)),
            Err(_) => None,
        },
        Shape::Optional(inner) => match decode_option(v) {
            None => Some(Typed::Absent),
            Some(held) => match decode(*inner, held) {
                Some(t) => Some(Typed::Present(Box::new(t))),
                None => None,
            },
        },
        Shape::Sequence(inner) => match decode_array(v) {
            Ok(items) => if forall|i: int|
                0 <= i < items.len() ==> decode(*inner, #[trigger] items[i]) is Some {
                Some(
                    Typed::Sequence(
                        Seq::new(items.len(), |i: int| decode(*inner, items[i])->Some_0),
                    ),
                )
            } else {
                None
            },
            Err(_) => None,
        },
        Shape::Dictionary(inner) => match decode_entity(v) {
            Ok(properties) => if forall|name: Seq<char>| #[trigger]
                properties.contains_key(name) ==> decode(*inner, properties[name]) is Some {
                Some(
                    Typed::Dictionary(
                        Map::new(
                            |name: Seq<char>| properties.contains_key(name),
                            |name: Seq<char>| decode(*inner, properties[name])->Some_0,
                        ),
                    ),
                )
            } else {
                None
            },
            Err(_) => None,
        },
    }
}

/// What is encoded as the null value: the unit, an absent option, and a
/// present option whose content is. No other scalar is, and no sequence or
/// map.
pub proof fn lemma_encoded_null(t: Typed)
    ensures
        encode(t) is Null <==> t is Unit || t is Absent || (t is Present && encode(
            *t->Present_0,
        ) is Null),
{
}

/// The round trip: a typed value of any of the shapes, encoded and then
/// decoded into its shape, is the value itself.
pub proof fn lemma_round_trip(t: Typed, shape: Shape)
    requires
        conforms(t, shape),
    ensures
        decode(shape, encode(t)) == Some(t),
    decreases shape,
{
    match shape {
        Shape::Int { lowest, highest } => {
            lemma_decimal_text(t->Int_0);
        },
        Shape::Optional(inner) => {
            if t is Present {
                lemma_round_trip(*t->Present_0, *inner);
            }
        },
        Shape::Sequence(inner) => {
            let items = t->Sequence_0;
            let encoded = encode(t)->Array_0;
            assert forall|i: int| 0 <= i < encoded.len() implies decode(
                *inner,
                #[trigger] encoded[i],
            ) == Some(items[i]) by {
                assert(conforms(items[i], *inner));
                lemma_round_trip(items[i], *inner);
            }
            assert(decode(shape, encode(t)) is Some);
            assert(decode(shape, encode(t))->Some_0->Sequence_0 =~= items);
        },
        Shape::Dictionary(inner) => {
            let entries = t->Dictionary_0;
            let encoded = encode(t)->EntityValue_0;
            assert forall|name: Seq<char>| #[trigger] encoded.contains_key(name) implies decode(
                *inner,
                encoded[name],
            ) == Some(entries[name]) by {
                assert(entries.contains_key(name));
                lemma_round_trip(entries[name], *inner);
            }
            assert(decode(shape, encode(t)) is Some);
            assert(decode(shape, encode(t))->Some_0->Dictionary_0 =~= entries);
        },
        _ => {},
    }
}

} // verus!
