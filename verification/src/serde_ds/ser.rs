//! Encoding: from the events of a walk over a typed value to a value tree.
//!
//! The walk itself is the caller's. It calls one method of the
//! [`Serializer`] for each scalar it meets, and for a sequence or a map it
//! asks for a [`SeqSerializer`] or a [`MapSerializer`], hands it the encoded
//! parts one by one and ends it.

use vstd::prelude::*;
use vstd::slice::slice_to_vec;
use vstd::string::StringExecFns;

use crate::datastore::blob::Blob;
use crate::datastore::decimal::decimal_text;
use crate::datastore::double::Double;
use crate::datastore::integer::Int;
use crate::datastore::value::{ArrayValue, Entity, Value, ValueModel};
use crate::serde_ds::error::{outcome, Error, ErrorModel};

verus! {

/// The encoder of scalars, and the maker of the encoders of sequences and
/// maps. It holds no state.
#[derive(Copy, Clone)]
pub struct Serializer;

/// What encoding the integer `v` gives: the integer value with the decimal
/// text of `v`, unless `v` is beyond the signed 64-bit range.
pub open spec fn encode_int(v: int) -> Result<ValueModel, ErrorModel> {
    if v > i64::MAX {
        Err(ErrorModel::IntegerSizeMismatch)
    } else {
        Ok(ValueModel::Integer(decimal_text(v)))
    }
}

impl Serializer {
    /// A boolean is the boolean value.
    pub fn serialize_bool(&self, v: bool) -> (r: Result<Value, Error>)
        ensures
            outcome(r) == Ok::<ValueModel, ErrorModel>(ValueModel::Boolean(v)),
    {
        Ok(Value::Boolean { boolean_value: v })
    }

    /// Every integer, of whatever width, is the integer value with its decimal
    /// text.
    pub fn serialize_i8(&self, v: i8) -> (r: Result<Value, Error>)
        ensures
            outcome(r) == encode_int(v as int),
    {
        Ok(Value::Integer { integer_value: Int::from(v) })
    }

    /// See [`Serializer::serialize_i8`].
    pub fn serialize_i16(&self, v: i16) -> (r: Result<Value, Error>)
        ensures
            outcome(r) == encode_int(v as int),
    {
        Ok(Value::Integer { integer_value: Int::from(v) })
    }

    /// See [`Serializer::serialize_i8`].
    pub fn serialize_i32(&self, v: i32) -> (r: Result<Value, Error>)
        ensures
            outcome(r) == encode_int(v as int),
    {
        Ok(Value::Integer { integer_value: Int::from(v) })
    }

    /// See [`Serializer::serialize_i8`].
    pub fn serialize_i64(&self, v: i64) -> (r: Result<Value, Error>)
        ensures
            outcome(r) == encode_int(v as int),
    {
        Ok(Value::Integer { integer_value: Int::from(v) })
    }

    /// See [`Serializer::serialize_i8`].
    pub fn serialize_u8(&self, v: u8) -> (r: Result<Value, Error>)
        ensures
            outcome(r) == encode_int(v as int),
    {
        Ok(Value::Integer { integer_value: Int::from(v) })
    }

    /// See [`Serializer::serialize_i8`].
    pub fn serialize_u16(&self, v: u16) -> (r: Result<Value, Error>)
        ensures
            outcome(r) == encode_int(v as int),
    {
        Ok(Value::Integer { integer_value: Int::from(v) })
    }

    /// See [`Serializer::serialize_i8`].
    pub fn serialize_u32(&self, v: u32) -> (r: Result<Value, Error>)
        ensures
            outcome(r) == encode_int(v as int),
    {
        Ok(Value::Integer { integer_value: Int::from(v) })
    }

    /// An unsigned value that the signed 64-bit range cannot hold is
    /// refused: the datastore's integers are signed.
    pub fn serialize_u64(&self, v: u64) -> (r: Result<Value, Error>)
        ensures
            outcome(r) == encode_int(v as int),
    {
        if v > i64::MAX as u64 {
            return Err(Error::IntegerSizeMismatch());
        }
        Ok(Value::Integer { integer_value: Int::from(v) })
    }

    /// A double is kept as it is. A number of single precision comes here
    /// already widened, which loses nothing.
    pub fn serialize_f64(&self, v: Double) -> (r: Result<Value, Error>)
        ensures
            outcome(r) == Ok::<ValueModel, ErrorModel>(ValueModel::Double(v)),
    {
        Ok(Value::Double { double_value: v })
    }

    /// A string is the string value.
    pub fn serialize_str(&self, v: &str) -> (r: Result<Value, Error>)
        ensures
            outcome(r) == Ok::<ValueModel, ErrorModel>(ValueModel::String(v@)),
    {
        Ok(Value::String { string_value: String::from_str(v) })
    }

    /// Bytes are the blob value, which holds them raw.
    pub fn serialize_bytes(&self, v: &[u8]) -> (r: Result<Value, Error>)
        ensures
            outcome(r) == Ok::<ValueModel, ErrorModel>(ValueModel::Blob(v@)),
    {
        Ok(Value::Blob { blob_value: Blob(slice_to_vec(v)) })
    }

    /// An absent option is the null value.
    pub fn serialize_none(&self) -> (r: Result<Value, Error>)
        ensures
            outcome(r) == Ok::<ValueModel, ErrorModel>(ValueModel::Null),
    {
        self.serialize_unit()
    }

    /// A present option is what it holds, given here as already encoded.
    pub fn serialize_some(&self, value: Value) -> (r: Result<Value, Error>)
        ensures
            r == Ok::<Value, Error>(value),
    {
        Ok(value)
    }

    /// The unit is the null value.
    pub fn serialize_unit(&self) -> (r: Result<Value, Error>)
        ensures
            outcome(r) == Ok::<ValueModel, ErrorModel>(ValueModel::Null),
    {
        Ok(Value::Null { null_value: () })
    }

    /// A struct without data is the null value: there is no data after all.
    pub fn serialize_unit_struct(&self, _name: &'static str) -> (r: Result<Value, Error>)
        ensures
            outcome(r) == Ok::<ValueModel, ErrorModel>(ValueModel::Null),
    {
        self.serialize_unit()
    }

    /// An enum variant without fields is the string of its name.
    pub fn serialize_unit_variant(
        &self,
        _name: &'static str,
        _variant_index: u32,
        variant: &'static str,
    ) -> (r: Result<Value, Error>)
        ensures
            outcome(r) == Ok::<ValueModel, ErrorModel>(ValueModel::String(variant@)),
    {
        self.serialize_str(variant)
    }

    /// A struct around one value is that value, given here as already
    /// encoded.
    pub fn serialize_newtype_struct(&self, _name: &'static str, value: Value) -> (r: Result<
        Value,
        Error,
    >)
        ensures
            r == Ok::<Value, Error>(value),
    {
        Ok(value)
    }

    /// Begins a sequence, which is empty until elements are handed in.
    pub fn serialize_seq(&self, _len: Option<usize>) -> (r: Result<SeqSerializer, Error>)
        ensures
            r is Ok,
            r->Ok_0@ == Seq::<ValueModel>::empty(),
    {
        Ok(SeqSerializer { vec: Vec::new() })
    }

    /// Begins a map, which has no entry and awaits no value.
    pub fn serialize_map(&self, _len: Option<usize>) -> (r: Result<MapSerializer, Error>)
        ensures
            r is Ok,
            r->Ok_0@ == Map::<Seq<char>, ValueModel>::empty(),
            r->Ok_0.pending_key() is None,
    {
        let map_serializer = MapSerializer { map: Entity::new(), key: Option::None };
        Ok(map_serializer)
    }

    /// Begins a struct with named fields, which is encoded as a map is.
    pub fn serialize_struct(&self, _name: &'static str, _len: usize) -> (r: Result<
        MapSerializer,
        Error,
    >)
        ensures
            r is Ok,
            r->Ok_0@ == Map::<Seq<char>, ValueModel>::empty(),
            r->Ok_0.pending_key() is None,
    {
        let map_serializer = MapSerializer { map: Entity::new(), key: Option::None };
        Ok(map_serializer)
    }

    /// An enum variant with named fields has no shape in the datastore.
    pub fn serialize_struct_variant(
        &self,
        _name: &'static str,
        _variant_index: u32,
        _variant: &'static str,
        _len: usize,
    ) -> (r: Result<MapSerializer, Error>)
        ensures
            r is Err,
            r->Err_0@ == ErrorModel::UnsupportedValueType("serde struct variant"@),
    {
        Err(Error::UnsupportedValueType("serde struct variant"))
    }

    /// A single character has no shape in the datastore: it is neither a
    /// string nor an integer there.
    pub fn serialize_char(&self, _v: char) -> (r: Result<Value, Error>)
        ensures
            outcome(r) == Err::<ValueModel, ErrorModel>(
                ErrorModel::UnsupportedValueType("char"@),
            ),
    {
        Err(Error::UnsupportedValueType("char"))
    }

    /// An enum variant that holds a tuple has no shape in the datastore:
    /// nothing says where its tag would go.
    pub fn serialize_tuple_variant(
        &self,
        _name: &'static str,
        _variant_index: u32,
        _variant: &'static str,
        _len: usize,
    ) -> (r: Result<SeqSerializer, Error>)
        ensures
            r is Err,
            r->Err_0@ == ErrorModel::UnsupportedValueType("serde tuple variant"@),
    {
        Err(Error::UnsupportedValueType("serde tuple variant"))
    }

    /// An enum variant that holds one value has no shape in the datastore,
    /// for the reason that holds of a tuple variant.
    pub fn serialize_newtype_variant(
        &self,
        _name: &'static str,
        _variant_index: u32,
        _variant: &'static str,
        _value: Value,
    ) -> (r: Result<Value, Error>)
        ensures
            outcome(r) == Err::<ValueModel, ErrorModel>(
                ErrorModel::UnsupportedValueType("serde newtype variant"@),
            ),
    {
        Err(Error::UnsupportedValueType("serde newtype variant"))
    }

    /// A tuple has no shape in the datastore.
    pub fn serialize_tuple(&self, _len: usize) -> (r: Result<SeqSerializer, Error>)
        ensures
            r is Err,
            r->Err_0@ == ErrorModel::UnsupportedValueType("serde tuple"@),
    {
        Err(Error::UnsupportedValueType("serde tuple"))
    }

    /// A tuple struct has no shape in the datastore.
    pub fn serialize_tuple_struct(&self, _name: &'static str, _len: usize) -> (r: Result<
        SeqSerializer,
        Error,
    >)
        ensures
            r is Err,
            r->Err_0@ == ErrorModel::UnsupportedValueType("serde tuple struct"@),
    {
        Err(Error::UnsupportedValueType("serde tuple struct"))
    }
}

/// What an encoded key gives as the name of a property: its text, if it
/// is a string. Nothing else can be a key.
pub open spec fn key_name(key: ValueModel) -> Result<Seq<char>, ErrorModel> {
    match key {
        ValueModel::String(name) => Ok(name),
        _ => Err(ErrorModel::UnsupportedKeyType),
    }
}

/// The name of the property that an encoded key stands for.
pub fn key_of(key: Value) -> (r: Result<String, Error>)
    ensures
        outcome(r) == key_name(key@),
{
    match key {
        Value::String { string_value } => Ok(string_value),
        _ => Err(Error::UnsupportedKeyType()),
    }
}

/// The encoder of one map or struct: the entity built so far, and the key
/// that was handed in last.
pub struct MapSerializer {
    map: Entity,
    key: Option<String>,
}

impl View for MapSerializer {
    type V = Map<Seq<char>, ValueModel>;

    /// The entity built so far.
    closed spec fn view(&self) -> Map<Seq<char>, ValueModel> {
        self.map@
    }
}

impl MapSerializer {
    /// The key that the next value goes under, if a key was handed in.
    pub closed spec fn pending_key(&self) -> Option<Seq<char>> {
        match self.key {
            Some(key) => Some(key@),
            None => None,
        }
    }

    /// Takes the encoded key of the next entry. Only a string can be a key.
    pub fn serialize_key(&mut self, key: Value) -> (r: Result<(), Error>)
        ensures
            final(self)@ == old(self)@,
            match key_name(key@) {
                Ok(name) => r is Ok && final(self).pending_key() == Some(name),
                Err(e) => {
                    &&& r is Err
                    &&& r->Err_0@ == e
                    &&& final(self).pending_key() == old(self).pending_key()
                },
            },
    {
        match key_of(key) {
            Ok(name) => {
                self.key = Option::Some(name);
                Ok(())
            },
            Err(e) => Err(e),
        }
    }

    /// Takes the encoded value of the entry whose key was handed in last,
    /// and puts the entry into the entity. Without a key there is no entry.
    pub fn serialize_value(&mut self, value: Value) -> (r: Result<(), Error>)
        ensures
            final(self).pending_key() == old(self).pending_key(),
            match old(self).pending_key() {
                Some(name) => r is Ok && final(self)@ == old(self)@.insert(name, value@),
                None => {
                    &&& r is Err
                    &&& r->Err_0@ == ErrorModel::SerializationError("map key is missing"@)
                    &&& final(self)@ == old(self)@
                },
            },
    {
        match &self.key {
            None => Err(Error::SerializationError(String::from_str("map key is missing"))),
            Some(k) => {
                let name = k.clone();
                self.map.insert(name, value);
                Ok(())
            },
        }
    }

    /// Takes a whole entry, key and value both encoded. Only a string can
    /// be a key.
    pub fn serialize_entry(&mut self, key: Value, value: Value) -> (r: Result<(), Error>)
        ensures
            final(self).pending_key() == old(self).pending_key(),
            match key_name(key@) {
                Ok(name) => r is Ok && final(self)@ == old(self)@.insert(name, value@),
                Err(e) => {
                    &&& r is Err
                    &&& r->Err_0@ == e
                    &&& final(self)@ == old(self)@
                },
            },
    {
        let key_str = match key_of(key) {
            Ok(name) => name,
            Err(e) => {
                return Err(e);
            },
        };
        self.map.insert(key_str, value);
        Ok(())
    }

    /// Takes one field of a struct: its name and its encoded value.
    pub fn serialize_field(&mut self, key: &'static str, value: Value) -> (r: Result<(), Error>)
        ensures
            r is Ok,
            final(self).pending_key() == old(self).pending_key(),
            final(self)@ == old(self)@.insert(key@, value@),
    {
        self.map.insert(String::from_str(key), value);
        Ok(())
    }

    /// Ends the map: the value is the entity of all entries taken.
    pub fn end(self) -> (r: Result<Value, Error>)
        ensures
            outcome(r) == Ok::<ValueModel, ErrorModel>(ValueModel::EntityValue(self@)),
    {
        let entity_value = self.map;
        Ok(Value::EntityValue { entity_value })
    }
}

/// The encoder of one sequence: the elements taken so far, in their order.
pub struct SeqSerializer {
    vec: Vec<Value>,
}

impl View for SeqSerializer {
    type V = Seq<ValueModel>;

    /// The elements taken so far.
    closed spec fn view(&self) -> Seq<ValueModel> {
        ArrayValue { values: self.vec }@
    }
}

impl SeqSerializer {
    /// Takes the next element, already encoded.
    pub fn serialize_element(&mut self, value: Value) -> (r: Result<(), Error>)
        ensures
            r is Ok,
            final(self)@ == old(self)@.push(value@),
    {
        self.vec.push(value);
        assert(self@ =~= old(self)@.push(value@));
        Ok(())
    }

    /// Ends the sequence: the value is the array of all elements taken.
    pub fn end(self) -> (r: Result<Value, Error>)
        ensures
            outcome(r) == Ok::<ValueModel, ErrorModel>(ValueModel::Array(self@)),
    {
        let array_value = Value::Array { array_value: ArrayValue { values: self.vec } };
        Ok(array_value)
    }
}

} // verus!
