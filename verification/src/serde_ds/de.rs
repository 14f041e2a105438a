//! Decoding: from a value tree to the parts of a typed value.
//!
//! The walk over the typed target is the caller's. It asks a
//! [`Deserializer`] for the shape it expects and gets the scalar, or, for a
//! sequence or a map, an [`ArrayAccess`] or an [`EntityAccess`] that hands
//! out one [`Deserializer`] for each part.

use vstd::prelude::*;

use crate::datastore::decimal::{decimal_value, is_decimal};
use crate::datastore::double::Double;
use crate::datastore::integer::{FixedWidth, Int};
use crate::datastore::value::{entries_map, entries_of, names_unique, Value, ValueModel};
use crate::serde_ds::error::{outcome, Error, ErrorModel};

verus! {

/// The decoder of one value.
pub struct Deserializer {
    input: Value,
}

impl View for Deserializer {
    type V = ValueModel;

    /// The value to decode.
    closed spec fn view(&self) -> ValueModel {
        self.input@
    }
}

/// What decoding `v` as an integer between `lowest` and `highest` gives:
/// the value of its text, if `v` is an integer, its text a decimal literal
/// and that value within the bounds.
pub open spec fn decode_int(v: ValueModel, lowest: int, highest: int) -> Result<int, ErrorModel> {
    match v {
        ValueModel::Integer(text) => if !is_decimal(text) {
            Err(ErrorModel::ParseIntError)
        } else if lowest <= decimal_value(text) <= highest {
            Ok(decimal_value(text))
        } else {
            Err(ErrorModel::IntegerSizeMismatch)
        },
        _ => Err(ErrorModel::ExpectedType("integer"@)),
    }
}

/// What decoding `v` as a boolean gives.
pub open spec fn decode_bool(v: ValueModel) -> Result<bool, ErrorModel> {
    match v {
        ValueModel::Boolean(b) => Ok(b),
        _ => Err(ErrorModel::ExpectedType("bool"@)),
    }
}

/// What decoding `v` as a double gives: every double that is stored.
pub open spec fn decode_double(v: ValueModel) -> Result<Double, ErrorModel> {
    match v {
        ValueModel::Double(d) => Ok(d),
        _ => Err(ErrorModel::ExpectedType("double"@)),
    }
}

/// What decoding `v` for a target of single precision gives: the double,
/// unless its magnitude is beyond single precision.
pub open spec fn decode_single(v: ValueModel) -> Result<Double, ErrorModel> {
    match v {
        ValueModel::Double(d) => if d.exceeds_single() {
            Err(ErrorModel::DoubleSizeMismatch)
        } else {
            Ok(d)
        },
        _ => Err(ErrorModel::ExpectedType("double"@)),
    }
}

/// What decoding `v` as a string gives.
pub open spec fn decode_string(v: ValueModel) -> Result<Seq<char>, ErrorModel> {
    match v {
        ValueModel::String(s) => Ok(s),
        _ => Err(ErrorModel::ExpectedType("string"@)),
    }
}

/// What decoding `v` as bytes gives.
pub open spec fn decode_bytes(v: ValueModel) -> Result<Seq<u8>, ErrorModel> {
    match v {
        ValueModel::Blob(bytes) => Ok(bytes),
        _ => Err(ErrorModel::ExpectedType("blob"@)),
    }
}

/// What decoding `v` as the unit gives.
pub open spec fn decode_unit(v: ValueModel) -> Result<(), ErrorModel> {
    match v {
        ValueModel::Null => Ok(()),
        _ => Err(ErrorModel::ExpectedType("null"@)),
    }
}

/// What decoding `v` as an option gives: nothing for the null value, and
/// for any other value that value, to be decoded as what the option holds.
pub open spec fn decode_option(v: ValueModel) -> Option<ValueModel> {
    match v {
        ValueModel::Null => None,
        _ => Some(v),
    }
}

/// What decoding `v` as a sequence gives: its elements in their order.
pub open spec fn decode_array(v: ValueModel) -> Result<Seq<ValueModel>, ErrorModel> {
    match v {
        ValueModel::Array(items) => Ok(items),
        _ => Err(ErrorModel::ExpectedType("array"@)),
    }
}

/// What decoding `v` as a map or a struct gives: its properties.
pub open spec fn decode_entity(v: ValueModel) -> Result<Map<Seq<char>, ValueModel>, ErrorModel> {
    match v {
        ValueModel::EntityValue(properties) => Ok(properties),
        _ => Err(ErrorModel::ExpectedType("entity"@)),
    }
}

/// The integer that `input` holds, if it is one.
pub fn int_value<'de>(input: &'de Value) -> (r: Result<&'de Int, Error>)
    ensures
        match r {
            Ok(integer) => input@ == ValueModel::Integer(integer@),
            Err(e) => !(input@ is Integer) && e@ == ErrorModel::ExpectedType("integer"@),
        },
{
    match input {
        Value::Integer { integer_value } => Ok(integer_value),
        _ => Err(Error::ExpectedType("integer")),
    }
}

/// Reads the integer that `input` holds into the width `T`.
fn decode_width<T: FixedWidth>(input: &Value) -> (r: Result<T, Error>)
    ensures
        match r {
            Ok(x) => decode_int(input@, T::lowest(), T::highest()) == Ok::<int, ErrorModel>(
                x.value(),
            ),
            Err(e) => decode_int(input@, T::lowest(), T::highest()) == Err::<int, ErrorModel>(e@),
        },
{
    match int_value(input) {
        Ok(integer) => integer.parse::<T>(),
        Err(e) => Err(e),
    }
}

/// What a decode without a known target hands to the caller: the one
/// typed value that the variant of the stored value stands for.
pub enum Visit {
    Unit,
    Text(String),
    I64(i64),
    F64(Double),
    Bool(bool),
    Bytes(Vec<u8>),
    Elements(ArrayAccess),
}

/// What a [`Visit`] holds, as mathematics.
pub enum VisitModel {
    Unit,
    Text(Seq<char>),
    I64(int),
    F64(Double),
    Bool(bool),
    Bytes(Seq<u8>),
    Elements(Seq<ValueModel>),
}

impl View for Visit {
    type V = VisitModel;

    open spec fn view(&self) -> VisitModel {
        match *self {
            Visit::Unit => VisitModel::Unit,
            Visit::Text(s) => VisitModel::Text(s@),
            Visit::I64(i) => VisitModel::I64(i as int),
            Visit::F64(d) => VisitModel::F64(d),
            Visit::Bool(b) => VisitModel::Bool(b),
            Visit::Bytes(bytes) => VisitModel::Bytes(bytes@),
            Visit::Elements(access) => VisitModel::Elements(access.remaining()),
        }
    }
}

/// What decoding `v` without a known target gives. Null, strings, integers,
/// doubles, booleans, blobs and arrays each stand for one typed value; an
/// entity, a key, a point and a timestamp stand for none.
pub open spec fn describe(v: ValueModel) -> Result<VisitModel, ErrorModel> {
    match v {
        ValueModel::Null => Ok(VisitModel::Unit),
        ValueModel::String(s) => Ok(VisitModel::Text(s)),
        ValueModel::Integer(_) => match decode_int(v, i64::MIN as int, i64::MAX as int) {
            Ok(i) => Ok(VisitModel::I64(i)),
            Err(e) => Err(e),
        },
        ValueModel::Double(d) => Ok(VisitModel::F64(d)),
        ValueModel::Boolean(b) => Ok(VisitModel::Bool(b)),
        ValueModel::Blob(bytes) => Ok(VisitModel::Bytes(bytes)),
        ValueModel::Array(items) => Ok(VisitModel::Elements(items)),
        _ => Err(ErrorModel::NonSelfDescribingType),
    }
}

impl Deserializer {
    /// The decoder of `input`.
    pub fn new(input: Value) -> (deserializer: Deserializer)
        ensures
            deserializer@ == input@,
    {
        Deserializer { input }
    }

    /// Decodes by the variant of the value alone.
    pub fn deserialize_any(&self) -> (r: Result<Visit, Error>)
        ensures
            outcome(r) == describe(self@),
    {
        match &self.input {
            Value::Null { .. } => match self.deserialize_unit() {
                Ok(()) => Ok(Visit::Unit),
                Err(e) => Err(e),
            },
            Value::String { .. } => match self.deserialize_string() {
                Ok(s) => Ok(Visit::Text(s)),
                Err(e) => Err(e),
            },
            Value::Integer { .. } => match self.deserialize_i64() {
                Ok(i) => Ok(Visit::I64(i)),
                Err(e) => Err(e),
            },
            Value::Double { .. } => match self.deserialize_f64() {
                Ok(d) => Ok(Visit::F64(d)),
                Err(e) => Err(e),
            },
            Value::Boolean { .. } => match self.deserialize_bool() {
                Ok(b) => Ok(Visit::Bool(b)),
                Err(e) => Err(e),
            },
            Value::Blob { .. } => match self.deserialize_byte_buf() {
                Ok(bytes) => Ok(Visit::Bytes(bytes)),
                Err(e) => Err(e),
            },
            Value::Array { .. } => match self.deserialize_seq() {
                Ok(access) => Ok(Visit::Elements(access)),
                Err(e) => Err(e),
            },
            // An entity, a key, a point or a timestamp has no obvious match.
            _ => Err(Error::NonSelfDescribingType()),
        }
    }

    /// Decodes a boolean.
    pub fn deserialize_bool(&self) -> (r: Result<bool, Error>)
        ensures
            outcome(r) == decode_bool(self@),
    {
        match self.input {
            Value::Boolean { boolean_value } => Ok(boolean_value),
            _ => Err(Error::ExpectedType("bool")),
        }
    }

    /// Decodes an integer into the width of the target: the text is read, and
    /// a value that the width cannot hold is refused.
    pub fn deserialize_i8(&self) -> (r: Result<i8, Error>)
        ensures
            match r {
                Ok(x) => decode_int(self@, i8::MIN as int, i8::MAX as int) == Ok::<int, ErrorModel>(
                    x as int,
                ),
                Err(e) => decode_int(self@, i8::MIN as int, i8::MAX as int) == Err::<
                    int,
                    ErrorModel,
                >(e@),
            },
    {
        decode_width::<i8>(&self.input)
    }

    /// See [`Deserializer::deserialize_i8`].
    pub fn deserialize_i16(&self) -> (r: Result<i16, Error>)
        ensures
            match r {
                Ok(x) => decode_int(self@, i16::MIN as int, i16::MAX as int) == Ok::<int, ErrorModel>(
                    x as int,
                ),
                Err(e) => decode_int(self@, i16::MIN as int, i16::MAX as int) == Err::<
                    int,
                    ErrorModel,
                >(e@),
            },
    {
        decode_width::<i16>(&self.input)
    }

    /// See [`Deserializer::deserialize_i8`].
    pub fn deserialize_i32(&self) -> (r: Result<i32, Error>)
        ensures
            match r {
                Ok(x) => decode_int(self@, i32::MIN as int, i32::MAX as int) == Ok::<int, ErrorModel>(
                    x as int,
                ),
                Err(e) => decode_int(self@, i32::MIN as int, i32::MAX as int) == Err::<
                    int,
                    ErrorModel,
                >(e@),
            },
    {
        decode_width::<i32>(&self.input)
    }

    /// See [`Deserializer::deserialize_i8`].
    pub fn deserialize_i64(&self) -> (r: Result<i64, Error>)
        ensures
            match r {
                Ok(x) => decode_int(self@, i64::MIN as int, i64::MAX as int) == Ok::<int, ErrorModel>(
                    x as int,
                ),
                Err(e) => decode_int(self@, i64::MIN as int, i64::MAX as int) == Err::<
                    int,
                    ErrorModel,
                >(e@),
            },
    {
        decode_width::<i64>(&self.input)
    }

    /// See [`Deserializer::deserialize_i8`].
    pub fn deserialize_u8(&self) -> (r: Result<u8, Error>)
        ensures
            match r {
                Ok(x) => decode_int(self@, u8::MIN as int, u8::MAX as int) == Ok::<int, ErrorModel>(
                    x as int,
                ),
                Err(e) => decode_int(self@, u8::MIN as int, u8::MAX as int) == Err::<
                    int,
                    ErrorModel,
                >(e@),
            },
    {
        decode_width::<u8>(&self.input)
    }

    /// See [`Deserializer::deserialize_i8`].
    pub fn deserialize_u16(&self) -> (r: Result<u16, Error>)
        ensures
            match r {
                Ok(x) => decode_int(self@, u16::MIN as int, u16::MAX as int) == Ok::<int, ErrorModel>(
                    x as int,
                ),
                Err(e) => decode_int(self@, u16::MIN as int, u16::MAX as int) == Err::<
                    int,
                    ErrorModel,
                >(e@),
            },
    {
        decode_width::<u16>(&self.input)
    }

    /// See [`Deserializer::deserialize_i8`].
    pub fn deserialize_u32(&self) -> (r: Result<u32, Error>)
        ensures
            match r {
                Ok(x) => decode_int(self@, u32::MIN as int, u32::MAX as int) == Ok::<int, ErrorModel>(
                    x as int,
                ),
                Err(e) => decode_int(self@, u32::MIN as int, u32::MAX as int) == Err::<
                    int,
                    ErrorModel,
                >(e@),
            },
    {
        decode_width::<u32>(&self.input)
    }

    /// See [`Deserializer::deserialize_i8`].
    pub fn deserialize_u64(&self) -> (r: Result<u64, Error>)
        ensures
            match r {
                Ok(x) => decode_int(self@, u64::MIN as int, u64::MAX as int) == Ok::<int, ErrorModel>(
                    x as int,
                ),
                Err(e) => decode_int(self@, u64::MIN as int, u64::MAX as int) == Err::<
                    int,
                    ErrorModel,
                >(e@),
            },
    {
        decode_width::<u64>(&self.input)
    }

    /// Decodes a double for a target of single precision. The double is handed
    /// out as it is stored, and only if single precision can hold its
    /// magnitude.
    pub fn deserialize_f32(&self) -> (r: Result<Double, Error>)
        ensures
            outcome(r) == decode_single(self@),
    {
        let f = match self.input {
            Value::Double { double_value } => double_value,
            _ => {
                return Err(Error::ExpectedType("double"));
            },
        };
        if f.is_beyond_single() {
            Err(Error::DoubleSizeMismatch())
        } else {
            Ok(f)
        }
    }

    /// Decodes a double, which always fits.
    pub fn deserialize_f64(&self) -> (r: Result<Double, Error>)
        ensures
            outcome(r) == decode_double(self@),
    {
        match self.input {
            Value::Double { double_value } => Ok(double_value),
            _ => Err(Error::ExpectedType("double")),
        }
    }

    /// Decodes a string, lent from the value.
    pub fn deserialize_str(&self) -> (r: Result<&str, Error>)
        ensures
            outcome(r) == decode_string(self@),
    {
        match &self.input {
            Value::String { string_value } => Ok(string_value.as_str()),
            _ => Err(Error::ExpectedType("string")),
        }
    }

    /// Decodes a string, as a copy.
    pub fn deserialize_string(&self) -> (r: Result<String, Error>)
        ensures
            outcome(r) == decode_string(self@),
    {
        match &self.input {
            Value::String { string_value } => Ok(string_value.clone()),
            _ => Err(Error::ExpectedType("string")),
        }
    }

    /// Decodes bytes, lent from the value.
    pub fn deserialize_bytes(&self) -> (r: Result<&[u8], Error>)
        ensures
            outcome(r) == decode_bytes(self@),
    {
        match &self.input {
            Value::Blob { blob_value } => Ok(blob_value.0.as_slice()),
            _ => Err(Error::ExpectedType("blob")),
        }
    }

    /// Decodes bytes, as a copy.
    pub fn deserialize_byte_buf(&self) -> (r: Result<Vec<u8>, Error>)
        ensures
            outcome(r) == decode_bytes(self@),
    {
        match &self.input {
            Value::Blob { blob_value } => Ok(blob_value.clone().0),
            _ => Err(Error::ExpectedType("blob")),
        }
    }

    /// Decodes an option: the null value is the absent one, and any other
    /// value is to be decoded as what a present one holds.
    pub fn deserialize_option(&self) -> (present: Option<&Deserializer>)
        ensures
            match present {
                Some(inner) => decode_option(self@) == Some(inner@),
                None => decode_option(self@) is None,
            },
    {
        match self.input {
            Value::Null { .. } => None,
            _ => Some(self),
        }
    }

    /// Decodes the unit, which is stored as the null value.
    pub fn deserialize_unit(&self) -> (r: Result<(), Error>)
        ensures
            outcome(r) == decode_unit(self@),
    {
        match self.input {
            Value::Null { .. } => Ok(()),
            _ => Err(Error::ExpectedType("null")),
        }
    }

    /// A struct without data is decoded as the unit is.
    pub fn deserialize_unit_struct(&self, _name: &'static str) -> (r: Result<(), Error>)
        ensures
            outcome(r) == decode_unit(self@),
    {
        self.deserialize_unit()
    }

    /// A struct around one value is decoded from the value itself.
    pub fn deserialize_newtype_struct(&self, _name: &'static str) -> (inner: &Deserializer)
        ensures
            inner@ == self@,
    {
        self
    }

    /// The name of a field or of a variant is a string.
    pub fn deserialize_identifier(&self) -> (r: Result<&str, Error>)
        ensures
            outcome(r) == decode_string(self@),
    {
        self.deserialize_str()
    }

    /// Begins the decoding of a sequence.
    pub fn deserialize_seq(&self) -> (r: Result<ArrayAccess, Error>)
        ensures
            match r {
                Ok(access) => decode_array(self@) == Ok::<Seq<ValueModel>, ErrorModel>(
                    access.remaining(),
                ),
                Err(e) => decode_array(self@) == Err::<Seq<ValueModel>, ErrorModel>(e@),
            },
    {
        ArrayAccess::new(&self.input)
    }

    /// Begins the decoding of a map.
    pub fn deserialize_map(&self) -> (r: Result<EntityAccess, Error>)
        ensures
            match r {
                Ok(access) => {
                    &&& decode_entity(self@) == Ok::<Map<Seq<char>, ValueModel>, ErrorModel>(
                        entries_map(access.remaining()),
                    )
                    &&& names_unique(access.remaining())
                    &&& access.next_value() is None
                },
                Err(e) => decode_entity(self@) == Err::<Map<Seq<char>, ValueModel>, ErrorModel>(
                    e@,
                ),
            },
    {
        EntityAccess::new(&self.input)
    }

    /// A struct with named fields is decoded as a map is.
    pub fn deserialize_struct(
        &self,
        _name: &'static str,
        _fields: &'static [&'static str],
    ) -> (r: Result<EntityAccess, Error>)
        ensures
            match r {
                Ok(access) => {
                    &&& decode_entity(self@) == Ok::<Map<Seq<char>, ValueModel>, ErrorModel>(
                        entries_map(access.remaining()),
                    )
                    &&& names_unique(access.remaining())
                    &&& access.next_value() is None
                },
                Err(e) => decode_entity(self@) == Err::<Map<Seq<char>, ValueModel>, ErrorModel>(
                    e@,
                ),
            },
    {
        EntityAccess::new(&self.input)
    }

    /// An enum is not decoded.
    pub fn deserialize_enum(
        &self,
        _name: &'static str,
        _variants: &'static [&'static str],
    ) -> (r: Result<Visit, Error>)
        ensures
            outcome(r) == Err::<VisitModel, ErrorModel>(
                ErrorModel::NotYetImplemented("enum deserialization"@),
            ),
    {
        Err(Error::NotYetImplemented("enum deserialization"))
    }

    /// A value cannot be skipped.
    pub fn deserialize_ignored_any(&self) -> (r: Result<Visit, Error>)
        ensures
            outcome(r) == Err::<VisitModel, ErrorModel>(
                ErrorModel::NotYetImplemented("ignored value deserialization"@),
            ),
    {
        Err(Error::NotYetImplemented("ignored value deserialization"))
    }

    /// No value of the datastore is a single character.
    pub fn deserialize_char(&self) -> (r: Result<char, Error>)
        ensures
            outcome(r) == Err::<char, ErrorModel>(ErrorModel::UnsupportedValueType("char"@)),
    {
        Err(Error::UnsupportedValueType("char"))
    }

    /// A tuple is not decoded.
    pub fn deserialize_tuple(&self, _len: usize) -> (r: Result<ArrayAccess, Error>)
        ensures
            r is Err,
            r->Err_0@ == ErrorModel::NotYetImplemented("tuple deserialization"@),
    {
        Err(Error::NotYetImplemented("tuple deserialization"))
    }

    /// No value of the datastore is a tuple struct.
    pub fn deserialize_tuple_struct(&self, _name: &'static str, _len: usize) -> (r: Result<
        ArrayAccess,
        Error,
    >)
        ensures
            r is Err,
            r->Err_0@ == ErrorModel::UnsupportedValueType("tuple struct deserialization"@),
    {
        Err(Error::UnsupportedValueType("tuple struct deserialization"))
    }
}

/// The elements of an array that are still to be handed out, in their
/// order.
pub struct ArrayAccess {
    /// The elements still to come, the next one last.
    pending: Vec<Value>,
}

impl ArrayAccess {
    /// The elements still to come, the next one first.
    pub closed spec fn remaining(&self) -> Seq<ValueModel> {
        Seq::new(self.pending.len() as nat, |k: int| self.pending[self.pending.len() - 1 - k]@)
    }

    /// Begins the walk over the elements of `v`, which must be an array.
    pub fn new(v: &Value) -> (r: Result<ArrayAccess, Error>)
        ensures
            match r {
                Ok(access) => decode_array(v@) == Ok::<Seq<ValueModel>, ErrorModel>(
                    access.remaining(),
                ),
                Err(e) => decode_array(v@) == Err::<Seq<ValueModel>, ErrorModel>(e@),
            },
    {
        let array = match v {
            Value::Array { array_value } => array_value,
            _ => {
                return Err(Error::ExpectedType("array"));
            },
        };
        let n = array.values.len();
        let mut pending: Vec<Value> = Vec::new();
        let mut i: usize = n;
        while i > 0
            invariant
                i <= n,
                n == array.values.len(),
                pending.len() == n - i,
                forall|k: int| 0 <= k < pending.len() ==> pending[k]@ == array.values[n - 1 - k]@,
            decreases i,
        {
            i = i - 1;
            pending.push(array.values[i].duplicate());
        }
        let access = ArrayAccess { pending };
        assert(access.remaining() =~= array@);
        Ok(access)
    }

    /// Hands out the decoder of the next element, or nothing when all
    /// elements were handed out.
    pub fn next_element_seed(&mut self) -> (next: Option<Deserializer>)
        ensures
            match next {
                Some(element) => {
                    &&& old(self).remaining().len() > 0
                    &&& element@ == old(self).remaining()[0]
                    &&& final(self).remaining() == old(self).remaining().drop_first()
                },
                None => {
                    &&& old(self).remaining().len() == 0
                    &&& final(self).remaining() == old(self).remaining()
                },
            },
    {
        match self.pending.pop() {
            None => None,
            Some(v) => {
                assert(self.remaining() =~= old(self).remaining().drop_first());
                Some(Deserializer { input: v })
            },
        }
    }
}

/// The properties of an entity that are still to be handed out, and the
/// value of the property whose name was handed out last.
pub struct EntityAccess {
    /// The properties still to come, the next one last.
    pending: Vec<(String, Value)>,
    next_value: Option<Value>,
}

impl EntityAccess {
    /// The properties still to come, the next one first.
    pub closed spec fn remaining(&self) -> Seq<(Seq<char>, ValueModel)> {
        Seq::new(
            self.pending.len() as nat,
            |k: int|
                (
                    self.pending[self.pending.len() - 1 - k].0@,
                    self.pending[self.pending.len() - 1 - k].1@,
                ),
        )
    }

    /// The value that waits to be decoded, if a name was handed out and its
    /// value was not.
    pub closed spec fn next_value(&self) -> Option<ValueModel> {
        match self.next_value {
            Some(value) => Some(value@),
            None => None,
        }
    }

    /// Begins the walk over the properties of `v`, which must be an entity.
    /// Each property comes once, in the order in which the entity holds
    /// them.
    pub fn new(v: &Value) -> (r: Result<EntityAccess, Error>)
        ensures
            match r {
                Ok(access) => {
                    &&& decode_entity(v@) == Ok::<Map<Seq<char>, ValueModel>, ErrorModel>(
                        entries_map(access.remaining()),
                    )
                    &&& names_unique(access.remaining())
                    &&& access.next_value() is None
                },
                Err(e) => decode_entity(v@) == Err::<Map<Seq<char>, ValueModel>, ErrorModel>(e@),
            },
    {
        let entity = match v {
            Value::EntityValue { entity_value } => entity_value,
            _ => {
                return Err(Error::ExpectedType("entity"));
            },
        };
        let properties = entity.properties();
        let n = properties.len();
        let mut pending: Vec<(String, Value)> = Vec::new();
        let mut i: usize = n;
        while i > 0
            invariant
                i <= n,
                n == properties.len(),
                pending.len() == n - i,
                forall|k: int|
                    0 <= k < pending.len() ==> pending[k].0@ == properties[n - 1 - k].0@
                        && pending[k].1@ == properties[n - 1 - k].1@,
            decreases i,
        {
            i = i - 1;
            pending.push((properties[i].0.clone(), properties[i].1.duplicate()));
        }
        let access = EntityAccess { pending, next_value: None };
        assert(access.remaining() =~= entries_of(properties@));
        Ok(access)
    }

    /// Hands out the decoder of the next property's name, which is a
    /// string, and keeps the property's value for the step that follows.
    /// When all properties were handed out it hands out nothing.
    pub fn next_key_seed(&mut self) -> (next: Option<Deserializer>)
        ensures
            match next {
                Some(key) => {
                    &&& old(self).remaining().len() > 0
                    &&& key@ == ValueModel::String(old(self).remaining()[0].0)
                    &&& final(self).next_value() == Some(old(self).remaining()[0].1)
                    &&& final(self).remaining() == old(self).remaining().drop_first()
                },
                None => {
                    &&& old(self).remaining().len() == 0
                    &&& final(self).remaining() == old(self).remaining()
                    &&& final(self).next_value() == old(self).next_value()
                },
            },
    {
        let next = self.pending.pop();
        match next {
            // No more elements in the map!
            None => None,
            Some((k, v)) => {
                assert(self.remaining() =~= old(self).remaining().drop_first());
                // Keep the value around for the value-deserialization step.
                self.next_value = Option::Some(v);
                let kv = Value::String { string_value: k };
                Some(Deserializer { input: kv })
            },
        }
    }

    /// Whether a name was handed out whose value was not.
    pub fn has_next_value(&self) -> (waiting: bool)
        ensures
            waiting == self.next_value() is Some,
    {
        self.next_value.is_some()
    }

    /// Hands out the decoder of the value that belongs to the name handed
    /// out last. To ask for a value before its name breaks the order that
    /// every walk keeps, and is ruled out.
    pub fn next_value_seed(&mut self) -> (value: Deserializer)
        requires
            old(self).next_value() is Some,
        ensures
            Some(value@) == old(self).next_value(),
            final(self).next_value() is None,
            final(self).remaining() == old(self).remaining(),
    {
        let input = self.next_value.take().unwrap();
        Deserializer { input }
    }
}

} // verus!
