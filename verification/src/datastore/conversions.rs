//! How a value is made from what it is to hold.

use vstd::prelude::*;
use vstd::string::StringExecFns;

use crate::datastore::blob::Blob;
use crate::datastore::decimal::decimal_text;
use crate::datastore::double::Double;
use crate::datastore::integer::Int;
use crate::datastore::value::{ArrayValue, Entity, Value, ValueModel};

verus! {

impl<'a> From<&'a str> for Value {
    /// The string value with the text of `s`.
    fn from(s: &'a str) -> (value: Value)
        ensures
            value@ == ValueModel::String(s@),
    {
        Value::String { string_value: String::from_str(s) }
    }
}

impl<'a> vstd::std_specs::convert::FromSpecImpl<&'a str> for Value {
    open spec fn obeys_from_spec() -> bool {
        false
    }

    open spec fn from_spec(s: &'a str) -> Value {
        arbitrary()
    }
}

impl From<String> for Value {
    fn from(string_value: String) -> (value: Value) {
        Value::String { string_value }
    }
}

impl vstd::std_specs::convert::FromSpecImpl<String> for Value {
    open spec fn obeys_from_spec() -> bool {
        true
    }

    open spec fn from_spec(string_value: String) -> Value {
        Value::String { string_value }
    }
}

impl From<bool> for Value {
    fn from(boolean_value: bool) -> (value: Value) {
        Value::Boolean { boolean_value }
    }
}

impl vstd::std_specs::convert::FromSpecImpl<bool> for Value {
    open spec fn obeys_from_spec() -> bool {
        true
    }

    open spec fn from_spec(boolean_value: bool) -> Value {
        Value::Boolean { boolean_value }
    }
}

impl From<Entity> for Value {
    fn from(entity_value: Entity) -> (value: Value) {
        Value::EntityValue { entity_value }
    }
}

impl vstd::std_specs::convert::FromSpecImpl<Entity> for Value {
    open spec fn obeys_from_spec() -> bool {
        true
    }

    open spec fn from_spec(entity_value: Entity) -> Value {
        Value::EntityValue { entity_value }
    }
}

impl From<()> for Value {
    fn from(null_value: ()) -> (value: Value) {
        Value::Null { null_value: () }
    }
}

impl vstd::std_specs::convert::FromSpecImpl<()> for Value {
    open spec fn obeys_from_spec() -> bool {
        true
    }

    open spec fn from_spec(null_value: ()) -> Value {
        Value::Null { null_value: () }
    }
}

impl From<Double> for Value {
    fn from(double_value: Double) -> (value: Value) {
        Value::Double { double_value }
    }
}

impl vstd::std_specs::convert::FromSpecImpl<Double> for Value {
    open spec fn obeys_from_spec() -> bool {
        true
    }

    open spec fn from_spec(double_value: Double) -> Value {
        Value::Double { double_value }
    }
}

impl From<Vec<Value>> for Value {
    fn from(values: Vec<Value>) -> (value: Value) {
        let array_value = ArrayValue { values };
        Value::Array { array_value }
    }
}

impl vstd::std_specs::convert::FromSpecImpl<Vec<Value>> for Value {
    open spec fn obeys_from_spec() -> bool {
        true
    }

    open spec fn from_spec(values: Vec<Value>) -> Value {
        Value::Array { array_value: ArrayValue { values } }
    }
}

impl From<Blob> for Value {
    fn from(blob_value: Blob) -> (value: Value) {
        Value::Blob { blob_value }
    }
}

impl vstd::std_specs::convert::FromSpecImpl<Blob> for Value {
    open spec fn obeys_from_spec() -> bool {
        true
    }

    open spec fn from_spec(blob_value: Blob) -> Value {
        Value::Blob { blob_value }
    }
}

impl From<u8> for Value {
    /// The integer value whose text is the decimal text of `i`.
    fn from(i: u8) -> (value: Value)
        ensures
            value@ == ValueModel::Integer(decimal_text(i as int)),
    {
        Value::Integer { integer_value: Int::from(i) }
    }
}

impl vstd::std_specs::convert::FromSpecImpl<u8> for Value {
    open spec fn obeys_from_spec() -> bool {
        false
    }

    open spec fn from_spec(i: u8) -> Value {
        arbitrary()
    }
}

impl From<u16> for Value {
    /// The integer value whose text is the decimal text of `i`.
    fn from(i: u16) -> (value: Value)
        ensures
            value@ == ValueModel::Integer(decimal_text(i as int)),
    {
        Value::Integer { integer_value: Int::from(i) }
    }
}

impl vstd::std_specs::convert::FromSpecImpl<u16> for Value {
    open spec fn obeys_from_spec() -> bool {
        false
    }

    open spec fn from_spec(i: u16) -> Value {
        arbitrary()
    }
}

impl From<u32> for Value {
    /// The integer value whose text is the decimal text of `i`.
    fn from(i: u32) -> (value: Value)
        ensures
            value@ == ValueModel::Integer(decimal_text(i as int)),
    {
        Value::Integer { integer_value: Int::from(i) }
    }
}

impl vstd::std_specs::convert::FromSpecImpl<u32> for Value {
    open spec fn obeys_from_spec() -> bool {
        false
    }

    open spec fn from_spec(i: u32) -> Value {
        arbitrary()
    }
}

impl From<u64> for Value {
    /// The integer value whose text is the decimal text of `i`.
    fn from(i: u64) -> (value: Value)
        ensures
            value@ == ValueModel::Integer(decimal_text(i as int)),
    {
        Value::Integer { integer_value: Int::from(i) }
    }
}

impl vstd::std_specs::convert::FromSpecImpl<u64> for Value {
    open spec fn obeys_from_spec() -> bool {
        false
    }

    open spec fn from_spec(i: u64) -> Value {
        arbitrary()
    }
}

impl From<i8> for Value {
    /// The integer value whose text is the decimal text of `i`.
    fn from(i: i8) -> (value: Value)
        ensures
            value@ == ValueModel::Integer(decimal_text(i as int)),
    {
        Value::Integer { integer_value: Int::from(i) }
    }
}

impl vstd::std_specs::convert::FromSpecImpl<i8> for Value {
    open spec fn obeys_from_spec() -> bool {
        false
    }

    open spec fn from_spec(i: i8) -> Value {
        arbitrary()
    }
}

impl From<i16> for Value {
    /// The integer value whose text is the decimal text of `i`.
    fn from(i: i16) -> (value: Value)
        ensures
            value@ == ValueModel::Integer(decimal_text(i as int)),
    {
        Value::Integer { integer_value: Int::from(i) }
    }
}

impl vstd::std_specs::convert::FromSpecImpl<i16> for Value {
    open spec fn obeys_from_spec() -> bool {
        false
    }

    open spec fn from_spec(i: i16) -> Value {
        arbitrary()
    }
}

impl From<i32> for Value {
    /// The integer value whose text is the decimal text of `i`.
    fn from(i: i32) -> (value: Value)
        ensures
            value@ == ValueModel::Integer(decimal_text(i as int)),
    {
        Value::Integer { integer_value: Int::from(i) }
    }
}

impl vstd::std_specs::convert::FromSpecImpl<i32> for Value {
    open spec fn obeys_from_spec() -> bool {
        false
    }

    open spec fn from_spec(i: i32) -> Value {
        arbitrary()
    }
}

impl From<i64> for Value {
    /// The integer value whose text is the decimal text of `i`.
    fn from(i: i64) -> (value: Value)
        ensures
            value@ == ValueModel::Integer(decimal_text(i as int)),
    {
        Value::Integer { integer_value: Int::from(i) }
    }
}

impl vstd::std_specs::convert::FromSpecImpl<i64> for Value {
    open spec fn obeys_from_spec() -> bool {
        false
    }

    open spec fn from_spec(i: i64) -> Value {
        arbitrary()
    }
}

} // verus!
