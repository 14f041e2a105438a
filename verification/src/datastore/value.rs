//! The value tree: the tagged union of everything the datastore can hold,
//! and the entity, a map from property names to values.

use vstd::prelude::*;

use crate::datastore::blob::Blob;
use crate::datastore::double::{Double, LatLng, Timestamp};
use crate::datastore::integer::Int;
use crate::datastore::key::{Key, KeyModel};

verus! {

/// One value of the datastore. Exactly one variant is active, and on the
/// wire the value is an object with the one key that names it.
#[derive(Debug)]
pub enum Value {
    Null { null_value: () },
    String { string_value: String },
    Boolean { boolean_value: bool },
    Integer { integer_value: Int },
    Double { double_value: Double },
    Array { array_value: ArrayValue },
    GeoPoint { geo_point_value: LatLng },
    EntityValue { entity_value: Entity },
    KeyValue { key_value: Key },
    Blob { blob_value: Blob },
    Timestamp { timestamp_value: Timestamp },
}

/// An ordered sequence of values. Order counts, and a value may occur more
/// than once.
#[derive(Debug)]
pub struct ArrayValue {
    pub values: Vec<Value>,
}

/// A map from property names to values. No name occurs twice, and the order
/// in which the properties were put in means nothing.
#[derive(Debug)]
pub struct Entity {
    properties: Vec<(String, Value)>,
}

/// What a [`Value`] holds, as mathematics: texts are sequences of
/// characters, an array is a sequence, and an entity is a map keyed by name.
pub enum ValueModel {
    Null,
    String(Seq<char>),
    Boolean(bool),
    Integer(Seq<char>),
    Double(Double),
    Array(Seq<ValueModel>),
    GeoPoint(LatLng),
    EntityValue(Map<Seq<char>, ValueModel>),
    KeyValue(KeyModel),
    Blob(Seq<u8>),
    Timestamp(Timestamp),
}

impl ValueModel {
    /// The key under which a value of this variant stands on the wire,
    /// where every value is an object with this one key.
    pub open spec fn wire_key(self) -> Seq<char> {
        match self {
            ValueModel::Null => "nullValue"@,
            ValueModel::String(_) => "stringValue"@,
            ValueModel::Boolean(_) => "booleanValue"@,
            ValueModel::Integer(_) => "integerValue"@,
            ValueModel::Double(_) => "doubleValue"@,
            ValueModel::Array(_) => "arrayValue"@,
            ValueModel::GeoPoint(_) => "geoPointValue"@,
            ValueModel::EntityValue(_) => "entityValue"@,
            ValueModel::KeyValue(_) => "keyValue"@,
            ValueModel::Blob(_) => "blobValue"@,
            ValueModel::Timestamp(_) => "timestampValue"@,
        }
    }
}

/// The map that a sequence of named values stands for. Where no name occurs
/// twice, each name is mapped to the value it is paired with.
pub open spec fn entries_map(entries: Seq<(Seq<char>, ValueModel)>) -> Map<Seq<char>, ValueModel> {
    Map::new(
        |name: Seq<char>| exists|i: int| 0 <= i < entries.len() && #[trigger] entries[i].0 == name,
        |name: Seq<char>|
            entries[choose|i: int| 0 <= i < entries.len() && #[trigger] entries[i].0 == name].1,
    )
}

/// The names and value models of stored properties, in their order.
pub open spec fn entries_of(properties: Seq<(String, Value)>) -> Seq<(Seq<char>, ValueModel)>
    decreases properties,
{
    Seq::new(
        properties.len(),
        |i: int|
            if 0 <= i < properties.len() {
                (properties[i].0@, properties[i].1.model())
            } else {
                (Seq::empty(), ValueModel::Null)
            },
    )
}

/// Whether no name occurs twice among the entries.
pub open spec fn names_unique(entries: Seq<(Seq<char>, ValueModel)>) -> bool {
    forall|i: int, j: int|
        0 <= i < j < entries.len() ==> #[trigger] entries[i].0 != #[trigger] entries[j].0
}

impl Value {
    /// The model of the value.
    pub open spec fn model(&self) -> ValueModel
        decreases self,
    {
        match self {
            Value::Null { .. } => ValueModel::Null,
            Value::String { string_value } => ValueModel::String(string_value@),
            Value::Boolean { boolean_value } => ValueModel::Boolean(*boolean_value),
            Value::Integer { integer_value } => ValueModel::Integer(integer_value@),
            Value::Double { double_value } => ValueModel::Double(*double_value),
            Value::Array { array_value } => ValueModel::Array(array_value.model()),
            Value::GeoPoint { geo_point_value } => ValueModel::GeoPoint(*geo_point_value),
            Value::EntityValue { entity_value } => ValueModel::EntityValue(
                entries_map(entity_value.entries()),
            ),
            Value::KeyValue { key_value } => ValueModel::KeyValue(key_value@),
            Value::Blob { blob_value } => ValueModel::Blob(blob_value@),
            Value::Timestamp { timestamp_value } => ValueModel::Timestamp(*timestamp_value),
        }
    }
}

impl ArrayValue {
    /// The models of the values, in their order.
    pub open spec fn model(&self) -> Seq<ValueModel>
        decreases self,
    {
        Seq::new(
            self.values.len() as nat,
            |i: int|
                if 0 <= i < self.values.len() {
                    self.values[i].model()
                } else {
                    ValueModel::Null
                },
        )
    }
}

impl Entity {
    /// The properties in the order in which the entity holds them, each as
    /// its name and the model of its value.
    pub closed spec fn entries(&self) -> Seq<(Seq<char>, ValueModel)>
        decreases self,
    {
        entries_of(self.properties@)
    }

    /// No name occurs twice among the properties.
    #[verifier::type_invariant]
    spec fn well_formed(&self) -> bool {
        names_unique(entries_of(self.properties@))
    }
}

/// In entries without a repeated name, the map gives for the name of each
/// entry the value of that entry.
pub proof fn lemma_entries_map_at(entries: Seq<(Seq<char>, ValueModel)>, i: int)
    requires
        names_unique(entries),
        0 <= i < entries.len(),
    ensures
        entries_map(entries).contains_key(entries[i].0),
        entries_map(entries)[entries[i].0] == entries[i].1,
{
    let name = entries[i].0;
    let j = choose|j: int| 0 <= j < entries.len() && #[trigger] entries[j].0 == name;
    if j < i {
        assert(entries[j].0 != entries[i].0);
    } else if i < j {
        assert(entries[i].0 != entries[j].0);
    }
}

/// A name that is new to the entries is put into the map by appending it.
pub proof fn lemma_entries_map_push(
    entries: Seq<(Seq<char>, ValueModel)>,
    name: Seq<char>,
    value: ValueModel,
)
    requires
        names_unique(entries),
        forall|i: int| 0 <= i < entries.len() ==> (#[trigger] entries[i]).0 != name,
    ensures
        names_unique(entries.push((name, value))),
        entries_map(entries.push((name, value))) == entries_map(entries).insert(name, value),
{
    let longer = entries.push((name, value));
    assert(names_unique(longer)) by {
        assert forall|i: int, j: int| 0 <= i < j < longer.len() implies #[trigger] longer[i].0
            != #[trigger] longer[j].0 by {
            if j < entries.len() {
                assert(entries[i].0 != entries[j].0);
            } else {
                assert(entries[i].0 != name);
            }
        }
    }
    assert forall|other: Seq<char>| #[trigger]
        entries_map(longer).contains_key(other) == entries_map(entries).insert(
            name,
            value,
        ).contains_key(other) by {
        if entries_map(longer).contains_key(other) {
            let i = choose|i: int| 0 <= i < longer.len() && #[trigger] longer[i].0 == other;
            if i < entries.len() {
                assert(entries[i].0 == other);
            }
        }
        if other == name {
            assert(longer[entries.len() as int].0 == name);
        } else if entries_map(entries).contains_key(other) {
            let i = choose|i: int| 0 <= i < entries.len() && #[trigger] entries[i].0 == other;
            assert(longer[i].0 == other);
        }
    }
    assert forall|other: Seq<char>| #[trigger]
        entries_map(longer).contains_key(other) implies entries_map(longer)[other]
        == entries_map(entries).insert(name, value)[other] by {
        let i = choose|i: int| 0 <= i < longer.len() && #[trigger] longer[i].0 == other;
        lemma_entries_map_at(longer, i);
        if i < entries.len() {
            assert(entries[i] == longer[i]);
            lemma_entries_map_at(entries, i);
        }
    }
    assert(entries_map(longer) =~= entries_map(entries).insert(name, value));
}

/// Taking an entry out of entries without a repeated name takes its name
/// out of the map.
pub proof fn lemma_entries_map_remove(entries: Seq<(Seq<char>, ValueModel)>, at: int)
    requires
        names_unique(entries),
        0 <= at < entries.len(),
    ensures
        names_unique(entries.remove(at)),
        forall|i: int|
            0 <= i < entries.remove(at).len() ==> (#[trigger] entries.remove(at)[i]).0
                != entries[at].0,
        entries_map(entries.remove(at)) == entries_map(entries).remove(entries[at].0),
{
    let shorter = entries.remove(at);
    let name = entries[at].0;
    assert forall|i: int| 0 <= i < shorter.len() implies shorter[i] == entries[if i < at {
        i
    } else {
        i + 1
    }] by {}
    assert forall|i: int| 0 <= i < shorter.len() implies (#[trigger] shorter[i]).0 != name by {
        if i < at {
            assert(entries[i].0 != entries[at].0);
        } else {
            assert(entries[at].0 != entries[i + 1].0);
        }
    }
    assert(names_unique(shorter)) by {
        assert forall|i: int, j: int| 0 <= i < j < shorter.len() implies #[trigger] shorter[i].0
            != #[trigger] shorter[j].0 by {
            let wide_i = if i < at {
                i
            } else {
                i + 1
            };
            let wide_j = if j < at {
                j
            } else {
                j + 1
            };
            assert(entries[wide_i].0 != entries[wide_j].0);
        }
    }
    assert forall|other: Seq<char>| #[trigger]
        entries_map(shorter).contains_key(other) == entries_map(entries).remove(
            name,
        ).contains_key(other) by {
        if entries_map(shorter).contains_key(other) {
            let i = choose|i: int| 0 <= i < shorter.len() && #[trigger] shorter[i].0 == other;
            let wide = if i < at {
                i
            } else {
                i + 1
            };
            assert(entries[wide].0 == other);
            assert(shorter[i].0 != name);
        }
        if other != name && entries_map(entries).contains_key(other) {
            let i = choose|i: int| 0 <= i < entries.len() && #[trigger] entries[i].0 == other;
            let narrow = if i < at {
                i
            } else {
                i - 1
            };
            assert(shorter[narrow].0 == other);
        }
    }
    assert forall|other: Seq<char>| #[trigger]
        entries_map(shorter).contains_key(other) implies entries_map(shorter)[other]
        == entries_map(entries).remove(name)[other] by {
        let i = choose|i: int| 0 <= i < shorter.len() && #[trigger] shorter[i].0 == other;
        let wide = if i < at {
            i
        } else {
            i + 1
        };
        lemma_entries_map_at(shorter, i);
        lemma_entries_map_at(entries, wide);
    }
    assert(entries_map(shorter) =~= entries_map(entries).remove(name));
}

impl Value {
    /// The key under which the value stands on the wire.
    pub fn wire_key(&self) -> (key: &'static str)
        ensures
            key@ == self@.wire_key(),
    {
        match self {
            Value::Null { .. } => "nullValue",
            Value::String { .. } => "stringValue",
            Value::Boolean { .. } => "booleanValue",
            Value::Integer { .. } => "integerValue",
            Value::Double { .. } => "doubleValue",
            Value::Array { .. } => "arrayValue",
            Value::GeoPoint { .. } => "geoPointValue",
            Value::EntityValue { .. } => "entityValue",
            Value::KeyValue { .. } => "keyValue",
            Value::Blob { .. } => "blobValue",
            Value::Timestamp { .. } => "timestampValue",
        }
    }

    /// A copy of the whole tree.
    pub fn duplicate(&self) -> (copy: Value)
        ensures
            copy@ == self@,
        decreases self,
    {
        match self {
            Value::Null { .. } => Value::Null { null_value: () },
            Value::String { string_value } => Value::String { string_value: string_value.clone() },
            Value::Boolean { boolean_value } => Value::Boolean { boolean_value: *boolean_value },
            Value::Integer { integer_value } => Value::Integer {
                integer_value: integer_value.clone(),
            },
            Value::Double { double_value } => Value::Double { double_value: *double_value },
            Value::Array { array_value } => Value::Array { array_value: array_value.duplicate() },
            Value::GeoPoint { geo_point_value } => Value::GeoPoint {
                geo_point_value: *geo_point_value,
            },
            Value::EntityValue { entity_value } => Value::EntityValue {
                entity_value: entity_value.duplicate(),
            },
            Value::KeyValue { key_value } => Value::KeyValue { key_value: key_value.clone() },
            Value::Blob { blob_value } => Value::Blob { blob_value: blob_value.clone() },
            Value::Timestamp { timestamp_value } => Value::Timestamp {
                timestamp_value: *timestamp_value,
            },
        }
    }

    /// Whether two trees hold the same data: the same variant with the same
    /// content, arrays element by element, entities as maps.
    pub fn equals(&self, other: &Value) -> (equal: bool)
        ensures
            equal == (self@ == other@),
        decreases self,
    {
        match (self, other) {
            (Value::Null { .. }, Value::Null { .. }) => true,
            (Value::String { string_value: a }, Value::String { string_value: b }) => *a == *b,
            (Value::Boolean { boolean_value: a }, Value::Boolean { boolean_value: b }) => *a == *b,
            (Value::Integer { integer_value: a }, Value::Integer { integer_value: b }) => *a == *b,
            (Value::Double { double_value: a }, Value::Double { double_value: b }) => *a == *b,
            (Value::Array { array_value: a }, Value::Array { array_value: b }) => a.equals(b),
            (Value::GeoPoint { geo_point_value: a }, Value::GeoPoint { geo_point_value: b }) => *a
                == *b,
            (Value::EntityValue { entity_value: a }, Value::EntityValue { entity_value: b }) => {
                a.equals(b)
            },
            (Value::KeyValue { key_value: a }, Value::KeyValue { key_value: b }) => *a == *b,
            (Value::Blob { blob_value: a }, Value::Blob { blob_value: b }) => *a == *b,
            (Value::Timestamp { timestamp_value: a }, Value::Timestamp { timestamp_value: b }) => *a
                == *b,
            _ => false,
        }
    }
}

impl ArrayValue {
    /// A copy of the array, element by element.
    pub fn duplicate(&self) -> (copy: ArrayValue)
        ensures
            copy@ == self@,
        decreases self,
    {
        let mut values: Vec<Value> = Vec::new();
        let mut i: usize = 0;
        while i < self.values.len()
            invariant
                i <= self.values.len(),
                values.len() == i,
                forall|k: int| 0 <= k < i ==> values[k]@ == self.values[k]@,
            decreases self.values.len() - i,
        {
            values.push(self.values[i].duplicate());
            i = i + 1;
        }
        let copy = ArrayValue { values };
        assert(copy@ =~= self@);
        copy
    }

    /// Whether two arrays have the same length and equal values at every
    /// place.
    pub fn equals(&self, other: &ArrayValue) -> (equal: bool)
        ensures
            equal == (self@ == other@),
        decreases self,
    {
        if self.values.len() != other.values.len() {
            assert(self@.len() != other@.len());
            return false;
        }
        let mut i: usize = 0;
        while i < self.values.len()
            invariant
                i <= self.values.len(),
                self.values.len() == other.values.len(),
                forall|k: int| 0 <= k < i ==> self.values[k]@ == other.values[k]@,
            decreases self.values.len() - i,
        {
            if !self.values[i].equals(&other.values[i]) {
                assert(self@[i as int] == self.values[i as int]@);
                assert(other@[i as int] == other.values[i as int]@);
                return false;
            }
            i = i + 1;
        }
        assert(self@ =~= other@);
        true
    }
}

impl Entity {
    /// An entity without properties.
    pub fn new() -> (entity: Entity)
        ensures
            entity@ == Map::<Seq<char>, ValueModel>::empty(),
    {
        let entity = Entity { properties: Vec::new() };
        assert(entity@ =~= Map::<Seq<char>, ValueModel>::empty());
        entity
    }

    /// Where among the properties `name` stands, if it does.
    fn position(&self, name: &String) -> (found: Option<usize>)
        ensures
            match found {
                Some(at) => at < self.entries().len() && self.entries()[at as int].0 == name@,
                None => forall|i: int|
                    0 <= i < self.entries().len() ==> (#[trigger] self.entries()[i]).0 != name@,
            },
    {
        let mut i: usize = 0;
        while i < self.properties.len()
            invariant
                i <= self.properties.len(),
                self.entries().len() == self.properties.len(),
                forall|k: int| 0 <= k < i ==> (#[trigger] self.entries()[k]).0 != name@,
            decreases self.properties.len() - i,
        {
            if self.properties[i].0 == *name {
                return Some(i);
            }
            i = i + 1;
        }
        None
    }

    /// The value of the property `name`, if the entity has one.
    pub fn get(&self, name: &str) -> (found: Option<&Value>)
        ensures
            match found {
                Some(value) => self@.contains_key(name@) && value@ == self@[name@],
                None => !self@.contains_key(name@),
            },
    {
        proof {
            use_type_invariant(self);
        }
        let wanted = name.to_owned();
        match self.position(&wanted) {
            Some(at) => {
                proof {
                    lemma_entries_map_at(self.entries(), at as int);
                }
                Some(&self.properties[at].1)
            },
            None => None,
        }
    }

    /// The properties as the entity holds them. No name occurs twice among
    /// them.
    pub fn properties(&self) -> (held: &Vec<(String, Value)>)
        ensures
            entries_of(held@) == self.entries(),
            names_unique(self.entries()),
    {
        proof {
            use_type_invariant(self);
        }
        &self.properties
    }

    /// Sets the property `name` to `value`. An earlier value of that
    /// property is taken out and handed back.
    pub fn insert(&mut self, name: String, value: Value) -> (earlier: Option<Value>)
        ensures
            final(self)@ == old(self)@.insert(name@, value@),
            match earlier {
                Some(was) => old(self)@.contains_key(name@) && was@ == old(self)@[name@],
                None => !old(self)@.contains_key(name@),
            },
    {
        proof {
            use_type_invariant(&*self);
        }
        let found = self.position(&name);
        let ghost before = self.entries();
        let mut properties: Vec<(String, Value)> = Vec::new();
        assert(entries_of(properties@) =~= Seq::empty());
        std::mem::swap(&mut self.properties, &mut properties);
        assert(entries_of(properties@) =~= before);
        let earlier = match found {
            Some(at) => {
                proof {
                    lemma_entries_map_at(before, at as int);
                    lemma_entries_map_remove(before, at as int);
                }
                let taken = properties.remove(at);
                assert(entries_of(properties@) =~= before.remove(at as int));
                Some(taken.1)
            },
            None => None,
        };
        let ghost between = entries_of(properties@);
        proof {
            lemma_entries_map_push(between, name@, value@);
        }
        properties.push((name, value));
        assert(entries_of(properties@) =~= between.push((name@, value@)));
        std::mem::swap(&mut self.properties, &mut properties);
        assert(self.entries() =~= between.push((name@, value@)));
        assert(self@ =~= old(self)@.insert(name@, value@));
        earlier
    }

    /// A copy of the entity, property by property.
    pub fn duplicate(&self) -> (copy: Entity)
        ensures
            copy@ == self@,
            copy.entries() == self.entries(),
        decreases self,
    {
        proof {
            use_type_invariant(self);
        }
        let mut properties: Vec<(String, Value)> = Vec::new();
        let mut i: usize = 0;
        while i < self.properties.len()
            invariant
                i <= self.properties.len(),
                properties.len() == i,
                forall|k: int|
                    0 <= k < i ==> properties[k].0@ == self.properties[k].0@ && properties[k].1@
                        == self.properties[k].1@,
            decreases self.properties.len() - i,
        {
            properties.push((self.properties[i].0.clone(), self.properties[i].1.duplicate()));
            i = i + 1;
        }
        assert(entries_of(properties@) =~= self.entries());
        let copy = Entity { properties };
        assert(copy.entries() =~= self.entries());
        copy
    }

    /// Whether two entities have the same names and under each name equal
    /// values, whatever the order in which they hold them.
    pub fn equals(&self, other: &Entity) -> (equal: bool)
        ensures
            equal == (self@ == other@),
        decreases self,
    {
        proof {
            use_type_invariant(self);
            use_type_invariant(other);
        }
        let mut i: usize = 0;
        while i < self.properties.len()
            invariant
                i <= self.properties.len(),
                self.entries().len() == self.properties.len(),
                names_unique(self.entries()),
                names_unique(other.entries()),
                forall|k: int|
                    0 <= k < i ==> other@.contains_key((#[trigger] self.entries()[k]).0)
                        && other@[self.entries()[k].0] == self.entries()[k].1,
            decreases self.properties.len() - i,
        {
            proof {
                lemma_entries_map_at(self.entries(), i as int);
            }
            match other.position(&self.properties[i].0) {
                Some(at) => {
                    proof {
                        lemma_entries_map_at(other.entries(), at as int);
                    }
                    if !self.properties[i].1.equals(&other.properties[at].1) {
                        return false;
                    }
                },
                None => {
                    assert(!other@.contains_key(self.entries()[i as int].0)) by {
                        if other@.contains_key(self.entries()[i as int].0) {
                            let j = choose|j: int|
                                0 <= j < other.entries().len() && #[trigger] other.entries()[j].0
                                    == self.entries()[i as int].0;
                            assert(other.entries()[j].0 != self.entries()[i as int].0);
                        }
                    }
                    return false;
                },
            }
            i = i + 1;
        }
        let mut j: usize = 0;
        while j < other.properties.len()
            invariant
                j <= other.properties.len(),
                other.entries().len() == other.properties.len(),
                names_unique(self.entries()),
                names_unique(other.entries()),
                forall|k: int| 0 <= k < j ==> self@.contains_key((#[trigger] other.entries()[k]).0),
            decreases other.properties.len() - j,
        {
            proof {
                lemma_entries_map_at(other.entries(), j as int);
            }
            match self.position(&other.properties[j].0) {
                Some(at) => {
                    proof {
                        lemma_entries_map_at(self.entries(), at as int);
                    }
                },
                None => {
                    assert(!self@.contains_key(other.entries()[j as int].0)) by {
                        if self@.contains_key(other.entries()[j as int].0) {
                            let k = choose|k: int|
                                0 <= k < self.entries().len() && #[trigger] self.entries()[k].0
                                    == other.entries()[j as int].0;
                            assert(self.entries()[k].0 != other.entries()[j as int].0);
                        }
                    }
                    return false;
                },
            }
            j = j + 1;
        }
        assert(self@ =~= other@) by {
            assert forall|name: Seq<char>| self@.contains_key(name) implies other@.contains_key(
                name,
            ) && self@[name] == other@[name] by {
                let k = choose|k: int|
                    0 <= k < self.entries().len() && #[trigger] self.entries()[k].0 == name;
                lemma_entries_map_at(self.entries(), k);
            }
            assert forall|name: Seq<char>| other@.contains_key(name) implies self@.contains_key(
                name,
            ) by {
                let k = choose|k: int|
                    0 <= k < other.entries().len() && #[trigger] other.entries()[k].0 == name;
                assert(self@.contains_key(other.entries()[k].0));
            }
        }
        true
    }
}

impl Entity {
    /// The map that putting `entries` into an empty entity one after the
    /// other gives. Of two entries with one name the later one stays.
    pub open spec fn collected(entries: Seq<(Seq<char>, ValueModel)>) -> Map<
        Seq<char>,
        ValueModel,
    >
        decreases entries.len(),
    {
        if entries.len() == 0 {
            Map::empty()
        } else {
            Entity::collected(entries.drop_last()).insert(entries.last().0, entries.last().1)
        }
    }

    /// The entity that putting `properties` in one after the other gives.
    pub fn from_properties(properties: Vec<(String, Value)>) -> (entity: Entity)
        ensures
            entity@ == Entity::collected(entries_of(properties@)),
    {
        let ghost given = entries_of(properties@);
        let mut properties = properties;
        let mut reversed: Vec<(String, Value)> = Vec::new();
        while properties.len() > 0
            invariant
                properties.len() + reversed.len() == given.len(),
                forall|k: int| 0 <= k < properties.len() ==> entries_of(properties@)[k] == given[k],
                forall|k: int|
                    0 <= k < reversed.len() ==> entries_of(reversed@)[k] == given[given.len() - 1
                        - k],
            decreases properties.len(),
        {
            let ghost before = entries_of(reversed@);
            let ghost top = entries_of(properties@)[properties.len() - 1];
            let property = properties.pop().unwrap();
            assert(top == given[properties.len() as int]);
            reversed.push(property);
            assert(entries_of(reversed@) =~= before.push(top));
            assert forall|k: int| 0 <= k < reversed.len() implies entries_of(reversed@)[k]
                == given[given.len() - 1 - k] by {
                if k < before.len() {
                    assert(entries_of(reversed@)[k] == before[k]);
                }
            }
        }
        let mut entity = Entity::new();
        assert(given.subrange(0, 0) =~= Seq::empty());
        while reversed.len() > 0
            invariant
                reversed.len() <= given.len(),
                forall|k: int|
                    0 <= k < reversed.len() ==> entries_of(reversed@)[k] == given[given.len() - 1
                        - k],
                entity@ == Entity::collected(given.subrange(0, given.len() - reversed.len())),
            decreases reversed.len(),
        {
            let ghost done = given.len() - reversed.len();
            let ghost before = entries_of(reversed@);
            let ghost last = before[reversed.len() - 1];
            let (name, value) = reversed.pop().unwrap();
            assert(entries_of(reversed@) =~= before.drop_last());
            assert(last == given[done]);
            assert(given.subrange(0, done + 1).drop_last() =~= given.subrange(0, done));
            entity.insert(name, value);
        }
        assert(given.subrange(0, given.len() as int) =~= given);
        entity
    }

    /// The properties of the entity, each once.
    pub fn into_properties(self) -> (properties: Vec<(String, Value)>)
        ensures
            names_unique(entries_of(properties@)),
            entries_map(entries_of(properties@)) == self@,
    {
        proof {
            use_type_invariant(&self);
        }
        self.properties
    }
}

/// Entries without a repeated name, put into an empty entity one after
/// the other, give the map that pairs each name with its value.
pub proof fn lemma_collected(entries: Seq<(Seq<char>, ValueModel)>)
    requires
        names_unique(entries),
    ensures
        Entity::collected(entries) == entries_map(entries),
    decreases entries.len(),
{
    if entries.len() == 0 {
        assert(entries_map(entries) =~= Map::<Seq<char>, ValueModel>::empty());
    } else {
        let front = entries.drop_last();
        let last = entries.last();
        assert(names_unique(front)) by {
            assert forall|i: int, j: int| 0 <= i < j < front.len() implies #[trigger] front[i].0
                != #[trigger] front[j].0 by {
                assert(entries[i].0 != entries[j].0);
            }
        }
        assert forall|i: int| 0 <= i < front.len() implies (#[trigger] front[i]).0 != last.0 by {
            assert(entries[i].0 != entries[entries.len() - 1].0);
        }
        lemma_collected(front);
        lemma_entries_map_push(front, last.0, last.1);
        assert(front.push((last.0, last.1)) =~= entries);
    }
}

/// The order in which properties are put into an entity means nothing: two
/// runs of entries, each without a repeated name, in which the same entries
/// occur, give the same entity.
pub proof fn lemma_order_independence(
    one: Seq<(Seq<char>, ValueModel)>,
    other: Seq<(Seq<char>, ValueModel)>,
)
    requires
        names_unique(one),
        names_unique(other),
        forall|i: int| 0 <= i < one.len() ==> other.contains(#[trigger] one[i]),
        forall|j: int| 0 <= j < other.len() ==> one.contains(#[trigger] other[j]),
    ensures
        Entity::collected(one) == Entity::collected(other),
{
    lemma_collected(one);
    lemma_collected(other);
    assert forall|name: Seq<char>| #[trigger]
        entries_map(one).contains_key(name) implies entries_map(other).contains_key(name)
        && entries_map(one)[name] == entries_map(other)[name] by {
        let i = choose|i: int| 0 <= i < one.len() && #[trigger] one[i].0 == name;
        assert(other.contains(one[i]));
        let j = choose|j: int| 0 <= j < other.len() && other[j] == one[i];
        lemma_entries_map_at(one, i);
        lemma_entries_map_at(other, j);
    }
    assert forall|name: Seq<char>| #[trigger]
        entries_map(other).contains_key(name) implies entries_map(one).contains_key(name) by {
        let j = choose|j: int| 0 <= j < other.len() && #[trigger] other[j].0 == name;
        assert(one.contains(other[j]));
        let i = choose|i: int| 0 <= i < one.len() && one[i] == other[j];
        lemma_entries_map_at(one, i);
    }
    assert(entries_map(one) =~= entries_map(other));
}

impl Clone for Value {
    fn clone(&self) -> (copy: Value)
        ensures
            copy@ == self@,
    {
        self.duplicate()
    }
}

impl Clone for ArrayValue {
    fn clone(&self) -> (copy: ArrayValue)
        ensures
            copy@ == self@,
    {
        self.duplicate()
    }
}

impl Clone for Entity {
    fn clone(&self) -> (copy: Entity)
        ensures
            copy@ == self@,
    {
        self.duplicate()
    }
}

impl PartialEq for Value {
    fn eq(&self, other: &Value) -> (equal: bool) {
        self.equals(other)
    }
}

impl vstd::std_specs::cmp::PartialEqSpecImpl for Value {
    open spec fn obeys_eq_spec() -> bool {
        true
    }

    open spec fn eq_spec(&self, other: &Value) -> bool {
        self@ == other@
    }
}

impl PartialEq for ArrayValue {
    fn eq(&self, other: &ArrayValue) -> (equal: bool) {
        self.equals(other)
    }
}

impl vstd::std_specs::cmp::PartialEqSpecImpl for ArrayValue {
    open spec fn obeys_eq_spec() -> bool {
        true
    }

    open spec fn eq_spec(&self, other: &ArrayValue) -> bool {
        self@ == other@
    }
}

impl PartialEq for Entity {
    fn eq(&self, other: &Entity) -> (equal: bool) {
        self.equals(other)
    }
}

impl vstd::std_specs::cmp::PartialEqSpecImpl for Entity {
    open spec fn obeys_eq_spec() -> bool {
        true
    }

    open spec fn eq_spec(&self, other: &Entity) -> bool {
        self@ == other@
    }
}

impl View for Value {
    type V = ValueModel;

    open spec fn view(&self) -> ValueModel {
        self.model()
    }
}

impl View for ArrayValue {
    type V = Seq<ValueModel>;

    open spec fn view(&self) -> Seq<ValueModel> {
        self.model()
    }
}

impl View for Entity {
    type V = Map<Seq<char>, ValueModel>;

    open spec fn view(&self) -> Map<Seq<char>, ValueModel> {
        entries_map(self.entries())
    }
}

} // verus!
