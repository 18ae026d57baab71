//! A JSON document model for the markup that the Telegram API takes.

use vstd::prelude::*;

verus! {

/// A JSON value. Objects keep their members in order.
#[derive(Debug)]
pub enum Json {
    Null,
    Bool(bool),
    Int(i64),
    Str(String),
    Array(Vec<Json>),
    Object(Vec<(String, Json)>),
}

/// The mathematical value of a [`Json`]: strings as character sequences.
pub ghost enum JsonValue {
    Null,
    Bool(bool),
    Int(int),
    Str(Seq<char>),
    Array(Seq<JsonValue>),
    Object(Seq<(Seq<char>, JsonValue)>),
}

impl Json {
    /// The value this document denotes.
    pub open spec fn value(self) -> JsonValue
        decreases self,
    {
        match self {
            Json::Null => JsonValue::Null,
            Json::Bool(b) => JsonValue::Bool(b),
            Json::Int(i) => JsonValue::Int(i as int),
            Json::Str(s) => JsonValue::Str(s@),
            Json::Array(v) => JsonValue::Array(
                Seq::new(v@.len(), |i: int| if 0 <= i < v@.len() {
                    proof {
                        assert(decreases_to!(v => v@));
                        assert(decreases_to!(v@ => v@[i]));
                    }
                    v@[i].value()
                } else {
                    JsonValue::Null
                }),
            ),
            Json::Object(v) => JsonValue::Object(
                Seq::new(v@.len(), |i: int| if 0 <= i < v@.len() {
                    proof {
                        assert(decreases_to!(v => v@));
                        assert(decreases_to!(v@ => v@[i]));
                        assert(decreases_to!(v@[i] => v@[i].1));
                    }
                    (v@[i].0@, v@[i].1.value())
                } else {
                    (Seq::empty(), JsonValue::Null)
                }),
            ),
        }
    }
}


/// The values of a sequence of documents.
pub open spec fn values_of(s: Seq<Json>) -> Seq<JsonValue> {
    s.map_values(|j: Json| j.value())
}

/// The values of a sequence of object members.
pub open spec fn members_of(s: Seq<(String, Json)>) -> Seq<(Seq<char>, JsonValue)> {
    s.map_values(|m: (String, Json)| (m.0@, m.1.value()))
}

/// A JSON string holding the characters of `s`.
pub fn json_str(s: &str) -> (j: Json)
    ensures
        j.value() == JsonValue::Str(s@),
{
    Json::Str(String::from_str(s))
}

/// A JSON string that takes `s`.
pub fn json_string(s: String) -> (j: Json)
    ensures
        j.value() == JsonValue::Str(s@),
{
    Json::Str(s)
}

/// A JSON array of `items`, in order.
pub fn json_array(items: Vec<Json>) -> (j: Json)
    ensures
        j.value() == JsonValue::Array(values_of(items@)),
{
    let j = Json::Array(items);
    assert(j.value()->Array_0 =~= values_of(items@));
    j
}

/// A JSON object with `members`, in order.
pub fn json_object(members: Vec<(String, Json)>) -> (j: Json)
    ensures
        j.value() == JsonValue::Object(members_of(members@)),
{
    let j = Json::Object(members);
    assert(j.value()->Object_0 =~= members_of(members@));
    j
}

/// An object member named `key`.
pub fn member(key: &str, value: Json) -> (m: (String, Json))
    ensures
        m.0@ == key@,
        m.1 == value,
{
    (String::from_str(key), value)
}


/// A JSON boolean.
pub fn json_bool(b: bool) -> (j: Json)
    ensures
        j.value() == JsonValue::Bool(b),
{
    Json::Bool(b)
}

/// A JSON integer.
pub fn json_int(i: i64) -> (j: Json)
    ensures
        j.value() == JsonValue::Int(i as int),
{
    Json::Int(i)
}


/// The value of the first member named `key` in `members`.
pub open spec fn first_member(members: Seq<(Seq<char>, JsonValue)>, key: Seq<char>) -> Option<JsonValue>
    decreases members.len(),
{
    if members.len() == 0 {
        None
    } else if members[0].0 == key {
        Some(members[0].1)
    } else {
        first_member(members.drop_first(), key)
    }
}

/// The value of member `key` of an object; `None` for a missing member or a non-object.
pub open spec fn lookup(v: JsonValue, key: Seq<char>) -> Option<JsonValue> {
    match v {
        JsonValue::Object(members) => first_member(members, key),
        _ => None,
    }
}

/// The value of element `i` of an array; `None` out of bounds or for a non-array.
pub open spec fn element(v: JsonValue, i: int) -> Option<JsonValue> {
    match v {
        JsonValue::Array(items) => if 0 <= i < items.len() {
            Some(items[i])
        } else {
            None
        },
        _ => None,
    }
}

/// The value of an optional document.
pub open spec fn opt_value(j: Option<&Json>) -> Option<JsonValue> {
    match j {
        Some(x) => Some(x.value()),
        None => None,
    }
}

/// The value of an optional owned document.
pub open spec fn opt_json(j: Option<Json>) -> Option<JsonValue> {
    match j {
        Some(x) => Some(x.value()),
        None => None,
    }
}

impl Json {
    /// The member `key` of an object (the first one, should there be several).
    pub fn get(&self, key: &str) -> (r: Option<&Json>)
        ensures
            opt_value(r) == lookup(self.value(), key@),
    {
        match self {
            Json::Object(members) => {
                let ghost ms = members_of(members@);
                assert(self.value()->Object_0 =~= ms);
                assert(ms.skip(0) =~= ms);
                let mut i: usize = 0;
                while i < members.len()
                    invariant
                        i <= members.len(),
                        ms == members_of(members@),
                        self.value() == JsonValue::Object(ms),
                        first_member(ms, key@) == first_member(ms.skip(i as int), key@),
                    decreases members.len() - i,
                {
                    assert(ms.skip(i as int)[0] == ms[i as int]);
                    if crate::text::str_eq(members[i].0.as_str(), key) {
                        return Some(&members[i].1);
                    }
                    assert(ms.skip(i as int).drop_first() =~= ms.skip(i + 1));
                    i = i + 1;
                }
                None
            },
            _ => None,
        }
    }

    /// Element `i` of an array.
    pub fn at(&self, i: usize) -> (r: Option<&Json>)
        ensures
            opt_value(r) == element(self.value(), i as int),
    {
        match self {
            Json::Array(items) => if i < items.len() {
                Some(&items[i])
            } else {
                None
            },
            _ => None,
        }
    }

    /// The number of elements of an array.
    pub fn array_len(&self) -> (r: Option<usize>)
        ensures
            match self.value() {
                JsonValue::Array(items) => r == Some(items.len() as usize),
                _ => r is None,
            },
    {
        match self {
            Json::Array(items) => Some(items.len()),
            _ => None,
        }
    }

    /// The characters of a string.
    pub fn as_str(&self) -> (r: Option<&str>)
        ensures
            match self.value() {
                JsonValue::Str(s) => r matches Some(x) && x@ == s,
                _ => r is None,
            },
    {
        match self {
            Json::Str(s) => Some(s.as_str()),
            _ => None,
        }
    }

    /// A boolean's value.
    pub fn as_bool(&self) -> (r: Option<bool>)
        ensures
            match self.value() {
                JsonValue::Bool(b) => r == Some(b),
                _ => r is None,
            },
    {
        match self {
            Json::Bool(b) => Some(*b),
            _ => None,
        }
    }

    /// An integer's value.
    pub fn as_i64(&self) -> (r: Option<i64>)
        ensures
            match self.value() {
                JsonValue::Int(i) => r matches Some(x) && x == i,
                _ => r is None,
            },
    {
        match self {
            Json::Int(i) => Some(*i),
            _ => None,
        }
    }
}

} // verus!
