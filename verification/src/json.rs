//! JSON documents, held and written by `serde_json`.
//!
//! A `serde_json::Value` is opaque to the verifier. What the library needs
//! to say about one it says about its mathematical value, a [`Json`] tree.
//! The functions of this module are the only places where `serde_json` is
//! called; what they promise is taken from its source and not proved.

use vstd::prelude::*;

verus! {

#[verifier::external_type_specification]
#[verifier::external_body]
pub struct ExValue(serde_json::Value);

#[verifier::external_type_specification]
#[verifier::external_body]
pub struct ExError(serde_json::Error);

/// A JSON value as a mathematical tree. A number stands as the numeral that
/// is written for it; an object has no order among its members.
pub enum Json {
    Null,
    Bool(bool),
    Number(Seq<char>),
    String(Seq<char>),
    Array(Seq<Json>),
    Object(Map<Seq<char>, Json>),
}

/// The tree that a `serde_json::Value` holds.
pub uninterp spec fn json_view(value: serde_json::Value) -> Json;

/// What `serde_json::to_string_pretty` returns for a value with a given
/// tree.
pub uninterp spec fn json_pretty(document: Json) -> Result<Seq<char>, serde_json::Error>;

/// The text that a `serde_json::Error` displays.
pub uninterp spec fn json_error_text(e: serde_json::Error) -> Seq<char>;

/// The trees of a sequence of values, in order.
pub open spec fn rows_view(rows: Seq<serde_json::Value>) -> Seq<Json> {
    Seq::new(rows.len(), |i: int| json_view(rows[i]))
}

/// Whether no key occurs twice in a list of members.
pub open spec fn distinct_keys(entries: Seq<(String, serde_json::Value)>) -> bool {
    forall|i: int, j: int| 0 <= i < j < entries.len() ==> entries[i].0@ != entries[j].0@
}

/// The members of an object that is made from a list of keys and values.
pub open spec fn members(entries: Seq<(String, serde_json::Value)>) -> Map<Seq<char>, Json>
    decreases entries.len(),
{
    if entries.len() == 0 {
        Map::empty()
    } else {
        members(entries.drop_last()).insert(entries.last().0@, json_view(entries.last().1))
    }
}

/// A serialisation result with the text as a sequence of characters.
pub open spec fn rendered_view(rendered: Result<String, serde_json::Error>) -> Result<
    Seq<char>,
    serde_json::Error,
> {
    match rendered {
        Ok(text) => Ok(text@),
        Err(e) => Err(e),
    }
}

/// Calls `serde_json::Value::from(&str)`. Trusted: the result is the JSON
/// string with the same text.
#[verifier::external_body]
pub(crate) fn string_value(text: &str) -> (value: serde_json::Value)
    ensures
        json_view(value) == Json::String(text@),
{
    serde_json::Value::from(text)
}

/// Calls `serde_json::Value::from(bool)`. Trusted: the result is the JSON
/// boolean.
#[verifier::external_body]
pub(crate) fn bool_value(b: bool) -> (value: serde_json::Value)
    ensures
        json_view(value) == Json::Bool(b),
{
    serde_json::Value::from(b)
}

/// Calls `serde_json::Value::from(Vec<Value>)`. Trusted: the result is the
/// JSON array of the items, in their order.
#[verifier::external_body]
pub(crate) fn array_value(items: Vec<serde_json::Value>) -> (value: serde_json::Value)
    ensures
        json_view(value) == Json::Array(rows_view(items@)),
{
    serde_json::Value::from(items)
}

/// Calls `serde_json::Value::from_iter` on keys and values. Trusted: the
/// result is the JSON object with each key's value as its member. A key
/// that occurs twice is left out: which of its values the object then keeps
/// is not documented.
#[verifier::external_body]
pub(crate) fn object_value(entries: Vec<(String, serde_json::Value)>) -> (value: serde_json::Value)
    requires
        distinct_keys(entries@),
    ensures
        json_view(value) == Json::Object(members(entries@)),
{
    serde_json::Value::from_iter(entries)
}

/// Calls `serde_json::to_string_pretty`. Trusted: the text or the error is a
/// function of the value's tree alone, named [`json_pretty`]; nothing is
/// promised about which of the two comes back.
#[verifier::external_body]
pub(crate) fn pretty_text(value: &serde_json::Value) -> (rendered: Result<
    String,
    serde_json::Error,
>)
    ensures
        rendered_view(rendered) == json_pretty(json_view(*value)),
{
    serde_json::to_string_pretty(value)
}

/// Calls `to_string` on a `serde_json::Error`. Trusted: the text is a
/// function of the error alone, named [`json_error_text`].
#[verifier::external_body]
pub(crate) fn error_text(e: &serde_json::Error) -> (text: String)
    ensures
        text@ == json_error_text(*e),
{
    e.to_string()
}

/// An object of one member.
pub open spec fn object1(key: Seq<char>, value: Json) -> Json {
    Json::Object(Map::empty().insert(key, value))
}

/// An object of two members.
pub open spec fn object2(key1: Seq<char>, value1: Json, key2: Seq<char>, value2: Json) -> Json {
    Json::Object(Map::empty().insert(key1, value1).insert(key2, value2))
}

/// An object of three members.
pub open spec fn object3(
    key1: Seq<char>,
    value1: Json,
    key2: Seq<char>,
    value2: Json,
    key3: Seq<char>,
    value3: Json,
) -> Json {
    Json::Object(Map::empty().insert(key1, value1).insert(key2, value2).insert(key3, value3))
}

impl Json {
    /// The keys of an object's members.
    pub open spec fn keys(self) -> Set<Seq<char>> {
        match self {
            Json::Object(members) => members.dom(),
            _ => Set::empty(),
        }
    }

    /// The member of an object under a key.
    pub open spec fn member(self, key: Seq<char>) -> Json {
        match self {
            Json::Object(members) => members[key],
            _ => Json::Null,
        }
    }

    /// The items of an array.
    pub open spec fn items(self) -> Seq<Json> {
        match self {
            Json::Array(items) => items,
            _ => Seq::empty(),
        }
    }
}

/// Makes the object of one member.
pub(crate) fn object_of1(key: &str, value: serde_json::Value) -> (object: serde_json::Value)
    ensures
        json_view(object) == object1(key@, json_view(value)),
{
    let mut entries: Vec<(String, serde_json::Value)> = Vec::new();
    entries.push((String::from_str(key), value));
    proof {
        reveal_with_fuel(members, 2);
        assert(entries@.drop_last().len() == 0);
    }
    object_value(entries)
}

/// Makes the object of two members with different keys.
pub(crate) fn object_of2(
    key1: &str,
    value1: serde_json::Value,
    key2: &str,
    value2: serde_json::Value,
) -> (object: serde_json::Value)
    requires
        key1@ != key2@,
    ensures
        json_view(object) == object2(key1@, json_view(value1), key2@, json_view(value2)),
{
    let mut entries: Vec<(String, serde_json::Value)> = Vec::new();
    entries.push((String::from_str(key1), value1));
    entries.push((String::from_str(key2), value2));
    proof {
        reveal_with_fuel(members, 3);
        assert(entries@.drop_last().drop_last().len() == 0);
    }
    object_value(entries)
}

/// Makes the object of three members with different keys.
pub(crate) fn object_of3(
    key1: &str,
    value1: serde_json::Value,
    key2: &str,
    value2: serde_json::Value,
    key3: &str,
    value3: serde_json::Value,
) -> (object: serde_json::Value)
    requires
        key1@ != key2@,
        key1@ != key3@,
        key2@ != key3@,
    ensures
        json_view(object) == object3(
            key1@,
            json_view(value1),
            key2@,
            json_view(value2),
            key3@,
            json_view(value3),
        ),
{
    let mut entries: Vec<(String, serde_json::Value)> = Vec::new();
    entries.push((String::from_str(key1), value1));
    entries.push((String::from_str(key2), value2));
    entries.push((String::from_str(key3), value3));
    proof {
        reveal_with_fuel(members, 4);
        assert(entries@.drop_last().drop_last().drop_last().len() == 0);
    }
    object_value(entries)
}

} // verus!
