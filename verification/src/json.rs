//! JSON values as this crate sees them.
//!
//! The values themselves are `serde_json`'s. Verus cannot look inside one, so
//! this module gives each value a mathematical reading, [`Json`], and states
//! every `serde_json` operation that the crate performs as a relation between
//! readings. Those statements are assumptions: the verifier takes them as
//! given, and each says in its documentation what it takes from `serde_json`.
//! Everything else in the crate is proved from them.

use serde_json::Value;
use vstd::prelude::*;

verus! {

/// What a JSON value holds, as far as this crate reads or writes it.
pub enum Json {
    /// A string, by its characters.
    Text(Seq<char>),
    /// An array, by its elements in order.
    List(Seq<Json>),
    /// An object, by its members.
    Object(Map<Seq<char>, Json>),
    /// `null`, a boolean or a number.
    Other,
}

impl Json {
    /// The member of an object under `key`; `None` where `self` is no object
    /// or has no such member.
    pub open spec fn member(self, key: Seq<char>) -> Option<Json> {
        match self {
            Json::Object(members) if members.contains_key(key) => Some(members[key]),
            _ => None,
        }
    }

    /// The characters of a string; `None` for every other value.
    pub open spec fn text(self) -> Option<Seq<char>> {
        match self {
            Json::Text(text) => Some(text),
            _ => None,
        }
    }

    /// The elements of an array; `None` for every other value.
    pub open spec fn items(self) -> Option<Seq<Json>> {
        match self {
            Json::List(items) => Some(items),
            _ => None,
        }
    }

    /// An array of strings.
    pub open spec fn texts(texts: Seq<Seq<char>>) -> Json {
        Json::List(texts.map_values(|text: Seq<char>| Json::Text(text)))
    }
}

/// `serde_json::Value`, opaque to the verifier.
#[verifier::external_type_specification]
#[verifier::external_body]
pub struct ExValue(serde_json::Value);

/// `serde_json::Map`, opaque to the verifier.
#[verifier::external_type_specification]
#[verifier::external_body]
#[verifier::reject_recursive_types(K)]
#[verifier::reject_recursive_types(V)]
pub struct ExMembers<K, V>(serde_json::Map<K, V>);

/// The members of a JSON object, as `serde_json` holds them.
pub type Members = serde_json::Map<String, Value>;

/// The reading of a `serde_json::Value`: `Value::String` reads as
/// [`Json::Text`], `Value::Array` as [`Json::List`] of its elements' readings,
/// `Value::Object` as [`Json::Object`] of its members' readings, and
/// `Value::Null`, `Value::Bool` and `Value::Number` as [`Json::Other`].
pub uninterp spec fn json_of(value: Value) -> Json;

/// The reading of a `serde_json::Map`: each key's characters, mapped to the
/// reading of the value stored under it.
pub uninterp spec fn members_of(members: Members) -> Map<Seq<char>, Json>;

/// The members of an object without members.
pub open spec fn no_members() -> Map<Seq<char>, Json> {
    Map::empty()
}

/// The readings of a sequence of values, in order.
pub open spec fn jsons_of(values: Seq<Value>) -> Seq<Json> {
    values.map_values(|value: Value| json_of(value))
}

/// `Value::get` with a string index: the member of an object under `key`.
/// Trusted: `serde_json` looks the key up in the map of a `Value::Object` and
/// returns `None` for every other variant.
#[verifier::external_body]
pub(crate) fn get_member<'a>(value: &'a Value, key: &str) -> (found: Option<&'a Value>)
    ensures
        match found {
            Some(m) => json_of(*value).member(key@) == Some(json_of(*m)),
            None => json_of(*value).member(key@) is None,
        },
{
    value.get(key)
}

/// `Value::as_str`. Trusted: `serde_json` returns the string of a
/// `Value::String` and `None` for every other variant.
pub assume_specification<'a>[ Value::as_str ](value: &'a Value) -> (text: Option<&'a str>)
    ensures
        match text {
            Some(t) => json_of(*value) == Json::Text(t@),
            None => json_of(*value).text() is None,
        },
;

/// `Value::as_array`. Trusted: `serde_json` returns the vector of a
/// `Value::Array` and `None` for every other variant.
pub assume_specification<'a>[ Value::as_array ](value: &'a Value) -> (items: Option<&'a Vec<Value>>)
    ensures
        match items {
            Some(v) => json_of(*value) == Json::List(jsons_of(v@)),
            None => json_of(*value).items() is None,
        },
;

/// `Value::from` a string slice. Trusted: `serde_json` copies the slice into
/// a `Value::String`.
#[verifier::external_body]
pub(crate) fn text_value(text: &str) -> (value: Value)
    ensures
        json_of(value) == Json::Text(text@),
{
    Value::from(text)
}

/// `Value::Array`. Trusted: the variant holds the vector as given.
#[verifier::external_body]
pub(crate) fn list_value(items: Vec<Value>) -> (value: Value)
    ensures
        json_of(value) == Json::List(jsons_of(items@)),
{
    Value::Array(items)
}

/// `Value::Object`. Trusted: the variant holds the map as given.
#[verifier::external_body]
pub(crate) fn object_value(members: Members) -> (value: Value)
    ensures
        json_of(value) == Json::Object(members_of(members)),
{
    Value::Object(members)
}

/// `Map::new`. Trusted: `serde_json` makes a map without entries.
#[verifier::external_body]
pub(crate) fn new_members() -> (members: Members)
    ensures
        members_of(members) == no_members(),
{
    serde_json::Map::new()
}

/// `Map::insert`. Trusted: `serde_json` stores the value under the key,
/// replacing what was there, and returns what it replaced.
#[verifier::external_body]
pub(crate) fn put_member(
    members: &mut Members,
    key: String,
    value: Value,
) -> (replaced: Option<Value>)
    ensures
        members_of(*final(members)) == members_of(*old(members)).insert(key@, json_of(value)),
        match replaced {
            Some(before) => Json::Object(members_of(*old(members))).member(key@) == Some(
                json_of(before),
            ),
            None => Json::Object(members_of(*old(members))).member(key@) is None,
        },
{
    members.insert(key, value)
}

/// An array of the strings given, in their order.
pub(crate) fn text_list(texts: &Vec<String>) -> (list: Value)
    ensures
        json_of(list) == Json::texts(texts.deep_view()),
{
    let mut items: Vec<Value> = Vec::new();
    let mut i: usize = 0;
    while i < texts.len()
        invariant
            i <= texts.len(),
            items.len() == i,
            forall|k: int| 0 <= k < i ==> json_of(#[trigger] items[k]) == Json::Text(texts[k]@),
        decreases texts.len() - i,
    {
        items.push(text_value(texts[i].as_str()));
        i += 1;
    }
    assert(jsons_of(items@) =~= texts.deep_view().map_values(|text: Seq<char>| Json::Text(text)));
    list_value(items)
}

/// Stores a string under `key`.
pub(crate) fn put_text(members: &mut Members, key: &str, text: &str)
    ensures
        members_of(*final(members)) == members_of(*old(members)).insert(key@, Json::Text(text@)),
{
    put_member(members, key.to_owned(), text_value(text));
}

} // verus!
