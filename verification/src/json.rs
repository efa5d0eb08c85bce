//! A mathematical model of JSON values, and the trusted interface to `serde_json::Value`.
//!
//! Verified code never looks inside a `serde_json::Value`. It learns what a value holds
//! from the functions of this module, whose contracts speak of [`json_view`].

use serde_json::Value;
use vstd::prelude::*;

verus! {

/// The JSON data model.
pub enum Json {
    Null,
    Bool(bool),
    /// A number, by the text that it is written with.
    Number(Seq<char>),
    Text(Seq<char>),
    List(Seq<Json>),
    /// An object, by its members. A member name occurs once.
    Object(Map<Seq<char>, Json>),
}

/// `serde_json::Value`, carried through as it is.
#[verifier::external_type_specification]
#[verifier::external_body]
pub struct ExValue(serde_json::Value);

/// The JSON value that a `serde_json::Value` holds.
pub uninterp spec fn json_view(value: Value) -> Json;

/// The views of a list of values, in the same order.
pub open spec fn list_views(items: Seq<Value>) -> Seq<Json> {
    items.map_values(|item: Value| json_view(item))
}

/// The views of a list of named values, in the same order.
pub open spec fn pair_views(pairs: Seq<(String, Value)>) -> Seq<(Seq<char>, Json)> {
    pairs.map_values(|pair: (String, Value)| (pair.0@, json_view(pair.1)))
}

/// Whether no name occurs twice in a list of named values.
pub open spec fn distinct_names(pairs: Seq<(Seq<char>, Json)>) -> bool {
    forall|i: int, j: int| 0 <= i < j < pairs.len() ==> pairs[i].0 != pairs[j].0
}

/// The members that a list of named values makes up.
pub open spec fn members_of(pairs: Seq<(Seq<char>, Json)>) -> Map<Seq<char>, Json>
    decreases pairs.len(),
{
    if pairs.len() == 0 {
        Map::empty()
    } else {
        members_of(pairs.drop_last()).insert(pairs.last().0, pairs.last().1)
    }
}

/// `serde_json::Value::get` with a string index: the member of that name where the value is
/// an object that has one, and `None` for an object without it and for every other value.
#[verifier::external_body]
pub(crate) fn value_get<'a>(value: &'a Value, name: &str) -> (member: Option<&'a Value>)
    ensures
        match json_view(*value) {
            Json::Object(members) => if members.contains_key(name@) {
                member matches Some(found) && json_view(*found) == members[name@]
            } else {
                member is None
            },
            _ => member is None,
        },
{
    value.get(name)
}

/// `serde_json::Value::as_str`: the text of a JSON string, and `None` for every other value.
#[verifier::external_body]
pub(crate) fn value_as_str<'a>(value: &'a Value) -> (text: Option<&'a str>)
    ensures
        match json_view(*value) {
            Json::Text(chars) => text matches Some(found) && found@ == chars,
            _ => text is None,
        },
{
    value.as_str()
}

/// `serde_json::Value::as_array`: the items of a JSON array, and `None` for every other
/// value.
#[verifier::external_body]
pub(crate) fn value_as_array<'a>(value: &'a Value) -> (items: Option<&'a Vec<Value>>)
    ensures
        match json_view(*value) {
            Json::List(views) => items matches Some(found) && list_views(found@) == views,
            _ => items is None,
        },
{
    value.as_array()
}

/// `From<String> for serde_json::Value`: the JSON string of that text.
#[verifier::external_body]
pub(crate) fn value_from_string(text: String) -> (value: Value)
    ensures
        json_view(value) == Json::Text(text@),
{
    Value::from(text)
}

/// `FromIterator<(String, Value)> for serde_json::Value`: the JSON object whose members are
/// the given pairs. Which of two pairs of one name would stay is not claimed: the names
/// must differ.
#[verifier::external_body]
pub(crate) fn value_from_pairs(pairs: Vec<(String, Value)>) -> (value: Value)
    requires
        distinct_names(pair_views(pairs@)),
    ensures
        json_view(value) == Json::Object(members_of(pair_views(pairs@))),
{
    Value::from_iter(pairs)
}

} // verus!
