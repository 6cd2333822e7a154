//! JSON values: what the template is given to read.
//!
//! The values are those of `serde_json`. [`Json`] says what such a value
//! is, and the functions here build values whose meaning is known.

use vstd::prelude::*;

verus! {

/// A JSON value, as `serde_json` holds it.
#[verifier::external_type_specification]
#[verifier::external_body]
pub struct ExJsonValue(serde_json::Value);

/// The fields of a JSON object, as `serde_json` holds them.
#[verifier::external_type_specification]
#[verifier::external_body]
#[verifier::reject_recursive_types(K)]
#[verifier::reject_recursive_types(V)]
pub struct ExJsonFields<K, V>(serde_json::Map<K, V>);

/// What a JSON value is.
pub enum Json {
    Null,
    Flag(bool),
    Number(int),
    Text(Seq<char>),
    Array(Seq<Json>),
    Object(Map<Seq<char>, Json>),
}

/// What a JSON value of `serde_json` is.
pub uninterp spec fn json_of(value: serde_json::Value) -> Json;

/// What the fields of a JSON object of `serde_json` are, by their keys.
pub uninterp spec fn fields_of(fields: serde_json::Map<String, serde_json::Value>) -> Map<
    Seq<char>,
    Json,
>;

/// What each of a sequence of JSON values is.
pub open spec fn items_of(values: Seq<serde_json::Value>) -> Seq<Json> {
    Seq::new(values.len(), |i: int| json_of(values[i]))
}

/// The JSON string with the given text. Makes a `serde_json::Value::String`.
#[verifier::external_body]
pub(crate) fn json_text(text: &str) -> (value: serde_json::Value)
    ensures
        json_of(value) == Json::Text(text@),
{
    serde_json::Value::String(text.to_string())
}

/// The JSON number `n`. Calls `serde_json::Value::from`, which makes a
/// number of an unsigned integer.
#[verifier::external_body]
pub(crate) fn json_number(n: u64) -> (value: serde_json::Value)
    ensures
        json_of(value) == Json::Number(n as int),
{
    serde_json::Value::from(n)
}

/// The JSON value `true` or `false`. Makes a `serde_json::Value::Bool`.
#[verifier::external_body]
pub(crate) fn json_flag(flag: bool) -> (value: serde_json::Value)
    ensures
        json_of(value) == Json::Flag(flag),
{
    serde_json::Value::Bool(flag)
}

/// The JSON array of the given items, in their order. Makes a
/// `serde_json::Value::Array`.
#[verifier::external_body]
pub(crate) fn json_array(items: Vec<serde_json::Value>) -> (value: serde_json::Value)
    ensures
        json_of(value) == Json::Array(items_of(items@)),
{
    serde_json::Value::Array(items)
}

/// No fields. Calls `serde_json::Map::new`.
#[verifier::external_body]
pub(crate) fn json_fields() -> (fields: serde_json::Map<String, serde_json::Value>)
    ensures
        fields_of(fields) == (Map::<Seq<char>, Json>::empty()),
{
    serde_json::Map::new()
}

/// Sets the field `key` to `value`. Calls `serde_json::Map::insert`, which
/// adds the field or, where the key is there already, replaces its value.
#[verifier::external_body]
pub(crate) fn json_set(
    fields: &mut serde_json::Map<String, serde_json::Value>,
    key: &str,
    value: serde_json::Value,
)
    ensures
        fields_of(*final(fields)) == fields_of(*old(fields)).insert(key@, json_of(value)),
{
    fields.insert(key.to_string(), value);
}

/// The JSON object with the given fields. Makes a
/// `serde_json::Value::Object`.
#[verifier::external_body]
pub(crate) fn json_object(fields: serde_json::Map<String, serde_json::Value>) -> (value:
    serde_json::Value)
    ensures
        json_of(value) == Json::Object(fields_of(fields)),
{
    serde_json::Value::Object(fields)
}

} // verus!
