//! JSON metadata as carried through the pipeline: `serde_json::Value` and
//! `serde_json::Map<String, Value>`, with the map's contents modelled as a
//! mathematical map from key text to value.

use vstd::prelude::*;

verus! {

#[verifier::external_type_specification]
#[verifier::external_body]
#[verifier::reject_recursive_types(K)]
#[verifier::reject_recursive_types(V)]
pub struct ExJsonMap<K, V>(serde_json::Map<K, V>);

#[verifier::external_type_specification]
#[verifier::external_body]
pub struct ExValue(serde_json::Value);

/// A JSON object with string keys.
pub type JsonObject = serde_json::Map<String, serde_json::Value>;

/// The mathematical content of a JSON object.
pub type JsonEntries = Map<Seq<char>, serde_json::Value>;

/// What a JSON object holds: each key's text mapped to its value.
pub uninterp spec fn json_entries(m: JsonObject) -> JsonEntries;

/// Relies on `serde_json::Map::new`: the new map holds no entry.
#[verifier::external_body]
pub(crate) fn empty_object() -> (r: JsonObject)
    ensures
        json_entries(r) == JsonEntries::empty(),
{
    serde_json::Map::new()
}

/// The text a JSON value holds when it is a JSON string.
pub uninterp spec fn json_str(v: serde_json::Value) -> Option<Seq<char>>;

/// The content of an optional object, an absent one counting as empty.
pub open spec fn entries_or_empty(m: Option<JsonObject>) -> JsonEntries {
    match m {
        Some(o) => json_entries(o),
        None => JsonEntries::empty(),
    }
}

/// Relies on `serde_json::Map::insert`: the key now maps to the value, and
/// every other entry is kept.
#[verifier::external_body]
pub(crate) fn object_insert(m: &mut JsonObject, key: String, value: serde_json::Value)
    ensures
        json_entries(*final(m)) == json_entries(*old(m)).insert(key@, value),
{
    m.insert(key, value);
}

/// Relies on `serde_json::Map::remove`: returns the key's value, if any, and
/// leaves the map without that key.
#[verifier::external_body]
pub(crate) fn object_remove(m: &mut JsonObject, key: &str) -> (r: Option<serde_json::Value>)
    ensures
        r == json_entries(*old(m)).get(key@),
        json_entries(*final(m)) == json_entries(*old(m)).remove(key@),
{
    m.remove(key)
}

/// Relies on `Clone` of `serde_json::Map`: the copy holds the same entries.
#[verifier::external_body]
pub(crate) fn object_clone(m: &JsonObject) -> (r: JsonObject)
    ensures
        json_entries(r) == json_entries(*m),
{
    m.clone()
}

/// Relies on `serde_json::Value::as_str`: the text of a JSON string, and
/// `None` for every other kind of value.
#[verifier::external_body]
pub(crate) fn value_text(v: &serde_json::Value) -> (r: Option<String>)
    ensures
        r matches Some(t) ==> json_str(*v) == Some(t@),
        r is None ==> json_str(*v) is None,
{
    v.as_str().map(String::from)
}

/// Relies on the variant `serde_json::Value::String`: `as_str` on the value
/// gives back the text.
#[verifier::external_body]
pub(crate) fn text_value(s: String) -> (r: serde_json::Value)
    ensures
        json_str(r) == Some(s@),
{
    serde_json::Value::String(s)
}

/// An object holding the entries of `m`, or an empty one.
pub fn object_or_empty(m: &Option<JsonObject>) -> (r: JsonObject)
    ensures
        json_entries(r) == entries_or_empty(*m),
{
    match m {
        Some(o) => object_clone(o),
        None => empty_object(),
    }
}

} // verus!
