//! JSON values and objects, carried opaquely, with a view of object entries.
use vstd::prelude::*;

verus! {

#[verifier::external_type_specification]
#[verifier::external_body]
pub struct ExValue(serde_json::Value);

#[verifier::external_type_specification]
#[verifier::external_body]
#[verifier::reject_recursive_types(K)]
#[verifier::reject_recursive_types(V)]
pub struct ExMap<K, V>(serde_json::Map<K, V>);

/// A JSON object.
pub type JsonObject = serde_json::Map<String, serde_json::Value>;

/// The entries of a JSON object, by key.
pub uninterp spec fn json_entries(m: serde_json::Map<String, serde_json::Value>) -> Map<
    Seq<char>,
    serde_json::Value,
>;

/// The entries of a JSON value that is an object; `None` for other values.
pub uninterp spec fn object_entries(v: serde_json::Value) -> Option<
    Map<Seq<char>, serde_json::Value>,
>;

/// Relies on `serde_json::Map::new`: an empty object.
#[verifier::external_body]
pub(crate) fn object_new() -> (r: JsonObject)
    ensures
        json_entries(r).dom().is_empty(),
{
    serde_json::Map::new()
}

/// Relies on `serde_json::Map::insert`: the key now maps to the value, the
/// other entries stay.
#[verifier::external_body]
pub(crate) fn object_insert(m: &mut JsonObject, k: String, v: serde_json::Value)
    ensures
        json_entries(*final(m)) == json_entries(*old(m)).insert(k@, v),
{
    m.insert(k, v);
}

/// Relies on `serde_json::Map::get` and `Value`'s derived `Clone`: a copy of
/// the value under the key, if there is one.
#[verifier::external_body]
pub(crate) fn object_get(m: &JsonObject, k: &str) -> (r: Option<serde_json::Value>)
    ensures
        json_entries(*m).contains_key(k@) ==> r == Some(json_entries(*m)[k@]),
        !json_entries(*m).contains_key(k@) ==> r is None,
{
    m.get(k).cloned()
}

/// Relies on `serde_json::Value::Object`: the value that is the object.
#[verifier::external_body]
pub(crate) fn object_value(m: JsonObject) -> (r: serde_json::Value)
    ensures
        object_entries(r) == Some(json_entries(m)),
{
    serde_json::Value::Object(m)
}

} // verus!
