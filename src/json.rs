//! JSON values and objects from serde_json, as the rest of the library sees them.
//!
//! A `serde_json::Value` is opaque here: the library carries values through
//! without looking inside, except to ask whether one is an object. A
//! `serde_json::Map` is modelled by its entries, keyed by the key's characters.
use vstd::prelude::*;

verus! {

#[verifier::external_type_specification]
#[verifier::external_body]
pub struct ExJsonValue(serde_json::Value);

#[verifier::external_type_specification]
#[verifier::external_body]
#[verifier::reject_recursive_types(K)]
#[verifier::reject_recursive_types(V)]
pub struct ExJsonMap<K, V>(serde_json::Map<K, V>);

/// A JSON object: string keys, JSON values.
pub type JsonObject = serde_json::Map<String, serde_json::Value>;

/// The entries that a JSON object holds.
pub uninterp spec fn entries(m: serde_json::Map<String, serde_json::Value>) -> Map<
    Seq<char>,
    serde_json::Value,
>;

/// The JSON string value that holds the given characters.
pub uninterp spec fn json_string(s: Seq<char>) -> serde_json::Value;

/// The JSON number value that holds the given integer.
pub uninterp spec fn json_integer(n: int) -> serde_json::Value;

/// The object that a JSON value is, or `None` where it is no object.
pub uninterp spec fn object_of(v: serde_json::Value) -> Option<
    serde_json::Map<String, serde_json::Value>,
>;

/// Relies on serde_json::Map::new: the new object is empty.
#[verifier::external_body]
pub(crate) fn new_object() -> (r: JsonObject)
    ensures
        entries(r).dom() == Set::<Seq<char>>::empty(),
{
    serde_json::Map::new()
}

/// Relies on serde_json::Map::insert: the key now maps to the value, and every
/// other entry stays.
#[verifier::external_body]
pub(crate) fn object_insert(m: &mut JsonObject, k: String, v: serde_json::Value)
    ensures
        entries(*final(m)) == entries(*old(m)).insert(k@, v),
{
    m.insert(k, v);
}

/// Relies on serde_json::Map::clear: no entry is left.
#[verifier::external_body]
pub(crate) fn object_clear(m: &mut JsonObject)
    ensures
        entries(*final(m)).dom() == Set::<Seq<char>>::empty(),
{
    m.clear();
}

/// Relies on serde_json::Map::iter: it yields every entry of the object, and a
/// value's derived `Clone` gives an equal value.
#[verifier::external_body]
pub(crate) fn object_pairs(m: &JsonObject) -> (r: Vec<(String, serde_json::Value)>)
    ensures
        forall|i: int|
            0 <= i < r.len() ==> #[trigger] entries(*m).contains_key(r[i].0@) && entries(
                *m,
            )[r[i].0@] == r[i].1,
        forall|k: Seq<char>|
            #[trigger] entries(*m).contains_key(k) ==> exists|i: int|
                0 <= i < r.len() && r[i].0@ == k,
{
    m.iter().map(|(k, v)| (k.clone(), v.clone())).collect()
}

/// Relies on `From<String> for serde_json::Value`: it makes a string value.
#[verifier::external_body]
pub(crate) fn string_value(s: String) -> (r: serde_json::Value)
    ensures
        r == json_string(s@),
{
    serde_json::Value::from(s)
}

/// Relies on `From<i64> for serde_json::Value`: it makes a number value.
#[verifier::external_body]
pub(crate) fn integer_value(n: i64) -> (r: serde_json::Value)
    ensures
        r == json_integer(n as int),
{
    serde_json::Value::from(n)
}

/// Relies on the `Object` variant of serde_json::Value: the object that a value
/// holds, if it is one.
#[verifier::external_body]
pub(crate) fn into_object(v: serde_json::Value) -> (r: Option<JsonObject>)
    ensures
        r == object_of(v),
{
    match v {
        serde_json::Value::Object(m) => Some(m),
        _ => None,
    }
}

/// Relies on the `Object` variant of serde_json::Value: wrapping an object gives
/// a value that is that object.
#[verifier::external_body]
pub(crate) fn object_value(m: JsonObject) -> (r: serde_json::Value)
    ensures
        object_of(r) == Some(m),
{
    serde_json::Value::Object(m)
}

} // verus!
