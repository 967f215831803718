use vstd::prelude::*;

verus! {

/// A JSON value, held opaquely.
#[verifier::external_type_specification]
#[verifier::external_body]
pub struct ExJsonValue(serde_json::Value);

/// A JSON object: string keys to JSON values.
#[verifier::external_type_specification]
#[verifier::external_body]
#[verifier::reject_recursive_types(K)]
#[verifier::reject_recursive_types(V)]
pub struct ExJsonMap<K, V>(serde_json::Map<K, V>);

/// The keys of a JSON object.
pub uninterp spec fn json_map_keys(m: serde_json::Map<String, serde_json::Value>) -> Set<Seq<char>>;

/// The keys of the JSON object that `text` holds, or `None` when `text` is not
/// one JSON object.
pub uninterp spec fn json_object_keys(text: Seq<u8>) -> Option<Set<Seq<char>>>;

/// Relies on serde_json::from_slice into a `Map`: it succeeds exactly on a
/// document that is one JSON object, and the map then holds its keys.
#[verifier::external_body]
pub(crate) fn parse_json_object(text: &[u8]) -> (r: Option<serde_json::Map<String, serde_json::Value>>)
    ensures
        match r {
            Some(m) => json_object_keys(text@) == Some(json_map_keys(m)),
            None => json_object_keys(text@) is None,
        },
{
    serde_json::from_slice(text).ok()
}

/// Relies on serde_json::Map::get: the value under `key`, present exactly when
/// the key is.
#[verifier::external_body]
pub(crate) fn json_get<'a>(m: &'a serde_json::Map<String, serde_json::Value>, key: &str) -> (r: Option<
    &'a serde_json::Value,
>)
    ensures
        r is Some <==> json_map_keys(*m).contains(key@),
{
    m.get(key)
}

/// Whether `text` is one JSON document.
pub uninterp spec fn json_valid(text: Seq<u8>) -> bool;

/// The string under `key` in the JSON document `text`, when it is an object
/// with a JSON string there.
pub uninterp spec fn json_string_member(text: Seq<u8>, key: Seq<char>) -> Option<Seq<char>>;

/// The string under `inner` in the object under `outer` in the JSON document
/// `text`, when there is one.
pub uninterp spec fn json_nested_string(text: Seq<u8>, outer: Seq<char>, inner: Seq<char>) -> Option<Seq<char>>;

/// Relies on serde_json::from_slice into a `Value`: it succeeds on any one
/// JSON document, and its success depends on the bytes alone.
#[verifier::external_body]
pub(crate) fn is_json(text: &[u8]) -> (r: bool)
    ensures
        r == json_valid(text@),
{
    serde_json::from_slice::<serde_json::Value>(text).is_ok()
}

/// Relies on serde_json::from_slice into a `Value`, then `Value::get` and
/// `Value::as_str`: the string member `key` of the document, which depends on
/// the bytes and the key alone.
#[verifier::external_body]
pub(crate) fn json_member_str(text: &[u8], key: &str) -> (r: Option<String>)
    ensures
        match r {
            Some(s) => json_string_member(text@, key@) == Some(s@),
            None => json_string_member(text@, key@) is None,
        },
{
    let v = serde_json::from_slice::<serde_json::Value>(text).ok()?;
    v.get(key).and_then(|m| m.as_str()).map(|s| s.to_owned())
}

/// Relies on serde_json::from_slice into a `Value`, then `Value::get` twice
/// and `Value::as_str`: the string at `outer.inner`, which depends on the
/// bytes and the keys alone.
#[verifier::external_body]
pub(crate) fn json_nested_str(text: &[u8], outer: &str, inner: &str) -> (r: Option<String>)
    ensures
        match r {
            Some(s) => json_nested_string(text@, outer@, inner@) == Some(s@),
            None => json_nested_string(text@, outer@, inner@) is None,
        },
{
    let v = serde_json::from_slice::<serde_json::Value>(text).ok()?;
    v.get(outer).and_then(|o| o.get(inner)).and_then(|m| m.as_str()).map(|s| s.to_owned())
}

} // verus!
