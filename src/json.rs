//! Lookups in JSON documents, through serde_json.
use vstd::prelude::*;

verus! {

/// The unsigned integer under `key` in the JSON object `text`, as serde_json reads it.
pub uninterp spec fn json_u64_field_of(text: Seq<char>, key: Seq<char>) -> Option<u64>;

/// The string under `inner` in the object under `outer` of the JSON object `text`, as
/// serde_json reads it.
pub uninterp spec fn json_nested_str_of(text: Seq<char>, outer: Seq<char>, inner: Seq<char>) -> Option<Seq<char>>;

/// Relies on `serde_json::from_str` into a `serde_json::Value`, `Value::get` and
/// `Value::as_u64`: `None` where `text` is not JSON, has no `key` or holds there no
/// unsigned integer; the result depends on `text` and `key` alone.
#[verifier::external_body]
pub(crate) fn json_u64_field(text: &str, key: &str) -> (r: Option<u64>)
    ensures
        r == json_u64_field_of(text@, key@),
{
    serde_json::from_str::<serde_json::Value>(text).ok().and_then(|v| v.get(key).and_then(|p| p.as_u64()))
}

/// Relies on `serde_json::from_str` into a `serde_json::Value`, `Value::get` and
/// `Value::as_str`: `None` where `text` is not JSON or the path does not lead to a
/// string; the result depends on the three arguments alone.
#[verifier::external_body]
pub(crate) fn json_nested_str(text: &str, outer: &str, inner: &str) -> (r: Option<String>)
    ensures
        match r {
            Some(s) => json_nested_str_of(text@, outer@, inner@) == Some(s@),
            None => json_nested_str_of(text@, outer@, inner@) is None,
        },
{
    serde_json::from_str::<serde_json::Value>(text)
        .ok()
        .and_then(|v| v.get(outer).and_then(|o| o.get(inner)).and_then(|m| m.as_str().map(|s| s.to_string())))
}

} // verus!
