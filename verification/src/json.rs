//! Trusted boundary to the JSON parser: extraction of top-level string
//! fields from documents exchanged with the gateway.

use vstd::prelude::*;

verus! {

/// The string value at a top-level key of a JSON document, `None` when the
/// document does not parse, the key is absent, or the value is not a string.
pub uninterp spec fn json_str_field(document: Seq<char>, key: Seq<char>) -> Option<Seq<char>>;

/// Relies on `serde_json::from_str::<Value>`, `Value::get` and
/// `Value::as_str`. Deterministic in its arguments.
#[verifier::external_body]
pub(crate) fn json_get_str(document: &str, key: &str) -> (r: Option<String>)
    ensures
        r is Some <==> json_str_field(document@, key@) is Some,
        r matches Some(s) ==> Some(s@) == json_str_field(document@, key@),
{
    let value: serde_json::Value = match serde_json::from_str(document) {
        Ok(v) => v,
        Err(_) => return None,
    };
    match value.get(key) {
        Some(field) => field.as_str().map(|s| s.to_owned()),
        None => None,
    }
}

} // verus!
