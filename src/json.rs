//! The JSON side of a secret: serde_json's `Value` carried as an opaque value,
//! with names for the parts of it that the projection reads.

use vstd::prelude::*;

verus! {

#[verifier::external_type_specification]
#[verifier::external_body]
pub struct ExValue(serde_json::Value);

#[verifier::external_type_specification]
#[verifier::external_body]
pub struct ExJsonError(serde_json::Error);

/// Whether the top level of a JSON value is an object.
pub uninterp spec fn json_is_object(v: serde_json::Value) -> bool;

/// The top-level fields of a JSON value whose values are strings, by key.
/// Fields holding any other kind of value are not in this map.
pub uninterp spec fn json_str_fields(v: serde_json::Value) -> Map<Seq<char>, Seq<char>>;

/// What `serde_json::from_str::<Value>` makes of a text: `None` where the text
/// is not well-formed JSON, else whether its top level is an object and its
/// string fields. It depends on the text alone.
pub uninterp spec fn json_parse(text: Seq<char>) -> Option<(bool, Map<Seq<char>, Seq<char>>)>;

/// What this crate observes of a decoded JSON value.
pub open spec fn json_view(v: serde_json::Value) -> (bool, Map<Seq<char>, Seq<char>>) {
    (json_is_object(v), json_str_fields(v))
}

/// Relies on `serde_json::from_str::<Value>`: it succeeds exactly on
/// well-formed JSON, and the value it returns is the one the text describes.
#[verifier::external_body]
pub(crate) fn parse_json(text: &str) -> (r: Result<serde_json::Value, serde_json::Error>)
    ensures
        r is Ok <==> json_parse(text@) is Some,
        r matches Ok(v) ==> json_parse(text@) == Some(json_view(v)),
{
    serde_json::from_str::<serde_json::Value>(text)
}

/// Relies on `serde_json::Value::get` with a string key: the field of that
/// name when `v` is an object that has it, else `None`. Only a string field is
/// returned.
#[verifier::external_body]
pub(crate) fn str_field(v: &serde_json::Value, key: &str) -> (r: Option<String>)
    ensures
        r is Some <==> json_str_fields(*v).contains_key(key@),
        r matches Some(s) ==> s@ == json_str_fields(*v)[key@],
        !json_is_object(*v) ==> r is None,
{
    match v.get(key) {
        Some(serde_json::Value::String(s)) => Some(s.clone()),
        _ => None,
    }
}

} // verus!
