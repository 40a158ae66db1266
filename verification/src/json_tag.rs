//! The numeric `"type"` tag that decides the variant of a component object
//! in tag-dispatched component trees.

use vstd::prelude::*;
use vstd::string::*;
use serde_json::Value;

verus! {

#[verifier::external_type_specification]
#[verifier::external_body]
pub struct ExJsonValue(Value);

/// The member `key` of a JSON value: what `serde_json::Value::get` with a
/// string key returns.
pub uninterp spec fn json_member_of(v: Value, key: Seq<char>) -> Option<Value>;

/// A JSON value as a `u64`: what `serde_json::Value::as_u64` returns.
pub uninterp spec fn json_u64_of(v: Value) -> Option<u64>;

/// The compact JSON text of a value: what `serde_json::Value`'s `Display`
/// writes.
pub uninterp spec fn json_text_of(v: Value) -> Seq<char>;

/// `serde_json::Value::get` with a string key: the member `key` of a JSON
/// object, or `None` for a missing member or a value that is not an object.
/// The contract claims that the member depends on the value and the key
/// alone, and is handed out by reference.
#[verifier::external_body]
fn json_member<'v>(value: &'v Value, key: &str) -> (r: Option<&'v Value>)
    ensures
        match json_member_of(*value, key@) {
            Some(m) => (r matches Some(x) && *x == m),
            None => r is None,
        },
{
    value.get(key)
}

/// `serde_json::Value::as_u64`: the value as a `u64` when it is a JSON number
/// that fits one. The contract claims that the result depends on the value
/// alone.
#[verifier::external_body]
fn json_as_u64(value: &Value) -> (r: Option<u64>)
    ensures
        r == json_u64_of(*value),
{
    value.as_u64()
}

/// The `Display` rendering of a JSON value (compact JSON text). The
/// contract claims that the text depends on the value alone.
#[verifier::external_body]
fn json_render(value: &Value) -> (r: String)
    ensures
        r@ == json_text_of(*value),
{
    value.to_string()
}

/// The tag a JSON value carries: its `"type"` member as a `u64`, if any.
pub open spec fn tag_of(v: Value) -> Option<u64> {
    match json_member_of(v, "type"@) {
        Some(m) => json_u64_of(m),
        None => None,
    }
}

/// The prefix of the error for a component object without a numeric tag.
pub open spec fn missing_tag_prefix() -> Seq<char> {
    "component missing numeric \"type\": "@
}

/// Turns what was found under `"type"` into the tag, or into the error that
/// quotes the object's rendering.
pub fn tag_from(found: Option<u64>, rendered: String) -> (r: Result<u64, String>)
    ensures
        match found {
            Some(n) => r == Ok::<u64, String>(n),
            None => r matches Err(msg) && msg@ == missing_tag_prefix() + rendered@,
        },
{
    match found {
        Some(n) => Ok(n),
        None => Err(String::from_str("component missing numeric \"type\": ").concat(
            rendered.as_str(),
        )),
    }
}

/// Reads the numeric `"type"` tag every component object carries. An object
/// without one, or with a tag that is not a `u64`, is rejected with an error
/// that quotes the object.
pub fn tag(value: &Value) -> (r: Result<u64, String>)
    ensures
        match tag_of(*value) {
            Some(n) => r == Ok::<u64, String>(n),
            None => (r matches Err(msg) && msg@ == missing_tag_prefix() + json_text_of(*value)),
        },
{
    let found = match json_member(value, "type") {
        Some(member) => json_as_u64(member),
        None => None,
    };
    match found {
        Some(n) => tag_from(Some(n), String::new()),
        None => tag_from(None, json_render(value)),
    }
}

} // verus!
