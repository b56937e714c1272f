//! What this library takes from `serde_json`. Nothing here is proved: each
//! contract states what the named function of `serde_json` does, and the rest
//! of the library is proved from these contracts.
//!
//! The contracts speak of a JSON value through its content, `json_view`. They
//! hold of `serde_json` as this crate builds it: numbers are held as `u64`,
//! `i64` or `f64`, and the members of an object are kept by their keys, in no
//! other order.

use vstd::prelude::*;

verus! {

/// `serde_json::Value`, a JSON value.
#[verifier::external_type_specification]
#[verifier::external_body]
pub struct ExValue(serde_json::Value);

/// `serde_json::Error`, what `serde_json` returns when it fails.
#[verifier::external_type_specification]
#[verifier::external_body]
pub struct ExError(serde_json::Error);

/// The content of a JSON number.
pub ghost enum JsonNumber {
    /// An integer that is not negative.
    PosInt(u64),
    /// An integer below zero.
    NegInt(i64),
    /// Any other number, by the bits of the float that holds it.
    Float(u64),
}

/// The content of a JSON value.
pub ghost enum Json {
    Null,
    Bool(bool),
    Number(JsonNumber),
    Text(Seq<char>),
    Array(Seq<Json>),
    Object(Map<Seq<char>, Json>),
}

/// The content of `value`.
pub uninterp spec fn json_view(value: serde_json::Value) -> Json;

/// The content of the value that `serde_json::from_str` reads from `text`, or
/// `None` where it returns an error.
pub uninterp spec fn json_document(text: Seq<char>) -> Option<Json>;

/// The text that `serde_json::to_string` writes for a value of the content
/// `value`, or `None` where it returns an error.
pub uninterp spec fn json_text(value: Json) -> Option<Seq<char>>;

/// `serde_json::from_str` at the type `Value`: reads `text` as one JSON
/// document. The contract names the content of what was read
/// `json_document(text@)`, and claims only that it depends on nothing but the
/// text.
#[verifier::external_body]
pub(crate) fn parse(text: &str) -> (r: Result<serde_json::Value, serde_json::Error>)
    ensures
        match r {
            Ok(v) => json_document(text@) == Some(json_view(v)),
            Err(_) => json_document(text@) is None,
        },
{
    serde_json::from_str::<serde_json::Value>(text)
}

/// `Value::get` with a string index: the member of an object under `key`, and
/// `None` where `value` is no object or has no such member.
#[verifier::external_body]
pub(crate) fn member<'a>(value: &'a serde_json::Value, key: &str) -> (r: Option<
    &'a serde_json::Value,
>)
    ensures
        match r {
            Some(m) => json_view(*value) matches Json::Object(o) && o.contains_key(key@) && o[key@]
                == json_view(*m),
            None => !(json_view(*value) matches Json::Object(o) && o.contains_key(key@)),
        },
{
    value.get(key)
}

/// `Value::as_str`: the characters of a JSON string, and `None` for any other
/// value.
#[verifier::external_body]
pub(crate) fn as_str<'a>(value: &'a serde_json::Value) -> (r: Option<&'a str>)
    ensures
        match r {
            Some(s) => json_view(*value) == Json::Text(s@),
            None => !(json_view(*value) is Text),
        },
{
    value.as_str()
}

/// `Value::as_u64`: the number that a JSON integer is where it is not negative,
/// and `None` for any other value.
#[verifier::external_body]
pub(crate) fn as_u64(value: &serde_json::Value) -> (r: Option<u64>)
    ensures
        match r {
            Some(n) => json_view(*value) == Json::Number(JsonNumber::PosInt(n)),
            None => !(json_view(*value) matches Json::Number(JsonNumber::PosInt(_))),
        },
{
    value.as_u64()
}

/// `Value::is_object`: whether `value` is a JSON object.
#[verifier::external_body]
pub(crate) fn is_object(value: &serde_json::Value) -> (r: bool)
    ensures
        r == (json_view(*value) is Object),
{
    value.is_object()
}

/// `serde_json::to_string` at the type `Value`: writes `value` as JSON text.
/// The contract names the text `json_text(json_view(*value))`: it claims that
/// the text depends on nothing but the content of the value, and does not claim
/// that the call succeeds.
#[verifier::external_body]
pub(crate) fn to_text(value: &serde_json::Value) -> (r: Result<String, serde_json::Error>)
    ensures
        match r {
            Ok(s) => json_text(json_view(*value)) == Some(s@),
            Err(_) => json_text(json_view(*value)) is None,
        },
{
    serde_json::to_string(value)
}

/// `Value::from` at the type `String`: the JSON string that holds `s`.
#[verifier::external_body]
pub(crate) fn string_value(s: String) -> (r: serde_json::Value)
    ensures
        json_view(r) == Json::Text(s@),
{
    serde_json::Value::from(s)
}

/// `Value::clone` returns a value equal to the one it is called on.
pub assume_specification[ <serde_json::Value as Clone>::clone ](
    value: &serde_json::Value,
) -> (r: serde_json::Value)
    ensures
        r == *value,
;

} // verus!
