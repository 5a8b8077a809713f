//! The JSON documents that backends answer with.
//!
//! Documents are parsed and read by `serde_json`. Its value type is opaque
//! here: the contracts speak of a document through the names below, one for
//! each `serde_json` function that the crate calls. Everything in this module
//! is believed of `serde_json`, not proved.

use vstd::prelude::*;

verus! {

/// `serde_json::Value`, carried as an opaque value.
#[verifier::external_type_specification]
#[verifier::external_body]
pub struct ExValue(serde_json::Value);

/// `serde_json::Error`, carried as an opaque value.
#[verifier::external_type_specification]
#[verifier::external_body]
pub struct ExError(serde_json::Error);

/// What `serde_json::from_str::<Value>` returns for a text.
pub uninterp spec fn json_parse(text: Seq<char>) -> Result<serde_json::Value, serde_json::Error>;

/// What `Error::to_string` returns: the rendered diagnostic of a parse error.
pub uninterp spec fn json_error_text(error: serde_json::Error) -> Seq<char>;

/// What `Value::get` returns for a string key: the member stored under `key`
/// when the document is an object that has one.
pub uninterp spec fn json_member(doc: serde_json::Value, key: Seq<char>) -> Option<serde_json::Value>;

/// What `Value::as_str` returns: the text of a JSON string, `None` for any
/// other kind of value.
pub uninterp spec fn json_text(value: serde_json::Value) -> Option<Seq<char>>;

/// What `Value::as_i64` returns: the integer of a JSON number that is an
/// integer within `i64`, `None` otherwise.
pub uninterp spec fn json_integer(value: serde_json::Value) -> Option<i64>;

/// What `Value::as_f64` returns, as the IEEE-754 binary64 bit pattern of the
/// number: `None` for a value that is not a number.
pub uninterp spec fn json_real_bits(value: serde_json::Value) -> Option<u64>;

/// Calls `serde_json::from_str` for a `Value`. The contract only ties the
/// result to the text: the same text always parses to the same outcome.
#[verifier::external_body]
pub(crate) fn parse(text: &str) -> (r: Result<serde_json::Value, serde_json::Error>)
    ensures
        r == json_parse(text@),
{
    serde_json::from_str::<serde_json::Value>(text)
}

/// Calls `ToString::to_string` on a `serde_json::Error`, which renders it
/// through its `Display` impl.
#[verifier::external_body]
pub(crate) fn error_text(error: &serde_json::Error) -> (r: String)
    ensures
        r@ == json_error_text(*error),
{
    error.to_string()
}

/// Calls `Value::get` with a string key.
#[verifier::external_body]
pub(crate) fn member<'a>(doc: &'a serde_json::Value, key: &str) -> (r: Option<&'a serde_json::Value>)
    ensures
        r is Some <==> json_member(*doc, key@) is Some,
        r is Some ==> *r->0 == json_member(*doc, key@)->0,
{
    doc.get(key)
}

/// Calls `Value::as_str`.
#[verifier::external_body]
pub(crate) fn as_text<'a>(value: &'a serde_json::Value) -> (r: Option<&'a str>)
    ensures
        r is Some <==> json_text(*value) is Some,
        r is Some ==> r->0@ == json_text(*value)->0,
{
    value.as_str()
}

/// Calls `Value::as_i64`.
#[verifier::external_body]
pub(crate) fn as_integer(value: &serde_json::Value) -> (r: Option<i64>)
    ensures
        r == json_integer(*value),
{
    value.as_i64()
}

/// Calls `Value::as_f64` and hands the number over as its bit pattern.
#[verifier::external_body]
pub(crate) fn as_real_bits(value: &serde_json::Value) -> (r: Option<u64>)
    ensures
        r == json_real_bits(*value),
{
    match value.as_f64() {
        Some(number) => Some(number.to_bits()),
        None => None,
    }
}

/// Calls `Clone::clone` on a `Value`, which copies the whole document.
#[verifier::external_body]
pub(crate) fn duplicate(value: &serde_json::Value) -> (r: serde_json::Value)
    ensures
        r == *value,
{
    value.clone()
}

} // verus!
