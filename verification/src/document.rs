//! Reading the fields of a record out of a backend's JSON document.
//!
//! Each field is read on its own: a member that is missing, or that holds a
//! value of another kind, reads as `None` and leaves the others untouched.
//! What a backend then makes of a missing field is decided elsewhere.

use vstd::prelude::*;
use crate::json::{
    as_integer, as_real_bits, as_text, duplicate, json_integer, json_member, json_real_bits,
    json_text, member,
};

verus! {

/// What a document holds under the keys of a record.
#[derive(Debug, Clone, PartialEq)]
pub struct Reading {
    pub url: Option<String>,
    pub classification: Option<String>,
    pub confidence_bits: Option<u64>,
    pub risk_score: Option<i64>,
    pub explanation: Option<String>,
    pub features: Option<serde_json::Value>,
}

/// Mathematical model of a [`Reading`].
pub struct ReadingView {
    pub url: Option<Seq<char>>,
    pub classification: Option<Seq<char>>,
    pub confidence_bits: Option<u64>,
    pub risk_score: Option<i64>,
    pub explanation: Option<Seq<char>>,
    pub features: Option<serde_json::Value>,
}

/// The characters of an optional string.
pub open spec fn text_view(text: Option<String>) -> Option<Seq<char>> {
    match text {
        Some(s) => Some(s@),
        None => None,
    }
}

impl View for Reading {
    type V = ReadingView;

    open spec fn view(&self) -> ReadingView {
        ReadingView {
            url: text_view(self.url),
            classification: text_view(self.classification),
            confidence_bits: self.confidence_bits,
            risk_score: self.risk_score,
            explanation: text_view(self.explanation),
            features: self.features,
        }
    }
}

/// The text under `key`, if the document is an object whose member `key` is
/// a string.
pub open spec fn text_member(doc: serde_json::Value, key: Seq<char>) -> Option<Seq<char>> {
    match json_member(doc, key) {
        Some(value) => json_text(value),
        None => None,
    }
}

/// The integer under `key`, if the document is an object whose member `key`
/// is an integer within `i64`.
pub open spec fn integer_member(doc: serde_json::Value, key: Seq<char>) -> Option<i64> {
    match json_member(doc, key) {
        Some(value) => json_integer(value),
        None => None,
    }
}

/// The bit pattern of the number under `key`, if the document is an object
/// whose member `key` is a number.
pub open spec fn real_member(doc: serde_json::Value, key: Seq<char>) -> Option<u64> {
    match json_member(doc, key) {
        Some(value) => json_real_bits(value),
        None => None,
    }
}

/// What `doc` holds under the keys of a record.
pub open spec fn reading_of(doc: serde_json::Value) -> ReadingView {
    ReadingView {
        url: text_member(doc, "url"@),
        classification: text_member(doc, "classification"@),
        confidence_bits: real_member(doc, "confidence"@),
        risk_score: integer_member(doc, "risk_score"@),
        explanation: text_member(doc, "explanation"@),
        features: json_member(doc, "features"@),
    }
}

/// Reads the text stored under `key`.
pub fn text_field(doc: &serde_json::Value, key: &str) -> (r: Option<String>)
    ensures
        text_view(r) == text_member(*doc, key@),
{
    match member(doc, key) {
        Some(value) => match as_text(value) {
            Some(text) => Some(String::from_str(text)),
            None => None,
        },
        None => None,
    }
}

/// Reads the integer stored under `key`.
pub fn integer_field(doc: &serde_json::Value, key: &str) -> (r: Option<i64>)
    ensures
        r == integer_member(*doc, key@),
{
    match member(doc, key) {
        Some(value) => as_integer(value),
        None => None,
    }
}

/// Reads the number stored under `key`, as its bit pattern.
pub fn real_field(doc: &serde_json::Value, key: &str) -> (r: Option<u64>)
    ensures
        r == real_member(*doc, key@),
{
    match member(doc, key) {
        Some(value) => as_real_bits(value),
        None => None,
    }
}

/// Copies the member stored under `key`, whatever its kind.
pub fn member_copy(doc: &serde_json::Value, key: &str) -> (r: Option<serde_json::Value>)
    ensures
        r == json_member(*doc, key@),
{
    match member(doc, key) {
        Some(value) => Some(duplicate(value)),
        None => None,
    }
}

/// Reads every field of a record out of `doc`, each on its own.
pub fn read_document(doc: &serde_json::Value) -> (r: Reading)
    ensures
        r@ == reading_of(*doc),
{
    Reading {
        url: text_field(doc, "url"),
        classification: text_field(doc, "classification"),
        confidence_bits: real_field(doc, "confidence"),
        risk_score: integer_field(doc, "risk_score"),
        explanation: text_field(doc, "explanation"),
        features: member_copy(doc, "features"),
    }
}

} // verus!
