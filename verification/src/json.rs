//! JSON, as far as the envelopes need it.
//!
//! Reading and writing JSON is the work of `serde_json`, which Verus does not
//! read. This module keeps a parsed document as that crate's `Value` and asks
//! five things of it: to parse a text, to find a member, to take a string, to
//! make a string, and to print a value. Each answer has a name here, over texts, and the
//! contracts of the envelopes are stated over those names: they say what is
//! done with the answers, not what the answers are.

use serde_json::Value;
use vstd::prelude::*;

verus! {

#[verifier::external_type_specification]
#[verifier::external_body]
pub struct ExValue(Value);

/// The text of a value: what its `to_string` prints, which is JSON without
/// any white space between its tokens.
pub uninterp spec fn json_text(value: Value) -> Seq<char>;

/// The text of the value that `text` holds as JSON. `None` where `text` is
/// not one JSON value.
pub uninterp spec fn json_compact(text: Seq<char>) -> Option<Seq<char>>;

/// The text of the value that a JSON object holds under `key`, the object
/// given by its text. `None` where the document is no object or holds nothing
/// under `key`.
pub uninterp spec fn json_member(document: Seq<char>, key: Seq<char>) -> Option<Seq<char>>;

/// The string that a document is, the document given by its text: the
/// string's characters, escapes resolved. `None` where the document is
/// anything but a string.
pub uninterp spec fn json_string(document: Seq<char>) -> Option<Seq<char>>;

/// The text of the JSON string that stands for `text`: `text` in double
/// quotes, with escapes where JSON needs them.
pub uninterp spec fn json_quoted(text: Seq<char>) -> Seq<char>;

/// The text of the value that `value` holds, if it holds one.
pub open spec fn opt_json_text(value: Option<Value>) -> Option<Seq<char>> {
    match value {
        Some(v) => Some(json_text(v)),
        None => None,
    }
}

/// `serde_json::from_str` to a `Value`: the value that `text` holds, or
/// nothing where `text` is not JSON.
#[verifier::external_body]
pub(crate) fn parse(text: &str) -> (out: Option<Value>)
    ensures
        opt_json_text(out) == json_compact(text@),
{
    serde_json::from_str::<Value>(text).ok()
}

/// `Value::get` with a key: the member of that name where the value is an
/// object that has one.
#[verifier::external_body]
pub(crate) fn member<'a>(value: &'a Value, key: &str) -> (out: Option<&'a Value>)
    ensures
        json_member(json_text(*value), key@) == match out {
            Some(found) => Some(json_text(*found)),
            None => None,
        },
{
    value.get(key)
}

/// `Value::as_str`: the string itself where the value is one.
#[verifier::external_body]
pub(crate) fn string(value: &Value) -> (out: Option<&str>)
    ensures
        json_string(json_text(*value)) == match out {
            Some(s) => Some(s@),
            None => None,
        },
{
    value.as_str()
}

/// `Value::from` a `str`: the JSON string that stands for `text`.
#[verifier::external_body]
pub(crate) fn string_value(text: &str) -> (out: Value)
    ensures
        json_text(out) == json_quoted(text@),
{
    Value::from(text)
}

/// `to_string` of a `Value`: its text.
#[verifier::external_body]
pub(crate) fn to_text(value: &Value) -> (out: String)
    ensures
        out@ == json_text(*value),
{
    value.to_string()
}

} // verus!
