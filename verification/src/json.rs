//! What the supervisor asks of a JSON parser.
//!
//! Reading and writing JSON is left to the `serde_json` crate. Each
//! function here puts one question to it, and its contract gives the answer
//! a name: that the answer depends on the arguments alone is all that is
//! claimed of it.

use vstd::prelude::*;
use crate::words::optional_text;

verus! {

/// Whether a text is one JSON value, and that value an object: what
/// `serde_json::from_str` followed by `Value::is_object` answers.
pub uninterp spec fn json_object_text(text: Seq<char>) -> bool;

/// The text value that stands in a JSON text under the key `inner` of the
/// object under the key `outer`: what `serde_json::from_str`, two calls of
/// `Value::get` and `Value::as_str` find. `None` where the text is not
/// JSON, a key is missing, or the value is no text.
pub uninterp spec fn json_nested_text(text: Seq<char>, outer: Seq<char>, inner: Seq<char>) -> Option<
    Seq<char>,
>;

/// A text as a JSON string, in quotation marks and with what JSON wants
/// escaped: what `serde_json::to_string` writes for it.
pub uninterp spec fn json_string_text(text: Seq<char>) -> Seq<char>;

/// Whether `text` parses as a JSON object.
///
/// The body hands the text to `serde_json::from_str`, which reads it as one
/// `serde_json::Value` and fails on anything that is not a single JSON
/// value, and asks the value `is_object`.
#[verifier::external_body]
pub(crate) fn parses_as_json_object(text: &str) -> (r: bool)
    ensures
        r == json_object_text(text@),
{
    match serde_json::from_str::<serde_json::Value>(text) {
        Ok(value) => value.is_object(),
        Err(_) => false,
    }
}

/// The text value under `outer` and then `inner` in a JSON text.
///
/// The body hands the text to `serde_json::from_str`, steps into the
/// value with `Value::get` for each of the two keys, which gives `None`
/// where the value is no object or lacks the key, and takes the text
/// with `Value::as_str`, which gives `None` where the value is no text.
#[verifier::external_body]
pub(crate) fn read_nested_text(text: &str, outer: &str, inner: &str) -> (r: Option<String>)
    ensures
        optional_text(r) == json_nested_text(text@, outer@, inner@),
{
    let value = serde_json::from_str::<serde_json::Value>(text).ok()?;
    Some(value.get(outer)?.get(inner)?.as_str()?.to_string())
}

/// `text` as a JSON string.
///
/// The body calls `serde_json::to_string`, which writes the text between
/// quotation marks with the escapes of JSON. For a text it writes into a
/// buffer in memory and has no error to give; were it to give one, the
/// result would be the empty text. The contract claims that the result
/// depends on the text alone, under the name `json_string_text`.
#[verifier::external_body]
pub(crate) fn write_json_string(text: &str) -> (r: String)
    ensures
        r@ == json_string_text(text@),
{
    match serde_json::to_string(text) {
        Ok(written) => written,
        Err(_) => String::new(),
    }
}

} // verus!
