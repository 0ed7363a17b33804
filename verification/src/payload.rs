//! Opaque JSON payloads: the input and the result of a task.
//!
//! The library carries such a value, copies it, writes it out and reads it
//! back. It never looks inside.

use vstd::prelude::*;

verus! {

/// `serde_json::Value`, any JSON value. Nothing of its inside is known
/// here.
#[verifier::external_type_specification]
#[verifier::external_body]
pub struct ExJsonValue(serde_json::Value);

/// The compact JSON text of a payload, as `serde_json` writes it.
pub uninterp spec fn json_text(value: serde_json::Value) -> Seq<char>;

/// What `serde_json` reads out of a text: the compact text of the value that
/// it found, or `None` where the text is no JSON document.
pub uninterp spec fn json_reading(text: Seq<char>) -> Option<Seq<char>>;

/// `Value::clone`: the copy is the same JSON value.
pub assume_specification[ <serde_json::Value as Clone>::clone ](
    value: &serde_json::Value,
) -> (copy: serde_json::Value)
    ensures
        copy == *value,
;

/// `Value::to_string`: the compact JSON text of the value.
#[verifier::external_body]
pub(crate) fn payload_to_text(value: &serde_json::Value) -> (text: String)
    ensures
        text@ == json_text(*value),
{
    value.to_string()
}

/// `serde_json::from_str` for a `Value`, with the error dropped: `Some` of
/// the value where the text is a JSON document, `None` where it is not.
#[verifier::external_body]
pub(crate) fn payload_from_text(text: &str) -> (value: Option<serde_json::Value>)
    ensures
        match value {
            Some(v) => json_reading(text@) == Some(json_text(v)),
            None => json_reading(text@).is_none(),
        },
{
    serde_json::from_str(text).ok()
}

} // verus!
