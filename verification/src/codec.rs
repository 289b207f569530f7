//! JSON encode and decode. The text codec is `serde_json`; what is decided
//! here is only how its outcome is surfaced to the caller, and which JSON
//! value stands for which dynamic value.

use vstd::prelude::*;
use crate::convert::{DynamicValue, DynamicView, Entry};
use crate::error::OrdanticError;

verus! {

/// `serde_json::Value`, any JSON value. Opaque here: the codec produces and
/// consumes it, nothing in this crate looks inside.
#[verifier::external_type_specification]
#[verifier::external_body]
pub struct ExJsonValue(serde_json::Value);

/// `serde_json::Error`, the codec's error. Opaque here.
#[verifier::external_type_specification]
#[verifier::external_body]
pub struct ExJsonError(serde_json::Error);

/// The JSON text that `serde_json::to_string` writes for `value`, or `None`
/// where it refuses the value.
pub uninterp spec fn encoded(value: serde_json::Value) -> Option<Seq<char>>;

/// The value that `serde_json::from_str` reads from `text`, or `None` where
/// it refuses the text.
pub uninterp spec fn decoded(text: Seq<char>) -> Option<serde_json::Value>;

/// The JSON value that stands for a dynamic value: a mapping becomes an
/// object that is filled entry by entry, a sequence an array, a leaf the
/// JSON value of its kind.
pub uninterp spec fn json_value(content: DynamicView) -> serde_json::Value;

/// The dynamic value that a JSON value stands for: an object becomes a
/// mapping with the entries in the object's own order, an array a sequence.
/// `None` where a null, or a number that is no `i64`, occurs anywhere in
/// it.
pub uninterp spec fn dynamic_of(value: serde_json::Value) -> Option<DynamicView>;

/// The view of a dynamic value that may be missing.
pub open spec fn dynamic_view(value: Option<DynamicValue>) -> Option<DynamicView> {
    match value {
        Some(found) => Some(found@),
        None => None,
    }
}

/// Builds a `serde_json::Value` with its constructors `Value::Bool`,
/// `Value::from(i64)`, `Value::String`, `Value::Object` and `Value::Array`,
/// part by part. Believed: the result depends on the content of the
/// dynamic value alone.
#[verifier::external_body]
pub(crate) fn to_value(value: &DynamicValue) -> (json: serde_json::Value)
    ensures
        json == json_value(value@),
{
    match value {
        DynamicValue::Bool(flag) => serde_json::Value::Bool(*flag),
        DynamicValue::Int(number) => serde_json::Value::from(*number),
        DynamicValue::Text(text) => serde_json::Value::String(text.clone()),
        DynamicValue::Mapping(entries) => serde_json::Value::Object(
            entries.iter().map(|e| (e.key.clone(), to_value(&e.value))).collect(),
        ),
        DynamicValue::Sequence(items) => serde_json::Value::Array(
            items.iter().map(to_value).collect(),
        ),
    }
}

/// Tells the variants of `serde_json::Value` apart and moves their fields;
/// a number is read with `serde_json::Number::as_i64`. Believed: the result
/// depends on the JSON value alone.
#[verifier::external_body]
pub(crate) fn from_value(value: &serde_json::Value) -> (content: Option<DynamicValue>)
    ensures
        dynamic_view(content) == dynamic_of(*value),
{
    match value {
        serde_json::Value::Null => None,
        serde_json::Value::Bool(flag) => Some(DynamicValue::Bool(*flag)),
        serde_json::Value::Number(number) => number.as_i64().map(DynamicValue::Int),
        serde_json::Value::String(text) => Some(DynamicValue::Text(text.clone())),
        serde_json::Value::Array(items) => {
            items.iter().map(from_value).collect::<Option<Vec<_>>>().map(DynamicValue::Sequence)
        },
        serde_json::Value::Object(entries) => entries.iter().map(
            |(key, item)| Some(Entry { key: key.clone(), value: from_value(item)? }),
        ).collect::<Option<Vec<_>>>().map(DynamicValue::Mapping),
    }
}

/// Calls `serde_json::to_string`, which writes a value as JSON text or
/// refuses it. Believed: the outcome depends on the value alone.
#[verifier::external_body]
fn encode(value: &serde_json::Value) -> (result: Result<String, serde_json::Error>)
    ensures
        match result {
            Ok(text) => encoded(*value) == Some(text@),
            Err(_) => encoded(*value) is None,
        },
{
    serde_json::to_string(value)
}

/// Calls `serde_json::from_str`, which reads JSON text into a value or
/// refuses the text. Believed: the outcome depends on the text alone.
#[verifier::external_body]
fn decode(text: &str) -> (result: Result<serde_json::Value, serde_json::Error>)
    ensures
        match result {
            Ok(value) => decoded(text@) == Some(value),
            Err(_) => decoded(text@) is None,
        },
{
    serde_json::from_str::<serde_json::Value>(text)
}

/// What `json` returns for each outcome of the encoder.
pub open spec fn serialized(outcome: Option<Seq<char>>) -> Result<Seq<char>, OrdanticError> {
    match outcome {
        Some(text) => Ok(text),
        None => Err(OrdanticError::FailedToSerialize),
    }
}

/// What `parse_raw` returns for each outcome of the decoder.
pub open spec fn deserialized(outcome: Option<serde_json::Value>) -> Result<
    serde_json::Value,
    OrdanticError,
> {
    match outcome {
        Some(value) => Ok(value),
        None => Err(OrdanticError::FailedToDeserialize),
    }
}

/// The view of an encoding result.
pub open spec fn text_view(result: Result<String, OrdanticError>) -> Result<
    Seq<char>,
    OrdanticError,
> {
    match result {
        Ok(text) => Ok(text@),
        Err(error) => Err(error),
    }
}

/// Serializes the full value as JSON text. Where the encoder refuses the
/// value the call fails with "failed to serialize".
pub fn json(value: &serde_json::Value) -> (result: Result<String, OrdanticError>)
    ensures
        text_view(result) == serialized(encoded(*value)),
{
    match encode(value) {
        Ok(json_str) => Ok(json_str),
        Err(_) => Err(OrdanticError::FailedToSerialize),
    }
}

/// Deserializes a value from JSON text. Malformed text fails with "failed
/// to deserialize".
pub fn parse_raw(string: &str) -> (result: Result<serde_json::Value, OrdanticError>)
    ensures
        result == deserialized(decoded(string@)),
{
    match decode(string) {
        Ok(value) => Ok(value),
        Err(_) => Err(OrdanticError::FailedToDeserialize),
    }
}

} // verus!
