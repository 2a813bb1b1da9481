//! JSON text read and written through `serde_json`: what `serde_json` makes
//! of a text, and the text it writes for a value, as the library's own
//! JSON values.
use vstd::prelude::*;
use crate::rpc::{json_model, JsonModel, JsonValue};

verus! {

#[verifier::external_type_specification]
#[verifier::external_body]
pub struct ExSerdeJsonValue(serde_json::Value);

/// The JSON value that `serde_json::from_str` reads from `text` into a
/// `serde_json::Value`; none where `text` is not JSON.
pub uninterp spec fn json_text_value(text: Seq<char>) -> Option<JsonModel>;

/// The message of the error that `serde_json::from_str` reports on `text`.
pub uninterp spec fn json_error_text(text: Seq<char>) -> Seq<char>;

/// What `serde_json::to_string_pretty` writes for the value.
pub uninterp spec fn json_pretty_text(v: JsonModel) -> Seq<char>;

/// What `serde_json::to_string` writes for the value.
pub uninterp spec fn json_compact_text(v: JsonModel) -> Seq<char>;

/// A `serde_json::Value` as the library's JSON value, variant for variant;
/// a number is kept as its text. Only the wrappers below call it; what the
/// conversion gives is stated there, together with the call it follows.
#[verifier::external_body]
fn json_value_from_serde(value: &serde_json::Value) -> JsonValue {
    match value {
        serde_json::Value::Null => JsonValue::Null,
        serde_json::Value::Bool(b) => JsonValue::Bool(*b),
        serde_json::Value::Number(n) => JsonValue::Number(n.to_string()),
        serde_json::Value::String(s) => JsonValue::Str(s.clone()),
        serde_json::Value::Array(items) => JsonValue::Array(items.iter().map(json_value_from_serde).collect()),
        serde_json::Value::Object(ms) => JsonValue::Object(
            ms.iter().map(|(k, v)| (k.clone(), json_value_from_serde(v))).collect(),
        ),
    }
}

/// The library's JSON value as a `serde_json::Value`, variant for variant;
/// a number's text is read back as a number (null where it is none). Only
/// the wrappers below call it; what the conversion gives is stated there.
#[verifier::external_body]
fn json_value_to_serde(value: &JsonValue) -> serde_json::Value {
    match value {
        JsonValue::Null => serde_json::Value::Null,
        JsonValue::Bool(b) => serde_json::Value::Bool(*b),
        JsonValue::Number(n) => n.parse::<serde_json::Number>().map(serde_json::Value::Number).unwrap_or(serde_json::Value::Null),
        JsonValue::Str(s) => serde_json::Value::String(s.clone()),
        JsonValue::Array(items) => serde_json::Value::Array(items.iter().map(json_value_to_serde).collect()),
        JsonValue::Object(ms) => serde_json::Value::Object(
            ms.iter().map(|(k, v)| (k.clone(), json_value_to_serde(v))).collect(),
        ),
    }
}

/// Reads `text` with `serde_json::from_str` into a `serde_json::Value`.
/// Stated: the value read is `json_text_value(text)`; where reading fails,
/// there is none and the error's message is `json_error_text(text)`.
#[verifier::external_body]
pub(crate) fn parse_json_text(text: &str) -> (r: Result<JsonValue, String>)
    ensures
        match r {
            Ok(v) => json_text_value(text@) == Some(json_model(v)),
            Err(e) => json_text_value(text@) is None && e@ == json_error_text(text@),
        },
{
    match serde_json::from_str::<serde_json::Value>(text) {
        Ok(value) => Ok(json_value_from_serde(&value)),
        Err(error) => Err(error.to_string()),
    }
}

/// Writes `value` with `serde_json::to_string_pretty`, which cannot fail on
/// a `serde_json::Value`. Stated: the text is `json_pretty_text` of the value.
#[verifier::external_body]
pub(crate) fn render_json_pretty(value: &JsonValue) -> (r: String)
    ensures
        r@ == json_pretty_text(json_model(*value)),
{
    serde_json::to_string_pretty(&json_value_to_serde(value)).unwrap_or_default()
}

/// Writes `value` with `serde_json::to_string`, which cannot fail on a
/// `serde_json::Value`. Stated: the text is `json_compact_text` of the value.
#[verifier::external_body]
pub(crate) fn render_json_compact(value: &JsonValue) -> (r: String)
    ensures
        r@ == json_compact_text(json_model(*value)),
{
    serde_json::to_string(&json_value_to_serde(value)).unwrap_or_default()
}

} // verus!
