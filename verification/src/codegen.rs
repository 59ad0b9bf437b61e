//! The top-level entry points: parse a sample, infer, and emit.

use vstd::prelude::*;
use vstd::string::StringExecFns;

use crate::emit::{emit_records, emit_spec};
use crate::infer::{generate_type_from_value, infer_spec};
use crate::json::{JsonSpec, JsonValue};
use crate::types::{defs_view, CodeGenError, Options};

verus! {

#[verifier::external_type_specification]
#[verifier::external_body]
pub struct ExSerdeJsonError(serde_json::Error);

#[verifier::external_type_specification]
#[verifier::external_body]
pub struct ExSerdeJsonValue(serde_json::Value);

/// What `serde_json::from_str` makes of a piece of text: the parsed document,
/// or nothing when the text is not valid JSON. The outcome depends on the
/// text alone.
pub uninterp spec fn parsed_json(text: Seq<char>) -> Option<JsonSpec>;

/// Translates serde_json's document model into the library's, one variant for
/// one: of a number only `serde_json::Number::is_i64` — whether it is an
/// integer that fits `i64`, with no fractional or exponent part — is kept;
/// object fields keep their order (serde_json's `preserve_order` feature).
/// Only `parse_sample_text` calls this, and only its contract speaks for it.
#[verifier::external_body]
fn json_from_serde(v: serde_json::Value) -> JsonValue {
    match v {
        serde_json::Value::Null => JsonValue::Null,
        serde_json::Value::Bool(b) => JsonValue::Bool(b),
        serde_json::Value::Number(n) => JsonValue::Number { integral: n.is_i64() },
        serde_json::Value::String(s) => JsonValue::Str(s),
        serde_json::Value::Array(vs) => JsonValue::Array(
            vs.into_iter().map(json_from_serde).collect(),
        ),
        serde_json::Value::Object(fs) => JsonValue::Object(
            fs.into_iter().map(|(k, w)| (k, json_from_serde(w))).collect(),
        ),
    }
}

/// Relies on `serde_json::from_str`: parses JSON text — deterministically in
/// the text — into serde_json's document model, here translated to the
/// library's; the parse outcome is named `parsed_json`.
#[verifier::external_body]
fn parse_sample_text(text: &str) -> (r: Result<JsonValue, serde_json::Error>)
    ensures
        match r {
            Ok(v) => parsed_json(text@) == Some(v@),
            Err(_) => parsed_json(text@) is None,
        },
{
    serde_json::from_str::<serde_json::Value>(text).map(json_from_serde)
}

/// The text a generation run emits for a value, or nothing when the value
/// introduces no record definition.
pub open spec fn generated_text(name: Seq<char>, v: JsonSpec, serde: bool) -> Option<Seq<char>> {
    match infer_spec(name, v, serde).1 {
        Some(ds) => Some(emit_spec(ds)),
        None => None,
    }
}

/// Runs inference on a document and renders the collected record
/// definitions; fails when the root introduced none, so the requested name
/// names no new composite type.
pub fn codegen_from_value(name: &str, value: &JsonValue, options: &Options) -> (r: Result<
    String,
    CodeGenError,
>)
    ensures
        match generated_text(name@, value@, options.emit_serialization_support) {
            Some(text) => r matches Ok(s) && s@ == text,
            None => r matches Err(CodeGenError::ExistingType(n)) && n@ == name@,
        },
{
    let (_ty, defs) = generate_type_from_value(options, name, value);
    match defs {
        Some(ds) => Ok(emit_records(&ds)),
        None => Err(CodeGenError::ExistingType(String::from_str(name))),
    }
}

/// Parses sample text and generates from it under the default options.
pub fn codegen_from_text(name: &str, text: &str) -> (r: Result<String, CodeGenError>)
    ensures
        match parsed_json(text@) {
            Some(v) => match generated_text(name@, v, true) {
                Some(out) => r matches Ok(s) && s@ == out,
                None => r matches Err(CodeGenError::ExistingType(n)) && n@ == name@,
            },
            None => r matches Err(CodeGenError::ParseError(_)),
        },
{
    match parse_sample_text(text) {
        Ok(v) => {
            let options = Options::default();
            codegen_from_value(name, &v, &options)
        },
        Err(e) => Err(CodeGenError::from(e)),
    }
}

} // verus!
