//! Conversions between structured values and JSON text.
//!
//! The grammar work is done by the `serde_json` crate; this module states
//! what the calls return in terms of named functions of the text, of the
//! bytes and of the value model, and adds the library's error handling
//! around them.

use vstd::prelude::*;

use crate::error::Error;
use crate::error::ErrorKind;
use crate::value::StructuredValue;
use crate::value::ValModel;

verus! {

/// The structured value that a piece of JSON text denotes, or `None` when
/// the text is malformed or holds a value kind outside this library's model
/// (a null, a float, or an integer beyond the signed 64-bit range).
pub uninterp spec fn json_value_of(text: Seq<char>) -> Option<ValModel>;

/// The structured value that a byte string of JSON denotes, or `None` when
/// the bytes are malformed or hold a value kind outside this library's
/// model.
pub uninterp spec fn json_value_of_bytes(bytes: Seq<u8>) -> Option<ValModel>;

/// The compact JSON text that a structured value is rendered as.
pub uninterp spec fn json_text_of(m: ValModel) -> Seq<char>;

/// The pretty-printed JSON text that a structured value is rendered as.
pub uninterp spec fn json_pretty_text_of(m: ValModel) -> Seq<char>;

/// Bridge from the library's tree to serde_json's: one arm per variant,
/// each moving its fields across.
#[verifier::external_body]
fn to_json_tree(v: &StructuredValue) -> serde_json::Value {
    match v {
        StructuredValue::Boolean(b) => serde_json::Value::Bool(*b),
        StructuredValue::Integer(i) => serde_json::Value::Number((*i).into()),
        StructuredValue::Text(s) => serde_json::Value::String(s.clone()),
        StructuredValue::Array(items) => serde_json::Value::Array(items.iter().map(to_json_tree).collect()),
        StructuredValue::Table(entries) => serde_json::Value::Object(entries.iter().map(|(k, v)| (k.clone(), to_json_tree(v))).collect()),
    }
}

/// Bridge from serde_json's tree to the library's: one arm per variant,
/// each moving its fields across; `None` for the value kinds the library
/// does not model (nulls and numbers outside the signed 64-bit integers).
#[verifier::external_body]
fn from_json_tree(j: serde_json::Value) -> Option<StructuredValue> {
    match j {
        serde_json::Value::Bool(b) => Some(StructuredValue::Boolean(b)),
        serde_json::Value::Number(n) => n.as_i64().map(StructuredValue::Integer),
        serde_json::Value::String(s) => Some(StructuredValue::Text(s)),
        serde_json::Value::Array(items) => items.into_iter().map(from_json_tree).collect::<Option<Vec<StructuredValue>>>().map(StructuredValue::Array),
        serde_json::Value::Object(entries) => entries.into_iter().map(|(k, v)| from_json_tree(v).map(|w| (k, w))).collect::<Option<Vec<(String, StructuredValue)>>>().map(StructuredValue::Table),
        serde_json::Value::Null => None,
    }
}

/// Relies on `serde_json::from_str`: parses JSON text into serde_json's
/// value tree, deterministically from the text alone; `from_json_tree` then
/// moves the tree into the library's model.  On failure, the error's
/// display text supplies the diagnostic.
#[verifier::external_body]
fn json_decode(text: &str) -> (r: Result<StructuredValue, String>)
    ensures
        r matches Ok(v) ==> json_value_of(text@) == Some(v@),
        r matches Err(_) ==> json_value_of(text@) is None,
{
    match serde_json::from_str::<serde_json::Value>(text) {
        Ok(tree) => match from_json_tree(tree) {
            Some(v) => Ok(v),
            None => Err("the text holds a value kind outside this library's model".to_string()),
        },
        Err(e) => Err(e.to_string()),
    }
}

/// Relies on `serde_json::from_slice`: parses a byte string of JSON into
/// serde_json's value tree, deterministically from the bytes alone;
/// `from_json_tree` then moves the tree into the library's model.
#[verifier::external_body]
fn json_decode_bytes(bytes: &[u8]) -> (r: Result<StructuredValue, String>)
    ensures
        r matches Ok(v) ==> json_value_of_bytes(bytes@) == Some(v@),
        r matches Err(_) ==> json_value_of_bytes(bytes@) is None,
{
    match serde_json::from_slice::<serde_json::Value>(bytes) {
        Ok(tree) => match from_json_tree(tree) {
            Some(v) => Ok(v),
            None => Err("the bytes hold a value kind outside this library's model".to_string()),
        },
        Err(e) => Err(e.to_string()),
    }
}

/// Relies on `serde_json::to_string`: renders serde_json's value tree as
/// compact JSON text, deterministically from the tree alone, and fails only
/// on a serializer that decides to fail or a map with non-string keys —
/// serde_json's own tree is neither, so the call succeeds; `to_json_tree`
/// first moves the library's value into serde_json's tree.
#[verifier::external_body]
fn json_encode(v: &StructuredValue) -> (r: Result<String, String>)
    ensures
        r is Ok,
        r matches Ok(s) ==> s@ == json_text_of(v@),
{
    match serde_json::to_string(&to_json_tree(v)) {
        Ok(s) => Ok(s),
        Err(e) => Err(e.to_string()),
    }
}

/// Relies on `serde_json::to_string_pretty`: as `serde_json::to_string`,
/// with indented output; it succeeds on serde_json's own tree for the same
/// reason.
#[verifier::external_body]
fn json_encode_pretty(v: &StructuredValue) -> (r: Result<String, String>)
    ensures
        r is Ok,
        r matches Ok(s) ==> s@ == json_pretty_text_of(v@),
{
    match serde_json::to_string_pretty(&to_json_tree(v)) {
        Ok(s) => Ok(s),
        Err(e) => Err(e.to_string()),
    }
}

/// Decodes JSON text into a structured value.
///
/// Returns `Ok` exactly when the text is well-formed JSON whose values the
/// library models; otherwise the error is decode-kind.
pub fn from_json_str(text: &str) -> (r: Result<StructuredValue, Error>)
    ensures
        r matches Ok(v) ==> json_value_of(text@) == Some(v@),
        r matches Err(e) ==> json_value_of(text@) is None && e.kind == ErrorKind::DecodeFailure,
{
    match json_decode(text) {
        Ok(v) => Ok(v),
        Err(message) => {
            let mut e = Error::decode(message);
            e.track("from_json_str".to_string());
            Err(e)
        },
    }
}

/// Decodes a byte string of JSON into a structured value.
///
/// Returns `Ok` exactly when the bytes are well-formed JSON whose values
/// the library models; otherwise the error is decode-kind.
pub fn from_json_slice(json: &[u8]) -> (r: Result<StructuredValue, Error>)
    ensures
        r matches Ok(v) ==> json_value_of_bytes(json@) == Some(v@),
        r matches Err(e) ==> json_value_of_bytes(json@) is None && e.kind
            == ErrorKind::DecodeFailure,
{
    match json_decode_bytes(json) {
        Ok(v) => Ok(v),
        Err(message) => {
            let mut e = Error::decode(message);
            e.track("from_json_slice".to_string());
            Err(e)
        },
    }
}

/// Encodes a structured value as compact JSON text.  Every structured value
/// can be rendered, so the call always succeeds.
pub fn to_json_string(value: &StructuredValue) -> (r: Result<String, Error>)
    ensures
        r matches Ok(s) ==> s@ == json_text_of(value@),
        r is Ok,
{
    match json_encode(value) {
        Ok(s) => Ok(s),
        Err(message) => {
            let mut e = Error::encode(message);
            e.track("to_json_string".to_string());
            Err(e)
        },
    }
}

/// Encodes a structured value as pretty-printed JSON text.  Every
/// structured value can be rendered, so the call always succeeds.
pub fn to_json_string_pretty(value: &StructuredValue) -> (r: Result<String, Error>)
    ensures
        r matches Ok(s) ==> s@ == json_pretty_text_of(value@),
        r is Ok,
{
    match json_encode_pretty(value) {
        Ok(s) => Ok(s),
        Err(message) => {
            let mut e = Error::encode(message);
            e.track("to_json_string_pretty".to_string());
            Err(e)
        },
    }
}

} // verus!
