//! Conversions between structured values and TOML document text.
//!
//! The grammar work is done by the `toml` crate; this module states what the
//! calls return in terms of two named functions of the text and of the value
//! model, and adds the library's error handling around them.

use vstd::prelude::*;

use crate::error::Error;
use crate::error::ErrorKind;
use crate::value::ValModel;
use crate::value::StructuredValue;

verus! {

/// The structured value that a piece of TOML document text denotes, or
/// `None` when the text is malformed or holds a value kind outside this
/// library's model (a float or a datetime).
pub uninterp spec fn toml_value_of(text: Seq<char>) -> Option<ValModel>;

/// The TOML document text that a structured value is rendered as, or `None`
/// when the `toml` crate refuses the value (a document's root must be a
/// table).
pub uninterp spec fn toml_text_of(m: ValModel) -> Option<Seq<char>>;

/// Bridge from the library's tree to toml's: one arm per variant, each
/// moving its fields across.
#[verifier::external_body]
fn to_toml_tree(v: &StructuredValue) -> toml::Value {
    match v {
        StructuredValue::Boolean(b) => toml::Value::Boolean(*b),
        StructuredValue::Integer(i) => toml::Value::Integer(*i),
        StructuredValue::Text(s) => toml::Value::String(s.clone()),
        StructuredValue::Array(items) => toml::Value::Array(items.iter().map(to_toml_tree).collect()),
        StructuredValue::Table(entries) => toml::Value::Table(entries.iter().map(|(k, v)| (k.clone(), to_toml_tree(v))).collect()),
    }
}

/// Bridge from toml's tree to the library's: one arm per variant, each
/// moving its fields across; `None` for the value kinds the library does not
/// model (floats and datetimes).
#[verifier::external_body]
fn from_toml_tree(t: toml::Value) -> Option<StructuredValue> {
    match t {
        toml::Value::Boolean(b) => Some(StructuredValue::Boolean(b)),
        toml::Value::Integer(i) => Some(StructuredValue::Integer(i)),
        toml::Value::String(s) => Some(StructuredValue::Text(s)),
        toml::Value::Array(items) => items.into_iter().map(from_toml_tree).collect::<Option<Vec<StructuredValue>>>().map(StructuredValue::Array),
        toml::Value::Table(entries) => entries.into_iter().map(|(k, v)| from_toml_tree(v).map(|w| (k, w))).collect::<Option<Vec<(String, StructuredValue)>>>().map(StructuredValue::Table),
        _ => None,
    }
}

/// Relies on `toml::from_str`: parses TOML document text into toml's value
/// tree, deterministically from the text alone; `from_toml_tree` then moves
/// the tree into the library's model.  On failure, `toml::de::Error::message`
/// supplies the diagnostic text.
#[verifier::external_body]
fn toml_decode(text: &str) -> (r: Result<StructuredValue, String>)
    ensures
        r matches Ok(v) ==> toml_value_of(text@) == Some(v@),
        r matches Err(_) ==> toml_value_of(text@) is None,
{
    match toml::from_str::<toml::Value>(text) {
        Ok(tree) => match from_toml_tree(tree) {
            Some(v) => Ok(v),
            None => Err("the document holds a value kind outside this library's model".to_string()),
        },
        Err(e) => Err(e.message().to_string()),
    }
}

/// Relies on `toml::to_string`: renders toml's value tree as TOML document
/// text, deterministically from the tree alone, and refuses a tree whose
/// root is not a table; `to_toml_tree` first moves the library's value into
/// toml's tree.
#[verifier::external_body]
fn toml_encode(v: &StructuredValue) -> (r: Result<String, String>)
    ensures
        r matches Ok(s) ==> toml_text_of(v@) == Some(s@),
        r matches Err(_) ==> toml_text_of(v@) is None,
        !(v@ is Table) ==> r is Err,
{
    match toml::to_string(&to_toml_tree(v)) {
        Ok(s) => Ok(s),
        Err(e) => Err(e.to_string()),
    }
}

/// Decodes TOML document text into a structured value.
///
/// Returns `Ok` exactly when the text is a well-formed TOML document whose
/// values the library models; otherwise the error is decode-kind.
pub fn from_toml_str(text: &str) -> (r: Result<StructuredValue, Error>)
    ensures
        r matches Ok(v) ==> toml_value_of(text@) == Some(v@),
        r matches Err(e) ==> toml_value_of(text@) is None && e.kind == ErrorKind::DecodeFailure,
{
    match toml_decode(text) {
        Ok(v) => Ok(v),
        Err(message) => {
            let mut e = Error::decode(message);
            e.track("from_toml_str".to_string());
            Err(e)
        },
    }
}

/// Encodes a structured value as TOML document text.
///
/// Returns `Ok` exactly when the `toml` crate can render the value as a
/// document — in particular, the root must be a table; otherwise the error
/// is encode-kind.
pub fn to_toml_string(value: &StructuredValue) -> (r: Result<String, Error>)
    ensures
        r matches Ok(s) ==> toml_text_of(value@) == Some(s@),
        r matches Err(e) ==> toml_text_of(value@) is None && e.kind == ErrorKind::EncodeFailure,
        !(value@ is Table) ==> r is Err,
{
    match toml_encode(value) {
        Ok(s) => Ok(s),
        Err(message) => {
            let mut e = Error::encode(message);
            e.track("to_toml_string".to_string());
            Err(e)
        },
    }
}

} // verus!
