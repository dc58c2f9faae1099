//! Capability traits: a type that can be built from, or turned into, a
//! structured value gains the TOML conversions as methods.
//!
//! Implementing [`FromToml`] takes one method, `from_toml`; the text-level
//! decoding comes as a provided method.  [`ToToml`] is its mirror for
//! encoding.  The two traits are independent: a type may implement either
//! or both.

use vstd::prelude::*;

use crate::convert::toml_value_of;
use crate::error::Error;
use crate::error::ErrorKind;
use crate::value::StructuredValue;

verus! {

/// A type that can be decoded from TOML.
///
/// Every failure an implementation reports is decode-kind: decoding has no
/// other way to go wrong.
pub trait FromToml: Sized {
    /// Builds an instance from a structured value; fails with a decode-kind
    /// error when the value's shape does not match.
    fn from_toml(toml: StructuredValue) -> (r: Result<Self, Error>)
        ensures
            r matches Err(e) ==> e.kind == ErrorKind::DecodeFailure,
    ;

    /// Parses TOML document text and builds an instance from the resulting
    /// structured value.
    fn from_toml_str(text: &str) -> (r: Result<Self, Error>)
        ensures
            r matches Err(e) ==> e.kind == ErrorKind::DecodeFailure,
        default_ensures
            toml_value_of(text@) is None ==> r is Err,
    {
        match crate::convert::from_toml_str(text) {
            Ok(v) => Self::from_toml(v),
            Err(e) => Err(e),
        }
    }
}

/// A type that can be encoded as TOML.
///
/// Every failure an implementation reports is encode-kind: encoding has no
/// other way to go wrong.
pub trait ToToml {
    /// Turns this value into a structured value; fails with an encode-kind
    /// error when it cannot be represented.
    fn to_toml(&self) -> (r: Result<StructuredValue, Error>)
        ensures
            r matches Err(e) ==> e.kind == ErrorKind::EncodeFailure,
    ;

    /// Turns this value into a structured value and encodes it as TOML
    /// document text.
    fn to_toml_string(&self) -> (r: Result<String, Error>)
        ensures
            r matches Err(e) ==> e.kind == ErrorKind::EncodeFailure,
    {
        match self.to_toml() {
            Ok(v) => crate::convert::to_toml_string(&v),
            Err(e) => Err(e),
        }
    }
}

impl FromToml for StructuredValue {
    /// A structured value is already decoded: the value is handed back.
    fn from_toml(toml: StructuredValue) -> (r: Result<StructuredValue, Error>)
        ensures
            r matches Ok(v) && v@ == toml@,
    {
        Ok(toml)
    }
}

impl ToToml for StructuredValue {
    /// A structured value is already in encoded shape: a copy is handed
    /// back.
    fn to_toml(&self) -> (r: Result<StructuredValue, Error>)
        ensures
            r matches Ok(v) && v@ == self@,
    {
        Ok(self.duplicate())
    }
}

/// Builds an instance of `T` from a structured value.
pub fn from_toml<T: FromToml>(toml: StructuredValue) -> (r: Result<T, Error>)
    ensures
        r matches Err(e) ==> e.kind == ErrorKind::DecodeFailure,
{
    T::from_toml(toml)
}

/// Turns a value into a structured value.
pub fn to_toml<T: ToToml>(value: &T) -> (r: Result<StructuredValue, Error>)
    ensures
        r matches Err(e) ==> e.kind == ErrorKind::EncodeFailure,
{
    value.to_toml()
}

} // verus!
