//! Conversions between structured values and the TOML and JSON text formats.
//!
//! The crate models a format-agnostic tree of tables, arrays and scalars as
//! [`StructuredValue`].  Free functions encode such a tree to TOML or JSON
//! text and decode text back into a tree, delegating the grammar work to the
//! `toml` and `serde_json` crates behind contracts that pin what each call
//! returns.  Every failure is an [`Error`] tagged with a kind — I/O, decode
//! or encode — plus a description and a location trace.  The traits
//! [`FromToml`] and [`ToToml`] let any type that converts to or from a
//! structured value gain the TOML conversions as methods.

pub mod convert;
pub mod convert_json;
pub mod error;
pub mod outside;
pub mod traits;
pub mod value;

pub use convert::from_toml_str;
pub use convert::to_toml_string;
pub use convert_json::from_json_slice;
pub use convert_json::from_json_str;
pub use convert_json::to_json_string;
pub use convert_json::to_json_string_pretty;
pub use error::Error;
pub use error::ErrorKind;
pub use traits::from_toml;
pub use traits::to_toml;
pub use traits::FromToml;
pub use traits::ToToml;
pub use value::StructuredValue;
pub use value::value_eq;
