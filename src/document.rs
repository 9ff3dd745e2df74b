//! Parsing a TOML document into the library's document tree.

use crate::value::Doc;
use vstd::prelude::*;

verus! {

#[verifier::external_type_specification]
#[verifier::external_body]
pub struct ExTomlValue(toml::Value);

/// The document that the TOML parser reads from `text`, or `None` where it
/// rejects the text.
pub uninterp spec fn toml_document(text: Seq<char>) -> Option<Doc>;

/// Whether the TOML parser accepts `text` as a whole document.
pub open spec fn toml_accepts(text: Seq<char>) -> bool {
    toml_document(text) is Some
}

/// Rebuilds a parsed value as the library's document tree, one for one:
/// relies on the variants of toml::Value, on serde_json::Number::from_f64
/// (a JSON number for a finite float, `None` for an infinite or NaN one) and
/// on the `Display` of toml's `Datetime` (its TOML rendering).
#[verifier::external_body]
fn doc_from_toml(v: toml::Value) -> Doc {
    match v {
        toml::Value::String(s) => Doc::Str(s),
        toml::Value::Integer(i) => Doc::Int(i),
        toml::Value::Float(f) => Doc::Float(serde_json::Number::from_f64(f)),
        toml::Value::Boolean(b) => Doc::Bool(b),
        toml::Value::Datetime(d) => Doc::Datetime(d.to_string()),
        toml::Value::Array(a) => Doc::Array(a.into_iter().map(doc_from_toml).collect()),
        toml::Value::Table(t) => Doc::Table(t.into_iter().map(|(k, x)| (k, doc_from_toml(x))).collect()),
    }
}

/// Relies on toml::from_str: it parses the whole text as one document, which
/// depends on the text alone, and fails, with a message, exactly when the
/// text is not valid TOML.
#[verifier::external_body]
fn parse_toml(text: &str) -> (r: Result<Doc, String>)
    ensures
        r is Ok <==> toml_document(text@) is Some,
        r matches Ok(d) ==> toml_document(text@) == Some(d),
{
    toml::from_str::<toml::Value>(text).map(doc_from_toml).map_err(|e| e.to_string())
}

/// Why a text is not a document.
#[derive(Debug, PartialEq, Eq)]
pub enum ParseError {
    /// The text is not valid TOML; the parser's message.
    Syntax(String),
}

/// Parses `text` as a TOML document.
pub fn parse_document(text: &str) -> (r: Result<Doc, ParseError>)
    ensures
        r is Err <==> !toml_accepts(text@),
        r matches Ok(d) ==> toml_document(text@) == Some(d),
{
    match parse_toml(text) {
        Ok(d) => Ok(d),
        Err(message) => Err(ParseError::Syntax(message)),
    }
}

} // verus!
