//! Bridge between TOML text and document tables.
//!
//! Parsing and rendering are done by the `toml` crate; both are functions of
//! their input alone, so each result is given a name that the callers'
//! contracts speak of. Everything after the parse — discriminator
//! extraction, registry lookup, kind parsing — is verified against those
//! names.

use vstd::prelude::*;

use crate::value::{ConfValue, ValueModel};

verus! {

#[verifier::external_type_specification]
#[verifier::external_body]
pub struct ExTomlValue(toml::Value);

/// The document table that parsing a TOML text yields, when the text is a
/// well-formed document whose values the library's document model can hold.
pub uninterp spec fn parsed_document(text: Seq<char>) -> Option<Seq<(Seq<char>, ValueModel)>>;

/// Converts one parsed TOML value into a document value, one variant at a
/// time; a value the document model cannot hold is reported, not coerced.
/// Only `parse_toml_document` calls this.
#[verifier::external_body]
fn conf_of_toml(v: toml::Value) -> Result<ConfValue, String> {
    match v {
        toml::Value::String(s) => Ok(ConfValue::Str(s)),
        toml::Value::Integer(i) => Ok(ConfValue::Int(i)),
        toml::Value::Boolean(b) => Ok(ConfValue::Bool(b)),
        toml::Value::Array(a) => Ok(
            ConfValue::Arr(a.into_iter().map(conf_of_toml).collect::<Result<Vec<_>, _>>()?),
        ),
        toml::Value::Table(t) => Ok(
            ConfValue::Table(
                t.into_iter().map(|p| Ok((p.0, conf_of_toml(p.1)?))).collect::<Result<Vec<_>, String>>()?,
            ),
        ),
        other => Err(format!("unsupported document value: {}", other)),
    }
}

/// Relies on `toml::from_str`: parsing a TOML document is a function of the
/// text alone, and a well-formed document is a table of key/value pairs.
#[verifier::external_body]
pub(crate) fn parse_toml_document(text: &str) -> (r: Result<Vec<(String, ConfValue)>, String>)
    ensures
        r matches Ok(doc) ==> parsed_document(text@) == Some(doc.deep_view()),
        r is Err ==> parsed_document(text@) is None,
{
    match toml::from_str::<toml::Value>(text) {
        Ok(toml::Value::Table(t)) => t.into_iter().map(|p| Ok((p.0, conf_of_toml(p.1)?))).collect::<
            Result<Vec<_>, String>,
        >(),
        Ok(other) => Err(format!("expected a table, found: {}", other)),
        Err(e) => Err(e.to_string()),
    }
}

/// The TOML text that rendering a document table yields, when rendering
/// succeeds: a function of the table's model alone, on both outcomes.
pub uninterp spec fn rendered_document(doc: Seq<(Seq<char>, ValueModel)>) -> Option<Seq<char>>;

/// Converts a document value back into a TOML value, one variant at a time.
/// Only `render_toml_document` calls this.
#[verifier::external_body]
fn toml_of_conf(v: &ConfValue) -> toml::Value {
    match v {
        ConfValue::Bool(b) => toml::Value::Boolean(*b),
        ConfValue::Int(i) => toml::Value::Integer(*i),
        ConfValue::Str(s) => toml::Value::String(s.clone()),
        ConfValue::Arr(items) => toml::Value::Array(items.iter().map(toml_of_conf).collect()),
        ConfValue::Table(pairs) => toml::Value::Table(
            pairs.iter().map(|p| (p.0.clone(), toml_of_conf(&p.1))).collect(),
        ),
    }
}

/// Relies on `toml::to_string`: rendering a table is a function of the table
/// alone.
#[verifier::external_body]
pub(crate) fn render_toml_document(doc: &Vec<(String, ConfValue)>) -> (r: Result<String, String>)
    ensures
        r matches Ok(s) ==> rendered_document(doc.deep_view()) == Some(s@),
        r is Err ==> rendered_document(doc.deep_view()) is None,
{
    let t: toml::Table = doc.iter().map(|p| (p.0.clone(), toml_of_conf(&p.1))).collect();
    toml::to_string(&t).map_err(|e| e.to_string())
}

} // verus!
