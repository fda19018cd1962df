//! The trusted boundary to the `toml` crate: one parse call turns the
//! document text into the library's own value tree, on which all further
//! decoding is verified.

use vstd::prelude::*;

use crate::value::TomlValue;

verus! {

/// `toml::Value`, the parser's own tree, handled only inside the
/// conversion below.
#[verifier::external_type_specification]
#[verifier::external_body]
pub struct ExTomlCrateValue(toml::Value);

/// What `toml::from_str` yields on a given text: the converted tree on
/// success, the parser's error message otherwise. Parsing depends on the
/// text alone.
pub uninterp spec fn toml_tree_of(s: Seq<char>) -> Result<TomlValue, String>;

/// Turns a parsed `toml::Value` into the library's own tree, variant for
/// variant; floats and datetimes, which no field of the schema reads,
/// become `TomlValue::Other`.
#[verifier::external_body]
fn convert_value(v: toml::Value) -> TomlValue {
    match v {
        toml::Value::String(s) => TomlValue::Str(s),
        toml::Value::Integer(i) => TomlValue::Int(i),
        toml::Value::Boolean(b) => TomlValue::Bool(b),
        toml::Value::Array(a) => TomlValue::Arr(a.into_iter().map(convert_value).collect()),
        toml::Value::Table(t) => TomlValue::Table(
            t.into_iter().map(|(k, w)| (k, convert_value(w))).collect(),
        ),
        _ => TomlValue::Other,
    }
}

/// Relies on `toml::from_str::<toml::Value>`: the result is a function of
/// the input text alone. The root of a parsed document is almost always a
/// table, but the deserializer can yield another value there (it encodes
/// datetimes as single-key tables with a reserved key, and decodes such a
/// table back into a datetime), so nothing is promised of the root's kind.
#[verifier::external_body]
pub fn parse_toml(s: &str) -> (r: Result<TomlValue, String>)
    ensures
        r == toml_tree_of(s@),
{
    match toml::from_str::<toml::Value>(s) {
        Ok(v) => Ok(convert_value(v)),
        Err(e) => Err(e.to_string()),
    }
}

} // verus!
