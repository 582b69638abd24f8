//! TOML documents as `toml` reads them.

use vstd::prelude::*;

verus! {

#[verifier::external_type_specification]
#[verifier::external_body]
pub struct ExTomlValue(toml::Value);

#[verifier::external_type_specification]
#[verifier::external_body]
pub struct ExTomlError(toml::de::Error);

/// One level of a document.
#[verifier::ext_equal]
pub enum TomlShape {
    Text(Seq<char>),
    Integer(i64),
    Table(Map<Seq<char>, toml::Value>),
    Array(Seq<toml::Value>),
    /// A float, a truth value or a date.
    Other,
}

/// What a value holds.
pub uninterp spec fn toml_shape(v: toml::Value) -> TomlShape;

/// What reading a text gives: the document that it stands for, or what is wrong with
/// it.
pub uninterp spec fn toml_parsed(text: Seq<char>) -> Result<toml::Value, toml::de::Error>;

/// The document that a text stands for, `None` where it is not TOML.
pub open spec fn toml_document(text: Seq<char>) -> Option<toml::Value> {
    match toml_parsed(text) {
        Ok(v) => Some(v),
        Err(_) => None,
    }
}

/// `toml::from_str` into a `toml::Value`: whether it succeeds, the value and the error
/// depend on the text alone.
#[verifier::external_body]
pub(crate) fn parse_toml(text: &str) -> (r: Result<toml::Value, toml::de::Error>)
    ensures
        r == toml_parsed(text@),
{
    toml::from_str(text)
}

/// `toml::Value::get` with a text: the value under that key where the value is a
/// table that has it, `None` otherwise.
#[verifier::external_body]
pub(crate) fn toml_field<'a>(v: &'a toml::Value, key: &str) -> (r: Option<&'a toml::Value>)
    ensures
        r == (match toml_shape(*v) {
            TomlShape::Table(m) => if m.contains_key(key@) {
                Some(&m[key@])
            } else {
                None
            },
            _ => None,
        }),
{
    v.get(key)
}

/// `toml::Value::as_str` gives the characters of a text.
pub assume_specification[ toml::Value::as_str ](v: &toml::Value) -> (r: Option<&str>)
    ensures
        match toml_shape(*v) {
            TomlShape::Text(s) => r matches Some(t) && t@ == s,
            _ => r is None,
        },
;

/// `toml::Value::as_integer` gives an integer.
pub assume_specification[ toml::Value::as_integer ](v: &toml::Value) -> (r: Option<i64>)
    ensures
        match toml_shape(*v) {
            TomlShape::Integer(n) => r == Some(n),
            _ => r is None,
        },
;

/// `toml::Value::as_array` gives the items of an array.
pub assume_specification[ toml::Value::as_array ](v: &toml::Value) -> (r: Option<
    &Vec<toml::Value>,
>)
    ensures
        match toml_shape(*v) {
            TomlShape::Array(s) => r matches Some(items) && items@ == s,
            _ => r is None,
        },
;

/// `toml::Value::is_table` tells a table apart.
pub assume_specification[ toml::Value::is_table ](v: &toml::Value) -> (r: bool)
    ensures
        r == (toml_shape(*v) is Table),
;

/// What an error says for a person to read.
pub uninterp spec fn toml_error_words(e: toml::de::Error) -> Seq<char>;

/// `to_string` of a `toml::de::Error`: the text depends on the error alone.
/// Nothing is promised of its wording.
#[verifier::external_body]
pub(crate) fn toml_error_text(e: &toml::de::Error) -> (r: String)
    ensures
        r@ == toml_error_words(*e),
{
    e.to_string()
}

} // verus!
