//! YAML documents as `serde_yaml` reads them.

use vstd::prelude::*;

verus! {

#[verifier::external_type_specification]
#[verifier::external_body]
pub struct ExYamlValue(serde_yaml::Value);

#[verifier::external_type_specification]
#[verifier::external_body]
pub struct ExYamlError(serde_yaml::Error);

/// One level of a document, seen through any tags.
#[verifier::ext_equal]
pub enum YamlShape {
    Null,
    Bool(bool),
    Integer(int),
    Float,
    Text(Seq<char>),
    Sequence(Seq<serde_yaml::Value>),
    /// The entries whose key is a text.
    Mapping(Map<Seq<char>, serde_yaml::Value>),
}

/// What a value holds.
pub uninterp spec fn yaml_shape(v: serde_yaml::Value) -> YamlShape;

/// What reading a text gives: the document that it stands for, or what is wrong with
/// it.
pub uninterp spec fn yaml_parsed(text: Seq<char>) -> Result<serde_yaml::Value, serde_yaml::Error>;

/// The document that a text stands for, `None` where it is not YAML.
pub open spec fn yaml_document(text: Seq<char>) -> Option<serde_yaml::Value> {
    match yaml_parsed(text) {
        Ok(v) => Some(v),
        Err(_) => None,
    }
}

/// `serde_yaml::from_str` into a `serde_yaml::Value`: whether it succeeds, the value
/// and the error depend on the text alone.
#[verifier::external_body]
pub(crate) fn parse_yaml(text: &str) -> (r: Result<serde_yaml::Value, serde_yaml::Error>)
    ensures
        r == yaml_parsed(text@),
{
    serde_yaml::from_str(text)
}

/// `serde_yaml::Value::get` with a text: the value under that key where the
/// value is a mapping that has it, `None` otherwise.
#[verifier::external_body]
pub(crate) fn yaml_field<'a>(v: &'a serde_yaml::Value, key: &str) -> (r: Option<
    &'a serde_yaml::Value,
>)
    ensures
        r == (match yaml_shape(*v) {
            YamlShape::Mapping(m) => if m.contains_key(key@) {
                Some(&m[key@])
            } else {
                None
            },
            _ => None,
        }),
{
    v.get(key)
}

/// `serde_yaml::Value::as_sequence` gives the items of a sequence.
pub assume_specification[ serde_yaml::Value::as_sequence ](v: &serde_yaml::Value) -> (r: Option<
    &Vec<serde_yaml::Value>,
>)
    ensures
        match yaml_shape(*v) {
            YamlShape::Sequence(s) => r matches Some(items) && items@ == s,
            _ => r is None,
        },
;

/// `serde_yaml::Value::as_str` gives the characters of a text.
pub assume_specification[ serde_yaml::Value::as_str ](v: &serde_yaml::Value) -> (r: Option<&str>)
    ensures
        match yaml_shape(*v) {
            YamlShape::Text(s) => r matches Some(t) && t@ == s,
            _ => r is None,
        },
;

/// `serde_yaml::Value::as_u64` gives an integer that is not negative. No YAML
/// integer is greater than 64 bits hold.
pub assume_specification[ serde_yaml::Value::as_u64 ](v: &serde_yaml::Value) -> (r: Option<u64>)
    ensures
        match yaml_shape(*v) {
            YamlShape::Integer(n) => n >= 0 <==> r is Some,
            _ => r is None,
        },
        r matches Some(x) ==> yaml_shape(*v) == YamlShape::Integer(x as int),
;

/// `serde_yaml::Value::as_i64` gives an integer that fits.
pub assume_specification[ serde_yaml::Value::as_i64 ](v: &serde_yaml::Value) -> (r: Option<i64>)
    ensures
        match yaml_shape(*v) {
            YamlShape::Integer(n) => n <= i64::MAX <==> r is Some,
            _ => r is None,
        },
        r matches Some(x) ==> yaml_shape(*v) == YamlShape::Integer(x as int),
;

/// `serde_yaml::Value::as_bool` gives a truth value.
pub assume_specification[ serde_yaml::Value::as_bool ](v: &serde_yaml::Value) -> (r: Option<bool>)
    ensures
        match yaml_shape(*v) {
            YamlShape::Bool(b) => r == Some(b),
            _ => r is None,
        },
;

/// A number as it is written out, `None` for what is no number.
pub uninterp spec fn number_words(v: serde_yaml::Value) -> Option<Seq<char>>;

/// `to_string` of the `serde_yaml::Number` that a value without a tag is: the text
/// depends on the number alone, and what is no number has none. Nothing is promised of
/// how a fraction is spelled.
#[verifier::external_body]
pub(crate) fn number_text(v: &serde_yaml::Value) -> (r: Option<String>)
    ensures
        crate::session_info::opt_view(r) == number_words(*v),
        r is Some ==> yaml_shape(*v) is Integer || yaml_shape(*v) is Float,
{
    match v {
        serde_yaml::Value::Number(n) => Some(n.to_string()),
        _ => None,
    }
}

/// `serde_yaml::Value::is_null` tells a null apart.
pub assume_specification[ serde_yaml::Value::is_null ](v: &serde_yaml::Value) -> (r: bool)
    ensures
        r == (yaml_shape(*v) is Null),
;

} // verus!
