//! TOML documents, as far as the repository settings are read from them.
//!
//! Nothing in this file is proved. Each function below makes one call into
//! `toml` and gives what the call returns a name. A value stands here for
//! what can be read from it.

use vstd::prelude::*;

verus! {

#[verifier::external_type_specification]
#[verifier::external_body]
pub struct ExValue(toml::Value);

/// What `toml::from_str` makes of a text: the document, or what its error
/// says went wrong.
pub uninterp spec fn toml_document(text: Seq<char>) -> Result<toml::Value, Seq<char>>;

/// The value that `Value::get` finds under a key.
pub uninterp spec fn value_entry(value: toml::Value, key: Seq<char>) -> Option<toml::Value>;

/// The text that `Value::as_str` finds in a value.
pub uninterp spec fn value_string(value: toml::Value) -> Option<Seq<char>>;

/// `toml::from_str`, which reads a text as a TOML document. Its error is
/// handed on as the text of its `message`.
#[verifier::external_body]
pub(crate) fn parse_document(text: &str) -> (outcome: Result<toml::Value, String>)
    ensures
        match outcome {
            Ok(document) => toml_document(text@) == Ok::<toml::Value, Seq<char>>(document),
            Err(message) => toml_document(text@) == Err::<toml::Value, Seq<char>>(message@),
        },
{
    toml::from_str::<toml::Value>(text).map_err(|fault| fault.message().to_owned())
}

/// `Value::get` with a key: the entry of a table under that key.
#[verifier::external_body]
pub(crate) fn entry<'a>(value: &'a toml::Value, key: &str) -> (found: Option<&'a toml::Value>)
    ensures
        match found {
            Some(inner) => value_entry(*value, key@) == Some(*inner),
            None => value_entry(*value, key@) is None,
        },
{
    value.get(key)
}

/// `Value::as_str`: the text of a value that is a string.
#[verifier::external_body]
pub(crate) fn string_of(value: &toml::Value) -> (found: Option<&str>)
    ensures
        match found {
            Some(text) => value_string(*value) == Some(text@),
            None => value_string(*value) is None,
        },
{
    value.as_str()
}

} // verus!
