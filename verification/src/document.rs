//! The configuration document as the TOML parser sees it.
//!
//! Parsing is done by the `toml` crate. This module declares the parser's
//! types, names what the parser returns, and states what its calls are
//! trusted to do. Nothing in here is proved; everything built on it is.

use vstd::prelude::*;

verus! {

/// `toml::map::Map`, the parser's table type; `toml::Table` is this map from
/// `String` to `toml::Value`.
#[verifier::external_type_specification]
#[verifier::external_body]
#[verifier::reject_recursive_types(K)]
#[verifier::reject_recursive_types(V)]
pub struct ExTable<K, V>(toml::map::Map<K, V>);

/// `toml::Value`, one value of a document.
#[verifier::external_type_specification]
#[verifier::external_body]
pub struct ExValue(toml::Value);

/// What `toml::from_str` makes of a document's text: the top-level entries of
/// the table it parses to, or the message of the error it reports. An entry
/// maps a key to the text of its value where the value is a string, and to
/// `None` where it is of any other type.
pub uninterp spec fn toml_document(text: Seq<char>) -> Result<
    Map<Seq<char>, Option<Seq<char>>>,
    Seq<char>,
>;

/// The top-level entries of a parsed table: each key with the text of its
/// value where the value is a string, and with `None` where it is of any
/// other type.
pub uninterp spec fn table_entries(table: toml::Table) -> Map<Seq<char>, Option<Seq<char>>>;

/// What a document holds under one key.
#[derive(Debug, PartialEq, Eq)]
pub enum Field {
    /// The document has no such key.
    Absent,
    /// The key's value is not a string.
    NotText,
    /// The key's value is this string.
    Text(String),
}

impl View for Field {
    type V = Option<Option<Seq<char>>>;

    open spec fn view(&self) -> Option<Option<Seq<char>>> {
        match self {
            Field::Absent => None,
            Field::NotText => Some(None),
            Field::Text(text) => Some(Some(text@)),
        }
    }
}

/// Calls `toml::from_str` to parse `text` into a table, and on failure
/// `toml::de::Error::message` to copy the error's message out.
///
/// Trusted: the outcome depends on `text` alone. It is a table exactly when
/// `toml_document` gives entries for `text`, and those are the table's
/// entries; else it is the message that `toml_document` gives.
#[verifier::external_body]
pub(crate) fn parse_document(text: &str) -> (parsed: Result<toml::Table, String>)
    ensures
        match parsed {
            Ok(table) => toml_document(text@) == Ok::<_, Seq<char>>(table_entries(table)),
            Err(message) => toml_document(text@) == Err::<Map<Seq<char>, Option<Seq<char>>>, _>(
                message@,
            ),
        },
{
    match toml::from_str::<toml::Table>(text) {
        Ok(table) => Ok(table),
        Err(error) => Err(error.message().to_string()),
    }
}

/// Calls `toml::map::Map::get` to look `key` up among the top-level entries of
/// `table`, and copies the value's text out where the value is a string.
///
/// Trusted: the result is the table's entry for `key`.
#[verifier::external_body]
pub(crate) fn lookup(table: &toml::Table, key: &str) -> (field: Field)
    ensures
        field@ == table_entries(*table).get(key@),
{
    match table.get(key) {
        None => Field::Absent,
        Some(toml::Value::String(text)) => Field::Text(text.clone()),
        Some(_) => Field::NotText,
    }
}

} // verus!
