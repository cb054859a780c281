//! The TOML parser that config files go through, behind trusted items.
use vstd::prelude::*;
use std::str::FromStr;

verus! {

#[verifier::external_type_specification]
#[verifier::external_body]
#[verifier::reject_recursive_types(K)]
#[verifier::reject_recursive_types(V)]
pub struct ExTomlMap<K, V>(toml::map::Map<K, V>);

#[verifier::external_type_specification]
#[verifier::external_body]
pub struct ExTomlValue(toml::Value);

#[verifier::external_type_specification]
#[verifier::external_body]
pub struct ExTomlError(toml::de::Error);

/// The string-valued top-level keys of the TOML document `text`, each with its
/// value; `None` where `text` is not a TOML document.
pub uninterp spec fn toml_strings(text: Seq<char>) -> Option<Map<Seq<char>, Seq<char>>>;

/// The string-valued entries of a parsed table, each with its value.
pub uninterp spec fn table_strings(t: toml::Table) -> Map<Seq<char>, Seq<char>>;

/// Relies on `<toml::Table as FromStr>::from_str`: it returns a table exactly
/// when `text` is a TOML document, and the table holds that document's keys.
#[verifier::external_body]
pub(crate) fn parse_table(text: &str) -> (r: Result<toml::Table, toml::de::Error>)
    ensures
        match r {
            Ok(t) => toml_strings(text@) == Some(table_strings(t)),
            Err(_) => toml_strings(text@) is None,
        },
{
    toml::Table::from_str(text)
}

/// Relies on `toml::map::Map::get`: the value stored under `key`, kept here
/// only where it is a string.
#[verifier::external_body]
pub(crate) fn table_string(t: &toml::Table, key: &str) -> (r: Option<String>)
    ensures
        r is Some <==> table_strings(*t).contains_key(key@),
        r is Some ==> r->0@ == table_strings(*t)[key@],
{
    match t.get(key) {
        Some(toml::Value::String(s)) => Some(s.clone()),
        _ => None,
    }
}

/// Relies on `Display` for `toml::de::Error`: a message that says what is
/// wrong with the document and where.
#[verifier::external_body]
pub(crate) fn parse_error_message(e: &toml::de::Error) -> (r: String) {
    e.to_string()
}

} // verus!
