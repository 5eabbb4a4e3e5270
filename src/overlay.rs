//! The per-run configuration document: a base TOML document with its
//! `timeout` entry replaced when the run asks for one.
use vstd::prelude::*;
use crate::plan::opt_view;

verus! {

#[verifier::external_type_specification]
#[verifier::external_body]
#[verifier::reject_recursive_types(K)]
#[verifier::reject_recursive_types(V)]
pub struct ExTomlMap<K, V>(toml::map::Map<K, V>);

#[verifier::external_type_specification]
#[verifier::external_body]
pub struct ExTomlValue(toml::Value);

#[verifier::external_type_specification]
#[verifier::external_body]
pub struct ExTomlDeError(toml::de::Error);

#[verifier::external_type_specification]
#[verifier::external_body]
pub struct ExTomlSerError(toml::ser::Error);

/// What a TOML table holds: each key with its value.
pub uninterp spec fn table_entries(t: toml::Table) -> Map<Seq<char>, toml::Value>;

/// The entries `toml::from_str` reads from a document, or `None` where it
/// refuses the text.
pub uninterp spec fn parsed_document(text: Seq<char>) -> Option<Map<Seq<char>, toml::Value>>;

/// The text `toml::to_string` writes for a table with these entries, or
/// `None` where it refuses them.
pub uninterp spec fn rendered_document(entries: Map<Seq<char>, toml::Value>) -> Option<Seq<char>>;

/// The TOML string value holding these characters.
pub uninterp spec fn string_value(s: Seq<char>) -> toml::Value;

/// Relies on `toml::from_str` into a `toml::Table`: what it reads, or whether
/// it refuses, depends on the text alone.
#[verifier::external_body]
fn parse_document(text: &str) -> (r: Result<toml::Table, toml::de::Error>)
    ensures
        match r {
            Ok(t) => parsed_document(text@) == Some(table_entries(t)),
            Err(_) => parsed_document(text@) is None,
        },
{
    toml::from_str::<toml::Table>(text)
}

/// Relies on `toml::map::Map::insert` with a `toml::Value::String`: the key
/// then holds that string, and every other entry stays as it was.
#[verifier::external_body]
fn set_string(table: &mut toml::Table, key: String, value: String)
    ensures
        table_entries(*final(table)) == table_entries(*old(table)).insert(key@, string_value(value@)),
{
    table.insert(key, toml::Value::String(value));
}

/// Relies on `toml::to_string` on a `toml::Table`: the table walks its
/// entries in key order, so the text depends on the entries alone.
#[verifier::external_body]
fn render_document(table: &toml::Table) -> (r: Result<String, toml::ser::Error>)
    ensures
        match r {
            Ok(s) => rendered_document(table_entries(*table)) == Some(s@),
            Err(_) => rendered_document(table_entries(*table)) is None,
        },
{
    toml::to_string(table)
}

/// Why a run's configuration could not be produced.
#[derive(Debug)]
pub enum ConfigError {
    /// The base document could not be read; the message says why.
    Read(String),
    /// The base document is not TOML.
    Parse(toml::de::Error),
    /// The overlay could not be written as TOML.
    Serialize(toml::ser::Error),
}

/// The entries of the overlay: those of the base, with `timeout` set to the
/// override when there is one.
pub open spec fn overlaid(
    entries: Map<Seq<char>, toml::Value>,
    timeout: Option<Seq<char>>,
) -> Map<Seq<char>, toml::Value> {
    match timeout {
        Some(t) => entries.insert("timeout"@, string_value(t)),
        None => entries,
    }
}

/// Sets the document's `timeout` to the override, if there is one.
pub fn apply_timeout(table: &mut toml::Table, timeout: &Option<String>)
    ensures
        table_entries(*final(table)) == overlaid(table_entries(*old(table)), opt_view(*timeout)),
{
    match timeout {
        Some(t) => set_string(table, String::from_str("timeout"), t.clone()),
        None => {},
    }
}

/// The text of a run's configuration: the base document read, its
/// `timeout` overridden when asked, and written out again.
pub fn overlay_config(base: &str, timeout: &Option<String>) -> (r: Result<String, ConfigError>)
    ensures
        match parsed_document(base@) {
            None => r matches Err(ConfigError::Parse(_)),
            Some(entries) => match rendered_document(overlaid(entries, opt_view(*timeout))) {
                Some(text) => r matches Ok(s) && s@ == text,
                None => r matches Err(ConfigError::Serialize(_)),
            },
        },
{
    match parse_document(base) {
        Err(e) => Err(ConfigError::Parse(e)),
        Ok(table) => {
            let mut table = table;
            apply_timeout(&mut table, timeout);
            match render_document(&table) {
                Ok(text) => Ok(text),
                Err(e) => Err(ConfigError::Serialize(e)),
            }
        },
    }
}

/// The overlay touches nothing but `timeout`: without an override it holds
/// exactly the base entries; with one, every other entry keeps its value and
/// `timeout` holds the override.
pub proof fn lemma_overlay_only_timeout(
    entries: Map<Seq<char>, toml::Value>,
    timeout: Option<Seq<char>>,
)
    ensures
        timeout is None ==> overlaid(entries, timeout) == entries,
        timeout matches Some(t) ==> {
            &&& overlaid(entries, timeout).dom() == entries.dom().insert("timeout"@)
            &&& overlaid(entries, timeout)["timeout"@] == string_value(t)
            &&& forall|k: Seq<char>| #[trigger] entries.contains_key(k) && k != "timeout"@
                ==> overlaid(entries, timeout)[k] == entries[k]
        },
{
}

} // verus!
