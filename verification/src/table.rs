//! Configuration tables: the key-to-value mappings that a configuration
//! source hands to the merge engine of the `config` crate.
//!
//! The library builds tables and never looks inside one. What a table or a
//! value holds is told by two views, `table_view` and `value_view`. Nothing is
//! proved of them: the wrappers below say what each call into `config` does to
//! them, and the rest of the library reasons from that.

use config::Value;
use vstd::prelude::*;

verus! {

/// `config::Value`, carried through without looking inside.
#[verifier::external_type_specification]
#[verifier::external_body]
pub struct ExValue(config::Value);

/// A table of configuration values, keyed by name.
pub type Table = config::Map<String, Value>;

/// What a configuration value is, as far as this library builds values.
pub enum Kind {
    /// A string of text.
    Text(Seq<char>),
    /// A nested table.
    Table(Map<Seq<char>, Setting>),
    /// Any other kind of value.
    Other,
}

/// The view of a configuration value: where it came from, and what it is.
pub struct Setting {
    pub origin: Option<Seq<char>>,
    pub kind: Kind,
}

/// The view of a `config::Value`.
pub uninterp spec fn value_view(v: Value) -> Setting;

/// The entries of a table, each key by its characters and each value by its
/// view.
pub uninterp spec fn table_view(t: Table) -> Map<Seq<char>, Setting>;

/// The view of a text value that has no recorded origin.
pub open spec fn text_setting(text: Seq<char>) -> Setting {
    Setting { origin: None, kind: Kind::Text(text) }
}

/// The view of a table value that has no recorded origin.
pub open spec fn table_setting(entries: Map<Seq<char>, Setting>) -> Setting {
    Setting { origin: None, kind: Kind::Table(entries) }
}

/// `HashMap::new`, by its name `config::Map`: a table with no entry.
#[verifier::external_body]
pub(crate) fn table_new() -> (t: Table)
    ensures
        table_view(t) == (Map::<Seq<char>, Setting>::empty()),
{
    config::Map::new()
}

/// `HashMap::insert`, on a `config::Map`: the table afterwards holds the value
/// under the key, in place of what that key had before, and every other entry
/// as it was.
#[verifier::external_body]
pub(crate) fn table_insert(t: &mut Table, key: &str, value: Value)
    ensures
        table_view(*final(t)) == table_view(*old(t)).insert(key@, value_view(value)),
{
    t.insert(key.to_string(), value);
}

/// `config::Value::new` with no origin, on a string slice: a text value with
/// that text.
#[verifier::external_body]
pub(crate) fn value_from_text(text: &str) -> (v: Value)
    ensures
        value_view(v) == text_setting(text@),
{
    Value::new(None, text)
}

/// `config::Value::new` with no origin, on a table: a table value with the
/// entries of that table.
#[verifier::external_body]
pub(crate) fn value_from_table(table: Table) -> (v: Value)
    ensures
        value_view(v) == table_setting(table_view(table)),
{
    Value::new(None, table)
}

/// Puts a text value under a key of a table, in place of what the key had.
pub fn insert_text(table: &mut Table, key: &str, text: &str)
    ensures
        table_view(*final(table)) == table_view(*old(table)).insert(key@, text_setting(text@)),
{
    table_insert(table, key, value_from_text(text));
}

/// Puts a nested table under a key of a table, in place of what the key had.
pub fn insert_table(table: &mut Table, key: &str, nested: Table)
    ensures
        table_view(*final(table)) == table_view(*old(table)).insert(
            key@,
            table_setting(table_view(nested)),
        ),
{
    table_insert(table, key, value_from_table(nested));
}

} // verus!
