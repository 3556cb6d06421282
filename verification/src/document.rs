//! TOML documents as the `toml` crate parses them.
//!
//! Nothing in this file is proved: it states what the parser and the
//! accessors of `toml` are taken to do, over a mathematical picture of a
//! document. Everything the library concludes about manifests rests on it.

use vstd::prelude::*;

verus! {

/// What a TOML value is to this library: a string with its text, a table
/// with its entries, or something else.
pub enum Item {
    Text(Seq<char>),
    Table(Map<Seq<char>, Item>),
    Other,
}

/// `toml::Value`, carried through as it is.
#[verifier::external_type_specification]
#[verifier::external_body]
pub struct ExValue(toml::Value);

/// `toml::map::Map`, of which `toml::Table` is the instance with `String`
/// keys and `toml::Value` values.
#[verifier::external_type_specification]
#[verifier::external_body]
#[verifier::reject_recursive_types(K)]
#[verifier::reject_recursive_types(V)]
pub struct ExMap<K, V>(toml::map::Map<K, V>);

/// `toml::de::Error`, carried through as it is.
#[verifier::external_type_specification]
#[verifier::external_body]
pub struct ExParseError(toml::de::Error);

/// The top-level table that `toml` reads from `text`, or `None` where it
/// rejects the text.
pub uninterp spec fn parsed(text: Seq<char>) -> Option<Map<Seq<char>, Item>>;

/// The entries of a table, by key.
pub uninterp spec fn entries(table: toml::Table) -> Map<Seq<char>, Item>;

/// The picture of a single value.
pub uninterp spec fn item(value: toml::Value) -> Item;

/// `<toml::Table as FromStr>::from_str`: parsing depends on the text alone,
/// and the table handed back holds what `parsed` names.
#[verifier::external_body]
pub(crate) fn parse(text: &str) -> (outcome: Result<toml::Table, toml::de::Error>)
    ensures
        match outcome {
            Ok(table) => parsed(text@) == Some(entries(table)),
            Err(_) => parsed(text@) is None,
        },
{
    text.parse::<toml::Table>()
}

/// `toml::map::Map::get`: the value stored under `key`, if the table has
/// that key.
#[verifier::external_body]
pub(crate) fn table_get<'a>(table: &'a toml::Table, key: &str) -> (found: Option<&'a toml::Value>)
    ensures
        match found {
            Some(value) => entries(*table).contains_key(key@) && entries(*table)[key@] == item(
                *value,
            ),
            None => !entries(*table).contains_key(key@),
        },
{
    table.get(key)
}

/// `toml::Value::get` with a string index: the value stored under `key`
/// where `value` is a table that has the key, and `None` for every other
/// value.
#[verifier::external_body]
pub(crate) fn value_get<'a>(value: &'a toml::Value, key: &str) -> (found: Option<&'a toml::Value>)
    ensures
        match found {
            Some(inner) => item(*value) matches Item::Table(map) && map.contains_key(key@)
                && map[key@] == item(*inner),
            None => item(*value) matches Item::Table(map) ==> !map.contains_key(key@),
        },
{
    value.get(key)
}

/// `toml::Value::as_str`: the text of a string value, `None` for any other.
#[verifier::external_body]
pub(crate) fn value_as_str<'a>(value: &'a toml::Value) -> (text: Option<&'a str>)
    ensures
        match text {
            Some(s) => item(*value) == Item::Text(s@),
            None => !(item(*value) is Text),
        },
{
    value.as_str()
}

} // verus!
