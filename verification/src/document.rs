//! Table documents: the TOML text of a configuration, read by the `toml`
//! crate and kept as a tree of plain values.

use vstd::prelude::*;
use crate::text::same_text;

verus! {

/// A value of a table document, as far as a configuration reads it.
#[derive(Debug, PartialEq, Eq)]
pub enum Item {
    /// A string.
    Text(String),
    /// A boolean.
    Flag(bool),
    /// An array.
    List(Vec<Item>),
    /// A table: its keys with their values. Where a key stands twice, the
    /// first counts.
    Table(Vec<(String, Item)>),
    /// A number or a date.
    Other,
}

/// `toml::Value`, a value of a parsed document. Nothing of what it holds is
/// known here.
#[verifier::external_type_specification]
#[verifier::external_body]
pub struct ExTomlValue(toml::Value);

/// The tree of the TOML document that `text` writes, `None` where `text` is
/// no TOML document.
pub uninterp spec fn toml_document(text: Seq<char>) -> Option<Item>;

/// `toml::from_str`, asked for a `toml::Value`, parses a whole document. The
/// contract names what it returns, an error taken as `None`; of the tree
/// itself it claims nothing.
#[verifier::external_body]
pub(crate) fn parse_document(text: &str) -> (r: Option<Item>)
    ensures
        r == toml_document(text@),
{
    match toml::from_str::<toml::Value>(text) {
        Ok(value) => Some(item_of(&value)),
        Err(_) => None,
    }
}

/// Tells the variants of `toml::Value` apart and moves what each holds into
/// an `Item`, arrays and tables entry by entry. The contract claims nothing.
#[verifier::external_body]
fn item_of(value: &toml::Value) -> Item {
    match value {
        toml::Value::String(s) => Item::Text(s.clone()),
        toml::Value::Boolean(b) => Item::Flag(*b),
        toml::Value::Array(a) => Item::List(a.iter().map(item_of).collect()),
        toml::Value::Table(t) => Item::Table(
            t.iter().map(|(k, v)| (k.clone(), item_of(v))).collect(),
        ),
        toml::Value::Integer(_) | toml::Value::Float(_) | toml::Value::Datetime(_) => Item::Other,
    }
}

/// The value of the first entry under `key`.
pub open spec fn lookup(entries: Seq<(String, Item)>, key: Seq<char>) -> Option<Item>
    decreases entries.len(),
{
    if entries.len() == 0 {
        None
    } else if entries[0].0@ == key {
        Some(entries[0].1)
    } else {
        lookup(entries.skip(1), key)
    }
}

impl Item {
    /// The value under `key` where this is a table that has the key.
    pub open spec fn field(self, key: Seq<char>) -> Option<Item> {
        match self {
            Item::Table(entries) => lookup(entries@, key),
            _ => None,
        }
    }

    /// The value under `key` where this is a table that has the key.
    pub fn get(&self, key: &str) -> (r: Option<&Item>)
        ensures
            match r {
                Some(item) => self.field(key@) == Some(*item),
                None => self.field(key@) is None,
            },
    {
        match self {
            Item::Table(entries) => {
                let mut i: usize = 0;
                assert(entries@.skip(0) =~= entries@);
                while i < entries.len()
                    invariant
                        i <= entries.len(),
                        self.field(key@) == lookup(entries@, key@),
                        lookup(entries@, key@) == lookup(entries@.skip(i as int), key@),
                    decreases entries.len() - i,
                {
                    assert(entries@.skip(i as int).skip(1) =~= entries@.skip(i as int + 1));
                    if same_text(entries[i].0.as_str(), key) {
                        return Some(&entries[i].1);
                    }
                    i = i + 1;
                }
                None
            },
            _ => None,
        }
    }
}

} // verus!
