use vstd::prelude::*;

use crate::lex::{as_alias, p_as_alias, p_identifier, sql_identifier};

verus! {

/// A referenced relation.
#[derive(Clone, Debug, Hash, PartialEq, Eq, Default)]
pub struct Table {
    pub name: String,
    pub alias: Option<String>,
}

pub struct TableView {
    pub name: Seq<char>,
    pub alias: Option<Seq<char>>,
}

/// The text of an optional string.
pub open spec fn opt_text(o: Option<String>) -> Option<Seq<char>> {
    match o {
        Some(t) => Some(t@),
        None => None,
    }
}

impl View for Table {
    type V = TableView;

    open spec fn view(&self) -> TableView {
        TableView { name: self.name@, alias: opt_text(self.alias) }
    }
}

impl Table {
    /// A table of the given name, without alias.
    pub fn named(name: &str) -> (r: Table)
        ensures
            r@ == (TableView { name: name@, alias: None }),
    {
        Table { name: String::from_str(name), alias: None }
    }
}

/// Table reference at `p`: an identifier and an optional `AS` alias.
pub open spec fn p_table_reference(s: Seq<u8>, p: int) -> Option<(TableView, int)> {
    match p_identifier(s, p) {
        Some((n, e)) => match p_as_alias(s, e) {
            Some((a, e2)) => Some((TableView { name: n, alias: Some(a) }, e2)),
            None => Some((TableView { name: n, alias: None }, e)),
        },
        None => None,
    }
}

/// Parses a reference to a named table.
pub fn table_reference(s: &[u8], p: usize) -> (r: Option<(Table, usize)>)
    ensures
        r is None <==> p_table_reference(s@, p as int) is None,
        r matches Some((t, e)) ==> p_table_reference(s@, p as int) == Some((t@, e as int)),
        r matches Some((t, e)) ==> p < e <= s@.len(),
{
    match sql_identifier(s, p) {
        Some((n, e)) => match as_alias(s, e) {
            Some((a, e2)) => Some((Table { name: n, alias: Some(a) }, e2)),
            None => Some((Table { name: n, alias: None }, e)),
        },
        None => None,
    }
}

} // verus!
