use vstd::prelude::*;
use vstd::string::*;

use crate::column::{
    column_identifier_no_alias, columns_view, lemma_columns_view_push_front, p_column_no_alias,
    Column, ColumnView,
};
use crate::common::first_of;
use crate::lex::{
    byte_at, byte_is, opt_comma, p_identifier, p_space, p_tag, skip_comma, skip_ws, space, span,
    span_end, sql_identifier, tag, ws, ByteClass,
};

verus! {

/// Index and constraint clauses of a table, each on a non-empty list of columns.
#[derive(Debug, Hash, PartialEq, Eq)]
pub enum TableKey {
    PrimaryKey(Vec<Column>),
    UniqueKey(Option<String>, Vec<Column>),
    FulltextKey(Option<String>, Vec<Column>),
    Key(String, Vec<Column>),
}

pub enum TableKeyView {
    PrimaryKey(Seq<ColumnView>),
    UniqueKey(Option<Seq<char>>, Seq<ColumnView>),
    FulltextKey(Option<Seq<char>>, Seq<ColumnView>),
    Key(Seq<char>, Seq<ColumnView>),
}

impl View for TableKey {
    type V = TableKeyView;

    open spec fn view(&self) -> TableKeyView {
        match self {
            TableKey::PrimaryKey(c) => TableKeyView::PrimaryKey(columns_view(c@)),
            TableKey::UniqueKey(n, c) => TableKeyView::UniqueKey(crate::table::opt_text(*n), columns_view(c@)),
            TableKey::FulltextKey(n, c) => TableKeyView::FulltextKey(crate::table::opt_text(*n), columns_view(c@)),
            TableKey::Key(n, c) => TableKeyView::Key(n@, columns_view(c@)),
        }
    }
}

/// Index column: a column without alias, optional whitespace, an optional
/// prefix length `(n)` and an optional `ASC` or `DESC`; length and order are
/// read and dropped.
pub open spec fn p_index_col(s: Seq<u8>, p: int) -> Option<(ColumnView, int)> {
    match p_column_no_alias(s, p) {
        Some((c, e)) => {
            let q = ws(s, e);
            let d = span_end(s, q + 1, ByteClass::Digit);
            let q2 = if byte_at(s, q, 40) && d > q + 1 && byte_at(s, d, 41) {
                d + 1
            } else {
                q
            };
            let q3 = ws(s, q2);
            let q4 = match p_tag(s, q3, "desc".spec_bytes()) {
                Some(e4) => e4,
                None => match p_tag(s, q3, "asc".spec_bytes()) {
                    Some(e4) => e4,
                    None => q2,
                },
            };
            Some((c, q4))
        },
        None => None,
    }
}

fn index_col(s: &[u8], p: usize) -> (r: Option<(Column, usize)>)
    ensures
        r is None <==> p_index_col(s@, p as int) is None,
        r matches Some((c, e)) ==> p_index_col(s@, p as int) == Some((c@, e as int)),
        r matches Some((c, e)) ==> p < e <= s@.len(),
{
    match column_identifier_no_alias(s, p) {
        Some((c, e)) => {
            let q = skip_ws(s, e);
            let mut q2 = q;
            if byte_is(s, q, 40) {
                let d = span(s, q + 1, ByteClass::Digit);
                if d > q + 1 && byte_is(s, d, 41) {
                    q2 = d + 1;
                }
            }
            let q3 = skip_ws(s, q2);
            let q4 = match tag(s, q3, "desc") {
                Some(e4) => e4,
                None => match tag(s, q3, "asc") {
                    Some(e4) => e4,
                    None => q2,
                },
            };
            Some((c, q4))
        },
        None => None,
    }
}

/// Zero or more index columns with comma separators.
pub open spec fn p_index_cols(s: Seq<u8>, p: int) -> (Seq<ColumnView>, int)
    decreases s.len() - p,
{
    match p_index_col(s, p) {
        Some((c, e)) => {
            let q = opt_comma(s, e);
            if p < q <= s.len() {
                let (rest, e2) = p_index_cols(s, q);
                (seq![c] + rest, e2)
            } else {
                (seq![c], e)
            }
        },
        None => (Seq::empty(), p),
    }
}

/// Parses a list of index columns.
pub fn index_col_list(s: &[u8], p: usize) -> (r: (Vec<Column>, usize))
    ensures
        (columns_view(r.0@), r.1 as int) == p_index_cols(s@, p as int),
        p <= s@.len() ==> p <= r.1 <= s@.len(),
    decreases s@.len() - p,
{
    match index_col(s, p) {
        Some((c, e)) => {
            let q = skip_comma(s, e);
            if p < q {
                let (mut rest, e2) = index_col_list(s, q);
                let ghost old_rest = rest@;
                rest.insert(0, c);
                proof {
                    assert(rest@ =~= seq![c] + old_rest);
                    lemma_columns_view_push_front(c, old_rest);
                }
                (rest, e2)
            } else {
                let mut v = Vec::new();
                v.push(c);
                proof {
                    assert(v@ =~= seq![c] + Seq::<Column>::empty());
                    lemma_columns_view_push_front(c, Seq::empty());
                    assert(columns_view(v@) =~= seq![c@]);
                }
                (v, e)
            }
        },
        None => {
            let v = Vec::new();
            assert(columns_view(v@) =~= Seq::empty());
            (v, p)
        },
    }
}

/// `( cols )` with optional whitespace inside; at least one column.
pub open spec fn p_key_columns(s: Seq<u8>, p: int) -> Option<(Seq<ColumnView>, int)> {
    if byte_at(s, p, 40) {
        let (l, e) = p_index_cols(s, ws(s, p + 1));
        let q = ws(s, e);
        if l.len() > 0 && byte_at(s, q, 41) {
            Some((l, q + 1))
        } else {
            None
        }
    } else {
        None
    }
}

fn key_columns(s: &[u8], p: usize) -> (r: Option<(Vec<Column>, usize)>)
    ensures
        r is None <==> p_key_columns(s@, p as int) is None,
        r matches Some((l, e)) ==> p_key_columns(s@, p as int) == Some((columns_view(l@), e as int)),
        r matches Some((l, e)) ==> p < e <= s@.len(),
{
    if byte_is(s, p, 40) {
        let (l, e) = index_col_list(s, skip_ws(s, p + 1));
        let q = skip_ws(s, e);
        proof {
            crate::column::lemma_columns_view(l@);
        }
        if l.len() > 0 && byte_is(s, q, 41) {
            Some((l, q + 1))
        } else {
            None
        }
    } else {
        None
    }
}

/// `KEY` or `INDEX`, any case.
pub open spec fn p_key_word(s: Seq<u8>, p: int) -> Option<int> {
    match p_tag(s, p, "key".spec_bytes()) {
        Some(e) => Some(e),
        None => p_tag(s, p, "index".spec_bytes()),
    }
}

fn key_word(s: &[u8], p: usize) -> (r: Option<usize>)
    ensures
        crate::lex::pos(r) == p_key_word(s@, p as int),
        r matches Some(e) ==> p <= e <= s@.len(),
{
    match tag(s, p, "key") {
        Some(e) => Some(e),
        None => tag(s, p, "index"),
    }
}

/// An optional key name followed by optional whitespace, then the columns.
pub open spec fn p_named_columns(s: Seq<u8>, p: int) -> Option<(Option<Seq<char>>, Seq<ColumnView>, int)> {
    let (n, q) = match p_identifier(s, p) {
        Some((n, e)) => (Some(n), ws(s, e)),
        None => (None, p),
    };
    match p_key_columns(s, q) {
        Some((l, e)) => Some((n, l, e)),
        None => None,
    }
}

fn named_columns(s: &[u8], p: usize) -> (r: Option<(Option<String>, Vec<Column>, usize)>)
    requires
        p <= s@.len(),
    ensures
        r is None <==> p_named_columns(s@, p as int) is None,
        r matches Some((n, l, e)) ==> p_named_columns(s@, p as int) == Some(
            (crate::table::opt_text(n), columns_view(l@), e as int),
        ),
        r matches Some((n, l, e)) ==> p < e <= s@.len(),
{
    let (n, q) = match sql_identifier(s, p) {
        Some((n, e)) => (Some(n), skip_ws(s, e)),
        None => (None, p),
    };
    match key_columns(s, q) {
        Some((l, e)) => Some((n, l, e)),
        None => None,
    }
}

/// `FULLTEXT {KEY|INDEX} [name] (cols)`.
pub open spec fn p_fulltext_key(s: Seq<u8>, p: int) -> Option<(TableKeyView, int)> {
    match p_tag(s, p, "fulltext".spec_bytes()) {
        Some(e) => match p_space(s, e) {
            Some(q) => match p_key_word(s, q) {
                Some(e2) => match p_named_columns(s, ws(s, e2)) {
                    Some((n, l, e3)) => Some((TableKeyView::FulltextKey(n, l), e3)),
                    None => None,
                },
                None => None,
            },
            None => None,
        },
        None => None,
    }
}

/// `PRIMARY KEY (cols) [AUTOINCREMENT]`.
pub open spec fn p_primary_key(s: Seq<u8>, p: int) -> Option<(TableKeyView, int)> {
    match p_tag(s, p, "primary key".spec_bytes()) {
        Some(e) => match p_key_columns(s, ws(s, e)) {
            Some((l, e2)) => {
                let e3 = match p_space(s, e2) {
                    Some(q) => match p_tag(s, q, "autoincrement".spec_bytes()) {
                        Some(e4) => e4,
                        None => e2,
                    },
                    None => e2,
                };
                Some((TableKeyView::PrimaryKey(l), e3))
            },
            None => None,
        },
        None => None,
    }
}

/// `UNIQUE [KEY|INDEX] [name] (cols)`.
pub open spec fn p_unique_key(s: Seq<u8>, p: int) -> Option<(TableKeyView, int)> {
    match p_tag(s, p, "unique".spec_bytes()) {
        Some(e) => {
            let e2 = match p_space(s, e) {
                Some(q) => match p_key_word(s, q) {
                    Some(e3) => e3,
                    None => e,
                },
                None => e,
            };
            match p_named_columns(s, ws(s, e2)) {
                Some((n, l, e3)) => Some((TableKeyView::UniqueKey(n, l), e3)),
                None => None,
            }
        },
        None => None,
    }
}

/// `{KEY|INDEX} name (cols)`.
pub open spec fn p_plain_key(s: Seq<u8>, p: int) -> Option<(TableKeyView, int)> {
    match p_key_word(s, p) {
        Some(e) => match p_identifier(s, ws(s, e)) {
            Some((n, e2)) => match p_key_columns(s, ws(s, e2)) {
                Some((l, e3)) => Some((TableKeyView::Key(n, l), e3)),
                None => None,
            },
            None => None,
        },
        None => None,
    }
}

/// One key specification; alternatives in this order: fulltext, primary,
/// unique, plain key.
pub open spec fn p_key_spec(s: Seq<u8>, p: int) -> Option<(TableKeyView, int)> {
    first_of(p_fulltext_key(s, p), first_of(p_primary_key(s, p), first_of(p_unique_key(s, p), p_plain_key(s, p))))
}

fn fulltext_key(s: &[u8], p: usize) -> (r: Option<(TableKey, usize)>)
    requires
        p <= s@.len(),
    ensures
        r is None <==> p_fulltext_key(s@, p as int) is None,
        r matches Some((k, e)) ==> p_fulltext_key(s@, p as int) == Some((k@, e as int)),
        r matches Some((k, e)) ==> p < e <= s@.len(),
{
    match tag(s, p, "fulltext") {
        Some(e) => match space(s, e) {
            Some(q) => match key_word(s, q) {
                Some(e2) => match named_columns(s, skip_ws(s, e2)) {
                    Some((n, l, e3)) => Some((TableKey::FulltextKey(n, l), e3)),
                    None => None,
                },
                None => None,
            },
            None => None,
        },
        None => None,
    }
}

fn primary_key(s: &[u8], p: usize) -> (r: Option<(TableKey, usize)>)
    requires
        p <= s@.len(),
    ensures
        r is None <==> p_primary_key(s@, p as int) is None,
        r matches Some((k, e)) ==> p_primary_key(s@, p as int) == Some((k@, e as int)),
        r matches Some((k, e)) ==> p < e <= s@.len(),
{
    match tag(s, p, "primary key") {
        Some(e) => match key_columns(s, skip_ws(s, e)) {
            Some((l, e2)) => {
                let e3 = match space(s, e2) {
                    Some(q) => match tag(s, q, "autoincrement") {
                        Some(e4) => e4,
                        None => e2,
                    },
                    None => e2,
                };
                Some((TableKey::PrimaryKey(l), e3))
            },
            None => None,
        },
        None => None,
    }
}

fn unique_key(s: &[u8], p: usize) -> (r: Option<(TableKey, usize)>)
    requires
        p <= s@.len(),
    ensures
        r is None <==> p_unique_key(s@, p as int) is None,
        r matches Some((k, e)) ==> p_unique_key(s@, p as int) == Some((k@, e as int)),
        r matches Some((k, e)) ==> p < e <= s@.len(),
{
    match tag(s, p, "unique") {
        Some(e) => {
            let e2 = match space(s, e) {
                Some(q) => match key_word(s, q) {
                    Some(e3) => e3,
                    None => e,
                },
                None => e,
            };
            match named_columns(s, skip_ws(s, e2)) {
                Some((n, l, e3)) => Some((TableKey::UniqueKey(n, l), e3)),
                None => None,
            }
        },
        None => None,
    }
}

fn plain_key(s: &[u8], p: usize) -> (r: Option<(TableKey, usize)>)
    requires
        p <= s@.len(),
    ensures
        r is None <==> p_plain_key(s@, p as int) is None,
        r matches Some((k, e)) ==> p_plain_key(s@, p as int) == Some((k@, e as int)),
        r matches Some((k, e)) ==> p < e <= s@.len(),
{
    match key_word(s, p) {
        Some(e) => match sql_identifier(s, skip_ws(s, e)) {
            Some((n, e2)) => match key_columns(s, skip_ws(s, e2)) {
                Some((l, e3)) => Some((TableKey::Key(n, l), e3)),
                None => None,
            },
            None => None,
        },
        None => None,
    }
}

/// Parses one key specification (see `p_key_spec`).
#[verifier::rlimit(40)]
pub fn key_specification(s: &[u8], p: usize) -> (r: Option<(TableKey, usize)>)
    ensures
        r is None <==> p_key_spec(s@, p as int) is None,
        r matches Some((k, e)) ==> p_key_spec(s@, p as int) == Some((k@, e as int)),
        r matches Some((k, e)) ==> p < e <= s@.len(),
{
    if p > s.len() {
        proof {
            assert(p_fulltext_key(s@, p as int) is None);
            assert(p_primary_key(s@, p as int) is None);
            assert(p_unique_key(s@, p as int) is None);
            assert(p_plain_key(s@, p as int) is None);
        }
        return None;
    }
    if let Some(r) = fulltext_key(s, p) {
        return Some(r);
    }
    if let Some(r) = primary_key(s, p) {
        return Some(r);
    }
    if let Some(r) = unique_key(s, p) {
        return Some(r);
    }
    plain_key(s, p)
}

pub open spec fn keys_view(v: Seq<TableKey>) -> Seq<TableKeyView> {
    v.map_values(|k: TableKey| k@)
}

/// Zero or more key specifications with comma separators.
pub open spec fn p_keys(s: Seq<u8>, p: int) -> (Seq<TableKeyView>, int)
    decreases s.len() - p,
{
    match p_key_spec(s, p) {
        Some((k, e)) => {
            let q = opt_comma(s, e);
            if p < q <= s.len() {
                let (rest, e2) = p_keys(s, q);
                (seq![k] + rest, e2)
            } else {
                (seq![k], e)
            }
        },
        None => (Seq::empty(), p),
    }
}

fn keys(s: &[u8], p: usize) -> (r: (Vec<TableKey>, usize))
    ensures
        (keys_view(r.0@), r.1 as int) == p_keys(s@, p as int),
        p <= s@.len() ==> p <= r.1 <= s@.len(),
        r.0@.len() > 0 ==> p < r.1 <= s@.len(),
    decreases s@.len() - p,
{
    match key_specification(s, p) {
        Some((k, e)) => {
            let q = skip_comma(s, e);
            let ghost kv = k@;
            if p < q {
                let (mut rest, e2) = keys(s, q);
                let ghost old_rest = rest@;
                rest.insert(0, k);
                assert(keys_view(rest@) =~= seq![kv] + keys_view(old_rest));
                (rest, e2)
            } else {
                let mut v = Vec::new();
                v.push(k);
                assert(keys_view(v@) =~= seq![kv]);
                (v, e)
            }
        },
        None => {
            let v = Vec::new();
            assert(keys_view(v@) =~= Seq::empty());
            (v, p)
        },
    }
}

/// One or more key specifications.
pub open spec fn p_key_specification_list(s: Seq<u8>, p: int) -> Option<(Seq<TableKeyView>, int)> {
    let (l, e) = p_keys(s, p);
    if l.len() > 0 {
        Some((l, e))
    } else {
        None
    }
}

/// Parses a comma-separated list of key specifications (at least one).
pub fn key_specification_list(s: &[u8], p: usize) -> (r: Option<(Vec<TableKey>, usize)>)
    ensures
        r is None <==> p_key_specification_list(s@, p as int) is None,
        r matches Some((l, e)) ==> p_key_specification_list(s@, p as int) == Some((keys_view(l@), e as int)),
        r matches Some((l, e)) ==> p < e <= s@.len(),
{
    let (l, e) = keys(s, p);
    if l.len() > 0 {
        Some((l, e))
    } else {
        None
    }
}

} // verus!
