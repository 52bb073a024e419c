use vstd::prelude::*;
use vstd::string::*;

use crate::column::{columns_view, lemma_columns_view, Column, ColumnView};
use crate::constraint::{
    field_specification_list, p_field_specification_list, specs_view, ColumnSpecView,
    ColumnSpecification,
};
use crate::foreignkey::{
    fkeys_view, foreign_key_specification_list, p_foreign_key_list, ForeignKeySpecification,
    ForeignKeyView,
};
use crate::keys::{key_specification_list, keys_view, p_key_specification_list, TableKey, TableKeyView};
use crate::lex::{
    byte_at, byte_is, p_space, p_tag, p_terminator, skip_ws, space, span, span_end,
    statement_terminator, tag, ws, ByteClass,
};
use crate::table::{p_table_reference, table_reference, Table, TableView};

verus! {

/// A `CREATE TABLE` statement.
#[derive(Debug, Hash, PartialEq, Eq, Default)]
pub struct CreateTableStatement {
    pub table: Table,
    pub fields: Vec<ColumnSpecification>,
    pub keys: Option<Vec<TableKey>>,
    pub fkeys: Option<Vec<ForeignKeySpecification>>,
}

pub struct CreateTableView {
    pub table: TableView,
    pub fields: Seq<ColumnSpecView>,
    pub keys: Option<Seq<TableKeyView>>,
    pub fkeys: Option<Seq<ForeignKeyView>>,
}

impl View for CreateTableStatement {
    type V = CreateTableView;

    open spec fn view(&self) -> CreateTableView {
        CreateTableView {
            table: self.table@,
            fields: specs_view(self.fields@),
            keys: match self.keys {
                Some(k) => Some(keys_view(k@)),
                None => None,
            },
            fkeys: match self.fkeys {
                Some(k) => Some(fkeys_view(k@)),
                None => None,
            },
        }
    }
}

/// `c` owned by the table `t`.
pub open spec fn attach_column(c: ColumnView, t: Seq<char>) -> ColumnView {
    ColumnView { table: Some(t), ..c }
}

pub open spec fn attach_columns(cs: Seq<ColumnView>, t: Seq<char>) -> Seq<ColumnView> {
    cs.map_values(|c: ColumnView| attach_column(c, t))
}

pub open spec fn attach_field(f: ColumnSpecView, t: Seq<char>) -> ColumnSpecView {
    ColumnSpecView { column: attach_column(f.column, t), ..f }
}

pub open spec fn attach_key(k: TableKeyView, t: Seq<char>) -> TableKeyView {
    match k {
        TableKeyView::PrimaryKey(c) => TableKeyView::PrimaryKey(attach_columns(c, t)),
        TableKeyView::UniqueKey(n, c) => TableKeyView::UniqueKey(n, attach_columns(c, t)),
        TableKeyView::FulltextKey(n, c) => TableKeyView::FulltextKey(n, attach_columns(c, t)),
        TableKeyView::Key(n, c) => TableKeyView::Key(n, attach_columns(c, t)),
    }
}

fn attach_cols(cols: Vec<Column>, t: &String) -> (r: Vec<Column>)
    ensures
        columns_view(r@) == attach_columns(columns_view(cols@), t@),
{
    let ghost orig = cols@;
    let mut src = cols;
    let mut dst: Vec<Column> = Vec::new();
    proof {
        lemma_columns_view(orig);
    }
    while src.len() > 0
        invariant
            dst@.len() + src@.len() == orig.len(),
            forall|i: int| 0 <= i < dst@.len() ==> #[trigger] column_view_of(dst@[i]) == attach_column(
                column_view_of(orig[i]),
                t@,
            ),
            forall|j: int| 0 <= j < src@.len() ==> #[trigger] src@[j] == orig[dst@.len() + j],
        decreases src@.len(),
    {
        let ghost k = dst@.len();
        let ghost before = src@;
        let mut c = src.remove(0);
        assert(c == orig[k as int]);
        c.table = Some(t.clone());
        dst.push(c);
        assert forall|j: int| 0 <= j < src@.len() implies #[trigger] src@[j] == orig[dst@.len() + j] by {
            assert(src@[j] == before[j + 1]);
        }
    }
    proof {
        lemma_columns_view(dst@);
        assert forall|i: int| 0 <= i < dst@.len() implies columns_view(dst@)[i] == attach_columns(
            columns_view(orig),
            t@,
        )[i] by {
            assert(column_view_of(dst@[i]) == attach_column(column_view_of(orig[i]), t@));
        }
        assert(columns_view(dst@) =~= attach_columns(columns_view(orig), t@));
    }
    dst
}

pub open spec fn column_view_of(c: Column) -> ColumnView {
    c@
}

} // verus!

verus! {

fn attach_fields(fields: Vec<ColumnSpecification>, t: &String) -> (r: Vec<ColumnSpecification>)
    ensures
        specs_view(r@) == specs_view(fields@).map_values(|f: ColumnSpecView| attach_field(f, t@)),
{
    let ghost orig = fields@;
    let mut src = fields;
    let mut dst: Vec<ColumnSpecification> = Vec::new();
    while src.len() > 0
        invariant
            dst@.len() + src@.len() == orig.len(),
            forall|i: int| 0 <= i < dst@.len() ==> #[trigger] dst@[i]@ == attach_field(orig[i]@, t@),
            forall|j: int| 0 <= j < src@.len() ==> #[trigger] src@[j] == orig[dst@.len() + j],
        decreases src@.len(),
    {
        let ghost k = dst@.len();
        let ghost before = src@;
        let mut f = src.remove(0);
        assert(f == orig[k as int]);
        f.column.table = Some(t.clone());
        dst.push(f);
        assert forall|j: int| 0 <= j < src@.len() implies #[trigger] src@[j] == orig[dst@.len() + j] by {
            assert(src@[j] == before[j + 1]);
        }
    }
    assert(specs_view(dst@) =~= specs_view(orig).map_values(|f: ColumnSpecView| attach_field(f, t@)));
    dst
}

fn attach_key_columns(k: TableKey, t: &String) -> (r: TableKey)
    ensures
        r@ == attach_key(k@, t@),
{
    match k {
        TableKey::PrimaryKey(c) => TableKey::PrimaryKey(attach_cols(c, t)),
        TableKey::UniqueKey(n, c) => TableKey::UniqueKey(n, attach_cols(c, t)),
        TableKey::FulltextKey(n, c) => TableKey::FulltextKey(n, attach_cols(c, t)),
        TableKey::Key(n, c) => TableKey::Key(n, attach_cols(c, t)),
    }
}

fn attach_keys(keys: Vec<TableKey>, t: &String) -> (r: Vec<TableKey>)
    ensures
        keys_view(r@) == keys_view(keys@).map_values(|k: TableKeyView| attach_key(k, t@)),
{
    let ghost orig = keys@;
    let mut src = keys;
    let mut dst: Vec<TableKey> = Vec::new();
    while src.len() > 0
        invariant
            dst@.len() + src@.len() == orig.len(),
            forall|i: int| 0 <= i < dst@.len() ==> #[trigger] dst@[i]@ == attach_key(orig[i]@, t@),
            forall|j: int| 0 <= j < src@.len() ==> #[trigger] src@[j] == orig[dst@.len() + j],
        decreases src@.len(),
    {
        let ghost k = dst@.len();
        let ghost before = src@;
        let key = src.remove(0);
        assert(key == orig[k as int]);
        dst.push(attach_key_columns(key, t));
        assert forall|j: int| 0 <= j < src@.len() implies #[trigger] src@[j] == orig[dst@.len() + j] by {
            assert(src@[j] == before[j + 1]);
        }
    }
    assert(keys_view(dst@) =~= keys_view(orig).map_values(|k: TableKeyView| attach_key(k, t@)));
    dst
}

/// Table options after the column list (engine, character set and the like):
/// everything up to `;` or a line ending is read and dropped. The options'
/// own syntax is deliberately not checked here, so whatever text stands
/// between the closing parenthesis and the terminator is taken as options.
pub open spec fn p_table_options(s: Seq<u8>, p: int) -> int {
    span_end(s, p, ByteClass::Option)
}

/// Parses and drops table options; the position after them.
pub fn table_options(s: &[u8], p: usize) -> (r: usize)
    requires
        p <= s@.len(),
    ensures
        r == p_table_options(s@, p as int),
        p <= r <= s@.len(),
{
    span(s, p, ByteClass::Option)
}

/// The statement with its table name attached to every column of its fields
/// and keys.
pub open spec fn attach_names(
    tbl: TableView,
    fields: Seq<ColumnSpecView>,
    keys: Option<Seq<TableKeyView>>,
    fkeys: Option<Seq<ForeignKeyView>>,
) -> CreateTableView {
    CreateTableView {
        table: tbl,
        fields: fields.map_values(|f: ColumnSpecView| attach_field(f, tbl.name)),
        keys: match keys {
            Some(k) => Some(k.map_values(|x: TableKeyView| attach_key(x, tbl.name))),
            None => None,
        },
        fkeys,
    }
}

/// The column list of a `CREATE TABLE` at `p`, from `(` to `)`: column
/// specifications, then optional key specifications, then optional foreign
/// keys, with optional whitespace between them.
pub open spec fn p_table_body(s: Seq<u8>, p: int) -> Option<(Seq<ColumnSpecView>, Option<Seq<TableKeyView>>, Option<Seq<ForeignKeyView>>, int)> {
    if byte_at(s, p, 40) {
        match p_field_specification_list(s, ws(s, p + 1)) {
            Some((fields, e1)) => {
                let q1 = ws(s, e1);
                let (keys, e2) = match p_key_specification_list(s, q1) {
                    Some((k, e)) => (Some(k), e),
                    None => (None, q1),
                };
                let q2 = ws(s, e2);
                let (fkeys, e3) = match p_foreign_key_list(s, q2) {
                    Some((k, e)) => (Some(k), e),
                    None => (None, q2),
                };
                let q3 = ws(s, e3);
                if byte_at(s, q3, 41) {
                    Some((fields, keys, fkeys, q3 + 1))
                } else {
                    None
                }
            },
            None => None,
        }
    } else {
        None
    }
}

/// A `CREATE TABLE` statement at `p`: `CREATE`, `TABLE`, a table name without
/// alias, the column list, table options and the statement terminator. The
/// table name is attached to every column of the fields and keys.
pub open spec fn p_creation(s: Seq<u8>, p: int) -> Option<(CreateTableView, int)> {
    match p_tag(s, p, "create".spec_bytes()) {
        Some(e0) => match p_space(s, e0) {
            Some(q0) => match p_tag(s, q0, "table".spec_bytes()) {
                Some(e1) => match p_space(s, e1) {
                    Some(q1) => match p_table_reference(s, q1) {
                        Some((tbl, e2)) => if tbl.alias is None {
                            match p_table_body(s, ws(s, e2)) {
                                Some((fields, keys, fkeys, e3)) => {
                                    match p_terminator(s, p_table_options(s, ws(s, e3))) {
                                        Some(e4) => Some((attach_names(tbl, fields, keys, fkeys), e4)),
                                        None => None,
                                    }
                                },
                                None => None,
                            }
                        } else {
                            None
                        },
                        None => None,
                    },
                    None => None,
                },
                None => None,
            },
            None => None,
        },
        None => None,
    }
}

#[verifier::rlimit(40)]
fn table_body(s: &[u8], p: usize) -> (r: Option<(Vec<ColumnSpecification>, Option<Vec<TableKey>>, Option<Vec<ForeignKeySpecification>>, usize)>)
    requires
        p <= s@.len(),
    ensures
        r is None <==> p_table_body(s@, p as int) is None,
        r matches Some((f, k, fk, e)) ==> p_table_body(s@, p as int) == Some((
            specs_view(f@),
            match k {
                Some(k) => Some(keys_view(k@)),
                None => None,
            },
            match fk {
                Some(k) => Some(fkeys_view(k@)),
                None => None,
            },
            e as int,
        )),
        r matches Some((f, k, fk, e)) ==> p < e <= s@.len(),
{
    if byte_is(s, p, 40) {
        match field_specification_list(s, skip_ws(s, p + 1)) {
            Some((fields, e1)) => {
                let q1 = skip_ws(s, e1);
                let (keys, e2) = match key_specification_list(s, q1) {
                    Some((k, e)) => (Some(k), e),
                    None => (None, q1),
                };
                let q2 = skip_ws(s, e2);
                let (fkeys, e3) = match foreign_key_specification_list(s, q2) {
                    Some((k, e)) => (Some(k), e),
                    None => (None, q2),
                };
                let q3 = skip_ws(s, e3);
                if byte_is(s, q3, 41) {
                    Some((fields, keys, fkeys, q3 + 1))
                } else {
                    None
                }
            },
            None => None,
        }
    } else {
        None
    }
}

/// Parses a `CREATE TABLE` statement (see `p_creation`).
#[verifier::rlimit(40)]
pub fn creation(s: &[u8], p: usize) -> (r: Option<(CreateTableStatement, usize)>)
    ensures
        r is None <==> p_creation(s@, p as int) is None,
        r matches Some((c, e)) ==> p_creation(s@, p as int) == Some((c@, e as int)),
        r matches Some((c, e)) ==> p < e <= s@.len(),
{
    match tag(s, p, "create") {
        Some(e0) => match space(s, e0) {
            Some(q0) => match tag(s, q0, "table") {
                Some(e1) => match space(s, e1) {
                    Some(q1) => match table_reference(s, q1) {
                        Some((tbl, e2)) => if tbl.alias.is_none() {
                            match table_body(s, skip_ws(s, e2)) {
                                Some((fields, keys, fkeys, e3)) => {
                                    let o = table_options(s, skip_ws(s, e3));
                                    match statement_terminator(s, o) {
                                        Some(e4) => {
                                            let fields = attach_fields(fields, &tbl.name);
                                            let keys = match keys {
                                                Some(k) => Some(attach_keys(k, &tbl.name)),
                                                None => None,
                                            };
                                            Some((CreateTableStatement { table: tbl, fields, keys, fkeys }, e4))
                                        },
                                        None => None,
                                    }
                                },
                                None => None,
                            }
                        } else {
                            None
                        },
                        None => None,
                    },
                    None => None,
                },
                None => None,
            },
            None => None,
        },
        None => None,
    }
}

} // verus!
