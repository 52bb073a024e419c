use vstd::prelude::*;
use vstd::string::*;

use crate::column::{
    columns_view, function_text, lemma_columns_view, names_text, push_names, Column, ColumnView,
};
use crate::constraint::{
    constraints_view, specs_view, ColumnConstraint, ColumnSpecView, ColumnSpecification,
    ConstraintView, Literal, LiteralView,
};
use crate::create::{CreateTableStatement, CreateTableView};
use crate::foreignkey::{fkeys_view, ForeignKeySpecification, ForeignKeyView};
use crate::keys::{keys_view, TableKey, TableKeyView};
use crate::keywords::{escaped, push_escaped};
use crate::table::{Table, TableView};
use crate::text::{decimal, push, push_decimal};
use crate::types::sql_type_text;

verus! {

/// Items rendered by `f` and joined by `sep`.
pub open spec fn join<T>(items: Seq<T>, f: spec_fn(T) -> Seq<char>, sep: Seq<char>) -> Seq<char>
    decreases items.len(),
{
    if items.len() == 0 {
        Seq::empty()
    } else if items.len() == 1 {
        f(items[0])
    } else {
        join(items.drop_last(), f, sep) + sep + f(items.last())
    }
}

pub proof fn lemma_join_step<T>(items: Seq<T>, i: int, f: spec_fn(T) -> Seq<char>, sep: Seq<char>)
    requires
        0 <= i < items.len(),
    ensures
        join(items.take(i + 1), f, sep) == if i == 0 {
            f(items[i])
        } else {
            join(items.take(i), f, sep) + sep + f(items[i])
        },
{
    assert(items.take(i + 1).drop_last() =~= items.take(i));
}

/// Signed decimal text.
pub open spec fn int_text(i: int) -> Seq<char> {
    if i < 0 {
        "-"@ + decimal((-i) as nat)
    } else {
        decimal(i as nat)
    }
}

fn push_int(out: &mut String, i: i64)
    ensures
        final(out)@ == old(out)@ + int_text(i as int),
{
    if i < 0 {
        push(out, "-");
        push_decimal(out, (0i128 - i as i128) as u64);
        assert(final(out)@ =~= old(out)@ + int_text(i as int));
    } else {
        push_decimal(out, i as u64);
    }
}

/// Canonical text of a literal.
pub open spec fn literal_text(l: LiteralView) -> Seq<char> {
    match l {
        LiteralView::Null => "NULL"@,
        LiteralView::Integer(i) => int_text(i as int),
        LiteralView::FixedPoint(r) => int_text(r.integral as int) + "."@ + int_text(r.fractional as int),
        LiteralView::String(t) => "'"@ + t + "'"@,
        LiteralView::CurrentTimestamp => "CURRENT_TIMESTAMP"@,
    }
}

impl Literal {
    /// Appends the canonical text of the literal.
    #[verifier::rlimit(40)]
    pub fn write_to(&self, out: &mut String)
        ensures
            final(out)@ == old(out)@ + literal_text(self@),
    {
        match self {
            Literal::Null => push(out, "NULL"),
            Literal::Integer(i) => push_int(out, *i),
            Literal::FixedPoint(r) => {
                push_int(out, r.integral as i64);
                push(out, ".");
                push_int(out, r.fractional as i64);
                assert(final(out)@ =~= old(out)@ + literal_text(self@));
            },
            Literal::String(t) => {
                push(out, "'");
                push(out, t.as_str());
                push(out, "'");
                assert(final(out)@ =~= old(out)@ + literal_text(self@));
            },
            Literal::CurrentTimestamp => push(out, "CURRENT_TIMESTAMP"),
        }
    }
}

/// Canonical text of a column constraint.
pub open spec fn constraint_text(c: ConstraintView) -> Seq<char> {
    match c {
        ConstraintView::NotNull => "NOT NULL"@,
        ConstraintView::AutoIncrement => "AUTO_INCREMENT"@,
        ConstraintView::DefaultValue(l) => "DEFAULT "@ + literal_text(l),
        ConstraintView::PrimaryKey => "PRIMARY KEY"@,
        ConstraintView::Unique => "UNIQUE"@,
        ConstraintView::CharacterSet(n) => "CHARACTER SET "@ + escaped(n),
        ConstraintView::Collation(n) => "COLLATE "@ + escaped(n),
    }
}

impl ColumnConstraint {
    /// Appends the canonical text of the constraint.
    #[verifier::rlimit(40)]
    pub fn write_to(&self, out: &mut String)
        ensures
            final(out)@ == old(out)@ + constraint_text(self@),
    {
        match self {
            ColumnConstraint::NotNull => push(out, "NOT NULL"),
            ColumnConstraint::AutoIncrement => push(out, "AUTO_INCREMENT"),
            ColumnConstraint::DefaultValue(l) => {
                push(out, "DEFAULT ");
                l.write_to(out);
                assert(final(out)@ =~= old(out)@ + constraint_text(self@));
            },
            ColumnConstraint::PrimaryKey => push(out, "PRIMARY KEY"),
            ColumnConstraint::Unique => push(out, "UNIQUE"),
            ColumnConstraint::CharacterSet(n) => {
                push(out, "CHARACTER SET ");
                push_escaped(out, n.as_str());
                assert(final(out)@ =~= old(out)@ + constraint_text(self@));
            },
            ColumnConstraint::Collation(n) => {
                push(out, "COLLATE ");
                push_escaped(out, n.as_str());
                assert(final(out)@ =~= old(out)@ + constraint_text(self@));
            },
        }
    }
}

/// Canonical text of a column specification: the escaped column name, the
/// type, each constraint after a space in stored order, then the comment.
pub open spec fn column_spec_text(f: ColumnSpecView) -> Seq<char> {
    escaped(f.column.name) + " "@ + sql_type_text(f.sql_type) + join(
        f.constraints,
        |c: ConstraintView| " "@ + constraint_text(c),
        Seq::empty(),
    ) + match f.comment {
        Some(c) => " COMMENT '"@ + c + "'"@,
        None => Seq::empty(),
    }
}

impl ColumnSpecification {
    /// Appends the canonical text of the column specification.
    #[verifier::rlimit(40)]
    pub fn write_to(&self, out: &mut String)
        ensures
            final(out)@ == old(out)@ + column_spec_text(self@),
    {
        let ghost start = out@;
        push_escaped(out, self.column.name.as_str());
        push(out, " ");
        self.sql_type.write_to(out);
        let ghost before = out@;
        let ghost cs = constraints_view(self.constraints@);
        let ghost f = |c: ConstraintView| " "@ + constraint_text(c);
        let mut i: usize = 0;
        while i < self.constraints.len()
            invariant
                i <= self.constraints@.len(),
                cs == constraints_view(self.constraints@),
                f == (|c: ConstraintView| " "@ + constraint_text(c)),
                out@ == before + join(cs.take(i as int), f, Seq::empty()),
            decreases self.constraints@.len() - i,
        {
            proof {
                lemma_join_step(cs, i as int, f, Seq::empty());
            }
            push(out, " ");
            self.constraints[i].write_to(out);
            assert(out@ =~= before + join(cs.take(i + 1), f, Seq::empty()));
            i += 1;
        }
        assert(cs.take(cs.len() as int) =~= cs);
        match &self.comment {
            Some(c) => {
                push(out, " COMMENT '");
                push(out, c.as_str());
                push(out, "'");
            },
            None => {},
        }
        assert(out@ =~= start + column_spec_text(self@));
    }

    /// The canonical text of the column specification.
    pub fn to_string(&self) -> (r: String)
        ensures
            r@ == column_spec_text(self@),
    {
        let mut out = String::new();
        self.write_to(&mut out);
        assert(out@ =~= column_spec_text(self@));
        out
    }
}

} // verus!

verus! {

/// Optional key name followed by a space.
pub open spec fn key_name_text(n: Option<Seq<char>>) -> Seq<char> {
    match n {
        Some(n) => escaped(n) + " "@,
        None => Seq::empty(),
    }
}

/// Key columns in parentheses.
pub open spec fn key_columns_text(c: Seq<ColumnView>) -> Seq<char> {
    "("@ + names_text(c) + ")"@
}

/// Canonical text of a key specification.
pub open spec fn key_text(k: TableKeyView) -> Seq<char> {
    match k {
        TableKeyView::PrimaryKey(c) => "PRIMARY KEY "@ + key_columns_text(c),
        TableKeyView::UniqueKey(n, c) => "UNIQUE KEY "@ + key_name_text(n) + key_columns_text(c),
        TableKeyView::FulltextKey(n, c) => "FULLTEXT KEY "@ + key_name_text(n) + key_columns_text(c),
        TableKeyView::Key(n, c) => "KEY "@ + escaped(n) + " "@ + key_columns_text(c),
    }
}

fn push_key_name(out: &mut String, n: &Option<String>)
    ensures
        final(out)@ == old(out)@ + key_name_text(crate::table::opt_text(*n)),
{
    match n {
        Some(n) => {
            push_escaped(out, n.as_str());
            push(out, " ");
        },
        None => {},
    }
}

fn push_key_columns(out: &mut String, c: &Vec<Column>)
    ensures
        final(out)@ == old(out)@ + key_columns_text(columns_view(c@)),
{
    push(out, "(");
    push_names(out, c);
    push(out, ")");
    assert(final(out)@ =~= old(out)@ + key_columns_text(columns_view(c@)));
}

impl TableKey {
    /// Appends the canonical text of the key.
    #[verifier::rlimit(40)]
    pub fn write_to(&self, out: &mut String)
        ensures
            final(out)@ == old(out)@ + key_text(self@),
    {
        let ghost start = out@;
        match self {
            TableKey::PrimaryKey(c) => {
                push(out, "PRIMARY KEY ");
                push_key_columns(out, c);
            },
            TableKey::UniqueKey(n, c) => {
                push(out, "UNIQUE KEY ");
                push_key_name(out, n);
                push_key_columns(out, c);
            },
            TableKey::FulltextKey(n, c) => {
                push(out, "FULLTEXT KEY ");
                push_key_name(out, n);
                push_key_columns(out, c);
            },
            TableKey::Key(n, c) => {
                push(out, "KEY ");
                push_escaped(out, n.as_str());
                push(out, " ");
                push_key_columns(out, c);
            },
        }
        assert(out@ =~= start + key_text(self@));
    }

    /// The canonical text of the key.
    pub fn to_string(&self) -> (r: String)
        ensures
            r@ == key_text(self@),
    {
        let mut out = String::new();
        self.write_to(&mut out);
        assert(out@ =~= key_text(self@));
        out
    }
}

/// Optional ` AS alias`.
pub open spec fn alias_text(a: Option<Seq<char>>) -> Seq<char> {
    match a {
        Some(a) => " AS "@ + escaped(a),
        None => Seq::empty(),
    }
}

fn push_alias(out: &mut String, a: &Option<String>)
    ensures
        final(out)@ == old(out)@ + alias_text(crate::table::opt_text(*a)),
{
    match a {
        Some(a) => {
            push(out, " AS ");
            push_escaped(out, a.as_str());
            assert(final(out)@ =~= old(out)@ + alias_text(crate::table::opt_text(Some(*a))));
        },
        None => {},
    }
}

/// Canonical text of a column reference: `table.name`, the function, or the
/// name, then the alias if any.
pub open spec fn column_text(c: ColumnView) -> Seq<char> {
    let base = match c.table {
        Some(t) => escaped(t) + "."@ + escaped(c.name),
        None => match c.function {
            Some(f) => function_text(f),
            None => escaped(c.name),
        },
    };
    base + alias_text(c.alias)
}

impl Column {
    /// Appends the canonical text of the column.
    #[verifier::rlimit(40)]
    pub fn write_to(&self, out: &mut String)
        ensures
            final(out)@ == old(out)@ + column_text(self@),
    {
        let ghost start = out@;
        match &self.table {
            Some(t) => {
                push_escaped(out, t.as_str());
                push(out, ".");
                push_escaped(out, self.name.as_str());
            },
            None => match &self.function {
                Some(f) => f.write_to(out),
                None => push_escaped(out, self.name.as_str()),
            },
        }
        push_alias(out, &self.alias);
        assert(out@ =~= start + column_text(self@));
    }

    /// The canonical text of the column.
    pub fn to_string(&self) -> (r: String)
        ensures
            r@ == column_text(self@),
    {
        let mut out = String::new();
        self.write_to(&mut out);
        assert(out@ =~= column_text(self@));
        out
    }
}

/// Canonical text of a table reference.
pub open spec fn table_text(t: TableView) -> Seq<char> {
    escaped(t.name) + alias_text(t.alias)
}

impl Table {
    /// Appends the canonical text of the table reference.
    #[verifier::rlimit(40)]
    pub fn write_to(&self, out: &mut String)
        ensures
            final(out)@ == old(out)@ + table_text(self@),
    {
        push_escaped(out, self.name.as_str());
        push_alias(out, &self.alias);
        assert(final(out)@ =~= old(out)@ + table_text(self@));
    }
}

/// Columns rendered by `column_text` and joined by `,`.
pub open spec fn column_list_text(cs: Seq<ColumnView>) -> Seq<char> {
    join(cs, |c: ColumnView| column_text(c), ","@)
}

fn push_column_list(out: &mut String, cols: &Vec<Column>)
    ensures
        final(out)@ == old(out)@ + column_list_text(columns_view(cols@)),
{
    proof {
        lemma_columns_view(cols@);
    }
    let ghost cs = columns_view(cols@);
    let ghost f = |c: ColumnView| column_text(c);
    let ghost before = out@;
    let mut i: usize = 0;
    while i < cols.len()
        invariant
            i <= cols@.len(),
            cs == columns_view(cols@),
            cs.len() == cols@.len(),
            forall|k: int| 0 <= k < cols@.len() ==> #[trigger] cs[k] == crate::create::column_view_of(cols@[k]),
            f == (|c: ColumnView| column_text(c)),
            out@ == before + join(cs.take(i as int), f, ","@),
        decreases cols@.len() - i,
    {
        proof {
            lemma_join_step(cs, i as int, f, ","@);
        }
        if i > 0 {
            push(out, ",");
        }
        cols[i].write_to(out);
        assert(cs[i as int] == crate::create::column_view_of(cols@[i as int]));
        assert(out@ =~= before + join(cs.take(i + 1), f, ","@));
        i += 1;
    }
    assert(cs.take(cs.len() as int) =~= cs);
}

/// Optional `CONSTRAINT name ` before a foreign key.
pub open spec fn constraint_name_text(n: Option<Seq<char>>) -> Seq<char> {
    match n {
        Some(n) => "CONSTRAINT "@ + escaped(n) + " "@,
        None => Seq::empty(),
    }
}

/// Optional referential actions after a foreign key, with a space before
/// and after them.
pub open spec fn ref_action_text(a: Option<Seq<char>>) -> Seq<char> {
    match a {
        Some(a) => " "@ + a + " "@,
        None => Seq::empty(),
    }
}

/// Canonical text of a foreign key specification.
pub open spec fn foreign_key_text(k: ForeignKeyView) -> Seq<char> {
    constraint_name_text(k.name) + "FOREIGN KEY("@ + column_list_text(k.from) + ") REFERENCES "@
        + table_text(k.that_table) + "("@ + column_list_text(k.to) + ")"@ + ref_action_text(k.ref_action)
}

fn push_constraint_name(out: &mut String, n: &Option<String>)
    ensures
        final(out)@ == old(out)@ + constraint_name_text(crate::table::opt_text(*n)),
{
    match n {
        Some(n) => {
            push(out, "CONSTRAINT ");
            push_escaped(out, n.as_str());
            push(out, " ");
            assert(final(out)@ =~= old(out)@ + constraint_name_text(crate::table::opt_text(Some(*n))));
        },
        None => {},
    }
}

fn push_ref_action(out: &mut String, a: &Option<String>)
    ensures
        final(out)@ == old(out)@ + ref_action_text(crate::table::opt_text(*a)),
{
    match a {
        Some(a) => {
            push(out, " ");
            push(out, a.as_str());
            push(out, " ");
            assert(final(out)@ =~= old(out)@ + ref_action_text(crate::table::opt_text(Some(*a))));
        },
        None => {},
    }
}

impl ForeignKeySpecification {
    /// Appends the canonical text of the foreign key.
    #[verifier::rlimit(40)]
    pub fn write_to(&self, out: &mut String)
        ensures
            final(out)@ == old(out)@ + foreign_key_text(self@),
    {
        let ghost start = out@;
        push_constraint_name(out, &self.name);
        push(out, "FOREIGN KEY(");
        push_column_list(out, &self.from);
        push(out, ") REFERENCES ");
        self.that_table.write_to(out);
        push(out, "(");
        push_column_list(out, &self.to);
        push(out, ")");
        push_ref_action(out, &self.ref_action);
        assert(out@ =~= start + foreign_key_text(self@));
    }

    /// The canonical text of the foreign key.
    pub fn to_string(&self) -> (r: String)
        ensures
            r@ == foreign_key_text(self@),
    {
        let mut out = String::new();
        self.write_to(&mut out);
        assert(out@ =~= foreign_key_text(self@));
        out
    }
}

} // verus!

verus! {

/// Canonical text of a `CREATE TABLE` statement: the fields, then the keys,
/// then the foreign keys, all joined by `", "` inside one pair of parentheses.
pub open spec fn create_table_text(c: CreateTableView) -> Seq<char> {
    "CREATE TABLE "@ + escaped(c.table.name) + " ("@ + fields_text(c.fields) + keys_part(c.keys)
        + fkeys_part(c.fkeys) + ")"@
}

pub open spec fn fields_text(fs: Seq<ColumnSpecView>) -> Seq<char> {
    join(fs, |f: ColumnSpecView| column_spec_text(f), ", "@)
}

/// `", "` and the keys, when there are any.
pub open spec fn keys_part(ko: Option<Seq<TableKeyView>>) -> Seq<char> {
    match ko {
        Some(k) => ", "@ + join(k, |x: TableKeyView| key_text(x), ", "@),
        None => Seq::empty(),
    }
}

/// `", "` and the foreign keys, when there are any.
pub open spec fn fkeys_part(ko: Option<Seq<ForeignKeyView>>) -> Seq<char> {
    match ko {
        Some(k) => ", "@ + join(k, |x: ForeignKeyView| foreign_key_text(x), ", "@),
        None => Seq::empty(),
    }
}

fn push_keys_part(out: &mut String, ko: &Option<Vec<TableKey>>)
    ensures
        final(out)@ == old(out)@ + keys_part(match *ko {
            Some(k) => Some(keys_view(k@)),
            None => None,
        }),
{
    match ko {
        Some(k) => {
            push(out, ", ");
            push_keys(out, k);
            assert(final(out)@ =~= old(out)@ + keys_part(Some(keys_view(k@))));
        },
        None => {},
    }
}

fn push_fkeys_part(out: &mut String, ko: &Option<Vec<ForeignKeySpecification>>)
    ensures
        final(out)@ == old(out)@ + fkeys_part(match *ko {
            Some(k) => Some(fkeys_view(k@)),
            None => None,
        }),
{
    match ko {
        Some(k) => {
            push(out, ", ");
            push_fkeys(out, k);
            assert(final(out)@ =~= old(out)@ + fkeys_part(Some(fkeys_view(k@))));
        },
        None => {},
    }
}

fn push_fields(out: &mut String, v: &Vec<ColumnSpecification>)
    ensures
        final(out)@ == old(out)@ + fields_text(specs_view(v@)),
{
    let ghost vs = specs_view(v@);
    let ghost f = |f: ColumnSpecView| column_spec_text(f);
    let ghost before = out@;
    let mut i: usize = 0;
    while i < v.len()
        invariant
            i <= v@.len(),
            vs == specs_view(v@),
            f == (|f: ColumnSpecView| column_spec_text(f)),
            out@ == before + join(vs.take(i as int), f, ", "@),
        decreases v@.len() - i,
    {
        proof {
            lemma_join_step(vs, i as int, f, ", "@);
        }
        if i > 0 {
            push(out, ", ");
        }
        v[i].write_to(out);
        assert(out@ =~= before + join(vs.take(i + 1), f, ", "@));
        i += 1;
    }
    assert(vs.take(vs.len() as int) =~= vs);
}

fn push_keys(out: &mut String, v: &Vec<TableKey>)
    ensures
        final(out)@ == old(out)@ + join(keys_view(v@), |x: TableKeyView| key_text(x), ", "@),
{
    let ghost vs = keys_view(v@);
    let ghost f = |x: TableKeyView| key_text(x);
    let ghost before = out@;
    let mut i: usize = 0;
    while i < v.len()
        invariant
            i <= v@.len(),
            vs == keys_view(v@),
            f == (|x: TableKeyView| key_text(x)),
            out@ == before + join(vs.take(i as int), f, ", "@),
        decreases v@.len() - i,
    {
        proof {
            lemma_join_step(vs, i as int, f, ", "@);
        }
        if i > 0 {
            push(out, ", ");
        }
        v[i].write_to(out);
        assert(out@ =~= before + join(vs.take(i + 1), f, ", "@));
        i += 1;
    }
    assert(vs.take(vs.len() as int) =~= vs);
}

fn push_fkeys(out: &mut String, v: &Vec<ForeignKeySpecification>)
    ensures
        final(out)@ == old(out)@ + join(fkeys_view(v@), |x: ForeignKeyView| foreign_key_text(x), ", "@),
{
    let ghost vs = fkeys_view(v@);
    let ghost f = |x: ForeignKeyView| foreign_key_text(x);
    let ghost before = out@;
    let mut i: usize = 0;
    while i < v.len()
        invariant
            i <= v@.len(),
            vs == fkeys_view(v@),
            f == (|x: ForeignKeyView| foreign_key_text(x)),
            out@ == before + join(vs.take(i as int), f, ", "@),
        decreases v@.len() - i,
    {
        proof {
            lemma_join_step(vs, i as int, f, ", "@);
        }
        if i > 0 {
            push(out, ", ");
        }
        v[i].write_to(out);
        assert(out@ =~= before + join(vs.take(i + 1), f, ", "@));
        i += 1;
    }
    assert(vs.take(vs.len() as int) =~= vs);
}

impl CreateTableStatement {
    /// Appends the canonical text of the statement.
    #[verifier::rlimit(40)]
    pub fn write_to(&self, out: &mut String)
        ensures
            final(out)@ == old(out)@ + create_table_text(self@),
    {
        let ghost start = out@;
        push(out, "CREATE TABLE ");
        push_escaped(out, self.table.name.as_str());
        push(out, " (");
        push_fields(out, &self.fields);
        push_keys_part(out, &self.keys);
        push_fkeys_part(out, &self.fkeys);
        push(out, ")");
        assert(out@ =~= start + create_table_text(self@));
    }

    /// The canonical text of the statement.
    pub fn to_string(&self) -> (r: String)
        ensures
            r@ == create_table_text(self@),
    {
        let mut out = String::new();
        self.write_to(&mut out);
        assert(out@ =~= create_table_text(self@));
        out
    }
}

} // verus!
