use vstd::prelude::*;
use vstd::string::*;

use crate::common::first_of;
use crate::keywords::{escaped, push_escaped};
use crate::lex::{
    as_alias, byte_at, byte_is, opt_comma, p_as_alias, p_identifier, p_tag, skip_comma, skip_ws,
    span, span_end, sql_identifier, tag, text_at, text_of, ws, ByteClass,
};
use crate::table::opt_text;
use crate::text::push;

verus! {

/// A column reference, or an aggregate expression standing as a column.
#[derive(Debug, Hash, PartialEq, Eq, Default)]
pub struct Column {
    pub name: String,
    pub alias: Option<String>,
    pub table: Option<String>,
    pub function: Option<FunctionExpression>,
}

/// The `*` wildcard, or an ordered list of columns.
#[derive(Debug, Hash, PartialEq, Eq)]
pub enum FieldExpression {
    All,
    List(Vec<Column>),
}

/// Aggregate functions over a field expression.
#[derive(Debug, Hash, PartialEq, Eq)]
pub enum FunctionExpression {
    Count(FieldExpression),
    Sum(FieldExpression),
    Avg(FieldExpression),
    Max(FieldExpression),
    Min(FieldExpression),
    GroupConcat(FieldExpression, String),
}

pub struct ColumnView {
    pub name: Seq<char>,
    pub alias: Option<Seq<char>>,
    pub table: Option<Seq<char>>,
    pub function: Option<FunctionView>,
}

pub enum FieldView {
    All,
    List(Seq<ColumnView>),
}

pub enum FunctionView {
    Count(FieldView),
    Sum(FieldView),
    Avg(FieldView),
    Max(FieldView),
    Min(FieldView),
    GroupConcat(FieldView, Seq<char>),
}

pub open spec fn column_view(c: Column) -> ColumnView
    decreases c,
{
    ColumnView {
        name: c.name@,
        alias: opt_text(c.alias),
        table: opt_text(c.table),
        function: match c.function {
            Some(f) => Some(function_view(f)),
            None => None,
        },
    }
}

pub open spec fn function_view(f: FunctionExpression) -> FunctionView
    decreases f,
{
    match f {
        FunctionExpression::Count(e) => FunctionView::Count(field_view(e)),
        FunctionExpression::Sum(e) => FunctionView::Sum(field_view(e)),
        FunctionExpression::Avg(e) => FunctionView::Avg(field_view(e)),
        FunctionExpression::Max(e) => FunctionView::Max(field_view(e)),
        FunctionExpression::Min(e) => FunctionView::Min(field_view(e)),
        FunctionExpression::GroupConcat(e, sep) => FunctionView::GroupConcat(field_view(e), sep@),
    }
}

pub open spec fn field_view(e: FieldExpression) -> FieldView
    decreases e,
{
    match e {
        FieldExpression::All => FieldView::All,
        FieldExpression::List(v) => FieldView::List(columns_view(v@)),
    }
}

/// The views of a sequence of columns, in order.
pub open spec fn columns_view(s: Seq<Column>) -> Seq<ColumnView>
    decreases s,
{
    if s.len() == 0 {
        Seq::empty()
    } else {
        seq![column_view(s[0])] + columns_view(s.drop_first())
    }
}

pub proof fn lemma_columns_view(s: Seq<Column>)
    ensures
        columns_view(s).len() == s.len(),
        forall|i: int| 0 <= i < s.len() ==> #[trigger] columns_view(s)[i] == column_view(s[i]),
    decreases s.len(),
{
    if s.len() > 0 {
        lemma_columns_view(s.drop_first());
        assert forall|i: int| 0 <= i < s.len() implies #[trigger] columns_view(s)[i] == column_view(s[i]) by {
            if i > 0 {
                assert(s.drop_first()[i - 1] == s[i]);
            }
        }
    }
}

pub proof fn lemma_columns_view_push_front(c: Column, s: Seq<Column>)
    ensures
        columns_view(seq![c] + s) == seq![column_view(c)] + columns_view(s),
{
    assert((seq![c] + s).drop_first() =~= s);
}

impl View for Column {
    type V = ColumnView;

    open spec fn view(&self) -> ColumnView {
        column_view(*self)
    }
}

impl View for FieldExpression {
    type V = FieldView;

    open spec fn view(&self) -> FieldView {
        field_view(*self)
    }
}

impl View for FunctionExpression {
    type V = FunctionView;

    open spec fn view(&self) -> FunctionView {
        function_view(*self)
    }
}

/// Column names joined by `", "`, each escaped when it is a reserved word.
pub open spec fn names_text(cols: Seq<ColumnView>) -> Seq<char>
    decreases cols.len(),
{
    if cols.len() == 0 {
        Seq::empty()
    } else if cols.len() == 1 {
        escaped(cols[0].name)
    } else {
        names_text(cols.drop_last()) + ", "@ + escaped(cols.last().name)
    }
}

/// Canonical text of a field expression: `*`, or the column names.
pub open spec fn field_text(e: FieldView) -> Seq<char> {
    match e {
        FieldView::All => "*"@,
        FieldView::List(cols) => names_text(cols),
    }
}

/// `name(fields)`.
pub open spec fn call_text(name: Seq<char>, e: FieldView) -> Seq<char> {
    name + "("@ + field_text(e) + ")"@
}

/// Canonical text of an aggregate function, e.g. `max(addr_id)` or
/// `group_concat(x separator '|')`.
pub open spec fn function_text(f: FunctionView) -> Seq<char> {
    match f {
        FunctionView::Count(e) => call_text("count"@, e),
        FunctionView::Sum(e) => call_text("sum"@, e),
        FunctionView::Avg(e) => call_text("avg"@, e),
        FunctionView::Max(e) => call_text("max"@, e),
        FunctionView::Min(e) => call_text("min"@, e),
        FunctionView::GroupConcat(e, sep) => "group_concat("@ + field_text(e) + " separator '"@ + sep
            + "')"@,
    }
}

/// Appends the column names of `cols`, joined by `", "`.
pub fn push_names(out: &mut String, cols: &Vec<Column>)
    ensures
        final(out)@ == old(out)@ + names_text(columns_view(cols@)),
{
    proof {
        lemma_columns_view(cols@);
    }
    let ghost vs = columns_view(cols@);
    let mut i: usize = 0;
    while i < cols.len()
        invariant
            i <= cols@.len(),
            vs == columns_view(cols@),
            vs.len() == cols@.len(),
            forall|k: int| 0 <= k < cols@.len() ==> #[trigger] vs[k] == column_view(cols@[k]),
            out@ == old(out)@ + names_text(vs.take(i as int)),
        decreases cols@.len() - i,
    {
        assert(vs.take(i + 1).drop_last() =~= vs.take(i as int));
        assert(vs.take(i + 1).last() == vs[i as int]);
        if i > 0 {
            push(out, ", ");
        }
        push_escaped(out, cols[i].name.as_str());
        assert(out@ =~= old(out)@ + names_text(vs.take(i + 1)));
        i += 1;
    }
    assert(vs.take(cols@.len() as int) =~= vs);
}

impl Default for FieldExpression {
    /// The wildcard.
    fn default() -> (r: FieldExpression)
        ensures
            r@ == FieldView::All,
    {
        FieldExpression::All
    }
}

impl FieldExpression {
    /// Appends the canonical text of the field expression.
    pub fn write_to(&self, out: &mut String)
        ensures
            final(out)@ == old(out)@ + field_text(self@),
    {
        match self {
            FieldExpression::All => push(out, "*"),
            FieldExpression::List(cols) => push_names(out, cols),
        }
    }

    /// The canonical text of the field expression.
    pub fn to_string(&self) -> (r: String)
        ensures
            r@ == field_text(self@),
    {
        let mut out = String::new();
        self.write_to(&mut out);
        assert(out@ =~= field_text(self@));
        out
    }
}

fn push_call(out: &mut String, name: &str, e: &FieldExpression)
    ensures
        final(out)@ == old(out)@ + call_text(name@, e@),
{
    push(out, name);
    push(out, "(");
    e.write_to(out);
    push(out, ")");
    assert(final(out)@ =~= old(out)@ + call_text(name@, e@));
}

impl FunctionExpression {
    /// Appends the canonical text of the function.
    pub fn write_to(&self, out: &mut String)
        ensures
            final(out)@ == old(out)@ + function_text(self@),
    {
        match self {
            FunctionExpression::Count(e) => push_call(out, "count", e),
            FunctionExpression::Sum(e) => push_call(out, "sum", e),
            FunctionExpression::Avg(e) => push_call(out, "avg", e),
            FunctionExpression::Max(e) => push_call(out, "max", e),
            FunctionExpression::Min(e) => push_call(out, "min", e),
            FunctionExpression::GroupConcat(e, sep) => {
                push(out, "group_concat(");
                e.write_to(out);
                push(out, " separator '");
                push(out, sep.as_str());
                push(out, "')");
                assert(final(out)@ =~= old(out)@ + function_text(self@));
            },
        }
    }

    /// The canonical text of the function.
    pub fn to_string(&self) -> (r: String)
        ensures
            r@ == function_text(self@),
    {
        let mut out = String::new();
        self.write_to(&mut out);
        assert(out@ =~= function_text(self@));
        out
    }
}

} // verus!

verus! {

/// Optional `SEPARATOR '<text>'` clause of `group_concat`, with optional
/// whitespace around it: the separator text and the position after the clause.
pub open spec fn p_separator(s: Seq<u8>, p: int) -> Option<(Seq<char>, int)> {
    match p_tag(s, ws(s, p), "separator".spec_bytes()) {
        Some(e) => {
            let q = ws(s, e);
            let e2 = span_end(s, q + 1, ByteClass::NotQuote);
            if byte_at(s, q, 39) && byte_at(s, e2, 39) {
                match text_of(s.subrange(q + 1, e2)) {
                    Some(t) => Some((t, ws(s, e2 + 1))),
                    None => None,
                }
            } else {
                None
            }
        },
        None => None,
    }
}

fn separator(s: &[u8], p: usize) -> (r: Option<(String, usize)>)
    requires
        p <= s@.len(),
    ensures
        r is None <==> p_separator(s@, p as int) is None,
        r matches Some((t, e)) ==> p_separator(s@, p as int) == Some((t@, e as int)),
        r matches Some((t, e)) ==> p < e <= s@.len(),
{
    let q0 = skip_ws(s, p);
    match tag(s, q0, "separator") {
        Some(e) => {
            let q = skip_ws(s, e);
            if byte_is(s, q, 39) {
                let e2 = span(s, q + 1, ByteClass::NotQuote);
                if byte_is(s, e2, 39) {
                    match text_at(s, q + 1, e2) {
                        Some(t) => Some((t, skip_ws(s, e2 + 1))),
                        None => None,
                    }
                } else {
                    None
                }
            } else {
                None
            }
        },
        None => None,
    }
}

/// The aggregate of kind `k`: count, sum, avg, max, min in that order.
pub open spec fn aggregate(k: u8, e: FieldView) -> FunctionView {
    if k == 0 {
        FunctionView::Count(e)
    } else if k == 1 {
        FunctionView::Sum(e)
    } else if k == 2 {
        FunctionView::Avg(e)
    } else if k == 3 {
        FunctionView::Max(e)
    } else {
        FunctionView::Min(e)
    }
}

fn make_aggregate(k: u8, e: FieldExpression) -> (r: FunctionExpression)
    ensures
        r@ == aggregate(k, e@),
{
    if k == 0 {
        FunctionExpression::Count(e)
    } else if k == 1 {
        FunctionExpression::Sum(e)
    } else if k == 2 {
        FunctionExpression::Avg(e)
    } else if k == 3 {
        FunctionExpression::Max(e)
    } else {
        FunctionExpression::Min(e)
    }
}

/// `name(fields)` for the aggregate of kind `k`.
pub open spec fn p_aggregate(s: Seq<u8>, p: int, name: Seq<u8>, k: u8) -> Option<(FunctionView, int)>
    decreases s.len() - p, 0int,
{
    if !(0 <= p <= s.len()) {
        None
    } else {
        match p_tag(s, p, name) {
            Some(e) => if byte_at(s, e, 40) {
                let (fe, e2) = p_field_expr(s, e + 1);
                if byte_at(s, e2, 41) {
                    Some((aggregate(k, fe), e2 + 1))
                } else {
                    None
                }
            } else {
                None
            },
            None => None,
        }
    }
}

/// `group_concat(fields [SEPARATOR 'text'])`; the separator is `,` when the
/// clause is left out.
pub open spec fn p_group_concat(s: Seq<u8>, p: int) -> Option<(FunctionView, int)>
    decreases s.len() - p, 0int,
{
    if !(0 <= p <= s.len()) {
        None
    } else {
        match p_tag(s, p, "group_concat".spec_bytes()) {
            Some(e) => if byte_at(s, e, 40) {
                let (fe, e2) = p_field_expr(s, e + 1);
                let (sep, e3) = match p_separator(s, e2) {
                    Some((t, e3)) => (t, e3),
                    None => (","@, e2),
                };
                if byte_at(s, e3, 41) {
                    Some((FunctionView::GroupConcat(fe, sep), e3 + 1))
                } else {
                    None
                }
            } else {
                None
            },
            None => None,
        }
    }
}

/// Aggregate function expression at `p`.
pub open spec fn p_function(s: Seq<u8>, p: int) -> Option<(FunctionView, int)>
    decreases s.len() - p, 1int,
{
    if !(0 <= p <= s.len()) {
        None
    } else {
        first_of(p_aggregate(s, p, "count".spec_bytes(), 0),
        first_of(p_aggregate(s, p, "sum".spec_bytes(), 1),
        first_of(p_aggregate(s, p, "avg".spec_bytes(), 2),
        first_of(p_aggregate(s, p, "max".spec_bytes(), 3),
        first_of(p_aggregate(s, p, "min".spec_bytes(), 4),
        p_group_concat(s, p))))))
    }
}

/// A column standing for an aggregate: its name is the function's canonical text.
pub open spec fn function_column(f: FunctionView) -> ColumnView {
    ColumnView { name: function_text(f), alias: None, table: None, function: Some(f) }
}

/// `table.column` or `column`, without alias or function.
pub open spec fn p_qualified(s: Seq<u8>, p: int) -> Option<(ColumnView, int)> {
    match p_identifier(s, p) {
        Some((id1, e1)) => if byte_at(s, e1, 46) {
            match p_identifier(s, e1 + 1) {
                Some((id2, e2)) => Some(
                    (ColumnView { name: id2, alias: None, table: Some(id1), function: None }, e2),
                ),
                None => None,
            }
        } else {
            Some((ColumnView { name: id1, alias: None, table: None, function: None }, e1))
        },
        None => None,
    }
}

/// Column identifier without alias: an aggregate function, or an optionally
/// table-qualified name.
pub open spec fn p_column_no_alias(s: Seq<u8>, p: int) -> Option<(ColumnView, int)>
    decreases s.len() - p, 2int,
{
    if !(0 <= p <= s.len()) {
        None
    } else {
        match p_function(s, p) {
            Some((f, e)) => Some((function_column(f), e)),
            None => p_qualified(s, p),
        }
    }
}

/// Comma-separated columns without alias; possibly none.
pub open spec fn p_field_list(s: Seq<u8>, p: int) -> (Seq<ColumnView>, int)
    decreases s.len() - p, 3int,
{
    if !(0 <= p <= s.len()) {
        (Seq::empty(), p)
    } else {
        match p_column_no_alias(s, p) {
            Some((c, e)) => {
                let q = opt_comma(s, e);
                if p < q <= s.len() {
                    let (rest, e2) = p_field_list(s, q);
                    (seq![c] + rest, e2)
                } else {
                    (seq![c], e)
                }
            },
            None => (Seq::empty(), p),
        }
    }
}

/// `*`, or a list of columns without alias.
pub open spec fn p_field_expr(s: Seq<u8>, p: int) -> (FieldView, int)
    decreases s.len() - p, 4int,
{
    if !(0 <= p <= s.len()) {
        (FieldView::List(Seq::empty()), p)
    } else if byte_at(s, p, 42) {
        (FieldView::All, p + 1)
    } else {
        let (l, e) = p_field_list(s, p);
        (FieldView::List(l), e)
    }
}

fn aggregate_call(s: &[u8], p: usize, name: &str, k: u8) -> (r: Option<(FunctionExpression, usize)>)
    ensures
        r is None <==> p_aggregate(s@, p as int, name.spec_bytes(), k) is None,
        r matches Some((f, e)) ==> p_aggregate(s@, p as int, name.spec_bytes(), k) == Some((f@, e as int)),
        r matches Some((f, e)) ==> p < e <= s@.len(),
    decreases s@.len() - p, 0int,
{
    if p > s.len() {
        return None;
    }
    match tag(s, p, name) {
        Some(e) => if byte_is(s, e, 40) {
            let (fe, e2) = field_expr(s, e + 1);
            if byte_is(s, e2, 41) {
                Some((make_aggregate(k, fe), e2 + 1))
            } else {
                None
            }
        } else {
            None
        },
        None => None,
    }
}

fn group_concat(s: &[u8], p: usize) -> (r: Option<(FunctionExpression, usize)>)
    ensures
        r is None <==> p_group_concat(s@, p as int) is None,
        r matches Some((f, e)) ==> p_group_concat(s@, p as int) == Some((f@, e as int)),
        r matches Some((f, e)) ==> p < e <= s@.len(),
    decreases s@.len() - p, 0int,
{
    if p > s.len() {
        return None;
    }
    match tag(s, p, "group_concat") {
        Some(e) => if byte_is(s, e, 40) {
            let (fe, e2) = field_expr(s, e + 1);
            let (sep, e3) = match separator(s, e2) {
                Some((t, e3)) => (t, e3),
                None => (String::from_str(","), e2),
            };
            if byte_is(s, e3, 41) {
                Some((FunctionExpression::GroupConcat(fe, sep), e3 + 1))
            } else {
                None
            }
        } else {
            None
        },
        None => None,
    }
}

/// Parses an aggregate function expression.
#[verifier::rlimit(40)]
pub fn column_function(s: &[u8], p: usize) -> (r: Option<(FunctionExpression, usize)>)
    ensures
        r is None <==> p_function(s@, p as int) is None,
        r matches Some((f, e)) ==> p_function(s@, p as int) == Some((f@, e as int)),
        r matches Some((f, e)) ==> p < e <= s@.len(),
    decreases s@.len() - p, 1int,
{
    if p > s.len() {
        return None;
    }
    if let Some(r) = aggregate_call(s, p, "count", 0) {
        return Some(r);
    }
    if let Some(r) = aggregate_call(s, p, "sum", 1) {
        return Some(r);
    }
    if let Some(r) = aggregate_call(s, p, "avg", 2) {
        return Some(r);
    }
    if let Some(r) = aggregate_call(s, p, "max", 3) {
        return Some(r);
    }
    if let Some(r) = aggregate_call(s, p, "min", 4) {
        return Some(r);
    }
    group_concat(s, p)
}

fn qualified(s: &[u8], p: usize) -> (r: Option<(Column, usize)>)
    ensures
        r is None <==> p_qualified(s@, p as int) is None,
        r matches Some((c, e)) ==> p_qualified(s@, p as int) == Some((c@, e as int)),
        r matches Some((c, e)) ==> p < e <= s@.len(),
{
    match sql_identifier(s, p) {
        Some((id1, e1)) => if byte_is(s, e1, 46) {
            match sql_identifier(s, e1 + 1) {
                Some((id2, e2)) => Some(
                    (Column { name: id2, alias: None, table: Some(id1), function: None }, e2),
                ),
                None => None,
            }
        } else {
            Some((Column { name: id1, alias: None, table: None, function: None }, e1))
        },
        None => None,
    }
}

/// Parses a column identifier without alias (see `p_column_no_alias`).
pub fn column_identifier_no_alias(s: &[u8], p: usize) -> (r: Option<(Column, usize)>)
    ensures
        r is None <==> p_column_no_alias(s@, p as int) is None,
        r matches Some((c, e)) ==> p_column_no_alias(s@, p as int) == Some((c@, e as int)),
        r matches Some((c, e)) ==> p < e <= s@.len(),
    decreases s@.len() - p, 2int,
{
    if p > s.len() {
        return None;
    }
    match column_function(s, p) {
        Some((f, e)) => {
            let name = f.to_string();
            Some((Column { name, alias: None, table: None, function: Some(f) }, e))
        },
        None => qualified(s, p),
    }
}

/// Parses a comma-separated list of columns without aliases.
pub fn field_list(s: &[u8], p: usize) -> (r: (Vec<Column>, usize))
    ensures
        (columns_view(r.0@), r.1 as int) == p_field_list(s@, p as int),
        p <= s@.len() ==> p <= r.1 <= s@.len(),
    decreases s@.len() - p, 3int,
{
    if p > s.len() {
        return (Vec::new(), p);
    }
    match column_identifier_no_alias(s, p) {
        Some((c, e)) => {
            let q = skip_comma(s, e);
            if p < q {
                let (mut rest, e2) = field_list(s, q);
                let ghost old_rest = rest@;
                rest.insert(0, c);
                proof {
                    assert(rest@ =~= seq![c] + old_rest);
                    lemma_columns_view_push_front(c, old_rest);
                }
                (rest, e2)
            } else {
                let mut v = Vec::new();
                v.push(c);
                proof {
                    assert(v@ =~= seq![c] + Seq::<Column>::empty());
                    lemma_columns_view_push_front(c, Seq::empty());
                    assert(columns_view(v@) =~= seq![c@]);
                }
                (v, e)
            }
        },
        None => {
            let v = Vec::new();
            assert(columns_view(v@) =~= Seq::empty());
            (v, p)
        },
    }
}

/// Parses `*` or a list of columns without aliases.
pub fn field_expr(s: &[u8], p: usize) -> (r: (FieldExpression, usize))
    ensures
        (r.0@, r.1 as int) == p_field_expr(s@, p as int),
        p <= s@.len() ==> p <= r.1 <= s@.len(),
    decreases s@.len() - p, 4int,
{
    if p > s.len() {
        let v = Vec::new();
        assert(columns_view(v@) =~= Seq::empty());
        return (FieldExpression::List(v), p);
    }
    if byte_is(s, p, 42) {
        (FieldExpression::All, p + 1)
    } else {
        let (l, e) = field_list(s, p);
        (FieldExpression::List(l), e)
    }
}

} // verus!

verus! {

/// `c` with the alias `a`.
pub open spec fn with_alias(c: ColumnView, a: Seq<char>) -> ColumnView {
    ColumnView { alias: Some(a), ..c }
}

/// Column identifier with an optional `AS` alias. An aggregate without alias
/// is named by its canonical text; with one, by the alias.
pub open spec fn p_column(s: Seq<u8>, p: int) -> Option<(ColumnView, int)> {
    match p_function(s, p) {
        Some((f, e)) => match p_as_alias(s, e) {
            Some((a, e2)) => Some((ColumnView { name: a, ..with_alias(function_column(f), a) }, e2)),
            None => Some((function_column(f), e)),
        },
        None => match p_qualified(s, p) {
            Some((c, e)) => match p_as_alias(s, e) {
                Some((a, e2)) => Some((with_alias(c, a), e2)),
                None => Some((c, e)),
            },
            None => None,
        },
    }
}

/// Parses a column identifier with an optional alias.
#[verifier::rlimit(40)]
pub fn column_identifier(s: &[u8], p: usize) -> (r: Option<(Column, usize)>)
    ensures
        r is None <==> p_column(s@, p as int) is None,
        r matches Some((c, e)) ==> p_column(s@, p as int) == Some((c@, e as int)),
        r matches Some((c, e)) ==> p < e <= s@.len(),
{
    match column_function(s, p) {
        Some((f, e)) => match as_alias(s, e) {
            Some((a, e2)) => {
                let name = a.clone();
                Some((Column { name, alias: Some(a), table: None, function: Some(f) }, e2))
            },
            None => {
                let name = f.to_string();
                Some((Column { name, alias: None, table: None, function: Some(f) }, e))
            },
        },
        None => match qualified(s, p) {
            Some((c, e)) => match as_alias(s, e) {
                Some((a, e2)) => Some((Column { alias: Some(a), ..c }, e2)),
                None => Some((c, e)),
            },
            None => None,
        },
    }
}

/// Comma-separated columns that may carry aliases; possibly none.
pub open spec fn p_field_definition_list(s: Seq<u8>, p: int) -> (Seq<ColumnView>, int)
    decreases s.len() - p,
{
    match p_column(s, p) {
        Some((c, e)) => {
            let q = opt_comma(s, e);
            if p < q <= s.len() {
                let (rest, e2) = p_field_definition_list(s, q);
                (seq![c] + rest, e2)
            } else {
                (seq![c], e)
            }
        },
        None => (Seq::empty(), p),
    }
}

/// Parses a comma-separated list of columns with optional aliases.
pub fn field_definition_list(s: &[u8], p: usize) -> (r: (Vec<Column>, usize))
    ensures
        (columns_view(r.0@), r.1 as int) == p_field_definition_list(s@, p as int),
        p <= s@.len() ==> p <= r.1 <= s@.len(),
    decreases s@.len() - p,
{
    match column_identifier(s, p) {
        Some((c, e)) => {
            let q = skip_comma(s, e);
            if p < q {
                let (mut rest, e2) = field_definition_list(s, q);
                let ghost old_rest = rest@;
                rest.insert(0, c);
                proof {
                    assert(rest@ =~= seq![c] + old_rest);
                    lemma_columns_view_push_front(c, old_rest);
                }
                (rest, e2)
            } else {
                let mut v = Vec::new();
                v.push(c);
                proof {
                    assert(v@ =~= seq![c] + Seq::<Column>::empty());
                    lemma_columns_view_push_front(c, Seq::empty());
                    assert(columns_view(v@) =~= seq![c@]);
                }
                (v, e)
            }
        },
        None => {
            let v = Vec::new();
            assert(columns_view(v@) =~= Seq::empty());
            (v, p)
        },
    }
}

/// `*`, or a list of columns with optional aliases.
pub open spec fn p_field_definition_expr(s: Seq<u8>, p: int) -> (FieldView, int) {
    if byte_at(s, p, 42) {
        (FieldView::All, p + 1)
    } else {
        let (l, e) = p_field_definition_list(s, p);
        (FieldView::List(l), e)
    }
}

/// Parses `*` or a list of columns with optional aliases.
pub fn field_definition_expr(s: &[u8], p: usize) -> (r: (FieldExpression, usize))
    ensures
        (r.0@, r.1 as int) == p_field_definition_expr(s@, p as int),
{
    if byte_is(s, p, 42) {
        (FieldExpression::All, p + 1)
    } else {
        let (l, e) = field_definition_list(s, p);
        (FieldExpression::List(l), e)
    }
}

} // verus!
