use vstd::prelude::*;
use vstd::string::*;

use crate::column::{column_identifier_no_alias, p_column_no_alias, Column, ColumnView};
use crate::common::first_of;
use crate::lex::{
    byte_at, byte_is, opt_comma, p_identifier, p_space, p_tag, p_unsigned, skip_comma, skip_ws,
    space, span, span_end, sql_identifier, tag, text_at, text_of, unsigned_number, ws, ByteClass,
};
use crate::types::{p_type, type_identifier, SqlType};

verus! {

/// A fixed-point number, as its integral and fractional digits read.
#[derive(Clone, Copy, Debug, Hash, PartialEq, Eq, Structural)]
pub struct Real {
    pub integral: i32,
    pub fractional: i32,
}

/// Literal values of column defaults.
#[derive(Clone, Debug, Hash, PartialEq, Eq)]
pub enum Literal {
    Null,
    Integer(i64),
    FixedPoint(Real),
    String(String),
    CurrentTimestamp,
}

pub enum LiteralView {
    Null,
    Integer(i64),
    FixedPoint(Real),
    String(Seq<char>),
    CurrentTimestamp,
}

impl View for Literal {
    type V = LiteralView;

    open spec fn view(&self) -> LiteralView {
        match self {
            Literal::Null => LiteralView::Null,
            Literal::Integer(i) => LiteralView::Integer(*i),
            Literal::FixedPoint(r) => LiteralView::FixedPoint(*r),
            Literal::String(t) => LiteralView::String(t@),
            Literal::CurrentTimestamp => LiteralView::CurrentTimestamp,
        }
    }
}

/// Text between single quotes at `p` (any bytes but a quote): the text and
/// the position after the closing quote.
pub open spec fn p_quoted(s: Seq<u8>, p: int) -> Option<(Seq<char>, int)> {
    let e = span_end(s, p + 1, ByteClass::NotQuote);
    if byte_at(s, p, 39) && byte_at(s, e, 39) {
        match text_of(s.subrange(p + 1, e)) {
            Some(t) => Some((t, e + 1)),
            None => None,
        }
    } else {
        None
    }
}

pub fn quoted(s: &[u8], p: usize) -> (r: Option<(String, usize)>)
    ensures
        r is None <==> p_quoted(s@, p as int) is None,
        r matches Some((t, e)) ==> p_quoted(s@, p as int) == Some((t@, e as int)),
        r matches Some((t, e)) ==> p < e <= s@.len(),
{
    if byte_is(s, p, 39) {
        let e = span(s, p + 1, ByteClass::NotQuote);
        if byte_is(s, e, 39) {
            match text_at(s, p + 1, e) {
                Some(t) => Some((t, e + 1)),
                None => None,
            }
        } else {
            None
        }
    } else {
        None
    }
}

/// `digits.digits`, each part fitting in 32 signed bits.
pub open spec fn p_fixed_point(s: Seq<u8>, p: int) -> Option<(LiteralView, int)> {
    match p_unsigned(s, p) {
        Some((i, e)) => if byte_at(s, e, 46) {
            match p_unsigned(s, e + 1) {
                Some((f, e2)) => if i <= i32::MAX && f <= i32::MAX {
                    Some((LiteralView::FixedPoint(Real { integral: i as i32, fractional: f as i32 }), e2))
                } else {
                    None
                },
                None => None,
            }
        } else {
            None
        },
        None => None,
    }
}

/// Digits fitting in 64 signed bits.
pub open spec fn p_integer(s: Seq<u8>, p: int) -> Option<(LiteralView, int)> {
    match p_unsigned(s, p) {
        Some((i, e)) => if i <= i64::MAX {
            Some((LiteralView::Integer(i as i64), e))
        } else {
            None
        },
        None => None,
    }
}

/// Literal at `p`, alternatives in this order: quoted string, fixed-point
/// number, integer, `NULL`, `CURRENT_TIMESTAMP`.
pub open spec fn p_literal(s: Seq<u8>, p: int) -> Option<(LiteralView, int)> {
    match p_quoted(s, p) {
        Some((t, e)) => Some((LiteralView::String(t), e)),
        None => first_of(p_fixed_point(s, p), first_of(p_integer(s, p),
            match p_tag(s, p, "null".spec_bytes()) {
                Some(e) => Some((LiteralView::Null, e)),
                None => match p_tag(s, p, "current_timestamp".spec_bytes()) {
                    Some(e) => Some((LiteralView::CurrentTimestamp, e)),
                    None => None,
                },
            })),
    }
}

/// Parses a literal.
#[verifier::rlimit(40)]
pub fn literal(s: &[u8], p: usize) -> (r: Option<(Literal, usize)>)
    ensures
        r is None <==> p_literal(s@, p as int) is None,
        r matches Some((l, e)) ==> p_literal(s@, p as int) == Some((l@, e as int)),
        r matches Some((l, e)) ==> p <= e <= s@.len(),
{
    if let Some((t, e)) = quoted(s, p) {
        return Some((Literal::String(t), e));
    }
    if let Some((i, e)) = unsigned_number(s, p) {
        if byte_is(s, e, 46) {
            if let Some((f, e2)) = unsigned_number(s, e + 1) {
                if i <= 2147483647 && f <= 2147483647 {
                    return Some((Literal::FixedPoint(Real { integral: i as i32, fractional: f as i32 }), e2));
                }
            }
        }
        if i <= 9223372036854775807 {
            return Some((Literal::Integer(i as i64), e));
        }
    }
    match tag(s, p, "null") {
        Some(e) => Some((Literal::Null, e)),
        None => match tag(s, p, "current_timestamp") {
            Some(e) => Some((Literal::CurrentTimestamp, e)),
            None => None,
        },
    }
}

/// Column constraints, kept in declaration order.
#[derive(Clone, Debug, Hash, PartialEq, Eq)]
pub enum ColumnConstraint {
    NotNull,
    AutoIncrement,
    DefaultValue(Literal),
    PrimaryKey,
    Unique,
    CharacterSet(String),
    Collation(String),
}

pub enum ConstraintView {
    NotNull,
    AutoIncrement,
    DefaultValue(LiteralView),
    PrimaryKey,
    Unique,
    CharacterSet(Seq<char>),
    Collation(Seq<char>),
}

impl View for ColumnConstraint {
    type V = ConstraintView;

    open spec fn view(&self) -> ConstraintView {
        match self {
            ColumnConstraint::NotNull => ConstraintView::NotNull,
            ColumnConstraint::AutoIncrement => ConstraintView::AutoIncrement,
            ColumnConstraint::DefaultValue(l) => ConstraintView::DefaultValue(l@),
            ColumnConstraint::PrimaryKey => ConstraintView::PrimaryKey,
            ColumnConstraint::Unique => ConstraintView::Unique,
            ColumnConstraint::CharacterSet(t) => ConstraintView::CharacterSet(t@),
            ColumnConstraint::Collation(t) => ConstraintView::Collation(t@),
        }
    }
}

/// A constraint keyword at `p`, standing for `c`, with optional whitespace after it.
pub open spec fn p_flag(s: Seq<u8>, p: int, t: Seq<u8>, c: Option<ConstraintView>) -> Option<(Option<ConstraintView>, int)> {
    match p_tag(s, p, t) {
        Some(e) => Some((c, ws(s, e))),
        None => None,
    }
}

/// A constraint keyword followed by whitespace and an identifier.
pub open spec fn p_named(s: Seq<u8>, p: int, t: Seq<u8>, charset: bool) -> Option<(Option<ConstraintView>, int)> {
    match p_tag(s, p, t) {
        Some(e) => match p_space(s, e) {
            Some(q) => match p_identifier(s, q) {
                Some((n, e2)) => Some((Some(if charset { ConstraintView::CharacterSet(n) } else { ConstraintView::Collation(n) }), e2)),
                None => None,
            },
            None => None,
        },
        None => None,
    }
}

/// `DEFAULT` with whitespace, a literal and optional whitespace.
pub open spec fn p_default(s: Seq<u8>, p: int) -> Option<(Option<ConstraintView>, int)> {
    match p_tag(s, p, "default".spec_bytes()) {
        Some(e) => match p_space(s, e) {
            Some(q) => match p_literal(s, q) {
                Some((l, e2)) => Some((Some(ConstraintView::DefaultValue(l)), ws(s, e2))),
                None => None,
            },
            None => None,
        },
        None => None,
    }
}

/// One column constraint after optional whitespace; alternatives in this
/// order: `NOT NULL`, `NULL` (read, and standing for no constraint),
/// `AUTO_INCREMENT`, `DEFAULT`, `PRIMARY KEY`, `UNIQUE`, `CHARACTER SET`,
/// `COLLATE`.
pub open spec fn p_constraint(s: Seq<u8>, p: int) -> Option<(Option<ConstraintView>, int)> {
    let q = ws(s, p);
    if !(0 <= p <= s.len()) {
        None
    } else {
        first_of(p_flag(s, q, "not null".spec_bytes(), Some(ConstraintView::NotNull)),
        first_of(p_flag(s, q, "null".spec_bytes(), None),
        first_of(p_flag(s, q, "auto_increment".spec_bytes(), Some(ConstraintView::AutoIncrement)),
        first_of(p_default(s, q),
        first_of(p_flag(s, q, "primary key".spec_bytes(), Some(ConstraintView::PrimaryKey)),
        first_of(p_flag(s, q, "unique".spec_bytes(), Some(ConstraintView::Unique)),
        first_of(p_named(s, q, "character set".spec_bytes(), true),
        p_named(s, q, "collate".spec_bytes(), false))))))))
    }
}

pub open spec fn opt_constraint_view(c: Option<ColumnConstraint>) -> Option<ConstraintView> {
    match c {
        Some(x) => Some(x@),
        None => None,
    }
}

fn flag(s: &[u8], p: usize, t: &str, c: Option<ColumnConstraint>) -> (r: Option<(Option<ColumnConstraint>, usize)>)
    ensures
        r is None <==> p_flag(s@, p as int, t.spec_bytes(), opt_constraint_view(c)) is None,
        r matches Some((x, e)) ==> p_flag(s@, p as int, t.spec_bytes(), opt_constraint_view(c))
            == Some((opt_constraint_view(x), e as int)),
        r matches Some((x, e)) ==> p <= e <= s@.len(),
{
    match tag(s, p, t) {
        Some(e) => Some((c, skip_ws(s, e))),
        None => None,
    }
}

fn named(s: &[u8], p: usize, t: &str, charset: bool) -> (r: Option<(Option<ColumnConstraint>, usize)>)
    ensures
        r is None <==> p_named(s@, p as int, t.spec_bytes(), charset) is None,
        r matches Some((x, e)) ==> p_named(s@, p as int, t.spec_bytes(), charset) == Some((opt_constraint_view(x), e as int)),
        r matches Some((x, e)) ==> p <= e <= s@.len(),
{
    match tag(s, p, t) {
        Some(e) => match space(s, e) {
            Some(q) => match sql_identifier(s, q) {
                Some((n, e2)) => Some((Some(if charset { ColumnConstraint::CharacterSet(n) } else { ColumnConstraint::Collation(n) }), e2)),
                None => None,
            },
            None => None,
        },
        None => None,
    }
}

fn default_value(s: &[u8], p: usize) -> (r: Option<(Option<ColumnConstraint>, usize)>)
    ensures
        r is None <==> p_default(s@, p as int) is None,
        r matches Some((x, e)) ==> p_default(s@, p as int) == Some((opt_constraint_view(x), e as int)),
        r matches Some((x, e)) ==> p <= e <= s@.len(),
{
    match tag(s, p, "default") {
        Some(e) => match space(s, e) {
            Some(q) => match literal(s, q) {
                Some((l, e2)) => Some((Some(ColumnConstraint::DefaultValue(l)), skip_ws(s, e2))),
                None => None,
            },
            None => None,
        },
        None => None,
    }
}

/// Parses one column constraint (see `p_constraint`); `Some(None)` for `NULL`.
#[verifier::rlimit(40)]
pub fn column_constraint(s: &[u8], p: usize) -> (r: Option<(Option<ColumnConstraint>, usize)>)
    ensures
        r is None <==> p_constraint(s@, p as int) is None,
        r matches Some((x, e)) ==> p_constraint(s@, p as int) == Some((opt_constraint_view(x), e as int)),
        r matches Some((x, e)) ==> p <= e <= s@.len(),
{
    if p > s.len() {
        return None;
    }
    let q = skip_ws(s, p);
    if let Some(r) = flag(s, q, "not null", Some(ColumnConstraint::NotNull)) {
        return Some(r);
    }
    if let Some(r) = flag(s, q, "null", None) {
        return Some(r);
    }
    if let Some(r) = flag(s, q, "auto_increment", Some(ColumnConstraint::AutoIncrement)) {
        return Some(r);
    }
    if let Some(r) = default_value(s, q) {
        return Some(r);
    }
    if let Some(r) = flag(s, q, "primary key", Some(ColumnConstraint::PrimaryKey)) {
        return Some(r);
    }
    if let Some(r) = flag(s, q, "unique", Some(ColumnConstraint::Unique)) {
        return Some(r);
    }
    if let Some(r) = named(s, q, "character set", true) {
        return Some(r);
    }
    named(s, q, "collate", false)
}

} // verus!

verus! {

pub open spec fn constraints_view(v: Seq<ColumnConstraint>) -> Seq<ConstraintView> {
    v.map_values(|c: ColumnConstraint| c@)
}

/// Zero or more column constraints; the `NULL` marker is dropped.
pub open spec fn p_constraints(s: Seq<u8>, p: int) -> (Seq<ConstraintView>, int)
    decreases s.len() - p,
{
    match p_constraint(s, p) {
        Some((c, e)) => if p < e <= s.len() {
            let (rest, e2) = p_constraints(s, e);
            match c {
                Some(x) => (seq![x] + rest, e2),
                None => (rest, e2),
            }
        } else {
            (Seq::empty(), p)
        },
        None => (Seq::empty(), p),
    }
}

fn constraints(s: &[u8], p: usize) -> (r: (Vec<ColumnConstraint>, usize))
    ensures
        (constraints_view(r.0@), r.1 as int) == p_constraints(s@, p as int),
        p <= s@.len() ==> p <= r.1 <= s@.len(),
    decreases s@.len() - p,
{
    match column_constraint(s, p) {
        Some((c, e)) => if p < e {
            let (mut rest, e2) = constraints(s, e);
            match c {
                Some(x) => {
                    let ghost old_rest = rest@;
                    rest.insert(0, x);
                    assert(constraints_view(rest@) =~= seq![x@] + constraints_view(old_rest));
                    (rest, e2)
                },
                None => (rest, e2),
            }
        } else {
            let v = Vec::new();
            assert(constraints_view(v@) =~= Seq::empty());
            (v, p)
        },
        None => {
            let v = Vec::new();
            assert(constraints_view(v@) =~= Seq::empty());
            (v, p)
        },
    }
}

/// `COMMENT '<text>'` after optional whitespace.
pub open spec fn p_comment(s: Seq<u8>, p: int) -> Option<(Seq<char>, int)> {
    match p_tag(s, ws(s, p), "comment".spec_bytes()) {
        Some(e) => match p_space(s, e) {
            Some(q) => p_quoted(s, q),
            None => None,
        },
        None => None,
    }
}

/// Parses a column comment.
pub fn parse_comment(s: &[u8], p: usize) -> (r: Option<(String, usize)>)
    ensures
        r is None <==> p_comment(s@, p as int) is None,
        r matches Some((t, e)) ==> p_comment(s@, p as int) == Some((t@, e as int)),
        r matches Some((t, e)) ==> p < e <= s@.len(),
{
    if p > s.len() {
        return None;
    }
    match tag(s, skip_ws(s, p), "comment") {
        Some(e) => match space(s, e) {
            Some(q) => quoted(s, q),
            None => None,
        },
        None => None,
    }
}

/// A column of a `CREATE TABLE` body: the column, its type, its constraints
/// in declaration order and an optional comment.
#[derive(Debug, Hash, PartialEq, Eq)]
pub struct ColumnSpecification {
    pub column: Column,
    pub sql_type: SqlType,
    pub constraints: Vec<ColumnConstraint>,
    pub comment: Option<String>,
}

pub struct ColumnSpecView {
    pub column: ColumnView,
    pub sql_type: SqlType,
    pub constraints: Seq<ConstraintView>,
    pub comment: Option<Seq<char>>,
}

impl View for ColumnSpecification {
    type V = ColumnSpecView;

    open spec fn view(&self) -> ColumnSpecView {
        ColumnSpecView {
            column: self.column@,
            sql_type: self.sql_type,
            constraints: constraints_view(self.constraints@),
            comment: crate::table::opt_text(self.comment),
        }
    }
}

impl ColumnSpecification {
    /// A column of the given type, without constraints or comment.
    pub fn new(column: Column, sql_type: SqlType) -> (r: ColumnSpecification)
        ensures
            r@ == (ColumnSpecView { column: column@, sql_type, constraints: Seq::empty(), comment: None }),
    {
        let v = Vec::new();
        assert(constraints_view(v@) =~= Seq::empty());
        ColumnSpecification { column, sql_type, constraints: v, comment: None }
    }

    /// A column of the given type with the given constraints, without comment.
    pub fn with_constraints(column: Column, sql_type: SqlType, constraints: Vec<ColumnConstraint>) -> (r: ColumnSpecification)
        ensures
            r@ == (ColumnSpecView { column: column@, sql_type, constraints: constraints_view(constraints@), comment: None }),
    {
        ColumnSpecification { column, sql_type, constraints, comment: None }
    }
}

/// One column specification: a column without alias, an optional type after
/// whitespace (`TEXT` when left out), constraints, an optional comment, and an
/// optional comma separator.
pub open spec fn p_field_spec(s: Seq<u8>, p: int) -> Option<(ColumnSpecView, int)> {
    match p_column_no_alias(s, p) {
        Some((c, e)) => {
            let (t, e1) = match p_space(s, e) {
                Some(q) => match p_type(s, q) {
                    Some((t, e2)) => (t, ws(s, e2)),
                    None => (SqlType::Text, e),
                },
                None => (SqlType::Text, e),
            };
            let (cs, e3) = p_constraints(s, e1);
            let (cm, e4) = match p_comment(s, e3) {
                Some((t, e5)) => (Some(t), e5),
                None => (None, e3),
            };
            Some((ColumnSpecView { column: c, sql_type: t, constraints: cs, comment: cm }, opt_comma(s, e4)))
        },
        None => None,
    }
}

#[verifier::rlimit(40)]
fn field_spec(s: &[u8], p: usize) -> (r: Option<(ColumnSpecification, usize)>)
    ensures
        r is None <==> p_field_spec(s@, p as int) is None,
        r matches Some((c, e)) ==> p_field_spec(s@, p as int) == Some((c@, e as int)),
        r matches Some((c, e)) ==> p < e <= s@.len(),
{
    match column_identifier_no_alias(s, p) {
        Some((c, e)) => {
            let (t, e1) = match space(s, e) {
                Some(q) => match type_identifier(s, q) {
                    Some((t, e2)) => (t, skip_ws(s, e2)),
                    None => (SqlType::Text, e),
                },
                None => (SqlType::Text, e),
            };
            let (cs, e3) = constraints(s, e1);
            let (cm, e4) = match parse_comment(s, e3) {
                Some((t, e5)) => (Some(t), e5),
                None => (None, e3),
            };
            Some((ColumnSpecification { column: c, sql_type: t, constraints: cs, comment: cm }, skip_comma(s, e4)))
        },
        None => None,
    }
}

pub open spec fn specs_view(v: Seq<ColumnSpecification>) -> Seq<ColumnSpecView> {
    v.map_values(|c: ColumnSpecification| c@)
}

/// Zero or more column specifications.
pub open spec fn p_field_specs(s: Seq<u8>, p: int) -> (Seq<ColumnSpecView>, int)
    decreases s.len() - p,
{
    match p_field_spec(s, p) {
        Some((c, e)) => if p < e <= s.len() {
            let (rest, e2) = p_field_specs(s, e);
            (seq![c] + rest, e2)
        } else {
            (seq![c], e)
        },
        None => (Seq::empty(), p),
    }
}

fn field_specs(s: &[u8], p: usize) -> (r: (Vec<ColumnSpecification>, usize))
    ensures
        (specs_view(r.0@), r.1 as int) == p_field_specs(s@, p as int),
        p <= s@.len() ==> p <= r.1 <= s@.len(),
        r.0@.len() > 0 ==> p < r.1 <= s@.len(),
    decreases s@.len() - p,
{
    match field_spec(s, p) {
        Some((c, e)) => {
            let (mut rest, e2) = field_specs(s, e);
            let ghost old_rest = rest@;
            let ghost cv = c@;
            rest.insert(0, c);
            assert(specs_view(rest@) =~= seq![cv] + specs_view(old_rest));
            (rest, e2)
        },
        None => {
            let v = Vec::new();
            assert(specs_view(v@) =~= Seq::empty());
            (v, p)
        },
    }
}

/// One or more column specifications.
pub open spec fn p_field_specification_list(s: Seq<u8>, p: int) -> Option<(Seq<ColumnSpecView>, int)> {
    let (l, e) = p_field_specs(s, p);
    if l.len() > 0 {
        Some((l, e))
    } else {
        None
    }
}

/// Parses a comma-separated list of column specifications (at least one).
pub fn field_specification_list(s: &[u8], p: usize) -> (r: Option<(Vec<ColumnSpecification>, usize)>)
    ensures
        r is None <==> p_field_specification_list(s@, p as int) is None,
        r matches Some((l, e)) ==> p_field_specification_list(s@, p as int) == Some((specs_view(l@), e as int)),
        r matches Some((l, e)) ==> p < e <= s@.len(),
{
    let (l, e) = field_specs(s, p);
    if l.len() > 0 {
        Some((l, e))
    } else {
        None
    }
}

} // verus!
