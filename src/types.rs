use vstd::prelude::*;
use vstd::string::*;

use crate::common::first_of;
use crate::text::{decimal, push, push_decimal};
use crate::lex::{byte_at, byte_is, p_tag, p_unsigned, skip_ws, tag, unsigned_number, ws};

verus! {

/// Scalar column types, with the parameters that SQL syntax gives them.
#[derive(Clone, Copy, Debug, Hash, PartialEq, Eq, Structural)]
pub enum SqlType {
    Bool,
    Char(u16),
    Varchar(u16),
    Int(u16),
    Bigint(u16),
    Tinyint(u16),
    Blob,
    Longblob,
    Mediumblob,
    Tinyblob,
    Double,
    Float,
    Real,
    Tinytext,
    Mediumtext,
    Longtext,
    Text,
    Date,
    DateTime(u16),
    Timestamp,
    Binary(u16),
    Varbinary(u16),
}

/// The types that carry a width.
#[derive(Clone, Copy, Debug, PartialEq, Eq, Structural)]
pub enum SizedKind {
    Char,
    Varchar,
    Int,
    Bigint,
    Tinyint,
    DateTime,
    Binary,
    Varbinary,
}

pub open spec fn sized_type(k: SizedKind, w: u16) -> SqlType {
    match k {
        SizedKind::Char => SqlType::Char(w),
        SizedKind::Varchar => SqlType::Varchar(w),
        SizedKind::Int => SqlType::Int(w),
        SizedKind::Bigint => SqlType::Bigint(w),
        SizedKind::Tinyint => SqlType::Tinyint(w),
        SizedKind::DateTime => SqlType::DateTime(w),
        SizedKind::Binary => SqlType::Binary(w),
        SizedKind::Varbinary => SqlType::Varbinary(w),
    }
}

fn make_sized(k: SizedKind, w: u16) -> (r: SqlType)
    ensures
        r == sized_type(k, w),
{
    match k {
        SizedKind::Char => SqlType::Char(w),
        SizedKind::Varchar => SqlType::Varchar(w),
        SizedKind::Int => SqlType::Int(w),
        SizedKind::Bigint => SqlType::Bigint(w),
        SizedKind::Tinyint => SqlType::Tinyint(w),
        SizedKind::DateTime => SqlType::DateTime(w),
        SizedKind::Binary => SqlType::Binary(w),
        SizedKind::Varbinary => SqlType::Varbinary(w),
    }
}

/// A width in parentheses, `(n)` with `n` at most 65535.
pub open spec fn p_width(s: Seq<u8>, p: int) -> Option<(u16, int)> {
    if byte_at(s, p, 40) {
        match p_unsigned(s, p + 1) {
            Some((v, e)) => if v <= u16::MAX && byte_at(s, e, 41) {
                Some((v as u16, e + 1))
            } else {
                None
            },
            None => None,
        }
    } else {
        None
    }
}

pub fn width(s: &[u8], p: usize) -> (r: Option<(u16, usize)>)
    ensures
        r is None <==> p_width(s@, p as int) is None,
        r matches Some((w, e)) ==> p_width(s@, p as int) == Some((w, e as int)),
        r matches Some((w, e)) ==> p < e <= s@.len(),
{
    if byte_is(s, p, 40) {
        match unsigned_number(s, p + 1) {
            Some((v, e)) => if v <= 65535 && byte_is(s, e, 41) {
                Some((v as u16, e + 1))
            } else {
                None
            },
            None => None,
        }
    } else {
        None
    }
}

/// Optional trailing word after optional whitespace (`unsigned`, `binary`).
pub open spec fn opt_trailer(s: Seq<u8>, p: int, t: Option<Seq<u8>>) -> int {
    match t {
        Some(w) => match p_tag(s, ws(s, p), w) {
            Some(e) => e,
            None => ws(s, p),
        },
        None => p,
    }
}

/// A type name that takes a width: the name, the width (or `dflt` when it is
/// left out, where a default exists), then an optional trailing word.
pub open spec fn p_sized(
    s: Seq<u8>,
    p: int,
    name: Seq<u8>,
    k: SizedKind,
    dflt: Option<u16>,
    trailer: Option<Seq<u8>>,
) -> Option<(SqlType, int)> {
    match p_tag(s, p, name) {
        Some(e) => match p_width(s, e) {
            Some((w, e2)) => Some((sized_type(k, w), opt_trailer(s, e2, trailer))),
            None => match dflt {
                Some(w) => Some((sized_type(k, w), opt_trailer(s, e, trailer))),
                None => None,
            },
        },
        None => None,
    }
}

pub open spec fn bytes_of(t: Option<&str>) -> Option<Seq<u8>> {
    match t {
        Some(w) => Some(w.spec_bytes()),
        None => None,
    }
}

fn sized(
    s: &[u8],
    p: usize,
    name: &str,
    k: SizedKind,
    dflt: Option<u16>,
    trailer: Option<&str>,
) -> (r: Option<(SqlType, usize)>)
    ensures
        r is None <==> p_sized(s@, p as int, name.spec_bytes(), k, dflt, bytes_of(trailer)) is None,
        r matches Some((t, e)) ==> p_sized(s@, p as int, name.spec_bytes(), k, dflt, bytes_of(trailer))
            == Some((t, e as int)),
        r matches Some((t, e)) ==> p <= e <= s@.len(),
{
    match tag(s, p, name) {
        Some(e) => match width(s, e) {
            Some((w, e2)) => Some((make_sized(k, w), trailing(s, e2, trailer))),
            None => match dflt {
                Some(w) => Some((make_sized(k, w), trailing(s, e, trailer))),
                None => None,
            },
        },
        None => None,
    }
}

fn trailing(s: &[u8], p: usize, t: Option<&str>) -> (r: usize)
    requires
        p <= s@.len(),
    ensures
        r == opt_trailer(s@, p as int, bytes_of(t)),
        p <= r <= s@.len(),
{
    match t {
        Some(w) => {
            let q = skip_ws(s, p);
            match tag(s, q, w) {
                Some(e) => e,
                None => q,
            }
        },
        None => p,
    }
}

/// A type name without parameters.
pub open spec fn p_plain(s: Seq<u8>, p: int, name: Seq<u8>, t: SqlType) -> Option<(SqlType, int)> {
    match p_tag(s, p, name) {
        Some(e) => Some((t, e)),
        None => None,
    }
}

fn plain(s: &[u8], p: usize, name: &str, t: SqlType) -> (r: Option<(SqlType, usize)>)
    ensures
        r is None <==> p_plain(s@, p as int, name.spec_bytes(), t) is None,
        r matches Some((v, e)) ==> p_plain(s@, p as int, name.spec_bytes(), t) == Some((v, e as int)),
        r matches Some((v, e)) ==> p <= e <= s@.len(),
{
    match tag(s, p, name) {
        Some(e) => Some((t, e)),
        None => None,
    }
}

/// `timestamp`, with an optional width that is read and dropped.
pub open spec fn p_timestamp(s: Seq<u8>, p: int) -> Option<(SqlType, int)> {
    match p_tag(s, p, "timestamp".spec_bytes()) {
        Some(e) => match p_width(s, e) {
            Some((_, e2)) => Some((SqlType::Timestamp, e2)),
            None => Some((SqlType::Timestamp, e)),
        },
        None => None,
    }
}

fn timestamp(s: &[u8], p: usize) -> (r: Option<(SqlType, usize)>)
    ensures
        r is None <==> p_timestamp(s@, p as int) is None,
        r matches Some((v, e)) ==> p_timestamp(s@, p as int) == Some((v, e as int)),
        r matches Some((v, e)) ==> p <= e <= s@.len(),
{
    match tag(s, p, "timestamp") {
        Some(e) => match width(s, e) {
            Some((_, e2)) => Some((SqlType::Timestamp, e2)),
            None => Some((SqlType::Timestamp, e)),
        },
        None => None,
    }
}

/// Column type at `p`. Alternatives are tried in this order, so that no name
/// is tried after another name that is a prefix of it; `int`, `integer` and
/// `smallint` all read as `Int`.
pub open spec fn p_type(s: Seq<u8>, p: int) -> Option<(SqlType, int)> {
    first_of(p_plain(s, p, "bool".spec_bytes(), SqlType::Bool),
    first_of(p_plain(s, p, "mediumtext".spec_bytes(), SqlType::Mediumtext),
    first_of(p_plain(s, p, "mediumblob".spec_bytes(), SqlType::Mediumblob),
    first_of(p_plain(s, p, "longtext".spec_bytes(), SqlType::Longtext),
    first_of(p_plain(s, p, "longblob".spec_bytes(), SqlType::Longblob),
    first_of(p_plain(s, p, "tinytext".spec_bytes(), SqlType::Tinytext),
    first_of(p_plain(s, p, "tinyblob".spec_bytes(), SqlType::Tinyblob),
    first_of(p_sized(s, p, "tinyint".spec_bytes(), SizedKind::Tinyint, Some(1u16), Some("unsigned".spec_bytes())),
    first_of(p_sized(s, p, "bigint".spec_bytes(), SizedKind::Bigint, Some(1u16), Some("unsigned".spec_bytes())),
    first_of(p_sized(s, p, "smallint".spec_bytes(), SizedKind::Int, Some(32u16), Some("unsigned".spec_bytes())),
    first_of(p_sized(s, p, "integer".spec_bytes(), SizedKind::Int, Some(32u16), Some("unsigned".spec_bytes())),
    first_of(p_sized(s, p, "int".spec_bytes(), SizedKind::Int, Some(32u16), Some("unsigned".spec_bytes())),
    first_of(p_plain(s, p, "double".spec_bytes(), SqlType::Double),
    first_of(p_plain(s, p, "float".spec_bytes(), SqlType::Float),
    first_of(p_plain(s, p, "real".spec_bytes(), SqlType::Real),
    first_of(p_plain(s, p, "blob".spec_bytes(), SqlType::Blob),
    first_of(p_sized(s, p, "datetime".spec_bytes(), SizedKind::DateTime, Some(0u16), None),
    first_of(p_plain(s, p, "date".spec_bytes(), SqlType::Date),
    first_of(p_timestamp(s, p),
    first_of(p_plain(s, p, "text".spec_bytes(), SqlType::Text),
    first_of(p_sized(s, p, "varchar".spec_bytes(), SizedKind::Varchar, None, Some("binary".spec_bytes())),
    first_of(p_sized(s, p, "char".spec_bytes(), SizedKind::Char, None, Some("binary".spec_bytes())),
    first_of(p_sized(s, p, "varbinary".spec_bytes(), SizedKind::Varbinary, None, None),
    p_sized(s, p, "binary".spec_bytes(), SizedKind::Binary, None, None))))))))))))))))))))))))
}

/// Parses a column type.
#[verifier::rlimit(40)]
pub fn type_identifier(s: &[u8], p: usize) -> (r: Option<(SqlType, usize)>)
    ensures
        r is None <==> p_type(s@, p as int) is None,
        r matches Some((v, e)) ==> p_type(s@, p as int) == Some((v, e as int)),
        r matches Some((v, e)) ==> p <= e <= s@.len(),
{
    if let Some(r) = plain(s, p, "bool", SqlType::Bool) {
        return Some(r);
    }
    if let Some(r) = plain(s, p, "mediumtext", SqlType::Mediumtext) {
        return Some(r);
    }
    if let Some(r) = plain(s, p, "mediumblob", SqlType::Mediumblob) {
        return Some(r);
    }
    if let Some(r) = plain(s, p, "longtext", SqlType::Longtext) {
        return Some(r);
    }
    if let Some(r) = plain(s, p, "longblob", SqlType::Longblob) {
        return Some(r);
    }
    if let Some(r) = plain(s, p, "tinytext", SqlType::Tinytext) {
        return Some(r);
    }
    if let Some(r) = plain(s, p, "tinyblob", SqlType::Tinyblob) {
        return Some(r);
    }
    if let Some(r) = sized(s, p, "tinyint", SizedKind::Tinyint, Some(1u16), Some("unsigned")) {
        return Some(r);
    }
    if let Some(r) = sized(s, p, "bigint", SizedKind::Bigint, Some(1u16), Some("unsigned")) {
        return Some(r);
    }
    if let Some(r) = sized(s, p, "smallint", SizedKind::Int, Some(32u16), Some("unsigned")) {
        return Some(r);
    }
    if let Some(r) = sized(s, p, "integer", SizedKind::Int, Some(32u16), Some("unsigned")) {
        return Some(r);
    }
    if let Some(r) = sized(s, p, "int", SizedKind::Int, Some(32u16), Some("unsigned")) {
        return Some(r);
    }
    if let Some(r) = plain(s, p, "double", SqlType::Double) {
        return Some(r);
    }
    if let Some(r) = plain(s, p, "float", SqlType::Float) {
        return Some(r);
    }
    if let Some(r) = plain(s, p, "real", SqlType::Real) {
        return Some(r);
    }
    if let Some(r) = plain(s, p, "blob", SqlType::Blob) {
        return Some(r);
    }
    if let Some(r) = sized(s, p, "datetime", SizedKind::DateTime, Some(0u16), None) {
        return Some(r);
    }
    if let Some(r) = plain(s, p, "date", SqlType::Date) {
        return Some(r);
    }
    if let Some(r) = timestamp(s, p) {
        return Some(r);
    }
    if let Some(r) = plain(s, p, "text", SqlType::Text) {
        return Some(r);
    }
    if let Some(r) = sized(s, p, "varchar", SizedKind::Varchar, None, Some("binary")) {
        return Some(r);
    }
    if let Some(r) = sized(s, p, "char", SizedKind::Char, None, Some("binary")) {
        return Some(r);
    }
    if let Some(r) = sized(s, p, "varbinary", SizedKind::Varbinary, None, None) {
        return Some(r);
    }
    sized(s, p, "binary", SizedKind::Binary, None, None)
}

} // verus!

verus! {

/// `name(width)`.
pub open spec fn with_width(name: Seq<char>, w: u16) -> Seq<char> {
    name + "("@ + decimal(w as nat) + ")"@
}

/// Canonical text of a column type: the name in upper case, with the width in
/// parentheses for the types that carry one.
pub open spec fn sql_type_text(t: SqlType) -> Seq<char> {
    match t {
        SqlType::Bool => "BOOL"@,
        SqlType::Char(w) => with_width("CHAR"@, w),
        SqlType::Varchar(w) => with_width("VARCHAR"@, w),
        SqlType::Int(w) => with_width("INT"@, w),
        SqlType::Bigint(w) => with_width("BIGINT"@, w),
        SqlType::Tinyint(w) => with_width("TINYINT"@, w),
        SqlType::Blob => "BLOB"@,
        SqlType::Longblob => "LONGBLOB"@,
        SqlType::Mediumblob => "MEDIUMBLOB"@,
        SqlType::Tinyblob => "TINYBLOB"@,
        SqlType::Double => "DOUBLE"@,
        SqlType::Float => "FLOAT"@,
        SqlType::Real => "REAL"@,
        SqlType::Tinytext => "TINYTEXT"@,
        SqlType::Mediumtext => "MEDIUMTEXT"@,
        SqlType::Longtext => "LONGTEXT"@,
        SqlType::Text => "TEXT"@,
        SqlType::Date => "DATE"@,
        SqlType::DateTime(w) => with_width("DATETIME"@, w),
        SqlType::Timestamp => "TIMESTAMP"@,
        SqlType::Binary(w) => with_width("BINARY"@, w),
        SqlType::Varbinary(w) => with_width("VARBINARY"@, w),
    }
}

fn push_with_width(out: &mut String, name: &str, w: u16)
    ensures
        final(out)@ == old(out)@ + with_width(name@, w),
{
    push(out, name);
    push(out, "(");
    push_decimal(out, w as u64);
    push(out, ")");
    assert(final(out)@ =~= old(out)@ + with_width(name@, w));
}

impl SqlType {
    /// Appends the canonical text of the type.
    pub fn write_to(&self, out: &mut String)
        ensures
            final(out)@ == old(out)@ + sql_type_text(*self),
    {
        match *self {
            SqlType::Bool => push(out, "BOOL"),
            SqlType::Char(w) => push_with_width(out, "CHAR", w),
            SqlType::Varchar(w) => push_with_width(out, "VARCHAR", w),
            SqlType::Int(w) => push_with_width(out, "INT", w),
            SqlType::Bigint(w) => push_with_width(out, "BIGINT", w),
            SqlType::Tinyint(w) => push_with_width(out, "TINYINT", w),
            SqlType::Blob => push(out, "BLOB"),
            SqlType::Longblob => push(out, "LONGBLOB"),
            SqlType::Mediumblob => push(out, "MEDIUMBLOB"),
            SqlType::Tinyblob => push(out, "TINYBLOB"),
            SqlType::Double => push(out, "DOUBLE"),
            SqlType::Float => push(out, "FLOAT"),
            SqlType::Real => push(out, "REAL"),
            SqlType::Tinytext => push(out, "TINYTEXT"),
            SqlType::Mediumtext => push(out, "MEDIUMTEXT"),
            SqlType::Longtext => push(out, "LONGTEXT"),
            SqlType::Text => push(out, "TEXT"),
            SqlType::Date => push(out, "DATE"),
            SqlType::DateTime(w) => push_with_width(out, "DATETIME", w),
            SqlType::Timestamp => push(out, "TIMESTAMP"),
            SqlType::Binary(w) => push_with_width(out, "BINARY", w),
            SqlType::Varbinary(w) => push_with_width(out, "VARBINARY", w),
        }
    }

    /// The canonical text of the type.
    pub fn to_string(&self) -> (r: String)
        ensures
            r@ == sql_type_text(*self),
    {
        let mut out = String::new();
        self.write_to(&mut out);
        assert(out@ =~= sql_type_text(*self));
        out
    }
}

} // verus!
