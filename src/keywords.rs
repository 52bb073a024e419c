use vstd::prelude::*;
use vstd::string::*;

use crate::lex::{ascii_lower, tag_at, tag_is};

verus! {
/// Number of entries in the reserved-word table.
pub const KEYWORD_COUNT: usize = 125;
/// The reserved-word table, upper case.
pub open spec fn keyword(i: int) -> &'static str {
    if i == 0 {
        "ABORT"
    } else if i == 1 {
        "ACTION"
    } else if i == 2 {
        "ADD"
    } else if i == 3 {
        "AFTER"
    } else if i == 4 {
        "ALL"
    } else if i == 5 {
        "ALTER"
    } else if i == 6 {
        "ANALYZE"
    } else if i == 7 {
        "AND"
    } else if i == 8 {
        "AS"
    } else if i == 9 {
        "ASC"
    } else if i == 10 {
        "ATTACH"
    } else if i == 11 {
        "AUTOINCREMENT"
    } else if i == 12 {
        "BEFORE"
    } else if i == 13 {
        "BEGIN"
    } else if i == 14 {
        "BETWEEN"
    } else if i == 15 {
        "BY"
    } else if i == 16 {
        "CASCADE"
    } else if i == 17 {
        "CASE"
    } else if i == 18 {
        "CAST"
    } else if i == 19 {
        "CHECK"
    } else if i == 20 {
        "COLLATE"
    } else if i == 21 {
        "COLUMN"
    } else if i == 22 {
        "COMMIT"
    } else if i == 23 {
        "CONFLICT"
    } else if i == 24 {
        "CONSTRAINT"
    } else if i == 25 {
        "CREATE"
    } else if i == 26 {
        "CROSS"
    } else if i == 27 {
        "CURRENT_DATE"
    } else if i == 28 {
        "CURRENT_TIME"
    } else if i == 29 {
        "CURRENT_TIMESTAMP"
    } else if i == 30 {
        "DATABASE"
    } else if i == 31 {
        "DEFAULT"
    } else if i == 32 {
        "DEFERRABLE"
    } else if i == 33 {
        "DEFERRED"
    } else if i == 34 {
        "DELETE"
    } else if i == 35 {
        "DESC"
    } else if i == 36 {
        "DETACH"
    } else if i == 37 {
        "DISTINCT"
    } else if i == 38 {
        "DROP"
    } else if i == 39 {
        "EACH"
    } else if i == 40 {
        "ELSE"
    } else if i == 41 {
        "END"
    } else if i == 42 {
        "ESCAPE"
    } else if i == 43 {
        "EXCEPT"
    } else if i == 44 {
        "EXCLUSIVE"
    } else if i == 45 {
        "EXISTS"
    } else if i == 46 {
        "EXPLAIN"
    } else if i == 47 {
        "FAIL"
    } else if i == 48 {
        "FOR"
    } else if i == 49 {
        "FOREIGN"
    } else if i == 50 {
        "FROM"
    } else if i == 51 {
        "FULL"
    } else if i == 52 {
        "FULLTEXT"
    } else if i == 53 {
        "GLOB"
    } else if i == 54 {
        "GROUP"
    } else if i == 55 {
        "HAVING"
    } else if i == 56 {
        "IF"
    } else if i == 57 {
        "IGNORE"
    } else if i == 58 {
        "IMMEDIATE"
    } else if i == 59 {
        "IN"
    } else if i == 60 {
        "INDEX"
    } else if i == 61 {
        "INDEXED"
    } else if i == 62 {
        "INITIALLY"
    } else if i == 63 {
        "INNER"
    } else if i == 64 {
        "INSERT"
    } else if i == 65 {
        "INSTEAD"
    } else if i == 66 {
        "INTERSECT"
    } else if i == 67 {
        "INTO"
    } else if i == 68 {
        "IS"
    } else if i == 69 {
        "ISNULL"
    } else if i == 70 {
        "JOIN"
    } else if i == 71 {
        "KEY"
    } else if i == 72 {
        "LEFT"
    } else if i == 73 {
        "LIKE"
    } else if i == 74 {
        "LIMIT"
    } else if i == 75 {
        "MATCH"
    } else if i == 76 {
        "NATURAL"
    } else if i == 77 {
        "NO"
    } else if i == 78 {
        "NOT"
    } else if i == 79 {
        "NOTNULL"
    } else if i == 80 {
        "NULL"
    } else if i == 81 {
        "OF"
    } else if i == 82 {
        "OFFSET"
    } else if i == 83 {
        "ON"
    } else if i == 84 {
        "OR"
    } else if i == 85 {
        "ORDER"
    } else if i == 86 {
        "OUTER"
    } else if i == 87 {
        "PLAN"
    } else if i == 88 {
        "PRAGMA"
    } else if i == 89 {
        "PRIMARY"
    } else if i == 90 {
        "QUERY"
    } else if i == 91 {
        "RAISE"
    } else if i == 92 {
        "RECURSIVE"
    } else if i == 93 {
        "REFERENCES"
    } else if i == 94 {
        "REGEXP"
    } else if i == 95 {
        "REINDEX"
    } else if i == 96 {
        "RELEASE"
    } else if i == 97 {
        "RENAME"
    } else if i == 98 {
        "REPLACE"
    } else if i == 99 {
        "RESTRICT"
    } else if i == 100 {
        "RIGHT"
    } else if i == 101 {
        "ROLLBACK"
    } else if i == 102 {
        "ROW"
    } else if i == 103 {
        "SAVEPOINT"
    } else if i == 104 {
        "SELECT"
    } else if i == 105 {
        "SET"
    } else if i == 106 {
        "TABLE"
    } else if i == 107 {
        "TEMP"
    } else if i == 108 {
        "TEMPORARY"
    } else if i == 109 {
        "THEN"
    } else if i == 110 {
        "TO"
    } else if i == 111 {
        "TRANSACTION"
    } else if i == 112 {
        "TRIGGER"
    } else if i == 113 {
        "UNION"
    } else if i == 114 {
        "UNIQUE"
    } else if i == 115 {
        "UPDATE"
    } else if i == 116 {
        "USING"
    } else if i == 117 {
        "VACUUM"
    } else if i == 118 {
        "VALUES"
    } else if i == 119 {
        "VIEW"
    } else if i == 120 {
        "VIRTUAL"
    } else if i == 121 {
        "WHEN"
    } else if i == 122 {
        "WHERE"
    } else if i == 123 {
        "WITH"
    } else {
        "WITHOUT"
    }
}

/// Exec access to the reserved-word table.
fn keyword_text(i: usize) -> (r: &'static str)
    ensures
        r == keyword(i as int),
{
    if i == 0 {
        "ABORT"
    } else if i == 1 {
        "ACTION"
    } else if i == 2 {
        "ADD"
    } else if i == 3 {
        "AFTER"
    } else if i == 4 {
        "ALL"
    } else if i == 5 {
        "ALTER"
    } else if i == 6 {
        "ANALYZE"
    } else if i == 7 {
        "AND"
    } else if i == 8 {
        "AS"
    } else if i == 9 {
        "ASC"
    } else if i == 10 {
        "ATTACH"
    } else if i == 11 {
        "AUTOINCREMENT"
    } else if i == 12 {
        "BEFORE"
    } else if i == 13 {
        "BEGIN"
    } else if i == 14 {
        "BETWEEN"
    } else if i == 15 {
        "BY"
    } else if i == 16 {
        "CASCADE"
    } else if i == 17 {
        "CASE"
    } else if i == 18 {
        "CAST"
    } else if i == 19 {
        "CHECK"
    } else if i == 20 {
        "COLLATE"
    } else if i == 21 {
        "COLUMN"
    } else if i == 22 {
        "COMMIT"
    } else if i == 23 {
        "CONFLICT"
    } else if i == 24 {
        "CONSTRAINT"
    } else if i == 25 {
        "CREATE"
    } else if i == 26 {
        "CROSS"
    } else if i == 27 {
        "CURRENT_DATE"
    } else if i == 28 {
        "CURRENT_TIME"
    } else if i == 29 {
        "CURRENT_TIMESTAMP"
    } else if i == 30 {
        "DATABASE"
    } else if i == 31 {
        "DEFAULT"
    } else if i == 32 {
        "DEFERRABLE"
    } else if i == 33 {
        "DEFERRED"
    } else if i == 34 {
        "DELETE"
    } else if i == 35 {
        "DESC"
    } else if i == 36 {
        "DETACH"
    } else if i == 37 {
        "DISTINCT"
    } else if i == 38 {
        "DROP"
    } else if i == 39 {
        "EACH"
    } else if i == 40 {
        "ELSE"
    } else if i == 41 {
        "END"
    } else if i == 42 {
        "ESCAPE"
    } else if i == 43 {
        "EXCEPT"
    } else if i == 44 {
        "EXCLUSIVE"
    } else if i == 45 {
        "EXISTS"
    } else if i == 46 {
        "EXPLAIN"
    } else if i == 47 {
        "FAIL"
    } else if i == 48 {
        "FOR"
    } else if i == 49 {
        "FOREIGN"
    } else if i == 50 {
        "FROM"
    } else if i == 51 {
        "FULL"
    } else if i == 52 {
        "FULLTEXT"
    } else if i == 53 {
        "GLOB"
    } else if i == 54 {
        "GROUP"
    } else if i == 55 {
        "HAVING"
    } else if i == 56 {
        "IF"
    } else if i == 57 {
        "IGNORE"
    } else if i == 58 {
        "IMMEDIATE"
    } else if i == 59 {
        "IN"
    } else if i == 60 {
        "INDEX"
    } else if i == 61 {
        "INDEXED"
    } else if i == 62 {
        "INITIALLY"
    } else if i == 63 {
        "INNER"
    } else if i == 64 {
        "INSERT"
    } else if i == 65 {
        "INSTEAD"
    } else if i == 66 {
        "INTERSECT"
    } else if i == 67 {
        "INTO"
    } else if i == 68 {
        "IS"
    } else if i == 69 {
        "ISNULL"
    } else if i == 70 {
        "JOIN"
    } else if i == 71 {
        "KEY"
    } else if i == 72 {
        "LEFT"
    } else if i == 73 {
        "LIKE"
    } else if i == 74 {
        "LIMIT"
    } else if i == 75 {
        "MATCH"
    } else if i == 76 {
        "NATURAL"
    } else if i == 77 {
        "NO"
    } else if i == 78 {
        "NOT"
    } else if i == 79 {
        "NOTNULL"
    } else if i == 80 {
        "NULL"
    } else if i == 81 {
        "OF"
    } else if i == 82 {
        "OFFSET"
    } else if i == 83 {
        "ON"
    } else if i == 84 {
        "OR"
    } else if i == 85 {
        "ORDER"
    } else if i == 86 {
        "OUTER"
    } else if i == 87 {
        "PLAN"
    } else if i == 88 {
        "PRAGMA"
    } else if i == 89 {
        "PRIMARY"
    } else if i == 90 {
        "QUERY"
    } else if i == 91 {
        "RAISE"
    } else if i == 92 {
        "RECURSIVE"
    } else if i == 93 {
        "REFERENCES"
    } else if i == 94 {
        "REGEXP"
    } else if i == 95 {
        "REINDEX"
    } else if i == 96 {
        "RELEASE"
    } else if i == 97 {
        "RENAME"
    } else if i == 98 {
        "REPLACE"
    } else if i == 99 {
        "RESTRICT"
    } else if i == 100 {
        "RIGHT"
    } else if i == 101 {
        "ROLLBACK"
    } else if i == 102 {
        "ROW"
    } else if i == 103 {
        "SAVEPOINT"
    } else if i == 104 {
        "SELECT"
    } else if i == 105 {
        "SET"
    } else if i == 106 {
        "TABLE"
    } else if i == 107 {
        "TEMP"
    } else if i == 108 {
        "TEMPORARY"
    } else if i == 109 {
        "THEN"
    } else if i == 110 {
        "TO"
    } else if i == 111 {
        "TRANSACTION"
    } else if i == 112 {
        "TRIGGER"
    } else if i == 113 {
        "UNION"
    } else if i == 114 {
        "UNIQUE"
    } else if i == 115 {
        "UPDATE"
    } else if i == 116 {
        "USING"
    } else if i == 117 {
        "VACUUM"
    } else if i == 118 {
        "VALUES"
    } else if i == 119 {
        "VIEW"
    } else if i == 120 {
        "VIRTUAL"
    } else if i == 121 {
        "WHEN"
    } else if i == 122 {
        "WHERE"
    } else if i == 123 {
        "WITH"
    } else {
        "WITHOUT"
    }
}

/// `w` spells `k` up to ASCII case.
pub open spec fn same_word(w: Seq<u8>, k: Seq<u8>) -> bool {
    w.len() == k.len() && forall|i: int| 0 <= i < w.len() ==> ascii_lower(w[i]) == ascii_lower(k[i])
}

/// `w` is a reserved word of the SQL dialect (compared without regard to ASCII case).
pub open spec fn is_reserved(w: Seq<u8>) -> bool {
    exists|i: int| 0 <= i < KEYWORD_COUNT && same_word(w, #[trigger] keyword(i).spec_bytes())
}

/// Whether the bytes `s[a..b]` form a reserved word.
pub fn is_reserved_at(s: &[u8], a: usize, b: usize) -> (r: bool)
    requires
        a <= b <= s@.len(),
    ensures
        r == is_reserved(s@.subrange(a as int, b as int)),
{
    let w = Ghost(s@.subrange(a as int, b as int));
    let mut i: usize = 0;
    while i < KEYWORD_COUNT
        invariant
            i <= KEYWORD_COUNT,
            a <= b <= s@.len(),
            w@ == s@.subrange(a as int, b as int),
            forall|j: int| 0 <= j < i ==> !same_word(w@, #[trigger] keyword(j).spec_bytes()),
        decreases KEYWORD_COUNT - i,
    {
        let k = keyword_text(i);
        let kb = k.as_bytes();
        if kb.len() == b - a && tag_is(s, a, k) {
            assert(same_word(w@, keyword(i as int).spec_bytes()));
            return true;
        }
        proof {
            if same_word(w@, keyword(i as int).spec_bytes()) {
                assert(tag_at(s@, a as int, k.spec_bytes()));
            }
        }
        i += 1;
    }
    false
}

} // verus!

verus! {

/// Identifier text as the formatter writes it: in backticks when it spells a
/// reserved word, bare otherwise.
pub open spec fn escaped(w: Seq<char>) -> Seq<char> {
    if is_reserved(vstd::utf8::encode_utf8(w)) {
        "`"@ + w + "`"@
    } else {
        w
    }
}

/// Appends `w`, escaped when it is a reserved word.
pub fn push_escaped(out: &mut String, w: &str)
    ensures
        final(out)@ == old(out)@ + escaped(w@),
{
    let b = w.as_bytes();
    assert(b@.subrange(0, b@.len() as int) =~= b@);
    if is_reserved_at(b, 0, b.len()) {
        out.append("`");
        out.append(w);
        out.append("`");
        assert(final(out)@ =~= old(out)@ + escaped(w@));
    } else {
        out.append(w);
    }
}

/// `w`, escaped when it is a reserved word.
pub fn escape_if_keyword(w: &str) -> (r: String)
    ensures
        r@ == escaped(w@),
{
    let mut out = String::new();
    push_escaped(&mut out, w);
    assert(out@ =~= escaped(w@));
    out
}

} // verus!
