use vstd::prelude::*;
use vstd::string::*;
use vstd::utf8::*;

use crate::keywords::{escaped, is_reserved};
use crate::format::{create_table_text, fields_text, fkeys_part, keys_part};
use crate::create::CreateTableView;
use crate::lex::{in_class, p_identifier, span_end, text_of, ByteClass};

verus! {

broadcast use {is_ascii_chars_encode_utf8, encode_utf8_valid_utf8, encode_utf8_decode_utf8};

/// Text that can stand as an identifier: non-empty, made of ASCII letters,
/// digits and `_`.
pub open spec fn is_identifier_text(k: Seq<char>) -> bool {
    k.len() > 0 && is_ascii_chars(k) && forall|i: int|
        0 <= i < k.len() ==> in_class(ByteClass::Ident, #[trigger] k[i] as u8)
}

/// A run of class `c` from `p` that stops at `e` ends there.
pub proof fn lemma_span_run(s: Seq<u8>, p: int, e: int, c: ByteClass)
    requires
        0 <= p <= e <= s.len(),
        forall|i: int| p <= i < e ==> in_class(c, #[trigger] s[i]),
        e == s.len() || !in_class(c, s[e]),
    ensures
        span_end(s, p, c) == e,
    decreases e - p,
{
    if p < e {
        lemma_span_run(s, p + 1, e, c);
    }
}

/// What the formatter writes for an identifier reads back, through the
/// identifier grammar, as that identifier, consuming the whole text: a reserved
/// word is written in backticks, any other identifier bare.
pub proof fn lemma_identifier_round_trip(k: Seq<char>)
    requires
        is_identifier_text(k),
    ensures
        is_reserved(encode_utf8(k)) ==> escaped(k) == "`"@ + k + "`"@,
        !is_reserved(encode_utf8(k)) ==> escaped(k) == k,
        p_identifier(encode_utf8(escaped(k)), 0) == Some((k, encode_utf8(escaped(k)).len() as int)),
{
    reveal_strlit("`");
    let n = k.len() as int;
    if is_reserved(encode_utf8(k)) {
        let w = "`"@ + k + "`"@;
        assert(is_ascii_chars(w)) by {
            assert forall|i: int| 0 <= i < w.len() implies '\0' <= #[trigger] w[i] <= '\u{7f}' by {
                if 1 <= i <= n {
                    assert(w[i] == k[i - 1]);
                }
            }
        }
        let b = encode_utf8(w);
        assert(b.len() == n + 2);
        assert(b[0] == 96u8);
        assert(b[n + 1] == 96u8);
        assert forall|i: int| 1 <= i < n + 1 implies in_class(ByteClass::Ident, #[trigger] b[i]) by {
            assert(w[i] == k[i - 1]);
            assert(b[i] == w[i] as u8);
        }
        lemma_span_run(b, 1, n + 1, ByteClass::Ident);
        lemma_span_run(b, 0, 0, ByteClass::Ident);
        assert(b.subrange(1, n + 1) =~= encode_utf8(k)) by {
            assert forall|i: int| 0 <= i < n implies b.subrange(1, n + 1)[i] == encode_utf8(k)[i] by {
                assert(w[i + 1] == k[i]);
                assert(b[i + 1] == w[i + 1] as u8);
            }
        }
        assert(text_of(b.subrange(1, n + 1)) == Some(k));
    } else {
        let b = encode_utf8(k);
        assert forall|i: int| 0 <= i < n implies in_class(ByteClass::Ident, #[trigger] b[i]) by {
            assert(b[i] == k[i] as u8);
        }
        lemma_span_run(b, 0, n, ByteClass::Ident);
        assert(b.subrange(0, n) =~= b);
    }
}

} // verus!

verus! {

/// Encoding text piece by piece gives the encoding of the whole.
pub proof fn lemma_encode_concat(a: Seq<char>, b: Seq<char>)
    ensures
        encode_utf8(a + b) == encode_utf8(a) + encode_utf8(b),
    decreases a.len(),
{
    if a.len() == 0 {
        assert(a + b =~= b);
        assert(encode_utf8(a) + encode_utf8(b) =~= encode_utf8(b));
    } else {
        assert((a + b).drop_first() =~= a.drop_first() + b);
        lemma_encode_concat(a.drop_first(), b);
        assert((a + b)[0] == a[0]);
        assert(encode_utf8(a + b) =~= encode_utf8(a) + encode_utf8(b));
    }
}

/// The identifier grammar, run where the formatter wrote an identifier inside
/// a longer text, reads that identifier back, provided the text goes on with a
/// byte that cannot continue an identifier (or ends).
pub proof fn lemma_identifier_in_text(pre: Seq<u8>, k: Seq<char>, post: Seq<u8>)
    requires
        is_identifier_text(k),
        post.len() == 0 || !in_class(ByteClass::Ident, post[0]),
    ensures
        p_identifier(pre + encode_utf8(escaped(k)) + post, pre.len() as int) == Some(
            (k, (pre.len() + encode_utf8(escaped(k)).len()) as int),
        ),
{
    lemma_identifier_round_trip(k);
    let e = encode_utf8(escaped(k));
    let s = pre + e + post;
    let p = pre.len() as int;
    let n = k.len() as int;
    assert forall|i: int| 0 <= i < e.len() implies #[trigger] s[p + i] == e[i] by {}
    assert(s.subrange(p, p + e.len()) =~= e);
    reveal_strlit("`");
    if is_reserved(encode_utf8(k)) {
        let w = "`"@ + k + "`"@;
        assert(is_ascii_chars(w)) by {
            assert forall|i: int| 0 <= i < w.len() implies '\0' <= #[trigger] w[i] <= '\u{7f}' by {
                if 1 <= i <= n {
                    assert(w[i] == k[i - 1]);
                }
            }
        }
        assert(e.len() == n + 2);
        assert(s[p] == 96u8);
        assert(s[p + n + 1] == 96u8) by {
            assert(s[p + (n + 1)] == e[n + 1]);
        }
        assert forall|i: int| p + 1 <= i < p + n + 1 implies in_class(ByteClass::Ident, #[trigger] s[i]) by {
            assert(s[p + (i - p)] == e[i - p]);
            assert(w[i - p] == k[i - p - 1]);
        }
        lemma_span_run(s, p + 1, p + n + 1, ByteClass::Ident);
        lemma_span_run(s, p, p, ByteClass::Ident);
        assert(s.subrange(p + 1, p + n + 1) =~= encode_utf8(k)) by {
            assert forall|i: int| 0 <= i < n implies s.subrange(p + 1, p + n + 1)[i] == encode_utf8(k)[i] by {
                assert(s[p + (i + 1)] == e[i + 1]);
                assert(w[i + 1] == k[i]);
            }
        }
    } else {
        assert(e == encode_utf8(k));
        assert(e.len() == n);
        assert forall|i: int| p <= i < p + n implies in_class(ByteClass::Ident, #[trigger] s[i]) by {
            assert(s[p + (i - p)] == e[i - p]);
            assert(e[i - p] == k[i - p] as u8);
        }
        if post.len() > 0 {
            assert(s[p + n] == post[0]);
        }
        lemma_span_run(s, p, p + n, ByteClass::Ident);
        assert(s.subrange(p, p + n) =~= e);
    }
}

/// The identifier grammar reads back an identifier written after the
/// thirteen-character `CREATE TABLE ` and followed by a space.
proof fn lemma_name_after_create_table(k: Seq<char>, rest: Seq<char>)
    requires
        is_identifier_text(k),
        rest.len() > 0,
        rest[0] == ' ',
    ensures
        p_identifier(encode_utf8("CREATE TABLE "@ + escaped(k) + rest), 13) == Some(
            (k, (13 + encode_utf8(escaped(k)).len()) as int),
        ),
{
    reveal_strlit("CREATE TABLE ");
    let pre = "CREATE TABLE "@;
    assert(is_ascii_chars(pre));
    assert(encode_utf8(pre).len() == 13);
    lemma_encode_concat(pre + escaped(k), rest);
    lemma_encode_concat(pre, escaped(k));
    assert(rest =~= seq![rest[0]] + rest.drop_first());
    lemma_encode_concat(seq![rest[0]], rest.drop_first());
    assert(is_ascii_chars(seq![rest[0]]));
    assert(encode_utf8(rest)[0] == 32u8);
    lemma_identifier_in_text(encode_utf8(pre), k, encode_utf8(rest));
}

/// Keyword safety of `CREATE TABLE`: the formatter writes the table name in
/// backticks when it is a reserved word (bare otherwise), and the identifier
/// grammar at that place in the written statement reads the name back.
#[verifier::rlimit(40)]
pub proof fn lemma_create_table_name_round_trip(c: CreateTableView)
    requires
        is_identifier_text(c.table.name),
    ensures
        is_reserved(encode_utf8(c.table.name)) ==> create_table_text(c).subrange(
            0,
            c.table.name.len() + 15int,
        ) == "CREATE TABLE `"@ + c.table.name + "`"@,
        p_identifier(encode_utf8(create_table_text(c)), 13) == Some(
            (c.table.name, (13 + encode_utf8(escaped(c.table.name)).len()) as int),
        ),
{
    reveal_strlit(" (");
    let k = c.table.name;
    let m = fields_text(c.fields) + keys_part(c.keys) + fkeys_part(c.fkeys) + ")"@;
    let rest = " ("@ + m;
    assert(create_table_text(c) =~= "CREATE TABLE "@ + escaped(k) + rest);
    assert(rest[0] == ' ');
    lemma_name_after_create_table(k, rest);
    if is_reserved(encode_utf8(k)) {
        reveal_strlit("CREATE TABLE ");
        reveal_strlit("CREATE TABLE `");
        reveal_strlit("`");
        lemma_identifier_round_trip(k);
        assert(create_table_text(c).subrange(0, k.len() + 15int) =~= "CREATE TABLE `"@ + k + "`"@);
    }
}

} // verus!
