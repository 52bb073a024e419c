use vstd::prelude::*;
use vstd::string::*;
use vstd::utf8::*;

use crate::keywords::{is_reserved, is_reserved_at};

verus! {

/// ASCII lower-casing of one byte; other bytes are unchanged.
pub open spec fn ascii_lower(b: u8) -> u8 {
    if 65 <= b <= 90 {
        (b + 32) as u8
    } else {
        b
    }
}

fn lower_byte(b: u8) -> (r: u8)
    ensures
        r == ascii_lower(b),
{
    if 65 <= b && b <= 90 {
        b + 32
    } else {
        b
    }
}

/// The bytes `t` stand in `s` at position `p`, up to ASCII case.
pub open spec fn tag_at(s: Seq<u8>, p: int, t: Seq<u8>) -> bool {
    0 <= p && p + t.len() <= s.len() && forall|i: int|
        0 <= i < t.len() ==> ascii_lower(s[p + i]) == ascii_lower(t[i])
}

/// Position after the token `t` at `p`, matched up to ASCII case.
pub open spec fn p_tag(s: Seq<u8>, p: int, t: Seq<u8>) -> Option<int> {
    if tag_at(s, p, t) {
        Some(p + t.len())
    } else {
        None
    }
}

/// Caseless match of the token `t` at position `p`; the position after it.
pub fn tag(s: &[u8], p: usize, t: &str) -> (r: Option<usize>)
    ensures
        pos(r) == p_tag(s@, p as int, t.spec_bytes()),
        r matches Some(e) ==> p <= e <= s@.len(),
{
    let n = s.len();
    if tag_is(s, p, t) {
        Some(p + t.as_bytes().len())
    } else {
        None
    }
}

/// Caseless test for the token `t` at position `p`.
pub fn tag_is(s: &[u8], p: usize, t: &str) -> (r: bool)
    ensures
        r == tag_at(s@, p as int, t.spec_bytes()),
{
    let tb = t.as_bytes();
    let n = s.len();
    if p > n || tb.len() > s.len() - p {
        return false;
    }
    let mut i: usize = 0;
    while i < tb.len()
        invariant
            i <= tb@.len(),
            tb@ == t.spec_bytes(),
            p + tb@.len() <= s@.len(),
            n == s@.len(),
            forall|k: int| 0 <= k < i ==> ascii_lower(s@[p + k]) == ascii_lower(tb@[k]),
        decreases tb@.len() - i,
    {
        if lower_byte(s[p + i]) != lower_byte(tb[i]) {
            return false;
        }
        i += 1;
    }
    true
}

/// The byte `c` is at position `p`.
pub open spec fn byte_at(s: Seq<u8>, p: int, c: u8) -> bool {
    0 <= p < s.len() && s[p] == c
}

pub fn byte_is(s: &[u8], p: usize, c: u8) -> (r: bool)
    ensures
        r == byte_at(s@, p as int, c),
        s@.len() <= usize::MAX,
{
    p < s.len() && s[p] == c
}

/// The classes of bytes that the grammar takes in maximal runs.
#[derive(Clone, Copy, PartialEq, Eq, Structural, Debug)]
pub enum ByteClass {
    /// Space, tab, carriage return, line feed.
    Space,
    /// ASCII letters, digits and `_`.
    Ident,
    /// ASCII digits.
    Digit,
    /// ASCII letters, digits and `.`.
    Number,
    /// Every byte but `'`.
    NotQuote,
    /// Every byte but `;`, carriage return and line feed.
    Option,
}

pub open spec fn is_alnum(b: u8) -> bool {
    (48 <= b <= 57) || (65 <= b <= 90) || (97 <= b <= 122)
}

pub open spec fn in_class(c: ByteClass, b: u8) -> bool {
    match c {
        ByteClass::Space => b == 32 || b == 9 || b == 10 || b == 13,
        ByteClass::Ident => is_alnum(b) || b == 95,
        ByteClass::Digit => 48 <= b <= 57,
        ByteClass::Number => is_alnum(b) || b == 46,
        ByteClass::NotQuote => b != 39,
        ByteClass::Option => b != 59 && b != 10 && b != 13,
    }
}

pub fn byte_in_class(c: ByteClass, b: u8) -> (r: bool)
    ensures
        r == in_class(c, b),
{
    let alnum = (48 <= b && b <= 57) || (65 <= b && b <= 90) || (97 <= b && b <= 122);
    match c {
        ByteClass::Space => b == 32 || b == 9 || b == 10 || b == 13,
        ByteClass::Ident => alnum || b == 95,
        ByteClass::Digit => 48 <= b && b <= 57,
        ByteClass::Number => alnum || b == 46,
        ByteClass::NotQuote => b != 39,
        ByteClass::Option => b != 59 && b != 10 && b != 13,
    }
}

/// A byte usable in a bare identifier: ASCII alphanumeric or `_`.
pub fn is_sql_identifier(chr: u8) -> (r: bool)
    ensures
        r == in_class(ByteClass::Ident, chr),
{
    byte_in_class(ByteClass::Ident, chr)
}

/// A byte of a loosely read number: ASCII alphanumeric or `.`.
pub fn is_fp_number(chr: u8) -> (r: bool)
    ensures
        r == in_class(ByteClass::Number, chr),
{
    byte_in_class(ByteClass::Number, chr)
}

/// End of the maximal run of class `c` that starts at `p`.
pub open spec fn span_end(s: Seq<u8>, p: int, c: ByteClass) -> int
    decreases s.len() - p,
{
    if 0 <= p < s.len() && in_class(c, s[p]) {
        span_end(s, p + 1, c)
    } else {
        p
    }
}

pub proof fn lemma_span_end_bounds(s: Seq<u8>, p: int, c: ByteClass)
    requires
        0 <= p <= s.len(),
    ensures
        p <= span_end(s, p, c) <= s.len(),
        forall|k: int| p <= k < span_end(s, p, c) ==> in_class(c, #[trigger] s[k]),
    decreases s.len() - p,
{
    if p < s.len() && in_class(c, s[p]) {
        lemma_span_end_bounds(s, p + 1, c);
    }
}

/// Exec form of `span_end`.
pub fn span(s: &[u8], p: usize, c: ByteClass) -> (r: usize)
    requires
        p <= s@.len(),
    ensures
        r == span_end(s@, p as int, c),
        p <= r <= s@.len(),
{
    let mut i = p;
    while i < s.len() && byte_in_class(c, s[i])
        invariant
            p <= i <= s@.len(),
            span_end(s@, i as int, c) == span_end(s@, p as int, c),
        decreases s@.len() - i,
    {
        i += 1;
    }
    i
}

/// Position after optional whitespace.
pub open spec fn ws(s: Seq<u8>, p: int) -> int {
    span_end(s, p, ByteClass::Space)
}

/// Skips optional whitespace.
pub fn skip_ws(s: &[u8], p: usize) -> (r: usize)
    requires
        p <= s@.len(),
    ensures
        r == ws(s@, p as int),
        p <= r <= s@.len(),
{
    span(s, p, ByteClass::Space)
}

/// Position after a comma list separator (optional whitespace, `,`, optional
/// whitespace), or `p` when there is none.
pub open spec fn opt_comma(s: Seq<u8>, p: int) -> int {
    if byte_at(s, ws(s, p), 44) {
        ws(s, ws(s, p) + 1)
    } else {
        p
    }
}

pub fn skip_comma(s: &[u8], p: usize) -> (r: usize)
    requires
        p <= s@.len(),
    ensures
        r == opt_comma(s@, p as int),
        p <= r <= s@.len(),
{
    let q = skip_ws(s, p);
    let n = s.len();
    if q < n && byte_is(s, q, 44) {
        skip_ws(s, q + 1)
    } else {
        p
    }
}

/// A position handed back by an exec parser, as a mathematical integer.
pub open spec fn pos(r: Option<usize>) -> Option<int> {
    match r {
        Some(e) => Some(e as int),
        None => None,
    }
}

/// Text decoded from bytes, when they are valid UTF-8.
pub open spec fn text_of(b: Seq<u8>) -> Option<Seq<char>> {
    if valid_utf8(b) {
        Some(decode_utf8(b))
    } else {
        None
    }
}

/// Relies on std::str::from_utf8: it accepts exactly the valid UTF-8
/// sequences and decodes them.
#[verifier::external_body]
fn decode_bytes(b: &[u8]) -> (r: Option<String>)
    ensures
        r is Some <==> valid_utf8(b@),
        r matches Some(t) ==> t@ == decode_utf8(b@),
{
    match std::str::from_utf8(b) {
        Ok(t) => Some(t.to_string()),
        Err(_) => None,
    }
}

/// Decodes the bytes `s[a..b]` as text.
pub fn text_at(s: &[u8], a: usize, b: usize) -> (r: Option<String>)
    requires
        a <= b <= s@.len(),
    ensures
        r is Some <==> text_of(s@.subrange(a as int, b as int)) is Some,
        r matches Some(t) ==> text_of(s@.subrange(a as int, b as int)) == Some(t@),
{
    decode_bytes(vstd::slice::slice_subrange(s, a, b))
}

/// SQL identifier at `p`: a bare run of identifier bytes that is not a reserved
/// word, or a run delimited by backticks or single quotes (which may be a
/// reserved word). The result is the identifier text and the position after it.
pub open spec fn p_identifier(s: Seq<u8>, p: int) -> Option<(Seq<char>, int)> {
    let e = span_end(s, p, ByteClass::Ident);
    if 0 <= p && e > p && !is_reserved(s.subrange(p, e)) {
        match text_of(s.subrange(p, e)) {
            Some(t) => Some((t, e)),
            None => None,
        }
    } else if byte_at(s, p, 96) || byte_at(s, p, 39) {
        let q = s[p];
        let e2 = span_end(s, p + 1, ByteClass::Ident);
        if e2 > p + 1 && byte_at(s, e2, q) {
            match text_of(s.subrange(p + 1, e2)) {
                Some(t) => Some((t, e2 + 1)),
                None => None,
            }
        } else {
            None
        }
    } else {
        None
    }
}

/// Parses a SQL identifier (see `p_identifier`).
pub fn sql_identifier(s: &[u8], p: usize) -> (r: Option<(String, usize)>)
    ensures
        r is None <==> p_identifier(s@, p as int) is None,
        r matches Some((t, e)) ==> p_identifier(s@, p as int) == Some((t@, e as int)),
        r matches Some((t, e)) ==> p < e <= s@.len(),
{
    if p > s.len() {
        return None;
    }
    let e = span(s, p, ByteClass::Ident);
    if e > p && !is_reserved_at(s, p, e) {
        match text_at(s, p, e) {
            Some(t) => Some((t, e)),
            None => None,
        }
    } else if byte_is(s, p, 96) || byte_is(s, p, 39) {
        let q = s[p];
        let e2 = span(s, p + 1, ByteClass::Ident);
        if e2 > p + 1 && byte_is(s, e2, q) {
            match text_at(s, p + 1, e2) {
                Some(t) => Some((t, e2 + 1)),
                None => None,
            }
        } else {
            None
        }
    } else {
        None
    }
}

} // verus!

verus! {

/// Value of a run of ASCII digits, read in base ten.
pub open spec fn digits_value(d: Seq<u8>) -> nat
    decreases d.len(),
{
    if d.len() == 0 {
        0
    } else {
        digits_value(d.drop_last()) * 10 + (d.last() - 48) as nat
    }
}

/// Unsigned decimal number at `p`: a non-empty run of digits whose value fits
/// in 64 bits.
pub open spec fn p_unsigned(s: Seq<u8>, p: int) -> Option<(u64, int)> {
    let e = span_end(s, p, ByteClass::Digit);
    if 0 <= p && e > p && digits_value(s.subrange(p, e)) <= u64::MAX {
        Some((digits_value(s.subrange(p, e)) as u64, e))
    } else {
        None
    }
}

/// Parses an unsigned integer; fails on overflow.
pub fn unsigned_number(s: &[u8], p: usize) -> (r: Option<(u64, usize)>)
    ensures
        r is None <==> p_unsigned(s@, p as int) is None,
        r matches Some((v, e)) ==> p_unsigned(s@, p as int) == Some((v, e as int)),
        r matches Some((_, e)) ==> p < e <= s@.len(),
{
    if p > s.len() {
        return None;
    }
    let e = span(s, p, ByteClass::Digit);
    if e == p {
        return None;
    }
    proof {
        lemma_span_end_bounds(s@, p as int, ByteClass::Digit);
    }
    let mut acc: u64 = 0;
    let mut i = p;
    while i < e
        invariant
            p <= i <= e <= s@.len(),
            e == span_end(s@, p as int, ByteClass::Digit),
            forall|k: int| p <= k < e ==> in_class(ByteClass::Digit, #[trigger] s@[k]),
            acc as nat == digits_value(s@.subrange(p as int, i as int)),
        decreases e - i,
    {
        assert(s@.subrange(p as int, i + 1).drop_last() =~= s@.subrange(p as int, i as int));
        assert(in_class(ByteClass::Digit, s@[i as int]));
        let d = (s[i] - 48) as u64;
        match acc.checked_mul(10) {
            Some(m) => match m.checked_add(d) {
                Some(v) => {
                    acc = v;
                },
                None => {
                    proof { lemma_digits_grow(s@, p as int, i as int + 1, e as int); }
                    return None;
                },
            },
            None => {
                proof { lemma_digits_grow(s@, p as int, i as int + 1, e as int); }
                return None;
            },
        }
        i += 1;
    }
    Some((acc, e))
}

/// A longer run of digits never has a smaller value.
pub proof fn lemma_digits_grow(s: Seq<u8>, p: int, i: int, e: int)
    requires
        0 <= p <= i <= e <= s.len(),
    ensures
        digits_value(s.subrange(p, i)) <= digits_value(s.subrange(p, e)),
    decreases e - i,
{
    if i < e {
        lemma_digits_grow(s, p, i + 1, e);
        assert(s.subrange(p, i + 1).drop_last() =~= s.subrange(p, i));
    }
}

/// Loose number token at `p`: a non-empty run of ASCII alphanumerics and `.`;
/// the result is the position after it.
pub open spec fn p_fp_number(s: Seq<u8>, p: int) -> Option<int> {
    let e = span_end(s, p, ByteClass::Number);
    if 0 <= p && e > p {
        Some(e)
    } else {
        None
    }
}

/// Parses a floating-point-ish token (left to the caller to validate).
pub fn fp_number(s: &[u8], p: usize) -> (r: Option<usize>)
    ensures
        pos(r) == p_fp_number(s@, p as int),
{
    if p > s.len() {
        return None;
    }
    let e = span(s, p, ByteClass::Number);
    if e > p {
        Some(e)
    } else {
        None
    }
}

/// End of a statement at `p`: optional whitespace, then `;`, a line ending or
/// the end of input, then optional whitespace.
pub open spec fn p_terminator(s: Seq<u8>, p: int) -> Option<int> {
    let q = ws(s, p);
    if !(0 <= p <= s.len()) {
        None
    } else if byte_at(s, q, 59) || byte_at(s, q, 10) {
        Some(ws(s, q + 1))
    } else if byte_at(s, q, 13) && byte_at(s, q + 1, 10) {
        Some(ws(s, q + 2))
    } else if q == s.len() {
        Some(q)
    } else {
        None
    }
}

/// Parses a statement terminator.
pub fn statement_terminator(s: &[u8], p: usize) -> (r: Option<usize>)
    ensures
        pos(r) == p_terminator(s@, p as int),
        r matches Some(e) ==> p <= e <= s@.len(),
{
    let n = s.len();
    if p > n {
        return None;
    }
    let q = skip_ws(s, p);
    if byte_is(s, q, 59) || byte_is(s, q, 10) {
        Some(skip_ws(s, q + 1))
    } else if byte_is(s, q, 13) && q + 1 < n && byte_is(s, q + 1, 10) {
        Some(skip_ws(s, q + 2))
    } else if q == n {
        Some(q)
    } else {
        None
    }
}

/// Mandatory whitespace at `p`: the position after it, when there is some.
pub open spec fn p_space(s: Seq<u8>, p: int) -> Option<int> {
    if 0 <= p <= s.len() && ws(s, p) > p {
        Some(ws(s, p))
    } else {
        None
    }
}

pub fn space(s: &[u8], p: usize) -> (r: Option<usize>)
    ensures
        pos(r) == p_space(s@, p as int),
        r matches Some(e) ==> p < e <= s@.len(),
{
    if p > s.len() {
        return None;
    }
    let e = skip_ws(s, p);
    if e > p {
        Some(e)
    } else {
        None
    }
}

/// Alias clause at `p`: whitespace, `AS` in any case, whitespace, identifier.
pub open spec fn p_as_alias(s: Seq<u8>, p: int) -> Option<(Seq<char>, int)> {
    match p_space(s, p) {
        Some(q) => match p_tag(s, q, "as".spec_bytes()) {
            Some(q1) => match p_space(s, q1) {
                Some(q2) => p_identifier(s, q2),
                None => None,
            },
            None => None,
        },
        None => None,
    }
}

/// Parses an `AS alias` clause.
pub fn as_alias(s: &[u8], p: usize) -> (r: Option<(String, usize)>)
    ensures
        r is None <==> p_as_alias(s@, p as int) is None,
        r matches Some((t, e)) ==> p_as_alias(s@, p as int) == Some((t@, e as int)),
        r matches Some((t, e)) ==> p < e <= s@.len(),
{
    match space(s, p) {
        Some(q) => match tag(s, q, "as") {
            Some(q1) => match space(s, q1) {
                Some(q2) => sql_identifier(s, q2),
                None => None,
            },
            None => None,
        },
        None => None,
    }
}

} // verus!
