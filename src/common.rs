use vstd::prelude::*;
use vstd::string::*;

use crate::lex::{p_space, p_tag, skip_ws, space, tag, ws};

verus! {

/// Comparison and logical operators.
#[derive(Clone, Copy, Debug, Hash, PartialEq, Eq, Structural)]
pub enum Operator {
    Not,
    And,
    Or,
    Like,
    NotLike,
    Equal,
    NotEqual,
    Greater,
    GreaterOrEqual,
    Less,
    LessOrEqual,
}

/// The canonical text of each operator.
pub open spec fn operator_text(op: Operator) -> Seq<char> {
    match op {
        Operator::Not => "not"@,
        Operator::And => "and"@,
        Operator::Or => "or"@,
        Operator::Like => "like"@,
        Operator::NotLike => "not_like"@,
        Operator::Equal => "="@,
        Operator::NotEqual => "!="@,
        Operator::Greater => ">"@,
        Operator::GreaterOrEqual => ">="@,
        Operator::Less => "<"@,
        Operator::LessOrEqual => "<="@,
    }
}

impl Operator {
    /// The canonical text of the operator.
    pub fn as_str(&self) -> (r: &'static str)
        ensures
            r@ == operator_text(*self),
    {
        match self {
            Operator::Not => "not",
            Operator::And => "and",
            Operator::Or => "or",
            Operator::Like => "like",
            Operator::NotLike => "not_like",
            Operator::Equal => "=",
            Operator::NotEqual => "!=",
            Operator::Greater => ">",
            Operator::GreaterOrEqual => ">=",
            Operator::Less => "<",
            Operator::LessOrEqual => "<=",
        }
    }

    /// The canonical text of the operator, owned.
    pub fn to_string(&self) -> (r: String)
        ensures
            r@ == operator_text(*self),
    {
        String::from_str(self.as_str())
    }
}

/// `a` when it succeeded, else `b`: ordered alternation.
pub open spec fn first_of<T>(a: Option<T>, b: Option<T>) -> Option<T> {
    if a is Some {
        a
    } else {
        b
    }
}

/// The token `t` at `p`, read as the operator `op`.
pub open spec fn p_op_token(s: Seq<u8>, p: int, t: Seq<u8>, op: Operator) -> Option<(Operator, int)> {
    match p_tag(s, p, t) {
        Some(e) => Some((op, e)),
        None => None,
    }
}

fn op_token(s: &[u8], p: usize, t: &str, op: Operator) -> (r: Option<(Operator, usize)>)
    ensures
        r is None <==> p_op_token(s@, p as int, t.spec_bytes(), op) is None,
        r matches Some((o, e)) ==> p_op_token(s@, p as int, t.spec_bytes(), op) == Some((o, e as int)),
{
    match tag(s, p, t) {
        Some(e) => Some((op, e)),
        None => None,
    }
}

/// Binary comparison operator at `p`. The alternatives are tried in a fixed
/// order, longer tokens before those that are their prefixes, up to ASCII case.
pub open spec fn p_comparison(s: Seq<u8>, p: int) -> Option<(Operator, int)> {
    first_of(p_op_token(s, p, "not_like".spec_bytes(), Operator::NotLike),
    first_of(p_op_token(s, p, "like".spec_bytes(), Operator::Like),
    first_of(p_op_token(s, p, "!=".spec_bytes(), Operator::NotEqual),
    first_of(p_op_token(s, p, "<>".spec_bytes(), Operator::NotEqual),
    first_of(p_op_token(s, p, ">=".spec_bytes(), Operator::GreaterOrEqual),
    first_of(p_op_token(s, p, "<=".spec_bytes(), Operator::LessOrEqual),
    first_of(p_op_token(s, p, "=".spec_bytes(), Operator::Equal),
    first_of(p_op_token(s, p, "<".spec_bytes(), Operator::Less),
    p_op_token(s, p, ">".spec_bytes(), Operator::Greater)))))))))
}

/// Parses a binary comparison operator.
pub fn binary_comparison_operator(s: &[u8], p: usize) -> (r: Option<(Operator, usize)>)
    ensures
        r is None <==> p_comparison(s@, p as int) is None,
        r matches Some((o, e)) ==> p_comparison(s@, p as int) == Some((o, e as int)),
{
    if let Some(r) = op_token(s, p, "not_like", Operator::NotLike) {
        return Some(r);
    }
    if let Some(r) = op_token(s, p, "like", Operator::Like) {
        return Some(r);
    }
    if let Some(r) = op_token(s, p, "!=", Operator::NotEqual) {
        return Some(r);
    }
    if let Some(r) = op_token(s, p, "<>", Operator::NotEqual) {
        return Some(r);
    }
    if let Some(r) = op_token(s, p, ">=", Operator::GreaterOrEqual) {
        return Some(r);
    }
    if let Some(r) = op_token(s, p, "<=", Operator::LessOrEqual) {
        return Some(r);
    }
    if let Some(r) = op_token(s, p, "=", Operator::Equal) {
        return Some(r);
    }
    if let Some(r) = op_token(s, p, "<", Operator::Less) {
        return Some(r);
    }
    op_token(s, p, ">", Operator::Greater)
}

/// `and` or `or` (any case) with mandatory whitespace before and after it,
/// all of which is consumed.
pub open spec fn p_logical(s: Seq<u8>, p: int) -> Option<(Operator, int)> {
    match p_space(s, p) {
        None => None,
        Some(q) => match p_op_token(s, q, "and".spec_bytes(), Operator::And) {
            Some((o, e)) => match p_space(s, e) {
                Some(e2) => Some((o, e2)),
                None => None,
            },
            None => match p_op_token(s, q, "or".spec_bytes(), Operator::Or) {
                Some((o, e)) => match p_space(s, e) {
                    Some(e2) => Some((o, e2)),
                    None => None,
                },
                None => None,
            },
        },
    }
}

/// Parses a binary logical operator.
pub fn binary_logical_operator(s: &[u8], p: usize) -> (r: Option<(Operator, usize)>)
    ensures
        r is None <==> p_logical(s@, p as int) is None,
        r matches Some((o, e)) ==> p_logical(s@, p as int) == Some((o, e as int)),
{
    let q = match space(s, p) {
        Some(q) => q,
        None => return None,
    };
    match op_token(s, q, "and", Operator::And) {
        Some((o, e)) => match space(s, e) {
            Some(e2) => Some((o, e2)),
            None => None,
        },
        None => match op_token(s, q, "or", Operator::Or) {
            Some((o, e)) => match space(s, e) {
                Some(e2) => Some((o, e2)),
                None => None,
            },
            None => None,
        },
    }
}

/// `not` (any case) or `!`.
pub open spec fn p_negation(s: Seq<u8>, p: int) -> Option<(Operator, int)> {
    first_of(p_op_token(s, p, "not".spec_bytes(), Operator::Not),
        p_op_token(s, p, "!".spec_bytes(), Operator::Not))
}

/// Parses a unary negation operator.
pub fn unary_negation_operator(s: &[u8], p: usize) -> (r: Option<(Operator, usize)>)
    ensures
        r is None <==> p_negation(s@, p as int) is None,
        r matches Some((o, e)) ==> p_negation(s@, p as int) == Some((o, e as int)),
{
    if let Some(r) = op_token(s, p, "not", Operator::Not) {
        return Some(r);
    }
    op_token(s, p, "!", Operator::Not)
}

} // verus!
