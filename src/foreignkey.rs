use vstd::prelude::*;
use vstd::string::*;

use crate::column::{columns_view, Column, ColumnView};
use crate::lex::{
    byte_at, byte_is, opt_comma, p_identifier, p_space, p_tag, skip_comma, skip_ws, space,
    sql_identifier, tag, text_at, text_of, ws,
};
use crate::table::{opt_text, p_table_reference, table_reference, Table, TableView};

verus! {

/// A `FOREIGN KEY` clause of a table.
#[derive(Debug, Hash, PartialEq, Eq)]
pub struct ForeignKeySpecification {
    pub name: Option<String>,
    pub ref_action: Option<String>,
    pub from: Vec<Column>,
    pub that_table: Table,
    pub to: Vec<Column>,
}

pub struct ForeignKeyView {
    pub name: Option<Seq<char>>,
    pub ref_action: Option<Seq<char>>,
    pub from: Seq<ColumnView>,
    pub that_table: TableView,
    pub to: Seq<ColumnView>,
}

impl View for ForeignKeySpecification {
    type V = ForeignKeyView;

    open spec fn view(&self) -> ForeignKeyView {
        ForeignKeyView {
            name: opt_text(self.name),
            ref_action: opt_text(self.ref_action),
            from: columns_view(self.from@),
            that_table: self.that_table@,
            to: columns_view(self.to@),
        }
    }
}

impl ForeignKeySpecification {
    /// A foreign key from its parts.
    pub fn new(
        name: Option<String>,
        ref_action: Option<String>,
        from: Vec<Column>,
        that_table: Table,
        to: Vec<Column>,
    ) -> (r: ForeignKeySpecification)
        ensures
            r@ == (ForeignKeyView {
                name: opt_text(name),
                ref_action: opt_text(ref_action),
                from: columns_view(from@),
                that_table: that_table@,
                to: columns_view(to@),
            }),
    {
        ForeignKeySpecification { name, ref_action, from, that_table, to }
    }
}

/// A bare column of that name.
pub open spec fn plain_column(n: Seq<char>) -> ColumnView {
    ColumnView { name: n, alias: None, table: None, function: None }
}

/// Zero or more column names, each with optional whitespace around it and an
/// optional comma after it.
pub open spec fn p_fk_cols(s: Seq<u8>, p: int) -> (Seq<ColumnView>, int)
    decreases s.len() - p,
{
    if !(0 <= p <= s.len()) {
        (Seq::empty(), p)
    } else {
        match p_identifier(s, ws(s, p)) {
            Some((n, e)) => {
                let q = opt_comma(s, ws(s, e));
                if p < q <= s.len() {
                    let (rest, e2) = p_fk_cols(s, q);
                    (seq![plain_column(n)] + rest, e2)
                } else {
                    (seq![plain_column(n)], q)
                }
            },
            None => (Seq::empty(), p),
        }
    }
}

fn fk_cols(s: &[u8], p: usize) -> (r: (Vec<Column>, usize))
    ensures
        (columns_view(r.0@), r.1 as int) == p_fk_cols(s@, p as int),
        p <= s@.len() ==> p <= r.1 <= s@.len(),
    decreases s@.len() - p,
{
    if p > s.len() {
        let v = Vec::new();
        assert(columns_view(v@) =~= Seq::empty());
        return (v, p);
    }
    match sql_identifier(s, skip_ws(s, p)) {
        Some((n, e)) => {
            let q = skip_comma(s, skip_ws(s, e));
            let c = Column { name: n, alias: None, table: None, function: None };
            if p < q {
                let (mut rest, e2) = fk_cols(s, q);
                let ghost old_rest = rest@;
                rest.insert(0, c);
                proof {
                    assert(rest@ =~= seq![c] + old_rest);
                    crate::column::lemma_columns_view_push_front(c, old_rest);
                }
                (rest, e2)
            } else {
                let mut v = Vec::new();
                v.push(c);
                proof {
                    assert(v@ =~= seq![c] + Seq::<Column>::empty());
                    crate::column::lemma_columns_view_push_front(c, Seq::empty());
                    assert(columns_view(v@) =~= seq![c@]);
                }
                (v, q)
            }
        },
        None => {
            let v = Vec::new();
            assert(columns_view(v@) =~= Seq::empty());
            (v, p)
        },
    }
}

/// `( cols )`: at least one column name.
pub open spec fn p_fk_column_list(s: Seq<u8>, p: int) -> Option<(Seq<ColumnView>, int)> {
    if byte_at(s, p, 40) {
        let (l, e) = p_fk_cols(s, p + 1);
        if l.len() > 0 && byte_at(s, e, 41) {
            Some((l, e + 1))
        } else {
            None
        }
    } else {
        None
    }
}

fn fk_column_list(s: &[u8], p: usize) -> (r: Option<(Vec<Column>, usize)>)
    ensures
        r is None <==> p_fk_column_list(s@, p as int) is None,
        r matches Some((l, e)) ==> p_fk_column_list(s@, p as int) == Some((columns_view(l@), e as int)),
        r matches Some((l, e)) ==> p < e <= s@.len(),
{
    if byte_is(s, p, 40) {
        let (l, e) = fk_cols(s, p + 1);
        proof {
            crate::column::lemma_columns_view(l@);
        }
        if l.len() > 0 && byte_is(s, e, 41) {
            Some((l, e + 1))
        } else {
            None
        }
    } else {
        None
    }
}

/// `DELETE` or `UPDATE`, any case: the position after it.
pub open spec fn p_action_word(s: Seq<u8>, p: int) -> Option<int> {
    match p_tag(s, p, "delete".spec_bytes()) {
        Some(e) => Some(e),
        None => p_tag(s, p, "update".spec_bytes()),
    }
}

fn action_word(s: &[u8], p: usize) -> (r: Option<usize>)
    ensures
        crate::lex::pos(r) == p_action_word(s@, p as int),
        r matches Some(e) ==> p <= e <= s@.len(),
{
    match tag(s, p, "delete") {
        Some(e) => Some(e),
        None => tag(s, p, "update"),
    }
}

/// `ON {DELETE|UPDATE} RESTRICT` after optional whitespace, as the text
/// `ON <word> RESTRICT`, with `DELETE` or `UPDATE` kept as written.
pub open spec fn p_ref_action(s: Seq<u8>, p: int) -> Option<(Seq<char>, int)> {
    match p_tag(s, ws(s, p), "on".spec_bytes()) {
        Some(e) => match p_space(s, e) {
            Some(q) => match p_action_word(s, q) {
                Some(e2) => match text_of(s.subrange(q, e2)) {
                    Some(w) => match p_space(s, e2) {
                        Some(q2) => match p_tag(s, q2, "restrict".spec_bytes()) {
                            Some(e3) => Some(("ON "@ + w + " RESTRICT"@, e3)),
                            None => None,
                        },
                        None => None,
                    },
                    None => None,
                },
                None => None,
            },
            None => None,
        },
        None => None,
    }
}

fn ref_action(s: &[u8], p: usize) -> (r: Option<(String, usize)>)
    requires
        p <= s@.len(),
    ensures
        r is None <==> p_ref_action(s@, p as int) is None,
        r matches Some((t, e)) ==> p_ref_action(s@, p as int) == Some((t@, e as int)),
        r matches Some((t, e)) ==> p < e <= s@.len() && t@.len() > 0,
{
    proof {
        reveal_strlit("ON ");
    }
    match tag(s, skip_ws(s, p), "on") {
        Some(e) => match space(s, e) {
            Some(q) => match action_word(s, q) {
                Some(e2) => match text_at(s, q, e2) {
                    Some(w) => match space(s, e2) {
                        Some(q2) => match tag(s, q2, "restrict") {
                            Some(e3) => {
                                let mut t = String::from_str("ON ");
                                t.append(w.as_str());
                                t.append(" RESTRICT");
                                Some((t, e3))
                            },
                            None => None,
                        },
                        None => None,
                    },
                    None => None,
                },
                None => None,
            },
            None => None,
        },
        None => None,
    }
}

/// Referential actions, joined by single spaces; empty when there is none.
pub open spec fn p_ref_actions(s: Seq<u8>, p: int) -> (Seq<char>, int)
    decreases s.len() - p,
{
    if !(0 <= p <= s.len()) {
        (Seq::empty(), p)
    } else {
        match p_ref_action(s, p) {
            Some((t, e)) => if p < e <= s.len() {
                let (rest, e2) = p_ref_actions(s, e);
                (if rest.len() == 0 { t } else { t + " "@ + rest }, e2)
            } else {
                (t, e)
            },
            None => (Seq::empty(), p),
        }
    }
}

fn ref_actions(s: &[u8], p: usize) -> (r: (String, usize, bool))
    ensures
        (r.0@, r.1 as int) == p_ref_actions(s@, p as int),
        p <= s@.len() ==> p <= r.1 <= s@.len(),
        r.2 == (r.0@.len() > 0),
    decreases s@.len() - p,
{
    if p > s.len() {
        return (String::new(), p, false);
    }
    match ref_action(s, p) {
        Some((t, e)) => {
            let (rest, e2, more) = ref_actions(s, e);
            let mut out = t;
            if more {
                out.append(" ");
                out.append(rest.as_str());
            }
            (out, e2, true)
        },
        None => (String::new(), p, false),
    }
}

} // verus!

verus! {

/// Optional `CONSTRAINT name` after optional whitespace: the name and the
/// position after it, or no name and `p`.
pub open spec fn p_constraint_name(s: Seq<u8>, p: int) -> (Option<Seq<char>>, int) {
    match p_tag(s, ws(s, p), "constraint".spec_bytes()) {
        Some(e) => match p_identifier(s, ws(s, e)) {
            Some((n, e2)) => (Some(n), e2),
            None => (None, p),
        },
        None => (None, p),
    }
}

/// `[CONSTRAINT name] FOREIGN KEY (cols) REFERENCES table (cols) [actions]`,
/// with whitespace as the grammar allows, and an optional comma after it.
pub open spec fn p_foreign_key(s: Seq<u8>, p: int) -> Option<(ForeignKeyView, int)> {
    let (name, e0) = p_constraint_name(s, p);
    match p_tag(s, ws(s, e0), "foreign".spec_bytes()) {
        Some(e1) => match p_space(s, e1) {
            Some(q1) => match p_tag(s, q1, "key".spec_bytes()) {
                Some(e2) => match p_fk_column_list(s, ws(s, e2)) {
                    Some((from, e3)) => match p_tag(s, ws(s, e3), "references".spec_bytes()) {
                        Some(e4) => match p_space(s, e4) {
                            Some(q4) => match p_table_reference(s, q4) {
                                Some((tbl, e5)) => match p_fk_column_list(s, ws(s, e5)) {
                                    Some((to, e6)) => {
                                        let (act, e7) = p_ref_actions(s, e6);
                                        Some((ForeignKeyView {
                                            name,
                                            ref_action: if act.len() > 0 { Some(act) } else { None },
                                            from,
                                            that_table: tbl,
                                            to,
                                        }, opt_comma(s, ws(s, e7))))
                                    },
                                    None => None,
                                },
                                None => None,
                            },
                            None => None,
                        },
                        None => None,
                    },
                    None => None,
                },
                None => None,
            },
            None => None,
        },
        None => None,
    }
}

#[verifier::rlimit(40)]
fn foreign_key(s: &[u8], p: usize) -> (r: Option<(ForeignKeySpecification, usize)>)
    requires
        p <= s@.len(),
    ensures
        r is None <==> p_foreign_key(s@, p as int) is None,
        r matches Some((k, e)) ==> p_foreign_key(s@, p as int) == Some((k@, e as int)),
        r matches Some((k, e)) ==> p < e <= s@.len(),
{
    let (name, e0) = match tag(s, skip_ws(s, p), "constraint") {
        Some(e) => match sql_identifier(s, skip_ws(s, e)) {
            Some((n, e2)) => (Some(n), e2),
            None => (None, p),
        },
        None => (None, p),
    };
    match tag(s, skip_ws(s, e0), "foreign") {
        Some(e1) => match space(s, e1) {
            Some(q1) => match tag(s, q1, "key") {
                Some(e2) => match fk_column_list(s, skip_ws(s, e2)) {
                    Some((from, e3)) => match tag(s, skip_ws(s, e3), "references") {
                        Some(e4) => match space(s, e4) {
                            Some(q4) => match table_reference(s, q4) {
                                Some((tbl, e5)) => match fk_column_list(s, skip_ws(s, e5)) {
                                    Some((to, e6)) => {
                                        let (act, e7, some) = ref_actions(s, e6);
                                        let ref_action = if some { Some(act) } else { None };
                                        Some((ForeignKeySpecification {
                                            name,
                                            ref_action,
                                            from,
                                            that_table: tbl,
                                            to,
                                        }, skip_comma(s, skip_ws(s, e7))))
                                    },
                                    None => None,
                                },
                                None => None,
                            },
                            None => None,
                        },
                        None => None,
                    },
                    None => None,
                },
                None => None,
            },
            None => None,
        },
        None => None,
    }
}

pub open spec fn fkeys_view(v: Seq<ForeignKeySpecification>) -> Seq<ForeignKeyView> {
    v.map_values(|k: ForeignKeySpecification| k@)
}

/// Zero or more foreign key specifications.
pub open spec fn p_foreign_keys(s: Seq<u8>, p: int) -> (Seq<ForeignKeyView>, int)
    decreases s.len() - p,
{
    if !(0 <= p <= s.len()) {
        (Seq::empty(), p)
    } else {
        match p_foreign_key(s, p) {
            Some((k, e)) => if p < e <= s.len() {
                let (rest, e2) = p_foreign_keys(s, e);
                (seq![k] + rest, e2)
            } else {
                (seq![k], e)
            },
            None => (Seq::empty(), p),
        }
    }
}

fn foreign_keys(s: &[u8], p: usize) -> (r: (Vec<ForeignKeySpecification>, usize))
    ensures
        (fkeys_view(r.0@), r.1 as int) == p_foreign_keys(s@, p as int),
        p <= s@.len() ==> p <= r.1 <= s@.len(),
        r.0@.len() > 0 ==> p < r.1 <= s@.len(),
    decreases s@.len() - p,
{
    if p > s.len() {
        let v = Vec::new();
        assert(fkeys_view(v@) =~= Seq::empty());
        return (v, p);
    }
    match foreign_key(s, p) {
        Some((k, e)) => {
            let ghost kv = k@;
            let (mut rest, e2) = foreign_keys(s, e);
            let ghost old_rest = rest@;
            rest.insert(0, k);
            assert(fkeys_view(rest@) =~= seq![kv] + fkeys_view(old_rest));
            (rest, e2)
        },
        None => {
            let v = Vec::new();
            assert(fkeys_view(v@) =~= Seq::empty());
            (v, p)
        },
    }
}

/// One or more foreign key specifications.
pub open spec fn p_foreign_key_list(s: Seq<u8>, p: int) -> Option<(Seq<ForeignKeyView>, int)> {
    let (l, e) = p_foreign_keys(s, p);
    if l.len() > 0 {
        Some((l, e))
    } else {
        None
    }
}

/// Parses a list of foreign key specifications (at least one).
pub fn foreign_key_specification_list(s: &[u8], p: usize) -> (r: Option<(Vec<ForeignKeySpecification>, usize)>)
    ensures
        r is None <==> p_foreign_key_list(s@, p as int) is None,
        r matches Some((l, e)) ==> p_foreign_key_list(s@, p as int) == Some((fkeys_view(l@), e as int)),
        r matches Some((l, e)) ==> p < e <= s@.len(),
{
    let (l, e) = foreign_keys(s, p);
    if l.len() > 0 {
        Some((l, e))
    } else {
        None
    }
}

} // verus!
