use nom_sql::column::{column_identifier, Column, FieldExpression, FunctionExpression};
use nom_sql::common::{binary_comparison_operator, binary_logical_operator, unary_negation_operator, Operator};
use nom_sql::lex::{as_alias, fp_number, is_fp_number, is_sql_identifier, sql_identifier, statement_terminator, unsigned_number};

fn col(name: &str) -> Column {
    Column { name: name.to_string(), alias: None, table: None, function: None }
}

#[test]
fn sql_identifiers() {
    let id1 = b"foo";
    let id2 = b"f_o_o";
    let id3 = b"foo12";
    let id4 = b":fo oo";
    let id5 = b"primary ";
    let id6 = b"`primary`";

    assert!(sql_identifier(id1, 0).is_some());
    assert!(sql_identifier(id2, 0).is_some());
    assert!(sql_identifier(id3, 0).is_some());
    assert!(sql_identifier(id4, 0).is_none());
    assert!(sql_identifier(id5, 0).is_none());
    assert!(sql_identifier(id6, 0).is_some());
}

#[test]
fn simple_column_function() {
    let qs = b"max(addr_id)";

    let res = column_identifier(qs, 0);
    let expected_fields = FieldExpression::List(vec![col("addr_id")]);
    let expected_fn = Some(FunctionExpression::Max(expected_fields));
    let expected = Column {
        name: String::from("max(addr_id)"),
        alias: None,
        table: None,
        function: expected_fn,
    };
    assert_eq!(res.unwrap().0, expected);
}

#[test]
fn identifier_text_and_position() {
    let (t, e) = sql_identifier(b"`key` int", 0).unwrap();
    assert_eq!(t, "key");
    assert_eq!(e, 5);
    let (t, e) = sql_identifier(b"'a_b'", 0).unwrap();
    assert_eq!(t, "a_b");
    assert_eq!(e, 5);
    assert!(sql_identifier(b"KEY", 0).is_none());
    assert!(sql_identifier(b"`unclosed", 0).is_none());
    assert!(sql_identifier(b"", 0).is_none());
}

#[test]
fn byte_classes() {
    assert!(is_sql_identifier(b'_'));
    assert!(is_sql_identifier(b'Z'));
    assert!(!is_sql_identifier(b'.'));
    assert!(is_fp_number(b'.'));
    assert!(is_fp_number(b'7'));
    assert!(!is_fp_number(b'-'));
}

#[test]
fn numbers() {
    assert_eq!(unsigned_number(b"12345x", 0), Some((12345, 5)));
    assert_eq!(unsigned_number(b"18446744073709551615", 0), Some((u64::MAX, 20)));
    assert_eq!(unsigned_number(b"18446744073709551616", 0), None);
    assert_eq!(unsigned_number(b"x", 0), None);
    assert_eq!(fp_number(b"3.14 ", 0), Some(4));
    assert_eq!(fp_number(b" 3", 0), None);
}

#[test]
fn terminators() {
    assert_eq!(statement_terminator(b"  ;  ", 0), Some(5));
    assert_eq!(statement_terminator(b"", 0), Some(0));
    assert_eq!(statement_terminator(b" ; x", 0), Some(3));
    assert_eq!(statement_terminator(b" x", 0), None);
}

#[test]
fn comparison_operators_prefer_longer_tokens() {
    assert_eq!(binary_comparison_operator(b"!= b", 0), Some((Operator::NotEqual, 2)));
    assert_eq!(binary_comparison_operator(b"<> b", 0), Some((Operator::NotEqual, 2)));
    assert_eq!(binary_comparison_operator(b"NOT_LIKE b", 0), Some((Operator::NotLike, 8)));
    assert_eq!(binary_comparison_operator(b"like b", 0), Some((Operator::Like, 4)));
    assert_eq!(binary_comparison_operator(b">= b", 0), Some((Operator::GreaterOrEqual, 2)));
    assert_eq!(binary_comparison_operator(b"<= b", 0), Some((Operator::LessOrEqual, 2)));
    assert_eq!(binary_comparison_operator(b"< b", 0), Some((Operator::Less, 1)));
    assert_eq!(binary_comparison_operator(b"> b", 0), Some((Operator::Greater, 1)));
    assert_eq!(binary_comparison_operator(b"= b", 0), Some((Operator::Equal, 1)));
    assert_eq!(binary_comparison_operator(b"+ b", 0), None);
}

#[test]
fn comparison_inside_expression() {
    let q = b"a != b";
    let (_, e) = sql_identifier(q, 0).unwrap();
    assert_eq!(binary_comparison_operator(q, e + 1), Some((Operator::NotEqual, 4)));
    let q = b"a not_like b";
    assert_eq!(binary_comparison_operator(q, 2), Some((Operator::NotLike, 10)));
}

#[test]
fn logical_and_negation_operators() {
    assert_eq!(binary_logical_operator(b" AND x", 0), Some((Operator::And, 5)));
    assert_eq!(binary_logical_operator(b" or x", 0), Some((Operator::Or, 4)));
    assert_eq!(binary_logical_operator(b"android", 0), None);
    assert_eq!(binary_logical_operator(b"and x", 0), None);
    assert_eq!(binary_logical_operator(b" and", 0), None);
    assert_eq!(unary_negation_operator(b"NOT x", 0), Some((Operator::Not, 3)));
    assert_eq!(unary_negation_operator(b"!x", 0), Some((Operator::Not, 1)));
    assert_eq!(Operator::NotEqual.to_string(), "!=");
    assert_eq!(Operator::NotLike.to_string(), "not_like");
}

#[test]
fn aliases() {
    assert_eq!(as_alias(b" AS total", 0), Some((String::from("total"), 9)));
    assert_eq!(as_alias(b"AS total", 0), None);
    let (c, _) = column_identifier(b"t.x as y", 0).unwrap();
    assert_eq!(c.table, Some(String::from("t")));
    assert_eq!(c.name, "x");
    assert_eq!(c.alias, Some(String::from("y")));
    let (c, _) = column_identifier(b"count(*) AS n", 0).unwrap();
    assert_eq!(c.name, "n");
    assert_eq!(c.alias, Some(String::from("n")));
    assert_eq!(c.function, Some(FunctionExpression::Count(FieldExpression::All)));
}

#[test]
fn group_concat_separators() {
    let (c, _) = column_identifier(b"group_concat(x)", 0).unwrap();
    assert_eq!(c.function, Some(FunctionExpression::GroupConcat(FieldExpression::List(vec![col("x")]), String::from(","))));
    let (c, _) = column_identifier(b"group_concat(x separator '|')", 0).unwrap();
    assert_eq!(c.function, Some(FunctionExpression::GroupConcat(FieldExpression::List(vec![col("x")]), String::from("|"))));
    assert_eq!(c.name, "group_concat(x separator '|')");
}

#[test]
fn function_names_render_canonically() {
    let (c, e) = column_identifier(b"SUM(a, b)", 0).unwrap();
    assert_eq!(e, 9);
    assert_eq!(c.name, "sum(a, b)");
    assert_eq!(c.to_string(), "sum(a, b)");
    let (c, _) = column_identifier(b"count(*)", 0).unwrap();
    assert_eq!(c.name, "count(*)");
}
