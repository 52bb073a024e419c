use nom_sql::column::Column;
use nom_sql::constraint::{ColumnConstraint, Literal};
use nom_sql::create::creation;
use nom_sql::keys::TableKey;
use nom_sql::keywords::escape_if_keyword;
use nom_sql::lex::sql_identifier;
use nom_sql::types::{type_identifier, SqlType};

fn reparse(q: &str) {
    let (first, _) = creation(q.as_bytes(), 0).unwrap();
    let text = first.to_string();
    let (second, rest) = creation(text.as_bytes(), 0).unwrap();
    assert_eq!(second, first, "{}", text);
    assert_eq!(rest, text.len());
    assert_eq!(second.to_string(), text);
}

#[test]
fn canonical_text_reparses_to_the_same_statement() {
    reparse("CREATE TABLE users (id bigint(20), name varchar(255), email varchar(255));");
    reparse("CREATE TABLE `auth_group` (`id` integer AUTO_INCREMENT NOT NULL PRIMARY KEY, `name` varchar(80) NOT NULL UNIQUE, FOREIGN KEY(`name`) REFERENCES artist(`name`))");
    reparse("CREATE TABLE user_newtalk (  user_id int(5) NOT NULL default '0',  user_ip varchar(40) NOT NULL default '') TYPE=MyISAM;");
    reparse("CREATE TABLE t (a int, b char(3) binary COLLATE latin1 DEFAULT 2.5, c text COMMENT 'hi', UNIQUE KEY u (a, b), KEY k (c), FULLTEXT INDEX (c), CONSTRAINT f FOREIGN KEY (a) REFERENCES o (x) ON DELETE RESTRICT on update restrict)");
    reparse("CREATE TABLE `key` (`select` int, PRIMARY KEY (`select`))");
}

#[test]
fn reserved_words_are_escaped_and_read_back() {
    for k in ["key", "select", "PRIMARY", "table"] {
        let text = escape_if_keyword(k);
        assert_eq!(text, format!("`{}`", k));
        let (back, e) = sql_identifier(text.as_bytes(), 0).unwrap();
        assert_eq!(back, k);
        assert_eq!(e, text.len());
    }
    assert_eq!(escape_if_keyword("name"), "name");
    let (stmt, _) = creation(b"CREATE TABLE `key` (`select` int)", 0).unwrap();
    assert_eq!(stmt.to_string(), "CREATE TABLE `key` (`select` INT(32))");
}

#[test]
fn table_name_attached_to_fields_and_keys() {
    let (stmt, _) = creation(b"CREATE TABLE t (x int, PRIMARY KEY (x))", 0).unwrap();
    assert_eq!(stmt.fields[0].column.table, Some(String::from("t")));
    match &stmt.keys.as_ref().unwrap()[0] {
        TableKey::PrimaryKey(cols) => assert_eq!(cols[0].table, Some(String::from("t"))),
        _ => panic!("expected a primary key"),
    }
}

#[test]
fn field_without_type_is_text() {
    let (stmt, _) = creation(b"CREATE TABLE t (x)", 0).unwrap();
    assert_eq!(stmt.fields[0].sql_type, SqlType::Text);
    assert_eq!(stmt.fields[0].column, Column { name: String::from("x"), alias: None, table: Some(String::from("t")), function: None });
}

#[test]
fn quoted_column_renders_bare() {
    let (stmt, _) = creation(b"CREATE TABLE g (`name` varchar(80) NOT NULL UNIQUE)", 0).unwrap();
    assert_eq!(stmt.fields[0].to_string(), "name VARCHAR(80) NOT NULL UNIQUE");
}

#[test]
fn create_table_failures() {
    assert!(creation(b"CREATE TABLE t AS u (x int)", 0).is_none());
    assert!(creation(b"CREATE TABLE t ()", 0).is_none());
    assert!(creation(b"CREATE TABLE t (x int", 0).is_none());
    assert!(creation(b"CREATE TABLE t (x int) ; junk", 0).is_some());
    assert!(creation(b"CREATE VIEW t (x int)", 0).is_none());
    assert!(creation(b"CREATE TABLE t (x int(70000))", 0).is_none());
    assert!(creation(b"CREATE TABLE t (x int, PRIMARY KEY ())", 0).is_none());
}

#[test]
fn multi_statement_buffer() {
    let q = b"CREATE TABLE a (x int);\nCREATE TABLE b (y int);";
    let (first, e) = creation(q, 0).unwrap();
    assert_eq!(first.table.name, "a");
    let (second, e2) = creation(q, e).unwrap();
    assert_eq!(second.table.name, "b");
    assert_eq!(e2, q.len());
}

#[test]
fn type_names_and_widths() {
    assert_eq!(type_identifier(b"tinyint", 0).unwrap().0, SqlType::Tinyint(1));
    assert_eq!(type_identifier(b"int", 0).unwrap().0, SqlType::Int(32));
    assert_eq!(type_identifier(b"DATE", 0).unwrap().0, SqlType::Date);
    assert_eq!(type_identifier(b"datetime(6)", 0).unwrap().0, SqlType::DateTime(6));
    assert_eq!(type_identifier(b"timestamp(3)", 0), Some((SqlType::Timestamp, 12)));
    assert_eq!(type_identifier(b"char(7)", 0).unwrap().0, SqlType::Char(7));
    assert!(type_identifier(b"char", 0).is_none());
    assert!(type_identifier(b"decimal", 0).is_none());
    assert_eq!(SqlType::Varbinary(14).to_string(), "VARBINARY(14)");
    assert_eq!(SqlType::Int(32).to_string(), "INT(32)");
    assert_eq!(SqlType::Longtext.to_string(), "LONGTEXT");
}

#[test]
fn defaults_and_literals() {
    let (stmt, _) = creation(b"CREATE TABLE t (a int DEFAULT 7, b int DEFAULT NULL, c timestamp DEFAULT current_timestamp, d double DEFAULT 1.25)", 0).unwrap();
    assert_eq!(stmt.fields[0].constraints, vec![ColumnConstraint::DefaultValue(Literal::Integer(7))]);
    assert_eq!(stmt.fields[1].constraints, vec![ColumnConstraint::DefaultValue(Literal::Null)]);
    assert_eq!(stmt.fields[2].constraints, vec![ColumnConstraint::DefaultValue(Literal::CurrentTimestamp)]);
    assert_eq!(stmt.fields[3].to_string(), "d DOUBLE DEFAULT 1.25");
}
