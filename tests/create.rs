use nom_sql::column::Column;
use nom_sql::constraint::{field_specification_list, ColumnConstraint, ColumnSpecification, Literal};
use nom_sql::create::{creation, CreateTableStatement};
use nom_sql::foreignkey::{foreign_key_specification_list, ForeignKeySpecification};
use nom_sql::keys::TableKey;
use nom_sql::table::Table;
use nom_sql::types::{type_identifier, SqlType};

/// `"t.x"` is column `x` of table `t`; `"x"` is a bare column.
fn col(s: &str) -> Column {
    match s.find('.') {
        Some(i) => Column {
            name: s[i + 1..].to_string(),
            alias: None,
            table: Some(s[..i].to_string()),
            function: None,
        },
        None => Column { name: s.to_string(), alias: None, table: None, function: None },
    }
}

fn table(s: &str) -> Table {
    Table { name: s.to_string(), alias: None }
}

#[test]
fn sql_types() {
    let type0 = "bigint(20) unsigned";
    let type1 = "varchar(255) binary";

    let res = type_identifier(type0.as_bytes(), 0);
    assert_eq!(res.unwrap().0, SqlType::Bigint(20));
    let res = type_identifier(type1.as_bytes(), 0);
    assert_eq!(res.unwrap().0, SqlType::Varchar(255));
}

#[test]
fn field_spec() {
    let qstring = "id bigint(20), name varchar(255),";

    let res = field_specification_list(qstring.as_bytes(), 0);
    assert_eq!(
        res.unwrap().0,
        vec![
            ColumnSpecification::new(col("id"), SqlType::Bigint(20)),
            ColumnSpecification::new(col("name"), SqlType::Varchar(255)),
        ]
    );
}

#[test]
fn simple_create() {
    let qstring = "CREATE TABLE users (id bigint(20), name varchar(255), email varchar(255));";

    let res = creation(qstring.as_bytes(), 0);
    let (stmt, rest) = res.unwrap();
    assert_eq!(
        stmt,
        CreateTableStatement {
            table: table("users"),
            fields: vec![
                ColumnSpecification::new(col("users.id"), SqlType::Bigint(20)),
                ColumnSpecification::new(col("users.name"), SqlType::Varchar(255)),
                ColumnSpecification::new(col("users.email"), SqlType::Varchar(255)),
            ],
            ..Default::default()
        }
    );
    assert_eq!(rest, qstring.len());
}

#[test]
fn create_without_space_after_tablename() {
    let qstring = "CREATE TABLE t(x integer);";
    let res = creation(qstring.as_bytes(), 0);
    assert_eq!(
        res.unwrap().0,
        CreateTableStatement {
            table: table("t"),
            fields: vec![ColumnSpecification::new(col("t.x"), SqlType::Int(32))],
            ..Default::default()
        }
    );
}

#[test]
fn mediawiki_create() {
    let qstring = "CREATE TABLE user_newtalk (  user_id int(5) NOT NULL default '0',  user_ip \
                   varchar(40) NOT NULL default '') TYPE=MyISAM;";
    let res = creation(qstring.as_bytes(), 0);
    assert_eq!(
        res.unwrap().0,
        CreateTableStatement {
            table: table("user_newtalk"),
            fields: vec![
                ColumnSpecification::with_constraints(
                    col("user_newtalk.user_id"),
                    SqlType::Int(5),
                    vec![
                        ColumnConstraint::NotNull,
                        ColumnConstraint::DefaultValue(Literal::String(String::from("0"))),
                    ],
                ),
                ColumnSpecification::with_constraints(
                    col("user_newtalk.user_ip"),
                    SqlType::Varchar(40),
                    vec![
                        ColumnConstraint::NotNull,
                        ColumnConstraint::DefaultValue(Literal::String(String::from(""))),
                    ],
                ),
            ],
            ..Default::default()
        }
    );
}

#[test]
fn mediawiki_create2() {
    let qstring = "CREATE TABLE `user` (
                    user_id int unsigned NOT NULL PRIMARY KEY AUTO_INCREMENT,
                    user_name varchar(255) binary NOT NULL default '',
                    user_real_name varchar(255) binary NOT NULL default '',
                    user_password tinyblob NOT NULL,
                    user_newpassword tinyblob NOT NULL,
                    user_newpass_time binary(14),
                    user_email tinytext NOT NULL,
                    user_touched binary(14) NOT NULL default '',
                    user_token binary(32) NOT NULL default '',
                    user_email_authenticated binary(14),
                    user_email_token binary(32),
                    user_email_token_expires binary(14),
                    user_registration binary(14),
                    user_editcount int,
                    user_password_expires varbinary(14) DEFAULT NULL
                   ) ENGINE=, DEFAULT CHARSET=utf8";
    creation(qstring.as_bytes(), 0).unwrap();
}

#[test]
fn mediawiki_create3() {
    let qstring = "CREATE TABLE `interwiki` (
 iw_prefix varchar(32) NOT NULL,
 iw_url blob NOT NULL,
 iw_api blob NOT NULL,
 iw_wikiid varchar(64) NOT NULL,
 iw_local bool NOT NULL,
 iw_trans tinyint NOT NULL default 0
 ) ENGINE=, DEFAULT CHARSET=utf8";
    creation(qstring.as_bytes(), 0).unwrap();
}

#[test]
fn mediawiki_externallinks() {
    let qstring = "CREATE TABLE `externallinks` (
          `el_id` int(10) unsigned NOT NULL AUTO_INCREMENT,
          `el_from` int(8) unsigned NOT NULL DEFAULT '0',
          `el_from_namespace` int(11) NOT NULL DEFAULT '0',
          `el_to` blob NOT NULL,
          `el_index` blob NOT NULL,
          `el_index_60` varbinary(60) NOT NULL,
          PRIMARY KEY (`el_id`),
          KEY `el_from` (`el_from`,`el_to`(40)),
          KEY `el_to` (`el_to`(60),`el_from`),
          KEY `el_index` (`el_index`(60)),
          KEY `el_backlinks_to` (`el_from_namespace`,`el_to`(60),`el_from`),
          KEY `el_index_60` (`el_index_60`,`el_id`),
          KEY `el_from_index_60` (`el_from`,`el_index_60`,`el_id`)
        )";
    creation(qstring.as_bytes(), 0).unwrap();
}

#[test]
fn keys() {
    // simple primary key
    let qstring = "CREATE TABLE users (id bigint(20), name varchar(255), email varchar(255), \
                   PRIMARY KEY (id));";

    let res = creation(qstring.as_bytes(), 0);
    assert_eq!(
        res.unwrap().0,
        CreateTableStatement {
            table: table("users"),
            fields: vec![
                ColumnSpecification::new(col("users.id"), SqlType::Bigint(20)),
                ColumnSpecification::new(col("users.name"), SqlType::Varchar(255)),
                ColumnSpecification::new(col("users.email"), SqlType::Varchar(255)),
            ],
            keys: Some(vec![TableKey::PrimaryKey(vec![col("users.id")])]),
            ..Default::default()
        }
    );

    // named unique key
    let qstring = "CREATE TABLE users (id bigint(20), name varchar(255), email varchar(255), \
                   UNIQUE KEY id_k (id));";

    let res = creation(qstring.as_bytes(), 0);
    assert_eq!(
        res.unwrap().0,
        CreateTableStatement {
            table: table("users"),
            fields: vec![
                ColumnSpecification::new(col("users.id"), SqlType::Bigint(20)),
                ColumnSpecification::new(col("users.name"), SqlType::Varchar(255)),
                ColumnSpecification::new(col("users.email"), SqlType::Varchar(255)),
            ],
            keys: Some(vec![TableKey::UniqueKey(Some(String::from("id_k")), vec![col("users.id")])]),
            ..Default::default()
        }
    );
}

#[test]
fn django_create() {
    let qstring = "CREATE TABLE `django_admin_log` (
                   `id` integer AUTO_INCREMENT NOT NULL PRIMARY KEY,
                   `action_time` datetime NOT NULL,
                   `user_id` integer NOT NULL,
                   `content_type_id` integer,
                   `object_id` longtext,
                   `object_repr` varchar(200) NOT NULL,
                   `action_flag` smallint UNSIGNED NOT NULL,
                   `change_message` longtext NOT NULL);";
    let res = creation(qstring.as_bytes(), 0);
    assert_eq!(
        res.unwrap().0,
        CreateTableStatement {
            table: table("django_admin_log"),
            fields: vec![
                ColumnSpecification::with_constraints(
                    col("django_admin_log.id"),
                    SqlType::Int(32),
                    vec![
                        ColumnConstraint::AutoIncrement,
                        ColumnConstraint::NotNull,
                        ColumnConstraint::PrimaryKey,
                    ],
                ),
                ColumnSpecification::with_constraints(
                    col("django_admin_log.action_time"),
                    SqlType::DateTime(0),
                    vec![ColumnConstraint::NotNull],
                ),
                ColumnSpecification::with_constraints(
                    col("django_admin_log.user_id"),
                    SqlType::Int(32),
                    vec![ColumnConstraint::NotNull],
                ),
                ColumnSpecification::new(col("django_admin_log.content_type_id"), SqlType::Int(32)),
                ColumnSpecification::new(col("django_admin_log.object_id"), SqlType::Longtext),
                ColumnSpecification::with_constraints(
                    col("django_admin_log.object_repr"),
                    SqlType::Varchar(200),
                    vec![ColumnConstraint::NotNull],
                ),
                ColumnSpecification::with_constraints(
                    col("django_admin_log.action_flag"),
                    SqlType::Int(32),
                    vec![ColumnConstraint::NotNull],
                ),
                ColumnSpecification::with_constraints(
                    col("django_admin_log.change_message"),
                    SqlType::Longtext,
                    vec![ColumnConstraint::NotNull],
                ),
            ],
            ..Default::default()
        }
    );

    let qstring = "CREATE TABLE `auth_group` (
                   `id` integer AUTO_INCREMENT NOT NULL PRIMARY KEY,
                   `name` varchar(80) NOT NULL UNIQUE)";
    let res = creation(qstring.as_bytes(), 0);
    assert_eq!(
        res.unwrap().0,
        CreateTableStatement {
            table: table("auth_group"),
            fields: vec![
                ColumnSpecification::with_constraints(
                    col("auth_group.id"),
                    SqlType::Int(32),
                    vec![
                        ColumnConstraint::AutoIncrement,
                        ColumnConstraint::NotNull,
                        ColumnConstraint::PrimaryKey,
                    ],
                ),
                ColumnSpecification::with_constraints(
                    col("auth_group.name"),
                    SqlType::Varchar(80),
                    vec![ColumnConstraint::NotNull, ColumnConstraint::Unique],
                ),
            ],
            ..Default::default()
        }
    );
}

#[test]
fn format_create() {
    let qstring = "CREATE TABLE `auth_group` (
                   `id` integer AUTO_INCREMENT NOT NULL PRIMARY KEY,
                   `name` varchar(80) NOT NULL UNIQUE)";
    let expected = "CREATE TABLE auth_group (\
                    id INT(32) AUTO_INCREMENT NOT NULL PRIMARY KEY, \
                    name VARCHAR(80) NOT NULL UNIQUE)";
    let res = creation(qstring.as_bytes(), 0);
    assert_eq!(res.unwrap().0.to_string(), expected);
}

#[test]
fn table_foreign_key_spec() {
    let qstring = "FOREIGN KEY(this1, this2) REFERENCES that_table(that1, that2),FOREIGN KEY(this3) REFERENCES that_table2(that3),";

    let res = foreign_key_specification_list(qstring.as_bytes(), 0);
    println!("{:?}", res);
    assert_eq!(
        res.unwrap().0,
        vec![
            ForeignKeySpecification::new(None, None, vec![col("this1"), col("this2")], table("that_table"), vec![col("that1"), col("that2")]),
            ForeignKeySpecification::new(None, None, vec![col("this3")], table("that_table2"), vec![col("that3")]),
        ]
    );
}

#[test]
fn format_create_with_foreign_key() {
    let qstring = "CREATE TABLE `auth_group` (
                   `id` integer AUTO_INCREMENT NOT NULL PRIMARY KEY,
                   `name` varchar(80) NOT NULL UNIQUE,
                   FOREIGN KEY(`name`) REFERENCES artist(`name`))";
    let expected = "CREATE TABLE auth_group (\
                    id INT(32) AUTO_INCREMENT NOT NULL PRIMARY KEY, \
                    name VARCHAR(80) NOT NULL UNIQUE, \
                    FOREIGN KEY(name) REFERENCES artist(name))";
    let res = creation(qstring.as_bytes(), 0);
    assert_eq!(res.unwrap().0.to_string(), expected);
}

#[test]
fn foreign_key() {
    let qstring = "FOREIGN KEY(`name`) REFERENCES artist(`name`)";
    let expected = "FOREIGN KEY(name) REFERENCES artist(name)";
    let res = foreign_key_specification_list(qstring.as_bytes(), 0);
    assert_eq!(res.unwrap().0[0].to_string(), expected);
}

#[test]
fn foreign_key2() {
    let qstring = "FOREIGN KEY   (   `name`   )    REFERENCES   artist    (  `name`  )";
    let expected = "FOREIGN KEY(name) REFERENCES artist(name)";
    let res = foreign_key_specification_list(qstring.as_bytes(), 0);
    assert_eq!(res.unwrap().0[0].to_string(), expected);
}

#[test]
fn foreign_key3() {
    let qstring = "CONSTRAINT fk_name FOREIGN KEY(`name`) REFERENCES artist(`name`)";
    let expected = "CONSTRAINT fk_name FOREIGN KEY(name) REFERENCES artist(name)";
    let res = foreign_key_specification_list(qstring.as_bytes(), 0);
    assert_eq!(res.unwrap().0[0].to_string(), expected);
}

#[test]
fn foreign_key_actions_keep_their_words() {
    let qstring = "FOREIGN KEY(a) REFERENCES o(x) ON delete RESTRICT ON UPDATE restrict";
    let res = foreign_key_specification_list(qstring.as_bytes(), 0);
    let fk = &res.unwrap().0[0];
    assert_eq!(fk.ref_action, Some(String::from("ON delete RESTRICT ON UPDATE RESTRICT")));
    assert_eq!(fk.to_string(), "FOREIGN KEY(a) REFERENCES o(x) ON delete RESTRICT ON UPDATE RESTRICT ");
}

#[test]
fn foreign_key_reserved_column_is_escaped() {
    let fk = ForeignKeySpecification::new(None, None, vec![col("key")], table("t"), vec![col("a")]);
    assert_eq!(fk.to_string(), "FOREIGN KEY(`key`) REFERENCES t(a)");
    let text = fk.to_string();
    let back = foreign_key_specification_list(text.as_bytes(), 0).unwrap().0;
    assert_eq!(back[0].from[0].name, "key");
}
