//! A front end for a SQL dialect: grammar functions that read statement text
//! into typed syntax trees, and a formatter that writes the trees back as
//! canonical SQL.
//!
//! Every grammar function takes the input bytes and a start position. It
//! returns the value read and the position after it, or `None` when the input
//! does not match there; input is taken as complete, so a statement cut short
//! is a failure. Each one is specified by a spec function of the same grammar
//! (`p_*`), over views of the syntax tree types, and each `to_string` by a spec
//! function of the text it writes (`*_text`).
//!
//! Modules, leaves first: `lex` (bytes, tokens, identifiers, numbers,
//! terminators), `keywords` (reserved words and escaping), `common`
//! (operators), `types` (column types), `table`, `column` (column references,
//! aggregate functions, field lists), `constraint` (literals, column
//! constraints, column specifications), `keys`, `foreignkey`, `create`
//! (`CREATE TABLE`), `text` and `format` (rendering), `laws` (proved
//! properties that relate the grammar and the formatter).
//!
//! `CREATE VIEW` and its `SelectSpecification` are not provided: a view's body
//! is a `SELECT` or compound `SELECT`, whose grammar and syntax tree are not
//! part of this library. Table options after a `CREATE TABLE` column list are
//! read up to the terminator without checking their syntax.
pub mod keywords;
pub mod lex;
pub mod common;
pub mod types;
pub mod text;
pub mod table;
pub mod column;
pub mod constraint;
pub mod keys;
pub mod foreignkey;
pub mod create;
pub mod format;
pub mod laws;
