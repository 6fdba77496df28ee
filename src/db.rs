//! The calls into rusqlite that the repositories make, each behind a small
//! trusted wrapper. What the database holds lives on disk, so none of these
//! promises anything about the rows it reads or the outcome of a statement.
use vstd::prelude::*;
use crate::sql::SqlValue;

verus! {

#[verifier::external_type_specification]
#[verifier::external_body]
pub struct ExConnection(rusqlite::Connection);

#[verifier::external_type_specification]
#[verifier::external_body]
pub struct ExError(rusqlite::Error);

#[verifier::external_type_specification]
#[verifier::external_body]
pub struct ExTransaction<'conn>(rusqlite::Transaction<'conn>);

#[verifier::external_type_specification]
#[verifier::external_body]
pub struct ExStatement<'conn>(rusqlite::Statement<'conn>);

#[verifier::external_type_specification]
#[verifier::external_body]
pub struct ExRows<'stmt>(rusqlite::Rows<'stmt>);

#[verifier::external_type_specification]
#[verifier::external_body]
pub struct ExRow<'stmt>(rusqlite::Row<'stmt>);

/// Relies on `rusqlite::Connection::transaction`: begins a deferred
/// transaction that rolls back when dropped uncommitted.
#[verifier::external_body]
pub(crate) fn begin(conn: &mut rusqlite::Connection) -> (r: Result<rusqlite::Transaction<'_>, rusqlite::Error>) {
    conn.transaction()
}

/// Relies on `rusqlite::Connection::unchecked_transaction`: the same through a
/// shared handle; a nested transaction fails at run time.
#[verifier::external_body]
pub(crate) fn begin_shared(conn: &rusqlite::Connection) -> (r: Result<rusqlite::Transaction<'_>, rusqlite::Error>) {
    conn.unchecked_transaction()
}

/// Relies on `rusqlite::Transaction::commit`.
#[verifier::external_body]
pub(crate) fn commit(tx: rusqlite::Transaction<'_>) -> (r: Result<(), rusqlite::Error>) {
    tx.commit()
}

/// Relies on `rusqlite::Connection::execute`, reached through the transaction:
/// runs one statement with positional parameters, each bound as the SQLite
/// value of the same kind, and returns the number of rows it changed.
#[verifier::external_body]
pub(crate) fn execute(tx: &rusqlite::Transaction<'_>, sql: &str, params: Vec<SqlValue>) -> (r: Result<usize, rusqlite::Error>) {
    let values = params.into_iter().map(|v| match v {
        SqlValue::Null => rusqlite::types::Value::Null,
        SqlValue::Integer(i) => rusqlite::types::Value::Integer(i),
        SqlValue::Text(s) => rusqlite::types::Value::Text(s),
    });
    tx.execute(sql, rusqlite::params_from_iter(values))
}

/// Relies on `rusqlite::Connection::last_insert_rowid`, reached through the
/// transaction.
#[verifier::external_body]
pub(crate) fn last_insert_rowid(tx: &rusqlite::Transaction<'_>) -> (r: i64) {
    tx.last_insert_rowid()
}

/// Relies on `rusqlite::Connection::execute_batch`: runs a script of
/// statements.
#[verifier::external_body]
pub(crate) fn execute_batch(conn: &rusqlite::Connection, sql: &str) -> (r: Result<(), rusqlite::Error>) {
    conn.execute_batch(sql)
}

/// Relies on `rusqlite::Connection::prepare`.
#[verifier::external_body]
pub(crate) fn prepare<'c>(conn: &'c rusqlite::Connection, sql: &str) -> (r: Result<rusqlite::Statement<'c>, rusqlite::Error>) {
    conn.prepare(sql)
}

/// Relies on `rusqlite::Statement::query` with positional parameters, each
/// bound as the SQLite value of the same kind.
#[verifier::external_body]
pub(crate) fn query<'s>(stmt: &'s mut rusqlite::Statement<'_>, params: Vec<SqlValue>) -> (r: Result<rusqlite::Rows<'s>, rusqlite::Error>) {
    let values = params.into_iter().map(|v| match v {
        SqlValue::Null => rusqlite::types::Value::Null,
        SqlValue::Integer(i) => rusqlite::types::Value::Integer(i),
        SqlValue::Text(s) => rusqlite::types::Value::Text(s),
    });
    stmt.query(rusqlite::params_from_iter(values))
}

/// Relies on `rusqlite::Rows::next`: the next row, or `None` after the last.
#[verifier::external_body]
pub(crate) fn next_row<'a, 's>(rows: &'a mut rusqlite::Rows<'s>) -> (r: Result<Option<&'a rusqlite::Row<'s>>, rusqlite::Error>) {
    rows.next()
}

/// Relies on `rusqlite::Row::get` read as `Option<i64>`: NULL is `None`.
#[verifier::external_body]
pub(crate) fn column_int(row: &rusqlite::Row<'_>, idx: usize) -> (r: Result<Option<i64>, rusqlite::Error>) {
    row.get(idx)
}

/// Relies on `rusqlite::Row::get` read as `Option<String>`: NULL is `None`.
#[verifier::external_body]
pub(crate) fn column_text(row: &rusqlite::Row<'_>, idx: usize) -> (r: Result<Option<String>, rusqlite::Error>) {
    row.get(idx)
}

/// Relies on the `Display` impl of `rusqlite::Error`, kept for diagnostics.
#[verifier::external_body]
pub(crate) fn error_message(e: &rusqlite::Error) -> (r: String) {
    e.to_string()
}

} // verus!
