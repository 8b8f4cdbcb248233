//! The trusted boundary to the storage engine. Everything here either
//! declares an engine type or makes one engine call; nothing is proved of
//! the engine's answers, since they depend on the database on disk.

use vstd::prelude::*;
use crate::config::Scalar;

verus! {

#[verifier::external_type_specification]
#[verifier::external_body]
pub struct ExConnection(rusqlite::Connection);

#[verifier::external_type_specification]
#[verifier::external_body]
pub struct ExSqlError(rusqlite::Error);

#[verifier::external_type_specification]
#[verifier::external_body]
pub struct ExSqlValue(rusqlite::types::Value);

/// Relies on rusqlite::Connection::execute: runs one statement without
/// parameters. The engine decides success; nothing is promised of it.
#[verifier::external_body]
pub(crate) fn execute_statement(conn: &rusqlite::Connection, sql: &str) -> Result<
    usize,
    rusqlite::Error,
> {
    conn.execute(sql, [])
}

/// Relies on rusqlite::Connection::execute with rusqlite::params_from_iter:
/// runs one statement, binding the given values to its placeholders in
/// order. The engine decides success; nothing is promised of it.
#[verifier::external_body]
pub(crate) fn execute_with_params(
    conn: &rusqlite::Connection,
    sql: &str,
    params: Vec<rusqlite::types::Value>,
) -> Result<usize, rusqlite::Error> {
    conn.execute(sql, rusqlite::params_from_iter(params))
}

/// Relies on rusqlite::Connection::query_row and rusqlite::Row::get: runs a
/// query expected to return one row and hands back its first column as an
/// integer. What comes back depends on the database; nothing is promised.
#[verifier::external_body]
pub(crate) fn query_single_i64(conn: &rusqlite::Connection, sql: &str) -> Result<
    i64,
    rusqlite::Error,
> {
    conn.query_row(sql, [], |row| row.get(0))
}

/// Relies on rusqlite::types::Value: carries one SQL value to the engine. A
/// boolean travels as the integer the engine stores booleans as.
#[verifier::external_body]
pub(crate) fn scalar_to_sql(s: &Scalar) -> rusqlite::types::Value {
    match s {
        Scalar::Null => rusqlite::types::Value::Null,
        Scalar::Bool(b) => rusqlite::types::Value::Integer(*b as i64),
        Scalar::Int(i) => rusqlite::types::Value::Integer(*i),
        Scalar::Text(t) => rusqlite::types::Value::Text(t.clone()),
    }
}

} // verus!
