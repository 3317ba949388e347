use vstd::prelude::*;
use crate::sql_value::SqlValue;

verus! {

/// Declares rusqlite::Connection, the embedded engine's connection handle,
/// so that the library can own and pass one; its contents stay opaque.
#[verifier::external_type_specification]
#[verifier::external_body]
pub struct ExConnection(rusqlite::Connection);

/// Declares rusqlite::Error, the engine's own error value, so that
/// `StoreError` can carry it through; its contents stay opaque.
#[verifier::external_type_specification]
#[verifier::external_body]
pub struct ExSqlError(rusqlite::Error);

/// Declares rusqlite::types::Value, the engine's dynamic value, which the
/// conversion helpers below translate to and from `SqlValue`.
#[verifier::external_type_specification]
#[verifier::external_body]
pub struct ExSqlEngineValue(rusqlite::types::Value);

/// Relies on rusqlite::Connection::open: opens the database file at `path`,
/// creating it if absent, and fails if the underlying engine cannot open it.
#[verifier::external_body]
pub(crate) fn open_connection(path: &str) -> Result<rusqlite::Connection, rusqlite::Error> {
    rusqlite::Connection::open(path)
}

/// Converts the library's dynamic values into the engine's own value type,
/// variant for variant.
#[verifier::external_body]
fn to_engine_values(params: &Vec<SqlValue>) -> Vec<rusqlite::types::Value> {
    params.iter().map(|v| match v {
        SqlValue::Null => rusqlite::types::Value::Null,
        SqlValue::Int(i) => rusqlite::types::Value::Integer(*i),
        SqlValue::Text(s) => rusqlite::types::Value::Text(s.clone()),
    }).collect()
}

/// Converts one engine value back into the library's dynamic value, variant
/// for variant. The library's tables hold only INTEGER and TEXT columns, so a
/// REAL or BLOB value maps to the absent value.
#[verifier::external_body]
fn from_engine_value(v: rusqlite::types::Value) -> SqlValue {
    match v {
        rusqlite::types::Value::Integer(i) => SqlValue::Int(i),
        rusqlite::types::Value::Text(s) => SqlValue::Text(s),
        _ => SqlValue::Null,
    }
}

/// Relies on rusqlite::Connection::execute: runs the one statement in `sql`
/// with the given bound parameters and reports how many rows it changed.
#[verifier::external_body]
pub(crate) fn exec_sql(
    conn: &rusqlite::Connection,
    sql: &str,
    params: &Vec<SqlValue>,
) -> Result<usize, rusqlite::Error> {
    conn.execute(sql, rusqlite::params_from_iter(to_engine_values(params)))
}

/// Relies on rusqlite::Statement::query, reached through
/// rusqlite::Connection::prepare: runs the query in `sql` with the given
/// bound parameters and hands back every result row, each column read as a
/// dynamically typed engine value.
#[verifier::external_body]
pub(crate) fn query_sql(
    conn: &rusqlite::Connection,
    sql: &str,
    params: &Vec<SqlValue>,
) -> Result<Vec<Vec<SqlValue>>, rusqlite::Error> {
    let mut stmt = conn.prepare(sql)?;
    let width = stmt.column_count();
    let mut rows = stmt.query(rusqlite::params_from_iter(to_engine_values(params)))?;
    let mut out: Vec<Vec<SqlValue>> = Vec::new();
    while let Some(row) = rows.next()? {
        let mut vals: Vec<SqlValue> = Vec::new();
        for i in 0..width {
            vals.push(from_engine_value(row.get::<usize, rusqlite::types::Value>(i)?));
        }
        out.push(vals);
    }
    Ok(out)
}

/// Relies on the Display impl of rusqlite::Error: renders the engine's own
/// error as text for a user-visible notification.
#[verifier::external_body]
pub(crate) fn engine_error_text(e: &rusqlite::Error) -> String {
    format!("{}", e)
}

/// Relies on rusqlite::Connection::last_insert_rowid: hands back the rowid
/// that the engine assigned to the most recent successful insert on this
/// connection.
#[verifier::external_body]
pub(crate) fn last_insert_id(conn: &rusqlite::Connection) -> i64 {
    conn.last_insert_rowid()
}

} // verus!
