//! What the library takes on trust from `rusqlite`: the types it hands
//! through and the calls it makes. Nothing in this file is proved; every
//! contract here restates what the crate's source shows.

use crate::text::occurs;
use rusqlite::types::Value;
use rusqlite::Connection;
use vstd::prelude::*;
use vstd::utf8::encode_utf8;

verus! {

/// `rusqlite::types::Value`: one SQL value, by its five public variants.
#[verifier::external_type_specification]
pub struct ExValue(rusqlite::types::Value);

/// `rusqlite::Connection`: an open database. Opaque.
#[verifier::external_type_specification]
#[verifier::external_body]
pub struct ExConnection(rusqlite::Connection);

/// `rusqlite::Error`: why a call failed. Opaque.
#[verifier::external_type_specification]
#[verifier::external_body]
pub struct ExError(rusqlite::Error);

/// `Value::clone`, which `rusqlite` derives: the copy is the same value.
pub assume_specification[ <rusqlite::types::Value as Clone>::clone ](v: &Value) -> (r: Value)
    ensures
        r == *v,
;

/// `Connection::open`: opens the database at `path`. It first turns the
/// path into a C string, which fails for a path that holds a zero byte.
/// Whether any other path can be opened depends on what is on disk, so no
/// more is promised.
#[verifier::external_body]
pub(crate) fn open(path: &str) -> (r: Result<Connection, rusqlite::Error>)
    ensures
        occurs(encode_utf8(path@), 0u8) ==> r is Err,
{
    Connection::open(path)
}

/// `Connection::execute` with positional parameters: runs one statement and
/// gives the number of rows it changed. The outcome depends on the database,
/// so nothing is promised.
#[verifier::external_body]
pub(crate) fn execute(conn: &Connection, sql: &str, args: &Vec<Value>) -> (r: Result<
    usize,
    rusqlite::Error,
>) {
    conn.execute(sql, rusqlite::params_from_iter(args.iter()))
}

/// `Connection::last_insert_rowid`: the row id of the latest insert on this
/// connection. It depends on the database, so nothing is promised.
#[verifier::external_body]
pub(crate) fn last_insert_rowid(conn: &Connection) -> (rowid: i64) {
    conn.last_insert_rowid()
}

/// `Connection::prepare`, `Statement::query` and `Rows::next`: whether the
/// query yields a first row. It depends on the database, so nothing is
/// promised.
#[verifier::external_body]
pub(crate) fn has_row(conn: &Connection, sql: &str, args: &Vec<Value>) -> (r: Result<
    bool,
    rusqlite::Error,
>) {
    let mut stmt = conn.prepare(sql)?;
    let mut rows = stmt.query(rusqlite::params_from_iter(args.iter()))?;
    Ok(rows.next()?.is_some())
}

/// `Connection::prepare` and `Statement::query_map`: each row of the query,
/// read as two integers, a text and two optional texts, or the error that
/// reading it gave. It depends on the database, so nothing is promised.
#[verifier::external_body]
pub(crate) fn exercise_rows(conn: &Connection, sql: &str, args: &Vec<Value>) -> (r: Result<
    Vec<Result<(u32, u32, String, Option<String>, Option<String>), rusqlite::Error>>,
    rusqlite::Error,
>) {
    let mut stmt = conn.prepare(sql)?;
    let rows = stmt.query_map(rusqlite::params_from_iter(args.iter()), |row| row.try_into())?;
    Ok(rows.collect())
}

/// `Error::to_string`: the text that `rusqlite` gives for an error. It is
/// made from what the database reported, so nothing is promised.
#[verifier::external_body]
pub(crate) fn error_text(error: &rusqlite::Error) -> (text: String) {
    error.to_string()
}

/// `Error::to_string` on `Error::QueryReturnedNoRows`: a fixed text.
#[verifier::external_body]
pub(crate) fn no_rows_text() -> (text: String)
    ensures
        text@ == "Query returned no rows"@,
{
    rusqlite::Error::QueryReturnedNoRows.to_string()
}

} // verus!
