//! The boundary to the SQL engine.
//!
//! Everything here is believed, not proved: the declarations make the
//! engine's types known to the verifier, and each function makes exactly one
//! call into `rusqlite`. What a call does to the stored table is decided by
//! the engine and by what is on disk, so no contract here speaks of it. What
//! the contracts do say is what each handle was made with: a connection its
//! path, a statement its connection and text, a cursor its statement and
//! bound parameters, a row its cursor.

use crate::statements::{SELECT_ALL, SELECT_ONE};
use rusqlite::{Connection, Error, Row, Rows, Statement};
use std::path::PathBuf;
use vstd::prelude::*;

verus! {

/// `std::path::PathBuf`, carried through to the engine unread.
#[verifier::external_type_specification]
#[verifier::external_body]
pub struct ExPathBuf(PathBuf);

/// `rusqlite::Connection`: an open database. Opaque.
#[verifier::external_type_specification]
#[verifier::external_body]
pub struct ExConnection(Connection);

/// `rusqlite::Error`: any failure the engine reports. Opaque; only its text
/// is ever looked at.
#[verifier::external_type_specification]
#[verifier::external_body]
pub struct ExError(Error);

/// `rusqlite::Statement`: a compiled statement. Opaque.
#[verifier::external_type_specification]
#[verifier::external_body]
pub struct ExStatement<'conn>(Statement<'conn>);

/// `rusqlite::Rows`: a cursor over the rows of a running query. Opaque.
#[verifier::external_type_specification]
#[verifier::external_body]
pub struct ExRows<'stmt>(Rows<'stmt>);

/// `rusqlite::Row`: the row a cursor stands on. Opaque; read through
/// [`column_text`].
#[verifier::external_type_specification]
#[verifier::external_body]
pub struct ExRow<'stmt>(Row<'stmt>);

/// The path that a connection was opened with.
pub uninterp spec fn opened_path(conn: Connection) -> PathBuf;

/// The connection that a statement was prepared on, and the text that it was
/// prepared from.
pub uninterp spec fn prepared_from(stmt: Statement<'_>) -> (Connection, Seq<char>);

/// What a cursor runs: the connection and the text of its statement, and the
/// texts bound to the statement's placeholders, in order.
pub uninterp spec fn queried_with(rows: Rows<'_>) -> (Connection, Seq<char>, Seq<Seq<char>>);

/// What the cursor runs that a row was yielded by.
pub uninterp spec fn yielded_by(row: Row<'_>) -> (Connection, Seq<char>, Seq<Seq<char>>);

/// A parameter list, each parameter taken by its view.
pub open spec fn texts(params: Seq<&str>) -> Seq<Seq<char>> {
    params.map_values(|s: &str| s@)
}

/// The text that `Display` gives for an engine error. It depends on the
/// error value alone.
pub uninterp spec fn error_text(e: Error) -> Seq<char>;

/// What reading column `idx` of `row` as a `String` gives: the text, or the
/// engine's error for a missing column or a value that is not text. A row
/// cannot change while it is borrowed, so this depends on `row` and `idx`
/// alone.
pub uninterp spec fn column_text(row: Row<'_>, idx: usize) -> Result<Seq<char>, Error>;

/// `Connection::open`: opens the database file at `path`, creating it if
/// absent. A connection that comes back is one opened with `path`.
#[verifier::external_body]
pub(crate) fn open(path: &PathBuf) -> (r: Result<Connection, Error>)
    ensures
        r matches Ok(conn) ==> opened_path(conn) == *path,
{
    Connection::open(path)
}

/// `Connection::execute`: runs one statement with `params` bound to its
/// placeholders in order, each as text. The count it returns is the number of
/// rows the engine reports as changed.
#[verifier::external_body]
pub(crate) fn execute(conn: &Connection, sql: &str, params: &Vec<&str>) -> (r: Result<
    usize,
    Error,
>) {
    conn.execute(sql, rusqlite::params_from_iter(params.iter()))
}

/// `Connection::prepare`: compiles one statement. A statement that comes
/// back is one prepared on `conn` from `sql`.
#[verifier::external_body]
pub(crate) fn prepare<'conn>(conn: &'conn Connection, sql: &str) -> (r: Result<
    Statement<'conn>,
    Error,
>)
    ensures
        r matches Ok(stmt) ==> prepared_from(stmt) == (*conn, sql@),
{
    conn.prepare(sql)
}

/// `Statement::query`: binds `params` in order, each as text, and hands out
/// a cursor positioned before the first row. A cursor that comes back runs
/// `stmt` with exactly `params` bound.
#[verifier::external_body]
pub(crate) fn query<'stmt>(stmt: &'stmt mut Statement<'_>, params: &Vec<&str>) -> (r: Result<
    Rows<'stmt>,
    Error,
>)
    ensures
        r matches Ok(rows) ==> queried_with(rows) == (
            prepared_from(*old(stmt)).0,
            prepared_from(*old(stmt)).1,
            texts(params@),
        ),
{
    stmt.query(rusqlite::params_from_iter(params.iter()))
}

/// `Rows::next`: steps the cursor; `Ok(None)` when the rows are exhausted.
/// A row that comes back is yielded by this cursor, which goes on running
/// what it ran.
#[verifier::external_body]
pub(crate) fn next_row<'a, 'stmt>(rows: &'a mut Rows<'stmt>) -> (r: Result<
    Option<&'a Row<'stmt>>,
    Error,
>)
    ensures
        r matches Ok(Some(row)) ==> yielded_by(*row) == queried_with(*old(rows)) && queried_with(
            *final(rows),
        ) == queried_with(*old(rows)),
{
    rows.next()
}

/// A column read, with the text taken by its view.
pub open spec fn text_view(read: Result<String, Error>) -> Result<Seq<char>, Error> {
    match read {
        Ok(s) => Ok(s@),
        Err(e) => Err(e),
    }
}

/// `row` was yielded for one of the store's two read statements.
///
/// Such a row has four columns, named in ASCII by the statement or by the
/// table. That matters to [`get_text`]: where a value is not text, the
/// engine's error names the column, and `rusqlite` panics on a column name
/// that is not UTF-8.
pub open spec fn store_row(row: Row<'_>) -> bool {
    yielded_by(row).1 == SELECT_ONE@ || yielded_by(row).1 == SELECT_ALL@
}

/// `Row::get` at type `String`: the result is `column_text(row, idx)`. Only
/// for rows of the store's own statements, whose column names are ASCII: on
/// a value that is not text the call builds its error from the column's
/// name and panics where that name is not UTF-8.
#[verifier::external_body]
pub(crate) fn get_text(row: &Row<'_>, idx: usize) -> (r: Result<String, Error>)
    requires
        store_row(*row),
    ensures
        text_view(r) == column_text(*row, idx),
{
    row.get::<usize, String>(idx)
}

/// `ToString::to_string` on an engine error, which runs the error's
/// `Display`: the result is `error_text(e)`.
#[verifier::external_body]
pub(crate) fn message(e: &Error) -> (r: String)
    ensures
        r@ == error_text(*e),
{
    e.to_string()
}

} // verus!
