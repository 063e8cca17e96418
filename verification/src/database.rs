//! The store: one connection, five operations.
//!
//! Each operation hands a fixed statement and its parameters to the engine
//! and turns what comes back into the caller's result. What is handed over
//! is made by a request function with an exact contract; what is done with
//! the answer is in `decode`, exact as well. What the table holds
//! afterwards, which rows a query yields and in what order are the engine's
//! doing; the contracts of the operations say what holds of the result
//! whatever the engine answered. For a write that is little: its answer
//! holds nothing of the call that gave it, and of an `Err` the contracts say
//! only that the text was taken from an engine error.

use crate::decode::{
    decode_step, engine_message, listing_step, obtained, spec_read_project, written,
};
use crate::engine::{
    execute, next_row, open, opened_path, prepare, queried_with, query, texts, yielded_by,
};
use crate::project::{Project, ProjectView};
use crate::statements::{CREATE_TABLE, DELETE, SELECT_ALL, SELECT_ONE, UPSERT};
use rusqlite::{Connection, Error, Row};
use std::path::PathBuf;
use vstd::prelude::*;

verus! {

/// What is handed to the engine to create the table: `CREATE_TABLE`, with
/// nothing bound.
pub fn schema_request() -> (r: (&'static str, Vec<&'static str>))
    ensures
        r.0@ == CREATE_TABLE@,
        texts(r.1@) == Seq::<Seq<char>>::empty(),
{
    let none: Vec<&'static str> = Vec::new();
    assert(texts(none@) =~= Seq::<Seq<char>>::empty());
    (CREATE_TABLE, none)
}

/// What is handed to the engine to store `project`: `UPSERT`, with the four
/// fields bound in column order.
pub fn upsert_request<'a>(project: &'a Project) -> (r: (&'static str, Vec<&'a str>))
    ensures
        r.0@ == UPSERT@,
        texts(r.1@) == project.spec_params(),
{
    let params = project.params();
    assert(texts(params@) =~= project.spec_params());
    (UPSERT, params)
}

/// What is handed to the engine to delete the row with `id`: `DELETE`, with
/// `id` as it stands as the one bound parameter. The id never becomes part
/// of the statement's text.
pub fn delete_request<'a>(id: &'a str) -> (r: (&'static str, Vec<&'a str>))
    ensures
        r.0@ == DELETE@,
        texts(r.1@) == seq![id@],
{
    let mut params: Vec<&'a str> = Vec::new();
    params.push(id);
    assert(texts(params@) =~= seq![id@]);
    (DELETE, params)
}

/// What is handed to the engine to look up the row with `id`: `SELECT_ONE`,
/// with `id` as it stands as the one bound parameter.
pub fn lookup_request<'a>(id: &'a str) -> (r: (&'static str, Vec<&'a str>))
    ensures
        r.0@ == SELECT_ONE@,
        texts(r.1@) == seq![id@],
{
    let mut params: Vec<&'a str> = Vec::new();
    params.push(id);
    assert(texts(params@) =~= seq![id@]);
    (SELECT_ONE, params)
}

/// What is handed to the engine to list the rows: `SELECT_ALL`, with nothing
/// bound.
pub fn listing_request() -> (r: (&'static str, Vec<&'static str>))
    ensures
        r.0@ == SELECT_ALL@,
        texts(r.1@) == Seq::<Seq<char>>::empty(),
{
    let none: Vec<&'static str> = Vec::new();
    assert(texts(none@) =~= Seq::<Seq<char>>::empty());
    (SELECT_ALL, none)
}

/// A handle on the project table of one database file.
pub struct Database {
    conn: Connection,
}

impl Database {
    /// The connection that this store holds.
    pub closed spec fn connection(&self) -> Connection {
        self.conn
    }

    /// The path that this store was opened with.
    pub open spec fn location(&self) -> PathBuf {
        opened_path(self.connection())
    }

    /// `p` is the decoding of a row that the engine yielded on this store's
    /// connection for the statement `sql` with `params` bound.
    pub open spec fn yields(&self, sql: Seq<char>, params: Seq<Seq<char>>, p: ProjectView) -> bool {
        exists|row: Row<'_>|
            #[trigger] yielded_by(row) == (self.connection(), sql, params) && spec_read_project(
                row,
            ) == Ok::<ProjectView, Error>(p)
    }

    /// Opens the database at `path`, creating the file and the table where
    /// they are missing: `obtained` turns the outcome of the opening into a
    /// connection or the failure's text, the engine is then handed
    /// `schema_request`, and `written` turns its outcome into the result.
    /// Whether either step succeeds is for the engine to say; a failure
    /// comes back as the text of the engine's error, and a store that comes
    /// back is one opened with `path`.
    pub fn new(path: PathBuf) -> (r: Result<Database, String>)
        ensures
            r matches Ok(db) ==> db.location() == path,
            r matches Err(m) ==> engine_message(m@),
    {
        let conn = match obtained(open(&path)) {
            Ok(conn) => conn,
            Err(m) => return Err(m),
        };
        let request = schema_request();
        match written(execute(&conn, request.0, &request.1)) {
            Ok(()) => Ok(Database { conn }),
            Err(m) => Err(m),
        }
    }

    /// Inserts `project`, or replaces the whole row that has its id: the
    /// engine is handed `upsert_request(project)`, and `written` turns its
    /// outcome into the result. The engine's count of changed rows is not
    /// looked at.
    pub fn add_project(&self, project: &Project) -> (r: Result<(), String>)
        ensures
            r matches Err(m) ==> engine_message(m@),
    {
        let request = upsert_request(project);
        written(execute(&self.conn, request.0, &request.1))
    }

    /// Deletes the row with this id: the engine is handed
    /// `delete_request(id)`, and `written` turns its outcome into the
    /// result. A statement that ran and changed no row is success like any
    /// other.
    pub fn remove_project(&self, id: &str) -> (r: Result<(), String>)
        ensures
            r matches Err(m) ==> engine_message(m@),
    {
        let request = delete_request(id);
        written(execute(&self.conn, request.0, &request.1))
    }

    /// Looks up the row with this id: the engine is handed
    /// `lookup_request(id)`, and `decode_step` turns the first step of the
    /// cursor into the result, so that no row is `Ok(None)`. A project that
    /// is returned is the decoding of a row that the engine yielded on this
    /// store for the lookup statement with `id` bound, and an error is the
    /// text of an engine error.
    pub fn get_project(&self, id: &str) -> (r: Result<Option<Project>, String>)
        ensures
            r matches Ok(Some(p)) ==> self.yields(SELECT_ONE@, seq![id@], p@),
            r matches Err(m) ==> engine_message(m@),
    {
        let request = lookup_request(id);
        let mut stmt = match obtained(prepare(&self.conn, request.0)) {
            Ok(stmt) => stmt,
            Err(m) => return Err(m),
        };
        let mut rows = match obtained(query(&mut stmt, &request.1)) {
            Ok(rows) => rows,
            Err(m) => return Err(m),
        };
        decode_step(next_row(&mut rows))
    }

    /// Lists the rows in the order in which the engine yields them, which
    /// the statement asks to be by `last_opened`, newest first: the engine
    /// is handed `listing_request`, and every step of the cursor goes
    /// through `listing_step`, which appends a decoded row behind those
    /// before it and ends the listing at the end of the rows or at the first
    /// failure. Every project returned is the decoding of a row that the
    /// engine yielded on this store for the listing statement.
    pub fn get_all_projects(&self) -> (r: Result<Vec<Project>, String>)
        ensures
            r matches Ok(v) ==> forall|i: int|
                0 <= i < v@.len() ==> self.yields(SELECT_ALL@, Seq::empty(), #[trigger] v@[i]@),
            r matches Err(m) ==> engine_message(m@),
    {
        let request = listing_request();
        let mut stmt = match obtained(prepare(&self.conn, request.0)) {
            Ok(stmt) => stmt,
            Err(m) => return Err(m),
        };
        let mut rows = match obtained(query(&mut stmt, &request.1)) {
            Ok(rows) => rows,
            Err(m) => return Err(m),
        };
        let mut projects: Vec<Project> = Vec::new();
        // No vector holds `usize::MAX` projects; the bound is the loop's measure.
        while projects.len() < usize::MAX
            invariant
                queried_with(rows) == (self.connection(), SELECT_ALL@, Seq::<Seq<char>>::empty()),
                forall|i: int|
                    0 <= i < projects@.len() ==> self.yields(
                        SELECT_ALL@,
                        Seq::empty(),
                        #[trigger] projects@[i]@,
                    ),
            decreases usize::MAX - projects.len(),
        {
            match listing_step(&mut projects, next_row(&mut rows)) {
                Ok(true) => {},
                Ok(false) => return Ok(projects),
                Err(m) => return Err(m),
            }
        }
        Ok(projects)
    }
}

} // verus!
