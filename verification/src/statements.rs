//! The five statements of the store, as they are handed to the engine.
//!
//! Every statement names the table and its columns in plain ASCII, and every
//! value travels as a bound parameter: none becomes part of a statement's
//! text.

use vstd::prelude::*;

verus! {

/// Creates the table unless it is already there.
pub const CREATE_TABLE: &'static str =
    "CREATE TABLE IF NOT EXISTS projects (id TEXT PRIMARY KEY, name TEXT NOT NULL, path TEXT NOT NULL, last_opened TEXT NOT NULL)";

/// Inserts a row, or replaces the row with the same id.
pub const UPSERT: &'static str =
    "INSERT OR REPLACE INTO projects (id, name, path, last_opened) VALUES (?1, ?2, ?3, ?4)";

/// Deletes the row with the given id, if any.
pub const DELETE: &'static str = "DELETE FROM projects WHERE id = ?1";

/// Selects the row with the given id.
pub const SELECT_ONE: &'static str =
    "SELECT id, name, path, last_opened FROM projects WHERE id = ?1";

/// Selects every row, most recently opened first.
pub const SELECT_ALL: &'static str =
    "SELECT id, name, path, last_opened FROM projects ORDER BY last_opened DESC";

} // verus!
