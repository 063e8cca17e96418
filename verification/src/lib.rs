//! A durable list of recent projects, kept in a single SQLite table.
//!
//! [`Database`] owns one connection and offers insert-or-replace, delete,
//! lookup by id and a listing by recency. The SQL engine does the storing and
//! the ordering; this crate fixes the statements and parameters handed to
//! it and proves how every engine outcome is turned into the caller's result.

pub mod database;
pub mod decode;
pub mod engine;
pub mod project;
pub mod statements;

pub use database::Database;
pub use project::Project;
pub use project::ProjectView;
