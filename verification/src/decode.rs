//! From engine outcomes to the caller's results.
//!
//! Each function here takes what an engine call handed back and says, for
//! every value of it, what the store returns. Nothing in this module touches
//! the database except to read the columns of a row already fetched.

use crate::engine::{column_text, error_text, get_text, message, store_row, text_view};
use crate::project::{Project, ProjectView};
use rusqlite::{Error, Row};
use vstd::prelude::*;

verus! {

/// The project that four column reads amount to: id, name, path and
/// last_opened in that order, or the error of the first read that failed.
pub open spec fn spec_from_columns(
    id: Result<Seq<char>, Error>,
    name: Result<Seq<char>, Error>,
    path: Result<Seq<char>, Error>,
    last_opened: Result<Seq<char>, Error>,
) -> Result<ProjectView, Error> {
    match (id, name, path, last_opened) {
        (Ok(id), Ok(name), Ok(path), Ok(last_opened)) => Ok(
            ProjectView { id, name, path, last_opened },
        ),
        (Err(e), _, _, _) => Err(e),
        (_, Err(e), _, _) => Err(e),
        (_, _, Err(e), _) => Err(e),
        (_, _, _, Err(e)) => Err(e),
    }
}

/// Decoding of a row: columns 0 to 3, read as text.
pub open spec fn spec_read_project(row: Row<'_>) -> Result<ProjectView, Error> {
    spec_from_columns(
        column_text(row, 0),
        column_text(row, 1),
        column_text(row, 2),
        column_text(row, 3),
    )
}

/// What one step of a cursor contributes: the decoded row, `None` at the end
/// of the rows, or the text of the error that the step or the decoding met.
pub open spec fn spec_decode_step(outcome: Result<Option<&Row<'_>>, Error>) -> Result<
    Option<ProjectView>,
    Seq<char>,
> {
    match outcome {
        Err(e) => Err(error_text(e)),
        Ok(None) => Ok(None),
        Ok(Some(row)) => match spec_read_project(*row) {
            Ok(p) => Ok(Some(p)),
            Err(e) => Err(error_text(e)),
        },
    }
}

/// `m` is the text of some engine error.
///
/// This says where a message was taken from, not what it says: an engine
/// failure may carry any message of the engine's choosing, so every string
/// is the text of some error. Nothing here ties an error to the call that
/// raised it, since an error value does not hold its call.
pub open spec fn engine_message(m: Seq<char>) -> bool {
    exists|e: Error| #[trigger] error_text(e) == m
}

/// Turns the outcome of a call that makes a handle (a connection, a
/// statement, a cursor) into the handle, or into the text of the failure
/// that the engine reported for that very call.
pub fn obtained<T>(outcome: Result<T, Error>) -> (r: Result<T, String>)
    ensures
        match outcome {
            Ok(handle) => r == Ok::<T, String>(handle),
            Err(e) => r matches Err(s) && s@ == error_text(e),
        },
        r matches Err(s) ==> engine_message(s@),
{
    match outcome {
        Ok(handle) => Ok(handle),
        Err(e) => Err(message(&e)),
    }
}

/// Reads the four text columns of a row of the store into a project, column
/// by column, and stops at the first that cannot be read.
pub fn read_project(row: &Row<'_>) -> (r: Result<Project, Error>)
    requires
        store_row(*row),
    ensures
        match spec_read_project(*row) {
            Ok(v) => r matches Ok(p) && p@ == v,
            Err(e) => r matches Err(x) && x == e,
        },
{
    let id = match get_text(row, 0) {
        Ok(s) => s,
        Err(e) => return Err(e),
    };
    let name = match get_text(row, 1) {
        Ok(s) => s,
        Err(e) => return Err(e),
    };
    let path = match get_text(row, 2) {
        Ok(s) => s,
        Err(e) => return Err(e),
    };
    let last_opened = match get_text(row, 3) {
        Ok(s) => s,
        Err(e) => return Err(e),
    };
    Ok(Project { id, name, path, last_opened })
}

/// Turns the outcome of one step of a cursor of the store into the store's
/// answer for it.
pub fn decode_step(outcome: Result<Option<&Row<'_>>, Error>) -> (r: Result<
    Option<Project>,
    String,
>)
    requires
        outcome matches Ok(Some(row)) ==> store_row(*row),
    ensures
        match spec_decode_step(outcome) {
            Ok(None) => r == Ok::<Option<Project>, String>(None),
            Ok(Some(p)) => r matches Ok(Some(q)) && q@ == p,
            Err(m) => r matches Err(s) && s@ == m,
        },
        r matches Err(s) ==> engine_message(s@),
{
    match outcome {
        Err(e) => Err(message(&e)),
        Ok(None) => Ok(None),
        Ok(Some(row)) => match read_project(row) {
            Ok(p) => Ok(Some(p)),
            Err(e) => Err(message(&e)),
        },
    }
}

/// Adds the outcome of one step of a cursor of the store to a listing under
/// construction and
/// says whether the listing goes on. A row is decoded and appended behind
/// what is there, which stays as it is; the end of the rows and a failure
/// both leave the listing untouched.
pub fn listing_step(projects: &mut Vec<Project>, outcome: Result<Option<&Row<'_>>, Error>) -> (r:
    Result<bool, String>)
    requires
        outcome matches Ok(Some(row)) ==> store_row(*row),
    ensures
        match spec_decode_step(outcome) {
            Ok(Some(p)) => r == Ok::<bool, String>(true)
                && final(projects)@.len() == old(projects)@.len() + 1
                && (forall|i: int|
                    0 <= i < old(projects)@.len() ==> final(projects)@[i] == old(projects)@[i])
                && final(projects)@[old(projects)@.len() as int]@ == p,
            Ok(None) => r == Ok::<bool, String>(false) && *final(projects) == *old(projects),
            Err(m) => r matches Err(s) && s@ == m && *final(projects) == *old(projects),
        },
        r matches Err(s) ==> engine_message(s@),
{
    match decode_step(outcome) {
        Ok(Some(p)) => {
            projects.push(p);
            Ok(true)
        },
        Ok(None) => Ok(false),
        Err(m) => Err(m),
    }
}

/// Turns the outcome of a write into the store's answer: any count of
/// changed rows, zero included, is success.
pub fn written(outcome: Result<usize, Error>) -> (r: Result<(), String>)
    ensures
        match outcome {
            Ok(_) => r == Ok::<(), String>(()),
            Err(e) => r matches Err(s) && s@ == error_text(e),
        },
        r matches Err(s) ==> engine_message(s@),
{
    match outcome {
        Ok(_) => Ok(()),
        Err(e) => Err(message(&e)),
    }
}

/// A row whose four columns hold the values bound for `p` decodes to `p`,
/// and a cursor step that yields such a row answers with `p`: the write
/// statement's parameter order and the read statements' column order agree,
/// and no field is lost or changed on the way.
pub proof fn lemma_read_inverts_params(p: Project, row: Row<'_>)
    requires
        forall|i: usize|
            0 <= i < 4 ==> #[trigger] column_text(row, i) == Ok::<Seq<char>, Error>(
                p.spec_params()[i as int],
            ),
    ensures
        spec_read_project(row) == Ok::<ProjectView, Error>(p@),
        spec_decode_step(Ok(Some(&row))) == Ok::<Option<ProjectView>, Seq<char>>(Some(p@)),
{
    assert(column_text(row, 0) == Ok::<Seq<char>, Error>(p.id@));
    assert(column_text(row, 1) == Ok::<Seq<char>, Error>(p.name@));
    assert(column_text(row, 2) == Ok::<Seq<char>, Error>(p.path@));
    assert(column_text(row, 3) == Ok::<Seq<char>, Error>(p.last_opened@));
}

} // verus!
