use vstd::prelude::*;
use crate::todo::Todo;
use crate::table::RepoError;

verus! {

#[verifier::external_type_specification]
#[verifier::external_body]
pub struct ExSqlxError(sqlx::Error);

/// Whether a query failure is sqlx's report that no row came back.
pub uninterp spec fn row_missing(e: sqlx::Error) -> bool;

/// Relies on sqlx::Error::RowNotFound: the variant a query that expected a
/// row reports when the database returned none.
#[verifier::external_body]
fn is_row_not_found(e: &sqlx::Error) -> (r: bool)
    ensures
        r == row_missing(*e),
{
    matches!(e, sqlx::Error::RowNotFound)
}

/// Relies on the Display impl of sqlx::Error for a description of the failure.
#[verifier::external_body]
fn sqlx_error_text(e: &sqlx::Error) -> (r: String) {
    e.to_string()
}

/// The repository error for a failed query on the row with the given id:
/// a query that found no row means the id is missing; anything else is a
/// database failure carrying its description.
pub fn failure_for_id(no_row: bool, text: String, id: i32) -> (r: RepoError)
    ensures
        no_row ==> r == RepoError::NotFound(id),
        !no_row ==> (r matches RepoError::Database(t) && t@ == text@),
{
    if no_row {
        RepoError::NotFound(id)
    } else {
        RepoError::Database(text)
    }
}

/// The outcome of the database query that toggles the row with the given id.
pub fn toggle_outcome(fetched: Result<Todo, sqlx::Error>, id: i32) -> (r: Result<Todo, RepoError>)
    ensures
        fetched matches Ok(t) ==> (r matches Ok(u) && u@ == t@),
        fetched matches Err(e) ==> (row_missing(e) <==> (r matches Err(RepoError::NotFound(n))
            && n == id)),
        fetched matches Err(e) ==> (!row_missing(e) <==> (r matches Err(RepoError::Database(_)))),
{
    match fetched {
        Ok(t) => Ok(t),
        Err(e) => {
            let no_row = is_row_not_found(&e);
            Err(failure_for_id(no_row, sqlx_error_text(&e), id))
        },
    }
}

/// The outcome of a database query that lists or inserts rows: any failure
/// is a database failure carrying its description.
pub fn rows_outcome(fetched: Result<Vec<Todo>, sqlx::Error>) -> (r: Result<Vec<Todo>, RepoError>)
    ensures
        fetched matches Ok(v) ==> (r matches Ok(u) && u@ == v@),
        fetched is Err ==> (r matches Err(RepoError::Database(_))),
{
    match fetched {
        Ok(v) => Ok(v),
        Err(e) => Err(RepoError::Database(sqlx_error_text(&e))),
    }
}

} // verus!
