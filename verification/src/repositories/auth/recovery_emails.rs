//! Outcomes of deleting recovery emails.

use vstd::prelude::*;

use crate::errors::db_error::DbError;

verus! {

/// Deleting one recovery email by its id: no deleted row means it was not found (the
/// service reports it with the same message as for recovery codes).
pub fn delete_with_id_outcome(rows_affected: u64) -> (r: Result<(), DbError>)
    ensures
        rows_affected != 0 ==> r is Ok,
        rows_affected == 0 ==> (r matches Err(DbError::NotFound(m)) && m@ == "No recovery codes found"@),
{
    if rows_affected == 0 {
        return Err(DbError::NotFound(String::from_str("No recovery codes found")));
    }
    Ok(())
}

} // verus!
