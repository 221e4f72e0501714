//! Outcomes of deleting recovery codes.

use vstd::prelude::*;

use crate::errors::db_error::DbError;

verus! {

/// Deleting one recovery code by its id: no deleted row means it was not found.
pub fn delete_by_id_outcome(rows_affected: u64) -> (r: Result<(), DbError>)
    ensures
        rows_affected != 0 ==> r is Ok,
        rows_affected == 0 ==> (r matches Err(DbError::NotFound(m)) && m@ == "No recovery codes found"@),
{
    if rows_affected == 0 {
        return Err(DbError::NotFound(String::from_str("No recovery codes found")));
    }
    Ok(())
}

/// Deleting all recovery codes of a user: no deleted row means the user had none.
pub fn delete_all_by_user_outcome(rows_affected: u64) -> (r: Result<(), DbError>)
    ensures
        rows_affected != 0 ==> r is Ok,
        rows_affected == 0 ==> (r matches Err(DbError::NotFound(m))
            && m@ == "No recovery codes found for the user"@),
{
    if rows_affected == 0 {
        return Err(DbError::NotFound(String::from_str("No recovery codes found for the user")));
    }
    Ok(())
}

} // verus!
