//! Parameters for creating tokens.

use vstd::prelude::*;

verus! {

/// What a token is created for.
#[derive(Debug, Clone)]
pub struct TokenCreatorParams {
    pub user_id: uuid::Uuid,
    pub days_to_inactive: i32,
}

} // verus!
