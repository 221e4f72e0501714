//! One-time recovery codes.

use vstd::prelude::*;

use crate::common::UtcDateTime;

verus! {

/// A row of user_recovery_codes.
#[derive(Debug)]
pub struct RecoveryCodes {
    pub id: uuid::Uuid,
    pub user_id: uuid::Uuid,
    pub recovery_code: String,
    pub created_at: UtcDateTime,
}

} // verus!
