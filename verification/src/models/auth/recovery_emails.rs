//! Additional addresses through which an account can be recovered.

use vstd::prelude::*;

use crate::common::UtcDateTime;

verus! {

/// A row of user_recovery_emails.
#[derive(Debug)]
pub struct RecoveryEmails {
    pub id: uuid::Uuid,
    pub user_id: uuid::Uuid,
    pub recovery_email: String,
    pub verified_at: Option<UtcDateTime>,
    pub created_at: UtcDateTime,
}

} // verus!
