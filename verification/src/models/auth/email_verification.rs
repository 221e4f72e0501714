//! Pending verifications of an email address.

use vstd::prelude::*;

use crate::common::UtcDateTime;

verus! {

/// email_verification:{email}
#[derive(Debug)]
pub struct EmailVerification {
    pub user_id: String,
    pub verification_code: String,
    pub attempts: u8,
    pub created_at: UtcDateTime,
}

/// Lifetime of an email verification, in minutes.
pub const EMAIL_VERIFICATION_LIFETIME: u64 = 10;

/// Key prefix of email verifications in the store.
pub const EMAIL_VERIFICATION_PREFIX: &'static str = "email_verification";

} // verus!
