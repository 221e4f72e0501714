//! Short-lived tokens that unlock security-sensitive operations.

use vstd::prelude::*;

verus! {

/// Claims of a sudo token.
#[derive(Debug)]
pub struct SudoTokenClaims {
    /// user_id
    pub sub: String,
    pub scope: SudoTokenScope,
    /// expiration time as unix timestamp
    pub exp: usize,
    /// issued at as unix timestamp
    pub iat: usize,
}

/// Lifetime of a sudo token, in minutes.
pub const SUDO_TOKEN_EXPIRY_MINUTES: i64 = 10;

/// The operation a sudo token unlocks.
#[derive(Debug, Copy, Clone, PartialEq, Eq, Structural)]
pub enum SudoTokenScope {
    ChangeEmail,
    ChangePassword,
    DeleteAccount,
    AddRecoveryEmail,
    RemoveRecoveryEmail,
    GenerateRecoveryCodes,
    RevokeSessions,
    All,
}

} // verus!
