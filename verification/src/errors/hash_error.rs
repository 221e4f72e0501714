//! Errors of password hashing.

use vstd::prelude::*;

verus! {

/// Declares `argon2::password_hash::Error` so that its values can be mapped.
#[verifier::external_type_specification]
#[verifier::external_body]
pub struct ExPasswordHashError(argon2::password_hash::Error);

/// An error of hashing or checking a password.
#[derive(Debug, Clone)]
pub enum HashError {
    InvalidHash(String),
    HashingFailed(String),
    Other(String),
}

/// Whether an `argon2::password_hash::Error` is the variant `Password`.
pub uninterp spec fn is_password_variant(err: argon2::password_hash::Error) -> bool;

/// Tells whether an `argon2::password_hash::Error` is the variant `Password` (the password
/// did not match); it matches on the variants and does nothing else.
#[verifier::external_body]
fn is_password_mismatch(err: &argon2::password_hash::Error) -> (r: bool)
    ensures
        r == is_password_variant(*err),
{
    matches!(err, argon2::password_hash::Error::Password)
}

impl HashError {
    /// The hash error for a failed argon2 operation, given whether the password did not
    /// match and the error's text.
    pub fn from_argon2_parts(mismatch: bool, text: String) -> (r: HashError)
        ensures
            mismatch ==> (r matches HashError::InvalidHash(m) && m@ == "Invalid password"@),
            !mismatch ==> r == HashError::Other(text),
    {
        if mismatch {
            HashError::InvalidHash(String::from_str("Invalid password"))
        } else {
            HashError::Other(text)
        }
    }

    /// The hash error for an error of `argon2::password_hash`: `Password` becomes
    /// `InvalidHash("Invalid password")`, every other error `Other` with the error's text.
    pub fn from_argon2_error(err: &argon2::password_hash::Error) -> (r: HashError)
        ensures
            is_password_variant(*err) ==> (r matches HashError::InvalidHash(m) && m@ == "Invalid password"@),
            !is_password_variant(*err) ==> (r matches HashError::Other(m)
                && vstd::string::to_string_from_display_ensures::<argon2::password_hash::Error>(err, m)),
    {
        let mismatch = is_password_mismatch(err);
        let text = err.to_string();
        Self::from_argon2_parts(mismatch, text)
    }
}

} // verus!
