//! Errors of sending email.

use vstd::prelude::*;

verus! {

/// Declares `lettre::error::Error` (errors of building a message).
#[verifier::external_type_specification]
#[verifier::external_body]
pub struct ExLettreError(lettre::error::Error);

/// Declares `lettre::transport::smtp::Error` (errors of the SMTP transport).
#[verifier::external_type_specification]
#[verifier::external_body]
pub struct ExSmtpError(lettre::transport::smtp::Error);

/// An error of sending a message.
#[derive(Debug)]
pub enum MessageSenderError {
    IncorrectCred(String),
    SmtpError(String),
    Other(String),
}

impl MessageSenderError {
    /// A message that could not be built: `Other` with the error's text.
    pub fn from_lettre_error(err: &lettre::error::Error) -> (r: MessageSenderError)
        ensures
            r matches MessageSenderError::Other(m)
                && vstd::string::to_string_from_display_ensures::<lettre::error::Error>(err, m),
    {
        MessageSenderError::Other(err.to_string())
    }

    /// A failure of the SMTP transport: `SmtpError` with the error's text.
    pub fn from_smtp_error(err: &lettre::transport::smtp::Error) -> (r: MessageSenderError)
        ensures
            r matches MessageSenderError::SmtpError(m)
                && vstd::string::to_string_from_display_ensures::<lettre::transport::smtp::Error>(err, m),
    {
        MessageSenderError::SmtpError(err.to_string())
    }
}

} // verus!
