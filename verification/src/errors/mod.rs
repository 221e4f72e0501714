//! The error types of the service and the mappings between them and from the errors of
//! the crates it uses.

pub mod app_error;
pub mod db_error;
pub mod hash_error;
pub mod message_sender_error;
