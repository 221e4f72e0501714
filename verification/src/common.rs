//! Identifier and time values shared by the models.

use vstd::prelude::*;

verus! {

/// Declares `uuid::Uuid` (the type behind `sqlx::types::Uuid`) so that models can carry it.
#[verifier::external_type_specification]
#[verifier::external_body]
pub struct ExUuid(uuid::Uuid);

/// `uuid::Uuid` is `Copy`; its `Clone` impl (derived in the uuid crate) returns the same value.
pub assume_specification [<uuid::Uuid as Clone>::clone](u: &uuid::Uuid) -> (r: uuid::Uuid)
    ensures
        r == *u,
;

/// A UTC instant, as whole seconds since the Unix epoch plus the sub-second nanoseconds.
/// It holds exactly what a `chrono::DateTime<chrono::Utc>` holds.
#[derive(Debug, Clone, Copy, PartialEq, Eq, Structural)]
pub struct UtcDateTime {
    pub secs: i64,
    pub nanos: u32,
}

/// A prefix followed by a text.
pub fn prefixed(prefix: &str, text: &String) -> (r: String)
    ensures
        r@ == prefix@ + text@,
{
    let mut s = String::from_str(prefix);
    s.append(text.as_str());
    s
}

impl UtcDateTime {
    /// Seconds since the Unix epoch (what `DateTime::timestamp` returns).
    pub fn timestamp(&self) -> (r: i64)
        ensures
            r == self.secs,
    {
        self.secs
    }
}

} // verus!
