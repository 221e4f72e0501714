//! Login sessions and the device they were opened from.

use vstd::prelude::*;

use crate::common::UtcDateTime;

verus! {

/// Device information structure
#[derive(Debug, Clone)]
pub struct DeviceInfo {
    pub ip_address: String,
    pub user_agent: String,
}

impl DeviceInfo {
    /// The two texts that identify a device.
    pub open spec fn texts(self) -> (Seq<char>, Seq<char>) {
        (self.ip_address@, self.user_agent@)
    }
}

impl Default for DeviceInfo {
    fn default() -> (r: Self)
        ensures
            r.ip_address@ == Seq::<char>::empty(),
            r.user_agent@ == Seq::<char>::empty(),
    {
        DeviceInfo { ip_address: String::new(), user_agent: String::new() }
    }
}

impl PartialEq for DeviceInfo {
    fn eq(&self, other: &Self) -> (r: bool) {
        self.ip_address == other.ip_address && self.user_agent == other.user_agent
    }
}

impl vstd::std_specs::cmp::PartialEqSpecImpl for DeviceInfo {
    open spec fn obeys_eq_spec() -> bool {
        true
    }

    open spec fn eq_spec(&self, other: &Self) -> bool {
        self.texts() == other.texts()
    }
}

/// Enum for session status
#[derive(Debug, Clone, Copy, PartialEq, Eq, Structural)]
pub enum SessionStatus {
    Active,
    TerminatedByUser,
    TerminatedByAdmin,
    Compromised,
    Expired,
}

/// How long a terminated session is kept, in days.
pub const TERMINATED_SESSION_EXPIRATION_DAYS: i64 = 7;

/// sessions table
#[derive(Debug, Clone)]
pub struct Session {
    pub id: uuid::Uuid,
    pub user_id: uuid::Uuid,
    pub refresh_token: String,
    pub device_info: DeviceInfo,
    pub status: SessionStatus,
    pub updated_at: UtcDateTime,
    pub created_at: UtcDateTime,
    pub expires_at: UtcDateTime,
}

/// The columns of a session that its owner is shown.
#[derive(Debug, Clone)]
pub struct MinFieldsSession {
    pub id: uuid::Uuid,
    pub device_info: DeviceInfo,
    pub status: SessionStatus,
    pub expires_at: UtcDateTime,
    pub updated_at: UtcDateTime,
    pub created_at: UtcDateTime,
}

} // verus!
