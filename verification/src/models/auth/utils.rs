//! Scopes and the metadata that every authentication flow carries.

use vstd::prelude::*;

use crate::models::auth::sessions::DeviceInfo;
use crate::models::auth::sudo_tokens::SudoTokenScope;

verus! {

/// What a flow was started for: requested scopes, where to go at the end, and from where.
#[derive(Debug, Clone)]
pub struct AuthFlowMetadata {
    pub scopes: Vec<Scope>,
    pub final_redirect_url: Option<String>,
    pub device_info: DeviceInfo,
    pub sudo_scope: Option<SudoTokenScope>,
}

impl Default for AuthFlowMetadata {
    fn default() -> (r: Self)
        ensures
            r.scopes@.len() == 0,
            r.final_redirect_url is None,
            r.device_info.texts() == (Seq::<char>::empty(), Seq::<char>::empty()),
            r.sudo_scope is None,
    {
        AuthFlowMetadata {
            scopes: Vec::new(),
            final_redirect_url: None,
            device_info: DeviceInfo::default(),
            sudo_scope: None,
        }
    }
}

/// A permission that a client may ask for.
#[derive(Debug, Clone, Copy, PartialEq, Eq, Structural, PartialOrd, Ord)]
pub enum Scope {
    /// For access token
    OpenId,
    /// For basic profile information
    Profile,
    /// For email information
    Email,
    /// For refresh tokens
    OfflineAccess,
    /// For security-sensitive operations, requires recent authentication. Disallowed in signup flow.
    SudoMode,
}

/// The name under which a scope travels on the wire.
pub open spec fn scope_wire_name(s: Scope) -> Seq<char> {
    match s {
        Scope::OpenId => "openid"@,
        Scope::Profile => "profile"@,
        Scope::Email => "email"@,
        Scope::OfflineAccess => "offline_access"@,
        Scope::SudoMode => "sudo_mode"@,
    }
}

/// The scope a client may request by name: every scope but `SudoMode`, which cannot be
/// requested this way.
pub open spec fn requestable_scope(name: Seq<char>) -> Option<Scope> {
    if name == "openid"@ {
        Some(Scope::OpenId)
    } else if name == "profile"@ {
        Some(Scope::Profile)
    } else if name == "email"@ {
        Some(Scope::Email)
    } else if name == "offline_access"@ {
        Some(Scope::OfflineAccess)
    } else {
        None
    }
}

impl Scope {
    /// The requestable scope with the given name, if there is one.
    pub fn one_of(scope: &String) -> (r: Option<Scope>)
        ensures
            r == requestable_scope(scope@),
    {
        let openid = String::from_str("openid");
        let profile = String::from_str("profile");
        let email = String::from_str("email");
        let offline = String::from_str("offline_access");
        proof {
            reveal_strlit("openid");
            reveal_strlit("profile");
            reveal_strlit("email");
            reveal_strlit("offline_access");
        }
        if *scope == openid {
            Some(Scope::OpenId)
        } else if *scope == profile {
            Some(Scope::Profile)
        } else if *scope == email {
            Some(Scope::Email)
        } else if *scope == offline {
            Some(Scope::OfflineAccess)
        } else {
            None
        }
    }
}

/// Every scope but `SudoMode` is found again from its wire name; `SudoMode` is never.
pub proof fn lemma_one_of_inverts_wire_name(s: Scope)
    ensures
        s != Scope::SudoMode ==> requestable_scope(scope_wire_name(s)) == Some(s),
        requestable_scope(scope_wire_name(Scope::SudoMode)) is None,
{
    reveal_strlit("openid");
    reveal_strlit("profile");
    reveal_strlit("email");
    reveal_strlit("offline_access");
    reveal_strlit("sudo_mode");
    // the five names have five different lengths
    assert("openid"@.len() == 6);
    assert("profile"@.len() == 7);
    assert("email"@.len() == 5);
    assert("offline_access"@.len() == 14);
    assert("sudo_mode"@.len() == 9);
}

} // verus!
