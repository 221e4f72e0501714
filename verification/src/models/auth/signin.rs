//! The state of a sign-in flow.

use vstd::prelude::*;

use crate::common::UtcDateTime;
use crate::models::auth::utils::AuthFlowMetadata;

verus! {

/// signin:{token}
#[derive(Debug)]
pub struct SignInSession {
    pub metadata: AuthFlowMetadata,
    pub identifier: SignInFlowIdentifier,
    pub flow: SignInFlow,
    pub data: SignInFlowData,
}

impl Default for SignInSession {
    fn default() -> (r: Self)
        ensures
            r.metadata.scopes@.len() == 0,
            r.metadata.final_redirect_url is None,
            r.metadata.sudo_scope is None,
            r.identifier.user_id@.len() == 0,
            !r.identifier.mfa_enabled,
            !r.identifier.requested_sudo,
            r.flow.stage == SignInState::InitWithEmailStage,
            r.flow.incorrect_attempts == 0,
            r.flow.current_method is None,
            r.flow.satisfied_methods@.len() == 0,
            r.flow.available_methods@.len() == 0,
            r.flow.blocked_methods@.len() == 0,
            r.data.code is None,
            r.data.email is None,
            r.data.attempts == 0,
            r.data.last_resent_code_at is None,
    {
        SignInSession {
            metadata: AuthFlowMetadata::default(),
            identifier: SignInFlowIdentifier::default(),
            flow: SignInFlow::default(),
            data: SignInFlowData::default(),
        }
    }
}

/// Key prefix of sign-in sessions in the store.
pub const SIGNIN_SESSION_PREFIX: &'static str = "signin";

/// Lifetime of a sign-in session, in minutes; renewed on every request.
pub const SIGNIN_SESSION_LIFETIME: i64 = 20;

/// A way of proving one's identity during sign-in.
#[derive(Debug, Clone, Copy, PartialEq, Eq, Structural, PartialOrd, Ord)]
pub enum AuthenticationMethod {
    Password,
    EmailVerification,
    RecoveryEmailCode,
    RecoveryCode,
}

/// The stage a sign-in flow is in.
#[derive(Debug, Clone, Copy, PartialEq, Eq, Structural)]
pub enum SignInState {
    InitWithEmailStage,
    SelectAuthenticationMethodsStage,
    /// 1. Password (default)
    WithPasswordStage,
    /// 2. Recovery email code: chose if many recovery emails or skip if only one
    ChoseRecoveryEmailStage,
    VerifyRecoveryEmailCodeStage,
    /// 3. Recovery code
    WithRecoveryCodeStage,
    /// 4. Email verification, the default second step for MFA
    VerifyEmailStage,
    Redirect,
}

impl Default for SignInState {
    fn default() -> (r: Self)
        ensures
            r == SignInState::InitWithEmailStage,
    {
        SignInState::InitWithEmailStage
    }
}

/// Who is signing in.
#[derive(Debug, Clone)]
pub struct SignInFlowIdentifier {
    pub user_id: String,
    pub mfa_enabled: bool,
    pub requested_sudo: bool,
}

impl Default for SignInFlowIdentifier {
    fn default() -> (r: Self)
        ensures
            r.user_id@.len() == 0,
            !r.mfa_enabled,
            !r.requested_sudo,
    {
        SignInFlowIdentifier { user_id: String::new(), mfa_enabled: false, requested_sudo: false }
    }
}

/// Which methods are done, open or blocked, and the current stage.
#[derive(Debug, Clone)]
pub struct SignInFlow {
    pub satisfied_methods: Vec<AuthenticationMethod>,
    pub available_methods: Vec<AuthenticationMethod>,
    pub blocked_methods: Vec<AuthenticationMethod>,
    pub incorrect_attempts: u8,
    pub current_method: Option<AuthenticationMethod>,
    pub stage: SignInState,
}

impl Default for SignInFlow {
    fn default() -> (r: Self)
        ensures
            r.satisfied_methods@.len() == 0,
            r.available_methods@.len() == 0,
            r.blocked_methods@.len() == 0,
            r.incorrect_attempts == 0,
            r.current_method is None,
            r.stage == SignInState::InitWithEmailStage,
    {
        SignInFlow {
            satisfied_methods: Vec::new(),
            available_methods: Vec::new(),
            blocked_methods: Vec::new(),
            incorrect_attempts: 0,
            current_method: None,
            stage: SignInState::default(),
        }
    }
}

/// Verification data of a sign-in flow.
#[derive(Debug, Clone)]
pub struct SignInFlowData {
    /// for email verification or recovery email code
    pub code: Option<String>,
    /// for recovery email code
    pub email: Option<String>,
    pub attempts: u8,
    pub last_resent_code_at: Option<UtcDateTime>,
}

impl Default for SignInFlowData {
    fn default() -> (r: Self)
        ensures
            r.code is None,
            r.email is None,
            r.attempts == 0,
            r.last_resent_code_at is None,
    {
        SignInFlowData { code: None, email: None, attempts: 0, last_resent_code_at: None }
    }
}

} // verus!
