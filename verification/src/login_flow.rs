//! The order of a login: the attempt limiter, login protection, the account's
//! credential, the session lifetime, storing the new session, its audit event,
//! and logging out the session it replaces. Each step is decided here from the
//! answer to the previous one; the caller performs the action and hands back the
//! answer. A new session whose audit or rotation fails is deleted again.

use vstd::prelude::*;
use vstd::utf8::encode_utf8;

use crate::auth::{
    authenticate_credential, login_protection, login_protection_spec, login_subject,
    login_throttle, login_ttl_minutes, login_username, session_expiry, turnstile_outcome,
    AuthSession, LoginError, SessionSubject, TurnstileChallenge, TurnstileVerifyError,
    MAX_LOGIN_PASSWORD_BYTES, MICROS_PER_MINUTE,
};
use crate::crypto::{argon2_accepts, phc_hash_parses};
use crate::text::trim_seq;
use crate::users::{
    clamp_minutes, SessionTtlSettings, TurnstileSettings, UserCredentialRecord,
    MAX_SESSION_TTL_MINUTES,
};

verus! {

/// What a login was given, and the configured session lifetimes.
pub struct LoginInput {
    pub username: Option<String>,
    pub password: String,
    pub protection_token: Option<String>,
    pub previous_session_id: Option<String>,
    pub default_admin_user_id: String,
    pub configured_ttl: SessionTtlSettings,
}

/// Where a login stands: which answer it waits for.
#[derive(Debug, PartialEq, Eq)]
pub enum LoginStage {
    Start,
    Limiting,
    LoadingProtection,
    Verifying,
    LoadingCredential,
    LoadingLifetimes(SessionSubject),
    Storing(String, AuthSession),
    Auditing(String, AuthSession),
    Rotating(String, AuthSession),
    Discarding,
    Done,
}

/// The answer to the last action. `Err(())` is a store that could not answer.
pub enum LoginEvent {
    Begin,
    AttemptChecked(Result<Option<u64>, ()>),
    ProtectionLoaded(Result<TurnstileSettings, ()>),
    Verified(Result<bool, TurnstileVerifyError>),
    CredentialLoaded(Result<Option<UserCredentialRecord>, ()>),
    /// The stored lifetime overrides, the current instant and a fresh session
    /// token (`None` when none could be made).
    LifetimesLoaded { overrides: Result<Option<SessionTtlSettings>, ()>, now: i64, token: Option<String> },
    Stored(bool),
    Audited(bool),
    LoggedOut(bool),
    Discarded,
}

/// What the caller does next. It may carry the verification secret, so it has
/// no `Debug` form.
pub enum LoginAction {
    CheckAttempt,
    LoadProtection,
    Verify(TurnstileChallenge),
    LoadCredential(String),
    LoadLifetimes,
    StoreSession(String, AuthSession),
    /// Append the audit event `action` for account `user_id`.
    AppendAudit { action: &'static str, user_id: String },
    Logout(String),
    DeleteSession(String),
    Finish(Result<(String, AuthSession), LoginError>),
}

/// The login ends with `e`.
pub open spec fn ends_with(r: (LoginStage, LoginAction), e: LoginError) -> bool {
    r == (LoginStage::Done, LoginAction::Finish(Err(e)))
}

/// The account name the login loads, or `None` when a blank name is refused.
pub open spec fn login_name(input: LoginInput) -> Option<Seq<char>> {
    match input.username {
        Some(u) => if trim_seq(u@).len() > 0 {
            Some(trim_seq(u@))
        } else {
            None
        },
        None => Some(input.default_admin_user_id@),
    }
}

/// Once protection passes, the login loads the named account.
pub open spec fn loads_credential(r: (LoginStage, LoginAction), input: LoginInput) -> bool {
    match login_name(input) {
        Some(n) => r.0 == LoginStage::LoadingCredential && (r.1 matches LoginAction::LoadCredential(u)
            && u@ == n),
        None => ends_with(r, LoginError::InvalidCredentials),
    }
}

/// After the session is audited (or needs no audit): the previous session, when
/// one was named, is logged out; otherwise the login succeeds.
pub open spec fn rotation(input: LoginInput, id: String, session: AuthSession) -> (LoginStage, LoginAction) {
    match input.previous_session_id {
        Some(p) => if p@.len() > 0 {
            (LoginStage::Rotating(id, session), LoginAction::Logout(p))
        } else {
            (LoginStage::Done, LoginAction::Finish(Ok((id, session))))
        },
        None => (LoginStage::Done, LoginAction::Finish(Ok((id, session)))),
    }
}

/// After the session is stored: an account login is audited first.
pub open spec fn after_store(input: LoginInput, id: String, session: AuthSession) -> (LoginStage, LoginAction) {
    match session.subject {
        SessionSubject::Admin { admin_user_id, .. } => (
            LoginStage::Auditing(id, session),
            LoginAction::AppendAudit { action: "admin.login", user_id: admin_user_id },
        ),
        SessionSubject::User { user_id, .. } => (
            LoginStage::Auditing(id, session),
            LoginAction::AppendAudit { action: "user.login", user_id },
        ),
        SessionSubject::Key { .. } => rotation(input, id, session),
    }
}

/// The lifetime, in minutes, of a session for `subject`: the stored override
/// for its role, else the configured one, clamped; key sessions have none.
pub open spec fn lifetime_of(
    subject: SessionSubject,
    overrides: Option<SessionTtlSettings>,
    configured: SessionTtlSettings,
) -> Option<u64> {
    match (subject, overrides) {
        (SessionSubject::Admin { .. }, Some(o)) => Some(clamp_minutes(o.admin_minutes)),
        (SessionSubject::User { .. }, Some(o)) => Some(clamp_minutes(o.user_minutes)),
        (SessionSubject::Admin { .. }, None) => Some(clamp_minutes(configured.admin_minutes)),
        (SessionSubject::User { .. }, None) => Some(clamp_minutes(configured.user_minutes)),
        (SessionSubject::Key { .. }, _) => None,
    }
}

/// The credential check of a login, with the subject it opens on success.
pub open spec fn credential_outcome(
    credential: Option<UserCredentialRecord>,
    password: Seq<char>,
) -> Result<(), LoginError> {
    match credential {
        None => Err(LoginError::InvalidCredentials),
        Some(c) => if !c.user.enabled || encode_utf8(password).len() > MAX_LOGIN_PASSWORD_BYTES {
            Err(LoginError::InvalidCredentials)
        } else if !phc_hash_parses(c.password_hash@) {
            Err(LoginError::Unavailable)
        } else if !argon2_accepts(encode_utf8(password), c.password_hash@) {
            Err(LoginError::InvalidCredentials)
        } else {
            Ok(())
        },
    }
}

fn copy_session(s: &AuthSession) -> (r: AuthSession)
    ensures
        r == *s,
{
    let subject = match &s.subject {
        SessionSubject::Admin { admin_user_id, credential_fingerprint } => SessionSubject::Admin {
            admin_user_id: admin_user_id.clone(),
            credential_fingerprint: credential_fingerprint.clone(),
        },
        SessionSubject::User { user_id, credential_fingerprint } => SessionSubject::User {
            user_id: user_id.clone(),
            credential_fingerprint: credential_fingerprint.clone(),
        },
        SessionSubject::Key { client_key_id } => SessionSubject::Key { client_key_id: client_key_id.clone() },
    };
    AuthSession { subject, expires_at: s.expires_at }
}

fn finish(e: LoginError) -> (r: (LoginStage, LoginAction))
    ensures
        ends_with(r, e),
{
    (LoginStage::Done, LoginAction::Finish(Err(e)))
}

fn load_credential(input: &LoginInput) -> (r: (LoginStage, LoginAction))
    ensures
        loads_credential(r, *input),
{
    let requested = match &input.username {
        Some(u) => Some(u.as_str()),
        None => None,
    };
    match login_username(requested, input.default_admin_user_id.as_str()) {
        Ok(name) => (LoginStage::LoadingCredential, LoginAction::LoadCredential(name)),
        Err(e) => finish(e),
    }
}

fn rotate(input: &LoginInput, id: String, session: AuthSession) -> (r: (LoginStage, LoginAction))
    ensures
        r == rotation(*input, id, session),
{
    match &input.previous_session_id {
        Some(p) => if p.as_str().is_empty() {
            (LoginStage::Done, LoginAction::Finish(Ok((id, session))))
        } else {
            (LoginStage::Rotating(id, session), LoginAction::Logout(p.clone()))
        },
        None => (LoginStage::Done, LoginAction::Finish(Ok((id, session)))),
    }
}

/// One step of a login: from where it stands and the answer to its last action,
/// where it stands next and what to do. An answer that does not belong to the
/// stage ends the login as unavailable.
pub fn login_step(input: &LoginInput, stage: LoginStage, event: LoginEvent) -> (r: (LoginStage, LoginAction))
    requires
        event matches LoginEvent::LifetimesLoaded { now, .. } ==> now <= i64::MAX - MAX_SESSION_TTL_MINUTES
            * MICROS_PER_MINUTE,
    ensures
        match (stage, event) {
            (LoginStage::Start, LoginEvent::Begin) => r == (LoginStage::Limiting, LoginAction::CheckAttempt),
            (LoginStage::Limiting, LoginEvent::AttemptChecked(Err(_))) => ends_with(r, LoginError::Unavailable),
            (LoginStage::Limiting, LoginEvent::AttemptChecked(Ok(Some(s)))) => ends_with(
                r,
                LoginError::TooManyAttempts { retry_after_seconds: if s < 1 { 1 } else { s } },
            ),
            (LoginStage::Limiting, LoginEvent::AttemptChecked(Ok(None))) => r == (
                LoginStage::LoadingProtection,
                LoginAction::LoadProtection,
            ),
            (LoginStage::LoadingProtection, LoginEvent::ProtectionLoaded(Err(_))) => ends_with(
                r,
                LoginError::Unavailable,
            ),
            (LoginStage::LoadingProtection, LoginEvent::ProtectionLoaded(Ok(settings))) => match login_protection_spec(
                settings,
                match input.protection_token {
                    Some(t) => Some(t@),
                    None => None,
                },
            ) {
                Err(e) => ends_with(r, e),
                Ok(None) => loads_credential(r, *input),
                Ok(Some((secret, token))) => r.0 == LoginStage::Verifying && (r.1 matches LoginAction::Verify(
                    c,
                ) && c.secret@ == secret && c.token@ == token),
            },
            (LoginStage::Verifying, LoginEvent::Verified(answer)) => match answer {
                Ok(true) => loads_credential(r, *input),
                Ok(false) => ends_with(r, LoginError::InvalidCredentials),
                Err(_) => ends_with(r, LoginError::Unavailable),
            },
            (LoginStage::LoadingCredential, LoginEvent::CredentialLoaded(Err(_))) => ends_with(
                r,
                LoginError::Unavailable,
            ),
            (LoginStage::LoadingCredential, LoginEvent::CredentialLoaded(Ok(credential))) => match credential_outcome(
                credential,
                input.password@,
            ) {
                Err(e) => ends_with(r, e),
                Ok(()) => r.1 == LoginAction::LoadLifetimes && (r.0 matches LoginStage::LoadingLifetimes(s)
                    && login_subject(credential->0, s)),
            },
            (LoginStage::LoadingLifetimes(subject), LoginEvent::LifetimesLoaded { overrides, now, token }) => match (
                overrides,
                token,
            ) {
                (Ok(o), Some(t)) => match lifetime_of(subject, o, input.configured_ttl) {
                    Some(m) => {
                        let session = AuthSession { subject, expires_at: (now + m * MICROS_PER_MINUTE) as i64 };
                        r == (LoginStage::Storing(t, session), LoginAction::StoreSession(t, session))
                    },
                    None => ends_with(r, LoginError::Unavailable),
                },
                _ => ends_with(r, LoginError::Unavailable),
            },
            (LoginStage::Storing(id, session), LoginEvent::Stored(ok)) => if ok {
                r == after_store(*input, id, session)
            } else {
                ends_with(r, LoginError::Unavailable)
            },
            (LoginStage::Auditing(id, session), LoginEvent::Audited(ok)) => if ok {
                r == rotation(*input, id, session)
            } else {
                r == (LoginStage::Discarding, LoginAction::DeleteSession(id))
            },
            (LoginStage::Rotating(id, session), LoginEvent::LoggedOut(ok)) => if ok {
                r == (LoginStage::Done, LoginAction::Finish(Ok((id, session))))
            } else {
                r == (LoginStage::Discarding, LoginAction::DeleteSession(id))
            },
            _ => ends_with(r, LoginError::Unavailable),
        },
{
    match (stage, event) {
        (LoginStage::Start, LoginEvent::Begin) => (LoginStage::Limiting, LoginAction::CheckAttempt),
        (LoginStage::Limiting, LoginEvent::AttemptChecked(answer)) => match answer {
            Err(_) => finish(LoginError::Unavailable),
            Ok(retry) => match login_throttle(retry) {
                Err(e) => finish(e),
                Ok(()) => (LoginStage::LoadingProtection, LoginAction::LoadProtection),
            },
        },
        (LoginStage::LoadingProtection, LoginEvent::ProtectionLoaded(answer)) => match answer {
            Err(_) => finish(LoginError::Unavailable),
            Ok(settings) => {
                let token = match &input.protection_token {
                    Some(t) => Some(t.as_str()),
                    None => None,
                };
                match login_protection(&settings, token) {
                    Err(e) => finish(e),
                    Ok(None) => load_credential(input),
                    Ok(Some(challenge)) => (LoginStage::Verifying, LoginAction::Verify(challenge)),
                }
            },
        },
        (LoginStage::Verifying, LoginEvent::Verified(answer)) => match turnstile_outcome(answer) {
            Err(e) => finish(e),
            Ok(()) => load_credential(input),
        },
        (LoginStage::LoadingCredential, LoginEvent::CredentialLoaded(answer)) => match answer {
            Err(_) => finish(LoginError::Unavailable),
            Ok(credential) => match authenticate_credential(credential.as_ref(), input.password.as_str()) {
                Err(e) => finish(e),
                Ok(subject) => (LoginStage::LoadingLifetimes(subject), LoginAction::LoadLifetimes),
            },
        },
        (LoginStage::LoadingLifetimes(subject), LoginEvent::LifetimesLoaded { overrides, now, token }) => {
            let o = match overrides {
                Ok(o) => o,
                Err(_) => {
                    return finish(LoginError::Unavailable);
                },
            };
            let t = match token {
                Some(t) => t,
                None => {
                    return finish(LoginError::Unavailable);
                },
            };
            match login_ttl_minutes(&subject, o, input.configured_ttl) {
                Err(e) => finish(e),
                Ok(minutes) => {
                    assert(minutes * MICROS_PER_MINUTE <= MAX_SESSION_TTL_MINUTES * MICROS_PER_MINUTE)
                        by (nonlinear_arith)
                        requires
                            minutes <= MAX_SESSION_TTL_MINUTES,
                    ;
                    let session = AuthSession { subject, expires_at: session_expiry(now, minutes) };
                    let id = t.clone();
                    let copy = copy_session(&session);
                    (LoginStage::Storing(id, copy), LoginAction::StoreSession(t, session))
                },
            }
        },
        (LoginStage::Storing(id, session), LoginEvent::Stored(ok)) => {
            if !ok {
                return finish(LoginError::Unavailable);
            }
            let audit = match &session.subject {
                SessionSubject::Admin { admin_user_id, .. } => Some(("admin.login", admin_user_id.clone())),
                SessionSubject::User { user_id, .. } => Some(("user.login", user_id.clone())),
                SessionSubject::Key { .. } => None,
            };
            match audit {
                Some((action, user_id)) => (
                    LoginStage::Auditing(id, session),
                    LoginAction::AppendAudit { action, user_id },
                ),
                None => rotate(input, id, session),
            }
        },
        (LoginStage::Auditing(id, session), LoginEvent::Audited(ok)) => {
            if ok {
                rotate(input, id, session)
            } else {
                (LoginStage::Discarding, LoginAction::DeleteSession(id))
            }
        },
        (LoginStage::Rotating(id, session), LoginEvent::LoggedOut(ok)) => {
            if ok {
                (LoginStage::Done, LoginAction::Finish(Ok((id, session))))
            } else {
                (LoginStage::Discarding, LoginAction::DeleteSession(id))
            }
        },
        _ => finish(LoginError::Unavailable),
    }
}

} // verus!
