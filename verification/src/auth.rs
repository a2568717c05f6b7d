//! Browser sessions: who a session speaks for, the credential fingerprint that
//! ties it to the account's password and session version, and the decisions of
//! login, session checks, logout and password changes.

use vstd::prelude::*;
use vstd::utf8::encode_utf8;

use crate::crypto::{
    argon2_accepts, argon2_hash, base64_url, base64_url_encode, constant_time_eq,
    is_base64_url_char, phc_hash_parses, random_bytes_32, sha256, sha256_digest,
};
use crate::decimal::{
    all_digits, decimal_digits, is_digit, lemma_decimal_digits_injective,
    lemma_decimal_digits_value, u64_text,
};
use crate::error::{AdminError, AdminErrorKind};
use crate::policy::{identifier_error, validate_identifier};
use crate::text::{is_ascii_hexdigit_char, push_char, push_text, str_byte_len, str_eq, trim, trim_seq};
use crate::users::{
    clamp_minutes, password_ok, verify_password, weak_texts, SessionTtlSettings, TurnstileSettings,
    PublicAuthSettings, UserCredentialRecord, UserRole, MAX_SESSION_TTL_MINUTES,
};

verus! {

/// Login attempts allowed from one source address per window.
pub const LOGIN_ATTEMPTS_PER_SOURCE: u32 = 10;

/// Login attempts allowed from all sources together per window.
pub const LOGIN_ATTEMPTS_GLOBAL: u32 = 200;

/// Length of the login attempt window, in seconds.
pub const LOGIN_WINDOW_SECONDS: u64 = 60;

/// Longest password a login or a password change will try to verify, in bytes.
pub const MAX_LOGIN_PASSWORD_BYTES: usize = 4096;

pub const MICROS_PER_MINUTE: i64 = 60_000_000;

/// Who a browser session speaks for. Account sessions carry the fingerprint of
/// the credential they were opened with.
#[derive(Debug, Clone, PartialEq, Eq)]
pub enum SessionSubject {
    Admin { admin_user_id: String, credential_fingerprint: String },
    User { user_id: String, credential_fingerprint: String },
    Key { client_key_id: String },
}

/// A stored browser session; `expires_at` is in microseconds since the epoch.
#[derive(Debug, Clone, PartialEq, Eq)]
pub struct AuthSession {
    pub subject: SessionSubject,
    pub expires_at: i64,
}

/// Why a login was refused.
#[derive(Debug, Clone, Copy, PartialEq, Eq, Structural)]
pub enum LoginError {
    InvalidCredentials,
    TooManyAttempts { retry_after_seconds: u64 },
    Unavailable,
}

/// The human-verification service could not give an answer.
#[derive(Debug, Clone, Copy, PartialEq, Eq, Structural)]
pub enum TurnstileVerifyError {
    Unavailable,
}

/// The part of a fingerprint that depends on the password hash: the URL-safe
/// base64 of the SHA-256 of the hash's UTF-8 bytes. The hash itself is never
/// copied into a session.
pub open spec fn password_fingerprint_text(password_hash: Seq<char>) -> Seq<char> {
    base64_url(sha256(encode_utf8(password_hash)))
}

/// The fingerprint of a credential: the password part, `':'`, and the session
/// version in decimal.
pub open spec fn fingerprint_text(password_hash: Seq<char>, session_version: u64) -> Seq<char> {
    password_fingerprint_text(password_hash) + seq![':'] + decimal_digits(session_version as nat)
}

/// The password part of a credential fingerprint.
pub fn password_fingerprint(password_hash: &str) -> (r: String)
    ensures
        r@ == password_fingerprint_text(password_hash@),
        forall|i: int| 0 <= i < r@.len() ==> is_base64_url_char(#[trigger] r@[i]),
{
    let digest = sha256_digest(password_hash.as_bytes());
    base64_url_encode(digest.as_slice())
}

/// The fingerprint a new session carries for a credential at `session_version`.
pub fn session_fingerprint(password_hash: &str, session_version: u64) -> (r: String)
    ensures
        r@ == fingerprint_text(password_hash@, session_version),
{
    let mut s = password_fingerprint(password_hash);
    push_char(&mut s, ':');
    let version = u64_text(session_version);
    push_text(&mut s, version.as_str());
    s
}

/// Whether `fingerprint` is the one of this credential at this session version.
pub fn session_fingerprint_matches(fingerprint: &str, password_hash: &str, session_version: u64) -> (r:
    bool)
    ensures
        r == (fingerprint@ == fingerprint_text(password_hash@, session_version)),
{
    let expected = session_fingerprint(password_hash, session_version);
    str_eq(fingerprint, expected.as_str())
}

/// The text after the last `':'` of `f` (all of `f` when it holds none).
pub open spec fn after_last_colon(f: Seq<char>) -> Seq<char>
    decreases f.len(),
{
    if f.len() == 0 {
        f
    } else if f.last() == ':' {
        Seq::<char>::empty()
    } else {
        after_last_colon(f.drop_last()).push(f.last())
    }
}

proof fn lemma_after_last_colon(p: Seq<char>, d: Seq<char>)
    requires
        forall|i: int| 0 <= i < d.len() ==> #[trigger] d[i] != ':',
    ensures
        after_last_colon(p + seq![':'] + d) == d,
    decreases d.len(),
{
    let f = p + seq![':'] + d;
    if d.len() == 0 {
        assert(f.last() == ':');
    } else {
        lemma_after_last_colon(p, d.drop_last());
        assert(f.drop_last() == p + seq![':'] + d.drop_last());
        assert(f.last() == d.last());
        assert(d.drop_last().push(d.last()) == d);
    }
}

/// The session version a fingerprint was written for can be read back from it.
pub proof fn lemma_fingerprint_version(password_hash: Seq<char>, session_version: u64)
    ensures
        after_last_colon(fingerprint_text(password_hash, session_version)) == decimal_digits(
            session_version as nat,
        ),
{
    let d = decimal_digits(session_version as nat);
    lemma_decimal_digits_value(session_version as nat);
    assert forall|i: int| 0 <= i < d.len() implies #[trigger] d[i] != ':' by {
        assert(is_digit(d[i]));
    }
    lemma_after_last_colon(password_fingerprint_text(password_hash), d);
}

/// A fingerprint written for one session version never matches a credential
/// at another version, whatever the password hashes: raising an account's
/// session version revokes every session opened before.
pub proof fn lemma_fingerprint_binds_version(h1: Seq<char>, v1: u64, h2: Seq<char>, v2: u64)
    requires
        v1 != v2,
    ensures
        fingerprint_text(h1, v1) != fingerprint_text(h2, v2),
{
    lemma_fingerprint_version(h1, v1);
    lemma_fingerprint_version(h2, v2);
    if fingerprint_text(h1, v1) == fingerprint_text(h2, v2) {
        lemma_decimal_digits_injective(v1 as nat, v2 as nat);
    }
}

/// The account a session is bound to, the role it was opened with, and the
/// credential fingerprint it carries; key sessions are bound to no account.
pub open spec fn binding_of(subject: SessionSubject) -> Option<(Seq<char>, UserRole, Seq<char>)> {
    match subject {
        SessionSubject::Admin { admin_user_id, credential_fingerprint } => Some(
            (admin_user_id@, UserRole::Admin, credential_fingerprint@),
        ),
        SessionSubject::User { user_id, credential_fingerprint } => Some(
            (user_id@, UserRole::User, credential_fingerprint@),
        ),
        SessionSubject::Key { .. } => None,
    }
}

/// The account, role and fingerprint a session is bound to; `None` for key sessions.
pub fn session_user_binding(subject: &SessionSubject) -> (r: Option<(&str, UserRole, &str)>)
    ensures
        match r {
            Some((id, role, fingerprint)) => binding_of(*subject) == Some((id@, role, fingerprint@)),
            None => binding_of(*subject) is None,
        },
{
    match subject {
        SessionSubject::Admin { admin_user_id, credential_fingerprint } => Some(
            (admin_user_id.as_str(), UserRole::Admin, credential_fingerprint.as_str()),
        ),
        SessionSubject::User { user_id, credential_fingerprint } => Some(
            (user_id.as_str(), UserRole::User, credential_fingerprint.as_str()),
        ),
        SessionSubject::Key { .. } => None,
    }
}

/// An account credential still stands behind a session bound to `role` with
/// `fingerprint`: the account is enabled, has that role, and its current
/// password hash and session version give that fingerprint.
pub open spec fn credential_current(
    credential: UserCredentialRecord,
    role: UserRole,
    fingerprint: Seq<char>,
) -> bool {
    &&& credential.user.enabled
    &&& credential.user.role == role
    &&& fingerprint == fingerprint_text(credential.password_hash@, credential.user.session_version)
}

/// Whether an account record is enabled, has `role`, and gives `fingerprint`.
pub fn credential_matches(credential: &UserCredentialRecord, role: UserRole, fingerprint: &str) -> (r:
    bool)
    ensures
        r == credential_current(*credential, role, fingerprint@),
{
    credential.user.enabled && credential.user.role == role && session_fingerprint_matches(
        fingerprint,
        credential.password_hash.as_str(),
        credential.user.session_version,
    )
}

/// Whether the account record loaded for a session still backs it. Sessions
/// bound to no account are not judged here.
pub open spec fn credential_backs(subject: SessionSubject, credential: Option<UserCredentialRecord>) -> bool {
    match binding_of(subject) {
        Some((_, role, fingerprint)) => credential matches Some(c) && credential_current(
            c,
            role,
            fingerprint,
        ),
        None => true,
    }
}

/// Whether the account record loaded for a session still backs it.
pub fn credential_backs_session(subject: &SessionSubject, credential: Option<&UserCredentialRecord>) -> (r:
    bool)
    ensures
        r == credential_backs(
            *subject,
            match credential {
                Some(c) => Some(*c),
                None => None,
            },
        ),
{
    match session_user_binding(subject) {
        Some((_, role, fingerprint)) => match credential {
            Some(c) => credential_matches(c, role, fingerprint),
            None => false,
        },
        None => true,
    }
}

/// A session read back from the session store: a key session must name a
/// well-formed key identifier.
pub fn stored_session_ok(session: &AuthSession) -> (r: Result<(), AdminError>)
    ensures
        r is Ok <==> (session.subject matches SessionSubject::Key { client_key_id }
            ==> identifier_error(client_key_id@) is None),
        r matches Err(e) ==> e.kind == AdminErrorKind::Invalid && e.message == "client key ID is invalid",
{
    match &session.subject {
        SessionSubject::Key { client_key_id } => match validate_identifier(client_key_id.as_str()) {
            Ok(()) => Ok(()),
            Err(_) => Err(AdminError::invalid("client key ID is invalid")),
        },
        _ => Ok(()),
    }
}

/// A session has expired once its expiry instant is reached.
pub fn session_expired(session: &AuthSession, now: i64) -> (r: bool)
    ensures
        r == (session.expires_at <= now),
{
    session.expires_at <= now
}

/// A stored session stays valid while it has not expired, the account it is
/// bound to still backs it, and, for a key session, the key is still enabled.
pub open spec fn session_valid(
    session: AuthSession,
    now: i64,
    credential: Option<UserCredentialRecord>,
    key_enabled: bool,
) -> bool {
    &&& session.expires_at > now
    &&& credential_backs(session.subject, credential)
    &&& (session.subject is Key ==> key_enabled)
}

/// The decision on a stored session, from the facts loaded for it: the account
/// record it is bound to, and whether its key is enabled. `false` means the
/// session is revoked and deleted.
pub fn check_session(
    session: &AuthSession,
    now: i64,
    credential: Option<&UserCredentialRecord>,
    key_enabled: bool,
) -> (r: bool)
    ensures
        r == session_valid(
            *session,
            now,
            match credential {
                Some(c) => Some(*c),
                None => None,
            },
            key_enabled,
        ),
{
    if session_expired(session, now) {
        return false;
    }
    if !credential_backs_session(&session.subject, credential) {
        return false;
    }
    match &session.subject {
        SessionSubject::Key { .. } => key_enabled,
        _ => true,
    }
}

/// A session carries a session id worth looking up only when it is non-empty.
pub fn session_lookup_id(session_id: Option<&str>) -> (r: Option<&str>)
    ensures
        match session_id {
            Some(s) => if s@.len() > 0 {
                r == Some(s)
            } else {
                r is None
            },
            None => r is None,
        },
{
    match session_id {
        Some(s) => if s.is_empty() {
            None
        } else {
            Some(s)
        },
        None => None,
    }
}

/// The administrator a session speaks for, for the administration interface:
/// none without a session, refused (`Forbidden`) for user and key sessions.
pub fn admin_user_of(subject: Option<&SessionSubject>) -> (r: Result<Option<String>, AdminError>)
    ensures
        match subject {
            None => r == Ok::<Option<String>, AdminError>(None),
            Some(SessionSubject::Admin { admin_user_id, .. }) => r == Ok::<
                Option<String>,
                AdminError,
            >(Some(*admin_user_id)),
            Some(_) => r matches Err(e) && e.kind == AdminErrorKind::Forbidden && e.message
                == "当前身份无权访问管理接口",
        },
{
    match subject {
        Some(SessionSubject::Admin { admin_user_id, .. }) => Ok(Some(admin_user_id.clone())),
        Some(_) => Err(AdminError::new(AdminErrorKind::Forbidden, "当前身份无权访问管理接口")),
        None => Ok(None),
    }
}

/// The account a session speaks for; key sessions speak for none.
pub fn session_account_id(subject: &SessionSubject) -> (r: Option<&str>)
    ensures
        match binding_of(*subject) {
            Some((id, _, _)) => r matches Some(x) && x@ == id,
            None => r is None,
        },
{
    match subject {
        SessionSubject::Admin { admin_user_id, .. } => Some(admin_user_id.as_str()),
        SessionSubject::User { user_id, .. } => Some(user_id.as_str()),
        SessionSubject::Key { .. } => None,
    }
}

/// The administrator whose logout is audited: the one a deleted admin session
/// spoke for.
pub fn logout_audit_subject(session: Option<&AuthSession>) -> (r: Option<&str>)
    ensures
        match session {
            Some(s) => match s.subject {
                SessionSubject::Admin { admin_user_id, .. } => r matches Some(x) && x@
                    == admin_user_id@,
                _ => r is None,
            },
            None => r is None,
        },
{
    match session {
        Some(AuthSession { subject: SessionSubject::Admin { admin_user_id, .. }, .. }) => Some(
            admin_user_id.as_str(),
        ),
        _ => None,
    }
}

/// The attempt limiter's answer: `retry_after_seconds` is present when the
/// source or the whole service has used up its attempts; the wait given to
/// the client is at least one second.
pub fn login_throttle(retry_after_seconds: Option<u64>) -> (r: Result<(), LoginError>)
    ensures
        match retry_after_seconds {
            None => r is Ok,
            Some(s) => r == Err::<(), LoginError>(
                LoginError::TooManyAttempts { retry_after_seconds: if s < 1 { 1 } else { s } },
            ),
        },
{
    match retry_after_seconds {
        None => Ok(()),
        Some(s) => Err(LoginError::TooManyAttempts { retry_after_seconds: if s < 1 { 1 } else { s } }),
    }
}

/// What the human-verification service is asked: the secret and the trimmed token.
pub struct TurnstileChallenge {
    pub secret: String,
    pub token: String,
}

/// Text present and non-empty.
pub open spec fn present(s: Option<Seq<char>>) -> bool {
    s matches Some(v) && v.len() > 0
}

/// The login protection decision before the verification service is asked:
/// nothing to check while protection is off; the service is unavailable when
/// the site key or the secret is missing or empty; a missing or blank token is
/// refused as invalid credentials; otherwise the secret and trimmed token.
pub open spec fn login_protection_spec(
    settings: TurnstileSettings,
    token: Option<Seq<char>>,
) -> Result<Option<(Seq<char>, Seq<char>)>, LoginError> {
    if !settings.spec_enabled() {
        Ok(None)
    } else if !present(settings.spec_site_key()) || !present(settings.spec_secret()) {
        Err(LoginError::Unavailable)
    } else {
        match token {
            Some(t) => if trim_seq(t).len() > 0 {
                Ok(Some((settings.spec_secret()->0, trim_seq(t))))
            } else {
                Err(LoginError::InvalidCredentials)
            },
            None => Err(LoginError::InvalidCredentials),
        }
    }
}

/// Decides what login protection asks before the verification service is called.
pub fn login_protection(settings: &TurnstileSettings, token: Option<&str>) -> (r: Result<
    Option<TurnstileChallenge>,
    LoginError,
>)
    ensures
        match login_protection_spec(
            *settings,
            match token {
                Some(t) => Some(t@),
                None => None,
            },
        ) {
            Ok(None) => r matches Ok(None),
            Ok(Some((secret, t))) => r matches Ok(Some(c)) && c.secret@ == secret && c.token@ == t,
            Err(e) => r == Err::<Option<TurnstileChallenge>, LoginError>(e),
        },
{
    if !settings.is_enabled() {
        return Ok(None);
    }
    let site_ok = match settings.public_site_key() {
        Some(k) => !k.is_empty(),
        None => false,
    };
    if !site_ok {
        return Err(LoginError::Unavailable);
    }
    let secret = match settings.secret_for_verification() {
        Some(s) => if s.is_empty() {
            return Err(LoginError::Unavailable);
        } else {
            s
        },
        None => {
            return Err(LoginError::Unavailable);
        },
    };
    let token = match token {
        Some(t) => trim(t),
        None => {
            return Err(LoginError::InvalidCredentials);
        },
    };
    if token.as_str().is_empty() {
        return Err(LoginError::InvalidCredentials);
    }
    Ok(Some(TurnstileChallenge { secret: secret.to_owned(), token }))
}

/// The answer of the Siteverify service: a non-success HTTP status or an
/// unreadable body (`None`) leaves the service unavailable; otherwise the
/// body's `success` flag.
pub fn siteverify_answer(status_success: bool, body_success: Option<bool>) -> (r: Result<
    bool,
    TurnstileVerifyError,
>)
    ensures
        r == (if status_success && body_success is Some {
            Ok::<bool, TurnstileVerifyError>(body_success.unwrap())
        } else {
            Err(TurnstileVerifyError::Unavailable)
        }),
{
    if !status_success {
        return Err(TurnstileVerifyError::Unavailable);
    }
    match body_success {
        Some(success) => Ok(success),
        None => Err(TurnstileVerifyError::Unavailable),
    }
}

/// The Turnstile HTTP client could not be set up.
#[derive(Debug, Clone, Copy, PartialEq, Eq)]
pub struct TurnstileClientError;

impl TurnstileClientError {
    pub fn message(&self) -> (s: &'static str)
        ensures
            s@ == "failed to initialize Turnstile HTTP client"@,
    {
        "failed to initialize Turnstile HTTP client"
    }
}

/// The verification service's answer: a pass admits, a fail refuses the
/// credentials, no answer makes login unavailable.
pub fn turnstile_outcome(answer: Result<bool, TurnstileVerifyError>) -> (r: Result<(), LoginError>)
    ensures
        match answer {
            Ok(true) => r is Ok,
            Ok(false) => r == Err::<(), LoginError>(LoginError::InvalidCredentials),
            Err(_) => r == Err::<(), LoginError>(LoginError::Unavailable),
        },
{
    match answer {
        Ok(true) => Ok(()),
        Ok(false) => Err(LoginError::InvalidCredentials),
        Err(_) => Err(LoginError::Unavailable),
    }
}

/// The account a login names: the trimmed username, refused when blank, or the
/// default administrator when none is given.
pub fn login_username(requested: Option<&str>, default_admin_user_id: &str) -> (r: Result<
    String,
    LoginError,
>)
    ensures
        match requested {
            Some(u) => if trim_seq(u@).len() > 0 {
                r matches Ok(x) && x@ == trim_seq(u@)
            } else {
                r == Err::<String, LoginError>(LoginError::InvalidCredentials)
            },
            None => r matches Ok(x) && x@ == default_admin_user_id@,
        },
{
    match requested {
        Some(u) => {
            let t = trim(u);
            if t.as_str().is_empty() {
                Err(LoginError::InvalidCredentials)
            } else {
                Ok(t)
            }
        },
        None => Ok(default_admin_user_id.to_owned()),
    }
}

/// The subject a login opens for an account, with the fingerprint of its
/// current credential.
pub open spec fn login_subject(credential: UserCredentialRecord, subject: SessionSubject) -> bool {
    binding_of(subject) == Some(
        (
            credential.user.id@,
            credential.user.role,
            fingerprint_text(credential.password_hash@, credential.user.session_version),
        ),
    )
}

/// Checks a password against the account found for a login. An unknown or
/// disabled account, a password over 4096 bytes or a wrong password are refused
/// alike; a stored hash that is not a PHC string makes login unavailable.
pub fn authenticate_credential(credential: Option<&UserCredentialRecord>, password: &str) -> (r:
    Result<SessionSubject, LoginError>)
    ensures
        match credential {
            None => r == Err::<SessionSubject, LoginError>(LoginError::InvalidCredentials),
            Some(c) => if !c.user.enabled || encode_utf8(password@).len() > MAX_LOGIN_PASSWORD_BYTES {
                r == Err::<SessionSubject, LoginError>(LoginError::InvalidCredentials)
            } else if !phc_hash_parses(c.password_hash@) {
                r == Err::<SessionSubject, LoginError>(LoginError::Unavailable)
            } else if !argon2_accepts(encode_utf8(password@), c.password_hash@) {
                r == Err::<SessionSubject, LoginError>(LoginError::InvalidCredentials)
            } else {
                r matches Ok(s) && login_subject(*c, s)
            },
        },
{
    let c = match credential {
        Some(c) => c,
        None => {
            return Err(LoginError::InvalidCredentials);
        },
    };
    if !c.user.enabled || str_byte_len(password) > MAX_LOGIN_PASSWORD_BYTES {
        return Err(LoginError::InvalidCredentials);
    }
    match verify_password(password, c.password_hash.as_str()) {
        Ok(true) => {},
        Ok(false) => {
            return Err(LoginError::InvalidCredentials);
        },
        Err(_) => {
            return Err(LoginError::Unavailable);
        },
    }
    let fingerprint = session_fingerprint(c.password_hash.as_str(), c.user.session_version);
    match c.user.role {
        UserRole::Admin => Ok(
            SessionSubject::Admin {
                admin_user_id: c.user.id.clone(),
                credential_fingerprint: fingerprint,
            },
        ),
        UserRole::User => Ok(
            SessionSubject::User { user_id: c.user.id.clone(), credential_fingerprint: fingerprint },
        ),
    }
}

/// The lifetime of a new session, in minutes: the stored override for the
/// subject's role when there is one, else the configured default, clamped to
/// one minute to 366 days. Key sessions are not opened by login.
pub fn login_ttl_minutes(
    subject: &SessionSubject,
    overrides: Option<SessionTtlSettings>,
    configured: SessionTtlSettings,
) -> (r: Result<u64, LoginError>)
    ensures
        match (*subject, overrides) {
            (SessionSubject::Admin { .. }, Some(o)) => r == Ok::<u64, LoginError>(
                clamp_minutes(o.admin_minutes),
            ),
            (SessionSubject::User { .. }, Some(o)) => r == Ok::<u64, LoginError>(
                clamp_minutes(o.user_minutes),
            ),
            (SessionSubject::Admin { .. }, None) => r == Ok::<u64, LoginError>(
                clamp_minutes(configured.admin_minutes),
            ),
            (SessionSubject::User { .. }, None) => r == Ok::<u64, LoginError>(
                clamp_minutes(configured.user_minutes),
            ),
            (SessionSubject::Key { .. }, _) => r == Err::<u64, LoginError>(
                LoginError::Unavailable,
            ),
        },
{
    let minutes = match (subject, overrides) {
        (SessionSubject::Admin { .. }, Some(o)) => o.admin_minutes,
        (SessionSubject::User { .. }, Some(o)) => o.user_minutes,
        (SessionSubject::Admin { .. }, None) => configured.admin_minutes,
        (SessionSubject::User { .. }, None) => configured.user_minutes,
        (SessionSubject::Key { .. }, _) => {
            return Err(LoginError::Unavailable);
        },
    };
    Ok(session_ttl_minutes(minutes))
}

/// A configured lifetime, clamped to one minute to 366 days.
pub fn session_ttl_minutes(minutes: u64) -> (r: u64)
    ensures
        r == clamp_minutes(minutes),
        1 <= r <= MAX_SESSION_TTL_MINUTES,
{
    if minutes < 1 {
        1
    } else if minutes > MAX_SESSION_TTL_MINUTES {
        MAX_SESSION_TTL_MINUTES
    } else {
        minutes
    }
}

/// The expiry of a session opened at `now` for `minutes`.
pub fn session_expiry(now: i64, minutes: u64) -> (r: i64)
    requires
        minutes <= MAX_SESSION_TTL_MINUTES,
        now + minutes * MICROS_PER_MINUTE <= i64::MAX,
    ensures
        r == now + minutes * MICROS_PER_MINUTE,
{
    now + (minutes as i64) * MICROS_PER_MINUTE
}

/// The session token made from 32 bytes: `session_` and their URL-safe base64.
pub fn session_token_from(bytes: &[u8]) -> (r: String)
    requires
        bytes@.len() == 32,
    ensures
        r@ == "session_"@ + base64_url(bytes@),
        r@.len() == 51,
        forall|i: int| 8 <= i < 51 ==> is_base64_url_char(#[trigger] r@[i]),
{
    let encoded = base64_url_encode(bytes);
    let mut token = String::new();
    push_text(&mut token, "session_");
    proof {
        reveal_strlit("session_");
    }
    push_text(&mut token, encoded.as_str());
    assert forall|i: int| 8 <= i < 51 implies is_base64_url_char(#[trigger] token@[i]) by {
        assert(token@[i] == encoded@[i - 8]);
    }
    token
}

/// A new session token: `session_` and the URL-safe base64 of 32 bytes from the
/// operating system's generator; `None` when the generator fails.
pub fn new_session_token() -> (r: Option<String>)
    ensures
        r matches Some(t) ==> exists|b: Seq<u8>| b.len() == 32 && t@ == "session_"@ + base64_url(b),
        r matches Some(t) ==> t@.len() == 51 && t@.take(8) == "session_"@ && forall|i: int|
            8 <= i < 51 ==> is_base64_url_char(#[trigger] t@[i]),
{
    let bytes = match random_bytes_32() {
        Some(b) => b,
        None => {
            return None;
        },
    };
    let token = session_token_from(bytes.as_slice());
    proof {
        reveal_strlit("session_");
        assert(token@.take(8) =~= "session_"@);
    }
    Some(token)
}

/// The shape of an administrator API key: `admin-` and 64 hexadecimal digits.
pub open spec fn admin_api_key_shape(key: Seq<char>) -> bool {
    &&& key.len() == 70
    &&& key.take(6) == "admin-"@
    &&& forall|i: int| 6 <= i < 70 ==> is_ascii_hexdigit_char(#[trigger] key[i])
}

/// Whether a text has the shape of an administrator API key.
pub fn valid_admin_api_key_shape(value: &str) -> (r: bool)
    ensures
        r == admin_api_key_shape(value@),
{
    proof {
        reveal_strlit("admin-");
    }
    let chars = crate::text::chars_of(value);
    if chars.len() != 70 {
        return false;
    }
    let prefix = crate::text::chars_of("admin-");
    assert(prefix@.len() == 6);
    let mut i: usize = 0;
    while i < 6
        invariant
            chars@ == value@,
            chars.len() == 70,
            prefix@ == "admin-"@,
            prefix@.len() == 6,
            i <= 6,
            forall|j: int| 0 <= j < i ==> chars@[j] == prefix@[j],
        decreases 6 - i,
    {
        if chars[i] != prefix[i] {
            assert(value@.take(6)[i as int] != "admin-"@[i as int]);
            return false;
        }
        i = i + 1;
    }
    assert(value@.take(6) == "admin-"@);
    let mut k: usize = 6;
    while k < 70
        invariant
            chars@ == value@,
            chars.len() == 70,
            6 <= k <= 70,
            forall|j: int| 6 <= j < k ==> is_ascii_hexdigit_char(#[trigger] chars@[j]),
        decreases 70 - k,
    {
        let c = chars[k];
        if !(('0' <= c && c <= '9') || ('a' <= c && c <= 'f') || ('A' <= c && c <= 'F')) {
            return false;
        }
        k = k + 1;
    }
    true
}

/// Whether a presented administrator API key is the stored one: the shape is
/// checked first, then length and bytes, the bytes in constant time.
pub fn admin_api_key_matches(key: &str, stored: Option<&str>) -> (r: bool)
    ensures
        r == (admin_api_key_shape(key@) && (stored matches Some(s) && s@ == key@)),
{
    if !valid_admin_api_key_shape(key) {
        return false;
    }
    match stored {
        Some(s) => {
            let a = key.as_bytes();
            let b = s.as_bytes();
            if a.len() != b.len() {
                return false;
            }
            let same = constant_time_eq(a, b);
            proof {
                vstd::utf8::encode_utf8_decode_utf8(key@);
                vstd::utf8::encode_utf8_decode_utf8(s@);
            }
            same
        },
        None => false,
    }
}

/// What the login page may learn of the protection settings: whether it is on
/// and its public site key.
pub fn public_auth_settings(settings: &TurnstileSettings) -> (r: PublicAuthSettings)
    ensures
        r.turnstile_enabled == settings.spec_enabled(),
        match r.turnstile_site_key {
            Some(k) => settings.spec_site_key() == Some(k@),
            None => settings.spec_site_key() is None,
        },
{
    PublicAuthSettings {
        turnstile_enabled: settings.is_enabled(),
        turnstile_site_key: match settings.public_site_key() {
            Some(k) => Some(k.to_owned()),
            None => None,
        },
    }
}

/// The administrator a password change is made for, with the fingerprint its
/// session carries: refused (`Unauthorized`) without a session, and
/// (`Forbidden`) for user and key sessions.
pub fn password_change_actor(session: Option<&AuthSession>) -> (r: Result<(String, String), AdminError>)
    ensures
        match session {
            None => r matches Err(e) && e.kind == AdminErrorKind::Unauthorized && e.message == "请先登录",
            Some(s) => match s.subject {
                SessionSubject::Admin { admin_user_id, credential_fingerprint } => r matches Ok(
                    (id, f),
                ) && id@ == admin_user_id@ && f@ == credential_fingerprint@,
                _ => r matches Err(e) && e.kind == AdminErrorKind::Forbidden && e.message
                    == "仅管理员可以修改密码",
            },
        },
{
    match session {
        None => Err(AdminError::new(AdminErrorKind::Unauthorized, "请先登录")),
        Some(s) => match &s.subject {
            SessionSubject::Admin { admin_user_id, credential_fingerprint } => Ok(
                (admin_user_id.clone(), credential_fingerprint.clone()),
            ),
            _ => Err(AdminError::new(AdminErrorKind::Forbidden, "仅管理员可以修改密码")),
        },
    }
}

/// The attempt limiter refuses a password change (`RateLimited`) once the
/// attempts are used up.
pub fn password_change_throttle(limited: bool) -> (r: Result<(), AdminError>)
    ensures
        r is Ok <==> !limited,
        r matches Err(e) ==> e.kind == AdminErrorKind::RateLimited && e.message == "尝试过于频繁，请稍后再试",
{
    if limited {
        Err(AdminError::new(AdminErrorKind::RateLimited, "尝试过于频繁，请稍后再试"))
    } else {
        Ok(())
    }
}

/// The checks of an administrator's password change, once the new password is
/// valid and the account is loaded, and the new hash. The account must still
/// back the session (`Conflict`); the current password must be at most 4096
/// bytes and verify (`Invalid`; a stored hash that is not a PHC string is
/// `Internal`); the new password must differ from it (`Invalid`). Only a failure
/// of the hasher is left open, as `Internal`.
pub fn admin_password_change(
    credential: Option<&UserCredentialRecord>,
    fingerprint: &str,
    current_password: &str,
    new_password: &str,
) -> (r: Result<String, AdminError>)
    ensures
        match credential {
            Some(c) => if !credential_current(*c, UserRole::Admin, fingerprint@) {
                r matches Err(e) && e.kind == AdminErrorKind::Conflict && e.message == "密码已变更，请重新登录"
            } else if encode_utf8(current_password@).len() > MAX_LOGIN_PASSWORD_BYTES {
                r matches Err(e) && e.kind == AdminErrorKind::Invalid && e.message == "当前密码不正确"
            } else if !phc_hash_parses(c.password_hash@) {
                r matches Err(e) && e.kind == AdminErrorKind::Internal && e.message == "已保存的密码哈希不合法"
            } else if !argon2_accepts(encode_utf8(current_password@), c.password_hash@) {
                r matches Err(e) && e.kind == AdminErrorKind::Invalid && e.message == "当前密码不正确"
            } else if new_password@ == current_password@ {
                r matches Err(e) && e.kind == AdminErrorKind::Invalid && e.message == "新密码不能与当前密码相同"
            } else {
                r is Ok || (r matches Err(e) && e.kind == AdminErrorKind::Internal && e.message
                    == "管理员密码哈希失败")
            },
            None => r matches Err(e) && e.kind == AdminErrorKind::Conflict && e.message == "密码已变更，请重新登录",
        },
        r matches Ok(h) ==> phc_hash_parses(h@) && argon2_accepts(encode_utf8(new_password@), h@),
{
    let c = match credential {
        Some(c) => c,
        None => {
            return Err(AdminError::conflict("密码已变更，请重新登录"));
        },
    };
    if !credential_matches(c, UserRole::Admin, fingerprint) {
        return Err(AdminError::conflict("密码已变更，请重新登录"));
    }
    if str_byte_len(current_password) > MAX_LOGIN_PASSWORD_BYTES || !verify_password(
        current_password,
        c.password_hash.as_str(),
    )? {
        return Err(AdminError::invalid("当前密码不正确"));
    }
    if str_eq(new_password, current_password) {
        return Err(AdminError::invalid("新密码不能与当前密码相同"));
    }
    match argon2_hash(new_password.as_bytes()) {
        Some(h) => Ok(h),
        None => Err(AdminError::internal("管理员密码哈希失败")),
    }
}

/// The store replaced the hash only if it was still the one read; otherwise
/// the password changed meanwhile (`Conflict`).
pub fn password_change_committed(changed: bool) -> (r: Result<(), AdminError>)
    ensures
        r is Ok <==> changed,
        r matches Err(e) ==> e.kind == AdminErrorKind::Conflict && e.message == "密码已变更，请重新登录",
{
    if changed {
        Ok(())
    } else {
        Err(AdminError::conflict("密码已变更，请重新登录"))
    }
}

/// A self-service change needs the current password of an enabled account:
/// refused (`Unauthorized`) otherwise; a stored hash that is not a PHC string is
/// `Internal`.
pub fn check_own_password(current: &UserCredentialRecord, password: &str) -> (r: Result<(), AdminError>)
    ensures
        !current.user.enabled ==> (r matches Err(e) && e.kind == AdminErrorKind::Unauthorized
            && e.message == "当前密码不正确"),
        current.user.enabled && !phc_hash_parses(current.password_hash@) ==> (r matches Err(e)
            && e.kind == AdminErrorKind::Internal && e.message == "已保存的密码哈希不合法"),
        current.user.enabled && phc_hash_parses(current.password_hash@) ==> (r is Ok
            <==> argon2_accepts(encode_utf8(password@), current.password_hash@)),
        current.user.enabled && phc_hash_parses(current.password_hash@) ==> (r matches Err(e)
            ==> e.kind == AdminErrorKind::Unauthorized && e.message == "当前密码不正确"),
{
    if !current.user.enabled || !verify_password(password, current.password_hash.as_str())? {
        return Err(AdminError::new(AdminErrorKind::Unauthorized, "当前密码不正确"));
    }
    Ok(())
}

/// The session a self-service change is made from: a live account session of
/// this very account, opened with its current credential.
pub open spec fn account_session_live(session: AuthSession, current: UserCredentialRecord, now: i64) -> bool {
    &&& binding_of(session.subject) matches Some((id, role, fingerprint))
    &&& id == current.user.id@
    &&& role == current.user.role
    &&& fingerprint == fingerprint_text(current.password_hash@, current.user.session_version)
    &&& session.expires_at > now
}

/// A self-service change is refused (`Unauthorized`) unless made from a live
/// session of this account opened with its current credential.
pub fn check_account_session(session: Option<&AuthSession>, current: &UserCredentialRecord, now: i64) -> (r:
    Result<(), AdminError>)
    ensures
        r is Ok <==> (session matches Some(s) && account_session_live(*s, *current, now)),
        r matches Err(e) ==> e.kind == AdminErrorKind::Unauthorized && e.message == "当前会话已失效",
{
    let s = match session {
        Some(s) => s,
        None => {
            return Err(AdminError::new(AdminErrorKind::Unauthorized, "当前会话已失效"));
        },
    };
    let valid = match session_user_binding(&s.subject) {
        Some((id, role, fingerprint)) => str_eq(id, current.user.id.as_str()) && role
            == current.user.role && session_fingerprint_matches(
            fingerprint,
            current.password_hash.as_str(),
            current.user.session_version,
        ),
        None => false,
    } && s.expires_at > now;
    if !valid {
        return Err(AdminError::new(AdminErrorKind::Unauthorized, "当前会话已失效"));
    }
    Ok(())
}

/// The new password of a self-service change must differ from the current one.
pub fn check_new_password_differs(current_password: &str, new_password: &str) -> (r: Result<
    (),
    AdminError,
>)
    ensures
        r is Ok <==> new_password@ != current_password@,
        r matches Err(e) ==> e.kind == AdminErrorKind::Invalid && e.message == "新密码不能与当前密码相同",
{
    if str_eq(new_password, current_password) {
        return Err(AdminError::invalid("新密码不能与当前密码相同"));
    }
    Ok(())
}

/// The subject of a session rebound to a new credential: same kind and
/// account, the fingerprint of the new hash and session version.
pub open spec fn rebound_subject(subject: SessionSubject, password_hash: Seq<char>, session_version: u64) -> Option<(Seq<char>, UserRole, Seq<char>)> {
    match binding_of(subject) {
        Some((id, role, _)) => Some((id, role, fingerprint_text(password_hash, session_version))),
        None => None,
    }
}

/// Rebinds the session a password change was made from to the new credential,
/// keeping its expiry; a key session is refused (`Unauthorized`).
pub fn rebind_session(session: &AuthSession, password_hash: &str, session_version: u64) -> (r: Result<
    AuthSession,
    AdminError,
>)
    ensures
        match rebound_subject(session.subject, password_hash@, session_version) {
            Some(b) => r matches Ok(x) && binding_of(x.subject) == Some(b) && x.expires_at
                == session.expires_at,
            None => r matches Err(e) && e.kind == AdminErrorKind::Unauthorized && e.message
                == "当前会话不是账户会话",
        },
{
    let fingerprint = session_fingerprint(password_hash, session_version);
    match &session.subject {
        SessionSubject::Admin { admin_user_id, .. } => Ok(
            AuthSession {
                subject: SessionSubject::Admin {
                    admin_user_id: admin_user_id.clone(),
                    credential_fingerprint: fingerprint,
                },
                expires_at: session.expires_at,
            },
        ),
        SessionSubject::User { user_id, .. } => Ok(
            AuthSession {
                subject: SessionSubject::User {
                    user_id: user_id.clone(),
                    credential_fingerprint: fingerprint,
                },
                expires_at: session.expires_at,
            },
        ),
        SessionSubject::Key { .. } => Err(
            AdminError::new(AdminErrorKind::Unauthorized, "当前会话不是账户会话"),
        ),
    }
}

/// The store replaced the session only if it was still the one read; otherwise
/// it was logged out or rotated meanwhile (`Unauthorized`).
pub fn session_rebind_committed(replaced: bool) -> (r: Result<(), AdminError>)
    ensures
        r is Ok <==> replaced,
        r matches Err(e) ==> e.kind == AdminErrorKind::Unauthorized && e.message == "密码已更新，当前会话已失效，请重新登录",
{
    if replaced {
        Ok(())
    } else {
        Err(AdminError::new(AdminErrorKind::Unauthorized, "密码已更新，当前会话已失效，请重新登录"))
    }
}

/// A session rebound after a password change is backed by the account as the
/// change left it (new hash, next session version), as long as the account
/// keeps its role and stays enabled.
pub proof fn lemma_rebound_session_backed(
    session: AuthSession,
    rebound: AuthSession,
    updated: UserCredentialRecord,
)
    requires
        binding_of(session.subject) matches Some((id, role, _)) && id == updated.user.id@ && role
            == updated.user.role,
        updated.user.enabled,
        binding_of(rebound.subject) == rebound_subject(
            session.subject,
            updated.password_hash@,
            updated.user.session_version,
        ),
    ensures
        credential_backs(rebound.subject, Some(updated)),
{
}

/// Once an account's session version changes, no session opened before the
/// change is backed by the account any more, whatever its password: a version
/// bump revokes every earlier session.
pub proof fn lemma_version_bump_revokes(
    subject: SessionSubject,
    before: UserCredentialRecord,
    after: UserCredentialRecord,
)
    requires
        credential_backs(subject, Some(before)),
        binding_of(subject) is Some,
        after.user.session_version != before.user.session_version,
    ensures
        !credential_backs(subject, Some(after)),
{
    lemma_fingerprint_binds_version(
        before.password_hash@,
        before.user.session_version,
        after.password_hash@,
        after.user.session_version,
    );
}

/// A freshly opened session is backed by the credential it was opened with.
pub proof fn lemma_login_session_backed(credential: UserCredentialRecord, subject: SessionSubject)
    requires
        credential.user.enabled,
        login_subject(credential, subject),
    ensures
        credential_backs(subject, Some(credential)),
{
}

} // verus!
