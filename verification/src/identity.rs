//! Accounts as the identity tables store them, and what each account write
//! does to a stored row. Every write that disables an account, changes its
//! role, or replaces or resets its password raises the session version, which
//! revokes every session opened before.
//!
//! Instants are microseconds since the epoch.

use vstd::prelude::*;

use crate::auth::{credential_backs, lemma_version_bump_revokes, SessionSubject, binding_of};
use crate::policy::UserRateLimits;
use crate::text::{byte_len, contains_control, has_control, str_byte_len, str_eq};
use crate::users::{
    kept_profile, keep_profile, ProviderProfile, UserKeyIdentity, UpdateUser, UserCredentialRecord, UserRecord, UserRole};

verus! {

/// A stored account row. It has no `Debug` form, so the hash cannot reach a log.
#[derive(Clone, PartialEq, Eq)]
pub struct StoredUser {
    pub id: String,
    pub username: String,
    pub password_hash: String,
    pub role: String,
    pub enabled: bool,
    pub max_concurrency: Option<i64>,
    pub requests_per_minute: Option<i64>,
    pub session_version: i64,
    pub created_at: i64,
    pub updated_at: i64,
}

/// An administrator's edit of a stored account; `None` keeps a field, and for
/// a limit `Some(None)` makes it unlimited.
#[derive(Debug, Clone, PartialEq, Eq)]
pub struct StoredUserUpdate {
    pub id: String,
    pub username: Option<String>,
    pub role: Option<String>,
    pub enabled: Option<bool>,
    pub max_concurrency: Option<Option<u64>>,
    pub requests_per_minute: Option<Option<u64>>,
}

/// Stored login protection settings. It has no `Debug` form, so the secret
/// cannot reach a log.
#[derive(Clone, PartialEq, Eq)]
pub struct StoredAuthSettings {
    pub turnstile_enabled: bool,
    pub turnstile_site_key: Option<String>,
    pub turnstile_secret_key: Option<String>,
}

/// What kind of conflict a write ran into.
#[derive(Debug, Clone, Copy, PartialEq, Eq, Structural)]
pub enum ConflictKind {
    /// The write would move the data to a state it may not reach.
    InvalidTransition,
}

/// Why the identity store refused data or a write.
#[derive(Debug, Clone, PartialEq, Eq)]
pub enum StoreError {
    InvalidData { entity: &'static str, message: &'static str },
    Conflict { entity: &'static str, id: String, kind: ConflictKind },
    /// The database could not give a usable answer for `operation`.
    Unavailable { operation: &'static str },
}

/// Stored text: non-empty, at most `max` bytes, no control character.
pub open spec fn stored_text_ok(s: Seq<char>, max: nat) -> bool {
    s.len() > 0 && byte_len(s) <= max && !has_control(s)
}

/// Stored text must be non-empty, at most `max` bytes and free of control characters
/// (`InvalidData` with the given entity and message).
pub fn validate_text(entity: &'static str, message: &'static str, value: &str, max: usize) -> (r:
    Result<(), StoreError>)
    ensures
        r is Ok <==> stored_text_ok(value@, max as nat),
        r is Err ==> r == Err::<(), StoreError>(StoreError::InvalidData { entity, message }),
{
    if value.is_empty() || str_byte_len(value) > max || contains_control(value) {
        return Err(StoreError::InvalidData { entity, message });
    }
    Ok(())
}

pub open spec fn role_text_ok(role: Seq<char>) -> bool {
    role == "admin"@ || role == "user"@
}

/// A row that may be written: texts within their limits, a known role, no
/// negative limit, a positive session version, and not updated before created.
pub open spec fn stored_user_ok(u: StoredUser) -> bool {
    &&& stored_text_ok(u.id@, 128)
    &&& stored_text_ok(u.username@, 128)
    &&& stored_text_ok(u.password_hash@, 1024)
    &&& role_text_ok(u.role@)
    &&& (u.max_concurrency matches Some(v) ==> v >= 0)
    &&& (u.requests_per_minute matches Some(v) ==> v >= 0)
    &&& u.session_version > 0
    &&& u.created_at <= u.updated_at
}

/// Why an account row is refused: the first of its checks that fails.
pub open spec fn stored_user_error(u: StoredUser) -> &'static str {
    if !stored_text_ok(u.id@, 128) {
        "id is invalid"
    } else if !stored_text_ok(u.username@, 128) {
        "username is invalid"
    } else if !stored_text_ok(u.password_hash@, 1024) {
        "password_hash is invalid"
    } else {
        "role or timestamps are invalid"
    }
}

/// Checks an account row before it is written (`InvalidData` for `user`).
pub fn validate_user(user: &StoredUser) -> (r: Result<(), StoreError>)
    ensures
        r is Ok <==> stored_user_ok(*user),
        r matches Err(e) ==> (e == StoreError::InvalidData { entity: "user", message: stored_user_error(*user) }),
{
    validate_text("user", "id is invalid", user.id.as_str(), 128)?;
    validate_text("user", "username is invalid", user.username.as_str(), 128)?;
    validate_text("user", "password_hash is invalid", user.password_hash.as_str(), 1024)?;
    let role_ok = str_eq(user.role.as_str(), "admin") || str_eq(user.role.as_str(), "user");
    let mc_ok = match user.max_concurrency {
        Some(v) => v >= 0,
        None => true,
    };
    let rpm_ok = match user.requests_per_minute {
        Some(v) => v >= 0,
        None => true,
    };
    if !role_ok || !mc_ok || !rpm_ok || user.session_version <= 0 || user.created_at
        > user.updated_at {
        return Err(
            StoreError::InvalidData { entity: "user", message: "role or timestamps are invalid" },
        );
    }
    Ok(())
}

/// A limit edit as stored: `None` keeps, `Some(None)` clears, `Some(Some(v))`
/// sets `v`, which must fit a signed column.
pub open spec fn limit_edit_ok(edit: Option<Option<u64>>) -> bool {
    edit matches Some(Some(v)) ==> v <= i64::MAX
}

/// What is wrong with an account edit before any row is read, in check order.
pub open spec fn user_update_error(u: StoredUserUpdate) -> Option<&'static str> {
    if !stored_text_ok(u.id@, 128) {
        Some("id is invalid")
    } else if u.username matches Some(n) && !stored_text_ok(n@, 128) {
        Some("username is invalid")
    } else if u.role matches Some(r) && !role_text_ok(r@) {
        Some("role must be admin or user")
    } else if !limit_edit_ok(u.max_concurrency) {
        Some("max_concurrency is outside the supported range")
    } else if !limit_edit_ok(u.requests_per_minute) {
        Some("requests_per_minute is outside the supported range")
    } else {
        None
    }
}

fn limit_column(edit: Option<Option<u64>>, message: &'static str) -> (r: Result<
    Option<i64>,
    StoreError,
>)
    ensures
        limit_edit_ok(edit) ==> r == Ok::<Option<i64>, StoreError>(
            match edit {
                Some(Some(v)) => Some(v as i64),
                _ => None,
            },
        ),
        !limit_edit_ok(edit) ==> r == Err::<Option<i64>, StoreError>(
            StoreError::InvalidData { entity: "user", message },
        ),
{
    match edit {
        Some(Some(v)) => if v > i64::MAX as u64 {
            Err(StoreError::InvalidData { entity: "user", message })
        } else {
            Ok(Some(v as i64))
        },
        _ => Ok(None),
    }
}

/// Checks an account edit and gives its limit columns.
pub fn prepare_user_update(update: &StoredUserUpdate) -> (r: Result<(Option<i64>, Option<i64>), StoreError>)
    ensures
        match user_update_error(*update) {
            Some(m) => r == Err::<(Option<i64>, Option<i64>), StoreError>(
                StoreError::InvalidData { entity: "user", message: m },
            ),
            None => r matches Ok((mc, rpm)) && mc == match update.max_concurrency {
                Some(Some(v)) => Some(v as i64),
                _ => None,
            } && rpm == match update.requests_per_minute {
                Some(Some(v)) => Some(v as i64),
                _ => None,
            },
        },
{
    validate_text("user", "id is invalid", update.id.as_str(), 128)?;
    if let Some(username) = &update.username {
        validate_text("user", "username is invalid", username.as_str(), 128)?;
    }
    if let Some(role) = &update.role {
        if !(str_eq(role.as_str(), "admin") || str_eq(role.as_str(), "user")) {
            return Err(
                StoreError::InvalidData { entity: "user", message: "role must be admin or user" },
            );
        }
    }
    let mc = limit_column(update.max_concurrency, "max_concurrency is outside the supported range")?;
    let rpm = limit_column(
        update.requests_per_minute,
        "requests_per_minute is outside the supported range",
    )?;
    Ok((mc, rpm))
}

/// The role an edit leaves an account with.
pub open spec fn edited_role(role: Seq<char>, update: StoredUserUpdate) -> Seq<char> {
    match update.role {
        Some(x) => x@,
        None => role,
    }
}

/// Whether an edit leaves an account enabled.
pub open spec fn edited_enabled(enabled: bool, update: StoredUserUpdate) -> bool {
    match update.enabled {
        Some(e) => e,
        None => enabled,
    }
}

/// An enabled administrator may lose its role or be disabled only while another
/// enabled administrator remains.
pub open spec fn admin_transition_ok(
    role: Seq<char>,
    enabled: bool,
    update: StoredUserUpdate,
    other_enabled_admin: bool,
) -> bool {
    role == "admin"@ && enabled ==> (edited_role(role, update) == "admin"@ && edited_enabled(
        enabled,
        update,
    )) || other_enabled_admin
}

/// An edit that leaves no enabled administrator behind is refused: a conflict
/// of kind `InvalidTransition` on the edited account.
pub fn check_admin_transition(
    current_role: &str,
    current_enabled: bool,
    update: &StoredUserUpdate,
    other_enabled_admin: bool,
) -> (r: Result<(), StoreError>)
    ensures
        r is Ok <==> admin_transition_ok(current_role@, current_enabled, *update, other_enabled_admin),
        r matches Err(e) ==> e matches StoreError::Conflict { entity, id, kind } && entity == "user"
            && id == update.id && kind == ConflictKind::InvalidTransition,
{
    let next_role = match &update.role {
        Some(x) => x.as_str(),
        None => current_role,
    };
    let next_enabled = match update.enabled {
        Some(e) => e,
        None => current_enabled,
    };
    if str_eq(current_role, "admin") && current_enabled && !(str_eq(next_role, "admin")
        && next_enabled) && !other_enabled_admin {
        return Err(
            StoreError::Conflict {
                entity: "user",
                id: update.id.clone(),
                kind: ConflictKind::InvalidTransition,
            },
        );
    }
    Ok(())
}

/// The later of two instants.
pub open spec fn later_of(a: i64, b: i64) -> i64 {
    if a >= b {
        a
    } else {
        b
    }
}

/// An edit that disables the account or gives it another role revokes its sessions.
pub open spec fn update_revokes_sessions(row: StoredUser, update: StoredUserUpdate) -> bool {
    update.enabled == Some(false) || (update.role matches Some(r) && r@ != row.role@)
}

fn copy_text(s: &String) -> (r: String)
    ensures
        r == *s,
{
    s.clone()
}

/// The row after an account edit: given fields replace stored ones, limits
/// change only when the edit names them, the session version rises by one when
/// the edit revokes sessions, and the update time never goes back.
pub fn apply_user_update(
    row: &StoredUser,
    update: &StoredUserUpdate,
    limits: (Option<i64>, Option<i64>),
    now: i64,
) -> (r: StoredUser)
    requires
        update_revokes_sessions(*row, *update) ==> row.session_version < i64::MAX,
    ensures
        r.id == row.id,
        r.username == match update.username {
            Some(n) => n,
            None => row.username,
        },
        r.password_hash == row.password_hash,
        r.role == match update.role {
            Some(x) => x,
            None => row.role,
        },
        r.role@ == edited_role(row.role@, *update),
        r.enabled == edited_enabled(row.enabled, *update),
        r.max_concurrency == if update.max_concurrency is Some {
            limits.0
        } else {
            row.max_concurrency
        },
        r.requests_per_minute == if update.requests_per_minute is Some {
            limits.1
        } else {
            row.requests_per_minute
        },
        r.session_version == if update_revokes_sessions(*row, *update) {
            row.session_version + 1
        } else {
            row.session_version as int
        },
        r.created_at == row.created_at,
        r.updated_at == later_of(now, row.updated_at),
{
    let revokes = update.enabled == Some(false) || match &update.role {
        Some(x) => !str_eq(x.as_str(), row.role.as_str()),
        None => false,
    };
    StoredUser {
        id: copy_text(&row.id),
        username: match &update.username {
            Some(n) => copy_text(n),
            None => copy_text(&row.username),
        },
        password_hash: copy_text(&row.password_hash),
        role: match &update.role {
            Some(x) => copy_text(x),
            None => copy_text(&row.role),
        },
        enabled: match update.enabled {
            Some(e) => e,
            None => row.enabled,
        },
        max_concurrency: if update.max_concurrency.is_some() {
            limits.0
        } else {
            row.max_concurrency
        },
        requests_per_minute: if update.requests_per_minute.is_some() {
            limits.1
        } else {
            row.requests_per_minute
        },
        session_version: if revokes {
            row.session_version + 1
        } else {
            row.session_version
        },
        created_at: row.created_at,
        updated_at: if now >= row.updated_at {
            now
        } else {
            row.updated_at
        },
    }
}

/// A password change commits only while the row still holds the hash that was
/// read and the account is enabled; it raises the session version.
pub fn apply_password_change(row: &StoredUser, expected_hash: &str, password_hash: &str, now: i64) -> (r:
    Option<StoredUser>)
    requires
        row.session_version < i64::MAX,
    ensures
        r is Some <==> row.password_hash@ == expected_hash@ && row.enabled,
        r matches Some(u) ==> u.password_hash@ == password_hash@ && u.session_version
            == row.session_version + 1 && u.updated_at == later_of(now, row.updated_at) && u.id
            == row.id && u.username == row.username && u.role == row.role && u.enabled
            == row.enabled && u.max_concurrency == row.max_concurrency && u.requests_per_minute
            == row.requests_per_minute && u.created_at == row.created_at,
{
    if !str_eq(row.password_hash.as_str(), expected_hash) || !row.enabled {
        return None;
    }
    Some(
        StoredUser {
            id: copy_text(&row.id),
            username: copy_text(&row.username),
            password_hash: password_hash.to_owned(),
            role: copy_text(&row.role),
            enabled: row.enabled,
            max_concurrency: row.max_concurrency,
            requests_per_minute: row.requests_per_minute,
            session_version: row.session_version + 1,
            created_at: row.created_at,
            updated_at: if now >= row.updated_at {
                now
            } else {
                row.updated_at
            },
        },
    )
}

/// An administrator's password reset, or an explicit revocation (`password_hash`
/// `None`): the session version rises by one.
pub fn apply_session_revocation(row: &StoredUser, password_hash: Option<&str>, now: i64) -> (r:
    StoredUser)
    requires
        row.session_version < i64::MAX,
    ensures
        r.password_hash@ == match password_hash {
            Some(h) => h@,
            None => row.password_hash@,
        },
        r.session_version == row.session_version + 1,
        r.updated_at == later_of(now, row.updated_at),
        r.id == row.id,
        r.username == row.username,
        r.role == row.role,
        r.enabled == row.enabled,
        r.max_concurrency == row.max_concurrency,
        r.requests_per_minute == row.requests_per_minute,
        r.created_at == row.created_at,
{
    StoredUser {
        id: copy_text(&row.id),
        username: copy_text(&row.username),
        password_hash: match password_hash {
            Some(h) => h.to_owned(),
            None => copy_text(&row.password_hash),
        },
        role: copy_text(&row.role),
        enabled: row.enabled,
        max_concurrency: row.max_concurrency,
        requests_per_minute: row.requests_per_minute,
        session_version: row.session_version + 1,
        created_at: row.created_at,
        updated_at: if now >= row.updated_at {
            now
        } else {
            row.updated_at
        },
    }
}

/// A self-service username change commits only while the account is enabled
/// and still at the session version the request was checked against.
pub fn apply_username_update(row: &StoredUser, username: &str, expected_session_version: i64, now: i64) -> (r:
    Option<StoredUser>)
    ensures
        r is Some <==> row.enabled && row.session_version == expected_session_version,
        r matches Some(u) ==> u.username@ == username@ && u.session_version == row.session_version
            && u.updated_at == later_of(now, row.updated_at) && u.id == row.id && u.password_hash
            == row.password_hash && u.role == row.role && u.enabled == row.enabled
            && u.max_concurrency == row.max_concurrency && u.requests_per_minute
            == row.requests_per_minute && u.created_at == row.created_at,
{
    if !row.enabled || row.session_version != expected_session_version {
        return None;
    }
    Some(
        StoredUser {
            id: copy_text(&row.id),
            username: username.to_owned(),
            password_hash: copy_text(&row.password_hash),
            role: copy_text(&row.role),
            enabled: row.enabled,
            max_concurrency: row.max_concurrency,
            requests_per_minute: row.requests_per_minute,
            session_version: row.session_version,
            created_at: row.created_at,
            updated_at: if now >= row.updated_at {
                now
            } else {
                row.updated_at
            },
        },
    )
}

/// The stored session lifetime overrides: both absent means none; both present
/// must be non-negative; one without the other is malformed.
pub fn session_ttl_row(admin: Option<i64>, user: Option<i64>) -> (r: Result<
    Option<(u64, u64)>,
    StoreError,
>)
    ensures
        match (admin, user) {
            (None, None) => r == Ok::<Option<(u64, u64)>, StoreError>(None),
            (Some(a), Some(u)) => if a >= 0 && u >= 0 {
                r == Ok::<Option<(u64, u64)>, StoreError>(Some((a as u64, u as u64)))
            } else {
                r == Err::<Option<(u64, u64)>, StoreError>(
                    StoreError::InvalidData {
                        entity: "auth settings",
                        message: if a < 0 {
                            "admin session TTL is invalid"
                        } else {
                            "user session TTL is invalid"
                        },
                    },
                )
            },
            _ => r == Err::<Option<(u64, u64)>, StoreError>(
                StoreError::InvalidData {
                    entity: "auth settings",
                    message: "session TTL override is incomplete",
                },
            ),
        },
{
    match (admin, user) {
        (None, None) => Ok(None),
        (Some(a), Some(u)) => {
            if a < 0 {
                return Err(
                    StoreError::InvalidData {
                        entity: "auth settings",
                        message: "admin session TTL is invalid",
                    },
                );
            }
            if u < 0 {
                return Err(
                    StoreError::InvalidData {
                        entity: "auth settings",
                        message: "user session TTL is invalid",
                    },
                );
            }
            Ok(Some((a as u64, u as u64)))
        },
        _ => Err(
            StoreError::InvalidData {
                entity: "auth settings",
                message: "session TTL override is incomplete",
            },
        ),
    }
}

/// Session lifetime overrides as stored: each must fit a signed column.
pub fn session_ttl_columns(admin_minutes: u64, user_minutes: u64) -> (r: Result<(i64, i64), StoreError>)
    ensures
        r is Ok <==> admin_minutes <= i64::MAX && user_minutes <= i64::MAX,
        r matches Ok((a, u)) ==> a == admin_minutes && u == user_minutes,
{
    if admin_minutes > i64::MAX as u64 {
        return Err(
            StoreError::InvalidData {
                entity: "auth settings",
                message: "admin session TTL is invalid",
            },
        );
    }
    if user_minutes > i64::MAX as u64 {
        return Err(
            StoreError::InvalidData {
                entity: "auth settings",
                message: "user session TTL is invalid",
            },
        );
    }
    Ok((admin_minutes as i64, user_minutes as i64))
}

pub open spec fn role_of(text: Seq<char>) -> Option<UserRole> {
    if text == "admin"@ {
        Some(UserRole::Admin)
    } else if text == "user"@ {
        Some(UserRole::User)
    } else {
        None
    }
}

pub open spec fn stored_limit(v: Option<i64>) -> Option<u64> {
    match v {
        Some(x) => Some(x as u64),
        None => None,
    }
}

/// What is wrong with a stored row read back as an account, in check order.
pub open spec fn stored_record_error(s: StoredUser) -> Option<&'static str> {
    if role_of(s.role@) is None {
        Some("stored user role is invalid")
    } else if s.max_concurrency matches Some(v) && v < 0 {
        Some("stored user max concurrency is invalid")
    } else if s.requests_per_minute matches Some(v) && v < 0 {
        Some("stored user requests per minute is invalid")
    } else if s.session_version < 0 {
        Some("stored session version is invalid")
    } else {
        None
    }
}

/// The account a well-formed stored row describes.
pub open spec fn credential_of(s: StoredUser) -> Option<UserCredentialRecord> {
    if stored_record_error(s) is Some {
        None
    } else {
        Some(
            UserCredentialRecord {
                user: UserRecord {
                    id: s.id,
                    username: s.username,
                    role: role_of(s.role@)->0,
                    enabled: s.enabled,
                    limits: UserRateLimits {
                        max_concurrency: stored_limit(s.max_concurrency),
                        requests_per_minute: stored_limit(s.requests_per_minute),
                    },
                    session_version: s.session_version as u64,
                    created_at: s.created_at,
                    updated_at: s.updated_at,
                },
                password_hash: s.password_hash,
            },
        )
    }
}

fn stored_limit_value(v: Option<i64>, message: &'static str) -> (r: Result<Option<u64>, StoreError>)
    ensures
        (v matches Some(x) && x < 0) ==> r == Err::<Option<u64>, StoreError>(
            StoreError::InvalidData { entity: "user identity", message },
        ),
        !(v matches Some(x) && x < 0) ==> r == Ok::<Option<u64>, StoreError>(stored_limit(v)),
{
    match v {
        Some(x) => if x < 0 {
            Err(StoreError::InvalidData { entity: "user identity", message })
        } else {
            Ok(Some(x as u64))
        },
        None => Ok(None),
    }
}

/// The account a stored row describes, with its password hash.
pub fn identity_user_credential(stored: StoredUser) -> (r: Result<UserCredentialRecord, StoreError>)
    ensures
        match stored_record_error(stored) {
            Some(m) => r == Err::<UserCredentialRecord, StoreError>(
                StoreError::InvalidData { entity: "user identity", message: m },
            ),
            None => r == Ok::<UserCredentialRecord, StoreError>(credential_of(stored)->0),
        },
{
    proof {
        reveal_strlit("admin");
        reveal_strlit("user");
        assert("user"@.len() != "admin"@.len());
    }
    let role = match UserRole::parse(stored.role.as_str()) {
        Some(role) => role,
        None => {
            return Err(
                StoreError::InvalidData {
                    entity: "user identity",
                    message: "stored user role is invalid",
                },
            );
        },
    };
    let max_concurrency = stored_limit_value(
        stored.max_concurrency,
        "stored user max concurrency is invalid",
    )?;
    let requests_per_minute = stored_limit_value(
        stored.requests_per_minute,
        "stored user requests per minute is invalid",
    )?;
    if stored.session_version < 0 {
        return Err(
            StoreError::InvalidData {
                entity: "user identity",
                message: "stored session version is invalid",
            },
        );
    }
    Ok(
        UserCredentialRecord {
            user: UserRecord {
                id: stored.id,
                username: stored.username,
                role,
                enabled: stored.enabled,
                limits: UserRateLimits { max_concurrency, requests_per_minute },
                session_version: stored.session_version as u64,
                created_at: stored.created_at,
                updated_at: stored.updated_at,
            },
            password_hash: stored.password_hash,
        },
    )
}

/// The account a stored row describes, without its password hash.
pub fn identity_user_record(stored: StoredUser) -> (r: Result<UserRecord, StoreError>)
    ensures
        match stored_record_error(stored) {
            Some(m) => r == Err::<UserRecord, StoreError>(
                StoreError::InvalidData { entity: "user identity", message: m },
            ),
            None => r == Ok::<UserRecord, StoreError>(credential_of(stored)->0.user),
        },
{
    let c = identity_user_credential(stored)?;
    Ok(c.user)
}

pub open spec fn saturating_i64(v: u64) -> i64 {
    if v <= i64::MAX {
        v as i64
    } else {
        i64::MAX
    }
}

pub open spec fn limit_column_of(v: Option<u64>) -> Option<i64> {
    match v {
        Some(x) => Some(saturating_i64(x)),
        None => None,
    }
}

/// The row an account is written as; values beyond the signed range are
/// stored as its largest value.
pub open spec fn is_stored_of(s: StoredUser, c: UserCredentialRecord) -> bool {
    &&& s.id == c.user.id
    &&& s.username == c.user.username
    &&& s.password_hash == c.password_hash
    &&& s.role@ == c.user.role.text()
    &&& s.enabled == c.user.enabled
    &&& s.max_concurrency == limit_column_of(c.user.limits.max_concurrency)
    &&& s.requests_per_minute == limit_column_of(c.user.limits.requests_per_minute)
    &&& s.session_version == saturating_i64(c.user.session_version)
    &&& s.created_at == c.user.created_at
    &&& s.updated_at == c.user.updated_at
}

fn saturating_column(v: u64) -> (r: i64)
    ensures
        r == saturating_i64(v),
{
    if v <= i64::MAX as u64 {
        v as i64
    } else {
        i64::MAX
    }
}

fn limit_to_column(v: Option<u64>) -> (r: Option<i64>)
    ensures
        r == limit_column_of(v),
{
    match v {
        Some(x) => Some(saturating_column(x)),
        None => None,
    }
}

/// The row an account is written as.
pub fn stored_user(user: &UserCredentialRecord) -> (r: StoredUser)
    ensures
        is_stored_of(r, *user),
{
    StoredUser {
        id: user.user.id.clone(),
        username: user.user.username.clone(),
        password_hash: user.password_hash.clone(),
        role: user.user.role.as_str().to_owned(),
        enabled: user.user.enabled,
        max_concurrency: limit_to_column(user.user.limits.max_concurrency),
        requests_per_minute: limit_to_column(user.user.limits.requests_per_minute),
        session_version: saturating_column(user.user.session_version),
        created_at: user.user.created_at,
        updated_at: user.user.updated_at,
    }
}

/// An account whose limits and session version fit the signed columns reads
/// back from its row unchanged.
pub proof fn lemma_stored_round_trip(s: StoredUser, c: UserCredentialRecord)
    requires
        is_stored_of(s, c),
        c.user.limits.max_concurrency matches Some(v) ==> v <= i64::MAX,
        c.user.limits.requests_per_minute matches Some(v) ==> v <= i64::MAX,
        c.user.session_version <= i64::MAX,
    ensures
        credential_of(s) == Some(c),
{
    reveal_strlit("admin");
    reveal_strlit("user");
    match c.user.role {
        UserRole::Admin => {
            assert(s.role@ == "admin"@);
        },
        UserRole::User => {
            assert(s.role@ == "user"@);
            assert("user"@.len() != "admin"@.len());
        },
    }
    assert(role_of(s.role@) == Some(c.user.role));
}

/// Raising a row's session version by one, as every edit that disables an
/// account or changes its role, every password change or reset and every
/// explicit revocation does, leaves no earlier account session backed by it.
pub proof fn lemma_stored_version_bump_revokes(before: StoredUser, after: StoredUser, subject: SessionSubject)
    requires
        credential_of(before) is Some,
        credential_of(after) is Some,
        after.session_version == before.session_version + 1,
        binding_of(subject) is Some,
        credential_backs(subject, credential_of(before)),
    ensures
        !credential_backs(subject, credential_of(after)),
{
    lemma_version_bump_revokes(subject, credential_of(before)->0, credential_of(after)->0);
}

/// The fields an account edit names, in audit order.
pub open spec fn changed_field_names(c: UpdateUser) -> Seq<Seq<char>> {
    let a = if c.username is Some { seq!["username"@] } else { Seq::<Seq<char>>::empty() };
    let b = if c.role is Some { seq!["role"@] } else { Seq::<Seq<char>>::empty() };
    let d = if c.enabled is Some { seq!["enabled"@] } else { Seq::<Seq<char>>::empty() };
    let e = if c.max_concurrency is Some { seq!["max_concurrency"@] } else { Seq::<Seq<char>>::empty() };
    let f = if c.requests_per_minute is Some {
        seq!["requests_per_minute"@]
    } else {
        Seq::<Seq<char>>::empty()
    };
    a + b + d + e + f
}

fn push_name(out: &mut Vec<String>, name: &str)
    ensures
        final(out)@.map_values(|s: String| s@) == old(out)@.map_values(|s: String| s@).push(name@),
{
    out.push(name.to_owned());
    assert(final(out)@.map_values(|s: String| s@) == old(out)@.map_values(|s: String| s@).push(name@));
}

/// The audited field names of an account edit.
pub fn user_update_changed_fields(command: &UpdateUser) -> (r: Vec<String>)
    ensures
        r@.map_values(|s: String| s@) == changed_field_names(*command),
{
    let mut out: Vec<String> = Vec::new();
    if command.username.is_some() {
        push_name(&mut out, "username");
    }
    if command.role.is_some() {
        push_name(&mut out, "role");
    }
    if command.enabled.is_some() {
        push_name(&mut out, "enabled");
    }
    if command.max_concurrency.is_some() {
        push_name(&mut out, "max_concurrency");
    }
    if command.requests_per_minute.is_some() {
        push_name(&mut out, "requests_per_minute");
    }
    assert(out@.map_values(|s: String| s@) == changed_field_names(*command));
    out
}

/// The stored form of an administrator's account edit.
pub fn stored_update_of(command: &UpdateUser) -> (r: StoredUserUpdate)
    ensures
        r.id == command.user_id,
        r.username == command.username,
        match command.role {
            Some(role) => r.role matches Some(x) && x@ == role.text(),
            None => r.role is None,
        },
        r.enabled == command.enabled,
        r.max_concurrency == command.max_concurrency,
        r.requests_per_minute == command.requests_per_minute,
{
    StoredUserUpdate {
        id: command.user_id.clone(),
        username: match &command.username {
            Some(u) => Some(u.clone()),
            None => None,
        },
        role: match command.role {
            Some(role) => Some(role.as_str().to_owned()),
            None => None,
        },
        enabled: command.enabled,
        max_concurrency: command.max_concurrency,
        requests_per_minute: command.requests_per_minute,
    }
}

/// The last enabled administrator is kept: when an edit of an enabled
/// administrator's row passes the check, the edited row is still an enabled
/// administrator or another enabled administrator remains.
pub proof fn lemma_edit_keeps_enabled_admin(
    row: StoredUser,
    update: StoredUserUpdate,
    other_enabled_admin: bool,
    edited: StoredUser,
)
    requires
        admin_transition_ok(row.role@, row.enabled, update, other_enabled_admin),
        row.role@ == "admin"@,
        row.enabled,
        edited.role@ == edited_role(row.role@, update),
        edited.enabled == edited_enabled(row.enabled, update),
    ensures
        (edited.role@ == "admin"@ && edited.enabled) || other_enabled_admin,
{
}

/// A provider's entry in the stored identity document: a JSON object, or any
/// other JSON value.
#[derive(Debug, Clone, PartialEq, Eq)]
pub enum StoredProfileValue {
    Object(ProviderProfile),
    NotObject,
}

/// What a stored entry reads back as: no entry or an empty object inherits
/// (`Some(None)`); a non-empty object is the profile; anything else is malformed
/// (`None`).
pub open spec fn stored_profile(v: Option<StoredProfileValue>) -> Option<Option<ProviderProfile>> {
    match v {
        None => Some(None),
        Some(StoredProfileValue::NotObject) => None,
        Some(StoredProfileValue::Object(p)) => Some(kept_profile(Some(p))),
    }
}

fn read_stored_profile(v: Option<StoredProfileValue>) -> (r: Result<Option<ProviderProfile>, StoreError>)
    ensures
        match stored_profile(v) {
            Some(p) => r == Ok::<Option<ProviderProfile>, StoreError>(p),
            None => r == Err::<Option<ProviderProfile>, StoreError>(
                StoreError::InvalidData { entity: "user key identity", message: "profile must be an object" },
            ),
        },
{
    match v {
        None => Ok(None),
        Some(StoredProfileValue::NotObject) => Err(
            StoreError::InvalidData { entity: "user key identity", message: "profile must be an object" },
        ),
        Some(StoredProfileValue::Object(p)) => Ok(keep_profile(Some(p))),
    }
}

/// An account's key identity read back from its stored document, given each
/// provider's entry: empty objects inherit, and an entry that is not an object
/// makes the document malformed (`InvalidData`).
pub fn key_identity_from_stored(openai: Option<StoredProfileValue>, xai: Option<StoredProfileValue>) -> (r:
    Result<UserKeyIdentity, StoreError>)
    ensures
        match (stored_profile(openai), stored_profile(xai)) {
            (Some(o), Some(x)) => r == Ok::<UserKeyIdentity, StoreError>(UserKeyIdentity { openai: o, xai: x }),
            _ => r == Err::<UserKeyIdentity, StoreError>(
                StoreError::InvalidData { entity: "user key identity", message: "profile must be an object" },
            ),
        },
{
    let o = read_stored_profile(openai)?;
    let x = read_stored_profile(xai)?;
    Ok(UserKeyIdentity { openai: o, xai: x })
}

} // verus!
