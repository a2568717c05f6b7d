//! The order of an administrator's password change: the session it is made
//! from, the attempt limiter, the new password's rules, the account as stored,
//! the current password, and the store's compare-and-set of the hash. Once the
//! hash is replaced, the session version in the fingerprint no longer matches,
//! so every earlier session is revoked without deleting any.

use vstd::prelude::*;
use vstd::utf8::encode_utf8;

use crate::auth::{
    admin_password_change, credential_current,
    AuthSession, SessionSubject, MAX_LOGIN_PASSWORD_BYTES,
};
use crate::crypto::{argon2_accepts, phc_hash_parses};
use crate::error::{store_unavailable, AdminError, AdminErrorKind, StoreOutage};
use crate::users::{
    password_ok, validate_password, weak_texts, UserCredentialRecord, UserRole,
};

verus! {

/// What a password change was given.
pub struct PasswordChangeInput {
    pub current_password: String,
    pub new_password: String,
    pub weak_passwords: Vec<String>,
}

/// Which answer a password change waits for.
#[derive(Debug, PartialEq, Eq)]
pub enum PasswordStage {
    Start,
    /// The limiter was asked; the administrator and the session's fingerprint.
    Limiting(String, String),
    LoadingCredential(String, String),
    /// The store was asked to replace the hash.
    Replacing,
    Done,
}

/// The answer to the last action; `Err` is a store outage, which ends the change
/// as unavailable.
pub enum PasswordEvent {
    /// The session the change is made from, as the session lookup gave it.
    Begin(Option<AuthSession>),
    AttemptChecked(Result<bool, StoreOutage>),
    CredentialLoaded(Result<Option<UserCredentialRecord>, StoreOutage>),
    /// Whether the stored hash was still the one read and was replaced.
    Replaced(Result<bool, StoreOutage>),
}

/// What the caller does next. It carries password hashes, so it has no
/// `Debug` form.
pub enum PasswordAction {
    CheckAttempt,
    LoadCredential(String),
    /// Replace `old_hash` by `new_hash` for `user_id`, with the audit event
    /// `admin.password_changed` naming the field `password`.
    ReplaceHash { user_id: String, old_hash: String, new_hash: String },
    Finish(Result<(), AdminError>),
}

pub open spec fn password_ends(r: (PasswordStage, PasswordAction), result: Result<(), AdminError>) -> bool {
    r == (PasswordStage::Done, PasswordAction::Finish(result))
}

/// The change ends with an error of `kind` and `message`.
pub open spec fn password_fails(r: (PasswordStage, PasswordAction), kind: AdminErrorKind, message: &'static str) -> bool {
    r.0 == PasswordStage::Done && (r.1 matches PasswordAction::Finish(Err(e)) && e.kind == kind
        && e.message == message)
}

fn done(result: Result<(), AdminError>) -> (r: (PasswordStage, PasswordAction))
    ensures
        password_ends(r, result),
{
    (PasswordStage::Done, PasswordAction::Finish(result))
}

/// One step of a password change: from where it stands and the answer to its
/// last action, where it stands next and what to do. An answer that does not
/// belong to the stage ends the change as unauthorized.
pub fn password_step(input: &PasswordChangeInput, stage: PasswordStage, event: PasswordEvent) -> (r: (
    PasswordStage,
    PasswordAction,
))
    ensures
        match (stage, event) {
            (PasswordStage::Start, PasswordEvent::Begin(session)) => match session {
                None => password_fails(r, AdminErrorKind::Unauthorized, "请先登录"),
                Some(s) => match s.subject {
                    SessionSubject::Admin { admin_user_id, credential_fingerprint } => r == (
                        PasswordStage::Limiting(admin_user_id, credential_fingerprint),
                        PasswordAction::CheckAttempt,
                    ),
                    _ => password_fails(r, AdminErrorKind::Forbidden, "仅管理员可以修改密码"),
                },
            },
            (PasswordStage::Limiting(id, fingerprint), PasswordEvent::AttemptChecked(answer)) => match answer {
                Err(_) => password_fails(r, AdminErrorKind::Unavailable, "password change limit"),
                Ok(true) => password_fails(r, AdminErrorKind::RateLimited, "尝试过于频繁，请稍后再试"),
                Ok(false) => if password_ok(input.new_password@, weak_texts(input.weak_passwords@)) {
                    r == (PasswordStage::LoadingCredential(id, fingerprint), PasswordAction::LoadCredential(id))
                } else {
                    password_fails(
                        r,
                        AdminErrorKind::Invalid,
                        "密码至少需要 12 个字符，最多 1024 字节，不能使用常见弱口令或控制字符",
                    )
                },
            },
            (PasswordStage::LoadingCredential(id, fingerprint), PasswordEvent::CredentialLoaded(answer)) => match answer {
                Err(_) => password_fails(r, AdminErrorKind::Unavailable, "administrator"),
                Ok(None) => password_fails(r, AdminErrorKind::Conflict, "密码已变更，请重新登录"),
                Ok(Some(c)) => if !credential_current(c, UserRole::Admin, fingerprint@) {
                    password_fails(r, AdminErrorKind::Conflict, "密码已变更，请重新登录")
                } else if encode_utf8(input.current_password@).len() > MAX_LOGIN_PASSWORD_BYTES {
                    password_fails(r, AdminErrorKind::Invalid, "当前密码不正确")
                } else if !phc_hash_parses(c.password_hash@) {
                    password_fails(r, AdminErrorKind::Internal, "已保存的密码哈希不合法")
                } else if !argon2_accepts(encode_utf8(input.current_password@), c.password_hash@) {
                    password_fails(r, AdminErrorKind::Invalid, "当前密码不正确")
                } else if input.new_password@ == input.current_password@ {
                    password_fails(r, AdminErrorKind::Invalid, "新密码不能与当前密码相同")
                } else {
                    password_fails(r, AdminErrorKind::Internal, "管理员密码哈希失败") || (r.0
                        == PasswordStage::Replacing && (r.1 matches PasswordAction::ReplaceHash {
                        user_id,
                        old_hash,
                        new_hash,
                    } && user_id == id && old_hash == c.password_hash && phc_hash_parses(new_hash@)
                        && argon2_accepts(encode_utf8(input.new_password@), new_hash@)))
                },
            },
            (PasswordStage::Replacing, PasswordEvent::Replaced(answer)) => match answer {
                Err(_) => password_fails(r, AdminErrorKind::Unavailable, "administrator password"),
                Ok(true) => password_ends(r, Ok(())),
                Ok(false) => password_fails(r, AdminErrorKind::Conflict, "密码已变更，请重新登录"),
            },
            _ => password_fails(r, AdminErrorKind::Unauthorized, "请先登录"),
        },
{
    match (stage, event) {
        (PasswordStage::Start, PasswordEvent::Begin(session)) => match session {
            None => done(Err(AdminError::new(AdminErrorKind::Unauthorized, "请先登录"))),
            Some(s) => match s.subject {
                SessionSubject::Admin { admin_user_id, credential_fingerprint } => (
                    PasswordStage::Limiting(admin_user_id, credential_fingerprint),
                    PasswordAction::CheckAttempt,
                ),
                _ => done(Err(AdminError::new(AdminErrorKind::Forbidden, "仅管理员可以修改密码"))),
            },
        },
        (PasswordStage::Limiting(id, fingerprint), PasswordEvent::AttemptChecked(answer)) => match answer {
            Err(_) => done(Err(store_unavailable("password change limit"))),
            Ok(true) => done(Err(AdminError::new(AdminErrorKind::RateLimited, "尝试过于频繁，请稍后再试"))),
            Ok(false) => match {
                proof {
                    assert(weak_texts(input.weak_passwords@) =~= input.weak_passwords@.map_values(|w: String| w@));
                }
                validate_password(input.new_password.as_str(), &input.weak_passwords)
            } {
                Err(e) => done(Err(e)),
                Ok(()) => {
                    let target = id.clone();
                    (PasswordStage::LoadingCredential(id, fingerprint), PasswordAction::LoadCredential(target))
                },
            },
        },
        (PasswordStage::LoadingCredential(id, fingerprint), PasswordEvent::CredentialLoaded(answer)) => match answer {
            Err(_) => done(Err(store_unavailable("administrator"))),
            Ok(credential) => match admin_password_change(
                credential.as_ref(),
                fingerprint.as_str(),
                input.current_password.as_str(),
                input.new_password.as_str(),
            ) {
                Err(e) => done(Err(e)),
                Ok(new_hash) => {
                    let old_hash = match &credential {
                        Some(c) => c.password_hash.clone(),
                        None => String::new(),
                    };
                    (PasswordStage::Replacing, PasswordAction::ReplaceHash { user_id: id, old_hash, new_hash })
                },
            },
        },
        (PasswordStage::Replacing, PasswordEvent::Replaced(answer)) => match answer {
            Err(_) => done(Err(store_unavailable("administrator password"))),
            Ok(true) => done(Ok(())),
            Ok(false) => done(Err(AdminError::conflict("密码已变更，请重新登录"))),
        },
        _ => done(Err(AdminError::new(AdminErrorKind::Unauthorized, "请先登录"))),
    }
}

} // verus!
