use gateway::auth::{
    admin_password_change, admin_user_of, check_account_session, check_new_password_differs,
    check_own_password, check_session, login_throttle, logout_audit_subject,
    password_change_actor, password_change_committed, password_change_throttle,
    public_auth_settings, session_account_id, session_expiry, session_fingerprint,
    session_lookup_id, session_rebind_committed, AuthSession, LoginError, SessionSubject,
    MICROS_PER_MINUTE,
};
use gateway::error::AdminErrorKind;
use gateway::policy::UserRateLimits;
use gateway::users::{
    enabled_account, hash_password, reset_password_hash, TurnstileSettings,
    UserCredentialRecord, UserRecord, UserRole,
};

fn account(password_hash: &str, role: UserRole, enabled: bool, version: u64) -> UserCredentialRecord {
    UserCredentialRecord {
        user: UserRecord {
            id: "user_1".to_owned(),
            username: "alice".to_owned(),
            role,
            enabled,
            limits: UserRateLimits { max_concurrency: None, requests_per_minute: None },
            session_version: version,
            created_at: 0,
            updated_at: 0,
        },
        password_hash: password_hash.to_owned(),
    }
}

fn admin_session(hash: &str, version: u64, expires_at: i64) -> AuthSession {
    AuthSession {
        subject: SessionSubject::Admin {
            admin_user_id: "user_1".to_owned(),
            credential_fingerprint: session_fingerprint(hash, version),
        },
        expires_at,
    }
}

fn key_session(expires_at: i64) -> AuthSession {
    AuthSession { subject: SessionSubject::Key { client_key_id: "key_1".to_owned() }, expires_at }
}

fn weak() -> Vec<String> {
    vec!["password1234".to_owned()]
}

#[test]
fn stored_sessions_need_time_a_backing_account_and_an_enabled_key() {
    let current = account("hash", UserRole::Admin, true, 1);
    let session = admin_session("hash", 1, 100);
    assert!(check_session(&session, 99, Some(&current), false));
    assert!(!check_session(&session, 100, Some(&current), false));
    assert!(!check_session(&session, 99, None, false));
    let bumped = account("hash", UserRole::Admin, true, 2);
    assert!(!check_session(&session, 99, Some(&bumped), false));
    assert!(check_session(&key_session(100), 99, None, true));
    assert!(!check_session(&key_session(100), 99, None, false));
}

#[test]
fn session_ids_are_looked_up_only_when_present() {
    assert_eq!(session_lookup_id(Some("abc")), Some("abc"));
    assert_eq!(session_lookup_id(Some("")), None);
    assert_eq!(session_lookup_id(None), None);
}

#[test]
fn only_admin_sessions_reach_the_administration_interface() {
    assert_eq!(admin_user_of(None), Ok(None));
    let admin = admin_session("hash", 1, 10);
    assert_eq!(admin_user_of(Some(&admin.subject)), Ok(Some("user_1".to_owned())));
    let user = SessionSubject::User { user_id: "u".to_owned(), credential_fingerprint: String::new() };
    assert_eq!(admin_user_of(Some(&user)).unwrap_err().kind, AdminErrorKind::Forbidden);
    assert_eq!(
        admin_user_of(Some(&key_session(1).subject)).unwrap_err().kind,
        AdminErrorKind::Forbidden
    );
}

#[test]
fn sessions_speak_for_their_account() {
    let user = SessionSubject::User { user_id: "u".to_owned(), credential_fingerprint: String::new() };
    assert_eq!(session_account_id(&user), Some("u"));
    assert_eq!(session_account_id(&admin_session("h", 1, 1).subject), Some("user_1"));
    assert_eq!(session_account_id(&key_session(1).subject), None);
    assert_eq!(logout_audit_subject(Some(&admin_session("h", 1, 1))), Some("user_1"));
    assert_eq!(logout_audit_subject(Some(&key_session(1))), None);
    assert_eq!(logout_audit_subject(None), None);
}

#[test]
fn throttled_logins_wait_at_least_a_second() {
    assert_eq!(login_throttle(None), Ok(()));
    assert_eq!(
        login_throttle(Some(0)),
        Err(LoginError::TooManyAttempts { retry_after_seconds: 1 })
    );
    assert_eq!(
        login_throttle(Some(30)),
        Err(LoginError::TooManyAttempts { retry_after_seconds: 30 })
    );
}

#[test]
fn session_expiry_adds_the_lifetime_in_microseconds() {
    assert_eq!(MICROS_PER_MINUTE, 60_000_000);
    assert_eq!(session_expiry(1_000, 2), 1_000 + 120_000_000);
    assert_eq!(session_expiry(0, 0), 0);
}

#[test]
fn public_settings_hide_the_secret() {
    let on = TurnstileSettings::new(true, Some("site".to_owned()), Some("secret".to_owned()));
    let public = public_auth_settings(&on);
    assert!(public.turnstile_enabled);
    assert_eq!(public.turnstile_site_key, Some("site".to_owned()));
    let off = public_auth_settings(&TurnstileSettings::disabled());
    assert!(!off.turnstile_enabled);
    assert_eq!(off.turnstile_site_key, None);
}

#[test]
fn password_changes_are_made_by_admin_sessions() {
    assert_eq!(password_change_actor(None).unwrap_err().kind, AdminErrorKind::Unauthorized);
    let session = admin_session("hash", 3, 1);
    assert_eq!(
        password_change_actor(Some(&session)),
        Ok(("user_1".to_owned(), session_fingerprint("hash", 3)))
    );
    assert_eq!(
        password_change_actor(Some(&key_session(1))).unwrap_err().kind,
        AdminErrorKind::Forbidden
    );
    assert_eq!(password_change_throttle(false), Ok(()));
    assert_eq!(password_change_throttle(true).unwrap_err().kind, AdminErrorKind::RateLimited);
    assert_eq!(password_change_committed(true), Ok(()));
    assert_eq!(password_change_committed(false).unwrap_err().kind, AdminErrorKind::Conflict);
    assert_eq!(session_rebind_committed(true), Ok(()));
    assert_eq!(session_rebind_committed(false).unwrap_err().kind, AdminErrorKind::Unauthorized);
}

#[test]
fn admin_password_change_checks_session_password_and_novelty() {
    let hash = hash_password("correct horse battery", &weak()).expect("hash");
    let current = account(&hash, UserRole::Admin, true, 1);
    let fingerprint = session_fingerprint(&hash, 1);
    let new_hash =
        admin_password_change(Some(&current), &fingerprint, "correct horse battery", "new staple battery")
            .expect("changed");
    assert!(new_hash.starts_with("$argon2"));
    assert_eq!(
        admin_password_change(None, &fingerprint, "correct horse battery", "x").unwrap_err().kind,
        AdminErrorKind::Conflict
    );
    let stale = session_fingerprint(&hash, 0);
    assert_eq!(
        admin_password_change(Some(&current), &stale, "correct horse battery", "new staple battery")
            .unwrap_err()
            .kind,
        AdminErrorKind::Conflict
    );
    assert_eq!(
        admin_password_change(Some(&current), &fingerprint, "wrong horse battery", "new staple battery")
            .unwrap_err()
            .kind,
        AdminErrorKind::Invalid
    );
    assert_eq!(
        admin_password_change(Some(&current), &fingerprint, "correct horse battery", "correct horse battery")
            .unwrap_err()
            .kind,
        AdminErrorKind::Invalid
    );
    let broken = account("not-a-phc-string", UserRole::Admin, true, 1);
    let broken_fingerprint = session_fingerprint("not-a-phc-string", 1);
    assert_eq!(
        admin_password_change(Some(&broken), &broken_fingerprint, "anything", "else")
            .unwrap_err()
            .kind,
        AdminErrorKind::Internal
    );
}

#[test]
fn self_service_needs_the_current_password_of_an_enabled_account() {
    let hash = hash_password("correct horse battery", &weak()).expect("hash");
    let current = account(&hash, UserRole::User, true, 1);
    assert_eq!(check_own_password(&current, "correct horse battery"), Ok(()));
    assert_eq!(
        check_own_password(&current, "wrong horse battery").unwrap_err().kind,
        AdminErrorKind::Unauthorized
    );
    let disabled = account(&hash, UserRole::User, false, 1);
    assert_eq!(
        check_own_password(&disabled, "correct horse battery").unwrap_err().kind,
        AdminErrorKind::Unauthorized
    );
    let broken = account("plain", UserRole::User, true, 1);
    assert_eq!(check_own_password(&broken, "x").unwrap_err().kind, AdminErrorKind::Internal);
    assert_eq!(check_new_password_differs("a", "b"), Ok(()));
    assert_eq!(check_new_password_differs("a", "a").unwrap_err().kind, AdminErrorKind::Invalid);
}

#[test]
fn account_sessions_must_be_live_and_current() {
    let current = account("hash", UserRole::User, true, 4);
    let live = AuthSession {
        subject: SessionSubject::User {
            user_id: "user_1".to_owned(),
            credential_fingerprint: session_fingerprint("hash", 4),
        },
        expires_at: 50,
    };
    assert_eq!(check_account_session(Some(&live), &current, 49), Ok(()));
    assert_eq!(
        check_account_session(Some(&live), &current, 50).unwrap_err().kind,
        AdminErrorKind::Unauthorized
    );
    assert_eq!(check_account_session(None, &current, 0).unwrap_err().kind, AdminErrorKind::Unauthorized);
    let other_version = account("hash", UserRole::User, true, 5);
    assert_eq!(
        check_account_session(Some(&live), &other_version, 0).unwrap_err().kind,
        AdminErrorKind::Unauthorized
    );
    assert_eq!(
        check_account_session(Some(&key_session(50)), &current, 0).unwrap_err().kind,
        AdminErrorKind::Unauthorized
    );
}

#[test]
fn password_resets_and_enabled_accounts() {
    let old_hash = hash_password("correct horse battery", &weak()).expect("hash");
    let current = account(&old_hash, UserRole::User, true, 1);
    let hash = reset_password_hash(&current, "brand new secret", &weak()).expect("reset");
    assert!(hash.starts_with("$argon2"));
    assert_eq!(
        reset_password_hash(&current, "password1234", &weak()).unwrap_err().kind,
        AdminErrorKind::Invalid
    );
    assert_eq!(
        reset_password_hash(&current, "correct horse battery", &weak()).unwrap_err().kind,
        AdminErrorKind::Invalid
    );
    let broken = account("old", UserRole::User, true, 1);
    assert_eq!(
        reset_password_hash(&broken, "brand new secret", &weak()).unwrap_err().kind,
        AdminErrorKind::Internal
    );
    assert_eq!(enabled_account(&current).map(|u| u.id), Ok("user_1".to_owned()));
    let disabled = account("old", UserRole::User, false, 1);
    assert!(enabled_account(&disabled).is_err());
}
