use gateway::auth::{
    admin_api_key_matches, authenticate_credential, credential_backs_session, login_protection,
    login_ttl_minutes, login_username, new_session_token, password_fingerprint, rebind_session,
    session_fingerprint, session_fingerprint_matches, session_ttl_minutes, siteverify_answer,
    stored_session_ok,
    turnstile_outcome, valid_admin_api_key_shape, AuthSession, LoginError, SessionSubject,
    TurnstileClientError, TurnstileVerifyError,
};
use gateway::error::AdminErrorKind;
use gateway::policy::UserRateLimits;
use gateway::users::{
    hash_password, verify_password, SessionTtlSettings, TurnstileSettings, UserCredentialRecord,
    UserRecord, UserRole, MAX_SESSION_TTL_MINUTES,
};

const STORED_HASH: &str = "$argon2id$v=19$m=19456,t=2,p=1$c2FsdA$aGFzaA";

fn credential(password_hash: String, role: UserRole, enabled: bool, version: u64) -> UserCredentialRecord {
    UserCredentialRecord {
        user: UserRecord {
            id: "user_1".to_owned(),
            username: "alice".to_owned(),
            role,
            enabled,
            limits: UserRateLimits { max_concurrency: None, requests_per_minute: None },
            session_version: version,
            created_at: 0,
            updated_at: 0,
        },
        password_hash,
    }
}

#[test]
fn fingerprint_is_base64url_sha256_of_the_hash_then_the_version() {
    assert_eq!(password_fingerprint(STORED_HASH), "3Q6DAyXROMphmiKqKHFK-CuIIsE_IiemyiSWHdklJ7I");
    assert_eq!(password_fingerprint(""), "47DEQpj8HBSa-_TImW-5JCeuQeRkm5NMpJWZG3hSuFU");
    assert_eq!(
        session_fingerprint(STORED_HASH, 7),
        "3Q6DAyXROMphmiKqKHFK-CuIIsE_IiemyiSWHdklJ7I:7"
    );
    assert!(session_fingerprint_matches(
        "3Q6DAyXROMphmiKqKHFK-CuIIsE_IiemyiSWHdklJ7I:7",
        STORED_HASH,
        7
    ));
    assert!(!session_fingerprint_matches(&session_fingerprint(STORED_HASH, 7), STORED_HASH, 8));
}

#[test]
fn session_version_bump_revokes_earlier_sessions() {
    let subject = SessionSubject::User {
        user_id: "user_1".to_owned(),
        credential_fingerprint: session_fingerprint(STORED_HASH, 3),
    };
    let current = credential(STORED_HASH.to_owned(), UserRole::User, true, 3);
    assert!(credential_backs_session(&subject, Some(&current)));
    let bumped = credential(STORED_HASH.to_owned(), UserRole::User, true, 4);
    assert!(!credential_backs_session(&subject, Some(&bumped)));
    let promoted = credential(STORED_HASH.to_owned(), UserRole::Admin, true, 3);
    assert!(!credential_backs_session(&subject, Some(&promoted)));
    let disabled = credential(STORED_HASH.to_owned(), UserRole::User, false, 3);
    assert!(!credential_backs_session(&subject, Some(&disabled)));
    assert!(!credential_backs_session(&subject, None));
}

#[test]
fn login_checks_the_password_and_binds_the_session_to_the_credential() {
    let weak: Vec<String> = vec!["password1234".to_owned()];
    let hash = hash_password("correct horse battery", &weak).expect("hash");
    assert_eq!(verify_password("correct horse battery", &hash), Ok(true));
    assert_eq!(verify_password("wrong horse battery", &hash), Ok(false));
    assert_eq!(hash_password("password1234", &weak).unwrap_err().kind, AdminErrorKind::Invalid);
    assert_eq!(hash_password("short", &weak).unwrap_err().kind, AdminErrorKind::Invalid);

    let admin = credential(hash.clone(), UserRole::Admin, true, 2);
    match authenticate_credential(Some(&admin), "correct horse battery") {
        Ok(SessionSubject::Admin { admin_user_id, credential_fingerprint }) => {
            assert_eq!(admin_user_id, "user_1");
            assert_eq!(credential_fingerprint, session_fingerprint(&hash, 2));
        }
        other => panic!("unexpected login result: {other:?}"),
    }
    assert_eq!(
        authenticate_credential(Some(&admin), "wrong horse battery"),
        Err(LoginError::InvalidCredentials)
    );
    let disabled = credential(hash.clone(), UserRole::Admin, false, 2);
    assert_eq!(
        authenticate_credential(Some(&disabled), "correct horse battery"),
        Err(LoginError::InvalidCredentials)
    );
    assert_eq!(authenticate_credential(None, "anything"), Err(LoginError::InvalidCredentials));
    let broken = credential("not a phc string".to_owned(), UserRole::User, true, 0);
    assert_eq!(authenticate_credential(Some(&broken), "anything"), Err(LoginError::Unavailable));
    let huge = "x".repeat(4097);
    assert_eq!(authenticate_credential(Some(&admin), &huge), Err(LoginError::InvalidCredentials));
}

#[test]
fn rebound_session_keeps_expiry_and_follows_the_new_credential() {
    let session = AuthSession {
        subject: SessionSubject::Admin {
            admin_user_id: "user_1".to_owned(),
            credential_fingerprint: session_fingerprint(STORED_HASH, 1),
        },
        expires_at: 42,
    };
    let rebound = rebind_session(&session, "new-hash", 2).expect("rebound");
    assert_eq!(rebound.expires_at, 42);
    assert_eq!(
        rebound.subject,
        SessionSubject::Admin {
            admin_user_id: "user_1".to_owned(),
            credential_fingerprint: session_fingerprint("new-hash", 2),
        }
    );
    let key = AuthSession { subject: SessionSubject::Key { client_key_id: "key_1".to_owned() }, expires_at: 42 };
    assert_eq!(rebind_session(&key, "new-hash", 2).unwrap_err().kind, AdminErrorKind::Unauthorized);
}

#[test]
fn login_protection_needs_complete_settings_and_a_token() {
    let off = TurnstileSettings::disabled();
    assert!(matches!(login_protection(&off, None), Ok(None)));
    let on = TurnstileSettings::new(true, Some("site".to_owned()), Some("secret".to_owned()));
    match login_protection(&on, Some("  token  ")) {
        Ok(Some(challenge)) => {
            assert_eq!(challenge.secret, "secret");
            assert_eq!(challenge.token, "token");
        }
        _ => panic!("expected a challenge"),
    }
    assert!(matches!(login_protection(&on, Some("   ")), Err(LoginError::InvalidCredentials)));
    assert!(matches!(login_protection(&on, None), Err(LoginError::InvalidCredentials)));
    let no_secret = TurnstileSettings::new(true, Some("site".to_owned()), None);
    assert!(matches!(login_protection(&no_secret, Some("t")), Err(LoginError::Unavailable)));
    let empty_site = TurnstileSettings::new(true, Some(String::new()), Some("secret".to_owned()));
    assert!(matches!(login_protection(&empty_site, Some("t")), Err(LoginError::Unavailable)));
}

#[test]
fn verification_answers_map_to_login_outcomes() {
    assert_eq!(siteverify_answer(true, Some(true)), Ok(true));
    assert_eq!(siteverify_answer(true, Some(false)), Ok(false));
    assert_eq!(siteverify_answer(false, Some(true)), Err(TurnstileVerifyError::Unavailable));
    assert_eq!(siteverify_answer(true, None), Err(TurnstileVerifyError::Unavailable));
    assert_eq!(turnstile_outcome(Ok(true)), Ok(()));
    assert_eq!(turnstile_outcome(Ok(false)), Err(LoginError::InvalidCredentials));
    assert_eq!(
        turnstile_outcome(Err(TurnstileVerifyError::Unavailable)),
        Err(LoginError::Unavailable)
    );
    assert_eq!(TurnstileClientError.message(), "failed to initialize Turnstile HTTP client");
}

#[test]
fn login_username_is_trimmed_or_defaults_to_the_admin() {
    assert_eq!(login_username(Some("  alice "), "user_admin"), Ok("alice".to_owned()));
    assert_eq!(login_username(Some("   "), "user_admin"), Err(LoginError::InvalidCredentials));
    assert_eq!(login_username(None, "user_admin"), Ok("user_admin".to_owned()));
}

#[test]
fn session_lifetimes_are_clamped_to_a_minute_and_366_days() {
    assert_eq!(session_ttl_minutes(0), 1);
    assert_eq!(session_ttl_minutes(90), 90);
    assert_eq!(session_ttl_minutes(u64::MAX), MAX_SESSION_TTL_MINUTES);
    assert_eq!(MAX_SESSION_TTL_MINUTES, 366 * 24 * 60);
    let admin = SessionSubject::Admin { admin_user_id: "a".to_owned(), credential_fingerprint: "f".to_owned() };
    let user = SessionSubject::User { user_id: "u".to_owned(), credential_fingerprint: "f".to_owned() };
    let configured = SessionTtlSettings { admin_minutes: 30, user_minutes: 600 };
    let overrides = SessionTtlSettings { admin_minutes: 5, user_minutes: u64::MAX };
    assert_eq!(login_ttl_minutes(&admin, None, configured), Ok(30));
    assert_eq!(login_ttl_minutes(&user, Some(overrides), configured), Ok(MAX_SESSION_TTL_MINUTES));
    assert_eq!(login_ttl_minutes(&admin, Some(overrides), configured), Ok(5));
    let key = SessionSubject::Key { client_key_id: "k".to_owned() };
    assert_eq!(login_ttl_minutes(&key, None, configured), Err(LoginError::Unavailable));
}

#[test]
fn session_tokens_are_prefixed_url_safe_and_fresh() {
    let a = new_session_token().expect("token");
    let b = new_session_token().expect("token");
    assert_eq!(a.len(), 51);
    assert!(a.starts_with("session_"));
    assert!(a[8..].chars().all(|c| c.is_ascii_alphanumeric() || c == '-' || c == '_'));
    assert_ne!(a, b);
}

#[test]
fn admin_api_keys_have_a_fixed_shape_and_must_match_exactly() {
    let key = format!("admin-{}", "a1".repeat(32));
    assert!(valid_admin_api_key_shape(&key));
    assert!(!valid_admin_api_key_shape("admin-xyz"));
    assert!(!valid_admin_api_key_shape(&format!("admin_{}", "a1".repeat(32))));
    assert!(!valid_admin_api_key_shape(&format!("admin-{}", "g1".repeat(32))));
    assert!(admin_api_key_matches(&key, Some(&key)));
    assert!(!admin_api_key_matches(&key, Some(&format!("admin-{}", "b1".repeat(32)))));
    assert!(!admin_api_key_matches(&key, None));
    assert!(!admin_api_key_matches("admin-short", Some("admin-short")));
}

#[test]
fn stored_key_sessions_must_name_a_valid_key() {
    let key = AuthSession { subject: SessionSubject::Key { client_key_id: "key_1".to_owned() }, expires_at: 1 };
    assert_eq!(stored_session_ok(&key), Ok(()));
    let bad = AuthSession { subject: SessionSubject::Key { client_key_id: String::new() }, expires_at: 1 };
    assert_eq!(stored_session_ok(&bad).unwrap_err().kind, AdminErrorKind::Invalid);
    let user = AuthSession {
        subject: SessionSubject::User { user_id: "u".to_owned(), credential_fingerprint: String::new() },
        expires_at: 1,
    };
    assert_eq!(stored_session_ok(&user), Ok(()));
}

#[test]
fn session_tokens_and_key_plaintexts_encode_the_bytes_drawn() {
    let zeros = [0u8; 32];
    assert_eq!(
        gateway::auth::session_token_from(&zeros),
        "session_AAAAAAAAAAAAAAAAAAAAAAAAAAAAAAAAAAAAAAAAAAA"
    );
    let mut bytes = [0u8; 32];
    bytes[0] = 0xff;
    assert_eq!(
        gateway::client_keys::key_plaintext_from(&bytes),
        "sk__wAAAAAAAAAAAAAAAAAAAAAAAAAAAAAAAAAAAAAAAAA"
    );
}

#[test]
fn identifiers_are_the_version_7_uuid_of_the_time_and_bytes() {
    let random = [0xffu8; 10];
    let id = gateway::users::prefixed_id_from("sub_", 0x0123_4567_89ab, &random);
    assert_eq!(id, "sub_0123456789ab7fffbfffffffffffffff");
    let other = gateway::users::prefixed_id_from("sub_", 0x0123_4567_89ac, &random);
    assert!(other > id);
}
