use gateway::error::AdminErrorKind;
use gateway::identity::{key_identity_from_stored, StoreError, StoredProfileValue};
use gateway::policy::UserRateLimits;
use gateway::users::{
    check_user_delete, check_user_update, create_user_record, default_session_ttl,
    merge_turnstile_settings, next_session_version, validate_password, validate_session_ttl,
    validate_username, verify_password, CreateUser, SessionTtlSettings, TurnstileSettings,
    ProviderProfile, UpdateUser, UserKeyIdentity, UserRecord, UserRole, MAX_SESSION_TTL_MINUTES,
};

fn account(id: &str, role: UserRole, enabled: bool) -> UserRecord {
    UserRecord {
        id: id.to_owned(),
        username: id.to_owned(),
        role,
        enabled,
        limits: UserRateLimits { max_concurrency: None, requests_per_minute: None },
        session_version: 1,
        created_at: 0,
        updated_at: 0,
    }
}

fn edit(user_id: &str) -> UpdateUser {
    UpdateUser {
        user_id: user_id.to_owned(),
        username: None,
        role: None,
        enabled: None,
        max_concurrency: None,
        requests_per_minute: None,
    }
}

#[test]
fn usernames_and_passwords_follow_their_rules() {
    assert!(validate_username("alice").is_ok());
    assert!(validate_username(" alice").is_err());
    assert!(validate_username("").is_err());
    assert!(validate_username(&"a".repeat(129)).is_err());
    let weak = vec!["letmein12345".to_owned()];
    assert!(validate_password("a long enough secret", &weak).is_ok());
    assert!(validate_password("  LetMeIn12345  ", &weak).is_err());
    assert!(validate_password("elevenchars", &weak).is_err());
    assert!(validate_password(&"p".repeat(1025), &weak).is_err());
    assert!(validate_password("tab\tinside password", &weak).is_err());
}

#[test]
fn administrators_create_only_ordinary_accounts() {
    let weak: Vec<String> = Vec::new();
    let admin = CreateUser {
        username: "root".to_owned(),
        password: "a long enough secret".to_owned(),
        role: UserRole::Admin,
        enabled: true,
    };
    assert_eq!(create_user_record(&admin, &weak, 5).err().map(|e| e.kind), Some(AdminErrorKind::Forbidden));
    let user = CreateUser { role: UserRole::User, ..admin.clone() };
    let created = create_user_record(&user, &weak, 5).ok().expect("created");
    assert!(created.user.id.starts_with("user_"));
    assert_eq!(created.user.id.len(), 37);
    assert_eq!(created.user.role, UserRole::User);
    assert_eq!(created.user.limits, UserRateLimits { max_concurrency: Some(0), requests_per_minute: Some(0) });
    assert_eq!(created.user.session_version, 1);
    assert_eq!(verify_password("a long enough secret", &created.password_hash), Ok(true));
    let bad_name = CreateUser { username: "bad name ".to_owned(), ..user };
    assert_eq!(create_user_record(&bad_name, &weak, 5).err().map(|e| e.kind), Some(AdminErrorKind::Invalid));
}

#[test]
fn at_least_one_enabled_administrator_remains() {
    let only = account("admin_1", UserRole::Admin, true);
    let users = vec![only.clone(), account("user_1", UserRole::User, true)];
    let demote = UpdateUser { role: Some(UserRole::User), ..edit("admin_1") };
    assert_eq!(check_user_update(&only, &demote, &users).unwrap_err().kind, AdminErrorKind::Forbidden);
    let mut with_other = users.clone();
    with_other.push(account("admin_2", UserRole::Admin, true));
    assert_eq!(check_user_update(&only, &demote, &with_other), Ok(()));
    let rename = UpdateUser { username: Some(" x".to_owned()), ..edit("admin_1") };
    assert_eq!(check_user_update(&only, &rename, &with_other).unwrap_err().kind, AdminErrorKind::Invalid);
    assert_eq!(check_user_delete(Some("admin_1"), &only, &with_other).unwrap_err().kind, AdminErrorKind::Forbidden);
    assert_eq!(check_user_delete(Some("admin_2"), &only, &users).unwrap_err().kind, AdminErrorKind::Forbidden);
    assert_eq!(check_user_delete(Some("admin_2"), &only, &with_other), Ok(()));
    assert_eq!(check_user_delete(None, &account("user_1", UserRole::User, true), &users), Ok(()));
}

#[test]
fn session_lifetime_settings_and_versions_stay_in_range() {
    assert!(validate_session_ttl(SessionTtlSettings { admin_minutes: 1, user_minutes: MAX_SESSION_TTL_MINUTES }).is_ok());
    assert!(validate_session_ttl(SessionTtlSettings { admin_minutes: 0, user_minutes: 5 }).is_err());
    assert_eq!(default_session_ttl(0, u64::MAX), SessionTtlSettings { admin_minutes: 1, user_minutes: MAX_SESSION_TTL_MINUTES });
    assert_eq!(next_session_version(1), Ok(2));
    assert_eq!(next_session_version(u64::MAX).unwrap_err().kind, AdminErrorKind::Unavailable);
}

#[test]
fn turnstile_settings_keep_omitted_keys_and_need_both_to_enable() {
    let current = TurnstileSettings::new(false, Some("site".to_owned()), Some("secret".to_owned()));
    let enabled = merge_turnstile_settings(&current, true, None, None).ok().expect("valid");
    assert!(enabled.is_enabled());
    assert_eq!(enabled.public_site_key(), Some("site"));
    assert_eq!(enabled.secret_for_verification(), Some("secret"));
    let cleared = merge_turnstile_settings(&current, false, Some("  ".to_owned()), None).ok().expect("valid");
    assert_eq!(cleared.public_site_key(), None);
    assert!(cleared.has_secret());
    assert_eq!(
        merge_turnstile_settings(&current, true, Some(" ".to_owned()), None).err().map(|e| e.kind),
        Some(AdminErrorKind::Invalid)
    );
    let trimmed = merge_turnstile_settings(&current, true, Some(" new-site ".to_owned()), None).ok().expect("valid");
    assert_eq!(trimmed.public_site_key(), Some("new-site"));
}

fn profile(members: &[(&str, &str)]) -> ProviderProfile {
    ProviderProfile {
        members: members.iter().map(|(k, v)| ((*k).to_owned(), (*v).to_owned())).collect(),
    }
}

#[test]
fn empty_provider_profiles_are_dropped_from_an_account_identity() {
    let identity = UserKeyIdentity { openai: Some(profile(&[])), xai: Some(profile(&[("a", "1")])) };
    assert_eq!(
        identity.without_empty_profiles(),
        UserKeyIdentity { openai: None, xai: Some(profile(&[("a", "1")])) }
    );
    assert_eq!(UserKeyIdentity::default().without_empty_profiles(), UserKeyIdentity::default());
}

#[test]
fn stored_identity_reads_empty_objects_as_inherited_and_refuses_non_objects() {
    assert_eq!(
        key_identity_from_stored(Some(StoredProfileValue::Object(profile(&[]))), None),
        Ok(UserKeyIdentity::default())
    );
    let p = profile(&[("headers", "{\"x\":\"y\"}")]);
    assert_eq!(
        key_identity_from_stored(Some(StoredProfileValue::Object(p.clone())), None),
        Ok(UserKeyIdentity { openai: Some(p), xai: None })
    );
    assert_eq!(
        key_identity_from_stored(None, Some(StoredProfileValue::NotObject)),
        Err(StoreError::InvalidData {
            entity: "user key identity",
            message: "profile must be an object",
        })
    );
}
