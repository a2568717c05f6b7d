use gateway::auth::{session_fingerprint, LoginError, SessionSubject, MICROS_PER_MINUTE};
use gateway::login_flow::{login_step, LoginAction, LoginEvent, LoginInput, LoginStage};
use gateway::policy::UserRateLimits;
use gateway::users::{
    hash_password, SessionTtlSettings, TurnstileSettings, UserCredentialRecord, UserRecord, UserRole,
};

fn input(previous: Option<&str>) -> LoginInput {
    LoginInput {
        username: Some("  alice ".to_owned()),
        password: "correct horse battery".to_owned(),
        protection_token: None,
        previous_session_id: previous.map(str::to_owned),
        default_admin_user_id: "user_admin".to_owned(),
        configured_ttl: SessionTtlSettings::new(60, 30),
    }
}

fn account(hash: &str) -> UserCredentialRecord {
    UserCredentialRecord {
        user: UserRecord {
            id: "user_1".to_owned(),
            username: "alice".to_owned(),
            role: UserRole::User,
            enabled: true,
            limits: UserRateLimits { max_concurrency: None, requests_per_minute: None },
            session_version: 3,
            created_at: 0,
            updated_at: 0,
        },
        password_hash: hash.to_owned(),
    }
}

#[test]
fn a_login_runs_its_steps_in_order_and_discards_a_session_it_cannot_rotate() {
    let weak: Vec<String> = Vec::new();
    let hash = hash_password("correct horse battery", &weak).expect("hash");
    let input = input(Some("old_session"));
    let (stage, action) = login_step(&input, LoginStage::Start, LoginEvent::Begin);
    assert!(matches!(action, LoginAction::CheckAttempt));
    let (stage, action) = login_step(&input, stage, LoginEvent::AttemptChecked(Ok(None)));
    assert!(matches!(action, LoginAction::LoadProtection));
    let (stage, action) =
        login_step(&input, stage, LoginEvent::ProtectionLoaded(Ok(TurnstileSettings::disabled())));
    assert!(matches!(&action, LoginAction::LoadCredential(name) if name == "alice"));
    let (stage, action) =
        login_step(&input, stage, LoginEvent::CredentialLoaded(Ok(Some(account(&hash)))));
    assert!(matches!(action, LoginAction::LoadLifetimes));
    let (stage, action) = login_step(
        &input,
        stage,
        LoginEvent::LifetimesLoaded { overrides: Ok(None), now: 1_000, token: Some("session_new".to_owned()) },
    );
    match &action {
        LoginAction::StoreSession(id, session) => {
            assert_eq!(id, "session_new");
            assert_eq!(session.expires_at, 1_000 + 30 * MICROS_PER_MINUTE);
            assert_eq!(
                session.subject,
                SessionSubject::User {
                    user_id: "user_1".to_owned(),
                    credential_fingerprint: session_fingerprint(&hash, 3),
                }
            );
        }
        _ => panic!("expected the session to be stored"),
    }
    let (stage, action) = login_step(&input, stage, LoginEvent::Stored(true));
    assert!(matches!(&action, LoginAction::AppendAudit { action: "user.login", user_id } if user_id == "user_1"));
    let (stage, action) = login_step(&input, stage, LoginEvent::Audited(true));
    assert!(matches!(&action, LoginAction::Logout(previous) if previous == "old_session"));
    let (stage, action) = login_step(&input, stage, LoginEvent::LoggedOut(false));
    assert!(matches!(&action, LoginAction::DeleteSession(id) if id == "session_new"));
    assert_eq!(stage, LoginStage::Discarding);
    let (stage, action) = login_step(&input, stage, LoginEvent::Discarded);
    assert!(matches!(action, LoginAction::Finish(Err(LoginError::Unavailable))));
    assert_eq!(stage, LoginStage::Done);
}

#[test]
fn a_throttled_login_stops_before_the_credentials() {
    let input = input(None);
    let (_, action) = login_step(&input, LoginStage::Limiting, LoginEvent::AttemptChecked(Ok(Some(0))));
    assert!(matches!(
        action,
        LoginAction::Finish(Err(LoginError::TooManyAttempts { retry_after_seconds: 1 }))
    ));
    let (_, action) = login_step(&input, LoginStage::Limiting, LoginEvent::AttemptChecked(Err(())));
    assert!(matches!(action, LoginAction::Finish(Err(LoginError::Unavailable))));
}

#[test]
fn a_login_without_a_previous_session_succeeds_after_its_audit() {
    let weak: Vec<String> = Vec::new();
    let hash = hash_password("correct horse battery", &weak).expect("hash");
    let input = input(None);
    let (stage, _) = login_step(&input, LoginStage::LoadingCredential, LoginEvent::CredentialLoaded(Ok(Some(account(&hash)))));
    let (stage, _) = login_step(
        &input,
        stage,
        LoginEvent::LifetimesLoaded { overrides: Ok(Some(SessionTtlSettings::new(60, 0))), now: 0, token: Some("s".to_owned()) },
    );
    let (stage, _) = login_step(&input, stage, LoginEvent::Stored(true));
    let (stage, action) = login_step(&input, stage, LoginEvent::Audited(true));
    match action {
        LoginAction::Finish(Ok((id, session))) => {
            assert_eq!(id, "s");
            assert_eq!(session.expires_at, MICROS_PER_MINUTE);
        }
        _ => panic!("expected success"),
    }
    assert_eq!(stage, LoginStage::Done);
    let (_, action) = login_step(&input, LoginStage::LoadingCredential, LoginEvent::CredentialLoaded(Ok(None)));
    assert!(matches!(action, LoginAction::Finish(Err(LoginError::InvalidCredentials))));
}
