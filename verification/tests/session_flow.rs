use gateway::auth::{session_fingerprint, AuthSession, SessionSubject};
use gateway::error::{AdminError, AdminErrorKind, StoreOutage};
use gateway::policy::UserRateLimits;
use gateway::session_flow::{session_step, SessionAction, SessionEvent, SessionStage};
use gateway::users::{UserCredentialRecord, UserRecord, UserRole};

fn account(version: u64) -> UserCredentialRecord {
    UserCredentialRecord {
        user: UserRecord {
            id: "user_1".to_owned(),
            username: "alice".to_owned(),
            role: UserRole::User,
            enabled: true,
            limits: UserRateLimits { max_concurrency: None, requests_per_minute: None },
            session_version: version,
            created_at: 0,
            updated_at: 0,
        },
        password_hash: "hash".to_owned(),
    }
}

fn user_session(expires_at: i64) -> AuthSession {
    AuthSession {
        subject: SessionSubject::User {
            user_id: "user_1".to_owned(),
            credential_fingerprint: session_fingerprint("hash", 2),
        },
        expires_at,
    }
}

#[test]
fn a_live_session_backed_by_its_account_is_returned() {
    let (stage, action) = session_step(SessionStage::Start, SessionEvent::Begin(Some("sid".to_owned())));
    assert_eq!(action, SessionAction::LoadSession("sid".to_owned()));
    let (stage, action) = session_step(stage, SessionEvent::SessionLoaded(Ok(Some(user_session(10))), 5));
    assert_eq!(action, SessionAction::LoadCredential("user_1".to_owned()));
    let (stage, action) = session_step(stage, SessionEvent::CredentialLoaded(Ok(Some(account(2)))));
    assert_eq!(action, SessionAction::Finish(Ok(Some(user_session(10)))));
    assert_eq!(stage, SessionStage::Done);
}

#[test]
fn expired_and_revoked_sessions_are_deleted_and_treated_as_absent() {
    let stage = SessionStage::LoadingSession("sid".to_owned());
    let (stage, action) = session_step(stage, SessionEvent::SessionLoaded(Ok(Some(user_session(10))), 10));
    assert_eq!(action, SessionAction::DeleteSession("sid".to_owned()));
    let (_, action) = session_step(stage, SessionEvent::Deleted);
    assert_eq!(action, SessionAction::Finish(Ok(None)));

    let stage = SessionStage::LoadingCredential("sid".to_owned(), user_session(10));
    let (_, action) = session_step(stage, SessionEvent::CredentialLoaded(Ok(Some(account(3)))));
    assert_eq!(action, SessionAction::DeleteSession("sid".to_owned()));

    let key = AuthSession { subject: SessionSubject::Key { client_key_id: "key_1".to_owned() }, expires_at: 10 };
    let (stage, action) = session_step(SessionStage::LoadingSession("k".to_owned()), SessionEvent::SessionLoaded(Ok(Some(key)), 0));
    assert_eq!(action, SessionAction::CheckKeyEnabled("key_1".to_owned()));
    let (_, action) = session_step(stage, SessionEvent::KeyChecked(Ok(false)));
    assert_eq!(action, SessionAction::DeleteSession("k".to_owned()));
}

#[test]
fn no_session_id_and_store_errors_end_the_lookup() {
    let (_, action) = session_step(SessionStage::Start, SessionEvent::Begin(Some(String::new())));
    assert_eq!(action, SessionAction::Finish(Ok(None)));
    let (stage, action) =
        session_step(SessionStage::LoadingSession("sid".to_owned()), SessionEvent::SessionLoaded(Err(StoreOutage), 0));
    assert_eq!(
        action,
        SessionAction::Finish(Err(AdminError::new(AdminErrorKind::Unavailable, "authentication session")))
    );
    assert_eq!(stage, SessionStage::Done);
    let (_, action) = session_step(
        SessionStage::LoadingCredential("sid".to_owned(), user_session(10)),
        SessionEvent::CredentialLoaded(Err(StoreOutage)),
    );
    assert!(matches!(action, SessionAction::Finish(Err(e)) if e.kind == AdminErrorKind::Unavailable));
}
