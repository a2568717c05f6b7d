use gateway::auth::{session_fingerprint, AuthSession, SessionSubject};
use gateway::error::{AdminErrorKind, StoreOutage};
use gateway::password_flow::{
    password_step, PasswordAction, PasswordChangeInput, PasswordEvent, PasswordStage,
};
use gateway::policy::UserRateLimits;
use gateway::users::{hash_password, verify_password, UserCredentialRecord, UserRecord, UserRole};

fn admin(hash: &str) -> UserCredentialRecord {
    UserCredentialRecord {
        user: UserRecord {
            id: "user_admin".to_owned(),
            username: "admin".to_owned(),
            role: UserRole::Admin,
            enabled: true,
            limits: UserRateLimits { max_concurrency: None, requests_per_minute: None },
            session_version: 1,
            created_at: 0,
            updated_at: 0,
        },
        password_hash: hash.to_owned(),
    }
}

fn input() -> PasswordChangeInput {
    PasswordChangeInput {
        current_password: "correct horse battery".to_owned(),
        new_password: "another long passphrase".to_owned(),
        weak_passwords: vec!["password1234".to_owned()],
    }
}

fn kind(action: &PasswordAction) -> Option<AdminErrorKind> {
    match action {
        PasswordAction::Finish(Err(e)) => Some(e.kind),
        _ => None,
    }
}

#[test]
fn an_admin_password_change_replaces_the_hash_it_read() {
    let hash = hash_password("correct horse battery", &Vec::new()).expect("hash");
    let session = AuthSession {
        subject: SessionSubject::Admin {
            admin_user_id: "user_admin".to_owned(),
            credential_fingerprint: session_fingerprint(&hash, 1),
        },
        expires_at: 10,
    };
    let input = input();
    let (stage, action) = password_step(&input, PasswordStage::Start, PasswordEvent::Begin(Some(session)));
    assert!(matches!(action, PasswordAction::CheckAttempt));
    let (stage, action) = password_step(&input, stage, PasswordEvent::AttemptChecked(Ok(false)));
    assert!(matches!(&action, PasswordAction::LoadCredential(id) if id == "user_admin"));
    let (stage, action) = password_step(&input, stage, PasswordEvent::CredentialLoaded(Ok(Some(admin(&hash)))));
    match &action {
        PasswordAction::ReplaceHash { user_id, old_hash, new_hash } => {
            assert_eq!(user_id, "user_admin");
            assert_eq!(old_hash, &hash);
            assert_eq!(verify_password("another long passphrase", new_hash), Ok(true));
        }
        _ => panic!("expected a hash replacement"),
    }
    let (stage, action) = password_step(&input, stage, PasswordEvent::Replaced(Ok(true)));
    assert!(matches!(action, PasswordAction::Finish(Ok(()))));
    assert_eq!(stage, PasswordStage::Done);
}

#[test]
fn a_password_change_stops_at_the_first_failed_check() {
    let input = input();
    let (_, action) = password_step(&input, PasswordStage::Start, PasswordEvent::Begin(None));
    assert_eq!(kind(&action), Some(AdminErrorKind::Unauthorized));
    let key = AuthSession { subject: SessionSubject::Key { client_key_id: "k".to_owned() }, expires_at: 1 };
    let (_, action) = password_step(&input, PasswordStage::Start, PasswordEvent::Begin(Some(key)));
    assert_eq!(kind(&action), Some(AdminErrorKind::Forbidden));
    let limiting = || PasswordStage::Limiting("user_admin".to_owned(), "f".to_owned());
    let (_, action) = password_step(&input, limiting(), PasswordEvent::AttemptChecked(Ok(true)));
    assert_eq!(kind(&action), Some(AdminErrorKind::RateLimited));
    let mut weak = input;
    weak.new_password = "password1234".to_owned();
    let (_, action) = password_step(&weak, limiting(), PasswordEvent::AttemptChecked(Ok(false)));
    assert_eq!(kind(&action), Some(AdminErrorKind::Invalid));
    let stale = PasswordStage::LoadingCredential("user_admin".to_owned(), "stale".to_owned());
    let (_, action) = password_step(&weak, stale, PasswordEvent::CredentialLoaded(Ok(Some(admin("h")))));
    assert_eq!(kind(&action), Some(AdminErrorKind::Conflict));
    let (_, action) = password_step(&weak, PasswordStage::Replacing, PasswordEvent::Replaced(Ok(false)));
    assert_eq!(kind(&action), Some(AdminErrorKind::Conflict));
    let (_, action) = password_step(&weak, PasswordStage::Replacing, PasswordEvent::Replaced(Err(StoreOutage)));
    assert_eq!(kind(&action), Some(AdminErrorKind::Unavailable));
}
