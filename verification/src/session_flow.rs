//! The order in which a presented session is loaded and checked: the session
//! itself, then the account it is bound to or the key it speaks for. An expired
//! or revoked session is deleted and treated as no session; whether the delete
//! succeeds does not matter. A store that cannot answer ends the lookup as
//! unavailable, and nothing is deleted: an outage is not a logout.

use vstd::prelude::*;

use crate::auth::{credential_backs, credential_backs_session, AuthSession, SessionSubject};
use crate::error::{store_unavailable, AdminError, AdminErrorKind, StoreOutage};
use crate::users::UserCredentialRecord;

verus! {

/// Which answer a session lookup waits for.
#[derive(Debug, PartialEq, Eq)]
pub enum SessionStage {
    Start,
    LoadingSession(String),
    LoadingCredential(String, AuthSession),
    CheckingKey(String, AuthSession),
    Deleting,
    Done,
}

/// The answer to the last action; `Err` is a store outage.
pub enum SessionEvent {
    /// The session id presented, if any.
    Begin(Option<String>),
    /// The stored session, and the current instant.
    SessionLoaded(Result<Option<AuthSession>, StoreOutage>, i64),
    CredentialLoaded(Result<Option<UserCredentialRecord>, StoreOutage>),
    KeyChecked(Result<bool, StoreOutage>),
    /// The delete was attempted; its outcome does not matter.
    Deleted,
}

/// What the caller does next.
#[derive(Debug, PartialEq, Eq)]
pub enum SessionAction {
    LoadSession(String),
    LoadCredential(String),
    CheckKeyEnabled(String),
    DeleteSession(String),
    Finish(Result<Option<AuthSession>, AdminError>),
}

/// The lookup ends unavailable, naming `entity`.
pub open spec fn session_unavailable(r: (SessionStage, SessionAction), entity: &'static str) -> bool {
    r.0 == SessionStage::Done && (r.1 matches SessionAction::Finish(Err(e)) && e.kind
        == AdminErrorKind::Unavailable && e.message == entity)
}

/// The lookup ends with `result`.
pub open spec fn session_ends(r: (SessionStage, SessionAction), result: Result<Option<AuthSession>, AdminError>) -> bool {
    r == (SessionStage::Done, SessionAction::Finish(result))
}

/// After an unexpired session is loaded: its account is loaded, or its key
/// checked.
pub open spec fn after_load(id: String, session: AuthSession) -> (SessionStage, SessionAction) {
    match session.subject {
        SessionSubject::Admin { admin_user_id, .. } => (
            SessionStage::LoadingCredential(id, session),
            SessionAction::LoadCredential(admin_user_id),
        ),
        SessionSubject::User { user_id, .. } => (
            SessionStage::LoadingCredential(id, session),
            SessionAction::LoadCredential(user_id),
        ),
        SessionSubject::Key { client_key_id } => (
            SessionStage::CheckingKey(id, session),
            SessionAction::CheckKeyEnabled(client_key_id),
        ),
    }
}

fn done(result: Result<Option<AuthSession>, AdminError>) -> (r: (SessionStage, SessionAction))
    ensures
        session_ends(r, result),
{
    (SessionStage::Done, SessionAction::Finish(result))
}

/// One step of a session lookup: from where it stands and the answer to its
/// last action, where it stands next and what to do. An answer that does not
/// belong to the stage ends the lookup with no session.
pub fn session_step(stage: SessionStage, event: SessionEvent) -> (r: (SessionStage, SessionAction))
    ensures
        match (stage, event) {
            (SessionStage::Start, SessionEvent::Begin(id)) => match id {
                Some(s) => if s@.len() > 0 {
                    r == (SessionStage::LoadingSession(s), SessionAction::LoadSession(s))
                } else {
                    session_ends(r, Ok(None))
                },
                None => session_ends(r, Ok(None)),
            },
            (SessionStage::LoadingSession(id), SessionEvent::SessionLoaded(answer, now)) => match answer {
                Err(_) => session_unavailable(r, "authentication session"),
                Ok(None) => session_ends(r, Ok(None)),
                Ok(Some(session)) => if session.expires_at <= now {
                    r == (SessionStage::Deleting, SessionAction::DeleteSession(id))
                } else {
                    r == after_load(id, session)
                },
            },
            (SessionStage::LoadingCredential(id, session), SessionEvent::CredentialLoaded(answer)) => match answer {
                Err(_) => session_unavailable(r, "user session"),
                Ok(credential) => if credential_backs(session.subject, credential) {
                    session_ends(r, Ok(Some(session)))
                } else {
                    r == (SessionStage::Deleting, SessionAction::DeleteSession(id))
                },
            },
            (SessionStage::CheckingKey(id, session), SessionEvent::KeyChecked(answer)) => match answer {
                Err(_) => session_unavailable(r, "session key"),
                Ok(true) => session_ends(r, Ok(Some(session))),
                Ok(false) => r == (SessionStage::Deleting, SessionAction::DeleteSession(id)),
            },
            _ => session_ends(r, Ok(None)),
        },
{
    match (stage, event) {
        (SessionStage::Start, SessionEvent::Begin(id)) => match id {
            Some(s) => {
                if s.as_str().is_empty() {
                    done(Ok(None))
                } else {
                    let copy = s.clone();
                    (SessionStage::LoadingSession(s), SessionAction::LoadSession(copy))
                }
            },
            None => done(Ok(None)),
        },
        (SessionStage::LoadingSession(id), SessionEvent::SessionLoaded(answer, now)) => match answer {
            Err(_) => done(Err(store_unavailable("authentication session"))),
            Ok(None) => done(Ok(None)),
            Ok(Some(session)) => {
                if session.expires_at <= now {
                    (SessionStage::Deleting, SessionAction::DeleteSession(id))
                } else {
                    let action = match &session.subject {
                        SessionSubject::Admin { admin_user_id, .. } => SessionAction::LoadCredential(
                            admin_user_id.clone(),
                        ),
                        SessionSubject::User { user_id, .. } => SessionAction::LoadCredential(user_id.clone()),
                        SessionSubject::Key { client_key_id } => SessionAction::CheckKeyEnabled(
                            client_key_id.clone(),
                        ),
                    };
                    let is_key = match &session.subject {
                        SessionSubject::Key { .. } => true,
                        _ => false,
                    };
                    if is_key {
                        (SessionStage::CheckingKey(id, session), action)
                    } else {
                        (SessionStage::LoadingCredential(id, session), action)
                    }
                }
            },
        },
        (SessionStage::LoadingCredential(id, session), SessionEvent::CredentialLoaded(answer)) => match answer {
            Err(_) => done(Err(store_unavailable("user session"))),
            Ok(credential) => {
                if credential_backs_session(&session.subject, credential.as_ref()) {
                    done(Ok(Some(session)))
                } else {
                    (SessionStage::Deleting, SessionAction::DeleteSession(id))
                }
            },
        },
        (SessionStage::CheckingKey(id, session), SessionEvent::KeyChecked(answer)) => match answer {
            Err(_) => done(Err(store_unavailable("session key"))),
            Ok(true) => done(Ok(Some(session))),
            Ok(false) => (SessionStage::Deleting, SessionAction::DeleteSession(id)),
        },
        _ => done(Ok(None)),
    }
}

} // verus!
