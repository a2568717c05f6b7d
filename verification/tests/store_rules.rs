use gateway::identity::{
    apply_password_change, apply_session_revocation, apply_user_update, check_admin_transition,
    identity_user_credential, prepare_user_update, ConflictKind, StoreError, StoredUser, StoredUserUpdate,
};
use gateway::recovery::{group_recovery_rows, ClientAdmissionRecoveryRow};
use gateway::usage::{
    non_empty, trend_granularity, usage_detail_id, usage_page, literal_prefix_pattern, require_user_scope, usage_filter_pieces, user_usage_filter_pieces,
    SqlBind, SqlPiece, UsageRecordFilter,
};
use gateway::users::UserRole;

fn conflict() -> StoreError {
    StoreError::Conflict { entity: "user", id: "user_1".to_owned(), kind: ConflictKind::InvalidTransition }
}

fn row(role: &str, enabled: bool, version: i64) -> StoredUser {
    StoredUser {
        id: "user_1".to_owned(),
        username: "alice".to_owned(),
        password_hash: "hash-1".to_owned(),
        role: role.to_owned(),
        enabled,
        max_concurrency: Some(2),
        requests_per_minute: None,
        session_version: version,
        created_at: 10,
        updated_at: 20,
    }
}

fn update() -> StoredUserUpdate {
    StoredUserUpdate {
        id: "user_1".to_owned(),
        username: None,
        role: None,
        enabled: None,
        max_concurrency: None,
        requests_per_minute: None,
    }
}

#[test]
fn disabling_or_changing_role_bumps_the_session_version() {
    let current = row("user", true, 4);
    let rename = StoredUserUpdate { username: Some("bob".to_owned()), ..update() };
    let renamed = apply_user_update(&current, &rename, (None, None), 30);
    assert_eq!(renamed.username, "bob");
    assert_eq!(renamed.session_version, 4);
    assert_eq!(renamed.updated_at, 30);
    assert_eq!(renamed.max_concurrency, Some(2));
    let disable = StoredUserUpdate { enabled: Some(false), ..update() };
    assert_eq!(apply_user_update(&current, &disable, (None, None), 5).session_version, 5);
    let promote = StoredUserUpdate { role: Some("admin".to_owned()), ..update() };
    let promoted = apply_user_update(&current, &promote, (None, None), 5);
    assert_eq!(promoted.session_version, 5);
    assert_eq!(promoted.updated_at, 20);
    let unlimited = StoredUserUpdate { max_concurrency: Some(None), ..update() };
    assert_eq!(apply_user_update(&current, &unlimited, (None, None), 30).max_concurrency, None);
}

#[test]
fn account_edits_are_checked_before_they_are_stored() {
    let limited = StoredUserUpdate { max_concurrency: Some(Some(8)), ..update() };
    assert_eq!(prepare_user_update(&limited), Ok((Some(8), None)));
    let bad_role = StoredUserUpdate { role: Some("root".to_owned()), ..update() };
    assert_eq!(
        prepare_user_update(&bad_role),
        Err(StoreError::InvalidData { entity: "user", message: "role must be admin or user" })
    );
    let huge = StoredUserUpdate { requests_per_minute: Some(Some(u64::MAX)), ..update() };
    assert!(prepare_user_update(&huge).is_err());
}

#[test]
fn the_last_enabled_administrator_cannot_be_removed() {
    let demote = StoredUserUpdate { role: Some("user".to_owned()), ..update() };
    assert_eq!(check_admin_transition("admin", true, &demote, false), Err(conflict()));
    assert_eq!(check_admin_transition("admin", true, &demote, true), Ok(()));
    let disable = StoredUserUpdate { enabled: Some(false), ..update() };
    assert_eq!(check_admin_transition("admin", true, &disable, false), Err(conflict()));
    assert_eq!(check_admin_transition("user", true, &disable, false), Ok(()));
    assert_eq!(check_admin_transition("admin", false, &demote, false), Ok(()));
}

#[test]
fn password_change_commits_only_against_the_hash_that_was_read() {
    let current = row("user", true, 1);
    let changed = apply_password_change(&current, "hash-1", "hash-2", 30).expect("committed");
    assert_eq!(changed.password_hash, "hash-2");
    assert_eq!(changed.session_version, 2);
    assert!(apply_password_change(&current, "stale", "hash-2", 30).is_none());
    assert!(apply_password_change(&row("user", false, 1), "hash-1", "hash-2", 30).is_none());
    let revoked = apply_session_revocation(&current, None, 5);
    assert_eq!(revoked.password_hash, "hash-1");
    assert_eq!(revoked.session_version, 2);
}

#[test]
fn stored_rows_become_credentials_only_when_well_formed() {
    let credential = identity_user_credential(row("admin", true, 3)).expect("valid");
    assert_eq!(credential.user.role, UserRole::Admin);
    assert_eq!(credential.user.session_version, 3);
    assert_eq!(credential.user.limits.max_concurrency, Some(2));
    assert_eq!(credential.password_hash, "hash-1");
    assert!(identity_user_credential(row("owner", true, 3)).is_err());
    assert!(identity_user_credential(row("user", true, -1)).is_err());
}

fn sql(s: &str) -> SqlPiece {
    SqlPiece::Sql(s.to_owned())
}

fn text(s: &str) -> SqlPiece {
    SqlPiece::Bind(SqlBind::Text(s.to_owned()))
}

#[test]
fn like_patterns_escape_wildcards_and_match_a_prefix() {
    assert_eq!(literal_prefix_pattern("ab"), "ab%");
    assert_eq!(literal_prefix_pattern("50%_off\\"), "50\\%\\_off\\\\%");
    assert_eq!(literal_prefix_pattern(""), "%");
}

#[test]
fn usage_filter_binds_every_value() {
    let filter = UsageRecordFilter {
        user_id: Some("user_1".to_owned()),
        model: Some("gpt".to_owned()),
        ..UsageRecordFilter::default()
    };
    assert_eq!(
        usage_filter_pieces(&filter, "r"),
        vec![
            sql(" and r.user_id = "),
            text("user_1"),
            sql(" and (r.requested_model_id = "),
            text("gpt"),
            sql(" or r.upstream_model_id = "),
            text("gpt"),
            sql(")"),
        ]
    );
    assert!(usage_filter_pieces(&UsageRecordFilter::default(), "r").is_empty());
    assert!(require_user_scope(&filter));
    assert!(!require_user_scope(&UsageRecordFilter::default()));
}

#[test]
fn user_usage_of_a_key_requires_that_the_key_is_still_theirs() {
    let filter = UsageRecordFilter {
        user_id: Some("user_1".to_owned()),
        client_api_key_ref: Some("key_1".to_owned()),
        ..UsageRecordFilter::default()
    };
    let pieces = user_usage_filter_pieces(&filter, "r");
    assert_eq!(pieces.len(), 11);
    assert_eq!(pieces[4], sql(" and (not exists (select 1 from client_api_keys selected_key where selected_key.id = "));
    assert_eq!(pieces[5], text("key_1"));
    assert_eq!(pieces[9], text("user_1"));
    assert_eq!(pieces[10], sql("))"));
}

fn logged(key: &str, id: &str, started_at: i64, outcome: &str, user: Option<&str>) -> ClientAdmissionRecoveryRow {
    ClientAdmissionRecoveryRow {
        client_api_key_ref: key.to_owned(),
        model_request_id: id.to_owned(),
        started_at,
        deadline_at: started_at + 1_000,
        outcome: outcome.to_owned(),
        user_id: user.map(str::to_owned),
    }
}

#[test]
fn recovery_groups_the_log_by_key_in_key_order() {
    let rows = vec![
        logged("key_b", "r1", 100, "running", Some("user_1")),
        logged("key_a", "r2", 50, "succeeded", None),
        logged("key_b", "r3", 10, "succeeded", None),
        logged("key_a", "r4", 120, "running", None),
    ];
    let recovered = group_recovery_rows(&rows, 60);
    assert_eq!(recovered.len(), 2);
    assert_eq!(recovered[0].client_api_key_ref, "key_a");
    assert_eq!(recovered[1].client_api_key_ref, "key_b");
    let a = &recovered[0];
    assert_eq!(a.recent_requests.len(), 1);
    assert_eq!(a.recent_requests[0].model_request_id, "r4");
    assert_eq!(a.running_requests.len(), 1);
    assert_eq!(a.running_requests[0].deadline_at, 1_120);
    assert!(a.user.is_none());
    let b = &recovered[1];
    assert_eq!(b.recent_requests.len(), 1);
    assert_eq!(b.recent_requests[0].model_request_id, "r1");
    let user = b.user.as_ref().expect("user");
    assert_eq!(user.user_id, "user_1");
    assert_eq!(user.running_requests.len(), 1);
    assert_eq!(user.running_requests[0].model_request_id, "r1");
}

#[test]
fn user_usage_query_parts_are_trimmed_and_paged() {
    assert_eq!(non_empty(Some("  gpt ".to_owned())), Some("gpt".to_owned()));
    assert_eq!(non_empty(Some("   ".to_owned())), None);
    assert_eq!(non_empty(None), None);
    assert_eq!(usage_detail_id(" req_1 "), Ok("req_1".to_owned()));
    assert_eq!(usage_detail_id("  ").unwrap_err().field, "id");
    assert_eq!(usage_detail_id("a\u{1}b").unwrap_err().field, "id");
    assert_eq!(usage_page(None, None, 20, 100), Ok((1, 20)));
    assert_eq!(usage_page(Some(0), None, 20, 100).unwrap_err().field, "currentPage");
    assert_eq!(usage_page(Some(2), Some(101), 20, 100).unwrap_err().field, "pageSize");
    assert_eq!(usage_page(Some(2), Some(0), 20, 100).unwrap_err().field, "pageSize");
}

#[test]
fn usage_trend_is_hourly_up_to_36_whole_hours() {
    let hour: i64 = 3_600_000_000;
    assert_eq!(trend_granularity(0, 36 * hour), "1h");
    assert_eq!(trend_granularity(0, 37 * hour - 1), "1h");
    assert_eq!(trend_granularity(0, 37 * hour), "1d");
    assert_eq!(trend_granularity(10, 0), "1h");
    assert_eq!(trend_granularity(i64::MIN, i64::MAX), "1d");
}
