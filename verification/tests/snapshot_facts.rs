use gateway::decimal::Decimal;
use gateway::policy::{ClientApiKeyId, PlaintextClientApiKey, RateLimits};
use gateway::snapshot::{
    account_group_row, build_billing_policy, group_membership_row, snapshot_client_policies,
    snapshot_settings, to_u32, to_u64, ClientApiKeySnapshot, SnapshotClientKeyMetadata,
    SnapshotClientKeyOwner, SnapshotSettingsRow, SnapshotUserRuntimeData,
};

const NOW: i64 = 1_700_000_000_000_000;

fn amount(value: &str) -> Decimal {
    Decimal::parse(value).expect("decimal")
}

fn runtime(key_id: &str) -> SnapshotUserRuntimeData {
    SnapshotUserRuntimeData {
        key_id: key_id.to_owned(),
        user_id: "user_1".to_owned(),
        group_ids: vec!["group_a".to_owned()],
        max_concurrency: Some(2),
        requests_per_minute: None,
        plan_id: Some("plan_pro".to_owned()),
        subscription_id: Some("sub_1".to_owned()),
        daily_limit_usd: None,
        weekly_limit_usd: Some("0".to_owned()),
        monthly_limit_usd: Some("25.5".to_owned()),
        downstream_rate_multiplier: Some("1.2".to_owned()),
        starts_at: Some(NOW - 10),
        expires_at: Some(NOW + 10),
        base_plan_id: Some("plan_base".to_owned()),
        base_daily_limit_usd: Some("1".to_owned()),
        base_weekly_limit_usd: None,
        base_monthly_limit_usd: None,
        successor_plan_id: None,
        successor_subscription_id: None,
        successor_daily_limit_usd: None,
        successor_weekly_limit_usd: None,
        successor_monthly_limit_usd: None,
        successor_downstream_rate_multiplier: None,
        successor_starts_at: None,
        successor_expires_at: None,
    }
}

fn key(id: &str) -> ClientApiKeySnapshot {
    ClientApiKeySnapshot {
        request_profiles: Vec::new(),
        id: ClientApiKeyId::new(id).expect("id"),
        plaintext_key: PlaintextClientApiKey::new("sk_snapshot_secret").expect("key"),
        group_ids: vec!["group_legacy".to_owned()],
        limits: RateLimits { max_concurrency: 1, requests_per_minute: 5 },
    }
}

fn metadata(id: &str) -> (String, SnapshotClientKeyMetadata) {
    (
        id.to_owned(),
        SnapshotClientKeyMetadata { username_snapshot: Some("alice".to_owned()), client_api_key_name_snapshot: None },
    )
}

#[test]
fn billing_policy_keeps_unlimited_and_real_zero_limits_apart() {
    let policy = build_billing_policy(&runtime("key_1")).expect("valid").expect("policy");
    let limits = policy.budget_limits();
    assert_eq!(limits.daily_usd, None);
    assert_eq!(limits.weekly_usd, Some(Decimal::zero()));
    assert_eq!(limits.monthly_usd, Some(amount("25.5")));
    assert_eq!(policy.downstream_rate_multiplier(), amount("1.2"));
    assert_eq!(policy.plan_id().as_str(), "plan_pro");
    let after = policy.effective_at(NOW + 10).expect("base plan");
    assert_eq!(after.plan_id().as_str(), "plan_base");
    assert_eq!(after.budget_limits().daily_usd, Some(amount("1")));
    assert_eq!(after.downstream_rate_multiplier(), amount("1"));
}

#[test]
fn malformed_plan_facts_name_the_problem() {
    let mut no_base = runtime("key_1");
    no_base.base_plan_id = None;
    assert_eq!(build_billing_policy(&no_base).unwrap_err().message, "owned user has no enabled base plan");
    let mut bad_amount = runtime("key_1");
    bad_amount.monthly_limit_usd = Some("lots".to_owned());
    assert_eq!(build_billing_policy(&bad_amount).unwrap_err().message, "invalid budget amount");
    let mut bad_multiplier = runtime("key_1");
    bad_multiplier.downstream_rate_multiplier = Some("x".to_owned());
    assert_eq!(build_billing_policy(&bad_multiplier).unwrap_err().message, "invalid billing multiplier");
}

#[test]
fn a_malformed_account_only_suppresses_its_own_keys() {
    let keys = vec![key("key_owned"), key("key_broken"), key("key_legacy"), key("key_hidden"), key("key_unknown")];
    let owners = vec![
        ("key_owned".to_owned(), SnapshotClientKeyOwner::Owned("user_1".to_owned())),
        ("key_broken".to_owned(), SnapshotClientKeyOwner::Owned("user_2".to_owned())),
        ("key_legacy".to_owned(), SnapshotClientKeyOwner::Ownerless),
        ("key_hidden".to_owned(), SnapshotClientKeyOwner::Suppressed),
    ];
    let mut broken = runtime("key_broken");
    broken.max_concurrency = Some(-1);
    let runtimes = vec![runtime("key_owned"), broken];
    let meta = vec![metadata("key_owned"), metadata("key_broken"), metadata("key_legacy"), metadata("key_hidden"), metadata("key_unknown")];
    let facts = snapshot_client_policies(&keys, &owners, &runtimes, &meta);
    assert_eq!(facts.len(), 2);
    let owned = &facts[0].policy;
    assert_eq!(owned.key_id().as_str(), "key_owned");
    assert_eq!(owned.account_scope(), &vec!["group_a".to_owned()]);
    assert_eq!(owned.user_id().map(|u| u.as_str().to_owned()), Some("user_1".to_owned()));
    assert_eq!(owned.user_rate_limits().max_concurrency, Some(2));
    assert_eq!(owned.username_snapshot(), Some("alice"));
    let legacy = &facts[1].policy;
    assert_eq!(legacy.key_id().as_str(), "key_legacy");
    assert_eq!(legacy.account_scope(), &vec!["group_legacy".to_owned()]);
    assert!(legacy.user_id().is_none());
    assert!(legacy.billing_policy().is_none());
}

#[test]
fn snapshot_rows_and_counts_are_range_checked() {
    assert_eq!(to_u64(5), Ok(5));
    assert!(to_u64(-1).is_err());
    assert_eq!(to_u32(4_294_967_295), Ok(u32::MAX));
    assert!(to_u32(4_294_967_296).is_err());
    let group = account_group_row("group_a".to_owned(), "A".to_owned(), true, false).expect("valid");
    assert_eq!(group.id, "group_a");
    assert!(account_group_row(String::new(), "A".to_owned(), true, false).is_err());
    assert_eq!(group_membership_row("group_a".to_owned(), "acct_1".to_owned()).expect("valid").account_id, "acct_1");
    assert!(group_membership_row("a\u{0}".to_owned(), "acct_1".to_owned()).is_err());
    let row = SnapshotSettingsRow {
        pricing_synced_json: "{}".to_owned(),
        pricing_overrides_json: "{}".to_owned(),
        config_revision: 7,
        refresh_margin_seconds: 60,
        refresh_concurrency: 4,
        max_concurrent_per_account: 8,
        request_interval_ms: 0,
        rotation_strategy: "round_robin".to_owned(),
        model_mappings: Vec::new(),
        min_codex_desktop_version: None,
        min_codex_cli_version: None,
        max_waiting_per_key: 10,
        max_waiting_per_account: 10,
        concurrency_wait_timeout_seconds: 30,
        request_location_json: "{}".to_owned(),
        request_location_enabled: false,
        responses_max_decompressed_body_bytes: 1 << 20,
        provider_request_profiles: Vec::new(),
    };
    let (revision, settings) = snapshot_settings(row.clone()).expect("valid");
    assert_eq!(revision, 7);
    assert_eq!(settings.max_concurrent_per_account, 8);
    assert_eq!(settings.responses_max_decompressed_body_bytes, 1 << 20);
    let negative = SnapshotSettingsRow { refresh_concurrency: -1, ..row };
    assert!(snapshot_settings(negative).is_err());
}
