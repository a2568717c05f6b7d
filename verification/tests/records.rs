use gateway::budget::{UserBudgetStatus, UserBudgetWindowStatus};
use gateway::client_keys::{
    check_user_key_scope, ClientKeyCursor, ClientKeyCursorValue, ClientKeyMutationRequest,
    ClientKeySort, ClientKeySortDirection, ClientKeySortField,
};
use gateway::decimal::Decimal;
use gateway::error::AdminErrorKind;
use gateway::identity::{
    apply_username_update, identity_user_record, session_ttl_columns, session_ttl_row,
    stored_update_of, stored_user, user_update_changed_fields, validate_user, StoreError,
    StoredUser,
};
use gateway::policy::{
    ClientApiKeyId, PlaintextClientApiKey, UserBudgetLimits, UserRateLimits,
};
use gateway::settlement::{budget_window_status, plan_limit_for};
use gateway::subscription::{
    current_subscription_index, effective_multiplier, effective_source, page_offset, row_count,
    validate_subscription_update, BudgetWindowKind, ControlPageQuery, SubscriptionPlanRecord,
    UpdateUserSubscription, UserBillingSummary, UserSubscriptionRecord,
};
use gateway::users::{
    TurnstileSettings, UpdateUser, UserCredentialRecord, UserRecord, UserRole,
};

fn amount(value: &str) -> Decimal {
    Decimal::parse(value).expect("decimal")
}

fn row(role: &str, version: i64) -> StoredUser {
    StoredUser {
        id: "user_1".to_owned(),
        username: "alice".to_owned(),
        password_hash: "hash-1".to_owned(),
        role: role.to_owned(),
        enabled: true,
        max_concurrency: Some(2),
        requests_per_minute: None,
        session_version: version,
        created_at: 10,
        updated_at: 20,
    }
}

#[test]
fn stored_rows_are_checked_field_by_field() {
    assert_eq!(validate_user(&row("admin", 1)), Ok(()));
    assert!(matches!(
        validate_user(&row("owner", 1)),
        Err(StoreError::InvalidData { entity: "user", .. })
    ));
    assert!(validate_user(&row("user", 0)).is_err());
    let mut bad_limit = row("user", 1);
    bad_limit.max_concurrency = Some(-1);
    assert!(validate_user(&bad_limit).is_err());
    let mut backwards = row("user", 1);
    backwards.updated_at = 5;
    assert!(validate_user(&backwards).is_err());
    let mut blank = row("user", 1);
    blank.username = String::new();
    assert!(validate_user(&blank).is_err());
}

#[test]
fn stored_rows_read_back_as_accounts() {
    let record = identity_user_record(row("user", 3)).expect("record");
    assert_eq!(record.id, "user_1");
    assert_eq!(record.role, UserRole::User);
    assert_eq!(record.limits, UserRateLimits { max_concurrency: Some(2), requests_per_minute: None });
    assert_eq!(record.session_version, 3);
    assert_eq!(
        identity_user_record(row("root", 3)).unwrap_err(),
        StoreError::InvalidData { entity: "user identity", message: "stored user role is invalid" }
    );
    assert_eq!(
        identity_user_record(row("user", -1)).unwrap_err(),
        StoreError::InvalidData { entity: "user identity", message: "stored session version is invalid" }
    );
}

#[test]
fn accounts_are_written_as_rows() {
    let account = UserCredentialRecord {
        user: UserRecord {
            id: "user_9".to_owned(),
            username: "bob".to_owned(),
            role: UserRole::Admin,
            enabled: false,
            limits: UserRateLimits { max_concurrency: Some(u64::MAX), requests_per_minute: Some(7) },
            session_version: 4,
            created_at: 1,
            updated_at: 2,
        },
        password_hash: "h".to_owned(),
    };
    let r = stored_user(&account);
    assert_eq!(r.id, "user_9");
    assert_eq!(r.role, "admin");
    assert!(!r.enabled);
    assert_eq!(r.max_concurrency, Some(i64::MAX));
    assert_eq!(r.requests_per_minute, Some(7));
    assert_eq!(r.session_version, 4);
    assert_eq!(r.password_hash, "h");
}

#[test]
fn username_changes_need_an_enabled_account_at_the_checked_version() {
    let current = row("user", 2);
    let changed = apply_username_update(&current, "carol", 2, 30).expect("changed");
    assert_eq!(changed.username, "carol");
    assert_eq!(changed.updated_at, 30);
    assert_eq!(changed.session_version, 2);
    assert_eq!(apply_username_update(&current, "carol", 2, 5).expect("changed").updated_at, 20);
    assert!(apply_username_update(&current, "carol", 1, 30).is_none());
    let mut disabled = row("user", 2);
    disabled.enabled = false;
    assert!(apply_username_update(&disabled, "carol", 2, 30).is_none());
}

#[test]
fn session_lifetime_rows_come_in_pairs() {
    assert_eq!(session_ttl_row(None, None), Ok(None));
    assert_eq!(session_ttl_row(Some(60), Some(30)), Ok(Some((60, 30))));
    assert!(session_ttl_row(Some(60), None).is_err());
    assert!(session_ttl_row(Some(-1), Some(30)).is_err());
    assert_eq!(session_ttl_columns(60, 30), Ok((60, 30)));
    assert!(session_ttl_columns(u64::MAX, 30).is_err());
}

#[test]
fn account_edits_name_their_fields() {
    let edit = UpdateUser {
        user_id: "user_1".to_owned(),
        username: Some("dave".to_owned()),
        role: Some(UserRole::User),
        enabled: None,
        max_concurrency: Some(None),
        requests_per_minute: None,
    };
    assert_eq!(user_update_changed_fields(&edit), vec!["username", "role", "max_concurrency"]);
    let stored = stored_update_of(&edit);
    assert_eq!(stored.id, "user_1");
    assert_eq!(stored.username, Some("dave".to_owned()));
    assert_eq!(stored.role, Some("user".to_owned()));
    assert_eq!(stored.enabled, None);
    assert_eq!(stored.max_concurrency, Some(None));
}

#[test]
fn pages_and_counts() {
    assert_eq!(page_offset(ControlPageQuery { page: 3, page_size: 20 }), Ok(40));
    assert_eq!(page_offset(ControlPageQuery { page: 1, page_size: 100 }), Ok(0));
    assert_eq!(
        page_offset(ControlPageQuery { page: 0, page_size: 20 }).unwrap_err().kind,
        AdminErrorKind::Invalid
    );
    assert!(page_offset(ControlPageQuery { page: 1, page_size: 101 }).is_err());
    assert_eq!(row_count(12), Ok(12));
    assert!(row_count(-1).is_err());
}

#[test]
fn subscription_updates_must_change_something_valid() {
    let none = UpdateUserSubscription {
        user_id: "user_1".to_owned(),
        starts_at: None,
        expires_at: None,
        downstream_rate_multiplier: None,
    };
    assert_eq!(validate_subscription_update(&none).unwrap_err().kind, AdminErrorKind::Invalid);
    let mut multiplier = none.clone();
    multiplier.downstream_rate_multiplier = Some(amount("2"));
    assert_eq!(validate_subscription_update(&multiplier), Ok(()));
    let mut backwards = none.clone();
    backwards.starts_at = Some(100);
    backwards.expires_at = Some(50);
    assert_eq!(validate_subscription_update(&backwards).unwrap_err().kind, AdminErrorKind::Invalid);
}

fn plan(id: &str, enabled: bool) -> SubscriptionPlanRecord {
    SubscriptionPlanRecord {
        id: id.to_owned(),
        is_base: false,
        name: id.to_owned(),
        description: None,
        enabled,
        budget_limits: UserBudgetLimits { daily_usd: None, weekly_usd: None, monthly_usd: None },
        created_at: 0,
        updated_at: 0,
    }
}

fn subscription(plan_id: &str, status: &str, starts_at: i64, expires_at: i64) -> UserSubscriptionRecord {
    UserSubscriptionRecord {
        id: format!("sub_{plan_id}"),
        user_id: Some("user_1".to_owned()),
        plan_id: plan_id.to_owned(),
        plan_name: plan_id.to_owned(),
        status: status.to_owned(),
        starts_at,
        expires_at,
        revoked_at: None,
        downstream_rate_multiplier: amount("1.5"),
        created_at: 0,
        updated_at: 0,
    }
}

#[test]
fn the_current_subscription_is_the_first_active_one_under_an_enabled_plan() {
    let plans = vec![plan("a", true), plan("b", false), plan("c", true)];
    let history = vec![
        subscription("a", "revoked", 0, 100),
        subscription("b", "active", 0, 100),
        subscription("a", "active", 60, 100),
        subscription("c", "active", 0, 100),
        subscription("a", "active", 0, 100),
    ];
    assert_eq!(current_subscription_index(&history, &plans, 50), Some(3));
    assert_eq!(current_subscription_index(&history, &plans, 100), None);
    assert_eq!(history[0].effective_status(50), "revoked");
    assert_eq!(history[2].effective_status(50), "pending");
    assert_eq!(history[3].effective_status(100), "expired");
    assert_eq!(history[3].effective_status(50), "active");
}

fn window(limit: Option<Decimal>) -> UserBudgetWindowStatus {
    UserBudgetWindowStatus {
        limit,
        used: Decimal::zero(),
        credit: Decimal::zero(),
        effective_limit: limit,
        resets_at: 0,
    }
}

#[test]
fn summaries_name_their_source_and_multiplier() {
    let mut summary = UserBillingSummary {
        subscription: None,
        plan: plan("base", true),
        subscription_history: Vec::new(),
        effective_max_concurrency: None,
        effective_requests_per_minute: None,
        budget: UserBudgetStatus { daily: window(None), weekly: window(None), monthly: window(None) },
        groups: Vec::new(),
    };
    assert_eq!(effective_source(&summary), "basePlan");
    assert_eq!(effective_multiplier(&summary), "1");
    summary.subscription = Some(subscription("c", "active", 0, 100));
    assert_eq!(effective_source(&summary), "subscription");
    assert_eq!(effective_multiplier(&summary), "1.5");
}

#[test]
fn window_status_adds_credit_to_the_plan_limit() {
    let status = budget_window_status(Some(amount("10")), amount("3"), amount("2.5"), 77).expect("status");
    assert_eq!(status.limit, Some(amount("10")));
    assert_eq!(status.used, amount("3"));
    assert_eq!(status.credit, amount("2.5"));
    assert_eq!(status.effective_limit, Some(amount("12.5")));
    assert_eq!(status.resets_at, 77);
    let unlimited = budget_window_status(None, amount("3"), amount("2.5"), 77).expect("status");
    assert_eq!(unlimited.effective_limit, None);
    assert!(budget_window_status(Some(Decimal::max_value()), Decimal::zero(), amount("1"), 0).is_none());
    let limits = UserBudgetLimits {
        daily_usd: Some(amount("1")),
        weekly_usd: Some(amount("5")),
        monthly_usd: None,
    };
    assert_eq!(plan_limit_for(limits, BudgetWindowKind::Daily), Some(amount("1")));
    assert_eq!(plan_limit_for(limits, BudgetWindowKind::Weekly), Some(amount("5")));
    assert_eq!(plan_limit_for(limits, BudgetWindowKind::Monthly), None);
}

#[test]
fn amounts_print_with_ten_fraction_digits() {
    assert_eq!(amount("12.5").to_fixed_string(), "12.5000000000");
    assert_eq!(Decimal::zero().to_fixed_string(), "0.0000000000");
    assert_eq!(amount("0.0000000001").to_fixed_string(), "0.0000000001");
    for text in ["0", "12.5", "0.0000000001", "9999999999.9999999999"] {
        let d = amount(text);
        assert_eq!(Decimal::parse(&d.to_fixed_string()), Ok(d));
    }
}

#[test]
fn user_keys_carry_no_admin_only_fields() {
    assert_eq!(check_user_key_scope(&Vec::new(), &None, &None), Ok(()));
    assert_eq!(
        check_user_key_scope(&vec!["g".to_owned()], &None, &None).unwrap_err().kind,
        AdminErrorKind::Invalid
    );
    assert_eq!(
        check_user_key_scope(&Vec::new(), &Some("x".to_owned()), &None).unwrap_err().kind,
        AdminErrorKind::Invalid
    );
    assert_eq!(
        check_user_key_scope(&Vec::new(), &None, &Some("x".to_owned())).unwrap_err().kind,
        AdminErrorKind::Invalid
    );
}

#[test]
fn stored_cursors_are_checked_before_they_are_sent() {
    let sort = ClientKeySort { field: ClientKeySortField::Name, direction: ClientKeySortDirection::Asc };
    let cursor = ClientKeyCursor {
        sort,
        value: ClientKeyCursorValue::Name("alpha".to_owned()),
        id: ClientApiKeyId::new("key_1").expect("id"),
    };
    let wire = cursor.to_wire().expect("wire");
    assert_eq!(wire.sort, sort);
    assert_eq!(wire.value, ClientKeyCursorValue::Name("alpha".to_owned()));
    assert_eq!(wire.id, "key_1");
    let mismatched = ClientKeyCursor {
        sort,
        value: ClientKeyCursorValue::Enabled(true),
        id: ClientApiKeyId::new("key_1").expect("id"),
    };
    assert_eq!(mismatched.to_wire().unwrap_err().field, "cursor");
}

#[test]
fn mutation_targets_must_be_identifiers() {
    assert_eq!(ClientKeyMutationRequest { id: "key_1".to_owned() }.into_id(), Ok("key_1".to_owned()));
    assert_eq!(
        ClientKeyMutationRequest { id: String::new() }.into_id().unwrap_err().field,
        "clientKeyMutationNotFound"
    );
}

#[test]
fn secrets_are_lent_only_where_needed() {
    let settings = TurnstileSettings::new(true, Some("site".to_owned()), Some("secret".to_owned()));
    assert_eq!(settings.secret_for_store(), Some("secret"));
    assert_eq!(TurnstileSettings::disabled().secret_for_store(), None);
    let key = PlaintextClientApiKey::new("sk-live-123").expect("key");
    assert_eq!(key.expose_for_auth(), b"sk-live-123");
}
