use gateway::decimal::Decimal;
use gateway::error::AdminErrorKind;
use gateway::requests::{
    CreateUserRequest, UpdateUserRequest, duration, pagination, validate_id, GrantRequest, GroupsRequest, ManagementQuery,
    PatchSubscriptionRequest, PlanRequest, RenewRequest, ResetBudgetRequest, TopupRequest,
    UserTopupQuery,
};
use gateway::subscription::{BudgetWindowKind, ControlPageQuery, SubscriptionRenewal};
use gateway::users::UserRole;

const NOW: i64 = 1_700_000_000_000_000;
const DAY: i64 = 86_400_000_000;

fn amount(value: &str) -> Decimal {
    Decimal::parse(value).expect("decimal")
}

#[test]
fn pages_default_to_the_first_twenty_rows() {
    assert_eq!(pagination(None, None), Ok(ControlPageQuery { page: 1, page_size: 20 }));
    assert_eq!(pagination(Some(3), Some(100)), Ok(ControlPageQuery { page: 3, page_size: 100 }));
    assert!(pagination(Some(0), None).is_err());
    assert!(pagination(None, Some(101)).is_err());
    assert!(pagination(None, Some(0)).is_err());
}

#[test]
fn wire_ids_are_trimmed_short_and_printable() {
    assert!(validate_id("user_1").is_ok());
    assert!(validate_id(" user_1").is_err());
    assert!(validate_id("").is_err());
    assert!(validate_id(&"u".repeat(129)).is_err());
    assert_eq!(duration(30), Ok(30 * DAY));
    assert!(duration(0).is_err());
    assert!(duration(36_501).is_err());
}

#[test]
fn grant_starts_now_and_ends_after_the_given_term() {
    let grant = GrantRequest {
        user_id: "user_1".to_owned(),
        plan_id: "plan_pro".to_owned(),
        starts_at: None,
        expires_at: None,
        duration_days: Some(30),
        multiplier: None,
    };
    let command = grant.into_command(NOW).expect("valid");
    assert_eq!(command.starts_at, NOW);
    assert_eq!(command.expires_at, NOW + 30 * DAY);
    assert_eq!(command.downstream_rate_multiplier, amount("1"));
    let both = GrantRequest {
        user_id: "user_1".to_owned(),
        plan_id: "plan_pro".to_owned(),
        starts_at: Some(NOW),
        expires_at: Some(NOW + DAY),
        duration_days: Some(1),
        multiplier: Some("1.5".to_owned()),
    };
    assert_eq!(both.into_command(NOW).unwrap_err().kind, AdminErrorKind::Invalid);
    let explicit = GrantRequest {
        user_id: "user_1".to_owned(),
        plan_id: "plan_pro".to_owned(),
        starts_at: Some(NOW + DAY),
        expires_at: Some(NOW + 2 * DAY),
        duration_days: None,
        multiplier: Some("1.5".to_owned()),
    };
    let command = explicit.into_command(NOW).expect("valid");
    assert_eq!((command.starts_at, command.expires_at), (NOW + DAY, NOW + 2 * DAY));
    assert_eq!(command.downstream_rate_multiplier, amount("1.5"));
}

#[test]
fn plan_and_subscription_requests_parse_their_amounts() {
    let plan = PlanRequest {
        name: "Pro".to_owned(),
        description: None,
        daily_limit_usd: Some("10".to_owned()),
        weekly_limit_usd: None,
        monthly_limit_usd: Some("0".to_owned()),
    }
    .into_command()
    .expect("valid");
    assert_eq!(plan.budget_limits.daily_usd, Some(amount("10")));
    assert_eq!(plan.budget_limits.weekly_usd, None);
    assert_eq!(plan.budget_limits.monthly_usd, Some(Decimal::zero()));
    let bad = PlanRequest {
        name: "Pro".to_owned(),
        description: None,
        daily_limit_usd: Some("ten".to_owned()),
        weekly_limit_usd: None,
        monthly_limit_usd: None,
    };
    assert!(bad.into_command().is_err());
    let patch = PatchSubscriptionRequest {
        user_id: "user_1".to_owned(),
        starts_at: None,
        expires_at: Some(NOW),
        multiplier: Some("2".to_owned()),
    }
    .into_command()
    .expect("valid");
    assert_eq!(patch.downstream_rate_multiplier, Some(amount("2")));
    assert_eq!(patch.expires_at, Some(NOW));
}

#[test]
fn renewal_takes_exactly_one_of_days_or_expiry() {
    let days = RenewRequest { user_id: "user_1".to_owned(), extend_by_days: Some(7), expires_at: None }
        .into_command()
        .expect("valid");
    assert_eq!(days.renewal, SubscriptionRenewal::ExtendByDays(7));
    let at = RenewRequest { user_id: "user_1".to_owned(), extend_by_days: None, expires_at: Some(NOW) }
        .into_command()
        .expect("valid");
    assert_eq!(at.renewal, SubscriptionRenewal::ExpiresAt(NOW));
    assert!(RenewRequest { user_id: "user_1".to_owned(), extend_by_days: Some(7), expires_at: Some(NOW) }
        .into_command()
        .is_err());
    assert!(RenewRequest { user_id: "user_1".to_owned(), extend_by_days: None, expires_at: None }
        .into_command()
        .is_err());
}

#[test]
fn topup_groups_and_reset_requests_are_checked() {
    let topup = TopupRequest {
        user_id: "user_1".to_owned(),
        window: "weekly".to_owned(),
        amount: "2.5".to_owned(),
        idempotency_key: "k1".to_owned(),
        reason: "refund".to_owned(),
    }
    .into_command()
    .expect("valid");
    assert_eq!(topup.window, BudgetWindowKind::Weekly);
    assert_eq!(topup.amount, amount("2.5"));
    let hourly = TopupRequest {
        user_id: "user_1".to_owned(),
        window: "hourly".to_owned(),
        amount: "1".to_owned(),
        idempotency_key: "k1".to_owned(),
        reason: "r".to_owned(),
    };
    assert!(hourly.into_command().is_err());
    let groups = GroupsRequest { user_id: "user_1".to_owned(), group_ids: vec!["group_a".to_owned()] };
    assert_eq!(groups.into_ids(), Ok(("user_1".to_owned(), vec!["group_a".to_owned()])));
    let bad_group = GroupsRequest { user_id: "user_1".to_owned(), group_ids: vec![String::new()] };
    assert!(bad_group.into_ids().is_err());
    let none = ResetBudgetRequest { user_id: "user_1".to_owned(), daily: false, weekly: false, monthly: false };
    assert!(none.into_command().is_err());
    let daily = ResetBudgetRequest { user_id: "user_1".to_owned(), daily: true, weekly: false, monthly: false };
    assert!(daily.into_command().expect("valid").daily);
    let query = UserTopupQuery { user_id: "user_1".to_owned(), page: None, page_size: None, window: Some("monthly".to_owned()) }
        .into_command()
        .expect("valid");
    assert_eq!(query.2, Some(BudgetWindowKind::Monthly));
}

#[test]
fn management_query_maps_role_status_and_search() {
    let query = ManagementQuery {
        page: None,
        page_size: Some(50),
        query: Some(String::new()),
        role: Some("admin".to_owned()),
        status: Some("disabled".to_owned()),
        plan_id: None,
        group_id: Some("group_a".to_owned()),
    }
    .into_command()
    .expect("valid");
    assert_eq!(query.pagination, ControlPageQuery { page: 1, page_size: 50 });
    assert_eq!(query.role, Some(UserRole::Admin));
    assert_eq!(query.enabled, Some(false));
    assert_eq!(query.query, None);
    assert_eq!(query.group_id.as_deref(), Some("group_a"));
    let bad_status = ManagementQuery {
        page: None,
        page_size: None,
        query: None,
        role: None,
        status: Some("active".to_owned()),
        plan_id: None,
        group_id: None,
    };
    assert!(bad_status.into_command().is_err());
}

#[test]
fn account_requests_cannot_choose_admin_on_creation_and_parse_roles_on_edit() {
    let create = CreateUserRequest { username: "bob".to_owned(), password: "secret".to_owned(), enabled: true }.into_command();
    assert_eq!(create.role, UserRole::User);
    assert_eq!(create.username, "bob");
    let edit = UpdateUserRequest {
        user_id: "user_1".to_owned(),
        username: None,
        role: Some("admin".to_owned()),
        enabled: Some(false),
        max_concurrency: Some(None),
        requests_per_minute: Some(Some(0)),
    };
    let command = edit.clone().into_command().expect("valid");
    assert_eq!(command.role, Some(UserRole::Admin));
    assert_eq!(command.max_concurrency, Some(None));
    assert_eq!(command.requests_per_minute, Some(Some(0)));
    assert!(UpdateUserRequest { role: Some("root".to_owned()), ..edit.clone() }.into_command().is_err());
    assert!(UpdateUserRequest { user_id: " user_1".to_owned(), ..edit }.into_command().is_err());
}
