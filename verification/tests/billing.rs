use gateway::billing_rules::{
    budget_credit_command, check_known_groups, grant_command, new_plan_command, edit_current_subscription, grant_plan_check,
    normalize_group_ids, plan_state_action, renew_current_subscription, topup_credit_total,
    topup_replay, AddUserBudgetCredit, UserBudgetCreditRecord,
};
use gateway::decimal::Decimal;
use gateway::policy::UserBudgetLimits;
use gateway::error::AdminErrorKind;
use gateway::subscription::{
    summary_plan_index, SubscriptionPlanRecord, validate_budget_reset, validate_plan_name, validate_renewal, validate_subscription_dates,
    BudgetWindowKind, CreateSubscriptionPlan, CreateUserBudgetCredit, CreateUserSubscription, ResetUserBudget, SubscriptionRenewal,
    UpdateUserSubscription, UserSubscriptionRecord,
};

const DAY: i64 = 86_400_000_000;
const START: i64 = 1_700_000_000_000_000;

fn amount(value: &str) -> Decimal {
    Decimal::parse(value).expect("decimal")
}

fn subscription(starts_at: i64, expires_at: i64) -> UserSubscriptionRecord {
    UserSubscriptionRecord {
        id: "sub_1".to_owned(),
        user_id: Some("user_1".to_owned()),
        plan_id: "plan_pro".to_owned(),
        plan_name: "Pro".to_owned(),
        status: "active".to_owned(),
        starts_at,
        expires_at,
        revoked_at: None,
        downstream_rate_multiplier: amount("1.2"),
        created_at: starts_at,
        updated_at: starts_at,
    }
}

fn strings(items: &[&str]) -> Vec<String> {
    items.iter().map(|s| (*s).to_owned()).collect()
}

#[test]
fn base_plan_cannot_be_disabled_but_other_switches_name_their_action() {
    assert_eq!(plan_state_action(true, false).unwrap_err().kind, AdminErrorKind::Conflict);
    assert_eq!(plan_state_action(true, true), Ok("subscription_plan.enable"));
    assert_eq!(plan_state_action(false, false), Ok("subscription_plan.disable"));
}

#[test]
fn grant_needs_an_existing_enabled_plan() {
    assert_eq!(grant_plan_check(None).unwrap_err().kind, AdminErrorKind::NotFound);
    assert_eq!(grant_plan_check(Some(false)).unwrap_err().kind, AdminErrorKind::Conflict);
    assert_eq!(grant_plan_check(Some(true)), Ok(()));
}

#[test]
fn subscription_edit_keeps_omitted_fields_and_checks_the_interval() {
    let current = subscription(START, START + 30 * DAY);
    let empty = UpdateUserSubscription {
        user_id: "user_1".to_owned(),
        starts_at: None,
        expires_at: None,
        downstream_rate_multiplier: None,
    };
    assert_eq!(
        edit_current_subscription(Some(&current), &empty).unwrap_err().kind,
        AdminErrorKind::Invalid
    );
    let longer = UpdateUserSubscription { expires_at: Some(START + 60 * DAY), ..empty.clone() };
    assert_eq!(
        edit_current_subscription(None, &longer).unwrap_err().kind,
        AdminErrorKind::Conflict
    );
    assert_eq!(
        edit_current_subscription(Some(&current), &longer),
        Ok((START, START + 60 * DAY, amount("1.2")))
    );
    let inverted = UpdateUserSubscription { expires_at: Some(START - 1), ..empty };
    assert_eq!(
        edit_current_subscription(Some(&current), &inverted).unwrap_err().kind,
        AdminErrorKind::Invalid
    );
}

#[test]
fn renewal_extends_the_current_expiry() {
    let current = subscription(START, START + 30 * DAY);
    assert_eq!(
        renew_current_subscription(Some(&current), SubscriptionRenewal::ExtendByDays(10)),
        Ok(START + 40 * DAY)
    );
    assert_eq!(
        renew_current_subscription(Some(&current), SubscriptionRenewal::ExpiresAt(START + 30 * DAY))
            .unwrap_err()
            .kind,
        AdminErrorKind::Invalid
    );
    assert_eq!(
        renew_current_subscription(None, SubscriptionRenewal::ExtendByDays(1)).unwrap_err().kind,
        AdminErrorKind::Conflict
    );
    assert!(validate_renewal(SubscriptionRenewal::ExtendByDays(0)).is_err());
    assert!(validate_renewal(SubscriptionRenewal::ExtendByDays(36_500)).is_ok());
    assert!(validate_renewal(SubscriptionRenewal::ExtendByDays(36_501)).is_err());
}

#[test]
fn subscription_interval_is_positive_and_at_most_a_hundred_years() {
    assert!(validate_subscription_dates(START, START + 1).is_ok());
    assert!(validate_subscription_dates(START, START).is_err());
    assert!(validate_subscription_dates(START, START + 36_500 * DAY).is_ok());
    assert!(validate_subscription_dates(START, START + 36_500 * DAY + 1).is_err());
}

#[test]
fn plan_names_are_trimmed_short_and_printable() {
    assert!(validate_plan_name("Pro", Some("monthly plan")).is_ok());
    assert!(validate_plan_name(" Pro", None).is_err());
    assert!(validate_plan_name("", None).is_err());
    assert!(validate_plan_name(&"x".repeat(101), None).is_err());
    assert!(validate_plan_name("Pro", Some("tab\tinside")).is_err());
}

#[test]
fn group_ids_are_sorted_and_deduplicated() {
    let ids = normalize_group_ids(&strings(&["group_b", "group_a", "group_b", "group_c"]));
    assert_eq!(ids, strings(&["group_a", "group_b", "group_c"]));
    assert!(normalize_group_ids(&Vec::new()).is_empty());
}

#[test]
fn every_requested_group_must_exist() {
    let ids = strings(&["group_a", "group_b"]);
    assert_eq!(check_known_groups(&ids.clone(), &ids), Ok(()));
    assert_eq!(
        check_known_groups(&strings(&["group_a"]), &ids).unwrap_err().kind,
        AdminErrorKind::NotFound
    );
    assert_eq!(
        check_known_groups(&strings(&["group_a", "group_c"]), &ids).unwrap_err().kind,
        AdminErrorKind::NotFound
    );
}

fn credit_command(reason: &str) -> CreateUserBudgetCredit {
    CreateUserBudgetCredit {
        user_id: "user_1".to_owned(),
        window: BudgetWindowKind::Daily,
        amount: amount("5"),
        idempotency_key: "topup-1".to_owned(),
        reason: reason.to_owned(),
    }
}

#[test]
fn topup_command_trims_the_reason_and_gets_a_credit_id() {
    let command = budget_credit_command(credit_command("  support refund  ")).expect("valid");
    assert_eq!(command.reason, "support refund");
    assert!(command.id.starts_with("credit_"));
    assert_eq!(command.id.len(), "credit_".len() + 32);
    assert!(command.id["credit_".len()..].chars().all(|c| c.is_ascii_hexdigit() && !c.is_ascii_uppercase()));
    assert_eq!(budget_credit_command(credit_command("   ")).unwrap_err().kind, AdminErrorKind::Invalid);
    let mut long_key = credit_command("ok");
    long_key.idempotency_key = "k".repeat(129);
    assert!(budget_credit_command(long_key).is_err());
    let stored = AddUserBudgetCredit {
        id: "credit_x".to_owned(),
        user_id: "user_1".to_owned(),
        window: BudgetWindowKind::Weekly,
        amount: amount("1"),
        idempotency_key: "k".to_owned(),
        reason: " r ".to_owned(),
    };
    let normalized = stored.normalized().expect("valid");
    assert_eq!(normalized.reason, "r");
    assert_eq!(normalized.id, "credit_x");
}

#[test]
fn topup_replay_must_repeat_the_same_payload() {
    let previous = UserBudgetCreditRecord {
        id: "credit_1".to_owned(),
        user_id: "user_1".to_owned(),
        plan_id: "plan_base".to_owned(),
        subscription_id: None,
        window: BudgetWindowKind::Daily,
        window_start: START,
        window_end: START + DAY,
        amount: amount("5"),
        reason: "refund".to_owned(),
        created_at: START,
    };
    assert_eq!(topup_replay(&previous, &credit_command("refund")), Ok(()));
    assert_eq!(
        topup_replay(&previous, &credit_command("other")).unwrap_err().kind,
        AdminErrorKind::Conflict
    );
    let mut weekly = credit_command("refund");
    weekly.window = BudgetWindowKind::Weekly;
    assert!(topup_replay(&previous, &weekly).is_err());
}

#[test]
fn topup_needs_a_limited_window_and_a_representable_total() {
    assert_eq!(
        topup_credit_total(None, Decimal::zero(), amount("1")).unwrap_err().kind,
        AdminErrorKind::Conflict
    );
    assert_eq!(topup_credit_total(Some(amount("10")), amount("2"), amount("3")), Ok(amount("5")));
    assert_eq!(
        topup_credit_total(Some(Decimal::max_value()), Decimal::zero(), amount("1"))
            .unwrap_err()
            .kind,
        AdminErrorKind::Invalid
    );
}

#[test]
fn budget_reset_selects_at_least_one_window() {
    let none = ResetUserBudget { user_id: "user_1".to_owned(), daily: false, weekly: false, monthly: false };
    assert!(validate_budget_reset(&none).is_err());
    let monthly = ResetUserBudget { monthly: true, ..none };
    assert!(validate_budget_reset(&monthly).is_ok());
}

fn plan_record(id: &str, is_base: bool, enabled: bool) -> SubscriptionPlanRecord {
    SubscriptionPlanRecord {
        id: id.to_owned(),
        is_base,
        name: id.to_owned(),
        description: None,
        enabled,
        budget_limits: UserBudgetLimits { daily_usd: None, weekly_usd: None, monthly_usd: None },
        created_at: 0,
        updated_at: 0,
    }
}

#[test]
fn billing_summary_uses_the_subscription_plan_or_the_enabled_base_plan() {
    let plans = vec![
        plan_record("plan_pro", false, true),
        plan_record("plan_base_b", true, true),
        plan_record("plan_base_a", true, true),
        plan_record("plan_base_0", true, false),
    ];
    assert_eq!(summary_plan_index(&plans, Some("plan_pro")), Some(0));
    assert_eq!(summary_plan_index(&plans, None), Some(2));
    assert_eq!(summary_plan_index(&plans, Some("plan_gone")), Some(2));
    let no_base = vec![plan_record("plan_pro", false, true), plan_record("plan_base", true, false)];
    assert_eq!(summary_plan_index(&no_base, Some("plan_pro")), None);
}

#[test]
fn grants_get_a_fresh_subscription_id_and_a_valid_term() {
    let command = CreateUserSubscription {
        user_id: "user_1".to_owned(),
        plan_id: "plan_pro".to_owned(),
        starts_at: START,
        expires_at: START + 30 * DAY,
        downstream_rate_multiplier: amount("1.2"),
    };
    let grant = grant_command(command.clone()).expect("grant");
    assert!(grant.id.starts_with("sub_"));
    assert_eq!(grant.id.len(), 36);
    assert_eq!(grant.user_id, "user_1");
    assert_eq!(grant.plan_id, "plan_pro");
    assert_eq!(grant.starts_at, START);
    assert_eq!(grant.expires_at, START + 30 * DAY);
    assert_eq!(grant.downstream_rate_multiplier, amount("1.2"));
    let other = grant_command(command.clone()).expect("grant");
    assert_ne!(grant.id, other.id);
    let mut backwards = command;
    backwards.expires_at = START;
    assert_eq!(grant_command(backwards).unwrap_err().kind, AdminErrorKind::Invalid);
}

#[test]
fn new_plans_get_a_fresh_plan_id_and_checked_texts() {
    let limits = UserBudgetLimits {
        daily_usd: Some(amount("5")),
        weekly_usd: None,
        monthly_usd: Some(amount("100")),
    };
    let command = CreateSubscriptionPlan {
        name: "Pro".to_owned(),
        description: Some("For teams".to_owned()),
        budget_limits: limits,
    };
    let plan = new_plan_command(command.clone()).expect("plan");
    assert!(plan.id.starts_with("plan_"));
    assert_eq!(plan.id.len(), 37);
    assert_eq!(plan.name, "Pro");
    assert_eq!(plan.description, Some("For teams".to_owned()));
    assert_eq!(plan.budget_limits, limits);
    let mut padded = command.clone();
    padded.name = " Pro".to_owned();
    assert_eq!(new_plan_command(padded).unwrap_err().kind, AdminErrorKind::Invalid);
    let mut blank = command;
    blank.name = "   ".to_owned();
    assert_eq!(new_plan_command(blank).unwrap_err().kind, AdminErrorKind::Invalid);
}
