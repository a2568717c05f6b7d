use gateway::budget::ClientBudgetLimits;
use gateway::client_keys::ClientKeyBudgetPeriod;
use gateway::decimal::{u64_text, Decimal, MeteringError};
use gateway::policy::{
    ClientApiKeyId, ClientBillingPolicy, ClientPolicy, PlaintextClientApiKey, PolicyError,
    RateLimits, SubscriptionId, UserBudgetLimits,
};
use gateway::settlement::{
    admit_key, admit_user, check_user_budget, reset_changed_fields, reset_key_budget_windows,
    retry_after_micros, user_charge_amount, window_spend_after_charge, AdmissionRefusal,
    BudgetExhausted, BudgetPeriod, KeyBudgetWindows, UserWindowUsage, WindowCredits,
};

const NOW: i64 = 1_700_000_000_000_000;
const DAY: i64 = 86_400_000_000;

fn amount(value: &str) -> Decimal {
    Decimal::parse(value).expect("decimal")
}

#[test]
fn decimals_parse_and_print_canonically() {
    let d = amount("0012.3400");
    assert_eq!(d.canonical(), "12.34");
    assert_eq!(d.to_fixed_string(), "12.3400000000");
    assert_eq!(d.scaled(), 123_400_000_000);
    assert_eq!(amount("5").canonical(), "5");
    assert_eq!(amount("0.0000000001").scaled(), 1);
    assert_eq!(Decimal::zero().canonical(), "0");
    assert_eq!(amount(&amount("7.25").canonical()), amount("7.25"));
    assert_eq!(Decimal::parse("1.00000000001"), Err(MeteringError::InvalidDecimal));
    assert_eq!(Decimal::parse("-1"), Err(MeteringError::InvalidDecimal));
    assert_eq!(Decimal::parse(""), Err(MeteringError::InvalidDecimal));
    assert_eq!(Decimal::parse("1e3"), Err(MeteringError::InvalidDecimal));
    assert_eq!(Decimal::max_value().canonical(), "9999999999.9999999999");
    assert!(Decimal::parse("10000000000").is_err());
    assert_eq!(u64_text(0), "0");
    assert_eq!(u64_text(u64::MAX), "18446744073709551615");
}

#[test]
fn decimal_arithmetic_is_checked() {
    assert_eq!(amount("1.5").checked_add(amount("2.25")), Some(amount("3.75")));
    assert_eq!(Decimal::max_value().checked_add(amount("0.0000000001")), None);
    assert_eq!(amount("1.5").checked_mul(amount("3")), Some(amount("4.5")));
    assert_eq!(amount("0.0000000001").checked_mul(amount("0.5")), Some(Decimal::zero()));
    assert_eq!(amount("10").checked_div_u64(4), Some(amount("2.5")));
    assert_eq!(amount("10").checked_div_u64(0), None);
    assert_eq!(amount("1").saturating_sub(amount("3")), Decimal::zero());
    assert_eq!(Decimal::from_scaled(5), Ok(amount("0.0000000005")));
}

fn key_limits(daily: &str, weekly: &str) -> ClientBudgetLimits {
    ClientBudgetLimits { daily_usd: amount(daily), weekly_usd: amount(weekly) }
}

#[test]
fn key_admission_names_the_spent_period_weekly_first() {
    let limits = key_limits("10", "50");
    assert_eq!(admit_key(None, Decimal::zero(), Decimal::zero(), NOW, NOW, NOW), Err(AdmissionRefusal::KeyMissing));
    assert_eq!(
        admit_key(Some((limits, false)), Decimal::zero(), Decimal::zero(), NOW, NOW, NOW),
        Err(AdmissionRefusal::KeyDisabled)
    );
    assert_eq!(admit_key(Some((limits, true)), amount("9.99"), amount("49"), NOW + DAY, NOW + 7 * DAY, NOW), Ok(()));
    assert_eq!(
        admit_key(Some((limits, true)), amount("10"), amount("50"), NOW + DAY, NOW + 7 * DAY, NOW),
        Err(AdmissionRefusal::Exhausted(BudgetExhausted {
            period: BudgetPeriod::KeyWeekly,
            retry_after_micros: 7 * DAY as u64,
        }))
    );
    assert_eq!(
        admit_key(Some((limits, true)), amount("10"), amount("1"), NOW + DAY, NOW + 7 * DAY, NOW),
        Err(AdmissionRefusal::Exhausted(BudgetExhausted {
            period: BudgetPeriod::KeyDaily,
            retry_after_micros: DAY as u64,
        }))
    );
    let unlimited = key_limits("0", "0");
    assert_eq!(admit_key(Some((unlimited, true)), amount("1000"), amount("1000"), NOW, NOW, NOW), Ok(()));
    assert_eq!(retry_after_micros(NOW - 5, NOW), 1_000_000);
    assert_eq!(BudgetPeriod::UserMonthly.client_code(), "user_monthly_budget_exceeded");
}

fn window(used: &str, end: i64) -> UserWindowUsage {
    UserWindowUsage { used: amount(used), start: NOW - DAY, end }
}

fn plan(daily: Option<&str>, monthly: Option<&str>, starts_at: Option<i64>, expires_at: Option<i64>) -> ClientBillingPolicy {
    ClientBillingPolicy::for_plan_window(
        SubscriptionId::new("plan_pro").expect("plan"),
        Some(SubscriptionId::new("sub_1").expect("sub")),
        UserBudgetLimits { daily_usd: daily.map(amount), weekly_usd: None, monthly_usd: monthly.map(amount) },
        amount("1"),
        starts_at,
        expires_at,
    )
}

#[test]
fn account_admission_counts_credit_and_names_the_longest_spent_window() {
    let credits = WindowCredits { daily: amount("5"), weekly: Decimal::zero(), monthly: Decimal::zero() };
    let policy = plan(Some("10"), Some("100"), None, Some(NOW + 30 * DAY));
    let d = window("12", NOW + DAY);
    let w = window("12", NOW + 7 * DAY);
    let m = window("12", NOW + 20 * DAY);
    assert_eq!(admit_user(&policy, Some(true), d, w, m, credits, NOW), Ok(()));
    let spent = window("15", NOW + DAY);
    assert_eq!(
        admit_user(&policy, Some(true), spent, w, m, credits, NOW),
        Err(AdmissionRefusal::Exhausted(BudgetExhausted { period: BudgetPeriod::UserDaily, retry_after_micros: DAY as u64 }))
    );
    let month_spent = window("100", NOW + 20 * DAY);
    assert_eq!(
        admit_user(&policy, Some(true), spent, w, month_spent, credits, NOW),
        Err(AdmissionRefusal::Exhausted(BudgetExhausted {
            period: BudgetPeriod::UserMonthly,
            retry_after_micros: 20 * DAY as u64,
        }))
    );
    assert_eq!(admit_user(&policy, None, d, w, m, credits, NOW), Err(AdmissionRefusal::UserMissing));
    assert_eq!(admit_user(&policy, Some(false), d, w, m, credits, NOW), Err(AdmissionRefusal::UserDisabled));
    let expired = plan(Some("10"), None, None, Some(NOW));
    assert_eq!(admit_user(&expired, Some(true), d, w, m, credits, NOW), Err(AdmissionRefusal::SubscriptionInactive));
    let overflow = WindowCredits { daily: Decimal::max_value(), ..credits };
    assert_eq!(admit_user(&policy, Some(true), d, w, m, overflow, NOW), Err(AdmissionRefusal::Unavailable));
    assert_eq!(
        check_user_budget((None, None, Some(amount("1"))), d, w, m, NOW),
        Err(BudgetExhausted { period: BudgetPeriod::UserMonthly, retry_after_micros: 20 * DAY as u64 })
    );
}

#[test]
fn policy_in_force_follows_the_successor_and_the_fallback() {
    let base = plan(None, None, None, None);
    let current = plan(Some("1"), None, Some(NOW - DAY), Some(NOW + DAY)).with_fallback(base.copied());
    assert!(current.is_active_at(NOW));
    assert_eq!(current.effective_at(NOW).expect("policy").budget_limits().daily_usd, Some(amount("1")));
    let after = current.effective_at(NOW + DAY).expect("fallback");
    assert_eq!(after.budget_limits().daily_usd, None);
    assert_eq!(after.plan_id().as_str(), "plan_pro");
    let next = plan(Some("2"), None, Some(NOW + 10), Some(NOW + DAY));
    let chained = plan(Some("1"), None, None, Some(NOW + DAY)).with_successor(next);
    assert_eq!(chained.effective_at(NOW).expect("policy").budget_limits().daily_usd, Some(amount("1")));
    assert_eq!(chained.effective_at(NOW + 10).expect("policy").budget_limits().daily_usd, Some(amount("2")));
    assert!(plan(None, None, Some(NOW + 1), None).effective_at(NOW).is_none());
}

#[test]
fn charges_count_in_their_completion_window_and_are_billed_at_the_multiplier() {
    assert_eq!(window_spend_after_charge(amount("1"), amount("2"), NOW, NOW, NOW + DAY), Some(amount("3")));
    assert_eq!(window_spend_after_charge(amount("1"), amount("2"), NOW + DAY, NOW, NOW + DAY), Some(amount("1")));
    assert_eq!(window_spend_after_charge(amount("1"), amount("2"), NOW - 1, NOW, NOW + DAY), Some(amount("1")));
    assert_eq!(user_charge_amount(None, amount("2")), Ok(None));
    assert_eq!(user_charge_amount(Some(amount("1.5")), amount("2")), Ok(Some(amount("3"))));
    assert_eq!(user_charge_amount(Some(Decimal::max_value()), amount("2")), Err(()));
}

#[test]
fn key_budget_reset_clears_and_restarts_only_the_chosen_windows() {
    let windows = KeyBudgetWindows {
        daily_used_usd: amount("3"),
        daily_start: NOW - 10,
        daily_end: NOW + DAY,
        weekly_used_usd: amount("9"),
        weekly_start: NOW - DAY,
        weekly_end: NOW + 6 * DAY,
    };
    let daily = reset_key_budget_windows(windows, ClientKeyBudgetPeriod::Daily, NOW);
    assert_eq!(daily.daily_used_usd, Decimal::zero());
    assert_eq!(daily.daily_start, NOW);
    assert_eq!(daily.weekly_used_usd, amount("9"));
    assert_eq!(daily.weekly_start, NOW - DAY);
    let all = reset_key_budget_windows(windows, ClientKeyBudgetPeriod::All, NOW);
    assert_eq!(all.weekly_used_usd, Decimal::zero());
    assert_eq!(all.weekly_start, NOW);
    assert_eq!(reset_changed_fields(ClientKeyBudgetPeriod::Weekly), vec!["weekly_used_usd", "weekly_start"]);
    assert_eq!(reset_changed_fields(ClientKeyBudgetPeriod::All).len(), 4);
}

#[test]
fn key_policy_authorizes_only_an_enabled_key() {
    let id = ClientApiKeyId::new("key_1").expect("id");
    let plaintext = PlaintextClientApiKey::new("sk_test_0123456789").expect("key");
    let limits = RateLimits { max_concurrency: 1, requests_per_minute: 10 };
    let enabled = ClientPolicy::new(id.copied(), plaintext.copied(), vec!["group_a".to_owned()], true, limits);
    assert_eq!(enabled.authorize(), Ok(()));
    assert_eq!(enabled.plaintext_key().expose_text(), "sk_test_0123456789");
    assert_eq!(enabled.account_scope(), &vec!["group_a".to_owned()]);
    let disabled = ClientPolicy::new(id, plaintext, Vec::new(), false, limits);
    assert_eq!(disabled.authorize(), Err(PolicyError::Denied { reason: "client API key is disabled" }));
    assert!(ClientApiKeyId::new("").is_err());
    assert!(ClientApiKeyId::new(&"k".repeat(129)).is_err());
    assert!(PlaintextClientApiKey::new("has space").is_err());
}

fn policy_id(s: &str) -> gateway::policy::SubscriptionId {
    gateway::policy::SubscriptionId::new(s).expect("id")
}

#[test]
fn an_expired_policy_falls_back_and_a_started_successor_takes_over() {
    let limits = gateway::policy::UserBudgetLimits::default();
    let zero = gateway::decimal::Decimal::zero();
    let base = ClientBillingPolicy::for_plan(policy_id("base"), None, limits, zero, None);
    let pro = ClientBillingPolicy::for_plan_window(
        policy_id("pro"),
        Some(policy_id("sub_1")),
        limits,
        zero,
        Some(0),
        Some(100),
    )
    .with_fallback(base.clone());
    assert_eq!(pro.effective_at(50), Some(pro.clone()));
    assert_eq!(pro.effective_at(100), Some(base.clone()));
    assert_eq!(pro.effective_at(150), Some(base));

    let next = ClientBillingPolicy::for_plan_window(policy_id("next"), None, limits, zero, Some(100), Some(300));
    let cur = ClientBillingPolicy::for_plan_window(policy_id("cur"), None, limits, zero, Some(0), Some(200))
        .with_successor(next.clone());
    assert_eq!(cur.effective_at(50), Some(cur.clone()));
    assert_eq!(cur.effective_at(100), Some(next.clone()));
    assert_eq!(cur.effective_at(150), Some(next));
    assert_eq!(cur.effective_at(250), None);
}
