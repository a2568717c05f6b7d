use gateway::billing_rules::UserBudgetCreditRecord;
use gateway::decimal::Decimal;
use gateway::error::AdminErrorKind;
use gateway::ledger::{
    check_reset_scope, user_budget_status, admit_key_request, admit_user_request, reset_user_budget, settle_key_charge, settle_user_charge, ClientBudgetCharge, ClientBudgetError,
    KeyChargeLedger, RecordedCharge, UserBudgetCharge, UserBudgetWindows, UserChargeLedger,
    UserWindowBounds, DAY_MICROS, WEEK_MICROS,
};
use gateway::policy::{ClientApiKeyId, ClientBillingPolicy, SubscriptionId, UserBudgetLimits, UserId};
use gateway::budget::ClientBudgetLimits;
use gateway::settlement::{AdmissionRefusal, BudgetExhausted, BudgetPeriod, KeyBudgetWindows};
use gateway::subscription::{BudgetWindowKind, ResetUserBudget};

const DAY_START: i64 = 1_700_006_400_000_000;

fn amount(value: &str) -> Decimal {
    Decimal::parse(value).expect("decimal")
}

fn key_ledger() -> KeyChargeLedger {
    KeyChargeLedger {
        windows: KeyBudgetWindows {
            daily_used_usd: amount("1"),
            daily_start: DAY_START,
            daily_end: DAY_START + DAY_MICROS,
            weekly_used_usd: amount("5"),
            weekly_start: DAY_START - 2 * DAY_MICROS,
            weekly_end: DAY_START + 5 * DAY_MICROS,
        },
        settled: Vec::new(),
    }
}

fn key_charge(request: &str, value: &str, completed_at: i64) -> ClientBudgetCharge {
    ClientBudgetCharge {
        key_id: ClientApiKeyId::new("key_1").expect("key id"),
        request_id: request.to_owned(),
        amount_usd: amount(value),
        completed_at,
    }
}

#[test]
fn key_charge_counts_once_per_request() {
    let mut ledger = key_ledger();
    let charge = key_charge("req_1", "0.25", DAY_START + 10);
    assert_eq!(settle_key_charge(&mut ledger, &charge, DAY_START), Ok(true));
    assert_eq!(ledger.windows.daily_used_usd, amount("1.25"));
    assert_eq!(ledger.windows.weekly_used_usd, amount("5.25"));
    let once = ledger.windows;
    assert_eq!(settle_key_charge(&mut ledger, &charge, DAY_START), Ok(false));
    assert_eq!(ledger.windows, once);
    assert_eq!(ledger.settled, vec!["req_1".to_owned()]);
}

#[test]
fn key_charge_after_window_end_starts_a_new_day() {
    let mut ledger = key_ledger();
    let next_day = DAY_START + DAY_MICROS;
    let charge = key_charge("req_2", "2", next_day + 5);
    assert_eq!(settle_key_charge(&mut ledger, &charge, next_day), Ok(true));
    assert_eq!(ledger.windows.daily_start, next_day);
    assert_eq!(ledger.windows.daily_end, next_day + DAY_MICROS);
    assert_eq!(ledger.windows.daily_used_usd, amount("2"));
    assert_eq!(ledger.windows.weekly_used_usd, amount("7"));
}

#[test]
fn key_charge_completed_before_a_moved_window_is_not_counted_there() {
    let mut ledger = key_ledger();
    let charge = key_charge("late", "3", DAY_START - 1);
    assert_eq!(settle_key_charge(&mut ledger, &charge, DAY_START - DAY_MICROS), Ok(true));
    assert_eq!(ledger.windows.daily_used_usd, amount("1"));
    assert_eq!(ledger.windows.daily_start, DAY_START);
    assert_eq!(ledger.windows.weekly_used_usd, amount("8"));
}

#[test]
fn key_charge_that_overflows_leaves_the_ledger_unchanged() {
    let mut ledger = key_ledger();
    ledger.windows.daily_used_usd = Decimal::max_value();
    let before = ledger.clone();
    let charge = key_charge("big", "1", DAY_START + 1);
    assert_eq!(settle_key_charge(&mut ledger, &charge, DAY_START), Err(ClientBudgetError));
    assert_eq!(ledger.windows, before.windows);
    assert!(ledger.settled.is_empty());
    assert_eq!(ClientBudgetError.message(), "client budget store is unavailable");
}

fn user_ledger() -> UserChargeLedger {
    UserChargeLedger {
        windows: UserBudgetWindows {
            daily_used_usd: Decimal::zero(),
            daily_start: DAY_START,
            daily_end: DAY_START + DAY_MICROS,
            weekly_used_usd: amount("4"),
            weekly_start: DAY_START - DAY_MICROS,
            weekly_end: DAY_START - DAY_MICROS + WEEK_MICROS,
            monthly_used_usd: amount("10"),
            monthly_start: DAY_START - 3 * DAY_MICROS,
            monthly_end: DAY_START + 27 * DAY_MICROS,
        },
        charges: Vec::new(),
    }
}

fn bounds() -> UserWindowBounds {
    UserWindowBounds {
        day_start: DAY_START,
        week_start: DAY_START - DAY_MICROS,
        month_start: DAY_START - 3 * DAY_MICROS,
        month_end: DAY_START + 27 * DAY_MICROS,
    }
}

fn user_charge(request: &str, base: Option<&str>, multiplier: &str) -> UserBudgetCharge {
    UserBudgetCharge {
        user_id: UserId::new("user_1").expect("user id"),
        key_id: ClientApiKeyId::new("key_1").expect("key id"),
        request_id: request.to_owned(),
        base_amount_usd: base.map(amount),
        policy: ClientBillingPolicy::for_plan(
            SubscriptionId::new("plan_base").expect("plan id"),
            None,
            UserBudgetLimits { daily_usd: None, weekly_usd: None, monthly_usd: None },
            amount(multiplier),
            None,
        ),
        completed_at: DAY_START + 100,
    }
}

#[test]
fn user_charge_is_billed_at_the_policy_multiplier() {
    let mut ledger = user_ledger();
    let charge = user_charge("req_1", Some("2"), "1.5");
    assert_eq!(settle_user_charge(&mut ledger, &charge, bounds()), Ok(Some(amount("3"))));
    assert_eq!(ledger.windows.daily_used_usd, amount("3"));
    assert_eq!(ledger.windows.weekly_used_usd, amount("7"));
    assert_eq!(ledger.windows.monthly_used_usd, amount("13"));
    assert_eq!(ledger.charges.len(), 1);
    let key = charge.key_charge(amount("3"));
    assert_eq!(key.request_id, "req_1");
    assert_eq!(key.amount_usd, amount("3"));
    assert_eq!(key.completed_at, charge.completed_at);
}

#[test]
fn user_charge_replay_keeps_the_first_billed_amount() {
    let mut ledger = user_ledger();
    ledger.charges.push(RecordedCharge {
        request_id: "req_1".to_owned(),
        billed_amount_usd: amount("0.5"),
    });
    let charge = user_charge("req_1", Some("2"), "3");
    assert_eq!(settle_user_charge(&mut ledger, &charge, bounds()), Ok(Some(amount("0.5"))));
    assert_eq!(ledger.windows.daily_used_usd, Decimal::zero());
    assert_eq!(ledger.charges.len(), 1);
}

#[test]
fn user_charge_without_base_amount_changes_nothing() {
    let mut ledger = user_ledger();
    let charge = user_charge("req_1", None, "1");
    assert_eq!(settle_user_charge(&mut ledger, &charge, bounds()), Ok(None));
    assert_eq!(ledger.windows, user_ledger().windows);
    assert!(ledger.charges.is_empty());
}

#[test]
fn user_charge_settled_twice_matches_settling_once() {
    let mut ledger = user_ledger();
    let charge = user_charge("req_9", Some("1"), "1");
    let first = settle_user_charge(&mut ledger, &charge, bounds());
    let once = ledger.windows;
    let second = settle_user_charge(&mut ledger, &charge, bounds());
    assert_eq!(first, second);
    assert_eq!(ledger.windows, once);
    assert_eq!(ledger.charges.len(), 1);
}

fn credit(id: &str, window: BudgetWindowKind, start: i64, end: i64) -> UserBudgetCreditRecord {
    UserBudgetCreditRecord {
        id: id.to_owned(),
        user_id: "user_1".to_owned(),
        plan_id: "plan_base".to_owned(),
        subscription_id: None,
        window,
        window_start: start,
        window_end: end,
        amount: amount("1"),
        reason: "refund".to_owned(),
        created_at: start,
    }
}

#[test]
fn user_budget_reset_clears_selected_windows_and_keeps_history() {
    let mut ledger = user_ledger();
    ledger.windows.daily_used_usd = amount("2");
    ledger.charges.push(RecordedCharge { request_id: "req_1".to_owned(), billed_amount_usd: amount("2") });
    let b = bounds();
    let mut credits = vec![
        credit("credit_day", BudgetWindowKind::Daily, b.day_start, b.day_start + DAY_MICROS),
        credit("credit_old_day", BudgetWindowKind::Daily, b.day_start - DAY_MICROS, b.day_start),
        credit("credit_week", BudgetWindowKind::Weekly, b.week_start, b.week_start + WEEK_MICROS),
        credit("credit_month", BudgetWindowKind::Monthly, b.month_start, b.month_end),
    ];
    let command = ResetUserBudget { user_id: "user_1".to_owned(), daily: true, weekly: false, monthly: true };
    assert_eq!(reset_user_budget(&mut ledger, &mut credits, &command, DAY_START + 100, b), Ok(()));
    assert_eq!(ledger.windows.daily_used_usd, Decimal::zero());
    assert_eq!(ledger.windows.daily_start, DAY_START);
    assert_eq!(ledger.windows.weekly_used_usd, amount("4"));
    assert_eq!(ledger.windows.monthly_used_usd, Decimal::zero());
    assert_eq!(ledger.charges.len(), 1);
    let ids: Vec<&str> = credits.iter().map(|c| c.id.as_str()).collect();
    assert_eq!(ids, vec!["credit_old_day", "credit_week"]);
    let none = ResetUserBudget { user_id: "user_1".to_owned(), daily: false, weekly: false, monthly: false };
    assert_eq!(
        reset_user_budget(&mut ledger, &mut credits, &none, DAY_START, b).unwrap_err().kind,
        AdminErrorKind::Invalid
    );
    assert_eq!(credits.len(), 2);
}

#[test]
fn key_admission_moves_windows_only_when_admitted() {
    let limits = ClientBudgetLimits { daily_usd: amount("1"), weekly_usd: amount("10") };
    let mut ledger = key_ledger();
    assert_eq!(
        admit_key_request(&mut ledger, Some((limits, true)), DAY_START + 5, DAY_START),
        Err(AdmissionRefusal::Exhausted(BudgetExhausted {
            period: BudgetPeriod::KeyDaily,
            retry_after_micros: (DAY_MICROS - 5) as u64,
        }))
    );
    assert_eq!(ledger.windows, key_ledger().windows);
    let next_day = DAY_START + DAY_MICROS;
    assert_eq!(admit_key_request(&mut ledger, Some((limits, true)), next_day + 5, next_day), Ok(()));
    assert_eq!(ledger.windows.daily_used_usd, Decimal::zero());
    assert_eq!(ledger.windows.daily_start, next_day);
    assert_eq!(ledger.windows.weekly_used_usd, amount("5"));
    assert_eq!(admit_key_request(&mut ledger, None, next_day, next_day), Err(AdmissionRefusal::KeyMissing));
    assert_eq!(
        admit_key_request(&mut ledger, Some((limits, false)), next_day, next_day),
        Err(AdmissionRefusal::KeyDisabled)
    );
}

fn limited_policy(daily: &str) -> ClientBillingPolicy {
    ClientBillingPolicy::for_plan(
        SubscriptionId::new("plan_base").expect("plan id"),
        None,
        UserBudgetLimits { daily_usd: Some(amount(daily)), weekly_usd: None, monthly_usd: None },
        amount("1"),
        None,
    )
}

#[test]
fn account_admission_counts_only_credits_of_the_current_window() {
    let mut ledger = user_ledger();
    ledger.windows.daily_used_usd = amount("3");
    let b = bounds();
    let policy = limited_policy("3");
    let current = credit("c1", BudgetWindowKind::Daily, b.day_start, b.day_start + DAY_MICROS);
    let stale = credit("c0", BudgetWindowKind::Daily, b.day_start - DAY_MICROS, b.day_start);
    let now = DAY_START + 100;
    assert_eq!(
        admit_user_request(&mut ledger, &vec![stale.clone()], &policy, Some(true), now, b),
        Err(AdmissionRefusal::Exhausted(BudgetExhausted {
            period: BudgetPeriod::UserDaily,
            retry_after_micros: (DAY_MICROS - 100) as u64,
        }))
    );
    assert_eq!(admit_user_request(&mut ledger, &vec![stale, current], &policy, Some(true), now, b), Ok(()));
    assert_eq!(
        admit_user_request(&mut ledger, &Vec::new(), &policy, None, now, b),
        Err(AdmissionRefusal::UserMissing)
    );
    let mut big = credit("c2", BudgetWindowKind::Daily, b.day_start, b.day_start + DAY_MICROS);
    big.amount = Decimal::max_value();
    assert_eq!(
        admit_user_request(&mut ledger, &vec![big], &policy, Some(true), now, b),
        Err(AdmissionRefusal::Unavailable)
    );
}

#[test]
fn budget_reset_reaches_only_keys_in_the_callers_scope() {
    assert_eq!(check_reset_scope(Some("user_1"), Some(true), Some(Some("user_1"))), Ok(()));
    assert_eq!(check_reset_scope(None, None, Some(None)), Ok(()));
    assert_eq!(check_reset_scope(Some("user_1"), Some(false), Some(Some("user_1"))).unwrap_err().kind, AdminErrorKind::NotFound);
    assert_eq!(check_reset_scope(Some("user_1"), Some(true), Some(Some("user_2"))).unwrap_err().kind, AdminErrorKind::NotFound);
    assert_eq!(check_reset_scope(None, None, Some(Some("user_1"))).unwrap_err().kind, AdminErrorKind::NotFound);
    assert_eq!(check_reset_scope(None, None, None).unwrap_err().kind, AdminErrorKind::NotFound);
}

#[test]
fn billing_summary_shows_current_windows_with_their_credits() {
    let mut ledger = user_ledger();
    ledger.windows.daily_used_usd = amount("2");
    let b = bounds();
    let limits = UserBudgetLimits { daily_usd: Some(amount("10")), weekly_usd: None, monthly_usd: Some(amount("0")) };
    let credits = vec![
        credit("c1", BudgetWindowKind::Daily, b.day_start, b.day_start + DAY_MICROS),
        credit("c2", BudgetWindowKind::Daily, b.day_start, b.day_start + DAY_MICROS),
        credit("c_old", BudgetWindowKind::Daily, b.day_start - DAY_MICROS, b.day_start),
    ];
    let status = user_budget_status(&ledger, &credits, "plan_base", limits, None, DAY_START + 1, b).expect("status");
    assert_eq!(status.daily.used, amount("2"));
    assert_eq!(status.daily.credit, amount("2"));
    assert_eq!(status.daily.effective_limit, Some(amount("12")));
    assert_eq!(status.daily.resets_at, DAY_START + DAY_MICROS);
    assert_eq!(status.weekly.effective_limit, None);
    assert_eq!(status.monthly.limit, Some(Decimal::zero()));
    assert_eq!(status.monthly.effective_limit, Some(Decimal::zero()));
    let next_day = user_budget_status(&ledger, &credits, "plan_base", limits, None, DAY_START + DAY_MICROS, UserWindowBounds { day_start: DAY_START + DAY_MICROS, ..b }).expect("status");
    assert_eq!(next_day.daily.used, Decimal::zero());
    assert_eq!(next_day.daily.credit, Decimal::zero());
    assert_eq!(ledger.windows.daily_used_usd, amount("2"));
    let other_plan = user_budget_status(&ledger, &credits, "plan_pro", limits, Some("sub_1"), DAY_START + 1, b).expect("status");
    assert_eq!(other_plan.daily.credit, Decimal::zero());
    let max_limits = UserBudgetLimits { daily_usd: Some(Decimal::max_value()), weekly_usd: None, monthly_usd: None };
    assert_eq!(
        user_budget_status(&ledger, &credits, "plan_base", max_limits, None, DAY_START + 1, b).unwrap_err().kind,
        AdminErrorKind::Invalid
    );
}
