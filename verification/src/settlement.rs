//! Budget admission and settlement decisions: whether a key or account may start
//! another request, what a finished request is billed, and where its charge counts.

use vstd::prelude::*;

use crate::budget::{ClientBudgetLimits, UserBudgetWindowStatus};
use crate::client_keys::ClientKeyBudgetPeriod;
use crate::decimal::{Decimal, DECIMAL_SCALE, MAX_SCALED_DECIMAL};
use crate::policy::{ClientBillingPolicy, UserBudgetLimits};

verus! {

/// One second, in microseconds.
pub const ONE_SECOND_MICROS: u64 = 1_000_000;

/// The budget period whose exhaustion refused a request.
#[derive(Debug, Clone, Copy, PartialEq, Eq, Structural)]
pub enum BudgetPeriod {
    KeyDaily,
    KeyWeekly,
    UserDaily,
    UserWeekly,
    UserMonthly,
}

impl BudgetPeriod {
    /// Stable client-facing code of the refusal.
    pub fn client_code(self) -> (s: &'static str)
        ensures
            s@ == match self {
                BudgetPeriod::KeyDaily => "key_daily_budget_exceeded"@,
                BudgetPeriod::KeyWeekly => "key_weekly_budget_exceeded"@,
                BudgetPeriod::UserDaily => "user_daily_budget_exceeded"@,
                BudgetPeriod::UserWeekly => "user_weekly_budget_exceeded"@,
                BudgetPeriod::UserMonthly => "user_monthly_budget_exceeded"@,
            },
    {
        match self {
            BudgetPeriod::KeyDaily => "key_daily_budget_exceeded",
            BudgetPeriod::KeyWeekly => "key_weekly_budget_exceeded",
            BudgetPeriod::UserDaily => "user_daily_budget_exceeded",
            BudgetPeriod::UserWeekly => "user_weekly_budget_exceeded",
            BudgetPeriod::UserMonthly => "user_monthly_budget_exceeded",
        }
    }
}

/// A refused admission: the exhausted period and how long until it resets.
#[derive(Debug, Clone, Copy, PartialEq, Eq, Structural)]
pub struct BudgetExhausted {
    pub period: BudgetPeriod,
    pub retry_after_micros: u64,
}

/// Why a budget admission was refused.
#[derive(Debug, Clone, Copy, PartialEq, Eq, Structural)]
pub enum AdmissionRefusal {
    /// The key row no longer exists.
    KeyMissing,
    /// The key is disabled.
    KeyDisabled,
    /// The owning account no longer exists.
    UserMissing,
    /// The owning account is disabled.
    UserDisabled,
    /// The billing plan is not in force at the request's start.
    SubscriptionInactive,
    /// A limited period is spent.
    Exhausted(BudgetExhausted),
    /// A limit plus its top-up credit leaves the amount range.
    Unavailable,
}

/// Time until `reset`, or one second when it has already passed.
pub open spec fn retry_after(reset: i64, now: i64) -> u64 {
    if reset >= now {
        (reset - now) as u64
    } else {
        ONE_SECOND_MICROS
    }
}

/// Microseconds until a window resets; one second once the reset is past.
pub fn retry_after_micros(reset: i64, now: i64) -> (r: u64)
    ensures
        r == retry_after(reset, now),
{
    if reset >= now {
        ((reset as i128) - (now as i128)) as u64
    } else {
        ONE_SECOND_MICROS
    }
}

/// A key period is spent when it is limited and its spend has reached the limit.
pub open spec fn key_period_spent(limit: Decimal, used: Decimal) -> bool {
    limit@ != 0 && used@ >= limit@
}

/// The key admission decision: when both periods are spent, the weekly one is named.
pub open spec fn key_budget_decision(
    limits: ClientBudgetLimits,
    daily_used: Decimal,
    weekly_used: Decimal,
    daily_end: i64,
    weekly_end: i64,
    now: i64,
) -> Option<BudgetExhausted> {
    if key_period_spent(limits.weekly_usd, weekly_used) {
        Some(
            BudgetExhausted {
                period: BudgetPeriod::KeyWeekly,
                retry_after_micros: retry_after(weekly_end, now),
            },
        )
    } else if key_period_spent(limits.daily_usd, daily_used) {
        Some(
            BudgetExhausted {
                period: BudgetPeriod::KeyDaily,
                retry_after_micros: retry_after(daily_end, now),
            },
        )
    } else {
        None
    }
}

/// Checks a key's current spend against its limits.
pub fn check_key_budget(
    limits: ClientBudgetLimits,
    daily_used: Decimal,
    weekly_used: Decimal,
    daily_end: i64,
    weekly_end: i64,
    now: i64,
) -> (r: Result<(), BudgetExhausted>)
    ensures
        match key_budget_decision(limits, daily_used, weekly_used, daily_end, weekly_end, now) {
            Some(e) => r == Err::<(), BudgetExhausted>(e),
            None => r is Ok,
        },
{
    let daily_exceeded = limits.daily_usd.scaled() != 0 && daily_used.scaled()
        >= limits.daily_usd.scaled();
    let weekly_exceeded = limits.weekly_usd.scaled() != 0 && weekly_used.scaled()
        >= limits.weekly_usd.scaled();
    if weekly_exceeded {
        Err(
            BudgetExhausted {
                period: BudgetPeriod::KeyWeekly,
                retry_after_micros: retry_after_micros(weekly_end, now),
            },
        )
    } else if daily_exceeded {
        Err(
            BudgetExhausted {
                period: BudgetPeriod::KeyDaily,
                retry_after_micros: retry_after_micros(daily_end, now),
            },
        )
    } else {
        Ok(())
    }
}

/// The key admission as a whole: the key must exist and be enabled; a key
/// with any limited period must not have spent it.
pub fn admit_key(
    key: Option<(ClientBudgetLimits, bool)>,
    daily_used: Decimal,
    weekly_used: Decimal,
    daily_end: i64,
    weekly_end: i64,
    now: i64,
) -> (r: Result<(), AdmissionRefusal>)
    ensures
        key is None ==> r == Err::<(), AdmissionRefusal>(AdmissionRefusal::KeyMissing),
        key matches Some((limits, enabled)) ==> {
            if !enabled {
                r == Err::<(), AdmissionRefusal>(AdmissionRefusal::KeyDisabled)
            } else {
                match key_budget_decision(
                    limits,
                    daily_used,
                    weekly_used,
                    daily_end,
                    weekly_end,
                    now,
                ) {
                    Some(e) => r == Err::<(), AdmissionRefusal>(AdmissionRefusal::Exhausted(e)),
                    None => r is Ok,
                }
            }
        },
{
    match key {
        None => Err(AdmissionRefusal::KeyMissing),
        Some((limits, enabled)) => {
            if !enabled {
                return Err(AdmissionRefusal::KeyDisabled);
            }
            if !limits.is_limited() {
                return Ok(());
            }
            match check_key_budget(limits, daily_used, weekly_used, daily_end, weekly_end, now) {
                Ok(()) => Ok(()),
                Err(e) => Err(AdmissionRefusal::Exhausted(e)),
            }
        },
    }
}

/// The limit in force for an account window: the plan limit plus the top-up
/// credit granted for exactly this plan, subscription and window.
pub open spec fn effective_limit_spec(limit: Option<Decimal>, credit: Decimal) -> Option<Option<nat>> {
    match limit {
        None => Some(None),
        Some(l) => if l@ + credit@ <= MAX_SCALED_DECIMAL {
            Some(Some(l@ + credit@))
        } else {
            None
        },
    }
}

/// Adds the window's credit to a plan limit; `Err` when the sum leaves the amount range.
pub fn effective_user_budget_limit(limit: Option<Decimal>, credit: Decimal) -> (r: Result<
    Option<Decimal>,
    AdmissionRefusal,
>)
    ensures
        match effective_limit_spec(limit, credit) {
            None => r == Err::<Option<Decimal>, AdmissionRefusal>(AdmissionRefusal::Unavailable),
            Some(None) => r == Ok::<Option<Decimal>, AdmissionRefusal>(None),
            Some(Some(v)) => r matches Ok(Some(d)) && d@ == v,
        },
{
    match limit {
        None => Ok(None),
        Some(l) => match l.checked_add(credit) {
            Some(d) => Ok(Some(d)),
            None => Err(AdmissionRefusal::Unavailable),
        },
    }
}

/// Spend and bounds of one account window at admission.
#[derive(Debug, Clone, Copy, PartialEq, Eq, Structural)]
pub struct UserWindowUsage {
    pub used: Decimal,
    pub start: i64,
    pub end: i64,
}

/// An account window is spent when it has a limit in force that its spend has reached.
pub open spec fn user_period_spent(limit: Option<Decimal>, used: Decimal) -> bool {
    limit matches Some(l) && used@ >= l@
}

/// The account decision: the longest spent window is named (monthly, then weekly, then daily).
pub open spec fn user_budget_decision(
    limits: (Option<Decimal>, Option<Decimal>, Option<Decimal>),
    daily: UserWindowUsage,
    weekly: UserWindowUsage,
    monthly: UserWindowUsage,
    now: i64,
) -> Option<BudgetExhausted> {
    if user_period_spent(limits.2, monthly.used) {
        Some(
            BudgetExhausted {
                period: BudgetPeriod::UserMonthly,
                retry_after_micros: retry_after(monthly.end, now),
            },
        )
    } else if user_period_spent(limits.1, weekly.used) {
        Some(
            BudgetExhausted {
                period: BudgetPeriod::UserWeekly,
                retry_after_micros: retry_after(weekly.end, now),
            },
        )
    } else if user_period_spent(limits.0, daily.used) {
        Some(
            BudgetExhausted {
                period: BudgetPeriod::UserDaily,
                retry_after_micros: retry_after(daily.end, now),
            },
        )
    } else {
        None
    }
}

/// Checks an account's spend against the limits in force (plan limit plus credit).
pub fn check_user_budget(
    limits: (Option<Decimal>, Option<Decimal>, Option<Decimal>),
    daily: UserWindowUsage,
    weekly: UserWindowUsage,
    monthly: UserWindowUsage,
    now: i64,
) -> (r: Result<(), BudgetExhausted>)
    ensures
        match user_budget_decision(limits, daily, weekly, monthly, now) {
            Some(e) => r == Err::<(), BudgetExhausted>(e),
            None => r is Ok,
        },
{
    let daily_exceeded = match limits.0 {
        Some(l) => daily.used.scaled() >= l.scaled(),
        None => false,
    };
    let weekly_exceeded = match limits.1 {
        Some(l) => weekly.used.scaled() >= l.scaled(),
        None => false,
    };
    let monthly_exceeded = match limits.2 {
        Some(l) => monthly.used.scaled() >= l.scaled(),
        None => false,
    };
    if monthly_exceeded {
        Err(
            BudgetExhausted {
                period: BudgetPeriod::UserMonthly,
                retry_after_micros: retry_after_micros(monthly.end, now),
            },
        )
    } else if weekly_exceeded {
        Err(
            BudgetExhausted {
                period: BudgetPeriod::UserWeekly,
                retry_after_micros: retry_after_micros(weekly.end, now),
            },
        )
    } else if daily_exceeded {
        Err(
            BudgetExhausted {
                period: BudgetPeriod::UserDaily,
                retry_after_micros: retry_after_micros(daily.end, now),
            },
        )
    } else {
        Ok(())
    }
}

/// Credits granted to each of the account's current windows.
#[derive(Debug, Clone, Copy, PartialEq, Eq, Structural)]
pub struct WindowCredits {
    pub daily: Decimal,
    pub weekly: Decimal,
    pub monthly: Decimal,
}

/// The account admission as a whole: the plan must be in force at `now`, the
/// account must exist and be enabled, and no limited window may be spent.
pub fn admit_user(
    policy: &ClientBillingPolicy,
    user_enabled: Option<bool>,
    daily: UserWindowUsage,
    weekly: UserWindowUsage,
    monthly: UserWindowUsage,
    credits: WindowCredits,
    now: i64,
) -> (r: Result<(), AdmissionRefusal>)
    ensures
        !policy.active_at(now) ==> r == Err::<(), AdmissionRefusal>(
            AdmissionRefusal::SubscriptionInactive,
        ),
        policy.active_at(now) && user_enabled is None ==> r == Err::<(), AdmissionRefusal>(
            AdmissionRefusal::UserMissing,
        ),
        policy.active_at(now) && user_enabled == Some(false) ==> r == Err::<(), AdmissionRefusal>(
            AdmissionRefusal::UserDisabled,
        ),
        policy.active_at(now) && user_enabled == Some(true) ==> ({
            let limits = policy.spec_budget_limits();
            let d = effective_limit_spec(limits.daily_usd, credits.daily);
            let w = effective_limit_spec(limits.weekly_usd, credits.weekly);
            let m = effective_limit_spec(limits.monthly_usd, credits.monthly);
            if d is None || w is None || m is None {
                r == Err::<(), AdmissionRefusal>(AdmissionRefusal::Unavailable)
            } else {
                r is Ok <==> !((d->0 matches Some(l) && daily.used@ >= l) || (w->0 matches Some(
                    l,
                ) && weekly.used@ >= l) || (m->0 matches Some(l) && monthly.used@ >= l))
            }
        }),
        r matches Err(AdmissionRefusal::Exhausted(e)) ==> {
            let limits = policy.spec_budget_limits();
            let d = effective_limit_spec(limits.daily_usd, credits.daily);
            let w = effective_limit_spec(limits.weekly_usd, credits.weekly);
            let m = effective_limit_spec(limits.monthly_usd, credits.monthly);
            &&& (m->0 matches Some(l) && monthly.used@ >= l) ==> e.period
                == BudgetPeriod::UserMonthly && e.retry_after_micros == retry_after(monthly.end, now)
            &&& !(m->0 matches Some(l) && monthly.used@ >= l) && (w->0 matches Some(l)
                && weekly.used@ >= l) ==> e.period == BudgetPeriod::UserWeekly
                && e.retry_after_micros == retry_after(weekly.end, now)
            &&& !(m->0 matches Some(l) && monthly.used@ >= l) && !(w->0 matches Some(l)
                && weekly.used@ >= l) ==> e.period == BudgetPeriod::UserDaily
                && e.retry_after_micros == retry_after(daily.end, now)
        },
{
    if !policy.is_active_at(now) {
        return Err(AdmissionRefusal::SubscriptionInactive);
    }
    match user_enabled {
        None => {
            return Err(AdmissionRefusal::UserMissing);
        },
        Some(false) => {
            return Err(AdmissionRefusal::UserDisabled);
        },
        Some(true) => {},
    }
    let limits = policy.budget_limits();
    let daily_limit = effective_user_budget_limit(limits.daily_usd, credits.daily)?;
    let weekly_limit = effective_user_budget_limit(limits.weekly_usd, credits.weekly)?;
    let monthly_limit = effective_user_budget_limit(limits.monthly_usd, credits.monthly)?;
    match check_user_budget((daily_limit, weekly_limit, monthly_limit), daily, weekly, monthly, now) {
        Ok(()) => Ok(()),
        Err(e) => Err(AdmissionRefusal::Exhausted(e)),
    }
}

/// What a finished request is billed: its base amount times the plan's
/// downstream multiplier, truncated to ten fractional digits.
pub open spec fn billed_amount(base: nat, multiplier: nat) -> nat {
    (base * multiplier) / (DECIMAL_SCALE as nat)
}

/// The account charge of a finished request: nothing when its base amount is
/// unknown; `Err` when the billed amount leaves the amount range.
pub fn user_charge_amount(base_amount: Option<Decimal>, multiplier: Decimal) -> (r: Result<
    Option<Decimal>,
    (),
>)
    ensures
        base_amount is None ==> r == Ok::<Option<Decimal>, ()>(None),
        base_amount matches Some(b) ==> (r is Ok <==> billed_amount(b@, multiplier@)
            <= MAX_SCALED_DECIMAL),
        base_amount matches Some(b) ==> (r matches Ok(x) ==> x matches Some(d) && d@
            == billed_amount(b@, multiplier@)),
{
    match base_amount {
        None => Ok(None),
        Some(base) => match base.checked_mul(multiplier) {
            Some(billed) => Ok(Some(billed)),
            None => Err(()),
        },
    }
}

/// A charge counts toward a window when it completed inside `[start, end)`.
pub open spec fn charge_in_window(completed_at: i64, start: i64, end: i64) -> bool {
    start <= completed_at && completed_at < end
}

/// A window's spend after one more charge; `None` when it leaves the amount range.
pub fn window_spend_after_charge(
    used: Decimal,
    amount: Decimal,
    completed_at: i64,
    start: i64,
    end: i64,
) -> (r: Option<Decimal>)
    ensures
        !charge_in_window(completed_at, start, end) ==> r == Some(used),
        charge_in_window(completed_at, start, end) ==> (r is Some <==> used@ + amount@
            <= MAX_SCALED_DECIMAL),
        charge_in_window(completed_at, start, end) ==> (r matches Some(d) ==> d@ == used@
            + amount@),
{
    if start <= completed_at && completed_at < end {
        used.checked_add(amount)
    } else {
        Some(used)
    }
}

/// The status of an account window shown to administrators and users: the plan
/// limit, spend, credit, the limit in force and the window's end; `None` when
/// limit plus credit leaves the amount range.
pub fn budget_window_status(limit: Option<Decimal>, used: Decimal, credit: Decimal, end: i64) -> (r:
    Option<UserBudgetWindowStatus>)
    ensures
        r is Some <==> effective_limit_spec(limit, credit) is Some,
        r matches Some(s) ==> s.limit == limit && s.used == used && s.credit == credit
            && s.resets_at == end && match effective_limit_spec(limit, credit) {
            Some(Some(v)) => s.effective_limit matches Some(e) && e@ == v,
            _ => s.effective_limit is None,
        },
{
    let effective_limit = match limit {
        None => None,
        Some(l) => match l.checked_add(credit) {
            Some(d) => Some(d),
            None => {
                return None;
            },
        },
    };
    Some(UserBudgetWindowStatus { limit, used, credit, effective_limit, resets_at: end })
}

/// The plan limit of a window kind, by position: 0 daily, 1 weekly, 2 monthly.
pub fn plan_limit_for(limits: UserBudgetLimits, window: crate::subscription::BudgetWindowKind) -> (r:
    Option<Decimal>)
    ensures
        r == match window {
            crate::subscription::BudgetWindowKind::Daily => limits.daily_usd,
            crate::subscription::BudgetWindowKind::Weekly => limits.weekly_usd,
            crate::subscription::BudgetWindowKind::Monthly => limits.monthly_usd,
        },
{
    match window {
        crate::subscription::BudgetWindowKind::Daily => limits.daily_usd,
        crate::subscription::BudgetWindowKind::Weekly => limits.weekly_usd,
        crate::subscription::BudgetWindowKind::Monthly => limits.monthly_usd,
    }
}

/// A key's stored spend windows: what each period has spent since its start,
/// and when it ends.
#[derive(Debug, Clone, Copy, PartialEq, Eq, Structural)]
pub struct KeyBudgetWindows {
    pub daily_used_usd: Decimal,
    pub daily_start: i64,
    pub daily_end: i64,
    pub weekly_used_usd: Decimal,
    pub weekly_start: i64,
    pub weekly_end: i64,
}

/// Whether a reset clears the daily and the weekly window.
pub fn reset_period_flags(period: ClientKeyBudgetPeriod) -> (r: (bool, bool))
    ensures
        r.0 == (period == ClientKeyBudgetPeriod::Daily || period == ClientKeyBudgetPeriod::All),
        r.1 == (period == ClientKeyBudgetPeriod::Weekly || period == ClientKeyBudgetPeriod::All),
{
    match period {
        ClientKeyBudgetPeriod::Daily => (true, false),
        ClientKeyBudgetPeriod::Weekly => (false, true),
        ClientKeyBudgetPeriod::All => (true, true),
    }
}

/// A budget reset at `reset_at`: each cleared window has spent nothing, and a
/// window still open starts again at the reset, so charges that completed
/// before the reset but are recorded later no longer count.
pub fn reset_key_budget_windows(
    windows: KeyBudgetWindows,
    period: ClientKeyBudgetPeriod,
    reset_at: i64,
) -> (r: KeyBudgetWindows)
    ensures
        ({
            let (daily, weekly) = (
                period == ClientKeyBudgetPeriod::Daily || period == ClientKeyBudgetPeriod::All,
                period == ClientKeyBudgetPeriod::Weekly || period == ClientKeyBudgetPeriod::All,
            );
            &&& r.daily_used_usd@ == if daily { 0 } else { windows.daily_used_usd@ }
            &&& r.daily_start == if daily && windows.daily_end > reset_at {
                reset_at
            } else {
                windows.daily_start
            }
            &&& r.daily_end == windows.daily_end
            &&& r.weekly_used_usd@ == if weekly { 0 } else { windows.weekly_used_usd@ }
            &&& r.weekly_start == if weekly && windows.weekly_end > reset_at {
                reset_at
            } else {
                windows.weekly_start
            }
            &&& r.weekly_end == windows.weekly_end
        }),
{
    let (daily, weekly) = reset_period_flags(period);
    KeyBudgetWindows {
        daily_used_usd: if daily {
            Decimal::zero()
        } else {
            windows.daily_used_usd
        },
        daily_start: if daily && windows.daily_end > reset_at {
            reset_at
        } else {
            windows.daily_start
        },
        daily_end: windows.daily_end,
        weekly_used_usd: if weekly {
            Decimal::zero()
        } else {
            windows.weekly_used_usd
        },
        weekly_start: if weekly && windows.weekly_end > reset_at {
            reset_at
        } else {
            windows.weekly_start
        },
        weekly_end: windows.weekly_end,
    }
}

/// After a reset, no charge that completed before the reset counts toward a
/// cleared window that was still open at the reset, whenever it is recorded.
pub proof fn lemma_reset_excludes_earlier_charges(
    before: KeyBudgetWindows,
    after: KeyBudgetWindows,
    reset_at: i64,
    completed_at: i64,
)
    requires
        after.daily_end == before.daily_end,
        after.daily_start == if before.daily_end > reset_at {
            reset_at
        } else {
            before.daily_start
        },
        before.daily_end > reset_at,
        completed_at < reset_at,
    ensures
        !charge_in_window(completed_at, after.daily_start, after.daily_end),
{
}

/// The audited fields of a key budget reset.
pub open spec fn reset_field_names(period: ClientKeyBudgetPeriod) -> Seq<Seq<char>> {
    let daily = if period == ClientKeyBudgetPeriod::Daily || period == ClientKeyBudgetPeriod::All {
        seq!["daily_used_usd"@, "daily_start"@]
    } else {
        Seq::<Seq<char>>::empty()
    };
    let weekly = if period == ClientKeyBudgetPeriod::Weekly || period == ClientKeyBudgetPeriod::All {
        seq!["weekly_used_usd"@, "weekly_start"@]
    } else {
        Seq::<Seq<char>>::empty()
    };
    daily + weekly
}

/// The audited field names of a key budget reset.
pub fn reset_changed_fields(period: ClientKeyBudgetPeriod) -> (r: Vec<String>)
    ensures
        r@.map_values(|s: String| s@) == reset_field_names(period),
{
    let (daily, weekly) = reset_period_flags(period);
    let mut out: Vec<String> = Vec::new();
    if daily {
        out.push("daily_used_usd".to_owned());
        out.push("daily_start".to_owned());
    }
    if weekly {
        out.push("weekly_used_usd".to_owned());
        out.push("weekly_start".to_owned());
    }
    assert(out@.map_values(|s: String| s@) == reset_field_names(period));
    out
}

} // verus!
