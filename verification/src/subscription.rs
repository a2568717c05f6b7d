//! Subscription plans, user subscriptions, budget top-ups and their validation.

use vstd::prelude::*;

use crate::budget::UserBudgetStatus;
use crate::decimal::{canonical_text, Decimal};
use crate::error::{AdminError, AdminErrorKind};
use crate::policy::UserBudgetLimits;
use crate::text::{
    byte_len, char_count, contains_control, has_control, is_blank, is_trimmed, str_byte_len,
    str_eq, trim, trim_seq,
};
use crate::recovery::{lemma_text_lt_irreflexive, lemma_text_lt_transitive, text_less, text_lt};
use crate::users::UserRole;

verus! {

/// One subscription spans at most one hundred 365-day years.
pub const MAX_SUBSCRIPTION_DURATION_SECONDS: i64 = 3_153_600_000;

pub const MICROS_PER_SECOND: i64 = 1_000_000;

pub const SECONDS_PER_DAY: i64 = 86_400;

/// Longest subscription, in microseconds.
pub const MAX_SUBSCRIPTION_DURATION_MICROS: i128 = 3_153_600_000_000_000;

pub const MICROS_PER_DAY: i128 = 86_400_000_000;

/// Account budget window.
#[derive(Debug, Clone, Copy, PartialEq, Eq, Structural)]
pub enum BudgetWindowKind {
    Daily,
    Weekly,
    Monthly,
}

impl BudgetWindowKind {
    pub open spec fn text(self) -> Seq<char> {
        match self {
            BudgetWindowKind::Daily => "daily"@,
            BudgetWindowKind::Weekly => "weekly"@,
            BudgetWindowKind::Monthly => "monthly"@,
        }
    }

    pub fn as_str(self) -> (s: &'static str)
        ensures
            s@ == self.text(),
    {
        match self {
            BudgetWindowKind::Daily => "daily",
            BudgetWindowKind::Weekly => "weekly",
            BudgetWindowKind::Monthly => "monthly",
        }
    }

    /// The window named by `value`, if any.
    pub fn parse(value: &str) -> (r: Option<BudgetWindowKind>)
        ensures
            r matches Some(k) ==> k.text() == value@,
            r is None ==> (value@ != "daily"@ && value@ != "weekly"@ && value@ != "monthly"@),
    {
        if str_eq(value, "daily") {
            Some(BudgetWindowKind::Daily)
        } else if str_eq(value, "weekly") {
            Some(BudgetWindowKind::Weekly)
        } else if str_eq(value, "monthly") {
            Some(BudgetWindowKind::Monthly)
        } else {
            None
        }
    }
}

/// Status of a subscription at a given instant.
#[derive(Debug, Clone, Copy, PartialEq, Eq, Structural)]
pub enum SubscriptionState {
    Revoked,
    Pending,
    Expired,
    Active,
}

impl SubscriptionState {
    pub open spec fn text(self) -> Seq<char> {
        match self {
            SubscriptionState::Revoked => "revoked"@,
            SubscriptionState::Pending => "pending"@,
            SubscriptionState::Expired => "expired"@,
            SubscriptionState::Active => "active"@,
        }
    }

    pub fn as_str(self) -> (s: &'static str)
        ensures
            s@ == self.text(),
    {
        match self {
            SubscriptionState::Revoked => "revoked",
            SubscriptionState::Pending => "pending",
            SubscriptionState::Expired => "expired",
            SubscriptionState::Active => "active",
        }
    }
}

#[derive(Debug, Clone, PartialEq, Eq)]
pub struct SubscriptionPlanRecord {
    pub id: String,
    pub is_base: bool,
    pub name: String,
    pub description: Option<String>,
    pub enabled: bool,
    pub budget_limits: UserBudgetLimits,
    pub created_at: i64,
    pub updated_at: i64,
}

#[derive(Debug, Clone, PartialEq, Eq)]
pub struct UserSubscriptionRecord {
    pub id: String,
    pub user_id: Option<String>,
    pub plan_id: String,
    pub plan_name: String,
    pub status: String,
    pub starts_at: i64,
    pub expires_at: i64,
    pub revoked_at: Option<i64>,
    pub downstream_rate_multiplier: Decimal,
    pub created_at: i64,
    pub updated_at: i64,
}

/// A subscription is revoked by its stored status; otherwise pending before it
/// starts, expired from its expiry on, and active in between.
pub open spec fn subscription_state(status: Seq<char>, starts_at: i64, expires_at: i64, now: i64) -> SubscriptionState {
    if status == "revoked"@ {
        SubscriptionState::Revoked
    } else if starts_at > now {
        SubscriptionState::Pending
    } else if expires_at <= now {
        SubscriptionState::Expired
    } else {
        SubscriptionState::Active
    }
}

impl UserSubscriptionRecord {
    /// The state of a subscription at `now`.
    pub fn effective_state(&self, now: i64) -> (s: SubscriptionState)
        ensures
            s == subscription_state(self.status@, self.starts_at, self.expires_at, now),
    {
        if str_eq(self.status.as_str(), "revoked") {
            SubscriptionState::Revoked
        } else if self.starts_at > now {
            SubscriptionState::Pending
        } else if self.expires_at <= now {
            SubscriptionState::Expired
        } else {
            SubscriptionState::Active
        }
    }

    /// The name of the state of a subscription at `now`.
    pub fn effective_status(&self, now: i64) -> (s: &'static str)
        ensures
            s@ == subscription_state(self.status@, self.starts_at, self.expires_at, now).text(),
    {
        self.effective_state(now).as_str()
    }
}

#[derive(Debug, Clone, PartialEq, Eq)]
pub struct CreateSubscriptionPlan {
    pub name: String,
    pub description: Option<String>,
    pub budget_limits: UserBudgetLimits,
}

#[derive(Debug, Clone, PartialEq, Eq)]
pub struct NewSubscriptionPlan {
    pub id: String,
    pub name: String,
    pub description: Option<String>,
    pub budget_limits: UserBudgetLimits,
}

#[derive(Debug, Clone, PartialEq, Eq)]
pub struct UpdateSubscriptionPlan {
    pub id: String,
    pub name: String,
    pub description: Option<String>,
    pub budget_limits: UserBudgetLimits,
}

#[derive(Debug, Clone, PartialEq, Eq)]
pub struct SetSubscriptionPlanEnabled {
    pub id: String,
    pub enabled: bool,
}

#[derive(Debug, Clone, PartialEq, Eq)]
pub struct CreateUserSubscription {
    pub user_id: String,
    pub plan_id: String,
    pub starts_at: i64,
    pub expires_at: i64,
    pub downstream_rate_multiplier: Decimal,
}

#[derive(Debug, Clone, PartialEq, Eq)]
pub struct CreateUserBudgetCredit {
    pub user_id: String,
    pub window: BudgetWindowKind,
    pub amount: Decimal,
    pub idempotency_key: String,
    pub reason: String,
}

/// Clears the selected current windows; billing history and plans are kept.
#[derive(Debug, Clone, PartialEq, Eq)]
pub struct ResetUserBudget {
    pub user_id: String,
    pub daily: bool,
    pub weekly: bool,
    pub monthly: bool,
}

#[derive(Debug, Clone, PartialEq, Eq)]
pub struct UpdateUserSubscription {
    pub user_id: String,
    pub starts_at: Option<i64>,
    pub expires_at: Option<i64>,
    pub downstream_rate_multiplier: Option<Decimal>,
}

/// A relative renewal is computed from the expiry read under the user's lock.
#[derive(Debug, Clone, Copy, PartialEq, Eq, Structural)]
pub enum SubscriptionRenewal {
    ExtendByDays(u32),
    ExpiresAt(i64),
}

#[derive(Debug, Clone, PartialEq, Eq)]
pub struct RenewUserSubscription {
    pub user_id: String,
    pub renewal: SubscriptionRenewal,
}

#[derive(Debug, Clone, Copy, PartialEq, Eq, Structural)]
pub struct ControlPageQuery {
    pub page: u32,
    pub page_size: u32,
}

#[derive(Debug, Clone, PartialEq, Eq)]
pub struct ControlPage<T> {
    pub items: Vec<T>,
    pub page: u32,
    pub page_size: u32,
    pub total: u64,
}

#[derive(Debug, Clone, PartialEq, Eq)]
pub struct UserManagementQuery {
    pub pagination: ControlPageQuery,
    pub query: Option<String>,
    pub role: Option<UserRole>,
    pub enabled: Option<bool>,
    pub plan_id: Option<String>,
    pub group_id: Option<String>,
}

#[derive(Debug, Clone, PartialEq, Eq)]
pub struct UserGroupRecord {
    pub group_id: String,
    pub name: String,
    pub enabled: bool,
    pub assigned_at: i64,
}

#[derive(Debug, Clone, PartialEq, Eq)]
pub struct UserBillingSummary {
    pub subscription: Option<UserSubscriptionRecord>,
    /// The plan of the active subscription, or the base plan.
    pub plan: SubscriptionPlanRecord,
    pub subscription_history: Vec<UserSubscriptionRecord>,
    pub effective_max_concurrency: Option<u64>,
    pub effective_requests_per_minute: Option<u64>,
    pub budget: UserBudgetStatus,
    pub groups: Vec<UserGroupRecord>,
}

/// One row of the administrators' account list: the account and its billing.
/// `updated_at` is in microseconds since the epoch.
#[derive(Debug, Clone, PartialEq, Eq)]
pub struct UserManagementRecord {
    pub user_id: String,
    pub username: String,
    pub role: UserRole,
    pub enabled: bool,
    pub updated_at: i64,
    pub billing: UserBillingSummary,
}

/// A plan name is non-blank, has no surrounding white space, at most 100 bytes
/// and no control character; a description has at most 4096 bytes and no control
/// character.
pub open spec fn plan_text_ok(name: Seq<char>, description: Option<Seq<char>>) -> bool {
    &&& trim_seq(name).len() != 0
    &&& trim_seq(name) == name
    &&& byte_len(name) <= 100
    &&& !has_control(name)
    &&& (description matches Some(d) ==> byte_len(d) <= 4096 && !has_control(d))
}

/// Checks a plan's name and description (`Invalid`).
pub fn validate_plan_name(name: &str, description: Option<&str>) -> (r: Result<(), AdminError>)
    ensures
        r is Ok <==> plan_text_ok(
            name@,
            match description {
                Some(d) => Some(d@),
                None => None,
            },
        ),
        r matches Err(e) ==> e.kind == AdminErrorKind::Invalid && e.message == "套餐配置不合法",
{
    let bad_description = match description {
        Some(d) => str_byte_len(d) > 4096 || contains_control(d),
        None => false,
    };
    if is_blank(name) || !is_trimmed(name) || str_byte_len(name) > 100 || contains_control(name)
        || bad_description {
        return Err(AdminError::invalid("套餐配置不合法"));
    }
    Ok(())
}

/// Longest subscription, in microseconds.
pub open spec fn max_subscription_micros() -> int {
    MAX_SUBSCRIPTION_DURATION_MICROS as int
}

/// A subscription must end after it starts and last at most a hundred years.
pub open spec fn subscription_dates_ok(start: i64, end: i64) -> bool {
    0 < end - start && end - start <= max_subscription_micros()
}

/// A subscription must end after it starts and last at most the longest term (`Invalid`).
pub fn validate_subscription_dates(start: i64, end: i64) -> (r: Result<(), AdminError>)
    ensures
        r is Ok <==> subscription_dates_ok(start, end),
        r matches Err(e) ==> e.kind == AdminErrorKind::Invalid && e.message == "订阅到期必须晚于开始，且期限不能超过一百年",
{
    let duration: i128 = (end as i128) - (start as i128);
    if duration <= 0 || duration > MAX_SUBSCRIPTION_DURATION_MICROS {
        return Err(AdminError::invalid("订阅到期必须晚于开始，且期限不能超过一百年"));
    }
    Ok(())
}

/// A page is numbered from one and holds one to a hundred rows.
pub open spec fn pagination_ok(q: ControlPageQuery) -> bool {
    q.page != 0 && 1 <= q.page_size && q.page_size <= 100
}

/// Pages count from one and hold one to a hundred rows (`Invalid`).
pub fn validate_pagination(query: ControlPageQuery) -> (r: Result<(), AdminError>)
    ensures
        r is Ok <==> pagination_ok(query),
        r matches Err(e) ==> e.kind == AdminErrorKind::Invalid && e.message == "分页参数不合法",
{
    if query.page == 0 || !(1 <= query.page_size && query.page_size <= 100) {
        return Err(AdminError::invalid("分页参数不合法"));
    }
    Ok(())
}

/// Rows skipped before a page.
pub fn page_offset(query: ControlPageQuery) -> (r: Result<i64, AdminError>)
    ensures
        r is Ok <==> pagination_ok(query),
        r matches Ok(v) ==> v == (query.page - 1) * query.page_size,
        r matches Err(e) ==> e.kind == AdminErrorKind::Invalid && e.message == "分页参数不合法",
{
    validate_pagination(query)?;
    let page = (query.page - 1) as i64;
    let size = query.page_size as i64;
    assert(page * size <= 4294967295 * 100) by (nonlinear_arith)
        requires
            0 <= page <= 4294967295,
            0 <= size <= 100,
    ;
    Ok(page * size)
}

/// A row count read back from the database; negative counts are refused.
pub fn row_count(value: i64) -> (r: Result<u64, AdminError>)
    ensures
        r is Ok <==> value >= 0,
        r matches Ok(v) ==> v == value,
        r matches Err(e) ==> e.kind == AdminErrorKind::Invalid && e.message == "invalid count",
{
    if value < 0 {
        return Err(AdminError::invalid("invalid count"));
    }
    Ok(value as u64)
}

/// A relative renewal extends by one day to a hundred years.
pub open spec fn renewal_days_ok(days: u32) -> bool {
    days != 0 && days * SECONDS_PER_DAY <= MAX_SUBSCRIPTION_DURATION_SECONDS
}

/// A renewal by days must add a positive, bounded number of days (`Invalid`).
pub fn validate_renewal(renewal: SubscriptionRenewal) -> (r: Result<(), AdminError>)
    ensures
        r is Ok <==> (renewal matches SubscriptionRenewal::ExtendByDays(d) ==> renewal_days_ok(d)),
        r matches Err(e) ==> e.kind == AdminErrorKind::Invalid && e.message == "续期天数不合法",
{
    if let SubscriptionRenewal::ExtendByDays(days) = renewal {
        if days == 0 || (days as i64) * SECONDS_PER_DAY > MAX_SUBSCRIPTION_DURATION_SECONDS {
            return Err(AdminError::invalid("续期天数不合法"));
        }
    }
    Ok(())
}

/// The expiry after a renewal of a subscription that runs from `starts_at` to
/// `expires_at`: it must move the expiry later and keep the dates valid.
pub open spec fn renewed_expiry_spec(starts_at: i64, expires_at: i64, renewal: SubscriptionRenewal) -> Option<int> {
    let end = match renewal {
        SubscriptionRenewal::ExpiresAt(e) => e as int,
        SubscriptionRenewal::ExtendByDays(d) => expires_at + d * MICROS_PER_DAY,
    };
    if (renewal matches SubscriptionRenewal::ExtendByDays(d) ==> renewal_days_ok(d)) && end
        <= i64::MAX && end > expires_at && 0 < end - starts_at && end - starts_at <= max_subscription_micros() {
        Some(end)
    } else {
        None
    }
}

/// Why a renewal is refused: the first of its checks that fails.
pub open spec fn renewal_error_message(starts_at: i64, expires_at: i64, renewal: SubscriptionRenewal) -> &'static str {
    let end = match renewal {
        SubscriptionRenewal::ExpiresAt(e) => e as int,
        SubscriptionRenewal::ExtendByDays(d) => expires_at + d * MICROS_PER_DAY,
    };
    if !(renewal matches SubscriptionRenewal::ExtendByDays(d) ==> renewal_days_ok(d)) {
        "续期天数不合法"
    } else if end > i64::MAX {
        "renewal date overflow"
    } else if end <= expires_at {
        "renewal must extend expiry"
    } else {
        "invalid subscription interval"
    }
}

/// The expiry after a renewal: later than the current one, within the longest
/// term from the start, and for a renewal by days a valid number of days.
pub fn renewed_expiry(starts_at: i64, expires_at: i64, renewal: SubscriptionRenewal) -> (r: Result<
    i64,
    AdminError,
>)
    ensures
        match renewed_expiry_spec(starts_at, expires_at, renewal) {
            Some(e) => r == Ok::<i64, AdminError>(e as i64),
            None => r is Err,
        },
        r matches Err(e) ==> e.kind == AdminErrorKind::Invalid && e.message == renewal_error_message(
            starts_at,
            expires_at,
            renewal,
        ),
{
    validate_renewal(renewal)?;
    let end: i128 = match renewal {
        SubscriptionRenewal::ExpiresAt(e) => e as i128,
        SubscriptionRenewal::ExtendByDays(days) => (expires_at as i128) + (days as i128)
            * MICROS_PER_DAY,
    };
    if end > i64::MAX as i128 {
        return Err(AdminError::invalid("renewal date overflow"));
    }
    if end <= expires_at as i128 {
        return Err(AdminError::invalid("renewal must extend expiry"));
    }
    let duration = end - (starts_at as i128);
    if duration <= 0 || duration > MAX_SUBSCRIPTION_DURATION_MICROS {
        return Err(AdminError::invalid("invalid subscription interval"));
    }
    Ok(end as i64)
}

/// The service-level check of an edit: something must change, and when both
/// dates are given they must form a valid interval.
pub open spec fn subscription_update_ok(c: UpdateUserSubscription) -> bool {
    &&& !(c.starts_at is None && c.expires_at is None && c.downstream_rate_multiplier is None)
    &&& match (c.starts_at, c.expires_at) {
        (Some(s), Some(e)) => subscription_dates_ok(s, e),
        _ => true,
    }
}

/// A subscription edit must change something, with valid dates when both are given.
pub fn validate_subscription_update(command: &UpdateUserSubscription) -> (r: Result<(), AdminError>)
    ensures
        r is Ok <==> subscription_update_ok(*command),
        r matches Err(e) ==> e.kind == AdminErrorKind::Invalid && e.message == if command.starts_at is None
            && command.expires_at is None && command.downstream_rate_multiplier is None {
            "至少更新一项订阅配置"
        } else {
            "订阅到期必须晚于开始，且期限不能超过一百年"
        },
{
    if command.starts_at.is_none() && command.expires_at.is_none()
        && command.downstream_rate_multiplier.is_none() {
        return Err(AdminError::invalid("至少更新一项订阅配置"));
    }
    match command.starts_at {
        Some(start) => match command.expires_at {
            Some(end) => validate_subscription_dates(start, end),
            None => Ok(()),
        },
        None => Ok(()),
    }
}

/// An edit changes at least one of the interval's ends or the multiplier.
pub open spec fn subscription_edits(c: UpdateUserSubscription) -> bool {
    !(c.starts_at is None && c.expires_at is None && c.downstream_rate_multiplier is None)
}

/// The interval and multiplier after an edit of a subscription that runs from
/// `starts_at` to `expires_at` at `multiplier`: omitted fields keep their value,
/// and the edit must change something and leave a valid interval.
pub open spec fn edited_subscription(
    starts_at: i64,
    expires_at: i64,
    multiplier: Decimal,
    c: UpdateUserSubscription,
) -> Option<(i64, i64, Decimal)> {
    let start = match c.starts_at {
        Some(s) => s,
        None => starts_at,
    };
    let end = match c.expires_at {
        Some(e) => e,
        None => expires_at,
    };
    let m = match c.downstream_rate_multiplier {
        Some(m) => m,
        None => multiplier,
    };
    if subscription_edits(c) && subscription_dates_ok(start, end) {
        Some((start, end, m))
    } else {
        None
    }
}

/// The interval and multiplier after an edit of the subscription in force.
pub fn updated_subscription(
    current_starts_at: i64,
    current_expires_at: i64,
    current_multiplier: Decimal,
    command: &UpdateUserSubscription,
) -> (r: Result<(i64, i64, Decimal), AdminError>)
    ensures
        match edited_subscription(current_starts_at, current_expires_at, current_multiplier, *command) {
            Some(v) => r == Ok::<(i64, i64, Decimal), AdminError>(v),
            None => r matches Err(e) && e.kind == AdminErrorKind::Invalid && e.message == if command.starts_at
                is None && command.expires_at is None && command.downstream_rate_multiplier is None {
                "empty subscription update"
            } else {
                "订阅到期必须晚于开始，且期限不能超过一百年"
            },
        },
{
    if command.starts_at.is_none() && command.expires_at.is_none()
        && command.downstream_rate_multiplier.is_none() {
        return Err(AdminError::invalid("empty subscription update"));
    }
    let start = match command.starts_at {
        Some(s) => s,
        None => current_starts_at,
    };
    let end = match command.expires_at {
        Some(e) => e,
        None => current_expires_at,
    };
    let multiplier = match command.downstream_rate_multiplier {
        Some(m) => m,
        None => current_multiplier,
    };
    validate_subscription_dates(start, end)?;
    Ok((start, end, multiplier))
}

/// A reset must select at least one window.
pub fn validate_budget_reset(command: &ResetUserBudget) -> (r: Result<(), AdminError>)
    ensures
        r is Ok <==> (command.daily || command.weekly || command.monthly),
        r matches Err(e) ==> e.kind == AdminErrorKind::Invalid && e.message == "至少选择一个额度窗口",
{
    if !command.daily && !command.weekly && !command.monthly {
        return Err(AdminError::invalid("至少选择一个额度窗口"));
    }
    Ok(())
}

/// A top-up's idempotency key is non-blank, at most 128 bytes and free of control
/// characters; its (trimmed) reason is non-blank, at most 1024 characters and free
/// of control characters.
pub open spec fn credit_text_ok(idempotency_key: Seq<char>, reason: Seq<char>) -> bool {
    let r = trim_seq(reason);
    &&& trim_seq(idempotency_key).len() != 0
    &&& byte_len(idempotency_key) <= 128
    &&& !has_control(idempotency_key)
    &&& r.len() != 0
    &&& r.len() <= 1024
    &&& !has_control(r)
}

/// Trims the reason of a top-up and checks its text.
pub fn normalize_budget_credit(command: CreateUserBudgetCredit) -> (r: Result<
    CreateUserBudgetCredit,
    AdminError,
>)
    ensures
        r is Ok <==> credit_text_ok(command.idempotency_key@, command.reason@),
        r matches Ok(c) ==> c.user_id == command.user_id && c.window == command.window && c.amount
            == command.amount && c.idempotency_key == command.idempotency_key && c.reason@
            == trim_seq(command.reason@),
        r matches Err(e) ==> e.kind == AdminErrorKind::Invalid && e.message == "充值幂等键或备注不合法",
{
    let reason = trim(command.reason.as_str());
    proof {
        crate::text::lemma_trimmed_iff(command.reason@);
        crate::text::lemma_trim_idempotent(command.reason@);
    }
    if is_blank(command.idempotency_key.as_str()) || str_byte_len(command.idempotency_key.as_str())
        > 128 || contains_control(command.idempotency_key.as_str()) || is_blank(reason.as_str())
        || char_count(reason.as_str()) > 1024 || contains_control(reason.as_str()) {
        return Err(AdminError::invalid("充值幂等键或备注不合法"));
    }
    Ok(
        CreateUserBudgetCredit {
            user_id: command.user_id,
            window: command.window,
            amount: command.amount,
            idempotency_key: command.idempotency_key,
            reason,
        },
    )
}

/// Index of the first subscription of `history` that is active at `now` under an
/// enabled plan, if any.
pub fn current_subscription_index(
    history: &Vec<UserSubscriptionRecord>,
    plans: &Vec<SubscriptionPlanRecord>,
    now: i64,
) -> (r: Option<usize>)
    ensures
        r matches Some(i) ==> i < history.len() && subscription_state(
            history@[i as int].status@,
            history@[i as int].starts_at,
            history@[i as int].expires_at,
            now,
        ) == SubscriptionState::Active && plan_enabled(plans@, history@[i as int].plan_id@),
        forall|j: int|
            0 <= j < history.len() && (r matches Some(i) ==> j < i) ==> !(subscription_state(
                #[trigger] history@[j].status@,
                history@[j].starts_at,
                history@[j].expires_at,
                now,
            ) == SubscriptionState::Active && plan_enabled(plans@, history@[j].plan_id@)),
{
    let mut i: usize = 0;
    while i < history.len()
        invariant
            i <= history.len(),
            forall|j: int|
                0 <= j < i ==> !(subscription_state(
                    #[trigger] history@[j].status@,
                    history@[j].starts_at,
                    history@[j].expires_at,
                    now,
                ) == SubscriptionState::Active && plan_enabled(plans@, history@[j].plan_id@)),
        decreases history.len() - i,
    {
        let s = &history[i];
        if s.effective_state(now) == SubscriptionState::Active && find_enabled_plan(
            plans,
            s.plan_id.as_str(),
        ) {
            return Some(i);
        }
        i = i + 1;
    }
    None
}

/// Some enabled plan has this identifier.
pub open spec fn plan_enabled(plans: Seq<SubscriptionPlanRecord>, id: Seq<char>) -> bool {
    exists|j: int| 0 <= j < plans.len() && #[trigger] plans[j].id@ == id && plans[j].enabled
}

fn find_enabled_plan(plans: &Vec<SubscriptionPlanRecord>, id: &str) -> (b: bool)
    ensures
        b == plan_enabled(plans@, id@),
{
    let mut j: usize = 0;
    while j < plans.len()
        invariant
            j <= plans.len(),
            forall|k: int| 0 <= k < j ==> !(#[trigger] plans@[k].id@ == id@ && plans@[k].enabled),
        decreases plans.len() - j,
    {
        if plans[j].enabled && str_eq(plans[j].id.as_str(), id) {
            return true;
        }
        j = j + 1;
    }
    false
}

/// The enabled base plan a billing summary falls back on: when several are
/// enabled, the one with the least identifier.
pub open spec fn is_summary_base(plans: Seq<SubscriptionPlanRecord>, i: int) -> bool {
    &&& 0 <= i < plans.len()
    &&& plans[i].is_base && plans[i].enabled
    &&& forall|j: int|
        0 <= j < plans.len() && plans[j].is_base && plans[j].enabled ==> !text_lt(
            #[trigger] plans[j].id@,
            plans[i].id@,
        )
}

pub open spec fn has_enabled_base(plans: Seq<SubscriptionPlanRecord>) -> bool {
    exists|j: int| 0 <= j < plans.len() && #[trigger] plans[j].is_base && plans[j].enabled
}

pub open spec fn plan_with_id(plans: Seq<SubscriptionPlanRecord>, id: Seq<char>) -> bool {
    exists|j: int| 0 <= j < plans.len() && #[trigger] plans[j].id@ == id
}

/// The plan a billing summary shows: the plan of the subscription in force when
/// one is (`current_plan_id`), else the enabled base plan. There must be an enabled
/// base plan either way (`None` otherwise).
pub fn summary_plan_index(plans: &Vec<SubscriptionPlanRecord>, current_plan_id: Option<&str>) -> (r:
    Option<usize>)
    ensures
        r is Some <==> has_enabled_base(plans@),
        r matches Some(i) ==> i < plans.len() && match current_plan_id {
            Some(p) => if plan_with_id(plans@, p@) {
                plans@[i as int].id@ == p@ && forall|j: int|
                    0 <= j < i ==> plans@[j].id@ != p@
            } else {
                is_summary_base(plans@, i as int)
            },
            None => is_summary_base(plans@, i as int),
        },
{
    let mut base: Option<usize> = None;
    let mut k: usize = 0;
    while k < plans.len()
        invariant
            k <= plans.len(),
            match base {
                Some(b) => b < k && plans@[b as int].is_base && plans@[b as int].enabled && forall|j: int|
                    0 <= j < k && plans@[j].is_base && plans@[j].enabled ==> !text_lt(
                        #[trigger] plans@[j].id@,
                        plans@[b as int].id@,
                    ),
                None => forall|j: int| 0 <= j < k ==> !(#[trigger] plans@[j].is_base && plans@[j].enabled),
            },
        decreases plans.len() - k,
    {
        if plans[k].is_base && plans[k].enabled {
            let better = match base {
                None => true,
                Some(b) => text_less(plans[k].id.as_str(), plans[b].id.as_str()),
            };
            if better {
                proof {
                    if let Some(b) = base {
                        assert forall|j: int|
                            0 <= j < k + 1 && plans@[j].is_base && plans@[j].enabled implies !text_lt(
                            #[trigger] plans@[j].id@,
                            plans@[k as int].id@,
                        ) by {
                            if j < k {
                                if text_lt(plans@[j].id@, plans@[k as int].id@) {
                                    lemma_text_lt_transitive(plans@[j].id@, plans@[k as int].id@, plans@[b as int].id@);
                                }
                            } else {
                                lemma_text_lt_irreflexive(plans@[k as int].id@);
                            }
                        }
                    } else {
                        lemma_text_lt_irreflexive(plans@[k as int].id@);
                    }
                }
                base = Some(k);
            }
        }
        k = k + 1;
    }
    let b = match base {
        Some(b) => b,
        None => {
            return None;
        },
    };
    if let Some(p) = current_plan_id {
        let mut i: usize = 0;
        while i < plans.len()
            invariant
                i <= plans.len(),
                current_plan_id == Some(p),
                b < plans.len() && plans@[b as int].is_base && plans@[b as int].enabled,
                forall|j: int| 0 <= j < i ==> plans@[j].id@ != p@,
            decreases plans.len() - i,
        {
            if str_eq(plans[i].id.as_str(), p) {
                return Some(i);
            }
            i = i + 1;
        }
    }
    Some(b)
}

/// Where the effective plan comes from.
pub fn effective_source(summary: &UserBillingSummary) -> (s: &'static str)
    ensures
        s@ == (if summary.subscription is Some {
            "subscription"@
        } else {
            "basePlan"@
        }),
{
    if summary.subscription.is_some() {
        "subscription"
    } else {
        "basePlan"
    }
}

/// The downstream multiplier in force: the subscription's, or one on the base plan.
pub fn effective_multiplier(summary: &UserBillingSummary) -> (s: String)
    ensures
        s@ == match summary.subscription {
            Some(sub) => canonical_text(sub.downstream_rate_multiplier@),
            None => "1"@,
        },
{
    match &summary.subscription {
        Some(sub) => sub.downstream_rate_multiplier.canonical(),
        None => String::from_str("1"),
    }
}

} // verus!
