//! Administrator billing requests as they arrive on the wire, and their checks
//! and conversion into service commands.

use vstd::prelude::*;

use crate::decimal::{parse_decimal_text, Decimal};
use crate::error::{AdminError, AdminErrorKind};
use crate::policy::{identifier_error, validate_identifier, UserBudgetLimits};
use crate::subscription::{
    max_subscription_micros, BudgetWindowKind, ControlPageQuery, CreateSubscriptionPlan,
    CreateUserBudgetCredit, CreateUserSubscription, RenewUserSubscription, ResetUserBudget,
    SubscriptionRenewal, UpdateUserSubscription, UserManagementQuery, MAX_SUBSCRIPTION_DURATION_SECONDS,
    MICROS_PER_DAY, SECONDS_PER_DAY,
};
use crate::text::{byte_len, contains_control, has_control, is_trimmed, str_byte_len, str_eq, trim_seq};
use crate::users::{CreateUser, UpdateUser, UserRole};

verus! {

/// A resource identifier on the wire: non-empty, at most 128 bytes, no
/// surrounding white space, no control character.
pub open spec fn wire_id_ok(s: Seq<char>) -> bool {
    &&& s.len() > 0
    &&& byte_len(s) <= 128
    &&& trim_seq(s) == s
    &&& !has_control(s)
}

/// A wire id must be non-blank, trimmed and of bounded length (`Invalid`).
pub fn validate_id(value: &str) -> (r: Result<(), AdminError>)
    ensures
        r is Ok <==> wire_id_ok(value@),
        r matches Err(e) ==> e.kind == AdminErrorKind::Invalid && e.message == "资源 ID 不合法",
{
    if value.is_empty() || str_byte_len(value) > 128 || !is_trimmed(value) || contains_control(
        value,
    ) {
        return Err(AdminError::invalid("资源 ID 不合法"));
    }
    Ok(())
}

/// An account group identifier: a wire identifier that is also a valid group id.
pub open spec fn group_id_ok(s: Seq<char>) -> bool {
    wire_id_ok(s) && identifier_error(s) is None
}

fn validate_group_id(value: &str) -> (r: Result<(), AdminError>)
    ensures
        r is Ok <==> group_id_ok(value@),
        r matches Err(e) ==> e.kind == AdminErrorKind::Invalid && e.message == if wire_id_ok(value@) {
            "groupId 不合法"
        } else {
            "资源 ID 不合法"
        },
{
    validate_id(value)?;
    match validate_identifier(value) {
        Ok(()) => Ok(()),
        Err(_) => Err(AdminError::invalid("groupId 不合法")),
    }
}

/// Page one and twenty rows unless given; a page is numbered from one and holds
/// one to a hundred rows.
pub open spec fn pagination_spec(page: Option<u32>, page_size: Option<u32>) -> Option<ControlPageQuery> {
    let q = ControlPageQuery {
        page: match page {
            Some(p) => p,
            None => 1,
        },
        page_size: match page_size {
            Some(s) => s,
            None => 20,
        },
    };
    if q.page != 0 && 1 <= q.page_size <= 100 {
        Some(q)
    } else {
        None
    }
}

/// The page query of optional wire values, with defaults; out of range is `Invalid`.
pub fn pagination(page: Option<u32>, page_size: Option<u32>) -> (r: Result<ControlPageQuery, AdminError>)
    ensures
        match pagination_spec(page, page_size) {
            Some(q) => r == Ok::<ControlPageQuery, AdminError>(q),
            None => r is Err,
        },
        r matches Err(e) ==> e.kind == AdminErrorKind::Invalid && e.message == "分页参数不合法",
{
    let result = ControlPageQuery {
        page: match page {
            Some(p) => p,
            None => 1,
        },
        page_size: match page_size {
            Some(s) => s,
            None => 20,
        },
    };
    if result.page == 0 || !(1 <= result.page_size && result.page_size <= 100) {
        return Err(AdminError::invalid("分页参数不合法"));
    }
    Ok(result)
}

/// A term of whole days, from one day to a hundred years, in microseconds.
pub fn duration(days: u32) -> (r: Result<i64, AdminError>)
    ensures
        r is Ok <==> days != 0 && days * SECONDS_PER_DAY <= MAX_SUBSCRIPTION_DURATION_SECONDS,
        r matches Ok(v) ==> v == days * MICROS_PER_DAY,
        r matches Err(e) ==> e.kind == AdminErrorKind::Invalid && e.message == "期限天数不合法",
{
    if days == 0 || (days as i64) * SECONDS_PER_DAY > MAX_SUBSCRIPTION_DURATION_SECONDS {
        return Err(AdminError::invalid("期限天数不合法"));
    }
    Ok(((days as i128) * MICROS_PER_DAY) as i64)
}

/// A budget window named on the wire: `daily`, `weekly` or `monthly`.
pub fn parse_window(value: &str) -> (r: Result<BudgetWindowKind, AdminError>)
    ensures
        r matches Ok(k) ==> k.text() == value@,
        r is Err ==> value@ != "daily"@ && value@ != "weekly"@ && value@ != "monthly"@,
        r matches Err(e) ==> e.kind == AdminErrorKind::Invalid && e.message == "window 不合法",
{
    match BudgetWindowKind::parse(value) {
        Some(k) => Ok(k),
        None => Err(AdminError::invalid("window 不合法")),
    }
}

/// An amount or multiplier given as decimal text.
pub fn decimal(value: &str) -> (r: Result<Decimal, AdminError>)
    ensures
        r is Ok <==> parse_decimal_text(value@) is Some,
        r matches Ok(d) ==> parse_decimal_text(value@) == Some(d@),
        r matches Err(e) ==> e.kind == AdminErrorKind::Invalid && e.message == "金额或倍率必须是有效非负十进制字符串",
{
    match Decimal::parse(value) {
        Ok(d) => Ok(d),
        Err(_) => Err(AdminError::invalid("金额或倍率必须是有效非负十进制字符串")),
    }
}

/// Optional decimal text: absent stays absent (an unlimited budget).
pub fn nullable_decimal(value: Option<String>) -> (r: Result<Option<Decimal>, AdminError>)
    ensures
        value is None ==> r == Ok::<Option<Decimal>, AdminError>(None),
        value matches Some(v) ==> (r is Ok <==> parse_decimal_text(v@) is Some),
        value matches Some(v) ==> (r matches Ok(x) ==> x matches Some(d) && parse_decimal_text(v@)
            == Some(d@)),
        r matches Err(e) ==> e.kind == AdminErrorKind::Invalid && e.message == "金额或倍率必须是有效非负十进制字符串",
{
    match value {
        None => Ok(None),
        Some(v) => {
            let d = decimal(v.as_str())?;
            Ok(Some(d))
        },
    }
}

/// Optional decimal text denotes: absent, an amount, or malformed (`None`).
pub open spec fn optional_amount(v: Option<String>) -> Option<Option<nat>> {
    match v {
        None => Some(None),
        Some(s) => match parse_decimal_text(s@) {
            Some(x) => Some(Some(x)),
            None => None,
        },
    }
}

pub open spec fn option_view(d: Option<Decimal>) -> Option<nat> {
    match d {
        Some(x) => Some(x@),
        None => None,
    }
}

pub struct PlanRequest {
    pub name: String,
    pub description: Option<String>,
    pub daily_limit_usd: Option<String>,
    pub weekly_limit_usd: Option<String>,
    pub monthly_limit_usd: Option<String>,
}

impl PlanRequest {
    /// The command of a plan creation; every limit must be a valid amount.
    pub fn into_command(self) -> (r: Result<CreateSubscriptionPlan, AdminError>)
        ensures
            r is Ok <==> optional_amount(self.daily_limit_usd) is Some && optional_amount(
                self.weekly_limit_usd,
            ) is Some && optional_amount(self.monthly_limit_usd) is Some,
            r matches Ok(c) ==> c.name == self.name && c.description == self.description
                && Some(option_view(c.budget_limits.daily_usd)) == optional_amount(
                self.daily_limit_usd,
            ) && Some(option_view(c.budget_limits.weekly_usd)) == optional_amount(
                self.weekly_limit_usd,
            ) && Some(option_view(c.budget_limits.monthly_usd)) == optional_amount(
                self.monthly_limit_usd,
            ),
            r matches Err(e) ==> e.kind == AdminErrorKind::Invalid && e.message == "金额或倍率必须是有效非负十进制字符串",
    {
        let daily_usd = nullable_decimal(self.daily_limit_usd)?;
        let weekly_usd = nullable_decimal(self.weekly_limit_usd)?;
        let monthly_usd = nullable_decimal(self.monthly_limit_usd)?;
        Ok(
            CreateSubscriptionPlan {
                name: self.name,
                description: self.description,
                budget_limits: UserBudgetLimits { daily_usd, weekly_usd, monthly_usd },
            },
        )
    }
}

pub struct UpdatePlanRequest {
    pub id: String,
    pub name: String,
    pub description: Option<String>,
    pub daily_limit_usd: Option<String>,
    pub weekly_limit_usd: Option<String>,
    pub monthly_limit_usd: Option<String>,
}

impl UpdatePlanRequest {
    /// The plan id and command of a plan edit; every limit must be a valid amount.
    pub fn into_command(self) -> (r: Result<(String, CreateSubscriptionPlan), AdminError>)
        ensures
            r is Ok <==> optional_amount(self.daily_limit_usd) is Some && optional_amount(
                self.weekly_limit_usd,
            ) is Some && optional_amount(self.monthly_limit_usd) is Some,
            r matches Ok((id, c)) ==> id == self.id && c.name == self.name && c.description
                == self.description && Some(option_view(c.budget_limits.daily_usd))
                == optional_amount(self.daily_limit_usd) && Some(
                option_view(c.budget_limits.weekly_usd),
            ) == optional_amount(self.weekly_limit_usd) && Some(
                option_view(c.budget_limits.monthly_usd),
            ) == optional_amount(self.monthly_limit_usd),
            r matches Err(e) ==> e.kind == AdminErrorKind::Invalid && e.message == "金额或倍率必须是有效非负十进制字符串",
    {
        let plan = PlanRequest {
            name: self.name,
            description: self.description,
            daily_limit_usd: self.daily_limit_usd,
            weekly_limit_usd: self.weekly_limit_usd,
            monthly_limit_usd: self.monthly_limit_usd,
        }.into_command()?;
        Ok((self.id, plan))
    }
}

pub struct GrantRequest {
    pub user_id: String,
    pub plan_id: String,
    pub starts_at: Option<i64>,
    pub expires_at: Option<i64>,
    pub duration_days: Option<u32>,
    pub multiplier: Option<String>,
}

/// The grant a request describes, given the current instant: it starts at
/// `starts_at` or now, and ends either at `expires_at` or after `duration_days`
/// (exactly one of the two); the multiplier is one unless given.
pub open spec fn grant_spec(g: GrantRequest, now: i64) -> Option<(i64, int, nat)> {
    let start = match g.starts_at {
        Some(s) => s,
        None => now,
    };
    let end: Option<int> = match (g.expires_at, g.duration_days) {
        (Some(e), None) => Some(e as int),
        (None, Some(d)) => if d != 0 && d * SECONDS_PER_DAY <= MAX_SUBSCRIPTION_DURATION_SECONDS
            && start + d * MICROS_PER_DAY <= i64::MAX {
            Some(start + d * MICROS_PER_DAY)
        } else {
            None
        },
        _ => None,
    };
    let multiplier = match g.multiplier {
        Some(m) => parse_decimal_text(m@),
        None => Some(10_000_000_000nat),
    };
    if wire_id_ok(g.user_id@) && wire_id_ok(g.plan_id@) && end is Some && multiplier is Some {
        Some((start, end->0, multiplier->0))
    } else {
        None
    }
}

/// Why a grant request is refused: the first of its checks that fails.
pub open spec fn grant_error_message(g: GrantRequest, now: i64) -> &'static str {
    let start = match g.starts_at {
        Some(s) => s,
        None => now,
    };
    if !wire_id_ok(g.user_id@) || !wire_id_ok(g.plan_id@) {
        "资源 ID 不合法"
    } else {
        match (g.expires_at, g.duration_days) {
            (Some(_), None) => "金额或倍率必须是有效非负十进制字符串",
            (None, Some(d)) => if !(d != 0 && d * SECONDS_PER_DAY <= MAX_SUBSCRIPTION_DURATION_SECONDS) {
                "期限天数不合法"
            } else if start + d * MICROS_PER_DAY > i64::MAX {
                "订阅日期超出支持范围"
            } else {
                "金额或倍率必须是有效非负十进制字符串"
            },
            _ => "必须且只能提供 expiresAt 或 durationDays",
        }
    }
}

impl GrantRequest {
    /// The command of a subscription grant at `now`, with its start, end and multiplier.
    pub fn into_command(self, now: i64) -> (r: Result<CreateUserSubscription, AdminError>)
        ensures
            match grant_spec(self, now) {
                Some((start, end, m)) => r matches Ok(c) && c.user_id == self.user_id
                    && c.plan_id == self.plan_id && c.starts_at == start && c.expires_at == end
                    && c.downstream_rate_multiplier@ == m,
                None => r is Err,
            },
            r matches Err(e) ==> e.kind == AdminErrorKind::Invalid && e.message == grant_error_message(self, now),
    {
        validate_id(self.user_id.as_str())?;
        validate_id(self.plan_id.as_str())?;
        let starts_at = match self.starts_at {
            Some(s) => s,
            None => now,
        };
        let expires_at = match (self.expires_at, self.duration_days) {
            (Some(end), None) => end,
            (None, Some(days)) => {
                let span = duration(days)?;
                let end = (starts_at as i128) + (span as i128);
                if end > i64::MAX as i128 {
                    return Err(AdminError::invalid("订阅日期超出支持范围"));
                }
                end as i64
            },
            _ => {
                return Err(AdminError::invalid("必须且只能提供 expiresAt 或 durationDays"));
            },
        };
        let multiplier = match &self.multiplier {
            Some(m) => decimal(m.as_str())?,
            None => match Decimal::from_scaled(10_000_000_000) {
                Ok(one) => one,
                Err(_) => {
                    return Err(AdminError::invalid("金额或倍率必须是有效非负十进制字符串"));
                },
            },
        };
        Ok(
            CreateUserSubscription {
                user_id: self.user_id,
                plan_id: self.plan_id,
                starts_at,
                expires_at,
                downstream_rate_multiplier: multiplier,
            },
        )
    }
}

pub struct PatchSubscriptionRequest {
    pub user_id: String,
    pub starts_at: Option<i64>,
    pub expires_at: Option<i64>,
    pub multiplier: Option<String>,
}

impl PatchSubscriptionRequest {
    /// The command of a subscription edit; the multiplier must be a valid amount.
    pub fn into_command(self) -> (r: Result<UpdateUserSubscription, AdminError>)
        ensures
            r is Ok <==> wire_id_ok(self.user_id@) && optional_amount(self.multiplier) is Some,
            r matches Ok(c) ==> c.user_id == self.user_id && c.starts_at == self.starts_at
                && c.expires_at == self.expires_at && Some(option_view(c.downstream_rate_multiplier))
                == optional_amount(self.multiplier),
            r matches Err(e) ==> e.kind == AdminErrorKind::Invalid && e.message == if wire_id_ok(self.user_id@) {
                "金额或倍率必须是有效非负十进制字符串"
            } else {
                "资源 ID 不合法"
            },
    {
        validate_id(self.user_id.as_str())?;
        let m = nullable_decimal(self.multiplier)?;
        Ok(
            UpdateUserSubscription {
                user_id: self.user_id,
                starts_at: self.starts_at,
                expires_at: self.expires_at,
                downstream_rate_multiplier: m,
            },
        )
    }
}

pub struct RenewRequest {
    pub user_id: String,
    pub extend_by_days: Option<u32>,
    pub expires_at: Option<i64>,
}

impl RenewRequest {
    /// The command of a renewal: either a number of days or a new expiry, not both.
    pub fn into_command(self) -> (r: Result<RenewUserSubscription, AdminError>)
        ensures
            r is Ok <==> wire_id_ok(self.user_id@) && match (self.extend_by_days, self.expires_at) {
                (Some(d), None) => d != 0 && d * SECONDS_PER_DAY <= MAX_SUBSCRIPTION_DURATION_SECONDS,
                (None, Some(_)) => true,
                _ => false,
            },
            r matches Ok(c) ==> c.user_id == self.user_id && match (
                self.extend_by_days,
                self.expires_at,
            ) {
                (Some(d), None) => c.renewal == SubscriptionRenewal::ExtendByDays(d),
                (None, Some(e)) => c.renewal == SubscriptionRenewal::ExpiresAt(e),
                _ => false,
            },
            r matches Err(e) ==> e.kind == AdminErrorKind::Invalid && e.message == if !wire_id_ok(self.user_id@) {
                "资源 ID 不合法"
            } else if self.extend_by_days is Some && self.expires_at is None {
                "期限天数不合法"
            } else {
                "必须且只能提供 extendByDays 或 expiresAt"
            },
    {
        validate_id(self.user_id.as_str())?;
        let renewal = match (self.extend_by_days, self.expires_at) {
            (Some(days), None) => {
                duration(days)?;
                SubscriptionRenewal::ExtendByDays(days)
            },
            (None, Some(end)) => SubscriptionRenewal::ExpiresAt(end),
            _ => {
                return Err(AdminError::invalid("必须且只能提供 extendByDays 或 expiresAt"));
            },
        };
        Ok(RenewUserSubscription { user_id: self.user_id, renewal })
    }
}

pub struct GroupsRequest {
    pub user_id: String,
    pub group_ids: Vec<String>,
}

impl GroupsRequest {
    /// The account and the group ids of a group replacement.
    pub fn into_ids(self) -> (r: Result<(String, Vec<String>), AdminError>)
        ensures
            r is Ok <==> wire_id_ok(self.user_id@) && forall|i: int|
                0 <= i < self.group_ids.len() ==> group_id_ok(#[trigger] self.group_ids@[i]@),
            r matches Ok((u, g)) ==> u == self.user_id && g == self.group_ids,
            r matches Err(e) ==> e.kind == AdminErrorKind::Invalid && if !wire_id_ok(self.user_id@) {
                e.message == "资源 ID 不合法"
            } else {
                exists|i: int|
                    0 <= i < self.group_ids.len() && (forall|j: int|
                        0 <= j < i ==> group_id_ok(#[trigger] self.group_ids@[j]@)) && !group_id_ok(
                        self.group_ids@[i]@,
                    ) && e.message == if wire_id_ok(self.group_ids@[i]@) {
                        "groupId 不合法"
                    } else {
                        "资源 ID 不合法"
                    }
            },
    {
        validate_id(self.user_id.as_str())?;
        let mut i: usize = 0;
        while i < self.group_ids.len()
            invariant
                i <= self.group_ids.len(),
                forall|j: int| 0 <= j < i ==> group_id_ok(#[trigger] self.group_ids@[j]@),
            decreases self.group_ids.len() - i,
        {
            validate_group_id(self.group_ids[i].as_str())?;
            i = i + 1;
        }
        Ok((self.user_id, self.group_ids))
    }
}

pub struct TopupRequest {
    pub user_id: String,
    pub window: String,
    pub amount: String,
    pub idempotency_key: String,
    pub reason: String,
}

impl TopupRequest {
    /// The command of a budget credit; window and amount are checked.
    pub fn into_command(self) -> (r: Result<CreateUserBudgetCredit, AdminError>)
        ensures
            r is Ok <==> wire_id_ok(self.user_id@) && (self.window@ == "daily"@ || self.window@
                == "weekly"@ || self.window@ == "monthly"@) && parse_decimal_text(self.amount@) is Some,
            r matches Ok(c) ==> c.user_id == self.user_id && c.window.text() == self.window@
                && parse_decimal_text(self.amount@) == Some(c.amount@) && c.idempotency_key
                == self.idempotency_key && c.reason == self.reason,
            r matches Err(e) ==> e.kind == AdminErrorKind::Invalid && e.message == if !wire_id_ok(self.user_id@) {
                "资源 ID 不合法"
            } else if !(self.window@ == "daily"@ || self.window@ == "weekly"@ || self.window@
                == "monthly"@) {
                "window 不合法"
            } else {
                "金额或倍率必须是有效非负十进制字符串"
            },
    {
        proof {
            reveal_strlit("daily");
            reveal_strlit("weekly");
            reveal_strlit("monthly");
        }
        validate_id(self.user_id.as_str())?;
        let window = parse_window(self.window.as_str())?;
        let amount = decimal(self.amount.as_str())?;
        Ok(
            CreateUserBudgetCredit {
                user_id: self.user_id,
                window,
                amount,
                idempotency_key: self.idempotency_key,
                reason: self.reason,
            },
        )
    }
}

pub struct ResetBudgetRequest {
    pub user_id: String,
    pub daily: bool,
    pub weekly: bool,
    pub monthly: bool,
}

impl ResetBudgetRequest {
    /// The command of a budget reset; at least one window must be chosen.
    pub fn into_command(self) -> (r: Result<ResetUserBudget, AdminError>)
        ensures
            r is Ok <==> wire_id_ok(self.user_id@) && (self.daily || self.weekly || self.monthly),
            r matches Ok(c) ==> c.user_id == self.user_id && c.daily == self.daily && c.weekly
                == self.weekly && c.monthly == self.monthly,
            r matches Err(e) ==> e.kind == AdminErrorKind::Invalid && e.message == if wire_id_ok(self.user_id@) {
                "至少选择一个额度窗口"
            } else {
                "资源 ID 不合法"
            },
    {
        validate_id(self.user_id.as_str())?;
        if !self.daily && !self.weekly && !self.monthly {
            return Err(AdminError::invalid("至少选择一个额度窗口"));
        }
        Ok(
            ResetUserBudget {
                user_id: self.user_id,
                daily: self.daily,
                weekly: self.weekly,
                monthly: self.monthly,
            },
        )
    }
}

pub struct UserIdRequest {
    pub user_id: String,
}

impl UserIdRequest {
    /// The account a revocation names.
    pub fn into_user_id(self) -> (r: Result<String, AdminError>)
        ensures
            r is Ok <==> wire_id_ok(self.user_id@),
            r matches Ok(u) ==> u == self.user_id,
            r matches Err(e) ==> e.kind == AdminErrorKind::Invalid && e.message == "资源 ID 不合法",
    {
        validate_id(self.user_id.as_str())?;
        Ok(self.user_id)
    }
}

pub struct UserIdQuery {
    pub user_id: String,
}

impl UserIdQuery {
    /// The account a request names.
    pub fn into_user_id(self) -> (r: Result<String, AdminError>)
        ensures
            r is Ok <==> wire_id_ok(self.user_id@),
            r matches Ok(u) ==> u == self.user_id,
            r matches Err(e) ==> e.kind == AdminErrorKind::Invalid && e.message == "资源 ID 不合法",
    {
        validate_id(self.user_id.as_str())?;
        Ok(self.user_id)
    }
}

pub struct UserPageQuery {
    pub user_id: String,
    pub page: Option<u32>,
    pub page_size: Option<u32>,
}

impl UserPageQuery {
    /// The account and page of a history query.
    pub fn into_command(self) -> (r: Result<(String, ControlPageQuery), AdminError>)
        ensures
            r is Ok <==> wire_id_ok(self.user_id@) && pagination_spec(self.page, self.page_size) is Some,
            r matches Ok((u, q)) ==> u == self.user_id && Some(q) == pagination_spec(
                self.page,
                self.page_size,
            ),
            r matches Err(e) ==> e.kind == AdminErrorKind::Invalid && e.message == if wire_id_ok(self.user_id@) {
                "分页参数不合法"
            } else {
                "资源 ID 不合法"
            },
    {
        validate_id(self.user_id.as_str())?;
        let q = pagination(self.page, self.page_size)?;
        Ok((self.user_id, q))
    }
}

pub struct UserTopupQuery {
    pub user_id: String,
    pub page: Option<u32>,
    pub page_size: Option<u32>,
    pub window: Option<String>,
}

impl UserTopupQuery {
    /// The account, page and optional window of a credit query.
    pub fn into_command(self) -> (r: Result<
        (String, ControlPageQuery, Option<BudgetWindowKind>),
        AdminError,
    >)
        ensures
            r is Ok <==> wire_id_ok(self.user_id@) && pagination_spec(self.page, self.page_size) is Some
                && (self.window matches Some(w) ==> (w@ == "daily"@ || w@ == "weekly"@ || w@
                == "monthly"@)),
            r matches Ok((u, q, w)) ==> u == self.user_id && Some(q) == pagination_spec(
                self.page,
                self.page_size,
            ) && match self.window {
                Some(text) => w matches Some(k) && k.text() == text@,
                None => w is None,
            },
            r matches Err(e) ==> e.kind == AdminErrorKind::Invalid && e.message == if !wire_id_ok(self.user_id@) {
                "资源 ID 不合法"
            } else if pagination_spec(self.page, self.page_size) is None {
                "分页参数不合法"
            } else {
                "window 不合法"
            },
    {
        proof {
            reveal_strlit("daily");
            reveal_strlit("weekly");
            reveal_strlit("monthly");
        }
        validate_id(self.user_id.as_str())?;
        let q = pagination(self.page, self.page_size)?;
        let window = match &self.window {
            Some(w) => Some(parse_window(w.as_str())?),
            None => None,
        };
        Ok((self.user_id, q, window))
    }
}

pub struct ManagementQuery {
    pub page: Option<u32>,
    pub page_size: Option<u32>,
    pub query: Option<String>,
    pub role: Option<String>,
    pub status: Option<String>,
    pub plan_id: Option<String>,
    pub group_id: Option<String>,
}

/// A management search text has at most 256 bytes and no control character.
pub open spec fn search_text_ok(q: Seq<char>) -> bool {
    byte_len(q) <= 256 && !has_control(q)
}

/// Why an account list query is refused: the first of its checks that fails.
pub open spec fn management_error_message(q: ManagementQuery) -> &'static str {
    if q.role matches Some(role) && !(role@ == "admin"@ || role@ == "user"@) {
        "role 不合法"
    } else if q.status matches Some(s) && !(s@ == "enabled"@ || s@ == "disabled"@) {
        "status 不合法"
    } else if q.plan_id matches Some(p) && !wire_id_ok(p@) {
        "资源 ID 不合法"
    } else if q.group_id matches Some(g) && !wire_id_ok(g@) {
        "资源 ID 不合法"
    } else if q.group_id matches Some(g) && !group_id_ok(g@) {
        "groupId 不合法"
    } else if q.query matches Some(t) && !search_text_ok(t@) {
        "query 不合法"
    } else {
        "分页参数不合法"
    }
}

impl ManagementQuery {
    /// The checked query of the account list.
    pub fn into_command(self) -> (r: Result<UserManagementQuery, AdminError>)
        ensures
            r is Ok <==> (self.role matches Some(role) ==> (role@ == "admin"@ || role@ == "user"@))
                && (self.status matches Some(s) ==> (s@ == "enabled"@ || s@ == "disabled"@)) && (
            self.plan_id matches Some(p) ==> wire_id_ok(p@)) && (self.group_id matches Some(g)
                ==> group_id_ok(g@)) && (self.query matches Some(q) ==> search_text_ok(q@))
                && pagination_spec(self.page, self.page_size) is Some,
            r matches Ok(c) ==> Some(c.pagination) == pagination_spec(self.page, self.page_size)
                && c.plan_id == self.plan_id && c.group_id == self.group_id && match self.role {
                Some(role) => c.role matches Some(x) && x.text() == role@,
                None => c.role is None,
            } && match self.status {
                Some(s) => c.enabled == Some(s@ == "enabled"@),
                None => c.enabled is None,
            } && match self.query {
                Some(q) => if q@.len() == 0 {
                    c.query is None
                } else {
                    c.query == Some(q)
                },
                None => c.query is None,
            },
            r matches Err(e) ==> e.kind == AdminErrorKind::Invalid && e.message == management_error_message(self),
    {
        proof {
            reveal_strlit("enabled");
            reveal_strlit("disabled");
            reveal_strlit("admin");
            reveal_strlit("user");
        }
        let role = match &self.role {
            Some(role) => match UserRole::parse(role.as_str()) {
                Some(r) => Some(r),
                None => {
                    return Err(AdminError::invalid("role 不合法"));
                },
            },
            None => None,
        };
        let enabled = match &self.status {
            Some(status) => {
                if str_eq(status.as_str(), "enabled") {
                    Some(true)
                } else if str_eq(status.as_str(), "disabled") {
                    Some(false)
                } else {
                    return Err(AdminError::invalid("status 不合法"));
                }
            },
            None => None,
        };
        if let Some(id) = &self.plan_id {
            validate_id(id.as_str())?;
        }
        if let Some(id) = &self.group_id {
            validate_group_id(id.as_str())?;
        }
        if let Some(q) = &self.query {
            if str_byte_len(q.as_str()) > 256 || contains_control(q.as_str()) {
                return Err(AdminError::invalid("query 不合法"));
            }
        }
        let pagination = pagination(self.page, self.page_size)?;
        let query = match self.query {
            Some(q) => if q.as_str().is_empty() {
                None
            } else {
                Some(q)
            },
            None => None,
        };
        Ok(
            UserManagementQuery {
                pagination,
                query,
                role,
                enabled,
                plan_id: self.plan_id,
                group_id: self.group_id,
            },
        )
    }
}

/// An administrator's request to create an account; it cannot choose a role.
#[derive(Clone, PartialEq, Eq)]
pub struct CreateUserRequest {
    pub username: String,
    pub password: String,
    pub enabled: bool,
}

impl CreateUserRequest {
    /// The account to create: always an ordinary user.
    pub fn into_command(self) -> (r: CreateUser)
        ensures
            r.username == self.username,
            r.password == self.password,
            r.role == UserRole::User,
            r.enabled == self.enabled,
    {
        CreateUser { username: self.username, password: self.password, role: UserRole::User, enabled: self.enabled }
    }
}

/// An administrator's edit of an account. For a limit, `None` leaves it,
/// `Some(None)` makes it unlimited.
#[derive(Debug, Clone, PartialEq, Eq)]
pub struct UpdateUserRequest {
    pub user_id: String,
    pub username: Option<String>,
    pub role: Option<String>,
    pub enabled: Option<bool>,
    pub max_concurrency: Option<Option<u64>>,
    pub requests_per_minute: Option<Option<u64>>,
}

impl UpdateUserRequest {
    /// The edit: the account id must be a wire id and a role must be `admin` or `user`.
    pub fn into_command(self) -> (r: Result<UpdateUser, AdminError>)
        ensures
            r is Ok <==> wire_id_ok(self.user_id@) && (self.role matches Some(x) ==> (x@ == "admin"@
                || x@ == "user"@)),
            r matches Ok(c) ==> c.user_id == self.user_id && c.username == self.username
                && c.enabled == self.enabled && c.max_concurrency == self.max_concurrency
                && c.requests_per_minute == self.requests_per_minute && match self.role {
                Some(x) => c.role matches Some(role) && role.text() == x@,
                None => c.role is None,
            },
            r matches Err(e) ==> e.kind == AdminErrorKind::Invalid && e.message == if wire_id_ok(self.user_id@) {
                "账户角色不合法"
            } else {
                "资源 ID 不合法"
            },
    {
        proof {
            reveal_strlit("admin");
            reveal_strlit("user");
        }
        validate_id(self.user_id.as_str())?;
        let role = match &self.role {
            Some(name) => match UserRole::parse(name.as_str()) {
                Some(role) => Some(role),
                None => {
                    return Err(AdminError::invalid("账户角色不合法"));
                },
            },
            None => None,
        };
        Ok(
            UpdateUser {
                user_id: self.user_id,
                username: self.username,
                role,
                enabled: self.enabled,
                max_concurrency: self.max_concurrency,
                requests_per_minute: self.requests_per_minute,
            },
        )
    }
}

} // verus!
