//! The runtime snapshot of client keys: the facts read from the configuration
//! tables, and how each key's admission policy and billing plan are assembled
//! from them. A key whose account facts are malformed is left out of the
//! snapshot on its own; it never stops the other keys.
//!
//! Instants are microseconds since the epoch.

use vstd::prelude::*;

use crate::decimal::{Decimal, DECIMAL_SCALE};
use crate::policy::{
    identifier_error, lemma_policy_selection, validate_identifier, window_contains, ClientApiKeyId, ClientBillingPolicy, ClientPolicy, PlaintextClientApiKey,
    RateLimits, SubscriptionId, UserBudgetLimits, UserId, UserRateLimits,
};
use crate::requests::{option_view, optional_amount};
use crate::text::str_eq;

verus! {

/// A client key as read for the snapshot. Provider request profiles are kept
/// as (provider kind, stored profile) pairs.
#[derive(Debug, Clone, PartialEq, Eq)]
pub struct ClientApiKeySnapshot {
    pub request_profiles: Vec<(String, String)>,
    pub id: ClientApiKeyId,
    pub plaintext_key: PlaintextClientApiKey,
    pub group_ids: Vec<String>,
    pub limits: RateLimits,
}

/// Who owns a key, as far as the snapshot is concerned.
#[derive(Debug, Clone, PartialEq, Eq)]
pub enum SnapshotClientKeyOwner {
    Ownerless,
    Owned(String),
    Suppressed,
}

/// Names frozen into request history.
#[derive(Debug, Clone, PartialEq, Eq)]
pub struct SnapshotClientKeyMetadata {
    pub username_snapshot: Option<String>,
    pub client_api_key_name_snapshot: Option<String>,
}

/// The account facts of an owned key: its groups and limits, the plan
/// selected now with its budget texts, the account's base plan, and the next
/// subscription when one is scheduled.
#[derive(Debug, Clone, PartialEq, Eq)]
pub struct SnapshotUserRuntimeData {
    pub key_id: String,
    pub user_id: String,
    pub group_ids: Vec<String>,
    pub max_concurrency: Option<i64>,
    pub requests_per_minute: Option<i64>,
    pub plan_id: Option<String>,
    pub subscription_id: Option<String>,
    pub daily_limit_usd: Option<String>,
    pub weekly_limit_usd: Option<String>,
    pub monthly_limit_usd: Option<String>,
    pub downstream_rate_multiplier: Option<String>,
    pub starts_at: Option<i64>,
    pub expires_at: Option<i64>,
    pub base_plan_id: Option<String>,
    pub base_daily_limit_usd: Option<String>,
    pub base_weekly_limit_usd: Option<String>,
    pub base_monthly_limit_usd: Option<String>,
    pub successor_plan_id: Option<String>,
    pub successor_subscription_id: Option<String>,
    pub successor_daily_limit_usd: Option<String>,
    pub successor_weekly_limit_usd: Option<String>,
    pub successor_monthly_limit_usd: Option<String>,
    pub successor_downstream_rate_multiplier: Option<String>,
    pub successor_starts_at: Option<i64>,
    pub successor_expires_at: Option<i64>,
}

/// Malformed snapshot data.
#[derive(Debug, Clone, Copy, PartialEq, Eq)]
pub struct SnapshotDataError {
    pub entity: &'static str,
    pub message: &'static str,
}

/// A stored limit: a non-negative count.
pub fn to_u64_i64(value: i64) -> (r: Result<u64, SnapshotDataError>)
    ensures
        value >= 0 ==> r == Ok::<u64, SnapshotDataError>(value as u64),
        value < 0 ==> r == Err::<u64, SnapshotDataError>(
            SnapshotDataError { entity: "user runtime policy", message: "limit must be non-negative" },
        ),
{
    if value < 0 {
        return Err(
            SnapshotDataError {
                entity: "user runtime policy",
                message: "limit must be non-negative",
            },
        );
    }
    Ok(value as u64)
}

/// A stored count of the runtime settings: non-negative.
pub fn to_u64(value: i64) -> (r: Result<u64, SnapshotDataError>)
    ensures
        value >= 0 ==> r == Ok::<u64, SnapshotDataError>(value as u64),
        value < 0 ==> r == Err::<u64, SnapshotDataError>(
            SnapshotDataError { entity: "runtime snapshot", message: "numeric snapshot field is negative" },
        ),
{
    if value < 0 {
        return Err(
            SnapshotDataError {
                entity: "runtime snapshot",
                message: "numeric snapshot field is negative",
            },
        );
    }
    Ok(value as u64)
}

/// A stored count of the runtime settings that must fit in 32 bits.
pub fn to_u32(value: i64) -> (r: Result<u32, SnapshotDataError>)
    ensures
        0 <= value <= u32::MAX ==> r == Ok::<u32, SnapshotDataError>(value as u32),
        !(0 <= value <= u32::MAX) ==> r == Err::<u32, SnapshotDataError>(
            SnapshotDataError { entity: "runtime snapshot", message: "numeric snapshot field is outside u32" },
        ),
{
    if value < 0 || value > 4_294_967_295 {
        return Err(
            SnapshotDataError {
                entity: "runtime snapshot",
                message: "numeric snapshot field is outside u32",
            },
        );
    }
    Ok(value as u32)
}

/// An account group as the snapshot reads it.
#[derive(Debug, Clone, PartialEq, Eq)]
pub struct SnapshotAccountGroupData {
    pub disable_fast: bool,
    pub id: String,
    pub name: String,
    pub enabled: bool,
}

/// A provider account as the snapshot reads it; its model access is kept as the
/// stored document.
#[derive(Debug, Clone, PartialEq, Eq)]
pub struct SnapshotProviderAccountData {
    pub id: String,
    pub provider_kind: String,
    pub model_access: String,
}

/// A provider account's membership of an account group.
#[derive(Debug, Clone, PartialEq, Eq)]
pub struct SnapshotGroupMembershipData {
    pub group_id: String,
    pub account_id: String,
}

/// An account group row; its identifier must be well formed.
pub fn account_group_row(id: String, name: String, enabled: bool, disable_fast: bool) -> (r: Result<
    SnapshotAccountGroupData,
    SnapshotDataError,
>)
    ensures
        r is Ok <==> identifier_error(id@) is None,
        r matches Ok(g) ==> g.id == id && g.name == name && g.enabled == enabled && g.disable_fast
            == disable_fast,
{
    if validate_identifier(id.as_str()).is_err() {
        return Err(
            SnapshotDataError { entity: "runtime snapshot", message: "invalid account group id" },
        );
    }
    Ok(SnapshotAccountGroupData { disable_fast, id, name, enabled })
}

/// A group membership row; its group identifier must be well formed.
pub fn group_membership_row(group_id: String, account_id: String) -> (r: Result<
    SnapshotGroupMembershipData,
    SnapshotDataError,
>)
    ensures
        r is Ok <==> identifier_error(group_id@) is None,
        r matches Ok(m) ==> m.group_id == group_id && m.account_id == account_id,
{
    if validate_identifier(group_id.as_str()).is_err() {
        return Err(
            SnapshotDataError { entity: "runtime snapshot", message: "invalid membership group id" },
        );
    }
    Ok(SnapshotGroupMembershipData { group_id, account_id })
}

/// The runtime settings row as stored. The pricing documents, request location and
/// provider request profiles are kept as their stored JSON text.
#[derive(Debug, Clone, PartialEq, Eq)]
pub struct SnapshotSettingsRow {
    pub pricing_synced_json: String,
    pub pricing_overrides_json: String,
    pub config_revision: i64,
    pub refresh_margin_seconds: i64,
    pub refresh_concurrency: i64,
    pub max_concurrent_per_account: i64,
    pub request_interval_ms: i64,
    pub rotation_strategy: String,
    pub model_mappings: Vec<(String, String)>,
    pub min_codex_desktop_version: Option<String>,
    pub min_codex_cli_version: Option<String>,
    pub max_waiting_per_key: i64,
    pub max_waiting_per_account: i64,
    pub concurrency_wait_timeout_seconds: i64,
    pub request_location_json: String,
    pub request_location_enabled: bool,
    pub responses_max_decompressed_body_bytes: i64,
    pub provider_request_profiles: Vec<(String, String)>,
}

/// The runtime settings carried into a snapshot.
#[derive(Debug, Clone, PartialEq, Eq)]
pub struct SnapshotRuntimeSettings {
    pub pricing_synced_json: String,
    pub pricing_overrides_json: String,
    pub request_profiles: Vec<(String, String)>,
    pub request_location_enabled: bool,
    pub request_location_json: String,
    pub refresh_margin_seconds: u64,
    pub refresh_concurrency: u32,
    pub max_concurrent_per_account: u32,
    pub request_interval_ms: u64,
    pub max_waiting_per_key: u32,
    pub max_waiting_per_account: u32,
    pub concurrency_wait_timeout_seconds: u32,
    pub responses_max_decompressed_body_bytes: u64,
    pub rotation_strategy: String,
    pub model_mappings: Vec<(String, String)>,
    pub min_codex_desktop_version: Option<String>,
    pub min_codex_cli_version: Option<String>,
}

pub open spec fn fits_u32(v: i64) -> bool {
    0 <= v <= u32::MAX
}

/// Every count of the settings row is in range: the 64-bit ones non-negative,
/// the 32-bit ones in `0..=u32::MAX`.
pub open spec fn settings_row_ok(row: SnapshotSettingsRow) -> bool {
    &&& row.config_revision >= 0
    &&& row.responses_max_decompressed_body_bytes >= 0
    &&& row.refresh_margin_seconds >= 0
    &&& fits_u32(row.refresh_concurrency)
    &&& fits_u32(row.max_concurrent_per_account)
    &&& row.request_interval_ms >= 0
    &&& fits_u32(row.max_waiting_per_key)
    &&& fits_u32(row.max_waiting_per_account)
    &&& fits_u32(row.concurrency_wait_timeout_seconds)
}

/// The configuration revision and runtime settings of a settings row.
pub fn snapshot_settings(row: SnapshotSettingsRow) -> (r: Result<(u64, SnapshotRuntimeSettings), SnapshotDataError>)
    ensures
        r is Ok <==> settings_row_ok(row),
        r matches Ok((revision, s)) ==> {
            &&& revision == row.config_revision
            &&& s.responses_max_decompressed_body_bytes == row.responses_max_decompressed_body_bytes
            &&& s.refresh_margin_seconds == row.refresh_margin_seconds
            &&& s.refresh_concurrency == row.refresh_concurrency
            &&& s.max_concurrent_per_account == row.max_concurrent_per_account
            &&& s.request_interval_ms == row.request_interval_ms
            &&& s.max_waiting_per_key == row.max_waiting_per_key
            &&& s.max_waiting_per_account == row.max_waiting_per_account
            &&& s.concurrency_wait_timeout_seconds == row.concurrency_wait_timeout_seconds
            &&& s.request_location_enabled == row.request_location_enabled
            &&& s.pricing_synced_json == row.pricing_synced_json
            &&& s.pricing_overrides_json == row.pricing_overrides_json
            &&& s.request_profiles == row.provider_request_profiles
            &&& s.request_location_json == row.request_location_json
            &&& s.rotation_strategy == row.rotation_strategy
            &&& s.model_mappings == row.model_mappings
            &&& s.min_codex_desktop_version == row.min_codex_desktop_version
            &&& s.min_codex_cli_version == row.min_codex_cli_version
        },
{
    let revision = to_u64(row.config_revision)?;
    let responses_max_decompressed_body_bytes = to_u64(row.responses_max_decompressed_body_bytes)?;
    let refresh_margin_seconds = to_u64(row.refresh_margin_seconds)?;
    let refresh_concurrency = to_u32(row.refresh_concurrency)?;
    let max_concurrent_per_account = to_u32(row.max_concurrent_per_account)?;
    let request_interval_ms = to_u64(row.request_interval_ms)?;
    let max_waiting_per_key = to_u32(row.max_waiting_per_key)?;
    let max_waiting_per_account = to_u32(row.max_waiting_per_account)?;
    let concurrency_wait_timeout_seconds = to_u32(row.concurrency_wait_timeout_seconds)?;
    Ok(
        (
            revision,
            SnapshotRuntimeSettings {
                pricing_synced_json: row.pricing_synced_json,
                pricing_overrides_json: row.pricing_overrides_json,
                request_profiles: row.provider_request_profiles,
                request_location_enabled: row.request_location_enabled,
                request_location_json: row.request_location_json,
                refresh_margin_seconds,
                refresh_concurrency,
                max_concurrent_per_account,
                request_interval_ms,
                max_waiting_per_key,
                max_waiting_per_account,
                concurrency_wait_timeout_seconds,
                responses_max_decompressed_body_bytes,
                rotation_strategy: row.rotation_strategy,
                model_mappings: row.model_mappings,
                min_codex_desktop_version: row.min_codex_desktop_version,
                min_codex_cli_version: row.min_codex_cli_version,
            },
        ),
    )
}

/// A billing multiplier text; one when absent.
pub open spec fn multiplier_of(text: Option<String>) -> Option<nat> {
    match text {
        Some(t) => crate::decimal::parse_decimal_text(t@),
        None => Some(DECIMAL_SCALE as nat),
    }
}

/// The three budget texts parse (absent ones are unlimited).
pub open spec fn budget_texts_ok(d: Option<String>, w: Option<String>, m: Option<String>) -> bool {
    optional_amount(d) is Some && optional_amount(w) is Some && optional_amount(m) is Some
}

/// Budget limits hold what the three texts say.
pub open spec fn budget_limits_from(
    l: UserBudgetLimits,
    d: Option<String>,
    w: Option<String>,
    m: Option<String>,
) -> bool {
    &&& Some(option_view(l.daily_usd)) == optional_amount(d)
    &&& Some(option_view(l.weekly_usd)) == optional_amount(w)
    &&& Some(option_view(l.monthly_usd)) == optional_amount(m)
}

pub open spec fn id_text_ok(id: Option<String>) -> bool {
    id matches Some(s) ==> identifier_error(s@) is None
}

pub open spec fn opt_id_view(id: Option<String>) -> Option<Seq<char>> {
    match id {
        Some(s) => Some(s@),
        None => None,
    }
}

/// What is wrong with an owned key's plan facts, in the order the checks run.
pub open spec fn billing_policy_error(rt: SnapshotUserRuntimeData) -> Option<&'static str> {
    if rt.base_plan_id is None {
        Some("owned user has no enabled base plan")
    } else if rt.plan_id is None {
        Some("owned user has no enabled active or base plan")
    } else if !id_text_ok(rt.plan_id) {
        Some("invalid plan ID")
    } else if !id_text_ok(rt.subscription_id) {
        Some("invalid subscription ID")
    } else if multiplier_of(rt.downstream_rate_multiplier) is None {
        Some("invalid billing multiplier")
    } else if !budget_texts_ok(rt.daily_limit_usd, rt.weekly_limit_usd, rt.monthly_limit_usd) {
        Some("invalid budget amount")
    } else if !id_text_ok(rt.base_plan_id) {
        Some("invalid base plan ID")
    } else if !budget_texts_ok(
        rt.base_daily_limit_usd,
        rt.base_weekly_limit_usd,
        rt.base_monthly_limit_usd,
    ) {
        Some("invalid budget amount")
    } else if rt.successor_plan_id is Some && !id_text_ok(rt.successor_plan_id) {
        Some("invalid successor plan ID")
    } else if rt.successor_plan_id is Some && !id_text_ok(rt.successor_subscription_id) {
        Some("invalid successor subscription ID")
    } else if rt.successor_plan_id is Some && multiplier_of(
        rt.successor_downstream_rate_multiplier,
    ) is None {
        Some("invalid successor billing multiplier")
    } else if rt.successor_plan_id is Some && !budget_texts_ok(
        rt.successor_daily_limit_usd,
        rt.successor_weekly_limit_usd,
        rt.successor_monthly_limit_usd,
    ) {
        Some("invalid budget amount")
    } else {
        None
    }
}

/// The account's base plan: always in force, multiplier one, no subscription.
pub open spec fn is_base_policy(b: ClientBillingPolicy, rt: SnapshotUserRuntimeData) -> bool {
    &&& Some(b.spec_plan_id()) == opt_id_view(rt.base_plan_id)
    &&& b.spec_subscription_id() is None
    &&& budget_limits_from(
        b.spec_budget_limits(),
        rt.base_daily_limit_usd,
        rt.base_weekly_limit_usd,
        rt.base_monthly_limit_usd,
    )
    &&& b.spec_multiplier() == DECIMAL_SCALE
    &&& b.spec_starts_at() is None
    &&& b.spec_expires_at() is None
    &&& b.spec_fallback() is None
    &&& b.spec_successor() is None
}

/// The scheduled next subscription, falling back on the base plan.
pub open spec fn is_successor_policy(s: ClientBillingPolicy, rt: SnapshotUserRuntimeData) -> bool {
    &&& Some(s.spec_plan_id()) == opt_id_view(rt.successor_plan_id)
    &&& s.spec_subscription_id() == opt_id_view(rt.successor_subscription_id)
    &&& budget_limits_from(
        s.spec_budget_limits(),
        rt.successor_daily_limit_usd,
        rt.successor_weekly_limit_usd,
        rt.successor_monthly_limit_usd,
    )
    &&& multiplier_of(rt.successor_downstream_rate_multiplier) == Some(s.spec_multiplier())
    &&& s.spec_starts_at() == rt.successor_starts_at
    &&& s.spec_expires_at() == rt.successor_expires_at
    &&& s.spec_fallback() matches Some(b) && is_base_policy(b, rt)
    &&& s.spec_successor() is None
}

/// The billing policy of an owned key: the plan selected now, within its
/// window; a subscription falls back on the base plan; a scheduled next
/// subscription follows it.
pub open spec fn is_owned_billing_policy(p: ClientBillingPolicy, rt: SnapshotUserRuntimeData) -> bool {
    &&& Some(p.spec_plan_id()) == opt_id_view(rt.plan_id)
    &&& p.spec_subscription_id() == opt_id_view(rt.subscription_id)
    &&& budget_limits_from(
        p.spec_budget_limits(),
        rt.daily_limit_usd,
        rt.weekly_limit_usd,
        rt.monthly_limit_usd,
    )
    &&& multiplier_of(rt.downstream_rate_multiplier) == Some(p.spec_multiplier())
    &&& p.spec_starts_at() == rt.starts_at
    &&& p.spec_expires_at() == rt.expires_at
    &&& (if rt.subscription_id is Some {
        p.spec_fallback() matches Some(b) && is_base_policy(b, rt)
    } else {
        p.spec_fallback() is None
    })
    &&& (if rt.successor_plan_id is Some {
        p.spec_successor() matches Some(s) && is_successor_policy(s, rt)
    } else {
        p.spec_successor() is None
    })
}

fn plan_id_of(text: &String, message: &'static str) -> (r: Result<SubscriptionId, SnapshotDataError>)
    ensures
        identifier_error(text@) is None ==> (r matches Ok(id) && id@ == text@),
        identifier_error(text@) is Some ==> r == Err::<SubscriptionId, SnapshotDataError>(
            SnapshotDataError { entity: "subscription plan", message },
        ),
{
    match SubscriptionId::new(text.as_str()) {
        Ok(id) => Ok(id),
        Err(_) => Err(SnapshotDataError { entity: "subscription plan", message }),
    }
}

fn subscription_id_of(text: &Option<String>, message: &'static str) -> (r: Result<
    Option<SubscriptionId>,
    SnapshotDataError,
>)
    ensures
        id_text_ok(*text) ==> (r matches Ok(id) && match id {
            Some(i) => Some(i@) == opt_id_view(*text),
            None => text is None,
        }),
        !id_text_ok(*text) ==> r == Err::<Option<SubscriptionId>, SnapshotDataError>(
            SnapshotDataError { entity: "user subscription", message },
        ),
{
    match text {
        None => Ok(None),
        Some(t) => match SubscriptionId::new(t.as_str()) {
            Ok(id) => Ok(Some(id)),
            Err(_) => Err(SnapshotDataError { entity: "user subscription", message }),
        },
    }
}

fn multiplier_from(text: &Option<String>, message: &'static str) -> (r: Result<
    Decimal,
    SnapshotDataError,
>)
    ensures
        multiplier_of(*text) matches Some(m) ==> (r matches Ok(d) && d@ == m),
        multiplier_of(*text) is None ==> r == Err::<Decimal, SnapshotDataError>(
            SnapshotDataError { entity: "user subscription", message },
        ),
{
    match text {
        Some(t) => match Decimal::parse(t.as_str()) {
            Ok(d) => Ok(d),
            Err(_) => Err(SnapshotDataError { entity: "user subscription", message }),
        },
        None => match Decimal::from_scaled(DECIMAL_SCALE) {
            Ok(d) => Ok(d),
            Err(_) => Err(SnapshotDataError { entity: "user subscription", message }),
        },
    }
}

fn amount_from(text: &Option<String>) -> (r: Result<Option<Decimal>, SnapshotDataError>)
    ensures
        optional_amount(*text) matches Some(a) ==> (r matches Ok(d) && option_view(d) == a),
        optional_amount(*text) is None ==> r == Err::<Option<Decimal>, SnapshotDataError>(
            SnapshotDataError { entity: "subscription plan", message: "invalid budget amount" },
        ),
{
    match text {
        None => Ok(None),
        Some(t) => match Decimal::parse(t.as_str()) {
            Ok(d) => Ok(Some(d)),
            Err(_) => Err(
                SnapshotDataError { entity: "subscription plan", message: "invalid budget amount" },
            ),
        },
    }
}

fn budget_limits_of(d: &Option<String>, w: &Option<String>, m: &Option<String>) -> (r: Result<
    UserBudgetLimits,
    SnapshotDataError,
>)
    ensures
        budget_texts_ok(*d, *w, *m) ==> (r matches Ok(l) && budget_limits_from(l, *d, *w, *m)),
        !budget_texts_ok(*d, *w, *m) ==> r == Err::<UserBudgetLimits, SnapshotDataError>(
            SnapshotDataError { entity: "subscription plan", message: "invalid budget amount" },
        ),
{
    let daily_usd = amount_from(d)?;
    let weekly_usd = amount_from(w)?;
    let monthly_usd = amount_from(m)?;
    Ok(UserBudgetLimits { daily_usd, weekly_usd, monthly_usd })
}

/// The billing policy of an owned key, from its plan facts.
pub fn build_billing_policy(runtime: &SnapshotUserRuntimeData) -> (r: Result<
    Option<ClientBillingPolicy>,
    SnapshotDataError,
>)
    ensures
        match billing_policy_error(*runtime) {
            Some(m) => r matches Err(e) && e.message == m,
            None => r matches Ok(Some(p)) && is_owned_billing_policy(p, *runtime),
        },
        r matches Ok(Some(p)) ==> (p.spec_successor() is Some <==> runtime.successor_plan_id is Some),
        r matches Ok(Some(p)) ==> (p.spec_successor() matches Some(s) ==> Some(s.spec_plan_id())
            == opt_id_view(runtime.successor_plan_id) && s.spec_subscription_id() == opt_id_view(
            runtime.successor_subscription_id,
        ) && s.spec_starts_at() == runtime.successor_starts_at && s.spec_expires_at()
            == runtime.successor_expires_at),
{
    let base_plan_text = match &runtime.base_plan_id {
        Some(t) => t,
        None => {
            return Err(
                SnapshotDataError {
                    entity: "subscription plan",
                    message: "owned user has no enabled base plan",
                },
            );
        },
    };
    let plan_text = match &runtime.plan_id {
        Some(t) => t,
        None => {
            return Err(
                SnapshotDataError {
                    entity: "subscription plan",
                    message: "owned user has no enabled active or base plan",
                },
            );
        },
    };
    let plan_id = plan_id_of(plan_text, "invalid plan ID")?;
    let subscription_id = subscription_id_of(&runtime.subscription_id, "invalid subscription ID")?;
    let multiplier = multiplier_from(&runtime.downstream_rate_multiplier, "invalid billing multiplier")?;
    let limits = budget_limits_of(
        &runtime.daily_limit_usd,
        &runtime.weekly_limit_usd,
        &runtime.monthly_limit_usd,
    )?;
    let has_subscription = subscription_id.is_some();
    let selected = ClientBillingPolicy::for_plan_window(
        plan_id,
        subscription_id,
        limits,
        multiplier,
        runtime.starts_at,
        runtime.expires_at,
    );
    let base_plan_id = plan_id_of(base_plan_text, "invalid base plan ID")?;
    let base_multiplier = match Decimal::from_scaled(DECIMAL_SCALE) {
        Ok(d) => d,
        Err(_) => {
            return Err(
                SnapshotDataError {
                    entity: "subscription plan",
                    message: "invalid base multiplier",
                },
            );
        },
    };
    let base_limits = budget_limits_of(
        &runtime.base_daily_limit_usd,
        &runtime.base_weekly_limit_usd,
        &runtime.base_monthly_limit_usd,
    )?;
    let base = ClientBillingPolicy::for_plan(base_plan_id, None, base_limits, base_multiplier, None);
    let selected = if has_subscription {
        selected.with_fallback(base.copied())
    } else {
        selected
    };
    let successor_text = match &runtime.successor_plan_id {
        Some(t) => t,
        None => {
            return Ok(Some(selected));
        },
    };
    let successor_plan_id = plan_id_of(successor_text, "invalid successor plan ID")?;
    let successor_subscription_id = subscription_id_of(
        &runtime.successor_subscription_id,
        "invalid successor subscription ID",
    )?;
    let successor_multiplier = multiplier_from(
        &runtime.successor_downstream_rate_multiplier,
        "invalid successor billing multiplier",
    )?;
    let successor_limits = budget_limits_of(
        &runtime.successor_daily_limit_usd,
        &runtime.successor_weekly_limit_usd,
        &runtime.successor_monthly_limit_usd,
    )?;
    let successor = ClientBillingPolicy::for_plan_window(
        successor_plan_id,
        successor_subscription_id,
        successor_limits,
        successor_multiplier,
        runtime.successor_starts_at,
        runtime.successor_expires_at,
    ).with_fallback(base);
    Ok(Some(selected.with_successor(successor)))
}

/// The owner recorded for a key (the first entry naming it).
pub open spec fn owner_lookup(owners: Seq<(String, SnapshotClientKeyOwner)>, key: Seq<char>) -> Option<
    SnapshotClientKeyOwner,
>
    decreases owners.len(),
{
    if owners.len() == 0 {
        None
    } else if owners[0].0@ == key {
        Some(owners[0].1)
    } else {
        owner_lookup(owners.drop_first(), key)
    }
}

/// The name snapshots recorded for a key (the first entry naming it).
pub open spec fn metadata_lookup(
    metadata: Seq<(String, SnapshotClientKeyMetadata)>,
    key: Seq<char>,
) -> Option<SnapshotClientKeyMetadata>
    decreases metadata.len(),
{
    if metadata.len() == 0 {
        None
    } else if metadata[0].0@ == key {
        Some(metadata[0].1)
    } else {
        metadata_lookup(metadata.drop_first(), key)
    }
}

/// The account facts of a key (the first row for it).
pub open spec fn runtime_lookup(runtimes: Seq<SnapshotUserRuntimeData>, key: Seq<char>) -> Option<
    SnapshotUserRuntimeData,
>
    decreases runtimes.len(),
{
    if runtimes.len() == 0 {
        None
    } else if runtimes[0].key_id@ == key {
        Some(runtimes[0])
    } else {
        runtime_lookup(runtimes.drop_first(), key)
    }
}

/// The owner recorded for a key, if any.
pub fn find_owner<'a>(owners: &'a Vec<(String, SnapshotClientKeyOwner)>, key: &str) -> (r: Option<
    &'a SnapshotClientKeyOwner,
>)
    ensures
        match r {
            Some(o) => owner_lookup(owners@, key@) == Some(*o),
            None => owner_lookup(owners@, key@) is None,
        },
{
    let mut i: usize = 0;
    assert(owners@.skip(0) == owners@);
    while i < owners.len()
        invariant
            i <= owners.len(),
            owner_lookup(owners@, key@) == owner_lookup(owners@.skip(i as int), key@),
        decreases owners.len() - i,
    {
        assert(owners@.skip(i as int)[0] == owners@[i as int]);
        assert(owners@.skip(i as int).drop_first() == owners@.skip(i + 1));
        if str_eq(owners[i].0.as_str(), key) {
            return Some(&owners[i].1);
        }
        i = i + 1;
    }
    None
}

/// The metadata recorded for a key, if any.
pub fn find_metadata<'a>(metadata: &'a Vec<(String, SnapshotClientKeyMetadata)>, key: &str) -> (r:
    Option<&'a SnapshotClientKeyMetadata>)
    ensures
        match r {
            Some(m) => metadata_lookup(metadata@, key@) == Some(*m),
            None => metadata_lookup(metadata@, key@) is None,
        },
{
    let mut i: usize = 0;
    assert(metadata@.skip(0) == metadata@);
    while i < metadata.len()
        invariant
            i <= metadata.len(),
            metadata_lookup(metadata@, key@) == metadata_lookup(metadata@.skip(i as int), key@),
        decreases metadata.len() - i,
    {
        assert(metadata@.skip(i as int)[0] == metadata@[i as int]);
        assert(metadata@.skip(i as int).drop_first() == metadata@.skip(i + 1));
        if str_eq(metadata[i].0.as_str(), key) {
            return Some(&metadata[i].1);
        }
        i = i + 1;
    }
    None
}

/// The runtime facts recorded for a key's account, if any.
pub fn find_runtime<'a>(runtimes: &'a Vec<SnapshotUserRuntimeData>, key: &str) -> (r: Option<
    &'a SnapshotUserRuntimeData,
>)
    ensures
        match r {
            Some(rt) => runtime_lookup(runtimes@, key@) == Some(*rt),
            None => runtime_lookup(runtimes@, key@) is None,
        },
{
    let mut i: usize = 0;
    assert(runtimes@.skip(0) == runtimes@);
    while i < runtimes.len()
        invariant
            i <= runtimes.len(),
            runtime_lookup(runtimes@, key@) == runtime_lookup(runtimes@.skip(i as int), key@),
        decreases runtimes.len() - i,
    {
        assert(runtimes@.skip(i as int)[0] == runtimes@[i as int]);
        assert(runtimes@.skip(i as int).drop_first() == runtimes@.skip(i + 1));
        if str_eq(runtimes[i].key_id.as_str(), key) {
            return Some(&runtimes[i]);
        }
        i = i + 1;
    }
    None
}

/// The facts of one key's admission policy in the snapshot.
pub struct SnapshotClientPolicyFacts {
    pub policy: ClientPolicy,
    pub request_profiles: Vec<(String, String)>,
}

pub open spec fn group_ids_ok(ids: Seq<String>) -> bool {
    forall|i: int| 0 <= i < ids.len() ==> identifier_error(#[trigger] ids[i]@) is None
}

pub open spec fn user_limits_ok(rt: SnapshotUserRuntimeData) -> bool {
    &&& (rt.max_concurrency matches Some(v) ==> v >= 0)
    &&& (rt.requests_per_minute matches Some(v) ==> v >= 0)
}

pub open spec fn user_limits_of(rt: SnapshotUserRuntimeData) -> UserRateLimits {
    UserRateLimits {
        max_concurrency: match rt.max_concurrency {
            Some(v) => Some(v as u64),
            None => None,
        },
        requests_per_minute: match rt.requests_per_minute {
            Some(v) => Some(v as u64),
            None => None,
        },
    }
}

/// Whether a key enters the snapshot: it has an ownership fact and is not
/// suppressed; an owned key has account facts; account facts, when present,
/// are well formed; and its name snapshots are recorded.
pub open spec fn key_admitted(
    key_id: Seq<char>,
    owners: Seq<(String, SnapshotClientKeyOwner)>,
    runtimes: Seq<SnapshotUserRuntimeData>,
    metadata: Seq<(String, SnapshotClientKeyMetadata)>,
) -> bool {
    match owner_lookup(owners, key_id) {
        None => false,
        Some(SnapshotClientKeyOwner::Suppressed) => false,
        Some(owner) => {
            let rt = runtime_lookup(runtimes, key_id);
            &&& !(owner is Owned && rt is None)
            &&& (rt matches Some(r) ==> group_ids_ok(r.group_ids@) && identifier_error(r.user_id@)
                is None && billing_policy_error(r) is None && user_limits_ok(r))
            &&& metadata_lookup(metadata, key_id) is Some
        },
    }
}

pub open spec fn opt_string_view(s: Option<String>) -> Option<Seq<char>> {
    match s {
        Some(v) => Some(v@),
        None => None,
    }
}

/// The policy facts an admitted key gets: its own key facts, the account's
/// groups when it has account facts (its own groups otherwise), its name
/// snapshots, and, with account facts, the account, its limits and its billing
/// policy.
pub open spec fn policy_facts_for(
    f: SnapshotClientPolicyFacts,
    key: ClientApiKeySnapshot,
    runtimes: Seq<SnapshotUserRuntimeData>,
    metadata: Seq<(String, SnapshotClientKeyMetadata)>,
) -> bool {
    let rt = runtime_lookup(runtimes, key.id@);
    let md = metadata_lookup(metadata, key.id@);
    &&& f.policy.spec_key_id() == key.id@
    &&& f.policy.spec_plaintext_key() == key.plaintext_key@
    &&& f.policy.spec_account_group_ids() == match rt {
        Some(r) => r.group_ids@,
        None => key.group_ids@,
    }
    &&& f.policy.spec_enabled()
    &&& f.policy.spec_limits() == key.limits
    &&& md matches Some(m) && f.policy.spec_username_snapshot() == opt_string_view(
        m.username_snapshot,
    ) && f.policy.spec_key_name_snapshot() == opt_string_view(m.client_api_key_name_snapshot)
    &&& match rt {
        Some(r) => {
            &&& f.policy.spec_user_id() == Some(r.user_id@)
            &&& f.policy.spec_user_rate_limits() == user_limits_of(r)
            &&& f.policy.spec_billing_policy() matches Some(p) && is_owned_billing_policy(p, r)
        },
        None => f.policy.spec_user_id() is None && f.policy.spec_billing_policy() is None,
    }
    &&& f.request_profiles@ == key.request_profiles@
}

fn copy_strings(v: &Vec<String>) -> (r: Vec<String>)
    ensures
        r@ == v@,
{
    let mut out: Vec<String> = Vec::new();
    let mut i: usize = 0;
    while i < v.len()
        invariant
            i <= v.len(),
            out@ == v@.take(i as int),
        decreases v.len() - i,
    {
        out.push(v[i].clone());
        assert(v@.take(i + 1) == v@.take(i as int).push(v@[i as int]));
        i = i + 1;
    }
    assert(v@.take(v@.len() as int) == v@);
    out
}

fn copy_pairs(v: &Vec<(String, String)>) -> (r: Vec<(String, String)>)
    ensures
        r@ == v@,
{
    let mut out: Vec<(String, String)> = Vec::new();
    let mut i: usize = 0;
    while i < v.len()
        invariant
            i <= v.len(),
            out@ == v@.take(i as int),
        decreases v.len() - i,
    {
        out.push((v[i].0.clone(), v[i].1.clone()));
        assert(v@.take(i + 1) == v@.take(i as int).push(v@[i as int]));
        i = i + 1;
    }
    assert(v@.take(v@.len() as int) == v@);
    out
}

fn copy_opt_string(s: &Option<String>) -> (r: Option<String>)
    ensures
        r == *s,
{
    match s {
        Some(v) => Some(v.clone()),
        None => None,
    }
}

fn valid_group_ids(ids: &Vec<String>) -> (r: bool)
    ensures
        r == group_ids_ok(ids@),
{
    let mut i: usize = 0;
    while i < ids.len()
        invariant
            i <= ids.len(),
            forall|j: int| 0 <= j < i ==> identifier_error(#[trigger] ids@[j]@) is None,
        decreases ids.len() - i,
    {
        if crate::policy::validate_identifier(ids[i].as_str()).is_err() {
            return false;
        }
        i = i + 1;
    }
    true
}

fn opt_limit(v: Option<i64>) -> (r: Result<Option<u64>, SnapshotDataError>)
    ensures
        match v {
            Some(x) => if x >= 0 {
                r == Ok::<Option<u64>, SnapshotDataError>(Some(x as u64))
            } else {
                r is Err
            },
            None => r == Ok::<Option<u64>, SnapshotDataError>(None),
        },
{
    match v {
        Some(x) => Ok(Some(to_u64_i64(x)?)),
        None => Ok(None),
    }
}

/// One key's policy facts, or `None` when the key is left out of the snapshot.
pub fn client_key_policy(
    key: &ClientApiKeySnapshot,
    owners: &Vec<(String, SnapshotClientKeyOwner)>,
    runtimes: &Vec<SnapshotUserRuntimeData>,
    metadata: &Vec<(String, SnapshotClientKeyMetadata)>,
) -> (r: Option<SnapshotClientPolicyFacts>)
    ensures
        r is Some <==> key_admitted(key.id@, owners@, runtimes@, metadata@),
        r matches Some(f) ==> policy_facts_for(f, *key, runtimes@, metadata@),
{
    let key_id = key.id.as_str();
    let owner = match find_owner(owners, key_id) {
        Some(o) => o,
        None => {
            return None;
        },
    };
    let owned = match owner {
        SnapshotClientKeyOwner::Suppressed => {
            return None;
        },
        SnapshotClientKeyOwner::Owned(_) => true,
        SnapshotClientKeyOwner::Ownerless => false,
    };
    let runtime = find_runtime(runtimes, key_id);
    if owned && runtime.is_none() {
        return None;
    }
    let group_ids = match runtime {
        Some(rt) => {
            if !valid_group_ids(&rt.group_ids) {
                return None;
            }
            copy_strings(&rt.group_ids)
        },
        None => copy_strings(&key.group_ids),
    };
    let md = match find_metadata(metadata, key_id) {
        Some(m) => m,
        None => {
            return None;
        },
    };
    let mut policy = ClientPolicy::new(
        key.id.copied(),
        key.plaintext_key.copied(),
        group_ids,
        true,
        key.limits,
    ).with_historical_names(
        copy_opt_string(&md.username_snapshot),
        copy_opt_string(&md.client_api_key_name_snapshot),
    );
    if let Some(rt) = runtime {
        let user_id = match UserId::new(rt.user_id.as_str()) {
            Ok(id) => id,
            Err(_) => {
                return None;
            },
        };
        let billing = match build_billing_policy(rt) {
            Ok(b) => b,
            Err(_) => {
                return None;
            },
        };
        let max_concurrency = match opt_limit(rt.max_concurrency) {
            Ok(v) => v,
            Err(_) => {
                return None;
            },
        };
        let requests_per_minute = match opt_limit(rt.requests_per_minute) {
            Ok(v) => v,
            Err(_) => {
                return None;
            },
        };
        policy = policy.with_user_runtime(
            user_id,
            UserRateLimits { max_concurrency, requests_per_minute },
            billing,
        );
    }
    Some(SnapshotClientPolicyFacts { policy, request_profiles: copy_pairs(&key.request_profiles) })
}

/// The policies of the snapshot: one per admitted key, in key order.
pub fn snapshot_client_policies(
    keys: &Vec<ClientApiKeySnapshot>,
    owners: &Vec<(String, SnapshotClientKeyOwner)>,
    runtimes: &Vec<SnapshotUserRuntimeData>,
    metadata: &Vec<(String, SnapshotClientKeyMetadata)>,
) -> (r: Vec<SnapshotClientPolicyFacts>)
    ensures
        r@.len() == keys@.filter(
            |k: ClientApiKeySnapshot| key_admitted(k.id@, owners@, runtimes@, metadata@),
        ).len(),
        forall|i: int|
            0 <= i < r@.len() ==> policy_facts_for(
                #[trigger] r@[i],
                keys@.filter(
                    |k: ClientApiKeySnapshot| key_admitted(k.id@, owners@, runtimes@, metadata@),
                )[i],
                runtimes@,
                metadata@,
            ),
{
    let ghost pred = |k: ClientApiKeySnapshot| key_admitted(k.id@, owners@, runtimes@, metadata@);
    let mut out: Vec<SnapshotClientPolicyFacts> = Vec::new();
    let mut i: usize = 0;
    proof {
        reveal(Seq::filter);
    }
    assert(keys@.take(0).filter(pred).len() == 0);
    while i < keys.len()
        invariant
            i <= keys.len(),
            pred == (|k: ClientApiKeySnapshot| key_admitted(k.id@, owners@, runtimes@, metadata@)),
            out@.len() == keys@.take(i as int).filter(pred).len(),
            forall|j: int|
                0 <= j < out@.len() ==> policy_facts_for(
                    #[trigger] out@[j],
                    keys@.take(i as int).filter(pred)[j],
                    runtimes@,
                    metadata@,
                ),
        decreases keys.len() - i,
    {
        let ghost before = keys@.take(i as int);
        proof {
            reveal(Seq::filter);
        }
        assert(keys@.take(i + 1).drop_last() == before);
        assert(keys@.take(i + 1).last() == keys@[i as int]);
        match client_key_policy(&keys[i], owners, runtimes, metadata) {
            Some(f) => {
                assert(keys@.take(i + 1).filter(pred) == before.filter(pred).push(keys@[i as int]));
                out.push(f);
            },
            None => {
                assert(keys@.take(i + 1).filter(pred) == before.filter(pred));
            },
        }
        i = i + 1;
    }
    assert(keys@.take(keys@.len() as int) == keys@);
    out
}

/// The plan facts name a next plan whose subscription has started by `now`.
pub open spec fn successor_started(rt: SnapshotUserRuntimeData, now: i64) -> bool {
    &&& rt.successor_plan_id is Some
    &&& match rt.successor_starts_at {
        Some(s) => s <= now,
        None => false,
    }
}

/// The plan an owned key is billed under at `now` follows its plan facts: the
/// policy is scheduled to move on exactly when the facts name a next plan;
/// within the current plan's window the key is billed under the current plan
/// until the next subscription starts, and under the next plan and
/// subscription once it has started and while its own window holds; after the
/// next subscription's window, under the base plan; outside the current
/// plan's window, under the base plan when the current plan is a
/// subscription and under none otherwise.
pub proof fn lemma_owned_policy_follows_schedule(rt: SnapshotUserRuntimeData, p: ClientBillingPolicy, now: i64)
    requires
        billing_policy_error(rt) is None,
        is_owned_billing_policy(p, rt),
    ensures
        p.spec_successor() is Some <==> rt.successor_plan_id is Some,
        window_contains(rt.starts_at, rt.expires_at, now) && !successor_started(rt, now) ==> (
        p.policy_at(now) matches Some(q) && Some(q.spec_plan_id()) == opt_id_view(rt.plan_id)
            && q.spec_subscription_id() == opt_id_view(rt.subscription_id)),
        window_contains(rt.starts_at, rt.expires_at, now) && successor_started(rt, now) && window_contains(
            rt.successor_starts_at,
            rt.successor_expires_at,
            now,
        ) ==> (p.policy_at(now) matches Some(q) && Some(q.spec_plan_id()) == opt_id_view(
            rt.successor_plan_id,
        ) && q.spec_subscription_id() == opt_id_view(rt.successor_subscription_id) && Some(
            q.spec_multiplier(),
        ) == multiplier_of(rt.successor_downstream_rate_multiplier) && q.spec_expires_at()
            == rt.successor_expires_at),
        window_contains(rt.starts_at, rt.expires_at, now) && successor_started(rt, now) && !window_contains(
            rt.successor_starts_at,
            rt.successor_expires_at,
            now,
        ) ==> (p.policy_at(now) matches Some(q) && Some(q.spec_plan_id()) == opt_id_view(rt.base_plan_id)
            && q.spec_subscription_id() is None),
        !window_contains(rt.starts_at, rt.expires_at, now) && rt.subscription_id is Some ==> (p.policy_at(
            now,
        ) matches Some(q) && Some(q.spec_plan_id()) == opt_id_view(rt.base_plan_id)
            && q.spec_subscription_id() is None),
        !window_contains(rt.starts_at, rt.expires_at, now) && rt.subscription_id is None ==> p.policy_at(
            now,
        ) is None,
{
    lemma_policy_selection(p, now);
    if let Some(b) = p.spec_fallback() {
        lemma_policy_selection(b, now);
    }
    if let Some(s) = p.spec_successor() {
        lemma_policy_selection(s, now);
        if let Some(b) = s.spec_fallback() {
            lemma_policy_selection(b, now);
        }
    }
}

} // verus!
