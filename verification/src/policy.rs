//! Admission policy of downstream client API keys: identifiers, rate limits,
//! account budgets and the subscription plan in force at a given instant.
//!
//! Instants are microseconds since the Unix epoch.

use vstd::prelude::*;

use crate::decimal::Decimal;
use crate::text::{
    byte_len, chars_of, check_text, contains_control, has_control, is_ascii_graphic_char,
    valid_text,
};

verus! {

#[verifier::external_type_specification]
#[verifier::external_body]
pub struct ExFormatter<'a>(std::fmt::Formatter<'a>);

#[verifier::external_type_specification]
#[verifier::external_body]
pub struct ExFmtError(std::fmt::Error);

impl std::fmt::Debug for PlaintextClientApiKey {
    /// `Formatter::write_str` from std: writes a fixed redacted form.
    #[verifier::external_body]
    fn fmt(&self, f: &mut std::fmt::Formatter<'_>) -> std::fmt::Result {
        f.write_str("PlaintextClientApiKey(<redacted>)")
    }
}

#[derive(Debug, Clone, Copy, PartialEq, Eq, Structural)]
pub enum IdentifierError {
    Empty,
    TooLong,
    InvalidFormat,
}

/// Why a key's policy refuses a request.
#[derive(Debug, Clone, Copy, PartialEq, Eq)]
pub enum PolicyError {
    Denied { reason: &'static str },
}

/// Largest identifier, in UTF-8 bytes.
pub const MAX_IDENTIFIER_BYTES: usize = 128;

/// The error an identifier candidate is refused with, if any.
pub open spec fn identifier_error(s: Seq<char>) -> Option<IdentifierError> {
    if s.len() == 0 {
        Some(IdentifierError::Empty)
    } else if byte_len(s) > MAX_IDENTIFIER_BYTES {
        Some(IdentifierError::TooLong)
    } else if has_control(s) {
        Some(IdentifierError::InvalidFormat)
    } else {
        None
    }
}

/// Checks an identifier: non-empty, at most 128 bytes, no control character.
pub fn validate_identifier(value: &str) -> (r: Result<(), IdentifierError>)
    ensures
        match identifier_error(value@) {
            Some(e) => r == Err::<(), IdentifierError>(e),
            None => r is Ok,
        },
        r is Ok <==> valid_text(value@, MAX_IDENTIFIER_BYTES as nat),
{
    if value.is_empty() {
        return Err(IdentifierError::Empty);
    }
    if value.as_bytes().len() > MAX_IDENTIFIER_BYTES {
        return Err(IdentifierError::TooLong);
    }
    if contains_control(value) {
        return Err(IdentifierError::InvalidFormat);
    }
    Ok(())
}

/// Identifier of a row of `client_api_keys`.
#[derive(Debug, Clone, PartialEq, Eq, PartialOrd, Ord, Hash)]
pub struct ClientApiKeyId {
    value: String,
}

impl View for ClientApiKeyId {
    type V = Seq<char>;

    closed spec fn view(&self) -> Seq<char> {
        self.value@
    }
}

impl ClientApiKeyId {
    /// Checks and wraps a key identifier.
    pub fn new(value: &str) -> (r: Result<ClientApiKeyId, IdentifierError>)
        ensures
            match identifier_error(value@) {
                Some(e) => r == Err::<ClientApiKeyId, IdentifierError>(e),
                None => r matches Ok(id) && id@ == value@,
            },
    {
        validate_identifier(value)?;
        Ok(ClientApiKeyId { value: value.to_owned() })
    }

    pub fn as_str(&self) -> (r: &str)
        ensures
            r@ == self@,
    {
        self.value.as_str()
    }

    pub fn copied(&self) -> (r: ClientApiKeyId)
        ensures
            r == *self,
            r@ == self@,
    {
        ClientApiKeyId { value: self.value.clone() }
    }
}

/// Identifier of a user account.
#[derive(Debug, Clone, PartialEq, Eq, PartialOrd, Ord, Hash)]
pub struct UserId {
    value: String,
}

impl View for UserId {
    type V = Seq<char>;

    closed spec fn view(&self) -> Seq<char> {
        self.value@
    }
}

impl UserId {
    pub fn new(value: &str) -> (r: Result<UserId, IdentifierError>)
        ensures
            match identifier_error(value@) {
                Some(e) => r == Err::<UserId, IdentifierError>(e),
                None => r matches Ok(id) && id@ == value@,
            },
    {
        validate_identifier(value)?;
        Ok(UserId { value: value.to_owned() })
    }

    pub fn as_str(&self) -> (r: &str)
        ensures
            r@ == self@,
    {
        self.value.as_str()
    }

    pub fn copied(&self) -> (r: UserId)
        ensures
            r == *self,
            r@ == self@,
    {
        UserId { value: self.value.clone() }
    }
}

/// Identifier of a subscription plan or of a user subscription.
#[derive(Debug, Clone, PartialEq, Eq, PartialOrd, Ord, Hash)]
pub struct SubscriptionId {
    value: String,
}

impl View for SubscriptionId {
    type V = Seq<char>;

    closed spec fn view(&self) -> Seq<char> {
        self.value@
    }
}

impl SubscriptionId {
    pub fn new(value: &str) -> (r: Result<SubscriptionId, IdentifierError>)
        ensures
            match identifier_error(value@) {
                Some(e) => r == Err::<SubscriptionId, IdentifierError>(e),
                None => r matches Ok(id) && id@ == value@,
            },
    {
        validate_identifier(value)?;
        Ok(SubscriptionId { value: value.to_owned() })
    }

    pub fn as_str(&self) -> (r: &str)
        ensures
            r@ == self@,
    {
        self.value.as_str()
    }

    pub fn copied(&self) -> (r: SubscriptionId)
        ensures
            r == *self,
            r@ == self@,
    {
        SubscriptionId { value: self.value.clone() }
    }
}

/// A client API key as presented on the wire: non-empty visible ASCII.
/// Held as bytes; its `Debug` form is redacted and never shows the key.
#[derive(Clone, PartialEq, Eq)]
pub struct PlaintextClientApiKey {
    bytes: Vec<u8>,
}

impl View for PlaintextClientApiKey {
    type V = Seq<u8>;

    closed spec fn view(&self) -> Seq<u8> {
        self.bytes@
    }
}

/// The error a plaintext key candidate is refused with, if any.
pub open spec fn plaintext_key_error(s: Seq<char>) -> Option<IdentifierError> {
    if s.len() == 0 {
        Some(IdentifierError::Empty)
    } else if !(forall|i: int| 0 <= i < s.len() ==> is_ascii_graphic_char(#[trigger] s[i])) {
        Some(IdentifierError::InvalidFormat)
    } else {
        None
    }
}

impl PlaintextClientApiKey {
    /// Checks and wraps a key; migrated keys have no fixed prefix or length.
    pub fn new(value: &str) -> (r: Result<PlaintextClientApiKey, IdentifierError>)
        ensures
            match plaintext_key_error(value@) {
                Some(e) => r == Err::<PlaintextClientApiKey, IdentifierError>(e),
                None => r matches Ok(k) && k@ == value@.map_values(|c: char| c as u8),
            },
    {
        Self::validate(value)?;
        let chars = chars_of(value);
        let mut bytes: Vec<u8> = Vec::new();
        let mut i: usize = 0;
        while i < chars.len()
            invariant
                i <= chars.len(),
                chars@ == value@,
                bytes@ == chars@.take(i as int).map_values(|c: char| c as u8),
            decreases chars.len() - i,
        {
            bytes.push(chars[i] as u8);
            i = i + 1;
            assert(chars@.take(i as int) == chars@.take(i - 1).push(chars@[i - 1]));
        }
        assert(chars@.take(chars.len() as int) == chars@);
        Ok(PlaintextClientApiKey { bytes })
    }

    /// Non-empty, visible ASCII only (no white space, control or non-ASCII character).
    pub fn validate(value: &str) -> (r: Result<(), IdentifierError>)
        ensures
            match plaintext_key_error(value@) {
                Some(e) => r == Err::<(), IdentifierError>(e),
                None => r is Ok,
            },
    {
        let chars = chars_of(value);
        if chars.len() == 0 {
            return Err(IdentifierError::Empty);
        }
        let mut i: usize = 0;
        while i < chars.len()
            invariant
                i <= chars.len(),
                chars@ == value@,
                forall|j: int| 0 <= j < i ==> is_ascii_graphic_char(#[trigger] chars@[j]),
            decreases chars.len() - i,
        {
            let v = chars[i] as u32;
            if !(0x21 <= v && v <= 0x7e) {
                assert(!is_ascii_graphic_char(value@[i as int]));
                return Err(IdentifierError::InvalidFormat);
            }
            i = i + 1;
        }
        Ok(())
    }

    /// An identical key.
    pub fn copied(&self) -> (r: PlaintextClientApiKey)
        ensures
            r@ == self@,
    {
        let mut bytes: Vec<u8> = Vec::new();
        let mut i: usize = 0;
        while i < self.bytes.len()
            invariant
                i <= self.bytes@.len(),
                bytes@ == self.bytes@.take(i as int),
            decreases self.bytes.len() - i,
        {
            bytes.push(self.bytes[i]);
            assert(self.bytes@.take(i + 1) == self.bytes@.take(i as int).push(self.bytes@[i as int]));
            i = i + 1;
        }
        assert(self.bytes@.take(self.bytes@.len() as int) == self.bytes@);
        PlaintextClientApiKey { bytes }
    }

    /// The key as text, for the one response that shows a key once.
    pub fn expose_text(&self) -> (r: String)
        ensures
            r@ == self@.map_values(|b: u8| b as char),
    {
        let mut out = String::new();
        let mut i: usize = 0;
        while i < self.bytes.len()
            invariant
                i <= self.bytes@.len(),
                out@ == self.bytes@.take(i as int).map_values(|b: u8| b as char),
            decreases self.bytes.len() - i,
        {
            crate::text::push_char(&mut out, self.bytes[i] as char);
            assert(self.bytes@.take(i + 1) == self.bytes@.take(i as int).push(self.bytes@[i as int]));
            i = i + 1;
        }
        assert(self.bytes@.take(self.bytes@.len() as int) == self.bytes@);
        out
    }

    /// The key bytes, lent only to constant-time authentication.
    pub fn expose_for_auth(&self) -> (r: &[u8])
        ensures
            r@ == self@,
    {
        self.bytes.as_slice()
    }
}

/// Key-level limits; zero leaves a dimension unlimited.
#[derive(Debug, Clone, Copy, PartialEq, Eq, Default, Structural)]
pub struct RateLimits {
    pub max_concurrency: u64,
    pub requests_per_minute: u64,
}

impl RateLimits {
    pub fn unlimited() -> (r: RateLimits)
        ensures
            r.max_concurrency == 0,
            r.requests_per_minute == 0,
    {
        RateLimits { max_concurrency: 0, requests_per_minute: 0 }
    }
}

/// Account-level limits; `None` is unlimited and `Some(0)` refuses every request.
#[derive(Debug, Clone, Copy, PartialEq, Eq, Default, Structural)]
pub struct UserRateLimits {
    pub max_concurrency: Option<u64>,
    pub requests_per_minute: Option<u64>,
}

impl UserRateLimits {
    pub fn unlimited() -> (r: UserRateLimits)
        ensures
            r.max_concurrency is None,
            r.requests_per_minute is None,
    {
        UserRateLimits { max_concurrency: None, requests_per_minute: None }
    }
}

/// Account-level USD budgets; `None` is unlimited and `Some(0)` is a zero budget.
#[derive(Debug, Clone, Copy, PartialEq, Eq, Default, Structural)]
pub struct UserBudgetLimits {
    pub daily_usd: Option<Decimal>,
    pub weekly_usd: Option<Decimal>,
    pub monthly_usd: Option<Decimal>,
}

impl UserBudgetLimits {
    pub fn is_limited(self) -> (b: bool)
        ensures
            b == (self.daily_usd is Some || self.weekly_usd is Some || self.monthly_usd is Some),
    {
        self.daily_usd.is_some() || self.weekly_usd.is_some() || self.monthly_usd.is_some()
    }
}

/// Whether an optional validity window `[starts_at, expires_at)` contains `now`.
pub open spec fn window_contains(starts_at: Option<i64>, expires_at: Option<i64>, now: i64) -> bool {
    &&& (starts_at matches Some(s) ==> s <= now)
    &&& (expires_at matches Some(e) ==> e > now)
}

/// The plan a request is billed under, with the base plan to fall back on when
/// the subscription has lapsed and the next subscription to move on to once it starts.
#[derive(Debug, PartialEq, Eq)]
pub struct ClientBillingPolicy {
    plan_id: SubscriptionId,
    subscription_id: Option<SubscriptionId>,
    budget_limits: UserBudgetLimits,
    downstream_rate_multiplier: Decimal,
    starts_at: Option<i64>,
    expires_at: Option<i64>,
    fallback: Option<Box<ClientBillingPolicy>>,
    successor: Option<Box<ClientBillingPolicy>>,
}

impl ClientBillingPolicy {
    pub closed spec fn spec_plan_id(&self) -> Seq<char> {
        self.plan_id@
    }

    pub closed spec fn spec_subscription_id(&self) -> Option<Seq<char>> {
        match self.subscription_id {
            Some(id) => Some(id@),
            None => None,
        }
    }

    pub closed spec fn spec_budget_limits(&self) -> UserBudgetLimits {
        self.budget_limits
    }

    pub closed spec fn spec_multiplier(&self) -> nat {
        self.downstream_rate_multiplier@
    }

    pub closed spec fn spec_starts_at(&self) -> Option<i64> {
        self.starts_at
    }

    pub closed spec fn spec_expires_at(&self) -> Option<i64> {
        self.expires_at
    }

    pub closed spec fn spec_fallback(&self) -> Option<ClientBillingPolicy> {
        match self.fallback {
            Some(b) => Some(*b),
            None => None,
        }
    }

    pub closed spec fn spec_successor(&self) -> Option<ClientBillingPolicy> {
        match self.successor {
            Some(b) => Some(*b),
            None => None,
        }
    }

    /// The policy's own window contains `now`.
    pub open spec fn active_at(&self, now: i64) -> bool {
        window_contains(self.spec_starts_at(), self.spec_expires_at(), now)
    }

    /// The policy in force at `now`: this one while its window holds, unless
    /// its successor has already started; otherwise whatever its fallback selects.
    pub closed spec fn policy_at(self, now: i64) -> Option<ClientBillingPolicy>
        decreases self,
    {
        if window_contains(self.starts_at, self.expires_at, now) {
            match self.successor {
                Some(next) => if next.starts_at matches Some(s) && s <= now {
                    (*next).policy_at(now)
                } else {
                    Some(self)
                },
                None => Some(self),
            }
        } else {
            match self.fallback {
                Some(base) => (*base).policy_at(now),
                None => None,
            }
        }
    }

    /// A policy for a plan between two optional instants, without fallback or successor.
    pub fn for_plan_window(
        plan_id: SubscriptionId,
        subscription_id: Option<SubscriptionId>,
        budget_limits: UserBudgetLimits,
        downstream_rate_multiplier: Decimal,
        starts_at: Option<i64>,
        expires_at: Option<i64>,
    ) -> (r: ClientBillingPolicy)
        ensures
            r.spec_plan_id() == plan_id@,
            r.spec_subscription_id() == (match subscription_id {
                Some(id) => Some(id@),
                None => None::<Seq<char>>,
            }),
            r.spec_budget_limits() == budget_limits,
            r.spec_multiplier() == downstream_rate_multiplier@,
            r.spec_starts_at() == starts_at,
            r.spec_expires_at() == expires_at,
            r.spec_fallback() is None,
            r.spec_successor() is None,
    {
        ClientBillingPolicy {
            plan_id,
            subscription_id,
            budget_limits,
            downstream_rate_multiplier,
            starts_at,
            expires_at,
            fallback: None,
            successor: None,
        }
    }

    /// A policy for a plan that is in force from the start.
    pub fn for_plan(
        plan_id: SubscriptionId,
        subscription_id: Option<SubscriptionId>,
        budget_limits: UserBudgetLimits,
        downstream_rate_multiplier: Decimal,
        expires_at: Option<i64>,
    ) -> (r: ClientBillingPolicy)
        ensures
            r.spec_plan_id() == plan_id@,
            r.spec_subscription_id() == (match subscription_id {
                Some(id) => Some(id@),
                None => None::<Seq<char>>,
            }),
            r.spec_budget_limits() == budget_limits,
            r.spec_multiplier() == downstream_rate_multiplier@,
            r.spec_starts_at() is None,
            r.spec_expires_at() == expires_at,
            r.spec_fallback() is None,
            r.spec_successor() is None,
    {
        Self::for_plan_window(
            plan_id,
            subscription_id,
            budget_limits,
            downstream_rate_multiplier,
            None,
            expires_at,
        )
    }

    /// Whether the policy's validity window holds `now`.
    pub fn is_active_at(&self, now: i64) -> (b: bool)
        ensures
            b == self.active_at(now),
    {
        let started = match self.starts_at {
            Some(s) => s <= now,
            None => true,
        };
        let unexpired = match self.expires_at {
            Some(e) => e > now,
            None => true,
        };
        started && unexpired
    }

    /// The policy with `fallback` applying where it does not.
    pub fn with_fallback(self, fallback: ClientBillingPolicy) -> (r: ClientBillingPolicy)
        ensures
            r.spec_plan_id() == self.spec_plan_id(),
            r.spec_subscription_id() == self.spec_subscription_id(),
            r.spec_budget_limits() == self.spec_budget_limits(),
            r.spec_multiplier() == self.spec_multiplier(),
            r.spec_starts_at() == self.spec_starts_at(),
            r.spec_expires_at() == self.spec_expires_at(),
            r.spec_successor() == self.spec_successor(),
            r.spec_fallback() == Some(fallback),
    {
        ClientBillingPolicy { fallback: Some(Box::new(fallback)), ..self }
    }

    /// The policy with `successor` applying after it ends.
    pub fn with_successor(self, successor: ClientBillingPolicy) -> (r: ClientBillingPolicy)
        ensures
            r.spec_plan_id() == self.spec_plan_id(),
            r.spec_subscription_id() == self.spec_subscription_id(),
            r.spec_budget_limits() == self.spec_budget_limits(),
            r.spec_multiplier() == self.spec_multiplier(),
            r.spec_starts_at() == self.spec_starts_at(),
            r.spec_expires_at() == self.spec_expires_at(),
            r.spec_fallback() == self.spec_fallback(),
            r.spec_successor() == Some(successor),
    {
        ClientBillingPolicy { successor: Some(Box::new(successor)), ..self }
    }

    /// An identical policy.
    pub fn copied(&self) -> (r: ClientBillingPolicy)
        ensures
            r == *self,
        decreases self,
    {
        let plan_id = self.plan_id.copied();
        let subscription_id = match &self.subscription_id {
            Some(id) => Some(id.copied()),
            None => None,
        };
        let fallback = match &self.fallback {
            Some(b) => Some(Box::new((**b).copied())),
            None => None,
        };
        let successor = match &self.successor {
            Some(b) => Some(Box::new((**b).copied())),
            None => None,
        };
        ClientBillingPolicy {
            plan_id,
            subscription_id,
            budget_limits: self.budget_limits,
            downstream_rate_multiplier: self.downstream_rate_multiplier,
            starts_at: self.starts_at,
            expires_at: self.expires_at,
            fallback,
            successor,
        }
    }

    /// The frozen plan a request starting at `now` is billed under; the snapshot
    /// may outlive the natural end of a subscription.
    pub fn effective_at(&self, now: i64) -> (r: Option<ClientBillingPolicy>)
        ensures
            r == self.policy_at(now),
        decreases self,
    {
        if self.is_active_at(now) {
            match &self.successor {
                Some(next) => {
                    let due = match next.starts_at {
                        Some(s) => s <= now,
                        None => false,
                    };
                    if due {
                        (**next).effective_at(now)
                    } else {
                        Some(self.copied())
                    }
                },
                None => Some(self.copied()),
            }
        } else {
            match &self.fallback {
                Some(base) => (**base).effective_at(now),
                None => None,
            }
        }
    }

    pub fn plan_id(&self) -> (r: &SubscriptionId)
        ensures
            r@ == self.spec_plan_id(),
    {
        &self.plan_id
    }

    pub fn subscription_id(&self) -> (r: Option<&SubscriptionId>)
        ensures
            match r {
                Some(id) => self.spec_subscription_id() == Some(id@),
                None => self.spec_subscription_id() is None,
            },
    {
        match &self.subscription_id {
            Some(id) => Some(id),
            None => None,
        }
    }

    pub fn budget_limits(&self) -> (r: UserBudgetLimits)
        ensures
            r == self.spec_budget_limits(),
    {
        self.budget_limits
    }

    pub fn downstream_rate_multiplier(&self) -> (r: Decimal)
        ensures
            r@ == self.spec_multiplier(),
    {
        self.downstream_rate_multiplier
    }

    pub fn starts_at(&self) -> (r: Option<i64>)
        ensures
            r == self.spec_starts_at(),
    {
        self.starts_at
    }

    pub fn expires_at(&self) -> (r: Option<i64>)
        ensures
            r == self.spec_expires_at(),
    {
        self.expires_at
    }
}

impl Clone for ClientBillingPolicy {
    fn clone(&self) -> (r: Self)
        ensures
            r == *self,
    {
        self.copied()
    }
}

/// Whatever plan `effective_at` selects is in force at that instant.
pub proof fn lemma_effective_policy_is_active(policy: ClientBillingPolicy, now: i64)
    ensures
        policy.policy_at(now) matches Some(p) ==> p.active_at(now),
    decreases policy,
{
    if window_contains(policy.starts_at, policy.expires_at, now) {
        if let Some(next) = policy.successor {
            lemma_effective_policy_is_active(*next, now);
        }
    } else {
        if let Some(base) = policy.fallback {
            lemma_effective_policy_is_active(*base, now);
        }
    }
}

/// A policy whose own window holds and whose successor has not started is itself in force.
pub proof fn lemma_active_policy_selects_itself(policy: ClientBillingPolicy, now: i64)
    requires
        policy.active_at(now),
        policy.spec_successor() matches Some(next) ==> !(next.spec_starts_at() matches Some(
            s,
        ) && s <= now),
    ensures
        policy.policy_at(now) == Some(policy),
{
}

/// How a policy selects the plan in force at `now`: itself while its window holds,
/// unless its successor has started, in which case whatever the successor selects;
/// outside its window, whatever its fallback selects, and nothing without one.
pub proof fn lemma_policy_selection(policy: ClientBillingPolicy, now: i64)
    ensures
        policy.policy_at(now) == if policy.active_at(now) {
            match policy.spec_successor() {
                Some(next) => if next.spec_starts_at() matches Some(s) && s <= now {
                    next.policy_at(now)
                } else {
                    Some(policy)
                },
                None => Some(policy),
            }
        } else {
            match policy.spec_fallback() {
                Some(base) => base.policy_at(now),
                None => None,
            }
        },
{
}

/// Outside its window a policy selects what its fallback selects, and nothing
/// when it has none.
pub proof fn lemma_inactive_policy_falls_back(policy: ClientBillingPolicy, now: i64)
    requires
        !policy.active_at(now),
    ensures
        policy.spec_fallback() is None ==> policy.policy_at(now) is None,
        policy.spec_fallback() matches Some(base) ==> policy.policy_at(now) == base.policy_at(now),
{
    lemma_policy_selection(policy, now);
}

/// Inside its window, a policy whose successor has started selects what the
/// successor selects.
pub proof fn lemma_started_successor_takes_over(policy: ClientBillingPolicy, next: ClientBillingPolicy, now: i64)
    requires
        policy.active_at(now),
        policy.spec_successor() == Some(next),
        next.spec_starts_at() matches Some(s) && s <= now,
    ensures
        policy.policy_at(now) == next.policy_at(now),
{
    lemma_policy_selection(policy, now);
}

/// A policy without fallback or successor is in force exactly while its window holds.
pub proof fn lemma_plain_policy_selection(policy: ClientBillingPolicy, now: i64)
    requires
        policy.spec_fallback() is None,
        policy.spec_successor() is None,
    ensures
        policy.policy_at(now) == if policy.active_at(now) {
            Some(policy)
        } else {
            None::<ClientBillingPolicy>
        },
{
    lemma_policy_selection(policy, now);
}

/// A policy given a fallback (as `with_fallback` makes it) is active exactly
/// when `p` is, and outside that window selects what the fallback selects.
pub proof fn lemma_with_fallback_selection(
    p: ClientBillingPolicy,
    fallback: ClientBillingPolicy,
    q: ClientBillingPolicy,
    now: i64,
)
    requires
        q.spec_starts_at() == p.spec_starts_at(),
        q.spec_expires_at() == p.spec_expires_at(),
        q.spec_fallback() == Some(fallback),
    ensures
        q.active_at(now) == p.active_at(now),
        !p.active_at(now) ==> q.policy_at(now) == fallback.policy_at(now),
{
    lemma_policy_selection(q, now);
}

/// A policy given a successor (as `with_successor` makes it) is active exactly
/// when `p` is; inside that window it selects what the successor
/// selects once the successor has started, and itself before.
pub proof fn lemma_with_successor_selection(
    p: ClientBillingPolicy,
    successor: ClientBillingPolicy,
    q: ClientBillingPolicy,
    now: i64,
)
    requires
        q.spec_starts_at() == p.spec_starts_at(),
        q.spec_expires_at() == p.spec_expires_at(),
        q.spec_successor() == Some(successor),
    ensures
        q.active_at(now) == p.active_at(now),
        p.active_at(now) && (successor.spec_starts_at() matches Some(s) && s <= now) ==> q.policy_at(now)
            == successor.policy_at(now),
        p.active_at(now) && !(successor.spec_starts_at() matches Some(s) && s <= now) ==> q.policy_at(now)
            == Some(q),
{
    lemma_policy_selection(q, now);
}

/// Admission facts frozen from `client_api_keys` for one key.
#[derive(Debug, Clone, PartialEq, Eq)]
pub struct ClientPolicy {
    key_id: ClientApiKeyId,
    plaintext_key: PlaintextClientApiKey,
    account_group_ids: Vec<String>,
    enabled: bool,
    limits: RateLimits,
    user_id: Option<UserId>,
    user_rate_limits: UserRateLimits,
    billing_policy: Option<ClientBillingPolicy>,
    username_snapshot: Option<String>,
    client_api_key_name_snapshot: Option<String>,
}

impl ClientPolicy {
    pub closed spec fn spec_key_id(&self) -> Seq<char> {
        self.key_id@
    }

    pub closed spec fn spec_plaintext_key(&self) -> Seq<u8> {
        self.plaintext_key@
    }

    pub closed spec fn spec_account_group_ids(&self) -> Seq<String> {
        self.account_group_ids@
    }

    pub closed spec fn spec_enabled(&self) -> bool {
        self.enabled
    }

    pub closed spec fn spec_limits(&self) -> RateLimits {
        self.limits
    }

    pub closed spec fn spec_user_id(&self) -> Option<Seq<char>> {
        match self.user_id {
            Some(id) => Some(id@),
            None => None,
        }
    }

    pub closed spec fn spec_user_rate_limits(&self) -> UserRateLimits {
        self.user_rate_limits
    }

    pub closed spec fn spec_billing_policy(&self) -> Option<ClientBillingPolicy> {
        self.billing_policy
    }

    pub closed spec fn spec_username_snapshot(&self) -> Option<Seq<char>> {
        match self.username_snapshot {
            Some(s) => Some(s@),
            None => None,
        }
    }

    pub closed spec fn spec_key_name_snapshot(&self) -> Option<Seq<char>> {
        match self.client_api_key_name_snapshot {
            Some(s) => Some(s@),
            None => None,
        }
    }

    /// Key-level facts; an ownerless key has no user, unlimited account limits
    /// and no billing plan.
    pub fn new(
        key_id: ClientApiKeyId,
        plaintext_key: PlaintextClientApiKey,
        account_group_ids: Vec<String>,
        enabled: bool,
        limits: RateLimits,
    ) -> (r: ClientPolicy)
        ensures
            r.spec_key_id() == key_id@,
            r.spec_plaintext_key() == plaintext_key@,
            r.spec_account_group_ids() == account_group_ids@,
            r.spec_enabled() == enabled,
            r.spec_limits() == limits,
            r.spec_user_id() is None,
            r.spec_user_rate_limits() == (UserRateLimits {
                max_concurrency: None,
                requests_per_minute: None,
            }),
            r.spec_billing_policy() is None,
            r.spec_username_snapshot() is None,
            r.spec_key_name_snapshot() is None,
    {
        ClientPolicy {
            key_id,
            plaintext_key,
            account_group_ids,
            enabled,
            limits,
            user_id: None,
            user_rate_limits: UserRateLimits::unlimited(),
            billing_policy: None,
            username_snapshot: None,
            client_api_key_name_snapshot: None,
        }
    }

    /// Binds the owning user's runtime facts; everything else is kept.
    pub fn with_user_runtime(
        self,
        user_id: UserId,
        user_rate_limits: UserRateLimits,
        billing_policy: Option<ClientBillingPolicy>,
    ) -> (r: ClientPolicy)
        ensures
            r.spec_key_id() == self.spec_key_id(),
            r.spec_plaintext_key() == self.spec_plaintext_key(),
            r.spec_account_group_ids() == self.spec_account_group_ids(),
            r.spec_enabled() == self.spec_enabled(),
            r.spec_limits() == self.spec_limits(),
            r.spec_username_snapshot() == self.spec_username_snapshot(),
            r.spec_key_name_snapshot() == self.spec_key_name_snapshot(),
            r.spec_user_id() == Some(user_id@),
            r.spec_user_rate_limits() == user_rate_limits,
            r.spec_billing_policy() == billing_policy,
    {
        ClientPolicy { user_id: Some(user_id), user_rate_limits, billing_policy, ..self }
    }

    /// Binds the immutable name snapshots recorded with each request.
    pub fn with_historical_names(
        self,
        username_snapshot: Option<String>,
        client_api_key_name_snapshot: Option<String>,
    ) -> (r: ClientPolicy)
        ensures
            r.spec_key_id() == self.spec_key_id(),
            r.spec_plaintext_key() == self.spec_plaintext_key(),
            r.spec_account_group_ids() == self.spec_account_group_ids(),
            r.spec_enabled() == self.spec_enabled(),
            r.spec_limits() == self.spec_limits(),
            r.spec_user_id() == self.spec_user_id(),
            r.spec_user_rate_limits() == self.spec_user_rate_limits(),
            r.spec_billing_policy() == self.spec_billing_policy(),
            r.spec_username_snapshot() == (match username_snapshot {
                Some(s) => Some(s@),
                None => None::<Seq<char>>,
            }),
            r.spec_key_name_snapshot() == (match client_api_key_name_snapshot {
                Some(s) => Some(s@),
                None => None::<Seq<char>>,
            }),
    {
        ClientPolicy { username_snapshot, client_api_key_name_snapshot, ..self }
    }

    pub fn key_id(&self) -> (r: &ClientApiKeyId)
        ensures
            r@ == self.spec_key_id(),
    {
        &self.key_id
    }

    pub fn plaintext_key(&self) -> (r: &PlaintextClientApiKey)
        ensures
            r@ == self.spec_plaintext_key(),
    {
        &self.plaintext_key
    }

    /// The account groups the key is frozen to.
    pub fn account_scope(&self) -> (r: &Vec<String>)
        ensures
            r@ == self.spec_account_group_ids(),
    {
        &self.account_group_ids
    }

    pub fn enabled(&self) -> (r: bool)
        ensures
            r == self.spec_enabled(),
    {
        self.enabled
    }

    pub fn limits(&self) -> (r: RateLimits)
        ensures
            r == self.spec_limits(),
    {
        self.limits
    }

    pub fn user_id(&self) -> (r: Option<&UserId>)
        ensures
            match r {
                Some(id) => self.spec_user_id() == Some(id@),
                None => self.spec_user_id() is None,
            },
    {
        match &self.user_id {
            Some(id) => Some(id),
            None => None,
        }
    }

    pub fn user_rate_limits(&self) -> (r: UserRateLimits)
        ensures
            r == self.spec_user_rate_limits(),
    {
        self.user_rate_limits
    }

    pub fn billing_policy(&self) -> (r: Option<&ClientBillingPolicy>)
        ensures
            match r {
                Some(p) => self.spec_billing_policy() == Some(*p),
                None => self.spec_billing_policy() is None,
            },
    {
        match &self.billing_policy {
            Some(p) => Some(p),
            None => None,
        }
    }

    pub fn username_snapshot(&self) -> (r: Option<&str>)
        ensures
            match r {
                Some(s) => self.spec_username_snapshot() == Some(s@),
                None => self.spec_username_snapshot() is None,
            },
    {
        match &self.username_snapshot {
            Some(s) => Some(s.as_str()),
            None => None,
        }
    }

    pub fn client_api_key_name_snapshot(&self) -> (r: Option<&str>)
        ensures
            match r {
                Some(s) => self.spec_key_name_snapshot() == Some(s@),
                None => self.spec_key_name_snapshot() is None,
            },
    {
        match &self.client_api_key_name_snapshot {
            Some(s) => Some(s.as_str()),
            None => None,
        }
    }

    /// A disabled key takes no new request.
    pub fn authorize(&self) -> (r: Result<(), PolicyError>)
        ensures
            r is Ok <==> self.spec_enabled(),
            r is Err ==> r == Err::<(), PolicyError>(
                PolicyError::Denied { reason: "client API key is disabled" },
            ),
    {
        if self.enabled {
            Ok(())
        } else {
            Err(PolicyError::Denied { reason: "client API key is disabled" })
        }
    }
}

} // verus!
