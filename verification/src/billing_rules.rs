//! The decisions that the billing store makes inside its transactions: which
//! plans may change state, which subscription an edit or renewal applies to,
//! which account groups a user ends up in, and how a budget top-up is replayed
//! or added to the window's credit.

use vstd::prelude::*;

use crate::decimal::{Decimal, MAX_SCALED_DECIMAL};
use crate::error::{AdminError, AdminErrorKind};
use crate::recovery::{
    lemma_insert_sorted, lemma_text_lt_irreflexive, lemma_text_lt_total, lemma_text_lt_transitive,
    strictly_sorted, text_less, text_lt, texts,
};
use crate::subscription::{
    credit_text_ok, edited_subscription, normalize_budget_credit, renewal_error_message, renewed_expiry, renewed_expiry_spec, subscription_dates_ok, subscription_edits, updated_subscription,
    plan_text_ok, validate_plan_name, validate_subscription_dates, BudgetWindowKind, CreateSubscriptionPlan,
    CreateUserBudgetCredit, CreateUserSubscription, NewSubscriptionPlan,
    SubscriptionRenewal, UpdateUserSubscription, UserSubscriptionRecord,
};
use crate::text::{str_eq, trim_seq};
use crate::crypto::uuid_v7_text;
use crate::users::{fresh_id, generated_id, ID_FAILURE};

verus! {

/// A budget credit as stored: the window it was granted for, its amount and reason.
/// Instants are microseconds since the epoch.
#[derive(Debug, PartialEq, Eq)]
pub struct UserBudgetCreditRecord {
    pub id: String,
    pub user_id: String,
    pub plan_id: String,
    pub subscription_id: Option<String>,
    pub window: BudgetWindowKind,
    pub window_start: i64,
    pub window_end: i64,
    pub amount: Decimal,
    pub reason: String,
    pub created_at: i64,
}

impl Clone for UserBudgetCreditRecord {
    fn clone(&self) -> (r: Self)
        ensures
            r == *self,
    {
        UserBudgetCreditRecord {
            id: self.id.clone(),
            user_id: self.user_id.clone(),
            plan_id: self.plan_id.clone(),
            subscription_id: match &self.subscription_id {
                Some(s) => Some(s.clone()),
                None => None,
            },
            window: self.window,
            window_start: self.window_start,
            window_end: self.window_end,
            amount: self.amount,
            reason: self.reason.clone(),
            created_at: self.created_at,
        }
    }
}

/// A top-up as the store records it, under a fresh credit identifier.
#[derive(Debug, Clone, PartialEq, Eq)]
pub struct AddUserBudgetCredit {
    pub id: String,
    pub user_id: String,
    pub window: BudgetWindowKind,
    pub amount: Decimal,
    pub idempotency_key: String,
    pub reason: String,
}

/// The store command of a top-up: its reason trimmed and its texts checked, under
/// a new `credit_` identifier.
pub fn budget_credit_command(command: CreateUserBudgetCredit) -> (r: Result<AddUserBudgetCredit, AdminError>)
    ensures
        !credit_text_ok(command.idempotency_key@, command.reason@) ==> r is Err,
        r matches Ok(c) ==> (exists|m: u64, b: Seq<u8>| b.len() == 10 && c.id@ == "credit_"@ + uuid_v7_text(m, b)),
        r matches Ok(c) ==> generated_id("credit_"@, c.id@) && c.user_id == command.user_id
            && c.window == command.window && c.amount == command.amount && c.idempotency_key
            == command.idempotency_key && c.reason@ == trim_seq(command.reason@),
        r matches Err(e) ==> if credit_text_ok(command.idempotency_key@, command.reason@) {
            e.kind == AdminErrorKind::Internal && e.message == ID_FAILURE
        } else {
            e.kind == AdminErrorKind::Invalid && e.message == "充值幂等键或备注不合法"
        },
{
    let checked = normalize_budget_credit(command)?;
    let id = fresh_id("credit_")?;
    Ok(
        AddUserBudgetCredit {
            id,
            user_id: checked.user_id,
            window: checked.window,
            amount: checked.amount,
            idempotency_key: checked.idempotency_key,
            reason: checked.reason,
        },
    )
}

/// A present text as its characters.
pub open spec fn opt_view(t: Option<String>) -> Option<Seq<char>> {
    match t {
        Some(d) => Some(d@),
        None => None,
    }
}

/// The store command of a plan creation: the name and description must pass
/// the plan text rules (`Invalid`), and the plan gets a new `plan_` identifier.
pub fn new_plan_command(command: CreateSubscriptionPlan) -> (r: Result<NewSubscriptionPlan, AdminError>)
    ensures
        !plan_text_ok(command.name@, opt_view(command.description)) ==> r is Err,
        r matches Ok(p) ==> (exists|m: u64, b: Seq<u8>| b.len() == 10 && p.id@ == "plan_"@ + uuid_v7_text(m, b)),
        r matches Ok(p) ==> generated_id("plan_"@, p.id@) && p.name == command.name
            && p.description == command.description && p.budget_limits == command.budget_limits,
        r matches Err(e) ==> if plan_text_ok(command.name@, opt_view(command.description)) {
            e.kind == AdminErrorKind::Internal && e.message == ID_FAILURE
        } else {
            e.kind == AdminErrorKind::Invalid && e.message == "套餐配置不合法"
        },
{
    let description = match &command.description {
        Some(d) => Some(d.as_str()),
        None => None,
    };
    validate_plan_name(command.name.as_str(), description)?;
    let id = fresh_id("plan_")?;
    Ok(
        NewSubscriptionPlan {
            id,
            name: command.name,
            description: command.description,
            budget_limits: command.budget_limits,
        },
    )
}

/// The store command of a subscription grant, under a new identifier.
/// Instants are microseconds since the epoch.
#[derive(Debug, Clone, PartialEq, Eq)]
pub struct GrantUserSubscription {
    pub id: String,
    pub user_id: String,
    pub plan_id: String,
    pub starts_at: i64,
    pub expires_at: i64,
    pub downstream_rate_multiplier: Decimal,
}

/// The store command of a grant: the term must be valid (`Invalid`), and the
/// subscription gets a new `sub_` identifier.
pub fn grant_command(command: CreateUserSubscription) -> (r: Result<GrantUserSubscription, AdminError>)
    ensures
        !subscription_dates_ok(command.starts_at, command.expires_at) ==> r is Err,
        r matches Ok(g) ==> (exists|m: u64, b: Seq<u8>| b.len() == 10 && g.id@ == "sub_"@ + uuid_v7_text(m, b)),
        r matches Ok(g) ==> generated_id("sub_"@, g.id@) && g.user_id == command.user_id
            && g.plan_id == command.plan_id && g.starts_at == command.starts_at && g.expires_at
            == command.expires_at && g.downstream_rate_multiplier
            == command.downstream_rate_multiplier,
        r matches Err(e) ==> if subscription_dates_ok(command.starts_at, command.expires_at) {
            e.kind == AdminErrorKind::Internal && e.message == ID_FAILURE
        } else {
            e.kind == AdminErrorKind::Invalid && e.message == "订阅到期必须晚于开始，且期限不能超过一百年"
        },
{
    validate_subscription_dates(command.starts_at, command.expires_at)?;
    let id = fresh_id("sub_")?;
    Ok(
        GrantUserSubscription {
            id,
            user_id: command.user_id,
            plan_id: command.plan_id,
            starts_at: command.starts_at,
            expires_at: command.expires_at,
            downstream_rate_multiplier: command.downstream_rate_multiplier,
        },
    )
}

impl AddUserBudgetCredit {
    /// The store's own check of a top-up before it is recorded: the same text
    /// rules, with the reason trimmed.
    pub fn normalized(self) -> (r: Result<AddUserBudgetCredit, AdminError>)
        ensures
            r is Ok <==> credit_text_ok(self.idempotency_key@, self.reason@),
            r matches Ok(c) ==> c.id == self.id && c.user_id == self.user_id && c.window
                == self.window && c.amount == self.amount && c.idempotency_key
                == self.idempotency_key && c.reason@ == trim_seq(self.reason@),
            r matches Err(e) ==> e.kind == AdminErrorKind::Invalid && e.message == "充值幂等键或备注不合法",
    {
        let id = self.id;
        let checked = normalize_budget_credit(
            CreateUserBudgetCredit {
                user_id: self.user_id,
                window: self.window,
                amount: self.amount,
                idempotency_key: self.idempotency_key,
                reason: self.reason,
            },
        )?;
        Ok(
            AddUserBudgetCredit {
                id,
                user_id: checked.user_id,
                window: checked.window,
                amount: checked.amount,
                idempotency_key: checked.idempotency_key,
                reason: checked.reason,
            },
        )
    }
}

/// The audit action of switching a plan on or off. The base plan cannot be
/// switched off.
pub fn plan_state_action(is_base: bool, enabled: bool) -> (r: Result<&'static str, AdminError>)
    ensures
        r is Err <==> is_base && !enabled,
        r matches Err(e) ==> e.kind == AdminErrorKind::Conflict && e.message == "base plan cannot be disabled",
        r matches Ok(a) ==> a@ == (if enabled {
            "subscription_plan.enable"@
        } else {
            "subscription_plan.disable"@
        }),
{
    if is_base && !enabled {
        return Err(AdminError::conflict("base plan cannot be disabled"));
    }
    if enabled {
        Ok("subscription_plan.enable")
    } else {
        Ok("subscription_plan.disable")
    }
}

/// A subscription can be granted only on a plan that exists (`Some`) and is
/// enabled (`Some(true)`).
pub fn grant_plan_check(plan_enabled: Option<bool>) -> (r: Result<(), AdminError>)
    ensures
        r is Ok <==> plan_enabled == Some(true),
        plan_enabled is None ==> (r matches Err(e) && e.kind == AdminErrorKind::NotFound && e.message
            == "subscription plan not found"),
        plan_enabled == Some(false) ==> (r matches Err(e) && e.kind == AdminErrorKind::Conflict
            && e.message == "subscription plan is disabled"),
{
    match plan_enabled {
        None => Err(AdminError::not_found("subscription plan not found")),
        Some(false) => Err(AdminError::conflict("subscription plan is disabled")),
        Some(true) => Ok(()),
    }
}

/// An edit of the user's unrevoked subscription: an edit that changes nothing is
/// invalid, a user without such a subscription has nothing to edit, and otherwise
/// the edited interval and multiplier.
pub fn edit_current_subscription(
    current: Option<&UserSubscriptionRecord>,
    command: &UpdateUserSubscription,
) -> (r: Result<(i64, i64, Decimal), AdminError>)
    ensures
        !subscription_edits(*command) ==> (r matches Err(e) && e.kind == AdminErrorKind::Invalid
            && e.message == "empty subscription update"),
        subscription_edits(*command) && current is None ==> (r matches Err(e) && e.kind
            == AdminErrorKind::Conflict && e.message == "no editable subscription"),
        current matches Some(c) ==> match edited_subscription(
            c.starts_at,
            c.expires_at,
            c.downstream_rate_multiplier,
            *command,
        ) {
            Some(v) => r == Ok::<(i64, i64, Decimal), AdminError>(v),
            None => r matches Err(e) && e.kind == AdminErrorKind::Invalid && e.message == if subscription_edits(
                *command,
            ) {
                "订阅到期必须晚于开始，且期限不能超过一百年"
            } else {
                "empty subscription update"
            },
        },
{
    if command.starts_at.is_none() && command.expires_at.is_none()
        && command.downstream_rate_multiplier.is_none() {
        return Err(AdminError::invalid("empty subscription update"));
    }
    match current {
        None => Err(AdminError::conflict("no editable subscription")),
        Some(c) => updated_subscription(c.starts_at, c.expires_at, c.downstream_rate_multiplier, command),
    }
}

/// The new expiry of the user's unrevoked subscription after a renewal; a user
/// without such a subscription has nothing to renew.
pub fn renew_current_subscription(
    current: Option<&UserSubscriptionRecord>,
    renewal: SubscriptionRenewal,
) -> (r: Result<i64, AdminError>)
    ensures
        current is None ==> (r matches Err(e) && e.kind == AdminErrorKind::Conflict && e.message
            == "no renewable subscription"),
        current matches Some(c) ==> match renewed_expiry_spec(c.starts_at, c.expires_at, renewal) {
            Some(end) => r == Ok::<i64, AdminError>(end as i64),
            None => r matches Err(e) && e.kind == AdminErrorKind::Invalid && e.message
                == renewal_error_message(c.starts_at, c.expires_at, renewal),
        },
{
    match current {
        None => Err(AdminError::conflict("no renewable subscription")),
        Some(c) => renewed_expiry(c.starts_at, c.expires_at, renewal),
    }
}

/// The requested account groups in text order, each once.
pub fn normalize_group_ids(ids: &Vec<String>) -> (r: Vec<String>)
    ensures
        strictly_sorted(texts(r@)),
        forall|i: int| 0 <= i < ids@.len() ==> texts(r@).contains(#[trigger] texts(ids@)[i]),
        forall|j: int| 0 <= j < r@.len() ==> texts(ids@).contains(#[trigger] texts(r@)[j]),
{
    let mut out: Vec<String> = Vec::new();
    let mut i: usize = 0;
    while i < ids.len()
        invariant
            i <= ids.len(),
            strictly_sorted(texts(out@)),
            forall|a: int| 0 <= a < i ==> texts(out@).contains(#[trigger] texts(ids@)[a]),
            forall|j: int| 0 <= j < out@.len() ==> texts(ids@).contains(#[trigger] texts(out@)[j]),
        decreases ids.len() - i,
    {
        let id = ids[i].as_str();
        let ghost ks = texts(out@);
        let ghost all = texts(ids@);
        assert(all[i as int] == id@);
        let mut j: usize = 0;
        while j < out.len() && text_less(out[j].as_str(), id)
            invariant
                j <= out.len(),
                ks == texts(out@),
                forall|a: int| 0 <= a < j ==> text_lt(#[trigger] ks[a], id@),
            decreases out.len() - j,
        {
            assert(ks[j as int] == out@[j as int]@);
            j = j + 1;
        }
        if j < out.len() && str_eq(out[j].as_str(), id) {
            assert(ks[j as int] == id@);
            assert(ks.contains(all[i as int]));
        } else {
            proof {
                if j < out.len() {
                    assert(ks[j as int] == out@[j as int]@);
                    lemma_text_lt_total(ks[j as int], id@);
                    assert forall|b: int| j <= b < ks.len() implies text_lt(id@, #[trigger] ks[b]) by {
                        if b > j {
                            lemma_text_lt_transitive(id@, ks[j as int], ks[b]);
                        }
                    }
                }
                lemma_insert_sorted(ks, j as int, id@);
            }
            out.insert(j, id.to_owned());
            proof {
                assert(texts(out@) == ks.insert(j as int, id@));
                assert(texts(out@)[j as int] == all[i as int]);
                assert forall|a: int| 0 <= a <= i implies texts(out@).contains(#[trigger] all[a]) by {
                    if a < i {
                        let w = choose|x: int| 0 <= x < ks.len() && ks[x] == all[a];
                        if w < j {
                            assert(texts(out@)[w] == ks[w]);
                        } else {
                            assert(texts(out@)[w + 1] == ks[w]);
                        }
                    }
                }
                assert forall|b: int| 0 <= b < out@.len() implies all.contains(#[trigger] texts(out@)[b]) by {
                    if b < j {
                        assert(texts(out@)[b] == ks[b]);
                    } else if b == j {
                        assert(all[i as int] == texts(out@)[b]);
                    } else {
                        assert(texts(out@)[b] == ks[b - 1]);
                    }
                }
            }
        }
        i = i + 1;
    }
    out
}

/// Two lists hold the same texts, whatever their order and repetitions.
pub open spec fn same_texts(a: Seq<Seq<char>>, b: Seq<Seq<char>>) -> bool {
    forall|x: Seq<char>| #![trigger a.contains(x)] #![trigger b.contains(x)] a.contains(x) <==> b.contains(x)
}

proof fn lemma_sorted_tail(a: Seq<Seq<char>>, x: Seq<char>)
    requires
        strictly_sorted(a),
        a.len() > 0,
    ensures
        a.skip(1).contains(x) <==> (a.contains(x) && x != a[0]),
{
    if a.skip(1).contains(x) {
        let k = choose|k: int| 0 <= k < a.skip(1).len() && a.skip(1)[k] == x;
        assert(a[k + 1] == x);
        assert(text_lt(a[0], a[k + 1]));
        if x == a[0] {
            lemma_text_lt_irreflexive(x);
        }
    }
    if a.contains(x) && x != a[0] {
        let k = choose|k: int| 0 <= k < a.len() && a[k] == x;
        assert(k != 0);
        assert(a.skip(1)[k - 1] == x);
    }
}

/// A strictly sorted list is determined by the texts it holds.
proof fn lemma_sorted_unique(a: Seq<Seq<char>>, b: Seq<Seq<char>>)
    requires
        strictly_sorted(a),
        strictly_sorted(b),
        same_texts(a, b),
    ensures
        a == b,
    decreases a.len(),
{
    if a.len() == 0 {
        if b.len() > 0 {
            assert(b.contains(b[0]));
        }
        assert(b.len() == 0);
        assert(a =~= b);
    } else {
        assert(a.contains(a[0]));
        assert(b.len() > 0);
        if a[0] != b[0] {
            assert(b.contains(a[0]));
            assert(a.contains(b[0]));
            let j = choose|j: int| 0 <= j < b.len() && b[j] == a[0];
            let i = choose|i: int| 0 <= i < a.len() && a[i] == b[0];
            assert(j != 0 && i != 0);
            assert(text_lt(b[0], b[j]));
            assert(text_lt(a[0], a[i]));
            lemma_text_lt_transitive(a[0], b[0], a[0]);
            lemma_text_lt_irreflexive(a[0]);
        }
        assert forall|x: Seq<char>|
            #![trigger a.skip(1).contains(x)]
            #![trigger b.skip(1).contains(x)]
            a.skip(1).contains(x) <==> b.skip(1).contains(x) by {
            lemma_sorted_tail(a, x);
            lemma_sorted_tail(b, x);
        }
        assert(strictly_sorted(a.skip(1)));
        assert(strictly_sorted(b.skip(1)));
        lemma_sorted_unique(a.skip(1), b.skip(1));
        assert(a =~= seq![a[0]] + a.skip(1));
        assert(b =~= seq![b[0]] + b.skip(1));
    }
}

/// Requests that name the same groups, in any order and with any repetition,
/// are normalized to the same list.
pub proof fn lemma_normalized_groups_canonical(
    ids1: Seq<Seq<char>>,
    r1: Seq<Seq<char>>,
    ids2: Seq<Seq<char>>,
    r2: Seq<Seq<char>>,
)
    requires
        strictly_sorted(r1),
        forall|i: int| 0 <= i < ids1.len() ==> r1.contains(#[trigger] ids1[i]),
        forall|j: int| 0 <= j < r1.len() ==> ids1.contains(#[trigger] r1[j]),
        strictly_sorted(r2),
        forall|i: int| 0 <= i < ids2.len() ==> r2.contains(#[trigger] ids2[i]),
        forall|j: int| 0 <= j < r2.len() ==> ids2.contains(#[trigger] r2[j]),
        same_texts(ids1, ids2),
    ensures
        r1 == r2,
{
    assert forall|x: Seq<char>| #![trigger r1.contains(x)] #![trigger r2.contains(x)] r1.contains(x) <==> r2.contains(x) by {
        if r1.contains(x) {
            let j = choose|j: int| 0 <= j < r1.len() && r1[j] == x;
            assert(ids1.contains(r1[j]));
            assert(ids2.contains(x));
            let i = choose|i: int| 0 <= i < ids2.len() && ids2[i] == x;
            assert(r2.contains(ids2[i]));
        }
        if r2.contains(x) {
            let j = choose|j: int| 0 <= j < r2.len() && r2[j] == x;
            assert(ids2.contains(r2[j]));
            assert(ids1.contains(x));
            let i = choose|i: int| 0 <= i < ids1.len() && ids1[i] == x;
            assert(r1.contains(ids1[i]));
        }
    }
    lemma_sorted_unique(r1, r2);
}

/// Every requested group must exist: the groups found, in text order, must be
/// exactly the requested ones.
pub fn check_known_groups(known: &Vec<String>, ids: &Vec<String>) -> (r: Result<(), AdminError>)
    ensures
        r is Ok <==> texts(known@) == texts(ids@),
        r matches Err(e) ==> e.kind == AdminErrorKind::NotFound && e.message == "account group not found",
{
    if known.len() != ids.len() {
        proof {
            assert(texts(known@).len() != texts(ids@).len());
        }
        return Err(AdminError::not_found("account group not found"));
    }
    let mut i: usize = 0;
    while i < ids.len()
        invariant
            i <= ids.len(),
            known.len() == ids.len(),
            forall|a: int| 0 <= a < i ==> texts(known@)[a] == #[trigger] texts(ids@)[a],
        decreases ids.len() - i,
    {
        if !str_eq(known[i].as_str(), ids[i].as_str()) {
            proof {
                assert(texts(known@)[i as int] != texts(ids@)[i as int]);
            }
            return Err(AdminError::not_found("account group not found"));
        }
        i = i + 1;
    }
    assert(texts(known@) =~= texts(ids@));
    Ok(())
}

/// A top-up whose idempotency key was used before answers with the earlier
/// credit when it asks for the same window, amount and reason, and is a conflict
/// otherwise.
pub fn topup_replay(previous: &UserBudgetCreditRecord, command: &CreateUserBudgetCredit) -> (r: Result<
    (),
    AdminError,
>)
    ensures
        r is Ok <==> previous.window == command.window && previous.amount == command.amount
            && previous.reason@ == command.reason@,
        r matches Err(e) ==> e.kind == AdminErrorKind::Conflict && e.message == "idempotency key already used with another payload",
{
    if previous.window != command.window || previous.amount != command.amount || !str_eq(
        previous.reason.as_str(),
        command.reason.as_str(),
    ) {
        return Err(AdminError::conflict("idempotency key already used with another payload"));
    }
    Ok(())
}

/// The window's credit after a top-up of `amount`. A window without a limit needs
/// no credit; the credit total, and the limit plus that total, must stay in the
/// amount range.
pub fn topup_credit_total(limit: Option<Decimal>, credit: Decimal, amount: Decimal) -> (r: Result<
    Decimal,
    AdminError,
>)
    ensures
        limit is None ==> (r matches Err(e) && e.kind == AdminErrorKind::Conflict && e.message
            == "unlimited window needs no credit"),
        limit matches Some(l) ==> (r is Ok <==> credit@ + amount@ <= MAX_SCALED_DECIMAL && l@
            + credit@ + amount@ <= MAX_SCALED_DECIMAL),
        limit is Some ==> (r matches Err(e) ==> e.kind == AdminErrorKind::Invalid && e.message == if credit@
            + amount@ > MAX_SCALED_DECIMAL {
            "credit total overflow"
        } else {
            "effective limit overflow"
        }),
        r matches Ok(c) ==> c@ == credit@ + amount@,
{
    let l = match limit {
        None => {
            return Err(AdminError::conflict("unlimited window needs no credit"));
        },
        Some(l) => l,
    };
    let total = match credit.checked_add(amount) {
        None => {
            return Err(AdminError::invalid("credit total overflow"));
        },
        Some(t) => t,
    };
    if l.checked_add(total).is_none() {
        return Err(AdminError::invalid("effective limit overflow"));
    }
    Ok(total)
}

} // verus!
