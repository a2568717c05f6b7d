//! USD budgets of keys and accounts, and the tightest remaining budget a key
//! can still spend.

use vstd::prelude::*;

use crate::decimal::Decimal;

verus! {

/// Key-level USD limits; zero leaves a period unlimited.
#[derive(Debug, Clone, Copy, PartialEq, Eq, Default, Structural)]
pub struct ClientBudgetLimits {
    pub daily_usd: Decimal,
    pub weekly_usd: Decimal,
}

impl ClientBudgetLimits {
    pub fn is_limited(self) -> (b: bool)
        ensures
            b == (self.daily_usd@ != 0 || self.weekly_usd@ != 0),
    {
        self.daily_usd.scaled() != 0 || self.weekly_usd.scaled() != 0
    }
}

/// A key's limits, what it has spent in the current periods and when they reset.
#[derive(Debug, Clone, Copy, PartialEq, Eq, Default, Structural)]
pub struct ClientBudgetStatus {
    pub limits: ClientBudgetLimits,
    pub daily_used_usd: Decimal,
    pub weekly_used_usd: Decimal,
    pub daily_resets_at: Option<i64>,
    pub weekly_resets_at: Option<i64>,
}

/// One account budget window: its plan limit, spend, top-up credit, the limit
/// in force (`None` when unlimited) and its end.
#[derive(Debug, Clone, Copy, PartialEq, Eq, Structural)]
pub struct UserBudgetWindowStatus {
    pub limit: Option<Decimal>,
    pub used: Decimal,
    pub credit: Decimal,
    pub effective_limit: Option<Decimal>,
    pub resets_at: i64,
}

#[derive(Debug, Clone, Copy, PartialEq, Eq, Structural)]
pub struct UserBudgetStatus {
    pub daily: UserBudgetWindowStatus,
    pub weekly: UserBudgetWindowStatus,
    pub monthly: UserBudgetWindowStatus,
}

/// What remains of the tightest budget over all windows, and when it resets;
/// The instants `[start, end)`, in microseconds since the epoch.
#[derive(Debug, Clone, Copy, PartialEq, Eq, Structural)]
pub struct TimeRange {
    pub start: i64,
    pub end: i64,
}

/// Usage of one key over a time range, optionally for one model.
#[derive(Debug, Clone, PartialEq, Eq)]
pub struct KeyUsageQuery {
    pub range: TimeRange,
    pub model: Option<String>,
}

/// Which of a key's requests to list.
#[derive(Debug, Clone, Copy, PartialEq, Eq, Structural)]
pub enum KeyUsageRecordKind {
    Success,
    Error,
}

/// One page of a key's successful or failed requests.
#[derive(Debug, Clone, PartialEq, Eq)]
pub struct KeyUsageRecordsQuery {
    pub usage: KeyUsageQuery,
    pub kind: KeyUsageRecordKind,
    pub current_page: u32,
    pub page_size: u16,
}

/// `remaining_usd` is `None` when no window is limited.
#[derive(Debug, Clone, Copy, PartialEq, Eq, Structural)]
pub struct KeyUsageAvailableBudget {
    pub remaining_usd: Option<Decimal>,
    pub resets_at: Option<i64>,
}

#[derive(Debug, Clone, Copy, PartialEq, Eq, Structural)]
pub struct KeyUsageBudget {
    pub key: ClientBudgetStatus,
    pub available: KeyUsageAvailableBudget,
}

/// `a - b`, or zero when `b` exceeds `a`.
pub open spec fn saturating_diff(a: nat, b: nat) -> nat {
    if a >= b {
        (a - b) as nat
    } else {
        0
    }
}

/// A limited window: its remaining amount and reset instant.
pub type Candidate = (nat, Option<i64>);

pub open spec fn option_seq(c: Option<Candidate>) -> Seq<Candidate> {
    match c {
        Some(x) => seq![x],
        None => Seq::<Candidate>::empty(),
    }
}

/// A key period is limited when its limit is non-zero.
pub open spec fn key_window_candidate(limit: Decimal, used: Decimal, resets_at: Option<i64>) -> Option<
    Candidate,
> {
    if limit@ != 0 {
        Some((saturating_diff(limit@, used@), resets_at))
    } else {
        None
    }
}

/// An account window is limited when it has a limit in force.
pub open spec fn user_window_candidate(window: UserBudgetWindowStatus) -> Option<Candidate> {
    match window.effective_limit {
        Some(limit) => Some((saturating_diff(limit@, window.used@), Some(window.resets_at))),
        None => None,
    }
}

/// The limited windows, in order: key daily, key weekly, account daily, weekly, monthly.
pub open spec fn budget_candidates(key: ClientBudgetStatus, user: Option<UserBudgetStatus>) -> Seq<
    Candidate,
> {
    let key_part = option_seq(
        key_window_candidate(key.limits.daily_usd, key.daily_used_usd, key.daily_resets_at),
    ) + option_seq(
        key_window_candidate(key.limits.weekly_usd, key.weekly_used_usd, key.weekly_resets_at),
    );
    match user {
        Some(u) => key_part + option_seq(user_window_candidate(u.daily)) + option_seq(
            user_window_candidate(u.weekly),
        ) + option_seq(user_window_candidate(u.monthly)),
        None => key_part,
    }
}

/// Reset instant shared by two equally tight windows: the later one, unknown if either is.
pub open spec fn later_reset(a: Option<i64>, b: Option<i64>) -> Option<i64> {
    match (a, b) {
        (Some(x), Some(y)) => Some(if x >= y {
            x
        } else {
            y
        }),
        _ => None,
    }
}

/// Merges one more window into the tightest so far.
pub open spec fn merge_candidate(tightest: Option<Candidate>, c: Candidate) -> Option<Candidate> {
    match tightest {
        None => Some(c),
        Some(t) => if c.0 < t.0 {
            Some(c)
        } else if c.0 == t.0 {
            Some((t.0, later_reset(t.1, c.1)))
        } else {
            Some(t)
        },
    }
}

/// The tightest of the windows, merged left to right.
pub open spec fn tightest_of(cands: Seq<Candidate>) -> Option<Candidate>
    decreases cands.len(),
{
    if cands.len() == 0 {
        None
    } else {
        merge_candidate(tightest_of(cands.drop_last()), cands.last())
    }
}

/// The window is among the tightest ones.
pub open spec fn is_tightest(cands: Seq<Candidate>, i: int, amount: nat) -> bool {
    0 <= i < cands.len() && cands[i].0 == amount
}

#[derive(Debug, Clone, Copy)]
struct BudgetCandidate {
    remaining_usd: Decimal,
    resets_at: Option<i64>,
}

spec fn candidate_view(c: BudgetCandidate) -> Candidate {
    (c.remaining_usd@, c.resets_at)
}

fn key_window(limit: Decimal, used: Decimal, resets_at: Option<i64>) -> (r: Option<BudgetCandidate>)
    ensures
        match r {
            Some(c) => key_window_candidate(limit, used, resets_at) == Some(candidate_view(c)),
            None => key_window_candidate(limit, used, resets_at) is None,
        },
{
    if limit.scaled() != 0 {
        Some(BudgetCandidate { remaining_usd: limit.saturating_sub(used), resets_at })
    } else {
        None
    }
}

fn user_window(window: &UserBudgetWindowStatus) -> (r: Option<BudgetCandidate>)
    ensures
        match r {
            Some(c) => user_window_candidate(*window) == Some(candidate_view(c)),
            None => user_window_candidate(*window) is None,
        },
{
    match window.effective_limit {
        Some(limit) => Some(
            BudgetCandidate {
                remaining_usd: limit.saturating_sub(window.used),
                resets_at: Some(window.resets_at),
            },
        ),
        None => None,
    }
}

fn push_candidate(cands: &mut Vec<BudgetCandidate>, c: Option<BudgetCandidate>)
    ensures
        final(cands)@.map_values(|x: BudgetCandidate| candidate_view(x)) == old(
            cands,
        )@.map_values(|x: BudgetCandidate| candidate_view(x)) + option_seq(
            match c {
                Some(x) => Some(candidate_view(x)),
                None => None,
            },
        ),
{
    match c {
        Some(x) => {
            cands.push(x);
            assert(final(cands)@.map_values(|x: BudgetCandidate| candidate_view(x)) =~= old(
                cands,
            )@.map_values(|x: BudgetCandidate| candidate_view(x)).push(candidate_view(x)));
        },
        None => {
            assert(old(cands)@.map_values(|x: BudgetCandidate| candidate_view(x)) + Seq::<
                Candidate,
            >::empty() =~= old(cands)@.map_values(|x: BudgetCandidate| candidate_view(x)));
        },
    }
}

fn merge(tightest: Option<BudgetCandidate>, c: BudgetCandidate) -> (r: Option<BudgetCandidate>)
    ensures
        r is Some,
        match r {
            Some(x) => merge_candidate(
                match tightest {
                    Some(t) => Some(candidate_view(t)),
                    None => None,
                },
                candidate_view(c),
            ) == Some(candidate_view(x)),
            None => false,
        },
{
    match tightest {
        None => Some(c),
        Some(t) => {
            let cr = c.remaining_usd.scaled();
            let tr = t.remaining_usd.scaled();
            if cr < tr {
                Some(c)
            } else if cr == tr {
                let resets_at = match (t.resets_at, c.resets_at) {
                    (Some(x), Some(y)) => Some(
                        if x >= y {
                            x
                        } else {
                            y
                        },
                    ),
                    _ => None,
                };
                Some(BudgetCandidate { remaining_usd: t.remaining_usd, resets_at })
            } else {
                Some(t)
            }
        },
    }
}

impl KeyUsageBudget {
    /// The key's own status together with the tightest remaining budget over the
    /// key's limited periods and, when the key has an owner, the account's windows.
    pub fn resolve(key: ClientBudgetStatus, user: Option<&UserBudgetStatus>) -> (r: KeyUsageBudget)
        ensures
            r.key == key,
            ({
                let t = tightest_of(
                    budget_candidates(
                        key,
                        match user {
                            Some(u) => Some(*u),
                            None => None,
                        },
                    ),
                );
                match t {
                    Some(c) => r.available.remaining_usd matches Some(d) && d@ == c.0
                        && r.available.resets_at == c.1,
                    None => r.available.remaining_usd is None && r.available.resets_at is None,
                }
            }),
            match r.available.remaining_usd {
                Some(d) => least_left(
                    key,
                    match user {
                        Some(u) => Some(*u),
                        None => None,
                    },
                ) == Some(d@),
                None => least_left(
                    key,
                    match user {
                        Some(u) => Some(*u),
                        None => None,
                    },
                ) is None,
            },
    {
        let mut cands: Vec<BudgetCandidate> = Vec::new();
        push_candidate(
            &mut cands,
            key_window(key.limits.daily_usd, key.daily_used_usd, key.daily_resets_at),
        );
        push_candidate(
            &mut cands,
            key_window(key.limits.weekly_usd, key.weekly_used_usd, key.weekly_resets_at),
        );
        match user {
            Some(u) => {
                push_candidate(&mut cands, user_window(&u.daily));
                push_candidate(&mut cands, user_window(&u.weekly));
                push_candidate(&mut cands, user_window(&u.monthly));
            },
            None => {},
        }
        let ghost all = cands@.map_values(|x: BudgetCandidate| candidate_view(x));
        assert(all =~= budget_candidates(
            key,
            match user {
                Some(u) => Some(*u),
                None => None,
            },
        ));
        let mut tightest: Option<BudgetCandidate> = None;
        let mut i: usize = 0;
        while i < cands.len()
            invariant
                i <= cands.len(),
                all == cands@.map_values(|x: BudgetCandidate| candidate_view(x)),
                tightest_of(all.take(i as int)) == match tightest {
                    Some(t) => Some(candidate_view(t)),
                    None => None,
                },
            decreases cands.len() - i,
        {
            assert(all.take(i + 1).drop_last() == all.take(i as int));
            tightest = merge(tightest, cands[i]);
            i = i + 1;
        }
        assert(all.take(cands.len() as int) == all);
        let available = match tightest {
            Some(c) => KeyUsageAvailableBudget {
                remaining_usd: Some(c.remaining_usd),
                resets_at: c.resets_at,
            },
            None => KeyUsageAvailableBudget { remaining_usd: None, resets_at: None },
        };
        proof {
            lemma_budget_is_least_left(
                key,
                match user {
                    Some(u) => Some(*u),
                    None => None,
                },
            );
        }
        KeyUsageBudget { key, available }
    }
}

/// The tightest window exists exactly when some window is limited; its amount
/// is one of the windows' amounts and no window has less left.
pub proof fn lemma_tightest_is_minimum(cands: Seq<Candidate>)
    ensures
        tightest_of(cands) is None <==> cands.len() == 0,
        tightest_of(cands) matches Some(t) ==> (exists|i: int| is_tightest(cands, i, t.0)),
        tightest_of(cands) matches Some(t) ==> (forall|i: int|
            0 <= i < cands.len() ==> t.0 <= #[trigger] cands[i].0),
    decreases cands.len(),
{
    if cands.len() > 0 {
        let p = cands.drop_last();
        lemma_tightest_is_minimum(p);
        let t = tightest_of(cands).unwrap();
        assert forall|i: int| 0 <= i < cands.len() implies t.0 <= #[trigger] cands[i].0 by {
            if i < p.len() {
                assert(cands[i] == p[i]);
            }
        }
        match tightest_of(p) {
            None => {
                assert(is_tightest(cands, cands.len() - 1, t.0));
            },
            Some(pt) => {
                if cands.last().0 <= pt.0 {
                    assert(is_tightest(cands, cands.len() - 1, t.0));
                } else {
                    let j = choose|j: int| is_tightest(p, j, pt.0);
                    assert(cands[j] == p[j]);
                    assert(is_tightest(cands, j, t.0));
                }
            },
        }
    }
}

/// The reset of the tightest budget is the latest reset among the windows that
/// are that tight, and is unknown when any of them has no known reset.
pub proof fn lemma_tightest_reset(cands: Seq<Candidate>)
    ensures
        tightest_of(cands) matches Some(t) ==> (t.1 is None <==> exists|i: int|
            is_tightest(cands, i, t.0) && cands[i].1 is None),
        tightest_of(cands) matches Some(t) ==> (t.1 matches Some(r) ==> (forall|i: int|
            is_tightest(cands, i, t.0) ==> (cands[i].1 matches Some(x) && x <= r)) && (exists|i: int|
            is_tightest(cands, i, t.0) && cands[i].1 == Some(r))),
    decreases cands.len(),
{
    if cands.len() > 0 {
        let p = cands.drop_last();
        let last = cands.len() - 1;
        lemma_tightest_reset(p);
        lemma_tightest_is_minimum(p);
        let t = tightest_of(cands).unwrap();
        match tightest_of(p) {
            None => {
                assert(p.len() == 0);
                assert forall|i: int| is_tightest(cands, i, t.0) implies i == last by {}
                assert(is_tightest(cands, last, t.0));
            },
            Some(pt) => {
                if cands.last().0 < pt.0 {
                    assert forall|i: int| is_tightest(cands, i, t.0) implies i == last by {
                        if i < last {
                            assert(cands[i] == p[i]);
                        }
                    }
                    assert(is_tightest(cands, last, t.0));
                } else if cands.last().0 == pt.0 {
                    assert forall|i: int| is_tightest(cands, i, t.0) && i < last implies is_tightest(
                        p,
                        i,
                        pt.0,
                    ) && cands[i] == p[i] by {
                        assert(cands[i] == p[i]);
                    }
                    assert forall|i: int| is_tightest(p, i, pt.0) implies is_tightest(
                        cands,
                        i,
                        t.0,
                    ) && cands[i] == p[i] by {
                        assert(cands[i] == p[i]);
                    }
                    assert(is_tightest(cands, last, t.0));
                    if t.1 is Some {
                        let r = t.1.unwrap();
                        if pt.1.unwrap() >= cands.last().1.unwrap() {
                            let j = choose|j: int| is_tightest(p, j, pt.0) && p[j].1 == pt.1;
                            assert(is_tightest(cands, j, t.0) && cands[j].1 == Some(r));
                        } else {
                            assert(is_tightest(cands, last, t.0) && cands[last].1 == Some(r));
                        }
                    } else {
                        if pt.1 is None {
                            let j = choose|j: int| is_tightest(p, j, pt.0) && p[j].1 is None;
                            assert(is_tightest(cands, j, t.0) && cands[j].1 is None);
                        } else {
                            assert(is_tightest(cands, last, t.0) && cands[last].1 is None);
                        }
                    }
                } else {
                    assert(t == pt);
                    assert forall|i: int| is_tightest(cands, i, t.0) implies i < last
                        && is_tightest(p, i, pt.0) && cands[i] == p[i] by {
                        if i < last {
                            assert(cands[i] == p[i]);
                        }
                    }
                    if pt.1 is None {
                        let j = choose|j: int| is_tightest(p, j, pt.0) && p[j].1 is None;
                        assert(cands[j] == p[j]);
                        assert(is_tightest(cands, j, t.0));
                    } else {
                        let j = choose|j: int| is_tightest(p, j, pt.0) && p[j].1 == pt.1;
                        assert(cands[j] == p[j]);
                        assert(is_tightest(cands, j, t.0));
                    }
                }
            },
        }
    }
}

/// The smaller of two optional amounts; a missing amount sets no bound.
pub open spec fn least(a: Option<nat>, b: Option<nat>) -> Option<nat> {
    match (a, b) {
        (Some(x), Some(y)) => Some(if x <= y {
            x
        } else {
            y
        }),
        (Some(x), None) => Some(x),
        (None, _) => b,
    }
}

/// What a key period leaves when it is limited (its limit is not zero): the
/// limit less the period's spend, never below zero.
pub open spec fn key_period_left(limit: Decimal, used: Decimal) -> Option<nat> {
    if limit@ != 0 {
        Some(saturating_diff(limit@, used@))
    } else {
        None
    }
}

/// What an account window leaves when a limit is in force: that limit (the
/// plan limit raised by the window's top-up credit) less the window's spend,
/// never below zero.
pub open spec fn account_window_left(w: UserBudgetWindowStatus) -> Option<nat> {
    match w.effective_limit {
        Some(e) => Some(saturating_diff(e@, w.used@)),
        None => None,
    }
}

/// The least of what the key's periods and its owner's windows leave.
pub open spec fn least_left(key: ClientBudgetStatus, user: Option<UserBudgetStatus>) -> Option<nat> {
    let own = least(
        key_period_left(key.limits.daily_usd, key.daily_used_usd),
        key_period_left(key.limits.weekly_usd, key.weekly_used_usd),
    );
    match user {
        Some(u) => least(
            least(least(own, account_window_left(u.daily)), account_window_left(u.weekly)),
            account_window_left(u.monthly),
        ),
        None => own,
    }
}

pub open spec fn candidate_amount(c: Option<Candidate>) -> Option<nat> {
    match c {
        Some(x) => Some(x.0),
        None => None,
    }
}

/// Merging one more window into the tightest so far keeps the least amount.
proof fn lemma_tightest_append(s: Seq<Candidate>, o: Option<Candidate>)
    ensures
        candidate_amount(tightest_of(s + option_seq(o))) == least(
            candidate_amount(tightest_of(s)),
            candidate_amount(o),
        ),
{
    match o {
        None => {
            assert(s + option_seq(o) =~= s);
            match tightest_of(s) {
                Some(t) => {},
                None => {},
            }
        },
        Some(c) => {
            let t = s + option_seq(o);
            assert(t.drop_last() =~= s);
            assert(t.last() == c);
        },
    }
}

/// What a key can still spend is the least of what its limited periods and,
/// when it has an owner, the owner's windows with a limit in force leave, each
/// account window counting its plan limit raised by its top-up credit; nothing
/// is known to remain when no period or window is limited.
pub proof fn lemma_budget_is_least_left(key: ClientBudgetStatus, user: Option<UserBudgetStatus>)
    ensures
        candidate_amount(tightest_of(budget_candidates(key, user))) == least_left(key, user),
{
    let a = option_seq(
        key_window_candidate(key.limits.daily_usd, key.daily_used_usd, key.daily_resets_at),
    );
    let b = option_seq(
        key_window_candidate(key.limits.weekly_usd, key.weekly_used_usd, key.weekly_resets_at),
    );
    let e = Seq::<Candidate>::empty();
    assert(e + a =~= a);
    lemma_tightest_append(e, key_window_candidate(key.limits.daily_usd, key.daily_used_usd, key.daily_resets_at));
    lemma_tightest_append(a, key_window_candidate(key.limits.weekly_usd, key.weekly_used_usd, key.weekly_resets_at));
    let own = least(
        key_period_left(key.limits.daily_usd, key.daily_used_usd),
        key_period_left(key.limits.weekly_usd, key.weekly_used_usd),
    );
    assert(candidate_amount(tightest_of(a + b)) == own);
    if let Some(u) = user {
        let c = option_seq(user_window_candidate(u.daily));
        let d = option_seq(user_window_candidate(u.weekly));
        lemma_tightest_append(a + b, user_window_candidate(u.daily));
        lemma_tightest_append(a + b + c, user_window_candidate(u.weekly));
        lemma_tightest_append(a + b + c + d, user_window_candidate(u.monthly));
        assert(candidate_amount(user_window_candidate(u.daily)) == account_window_left(u.daily));
        assert(candidate_amount(user_window_candidate(u.weekly)) == account_window_left(u.weekly));
        assert(candidate_amount(user_window_candidate(u.monthly)) == account_window_left(u.monthly));
    }
}

/// A key with no limits of its own, whose owner has a limit in force in one
/// window only, can spend what that window leaves: its plan limit plus its
/// top-up credit, less its spend, never below zero, until the window ends. A
/// credit thus raises what remains by its amount, as long as the spend stays
/// below the plan limit.
pub proof fn lemma_sole_account_window(
    key: ClientBudgetStatus,
    u: UserBudgetStatus,
    w: UserBudgetWindowStatus,
    plan_limit: Decimal,
)
    requires
        key.limits.daily_usd@ == 0,
        key.limits.weekly_usd@ == 0,
        (w == u.daily && u.weekly.effective_limit is None && u.monthly.effective_limit is None)
            || (w == u.weekly && u.daily.effective_limit is None && u.monthly.effective_limit is None)
            || (w == u.monthly && u.daily.effective_limit is None && u.weekly.effective_limit is None),
        w.limit == Some(plan_limit),
        w.effective_limit matches Some(e) && e@ == plan_limit@ + w.credit@,
    ensures
        tightest_of(budget_candidates(key, Some(u))) == Some(
            (saturating_diff(plan_limit@ + w.credit@, w.used@), Some(w.resets_at)),
        ),
        w.used@ <= plan_limit@ ==> saturating_diff(plan_limit@ + w.credit@, w.used@) == saturating_diff(
            plan_limit@,
            w.used@,
        ) + w.credit@,
{
    lemma_budget_is_least_left(key, Some(u));
    lemma_tightest_reset(budget_candidates(key, Some(u)));
    lemma_tightest_is_minimum(budget_candidates(key, Some(u)));
    let cands = budget_candidates(key, Some(u));
    let c = (saturating_diff(plan_limit@ + w.credit@, w.used@), Some(w.resets_at));
    assert(key_window_candidate(key.limits.daily_usd, key.daily_used_usd, key.daily_resets_at) is None);
    assert(key_window_candidate(key.limits.weekly_usd, key.weekly_used_usd, key.weekly_resets_at) is None);
    if w == u.daily {
        assert(cands =~= seq![c]);
    } else if w == u.weekly {
        assert(cands =~= seq![c]);
    } else {
        assert(cands =~= seq![c]);
    }
    assert(cands.drop_last() =~= Seq::<Candidate>::empty());
}

} // verus!
