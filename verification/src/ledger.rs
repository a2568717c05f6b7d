//! Settling finished requests into spend windows. A charge counts once per
//! request, in the windows that contain the instant the request completed; a
//! window that ended before that instant first starts again, having spent
//! nothing. Instants are microseconds since the epoch.

use vstd::prelude::*;

use crate::billing_rules::UserBudgetCreditRecord;
use crate::decimal::{Decimal, MAX_SCALED_DECIMAL};
use crate::error::{AdminError, AdminErrorKind};
use crate::policy::{ClientApiKeyId, ClientBillingPolicy, UserBudgetLimits, UserId};
use crate::client_keys::opt_text;
use crate::recovery::{lemma_filter_push, texts};
use crate::budget::{ClientBudgetLimits, UserBudgetStatus, UserBudgetWindowStatus};
use crate::settlement::{
    admit_key, billed_amount, check_user_budget, retry_after, user_charge_amount, AdmissionRefusal,
    BudgetExhausted, BudgetPeriod, KeyBudgetWindows, UserWindowUsage,
};
use crate::subscription::{BudgetWindowKind, ResetUserBudget};
use crate::text::str_eq;

verus! {

/// One day, in microseconds.
pub const DAY_MICROS: i64 = 86_400_000_000;

/// One week, in microseconds.
pub const WEEK_MICROS: i64 = 604_800_000_000;

/// What a finished request costs a key: its amount in USD, retries included.
#[derive(Debug, Clone)]
pub struct ClientBudgetCharge {
    pub key_id: ClientApiKeyId,
    pub request_id: String,
    pub amount_usd: Decimal,
    pub completed_at: i64,
}

/// The budget store could not record a charge.
#[derive(Debug, Clone, Copy, PartialEq, Eq)]
pub struct ClientBudgetError;

impl ClientBudgetError {
    pub fn message(&self) -> (s: &'static str)
        ensures
            s@ == "client budget store is unavailable"@,
    {
        "client budget store is unavailable"
    }
}

/// What a finished request costs the account it was admitted for. Without a
/// trusted base amount (`None`) nothing is charged.
#[derive(Debug, Clone)]
pub struct UserBudgetCharge {
    pub user_id: UserId,
    pub key_id: ClientApiKeyId,
    pub request_id: String,
    pub base_amount_usd: Option<Decimal>,
    pub policy: ClientBillingPolicy,
    pub completed_at: i64,
}

impl UserBudgetCharge {
    /// The key's share of this charge, at the account's recorded amount.
    pub fn key_charge(&self, amount_usd: Decimal) -> (c: ClientBudgetCharge)
        ensures
            c.key_id@ == self.key_id@,
            c.request_id@ == self.request_id@,
            c.amount_usd == amount_usd,
            c.completed_at == self.completed_at,
    {
        ClientBudgetCharge {
            key_id: self.key_id.copied(),
            request_id: self.request_id.clone(),
            amount_usd,
            completed_at: self.completed_at,
        }
    }
}

/// A spend window: what it spent, and the instants `[start, end)` it covers.
pub struct WindowModel {
    pub used: nat,
    pub start: int,
    pub end: int,
}

pub open spec fn window_model(used: Decimal, start: i64, end: i64) -> WindowModel {
    WindowModel { used: used@, start: start as int, end: end as int }
}

/// The window at `now`: one that ended at or before `now` starts again as
/// `[start, end)` having spent nothing; an open one stays as it is.
pub open spec fn roll(w: WindowModel, now: int, start: int, end: int) -> WindowModel {
    if w.end <= now {
        WindowModel { used: 0, start, end }
    } else {
        w
    }
}

/// A charge of `amount` at `at` keeps the window's spend in the amount range.
pub open spec fn charge_fits(w: WindowModel, amount: nat, at: int) -> bool {
    w.start <= at && at < w.end ==> w.used + amount <= MAX_SCALED_DECIMAL
}

/// The window after a charge of `amount` that completed at `at`: it grows when it
/// covers `at`.
pub open spec fn add_charge(w: WindowModel, amount: nat, at: int) -> WindowModel {
    if w.start <= at && at < w.end {
        WindowModel { used: w.used + amount, start: w.start, end: w.end }
    } else {
        w
    }
}

fn roll_window(used: Decimal, start: i64, end: i64, now: i64, new_start: i64, new_end: i64) -> (r: (
    Decimal,
    i64,
    i64,
))
    ensures
        window_model(r.0, r.1, r.2) == roll(
            window_model(used, start, end),
            now as int,
            new_start as int,
            new_end as int,
        ),
{
    if end <= now {
        (Decimal::zero(), new_start, new_end)
    } else {
        (used, start, end)
    }
}

fn charge_window(w: (Decimal, i64, i64), amount: Decimal, at: i64) -> (r: Option<(Decimal, i64, i64)>)
    ensures
        r is Some <==> charge_fits(window_model(w.0, w.1, w.2), amount@, at as int),
        r matches Some(x) ==> window_model(x.0, x.1, x.2) == add_charge(
            window_model(w.0, w.1, w.2),
            amount@,
            at as int,
        ),
{
    if w.1 <= at && at < w.2 {
        match w.0.checked_add(amount) {
            Some(u) => Some((u, w.1, w.2)),
            None => None,
        }
    } else {
        Some(w)
    }
}

/// A key's charges: the requests settled so far and its two spend windows.
#[derive(Debug, Clone)]
pub struct KeyChargeLedger {
    pub windows: KeyBudgetWindows,
    pub settled: Vec<String>,
}

pub struct KeyLedgerModel {
    pub settled: Seq<Seq<char>>,
    pub daily: WindowModel,
    pub weekly: WindowModel,
}

impl View for KeyChargeLedger {
    type V = KeyLedgerModel;

    open spec fn view(&self) -> KeyLedgerModel {
        KeyLedgerModel {
            settled: texts(self.settled@),
            daily: window_model(
                self.windows.daily_used_usd,
                self.windows.daily_start,
                self.windows.daily_end,
            ),
            weekly: window_model(
                self.windows.weekly_used_usd,
                self.windows.weekly_start,
                self.windows.weekly_end,
            ),
        }
    }
}

/// A key's ledger after settling request `id` for `amount`, completed at `at`,
/// where `day_start` starts the local day of `at`. Both windows first move to `at`
/// (a new day, and a new week from that day); a request settled before changes
/// nothing more; `None` when a window's spend would leave the amount range.
pub open spec fn settle_key_spec(
    m: KeyLedgerModel,
    id: Seq<char>,
    amount: nat,
    at: int,
    day_start: int,
) -> Option<KeyLedgerModel> {
    let daily = roll(m.daily, at, day_start, day_start + DAY_MICROS);
    let weekly = roll(m.weekly, at, day_start, day_start + WEEK_MICROS);
    if m.settled.contains(id) {
        Some(KeyLedgerModel { settled: m.settled, daily, weekly })
    } else {
        if charge_fits(daily, amount, at) && charge_fits(weekly, amount, at) {
            Some(
                KeyLedgerModel {
                    settled: m.settled.push(id),
                    daily: add_charge(daily, amount, at),
                    weekly: add_charge(weekly, amount, at),
                },
            )
        } else {
            None
        }
    }
}

fn contains_text(v: &Vec<String>, id: &str) -> (b: bool)
    ensures
        b == texts(v@).contains(id@),
{
    let mut i: usize = 0;
    while i < v.len()
        invariant
            i <= v.len(),
            forall|a: int| 0 <= a < i ==> texts(v@)[a] != id@,
        decreases v.len() - i,
    {
        if str_eq(v[i].as_str(), id) {
            assert(texts(v@)[i as int] == id@);
            return true;
        }
        i = i + 1;
    }
    false
}

/// Settles one finished request into a key's ledger; `Ok(true)` when the charge
/// was recorded now, `Ok(false)` when the request was settled before. On `Err`
/// the ledger is left as it was.
pub fn settle_key_charge(ledger: &mut KeyChargeLedger, charge: &ClientBudgetCharge, day_start: i64) -> (r:
    Result<bool, ClientBudgetError>)
    requires
        day_start <= i64::MAX - WEEK_MICROS,
    ensures
        match settle_key_spec(
            old(ledger)@,
            charge.request_id@,
            charge.amount_usd@,
            charge.completed_at as int,
            day_start as int,
        ) {
            Some(m) => r == Ok::<bool, ClientBudgetError>(!old(ledger)@.settled.contains(
                charge.request_id@,
            )) && final(ledger)@ == m,
            None => r is Err && final(ledger)@ == old(ledger)@,
        },
{
    let at = charge.completed_at;
    let w = ledger.windows;
    let daily = roll_window(w.daily_used_usd, w.daily_start, w.daily_end, at, day_start, day_start + DAY_MICROS);
    let weekly = roll_window(w.weekly_used_usd, w.weekly_start, w.weekly_end, at, day_start, day_start + WEEK_MICROS);
    if contains_text(&ledger.settled, charge.request_id.as_str()) {
        ledger.windows = KeyBudgetWindows {
            daily_used_usd: daily.0,
            daily_start: daily.1,
            daily_end: daily.2,
            weekly_used_usd: weekly.0,
            weekly_start: weekly.1,
            weekly_end: weekly.2,
        };
        return Ok(false);
    }
    let d = match charge_window(daily, charge.amount_usd, at) {
        Some(d) => d,
        None => {
            return Err(ClientBudgetError);
        },
    };
    let wk = match charge_window(weekly, charge.amount_usd, at) {
        Some(x) => x,
        None => {
            return Err(ClientBudgetError);
        },
    };
    ledger.windows = KeyBudgetWindows {
        daily_used_usd: d.0,
        daily_start: d.1,
        daily_end: d.2,
        weekly_used_usd: wk.0,
        weekly_start: wk.1,
        weekly_end: wk.2,
    };
    ledger.settled.push(charge.request_id.clone());
    proof {
        assert(texts(ledger.settled@) =~= texts(old(ledger).settled@).push(charge.request_id@));
    }
    Ok(true)
}

/// The key's windows moved to `now`, where `day_start` starts the local day of `now`.
pub open spec fn rolled_key_windows(m: KeyLedgerModel, now: int, day_start: int) -> KeyLedgerModel {
    KeyLedgerModel {
        settled: m.settled,
        daily: roll(m.daily, now, day_start, day_start + DAY_MICROS),
        weekly: roll(m.weekly, now, day_start, day_start + WEEK_MICROS),
    }
}

/// The refusal of a key whose current windows are `m` at `now`: a limited window
/// (non-zero limit) is spent once its spend reaches the limit; when both are, the
/// weekly one is named.
pub open spec fn key_window_refusal(limits: ClientBudgetLimits, m: KeyLedgerModel, now: i64) -> Option<BudgetExhausted> {
    if limits.weekly_usd@ != 0 && m.weekly.used >= limits.weekly_usd@ {
        Some(
            BudgetExhausted {
                period: BudgetPeriod::KeyWeekly,
                retry_after_micros: retry_after(m.weekly.end as i64, now),
            },
        )
    } else if limits.daily_usd@ != 0 && m.daily.used >= limits.daily_usd@ {
        Some(
            BudgetExhausted {
                period: BudgetPeriod::KeyDaily,
                retry_after_micros: retry_after(m.daily.end as i64, now),
            },
        )
    } else {
        None
    }
}

/// Admits a new request of a key at `now`: a missing or disabled key is refused as
/// it is; otherwise the key's windows move to `now` and a spent limited window
/// refuses. The moved windows are kept only when the request is admitted.
pub fn admit_key_request(
    ledger: &mut KeyChargeLedger,
    key: Option<(ClientBudgetLimits, bool)>,
    now: i64,
    day_start: i64,
) -> (r: Result<(), AdmissionRefusal>)
    requires
        day_start <= i64::MAX - WEEK_MICROS,
    ensures
        key is None ==> r == Err::<(), AdmissionRefusal>(AdmissionRefusal::KeyMissing),
        key matches Some((_, enabled)) ==> (!enabled ==> r == Err::<(), AdmissionRefusal>(
            AdmissionRefusal::KeyDisabled,
        )),
        key matches Some((limits, enabled)) ==> (enabled ==> match key_window_refusal(
            limits,
            rolled_key_windows(old(ledger)@, now as int, day_start as int),
            now,
        ) {
            Some(e) => r == Err::<(), AdmissionRefusal>(AdmissionRefusal::Exhausted(e)),
            None => r is Ok,
        }),
        r is Ok ==> final(ledger)@ == rolled_key_windows(old(ledger)@, now as int, day_start as int),
        r is Err ==> final(ledger)@ == old(ledger)@,
{
    let (limits, enabled) = match key {
        None => {
            return Err(AdmissionRefusal::KeyMissing);
        },
        Some(k) => k,
    };
    if !enabled {
        return Err(AdmissionRefusal::KeyDisabled);
    }
    let w = ledger.windows;
    let daily = roll_window(w.daily_used_usd, w.daily_start, w.daily_end, now, day_start, day_start + DAY_MICROS);
    let weekly = roll_window(w.weekly_used_usd, w.weekly_start, w.weekly_end, now, day_start, day_start + WEEK_MICROS);
    admit_key(Some((limits, true)), daily.0, weekly.0, daily.2, weekly.2, now)?;
    ledger.windows = KeyBudgetWindows {
        daily_used_usd: daily.0,
        daily_start: daily.1,
        daily_end: daily.2,
        weekly_used_usd: weekly.0,
        weekly_start: weekly.1,
        weekly_end: weekly.2,
    };
    Ok(())
}

/// Moving a window to the same instant twice is moving it once.
proof fn lemma_roll_twice(w: WindowModel, now: int, start: int, end: int)
    ensures
        roll(roll(w, now, start, end), now, start, end) == roll(w, now, start, end),
{
}

/// A window moved to `at` and then charged at `at` is not moved again at `at`.
proof fn lemma_roll_after_charge(w: WindowModel, amount: nat, at: int, start: int, end: int)
    ensures
        roll(add_charge(roll(w, at, start, end), amount, at), at, start, end) == add_charge(
            roll(w, at, start, end),
            amount,
            at,
        ),
{
}

/// Settling the same request twice leaves a key's ledger as settling it once.
pub proof fn lemma_settle_key_idempotent(
    m: KeyLedgerModel,
    id: Seq<char>,
    amount: nat,
    at: int,
    day_start: int,
)
    requires
        settle_key_spec(m, id, amount, at, day_start) is Some,
    ensures
        settle_key_spec(settle_key_spec(m, id, amount, at, day_start).unwrap(), id, amount, at, day_start)
            == settle_key_spec(m, id, amount, at, day_start),
{
    let once = settle_key_spec(m, id, amount, at, day_start).unwrap();
    lemma_roll_twice(m.daily, at, day_start, day_start + DAY_MICROS);
    lemma_roll_twice(m.weekly, at, day_start, day_start + WEEK_MICROS);
    lemma_roll_after_charge(m.daily, amount, at, day_start, day_start + DAY_MICROS);
    lemma_roll_after_charge(m.weekly, amount, at, day_start, day_start + WEEK_MICROS);
    if !m.settled.contains(id) {
        assert(m.settled.push(id)[m.settled.len() as int] == id);
        assert(once.settled.contains(id));
    }
}

/// A charge that completed before a window started (a later request already moved
/// the window on) leaves that window as it was.
pub proof fn lemma_late_charge_not_counted(
    m: KeyLedgerModel,
    id: Seq<char>,
    amount: nat,
    at: int,
    day_start: int,
)
    requires
        at < m.daily.start <= m.daily.end,
        settle_key_spec(m, id, amount, at, day_start) is Some,
    ensures
        settle_key_spec(m, id, amount, at, day_start).unwrap().daily == m.daily,
{
}

/// The request recorded last for `id` and the account charge it was billed.
pub open spec fn recorded_charge(charges: Seq<(Seq<char>, nat)>, id: Seq<char>) -> Option<nat>
    decreases charges.len(),
{
    if charges.len() == 0 {
        None
    } else if charges.last().0 == id {
        Some(charges.last().1)
    } else {
        recorded_charge(charges.drop_last(), id)
    }
}

/// An account charge as recorded: the request and what it was billed.
#[derive(Debug, Clone)]
pub struct RecordedCharge {
    pub request_id: String,
    pub billed_amount_usd: Decimal,
}

/// An account's three spend windows.
#[derive(Debug, Clone, Copy, PartialEq, Eq, Structural)]
pub struct UserBudgetWindows {
    pub daily_used_usd: Decimal,
    pub daily_start: i64,
    pub daily_end: i64,
    pub weekly_used_usd: Decimal,
    pub weekly_start: i64,
    pub weekly_end: i64,
    pub monthly_used_usd: Decimal,
    pub monthly_start: i64,
    pub monthly_end: i64,
}

/// An account's charges and spend windows.
#[derive(Debug, Clone)]
pub struct UserChargeLedger {
    pub windows: UserBudgetWindows,
    pub charges: Vec<RecordedCharge>,
}

pub struct UserLedgerModel {
    pub charges: Seq<(Seq<char>, nat)>,
    pub daily: WindowModel,
    pub weekly: WindowModel,
    pub monthly: WindowModel,
}

pub open spec fn charge_entries(v: Seq<RecordedCharge>) -> Seq<(Seq<char>, nat)> {
    v.map_values(|c: RecordedCharge| (c.request_id@, c.billed_amount_usd@))
}

impl View for UserChargeLedger {
    type V = UserLedgerModel;

    open spec fn view(&self) -> UserLedgerModel {
        UserLedgerModel {
            charges: charge_entries(self.charges@),
            daily: window_model(
                self.windows.daily_used_usd,
                self.windows.daily_start,
                self.windows.daily_end,
            ),
            weekly: window_model(
                self.windows.weekly_used_usd,
                self.windows.weekly_start,
                self.windows.weekly_end,
            ),
            monthly: window_model(
                self.windows.monthly_used_usd,
                self.windows.monthly_start,
                self.windows.monthly_end,
            ),
        }
    }
}

/// The local calendar windows that contain a charge's completion instant: the
/// start of its day, of its week, and its month's bounds.
#[derive(Debug, Clone, Copy, PartialEq, Eq)]
pub struct UserWindowBounds {
    pub day_start: i64,
    pub week_start: i64,
    pub month_start: i64,
    pub month_end: i64,
}

/// An account's ledger after settling request `id`, billed `billed` and completed
/// at `at`, with the authoritative billed amount: the windows first move to `at`;
/// a request settled before keeps its recorded amount and changes nothing more;
/// `None` when a window's spend would leave the amount range.
pub open spec fn settle_user_spec(
    m: UserLedgerModel,
    id: Seq<char>,
    billed: nat,
    at: int,
    b: UserWindowBounds,
) -> Option<(UserLedgerModel, nat)> {
    let daily = roll(m.daily, at, b.day_start as int, b.day_start + DAY_MICROS);
    let weekly = roll(m.weekly, at, b.week_start as int, b.week_start + WEEK_MICROS);
    let monthly = roll(m.monthly, at, b.month_start as int, b.month_end as int);
    match recorded_charge(m.charges, id) {
        Some(previous) => Some(
            (UserLedgerModel { charges: m.charges, daily, weekly, monthly }, previous),
        ),
        None => {
            if charge_fits(daily, billed, at) && charge_fits(weekly, billed, at) && charge_fits(
                monthly,
                billed,
                at,
            ) {
                Some(
                    (
                        UserLedgerModel {
                            charges: m.charges.push((id, billed)),
                            daily: add_charge(daily, billed, at),
                            weekly: add_charge(weekly, billed, at),
                            monthly: add_charge(monthly, billed, at),
                        },
                        billed,
                    ),
                )
            } else {
                None
            }
        },
    }
}

fn find_recorded(charges: &Vec<RecordedCharge>, id: &str) -> (r: Option<Decimal>)
    ensures
        match recorded_charge(charge_entries(charges@), id@) {
            Some(v) => r matches Some(d) && d@ == v,
            None => r is None,
        },
{
    let mut i: usize = charges.len();
    assert(charges@.take(i as int) =~= charges@);
    while i > 0
        invariant
            i <= charges.len(),
            recorded_charge(charge_entries(charges@), id@) == recorded_charge(
                charge_entries(charges@.take(i as int)),
                id@,
            ),
        decreases i,
    {
        let ghost e = charge_entries(charges@.take(i as int));
        assert(e.last() == (charges@[i - 1].request_id@, charges@[i - 1].billed_amount_usd@));
        assert(e.drop_last() =~= charge_entries(charges@.take(i - 1)));
        if str_eq(charges[i - 1].request_id.as_str(), id) {
            return Some(charges[i - 1].billed_amount_usd);
        }
        i = i - 1;
    }
    assert(charge_entries(charges@.take(0)) =~= Seq::<(Seq<char>, nat)>::empty());
    None
}

/// Settles one finished request into the account's ledger and gives the
/// authoritative billed amount: `Ok(None)` when the request has no trusted base
/// amount; the amount recorded before when the request was settled before;
/// otherwise the base amount times the policy's multiplier. On `Err` the ledger is
/// left as it was.
pub fn settle_user_charge(
    ledger: &mut UserChargeLedger,
    charge: &UserBudgetCharge,
    bounds: UserWindowBounds,
) -> (r: Result<Option<Decimal>, ClientBudgetError>)
    requires
        bounds.day_start <= i64::MAX - DAY_MICROS,
        bounds.week_start <= i64::MAX - WEEK_MICROS,
    ensures
        match charge.base_amount_usd {
            None => r == Ok::<Option<Decimal>, ClientBudgetError>(None) && final(ledger)@ == old(
                ledger,
            )@,
            Some(base) => {
                let billed = billed_amount(base@, charge.policy.spec_multiplier());
                if billed > MAX_SCALED_DECIMAL {
                    r is Err && final(ledger)@ == old(ledger)@
                } else {
                    match settle_user_spec(
                        old(ledger)@,
                        charge.request_id@,
                        billed,
                        charge.completed_at as int,
                        bounds,
                    ) {
                        Some((m, amount)) => final(ledger)@ == m && (r matches Ok(Some(d)) && d@
                            == amount),
                        None => r is Err && final(ledger)@ == old(ledger)@,
                    }
                }
            },
        },
{
    let billed = match user_charge_amount(charge.base_amount_usd, charge.policy.downstream_rate_multiplier()) {
        Ok(None) => {
            return Ok(None);
        },
        Ok(Some(b)) => b,
        Err(()) => {
            return Err(ClientBudgetError);
        },
    };
    let at = charge.completed_at;
    let w = ledger.windows;
    let daily = roll_window(
        w.daily_used_usd,
        w.daily_start,
        w.daily_end,
        at,
        bounds.day_start,
        bounds.day_start + DAY_MICROS,
    );
    let weekly = roll_window(
        w.weekly_used_usd,
        w.weekly_start,
        w.weekly_end,
        at,
        bounds.week_start,
        bounds.week_start + WEEK_MICROS,
    );
    let monthly = roll_window(
        w.monthly_used_usd,
        w.monthly_start,
        w.monthly_end,
        at,
        bounds.month_start,
        bounds.month_end,
    );
    if let Some(previous) = find_recorded(&ledger.charges, charge.request_id.as_str()) {
        ledger.windows = UserBudgetWindows {
            daily_used_usd: daily.0,
            daily_start: daily.1,
            daily_end: daily.2,
            weekly_used_usd: weekly.0,
            weekly_start: weekly.1,
            weekly_end: weekly.2,
            monthly_used_usd: monthly.0,
            monthly_start: monthly.1,
            monthly_end: monthly.2,
        };
        return Ok(Some(previous));
    }
    let d = match charge_window(daily, billed, at) {
        Some(x) => x,
        None => {
            return Err(ClientBudgetError);
        },
    };
    let wk = match charge_window(weekly, billed, at) {
        Some(x) => x,
        None => {
            return Err(ClientBudgetError);
        },
    };
    let mo = match charge_window(monthly, billed, at) {
        Some(x) => x,
        None => {
            return Err(ClientBudgetError);
        },
    };
    ledger.windows = UserBudgetWindows {
        daily_used_usd: d.0,
        daily_start: d.1,
        daily_end: d.2,
        weekly_used_usd: wk.0,
        weekly_start: wk.1,
        weekly_end: wk.2,
        monthly_used_usd: mo.0,
        monthly_start: mo.1,
        monthly_end: mo.2,
    };
    ledger.charges.push(RecordedCharge { request_id: charge.request_id.clone(), billed_amount_usd: billed });
    proof {
        assert(charge_entries(ledger.charges@) =~= charge_entries(old(ledger).charges@).push(
            (charge.request_id@, billed@),
        ));
    }
    Ok(Some(billed))
}

/// Settling the same request twice leaves an account's ledger as settling it
/// once, and gives the same billed amount.
pub proof fn lemma_settle_user_idempotent(
    m: UserLedgerModel,
    id: Seq<char>,
    billed: nat,
    at: int,
    b: UserWindowBounds,
)
    requires
        settle_user_spec(m, id, billed, at, b) is Some,
    ensures
        settle_user_spec(settle_user_spec(m, id, billed, at, b).unwrap().0, id, billed, at, b)
            == settle_user_spec(m, id, billed, at, b),
{
    let once = settle_user_spec(m, id, billed, at, b).unwrap().0;
    lemma_roll_twice(m.daily, at, b.day_start as int, b.day_start + DAY_MICROS);
    lemma_roll_twice(m.weekly, at, b.week_start as int, b.week_start + WEEK_MICROS);
    lemma_roll_twice(m.monthly, at, b.month_start as int, b.month_end as int);
    lemma_roll_after_charge(m.daily, billed, at, b.day_start as int, b.day_start + DAY_MICROS);
    lemma_roll_after_charge(m.weekly, billed, at, b.week_start as int, b.week_start + WEEK_MICROS);
    lemma_roll_after_charge(m.monthly, billed, at, b.month_start as int, b.month_end as int);
    if recorded_charge(m.charges, id) is None {
        assert(m.charges.push((id, billed)).drop_last() == m.charges);
        assert(recorded_charge(once.charges, id) == Some(billed));
    }
}

/// A request settled again, even at another amount or instant, is billed what it
/// was billed the first time, and no charge is recorded twice.
pub proof fn lemma_replay_keeps_first_amount(
    m: UserLedgerModel,
    id: Seq<char>,
    billed: nat,
    at: int,
    b: UserWindowBounds,
    billed_again: nat,
    at_again: int,
    b_again: UserWindowBounds,
)
    requires
        settle_user_spec(m, id, billed, at, b) is Some,
    ensures
        ({
            let (once, first) = settle_user_spec(m, id, billed, at, b).unwrap();
            settle_user_spec(once, id, billed_again, at_again, b_again) matches Some((twice, second))
                && second == first && twice.charges == once.charges
        }),
{
    if recorded_charge(m.charges, id) is None {
        assert(m.charges.push((id, billed)).drop_last() == m.charges);
    }
}

/// The account's windows moved to `at`, before anything else happens at `at`.
pub open spec fn rolled_user_windows(m: UserLedgerModel, at: int, b: UserWindowBounds) -> UserLedgerModel {
    UserLedgerModel {
        charges: m.charges,
        daily: roll(m.daily, at, b.day_start as int, b.day_start + DAY_MICROS),
        weekly: roll(m.weekly, at, b.week_start as int, b.week_start + WEEK_MICROS),
        monthly: roll(m.monthly, at, b.month_start as int, b.month_end as int),
    }
}

/// A window cleared by a reset: same bounds, nothing spent.
pub open spec fn cleared(w: WindowModel, selected: bool) -> WindowModel {
    if selected {
        WindowModel { used: 0, start: w.start, end: w.end }
    } else {
        w
    }
}

/// A credit granted for one of the current windows that a reset clears.
pub open spec fn credit_cleared(c: UserBudgetCreditRecord, m: UserLedgerModel, r: ResetUserBudget) -> bool {
    let w = match c.window {
        BudgetWindowKind::Daily => m.daily,
        BudgetWindowKind::Weekly => m.weekly,
        BudgetWindowKind::Monthly => m.monthly,
    };
    let selected = match c.window {
        BudgetWindowKind::Daily => r.daily,
        BudgetWindowKind::Weekly => r.weekly,
        BudgetWindowKind::Monthly => r.monthly,
    };
    selected && c.window_start == w.start && c.window_end == w.end
}

/// The credits a reset keeps: all but those granted for a cleared current window.
pub open spec fn kept_credit(m: UserLedgerModel, r: ResetUserBudget) -> spec_fn(UserBudgetCreditRecord) -> bool {
    |c: UserBudgetCreditRecord| !credit_cleared(c, m, r)
}

fn clear_window(w: (Decimal, i64, i64), selected: bool) -> (r: (Decimal, i64, i64))
    ensures
        window_model(r.0, r.1, r.2) == cleared(window_model(w.0, w.1, w.2), selected),
{
    if selected {
        (Decimal::zero(), w.1, w.2)
    } else {
        w
    }
}

/// An account budget reset at `now` (`bounds` are the calendar windows of `now`):
/// the windows first move to `now`; each selected window then has spent nothing
/// and loses the credits granted for it. Unselected windows, earlier credits and
/// the recorded charges are kept. A reset must select at least one window.
pub fn reset_user_budget(
    ledger: &mut UserChargeLedger,
    credits: &mut Vec<UserBudgetCreditRecord>,
    command: &ResetUserBudget,
    now: i64,
    bounds: UserWindowBounds,
) -> (r: Result<(), AdminError>)
    requires
        bounds.day_start <= i64::MAX - DAY_MICROS,
        bounds.week_start <= i64::MAX - WEEK_MICROS,
    ensures
        !(command.daily || command.weekly || command.monthly) ==> (r matches Err(e) && e.kind
            == AdminErrorKind::Invalid && e.message == "at least one budget window must be selected") && final(ledger)@ == old(ledger)@ && final(credits)@ == old(
            credits,
        )@,
        (command.daily || command.weekly || command.monthly) ==> ({
            let m = rolled_user_windows(old(ledger)@, now as int, bounds);
            &&& r is Ok
            &&& final(ledger)@.charges == old(ledger)@.charges
            &&& final(ledger)@.daily == cleared(m.daily, command.daily)
            &&& final(ledger)@.weekly == cleared(m.weekly, command.weekly)
            &&& final(ledger)@.monthly == cleared(m.monthly, command.monthly)
            &&& final(credits)@ == old(credits)@.filter(kept_credit(m, *command))
        }),
{
    if !command.daily && !command.weekly && !command.monthly {
        return Err(AdminError::invalid("at least one budget window must be selected"));
    }
    let w = ledger.windows;
    let daily = roll_window(
        w.daily_used_usd,
        w.daily_start,
        w.daily_end,
        now,
        bounds.day_start,
        bounds.day_start + DAY_MICROS,
    );
    let weekly = roll_window(
        w.weekly_used_usd,
        w.weekly_start,
        w.weekly_end,
        now,
        bounds.week_start,
        bounds.week_start + WEEK_MICROS,
    );
    let monthly = roll_window(
        w.monthly_used_usd,
        w.monthly_start,
        w.monthly_end,
        now,
        bounds.month_start,
        bounds.month_end,
    );
    let ghost m = rolled_user_windows(old(ledger)@, now as int, bounds);
    let mut kept: Vec<UserBudgetCreditRecord> = Vec::new();
    let mut i: usize = 0;
    while i < credits.len()
        invariant
            i <= credits.len(),
            credits@ == old(credits)@,
            window_model(daily.0, daily.1, daily.2) == m.daily,
            window_model(weekly.0, weekly.1, weekly.2) == m.weekly,
            window_model(monthly.0, monthly.1, monthly.2) == m.monthly,
            kept@ == credits@.take(i as int).filter(kept_credit(m, *command)),
        decreases credits.len() - i,
    {
        let c = &credits[i];
        let (selected, start, end) = match c.window {
            BudgetWindowKind::Daily => (command.daily, daily.1, daily.2),
            BudgetWindowKind::Weekly => (command.weekly, weekly.1, weekly.2),
            BudgetWindowKind::Monthly => (command.monthly, monthly.1, monthly.2),
        };
        let clear = selected && c.window_start == start && c.window_end == end;
        proof {
            assert(credits@.take(i + 1) == credits@.take(i as int).push(credits@[i as int]));
            lemma_filter_push(credits@.take(i as int), credits@[i as int], kept_credit(m, *command));
            assert(clear == credit_cleared(credits@[i as int], m, *command));
        }
        if !clear {
            kept.push(c.clone());
        }
        i = i + 1;
    }
    proof {
        assert(credits@.take(credits.len() as int) == credits@);
    }
    ledger.windows = UserBudgetWindows {
        daily_used_usd: clear_window(daily, command.daily).0,
        daily_start: daily.1,
        daily_end: daily.2,
        weekly_used_usd: clear_window(weekly, command.weekly).0,
        weekly_start: weekly.1,
        weekly_end: weekly.2,
        monthly_used_usd: clear_window(monthly, command.monthly).0,
        monthly_start: monthly.1,
        monthly_end: monthly.2,
    };
    *credits = kept;
    Ok(())
}

/// A credit granted under plan `plan` and subscription `sub` for the window `w`
/// of kind `kind`.
pub open spec fn credit_matches(
    c: UserBudgetCreditRecord,
    plan: Seq<char>,
    sub: Option<Seq<char>>,
    kind: BudgetWindowKind,
    w: WindowModel,
) -> bool {
    &&& c.plan_id@ == plan
    &&& opt_text(c.subscription_id) == sub
    &&& c.window == kind
    &&& c.window_start == w.start
    &&& c.window_end == w.end
}

/// The credits granted for one window under one plan and subscription.
pub open spec fn credit_total(
    cs: Seq<UserBudgetCreditRecord>,
    plan: Seq<char>,
    sub: Option<Seq<char>>,
    kind: BudgetWindowKind,
    w: WindowModel,
) -> nat
    decreases cs.len(),
{
    if cs.len() == 0 {
        0
    } else {
        credit_total(cs.drop_last(), plan, sub, kind, w) + if credit_matches(cs.last(), plan, sub, kind, w) {
            cs.last().amount@
        } else {
            0
        }
    }
}

proof fn lemma_credit_total_prefix(
    cs: Seq<UserBudgetCreditRecord>,
    i: int,
    plan: Seq<char>,
    sub: Option<Seq<char>>,
    kind: BudgetWindowKind,
    w: WindowModel,
)
    requires
        0 <= i <= cs.len(),
    ensures
        credit_total(cs.take(i), plan, sub, kind, w) <= credit_total(cs, plan, sub, kind, w),
    decreases cs.len() - i,
{
    if i < cs.len() {
        lemma_credit_total_prefix(cs, i + 1, plan, sub, kind, w);
        assert(cs.take(i + 1).drop_last() == cs.take(i));
    } else {
        assert(cs.take(i) == cs);
    }
}

/// The limit in force of a window: none when the plan leaves it unlimited, else
/// the plan limit plus the credits granted for it; `None` when that leaves the
/// amount range.
pub open spec fn limit_in_force(limit: Option<Decimal>, credit: nat) -> Option<Option<nat>> {
    match limit {
        None => Some(None),
        Some(l) => if credit <= MAX_SCALED_DECIMAL && l@ + credit <= MAX_SCALED_DECIMAL {
            Some(Some(l@ + credit))
        } else {
            None
        },
    }
}

pub open spec fn window_spent(limit: Option<nat>, w: WindowModel) -> bool {
    limit matches Some(l) && w.used >= l
}

/// The admission of an account's request at `now`, its windows already moved to
/// `now` (`m`): the plan must be in force, the account must exist and be enabled,
/// each limit in force must be representable, and no limited window may be spent
/// (the longest spent window is named).
pub open spec fn user_admission(
    policy: ClientBillingPolicy,
    user_enabled: Option<bool>,
    m: UserLedgerModel,
    credits: Seq<UserBudgetCreditRecord>,
    now: i64,
) -> Result<(), AdmissionRefusal> {
    let plan = policy.spec_plan_id();
    let sub = policy.spec_subscription_id();
    let limits = policy.spec_budget_limits();
    let d = limit_in_force(limits.daily_usd, credit_total(credits, plan, sub, BudgetWindowKind::Daily, m.daily));
    let w = limit_in_force(limits.weekly_usd, credit_total(credits, plan, sub, BudgetWindowKind::Weekly, m.weekly));
    let mo = limit_in_force(limits.monthly_usd, credit_total(credits, plan, sub, BudgetWindowKind::Monthly, m.monthly));
    if !policy.active_at(now) {
        Err(AdmissionRefusal::SubscriptionInactive)
    } else if user_enabled is None {
        Err(AdmissionRefusal::UserMissing)
    } else if user_enabled == Some(false) {
        Err(AdmissionRefusal::UserDisabled)
    } else if d is None || w is None || mo is None {
        Err(AdmissionRefusal::Unavailable)
    } else if window_spent(mo->0, m.monthly) {
        Err(
            AdmissionRefusal::Exhausted(
                BudgetExhausted {
                    period: BudgetPeriod::UserMonthly,
                    retry_after_micros: retry_after(m.monthly.end as i64, now),
                },
            ),
        )
    } else if window_spent(w->0, m.weekly) {
        Err(
            AdmissionRefusal::Exhausted(
                BudgetExhausted {
                    period: BudgetPeriod::UserWeekly,
                    retry_after_micros: retry_after(m.weekly.end as i64, now),
                },
            ),
        )
    } else if window_spent(d->0, m.daily) {
        Err(
            AdmissionRefusal::Exhausted(
                BudgetExhausted {
                    period: BudgetPeriod::UserDaily,
                    retry_after_micros: retry_after(m.daily.end as i64, now),
                },
            ),
        )
    } else {
        Ok(())
    }
}

fn window_credit_total(
    credits: &Vec<UserBudgetCreditRecord>,
    plan: &str,
    sub: Option<&str>,
    kind: BudgetWindowKind,
    start: i64,
    end: i64,
) -> (r: Option<Decimal>)
    ensures
        ({
            let s = match sub {
                Some(x) => Some(x@),
                None => None,
            };
            let t = credit_total(credits@, plan@, s, kind, WindowModel { used: 0, start: start as int, end: end as int });
            match r {
                Some(d) => d@ == t && t <= MAX_SCALED_DECIMAL,
                None => t > MAX_SCALED_DECIMAL,
            }
        }),
{
    let ghost s = match sub {
        Some(x) => Some(x@),
        None => None,
    };
    let ghost w = WindowModel { used: 0, start: start as int, end: end as int };
    let mut total = Decimal::zero();
    let mut i: usize = 0;
    while i < credits.len()
        invariant
            i <= credits.len(),
            s == match sub {
                Some(x) => Some(x@),
                None => None,
            },
            w == (WindowModel { used: 0, start: start as int, end: end as int }),
            total@ == credit_total(credits@.take(i as int), plan@, s, kind, w),
            total@ <= MAX_SCALED_DECIMAL,
        decreases credits.len() - i,
    {
        let c = &credits[i];
        let same_sub = match &c.subscription_id {
            Some(a) => match sub {
                Some(b) => str_eq(a.as_str(), b),
                None => false,
            },
            None => sub.is_none(),
        };
        let matches = str_eq(c.plan_id.as_str(), plan) && same_sub && c.window == kind
            && c.window_start == start && c.window_end == end;
        proof {
            assert(credits@.take(i + 1).drop_last() == credits@.take(i as int));
            assert(credits@.take(i + 1).last() == credits@[i as int]);
            assert(matches == credit_matches(credits@[i as int], plan@, s, kind, w));
        }
        if matches {
            total = match total.checked_add(c.amount) {
                Some(t) => t,
                None => {
                    proof {
                        lemma_credit_total_prefix(credits@, i + 1, plan@, s, kind, w);
                    }
                    return None;
                },
            };
        }
        i = i + 1;
    }
    assert(credits@.take(credits.len() as int) == credits@);
    Some(total)
}

fn window_limit(
    limit: Option<Decimal>,
    credits: &Vec<UserBudgetCreditRecord>,
    policy: &ClientBillingPolicy,
    kind: BudgetWindowKind,
    start: i64,
    end: i64,
) -> (r: Option<Option<Decimal>>)
    ensures
        ({
            let t = credit_total(
                credits@,
                policy.spec_plan_id(),
                policy.spec_subscription_id(),
                kind,
                WindowModel { used: 0, start: start as int, end: end as int },
            );
            match limit_in_force(limit, t) {
                Some(Some(v)) => r matches Some(Some(d)) && d@ == v,
                Some(None) => r == Some(None::<Decimal>),
                None => r is None,
            }
        }),
{
    let l = match limit {
        None => {
            return Some(None);
        },
        Some(l) => l,
    };
    let sub = match policy.subscription_id() {
        Some(id) => Some(id.as_str()),
        None => None,
    };
    let total = window_credit_total(credits, policy.plan_id().as_str(), sub, kind, start, end)?;
    match l.checked_add(total) {
        Some(d) => Some(Some(d)),
        None => None,
    }
}

proof fn lemma_credit_total_ignores_usage(
    cs: Seq<UserBudgetCreditRecord>,
    plan: Seq<char>,
    sub: Option<Seq<char>>,
    kind: BudgetWindowKind,
    w: WindowModel,
)
    ensures
        credit_total(cs, plan, sub, kind, w) == credit_total(
            cs,
            plan,
            sub,
            kind,
            WindowModel { used: 0, start: w.start, end: w.end },
        ),
    decreases cs.len(),
{
    if cs.len() > 0 {
        lemma_credit_total_ignores_usage(cs.drop_last(), plan, sub, kind, w);
    }
}

/// Admits a new request of an account at `now` (`bounds` are the calendar
/// windows of `now`): the account's windows move to `now`, and the limit in force
/// of each window counts the credits granted for that window under the request's
/// plan and subscription. The moved windows are kept only when the request is
/// admitted.
pub fn admit_user_request(
    ledger: &mut UserChargeLedger,
    credits: &Vec<UserBudgetCreditRecord>,
    policy: &ClientBillingPolicy,
    user_enabled: Option<bool>,
    now: i64,
    bounds: UserWindowBounds,
) -> (r: Result<(), AdmissionRefusal>)
    requires
        bounds.day_start <= i64::MAX - DAY_MICROS,
        bounds.week_start <= i64::MAX - WEEK_MICROS,
    ensures
        r == user_admission(*policy, user_enabled, rolled_user_windows(old(ledger)@, now as int, bounds), credits@, now),
        r is Ok ==> final(ledger)@ == rolled_user_windows(old(ledger)@, now as int, bounds),
        r is Err ==> final(ledger)@ == old(ledger)@,
{
    if !policy.is_active_at(now) {
        return Err(AdmissionRefusal::SubscriptionInactive);
    }
    match user_enabled {
        None => {
            return Err(AdmissionRefusal::UserMissing);
        },
        Some(false) => {
            return Err(AdmissionRefusal::UserDisabled);
        },
        Some(true) => {},
    }
    let w = ledger.windows;
    let daily = roll_window(w.daily_used_usd, w.daily_start, w.daily_end, now, bounds.day_start, bounds.day_start + DAY_MICROS);
    let weekly = roll_window(w.weekly_used_usd, w.weekly_start, w.weekly_end, now, bounds.week_start, bounds.week_start + WEEK_MICROS);
    let monthly = roll_window(w.monthly_used_usd, w.monthly_start, w.monthly_end, now, bounds.month_start, bounds.month_end);
    let ghost m = rolled_user_windows(old(ledger)@, now as int, bounds);
    proof {
        let plan = policy.spec_plan_id();
        let sub = policy.spec_subscription_id();
        lemma_credit_total_ignores_usage(credits@, plan, sub, BudgetWindowKind::Daily, m.daily);
        lemma_credit_total_ignores_usage(credits@, plan, sub, BudgetWindowKind::Weekly, m.weekly);
        lemma_credit_total_ignores_usage(credits@, plan, sub, BudgetWindowKind::Monthly, m.monthly);
    }
    let limits = policy.budget_limits();
    let d = window_limit(limits.daily_usd, credits, policy, BudgetWindowKind::Daily, daily.1, daily.2);
    let wk = window_limit(limits.weekly_usd, credits, policy, BudgetWindowKind::Weekly, weekly.1, weekly.2);
    let mo = window_limit(limits.monthly_usd, credits, policy, BudgetWindowKind::Monthly, monthly.1, monthly.2);
    let (d, wk, mo) = match (d, wk, mo) {
        (Some(d), Some(wk), Some(mo)) => (d, wk, mo),
        _ => {
            return Err(AdmissionRefusal::Unavailable);
        },
    };
    match check_user_budget(
        (d, wk, mo),
        UserWindowUsage { used: daily.0, start: daily.1, end: daily.2 },
        UserWindowUsage { used: weekly.0, start: weekly.1, end: weekly.2 },
        UserWindowUsage { used: monthly.0, start: monthly.1, end: monthly.2 },
        now,
    ) {
        Ok(()) => {},
        Err(e) => {
            return Err(AdmissionRefusal::Exhausted(e));
        },
    }
    ledger.windows = UserBudgetWindows {
        daily_used_usd: daily.0,
        daily_start: daily.1,
        daily_end: daily.2,
        weekly_used_usd: weekly.0,
        weekly_start: weekly.1,
        weekly_end: weekly.2,
        monthly_used_usd: monthly.0,
        monthly_start: monthly.1,
        monthly_end: monthly.2,
    };
    Ok(())
}

/// Whose key a budget reset may touch: for a user's own reset the user must exist
/// and be enabled, and the key must belong to that user; an administrator's reset
/// (`owner_user_id` `None`) touches only keys without an owner. `key_owner` is the
/// key's owner as stored, `None` when the key does not exist.
pub fn check_reset_scope(
    owner_user_id: Option<&str>,
    owner_enabled: Option<bool>,
    key_owner: Option<Option<&str>>,
) -> (r: Result<(), AdminError>)
    ensures
        owner_user_id is Some && owner_enabled != Some(true) ==> (r matches Err(e) && e.kind
            == AdminErrorKind::NotFound && e.message == "user not found"),
        r is Ok <==> (owner_user_id is Some ==> owner_enabled == Some(true)) && match key_owner {
            Some(o) => match (o, owner_user_id) {
                (Some(a), Some(b)) => a@ == b@,
                (None, None) => true,
                _ => false,
            },
            None => false,
        },
        r matches Err(e) ==> e.kind == AdminErrorKind::NotFound && e.message == if owner_user_id is Some
            && owner_enabled != Some(true) {
            "user not found"
        } else {
            "client API key not found"
        },
{
    if owner_user_id.is_some() && owner_enabled != Some(true) {
        return Err(AdminError::not_found("user not found"));
    }
    let in_scope = match key_owner {
        Some(Some(a)) => match owner_user_id {
            Some(b) => str_eq(a, b),
            None => false,
        },
        Some(None) => owner_user_id.is_none(),
        None => false,
    };
    if !in_scope {
        return Err(AdminError::not_found("client API key not found"));
    }
    Ok(())
}

/// The status of one window as an account's billing summary shows it: the plan
/// limit, the spend, the credits granted for the window and the limit in force.
pub open spec fn window_status_of(
    st: UserBudgetWindowStatus,
    limit: Option<Decimal>,
    w: WindowModel,
    credit: nat,
) -> bool {
    &&& st.limit == limit
    &&& st.used@ == w.used
    &&& st.credit@ == credit
    &&& st.resets_at == w.end
    &&& match limit {
        Some(l) => st.effective_limit matches Some(e) && e@ == l@ + credit,
        None => st.effective_limit is None,
    }
}

/// A window's status can be shown: its credits, and its limit plus them, stay in
/// the amount range.
pub open spec fn window_status_fits(limit: Option<Decimal>, credit: nat) -> bool {
    credit <= MAX_SCALED_DECIMAL && (limit matches Some(l) ==> l@ + credit <= MAX_SCALED_DECIMAL)
}

fn window_status(
    limit: Option<Decimal>,
    w: (Decimal, i64, i64),
    credits: &Vec<UserBudgetCreditRecord>,
    plan_id: &str,
    subscription_id: Option<&str>,
    kind: BudgetWindowKind,
) -> (r: Option<UserBudgetWindowStatus>)
    ensures
        ({
            let s = match subscription_id {
                Some(x) => Some(x@),
                None => None,
            };
            let t = credit_total(credits@, plan_id@, s, kind, window_model(w.0, w.1, w.2));
            &&& r is Some <==> window_status_fits(limit, t)
            &&& r matches Some(st) ==> window_status_of(st, limit, window_model(w.0, w.1, w.2), t)
        }),
{
    proof {
        let s = match subscription_id {
            Some(x) => Some(x@),
            None => None,
        };
        lemma_credit_total_ignores_usage(credits@, plan_id@, s, kind, window_model(w.0, w.1, w.2));
    }
    let credit = window_credit_total(credits, plan_id, subscription_id, kind, w.1, w.2)?;
    let effective_limit = match limit {
        None => None,
        Some(l) => match l.checked_add(credit) {
            Some(e) => Some(e),
            None => {
                return None;
            },
        },
    };
    Some(UserBudgetWindowStatus { limit, used: w.0, credit, effective_limit, resets_at: w.2 })
}

/// The budget an account's billing summary shows at `now` (`bounds` are the
/// calendar windows of `now`): each window as it stands at `now` (an ended window
/// shows the new one, with nothing spent), the plan's limit, and the credits
/// granted for that window under the plan and subscription in force; `Invalid`
/// when a window's credits or limit in force leave the amount range. The stored
/// windows are not changed.
pub fn user_budget_status(
    ledger: &UserChargeLedger,
    credits: &Vec<UserBudgetCreditRecord>,
    plan_id: &str,
    limits: UserBudgetLimits,
    subscription_id: Option<&str>,
    now: i64,
    bounds: UserWindowBounds,
) -> (r: Result<UserBudgetStatus, AdminError>)
    requires
        bounds.day_start <= i64::MAX - DAY_MICROS,
        bounds.week_start <= i64::MAX - WEEK_MICROS,
    ensures
        ({
            let m = rolled_user_windows(ledger@, now as int, bounds);
            let s = match subscription_id {
                Some(x) => Some(x@),
                None => None,
            };
            let td = credit_total(credits@, plan_id@, s, BudgetWindowKind::Daily, m.daily);
            let tw = credit_total(credits@, plan_id@, s, BudgetWindowKind::Weekly, m.weekly);
            let tm = credit_total(credits@, plan_id@, s, BudgetWindowKind::Monthly, m.monthly);
            &&& r is Ok <==> window_status_fits(limits.daily_usd, td) && window_status_fits(
                limits.weekly_usd,
                tw,
            ) && window_status_fits(limits.monthly_usd, tm)
            &&& r matches Ok(st) ==> window_status_of(st.daily, limits.daily_usd, m.daily, td)
                && window_status_of(st.weekly, limits.weekly_usd, m.weekly, tw)
                && window_status_of(st.monthly, limits.monthly_usd, m.monthly, tm)
            &&& r matches Err(e) ==> e.kind == AdminErrorKind::Invalid && e.message
                == "effective budget overflow"
        }),
{
    let w = ledger.windows;
    let daily = roll_window(w.daily_used_usd, w.daily_start, w.daily_end, now, bounds.day_start, bounds.day_start + DAY_MICROS);
    let weekly = roll_window(w.weekly_used_usd, w.weekly_start, w.weekly_end, now, bounds.week_start, bounds.week_start + WEEK_MICROS);
    let monthly = roll_window(w.monthly_used_usd, w.monthly_start, w.monthly_end, now, bounds.month_start, bounds.month_end);
    let d = window_status(limits.daily_usd, daily, credits, plan_id, subscription_id, BudgetWindowKind::Daily);
    let wk = window_status(limits.weekly_usd, weekly, credits, plan_id, subscription_id, BudgetWindowKind::Weekly);
    let mo = window_status(limits.monthly_usd, monthly, credits, plan_id, subscription_id, BudgetWindowKind::Monthly);
    match (d, wk, mo) {
        (Some(daily), Some(weekly), Some(monthly)) => Ok(UserBudgetStatus { daily, weekly, monthly }),
        _ => Err(AdminError::invalid("effective budget overflow")),
    }
}

} // verus!
