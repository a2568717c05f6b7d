//! The rules the admission store applies atomically to each request. Per key,
//! and per account when the request is admitted for one, it keeps two sets of
//! request ids with a score each: the leases of running requests, scored by the
//! instant they expire, and the requests started in the last minute, scored by
//! the instant they started. Instants are milliseconds since the epoch.

use vstd::prelude::*;

use crate::admission::{
    AdmitScriptArgs, ClientAdmissionRecentRequest, ClientAdmissionRestore,
    ClientAdmissionRestoreResult, ClientAdmissionRunningRequest,
};
use crate::recovery::lemma_filter_push;
use crate::text::str_eq;

verus! {

/// One minute, in milliseconds: how long a started request counts against the rate.
pub const RATE_WINDOW_MILLIS: i64 = 60_000;

/// A set of request ids, each with a score, as the store keeps it.
pub open spec fn scored_view(v: Seq<(String, i64)>) -> Seq<(Seq<char>, i64)> {
    v.map_values(|e: (String, i64)| (e.0@, e.1))
}

/// The entries scored above `bound`: what is left once every entry scored at or
/// below it has been removed.
pub open spec fn above(s: Seq<(Seq<char>, i64)>, bound: int) -> Seq<(Seq<char>, i64)> {
    s.filter(|e: (Seq<char>, i64)| e.1 > bound)
}

/// Where `id` stands in the set (its last place, should it occur more than once).
pub open spec fn member_index(s: Seq<(Seq<char>, i64)>, id: Seq<char>) -> Option<int>
    decreases s.len(),
{
    if s.len() == 0 {
        None
    } else if s.last().0 == id {
        Some(s.len() - 1)
    } else {
        member_index(s.drop_last(), id)
    }
}

/// The set after adding `id` with `score`: a member already present gets the new
/// score, a new one is added.
pub open spec fn scored_add(s: Seq<(Seq<char>, i64)>, id: Seq<char>, score: i64) -> Seq<(Seq<char>, i64)> {
    match member_index(s, id) {
        Some(i) => s.update(i, (id, score)),
        None => s.push((id, score)),
    }
}

/// The admission state of one key or account: the leases of its running requests
/// and its requests of the last minute.
#[derive(Debug, Clone)]
pub struct AdmissionBuckets {
    pub active: Vec<(String, i64)>,
    pub requests: Vec<(String, i64)>,
}

pub struct BucketsModel {
    pub active: Seq<(Seq<char>, i64)>,
    pub requests: Seq<(Seq<char>, i64)>,
}

impl View for AdmissionBuckets {
    type V = BucketsModel;

    open spec fn view(&self) -> BucketsModel {
        BucketsModel { active: scored_view(self.active@), requests: scored_view(self.requests@) }
    }
}

/// The state at `now` once expired leases and requests older than a minute are gone.
pub open spec fn pruned(b: BucketsModel, now: int) -> BucketsModel {
    BucketsModel { active: above(b.active, now), requests: above(b.requests, now - RATE_WINDOW_MILLIS) }
}

/// The state once request `id`, started at `now`, holds a lease until `expires_at`.
pub open spec fn with_request(b: BucketsModel, id: Seq<char>, now: i64, expires_at: i64) -> BucketsModel {
    BucketsModel { active: scored_add(b.active, id, expires_at), requests: scored_add(b.requests, id, now) }
}

/// What the admission rules answer for request `id` at `now`, and the key's and
/// account's states afterwards: 3 when the lease would end beyond the exact
/// range (nothing changes); otherwise expired entries are dropped, then 1 when the
/// key's or the account's limited rate is reached, 2 when no lease may be taken or
/// the key's or the account's limited concurrency is reached, and else 0 with the
/// request counted and holding a lease in both. A limit of zero is no limit.
pub open spec fn admission_outcome(
    key: BucketsModel,
    user: BucketsModel,
    args: AdmitScriptArgs,
    id: Seq<char>,
    now: i64,
) -> (i64, BucketsModel, BucketsModel) {
    let has_user = args.has_user == 1;
    let expires_at = now + args.lease_ttl_millis;
    if expires_at > args.max_exact_integer {
        (3, key, user)
    } else {
        let k = pruned(key, now as int);
        let u = if has_user {
            pruned(user, now as int)
        } else {
            user
        };
        if args.requests_per_minute > 0 && k.requests.len() >= args.requests_per_minute {
            (1, k, u)
        } else if has_user && args.user_requests_per_minute > 0 && u.requests.len()
            >= args.user_requests_per_minute {
            (1, k, u)
        } else if args.allow_concurrency_acquire == 0 {
            (2, k, u)
        } else if args.max_concurrency > 0 && k.active.len() >= args.max_concurrency {
            (2, k, u)
        } else if has_user && args.user_max_concurrency > 0 && u.active.len()
            >= args.user_max_concurrency {
            (2, k, u)
        } else {
            (
                0,
                with_request(k, id, now, expires_at as i64),
                if has_user {
                    with_request(u, id, now, expires_at as i64)
                } else {
                    u
                },
            )
        }
    }
}

fn prune_scored(v: &mut Vec<(String, i64)>, bound: i64)
    ensures
        scored_view(final(v)@) == above(scored_view(old(v)@), bound as int),
{
    let ghost initial = scored_view(v@);
    let mut kept: Vec<(String, i64)> = Vec::new();
    let mut i: usize = 0;
    while i < v.len()
        invariant
            i <= v.len(),
            initial == scored_view(v@),
            scored_view(kept@) == above(initial.take(i as int), bound as int),
        decreases v.len() - i,
    {
        proof {
            assert(initial.take(i + 1) == initial.take(i as int).push(initial[i as int]));
            lemma_filter_push(
                initial.take(i as int),
                initial[i as int],
                |e: (Seq<char>, i64)| e.1 > bound as int,
            );
        }
        if v[i].1 > bound {
            let entry = (v[i].0.clone(), v[i].1);
            kept.push(entry);
            proof {
                assert(scored_view(kept@) =~= scored_view(kept@.drop_last()).push(initial[i as int]));
            }
        }
        i = i + 1;
    }
    proof {
        assert(initial.take(v.len() as int) == initial);
    }
    *v = kept;
}

proof fn lemma_member_index(s: Seq<(Seq<char>, i64)>, id: Seq<char>)
    ensures
        member_index(s, id) matches Some(i) ==> 0 <= i < s.len() && s[i].0 == id,
    decreases s.len(),
{
    if s.len() > 0 && s.last().0 != id {
        lemma_member_index(s.drop_last(), id);
    }
}

fn find_member(v: &Vec<(String, i64)>, id: &str) -> (r: Option<usize>)
    ensures
        r matches Some(i) ==> member_index(scored_view(v@), id@) == Some(i as int),
        r is None ==> member_index(scored_view(v@), id@) is None,
{
    let ghost s = scored_view(v@);
    let mut i: usize = v.len();
    assert(s.take(i as int) =~= s);
    while i > 0
        invariant
            i <= v.len(),
            s == scored_view(v@),
            member_index(s, id@) == member_index(s.take(i as int), id@),
        decreases i,
    {
        let ghost t = s.take(i as int);
        assert(t.last() == s[i - 1]);
        assert(t.drop_last() =~= s.take(i - 1));
        if str_eq(v[i - 1].0.as_str(), id) {
            return Some(i - 1);
        }
        i = i - 1;
    }
    assert(s.take(0) =~= Seq::<(Seq<char>, i64)>::empty());
    None
}

fn add_scored(v: &mut Vec<(String, i64)>, id: &str, score: i64)
    ensures
        scored_view(final(v)@) == scored_add(scored_view(old(v)@), id@, score),
{
    match find_member(v, id) {
        Some(i) => {
            proof {
                lemma_member_index(scored_view(v@), id@);
            }
            v.set(i, (id.to_owned(), score));
            proof {
                assert(scored_view(v@) =~= scored_add(scored_view(old(v)@), id@, score));
            }
        },
        None => {
            v.push((id.to_owned(), score));
            proof {
                assert(scored_view(v@) =~= scored_add(scored_view(old(v)@), id@, score));
            }
        },
    }
}

fn prune_buckets(b: &mut AdmissionBuckets, now: i64)
    requires
        now >= i64::MIN + RATE_WINDOW_MILLIS,
    ensures
        final(b)@ == pruned(old(b)@, now as int),
{
    prune_scored(&mut b.active, now);
    prune_scored(&mut b.requests, now - RATE_WINDOW_MILLIS);
}

fn add_request(b: &mut AdmissionBuckets, id: &str, now: i64, expires_at: i64)
    ensures
        final(b)@ == with_request(old(b)@, id@, now, expires_at),
{
    add_scored(&mut b.active, id, expires_at);
    add_scored(&mut b.requests, id, now);
}

/// Applies the admission rules to request `id` at `now` and gives their answer.
pub fn admit_in_buckets(
    key: &mut AdmissionBuckets,
    user: &mut AdmissionBuckets,
    args: &AdmitScriptArgs,
    id: &str,
    now: i64,
) -> (r: i64)
    requires
        now >= i64::MIN + RATE_WINDOW_MILLIS,
        args.max_exact_integer <= i64::MAX,
    ensures
        ({
            let (code, k, u) = admission_outcome(old(key)@, old(user)@, *args, id@, now);
            r == code && final(key)@ == k && final(user)@ == u
        }),
{
    let has_user = args.has_user == 1;
    let expires_at = (now as i128) + (args.lease_ttl_millis as i128);
    if expires_at > args.max_exact_integer as i128 {
        return 3;
    }
    let expires_at = expires_at as i64;
    prune_buckets(key, now);
    if has_user {
        prune_buckets(user, now);
    }
    if args.requests_per_minute > 0 && key.requests.len() as u64 >= args.requests_per_minute {
        return 1;
    }
    if has_user && args.user_requests_per_minute > 0 && user.requests.len() as u64
        >= args.user_requests_per_minute {
        return 1;
    }
    if args.allow_concurrency_acquire == 0 {
        return 2;
    }
    if args.max_concurrency > 0 && key.active.len() as u64 >= args.max_concurrency {
        return 2;
    }
    if has_user && args.user_max_concurrency > 0 && user.active.len() as u64
        >= args.user_max_concurrency {
        return 2;
    }
    add_request(key, id, now, expires_at);
    if has_user {
        add_request(user, id, now, expires_at);
    }
    0
}

/// Releases the lease of request `id` for the key, and for the account when the
/// request was admitted for one (`has_user`); `true` when the key held that lease.
/// Only leases go; the requests counted against the rate stay.
pub fn release_in_buckets(key: &mut AdmissionBuckets, user: &mut AdmissionBuckets, has_user: bool, id: &str) -> (r:
    bool)
    ensures
        r == (member_index(old(key)@.active, id@) is Some),
        final(key)@.active == old(key)@.active.filter(|e: (Seq<char>, i64)| e.0 != id@),
        final(key)@.requests == old(key)@.requests,
        has_user ==> final(user)@.active == old(user)@.active.filter(|e: (Seq<char>, i64)| e.0 != id@),
        has_user ==> final(user)@.requests == old(user)@.requests,
        !has_user ==> final(user)@ == old(user)@,
{
    let removed = remove_member(&mut key.active, id);
    if has_user {
        remove_member(&mut user.active, id);
    }
    removed
}

proof fn lemma_member_index_none(s: Seq<(Seq<char>, i64)>, id: Seq<char>)
    ensures
        member_index(s, id) is None <==> forall|k: int| 0 <= k < s.len() ==> s[k].0 != id,
    decreases s.len(),
{
    if s.len() > 0 {
        lemma_member_index_none(s.drop_last(), id);
        assert forall|k: int| 0 <= k < s.drop_last().len() implies s.drop_last()[k] == s[k] by {}
    }
}

fn remove_member(v: &mut Vec<(String, i64)>, id: &str) -> (r: bool)
    ensures
        r == (member_index(scored_view(old(v)@), id@) is Some),
        scored_view(final(v)@) == scored_view(old(v)@).filter(|e: (Seq<char>, i64)| e.0 != id@),
{
    let ghost initial = scored_view(v@);
    let mut kept: Vec<(String, i64)> = Vec::new();
    let mut found = false;
    let mut i: usize = 0;
    while i < v.len()
        invariant
            i <= v.len(),
            initial == scored_view(v@),
            scored_view(kept@) == initial.take(i as int).filter(|e: (Seq<char>, i64)| e.0 != id@),
            found == exists|k: int| 0 <= k < i && #[trigger] initial[k].0 == id@,
        decreases v.len() - i,
    {
        proof {
            assert(initial.take(i + 1) == initial.take(i as int).push(initial[i as int]));
            lemma_filter_push(initial.take(i as int), initial[i as int], |e: (Seq<char>, i64)| e.0 != id@);
        }
        if str_eq(v[i].0.as_str(), id) {
            found = true;
        } else {
            let entry = (v[i].0.clone(), v[i].1);
            kept.push(entry);
            proof {
                assert(scored_view(kept@) =~= scored_view(kept@.drop_last()).push(initial[i as int]));
            }
        }
        i = i + 1;
    }
    proof {
        assert(initial.take(v.len() as int) == initial);
        lemma_member_index_none(initial, id@);
    }
    *v = kept;
    found
}

proof fn lemma_scored_add_len(s: Seq<(Seq<char>, i64)>, id: Seq<char>, score: i64)
    ensures
        scored_add(s, id, score).len() <= s.len() + 1,
        scored_add(s, id, score).contains((id, score)),
{
    lemma_member_index(s, id);
    match member_index(s, id) {
        Some(i) => {
            assert(s.update(i, (id, score))[i] == (id, score));
        },
        None => {
            assert(s.push((id, score))[s.len() as int] == (id, score));
        },
    }
}

/// A granted request is counted and holds a lease, and the key's and the
/// account's limited rate and concurrency are not exceeded by it.
pub proof fn lemma_grant_respects_limits(
    key: BucketsModel,
    user: BucketsModel,
    args: AdmitScriptArgs,
    id: Seq<char>,
    now: i64,
)
    requires
        admission_outcome(key, user, args, id, now).0 == 0,
    ensures
        ({
            let (_, k, u) = admission_outcome(key, user, args, id, now);
            &&& k.requests.contains((id, now))
            &&& k.active.contains((id, (now + args.lease_ttl_millis) as i64))
            &&& args.requests_per_minute > 0 ==> k.requests.len() <= args.requests_per_minute
            &&& args.max_concurrency > 0 ==> k.active.len() <= args.max_concurrency
            &&& args.has_user == 1 && args.user_requests_per_minute > 0 ==> u.requests.len()
                <= args.user_requests_per_minute
            &&& args.has_user == 1 && args.user_max_concurrency > 0 ==> u.active.len()
                <= args.user_max_concurrency
        }),
{
    let expires_at = (now + args.lease_ttl_millis) as i64;
    let k = pruned(key, now as int);
    let u = pruned(user, now as int);
    lemma_scored_add_len(k.requests, id, now);
    lemma_scored_add_len(k.active, id, expires_at);
    lemma_scored_add_len(u.requests, id, now);
    lemma_scored_add_len(u.active, id, expires_at);
}

/// A refused request leaves nothing behind: the states are only cleared of
/// expired entries.
pub proof fn lemma_refusal_only_prunes(
    key: BucketsModel,
    user: BucketsModel,
    args: AdmitScriptArgs,
    id: Seq<char>,
    now: i64,
)
    requires
        admission_outcome(key, user, args, id, now).0 == 1 || admission_outcome(key, user, args, id, now).0 == 2,
    ensures
        ({
            let (_, k, u) = admission_outcome(key, user, args, id, now);
            &&& k == pruned(key, now as int)
            &&& u == if args.has_user == 1 {
                pruned(user, now as int)
            } else {
                user
            }
        }),
{
}

pub open spec fn recent_entries(v: Seq<ClientAdmissionRecentRequest>) -> Seq<(Seq<char>, i64)> {
    v.map_values(|r: ClientAdmissionRecentRequest| (r.model_request_id@, r.started_at_millis))
}

pub open spec fn running_entries(v: Seq<ClientAdmissionRunningRequest>) -> Seq<(Seq<char>, i64)> {
    v.map_values(|r: ClientAdmissionRunningRequest| (r.model_request_id@, r.expires_at_millis))
}

/// The set after restoring `entries` in order: each entry scored above `bound`
/// whose id is not yet a member is added; the count of added entries.
pub open spec fn restored(
    s: Seq<(Seq<char>, i64)>,
    entries: Seq<(Seq<char>, i64)>,
    bound: int,
) -> (Seq<(Seq<char>, i64)>, nat)
    decreases entries.len(),
{
    if entries.len() == 0 {
        (s, 0)
    } else {
        let (t, n) = restored(s, entries.drop_last(), bound);
        let e = entries.last();
        if e.1 > bound && member_index(t, e.0) is None {
            (t.push(e), n + 1)
        } else {
            (t, n)
        }
    }
}

/// Some entry starts after `now`.
pub open spec fn starts_after(entries: Seq<(Seq<char>, i64)>, now: int) -> bool {
    exists|i: int| 0 <= i < entries.len() && #[trigger] entries[i].1 > now
}

/// What restoring a key's (and its account's) admission state at `now` answers,
/// with the states afterwards: refused (-1, nothing changes) when a recent request
/// starts after `now`; otherwise expired entries are dropped, then the recent
/// requests of the last minute and the unexpired leases are added where their id is
/// new, and the key's added recent requests and leases are counted.
pub open spec fn restore_outcome(
    key: BucketsModel,
    user: BucketsModel,
    r: ClientAdmissionRestore,
    now: i64,
) -> (i64, nat, nat, BucketsModel, BucketsModel) {
    let recent = recent_entries(r.recent_requests@);
    let running = running_entries(r.running_requests@);
    if starts_after(recent, now as int) || (r.user matches Some(u) && starts_after(
        recent_entries(u.recent_requests@),
        now as int,
    )) {
        (-1i64, 0, 0, key, user)
    } else {
        let k = pruned(key, now as int);
        let (kr, nr) = restored(k.requests, recent, now - RATE_WINDOW_MILLIS);
        let (ka, na) = restored(k.active, running, now as int);
        let u2 = match r.user {
            Some(u) => {
                let p = pruned(user, now as int);
                BucketsModel {
                    active: restored(p.active, running_entries(u.running_requests@), now as int).0,
                    requests: restored(
                        p.requests,
                        recent_entries(u.recent_requests@),
                        now - RATE_WINDOW_MILLIS,
                    ).0,
                }
            },
            None => user,
        };
        (0i64, nr, na, BucketsModel { active: ka, requests: kr }, u2)
    }
}

fn restore_scored(v: &mut Vec<(String, i64)>, entries: &Vec<(String, i64)>, bound: i64) -> (r: u64)
    requires
        entries.len() <= u64::MAX,
    ensures
        (scored_view(final(v)@), r as nat) == restored(scored_view(old(v)@), scored_view(entries@), bound as int),
{
    let ghost s0 = scored_view(v@);
    let ghost es = scored_view(entries@);
    let mut count: u64 = 0;
    let mut i: usize = 0;
    while i < entries.len()
        invariant
            i <= entries.len(),
            entries.len() <= u64::MAX,
            es == scored_view(entries@),
            count <= i,
            (scored_view(v@), count as nat) == restored(s0, es.take(i as int), bound as int),
        decreases entries.len() - i,
    {
        proof {
            assert(es.take(i + 1).drop_last() =~= es.take(i as int));
            assert(es.take(i + 1).last() == es[i as int]);
        }
        if entries[i].1 > bound {
            match find_member(v, entries[i].0.as_str()) {
                Some(_) => {},
                None => {
                    let entry = (entries[i].0.clone(), entries[i].1);
                    v.push(entry);
                    proof {
                        assert(scored_view(v@) =~= scored_view(v@.drop_last()).push(es[i as int]));
                    }
                    count = count + 1;
                },
            }
        }
        i = i + 1;
    }
    proof {
        assert(es.take(entries.len() as int) =~= es);
    }
    count
}

fn recent_list(v: &Vec<ClientAdmissionRecentRequest>) -> (r: Vec<(String, i64)>)
    ensures
        scored_view(r@) == recent_entries(v@),
{
    let mut out: Vec<(String, i64)> = Vec::new();
    let mut i: usize = 0;
    while i < v.len()
        invariant
            i <= v.len(),
            scored_view(out@) == recent_entries(v@.take(i as int)),
        decreases v.len() - i,
    {
        let ghost before = out@;
        let id = v[i].model_request_id.clone();
        let entry = (id, v[i].started_at_millis);
        out.push(entry);
        proof {
            assert(out@ =~= before.push(entry));
            assert(scored_view(out@) =~= scored_view(before).push((v@[i as int].model_request_id@, v@[i as int].started_at_millis)));
            assert(v@.take(i + 1) == v@.take(i as int).push(v@[i as int]));
            assert(recent_entries(v@.take(i + 1)) =~= recent_entries(v@.take(i as int)).push((v@[i as int].model_request_id@, v@[i as int].started_at_millis)));
        }
        i = i + 1;
    }
    assert(v@.take(v.len() as int) == v@);
    out
}

fn running_list(v: &Vec<ClientAdmissionRunningRequest>) -> (r: Vec<(String, i64)>)
    ensures
        scored_view(r@) == running_entries(v@),
{
    let mut out: Vec<(String, i64)> = Vec::new();
    let mut i: usize = 0;
    while i < v.len()
        invariant
            i <= v.len(),
            scored_view(out@) == running_entries(v@.take(i as int)),
        decreases v.len() - i,
    {
        let ghost before = out@;
        let id = v[i].model_request_id.clone();
        let entry = (id, v[i].expires_at_millis);
        out.push(entry);
        proof {
            assert(out@ =~= before.push(entry));
            assert(scored_view(out@) =~= scored_view(before).push((v@[i as int].model_request_id@, v@[i as int].expires_at_millis)));
            assert(v@.take(i + 1) == v@.take(i as int).push(v@[i as int]));
            assert(running_entries(v@.take(i + 1)) =~= running_entries(v@.take(i as int)).push((v@[i as int].model_request_id@, v@[i as int].expires_at_millis)));
        }
        i = i + 1;
    }
    assert(v@.take(v.len() as int) == v@);
    out
}

fn any_starts_after(v: &Vec<ClientAdmissionRecentRequest>, now: i64) -> (r: bool)
    ensures
        r == starts_after(recent_entries(v@), now as int),
{
    let mut i: usize = 0;
    while i < v.len()
        invariant
            i <= v.len(),
            forall|k: int| 0 <= k < i ==> !(#[trigger] recent_entries(v@)[k].1 > now),
        decreases v.len() - i,
    {
        if v[i].started_at_millis > now {
            assert(recent_entries(v@)[i as int].1 > now);
            return true;
        }
        i = i + 1;
    }
    false
}

/// Restores the admission state of a key, and of its account when given, at `now`
/// and gives the answer with the counts of the key's restored recent requests and
/// leases (`None` for a refusal).
pub fn restore_in_buckets(
    key: &mut AdmissionBuckets,
    user: &mut AdmissionBuckets,
    restore: &ClientAdmissionRestore,
    now: i64,
) -> (r: Option<ClientAdmissionRestoreResult>)
    requires
        now >= i64::MIN + RATE_WINDOW_MILLIS,
    ensures
        ({
            let (code, nr, na, k, u) = restore_outcome(old(key)@, old(user)@, *restore, now);
            &&& code == -1 ==> r is None
            &&& code == 0 ==> (r matches Some(x) && x.restored_recent_requests == nr
                && x.restored_running_requests == na)
            &&& final(key)@ == k
            &&& final(user)@ == u
        }),
{
    if any_starts_after(&restore.recent_requests, now) {
        return None;
    }
    if let Some(u) = &restore.user {
        if any_starts_after(&u.recent_requests, now) {
            return None;
        }
    }
    prune_buckets(key, now);
    let recent = recent_list(&restore.recent_requests);
    let running = running_list(&restore.running_requests);
    let restored_recent = restore_scored(&mut key.requests, &recent, now - RATE_WINDOW_MILLIS);
    let restored_running = restore_scored(&mut key.active, &running, now);
    if let Some(u) = &restore.user {
        prune_buckets(user, now);
        let user_recent = recent_list(&u.recent_requests);
        let user_running = running_list(&u.running_requests);
        restore_scored(&mut user.requests, &user_recent, now - RATE_WINDOW_MILLIS);
        restore_scored(&mut user.active, &user_running, now);
    }
    Some(
        ClientAdmissionRestoreResult {
            restored_recent_requests: restored_recent,
            restored_running_requests: restored_running,
        },
    )
}

} // verus!
