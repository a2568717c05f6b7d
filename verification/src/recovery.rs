//! Rebuilding the admission state of every key from the request log after the
//! admission store lost it: requests started since the window began count
//! against the rate limit, running requests hold their leases, and each
//! request also counts for the account it was admitted for.
//!
//! Instants are microseconds since the epoch.

use vstd::prelude::*;

use crate::text::{chars_of, str_eq};

verus! {

/// One logged request, as the recovery query returns it. `user_id` is the
/// account the request was admitted for, when that account is still enabled.
#[derive(Debug, Clone, PartialEq, Eq)]
pub struct ClientAdmissionRecoveryRow {
    pub client_api_key_ref: String,
    pub model_request_id: String,
    pub started_at: i64,
    pub deadline_at: i64,
    pub outcome: String,
    pub user_id: Option<String>,
}

#[derive(Debug, Clone, PartialEq, Eq)]
pub struct ClientAdmissionRecentRequest {
    pub model_request_id: String,
    pub started_at: i64,
}

#[derive(Debug, Clone, PartialEq, Eq)]
pub struct ClientAdmissionRunningRequest {
    pub model_request_id: String,
    pub deadline_at: i64,
}

#[derive(Debug, Clone, PartialEq, Eq)]
pub struct ClientAdmissionUserRecovery {
    pub user_id: String,
    pub recent_requests: Vec<ClientAdmissionRecentRequest>,
    pub running_requests: Vec<ClientAdmissionRunningRequest>,
}

#[derive(Debug, Clone, PartialEq, Eq)]
pub struct ClientAdmissionRecovery {
    pub client_api_key_ref: String,
    pub recent_requests: Vec<ClientAdmissionRecentRequest>,
    pub running_requests: Vec<ClientAdmissionRunningRequest>,
    pub user: Option<ClientAdmissionUserRecovery>,
}

/// Text order, character by character (for UTF-8 text, the order of its bytes).
pub open spec fn text_lt(a: Seq<char>, b: Seq<char>) -> bool
    decreases a.len(),
{
    if b.len() == 0 {
        false
    } else if a.len() == 0 {
        true
    } else if a[0] != b[0] {
        a[0] < b[0]
    } else {
        text_lt(a.skip(1), b.skip(1))
    }
}

/// No text sorts before itself.
pub proof fn lemma_text_lt_irreflexive(a: Seq<char>)
    ensures
        !text_lt(a, a),
    decreases a.len(),
{
    if a.len() > 0 {
        lemma_text_lt_irreflexive(a.skip(1));
    }
}

/// The text order is transitive.
pub proof fn lemma_text_lt_transitive(a: Seq<char>, b: Seq<char>, c: Seq<char>)
    requires
        text_lt(a, b),
        text_lt(b, c),
    ensures
        text_lt(a, c),
    decreases a.len(),
{
    if a.len() > 0 && b.len() > 0 && c.len() > 0 {
        if a[0] == b[0] && b[0] == c[0] {
            lemma_text_lt_transitive(a.skip(1), b.skip(1), c.skip(1));
        }
    }
}

/// Distinct texts are ordered one way or the other.
pub proof fn lemma_text_lt_total(a: Seq<char>, b: Seq<char>)
    requires
        a != b,
    ensures
        text_lt(a, b) || text_lt(b, a),
    decreases a.len(),
{
    if a.len() > 0 && b.len() > 0 && a[0] == b[0] {
        if a.skip(1) == b.skip(1) {
            assert(a == seq![a[0]] + a.skip(1));
            assert(b == seq![b[0]] + b.skip(1));
        }
        lemma_text_lt_total(a.skip(1), b.skip(1));
    } else if a.len() == 0 && b.len() == 0 {
        assert(a == b);
    }
}

/// Whether `a` sorts before `b`, character by character.
pub fn text_less(a: &str, b: &str) -> (r: bool)
    ensures
        r == text_lt(a@, b@),
{
    let x = chars_of(a);
    let y = chars_of(b);
    let mut i: usize = 0;
    assert(a@.skip(0) == a@ && b@.skip(0) == b@);
    while i < x.len() && i < y.len() && x[i] == y[i]
        invariant
            i <= x.len(),
            i <= y.len(),
            x@ == a@,
            y@ == b@,
            text_lt(a@, b@) == text_lt(a@.skip(i as int), b@.skip(i as int)),
        decreases x.len() - i,
    {
        proof {
            assert(a@.skip(i as int)[0] == a@[i as int]);
            assert(b@.skip(i as int)[0] == b@[i as int]);
            assert(a@.skip(i as int).skip(1) == a@.skip(i + 1));
            assert(b@.skip(i as int).skip(1) == b@.skip(i + 1));
        }
        i = i + 1;
    }
    if i == y.len() {
        return false;
    }
    if i == x.len() {
        return true;
    }
    proof {
        assert(a@.skip(i as int)[0] == a@[i as int]);
        assert(b@.skip(i as int)[0] == b@[i as int]);
    }
    x[i] < y[i]
}

/// Filtering a sequence with one more element keeps what it kept and adds the
/// element when it passes.
pub proof fn lemma_filter_push<A>(s: Seq<A>, x: A, pred: spec_fn(A) -> bool)
    ensures
        s.push(x).filter(pred) == if pred(x) {
            s.filter(pred).push(x)
        } else {
            s.filter(pred)
        },
{
    reveal(Seq::filter);
    assert(s.push(x).drop_last() == s);
    assert(s.push(x).last() == x);
}

pub open spec fn strictly_sorted(keys: Seq<Seq<char>>) -> bool {
    forall|i: int, j: int| 0 <= i < j < keys.len() ==> text_lt(#[trigger] keys[i], #[trigger] keys[j])
}

pub open spec fn texts(v: Seq<String>) -> Seq<Seq<char>> {
    v.map_values(|s: String| s@)
}

pub open spec fn row_key(r: ClientAdmissionRecoveryRow) -> Seq<char> {
    r.client_api_key_ref@
}

/// Inserting a text at its place keeps a strictly sorted list sorted.
pub proof fn lemma_insert_sorted(s: Seq<Seq<char>>, j: int, k: Seq<char>)
    requires
        strictly_sorted(s),
        0 <= j <= s.len(),
        forall|a: int| 0 <= a < j ==> text_lt(#[trigger] s[a], k),
        forall|b: int| j <= b < s.len() ==> text_lt(k, #[trigger] s[b]),
    ensures
        strictly_sorted(s.insert(j, k)),
{
    let t = s.insert(j, k);
    assert forall|a: int, b: int| 0 <= a < b < t.len() implies text_lt(#[trigger] t[a], #[trigger] t[b]) by {
        if b < j {
            assert(t[a] == s[a] && t[b] == s[b]);
        } else if b == j {
            assert(t[a] == s[a] && t[b] == k);
        } else if a < j {
            assert(t[a] == s[a] && t[b] == s[b - 1]);
            assert(text_lt(s[a], k));
            assert(text_lt(k, s[b - 1]));
            lemma_text_lt_transitive(s[a], k, s[b - 1]);
        } else if a == j {
            assert(t[a] == k && t[b] == s[b - 1]);
        } else {
            assert(t[a] == s[a - 1] && t[b] == s[b - 1]);
        }
    }
}

/// Some logged request is for key `k`.
pub open spec fn key_logged(rows: Seq<ClientAdmissionRecoveryRow>, k: Seq<char>) -> bool {
    exists|a: int| 0 <= a < rows.len() && row_key(rows[a]) == k
}

/// The distinct keys of the logged requests, in text order.
pub fn sorted_keys(rows: &Vec<ClientAdmissionRecoveryRow>) -> (r: Vec<String>)
    ensures
        strictly_sorted(texts(r@)),
        forall|i: int| 0 <= i < rows@.len() ==> texts(r@).contains(row_key(#[trigger] rows@[i])),
        forall|j: int| 0 <= j < r@.len() ==> key_logged(rows@, #[trigger] texts(r@)[j]),
{
    let mut out: Vec<String> = Vec::new();
    let mut i: usize = 0;
    while i < rows.len()
        invariant
            i <= rows.len(),
            strictly_sorted(texts(out@)),
            forall|a: int| 0 <= a < i ==> texts(out@).contains(row_key(#[trigger] rows@[a])),
            forall|j: int| 0 <= j < out@.len() ==> key_logged(rows@, #[trigger] texts(out@)[j]),
        decreases rows.len() - i,
    {
        let key = rows[i].client_api_key_ref.as_str();
        let ghost ks = texts(out@);
        let mut j: usize = 0;
        while j < out.len() && text_less(out[j].as_str(), key)
            invariant
                j <= out.len(),
                ks == texts(out@),
                forall|a: int| 0 <= a < j ==> text_lt(#[trigger] ks[a], key@),
            decreases out.len() - j,
        {
            assert(ks[j as int] == out@[j as int]@);
            j = j + 1;
        }
        if j < out.len() && str_eq(out[j].as_str(), key) {
            assert(ks[j as int] == key@);
            assert(ks.contains(row_key(rows@[i as int])));
        } else {
            proof {
                if j < out.len() {
                    assert(ks[j as int] == out@[j as int]@);
                    assert(!text_lt(ks[j as int], key@));
                    lemma_text_lt_total(ks[j as int], key@);
                    assert(text_lt(key@, ks[j as int]));
                    assert forall|b: int| j <= b < ks.len() implies text_lt(key@, #[trigger] ks[b]) by {
                        if b > j {
                            lemma_text_lt_transitive(key@, ks[j as int], ks[b]);
                        }
                    }
                }
                lemma_insert_sorted(ks, j as int, key@);
            }
            out.insert(j, key.to_owned());
            proof {
                assert(texts(out@) == ks.insert(j as int, key@));
                assert(texts(out@)[j as int] == row_key(rows@[i as int]));
                assert forall|a: int| 0 <= a <= i implies texts(out@).contains(row_key(#[trigger] rows@[a])) by {
                    if a < i {
                        let w = choose|x: int| 0 <= x < ks.len() && ks[x] == row_key(rows@[a]);
                        if w < j {
                            assert(texts(out@)[w] == ks[w]);
                        } else {
                            assert(texts(out@)[w + 1] == ks[w]);
                        }
                    }
                }
                assert forall|b: int| 0 <= b < out@.len() implies key_logged(rows@, #[trigger] texts(out@)[b]) by {
                    if b < j {
                        assert(texts(out@)[b] == ks[b]);
                    } else if b == j {
                        assert(row_key(rows@[i as int]) == texts(out@)[b]);
                    } else {
                        assert(texts(out@)[b] == ks[b - 1]);
                    }
                }
            }
        }
        i = i + 1;
    }
    out
}

/// The logged requests of one key, in log order.
pub open spec fn key_rows(rows: Seq<ClientAdmissionRecoveryRow>, k: Seq<char>) -> Seq<ClientAdmissionRecoveryRow> {
    rows.filter(|r: ClientAdmissionRecoveryRow| r.client_api_key_ref@ == k)
}

pub open spec fn recent_of(rows: Seq<ClientAdmissionRecoveryRow>, window_started_at: i64) -> Seq<(Seq<char>, i64)> {
    rows.filter(|r: ClientAdmissionRecoveryRow| r.started_at >= window_started_at).map_values(
        |r: ClientAdmissionRecoveryRow| (r.model_request_id@, r.started_at),
    )
}

pub open spec fn running_of(rows: Seq<ClientAdmissionRecoveryRow>) -> Seq<(Seq<char>, i64)> {
    rows.filter(|r: ClientAdmissionRecoveryRow| r.outcome@ == "running"@).map_values(
        |r: ClientAdmissionRecoveryRow| (r.model_request_id@, r.deadline_at),
    )
}

/// The account of the first request that was admitted for one.
pub open spec fn first_user(rows: Seq<ClientAdmissionRecoveryRow>) -> Option<Seq<char>> {
    let with_user = rows.filter(|r: ClientAdmissionRecoveryRow| r.user_id is Some);
    if with_user.len() > 0 {
        Some(with_user[0].user_id->0@)
    } else {
        None
    }
}

/// The requests admitted for account `u`.
pub open spec fn user_rows(rows: Seq<ClientAdmissionRecoveryRow>, u: Seq<char>) -> Seq<ClientAdmissionRecoveryRow> {
    rows.filter(|r: ClientAdmissionRecoveryRow| r.user_id matches Some(x) && x@ == u)
}

pub open spec fn recent_view(v: Seq<ClientAdmissionRecentRequest>) -> Seq<(Seq<char>, i64)> {
    v.map_values(|q: ClientAdmissionRecentRequest| (q.model_request_id@, q.started_at))
}

pub open spec fn running_view(v: Seq<ClientAdmissionRunningRequest>) -> Seq<(Seq<char>, i64)> {
    v.map_values(|q: ClientAdmissionRunningRequest| (q.model_request_id@, q.deadline_at))
}

/// The recovery of key `k` from the log: its recent and running requests, and
/// those of the account its first account-bound request was admitted for.
pub open spec fn recovery_matches(
    rec: ClientAdmissionRecovery,
    rows: Seq<ClientAdmissionRecoveryRow>,
    k: Seq<char>,
    window_started_at: i64,
) -> bool {
    let mine = key_rows(rows, k);
    &&& rec.client_api_key_ref@ == k
    &&& recent_view(rec.recent_requests@) == recent_of(mine, window_started_at)
    &&& running_view(rec.running_requests@) == running_of(mine)
    &&& match first_user(mine) {
        Some(u) => rec.user matches Some(user) && user.user_id@ == u && recent_view(
            user.recent_requests@,
        ) == recent_of(user_rows(mine, u), window_started_at) && running_view(
            user.running_requests@,
        ) == running_of(user_rows(mine, u)),
        None => rec.user is None,
    }
}

proof fn lemma_map_push<A, B>(s: Seq<A>, x: A, f: spec_fn(A) -> B)
    ensures
        s.push(x).map_values(f) == s.map_values(f).push(f(x)),
{
    assert(s.push(x).map_values(f) =~= s.map_values(f).push(f(x)));
}

proof fn lemma_filter_none<A>(s: Seq<A>, pred: spec_fn(A) -> bool)
    requires
        forall|k: int| 0 <= k < s.len() ==> !pred(#[trigger] s[k]),
    ensures
        s.filter(pred).len() == 0,
    decreases s.len(),
{
    reveal(Seq::filter);
    if s.len() > 0 {
        assert forall|k: int| 0 <= k < s.drop_last().len() implies !pred(#[trigger] s.drop_last()[k]) by {
            assert(s.drop_last()[k] == s[k]);
        }
        lemma_filter_none(s.drop_last(), pred);
        assert(!pred(s[s.len() - 1]));
    }
}

proof fn lemma_recent_push(s: Seq<ClientAdmissionRecoveryRow>, r: ClientAdmissionRecoveryRow, w: i64)
    ensures
        recent_of(s.push(r), w) == if r.started_at >= w {
            recent_of(s, w).push((r.model_request_id@, r.started_at))
        } else {
            recent_of(s, w)
        },
{
    let p = |x: ClientAdmissionRecoveryRow| x.started_at >= w;
    let f = |x: ClientAdmissionRecoveryRow| (x.model_request_id@, x.started_at);
    lemma_filter_push(s, r, p);
    lemma_map_push(s.filter(p), r, f);
}

proof fn lemma_running_push(s: Seq<ClientAdmissionRecoveryRow>, r: ClientAdmissionRecoveryRow)
    ensures
        running_of(s.push(r)) == if r.outcome@ == "running"@ {
            running_of(s).push((r.model_request_id@, r.deadline_at))
        } else {
            running_of(s)
        },
{
    let p = |x: ClientAdmissionRecoveryRow| x.outcome@ == "running"@;
    let f = |x: ClientAdmissionRecoveryRow| (x.model_request_id@, x.deadline_at);
    lemma_filter_push(s, r, p);
    lemma_map_push(s.filter(p), r, f);
}

proof fn lemma_user_rows_push(s: Seq<ClientAdmissionRecoveryRow>, r: ClientAdmissionRecoveryRow, u: Seq<char>)
    ensures
        user_rows(s.push(r), u) == if r.user_id matches Some(x) && x@ == u {
            user_rows(s, u).push(r)
        } else {
            user_rows(s, u)
        },
{
    reveal(Seq::filter);
    assert(s.push(r).drop_last() == s);
    assert(s.push(r).last() == r);
}

proof fn lemma_first_user_push(s: Seq<ClientAdmissionRecoveryRow>, r: ClientAdmissionRecoveryRow)
    ensures
        first_user(s.push(r)) == match first_user(s) {
            Some(u) => Some(u),
            None => match r.user_id {
                Some(x) => Some(x@),
                None => None,
            },
        },
        first_user(s) is None ==> forall|u: Seq<char>| user_rows(s, u).len() == 0,
{
    let p = |x: ClientAdmissionRecoveryRow| x.user_id is Some;
    lemma_filter_push(s, r, p);
    if first_user(s) is None {
        assert forall|u: Seq<char>| user_rows(s, u).len() == 0 by {
            let pu = |r: ClientAdmissionRecoveryRow| r.user_id matches Some(x) && x@ == u;
            assert forall|k: int| 0 <= k < s.len() implies !pu(#[trigger] s[k]) by {
                if pu(s[k]) {
                    s.lemma_filter_contains(p, k);
                }
            }
            lemma_filter_none(s, pu);
        }
    }
}

/// The recovery of one key.
pub fn recovery_for_key(rows: &Vec<ClientAdmissionRecoveryRow>, key: &str, window_started_at: i64) -> (r:
    ClientAdmissionRecovery)
    ensures
        recovery_matches(r, rows@, key@, window_started_at),
        r.user matches Some(user) ==> forall|i: int|
            0 <= i < rows@.len() && counts_for_account(#[trigger] rows@[i], key@, user.user_id@, window_started_at)
                ==> recent_view(user.recent_requests@).contains(
                (rows@[i].model_request_id@, rows@[i].started_at),
            ),
        r.user matches Some(user) ==> forall|j: int|
            0 <= j < user.recent_requests@.len() ==> from_counting_row(
                rows@,
                key@,
                user.user_id@,
                window_started_at,
                #[trigger] recent_view(user.recent_requests@)[j],
            ),
{
    proof {
        reveal_strlit("running");
    }
    let ghost is_mine = |r: ClientAdmissionRecoveryRow| r.client_api_key_ref@ == key@;
    let mut recent: Vec<ClientAdmissionRecentRequest> = Vec::new();
    let mut running: Vec<ClientAdmissionRunningRequest> = Vec::new();
    let mut user_id: Option<String> = None;
    let mut user_recent: Vec<ClientAdmissionRecentRequest> = Vec::new();
    let mut user_running: Vec<ClientAdmissionRunningRequest> = Vec::new();
    let mut i: usize = 0;
    proof {
        reveal(Seq::filter);
        assert(rows@.take(0) == Seq::<ClientAdmissionRecoveryRow>::empty());
        assert(recent_view(recent@) == Seq::<(Seq<char>, i64)>::empty());
    }
    while i < rows.len()
        invariant
            i <= rows.len(),
            is_mine == (|r: ClientAdmissionRecoveryRow| r.client_api_key_ref@ == key@),
            recent_view(recent@) == recent_of(key_rows(rows@.take(i as int), key@), window_started_at),
            running_view(running@) == running_of(key_rows(rows@.take(i as int), key@)),
            match first_user(key_rows(rows@.take(i as int), key@)) {
                Some(u) => user_id matches Some(x) && x@ == u && recent_view(user_recent@)
                    == recent_of(user_rows(key_rows(rows@.take(i as int), key@), u), window_started_at)
                    && running_view(user_running@) == running_of(
                    user_rows(key_rows(rows@.take(i as int), key@), u),
                ),
                None => user_id is None && user_recent@.len() == 0 && user_running@.len() == 0,
            },
        decreases rows.len() - i,
    {
        let row = &rows[i];
        let ghost prefix = rows@.take(i as int);
        let ghost mine = key_rows(prefix, key@);
        proof {
            assert(rows@.take(i + 1) == prefix.push(*row));
            lemma_filter_push(prefix, *row, is_mine);
        }
        if str_eq(row.client_api_key_ref.as_str(), key) {
            let ghost mine2 = mine.push(*row);
            let ghost old_user = first_user(mine);
            assert(key_rows(rows@.take(i + 1), key@) == mine2);
            proof {
                lemma_recent_push(mine, *row, window_started_at);
                lemma_running_push(mine, *row);
                lemma_first_user_push(mine, *row);
            }
            let is_recent_row = row.started_at >= window_started_at;
            let is_running_row = str_eq(row.outcome.as_str(), "running");
            if let Some(u) = &row.user_id {
                if user_id.is_none() {
                    user_id = Some(u.clone());
                }
                let same = match &user_id {
                    Some(x) => str_eq(x.as_str(), u.as_str()),
                    None => false,
                };
                let ghost cur = user_id->0@;
                proof {
                    lemma_user_rows_push(mine, *row, cur);
                    lemma_recent_push(user_rows(mine, cur), *row, window_started_at);
                    lemma_running_push(user_rows(mine, cur), *row);
                    if old_user is None {
                        assert(user_rows(mine, cur).len() == 0);
                        assert(user_rows(mine, cur) == Seq::<ClientAdmissionRecoveryRow>::empty());
                        assert(recent_of(user_rows(mine, cur), window_started_at) == Seq::<
                            (Seq<char>, i64),
                        >::empty()) by {
                            reveal(Seq::filter);
                        }
                        assert(running_of(user_rows(mine, cur)) == Seq::<(Seq<char>, i64)>::empty()) by {
                            reveal(Seq::filter);
                        }
                        assert(recent_view(user_recent@) == Seq::<(Seq<char>, i64)>::empty());
                        assert(running_view(user_running@) == Seq::<(Seq<char>, i64)>::empty());
                    }
                }
                if same {
                    if is_recent_row {
                        let ghost before = user_recent@;
                        user_recent.push(
                            ClientAdmissionRecentRequest {
                                model_request_id: row.model_request_id.clone(),
                                started_at: row.started_at,
                            },
                        );
                        proof {
                            lemma_map_push(
                                before,
                                user_recent@.last(),
                                |q: ClientAdmissionRecentRequest| (q.model_request_id@, q.started_at),
                            );
                            assert(user_recent@ == before.push(user_recent@.last()));
                        }
                    }
                    if is_running_row {
                        let ghost before = user_running@;
                        user_running.push(
                            ClientAdmissionRunningRequest {
                                model_request_id: row.model_request_id.clone(),
                                deadline_at: row.deadline_at,
                            },
                        );
                        proof {
                            lemma_map_push(
                                before,
                                user_running@.last(),
                                |q: ClientAdmissionRunningRequest| (q.model_request_id@, q.deadline_at),
                            );
                            assert(user_running@ == before.push(user_running@.last()));
                        }
                    }
                }
            } else {
                proof {
                    if let Some(u0) = old_user {
                        lemma_user_rows_push(mine, *row, u0);
                    }
                }
            }
            if is_recent_row {
                let ghost before = recent@;
                recent.push(
                    ClientAdmissionRecentRequest {
                        model_request_id: row.model_request_id.clone(),
                        started_at: row.started_at,
                    },
                );
                proof {
                    lemma_map_push(
                        before,
                        recent@.last(),
                        |q: ClientAdmissionRecentRequest| (q.model_request_id@, q.started_at),
                    );
                    assert(recent@ == before.push(recent@.last()));
                }
            }
            if is_running_row {
                let ghost before = running@;
                running.push(
                    ClientAdmissionRunningRequest {
                        model_request_id: row.model_request_id.clone(),
                        deadline_at: row.deadline_at,
                    },
                );
                proof {
                    lemma_map_push(
                        before,
                        running@.last(),
                        |q: ClientAdmissionRunningRequest| (q.model_request_id@, q.deadline_at),
                    );
                    assert(running@ == before.push(running@.last()));
                }
            }
        } else {
            assert(key_rows(rows@.take(i + 1), key@) == mine);
        }
        i = i + 1;
    }
    assert(rows@.take(rows@.len() as int) == rows@);
    let rec = ClientAdmissionRecovery {
        client_api_key_ref: key.to_owned(),
        recent_requests: recent,
        running_requests: running,
        user: match user_id {
            Some(u) => Some(
                ClientAdmissionUserRecovery {
                    user_id: u,
                    recent_requests: user_recent,
                    running_requests: user_running,
                },
            ),
            None => None,
        },
    };
    proof {
        lemma_account_recent_requests(rec, rows@, key@, window_started_at);
    }
    rec
}

pub open spec fn recovery_keys(v: Seq<ClientAdmissionRecovery>) -> Seq<Seq<char>> {
    v.map_values(|r: ClientAdmissionRecovery| r.client_api_key_ref@)
}

/// The admission state of every key in the log: one recovery per logged key,
/// in key order, each rebuilt from that key's requests.
pub fn group_recovery_rows(rows: &Vec<ClientAdmissionRecoveryRow>, window_started_at: i64) -> (r: Vec<
    ClientAdmissionRecovery,
>)
    ensures
        strictly_sorted(recovery_keys(r@)),
        forall|i: int| 0 <= i < rows@.len() ==> recovery_keys(r@).contains(row_key(#[trigger] rows@[i])),
        forall|j: int| 0 <= j < r@.len() ==> key_logged(rows@, #[trigger] recovery_keys(r@)[j]),
        forall|j: int|
            0 <= j < r@.len() ==> recovery_matches(
                #[trigger] r@[j],
                rows@,
                r@[j].client_api_key_ref@,
                window_started_at,
            ),
{
    let keys = sorted_keys(rows);
    let mut out: Vec<ClientAdmissionRecovery> = Vec::new();
    let mut j: usize = 0;
    while j < keys.len()
        invariant
            j <= keys.len(),
            out@.len() == j,
            forall|a: int| 0 <= a < j ==> recovery_keys(out@)[a] == #[trigger] texts(keys@)[a],
            forall|a: int|
                0 <= a < j ==> recovery_matches(
                    #[trigger] out@[a],
                    rows@,
                    out@[a].client_api_key_ref@,
                    window_started_at,
                ),
        decreases keys.len() - j,
    {
        let rec = recovery_for_key(rows, keys[j].as_str(), window_started_at);
        out.push(rec);
        j = j + 1;
    }
    assert(recovery_keys(out@) == texts(keys@));
    out
}

/// Keeping the rows of one key, with one more row.
proof fn lemma_key_rows_push(s: Seq<ClientAdmissionRecoveryRow>, r: ClientAdmissionRecoveryRow, k: Seq<char>)
    ensures
        key_rows(s.push(r), k) == if r.client_api_key_ref@ == k {
            key_rows(s, k).push(r)
        } else {
            key_rows(s, k)
        },
{
    reveal(Seq::filter);
    assert(s.push(r).drop_last() == s);
    assert(s.push(r).last() == r);
}

/// Whether a logged request of key `k`, admitted for account `u`, started at
/// or after `window_started_at`.
pub open spec fn counts_for_account(
    r: ClientAdmissionRecoveryRow,
    k: Seq<char>,
    u: Seq<char>,
    window_started_at: i64,
) -> bool {
    &&& r.client_api_key_ref@ == k
    &&& r.user_id matches Some(x) && x@ == u
    &&& r.started_at >= window_started_at
}

/// One more logged row adds its request to the account's recent requests
/// exactly when it counts for the account.
proof fn lemma_account_recent_push(
    s: Seq<ClientAdmissionRecoveryRow>,
    r: ClientAdmissionRecoveryRow,
    k: Seq<char>,
    u: Seq<char>,
    w: i64,
)
    ensures
        recent_of(user_rows(key_rows(s.push(r), k), u), w) == if counts_for_account(r, k, u, w) {
            recent_of(user_rows(key_rows(s, k), u), w).push((r.model_request_id@, r.started_at))
        } else {
            recent_of(user_rows(key_rows(s, k), u), w)
        },
{
    lemma_key_rows_push(s, r, k);
    let m = key_rows(s, k);
    if r.client_api_key_ref@ == k {
        lemma_user_rows_push(m, r, u);
        if r.user_id matches Some(x) && x@ == u {
            lemma_recent_push(user_rows(m, u), r, w);
        }
    }
}

spec fn account_recent(rows: Seq<ClientAdmissionRecoveryRow>, k: Seq<char>, u: Seq<char>, w: i64) -> Seq<
    (Seq<char>, i64),
> {
    recent_of(user_rows(key_rows(rows, k), u), w)
}

/// Each row that counts for the account gives one of its recent requests.
proof fn lemma_account_recent_has(rows: Seq<ClientAdmissionRecoveryRow>, k: Seq<char>, u: Seq<char>, w: i64, i: int) -> (j: int)
    requires
        0 <= i < rows.len(),
        counts_for_account(rows[i], k, u, w),
    ensures
        0 <= j < account_recent(rows, k, u, w).len(),
        account_recent(rows, k, u, w)[j] == (rows[i].model_request_id@, rows[i].started_at),
    decreases rows.len(),
{
    let t = rows.drop_last();
    let x = rows.last();
    assert(rows == t.push(x));
    lemma_account_recent_push(t, x, k, u, w);
    if i < t.len() {
        assert(rows[i] == t[i]);
        lemma_account_recent_has(t, k, u, w, i)
    } else {
        account_recent(t, k, u, w).len() as int
    }
}

/// Each recent request of the account comes from a row that counts for it.
proof fn lemma_account_recent_from(rows: Seq<ClientAdmissionRecoveryRow>, k: Seq<char>, u: Seq<char>, w: i64, j: int) -> (i: int)
    requires
        0 <= j < account_recent(rows, k, u, w).len(),
    ensures
        0 <= i < rows.len(),
        counts_for_account(rows[i], k, u, w),
        account_recent(rows, k, u, w)[j] == (rows[i].model_request_id@, rows[i].started_at),
    decreases rows.len(),
{
    if rows.len() == 0 {
        reveal(Seq::filter);
        assert(key_rows(rows, k).len() == 0);
        assert(user_rows(key_rows(rows, k), u).len() == 0);
        assert(false);
        0
    } else {
        let t = rows.drop_last();
        let x = rows.last();
        assert(rows == t.push(x));
        lemma_account_recent_push(t, x, k, u, w);
        if j < account_recent(t, k, u, w).len() {
            let i = lemma_account_recent_from(t, k, u, w, j);
            assert(rows[i] == t[i]);
            i
        } else {
            rows.len() - 1
        }
    }
}

/// The account's recent requests keep the order of the rows they come from.
proof fn lemma_account_recent_order(
    rows: Seq<ClientAdmissionRecoveryRow>,
    k: Seq<char>,
    u: Seq<char>,
    w: i64,
    j1: int,
    j2: int,
) -> (r: (int, int))
    requires
        0 <= j1 < j2 < account_recent(rows, k, u, w).len(),
    ensures
        0 <= r.0 < r.1 < rows.len(),
        account_recent(rows, k, u, w)[j1] == (rows[r.0].model_request_id@, rows[r.0].started_at),
        account_recent(rows, k, u, w)[j2] == (rows[r.1].model_request_id@, rows[r.1].started_at),
    decreases rows.len(),
{
    if rows.len() == 0 {
        reveal(Seq::filter);
        assert(key_rows(rows, k).len() == 0);
        assert(user_rows(key_rows(rows, k), u).len() == 0);
        assert(false);
        (0, 0)
    } else {
        let t = rows.drop_last();
        let x = rows.last();
        assert(rows == t.push(x));
        lemma_account_recent_push(t, x, k, u, w);
        if j2 < account_recent(t, k, u, w).len() {
            let (i1, i2) = lemma_account_recent_order(t, k, u, w, j1, j2);
            assert(rows[i1] == t[i1]);
            assert(rows[i2] == t[i2]);
            (i1, i2)
        } else {
            let i1 = lemma_account_recent_from(t, k, u, w, j1);
            assert(rows[i1] == t[i1]);
            (i1, rows.len() - 1)
        }
    }
}

/// A key with a logged request admitted for some account has an account.
proof fn lemma_first_user_found(rows: Seq<ClientAdmissionRecoveryRow>, k: Seq<char>, i: int)
    requires
        0 <= i < rows.len(),
        rows[i].client_api_key_ref@ == k,
        rows[i].user_id is Some,
    ensures
        first_user(key_rows(rows, k)) is Some,
    decreases rows.len(),
{
    let t = rows.drop_last();
    let x = rows.last();
    assert(rows == t.push(x));
    lemma_key_rows_push(t, x, k);
    if i < t.len() {
        assert(t[i] == rows[i]);
        lemma_first_user_found(t, k, i);
        if x.client_api_key_ref@ == k {
            lemma_first_user_push(key_rows(t, k), x);
        }
    } else {
        lemma_first_user_push(key_rows(t, k), x);
    }
}

/// `e` is the request of a logged row of key `k`, admitted for account `u`,
/// that started at or after `window_started_at`, with its start.
pub open spec fn from_counting_row(
    rows: Seq<ClientAdmissionRecoveryRow>,
    k: Seq<char>,
    u: Seq<char>,
    window_started_at: i64,
    e: (Seq<char>, i64),
) -> bool {
    exists|i: int|
        #![trigger rows[i]]
        0 <= i < rows.len() && counts_for_account(rows[i], k, u, window_started_at) && e == (
            rows[i].model_request_id@,
            rows[i].started_at,
        )
}

/// `e1` and `e2` are the requests of two logged rows, with their starts, the
/// first logged before the second.
pub open spec fn from_rows_in_order(
    rows: Seq<ClientAdmissionRecoveryRow>,
    e1: (Seq<char>, i64),
    e2: (Seq<char>, i64),
) -> bool {
    exists|i1: int, i2: int|
        #![trigger rows[i1], rows[i2]]
        0 <= i1 < i2 < rows.len() && e1 == (rows[i1].model_request_id@, rows[i1].started_at) && e2 == (
            rows[i2].model_request_id@,
            rows[i2].started_at,
        )
}

/// After a restart, the account of a key keeps its requests of the current
/// window: once any logged request of the key was admitted for an account, the
/// key's recovery names an account, and that account's recent requests are
/// the key's logged requests admitted for it that started at or after the
/// window's start, each with its start, and nothing else, in log order.
pub proof fn lemma_account_recent_requests(
    rec: ClientAdmissionRecovery,
    rows: Seq<ClientAdmissionRecoveryRow>,
    k: Seq<char>,
    window_started_at: i64,
)
    requires
        recovery_matches(rec, rows, k, window_started_at),
    ensures
        (exists|i: int| 0 <= i < rows.len() && rows[i].client_api_key_ref@ == k && #[trigger] rows[i].user_id is Some)
            ==> rec.user is Some,
        rec.user matches Some(user) ==> forall|i: int|
            0 <= i < rows.len() && counts_for_account(#[trigger] rows[i], k, user.user_id@, window_started_at)
                ==> recent_view(user.recent_requests@).contains(
                (rows[i].model_request_id@, rows[i].started_at),
            ),
        rec.user matches Some(user) ==> forall|j: int|
            0 <= j < user.recent_requests@.len() ==> from_counting_row(
                rows,
                k,
                user.user_id@,
                window_started_at,
                #[trigger] recent_view(user.recent_requests@)[j],
            ),
        rec.user matches Some(user) ==> forall|j1: int, j2: int|
            0 <= j1 < j2 < user.recent_requests@.len() ==> from_rows_in_order(
                rows,
                #[trigger] recent_view(user.recent_requests@)[j1],
                #[trigger] recent_view(user.recent_requests@)[j2],
            ),
{
    if exists|i: int| 0 <= i < rows.len() && rows[i].client_api_key_ref@ == k && #[trigger] rows[i].user_id is Some {
        let i = choose|i: int| 0 <= i < rows.len() && rows[i].client_api_key_ref@ == k && #[trigger] rows[i].user_id is Some;
        lemma_first_user_found(rows, k, i);
    }
    if let Some(user) = rec.user {
        let u = user.user_id@;
        let v = recent_view(user.recent_requests@);
        assert(v == account_recent(rows, k, u, window_started_at));
        assert forall|i: int|
            0 <= i < rows.len() && counts_for_account(#[trigger] rows[i], k, u, window_started_at) implies v.contains(
            (rows[i].model_request_id@, rows[i].started_at),
        ) by {
            let j = lemma_account_recent_has(rows, k, u, window_started_at, i);
            assert(v[j] == (rows[i].model_request_id@, rows[i].started_at));
        }
        assert forall|j: int| 0 <= j < user.recent_requests@.len() implies from_counting_row(
            rows,
            k,
            u,
            window_started_at,
            #[trigger] v[j],
        ) by {
            let i = lemma_account_recent_from(rows, k, u, window_started_at, j);
            assert(rows[i] == rows[i]);
        }
        assert forall|j1: int, j2: int| 0 <= j1 < j2 < user.recent_requests@.len() implies from_rows_in_order(
            rows,
            #[trigger] v[j1],
            #[trigger] v[j2],
        ) by {
            let (i1, i2) = lemma_account_recent_order(rows, k, u, window_started_at, j1, j2);
            assert(rows[i1] == rows[i1] && rows[i2] == rows[i2]);
        }
    }
}

} // verus!
