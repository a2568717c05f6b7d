//! Rate and concurrency admission of client requests, as kept in Redis sorted
//! sets: what an admission request and a recovery must look like before a
//! script runs, the arguments handed to the admission script, and what the
//! scripts' answers mean. Redis scripts compute in doubles, so every integer
//! handed to them must be exact there.
//!
//! Instants are milliseconds since the epoch.

use vstd::prelude::*;

use crate::policy::UserRateLimits;
use crate::text::str_eq;

verus! {

/// Largest integer a Redis script represents exactly: 2^53 - 1.
pub const MAX_REDIS_EXACT_INTEGER: u64 = 9_007_199_254_740_991;

pub const NANOS_PER_MILLI: u128 = 1_000_000;

/// Key-level limits; zero leaves a dimension unlimited.
#[derive(Debug, Clone, Copy, PartialEq, Eq, Structural)]
pub struct ClientAdmissionLimits {
    pub max_concurrency: u64,
    pub requests_per_minute: u64,
}

/// The account a request is also admitted for, with its limits.
#[derive(Debug, Clone, PartialEq, Eq)]
pub struct UserAdmissionScope {
    pub user_id: String,
    pub limits: UserRateLimits,
}

/// A request to admit one model request; the lease length is in nanoseconds.
#[derive(Debug, Clone, PartialEq, Eq)]
pub struct ClientAdmissionRequest {
    pub model_request_id: String,
    pub client_api_key_ref: String,
    pub lease_ttl_nanos: u128,
    pub allow_concurrency_acquire: bool,
    pub limits: ClientAdmissionLimits,
    pub user: Option<UserAdmissionScope>,
}

/// Malformed admission data, naming what is wrong.
#[derive(Debug, Clone, Copy, PartialEq, Eq)]
pub struct AdmissionDataError {
    pub message: &'static str,
}

#[derive(Debug, Clone, Copy, PartialEq, Eq, Structural)]
pub enum ClientAdmissionRejection {
    RateLimited,
    ConcurrencyLimited,
}

#[derive(Debug, Clone, Copy, PartialEq, Eq, Structural)]
pub enum ClientAdmissionDecision {
    Granted,
    Rejected(ClientAdmissionRejection),
}

#[derive(Debug, Clone, Copy, PartialEq, Eq, Structural)]
pub struct ClientAdmissionRestoreResult {
    pub restored_recent_requests: u64,
    pub restored_running_requests: u64,
}

/// An integer a Redis script holds exactly.
pub open spec fn redis_exact(v: int) -> bool {
    0 <= v <= MAX_REDIS_EXACT_INTEGER
}

/// An integer handed to a script: refused (`field`) unless exact there.
pub fn redis_integer(value: u64, field: &'static str) -> (r: Result<u64, AdmissionDataError>)
    ensures
        redis_exact(value as int) ==> r == Ok::<u64, AdmissionDataError>(value),
        !redis_exact(value as int) ==> r == Err::<u64, AdmissionDataError>(
            AdmissionDataError { message: field },
        ),
{
    if value > MAX_REDIS_EXACT_INTEGER {
        return Err(AdmissionDataError { message: field });
    }
    Ok(value)
}

/// A length handed to a script.
pub fn redis_len(length: usize, field: &'static str) -> (r: Result<u64, AdmissionDataError>)
    ensures
        redis_exact(length as int) ==> r == Ok::<u64, AdmissionDataError>(length as u64),
        !redis_exact(length as int) ==> r == Err::<u64, AdmissionDataError>(
            AdmissionDataError { message: field },
        ),
{
    redis_integer(length as u64, field)
}

/// An instant handed to a script, in milliseconds: instants before the epoch
/// are refused too.
pub fn redis_timestamp_millis(millis: i64, field: &'static str) -> (r: Result<
    u64,
    AdmissionDataError,
>)
    ensures
        redis_exact(millis as int) ==> r == Ok::<u64, AdmissionDataError>(millis as u64),
        !redis_exact(millis as int) ==> r == Err::<u64, AdmissionDataError>(
            AdmissionDataError { message: field },
        ),
{
    if millis < 0 {
        return Err(AdmissionDataError { message: field });
    }
    redis_integer(millis as u64, field)
}

/// The lease length in whole milliseconds, as handed to a script.
pub fn redis_duration_millis(nanos: u128) -> (r: Result<u64, AdmissionDataError>)
    ensures
        redis_exact((nanos / NANOS_PER_MILLI) as int) ==> r == Ok::<u64, AdmissionDataError>(
            (nanos / NANOS_PER_MILLI) as u64,
        ),
        nanos / NANOS_PER_MILLI > u64::MAX ==> r == Err::<u64, AdmissionDataError>(
            AdmissionDataError { message: "lease TTL is too large" },
        ),
        nanos / NANOS_PER_MILLI <= u64::MAX && !redis_exact((nanos / NANOS_PER_MILLI) as int) ==> r
            == Err::<u64, AdmissionDataError>(AdmissionDataError { message: "lease TTL" }),
{
    let millis = nanos / NANOS_PER_MILLI;
    if millis > u64::MAX as u128 {
        return Err(AdmissionDataError { message: "lease TTL is too large" });
    }
    redis_integer(millis as u64, "lease TTL")
}

/// What is wrong with an admission request, in the order the checks run.
pub open spec fn admission_request_error(q: ClientAdmissionRequest) -> Option<&'static str> {
    let millis = q.lease_ttl_nanos / NANOS_PER_MILLI;
    if q.model_request_id@.len() == 0 {
        Some("model_request_id")
    } else if q.client_api_key_ref@.len() == 0 {
        Some("client_api_key_ref")
    } else if q.lease_ttl_nanos == 0 {
        Some("lease TTL must be positive")
    } else if millis > u64::MAX {
        Some("lease TTL is too large")
    } else if !redis_exact(millis as int) {
        Some("lease TTL")
    } else if !redis_exact(q.limits.max_concurrency as int) {
        Some("maximum concurrency")
    } else if !redis_exact(q.limits.requests_per_minute as int) {
        Some("requests per minute")
    } else if q.user matches Some(u) && u.user_id@.len() == 0 {
        Some("user ID")
    } else if q.user matches Some(u) && !redis_exact(limit_or_zero(u.limits.max_concurrency) as int) {
        Some("user maximum concurrency")
    } else if q.user matches Some(u) && !redis_exact(
        limit_or_zero(u.limits.requests_per_minute) as int,
    ) {
        Some("user requests per minute")
    } else {
        None
    }
}

/// An account limit as a script takes it: zero for unlimited.
pub open spec fn limit_or_zero(limit: Option<u64>) -> u64 {
    match limit {
        Some(v) => v,
        None => 0,
    }
}

/// The arguments of the admission script, in script order after the request id.
#[derive(Debug, Clone, Copy, PartialEq, Eq, Structural)]
pub struct AdmitScriptArgs {
    pub lease_ttl_millis: u64,
    pub max_concurrency: u64,
    pub requests_per_minute: u64,
    pub max_exact_integer: u64,
    pub allow_concurrency_acquire: u8,
    pub has_user: u8,
    pub user_max_concurrency: u64,
    pub user_requests_per_minute: u64,
}

impl ClientAdmissionRequest {
    /// Checks an admission request before its script runs; the error says what is wrong.
    pub fn validate(&self) -> (r: Result<(), AdmissionDataError>)
        ensures
            match admission_request_error(*self) {
                Some(m) => r == Err::<(), AdmissionDataError>(AdmissionDataError { message: m }),
                None => r is Ok,
            },
    {
        if self.model_request_id.as_str().is_empty() {
            return Err(AdmissionDataError { message: "model_request_id" });
        }
        if self.client_api_key_ref.as_str().is_empty() {
            return Err(AdmissionDataError { message: "client_api_key_ref" });
        }
        if self.lease_ttl_nanos == 0 {
            return Err(AdmissionDataError { message: "lease TTL must be positive" });
        }
        redis_duration_millis(self.lease_ttl_nanos)?;
        redis_integer(self.limits.max_concurrency, "maximum concurrency")?;
        redis_integer(self.limits.requests_per_minute, "requests per minute")?;
        if let Some(user) = &self.user {
            if user.user_id.as_str().is_empty() {
                return Err(AdmissionDataError { message: "user ID" });
            }
            redis_integer(
                match user.limits.max_concurrency {
                    Some(v) => v,
                    None => 0,
                },
                "user maximum concurrency",
            )?;
            redis_integer(
                match user.limits.requests_per_minute {
                    Some(v) => v,
                    None => 0,
                },
                "user requests per minute",
            )?;
        }
        Ok(())
    }

    /// An account limit of zero refuses before any script runs and before any
    /// bucket is written: a zero request rate first, then zero concurrency.
    pub fn pre_script_decision(&self) -> (r: Option<ClientAdmissionDecision>)
        ensures
            match self.user {
                Some(u) => if u.limits.requests_per_minute == Some(0u64) {
                    r == Some(ClientAdmissionDecision::Rejected(ClientAdmissionRejection::RateLimited))
                } else if u.limits.max_concurrency == Some(0u64) {
                    r == Some(
                        ClientAdmissionDecision::Rejected(
                            ClientAdmissionRejection::ConcurrencyLimited,
                        ),
                    )
                } else {
                    r is None
                },
                None => r is None,
            },
    {
        if let Some(user) = &self.user {
            if user.limits.requests_per_minute == Some(0u64) {
                return Some(ClientAdmissionDecision::Rejected(ClientAdmissionRejection::RateLimited));
            }
            if user.limits.max_concurrency == Some(0u64) {
                return Some(
                    ClientAdmissionDecision::Rejected(ClientAdmissionRejection::ConcurrencyLimited),
                );
            }
        }
        None
    }

    /// The admission script's arguments for a valid request; each integer is
    /// exact in the script.
    pub fn admit_script_args(&self) -> (r: AdmitScriptArgs)
        requires
            admission_request_error(*self) is None,
        ensures
            r.lease_ttl_millis == self.lease_ttl_nanos / NANOS_PER_MILLI,
            r.max_concurrency == self.limits.max_concurrency,
            r.requests_per_minute == self.limits.requests_per_minute,
            r.max_exact_integer == MAX_REDIS_EXACT_INTEGER,
            r.allow_concurrency_acquire == (if self.allow_concurrency_acquire { 1u8 } else { 0u8 }),
            r.has_user == (if self.user is Some { 1u8 } else { 0u8 }),
            r.user_max_concurrency == match self.user {
                Some(u) => limit_or_zero(u.limits.max_concurrency),
                None => 0,
            },
            r.user_requests_per_minute == match self.user {
                Some(u) => limit_or_zero(u.limits.requests_per_minute),
                None => 0,
            },
            redis_exact(r.lease_ttl_millis as int),
            redis_exact(r.max_concurrency as int),
            redis_exact(r.requests_per_minute as int),
            redis_exact(r.user_max_concurrency as int),
            redis_exact(r.user_requests_per_minute as int),
    {
        let (user_max_concurrency, user_requests_per_minute) = match &self.user {
            Some(u) => (
                match u.limits.max_concurrency {
                    Some(v) => v,
                    None => 0,
                },
                match u.limits.requests_per_minute {
                    Some(v) => v,
                    None => 0,
                },
            ),
            None => (0, 0),
        };
        AdmitScriptArgs {
            lease_ttl_millis: (self.lease_ttl_nanos / NANOS_PER_MILLI) as u64,
            max_concurrency: self.limits.max_concurrency,
            requests_per_minute: self.limits.requests_per_minute,
            max_exact_integer: MAX_REDIS_EXACT_INTEGER,
            allow_concurrency_acquire: if self.allow_concurrency_acquire {
                1
            } else {
                0
            },
            has_user: if self.user.is_some() {
                1
            } else {
                0
            },
            user_max_concurrency,
            user_requests_per_minute,
        }
    }
}

/// The admission script's answer: 0 granted, 1 rate limited, 2 concurrency
/// limited, 3 a lease expiry beyond the exact range; anything else is unknown.
pub fn decode_admission_code(code: i64) -> (r: Result<ClientAdmissionDecision, AdmissionDataError>)
    ensures
        code == 0 ==> r == Ok::<ClientAdmissionDecision, AdmissionDataError>(
            ClientAdmissionDecision::Granted,
        ),
        code == 1 ==> r == Ok::<ClientAdmissionDecision, AdmissionDataError>(
            ClientAdmissionDecision::Rejected(ClientAdmissionRejection::RateLimited),
        ),
        code == 2 ==> r == Ok::<ClientAdmissionDecision, AdmissionDataError>(
            ClientAdmissionDecision::Rejected(ClientAdmissionRejection::ConcurrencyLimited),
        ),
        code == 3 ==> r == Err::<ClientAdmissionDecision, AdmissionDataError>(
            AdmissionDataError { message: "lease expiry is outside the supported range" },
        ),
        !(0 <= code <= 3) ==> r == Err::<ClientAdmissionDecision, AdmissionDataError>(
            AdmissionDataError { message: "Redis returned an unknown admission decision" },
        ),
{
    if code == 0 {
        Ok(ClientAdmissionDecision::Granted)
    } else if code == 1 {
        Ok(ClientAdmissionDecision::Rejected(ClientAdmissionRejection::RateLimited))
    } else if code == 2 {
        Ok(ClientAdmissionDecision::Rejected(ClientAdmissionRejection::ConcurrencyLimited))
    } else if code == 3 {
        Err(AdmissionDataError { message: "lease expiry is outside the supported range" })
    } else {
        Err(AdmissionDataError { message: "Redis returned an unknown admission decision" })
    }
}

/// The release script removed the lease exactly when it answers 1.
pub fn lease_released(removed: i64) -> (r: bool)
    ensures
        r == (removed == 1),
{
    removed == 1
}

/// A request started within the last minute, to count against the rate limit.
#[derive(Debug, Clone, PartialEq, Eq)]
pub struct ClientAdmissionRecentRequest {
    pub model_request_id: String,
    pub started_at_millis: i64,
}

/// A request still running, to hold a concurrency lease until it expires.
#[derive(Debug, Clone, PartialEq, Eq)]
pub struct ClientAdmissionRunningRequest {
    pub model_request_id: String,
    pub expires_at_millis: i64,
}

#[derive(Debug, Clone, PartialEq, Eq)]
pub struct ClientAdmissionUserRestore {
    pub user_id: String,
    pub recent_requests: Vec<ClientAdmissionRecentRequest>,
    pub running_requests: Vec<ClientAdmissionRunningRequest>,
}

/// The admission state of a key (and its account) rebuilt from the database.
#[derive(Debug, Clone, PartialEq, Eq)]
pub struct ClientAdmissionRestore {
    pub client_api_key_ref: String,
    pub recent_requests: Vec<ClientAdmissionRecentRequest>,
    pub running_requests: Vec<ClientAdmissionRunningRequest>,
    pub user: Option<ClientAdmissionUserRestore>,
}

/// What is wrong with entry `i` of a list of (request id, instant) pairs: an
/// empty id, an instant a script cannot hold, or an id seen earlier in the list.
pub open spec fn entry_error(
    ids: Seq<Seq<char>>,
    times: Seq<i64>,
    i: int,
    time_message: &'static str,
    unique_message: &'static str,
) -> Option<&'static str> {
    if ids[i].len() == 0 {
        Some("model_request_id")
    } else if !redis_exact(times[i] as int) {
        Some(time_message)
    } else if exists|j: int| 0 <= j < i && ids[j] == ids[i] {
        Some(unique_message)
    } else {
        None
    }
}

/// The first error among the first `n` entries, checked in order.
pub open spec fn entries_error(
    ids: Seq<Seq<char>>,
    times: Seq<i64>,
    n: nat,
    time_message: &'static str,
    unique_message: &'static str,
) -> Option<&'static str>
    decreases n,
{
    if n == 0 {
        None
    } else {
        match entries_error(ids, times, (n - 1) as nat, time_message, unique_message) {
            Some(e) => Some(e),
            None => entry_error(ids, times, n - 1, time_message, unique_message),
        }
    }
}

pub open spec fn recent_ids(v: Seq<ClientAdmissionRecentRequest>) -> Seq<Seq<char>> {
    v.map_values(|r: ClientAdmissionRecentRequest| r.model_request_id@)
}

pub open spec fn recent_times(v: Seq<ClientAdmissionRecentRequest>) -> Seq<i64> {
    v.map_values(|r: ClientAdmissionRecentRequest| r.started_at_millis)
}

pub open spec fn running_ids(v: Seq<ClientAdmissionRunningRequest>) -> Seq<Seq<char>> {
    v.map_values(|r: ClientAdmissionRunningRequest| r.model_request_id@)
}

pub open spec fn running_times(v: Seq<ClientAdmissionRunningRequest>) -> Seq<i64> {
    v.map_values(|r: ClientAdmissionRunningRequest| r.expires_at_millis)
}

proof fn lemma_entries_error_extend(
    ids: Seq<Seq<char>>,
    times: Seq<i64>,
    k: nat,
    n: nat,
    time_message: &'static str,
    unique_message: &'static str,
)
    requires
        k <= n,
        entries_error(ids, times, k, time_message, unique_message) is Some,
    ensures
        entries_error(ids, times, n, time_message, unique_message) == entries_error(
            ids,
            times,
            k,
            time_message,
            unique_message,
        ),
    decreases n,
{
    if n > k {
        lemma_entries_error_extend(ids, times, k, (n - 1) as nat, time_message, unique_message);
    }
}

fn check_entries(
    ids: &Vec<&str>,
    times: &Vec<i64>,
    time_message: &'static str,
    unique_message: &'static str,
) -> (r: Result<(), AdmissionDataError>)
    requires
        ids.len() == times.len(),
    ensures
        match entries_error(
            ids@.map_values(|s: &str| s@),
            times@,
            ids.len() as nat,
            time_message,
            unique_message,
        ) {
            Some(m) => r == Err::<(), AdmissionDataError>(AdmissionDataError { message: m }),
            None => r is Ok,
        },
{
    let ghost sids = ids@.map_values(|s: &str| s@);
    let mut i: usize = 0;
    while i < ids.len()
        invariant
            i <= ids.len(),
            ids.len() == times.len(),
            sids == ids@.map_values(|s: &str| s@),
            entries_error(sids, times@, i as nat, time_message, unique_message) is None,
        decreases ids.len() - i,
    {
        let id = ids[i];
        assert(sids[i as int] == id@);
        if id.is_empty() {
            proof {
                lemma_entries_error_extend(sids, times@, (i + 1) as nat, ids.len() as nat, time_message, unique_message);
            }
            return Err(AdmissionDataError { message: "model_request_id" });
        }
        if let Err(e) = redis_timestamp_millis(times[i], time_message) {
            proof {
                lemma_entries_error_extend(sids, times@, (i + 1) as nat, ids.len() as nat, time_message, unique_message);
            }
            return Err(e);
        }
        let mut j: usize = 0;
        while j < i
            invariant
                j <= i,
                i < ids.len(),
                sids == ids@.map_values(|s: &str| s@),
                sids[i as int] == id@,
                ids.len() == times.len(),
                sids[i as int].len() > 0,
                redis_exact(times@[i as int] as int),
                entries_error(sids, times@, i as nat, time_message, unique_message) is None,
                forall|k: int| 0 <= k < j ==> sids[k] != sids[i as int],
            decreases i - j,
        {
            assert(sids[j as int] == ids@[j as int]@);
            if str_eq(ids[j], id) {
                assert(sids[j as int] == sids[i as int]);
                assert(entry_error(sids, times@, i as int, time_message, unique_message) == Some(
                    unique_message,
                ));
                proof {
                    lemma_entries_error_extend(sids, times@, (i + 1) as nat, ids.len() as nat, time_message, unique_message);
                }
                return Err(AdmissionDataError { message: unique_message });
            }
            j = j + 1;
        }
        i = i + 1;
    }
    Ok(())
}

fn check_recent(
    requests: &Vec<ClientAdmissionRecentRequest>,
    time_message: &'static str,
    unique_message: &'static str,
) -> (r: Result<(), AdmissionDataError>)
    ensures
        match entries_error(
            recent_ids(requests@),
            recent_times(requests@),
            requests.len() as nat,
            time_message,
            unique_message,
        ) {
            Some(m) => r == Err::<(), AdmissionDataError>(AdmissionDataError { message: m }),
            None => r is Ok,
        },
{
    let mut ids: Vec<&str> = Vec::new();
    let mut times: Vec<i64> = Vec::new();
    let mut i: usize = 0;
    while i < requests.len()
        invariant
            i <= requests.len(),
            ids.len() == i,
            times.len() == i,
            ids@.map_values(|s: &str| s@) == recent_ids(requests@).take(i as int),
            times@ == recent_times(requests@).take(i as int),
        decreases requests.len() - i,
    {
        ids.push(requests[i].model_request_id.as_str());
        times.push(requests[i].started_at_millis);
        i = i + 1;
        assert(ids@.map_values(|s: &str| s@) == recent_ids(requests@).take(i as int));
        assert(times@ == recent_times(requests@).take(i as int));
    }
    assert(recent_ids(requests@).take(i as int) == recent_ids(requests@));
    assert(recent_times(requests@).take(i as int) == recent_times(requests@));
    check_entries(&ids, &times, time_message, unique_message)
}

fn check_running(
    requests: &Vec<ClientAdmissionRunningRequest>,
    time_message: &'static str,
    unique_message: &'static str,
) -> (r: Result<(), AdmissionDataError>)
    ensures
        match entries_error(
            running_ids(requests@),
            running_times(requests@),
            requests.len() as nat,
            time_message,
            unique_message,
        ) {
            Some(m) => r == Err::<(), AdmissionDataError>(AdmissionDataError { message: m }),
            None => r is Ok,
        },
{
    let mut ids: Vec<&str> = Vec::new();
    let mut times: Vec<i64> = Vec::new();
    let mut i: usize = 0;
    while i < requests.len()
        invariant
            i <= requests.len(),
            ids.len() == i,
            times.len() == i,
            ids@.map_values(|s: &str| s@) == running_ids(requests@).take(i as int),
            times@ == running_times(requests@).take(i as int),
        decreases requests.len() - i,
    {
        ids.push(requests[i].model_request_id.as_str());
        times.push(requests[i].expires_at_millis);
        i = i + 1;
        assert(ids@.map_values(|s: &str| s@) == running_ids(requests@).take(i as int));
        assert(times@ == running_times(requests@).take(i as int));
    }
    assert(running_ids(requests@).take(i as int) == running_ids(requests@));
    assert(running_times(requests@).take(i as int) == running_times(requests@));
    check_entries(&ids, &times, time_message, unique_message)
}

/// What is wrong with a recovery, in the order the checks run: the key, the
/// list lengths, the recent then the running requests, then the same for the
/// account when there is one.
pub open spec fn restore_error(q: ClientAdmissionRestore) -> Option<&'static str> {
    if q.client_api_key_ref@.len() == 0 {
        Some("client_api_key_ref")
    } else if !redis_exact(q.recent_requests@.len() as int) {
        Some("recent request count")
    } else if !redis_exact(q.running_requests@.len() as int) {
        Some("running request count")
    } else if entries_error(
        recent_ids(q.recent_requests@),
        recent_times(q.recent_requests@),
        q.recent_requests@.len(),
        "request start time",
        "recent request IDs must be unique",
    ) is Some {
        entries_error(
            recent_ids(q.recent_requests@),
            recent_times(q.recent_requests@),
            q.recent_requests@.len(),
            "request start time",
            "recent request IDs must be unique",
        )
    } else if entries_error(
        running_ids(q.running_requests@),
        running_times(q.running_requests@),
        q.running_requests@.len(),
        "request expiry time",
        "running request IDs must be unique",
    ) is Some {
        entries_error(
            running_ids(q.running_requests@),
            running_times(q.running_requests@),
            q.running_requests@.len(),
            "request expiry time",
            "running request IDs must be unique",
        )
    } else {
        match q.user {
            None => None,
            Some(u) => user_restore_error(u),
        }
    }
}

pub open spec fn user_restore_error(u: ClientAdmissionUserRestore) -> Option<&'static str> {
    if u.user_id@.len() == 0 {
        Some("user ID")
    } else if !redis_exact(u.recent_requests@.len() as int) {
        Some("user recent request count")
    } else if !redis_exact(u.running_requests@.len() as int) {
        Some("user running request count")
    } else if entries_error(
        recent_ids(u.recent_requests@),
        recent_times(u.recent_requests@),
        u.recent_requests@.len(),
        "user request start time",
        "user recent request IDs must be unique",
    ) is Some {
        entries_error(
            recent_ids(u.recent_requests@),
            recent_times(u.recent_requests@),
            u.recent_requests@.len(),
            "user request start time",
            "user recent request IDs must be unique",
        )
    } else {
        entries_error(
            running_ids(u.running_requests@),
            running_times(u.running_requests@),
            u.running_requests@.len(),
            "user request expiry time",
            "user running request IDs must be unique",
        )
    }
}

impl ClientAdmissionRestore {
    /// Checks a restore before its script runs: every list entry must be usable and ids unique.
    pub fn validate(&self) -> (r: Result<(), AdmissionDataError>)
        ensures
            match restore_error(*self) {
                Some(m) => r == Err::<(), AdmissionDataError>(AdmissionDataError { message: m }),
                None => r is Ok,
            },
    {
        if self.client_api_key_ref.as_str().is_empty() {
            return Err(AdmissionDataError { message: "client_api_key_ref" });
        }
        redis_len(self.recent_requests.len(), "recent request count")?;
        redis_len(self.running_requests.len(), "running request count")?;
        check_recent(&self.recent_requests, "request start time", "recent request IDs must be unique")?;
        check_running(
            &self.running_requests,
            "request expiry time",
            "running request IDs must be unique",
        )?;
        if let Some(user) = &self.user {
            if user.user_id.as_str().is_empty() {
                return Err(AdmissionDataError { message: "user ID" });
            }
            redis_len(user.recent_requests.len(), "user recent request count")?;
            redis_len(user.running_requests.len(), "user running request count")?;
            check_recent(
                &user.recent_requests,
                "user request start time",
                "user recent request IDs must be unique",
            )?;
            check_running(
                &user.running_requests,
                "user request expiry time",
                "user running request IDs must be unique",
            )?;
        }
        Ok(())
    }
}

/// Within a valid recovery no request id occurs twice in one list.
pub proof fn lemma_entries_unique(
    ids: Seq<Seq<char>>,
    times: Seq<i64>,
    n: nat,
    time_message: &'static str,
    unique_message: &'static str,
)
    requires
        n <= ids.len(),
        n <= times.len(),
        entries_error(ids, times, n, time_message, unique_message) is None,
    ensures
        forall|i: int, j: int| 0 <= j < i < n ==> ids[j] != ids[i],
        forall|i: int| 0 <= i < n ==> #[trigger] ids[i].len() > 0 && redis_exact(times[i] as int),
    decreases n,
{
    if n > 0 {
        lemma_entries_unique(ids, times, (n - 1) as nat, time_message, unique_message);
        assert(entry_error(ids, times, n - 1, time_message, unique_message) is None);
        assert forall|i: int| 0 <= i < n implies #[trigger] ids[i].len() > 0 && redis_exact(
            times[i] as int,
        ) by {
            if i < n - 1 {
                assert(ids[i].len() > 0 && redis_exact(times[i] as int));
            }
        }
    }
}

/// The recovery script's answer: 0 restored, -1 a start time after the
/// server's clock; anything else is unknown.
pub fn decode_restore_code(code: i64, restored_recent: u64, restored_running: u64) -> (r: Result<
    ClientAdmissionRestoreResult,
    AdmissionDataError,
>)
    ensures
        code == 0 ==> r == Ok::<ClientAdmissionRestoreResult, AdmissionDataError>(
            ClientAdmissionRestoreResult {
                restored_recent_requests: restored_recent,
                restored_running_requests: restored_running,
            },
        ),
        code == -1 ==> r == Err::<ClientAdmissionRestoreResult, AdmissionDataError>(
            AdmissionDataError { message: "request start time is after Redis server time" },
        ),
        code != 0 && code != -1 ==> r == Err::<ClientAdmissionRestoreResult, AdmissionDataError>(
            AdmissionDataError { message: "Redis returned an unknown recovery decision" },
        ),
{
    if code == -1 {
        return Err(AdmissionDataError { message: "request start time is after Redis server time" });
    }
    if code != 0 {
        return Err(AdmissionDataError { message: "Redis returned an unknown recovery decision" });
    }
    Ok(
        ClientAdmissionRestoreResult {
            restored_recent_requests: restored_recent,
            restored_running_requests: restored_running,
        },
    )
}

} // verus!
