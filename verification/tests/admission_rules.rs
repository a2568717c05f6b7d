use gateway::admission::{
    AdmitScriptArgs, ClientAdmissionRecentRequest, ClientAdmissionRestore,
    ClientAdmissionRunningRequest, ClientAdmissionUserRestore, MAX_REDIS_EXACT_INTEGER,
};
use gateway::admission_rules::{
    admit_in_buckets, release_in_buckets, restore_in_buckets, AdmissionBuckets,
};

const NOW: i64 = 1_700_000_000_000;

fn empty() -> AdmissionBuckets {
    AdmissionBuckets { active: Vec::new(), requests: Vec::new() }
}

fn args(max_concurrency: u64, requests_per_minute: u64) -> AdmitScriptArgs {
    AdmitScriptArgs {
        lease_ttl_millis: 90_000,
        max_concurrency,
        requests_per_minute,
        max_exact_integer: MAX_REDIS_EXACT_INTEGER,
        allow_concurrency_acquire: 1,
        has_user: 0,
        user_max_concurrency: 0,
        user_requests_per_minute: 0,
    }
}

fn ids(v: &[(String, i64)]) -> Vec<&str> {
    v.iter().map(|e| e.0.as_str()).collect()
}

#[test]
fn admit_grants_and_records_lease_and_start() {
    let mut key = empty();
    let mut user = empty();
    let code = admit_in_buckets(&mut key, &mut user, &args(2, 10), "req_1", NOW);
    assert_eq!(code, 0);
    assert_eq!(key.active, vec![("req_1".to_owned(), NOW + 90_000)]);
    assert_eq!(key.requests, vec![("req_1".to_owned(), NOW)]);
    assert!(user.active.is_empty());
    assert!(user.requests.is_empty());
}

#[test]
fn admit_refuses_when_rate_is_reached() {
    let mut key = empty();
    let mut user = empty();
    assert_eq!(admit_in_buckets(&mut key, &mut user, &args(0, 2), "a", NOW), 0);
    assert_eq!(admit_in_buckets(&mut key, &mut user, &args(0, 2), "b", NOW + 1), 0);
    assert_eq!(admit_in_buckets(&mut key, &mut user, &args(0, 2), "c", NOW + 2), 1);
    assert_eq!(ids(&key.requests), vec!["a", "b"]);
}

#[test]
fn admit_forgets_requests_older_than_a_minute() {
    let mut key = empty();
    let mut user = empty();
    assert_eq!(admit_in_buckets(&mut key, &mut user, &args(0, 1), "a", NOW), 0);
    assert_eq!(admit_in_buckets(&mut key, &mut user, &args(0, 1), "b", NOW + 60_000), 0);
    assert_eq!(ids(&key.requests), vec!["b"]);
}

#[test]
fn admit_refuses_when_concurrency_is_reached() {
    let mut key = empty();
    let mut user = empty();
    assert_eq!(admit_in_buckets(&mut key, &mut user, &args(1, 0), "a", NOW), 0);
    assert_eq!(admit_in_buckets(&mut key, &mut user, &args(1, 0), "b", NOW + 1), 2);
    assert_eq!(ids(&key.active), vec!["a"]);
}

#[test]
fn admit_without_acquire_is_refused_for_concurrency() {
    let mut key = empty();
    let mut user = empty();
    let mut a = args(0, 0);
    a.allow_concurrency_acquire = 0;
    assert_eq!(admit_in_buckets(&mut key, &mut user, &a, "a", NOW), 2);
    assert!(key.active.is_empty());
}

#[test]
fn admit_refuses_lease_beyond_exact_range() {
    let mut key = empty();
    let mut user = empty();
    let mut a = args(0, 0);
    a.max_exact_integer = (NOW + 1_000) as u64;
    assert_eq!(admit_in_buckets(&mut key, &mut user, &a, "a", NOW), 3);
    assert!(key.requests.is_empty());
}

#[test]
fn admit_counts_the_account_too() {
    let mut key = empty();
    let mut user = empty();
    let mut a = args(0, 0);
    a.has_user = 1;
    a.user_max_concurrency = 1;
    assert_eq!(admit_in_buckets(&mut key, &mut user, &a, "a", NOW), 0);
    assert_eq!(ids(&user.active), vec!["a"]);
    assert_eq!(admit_in_buckets(&mut key, &mut user, &a, "b", NOW + 1), 2);
    assert_eq!(ids(&key.active), vec!["a"]);
}

#[test]
fn release_frees_the_lease() {
    let mut key = empty();
    let mut user = empty();
    assert_eq!(admit_in_buckets(&mut key, &mut user, &args(1, 0), "a", NOW), 0);
    assert!(release_in_buckets(&mut key, &mut user, true, "a"));
    assert!(key.active.is_empty());
    assert_eq!(ids(&key.requests), vec!["a"]);
    assert!(!release_in_buckets(&mut key, &mut user, false, "a"));
    assert_eq!(admit_in_buckets(&mut key, &mut user, &args(1, 0), "b", NOW + 1), 0);
}

fn restore(recent: Vec<(&str, i64)>, running: Vec<(&str, i64)>) -> ClientAdmissionRestore {
    ClientAdmissionRestore {
        client_api_key_ref: "key_1".to_owned(),
        recent_requests: recent
            .into_iter()
            .map(|(id, at)| ClientAdmissionRecentRequest {
                model_request_id: id.to_owned(),
                started_at_millis: at,
            })
            .collect(),
        running_requests: running
            .into_iter()
            .map(|(id, at)| ClientAdmissionRunningRequest {
                model_request_id: id.to_owned(),
                expires_at_millis: at,
            })
            .collect(),
        user: None,
    }
}

#[test]
fn restore_adds_new_unexpired_entries() {
    let mut key = empty();
    let mut user = empty();
    assert_eq!(admit_in_buckets(&mut key, &mut user, &args(0, 0), "a", NOW), 0);
    let r = restore(
        vec![("a", NOW), ("b", NOW - 1_000), ("old", NOW - 60_000)],
        vec![("a", NOW + 5), ("c", NOW + 10), ("gone", NOW)],
    );
    let result = restore_in_buckets(&mut key, &mut user, &r, NOW).unwrap();
    assert_eq!(result.restored_recent_requests, 1);
    assert_eq!(result.restored_running_requests, 1);
    assert_eq!(ids(&key.requests), vec!["a", "b"]);
    assert_eq!(ids(&key.active), vec!["a", "c"]);
    assert_eq!(key.active[0].1, NOW + 90_000);
}

#[test]
fn restore_refuses_requests_from_the_future() {
    let mut key = empty();
    let mut user = empty();
    let r = restore(vec![("a", NOW + 1)], vec![]);
    assert_eq!(restore_in_buckets(&mut key, &mut user, &r, NOW), None);
    assert!(key.requests.is_empty());
}

#[test]
fn restore_fills_the_account() {
    let mut key = empty();
    let mut user = empty();
    let mut r = restore(vec![], vec![]);
    r.user = Some(ClientAdmissionUserRestore {
        user_id: "user_1".to_owned(),
        recent_requests: vec![ClientAdmissionRecentRequest {
            model_request_id: "u".to_owned(),
            started_at_millis: NOW,
        }],
        running_requests: vec![ClientAdmissionRunningRequest {
            model_request_id: "u".to_owned(),
            expires_at_millis: NOW + 1,
        }],
    });
    let result = restore_in_buckets(&mut key, &mut user, &r, NOW).unwrap();
    assert_eq!(result.restored_recent_requests, 0);
    assert_eq!(result.restored_running_requests, 0);
    assert_eq!(ids(&user.requests), vec!["u"]);
    assert_eq!(ids(&user.active), vec!["u"]);
}

#[test]
fn release_frees_the_account_lease_too() {
    let mut key = empty();
    let mut user = empty();
    let mut a = args(0, 0);
    a.has_user = 1;
    assert_eq!(admit_in_buckets(&mut key, &mut user, &a, "a", NOW), 0);
    assert_eq!(admit_in_buckets(&mut key, &mut user, &a, "b", NOW + 1), 0);
    assert!(release_in_buckets(&mut key, &mut user, true, "a"));
    assert_eq!(ids(&user.active), vec!["b"]);
    assert_eq!(ids(&user.requests), vec!["a", "b"]);
    assert!(release_in_buckets(&mut key, &mut user, false, "b"));
    assert_eq!(ids(&user.active), vec!["b"]);
}
