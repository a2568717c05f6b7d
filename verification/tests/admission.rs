use gateway::admission::{
    decode_admission_code, decode_restore_code, lease_released, AdmissionDataError,
    AdmitScriptArgs, ClientAdmissionDecision, ClientAdmissionLimits, ClientAdmissionRecentRequest,
    ClientAdmissionRejection, ClientAdmissionRequest, ClientAdmissionRestore,
    ClientAdmissionRestoreResult, ClientAdmissionRunningRequest, ClientAdmissionUserRestore,
    UserAdmissionScope, MAX_REDIS_EXACT_INTEGER,
};
use gateway::policy::UserRateLimits;

fn request() -> ClientAdmissionRequest {
    ClientAdmissionRequest {
        model_request_id: "req_1".to_owned(),
        client_api_key_ref: "key_1".to_owned(),
        lease_ttl_nanos: 90_000_000_000,
        allow_concurrency_acquire: true,
        limits: ClientAdmissionLimits { max_concurrency: 4, requests_per_minute: 60 },
        user: Some(UserAdmissionScope {
            user_id: "user_1".to_owned(),
            limits: UserRateLimits { max_concurrency: None, requests_per_minute: Some(30) },
        }),
    }
}

fn error(message: &'static str) -> AdmissionDataError {
    AdmissionDataError { message }
}

#[test]
fn admission_script_gets_exact_integers_in_script_order() {
    let q = request();
    assert_eq!(q.validate(), Ok(()));
    assert_eq!(q.pre_script_decision(), None);
    assert_eq!(
        q.admit_script_args(),
        AdmitScriptArgs {
            lease_ttl_millis: 90_000,
            max_concurrency: 4,
            requests_per_minute: 60,
            max_exact_integer: MAX_REDIS_EXACT_INTEGER,
            allow_concurrency_acquire: 1,
            has_user: 1,
            user_max_concurrency: 0,
            user_requests_per_minute: 30,
        }
    );
    assert_eq!(MAX_REDIS_EXACT_INTEGER, (1u64 << 53) - 1);
}

#[test]
fn admission_request_names_its_first_problem() {
    let mut q = request();
    q.model_request_id.clear();
    assert_eq!(q.validate(), Err(error("model_request_id")));
    let mut q = request();
    q.lease_ttl_nanos = 0;
    assert_eq!(q.validate(), Err(error("lease TTL must be positive")));
    let mut q = request();
    q.lease_ttl_nanos = u128::MAX;
    assert_eq!(q.validate(), Err(error("lease TTL is too large")));
    let mut q = request();
    q.lease_ttl_nanos = (u128::from(MAX_REDIS_EXACT_INTEGER) + 1) * 1_000_000;
    assert_eq!(q.validate(), Err(error("lease TTL")));
    let mut q = request();
    q.limits.requests_per_minute = MAX_REDIS_EXACT_INTEGER + 1;
    assert_eq!(q.validate(), Err(error("requests per minute")));
    let mut q = request();
    q.user = Some(UserAdmissionScope {
        user_id: String::new(),
        limits: UserRateLimits { max_concurrency: None, requests_per_minute: None },
    });
    assert_eq!(q.validate(), Err(error("user ID")));
}

#[test]
fn zero_account_limits_refuse_before_any_script_runs() {
    let mut q = request();
    q.user = Some(UserAdmissionScope {
        user_id: "user_1".to_owned(),
        limits: UserRateLimits { max_concurrency: Some(0), requests_per_minute: Some(0) },
    });
    assert_eq!(
        q.pre_script_decision(),
        Some(ClientAdmissionDecision::Rejected(ClientAdmissionRejection::RateLimited))
    );
    q.user = Some(UserAdmissionScope {
        user_id: "user_1".to_owned(),
        limits: UserRateLimits { max_concurrency: Some(0), requests_per_minute: None },
    });
    assert_eq!(
        q.pre_script_decision(),
        Some(ClientAdmissionDecision::Rejected(ClientAdmissionRejection::ConcurrencyLimited))
    );
}

#[test]
fn script_answers_are_decoded_or_refused() {
    assert_eq!(decode_admission_code(0), Ok(ClientAdmissionDecision::Granted));
    assert_eq!(
        decode_admission_code(1),
        Ok(ClientAdmissionDecision::Rejected(ClientAdmissionRejection::RateLimited))
    );
    assert_eq!(
        decode_admission_code(2),
        Ok(ClientAdmissionDecision::Rejected(ClientAdmissionRejection::ConcurrencyLimited))
    );
    assert_eq!(decode_admission_code(3), Err(error("lease expiry is outside the supported range")));
    assert_eq!(decode_admission_code(7), Err(error("Redis returned an unknown admission decision")));
    assert!(lease_released(1));
    assert!(!lease_released(0));
    assert_eq!(
        decode_restore_code(0, 2, 1),
        Ok(ClientAdmissionRestoreResult { restored_recent_requests: 2, restored_running_requests: 1 })
    );
    assert_eq!(decode_restore_code(-1, 0, 0), Err(error("request start time is after Redis server time")));
    assert_eq!(decode_restore_code(5, 0, 0), Err(error("Redis returned an unknown recovery decision")));
}

fn recent(id: &str, at: i64) -> ClientAdmissionRecentRequest {
    ClientAdmissionRecentRequest { model_request_id: id.to_owned(), started_at_millis: at }
}

fn running(id: &str, at: i64) -> ClientAdmissionRunningRequest {
    ClientAdmissionRunningRequest { model_request_id: id.to_owned(), expires_at_millis: at }
}

#[test]
fn restored_state_needs_unique_ids_and_exact_instants() {
    let restore = ClientAdmissionRestore {
        client_api_key_ref: "key_1".to_owned(),
        recent_requests: vec![recent("a", 1_700_000_000_000), recent("b", 1_700_000_000_500)],
        running_requests: vec![running("b", 1_700_000_090_000)],
        user: Some(ClientAdmissionUserRestore {
            user_id: "user_1".to_owned(),
            recent_requests: vec![recent("a", 1_700_000_000_000)],
            running_requests: Vec::new(),
        }),
    };
    assert_eq!(restore.validate(), Ok(()));
    let mut duplicate = restore.clone();
    duplicate.recent_requests.push(recent("a", 1));
    assert_eq!(duplicate.validate(), Err(error("recent request IDs must be unique")));
    let mut negative = restore.clone();
    negative.running_requests = vec![running("c", -1)];
    assert_eq!(negative.validate(), Err(error("request expiry time")));
    let mut user_duplicate = restore;
    if let Some(user) = user_duplicate.user.as_mut() {
        user.running_requests = vec![running("x", 5), running("x", 6)];
    }
    assert_eq!(user_duplicate.validate(), Err(error("user running request IDs must be unique")));
}
