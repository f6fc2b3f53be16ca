use auth_core::claims::{UserJwtPayload, UserRole};
use auth_core::error::ApiError;
use auth_core::revocation::{
    check_invalidation, invalidation_key, is_under_invalidation, parse_record_json, record_invalidation,
    record_json, InvalidatedResult, InvalidationData, InvalidationReason, GRACE_PERIOD, INVALIDATION_TTL,
};
use auth_core::cache::MemoryCache;
use std::collections::HashMap;

fn claims_issued_at(iat: u64) -> UserJwtPayload {
    UserJwtPayload::new("subject-1".to_string(), "u".to_string(), "e".to_string(), Some(UserRole::Common), iat)
}

#[test]
fn record_text_is_exact_json() {
    let d = InvalidationData::new(1234, InvalidationReason::UserDeleted);
    assert_eq!(record_json(&d), "{\"date\":1234,\"reason\":\"UserDeleted\"}");
    assert_eq!(parse_record_json("{\"date\":1234,\"reason\":\"UserDeleted\"}"), Some(d));
}

#[test]
fn record_round_trip_for_every_reason() {
    let reasons = [
        InvalidationReason::PasswordChanged,
        InvalidationReason::UserRequest,
        InvalidationReason::TooManyAuthFailures,
        InvalidationReason::UserDeleted,
        InvalidationReason::PermissionChanged,
    ];
    for r in reasons.iter() {
        for date in [0u64, 9, 10, 1_700_000_000, u64::MAX].iter() {
            let d = InvalidationData::new(*date, *r);
            assert_eq!(parse_record_json(&record_json(&d)), Some(d));
        }
    }
}

#[test]
fn record_reader_refuses_other_text() {
    assert_eq!(parse_record_json("{\"date\":1,\"reason\":\"Other\"}"), None);
    assert_eq!(parse_record_json("{\"date\":,\"reason\":\"UserDeleted\"}"), None);
    assert_eq!(parse_record_json("{\"date\":1,\"reason\":\"UserDeleted\"} "), None);
    assert_eq!(parse_record_json(""), None);
}

#[test]
fn invalidation_write_has_key_record_and_ttl() {
    let w = record_invalidation("abc", InvalidationReason::PasswordChanged, 77);
    assert_eq!(w.key, "invalidation/abc");
    assert_eq!(invalidation_key("abc"), "invalidation/abc");
    assert_eq!(w.value, "{\"date\":77,\"reason\":\"PasswordChanged\"}");
    assert_eq!(w.ttl, 3630);
    assert_eq!(INVALIDATION_TTL, 3630);
}

#[test]
fn revocation_after_issue_refuses_token() {
    let t0 = 1_000_000;
    let t1 = t0 + 5;
    let w = record_invalidation("subject-1", InvalidationReason::PermissionChanged, t1);
    for now in [t1, t1 + 100, t0 + 3599].iter() {
        let c = claims_issued_at(t0);
        assert!(*now < c.exp);
        assert_eq!(
            check_invalidation(c, Ok(Some(w.value.clone()))),
            Err(ApiError::UserUnderTokenInvalidation(InvalidationReason::PermissionChanged))
        );
    }
}

#[test]
fn token_within_grace_is_still_refused() {
    let t1 = 2_000_000;
    let w = record_invalidation("subject-1", InvalidationReason::UserRequest, t1);
    let c = claims_issued_at(t1 + GRACE_PERIOD);
    assert_eq!(
        check_invalidation(c, Ok(Some(w.value.clone()))),
        Err(ApiError::UserUnderTokenInvalidation(InvalidationReason::UserRequest))
    );
}

#[test]
fn token_after_grace_is_accepted() {
    let t1 = 2_000_000;
    let w = record_invalidation("subject-1", InvalidationReason::UserRequest, t1);
    let c = claims_issued_at(t1 + GRACE_PERIOD + 1);
    assert_eq!(check_invalidation(c.clone(), Ok(Some(w.value))), Ok(c));
}

#[test]
fn no_record_accepts_and_cache_fault_fails_closed() {
    let c = claims_issued_at(5);
    assert_eq!(check_invalidation(c.clone(), Ok(None)), Ok(c.clone()));
    assert_eq!(
        check_invalidation(c.clone(), Err(ApiError::InternalServerError)),
        Err(ApiError::InternalServerError)
    );
    assert_eq!(check_invalidation(c, Ok(Some("garbage".to_string()))), Err(ApiError::InternalServerError));
}

#[test]
fn later_invalidation_replaces_earlier() {
    let mut cache: HashMap<String, String> = HashMap::new();
    let w1 = record_invalidation("s", InvalidationReason::PasswordChanged, 100);
    cache.insert(w1.key, w1.value);
    let w2 = record_invalidation("s", InvalidationReason::UserDeleted, 101);
    cache.insert(w2.key, w2.value);
    let got = is_under_invalidation(cache.get("invalidation/s").cloned());
    assert_eq!(
        got,
        Ok(InvalidatedResult::Is(InvalidationData { date: 101, reason: InvalidationReason::UserDeleted }))
    );
    assert_eq!(cache.len(), 1);
}

#[test]
fn lookup_without_record_is_not() {
    assert_eq!(is_under_invalidation(None), Ok(InvalidatedResult::Not));
}


fn store(cache: &mut MemoryCache, subject: &str, reason: InvalidationReason, now: u64) {
    let w = record_invalidation(subject, reason, now);
    cache.set_ttl(w.key, w.value, w.ttl, now);
}

#[test]
fn cache_keeps_records_until_their_ttl() {
    let mut cache = MemoryCache::new();
    store(&mut cache, "s", InvalidationReason::PasswordChanged, 1000);
    assert!(cache.get("invalidation/s", 1000).is_some());
    assert!(cache.get("invalidation/s", 1000 + 3629).is_some());
    assert_eq!(cache.get("invalidation/s", 1000 + 3630), None);
    assert_eq!(cache.get("invalidation/t", 1000), None);
}

#[test]
fn cache_later_write_wins() {
    let mut cache = MemoryCache::new();
    store(&mut cache, "s", InvalidationReason::PasswordChanged, 100);
    store(&mut cache, "s", InvalidationReason::TooManyAuthFailures, 101);
    assert_eq!(
        is_under_invalidation(cache.get("invalidation/s", 102)),
        Ok(InvalidatedResult::Is(InvalidationData { date: 101, reason: InvalidationReason::TooManyAuthFailures }))
    );
}

#[test]
fn revocation_window_through_the_cache() {
    let mut cache = MemoryCache::new();
    let t0 = 50_000;
    let t1 = t0 + 1;
    store(&mut cache, "subject-1", InvalidationReason::UserDeleted, t1);
    let key = invalidation_key("subject-1");
    for now in [t1, t1 + 1000, t0 + 3599].iter() {
        assert_eq!(
            check_invalidation(claims_issued_at(t0), Ok(cache.get(&key, *now))),
            Err(ApiError::UserUnderTokenInvalidation(InvalidationReason::UserDeleted))
        );
    }
    let later = claims_issued_at(t1 + GRACE_PERIOD + 1);
    assert_eq!(check_invalidation(later.clone(), Ok(cache.get(&key, t1 + 20))), Ok(later));
}

#[test]
fn record_reader_takes_only_the_written_spelling() {
    assert_eq!(parse_record_json("{\"date\":007,\"reason\":\"UserDeleted\"}"), None);
    assert_eq!(parse_record_json("{\"date\":0,\"reason\":\"UserDeleted\"}"), Some(InvalidationData::new(0, InvalidationReason::UserDeleted)));
    assert_eq!(parse_record_json("{\"date\":1,\"reason\":\"User\\u0044eleted\"}"), None);
}
