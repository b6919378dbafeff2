use blinks::api_error::ApiError;
use blinks::rate_limit::bearer_token;
use blinks::rate_limit::limit_response;
use blinks::rate_limit::rate_limit;
use blinks::rate_limit::scope_name;
use blinks::rate_limit::Claims;
use blinks::rate_limit::EndpointRateLimitConfig;
use blinks::rate_limit::Gate;
use blinks::rate_limit::RateLimitConfig;
use blinks::rate_limit::RateLimitDecision;
use blinks::rate_limit::RateLimitScope;
use blinks::rate_limit::RateLimitService;
use blinks::rate_limit::RequestFacts;
use blinks::rate_limit::Session;
use blinks::rate_limit::StoreReply;

const START: u64 = 1_700_000_000_000;

fn service(window_ms: u64, max_requests: u32) -> RateLimitService {
    RateLimitService::new(RateLimitConfig {
        window_ms,
        max_requests,
        scope: RateLimitScope::Ip,
        endpoint_limits: vec![],
        bypass_admin: true,
    })
}

fn check(service: &mut RateLimitService, key: &str, at: u64) -> RateLimitDecision {
    service.check_rate_limit(key, "/test", &RateLimitScope::Ip, None, START + at)
}

#[test]
fn test_rate_limit_enforcement() {
    let mut limiter = service(1000, 2);
    let key = "127.0.0.1";
    let decision1 = check(&mut limiter, key, 0);
    assert!(decision1.allowed);
    assert_eq!(decision1.limit, 2);
    assert_eq!(decision1.remaining, 1);
    let decision2 = check(&mut limiter, key, 1);
    assert!(decision2.allowed);
    assert_eq!(decision2.remaining, 0);
    let decision3 = check(&mut limiter, key, 2);
    assert!(!decision3.allowed);
}

#[test]
fn test_rate_limit_expiry() {
    let mut limiter = service(200, 1);
    let key = "127.0.0.1";
    assert!(check(&mut limiter, key, 0).allowed);
    assert!(!check(&mut limiter, key, 0).allowed);
    assert!(check(&mut limiter, key, 250).allowed);
}

#[test]
fn test_independent_limits() {
    let mut limiter = service(1000, 1);
    let key1 = "127.0.0.1";
    let key2 = "192.168.1.1";
    assert!(check(&mut limiter, key1, 0).allowed);
    assert!(!check(&mut limiter, key1, 1).allowed);
    assert!(check(&mut limiter, key2, 2).allowed);
}

#[test]
fn test_sliding_window_burst() {
    let mut limiter = service(300, 2);
    let key = "127.0.0.1";
    assert!(check(&mut limiter, key, 0).allowed);
    assert!(check(&mut limiter, key, 100).allowed);
    assert!(!check(&mut limiter, key, 120).allowed);
    assert!(check(&mut limiter, key, 100 + 250).allowed);
    assert!(!check(&mut limiter, key, 360).allowed);
}

#[test]
fn limiter_reset_is_rounded_up() {
    let mut limiter = service(1500, 1);
    let first = check(&mut limiter, "a", 0);
    assert_eq!(first.reset_after_seconds, 2);
    let later = check(&mut limiter, "a", 501);
    assert_eq!(later.reset_after_seconds, 1);
    let never = check(&mut service(2_000, 0), "a", 0);
    assert!(!never.allowed);
    assert_eq!(never.reset_after_seconds, 2);
}

#[test]
fn limiter_never_grants_more_than_allowed() {
    let mut limiter = service(100, 3);
    let mut granted: Vec<u64> = vec![];
    for at in 0..1_000u64 {
        if at % 7 < 4 && check(&mut limiter, "a", at).allowed {
            granted.push(at);
        }
        let recent = granted.iter().filter(|t| **t + 100 > at).count();
        assert!(recent <= 3);
    }
    assert!(granted.len() >= 27);
}

#[test]
fn limiter_uses_the_store_first() {
    let mut limiter = service(1000, 5);
    let reply = StoreReply { allowed: 1, count: 2, oldest_ts: START };
    let decision =
        limiter.check_rate_limit("a", "/test", &RateLimitScope::User, Some(reply), START + 400);
    assert_eq!(
        decision,
        RateLimitDecision { allowed: true, limit: 5, remaining: 3, reset_after_seconds: 1 }
    );
    let full = StoreReply { allowed: 0, count: 9, oldest_ts: START };
    let refused =
        limiter.check_rate_limit("a", "/test", &RateLimitScope::User, Some(full), START + 5_000);
    assert_eq!(
        refused,
        RateLimitDecision { allowed: false, limit: 5, remaining: 0, reset_after_seconds: 0 }
    );
    let empty = StoreReply { allowed: 0, count: 0, oldest_ts: 0 };
    let none =
        limiter.check_rate_limit("a", "/test", &RateLimitScope::User, Some(empty), START + 5_000);
    assert_eq!(none.reset_after_seconds, 1);
}

#[test]
fn limiter_plans_by_longest_prefix() {
    let limiter = RateLimitService::new(RateLimitConfig {
        window_ms: 60_000,
        max_requests: 100,
        scope: RateLimitScope::ApiKey,
        endpoint_limits: vec![
            EndpointRateLimitConfig {
                path_prefix: "/api".to_string(),
                max_requests: 50,
                window_ms: 1_000,
            },
            EndpointRateLimitConfig {
                path_prefix: "/api/payments".to_string(),
                max_requests: 10,
                window_ms: 2_000,
            },
            EndpointRateLimitConfig {
                path_prefix: "/api/payments".to_string(),
                max_requests: 11,
                window_ms: 3_000,
            },
        ],
        bypass_admin: false,
    });
    let plan = limiter.plan("key", "/api/payments/7", &RateLimitScope::ApiKey);
    assert_eq!(plan.key, "rate_limit:api_key:_api_payments:key");
    assert_eq!(plan.max_requests, 11);
    assert_eq!(plan.window_ms, 3_000);
    let plan = limiter.plan("key", "/api/x", &RateLimitScope::Ip);
    assert_eq!(plan.key, "rate_limit:ip:_api:key");
    assert_eq!(plan.max_requests, 50);
    let plan = limiter.plan("key", "/other", &RateLimitScope::User);
    assert_eq!(plan.key, "rate_limit:user:global:key");
    assert_eq!(plan.window_ms, 60_000);
    assert!(limiter.endpoint_limit("/").is_none());
    assert_eq!(scope_name(&RateLimitScope::ApiKey), "api_key");
}

fn facts(session: Option<(&str, bool)>, claims: Option<(&str, bool)>) -> RequestFacts {
    RequestFacts {
        session: session
            .map(|(id, is_admin)| Session { user_id: id.to_string(), is_admin }),
        claims: claims.map(|(sub, is_admin)| Claims { sub: sub.to_string(), is_admin }),
        api_key: Some("k1".to_string()),
        ip: "10.0.0.1".to_string(),
    }
}

fn gate(scope: RateLimitScope, bypass_admin: bool, facts: &RequestFacts) -> Option<String> {
    let config = RateLimitConfig {
        window_ms: 1,
        max_requests: 1,
        scope,
        endpoint_limits: vec![],
        bypass_admin,
    };
    match rate_limit(&config, facts) {
        Gate::Bypass => None,
        Gate::Limited(key) => Some(key),
    }
}

#[test]
fn gate_lets_administrators_through() {
    let admin = facts(Some(("u1", true)), None);
    assert_eq!(gate(RateLimitScope::Ip, true, &admin), None);
    assert_eq!(gate(RateLimitScope::Ip, false, &admin), Some("10.0.0.1".to_string()));
    let token_admin = facts(None, Some(("u2", true)));
    assert_eq!(gate(RateLimitScope::Ip, true, &token_admin), None);
    let mixed = facts(Some(("u1", false)), Some(("u2", true)));
    assert_eq!(gate(RateLimitScope::User, true, &mixed), Some("u1".to_string()));
}

#[test]
fn gate_picks_the_key_by_scope() {
    let token = facts(None, Some(("u2", false)));
    assert_eq!(gate(RateLimitScope::User, true, &token), Some("u2".to_string()));
    assert_eq!(gate(RateLimitScope::ApiKey, true, &token), Some("k1".to_string()));
    let mut nobody = facts(None, None);
    assert_eq!(gate(RateLimitScope::User, true, &nobody), Some("10.0.0.1".to_string()));
    nobody.api_key = None;
    assert_eq!(gate(RateLimitScope::ApiKey, true, &nobody), Some("10.0.0.1".to_string()));
}

#[test]
fn bearer_tokens_are_stripped() {
    assert_eq!(bearer_token("Bearer abc.def"), Some("abc.def".to_string()));
    assert_eq!(bearer_token("Bearer "), Some("".to_string()));
    assert_eq!(bearer_token("bearer abc"), None);
    assert_eq!(bearer_token("Bear"), None);
}

#[test]
fn limit_headers_and_refusal() {
    let headers = limit_response(&RateLimitDecision {
        allowed: true,
        limit: 100,
        remaining: 0,
        reset_after_seconds: u64::MAX,
    })
    .unwrap();
    assert_eq!(headers.limit, "100");
    assert_eq!(headers.remaining, "0");
    assert_eq!(headers.reset, "18446744073709551615");
    match limit_response(&RateLimitDecision {
        allowed: false,
        limit: 1,
        remaining: 0,
        reset_after_seconds: 1,
    }) {
        Err(ApiError::RateLimit(message)) => assert_eq!(message, "Too many requests"),
        _ => panic!("expected a refusal"),
    }
}

#[test]
fn limiter_with_an_empty_window_counts_nothing() {
    let mut limiter = service(0, 1);
    assert!(check(&mut limiter, "127.0.0.1", 0).allowed);
    assert!(check(&mut limiter, "127.0.0.1", 0).allowed);
    assert!(check(&mut limiter, "127.0.0.1", 1).allowed);
}
