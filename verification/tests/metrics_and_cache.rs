use blinks::api_error::ApiError;
use blinks::cache::invalidate_tag;
use blinks::cache::CacheCounters;
use blinks::cache::CacheService;
use blinks::cache::GetReply;
use blinks::cache::PatternScan;
use blinks::cache::ScanStep;
use blinks::cache::WriteReply;
use blinks::metrics::AlertSeverity;
use blinks::metrics::MetricsService;
use blinks::metrics::ThresholdReading;

#[test]
fn test_normalize_path() {
    assert_eq!(
        MetricsService::normalize_path("/users/123e4567-e89b-12d3-a456-426614174000/profile"),
        "/users/:id/profile"
    );
    assert_eq!(MetricsService::normalize_path("/orders/12345"), "/orders/:id");
    assert_eq!(MetricsService::normalize_path("/health"), "/health");
}

#[test]
fn adjacent_numbers_in_a_path() {
    assert_eq!(MetricsService::normalize_path("/users/12/34"), "/users/:id/:id");
    assert_eq!(MetricsService::normalize_path("/1/2/3/4/5"), "/:id/:id/:id/:id/:id");
    assert_eq!(MetricsService::normalize_path("/a/12/34/b/5/"), "/a/:id/:id/b/:id/");
    assert_eq!(
        MetricsService::normalize_path("/7/123e4567-e89b-12d3-a456-426614174000/8"),
        "/:id/:id/:id"
    );
    assert_eq!(MetricsService::normalize_path("/v1/12a/34"), "/v1/12a/:id");
}

#[test]
fn labels_of_requests() {
    let ok = MetricsService::request_labels("/orders/1/items", 200);
    assert_eq!(ok.path, "/orders/:id/items");
    assert_eq!(ok.status, "200");
    assert_eq!(ok.error_type, None);
    assert_eq!(MetricsService::error_type(399), None);
    assert_eq!(MetricsService::error_type(400), Some("client_error"));
    assert_eq!(MetricsService::error_type(499), Some("client_error"));
    assert_eq!(MetricsService::error_type(500), Some("server_error"));
    let limited = MetricsService::rate_limit_labels(false, "/orders/9");
    assert_eq!(limited.outcome, "blocked");
    assert_eq!(limited.path, "/orders/:id");
    assert_eq!(MetricsService::rate_limit_labels(true, "/").outcome, "allowed");
}

#[test]
fn uptime_and_counts() {
    assert_eq!(MetricsService::uptime(100, 160), 60);
    assert_eq!(MetricsService::uptime(160, 100), 0);
    assert_eq!(MetricsService::total_count(&vec![]), 0);
    assert_eq!(MetricsService::total_count(&vec![1, 2, 39]), 42);
    assert!(MetricsService::counts_fit(&vec![u64::MAX, 0]));
    assert!(!MetricsService::counts_fit(&vec![u64::MAX, 1]));
}

#[test]
fn alerts_by_severity() {
    let service = MetricsService::new();
    assert_eq!(service.watched, vec!["error_rate", "request_duration_p99"]);
    let calm = ThresholdReading { at_warning: false, at_critical: false };
    let warm = ThresholdReading { at_warning: true, at_critical: false };
    let hot = ThresholdReading { at_warning: true, at_critical: true };
    assert!(service.check_alerts(&vec![calm, hot]).is_empty());
    let warning = service.check_alerts(&vec![warm, hot]);
    assert_eq!(warning.len(), 1);
    assert_eq!(warning[0].severity, AlertSeverity::Warning);
    assert_eq!(warning[0].title, "Elevated Error Rate");
    assert_eq!(warning[0].index, 0);
    let critical = service.check_alerts(&vec![hot, calm]);
    assert_eq!(critical[0].severity, AlertSeverity::Critical);
    assert_eq!(critical[0].title, "High Error Rate");
}

#[test]
fn cache_keys() {
    assert_eq!(CacheService::payment_key("p1"), "payment:p1");
    assert_eq!(CacheService::profile_key("u1"), "profile:u1");
    assert_eq!(CacheService::dispute_key("d1"), "dispute:d1");
    assert_eq!(CacheService::tag_key("t"), "tag:t");
    let plan = CacheService::invalidate_payment("p1");
    assert_eq!(plan.key, "payment:p1");
    assert_eq!(plan.pattern, "dispute:payment:p1:*");
}

#[test]
fn cache_lifetimes() {
    let cache = CacheService { default_ttl_seconds: 300, hot_data_ttl_seconds: 30 };
    assert_eq!(cache.ttl(None), 300);
    assert_eq!(cache.ttl(Some(5)), 5);
    assert_eq!(cache.hot_ttl(), Some(30));
    let tags = vec!["a".to_string(), "b".to_string()];
    let registrations = cache.tag_registrations(None, &tags);
    assert_eq!(registrations.len(), 2);
    assert_eq!(registrations[1].tag_key, "tag:b");
    assert_eq!(registrations[1].ttl_seconds, 360);
    assert!(cache.tag_registrations(Some(u64::MAX), &vec![]).is_empty());
}

#[test]
fn cache_reads_are_counted() {
    let mut counters = CacheCounters::new();
    for reply in [GetReply::Found, GetReply::Missing, GetReply::Found, GetReply::Failed] {
        counters.record(&reply);
    }
    counters.record(&GetReply::Unavailable);
    assert_eq!(counters, CacheCounters { hits: 2, misses: 1, errors: 1 });
    assert_eq!(counters.total_requests(), 3);
    assert_eq!(GetReply::Found.outcome(), "hit");
    assert_eq!(GetReply::Missing.outcome(), "miss");
    assert_eq!(GetReply::Failed.outcome(), "error");
    assert_eq!(GetReply::Unavailable.outcome(), "unavailable");
    assert!(matches!(GetReply::Failed.result(), Err(ApiError::InternalServerError)));
    assert!(matches!(GetReply::Found.result(), Ok(true)));
    assert!(matches!(GetReply::Missing.result(), Ok(false)));
    assert_eq!(WriteReply::Done.outcome(), "ok");
    assert!(WriteReply::Unavailable.result().is_ok());
    assert!(WriteReply::Failed.result().is_err());
}

#[test]
fn cache_scan_deletes_page_by_page() {
    let (mut scan, first) = PatternScan::start();
    assert!(matches!(first, ScanStep::Scan(0)));
    match scan.on_page(17, vec!["a".to_string(), "b".to_string()]) {
        ScanStep::Delete(keys) => assert_eq!(keys, vec!["a", "b"]),
        _ => panic!("expected a deletion"),
    }
    assert!(matches!(scan.on_deleted(), ScanStep::Scan(17)));
    assert!(matches!(scan.on_page(9, vec![]), ScanStep::Scan(9)));
    assert!(matches!(scan.on_page(0, vec!["c".to_string()]), ScanStep::Delete(_)));
    assert!(matches!(scan.on_deleted(), ScanStep::Finish(3)));
    let (mut none, _) = PatternScan::start();
    assert!(matches!(none.on_page(0, vec![]), ScanStep::Finish(0)));
}

#[test]
fn cache_tag_invalidation() {
    let some = invalidate_tag("x", vec!["a".to_string(), "b".to_string()]);
    assert_eq!(some.count, 2);
    assert_eq!(some.tag_key, "tag:x");
    assert_eq!(some.members, Some(vec!["a".to_string(), "b".to_string()]));
    let none = invalidate_tag("x", vec![]);
    assert_eq!(none.count, 0);
    assert_eq!(none.members, None);
}
