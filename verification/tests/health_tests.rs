use httpping::config::Target;
use httpping::health::{HealthCheck, HealthStatus, TargetHealth};

fn sample_target(name: &str, url: &str) -> Target {
    Target {
        name: name.to_string(),
        url: url.to_string(),
        method: "GET".to_string(),
        headers: Vec::new(),
        expected_status: Vec::new(),
        expected_content: None,
        timeout_ms: 10000,
        interval_ms: 60000,
    }
}

fn check(success: bool, response_time_ms: u64, timestamp_ms: u64) -> HealthCheck {
    HealthCheck {
        target: "t".to_string(),
        timestamp_ms,
        success,
        status_code: if success { Some(200) } else { None },
        response_time_ms,
        error: if success { None } else { Some("connection refused".to_string()) },
        cert_expires_days: None,
    }
}

#[test]
fn fresh_aggregate_starts_unknown() {
    let h = TargetHealth::new(&sample_target("api", "https://example.com"));
    assert_eq!(h.current_status, HealthStatus::Unknown);
    assert_eq!(h.total_checks, 0);
    assert_eq!(h.successful_checks, 0);
    assert_eq!(h.consecutive_failures, 0);
    assert_eq!(h.health_score_milli, 1000);
    assert_eq!(h.min_response_time_ms, u64::MAX);
    assert_eq!(h.max_response_time_ms, 0);
    assert!(h.last_check_ms.is_none());
    assert!(h.recent_checks.is_empty());
}

#[test]
fn uptime_is_exact_ratio() {
    // 3 successes out of 4 checks: uptime is exactly 75.00%.
    let mut h = TargetHealth::new(&sample_target("api", "http://a"));
    h.update_with_check(&check(true, 100, 1));
    h.update_with_check(&check(true, 100, 2));
    h.update_with_check(&check(false, 100, 3));
    h.update_with_check(&check(true, 100, 4));
    assert_eq!(h.total_checks, 4);
    assert_eq!(h.successful_checks, 3);
    assert_eq!(h.uptime_basis_points, 7500);
}

#[test]
fn average_is_true_arithmetic_mean() {
    // Exact running sum: (100 + 200 + 250) / 3 = 183 floored, with no
    // incremental rounding drift.
    let mut h = TargetHealth::new(&sample_target("api", "http://a"));
    h.update_with_check(&check(true, 100, 1));
    h.update_with_check(&check(true, 200, 2));
    h.update_with_check(&check(true, 250, 3));
    assert_eq!(h.total_response_time_ms, 550);
    assert_eq!(h.avg_response_time_ms, 183);
    assert_eq!(h.min_response_time_ms, 100);
    assert_eq!(h.max_response_time_ms, 250);
}

#[test]
fn consecutive_failures_increment_and_reset() {
    let mut h = TargetHealth::new(&sample_target("api", "http://a"));
    h.update_with_check(&check(false, 50, 1));
    assert_eq!(h.consecutive_failures, 1);
    h.update_with_check(&check(false, 50, 2));
    assert_eq!(h.consecutive_failures, 2);
    h.update_with_check(&check(false, 50, 3));
    assert_eq!(h.consecutive_failures, 3);
    h.update_with_check(&check(true, 50, 4));
    assert_eq!(h.consecutive_failures, 0);
}

#[test]
fn history_capped_at_100_oldest_evicted_first() {
    let mut h = TargetHealth::new(&sample_target("api", "http://a"));
    for i in 0..105u64 {
        h.update_with_check(&check(true, 10, i));
    }
    assert_eq!(h.recent_checks.len(), 100);
    // Checks 0..=4 were evicted; the buffer starts at check 5 and ends at 104.
    assert_eq!(h.recent_checks[0].timestamp_ms, 5);
    assert_eq!(h.recent_checks[99].timestamp_ms, 104);
}

#[test]
fn scenario_hundred_fast_successes_full_score() {
    // 100 consecutive successful checks, each at most 500 ms: the health
    // score is full (1000 thousandths, i.e. 1.0) and the status is Healthy.
    let mut h = TargetHealth::new(&sample_target("api", "http://a"));
    for i in 0..100u64 {
        h.update_with_check(&check(true, 500, i));
    }
    assert_eq!(h.health_score_milli, 1000);
    assert_eq!(h.current_status, HealthStatus::Healthy);
    assert_eq!(h.uptime_basis_points, 10000);
}

#[test]
fn scenario_four_failures_unhealthy() {
    // Four consecutive failures make the target Unhealthy regardless of the
    // prior history.
    let mut h = TargetHealth::new(&sample_target("api", "http://a"));
    for i in 0..50u64 {
        h.update_with_check(&check(true, 10, i));
    }
    assert_eq!(h.current_status, HealthStatus::Healthy);
    for i in 50..54u64 {
        h.update_with_check(&check(false, 10, i));
    }
    assert_eq!(h.current_status, HealthStatus::Unhealthy);
    assert_eq!(h.consecutive_failures, 4);
}

#[test]
fn status_tiers_follow_uptime() {
    // 1 failure in 100 checks, streak already broken: 99.00% => Healthy.
    let mut h = TargetHealth::new(&sample_target("api", "http://a"));
    h.update_with_check(&check(false, 10, 0));
    for i in 1..100u64 {
        h.update_with_check(&check(true, 10, i));
    }
    assert_eq!(h.uptime_basis_points, 9900);
    assert_eq!(h.current_status, HealthStatus::Healthy);

    // 4 failures in 100: 96.00% => Degraded once the streak is broken.
    let mut h2 = TargetHealth::new(&sample_target("api", "http://a"));
    for i in 0..4u64 {
        h2.update_with_check(&check(false, 10, i));
    }
    for i in 4..100u64 {
        h2.update_with_check(&check(true, 10, i));
    }
    assert_eq!(h2.uptime_basis_points, 9600);
    assert_eq!(h2.current_status, HealthStatus::Degraded);

    // 10 failures in 100: 90.00% => Unhealthy even with the streak broken.
    let mut h3 = TargetHealth::new(&sample_target("api", "http://a"));
    for i in 0..10u64 {
        h3.update_with_check(&check(false, 10, i));
    }
    for i in 10..100u64 {
        h3.update_with_check(&check(true, 10, i));
    }
    assert_eq!(h3.uptime_basis_points, 9000);
    assert_eq!(h3.current_status, HealthStatus::Unhealthy);
}

#[test]
fn short_failure_streak_is_degraded() {
    let mut h = TargetHealth::new(&sample_target("api", "http://a"));
    h.update_with_check(&check(true, 10, 0));
    h.update_with_check(&check(false, 10, 1));
    assert_eq!(h.current_status, HealthStatus::Degraded);
    h.update_with_check(&check(false, 10, 2));
    assert_eq!(h.current_status, HealthStatus::Degraded);
    h.update_with_check(&check(false, 10, 3));
    assert_eq!(h.current_status, HealthStatus::Unhealthy);
}

#[test]
fn health_score_response_time_tiers() {
    // All successes, but a slow average drags the score through the tiers.
    let mut h = TargetHealth::new(&sample_target("api", "http://a"));
    h.update_with_check(&check(true, 1000, 0));
    // uptime 100% -> 700; avg 1000ms -> tier 240.
    assert_eq!(h.health_score_milli, 940);

    let mut h2 = TargetHealth::new(&sample_target("api", "http://a"));
    h2.update_with_check(&check(true, 3000, 0));
    assert_eq!(h2.health_score_milli, 850);

    let mut h3 = TargetHealth::new(&sample_target("api", "http://a"));
    h3.update_with_check(&check(true, 9000, 0));
    assert_eq!(h3.health_score_milli, 760);
}

#[test]
fn last_check_timestamp_follows_updates() {
    let mut h = TargetHealth::new(&sample_target("api", "http://a"));
    h.update_with_check(&check(true, 10, 1111));
    assert_eq!(h.last_check_ms, Some(1111));
    h.update_with_check(&check(false, 10, 2222));
    assert_eq!(h.last_check_ms, Some(2222));
}

#[test]
fn duplicate_copies_every_field() {
    let c = HealthCheck {
        target: "api".to_string(),
        timestamp_ms: 7,
        success: false,
        status_code: Some(503),
        response_time_ms: 42,
        error: Some("boom".to_string()),
        cert_expires_days: Some(12),
    };
    let d = c.duplicate();
    assert_eq!(d.target, "api");
    assert_eq!(d.timestamp_ms, 7);
    assert!(!d.success);
    assert_eq!(d.status_code, Some(503));
    assert_eq!(d.response_time_ms, 42);
    assert_eq!(d.error, Some("boom".to_string()));
    assert_eq!(d.cert_expires_days, Some(12));
}
