use httpping::alerts::{check_alerts, should_trigger_alert, CooldownLedger};
use httpping::config::{Alert, AlertTrigger, Target};
use httpping::health::{HealthCheck, TargetHealth};

fn target() -> Target {
    Target {
        name: "api".to_string(),
        url: "http://a".to_string(),
        method: "GET".to_string(),
        headers: Vec::new(),
        expected_status: Vec::new(),
        expected_content: None,
        timeout_ms: 10000,
        interval_ms: 60000,
    }
}

fn check(success: bool, response_time_ms: u64, timestamp_ms: u64) -> HealthCheck {
    HealthCheck {
        target: "api".to_string(),
        timestamp_ms,
        success,
        status_code: Some(if success { 200 } else { 500 }),
        response_time_ms,
        error: None,
        cert_expires_days: None,
    }
}

fn slow_rule(cooldown_minutes: u32) -> Alert {
    Alert {
        name: "slow".to_string(),
        webhook_url: "https://hooks.example.com/x".to_string(),
        trigger_on: vec![AlertTrigger::ResponseTimeMs(100)],
        cooldown_minutes,
    }
}

#[test]
fn response_time_trigger_fires_strictly_above_threshold() {
    let h = TargetHealth::new(&target());
    let rule = slow_rule(30);
    assert!(!should_trigger_alert(&rule, &check(true, 100, 0), &h));
    assert!(should_trigger_alert(&rule, &check(true, 101, 0), &h));
}

#[test]
fn cert_expiry_trigger_needs_a_value() {
    let h = TargetHealth::new(&target());
    let rule = Alert {
        name: "cert".to_string(),
        webhook_url: "https://hooks.example.com/x".to_string(),
        trigger_on: vec![AlertTrigger::CertExpiringDays(7)],
        cooldown_minutes: 30,
    };
    let mut c = check(true, 10, 0);
    assert!(!should_trigger_alert(&rule, &c, &h));
    c.cert_expires_days = Some(7);
    assert!(should_trigger_alert(&rule, &c, &h));
    c.cert_expires_days = Some(8);
    assert!(!should_trigger_alert(&rule, &c, &h));
}

#[test]
fn consecutive_failures_trigger_reads_aggregate() {
    // This trigger needs aggregate state, not the bare check.
    let mut h = TargetHealth::new(&target());
    let rule = Alert {
        name: "down".to_string(),
        webhook_url: "https://hooks.example.com/x".to_string(),
        trigger_on: vec![AlertTrigger::ConsecutiveFailures(3)],
        cooldown_minutes: 30,
    };
    h.update_with_check(&check(false, 10, 0));
    h.update_with_check(&check(false, 10, 1));
    assert!(!should_trigger_alert(&rule, &check(false, 10, 1), &h));
    h.update_with_check(&check(false, 10, 2));
    assert!(should_trigger_alert(&rule, &check(false, 10, 2), &h));
}

#[test]
fn health_score_below_trigger_reads_aggregate() {
    let mut h = TargetHealth::new(&target());
    let rule = Alert {
        name: "score".to_string(),
        webhook_url: "https://hooks.example.com/x".to_string(),
        trigger_on: vec![AlertTrigger::HealthScoreBelow(500)],
        cooldown_minutes: 30,
    };
    h.update_with_check(&check(true, 10, 0));
    assert!(!should_trigger_alert(&rule, &check(true, 10, 0), &h));
    // Mostly failures: uptime collapses, score falls below 0.5.
    for i in 1..10u64 {
        h.update_with_check(&check(false, 10, i));
    }
    assert!(should_trigger_alert(&rule, &check(false, 10, 9), &h));
}

#[test]
fn scenario_cooldown_suppresses_then_releases() {
    // A rule with ResponseTimeMs(100) and a 30-minute cooldown: a 150 ms
    // check fires once; another one a minute later is suppressed; one after
    // 31 minutes fires again.
    let t = target();
    let h = TargetHealth::new(&t);
    let rules = vec![slow_rule(30)];
    let mut ledger = CooldownLedger::new();
    let t0: u64 = 1_000_000;

    let d1 = check_alerts(&t.name, &t.url, &check(true, 150, t0), &h, &rules, &mut ledger, t0);
    assert_eq!(d1.len(), 1);
    assert_eq!(d1[0].rule_name, "slow");
    assert_eq!(d1[0].target, "api");

    let t1 = t0 + 60_000;
    let d2 = check_alerts(&t.name, &t.url, &check(true, 150, t1), &h, &rules, &mut ledger, t1);
    assert_eq!(d2.len(), 0);

    let t2 = t0 + 31 * 60_000;
    let d3 = check_alerts(&t.name, &t.url, &check(true, 150, t2), &h, &rules, &mut ledger, t2);
    assert_eq!(d3.len(), 1);
}

#[test]
fn cooldown_boundary_releases_at_exactly_the_cooldown() {
    // Suppression holds only while less than the cooldown has elapsed: one
    // millisecond short is suppressed, exactly the cooldown fires again.
    let t = target();
    let h = TargetHealth::new(&t);
    let rules = vec![slow_rule(1)];
    let mut ledger = CooldownLedger::new();
    let t0: u64 = 0;
    assert_eq!(
        check_alerts(&t.name, &t.url, &check(true, 150, t0), &h, &rules, &mut ledger, t0).len(),
        1
    );
    assert_eq!(
        check_alerts(&t.name, &t.url, &check(true, 150, 59_999), &h, &rules, &mut ledger, 59_999)
            .len(),
        0
    );
    assert_eq!(
        check_alerts(&t.name, &t.url, &check(true, 150, 60_000), &h, &rules, &mut ledger, 60_000)
            .len(),
        1
    );
}

#[test]
fn cooldowns_are_keyed_per_rule_and_target() {
    let t = target();
    let h = TargetHealth::new(&t);
    let rules = vec![slow_rule(30)];
    let mut ledger = CooldownLedger::new();
    let now: u64 = 5_000_000;
    assert_eq!(
        check_alerts(&t.name, &t.url, &check(true, 150, now), &h, &rules, &mut ledger, now).len(),
        1
    );
    // A different target name is an independent key: it fires immediately.
    let other = "web".to_string();
    assert_eq!(
        check_alerts(&other, &t.url, &check(true, 150, now), &h, &rules, &mut ledger, now).len(),
        1
    );
    // The first target stays suppressed.
    assert_eq!(
        check_alerts(&t.name, &t.url, &check(true, 150, now), &h, &rules, &mut ledger, now).len(),
        0
    );
}

#[test]
fn dispatch_carries_the_message_fields() {
    let t = target();
    let h = TargetHealth::new(&t);
    let rules = vec![slow_rule(30)];
    let mut ledger = CooldownLedger::new();
    let mut c = check(false, 700, 9);
    c.status_code = Some(503);
    c.error = Some("server exploded".to_string());
    let ds = check_alerts(&t.name, &t.url, &c, &h, &rules, &mut ledger, 9);
    assert_eq!(ds.len(), 1);
    let d = &ds[0];
    assert_eq!(d.webhook_url, "https://hooks.example.com/x");
    assert_eq!(d.url, "http://a");
    assert_eq!(d.status_code, Some(503));
    assert_eq!(d.response_time_ms, 700);
    assert_eq!(d.error, Some("server exploded".to_string()));
}

#[test]
fn ledger_get_and_record_roundtrip() {
    let mut ledger = CooldownLedger::new();
    let rule = "r".to_string();
    let tgt = "t".to_string();
    assert_eq!(ledger.get(&rule, &tgt), None);
    ledger.record(&rule, &tgt, 123);
    assert_eq!(ledger.get(&rule, &tgt), Some(123));
    ledger.record(&rule, &tgt, 456);
    assert_eq!(ledger.get(&rule, &tgt), Some(456));
    assert_eq!(ledger.get(&tgt, &rule), None);
}

#[test]
fn rule_with_no_firing_trigger_stays_quiet() {
    let t = target();
    let h = TargetHealth::new(&t);
    let rules = vec![slow_rule(30)];
    let mut ledger = CooldownLedger::new();
    let ds = check_alerts(&t.name, &t.url, &check(true, 50, 0), &h, &rules, &mut ledger, 0);
    assert_eq!(ds.len(), 0);
    assert_eq!(ledger.get(&"slow".to_string(), &t.name), None);
}
