use httpping::config::{
    default_cooldown, default_health_window, default_interval_ms, default_max_failures,
    default_method, default_timeout_ms, Alert, AlertTrigger, Config, OutputFormat, Settings,
    Target,
};
use httpping::health::{HealthCheck, HealthStatus};
use httpping::monitor::Monitor;
use httpping::poll::{next_poll_state, remaining_sleep_ms, PollState};

fn target(name: &str) -> Target {
    Target {
        name: name.to_string(),
        url: format!("http://{}", name),
        method: "GET".to_string(),
        headers: Vec::new(),
        expected_status: Vec::new(),
        expected_content: None,
        timeout_ms: 10000,
        interval_ms: 60000,
    }
}

fn config_of(targets: Vec<Target>, alerts: Vec<Alert>) -> Config {
    Config { targets, settings: Settings::default(), alerts }
}

fn check(name: &str, success: bool, response_time_ms: u64, timestamp_ms: u64) -> HealthCheck {
    HealthCheck {
        target: name.to_string(),
        timestamp_ms,
        success,
        status_code: Some(if success { 200 } else { 500 }),
        response_time_ms,
        error: None,
        cert_expires_days: None,
    }
}

#[test]
fn defaults_match_the_configuration_contract() {
    assert_eq!(default_method(), "GET");
    assert_eq!(default_timeout_ms(), 10000);
    assert_eq!(default_interval_ms(), 60000);
    assert_eq!(default_max_failures(), 3);
    assert_eq!(default_health_window(), 60);
    assert_eq!(default_cooldown(), 30);
    let s = Settings::default();
    assert_eq!(s.default_interval_ms, 60000);
    assert_eq!(s.default_timeout_ms, 10000);
    assert_eq!(s.max_consecutive_failures, 3);
    assert_eq!(s.health_check_window_minutes, 60);
    assert!(matches!(s.output_format, OutputFormat::Pretty));
    assert!(s.enable_colors);
    assert!(s.log_file.is_none());
}

#[test]
fn example_config_contents() {
    let c = Config::example();
    assert_eq!(c.targets.len(), 2);
    assert_eq!(c.targets[0].name, "Production API");
    assert_eq!(c.targets[0].url, "https://api.example.com/health");
    assert_eq!(c.targets[0].expected_status, vec![200]);
    assert_eq!(c.targets[0].expected_content, Some("\"status\":\"ok\"".to_string()));
    assert_eq!(c.targets[0].timeout_ms, 5000);
    assert_eq!(c.targets[0].interval_ms, 30000);
    assert_eq!(c.targets[1].name, "Main Website");
    assert_eq!(c.targets[1].url, "https://example.com");
    assert_eq!(c.targets[1].expected_status, vec![200, 301, 302]);
    assert!(c.targets[1].expected_content.is_none());
    assert_eq!(c.alerts.len(), 1);
    assert_eq!(c.alerts[0].name, "Slack Alerts");
    assert_eq!(c.alerts[0].cooldown_minutes, 30);
    assert_eq!(
        c.alerts[0].trigger_on,
        vec![
            AlertTrigger::ConsecutiveFailures(3),
            AlertTrigger::ResponseTimeMs(5000),
            AlertTrigger::CertExpiringDays(7),
        ]
    );
}

#[test]
fn monitor_starts_one_aggregate_per_target() {
    let m = Monitor::new(config_of(vec![target("a"), target("b")], Vec::new()));
    assert_eq!(m.targets.len(), 2);
    assert_eq!(m.targets[0].name, "a");
    assert_eq!(m.targets[1].name, "b");
    assert_eq!(m.targets[0].current_status, HealthStatus::Unknown);
    assert!(m.cooldowns.entries.is_empty());
}

#[test]
fn process_check_updates_only_its_target() {
    let mut m = Monitor::new(config_of(vec![target("a"), target("b")], Vec::new()));
    let ds = m.process_check(0, &check("a", true, 120, 10), 10);
    assert!(ds.is_empty());
    assert_eq!(m.targets[0].total_checks, 1);
    assert_eq!(m.targets[0].current_status, HealthStatus::Healthy);
    assert_eq!(m.targets[1].total_checks, 0);
    assert_eq!(m.targets[1].current_status, HealthStatus::Unknown);
}

#[test]
fn process_check_evaluates_alerts_against_updated_state() {
    let alert = Alert {
        name: "down".to_string(),
        webhook_url: "https://hooks.example.com/x".to_string(),
        trigger_on: vec![AlertTrigger::ConsecutiveFailures(2)],
        cooldown_minutes: 30,
    };
    let mut m = Monitor::new(config_of(vec![target("a")], vec![alert]));
    let d1 = m.process_check(0, &check("a", false, 10, 1), 1);
    assert_eq!(d1.len(), 0);
    // The second failure brings the streak to 2: the rule fires.
    let d2 = m.process_check(0, &check("a", false, 10, 2), 2);
    assert_eq!(d2.len(), 1);
    assert_eq!(d2[0].rule_name, "down");
    // Third failure: still firing, but the cooldown suppresses it.
    let d3 = m.process_check(0, &check("a", false, 10, 3), 3);
    assert_eq!(d3.len(), 0);
}

#[test]
fn process_check_now_advances_the_aggregate() {
    let mut m = Monitor::new(config_of(vec![target("a")], Vec::new()));
    let ds = m.process_check_now(0, &check("a", true, 50, 1));
    assert!(ds.is_empty());
    assert_eq!(m.targets[0].total_checks, 1);
    assert_eq!(m.targets[0].successful_checks, 1);
}

#[test]
fn summary_has_one_row_per_target() {
    let mut m = Monitor::new(config_of(vec![target("a"), target("b")], Vec::new()));
    m.process_check(0, &check("a", true, 120, 10), 10);
    let rows = m.status_summary();
    assert_eq!(rows.len(), 2);
    assert_eq!(rows[0].name, "a");
    assert_eq!(rows[0].status, HealthStatus::Healthy);
    assert_eq!(rows[0].uptime_basis_points, 10000);
    assert_eq!(rows[0].avg_response_time_ms, 120);
    assert_eq!(rows[0].health_score_milli, 1000);
    assert_eq!(rows[1].name, "b");
    assert_eq!(rows[1].status, HealthStatus::Unknown);
}

#[test]
fn status_labels() {
    assert_eq!(HealthStatus::Healthy.label(), "Healthy");
    assert_eq!(HealthStatus::Degraded.label(), "Degraded");
    assert_eq!(HealthStatus::Unhealthy.label(), "Unhealthy");
    assert_eq!(HealthStatus::Unknown.label(), "Unknown");
}

#[test]
fn poll_state_follows_cancellation() {
    assert_eq!(next_poll_state(false), PollState::Running);
    assert_eq!(next_poll_state(true), PollState::Stopped);
}

#[test]
fn sleep_is_interval_minus_elapsed_floored() {
    assert_eq!(remaining_sleep_ms(60000, 1500), 58500);
    assert_eq!(remaining_sleep_ms(60000, 60000), 0);
    assert_eq!(remaining_sleep_ms(1000, 5000), 0);
    assert_eq!(remaining_sleep_ms(0, 0), 0);
}
