use vstd::prelude::*;

verus! {

/// How check results are rendered by the output collaborator.
#[derive(Clone, Copy, Debug, PartialEq, Eq, Structural)]
pub enum OutputFormat {
    Pretty,
    Json,
    Csv,
    Prometheus,
}

impl Default for OutputFormat {
    fn default() -> (r: Self)
        ensures
            r == OutputFormat::Pretty,
    {
        OutputFormat::Pretty
    }
}

/// A condition under which an alert rule may fire.
///
/// `HealthScoreBelow` carries its threshold in thousandths of a score point
/// (the health score itself ranges over `0..=1000` thousandths).
#[derive(Clone, Copy, Debug, PartialEq, Eq, Structural)]
pub enum AlertTrigger {
    ConsecutiveFailures(u32),
    ResponseTimeMs(u64),
    HealthScoreBelow(u32),
    CertExpiringDays(u32),
}

/// One webhook alert rule: a name, where to deliver, the trigger predicates,
/// and the minimum quiet period between two deliveries for one target.
pub struct Alert {
    pub name: String,
    pub webhook_url: String,
    pub trigger_on: Vec<AlertTrigger>,
    pub cooldown_minutes: u32,
}

/// Mathematical image of an alert rule.
pub struct RuleModel {
    pub name: Seq<char>,
    pub webhook_url: Seq<char>,
    pub trigger_on: Seq<AlertTrigger>,
    pub cooldown_minutes: u32,
}

impl View for Alert {
    type V = RuleModel;

    open spec fn view(&self) -> RuleModel {
        RuleModel {
            name: self.name@,
            webhook_url: self.webhook_url@,
            trigger_on: self.trigger_on@,
            cooldown_minutes: self.cooldown_minutes,
        }
    }
}

/// One monitored endpoint and its per-target settings. Durations are held in
/// whole milliseconds.
pub struct Target {
    pub name: String,
    pub url: String,
    pub method: String,
    pub headers: Vec<(String, String)>,
    pub expected_status: Vec<u16>,
    pub expected_content: Option<String>,
    pub timeout_ms: u64,
    pub interval_ms: u64,
}

/// Process-wide settings. Durations are held in whole milliseconds.
pub struct Settings {
    pub default_interval_ms: u64,
    pub default_timeout_ms: u64,
    pub max_consecutive_failures: u32,
    pub health_check_window_minutes: u32,
    pub output_format: OutputFormat,
    pub enable_colors: bool,
    pub log_file: Option<String>,
}

/// The whole monitoring configuration: the immutable target registry, the
/// process-wide settings and the alert rules.
pub struct Config {
    pub targets: Vec<Target>,
    pub settings: Settings,
    pub alerts: Vec<Alert>,
}

pub fn default_method() -> (r: String)
    ensures
        r@ == "GET"@,
{
    "GET".to_owned()
}

pub fn default_timeout_ms() -> (r: u64)
    ensures
        r == 10000,
{
    10000
}

pub fn default_interval_ms() -> (r: u64)
    ensures
        r == 60000,
{
    60000
}

pub fn default_max_failures() -> (r: u32)
    ensures
        r == 3,
{
    3
}

pub fn default_health_window() -> (r: u32)
    ensures
        r == 60,
{
    60
}

pub fn default_cooldown() -> (r: u32)
    ensures
        r == 30,
{
    30
}

impl Default for Settings {
    fn default() -> (r: Self)
        ensures
            r.default_interval_ms == 60000,
            r.default_timeout_ms == 10000,
            r.max_consecutive_failures == 3,
            r.health_check_window_minutes == 60,
            r.output_format == OutputFormat::Pretty,
            r.enable_colors == true,
            r.log_file is None,
    {
        Settings {
            default_interval_ms: default_interval_ms(),
            default_timeout_ms: default_timeout_ms(),
            max_consecutive_failures: default_max_failures(),
            health_check_window_minutes: default_health_window(),
            output_format: OutputFormat::default(),
            enable_colors: true,
            log_file: None,
        }
    }
}

impl Config {
    /// A ready-made two-target configuration with one alert rule, offered as a
    /// starting point for a new configuration file.
    pub fn example() -> (r: Self)
        ensures
            r.targets@.len() == 2,
            r.targets@[0].name@ == "Production API"@,
            r.targets@[0].url@ == "https://api.example.com/health"@,
            r.targets@[0].method@ == "GET"@,
            r.targets@[0].headers@.len() == 0,
            r.targets@[0].expected_status@ == seq![200u16],
            r.targets@[0].expected_content matches Some(c) && c@ == "\"status\":\"ok\""@,
            r.targets@[0].timeout_ms == 5000,
            r.targets@[0].interval_ms == 30000,
            r.targets@[1].name@ == "Main Website"@,
            r.targets@[1].url@ == "https://example.com"@,
            r.targets@[1].method@ == "GET"@,
            r.targets@[1].headers@.len() == 0,
            r.targets@[1].expected_status@ == seq![200u16, 301u16, 302u16],
            r.targets@[1].expected_content is None,
            r.targets@[1].timeout_ms == 10000,
            r.targets@[1].interval_ms == 60000,
            r.settings.default_interval_ms == 60000,
            r.settings.default_timeout_ms == 10000,
            r.settings.max_consecutive_failures == 3,
            r.settings.health_check_window_minutes == 60,
            r.settings.output_format == OutputFormat::Pretty,
            r.settings.enable_colors == true,
            r.settings.log_file is None,
            r.alerts@.len() == 1,
            r.alerts@[0].name@ == "Slack Alerts"@,
            r.alerts@[0].webhook_url@ == "https://hooks.slack.com/services/YOUR/WEBHOOK/URL"@,
            r.alerts@[0].trigger_on@ == seq![
                AlertTrigger::ConsecutiveFailures(3),
                AlertTrigger::ResponseTimeMs(5000),
                AlertTrigger::CertExpiringDays(7),
            ],
            r.alerts@[0].cooldown_minutes == 30,
    {
        let mut status_api: Vec<u16> = Vec::new();
        status_api.push(200);
        let mut status_site: Vec<u16> = Vec::new();
        status_site.push(200);
        status_site.push(301);
        status_site.push(302);
        let mut triggers: Vec<AlertTrigger> = Vec::new();
        triggers.push(AlertTrigger::ConsecutiveFailures(3));
        triggers.push(AlertTrigger::ResponseTimeMs(5000));
        triggers.push(AlertTrigger::CertExpiringDays(7));
        proof {
            assert(status_api@ =~= seq![200u16]);
            assert(status_site@ =~= seq![200u16, 301u16, 302u16]);
            assert(triggers@ =~= seq![
                AlertTrigger::ConsecutiveFailures(3),
                AlertTrigger::ResponseTimeMs(5000),
                AlertTrigger::CertExpiringDays(7),
            ]);
        }
        let mut targets: Vec<Target> = Vec::new();
        targets.push(Target {
            name: "Production API".to_owned(),
            url: "https://api.example.com/health".to_owned(),
            method: "GET".to_owned(),
            headers: Vec::new(),
            expected_status: status_api,
            expected_content: Some("\"status\":\"ok\"".to_owned()),
            timeout_ms: 5000,
            interval_ms: 30000,
        });
        targets.push(Target {
            name: "Main Website".to_owned(),
            url: "https://example.com".to_owned(),
            method: "GET".to_owned(),
            headers: Vec::new(),
            expected_status: status_site,
            expected_content: None,
            timeout_ms: 10000,
            interval_ms: 60000,
        });
        let mut alerts: Vec<Alert> = Vec::new();
        alerts.push(Alert {
            name: "Slack Alerts".to_owned(),
            webhook_url: "https://hooks.slack.com/services/YOUR/WEBHOOK/URL".to_owned(),
            trigger_on: triggers,
            cooldown_minutes: 30,
        });
        Config { targets, settings: Settings::default(), alerts }
    }
}

} // verus!
