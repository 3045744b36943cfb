use vstd::prelude::*;

verus! {

/// Classification of a target's current condition.
#[derive(Clone, Copy, Debug, PartialEq, Eq, Structural)]
pub enum HealthStatus {
    Healthy,
    Degraded,
    Unhealthy,
    Unknown,
}

/// One immutable probe outcome. Never mutated after creation.
pub struct HealthCheck {
    pub target: String,
    pub timestamp_ms: u64,
    pub success: bool,
    pub status_code: Option<u16>,
    pub response_time_ms: u64,
    pub error: Option<String>,
    pub cert_expires_days: Option<u32>,
}

/// Mathematical image of a probe outcome.
#[verifier::ext_equal]
pub struct CheckModel {
    pub target: Seq<char>,
    pub timestamp_ms: u64,
    pub success: bool,
    pub status_code: Option<u16>,
    pub response_time_ms: u64,
    pub error: Option<Seq<char>>,
    pub cert_expires_days: Option<u32>,
}

impl View for HealthCheck {
    type V = CheckModel;

    open spec fn view(&self) -> CheckModel {
        CheckModel {
            target: self.target@,
            timestamp_ms: self.timestamp_ms,
            success: self.success,
            status_code: self.status_code,
            response_time_ms: self.response_time_ms,
            error: match self.error {
                Some(e) => Some(e@),
                None => None,
            },
            cert_expires_days: self.cert_expires_days,
        }
    }
}

impl HealthCheck {
    /// An equal copy of this check, so one can go into the history while the
    /// alert evaluator still reads the other.
    pub fn duplicate(&self) -> (c: HealthCheck)
        ensures
            c == *self,
    {
        HealthCheck {
            target: self.target.clone(),
            timestamp_ms: self.timestamp_ms,
            success: self.success,
            status_code: self.status_code,
            response_time_ms: self.response_time_ms,
            error: match &self.error {
                Some(e) => Some(e.clone()),
                None => None,
            },
            cert_expires_days: self.cert_expires_days,
        }
    }
}

/// Mathematical image of the rolling per-target state.
#[verifier::ext_equal]
pub struct HealthModel {
    pub name: Seq<char>,
    pub url: Seq<char>,
    pub current_status: HealthStatus,
    pub consecutive_failures: nat,
    pub total_checks: nat,
    pub successful_checks: nat,
    pub total_response_time_ms: nat,
    pub min_response_time_ms: nat,
    pub max_response_time_ms: nat,
    pub avg_response_time_ms: nat,
    pub uptime_basis_points: nat,
    pub last_check_ms: Option<u64>,
    pub health_score_milli: nat,
    pub recent_checks: Seq<CheckModel>,
}

/// Status classification over the exact uptime ratio: with no current failure
/// streak the uptime percentage decides (healthy at 99% and above, degraded at
/// 95% and above), a streak of one or two failures means degraded, three or
/// more mean unhealthy. `100 * successful >= 99 * total` is the exact form of
/// `100 * successful / total >= 99`.
pub open spec fn status_of(consecutive_failures: nat, successful: nat, total: nat) -> HealthStatus {
    if consecutive_failures == 0 {
        if 100 * successful >= 99 * total {
            HealthStatus::Healthy
        } else if 100 * successful >= 95 * total {
            HealthStatus::Degraded
        } else {
            HealthStatus::Unhealthy
        }
    } else if consecutive_failures >= 3 {
        HealthStatus::Unhealthy
    } else {
        HealthStatus::Degraded
    }
}

/// The response-time tier's contribution to the health score, in thousandths:
/// the tiers 1.0, 0.8, 0.5 and 0.2, already weighted by 0.3.
pub open spec fn response_tier_milli(avg_ms: nat) -> nat {
    if avg_ms <= 500 {
        300
    } else if avg_ms <= 2000 {
        240
    } else if avg_ms <= 5000 {
        150
    } else {
        60
    }
}

/// The health score in thousandths: 0.7 times the uptime ratio plus the
/// weighted response-time tier, floored.
pub open spec fn health_score_milli_of(successful: nat, total: nat, avg_ms: nat) -> nat
    recommends
        total > 0,
{
    (700 * successful) / total + response_tier_milli(avg_ms)
}

/// The uptime percentage in hundredths of a percent, floored. The exact
/// percentage is the rational `100 * successful / total`.
pub open spec fn uptime_basis_points_of(successful: nat, total: nat) -> nat
    recommends
        total > 0,
{
    (10000 * successful) / total
}

/// The state a fresh aggregate starts in, before any check.
pub open spec fn init_model(name: Seq<char>, url: Seq<char>) -> HealthModel {
    HealthModel {
        name,
        url,
        current_status: HealthStatus::Unknown,
        consecutive_failures: 0,
        total_checks: 0,
        successful_checks: 0,
        total_response_time_ms: 0,
        min_response_time_ms: u64::MAX as nat,
        max_response_time_ms: 0,
        avg_response_time_ms: 0,
        uptime_basis_points: 0,
        last_check_ms: None,
        health_score_milli: 1000,
        recent_checks: Seq::empty(),
    }
}

/// The aggregate-update state machine: how one incoming check transforms the
/// rolling state.
pub open spec fn update_model(m: HealthModel, c: CheckModel) -> HealthModel {
    let total: nat = m.total_checks + 1nat;
    let successful: nat = if c.success {
        m.successful_checks + 1nat
    } else {
        m.successful_checks
    };
    let consecutive: nat = if c.success {
        0nat
    } else {
        m.consecutive_failures + 1nat
    };
    let sum: nat = m.total_response_time_ms + (c.response_time_ms as nat);
    let avg: nat = sum / total;
    HealthModel {
        name: m.name,
        url: m.url,
        current_status: status_of(consecutive, successful, total),
        consecutive_failures: consecutive,
        total_checks: total,
        successful_checks: successful,
        total_response_time_ms: sum,
        min_response_time_ms: if c.response_time_ms < m.min_response_time_ms {
            c.response_time_ms as nat
        } else {
            m.min_response_time_ms
        },
        max_response_time_ms: if c.response_time_ms > m.max_response_time_ms {
            c.response_time_ms as nat
        } else {
            m.max_response_time_ms
        },
        avg_response_time_ms: avg,
        uptime_basis_points: uptime_basis_points_of(successful, total),
        last_check_ms: Some(c.timestamp_ms),
        health_score_milli: health_score_milli_of(successful, total, avg),
        recent_checks: if m.recent_checks.len() < 100 {
            m.recent_checks.push(c)
        } else {
            m.recent_checks.drop_first().push(c)
        },
    }
}

/// The aggregate state after folding a whole sequence of checks, in order,
/// into a starting state.
pub open spec fn apply_checks(m: HealthModel, cs: Seq<CheckModel>) -> HealthModel
    decreases cs.len(),
{
    if cs.len() == 0 {
        m
    } else {
        update_model(apply_checks(m, cs.drop_last()), cs.last())
    }
}

/// The mutable rolling summary and bounded history for one target. Response
/// times are held in whole milliseconds; the running sum of response times is
/// kept exactly, so the average is a true arithmetic mean, floored.
pub struct TargetHealth {
    pub name: String,
    pub url: String,
    pub current_status: HealthStatus,
    pub consecutive_failures: u32,
    pub total_checks: u64,
    pub successful_checks: u64,
    pub uptime_basis_points: u64,
    pub total_response_time_ms: u128,
    pub avg_response_time_ms: u64,
    pub min_response_time_ms: u64,
    pub max_response_time_ms: u64,
    pub last_check_ms: Option<u64>,
    pub health_score_milli: u32,
    pub recent_checks: Vec<HealthCheck>,
}

impl View for TargetHealth {
    type V = HealthModel;

    open spec fn view(&self) -> HealthModel {
        HealthModel {
            name: self.name@,
            url: self.url@,
            current_status: self.current_status,
            consecutive_failures: self.consecutive_failures as nat,
            total_checks: self.total_checks as nat,
            successful_checks: self.successful_checks as nat,
            total_response_time_ms: self.total_response_time_ms as nat,
            min_response_time_ms: self.min_response_time_ms as nat,
            max_response_time_ms: self.max_response_time_ms as nat,
            avg_response_time_ms: self.avg_response_time_ms as nat,
            uptime_basis_points: self.uptime_basis_points as nat,
            last_check_ms: self.last_check_ms,
            health_score_milli: self.health_score_milli as nat,
            recent_checks: self.recent_checks@.map_values(|c: HealthCheck| c@),
        }
    }
}

impl TargetHealth {
    /// Bounds that every aggregate satisfies, from creation through every
    /// update.
    pub open spec fn wf(&self) -> bool {
        &&& self.successful_checks <= self.total_checks
        &&& self.total_response_time_ms as nat <= self.total_checks as nat * u64::MAX as nat
        &&& self.recent_checks@.len() <= 100
        &&& self.health_score_milli <= 1000
        &&& self.uptime_basis_points <= 10000
    }

    /// A fresh aggregate for one target, in the state before any check.
    pub fn new(target: &crate::config::Target) -> (r: Self)
        ensures
            r@ == init_model(target.name@, target.url@),
            r.wf(),
    {
        let r = TargetHealth {
            name: target.name.clone(),
            url: target.url.clone(),
            current_status: HealthStatus::Unknown,
            consecutive_failures: 0,
            total_checks: 0,
            successful_checks: 0,
            uptime_basis_points: 0,
            total_response_time_ms: 0,
            avg_response_time_ms: 0,
            min_response_time_ms: u64::MAX,
            max_response_time_ms: 0,
            last_check_ms: None,
            health_score_milli: 1000,
            recent_checks: Vec::new(),
        };
        proof {
            assert(r@ =~= init_model(target.name@, target.url@));
        }
        r
    }

    /// Fold one incoming check into the rolling state, exactly as
    /// `update_model` describes: counts, failure streak, exact response-time
    /// statistics, uptime, status, health score, and the bounded history with
    /// oldest-first eviction.
    pub fn update_with_check(&mut self, check: &HealthCheck)
        requires
            old(self).wf(),
            old(self).total_checks < u64::MAX,
            old(self).consecutive_failures < u32::MAX,
        ensures
            final(self).wf(),
            final(self)@ == update_model(old(self)@, check@),
    {
        let ghost m = self@;
        let ghost c = check@;

        self.total_checks = self.total_checks + 1;
        self.last_check_ms = Some(check.timestamp_ms);

        if check.success {
            self.successful_checks = self.successful_checks + 1;
            self.consecutive_failures = 0;
        } else {
            self.consecutive_failures = self.consecutive_failures + 1;
        }

        if check.response_time_ms < self.min_response_time_ms {
            self.min_response_time_ms = check.response_time_ms;
        }
        if check.response_time_ms > self.max_response_time_ms {
            self.max_response_time_ms = check.response_time_ms;
        }

        proof {
            assert(m.total_response_time_ms + c.response_time_ms <= (m.total_checks + 1)
                * u64::MAX) by (nonlinear_arith)
                requires
                    m.total_response_time_ms <= m.total_checks * u64::MAX,
                    c.response_time_ms <= u64::MAX,
            ;
            assert((m.total_checks + 1) * u64::MAX < u128::MAX) by (nonlinear_arith)
                requires
                    m.total_checks + 1 <= u64::MAX,
            ;
        }
        self.total_response_time_ms = self.total_response_time_ms + (check.response_time_ms
            as u128);

        let total = self.total_checks;
        let successful = self.successful_checks;
        let sum = self.total_response_time_ms;

        proof {
            assert(sum as nat / total as nat <= u64::MAX) by (nonlinear_arith)
                requires
                    0 < total as nat,
                    sum as nat <= total as nat * u64::MAX,
            ;
        }
        self.avg_response_time_ms = (sum / (total as u128)) as u64;

        proof {
            assert((10000 * successful as nat) / total as nat <= 10000) by (nonlinear_arith)
                requires
                    0 < total as nat,
                    successful as nat <= total as nat,
            ;
        }
        self.uptime_basis_points = ((10000u128 * (successful as u128)) / (total as u128)) as u64;

        self.current_status = if self.consecutive_failures == 0 {
            if 100u128 * (successful as u128) >= 99u128 * (total as u128) {
                HealthStatus::Healthy
            } else if 100u128 * (successful as u128) >= 95u128 * (total as u128) {
                HealthStatus::Degraded
            } else {
                HealthStatus::Unhealthy
            }
        } else if self.consecutive_failures >= 3 {
            HealthStatus::Unhealthy
        } else {
            HealthStatus::Degraded
        };

        let tier: u32 = if self.avg_response_time_ms <= 500 {
            300
        } else if self.avg_response_time_ms <= 2000 {
            240
        } else if self.avg_response_time_ms <= 5000 {
            150
        } else {
            60
        };
        proof {
            assert((700 * successful as nat) / total as nat <= 700) by (nonlinear_arith)
                requires
                    0 < total as nat,
                    successful as nat <= total as nat,
            ;
        }
        self.health_score_milli = (((700u128 * (successful as u128)) / (total as u128)) as u32)
            + tier;

        if self.recent_checks.len() == 100 {
            self.recent_checks.remove(0);
        }
        self.recent_checks.push(check.duplicate());

        proof {
            let f = |ch: HealthCheck| ch@;
            if m.recent_checks.len() < 100 {
                assert(self.recent_checks@.map_values(f) =~= m.recent_checks.push(c));
            } else {
                assert(self.recent_checks@.map_values(f) =~= m.recent_checks.drop_first().push(
                    c));
            }
            assert(self@ =~= update_model(m, c));
        }
    }
}

} // verus!
