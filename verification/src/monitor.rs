use vstd::prelude::*;

use crate::alerts::{check_alerts, evaluate_model, AlertDispatch, CooldownLedger};
use crate::config::{Alert, Config};
use crate::health::{init_model, update_model, CheckModel, HealthCheck, HealthStatus, TargetHealth};

verus! {

/// The multi-target monitoring engine's shared state: the immutable
/// configuration, one health aggregate per target (in the same order as the
/// target registry), and the cooldown ledger.
pub struct Monitor {
    pub config: Config,
    pub targets: Vec<TargetHealth>,
    pub cooldowns: CooldownLedger,
}

/// One line of the reporter's tabular snapshot, as plain values.
pub struct SummaryRow {
    pub name: String,
    pub status: HealthStatus,
    pub uptime_basis_points: u64,
    pub avg_response_time_ms: u64,
    pub health_score_milli: u32,
}

/// What processing one check changes: the indexed aggregate advances by one
/// step of the update state machine, every other aggregate is untouched, and
/// the ledger and the returned dispatches are exactly what the alert
/// evaluator yields for the fresh check against the post-update snapshot.
pub open spec fn process_result(
    pre: Monitor,
    post: Monitor,
    ds: Seq<AlertDispatch>,
    index: int,
    c: CheckModel,
    now_ms: u64,
) -> bool {
    &&& post.config == pre.config
    &&& post.targets@.len() == pre.targets@.len()
    &&& forall|j: int|
        0 <= j < pre.targets@.len() && j != index ==> post.targets@[j] == pre.targets@[j]
    &&& post.targets@[index]@ == update_model(pre.targets@[index]@, c)
    &&& ({
        let r = evaluate_model(
            pre.cooldowns@,
            pre.config.alerts@.map_values(|a: Alert| a@),
            c,
            post.targets@[index]@,
            pre.targets@[index]@.name,
            pre.targets@[index]@.url,
            now_ms,
        );
        &&& post.cooldowns@ == r.0
        &&& ds.map_values(|d: AlertDispatch| d@) == r.1
    })
}

impl Monitor {
    pub open spec fn wf(&self) -> bool {
        &&& self.targets@.len() == self.config.targets@.len()
        &&& forall|i: int| 0 <= i < self.targets@.len() ==> (#[trigger] self.targets@[i]).wf()
        &&& self.cooldowns.wf()
    }

    /// A monitor over a configuration: one fresh aggregate per configured
    /// target, in registry order, and an empty cooldown ledger. Aggregates
    /// are created once here and never removed or recreated.
    pub fn new(config: Config) -> (r: Self)
        ensures
            r.wf(),
            r.config == config,
            r.targets@.len() == config.targets@.len(),
            forall|i: int|
                0 <= i < config.targets@.len() ==> (#[trigger] r.targets@[i])@ == init_model(
                    config.targets@[i].name@,
                    config.targets@[i].url@,
                ),
            r.cooldowns@ == Map::<(Seq<char>, Seq<char>), u64>::empty(),
    {
        let mut targets: Vec<TargetHealth> = Vec::new();
        let mut i: usize = 0;
        while i < config.targets.len()
            invariant
                i <= config.targets@.len(),
                targets@.len() == i,
                forall|j: int| 0 <= j < i ==> (#[trigger] targets@[j]).wf(),
                forall|j: int|
                    0 <= j < i ==> (#[trigger] targets@[j])@ == init_model(
                        config.targets@[j].name@,
                        config.targets@[j].url@,
                    ),
            decreases config.targets@.len() - i,
        {
            targets.push(TargetHealth::new(&config.targets[i]));
            i = i + 1;
        }
        Monitor { config, targets, cooldowns: CooldownLedger::new() }
    }

    /// One poll iteration's shared-state step for the indexed target: fold
    /// the fresh check into that target's aggregate, then evaluate every
    /// alert rule against the check and the updated snapshot at the given
    /// time, and hand back the webhook notifications that are due.
    pub fn process_check(&mut self, index: usize, check: &HealthCheck, now_ms: u64) -> (ds: Vec<
        AlertDispatch,
    >)
        requires
            old(self).wf(),
            index < old(self).targets@.len(),
            old(self).targets@[index as int].total_checks < u64::MAX,
            old(self).targets@[index as int].consecutive_failures < u32::MAX,
        ensures
            final(self).wf(),
            process_result(*old(self), *final(self), ds@, index as int, check@, now_ms),
    {
        let ghost pre = *self;
        let mut h = self.targets.remove(index);
        h.update_with_check(check);
        let ds = check_alerts(
            &h.name,
            &h.url,
            check,
            &h,
            &self.config.alerts,
            &mut self.cooldowns,
            now_ms,
        );
        self.targets.insert(index, h);
        proof {
            assert(self.targets@ =~= pre.targets@.update(index as int, h));
        }
        ds
    }

    /// The same step, stamped with the wall clock. Whatever time the clock
    /// answers, the aggregates, the ledger and the dispatches relate to it
    /// exactly as `process_result` describes.
    pub fn process_check_now(&mut self, index: usize, check: &HealthCheck) -> (ds: Vec<
        AlertDispatch,
    >)
        requires
            old(self).wf(),
            index < old(self).targets@.len(),
            old(self).targets@[index as int].total_checks < u64::MAX,
            old(self).targets@[index as int].consecutive_failures < u32::MAX,
        ensures
            final(self).wf(),
            exists|now_ms: u64|
                #[trigger] process_result(*old(self), *final(self), ds@, index as int, check@,
                    now_ms),
    {
        let now = crate::clock::now_unix_millis();
        let now_ms: u64 = now as u64;
        self.process_check(index, check, now_ms)
    }

    /// The reporter's read-only snapshot: one row per target, in registry
    /// order, copying the fields the status table shows. Never mutates any
    /// aggregate.
    pub fn status_summary(&self) -> (rows: Vec<SummaryRow>)
        ensures
            rows@.len() == self.targets@.len(),
            forall|i: int|
                0 <= i < self.targets@.len() ==> {
                    let row = #[trigger] rows@[i];
                    let h = self.targets@[i];
                    &&& row.name@ == h.name@
                    &&& row.status == h.current_status
                    &&& row.uptime_basis_points == h.uptime_basis_points
                    &&& row.avg_response_time_ms == h.avg_response_time_ms
                    &&& row.health_score_milli == h.health_score_milli
                },
    {
        let mut rows: Vec<SummaryRow> = Vec::new();
        let mut i: usize = 0;
        while i < self.targets.len()
            invariant
                i <= self.targets@.len(),
                rows@.len() == i,
                forall|j: int|
                    0 <= j < i ==> {
                        let row = #[trigger] rows@[j];
                        let h = self.targets@[j];
                        &&& row.name@ == h.name@
                        &&& row.status == h.current_status
                        &&& row.uptime_basis_points == h.uptime_basis_points
                        &&& row.avg_response_time_ms == h.avg_response_time_ms
                        &&& row.health_score_milli == h.health_score_milli
                    },
            decreases self.targets@.len() - i,
        {
            let h = &self.targets[i];
            rows.push(SummaryRow {
                name: h.name.clone(),
                status: h.current_status,
                uptime_basis_points: h.uptime_basis_points,
                avg_response_time_ms: h.avg_response_time_ms,
                health_score_milli: h.health_score_milli,
            });
            i = i + 1;
        }
        rows
    }
}

impl HealthStatus {
    /// The status's human-readable name, for rendering by the output
    /// collaborator.
    pub fn label(&self) -> (r: String)
        ensures
            self is Healthy ==> r@ == "Healthy"@,
            self is Degraded ==> r@ == "Degraded"@,
            self is Unhealthy ==> r@ == "Unhealthy"@,
            self is Unknown ==> r@ == "Unknown"@,
    {
        match self {
            HealthStatus::Healthy => "Healthy".to_owned(),
            HealthStatus::Degraded => "Degraded".to_owned(),
            HealthStatus::Unhealthy => "Unhealthy".to_owned(),
            HealthStatus::Unknown => "Unknown".to_owned(),
        }
    }
}

} // verus!
