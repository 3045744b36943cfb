use vstd::prelude::*;

use crate::health::{
    apply_checks, init_model, update_model, CheckModel, HealthModel, HealthStatus,
};

verus! {

/// How many of the checks in a sequence succeeded.
pub open spec fn count_successes(cs: Seq<CheckModel>) -> nat
    decreases cs.len(),
{
    if cs.len() == 0 {
        0nat
    } else {
        count_successes(cs.drop_last()) + if cs.last().success {
            1nat
        } else {
            0nat
        }
    }
}

/// The sum of the response times of a sequence of checks, in milliseconds.
pub open spec fn sum_response_ms(cs: Seq<CheckModel>) -> nat
    decreases cs.len(),
{
    if cs.len() == 0 {
        0nat
    } else {
        sum_response_ms(cs.drop_last()) + (cs.last().response_time_ms as nat)
    }
}

proof fn lemma_counts_track(m: HealthModel, cs: Seq<CheckModel>)
    ensures
        apply_checks(m, cs).total_checks == m.total_checks + cs.len(),
        apply_checks(m, cs).successful_checks == m.successful_checks + count_successes(cs),
        apply_checks(m, cs).total_response_time_ms == m.total_response_time_ms + sum_response_ms(
            cs),
    decreases cs.len(),
{
    if cs.len() > 0 {
        lemma_counts_track(m, cs.drop_last());
    }
}

/// Law: after any sequence of n checks of which k succeeded, the aggregate has
/// counted exactly n checks and k successes, and its uptime percentage is
/// exactly the rational 100·k/n — held as the pair (k, n) and, floored to
/// hundredths of a percent, in `uptime_basis_points`.
pub proof fn lemma_uptime_percentage_exact(name: Seq<char>, url: Seq<char>, cs: Seq<CheckModel>)
    requires
        cs.len() > 0,
    ensures
        ({
            let h = apply_checks(init_model(name, url), cs);
            let k = count_successes(cs);
            let n = cs.len();
            &&& h.total_checks == n
            &&& h.successful_checks == k
            &&& h.uptime_basis_points == (10000 * k) / n
            &&& h.uptime_basis_points * n <= 10000 * k < (h.uptime_basis_points + 1) * n
        }),
{
    let m0 = init_model(name, url);
    let h = apply_checks(m0, cs);
    lemma_counts_track(m0, cs);
    assert(h == update_model(apply_checks(m0, cs.drop_last()), cs.last()));
    let k = count_successes(cs);
    let n = cs.len();
    assert(((10000 * k) / n) * n <= 10000 * k < ((10000 * k) / n + 1) * n) by (nonlinear_arith)
        requires
            n > 0,
    ;
}

/// Law: after any sequence of checks, the recorded average response time is
/// the arithmetic mean of all recorded response times, floored — that is,
/// within one millisecond of the exact mean.
pub proof fn lemma_average_is_arithmetic_mean(name: Seq<char>, url: Seq<char>, cs: Seq<CheckModel>)
    requires
        cs.len() > 0,
    ensures
        ({
            let h = apply_checks(init_model(name, url), cs);
            let s = sum_response_ms(cs);
            let n = cs.len();
            &&& h.total_response_time_ms == s
            &&& h.avg_response_time_ms == s / n
            &&& h.avg_response_time_ms * n <= s < (h.avg_response_time_ms + 1) * n
        }),
{
    let m0 = init_model(name, url);
    let h = apply_checks(m0, cs);
    lemma_counts_track(m0, cs);
    assert(h == update_model(apply_checks(m0, cs.drop_last()), cs.last()));
    let s = sum_response_ms(cs);
    let n = cs.len();
    assert((s / n) * n <= s < (s / n + 1) * n) by (nonlinear_arith)
        requires
            n > 0,
    ;
}

/// Law: the consecutive-failure count resets to 0 on any successful check and
/// grows by exactly 1 on any failed check, whatever the prior state.
pub proof fn lemma_consecutive_failures_step(m: HealthModel, c: CheckModel)
    ensures
        c.success ==> update_model(m, c).consecutive_failures == 0,
        !c.success ==> update_model(m, c).consecutive_failures == m.consecutive_failures + 1,
{
}

/// Law: the history buffer never exceeds 100 entries, and eviction is strictly
/// oldest-first — after any sequence of checks the buffer holds exactly the
/// most recent (up to) 100 of them, in order.
pub proof fn lemma_history_keeps_most_recent(name: Seq<char>, url: Seq<char>, cs: Seq<CheckModel>)
    ensures
        ({
            let h = apply_checks(init_model(name, url), cs);
            let start = if cs.len() <= 100 {
                0int
            } else {
                cs.len() - 100
            };
            &&& h.recent_checks.len() <= 100
            &&& h.recent_checks == cs.skip(start)
        }),
    decreases cs.len(),
{
    let m0 = init_model(name, url);
    let h = apply_checks(m0, cs);
    if cs.len() == 0 {
        assert(h.recent_checks =~= cs.skip(0));
    } else {
        lemma_history_keeps_most_recent(name, url, cs.drop_last());
        let prev = apply_checks(m0, cs.drop_last());
        assert(h == update_model(prev, cs.last()));
        let start = if cs.len() <= 100 {
            0int
        } else {
            cs.len() - 100
        };
        if prev.recent_checks.len() < 100 {
            assert(h.recent_checks =~= cs.skip(start));
        } else {
            assert(h.recent_checks =~= cs.skip(start));
        }
    }
}

proof fn lemma_all_successes_count(cs: Seq<CheckModel>)
    requires
        forall|i: int| 0 <= i < cs.len() ==> cs[i].success,
    ensures
        count_successes(cs) == cs.len(),
    decreases cs.len(),
{
    if cs.len() > 0 {
        lemma_all_successes_count(cs.drop_last());
    }
}

proof fn lemma_sum_bounded(cs: Seq<CheckModel>, bound: nat)
    requires
        forall|i: int| 0 <= i < cs.len() ==> cs[i].response_time_ms <= bound,
    ensures
        sum_response_ms(cs) <= bound * cs.len(),
    decreases cs.len(),
{
    if cs.len() > 0 {
        lemma_sum_bounded(cs.drop_last(), bound);
        assert(bound * (cs.len() - 1) + bound == bound * cs.len()) by (nonlinear_arith);
    }
}

/// Law: any non-empty run of exclusively successful checks, each answered in
/// at most 500 ms, leaves the aggregate at the full health score (1000
/// thousandths) with status Healthy.
pub proof fn lemma_fast_successes_are_healthy(name: Seq<char>, url: Seq<char>, cs: Seq<CheckModel>)
    requires
        cs.len() > 0,
        forall|i: int| 0 <= i < cs.len() ==> cs[i].success,
        forall|i: int| 0 <= i < cs.len() ==> cs[i].response_time_ms <= 500,
    ensures
        apply_checks(init_model(name, url), cs).health_score_milli == 1000,
        apply_checks(init_model(name, url), cs).current_status == HealthStatus::Healthy,
{
    let m0 = init_model(name, url);
    let h = apply_checks(m0, cs);
    let n = cs.len();
    lemma_counts_track(m0, cs);
    lemma_all_successes_count(cs);
    lemma_sum_bounded(cs, 500);
    assert(h == update_model(apply_checks(m0, cs.drop_last()), cs.last()));
    let s = sum_response_ms(cs);
    assert(s / n <= 500) by (nonlinear_arith)
        requires
            n > 0,
            s <= 500 * n,
    ;
    assert((700 * n) / n == 700) by (nonlinear_arith)
        requires
            n > 0,
    ;
    assert((10000 * n) / n == 10000) by (nonlinear_arith)
        requires
            n > 0,
    ;
}

proof fn lemma_successes_at_most_len(cs: Seq<CheckModel>)
    ensures
        count_successes(cs) <= cs.len(),
    decreases cs.len(),
{
    if cs.len() > 0 {
        lemma_successes_at_most_len(cs.drop_last());
    }
}

/// Law: the health score always lies between 0 and 1 — in thousandths,
/// between 0 and 1000 — in every state the aggregate can reach.
pub proof fn lemma_health_score_in_range(name: Seq<char>, url: Seq<char>, cs: Seq<CheckModel>)
    ensures
        apply_checks(init_model(name, url), cs).health_score_milli <= 1000,
{
    let m0 = init_model(name, url);
    if cs.len() > 0 {
        let h = apply_checks(m0, cs);
        lemma_counts_track(m0, cs);
        lemma_successes_at_most_len(cs);
        assert(h == update_model(apply_checks(m0, cs.drop_last()), cs.last()));
        let k = h.successful_checks;
        let n = h.total_checks;
        assert((700 * k) / n <= 700) by (nonlinear_arith)
            requires
                0 < n,
                k <= n,
        ;
    }
}

/// Law: Unknown is the state before the first check and no other — any
/// non-empty sequence of checks leaves the status Healthy, Degraded or
/// Unhealthy.
pub proof fn lemma_status_known_after_first_check(
    name: Seq<char>,
    url: Seq<char>,
    cs: Seq<CheckModel>,
)
    ensures
        cs.len() == 0 ==> apply_checks(init_model(name, url), cs).current_status
            == HealthStatus::Unknown,
        cs.len() > 0 ==> apply_checks(init_model(name, url), cs).current_status
            != HealthStatus::Unknown,
{
    let m0 = init_model(name, url);
    if cs.len() > 0 {
        assert(apply_checks(m0, cs) == update_model(apply_checks(m0, cs.drop_last()), cs.last()));
    }
}

proof fn lemma_failures_accumulate(m: HealthModel, cs: Seq<CheckModel>)
    requires
        forall|i: int| 0 <= i < cs.len() ==> !cs[i].success,
    ensures
        apply_checks(m, cs).consecutive_failures == m.consecutive_failures + cs.len(),
    decreases cs.len(),
{
    if cs.len() > 0 {
        lemma_failures_accumulate(m, cs.drop_last());
    }
}

/// Law: three or more consecutive failed checks leave the aggregate Unhealthy,
/// regardless of any prior history.
pub proof fn lemma_failure_streak_is_unhealthy(m: HealthModel, cs: Seq<CheckModel>)
    requires
        cs.len() >= 3,
        forall|i: int| 0 <= i < cs.len() ==> !cs[i].success,
    ensures
        apply_checks(m, cs).consecutive_failures >= cs.len(),
        apply_checks(m, cs).current_status == HealthStatus::Unhealthy,
{
    lemma_failures_accumulate(m, cs);
    assert(apply_checks(m, cs) == update_model(apply_checks(m, cs.drop_last()), cs.last()));
    lemma_failures_accumulate(m, cs.drop_last());
}

} // verus!
