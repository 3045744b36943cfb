use vstd::prelude::*;

use crate::config::{Alert, AlertTrigger, RuleModel};
use crate::health::{CheckModel, HealthCheck, HealthModel, TargetHealth};

verus! {

/// One dispatch record of the cooldown ledger: when a webhook was last
/// delivered for one (rule, target) pair.
pub struct CooldownEntry {
    pub rule: String,
    pub target: String,
    pub last_sent_ms: u64,
}

/// The (rule name, target name) identity an entry is keyed by.
pub open spec fn entry_key(e: CooldownEntry) -> (Seq<char>, Seq<char>) {
    (e.rule@, e.target@)
}

/// The mapping a sequence of entries denotes, later entries winning.
pub open spec fn ledger_map(s: Seq<CooldownEntry>) -> Map<(Seq<char>, Seq<char>), u64>
    decreases s.len(),
{
    if s.len() == 0 {
        Map::empty()
    } else {
        ledger_map(s.drop_last()).insert(entry_key(s.last()), s.last().last_sent_ms)
    }
}

/// No two entries share a key.
pub open spec fn unique_keys(s: Seq<CooldownEntry>) -> bool {
    forall|i: int, j: int|
        0 <= i < j < s.len() ==> #[trigger] entry_key(s[i]) != #[trigger] entry_key(s[j])
}

/// The cooldown ledger: for each (rule, target) pair, when a webhook was last
/// dispatched for it. Viewed as a finite map from the pair of names to that
/// timestamp.
pub struct CooldownLedger {
    pub entries: Vec<CooldownEntry>,
}

impl View for CooldownLedger {
    type V = Map<(Seq<char>, Seq<char>), u64>;

    open spec fn view(&self) -> Map<(Seq<char>, Seq<char>), u64> {
        ledger_map(self.entries@)
    }
}

proof fn lemma_ledger_lookup(s: Seq<CooldownEntry>, k: (Seq<char>, Seq<char>))
    ensures
        ledger_map(s).contains_key(k) <==> (exists|i: int|
            0 <= i < s.len() && #[trigger] entry_key(s[i]) == k),
        unique_keys(s) ==> forall|i: int|
            0 <= i < s.len() && #[trigger] entry_key(s[i]) == k ==> ledger_map(s)[k] == s[
                i].last_sent_ms,
    decreases s.len(),
{
    if s.len() > 0 {
        lemma_ledger_lookup(s.drop_last(), k);
        assert(forall|i: int|
            0 <= i < s.len() - 1 ==> s.drop_last()[i] == #[trigger] s[i]);
        if ledger_map(s).contains_key(k) && entry_key(s.last()) != k {
            assert(exists|i: int| 0 <= i < s.len() - 1 && #[trigger] entry_key(s.drop_last()[i])
                == k);
            let w = choose|i: int|
                0 <= i < s.len() - 1 && #[trigger] entry_key(s.drop_last()[i]) == k;
            assert(entry_key(s[w]) == k);
        }
        if exists|i: int| 0 <= i < s.len() && #[trigger] entry_key(s[i]) == k {
            let w = choose|i: int| 0 <= i < s.len() && #[trigger] entry_key(s[i]) == k;
            if w < s.len() - 1 {
                assert(entry_key(s.drop_last()[w]) == k);
            }
        }
    }
}

proof fn lemma_ledger_update(s: Seq<CooldownEntry>, i: int, e: CooldownEntry)
    requires
        unique_keys(s),
        0 <= i < s.len(),
        entry_key(e) == entry_key(s[i]),
    ensures
        ledger_map(s.update(i, e)) =~= ledger_map(s).insert(entry_key(e), e.last_sent_ms),
        unique_keys(s.update(i, e)),
    decreases s.len(),
{
    assert(forall|j: int| 0 <= j < s.len() && j != i ==> s.update(i, e)[j] == #[trigger] s[j]);
    assert(s.update(i, e)[i] == e);
    if i == s.len() - 1 {
        assert(s.update(i, e).drop_last() =~= s.drop_last());
        assert(s.update(i, e).last() == e);
        assert(ledger_map(s.update(i, e)) =~= ledger_map(s.drop_last()).insert(
            entry_key(e), e.last_sent_ms));
        assert(ledger_map(s).insert(entry_key(e), e.last_sent_ms) =~= ledger_map(
            s.drop_last()).insert(entry_key(e), e.last_sent_ms));
    } else {
        assert(s.update(i, e).drop_last() =~= s.drop_last().update(i, e));
        assert(forall|j: int|
            0 <= j < s.len() - 1 ==> s.drop_last()[j] == #[trigger] s[j]);
        lemma_ledger_update(s.drop_last(), i, e);
        assert(s.update(i, e).last() == s.last());
        assert(entry_key(s.last()) != entry_key(e));
        assert(ledger_map(s.update(i, e)) =~= ledger_map(s).insert(entry_key(e),
            e.last_sent_ms));
    }
    assert forall|a: int, b: int| 0 <= a < b < s.update(i, e).len() implies #[trigger] entry_key(
        s.update(i, e)[a]) != #[trigger] entry_key(s.update(i, e)[b]) by {
        assert(entry_key(s[a]) != entry_key(s[b]));
    }
}

impl CooldownLedger {
    pub open spec fn wf(&self) -> bool {
        unique_keys(self.entries@)
    }

    /// A fresh, empty ledger: no (rule, target) pair has ever dispatched.
    pub fn new() -> (r: Self)
        ensures
            r@ == Map::<(Seq<char>, Seq<char>), u64>::empty(),
            r.wf(),
    {
        CooldownLedger { entries: Vec::new() }
    }

    /// When a webhook was last dispatched for this (rule, target) pair, if
    /// ever.
    pub fn get(&self, rule: &String, target: &String) -> (r: Option<u64>)
        requires
            self.wf(),
        ensures
            r == if self@.contains_key((rule@, target@)) {
                Some(self@[(rule@, target@)])
            } else {
                None::<u64>
            },
    {
        let ghost k = (rule@, target@);
        proof {
            lemma_ledger_lookup(self.entries@, k);
        }
        let mut i: usize = 0;
        while i < self.entries.len()
            invariant
                i <= self.entries@.len(),
                forall|j: int| 0 <= j < i ==> #[trigger] entry_key(self.entries@[j]) != k,
                k == (rule@, target@),
                self.wf(),
                ledger_map(self.entries@).contains_key(k) <==> (exists|j: int|
                    0 <= j < self.entries@.len() && #[trigger] entry_key(self.entries@[j]) == k),
                forall|j: int|
                    0 <= j < self.entries@.len() && #[trigger] entry_key(self.entries@[j]) == k
                        ==> ledger_map(self.entries@)[k] == self.entries@[j].last_sent_ms,
            decreases self.entries@.len() - i,
        {
            let hit = self.entries[i].rule == *rule && self.entries[i].target == *target;
            if hit {
                proof {
                    assert(entry_key(self.entries@[i as int]) == k);
                }
                return Some(self.entries[i].last_sent_ms);
            }
            i = i + 1;
        }
        None
    }

    /// Note a dispatch for this (rule, target) pair at the given time,
    /// overwriting any earlier record for the pair.
    pub fn record(&mut self, rule: &String, target: &String, now_ms: u64)
        requires
            old(self).wf(),
        ensures
            final(self).wf(),
            final(self)@ == old(self)@.insert((rule@, target@), now_ms),
    {
        let ghost k = (rule@, target@);
        let mut i: usize = 0;
        while i < self.entries.len()
            invariant
                i <= self.entries@.len(),
                forall|j: int| 0 <= j < i ==> #[trigger] entry_key(self.entries@[j]) != k,
                k == (rule@, target@),
                self.wf(),
                self == old(self),
            decreases self.entries@.len() - i,
        {
            let hit = self.entries[i].rule == *rule && self.entries[i].target == *target;
            if hit {
                let e = CooldownEntry {
                    rule: rule.clone(),
                    target: target.clone(),
                    last_sent_ms: now_ms,
                };
                proof {
                    lemma_ledger_update(self.entries@, i as int, e);
                }
                self.entries.set(i, e);
                return ;
            }
            i = i + 1;
        }
        let e = CooldownEntry { rule: rule.clone(), target: target.clone(), last_sent_ms: now_ms };
        let ghost s0 = self.entries@;
        self.entries.push(e);
        proof {
            assert(self.entries@.drop_last() =~= s0);
            assert(self.entries@.last() == e);
            assert(ledger_map(self.entries@) =~= ledger_map(s0).insert(k, now_ms));
            assert forall|a: int, b: int| 0 <= a < b < self.entries@.len() implies #[trigger]
                entry_key(self.entries@[a]) != #[trigger] entry_key(self.entries@[b]) by {
                if b < self.entries@.len() - 1 {
                    assert(entry_key(s0[a]) != entry_key(s0[b]));
                }
            }
        }
    }
}

/// Whether one trigger predicate fires for an incoming check, judged against
/// the target's post-update aggregate snapshot where the predicate needs
/// state.
pub open spec fn trigger_fires(t: AlertTrigger, c: CheckModel, h: HealthModel) -> bool {
    match t {
        AlertTrigger::ResponseTimeMs(threshold) => c.response_time_ms > threshold,
        AlertTrigger::CertExpiringDays(days) => c.cert_expires_days matches Some(d) && d <= days,
        AlertTrigger::ConsecutiveFailures(n) => h.consecutive_failures >= n,
        AlertTrigger::HealthScoreBelow(x) => h.health_score_milli < x,
    }
}

/// Whether any of a rule's trigger predicates fires.
pub open spec fn rule_fires(r: RuleModel, c: CheckModel, h: HealthModel) -> bool {
    exists|i: int| 0 <= i < r.trigger_on.len() && trigger_fires(#[trigger] r.trigger_on[i], c, h)
}

/// Whether the quiet period for a key has passed: either no dispatch is on
/// record for it, or at least the cooldown has elapsed since the last one —
/// suppression holds only while the elapsed time is strictly less than the
/// cooldown.
pub open spec fn cooldown_passed(
    l: Map<(Seq<char>, Seq<char>), u64>,
    k: (Seq<char>, Seq<char>),
    cooldown_minutes: u32,
    now_ms: u64,
) -> bool {
    !l.contains_key(k) || now_ms >= l[k] + cooldown_minutes * 60000
}

/// One webhook notification to be delivered, as plain values: the rule it
/// comes from, where to deliver, and the fields of the message body.
pub struct AlertDispatch {
    pub rule_name: String,
    pub webhook_url: String,
    pub target: String,
    pub url: String,
    pub status_code: Option<u16>,
    pub response_time_ms: u64,
    pub error: Option<String>,
}

/// Mathematical image of a pending webhook notification.
#[verifier::ext_equal]
pub struct DispatchModel {
    pub rule_name: Seq<char>,
    pub webhook_url: Seq<char>,
    pub target: Seq<char>,
    pub url: Seq<char>,
    pub status_code: Option<u16>,
    pub response_time_ms: u64,
    pub error: Option<Seq<char>>,
}

impl View for AlertDispatch {
    type V = DispatchModel;

    open spec fn view(&self) -> DispatchModel {
        DispatchModel {
            rule_name: self.rule_name@,
            webhook_url: self.webhook_url@,
            target: self.target@,
            url: self.url@,
            status_code: self.status_code,
            response_time_ms: self.response_time_ms,
            error: match self.error {
                Some(e) => Some(e@),
                None => None,
            },
        }
    }
}

/// The notification a firing rule sends for a check of one target.
pub open spec fn dispatch_of(
    r: RuleModel,
    c: CheckModel,
    target_name: Seq<char>,
    target_url: Seq<char>,
) -> DispatchModel {
    DispatchModel {
        rule_name: r.name,
        webhook_url: r.webhook_url,
        target: target_name,
        url: target_url,
        status_code: c.status_code,
        response_time_ms: c.response_time_ms,
        error: c.error,
    }
}

/// The alert evaluator's behaviour over a whole rule list, processed in
/// order: a rule that fires and whose (rule, target) cooldown has passed
/// yields one dispatch and stamps the ledger at the current time; any other
/// rule leaves both untouched.
pub open spec fn evaluate_model(
    l: Map<(Seq<char>, Seq<char>), u64>,
    rules: Seq<RuleModel>,
    c: CheckModel,
    h: HealthModel,
    target_name: Seq<char>,
    target_url: Seq<char>,
    now_ms: u64,
) -> (Map<(Seq<char>, Seq<char>), u64>, Seq<DispatchModel>)
    decreases rules.len(),
{
    if rules.len() == 0 {
        (l, Seq::empty())
    } else {
        let prev = evaluate_model(l, rules.drop_last(), c, h, target_name, target_url, now_ms);
        let r = rules.last();
        let k = (r.name, target_name);
        if rule_fires(r, c, h) && cooldown_passed(prev.0, k, r.cooldown_minutes, now_ms) {
            (prev.0.insert(k, now_ms), prev.1.push(dispatch_of(r, c, target_name, target_url)))
        } else {
            prev
        }
    }
}

/// Law: a (rule, target) pair whose cooldown window is still open is
/// suppressed — when the ledger shows a dispatch for the pair and, for every
/// rule bearing that name, strictly less than the rule's cooldown has
/// elapsed since, evaluation emits no dispatch for that rule name and leaves
/// the pair's ledger record untouched.
pub proof fn lemma_cooldown_suppresses(
    l: Map<(Seq<char>, Seq<char>), u64>,
    rules: Seq<RuleModel>,
    c: CheckModel,
    h: HealthModel,
    target_name: Seq<char>,
    target_url: Seq<char>,
    now_ms: u64,
    rule_name: Seq<char>,
)
    requires
        l.contains_key((rule_name, target_name)),
        forall|j: int|
            0 <= j < rules.len() && (#[trigger] rules[j]).name == rule_name ==> now_ms < l[(
                rule_name,
                target_name,
            )] + rules[j].cooldown_minutes * 60000,
    ensures
        ({
            let r = evaluate_model(l, rules, c, h, target_name, target_url, now_ms);
            &&& r.0.contains_key((rule_name, target_name))
            &&& r.0[(rule_name, target_name)] == l[(rule_name, target_name)]
            &&& forall|j: int|
                0 <= j < r.1.len() ==> (#[trigger] r.1[j]).rule_name != rule_name
        }),
    decreases rules.len(),
{
    if rules.len() > 0 {
        assert(forall|j: int|
            0 <= j < rules.len() - 1 ==> rules.drop_last()[j] == #[trigger] rules[j]);
        lemma_cooldown_suppresses(l, rules.drop_last(), c, h, target_name, target_url, now_ms,
            rule_name);
        let prev = evaluate_model(l, rules.drop_last(), c, h, target_name, target_url, now_ms);
        let r = evaluate_model(l, rules, c, h, target_name, target_url, now_ms);
        let last = rules.last();
        if last.name == rule_name {
            assert(!cooldown_passed(prev.0, (last.name, target_name), last.cooldown_minutes,
                now_ms));
        }
    }
}

/// Law: a dispatch stamps the ledger — with distinct rule names, whenever
/// evaluation emits a dispatch for a rule name, the resulting ledger records
/// the evaluation time for that (rule, target) pair.
pub proof fn lemma_dispatch_stamps_ledger(
    l: Map<(Seq<char>, Seq<char>), u64>,
    rules: Seq<RuleModel>,
    c: CheckModel,
    h: HealthModel,
    target_name: Seq<char>,
    target_url: Seq<char>,
    now_ms: u64,
    rule_name: Seq<char>,
)
    requires
        forall|j1: int, j2: int|
            0 <= j1 < j2 < rules.len() ==> (#[trigger] rules[j1]).name != (#[trigger] rules[
                j2]).name,
    ensures
        ({
            let r = evaluate_model(l, rules, c, h, target_name, target_url, now_ms);
            (exists|j: int| 0 <= j < r.1.len() && (#[trigger] r.1[j]).rule_name == rule_name)
                ==> r.0.contains_key((rule_name, target_name)) && r.0[(rule_name, target_name)]
                == now_ms
        }),
    decreases rules.len(),
{
    if rules.len() > 0 {
        assert(forall|j: int|
            0 <= j < rules.len() - 1 ==> rules.drop_last()[j] == #[trigger] rules[j]);
        lemma_dispatch_stamps_ledger(l, rules.drop_last(), c, h, target_name, target_url, now_ms,
            rule_name);
        let prev = evaluate_model(l, rules.drop_last(), c, h, target_name, target_url, now_ms);
        let r = evaluate_model(l, rules, c, h, target_name, target_url, now_ms);
        let last = rules.last();
        if exists|j: int| 0 <= j < r.1.len() && (#[trigger] r.1[j]).rule_name == rule_name {
            let w = choose|j: int|
                0 <= j < r.1.len() && (#[trigger] r.1[j]).rule_name == rule_name;
            if r.1.len() > prev.1.len() && w == r.1.len() - 1 {
                // the last rule itself dispatched under this name
            } else {
                // The witness dispatch already sits in the prefix's output,
                // so the prefix's ledger carries the stamp; the last rule
                // either leaves that key alone or re-stamps it with the same
                // time.
                assert(prev.1[w] == r.1[w]);
                assert(exists|j: int|
                    0 <= j < prev.1.len() && (#[trigger] prev.1[j]).rule_name == rule_name);
            }
        }
    }
}

/// Law: no two dispatches for one (rule, target) pair within the rule's
/// cooldown window — with distinct rule names, if one evaluation dispatches
/// for a rule, a second evaluation strictly less than that rule's cooldown
/// after the first dispatches nothing for it, whatever the two checks and
/// snapshots were.
pub proof fn lemma_no_duplicate_within_cooldown(
    l: Map<(Seq<char>, Seq<char>), u64>,
    rules: Seq<RuleModel>,
    c1: CheckModel,
    h1: HealthModel,
    c2: CheckModel,
    h2: HealthModel,
    target_name: Seq<char>,
    target_url: Seq<char>,
    now1_ms: u64,
    now2_ms: u64,
    rule_name: Seq<char>,
)
    requires
        forall|j1: int, j2: int|
            0 <= j1 < j2 < rules.len() ==> (#[trigger] rules[j1]).name != (#[trigger] rules[
                j2]).name,
        forall|j: int|
            0 <= j < rules.len() && (#[trigger] rules[j]).name == rule_name ==> now2_ms < now1_ms
                + rules[j].cooldown_minutes * 60000,
    ensures
        ({
            let r1 = evaluate_model(l, rules, c1, h1, target_name, target_url, now1_ms);
            let r2 = evaluate_model(r1.0, rules, c2, h2, target_name, target_url, now2_ms);
            (exists|j: int| 0 <= j < r1.1.len() && (#[trigger] r1.1[j]).rule_name == rule_name)
                ==> forall|j: int|
                0 <= j < r2.1.len() ==> (#[trigger] r2.1[j]).rule_name != rule_name
        }),
{
    let r1 = evaluate_model(l, rules, c1, h1, target_name, target_url, now1_ms);
    if exists|j: int| 0 <= j < r1.1.len() && (#[trigger] r1.1[j]).rule_name == rule_name {
        lemma_dispatch_stamps_ledger(l, rules, c1, h1, target_name, target_url, now1_ms,
            rule_name);
        lemma_cooldown_suppresses(r1.0, rules, c2, h2, target_name, target_url, now2_ms,
            rule_name);
    }
}

/// Whether any trigger of this rule fires for the fresh check, judged
/// against the target's post-update aggregate snapshot.
pub fn should_trigger_alert(alert: &Alert, check: &HealthCheck, health: &TargetHealth) -> (r:
    bool)
    ensures
        r == rule_fires(alert@, check@, health@),
{
    let mut i: usize = 0;
    while i < alert.trigger_on.len()
        invariant
            i <= alert.trigger_on@.len(),
            forall|j: int|
                0 <= j < i ==> !trigger_fires(#[trigger] alert.trigger_on@[j], check@, health@),
        decreases alert.trigger_on@.len() - i,
    {
        let fires = match alert.trigger_on[i] {
            AlertTrigger::ResponseTimeMs(threshold) => check.response_time_ms > threshold,
            AlertTrigger::CertExpiringDays(days) => match check.cert_expires_days {
                Some(d) => d <= days,
                None => false,
            },
            AlertTrigger::ConsecutiveFailures(n) => health.consecutive_failures >= n,
            AlertTrigger::HealthScoreBelow(x) => health.health_score_milli < x,
        };
        if fires {
            proof {
                assert(trigger_fires(alert@.trigger_on[i as int], check@, health@));
            }
            return true;
        }
        i = i + 1;
    }
    false
}

fn make_dispatch(alert: &Alert, check: &HealthCheck, target_name: &String, target_url: &String)
    -> (d: AlertDispatch)
    ensures
        d@ == dispatch_of(alert@, check@, target_name@, target_url@),
{
    let d = AlertDispatch {
        rule_name: alert.name.clone(),
        webhook_url: alert.webhook_url.clone(),
        target: target_name.clone(),
        url: target_url.clone(),
        status_code: check.status_code,
        response_time_ms: check.response_time_ms,
        error: match &check.error {
            Some(e) => Some(e.clone()),
            None => None,
        },
    };
    proof {
        assert(d@ =~= dispatch_of(alert@, check@, target_name@, target_url@));
    }
    d
}

/// Evaluate every alert rule against a fresh check and the target's
/// post-update aggregate snapshot, honouring and stamping the cooldown
/// ledger, and hand back the webhook notifications that are due. Delivery
/// itself is fire-and-forget and happens outside the evaluator.
pub fn check_alerts(
    target_name: &String,
    target_url: &String,
    check: &HealthCheck,
    health: &TargetHealth,
    alerts: &Vec<Alert>,
    cooldowns: &mut CooldownLedger,
    now_ms: u64,
) -> (ds: Vec<AlertDispatch>)
    requires
        old(cooldowns).wf(),
    ensures
        final(cooldowns).wf(),
        ({
            let r = evaluate_model(
                old(cooldowns)@,
                alerts@.map_values(|a: Alert| a@),
                check@,
                health@,
                target_name@,
                target_url@,
                now_ms,
            );
            &&& final(cooldowns)@ == r.0
            &&& ds@.map_values(|d: AlertDispatch| d@) == r.1
        }),
{
    let ghost l0 = cooldowns@;
    let ghost rules = alerts@.map_values(|a: Alert| a@);
    let mut ds: Vec<AlertDispatch> = Vec::new();
    let mut i: usize = 0;
    while i < alerts.len()
        invariant
            i <= alerts@.len(),
            rules == alerts@.map_values(|a: Alert| a@),
            cooldowns.wf(),
            ({
                let r = evaluate_model(l0, rules.take(i as int), check@, health@, target_name@,
                    target_url@, now_ms);
                &&& cooldowns@ == r.0
                &&& ds@.map_values(|d: AlertDispatch| d@) == r.1
            }),
        decreases alerts@.len() - i,
    {
        let ghost l_prev = cooldowns@;
        let ghost ds_prev = ds@;
        let alert = &alerts[i];
        let fires = should_trigger_alert(alert, check, health);
        let mut dispatched = false;
        if fires {
            let prior = cooldowns.get(&alert.name, target_name);
            let allowed = match prior {
                None => true,
                Some(t) => (now_ms as u128) >= (t as u128) + (alert.cooldown_minutes as u128)
                    * 60000,
            };
            if allowed {
                ds.push(make_dispatch(alert, check, target_name, target_url));
                cooldowns.record(&alert.name, target_name, now_ms);
                dispatched = true;
            }
        }
        i = i + 1;
        proof {
            assert(rules.take(i as int).drop_last() =~= rules.take(i as int - 1));
            assert(rules.take(i as int).last() == rules[i as int - 1]);
            assert(rules[i as int - 1] == alerts@[i as int - 1]@);
            if dispatched {
                assert(ds@.map_values(|d: AlertDispatch| d@) =~= ds_prev.map_values(
                    |d: AlertDispatch| d@).push(ds@.last()@));
            }
        }
    }
    proof {
        assert(rules.take(alerts@.len() as int) =~= rules);
    }
    ds
}

} // verus!
