//! Health monitoring across the fourteen subsystems, and its aggregation
//! into one report.

use vstd::prelude::*;
use crate::evos::types::{
    all_subsystems, spec_allows_progression, spec_severity, spec_status_text, spec_subsystem_name,
    subsystem_index, SubsystemId, SubsystemStatus,
};
use crate::platform::now_millis;
use crate::text::decimal;
use crate::text::decimal_string;

verus! {

/// Health of one subsystem at one check.
#[derive(Debug)]
pub struct SubsystemHealth {
    /// Which subsystem.
    pub subsystem: SubsystemId,
    /// Its status.
    pub status: SubsystemStatus,
    /// When the check ran, in milliseconds since the Unix epoch.
    pub last_check: i64,
    /// Human-readable message.
    pub message: String,
}

impl SubsystemHealth {
    /// Renders the entry as `[<status>] <subsystem>: <message>`.
    pub fn to_string(&self) -> (s: String)
        ensures
            s@ == "["@ + spec_status_text(self.status) + "] "@
                + spec_subsystem_name(self.subsystem) + ": "@ + self.message@,
    {
        let mut s = String::from_str("[");
        s.append(self.status.to_string().as_str());
        s.append("] ");
        s.append(self.subsystem.name_str());
        s.append(": ");
        s.append(self.message.as_str());
        s
    }
}

/// Health of all subsystems at one moment.
#[derive(Debug)]
pub struct HealthReport {
    /// One entry per subsystem checked.
    pub entries: Vec<SubsystemHealth>,
    /// When the report was made, in milliseconds since the Unix epoch.
    pub generated_at: i64,
}

/// The kind of a status, without its message: 0 healthy, 1 degraded,
/// 2 failed, 3 unknown.
pub open spec fn status_kind(s: SubsystemStatus) -> nat {
    match s {
        SubsystemStatus::Healthy => 0,
        SubsystemStatus::Degraded(_) => 1,
        SubsystemStatus::Failed(_) => 2,
        SubsystemStatus::Unknown => 3,
    }
}

/// Number of entries whose status is of kind `k`.
pub open spec fn count_kind(entries: Seq<SubsystemHealth>, k: nat) -> nat
    decreases entries.len(),
{
    if entries.len() == 0 {
        0
    } else {
        count_kind(entries.drop_last(), k)
            + if status_kind(entries.last().status) == k { 1nat } else { 0nat }
    }
}

/// Index of the last entry of greatest severity among the first `n`
/// entries (the entry that `Iterator::max_by_key` picks).
pub open spec fn worst_index(entries: Seq<SubsystemHealth>, n: nat) -> nat
    decreases n,
{
    if n <= 1 {
        0
    } else {
        let w = worst_index(entries, (n - 1) as nat);
        if spec_severity(entries[n - 1].status) >= spec_severity(entries[w as int].status) {
            (n - 1) as nat
        } else {
            w
        }
    }
}

/// The worst status of a report: that of the last entry of greatest
/// severity, or `Unknown` when there are no entries.
pub open spec fn spec_overall_status(entries: Seq<SubsystemHealth>) -> SubsystemStatus {
    if entries.len() == 0 {
        SubsystemStatus::Unknown
    } else {
        entries[worst_index(entries, entries.len()) as int].status
    }
}

/// The subsystems whose status blocks progression, in entry order.
pub open spec fn spec_blocking(entries: Seq<SubsystemHealth>) -> Seq<SubsystemId>
    decreases entries.len(),
{
    if entries.len() == 0 {
        Seq::empty()
    } else {
        let rest = spec_blocking(entries.drop_last());
        if spec_allows_progression(entries.last().status) {
            rest
        } else {
            rest.push(entries.last().subsystem)
        }
    }
}

/// Whether every entry allows progression.
pub open spec fn spec_all_allow(entries: Seq<SubsystemHealth>) -> bool {
    forall|i: int| 0 <= i < entries.len() ==> spec_allows_progression(#[trigger] entries[i].status)
}

proof fn lemma_take_last<T>(s: Seq<T>, i: int)
    requires
        0 <= i < s.len(),
    ensures
        s.take(i + 1).drop_last() == s.take(i),
        s.take(i + 1).last() == s[i],
{
    assert(s.take(i + 1).drop_last() =~= s.take(i));
}

proof fn lemma_worst_index_bound(entries: Seq<SubsystemHealth>, n: nat)
    requires
        n >= 1,
    ensures
        worst_index(entries, n) < n,
        forall|j: int| 0 <= j < n ==> spec_severity(#[trigger] entries[j].status)
            <= spec_severity(entries[worst_index(entries, n) as int].status),
    decreases n,
{
    if n > 1 {
        lemma_worst_index_bound(entries, (n - 1) as nat);
    }
}

proof fn lemma_count_partition(entries: Seq<SubsystemHealth>)
    ensures
        count_kind(entries, 0) + count_kind(entries, 1)
            + count_kind(entries, 2) + count_kind(entries, 3)
            == entries.len(),
    decreases entries.len(),
{
    if entries.len() > 0 {
        lemma_count_partition(entries.drop_last());
    }
}

proof fn lemma_blocking_empty(entries: Seq<SubsystemHealth>)
    ensures
        spec_all_allow(entries) <==> spec_blocking(entries).len() == 0,
    decreases entries.len(),
{
    if entries.len() > 0 {
        lemma_blocking_empty(entries.drop_last());
        let init = entries.drop_last();
        if spec_all_allow(entries) {
            assert forall|i: int| 0 <= i < init.len() implies spec_allows_progression(#[trigger] init[i].status) by {
                assert(init[i] == entries[i]);
            }
            assert(spec_allows_progression(entries[entries.len() - 1].status));
        }
        if spec_blocking(entries).len() == 0 {
            assert forall|i: int| 0 <= i < entries.len() implies spec_allows_progression(#[trigger] entries[i].status) by {
                if i < entries.len() - 1 {
                    assert(init[i] == entries[i]);
                }
            }
        }
    }
}

/// Every entry of a report is counted in exactly one of the healthy,
/// degraded, failed and unknown counts.
pub proof fn law_status_counts_partition(report: &HealthReport)
    ensures
        count_kind(report.entries@, 0) + count_kind(report.entries@, 1)
            + count_kind(report.entries@, 2) + count_kind(report.entries@, 3)
            == report.entries@.len(),
{
    lemma_count_partition(report.entries@);
}

/// The overall status is at least as severe as that of every entry.
pub proof fn law_overall_is_worst(report: &HealthReport)
    ensures
        forall|i: int| 0 <= i < report.entries@.len() ==> spec_severity(#[trigger] report.entries@[i].status)
            <= spec_severity(spec_overall_status(report.entries@)),
{
    if report.entries@.len() > 0 {
        lemma_worst_index_bound(report.entries@, report.entries@.len());
    }
}

/// A report lets every subsystem progress exactly when no subsystem blocks.
pub proof fn law_progression_iff_no_blockers(report: &HealthReport)
    ensures
        spec_all_allow(report.entries@) <==> spec_blocking(report.entries@).len() == 0,
{
    lemma_blocking_empty(report.entries@);
}

impl HealthReport {
    /// The worst status across all entries (`Unknown` for an empty report).
    pub fn overall_status(&self) -> (s: SubsystemStatus)
        ensures
            s == spec_overall_status(self.entries@),
    {
        let n = self.entries.len();
        if n == 0 {
            return SubsystemStatus::Unknown;
        }
        let mut best: usize = 0;
        let mut i: usize = 1;
        while i < n
            invariant
                n == self.entries@.len(),
                1 <= i <= n,
                best == worst_index(self.entries@, i as nat),
                best < i,
            decreases n - i,
        {
            if self.entries[i].status.severity() >= self.entries[best].status.severity() {
                best = i;
            }
            i = i + 1;
        }
        proof { lemma_worst_index_bound(self.entries@, n as nat); }
        self.entries[best].status.clone()
    }

    fn count_matching(&self, kind: u8) -> (c: usize)
        requires
            kind < 4,
        ensures
            c == count_kind(self.entries@, kind as nat),
    {
        let mut c: usize = 0;
        let mut i: usize = 0;
        while i < self.entries.len()
            invariant
                i <= self.entries@.len(),
                c == count_kind(self.entries@.take(i as int), kind as nat),
                c <= i,
            decreases self.entries@.len() - i,
        {
            proof { lemma_take_last(self.entries@, i as int); }
            let k: u8 = match &self.entries[i].status {
                SubsystemStatus::Healthy => 0,
                SubsystemStatus::Degraded(_) => 1,
                SubsystemStatus::Failed(_) => 2,
                SubsystemStatus::Unknown => 3,
            };
            if k == kind {
                c = c + 1;
            }
            i = i + 1;
        }
        assert(self.entries@.take(self.entries@.len() as int) =~= self.entries@);
        c
    }

    /// Number of healthy subsystems.
    pub fn healthy_count(&self) -> (c: usize)
        ensures
            c == count_kind(self.entries@, 0),
    {
        self.count_matching(0)
    }

    /// Number of degraded subsystems.
    pub fn degraded_count(&self) -> (c: usize)
        ensures
            c == count_kind(self.entries@, 1),
    {
        self.count_matching(1)
    }

    /// Number of failed subsystems.
    pub fn failed_count(&self) -> (c: usize)
        ensures
            c == count_kind(self.entries@, 2),
    {
        self.count_matching(2)
    }

    /// Whether every subsystem allows cycle progression.
    pub fn all_allow_progression(&self) -> (b: bool)
        ensures
            b == spec_all_allow(self.entries@),
    {
        let mut i: usize = 0;
        while i < self.entries.len()
            invariant
                i <= self.entries@.len(),
                forall|j: int| 0 <= j < i ==> spec_allows_progression(#[trigger] self.entries@[j].status),
            decreases self.entries@.len() - i,
        {
            if !self.entries[i].status.allows_progression() {
                return false;
            }
            i = i + 1;
        }
        true
    }

    /// The subsystems that block cycle progression, in entry order.
    pub fn blocking_subsystems(&self) -> (v: Vec<SubsystemId>)
        ensures
            v@ == spec_blocking(self.entries@),
    {
        let mut v: Vec<SubsystemId> = Vec::new();
        let mut i: usize = 0;
        while i < self.entries.len()
            invariant
                i <= self.entries@.len(),
                v@ == spec_blocking(self.entries@.take(i as int)),
            decreases self.entries@.len() - i,
        {
            proof { lemma_take_last(self.entries@, i as int); }
            if !self.entries[i].status.allows_progression() {
                v.push(self.entries[i].subsystem);
            }
            i = i + 1;
        }
        assert(self.entries@.take(self.entries@.len() as int) =~= self.entries@);
        v
    }

    /// Renders the report as
    /// `HealthReport(total=.., healthy=.., degraded=.., failed=..)`.
    pub fn to_string(&self) -> (s: String)
        ensures
            s@ == "HealthReport(total="@ + decimal(self.entries@.len())
                + ", healthy="@ + decimal(count_kind(self.entries@, 0))
                + ", degraded="@ + decimal(count_kind(self.entries@, 1))
                + ", failed="@ + decimal(count_kind(self.entries@, 2))
                + ")"@,
    {
        let mut s = String::from_str("HealthReport(total=");
        s.append(decimal_string(self.entries.len() as u64).as_str());
        s.append(", healthy=");
        s.append(decimal_string(self.healthy_count() as u64).as_str());
        s.append(", degraded=");
        s.append(decimal_string(self.degraded_count() as u64).as_str());
        s.append(", failed=");
        s.append(decimal_string(self.failed_count() as u64).as_str());
        s.append(")");
        s
    }
}

// ── Simulated checker ───────────────────────────────────────────────

/// A health checker with fixed answers: every subsystem is healthy except
/// those given an override.
pub struct SimulatedHealthChecker {
    overrides: Vec<(SubsystemId, SubsystemStatus)>,
}

/// The status the overrides give a subsystem, looking from position `i`
/// on: the first matching override, else `Healthy`.
pub open spec fn override_from(ov: Seq<(SubsystemId, SubsystemStatus)>, s: SubsystemId, i: int) -> SubsystemStatus
    decreases ov.len() - i,
{
    if i < 0 || i >= ov.len() {
        SubsystemStatus::Healthy
    } else if ov[i].0 == s {
        ov[i].1
    } else {
        override_from(ov, s, i + 1)
    }
}

/// The message recorded with a status.
pub open spec fn spec_health_message(s: SubsystemStatus) -> Seq<char> {
    match s {
        SubsystemStatus::Healthy => "operating normally"@,
        SubsystemStatus::Degraded(m) => m@,
        SubsystemStatus::Failed(m) => m@,
        SubsystemStatus::Unknown => "status unknown"@,
    }
}

/// The entry a checker reports for a subsystem at time `now`.
pub open spec fn spec_entry(ov: Seq<(SubsystemId, SubsystemStatus)>, s: SubsystemId, now: i64, e: SubsystemHealth) -> bool {
    &&& e.subsystem == s
    &&& e.status == override_from(ov, s, 0)
    &&& e.last_check == now
    &&& e.message@ == spec_health_message(override_from(ov, s, 0))
}

fn message_for(status: &SubsystemStatus) -> (m: String)
    ensures
        m@ == spec_health_message(*status),
{
    match status {
        SubsystemStatus::Healthy => String::from_str("operating normally"),
        SubsystemStatus::Degraded(msg) => msg.clone(),
        SubsystemStatus::Failed(msg) => msg.clone(),
        SubsystemStatus::Unknown => String::from_str("status unknown"),
    }
}

impl SimulatedHealthChecker {
    /// A checker that reports every subsystem healthy.
    pub fn all_healthy() -> (c: Self)
        ensures
            c.overrides()@.len() == 0,
    {
        SimulatedHealthChecker { overrides: Vec::new() }
    }

    /// A checker that reports the given statuses for the given subsystems.
    pub fn with_overrides(overrides: Vec<(SubsystemId, SubsystemStatus)>) -> (c: Self)
        ensures
            c.overrides()@ == overrides@,
    {
        SimulatedHealthChecker { overrides }
    }

    /// The overrides this checker was made with.
    pub closed spec fn overrides(&self) -> Vec<(SubsystemId, SubsystemStatus)> {
        self.overrides
    }

    /// The status reported for a subsystem: the first override for it, else `Healthy`.
    pub fn status_for(&self, subsystem: &SubsystemId) -> (s: SubsystemStatus)
        ensures
            s == override_from(self.overrides()@, *subsystem, 0),
    {
        let mut i: usize = 0;
        while i < self.overrides.len()
            invariant
                i <= self.overrides@.len(),
                override_from(self.overrides@, *subsystem, 0) == override_from(self.overrides@, *subsystem, i as int),
            decreases self.overrides@.len() - i,
        {
            if self.overrides[i].0 == *subsystem {
                return self.overrides[i].1.clone();
            }
            i = i + 1;
        }
        SubsystemStatus::Healthy
    }

    /// Checks one subsystem at time `now`.
    pub fn check_one_at(&self, subsystem: &SubsystemId, now: i64) -> (h: SubsystemHealth)
        ensures
            spec_entry(self.overrides()@, *subsystem, now, h),
    {
        let status = self.status_for(subsystem);
        let message = message_for(&status);
        SubsystemHealth { subsystem: *subsystem, status, last_check: now, message }
    }

    /// Checks one subsystem, stamped with the current time.
    pub fn check_one(&self, subsystem: &SubsystemId) -> (h: SubsystemHealth)
        ensures
            spec_entry(self.overrides()@, *subsystem, h.last_check, h),
    {
        self.check_one_at(subsystem, now_millis())
    }

    /// Checks all fourteen subsystems at time `now`, in canonical order.
    pub fn check_all_at(&self, now: i64) -> (r: HealthReport)
        ensures
            r.generated_at == now,
            r.entries@.len() == all_subsystems().len(),
            forall|i: int| 0 <= i < r.entries@.len() ==>
                spec_entry(self.overrides()@, all_subsystems()[i], now, #[trigger] r.entries@[i]),
    {
        let all = SubsystemId::all();
        let mut entries: Vec<SubsystemHealth> = Vec::new();
        let mut i: usize = 0;
        while i < all.len()
            invariant
                all@ == all_subsystems(),
                i <= all@.len(),
                entries@.len() == i,
                forall|j: int| 0 <= j < i ==>
                    spec_entry(self.overrides()@, all_subsystems()[j], now, #[trigger] entries@[j]),
            decreases all@.len() - i,
        {
            let h = self.check_one_at(&all[i], now);
            entries.push(h);
            i = i + 1;
        }
        HealthReport { entries, generated_at: now }
    }

    /// Checks all fourteen subsystems, stamped with the current time.
    pub fn check_all(&self) -> (r: HealthReport)
        ensures
            r.entries@.len() == all_subsystems().len(),
            forall|i: int| 0 <= i < r.entries@.len() ==>
                spec_entry(self.overrides()@, all_subsystems()[i], r.generated_at, #[trigger] r.entries@[i]),
    {
        self.check_all_at(now_millis())
    }

    /// Name of this checker.
    pub fn name(&self) -> (s: &'static str)
        ensures
            s@ == "simulated-health-checker"@,
    {
        "simulated-health-checker"
    }
}

impl Default for SimulatedHealthChecker {
    fn default() -> (c: Self)
        ensures
            c.overrides()@.len() == 0,
    {
        Self::all_healthy()
    }
}

/// Health monitoring covers every subsystem: a check reports each of the
/// fourteen subsystems once, in canonical order.
pub proof fn law_health_covers_all_subsystems(checker: &SimulatedHealthChecker, report: &HealthReport, now: i64)
    requires
        report.entries@.len() == all_subsystems().len(),
        forall|i: int| 0 <= i < report.entries@.len() ==>
            spec_entry(checker.overrides()@, all_subsystems()[i], now, #[trigger] report.entries@[i]),
    ensures
        forall|s: SubsystemId| #![trigger subsystem_index(s)]
            0 <= subsystem_index(s) < report.entries@.len()
            && report.entries@[subsystem_index(s)].subsystem == s,
{
    assert forall|s: SubsystemId| #![trigger subsystem_index(s)]
        0 <= subsystem_index(s) < report.entries@.len()
        && report.entries@[subsystem_index(s)].subsystem == s by {
        let i = subsystem_index(s);
        assert(all_subsystems()[i] == s);
        assert(spec_entry(checker.overrides()@, all_subsystems()[i], now, report.entries@[i]));
    }
}

} // verus!
