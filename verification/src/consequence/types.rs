//! Types of consequence execution: identifiers, status, records,
//! configuration and summary statistics.

use vstd::prelude::*;
use crate::commitment::types::SelfCommitmentId;
use crate::consequence::receipt::ExecutionReceipt;
use crate::intent::types::{IntentId, SubstrateTier};
use crate::platform::fresh_uuid;
use crate::text::decimal;
use crate::text::decimal_string;

verus! {

/// Unique identifier of a consequence record.
#[derive(Clone, Debug, PartialEq, Eq, Hash)]
pub struct SelfConsequenceId(pub String);

impl SelfConsequenceId {
    /// A fresh random identifier.
    pub fn new() -> (id: Self)
        ensures
            id.0@.len() == 36,
    {
        SelfConsequenceId(fresh_uuid())
    }

    /// Renders the identifier as `self-csq:<id>`.
    pub fn to_string(&self) -> (s: String)
        ensures
            s@ == "self-csq:"@ + self.0@,
    {
        let mut s = String::from_str("self-csq:");
        s.append(self.0.as_str());
        s
    }

    /// A copy of this identifier.
    pub fn duplicate(&self) -> (r: Self)
        ensures
            r == *self,
    {
        SelfConsequenceId(self.0.clone())
    }
}

impl Default for SelfConsequenceId {
    fn default() -> (id: Self)
        ensures
            id.0@.len() == 36,
    {
        Self::new()
    }
}

/// Status of a consequence execution.
#[derive(Debug, PartialEq)]
pub enum ConsequenceStatus {
    Pending,
    Executing,
    Succeeded,
    Failed(String),
    RolledBack(String),
}

/// Terminal statuses: Succeeded, Failed, RolledBack.
pub open spec fn spec_consequence_terminal(s: ConsequenceStatus) -> bool {
    s is Succeeded || s is Failed || s is RolledBack
}

/// Display form of a consequence status.
pub open spec fn spec_consequence_status_text(s: ConsequenceStatus) -> Seq<char> {
    match s {
        ConsequenceStatus::Pending => "pending"@,
        ConsequenceStatus::Executing => "executing"@,
        ConsequenceStatus::Succeeded => "succeeded"@,
        ConsequenceStatus::Failed(r) => "failed: "@ + r@,
        ConsequenceStatus::RolledBack(r) => "rolled-back: "@ + r@,
    }
}

impl ConsequenceStatus {
    /// Whether the execution is over (succeeded, failed or rolled back).
    pub fn is_terminal(&self) -> (b: bool)
        ensures
            b == spec_consequence_terminal(*self),
    {
        match self {
            ConsequenceStatus::Succeeded => true,
            ConsequenceStatus::Failed(_) => true,
            ConsequenceStatus::RolledBack(_) => true,
            _ => false,
        }
    }

    /// Whether the execution succeeded.
    pub fn is_success(&self) -> (b: bool)
        ensures
            b == (*self is Succeeded),
    {
        match self {
            ConsequenceStatus::Succeeded => true,
            _ => false,
        }
    }

    /// Renders the status (`pending`, `failed: <reason>`, ...).
    pub fn to_string(&self) -> (s: String)
        ensures
            s@ == spec_consequence_status_text(*self),
    {
        match self {
            ConsequenceStatus::Pending => String::from_str("pending"),
            ConsequenceStatus::Executing => String::from_str("executing"),
            ConsequenceStatus::Succeeded => String::from_str("succeeded"),
            ConsequenceStatus::Failed(r) => {
                let mut s = String::from_str("failed: ");
                s.append(r.as_str());
                s
            },
            ConsequenceStatus::RolledBack(r) => {
                let mut s = String::from_str("rolled-back: ");
                s.append(r.as_str());
                s
            },
        }
    }
}

/// The value of `x`, clamped into the range of `i64`.
pub open spec fn clamp_i64(x: int) -> i64 {
    if x > i64::MAX { i64::MAX } else if x < i64::MIN { i64::MIN } else { x as i64 }
}

fn span_ms(start: i64, end: i64) -> (d: i64)
    ensures
        d == clamp_i64(end - start),
{
    let x: i128 = (end as i128) - (start as i128);
    if x > (i64::MAX as i128) {
        i64::MAX
    } else if x < (i64::MIN as i128) {
        i64::MIN
    } else {
        x as i64
    }
}

/// The record of one consequence execution. Times are in milliseconds
/// since the Unix epoch.
#[derive(Debug)]
pub struct ConsequenceRecord {
    pub id: SelfConsequenceId,
    pub self_commitment_id: SelfCommitmentId,
    pub intent_id: IntentId,
    pub governance_tier: SubstrateTier,
    pub status: ConsequenceStatus,
    pub execution_start: Option<i64>,
    pub execution_end: Option<i64>,
    /// Duration from start to end, when both are known.
    pub duration_ms: Option<i64>,
    pub receipt: Option<ExecutionReceipt>,
    pub created_at: i64,
    pub tests_passed: usize,
    pub tests_failed: usize,
    pub rollback_attempted: bool,
}

/// Duration recorded when execution ends at `now`.
pub open spec fn spec_duration(start: Option<i64>, old_duration: Option<i64>, now: i64) -> Option<i64> {
    match start {
        Some(s) => Some(clamp_i64(now - s)),
        None => old_duration,
    }
}

impl ConsequenceRecord {
    /// A pending record made at `now` under identifier `id`.
    pub fn new_at(
        id: SelfConsequenceId,
        self_commitment_id: SelfCommitmentId,
        intent_id: IntentId,
        governance_tier: SubstrateTier,
        now: i64,
    ) -> (r: Self)
        ensures
            r.id == id,
            r.self_commitment_id == self_commitment_id,
            r.intent_id == intent_id,
            r.governance_tier == governance_tier,
            r.status == ConsequenceStatus::Pending,
            r.execution_start is None,
            r.execution_end is None,
            r.duration_ms is None,
            r.receipt is None,
            r.created_at == now,
            r.tests_passed == 0,
            r.tests_failed == 0,
            !r.rollback_attempted,
    {
        ConsequenceRecord {
            id,
            self_commitment_id,
            intent_id,
            governance_tier,
            status: ConsequenceStatus::Pending,
            execution_start: None,
            execution_end: None,
            duration_ms: None,
            receipt: None,
            created_at: now,
            tests_passed: 0,
            tests_failed: 0,
            rollback_attempted: false,
        }
    }

    /// A pending record made now under a fresh identifier.
    pub fn new(self_commitment_id: SelfCommitmentId, intent_id: IntentId, governance_tier: SubstrateTier) -> (r: Self)
        ensures
            r.id.0@.len() == 36,
            r.self_commitment_id == self_commitment_id,
            r.intent_id == intent_id,
            r.governance_tier == governance_tier,
            r.status == ConsequenceStatus::Pending,
            r.execution_start is None,
            r.execution_end is None,
            r.duration_ms is None,
            r.receipt is None,
            r.tests_passed == 0,
            r.tests_failed == 0,
            !r.rollback_attempted,
    {
        Self::new_at(SelfConsequenceId::new(), self_commitment_id, intent_id, governance_tier, crate::platform::now_millis())
    }

    /// Marks the record executing, started at `now`.
    pub fn mark_executing_at(&mut self, now: i64)
        ensures
            *final(self) == (ConsequenceRecord {
                status: ConsequenceStatus::Executing,
                execution_start: Some(now),
                ..*old(self)
            }),
    {
        self.status = ConsequenceStatus::Executing;
        self.execution_start = Some(now);
    }

    /// Marks the record succeeded at `now`, with its receipt.
    pub fn mark_succeeded_at(&mut self, receipt: ExecutionReceipt, tests_passed: usize, now: i64)
        ensures
            *final(self) == (ConsequenceRecord {
                status: ConsequenceStatus::Succeeded,
                execution_end: Some(now),
                tests_passed,
                duration_ms: spec_duration(old(self).execution_start, old(self).duration_ms, now),
                receipt: Some(receipt),
                ..*old(self)
            }),
    {
        self.status = ConsequenceStatus::Succeeded;
        self.execution_end = Some(now);
        self.tests_passed = tests_passed;
        match self.execution_start {
            Some(start) => {
                self.duration_ms = Some(span_ms(start, now));
            },
            None => {},
        }
        self.receipt = Some(receipt);
    }

    /// Marks the record failed at `now`.
    pub fn mark_failed_at(&mut self, reason: String, tests_passed: usize, tests_failed: usize, now: i64)
        ensures
            *final(self) == (ConsequenceRecord {
                status: ConsequenceStatus::Failed(reason),
                execution_end: Some(now),
                tests_passed,
                tests_failed,
                duration_ms: spec_duration(old(self).execution_start, old(self).duration_ms, now),
                ..*old(self)
            }),
    {
        self.status = ConsequenceStatus::Failed(reason);
        self.execution_end = Some(now);
        self.tests_passed = tests_passed;
        self.tests_failed = tests_failed;
        match self.execution_start {
            Some(start) => {
                self.duration_ms = Some(span_ms(start, now));
            },
            None => {},
        }
    }

    /// Marks the record executing, started now.
    pub fn mark_executing(&mut self)
        ensures
            final(self).execution_start is Some,
            *final(self) == (ConsequenceRecord {
                status: ConsequenceStatus::Executing,
                execution_start: final(self).execution_start,
                ..*old(self)
            }),
    {
        self.mark_executing_at(crate::platform::now_millis());
    }

    /// Marks the record succeeded now, with its receipt.
    pub fn mark_succeeded(&mut self, receipt: ExecutionReceipt, tests_passed: usize)
        ensures
            final(self).execution_end is Some,
            *final(self) == (ConsequenceRecord {
                status: ConsequenceStatus::Succeeded,
                execution_end: final(self).execution_end,
                tests_passed,
                duration_ms: spec_duration(old(self).execution_start, old(self).duration_ms,
                    final(self).execution_end->0),
                receipt: Some(receipt),
                ..*old(self)
            }),
    {
        self.mark_succeeded_at(receipt, tests_passed, crate::platform::now_millis());
    }

    /// Marks the record failed now.
    pub fn mark_failed(&mut self, reason: String, tests_passed: usize, tests_failed: usize)
        ensures
            final(self).execution_end is Some,
            *final(self) == (ConsequenceRecord {
                status: ConsequenceStatus::Failed(reason),
                execution_end: final(self).execution_end,
                tests_passed,
                tests_failed,
                duration_ms: spec_duration(old(self).execution_start, old(self).duration_ms,
                    final(self).execution_end->0),
                ..*old(self)
            }),
    {
        self.mark_failed_at(reason, tests_passed, tests_failed, crate::platform::now_millis());
    }

    /// Marks the record rolled back.
    pub fn mark_rolled_back(&mut self, reason: String)
        ensures
            *final(self) == (ConsequenceRecord {
                status: ConsequenceStatus::RolledBack(reason),
                rollback_attempted: true,
                ..*old(self)
            }),
    {
        self.status = ConsequenceStatus::RolledBack(reason);
        self.rollback_attempted = true;
    }
}

/// Configuration of consequence execution.
#[derive(Clone, Debug)]
pub struct ConsequenceConfig {
    pub max_execution_duration_secs: u64,
    pub require_tests_pass: bool,
    pub require_performance_gates: bool,
    pub max_tracked_consequences: usize,
    pub auto_rollback_on_failure: bool,
}

impl Default for ConsequenceConfig {
    fn default() -> (c: Self)
        ensures
            c.max_execution_duration_secs == 3600,
            c.require_tests_pass,
            c.require_performance_gates,
            c.max_tracked_consequences == 256,
            c.auto_rollback_on_failure,
    {
        ConsequenceConfig {
            max_execution_duration_secs: 3600,
            require_tests_pass: true,
            require_performance_gates: true,
            max_tracked_consequences: 256,
            auto_rollback_on_failure: true,
        }
    }
}

/// Summary statistics of consequence executions.
#[derive(Clone, Debug)]
pub struct ConsequenceSummary {
    pub total: usize,
    pub pending: usize,
    pub succeeded: usize,
    pub failed: usize,
    pub rolled_back: usize,
}

impl Default for ConsequenceSummary {
    fn default() -> (s: Self)
        ensures
            s.total == 0 && s.pending == 0 && s.succeeded == 0 && s.failed == 0 && s.rolled_back == 0,
    {
        ConsequenceSummary { total: 0, pending: 0, succeeded: 0, failed: 0, rolled_back: 0 }
    }
}

impl ConsequenceSummary {
    /// Renders the summary as
    /// `total=.., pending=.., succeeded=.., failed=.., rolled_back=..`.
    pub fn to_string(&self) -> (s: String)
        ensures
            s@ == "total="@ + decimal(self.total as nat)
                + ", pending="@ + decimal(self.pending as nat)
                + ", succeeded="@ + decimal(self.succeeded as nat)
                + ", failed="@ + decimal(self.failed as nat)
                + ", rolled_back="@ + decimal(self.rolled_back as nat),
    {
        let mut s = String::from_str("total=");
        s.append(decimal_string(self.total as u64).as_str());
        s.append(", pending=");
        s.append(decimal_string(self.pending as u64).as_str());
        s.append(", succeeded=");
        s.append(decimal_string(self.succeeded as u64).as_str());
        s.append(", failed=");
        s.append(decimal_string(self.failed as u64).as_str());
        s.append(", rolled_back=");
        s.append(decimal_string(self.rolled_back as u64).as_str());
        s
    }
}

} // verus!
