//! Types of the self-commitment lifecycle: identifiers, lifecycle status,
//! records and summary statistics.

use vstd::prelude::*;
use crate::intent::types::{IntentId, SubstrateTier};
use crate::platform::fresh_uuid;
use crate::text::decimal;
use crate::text::decimal_string;

verus! {

/// Unique identifier of a self-commitment record.
#[derive(Clone, Debug, PartialEq, Eq, Hash)]
pub struct SelfCommitmentId(pub String);

impl SelfCommitmentId {
    /// A fresh random identifier.
    pub fn new() -> (id: Self)
        ensures
            id.0@.len() == 36,
    {
        SelfCommitmentId(fresh_uuid())
    }

    /// Renders the identifier as `self-cmt:<id>`.
    pub fn to_string(&self) -> (s: String)
        ensures
            s@ == "self-cmt:"@ + self.0@,
    {
        let mut s = String::from_str("self-cmt:");
        s.append(self.0.as_str());
        s
    }

    /// A copy of this identifier.
    pub fn duplicate(&self) -> (r: Self)
        ensures
            r == *self,
    {
        SelfCommitmentId(self.0.clone())
    }
}

impl Default for SelfCommitmentId {
    fn default() -> (id: Self)
        ensures
            id.0@.len() == 36,
    {
        Self::new()
    }
}

/// Identifier the commitment gate gives a submitted commitment.
#[derive(Clone, Debug, PartialEq, Eq, Hash)]
pub struct CommitmentId(pub String);

/// Lifecycle status of a self-commitment.
#[derive(Debug, PartialEq)]
pub enum CommitmentLifecycleStatus {
    /// Observation period in progress.
    PendingObservation,
    /// Observation complete; ready for the commitment gate.
    ObservationComplete,
    /// Submitted to the commitment gate.
    Submitted,
    /// Approved by the commitment gate.
    Approved,
    /// Denied by the commitment gate.
    Denied(String),
    /// The self-modification succeeded.
    Fulfilled,
    /// The self-modification failed.
    Failed(String),
    /// Deferred for later evaluation.
    Deferred(String),
}

impl Clone for CommitmentLifecycleStatus {
    fn clone(&self) -> (r: Self)
        ensures
            r == *self,
    {
        match self {
            CommitmentLifecycleStatus::PendingObservation => CommitmentLifecycleStatus::PendingObservation,
            CommitmentLifecycleStatus::ObservationComplete => CommitmentLifecycleStatus::ObservationComplete,
            CommitmentLifecycleStatus::Submitted => CommitmentLifecycleStatus::Submitted,
            CommitmentLifecycleStatus::Approved => CommitmentLifecycleStatus::Approved,
            CommitmentLifecycleStatus::Denied(r) => CommitmentLifecycleStatus::Denied(r.clone()),
            CommitmentLifecycleStatus::Fulfilled => CommitmentLifecycleStatus::Fulfilled,
            CommitmentLifecycleStatus::Failed(r) => CommitmentLifecycleStatus::Failed(r.clone()),
            CommitmentLifecycleStatus::Deferred(r) => CommitmentLifecycleStatus::Deferred(r.clone()),
        }
    }
}

/// Terminal statuses: Denied, Fulfilled, Failed.
pub open spec fn spec_is_terminal(s: CommitmentLifecycleStatus) -> bool {
    s is Denied || s is Fulfilled || s is Failed
}

/// Active statuses: neither terminal nor deferred.
pub open spec fn spec_is_active(s: CommitmentLifecycleStatus) -> bool {
    s is PendingObservation || s is ObservationComplete || s is Submitted || s is Approved
}

/// Display form of a lifecycle status.
pub open spec fn spec_lifecycle_text(s: CommitmentLifecycleStatus) -> Seq<char> {
    match s {
        CommitmentLifecycleStatus::PendingObservation => "pending-observation"@,
        CommitmentLifecycleStatus::ObservationComplete => "observation-complete"@,
        CommitmentLifecycleStatus::Submitted => "submitted"@,
        CommitmentLifecycleStatus::Approved => "approved"@,
        CommitmentLifecycleStatus::Denied(r) => "denied: "@ + r@,
        CommitmentLifecycleStatus::Fulfilled => "fulfilled"@,
        CommitmentLifecycleStatus::Failed(r) => "failed: "@ + r@,
        CommitmentLifecycleStatus::Deferred(r) => "deferred: "@ + r@,
    }
}

impl CommitmentLifecycleStatus {
    /// Whether the status is terminal (Denied, Fulfilled or Failed).
    pub fn is_terminal(&self) -> (b: bool)
        ensures
            b == spec_is_terminal(*self),
    {
        match self {
            CommitmentLifecycleStatus::Denied(_) => true,
            CommitmentLifecycleStatus::Fulfilled => true,
            CommitmentLifecycleStatus::Failed(_) => true,
            _ => false,
        }
    }

    /// Whether the commitment is active (neither terminal nor deferred).
    pub fn is_active(&self) -> (b: bool)
        ensures
            b == spec_is_active(*self),
    {
        match self {
            CommitmentLifecycleStatus::PendingObservation => true,
            CommitmentLifecycleStatus::ObservationComplete => true,
            CommitmentLifecycleStatus::Submitted => true,
            CommitmentLifecycleStatus::Approved => true,
            _ => false,
        }
    }

    /// Renders the status (`pending-observation`, `denied: <reason>`, ...).
    pub fn to_string(&self) -> (s: String)
        ensures
            s@ == spec_lifecycle_text(*self),
    {
        let (p, r): (&str, Option<&String>) = match self {
            CommitmentLifecycleStatus::PendingObservation => ("pending-observation", None),
            CommitmentLifecycleStatus::ObservationComplete => ("observation-complete", None),
            CommitmentLifecycleStatus::Submitted => ("submitted", None),
            CommitmentLifecycleStatus::Approved => ("approved", None),
            CommitmentLifecycleStatus::Denied(r) => ("denied: ", Some(r)),
            CommitmentLifecycleStatus::Fulfilled => ("fulfilled", None),
            CommitmentLifecycleStatus::Failed(r) => ("failed: ", Some(r)),
            CommitmentLifecycleStatus::Deferred(r) => ("deferred: ", Some(r)),
        };
        let mut s = String::from_str(p);
        match r {
            Some(r) => s.append(r.as_str()),
            None => {},
        }
        s
    }
}

/// Whether a status is terminal, active, or deferred: exactly one holds.
pub proof fn law_status_classes_partition(s: CommitmentLifecycleStatus)
    ensures
        spec_is_terminal(s) || spec_is_active(s) || s is Deferred,
        !(spec_is_terminal(s) && spec_is_active(s)),
        !(spec_is_terminal(s) && s is Deferred),
        !(spec_is_active(s) && s is Deferred),
{
}

/// Whole seconds elapsed from `start_ms` to `now_ms`, never negative (the
/// difference is truncated toward zero, then clamped at zero).
pub open spec fn spec_elapsed_secs(start_ms: i64, now_ms: i64) -> nat {
    if now_ms <= start_ms { 0 } else { ((now_ms - start_ms) / 1000) as nat }
}

/// Computes `spec_elapsed_secs`.
pub fn elapsed_secs(start_ms: i64, now_ms: i64) -> (e: u64)
    ensures
        e as nat == spec_elapsed_secs(start_ms, now_ms),
{
    if now_ms <= start_ms {
        0
    } else {
        let d: i128 = (now_ms as i128) - (start_ms as i128);
        let q: i128 = d / 1000;
        assert(0 <= q < 0x1_0000_0000_0000_0000) by (nonlinear_arith)
            requires d > 0, d < 0x1_0000_0000_0000_0000, q == d / 1000;
        q as u64
    }
}

/// A record of one self-commitment's lifecycle. Times are in milliseconds
/// since the Unix epoch.
#[derive(Debug)]
pub struct CommitmentRecord {
    /// Unique self-commitment identifier.
    pub id: SelfCommitmentId,
    /// The intent the commitment came from.
    pub intent_id: IntentId,
    /// The commitment gate's identifier, once submitted.
    pub commitment_id: Option<CommitmentId>,
    /// Governance tier of the intent.
    pub governance_tier: SubstrateTier,
    /// When the observation period started.
    pub observation_start: i64,
    /// Required observation period in seconds.
    pub observation_required_secs: u64,
    /// Current status.
    pub status: CommitmentLifecycleStatus,
    /// When the record was made.
    pub created_at: i64,
    /// When a terminal status was reached.
    pub resolved_at: Option<i64>,
}

impl CommitmentRecord {
    /// Whether the observation period has elapsed at time `now`.
    pub fn observation_elapsed_at(&self, now: i64) -> (b: bool)
        ensures
            b == (spec_elapsed_secs(self.observation_start, now) >= self.observation_required_secs),
    {
        elapsed_secs(self.observation_start, now) >= self.observation_required_secs
    }

    /// Whether the observation period has elapsed by now.
    pub fn observation_elapsed(&self) -> (b: bool)
        ensures
            exists|now: i64| b == (spec_elapsed_secs(self.observation_start, now) >= self.observation_required_secs),
    {
        let now = crate::platform::now_millis();
        self.observation_elapsed_at(now)
    }
}

/// Summary statistics of tracked commitments.
#[derive(Clone, Debug)]
pub struct CommitmentSummary {
    pub total: usize,
    pub pending: usize,
    pub approved: usize,
    pub denied: usize,
    pub fulfilled: usize,
    pub failed: usize,
}

impl Default for CommitmentSummary {
    fn default() -> (s: Self)
        ensures
            s.total == 0 && s.pending == 0 && s.approved == 0 && s.denied == 0
                && s.fulfilled == 0 && s.failed == 0,
    {
        CommitmentSummary { total: 0, pending: 0, approved: 0, denied: 0, fulfilled: 0, failed: 0 }
    }
}

impl CommitmentSummary {
    /// Renders the summary as
    /// `total=.., pending=.., approved=.., denied=.., fulfilled=.., failed=..`.
    pub fn to_string(&self) -> (s: String)
        ensures
            s@ == "total="@ + decimal(self.total as nat)
                + ", pending="@ + decimal(self.pending as nat)
                + ", approved="@ + decimal(self.approved as nat)
                + ", denied="@ + decimal(self.denied as nat)
                + ", fulfilled="@ + decimal(self.fulfilled as nat)
                + ", failed="@ + decimal(self.failed as nat),
    {
        let mut s = String::from_str("total=");
        s.append(decimal_string(self.total as u64).as_str());
        s.append(", pending=");
        s.append(decimal_string(self.pending as u64).as_str());
        s.append(", approved=");
        s.append(decimal_string(self.approved as u64).as_str());
        s.append(", denied=");
        s.append(decimal_string(self.denied as u64).as_str());
        s.append(", fulfilled=");
        s.append(decimal_string(self.fulfilled as u64).as_str());
        s.append(", failed=");
        s.append(decimal_string(self.failed as u64).as_str());
        s
    }
}

} // verus!
