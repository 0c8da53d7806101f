//! Deployment types: identifiers, self-modification tiers, strategies,
//! status, phases, records, configuration and summary statistics. Times
//! are milliseconds since the Unix epoch; traffic shares are whole
//! percentages.

use vstd::prelude::*;
use crate::consequence::types::clamp_i64;
use crate::platform::{fresh_uuid, now_millis};
use crate::text::decimal;
use crate::text::decimal_string;

verus! {

/// Identifier of a deployment.
#[derive(Clone, Debug, PartialEq, Eq, Hash)]
pub struct DeploymentId(pub String);

impl DeploymentId {
    /// A fresh random identifier.
    pub fn new() -> (id: Self)
        ensures
            id.0@.len() == 36,
    {
        DeploymentId(fresh_uuid())
    }

    /// Renders the identifier as `deploy:<id>`.
    pub fn to_string(&self) -> (s: String)
        ensures
            s@ == "deploy:"@ + self.0@,
    {
        let mut s = String::from_str("deploy:");
        s.append(self.0.as_str());
        s
    }

    /// A copy of this identifier.
    pub fn duplicate(&self) -> (r: Self)
        ensures
            r == *self,
    {
        DeploymentId(self.0.clone())
    }
}

impl Default for DeploymentId {
    fn default() -> (id: Self)
        ensures
            id.0@.len() == 36,
    {
        Self::new()
    }
}

/// Governance tier of a self-modification.
#[derive(Clone, Copy, Debug, PartialEq, Eq, Hash, Structural)]
pub enum SelfModTier {
    Tier0Configuration,
    Tier1OperatorInternal,
    Tier2ApiChange,
    Tier3KernelChange,
    Tier4SubstrateChange,
    Tier5ArchitecturalChange,
}

/// How a deployment rolls out.
#[derive(Clone, Copy, Debug, PartialEq, Eq, Hash, Structural)]
pub enum DeploymentStrategy {
    Immediate,
    Canary,
    Staged,
    BlueGreen,
}

/// Display name of a strategy.
pub open spec fn spec_strategy_text(s: DeploymentStrategy) -> Seq<char> {
    match s {
        DeploymentStrategy::Immediate => "immediate"@,
        DeploymentStrategy::Canary => "canary"@,
        DeploymentStrategy::Staged => "staged"@,
        DeploymentStrategy::BlueGreen => "blue-green"@,
    }
}

impl DeploymentStrategy {
    /// Renders the strategy (`immediate`, `canary`, `staged`, `blue-green`).
    pub fn to_string(&self) -> (s: String)
        ensures
            s@ == spec_strategy_text(*self),
    {
        match self {
            DeploymentStrategy::Immediate => String::from_str("immediate"),
            DeploymentStrategy::Canary => String::from_str("canary"),
            DeploymentStrategy::Staged => String::from_str("staged"),
            DeploymentStrategy::BlueGreen => String::from_str("blue-green"),
        }
    }
}

/// Status of a deployment.
#[derive(Debug, PartialEq, Eq)]
pub enum DeploymentStatus {
    Pending,
    InProgress,
    Succeeded,
    Failed(String),
    RolledBack(String),
}

/// Terminal statuses: Succeeded, Failed, RolledBack.
pub open spec fn spec_deployment_terminal(s: DeploymentStatus) -> bool {
    s is Succeeded || s is Failed || s is RolledBack
}

impl Clone for DeploymentStatus {
    fn clone(&self) -> (r: Self)
        ensures
            r == *self,
    {
        match self {
            DeploymentStatus::Pending => DeploymentStatus::Pending,
            DeploymentStatus::InProgress => DeploymentStatus::InProgress,
            DeploymentStatus::Succeeded => DeploymentStatus::Succeeded,
            DeploymentStatus::Failed(m) => DeploymentStatus::Failed(m.clone()),
            DeploymentStatus::RolledBack(m) => DeploymentStatus::RolledBack(m.clone()),
        }
    }
}

impl DeploymentStatus {
    /// Whether the deployment is over.
    pub fn is_terminal(&self) -> (b: bool)
        ensures
            b == spec_deployment_terminal(*self),
    {
        match self {
            DeploymentStatus::Succeeded => true,
            DeploymentStatus::Failed(_) => true,
            DeploymentStatus::RolledBack(_) => true,
            _ => false,
        }
    }

    /// Whether the deployment succeeded.
    pub fn is_success(&self) -> (b: bool)
        ensures
            b == (*self is Succeeded),
    {
        match self {
            DeploymentStatus::Succeeded => true,
            _ => false,
        }
    }
}

/// Phase of a deployment; traffic shares in whole percent.
#[derive(Clone, Copy, Debug, PartialEq, Eq, Structural)]
pub enum DeploymentPhase {
    Validating,
    Deploying { traffic_percent: u32 },
    Monitoring { traffic_percent: u32, elapsed_secs: u64 },
    Promoting { from_percent: u32, to_percent: u32 },
    Complete,
    RollingBack,
    RolledBack,
}

/// Display form of a phase.
pub open spec fn spec_phase_text(p: DeploymentPhase) -> Seq<char> {
    match p {
        DeploymentPhase::Validating => "validating"@,
        DeploymentPhase::Deploying { traffic_percent } => "deploying("@ + decimal(traffic_percent as nat) + "%)"@,
        DeploymentPhase::Monitoring { traffic_percent, elapsed_secs } => "monitoring("@
            + decimal(traffic_percent as nat) + "%, "@ + decimal(elapsed_secs as nat) + "s)"@,
        DeploymentPhase::Promoting { from_percent, to_percent } => "promoting("@ + decimal(from_percent as nat)
            + "%\u{2192}"@ + decimal(to_percent as nat) + "%)"@,
        DeploymentPhase::Complete => "complete"@,
        DeploymentPhase::RollingBack => "rolling-back"@,
        DeploymentPhase::RolledBack => "rolled-back"@,
    }
}

impl DeploymentPhase {
    /// Renders the phase (`validating`, `deploying(10%)`,
    /// `monitoring(25%, 60s)`, `promoting(25%→50%)`, ...).
    pub fn to_string(&self) -> (s: String)
        ensures
            s@ == spec_phase_text(*self),
    {
        match self {
            DeploymentPhase::Validating => String::from_str("validating"),
            DeploymentPhase::Deploying { traffic_percent } => {
                let mut s = String::from_str("deploying(");
                s.append(decimal_string(*traffic_percent as u64).as_str());
                s.append("%)");
                s
            },
            DeploymentPhase::Monitoring { traffic_percent, elapsed_secs } => {
                let mut s = String::from_str("monitoring(");
                s.append(decimal_string(*traffic_percent as u64).as_str());
                s.append("%, ");
                s.append(decimal_string(*elapsed_secs).as_str());
                s.append("s)");
                s
            },
            DeploymentPhase::Promoting { from_percent, to_percent } => {
                let mut s = String::from_str("promoting(");
                s.append(decimal_string(*from_percent as u64).as_str());
                s.append("%\u{2192}");
                s.append(decimal_string(*to_percent as u64).as_str());
                s.append("%)");
                s
            },
            DeploymentPhase::Complete => String::from_str("complete"),
            DeploymentPhase::RollingBack => String::from_str("rolling-back"),
            DeploymentPhase::RolledBack => String::from_str("rolled-back"),
        }
    }
}

/// The record of one deployment.
#[derive(Debug)]
pub struct DeploymentRecord {
    pub id: DeploymentId,
    pub codegen_id: String,
    pub commitment_id: String,
    pub tier: SelfModTier,
    pub strategy: DeploymentStrategy,
    pub status: DeploymentStatus,
    pub current_phase: DeploymentPhase,
    pub phases_completed: Vec<DeploymentPhase>,
    pub files_deployed: Vec<String>,
    pub rollback_triggered: bool,
    pub rollback_reason: Option<String>,
    pub started_at: i64,
    pub completed_at: Option<i64>,
}

/// The duration of a record: end minus start, clamped into `i64`, once
/// it is completed.
pub open spec fn spec_deployment_duration(r: DeploymentRecord) -> Option<i64> {
    match r.completed_at {
        Some(end) => Some(clamp_i64(end - r.started_at)),
        None => None,
    }
}

impl DeploymentRecord {
    /// A pending record started at `now`, validating.
    pub fn new_at(codegen_id: String, commitment_id: String, tier: SelfModTier, strategy: DeploymentStrategy,
        files: Vec<String>, now: i64) -> (r: Self)
        ensures
            r.id.0@.len() == 36,
            r.codegen_id == codegen_id,
            r.commitment_id == commitment_id,
            r.tier == tier,
            r.strategy == strategy,
            r.status == DeploymentStatus::Pending,
            r.current_phase == DeploymentPhase::Validating,
            r.phases_completed@.len() == 0,
            r.files_deployed == files,
            !r.rollback_triggered,
            r.rollback_reason is None,
            r.started_at == now,
            r.completed_at is None,
    {
        DeploymentRecord {
            id: DeploymentId::new(),
            codegen_id,
            commitment_id,
            tier,
            strategy,
            status: DeploymentStatus::Pending,
            current_phase: DeploymentPhase::Validating,
            phases_completed: Vec::new(),
            files_deployed: files,
            rollback_triggered: false,
            rollback_reason: None,
            started_at: now,
            completed_at: None,
        }
    }

    /// A pending record started now.
    pub fn new(codegen_id: String, commitment_id: String, tier: SelfModTier, strategy: DeploymentStrategy,
        files: Vec<String>) -> (r: Self)
        ensures
            r.id.0@.len() == 36,
            r.codegen_id == codegen_id,
            r.commitment_id == commitment_id,
            r.tier == tier,
            r.strategy == strategy,
            r.status == DeploymentStatus::Pending,
            r.current_phase == DeploymentPhase::Validating,
            r.phases_completed@.len() == 0,
            r.files_deployed == files,
            !r.rollback_triggered,
            r.rollback_reason is None,
            r.completed_at is None,
    {
        Self::new_at(codegen_id, commitment_id, tier, strategy, files, now_millis())
    }

    /// Marks the deployment in progress.
    pub fn mark_in_progress(&mut self)
        ensures
            *final(self) == (DeploymentRecord { status: DeploymentStatus::InProgress, ..*old(self) }),
    {
        self.status = DeploymentStatus::InProgress;
    }

    /// Moves to the next phase; the current one is appended to the
    /// completed phases.
    pub fn advance_phase(&mut self, next: DeploymentPhase)
        ensures
            *final(self) == (DeploymentRecord {
                current_phase: next,
                phases_completed: final(self).phases_completed,
                ..*old(self)
            }),
            final(self).phases_completed@ == old(self).phases_completed@.push(old(self).current_phase),
    {
        let prev = self.current_phase;
        self.current_phase = next;
        self.phases_completed.push(prev);
    }

    /// Marks the deployment succeeded at `now`; the phase becomes complete.
    pub fn mark_succeeded_at(&mut self, now: i64)
        ensures
            *final(self) == (DeploymentRecord {
                status: DeploymentStatus::Succeeded,
                current_phase: DeploymentPhase::Complete,
                phases_completed: final(self).phases_completed,
                completed_at: Some(now),
                ..*old(self)
            }),
            final(self).phases_completed@ == old(self).phases_completed@.push(old(self).current_phase),
    {
        self.status = DeploymentStatus::Succeeded;
        self.advance_phase(DeploymentPhase::Complete);
        self.completed_at = Some(now);
    }

    /// Marks the deployment succeeded now.
    pub fn mark_succeeded(&mut self)
        ensures
            final(self).status == DeploymentStatus::Succeeded,
            final(self).current_phase == DeploymentPhase::Complete,
            final(self).phases_completed@ == old(self).phases_completed@.push(old(self).current_phase),
            final(self).completed_at is Some,
            final(self).id == old(self).id,
            final(self).files_deployed == old(self).files_deployed,
            final(self).rollback_triggered == old(self).rollback_triggered,
    {
        self.mark_succeeded_at(now_millis());
    }

    /// Marks the deployment failed at `now` for `reason`.
    pub fn mark_failed_at(&mut self, reason: String, now: i64)
        ensures
            *final(self) == (DeploymentRecord {
                status: DeploymentStatus::Failed(reason),
                completed_at: Some(now),
                ..*old(self)
            }),
    {
        self.status = DeploymentStatus::Failed(reason);
        self.completed_at = Some(now);
    }

    /// Marks the deployment failed now.
    pub fn mark_failed(&mut self, reason: String)
        ensures
            final(self).status == DeploymentStatus::Failed(reason),
            final(self).completed_at is Some,
            final(self).current_phase == old(self).current_phase,
            final(self).phases_completed == old(self).phases_completed,
            final(self).id == old(self).id,
            final(self).files_deployed == old(self).files_deployed,
            final(self).rollback_triggered == old(self).rollback_triggered,
    {
        self.mark_failed_at(reason, now_millis());
    }

    /// Marks the deployment rolled back at `now` for `reason`.
    pub fn mark_rolled_back_at(&mut self, reason: String, now: i64)
        ensures
            *final(self) == (DeploymentRecord {
                status: DeploymentStatus::RolledBack(reason),
                rollback_triggered: true,
                rollback_reason: Some(reason),
                current_phase: DeploymentPhase::RolledBack,
                phases_completed: final(self).phases_completed,
                completed_at: Some(now),
                ..*old(self)
            }),
            final(self).phases_completed@ == old(self).phases_completed@.push(old(self).current_phase),
    {
        self.rollback_triggered = true;
        self.rollback_reason = Some(reason.clone());
        self.status = DeploymentStatus::RolledBack(reason);
        self.advance_phase(DeploymentPhase::RolledBack);
        self.completed_at = Some(now);
    }

    /// Marks the deployment rolled back now.
    pub fn mark_rolled_back(&mut self, reason: String)
        ensures
            final(self).status == DeploymentStatus::RolledBack(reason),
            final(self).rollback_triggered,
            final(self).rollback_reason == Some(reason),
            final(self).current_phase == DeploymentPhase::RolledBack,
            final(self).phases_completed@ == old(self).phases_completed@.push(old(self).current_phase),
            final(self).completed_at is Some,
            final(self).id == old(self).id,
            final(self).files_deployed == old(self).files_deployed,
    {
        self.mark_rolled_back_at(reason, now_millis());
    }

    /// Duration in milliseconds, once completed.
    pub fn duration_ms(&self) -> (d: Option<i64>)
        ensures
            d == spec_deployment_duration(*self),
    {
        match self.completed_at {
            Some(end) => {
                let x: i128 = (end as i128) - (self.started_at as i128);
                if x > (i64::MAX as i128) {
                    Some(i64::MAX)
                } else if x < (i64::MIN as i128) {
                    Some(i64::MIN)
                } else {
                    Some(x as i64)
                }
            },
            None => None,
        }
    }

    /// Number of phases completed.
    pub fn phase_count(&self) -> (n: usize)
        ensures
            n == self.phases_completed@.len(),
    {
        self.phases_completed.len()
    }
}

/// Configuration of deployments; regression limits and traffic stages in
/// whole percent.
#[derive(Clone, Debug)]
pub struct DeploymentConfig {
    pub max_deployment_timeout_secs: u64,
    pub health_check_interval_secs: u64,
    pub max_regression_percent: u32,
    pub auto_rollback: bool,
    pub staged_percents: Vec<u32>,
    pub max_tracked_records: usize,
}

impl Default for DeploymentConfig {
    fn default() -> (c: Self)
        ensures
            c.max_deployment_timeout_secs == 3600,
            c.health_check_interval_secs == 30,
            c.max_regression_percent == 5,
            c.auto_rollback,
            c.staged_percents@ == seq![10u32, 25u32, 50u32, 100u32],
            c.max_tracked_records == 256,
    {
        DeploymentConfig {
            max_deployment_timeout_secs: 3600,
            health_check_interval_secs: 30,
            max_regression_percent: 5,
            auto_rollback: true,
            staged_percents: vec![10u32, 25u32, 50u32, 100u32],
            max_tracked_records: 256,
        }
    }
}

/// Summary statistics of tracked deployments.
#[derive(Clone, Debug)]
pub struct DeploymentSummary {
    pub total: usize,
    pub pending: usize,
    pub in_progress: usize,
    pub succeeded: usize,
    pub failed: usize,
    pub rolled_back: usize,
    pub total_files_deployed: usize,
}

impl Default for DeploymentSummary {
    fn default() -> (s: Self)
        ensures
            s.total == 0 && s.pending == 0 && s.in_progress == 0 && s.succeeded == 0 && s.failed == 0
                && s.rolled_back == 0 && s.total_files_deployed == 0,
    {
        DeploymentSummary { total: 0, pending: 0, in_progress: 0, succeeded: 0, failed: 0, rolled_back: 0, total_files_deployed: 0 }
    }
}

impl DeploymentSummary {
    /// Renders the summary as
    /// `DeploymentSummary(total=.., succeeded=.., failed=.., rolled_back=.., files=..)`.
    pub fn to_string(&self) -> (s: String)
        ensures
            s@ == "DeploymentSummary(total="@ + decimal(self.total as nat)
                + ", succeeded="@ + decimal(self.succeeded as nat)
                + ", failed="@ + decimal(self.failed as nat)
                + ", rolled_back="@ + decimal(self.rolled_back as nat)
                + ", files="@ + decimal(self.total_files_deployed as nat) + ")"@,
    {
        let mut s = String::from_str("DeploymentSummary(total=");
        s.append(decimal_string(self.total as u64).as_str());
        s.append(", succeeded=");
        s.append(decimal_string(self.succeeded as u64).as_str());
        s.append(", failed=");
        s.append(decimal_string(self.failed as u64).as_str());
        s.append(", rolled_back=");
        s.append(decimal_string(self.rolled_back as u64).as_str());
        s.append(", files=");
        s.append(decimal_string(self.total_files_deployed as u64).as_str());
        s.append(")");
        s
    }
}

} // verus!
