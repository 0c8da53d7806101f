//! The deployment engine: validates an artifact, settles the outcome of
//! its deployment strategy (rolling back on failure when configured),
//! keeps a bounded history of records, and derives summary statistics and
//! learning tallies from it.

use vstd::prelude::*;
use crate::bounded::{push_then_trim, spec_push_then_trim};
use crate::consequence::feedback::GateSubmissionSignal;
use crate::deployment::error::{spec_deployment_error_text, DeploymentError, DeploymentResult};
use crate::deployment::feedback::{spec_deployment_feedback, DeploymentFeedback};
use crate::deployment::rollback::{DeploymentRollbackExecutor, DeploymentRollbackResult};
use crate::deployment::types::{
    spec_deployment_duration, spec_deployment_terminal, spec_strategy_text, DeploymentConfig, DeploymentId,
    DeploymentPhase, DeploymentRecord, DeploymentStatus, DeploymentStrategy, DeploymentSummary, SelfModTier,
};
use crate::intent::proposal::RollbackPlan;
use crate::platform::now_millis;
use crate::text::{has_prefix, starts_with, str_eq};

verus! {

/// What the engine deploys: a generated artifact, its files, whether it
/// was fully validated, and how to undo it.
#[derive(Clone, Debug)]
pub struct DeploymentArtifact {
    pub codegen_id: String,
    pub commitment_id: String,
    pub tier: SelfModTier,
    pub deployment_strategy: DeploymentStrategy,
    pub generated_files: Vec<String>,
    pub fully_validated: bool,
    pub rollback_plan: RollbackPlan,
}

impl DeploymentArtifact {
    /// Whether the artifact is validated and has generated files.
    pub fn is_deployable(&self) -> (b: bool)
        ensures
            b == (self.fully_validated && self.generated_files@.len() > 0),
    {
        self.fully_validated && self.generated_files.len() > 0
    }
}

/// Reason recorded when the strategy failed and no rollback ran, or the
/// rollback succeeded.
pub open spec fn spec_strategy_failed(e: Seq<char>) -> Seq<char> {
    "Strategy failed: "@ + e
}

/// Whether `r` is what a rollback outcome makes of the record `before`
/// whose strategy failed with error text `e`, at time `now`.
pub open spec fn spec_rollback_applied(before: DeploymentRecord, e: Seq<char>,
    outcome: DeploymentResult<DeploymentRollbackResult>, now: i64, r: DeploymentRecord) -> bool {
    match outcome {
        Ok(rb) => if rb.success {
            &&& r.status matches DeploymentStatus::RolledBack(m) && m@ == spec_strategy_failed(e)
            &&& r.rollback_reason matches Some(m) && m@ == spec_strategy_failed(e)
            &&& r.phases_completed@ == before.phases_completed@.push(before.current_phase)
            &&& r == (DeploymentRecord {
                    status: r.status,
                    rollback_triggered: true,
                    rollback_reason: r.rollback_reason,
                    current_phase: DeploymentPhase::RolledBack,
                    phases_completed: r.phases_completed,
                    completed_at: Some(now),
                    ..before
                })
        } else {
            &&& r.status matches DeploymentStatus::Failed(m)
                && m@ == "Strategy failed ("@ + e + "), rollback also failed"@
            &&& r == (DeploymentRecord { status: r.status, completed_at: Some(now), ..before })
        },
        Err(x) => {
            &&& r.status matches DeploymentStatus::Failed(m)
                && m@ == "Strategy failed ("@ + e + "), rollback error: "@ + spec_deployment_error_text(x)
            &&& r == (DeploymentRecord { status: r.status, completed_at: Some(now), ..before })
        },
    }
}

/// Applies a rollback outcome to a record whose strategy failed with
/// `strategy_error`: a successful rollback marks it rolled back, anything
/// else marks it failed with both errors.
pub fn apply_rollback_outcome(record: &mut DeploymentRecord, strategy_error: &DeploymentError,
    outcome: DeploymentResult<DeploymentRollbackResult>, now: i64)
    ensures
        spec_rollback_applied(*old(record), spec_deployment_error_text(*strategy_error), outcome, now, *final(record)),
{
    let e = strategy_error.to_string();
    match outcome {
        Ok(rb) => {
            if rb.success {
                let mut m = String::from_str("Strategy failed: ");
                m.append(e.as_str());
                record.mark_rolled_back_at(m, now);
            } else {
                let mut m = String::from_str("Strategy failed (");
                m.append(e.as_str());
                m.append("), rollback also failed");
                record.mark_failed_at(m, now);
            }
        },
        Err(x) => {
            let mut m = String::from_str("Strategy failed (");
            m.append(e.as_str());
            m.append("), rollback error: ");
            m.append(x.to_string().as_str());
            record.mark_failed_at(m, now);
        },
    }
}

/// Index of the first record with identifier `id`, from `i` on.
pub open spec fn first_deployment(rs: Seq<DeploymentRecord>, id: Seq<char>, i: int) -> Option<int>
    decreases rs.len() - i,
{
    if i < 0 || i >= rs.len() {
        None
    } else if rs[i].id.0@ == id {
        Some(i)
    } else {
        first_deployment(rs, id, i + 1)
    }
}

/// Index of the first record for commitment `c`, from `i` on.
pub open spec fn first_for_commitment(rs: Seq<DeploymentRecord>, c: Seq<char>, i: int) -> Option<int>
    decreases rs.len() - i,
{
    if i < 0 || i >= rs.len() {
        None
    } else if rs[i].commitment_id@ == c {
        Some(i)
    } else {
        first_for_commitment(rs, c, i + 1)
    }
}

/// Whether `opened` is the record of `rec`'s deployment as it stood when
/// its rollback began: in progress, rolling back after validating, not
/// completed and not rolled back.
pub open spec fn spec_rolling_back(opened: DeploymentRecord, rec: DeploymentRecord) -> bool {
    &&& opened == (DeploymentRecord {
            status: DeploymentStatus::InProgress,
            current_phase: DeploymentPhase::RollingBack,
            phases_completed: opened.phases_completed,
            rollback_triggered: false,
            rollback_reason: None,
            completed_at: None,
            ..rec
        })
    &&& opened.phases_completed@ == seq![DeploymentPhase::Validating]
}

/// The rollback outcomes that `rb` can give for the files of `artifact`
/// following its rollback plan.
pub open spec fn rollback_outcomes<R: DeploymentRollbackExecutor>(rb: R, artifact: DeploymentArtifact)
    -> spec_fn(DeploymentResult<DeploymentRollbackResult>) -> bool {
    |out: DeploymentResult<DeploymentRollbackResult>| rb.spec_rollback_outcome(artifact.rollback_plan,
        artifact.generated_files@, out)
}

/// What `deploy` answers once the record of deployment `id` is stored:
/// the identifier when the record succeeded (or is no longer tracked),
/// an error carrying the reason when it failed or was rolled back.
pub open spec fn spec_deploy_answer(rs: Seq<DeploymentRecord>, id: DeploymentId) -> DeploymentResult<DeploymentId> {
    match first_deployment(rs, id.0@, 0) {
        Some(k) => match rs[k].status {
            DeploymentStatus::Failed(reason) => Err(DeploymentError::StrategyExecutionFailed(reason)),
            DeploymentStatus::RolledBack(reason) => Err(DeploymentError::HealthCheckFailed(reason)),
            _ => Ok(id),
        },
        None => Ok(id),
    }
}

/// Which records a tally counts: terminal records, possibly further
/// narrowed by outcome, tier or strategy.
#[derive(Clone, Copy, Debug, PartialEq, Eq, Structural)]
pub enum RecordQuery {
    Terminal,
    Succeeded,
    RolledBack,
    WithDuration,
    Tier(SelfModTier),
    TierSucceeded(SelfModTier),
    Strategy(DeploymentStrategy),
    StrategySucceeded(DeploymentStrategy),
}

/// Whether a record's strategy display begins with the name of `s`.
pub open spec fn strategy_matches(r: DeploymentRecord, s: DeploymentStrategy) -> bool {
    has_prefix(spec_strategy_text(r.strategy), spec_strategy_text(s))
}

/// Whether a record is counted by a query.
pub open spec fn spec_query(r: DeploymentRecord, q: RecordQuery) -> bool {
    spec_deployment_terminal(r.status) && match q {
        RecordQuery::Terminal => true,
        RecordQuery::Succeeded => r.status is Succeeded,
        RecordQuery::RolledBack => r.rollback_triggered,
        RecordQuery::WithDuration => r.completed_at is Some,
        RecordQuery::Tier(t) => r.tier == t,
        RecordQuery::TierSucceeded(t) => r.tier == t && r.status is Succeeded,
        RecordQuery::Strategy(s) => strategy_matches(r, s),
        RecordQuery::StrategySucceeded(s) => strategy_matches(r, s) && r.status is Succeeded,
    }
}

/// Number of records a query counts.
pub open spec fn count_query(rs: Seq<DeploymentRecord>, q: RecordQuery) -> nat
    decreases rs.len(),
{
    if rs.len() == 0 {
        0
    } else {
        count_query(rs.drop_last(), q) + if spec_query(rs.last(), q) { 1nat } else { 0nat }
    }
}

/// Sum of the durations of the terminal records that have one.
pub open spec fn sum_durations(rs: Seq<DeploymentRecord>) -> int
    decreases rs.len(),
{
    if rs.len() == 0 {
        0
    } else {
        sum_durations(rs.drop_last()) + if spec_query(rs.last(), RecordQuery::WithDuration) {
            match spec_deployment_duration(rs.last()) { Some(d) => d as int, None => 0 }
        } else {
            0
        }
    }
}

/// Successes and total of one tier among the terminal records.
#[derive(Clone, Copy, Debug, PartialEq, Eq)]
pub struct TierTally {
    pub tier: SelfModTier,
    pub succeeded: usize,
    pub total: usize,
}

/// Successes and total of one strategy among the terminal records.
#[derive(Clone, Debug)]
pub struct StrategyTally {
    pub strategy: String,
    pub succeeded: usize,
    pub total: usize,
}

/// The counts behind the learning metrics of the tracked deployments;
/// each rate is a count divided by `total_terminal` (or, per tier and
/// strategy, by that tally's total), and the average duration is
/// `total_duration_ms / duration_count`.
#[derive(Clone, Debug)]
pub struct DeploymentLearningCounts {
    pub total_terminal: usize,
    pub succeeded: usize,
    pub rolled_back: usize,
    pub total_duration_ms: i128,
    pub duration_count: usize,
    pub per_tier: Vec<TierTally>,
    pub per_strategy: Vec<StrategyTally>,
}

/// The tiers in order.
pub open spec fn tier_at(k: nat) -> SelfModTier {
    if k == 0 {
        SelfModTier::Tier0Configuration
    } else if k == 1 {
        SelfModTier::Tier1OperatorInternal
    } else if k == 2 {
        SelfModTier::Tier2ApiChange
    } else if k == 3 {
        SelfModTier::Tier3KernelChange
    } else if k == 4 {
        SelfModTier::Tier4SubstrateChange
    } else {
        SelfModTier::Tier5ArchitecturalChange
    }
}

/// The strategies in order.
pub open spec fn strategy_at(k: nat) -> DeploymentStrategy {
    if k == 0 {
        DeploymentStrategy::Immediate
    } else if k == 1 {
        DeploymentStrategy::Canary
    } else if k == 2 {
        DeploymentStrategy::Staged
    } else {
        DeploymentStrategy::BlueGreen
    }
}

/// The tallies of the first `k` tiers that have terminal records.
pub open spec fn spec_tier_tallies(rs: Seq<DeploymentRecord>, k: nat) -> Seq<TierTally>
    decreases k,
{
    if k == 0 {
        Seq::empty()
    } else {
        let t = tier_at((k - 1) as nat);
        let prev = spec_tier_tallies(rs, (k - 1) as nat);
        if count_query(rs, RecordQuery::Tier(t)) > 0 {
            prev.push(TierTally {
                tier: t,
                succeeded: count_query(rs, RecordQuery::TierSucceeded(t)) as usize,
                total: count_query(rs, RecordQuery::Tier(t)) as usize,
            })
        } else {
            prev
        }
    }
}

/// Whether `v` holds the tallies of the first `k` strategies that have
/// terminal records, by name.
pub open spec fn spec_strategy_tallies(rs: Seq<DeploymentRecord>, k: nat, v: Seq<StrategyTally>) -> bool
    decreases k,
{
    if k == 0 {
        v.len() == 0
    } else {
        let s = strategy_at((k - 1) as nat);
        if count_query(rs, RecordQuery::Strategy(s)) > 0 {
            &&& v.len() > 0
            &&& spec_strategy_tallies(rs, (k - 1) as nat, v.drop_last())
            &&& v.last().strategy@ == spec_strategy_text(s)
            &&& v.last().succeeded == count_query(rs, RecordQuery::StrategySucceeded(s))
            &&& v.last().total == count_query(rs, RecordQuery::Strategy(s))
        } else {
            spec_strategy_tallies(rs, (k - 1) as nat, v)
        }
    }
}

/// Whether `c` holds the learning counts of the records.
pub open spec fn spec_learning_counts(rs: Seq<DeploymentRecord>, c: DeploymentLearningCounts) -> bool {
    &&& c.total_terminal == count_query(rs, RecordQuery::Terminal)
    &&& c.succeeded == count_query(rs, RecordQuery::Succeeded)
    &&& c.rolled_back == count_query(rs, RecordQuery::RolledBack)
    &&& c.total_duration_ms == sum_durations(rs)
    &&& c.duration_count == count_query(rs, RecordQuery::WithDuration)
    &&& c.per_tier@ == spec_tier_tallies(rs, 6)
    &&& spec_strategy_tallies(rs, 4, c.per_strategy@)
}

/// Number of records per status: 0 pending, 1 in progress, 2 succeeded,
/// 3 failed, 4 rolled back.
pub open spec fn status_bucket(s: DeploymentStatus) -> nat {
    match s {
        DeploymentStatus::Pending => 0,
        DeploymentStatus::InProgress => 1,
        DeploymentStatus::Succeeded => 2,
        DeploymentStatus::Failed(_) => 3,
        DeploymentStatus::RolledBack(_) => 4,
    }
}

/// Number of records in a status bucket.
pub open spec fn count_status(rs: Seq<DeploymentRecord>, b: nat) -> nat
    decreases rs.len(),
{
    if rs.len() == 0 {
        0
    } else {
        count_status(rs.drop_last(), b) + if status_bucket(rs.last().status) == b { 1nat } else { 0nat }
    }
}

/// Total number of deployed files over the records.
pub open spec fn total_files(rs: Seq<DeploymentRecord>) -> nat
    decreases rs.len(),
{
    if rs.len() == 0 { 0 } else { total_files(rs.drop_last()) + rs.last().files_deployed@.len() }
}

/// Whether `s` summarizes the records.
pub open spec fn spec_deployment_summary(rs: Seq<DeploymentRecord>, s: DeploymentSummary) -> bool {
    &&& s.total == rs.len()
    &&& s.pending == count_status(rs, 0)
    &&& s.in_progress == count_status(rs, 1)
    &&& s.succeeded == count_status(rs, 2)
    &&& s.failed == count_status(rs, 3)
    &&& s.rolled_back == count_status(rs, 4)
    &&& s.total_files_deployed == total_files(rs)
}

proof fn lemma_take_next<T>(s: Seq<T>, i: int)
    requires
        0 <= i < s.len(),
    ensures
        s.take(i + 1).drop_last() == s.take(i),
        s.take(i + 1).last() == s[i],
{
    assert(s.take(i + 1).drop_last() =~= s.take(i));
}

proof fn lemma_count_query_bound(rs: Seq<DeploymentRecord>, q: RecordQuery)
    ensures
        count_query(rs, q) <= rs.len(),
    decreases rs.len(),
{
    if rs.len() > 0 {
        lemma_count_query_bound(rs.drop_last(), q);
    }
}

proof fn lemma_count_status_bound(rs: Seq<DeploymentRecord>, b: nat)
    ensures
        count_status(rs, b) <= rs.len(),
    decreases rs.len(),
{
    if rs.len() > 0 {
        lemma_count_status_bound(rs.drop_last(), b);
    }
}

proof fn lemma_sum_durations_bound(rs: Seq<DeploymentRecord>)
    ensures
        -(rs.len() * 0x8000_0000_0000_0000) <= sum_durations(rs) <= rs.len() * 0x8000_0000_0000_0000,
    decreases rs.len(),
{
    if rs.len() > 0 {
        lemma_sum_durations_bound(rs.drop_last());
        assert((rs.len() - 1) * 0x8000_0000_0000_0000 + 0x8000_0000_0000_0000 == rs.len() * 0x8000_0000_0000_0000)
            by (nonlinear_arith);
    }
}

proof fn lemma_total_files_prefix(rs: Seq<DeploymentRecord>, i: int)
    requires
        0 <= i <= rs.len(),
    ensures
        total_files(rs.take(i)) <= total_files(rs),
    decreases rs.len() - i,
{
    if i < rs.len() {
        lemma_total_files_prefix(rs, i + 1);
        assert(rs.take(i + 1).drop_last() =~= rs.take(i));
    } else {
        assert(rs.take(i) =~= rs);
    }
}

/// Whether `after` is the history `before` once the deployment of
/// `artifact` with strategy outcome `strategy_result` stored the record
/// `rec`, and `r` is the answer of the deployment.
pub open spec fn spec_deployed(before: Seq<DeploymentRecord>, config: DeploymentConfig, after: Seq<DeploymentRecord>,
    artifact: DeploymentArtifact, strategy_result: DeploymentResult<()>, r: DeploymentResult<DeploymentId>,
    rec: DeploymentRecord, rollback_ok: spec_fn(DeploymentResult<DeploymentRollbackResult>) -> bool) -> bool {
    &&& after == spec_push_then_trim(before,
            config.max_tracked_records as nat, rec)
    &&& rec.codegen_id == artifact.codegen_id
    &&& rec.commitment_id == artifact.commitment_id
    &&& rec.tier == artifact.tier
    &&& rec.strategy == artifact.deployment_strategy
    &&& rec.files_deployed@ == artifact.generated_files@
    &&& spec_deployment_terminal(rec.status)
    &&& rec.completed_at is Some
    &&& rec.rollback_triggered == (rec.status is RolledBack)
    &&& if !(artifact.fully_validated && artifact.generated_files@.len() > 0) {
        &&& rec.status matches DeploymentStatus::Failed(m) && m@ == "Artifact not deployable"@
        &&& r matches Err(DeploymentError::ArtifactNotDeployable(m))
            && m@ == "Artifact is not validated or has no generated files"@
    } else {
        &&& r == spec_deploy_answer(after, rec.id)
        &&& match strategy_result {
            Ok(_) => {
                &&& rec.status is Succeeded
                &&& rec.current_phase == DeploymentPhase::Complete
                &&& rec.phases_completed@ == seq![DeploymentPhase::Validating]
            },
            Err(e) => if config.auto_rollback {
                exists|opened: DeploymentRecord, out: DeploymentResult<DeploymentRollbackResult>, now: i64|
                    #![trigger spec_rollback_applied(opened, spec_deployment_error_text(e), out, now, rec)]
                    spec_rolling_back(opened, rec) && rollback_ok(out)
                        && spec_rollback_applied(opened, spec_deployment_error_text(e), out, now, rec)
            } else {
                rec.status matches DeploymentStatus::Failed(m)
                    && m@ == spec_strategy_failed(spec_deployment_error_text(e))
            },
        }
    }
}

proof fn lemma_first_deployment_is_last(rs: Seq<DeploymentRecord>, id: Seq<char>, i: int)
    requires
        0 <= i < rs.len(),
        rs.last().id.0@ == id,
        forall|j: int| 0 <= j < rs.len() - 1 ==> (#[trigger] rs[j]).id.0@ != id,
    ensures
        first_deployment(rs, id, i) == Some(rs.len() - 1),
    decreases rs.len() - i,
{
    if i < rs.len() - 1 {
        lemma_first_deployment_is_last(rs, id, i + 1);
    }
}

/// A deployment answers `Ok` exactly when the record it stored succeeded,
/// and then with that record's identifier, provided the history keeps at
/// least one record and the new identifier is not an older record's.
pub proof fn law_deploy_answers_by_its_record(before: Seq<DeploymentRecord>, config: DeploymentConfig,
    after: Seq<DeploymentRecord>, artifact: DeploymentArtifact, strategy_result: DeploymentResult<()>,
    r: DeploymentResult<DeploymentId>, rec: DeploymentRecord,
    rollback_ok: spec_fn(DeploymentResult<DeploymentRollbackResult>) -> bool)
    requires
        spec_deployed(before, config, after, artifact, strategy_result, r, rec, rollback_ok),
        config.max_tracked_records >= 1,
        forall|j: int| 0 <= j < before.len() ==> (#[trigger] before[j]).id.0@ != rec.id.0@,
    ensures
        (r is Ok) == (rec.status is Succeeded),
        r matches Ok(id) ==> id == rec.id,
{
    let t = before.push(rec);
    let max = config.max_tracked_records as nat;
    crate::bounded::law_push_then_trim_bound(before, max, rec);
    assert forall|j: int| 0 <= j < after.len() - 1 implies (#[trigger] after[j]).id.0@ != rec.id.0@ by {
        if t.len() > max {
            assert(after[j] == t[t.len() - max + j]);
        } else {
            assert(after[j] == t[j]);
        }
    }
    if artifact.fully_validated && artifact.generated_files@.len() > 0 {
        lemma_first_deployment_is_last(after, rec.id.0@, 0);
    }
}

/// The engine that deploys artifacts.
pub struct DeploymentEngine<R> {
    rollback_executor: R,
    config: DeploymentConfig,
    records: Vec<DeploymentRecord>,
}

impl<R: DeploymentRollbackExecutor> DeploymentEngine<R> {
    /// The records, oldest first.
    pub closed spec fn records(&self) -> Seq<DeploymentRecord> {
        self.records@
    }

    /// The engine's configuration.
    pub closed spec fn configuration(&self) -> DeploymentConfig {
        self.config
    }

    /// The executor that rolls failed deployments back.
    pub closed spec fn rollback_executor(&self) -> R {
        self.rollback_executor
    }

    /// An engine with the default configuration.
    pub fn new(rollback_executor: R) -> (e: Self)
        ensures
            e.records().len() == 0,
            e.configuration().auto_rollback,
            e.configuration().max_tracked_records == 256,
            e.rollback_executor() == rollback_executor,
    {
        DeploymentEngine { rollback_executor, config: DeploymentConfig::default(), records: Vec::new() }
    }

    /// An engine with the given configuration.
    pub fn with_config(rollback_executor: R, config: DeploymentConfig) -> (e: Self)
        ensures
            e.records().len() == 0,
            e.configuration() == config,
            e.rollback_executor() == rollback_executor,
    {
        DeploymentEngine { rollback_executor, config, records: Vec::new() }
    }

    fn store_record(&mut self, record: DeploymentRecord)
        ensures
            final(self).configuration() == old(self).configuration(),
            final(self).rollback_executor() == old(self).rollback_executor(),
            final(self).records() == spec_push_then_trim(old(self).records(),
                old(self).configuration().max_tracked_records as nat, record),
    {
        push_then_trim(&mut self.records, self.config.max_tracked_records, record);
    }

    /// Deploys an artifact whose strategy produced `strategy_result`.
    ///
    /// An artifact that is not deployable gets a failed record and an
    /// error. Otherwise a record is opened and settled: succeeded when the
    /// strategy succeeded; when it failed, rolled back or failed according
    /// to the rollback (when auto-rollback is on), or failed. The record is
    /// stored in the bounded history in every case, and the answer follows
    /// the stored record.
    pub fn deploy(&mut self, artifact: &DeploymentArtifact, strategy_result: DeploymentResult<()>)
        -> (r: DeploymentResult<DeploymentId>)
        ensures
            final(self).configuration() == old(self).configuration(),
            final(self).rollback_executor() == old(self).rollback_executor(),
            exists|rec: DeploymentRecord| #[trigger] spec_deployed(old(self).records(), old(self).configuration(),
                final(self).records(), *artifact, strategy_result, r, rec,
                rollback_outcomes(old(self).rollback_executor(), *artifact)),
    {
        let now = now_millis();
        let files = artifact.generated_files.clone();
        proof {
            assert forall|i: int| 0 <= i < files@.len() implies files@[i] == artifact.generated_files@[i] by {
                assert(cloned::<String>(artifact.generated_files[i], files[i]));
            }
            assert(files@ =~= artifact.generated_files@);
        }
        if !artifact.is_deployable() {
            let mut record = DeploymentRecord::new_at(
                artifact.codegen_id.clone(),
                artifact.commitment_id.clone(),
                artifact.tier,
                artifact.deployment_strategy,
                files,
                now,
            );
            record.mark_failed_at(String::from_str("Artifact not deployable"), now);
            let ghost stored = record;
            self.store_record(record);
            let r = Err(DeploymentError::ArtifactNotDeployable(
                String::from_str("Artifact is not validated or has no generated files"),
            ));
            assert(spec_deployed(old(self).records(), old(self).configuration(), self.records(), *artifact,
                strategy_result, r, stored, rollback_outcomes(old(self).rollback_executor(), *artifact)));
            return r;
        }
        let mut record = DeploymentRecord::new_at(
            artifact.codegen_id.clone(),
            artifact.commitment_id.clone(),
            artifact.tier,
            artifact.deployment_strategy,
            files,
            now,
        );
        record.mark_in_progress();
        let ended = now_millis();
        match strategy_result {
            Ok(()) => {
                record.mark_succeeded_at(ended);
                assert(record.phases_completed@ =~= seq![DeploymentPhase::Validating]);
            },
            Err(e) => {
                if self.config.auto_rollback {
                    record.advance_phase(DeploymentPhase::RollingBack);
                    let ghost opened = record;
                    let outcome = self.rollback_executor.rollback(&artifact.rollback_plan, record.files_deployed.as_slice());
                    let ghost out = outcome;
                    apply_rollback_outcome(&mut record, &e, outcome, ended);
                    proof {
                        assert(opened.phases_completed@ =~= seq![DeploymentPhase::Validating]);
                        assert(spec_rolling_back(opened, record));
                        assert(rollback_outcomes(self.rollback_executor, *artifact)(out));
                        assert(spec_rollback_applied(opened, spec_deployment_error_text(e), out, ended, record));
                        assert(exists|o: DeploymentRecord, x: DeploymentResult<DeploymentRollbackResult>, n: i64|
                            #![trigger spec_rollback_applied(o, spec_deployment_error_text(e), x, n, record)]
                            spec_rolling_back(o, record) && rollback_outcomes(self.rollback_executor, *artifact)(x)
                                && spec_rollback_applied(o, spec_deployment_error_text(e), x, n, record));
                    }
                } else {
                    let mut m = String::from_str("Strategy failed: ");
                    m.append(e.to_string().as_str());
                    record.mark_failed_at(m, ended);
                }
            },
        }
        let id = record.id.duplicate();
        let ghost stored = record;
        self.store_record(record);
        assert(self.records() == spec_push_then_trim(old(self).records(),
            old(self).configuration().max_tracked_records as nat, stored));
        let r = match self.find(&id) {
            Some(rec) => match &rec.status {
                DeploymentStatus::Failed(reason) => Err(DeploymentError::StrategyExecutionFailed(reason.clone())),
                DeploymentStatus::RolledBack(reason) => Err(DeploymentError::HealthCheckFailed(reason.clone())),
                _ => Ok(id),
            },
            None => Ok(id),
        };
        assert(spec_deployed(old(self).records(), old(self).configuration(), self.records(), *artifact,
            strategy_result, r, stored, rollback_outcomes(old(self).rollback_executor(), *artifact)));
        r
    }

    /// The observation feedback of the first record with identifier `id`.
    pub fn get_feedback(&self, id: &DeploymentId) -> (f: Option<GateSubmissionSignal>)
        ensures
            match first_deployment(self.records(), id.0@, 0) {
                Some(k) => f == spec_deployment_feedback(self.records()[k]),
                None => f is None,
            },
    {
        match self.find(id) {
            Some(record) => DeploymentFeedback::generate_feedback(record),
            None => None,
        }
    }

    /// The first record with identifier `id`.
    pub fn find(&self, id: &DeploymentId) -> (r: Option<&DeploymentRecord>)
        ensures
            match first_deployment(self.records(), id.0@, 0) {
                Some(k) => r == Some(&self.records()[k]),
                None => r is None,
            },
    {
        let mut i: usize = 0;
        while i < self.records.len()
            invariant
                i <= self.records@.len(),
                first_deployment(self.records@, id.0@, 0) == first_deployment(self.records@, id.0@, i as int),
            decreases self.records@.len() - i,
        {
            if self.records[i].id.0 == id.0 {
                return Some(&self.records[i]);
            }
            i = i + 1;
        }
        None
    }

    /// The first record for commitment `commitment_id`.
    pub fn find_by_commitment(&self, commitment_id: &str) -> (r: Option<&DeploymentRecord>)
        ensures
            match first_for_commitment(self.records(), commitment_id@, 0) {
                Some(k) => r == Some(&self.records()[k]),
                None => r is None,
            },
    {
        let mut i: usize = 0;
        while i < self.records.len()
            invariant
                i <= self.records@.len(),
                first_for_commitment(self.records@, commitment_id@, 0)
                    == first_for_commitment(self.records@, commitment_id@, i as int),
            decreases self.records@.len() - i,
        {
            if str_eq(self.records[i].commitment_id.as_str(), commitment_id) {
                return Some(&self.records[i]);
            }
            i = i + 1;
        }
        None
    }

    /// All records, oldest first.
    pub fn all_records(&self) -> (v: &Vec<DeploymentRecord>)
        ensures
            v@ == self.records(),
    {
        &self.records
    }

    /// Summary statistics of the records.
    pub fn summary(&self) -> (s: DeploymentSummary)
        requires
            total_files(self.records()) <= usize::MAX,
        ensures
            spec_deployment_summary(self.records(), s),
    {
        let mut s = DeploymentSummary::default();
        let mut i: usize = 0;
        while i < self.records.len()
            invariant
                i <= self.records@.len(),
                total_files(self.records@) <= usize::MAX,
                spec_deployment_summary(self.records@.take(i as int), s),
            decreases self.records@.len() - i,
        {
            let ghost rs = self.records@;
            proof {
                lemma_take_next(rs, i as int);
                lemma_total_files_prefix(rs, i as int + 1);
                lemma_count_status_bound(rs.take(i as int), 0);
                lemma_count_status_bound(rs.take(i as int), 1);
                lemma_count_status_bound(rs.take(i as int), 2);
                lemma_count_status_bound(rs.take(i as int), 3);
                lemma_count_status_bound(rs.take(i as int), 4);
            }
            let record = &self.records[i];
            s.total = s.total + 1;
            s.total_files_deployed = s.total_files_deployed + record.files_deployed.len();
            match &record.status {
                DeploymentStatus::Pending => { s.pending = s.pending + 1; },
                DeploymentStatus::InProgress => { s.in_progress = s.in_progress + 1; },
                DeploymentStatus::Succeeded => { s.succeeded = s.succeeded + 1; },
                DeploymentStatus::Failed(_) => { s.failed = s.failed + 1; },
                DeploymentStatus::RolledBack(_) => { s.rolled_back = s.rolled_back + 1; },
            }
            i = i + 1;
        }
        proof {
            assert(self.records@.take(self.records@.len() as int) =~= self.records@);
        }
        s
    }

    fn record_matches(r: &DeploymentRecord, q: RecordQuery) -> (b: bool)
        ensures
            b == spec_query(*r, q),
    {
        if !r.status.is_terminal() {
            return false;
        }
        match q {
            RecordQuery::Terminal => true,
            RecordQuery::Succeeded => r.status.is_success(),
            RecordQuery::RolledBack => r.rollback_triggered,
            RecordQuery::WithDuration => r.completed_at.is_some(),
            RecordQuery::Tier(t) => r.tier == t,
            RecordQuery::TierSucceeded(t) => r.tier == t && r.status.is_success(),
            RecordQuery::Strategy(s) => starts_with(r.strategy.to_string().as_str(), s.to_string().as_str()),
            RecordQuery::StrategySucceeded(s) => starts_with(r.strategy.to_string().as_str(), s.to_string().as_str())
                && r.status.is_success(),
        }
    }

    /// Number of records a query counts.
    pub fn count(&self, q: RecordQuery) -> (n: usize)
        ensures
            n == count_query(self.records(), q),
    {
        let mut n: usize = 0;
        let mut i: usize = 0;
        while i < self.records.len()
            invariant
                i <= self.records@.len(),
                n == count_query(self.records@.take(i as int), q),
            decreases self.records@.len() - i,
        {
            proof {
                lemma_take_next(self.records@, i as int);
                lemma_count_query_bound(self.records@.take(i as int), q);
            }
            if Self::record_matches(&self.records[i], q) {
                n = n + 1;
            }
            i = i + 1;
        }
        proof {
            assert(self.records@.take(self.records@.len() as int) =~= self.records@);
        }
        n
    }

    fn total_duration(&self) -> (t: i128)
        ensures
            t == sum_durations(self.records()),
    {
        let mut t: i128 = 0;
        let mut i: usize = 0;
        while i < self.records.len()
            invariant
                i <= self.records@.len(),
                t == sum_durations(self.records@.take(i as int)),
            decreases self.records@.len() - i,
        {
            proof {
                lemma_take_next(self.records@, i as int);
                lemma_sum_durations_bound(self.records@.take(i as int + 1));
                assert((i as int + 1) * 0x8000_0000_0000_0000 <= 0xffff_ffff_ffff_ffff * 0x8000_0000_0000_0000int)
                    by (nonlinear_arith)
                    requires
                        i as int + 1 <= 0xffff_ffff_ffff_ffff;
            }
            let r = &self.records[i];
            if Self::record_matches(r, RecordQuery::WithDuration) {
                match r.duration_ms() {
                    Some(d) => { t = t + (d as i128); },
                    None => {},
                }
            }
            i = i + 1;
        }
        proof {
            assert(self.records@.take(self.records@.len() as int) =~= self.records@);
        }
        t
    }

    /// The counts behind the learning metrics: terminal records, their
    /// successes, rollbacks and durations, and the successes per tier and
    /// per strategy (only tiers and strategies that have terminal records,
    /// in their fixed order).
    pub fn learning_counts(&self) -> (c: DeploymentLearningCounts)
        ensures
            spec_learning_counts(self.records(), c),
    {
        let tiers: [SelfModTier; 6] = [
            SelfModTier::Tier0Configuration,
            SelfModTier::Tier1OperatorInternal,
            SelfModTier::Tier2ApiChange,
            SelfModTier::Tier3KernelChange,
            SelfModTier::Tier4SubstrateChange,
            SelfModTier::Tier5ArchitecturalChange,
        ];
        let mut per_tier: Vec<TierTally> = Vec::new();
        let mut k: usize = 0;
        while k < 6
            invariant
                k <= 6,
                tiers@ == seq![tier_at(0), tier_at(1), tier_at(2), tier_at(3), tier_at(4), tier_at(5)],
                per_tier@ == spec_tier_tallies(self.records(), k as nat),
            decreases 6 - k,
        {
            let t = tiers[k];
            let total = self.count(RecordQuery::Tier(t));
            if total > 0 {
                let succeeded = self.count(RecordQuery::TierSucceeded(t));
                per_tier.push(TierTally { tier: t, succeeded, total });
            }
            k = k + 1;
        }
        let strategies: [DeploymentStrategy; 4] = [
            DeploymentStrategy::Immediate,
            DeploymentStrategy::Canary,
            DeploymentStrategy::Staged,
            DeploymentStrategy::BlueGreen,
        ];
        let mut per_strategy: Vec<StrategyTally> = Vec::new();
        let mut k: usize = 0;
        while k < 4
            invariant
                k <= 4,
                strategies@ == seq![strategy_at(0), strategy_at(1), strategy_at(2), strategy_at(3)],
                spec_strategy_tallies(self.records(), k as nat, per_strategy@),
            decreases 4 - k,
        {
            let s = strategies[k];
            let total = self.count(RecordQuery::Strategy(s));
            if total > 0 {
                let succeeded = self.count(RecordQuery::StrategySucceeded(s));
                let ghost before = per_strategy@;
                per_strategy.push(StrategyTally { strategy: s.to_string(), succeeded, total });
                proof {
                    assert(per_strategy@.drop_last() =~= before);
                }
            }
            k = k + 1;
        }
        DeploymentLearningCounts {
            total_terminal: self.count(RecordQuery::Terminal),
            succeeded: self.count(RecordQuery::Succeeded),
            rolled_back: self.count(RecordQuery::RolledBack),
            total_duration_ms: self.total_duration(),
            duration_count: self.count(RecordQuery::WithDuration),
            per_tier,
            per_strategy,
        }
    }
}

proof fn lemma_status_buckets(rs: Seq<DeploymentRecord>)
    ensures
        count_status(rs, 0) + count_status(rs, 1) + count_status(rs, 2) + count_status(rs, 3)
            + count_status(rs, 4) == rs.len(),
    decreases rs.len(),
{
    if rs.len() > 0 {
        lemma_status_buckets(rs.drop_last());
    }
}

proof fn lemma_query_within(rs: Seq<DeploymentRecord>, narrow: RecordQuery, wide: RecordQuery)
    requires
        forall|r: DeploymentRecord| #[trigger] spec_query(r, narrow) ==> spec_query(r, wide),
    ensures
        count_query(rs, narrow) <= count_query(rs, wide),
    decreases rs.len(),
{
    if rs.len() > 0 {
        lemma_query_within(rs.drop_last(), narrow, wide);
        assert(spec_query(rs.last(), narrow) ==> spec_query(rs.last(), wide));
    }
}

/// The summary accounts for every record exactly once.
pub proof fn law_deployment_summary_total(rs: Seq<DeploymentRecord>, s: DeploymentSummary)
    requires
        spec_deployment_summary(rs, s),
    ensures
        s.pending + s.in_progress + s.succeeded + s.failed + s.rolled_back == s.total,
{
    lemma_status_buckets(rs);
}

/// Every rate derived from the learning counts lies between zero and one:
/// successes, rollbacks and timed records are among the terminal records,
/// and each tier's or strategy's successes are among its records.
pub proof fn law_learning_rates_bounded(rs: Seq<DeploymentRecord>, c: DeploymentLearningCounts)
    requires
        spec_learning_counts(rs, c),
    ensures
        c.succeeded <= c.total_terminal,
        c.rolled_back <= c.total_terminal,
        c.duration_count <= c.total_terminal,
        forall|t: SelfModTier| #[trigger] count_query(rs, RecordQuery::TierSucceeded(t)) <= count_query(rs, RecordQuery::Tier(t)),
        forall|t: DeploymentStrategy| #[trigger] count_query(rs, RecordQuery::StrategySucceeded(t))
            <= count_query(rs, RecordQuery::Strategy(t)),
{
    lemma_query_within(rs, RecordQuery::Succeeded, RecordQuery::Terminal);
    lemma_query_within(rs, RecordQuery::RolledBack, RecordQuery::Terminal);
    lemma_query_within(rs, RecordQuery::WithDuration, RecordQuery::Terminal);
    assert forall|t: SelfModTier| #[trigger] count_query(rs, RecordQuery::TierSucceeded(t)) <= count_query(rs, RecordQuery::Tier(t)) by {
        lemma_query_within(rs, RecordQuery::TierSucceeded(t), RecordQuery::Tier(t));
    }
    assert forall|t: DeploymentStrategy| #[trigger] count_query(rs, RecordQuery::StrategySucceeded(t))
        <= count_query(rs, RecordQuery::Strategy(t)) by {
        lemma_query_within(rs, RecordQuery::StrategySucceeded(t), RecordQuery::Strategy(t));
    }
}

/// Sum of the successes of a list of tier tallies.
pub open spec fn tally_successes(v: Seq<TierTally>) -> nat
    decreases v.len(),
{
    if v.len() == 0 { 0 } else { tally_successes(v.drop_last()) + v.last().succeeded as nat }
}

/// Sum of the totals of a list of tier tallies.
pub open spec fn tally_totals(v: Seq<TierTally>) -> nat
    decreases v.len(),
{
    if v.len() == 0 { 0 } else { tally_totals(v.drop_last()) + v.last().total as nat }
}

/// Sum of the per-tier record counts of the first `k` tiers.
pub open spec fn tier_totals_upto(rs: Seq<DeploymentRecord>, k: nat) -> nat
    decreases k,
{
    if k == 0 {
        0
    } else {
        tier_totals_upto(rs, (k - 1) as nat) + count_query(rs, RecordQuery::Tier(tier_at((k - 1) as nat)))
    }
}

/// Sum of the per-tier success counts of the first `k` tiers.
pub open spec fn tier_successes_upto(rs: Seq<DeploymentRecord>, k: nat) -> nat
    decreases k,
{
    if k == 0 {
        0
    } else {
        tier_successes_upto(rs, (k - 1) as nat) + count_query(rs, RecordQuery::TierSucceeded(tier_at((k - 1) as nat)))
    }
}

proof fn lemma_tier_successes_split(rs: Seq<DeploymentRecord>)
    ensures
        count_query(rs, RecordQuery::TierSucceeded(SelfModTier::Tier0Configuration))
            + count_query(rs, RecordQuery::TierSucceeded(SelfModTier::Tier1OperatorInternal))
            + count_query(rs, RecordQuery::TierSucceeded(SelfModTier::Tier2ApiChange))
            + count_query(rs, RecordQuery::TierSucceeded(SelfModTier::Tier3KernelChange))
            + count_query(rs, RecordQuery::TierSucceeded(SelfModTier::Tier4SubstrateChange))
            + count_query(rs, RecordQuery::TierSucceeded(SelfModTier::Tier5ArchitecturalChange))
            == count_query(rs, RecordQuery::Succeeded),
    decreases rs.len(),
{
    if rs.len() > 0 {
        lemma_tier_successes_split(rs.drop_last());
    }
}

proof fn lemma_tier_totals_split(rs: Seq<DeploymentRecord>)
    ensures
        tier_totals_upto(rs, 6) == count_query(rs, RecordQuery::Terminal),
    decreases rs.len(),
{
    reveal_with_fuel(tier_totals_upto, 7);
    if rs.len() > 0 {
        lemma_tier_totals_split(rs.drop_last());
    }
}

proof fn lemma_tallies_sum(rs: Seq<DeploymentRecord>, k: nat)
    requires
        k <= 6,
        count_query(rs, RecordQuery::Terminal) <= usize::MAX,
    ensures
        tally_successes(spec_tier_tallies(rs, k)) == tier_successes_upto(rs, k),
        tally_totals(spec_tier_tallies(rs, k)) == tier_totals_upto(rs, k),
    decreases k,
{
    if k > 0 {
        let t = tier_at((k - 1) as nat);
        lemma_tallies_sum(rs, (k - 1) as nat);
        lemma_query_within(rs, RecordQuery::TierSucceeded(t), RecordQuery::Tier(t));
        lemma_query_within(rs, RecordQuery::Tier(t), RecordQuery::Terminal);
        let prev = spec_tier_tallies(rs, (k - 1) as nat);
        if count_query(rs, RecordQuery::Tier(t)) > 0 {
            let tally = TierTally {
                tier: t,
                succeeded: count_query(rs, RecordQuery::TierSucceeded(t)) as usize,
                total: count_query(rs, RecordQuery::Tier(t)) as usize,
            };
            assert(prev.push(tally).drop_last() =~= prev);
        }
    }
}

/// Per-tier successes count succeeded records only: a record that did not
/// succeed adds to no tier's successes while a succeeded one adds one to
/// its own tier's; each tier's successes are among all successes; and the
/// six tiers' successes add up to all of them, so the successes of the
/// per-tier tallies of the learning counts add up to the overall successes
/// (and their totals to the terminal records).
pub proof fn law_tier_successes_are_successes(
    rs: Seq<DeploymentRecord>,
    r: DeploymentRecord,
    t: SelfModTier,
    c: DeploymentLearningCounts,
)
    ensures
        !(r.status is Succeeded) ==> count_query(rs.push(r), RecordQuery::TierSucceeded(t))
            == count_query(rs, RecordQuery::TierSucceeded(t)),
        r.status is Succeeded ==> count_query(rs.push(r), RecordQuery::TierSucceeded(r.tier))
            == count_query(rs, RecordQuery::TierSucceeded(r.tier)) + 1,
        count_query(rs, RecordQuery::TierSucceeded(t)) <= count_query(rs, RecordQuery::Succeeded),
        count_query(rs, RecordQuery::TierSucceeded(SelfModTier::Tier0Configuration))
            + count_query(rs, RecordQuery::TierSucceeded(SelfModTier::Tier1OperatorInternal))
            + count_query(rs, RecordQuery::TierSucceeded(SelfModTier::Tier2ApiChange))
            + count_query(rs, RecordQuery::TierSucceeded(SelfModTier::Tier3KernelChange))
            + count_query(rs, RecordQuery::TierSucceeded(SelfModTier::Tier4SubstrateChange))
            + count_query(rs, RecordQuery::TierSucceeded(SelfModTier::Tier5ArchitecturalChange))
            == count_query(rs, RecordQuery::Succeeded),
        spec_learning_counts(rs, c) ==> tally_successes(c.per_tier@) == c.succeeded,
        spec_learning_counts(rs, c) ==> tally_totals(c.per_tier@) == c.total_terminal,
{
    assert(rs.push(r).drop_last() =~= rs);
    lemma_query_within(rs, RecordQuery::TierSucceeded(t), RecordQuery::Succeeded);
    lemma_tier_successes_split(rs);
    if spec_learning_counts(rs, c) {
        lemma_tallies_sum(rs, 6);
        lemma_tier_totals_split(rs);
        reveal_with_fuel(tier_successes_upto, 7);
    }
}

} // verus!
