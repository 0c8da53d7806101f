//! The consequence engine: executes approved commitments, rolls failures
//! back, issues receipts, and keeps a bounded history of records.

use vstd::prelude::*;
use crate::bounded::{effective_capacity, push_bounded, spec_push_bounded};
use crate::commitment::types::{
    spec_lifecycle_text, CommitmentLifecycleStatus, CommitmentRecord, SelfCommitmentId,
};
use crate::consequence::error::{spec_consequence_error_text, ConsequenceError, ConsequenceResult};
use crate::consequence::executor::{ConsequenceExecutor, ExecutionResult};
use crate::consequence::feedback::{spec_feedback, GateSubmissionSignal, ObservationFeedback};
use crate::consequence::receipt::{issue_time, spec_compute_hash, ExecutionReceipt};
use crate::consequence::rollback::{RollbackExecutor, RollbackResult};
use crate::consequence::types::{
    spec_consequence_terminal, spec_duration, ConsequenceConfig, ConsequenceRecord, ConsequenceStatus,
    ConsequenceSummary, SelfConsequenceId,
};
use crate::intent::proposal::{spec_rollback_strategy_name, RegenerationProposal, RollbackStrategy};
use crate::intent::types::{IntentId, SubstrateTier};
use crate::platform::{fresh_uuid, now_millis};
use crate::text::{decimal, decimal_string, signed_decimal, signed_decimal_string};

verus! {

/// Summary written into the receipt of a successful execution.
pub open spec fn spec_receipt_summary(summary: Seq<char>, tests_passed: nat, duration_ms: int) -> Seq<char> {
    "Executed '"@ + summary + "': "@ + decimal(tests_passed) + " tests passed in "@
        + signed_decimal(duration_ms) + "ms"@
}

/// Reason recorded when an execution reports no success.
pub open spec fn spec_unsuccessful_reason(output: Seq<char>) -> Seq<char> {
    "Execution completed but not successful: "@ + output
}

/// Reason recorded when a rollback succeeds.
pub open spec fn spec_rolled_back_reason(strategy: RollbackStrategy, executed: nat, total: nat) -> Seq<char> {
    "Rolled back via "@ + spec_rollback_strategy_name(strategy) + ": "@ + decimal(executed) + "/"@
        + decimal(total) + " steps"@
}

/// Whether `r` is the record an execution outcome leaves at time `now`
/// (milliseconds), starting from the executing record `before`, with a
/// receipt identified `receipt_id` and issued at `issued_at` (nanoseconds)
/// for a success; `rollback` tells whether a rollback is due.
pub open spec fn spec_settled(
    before: ConsequenceRecord,
    summary: Seq<char>,
    outcome: ConsequenceResult<ExecutionResult>,
    receipt_id: String,
    now: i64,
    issued_at: i64,
    r: ConsequenceRecord,
    rollback: bool,
) -> bool {
    match outcome {
        Ok(x) => if x.success {
            &&& !rollback
            &&& r.status == ConsequenceStatus::Succeeded
            &&& r.execution_end == Some(now)
            &&& r.tests_passed == x.tests_passed
            &&& r.tests_failed == before.tests_failed
            &&& r.duration_ms == spec_duration(before.execution_start, before.duration_ms, now)
            &&& r.receipt matches Some(rc) && {
                &&& rc.receipt_id == receipt_id
                &&& rc.consequence_id == before.id
                &&& rc.commitment_id == before.self_commitment_id
                &&& rc.intent_id == before.intent_id
                &&& rc.governance_tier == before.governance_tier
                &&& rc.tests_passed == x.tests_passed
                &&& rc.issued_at == issued_at
                &&& rc.summary@ == spec_receipt_summary(summary, x.tests_passed as nat, x.duration_ms as int)
                &&& rc.execution_hash@ == spec_compute_hash(rc)
            }
            &&& r.rollback_attempted == before.rollback_attempted
            &&& same_identity(before, r)
        } else {
            &&& rollback
            &&& r == ConsequenceRecord {
                status: ConsequenceStatus::Failed(r.status->Failed_0),
                execution_end: Some(now),
                tests_passed: x.tests_passed,
                tests_failed: x.tests_failed,
                duration_ms: spec_duration(before.execution_start, before.duration_ms, now),
                ..before
            }
            &&& r.status matches ConsequenceStatus::Failed(m) && m@ == spec_unsuccessful_reason(x.output@)
        },
        Err(e) => {
            &&& rollback
            &&& r == ConsequenceRecord {
                status: ConsequenceStatus::Failed(r.status->Failed_0),
                execution_end: Some(now),
                tests_passed: 0,
                tests_failed: 0,
                duration_ms: spec_duration(before.execution_start, before.duration_ms, now),
                ..before
            }
            &&& r.status matches ConsequenceStatus::Failed(m) && m@ == match e {
                ConsequenceError::ExecutionFailed(reason) => reason@,
                _ => spec_consequence_error_text(e),
            }
        },
    }
}

/// Whether two records describe the same consequence (identifiers, tier, creation time).
pub open spec fn same_identity(a: ConsequenceRecord, b: ConsequenceRecord) -> bool {
    &&& a.id == b.id
    &&& a.self_commitment_id == b.self_commitment_id
    &&& a.intent_id == b.intent_id
    &&& a.governance_tier == b.governance_tier
    &&& a.created_at == b.created_at
    &&& a.execution_start == b.execution_start
}

/// Whether `r` is what a rollback outcome makes of the failed record
/// `before`: a successful rollback marks it rolled back, any other
/// outcome only notes that a rollback was attempted.
pub open spec fn spec_after_rollback(
    before: ConsequenceRecord,
    strategy: RollbackStrategy,
    outcome: ConsequenceResult<RollbackResult>,
    r: ConsequenceRecord,
) -> bool {
    match outcome {
        Ok(x) => if x.success {
            &&& r == ConsequenceRecord {
                status: ConsequenceStatus::RolledBack(r.status->RolledBack_0),
                rollback_attempted: true,
                ..before
            }
            &&& r.status matches ConsequenceStatus::RolledBack(m)
                && m@ == spec_rolled_back_reason(strategy, x.steps_executed as nat, x.total_steps as nat)
        } else {
            r == ConsequenceRecord { rollback_attempted: true, ..before }
        },
        Err(_) => r == ConsequenceRecord { rollback_attempted: true, ..before },
    }
}

/// Settles an executing record with the executor's outcome at time `now`:
/// a success marks it succeeded with a receipt (identifier `receipt_id`),
/// anything else marks it failed. Returns whether a rollback is due.
pub fn settle_execution(
    record: &mut ConsequenceRecord,
    summary: &String,
    outcome: ConsequenceResult<ExecutionResult>,
    receipt_id: String,
    now: i64,
    issued_at: i64,
) -> (rollback: bool)
    ensures
        spec_settled(*old(record), summary@, outcome, receipt_id, now, issued_at, *final(record), rollback),
{
    match outcome {
        Ok(result) => {
            if result.success {
                let mut text = String::from_str("Executed '");
                text.append(summary.as_str());
                text.append("': ");
                text.append(decimal_string(result.tests_passed as u64).as_str());
                text.append(" tests passed in ");
                text.append(signed_decimal_string(result.duration_ms).as_str());
                text.append("ms");
                let receipt = ExecutionReceipt::new_at(
                    receipt_id,
                    record.id.duplicate(),
                    record.self_commitment_id.duplicate(),
                    record.intent_id.duplicate(),
                    record.governance_tier,
                    result.tests_passed,
                    text,
                    issued_at,
                );
                record.mark_succeeded_at(receipt, result.tests_passed, now);
                false
            } else {
                let mut reason = String::from_str("Execution completed but not successful: ");
                reason.append(result.output.as_str());
                record.mark_failed_at(reason, result.tests_passed, result.tests_failed, now);
                true
            }
        },
        Err(e) => {
            let reason = match e {
                ConsequenceError::ExecutionFailed(reason) => reason,
                other => other.to_string(),
            };
            record.mark_failed_at(reason, 0, 0, now);
            true
        },
    }
}

/// Applies a rollback outcome to a failed record.
pub fn settle_rollback(record: &mut ConsequenceRecord, strategy: RollbackStrategy, outcome: ConsequenceResult<RollbackResult>)
    ensures
        spec_after_rollback(*old(record), strategy, outcome, *final(record)),
{
    match outcome {
        Ok(result) => {
            if result.success {
                let mut reason = String::from_str("Rolled back via ");
                reason.append(strategy.to_string().as_str());
                reason.append(": ");
                reason.append(decimal_string(result.steps_executed as u64).as_str());
                reason.append("/");
                reason.append(decimal_string(result.total_steps as u64).as_str());
                reason.append(" steps");
                record.mark_rolled_back(reason);
            } else {
                record.rollback_attempted = true;
            }
        },
        Err(_) => {
            record.rollback_attempted = true;
        },
    }
}

/// Whether `opened` is the record a run opens for commitment `c` under
/// identifier `id`: executing since its creation, with no result yet.
pub open spec fn spec_opened(opened: ConsequenceRecord, c: CommitmentRecord, id: SelfConsequenceId) -> bool {
    &&& opened.id == id
    &&& opened.self_commitment_id == c.id
    &&& opened.intent_id == c.intent_id
    &&& opened.governance_tier == c.governance_tier
    &&& opened.status == ConsequenceStatus::Executing
    &&& opened.execution_start == Some(opened.created_at)
    &&& opened.execution_end is None
    &&& opened.duration_ms is None
    &&& opened.receipt is None
    &&& opened.tests_passed == 0
    &&& opened.tests_failed == 0
    &&& !opened.rollback_attempted
}

/// Whether `rec` is the record that executing `proposal` for commitment
/// `c` leaves under identifier `id`: the opened record settled with an
/// outcome the executor can give (a success carrying a receipt identified
/// `receipt-` and a fresh 36-character UUID), then, when a rollback is due,
/// auto-rollback is on and the plan has steps, with an outcome the
/// rollback executor can give for the plan.
pub open spec fn spec_executed<E: ConsequenceExecutor, R: RollbackExecutor>(executor: E, rollback_executor: R,
    config: ConsequenceConfig, c: CommitmentRecord, proposal: RegenerationProposal, id: SelfConsequenceId,
    rec: ConsequenceRecord) -> bool {
    exists|opened: ConsequenceRecord, out: ConsequenceResult<ExecutionResult>, receipt_id: String, t: i64,
        issued: i64, settled: ConsequenceRecord, due: bool|
        #![trigger spec_settled(opened, proposal.summary@, out, receipt_id, t, issued, settled, due)]
        {
            &&& spec_opened(opened, c, id)
            &&& receipt_id@.len() == 44
            &&& receipt_id@.subrange(0, 8) == "receipt-"@
            &&& executor.spec_execute_outcome(proposal, out)
            &&& spec_settled(opened, proposal.summary@, out, receipt_id, t, issued, settled, due)
            &&& if due && config.auto_rollback_on_failure && proposal.rollback_plan.steps@.len() > 0 {
                exists|rb: ConsequenceResult<RollbackResult>|
                    #![trigger spec_after_rollback(settled, proposal.rollback_plan.strategy, rb, rec)]
                    rollback_executor.spec_rollback_outcome(proposal.rollback_plan, rb)
                        && spec_after_rollback(settled, proposal.rollback_plan.strategy, rb, rec)
            } else {
                rec == settled
            }
        }
}

/// Message of the error for a commitment that is not approved.
pub open spec fn spec_not_approved_message(c: CommitmentRecord) -> Seq<char> {
    "commitment "@ + "self-cmt:"@ + c.id.0@ + " is in state '"@ + spec_lifecycle_text(c.status)
        + "', expected 'approved'"@
}

/// The engine that executes approved commitments.
pub struct SelfConsequenceEngine<E, R> {
    executor: E,
    rollback_executor: R,
    feedback: ObservationFeedback,
    records: Vec<ConsequenceRecord>,
    config: ConsequenceConfig,
}

/// The summary bucket of a status: 0 pending (Pending or Executing),
/// 1 succeeded, 2 failed, 3 rolled back.
pub open spec fn consequence_bucket(s: ConsequenceStatus) -> nat {
    match s {
        ConsequenceStatus::Pending => 0,
        ConsequenceStatus::Executing => 0,
        ConsequenceStatus::Succeeded => 1,
        ConsequenceStatus::Failed(_) => 2,
        ConsequenceStatus::RolledBack(_) => 3,
    }
}

/// Number of records in bucket `b`.
pub open spec fn count_consequences(rs: Seq<ConsequenceRecord>, b: nat) -> nat
    decreases rs.len(),
{
    if rs.len() == 0 {
        0
    } else {
        count_consequences(rs.drop_last(), b) + if consequence_bucket(rs.last().status) == b { 1nat } else { 0nat }
    }
}

/// The records whose status satisfies (or fails) terminality, in order.
pub open spec fn spec_by_terminal(rs: Seq<ConsequenceRecord>, terminal: bool) -> Seq<ConsequenceRecord>
    decreases rs.len(),
{
    if rs.len() == 0 {
        Seq::empty()
    } else if spec_consequence_terminal(rs.last().status) == terminal {
        spec_by_terminal(rs.drop_last(), terminal).push(rs.last())
    } else {
        spec_by_terminal(rs.drop_last(), terminal)
    }
}

/// Index of the first record with identifier `id`, from `i` on.
pub open spec fn first_consequence(rs: Seq<ConsequenceRecord>, id: Seq<char>, i: int) -> Option<int>
    decreases rs.len() - i,
{
    if i < 0 || i >= rs.len() {
        None
    } else if rs[i].id.0@ == id {
        Some(i)
    } else {
        first_consequence(rs, id, i + 1)
    }
}

/// Index of the first record for commitment `id`, from `i` on.
pub open spec fn first_for_commitment(rs: Seq<ConsequenceRecord>, id: Seq<char>, i: int) -> Option<int>
    decreases rs.len() - i,
{
    if i < 0 || i >= rs.len() {
        None
    } else if rs[i].self_commitment_id.0@ == id {
        Some(i)
    } else {
        first_for_commitment(rs, id, i + 1)
    }
}

proof fn lemma_take_last<T>(s: Seq<T>, i: int)
    requires
        0 <= i < s.len(),
    ensures
        s.take(i + 1).drop_last() == s.take(i),
        s.take(i + 1).last() == s[i],
{
    assert(s.take(i + 1).drop_last() =~= s.take(i));
}

proof fn lemma_consequence_buckets(rs: Seq<ConsequenceRecord>)
    ensures
        count_consequences(rs, 0) + count_consequences(rs, 1) + count_consequences(rs, 2)
            + count_consequences(rs, 3) == rs.len(),
    decreases rs.len(),
{
    if rs.len() > 0 {
        lemma_consequence_buckets(rs.drop_last());
    }
}

proof fn lemma_terminal_split(rs: Seq<ConsequenceRecord>)
    ensures
        spec_by_terminal(rs, true).len() + spec_by_terminal(rs, false).len() == rs.len(),
    decreases rs.len(),
{
    if rs.len() > 0 {
        lemma_terminal_split(rs.drop_last());
    }
}

/// The summary of a sequence of records.
pub open spec fn spec_consequence_summary(rs: Seq<ConsequenceRecord>, s: ConsequenceSummary) -> bool {
    &&& s.total == rs.len()
    &&& s.pending == count_consequences(rs, 0)
    &&& s.succeeded == count_consequences(rs, 1)
    &&& s.failed == count_consequences(rs, 2)
    &&& s.rolled_back == count_consequences(rs, 3)
}

impl<E: ConsequenceExecutor, R: RollbackExecutor> SelfConsequenceEngine<E, R> {
    /// The records, oldest first.
    pub closed spec fn records(&self) -> Seq<ConsequenceRecord> {
        self.records@
    }

    /// The engine's configuration.
    pub closed spec fn configuration(&self) -> ConsequenceConfig {
        self.config
    }

    /// The executor of proposals.
    pub closed spec fn executor(&self) -> E {
        self.executor
    }

    /// The executor of rollback plans.
    pub closed spec fn rollback_executor(&self) -> R {
        self.rollback_executor
    }

    /// The history never holds more records than the configured capacity
    /// (one when that is zero).
    pub open spec fn wf(&self) -> bool {
        self.records().len() <= effective_capacity(self.configuration().max_tracked_consequences as nat)
    }

    /// An engine with the default configuration.
    pub fn new(executor: E, rollback_executor: R) -> (e: Self)
        ensures
            e.wf(),
            e.records() == Seq::<ConsequenceRecord>::empty(),
            e.configuration().max_tracked_consequences == 256,
            e.configuration().auto_rollback_on_failure,
            e.executor() == executor,
            e.rollback_executor() == rollback_executor,
    {
        SelfConsequenceEngine {
            executor,
            rollback_executor,
            feedback: ObservationFeedback::new(),
            records: Vec::new(),
            config: ConsequenceConfig::default(),
        }
    }

    /// The same engine with another configuration.
    pub fn with_config(self, config: ConsequenceConfig) -> (e: Self)
        ensures
            e.records() == self.records(),
            e.configuration() == config,
            e.executor() == self.executor(),
            e.rollback_executor() == self.rollback_executor(),
            self.records().len() <= effective_capacity(config.max_tracked_consequences as nat) ==> e.wf(),
    {
        SelfConsequenceEngine { config, ..self }
    }

    fn store_record(&mut self, record: ConsequenceRecord)
        ensures
            old(self).wf() ==> final(self).wf(),
            final(self).configuration() == old(self).configuration(),
            final(self).executor() == old(self).executor(),
            final(self).rollback_executor() == old(self).rollback_executor(),
            final(self).records() == spec_push_bounded(old(self).records(),
                old(self).configuration().max_tracked_consequences as nat, record),
    {
        proof {
            if self.records@.len() <= effective_capacity(self.config.max_tracked_consequences as nat) {
                crate::bounded::law_push_bounded_keeps_bound(self.records@, self.config.max_tracked_consequences as nat, record);
            }
        }
        push_bounded(&mut self.records, self.config.max_tracked_consequences, record);
    }

    /// Executes the proposal of an approved commitment and records the
    /// outcome. A commitment that is not approved is refused and nothing is
    /// recorded. Otherwise a new record is stored: succeeded with a receipt,
    /// or failed; after a failure, when auto-rollback is on and the proposal
    /// has a rollback plan, the plan is run and its outcome applied.
    pub fn execute_approved(&mut self, commitment_record: &CommitmentRecord, proposal: &RegenerationProposal)
        -> (r: ConsequenceResult<SelfConsequenceId>)
        ensures
            old(self).wf() ==> final(self).wf(),
            final(self).configuration() == old(self).configuration(),
            final(self).executor() == old(self).executor(),
            final(self).rollback_executor() == old(self).rollback_executor(),
            !(commitment_record.status is Approved) ==> {
                &&& r matches Err(ConsequenceError::CommitmentNotApproved(m))
                &&& m@ == spec_not_approved_message(*commitment_record)
                &&& final(self).records() == old(self).records()
            },
            commitment_record.status is Approved ==> {
                &&& r matches Ok(id)
                &&& final(self).records().len() > 0
                &&& final(self).records() == spec_push_bounded(old(self).records(),
                        old(self).configuration().max_tracked_consequences as nat, final(self).records().last())
                &&& ({
                    let rec = final(self).records().last();
                    &&& rec.id == id
                    &&& rec.self_commitment_id == commitment_record.id
                    &&& rec.intent_id == commitment_record.intent_id
                    &&& rec.governance_tier == commitment_record.governance_tier
                    &&& spec_consequence_terminal(rec.status)
                    &&& (rec.status is RolledBack ==> old(self).configuration().auto_rollback_on_failure
                            && proposal.rollback_plan.steps@.len() > 0)
                    &&& (rec.rollback_attempted ==> old(self).configuration().auto_rollback_on_failure
                            && proposal.rollback_plan.steps@.len() > 0)
                    &&& (rec.status is Succeeded ==> (rec.receipt matches Some(rc)
                            && rc.execution_hash@ == spec_compute_hash(rc)))
                    &&& spec_executed(old(self).executor(), old(self).rollback_executor(), old(self).configuration(),
                            *commitment_record, *proposal, id, rec)
                })
            },
    {
        match commitment_record.status {
            CommitmentLifecycleStatus::Approved => {},
            _ => {
                let mut m = String::from_str("commitment ");
                m.append(commitment_record.id.to_string().as_str());
                m.append(" is in state '");
                m.append(commitment_record.status.to_string().as_str());
                m.append("', expected 'approved'");
                proof {
                    assert(m@ =~= spec_not_approved_message(*commitment_record));
                }
                return Err(ConsequenceError::CommitmentNotApproved(m));
            },
        }
        let started = now_millis();
        let mut record = ConsequenceRecord::new_at(
            SelfConsequenceId::new(),
            commitment_record.id.duplicate(),
            commitment_record.intent_id.duplicate(),
            commitment_record.governance_tier,
            started,
        );
        let consequence_id = record.id.duplicate();
        record.mark_executing_at(started);
        let ghost opened = record;
        let outcome = self.executor.execute(proposal);
        let ghost out = outcome;
        let mut receipt_id = String::from_str("receipt-");
        receipt_id.append(fresh_uuid().as_str());
        proof {
            reveal_strlit("receipt-");
            assert(receipt_id@.subrange(0, 8) =~= "receipt-"@);
        }
        let ghost rid = receipt_id;
        let settled_at = now_millis();
        let issued = issue_time();
        let needs_rollback = settle_execution(&mut record, &proposal.summary, outcome, receipt_id, settled_at, issued);
        let ghost settled = record;
        if needs_rollback && self.config.auto_rollback_on_failure && proposal.has_rollback() {
            let rb = self.rollback_executor.rollback(&proposal.rollback_plan);
            let ghost grb = rb;
            settle_rollback(&mut record, proposal.rollback_plan.strategy, rb);
            proof {
                assert(self.rollback_executor.spec_rollback_outcome(proposal.rollback_plan, grb)
                    && spec_after_rollback(settled, proposal.rollback_plan.strategy, grb, record));
            }
        }
        proof {
            assert(spec_opened(opened, *commitment_record, consequence_id));
            assert(spec_settled(opened, proposal.summary@, out, rid, settled_at, issued, settled, needs_rollback));
            assert(spec_executed(self.executor, self.rollback_executor, self.config, *commitment_record, *proposal,
                consequence_id, record));
        }
        self.store_record(record);
        Ok(consequence_id)
    }

    /// Records the outcome of an execution performed elsewhere: a success
    /// gets a receipt (summarised by `reason`, or "External execution
    /// succeeded"), a failure the given reason (or "External execution
    /// failed"). Returns the new record's identifier.
    pub fn record_external_outcome(
        &mut self,
        commitment_id: &SelfCommitmentId,
        intent_id: &IntentId,
        tier: SubstrateTier,
        succeeded: bool,
        reason: Option<String>,
    ) -> (id: SelfConsequenceId)
        ensures
            old(self).wf() ==> final(self).wf(),
            final(self).configuration() == old(self).configuration(),
            final(self).executor() == old(self).executor(),
            final(self).rollback_executor() == old(self).rollback_executor(),
            final(self).records().len() > 0,
            final(self).records() == spec_push_bounded(old(self).records(),
                old(self).configuration().max_tracked_consequences as nat, final(self).records().last()),
            ({
                let rec = final(self).records().last();
                &&& rec.id == id
                &&& rec.self_commitment_id == *commitment_id
                &&& rec.intent_id == *intent_id
                &&& rec.governance_tier == tier
                &&& rec.tests_passed == 0
                &&& rec.tests_failed == 0
                &&& !rec.rollback_attempted
                &&& succeeded ==> (rec.status == ConsequenceStatus::Succeeded && (rec.receipt matches Some(rc)
                        && rc.summary@ == (match reason { Some(t) => t@, None => "External execution succeeded"@ })
                        && rc.tests_passed == 0
                        && rc.execution_hash@ == spec_compute_hash(rc)))
                &&& !succeeded ==> (rec.status matches ConsequenceStatus::Failed(m)
                        && m@ == (match reason { Some(t) => t@, None => "External execution failed"@ }))
            }),
    {
        let started = now_millis();
        let mut record = ConsequenceRecord::new_at(
            SelfConsequenceId::new(),
            commitment_id.duplicate(),
            intent_id.duplicate(),
            tier,
            started,
        );
        let consequence_id = record.id.duplicate();
        record.mark_executing_at(started);
        if succeeded {
            let text = match reason {
                Some(t) => t,
                None => String::from_str("External execution succeeded"),
            };
            let receipt = ExecutionReceipt::new(
                consequence_id.duplicate(),
                commitment_id.duplicate(),
                intent_id.duplicate(),
                tier,
                0,
                text,
            );
            record.mark_succeeded_at(receipt, 0, now_millis());
        } else {
            let text = match reason {
                Some(t) => t,
                None => String::from_str("External execution failed"),
            };
            record.mark_failed_at(text, 0, 0, now_millis());
        }
        self.store_record(record);
        consequence_id
    }

    /// The observation feedback for a record, once it is terminal.
    pub fn get_feedback(&self, consequence_id: &SelfConsequenceId) -> (f: Option<GateSubmissionSignal>)
        ensures
            match first_consequence(self.records(), consequence_id.0@, 0) {
                Some(k) => f == spec_feedback(self.records()[k]),
                None => f is None,
            },
    {
        match self.find(consequence_id) {
            Some(record) => self.feedback.generate_feedback(record),
            None => None,
        }
    }

    /// The first record with identifier `id`.
    pub fn find(&self, id: &SelfConsequenceId) -> (r: Option<&ConsequenceRecord>)
        ensures
            match first_consequence(self.records(), id.0@, 0) {
                Some(k) => r == Some(&self.records()[k]),
                None => r is None,
            },
    {
        let mut i: usize = 0;
        while i < self.records.len()
            invariant
                i <= self.records@.len(),
                first_consequence(self.records@, id.0@, 0) == first_consequence(self.records@, id.0@, i as int),
            decreases self.records@.len() - i,
        {
            if self.records[i].id.0 == id.0 {
                return Some(&self.records[i]);
            }
            i = i + 1;
        }
        None
    }

    /// The first record for commitment `id`.
    pub fn find_by_commitment(&self, id: &SelfCommitmentId) -> (r: Option<&ConsequenceRecord>)
        ensures
            match first_for_commitment(self.records(), id.0@, 0) {
                Some(k) => r == Some(&self.records()[k]),
                None => r is None,
            },
    {
        let mut i: usize = 0;
        while i < self.records.len()
            invariant
                i <= self.records@.len(),
                first_for_commitment(self.records@, id.0@, 0) == first_for_commitment(self.records@, id.0@, i as int),
            decreases self.records@.len() - i,
        {
            if self.records[i].self_commitment_id.0 == id.0 {
                return Some(&self.records[i]);
            }
            i = i + 1;
        }
        None
    }

    /// Summary statistics (executing records count as pending).
    pub fn summary(&self) -> (s: ConsequenceSummary)
        ensures
            spec_consequence_summary(self.records(), s),
    {
        let mut s = ConsequenceSummary { total: self.records.len(), pending: 0, succeeded: 0, failed: 0, rolled_back: 0 };
        let mut i: usize = 0;
        while i < self.records.len()
            invariant
                i <= self.records@.len(),
                s.total == self.records@.len(),
                s.pending == count_consequences(self.records@.take(i as int), 0),
                s.succeeded == count_consequences(self.records@.take(i as int), 1),
                s.failed == count_consequences(self.records@.take(i as int), 2),
                s.rolled_back == count_consequences(self.records@.take(i as int), 3),
            decreases self.records@.len() - i,
        {
            proof {
                lemma_take_last(self.records@, i as int);
                lemma_consequence_buckets(self.records@.take(i as int + 1));
            }
            match &self.records[i].status {
                ConsequenceStatus::Pending => { s.pending = s.pending + 1; },
                ConsequenceStatus::Executing => { s.pending = s.pending + 1; },
                ConsequenceStatus::Succeeded => { s.succeeded = s.succeeded + 1; },
                ConsequenceStatus::Failed(_) => { s.failed = s.failed + 1; },
                ConsequenceStatus::RolledBack(_) => { s.rolled_back = s.rolled_back + 1; },
            }
            i = i + 1;
        }
        assert(self.records@.take(self.records@.len() as int) =~= self.records@);
        s
    }

    /// All records, oldest first.
    pub fn all_records(&self) -> (v: &Vec<ConsequenceRecord>)
        ensures
            v@ == self.records(),
    {
        &self.records
    }

    fn by_terminal(&self, terminal: bool) -> (v: Vec<&ConsequenceRecord>)
        ensures
            v@.len() == spec_by_terminal(self.records(), terminal).len(),
            forall|j: int| 0 <= j < v@.len() ==> *(#[trigger] v@[j]) == spec_by_terminal(self.records(), terminal)[j],
    {
        let mut v: Vec<&ConsequenceRecord> = Vec::new();
        let mut i: usize = 0;
        while i < self.records.len()
            invariant
                i <= self.records@.len(),
                v@.len() == spec_by_terminal(self.records@.take(i as int), terminal).len(),
                forall|j: int| 0 <= j < v@.len() ==> *(#[trigger] v@[j]) == spec_by_terminal(self.records@.take(i as int), terminal)[j],
            decreases self.records@.len() - i,
        {
            proof { lemma_take_last(self.records@, i as int); }
            if self.records[i].status.is_terminal() == terminal {
                v.push(&self.records[i]);
            }
            i = i + 1;
        }
        assert(self.records@.take(self.records@.len() as int) =~= self.records@);
        v
    }

    /// The records still pending or executing, oldest first.
    pub fn pending_execution(&self) -> (v: Vec<&ConsequenceRecord>)
        ensures
            v@.len() == spec_by_terminal(self.records(), false).len(),
            forall|j: int| 0 <= j < v@.len() ==> *(#[trigger] v@[j]) == spec_by_terminal(self.records(), false)[j],
    {
        self.by_terminal(false)
    }

    /// The records that are over, oldest first.
    pub fn completed(&self) -> (v: Vec<&ConsequenceRecord>)
        ensures
            v@.len() == spec_by_terminal(self.records(), true).len(),
            forall|j: int| 0 <= j < v@.len() ==> *(#[trigger] v@[j]) == spec_by_terminal(self.records(), true)[j],
    {
        self.by_terminal(true)
    }

    /// Commitments approved and waiting for execution: the engine receives
    /// them one by one and keeps none.
    pub fn approved_for_execution(&self) -> (v: Vec<&CommitmentRecord>)
        ensures
            v@.len() == 0,
    {
        Vec::new()
    }
}

/// The summary accounts for every record.
pub proof fn law_consequence_summary_total(rs: Seq<ConsequenceRecord>, s: ConsequenceSummary)
    requires
        spec_consequence_summary(rs, s),
    ensures
        s.pending + s.succeeded + s.failed + s.rolled_back == s.total,
{
    lemma_consequence_buckets(rs);
}

/// Every record is either pending execution or completed, never both.
pub proof fn law_pending_and_completed_partition(rs: Seq<ConsequenceRecord>)
    ensures
        spec_by_terminal(rs, true).len() + spec_by_terminal(rs, false).len() == rs.len(),
{
    lemma_terminal_split(rs);
}

} // verus!
