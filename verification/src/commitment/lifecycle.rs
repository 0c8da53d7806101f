//! The commitment lifecycle manager: a bounded history of commitment
//! records, their gate and outcome transitions, and summary statistics.

use vstd::prelude::*;
use crate::bounded::{effective_capacity, push_bounded, spec_push_bounded};
use crate::commitment::types::{
    spec_is_active, CommitmentId, CommitmentLifecycleStatus, CommitmentRecord, CommitmentSummary,
    SelfCommitmentId,
};
use crate::intent::types::{IntentId, SubstrateTier};
use crate::platform::now_millis;

verus! {

/// Manages the lifecycle records of self-commitments, keeping at most
/// `max_tracked` of them (the oldest are evicted first).
pub struct CommitmentLifecycleManager {
    records: Vec<CommitmentRecord>,
    max_tracked: usize,
}

/// A change of lifecycle status that the commitment gate or the executor reports.
pub enum Transition {
    /// The commitment gate approved.
    Approve,
    /// The commitment gate denied, for a reason.
    Deny(String),
    /// The self-modification succeeded.
    Fulfill,
    /// The self-modification failed, for a reason.
    Fail(String),
}

/// The record after a transition at time `now`: approval only changes the
/// status; the other transitions also stamp the resolution time.
pub open spec fn spec_apply(r: CommitmentRecord, t: Transition, now: i64) -> CommitmentRecord {
    match t {
        Transition::Approve => CommitmentRecord { status: CommitmentLifecycleStatus::Approved, ..r },
        Transition::Deny(reason) => CommitmentRecord {
            status: CommitmentLifecycleStatus::Denied(reason),
            resolved_at: Some(now),
            ..r
        },
        Transition::Fulfill => CommitmentRecord {
            status: CommitmentLifecycleStatus::Fulfilled,
            resolved_at: Some(now),
            ..r
        },
        Transition::Fail(reason) => CommitmentRecord {
            status: CommitmentLifecycleStatus::Failed(reason),
            resolved_at: Some(now),
            ..r
        },
    }
}

/// Index of the first record with identifier `id`, looking from `i` on.
pub open spec fn first_with_id(rs: Seq<CommitmentRecord>, id: Seq<char>, i: int) -> Option<int>
    decreases rs.len() - i,
{
    if i < 0 || i >= rs.len() {
        None
    } else if rs[i].id.0@ == id {
        Some(i)
    } else {
        first_with_id(rs, id, i + 1)
    }
}

/// Index of the first record derived from intent `id`, looking from `i` on.
pub open spec fn first_with_intent(rs: Seq<CommitmentRecord>, id: Seq<char>, i: int) -> Option<int>
    decreases rs.len() - i,
{
    if i < 0 || i >= rs.len() {
        None
    } else if rs[i].intent_id.0@ == id {
        Some(i)
    } else {
        first_with_intent(rs, id, i + 1)
    }
}

/// Index of the first record carrying gate identifier `id`, looking from `i` on.
pub open spec fn first_with_commitment(rs: Seq<CommitmentRecord>, id: Seq<char>, i: int) -> Option<int>
    decreases rs.len() - i,
{
    if i < 0 || i >= rs.len() {
        None
    } else if rs[i].commitment_id matches Some(c) && c.0@ == id {
        Some(i)
    } else {
        first_with_commitment(rs, id, i + 1)
    }
}

/// The records after applying `t` to the first record with identifier
/// `id` (unchanged when there is none).
pub open spec fn spec_transition(rs: Seq<CommitmentRecord>, id: Seq<char>, t: Transition, now: i64) -> Seq<CommitmentRecord> {
    match first_with_id(rs, id, 0) {
        Some(k) => rs.update(k, spec_apply(rs[k], t, now)),
        None => rs,
    }
}

/// The record made for a submission.
pub open spec fn spec_submission_record(
    id: SelfCommitmentId,
    intent_id: IntentId,
    commitment_id: CommitmentId,
    tier: SubstrateTier,
    now: i64,
) -> CommitmentRecord {
    CommitmentRecord {
        id,
        intent_id,
        commitment_id: Some(commitment_id),
        governance_tier: tier,
        observation_start: now,
        observation_required_secs: 0,
        status: CommitmentLifecycleStatus::Submitted,
        created_at: now,
        resolved_at: None,
    }
}

/// The summary bucket of a status: 0 pending (PendingObservation,
/// ObservationComplete, Submitted, Deferred), 1 approved, 2 denied,
/// 3 fulfilled, 4 failed.
pub open spec fn summary_bucket(s: CommitmentLifecycleStatus) -> nat {
    match s {
        CommitmentLifecycleStatus::PendingObservation => 0,
        CommitmentLifecycleStatus::ObservationComplete => 0,
        CommitmentLifecycleStatus::Submitted => 0,
        CommitmentLifecycleStatus::Deferred(_) => 0,
        CommitmentLifecycleStatus::Approved => 1,
        CommitmentLifecycleStatus::Denied(_) => 2,
        CommitmentLifecycleStatus::Fulfilled => 3,
        CommitmentLifecycleStatus::Failed(_) => 4,
    }
}

/// Number of records in summary bucket `b`.
pub open spec fn count_bucket(rs: Seq<CommitmentRecord>, b: nat) -> nat
    decreases rs.len(),
{
    if rs.len() == 0 {
        0
    } else {
        count_bucket(rs.drop_last(), b) + if summary_bucket(rs.last().status) == b { 1nat } else { 0nat }
    }
}

/// The active records, in order.
pub open spec fn spec_active(rs: Seq<CommitmentRecord>) -> Seq<CommitmentRecord>
    decreases rs.len(),
{
    if rs.len() == 0 {
        Seq::empty()
    } else if spec_is_active(rs.last().status) {
        spec_active(rs.drop_last()).push(rs.last())
    } else {
        spec_active(rs.drop_last())
    }
}

/// The summary of a sequence of records.
pub open spec fn spec_summary(rs: Seq<CommitmentRecord>, s: CommitmentSummary) -> bool {
    &&& s.total == rs.len()
    &&& s.pending == count_bucket(rs, 0)
    &&& s.approved == count_bucket(rs, 1)
    &&& s.denied == count_bucket(rs, 2)
    &&& s.fulfilled == count_bucket(rs, 3)
    &&& s.failed == count_bucket(rs, 4)
}

proof fn lemma_take_last<T>(s: Seq<T>, i: int)
    requires
        0 <= i < s.len(),
    ensures
        s.take(i + 1).drop_last() == s.take(i),
        s.take(i + 1).last() == s[i],
{
    assert(s.take(i + 1).drop_last() =~= s.take(i));
}

proof fn lemma_count_bucket_bound(rs: Seq<CommitmentRecord>, b: nat)
    ensures
        count_bucket(rs, b) <= rs.len(),
    decreases rs.len(),
{
    if rs.len() > 0 {
        lemma_count_bucket_bound(rs.drop_last(), b);
    }
}

proof fn lemma_buckets_partition(rs: Seq<CommitmentRecord>)
    ensures
        count_bucket(rs, 0) + count_bucket(rs, 1) + count_bucket(rs, 2) + count_bucket(rs, 3)
            + count_bucket(rs, 4) == rs.len(),
    decreases rs.len(),
{
    if rs.len() > 0 {
        lemma_buckets_partition(rs.drop_last());
    }
}

fn bucket_of(s: &CommitmentLifecycleStatus) -> (b: u8)
    ensures
        b as nat == summary_bucket(*s),
{
    match s {
        CommitmentLifecycleStatus::PendingObservation => 0,
        CommitmentLifecycleStatus::ObservationComplete => 0,
        CommitmentLifecycleStatus::Submitted => 0,
        CommitmentLifecycleStatus::Deferred(_) => 0,
        CommitmentLifecycleStatus::Approved => 1,
        CommitmentLifecycleStatus::Denied(_) => 2,
        CommitmentLifecycleStatus::Fulfilled => 3,
        CommitmentLifecycleStatus::Failed(_) => 4,
    }
}

impl CommitmentLifecycleManager {
    /// The records, oldest first.
    pub closed spec fn records(&self) -> Seq<CommitmentRecord> {
        self.records@
    }

    /// The capacity the manager was made with.
    pub closed spec fn max_tracked(&self) -> nat {
        self.max_tracked as nat
    }

    /// The manager never holds more records than its capacity (one when
    /// the capacity is zero).
    pub open spec fn wf(&self) -> bool {
        self.records().len() <= effective_capacity(self.max_tracked())
    }

    /// An empty manager that keeps at most `max_tracked` records.
    pub fn new(max_tracked: usize) -> (m: Self)
        ensures
            m.wf(),
            m.records() == Seq::<CommitmentRecord>::empty(),
            m.max_tracked() == max_tracked,
    {
        CommitmentLifecycleManager { records: Vec::new(), max_tracked }
    }

    /// Records a submission to the commitment gate under identifier `id` at time `now`.
    pub fn record_submission_at(
        &mut self,
        id: SelfCommitmentId,
        intent_id: IntentId,
        commitment_id: CommitmentId,
        governance_tier: SubstrateTier,
        now: i64,
    )
        requires
            old(self).wf(),
        ensures
            final(self).wf(),
            final(self).max_tracked() == old(self).max_tracked(),
            final(self).records() == spec_push_bounded(
                old(self).records(),
                old(self).max_tracked(),
                spec_submission_record(id, intent_id, commitment_id, governance_tier, now),
            ),
    {
        let record = CommitmentRecord {
            id,
            intent_id,
            commitment_id: Some(commitment_id),
            governance_tier,
            observation_start: now,
            observation_required_secs: 0,
            status: CommitmentLifecycleStatus::Submitted,
            created_at: now,
            resolved_at: None,
        };
        push_bounded(&mut self.records, self.max_tracked, record);
        proof {
            crate::bounded::law_push_bounded_keeps_bound(old(self).records@, self.max_tracked as nat,
                spec_submission_record(id, intent_id, commitment_id, governance_tier, now));
        }
    }

    /// Records a submission to the commitment gate under a fresh identifier, stamped
    /// with the current time, and returns that identifier.
    pub fn record_submission(
        &mut self,
        intent_id: IntentId,
        commitment_id: CommitmentId,
        governance_tier: SubstrateTier,
    ) -> (id: SelfCommitmentId)
        requires
            old(self).wf(),
        ensures
            final(self).wf(),
            final(self).max_tracked() == old(self).max_tracked(),
            id.0@.len() == 36,
            exists|now: i64| final(self).records() == spec_push_bounded(
                old(self).records(),
                old(self).max_tracked(),
                spec_submission_record(id, intent_id, commitment_id, governance_tier, now),
            ),
    {
        let id = SelfCommitmentId::new();
        let now = now_millis();
        let returned = id.duplicate();
        self.record_submission_at(id, intent_id, commitment_id, governance_tier, now);
        returned
    }

    /// Applies a transition at time `now` to the first record with identifier
    /// `id`; nothing changes when there is none.
    pub fn apply_transition_at(&mut self, id: &SelfCommitmentId, t: Transition, now: i64)
        requires
            old(self).wf(),
        ensures
            final(self).wf(),
            final(self).max_tracked() == old(self).max_tracked(),
            final(self).records() == spec_transition(old(self).records(), id.0@, t, now),
    {
        let mut i: usize = 0;
        while i < self.records.len()
            invariant
                old(self).wf(),
                self.records@ == old(self).records@,
                self.max_tracked == old(self).max_tracked,
                i <= self.records@.len(),
                first_with_id(self.records@, id.0@, 0) == first_with_id(self.records@, id.0@, i as int),
            decreases self.records@.len() - i,
        {
            if self.records[i].id.0 == id.0 {
                let ghost before = self.records@;
                match t {
                    Transition::Approve => {
                        self.records[i].status = CommitmentLifecycleStatus::Approved;
                    },
                    Transition::Deny(reason) => {
                        self.records[i].status = CommitmentLifecycleStatus::Denied(reason);
                        self.records[i].resolved_at = Some(now);
                    },
                    Transition::Fulfill => {
                        self.records[i].status = CommitmentLifecycleStatus::Fulfilled;
                        self.records[i].resolved_at = Some(now);
                    },
                    Transition::Fail(reason) => {
                        self.records[i].status = CommitmentLifecycleStatus::Failed(reason);
                        self.records[i].resolved_at = Some(now);
                    },
                }
                assert(self.records@ =~= before.update(i as int, spec_apply(before[i as int], t, now)));
                return;
            }
            i = i + 1;
        }
    }

    /// Records that the commitment gate approved the commitment `id`.
    pub fn record_approval(&mut self, id: &SelfCommitmentId)
        requires
            old(self).wf(),
        ensures
            final(self).wf(),
            final(self).max_tracked() == old(self).max_tracked(),
            final(self).records() == spec_transition(old(self).records(), id.0@, Transition::Approve, 0),
    {
        self.apply_transition_at(id, Transition::Approve, 0);
    }

    /// Records that the commitment gate denied the commitment `id`, stamped with the current time.
    pub fn record_denial(&mut self, id: &SelfCommitmentId, reason: String)
        requires
            old(self).wf(),
        ensures
            final(self).wf(),
            final(self).max_tracked() == old(self).max_tracked(),
            exists|now: i64| final(self).records() == spec_transition(old(self).records(), id.0@, Transition::Deny(reason), now),
    {
        let now = now_millis();
        self.apply_transition_at(id, Transition::Deny(reason), now);
    }

    /// Records that the self-modification of commitment `id` succeeded,
    /// stamped with the current time.
    pub fn record_fulfilled(&mut self, id: &SelfCommitmentId)
        requires
            old(self).wf(),
        ensures
            final(self).wf(),
            final(self).max_tracked() == old(self).max_tracked(),
            exists|now: i64| final(self).records() == spec_transition(old(self).records(), id.0@, Transition::Fulfill, now),
    {
        let now = now_millis();
        self.apply_transition_at(id, Transition::Fulfill, now);
    }

    /// Records that the self-modification of commitment `id` failed,
    /// stamped with the current time.
    pub fn record_failed(&mut self, id: &SelfCommitmentId, reason: String)
        requires
            old(self).wf(),
        ensures
            final(self).wf(),
            final(self).max_tracked() == old(self).max_tracked(),
            exists|now: i64| final(self).records() == spec_transition(old(self).records(), id.0@, Transition::Fail(reason), now),
    {
        let now = now_millis();
        self.apply_transition_at(id, Transition::Fail(reason), now);
    }

    /// The first record with identifier `id`.
    pub fn find(&self, id: &SelfCommitmentId) -> (r: Option<&CommitmentRecord>)
        ensures
            match first_with_id(self.records(), id.0@, 0) {
                Some(k) => r == Some(&self.records()[k]),
                None => r is None,
            },
    {
        let mut i: usize = 0;
        while i < self.records.len()
            invariant
                i <= self.records@.len(),
                first_with_id(self.records@, id.0@, 0) == first_with_id(self.records@, id.0@, i as int),
            decreases self.records@.len() - i,
        {
            if self.records[i].id.0 == id.0 {
                return Some(&self.records[i]);
            }
            i = i + 1;
        }
        None
    }

    /// The first record derived from intent `intent_id`.
    pub fn find_by_intent(&self, intent_id: &IntentId) -> (r: Option<&CommitmentRecord>)
        ensures
            match first_with_intent(self.records(), intent_id.0@, 0) {
                Some(k) => r == Some(&self.records()[k]),
                None => r is None,
            },
    {
        let mut i: usize = 0;
        while i < self.records.len()
            invariant
                i <= self.records@.len(),
                first_with_intent(self.records@, intent_id.0@, 0) == first_with_intent(self.records@, intent_id.0@, i as int),
            decreases self.records@.len() - i,
        {
            if self.records[i].intent_id.0 == intent_id.0 {
                return Some(&self.records[i]);
            }
            i = i + 1;
        }
        None
    }

    /// The first record carrying gate identifier `commitment_id`.
    pub fn find_by_commitment(&self, commitment_id: &CommitmentId) -> (r: Option<&CommitmentRecord>)
        ensures
            match first_with_commitment(self.records(), commitment_id.0@, 0) {
                Some(k) => r == Some(&self.records()[k]),
                None => r is None,
            },
    {
        let mut i: usize = 0;
        while i < self.records.len()
            invariant
                i <= self.records@.len(),
                first_with_commitment(self.records@, commitment_id.0@, 0)
                    == first_with_commitment(self.records@, commitment_id.0@, i as int),
            decreases self.records@.len() - i,
        {
            let hit = match &self.records[i].commitment_id {
                Some(c) => c.0 == commitment_id.0,
                None => false,
            };
            if hit {
                return Some(&self.records[i]);
            }
            i = i + 1;
        }
        None
    }

    /// The active records (neither terminal nor deferred), oldest first.
    pub fn active_commitments(&self) -> (v: Vec<&CommitmentRecord>)
        ensures
            v@.len() == spec_active(self.records()).len(),
            forall|j: int| 0 <= j < v@.len() ==> *(#[trigger] v@[j]) == spec_active(self.records())[j],
    {
        let mut v: Vec<&CommitmentRecord> = Vec::new();
        let mut i: usize = 0;
        while i < self.records.len()
            invariant
                i <= self.records@.len(),
                v@.len() == spec_active(self.records@.take(i as int)).len(),
                forall|j: int| 0 <= j < v@.len() ==> *(#[trigger] v@[j]) == spec_active(self.records@.take(i as int))[j],
            decreases self.records@.len() - i,
        {
            proof { lemma_take_last(self.records@, i as int); }
            if self.records[i].status.is_active() {
                v.push(&self.records[i]);
            }
            i = i + 1;
        }
        assert(self.records@.take(self.records@.len() as int) =~= self.records@);
        v
    }

    /// All records, oldest first.
    pub fn all_records(&self) -> (v: &Vec<CommitmentRecord>)
        ensures
            v@ == self.records(),
    {
        &self.records
    }

    /// Summary statistics: total, and the count of each bucket (deferred
    /// records count as pending).
    pub fn summary(&self) -> (s: CommitmentSummary)
        ensures
            spec_summary(self.records(), s),
    {
        let mut s = CommitmentSummary { total: self.records.len(), pending: 0, approved: 0, denied: 0, fulfilled: 0, failed: 0 };
        let mut i: usize = 0;
        while i < self.records.len()
            invariant
                i <= self.records@.len(),
                s.total == self.records@.len(),
                s.pending == count_bucket(self.records@.take(i as int), 0),
                s.approved == count_bucket(self.records@.take(i as int), 1),
                s.denied == count_bucket(self.records@.take(i as int), 2),
                s.fulfilled == count_bucket(self.records@.take(i as int), 3),
                s.failed == count_bucket(self.records@.take(i as int), 4),
            decreases self.records@.len() - i,
        {
            proof {
                lemma_take_last(self.records@, i as int);
                lemma_buckets_partition(self.records@.take(i as int + 1));
            }
            let b = bucket_of(&self.records[i].status);
            if b == 0 {
                s.pending = s.pending + 1;
            } else if b == 1 {
                s.approved = s.approved + 1;
            } else if b == 2 {
                s.denied = s.denied + 1;
            } else if b == 3 {
                s.fulfilled = s.fulfilled + 1;
            } else {
                s.failed = s.failed + 1;
            }
            i = i + 1;
        }
        assert(self.records@.take(self.records@.len() as int) =~= self.records@);
        s
    }

    /// Number of tracked records.
    pub fn len(&self) -> (n: usize)
        ensures
            n == self.records().len(),
    {
        self.records.len()
    }

    /// Whether no record is tracked.
    pub fn is_empty(&self) -> (b: bool)
        ensures
            b == (self.records().len() == 0),
    {
        self.records.len() == 0
    }
}

impl Default for CommitmentLifecycleManager {
    fn default() -> (m: Self)
        ensures
            m.wf(),
            m.records() == Seq::<CommitmentRecord>::empty(),
            m.max_tracked() == 256,
    {
        Self::new(256)
    }
}

/// The summary accounts for every record: its buckets add up to the total.
pub proof fn law_summary_accounts_for_all(rs: Seq<CommitmentRecord>, s: CommitmentSummary)
    requires
        spec_summary(rs, s),
    ensures
        s.pending + s.approved + s.denied + s.fulfilled + s.failed == s.total,
{
    lemma_buckets_partition(rs);
}

/// A transition changes only the first record with the given identifier,
/// keeps the number and order of records, and leaves that record's
/// identity (identifier, intent, gate identifier, tier) as it was.
pub proof fn law_transition_is_local(rs: Seq<CommitmentRecord>, id: Seq<char>, t: Transition, now: i64)
    ensures
        spec_transition(rs, id, t, now).len() == rs.len(),
        forall|j: int| 0 <= j < rs.len() && Some(j) != first_with_id(rs, id, 0)
            ==> #[trigger] spec_transition(rs, id, t, now)[j] == rs[j],
        forall|j: int| 0 <= j < rs.len() ==> {
            let r2 = #[trigger] spec_transition(rs, id, t, now)[j];
            &&& r2.id == rs[j].id
            &&& r2.intent_id == rs[j].intent_id
            &&& r2.commitment_id == rs[j].commitment_id
            &&& r2.governance_tier == rs[j].governance_tier
        },
{
    lemma_first_with_id_range(rs, id, 0);
}

proof fn lemma_first_with_id_range(rs: Seq<CommitmentRecord>, id: Seq<char>, i: int)
    requires
        0 <= i,
    ensures
        first_with_id(rs, id, i) matches Some(k) ==> i <= k < rs.len() && rs[k].id.0@ == id,
    decreases rs.len() - i,
{
    if i < rs.len() && rs[i].id.0@ != id {
        lemma_first_with_id_range(rs, id, i + 1);
    }
}

/// After a denial, fulfilment or failure, the record it reached is
/// terminal and carries its resolution time; after an approval it is
/// approved and active.
pub proof fn law_transition_outcome(rs: Seq<CommitmentRecord>, id: Seq<char>, t: Transition, now: i64)
    requires
        first_with_id(rs, id, 0) is Some,
    ensures
        ({
            let k = first_with_id(rs, id, 0)->0;
            let r2 = spec_transition(rs, id, t, now)[k];
            &&& t is Approve ==> r2.status == CommitmentLifecycleStatus::Approved && spec_is_active(r2.status)
            &&& !(t is Approve) ==> crate::commitment::types::spec_is_terminal(r2.status) && r2.resolved_at == Some(now)
        }),
{
    lemma_first_with_id_range(rs, id, 0);
}

} // verus!
