//! The self-commitment engine: intents wait out their observation period,
//! become ready, are submitted, and their commitments are tracked through
//! adjudication and outcome.

use vstd::prelude::*;
use crate::commitment::lifecycle::{spec_transition, CommitmentLifecycleManager, Transition};
use crate::commitment::observation::{
    index_of_intent, spec_check, spec_is_elapsed, spec_new_record, spec_start, ObservationPeriodTracker,
    ObservationRecord,
};
use crate::commitment::types::{CommitmentId, CommitmentSummary, SelfCommitmentId};
use crate::intent::types::{IntentId, SubstrateTier};
use crate::platform::now_millis;

verus! {

/// An intent as the engine tracks it: its identifier and governance tier.
#[derive(Clone, Debug)]
pub struct PendingIntent {
    pub id: IntentId,
    pub governance_tier: SubstrateTier,
}

/// Settings of the engine: whether observation periods are enforced, the
/// most commitments active at once, and how many records are kept.
#[derive(Clone, Debug)]
pub struct CommitmentConfig {
    pub require_observation_period: bool,
    pub require_rollback: bool,
    pub max_concurrent_commitments: usize,
    pub max_tracked_commitments: usize,
}

impl Default for CommitmentConfig {
    fn default() -> (c: Self)
        ensures
            c.require_observation_period,
            c.require_rollback,
            c.max_concurrent_commitments == 3,
            c.max_tracked_commitments == 256,
    {
        CommitmentConfig {
            require_observation_period: true,
            require_rollback: true,
            max_concurrent_commitments: 3,
            max_tracked_commitments: 256,
        }
    }
}

/// Outcome of checking one intent at `now` against the observation
/// records: whether its observation is done, and the records afterwards
/// (marked complete, then dropped once done).
pub open spec fn spec_check_one(rs: Seq<ObservationRecord>, id: Seq<char>, now: i64) -> (bool, Seq<ObservationRecord>) {
    let done = match index_of_intent(rs, id, 0) {
        Some(k) => rs[k].completed || spec_is_elapsed(rs[k], now),
        None => false,
    };
    let checked = spec_check(rs, id, now);
    if done {
        (true, match index_of_intent(checked, id, 0) {
            Some(k) => checked.remove(k),
            None => checked,
        })
    } else {
        (false, checked)
    }
}

/// State of a sweep over the observing intents: those promoted to ready,
/// those still observing, and the observation records afterwards.
pub struct Sweep {
    pub promoted: Seq<PendingIntent>,
    pub kept: Seq<PendingIntent>,
    pub records: Seq<ObservationRecord>,
}

/// The sweep of the observing intents `obs`, in order, at `now`.
pub open spec fn spec_sweep(obs: Seq<PendingIntent>, rs: Seq<ObservationRecord>, now: i64) -> Sweep
    decreases obs.len(),
{
    if obs.len() == 0 {
        Sweep { promoted: Seq::empty(), kept: Seq::empty(), records: rs }
    } else {
        let s = spec_sweep(obs.drop_last(), rs, now);
        let (done, after) = spec_check_one(s.records, obs.last().id.0@, now);
        if done {
            Sweep { promoted: s.promoted.push(obs.last()), kept: s.kept, records: after }
        } else {
            Sweep { promoted: s.promoted, kept: s.kept.push(obs.last()), records: after }
        }
    }
}

/// The intents other than `id`, in order.
pub open spec fn without_intent(v: Seq<PendingIntent>, id: Seq<char>) -> Seq<PendingIntent>
    decreases v.len(),
{
    if v.len() == 0 {
        v
    } else if v.last().id.0@ == id {
        without_intent(v.drop_last(), id)
    } else {
        without_intent(v.drop_last(), id).push(v.last())
    }
}

/// Identifiers of a list of intents.
pub open spec fn intent_ids(v: Seq<PendingIntent>) -> Seq<Seq<char>> {
    v.map_values(|p: PendingIntent| p.id.0@)
}

proof fn lemma_ids_push(ids: Seq<IntentId>, ps: Seq<PendingIntent>, x: IntentId, p: PendingIntent)
    requires
        ids.map_values(|i: IntentId| i.0@) == intent_ids(ps),
        x.0@ == p.id.0@,
    ensures
        ids.push(x).map_values(|i: IntentId| i.0@) == intent_ids(ps.push(p)),
{
    let a = ids.push(x).map_values(|i: IntentId| i.0@);
    let b = intent_ids(ps.push(p));
    assert(ids.map_values(|i: IntentId| i.0@).len() == ids.len());
    assert forall|k: int| 0 <= k < a.len() implies a[k] == b[k] by {
        if k < ids.len() {
            assert(ids.map_values(|i: IntentId| i.0@)[k] == intent_ids(ps)[k]);
        }
    }
    assert(a =~= b);
}

/// Orchestrates observation, readiness, submission and lifecycle
/// tracking of self-commitments.
pub struct SelfCommitmentEngine {
    observation_tracker: ObservationPeriodTracker,
    lifecycle: CommitmentLifecycleManager,
    config: CommitmentConfig,
    observing: Vec<PendingIntent>,
    ready: Vec<PendingIntent>,
}

impl SelfCommitmentEngine {
    /// The engine's settings.
    pub closed spec fn configuration(&self) -> CommitmentConfig {
        self.config
    }

    /// The intents under observation, in order of arrival.
    pub closed spec fn observing(&self) -> Seq<PendingIntent> {
        self.observing@
    }

    /// The intents ready for commitment, in order of readiness.
    pub closed spec fn ready(&self) -> Seq<PendingIntent> {
        self.ready@
    }

    /// The observation records.
    pub closed spec fn observations(&self) -> Seq<ObservationRecord> {
        self.observation_tracker.records()
    }

    /// The commitment records.
    pub closed spec fn commitments(&self) -> Seq<crate::commitment::types::CommitmentRecord> {
        self.lifecycle.records()
    }

    /// The tracker and the lifecycle keep their own invariants.
    pub closed spec fn wf(&self) -> bool {
        &&& self.observation_tracker.wf()
        &&& self.lifecycle.wf()
        &&& self.lifecycle.max_tracked() == self.config.max_tracked_commitments
    }

    /// An engine with nothing observed, ready or committed.
    pub fn new(config: CommitmentConfig) -> (e: Self)
        ensures
            e.wf(),
            e.configuration() == config,
            e.observing().len() == 0,
            e.ready().len() == 0,
            e.observations().len() == 0,
            e.commitments().len() == 0,
    {
        let max = config.max_tracked_commitments;
        SelfCommitmentEngine {
            observation_tracker: ObservationPeriodTracker::new(),
            lifecycle: CommitmentLifecycleManager::new(max),
            config,
            observing: Vec::new(),
            ready: Vec::new(),
        }
    }

    /// Begins observing an intent at `started_at` (when observation is
    /// required), or makes it ready at once (when it is not).
    pub fn start_observation_at(&mut self, intent: PendingIntent, started_at: i64)
        requires
            old(self).wf(),
        ensures
            final(self).wf(),
            final(self).configuration() == old(self).configuration(),
            final(self).commitments() == old(self).commitments(),
            old(self).configuration().require_observation_period ==> {
                &&& final(self).observations() == spec_start(old(self).observations(),
                        spec_new_record(intent.id, intent.governance_tier, started_at))
                &&& final(self).observing() == old(self).observing().push(intent)
                &&& final(self).ready() == old(self).ready()
            },
            !old(self).configuration().require_observation_period ==> {
                &&& final(self).observations() == old(self).observations()
                &&& final(self).observing() == old(self).observing()
                &&& final(self).ready() == old(self).ready().push(intent)
            },
    {
        if self.config.require_observation_period {
            self.observation_tracker.start_observation_at(&intent.id, intent.governance_tier, started_at);
            self.observing.push(intent);
        } else {
            self.ready.push(intent);
        }
    }

    /// Begins observing an intent now (or makes it ready at once when
    /// observation is not required).
    pub fn start_observation(&mut self, intent: PendingIntent)
        requires
            old(self).wf(),
        ensures
            final(self).wf(),
            final(self).configuration() == old(self).configuration(),
            final(self).commitments() == old(self).commitments(),
            old(self).configuration().require_observation_period ==> {
                &&& exists|now: i64| final(self).observations() == spec_start(old(self).observations(),
                        spec_new_record(intent.id, intent.governance_tier, now))
                &&& final(self).observing() == old(self).observing().push(intent)
                &&& final(self).ready() == old(self).ready()
            },
            !old(self).configuration().require_observation_period ==> {
                &&& final(self).observations() == old(self).observations()
                &&& final(self).observing() == old(self).observing()
                &&& final(self).ready() == old(self).ready().push(intent)
            },
    {
        let now = now_millis();
        self.start_observation_at(intent, now);
    }

    /// Promotes, at `now`, every observing intent whose observation is
    /// complete or has elapsed: it leaves the observing list and the
    /// tracker and joins the ready list. Returns the promoted identifiers,
    /// in order.
    pub fn check_ready_at(&mut self, now: i64) -> (ids: Vec<IntentId>)
        requires
            old(self).wf(),
        ensures
            final(self).wf(),
            final(self).configuration() == old(self).configuration(),
            final(self).commitments() == old(self).commitments(),
            final(self).observing() == spec_sweep(old(self).observing(), old(self).observations(), now).kept,
            final(self).ready() == old(self).ready() + spec_sweep(old(self).observing(), old(self).observations(), now).promoted,
            final(self).observations() == spec_sweep(old(self).observing(), old(self).observations(), now).records,
            ids@.map_values(|i: IntentId| i.0@) == intent_ids(spec_sweep(old(self).observing(), old(self).observations(), now).promoted),
    {
        let ghost obs = self.observing@;
        let ghost rs0 = self.observation_tracker.records();
        let ghost ready0 = self.ready@;
        let mut ids: Vec<IntentId> = Vec::new();
        let mut kept: Vec<PendingIntent> = Vec::new();
        let mut promoted: Vec<PendingIntent> = Vec::new();
        let mut i: usize = 0;
        while i < self.observing.len()
            invariant
                i <= obs.len(),
                self.observing@ == obs,
                self.ready@ == ready0,
                self.observation_tracker.wf(),
                self.lifecycle.wf(),
                self.lifecycle.max_tracked() == self.config.max_tracked_commitments,
                self.lifecycle.records() == old(self).lifecycle.records(),
                self.config == old(self).config,
                kept@ == spec_sweep(obs.take(i as int), rs0, now).kept,
                promoted@ == spec_sweep(obs.take(i as int), rs0, now).promoted,
                self.observation_tracker.records() == spec_sweep(obs.take(i as int), rs0, now).records,
                ids@.map_values(|x: IntentId| x.0@) == intent_ids(promoted@),
            decreases obs.len() - i,
        {
            proof {
                assert(obs.take(i as int + 1).drop_last() =~= obs.take(i as int));
            }
            let id = self.observing[i].id.duplicate();
            let done = self.observation_tracker.check_completion_at(&id, now);
            if done {
                self.observation_tracker.remove(&id);
                let ghost ids0 = ids@;
                let ghost pr0 = promoted@;
                let p = PendingIntent { id: self.observing[i].id.duplicate(), governance_tier: self.observing[i].governance_tier };
                proof {
                    lemma_ids_push(ids0, pr0, id, p);
                }
                ids.push(id);
                promoted.push(p);
            } else {
                kept.push(PendingIntent { id: self.observing[i].id.duplicate(), governance_tier: self.observing[i].governance_tier });
            }
            i = i + 1;
        }
        proof {
            assert(obs.take(obs.len() as int) =~= obs);
        }
        self.observing = kept;
        let mut j: usize = 0;
        let ghost ready_start = self.ready@;
        while j < promoted.len()
            invariant
                j <= promoted@.len(),
                self.ready@ == ready_start + promoted@.take(j as int),
                self.observing@ == spec_sweep(obs, rs0, now).kept,
                self.observation_tracker.records() == spec_sweep(obs, rs0, now).records,
                self.observation_tracker.wf(),
                self.lifecycle.wf(),
                self.lifecycle.max_tracked() == self.config.max_tracked_commitments,
                self.lifecycle.records() == old(self).lifecycle.records(),
                self.config == old(self).config,
            decreases promoted@.len() - j,
        {
            self.ready.push(PendingIntent { id: promoted[j].id.duplicate(), governance_tier: promoted[j].governance_tier });
            proof {
                assert(self.ready@ =~= ready_start + promoted@.take(j as int + 1));
            }
            j = j + 1;
        }
        proof {
            assert(promoted@.take(promoted@.len() as int) =~= promoted@);
        }
        ids
    }

    /// Promotes the intents whose observation is done by now.
    pub fn check_ready(&mut self) -> (ids: Vec<IntentId>)
        requires
            old(self).wf(),
        ensures
            final(self).wf(),
            final(self).configuration() == old(self).configuration(),
            final(self).commitments() == old(self).commitments(),
            exists|now: i64| {
                &&& final(self).observing() == spec_sweep(old(self).observing(), old(self).observations(), now).kept
                &&& final(self).ready() == old(self).ready() + spec_sweep(old(self).observing(), old(self).observations(), now).promoted
                &&& final(self).observations() == spec_sweep(old(self).observing(), old(self).observations(), now).records
                &&& ids@.map_values(|i: IntentId| i.0@) == intent_ids(
                    spec_sweep(old(self).observing(), old(self).observations(), now).promoted)
            },
    {
        let now = now_millis();
        self.check_ready_at(now)
    }

    /// Records that the commitment of intent `intent_id` was submitted to
    /// the commitment gate: the intent leaves the ready list and a
    /// submitted record is opened under a fresh identifier.
    pub fn record_submission(&mut self, intent_id: &IntentId, commitment_id: CommitmentId,
        governance_tier: SubstrateTier) -> (id: SelfCommitmentId)
        requires
            old(self).wf(),
        ensures
            final(self).wf(),
            final(self).configuration() == old(self).configuration(),
            final(self).observing() == old(self).observing(),
            final(self).observations() == old(self).observations(),
            final(self).ready() == without_intent(old(self).ready(), intent_id.0@),
            final(self).commitments().len() > 0,
            final(self).commitments().last().id == id,
            final(self).commitments().last().intent_id == *intent_id,
            final(self).commitments().last().commitment_id == Some(commitment_id),
            final(self).commitments().last().governance_tier == governance_tier,
    {
        let ghost r0 = self.ready@;
        let mut kept: Vec<PendingIntent> = Vec::new();
        let mut i: usize = 0;
        while i < self.ready.len()
            invariant
                i <= r0.len(),
                self.ready@ == r0,
                kept@ == without_intent(r0.take(i as int), intent_id.0@),
            decreases r0.len() - i,
        {
            proof {
                assert(r0.take(i as int + 1).drop_last() =~= r0.take(i as int));
            }
            if self.ready[i].id.0 != intent_id.0 {
                kept.push(PendingIntent { id: self.ready[i].id.duplicate(), governance_tier: self.ready[i].governance_tier });
            }
            i = i + 1;
        }
        proof {
            assert(r0.take(r0.len() as int) =~= r0);
        }
        self.ready = kept;
        self.lifecycle.record_submission(intent_id.duplicate(), commitment_id, governance_tier)
    }

    /// Records the commitment gate's decision on commitment `id`: approval,
    /// or denial for the reason given (`gate denied` when none is).
    pub fn record_gate_result(&mut self, id: &SelfCommitmentId, approved: bool, reason: Option<String>)
        requires
            old(self).wf(),
        ensures
            final(self).wf(),
            final(self).configuration() == old(self).configuration(),
            final(self).observing() == old(self).observing(),
            final(self).ready() == old(self).ready(),
            final(self).observations() == old(self).observations(),
            approved ==> final(self).commitments() == spec_transition(old(self).commitments(), id.0@, Transition::Approve, 0),
            !approved ==> exists|now: i64, m: String| {
                &&& m@ == match reason { Some(r) => r@, None => "gate denied"@ }
                &&& final(self).commitments() == spec_transition(old(self).commitments(), id.0@, Transition::Deny(m), now)
            },
    {
        if approved {
            self.lifecycle.record_approval(id);
        } else {
            let m = match reason {
                Some(r) => r,
                None => String::from_str("gate denied"),
            };
            let ghost gm = m;
            self.lifecycle.record_denial(id, m);
            proof {
                let now = choose|now: i64| self.lifecycle.records() == spec_transition(old(self).lifecycle.records(),
                    id.0@, Transition::Deny(gm), now);
                assert(self.commitments() == spec_transition(old(self).commitments(), id.0@, Transition::Deny(gm), now));
            }
        }
    }

    /// Records the outcome of commitment `id`: fulfilled, or failed for
    /// the reason given (`execution failed` when none is).
    pub fn record_outcome(&mut self, id: &SelfCommitmentId, fulfilled: bool, reason: Option<String>)
        requires
            old(self).wf(),
        ensures
            final(self).wf(),
            final(self).configuration() == old(self).configuration(),
            final(self).observing() == old(self).observing(),
            final(self).ready() == old(self).ready(),
            final(self).observations() == old(self).observations(),
            fulfilled ==> exists|now: i64| final(self).commitments() == spec_transition(old(self).commitments(), id.0@,
                Transition::Fulfill, now),
            !fulfilled ==> exists|now: i64, m: String| {
                &&& m@ == match reason { Some(r) => r@, None => "execution failed"@ }
                &&& final(self).commitments() == spec_transition(old(self).commitments(), id.0@, Transition::Fail(m), now)
            },
    {
        if fulfilled {
            self.lifecycle.record_fulfilled(id);
            proof {
                let now = choose|now: i64| self.lifecycle.records() == spec_transition(old(self).lifecycle.records(),
                    id.0@, Transition::Fulfill, now);
                assert(self.commitments() == spec_transition(old(self).commitments(), id.0@, Transition::Fulfill, now));
            }
        } else {
            let m = match reason {
                Some(r) => r,
                None => String::from_str("execution failed"),
            };
            let ghost gm = m;
            self.lifecycle.record_failed(id, m);
            proof {
                let now = choose|now: i64| self.lifecycle.records() == spec_transition(old(self).lifecycle.records(),
                    id.0@, Transition::Fail(gm), now);
                assert(self.commitments() == spec_transition(old(self).commitments(), id.0@, Transition::Fail(gm), now));
            }
        }
    }

    /// Summary statistics of the commitments.
    pub fn summary(&self) -> (s: CommitmentSummary)
        ensures
            crate::commitment::lifecycle::spec_summary(self.commitments(), s),
    {
        self.lifecycle.summary()
    }

    /// The lifecycle manager.
    pub fn lifecycle(&self) -> (m: &CommitmentLifecycleManager)
        ensures
            m.records() == self.commitments(),
    {
        &self.lifecycle
    }

    /// The observation tracker.
    pub fn observation_tracker(&self) -> (t: &ObservationPeriodTracker)
        ensures
            t.records() == self.observations(),
    {
        &self.observation_tracker
    }

    /// Number of intents under observation.
    pub fn observing_count(&self) -> (n: usize)
        ensures
            n == self.observing().len(),
    {
        self.observing.len()
    }

    /// Number of intents ready for commitment.
    pub fn ready_count(&self) -> (n: usize)
        ensures
            n == self.ready().len(),
    {
        self.ready.len()
    }

    /// Whether fewer commitments are active than the configured maximum.
    pub fn can_accept_commitment(&self) -> (b: bool)
        ensures
            b == (crate::commitment::lifecycle::spec_active(self.commitments()).len()
                < self.configuration().max_concurrent_commitments),
    {
        self.lifecycle.active_commitments().len() < self.config.max_concurrent_commitments
    }
}

/// A check for readiness loses no intent: every observing intent is
/// either promoted or still observing.
pub proof fn law_check_ready_keeps_every_intent(obs: Seq<PendingIntent>, rs: Seq<ObservationRecord>, now: i64)
    ensures
        spec_sweep(obs, rs, now).promoted.len() + spec_sweep(obs, rs, now).kept.len() == obs.len(),
    decreases obs.len(),
{
    if obs.len() > 0 {
        law_check_ready_keeps_every_intent(obs.drop_last(), rs, now);
    }
}

} // verus!
