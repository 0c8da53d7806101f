//! Observation periods: each governance tier mandates a minimum time an
//! intent is observed before it may be committed (30 minutes for tier 0,
//! one hour for tier 1, 24 hours for tier 2, 72 hours for tier 3).

use vstd::prelude::*;
use crate::commitment::types::{elapsed_secs, spec_elapsed_secs};
use crate::intent::types::{spec_min_observation_secs, IntentId, SubstrateTier};
use crate::platform::now_millis;

verus! {

/// The observation period of one intent. Times are in milliseconds since
/// the Unix epoch.
#[derive(Clone, Debug)]
pub struct ObservationRecord {
    /// The intent observed.
    pub intent_id: IntentId,
    /// Governance tier that sets the period.
    pub governance_tier: SubstrateTier,
    /// When observation started.
    pub started_at: i64,
    /// Required period in seconds.
    pub required_secs: u64,
    /// Whether observation was marked complete.
    pub completed: bool,
}

/// Whether the period of `r` has elapsed at time `now`.
pub open spec fn spec_is_elapsed(r: ObservationRecord, now: i64) -> bool {
    spec_elapsed_secs(r.started_at, now) >= r.required_secs
}

/// Seconds left in the period of `r` at time `now`: none once it is
/// complete or elapsed.
pub open spec fn spec_time_remaining(r: ObservationRecord, now: i64) -> Option<nat> {
    if r.completed || spec_is_elapsed(r, now) {
        None
    } else {
        Some((r.required_secs - spec_elapsed_secs(r.started_at, now)) as nat)
    }
}

impl ObservationRecord {
    /// Seconds left at time `now`, if the period is still running.
    pub fn time_remaining_at(&self, now: i64) -> (r: Option<u64>)
        ensures
            match spec_time_remaining(*self, now) {
                Some(n) => r == Some(n as u64),
                None => r is None,
            },
    {
        if self.completed {
            return None;
        }
        let elapsed = elapsed_secs(self.started_at, now);
        if elapsed >= self.required_secs {
            None
        } else {
            Some(self.required_secs - elapsed)
        }
    }

    /// Whether the period has elapsed at time `now`.
    pub fn is_elapsed_at(&self, now: i64) -> (b: bool)
        ensures
            b == spec_is_elapsed(*self, now),
    {
        elapsed_secs(self.started_at, now) >= self.required_secs
    }
}

/// Tracks the observation periods of intents awaiting commitment; at most
/// one record per intent.
pub struct ObservationPeriodTracker {
    records: Vec<ObservationRecord>,
}

/// Position of the record for intent `id`, looking from `i` on.
pub open spec fn index_of_intent(rs: Seq<ObservationRecord>, id: Seq<char>, i: int) -> Option<int>
    decreases rs.len() - i,
{
    if i < 0 || i >= rs.len() {
        None
    } else if rs[i].intent_id.0@ == id {
        Some(i)
    } else {
        index_of_intent(rs, id, i + 1)
    }
}

/// No two records observe the same intent.
pub open spec fn unique_intents(rs: Seq<ObservationRecord>) -> bool {
    forall|i: int, j: int| 0 <= i < j < rs.len() ==> (#[trigger] rs[i]).intent_id.0@ != (#[trigger] rs[j]).intent_id.0@
}

/// The records after starting (or restarting) the observation of `r`:
/// an existing record for the same intent is replaced in place, else `r`
/// is appended.
pub open spec fn spec_start(rs: Seq<ObservationRecord>, r: ObservationRecord) -> Seq<ObservationRecord> {
    match index_of_intent(rs, r.intent_id.0@, 0) {
        Some(k) => rs.update(k, r),
        None => rs.push(r),
    }
}

/// The record for an intent starting observation at `started_at`.
pub open spec fn spec_new_record(intent_id: IntentId, tier: SubstrateTier, started_at: i64) -> ObservationRecord {
    ObservationRecord {
        intent_id,
        governance_tier: tier,
        started_at,
        required_secs: spec_min_observation_secs(tier) as u64,
        completed: false,
    }
}

/// Whether an intent is ready at `now`: its record exists and is complete
/// or elapsed.
pub open spec fn spec_is_ready(rs: Seq<ObservationRecord>, id: Seq<char>, now: i64) -> bool {
    match index_of_intent(rs, id, 0) {
        Some(k) => rs[k].completed || spec_is_elapsed(rs[k], now),
        None => false,
    }
}

/// The records after checking the completion of intent `id` at `now`: a
/// record whose period has elapsed is marked complete.
pub open spec fn spec_check(rs: Seq<ObservationRecord>, id: Seq<char>, now: i64) -> Seq<ObservationRecord> {
    match index_of_intent(rs, id, 0) {
        Some(k) => if !rs[k].completed && spec_is_elapsed(rs[k], now) {
            rs.update(k, ObservationRecord { completed: true, ..rs[k] })
        } else {
            rs
        },
        None => rs,
    }
}

/// The records still running at `now`, in order.
pub open spec fn spec_pending(rs: Seq<ObservationRecord>, now: i64) -> Seq<ObservationRecord>
    decreases rs.len(),
{
    if rs.len() == 0 {
        Seq::empty()
    } else if !rs.last().completed && !spec_is_elapsed(rs.last(), now) {
        spec_pending(rs.drop_last(), now).push(rs.last())
    } else {
        spec_pending(rs.drop_last(), now)
    }
}

proof fn lemma_index_of_intent_range(rs: Seq<ObservationRecord>, id: Seq<char>, i: int)
    requires
        0 <= i,
    ensures
        index_of_intent(rs, id, i) matches Some(k) ==> i <= k < rs.len() && rs[k].intent_id.0@ == id,
        index_of_intent(rs, id, i) is None ==> forall|j: int| i <= j < rs.len() ==> (#[trigger] rs[j]).intent_id.0@ != id,
    decreases rs.len() - i,
{
    if i < rs.len() && rs[i].intent_id.0@ != id {
        lemma_index_of_intent_range(rs, id, i + 1);
    }
}

proof fn lemma_take_last<T>(s: Seq<T>, i: int)
    requires
        0 <= i < s.len(),
    ensures
        s.take(i + 1).drop_last() == s.take(i),
        s.take(i + 1).last() == s[i],
{
    assert(s.take(i + 1).drop_last() =~= s.take(i));
}

impl ObservationPeriodTracker {
    /// The tracked records.
    pub closed spec fn records(&self) -> Seq<ObservationRecord> {
        self.records@
    }

    /// At most one record per intent.
    pub open spec fn wf(&self) -> bool {
        unique_intents(self.records())
    }

    /// An empty tracker.
    pub fn new() -> (t: Self)
        ensures
            t.wf(),
            t.records() == Seq::<ObservationRecord>::empty(),
    {
        ObservationPeriodTracker { records: Vec::new() }
    }

    fn position(&self, id: &IntentId) -> (p: Option<usize>)
        ensures
            p is None <==> index_of_intent(self.records(), id.0@, 0) is None,
            p matches Some(k) ==> index_of_intent(self.records(), id.0@, 0) == Some(k as int) && k < self.records().len() && self.records()[k as int].intent_id.0@ == id.0@,
    {
        proof { lemma_index_of_intent_range(self.records@, id.0@, 0); }
        let mut i: usize = 0;
        while i < self.records.len()
            invariant
                i <= self.records@.len(),
                index_of_intent(self.records@, id.0@, 0) == index_of_intent(self.records@, id.0@, i as int),
            decreases self.records@.len() - i,
        {
            if self.records[i].intent_id.0 == id.0 {
                return Some(i);
            }
            i = i + 1;
        }
        None
    }

    /// Starts (or restarts) the observation of an intent at `started_at`;
    /// the period is the minimum that its tier requires.
    pub fn start_observation_at(&mut self, intent_id: &IntentId, tier: SubstrateTier, started_at: i64)
        requires
            old(self).wf(),
        ensures
            final(self).wf(),
            final(self).records() == spec_start(old(self).records(), spec_new_record(*intent_id, tier, started_at)),
    {
        let record = ObservationRecord {
            intent_id: intent_id.duplicate(),
            governance_tier: tier,
            started_at,
            required_secs: tier.min_observation_secs(),
            completed: false,
        };
        proof { lemma_index_of_intent_range(self.records@, intent_id.0@, 0); }
        match self.position(intent_id) {
            Some(k) => {
                self.records.set(k, record);
                assert forall|i: int, j: int| 0 <= i < j < self.records@.len() implies
                    (#[trigger] self.records@[i]).intent_id.0@ != (#[trigger] self.records@[j]).intent_id.0@ by {
                    assert(old(self).records@[i].intent_id.0@ != old(self).records@[j].intent_id.0@ || (i != k && j != k));
                }
            },
            None => {
                self.records.push(record);
            },
        }
    }

    /// Starts (or restarts) the observation of an intent now.
    pub fn start_observation(&mut self, intent_id: &IntentId, tier: SubstrateTier)
        requires
            old(self).wf(),
        ensures
            final(self).wf(),
            exists|now: i64| final(self).records() == spec_start(old(self).records(), spec_new_record(*intent_id, tier, now)),
    {
        let now = now_millis();
        self.start_observation_at(intent_id, tier, now);
    }

    /// Checks at `now` whether the observation of an intent is complete,
    /// marking it complete once its period has elapsed; false for an
    /// intent not tracked.
    pub fn check_completion_at(&mut self, intent_id: &IntentId, now: i64) -> (done: bool)
        requires
            old(self).wf(),
        ensures
            final(self).wf(),
            final(self).records() == spec_check(old(self).records(), intent_id.0@, now),
            done == match index_of_intent(old(self).records(), intent_id.0@, 0) {
                Some(k) => old(self).records()[k].completed || spec_is_elapsed(old(self).records()[k], now),
                None => false,
            },
    {
        proof { lemma_index_of_intent_range(self.records@, intent_id.0@, 0); }
        match self.position(intent_id) {
            Some(k) => {
                if !self.records[k].completed && self.records[k].is_elapsed_at(now) {
                    self.records[k].completed = true;
                }
                self.records[k].completed
            },
            None => false,
        }
    }

    /// Checks now whether the observation of an intent is complete.
    pub fn check_completion(&mut self, intent_id: &IntentId) -> (done: bool)
        requires
            old(self).wf(),
        ensures
            final(self).wf(),
            exists|now: i64| final(self).records() == spec_check(old(self).records(), intent_id.0@, now)
                && done == spec_is_ready(old(self).records(), intent_id.0@, now),
    {
        let now = now_millis();
        self.check_completion_at(intent_id, now)
    }

    /// Whether an intent's observation is complete or has elapsed at `now`.
    pub fn is_ready_at(&self, intent_id: &IntentId, now: i64) -> (b: bool)
        ensures
            b == spec_is_ready(self.records(), intent_id.0@, now),
    {
        match self.position(intent_id) {
            Some(k) => self.records[k].completed || self.records[k].is_elapsed_at(now),
            None => false,
        }
    }

    /// Whether an intent's observation is complete or has elapsed by now.
    pub fn is_ready(&self, intent_id: &IntentId) -> (b: bool)
        ensures
            exists|now: i64| b == spec_is_ready(self.records(), intent_id.0@, now),
    {
        self.is_ready_at(intent_id, now_millis())
    }

    /// The observations still running at `now`.
    pub fn pending_observations_at(&self, now: i64) -> (v: Vec<&ObservationRecord>)
        ensures
            v@.len() == spec_pending(self.records(), now).len(),
            forall|j: int| 0 <= j < v@.len() ==> *(#[trigger] v@[j]) == spec_pending(self.records(), now)[j],
    {
        let mut v: Vec<&ObservationRecord> = Vec::new();
        let mut i: usize = 0;
        while i < self.records.len()
            invariant
                i <= self.records@.len(),
                v@.len() == spec_pending(self.records@.take(i as int), now).len(),
                forall|j: int| 0 <= j < v@.len() ==> *(#[trigger] v@[j]) == spec_pending(self.records@.take(i as int), now)[j],
            decreases self.records@.len() - i,
        {
            proof { lemma_take_last(self.records@, i as int); }
            if !self.records[i].completed && !self.records[i].is_elapsed_at(now) {
                v.push(&self.records[i]);
            }
            i = i + 1;
        }
        assert(self.records@.take(self.records@.len() as int) =~= self.records@);
        v
    }

    /// The observations still running now.
    pub fn pending_observations(&self) -> (v: Vec<&ObservationRecord>)
        ensures
            exists|now: i64| v@.len() == spec_pending(self.records(), now).len()
                && forall|j: int| 0 <= j < v@.len() ==> *(#[trigger] v@[j]) == spec_pending(self.records(), now)[j],
    {
        self.pending_observations_at(now_millis())
    }

    /// Seconds left in an intent's period at `now` (none when it is not
    /// tracked, complete, or elapsed).
    pub fn time_remaining_at(&self, intent_id: &IntentId, now: i64) -> (r: Option<u64>)
        ensures
            match index_of_intent(self.records(), intent_id.0@, 0) {
                Some(k) => match spec_time_remaining(self.records()[k], now) {
                    Some(n) => r == Some(n as u64),
                    None => r is None,
                },
                None => r is None,
            },
    {
        match self.position(intent_id) {
            Some(k) => self.records[k].time_remaining_at(now),
            None => None,
        }
    }

    /// The record of an intent, if tracked.
    pub fn get(&self, intent_id: &IntentId) -> (r: Option<&ObservationRecord>)
        ensures
            match index_of_intent(self.records(), intent_id.0@, 0) {
                Some(k) => r == Some(&self.records()[k]),
                None => r is None,
            },
    {
        match self.position(intent_id) {
            Some(k) => Some(&self.records[k]),
            None => None,
        }
    }

    /// Stops tracking an intent.
    pub fn remove(&mut self, intent_id: &IntentId)
        requires
            old(self).wf(),
        ensures
            final(self).wf(),
            final(self).records() == match index_of_intent(old(self).records(), intent_id.0@, 0) {
                Some(k) => old(self).records().remove(k),
                None => old(self).records(),
            },
    {
        match self.position(intent_id) {
            Some(k) => {
                self.records.remove(k);
                assert forall|i: int, j: int| 0 <= i < j < self.records@.len() implies
                    (#[trigger] self.records@[i]).intent_id.0@ != (#[trigger] self.records@[j]).intent_id.0@ by {
                    let oi = if i < k { i } else { i + 1 };
                    let oj = if j < k { j } else { j + 1 };
                    assert(self.records@[i] == old(self).records@[oi]);
                    assert(self.records@[j] == old(self).records@[oj]);
                }
            },
            None => {},
        }
    }

    /// Number of tracked intents.
    pub fn len(&self) -> (n: usize)
        ensures
            n == self.records().len(),
    {
        self.records.len()
    }

    /// Whether no intent is tracked.
    pub fn is_empty(&self) -> (b: bool)
        ensures
            b == (self.records().len() == 0),
    {
        self.records.len() == 0
    }
}

impl Default for ObservationPeriodTracker {
    fn default() -> (t: Self)
        ensures
            t.wf(),
            t.records() == Seq::<ObservationRecord>::empty(),
    {
        Self::new()
    }
}

/// Completion is never lost: once an intent is ready at some time, it is
/// still ready after any completion check, at that time and any later time.
pub proof fn law_readiness_is_monotonic(rs: Seq<ObservationRecord>, id: Seq<char>, t1: i64, t2: i64, check_at: i64)
    requires
        spec_is_ready(rs, id, t1),
        t1 <= t2,
    ensures
        spec_is_ready(rs, id, t2),
        spec_is_ready(spec_check(rs, id, check_at), id, t2),
{
    lemma_index_of_intent_range(rs, id, 0);
    let k = index_of_intent(rs, id, 0)->0;
    let rs2 = spec_check(rs, id, check_at);
    assert(rs2.len() == rs.len());
    lemma_index_of_intent_range(rs2, id, 0);
    assert forall|j: int| 0 <= j < rs.len() implies (#[trigger] rs2[j]).intent_id == rs[j].intent_id by {}
    lemma_same_ids_same_index(rs, rs2, id, 0);
}

proof fn lemma_same_ids_same_index(a: Seq<ObservationRecord>, b: Seq<ObservationRecord>, id: Seq<char>, i: int)
    requires
        a.len() == b.len(),
        forall|j: int| 0 <= j < a.len() ==> (#[trigger] b[j]).intent_id == a[j].intent_id,
    ensures
        index_of_intent(a, id, i) == index_of_intent(b, id, i),
    decreases a.len() - i,
{
    if 0 <= i < a.len() && a[i].intent_id.0@ != id {
        lemma_same_ids_same_index(a, b, id, i + 1);
    }
}

/// An intent just put under observation is not ready before its tier's
/// period has elapsed, and is ready once it has.
pub proof fn law_fresh_observation_waits_for_tier(rs: Seq<ObservationRecord>, intent_id: IntentId, tier: SubstrateTier, start: i64, now: i64)
    ensures
        spec_is_ready(spec_start(rs, spec_new_record(intent_id, tier, start)), intent_id.0@, now)
            == (spec_elapsed_secs(start, now) >= spec_min_observation_secs(tier)),
{
    let r = spec_new_record(intent_id, tier, start);
    let rs2 = spec_start(rs, r);
    lemma_index_of_intent_range(rs, intent_id.0@, 0);
    lemma_index_of_intent_range(rs2, intent_id.0@, 0);
    match index_of_intent(rs, intent_id.0@, 0) {
        Some(k) => {
            assert forall|j: int| 0 <= j < rs.len() implies (#[trigger] rs2[j]).intent_id.0@ == rs[j].intent_id.0@ by {}
            lemma_same_ids_index(rs, rs2, intent_id.0@, 0);
        },
        None => {
            lemma_index_after_push(rs, r, intent_id.0@, 0);
        },
    }
}

proof fn lemma_same_ids_index(a: Seq<ObservationRecord>, b: Seq<ObservationRecord>, id: Seq<char>, i: int)
    requires
        a.len() == b.len(),
        forall|j: int| 0 <= j < a.len() ==> (#[trigger] b[j]).intent_id.0@ == a[j].intent_id.0@,
    ensures
        index_of_intent(a, id, i) == index_of_intent(b, id, i),
    decreases a.len() - i,
{
    if 0 <= i < a.len() && a[i].intent_id.0@ != id {
        lemma_same_ids_index(a, b, id, i + 1);
    }
}

proof fn lemma_index_after_push(rs: Seq<ObservationRecord>, r: ObservationRecord, id: Seq<char>, i: int)
    requires
        0 <= i <= rs.len(),
        r.intent_id.0@ == id,
        forall|j: int| i <= j < rs.len() ==> (#[trigger] rs[j]).intent_id.0@ != id,
    ensures
        index_of_intent(rs.push(r), id, i) == Some(rs.len() as int),
    decreases rs.len() - i,
{
    if i < rs.len() {
        lemma_index_after_push(rs, r, id, i + 1);
    }
}

} // verus!
