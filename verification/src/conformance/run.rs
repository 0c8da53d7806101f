//! A conformance run as a sequence of checks: the runner selects the
//! invariants, the caller performs each check the run asks for and hands
//! back its result, and the run stops early under fail-fast at the first
//! failure; what was not checked counts as skipped in the report.

use vstd::prelude::*;
use crate::conformance::error::{ConformanceError, ConformanceResult};
use crate::conformance::invariants::{category_for, ids_for_category, ids_in, spec_all_ids, spec_category_for};
use crate::conformance::report::{spec_category_reports, count_passed, ConformanceReport};
use crate::conformance::runner::{spec_resolve, views, ConformanceRunner};
use crate::conformance::types::{InvariantCategory, InvariantResult};

verus! {

/// A run over selected invariants.
pub struct ConformanceRun {
    ids: Vec<&'static str>,
    results: Vec<InvariantResult>,
    fail_fast: bool,
    stopped: bool,
}

impl ConformanceRun {
    /// The identifiers the run covers, in order.
    pub closed spec fn selected(&self) -> Seq<Seq<char>> {
        views(self.ids@)
    }

    /// The results so far, in order.
    pub closed spec fn results(&self) -> Seq<InvariantResult> {
        self.results@
    }

    /// Whether the run stops at the first failure.
    pub closed spec fn is_fail_fast(&self) -> bool {
        self.fail_fast
    }

    /// Whether the run stopped early.
    pub closed spec fn is_stopped(&self) -> bool {
        self.stopped
    }

    /// No more results than selected checks; the run stops only under
    /// fail-fast, right after a failure.
    pub closed spec fn wf(&self) -> bool {
        &&& self.results@.len() <= self.ids@.len()
        &&& self.stopped ==> self.fail_fast && self.results@.len() > 0 && !self.results@.last().passed
    }

    /// Whether the run has checks left to do.
    pub open spec fn spec_pending(&self) -> bool {
        !self.is_stopped() && self.results().len() < self.selected().len()
    }

    /// A run over `ids`.
    pub fn new(ids: Vec<&'static str>, fail_fast: bool) -> (r: Self)
        ensures
            r.wf(),
            r.selected() == views(ids@),
            r.results().len() == 0,
            r.is_fail_fast() == fail_fast,
            !r.is_stopped(),
    {
        ConformanceRun { ids, results: Vec::new(), fail_fast, stopped: false }
    }

    /// The identifier to check next, if any.
    pub fn next_check(&self) -> (r: Option<&'static str>)
        requires
            self.wf(),
        ensures
            r is Some <==> self.spec_pending(),
            r matches Some(id) ==> id@ == self.selected()[self.results().len() as int],
    {
        if self.stopped || self.results.len() >= self.ids.len() {
            None
        } else {
            Some(self.ids[self.results.len()])
        }
    }

    /// Records the result of the pending check; under fail-fast a failure
    /// stops the run.
    pub fn record(&mut self, result: InvariantResult)
        requires
            old(self).wf(),
            old(self).spec_pending(),
        ensures
            final(self).wf(),
            final(self).selected() == old(self).selected(),
            final(self).is_fail_fast() == old(self).is_fail_fast(),
            final(self).results() == old(self).results().push(result),
            final(self).is_stopped() == (old(self).is_fail_fast() && !result.passed),
    {
        let failed = !result.passed;
        self.results.push(result);
        if self.fail_fast && failed {
            self.stopped = true;
        }
    }

    /// The report of the run: its results, the checks not done counted as
    /// skipped.
    pub fn finish(self, started_at: i64, completed_at: i64) -> (r: ConformanceReport)
        requires
            self.wf(),
        ensures
            r.results@ == self.results(),
            spec_category_reports(self.results(), 7, r.categories@),
            r.summary.total == self.results().len(),
            r.summary.passed == count_passed(self.results()),
            r.summary.failed == self.results().len() - count_passed(self.results()),
            r.summary.skipped == self.selected().len() - self.results().len(),
            r.summary.started_at == started_at,
            r.summary.completed_at == completed_at,
            r.benchmarks is None,
    {
        let skipped = self.ids.len() - self.results.len();
        ConformanceReport::from_results(self.results, skipped, started_at, completed_at)
    }
}

/// Debug name of a category.
pub open spec fn spec_category_debug(c: InvariantCategory) -> Seq<char> {
    match c {
        InvariantCategory::Observation => "Observation"@,
        InvariantCategory::SelfModGate => "SelfModGate"@,
        InvariantCategory::Consequence => "Consequence"@,
        InvariantCategory::Compiler => "Compiler"@,
        InvariantCategory::Sal => "Sal"@,
        InvariantCategory::Bootstrap => "Bootstrap"@,
        InvariantCategory::Evos => "Evos"@,
    }
}

impl ConformanceRunner {
    /// A run over the invariants the configuration selects, with its
    /// fail-fast setting.
    pub fn start_run(&self) -> (r: ConformanceResult<ConformanceRun>)
        ensures
            match spec_resolve(self.configuration()) {
                Ok(ids) => r matches Ok(run) && run.wf() && run.selected() == ids && run.results().len() == 0
                    && !run.is_stopped() && run.is_fail_fast() == self.configuration().fail_fast,
                Err(m) => r matches Err(ConformanceError::InvalidConfiguration(e)) && e@ == m,
            },
    {
        match self.resolve_ids() {
            Ok(ids) => Ok(ConformanceRun::new(ids, self.config().fail_fast)),
            Err(e) => Err(e),
        }
    }

    /// A run over the invariants of one category, or an error when it has
    /// none.
    pub fn start_category_run(&self, category: InvariantCategory) -> (r: ConformanceResult<ConformanceRun>)
        ensures
            ids_in(spec_all_ids(), category).len() > 0 ==> (r matches Ok(run) && run.wf()
                && run.selected() == ids_in(spec_all_ids(), category) && run.results().len() == 0
                && !run.is_stopped() && run.is_fail_fast() == self.configuration().fail_fast),
            ids_in(spec_all_ids(), category).len() == 0 ==> (r matches Err(ConformanceError::InvalidConfiguration(e))
                && e@ == "no invariants found for category "@ + spec_category_debug(category)),
    {
        let ids = ids_for_category(category);
        if ids.len() == 0 {
            let mut m = String::from_str("no invariants found for category ");
            m.append(match category {
                InvariantCategory::Observation => "Observation",
                InvariantCategory::SelfModGate => "SelfModGate",
                InvariantCategory::Consequence => "Consequence",
                InvariantCategory::Compiler => "Compiler",
                InvariantCategory::Sal => "Sal",
                InvariantCategory::Bootstrap => "Bootstrap",
                InvariantCategory::Evos => "Evos",
            });
            return Err(ConformanceError::InvalidConfiguration(m));
        }
        proof {
            assert(views(ids@) =~= ids_in(spec_all_ids(), category));
        }
        Ok(ConformanceRun::new(ids, self.config().fail_fast))
    }

    /// Accepts a single identifier for checking when its prefix names a
    /// category, else an error naming it.
    pub fn validate_single(&self, id: &str) -> (r: ConformanceResult<()>)
        ensures
            spec_category_for(id@) is Some ==> r is Ok,
            spec_category_for(id@) is None ==> (r matches Err(ConformanceError::InvalidConfiguration(e))
                && e@ == "unknown invariant ID: "@ + id@),
    {
        if category_for(id).is_none() {
            let mut m = String::from_str("unknown invariant ID: ");
            m.append(id);
            return Err(ConformanceError::InvalidConfiguration(m));
        }
        Ok(())
    }
}

/// The result reported for an identifier that no check is registered for.
pub fn unknown_invariant_result(id: &str) -> (r: InvariantResult)
    ensures
        r.id.0@ == id@,
        r.category == InvariantCategory::Observation,
        r.name@ == "Unknown"@,
        !r.passed,
        r.description@ == "Unknown invariant ID"@,
        r.details matches Some(d) && d@ == "no check registered for '"@ + id@ + "'"@,
{
    let mut d = String::from_str("no check registered for '");
    d.append(id);
    d.append("'");
    InvariantResult::fail(id, InvariantCategory::Observation, "Unknown", "Unknown invariant ID", d.as_str())
}

/// A run accounts for every selected check: those checked plus those
/// skipped are all of them, and a run that is not fail-fast and has no
/// pending check has checked them all.
pub proof fn law_run_accounts_for_every_check(run: ConformanceRun)
    requires
        run.wf(),
    ensures
        run.results().len() + (run.selected().len() - run.results().len()) == run.selected().len(),
        run.results().len() <= run.selected().len(),
        !run.is_fail_fast() && !run.spec_pending() ==> run.results().len() == run.selected().len(),
        run.is_stopped() ==> run.results().len() > 0 && !run.results().last().passed,
{
}

} // verus!
