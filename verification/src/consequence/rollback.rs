//! Undoing a failed execution.

use vstd::prelude::*;
use crate::consequence::error::{ConsequenceError, ConsequenceResult};
use crate::intent::proposal::RollbackPlan;

verus! {

/// Result of executing a rollback plan.
#[derive(Clone, Debug)]
pub struct RollbackResult {
    pub success: bool,
    pub steps_executed: usize,
    pub total_steps: usize,
    pub output: String,
}

/// Executes rollback plans. Each implementation says, by
/// `spec_rollback_outcome`, which outcomes running a plan can have.
pub trait RollbackExecutor {
    /// Whether `out` is a possible outcome of running `plan`.
    spec fn spec_rollback_outcome(&self, plan: RollbackPlan, out: ConsequenceResult<RollbackResult>) -> bool;

    /// Runs the steps of the plan.
    fn rollback(&self, plan: &RollbackPlan) -> (r: ConsequenceResult<RollbackResult>)
        ensures
            self.spec_rollback_outcome(*plan, r);

    /// Name of this rollback executor.
    fn name(&self) -> &str;
}

/// A rollback executor with a fixed outcome, for deterministic runs.
pub struct SimulatedRollbackExecutor {
    should_succeed: bool,
}

impl SimulatedRollbackExecutor {
    /// An executor whose rollbacks always succeed, or always fail.
    pub fn new(should_succeed: bool) -> (e: Self)
        ensures
            e.succeeds() == should_succeed,
    {
        SimulatedRollbackExecutor { should_succeed }
    }

    /// Whether its rollbacks succeed.
    pub closed spec fn succeeds(&self) -> bool {
        self.should_succeed
    }
}

/// The outcome of a simulated rollback: a success runs every step of the
/// plan, a failure is a `RollbackFailed` error.
pub open spec fn spec_simulated_rollback(succeeds: bool, plan: RollbackPlan, r: ConsequenceResult<RollbackResult>) -> bool {
    &&& succeeds ==> (r matches Ok(x) && x.success && x.steps_executed == plan.steps@.len()
        && x.total_steps == plan.steps@.len() && x.output@ == "rolled back"@)
    &&& !succeeds ==> (r matches Err(ConsequenceError::RollbackFailed(m)) && m@ == "simulated"@)
}

impl RollbackExecutor for SimulatedRollbackExecutor {
    open spec fn spec_rollback_outcome(&self, plan: RollbackPlan, out: ConsequenceResult<RollbackResult>) -> bool {
        spec_simulated_rollback(self.succeeds(), plan, out)
    }

    fn rollback(&self, plan: &RollbackPlan) -> (r: ConsequenceResult<RollbackResult>)
        ensures
            spec_simulated_rollback(self.succeeds(), *plan, r),
    {
        if self.should_succeed {
            Ok(RollbackResult {
                success: true,
                steps_executed: plan.steps.len(),
                total_steps: plan.steps.len(),
                output: String::from_str("rolled back"),
            })
        } else {
            Err(ConsequenceError::RollbackFailed(String::from_str("simulated")))
        }
    }

    fn name(&self) -> (s: &str)
        ensures
            s@ == "simulated-rollback-executor"@,
    {
        "simulated-rollback-executor"
    }
}

} // verus!
