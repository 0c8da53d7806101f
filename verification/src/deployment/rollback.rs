//! Rolling back a failed deployment.

use vstd::prelude::*;
use crate::deployment::error::DeploymentResult;
use crate::intent::proposal::{spec_rollback_strategy_variant, RollbackPlan, RollbackStrategy};
use crate::text::decimal;
use crate::text::decimal_string;

verus! {

/// Result of a rollback.
#[derive(Clone, Debug)]
pub struct DeploymentRollbackResult {
    pub success: bool,
    pub steps_executed: usize,
    pub total_steps: usize,
    pub strategy: RollbackStrategy,
    pub output: String,
    pub duration_ms: i64,
}

/// Executes rollbacks of deployed files. Each implementation says, by
/// `spec_rollback_outcome`, which outcomes a rollback of given files
/// following a given plan can have.
pub trait DeploymentRollbackExecutor {
    /// Whether `out` is a possible outcome of rolling back `files`
    /// following `plan`.
    spec fn spec_rollback_outcome(&self, plan: RollbackPlan, files: Seq<String>,
        out: DeploymentResult<DeploymentRollbackResult>) -> bool;

    /// Rolls back `deployed_files` following `plan`.
    fn rollback(&self, plan: &RollbackPlan, deployed_files: &[String]) -> (r: DeploymentResult<DeploymentRollbackResult>)
        ensures
            self.spec_rollback_outcome(*plan, deployed_files@, r);

    /// Name of the executor.
    fn name(&self) -> &str;
}

/// A rollback executor for simulation that always succeeds or always fails.
pub struct SimulatedRollback {
    should_succeed: bool,
}

impl SimulatedRollback {
    /// Whether its rollbacks succeed.
    pub closed spec fn succeeds(&self) -> bool {
        self.should_succeed
    }

    /// An executor whose rollbacks succeed.
    pub fn succeeding() -> (r: Self)
        ensures
            r.succeeds(),
    {
        SimulatedRollback { should_succeed: true }
    }

    /// An executor whose rollbacks fail.
    pub fn failing() -> (r: Self)
        ensures
            !r.succeeds(),
    {
        SimulatedRollback { should_succeed: false }
    }
}

/// The outcome of a simulated rollback of `files` following `plan`.
pub open spec fn spec_simulated_rollback(succeeds: bool, plan: RollbackPlan, files: Seq<String>,
    r: DeploymentResult<DeploymentRollbackResult>) -> bool {
    r matches Ok(res) && {
        &&& res.success == succeeds
        &&& res.total_steps == plan.steps@.len()
        &&& res.steps_executed == if succeeds { plan.steps@.len() } else { 0 }
        &&& res.strategy == plan.strategy
        &&& res.output@ == if succeeds {
                "Rolled back "@ + decimal(files.len()) + " files using "@
                    + spec_rollback_strategy_variant(plan.strategy)
            } else {
                "Simulated rollback failure"@
            }
        &&& res.duration_ms == if succeeds { 200i64 } else { 50i64 }
    }
}

impl DeploymentRollbackExecutor for SimulatedRollback {
    open spec fn spec_rollback_outcome(&self, plan: RollbackPlan, files: Seq<String>,
        out: DeploymentResult<DeploymentRollbackResult>) -> bool {
        spec_simulated_rollback(self.succeeds(), plan, files, out)
    }

    /// A success executes every step of the plan in 200 ms; a failure
    /// executes none, in 50 ms.
    fn rollback(&self, plan: &RollbackPlan, deployed_files: &[String]) -> (r: DeploymentResult<DeploymentRollbackResult>)
        ensures
            spec_simulated_rollback(self.succeeds(), *plan, deployed_files@, r),
    {
        let total_steps = plan.steps.len();
        let output = if self.should_succeed {
            let mut s = String::from_str("Rolled back ");
            s.append(decimal_string(deployed_files.len() as u64).as_str());
            s.append(" files using ");
            s.append(plan.strategy.variant_name());
            s
        } else {
            String::from_str("Simulated rollback failure")
        };
        Ok(DeploymentRollbackResult {
            success: self.should_succeed,
            steps_executed: if self.should_succeed { total_steps } else { 0 },
            total_steps,
            strategy: plan.strategy,
            output,
            duration_ms: if self.should_succeed { 200 } else { 50 },
        })
    }

    fn name(&self) -> (s: &str)
        ensures
            s@ == "simulated-rollback"@,
    {
        "simulated-rollback"
    }
}

} // verus!
