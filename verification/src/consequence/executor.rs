//! Executing a proposal's changes.

use vstd::prelude::*;
use crate::consequence::error::{ConsequenceError, ConsequenceResult};
use crate::intent::proposal::RegenerationProposal;
use crate::text::decimal;
use crate::text::decimal_string;

verus! {

/// Result of executing a proposal.
#[derive(Clone, Debug)]
pub struct ExecutionResult {
    pub success: bool,
    pub tests_passed: usize,
    pub tests_failed: usize,
    pub output: String,
    pub duration_ms: i64,
}

/// Executes the code changes of a proposal. Each implementation says, by
/// `spec_execute_outcome`, which outcomes an execution of a proposal can
/// have.
pub trait ConsequenceExecutor {
    /// Whether `out` is a possible outcome of executing `proposal`.
    spec fn spec_execute_outcome(&self, proposal: RegenerationProposal, out: ConsequenceResult<ExecutionResult>) -> bool;

    /// Applies the proposal's changes and runs its tests.
    fn execute(&self, proposal: &RegenerationProposal) -> (r: ConsequenceResult<ExecutionResult>)
        ensures
            self.spec_execute_outcome(*proposal, r);

    /// Name of this executor.
    fn name(&self) -> &str;
}

/// An executor with a fixed outcome, for deterministic runs.
pub struct SimulatedExecutor {
    should_succeed: bool,
}

/// Output of a successful simulated execution.
pub open spec fn spec_simulated_output(summary: Seq<char>, changes: nat, tests: nat) -> Seq<char> {
    "Simulated execution of '"@ + summary + "': "@ + decimal(changes) + " changes applied, "@
        + decimal(tests) + " tests passed"@
}

/// Reason of a failed simulated execution: one test fails when there is any.
pub open spec fn spec_simulated_failure(summary: Seq<char>, tests: nat) -> Seq<char> {
    "Simulated failure of '"@ + summary + "': "@ + decimal(if tests > 0 { 1nat } else { 0nat }) + "/"@
        + decimal(tests) + " tests failed"@
}

impl SimulatedExecutor {
    /// An executor that always succeeds, or always fails.
    pub fn new(should_succeed: bool) -> (e: Self)
        ensures
            e.succeeds() == should_succeed,
    {
        SimulatedExecutor { should_succeed }
    }

    /// Whether this executor succeeds.
    pub closed spec fn succeeds(&self) -> bool {
        self.should_succeed
    }
}

/// The outcome of a simulated execution: a success runs every required
/// test in 100 ms, a failure is an `ExecutionFailed` error.
pub open spec fn spec_simulated_execution(succeeds: bool, proposal: RegenerationProposal,
    r: ConsequenceResult<ExecutionResult>) -> bool {
    &&& succeeds ==> (r matches Ok(x) && x.success && x.tests_passed == proposal.required_tests@.len()
        && x.tests_failed == 0 && x.duration_ms == 100
        && x.output@ == spec_simulated_output(proposal.summary@, proposal.code_changes@.len(),
            proposal.required_tests@.len()))
    &&& !succeeds ==> (r matches Err(ConsequenceError::ExecutionFailed(m))
        && m@ == spec_simulated_failure(proposal.summary@, proposal.required_tests@.len()))
}

impl ConsequenceExecutor for SimulatedExecutor {
    open spec fn spec_execute_outcome(&self, proposal: RegenerationProposal, out: ConsequenceResult<ExecutionResult>) -> bool {
        spec_simulated_execution(self.succeeds(), proposal, out)
    }

    /// Succeeding: every required test passes, in 100 ms. Failing: an
    /// `ExecutionFailed` error.
    fn execute(&self, proposal: &RegenerationProposal) -> (r: ConsequenceResult<ExecutionResult>)
        ensures
            spec_simulated_execution(self.succeeds(), *proposal, r),
    {
        let total_tests = proposal.required_tests.len();
        if self.should_succeed {
            let mut output = String::from_str("Simulated execution of '");
            output.append(proposal.summary.as_str());
            output.append("': ");
            output.append(decimal_string(proposal.code_changes.len() as u64).as_str());
            output.append(" changes applied, ");
            output.append(decimal_string(total_tests as u64).as_str());
            output.append(" tests passed");
            Ok(ExecutionResult { success: true, tests_passed: total_tests, tests_failed: 0, output, duration_ms: 100 })
        } else {
            let tests_failed: u64 = if total_tests > 0 { 1 } else { 0 };
            let mut m = String::from_str("Simulated failure of '");
            m.append(proposal.summary.as_str());
            m.append("': ");
            m.append(decimal_string(tests_failed).as_str());
            m.append("/");
            m.append(decimal_string(total_tests as u64).as_str());
            m.append(" tests failed");
            Err(ConsequenceError::ExecutionFailed(m))
        }
    }

    fn name(&self) -> (s: &str)
        ensures
            s@ == "simulated-executor"@,
    {
        "simulated-executor"
    }
}

} // verus!
