//! Parts of a regeneration proposal: required tests, safety checks and
//! rollback plans.

use vstd::prelude::*;
use crate::intent::types::{CodeChangeType, ProposalId};

verus! {

/// Kind of test a proposal requires.
#[derive(Clone, Copy, Debug, PartialEq, Eq, Structural)]
pub enum TestType {
    Unit,
    Integration,
    Performance,
    Safety,
}

/// Display name of a test type.
pub open spec fn spec_test_type_name(t: TestType) -> Seq<char> {
    match t {
        TestType::Unit => "unit"@,
        TestType::Integration => "integration"@,
        TestType::Performance => "performance"@,
        TestType::Safety => "safety"@,
    }
}

impl TestType {
    /// Renders the test type (`unit`, `integration`, ...).
    pub fn to_string(&self) -> (s: String)
        ensures
            s@ == spec_test_type_name(*self),
    {
        let t = match self {
            TestType::Unit => "unit",
            TestType::Integration => "integration",
            TestType::Performance => "performance",
            TestType::Safety => "safety",
        };
        String::from_str(t)
    }
}

/// A test a proposal requires.
#[derive(Clone, Debug)]
pub struct TestSpec {
    pub name: String,
    pub description: String,
    pub test_type: TestType,
}

/// A safety invariant a proposal must keep.
#[derive(Clone, Debug)]
pub struct SafetyCheck {
    pub invariant: String,
    pub description: String,
}

/// How a change is undone.
#[derive(Clone, Copy, Debug, PartialEq, Eq, Structural)]
pub enum RollbackStrategy {
    GitRevert,
    ConfigRestore,
    OperatorRollback,
    FullRedeploy,
}

/// Display name of a rollback strategy.
pub open spec fn spec_rollback_strategy_name(r: RollbackStrategy) -> Seq<char> {
    match r {
        RollbackStrategy::GitRevert => "git-revert"@,
        RollbackStrategy::ConfigRestore => "config-restore"@,
        RollbackStrategy::OperatorRollback => "operator-rollback"@,
        RollbackStrategy::FullRedeploy => "full-redeploy"@,
    }
}

/// Debug name of a rollback strategy (its variant name).
pub open spec fn spec_rollback_strategy_variant(r: RollbackStrategy) -> Seq<char> {
    match r {
        RollbackStrategy::GitRevert => "GitRevert"@,
        RollbackStrategy::ConfigRestore => "ConfigRestore"@,
        RollbackStrategy::OperatorRollback => "OperatorRollback"@,
        RollbackStrategy::FullRedeploy => "FullRedeploy"@,
    }
}

impl RollbackStrategy {
    /// Renders the strategy (`git-revert`, ...).
    pub fn to_string(&self) -> (s: String)
        ensures
            s@ == spec_rollback_strategy_name(*self),
    {
        let t = match self {
            RollbackStrategy::GitRevert => "git-revert",
            RollbackStrategy::ConfigRestore => "config-restore",
            RollbackStrategy::OperatorRollback => "operator-rollback",
            RollbackStrategy::FullRedeploy => "full-redeploy",
        };
        String::from_str(t)
    }

    /// The variant name of the strategy (`GitRevert`, ...), as `Debug` prints it.
    pub fn variant_name(&self) -> (s: &'static str)
        ensures
            s@ == spec_rollback_strategy_variant(*self),
    {
        match self {
            RollbackStrategy::GitRevert => "GitRevert",
            RollbackStrategy::ConfigRestore => "ConfigRestore",
            RollbackStrategy::OperatorRollback => "OperatorRollback",
            RollbackStrategy::FullRedeploy => "FullRedeploy",
        }
    }
}

/// Plan for undoing a change.
#[derive(Clone, Debug)]
pub struct RollbackPlan {
    pub strategy: RollbackStrategy,
    pub steps: Vec<String>,
    pub estimated_duration_secs: u64,
}

impl RollbackPlan {
    /// Whether the plan has any step (a proposal "has a rollback" exactly then).
    pub fn has_steps(&self) -> (b: bool)
        ensures
            b == (self.steps@.len() > 0),
    {
        self.steps.len() > 0
    }
}

/// One code change of a proposal. Provenance lists the identifiers of the
/// meanings the change derives from.
#[derive(Clone, Debug)]
pub struct CodeChangeSpec {
    pub file_path: String,
    pub change_type: CodeChangeType,
    pub description: String,
    pub affected_regions: Vec<String>,
    pub provenance: Vec<String>,
}

/// A concrete proposal for a self-modification: what changes, which
/// tests and safety checks it requires, and how to undo it.
#[derive(Clone, Debug)]
pub struct RegenerationProposal {
    pub id: ProposalId,
    pub summary: String,
    pub rationale: String,
    pub affected_components: Vec<String>,
    pub code_changes: Vec<CodeChangeSpec>,
    pub required_tests: Vec<TestSpec>,
    pub safety_checks: Vec<SafetyCheck>,
    pub rollback_plan: RollbackPlan,
}

impl RegenerationProposal {
    /// Whether the proposal can be rolled back: its plan has a step.
    pub fn has_rollback(&self) -> (b: bool)
        ensures
            b == (self.rollback_plan.steps@.len() > 0),
    {
        self.rollback_plan.steps.len() > 0
    }

    /// Number of code changes.
    pub fn change_count(&self) -> (n: usize)
        ensures
            n == self.code_changes@.len(),
    {
        self.code_changes.len()
    }

    /// Whether the proposal has any safety check.
    pub fn has_safety_checks(&self) -> (b: bool)
        ensures
            b == (self.safety_checks@.len() > 0),
    {
        self.safety_checks.len() > 0
    }
}

} // verus!
