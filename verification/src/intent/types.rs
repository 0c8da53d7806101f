//! Identifiers and classification types of self-regeneration intents.

use vstd::prelude::*;
use crate::platform::fresh_uuid;
use crate::text::decimal;
use crate::text::decimal_string;

verus! {

/// Unique identifier of a self-regeneration intent.
#[derive(Clone, Debug, PartialEq, Eq, Hash)]
pub struct IntentId(pub String);

impl IntentId {
    /// A fresh random identifier.
    pub fn new() -> (id: Self)
        ensures
            id.0@.len() == 36,
    {
        IntentId(fresh_uuid())
    }

    /// Renders the identifier as `intent:<id>`.
    pub fn to_string(&self) -> (s: String)
        ensures
            s@ == "intent:"@ + self.0@,
    {
        let mut s = String::from_str("intent:");
        s.append(self.0.as_str());
        s
    }

    /// A copy of this identifier.
    pub fn duplicate(&self) -> (r: Self)
        ensures
            r == *self,
    {
        IntentId(self.0.clone())
    }
}

impl Default for IntentId {
    fn default() -> (id: Self)
        ensures
            id.0@.len() == 36,
    {
        Self::new()
    }
}

/// Unique identifier of a regeneration proposal.
#[derive(Clone, Debug, PartialEq, Eq, Hash)]
pub struct ProposalId(pub String);

impl ProposalId {
    /// A fresh random identifier.
    pub fn new() -> (id: Self)
        ensures
            id.0@.len() == 36,
    {
        ProposalId(fresh_uuid())
    }

    /// Renders the identifier as `proposal:<id>`.
    pub fn to_string(&self) -> (s: String)
        ensures
            s@ == "proposal:"@ + self.0@,
    {
        let mut s = String::from_str("proposal:");
        s.append(self.0.as_str());
        s
    }
}

impl Default for ProposalId {
    fn default() -> (id: Self)
        ensures
            id.0@.len() == 36,
    {
        Self::new()
    }
}

/// The kind of change an intent proposes.
#[derive(Clone, Debug)]
pub enum ChangeType {
    OperatorModification { operator_id: String, modification_scope: String },
    NewOperator { operator_name: String, description: String },
    KernelModification { module: String, modification_scope: String },
    ApiModification { api_component: String, breaking: bool, migration_plan: Option<String> },
    ConfigurationChange {
        parameter: String,
        current_value: String,
        proposed_value: String,
        rationale: String,
    },
    DslGeneration { domain: String, description: String },
    CompilationStrategy { current_strategy: String, proposed_changes: Vec<String> },
    ArchitecturalChange { description: String, affected_modules: Vec<String>, migration_plan: String },
}

/// Label of a change type.
pub open spec fn spec_change_label(c: ChangeType) -> Seq<char> {
    match c {
        ChangeType::OperatorModification { .. } => "operator-modification"@,
        ChangeType::NewOperator { .. } => "new-operator"@,
        ChangeType::KernelModification { .. } => "kernel-modification"@,
        ChangeType::ApiModification { .. } => "api-modification"@,
        ChangeType::ConfigurationChange { .. } => "configuration-change"@,
        ChangeType::DslGeneration { .. } => "dsl-generation"@,
        ChangeType::CompilationStrategy { .. } => "compilation-strategy"@,
        ChangeType::ArchitecturalChange { .. } => "architectural-change"@,
    }
}

impl ChangeType {
    /// Short label for this change type.
    pub fn label(&self) -> (s: &'static str)
        ensures
            s@ == spec_change_label(*self),
    {
        match self {
            ChangeType::OperatorModification { .. } => "operator-modification",
            ChangeType::NewOperator { .. } => "new-operator",
            ChangeType::KernelModification { .. } => "kernel-modification",
            ChangeType::ApiModification { .. } => "api-modification",
            ChangeType::ConfigurationChange { .. } => "configuration-change",
            ChangeType::DslGeneration { .. } => "dsl-generation",
            ChangeType::CompilationStrategy { .. } => "compilation-strategy",
            ChangeType::ArchitecturalChange { .. } => "architectural-change",
        }
    }

    /// Renders the change type by its label.
    pub fn to_string(&self) -> (s: String)
        ensures
            s@ == spec_change_label(*self),
    {
        String::from_str(self.label())
    }
}

/// The kind of a code change.
#[derive(Clone, Debug, PartialEq, Eq, Hash)]
pub enum CodeChangeType {
    CreateFile,
    ModifyFunction { function_name: String },
    ModifyStruct { struct_name: String },
    ModifyTrait { trait_name: String },
    AddImplementation { trait_name: String, struct_name: String },
    RefactorModule { module_name: String },
    DeleteCode { target: String },
}

/// Display form of a code change type.
pub open spec fn spec_code_change_text(c: CodeChangeType) -> Seq<char> {
    match c {
        CodeChangeType::CreateFile => "create-file"@,
        CodeChangeType::ModifyFunction { function_name } => "modify-fn:"@ + function_name@,
        CodeChangeType::ModifyStruct { struct_name } => "modify-struct:"@ + struct_name@,
        CodeChangeType::ModifyTrait { trait_name } => "modify-trait:"@ + trait_name@,
        CodeChangeType::AddImplementation { trait_name, struct_name } =>
            "impl:"@ + trait_name@ + ":"@ + struct_name@,
        CodeChangeType::RefactorModule { module_name } => "refactor:"@ + module_name@,
        CodeChangeType::DeleteCode { target } => "delete:"@ + target@,
    }
}

fn prefixed(prefix: &str, rest: &String) -> (s: String)
    ensures
        s@ == prefix@ + rest@,
{
    let mut s = String::from_str(prefix);
    s.append(rest.as_str());
    s
}

impl CodeChangeType {
    /// Renders the change (`create-file`, `modify-fn:<name>`, ...).
    pub fn to_string(&self) -> (s: String)
        ensures
            s@ == spec_code_change_text(*self),
    {
        match self {
            CodeChangeType::CreateFile => String::from_str("create-file"),
            CodeChangeType::ModifyFunction { function_name } => prefixed("modify-fn:", function_name),
            CodeChangeType::ModifyStruct { struct_name } => prefixed("modify-struct:", struct_name),
            CodeChangeType::ModifyTrait { trait_name } => prefixed("modify-trait:", trait_name),
            CodeChangeType::AddImplementation { trait_name, struct_name } => {
                let mut s = prefixed("impl:", trait_name);
                s.append(":");
                s.append(struct_name.as_str());
                s
            },
            CodeChangeType::RefactorModule { module_name } => prefixed("refactor:", module_name),
            CodeChangeType::DeleteCode { target } => prefixed("delete:", target),
        }
    }
}

/// Governance tier of a change, ordered from least to most critical.
#[derive(Clone, Copy, Debug, PartialEq, Eq, PartialOrd, Ord, Hash, Structural)]
pub enum SubstrateTier {
    Tier0,
    Tier1,
    Tier2,
    Tier3,
}

/// Rank of a tier, 0 to 3, in the order of the enumeration.
pub open spec fn tier_rank(t: SubstrateTier) -> nat {
    match t {
        SubstrateTier::Tier0 => 0,
        SubstrateTier::Tier1 => 1,
        SubstrateTier::Tier2 => 2,
        SubstrateTier::Tier3 => 3,
    }
}

/// Minimum observation period of a tier, in seconds.
pub open spec fn spec_min_observation_secs(t: SubstrateTier) -> nat {
    match t {
        SubstrateTier::Tier0 => 1800,
        SubstrateTier::Tier1 => 3600,
        SubstrateTier::Tier2 => 86400,
        SubstrateTier::Tier3 => 259200,
    }
}

/// Display name of a tier.
pub open spec fn spec_tier_name(t: SubstrateTier) -> Seq<char> {
    match t {
        SubstrateTier::Tier0 => "tier-0-config"@,
        SubstrateTier::Tier1 => "tier-1-operator"@,
        SubstrateTier::Tier2 => "tier-2-kernel"@,
        SubstrateTier::Tier3 => "tier-3-architecture"@,
    }
}

impl SubstrateTier {
    /// Minimum observation period before commitment: 30 minutes for tier 0,
    /// one hour for tier 1, 24 hours for tier 2, 72 hours for tier 3.
    pub fn min_observation_secs(&self) -> (n: u64)
        ensures
            n as nat == spec_min_observation_secs(*self),
    {
        match self {
            SubstrateTier::Tier0 => 1800,
            SubstrateTier::Tier1 => 3600,
            SubstrateTier::Tier2 => 86400,
            SubstrateTier::Tier3 => 259200,
        }
    }

    /// Rank of the tier, 0 to 3.
    pub fn rank(&self) -> (n: u8)
        ensures
            n as nat == tier_rank(*self),
    {
        match self {
            SubstrateTier::Tier0 => 0,
            SubstrateTier::Tier1 => 1,
            SubstrateTier::Tier2 => 2,
            SubstrateTier::Tier3 => 3,
        }
    }

    /// Renders the tier (`tier-0-config`, ...).
    pub fn to_string(&self) -> (s: String)
        ensures
            s@ == spec_tier_name(*self),
    {
        let t = match self {
            SubstrateTier::Tier0 => "tier-0-config",
            SubstrateTier::Tier1 => "tier-1-operator",
            SubstrateTier::Tier2 => "tier-2-kernel",
            SubstrateTier::Tier3 => "tier-3-architecture",
        };
        String::from_str(t)
    }
}

/// A more critical tier never asks for a shorter observation period.
pub proof fn law_observation_grows_with_tier(a: SubstrateTier, b: SubstrateTier)
    requires
        tier_rank(a) <= tier_rank(b),
    ensures
        spec_min_observation_secs(a) <= spec_min_observation_secs(b),
{
}

/// How far a change can be undone.
#[derive(Clone, Debug)]
pub enum ReversibilityLevel {
    FullyReversible,
    ConditionallyReversible { conditions: Vec<String> },
    TimeWindowReversible { window_secs: u64 },
    Irreversible,
}

/// Display form of a reversibility level.
pub open spec fn spec_reversibility_text(r: ReversibilityLevel) -> Seq<char> {
    match r {
        ReversibilityLevel::FullyReversible => "fully-reversible"@,
        ReversibilityLevel::ConditionallyReversible { .. } => "conditionally-reversible"@,
        ReversibilityLevel::TimeWindowReversible { window_secs } =>
            "time-window-"@ + decimal(window_secs as nat) + "s"@,
        ReversibilityLevel::Irreversible => "irreversible"@,
    }
}

impl ReversibilityLevel {
    /// Whether the change can be undone at all.
    pub fn is_reversible(&self) -> (b: bool)
        ensures
            b == !(*self is Irreversible),
    {
        match self {
            ReversibilityLevel::Irreversible => false,
            _ => true,
        }
    }

    /// Renders the level (`fully-reversible`, `time-window-<n>s`, ...).
    pub fn to_string(&self) -> (s: String)
        ensures
            s@ == spec_reversibility_text(*self),
    {
        match self {
            ReversibilityLevel::FullyReversible => String::from_str("fully-reversible"),
            ReversibilityLevel::ConditionallyReversible { .. } => String::from_str("conditionally-reversible"),
            ReversibilityLevel::TimeWindowReversible { window_secs } => {
                let mut s = String::from_str("time-window-");
                s.append(decimal_string(*window_secs).as_str());
                s.append("s");
                s
            },
            ReversibilityLevel::Irreversible => String::from_str("irreversible"),
        }
    }
}

/// A precondition that must hold before an intent is acted on.
#[derive(Clone, Debug)]
pub struct IntentPrecondition {
    pub description: String,
    pub satisfied: bool,
}

/// Lifecycle status of an intent.
#[derive(Clone, Debug)]
pub enum IntentStatus {
    Forming,
    Stabilized,
    Validated,
    Deferred(String),
    Abandoned(String),
}

/// Display form of an intent status.
pub open spec fn spec_intent_status_text(s: IntentStatus) -> Seq<char> {
    match s {
        IntentStatus::Forming => "forming"@,
        IntentStatus::Stabilized => "stabilized"@,
        IntentStatus::Validated => "validated"@,
        IntentStatus::Deferred(r) => "deferred: "@ + r@,
        IntentStatus::Abandoned(r) => "abandoned: "@ + r@,
    }
}

impl IntentStatus {
    /// Renders the status (`forming`, `deferred: <reason>`, ...).
    pub fn to_string(&self) -> (s: String)
        ensures
            s@ == spec_intent_status_text(*self),
    {
        match self {
            IntentStatus::Forming => String::from_str("forming"),
            IntentStatus::Stabilized => String::from_str("stabilized"),
            IntentStatus::Validated => String::from_str("validated"),
            IntentStatus::Deferred(r) => prefixed("deferred: ", r),
            IntentStatus::Abandoned(r) => prefixed("abandoned: ", r),
        }
    }
}

} // verus!
