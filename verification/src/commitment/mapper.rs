//! Translation of a self-regeneration intent's terms into those of a
//! commitment declaration: the effect domain of a change, the
//! reversibility the commitment gate understands, the capabilities a
//! change requires and the constraints its governance tier imposes.

use vstd::prelude::*;
use crate::intent::proposal::RegenerationProposal;
use crate::intent::types::{spec_min_observation_secs, spec_tier_name, ChangeType, ReversibilityLevel, SubstrateTier};
use crate::text::{decimal, decimal_string};

verus! {

/// Domain in which a commitment takes effect.
#[derive(Clone, Debug, PartialEq, Eq)]
pub enum EffectDomain {
    Infrastructure,
    DataMutation,
    Communication,
    Custom(String),
}

/// Reversibility of a commitment, with time windows in milliseconds.
#[derive(Clone, Debug)]
pub enum Reversibility {
    FullyReversible,
    Conditional { conditions: Vec<String> },
    TimeWindow { window_ms: u64 },
    Irreversible,
}

/// A capability a commitment requires.
#[derive(Clone, Debug, PartialEq, Eq)]
pub struct CapabilityId(pub String);

/// Maps a kind of change to the domain it affects: configuration,
/// operator and architectural changes touch infrastructure, kernel
/// changes mutate data, API changes concern communication, and DSL and
/// compilation changes have custom domains of their own.
pub fn map_effect_domain(change_type: &ChangeType) -> (d: EffectDomain)
    ensures
        match *change_type {
            ChangeType::ConfigurationChange { .. } => d is Infrastructure,
            ChangeType::OperatorModification { .. } => d is Infrastructure,
            ChangeType::NewOperator { .. } => d is Infrastructure,
            ChangeType::KernelModification { .. } => d is DataMutation,
            ChangeType::ApiModification { .. } => d is Communication,
            ChangeType::ArchitecturalChange { .. } => d is Infrastructure,
            ChangeType::DslGeneration { .. } => d matches EffectDomain::Custom(n) && n@ == "dsl-generation"@,
            ChangeType::CompilationStrategy { .. } => d matches EffectDomain::Custom(n) && n@ == "compilation"@,
        },
{
    match change_type {
        ChangeType::ConfigurationChange { .. } => EffectDomain::Infrastructure,
        ChangeType::OperatorModification { .. } => EffectDomain::Infrastructure,
        ChangeType::NewOperator { .. } => EffectDomain::Infrastructure,
        ChangeType::KernelModification { .. } => EffectDomain::DataMutation,
        ChangeType::ApiModification { .. } => EffectDomain::Communication,
        ChangeType::ArchitecturalChange { .. } => EffectDomain::Infrastructure,
        ChangeType::DslGeneration { .. } => EffectDomain::Custom(String::from_str("dsl-generation")),
        ChangeType::CompilationStrategy { .. } => EffectDomain::Custom(String::from_str("compilation")),
    }
}

fn copy_strings(v: &Vec<String>) -> (r: Vec<String>)
    ensures
        r@ == v@,
{
    let mut r: Vec<String> = Vec::new();
    let mut i: usize = 0;
    while i < v.len()
        invariant
            i <= v@.len(),
            r@ == v@.take(i as int),
        decreases v@.len() - i,
    {
        r.push(v[i].clone());
        proof {
            assert(r@ =~= v@.take(i as int + 1));
        }
        i = i + 1;
    }
    proof {
        assert(v@.take(v@.len() as int) =~= v@);
    }
    r
}

/// Maps a reversibility level to the commitment's reversibility; a time
/// window in seconds becomes one in milliseconds.
pub fn map_reversibility(level: &ReversibilityLevel) -> (r: Reversibility)
    requires
        level matches ReversibilityLevel::TimeWindowReversible { window_secs } ==> window_secs * 1000 <= u64::MAX,
    ensures
        match *level {
            ReversibilityLevel::FullyReversible => r is FullyReversible,
            ReversibilityLevel::ConditionallyReversible { conditions } => r matches Reversibility::Conditional {
                conditions: c } && c@ == conditions@,
            ReversibilityLevel::TimeWindowReversible { window_secs } => r matches Reversibility::TimeWindow {
                window_ms } && window_ms == window_secs * 1000,
            ReversibilityLevel::Irreversible => r is Irreversible,
        },
{
    match level {
        ReversibilityLevel::FullyReversible => Reversibility::FullyReversible,
        ReversibilityLevel::ConditionallyReversible { conditions } => Reversibility::Conditional {
            conditions: copy_strings(conditions),
        },
        ReversibilityLevel::TimeWindowReversible { window_secs } => Reversibility::TimeWindow {
            window_ms: window_secs * 1000,
        },
        ReversibilityLevel::Irreversible => Reversibility::Irreversible,
    }
}

/// The capability that a kind of change requires beyond the defaults.
pub open spec fn spec_change_capability(c: ChangeType) -> Seq<char> {
    match c {
        ChangeType::ConfigurationChange { .. } => "CAP-CONFIG-WRITE"@,
        ChangeType::OperatorModification { .. } => "CAP-OPERATOR-MODIFY"@,
        ChangeType::NewOperator { .. } => "CAP-OPERATOR-MODIFY"@,
        ChangeType::KernelModification { .. } => "CAP-KERNEL-MODIFY"@,
        ChangeType::ArchitecturalChange { .. } => "CAP-ARCHITECTURE-MODIFY"@,
        ChangeType::ApiModification { .. } => "CAP-API-MODIFY"@,
        ChangeType::DslGeneration { .. } => "CAP-DSL-GENERATE"@,
        ChangeType::CompilationStrategy { .. } => "CAP-COMPILATION-MODIFY"@,
    }
}

/// Views of a list of capabilities.
pub open spec fn capability_names(v: Seq<CapabilityId>) -> Seq<Seq<char>> {
    v.map_values(|c: CapabilityId| c.0@)
}

/// The constraints of a tier and proposal: the tier, its minimum
/// observation period, and which safeguards the proposal carries.
pub open spec fn spec_constraints(tier: SubstrateTier, has_rollback: bool, has_safety_checks: bool) -> Seq<Seq<char>> {
    seq!["governance_tier:"@ + spec_tier_name(tier),
        "min_observation_secs:"@ + decimal(spec_min_observation_secs(tier))]
        + (if has_rollback { seq!["rollback_plan:present"@] } else { Seq::empty() })
        + (if has_safety_checks { seq!["safety_checks:present"@] } else { Seq::empty() })
}

/// Maps intents of this worldline to commitment declarations.
pub struct DeclarationMapper {
    pub worldline_id: String,
    pub default_capabilities: Vec<CapabilityId>,
}

impl DeclarationMapper {
    /// A mapper for `worldline_id`, granting self-modification and
    /// configuration by default.
    pub fn new(worldline_id: String) -> (m: Self)
        ensures
            m.worldline_id == worldline_id,
            capability_names(m.default_capabilities@) == seq!["CAP-SELF-MODIFY"@, "CAP-CONFIG"@],
    {
        let caps = vec![
            CapabilityId(String::from_str("CAP-SELF-MODIFY")),
            CapabilityId(String::from_str("CAP-CONFIG")),
        ];
        proof {
            assert(capability_names(caps@) =~= seq!["CAP-SELF-MODIFY"@, "CAP-CONFIG"@]);
        }
        DeclarationMapper { worldline_id, default_capabilities: caps }
    }

    /// The capabilities a change requires: the defaults, then the one its
    /// kind calls for.
    pub fn capabilities_for_change(&self, change_type: &ChangeType) -> (caps: Vec<CapabilityId>)
        ensures
            capability_names(caps@) == capability_names(self.default_capabilities@).push(
                spec_change_capability(*change_type)),
    {
        let mut caps: Vec<CapabilityId> = Vec::new();
        let mut i: usize = 0;
        while i < self.default_capabilities.len()
            invariant
                i <= self.default_capabilities@.len(),
                caps@.len() == i,
                capability_names(caps@) == capability_names(self.default_capabilities@.take(i as int)),
            decreases self.default_capabilities@.len() - i,
        {
            let ghost before = caps@;
            let name = self.default_capabilities[i].0.clone();
            caps.push(CapabilityId(name));
            proof {
                let t = self.default_capabilities@.take(i as int + 1);
                assert(t.drop_last() =~= self.default_capabilities@.take(i as int));
                assert forall|k: int| 0 <= k < caps@.len() implies capability_names(caps@)[k] == capability_names(t)[k] by {
                    if k < i {
                        assert(caps@[k] == before[k]);
                        assert(capability_names(before)[k] == capability_names(t.drop_last())[k]);
                        assert(t[k] == t.drop_last()[k]);
                    }
                }
                assert(capability_names(caps@) =~= capability_names(t));
            }
            i = i + 1;
        }
        proof {
            assert(self.default_capabilities@.take(self.default_capabilities@.len() as int)
                =~= self.default_capabilities@);
        }
        let extra = match change_type {
            ChangeType::ConfigurationChange { .. } => "CAP-CONFIG-WRITE",
            ChangeType::OperatorModification { .. } | ChangeType::NewOperator { .. } => "CAP-OPERATOR-MODIFY",
            ChangeType::KernelModification { .. } => "CAP-KERNEL-MODIFY",
            ChangeType::ArchitecturalChange { .. } => "CAP-ARCHITECTURE-MODIFY",
            ChangeType::ApiModification { .. } => "CAP-API-MODIFY",
            ChangeType::DslGeneration { .. } => "CAP-DSL-GENERATE",
            ChangeType::CompilationStrategy { .. } => "CAP-COMPILATION-MODIFY",
        };
        let ghost before = caps@;
        caps.push(CapabilityId(String::from_str(extra)));
        proof {
            assert(capability_names(caps@) =~= capability_names(before).push(spec_change_capability(*change_type)));
        }
        caps
    }

    /// The constraints a commitment carries from the intent's governance
    /// tier and its proposal.
    pub fn build_constraints(&self, tier: SubstrateTier, proposal: &RegenerationProposal) -> (v: Vec<String>)
        ensures
            v@.map_values(|s: String| s@) == spec_constraints(tier, proposal.rollback_plan.steps@.len() > 0,
                proposal.safety_checks@.len() > 0),
    {
        let mut first = String::from_str("governance_tier:");
        first.append(tier.to_string().as_str());
        let mut second = String::from_str("min_observation_secs:");
        second.append(decimal_string(tier.min_observation_secs()).as_str());
        let mut v: Vec<String> = vec![first, second];
        let has_rollback = proposal.has_rollback();
        let has_safety_checks = proposal.has_safety_checks();
        if has_rollback {
            v.push(String::from_str("rollback_plan:present"));
        }
        if has_safety_checks {
            v.push(String::from_str("safety_checks:present"));
        }
        proof {
            assert(v@.map_values(|s: String| s@) =~= spec_constraints(tier, has_rollback, has_safety_checks));
        }
        v
    }
}

} // verus!
