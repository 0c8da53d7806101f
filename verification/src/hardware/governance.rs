//! Governance of hardware generation. Generating hardware is a tier 4
//! (substrate change) or tier 5 (architectural change) operation and
//! always needs a review; a generation goes ahead only when approved.

use vstd::prelude::*;
use crate::hardware::epu::EpuSpec;
use crate::hardware::error::{HardwareError, HardwareResult};
use crate::hardware::types::spec_resources_text;
use crate::platform::now_millis;
use crate::text::{has_prefix, starts_with};

verus! {

/// Governance tier of a hardware operation.
#[derive(Clone, Copy, Debug, PartialEq, Eq, Structural)]
pub enum HardwareGovernanceTier {
    /// Tier 4: FPGA reconfiguration.
    Tier4SubstrateChange,
    /// Tier 5: a new EPU design.
    Tier5ArchitecturalChange,
}

/// Display form of a tier.
pub open spec fn spec_governance_tier_text(t: HardwareGovernanceTier) -> Seq<char> {
    match t {
        HardwareGovernanceTier::Tier4SubstrateChange => "Tier4:SubstrateChange"@,
        HardwareGovernanceTier::Tier5ArchitecturalChange => "Tier5:ArchitecturalChange"@,
    }
}

impl HardwareGovernanceTier {
    /// Renders the tier (`Tier4:SubstrateChange`, `Tier5:ArchitecturalChange`).
    pub fn to_string(&self) -> (s: String)
        ensures
            s@ == spec_governance_tier_text(*self),
    {
        match self {
            HardwareGovernanceTier::Tier4SubstrateChange => String::from_str("Tier4:SubstrateChange"),
            HardwareGovernanceTier::Tier5ArchitecturalChange => String::from_str("Tier5:ArchitecturalChange"),
        }
    }
}

/// Decision on a governance request.
#[derive(Debug, PartialEq, Eq)]
pub enum GovernanceDecision {
    Approved,
    PendingReview,
    Denied(String),
}

/// Display form of a decision.
pub open spec fn spec_decision_text(d: GovernanceDecision) -> Seq<char> {
    match d {
        GovernanceDecision::Approved => "approved"@,
        GovernanceDecision::PendingReview => "pending-review"@,
        GovernanceDecision::Denied(r) => "denied: "@ + r@,
    }
}

impl Clone for GovernanceDecision {
    fn clone(&self) -> (r: Self)
        ensures
            r == *self,
    {
        match self {
            GovernanceDecision::Approved => GovernanceDecision::Approved,
            GovernanceDecision::PendingReview => GovernanceDecision::PendingReview,
            GovernanceDecision::Denied(m) => GovernanceDecision::Denied(m.clone()),
        }
    }
}

impl GovernanceDecision {
    /// Renders the decision (`approved`, `pending-review`, `denied: <reason>`).
    pub fn to_string(&self) -> (s: String)
        ensures
            s@ == spec_decision_text(*self),
    {
        match self {
            GovernanceDecision::Approved => String::from_str("approved"),
            GovernanceDecision::PendingReview => String::from_str("pending-review"),
            GovernanceDecision::Denied(r) => {
                let mut s = String::from_str("denied: ");
                s.append(r.as_str());
                s
            },
        }
    }
}

/// A request for governance approval of a hardware generation.
#[derive(Debug)]
pub struct GovernanceRequest {
    pub tier: HardwareGovernanceTier,
    pub epu_name: String,
    pub description: String,
    pub resource_impact: String,
    pub rollback_plan: String,
}

impl Clone for GovernanceRequest {
    fn clone(&self) -> (r: Self)
        ensures
            r == *self,
    {
        GovernanceRequest {
            tier: self.tier,
            epu_name: self.epu_name.clone(),
            description: self.description.clone(),
            resource_impact: self.resource_impact.clone(),
            rollback_plan: self.rollback_plan.clone(),
        }
    }
}

/// Record of a governance review; the review time in milliseconds since
/// the Unix epoch.
#[derive(Debug)]
pub struct GovernanceRecord {
    pub request: GovernanceRequest,
    pub decision: GovernanceDecision,
    pub reviewer: String,
    pub reviewed_at: i64,
}

/// What a review reads of a request: tier, EPU name, description,
/// resource impact and rollback plan.
pub open spec fn request_view(r: GovernanceRequest)
    -> (HardwareGovernanceTier, Seq<char>, Seq<char>, Seq<char>, Seq<char>) {
    (r.tier, r.epu_name@, r.description@, r.resource_impact@, r.rollback_plan@)
}

/// Classifies and reviews hardware generation requests. An
/// implementation classifies each design into one tier, and decides each
/// request (or fails to review it) according to what the request says.
pub trait HardwareGovernance {
    /// The tier this governance gives a design.
    spec fn spec_tier(&self, spec: EpuSpec) -> HardwareGovernanceTier;

    /// The decision this governance takes on a request, or `None` when its
    /// review fails.
    spec fn spec_verdict(&self, request: (HardwareGovernanceTier, Seq<char>, Seq<char>, Seq<char>, Seq<char>))
        -> Option<GovernanceDecision>;

    /// The governance tier of a design.
    fn classify(&self, spec: &EpuSpec) -> (t: HardwareGovernanceTier)
        ensures
            t == self.spec_tier(*spec);

    /// Reviews a request: a record of the request with the decision, or an
    /// error when the review fails.
    fn review(&self, request: &GovernanceRequest) -> (r: HardwareResult<GovernanceRecord>)
        ensures
            match self.spec_verdict(request_view(*request)) {
                Some(d) => r matches Ok(rec) && rec.decision == d && request_view(rec.request) == request_view(*request),
                None => r is Err,
            };

    /// Name of the implementation.
    fn name(&self) -> &str;
}

/// Deterministic governance for simulation: designs of version `1.x` are
/// new (tier 5), others modifications (tier 4); requests are approved,
/// or in strict mode left pending review.
pub struct SimulatedHardwareGovernance {
    auto_approve: bool,
}

impl SimulatedHardwareGovernance {
    /// Whether requests are approved without review.
    pub closed spec fn approves(&self) -> bool {
        self.auto_approve
    }

    /// Governance that approves every request.
    pub fn new() -> (g: Self)
        ensures
            g.approves(),
    {
        SimulatedHardwareGovernance { auto_approve: true }
    }

    /// Governance that leaves every request pending review.
    pub fn strict() -> (g: Self)
        ensures
            !g.approves(),
    {
        SimulatedHardwareGovernance { auto_approve: false }
    }
}

impl Default for SimulatedHardwareGovernance {
    fn default() -> (g: Self)
        ensures
            g.approves(),
    {
        SimulatedHardwareGovernance { auto_approve: true }
    }
}

/// The tier of a design by its version: tier 5 for `1.x`, else tier 4.
pub open spec fn spec_classify(version: Seq<char>) -> HardwareGovernanceTier {
    if has_prefix(version, "1."@) {
        HardwareGovernanceTier::Tier5ArchitecturalChange
    } else {
        HardwareGovernanceTier::Tier4SubstrateChange
    }
}

impl HardwareGovernance for SimulatedHardwareGovernance {
    open spec fn spec_tier(&self, spec: EpuSpec) -> HardwareGovernanceTier {
        spec_classify(spec.version@)
    }

    open spec fn spec_verdict(&self, request: (HardwareGovernanceTier, Seq<char>, Seq<char>, Seq<char>, Seq<char>))
        -> Option<GovernanceDecision> {
        Some(if self.approves() { GovernanceDecision::Approved } else { GovernanceDecision::PendingReview })
    }

    fn classify(&self, spec: &EpuSpec) -> (t: HardwareGovernanceTier)
        ensures
            t == spec_classify(spec.version@),
    {
        if starts_with(spec.version.as_str(), "1.") {
            HardwareGovernanceTier::Tier5ArchitecturalChange
        } else {
            HardwareGovernanceTier::Tier4SubstrateChange
        }
    }

    fn review(&self, request: &GovernanceRequest) -> (r: HardwareResult<GovernanceRecord>)
        ensures
            r matches Ok(rec) && {
                &&& rec.request == *request
                &&& rec.decision == (if self.approves() { GovernanceDecision::Approved } else { GovernanceDecision::PendingReview })
                &&& rec.reviewer@ == "auto-approver"@
            },
    {
        let decision = if self.auto_approve { GovernanceDecision::Approved } else { GovernanceDecision::PendingReview };
        Ok(GovernanceRecord {
            request: request.clone(),
            decision,
            reviewer: String::from_str("auto-approver"),
            reviewed_at: now_millis(),
        })
    }

    fn name(&self) -> (s: &str)
        ensures
            s@ == "simulated-hardware-governance"@,
    {
        "simulated-hardware-governance"
    }
}

/// The request that governance receives for a design of tier `tier`.
pub open spec fn spec_governance_request(tier: HardwareGovernanceTier, spec: EpuSpec, r: GovernanceRequest) -> bool {
    &&& r.tier == tier
    &&& r.epu_name@ == spec.name@
    &&& r.description@ == "Hardware generation for EPU '"@ + spec.name@ + "'"@
    &&& r.resource_impact@ == spec_resources_text(spec.total_resources)
    &&& r.rollback_plan@ == "Revert to previous bitstream"@
}

/// What a review reads of the request for a design of tier `tier`.
pub open spec fn spec_request_of(tier: HardwareGovernanceTier, spec: EpuSpec)
    -> (HardwareGovernanceTier, Seq<char>, Seq<char>, Seq<char>, Seq<char>) {
    (tier, spec.name@, "Hardware generation for EPU '"@ + spec.name@ + "'"@, spec_resources_text(spec.total_resources),
        "Revert to previous bitstream"@)
}

/// Builds the governance request for a design of tier `tier`.
pub fn governance_request(tier: HardwareGovernanceTier, spec: &EpuSpec) -> (r: GovernanceRequest)
    ensures
        spec_governance_request(tier, *spec, r),
{
    let mut description = String::from_str("Hardware generation for EPU '");
    description.append(spec.name.as_str());
    description.append("'");
    GovernanceRequest {
        tier,
        epu_name: spec.name.clone(),
        description,
        resource_impact: spec.total_resources.to_string(),
        rollback_plan: String::from_str("Revert to previous bitstream"),
    }
}

/// Message of the error for a denied request.
pub open spec fn spec_denied_message(tier: HardwareGovernanceTier, reason: Seq<char>) -> Seq<char> {
    spec_governance_tier_text(tier) + " governance denied: "@ + reason
}

/// Message of the error for a request left pending review.
pub open spec fn spec_pending_message(tier: HardwareGovernanceTier, epu_name: Seq<char>) -> Seq<char> {
    spec_governance_tier_text(tier) + " governance pending human review for EPU '"@ + epu_name + "'"@
}

/// What a review decides for a design: an approved record is returned,
/// a denial or a pending review becomes a governance error.
pub fn governance_outcome(tier: HardwareGovernanceTier, epu_name: &String, record: GovernanceRecord)
    -> (r: HardwareResult<GovernanceRecord>)
    ensures
        match record.decision {
            GovernanceDecision::Approved => r == Ok::<GovernanceRecord, HardwareError>(record),
            GovernanceDecision::PendingReview => r matches Err(HardwareError::GovernanceRequired(m))
                && m@ == spec_pending_message(tier, epu_name@),
            GovernanceDecision::Denied(reason) => r matches Err(HardwareError::GovernanceRequired(m))
                && m@ == spec_denied_message(tier, reason@),
        },
{
    match &record.decision {
        GovernanceDecision::Denied(reason) => {
            let mut m = tier.to_string();
            m.append(" governance denied: ");
            m.append(reason.as_str());
            Err(HardwareError::GovernanceRequired(m))
        },
        GovernanceDecision::PendingReview => {
            let mut m = tier.to_string();
            m.append(" governance pending human review for EPU '");
            m.append(epu_name.as_str());
            m.append("'");
            Err(HardwareError::GovernanceRequired(m))
        },
        GovernanceDecision::Approved => Ok(record),
    }
}

/// Checks governance before a hardware generation: classifies the design,
/// submits its request for review, and returns the record only when
/// approved. An error of the review is passed on.
pub fn enforce_governance<G: HardwareGovernance>(governance: &G, spec: &EpuSpec) -> (r: HardwareResult<GovernanceRecord>)
    ensures
        match governance.spec_verdict(spec_request_of(governance.spec_tier(*spec), *spec)) {
            None => r is Err,
            Some(GovernanceDecision::Approved) => r matches Ok(rec) && rec.decision == GovernanceDecision::Approved
                && request_view(rec.request) == spec_request_of(governance.spec_tier(*spec), *spec),
            Some(GovernanceDecision::PendingReview) => r matches Err(HardwareError::GovernanceRequired(m))
                && m@ == spec_pending_message(governance.spec_tier(*spec), spec.name@),
            Some(GovernanceDecision::Denied(reason)) => r matches Err(HardwareError::GovernanceRequired(m))
                && m@ == spec_denied_message(governance.spec_tier(*spec), reason@),
        },
{
    let tier = governance.classify(spec);
    let request = governance_request(tier, spec);
    let record = governance.review(&request)?;
    governance_outcome(tier, &spec.name, record)
}

} // verus!
