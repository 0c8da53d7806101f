//! Core types of the EVOS layer: identifiers, the fourteen subsystems,
//! subsystem status, cycle phases, configuration and summary statistics.

use vstd::prelude::*;
use crate::platform::fresh_uuid;
use crate::text::decimal;
use crate::text::decimal_string;

verus! {

// ── Identifiers ─────────────────────────────────────────────────────

/// Unique identifier of an EVOS substrate instance.
#[derive(Clone, Debug, PartialEq, Eq, Hash)]
pub struct EvosId(pub String);

impl EvosId {
    /// A fresh random identifier.
    pub fn new() -> (id: Self)
        ensures
            id.0@.len() == 36,
    {
        EvosId(fresh_uuid())
    }

    /// Renders the identifier as `evos:<id>`.
    pub fn to_string(&self) -> (s: String)
        ensures
            s@ == "evos:"@ + self.0@,
    {
        let mut s = String::from_str("evos:");
        s.append(self.0.as_str());
        s
    }
}

impl Default for EvosId {
    fn default() -> (id: Self)
        ensures
            id.0@.len() == 36,
    {
        Self::new()
    }
}

/// Unique identifier of one cycle execution.
#[derive(Clone, Debug, PartialEq, Eq, Hash)]
pub struct CycleId(pub String);

impl CycleId {
    /// A fresh random identifier.
    pub fn new() -> (id: Self)
        ensures
            id.0@.len() == 36,
    {
        CycleId(fresh_uuid())
    }

    /// Renders the identifier as `cycle:<id>`.
    pub fn to_string(&self) -> (s: String)
        ensures
            s@ == "cycle:"@ + self.0@,
    {
        let mut s = String::from_str("cycle:");
        s.append(self.0.as_str());
        s
    }
}

impl Default for CycleId {
    fn default() -> (id: Self)
        ensures
            id.0@.len() == 36,
    {
        Self::new()
    }
}

// ── Subsystems ──────────────────────────────────────────────────────

/// One of the fourteen WorldLine subsystems.
#[derive(Clone, Copy, Debug, PartialEq, Eq, Hash, Structural)]
pub enum SubsystemId {
    Observation,
    Meaning,
    Intent,
    Commitment,
    Consequence,
    SelfModGate,
    Codegen,
    Deployment,
    Ir,
    Compiler,
    LangGen,
    Sal,
    Hardware,
    Bootstrap,
}

/// The fourteen subsystems in canonical order.
pub open spec fn all_subsystems() -> Seq<SubsystemId> {
    seq![
        SubsystemId::Observation,
        SubsystemId::Meaning,
        SubsystemId::Intent,
        SubsystemId::Commitment,
        SubsystemId::Consequence,
        SubsystemId::SelfModGate,
        SubsystemId::Codegen,
        SubsystemId::Deployment,
        SubsystemId::Ir,
        SubsystemId::Compiler,
        SubsystemId::LangGen,
        SubsystemId::Sal,
        SubsystemId::Hardware,
        SubsystemId::Bootstrap,
    ]
}

/// Position of a subsystem in the canonical order.
pub open spec fn subsystem_index(s: SubsystemId) -> int {
    match s {
        SubsystemId::Observation => 0,
        SubsystemId::Meaning => 1,
        SubsystemId::Intent => 2,
        SubsystemId::Commitment => 3,
        SubsystemId::Consequence => 4,
        SubsystemId::SelfModGate => 5,
        SubsystemId::Codegen => 6,
        SubsystemId::Deployment => 7,
        SubsystemId::Ir => 8,
        SubsystemId::Compiler => 9,
        SubsystemId::LangGen => 10,
        SubsystemId::Sal => 11,
        SubsystemId::Hardware => 12,
        SubsystemId::Bootstrap => 13,
    }
}

/// Crate name of a subsystem.
pub open spec fn spec_crate_name(s: SubsystemId) -> Seq<char> {
    match s {
        SubsystemId::Observation => "maple-worldline-observation"@,
        SubsystemId::Meaning => "maple-worldline-meaning"@,
        SubsystemId::Intent => "maple-worldline-intent"@,
        SubsystemId::Commitment => "maple-worldline-commitment"@,
        SubsystemId::Consequence => "maple-worldline-consequence"@,
        SubsystemId::SelfModGate => "maple-worldline-self-mod-gate"@,
        SubsystemId::Codegen => "maple-worldline-codegen"@,
        SubsystemId::Deployment => "maple-worldline-deployment"@,
        SubsystemId::Ir => "maple-worldline-ir"@,
        SubsystemId::Compiler => "maple-worldline-compiler"@,
        SubsystemId::LangGen => "maple-worldline-langgen"@,
        SubsystemId::Sal => "maple-worldline-sal"@,
        SubsystemId::Hardware => "maple-worldline-hardware"@,
        SubsystemId::Bootstrap => "maple-worldline-bootstrap"@,
    }
}

/// Short display name of a subsystem.
pub open spec fn spec_subsystem_name(s: SubsystemId) -> Seq<char> {
    match s {
        SubsystemId::Observation => "observation"@,
        SubsystemId::Meaning => "meaning"@,
        SubsystemId::Intent => "intent"@,
        SubsystemId::Commitment => "commitment"@,
        SubsystemId::Consequence => "consequence"@,
        SubsystemId::SelfModGate => "self-mod-gate"@,
        SubsystemId::Codegen => "codegen"@,
        SubsystemId::Deployment => "deployment"@,
        SubsystemId::Ir => "ir"@,
        SubsystemId::Compiler => "compiler"@,
        SubsystemId::LangGen => "langgen"@,
        SubsystemId::Sal => "sal"@,
        SubsystemId::Hardware => "hardware"@,
        SubsystemId::Bootstrap => "bootstrap"@,
    }
}

impl SubsystemId {
    /// All fourteen subsystems in canonical order.
    pub fn all() -> (v: Vec<SubsystemId>)
        ensures
            v@ == all_subsystems(),
    {
        let v = vec![
            SubsystemId::Observation,
            SubsystemId::Meaning,
            SubsystemId::Intent,
            SubsystemId::Commitment,
            SubsystemId::Consequence,
            SubsystemId::SelfModGate,
            SubsystemId::Codegen,
            SubsystemId::Deployment,
            SubsystemId::Ir,
            SubsystemId::Compiler,
            SubsystemId::LangGen,
            SubsystemId::Sal,
            SubsystemId::Hardware,
            SubsystemId::Bootstrap,
        ];
        assert(v@ =~= all_subsystems());
        v
    }

    /// Crate name of this subsystem.
    pub fn crate_name(&self) -> (s: &'static str)
        ensures
            s@ == spec_crate_name(*self),
    {
        match self {
            SubsystemId::Observation => "maple-worldline-observation",
            SubsystemId::Meaning => "maple-worldline-meaning",
            SubsystemId::Intent => "maple-worldline-intent",
            SubsystemId::Commitment => "maple-worldline-commitment",
            SubsystemId::Consequence => "maple-worldline-consequence",
            SubsystemId::SelfModGate => "maple-worldline-self-mod-gate",
            SubsystemId::Codegen => "maple-worldline-codegen",
            SubsystemId::Deployment => "maple-worldline-deployment",
            SubsystemId::Ir => "maple-worldline-ir",
            SubsystemId::Compiler => "maple-worldline-compiler",
            SubsystemId::LangGen => "maple-worldline-langgen",
            SubsystemId::Sal => "maple-worldline-sal",
            SubsystemId::Hardware => "maple-worldline-hardware",
            SubsystemId::Bootstrap => "maple-worldline-bootstrap",
        }
    }

    /// Short name of this subsystem, as displayed.
    pub fn name_str(&self) -> (s: &'static str)
        ensures
            s@ == spec_subsystem_name(*self),
    {
        match self {
            SubsystemId::Observation => "observation",
            SubsystemId::Meaning => "meaning",
            SubsystemId::Intent => "intent",
            SubsystemId::Commitment => "commitment",
            SubsystemId::Consequence => "consequence",
            SubsystemId::SelfModGate => "self-mod-gate",
            SubsystemId::Codegen => "codegen",
            SubsystemId::Deployment => "deployment",
            SubsystemId::Ir => "ir",
            SubsystemId::Compiler => "compiler",
            SubsystemId::LangGen => "langgen",
            SubsystemId::Sal => "sal",
            SubsystemId::Hardware => "hardware",
            SubsystemId::Bootstrap => "bootstrap",
        }
    }

    /// Renders the subsystem by its short name.
    pub fn to_string(&self) -> (s: String)
        ensures
            s@ == spec_subsystem_name(*self),
    {
        String::from_str(self.name_str())
    }
}

// ── Subsystem status ────────────────────────────────────────────────

/// Health status of a subsystem.
#[derive(Debug, PartialEq, Eq)]
pub enum SubsystemStatus {
    /// Operating normally.
    Healthy,
    /// Operational but experiencing issues.
    Degraded(String),
    /// Failed.
    Failed(String),
    /// Status unknown.
    Unknown,
}

impl Clone for SubsystemStatus {
    fn clone(&self) -> (r: Self)
        ensures
            r == *self,
    {
        match self {
            SubsystemStatus::Healthy => SubsystemStatus::Healthy,
            SubsystemStatus::Degraded(m) => SubsystemStatus::Degraded(m.clone()),
            SubsystemStatus::Failed(m) => SubsystemStatus::Failed(m.clone()),
            SubsystemStatus::Unknown => SubsystemStatus::Unknown,
        }
    }
}

/// Severity of a status: Healthy 0, Unknown 1, Degraded 2, Failed 3.
pub open spec fn spec_severity(s: SubsystemStatus) -> nat {
    match s {
        SubsystemStatus::Healthy => 0,
        SubsystemStatus::Unknown => 1,
        SubsystemStatus::Degraded(_) => 2,
        SubsystemStatus::Failed(_) => 3,
    }
}

/// Whether a status lets a cycle proceed: Healthy or Degraded.
pub open spec fn spec_allows_progression(s: SubsystemStatus) -> bool {
    s is Healthy || s is Degraded
}

/// Display form of a status.
pub open spec fn spec_status_text(s: SubsystemStatus) -> Seq<char> {
    match s {
        SubsystemStatus::Healthy => "healthy"@,
        SubsystemStatus::Degraded(m) => "degraded: "@ + m@,
        SubsystemStatus::Failed(m) => "failed: "@ + m@,
        SubsystemStatus::Unknown => "unknown"@,
    }
}

impl SubsystemStatus {
    /// Whether this status is `Healthy`.
    pub fn is_healthy(&self) -> (b: bool)
        ensures
            b == (*self is Healthy),
    {
        match self {
            SubsystemStatus::Healthy => true,
            _ => false,
        }
    }

    /// Whether this status allows cycle progression.
    pub fn allows_progression(&self) -> (b: bool)
        ensures
            b == spec_allows_progression(*self),
    {
        match self {
            SubsystemStatus::Healthy => true,
            SubsystemStatus::Degraded(_) => true,
            _ => false,
        }
    }

    /// Severity ordinal (0 = Healthy, 1 = Unknown, 2 = Degraded, 3 = Failed).
    pub fn severity(&self) -> (n: u8)
        ensures
            n as nat == spec_severity(*self),
    {
        match self {
            SubsystemStatus::Healthy => 0,
            SubsystemStatus::Unknown => 1,
            SubsystemStatus::Degraded(_) => 2,
            SubsystemStatus::Failed(_) => 3,
        }
    }

    /// Renders the status (`healthy`, `degraded: <msg>`, ...).
    pub fn to_string(&self) -> (s: String)
        ensures
            s@ == spec_status_text(*self),
    {
        match self {
            SubsystemStatus::Healthy => String::from_str("healthy"),
            SubsystemStatus::Degraded(m) => {
                let mut s = String::from_str("degraded: ");
                s.append(m.as_str());
                s
            },
            SubsystemStatus::Failed(m) => {
                let mut s = String::from_str("failed: ");
                s.append(m.as_str());
                s
            },
            SubsystemStatus::Unknown => String::from_str("unknown"),
        }
    }
}

// ── Cycle phases ────────────────────────────────────────────────────

/// The phases of one EVOS cycle, in order.
#[derive(Clone, Copy, Debug, PartialEq, Eq, Hash, Structural)]
pub enum CyclePhase {
    Observing,
    Analyzing,
    Forming,
    Committing,
    Executing,
    Generating,
    Deploying,
    Complete,
}

/// Ordinal of a phase, 0 to 7.
pub open spec fn spec_ordinal(p: CyclePhase) -> nat {
    match p {
        CyclePhase::Observing => 0,
        CyclePhase::Analyzing => 1,
        CyclePhase::Forming => 2,
        CyclePhase::Committing => 3,
        CyclePhase::Executing => 4,
        CyclePhase::Generating => 5,
        CyclePhase::Deploying => 6,
        CyclePhase::Complete => 7,
    }
}

/// The phase with a given ordinal, if any.
pub open spec fn spec_from_ordinal(n: nat) -> Option<CyclePhase> {
    if n == 0 { Some(CyclePhase::Observing) }
    else if n == 1 { Some(CyclePhase::Analyzing) }
    else if n == 2 { Some(CyclePhase::Forming) }
    else if n == 3 { Some(CyclePhase::Committing) }
    else if n == 4 { Some(CyclePhase::Executing) }
    else if n == 5 { Some(CyclePhase::Generating) }
    else if n == 6 { Some(CyclePhase::Deploying) }
    else if n == 7 { Some(CyclePhase::Complete) }
    else { None }
}

/// The subsystem responsible for a phase.
pub open spec fn spec_primary_subsystem(p: CyclePhase) -> SubsystemId {
    match p {
        CyclePhase::Observing => SubsystemId::Observation,
        CyclePhase::Analyzing => SubsystemId::Meaning,
        CyclePhase::Forming => SubsystemId::Intent,
        CyclePhase::Committing => SubsystemId::Commitment,
        CyclePhase::Executing => SubsystemId::Consequence,
        CyclePhase::Generating => SubsystemId::Codegen,
        CyclePhase::Deploying => SubsystemId::Deployment,
        CyclePhase::Complete => SubsystemId::Observation,
    }
}

/// Display name of a phase.
pub open spec fn spec_phase_name(p: CyclePhase) -> Seq<char> {
    match p {
        CyclePhase::Observing => "observing"@,
        CyclePhase::Analyzing => "analyzing"@,
        CyclePhase::Forming => "forming"@,
        CyclePhase::Committing => "committing"@,
        CyclePhase::Executing => "executing"@,
        CyclePhase::Generating => "generating"@,
        CyclePhase::Deploying => "deploying"@,
        CyclePhase::Complete => "complete"@,
    }
}

impl CyclePhase {
    /// Ordinal value (0 to 7).
    pub fn ordinal(&self) -> (n: u8)
        ensures
            n as nat == spec_ordinal(*self),
    {
        match self {
            CyclePhase::Observing => 0,
            CyclePhase::Analyzing => 1,
            CyclePhase::Forming => 2,
            CyclePhase::Committing => 3,
            CyclePhase::Executing => 4,
            CyclePhase::Generating => 5,
            CyclePhase::Deploying => 6,
            CyclePhase::Complete => 7,
        }
    }

    /// The phase with the given ordinal, or `None` above 7.
    pub fn from_ordinal(ordinal: u8) -> (p: Option<CyclePhase>)
        ensures
            p == spec_from_ordinal(ordinal as nat),
    {
        match ordinal {
            0 => Some(CyclePhase::Observing),
            1 => Some(CyclePhase::Analyzing),
            2 => Some(CyclePhase::Forming),
            3 => Some(CyclePhase::Committing),
            4 => Some(CyclePhase::Executing),
            5 => Some(CyclePhase::Generating),
            6 => Some(CyclePhase::Deploying),
            7 => Some(CyclePhase::Complete),
            _ => None,
        }
    }

    /// The following phase, or `None` after `Complete`.
    pub fn next(&self) -> (p: Option<CyclePhase>)
        ensures
            p == spec_from_ordinal(spec_ordinal(*self) + 1),
    {
        Self::from_ordinal(self.ordinal() + 1)
    }

    /// Whether this is the terminal phase.
    pub fn is_complete(&self) -> (b: bool)
        ensures
            b == (*self == CyclePhase::Complete),
    {
        *self == CyclePhase::Complete
    }

    /// The subsystem primarily responsible for this phase.
    pub fn primary_subsystem(&self) -> (s: SubsystemId)
        ensures
            s == spec_primary_subsystem(*self),
    {
        match self {
            CyclePhase::Observing => SubsystemId::Observation,
            CyclePhase::Analyzing => SubsystemId::Meaning,
            CyclePhase::Forming => SubsystemId::Intent,
            CyclePhase::Committing => SubsystemId::Commitment,
            CyclePhase::Executing => SubsystemId::Consequence,
            CyclePhase::Generating => SubsystemId::Codegen,
            CyclePhase::Deploying => SubsystemId::Deployment,
            CyclePhase::Complete => SubsystemId::Observation,
        }
    }

    /// Renders the phase by its name.
    pub fn to_string(&self) -> (s: String)
        ensures
            s@ == spec_phase_name(*self),
    {
        let t = match self {
            CyclePhase::Observing => "observing",
            CyclePhase::Analyzing => "analyzing",
            CyclePhase::Forming => "forming",
            CyclePhase::Committing => "committing",
            CyclePhase::Executing => "executing",
            CyclePhase::Generating => "generating",
            CyclePhase::Deploying => "deploying",
            CyclePhase::Complete => "complete",
        };
        String::from_str(t)
    }
}

/// Converting a phase to its ordinal and back gives the phase again.
pub proof fn law_ordinal_round_trip(p: CyclePhase)
    ensures
        spec_from_ordinal(spec_ordinal(p)) == Some(p),
        spec_ordinal(p) < 8,
{
}

/// Every ordinal below 8 names a phase, and that phase has this ordinal;
/// no larger ordinal names a phase.
pub proof fn law_from_ordinal_inverse(n: nat)
    ensures
        n < 8 ==> (spec_from_ordinal(n) matches Some(p) && spec_ordinal(p) == n),
        n >= 8 ==> spec_from_ordinal(n) is None,
{
}

/// Phases follow one another in order: the successor of a phase has the
/// next ordinal, and only `Complete` has no successor.
pub proof fn law_next_advances(p: CyclePhase)
    ensures
        p != CyclePhase::Complete ==> (spec_from_ordinal(spec_ordinal(p) + 1) matches Some(q)
            && spec_ordinal(q) == spec_ordinal(p) + 1),
        p == CyclePhase::Complete <==> spec_from_ordinal(spec_ordinal(p) + 1) is None,
{
}

// ── Configuration ───────────────────────────────────────────────────

/// Configuration of the EVOS layer.
#[derive(Clone, Debug)]
pub struct EvosConfig {
    /// Whether every subsystem must allow progression before a cycle starts.
    pub require_healthy_start: bool,
    /// Whether a cycle aborts at the first failed phase.
    pub abort_on_failure: bool,
    /// Maximum number of cycle records kept.
    pub max_tracked_records: usize,
    /// Maximum cycle duration in milliseconds.
    pub max_cycle_duration_ms: u64,
}

impl Default for EvosConfig {
    fn default() -> (c: Self)
        ensures
            c.require_healthy_start,
            c.abort_on_failure,
            c.max_tracked_records == 256,
            c.max_cycle_duration_ms == 60_000,
    {
        EvosConfig {
            require_healthy_start: true,
            abort_on_failure: true,
            max_tracked_records: 256,
            max_cycle_duration_ms: 60_000,
        }
    }
}

// ── Summary ─────────────────────────────────────────────────────────

/// Summary of EVOS activity.
#[derive(Clone, Debug)]
pub struct EvosSummary {
    pub total_cycles: usize,
    pub successful_cycles: usize,
    pub failed_cycles: usize,
    pub total_steps_executed: usize,
    pub current_bootstrap_phase: u8,
}

impl Default for EvosSummary {
    fn default() -> (s: Self)
        ensures
            s.total_cycles == 0,
            s.successful_cycles == 0,
            s.failed_cycles == 0,
            s.total_steps_executed == 0,
            s.current_bootstrap_phase == 0,
    {
        EvosSummary {
            total_cycles: 0,
            successful_cycles: 0,
            failed_cycles: 0,
            total_steps_executed: 0,
            current_bootstrap_phase: 0,
        }
    }
}

impl EvosSummary {
    /// Renders the summary as
    /// `EVOS(cycles=.., success=.., failed=.., steps=.., bootstrap=phase..)`.
    pub fn to_string(&self) -> (s: String)
        ensures
            s@ == "EVOS(cycles="@ + decimal(self.total_cycles as nat)
                + ", success="@ + decimal(self.successful_cycles as nat)
                + ", failed="@ + decimal(self.failed_cycles as nat)
                + ", steps="@ + decimal(self.total_steps_executed as nat)
                + ", bootstrap=phase"@ + decimal(self.current_bootstrap_phase as nat)
                + ")"@,
    {
        let mut s = String::from_str("EVOS(cycles=");
        s.append(decimal_string(self.total_cycles as u64).as_str());
        s.append(", success=");
        s.append(decimal_string(self.successful_cycles as u64).as_str());
        s.append(", failed=");
        s.append(decimal_string(self.failed_cycles as u64).as_str());
        s.append(", steps=");
        s.append(decimal_string(self.total_steps_executed as u64).as_str());
        s.append(", bootstrap=phase");
        s.append(decimal_string(self.current_bootstrap_phase as u64).as_str());
        s.append(")");
        s
    }
}

} // verus!
