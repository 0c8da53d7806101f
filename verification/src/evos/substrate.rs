//! The substrate manifest: the fourteen subsystems with their versions
//! and descriptions.

use vstd::prelude::*;
use crate::evos::types::{all_subsystems, spec_subsystem_name, subsystem_index, EvosId, SubsystemId};
use crate::text::decimal;
use crate::text::decimal_string;

verus! {

/// Entry of the manifest for one subsystem.
#[derive(Clone, Debug)]
pub struct SubsystemEntry {
    /// The subsystem.
    pub id: SubsystemId,
    /// Crate version.
    pub version: String,
    /// Short description.
    pub description: String,
}

impl SubsystemEntry {
    /// Renders the entry as `<subsystem> v<version>: <description>`.
    pub fn to_string(&self) -> (s: String)
        ensures
            s@ == spec_subsystem_name(self.id) + " v"@ + self.version@ + ": "@ + self.description@,
    {
        let mut s = self.id.to_string();
        s.append(" v");
        s.append(self.version.as_str());
        s.append(": ");
        s.append(self.description.as_str());
        s
    }
}

/// Manifest listing the WorldLine subsystems.
#[derive(Clone, Debug)]
pub struct SubstrateManifest {
    pub entries: Vec<SubsystemEntry>,
}

/// Index of the first entry for subsystem `id`, looking from `i` on,
/// or `None`.
pub open spec fn first_entry_from(entries: Seq<SubsystemEntry>, id: SubsystemId, i: int) -> Option<int>
    decreases entries.len() - i,
{
    if i < 0 || i >= entries.len() {
        None
    } else if entries[i].id == id {
        Some(i)
    } else {
        first_entry_from(entries, id, i + 1)
    }
}

/// The version every subsystem of this build carries.
pub open spec fn canonical_version() -> Seq<char> {
    "0.1.2"@
}

fn entry(id: SubsystemId, description: &str) -> (e: SubsystemEntry)
    ensures
        e.id == id,
        e.version@ == canonical_version(),
        e.description@ == description@,
{
    SubsystemEntry {
        id,
        version: String::from_str("0.1.2"),
        description: String::from_str(description),
    }
}

/// The descriptions of the canonical subsystems, in canonical order.
pub open spec fn canonical_descriptions() -> Seq<Seq<char>> {
    seq![
        "Self-observation, anomaly detection, baselining"@,
        "Hypothesis generation, evidence evaluation, convergence"@,
        "Intent stabilization, impact assessment, proposals"@,
        "Observation periods, commitment lifecycle, declarations"@,
        "Consequence execution, rollback, observation feedback"@,
        "6-tier self-modification governance, rate limiting"@,
        "Code generation, sandbox compilation, artifact building"@,
        "Deployment strategies, rollback, health monitoring"@,
        "WLIR intermediate representation, 31 instructions"@,
        "Adaptive compilation, 11 optimization passes"@,
        "Domain-specific language generation pipeline"@,
        "Substrate abstraction, CPU/GPU/FPGA/Hybrid execution"@,
        "EPU design, HDL generation, FPGA synthesis"@,
        "6-phase bootstrap protocol, external to self-hosted"@,
    ]
}

impl SubstrateManifest {
    /// The manifest of the current build: the fourteen subsystems in
    /// canonical order, each at version 0.1.2.
    pub fn canonical() -> (m: Self)
        ensures
            m.entries@.len() == 14,
            forall|i: int| 0 <= i < 14 ==> (#[trigger] m.entries@[i]).id == all_subsystems()[i]
                && m.entries@[i].version@ == canonical_version(),
            forall|i: int| 0 <= i < 14 ==> (#[trigger] m.entries@[i]).description@ == canonical_descriptions()[i],
    {
        let mut entries: Vec<SubsystemEntry> = Vec::new();
        entries.push(entry(SubsystemId::Observation, "Self-observation, anomaly detection, baselining"));
        entries.push(entry(SubsystemId::Meaning, "Hypothesis generation, evidence evaluation, convergence"));
        entries.push(entry(SubsystemId::Intent, "Intent stabilization, impact assessment, proposals"));
        entries.push(entry(SubsystemId::Commitment, "Observation periods, commitment lifecycle, declarations"));
        entries.push(entry(SubsystemId::Consequence, "Consequence execution, rollback, observation feedback"));
        entries.push(entry(SubsystemId::SelfModGate, "6-tier self-modification governance, rate limiting"));
        entries.push(entry(SubsystemId::Codegen, "Code generation, sandbox compilation, artifact building"));
        entries.push(entry(SubsystemId::Deployment, "Deployment strategies, rollback, health monitoring"));
        entries.push(entry(SubsystemId::Ir, "WLIR intermediate representation, 31 instructions"));
        entries.push(entry(SubsystemId::Compiler, "Adaptive compilation, 11 optimization passes"));
        entries.push(entry(SubsystemId::LangGen, "Domain-specific language generation pipeline"));
        entries.push(entry(SubsystemId::Sal, "Substrate abstraction, CPU/GPU/FPGA/Hybrid execution"));
        entries.push(entry(SubsystemId::Hardware, "EPU design, HDL generation, FPGA synthesis"));
        entries.push(entry(SubsystemId::Bootstrap, "6-phase bootstrap protocol, external to self-hosted"));
        proof {
            assert forall|i: int| 0 <= i < 14 implies (#[trigger] entries@[i]).description@ == canonical_descriptions()[i] by {
                assert(canonical_descriptions()[i] == seq![
                    "Self-observation, anomaly detection, baselining"@,
                    "Hypothesis generation, evidence evaluation, convergence"@,
                    "Intent stabilization, impact assessment, proposals"@,
                    "Observation periods, commitment lifecycle, declarations"@,
                    "Consequence execution, rollback, observation feedback"@,
                    "6-tier self-modification governance, rate limiting"@,
                    "Code generation, sandbox compilation, artifact building"@,
                    "Deployment strategies, rollback, health monitoring"@,
                    "WLIR intermediate representation, 31 instructions"@,
                    "Adaptive compilation, 11 optimization passes"@,
                    "Domain-specific language generation pipeline"@,
                    "Substrate abstraction, CPU/GPU/FPGA/Hybrid execution"@,
                    "EPU design, HDL generation, FPGA synthesis"@,
                    "6-phase bootstrap protocol, external to self-hosted"@,
                ][i]);
            }
        }
        SubstrateManifest { entries }
    }

    /// Number of subsystems listed.
    pub fn count(&self) -> (n: usize)
        ensures
            n == self.entries@.len(),
    {
        self.entries.len()
    }

    /// The first entry for subsystem `id`, if any.
    pub fn find(&self, id: &SubsystemId) -> (r: Option<&SubsystemEntry>)
        ensures
            match first_entry_from(self.entries@, *id, 0) {
                Some(i) => r == Some(&self.entries@[i]),
                None => r is None,
            },
    {
        let mut i: usize = 0;
        while i < self.entries.len()
            invariant
                i <= self.entries@.len(),
                first_entry_from(self.entries@, *id, 0) == first_entry_from(self.entries@, *id, i as int),
            decreases self.entries@.len() - i,
        {
            if self.entries[i].id == *id {
                return Some(&self.entries[i]);
            }
            i = i + 1;
        }
        None
    }

    /// Renders the manifest as `SubstrateManifest(<n> subsystems)`.
    pub fn to_string(&self) -> (s: String)
        ensures
            s@ == "SubstrateManifest("@ + decimal(self.entries@.len()) + " subsystems)"@,
    {
        let mut s = String::from_str("SubstrateManifest(");
        s.append(decimal_string(self.entries.len() as u64).as_str());
        s.append(" subsystems)");
        s
    }
}

proof fn lemma_first_entry_canonical(entries: Seq<SubsystemEntry>, id: SubsystemId, i: int)
    requires
        entries.len() == 14,
        forall|j: int| 0 <= j < 14 ==> (#[trigger] entries[j]).id == all_subsystems()[j],
        0 <= i <= subsystem_index(id),
    ensures
        first_entry_from(entries, id, i) == Some(subsystem_index(id)),
    decreases 14 - i,
{
    if i < subsystem_index(id) {
        assert(entries[i].id == all_subsystems()[i]);
        lemma_first_entry_canonical(entries, id, i + 1);
    } else {
        assert(entries[i].id == all_subsystems()[i]);
    }
}

/// The canonical manifest lists every subsystem: looking up any subsystem
/// finds its entry, at the subsystem's canonical position.
pub proof fn law_canonical_manifest_complete(m: &SubstrateManifest, id: SubsystemId)
    requires
        m.entries@.len() == 14,
        forall|i: int| 0 <= i < 14 ==> (#[trigger] m.entries@[i]).id == all_subsystems()[i],
    ensures
        first_entry_from(m.entries@, id, 0) == Some(subsystem_index(id)),
        m.entries@[subsystem_index(id)].id == id,
{
    lemma_first_entry_canonical(m.entries@, id, 0);
    assert(m.entries@[subsystem_index(id)].id == all_subsystems()[subsystem_index(id)]);
}

/// The whole substrate: its identity, its manifest, and its bootstrap
/// phase, from 0 (running on an external substrate) to 5 (the substrate
/// describes itself).
#[derive(Clone, Debug)]
pub struct EvosSubstrate {
    pub id: EvosId,
    pub manifest: SubstrateManifest,
    pub bootstrap_phase: u8,
}

impl EvosSubstrate {
    /// A substrate with the canonical manifest at bootstrap phase `phase`.
    pub fn at_phase(phase: u8) -> (s: Self)
        requires
            phase <= 5,
        ensures
            s.bootstrap_phase == phase,
            s.manifest.entries@.len() == 14,
            forall|i: int| 0 <= i < 14 ==> (#[trigger] s.manifest.entries@[i]).id == all_subsystems()[i],
            s.id.0@.len() == 36,
    {
        EvosSubstrate { id: EvosId::new(), manifest: SubstrateManifest::canonical(), bootstrap_phase: phase }
    }

    /// A substrate with the canonical manifest at phase 0.
    pub fn new() -> (s: Self)
        ensures
            s.bootstrap_phase == 0,
            s.manifest.entries@.len() == 14,
            forall|i: int| 0 <= i < 14 ==> (#[trigger] s.manifest.entries@[i]).id == all_subsystems()[i],
    {
        Self::at_phase(0)
    }

    /// Whether the substrate has reached self-hosting (phase 5).
    pub fn is_self_hosting(&self) -> (b: bool)
        ensures
            b == (self.bootstrap_phase == 5),
    {
        self.bootstrap_phase == 5
    }

    /// Number of subsystems in the manifest.
    pub fn subsystem_count(&self) -> (n: usize)
        ensures
            n == self.manifest.entries@.len(),
    {
        self.manifest.count()
    }

    /// Renders the substrate as
    /// `EvosSubstrate(id=evos:<id>, subsystems=<n>, bootstrap=Phase<phase>)`.
    pub fn to_string(&self) -> (s: String)
        ensures
            s@ == "EvosSubstrate(id="@ + "evos:"@ + self.id.0@ + ", subsystems="@ + decimal(self.manifest.entries@.len())
                + ", bootstrap=Phase"@ + decimal(self.bootstrap_phase as nat) + ")"@,
    {
        let mut s = String::from_str("EvosSubstrate(id=");
        s.append(self.id.to_string().as_str());
        s.append(", subsystems=");
        s.append(decimal_string(self.subsystem_count() as u64).as_str());
        s.append(", bootstrap=Phase");
        s.append(decimal_string(self.bootstrap_phase as u64).as_str());
        s.append(")");
        s
    }
}

impl Default for EvosSubstrate {
    fn default() -> (s: Self)
        ensures
            s.bootstrap_phase == 0,
    {
        Self::new()
    }
}

} // verus!
