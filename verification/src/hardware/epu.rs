//! The EVOS Processing Unit: its components, its specification, and the
//! designer that lays one out.

use vstd::prelude::*;
use crate::hardware::error::HardwareResult;
use crate::hardware::types::{ClockDomain, EpuId, ResourceUtilization};
use crate::text::decimal;
use crate::text::decimal_string;

verus! {

/// Kind of an EPU component.
#[derive(Clone, Copy, Debug, PartialEq, Eq, Structural)]
pub enum EpuComponentKind {
    CommitmentGate,
    ProvenanceUnit,
    EventInterface,
    OperatorUnit,
    MemoryController,
}

/// Display form of a component kind.
pub open spec fn spec_component_kind_text(k: EpuComponentKind) -> Seq<char> {
    match k {
        EpuComponentKind::CommitmentGate => "commitment-gate"@,
        EpuComponentKind::ProvenanceUnit => "provenance-unit"@,
        EpuComponentKind::EventInterface => "event-interface"@,
        EpuComponentKind::OperatorUnit => "operator-unit"@,
        EpuComponentKind::MemoryController => "memory-controller"@,
    }
}

impl EpuComponentKind {
    /// Renders the kind (`commitment-gate`, `provenance-unit`, ...).
    pub fn to_string(&self) -> (s: String)
        ensures
            s@ == spec_component_kind_text(*self),
    {
        match self {
            EpuComponentKind::CommitmentGate => String::from_str("commitment-gate"),
            EpuComponentKind::ProvenanceUnit => String::from_str("provenance-unit"),
            EpuComponentKind::EventInterface => String::from_str("event-interface"),
            EpuComponentKind::OperatorUnit => String::from_str("operator-unit"),
            EpuComponentKind::MemoryController => String::from_str("memory-controller"),
        }
    }
}

/// A hardware component of an EPU.
#[derive(Clone, Debug)]
pub struct EpuComponent {
    pub name: String,
    pub kind: EpuComponentKind,
    pub port_count: u32,
    pub pipeline_stages: u32,
    pub estimated_resources: ResourceUtilization,
}

/// Full specification of an EPU.
#[derive(Clone, Debug)]
pub struct EpuSpec {
    pub id: EpuId,
    pub name: String,
    pub version: String,
    pub components: Vec<EpuComponent>,
    pub clock_domains: Vec<ClockDomain>,
    pub total_resources: ResourceUtilization,
    pub target_latency_ns: u64,
    pub description: String,
}

/// Whether some component has kind `k`.
pub open spec fn has_kind(cs: Seq<EpuComponent>, k: EpuComponentKind) -> bool {
    exists|i: int| 0 <= i < cs.len() && (#[trigger] cs[i]).kind == k
}

/// The three core components: a commitment gate, a provenance unit and an
/// event interface.
pub open spec fn spec_has_required(cs: Seq<EpuComponent>) -> bool {
    &&& has_kind(cs, EpuComponentKind::CommitmentGate)
    &&& has_kind(cs, EpuComponentKind::ProvenanceUnit)
    &&& has_kind(cs, EpuComponentKind::EventInterface)
}

/// Sum of the pipeline stages of the components.
pub open spec fn sum_stages(cs: Seq<EpuComponent>) -> nat
    decreases cs.len(),
{
    if cs.len() == 0 { 0 } else { sum_stages(cs.drop_last()) + cs.last().pipeline_stages as nat }
}

/// One field of a resource estimate: 0 LUTs, 1 flip-flops, 2 BRAM,
/// 3 DSP slices, 4 power.
pub open spec fn resource_field(r: ResourceUtilization, field: nat) -> nat {
    if field == 0 {
        r.luts as nat
    } else if field == 1 {
        r.flip_flops as nat
    } else if field == 2 {
        r.bram_kb as nat
    } else if field == 3 {
        r.dsp_slices as nat
    } else {
        r.power_mw as nat
    }
}

/// Sum of one resource field over the components.
pub open spec fn sum_resource(cs: Seq<EpuComponent>, field: nat) -> nat
    decreases cs.len(),
{
    if cs.len() == 0 {
        0
    } else {
        sum_resource(cs.drop_last(), field) + resource_field(cs.last().estimated_resources, field)
    }
}

/// Whether every resource sum fits in a `u64`.
pub open spec fn resources_fit(cs: Seq<EpuComponent>) -> bool {
    forall|field: nat| field < 5 ==> #[trigger] sum_resource(cs, field) <= u64::MAX
}

proof fn lemma_sum_resource_prefix(cs: Seq<EpuComponent>, i: int, field: nat)
    requires
        0 <= i <= cs.len(),
    ensures
        sum_resource(cs.take(i), field) <= sum_resource(cs, field),
    decreases cs.len() - i,
{
    if i < cs.len() {
        lemma_sum_resource_prefix(cs, i + 1, field);
        assert(cs.take(i + 1).drop_last() =~= cs.take(i));
    } else {
        assert(cs.take(i) =~= cs);
    }
}

proof fn lemma_sum_stages_prefix(cs: Seq<EpuComponent>, i: int)
    requires
        0 <= i <= cs.len(),
    ensures
        sum_stages(cs.take(i)) <= sum_stages(cs),
    decreases cs.len() - i,
{
    if i < cs.len() {
        lemma_sum_stages_prefix(cs, i + 1);
        assert(cs.take(i + 1).drop_last() =~= cs.take(i));
    } else {
        assert(cs.take(i) =~= cs);
    }
}

/// The resources of the components, field by field.
pub fn total_resources(components: &Vec<EpuComponent>) -> (r: ResourceUtilization)
    requires
        resources_fit(components@),
    ensures
        forall|field: nat| field < 5 ==> #[trigger] resource_field(r, field) == sum_resource(components@, field),
{
    let mut r = ResourceUtilization { luts: 0, flip_flops: 0, bram_kb: 0, dsp_slices: 0, power_mw: 0 };
    let mut i: usize = 0;
    while i < components.len()
        invariant
            i <= components@.len(),
            resources_fit(components@),
            forall|field: nat| field < 5 ==> #[trigger] resource_field(r, field) == sum_resource(components@.take(i as int), field),
        decreases components@.len() - i,
    {
        let ghost cs = components@;
        proof {
            assert(cs.take(i as int + 1).drop_last() =~= cs.take(i as int));
            assert forall|field: nat| field < 5 implies #[trigger] sum_resource(cs.take(i as int + 1), field) <= u64::MAX by {
                lemma_sum_resource_prefix(cs, i as int + 1, field);
            }
            assert(sum_resource(cs.take(i as int + 1), 0) <= u64::MAX);
            assert(sum_resource(cs.take(i as int + 1), 1) <= u64::MAX);
            assert(sum_resource(cs.take(i as int + 1), 2) <= u64::MAX);
            assert(sum_resource(cs.take(i as int + 1), 3) <= u64::MAX);
            assert(sum_resource(cs.take(i as int + 1), 4) <= u64::MAX);
            assert(resource_field(r, 0) == sum_resource(cs.take(i as int), 0));
            assert(resource_field(r, 1) == sum_resource(cs.take(i as int), 1));
            assert(resource_field(r, 2) == sum_resource(cs.take(i as int), 2));
            assert(resource_field(r, 3) == sum_resource(cs.take(i as int), 3));
            assert(resource_field(r, 4) == sum_resource(cs.take(i as int), 4));
        }
        let e = components[i].estimated_resources;
        r = ResourceUtilization {
            luts: r.luts + e.luts,
            flip_flops: r.flip_flops + e.flip_flops,
            bram_kb: r.bram_kb + e.bram_kb,
            dsp_slices: r.dsp_slices + e.dsp_slices,
            power_mw: r.power_mw + e.power_mw,
        };
        i = i + 1;
    }
    proof {
        assert(components@.take(components@.len() as int) =~= components@);
    }
    r
}

impl EpuSpec {
    /// Whether the EPU has a commitment gate, a provenance unit and an
    /// event interface.
    pub fn has_required_components(&self) -> (b: bool)
        ensures
            b == spec_has_required(self.components@),
    {
        let mut gate = false;
        let mut prov = false;
        let mut event = false;
        let mut i: usize = 0;
        while i < self.components.len()
            invariant
                i <= self.components@.len(),
                gate == has_kind(self.components@.take(i as int), EpuComponentKind::CommitmentGate),
                prov == has_kind(self.components@.take(i as int), EpuComponentKind::ProvenanceUnit),
                event == has_kind(self.components@.take(i as int), EpuComponentKind::EventInterface),
            decreases self.components@.len() - i,
        {
            let ghost cs = self.components@;
            let ghost before = cs.take(i as int);
            let ghost after = cs.take(i as int + 1);
            let k = self.components[i].kind;
            proof {
                assert(after[i as int] == cs[i as int]);
                assert forall|kk: EpuComponentKind| #[trigger] has_kind(after, kk)
                    == (has_kind(before, kk) || cs[i as int].kind == kk) by {
                    if has_kind(after, kk) {
                        let j = choose|j: int| 0 <= j < after.len() && (#[trigger] after[j]).kind == kk;
                        if j < i {
                            assert(before[j] == after[j]);
                        }
                    }
                    if has_kind(before, kk) {
                        let j = choose|j: int| 0 <= j < before.len() && (#[trigger] before[j]).kind == kk;
                        assert(after[j] == before[j]);
                    }
                }
            }
            match k {
                EpuComponentKind::CommitmentGate => { gate = true; },
                EpuComponentKind::ProvenanceUnit => { prov = true; },
                EpuComponentKind::EventInterface => { event = true; },
                _ => {},
            }
            proof {
                assert(has_kind(after, EpuComponentKind::CommitmentGate) == (has_kind(before, EpuComponentKind::CommitmentGate) || k == EpuComponentKind::CommitmentGate));
                assert(has_kind(after, EpuComponentKind::ProvenanceUnit) == (has_kind(before, EpuComponentKind::ProvenanceUnit) || k == EpuComponentKind::ProvenanceUnit));
                assert(has_kind(after, EpuComponentKind::EventInterface) == (has_kind(before, EpuComponentKind::EventInterface) || k == EpuComponentKind::EventInterface));
            }
            i = i + 1;
        }
        proof {
            assert(self.components@.take(self.components@.len() as int) =~= self.components@);
        }
        gate && prov && event
    }

    /// Total pipeline stages over all components.
    pub fn total_pipeline_stages(&self) -> (n: u32)
        requires
            sum_stages(self.components@) <= u32::MAX,
        ensures
            n == sum_stages(self.components@),
    {
        let mut n: u32 = 0;
        let mut i: usize = 0;
        while i < self.components.len()
            invariant
                i <= self.components@.len(),
                sum_stages(self.components@) <= u32::MAX,
                n == sum_stages(self.components@.take(i as int)),
            decreases self.components@.len() - i,
        {
            proof {
                assert(self.components@.take(i as int + 1).drop_last() =~= self.components@.take(i as int));
                lemma_sum_stages_prefix(self.components@, i as int + 1);
            }
            n = n + self.components[i].pipeline_stages;
            i = i + 1;
        }
        proof {
            assert(self.components@.take(self.components@.len() as int) =~= self.components@);
        }
        n
    }
}

/// Whether `c` is the component with the given name, kind, ports, stages
/// and resources.
pub open spec fn is_component(c: EpuComponent, name: Seq<char>, kind: EpuComponentKind, ports: u32, stages: u32,
    res: ResourceUtilization) -> bool {
    &&& c.name@ == name
    &&& c.kind == kind
    &&& c.port_count == ports
    &&& c.pipeline_stages == stages
    &&& c.estimated_resources == res
}

/// The four components the simulated designer lays out, in order.
pub open spec fn spec_designed_components(cs: Seq<EpuComponent>) -> bool {
    &&& cs.len() == 4
    &&& is_component(cs[0], "commitment_gate_0"@, EpuComponentKind::CommitmentGate, 4, 3,
            ResourceUtilization { luts: 2000, flip_flops: 1500, bram_kb: 32, dsp_slices: 0, power_mw: 50 })
    &&& is_component(cs[1], "provenance_unit_0"@, EpuComponentKind::ProvenanceUnit, 2, 2,
            ResourceUtilization { luts: 1500, flip_flops: 1000, bram_kb: 64, dsp_slices: 0, power_mw: 30 })
    &&& is_component(cs[2], "event_interface_0"@, EpuComponentKind::EventInterface, 8, 1,
            ResourceUtilization { luts: 1000, flip_flops: 500, bram_kb: 16, dsp_slices: 0, power_mw: 20 })
    &&& is_component(cs[3], "operator_unit_0"@, EpuComponentKind::OperatorUnit, 4, 5,
            ResourceUtilization { luts: 3000, flip_flops: 2000, bram_kb: 128, dsp_slices: 8, power_mw: 100 })
}

/// The specification the simulated designer produces for `name` and
/// `latency`: version 1.0.0, the four components, one primary 100 MHz
/// clock, the summed resources and a description.
pub open spec fn spec_designed(s: EpuSpec, name: Seq<char>, latency: u64) -> bool {
    &&& s.id.0@ == name
    &&& s.name@ == name
    &&& s.version@ == "1.0.0"@
    &&& spec_designed_components(s.components@)
    &&& s.clock_domains@.len() == 1
    &&& s.clock_domains@[0].name@ == "sys_clk"@
    &&& s.clock_domains@[0].frequency_khz == 100_000
    &&& s.clock_domains@[0].is_primary
    &&& forall|field: nat| field < 5 ==> #[trigger] resource_field(s.total_resources, field)
            == sum_resource(s.components@, field)
    &&& s.target_latency_ns == latency
    &&& s.description@ == "EPU '"@ + name + "' with target latency "@ + decimal(latency as nat) + "ns"@
}

/// Every design of the simulated designer has the three core components,
/// eleven pipeline stages, and totals of 7500 LUTs, 5000 flip-flops,
/// 240 kb of BRAM, 8 DSP slices and 200 mW.
pub proof fn law_designed_epu_is_complete(s: EpuSpec, name: Seq<char>, latency: u64)
    requires
        spec_designed(s, name, latency),
    ensures
        spec_has_required(s.components@),
        sum_stages(s.components@) == 11,
        s.total_resources == (ResourceUtilization { luts: 7500, flip_flops: 5000, bram_kb: 240, dsp_slices: 8, power_mw: 200 }),
{
    let cs = s.components@;
    assert(cs[0].kind == EpuComponentKind::CommitmentGate);
    assert(cs[1].kind == EpuComponentKind::ProvenanceUnit);
    assert(cs[2].kind == EpuComponentKind::EventInterface);
    reveal_with_fuel(sum_stages, 5);
    reveal_with_fuel(sum_resource, 5);
    assert(resource_field(s.total_resources, 0) == sum_resource(cs, 0));
    assert(resource_field(s.total_resources, 1) == sum_resource(cs, 1));
    assert(resource_field(s.total_resources, 2) == sum_resource(cs, 2));
    assert(resource_field(s.total_resources, 3) == sum_resource(cs, 3));
    assert(resource_field(s.total_resources, 4) == sum_resource(cs, 4));
}

/// Designs EPU specifications.
pub trait EpuDesigner {
    /// Designs an EPU named `name` for the given target latency.
    fn design(&self, name: &str, target_latency_ns: u64) -> HardwareResult<EpuSpec>;

    /// Name of the designer.
    fn name(&self) -> &str;
}

/// Deterministic designer for simulation.
pub struct SimulatedEpuDesigner;

impl SimulatedEpuDesigner {
    /// The designer.
    pub fn new() -> Self {
        SimulatedEpuDesigner
    }
}

impl Default for SimulatedEpuDesigner {
    fn default() -> Self {
        SimulatedEpuDesigner
    }
}

fn component(name: &str, kind: EpuComponentKind, ports: u32, stages: u32, res: ResourceUtilization) -> (c: EpuComponent)
    ensures
        is_component(c, name@, kind, ports, stages, res),
{
    EpuComponent { name: name.to_string(), kind, port_count: ports, pipeline_stages: stages, estimated_resources: res }
}

impl EpuDesigner for SimulatedEpuDesigner {
    /// Lays out a commitment gate, a provenance unit, an event interface
    /// and an operator unit; never fails.
    fn design(&self, name: &str, target_latency_ns: u64) -> (r: HardwareResult<EpuSpec>)
        ensures
            r matches Ok(s) && spec_designed(s, name@, target_latency_ns),
    {
        let mut components: Vec<EpuComponent> = Vec::new();
        components.push(component("commitment_gate_0", EpuComponentKind::CommitmentGate, 4, 3,
            ResourceUtilization { luts: 2000, flip_flops: 1500, bram_kb: 32, dsp_slices: 0, power_mw: 50 }));
        components.push(component("provenance_unit_0", EpuComponentKind::ProvenanceUnit, 2, 2,
            ResourceUtilization { luts: 1500, flip_flops: 1000, bram_kb: 64, dsp_slices: 0, power_mw: 30 }));
        components.push(component("event_interface_0", EpuComponentKind::EventInterface, 8, 1,
            ResourceUtilization { luts: 1000, flip_flops: 500, bram_kb: 16, dsp_slices: 0, power_mw: 20 }));
        components.push(component("operator_unit_0", EpuComponentKind::OperatorUnit, 4, 5,
            ResourceUtilization { luts: 3000, flip_flops: 2000, bram_kb: 128, dsp_slices: 8, power_mw: 100 }));
        proof {
            let cs = components@;
            reveal_with_fuel(sum_resource, 5);
            assert(cs.drop_last().drop_last().drop_last().drop_last() =~= Seq::<EpuComponent>::empty());
            assert forall|field: nat| field < 5 implies #[trigger] sum_resource(cs, field) <= u64::MAX by {
                assert(sum_resource(cs, field) <= 4 * 10000);
            }
        }
        let totals = total_resources(&components);
        let mut clocks: Vec<ClockDomain> = Vec::new();
        clocks.push(ClockDomain { name: String::from_str("sys_clk"), frequency_khz: 100_000, is_primary: true });
        let mut description = String::from_str("EPU '");
        description.append(name);
        description.append("' with target latency ");
        description.append(decimal_string(target_latency_ns).as_str());
        description.append("ns");
        Ok(EpuSpec {
            id: EpuId::from_name(name),
            name: name.to_string(),
            version: String::from_str("1.0.0"),
            components,
            clock_domains: clocks,
            total_resources: totals,
            target_latency_ns,
            description,
        })
    }

    fn name(&self) -> (s: &str)
        ensures
            s@ == "simulated-epu-designer"@,
    {
        "simulated-epu-designer"
    }
}

} // verus!
