//! Simulation of generated HDL before synthesis: runs test vectors and
//! checks timing. Frequencies are in kilohertz.

use vstd::prelude::*;
use crate::hardware::epu::EpuSpec;
use crate::hardware::error::HardwareResult;
use crate::hardware::hdl::GeneratedHdl;
use crate::hardware::types::{ClockDomain, SimulationResult};

verus! {

/// A test vector for simulation.
#[derive(Clone, Debug)]
pub struct TestVector {
    pub name: String,
    pub input_values: Vec<u64>,
    pub expected_outputs: Vec<u64>,
    pub cycles: u64,
}

/// Sum of the cycles of the vectors.
pub open spec fn sum_cycles(vs: Seq<TestVector>) -> nat
    decreases vs.len(),
{
    if vs.len() == 0 { 0 } else { sum_cycles(vs.drop_last()) + vs.last().cycles as nat }
}

/// Frequency of the first primary clock domain from index `i` on, or
/// 100 MHz when there is none.
pub open spec fn primary_clock_khz(cds: Seq<ClockDomain>, i: int) -> u64
    decreases cds.len() - i,
{
    if i < 0 || i >= cds.len() {
        100_000
    } else if cds[i].is_primary {
        cds[i].frequency_khz
    } else {
        primary_clock_khz(cds, i + 1)
    }
}

/// The highest frequency a target latency allows: 10^9 / latency kHz
/// (a period of `latency` nanoseconds), or 100 MHz for latency zero.
pub open spec fn spec_max_frequency_khz(latency_ns: u64) -> nat {
    if latency_ns > 0 { (1_000_000_000u64 / latency_ns) as nat } else { 100_000 }
}

fn vector(name: &str, input_values: Vec<u64>, expected_outputs: Vec<u64>, cycles: u64) -> (v: TestVector)
    ensures
        v.name@ == name@,
        v.input_values == input_values,
        v.expected_outputs == expected_outputs,
        v.cycles == cycles,
{
    TestVector { name: name.to_string(), input_values, expected_outputs, cycles }
}

/// The default vectors run before synthesis: a reset test (100 cycles),
/// a commitment gate test (200) and a provenance record test (300).
pub fn default_test_vectors() -> (v: Vec<TestVector>)
    ensures
        v@.len() == 3,
        v@[0].name@ == "reset_test"@ && v@[0].input_values@ == seq![0u64] && v@[0].expected_outputs@ == seq![0u64]
            && v@[0].cycles == 100,
        v@[1].name@ == "commitment_gate_test"@ && v@[1].input_values@ == seq![1u64, 0u64]
            && v@[1].expected_outputs@ == seq![1u64] && v@[1].cycles == 200,
        v@[2].name@ == "provenance_record_test"@ && v@[2].input_values@ == seq![0xDEu64, 0xADu64]
            && v@[2].expected_outputs@ == seq![0xBEu64, 0xEFu64] && v@[2].cycles == 300,
        sum_cycles(v@) == 600,
{
    let mut v: Vec<TestVector> = Vec::new();
    v.push(vector("reset_test", vec![0u64], vec![0u64], 100));
    v.push(vector("commitment_gate_test", vec![1u64, 0u64], vec![1u64], 200));
    v.push(vector("provenance_record_test", vec![0xDEu64, 0xADu64], vec![0xBEu64, 0xEFu64], 300));
    proof {
        reveal_with_fuel(sum_cycles, 4);
    }
    v
}

/// Simulates hardware designs.
pub trait HardwareSimulator {
    /// Simulates `hdl` of `spec` against the test vectors.
    fn simulate(&self, spec: &EpuSpec, hdl: &GeneratedHdl, test_vectors: &[TestVector]) -> HardwareResult<SimulationResult>
        requires
            sum_cycles(test_vectors@) <= u64::MAX,
    ;

    /// Name of the simulator.
    fn name(&self) -> &str;
}

/// Deterministic stand-in for a Verilator run: every vector passes.
pub struct SimulatedHardwareSimulator;

impl SimulatedHardwareSimulator {
    /// The simulator.
    pub fn new() -> Self {
        SimulatedHardwareSimulator
    }
}

impl Default for SimulatedHardwareSimulator {
    fn default() -> Self {
        SimulatedHardwareSimulator
    }
}

proof fn lemma_sum_cycles_prefix(vs: Seq<TestVector>, i: int)
    requires
        0 <= i <= vs.len(),
    ensures
        sum_cycles(vs.take(i)) <= sum_cycles(vs),
    decreases vs.len() - i,
{
    if i < vs.len() {
        lemma_sum_cycles_prefix(vs, i + 1);
        assert(vs.take(i + 1).drop_last() =~= vs.take(i));
    } else {
        assert(vs.take(i) =~= vs);
    }
}

fn primary_clock(cds: &Vec<ClockDomain>) -> (f: u64)
    ensures
        f == primary_clock_khz(cds@, 0),
{
    let mut i: usize = 0;
    while i < cds.len()
        invariant
            i <= cds@.len(),
            primary_clock_khz(cds@, 0) == primary_clock_khz(cds@, i as int),
        decreases cds@.len() - i,
    {
        if cds[i].is_primary {
            return cds[i].frequency_khz;
        }
        i = i + 1;
    }
    100_000
}

impl HardwareSimulator for SimulatedHardwareSimulator {
    /// Every vector passes; at least 1000 cycles are counted; timing is met
    /// when the latency's frequency reaches the primary clock; the reported
    /// maximum frequency is capped at 500 MHz.
    fn simulate(&self, spec: &EpuSpec, hdl: &GeneratedHdl, test_vectors: &[TestVector]) -> (r: HardwareResult<SimulationResult>)
        ensures
            r matches Ok(res) && {
                &&& res.passed
                &&& res.cycles_simulated == if sum_cycles(test_vectors@) >= 1000 { sum_cycles(test_vectors@) } else { 1000 }
                &&& res.test_cases_passed == test_vectors@.len() as u32
                &&& res.test_cases_failed == 0
                &&& res.timing_met == (spec_max_frequency_khz(spec.target_latency_ns)
                        >= primary_clock_khz(spec.clock_domains@, 0))
                &&& res.max_frequency_khz == if spec_max_frequency_khz(spec.target_latency_ns) <= 500_000 {
                        spec_max_frequency_khz(spec.target_latency_ns)
                    } else {
                        500_000
                    }
                &&& res.warnings@.len() == 0
            },
    {
        let mut total: u64 = 0;
        let mut i: usize = 0;
        while i < test_vectors.len()
            invariant
                i <= test_vectors@.len(),
                sum_cycles(test_vectors@) <= u64::MAX,
                total == sum_cycles(test_vectors@.take(i as int)),
            decreases test_vectors@.len() - i,
        {
            proof {
                assert(test_vectors@.take(i as int + 1).drop_last() =~= test_vectors@.take(i as int));
                lemma_sum_cycles_prefix(test_vectors@, i as int + 1);
            }
            total = total + test_vectors[i].cycles;
            i = i + 1;
        }
        proof {
            assert(test_vectors@.take(test_vectors@.len() as int) =~= test_vectors@);
        }
        let count = test_vectors.len() as u32;
        let max_freq: u64 = if spec.target_latency_ns > 0 { 1_000_000_000 / spec.target_latency_ns } else { 100_000 };
        let primary = primary_clock(&spec.clock_domains);
        Ok(SimulationResult {
            passed: true,
            cycles_simulated: if total >= 1000 { total } else { 1000 },
            test_cases_passed: count,
            test_cases_failed: 0,
            timing_met: max_freq >= primary,
            max_frequency_khz: if max_freq <= 500_000 { max_freq } else { 500_000 },
            warnings: Vec::new(),
        })
    }

    fn name(&self) -> (s: &str)
        ensures
            s@ == "simulated-verilator"@,
    {
        "simulated-verilator"
    }
}

proof fn lemma_primary_from(cds: Seq<ClockDomain>, i: int, k: int)
    requires
        0 <= i <= k < cds.len(),
        cds[k].is_primary,
        forall|j: int| i <= j < k ==> !(#[trigger] cds[j]).is_primary,
    ensures
        primary_clock_khz(cds, i) == cds[k].frequency_khz,
    decreases k - i,
{
    if i < k {
        lemma_primary_from(cds, i + 1, k);
    }
}

proof fn lemma_no_primary_from(cds: Seq<ClockDomain>, i: int)
    requires
        0 <= i <= cds.len(),
        forall|j: int| i <= j < cds.len() ==> !(#[trigger] cds[j]).is_primary,
    ensures
        primary_clock_khz(cds, i) == 100_000,
    decreases cds.len() - i,
{
    if i < cds.len() {
        lemma_no_primary_from(cds, i + 1);
    }
}

/// The clock timing is checked against is the first clock domain marked
/// primary: when domain `k` is primary and none before it is, its frequency
/// is the timing clock, whatever the other domains run at; when no domain
/// is primary the timing clock is 100 MHz. So a domain not marked primary
/// never decides whether timing is met.
pub proof fn law_timing_uses_first_primary_clock(cds: Seq<ClockDomain>, k: int)
    ensures
        0 <= k < cds.len() && cds[k].is_primary && (forall|j: int| 0 <= j < k ==> !(#[trigger] cds[j]).is_primary)
            ==> primary_clock_khz(cds, 0) == cds[k].frequency_khz,
        (forall|j: int| 0 <= j < cds.len() ==> !(#[trigger] cds[j]).is_primary) ==> primary_clock_khz(cds, 0)
            == 100_000,
{
    if 0 <= k < cds.len() && cds[k].is_primary && (forall|j: int| 0 <= j < k ==> !(#[trigger] cds[j]).is_primary) {
        lemma_primary_from(cds, 0, k);
    }
    if forall|j: int| 0 <= j < cds.len() ==> !(#[trigger] cds[j]).is_primary {
        lemma_no_primary_from(cds, 0);
    }
}

/// Changing a clock domain that is not marked primary into another one
/// that is not marked primary leaves the timing clock unchanged.
pub proof fn law_non_primary_domains_do_not_affect_timing(cds: Seq<ClockDomain>, k: int, d: ClockDomain)
    requires
        0 <= k < cds.len(),
        !cds[k].is_primary,
        !d.is_primary,
    ensures
        primary_clock_khz(cds.update(k, d), 0) == primary_clock_khz(cds, 0),
{
    lemma_update_non_primary(cds, k, d, 0);
}

proof fn lemma_update_non_primary(cds: Seq<ClockDomain>, k: int, d: ClockDomain, i: int)
    requires
        0 <= k < cds.len(),
        0 <= i <= cds.len(),
        !cds[k].is_primary,
        !d.is_primary,
    ensures
        primary_clock_khz(cds.update(k, d), i) == primary_clock_khz(cds, i),
    decreases cds.len() - i,
{
    if i < cds.len() {
        lemma_update_non_primary(cds, k, d, i + 1);
    }
}

} // verus!
