use maple_worldline::hardware::epu::{EpuComponentKind, EpuDesigner, EpuSpec, SimulatedEpuDesigner};
use maple_worldline::hardware::error::HardwareError;
use maple_worldline::hardware::governance::{
    enforce_governance, governance_outcome, GovernanceDecision, GovernanceRecord, GovernanceRequest,
    HardwareGovernance, HardwareGovernanceTier, SimulatedHardwareGovernance,
};
use maple_worldline::hardware::hdl::{line_count, GeneratedHdl, HdlGenerator, SimulatedHdlGenerator};
use maple_worldline::hardware::simulation::{default_test_vectors, HardwareSimulator, SimulatedHardwareSimulator, TestVector};
use maple_worldline::hardware::types::{
    BitstreamId, ClockDomain, EpuId, FpgaTarget, HdlFormat, ResourceUtilization, SimulationResult,
};

fn sample_spec() -> EpuSpec {
    SimulatedEpuDesigner::new().design("test_epu", 100).unwrap()
}

fn sim_spec() -> EpuSpec {
    SimulatedEpuDesigner::new().design("sim-test", 100).unwrap()
}

fn sample_hdl(spec: &EpuSpec) -> GeneratedHdl {
    SimulatedHdlGenerator::new().generate(spec, &HdlFormat::SystemVerilog).unwrap()
}

fn sample_vectors() -> Vec<TestVector> {
    vec![
        TestVector { name: "reset".into(), input_values: vec![0], expected_outputs: vec![0], cycles: 100 },
        TestVector { name: "basic_op".into(), input_values: vec![1, 2], expected_outputs: vec![3], cycles: 500 },
    ]
}

#[test]
fn epu_id_display() {
    let id = EpuId::from_name("commitment-gate-v1");
    assert_eq!(id.to_string(), "epu:commitment-gate-v1");
}

#[test]
fn epu_id_unique() {
    let a = EpuId::new();
    let b = EpuId::new();
    assert_ne!(a, b);
}

#[test]
fn bitstream_id_display() {
    let id = BitstreamId::new();
    assert!(id.to_string().starts_with("bitstream:"));
}

#[test]
fn fpga_target_display() {
    assert_eq!(FpgaTarget::Xilinx7Series.to_string(), "xilinx-7series");
    assert_eq!(FpgaTarget::SimulationOnly.to_string(), "simulation-only");
    assert_eq!(FpgaTarget::LatticeEcp5.to_string(), "lattice-ecp5");
}

#[test]
fn hdl_format_display() {
    assert_eq!(HdlFormat::Verilog.to_string(), "verilog");
    assert_eq!(HdlFormat::SystemVerilog.to_string(), "systemverilog");
    assert_eq!(HdlFormat::Chisel.to_string(), "chisel");
    assert_eq!(HdlFormat::Vhdl.to_string(), "vhdl");
}

#[test]
fn resource_utilization_display() {
    let r = ResourceUtilization { luts: 5000, flip_flops: 3000, bram_kb: 128, dsp_slices: 10, power_mw: 500 };
    let display = r.to_string();
    assert!(display.contains("LUTs=5000"));
    assert!(display.contains("power=500mW"));
    assert_eq!(display, "Resources(LUTs=5000, FFs=3000, BRAM=128kb, DSPs=10, power=500mW)");
}

#[test]
fn clock_domain_creation() {
    let clk = ClockDomain { name: "sys_clk".into(), frequency_khz: 100_000, is_primary: true };
    assert_eq!(clk.frequency_khz, 100_000);
    assert!(clk.is_primary);
}

#[test]
fn simulation_result_creation() {
    let sim = SimulationResult {
        passed: true,
        cycles_simulated: 100_000,
        test_cases_passed: 50,
        test_cases_failed: 0,
        timing_met: true,
        max_frequency_khz: 125_000,
        warnings: vec![],
    };
    assert!(sim.passed);
    assert!(sim.timing_met);
}

#[test]
fn component_kind_display() {
    assert_eq!(EpuComponentKind::CommitmentGate.to_string(), "commitment-gate");
    assert_eq!(EpuComponentKind::ProvenanceUnit.to_string(), "provenance-unit");
    assert_eq!(EpuComponentKind::EventInterface.to_string(), "event-interface");
    assert_eq!(EpuComponentKind::OperatorUnit.to_string(), "operator-unit");
    assert_eq!(EpuComponentKind::MemoryController.to_string(), "memory-controller");
}

#[test]
fn simulated_designer_produces_valid_epu() {
    let designer = SimulatedEpuDesigner::new();
    let spec = designer.design("test-epu", 100).unwrap();
    assert_eq!(spec.name, "test-epu");
    assert!(spec.has_required_components());
    assert_eq!(spec.components.len(), 4);
}

#[test]
fn epu_has_required_components() {
    let designer = SimulatedEpuDesigner::new();
    let spec = designer.design("full", 50).unwrap();
    assert!(spec.has_required_components());
    let mut partial = spec.clone();
    partial.components.retain(|c| c.kind != EpuComponentKind::ProvenanceUnit);
    assert!(!partial.has_required_components());
}

#[test]
fn epu_total_pipeline_stages() {
    let designer = SimulatedEpuDesigner::new();
    let spec = designer.design("pipeline", 100).unwrap();
    assert_eq!(spec.total_pipeline_stages(), 3 + 2 + 1 + 5);
}

#[test]
fn epu_resource_totals() {
    let designer = SimulatedEpuDesigner::new();
    let spec = designer.design("resources", 100).unwrap();
    assert_eq!(spec.total_resources.luts, 2000 + 1500 + 1000 + 3000);
    assert_eq!(spec.total_resources.dsp_slices, 8);
    assert_eq!(spec.total_resources.power_mw, 200);
}

#[test]
fn epu_clock_domain() {
    let designer = SimulatedEpuDesigner::new();
    let spec = designer.design("clk", 100).unwrap();
    assert_eq!(spec.clock_domains.len(), 1);
    assert!(spec.clock_domains[0].is_primary);
    assert_eq!(spec.clock_domains[0].frequency_khz, 100_000);
}

#[test]
fn epu_target_latency() {
    let designer = SimulatedEpuDesigner::new();
    let spec = designer.design("fast", 50).unwrap();
    assert_eq!(spec.target_latency_ns, 50);
    assert_eq!(spec.description, "EPU 'fast' with target latency 50ns");
}

#[test]
fn designer_name() {
    let designer = SimulatedEpuDesigner::new();
    assert_eq!(designer.name(), "simulated-epu-designer");
}

#[test]
fn governance_tier_display() {
    assert_eq!(HardwareGovernanceTier::Tier4SubstrateChange.to_string(), "Tier4:SubstrateChange");
    assert_eq!(HardwareGovernanceTier::Tier5ArchitecturalChange.to_string(), "Tier5:ArchitecturalChange");
}

#[test]
fn governance_decision_display() {
    assert_eq!(GovernanceDecision::Approved.to_string(), "approved");
    assert_eq!(GovernanceDecision::PendingReview.to_string(), "pending-review");
    assert!(GovernanceDecision::Denied("too risky".into()).to_string().contains("too risky"));
}

#[test]
fn classify_new_design_tier5() {
    let gov = SimulatedHardwareGovernance::new();
    let spec = SimulatedEpuDesigner::new().design("gov-test", 100).unwrap();
    let tier = gov.classify(&spec);
    assert_eq!(tier, HardwareGovernanceTier::Tier5ArchitecturalChange);
    let mut modified = spec.clone();
    modified.version = "2.0.0".into();
    assert_eq!(gov.classify(&modified), HardwareGovernanceTier::Tier4SubstrateChange);
}

#[test]
fn auto_approve_succeeds() {
    let gov = SimulatedHardwareGovernance::new();
    let spec = SimulatedEpuDesigner::new().design("gov-test", 100).unwrap();
    let record = enforce_governance(&gov, &spec).unwrap();
    assert_eq!(record.decision, GovernanceDecision::Approved);
}

#[test]
fn strict_mode_returns_pending() {
    let gov = SimulatedHardwareGovernance::strict();
    let spec = SimulatedEpuDesigner::new().design("gov-test", 100).unwrap();
    let result = enforce_governance(&gov, &spec);
    assert!(result.is_err());
    let err = result.unwrap_err().to_string();
    assert!(err.contains("pending human review"));
    assert!(err.contains("Tier5:ArchitecturalChange governance pending human review for EPU 'gov-test'"));
}

#[test]
fn governance_request_has_rollback() {
    let gov = SimulatedHardwareGovernance::new();
    let spec = SimulatedEpuDesigner::new().design("gov-test", 100).unwrap();
    let record = enforce_governance(&gov, &spec).unwrap();
    assert!(!record.request.rollback_plan.is_empty());
    assert_eq!(record.request.description, "Hardware generation for EPU 'gov-test'");
}

#[test]
fn governance_name() {
    let gov = SimulatedHardwareGovernance::new();
    assert_eq!(gov.name(), "simulated-hardware-governance");
}

#[test]
fn denied_review_becomes_error() {
    let record = GovernanceRecord {
        request: GovernanceRequest {
            tier: HardwareGovernanceTier::Tier4SubstrateChange,
            epu_name: "x".into(),
            description: "d".into(),
            resource_impact: "r".into(),
            rollback_plan: "p".into(),
        },
        decision: GovernanceDecision::Denied("too risky".into()),
        reviewer: "human".into(),
        reviewed_at: 0,
    };
    match governance_outcome(HardwareGovernanceTier::Tier4SubstrateChange, &"x".to_string(), record) {
        Err(HardwareError::GovernanceRequired(m)) => assert_eq!(m, "Tier4:SubstrateChange governance denied: too risky"),
        _ => panic!("expected a governance error"),
    }
}

#[test]
fn generate_verilog_format() {
    let gen = SimulatedHdlGenerator::new();
    let hdl = gen.generate(&sample_spec(), &HdlFormat::Verilog).unwrap();
    assert_eq!(hdl.format, HdlFormat::Verilog);
    assert!(hdl.source.contains("module test_epu"));
    assert!(hdl.source.contains("endmodule"));
    assert!(hdl.source.contains("input wire clk"));
    assert!(hdl.source.contains("  input wire [32-1:0] commitment_gate_0_in,\n"));
}

#[test]
fn generate_systemverilog_format() {
    let gen = SimulatedHdlGenerator::new();
    let hdl = gen.generate(&sample_spec(), &HdlFormat::SystemVerilog).unwrap();
    assert_eq!(hdl.format, HdlFormat::SystemVerilog);
    assert!(hdl.source.contains("input logic clk"));
    assert!(hdl.source.contains("always_comb"));
}

#[test]
fn generate_chisel_format() {
    let gen = SimulatedHdlGenerator::new();
    let hdl = gen.generate(&sample_spec(), &HdlFormat::Chisel).unwrap();
    assert_eq!(hdl.format, HdlFormat::Chisel);
    assert!(hdl.source.contains("import chisel3._"));
    assert!(hdl.source.contains("class test_epu"));
}

#[test]
fn generate_vhdl_format() {
    let gen = SimulatedHdlGenerator::new();
    let hdl = gen.generate(&sample_spec(), &HdlFormat::Vhdl).unwrap();
    assert_eq!(hdl.format, HdlFormat::Vhdl);
    assert!(hdl.source.contains("entity test_epu"));
    assert!(hdl.source.contains("IEEE.STD_LOGIC_1164"));
}

#[test]
fn generated_hdl_has_hash() {
    let gen = SimulatedHdlGenerator::new();
    let hdl = gen.generate(&sample_spec(), &HdlFormat::Verilog).unwrap();
    assert!(!hdl.content_hash.is_empty());
    assert_eq!(hdl.content_hash.len(), 16);
    assert_eq!(hdl.content_hash, GeneratedHdl::compute_hash(&hdl.source));
}

#[test]
fn generated_hdl_display() {
    let gen = SimulatedHdlGenerator::new();
    let hdl = gen.generate(&sample_spec(), &HdlFormat::Verilog).unwrap();
    let display = hdl.to_string();
    assert!(display.contains("verilog"));
    assert!(display.contains("test_epu"));
}

#[test]
fn generated_hdl_line_count() {
    let gen = SimulatedHdlGenerator::new();
    let hdl = gen.generate(&sample_spec(), &HdlFormat::Verilog).unwrap();
    assert!(hdl.line_count > 5);
    assert_eq!(hdl.line_count, hdl.source.lines().count());
}

#[test]
fn generator_name() {
    let gen = SimulatedHdlGenerator::new();
    assert_eq!(gen.name(), "simulated-hdl-generator");
}

#[test]
fn rolling_hash_values() {
    assert_eq!(GeneratedHdl::compute_hash(""), "0000000000000000");
    assert_eq!(GeneratedHdl::compute_hash("a"), "0000000000000061");
    assert_eq!(GeneratedHdl::compute_hash("ab"), format!("{:016x}", 97u64 * 31 + 98));
}

#[test]
fn line_count_matches_str_lines() {
    for s in ["", "a", "a\n", "a\nb", "a\n\nb\n", "\n"] {
        assert_eq!(line_count(s), s.lines().count(), "{:?}", s);
    }
}

#[test]
fn simulation_passes() {
    let sim = SimulatedHardwareSimulator::new();
    let spec = sim_spec();
    let hdl = sample_hdl(&spec);
    let result = sim.simulate(&spec, &hdl, &sample_vectors()).unwrap();
    assert!(result.passed);
    assert_eq!(result.test_cases_passed, 2);
    assert_eq!(result.test_cases_failed, 0);
}

#[test]
fn simulation_cycles_counted() {
    let sim = SimulatedHardwareSimulator::new();
    let spec = sim_spec();
    let hdl = sample_hdl(&spec);
    let result = sim.simulate(&spec, &hdl, &sample_vectors()).unwrap();
    assert!(result.cycles_simulated >= 600);
}

#[test]
fn simulation_timing_met() {
    let sim = SimulatedHardwareSimulator::new();
    let spec = sim_spec();
    let hdl = sample_hdl(&spec);
    let result = sim.simulate(&spec, &hdl, &sample_vectors()).unwrap();
    assert!(result.timing_met);
    assert!(result.max_frequency_khz > 0);
    assert_eq!(result.max_frequency_khz, 500_000);
}

#[test]
fn simulation_empty_vectors() {
    let sim = SimulatedHardwareSimulator::new();
    let spec = sim_spec();
    let hdl = sample_hdl(&spec);
    let result = sim.simulate(&spec, &hdl, &[]).unwrap();
    assert!(result.passed);
    assert_eq!(result.test_cases_passed, 0);
    assert_eq!(result.cycles_simulated, 1000);
}

#[test]
fn simulation_slow_latency_misses_timing() {
    let sim = SimulatedHardwareSimulator::new();
    let spec = SimulatedEpuDesigner::new().design("slow", 20_000).unwrap();
    let hdl = sample_hdl(&spec);
    let result = sim.simulate(&spec, &hdl, &default_test_vectors()).unwrap();
    assert_eq!(result.max_frequency_khz, 50_000);
    assert!(!result.timing_met);
    assert_eq!(result.test_cases_passed, 3);
    assert_eq!(result.cycles_simulated, 1000);
}

#[test]
fn simulator_name() {
    let sim = SimulatedHardwareSimulator::new();
    assert_eq!(sim.name(), "simulated-verilator");
}
