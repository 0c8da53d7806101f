use maple_worldline::compiler::artifact::{ArtifactBuilder, CompilationArtifact};
use maple_worldline::compiler::strategy::CompilationStrategy;
use maple_worldline::compiler::codegen::{
    CodeGenerator, GeneratedCode, NativeCodeGen, OperatorCallCodeGen, WasmCodeGen, WlirInterpreterCodeGen,
};
use maple_worldline::compiler::compiler::AdaptiveCompiler;
use maple_worldline::compiler::error::CompilerError;
use maple_worldline::compiler::evolution::{SimulatedEvolver, StrategyEvolver};
use maple_worldline::compiler::ir::{BoundaryDirection, VerificationStatus, WlirFunction, WlirInstruction, WlirModule};
use maple_worldline::compiler::passes::{
    apply_pass, CommitmentBatchingPass, CommonSubexpressionEliminationPass, ConstantFoldingPass,
    DeadCodeEliminationPass, EventDeduplicationPass, InliningPass, MemoryTierPromotionPass, OperatorDispatchSpecializationPass,
    OptimizationPass, OptimizationPipeline, PassId, PassResult, ProvenanceCoalescingPass, SafetyFenceMinimizationPass,
    TailCallOptimizationPass,
};
use maple_worldline::compiler::types::{
    CompilationId, CompilationStatus, CompilationTarget, CompilerConfig, OptimizationLevel, ProfilingData, StrategyId,
    TargetArch, WasmEnvironment,
};

fn module_of(name: &str, f: WlirFunction) -> WlirModule {
    let mut module = WlirModule::new(name, "1.0");
    module.add_function(f);
    module
}

fn strategy_with(target: CompilationTarget, passes: Vec<PassId>) -> CompilationStrategy {
    CompilationStrategy {
        id: StrategyId::from_name("test"),
        name: "test".into(),
        description: "test strategy".into(),
        target,
        optimization_level: OptimizationLevel::Basic,
        enabled_passes: passes,
    }
}

fn base_strategy() -> CompilationStrategy {
    strategy_with(CompilationTarget::Native { arch: TargetArch::X86_64 }, vec![PassId::ConstantFolding])
}

fn empty_strategy() -> CompilationStrategy {
    strategy_with(CompilationTarget::Native { arch: TargetArch::X86_64 }, vec![])
}

fn make_module() -> WlirModule {
    let mut f = WlirFunction::new("main");
    f.push_instruction(WlirInstruction::Nop);
    f.push_instruction(WlirInstruction::Return);
    module_of("test", f)
}

fn make_codegen_module() -> WlirModule {
    let mut f = WlirFunction::new("main");
    f.push_instruction(WlirInstruction::Nop);
    f.push_instruction(WlirInstruction::Return);
    let mut module = WlirModule::new("test-module", "1.0.0");
    module.add_function(f);
    module
}

fn make_module_with_constants() -> WlirModule {
    let mut f = WlirFunction::new("compute");
    f.push_instruction(WlirInstruction::LoadConst);
    f.push_instruction(WlirInstruction::LoadConst);
    f.push_instruction(WlirInstruction::Add);
    f.push_instruction(WlirInstruction::Return);
    module_of("const-test", f)
}

fn boundary(id: &str, direction: BoundaryDirection) -> WlirInstruction {
    WlirInstruction::CrossCommitmentBoundary { commitment_id: id.into(), direction }
}

fn make_module_with_commitments() -> WlirModule {
    let mut f = WlirFunction::new("transact");
    f.push_instruction(boundary("payment", BoundaryDirection::Enter));
    f.push_instruction(WlirInstruction::Nop);
    f.push_instruction(boundary("payment", BoundaryDirection::Exit));
    f.push_instruction(boundary("audit", BoundaryDirection::Enter));
    f.push_instruction(boundary("audit", BoundaryDirection::Exit));
    f.push_instruction(WlirInstruction::Return);
    module_of("commit-test", f)
}

fn make_module_with_safety_fences() -> WlirModule {
    let mut f = WlirFunction::new("safe_op");
    f.push_instruction(WlirInstruction::SafetyFence);
    f.push_instruction(WlirInstruction::AssertInvariant);
    f.push_instruction(WlirInstruction::SafetyFence);
    f.push_instruction(WlirInstruction::Nop);
    f.push_instruction(WlirInstruction::Return);
    module_of("safety-test", f)
}

#[test]
fn compilation_id_creation() {
    let a = CompilationId::new();
    let b = CompilationId::new();
    assert_ne!(a, b);
    assert!(a.to_string().starts_with("compile:"));
}

#[test]
fn strategy_id_from_name() {
    let id = StrategyId::from_name("fast-native");
    assert_eq!(id.to_string(), "strategy:fast-native");
}

#[test]
fn compilation_target_native_x86() {
    let target = CompilationTarget::Native { arch: TargetArch::X86_64 };
    assert_eq!(target.to_string(), "native-x86-64");
}

#[test]
fn compilation_target_wasm_browser() {
    let target = CompilationTarget::Wasm { env: WasmEnvironment::Browser };
    assert_eq!(target.to_string(), "wasm-browser");
}

#[test]
fn compilation_target_all_variants() {
    let targets = vec![
        CompilationTarget::Native { arch: TargetArch::X86_64 },
        CompilationTarget::Native { arch: TargetArch::Aarch64 },
        CompilationTarget::Wasm { env: WasmEnvironment::Browser },
        CompilationTarget::Wasm { env: WasmEnvironment::Edge },
        CompilationTarget::OperatorCall,
        CompilationTarget::Interpreted,
    ];
    for t in &targets {
        assert!(!t.to_string().is_empty());
    }
    assert_eq!(targets.len(), 6);
}

#[test]
fn optimization_level_display() {
    assert_eq!(OptimizationLevel::Disabled.to_string(), "none");
    assert_eq!(OptimizationLevel::Basic.to_string(), "basic");
    assert_eq!(OptimizationLevel::Aggressive.to_string(), "aggressive");
}

#[test]
fn compilation_status_display() {
    assert_eq!(CompilationStatus::Started.to_string(), "started");
    assert_eq!(CompilationStatus::Complete.to_string(), "complete");
    assert!(CompilationStatus::Failed("oops".into()).to_string().contains("oops"));
}

#[test]
fn profiling_data_default() {
    let pd = ProfilingData::default();
    assert!(pd.hot_functions.is_empty());
    assert_eq!(pd.commitment_boundary_crossings, 0);
}

#[test]
fn lib_public_types_accessible() {
    let _id = CompilationId::new();
    let _sid = StrategyId::from_name("test");
    let _target = CompilationTarget::Interpreted;
    let _level = OptimizationLevel::Aggressive;
    let _status = CompilationStatus::Started;
    let _config = CompilerConfig::default();
    let _profiling = ProfilingData::default();
    let _pass = PassId::ConstantFolding;
}

#[test]
fn pass_result_display() {
    let r = PassResult { pass_id: PassId::ConstantFolding, applied: true, changes_made: 5, description: "5 folded".into() };
    let display = r.to_string();
    assert!(display.contains("constant-folding"));
    assert!(display.contains("applied"));
    assert!(display.contains("5 changes"));
    assert_eq!(display, "constant-folding: applied (5 changes) \u{2014} 5 folded");
}

#[test]
fn generator_names() {
    assert_eq!(NativeCodeGen::new(TargetArch::X86_64).name(), "native-codegen");
    assert_eq!(WasmCodeGen::new(WasmEnvironment::Browser).name(), "wasm-codegen");
    assert_eq!(OperatorCallCodeGen::new().name(), "operator-call-codegen");
    assert_eq!(WlirInterpreterCodeGen::new().name(), "wlir-interpreter");
}

#[test]
fn generator_names_accessible() {
    assert_eq!(NativeCodeGen::new(TargetArch::X86_64).name(), "native-codegen");
    assert_eq!(WasmCodeGen::new(WasmEnvironment::Browser).name(), "wasm-codegen");
    assert_eq!(OperatorCallCodeGen::new().name(), "operator-call-codegen");
    assert_eq!(WlirInterpreterCodeGen::new().name(), "wlir-interpreter");
}

#[test]
fn evolver_name() {
    let evolver = SimulatedEvolver::new();
    assert_eq!(evolver.name(), "simulated-strategy-evolver");
}

#[test]
fn native_codegen_x86_64() {
    let gen = NativeCodeGen::new(TargetArch::X86_64);
    let module = make_codegen_module();
    let code = gen.generate(&module).unwrap();
    assert_eq!(code.target, CompilationTarget::Native { arch: TargetArch::X86_64 });
    assert!(code.content.contains("push rbp"));
    assert!(code.content.contains("test-module"));
}

#[test]
fn native_codegen_aarch64() {
    let gen = NativeCodeGen::new(TargetArch::Aarch64);
    let module = make_codegen_module();
    let code = gen.generate(&module).unwrap();
    assert!(code.content.contains("stp x29"));
}

#[test]
fn wasm_codegen_browser() {
    let gen = WasmCodeGen::new(WasmEnvironment::Browser);
    let module = make_codegen_module();
    let code = gen.generate(&module).unwrap();
    assert_eq!(code.target, CompilationTarget::Wasm { env: WasmEnvironment::Browser });
    assert!(code.content.contains("(module"));
    assert!(code.content.contains("(func $main"));
}

#[test]
fn wasm_codegen_edge() {
    let gen = WasmCodeGen::new(WasmEnvironment::Edge);
    let module = make_codegen_module();
    let code = gen.generate(&module).unwrap();
    assert!(code.content.contains("edge"));
}

#[test]
fn operator_call_codegen() {
    let gen = OperatorCallCodeGen::new();
    let module = make_codegen_module();
    let code = gen.generate(&module).unwrap();
    assert_eq!(code.target, CompilationTarget::OperatorCall);
    assert!(code.content.contains("fn main()"));
    assert!(code.content.contains("Result<()"));
}

#[test]
fn wlir_interpreter_codegen() {
    let gen = WlirInterpreterCodeGen::new();
    let code = gen.package_json("{\"name\": \"test-module\"}".to_string());
    assert_eq!(code.target, CompilationTarget::Interpreted);
    assert!(code.content.contains("test-module"));
    assert_eq!(gen.target(), CompilationTarget::Interpreted);
}

#[test]
fn generated_code_hash_deterministic() {
    let h1 = GeneratedCode::compute_hash("hello world");
    let h2 = GeneratedCode::compute_hash("hello world");
    assert_eq!(h1, h2);
    let h3 = GeneratedCode::compute_hash("different");
    assert_ne!(h1, h3);
}

#[test]
fn generated_code_hash_is_fnv1a() {
    assert_eq!(GeneratedCode::compute_hash(""), "cbf29ce484222325");
    assert_eq!(GeneratedCode::compute_hash("a"), "af63dc4c8601ec8c");
}

#[test]
fn generated_code_size_tracking() {
    let gen = NativeCodeGen::new(TargetArch::X86_64);
    let module = make_codegen_module();
    let code = gen.generate(&module).unwrap();
    assert_eq!(code.size_bytes, code.content.len());
    assert!(code.size_bytes > 0);
}

#[test]
fn codegen_preserves_module_name() {
    let gen = WasmCodeGen::new(WasmEnvironment::Browser);
    let module = make_codegen_module();
    let code = gen.generate(&module).unwrap();
    assert!(code.content.contains("test-module"));
}

#[test]
fn codegen_includes_all_functions() {
    let mut module = WlirModule::new("multi", "1.0");
    module.add_function(WlirFunction::new("func_a"));
    module.add_function(WlirFunction::new("func_b"));
    let gen = OperatorCallCodeGen::new();
    let code = gen.generate(&module).unwrap();
    assert!(code.content.contains("func_a"));
    assert!(code.content.contains("func_b"));
}

#[test]
fn all_targets_generate_successfully() {
    let module = make_codegen_module();
    let generators: Vec<Box<dyn CodeGenerator>> = vec![
        Box::new(NativeCodeGen::new(TargetArch::X86_64)),
        Box::new(NativeCodeGen::new(TargetArch::Aarch64)),
        Box::new(WasmCodeGen::new(WasmEnvironment::Browser)),
        Box::new(WasmCodeGen::new(WasmEnvironment::Edge)),
        Box::new(OperatorCallCodeGen::new()),
    ];
    for gen in &generators {
        let code = gen.generate(&module).unwrap();
        assert!(!code.content.is_empty());
        assert!(!code.content_hash.is_empty());
    }
}

#[test]
fn native_codegen_exact_text() {
    let code = NativeCodeGen::new(TargetArch::X86_64).generate(&make_codegen_module()).unwrap();
    assert_eq!(
        code.content,
        "; Native x86-64 assembly for module 'test-module' v1.0.0\n; Functions: 1\n\n.global main\nmain:\n  push rbp\n  mov rbp, rsp\n  ; 2 instructions\n  pop rbp\n  ret\n\n"
    );
    assert_eq!(code.content_hash, GeneratedCode::compute_hash(&code.content));
}

#[test]
fn no_changes_on_empty_profiling() {
    let evolver = SimulatedEvolver::new();
    let profiling = ProfilingData::default();
    let proposal = evolver.propose(&empty_strategy(), &profiling);
    assert!(!proposal.has_changes());
    assert_eq!(proposal.reason, "no changes recommended");
}

#[test]
fn high_memory_enables_tier_promotion() {
    let evolver = SimulatedEvolver::new();
    let mut profiling = ProfilingData::default();
    profiling.memory_tier_usage.push(("episodic".into(), 200));
    let proposal = evolver.propose(&empty_strategy(), &profiling);
    assert!(proposal.has_changes());
    assert!(proposal.enable_passes.contains(&PassId::MemoryTierPromotion));
    assert_eq!(proposal.reason, "high memory usage");
}

#[test]
fn frequent_operators_enables_specialization() {
    let evolver = SimulatedEvolver::new();
    let mut profiling = ProfilingData::default();
    profiling.operator_call_frequency.push(("transfer".into(), 100));
    let proposal = evolver.propose(&empty_strategy(), &profiling);
    assert!(proposal.enable_passes.contains(&PassId::OperatorDispatchSpecialization));
}

#[test]
fn commitment_crossings_enables_batching() {
    let evolver = SimulatedEvolver::new();
    let mut profiling = ProfilingData::default();
    profiling.commitment_boundary_crossings = 50;
    let proposal = evolver.propose(&empty_strategy(), &profiling);
    assert!(proposal.enable_passes.contains(&PassId::CommitmentBatching));
}

#[test]
fn enabled_passes_are_not_proposed_again() {
    let evolver = SimulatedEvolver::new();
    let mut profiling = ProfilingData::default();
    profiling.memory_tier_usage.push(("semantic".into(), 500));
    profiling.commitment_boundary_crossings = 50;
    for i in 0..6 {
        profiling.hot_functions.push(format!("f{}", i));
    }
    let proposal = evolver.propose(
        &strategy_with(CompilationTarget::OperatorCall, vec![PassId::CommitmentBatching]),
        &profiling,
    );
    assert_eq!(proposal.enable_passes, vec![PassId::MemoryTierPromotion, PassId::InliningPass]);
    assert_eq!(proposal.reason, "high memory usage, many hot functions");
}

#[test]
fn constant_folding_applies() {
    let pass = ConstantFoldingPass;
    let module = make_module_with_constants();
    let result = pass.apply(&module).unwrap();
    assert_eq!(result.pass_id, PassId::ConstantFolding);
    assert!(result.applied);
    assert!(result.changes_made > 0);
    assert_eq!(result.description, "1 constant expressions folded");
}

#[test]
fn dead_code_elimination_finds_dead_code() {
    let mut f = WlirFunction::new("main");
    f.push_instruction(WlirInstruction::Return);
    f.push_instruction(WlirInstruction::Add);
    let module = module_of("dead-test", f);
    let pass = DeadCodeEliminationPass;
    let result = pass.apply(&module).unwrap();
    assert!(result.applied);
    assert_eq!(result.changes_made, 1);
}

#[test]
fn cse_eliminates_redundant() {
    let pass = CommonSubexpressionEliminationPass;
    let module = make_module_with_constants();
    let result = pass.apply(&module).unwrap();
    assert_eq!(result.pass_id, PassId::CommonSubexpressionElimination);
    assert_eq!(result.changes_made, 0);
    assert!(!result.applied);
}

#[test]
fn inlining_inlines_small_functions() {
    let pass = InliningPass;
    let module = make_module();
    let result = pass.apply(&module).unwrap();
    assert!(result.applied);
    assert_eq!(result.changes_made, 1);
}

#[test]
fn tail_call_optimization() {
    let mut f = WlirFunction::new("recursive");
    f.push_instruction(WlirInstruction::LoadConst);
    f.push_instruction(WlirInstruction::Call);
    f.push_instruction(WlirInstruction::Return);
    let module = module_of("tco-test", f);
    let pass = TailCallOptimizationPass;
    let result = pass.apply(&module).unwrap();
    assert!(result.applied);
    assert_eq!(result.changes_made, 1);
}

#[test]
fn commitment_batching_same_scope() {
    let mut f = WlirFunction::new("batch");
    f.push_instruction(boundary("pay", BoundaryDirection::Enter));
    f.push_instruction(boundary("pay", BoundaryDirection::Exit));
    f.push_instruction(boundary("pay", BoundaryDirection::Enter));
    f.push_instruction(boundary("pay", BoundaryDirection::Exit));
    f.push_instruction(WlirInstruction::Return);
    let module = module_of("batch-test", f);
    let pass = CommitmentBatchingPass;
    let result = pass.apply(&module).unwrap();
    assert!(result.applied);
    assert!(result.changes_made > 0);
    assert_eq!(result.changes_made, 1);
}

#[test]
fn commitment_batching_rejects_different_scopes() {
    let module = make_module_with_commitments();
    let pass = CommitmentBatchingPass;
    let result = pass.apply(&module).unwrap();
    assert!(result.description.contains("different-scope preserved"));
    assert_eq!(result.changes_made, 0);
    assert_eq!(result.description, "0 same-scope commitment boundaries batched, 1 different-scope preserved");
}

#[test]
fn provenance_coalescing() {
    let mut f = WlirFunction::new("traced");
    f.push_instruction(WlirInstruction::RecordProvenance);
    f.push_instruction(WlirInstruction::RecordProvenance);
    f.push_instruction(WlirInstruction::Return);
    let module = module_of("prov-test", f);
    let pass = ProvenanceCoalescingPass;
    let result = pass.apply(&module).unwrap();
    assert!(result.applied);
    assert_eq!(result.changes_made, 1);
}

#[test]
fn event_deduplication() {
    let mut f = WlirFunction::new("emit");
    f.push_instruction(WlirInstruction::EmitEvent { event_type: "click".into() });
    f.push_instruction(WlirInstruction::EmitEvent { event_type: "click".into() });
    f.push_instruction(WlirInstruction::Return);
    let module = module_of("event-test", f);
    let pass = EventDeduplicationPass;
    let result = pass.apply(&module).unwrap();
    assert!(result.applied);
    assert_eq!(result.changes_made, 1);
}

#[test]
fn operator_dispatch_specialization() {
    let mut f = WlirFunction::new("dispatch");
    f.push_instruction(WlirInstruction::InvokeOperator);
    f.push_instruction(WlirInstruction::Return);
    let module = module_of("op-test", f);
    let pass = OperatorDispatchSpecializationPass;
    let result = pass.apply(&module).unwrap();
    assert!(result.applied);
    assert_eq!(result.changes_made, 1);
}

#[test]
fn memory_tier_promotion() {
    let mut f = WlirFunction::new("mem_op");
    f.push_instruction(WlirInstruction::MemoryQuery);
    f.push_instruction(WlirInstruction::MemoryStore);
    f.push_instruction(WlirInstruction::Return);
    let module = module_of("mem-test", f);
    let pass = MemoryTierPromotionPass;
    let result = pass.apply(&module).unwrap();
    assert!(result.applied);
    assert_eq!(result.changes_made, 1);
}

#[test]
fn safety_fence_minimization_preserves_invariants() {
    let module = make_module_with_safety_fences();
    let pass = SafetyFenceMinimizationPass;
    let result = pass.apply(&module).unwrap();
    assert!(result.description.contains("invariant-guarding fences preserved"));
    let preserved_str = result.description.split("invariant-guarding").next().unwrap();
    let last_num: String = preserved_str
        .chars()
        .rev()
        .skip_while(|c| !c.is_ascii_digit())
        .take_while(|c| c.is_ascii_digit())
        .collect::<String>()
        .chars()
        .rev()
        .collect();
    let preserved: u32 = last_num.parse().unwrap_or(0);
    assert!(preserved >= 1);
}

#[test]
fn safety_fence_minimization_redundant_only() {
    let mut f = WlirFunction::new("fenced");
    f.push_instruction(WlirInstruction::SafetyFence);
    f.push_instruction(WlirInstruction::SafetyFence);
    f.push_instruction(WlirInstruction::Nop);
    f.push_instruction(WlirInstruction::Return);
    let module = module_of("fence-test", f);
    let pass = SafetyFenceMinimizationPass;
    let result = pass.apply(&module).unwrap();
    assert!(result.applied);
    assert!(result.changes_made > 0);
}

#[test]
fn invariant_compile_2_commitment_gates_preserved() {
    let mut f = WlirFunction::new("transact");
    f.push_instruction(boundary("payment", BoundaryDirection::Enter));
    f.push_instruction(boundary("payment", BoundaryDirection::Exit));
    f.push_instruction(boundary("audit", BoundaryDirection::Enter));
    f.push_instruction(boundary("audit", BoundaryDirection::Exit));
    f.push_instruction(WlirInstruction::Return);
    let mut module = module_of("commitment-test", f);
    module.verification_status = VerificationStatus::FullyVerified;
    let pass = CommitmentBatchingPass;
    let result = pass.apply(&module).unwrap();
    assert!(result.description.contains("different-scope preserved"));
    assert_eq!(result.changes_made, 0);
}

#[test]
fn invariant_compile_2_safety_fences_for_invariants() {
    let mut f = WlirFunction::new("safe_op");
    f.push_instruction(WlirInstruction::SafetyFence);
    f.push_instruction(WlirInstruction::AssertInvariant);
    f.push_instruction(WlirInstruction::Return);
    let mut module = module_of("fence-test", f);
    module.verification_status = VerificationStatus::FullyVerified;
    let pass = SafetyFenceMinimizationPass;
    let result = pass.apply(&module).unwrap();
    assert!(result.description.contains("invariant-guarding fences preserved"));
    assert_eq!(result.changes_made, 0);
}

#[test]
fn guarding_fence_kept_even_after_another_fence() {
    let mut f = WlirFunction::new("double");
    f.push_instruction(WlirInstruction::SafetyFence);
    f.push_instruction(WlirInstruction::SafetyFence);
    f.push_instruction(WlirInstruction::AssertInvariant);
    let module = module_of("guard", f);
    let result = apply_pass(PassId::SafetyFenceMinimization, &module);
    assert_eq!(result.changes_made, 0);
    assert_eq!(result.description, "0 redundant fences minimized, 2 invariant-guarding fences preserved (I.COMPILE-2b)");
}

#[test]
fn pipeline_applies_all_passes() {
    let mut pipeline = OptimizationPipeline::new();
    pipeline.add_pass(PassId::ConstantFolding);
    pipeline.add_pass(PassId::DeadCodeElimination);
    assert_eq!(pipeline.len(), 2);
    let module = make_module();
    let results = pipeline.apply_all(&module).unwrap();
    assert_eq!(results.len(), 2);
    assert_eq!(results[0].pass_id, PassId::ConstantFolding);
    assert_eq!(results[1].pass_id, PassId::DeadCodeElimination);
}

#[test]
fn verify_module_requires_full_verification() {
    let compiler = AdaptiveCompiler::new();
    let module = make_module();
    match compiler.verify_module(&module) {
        Err(CompilerError::ModuleNotVerified(m)) => {
            assert_eq!(m, "Module 'test' has verification status Unverified, expected Verified")
        },
        _ => panic!("expected a refusal"),
    }
    let mut verified = make_module();
    verified.verification_status = VerificationStatus::FullyVerified;
    assert!(compiler.verify_module(&verified).is_ok());
    let relaxed = AdaptiveCompiler::with_config(CompilerConfig { enable_safety_checks: false, ..CompilerConfig::default() });
    assert!(relaxed.verify_module(&module).is_ok());
    assert!(!relaxed.config().enable_safety_checks);
}

fn sample_code() -> GeneratedCode {
    GeneratedCode {
        target: CompilationTarget::Native { arch: TargetArch::X86_64 },
        content: "push rbp\nret\n".into(),
        content_hash: GeneratedCode::compute_hash("push rbp\nret\n"),
        size_bytes: 13,
        generated_at: 0,
    }
}

fn sample_pass_results() -> Vec<PassResult> {
    vec![
        PassResult { pass_id: PassId::ConstantFolding, applied: true, changes_made: 3, description: "3 folded".into() },
        PassResult { pass_id: PassId::DeadCodeElimination, applied: false, changes_made: 0, description: "none".into() },
    ]
}

fn sample_artifact(name: &str) -> CompilationArtifact {
    ArtifactBuilder::new(CompilationId::new())
        .module("module-1".into(), name.into())
        .strategy(base_strategy())
        .optimization_results(sample_pass_results())
        .generated_code(sample_code())
        .build()
        .unwrap()
}

#[test]
fn artifact_creation() {
    let artifact = sample_artifact("test-mod");
    assert_eq!(artifact.module_name, "test-mod");
    assert_eq!(artifact.module_id, "module-1");
}

#[test]
fn artifact_total_optimizations() {
    assert_eq!(sample_artifact("test").total_optimizations_applied(), 3);
}

#[test]
fn artifact_optimizations_summary() {
    let summary = sample_artifact("test").optimizations_summary();
    assert!(summary.contains("1/2 passes applied"));
    assert!(summary.contains("3 total changes"));
    assert_eq!(summary, "1/2 passes applied, 3 total changes");
}

#[test]
fn artifact_builder_missing_module_fails() {
    let result = ArtifactBuilder::new(CompilationId::new())
        .strategy(base_strategy())
        .generated_code(sample_code())
        .build();
    assert!(result.is_err());
}

#[test]
fn artifact_builder_missing_code_fails() {
    let result = ArtifactBuilder::new(CompilationId::new())
        .module("module-1".into(), "test".into())
        .strategy(base_strategy())
        .build();
    match result {
        Err(CompilerError::ConfigurationError(m)) => assert_eq!(m, "generated_code is required"),
        other => panic!("unexpected {:?}", other.is_ok()),
    }
}

#[test]
fn artifact_builder_missing_strategy_fails() {
    let result = ArtifactBuilder::new(CompilationId::new())
        .module("module-1".into(), "test".into())
        .generated_code(sample_code())
        .build();
    match result {
        Err(CompilerError::ConfigurationError(m)) => assert_eq!(m, "strategy is required"),
        other => panic!("unexpected {:?}", other.is_ok()),
    }
}

#[test]
fn proposal_apply_creates_evolved_strategy() {
    let evolver = SimulatedEvolver::new();
    let strategy = base_strategy();
    let mut profiling = ProfilingData::default();
    profiling.memory_tier_usage.push(("semantic".into(), 500));
    let proposal = evolver.propose(&strategy, &profiling);
    let evolved = proposal.apply_to(&strategy);
    assert!(evolved.has_pass(PassId::MemoryTierPromotion));
    assert!(evolved.description.contains("evolved"));
    assert_eq!(evolved.description, "test strategy (evolved: high memory usage)");
    assert_eq!(evolved.enabled_passes, vec![PassId::ConstantFolding, PassId::MemoryTierPromotion]);
}

#[test]
fn strategy_enable_and_disable_passes() {
    let mut s = base_strategy();
    s.enable_pass(PassId::ConstantFolding);
    assert_eq!(s.enabled_passes, vec![PassId::ConstantFolding]);
    s.enable_pass(PassId::InliningPass);
    assert!(s.has_pass(PassId::InliningPass));
    s.disable_pass(PassId::ConstantFolding);
    assert_eq!(s.enabled_passes, vec![PassId::InliningPass]);
    assert!(!s.has_pass(PassId::ConstantFolding));
}

#[test]
fn pipeline_from_strategy() {
    let strategy = strategy_with(
        CompilationTarget::OperatorCall,
        vec![PassId::ConstantFolding, PassId::CommitmentBatching, PassId::SafetyFenceMinimization],
    );
    let pipeline = OptimizationPipeline::from_strategy(&strategy);
    assert_eq!(pipeline.len(), 3);
    let results = pipeline.apply_all(&make_module_with_commitments()).unwrap();
    assert_eq!(results[0].pass_id, PassId::ConstantFolding);
    assert_eq!(results[1].pass_id, PassId::CommitmentBatching);
    assert_eq!(results[2].pass_id, PassId::SafetyFenceMinimization);
}

fn verified(mut m: WlirModule) -> WlirModule {
    m.verification_status = VerificationStatus::FullyVerified;
    m
}

fn verified_module() -> WlirModule {
    let mut f = WlirFunction::new("main");
    f.push_instruction(WlirInstruction::Nop);
    f.push_instruction(WlirInstruction::Return);
    verified(module_of("test-mod", f))
}

fn unverified_module() -> WlirModule {
    module_of("unverified", WlirFunction::new("main"))
}

fn config_strategy(target: CompilationTarget) -> CompilationStrategy {
    strategy_with(target, vec![PassId::ConstantFolding, PassId::DeadCodeElimination])
}

#[test]
fn compile_verified_module() {
    let compiler = AdaptiveCompiler::new();
    let module = verified_module();
    let strategy = config_strategy(CompilationTarget::Native { arch: TargetArch::X86_64 });
    let artifact = compiler.compile_with_strategy(&module, &strategy, "{}").unwrap();
    assert_eq!(artifact.module_name, "test-mod");
    assert!(!artifact.generated_code.content.is_empty());
    assert_eq!(artifact.module_id, module.id);
    assert_eq!(artifact.optimization_results.len(), 2);
}

#[test]
fn compile_rejects_unverified_module() {
    let compiler = AdaptiveCompiler::new();
    let module = unverified_module();
    let result = compiler.compile_with_strategy(&module, &base_strategy(), "{}");
    match result {
        Err(e) => {
            let err = e.to_string();
            assert!(err.contains("not verified") || err.contains("Not verified"));
            assert_eq!(err, "module not verified: Module 'unverified' has verification status Unverified, expected Verified");
        }
        Ok(_) => panic!("unverified module compiled"),
    }
}

#[test]
fn compile_with_safety_disabled_skips_verification() {
    let config = CompilerConfig { enable_safety_checks: false, ..CompilerConfig::default() };
    let compiler = AdaptiveCompiler::with_config(config);
    let module = unverified_module();
    assert!(compiler.compile_with_strategy(&module, &base_strategy(), "{}").is_ok());
}

#[test]
fn compile_with_explicit_strategy() {
    let compiler = AdaptiveCompiler::new();
    let module = verified_module();
    let strategy = strategy_with(CompilationTarget::Wasm { env: WasmEnvironment::Browser }, vec![PassId::InliningPass]);
    let artifact = compiler.compile_with_strategy(&module, &strategy, "{}").unwrap();
    assert_eq!(artifact.strategy.target, CompilationTarget::Wasm { env: WasmEnvironment::Browser });
    let expected = WasmCodeGen::new(WasmEnvironment::Browser).generate(&module).unwrap();
    assert_eq!(artifact.generated_code.content, expected.content);
}

#[test]
fn compile_to_native_x86() {
    let compiler = AdaptiveCompiler::new();
    let strategy = config_strategy(CompilationTarget::Native { arch: TargetArch::X86_64 });
    let artifact = compiler.compile_with_strategy(&verified_module(), &strategy, "{}").unwrap();
    assert!(artifact.generated_code.content.contains("push rbp"));
}

#[test]
fn compile_to_native_aarch64() {
    let compiler = AdaptiveCompiler::new();
    let strategy = config_strategy(CompilationTarget::Native { arch: TargetArch::Aarch64 });
    let artifact = compiler.compile_with_strategy(&verified_module(), &strategy, "{}").unwrap();
    assert!(artifact.generated_code.content.contains("stp x29"));
}

#[test]
fn compile_to_operator_call() {
    let compiler = AdaptiveCompiler::new();
    let strategy = config_strategy(CompilationTarget::OperatorCall);
    let artifact = compiler.compile_with_strategy(&verified_module(), &strategy, "{}").unwrap();
    assert!(artifact.generated_code.content.contains("fn main()"));
    assert_eq!(artifact.generated_code.target, CompilationTarget::OperatorCall);
}

#[test]
fn compile_to_interpreted() {
    let compiler = AdaptiveCompiler::new();
    let strategy = config_strategy(CompilationTarget::Interpreted);
    let json = "{\"name\":\"test-mod\"}";
    let artifact = compiler.compile_with_strategy(&verified_module(), &strategy, json).unwrap();
    assert!(artifact.generated_code.content.contains("test-mod"));
    assert_eq!(artifact.generated_code.content, json);
    assert_eq!(artifact.generated_code.size_bytes, 19);
}

#[test]
fn compile_with_no_optimization() {
    let compiler = AdaptiveCompiler::new();
    let strategy = strategy_with(CompilationTarget::Native { arch: TargetArch::X86_64 }, vec![]);
    let artifact = compiler.compile_with_strategy(&verified_module(), &strategy, "{}").unwrap();
    assert!(artifact.optimization_results.is_empty());
}

#[test]
fn compile_records_compilation_time() {
    let compiler = AdaptiveCompiler::new();
    let artifact = compiler.compile_with_strategy(&verified_module(), &base_strategy(), "{}").unwrap();
    assert!(artifact.compilation_time_ms < 10_000);
    assert!(artifact.compiled_at > 0);
}
