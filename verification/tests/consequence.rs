use sha2::Digest;
use maple_worldline::deployment::engine::{DeploymentArtifact, DeploymentEngine};
use maple_worldline::deployment::rollback::SimulatedRollback;
use maple_worldline::deployment::types::{DeploymentStrategy, SelfModTier};
use maple_worldline::commitment::types::{CommitmentLifecycleStatus, CommitmentRecord, SelfCommitmentId};
use maple_worldline::consequence::engine::SelfConsequenceEngine;
use maple_worldline::consequence::error::{ConsequenceError, ConsequenceResult};
use maple_worldline::consequence::executor::{ConsequenceExecutor, ExecutionResult, SimulatedExecutor};
use maple_worldline::consequence::feedback::ObservationFeedback;
use maple_worldline::consequence::receipt::ExecutionReceipt;
use maple_worldline::consequence::rollback::{RollbackExecutor, RollbackResult, SimulatedRollbackExecutor};
use maple_worldline::consequence::types::{
    ConsequenceConfig, ConsequenceRecord, ConsequenceStatus, ConsequenceSummary, SelfConsequenceId,
};
use maple_worldline::intent::proposal::{
    CodeChangeSpec, RegenerationProposal, RollbackPlan, RollbackStrategy, TestSpec, TestType,
};
use maple_worldline::intent::types::{CodeChangeType, IntentId, ProposalId, SubstrateTier};

fn now_ms() -> i64 {
    std::time::SystemTime::now().duration_since(std::time::UNIX_EPOCH).unwrap().as_millis() as i64
}

fn make_approved_commitment(tier: SubstrateTier) -> CommitmentRecord {
    let now = now_ms();
    CommitmentRecord {
        id: SelfCommitmentId::new(),
        intent_id: IntentId::new(),
        commitment_id: None,
        governance_tier: tier,
        observation_start: now,
        observation_required_secs: 1800,
        status: CommitmentLifecycleStatus::Approved,
        created_at: now,
        resolved_at: None,
    }
}

fn make_proposal(summary: &str, tests: usize) -> RegenerationProposal {
    let mut required_tests = Vec::new();
    for i in 0..tests {
        required_tests.push(TestSpec {
            name: format!("test_{}", i),
            description: "Verify".into(),
            test_type: TestType::Unit,
        });
    }
    RegenerationProposal {
        id: ProposalId::new(),
        summary: summary.into(),
        rationale: "Reduce startup time".into(),
        affected_components: vec!["config".into()],
        code_changes: vec![CodeChangeSpec {
            file_path: "src/config.rs".into(),
            change_type: CodeChangeType::ModifyFunction { function_name: "load".into() },
            description: "Cache config".into(),
            affected_regions: vec!["load()".into()],
            provenance: vec!["meaning-1".into()],
        }],
        required_tests,
        safety_checks: vec![],
        rollback_plan: RollbackPlan {
            strategy: RollbackStrategy::GitRevert,
            steps: vec!["git revert HEAD".into()],
            estimated_duration_secs: 60,
        },
    }
}

fn make_test_proposal() -> RegenerationProposal {
    make_proposal("Optimize config loading", 2)
}

fn engine(succeed: bool) -> SelfConsequenceEngine<SimulatedExecutor, SimulatedRollbackExecutor> {
    SelfConsequenceEngine::new(SimulatedExecutor::new(succeed), SimulatedRollbackExecutor::new(true))
}

fn make_receipt() -> ExecutionReceipt {
    ExecutionReceipt::new(
        SelfConsequenceId::new(),
        SelfCommitmentId::new(),
        IntentId::new(),
        SubstrateTier::Tier0,
        5,
        "Optimized config loading".into(),
    )
}

#[test]
fn self_consequence_id_uniqueness() {
    let a = SelfConsequenceId::new();
    let b = SelfConsequenceId::new();
    assert_ne!(a, b);
}

#[test]
fn self_consequence_id_display() {
    let id = SelfConsequenceId::new();
    assert!(id.to_string().starts_with("self-csq:"));
}

#[test]
fn consequence_status_display() {
    assert_eq!(ConsequenceStatus::Pending.to_string(), "pending");
    assert_eq!(ConsequenceStatus::Executing.to_string(), "executing");
    assert_eq!(ConsequenceStatus::Succeeded.to_string(), "succeeded");
    assert_eq!(ConsequenceStatus::Failed("timeout".into()).to_string(), "failed: timeout");
    assert_eq!(ConsequenceStatus::RolledBack("reverted".into()).to_string(), "rolled-back: reverted");
}

#[test]
fn consequence_status_terminal() {
    assert!(!ConsequenceStatus::Pending.is_terminal());
    assert!(!ConsequenceStatus::Executing.is_terminal());
    assert!(ConsequenceStatus::Succeeded.is_terminal());
    assert!(ConsequenceStatus::Failed("x".into()).is_terminal());
    assert!(ConsequenceStatus::RolledBack("x".into()).is_terminal());
}

#[test]
fn consequence_status_success() {
    assert!(!ConsequenceStatus::Pending.is_success());
    assert!(ConsequenceStatus::Succeeded.is_success());
    assert!(!ConsequenceStatus::Failed("x".into()).is_success());
}

#[test]
fn consequence_record_lifecycle() {
    let mut record = ConsequenceRecord::new(SelfCommitmentId::new(), IntentId::new(), SubstrateTier::Tier0);
    assert!(matches!(record.status, ConsequenceStatus::Pending));
    assert!(record.execution_start.is_none());
    record.mark_executing();
    assert!(matches!(record.status, ConsequenceStatus::Executing));
    assert!(record.execution_start.is_some());
    let receipt = ExecutionReceipt::new(
        record.id.clone(),
        record.self_commitment_id.clone(),
        record.intent_id.clone(),
        SubstrateTier::Tier0,
        5,
        "test execution".into(),
    );
    record.mark_succeeded(receipt, 5);
    assert!(matches!(record.status, ConsequenceStatus::Succeeded));
    assert!(record.execution_end.is_some());
    assert_eq!(record.tests_passed, 5);
    assert!(record.receipt.is_some());
}

#[test]
fn consequence_record_failure_and_rollback() {
    let mut record = ConsequenceRecord::new(SelfCommitmentId::new(), IntentId::new(), SubstrateTier::Tier1);
    record.mark_executing();
    record.mark_failed("compilation error".into(), 2, 1);
    assert!(matches!(record.status, ConsequenceStatus::Failed(_)));
    assert_eq!(record.tests_passed, 2);
    assert_eq!(record.tests_failed, 1);
    record.mark_rolled_back("reverted via git".into());
    assert!(matches!(record.status, ConsequenceStatus::RolledBack(_)));
    assert!(record.rollback_attempted);
}

#[test]
fn types_config_defaults() {
    let cfg = ConsequenceConfig::default();
    assert_eq!(cfg.max_execution_duration_secs, 3600);
    assert!(cfg.require_tests_pass);
    assert!(cfg.require_performance_gates);
    assert_eq!(cfg.max_tracked_consequences, 256);
    assert!(cfg.auto_rollback_on_failure);

    let cfg = maple_worldline::evos::types::EvosConfig::default();
    assert!(cfg.require_healthy_start);
    assert!(cfg.abort_on_failure);
    assert_eq!(cfg.max_tracked_records, 256);

    let cfg = maple_worldline::compiler::types::CompilerConfig::default();
    assert_eq!(cfg.optimization_level, maple_worldline::compiler::types::OptimizationLevel::Basic);
    assert!(cfg.enable_safety_checks);
    assert_eq!(cfg.max_optimization_iterations, 10);
    assert_eq!(cfg.max_tracked_records, 256);

    let cfg = maple_worldline::hardware::types::HardwareConfig::default();
    assert_eq!(cfg.target, maple_worldline::hardware::types::FpgaTarget::SimulationOnly);
    assert_eq!(cfg.hdl_format, maple_worldline::hardware::types::HdlFormat::SystemVerilog);
    assert_eq!(cfg.target_clock_khz, 100_000);
    assert!(cfg.simulate_before_synthesis);
    assert!(cfg.enforce_governance);

    let cfg = maple_worldline::deployment::types::DeploymentConfig::default();
    assert_eq!(cfg.max_deployment_timeout_secs, 3600);
    assert!(cfg.auto_rollback);
    assert_eq!(cfg.staged_percents, vec![10, 25, 50, 100]);
    assert_eq!(cfg.max_tracked_records, 256);
}

#[test]
fn types_summary_display() {
    let s = maple_worldline::commitment::types::CommitmentSummary {
        total: 10,
        pending: 2,
        approved: 3,
        denied: 1,
        fulfilled: 3,
        failed: 1,
    };
    let display = s.to_string();
    assert!(display.contains("total=10"));
    assert!(display.contains("fulfilled=3"));

    let s = ConsequenceSummary { total: 10, pending: 1, succeeded: 6, failed: 2, rolled_back: 1 };
    let display = s.to_string();
    assert!(display.contains("total=10"));
    assert!(display.contains("succeeded=6"));
    assert!(display.contains("rolled_back=1"));

    let s = maple_worldline::evos::types::EvosSummary {
        total_cycles: 10,
        successful_cycles: 8,
        failed_cycles: 2,
        total_steps_executed: 70,
        current_bootstrap_phase: 3,
    };
    let display = s.to_string();
    assert!(display.contains("cycles=10"));
    assert!(display.contains("bootstrap=phase3"));

    let s = maple_worldline::hardware::types::HardwareSummary {
        total_generations: 10,
        successful_generations: 8,
        failed_generations: 2,
        total_simulations_run: 15,
        total_bitstreams_produced: 5,
    };
    let display = s.to_string();
    assert!(display.contains("generations=10"));
    assert!(display.contains("bitstreams=5"));

    let s = maple_worldline::deployment::types::DeploymentSummary {
        total: 10,
        pending: 1,
        in_progress: 1,
        succeeded: 5,
        failed: 2,
        rolled_back: 1,
        total_files_deployed: 25,
    };
    let display = s.to_string();
    assert!(display.contains("total=10"));
    assert!(display.contains("succeeded=5"));
    assert!(display.contains("files=25"));
}

#[test]
fn error_display_execution_failed() {
    let err = ConsequenceError::ExecutionFailed("test compilation failed".into());
    assert_eq!(err.to_string(), "execution failed: test compilation failed");
}

#[test]
fn error_display_rollback_failed() {
    let err = ConsequenceError::RollbackFailed("git revert conflict".into());
    assert_eq!(err.to_string(), "rollback failed: git revert conflict");
}

#[test]
fn error_display_commitment_not_approved() {
    let err = ConsequenceError::CommitmentNotApproved("cmt-123".into());
    assert_eq!(err.to_string(), "commitment not approved: cmt-123");
}

#[test]
fn consequence_result_ok() {
    let result: ConsequenceResult<u32> = Ok(42);
    assert_eq!(result.unwrap(), 42);
}

#[test]
fn simulated_executor_success() {
    let executor = SimulatedExecutor::new(true);
    let proposal = make_proposal("Optimize gate scheduling", 2);
    let result = executor.execute(&proposal).unwrap();
    assert!(result.success);
    assert_eq!(result.tests_passed, 2);
    assert_eq!(result.tests_failed, 0);
    assert!(result.output.contains("Optimize gate scheduling"));
}

#[test]
fn simulated_executor_failure() {
    let executor = SimulatedExecutor::new(false);
    let proposal = make_test_proposal();
    let result = executor.execute(&proposal);
    assert!(result.is_err());
    match result {
        Err(ConsequenceError::ExecutionFailed(msg)) => {
            assert!(msg.contains("Simulated failure"));
        },
        _ => panic!("Expected ExecutionFailed"),
    }
}

#[test]
fn simulated_executor_name() {
    let executor = SimulatedExecutor::new(true);
    assert_eq!(executor.name(), "simulated-executor");
}

#[test]
fn execution_result_fields() {
    let result = ExecutionResult {
        success: true,
        tests_passed: 10,
        tests_failed: 0,
        output: "All good".into(),
        duration_ms: 500,
    };
    assert!(result.success);
    assert_eq!(result.tests_passed, 10);
    assert_eq!(result.duration_ms, 500);
}

#[test]
fn feedback_for_succeeded_consequence() {
    let feedback = ObservationFeedback::new();
    let mut record = ConsequenceRecord::new(SelfCommitmentId::new(), IntentId::new(), SubstrateTier::Tier0);
    record.mark_executing();
    let receipt = ExecutionReceipt::new(
        record.id.clone(),
        record.self_commitment_id.clone(),
        record.intent_id.clone(),
        SubstrateTier::Tier0,
        5,
        "test".into(),
    );
    record.mark_succeeded(receipt, 5);
    let signal = feedback.generate_feedback(&record).unwrap();
    assert!(signal.approved);
    assert_eq!(signal.stages_evaluated, 5);
}

#[test]
fn feedback_for_failed_consequence() {
    let feedback = ObservationFeedback::new();
    let mut record = ConsequenceRecord::new(SelfCommitmentId::new(), IntentId::new(), SubstrateTier::Tier1);
    record.mark_executing();
    record.mark_failed("compilation error".into(), 3, 2);
    let signal = feedback.generate_feedback(&record).unwrap();
    assert!(!signal.approved);
    assert_eq!(signal.stages_evaluated, 5);
}

#[test]
fn no_feedback_for_pending_consequence() {
    let feedback = ObservationFeedback::new();
    let record = ConsequenceRecord::new(SelfCommitmentId::new(), IntentId::new(), SubstrateTier::Tier0);
    assert!(feedback.generate_feedback(&record).is_none());
}

#[test]
fn no_feedback_for_executing_consequence() {
    let feedback = ObservationFeedback::new();
    let mut record = ConsequenceRecord::new(SelfCommitmentId::new(), IntentId::new(), SubstrateTier::Tier0);
    record.mark_executing();
    assert!(feedback.generate_feedback(&record).is_none());
}

#[test]
fn receipt_generation() {
    let receipt = make_receipt();
    assert!(receipt.receipt_id.starts_with("receipt-"));
    assert!(!receipt.execution_hash.is_empty());
    assert_eq!(receipt.tests_passed, 5);
    assert_eq!(receipt.governance_tier, SubstrateTier::Tier0);
}

#[test]
fn receipt_verification_succeeds() {
    let receipt = make_receipt();
    assert!(receipt.verify());
}

#[test]
fn receipt_tamper_detection() {
    let mut receipt = make_receipt();
    assert!(receipt.verify());
    receipt.summary = "Tampered summary".to_string();
    assert!(!receipt.verify());
}

#[test]
fn receipt_hash_deterministic() {
    let receipt = make_receipt();
    let hash1 = receipt.compute_hash();
    let hash2 = receipt.compute_hash();
    assert_eq!(hash1, hash2);
}

#[test]
fn receipt_hash_is_sha256_hex() {
    let receipt = make_receipt();
    let h = receipt.compute_hash();
    assert_eq!(h.len(), 64);
    assert!(h.chars().all(|c| c.is_ascii_hexdigit() && !c.is_ascii_uppercase()));
    let mut other = receipt.clone();
    other.tests_passed = 6;
    assert_ne!(other.compute_hash(), h);
}

#[test]
fn execute_approved_success() {
    let mut engine = engine(true);
    let commitment = make_approved_commitment(SubstrateTier::Tier0);
    let proposal = make_test_proposal();
    let id = engine.execute_approved(&commitment, &proposal).unwrap();
    let record = engine.find(&id).unwrap();
    assert!(record.status.is_success());
    assert!(record.receipt.is_some());
    assert_eq!(record.tests_passed, 2);
    assert!(record.receipt.as_ref().unwrap().verify());
    assert!(record.receipt.as_ref().unwrap().issued_at > 1_600_000_000_000_000_000);
    assert!(!record.rollback_attempted);
}

#[test]
fn execute_approved_failure_with_rollback() {
    let mut engine = engine(false);
    let commitment = make_approved_commitment(SubstrateTier::Tier0);
    let proposal = make_test_proposal();
    let id = engine.execute_approved(&commitment, &proposal).unwrap();
    let record = engine.find(&id).unwrap();
    assert!(matches!(record.status, ConsequenceStatus::RolledBack(_)));
    assert!(record.rollback_attempted);
}

#[test]
fn reject_non_approved_commitment() {
    let mut engine = engine(true);
    let mut commitment = make_approved_commitment(SubstrateTier::Tier0);
    commitment.status = CommitmentLifecycleStatus::PendingObservation;
    let proposal = make_test_proposal();
    let result = engine.execute_approved(&commitment, &proposal);
    assert!(matches!(result, Err(ConsequenceError::CommitmentNotApproved(_))));
    assert_eq!(engine.all_records().len(), 0);
}

#[test]
fn record_external_outcome_success() {
    let mut engine = engine(true);
    let cmt_id = SelfCommitmentId::new();
    let intent_id = IntentId::new();
    let id = engine.record_external_outcome(
        &cmt_id,
        &intent_id,
        SubstrateTier::Tier1,
        true,
        Some("Manual verification passed".into()),
    );
    let record = engine.find(&id).unwrap();
    assert!(record.status.is_success());
    assert!(record.receipt.is_some());
}

#[test]
fn record_external_outcome_failure() {
    let mut engine = engine(true);
    let id = engine.record_external_outcome(
        &SelfCommitmentId::new(),
        &IntentId::new(),
        SubstrateTier::Tier0,
        false,
        Some("Manual test failed".into()),
    );
    let record = engine.find(&id).unwrap();
    assert!(matches!(record.status, ConsequenceStatus::Failed(_)));
}

#[test]
fn feedback_generation() {
    let mut engine = engine(true);
    let commitment = make_approved_commitment(SubstrateTier::Tier0);
    let proposal = make_test_proposal();
    let id = engine.execute_approved(&commitment, &proposal).unwrap();
    let feedback = engine.get_feedback(&id);
    assert!(feedback.is_some());
    assert!(feedback.unwrap().approved);
}

#[test]
fn engine_summary_statistics() {
    let mut engine = engine(true);
    for _ in 0..2 {
        let commitment = make_approved_commitment(SubstrateTier::Tier0);
        let proposal = make_test_proposal();
        engine.execute_approved(&commitment, &proposal).unwrap();
    }
    engine.record_external_outcome(&SelfCommitmentId::new(), &IntentId::new(), SubstrateTier::Tier0, false, None);
    let summary = engine.summary();
    assert_eq!(summary.total, 3);
    assert_eq!(summary.succeeded, 2);
    assert_eq!(summary.failed, 1);

    let mut deployments = DeploymentEngine::new(SimulatedRollback::succeeding());
    for _ in 0..2 {
        let artifact = DeploymentArtifact {
            codegen_id: "codegen-1".into(),
            commitment_id: "commit-1".into(),
            tier: SelfModTier::Tier0Configuration,
            deployment_strategy: DeploymentStrategy::Immediate,
            generated_files: vec!["src/config.rs".into()],
            fully_validated: true,
            rollback_plan: RollbackPlan {
                strategy: RollbackStrategy::GitRevert,
                steps: vec!["git revert HEAD".into()],
                estimated_duration_secs: 60,
            },
        };
        deployments.deploy(&artifact, Ok(())).unwrap();
    }
    let summary = deployments.summary();
    assert_eq!(summary.total, 2);
    assert_eq!(summary.succeeded, 2);
    assert_eq!(summary.total_files_deployed, 2);
}

#[test]
fn fifo_eviction_at_capacity() {
    let config = ConsequenceConfig { max_tracked_consequences: 3, ..ConsequenceConfig::default() };
    let mut engine = engine(true).with_config(config);
    let mut ids = Vec::new();
    for _ in 0..4 {
        let commitment = make_approved_commitment(SubstrateTier::Tier0);
        let proposal = make_test_proposal();
        let id = engine.execute_approved(&commitment, &proposal).unwrap();
        ids.push(id);
    }
    assert!(engine.find(&ids[0]).is_none());
    assert!(engine.find(&ids[1]).is_some());
    assert!(engine.find(&ids[2]).is_some());
    assert!(engine.find(&ids[3]).is_some());
    assert_eq!(engine.all_records().len(), 3);
}

#[test]
fn integration_full_cycle_success() {
    let mut engine = engine(true);
    let commitment = make_approved_commitment(SubstrateTier::Tier0);
    let proposal = make_proposal("Optimize config caching", 3);
    let csq_id = engine.execute_approved(&commitment, &proposal).unwrap();
    let record = engine.find(&csq_id).unwrap();
    assert!(record.status.is_success());
    assert_eq!(record.tests_passed, 3);
    assert_eq!(record.governance_tier, SubstrateTier::Tier0);
    let receipt = record.receipt.as_ref().unwrap();
    assert!(receipt.verify());
    assert_eq!(receipt.governance_tier, SubstrateTier::Tier0);
    assert_eq!(receipt.tests_passed, 3);
    assert_eq!(receipt.summary, "Executed 'Optimize config caching': 3 tests passed in 100ms");
    let feedback = engine.get_feedback(&csq_id);
    assert!(feedback.unwrap().approved);
    assert_eq!(engine.completed().len(), 1);
    assert_eq!(engine.pending_execution().len(), 0);
}

#[test]
fn integration_failure_with_rollback_and_feedback() {
    let mut engine = engine(false);
    let commitment = make_approved_commitment(SubstrateTier::Tier1);
    let proposal = make_proposal("Risky operator change", 4);
    let csq_id = engine.execute_approved(&commitment, &proposal).unwrap();
    let record = engine.find(&csq_id).unwrap();
    assert!(matches!(record.status, ConsequenceStatus::RolledBack(_)));
    assert_eq!(record.status.to_string(), "rolled-back: Rolled back via git-revert: 1/1 steps");
    assert!(record.rollback_attempted);
    assert!(record.receipt.is_none());
    let feedback = engine.get_feedback(&csq_id);
    assert!(!feedback.unwrap().approved);
    let summary = engine.summary();
    assert_eq!(summary.total, 1);
    assert_eq!(summary.rolled_back, 1);
    assert_eq!(summary.succeeded, 0);
}

#[test]
fn integration_multiple_consequences_summary() {
    let mut engine = engine(true);
    for (i, tier) in [SubstrateTier::Tier0, SubstrateTier::Tier1, SubstrateTier::Tier2].iter().enumerate() {
        let commitment = make_approved_commitment(*tier);
        let proposal = make_proposal(&format!("Optimization #{}", i + 1), i + 2);
        engine.execute_approved(&commitment, &proposal).unwrap();
    }
    engine.record_external_outcome(
        &SelfCommitmentId::new(),
        &IntentId::new(),
        SubstrateTier::Tier0,
        false,
        Some("Manual test regression".into()),
    );
    let summary = engine.summary();
    assert_eq!(summary.total, 4);
    assert_eq!(summary.succeeded, 3);
    assert_eq!(summary.failed, 1);
    assert_eq!(summary.rolled_back, 0);
    assert_eq!(summary.pending, 0);
    for record in engine.all_records() {
        let fb = engine.get_feedback(&record.id);
        assert!(fb.is_some());
    }
}

#[test]
fn failed_rollback_leaves_record_failed() {
    let mut engine: SelfConsequenceEngine<SimulatedExecutor, SimulatedRollbackExecutor> =
        SelfConsequenceEngine::new(SimulatedExecutor::new(false), SimulatedRollbackExecutor::new(false));
    let commitment = make_approved_commitment(SubstrateTier::Tier0);
    let id = engine.execute_approved(&commitment, &make_test_proposal()).unwrap();
    let record = engine.find(&id).unwrap();
    assert!(matches!(record.status, ConsequenceStatus::Failed(_)));
    assert!(record.rollback_attempted);
    assert_eq!(
        record.status.to_string(),
        "failed: Simulated failure of 'Optimize config loading': 1/2 tests failed"
    );
}

#[test]
fn not_approved_message_names_state() {
    let mut engine = engine(true);
    let mut commitment = make_approved_commitment(SubstrateTier::Tier0);
    commitment.status = CommitmentLifecycleStatus::Submitted;
    match engine.execute_approved(&commitment, &make_test_proposal()) {
        Err(ConsequenceError::CommitmentNotApproved(m)) => {
            assert!(m.starts_with("commitment self-cmt:"));
            assert!(m.ends_with("is in state 'submitted', expected 'approved'"));
        },
        _ => panic!("expected a refusal"),
    }
}

#[test]
fn receipt_hash_seals_the_json_payload() {
    let receipt = ExecutionReceipt::new_at(
        "receipt-fixed".to_string(),
        SelfConsequenceId("cons-1".to_string()),
        SelfCommitmentId("cmt-1".to_string()),
        IntentId("int-1".to_string()),
        SubstrateTier::Tier2,
        3,
        "Optimized config loading".to_string(),
        1_700_000_000_123_456_789,
    );
    let mut m = serde_json::Map::new();
    m.insert("consequence_id".into(), "cons-1".into());
    m.insert("commitment_id".into(), "cmt-1".into());
    m.insert("intent_id".into(), "intent:int-1".into());
    m.insert(
        "issued_at".into(),
        chrono::DateTime::from_timestamp_nanos(1_700_000_000_123_456_789).to_rfc3339().into(),
    );
    m.insert("summary".into(), "Optimized config loading".into());
    m.insert("tests_passed".into(), 3u64.into());
    m.insert("governance_tier".into(), "Tier2".into());
    let payload = serde_json::Value::Object(m).to_string();
    let mut hasher = sha2::Sha256::new();
    hasher.update(payload.as_bytes());
    let expected = format!("{:x}", hasher.finalize());
    assert_eq!(receipt.execution_hash, expected);
    assert!(receipt.verify());
}

#[test]
fn executed_receipt_id_is_prefixed_uuid() {
    let mut engine = engine(true);
    let commitment = make_approved_commitment(SubstrateTier::Tier0);
    let proposal = make_test_proposal();
    let id = engine.execute_approved(&commitment, &proposal).unwrap();
    let record = engine.find(&id).unwrap();
    let rid = &record.receipt.as_ref().unwrap().receipt_id;
    assert_eq!(rid.len(), 44);
    assert!(rid.starts_with("receipt-"));
    assert_eq!(rid[8..].matches('-').count(), 4);
}
