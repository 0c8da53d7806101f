use maple_worldline::deployment::engine::{apply_rollback_outcome, DeploymentArtifact, DeploymentEngine, RecordQuery};
use maple_worldline::deployment::error::{DeploymentError, DeploymentResult};
use maple_worldline::deployment::feedback::DeploymentFeedback;
use maple_worldline::deployment::rollback::{DeploymentRollbackExecutor, DeploymentRollbackResult, SimulatedRollback};
use maple_worldline::deployment::types::{
    DeploymentConfig, DeploymentId, DeploymentPhase, DeploymentRecord, DeploymentStatus, DeploymentStrategy,
    DeploymentSummary, SelfModTier,
};
use maple_worldline::intent::proposal::{RollbackPlan, RollbackStrategy};

fn make_rollback_plan() -> RollbackPlan {
    RollbackPlan {
        strategy: RollbackStrategy::GitRevert,
        steps: vec!["git revert HEAD".into(), "verify build".into()],
        estimated_duration_secs: 60,
    }
}

fn make_artifact(tier: SelfModTier, strategy: DeploymentStrategy) -> DeploymentArtifact {
    DeploymentArtifact {
        codegen_id: "codegen-1".into(),
        commitment_id: "commit-1".into(),
        tier,
        deployment_strategy: strategy,
        generated_files: vec!["src/config.rs".into()],
        fully_validated: true,
        rollback_plan: RollbackPlan {
            strategy: RollbackStrategy::GitRevert,
            steps: vec!["git revert HEAD".into()],
            estimated_duration_secs: 60,
        },
    }
}

fn make_non_deployable_artifact() -> DeploymentArtifact {
    let mut artifact = make_artifact(SelfModTier::Tier0Configuration, DeploymentStrategy::Immediate);
    artifact.fully_validated = false;
    artifact
}

fn make_record() -> DeploymentRecord {
    DeploymentRecord::new(
        "codegen-1".into(),
        "commit-1".into(),
        SelfModTier::Tier0Configuration,
        DeploymentStrategy::Immediate,
        vec!["src/config.rs".into()],
    )
}

fn regression() -> DeploymentResult<()> {
    Err(DeploymentError::HealthCheckFailed("latency regression".into()))
}

#[test]
fn all_error_variants_display() {
    let errors: Vec<DeploymentError> = vec![
        DeploymentError::ArtifactNotDeployable("a".into()),
        DeploymentError::StrategyExecutionFailed("b".into()),
        DeploymentError::PhaseFailed("c".into()),
        DeploymentError::RollbackFailed("d".into()),
        DeploymentError::GitHubError("e".into()),
        DeploymentError::HealthCheckFailed("f".into()),
        DeploymentError::Timeout("g".into()),
        DeploymentError::FeedbackError("h".into()),
        DeploymentError::ConfigurationError("i".into()),
    ];
    for error in &errors {
        let msg = error.to_string();
        assert!(!msg.is_empty());
    }
    assert_eq!(errors.len(), 9);
}

#[test]
fn error_is_std_error() {
    let e = DeploymentError::Timeout("5 minutes".into());
    assert!(e.to_string().contains("5 minutes"));
}

#[test]
fn error_debug_format() {
    let e = DeploymentError::GitHubError("auth failed".into());
    let debug = format!("{:?}", e);
    assert!(debug.contains("GitHubError"));
    assert!(debug.contains("auth failed"));
}

#[test]
fn simulated_rollback_success() {
    let rb = SimulatedRollback::succeeding();
    let plan = make_rollback_plan();
    let files: Vec<String> = vec!["src/config.rs".into()];
    let result = rb.rollback(&plan, &files).unwrap();
    assert!(result.success);
    assert_eq!(result.steps_executed, 2);
    assert_eq!(result.total_steps, 2);
    assert!(matches!(result.strategy, RollbackStrategy::GitRevert));
    assert_eq!(result.output, "Rolled back 1 files using GitRevert");
    assert_eq!(result.duration_ms, 200);
}

#[test]
fn simulated_rollback_failure() {
    let rb = SimulatedRollback::failing();
    let plan = make_rollback_plan();
    let files: Vec<String> = vec!["src/config.rs".into()];
    let result = rb.rollback(&plan, &files).unwrap();
    assert!(!result.success);
    assert_eq!(result.steps_executed, 0);
    assert_eq!(result.output, "Simulated rollback failure");
}

#[test]
fn rollback_name() {
    let rb = SimulatedRollback::succeeding();
    assert_eq!(rb.name(), "simulated-rollback");
}

#[test]
fn rollback_result_fields() {
    let result = DeploymentRollbackResult {
        success: true,
        steps_executed: 3,
        total_steps: 3,
        strategy: RollbackStrategy::GitRevert,
        output: "ok".into(),
        duration_ms: 150,
    };
    assert_eq!(result.steps_executed, result.total_steps);
    assert!(result.duration_ms > 0);
}

#[test]
fn deployment_id_uniqueness() {
    let a = DeploymentId::new();
    let b = DeploymentId::new();
    assert_ne!(a, b);
}

#[test]
fn deployment_id_display_format() {
    let id = DeploymentId::new();
    assert!(id.to_string().starts_with("deploy:"));
}

#[test]
fn deployment_phase_display() {
    assert_eq!(DeploymentPhase::Validating.to_string(), "validating");
    assert_eq!(DeploymentPhase::Deploying { traffic_percent: 10 }.to_string(), "deploying(10%)");
    assert_eq!(
        DeploymentPhase::Monitoring { traffic_percent: 25, elapsed_secs: 60 }.to_string(),
        "monitoring(25%, 60s)"
    );
    assert_eq!(
        DeploymentPhase::Promoting { from_percent: 25, to_percent: 50 }.to_string(),
        "promoting(25%\u{2192}50%)"
    );
    assert_eq!(DeploymentPhase::Complete.to_string(), "complete");
    assert_eq!(DeploymentPhase::RollingBack.to_string(), "rolling-back");
    assert_eq!(DeploymentPhase::RolledBack.to_string(), "rolled-back");
}

#[test]
fn strategy_display_names() {
    assert_eq!(DeploymentStrategy::Immediate.to_string(), "immediate");
    assert_eq!(DeploymentStrategy::Canary.to_string(), "canary");
    assert_eq!(DeploymentStrategy::Staged.to_string(), "staged");
    assert_eq!(DeploymentStrategy::BlueGreen.to_string(), "blue-green");
}

#[test]
fn deployment_record_lifecycle() {
    let mut record = make_record();
    assert!(matches!(record.status, DeploymentStatus::Pending));
    assert!(matches!(record.current_phase, DeploymentPhase::Validating));
    assert!(record.completed_at.is_none());

    record.mark_in_progress();
    assert!(matches!(record.status, DeploymentStatus::InProgress));

    record.advance_phase(DeploymentPhase::Deploying { traffic_percent: 100 });
    assert_eq!(record.phase_count(), 1);

    record.mark_succeeded();
    assert!(matches!(record.status, DeploymentStatus::Succeeded));
    assert!(record.completed_at.is_some());
    assert!(record.duration_ms().is_some());
    assert_eq!(record.phase_count(), 2);
    assert!(matches!(record.current_phase, DeploymentPhase::Complete));
}

#[test]
fn deployment_record_failure() {
    let mut record = DeploymentRecord::new(
        "codegen-2".into(),
        "commit-2".into(),
        SelfModTier::Tier1OperatorInternal,
        DeploymentStrategy::Canary,
        vec!["src/handler.rs".into()],
    );
    record.mark_in_progress();
    record.mark_failed("compilation error".into());
    assert!(matches!(record.status, DeploymentStatus::Failed(_)));
    assert!(record.completed_at.is_some());
}

#[test]
fn deployment_record_rollback() {
    let mut record = DeploymentRecord::new(
        "codegen-3".into(),
        "commit-3".into(),
        SelfModTier::Tier2ApiChange,
        DeploymentStrategy::Staged,
        vec!["src/api.rs".into()],
    );
    record.mark_in_progress();
    record.advance_phase(DeploymentPhase::Deploying { traffic_percent: 10 });
    record.advance_phase(DeploymentPhase::RollingBack);
    record.mark_rolled_back("regression detected".into());

    assert!(record.rollback_triggered);
    assert_eq!(record.rollback_reason.as_deref(), Some("regression detected"));
    assert!(matches!(record.status, DeploymentStatus::RolledBack(_)));
    assert_eq!(record.phase_count(), 3);
}

#[test]
fn record_duration_at_fixed_times() {
    let mut record = DeploymentRecord::new_at(
        "c".into(),
        "m".into(),
        SelfModTier::Tier0Configuration,
        DeploymentStrategy::Immediate,
        vec![],
        1_000,
    );
    assert_eq!(record.duration_ms(), None);
    record.mark_succeeded_at(1_250);
    assert_eq!(record.duration_ms(), Some(250));
}

#[test]
fn summary_default() {
    let s = DeploymentSummary::default();
    assert_eq!(s.total, 0);
    assert_eq!(s.succeeded, 0);
}

#[test]
fn deployment_summary_text() {
    let s = DeploymentSummary {
        total: 10,
        pending: 0,
        in_progress: 1,
        succeeded: 7,
        failed: 1,
        rolled_back: 1,
        total_files_deployed: 35,
    };
    assert_eq!(s.to_string(), "DeploymentSummary(total=10, succeeded=7, failed=1, rolled_back=1, files=35)");
}

#[test]
fn deployment_config_defaults() {
    let cfg = DeploymentConfig::default();
    assert_eq!(cfg.max_deployment_timeout_secs, 3600);
    assert_eq!(cfg.health_check_interval_secs, 30);
    assert_eq!(cfg.max_regression_percent, 5);
    assert!(cfg.auto_rollback);
    assert_eq!(cfg.staged_percents, vec![10, 25, 50, 100]);
    assert_eq!(cfg.max_tracked_records, 256);
}

#[test]
fn feedback_none_for_pending_deployment() {
    let record = make_record();
    assert!(DeploymentFeedback::generate_feedback(&record).is_none());
}

#[test]
fn feedback_generated_for_succeeded_deployment() {
    let mut record = make_record();
    record.mark_in_progress();
    record.mark_succeeded();
    let feedback = DeploymentFeedback::generate_feedback(&record).unwrap();
    assert!(feedback.approved);
    assert_eq!(feedback.stages_evaluated, 1);
}

#[test]
fn feedback_generated_for_failed_deployment() {
    let mut record = make_record();
    record.mark_in_progress();
    record.mark_failed("compilation error".into());
    let feedback = DeploymentFeedback::generate_feedback(&record).unwrap();
    assert!(!feedback.approved);
}

#[test]
fn feedback_generated_for_rolled_back_deployment() {
    let mut record = make_record();
    record.mark_in_progress();
    record.mark_rolled_back("regression detected".into());
    let feedback = DeploymentFeedback::generate_feedback(&record).unwrap();
    assert!(!feedback.approved);
}

#[test]
fn deploy_immediate_success() {
    let mut engine = DeploymentEngine::new(SimulatedRollback::succeeding());
    let artifact = make_artifact(SelfModTier::Tier0Configuration, DeploymentStrategy::Immediate);
    let result = engine.deploy(&artifact, Ok(()));
    assert!(result.is_ok());
    let id = result.unwrap();
    let record = engine.find(&id).unwrap();
    assert!(matches!(record.status, DeploymentStatus::Succeeded));
    assert!(record.completed_at.is_some());
    assert!(!record.rollback_triggered);
}

#[test]
fn deploy_non_deployable_artifact_fails() {
    let mut engine = DeploymentEngine::new(SimulatedRollback::succeeding());
    let artifact = make_non_deployable_artifact();
    let result = engine.deploy(&artifact, Ok(()));
    assert!(matches!(result, Err(DeploymentError::ArtifactNotDeployable(_))));
    assert_eq!(engine.all_records().len(), 1);
    assert!(matches!(&engine.all_records()[0].status, DeploymentStatus::Failed(m) if m == "Artifact not deployable"));
}

#[test]
fn deploy_without_files_is_not_deployable() {
    let mut engine = DeploymentEngine::new(SimulatedRollback::succeeding());
    let mut artifact = make_artifact(SelfModTier::Tier0Configuration, DeploymentStrategy::Immediate);
    artifact.generated_files.clear();
    assert!(!artifact.is_deployable());
    assert!(engine.deploy(&artifact, Ok(())).is_err());
}

#[test]
fn deploy_with_rollback_on_regression() {
    let mut engine = DeploymentEngine::new(SimulatedRollback::succeeding());
    let artifact = make_artifact(SelfModTier::Tier1OperatorInternal, DeploymentStrategy::Canary);
    let result = engine.deploy(&artifact, regression());
    match result {
        Err(DeploymentError::HealthCheckFailed(m)) => {
            assert_eq!(m, "Strategy failed: Health check failed: latency regression")
        }
        other => panic!("unexpected {:?}", other),
    }
    let summary = engine.summary();
    assert_eq!(summary.total, 1);
    assert_eq!(summary.rolled_back, 1);
}

#[test]
fn deploy_with_rollback_failure() {
    let mut engine = DeploymentEngine::new(SimulatedRollback::failing());
    let artifact = make_artifact(SelfModTier::Tier1OperatorInternal, DeploymentStrategy::Canary);
    let result = engine.deploy(&artifact, regression());
    assert!(matches!(result, Err(DeploymentError::StrategyExecutionFailed(_))));
    let summary = engine.summary();
    assert_eq!(summary.failed, 1);
    assert_eq!(summary.rolled_back, 0);
    let record = &engine.all_records()[0];
    assert!(!record.rollback_triggered);
    assert!(record.completed_at.is_some());
    assert!(matches!(&record.status, DeploymentStatus::Failed(m)
        if m == "Strategy failed (Health check failed: latency regression), rollback also failed"));
}

#[test]
fn deploy_auto_rollback_disabled() {
    let config = DeploymentConfig { auto_rollback: false, ..DeploymentConfig::default() };
    let mut engine = DeploymentEngine::with_config(SimulatedRollback::succeeding(), config);
    let artifact = make_artifact(SelfModTier::Tier1OperatorInternal, DeploymentStrategy::Canary);
    let result = engine.deploy(&artifact, regression());
    assert!(result.is_err());
    let summary = engine.summary();
    assert_eq!(summary.failed, 1);
    assert_eq!(summary.rolled_back, 0);
}

#[test]
fn deploy_feedback_generation() {
    let mut engine = DeploymentEngine::new(SimulatedRollback::succeeding());
    let artifact = make_artifact(SelfModTier::Tier0Configuration, DeploymentStrategy::Immediate);
    let id = engine.deploy(&artifact, Ok(())).unwrap();
    let feedback = engine.get_feedback(&id).unwrap();
    assert!(feedback.approved);
    assert!(engine.get_feedback(&DeploymentId("missing".into())).is_none());
}

#[test]
fn find_by_commitment() {
    let mut engine = DeploymentEngine::new(SimulatedRollback::succeeding());
    let artifact = make_artifact(SelfModTier::Tier0Configuration, DeploymentStrategy::Immediate);
    engine.deploy(&artifact, Ok(())).unwrap();
    assert!(engine.find_by_commitment("commit-1").is_some());
    assert!(engine.find_by_commitment("nonexistent").is_none());
}

#[test]
fn learning_metrics() {
    let mut engine = DeploymentEngine::new(SimulatedRollback::succeeding());
    let artifact = make_artifact(SelfModTier::Tier0Configuration, DeploymentStrategy::Immediate);
    engine.deploy(&artifact, Ok(())).unwrap();
    let bad = make_non_deployable_artifact();
    let _ = engine.deploy(&bad, Ok(()));
    let counts = engine.learning_counts();
    assert_eq!(counts.total_terminal, 2);
    assert_eq!(counts.succeeded, 1);
    assert_eq!(counts.rolled_back, 0);
}

#[test]
fn learning_metrics_per_tier() {
    let mut engine = DeploymentEngine::new(SimulatedRollback::succeeding());
    let a0 = make_artifact(SelfModTier::Tier0Configuration, DeploymentStrategy::Immediate);
    engine.deploy(&a0, Ok(())).unwrap();
    let a1 = make_artifact(SelfModTier::Tier1OperatorInternal, DeploymentStrategy::Canary);
    engine.deploy(&a1, Ok(())).unwrap();
    let counts = engine.learning_counts();
    assert!(!counts.per_tier.is_empty());
    assert!(!counts.per_strategy.is_empty());
    assert_eq!(counts.per_tier.len(), 2);
    assert_eq!(counts.per_tier[0].tier, SelfModTier::Tier0Configuration);
    assert_eq!(counts.per_tier[1].tier, SelfModTier::Tier1OperatorInternal);
    assert_eq!(counts.per_strategy[0].strategy, "immediate");
    assert_eq!(counts.per_strategy[1].strategy, "canary");
}

#[test]
fn learning_counts_with_rollback() {
    let mut engine = DeploymentEngine::new(SimulatedRollback::succeeding());
    let a = make_artifact(SelfModTier::Tier2ApiChange, DeploymentStrategy::Staged);
    let _ = engine.deploy(&a, regression());
    engine.deploy(&a, Ok(())).unwrap();
    let counts = engine.learning_counts();
    assert_eq!(counts.total_terminal, 2);
    assert_eq!(counts.succeeded, 1);
    assert_eq!(counts.rolled_back, 1);
    assert_eq!(counts.duration_count, 2);
    assert_eq!(engine.count(RecordQuery::RolledBack), 1);
    assert_eq!(engine.count(RecordQuery::Strategy(DeploymentStrategy::Staged)), 2);
}

#[test]
fn bounded_record_fifo() {
    let config = DeploymentConfig { max_tracked_records: 3, ..DeploymentConfig::default() };
    let mut engine = DeploymentEngine::with_config(SimulatedRollback::succeeding(), config);
    for _ in 0..5 {
        let artifact = make_artifact(SelfModTier::Tier0Configuration, DeploymentStrategy::Immediate);
        engine.deploy(&artifact, Ok(())).unwrap();
    }
    assert_eq!(engine.all_records().len(), 3);
}

#[test]
fn rollback_outcome_error_marks_failed() {
    let mut record = make_record();
    record.mark_in_progress();
    let strategy_error = DeploymentError::PhaseFailed("deploy".into());
    apply_rollback_outcome(&mut record, &strategy_error, Err(DeploymentError::Timeout("30s".into())), 5);
    match &record.status {
        DeploymentStatus::Failed(m) => {
            assert_eq!(m, "Strategy failed (Phase failed: deploy), rollback error: Deployment timeout: 30s")
        }
        other => panic!("unexpected {:?}", other),
    }
    assert_eq!(record.completed_at, Some(5));
    assert!(!record.rollback_triggered);
}
