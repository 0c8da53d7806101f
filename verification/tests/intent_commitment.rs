use maple_worldline::deployment::error::{DeploymentError, DeploymentResult};
use maple_worldline::commitment::engine::{CommitmentConfig, PendingIntent, SelfCommitmentEngine};
use maple_worldline::commitment::lifecycle::CommitmentLifecycleManager;
use maple_worldline::commitment::mapper::{map_effect_domain, map_reversibility, DeclarationMapper, EffectDomain, Reversibility};
use maple_worldline::commitment::observation::ObservationPeriodTracker;
use maple_worldline::commitment::types::{CommitmentId, CommitmentLifecycleStatus, CommitmentSummary, SelfCommitmentId};
use maple_worldline::intent::error::{IntentError, IntentResult};
use maple_worldline::intent::validator::{
    check_code_changes, check_safeguards, IntentValidationResult, IssueSeverity, ValidationIssue,
};
use maple_worldline::intent::proposal::{
    CodeChangeSpec, RegenerationProposal, RollbackPlan, RollbackStrategy, SafetyCheck, TestSpec, TestType,
};
use maple_worldline::intent::types::{
    ChangeType, CodeChangeType, IntentId, IntentStatus, ProposalId, ReversibilityLevel, SubstrateTier,
};

fn now_ms() -> i64 {
    std::time::SystemTime::now().duration_since(std::time::UNIX_EPOCH).unwrap().as_millis() as i64
}

fn make_submission() -> (SelfCommitmentId, CommitmentLifecycleManager) {
    let mut mgr = CommitmentLifecycleManager::new(256);
    let id = mgr.record_submission(IntentId::new(), CommitmentId("cmt-1".into()), SubstrateTier::Tier0);
    (id, mgr)
}

fn make_proposal() -> RegenerationProposal {
    RegenerationProposal {
        id: ProposalId::new(),
        summary: "Optimize gate scheduling".into(),
        rationale: "Reduce latency".into(),
        affected_components: vec!["gate".into()],
        code_changes: vec![CodeChangeSpec {
            file_path: "src/gate.rs".into(),
            change_type: CodeChangeType::ModifyFunction { function_name: "schedule".into() },
            description: "Batch scheduling".into(),
            affected_regions: vec!["schedule()".into()],
            provenance: vec!["meaning-1".into()],
        }],
        required_tests: vec![TestSpec {
            name: "test_schedule".into(),
            description: "Verify scheduling".into(),
            test_type: TestType::Unit,
        }],
        safety_checks: vec![SafetyCheck { invariant: "I.REGEN-1".into(), description: "rollback".into() }],
        rollback_plan: RollbackPlan {
            strategy: RollbackStrategy::GitRevert,
            steps: vec!["git revert HEAD".into()],
            estimated_duration_secs: 60,
        },
    }
}

#[test]
fn self_commitment_id_uniqueness() {
    let a = SelfCommitmentId::new();
    let b = SelfCommitmentId::new();
    assert_ne!(a, b);
}

#[test]
fn self_commitment_id_display() {
    let id = SelfCommitmentId::new();
    assert!(id.to_string().starts_with("self-cmt:"));
}

#[test]
fn lifecycle_status_display() {
    assert_eq!(CommitmentLifecycleStatus::PendingObservation.to_string(), "pending-observation");
    assert_eq!(CommitmentLifecycleStatus::Denied("risk too high".into()).to_string(), "denied: risk too high");
}

#[test]
fn lifecycle_terminal_states() {
    assert!(!CommitmentLifecycleStatus::PendingObservation.is_terminal());
    assert!(!CommitmentLifecycleStatus::Submitted.is_terminal());
    assert!(!CommitmentLifecycleStatus::Approved.is_terminal());
    assert!(CommitmentLifecycleStatus::Denied("x".into()).is_terminal());
    assert!(CommitmentLifecycleStatus::Fulfilled.is_terminal());
    assert!(CommitmentLifecycleStatus::Failed("x".into()).is_terminal());
}

#[test]
fn lifecycle_active_states() {
    assert!(CommitmentLifecycleStatus::PendingObservation.is_active());
    assert!(CommitmentLifecycleStatus::ObservationComplete.is_active());
    assert!(CommitmentLifecycleStatus::Submitted.is_active());
    assert!(CommitmentLifecycleStatus::Approved.is_active());
    assert!(!CommitmentLifecycleStatus::Deferred("x".into()).is_active());
    assert!(!CommitmentLifecycleStatus::Fulfilled.is_active());
}

#[test]
fn record_submission_creates_record() {
    let (id, mgr) = make_submission();
    assert_eq!(mgr.len(), 1);
    let record = mgr.find(&id).unwrap();
    assert!(matches!(record.status, CommitmentLifecycleStatus::Submitted));
}

#[test]
fn approval_lifecycle() {
    let (id, mut mgr) = make_submission();
    mgr.record_approval(&id);
    let record = mgr.find(&id).unwrap();
    assert!(matches!(record.status, CommitmentLifecycleStatus::Approved));
    assert!(record.status.is_active());
}

#[test]
fn denial_lifecycle() {
    let (id, mut mgr) = make_submission();
    mgr.record_denial(&id, "policy denied".into());
    let record = mgr.find(&id).unwrap();
    assert!(matches!(record.status, CommitmentLifecycleStatus::Denied(_)));
    assert!(record.status.is_terminal());
    assert!(record.resolved_at.is_some());
}

#[test]
fn fulfilled_lifecycle() {
    let (id, mut mgr) = make_submission();
    mgr.record_approval(&id);
    mgr.record_fulfilled(&id);
    let record = mgr.find(&id).unwrap();
    assert!(matches!(record.status, CommitmentLifecycleStatus::Fulfilled));
}

#[test]
fn failed_lifecycle() {
    let (id, mut mgr) = make_submission();
    mgr.record_approval(&id);
    mgr.record_failed(&id, "rollback triggered".into());
    let record = mgr.find(&id).unwrap();
    assert!(matches!(record.status, CommitmentLifecycleStatus::Failed(_)));
}

#[test]
fn find_by_intent() {
    let mut mgr = CommitmentLifecycleManager::new(256);
    let intent_id = IntentId::new();
    mgr.record_submission(intent_id.clone(), CommitmentId("cmt-1".into()), SubstrateTier::Tier1);
    assert!(mgr.find_by_intent(&intent_id).is_some());
    assert!(mgr.find_by_intent(&IntentId::new()).is_none());
}

#[test]
fn lifecycle_summary_statistics() {
    let mut mgr = CommitmentLifecycleManager::new(256);
    let id1 = mgr.record_submission(IntentId::new(), CommitmentId("c1".into()), SubstrateTier::Tier0);
    let id2 = mgr.record_submission(IntentId::new(), CommitmentId("c2".into()), SubstrateTier::Tier0);
    let _id3 = mgr.record_submission(IntentId::new(), CommitmentId("c3".into()), SubstrateTier::Tier0);
    mgr.record_approval(&id1);
    mgr.record_fulfilled(&id1);
    mgr.record_denial(&id2, "risk".into());
    let s = mgr.summary();
    assert_eq!(s.total, 3);
    assert_eq!(s.fulfilled, 1);
    assert_eq!(s.denied, 1);
    assert_eq!(s.pending, 1);
}

#[test]
fn bounded_storage_evicts_oldest() {
    let mut mgr = CommitmentLifecycleManager::new(3);
    for _ in 0..5 {
        mgr.record_submission(IntentId::new(), CommitmentId("c".into()), SubstrateTier::Tier0);
    }
    assert_eq!(mgr.len(), 3);
}

#[test]
fn start_and_check_observation() {
    let mut tracker = ObservationPeriodTracker::new();
    let intent = IntentId::new();
    tracker.start_observation(&intent, SubstrateTier::Tier0);
    assert_eq!(tracker.len(), 1);
    assert!(!tracker.is_ready(&intent));
}

#[test]
fn observation_with_past_start_time_is_ready() {
    let mut tracker = ObservationPeriodTracker::new();
    let intent = IntentId::new();
    let two_hours_ago = now_ms() - 2 * 3600 * 1000;
    tracker.start_observation_at(&intent, SubstrateTier::Tier0, two_hours_ago);
    assert!(tracker.is_ready(&intent));
    assert!(tracker.check_completion(&intent));
}

#[test]
fn pending_observations_excludes_completed() {
    let mut tracker = ObservationPeriodTracker::new();
    let intent1 = IntentId::new();
    let intent2 = IntentId::new();
    let two_hours_ago = now_ms() - 2 * 3600 * 1000;
    tracker.start_observation_at(&intent1, SubstrateTier::Tier0, two_hours_ago);
    tracker.check_completion(&intent1);
    tracker.start_observation(&intent2, SubstrateTier::Tier0);
    assert_eq!(tracker.pending_observations().len(), 1);
}

#[test]
fn time_remaining_computation() {
    let mut tracker = ObservationPeriodTracker::new();
    let intent = IntentId::new();
    let start = now_ms();
    tracker.start_observation_at(&intent, SubstrateTier::Tier0, start);
    let remaining = tracker.time_remaining_at(&intent, start);
    assert!(remaining.is_some());
    let secs = remaining.unwrap();
    assert!(secs > 0 && secs <= 1800);
    assert_eq!(tracker.time_remaining_at(&intent, start + 600 * 1000), Some(1200));
}

#[test]
fn remove_observation() {
    let mut tracker = ObservationPeriodTracker::new();
    let intent = IntentId::new();
    tracker.start_observation(&intent, SubstrateTier::Tier0);
    assert_eq!(tracker.len(), 1);
    tracker.remove(&intent);
    assert!(tracker.is_empty());
}

#[test]
fn different_tiers_different_durations() {
    let mut tracker = ObservationPeriodTracker::new();
    let t0 = IntentId::new();
    let t3 = IntentId::new();
    tracker.start_observation(&t0, SubstrateTier::Tier0);
    tracker.start_observation(&t3, SubstrateTier::Tier3);
    let r0 = tracker.get(&t0).unwrap();
    let r3 = tracker.get(&t3).unwrap();
    assert_eq!(r0.required_secs, 1800);
    assert_eq!(r3.required_secs, 259200);
}

#[test]
fn types_summary_default_all_zero() {
    let s = CommitmentSummary::default();
    assert_eq!(s.total, 0);
    assert_eq!(s.pending, 0);
    assert_eq!(s.approved, 0);
    let c = maple_worldline::consequence::types::ConsequenceSummary::default();
    assert_eq!(c.total, 0);
    assert_eq!(c.succeeded, 0);
    assert_eq!(c.failed, 0);
}

#[test]
fn intent_status_display() {
    assert_eq!(IntentStatus::Forming.to_string(), "forming");
    assert_eq!(IntentStatus::Validated.to_string(), "validated");
    assert_eq!(IntentStatus::Deferred("too risky".into()).to_string(), "deferred: too risky");
}

#[test]
fn proposal_has_rollback() {
    let p = make_proposal();
    assert!(p.has_rollback());
}

#[test]
fn proposal_change_count() {
    let p = make_proposal();
    assert_eq!(p.change_count(), 1);
}

#[test]
fn proposal_has_safety_checks() {
    let p = make_proposal();
    assert!(p.has_safety_checks());
}

#[test]
fn test_type_display() {
    assert_eq!(TestType::Unit.to_string(), "unit");
    assert_eq!(TestType::Performance.to_string(), "performance");
}

#[test]
fn rollback_strategy_display() {
    assert_eq!(RollbackStrategy::GitRevert.to_string(), "git-revert");
    assert_eq!(RollbackStrategy::FullRedeploy.to_string(), "full-redeploy");
}

#[test]
fn intent_id_uniqueness() {
    let a = IntentId::new();
    let b = IntentId::new();
    assert_ne!(a, b);
}

#[test]
fn intent_id_display_format() {
    let id = IntentId::new();
    assert!(id.to_string().starts_with("intent:"));
}

#[test]
fn proposal_id_display_format() {
    let id = ProposalId::new();
    assert!(id.to_string().starts_with("proposal:"));
}

#[test]
fn change_type_all_variants() {
    let variants: Vec<ChangeType> = vec![
        ChangeType::OperatorModification { operator_id: "a".into(), modification_scope: "b".into() },
        ChangeType::NewOperator { operator_name: "a".into(), description: "b".into() },
        ChangeType::KernelModification { module: "a".into(), modification_scope: "b".into() },
        ChangeType::ApiModification { api_component: "a".into(), breaking: false, migration_plan: None },
        ChangeType::ConfigurationChange {
            parameter: "a".into(),
            current_value: "1".into(),
            proposed_value: "2".into(),
            rationale: "c".into(),
        },
        ChangeType::DslGeneration { domain: "a".into(), description: "b".into() },
        ChangeType::CompilationStrategy { current_strategy: "a".into(), proposed_changes: vec![] },
        ChangeType::ArchitecturalChange { description: "a".into(), affected_modules: vec![], migration_plan: "b".into() },
    ];
    let labels: std::collections::HashSet<&str> = variants.iter().map(|c| c.label()).collect();
    assert_eq!(labels.len(), 8);
}

#[test]
fn substrate_tier_ordering() {
    assert!(SubstrateTier::Tier0 < SubstrateTier::Tier1);
    assert!(SubstrateTier::Tier1 < SubstrateTier::Tier2);
    assert!(SubstrateTier::Tier2 < SubstrateTier::Tier3);
}

#[test]
fn substrate_tier_thresholds() {
    assert!(SubstrateTier::Tier3.min_observation_secs() > SubstrateTier::Tier0.min_observation_secs());
    assert_eq!(SubstrateTier::Tier0.min_observation_secs(), 1800);
    assert_eq!(SubstrateTier::Tier3.min_observation_secs(), 259200);
}

#[test]
fn reversibility_check() {
    assert!(ReversibilityLevel::FullyReversible.is_reversible());
    assert!(ReversibilityLevel::ConditionallyReversible { conditions: vec![] }.is_reversible());
    assert!(ReversibilityLevel::TimeWindowReversible { window_secs: 3600 }.is_reversible());
    assert!(!ReversibilityLevel::Irreversible.is_reversible());
}

#[test]
fn code_change_type_display() {
    let ct = CodeChangeType::ModifyFunction { function_name: "process".into() };
    assert_eq!(ct.to_string(), "modify-fn:process");
    let ct = CodeChangeType::CreateFile;
    assert_eq!(ct.to_string(), "create-file");
}

#[test]
fn error_error_display_messages() {
    let err = IntentError::GenerationFailed("no meanings".into());
    assert_eq!(err.to_string(), "intent generation failed: no meanings");
    let err = IntentError::ValidationFailed("low confidence".into());
    assert_eq!(err.to_string(), "intent validation failed: low confidence");

    let e = DeploymentError::ArtifactNotDeployable("not validated".into());
    assert!(e.to_string().contains("not validated"));
    let e = DeploymentError::StrategyExecutionFailed("canary regression".into());
    assert!(e.to_string().contains("canary regression"));
    let e = DeploymentError::RollbackFailed("timeout".into());
    assert!(e.to_string().contains("timeout"));
}

#[test]
fn error_result_type_works() {
    let ok: IntentResult<u32> = Ok(42);
    assert_eq!(ok.unwrap(), 42);
    let err: IntentResult<u32> = Err(IntentError::ConfigurationError("bad config".into()));
    assert!(err.is_err());

    let ok: DeploymentResult<i32> = Ok(42);
    assert_eq!(ok.unwrap(), 42);
    let err: DeploymentResult<i32> = Err(DeploymentError::PhaseFailed("deploy".into()));
    assert!(err.is_err());
}

#[test]
fn all_variants_display() {
    let variants: Vec<IntentError> = vec![
        IntentError::GenerationFailed("a".into()),
        IntentError::ValidationFailed("b".into()),
        IntentError::PrioritizationFailed("c".into()),
        IntentError::DeferralError("d".into()),
        IntentError::ProposalError("e".into()),
        IntentError::ConfigurationError("f".into()),
    ];
    for v in &variants {
        assert!(!v.to_string().is_empty());
    }
    assert_eq!(variants.len(), 6);
    assert_eq!(IntentError::DeferralError("d".into()).to_string(), "deferral error: d");
}

#[test]
fn readiness_stays_once_reached() {
    let mut tracker = ObservationPeriodTracker::new();
    let intent = IntentId::new();
    tracker.start_observation_at(&intent, SubstrateTier::Tier1, 0);
    let required_ms = SubstrateTier::Tier1.min_observation_secs() as i64 * 1000;
    assert!(!tracker.is_ready_at(&intent, required_ms - 1000));
    assert!(tracker.is_ready_at(&intent, required_ms));
    assert!(tracker.is_ready_at(&intent, required_ms * 10));
}

#[test]
fn map_effect_domain_all_variants() {
    assert_eq!(
        map_effect_domain(&ChangeType::ConfigurationChange {
            parameter: "a".into(),
            current_value: "1".into(),
            proposed_value: "2".into(),
            rationale: "c".into(),
        }),
        EffectDomain::Infrastructure
    );
    assert_eq!(
        map_effect_domain(&ChangeType::KernelModification { module: "a".into(), modification_scope: "b".into() }),
        EffectDomain::DataMutation
    );
    assert_eq!(
        map_effect_domain(&ChangeType::ApiModification { api_component: "a".into(), breaking: false, migration_plan: None }),
        EffectDomain::Communication
    );
    assert_eq!(
        map_effect_domain(&ChangeType::DslGeneration { domain: "a".into(), description: "b".into() }),
        EffectDomain::Custom("dsl-generation".into())
    );
    assert_eq!(
        map_effect_domain(&ChangeType::CompilationStrategy { current_strategy: "a".into(), proposed_changes: vec![] }),
        EffectDomain::Custom("compilation".into())
    );
}

#[test]
fn map_reversibility_all_variants() {
    assert!(matches!(map_reversibility(&ReversibilityLevel::FullyReversible), Reversibility::FullyReversible));
    assert!(matches!(
        map_reversibility(&ReversibilityLevel::ConditionallyReversible { conditions: vec![] }),
        Reversibility::Conditional { .. }
    ));
    assert!(matches!(
        map_reversibility(&ReversibilityLevel::TimeWindowReversible { window_secs: 3600 }),
        Reversibility::TimeWindow { window_ms: 3600000 }
    ));
    assert!(matches!(map_reversibility(&ReversibilityLevel::Irreversible), Reversibility::Irreversible));
    match map_reversibility(&ReversibilityLevel::ConditionallyReversible { conditions: vec!["low load".into()] }) {
        Reversibility::Conditional { conditions } => assert_eq!(conditions, vec!["low load".to_string()]),
        _ => panic!("expected conditional"),
    }
}

#[test]
fn capabilities_include_change_specific() {
    let mapper = DeclarationMapper::new("worldline-1".into());
    let caps = mapper.capabilities_for_change(&ChangeType::ArchitecturalChange {
        description: "a".into(),
        affected_modules: vec![],
        migration_plan: "b".into(),
    });
    assert!(caps.iter().any(|c| c.0 == "CAP-ARCHITECTURE-MODIFY"));
    assert!(caps.iter().any(|c| c.0 == "CAP-SELF-MODIFY"));
    assert_eq!(caps.len(), 3);
}

#[test]
fn constraints_follow_tier_and_safeguards() {
    let mapper = DeclarationMapper::new("worldline-1".into());
    let constraints = mapper.build_constraints(SubstrateTier::Tier1, &make_proposal());
    assert_eq!(
        constraints,
        vec![
            "governance_tier:tier-1-operator".to_string(),
            "min_observation_secs:3600".to_string(),
            "rollback_plan:present".to_string(),
            "safety_checks:present".to_string(),
        ]
    );
    let mut bare = make_proposal();
    bare.rollback_plan.steps.clear();
    bare.safety_checks.clear();
    assert_eq!(mapper.build_constraints(SubstrateTier::Tier0, &bare).len(), 2);
}

fn pending(tier: SubstrateTier) -> PendingIntent {
    PendingIntent { id: IntentId::new(), governance_tier: tier }
}

fn engine_with_observation() -> SelfCommitmentEngine {
    SelfCommitmentEngine::new(CommitmentConfig::default())
}

fn engine_without_observation() -> SelfCommitmentEngine {
    SelfCommitmentEngine::new(CommitmentConfig { require_observation_period: false, ..CommitmentConfig::default() })
}

#[test]
fn engine_starts_observation() {
    let mut engine = engine_with_observation();
    engine.start_observation(pending(SubstrateTier::Tier0));
    assert_eq!(engine.observing_count(), 1);
    assert_eq!(engine.ready_count(), 0);
    assert_eq!(engine.observation_tracker().len(), 1);
}

#[test]
fn engine_no_observation_mode() {
    let mut engine = engine_without_observation();
    engine.start_observation(pending(SubstrateTier::Tier0));
    assert_eq!(engine.observing_count(), 0);
    assert_eq!(engine.ready_count(), 1);
}

#[test]
fn engine_check_ready_promotes() {
    let mut engine = engine_with_observation();
    let intent = pending(SubstrateTier::Tier0);
    let intent_id = intent.id.clone();
    let two_hours_ago = now_ms() - 2 * 3600 * 1000;
    engine.start_observation_at(intent, two_hours_ago);
    let ready = engine.check_ready();
    assert_eq!(ready.len(), 1);
    assert_eq!(ready[0], intent_id);
    assert_eq!(engine.ready_count(), 1);
    assert_eq!(engine.observing_count(), 0);
    assert!(engine.observation_tracker().is_empty());
}

#[test]
fn engine_check_ready_keeps_running_observations() {
    let mut engine = engine_with_observation();
    engine.start_observation_at(pending(SubstrateTier::Tier2), 1_000_000);
    engine.start_observation_at(pending(SubstrateTier::Tier0), 1_000_000);
    // 40 minutes later: the tier-0 window (30 min) has passed, the tier-2 one (24 h) has not.
    let ready = engine.check_ready_at(1_000_000 + 40 * 60 * 1000);
    assert_eq!(ready.len(), 1);
    assert_eq!(engine.observing_count(), 1);
    assert_eq!(engine.ready_count(), 1);
}

#[test]
fn engine_full_lifecycle() {
    let mut engine = engine_without_observation();
    let intent = pending(SubstrateTier::Tier0);
    let intent_id = intent.id.clone();
    engine.start_observation(intent);
    let self_cmt_id = engine.record_submission(&intent_id, CommitmentId("cmt-1".into()), SubstrateTier::Tier0);
    assert_eq!(engine.ready_count(), 0);
    engine.record_gate_result(&self_cmt_id, true, None);
    engine.record_outcome(&self_cmt_id, true, None);
    let summary = engine.summary();
    assert_eq!(summary.fulfilled, 1);
}

#[test]
fn engine_denial_default_reason() {
    let mut engine = engine_without_observation();
    let intent = pending(SubstrateTier::Tier1);
    let intent_id = intent.id.clone();
    engine.start_observation(intent);
    let id = engine.record_submission(&intent_id, CommitmentId("cmt-2".into()), SubstrateTier::Tier1);
    engine.record_gate_result(&id, false, None);
    let record = engine.lifecycle().find(&id).unwrap();
    assert_eq!(record.status, CommitmentLifecycleStatus::Denied("gate denied".into()));
    assert_eq!(engine.summary().denied, 1);
}

#[test]
fn engine_failure_default_reason() {
    let mut engine = engine_without_observation();
    let intent = pending(SubstrateTier::Tier0);
    let intent_id = intent.id.clone();
    engine.start_observation(intent);
    let id = engine.record_submission(&intent_id, CommitmentId("cmt-3".into()), SubstrateTier::Tier0);
    engine.record_gate_result(&id, true, None);
    engine.record_outcome(&id, false, None);
    let record = engine.lifecycle().find(&id).unwrap();
    assert_eq!(record.status, CommitmentLifecycleStatus::Failed("execution failed".into()));
}

#[test]
fn engine_concurrent_limit() {
    let mut engine = engine_without_observation();
    for _ in 0..3 {
        let intent = pending(SubstrateTier::Tier0);
        let intent_id = intent.id.clone();
        engine.start_observation(intent);
        assert!(engine.can_accept_commitment());
        engine.record_submission(&intent_id, CommitmentId("cmt".into()), SubstrateTier::Tier0);
    }
    assert!(!engine.can_accept_commitment());
}

#[test]
fn safeguards_pass_for_complete_proposal() {
    let mut issues: Vec<ValidationIssue> = Vec::new();
    check_safeguards(&mut issues, true, SubstrateTier::Tier2, &make_proposal());
    assert!(issues.is_empty());
    assert!(IntentValidationResult::from_issues(issues).is_valid());
}

#[test]
fn missing_rollback_and_safety_checks_are_errors() {
    let mut proposal = make_proposal();
    proposal.rollback_plan.steps.clear();
    proposal.safety_checks.clear();
    let mut issues: Vec<ValidationIssue> = Vec::new();
    check_safeguards(&mut issues, true, SubstrateTier::Tier2, &proposal);
    assert_eq!(issues.len(), 2);
    assert_eq!(issues[0].code, "NO_ROLLBACK");
    assert_eq!(issues[1].code, "MISSING_SAFETY_CHECKS");
    assert_eq!(issues[1].description, "Tier tier-2-kernel changes require safety checks");
    assert!(issues.iter().all(|i| i.severity == IssueSeverity::Error));
    let result = IntentValidationResult::from_issues(issues);
    assert!(!result.is_valid());
    assert_eq!(result.issues().len(), 2);
}

#[test]
fn low_tier_needs_no_safety_checks() {
    let mut proposal = make_proposal();
    proposal.safety_checks.clear();
    let mut issues: Vec<ValidationIssue> = Vec::new();
    check_safeguards(&mut issues, false, SubstrateTier::Tier1, &proposal);
    assert!(issues.is_empty());
}

#[test]
fn missing_code_changes_is_a_warning() {
    let mut proposal = make_proposal();
    proposal.code_changes.clear();
    let mut issues: Vec<ValidationIssue> = Vec::new();
    check_code_changes(
        &mut issues,
        &ChangeType::KernelModification { module: "m".into(), modification_scope: "s".into() },
        &proposal,
    );
    assert_eq!(issues.len(), 1);
    assert_eq!(issues[0].severity, IssueSeverity::Warning);
    assert!(IntentValidationResult::from_issues(issues).is_valid());
    let mut none: Vec<ValidationIssue> = Vec::new();
    check_code_changes(
        &mut none,
        &ChangeType::ConfigurationChange {
            parameter: "p".into(),
            current_value: "1".into(),
            proposed_value: "2".into(),
            rationale: "r".into(),
        },
        &proposal,
    );
    assert!(none.is_empty());
}
