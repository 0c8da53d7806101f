use maple_worldline::evos::health::{SimulatedHealthChecker, SubsystemHealth};
use maple_worldline::evos::report::SubsystemSummaryEntry;
use maple_worldline::evos::substrate::{EvosSubstrate, SubstrateManifest, SubsystemEntry};
use maple_worldline::evos::types::{CycleId, CyclePhase, EvosId, SubsystemId, SubsystemStatus};
use std::collections::HashMap;

#[test]
fn evos_id_display() {
    let id = EvosId::new();
    assert!(id.to_string().starts_with("evos:"));
}

#[test]
fn cycle_id_display() {
    let id = CycleId::new();
    assert!(id.to_string().starts_with("cycle:"));
}

#[test]
fn subsystem_id_all_14() {
    assert_eq!(SubsystemId::all().len(), 14);
}

#[test]
fn subsystem_crate_names() {
    assert_eq!(SubsystemId::Observation.crate_name(), "maple-worldline-observation");
    assert_eq!(SubsystemId::Bootstrap.crate_name(), "maple-worldline-bootstrap");
}

#[test]
fn subsystem_status_severity() {
    assert_eq!(SubsystemStatus::Healthy.severity(), 0);
    assert_eq!(SubsystemStatus::Unknown.severity(), 1);
    assert_eq!(SubsystemStatus::Degraded("slow".into()).severity(), 2);
    assert_eq!(SubsystemStatus::Failed("crash".into()).severity(), 3);
}

#[test]
fn subsystem_status_progression() {
    assert!(SubsystemStatus::Healthy.allows_progression());
    assert!(SubsystemStatus::Degraded("slow".into()).allows_progression());
    assert!(!SubsystemStatus::Failed("crash".into()).allows_progression());
    assert!(!SubsystemStatus::Unknown.allows_progression());
}

#[test]
fn cycle_phase_ordinals() {
    assert_eq!(CyclePhase::Observing.ordinal(), 0);
    assert_eq!(CyclePhase::Complete.ordinal(), 7);
    for i in 0..=7u8 {
        let phase = CyclePhase::from_ordinal(i).unwrap();
        assert_eq!(phase.ordinal(), i);
    }
    assert!(CyclePhase::from_ordinal(8).is_none());
}

#[test]
fn cycle_phase_next() {
    assert_eq!(CyclePhase::Observing.next().unwrap(), CyclePhase::Analyzing);
    assert!(CyclePhase::Complete.next().is_none());
}

#[test]
fn cycle_phase_primary_subsystem() {
    assert_eq!(CyclePhase::Observing.primary_subsystem(), SubsystemId::Observation);
    assert_eq!(CyclePhase::Generating.primary_subsystem(), SubsystemId::Codegen);
    assert_eq!(CyclePhase::Deploying.primary_subsystem(), SubsystemId::Deployment);
}

#[test]
fn subsystem_display() {
    assert_eq!(SubsystemId::Observation.to_string(), "observation");
    assert_eq!(SubsystemId::SelfModGate.to_string(), "self-mod-gate");
    assert_eq!(SubsystemId::LangGen.to_string(), "langgen");
}

#[test]
fn all_healthy_report() {
    let checker = SimulatedHealthChecker::all_healthy();
    let report = checker.check_all();
    assert_eq!(report.entries.len(), 14);
    assert_eq!(report.healthy_count(), 14);
    assert_eq!(report.degraded_count(), 0);
    assert_eq!(report.failed_count(), 0);
    assert!(report.overall_status().is_healthy());
    assert!(report.all_allow_progression());
}

#[test]
fn degraded_subsystem() {
    let checker = SimulatedHealthChecker::with_overrides(vec![(
        SubsystemId::Meaning,
        SubsystemStatus::Degraded("high latency".into()),
    )]);
    let report = checker.check_all();
    assert_eq!(report.healthy_count(), 13);
    assert_eq!(report.degraded_count(), 1);
    assert!(report.all_allow_progression());
}

#[test]
fn failed_subsystem_blocks() {
    let checker = SimulatedHealthChecker::with_overrides(vec![(
        SubsystemId::Compiler,
        SubsystemStatus::Failed("out of memory".into()),
    )]);
    let report = checker.check_all();
    assert!(!report.all_allow_progression());
    let blocking = report.blocking_subsystems();
    assert_eq!(blocking.len(), 1);
    assert_eq!(blocking[0], SubsystemId::Compiler);
}

#[test]
fn overall_status_worst() {
    let checker = SimulatedHealthChecker::with_overrides(vec![
        (SubsystemId::Sal, SubsystemStatus::Degraded("slow".into())),
        (SubsystemId::Hardware, SubsystemStatus::Failed("offline".into())),
    ]);
    let report = checker.check_all();
    assert!(matches!(report.overall_status(), SubsystemStatus::Failed(_)));
}

#[test]
fn check_one_subsystem() {
    let checker = SimulatedHealthChecker::with_overrides(vec![(
        SubsystemId::Intent,
        SubsystemStatus::Degraded("backpressure".into()),
    )]);
    let health = checker.check_one(&SubsystemId::Intent);
    assert!(matches!(health.status, SubsystemStatus::Degraded(_)));
    let health = checker.check_one(&SubsystemId::Observation);
    assert!(health.status.is_healthy());
}

#[test]
fn health_report_display() {
    let checker = SimulatedHealthChecker::all_healthy();
    let report = checker.check_all();
    let display = report.to_string();
    assert!(display.contains("total=14"));
    assert!(display.contains("healthy=14"));
}

#[test]
fn subsystem_health_display() {
    let health = SubsystemHealth {
        subsystem: SubsystemId::Observation,
        status: SubsystemStatus::Healthy,
        last_check: 0,
        message: "operating normally".into(),
    };
    let display = health.to_string();
    assert!(display.contains("healthy"));
    assert!(display.contains("observation"));
}

#[test]
fn checker_name() {
    let checker = SimulatedHealthChecker::all_healthy();
    assert_eq!(checker.name(), "simulated-health-checker");
}

#[test]
fn multiple_failures() {
    let checker = SimulatedHealthChecker::with_overrides(vec![
        (SubsystemId::Observation, SubsystemStatus::Failed("crash".into())),
        (SubsystemId::Meaning, SubsystemStatus::Failed("timeout".into())),
        (SubsystemId::Ir, SubsystemStatus::Unknown),
    ]);
    let report = checker.check_all();
    assert_eq!(report.failed_count(), 2);
    assert_eq!(report.healthy_count(), 11);
    assert!(!report.all_allow_progression());
    assert_eq!(report.blocking_subsystems().len(), 3);
}

#[test]
fn empty_overrides_all_healthy() {
    let checker = SimulatedHealthChecker::with_overrides(vec![]);
    let report = checker.check_all();
    assert_eq!(report.healthy_count(), 14);
}

#[test]
fn subsystem_summary_display() {
    let entry = SubsystemSummaryEntry {
        subsystem_id: SubsystemId::Compiler,
        status: SubsystemStatus::Healthy,
        metrics: HashMap::new(),
    };
    let display = entry.to_string();
    assert!(display.contains("compiler"));
    assert!(display.contains("healthy"));
}

#[test]
fn canonical_manifest_has_14() {
    let manifest = SubstrateManifest::canonical();
    assert_eq!(manifest.count(), 14);
}

#[test]
fn manifest_find_subsystem() {
    let manifest = SubstrateManifest::canonical();
    let obs = manifest.find(&SubsystemId::Observation).unwrap();
    assert_eq!(obs.version, "0.1.2");
    assert!(obs.description.contains("anomaly"));
}

#[test]
fn manifest_display() {
    let manifest = SubstrateManifest::canonical();
    assert!(manifest.to_string().contains("14 subsystems"));
}

#[test]
fn subsystem_entry_display() {
    let entry = SubsystemEntry {
        id: SubsystemId::Compiler,
        version: "0.1.2".into(),
        description: "Adaptive compilation".into(),
    };
    let display = entry.to_string();
    assert!(display.contains("compiler"));
    assert!(display.contains("0.1.2"));
}

#[test]
fn manifest_all_subsystems_present() {
    let manifest = SubstrateManifest::canonical();
    for subsystem in SubsystemId::all() {
        assert!(manifest.find(&subsystem).is_some(), "missing: {}", subsystem.to_string());
    }
}

#[test]
fn phase_ordinal_round_trip_for_every_phase() {
    let mut phase = CyclePhase::Observing;
    let mut steps = 0;
    while let Some(next) = phase.next() {
        assert_eq!(next.ordinal(), phase.ordinal() + 1);
        assert_eq!(CyclePhase::from_ordinal(phase.ordinal()), Some(phase));
        phase = next;
        steps += 1;
    }
    assert_eq!(steps, 7);
    assert!(phase.is_complete());
}

#[test]
fn health_counts_partition_the_report() {
    let checker = SimulatedHealthChecker::with_overrides(vec![
        (SubsystemId::Sal, SubsystemStatus::Degraded("slow".into())),
        (SubsystemId::Ir, SubsystemStatus::Unknown),
        (SubsystemId::Hardware, SubsystemStatus::Failed("offline".into())),
    ]);
    let report = checker.check_all();
    assert_eq!(report.healthy_count() + report.degraded_count() + report.failed_count() + 1, 14);
    assert_eq!(report.overall_status().severity(), 3);
}

#[test]
fn substrate_new_at_phase0() {
    let substrate = EvosSubstrate::new();
    assert_eq!(substrate.bootstrap_phase, 0);
    assert!(!substrate.is_self_hosting());
    assert_eq!(substrate.subsystem_count(), 14);
}

#[test]
fn substrate_at_phase5() {
    let substrate = EvosSubstrate::at_phase(5);
    assert!(substrate.is_self_hosting());
}

#[test]
fn substrate_display() {
    let substrate = EvosSubstrate::new();
    let display = substrate.to_string();
    assert!(display.contains("evos:"));
    assert!(display.contains("subsystems=14"));
    assert!(display.contains("Phase0"));
}
