use maple_worldline::conformance::error::ConformanceError;
use maple_worldline::conformance::invariants::{all_worldline_invariant_ids, category_for, ids_for_category};
use maple_worldline::conformance::report::{BenchmarkResult, CategoryReport, ConformanceReport, SimulatedBenchmarkRunner};
use maple_worldline::conformance::run::{unknown_invariant_result, ConformanceRun};
use maple_worldline::conformance::runner::ConformanceRunner;
use maple_worldline::conformance::types::{
    ConformanceConfig, ConformanceSummary, InvariantCategory, InvariantId, InvariantResult,
};

fn make_results(pass_count: usize, fail_count: usize) -> Vec<InvariantResult> {
    let mut results = Vec::new();
    for i in 0..pass_count {
        results.push(InvariantResult::pass(
            &format!("I.OBS-{}", i + 1),
            InvariantCategory::Observation,
            "test",
            "test",
        ));
    }
    for i in 0..fail_count {
        results.push(InvariantResult::fail(
            &format!("I.REGEN-{}", i + 1),
            InvariantCategory::SelfModGate,
            "test",
            "test",
            "failed",
        ));
    }
    results
}

#[test]
fn test_invariant_id_creation() {
    let id = InvariantId::new("I.OBS-1");
    assert_eq!(id.as_str(), "I.OBS-1");
    assert_eq!(id.to_string(), "I.OBS-1");
}

#[test]
fn test_invariant_id_equality() {
    let a = InvariantId::new("I.OBS-1");
    let b = InvariantId::new("I.OBS-1");
    let c = InvariantId::new("I.OBS-2");
    assert_eq!(a, b);
    assert_ne!(a, c);
}

#[test]
fn test_all_categories() {
    let cats = InvariantCategory::all();
    assert_eq!(cats.len(), 7);
    let total: usize = cats.iter().map(|c| c.invariant_count()).sum();
    assert_eq!(total, 22);
}

#[test]
fn test_category_labels() {
    assert_eq!(InvariantCategory::Observation.label(), "Observation");
    assert_eq!(InvariantCategory::SelfModGate.label(), "Self-Modification Gate");
    assert_eq!(InvariantCategory::Evos.label(), "EVOS Orchestrator");
}

#[test]
fn test_invariant_result_pass() {
    let r = InvariantResult::pass("I.OBS-1", InvariantCategory::Observation, "Overhead", "< 1%");
    assert!(r.passed);
    assert!(r.details.is_none());
    assert_eq!(r.id.as_str(), "I.OBS-1");
}

#[test]
fn test_invariant_result_fail() {
    let r = InvariantResult::fail("I.OBS-1", InvariantCategory::Observation, "Overhead", "< 1%", "measured 2.5%");
    assert!(!r.passed);
    assert_eq!(r.details.as_deref(), Some("measured 2.5%"));
}

#[test]
fn test_invariant_result_display() {
    let r = InvariantResult::pass("I.OBS-1", InvariantCategory::Observation, "Overhead", "< 1%");
    let s = r.to_string();
    assert!(s.contains("[PASS]"));
    assert!(s.contains("I.OBS-1"));
}

#[test]
fn invariant_result_text_exact() {
    let r = InvariantResult::fail("I.OBS-2", InvariantCategory::Observation, "Overhead", "< 1%", "measured 2.5%");
    assert_eq!(r.to_string(), "[FAIL] I.OBS-2 - Overhead: < 1% (measured 2.5%)");
    let p = InvariantResult::pass("I.CSQ-1", InvariantCategory::Consequence, "Receipts", "always");
    assert_eq!(p.to_string(), "[PASS] I.CSQ-1 - Receipts: always");
}

#[test]
fn test_config_default() {
    let cfg = ConformanceConfig::default();
    assert!(cfg.categories.is_empty());
    assert!(cfg.invariant_ids.is_empty());
    assert!(!cfg.fail_fast);
    assert!(!cfg.include_benchmarks);
}

#[test]
fn test_summary_all_passed() {
    let s = ConformanceSummary { total: 22, passed: 22, failed: 0, skipped: 0, started_at: 0, completed_at: 0 };
    assert!(s.all_passed());
}

#[test]
fn test_summary_with_failures() {
    let s = ConformanceSummary { total: 22, passed: 20, failed: 2, skipped: 0, started_at: 0, completed_at: 0 };
    assert!(!s.all_passed());
}

#[test]
fn test_all_invariant_ids_count() {
    assert_eq!(all_worldline_invariant_ids().len(), 22);
}

#[test]
fn test_category_mapping_complete() {
    for id in all_worldline_invariant_ids() {
        assert!(category_for(id).is_some(), "no category mapping for {}", id);
    }
}

#[test]
fn category_for_unknown_is_none() {
    assert!(category_for("I.NONEXISTENT").is_none());
    assert_eq!(category_for("I.OBS-3"), Some(InvariantCategory::Observation));
    assert_eq!(category_for("I.EVOS-2"), Some(InvariantCategory::Evos));
}

#[test]
fn test_ids_for_category_observation() {
    let ids = ids_for_category(InvariantCategory::Observation);
    assert_eq!(ids.len(), 5);
    assert!(ids.contains(&"I.OBS-1"));
}

#[test]
fn test_ids_for_category_self_mod_gate() {
    let ids = ids_for_category(InvariantCategory::SelfModGate);
    assert_eq!(ids.len(), 7);
}

#[test]
fn test_ids_for_category_totals() {
    let total: usize = InvariantCategory::all().iter().map(|c| ids_for_category(*c).len()).sum();
    assert_eq!(total, 22);
}

#[test]
fn category_counts_match_ids() {
    for c in InvariantCategory::all() {
        assert_eq!(ids_for_category(c).len(), c.invariant_count());
        for id in ids_for_category(c) {
            assert_eq!(category_for(id), Some(c));
        }
    }
}

#[test]
fn test_runner_default() {
    let runner = ConformanceRunner::new();
    assert!(!runner.config().fail_fast);
}

#[test]
fn resolve_all_when_unfiltered() {
    let runner = ConformanceRunner::new();
    let ids = runner.resolve_ids().unwrap();
    assert_eq!(ids, all_worldline_invariant_ids());
}

#[test]
fn resolve_filtered_by_ids() {
    let config = ConformanceConfig {
        invariant_ids: vec![InvariantId::new("I.OBS-1"), InvariantId::new("I.EVOS-2")],
        ..Default::default()
    };
    let runner = ConformanceRunner::with_config(config);
    let ids = runner.resolve_ids().unwrap();
    assert_eq!(ids, vec!["I.OBS-1", "I.EVOS-2"]);
}

#[test]
fn resolve_filtered_by_category() {
    let config = ConformanceConfig { categories: vec![InvariantCategory::Consequence], ..Default::default() };
    let runner = ConformanceRunner::with_config(config);
    let ids = runner.resolve_ids().unwrap();
    assert_eq!(ids.len(), 2);
    for id in ids {
        assert_eq!(category_for(id), Some(InvariantCategory::Consequence));
    }
}

#[test]
fn resolve_unknown_id_is_invalid_configuration() {
    let config = ConformanceConfig { invariant_ids: vec![InvariantId::new("I.NONEXISTENT")], ..Default::default() };
    let runner = ConformanceRunner::with_config(config);
    match runner.resolve_ids() {
        Err(ConformanceError::InvalidConfiguration(m)) => assert!(m.contains("I.NONEXISTENT")),
        other => panic!("unexpected {:?}", other),
    }
}

#[test]
fn test_simulated_runner_name() {
    let runner = SimulatedBenchmarkRunner::new();
    assert_eq!(runner.name(), "simulated-benchmark");
}

#[test]
fn test_report_all_passed() {
    let report = ConformanceReport::from_results(make_results(5, 0), 0, 0, 0);
    assert!(report.all_passed());
    assert_eq!(report.summary.total, 5);
    assert_eq!(report.summary.passed, 5);
    assert_eq!(report.failures().len(), 0);
}

#[test]
fn test_report_with_failures() {
    let report = ConformanceReport::from_results(make_results(3, 2), 0, 0, 0);
    assert!(!report.all_passed());
    assert_eq!(report.summary.failed, 2);
    assert_eq!(report.failures().len(), 2);
}

#[test]
fn test_category_report() {
    let results = make_results(3, 0);
    let cat_report = CategoryReport::from_results(InvariantCategory::Observation, results);
    assert!(cat_report.all_passed());
    assert_eq!(cat_report.passed, 3);
}

#[test]
fn test_report_categories_populated() {
    let report = ConformanceReport::from_results(make_results(3, 2), 0, 0, 0);
    assert_eq!(report.categories.len(), 2);
    assert_eq!(report.categories[0].category, InvariantCategory::Observation);
    assert_eq!(report.categories[1].category, InvariantCategory::SelfModGate);
    assert_eq!(report.categories[1].failed, 2);
}

#[test]
fn test_empty_report() {
    let report = ConformanceReport::from_results(vec![], 0, 0, 0);
    assert!(report.all_passed());
    assert_eq!(report.summary.total, 0);
    assert!(report.categories.is_empty());
}

#[test]
fn test_report_with_skipped() {
    let report = ConformanceReport::from_results(make_results(2, 1), 5, 0, 0);
    assert_eq!(report.summary.skipped, 5);
    assert_eq!(report.summary.total, 3);
    assert_eq!(report.summary.failed, 1);
}

#[test]
fn report_failures_in_order() {
    let report = ConformanceReport::from_results(make_results(1, 2), 0, 0, 0);
    let f = report.failures();
    assert_eq!(f[0].id.as_str(), "I.REGEN-1");
    assert_eq!(f[1].id.as_str(), "I.REGEN-2");
}

#[test]
fn conformance_error_text() {
    let e = ConformanceError::InvalidConfiguration("bad".into());
    assert_eq!(e.to_string(), "invalid configuration: bad");
}

#[test]
fn test_report_display_all_passed() {
    let report = ConformanceReport::from_results(make_results(5, 0), 0, 0, 0);
    let output = report.to_string();
    assert!(output.contains("SATISFIED"));
}

#[test]
fn test_report_display_with_failures() {
    let report = ConformanceReport::from_results(make_results(3, 2), 0, 0, 0);
    let output = report.to_string();
    assert!(output.contains("VIOLATED"));
    assert!(output.contains("  2 INVARIANT(S) VIOLATED\n"));
    assert!(output.contains("| Total:   5  Passed:   3  Failed:   2             |\n"));
}

#[test]
fn test_category_report_display() {
    let results = make_results(2, 0);
    let cat_report = CategoryReport::from_results(InvariantCategory::Observation, results);
    let output = cat_report.to_string();
    assert!(output.contains("Observation"));
    assert!(output.contains("[+]"));
    assert_eq!(
        output,
        "  [+] Observation (2/2)\n      [+] [PASS] I.OBS-1 - test: test\n      [+] [PASS] I.OBS-2 - test: test\n"
    );
}

#[test]
fn test_report_display_with_benchmarks() {
    let mut report = ConformanceReport::from_results(make_results(2, 0), 0, 0, 0);
    report.benchmarks = Some(vec![BenchmarkResult {
        invariant_id: "I.OBS-1".into(),
        category: InvariantCategory::Observation,
        elapsed_us: 42,
        passed: true,
        measured_at: 0,
    }]);
    let output = report.to_string();
    assert!(output.contains("Benchmarks"));
    assert!(output.contains("42us"));
    assert!(output.contains("      [+] I.OBS-1 \u{2014} 42us\n"));
}

#[test]
fn test_benchmark_result_fields() {
    let r = BenchmarkResult {
        invariant_id: "I.OBS-1".into(),
        category: InvariantCategory::Observation,
        elapsed_us: 42,
        passed: true,
        measured_at: 0,
    };
    assert_eq!(r.invariant_id, "I.OBS-1");
    assert!(r.passed);
}

fn drive(mut run: ConformanceRun, failing: &[&str]) -> ConformanceReport {
    while let Some(id) = run.next_check() {
        let cat = category_for(id).unwrap();
        let result = if failing.contains(&id) {
            InvariantResult::fail(id, cat, "check", "check", "violated")
        } else {
            InvariantResult::pass(id, cat, "check", "check")
        };
        run.record(result);
    }
    run.finish(0, 1)
}

#[test]
fn run_all_checks_every_invariant() {
    let runner = ConformanceRunner::new();
    let report = drive(runner.start_run().unwrap(), &[]);
    assert_eq!(report.summary.total, 22);
    assert_eq!(report.summary.skipped, 0);
    assert!(report.all_passed());
    assert_eq!(report.categories.len(), 7);
}

#[test]
fn run_without_fail_fast_continues_after_failure() {
    let runner = ConformanceRunner::new();
    let report = drive(runner.start_run().unwrap(), &["I.OBS-2", "I.CSQ-1"]);
    assert_eq!(report.summary.total, 22);
    assert_eq!(report.summary.failed, 2);
    assert_eq!(report.summary.skipped, 0);
}

#[test]
fn run_fail_fast_stops_at_first_failure() {
    let config = ConformanceConfig { fail_fast: true, ..Default::default() };
    let runner = ConformanceRunner::with_config(config);
    let report = drive(runner.start_run().unwrap(), &["I.OBS-2", "I.CSQ-1"]);
    assert_eq!(report.summary.total, 2);
    assert_eq!(report.summary.failed, 1);
    assert_eq!(report.summary.skipped, 20);
}

#[test]
fn test_run_all_fail_fast_no_failures_skipped_zero() {
    let config = ConformanceConfig { fail_fast: true, ..Default::default() };
    let runner = ConformanceRunner::with_config(config);
    let report = drive(runner.start_run().unwrap(), &[]);
    assert_eq!(report.summary.skipped, 0);
    assert_eq!(report.summary.total, 22);
}

#[test]
fn test_run_category_observation() {
    let runner = ConformanceRunner::new();
    let report = drive(runner.start_category_run(InvariantCategory::Observation).unwrap(), &[]);
    assert_eq!(report.summary.total, 5);
}

#[test]
fn test_run_category_self_mod_gate() {
    let runner = ConformanceRunner::new();
    let report = drive(runner.start_category_run(InvariantCategory::SelfModGate).unwrap(), &[]);
    assert_eq!(report.summary.total, 7);
}

#[test]
fn test_filtered_by_ids() {
    let config = ConformanceConfig {
        invariant_ids: vec![InvariantId::new("I.OBS-1"), InvariantId::new("I.EVOS-2")],
        ..Default::default()
    };
    let runner = ConformanceRunner::with_config(config);
    let report = drive(runner.start_run().unwrap(), &[]);
    assert_eq!(report.summary.total, 2);
}

#[test]
fn test_run_single_invalid() {
    let runner = ConformanceRunner::new();
    assert!(runner.validate_single("I.NONEXISTENT").is_err());
    assert!(runner.validate_single("I.OBS-1").is_ok());
}

#[test]
fn unknown_invariant_gets_failed_result() {
    let r = unknown_invariant_result("I.OBS-99");
    assert!(!r.passed);
    assert_eq!(r.to_string(), "[FAIL] I.OBS-99 - Unknown: Unknown invariant ID (no check registered for 'I.OBS-99')");
}
