use melors::quality::{
    decide_quality_gate, local_ci_quality_gate_command, sanitize_diagnostics, sanitize_text,
    validate_threshold_registry, FailureEnvelope, GateState, MetricStatus, MetricThresholdFacts,
    QualityGateDiagnostics, SuiteDiagnostics, SuiteExecutionInput,
};

fn failure(observed: &str) -> FailureEnvelope {
    FailureEnvelope {
        suite: String::from("regression"),
        case_name: String::from("queue_move"),
        invariant: String::from("queue order remains valid"),
        observed: String::from(observed),
        remediation_hint: String::from("review move_queue_index bounds"),
    }
}

fn facts(name: &str, baseline_positive: bool, tolerance_non_negative: bool) -> MetricThresholdFacts {
    MetricThresholdFacts { name: String::from(name), baseline_positive, tolerance_non_negative }
}

#[test]
fn sanitize_text_strips_control_chars_and_home_path() {
    let raw = "/home/dau/project\u{7} failed";
    let sanitized = sanitize_text(raw);
    assert_eq!(sanitized, "<home>/dau/project failed");
}

#[test]
fn sanitize_text_replaces_every_home_prefix() {
    assert_eq!(sanitize_text("a /home/x and /home/y\n\t\u{0}"), "a <home>/x and <home>/y\n\t");
    assert_eq!(sanitize_text(""), "");
}

#[test]
fn first_failure_returns_earliest_failure() {
    let report = QualityGateDiagnostics {
        registry_version: String::from("2026-03"),
        suites: vec![SuiteDiagnostics {
            suite: String::from("regression"),
            passed: false,
            failures: vec![FailureEnvelope {
                suite: String::from("regression"),
                case_name: String::from("queue_move"),
                invariant: String::from("queue order remains valid"),
                observed: String::from("index out of bounds"),
                remediation_hint: String::from("verify queue index clamping"),
            }],
            duration_ms: 42,
        }],
        overall_passed: false,
    };

    let failure = report.first_failure().expect("has failure");
    assert_eq!(failure.case_name, "queue_move");
}

#[test]
fn first_failure_skips_suites_without_failures() {
    let report = QualityGateDiagnostics {
        registry_version: String::from("v"),
        suites: vec![
            SuiteDiagnostics {
                suite: String::from("a"),
                passed: true,
                failures: Vec::new(),
                duration_ms: 1,
            },
            SuiteDiagnostics {
                suite: String::from("b"),
                passed: false,
                failures: vec![failure("first"), failure("second")],
                duration_ms: 2,
            },
        ],
        overall_passed: false,
    };
    assert_eq!(report.first_failure().expect("failure").observed, "first");
    let empty = QualityGateDiagnostics {
        registry_version: String::from("v"),
        suites: Vec::new(),
        overall_passed: true,
    };
    assert!(empty.first_failure().is_none());
}

#[test]
fn sanitize_diagnostics_cleans_every_failure_field() {
    let report = QualityGateDiagnostics {
        registry_version: String::from("v"),
        suites: vec![SuiteDiagnostics {
            suite: String::from("regression"),
            passed: false,
            failures: vec![FailureEnvelope {
                suite: String::from("regression"),
                case_name: String::from("case"),
                invariant: String::from("/home/me inv"),
                observed: String::from("bad\u{1b}"),
                remediation_hint: String::from("see /home/me"),
            }],
            duration_ms: 3,
        }],
        overall_passed: false,
    };
    let clean = sanitize_diagnostics(&report);
    let f = &clean.suites[0].failures[0];
    assert_eq!(f.invariant, "<home>/me inv");
    assert_eq!(f.observed, "bad");
    assert_eq!(f.remediation_hint, "see <home>/me");
    assert_eq!(clean.suites[0].duration_ms, 3);
}

#[test]
fn gate_fails_fast_on_first_failed_suite() {
    let suites = vec![
        SuiteExecutionInput {
            suite: String::from("regression"),
            passed: false,
            duration_ms: 12,
            failures: vec![failure("out-of-order")],
        },
        SuiteExecutionInput {
            suite: String::from("resilience"),
            passed: true,
            duration_ms: 30,
            failures: Vec::new(),
        },
    ];
    let outcome = decide_quality_gate("registry", &suites, &vec![MetricStatus::Pass]);
    assert_eq!(outcome.state, GateState::Failed);
    assert_eq!(outcome.diagnostics.suites.len(), 1);
}

#[test]
fn gate_passes_when_suites_and_metrics_pass() {
    let suites = vec![SuiteExecutionInput {
        suite: String::from("regression"),
        passed: true,
        duration_ms: 50,
        failures: Vec::new(),
    }];
    let outcome = decide_quality_gate("registry", &suites, &vec![MetricStatus::Pass]);
    assert_eq!(outcome.state, GateState::Passed);
    assert!(outcome.diagnostics.overall_passed);
}

#[test]
fn gate_fails_on_failing_or_missing_metric_and_is_ready_without_suites() {
    let suites = vec![SuiteExecutionInput {
        suite: String::from("regression"),
        passed: true,
        duration_ms: 5,
        failures: Vec::new(),
    }];
    let failed = decide_quality_gate("r", &suites, &vec![MetricStatus::Pass, MetricStatus::Fail]);
    assert_eq!(failed.state, GateState::Failed);
    assert!(!failed.diagnostics.overall_passed);
    let missing = decide_quality_gate("r", &suites, &vec![MetricStatus::MissingThreshold]);
    assert_eq!(missing.state, GateState::Failed);
    let ready = decide_quality_gate("r", &Vec::new(), &Vec::new());
    assert_eq!(ready.state, GateState::Ready);
    assert_eq!(ready.diagnostics.registry_version, "r");
}

#[test]
fn registry_rejects_empty_version() {
    let metrics = vec![facts("quality_gate_runtime_ms", true, true)];
    assert!(validate_threshold_registry("", &metrics).is_err());
    assert!(validate_threshold_registry("2026-03", &metrics).is_ok());
}

#[test]
fn registry_errors_name_the_first_bad_metric() {
    assert_eq!(
        validate_threshold_registry("v", &Vec::new()),
        Err(String::from("threshold registry must declare at least one metric"))
    );
    let metrics = vec![facts("ok", true, true), facts("lat", false, false), facts("", true, true)];
    assert_eq!(
        validate_threshold_registry("v", &metrics),
        Err(String::from("metric baseline must be > 0 for lat"))
    );
    let metrics = vec![facts("lat", true, false)];
    assert_eq!(
        validate_threshold_registry("v", &metrics),
        Err(String::from("metric tolerance_percent must be >= 0 for lat"))
    );
    let metrics = vec![facts("  ", true, true)];
    assert_eq!(
        validate_threshold_registry("v", &metrics),
        Err(String::from("metric name cannot be empty"))
    );
}

#[test]
fn local_gate_command_is_the_script() {
    assert_eq!(local_ci_quality_gate_command(), "scripts/quality-gate.sh");
}
