use melors::release::{
    append_approval_event, can_transition, evaluate_docs_sync, parse_docs_checklist_markdown,
    validate_artifact_package, ApprovalEvent, ArtifactEntry, ArtifactPackage, DocsChecklist,
    ReleaseStatus, ReleaseSummary, RollbackStatus, TransitionInputs,
};

fn inputs(q: bool, i: bool, d: bool, approvals: usize, rollback: RollbackStatus) -> TransitionInputs {
    TransitionInputs {
        quality_gate_passed: q,
        integrity_passed: i,
        docs_sync_passed: d,
        approval_count: approvals,
        rollback_status: rollback,
    }
}

#[test]
fn integrity_report_fails_when_checksum_or_release_notes_missing() {
    let package = ArtifactPackage {
        candidate_id: String::from("rc-001"),
        artifacts: vec![ArtifactEntry {
            path: String::from("target/release/melors"),
            checksum: String::new(),
        }],
        release_notes_ref: String::new(),
    };

    let report = validate_artifact_package(&package);
    assert!(!report.passed);
    assert!(report.reasons.iter().any(|r| r.contains("release_notes_ref")));
    assert!(report.reasons.iter().any(|r| r.contains("checksum")));
}

#[test]
fn integrity_report_passes_for_complete_package() {
    let package = ArtifactPackage {
        candidate_id: String::from("rc-010"),
        artifacts: vec![ArtifactEntry {
            path: String::from("target/release/melors"),
            checksum: String::from("abc123"),
        }],
        release_notes_ref: String::from("docs/release-notes.md"),
    };
    let report = validate_artifact_package(&package);
    assert!(report.passed);
    assert!(report.reasons.is_empty());
}

#[test]
fn integrity_report_lists_each_problem_once_in_order() {
    let package = ArtifactPackage {
        candidate_id: String::new(),
        artifacts: Vec::new(),
        release_notes_ref: String::from("notes"),
    };
    let report = validate_artifact_package(&package);
    assert!(!report.passed);
    assert_eq!(report.reasons.len(), 2);
    assert!(report.reasons[0].contains("candidate_id"));
    assert!(report.reasons[1].contains("artifact"));
}

#[test]
fn docs_sync_blocks_when_required_items_missing() {
    let checklist = DocsChecklist {
        required_items: vec![
            String::from("README release section"),
            String::from("release runbook"),
        ],
        completed_items: vec![String::from("README release section")],
    };

    let verdict = evaluate_docs_sync(&checklist);
    assert!(!verdict.passed);
    assert_eq!(verdict.missing_items, vec![String::from("release runbook")]);
}

#[test]
fn docs_sync_passes_when_everything_completed() {
    let checklist = DocsChecklist {
        required_items: vec![String::from("a"), String::from("b")],
        completed_items: vec![String::from("b"), String::from("a")],
    };
    let verdict = evaluate_docs_sync(&checklist);
    assert!(verdict.passed);
    assert!(verdict.missing_items.is_empty());
}

#[test]
fn parse_docs_checklist_reads_checkbox_state() {
    let markdown = "- [x] README release section\n- [ ] PR template docs impact section\n";
    let parsed = parse_docs_checklist_markdown(markdown);

    assert_eq!(parsed.required_items.len(), 2);
    assert_eq!(parsed.completed_items, vec![String::from("README release section")]);
}

#[test]
fn parse_docs_checklist_ignores_other_lines() {
    let markdown = "# Docs\n\nsome text\n  - [x] Trimmed item  \n- [X] Upper case mark\n- [ ]   \n- [ ] open";
    let parsed = parse_docs_checklist_markdown(markdown);
    assert_eq!(
        parsed.required_items,
        vec![String::from("Trimmed item"), String::from("open")]
    );
    assert_eq!(parsed.completed_items, vec![String::from("Trimmed item")]);
}

#[test]
fn transition_requires_quality_integrity_docs_before_ready_for_approval() {
    let i = inputs(true, false, true, 0, RollbackStatus::NotRequiredPrePublish);
    let result = can_transition(ReleaseStatus::Draft, ReleaseStatus::ReadyForApproval, &i);
    assert!(result.is_err());
}

#[test]
fn transition_requires_explicit_approval_event() {
    let i = inputs(true, true, true, 0, RollbackStatus::Ready);
    let result = can_transition(ReleaseStatus::ReadyForApproval, ReleaseStatus::Approved, &i);
    assert!(result.is_err());
}

#[test]
fn publish_transition_passes_with_all_inputs_green() {
    let i = inputs(true, true, true, 1, RollbackStatus::Ready);
    let result = can_transition(ReleaseStatus::Approved, ReleaseStatus::Published, &i);
    assert!(result.is_ok());
}

#[test]
fn transition_error_messages_are_exact() {
    let i = inputs(false, true, true, 0, RollbackStatus::Ready);
    assert_eq!(
        can_transition(ReleaseStatus::Draft, ReleaseStatus::ReadyForApproval, &i),
        Err(String::from("quality gate must pass before ReadyForApproval"))
    );
    let i = inputs(true, true, false, 0, RollbackStatus::Ready);
    assert_eq!(
        can_transition(ReleaseStatus::Draft, ReleaseStatus::ReadyForApproval, &i),
        Err(String::from("docs sync must pass before ReadyForApproval"))
    );
    let i = inputs(true, true, true, 3, RollbackStatus::Triggered);
    assert_eq!(
        can_transition(ReleaseStatus::Approved, ReleaseStatus::Published, &i),
        Err(String::from("cannot publish while rollback is active/completed"))
    );
    assert_eq!(
        can_transition(ReleaseStatus::Draft, ReleaseStatus::Published, &i),
        Err(String::from("invalid transition: Draft -> Published"))
    );
    assert!(can_transition(ReleaseStatus::Published, ReleaseStatus::RolledBack, &i).is_ok());
}

#[test]
fn lifecycle_allows_only_the_forward_chain() {
    let green = inputs(true, true, true, 1, RollbackStatus::Ready);
    let all = [
        ReleaseStatus::Draft,
        ReleaseStatus::ReadyForApproval,
        ReleaseStatus::Approved,
        ReleaseStatus::Published,
        ReleaseStatus::RolledBack,
    ];
    let mut allowed = 0;
    for from in all {
        for to in all {
            if can_transition(from, to, &green).is_ok() {
                allowed += 1;
            }
        }
    }
    assert_eq!(allowed, 4);
}

#[test]
fn approval_logger_appends_events_immutably() {
    let mut log = Vec::new();
    append_approval_event(
        &mut log,
        ApprovalEvent {
            candidate_id: String::from("rc-002"),
            stage: String::from("ReadyForApproval->Approved"),
            approver: String::from("maintainer"),
            timestamp_utc: String::from("2026-03-17T00:00:00Z"),
        },
    );
    append_approval_event(
        &mut log,
        ApprovalEvent {
            candidate_id: String::from("rc-002"),
            stage: String::from("Approved->Published"),
            approver: String::from("maintainer"),
            timestamp_utc: String::from("2026-03-17T00:05:00Z"),
        },
    );
    assert_eq!(log.len(), 2);
    assert_eq!(log[0].stage, "ReadyForApproval->Approved");
    assert_eq!(log[1].stage, "Approved->Published");
}

#[test]
fn release_summary_contains_required_communication_fields() {
    let summary = ReleaseSummary {
        candidate_id: String::from("rc-003"),
        release_status: ReleaseStatus::Published,
        quality_gate_passed: true,
        integrity_passed: true,
        docs_sync_passed: true,
        approval_count: 2,
        rollback_status: RollbackStatus::Ready,
        rollback_owner: String::from("release-manager"),
        rollback_next_step: String::from("Monitor first-hour error budget"),
    };
    let markdown = summary.to_markdown();
    assert!(markdown.contains("Candidate ID: rc-003"));
    assert!(markdown.contains("Rollback Owner: release-manager"));
}

#[test]
fn release_summary_full_text() {
    let summary = ReleaseSummary {
        candidate_id: String::from("rc-4"),
        release_status: ReleaseStatus::Draft,
        quality_gate_passed: false,
        integrity_passed: true,
        docs_sync_passed: false,
        approval_count: 12,
        rollback_status: RollbackStatus::NotRequiredPrePublish,
        rollback_owner: String::from("ops"),
        rollback_next_step: String::from("none"),
    };
    assert_eq!(
        summary.to_markdown(),
        "# Release Summary\n\n- Candidate ID: rc-4\n- Release Status: Draft\n- Quality Gate: false\n- Integrity Gate: true\n- Docs Sync Gate: false\n- Approval Events: 12\n- Rollback Status: NotRequiredPrePublish\n- Rollback Owner: ops\n- Rollback Next Step: none\n"
    );
}
