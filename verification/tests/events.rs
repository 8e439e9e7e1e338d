use aopmem::artifacts::{ArtifactError, ArtifactErrorKind, CleanupReport};
use aopmem::error::CliError;
use aopmem::event::{
    counts_observation_event, items_observation_event, link_observation_event, mandatory_overflow_observation_event,
    node_observation_event, tool_observation_event, EventOutcome, EventPayload, EventType, Link, McpStatus, Node,
    ObservationEvent,
};
use aopmem::observation::CommandObservation;
use aopmem::observed::{
    artifact_cleanup_counts, artifact_cleanup_observation_event, attach_adapter_observation,
    attach_install_observation, doctor_observation_event, mcp_observation_event, mcp_status_aggregate_event,
    record_failed_observation, record_mcp_status, record_snapshot_observation, record_tool_run_observation,
    verify_exit_code, verify_observation_event, workspace_init_observation_event, ArtifactStream, DoctorChecks, DoctorReport,
    DoctorStatus, LintReport, LintSummary, McpProfile, SnapshotObservation, ToolInvocationRecord, ToolRunArtifacts,
    ToolRunRecord, ToolRunTrace, WorkspaceInitStatus, AUDIT_SNAPSHOT_FAILED_ERROR_CODE, AUDIT_SNAPSHOT_PENDING,
};
use aopmem::pagination::Page;
use aopmem::tools::{RunToolError, ToolRunLimitError};

fn counts(event: &ObservationEvent) -> Vec<(&'static str, u64)> {
    match &event.payload {
        EventPayload::Counts(items) => items.iter().map(|item| (item.name, item.count)).collect(),
        other => panic!("expected counts, got {other:?}"),
    }
}

fn attached() -> CommandObservation {
    let mut observation = CommandObservation::new("tool_run", None);
    assert!(observation.attach_workspace());
    observation.collector_opened(Some("corr".to_string()));
    observation
}

fn report() -> CleanupReport {
    CleanupReport {
        artifact_root: "/a".to_string(),
        today_dir: "/a/today".to_string(),
        bytes_before: 10,
        bytes_after: 4,
        deleted_dirs: vec!["/a/old".to_string()],
        deleted_files: vec!["/a/old/x".to_string(), "/a/old/y".to_string()],
        kept_dirs: Vec::new(),
        deleted_paths: vec!["/a/old".to_string()],
        complete: true,
    }
}

#[test]
fn counts_events_keep_names_and_order() {
    let event = counts_observation_event(EventType::Doctor, EventOutcome::Warning, &[("b", 2), ("a", 1)], Some("CODE"));
    assert_eq!(counts(&event), vec![("b", 2), ("a", 1)]);
    assert_eq!(event.error_code, Some("CODE"));
    assert!(event.bundle_id.is_none());
    assert!(event.duration_ms.is_none());
    assert_eq!(counts(&items_observation_event(EventType::NodeCreated, EventOutcome::Success, 3)), vec![("items", 3)]);
    let overflow = mandatory_overflow_observation_event(5);
    assert_eq!(overflow.event_type, EventType::RecallMandatoryOverflow);
    assert_eq!(overflow.outcome, EventOutcome::Overflow);
    assert_eq!(counts(&overflow), vec![("offending_nodes", 5)]);
}

#[test]
fn node_link_and_tool_events_copy_their_subject() {
    let node = Node { id: 3, node_type: "rule".to_string(), title: "T".to_string(), summary: None, source_ref: Some("s".to_string()) };
    match node_observation_event(EventType::NodeCreated, EventOutcome::Success, &node).payload {
        EventPayload::Node(p) => {
            assert_eq!(p.id, 3);
            assert_eq!(p.title, "T");
            assert!(p.summary.is_none());
            assert_eq!(p.source_ref.as_deref(), Some("s"));
        }
        other => panic!("unexpected {other:?}"),
    }
    let link = Link { source_node_id: 1, target_node_id: 2, link_type: "uses".to_string() };
    let event = link_observation_event(&link);
    assert_eq!(event.event_type, EventType::LinkCreated);
    assert_eq!(event.outcome, EventOutcome::Recorded);
    let tool = tool_observation_event(EventType::ToolValidation, EventOutcome::Blocked, "t1", false, Some("UNSAFE_ACTION_BLOCKED"));
    match tool.payload {
        EventPayload::Tool(p) => {
            assert_eq!(p.tool_id, "t1");
            assert!(!p.approval_present);
        }
        other => panic!("unexpected {other:?}"),
    }
}

#[test]
fn snapshot_pending_records_failed_then_pending_with_one_frozen_duration() {
    let mut observation = attached();
    let writes = record_snapshot_observation(&mut observation, SnapshotObservation::Pending { duration_ms: 12 });
    assert_eq!(writes.len(), 2);
    assert_eq!(writes[0].event_type, EventType::AuditSnapshotFailed);
    assert_eq!(writes[0].error_code, Some(AUDIT_SNAPSHOT_FAILED_ERROR_CODE));
    assert_eq!(writes[1].event_type, EventType::AuditSnapshotPending);
    assert_eq!(writes[1].outcome, EventOutcome::Pending);
    assert_eq!(writes[1].error_code, Some(AUDIT_SNAPSHOT_PENDING));
    assert_eq!(writes[0].duration_ms, writes[1].duration_ms);
    assert_eq!(writes[0].duration_ms, observation.terminal_duration_ms);
    assert_eq!(counts(&writes[1]), vec![("duration_ms", 12)]);

    let writes = record_snapshot_observation(&mut observation, SnapshotObservation::Completed { duration_ms: 3, bytes_written: 99 });
    assert_eq!(writes.len(), 1);
    assert_eq!(counts(&writes[0]), vec![("duration_ms", 3), ("bytes_written", 99)]);
}

#[test]
fn tool_dry_run_emits_only_validation_and_real_spawn_has_one_terminal() {
    let mut observation = attached();
    let dry = Ok(ToolInvocationRecord::DryRun);
    let writes = record_tool_run_observation(&mut observation, "t", false, ToolRunTrace { validated: true, spawned: false }, &dry, true);
    assert_eq!(writes.len(), 1);
    assert_eq!(writes[0].event_type, EventType::ToolValidation);
    assert_eq!(writes[0].outcome, EventOutcome::Success);

    let mut observation = attached();
    let run = Ok(ToolInvocationRecord::Run(ToolRunRecord {
        artifacts: Some(ToolRunArtifacts {
            stdout: ArtifactStream { path: "out.txt".to_string(), bytes: 5 },
            stderr: ArtifactStream { path: "err.txt".to_string(), bytes: 0 },
        }),
    }));
    let writes = record_tool_run_observation(&mut observation, "t", true, ToolRunTrace { validated: true, spawned: true }, &run, false);
    let kinds: Vec<EventType> = writes.iter().map(|w| w.event_type).collect();
    assert_eq!(
        kinds,
        vec![
            EventType::ToolValidation,
            EventType::ToolRunStarted,
            EventType::ToolRunCompleted,
            EventType::ToolOutputArtifact,
            EventType::ToolOutputArtifact,
        ]
    );
    assert!(writes[1].duration_ms.is_none());
    assert_eq!(writes[2].duration_ms, observation.terminal_duration_ms);
    match &writes[3].payload {
        EventPayload::Artifact(p) => {
            assert_eq!(p.path, "out.txt");
            assert_eq!(p.bytes, 5);
        }
        other => panic!("unexpected {other:?}"),
    }
}

#[test]
fn tool_validation_failure_has_no_fake_run_start() {
    let mut observation = attached();
    let failed = Err(RunToolError::NotFound("t".to_string()));
    let writes = record_tool_run_observation(&mut observation, "t", false, ToolRunTrace { validated: false, spawned: false }, &failed, false);
    assert_eq!(writes.len(), 1);
    assert_eq!(writes[0].outcome, EventOutcome::Failure);
    assert_eq!(writes[0].error_code, Some("NOT_FOUND"));

    let blocked = Err(RunToolError::UnsafeActionBlocked {
        tool_id: "t".to_string(),
        side_effects: "writes".to_string(),
        approval_requirement: "approval".to_string(),
    });
    let writes = record_tool_run_observation(&mut observation, "t", false, ToolRunTrace { validated: false, spawned: false }, &blocked, false);
    assert_eq!(writes.len(), 1);
    assert_eq!(writes[0].outcome, EventOutcome::Blocked);
    assert_eq!(writes[0].error_code, Some("UNSAFE_ACTION_BLOCKED"));
}

#[test]
fn tool_timeout_and_failure_events_are_exact() {
    let mut observation = attached();
    let timeout = Err(RunToolError::Limit(ToolRunLimitError::TimedOut {
        timeout_ms: 10,
        stdout_limit_bytes: 1,
        stderr_limit_bytes: 1,
        stdout_truncated: false,
        stderr_truncated: false,
    }));
    let writes = record_tool_run_observation(&mut observation, "t", false, ToolRunTrace { validated: true, spawned: true }, &timeout, false);
    let shapes: Vec<(EventType, EventOutcome, Option<&str>)> = writes.iter().map(|w| (w.event_type, w.outcome, w.error_code)).collect();
    assert_eq!(
        shapes,
        vec![
            (EventType::ToolValidation, EventOutcome::Success, None),
            (EventType::ToolRunStarted, EventOutcome::Started, None),
            (EventType::ToolRunTimeout, EventOutcome::Timeout, Some("TOOL_TIMEOUT")),
        ]
    );

    let failed = Err(RunToolError::ProcessFailed(3));
    let writes = record_tool_run_observation(&mut observation, "t", false, ToolRunTrace { validated: true, spawned: true }, &failed, false);
    assert_eq!(writes.last().map(|w| (w.event_type, w.error_code)), Some((EventType::ToolRunFailed, Some("TOOL_PROCESS_FAILED"))));

    let mut detached = CommandObservation::new("tool_run", None);
    assert!(record_tool_run_observation(&mut detached, "t", false, ToolRunTrace { validated: true, spawned: true }, &failed, false).is_empty());
}

#[test]
fn cleanup_partial_counts_have_exact_keys_and_never_store_paths() {
    let ok = artifact_cleanup_observation_event(&Ok(report()));
    assert_eq!(ok.outcome, EventOutcome::Success);
    assert_eq!(
        counts(&ok),
        vec![
            ("bytes_before", 10),
            ("bytes_after", 4),
            ("deleted_dirs", 1),
            ("deleted_files", 2),
            ("deleted_paths", 1),
            ("kept_dirs", 0),
            ("complete", 1),
        ]
    );
    let partial = ArtifactError {
        kind: ArtifactErrorKind::CleanupPartial,
        text: "partial".to_string(),
        report: Some(report()),
        deleted_paths: Some(vec!["/a/old".to_string()]),
    };
    let event = artifact_cleanup_observation_event(&Err(partial));
    assert_eq!(event.outcome, EventOutcome::Warning);
    assert_eq!(event.error_code, Some("ARTIFACT_CLEANUP_PARTIAL"));
    let unknown = ArtifactError {
        kind: ArtifactErrorKind::CleanupStateUnknown,
        text: "unknown".to_string(),
        report: None,
        deleted_paths: Some(vec!["x".to_string(), "y".to_string()]),
    };
    let event = artifact_cleanup_observation_event(&Err(unknown));
    assert_eq!(event.outcome, EventOutcome::Failure);
    assert_eq!(counts(&event), vec![("deleted_paths", 2)]);
    assert_eq!(artifact_cleanup_counts(None, None), vec![("deleted_paths", 0)]);
}

fn profile(id: &str, status: &str) -> McpProfile {
    McpProfile { id: id.to_string(), status: status.to_string() }
}

#[test]
fn mcp_list_records_exact_aggregate_and_not_found_does_not_fake_missing() {
    let page = Page {
        items: vec![
            profile("a", "installed"),
            profile("b", "missing"),
            profile("c", "configured_unverified"),
            profile("d", "installed"),
            profile("e", "retired"),
        ],
        next_after_id: Some("e".to_string()),
        more_results: true,
    };
    let event = mcp_status_aggregate_event(&page);
    assert_eq!(event.outcome, EventOutcome::Truncated);
    assert_eq!(
        counts(&event),
        vec![
            ("profiles", 5),
            ("installed", 2),
            ("missing", 1),
            ("configured_unverified", 1),
            ("unrecognized", 1),
            ("more_results", 1),
        ]
    );
    assert!(mcp_observation_event(&profile("e", "retired")).is_none());
    let event = mcp_observation_event(&profile("b", "missing")).expect("recognised status");
    assert_eq!(event.outcome, EventOutcome::Missing);
    match event.payload {
        EventPayload::Mcp(p) => {
            assert_eq!(p.profile_id, "b");
            assert_eq!(p.status, McpStatus::Missing);
        }
        other => panic!("unexpected {other:?}"),
    }
    let mut observation = attached();
    assert!(record_mcp_status(&mut observation, &profile("e", "retired")).is_empty());
    assert!(observation.terminal_duration_ms.is_none());
    assert_eq!(record_mcp_status(&mut observation, &profile("a", "installed")).len(), 1);
    assert!(observation.terminal_duration_ms.is_some());
}

#[test]
fn doctor_and_verify_record_typed_counts_without_issue_text_or_paths() {
    let checks = DoctorChecks {
        global_dirs: DoctorStatus::Ready,
        workspace: DoctorStatus::Ready,
        db: DoctorStatus::Missing,
        schema: DoctorStatus::Error,
        fts: DoctorStatus::Ready,
        adapter_block: DoctorStatus::Missing,
        artifacts_dirs: DoctorStatus::Ready,
        audit_snapshot: DoctorStatus::Ready,
        tools_dirs: DoctorStatus::Ready,
    };
    let event = doctor_observation_event(&DoctorReport { checks, healthy: false });
    assert_eq!(event.outcome, EventOutcome::Warning);
    assert_eq!(counts(&event), vec![("checks", 9), ("ready", 6), ("missing", 2), ("error", 1)]);

    let summary = LintSummary {
        total: 3,
        duplicate_ids: 1,
        broken_links: 2,
        deprecated_active_links: 0,
        missing_source: 0,
        missing_summary: 0,
        missing_gates: 0,
        adapter_block_drift: 0,
        schema_drift: 0,
        forbidden_feature_terms: 0,
        pending_audit_snapshot: 0,
    };
    assert_eq!(verify_exit_code(&LintReport { summary, clean: true }), 0);
    assert_eq!(verify_exit_code(&LintReport { summary, clean: false }), 8);
    let event = verify_observation_event(&LintReport { summary, clean: true });
    assert_eq!(event.outcome, EventOutcome::Success);
    let c = counts(&event);
    assert_eq!(c.len(), 11);
    assert_eq!(c[0], ("total", 3));
    assert_eq!(c[2], ("broken_links", 2));
    assert_eq!(c[10], ("pending_audit_snapshot", 0));
}

#[test]
fn workspace_init_and_failures_are_recorded() {
    let status = WorkspaceInitStatus { seeded_nodes_created: 4, seeded_nodes_existing: 0, semantic_nodes_created: 2, semantic_nodes_existing: 1 };
    let event = workspace_init_observation_event(&status);
    assert_eq!(
        counts(&event),
        vec![("seeded_nodes_created", 4), ("seeded_nodes_existing", 0), ("semantic_nodes_created", 2), ("semantic_nodes_existing", 1)]
    );
    let mut observation = attached();
    let error = CliError::invalid_utf8_input();
    let write = record_failed_observation(&mut observation, EventType::InstallFailed, &error).expect("collector attached");
    assert_eq!(write.outcome, EventOutcome::Failure);
    assert_eq!(write.error_code, Some("INVALID_UTF8_INPUT"));
    assert!(matches!(write.payload, EventPayload::Empty));
}

#[test]
fn install_and_adapter_attach_only_once_and_only_when_possible() {
    let mut observation = CommandObservation::new("init", None);
    assert!(!attach_install_observation(&mut observation, false));
    assert_eq!(observation.warnings_after(Vec::new()).len(), 1);
    let mut observation = CommandObservation::new("init", None);
    assert!(attach_install_observation(&mut observation, true));
    assert!(!attach_install_observation(&mut observation, true));

    let mut observation = CommandObservation::new("adapter_status", None);
    assert!(!attach_adapter_observation(&mut observation, false));
    assert!(!observation.attach_attempted);
    assert!(attach_adapter_observation(&mut observation, true));
    assert!(!attach_adapter_observation(&mut observation, true));
}
