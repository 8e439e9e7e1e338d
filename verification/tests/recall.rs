use aopmem::event::{CollectorInputError, EventOutcome, EventPayload, EventType, SelectionReason};
use aopmem::recall::{
    admit_task_node, advance_continuation_offset, next_continuation_phase, RecallStepError,
    canonicalize_continuation_seen_nodes, continuation_roots, insert_continuation_seen_node,
    validate_recall_cursor_revision, ContinuationRoot, RecallContinuationPhase, RecallContinuationState,
    RecallCursorError, RecallProbeCheckpoint,
};
use aopmem::recall_facts::{
    build_task_recall_bundle_nodes, build_task_recall_observation_payload, recall_bundle_events, recall_selection_reason, RecallEnd,
    task_recall_observation_facts, RecallExpansionType, RecallNode, RecallResponse, RecallSelectionReason,
    SelectedRecallNode,
};
use std::collections::HashSet;

fn state(revision: &str) -> RecallContinuationState {
    RecallContinuationState {
        phase: RecallContinuationPhase::TypedRoots,
        offset: 0,
        roots: Vec::new(),
        seen_node_ids: Vec::new(),
        database_revision: revision.to_string(),
        task_node_bytes: 0,
        emitted_count: 0,
        exhausted: false,
    }
}

fn root(node_id: i64, node_type: &str) -> ContinuationRoot {
    ContinuationRoot { node_id, node_type: node_type.to_string() }
}

fn selected(id: i64, reasons: Vec<RecallSelectionReason>) -> SelectedRecallNode {
    SelectedRecallNode {
        node: RecallNode {
            id,
            node_type: "workflow".to_string(),
            title: format!("Node {id}"),
            summary: Some("summary".to_string()),
            source_ref: None,
            trust_level: Some("high".to_string()),
            confidence_bits: Some(0.9f64.to_bits()),
        },
        selection_reasons: reasons,
    }
}

#[test]
fn recall_cursor_revision_detects_mutation_explicitly() {
    let cursor = state("rev-1");
    assert!(validate_recall_cursor_revision(&cursor, "rev-1").is_ok());
    let error = validate_recall_cursor_revision(&cursor, "rev-2").expect_err("mutation must stale cursor");

    assert_eq!(error.code, "STALE_RECALL_CURSOR");
    assert_eq!(error.exit_code, 1);
}

#[test]
fn continuation_seen_index_preserves_first_seen_order_and_sorts_canonically() {
    let mut cursor = state("rev");
    let mut seen = HashSet::new();
    for id in [7, 3, 7, 11, 3] {
        insert_continuation_seen_node(&mut cursor, &mut seen, id).expect("positive ids are accepted");
    }
    assert_eq!(cursor.seen_node_ids, vec![7, 3, 11]);
    assert_eq!(seen.len(), 3);
    assert_eq!(
        insert_continuation_seen_node(&mut cursor, &mut seen, 0),
        Err(RecallCursorError::InvalidNodeId)
    );
    assert_eq!(
        insert_continuation_seen_node(&mut cursor, &mut seen, -4),
        Err(RecallCursorError::InvalidNodeId)
    );
    assert_eq!(cursor.seen_node_ids, vec![7, 3, 11]);

    canonicalize_continuation_seen_nodes(&mut cursor);
    assert_eq!(cursor.seen_node_ids, vec![3, 7, 11]);
}

#[test]
fn seen_index_updates_leave_the_budget_alone() {
    let mut cursor = state("rev");
    cursor.task_node_bytes = 42;
    cursor.emitted_count = 2;
    cursor.exhausted = true;
    let mut seen = HashSet::new();
    for id in [19, 3, 11, 3] {
        insert_continuation_seen_node(&mut cursor, &mut seen, id).expect("positive ids are accepted");
    }
    assert_eq!(cursor.seen_node_ids, vec![19, 3, 11]);
    canonicalize_continuation_seen_nodes(&mut cursor);
    assert_eq!(cursor.seen_node_ids, vec![3, 11, 19]);
    assert_eq!((cursor.task_node_bytes, cursor.emitted_count, cursor.exhausted), (42, 2, true));
    cursor.roots.push(root(8, "rule"));
    let checkpoint = RecallProbeCheckpoint::capture(&cursor);
    let mut root_ids: HashSet<i64> = [8].into_iter().collect();
    cursor.roots.push(root(9, "tool"));
    root_ids.insert(9);
    checkpoint.restore(&mut cursor, &mut root_ids);
    assert_eq!((cursor.task_node_bytes, cursor.emitted_count, cursor.exhausted), (42, 2, true));
    assert_eq!(root_ids, [8].into_iter().collect());
}

#[test]
fn continuation_probe_restores_exact_state_before_new_candidate() {
    let mut cursor = state("rev");
    cursor.phase = RecallContinuationPhase::Fts;
    cursor.offset = 4;
    cursor.roots = vec![root(1, "workflow"), root(2, "tool")];
    let mut root_ids: HashSet<i64> = [1, 2].into_iter().collect();

    let checkpoint = RecallProbeCheckpoint::capture(&cursor);
    cursor.phase = RecallContinuationPhase::DirectLinks;
    cursor.offset = 9;
    cursor.roots.push(root(5, "lesson"));
    cursor.roots.push(root(6, "rule"));
    root_ids.insert(5);
    root_ids.insert(6);

    checkpoint.restore(&mut cursor, &mut root_ids);
    assert_eq!(cursor.phase, RecallContinuationPhase::Fts);
    assert_eq!(cursor.offset, 4);
    assert_eq!(cursor.roots.iter().map(|r| r.node_id).collect::<Vec<_>>(), vec![1, 2]);
    assert_eq!(root_ids, [1, 2].into_iter().collect());
}

#[test]
fn continuation_roots_keep_order_and_types() {
    let mut cursor = state("rev");
    cursor.roots = vec![root(3, "workflow"), root(1, "tool")];
    assert_eq!(continuation_roots(&cursor), vec![(3, "workflow".to_string()), (1, "tool".to_string())]);
}

#[test]
fn selection_reasons_map_to_observed_kinds() {
    let cases = [
        (RecallSelectionReason::MandatoryContext, SelectionReason::Mandatory),
        (RecallSelectionReason::TypedRoot, SelectionReason::TypedRoot),
        (RecallSelectionReason::FtsBm25 { rank_bits: 1 }, SelectionReason::FtsBm25),
        (RecallSelectionReason::DirectLink, SelectionReason::DirectLink),
        (RecallSelectionReason::GraphTraversal, SelectionReason::GraphTraversal),
        (RecallSelectionReason::Expansion { expansion_type: RecallExpansionType::Workflow }, SelectionReason::Workflow),
        (RecallSelectionReason::Expansion { expansion_type: RecallExpansionType::Tool }, SelectionReason::Tool),
        (RecallSelectionReason::Expansion { expansion_type: RecallExpansionType::FailureMode }, SelectionReason::FailureMode),
    ];
    for (reason, observed) in cases {
        assert_eq!(recall_selection_reason(&reason), observed);
    }
}

#[test]
fn recall_payload_lists_ids_first_reasons_and_fts_scores() {
    let rank = (-2.5f64).to_bits();
    let a = selected(4, vec![RecallSelectionReason::TypedRoot, RecallSelectionReason::FtsBm25 { rank_bits: rank }]);
    let b = selected(9, vec![RecallSelectionReason::GraphTraversal]);
    let nodes = vec![&a, &b];
    let payload = build_task_recall_observation_payload(&nodes, true, true, true, true).expect("nodes have reasons");
    assert_eq!(payload.node_count, 2);
    assert_eq!(payload.continuation, 1);
    assert_eq!(payload.selected_node_ids, Some(vec![4, 9]));
    assert_eq!(payload.selection_reasons, Some(vec![SelectionReason::TypedRoot, SelectionReason::GraphTraversal]));
    let scores = payload.scores.expect("scores are listed");
    assert_eq!(scores.len(), 1);
    assert_eq!(scores[0].node_id, 4);
    assert_eq!(f64::from_bits(scores[0].rank_bits), -2.5);

    let bare = selected(1, Vec::new());
    let nodes = vec![&bare];
    assert_eq!(
        build_task_recall_observation_payload(&nodes, false, false, false, false).err(),
        Some(CollectorInputError::Serialization)
    );
}

#[test]
fn large_recall_payload_carries_counts_only() {
    let many: Vec<SelectedRecallNode> = (1..=129).map(|id| selected(id, Vec::new())).collect();
    let refs: Vec<&SelectedRecallNode> = many.iter().collect();
    let payload = build_task_recall_observation_payload(&refs, false, false, false, false).expect("counts only");
    assert_eq!(payload.node_count, 129);
    assert!(payload.selected_node_ids.is_none());
    assert!(payload.selection_reasons.is_none());
    assert!(payload.scores.is_none());
}

#[test]
fn bundle_nodes_copy_every_field() {
    let a = selected(4, vec![RecallSelectionReason::FtsBm25 { rank_bits: 7 }, RecallSelectionReason::DirectLink]);
    let nodes = build_task_recall_bundle_nodes(&vec![&a]);
    assert_eq!(nodes.len(), 1);
    assert_eq!(nodes[0].id, 4);
    assert_eq!(nodes[0].title, "Node 4");
    assert_eq!(nodes[0].summary.as_deref(), Some("summary"));
    assert_eq!(nodes[0].trust_level.as_deref(), Some("high"));
    assert_eq!(nodes[0].score_bits, Some(7));
    assert_eq!(nodes[0].reasons, vec![SelectionReason::FtsBm25, SelectionReason::DirectLink]);
}

#[test]
fn task_recall_facts_cover_mandatory_then_task_nodes() {
    let response = RecallResponse {
        mandatory_nodes: vec![selected(1, vec![RecallSelectionReason::MandatoryContext])],
        task_nodes: vec![selected(2, vec![RecallSelectionReason::FtsBm25 { rank_bits: 3 }])],
        more_results: false,
        task_budget_exhausted: true,
    };
    let facts = task_recall_observation_facts(&response, false);
    assert!(!facts.empty);
    assert!(facts.truncated);
    assert!(!facts.more_results);
    assert_eq!(facts.bundle_nodes.iter().map(|n| n.id).collect::<Vec<_>>(), vec![1, 2]);
    let payload = facts.payload.as_ref().expect("payload builds");
    assert!(payload.fts_fallback_used);
    assert!(!payload.graph_traversal_used);
    let event = facts.completed_event().expect("completed event builds");
    assert_eq!(event.event_type, EventType::RecallCompleted);
    assert_eq!(event.outcome, EventOutcome::Success);
    match event.payload {
        EventPayload::Recall(p) => assert_eq!(p.selected_node_ids, Some(vec![1, 2])),
        other => panic!("unexpected payload {other:?}"),
    }

    let empty = RecallResponse { mandatory_nodes: Vec::new(), task_nodes: Vec::new(), more_results: false, task_budget_exhausted: false };
    let facts = task_recall_observation_facts(&empty, true);
    assert!(facts.empty);
    assert!(!facts.truncated);
}

#[test]
fn admitted_nodes_never_exceed_the_task_budget() {
    let mut page = state("rev");
    assert_eq!(admit_task_node(&mut page, 40, 10, 100), Ok(true));
    assert_eq!(page.task_node_bytes, 40);
    assert_eq!(page.emitted_count, 1);
    assert_eq!(admit_task_node(&mut page, 30, 10, 100), Ok(true));
    assert_eq!(page.task_node_bytes, 71);
    assert_eq!(page.emitted_count, 2);
    assert_eq!(admit_task_node(&mut page, 18, 10, 100), Ok(true));
    assert_eq!(page.task_node_bytes, 90);
    assert!(!page.exhausted);
    assert_eq!(admit_task_node(&mut page, 1, 10, 100), Ok(false));
    assert!(page.exhausted);
    assert_eq!(page.task_node_bytes, 90);
    assert_eq!(page.emitted_count, 3);
}

#[test]
fn budget_arithmetic_overflow_is_an_error() {
    let mut page = state("rev");
    page.emitted_count = 1;
    assert_eq!(admit_task_node(&mut page, usize::MAX, 0, usize::MAX), Err(RecallStepError::ByteCountOverflow));
    assert_eq!(page.task_node_bytes, 0);
    let mut page = state("rev");
    page.emitted_count = u64::MAX;
    assert_eq!(admit_task_node(&mut page, 1, 0, 100), Err(RecallStepError::InvalidShape));
}

#[test]
fn offsets_advance_and_phases_run_in_order() {
    let mut cursor = state("rev");
    assert_eq!(advance_continuation_offset(&mut cursor, 5), Ok(()));
    assert_eq!(cursor.offset, 5);
    cursor.offset = u64::MAX;
    assert_eq!(advance_continuation_offset(&mut cursor, 1), Err(RecallStepError::InvalidShape));
    assert_eq!(cursor.offset, u64::MAX);

    let mut phases = vec![cursor.phase];
    let mut complete = false;
    while !complete {
        complete = next_continuation_phase(&mut cursor);
        assert_eq!(cursor.offset, 0);
        if !complete {
            phases.push(cursor.phase);
        }
    }
    assert_eq!(
        phases,
        vec![
            RecallContinuationPhase::TypedRoots,
            RecallContinuationPhase::Fts,
            RecallContinuationPhase::DirectLinks,
            RecallContinuationPhase::Graph,
        ]
    );
}

fn shapes(events: &[aopmem::event::ObservationEvent]) -> Vec<(EventType, EventOutcome, Option<&'static str>, Option<u64>)> {
    events.iter().map(|e| (e.event_type, e.outcome, e.error_code, e.duration_ms)).collect()
}

#[test]
fn mandatory_recall_overflow_records_overflow_then_failed_without_success() {
    let events = recall_bundle_events(7, false, &RecallEnd::MandatoryOverflow { offending_node_count: 3, code: "MANDATORY_CONTEXT_OVERFLOW" })
        .expect("events shape");
    assert_eq!(
        shapes(&events),
        vec![
            (EventType::RecallStarted, EventOutcome::Started, None, None),
            (EventType::RecallMandatoryOverflow, EventOutcome::Overflow, None, Some(7)),
            (EventType::RecallFailed, EventOutcome::Failure, Some("MANDATORY_CONTEXT_OVERFLOW"), Some(7)),
        ]
    );
    match &events[1].payload {
        EventPayload::Counts(items) => {
            assert_eq!(items.len(), 1);
            assert_eq!(items[0].name, "offending_nodes");
            assert_eq!(items[0].count, 3);
        }
        other => panic!("unexpected {other:?}"),
    }
}

#[test]
fn recall_cli_records_ordered_terminal_facts() {
    let response = RecallResponse {
        mandatory_nodes: Vec::new(),
        task_nodes: Vec::new(),
        more_results: true,
        task_budget_exhausted: false,
    };
    let facts = task_recall_observation_facts(&response, true);
    let events = recall_bundle_events(11, true, &RecallEnd::Completed(facts)).expect("payload shapes");
    assert_eq!(
        shapes(&events),
        vec![
            (EventType::RecallStarted, EventOutcome::Started, None, None),
            (EventType::RecallContinuation, EventOutcome::Recorded, None, Some(11)),
            (EventType::RecallEmpty, EventOutcome::Empty, None, Some(11)),
            (EventType::RecallTruncated, EventOutcome::Truncated, None, Some(11)),
            (EventType::RecallCompleted, EventOutcome::Success, None, Some(11)),
        ]
    );
    let failed = recall_bundle_events(2, false, &RecallEnd::Failed { code: "DB_SCHEMA_ERROR" }).expect("shapes");
    assert_eq!(
        shapes(&failed),
        vec![
            (EventType::RecallStarted, EventOutcome::Started, None, None),
            (EventType::RecallFailed, EventOutcome::Failure, Some("DB_SCHEMA_ERROR"), Some(2)),
        ]
    );

    let bad = RecallResponse {
        mandatory_nodes: vec![selected(1, Vec::new())],
        task_nodes: Vec::new(),
        more_results: false,
        task_budget_exhausted: false,
    };
    let facts = task_recall_observation_facts(&bad, false);
    assert_eq!(
        recall_bundle_events(1, false, &RecallEnd::Completed(facts)).err(),
        Some(CollectorInputError::Serialization)
    );
}
