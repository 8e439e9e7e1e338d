use aopmem::bundle::RecallBundleId;
use aopmem::envelope::OutputWarning;
use aopmem::event::{CollectorInputError, command_observation_event, EventOutcome, EventPayload, EventType, ObservationEvent};
use aopmem::observation::{CommandObservation, FeedbackWriteError, OBSERVABILITY_WRITE_FAILED};
use aopmem::observed::AUDIT_SNAPSHOT_PENDING;

const CANONICAL: &str = "550e8400-e29b-41d4-a716-446655440000";
const OTHER: &str = "6ba7b810-9dad-41d1-80b4-00c04fd430c8";

fn empty_event(event_type: EventType) -> ObservationEvent {
    command_observation_event(event_type, EventOutcome::Success, EventPayload::Empty, None)
}

fn attached(command_id: &'static str, bundle: Option<RecallBundleId>) -> CommandObservation {
    let mut observation = CommandObservation::new(command_id, bundle);
    assert!(observation.attach_workspace());
    observation.collector_opened(Some("corr-1".to_string()));
    observation
}

#[test]
fn command_observation_reuses_one_collector_and_correlation_id() {
    let mut observation = CommandObservation::new("node_create", None);
    assert!(observation.attach_workspace());
    observation.collector_opened(Some("corr-1".to_string()));
    let first = observation.correlation_id().map(str::to_string);
    assert_eq!(first.as_deref(), Some("corr-1"));
    assert!(!observation.attach_workspace());
    assert_eq!(observation.correlation_id(), Some("corr-1"));

    let mut writes = Vec::new();
    for event_type in [EventType::NodeCreated, EventType::NodeUpdated] {
        writes.extend(observation.record_terminal(empty_event(event_type)));
    }
    assert!(observation.warnings_after(Vec::new()).is_empty());
    let frozen = observation.terminal_duration_ms.expect("terminal duration should freeze before collector I/O");
    assert_eq!(writes.len(), 2);
    assert!(writes.iter().all(|event| event.duration_ms == Some(frozen)));
    assert_eq!(writes[0].event_type, EventType::NodeCreated);
    assert_eq!(writes[1].event_type, EventType::NodeUpdated);
}

#[test]
fn command_observation_latches_one_warning_after_core_warning() {
    let mut observation = CommandObservation::new("node_create", None);
    assert!(observation.attach_workspace());
    observation.collector_opened(None);

    assert!(observation.record(empty_event(EventType::NodeCreated)).is_none());
    assert!(observation.record(empty_event(EventType::NodeCreated)).is_none());
    observation.latch_write_warning();
    let warnings = observation.warnings_after(vec![OutputWarning {
        code: AUDIT_SNAPSHOT_PENDING,
        message: "mutation committed; audit snapshot pending".to_string(),
    }]);

    assert_eq!(warnings.len(), 2);
    assert_eq!(warnings[0].code, AUDIT_SNAPSHOT_PENDING);
    assert_eq!(warnings[1].code, OBSERVABILITY_WRITE_FAILED);
    assert_eq!(warnings[1].message, "local observability write failed; core command result is unchanged");
}

#[test]
fn first_latched_warning_stays() {
    let mut observation = CommandObservation::new("status", None);
    observation.latch_warning(OutputWarning { code: "FIRST", message: "one".to_string() });
    observation.latch_warning(OutputWarning { code: "SECOND", message: "two".to_string() });
    observation.latch_write_warning();
    let warnings = observation.warnings_after(Vec::new());
    assert_eq!(warnings.len(), 1);
    assert_eq!(warnings[0].code, "FIRST");
    assert_eq!(warnings[0].message, "one");
}

#[test]
fn without_collector_nothing_is_written() {
    let mut observation = CommandObservation::new("status", None);
    assert!(observation.record(empty_event(EventType::Doctor)).is_none());
    assert!(observation.record_terminal(empty_event(EventType::Doctor)).is_none());
    assert!(observation.terminal_duration_ms.is_some());
    assert_eq!(observation.record_feedback(5u8), Err(FeedbackWriteError::StoreUnavailable));
    assert!(observation.correlation_id().is_none());
}

#[test]
fn terminal_duration_is_frozen_once() {
    let mut observation = CommandObservation::new("status", None);
    let first = observation.freeze_terminal_duration_ms();
    let second = observation.freeze_terminal_duration_ms();
    assert_eq!(first, second);
    assert_eq!(observation.terminal_duration_ms, Some(first));
}

#[test]
fn recorded_events_carry_the_bound_bundle() {
    let bundle = RecallBundleId::parse(CANONICAL).expect("canonical bundle id");
    let mut observation = attached("recall", Some(bundle));
    let written = observation.record(empty_event(EventType::RecallStarted)).expect("collector attached");
    assert_eq!(written.bundle_id.as_deref(), Some(CANONICAL));
    assert!(written.duration_ms.is_none());
    assert_eq!(observation.record_feedback("input"), Ok("input"));
}

#[test]
fn binding_a_different_bundle_is_refused_and_keeps_the_first() {
    let first = RecallBundleId::parse(CANONICAL).expect("canonical bundle id");
    let other = RecallBundleId::parse(OTHER).expect("canonical bundle id");
    let mut observation = CommandObservation::new("recall", None);
    assert!(observation.bind_recall_bundle(&first).is_ok());
    assert!(observation.bind_recall_bundle(&first).is_ok());
    let error = observation.bind_recall_bundle(&other).expect_err("a second bundle must be refused");
    assert_eq!(error.code, "INVALID_ARGS");
    assert_eq!(error.message, "--bundle-id does not match the recall continuation cursor");
    assert_eq!(observation.bundle_id.as_ref().map(RecallBundleId::as_str), Some(CANONICAL));
}

#[test]
fn invalid_recall_bundle_record_latches_write_warning() {
    let mut observation = attached("recall", None);
    let written = observation.record_recall_bundle::<u8>(Err(CollectorInputError::Serialization), Vec::new());
    assert!(written.is_none());
    assert_eq!(observation.warnings_after(Vec::new())[0].code, OBSERVABILITY_WRITE_FAILED);

    let mut observation = attached("recall", None);
    let events = vec![Ok(empty_event(EventType::RecallStarted)), Ok(empty_event(EventType::RecallCompleted))];
    let (record, written) = observation.record_recall_bundle(Ok(3u8), events).expect("collector attached");
    assert_eq!(record, 3);
    assert_eq!(written.len(), 2);
    assert_eq!(written[1].event_type, EventType::RecallCompleted);
    assert!(observation.warnings_after(Vec::new()).is_empty());
}

#[test]
fn invalid_recall_bundle_event_writes_nothing_and_latches_write_warning() {
    let mut observation = attached("recall", None);
    let events = vec![Ok(empty_event(EventType::RecallStarted)), Err(CollectorInputError::Serialization)];
    assert!(observation.record_recall_bundle(Ok(3u8), events).is_none());
    let warnings = observation.warnings_after(Vec::new());
    assert_eq!(warnings.len(), 1);
    assert_eq!(warnings[0].code, OBSERVABILITY_WRITE_FAILED);

    let mut detached = CommandObservation::new("recall", None);
    assert!(detached.record_recall_bundle(Ok(3u8), vec![Ok(empty_event(EventType::RecallStarted))]).is_none());
    assert!(detached.warnings_after(Vec::new()).is_empty());
}
