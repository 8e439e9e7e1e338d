use aopmem::bundle::RecallBundleId;
use aopmem::requests::{check_recall_query, feedback_bundle, recall_bundle_choice};

const CANONICAL: &str = "550e8400-e29b-41d4-a716-446655440000";
const OTHER: &str = "6ba7b810-9dad-41d1-80b4-00c04fd430c8";

fn id(text: &str) -> RecallBundleId {
    RecallBundleId::parse(text).expect("canonical bundle id")
}

#[test]
fn blank_recall_query_is_structured_invalid_args_before_workspace_access() {
    let error = check_recall_query(Some("   ")).expect_err("blank query");
    assert_eq!(error.exit_code, aopmem::codes::EXIT_INVALID_ARGS);
    assert_eq!(error.code, "INVALID_ARGS");
    assert!(check_recall_query(Some(" \t\n\u{3000}")).is_err());
    assert_eq!(error.message, "recall query must not be blank");
    assert!(check_recall_query(Some("deploy")).is_ok());
    assert!(check_recall_query(None).is_ok());
}

#[test]
fn new_recall_refuses_a_supplied_bundle_and_continuations_must_match() {
    let error = recall_bundle_choice(None, Some(&id(CANONICAL))).expect_err("new recall takes no bundle");
    assert_eq!(error.message, "--bundle-id is not accepted when starting a new recall bundle");
    assert!(recall_bundle_choice(None, None).expect("fresh bundle").is_none());

    let chosen = recall_bundle_choice(Some(id(CANONICAL)), Some(&id(CANONICAL))).expect("same bundle");
    assert_eq!(chosen.as_ref().map(RecallBundleId::as_str), Some(CANONICAL));
    let chosen = recall_bundle_choice(Some(id(CANONICAL)), None).expect("cursor bundle");
    assert_eq!(chosen.as_ref().map(RecallBundleId::as_str), Some(CANONICAL));
    let error = recall_bundle_choice(Some(id(CANONICAL)), Some(&id(OTHER))).expect_err("mismatch");
    assert_eq!(error.message, "--bundle-id does not match the recall continuation cursor");
}

#[test]
fn feedback_requires_a_bundle() {
    let error = feedback_bundle(None).expect_err("bundle required");
    assert_eq!(error.message, "feedback record requires global --bundle-id");
    assert_eq!(feedback_bundle(Some(&id(OTHER))).expect("bundle given").as_str(), OTHER);
}
