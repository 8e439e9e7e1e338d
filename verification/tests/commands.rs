use aopmem::commands::{command_id, remember_to_new_node, CommandKind, RememberArgs};
use aopmem::failures::{
    mutation_infrastructure_error, workspace_read_open_error, MutationError, OpenWorkspaceReadOnlyError,
    WorkspaceReadOpenError,
};
use aopmem::error::CliError;

fn args(note: Option<&str>) -> RememberArgs<f64> {
    RememberArgs {
        note: note.map(str::to_string),
        node_type: None,
        status: None,
        title: None,
        summary: None,
        body: None,
        source_ref: None,
        confidence: None,
        trust_level: None,
    }
}

#[test]
fn remember_keeps_raw_note_type_without_hidden_classification() {
    let remember = remember_to_new_node(&args(Some("workflow for deploy hotfix")), "title is missing")
        .expect("remember note should map to node");

    assert_eq!(remember.node_type, "raw_note");
    assert_eq!(remember.status, "draft");
    assert_eq!(remember.title, "workflow for deploy hotfix");
    assert!(remember.body.is_none());
}

#[test]
fn remember_uses_note_as_body_when_titled() {
    let mut a = args(Some("the body"));
    a.title = Some("Release checklist".to_string());
    a.node_type = Some("workflow".to_string());
    a.confidence = Some(0.95);
    let node = remember_to_new_node(&a, "title is missing").expect("titled note maps");
    assert_eq!(node.title, "Release checklist");
    assert_eq!(node.body.as_deref(), Some("the body"));
    assert_eq!(node.node_type, "workflow");
    assert_eq!(node.confidence, Some(0.95));
}

#[test]
fn remember_refuses_note_with_body_and_missing_title() {
    let mut a = args(Some("note"));
    a.body = Some("body".to_string());
    let error = remember_to_new_node(&a, "title is missing").err().expect("conflict");
    assert_eq!(error.code, "INVALID_ARGS");
    assert_eq!(error.message, "remember note text cannot be combined with --body");

    let error = remember_to_new_node(&args(None), "title is missing").err().expect("no title");
    assert_eq!(error.code, "VALIDATION_ERROR");
    assert_eq!(error.message, "title is missing");
    assert_eq!(error.exit_code, 5);
}

#[test]
fn command_ids_are_stable() {
    assert_eq!(command_id(CommandKind::NodeCreate), "node_create");
    assert_eq!(command_id(CommandKind::ReflectProposalApply), "reflect_proposal_apply");
    assert_eq!(command_id(CommandKind::ArtifactsCleanup), "artifacts_cleanup");
    assert_eq!(command_id(CommandKind::Ui), "ui");
    assert_eq!(command_id(CommandKind::ObserveExport), "observe_export");
}

#[test]
fn workspace_open_failures_report_their_error() {
    let missing = WorkspaceReadOpenError::Missing(CliError::workspace_db_missing("/x/db.sqlite"));
    assert_eq!(missing.into_cli_error().code, "WORKSPACE_NOT_FOUND");
    let existing = WorkspaceReadOpenError::Existing(CliError::invalid_utf8_input());
    assert_eq!(existing.into_cli_error().code, "INVALID_UTF8_INPUT");
}

#[test]
fn mutation_infrastructure_failures_map_to_io_and_db_errors() {
    let io: MutationError<()> = MutationError::Io(std::io::Error::other("disk"));
    let error = mutation_infrastructure_error(io);
    assert_eq!(error.code, "IO_ERROR");
    assert_eq!(error.message, "disk");
    let rollback: MutationError<()> = MutationError::Rollback { source: rusqlite::Error::InvalidQuery };
    assert_eq!(mutation_infrastructure_error(rollback).code, "DB_SCHEMA_ERROR");
}

#[test]
fn json_payload_errors_carry_the_parser_text() {
    let parse_error = serde_json::from_str::<serde_json::Value>("{").unwrap_err();
    let detail = parse_error.to_string();
    let error = CliError::teach_payload_json(parse_error);
    assert_eq!(error.code, "INVALID_ARGS");
    assert_eq!(error.message, format!("invalid teach payload json: {detail}"));
}

#[test]
fn database_errors_carry_the_database_text() {
    let error = CliError::db_schema(rusqlite::Error::InvalidQuery);
    assert_eq!(error.message, rusqlite::Error::InvalidQuery.to_string());
    assert_eq!(error.fix_hint, "check that the workspace database can be opened and migrated");
}

#[test]
fn read_only_open_failures_separate_missing_from_existing() {
    match workspace_read_open_error(OpenWorkspaceReadOnlyError::Missing("/w/aopmem.sqlite".to_string())) {
        WorkspaceReadOpenError::Missing(error) => {
            assert_eq!(error.code, "WORKSPACE_NOT_FOUND");
            assert_eq!(error.message, "workspace database not found: /w/aopmem.sqlite");
            assert_eq!(error.exit_code, 3);
        }
        other => panic!("unexpected {other:?}"),
    }
    match workspace_read_open_error(OpenWorkspaceReadOnlyError::Db(rusqlite::Error::InvalidQuery)) {
        WorkspaceReadOpenError::Existing(error) => assert_eq!(error.code, "DB_SCHEMA_ERROR"),
        other => panic!("unexpected {other:?}"),
    }
}
