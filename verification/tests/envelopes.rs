use aopmem::artifacts::{ArtifactError, ArtifactErrorKind, CleanupReport};
use aopmem::bundle::RecallBundleId;
use aopmem::envelope::{
    artifact_cleanup_error_envelope, error_envelope, error_envelope_with_meta_and_warnings,
    mandatory_context_overflow_envelope, recall_error_envelope_with_meta_and_warnings, success_envelope,
    success_envelope_with_meta_and_warnings, success_envelope_with_workspace_key, tool_limit_error_envelope,
    OutputMeta, OutputWarning,
};
use aopmem::error::CliError;
use aopmem::observation::OBSERVABILITY_WRITE_FAILED;
use aopmem::observed::AUDIT_SNAPSHOT_PENDING;
use aopmem::plain::artifact_cleanup_error_text;
use aopmem::tools::{tool_limit_error_parts, ToolRunLimitError};
use aopmem::codes::EXIT_GENERIC_ERROR;
use serde_json::Value;

fn parse(text: &str) -> Value {
    serde_json::from_str(text).expect("envelope should parse")
}

fn object(pairs: Vec<(&str, Value)>) -> Value {
    let mut map = serde_json::Map::new();
    for (key, value) in pairs {
        map.insert(key.to_string(), value);
    }
    Value::Object(map)
}

#[test]
fn json_success_envelope_has_contract_shape() {
    let json = success_envelope("status", "{}");
    let envelope = parse(&json);

    assert_eq!(envelope["ok"], true);
    assert_eq!(envelope["command"], "status");
    assert_eq!(envelope["data"], Value::Object(serde_json::Map::new()));
    assert_eq!(envelope["warnings"], Value::Array(Vec::new()));
    assert_eq!(envelope["errors"], Value::Array(Vec::new()));
    assert_eq!(envelope["meta"]["version"], "0.2.0-rc2");
}

#[test]
fn json_error_envelope_has_contract_shape() {
    let error = CliError::not_implemented("node_create");
    let json = error_envelope(aopmem::commands::command_id(aopmem::commands::CommandKind::NodeCreate), &error);
    let envelope = parse(&json);

    assert_eq!(envelope["ok"], false);
    assert_eq!(envelope["command"], "node_create");
    assert_eq!(envelope["data"], Value::Null);
    assert_eq!(envelope["warnings"], Value::Array(Vec::new()));
    assert_eq!(envelope["errors"][0]["code"], "NOT_IMPLEMENTED");
    assert_eq!(envelope["errors"][0]["message"], "command is not implemented yet: node_create");
    assert_eq!(envelope["meta"]["version"], "0.2.0-rc2");
}

#[test]
fn success_envelope_serializes_structured_audit_warning_code() {
    let rendered = success_envelope_with_meta_and_warnings(
        "node_create",
        "{\"id\":7}",
        OutputMeta::default(),
        vec![OutputWarning {
            code: AUDIT_SNAPSHOT_PENDING,
            message: "mutation committed; audit snapshot pending".to_string(),
        }],
    );
    let value = parse(&rendered);

    assert_eq!(value["warnings"][0]["code"], AUDIT_SNAPSHOT_PENDING);
    assert_eq!(value["ok"], true);
}

#[test]
fn observed_warnings_are_top_level_json_in_stable_order() {
    let warnings = vec![
        OutputWarning { code: AUDIT_SNAPSHOT_PENDING, message: "audit warning".to_string() },
        OutputWarning { code: OBSERVABILITY_WRITE_FAILED, message: "observability warning".to_string() },
    ];
    let rendered = success_envelope_with_meta_and_warnings("node_create", "{\"id\":7}", OutputMeta::default(), warnings);
    let value = parse(&rendered);

    assert_eq!(value["warnings"][0]["code"], AUDIT_SNAPSHOT_PENDING);
    assert_eq!(value["warnings"][1]["code"], OBSERVABILITY_WRITE_FAILED);
    assert!(value["data"]["warnings"].is_null());
}

#[test]
fn tool_timeout_json_uses_exact_code_and_typed_bounded_details() {
    let limit_error = ToolRunLimitError::TimedOut {
        timeout_ms: 12_345,
        stdout_limit_bytes: 111,
        stderr_limit_bytes: 222,
        stdout_truncated: true,
        stderr_truncated: false,
    };
    let (error, details) = tool_limit_error_parts(&limit_error).expect("timeout should map to CLI contract");
    let envelope = parse(&tool_limit_error_envelope("tool_run", &error, details));

    assert_eq!(error.exit_code, EXIT_GENERIC_ERROR);
    assert_eq!(envelope["ok"], false);
    assert_eq!(envelope["data"], Value::Null);
    assert_eq!(envelope["errors"][0]["code"], "TOOL_TIMEOUT");
    assert_eq!(envelope["errors"][0]["details"]["timeout_ms"], 12_345);
    assert_eq!(envelope["errors"][0]["details"]["stdout_limit_bytes"], 111);
    assert_eq!(envelope["errors"][0]["details"]["stderr_limit_bytes"], 222);
    assert_eq!(envelope["errors"][0]["details"]["stdout_truncated"], true);
    assert_eq!(envelope["errors"][0]["details"]["stderr_truncated"], false);
    assert!(envelope["errors"][0].get("stdout").is_none());
    assert!(envelope["errors"][0].get("stderr").is_none());
}

#[test]
fn tool_output_overflow_json_uses_exact_code_and_no_raw_output() {
    let limit_error = ToolRunLimitError::OutputOverflow {
        timeout_ms: 30_000,
        stdout_limit_bytes: 65_536,
        stderr_limit_bytes: 4_096,
        stdout_truncated: false,
        stderr_truncated: true,
    };
    let (error, details) = tool_limit_error_parts(&limit_error).expect("overflow should map to CLI contract");
    let serialized = tool_limit_error_envelope("tool_run", &error, details);
    let envelope = parse(&serialized);

    assert_eq!(error.exit_code, EXIT_GENERIC_ERROR);
    assert_eq!(envelope["ok"], false);
    assert_eq!(envelope["data"], Value::Null);
    assert_eq!(envelope["errors"][0]["code"], "TOOL_OUTPUT_OVERFLOW");
    assert_eq!(
        envelope["errors"][0]["details"],
        object(vec![
            ("timeout_ms", Value::from(30_000)),
            ("stdout_limit_bytes", Value::from(65_536)),
            ("stderr_limit_bytes", Value::from(4_096)),
            ("stdout_truncated", Value::Bool(false)),
            ("stderr_truncated", Value::Bool(true)),
        ])
    );
    assert!(!serialized.contains("raw stdout"));
    assert!(!serialized.contains("raw stderr"));
}

#[test]
fn artifact_hard_overflow_json_names_global_ceiling_and_no_publish() {
    let limit_error = ToolRunLimitError::ArtifactHardOverflow {
        timeout_ms: 30_000,
        stdout_limit_bytes: 64,
        stderr_limit_bytes: 128,
        hard_limit_bytes: 10_485_760,
        stdout_truncated: true,
        stderr_truncated: false,
        stdout_hard_limit_exceeded: true,
        stderr_hard_limit_exceeded: false,
    };
    let (error, details) =
        tool_limit_error_parts(&limit_error).expect("artifact hard overflow should map to CLI contract");
    let serialized = tool_limit_error_envelope("tool_run", &error, details);
    let envelope = parse(&serialized);

    assert_eq!(envelope["errors"][0]["code"], "TOOL_OUTPUT_OVERFLOW");
    assert_eq!(
        envelope["errors"][0]["message"],
        "tool artifact output exceeded the global 10485760-byte per-stream capture ceiling"
    );
    assert_eq!(
        envelope["errors"][0]["fix_hint"],
        "reduce tool output below the global ceiling; no artifact was published for this run"
    );
    assert_eq!(
        envelope["errors"][0]["details"],
        object(vec![
            ("timeout_ms", Value::from(30_000)),
            ("stdout_limit_bytes", Value::from(64)),
            ("stderr_limit_bytes", Value::from(128)),
            ("hard_limit_bytes", Value::from(10_485_760)),
            ("stdout_truncated", Value::Bool(true)),
            ("stderr_truncated", Value::Bool(false)),
            ("stdout_hard_limit_exceeded", Value::Bool(true)),
            ("stderr_hard_limit_exceeded", Value::Bool(false)),
        ])
    );
    assert!(!serialized.contains("set output_mode=artifact"));
}

#[test]
fn invalid_limits_are_a_plain_validation_error() {
    let error = tool_limit_error_parts(&ToolRunLimitError::InvalidLimits).expect_err("invalid limits have no details");
    assert_eq!(error.code, "VALIDATION_ERROR");
}

#[test]
fn artifact_cleanup_failures_use_stable_codes_and_deleted_path_details() {
    let report = CleanupReport {
        artifact_root: "/workspace/artifacts".to_string(),
        today_dir: "/workspace/artifacts/2026-07-15".to_string(),
        bytes_before: 10,
        bytes_after: 5,
        deleted_dirs: Vec::new(),
        deleted_files: vec!["/workspace/artifacts/2026-07-15/old.bin".to_string()],
        kept_dirs: vec!["/workspace/artifacts/2026-07-15".to_string()],
        deleted_paths: vec![
            "/workspace/artifacts/2026-07-15/old.bin".to_string(),
            "/workspace/artifacts/2026-07-15/older.bin".to_string(),
        ],
        complete: false,
    };
    let deleted = report.deleted_paths.clone();
    let artifact_error = ArtifactError {
        kind: ArtifactErrorKind::CleanupPartial,
        text: "artifact cleanup stopped at /workspace/artifacts/2026-07-15/next.bin".to_string(),
        report: Some(report),
        deleted_paths: Some(deleted),
    };
    let cli_error = CliError::artifacts(&artifact_error);
    let envelope = parse(&artifact_cleanup_error_envelope("artifacts_cleanup", &cli_error, &artifact_error));

    assert_eq!(cli_error.code, "ARTIFACT_CLEANUP_PARTIAL");
    assert_eq!(
        envelope["errors"][0]["details"]["deleted_paths"],
        Value::Array(vec![
            Value::from("/workspace/artifacts/2026-07-15/old.bin"),
            Value::from("/workspace/artifacts/2026-07-15/older.bin"),
        ])
    );
    assert_eq!(envelope["errors"][0]["details"]["report"]["complete"], false);
    let text = artifact_cleanup_error_text(&cli_error, &artifact_error);
    assert!(text.contains("artifact_root: /workspace/artifacts"));
    assert!(text.contains("bytes_before: 10"));
    assert!(text.contains("bytes_after: 5"));
    assert!(text.contains("complete: false"));
    assert!(text.contains("deleted_files: 1"));
    assert!(text.contains("- /workspace/artifacts/2026-07-15/old.bin"));
    assert!(text.contains("- /workspace/artifacts/2026-07-15/older.bin"));

    let lock_error = ArtifactError {
        kind: ArtifactErrorKind::LockTimeout,
        text: "artifact lock timed out".to_string(),
        report: None,
        deleted_paths: None,
    };
    assert_eq!(CliError::artifacts(&lock_error).code, "ARTIFACT_LOCK_TIMEOUT");

    let unknown = ArtifactError {
        kind: ArtifactErrorKind::CleanupStateUnknown,
        text: "artifact cleanup state unknown".to_string(),
        report: None,
        deleted_paths: Some(vec!["first".to_string(), "second".to_string()]),
    };
    let unknown_text = artifact_cleanup_error_text(&CliError::artifacts(&unknown), &unknown);
    assert!(unknown_text.contains("deleted_paths:\n- first\n- second"));
}

#[test]
fn artifact_cleanup_text_is_exact() {
    let error = ArtifactError {
        kind: ArtifactErrorKind::CleanupStateUnknown,
        text: "state unknown".to_string(),
        report: None,
        deleted_paths: Some(Vec::new()),
    };
    let cli_error = CliError::artifacts(&error);
    assert_eq!(
        artifact_cleanup_error_text(&cli_error, &error),
        "ARTIFACT_CLEANUP_STATE_UNKNOWN: state unknown\ndeleted_paths: []"
    );
    let plain = ArtifactError { kind: ArtifactErrorKind::Io, text: "disk".to_string(), report: None, deleted_paths: None };
    let plain_error = CliError::artifacts(&plain);
    assert_eq!(plain_error.code, "ARTIFACTS_ERROR");
    assert_eq!(artifact_cleanup_error_text(&plain_error, &plain), "ARTIFACTS_ERROR: disk");
    let envelope = parse(&artifact_cleanup_error_envelope("artifacts_cleanup", &plain_error, &plain));
    assert!(envelope["errors"][0].get("details").map_or(true, Value::is_null));
}

#[test]
fn mandatory_overflow_json_has_ids_and_no_partial_success_data() {
    let offending_node_ids = (1_i64..=1_000).collect::<Vec<_>>();
    let hard_limit = 1_048_576;
    let error = CliError::mandatory_context_overflow(hard_limit, offending_node_ids.len());
    let envelope =
        mandatory_context_overflow_envelope("recall", &error, hard_limit, 900_000, offending_node_ids.clone());
    let parsed = parse(&envelope);

    assert_eq!(parsed["ok"], Value::Bool(false));
    assert_eq!(parsed["data"], Value::Null);
    assert_eq!(parsed["errors"][0]["code"], Value::String("MANDATORY_CONTEXT_OVERFLOW".to_string()));
    assert_eq!(
        parsed["errors"][0]["details"]["offending_node_ids"],
        Value::Array(offending_node_ids.iter().map(|id| Value::from(*id)).collect())
    );
    assert!(parsed.get("bundle_id").is_none());
    assert!(!envelope.contains("mandatory context body"));
    assert!(!envelope.contains("\"mandatory\":{\"complete\""));
}

#[test]
fn invalid_utf8_error_envelope_has_required_code_and_hint() {
    let envelope = error_envelope("init", &CliError::invalid_utf8_input());
    let parsed = parse(&envelope);

    assert_eq!(parsed["errors"][0]["code"], "INVALID_UTF8_INPUT");
    assert_eq!(parsed["errors"][0]["fix_hint"], "Set PowerShell UTF-8 encoding before piping answers");
}

#[test]
fn pagination_errors_use_their_stable_code() {
    let envelope = error_envelope("node_list", &CliError::pagination("duplicate or non-progressing node page"));
    let parsed = parse(&envelope);
    assert_eq!(parsed["errors"][0]["code"], "PAGINATION_ERROR");
}

#[test]
fn workspace_key_and_warnings_travel_in_the_envelope() {
    let rendered = success_envelope_with_workspace_key("status", "[1,2]", "ws-1".to_string());
    let value = parse(&rendered);
    assert_eq!(value["meta"]["workspace_key"], "ws-1");
    assert_eq!(value["data"], Value::Array(vec![Value::from(1), Value::from(2)]));

    let error = CliError::invalid_args();
    let rendered = error_envelope_with_meta_and_warnings(
        "recall",
        &error,
        OutputMeta::default(),
        vec![OutputWarning { code: OBSERVABILITY_WRITE_FAILED, message: "w".to_string() }],
    );
    let value = parse(&rendered);
    assert_eq!(value["ok"], false);
    assert_eq!(value["warnings"][0]["code"], OBSERVABILITY_WRITE_FAILED);
    assert_eq!(value["errors"].as_array().map(Vec::len), Some(1));
}

#[test]
fn recall_error_envelope_names_the_bundle() {
    let bundle = RecallBundleId::parse("550e8400-e29b-41d4-a716-446655440000").expect("canonical id");
    let error = CliError::stale_recall_cursor();
    let rendered = recall_error_envelope_with_meta_and_warnings("recall", &error, &bundle, OutputMeta::default(), Vec::new());
    let value = parse(&rendered);
    assert_eq!(value["errors"][0]["code"], "STALE_RECALL_CURSOR");
    assert_eq!(value["errors"][0]["details"]["bundle_id"], "550e8400-e29b-41d4-a716-446655440000");
}

#[test]
fn special_characters_in_messages_are_escaped() {
    let error = CliError::not_implemented("quote\"and\\slash\nline");
    let value = parse(&error_envelope("ui", &error));
    assert_eq!(value["errors"][0]["message"], "command is not implemented yet: quote\"and\\slash\nline");
}

#[test]
fn strings_are_escaped_as_serde_json_escapes_them() {
    let error = CliError::not_implemented("a\u{1}b\u{b}\t\"\\/é");
    let rendered = error_envelope("ui", &error);
    assert!(rendered.contains("\"message\":\"command is not implemented yet: a\\u0001b\\u000b\\t\\\"\\\\/é\""));
}
