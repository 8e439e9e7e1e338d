//! The structured error catalogue of the command line interface: every failure
//! a command reports has an exit status, a stable code, a message and a fix hint.
use vstd::prelude::*;
use vstd::string::*;
use crate::codes::{
    EXIT_GENERIC_ERROR, EXIT_INVALID_ARGS, EXIT_WORKSPACE_NOT_FOUND, EXIT_DB_SCHEMA_ERROR,
    EXIT_VALIDATION_FAILED, EXIT_UNSAFE_ACTION_BLOCKED, EXIT_NOT_IMPLEMENTED,
    EXIT_DRIFT_DETECTED, EXIT_IO_ERROR,
};
use crate::text::{decimal_digits, signed_decimal, decimal_text, signed_decimal_text};
use crate::outside::{db_error_text, json_error_text, io_error_text};
use crate::bundle::RecallBundleId;
use crate::artifacts::{ArtifactError, ArtifactErrorKind};

verus! {

/// A failure as the command line reports it.
#[derive(Debug)]
pub struct CliError {
    pub exit_code: u8,
    pub code: &'static str,
    pub message: String,
    pub fix_hint: String,
}

/// The text of a string slice as an owned string.
pub fn text(s: &str) -> (r: String)
    ensures
        r@ == s@,
{
    s.to_owned()
}

/// `a` followed by `b`.
pub fn joined(a: &str, b: &str) -> (r: String)
    ensures
        r@ == a@ + b@,
{
    let mut r = a.to_owned();
    r.append(b);
    r
}

/// Local Observability read failures.
#[derive(Debug, Clone, Copy, PartialEq, Eq, Structural)]
pub enum ObserveReadError {
    UnsafePath,
    InvalidStore,
    ReadFailed,
    ClockFailed,
}

/// Debug capsule export failures.
#[derive(Debug, Clone, Copy, PartialEq, Eq, Structural)]
pub enum ExportError {
    InvalidOutput,
    OutputExists,
    UnsafeOutput,
    WorkspaceMissing,
    WorkspaceUnsafe,
    WorkspaceInvalid,
    Observability(ObserveReadError),
    TemporaryFile,
    RandomFailed,
    Serialization,
    Zip,
    Sync,
    Publish,
}

/// Workspace resolution failures, with their displayed text.
#[derive(Debug, Clone)]
pub enum WorkspaceResolveError {
    /// Two workspace roots claim the same repository.
    Ambiguous(String),
    /// Any other resolution failure.
    Other(String),
}

/// Node storage failures.
#[derive(Debug)]
pub enum NodeStorageError {
    /// Rejected node input, with its displayed text.
    Validation(String),
    Db(rusqlite::Error),
}

/// Link storage failures.
#[derive(Debug)]
pub enum LinkStorageError {
    /// Rejected link input, with its displayed text.
    Validation(String),
    Db(rusqlite::Error),
}

/// Node metadata storage failures.
#[derive(Debug)]
pub enum MetadataStorageError {
    /// Rejected metadata input, with its displayed text.
    Validation(String),
    Db(rusqlite::Error),
}

/// Audit event failures.
#[derive(Debug)]
pub enum AuditError {
    /// Rejected audit event, with its displayed text.
    Validation(String),
    Db(rusqlite::Error),
}

/// Teach session storage failures.
#[derive(Debug)]
pub enum TeachStorageError {
    /// Rejected teach input, with its displayed text.
    Validation(String),
    Node(NodeStorageError),
    Link(LinkStorageError),
    Metadata(MetadataStorageError),
    Db(rusqlite::Error),
    Json(serde_json::Error),
}

/// Reflection failures.  Variants whose message is the error's own display
/// text carry that text.
#[derive(Debug)]
pub enum ReflectionError {
    EmptySessionId(String),
    ApplyAttemptRequiresTransaction(String),
    InventoryNodeDisappeared(i64),
    Validation(String),
    ProposalNotFound(i64),
    InvalidProposalRecord(i64),
    DuplicateNodeRef(String),
    Node(NodeStorageError),
    Link(LinkStorageError),
    Metadata(MetadataStorageError),
    Audit(AuditError),
    Db(rusqlite::Error),
    Json(serde_json::Error),
}

impl CliError {
    /// The error has exactly these fields.
    pub open spec fn has(self, exit_code: u8, code: Seq<char>, message: Seq<char>, fix_hint: Seq<char>) -> bool {
        &&& self.exit_code == exit_code
        &&& self.code@ == code
        &&& self.message@ == message
        &&& self.fix_hint@ == fix_hint
    }

    fn make(exit_code: u8, code: &'static str, message: String, fix_hint: &str) -> (e: Self)
        ensures
            e.exit_code == exit_code,
            e.code == code,
            e.message == message,
            e.fix_hint@ == fix_hint@,
    {
        CliError { exit_code, code, message, fix_hint: text(fix_hint) }
    }

    /// `INVALID_ARGS`: invalid command line arguments.
    pub fn invalid_args() -> (e: Self)
        ensures
            e.has(EXIT_INVALID_ARGS, "INVALID_ARGS"@, "invalid command line arguments"@, "run `aopmem --help` to see supported commands"@),
    {
        Self::make(EXIT_INVALID_ARGS, "INVALID_ARGS", text("invalid command line arguments"), "run `aopmem --help` to see supported commands")
    }

    /// `INVALID_ARGS`: recall query must not be blank.
    pub fn invalid_recall_query() -> (e: Self)
        ensures
            e.has(EXIT_INVALID_ARGS, "INVALID_ARGS"@, "recall query must not be blank"@, "provide a non-empty task description after `--query`"@),
    {
        Self::make(EXIT_INVALID_ARGS, "INVALID_ARGS", text("recall query must not be blank"), "provide a non-empty task description after `--query`")
    }

    /// `INVALID_ARGS`: --bundle-id does not match the recall continuation cursor.
    pub fn recall_bundle_mismatch() -> (e: Self)
        ensures
            e.has(EXIT_INVALID_ARGS, "INVALID_ARGS"@, "--bundle-id does not match the recall continuation cursor"@, "pass the exact bundle_id returned by the recall page, or omit --bundle-id"@),
    {
        Self::make(EXIT_INVALID_ARGS, "INVALID_ARGS", text("--bundle-id does not match the recall continuation cursor"), "pass the exact bundle_id returned by the recall page, or omit --bundle-id")
    }

    /// `INVALID_ARGS`: --bundle-id is not accepted when starting a new recall bundle.
    pub fn recall_bundle_on_new_recall() -> (e: Self)
        ensures
            e.has(EXIT_INVALID_ARGS, "INVALID_ARGS"@, "--bundle-id is not accepted when starting a new recall bundle"@, "omit --bundle-id; the first recall command creates and returns bundle_id"@),
    {
        Self::make(EXIT_INVALID_ARGS, "INVALID_ARGS", text("--bundle-id is not accepted when starting a new recall bundle"), "omit --bundle-id; the first recall command creates and returns bundle_id")
    }

    /// `INVALID_ARGS`: feedback record requires global --bundle-id.
    pub fn feedback_bundle_required() -> (e: Self)
        ensures
            e.has(EXIT_INVALID_ARGS, "INVALID_ARGS"@, "feedback record requires global --bundle-id"@, "pass the bundle_id returned by the recall used for this work"@),
    {
        Self::make(EXIT_INVALID_ARGS, "INVALID_ARGS", text("feedback record requires global --bundle-id"), "pass the bundle_id returned by the recall used for this work")
    }

    /// `OBSERVABILITY_WRITE_FAILED`: local observability feedback write failed.
    pub fn feedback_store_unavailable() -> (e: Self)
        ensures
            e.has(EXIT_GENERIC_ERROR, "OBSERVABILITY_WRITE_FAILED"@, "local observability feedback write failed"@, "check the workspace observability store and retry feedback record"@),
    {
        Self::make(EXIT_GENERIC_ERROR, "OBSERVABILITY_WRITE_FAILED", text("local observability feedback write failed"), "check the workspace observability store and retry feedback record")
    }

    /// `STALE_RECALL_CURSOR`: operational memory changed after this recall bundle started.
    pub fn stale_recall_cursor() -> (e: Self)
        ensures
            e.has(EXIT_GENERIC_ERROR, "STALE_RECALL_CURSOR"@, "operational memory changed after this recall bundle started"@, "restart recall with the same `--query` and no continuation cursor"@),
    {
        Self::make(EXIT_GENERIC_ERROR, "STALE_RECALL_CURSOR", text("operational memory changed after this recall bundle started"), "restart recall with the same `--query` and no continuation cursor")
    }

    /// `RECALL_BUDGET_EXHAUSTED`: this recall bundle already exhausted its cumulative task budget.
    pub fn recall_budget_exhausted() -> (e: Self)
        ensures
            e.has(EXIT_GENERIC_ERROR, "RECALL_BUDGET_EXHAUSTED"@, "this recall bundle already exhausted its cumulative task budget"@, "stop continuation and use the bounded context already returned"@),
    {
        Self::make(EXIT_GENERIC_ERROR, "RECALL_BUDGET_EXHAUSTED", text("this recall bundle already exhausted its cumulative task budget"), "stop continuation and use the bounded context already returned")
    }

    /// `INVALID_UTF8_INPUT`: stdin contains invalid UTF-8 input.
    pub fn invalid_utf8_input() -> (e: Self)
        ensures
            e.has(EXIT_VALIDATION_FAILED, "INVALID_UTF8_INPUT"@, "stdin contains invalid UTF-8 input"@, "Set PowerShell UTF-8 encoding before piping answers"@),
    {
        Self::make(EXIT_VALIDATION_FAILED, "INVALID_UTF8_INPUT", text("stdin contains invalid UTF-8 input"), "Set PowerShell UTF-8 encoding before piping answers")
    }

    /// `SUSPICIOUS_MOJIBAKE_INPUT`: semantic answer looks like mojibake input.
    pub fn suspicious_mojibake_input() -> (e: Self)
        ensures
            e.has(EXIT_VALIDATION_FAILED, "SUSPICIOUS_MOJIBAKE_INPUT"@, "semantic answer looks like mojibake input"@, "Set PowerShell UTF-8 encoding before piping answers"@),
    {
        Self::make(EXIT_VALIDATION_FAILED, "SUSPICIOUS_MOJIBAKE_INPUT", text("semantic answer looks like mojibake input"), "Set PowerShell UTF-8 encoding before piping answers")
    }

    /// `MANAGED_BLOCK_ERROR`: managed block markers are damaged or duplicated.
    pub fn managed_block() -> (e: Self)
        ensures
            e.has(EXIT_GENERIC_ERROR, "MANAGED_BLOCK_ERROR"@, "managed block markers are damaged or duplicated"@, "repair the instruction file so it has one complete managed block or no block at all"@),
    {
        Self::make(EXIT_GENERIC_ERROR, "MANAGED_BLOCK_ERROR", text("managed block markers are damaged or duplicated"), "repair the instruction file so it has one complete managed block or no block at all")
    }

    /// `DRIFT_DETECTED`: managed block markers are damaged or duplicated.
    pub fn managed_block_drift() -> (e: Self)
        ensures
            e.has(EXIT_DRIFT_DETECTED, "DRIFT_DETECTED"@, "managed block markers are damaged or duplicated"@, "repair the instruction file so it has one complete managed block or no block at all"@),
    {
        Self::make(EXIT_DRIFT_DETECTED, "DRIFT_DETECTED", text("managed block markers are damaged or duplicated"), "repair the instruction file so it has one complete managed block or no block at all")
    }

    /// `VALIDATION_ERROR`: tool runtime limits are outside the global hard ceilings.
    pub fn tool_run_limits_invalid() -> (e: Self)
        ensures
            e.has(EXIT_VALIDATION_FAILED, "VALIDATION_ERROR"@, "tool runtime limits are outside the global hard ceilings"@, "validate the persisted tool.json runtime limits before running the tool"@),
    {
        Self::make(EXIT_VALIDATION_FAILED, "VALIDATION_ERROR", text("tool runtime limits are outside the global hard ceilings"), "validate the persisted tool.json runtime limits before running the tool")
    }

    /// `TOOL_OUTPUT_OVERFLOW`: tool output exceeded its inline capture limit.
    pub fn tool_output_overflow() -> (e: Self)
        ensures
            e.has(EXIT_GENERIC_ERROR, "TOOL_OUTPUT_OVERFLOW"@, "tool output exceeded its inline capture limit"@, "reduce inline output or set output_mode=artifact in the tool contract"@),
    {
        Self::make(EXIT_GENERIC_ERROR, "TOOL_OUTPUT_OVERFLOW", text("tool output exceeded its inline capture limit"), "reduce inline output or set output_mode=artifact in the tool contract")
    }

    /// `INVALID_ARGS`: remember note text cannot be combined with --body.
    pub fn remember_note_conflict() -> (e: Self)
        ensures
            e.has(EXIT_INVALID_ARGS, "INVALID_ARGS"@, "remember note text cannot be combined with --body"@, "pass note text as the positional argument or use --body, but not both"@),
    {
        Self::make(EXIT_INVALID_ARGS, "INVALID_ARGS", text("remember note text cannot be combined with --body"), "pass note text as the positional argument or use --body, but not both")
    }

    /// `INVALID_ARGS`: `invalid feedback: <error_text>`.
    pub fn feedback_input(error_text: &str) -> (e: Self)
        ensures
            e.has(EXIT_INVALID_ARGS, "INVALID_ARGS"@, "invalid feedback: "@ + error_text@, "use useful|partial|wrong and an optional non-blank reason up to 1024 bytes"@),
    {
        Self::make(EXIT_INVALID_ARGS, "INVALID_ARGS", joined("invalid feedback: ", error_text), "use useful|partial|wrong and an optional non-blank reason up to 1024 bytes")
    }

    /// `INVALID_CURSOR`: `invalid recall continuation cursor: <error_text>`.
    pub fn invalid_recall_cursor(error_text: &str) -> (e: Self)
        ensures
            e.has(EXIT_INVALID_ARGS, "INVALID_CURSOR"@, "invalid recall continuation cursor: "@ + error_text@, "restart recall with the same `--query` and no continuation cursor"@),
    {
        Self::make(EXIT_INVALID_ARGS, "INVALID_CURSOR", joined("invalid recall continuation cursor: ", error_text), "restart recall with the same `--query` and no continuation cursor")
    }

    /// `INVALID_CURSOR`: `invalid list cursor: <reason>`.
    pub fn invalid_cursor(reason: &str) -> (e: Self)
        ensures
            e.has(EXIT_INVALID_ARGS, "INVALID_CURSOR"@, "invalid list cursor: "@ + reason@, "use the opaque `next_cursor` returned by the previous page of the same list and filter scope"@),
    {
        Self::make(EXIT_INVALID_ARGS, "INVALID_CURSOR", joined("invalid list cursor: ", reason), "use the opaque `next_cursor` returned by the previous page of the same list and filter scope")
    }

    /// `NOT_IMPLEMENTED`: `command is not implemented yet: <command>`.
    pub fn not_implemented(command: &str) -> (e: Self)
        ensures
            e.has(EXIT_NOT_IMPLEMENTED, "NOT_IMPLEMENTED"@, "command is not implemented yet: "@ + command@, "wait for a later AOPMem stage to implement this command"@),
    {
        Self::make(EXIT_NOT_IMPLEMENTED, "NOT_IMPLEMENTED", joined("command is not implemented yet: ", command), "wait for a later AOPMem stage to implement this command")
    }

    /// `NOT_FOUND`: `tool not found: <id>`.
    pub fn tool_not_found(id: &str) -> (e: Self)
        ensures
            e.has(EXIT_GENERIC_ERROR, "NOT_FOUND"@, "tool not found: "@ + id@, "run `aopmem tool create-draft --id <tool-id> --name <name>` first"@),
    {
        Self::make(EXIT_GENERIC_ERROR, "NOT_FOUND", joined("tool not found: ", id), "run `aopmem tool create-draft --id <tool-id> --name <name>` first")
    }

    /// `VALIDATION_ERROR`: `tool executable path does not exist: <path>`.
    pub fn tool_executable_missing(path: &str) -> (e: Self)
        ensures
            e.has(EXIT_VALIDATION_FAILED, "VALIDATION_ERROR"@, "tool executable path does not exist: "@ + path@, "create the referenced executable file before running validate"@),
    {
        Self::make(EXIT_VALIDATION_FAILED, "VALIDATION_ERROR", joined("tool executable path does not exist: ", path), "create the referenced executable file before running validate")
    }

    /// `NOT_FOUND`: `mcp profile not found: <id>`.
    pub fn mcp_profile_not_found(id: &str) -> (e: Self)
        ensures
            e.has(EXIT_GENERIC_ERROR, "NOT_FOUND"@, "mcp profile not found: "@ + id@, "run `aopmem mcp list --json` to see existing MCP profiles"@),
    {
        Self::make(EXIT_GENERIC_ERROR, "NOT_FOUND", joined("mcp profile not found: ", id), "run `aopmem mcp list --json` to see existing MCP profiles")
    }

    /// `DRIFT_DETECTED`: `tool contract drift detected between SQLite and tool.json: <tool_id>`.
    pub fn tool_contract_drift(tool_id: &str) -> (e: Self)
        ensures
            e.has(EXIT_DRIFT_DETECTED, "DRIFT_DETECTED"@, "tool contract drift detected between SQLite and tool.json: "@ + tool_id@, "sync the local tool.json export back to the canonical SQLite tool contract"@),
    {
        Self::make(EXIT_DRIFT_DETECTED, "DRIFT_DETECTED", joined("tool contract drift detected between SQLite and tool.json: ", tool_id), "sync the local tool.json export back to the canonical SQLite tool contract")
    }

    /// `WORKSPACE_NOT_FOUND`: `workspace database not found: <path>`.
    pub fn workspace_db_missing(path: &str) -> (e: Self)
        ensures
            e.has(EXIT_WORKSPACE_NOT_FOUND, "WORKSPACE_NOT_FOUND"@, "workspace database not found: "@ + path@, "run `aopmem init` first for this repository"@),
    {
        Self::make(EXIT_WORKSPACE_NOT_FOUND, "WORKSPACE_NOT_FOUND", joined("workspace database not found: ", path), "run `aopmem init` first for this repository")
    }

    /// `UI_SERVER_FAILED` carrying the displayed text of a `ui::UiError`.
    pub fn ui(error_text: &str) -> (e: Self)
        ensures
            e.has(EXIT_IO_ERROR, "UI_SERVER_FAILED"@, error_text@, "check the local workspace and loopback port, then retry `aopmem ui`"@),
    {
        Self::make(EXIT_IO_ERROR, "UI_SERVER_FAILED", text(error_text), "check the local workspace and loopback port, then retry `aopmem ui`")
    }

    /// `UPGRADE_PLAN_FAILED` carrying the displayed text of an upgrade plan error.
    pub fn upgrade_plan(error_text: &str) -> (e: Self)
        ensures
            e.has(EXIT_IO_ERROR, "UPGRADE_PLAN_FAILED"@, error_text@, "preserve all files, fix the reported local path or disk error, then rerun `aopmem upgrade plan --all-workspaces --json`"@),
    {
        Self::make(EXIT_IO_ERROR, "UPGRADE_PLAN_FAILED", text(error_text), "preserve all files, fix the reported local path or disk error, then rerun `aopmem upgrade plan --all-workspaces --json`")
    }

    /// `UPGRADE_APPLY_FAILED` carrying the displayed text of an upgrade apply error.
    pub fn upgrade_apply(error_text: &str) -> (e: Self)
        ensures
            e.has(EXIT_IO_ERROR, "UPGRADE_APPLY_FAILED"@, error_text@, "preserve all backups and rerun `aopmem upgrade plan --all-workspaces --json` after fixing the reported local error"@),
    {
        Self::make(EXIT_IO_ERROR, "UPGRADE_APPLY_FAILED", text(error_text), "preserve all backups and rerun `aopmem upgrade plan --all-workspaces --json` after fixing the reported local error")
    }

    /// `PAGINATION_ERROR` carrying the displayed text of a pagination failure.
    pub fn pagination(error_text: &str) -> (e: Self)
        ensures
            e.has(EXIT_GENERIC_ERROR, "PAGINATION_ERROR"@, error_text@, "retry the node list from the first page; run doctor if the error repeats"@),
    {
        Self::make(EXIT_GENERIC_ERROR, "PAGINATION_ERROR", text(error_text), "retry the node list from the first page; run doctor if the error repeats")
    }

    /// `INVALID_ARGS` carrying the displayed text of oversized tool run arguments.
    pub fn tool_run_args_too_large(error_text: &str) -> (e: Self)
        ensures
            e.has(EXIT_INVALID_ARGS, "INVALID_ARGS"@, error_text@, "reduce `aopmem tool run` arguments before retrying"@),
    {
        Self::make(EXIT_INVALID_ARGS, "INVALID_ARGS", text(error_text), "reduce `aopmem tool run` arguments before retrying")
    }

    /// `RECALL_CONTRACT_ERROR` carrying the displayed text of a mandatory context build error.
    pub fn recall_contract(error_text: &str) -> (e: Self)
        ensures
            e.has(EXIT_GENERIC_ERROR, "RECALL_CONTRACT_ERROR"@, error_text@, "run doctor and repair invalid mandatory memory records before retrying recall"@),
    {
        Self::make(EXIT_GENERIC_ERROR, "RECALL_CONTRACT_ERROR", text(error_text), "run doctor and repair invalid mandatory memory records before retrying recall")
    }

    /// `RECALL_CONTRACT_ERROR` carrying the displayed text of a recall model error.
    pub fn recall_model(error_text: &str) -> (e: Self)
        ensures
            e.has(EXIT_GENERIC_ERROR, "RECALL_CONTRACT_ERROR"@, error_text@, "retry recall; run doctor if deterministic JSON accounting keeps failing"@),
    {
        Self::make(EXIT_GENERIC_ERROR, "RECALL_CONTRACT_ERROR", text(error_text), "retry recall; run doctor if deterministic JSON accounting keeps failing")
    }

    /// `VALIDATION_ERROR` carrying the displayed text of a node validation error.
    pub fn validation(error_text: &str) -> (e: Self)
        ensures
            e.has(EXIT_VALIDATION_FAILED, "VALIDATION_ERROR"@, error_text@, "provide allowed node fields from the AOPMem storage spec"@),
    {
        Self::make(EXIT_VALIDATION_FAILED, "VALIDATION_ERROR", text(error_text), "provide allowed node fields from the AOPMem storage spec")
    }

    /// `VALIDATION_ERROR` carrying the displayed text of a link validation error.
    pub fn link_validation(error_text: &str) -> (e: Self)
        ensures
            e.has(EXIT_VALIDATION_FAILED, "VALIDATION_ERROR"@, error_text@, "provide existing source and target node ids and a non-empty link type"@),
    {
        Self::make(EXIT_VALIDATION_FAILED, "VALIDATION_ERROR", text(error_text), "provide existing source and target node ids and a non-empty link type")
    }

    /// `VALIDATION_ERROR` carrying the displayed text of a metadata validation error.
    pub fn metadata_validation(error_text: &str) -> (e: Self)
        ensures
            e.has(EXIT_VALIDATION_FAILED, "VALIDATION_ERROR"@, error_text@, "provide an existing node id and a non-empty metadata value"@),
    {
        Self::make(EXIT_VALIDATION_FAILED, "VALIDATION_ERROR", text(error_text), "provide an existing node id and a non-empty metadata value")
    }

    /// `VALIDATION_ERROR` carrying the displayed text of an MCP profile validation error.
    pub fn mcp_profile_validation(error_text: &str) -> (e: Self)
        ensures
            e.has(EXIT_VALIDATION_FAILED, "VALIDATION_ERROR"@, error_text@, "provide all required MCP profile fields from the MCP registry spec"@),
    {
        Self::make(EXIT_VALIDATION_FAILED, "VALIDATION_ERROR", text(error_text), "provide all required MCP profile fields from the MCP registry spec")
    }

    /// `VALIDATION_ERROR` carrying the displayed text of a tool contract validation error.
    pub fn tool_validation(error_text: &str) -> (e: Self)
        ensures
            e.has(EXIT_VALIDATION_FAILED, "VALIDATION_ERROR"@, error_text@, "provide tool id/name and a valid draft tool contract shape"@),
    {
        Self::make(EXIT_VALIDATION_FAILED, "VALIDATION_ERROR", text(error_text), "provide tool id/name and a valid draft tool contract shape")
    }

    /// `PATH_ERROR` carrying the displayed text of a home path resolution error.
    pub fn path(error_text: &str) -> (e: Self)
        ensures
            e.has(EXIT_IO_ERROR, "PATH_ERROR"@, error_text@, "set AOPMEM_HOME, or USERPROFILE on Windows, or HOME elsewhere"@),
    {
        Self::make(EXIT_IO_ERROR, "PATH_ERROR", text(error_text), "set AOPMEM_HOME, or USERPROFILE on Windows, or HOME elsewhere")
    }

    /// `WORKSPACE_KEY_ERROR` carrying the displayed text of a workspace key error.
    pub fn workspace_key(error_text: &str) -> (e: Self)
        ensures
            e.has(EXIT_WORKSPACE_NOT_FOUND, "WORKSPACE_KEY_ERROR"@, error_text@, "run aopmem from an absolute workspace path"@),
    {
        Self::make(EXIT_WORKSPACE_NOT_FOUND, "WORKSPACE_KEY_ERROR", text(error_text), "run aopmem from an absolute workspace path")
    }

    /// `DB_SCHEMA_ERROR` with the display text of a `rusqlite::Error` as its message.
    pub fn db_schema(error: rusqlite::Error) -> (e: Self)
        ensures
            e.exit_code == EXIT_DB_SCHEMA_ERROR,
            e.code@ == "DB_SCHEMA_ERROR"@,
            e.fix_hint@ == "check that the workspace database can be opened and migrated"@,
    {
        Self::make(EXIT_DB_SCHEMA_ERROR, "DB_SCHEMA_ERROR", db_error_text(&error), "check that the workspace database can be opened and migrated")
    }

    /// `TOOL_JSON_ERROR` with the display text of a `serde_json::Error` as its message.
    pub fn tool_contract_json(error: serde_json::Error) -> (e: Self)
        ensures
            e.exit_code == EXIT_GENERIC_ERROR,
            e.code@ == "TOOL_JSON_ERROR"@,
            e.fix_hint@ == "check the generated tool contract JSON fields"@,
    {
        Self::make(EXIT_GENERIC_ERROR, "TOOL_JSON_ERROR", json_error_text(&error), "check the generated tool contract JSON fields")
    }

    /// `IO_ERROR` with the display text of a `std::io::Error` as its message.
    pub fn io(error: std::io::Error) -> (e: Self)
        ensures
            e.exit_code == EXIT_IO_ERROR,
            e.code@ == "IO_ERROR"@,
            e.fix_hint@ == "check filesystem permissions for AOPMEM_HOME"@,
    {
        Self::make(EXIT_IO_ERROR, "IO_ERROR", io_error_text(&error), "check filesystem permissions for AOPMEM_HOME")
    }

    /// `IO_ERROR` for input data that is not what it must be: the error of an
    /// `InvalidData` I/O failure carrying `message`, which is what it displays.
    pub fn invalid_data(message: &str) -> (e: Self)
        ensures
            e.has(EXIT_IO_ERROR, "IO_ERROR"@, message@, "check filesystem permissions for AOPMEM_HOME"@),
    {
        Self::make(EXIT_IO_ERROR, "IO_ERROR", text(message), "check filesystem permissions for AOPMEM_HOME")
    }

    /// `INVALID_ARGS`: `invalid teach payload json: ` followed by the display text of a `serde_json::Error`.
    pub fn teach_payload_json(error: serde_json::Error) -> (e: Self)
        ensures
            e.exit_code == EXIT_INVALID_ARGS,
            e.code@ == "INVALID_ARGS"@,
            e.message@.len() >= "invalid teach payload json: "@.len(),
            e.message@.subrange(0, "invalid teach payload json: "@.len() as int) == "invalid teach payload json: "@,
            e.fix_hint@ == "pass deterministic JSON in `--payload`, for example {\"items\":[...]}"@,
    {
        let detail = json_error_text(&error);
        Self::make(EXIT_INVALID_ARGS, "INVALID_ARGS", joined("invalid teach payload json: ", detail.as_str()), "pass deterministic JSON in `--payload`, for example {\"items\":[...]}")
    }

    /// `INVALID_ARGS`: `invalid reflection proposal json: ` followed by the display text of a `serde_json::Error`.
    pub fn reflection_proposal_json(error: serde_json::Error) -> (e: Self)
        ensures
            e.exit_code == EXIT_INVALID_ARGS,
            e.code@ == "INVALID_ARGS"@,
            e.message@.len() >= "invalid reflection proposal json: "@.len(),
            e.message@.subrange(0, "invalid reflection proposal json: "@.len() as int) == "invalid reflection proposal json: "@,
            e.fix_hint@ == "pass a JSON file with {\"items\":[...]} and explicit low/high risk values"@,
    {
        let detail = json_error_text(&error);
        Self::make(EXIT_INVALID_ARGS, "INVALID_ARGS", joined("invalid reflection proposal json: ", detail.as_str()), "pass a JSON file with {\"items\":[...]} and explicit low/high risk values")
    }

    /// `NOT_FOUND` for a recall bundle unknown to this workspace's observability store.
    pub fn feedback_bundle_not_found(bundle_id: &RecallBundleId) -> (e: Self)
        ensures
            e.has(EXIT_GENERIC_ERROR, "NOT_FOUND"@,
                "recall bundle not found in this workspace observability store: "@ + bundle_id@,
                "use a bundle_id returned by a successful recall in this workspace"@),
    {
        Self::make(EXIT_GENERIC_ERROR, "NOT_FOUND",
            joined("recall bundle not found in this workspace observability store: ", bundle_id.as_str()),
            "use a bundle_id returned by a successful recall in this workspace")
    }

    /// The error for a Local Observability read failure.
    pub fn observability_read(error: ObserveReadError) -> (e: Self)
        ensures
            match error {
                ObserveReadError::UnsafePath => e.has(EXIT_IO_ERROR, "OBSERVABILITY_UNSAFE_PATH"@,
                    "Local Observability path is unsafe"@,
                    "remove managed-path links or reparse points, then run doctor"@),
                ObserveReadError::InvalidStore => e.has(EXIT_DB_SCHEMA_ERROR, "OBSERVABILITY_INVALID_STORE"@,
                    "Local Observability store is invalid or incompatible"@,
                    "preserve the store, keep a backup, and run doctor for diagnosis"@),
                ObserveReadError::ReadFailed => e.has(EXIT_DB_SCHEMA_ERROR, "OBSERVABILITY_READ_FAILED"@,
                    "Local Observability store could not be read"@,
                    "check local file access and retry the read-only command"@),
                ObserveReadError::ClockFailed => e.has(EXIT_GENERIC_ERROR, "OBSERVABILITY_READ_FAILED"@,
                    "Local Observability report clock failed"@,
                    "retry the read-only report command"@),
            },
    {
        match error {
            ObserveReadError::UnsafePath => Self::make(EXIT_IO_ERROR, "OBSERVABILITY_UNSAFE_PATH",
                text("Local Observability path is unsafe"),
                "remove managed-path links or reparse points, then run doctor"),
            ObserveReadError::InvalidStore => Self::make(EXIT_DB_SCHEMA_ERROR, "OBSERVABILITY_INVALID_STORE",
                text("Local Observability store is invalid or incompatible"),
                "preserve the store, keep a backup, and run doctor for diagnosis"),
            ObserveReadError::ReadFailed => Self::make(EXIT_DB_SCHEMA_ERROR, "OBSERVABILITY_READ_FAILED",
                text("Local Observability store could not be read"),
                "check local file access and retry the read-only command"),
            ObserveReadError::ClockFailed => Self::make(EXIT_GENERIC_ERROR, "OBSERVABILITY_READ_FAILED",
                text("Local Observability report clock failed"),
                "retry the read-only report command"),
        }
    }

    /// The error for a debug capsule export failure.
    pub fn debug_capsule(error: ExportError) -> (e: Self)
        ensures
            match error {
                ExportError::InvalidOutput => e.has(EXIT_INVALID_ARGS, "INVALID_ARGS"@,
                    "debug capsule output must name a file"@,
                    "pass `--output <existing-parent>/<new-file>.zip`"@),
                ExportError::OutputExists => e.has(EXIT_IO_ERROR, "OUTPUT_EXISTS"@,
                    "debug capsule output already exists"@,
                    "choose a new output path; export never overwrites files"@),
                ExportError::UnsafeOutput => e.has(EXIT_IO_ERROR, "EXPORT_UNSAFE_PATH"@,
                    "debug capsule output path is unsafe"@,
                    "use a new file under an existing real directory without links"@),
                ExportError::WorkspaceMissing => e.has(EXIT_WORKSPACE_NOT_FOUND, "WORKSPACE_NOT_FOUND"@,
                    "workspace database is required for debug capsule export"@,
                    "run `aopmem init` before exporting this workspace"@),
                ExportError::WorkspaceUnsafe => e.has(EXIT_IO_ERROR, "WORKSPACE_UNSAFE_PATH"@,
                    "workspace database path is unsafe"@,
                    "remove managed-path links or reparse points, then run doctor"@),
                ExportError::WorkspaceInvalid => e.has(EXIT_DB_SCHEMA_ERROR, "DB_SCHEMA_ERROR"@,
                    "workspace database is invalid or incompatible"@,
                    "preserve the database, keep a backup, and run doctor"@),
                ExportError::Observability(inner) => {
                    let o = Self::observability_read_spec(inner);
                    e.has(o.0, o.1, o.2, o.3)
                },
                _ => e.has(EXIT_IO_ERROR, "EXPORT_FAILED"@,
                    "debug capsule export failed before publication"@,
                    "check free space and output permissions, then retry with a new path"@),
            },
    {
        match error {
            ExportError::InvalidOutput => Self::make(EXIT_INVALID_ARGS, "INVALID_ARGS",
                text("debug capsule output must name a file"),
                "pass `--output <existing-parent>/<new-file>.zip`"),
            ExportError::OutputExists => Self::make(EXIT_IO_ERROR, "OUTPUT_EXISTS",
                text("debug capsule output already exists"),
                "choose a new output path; export never overwrites files"),
            ExportError::UnsafeOutput => Self::make(EXIT_IO_ERROR, "EXPORT_UNSAFE_PATH",
                text("debug capsule output path is unsafe"),
                "use a new file under an existing real directory without links"),
            ExportError::WorkspaceMissing => Self::make(EXIT_WORKSPACE_NOT_FOUND, "WORKSPACE_NOT_FOUND",
                text("workspace database is required for debug capsule export"),
                "run `aopmem init` before exporting this workspace"),
            ExportError::WorkspaceUnsafe => Self::make(EXIT_IO_ERROR, "WORKSPACE_UNSAFE_PATH",
                text("workspace database path is unsafe"),
                "remove managed-path links or reparse points, then run doctor"),
            ExportError::WorkspaceInvalid => Self::make(EXIT_DB_SCHEMA_ERROR, "DB_SCHEMA_ERROR",
                text("workspace database is invalid or incompatible"),
                "preserve the database, keep a backup, and run doctor"),
            ExportError::Observability(inner) => Self::observability_read(inner),
            ExportError::TemporaryFile
            | ExportError::RandomFailed
            | ExportError::Serialization
            | ExportError::Zip
            | ExportError::Sync
            | ExportError::Publish => Self::make(EXIT_IO_ERROR, "EXPORT_FAILED",
                text("debug capsule export failed before publication"),
                "check free space and output permissions, then retry with a new path"),
        }
    }

    /// The fields `observability_read` gives for `error`.
    pub open spec fn observability_read_spec(error: ObserveReadError) -> (u8, Seq<char>, Seq<char>, Seq<char>) {
        match error {
            ObserveReadError::UnsafePath => (EXIT_IO_ERROR, "OBSERVABILITY_UNSAFE_PATH"@,
                "Local Observability path is unsafe"@,
                "remove managed-path links or reparse points, then run doctor"@),
            ObserveReadError::InvalidStore => (EXIT_DB_SCHEMA_ERROR, "OBSERVABILITY_INVALID_STORE"@,
                "Local Observability store is invalid or incompatible"@,
                "preserve the store, keep a backup, and run doctor for diagnosis"@),
            ObserveReadError::ReadFailed => (EXIT_DB_SCHEMA_ERROR, "OBSERVABILITY_READ_FAILED"@,
                "Local Observability store could not be read"@,
                "check local file access and retry the read-only command"@),
            ObserveReadError::ClockFailed => (EXIT_GENERIC_ERROR, "OBSERVABILITY_READ_FAILED"@,
                "Local Observability report clock failed"@,
                "retry the read-only report command"@),
        }
    }

    /// `INVALID_ARGS`: `<input> exceeds <max_bytes> bytes`.
    pub fn input_too_large(input: &str, max_bytes: usize) -> (e: Self)
        ensures
            e.has(EXIT_INVALID_ARGS, "INVALID_ARGS"@,
                input@ + " exceeds "@ + decimal_digits(max_bytes as nat) + " bytes"@,
                "reduce "@ + input@ + " to at most "@ + decimal_digits(max_bytes as nat) + " bytes"@),
    {
        let digits = decimal_text(max_bytes as u128);
        let mut message = text(input);
        message.append(" exceeds ");
        message.append(digits.as_str());
        message.append(" bytes");
        let mut hint = text("reduce ");
        hint.append(input);
        hint.append(" to at most ");
        hint.append(digits.as_str());
        hint.append(" bytes");
        CliError { exit_code: EXIT_INVALID_ARGS, code: "INVALID_ARGS", message, fix_hint: hint }
    }

    /// `MANDATORY_CONTEXT_OVERFLOW` naming the hard limit and the number of nodes that do not fit.
    pub fn mandatory_context_overflow(hard_limit_bytes: usize, offending_count: usize) -> (e: Self)
        ensures
            e.has(EXIT_GENERIC_ERROR, "MANDATORY_CONTEXT_OVERFLOW"@,
                "mandatory recall context exceeds "@ + decimal_digits(hard_limit_bytes as nat)
                    + " canonical JSON UTF-8 bytes; "@ + decimal_digits(offending_count as nat)
                    + " node(s) do not fit"@,
                "reduce or supersede mandatory memory nodes before retrying recall"@),
    {
        let mut message = text("mandatory recall context exceeds ");
        message.append(decimal_text(hard_limit_bytes as u128).as_str());
        message.append(" canonical JSON UTF-8 bytes; ");
        message.append(decimal_text(offending_count as u128).as_str());
        message.append(" node(s) do not fit");
        Self::make(EXIT_GENERIC_ERROR, "MANDATORY_CONTEXT_OVERFLOW", message,
            "reduce or supersede mandatory memory nodes before retrying recall")
    }

    /// `UNSAFE_ACTION_BLOCKED` naming the tool and its declared risk.
    pub fn unsafe_tool_run_blocked(tool_id: &str, side_effects: &str, approval_requirement: &str) -> (e: Self)
        ensures
            e.has(EXIT_UNSAFE_ACTION_BLOCKED, "UNSAFE_ACTION_BLOCKED"@,
                "tool run blocked without approval: tool_id="@ + tool_id@ + ", side_effects="@
                    + side_effects@ + ", approval_requirement="@ + approval_requirement@,
                "rerun with `--approved '+++'` for approved external or high-risk tool actions"@),
    {
        let mut message = text("tool run blocked without approval: tool_id=");
        message.append(tool_id);
        message.append(", side_effects=");
        message.append(side_effects);
        message.append(", approval_requirement=");
        message.append(approval_requirement);
        Self::make(EXIT_UNSAFE_ACTION_BLOCKED, "UNSAFE_ACTION_BLOCKED", message,
            "rerun with `--approved '+++'` for approved external or high-risk tool actions")
    }

    /// `NOT_FOUND` for a node id.
    pub fn node_not_found(id: i64) -> (e: Self)
        ensures
            e.has(EXIT_GENERIC_ERROR, "NOT_FOUND"@, "node not found: "@ + signed_decimal(id as int),
                "run `aopmem node list --json` to see existing nodes"@),
    {
        Self::make(EXIT_GENERIC_ERROR, "NOT_FOUND",
            joined("node not found: ", signed_decimal_text(id as i128).as_str()),
            "run `aopmem node list --json` to see existing nodes")
    }

    /// `TOOL_PROCESS_FAILED` with the tool's exit status.
    pub fn tool_process_failed(exit_code: i32) -> (e: Self)
        ensures
            e.has(EXIT_GENERIC_ERROR, "TOOL_PROCESS_FAILED"@,
                "tool process exited with non-zero status: "@ + signed_decimal(exit_code as int),
                "check the generated tool stderr/stdout and executable behavior"@),
    {
        Self::make(EXIT_GENERIC_ERROR, "TOOL_PROCESS_FAILED",
            joined("tool process exited with non-zero status: ", signed_decimal_text(exit_code as i128).as_str()),
            "check the generated tool stderr/stdout and executable behavior")
    }

    /// `TOOL_TIMEOUT` with the timeout in milliseconds.
    pub fn tool_timeout(timeout_ms: u128) -> (e: Self)
        ensures
            e.has(EXIT_GENERIC_ERROR, "TOOL_TIMEOUT"@,
                "tool run timed out after "@ + decimal_digits(timeout_ms as nat) + " ms"@,
                "adjust the validated tool timeout or make the tool finish sooner"@),
    {
        let mut message = text("tool run timed out after ");
        message.append(decimal_text(timeout_ms).as_str());
        message.append(" ms");
        Self::make(EXIT_GENERIC_ERROR, "TOOL_TIMEOUT", message,
            "adjust the validated tool timeout or make the tool finish sooner")
    }

    /// `TOOL_OUTPUT_OVERFLOW` for artifact output past the global per-stream ceiling.
    pub fn tool_artifact_hard_overflow(hard_limit_bytes: usize) -> (e: Self)
        ensures
            e.has(EXIT_GENERIC_ERROR, "TOOL_OUTPUT_OVERFLOW"@,
                "tool artifact output exceeded the global "@ + decimal_digits(hard_limit_bytes as nat)
                    + "-byte per-stream capture ceiling"@,
                "reduce tool output below the global ceiling; no artifact was published for this run"@),
    {
        let mut message = text("tool artifact output exceeded the global ");
        message.append(decimal_text(hard_limit_bytes as u128).as_str());
        message.append("-byte per-stream capture ceiling");
        Self::make(EXIT_GENERIC_ERROR, "TOOL_OUTPUT_OVERFLOW", message,
            "reduce tool output below the global ceiling; no artifact was published for this run")
    }

    /// The error for a workspace resolution failure; ambiguous roots get their own hint.
    pub fn workspace_resolve(error: WorkspaceResolveError) -> (e: Self)
        ensures
            match error {
                WorkspaceResolveError::Ambiguous(t) => e.has(EXIT_WORKSPACE_NOT_FOUND,
                    "WORKSPACE_RESOLVE_ERROR"@, t@,
                    "preserve both workspace roots and run `aopmem upgrade plan --all-workspaces --json` before choosing one"@),
                WorkspaceResolveError::Other(t) => e.has(EXIT_WORKSPACE_NOT_FOUND,
                    "WORKSPACE_RESOLVE_ERROR"@, t@,
                    "check AOPMEM_HOME permissions and run aopmem from the repository root"@),
            },
    {
        match error {
            WorkspaceResolveError::Ambiguous(t) => Self::make(EXIT_WORKSPACE_NOT_FOUND,
                "WORKSPACE_RESOLVE_ERROR", t,
                "preserve both workspace roots and run `aopmem upgrade plan --all-workspaces --json` before choosing one"),
            WorkspaceResolveError::Other(t) => Self::make(EXIT_WORKSPACE_NOT_FOUND,
                "WORKSPACE_RESOLVE_ERROR", t,
                "check AOPMEM_HOME permissions and run aopmem from the repository root"),
        }
    }

    /// The error for an artifact failure: its kind decides exit status, code and hint.
    pub fn artifacts(error: &ArtifactError) -> (e: Self)
        ensures
            e.message@ == error.text@,
            match error.kind {
                ArtifactErrorKind::LockTimeout => e.exit_code == EXIT_IO_ERROR
                    && e.code@ == "ARTIFACT_LOCK_TIMEOUT"@
                    && e.fix_hint@ == "wait for active tool artifact capture to finish, then retry"@,
                ArtifactErrorKind::CleanupPartial => e.exit_code == EXIT_IO_ERROR
                    && e.code@ == "ARTIFACT_CLEANUP_PARTIAL"@
                    && e.fix_hint@ == "inspect deleted_paths and fix the reported filesystem entry before retrying"@,
                ArtifactErrorKind::CleanupStateUnknown => e.exit_code == EXIT_IO_ERROR
                    && e.code@ == "ARTIFACT_CLEANUP_STATE_UNKNOWN"@
                    && e.fix_hint@ == "inspect deleted_paths and the artifact tree before retrying cleanup"@,
                ArtifactErrorKind::RetentionLimitNotMet => e.exit_code == EXIT_GENERIC_ERROR
                    && e.code@ == "ARTIFACT_RETENTION_NOT_MET"@
                    && e.fix_hint@ == "inspect the cleanup report and the workspace artifacts directory"@,
                _ => e.exit_code == EXIT_GENERIC_ERROR
                    && e.code@ == "ARTIFACTS_ERROR"@
                    && e.fix_hint@ == "check artifact day folders under the workspace artifacts directory"@,
            },
    {
        let (exit_code, code, fix_hint) = match error.kind {
            ArtifactErrorKind::LockTimeout => (EXIT_IO_ERROR, "ARTIFACT_LOCK_TIMEOUT",
                "wait for active tool artifact capture to finish, then retry"),
            ArtifactErrorKind::CleanupPartial => (EXIT_IO_ERROR, "ARTIFACT_CLEANUP_PARTIAL",
                "inspect deleted_paths and fix the reported filesystem entry before retrying"),
            ArtifactErrorKind::CleanupStateUnknown => (EXIT_IO_ERROR, "ARTIFACT_CLEANUP_STATE_UNKNOWN",
                "inspect deleted_paths and the artifact tree before retrying cleanup"),
            ArtifactErrorKind::RetentionLimitNotMet => (EXIT_GENERIC_ERROR, "ARTIFACT_RETENTION_NOT_MET",
                "inspect the cleanup report and the workspace artifacts directory"),
            ArtifactErrorKind::Io | ArtifactErrorKind::Db | ArtifactErrorKind::InvalidDay => (
                EXIT_GENERIC_ERROR, "ARTIFACTS_ERROR",
                "check artifact day folders under the workspace artifacts directory"),
        };
        Self::make(exit_code, code, error.text.clone(), fix_hint)
    }


    /// The fields of a database failure, whose message is the database error's text.
    pub open spec fn is_db_schema(self) -> bool {
        &&& self.exit_code == EXIT_DB_SCHEMA_ERROR
        &&& self.code@ == "DB_SCHEMA_ERROR"@
        &&& self.fix_hint@ == "check that the workspace database can be opened and migrated"@
    }

    /// The fields of a JSON failure in a teach payload.
    pub open spec fn is_teach_payload_json(self) -> bool {
        &&& self.exit_code == EXIT_INVALID_ARGS
        &&& self.code@ == "INVALID_ARGS"@
        &&& self.message@.len() >= "invalid teach payload json: "@.len()
        &&& self.message@.subrange(0, "invalid teach payload json: "@.len() as int) == "invalid teach payload json: "@
        &&& self.fix_hint@ == "pass deterministic JSON in `--payload`, for example {\"items\":[...]}"@
    }

    /// The fields of a node validation failure with displayed text `t`.
    pub open spec fn is_node_validation(self, t: Seq<char>) -> bool {
        self.has(EXIT_VALIDATION_FAILED, "VALIDATION_ERROR"@, t,
            "provide allowed node fields from the AOPMem storage spec"@)
    }

    /// The fields of a link validation failure with displayed text `t`.
    pub open spec fn is_link_validation(self, t: Seq<char>) -> bool {
        self.has(EXIT_VALIDATION_FAILED, "VALIDATION_ERROR"@, t,
            "provide existing source and target node ids and a non-empty link type"@)
    }

    /// The fields of a metadata validation failure with displayed text `t`.
    pub open spec fn is_metadata_validation(self, t: Seq<char>) -> bool {
        self.has(EXIT_VALIDATION_FAILED, "VALIDATION_ERROR"@, t,
            "provide an existing node id and a non-empty metadata value"@)
    }

    /// The error for a teach storage failure.
    pub fn teach(error: TeachStorageError) -> (e: Self)
        ensures
            match error {
                TeachStorageError::Validation(t) => e.has(EXIT_VALIDATION_FAILED, "VALIDATION_ERROR"@, t@,
                    "provide a valid teach session id and deterministic structured payload"@),
                TeachStorageError::Node(NodeStorageError::Validation(t)) => e.is_node_validation(t@),
                TeachStorageError::Link(LinkStorageError::Validation(t)) => e.is_link_validation(t@),
                TeachStorageError::Metadata(MetadataStorageError::Validation(t)) => e.is_metadata_validation(t@),
                TeachStorageError::Json(_) => e.is_teach_payload_json(),
                _ => e.is_db_schema(),
            },
    {
        match error {
            TeachStorageError::Validation(t) => Self::make(EXIT_VALIDATION_FAILED, "VALIDATION_ERROR", t,
                "provide a valid teach session id and deterministic structured payload"),
            TeachStorageError::Node(NodeStorageError::Validation(t)) => Self::validation(t.as_str()),
            TeachStorageError::Node(NodeStorageError::Db(db))
            | TeachStorageError::Link(LinkStorageError::Db(db))
            | TeachStorageError::Metadata(MetadataStorageError::Db(db))
            | TeachStorageError::Db(db) => Self::db_schema(db),
            TeachStorageError::Link(LinkStorageError::Validation(t)) => Self::link_validation(t.as_str()),
            TeachStorageError::Metadata(MetadataStorageError::Validation(t)) => Self::metadata_validation(t.as_str()),
            TeachStorageError::Json(json) => Self::teach_payload_json(json),
        }
    }

    /// The error for a reflection failure.
    pub fn reflection(error: ReflectionError) -> (e: Self)
        ensures
            match error {
                ReflectionError::EmptySessionId(t) => e.has(EXIT_VALIDATION_FAILED, "VALIDATION_ERROR"@, t@,
                    "store only non-empty reflection session ids in AOPMem reflection records"@),
                ReflectionError::ApplyAttemptRequiresTransaction(t) => e.has(EXIT_DB_SCHEMA_ERROR, "DB_SCHEMA_ERROR"@, t@,
                    "run reflection apply through the coordinated workspace mutation path"@),
                ReflectionError::InventoryNodeDisappeared(node_id) => e.has(EXIT_DB_SCHEMA_ERROR, "DB_SCHEMA_ERROR"@,
                    "current reflection inventory node disappeared during update: "@ + signed_decimal(node_id as int),
                    "run doctor and verify before retrying reflection inventory"@),
                ReflectionError::Validation(t) => e.has(EXIT_VALIDATION_FAILED, "VALIDATION_ERROR"@, t@,
                    "pass a valid reflection proposal JSON file with supported low/high risk item types"@),
                ReflectionError::ProposalNotFound(id) => e.has(EXIT_GENERIC_ERROR, "NOT_FOUND"@,
                    "reflection proposal not found: "@ + signed_decimal(id as int),
                    "run `aopmem node list --json` and use a proposal raw_note id with summary `reflection_proposal_v1`"@),
                ReflectionError::InvalidProposalRecord(id) => e.has(EXIT_DB_SCHEMA_ERROR, "DB_SCHEMA_ERROR"@,
                    "invalid reflection proposal record: "@ + signed_decimal(id as int),
                    "repair the stored reflection proposal raw_note body before applying it"@),
                ReflectionError::DuplicateNodeRef(r) => e.has(EXIT_VALIDATION_FAILED, "VALIDATION_ERROR"@,
                    "reflection proposal has duplicate node_ref: "@ + r@,
                    "use each proposal-local node_ref only once inside one reflection proposal"@),
                ReflectionError::Node(NodeStorageError::Validation(t)) => e.is_node_validation(t@),
                ReflectionError::Link(LinkStorageError::Validation(t)) => e.is_link_validation(t@),
                ReflectionError::Metadata(MetadataStorageError::Validation(t)) => e.is_metadata_validation(t@),
                ReflectionError::Audit(AuditError::Validation(t)) => e.has(EXIT_DB_SCHEMA_ERROR, "DB_SCHEMA_ERROR"@,
                    "invalid reflection event: "@ + t@,
                    "run doctor and verify before retrying reflection"@),
                ReflectionError::Json(_) => e.exit_code == EXIT_DB_SCHEMA_ERROR
                    && e.code@ == "DB_SCHEMA_ERROR"@
                    && e.message@.len() >= "invalid stored reflection record json: "@.len()
                    && e.message@.subrange(0, "invalid stored reflection record json: "@.len() as int)
                        == "invalid stored reflection record json: "@
                    && e.fix_hint@ == "repair malformed reflection raw_note records in the workspace database"@,
                _ => e.is_db_schema(),
            },
    {
        match error {
            ReflectionError::EmptySessionId(t) => Self::make(EXIT_VALIDATION_FAILED, "VALIDATION_ERROR", t,
                "store only non-empty reflection session ids in AOPMem reflection records"),
            ReflectionError::ApplyAttemptRequiresTransaction(t) => Self::make(EXIT_DB_SCHEMA_ERROR, "DB_SCHEMA_ERROR", t,
                "run reflection apply through the coordinated workspace mutation path"),
            ReflectionError::InventoryNodeDisappeared(node_id) => Self::make(EXIT_DB_SCHEMA_ERROR, "DB_SCHEMA_ERROR",
                joined("current reflection inventory node disappeared during update: ",
                    signed_decimal_text(node_id as i128).as_str()),
                "run doctor and verify before retrying reflection inventory"),
            ReflectionError::Validation(t) => Self::make(EXIT_VALIDATION_FAILED, "VALIDATION_ERROR", t,
                "pass a valid reflection proposal JSON file with supported low/high risk item types"),
            ReflectionError::ProposalNotFound(id) => Self::make(EXIT_GENERIC_ERROR, "NOT_FOUND",
                joined("reflection proposal not found: ", signed_decimal_text(id as i128).as_str()),
                "run `aopmem node list --json` and use a proposal raw_note id with summary `reflection_proposal_v1`"),
            ReflectionError::InvalidProposalRecord(id) => Self::make(EXIT_DB_SCHEMA_ERROR, "DB_SCHEMA_ERROR",
                joined("invalid reflection proposal record: ", signed_decimal_text(id as i128).as_str()),
                "repair the stored reflection proposal raw_note body before applying it"),
            ReflectionError::DuplicateNodeRef(r) => Self::make(EXIT_VALIDATION_FAILED, "VALIDATION_ERROR",
                joined("reflection proposal has duplicate node_ref: ", r.as_str()),
                "use each proposal-local node_ref only once inside one reflection proposal"),
            ReflectionError::Node(NodeStorageError::Validation(t)) => Self::validation(t.as_str()),
            ReflectionError::Link(LinkStorageError::Validation(t)) => Self::link_validation(t.as_str()),
            ReflectionError::Metadata(MetadataStorageError::Validation(t)) => Self::metadata_validation(t.as_str()),
            ReflectionError::Audit(AuditError::Validation(t)) => Self::make(EXIT_DB_SCHEMA_ERROR, "DB_SCHEMA_ERROR",
                joined("invalid reflection event: ", t.as_str()),
                "run doctor and verify before retrying reflection"),
            ReflectionError::Node(NodeStorageError::Db(db))
            | ReflectionError::Link(LinkStorageError::Db(db))
            | ReflectionError::Metadata(MetadataStorageError::Db(db))
            | ReflectionError::Audit(AuditError::Db(db))
            | ReflectionError::Db(db) => Self::db_schema(db),
            ReflectionError::Json(json) => {
                let detail = json_error_text(&json);
                Self::make(EXIT_DB_SCHEMA_ERROR, "DB_SCHEMA_ERROR",
                    joined("invalid stored reflection record json: ", detail.as_str()),
                    "repair malformed reflection raw_note records in the workspace database")
            },
        }
    }
} // impl CliError

} // verus!
