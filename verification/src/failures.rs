//! Failures reported by the workspace services a command calls, and the
//! command line errors they become.
use vstd::prelude::*;
use crate::codes::{EXIT_INVALID_ARGS, EXIT_VALIDATION_FAILED, EXIT_IO_ERROR, EXIT_WORKSPACE_NOT_FOUND, EXIT_GENERIC_ERROR, EXIT_DRIFT_DETECTED};
use crate::error::{CliError, NodeStorageError, WorkspaceResolveError};
use crate::text::decimal_digits;

verus! {

/// Workspace initialisation failures.
#[derive(Debug)]
pub enum WorkspaceInitError {
    /// Home path resolution failed, with its displayed text.
    Path(String),
    /// The workspace key could not be derived, with its displayed text.
    WorkspaceKey(String),
    WorkspaceResolve(WorkspaceResolveError),
    InvalidUtf8Input,
    SuspiciousMojibakeInput,
    InputTooLarge { max_bytes: usize },
    Io(std::io::Error),
    Db(rusqlite::Error),
    Seed(NodeStorageError),
}

/// The command line error for a failed `init`.
pub fn workspace_init_cli_error(error: WorkspaceInitError) -> (e: CliError)
    ensures
        match error {
            WorkspaceInitError::Path(t) => e.has(EXIT_IO_ERROR, "PATH_ERROR"@, t@,
                "set AOPMEM_HOME, or USERPROFILE on Windows, or HOME elsewhere"@),
            WorkspaceInitError::WorkspaceKey(t) => e.has(EXIT_WORKSPACE_NOT_FOUND, "WORKSPACE_KEY_ERROR"@, t@,
                "run aopmem from an absolute workspace path"@),
            WorkspaceInitError::WorkspaceResolve(WorkspaceResolveError::Ambiguous(t)) => e.has(
                EXIT_WORKSPACE_NOT_FOUND, "WORKSPACE_RESOLVE_ERROR"@, t@,
                "preserve both workspace roots and run `aopmem upgrade plan --all-workspaces --json` before choosing one"@),
            WorkspaceInitError::WorkspaceResolve(WorkspaceResolveError::Other(t)) => e.has(
                EXIT_WORKSPACE_NOT_FOUND, "WORKSPACE_RESOLVE_ERROR"@, t@,
                "check AOPMEM_HOME permissions and run aopmem from the repository root"@),
            WorkspaceInitError::InvalidUtf8Input => e.has(EXIT_VALIDATION_FAILED, "INVALID_UTF8_INPUT"@,
                "stdin contains invalid UTF-8 input"@, "Set PowerShell UTF-8 encoding before piping answers"@),
            WorkspaceInitError::SuspiciousMojibakeInput => e.has(EXIT_VALIDATION_FAILED,
                "SUSPICIOUS_MOJIBAKE_INPUT"@, "semantic answer looks like mojibake input"@,
                "Set PowerShell UTF-8 encoding before piping answers"@),
            WorkspaceInitError::InputTooLarge { max_bytes } => e.has(EXIT_INVALID_ARGS, "INVALID_ARGS"@,
                "install answer"@ + " exceeds "@ + decimal_digits(max_bytes as nat) + " bytes"@,
                "reduce "@ + "install answer"@ + " to at most "@ + decimal_digits(max_bytes as nat) + " bytes"@),
            WorkspaceInitError::Io(_) => e.exit_code == EXIT_IO_ERROR && e.code@ == "IO_ERROR"@
                && e.fix_hint@ == "check filesystem permissions for AOPMEM_HOME"@,
            WorkspaceInitError::Seed(NodeStorageError::Validation(t)) => e.is_node_validation(t@),
            _ => e.is_db_schema(),
        },
{
    match error {
        WorkspaceInitError::Path(t) => CliError::path(t.as_str()),
        WorkspaceInitError::WorkspaceKey(t) => CliError::workspace_key(t.as_str()),
        WorkspaceInitError::WorkspaceResolve(r) => CliError::workspace_resolve(r),
        WorkspaceInitError::InvalidUtf8Input => CliError::invalid_utf8_input(),
        WorkspaceInitError::SuspiciousMojibakeInput => CliError::suspicious_mojibake_input(),
        WorkspaceInitError::InputTooLarge { max_bytes } => {
            CliError::input_too_large("install answer", max_bytes)
        },
        WorkspaceInitError::Io(io) => CliError::io(io),
        WorkspaceInitError::Db(db) => CliError::db_schema(db),
        WorkspaceInitError::Seed(NodeStorageError::Validation(t)) => CliError::validation(t.as_str()),
        WorkspaceInitError::Seed(NodeStorageError::Db(db)) => CliError::db_schema(db),
    }
}

/// Failures reading a tool contract file.
#[derive(Debug)]
pub enum ToolJsonError {
    /// The contract was rejected, with the displayed text.
    Validation(String),
    Json(serde_json::Error),
    Io(std::io::Error),
}

/// Failures validating a tool.
#[derive(Debug)]
pub enum ValidateToolError {
    NotFound(String),
    Db(rusqlite::Error),
    Json(ToolJsonError),
    ContractDrift(String),
    MissingExecutablePath(String),
}

/// The command line error for a failed `tool validate`.
pub fn validate_tool_cli_error(error: ValidateToolError) -> (e: CliError)
    ensures
        match error {
            ValidateToolError::NotFound(id) => e.has(EXIT_GENERIC_ERROR, "NOT_FOUND"@, "tool not found: "@ + id@,
                "run `aopmem tool create-draft --id <tool-id> --name <name>` first"@),
            ValidateToolError::Db(_) => e.is_db_schema(),
            ValidateToolError::Json(ToolJsonError::Validation(t)) => e.has(EXIT_VALIDATION_FAILED,
                "VALIDATION_ERROR"@, t@, "provide tool id/name and a valid draft tool contract shape"@),
            ValidateToolError::Json(ToolJsonError::Json(_)) => e.exit_code == EXIT_GENERIC_ERROR
                && e.code@ == "TOOL_JSON_ERROR"@ && e.fix_hint@ == "check the generated tool contract JSON fields"@,
            ValidateToolError::Json(ToolJsonError::Io(_)) => e.exit_code == EXIT_IO_ERROR && e.code@ == "IO_ERROR"@
                && e.fix_hint@ == "check filesystem permissions for AOPMEM_HOME"@,
            ValidateToolError::ContractDrift(id) => e.has(EXIT_DRIFT_DETECTED, "DRIFT_DETECTED"@,
                "tool contract drift detected between SQLite and tool.json: "@ + id@,
                "sync the local tool.json export back to the canonical SQLite tool contract"@),
            ValidateToolError::MissingExecutablePath(path) => e.has(EXIT_VALIDATION_FAILED, "VALIDATION_ERROR"@,
                "tool executable path does not exist: "@ + path@,
                "create the referenced executable file before running validate"@),
        },
{
    match error {
        ValidateToolError::NotFound(id) => CliError::tool_not_found(id.as_str()),
        ValidateToolError::Db(db) => CliError::db_schema(db),
        ValidateToolError::Json(ToolJsonError::Validation(t)) => CliError::tool_validation(t.as_str()),
        ValidateToolError::Json(ToolJsonError::Json(json)) => CliError::tool_contract_json(json),
        ValidateToolError::Json(ToolJsonError::Io(io)) => CliError::io(io),
        ValidateToolError::ContractDrift(id) => CliError::tool_contract_drift(id.as_str()),
        ValidateToolError::MissingExecutablePath(path) => CliError::tool_executable_missing(path.as_str()),
    }
}

/// Why the current workspace could not be opened for reading: its database is
/// missing, or it exists and could not be opened.
#[derive(Debug)]
pub enum WorkspaceReadOpenError {
    Missing(CliError),
    Existing(CliError),
}

impl WorkspaceReadOpenError {
    /// The error the command reports, whichever way the open failed.
    pub fn into_cli_error(self) -> (e: CliError)
        ensures
            match self {
                WorkspaceReadOpenError::Missing(x) => e == x,
                WorkspaceReadOpenError::Existing(x) => e == x,
            },
    {
        match self {
            WorkspaceReadOpenError::Missing(error) | WorkspaceReadOpenError::Existing(error) => error,
        }
    }
}

/// Why the workspace database could not be opened read-only: it does not exist
/// (with the displayed path), its path is unsafe, or the database refused.
#[derive(Debug)]
pub enum OpenWorkspaceReadOnlyError {
    Missing(String),
    UnsafePath(std::io::Error),
    Db(rusqlite::Error),
}

/// How a failed read-only open is reported: a missing database is told apart from
/// one that exists and could not be opened.
pub fn workspace_read_open_error(error: OpenWorkspaceReadOnlyError) -> (r: WorkspaceReadOpenError)
    ensures
        match error {
            OpenWorkspaceReadOnlyError::Missing(path) => r matches WorkspaceReadOpenError::Missing(e)
                && e.has(EXIT_WORKSPACE_NOT_FOUND, "WORKSPACE_NOT_FOUND"@, "workspace database not found: "@ + path@,
                    "run `aopmem init` first for this repository"@),
            OpenWorkspaceReadOnlyError::UnsafePath(_) => r matches WorkspaceReadOpenError::Existing(e)
                && e.exit_code == EXIT_IO_ERROR && e.code@ == "IO_ERROR"@
                && e.fix_hint@ == "check filesystem permissions for AOPMEM_HOME"@,
            OpenWorkspaceReadOnlyError::Db(_) => r matches WorkspaceReadOpenError::Existing(e) && e.is_db_schema(),
        },
{
    match error {
        OpenWorkspaceReadOnlyError::Missing(path) => WorkspaceReadOpenError::Missing(CliError::workspace_db_missing(path.as_str())),
        OpenWorkspaceReadOnlyError::UnsafePath(io) => WorkspaceReadOpenError::Existing(CliError::io(io)),
        OpenWorkspaceReadOnlyError::Db(db) => WorkspaceReadOpenError::Existing(CliError::db_schema(db)),
    }
}

/// How a transactional mutation failed: in its infrastructure, or in the
/// operation itself.
#[derive(Debug)]
pub enum MutationError<E> {
    Io(std::io::Error),
    FilesystemRollback { source: std::io::Error },
    Db(rusqlite::Error),
    Rollback { source: rusqlite::Error },
    Operation(E),
}

/// The error for an infrastructure failure of a mutation. Operation failures are
/// reported by their own command and never reach here.
pub fn mutation_infrastructure_error<E>(error: MutationError<E>) -> (e: CliError)
    requires
        !(error is Operation),
    ensures
        match error {
            MutationError::Io(_) | MutationError::FilesystemRollback { .. } => e.exit_code == EXIT_IO_ERROR
                && e.code@ == "IO_ERROR"@ && e.fix_hint@ == "check filesystem permissions for AOPMEM_HOME"@,
            MutationError::Db(_) | MutationError::Rollback { .. } => e.is_db_schema(),
            MutationError::Operation(_) => false,
        },
{
    match error {
        MutationError::Io(io) => CliError::io(io),
        MutationError::FilesystemRollback { source } => CliError::io(source),
        MutationError::Db(db) => CliError::db_schema(db),
        MutationError::Rollback { source } => CliError::db_schema(source),
        MutationError::Operation(_) => vstd::pervasive::unreached(),
    }
}

} // verus!
