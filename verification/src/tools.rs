//! Tool runs: argument limits, the failures a run can end in, and how each
//! failure is reported.
use vstd::prelude::*;
use vstd::string::*;
use vstd::utf8::*;
use crate::codes::{
    EXIT_GENERIC_ERROR, EXIT_INVALID_ARGS, EXIT_VALIDATION_FAILED, EXIT_IO_ERROR,
    EXIT_DRIFT_DETECTED, EXIT_UNSAFE_ACTION_BLOCKED, MAX_TOOL_RUN_ARGS, MAX_TOOL_RUN_ARG_BYTES,
    MAX_TOOL_RUN_TOTAL_ARG_BYTES,
};
use crate::error::CliError;
use crate::envelope::{OutputErrorDetails, ToolRunLimitDetails, ToolRunHardOverflowDetails};
use crate::failures::ToolJsonError;
use crate::text::{decimal_digits, signed_decimal};

verus! {

/// The UTF-8 length of an argument.
pub open spec fn arg_bytes(a: String) -> nat {
    encode_utf8(a@).len()
}

/// The summed UTF-8 length of the arguments.
pub open spec fn total_arg_bytes(args: Seq<String>) -> nat
    decreases args.len(),
{
    if args.len() == 0 {
        0
    } else {
        total_arg_bytes(args.drop_last()) + arg_bytes(args.last())
    }
}

/// Which limit, if any, the arguments of a tool run break, in the order they are checked.
pub open spec fn tool_run_args_violation(args: Seq<String>) -> Option<Seq<char>> {
    if args.len() > MAX_TOOL_RUN_ARGS {
        Some("tool arguments exceed 128 items"@)
    } else if exists|i: int| 0 <= i < args.len() && arg_bytes(#[trigger] args[i]) > MAX_TOOL_RUN_ARG_BYTES {
        Some("a tool argument exceeds 8192 bytes"@)
    } else if total_arg_bytes(args) > MAX_TOOL_RUN_TOTAL_ARG_BYTES {
        Some("tool arguments exceed 65536 bytes in total"@)
    } else {
        None
    }
}

/// Rejects `tool run` arguments past the count, per-argument and total size limits.
pub fn validate_tool_run_args(args: &Vec<String>) -> (r: Result<(), CliError>)
    ensures
        match tool_run_args_violation(args@) {
            None => r is Ok,
            Some(m) => r matches Err(e) && e.has(EXIT_INVALID_ARGS, "INVALID_ARGS"@, m,
                "reduce `aopmem tool run` arguments before retrying"@),
        },
{
    let n = args.len();
    if n > MAX_TOOL_RUN_ARGS {
        return Err(CliError::tool_run_args_too_large("tool arguments exceed 128 items"));
    }
    let mut i: usize = 0;
    while i < n
        invariant
            n == args@.len(),
            n <= MAX_TOOL_RUN_ARGS,
            i <= n,
            forall|j: int| 0 <= j < i ==> arg_bytes(#[trigger] args@[j]) <= MAX_TOOL_RUN_ARG_BYTES,
        decreases n - i,
    {
        if args[i].as_str().as_bytes().len() > MAX_TOOL_RUN_ARG_BYTES {
            assert(arg_bytes(args@[i as int]) > MAX_TOOL_RUN_ARG_BYTES);
            return Err(CliError::tool_run_args_too_large("a tool argument exceeds 8192 bytes"));
        }
        i = i + 1;
    }
    let mut total: usize = 0;
    let mut k: usize = 0;
    while k < n
        invariant
            n == args@.len(),
            n <= MAX_TOOL_RUN_ARGS,
            k <= n,
            forall|j: int| 0 <= j < n ==> arg_bytes(#[trigger] args@[j]) <= MAX_TOOL_RUN_ARG_BYTES,
            total == total_arg_bytes(args@.take(k as int)),
            total <= k * MAX_TOOL_RUN_ARG_BYTES,
        decreases n - k,
    {
        assert(args@.take(k + 1).drop_last() =~= args@.take(k as int));
        let len = args[k].as_str().as_bytes().len();
        assert(len == arg_bytes(args@[k as int]));
        total = total + len;
        k = k + 1;
    }
    assert(args@.take(n as int) =~= args@);
    if total > MAX_TOOL_RUN_TOTAL_ARG_BYTES {
        return Err(CliError::tool_run_args_too_large("tool arguments exceed 65536 bytes in total"));
    }
    Ok(())
}

/// Why a tool run was stopped by its limits.
#[derive(Debug, Clone, Copy)]
pub enum ToolRunLimitError {
    TimedOut {
        timeout_ms: u128,
        stdout_limit_bytes: usize,
        stderr_limit_bytes: usize,
        stdout_truncated: bool,
        stderr_truncated: bool,
    },
    OutputOverflow {
        timeout_ms: u128,
        stdout_limit_bytes: usize,
        stderr_limit_bytes: usize,
        stdout_truncated: bool,
        stderr_truncated: bool,
    },
    ArtifactHardOverflow {
        timeout_ms: u128,
        stdout_limit_bytes: usize,
        stderr_limit_bytes: usize,
        hard_limit_bytes: usize,
        stdout_truncated: bool,
        stderr_truncated: bool,
        stdout_hard_limit_exceeded: bool,
        stderr_hard_limit_exceeded: bool,
    },
    InvalidLimits,
}

/// Why a tool run failed.
#[derive(Debug)]
pub enum RunToolError {
    NotFound(String),
    Db(rusqlite::Error),
    Json(ToolJsonError),
    Io(std::io::Error),
    Limit(ToolRunLimitError),
    ContractDrift(String),
    MissingExecutablePath(String),
    UnsafeActionBlocked { tool_id: String, side_effects: String, approval_requirement: String },
    ProcessFailed(i32),
}

/// The stable code an observation event records for a failed tool run.
pub open spec fn tool_run_code(error: RunToolError) -> Seq<char> {
    match error {
        RunToolError::NotFound(_) => "NOT_FOUND"@,
        RunToolError::Db(_) => "DB_SCHEMA_ERROR"@,
        RunToolError::Json(ToolJsonError::Validation(_)) => "VALIDATION_ERROR"@,
        RunToolError::MissingExecutablePath(_) => "VALIDATION_ERROR"@,
        RunToolError::Limit(ToolRunLimitError::InvalidLimits) => "VALIDATION_ERROR"@,
        RunToolError::Json(ToolJsonError::Json(_)) => "TOOL_JSON_ERROR"@,
        RunToolError::Json(ToolJsonError::Io(_)) => "IO_ERROR"@,
        RunToolError::Io(_) => "IO_ERROR"@,
        RunToolError::ContractDrift(_) => "DRIFT_DETECTED"@,
        RunToolError::UnsafeActionBlocked { .. } => "UNSAFE_ACTION_BLOCKED"@,
        RunToolError::Limit(ToolRunLimitError::TimedOut { .. }) => "TOOL_TIMEOUT"@,
        RunToolError::Limit(ToolRunLimitError::OutputOverflow { .. }) => "TOOL_OUTPUT_OVERFLOW"@,
        RunToolError::Limit(ToolRunLimitError::ArtifactHardOverflow { .. }) => "TOOL_OUTPUT_OVERFLOW"@,
        RunToolError::ProcessFailed(_) => "TOOL_PROCESS_FAILED"@,
    }
}

/// The stable code of a failed tool run.
pub fn tool_run_error_code(error: &RunToolError) -> (r: &'static str)
    ensures
        r@ == tool_run_code(*error),
{
    match error {
        RunToolError::NotFound(_) => "NOT_FOUND",
        RunToolError::Db(_) => "DB_SCHEMA_ERROR",
        RunToolError::Json(ToolJsonError::Validation(_))
        | RunToolError::MissingExecutablePath(_)
        | RunToolError::Limit(ToolRunLimitError::InvalidLimits) => "VALIDATION_ERROR",
        RunToolError::Json(ToolJsonError::Json(_)) => "TOOL_JSON_ERROR",
        RunToolError::Json(ToolJsonError::Io(_)) | RunToolError::Io(_) => "IO_ERROR",
        RunToolError::ContractDrift(_) => "DRIFT_DETECTED",
        RunToolError::UnsafeActionBlocked { .. } => "UNSAFE_ACTION_BLOCKED",
        RunToolError::Limit(ToolRunLimitError::TimedOut { .. }) => "TOOL_TIMEOUT",
        RunToolError::Limit(ToolRunLimitError::OutputOverflow { .. })
        | RunToolError::Limit(ToolRunLimitError::ArtifactHardOverflow { .. }) => "TOOL_OUTPUT_OVERFLOW",
        RunToolError::ProcessFailed(_) => "TOOL_PROCESS_FAILED",
    }
}

/// The error and typed details a limit failure is reported with; invalid limits
/// are reported as a plain validation error.
pub fn tool_limit_error_parts(limit_error: &ToolRunLimitError) -> (r: Result<(CliError, OutputErrorDetails), CliError>)
    ensures
        match *limit_error {
            ToolRunLimitError::TimedOut { timeout_ms, stdout_limit_bytes, stderr_limit_bytes, stdout_truncated, stderr_truncated } =>
                r matches Ok((e, d)) && e.has(EXIT_GENERIC_ERROR, "TOOL_TIMEOUT"@,
                    "tool run timed out after "@ + decimal_digits(timeout_ms as nat) + " ms"@,
                    "adjust the validated tool timeout or make the tool finish sooner"@)
                && d == OutputErrorDetails::ToolRunLimit(ToolRunLimitDetails {
                    timeout_ms, stdout_limit_bytes, stderr_limit_bytes, stdout_truncated, stderr_truncated }),
            ToolRunLimitError::OutputOverflow { timeout_ms, stdout_limit_bytes, stderr_limit_bytes, stdout_truncated, stderr_truncated } =>
                r matches Ok((e, d)) && e.has(EXIT_GENERIC_ERROR, "TOOL_OUTPUT_OVERFLOW"@,
                    "tool output exceeded its inline capture limit"@,
                    "reduce inline output or set output_mode=artifact in the tool contract"@)
                && d == OutputErrorDetails::ToolRunLimit(ToolRunLimitDetails {
                    timeout_ms, stdout_limit_bytes, stderr_limit_bytes, stdout_truncated, stderr_truncated }),
            ToolRunLimitError::ArtifactHardOverflow { timeout_ms, stdout_limit_bytes, stderr_limit_bytes,
                hard_limit_bytes, stdout_truncated, stderr_truncated, stdout_hard_limit_exceeded,
                stderr_hard_limit_exceeded } =>
                r matches Ok((e, d)) && e.has(EXIT_GENERIC_ERROR, "TOOL_OUTPUT_OVERFLOW"@,
                    "tool artifact output exceeded the global "@ + decimal_digits(hard_limit_bytes as nat)
                        + "-byte per-stream capture ceiling"@,
                    "reduce tool output below the global ceiling; no artifact was published for this run"@)
                && d == OutputErrorDetails::ToolRunHardOverflow(ToolRunHardOverflowDetails {
                    timeout_ms, stdout_limit_bytes, stderr_limit_bytes, hard_limit_bytes, stdout_truncated,
                    stderr_truncated, stdout_hard_limit_exceeded, stderr_hard_limit_exceeded }),
            ToolRunLimitError::InvalidLimits => r matches Err(e) && e.has(EXIT_VALIDATION_FAILED,
                "VALIDATION_ERROR"@, "tool runtime limits are outside the global hard ceilings"@,
                "validate the persisted tool.json runtime limits before running the tool"@),
        },
{
    match *limit_error {
        ToolRunLimitError::TimedOut { timeout_ms, stdout_limit_bytes, stderr_limit_bytes, stdout_truncated, stderr_truncated } =>
            Ok((CliError::tool_timeout(timeout_ms), OutputErrorDetails::ToolRunLimit(ToolRunLimitDetails {
                timeout_ms, stdout_limit_bytes, stderr_limit_bytes, stdout_truncated, stderr_truncated }))),
        ToolRunLimitError::OutputOverflow { timeout_ms, stdout_limit_bytes, stderr_limit_bytes, stdout_truncated, stderr_truncated } =>
            Ok((CliError::tool_output_overflow(), OutputErrorDetails::ToolRunLimit(ToolRunLimitDetails {
                timeout_ms, stdout_limit_bytes, stderr_limit_bytes, stdout_truncated, stderr_truncated }))),
        ToolRunLimitError::ArtifactHardOverflow { timeout_ms, stdout_limit_bytes, stderr_limit_bytes,
            hard_limit_bytes, stdout_truncated, stderr_truncated, stdout_hard_limit_exceeded,
            stderr_hard_limit_exceeded } =>
            Ok((CliError::tool_artifact_hard_overflow(hard_limit_bytes),
                OutputErrorDetails::ToolRunHardOverflow(ToolRunHardOverflowDetails {
                    timeout_ms, stdout_limit_bytes, stderr_limit_bytes, hard_limit_bytes, stdout_truncated,
                    stderr_truncated, stdout_hard_limit_exceeded, stderr_hard_limit_exceeded }))),
        ToolRunLimitError::InvalidLimits => Err(CliError::tool_run_limits_invalid()),
    }
}


/// How a failed tool run is reported: a plain error, or a limit error with typed details.
#[derive(Debug)]
pub enum ToolRunFailure {
    Plain(CliError),
    Limit(CliError, OutputErrorDetails),
}

impl ToolRunFailure {
    /// The reported error.
    pub open spec fn error(self) -> CliError {
        match self {
            ToolRunFailure::Plain(e) => e,
            ToolRunFailure::Limit(e, _) => e,
        }
    }
}

/// The report of a failed tool run.  Its code is the code the run's observation
/// events record for the same failure.
pub fn tool_run_failure(error: RunToolError) -> (r: ToolRunFailure)
    ensures
        r.error().code@ == tool_run_code(error),
        match error {
            RunToolError::NotFound(id) => r matches ToolRunFailure::Plain(e) && e.has(EXIT_GENERIC_ERROR,
                "NOT_FOUND"@, "tool not found: "@ + id@,
                "run `aopmem tool create-draft --id <tool-id> --name <name>` first"@),
            RunToolError::Db(_) => r matches ToolRunFailure::Plain(e) && e.is_db_schema(),
            RunToolError::Json(ToolJsonError::Validation(t)) => r matches ToolRunFailure::Plain(e)
                && e.has(EXIT_VALIDATION_FAILED, "VALIDATION_ERROR"@, t@,
                    "provide tool id/name and a valid draft tool contract shape"@),
            RunToolError::Json(ToolJsonError::Json(_)) => r matches ToolRunFailure::Plain(e)
                && e.exit_code == EXIT_GENERIC_ERROR
                && e.fix_hint@ == "check the generated tool contract JSON fields"@,
            RunToolError::Json(ToolJsonError::Io(_)) => r matches ToolRunFailure::Plain(e)
                && e.exit_code == EXIT_IO_ERROR && e.fix_hint@ == "check filesystem permissions for AOPMEM_HOME"@,
            RunToolError::Io(_) => r matches ToolRunFailure::Plain(e)
                && e.exit_code == EXIT_IO_ERROR && e.fix_hint@ == "check filesystem permissions for AOPMEM_HOME"@,
            RunToolError::Limit(ToolRunLimitError::InvalidLimits) => r matches ToolRunFailure::Plain(e)
                && e.has(EXIT_VALIDATION_FAILED, "VALIDATION_ERROR"@,
                    "tool runtime limits are outside the global hard ceilings"@,
                    "validate the persisted tool.json runtime limits before running the tool"@),
            RunToolError::Limit(limit) => r matches ToolRunFailure::Limit(e, d) && match limit {
                ToolRunLimitError::TimedOut { timeout_ms, stdout_limit_bytes, stderr_limit_bytes,
                    stdout_truncated, stderr_truncated } => e.has(EXIT_GENERIC_ERROR, "TOOL_TIMEOUT"@,
                        "tool run timed out after "@ + decimal_digits(timeout_ms as nat) + " ms"@,
                        "adjust the validated tool timeout or make the tool finish sooner"@)
                    && d == OutputErrorDetails::ToolRunLimit(ToolRunLimitDetails {
                        timeout_ms, stdout_limit_bytes, stderr_limit_bytes, stdout_truncated, stderr_truncated }),
                ToolRunLimitError::OutputOverflow { timeout_ms, stdout_limit_bytes, stderr_limit_bytes,
                    stdout_truncated, stderr_truncated } => e.has(EXIT_GENERIC_ERROR, "TOOL_OUTPUT_OVERFLOW"@,
                        "tool output exceeded its inline capture limit"@,
                        "reduce inline output or set output_mode=artifact in the tool contract"@)
                    && d == OutputErrorDetails::ToolRunLimit(ToolRunLimitDetails {
                        timeout_ms, stdout_limit_bytes, stderr_limit_bytes, stdout_truncated, stderr_truncated }),
                ToolRunLimitError::ArtifactHardOverflow { timeout_ms, stdout_limit_bytes, stderr_limit_bytes,
                    hard_limit_bytes, stdout_truncated, stderr_truncated, stdout_hard_limit_exceeded,
                    stderr_hard_limit_exceeded } => e.has(EXIT_GENERIC_ERROR, "TOOL_OUTPUT_OVERFLOW"@,
                        "tool artifact output exceeded the global "@ + decimal_digits(hard_limit_bytes as nat)
                            + "-byte per-stream capture ceiling"@,
                        "reduce tool output below the global ceiling; no artifact was published for this run"@)
                    && d == OutputErrorDetails::ToolRunHardOverflow(ToolRunHardOverflowDetails {
                        timeout_ms, stdout_limit_bytes, stderr_limit_bytes, hard_limit_bytes, stdout_truncated,
                        stderr_truncated, stdout_hard_limit_exceeded, stderr_hard_limit_exceeded }),
                ToolRunLimitError::InvalidLimits => false,
            },
            RunToolError::ContractDrift(id) => r matches ToolRunFailure::Plain(e) && e.has(EXIT_DRIFT_DETECTED,
                "DRIFT_DETECTED"@, "tool contract drift detected between SQLite and tool.json: "@ + id@,
                "sync the local tool.json export back to the canonical SQLite tool contract"@),
            RunToolError::MissingExecutablePath(path) => r matches ToolRunFailure::Plain(e)
                && e.has(EXIT_VALIDATION_FAILED, "VALIDATION_ERROR"@,
                    "tool executable path does not exist: "@ + path@,
                    "create the referenced executable file before running validate"@),
            RunToolError::UnsafeActionBlocked { tool_id, side_effects, approval_requirement } =>
                r matches ToolRunFailure::Plain(e) && e.has(EXIT_UNSAFE_ACTION_BLOCKED, "UNSAFE_ACTION_BLOCKED"@,
                    "tool run blocked without approval: tool_id="@ + tool_id@ + ", side_effects="@
                        + side_effects@ + ", approval_requirement="@ + approval_requirement@,
                    "rerun with `--approved '+++'` for approved external or high-risk tool actions"@),
            RunToolError::ProcessFailed(code) => r matches ToolRunFailure::Plain(e) && e.has(EXIT_GENERIC_ERROR,
                "TOOL_PROCESS_FAILED"@, "tool process exited with non-zero status: "@ + signed_decimal(code as int),
                "check the generated tool stderr/stdout and executable behavior"@),
        },
{
    match error {
        RunToolError::NotFound(id) => ToolRunFailure::Plain(CliError::tool_not_found(id.as_str())),
        RunToolError::Db(db) => ToolRunFailure::Plain(CliError::db_schema(db)),
        RunToolError::Json(ToolJsonError::Validation(t)) => ToolRunFailure::Plain(CliError::tool_validation(t.as_str())),
        RunToolError::Json(ToolJsonError::Json(json)) => ToolRunFailure::Plain(CliError::tool_contract_json(json)),
        RunToolError::Json(ToolJsonError::Io(io)) | RunToolError::Io(io) => ToolRunFailure::Plain(CliError::io(io)),
        RunToolError::Limit(ToolRunLimitError::InvalidLimits) => ToolRunFailure::Plain(CliError::tool_run_limits_invalid()),
        RunToolError::Limit(limit) => match tool_limit_error_parts(&limit) {
            Ok((e, d)) => ToolRunFailure::Limit(e, d),
            Err(e) => ToolRunFailure::Plain(e),
        },
        RunToolError::ContractDrift(id) => ToolRunFailure::Plain(CliError::tool_contract_drift(id.as_str())),
        RunToolError::MissingExecutablePath(path) => ToolRunFailure::Plain(CliError::tool_executable_missing(path.as_str())),
        RunToolError::UnsafeActionBlocked { tool_id, side_effects, approval_requirement } =>
            ToolRunFailure::Plain(CliError::unsafe_tool_run_blocked(tool_id.as_str(), side_effects.as_str(),
                approval_requirement.as_str())),
        RunToolError::ProcessFailed(code) => ToolRunFailure::Plain(CliError::tool_process_failed(code)),
    }
}

} // verus!
