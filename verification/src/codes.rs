use vstd::prelude::*;

verus! {

/// Process exit status of a successful command.
pub const EXIT_SUCCESS: u8 = 0;
/// Process exit status of a failure without a more specific class.
pub const EXIT_GENERIC_ERROR: u8 = 1;
/// Process exit status of invalid command line arguments.
pub const EXIT_INVALID_ARGS: u8 = 2;
/// Process exit status when the workspace database cannot be found.
pub const EXIT_WORKSPACE_NOT_FOUND: u8 = 3;
/// Process exit status of a database or schema failure.
pub const EXIT_DB_SCHEMA_ERROR: u8 = 4;
/// Process exit status of rejected input.
pub const EXIT_VALIDATION_FAILED: u8 = 5;
/// Process exit status of a blocked unsafe tool run.
pub const EXIT_UNSAFE_ACTION_BLOCKED: u8 = 6;
/// Process exit status of a command that is not implemented.
pub const EXIT_NOT_IMPLEMENTED: u8 = 7;
/// Process exit status when contract drift is detected.
pub const EXIT_DRIFT_DETECTED: u8 = 8;
/// Process exit status of a filesystem failure.
pub const EXIT_IO_ERROR: u8 = 9;

/// Default page size of a bounded task recall.
pub const DEFAULT_BOUNDED_RECALL_LIMIT: usize = 12;
/// Largest page size of a bounded task recall.
pub const MAX_BOUNDED_RECALL_LIMIT: usize = 50;
/// Largest structured payload (teach payload, reflection proposal) in bytes.
pub const MAX_STRUCTURED_PAYLOAD_BYTES: usize = 2097152;
/// Default page size of a list command.
pub const DEFAULT_LIST_LIMIT: usize = 100;
/// Largest page size of a list command.
pub const MAX_LIST_LIMIT: usize = 500;
/// Largest list cursor in bytes.
pub const MAX_CURSOR_BYTES: usize = 1024;
/// Largest number of arguments handed to `tool run`.
pub const MAX_TOOL_RUN_ARGS: usize = 128;
/// Largest single `tool run` argument in bytes.
pub const MAX_TOOL_RUN_ARG_BYTES: usize = 8192;
/// Largest total size of all `tool run` arguments in bytes.
pub const MAX_TOOL_RUN_TOTAL_ARG_BYTES: usize = 65536;

} // verus!
