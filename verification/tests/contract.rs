use aopmem::codes::{
    EXIT_DB_SCHEMA_ERROR, EXIT_DRIFT_DETECTED, EXIT_GENERIC_ERROR, EXIT_INVALID_ARGS, EXIT_IO_ERROR,
    EXIT_NOT_IMPLEMENTED, EXIT_SUCCESS, EXIT_UNSAFE_ACTION_BLOCKED, EXIT_VALIDATION_FAILED,
    EXIT_WORKSPACE_NOT_FOUND, MAX_TOOL_RUN_ARGS, MAX_TOOL_RUN_ARG_BYTES,
};
use aopmem::tools::validate_tool_run_args;

#[test]
fn fixed_exit_codes_match_cli_contract() {
    assert_eq!(EXIT_SUCCESS, 0);
    assert_eq!(EXIT_GENERIC_ERROR, 1);
    assert_eq!(EXIT_INVALID_ARGS, 2);
    assert_eq!(EXIT_WORKSPACE_NOT_FOUND, 3);
    assert_eq!(EXIT_DB_SCHEMA_ERROR, 4);
    assert_eq!(EXIT_VALIDATION_FAILED, 5);
    assert_eq!(EXIT_UNSAFE_ACTION_BLOCKED, 6);
    assert_eq!(EXIT_NOT_IMPLEMENTED, 7);
    assert_eq!(EXIT_DRIFT_DETECTED, 8);
    assert_eq!(EXIT_IO_ERROR, 9);
}

#[test]
fn tool_run_argument_limits_reject_large_inputs_before_workspace_access() {
    let too_many = vec!["x".to_string(); MAX_TOOL_RUN_ARGS + 1];
    let too_large = vec!["x".repeat(MAX_TOOL_RUN_ARG_BYTES + 1)];
    let too_large_total = vec!["x".repeat(MAX_TOOL_RUN_ARG_BYTES); 9];

    for args in [&too_many, &too_large, &too_large_total] {
        let error = validate_tool_run_args(args).expect_err("tool args should be bounded");
        assert_eq!(error.code, "INVALID_ARGS");
    }
}

#[test]
fn tool_run_arguments_at_the_limits_are_accepted() {
    let most = vec!["x".to_string(); MAX_TOOL_RUN_ARGS];
    let largest = vec!["x".repeat(MAX_TOOL_RUN_ARG_BYTES)];
    let largest_total = vec!["x".repeat(MAX_TOOL_RUN_ARG_BYTES); 8];
    assert!(validate_tool_run_args(&most).is_ok());
    assert!(validate_tool_run_args(&largest).is_ok());
    assert!(validate_tool_run_args(&largest_total).is_ok());
    assert!(validate_tool_run_args(&Vec::new()).is_ok());
}
