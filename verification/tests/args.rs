use aopmem::args::{
    blank_text, json_flag_present, parse_bounded_recall_limit, parse_feedback_outcome, parse_global_bundle_id,
    parse_list_limit, parse_non_empty_cursor, parse_positive_id, parse_recall_continuation_cursor,
    validate_structured_payload_size, bounded_utf8_text, FeedbackOutcome,
};
use aopmem::bundle::RecallBundleId;
use aopmem::codes::MAX_STRUCTURED_PAYLOAD_BYTES;

#[test]
fn global_bundle_id_parser_accepts_only_canonical_lowercase_uuid_v4() {
    const CANONICAL: &str = "550e8400-e29b-41d4-a716-446655440000";
    let parsed = parse_global_bundle_id(CANONICAL).expect("canonical UUID v4 should parse");
    assert_eq!(parsed.as_str(), CANONICAL);

    for invalid in [
        "550E8400-E29B-41D4-A716-446655440000",
        "550e8400-e29b-11d4-a716-446655440000",
        "550e8400e29b41d4a716446655440000",
        "00000000-0000-0000-0000-000000000000",
        "not-a-uuid",
    ] {
        let error = parse_global_bundle_id(invalid).expect_err("non-canonical or non-v4 bundle ids must fail parsing");
        assert!(error.contains("lowercase hyphenated UUID v4"));
    }
    assert!(RecallBundleId::parse("550e8400-e29b-41d4-c716-446655440000").is_err());
    assert!(RecallBundleId::parse("550e8400-e29b-41d4-b716-446655440000").is_ok());
}

#[test]
fn mutation_ids_must_be_positive_during_cli_parse() {
    for value in ["0", "-1", "abc", "", "9223372036854775808"] {
        let error = parse_positive_id(value).expect_err("zero and negative mutation ids must fail CLI parsing");
        assert!(error.contains("id must be a positive integer"));
    }
    assert_eq!(parse_positive_id("1"), Ok(1));
    assert_eq!(parse_positive_id("9223372036854775807"), Ok(i64::MAX));
}

#[test]
fn limits_are_bounded() {
    assert_eq!(parse_bounded_recall_limit("12"), Ok(12));
    assert_eq!(parse_bounded_recall_limit("50"), Ok(50));
    assert_eq!(parse_bounded_recall_limit("51"), Err("limit must be between 1 and 50".to_string()));
    assert_eq!(parse_bounded_recall_limit("0"), Err("limit must be between 1 and 50".to_string()));
    assert_eq!(parse_bounded_recall_limit("x"), Err("limit must be a positive integer".to_string()));
    assert_eq!(parse_list_limit("500"), Ok(500));
    assert_eq!(parse_list_limit("501"), Err("limit must be between 1 and 500".to_string()));
    assert_eq!(parse_list_limit("-3"), Err("limit must be a positive integer".to_string()));
}

#[test]
fn blank_cursors_are_refused() {
    assert_eq!(parse_non_empty_cursor("  \t"), Err("after-id must not be empty".to_string()));
    assert_eq!(parse_non_empty_cursor(" k "), Ok(" k ".to_string()));
    assert!(blank_text(""));
    assert!(!blank_text("a"));
}

#[test]
fn continuation_cursors_are_url_safe_and_bounded() {
    assert_eq!(parse_recall_continuation_cursor("", 16), Err("continuation cursor must not be empty".to_string()));
    assert_eq!(
        parse_recall_continuation_cursor("abcdefghijklmnopq", 16),
        Err("continuation cursor must be at most 16 bytes".to_string())
    );
    assert_eq!(
        parse_recall_continuation_cursor("a b", 16),
        Err("continuation cursor must contain only URL-safe ASCII characters".to_string())
    );
    assert_eq!(parse_recall_continuation_cursor("a.b_c~d-E9", 16), Ok("a.b_c~d-E9".to_string()));
}

#[test]
fn feedback_outcomes_are_fixed_words() {
    assert_eq!(parse_feedback_outcome("useful"), Ok(FeedbackOutcome::Useful));
    assert_eq!(parse_feedback_outcome("partial"), Ok(FeedbackOutcome::Partial));
    assert_eq!(parse_feedback_outcome("wrong"), Ok(FeedbackOutcome::Wrong));
    assert!(parse_feedback_outcome("Useful").is_err());
}

#[test]
fn json_flag_is_found_anywhere() {
    let args = vec!["aopmem".to_string(), "status".to_string(), "--json".to_string()];
    assert!(json_flag_present(&args));
    let args = vec!["aopmem".to_string(), "--json=true".to_string()];
    assert!(!json_flag_present(&args));
}

#[test]
fn structured_payloads_are_bounded() {
    assert!(validate_structured_payload_size("teach payload", MAX_STRUCTURED_PAYLOAD_BYTES).is_ok());
    let error = validate_structured_payload_size("teach payload", MAX_STRUCTURED_PAYLOAD_BYTES + 1)
        .expect_err("payload should be bounded");
    assert_eq!(error.code, "INVALID_ARGS");
    assert!(error.message.contains("teach payload exceeds"));
    assert_eq!(error.message, "teach payload exceeds 2097152 bytes");
}

#[test]
fn structured_payload_readers_reject_oversized_input_before_json_parsing() {
    let inline = "x".repeat(MAX_STRUCTURED_PAYLOAD_BYTES + 1);
    let inline_error = validate_structured_payload_size("teach payload", inline.len()).expect_err("payload should be bounded");
    assert_eq!(inline_error.code, "INVALID_ARGS");
    assert!(inline_error.message.contains("teach payload exceeds"));

    let file_error = bounded_utf8_text(inline.as_bytes(), "reflection proposal file").expect_err("proposal file should be bounded");
    assert_eq!(file_error.code, "INVALID_ARGS");
    assert!(file_error.message.contains("reflection proposal file exceeds"));
}

#[test]
fn bounded_input_must_be_utf8() {
    assert_eq!(bounded_utf8_text("héllo".as_bytes(), "input").ok().as_deref(), Some("héllo"));
    let invalid = [0x66u8, 0xff, 0x6f];
    let detail = std::str::from_utf8(&invalid).unwrap_err().to_string();
    let error = bounded_utf8_text(&invalid, "input").expect_err("not UTF-8");
    assert_eq!(error.code, "IO_ERROR");
    assert_eq!(error.exit_code, 9);
    assert_eq!(error.message, format!("input is not valid UTF-8: {detail}"));
}
