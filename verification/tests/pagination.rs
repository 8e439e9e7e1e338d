use aopmem::error::CliError;
use aopmem::envelope::error_envelope;
use aopmem::pagination::{
    numeric_cursor_or_legacy, string_cursor_or_legacy, tool_contracts_page, validate_node_page, validate_page,
    CollectStep, ListError, NodeCollectStep, NodePage, NodePageCollector, Page, PageCollector,
};
use aopmem::cursor::{encode_list_cursor, encode_numeric_cursor, metadata_cursor_scope, CursorKind};
use aopmem::codes::EXIT_INVALID_ARGS;

fn page<T>(items: Vec<T>, next_after_id: Option<i64>, more_results: bool) -> Page<T, i64> {
    Page { items, next_after_id, more_results }
}

/// Reads every page with `fetch`, as a list command does inside one read transaction.
fn collect_all<T: Clone>(
    page_size: usize,
    mut fetch: impl FnMut(Option<i64>, usize) -> Result<Page<T, i64>, ListError>,
    key_for: impl Fn(&T) -> i64,
) -> Result<Page<T, i64>, ListError> {
    let mut collector = PageCollector::new();
    loop {
        let page = fetch(collector.after_key, page_size)?;
        let keys = page.items.iter().map(&key_for).collect::<Vec<_>>();
        match collector.accept(page, &keys, page_size)? {
            CollectStep::Next(next) => collector = next,
            CollectStep::Done(page) => return Ok(page),
        }
    }
}

fn collect_all_strings(
    page_size: usize,
    mut fetch: impl FnMut(Option<&String>, usize) -> Result<Page<String, String>, ListError>,
) -> Result<Page<String, String>, ListError> {
    let mut collector = PageCollector::new();
    loop {
        let page = fetch(collector.after_key.as_ref(), page_size)?;
        let keys = page.items.clone();
        match collector.accept(page, &keys, page_size)? {
            CollectStep::Next(next) => collector = next,
            CollectStep::Done(page) => return Ok(page),
        }
    }
}

struct TestNode {
    id: i64,
}

fn collect_all_nodes(
    page_size: usize,
    mut fetch: impl FnMut(Option<i64>, usize) -> Result<NodePage<TestNode>, ListError>,
) -> Result<NodePage<TestNode>, ListError> {
    let mut collector = NodePageCollector::new();
    loop {
        let page = fetch(collector.pages.after_key, page_size)?;
        let ids = page.page.items.iter().map(|node| node.id).collect::<Vec<_>>();
        match collector.accept(page, &ids, page_size)? {
            NodeCollectStep::Next(next) => collector = next,
            NodeCollectStep::Done(page) => return Ok(page),
        }
    }
}

fn test_node_page(ids: Vec<i64>, more_results: bool, next_after_id: Option<i64>) -> NodePage<TestNode> {
    NodePage {
        page: Page { items: ids.into_iter().map(|id| TestNode { id }).collect(), next_after_id, more_results },
        body_omitted: false,
        content_truncated: false,
    }
}

#[test]
fn generic_all_traversal_crosses_more_than_two_pages_in_one_read_transaction() {
    let page = collect_all(
        1,
        |after_id: Option<i64>, _limit| match after_id {
            None => Ok(page(vec![1], Some(1), true)),
            Some(1) => Ok(page(vec![2], Some(2), true)),
            Some(2) => Ok(page(vec![3], Some(3), true)),
            Some(3) => Ok(page(vec![4], None, false)),
            _ => Err(ListError::Db(rusqlite::Error::InvalidQuery)),
        },
        |item| *item,
    )
    .expect("four-page traversal should succeed");

    assert_eq!(page.items, vec![1, 2, 3, 4]);
    assert!(!page.more_results);
    assert_eq!(page.next_after_id, None);
}

#[test]
fn generic_all_traversal_fails_closed_on_duplicate_string_key() {
    let mut call = 0;
    let result = collect_all_strings(1, |_after_id: Option<&String>, _limit| {
        call += 1;
        if call == 1 {
            Ok(Page { items: vec!["α".to_string()], next_after_id: Some("α".to_string()), more_results: true })
        } else {
            Ok(Page { items: vec!["α".to_string()], next_after_id: None, more_results: false })
        }
    });

    assert!(matches!(result, Err(ListError::Pagination(_))));
}

#[test]
fn all_node_traversal_reads_every_page_and_returns_complete_result() {
    let mut calls = 0;
    let result = collect_all_nodes(2, |after_id, _limit| {
        calls += 1;
        let mut page = match after_id {
            None => test_node_page(vec![1, 2], true, Some(2)),
            Some(2) => test_node_page(vec![3, 4], true, Some(4)),
            _ => test_node_page(vec![5], false, None),
        };
        page.body_omitted = calls == 2;
        Ok(page)
    })
    .expect("full node traversal should succeed");

    assert_eq!(result.page.items.iter().map(|node| node.id).collect::<Vec<_>>(), vec![1, 2, 3, 4, 5]);
    assert!(result.body_omitted);
    assert!(!result.content_truncated);
    assert!(!result.page.more_results);
    assert_eq!(result.page.next_after_id, None);
}

#[test]
fn all_node_traversal_rejects_duplicates_and_nonprogress_without_a_result() {
    let mut duplicate_call = 0;
    let duplicate = collect_all_nodes(1, |_after_id, _limit| {
        duplicate_call += 1;
        match duplicate_call {
            1 => Ok(test_node_page(vec![1], true, Some(1))),
            _ => Ok(test_node_page(vec![1], false, None)),
        }
    });
    assert!(matches!(duplicate, Err(ListError::Pagination(_))));

    let nonprogress = collect_all_nodes(1, |_after_id, _limit| Ok(test_node_page(Vec::new(), true, Some(1))));
    assert!(matches!(nonprogress, Err(ListError::Pagination(_))));

    let envelope = error_envelope("node_list", &CliError::pagination("duplicate or non-progressing node page"));
    let parsed: serde_json::Value = serde_json::from_str(&envelope).expect("error envelope should parse");
    assert_eq!(parsed["errors"][0]["code"], "PAGINATION_ERROR");
}

fn pagination_reason<T: std::fmt::Debug>(result: Result<T, ListError>) -> &'static str {
    match result {
        Err(ListError::Pagination(reason)) => reason,
        other => panic!("expected a pagination error, got {other:?}"),
    }
}

#[test]
fn page_validation_reports_each_failure() {
    assert_eq!(
        pagination_reason(validate_node_page(&page(vec![(), (), ()], None, false), &vec![1, 2, 3], None, 2)),
        "list page exceeded the requested page size"
    );
    assert_eq!(
        pagination_reason(validate_node_page(&page(vec![(), ()], Some(2), true), &vec![2, 2], None, 5)),
        "list page contained a duplicate or non-progressing key"
    );
    assert_eq!(
        pagination_reason(validate_node_page(&page(vec![()], Some(3), true), &vec![3], Some(3), 5)),
        "list page contained a duplicate or non-progressing key"
    );
    assert_eq!(
        pagination_reason(validate_node_page(&page(vec![()], Some(9), true), &vec![3], None, 5)),
        "incomplete list page did not provide a progressing cursor"
    );
    assert_eq!(
        pagination_reason(validate_node_page(&page::<()>(vec![], None, true), &vec![], None, 5)),
        "incomplete list page did not provide a progressing cursor"
    );
    assert_eq!(
        pagination_reason(validate_node_page(&page(vec![()], Some(3), false), &vec![3], None, 5)),
        "complete list page unexpectedly provided a continuation cursor"
    );
    assert_eq!(validate_node_page(&page(vec![(), ()], Some(7), true), &vec![4, 7], Some(1), 2).ok(), Some(Some(7)));
    assert_eq!(validate_node_page(&page(vec![()], None, false), &vec![4], Some(1), 2).ok(), Some(None));
}

#[test]
fn string_pages_are_ordered_by_bytes() {
    let keys = vec!["Zeta".to_string(), "alpha".to_string(), "alphabet".to_string()];
    let page = Page { items: vec![(), (), ()], next_after_id: Some("alphabet".to_string()), more_results: true };
    let next = validate_page(&page, &keys, Some(&"A".to_string()), 3).ok().flatten();
    assert_eq!(next.as_deref(), Some("alphabet"));
    let backwards = vec!["b".to_string(), "a".to_string()];
    let page = Page { items: vec![(), ()], next_after_id: None, more_results: false };
    assert!(validate_page(&page, &backwards, None, 3).is_err());
}

#[test]
fn tool_contract_pages_keep_their_fields() {
    let page = tool_contracts_page(vec![1, 2], Some("tool-b".to_string()), true);
    assert_eq!(page.items, vec![1, 2]);
    assert_eq!(page.next_after_id.as_deref(), Some("tool-b"));
    assert!(page.more_results);
}

#[test]
fn cursors_take_precedence_over_legacy_after_ids() {
    assert_eq!(numeric_cursor_or_legacy(None, Some(4), CursorKind::Link, "all").ok(), Some(Some(4)));
    let cursor = encode_numeric_cursor(CursorKind::Link, "all", 9).unwrap();
    assert_eq!(numeric_cursor_or_legacy(Some(&cursor), Some(4), CursorKind::Link, "all").ok(), Some(Some(9)));
    let error = numeric_cursor_or_legacy(Some(&cursor), None, CursorKind::Tag, "all").expect_err("wrong kind");
    assert_eq!(error.code, "INVALID_CURSOR");
    assert_eq!(error.message, "invalid list cursor: cursor kind or scope does not match this list");

    assert_eq!(string_cursor_or_legacy(None, Some("k"), CursorKind::Tool, "all").ok(), Some(Some("k".to_string())));
    assert_eq!(string_cursor_or_legacy(None, None, CursorKind::Tool, "all").ok(), Some(None));
    let cursor = encode_list_cursor(CursorKind::Tool, "all", "tool-a").unwrap();
    assert_eq!(
        string_cursor_or_legacy(Some(&cursor), Some("k"), CursorKind::Tool, "all").ok(),
        Some(Some("tool-a".to_string()))
    );
    assert!(string_cursor_or_legacy(Some("v1.tool.all.zz"), None, CursorKind::Tool, "all").is_err());
}

#[test]
fn list_failures_become_command_errors() {
    let error = ListError::Pagination("list page exceeded the requested page size").into_cli_error();
    assert_eq!(error.code, "PAGINATION_ERROR");
    assert_eq!(error.message, "list page exceeded the requested page size");
    let db = ListError::from(rusqlite::Error::InvalidQuery).into_cli_error();
    assert_eq!(db.code, "DB_SCHEMA_ERROR");
    assert_eq!(db.exit_code, 4);
}

#[test]
fn cross_kind_and_cross_scope_cursors_fail_before_database_access() {
    let wrong_alias_scope = encode_numeric_cursor(CursorKind::Alias, "node-8", 3).expect("wrong-scope cursor should encode");
    let wrong_tool_kind = encode_list_cursor(CursorKind::Mcp, "all", "инструмент").expect("wrong-kind cursor should encode");
    let wrong_mcp_kind = encode_list_cursor(CursorKind::Tool, "all", "сервер").expect("wrong-kind cursor should encode");

    let numeric = [
        ("v1.node.all.31".to_string(), CursorKind::Link, metadata_cursor_scope(None)),
        (wrong_alias_scope, CursorKind::Alias, metadata_cursor_scope(Some(7))),
        ("v1.alias.all.31".to_string(), CursorKind::Tag, metadata_cursor_scope(None)),
        ("v1.source.all.31".to_string(), CursorKind::Source, metadata_cursor_scope(Some(7))),
    ];
    for (cursor, kind, scope) in numeric {
        let error = numeric_cursor_or_legacy(Some(&cursor), None, kind, &scope).expect_err("cursor must be refused");
        assert_eq!(error.exit_code, EXIT_INVALID_ARGS);
    }
    for (cursor, kind) in [(wrong_tool_kind, CursorKind::Tool), (wrong_mcp_kind, CursorKind::Mcp)] {
        let error = string_cursor_or_legacy(Some(&cursor), None, kind, "all").expect_err("cursor must be refused");
        assert_eq!(error.exit_code, EXIT_INVALID_ARGS);
    }
}
