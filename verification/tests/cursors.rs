use aopmem::codes::MAX_CURSOR_BYTES;
use aopmem::cursor::{
    decode_list_cursor, decode_node_cursor, decode_numeric_cursor, encode_list_cursor, encode_node_cursor,
    encode_numeric_cursor, lowercase_hex_nibble, metadata_cursor_scope, CursorKind,
};

fn raw_key_cursor(key: &str) -> String {
    let payload = key.bytes().map(|byte| format!("{byte:02x}")).collect::<String>();
    format!("v1.node.all.{payload}")
}

#[test]
fn node_cursor_is_versioned_canonical_lowercase_hex() {
    assert_eq!(encode_node_cursor(12).expect("positive node id should encode"), "v1.node.all.3132");

    for id in [1, 7, 12, i64::MAX] {
        let cursor = encode_node_cursor(id).expect("positive node id should encode");
        assert_eq!(decode_node_cursor(&cursor), Ok(id));
    }
}

#[test]
fn node_cursor_rejects_wrong_scope_noncanonical_hex_and_invalid_keys() {
    let oversized = format!("v1.node.all.{}", "30".repeat(MAX_CURSOR_BYTES));
    let invalid = [
        "",
        "v2.node.all.31",
        "v1.link.all.31",
        "v1.node.active.31",
        "v1.node.all.",
        "v1.node.all.3",
        "v1.node.all.3A",
        "v1.node.all.zz",
        "v1.node.all.ff",
        "v1.node.all.78",
        "v1.node.all.30",
        "v1.node.all.3031",
        oversized.as_str(),
    ];

    for cursor in invalid {
        assert!(decode_node_cursor(cursor).is_err(), "cursor should be rejected: {cursor}");
    }
    assert!(decode_node_cursor(&raw_key_cursor("9223372036854775808")).is_err());
}

#[test]
fn list_cursor_binds_kind_scope_and_round_trips_unicode_keys() {
    let tool_key = "инструмент-α";
    let mcp_key = "сервер-東京-🦀";
    let tool_cursor = encode_list_cursor(CursorKind::Tool, "all", tool_key).expect("Unicode tool key should encode");
    let mcp_cursor = encode_list_cursor(CursorKind::Mcp, "all", mcp_key).expect("Unicode MCP key should encode");

    assert_eq!(decode_list_cursor(&tool_cursor, CursorKind::Tool, "all").as_deref(), Ok(tool_key));
    assert_eq!(decode_list_cursor(&mcp_cursor, CursorKind::Mcp, "all").as_deref(), Ok(mcp_key));
    assert!(tool_cursor
        .rsplit_once('.')
        .expect("cursor should contain payload")
        .1
        .bytes()
        .all(|byte| byte.is_ascii_digit() || (b'a'..=b'f').contains(&byte)));
    assert!(decode_list_cursor(&tool_cursor, CursorKind::Mcp, "all").is_err());

    let scoped = encode_numeric_cursor(CursorKind::Alias, "node-7", 12).expect("metadata cursor should encode");
    assert_eq!(decode_numeric_cursor(&scoped, CursorKind::Alias, "node-7"), Ok(12));
    assert!(decode_numeric_cursor(&scoped, CursorKind::Alias, "node-8").is_err());
    assert!(decode_numeric_cursor(&scoped, CursorKind::Tag, "node-7").is_err());
}

#[test]
fn cursor_kinds_have_stable_names() {
    let names: Vec<&str> = [
        CursorKind::Node,
        CursorKind::Link,
        CursorKind::Alias,
        CursorKind::Tag,
        CursorKind::Source,
        CursorKind::Tool,
        CursorKind::Mcp,
    ]
    .iter()
    .map(|kind| kind.as_str())
    .collect();
    assert_eq!(names, vec!["node", "link", "alias", "tag", "source", "tool", "mcp"]);
}

#[test]
fn list_cursor_encodes_key_bytes_as_lowercase_hex() {
    assert_eq!(encode_list_cursor(CursorKind::Tool, "all", "ab").unwrap(), "v1.tool.all.6162");
    assert_eq!(encode_numeric_cursor(CursorKind::Link, "all", 255).unwrap(), "v1.link.all.323535");
}

#[test]
fn list_cursor_rejects_empty_keys_and_oversized_cursors() {
    assert!(encode_list_cursor(CursorKind::Tool, "all", "").is_err());
    assert!(encode_numeric_cursor(CursorKind::Node, "all", 0).is_err());
    assert!(encode_numeric_cursor(CursorKind::Node, "all", -5).is_err());
    let long_key = "k".repeat(MAX_CURSOR_BYTES);
    assert!(encode_list_cursor(CursorKind::Tool, "all", &long_key).is_err());
    assert!(decode_list_cursor("v1.tool.all.", CursorKind::Tool, "all").is_err());
    assert!(decode_list_cursor("v1.tool.all.4", CursorKind::Tool, "all").is_err());
    assert!(decode_list_cursor("v1.tool.all.4G", CursorKind::Tool, "all").is_err());
}

#[test]
fn hex_nibbles_are_lowercase_only() {
    assert_eq!(lowercase_hex_nibble(b'0'), Ok(0));
    assert_eq!(lowercase_hex_nibble(b'9'), Ok(9));
    assert_eq!(lowercase_hex_nibble(b'a'), Ok(10));
    assert_eq!(lowercase_hex_nibble(b'f'), Ok(15));
    assert!(lowercase_hex_nibble(b'A').is_err());
    assert!(lowercase_hex_nibble(b'g').is_err());
}

#[test]
fn metadata_cursor_scope_names_the_node() {
    assert_eq!(metadata_cursor_scope(Some(7)), "node-7");
    assert_eq!(metadata_cursor_scope(None), "all");
}
