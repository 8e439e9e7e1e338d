use aopmem::cursor::CursorKind;
use aopmem::listing::{list_data, node_list_data, numeric_list_data, string_list_data};
use aopmem::pagination::ListError;
use serde_json::Value;

/// The object a JSON map holds for these members, rendered by serde_json.
fn rendered_map(members: Vec<(&str, Value)>) -> String {
    let mut map = serde_json::Map::new();
    for (key, value) in members {
        map.insert(key.to_string(), value);
    }
    serde_json::to_string(&Value::Object(map)).expect("map renders")
}

#[test]
fn list_data_orders_members_as_a_json_map_does() {
    for field in ["aliases", "links", "nodes", "profiles", "sources", "tags", "tools", "mcp", "next"] {
        let expected = rendered_map(vec![
            (field, Value::Array(vec![Value::from(1)])),
            ("next_cursor", Value::from("v1.tool.all.61")),
            ("more_results", Value::Bool(true)),
        ]);
        assert_eq!(list_data(field, "[1]", Some("v1.tool.all.61"), true), expected, "field {field}");
    }
    assert_eq!(list_data("tools", "[]", None, false), "{\"more_results\":false,\"next_cursor\":null,\"tools\":[]}");
    assert_eq!(list_data("aliases", "[]", None, false), "{\"aliases\":[],\"more_results\":false,\"next_cursor\":null}");
    assert_eq!(list_data("more_results", "[]", None, true), "{\"more_results\":true,\"next_cursor\":null}");
}

#[test]
fn list_data_encodes_the_next_cursor() {
    assert_eq!(
        string_list_data("tools", "[]", Some("ab"), true, CursorKind::Tool, "all").ok().as_deref(),
        Some("{\"more_results\":true,\"next_cursor\":\"v1.tool.all.6162\",\"tools\":[]}")
    );
    assert_eq!(
        numeric_list_data("links", "[]", Some(12), true, CursorKind::Link, "all").ok().as_deref(),
        Some("{\"links\":[],\"more_results\":true,\"next_cursor\":\"v1.link.all.3132\"}")
    );
    let too_long = "k".repeat(600);
    assert!(matches!(
        string_list_data("tools", "[]", Some(&too_long), true, CursorKind::Tool, "all"),
        Err(ListError::Pagination("cursor exceeds the 1024-byte limit"))
    ));
    assert!(matches!(
        numeric_list_data("links", "[]", Some(0), true, CursorKind::Link, "all"),
        Err(ListError::Pagination("numeric cursor key must be a positive integer"))
    ));
}

#[test]
fn node_list_data_has_every_member_in_key_order() {
    let data = node_list_data("[{\"id\":1}]", Some(1), true, true, false).expect("cursor encodes");
    let expected = rendered_map(vec![
        ("nodes", serde_json::from_str("[{\"id\":1}]").unwrap()),
        ("next_cursor", Value::from("v1.node.all.31")),
        ("more_results", Value::Bool(true)),
        ("body_omitted", Value::Bool(true)),
        ("content_truncated", Value::Bool(false)),
    ]);
    assert_eq!(data, expected);
    let done = node_list_data("[]", None, false, false, false).expect("no cursor");
    let parsed: Value = serde_json::from_str(&done).expect("valid JSON");
    assert!(parsed["next_cursor"].is_null());
}
