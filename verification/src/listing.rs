//! The data of list commands: one page of items, the opaque cursor of the next
//! page, and whether more results follow, as a JSON object whose members are in
//! key order.
use vstd::prelude::*;
use vstd::string::*;
use crate::outside::json_quoted;
use crate::envelope::{comma_joined, json_bool, push_quoted, push_bool, lemma_comma_joined_step};
use crate::pagination::{ListError, bytes_before, text_before};
use crate::cursor::{
    CursorKind, encode_list_cursor, encode_numeric_cursor, encode_node_cursor, encoded_list_cursor,
    encoded_numeric_cursor, all_scope,
};
use crate::text::same_text;

verus! {

/// One member of a JSON object: the quoted key, a colon, the rendered value.
pub open spec fn json_member(key: Seq<char>, value: Seq<char>) -> Seq<char> {
    json_quoted(key) + seq![':'] + value
}

/// A JSON object of rendered members, in the given order.
pub open spec fn json_object(members: Seq<Seq<char>>) -> Seq<char> {
    seq!['{'] + comma_joined(members) + seq!['}']
}

/// A cursor as a JSON value: its string, or `null`.
pub open spec fn json_cursor(cursor: Option<Seq<char>>) -> Seq<char> {
    match cursor {
        Some(c) => json_quoted(c),
        None => seq!['n', 'u', 'l', 'l'],
    }
}

/// The members of a list page, ordered by key as a JSON map orders them: the items
/// under `field`, `more_results` and `next_cursor`. A field named like one of the
/// other two is overwritten by it.
pub open spec fn list_members(field: Seq<char>, items: Seq<char>, cursor: Option<Seq<char>>, more: bool) -> Seq<Seq<char>> {
    let f = json_member(field, items);
    let m = json_member("more_results"@, json_bool(more));
    let n = json_member("next_cursor"@, json_cursor(cursor));
    if field == "more_results"@ || field == "next_cursor"@ {
        seq![m, n]
    } else if bytes_before(vstd::utf8::encode_utf8(field), vstd::utf8::encode_utf8("more_results"@)) {
        seq![f, m, n]
    } else if bytes_before(vstd::utf8::encode_utf8(field), vstd::utf8::encode_utf8("next_cursor"@)) {
        seq![m, f, n]
    } else {
        seq![m, n, f]
    }
}

/// Appends one member.
fn push_member(out: &mut String, key: &str, value: &str)
    ensures
        final(out)@ == old(out)@ + json_member(key@, value@),
{
    push_quoted(out, key);
    out.append(":");
    out.append(value);
    proof { reveal_strlit(":"); assert(":"@ =~= seq![':']); }
    assert(final(out)@ =~= old(out)@ + json_member(key@, value@));
}

/// The rendered JSON value of a cursor.
fn cursor_value(cursor: Option<&str>) -> (r: String)
    ensures
        r@ == json_cursor(match cursor { Some(c) => Some(c@), None => None }),
{
    let mut out = String::new();
    match cursor {
        Some(c) => push_quoted(&mut out, c),
        None => {
            out.append("null");
            proof { reveal_strlit("null"); }
            assert(out@ =~= seq!['n', 'u', 'l', 'l']);
        },
    }
    out
}

/// The rendered JSON value of a flag.
fn bool_value(b: bool) -> (r: String)
    ensures
        r@ == json_bool(b),
{
    let mut out = String::new();
    push_bool(&mut out, b);
    assert(out@ =~= json_bool(b));
    out
}

/// Renders an object of three members given in order.
fn object_of_three(k1: &str, v1: &str, k2: &str, v2: &str, k3: &str, v3: &str) -> (r: String)
    ensures
        r@ == json_object(seq![json_member(k1@, v1@), json_member(k2@, v2@), json_member(k3@, v3@)]),
{
    let mut out = String::new();
    out.append("{");
    push_member(&mut out, k1, v1);
    out.append(",");
    push_member(&mut out, k2, v2);
    out.append(",");
    push_member(&mut out, k3, v3);
    out.append("}");
    proof {
        reveal_strlit("{");
        reveal_strlit(",");
        reveal_strlit("}");
        assert("{"@ =~= seq!['{']);
        assert(","@ =~= seq![',']);
        assert("}"@ =~= seq!['}']);
        let a = json_member(k1@, v1@);
        let b = json_member(k2@, v2@);
        let c = json_member(k3@, v3@);
        let parts = seq![a, b, c];
        assert(comma_joined(seq![a]) == a);
        assert(seq![a, b].drop_last() =~= seq![a]);
        assert(comma_joined(seq![a, b]) == a + seq![','] + b);
        assert(parts.drop_last() =~= seq![a, b]);
        assert(comma_joined(parts) == a + seq![','] + b + seq![','] + c);
    }
    assert(out@ =~= json_object(seq![json_member(k1@, v1@), json_member(k2@, v2@), json_member(k3@, v3@)]));
    out
}

/// Renders an object of two members given in order.
fn object_of_two(k1: &str, v1: &str, k2: &str, v2: &str) -> (r: String)
    ensures
        r@ == json_object(seq![json_member(k1@, v1@), json_member(k2@, v2@)]),
{
    let mut out = String::new();
    out.append("{");
    push_member(&mut out, k1, v1);
    out.append(",");
    push_member(&mut out, k2, v2);
    out.append("}");
    proof {
        reveal_strlit("{");
        reveal_strlit(",");
        reveal_strlit("}");
        assert("{"@ =~= seq!['{']);
        assert(","@ =~= seq![',']);
        assert("}"@ =~= seq!['}']);
        let a = json_member(k1@, v1@);
        let b = json_member(k2@, v2@);
        assert(comma_joined(seq![a]) == a);
        assert(seq![a, b].drop_last() =~= seq![a]);
        assert(comma_joined(seq![a, b]) == a + seq![','] + b);
    }
    assert(out@ =~= json_object(seq![json_member(k1@, v1@), json_member(k2@, v2@)]));
    out
}

/// The data of a list page: `items_json` (the page's items, already rendered) under
/// `field`, the next cursor, and whether more results follow.
pub fn list_data(field: &str, items_json: &str, next_cursor: Option<&str>, more_results: bool) -> (r: String)
    ensures
        r@ == json_object(list_members(field@, items_json@,
            match next_cursor { Some(c) => Some(c@), None => None }, more_results)),
{
    let cursor = cursor_value(next_cursor);
    let more = bool_value(more_results);
    if same_text(field, "more_results") || same_text(field, "next_cursor") {
        object_of_two("more_results", more.as_str(), "next_cursor", cursor.as_str())
    } else if text_before(field, "more_results") {
        object_of_three(field, items_json, "more_results", more.as_str(), "next_cursor", cursor.as_str())
    } else if text_before(field, "next_cursor") {
        object_of_three("more_results", more.as_str(), field, items_json, "next_cursor", cursor.as_str())
    } else {
        object_of_three("more_results", more.as_str(), "next_cursor", cursor.as_str(), field, items_json)
    }
}

/// The data of a page of a string-keyed list; the cursor binds the list's kind and
/// scope. A key too long for a cursor fails the page.
pub fn string_list_data(
    field: &str,
    items_json: &str,
    next_after_id: Option<&str>,
    more_results: bool,
    kind: CursorKind,
    scope: &str,
) -> (r: Result<String, ListError>)
    ensures
        match next_after_id {
            None => r matches Ok(d) && d@ == json_object(list_members(field@, items_json@, None, more_results)),
            Some(key) => match encoded_list_cursor(kind, scope@, key@) {
                Ok(c) => r matches Ok(d) && d@ == json_object(list_members(field@, items_json@, Some(c), more_results)),
                Err(m) => r matches Err(ListError::Pagination(reason)) && reason@ == m,
            },
        },
{
    match next_after_id {
        None => Ok(list_data(field, items_json, None, more_results)),
        Some(key) => match encode_list_cursor(kind, scope, key) {
            Ok(cursor) => Ok(list_data(field, items_json, Some(cursor.as_str()), more_results)),
            Err(reason) => Err(ListError::Pagination(reason)),
        },
    }
}

/// The data of a page of a list keyed by id.
pub fn numeric_list_data(
    field: &str,
    items_json: &str,
    next_after_id: Option<i64>,
    more_results: bool,
    kind: CursorKind,
    scope: &str,
) -> (r: Result<String, ListError>)
    ensures
        match next_after_id {
            None => r matches Ok(d) && d@ == json_object(list_members(field@, items_json@, None, more_results)),
            Some(id) => match encoded_numeric_cursor(kind, scope@, id as int) {
                Ok(c) => r matches Ok(d) && d@ == json_object(list_members(field@, items_json@, Some(c), more_results)),
                Err(m) => r matches Err(ListError::Pagination(reason)) && reason@ == m,
            },
        },
{
    match next_after_id {
        None => Ok(list_data(field, items_json, None, more_results)),
        Some(id) => match encode_numeric_cursor(kind, scope, id) {
            Ok(cursor) => Ok(list_data(field, items_json, Some(cursor.as_str()), more_results)),
            Err(reason) => Err(ListError::Pagination(reason)),
        },
    }
}

/// Renders an object whose members are `keys[i]` with the rendered `values[i]`, in order.
fn render_object(keys: &Vec<&str>, values: &Vec<String>) -> (r: String)
    requires
        keys@.len() == values@.len(),
    ensures
        r@ == json_object(Seq::new(keys@.len(), |i: int| json_member(keys@[i]@, values@[i]@))),
{
    let ghost members = Seq::new(keys@.len(), |i: int| json_member(keys@[i]@, values@[i]@));
    let mut out = String::new();
    out.append("{");
    proof { reveal_strlit("{"); assert("{"@ =~= seq!['{']); }
    assert(members.take(0) =~= Seq::<Seq<char>>::empty());
    let mut i: usize = 0;
    while i < keys.len()
        invariant
            keys@.len() == values@.len(),
            i <= keys@.len(),
            members == Seq::new(keys@.len(), |i: int| json_member(keys@[i]@, values@[i]@)),
            out@ == seq!['{'] + comma_joined(members.take(i as int)),
        decreases keys@.len() - i,
    {
        proof {
            lemma_comma_joined_step(members, i as int);
            reveal_strlit(",");
            assert(","@ =~= seq![',']);
        }
        if i > 0 {
            out.append(",");
        }
        push_member(&mut out, keys[i], values[i].as_str());
        assert(out@ =~= seq!['{'] + comma_joined(members.take(i + 1)));
        i = i + 1;
    }
    out.append("}");
    proof { reveal_strlit("}"); assert("}"@ =~= seq!['}']); }
    assert(members.take(keys@.len() as int) =~= members);
    assert(out@ =~= json_object(members));
    out
}

/// The data of a page of the node list: whether bodies were left out, whether content
/// was truncated, whether more results follow, the next cursor and the nodes, already
/// rendered, in key order.
pub fn node_list_data(
    nodes_json: &str,
    next_after_id: Option<i64>,
    more_results: bool,
    body_omitted: bool,
    content_truncated: bool,
) -> (r: Result<String, ListError>)
    ensures
        ({
            let members = |cursor: Option<Seq<char>>| seq![
                json_member("body_omitted"@, json_bool(body_omitted)),
                json_member("content_truncated"@, json_bool(content_truncated)),
                json_member("more_results"@, json_bool(more_results)),
                json_member("next_cursor"@, json_cursor(cursor)),
                json_member("nodes"@, nodes_json@),
            ];
            match next_after_id {
                None => r matches Ok(d) && d@ == json_object(members(None)),
                Some(id) => match encoded_numeric_cursor(CursorKind::Node, all_scope(), id as int) {
                    Ok(c) => r matches Ok(d) && d@ == json_object(members(Some(c))),
                    Err(m) => r matches Err(ListError::Pagination(reason)) && reason@ == m,
                },
            }
        }),
{
    let cursor = match next_after_id {
        None => None,
        Some(id) => match encode_node_cursor(id) {
            Ok(c) => Some(c),
            Err(reason) => return Err(ListError::Pagination(reason)),
        },
    };
    let cursor_json = match &cursor {
        Some(c) => cursor_value(Some(c.as_str())),
        None => cursor_value(None),
    };
    let mut keys: Vec<&str> = Vec::new();
    let mut values: Vec<String> = Vec::new();
    keys.push("body_omitted");
    values.push(bool_value(body_omitted));
    keys.push("content_truncated");
    values.push(bool_value(content_truncated));
    keys.push("more_results");
    values.push(bool_value(more_results));
    keys.push("next_cursor");
    values.push(cursor_json);
    keys.push("nodes");
    values.push(crate::error::text(nodes_json));
    let r = render_object(&keys, &values);
    proof {
        let c = match cursor { Some(c) => Some(c@), None => None };
        let expected = seq![
            json_member("body_omitted"@, json_bool(body_omitted)),
            json_member("content_truncated"@, json_bool(content_truncated)),
            json_member("more_results"@, json_bool(more_results)),
            json_member("next_cursor"@, json_cursor(c)),
            json_member("nodes"@, nodes_json@),
        ];
        assert(Seq::new(keys@.len(), |i: int| json_member(keys@[i]@, values@[i]@)) =~= expected);
    }
    Ok(r)
}

} // verus!
