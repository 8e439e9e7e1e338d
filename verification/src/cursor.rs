//! Opaque keyset cursors for list commands.
//!
//! A cursor is `v1.<kind>.<scope>.` followed by the lowercase hexadecimal
//! encoding of the UTF-8 bytes of the last key of a page.  Decoding accepts
//! exactly the text that encoding produces for the same kind and scope.
use vstd::prelude::*;
use vstd::string::*;
use vstd::utf8::*;
use crate::codes::MAX_CURSOR_BYTES;
use crate::text::{push_char, signed_decimal, utf8_text, same_text, lemma_encode_utf8_concat, lemma_same_bytes_same_text, decimal_digits, parsed_i64, parse_i64_text, signed_decimal_text, lemma_decimal_parses_as_i64};

verus! {

broadcast use vstd::utf8::group_utf8_lib;

/// The list a cursor belongs to.
#[derive(Debug, Clone, Copy, PartialEq, Eq, Structural)]
pub enum CursorKind {
    Node,
    Link,
    Alias,
    Tag,
    Source,
    Tool,
    Mcp,
}

/// The name of a cursor kind as it appears in a cursor.
pub open spec fn kind_name(kind: CursorKind) -> Seq<char> {
    match kind {
        CursorKind::Node => seq!['n', 'o', 'd', 'e'],
        CursorKind::Link => seq!['l', 'i', 'n', 'k'],
        CursorKind::Alias => seq!['a', 'l', 'i', 'a', 's'],
        CursorKind::Tag => seq!['t', 'a', 'g'],
        CursorKind::Source => seq!['s', 'o', 'u', 'r', 'c', 'e'],
        CursorKind::Tool => seq!['t', 'o', 'o', 'l'],
        CursorKind::Mcp => seq!['m', 'c', 'p'],
    }
}

impl CursorKind {
    /// The name of this kind in a cursor.
    pub fn as_str(self) -> (r: &'static str)
        ensures
            r@ == kind_name(self),
    {
        match self {
            CursorKind::Node => {
                proof { reveal_strlit("node"); }
                "node"
            },
            CursorKind::Link => {
                proof { reveal_strlit("link"); }
                "link"
            },
            CursorKind::Alias => {
                proof { reveal_strlit("alias"); }
                "alias"
            },
            CursorKind::Tag => {
                proof { reveal_strlit("tag"); }
                "tag"
            },
            CursorKind::Source => {
                proof { reveal_strlit("source"); }
                "source"
            },
            CursorKind::Tool => {
                proof { reveal_strlit("tool"); }
                "tool"
            },
            CursorKind::Mcp => {
                proof { reveal_strlit("mcp"); }
                "mcp"
            },
        }
    }
}

/// `v1.<kind>.<scope>.`
pub open spec fn cursor_prefix(kind: CursorKind, scope: Seq<char>) -> Seq<char> {
    seq!['v', '1', '.'] + kind_name(kind) + seq!['.'] + scope + seq!['.']
}

/// Lowercase hexadecimal digit of `n < 16`, as a byte.
pub open spec fn hex_digit_byte(n: int) -> u8 {
    if n < 10 {
        (48 + n) as u8
    } else {
        (87 + n) as u8
    }
}

/// Lowercase hexadecimal encoding of bytes, two digits per byte, high nibble first.
pub open spec fn hex_bytes(bytes: Seq<u8>) -> Seq<u8>
    decreases bytes.len(),
{
    if bytes.len() == 0 {
        seq![]
    } else {
        hex_bytes(bytes.drop_last()) + seq![
            hex_digit_byte(bytes.last() as int / 16),
            hex_digit_byte(bytes.last() as int % 16),
        ]
    }
}

/// The same encoding as characters.
pub open spec fn hex_chars(bytes: Seq<u8>) -> Seq<char> {
    hex_bytes(bytes).map_values(|b: u8| b as char)
}

/// Is `b` one of `0-9a-f`?
pub open spec fn is_lower_hex(b: u8) -> bool {
    (48 <= b <= 57) || (97 <= b <= 102)
}

/// The value of a lowercase hexadecimal digit.
pub open spec fn lower_hex_value(b: u8) -> int {
    if b <= 57 {
        b - 48
    } else {
        b - 87
    }
}

/// Decoding of an even-length run of lowercase hexadecimal digits.
pub open spec fn hex_decode(payload: Seq<u8>) -> Seq<u8>
    decreases payload.len(),
{
    if payload.len() < 2 {
        seq![]
    } else {
        let n = payload.len();
        hex_decode(payload.subrange(0, n - 2)).push(
            (lower_hex_value(payload[n - 2]) * 16 + lower_hex_value(payload[n - 1])) as u8,
        )
    }
}

/// The cursor text for the last key `key` of a page of the list `kind`/`scope`.
pub open spec fn list_cursor_text(kind: CursorKind, scope: Seq<char>, key: Seq<char>) -> Seq<char> {
    cursor_prefix(kind, scope) + hex_chars(encode_utf8(key))
}

/// What `encode_list_cursor` returns.
pub open spec fn encoded_list_cursor(kind: CursorKind, scope: Seq<char>, key: Seq<char>) -> Result<Seq<char>, Seq<char>> {
    if key.len() == 0 {
        Err("cursor key must not be empty"@)
    } else if encode_utf8(list_cursor_text(kind, scope, key)).len() > MAX_CURSOR_BYTES {
        Err("cursor exceeds the 1024-byte limit"@)
    } else {
        Ok(list_cursor_text(kind, scope, key))
    }
}

/// What `decode_list_cursor` returns, stated on the cursor's bytes.
pub open spec fn decoded_list_cursor(kind: CursorKind, scope: Seq<char>, cursor: Seq<char>) -> Result<Seq<char>, Seq<char>> {
    let cb = encode_utf8(cursor);
    let pb = encode_utf8(cursor_prefix(kind, scope));
    if cb.len() > MAX_CURSOR_BYTES {
        Err("cursor exceeds the 1024-byte limit"@)
    } else if !(pb.len() <= cb.len() && cb.subrange(0, pb.len() as int) == pb) {
        Err("cursor kind or scope does not match this list"@)
    } else {
        let payload = cb.skip(pb.len() as int);
        if payload.len() == 0 || payload.len() % 2 != 0 {
            Err("cursor payload must be non-empty, even-length lowercase hex"@)
        } else if exists|i: int| 0 <= i < payload.len() && !is_lower_hex(#[trigger] payload[i]) {
            Err("cursor payload must use lowercase hex"@)
        } else if !valid_utf8(hex_decode(payload)) {
            Err("cursor key must be valid UTF-8"@)
        } else {
            Ok(decode_utf8(hex_decode(payload)))
        }
    }
}


proof fn lemma_hex_digit(n: int)
    requires
        0 <= n < 16,
    ensures
        is_lower_hex(hex_digit_byte(n)),
        lower_hex_value(hex_digit_byte(n)) == n,
        hex_digit_byte(n) < 128,
        hex_digit_byte(n) != 46u8,
{
}

/// Facts about the hexadecimal encoding of a byte string.
proof fn lemma_hex_bytes(bytes: Seq<u8>)
    ensures
        hex_bytes(bytes).len() == 2 * bytes.len(),
        forall|i: int| 0 <= i < hex_bytes(bytes).len() ==> is_lower_hex(#[trigger] hex_bytes(bytes)[i]),
        forall|i: int| 0 <= i < hex_bytes(bytes).len() ==> #[trigger] hex_bytes(bytes)[i] < 128,
        hex_decode(hex_bytes(bytes)) == bytes,
    decreases bytes.len(),
{
    if bytes.len() > 0 {
        let prev = bytes.drop_last();
        lemma_hex_bytes(prev);
        let b = bytes.last() as int;
        lemma_hex_digit(b / 16);
        lemma_hex_digit(b % 16);
        let h = hex_bytes(bytes);
        let hp = hex_bytes(prev);
        assert(h == hp + seq![hex_digit_byte(b / 16), hex_digit_byte(b % 16)]);
        assert forall|i: int| 0 <= i < h.len() implies is_lower_hex(#[trigger] h[i]) && h[i] < 128 by {
            if i < hp.len() {
                assert(h[i] == hp[i]);
            }
        }
        assert(h.subrange(0, h.len() - 2) =~= hp);
        assert(b == (b / 16) * 16 + b % 16);
        assert(hex_decode(h) =~= bytes);
    } else {
        assert(hex_bytes(bytes) =~= Seq::<u8>::empty());
    }
}

/// Decoding then encoding an even run of lowercase digits gives the run back.
proof fn lemma_hex_decode_bytes(payload: Seq<u8>)
    requires
        payload.len() % 2 == 0,
        forall|i: int| 0 <= i < payload.len() ==> is_lower_hex(#[trigger] payload[i]),
    ensures
        hex_bytes(hex_decode(payload)) == payload,
        hex_decode(payload).len() * 2 == payload.len(),
    decreases payload.len(),
{
    if payload.len() >= 2 {
        let n = payload.len();
        let prev = payload.subrange(0, n - 2);
        lemma_hex_decode_bytes(prev);
        let hi = lower_hex_value(payload[n - 2]);
        let lo = lower_hex_value(payload[n - 1]);
        let v = (hi * 16 + lo) as u8;
        assert(0 <= hi < 16 && 0 <= lo < 16);
        assert(v as int / 16 == hi && v as int % 16 == lo);
        let d = hex_decode(payload);
        assert(d.drop_last() =~= hex_decode(prev));
        assert(d.last() == v);
        assert(hex_digit_byte(hi) == payload[n - 2]);
        assert(hex_digit_byte(lo) == payload[n - 1]);
        assert(hex_bytes(d) =~= payload);
    } else {
        assert(payload =~= Seq::<u8>::empty());
    }
}

/// The hexadecimal characters are ASCII, so their UTF-8 bytes are the digit bytes.
proof fn lemma_hex_chars_utf8(bytes: Seq<u8>)
    ensures
        encode_utf8(hex_chars(bytes)) == hex_bytes(bytes),
        hex_chars(bytes).len() == hex_bytes(bytes).len(),
{
    lemma_hex_bytes(bytes);
    let cs = hex_chars(bytes);
    let hb = hex_bytes(bytes);
    assert(is_ascii_chars(cs)) by {
        assert forall|i: int| 0 <= i < cs.len() implies '\0' <= #[trigger] cs[i] <= '\u{7f}' by {
            assert(cs[i] == hb[i] as char);
            assert(hb[i] < 128);
        }
    }
    is_ascii_chars_encode_utf8(cs);
    assert forall|i: int| 0 <= i < hb.len() implies encode_utf8(cs)[i] == hb[i] by {
        assert(cs[i] == hb[i] as char);
        assert((hb[i] as char) as u8 == hb[i]);
    }
    assert(encode_utf8(cs) =~= hb);
}

/// The bytes of a cursor are the prefix bytes followed by the hexadecimal digits.
proof fn lemma_list_cursor_bytes(kind: CursorKind, scope: Seq<char>, key: Seq<char>)
    ensures
        encode_utf8(list_cursor_text(kind, scope, key))
            == encode_utf8(cursor_prefix(kind, scope)) + hex_bytes(encode_utf8(key)),
{
    lemma_encode_utf8_concat(cursor_prefix(kind, scope), hex_chars(encode_utf8(key)));
    lemma_hex_chars_utf8(encode_utf8(key));
}

/// The lowercase hexadecimal value of one payload byte.
pub fn lowercase_hex_nibble(byte: u8) -> (r: Result<u8, &'static str>)
    ensures
        match r {
            Ok(v) => is_lower_hex(byte) && v as int == lower_hex_value(byte),
            Err(e) => !is_lower_hex(byte) && e@ == "cursor payload must use lowercase hex"@,
        },
{
    if 48u8 <= byte && byte <= 57u8 {
        Ok(byte - 48u8)
    } else if 97u8 <= byte && byte <= 102u8 {
        Ok(byte - 97u8 + 10u8)
    } else {
        Err("cursor payload must use lowercase hex")
    }
}

fn hex_digit(n: u8) -> (c: char)
    requires
        n < 16,
    ensures
        c == hex_digit_byte(n as int) as char,
{
    if n < 10 {
        (48u8 + n) as char
    } else {
        (87u8 + n) as char
    }
}

/// The cursor prefix `v1.<kind>.<scope>.`.
fn cursor_prefix_text(kind: CursorKind, scope: &str) -> (s: String)
    ensures
        s@ == cursor_prefix(kind, scope@),
{
    let mut s = String::new();
    push_char(&mut s, 'v');
    push_char(&mut s, '1');
    push_char(&mut s, '.');
    s.append(kind.as_str());
    push_char(&mut s, '.');
    s.append(scope);
    push_char(&mut s, '.');
    assert(s@ =~= cursor_prefix(kind, scope@));
    s
}

/// Encodes the last key of a page as the cursor of the list `kind`/`scope`.
pub fn encode_list_cursor(kind: CursorKind, scope: &str, key: &str) -> (r: Result<String, &'static str>)
    ensures
        match r {
            Ok(c) => encoded_list_cursor(kind, scope@, key@) == Ok::<Seq<char>, Seq<char>>(c@),
            Err(e) => encoded_list_cursor(kind, scope@, key@) == Err::<Seq<char>, Seq<char>>(e@),
        },
{
    if key.is_empty() {
        return Err("cursor key must not be empty");
    }
    let mut cursor = cursor_prefix_text(kind, scope);
    let ghost prefix = cursor@;
    let bytes = key.as_bytes();
    let n = bytes.len();
    let mut i: usize = 0;
    while i < n
        invariant
            n == bytes@.len(),
            bytes@ == encode_utf8(key@),
            i <= n,
            cursor@ == prefix + hex_chars(bytes@.subrange(0, i as int)),
        decreases n - i,
    {
        let byte = bytes[i];
        let high = byte >> 4;
        let low = byte & 0x0f;
        assert(high == byte / 16 && low == byte % 16) by (bit_vector)
            requires high == byte >> 4, low == byte & 0x0f;
        push_char(&mut cursor, hex_digit(high));
        push_char(&mut cursor, hex_digit(low));
        proof {
            let next = bytes@.subrange(0, i + 1);
            assert(next.drop_last() =~= bytes@.subrange(0, i as int));
            assert(hex_chars(next) =~= hex_chars(bytes@.subrange(0, i as int)).push(
                hex_digit_byte(byte as int / 16) as char).push(hex_digit_byte(byte as int % 16) as char));
        }
        i = i + 1;
    }
    assert(bytes@.subrange(0, n as int) =~= bytes@);
    assert(cursor@ == list_cursor_text(kind, scope@, key@));
    if cursor.as_str().as_bytes().len() > MAX_CURSOR_BYTES {
        return Err("cursor exceeds the 1024-byte limit");
    }
    Ok(cursor)
}

/// Does `text` start with `prefix`?
fn starts_with_bytes(text: &[u8], prefix: &[u8]) -> (r: bool)
    ensures
        r == (prefix@.len() <= text@.len() && text@.subrange(0, prefix@.len() as int) == prefix@),
{
    if prefix.len() > text.len() {
        return false;
    }
    let plen = prefix.len();
    let mut j: usize = 0;
    while j < plen
        invariant
            plen == prefix@.len(),
            plen <= text@.len(),
            j <= plen,
            forall|m: int| 0 <= m < j ==> text@[m] == prefix@[m],
        decreases plen - j,
    {
        if text[j] != prefix[j] {
            assert(text@.subrange(0, plen as int)[j as int] != prefix@[j as int]);
            return false;
        }
        j = j + 1;
    }
    assert(text@.subrange(0, plen as int) =~= prefix@);
    true
}

/// Decodes the lowercase hexadecimal payload `bytes[start..]`, of even, non-zero length.
fn decode_hex_payload(bytes: &[u8], start: usize) -> (r: Result<Vec<u8>, &'static str>)
    requires
        start <= bytes@.len(),
        (bytes@.len() - start) % 2 == 0,
    ensures
        match r {
            Ok(v) => (forall|i: int| 0 <= i < bytes@.skip(start as int).len()
                    ==> is_lower_hex(#[trigger] bytes@.skip(start as int)[i]))
                && v@ == hex_decode(bytes@.skip(start as int)),
            Err(e) => (exists|i: int| 0 <= i < bytes@.skip(start as int).len()
                    && !is_lower_hex(#[trigger] bytes@.skip(start as int)[i]))
                && e@ == "cursor payload must use lowercase hex"@,
        },
{
    let ghost payload = bytes@.skip(start as int);
    let blen = bytes.len();
    let total = blen - start;
    let pairs = total / 2;
    let mut key_bytes: Vec<u8> = Vec::new();
    let mut k: usize = 0;
    while k < pairs
        invariant
            pairs * 2 == total,
            total == payload.len(),
            start + total == blen,
            blen == bytes@.len(),
            payload == bytes@.skip(start as int),
            k <= pairs,
            forall|m: int| 0 <= m < 2 * k ==> is_lower_hex(#[trigger] payload[m]),
            key_bytes@ == hex_decode(payload.subrange(0, 2 * k)),
        decreases pairs - k,
    {
        let at = start + 2 * k;
        assert(payload[2 * k as int] == bytes@[at as int]);
        assert(payload[2 * k + 1] == bytes@[at + 1]);
        let high = match lowercase_hex_nibble(bytes[at]) {
            Ok(v) => v,
            Err(e) => { return Err(e); },
        };
        let low = match lowercase_hex_nibble(bytes[at + 1]) {
            Ok(v) => v,
            Err(e) => { return Err(e); },
        };
        let value = (high << 4) | low;
        assert(value == high * 16 + low) by (bit_vector)
            requires high < 16 && low < 16 && value == (high << 4) | low;
        proof {
            let next = payload.subrange(0, 2 * k + 2);
            assert(next.subrange(0, 2 * k) =~= payload.subrange(0, 2 * k));
        }
        key_bytes.push(value);
        k = k + 1;
    }
    assert(payload.subrange(0, total as int) =~= payload);
    Ok(key_bytes)
}

/// Decodes a cursor of the list `kind`/`scope` back into the last key of the previous page.
pub fn decode_list_cursor(cursor: &str, kind: CursorKind, scope: &str) -> (r: Result<String, &'static str>)
    ensures
        match r {
            Ok(k) => decoded_list_cursor(kind, scope@, cursor@) == Ok::<Seq<char>, Seq<char>>(k@),
            Err(e) => decoded_list_cursor(kind, scope@, cursor@) == Err::<Seq<char>, Seq<char>>(e@),
        },
{
    if cursor.as_bytes().len() > MAX_CURSOR_BYTES {
        return Err("cursor exceeds the 1024-byte limit");
    }
    let prefix = cursor_prefix_text(kind, scope);
    let pb = prefix.as_str().as_bytes();
    let cb = cursor.as_bytes();
    if !starts_with_bytes(cb, pb) {
        return Err("cursor kind or scope does not match this list");
    }
    let plen = pb.len();
    let ghost payload = cb@.skip(plen as int);
    let total = cb.len() - plen;
    if total == 0 || total % 2 != 0 {
        return Err("cursor payload must be non-empty, even-length lowercase hex");
    }
    let key_bytes = match decode_hex_payload(cb, plen) {
        Ok(v) => v,
        Err(e) => { return Err(e); },
    };
    let key = match utf8_text(key_bytes.as_slice()) {
        Ok(t) => t,
        Err(_) => { return Err("cursor key must be valid UTF-8"); },
    };
    proof {
        encode_utf8_decode_utf8(key@);
        lemma_list_cursor_canonical(kind, scope@, cursor@);
    }
    if key.is_empty() {
        return Err("cursor key must not be empty");
    }
    let canonical = match encode_list_cursor(kind, scope, key) {
        Ok(c) => c,
        Err(e) => { return Err(e); },
    };
    if !same_text(canonical.as_str(), cursor) {
        return Err("cursor is not canonical");
    }
    Ok(key.to_owned())
}


/// The scope of every list that is not filtered.
pub open spec fn all_scope() -> Seq<char> {
    seq!['a', 'l', 'l']
}

/// What `encode_numeric_cursor` returns.
pub open spec fn encoded_numeric_cursor(kind: CursorKind, scope: Seq<char>, id: int) -> Result<Seq<char>, Seq<char>> {
    if id <= 0 {
        Err("numeric cursor key must be a positive integer"@)
    } else {
        encoded_list_cursor(kind, scope, decimal_digits(id as nat))
    }
}

/// What `decode_numeric_cursor` returns.
pub open spec fn decoded_numeric_cursor(kind: CursorKind, scope: Seq<char>, cursor: Seq<char>) -> Result<int, Seq<char>> {
    match decoded_list_cursor(kind, scope, cursor) {
        Err(e) => Err(e),
        Ok(key) => match parsed_i64(encode_utf8(key)) {
            None => Err("numeric cursor key must be a positive integer"@),
            Some(id) => match encoded_numeric_cursor(kind, scope, id) {
                Err(e) => Err(e),
                Ok(c) => if c == cursor {
                    Ok(id)
                } else {
                    Err("numeric cursor key is not canonical"@)
                },
            },
        },
    }
}

/// The scope of a node metadata list: `all`, or `node-<id>` when filtered by node.
pub open spec fn metadata_scope(node_id: Option<int>) -> Seq<char> {
    match node_id {
        None => all_scope(),
        Some(id) => seq!['n', 'o', 'd', 'e', '-'] + signed_decimal(id),
    }
}

/// Encodes a positive numeric key as the cursor of the list `kind`/`scope`.
pub fn encode_numeric_cursor(kind: CursorKind, scope: &str, id: i64) -> (r: Result<String, &'static str>)
    ensures
        match r {
            Ok(c) => encoded_numeric_cursor(kind, scope@, id as int) == Ok::<Seq<char>, Seq<char>>(c@),
            Err(e) => encoded_numeric_cursor(kind, scope@, id as int) == Err::<Seq<char>, Seq<char>>(e@),
        },
{
    if id <= 0 {
        return Err("numeric cursor key must be a positive integer");
    }
    let key = signed_decimal_text(id as i128);
    encode_list_cursor(kind, scope, key.as_str())
}

/// Decodes a cursor of the list `kind`/`scope` back into a positive numeric key.
pub fn decode_numeric_cursor(cursor: &str, kind: CursorKind, scope: &str) -> (r: Result<i64, &'static str>)
    ensures
        match r {
            Ok(id) => decoded_numeric_cursor(kind, scope@, cursor@) == Ok::<int, Seq<char>>(id as int),
            Err(e) => decoded_numeric_cursor(kind, scope@, cursor@) == Err::<int, Seq<char>>(e@),
        },
{
    let key = match decode_list_cursor(cursor, kind, scope) {
        Ok(k) => k,
        Err(e) => { return Err(e); },
    };
    let id = match parse_i64_text(key.as_str()) {
        Some(v) => v,
        None => { return Err("numeric cursor key must be a positive integer"); },
    };
    let canonical = match encode_numeric_cursor(kind, scope, id) {
        Ok(c) => c,
        Err(e) => { return Err(e); },
    };
    if !same_text(canonical.as_str(), cursor) {
        return Err("numeric cursor key is not canonical");
    }
    Ok(id)
}

/// Encodes a node id as a node list cursor.
pub fn encode_node_cursor(id: i64) -> (r: Result<String, &'static str>)
    ensures
        match r {
            Ok(c) => encoded_numeric_cursor(CursorKind::Node, all_scope(), id as int) == Ok::<Seq<char>, Seq<char>>(c@),
            Err(e) => encoded_numeric_cursor(CursorKind::Node, all_scope(), id as int) == Err::<Seq<char>, Seq<char>>(e@),
        },
{
    proof {
        reveal_strlit("all");
        assert("all"@ =~= all_scope());
    }
    encode_numeric_cursor(CursorKind::Node, "all", id)
}

/// Decodes a node list cursor into a node id.
pub fn decode_node_cursor(cursor: &str) -> (r: Result<i64, &'static str>)
    ensures
        match r {
            Ok(id) => decoded_numeric_cursor(CursorKind::Node, all_scope(), cursor@) == Ok::<int, Seq<char>>(id as int),
            Err(e) => decoded_numeric_cursor(CursorKind::Node, all_scope(), cursor@) == Err::<int, Seq<char>>(e@),
        },
{
    proof {
        reveal_strlit("all");
        assert("all"@ =~= all_scope());
    }
    decode_numeric_cursor(cursor, CursorKind::Node, "all")
}

/// The scope of a node metadata list.
pub fn metadata_cursor_scope(node_id: Option<i64>) -> (s: String)
    ensures
        s@ == metadata_scope(match node_id { Some(id) => Some(id as int), None => None }),
{
    match node_id {
        None => {
            proof {
                reveal_strlit("all");
                assert("all"@ =~= all_scope());
            }
            "all".to_owned()
        },
        Some(id) => {
            let mut s = String::new();
            push_char(&mut s, 'n');
            push_char(&mut s, 'o');
            push_char(&mut s, 'd');
            push_char(&mut s, 'e');
            push_char(&mut s, '-');
            let digits = signed_decimal_text(id as i128);
            s.append(digits.as_str());
            assert(s@ =~= seq!['n', 'o', 'd', 'e', '-'] + signed_decimal(id as int));
            s
        },
    }
}

proof fn lemma_nonempty_text_has_bytes(key: Seq<char>)
    requires
        key.len() > 0,
    ensures
        encode_utf8(key).len() > 0,
{
    lemma_encode_utf8_concat(seq![key[0]], key.drop_first());
    assert(seq![key[0]] + key.drop_first() =~= key);
    assert(seq![key[0]].drop_first() =~= Seq::<char>::empty());
    assert(encode_utf8(Seq::<char>::empty()) =~= Seq::<u8>::empty());
}

/// A decoded key is encoded back into exactly the cursor it came from.
pub proof fn lemma_list_cursor_canonical(kind: CursorKind, scope: Seq<char>, cursor: Seq<char>)
    requires
        decoded_list_cursor(kind, scope, cursor) is Ok,
    ensures
        ({
            let key = decoded_list_cursor(kind, scope, cursor)->Ok_0;
            &&& key.len() > 0
            &&& list_cursor_text(kind, scope, key) == cursor
            &&& encoded_list_cursor(kind, scope, key) == Ok::<Seq<char>, Seq<char>>(cursor)
        }),
{
    let cb = encode_utf8(cursor);
    let pb = encode_utf8(cursor_prefix(kind, scope));
    let payload = cb.skip(pb.len() as int);
    let kb = hex_decode(payload);
    let key = decode_utf8(kb);
    assert(forall|i: int| 0 <= i < payload.len() ==> is_lower_hex(#[trigger] payload[i]));
    lemma_hex_decode_bytes(payload);
    decode_utf8_encode_utf8(kb);
    assert(key.len() > 0) by {
        if key.len() == 0 {
            assert(encode_utf8(key) =~= Seq::<u8>::empty());
        }
    }
    lemma_list_cursor_bytes(kind, scope, key);
    assert(pb + payload =~= cb);
    lemma_same_bytes_same_text(list_cursor_text(kind, scope, key), cursor);
}

/// A cursor made for a key decodes, under the same kind and scope, to that key.
pub proof fn lemma_list_cursor_round_trip(kind: CursorKind, scope: Seq<char>, key: Seq<char>)
    requires
        encoded_list_cursor(kind, scope, key) is Ok,
    ensures
        decoded_list_cursor(kind, scope, list_cursor_text(kind, scope, key)) == Ok::<Seq<char>, Seq<char>>(key),
        forall|i: int| 0 <= i < hex_bytes(encode_utf8(key)).len()
            ==> is_lower_hex(#[trigger] hex_bytes(encode_utf8(key))[i]),
{
    let kb = encode_utf8(key);
    let c = list_cursor_text(kind, scope, key);
    let cb = encode_utf8(c);
    let pb = encode_utf8(cursor_prefix(kind, scope));
    lemma_list_cursor_bytes(kind, scope, key);
    lemma_hex_bytes(kb);
    lemma_nonempty_text_has_bytes(key);
    assert(cb.subrange(0, pb.len() as int) =~= pb);
    assert(cb.skip(pb.len() as int) =~= hex_bytes(kb));
    encode_utf8_valid_utf8(key);
    encode_utf8_decode_utf8(key);
    if exists|i: int| 0 <= i < hex_bytes(kb).len() && !is_lower_hex(#[trigger] hex_bytes(kb)[i]) {
        let i = choose|i: int| 0 <= i < hex_bytes(kb).len() && !is_lower_hex(#[trigger] hex_bytes(kb)[i]);
        assert(is_lower_hex(hex_bytes(kb)[i]));
    }
}

proof fn lemma_prefix_at_last_dot(p1: Seq<char>, h1: Seq<char>, p2: Seq<char>, h2: Seq<char>)
    requires
        p1.len() > 0,
        p2.len() > 0,
        p1.last() == '.',
        p2.last() == '.',
        forall|i: int| 0 <= i < h1.len() ==> #[trigger] h1[i] != '.',
        forall|i: int| 0 <= i < h2.len() ==> #[trigger] h2[i] != '.',
        p1 + h1 == p2 + h2,
    ensures
        p1 == p2,
{
    let t = p1 + h1;
    assert(t.len() == p2.len() + h2.len());
    if p1.len() < p2.len() {
        let i = p2.len() - 1;
        assert(t[i] == (p2 + h2)[i]);
        assert(t[i] == h1[i - p1.len()]);
    } else if p2.len() < p1.len() {
        let i = p1.len() - 1;
        assert(t[i] == (p2 + h2)[i]);
        assert((p2 + h2)[i] == h2[i - p2.len()]);
    }
    assert(p1 =~= t.subrange(0, p1.len() as int));
    assert(p2 =~= (p2 + h2).subrange(0, p2.len() as int));
}

proof fn lemma_hex_chars_have_no_dot(bytes: Seq<u8>)
    ensures
        forall|i: int| 0 <= i < hex_chars(bytes).len() ==> #[trigger] hex_chars(bytes)[i] != '.',
{
    lemma_hex_bytes(bytes);
    assert forall|i: int| 0 <= i < hex_chars(bytes).len() implies #[trigger] hex_chars(bytes)[i] != '.' by {
        let b = hex_bytes(bytes)[i];
        assert(is_lower_hex(b));
        assert(hex_chars(bytes)[i] == b as char);
    }
}

proof fn lemma_prefix_determines_list(k1: CursorKind, s1: Seq<char>, k2: CursorKind, s2: Seq<char>)
    requires
        cursor_prefix(k1, s1) == cursor_prefix(k2, s2),
    ensures
        k1 == k2,
        s1 == s2,
{
    let p = cursor_prefix(k1, s1);
    let n1 = kind_name(k1);
    let n2 = kind_name(k2);
    let l1: int = n1.len() as int;
    let l2: int = n2.len() as int;
    assert(forall|i: int| 0 <= i < n1.len() ==> #[trigger] n1[i] != '.');
    assert(forall|i: int| 0 <= i < n2.len() ==> #[trigger] n2[i] != '.');
    assert(p[3 + l1] == '.');
    assert(cursor_prefix(k2, s2)[3 + l2] == '.');
    if n1.len() < n2.len() {
        assert(cursor_prefix(k2, s2)[3 + l1] == n2[l1]);
    } else if n2.len() < n1.len() {
        assert(p[3 + l2] == n1[l2]);
    }
    assert(n1 =~= p.subrange(3, 3 + l1));
    assert(n2 =~= cursor_prefix(k2, s2).subrange(3, 3 + l2));
    assert(k1 == k2) by {
        match k1 {
            CursorKind::Node => { assert(n1[0] == 'n'); },
            CursorKind::Link => { assert(n1[0] == 'l'); },
            CursorKind::Alias => { assert(n1[1] == 'l'); },
            CursorKind::Tag => { assert(n1[1] == 'a'); },
            CursorKind::Source => { assert(n1[0] == 's'); },
            CursorKind::Tool => { assert(n1[1] == 'o'); },
            CursorKind::Mcp => { assert(n1[0] == 'm'); },
        }
    }
    assert(s1 =~= p.subrange(4 + l1, p.len() - 1));
    assert(s2 =~= cursor_prefix(k2, s2).subrange(4 + l2, p.len() - 1));
}

/// A cursor is accepted only by the list (kind and scope) it was made for, and
/// there it stands for the key it was made from.
pub proof fn lemma_list_cursor_bound_to_list(
    k1: CursorKind,
    s1: Seq<char>,
    key: Seq<char>,
    k2: CursorKind,
    s2: Seq<char>,
)
    requires
        encoded_list_cursor(k1, s1, key) is Ok,
        decoded_list_cursor(k2, s2, list_cursor_text(k1, s1, key)) is Ok,
    ensures
        k1 == k2,
        s1 == s2,
        decoded_list_cursor(k2, s2, list_cursor_text(k1, s1, key)) == Ok::<Seq<char>, Seq<char>>(key),
{
    let c = list_cursor_text(k1, s1, key);
    lemma_list_cursor_canonical(k2, s2, c);
    let key2 = decoded_list_cursor(k2, s2, c)->Ok_0;
    lemma_hex_chars_have_no_dot(encode_utf8(key));
    lemma_hex_chars_have_no_dot(encode_utf8(key2));
    lemma_prefix_at_last_dot(cursor_prefix(k1, s1), hex_chars(encode_utf8(key)), cursor_prefix(k2, s2), hex_chars(encode_utf8(key2)));
    lemma_prefix_determines_list(k1, s1, k2, s2);
    lemma_list_cursor_round_trip(k1, s1, key);
}

/// A cursor made for a positive numeric key decodes, under the same kind and scope, to that key.
pub proof fn lemma_numeric_cursor_round_trip(kind: CursorKind, scope: Seq<char>, id: int)
    requires
        id <= i64::MAX,
        encoded_numeric_cursor(kind, scope, id) is Ok,
    ensures
        decoded_numeric_cursor(kind, scope, encoded_numeric_cursor(kind, scope, id)->Ok_0) == Ok::<int, Seq<char>>(id),
{
    let key = decimal_digits(id as nat);
    lemma_list_cursor_round_trip(kind, scope, key);
    lemma_decimal_parses_as_i64(id);
}

} // verus!
