//! Outside error types that pass through the library, and their display text.
use vstd::prelude::*;

verus! {

/// `rusqlite::Error`, carried through unchanged.
#[verifier::external_type_specification]
#[verifier::external_body]
pub struct ExDbError(rusqlite::Error);

/// `serde_json::Error`, carried through unchanged.
#[verifier::external_type_specification]
#[verifier::external_body]
pub struct ExJsonError(serde_json::Error);

/// `std::io::Error`, carried through unchanged.
#[verifier::external_type_specification]
#[verifier::external_body]
pub struct ExIoError(std::io::Error);

/// The `Display` text of a `rusqlite::Error` (`ToString::to_string`).
/// Nothing is stated of the text: the error value is opaque here.
#[verifier::external_body]
pub(crate) fn db_error_text(error: &rusqlite::Error) -> String {
    error.to_string()
}

/// The `Display` text of a `serde_json::Error` (`ToString::to_string`).
/// Nothing is stated of the text: the error value is opaque here.
#[verifier::external_body]
pub(crate) fn json_error_text(error: &serde_json::Error) -> String {
    error.to_string()
}

/// The `Display` text of a `std::io::Error` (`ToString::to_string`).
/// Nothing is stated of the text: the error value is opaque here.
#[verifier::external_body]
pub(crate) fn io_error_text(error: &std::io::Error) -> String {
    error.to_string()
}


/// A lowercase hexadecimal digit, for `d < 16`.
pub open spec fn lower_hex_digit(d: int) -> char {
    if d < 10 { (48 + d) as char } else { (87 + d) as char }
}

/// How `serde_json` writes one character inside a string literal: a quote and a
/// backslash are escaped with a backslash; backspace, tab, line feed, form feed and
/// carriage return get their short escapes; every other character below U+0020 is
/// written `\u00XX` in lowercase hex; all others are written as they are.
pub open spec fn json_escaped_char(c: char) -> Seq<char> {
    let u = c as u32;
    if u == 0x22 {
        seq!['\\', '"']
    } else if u == 0x5c {
        seq!['\\', '\\']
    } else if u == 0x08 {
        seq!['\\', 'b']
    } else if u == 0x09 {
        seq!['\\', 't']
    } else if u == 0x0a {
        seq!['\\', 'n']
    } else if u == 0x0c {
        seq!['\\', 'f']
    } else if u == 0x0d {
        seq!['\\', 'r']
    } else if u < 0x20 {
        seq!['\\', 'u', '0', '0', lower_hex_digit((u / 16) as int), lower_hex_digit((u % 16) as int)]
    } else {
        seq![c]
    }
}

/// The characters of a string literal's body, each written as `json_escaped_char` does.
pub open spec fn json_escaped(s: Seq<char>) -> Seq<char>
    decreases s.len(),
{
    if s.len() == 0 {
        seq![]
    } else {
        json_escaped(s.drop_last()) + json_escaped_char(s.last())
    }
}

/// What `serde_json::to_string` writes for a string: the JSON string literal, the
/// escaped characters between double quotes. Opaque: proofs about envelopes treat the
/// literal as a unit; `reveal(json_quoted)` exposes its text.
#[verifier::opaque]
pub open spec fn json_quoted(s: Seq<char>) -> Seq<char> {
    seq!['"'] + json_escaped(s) + seq!['"']
}

/// A character that a JSON string literal holds as it is.
pub open spec fn json_plain_char(c: char) -> bool {
    c as u32 >= 0x20 && c as u32 != 0x22 && c as u32 != 0x5c
}

/// Text without quotes, backslashes or control characters is written unchanged
/// between the quotes.
pub proof fn lemma_json_quoted_plain(s: Seq<char>)
    requires
        forall|i: int| 0 <= i < s.len() ==> json_plain_char(#[trigger] s[i]),
    ensures
        json_quoted(s) == seq!['"'] + s + seq!['"'],
{
    lemma_json_escaped_plain(s);
    reveal(json_quoted);
}

proof fn lemma_json_escaped_plain(s: Seq<char>)
    requires
        forall|i: int| 0 <= i < s.len() ==> json_plain_char(#[trigger] s[i]),
    ensures
        json_escaped(s) == s,
    decreases s.len(),
{
    if s.len() > 0 {
        assert(json_plain_char(s[s.len() - 1]));
        lemma_json_escaped_plain(s.drop_last());
        assert(s.drop_last().push(s.last()) =~= s);
    }
}

/// `serde_json::to_string` on a string slice: its JSON string literal.
/// Serialising a `str` cannot fail, so the result is always present.
#[verifier::external_body]
pub(crate) fn json_string(s: &str) -> (r: String)
    ensures
        r@ == json_quoted(s@),
{
    serde_json::to_string(s).expect("a string always serialises")
}

/// `std::str::Utf8Error`, why bytes are not UTF-8.
#[verifier::external_type_specification]
#[verifier::external_body]
pub struct ExUtf8Error(std::str::Utf8Error);

/// The `Display` text of a `std::str::Utf8Error` (`ToString::to_string`).
/// Nothing is stated of the text: the error value is opaque here.
#[verifier::external_body]
pub(crate) fn utf8_error_text(error: &std::str::Utf8Error) -> String {
    error.to_string()
}

/// `std::time::Instant`, the moment a command started.
#[verifier::external_type_specification]
#[verifier::external_body]
pub struct ExInstant(std::time::Instant);

/// `Instant::now`: the current moment of the monotonic clock.
/// Nothing is stated of it: it depends on the clock.
#[verifier::external_body]
pub(crate) fn instant_now() -> std::time::Instant {
    std::time::Instant::now()
}

/// `Instant::elapsed`: the time since `started`.
/// Nothing is stated of it: it depends on the clock.
#[verifier::external_body]
pub(crate) fn instant_elapsed(started: &std::time::Instant) -> std::time::Duration {
    started.elapsed()
}

/// `Duration::as_millis`: the whole milliseconds of a duration.
/// Nothing is stated of the number: the duration is opaque here.
#[verifier::external_body]
pub(crate) fn duration_millis(duration: &std::time::Duration) -> u128 {
    duration.as_millis()
}

} // verus!
