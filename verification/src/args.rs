//! Checks on command line values that run before any workspace is touched.
use vstd::prelude::*;
use vstd::string::*;
use crate::codes::{EXIT_IO_ERROR, EXIT_INVALID_ARGS, MAX_BOUNDED_RECALL_LIMIT, MAX_LIST_LIMIT, MAX_STRUCTURED_PAYLOAD_BYTES};
use crate::error::{CliError, joined};
use crate::text::{utf8_text, parse_usize_text, parse_i64_text, parsed_usize, parsed_i64, decimal_digits, decimal_text, same_text};
use crate::bundle::{RecallBundleId, is_canonical_uuid_v4};

verus! {

/// `--limit` of a bounded recall: an integer from 1 to 50.
pub fn parse_bounded_recall_limit(value: &str) -> (r: Result<usize, String>)
    ensures
        match parsed_usize(value.spec_bytes()) {
            None => r matches Err(m) && m@ == "limit must be a positive integer"@,
            Some(v) => if 1 <= v <= MAX_BOUNDED_RECALL_LIMIT {
                r == Ok::<usize, String>(v as usize)
            } else {
                r matches Err(m) && m@ == "limit must be between 1 and 50"@
            },
        },
{
    let limit = match parse_usize_text(value) {
        Some(v) => v,
        None => { return Err("limit must be a positive integer".to_owned()); },
    };
    if 1 <= limit && limit <= MAX_BOUNDED_RECALL_LIMIT {
        Ok(limit)
    } else {
        Err("limit must be between 1 and 50".to_owned())
    }
}

/// `--limit` of a list command: an integer from 1 to 500.
pub fn parse_list_limit(value: &str) -> (r: Result<usize, String>)
    ensures
        match parsed_usize(value.spec_bytes()) {
            None => r matches Err(m) && m@ == "limit must be a positive integer"@,
            Some(v) => if 1 <= v <= MAX_LIST_LIMIT {
                r == Ok::<usize, String>(v as usize)
            } else {
                r matches Err(m) && m@ == "limit must be between 1 and 500"@
            },
        },
{
    let limit = match parse_usize_text(value) {
        Some(v) => v,
        None => { return Err("limit must be a positive integer".to_owned()); },
    };
    if 1 <= limit && limit <= MAX_LIST_LIMIT {
        Ok(limit)
    } else {
        Err("limit must be between 1 and 500".to_owned())
    }
}

/// A mutation id: a positive `i64`.
pub fn parse_positive_id(value: &str) -> (r: Result<i64, String>)
    ensures
        match parsed_i64(value.spec_bytes()) {
            Some(v) if v > 0 => r == Ok::<i64, String>(v as i64),
            _ => r matches Err(m) && m@ == "id must be a positive integer"@,
        },
{
    let id = match parse_i64_text(value) {
        Some(v) => v,
        None => { return Err("id must be a positive integer".to_owned()); },
    };
    if id > 0 {
        Ok(id)
    } else {
        Err("id must be a positive integer".to_owned())
    }
}

/// A Unicode `White_Space` character, as `char::is_whitespace` classifies it.
pub open spec fn is_white_space(c: char) -> bool {
    let u = c as u32;
    (0x9 <= u <= 0xd) || u == 0x20 || u == 0x85 || u == 0xa0 || u == 0x1680
        || (0x2000 <= u <= 0x200a) || u == 0x2028 || u == 0x2029 || u == 0x202f
        || u == 0x205f || u == 0x3000
}

/// Text that is empty once surrounding white space is trimmed.
pub open spec fn is_blank(s: Seq<char>) -> bool {
    forall|i: int| 0 <= i < s.len() ==> is_white_space(#[trigger] s[i])
}

fn white_space_char(c: char) -> (r: bool)
    ensures
        r == is_white_space(c),
{
    let u = c as u32;
    (0x9 <= u && u <= 0xd) || u == 0x20 || u == 0x85 || u == 0xa0 || u == 0x1680
        || (0x2000 <= u && u <= 0x200a) || u == 0x2028 || u == 0x2029 || u == 0x202f
        || u == 0x205f || u == 0x3000
}

/// Is the text empty after trimming white space?
pub fn blank_text(s: &str) -> (r: bool)
    ensures
        r == is_blank(s@),
{
    let mut all = true;
    for c in it: s.chars()
        invariant
            it.seq() == s@,
            all == (forall|i: int| 0 <= i < it.index() ==> is_white_space(#[trigger] s@[i])),
    {
        let ws = white_space_char(c);
        all = all && ws;
    }
    all
}

/// A legacy string `--after-id`: anything that is not blank.
pub fn parse_non_empty_cursor(value: &str) -> (r: Result<String, String>)
    ensures
        if is_blank(value@) {
            r matches Err(m) && m@ == "after-id must not be empty"@
        } else {
            r matches Ok(v) && v@ == value@
        },
{
    if blank_text(value) {
        Err("after-id must not be empty".to_owned())
    } else {
        Ok(value.to_owned())
    }
}

/// An unreserved URL byte: ASCII letter or digit, `.`, `_`, `~` or `-`.
pub open spec fn is_url_safe_byte(b: u8) -> bool {
    (48 <= b <= 57) || (65 <= b <= 90) || (97 <= b <= 122) || b == 46 || b == 95 || b == 126 || b == 45
}

/// `--continuation-cursor` of a recall: non-empty, at most `max_bytes` bytes, URL-safe ASCII.
pub fn parse_recall_continuation_cursor(value: &str, max_bytes: usize) -> (r: Result<String, String>)
    ensures
        if value@.len() == 0 {
            r matches Err(m) && m@ == "continuation cursor must not be empty"@
        } else if value.spec_bytes().len() > max_bytes {
            r matches Err(m) && m@ == "continuation cursor must be at most "@ + decimal_digits(max_bytes as nat) + " bytes"@
        } else if exists|i: int| 0 <= i < value.spec_bytes().len() && !is_url_safe_byte(#[trigger] value.spec_bytes()[i]) {
            r matches Err(m) && m@ == "continuation cursor must contain only URL-safe ASCII characters"@
        } else {
            r matches Ok(v) && v@ == value@
        },
{
    if value.is_empty() {
        return Err("continuation cursor must not be empty".to_owned());
    }
    let bytes = value.as_bytes();
    if bytes.len() > max_bytes {
        let mut m = "continuation cursor must be at most ".to_owned();
        m.append(decimal_text(max_bytes as u128).as_str());
        m.append(" bytes");
        return Err(m);
    }
    let n = bytes.len();
    let mut i: usize = 0;
    while i < n
        invariant
            n == bytes@.len(),
            bytes@ == value.spec_bytes(),
            value@.len() != 0,
            n <= max_bytes,
            i <= n,
            forall|j: int| 0 <= j < i ==> is_url_safe_byte(#[trigger] bytes@[j]),
        decreases n - i,
    {
        let b = bytes[i];
        let ok = (48u8 <= b && b <= 57u8) || (65u8 <= b && b <= 90u8) || (97u8 <= b && b <= 122u8)
            || b == 46u8 || b == 95u8 || b == 126u8 || b == 45u8;
        if !ok {
            assert(!is_url_safe_byte(bytes@[i as int]));
            return Err("continuation cursor must contain only URL-safe ASCII characters".to_owned());
        }
        i = i + 1;
    }
    Ok(value.to_owned())
}

/// `--bundle-id`: a canonical lowercase UUID v4.
pub fn parse_global_bundle_id(value: &str) -> (r: Result<RecallBundleId, String>)
    ensures
        if is_canonical_uuid_v4(value.spec_bytes()) {
            r matches Ok(id) && id@ == value@ && id.wf()
        } else {
            r matches Err(m) && m@ == "recall bundle id must be a lowercase hyphenated UUID v4"@
        },
{
    match RecallBundleId::parse(value) {
        Ok(id) => Ok(id),
        Err(e) => Err(e.to_owned()),
    }
}

/// How useful a recall turned out to be.
#[derive(Debug, Clone, Copy, PartialEq, Eq, Structural)]
pub enum FeedbackOutcome {
    Useful,
    Partial,
    Wrong,
}

/// `--outcome` of a feedback record: `useful`, `partial` or `wrong`.
pub fn parse_feedback_outcome(value: &str) -> (r: Result<FeedbackOutcome, String>)
    ensures
        if value@ == "useful"@ {
            r == Ok::<FeedbackOutcome, String>(FeedbackOutcome::Useful)
        } else if value@ == "partial"@ {
            r == Ok::<FeedbackOutcome, String>(FeedbackOutcome::Partial)
        } else if value@ == "wrong"@ {
            r == Ok::<FeedbackOutcome, String>(FeedbackOutcome::Wrong)
        } else {
            r matches Err(m) && m@ == "feedback outcome must be one of useful, partial, wrong"@
        },
{
    if same_text(value, "useful") {
        Ok(FeedbackOutcome::Useful)
    } else if same_text(value, "partial") {
        Ok(FeedbackOutcome::Partial)
    } else if same_text(value, "wrong") {
        Ok(FeedbackOutcome::Wrong)
    } else {
        Err("feedback outcome must be one of useful, partial, wrong".to_owned())
    }
}

/// Was `--json` among the raw arguments?
pub fn json_flag_present(args: &Vec<String>) -> (r: bool)
    ensures
        r == exists|i: int| 0 <= i < args@.len() && #[trigger] args@[i]@ == "--json"@,
{
    let n = args.len();
    let mut i: usize = 0;
    while i < n
        invariant
            n == args@.len(),
            i <= n,
            forall|j: int| 0 <= j < i ==> #[trigger] args@[j]@ != "--json"@,
        decreases n - i,
    {
        if same_text(args[i].as_str(), "--json") {
            return true;
        }
        i = i + 1;
    }
    false
}

/// Rejects a structured payload larger than 2 MiB.
pub fn validate_structured_payload_size(input: &str, bytes: usize) -> (r: Result<(), CliError>)
    ensures
        bytes <= MAX_STRUCTURED_PAYLOAD_BYTES ==> r is Ok,
        bytes > MAX_STRUCTURED_PAYLOAD_BYTES ==> (r matches Err(e) && e.has(EXIT_INVALID_ARGS, "INVALID_ARGS"@,
            input@ + " exceeds "@ + decimal_digits(MAX_STRUCTURED_PAYLOAD_BYTES as nat) + " bytes"@,
            "reduce "@ + input@ + " to at most "@ + decimal_digits(MAX_STRUCTURED_PAYLOAD_BYTES as nat) + " bytes"@)),
{
    if bytes > MAX_STRUCTURED_PAYLOAD_BYTES {
        return Err(CliError::input_too_large(input, MAX_STRUCTURED_PAYLOAD_BYTES));
    }
    Ok(())
}

/// The UTF-8 text of a structured input that was read whole: at most
/// `MAX_STRUCTURED_PAYLOAD_BYTES`, and valid UTF-8, which is reported as an input
/// error (`IO_ERROR`) whose message names the decoding failure.
pub fn bounded_utf8_text(bytes: &[u8], input: &str) -> (r: Result<String, CliError>)
    ensures
        bytes@.len() > MAX_STRUCTURED_PAYLOAD_BYTES ==> (r matches Err(e) && e.has(EXIT_INVALID_ARGS, "INVALID_ARGS"@,
            input@ + " exceeds "@ + decimal_digits(MAX_STRUCTURED_PAYLOAD_BYTES as nat) + " bytes"@,
            "reduce "@ + input@ + " to at most "@ + decimal_digits(MAX_STRUCTURED_PAYLOAD_BYTES as nat) + " bytes"@)),
        bytes@.len() <= MAX_STRUCTURED_PAYLOAD_BYTES && vstd::utf8::valid_utf8(bytes@)
            ==> (r matches Ok(s) && vstd::utf8::encode_utf8(s@) == bytes@),
        bytes@.len() <= MAX_STRUCTURED_PAYLOAD_BYTES && !vstd::utf8::valid_utf8(bytes@)
            ==> (r matches Err(e) && e.exit_code == EXIT_IO_ERROR && e.code@ == "IO_ERROR"@
                && e.message@.len() >= "input is not valid UTF-8: "@.len()
                && e.message@.subrange(0, "input is not valid UTF-8: "@.len() as int) == "input is not valid UTF-8: "@
                && e.fix_hint@ == "check filesystem permissions for AOPMEM_HOME"@),
{
    match validate_structured_payload_size(input, bytes.len()) {
        Ok(()) => {},
        Err(e) => { return Err(e); },
    }
    match utf8_text(bytes) {
        Ok(t) => Ok(t.to_owned()),
        Err(error) => {
            let detail = crate::outside::utf8_error_text(&error);
            Err(CliError::invalid_data(joined("input is not valid UTF-8: ", detail.as_str()).as_str()))
        },
    }
}

} // verus!
