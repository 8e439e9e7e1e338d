//! The JSON envelope every `--json` command prints:
//! `{"ok":..,"command":..,"data":..,"warnings":[..],"errors":[..],"meta":{..}}`.
//!
//! The library frames the envelope itself; strings are quoted by `serde_json`,
//! and the command's data arrives already serialised.
use vstd::prelude::*;
use vstd::string::*;
use crate::outside::{json_quoted, json_string};
use crate::text::{decimal_digits, signed_decimal, decimal_text, signed_decimal_text, occurs_in, lemma_occurs_within, lemma_occurs_self};
use crate::artifacts::CleanupReport;
use crate::error::CliError;

verus! {

/// The version every envelope reports.
pub const CLI_VERSION: &'static str = "0.2.0-rc2";

/// A warning that accompanies a result without changing it.
#[derive(Debug, Clone)]
pub struct OutputWarning {
    pub code: &'static str,
    pub message: String,
}

/// Envelope metadata.
#[derive(Debug)]
pub struct OutputMeta {
    pub version: &'static str,
    pub workspace_key: Option<String>,
}

impl Default for OutputMeta {
    /// The CLI version and no workspace key.
    fn default() -> (m: Self)
        ensures
            m.version == CLI_VERSION,
            m.workspace_key is None,
    {
        OutputMeta { version: CLI_VERSION, workspace_key: None }
    }
}

/// Details of a mandatory recall context that does not fit its budget.
#[derive(Debug)]
pub struct MandatoryContextOverflowDetails {
    pub bundle_id: String,
    pub hard_limit_bytes: usize,
    pub used_bytes_before_overflow: usize,
    pub offending_node_ids: Vec<i64>,
}

/// Details of a failed recall: the bundle it belongs to.
#[derive(Debug)]
pub struct RecallFailureDetails {
    pub bundle_id: String,
}

/// Details of a tool run stopped by a time or inline output limit.
#[derive(Debug, Clone, Copy)]
pub struct ToolRunLimitDetails {
    pub timeout_ms: u128,
    pub stdout_limit_bytes: usize,
    pub stderr_limit_bytes: usize,
    pub stdout_truncated: bool,
    pub stderr_truncated: bool,
}

/// Details of a tool run stopped by the global artifact ceiling.
#[derive(Debug, Clone, Copy)]
pub struct ToolRunHardOverflowDetails {
    pub timeout_ms: u128,
    pub stdout_limit_bytes: usize,
    pub stderr_limit_bytes: usize,
    pub hard_limit_bytes: usize,
    pub stdout_truncated: bool,
    pub stderr_truncated: bool,
    pub stdout_hard_limit_exceeded: bool,
    pub stderr_hard_limit_exceeded: bool,
}

/// Details of a failed artifact cleanup.
#[derive(Debug)]
pub struct ArtifactCleanupErrorDetails {
    pub report: Option<CleanupReport>,
    pub deleted_paths: Vec<String>,
}

/// Typed details of an error; each is written as its own object.
#[derive(Debug)]
pub enum OutputErrorDetails {
    MandatoryContextOverflow(MandatoryContextOverflowDetails),
    RecallFailure(RecallFailureDetails),
    ToolRunLimit(ToolRunLimitDetails),
    ToolRunHardOverflow(ToolRunHardOverflowDetails),
    ArtifactCleanup(ArtifactCleanupErrorDetails),
}

/// One error of an envelope.
#[derive(Debug)]
pub struct OutputError {
    pub code: &'static str,
    pub message: String,
    pub fix_hint: String,
    pub details: Option<OutputErrorDetails>,
}

/// The envelope; `data` is the command's data as JSON text.
#[derive(Debug)]
pub struct OutputEnvelope {
    pub ok: bool,
    pub command: &'static str,
    pub data: Option<String>,
    pub warnings: Vec<OutputWarning>,
    pub errors: Vec<OutputError>,
    pub meta: OutputMeta,
}

/// Items joined by commas.
pub open spec fn comma_joined(parts: Seq<Seq<char>>) -> Seq<char>
    decreases parts.len(),
{
    if parts.len() == 0 {
        seq![]
    } else if parts.len() == 1 {
        parts[0]
    } else {
        comma_joined(parts.drop_last()) + seq![','] + parts.last()
    }
}

/// A JSON array of already rendered items.
pub open spec fn json_array(parts: Seq<Seq<char>>) -> Seq<char> {
    seq!['['] + comma_joined(parts) + seq![']']
}

/// `true` or `false`.
pub open spec fn json_bool(b: bool) -> Seq<char> {
    if b { seq!['t', 'r', 'u', 'e'] } else { seq!['f', 'a', 'l', 's', 'e'] }
}

/// A JSON array of strings.
pub open spec fn json_strings(items: Seq<String>) -> Seq<char> {
    json_array(items.map_values(|s: String| json_quoted(s@)))
}

/// A JSON array of integers.
pub open spec fn json_ints(items: Seq<i64>) -> Seq<char> {
    json_array(items.map_values(|n: i64| signed_decimal(n as int)))
}

/// A warning object.
pub open spec fn json_warning(w: OutputWarning) -> Seq<char> {
    "{\"code\":"@ + json_quoted(w.code@) + ",\"message\":"@ + json_quoted(w.message@) + seq!['}']
}

/// The warnings array.
pub open spec fn json_warnings(ws: Seq<OutputWarning>) -> Seq<char> {
    json_array(ws.map_values(|w: OutputWarning| json_warning(w)))
}

/// The metadata object.
pub open spec fn json_meta(m: OutputMeta) -> Seq<char> {
    "{\"version\":"@ + json_quoted(m.version@) + match m.workspace_key {
        Some(k) => ",\"workspace_key\":"@ + json_quoted(k@),
        None => seq![],
    } + seq!['}']
}

/// A cleanup report object.
pub open spec fn json_cleanup_report(r: CleanupReport) -> Seq<char> {
    "{\"artifact_root\":"@ + json_quoted(r.artifact_root@)
        + ",\"today_dir\":"@ + json_quoted(r.today_dir@)
        + ",\"bytes_before\":"@ + decimal_digits(r.bytes_before as nat)
        + ",\"bytes_after\":"@ + decimal_digits(r.bytes_after as nat)
        + ",\"deleted_dirs\":"@ + json_strings(r.deleted_dirs@)
        + ",\"deleted_files\":"@ + json_strings(r.deleted_files@)
        + ",\"kept_dirs\":"@ + json_strings(r.kept_dirs@)
        + ",\"deleted_paths\":"@ + json_strings(r.deleted_paths@)
        + ",\"complete\":"@ + json_bool(r.complete)
        + seq!['}']
}

/// The object of a mandatory context overflow.
pub open spec fn json_overflow_details(m: MandatoryContextOverflowDetails) -> Seq<char> {
    "{\"bundle_id\":"@ + json_quoted(m.bundle_id@)
        + ",\"hard_limit_bytes\":"@ + decimal_digits(m.hard_limit_bytes as nat)
        + ",\"used_bytes_before_overflow\":"@ + decimal_digits(m.used_bytes_before_overflow as nat)
        + ",\"offending_node_ids\":"@ + json_ints(m.offending_node_ids@)
        + seq!['}']
}

/// The object of a tool run limit.
pub open spec fn json_limit_details(t: ToolRunLimitDetails) -> Seq<char> {
    "{\"timeout_ms\":"@ + decimal_digits(t.timeout_ms as nat)
        + ",\"stdout_limit_bytes\":"@ + decimal_digits(t.stdout_limit_bytes as nat)
        + ",\"stderr_limit_bytes\":"@ + decimal_digits(t.stderr_limit_bytes as nat)
        + ",\"stdout_truncated\":"@ + json_bool(t.stdout_truncated)
        + ",\"stderr_truncated\":"@ + json_bool(t.stderr_truncated)
        + seq!['}']
}

/// The object of a tool run past the artifact ceiling.
pub open spec fn json_hard_overflow_details(t: ToolRunHardOverflowDetails) -> Seq<char> {
    "{\"timeout_ms\":"@ + decimal_digits(t.timeout_ms as nat)
        + ",\"stdout_limit_bytes\":"@ + decimal_digits(t.stdout_limit_bytes as nat)
        + ",\"stderr_limit_bytes\":"@ + decimal_digits(t.stderr_limit_bytes as nat)
        + ",\"hard_limit_bytes\":"@ + decimal_digits(t.hard_limit_bytes as nat)
        + ",\"stdout_truncated\":"@ + json_bool(t.stdout_truncated)
        + ",\"stderr_truncated\":"@ + json_bool(t.stderr_truncated)
        + ",\"stdout_hard_limit_exceeded\":"@ + json_bool(t.stdout_hard_limit_exceeded)
        + ",\"stderr_hard_limit_exceeded\":"@ + json_bool(t.stderr_hard_limit_exceeded)
        + seq!['}']
}

/// The object of a failed artifact cleanup; an absent report is left out.
pub open spec fn cleanup_details_object(report: Option<Seq<char>>, deleted_paths: Seq<String>) -> Seq<char> {
    seq!['{'] + match report {
        Some(r) => "\"report\":"@ + r + seq![','],
        None => seq![],
    } + "\"deleted_paths\":"@ + json_strings(deleted_paths) + seq!['}']
}

/// The object of a failed artifact cleanup.
pub open spec fn json_cleanup_details(a: ArtifactCleanupErrorDetails) -> Seq<char> {
    cleanup_details_object(match a.report {
        Some(r) => Some(json_cleanup_report(r)),
        None => None,
    }, a.deleted_paths@)
}

/// A details object.
pub open spec fn json_details(d: OutputErrorDetails) -> Seq<char> {
    match d {
        OutputErrorDetails::MandatoryContextOverflow(m) => json_overflow_details(m),
        OutputErrorDetails::RecallFailure(r) => "{\"bundle_id\":"@ + json_quoted(r.bundle_id@) + seq!['}'],
        OutputErrorDetails::ToolRunLimit(t) => json_limit_details(t),
        OutputErrorDetails::ToolRunHardOverflow(t) => json_hard_overflow_details(t),
        OutputErrorDetails::ArtifactCleanup(a) => json_cleanup_details(a),
    }
}

/// An error object from its rendered parts; absent details are left out.
pub open spec fn error_object(code: Seq<char>, message: Seq<char>, fix_hint: Seq<char>, details: Option<Seq<char>>) -> Seq<char> {
    "{\"code\":"@ + json_quoted(code) + ",\"message\":"@ + json_quoted(message)
        + ",\"fix_hint\":"@ + json_quoted(fix_hint) + match details {
            Some(d) => ",\"details\":"@ + d,
            None => seq![],
        } + seq!['}']
}

/// An error object.
pub open spec fn json_error(e: OutputError) -> Seq<char> {
    error_object(e.code@, e.message@, e.fix_hint@, match e.details {
        Some(d) => Some(json_details(d)),
        None => None,
    })
}

/// The errors array.
pub open spec fn json_errors(es: Seq<OutputError>) -> Seq<char> {
    json_array(es.map_values(|e: OutputError| json_error(e)))
}

/// An envelope from its rendered parts; absent data is `null`.
pub open spec fn envelope_object(
    ok: bool,
    command: Seq<char>,
    data: Option<Seq<char>>,
    warnings: Seq<char>,
    errors: Seq<char>,
    meta: Seq<char>,
) -> Seq<char> {
    "{\"ok\":"@ + json_bool(ok) + ",\"command\":"@ + json_quoted(command)
        + ",\"data\":"@ + match data {
            Some(d) => d,
            None => seq!['n', 'u', 'l', 'l'],
        } + ",\"warnings\":"@ + warnings
        + ",\"errors\":"@ + errors
        + ",\"meta\":"@ + meta + seq!['}']
}

/// The whole envelope.
pub open spec fn json_envelope(env: OutputEnvelope) -> Seq<char> {
    envelope_object(env.ok, env.command@, match env.data {
        Some(d) => Some(d@),
        None => None,
    }, json_warnings(env.warnings@), json_errors(env.errors@), json_meta(env.meta))
}

/// The envelope of a failure with a single error and no data.
pub open spec fn failure_envelope(
    command: Seq<char>,
    error: CliError,
    details: Option<Seq<char>>,
    warnings: Seq<OutputWarning>,
    meta: OutputMeta,
) -> Seq<char> {
    envelope_object(false, command, None, json_warnings(warnings),
        json_array(seq![error_object(error.code@, error.message@, error.fix_hint@, details)]),
        json_meta(meta))
}

/// The envelope of a success: the data, no errors.
pub open spec fn success_object(command: Seq<char>, data: Seq<char>, warnings: Seq<OutputWarning>, meta: OutputMeta) -> Seq<char> {
    envelope_object(true, command, Some(data), json_warnings(warnings), json_array(seq![]), json_meta(meta))
}

pub(crate) proof fn lemma_comma_joined_step(parts: Seq<Seq<char>>, i: int)
    requires
        0 <= i < parts.len(),
    ensures
        comma_joined(parts.take(i + 1)) == if i == 0 {
            parts[0]
        } else {
            comma_joined(parts.take(i)) + seq![','] + parts[i]
        },
{
    assert(parts.take(i + 1).drop_last() =~= parts.take(i));
    if i == 0 {
        assert(parts.take(1).len() == 1);
    }
}

fn push_text(out: &mut String, s: &str)
    ensures
        final(out)@ == old(out)@ + s@,
{
    out.append(s);
}

pub(crate) fn push_quoted(out: &mut String, s: &str)
    ensures
        final(out)@ == old(out)@ + json_quoted(s@),
{
    let q = json_string(s);
    out.append(q.as_str());
}

pub(crate) fn push_bool(out: &mut String, b: bool)
    ensures
        final(out)@ == old(out)@ + json_bool(b),
{
    if b {
        proof { reveal_strlit("true"); }
        out.append("true");
        assert("true"@ =~= json_bool(true));
    } else {
        proof { reveal_strlit("false"); }
        out.append("false");
        assert("false"@ =~= json_bool(false));
    }
}

fn push_unsigned(out: &mut String, n: u128)
    ensures
        final(out)@ == old(out)@ + decimal_digits(n as nat),
{
    let t = decimal_text(n);
    out.append(t.as_str());
}

/// Appends a JSON array of strings.
fn push_strings(out: &mut String, items: &Vec<String>)
    ensures
        final(out)@ == old(out)@ + json_strings(items@),
{
    let ghost parts = items@.map_values(|s: String| json_quoted(s@));
    let ghost start = out@;
    crate::text::push_char(out, '[');
    let n = items.len();
    let mut i: usize = 0;
    while i < n
        invariant
            n == items@.len(),
            parts == items@.map_values(|s: String| json_quoted(s@)),
            i <= n,
            out@ == start + seq!['['] + comma_joined(parts.take(i as int)),
        decreases n - i,
    {
        proof { lemma_comma_joined_step(parts, i as int); }
        if i > 0 {
            crate::text::push_char(out, ',');
        }
        push_quoted(out, items[i].as_str());
        assert(out@ =~= start + seq!['['] + comma_joined(parts.take(i + 1)));
        i = i + 1;
    }
    assert(parts.take(n as int) =~= parts);
    crate::text::push_char(out, ']');
    assert(out@ =~= start + json_strings(items@));
}

/// Appends a JSON array of integers.
fn push_ints(out: &mut String, items: &Vec<i64>)
    ensures
        final(out)@ == old(out)@ + json_ints(items@),
{
    let ghost parts = items@.map_values(|n: i64| signed_decimal(n as int));
    let ghost start = out@;
    crate::text::push_char(out, '[');
    let n = items.len();
    let mut i: usize = 0;
    while i < n
        invariant
            n == items@.len(),
            parts == items@.map_values(|n: i64| signed_decimal(n as int)),
            i <= n,
            out@ == start + seq!['['] + comma_joined(parts.take(i as int)),
        decreases n - i,
    {
        proof { lemma_comma_joined_step(parts, i as int); }
        if i > 0 {
            crate::text::push_char(out, ',');
        }
        let t = signed_decimal_text(items[i] as i128);
        out.append(t.as_str());
        assert(out@ =~= start + seq!['['] + comma_joined(parts.take(i + 1)));
        i = i + 1;
    }
    assert(parts.take(n as int) =~= parts);
    crate::text::push_char(out, ']');
    assert(out@ =~= start + json_ints(items@));
}

/// Appends one warning object.
fn push_warning(out: &mut String, w: &OutputWarning)
    ensures
        final(out)@ == old(out)@ + json_warning(*w),
{
    let ghost start = out@;
    push_text(out, "{\"code\":");
    push_quoted(out, w.code);
    push_text(out, ",\"message\":");
    push_quoted(out, w.message.as_str());
    crate::text::push_char(out, '}');
    assert(out@ =~= start + json_warning(*w));
}

/// Appends the warnings array.
fn push_warnings(out: &mut String, items: &Vec<OutputWarning>)
    ensures
        final(out)@ == old(out)@ + json_warnings(items@),
{
    let ghost parts = items@.map_values(|w: OutputWarning| json_warning(w));
    let ghost start = out@;
    crate::text::push_char(out, '[');
    let n = items.len();
    let mut i: usize = 0;
    while i < n
        invariant
            n == items@.len(),
            parts == items@.map_values(|w: OutputWarning| json_warning(w)),
            i <= n,
            out@ == start + seq!['['] + comma_joined(parts.take(i as int)),
        decreases n - i,
    {
        proof { lemma_comma_joined_step(parts, i as int); }
        if i > 0 {
            crate::text::push_char(out, ',');
        }
        push_warning(out, &items[i]);
        assert(out@ =~= start + seq!['['] + comma_joined(parts.take(i + 1)));
        i = i + 1;
    }
    assert(parts.take(n as int) =~= parts);
    crate::text::push_char(out, ']');
    assert(out@ =~= start + json_warnings(items@));
}

/// Appends a cleanup report object.
fn push_cleanup_report(out: &mut String, r: &CleanupReport)
    ensures
        final(out)@ == old(out)@ + json_cleanup_report(*r),
{
    let ghost start = out@;
    push_text(out, "{\"artifact_root\":");
    push_quoted(out, r.artifact_root.as_str());
    push_text(out, ",\"today_dir\":");
    push_quoted(out, r.today_dir.as_str());
    push_text(out, ",\"bytes_before\":");
    push_unsigned(out, r.bytes_before as u128);
    push_text(out, ",\"bytes_after\":");
    push_unsigned(out, r.bytes_after as u128);
    push_text(out, ",\"deleted_dirs\":");
    push_strings(out, &r.deleted_dirs);
    push_text(out, ",\"deleted_files\":");
    push_strings(out, &r.deleted_files);
    push_text(out, ",\"kept_dirs\":");
    push_strings(out, &r.kept_dirs);
    push_text(out, ",\"deleted_paths\":");
    push_strings(out, &r.deleted_paths);
    push_text(out, ",\"complete\":");
    push_bool(out, r.complete);
    crate::text::push_char(out, '}');
    assert(out@ =~= start + json_cleanup_report(*r));
}

fn push_overflow_details(out: &mut String, m: &MandatoryContextOverflowDetails)
    ensures
        final(out)@ == old(out)@ + json_overflow_details(*m),
{
    let ghost start = out@;
    push_text(out, "{\"bundle_id\":");
    push_quoted(out, m.bundle_id.as_str());
    push_text(out, ",\"hard_limit_bytes\":");
    push_unsigned(out, m.hard_limit_bytes as u128);
    push_text(out, ",\"used_bytes_before_overflow\":");
    push_unsigned(out, m.used_bytes_before_overflow as u128);
    push_text(out, ",\"offending_node_ids\":");
    push_ints(out, &m.offending_node_ids);
    crate::text::push_char(out, '}');
    assert(out@ =~= start + json_overflow_details(*m));
}

fn push_limit_details(out: &mut String, t: &ToolRunLimitDetails)
    ensures
        final(out)@ == old(out)@ + json_limit_details(*t),
{
    let ghost start = out@;
    push_text(out, "{\"timeout_ms\":");
    push_unsigned(out, t.timeout_ms);
    push_text(out, ",\"stdout_limit_bytes\":");
    push_unsigned(out, t.stdout_limit_bytes as u128);
    push_text(out, ",\"stderr_limit_bytes\":");
    push_unsigned(out, t.stderr_limit_bytes as u128);
    push_text(out, ",\"stdout_truncated\":");
    push_bool(out, t.stdout_truncated);
    push_text(out, ",\"stderr_truncated\":");
    push_bool(out, t.stderr_truncated);
    crate::text::push_char(out, '}');
    assert(out@ =~= start + json_limit_details(*t));
}

#[verifier::rlimit(50)]
fn push_hard_overflow_details(out: &mut String, t: &ToolRunHardOverflowDetails)
    ensures
        final(out)@ == old(out)@ + json_hard_overflow_details(*t),
{
    let ghost start = out@;
    push_text(out, "{\"timeout_ms\":");
    push_unsigned(out, t.timeout_ms);
    push_text(out, ",\"stdout_limit_bytes\":");
    push_unsigned(out, t.stdout_limit_bytes as u128);
    push_text(out, ",\"stderr_limit_bytes\":");
    push_unsigned(out, t.stderr_limit_bytes as u128);
    push_text(out, ",\"hard_limit_bytes\":");
    push_unsigned(out, t.hard_limit_bytes as u128);
    push_text(out, ",\"stdout_truncated\":");
    push_bool(out, t.stdout_truncated);
    push_text(out, ",\"stderr_truncated\":");
    push_bool(out, t.stderr_truncated);
    push_text(out, ",\"stdout_hard_limit_exceeded\":");
    push_bool(out, t.stdout_hard_limit_exceeded);
    push_text(out, ",\"stderr_hard_limit_exceeded\":");
    push_bool(out, t.stderr_hard_limit_exceeded);
    crate::text::push_char(out, '}');
    assert(out@ =~= start + json_hard_overflow_details(*t));
}

fn push_cleanup_details(out: &mut String, a: &ArtifactCleanupErrorDetails)
    ensures
        final(out)@ == old(out)@ + json_cleanup_details(*a),
{
    let ghost start = out@;
    crate::text::push_char(out, '{');
    match &a.report {
        Some(r) => {
            push_text(out, "\"report\":");
            push_cleanup_report(out, r);
            crate::text::push_char(out, ',');
        },
        None => {},
    }
    push_text(out, "\"deleted_paths\":");
    push_strings(out, &a.deleted_paths);
    crate::text::push_char(out, '}');
    assert(out@ =~= start + json_cleanup_details(*a));
}

/// Appends a details object.
fn push_details(out: &mut String, d: &OutputErrorDetails)
    ensures
        final(out)@ == old(out)@ + json_details(*d),
{
    let ghost start = out@;
    match d {
        OutputErrorDetails::MandatoryContextOverflow(m) => push_overflow_details(out, m),
        OutputErrorDetails::RecallFailure(r) => {
            push_text(out, "{\"bundle_id\":");
            push_quoted(out, r.bundle_id.as_str());
            crate::text::push_char(out, '}');
            assert(out@ =~= start + json_details(*d));
        },
        OutputErrorDetails::ToolRunLimit(t) => push_limit_details(out, t),
        OutputErrorDetails::ToolRunHardOverflow(t) => push_hard_overflow_details(out, t),
        OutputErrorDetails::ArtifactCleanup(a) => push_cleanup_details(out, a),
    }
}

/// Appends one error object.
fn push_error(out: &mut String, e: &OutputError)
    ensures
        final(out)@ == old(out)@ + json_error(*e),
{
    let ghost start = out@;
    push_text(out, "{\"code\":");
    push_quoted(out, e.code);
    push_text(out, ",\"message\":");
    push_quoted(out, e.message.as_str());
    push_text(out, ",\"fix_hint\":");
    push_quoted(out, e.fix_hint.as_str());
    match &e.details {
        Some(d) => {
            push_text(out, ",\"details\":");
            push_details(out, d);
        },
        None => {},
    }
    crate::text::push_char(out, '}');
    assert(out@ =~= start + json_error(*e));
}

/// Appends the errors array.
fn push_errors(out: &mut String, items: &Vec<OutputError>)
    ensures
        final(out)@ == old(out)@ + json_errors(items@),
{
    let ghost parts = items@.map_values(|e: OutputError| json_error(e));
    let ghost start = out@;
    crate::text::push_char(out, '[');
    let n = items.len();
    let mut i: usize = 0;
    while i < n
        invariant
            n == items@.len(),
            parts == items@.map_values(|e: OutputError| json_error(e)),
            i <= n,
            out@ == start + seq!['['] + comma_joined(parts.take(i as int)),
        decreases n - i,
    {
        proof { lemma_comma_joined_step(parts, i as int); }
        if i > 0 {
            crate::text::push_char(out, ',');
        }
        push_error(out, &items[i]);
        assert(out@ =~= start + seq!['['] + comma_joined(parts.take(i + 1)));
        i = i + 1;
    }
    assert(parts.take(n as int) =~= parts);
    crate::text::push_char(out, ']');
    assert(out@ =~= start + json_errors(items@));
}

/// Appends the metadata object.
fn push_meta(out: &mut String, m: &OutputMeta)
    ensures
        final(out)@ == old(out)@ + json_meta(*m),
{
    let ghost start = out@;
    push_text(out, "{\"version\":");
    push_quoted(out, m.version);
    match &m.workspace_key {
        Some(k) => {
            push_text(out, ",\"workspace_key\":");
            push_quoted(out, k.as_str());
        },
        None => {},
    }
    crate::text::push_char(out, '}');
    assert(out@ =~= start + json_meta(*m));
}

/// The envelope as JSON text.
pub fn serialize_envelope(envelope: &OutputEnvelope) -> (r: String)
    ensures
        r@ == json_envelope(*envelope),
{
    let mut out = String::new();
    push_text(&mut out, "{\"ok\":");
    push_bool(&mut out, envelope.ok);
    push_text(&mut out, ",\"command\":");
    push_quoted(&mut out, envelope.command);
    push_text(&mut out, ",\"data\":");
    match &envelope.data {
        Some(d) => push_text(&mut out, d.as_str()),
        None => {
            proof { reveal_strlit("null"); }
            push_text(&mut out, "null");
            assert("null"@ =~= seq!['n', 'u', 'l', 'l']);
        },
    }
    push_text(&mut out, ",\"warnings\":");
    push_warnings(&mut out, &envelope.warnings);
    push_text(&mut out, ",\"errors\":");
    push_errors(&mut out, &envelope.errors);
    push_text(&mut out, ",\"meta\":");
    push_meta(&mut out, &envelope.meta);
    crate::text::push_char(&mut out, '}');
    assert(out@ =~= json_envelope(*envelope));
    out
}


/// Both sequences hold strings with the same text, position by position.
pub open spec fn same_strings(a: Seq<String>, b: Seq<String>) -> bool {
    a.len() == b.len() && forall|i: int| 0 <= i < a.len() ==> #[trigger] a[i]@ == b[i]@
}

proof fn lemma_same_strings_json(a: Seq<String>, b: Seq<String>)
    requires
        same_strings(a, b),
    ensures
        json_strings(a) == json_strings(b),
{
    assert(a.map_values(|s: String| json_quoted(s@)) =~= b.map_values(|s: String| json_quoted(s@)));
}

/// A copy of a list of strings.
pub fn copy_strings(v: &Vec<String>) -> (r: Vec<String>)
    ensures
        same_strings(r@, v@),
{
    let mut r: Vec<String> = Vec::new();
    let n = v.len();
    let mut i: usize = 0;
    while i < n
        invariant
            n == v@.len(),
            i <= n,
            r@.len() == i,
            forall|j: int| 0 <= j < i ==> #[trigger] r@[j]@ == v@[j]@,
        decreases n - i,
    {
        r.push(v[i].clone());
        i = i + 1;
    }
    r
}

/// A copy of a cleanup report, field for field.
pub fn copy_report(report: &CleanupReport) -> (r: CleanupReport)
    ensures
        json_cleanup_report(r) == json_cleanup_report(*report),
        r.bytes_before == report.bytes_before,
        r.bytes_after == report.bytes_after,
        r.complete == report.complete,
        r.artifact_root@ == report.artifact_root@,
        r.today_dir@ == report.today_dir@,
        same_strings(r.deleted_dirs@, report.deleted_dirs@),
        same_strings(r.deleted_files@, report.deleted_files@),
        same_strings(r.kept_dirs@, report.kept_dirs@),
        same_strings(r.deleted_paths@, report.deleted_paths@),
{
    let r = CleanupReport {
        artifact_root: report.artifact_root.clone(),
        today_dir: report.today_dir.clone(),
        bytes_before: report.bytes_before,
        bytes_after: report.bytes_after,
        deleted_dirs: copy_strings(&report.deleted_dirs),
        deleted_files: copy_strings(&report.deleted_files),
        kept_dirs: copy_strings(&report.kept_dirs),
        deleted_paths: copy_strings(&report.deleted_paths),
        complete: report.complete,
    };
    proof {
        lemma_same_strings_json(r.deleted_dirs@, report.deleted_dirs@);
        lemma_same_strings_json(r.deleted_files@, report.deleted_files@);
        lemma_same_strings_json(r.kept_dirs@, report.kept_dirs@);
        lemma_same_strings_json(r.deleted_paths@, report.deleted_paths@);
    }
    r
}

fn single_error(error: &CliError, details: Option<OutputErrorDetails>) -> (r: Vec<OutputError>)
    ensures
        json_errors(r@) == json_array(seq![error_object(error.code@, error.message@, error.fix_hint@,
            match details { Some(d) => Some(json_details(d)), None => None })]),
{
    let mut r: Vec<OutputError> = Vec::new();
    r.push(OutputError {
        code: error.code,
        message: error.message.clone(),
        fix_hint: error.fix_hint.clone(),
        details,
    });
    assert(r@.map_values(|e: OutputError| json_error(e)) =~= seq![error_object(error.code@, error.message@,
        error.fix_hint@, match details { Some(d) => Some(json_details(d)), None => None })]);
    r
}

/// The success envelope with metadata and warnings; `data` is JSON text.
pub fn success_envelope_with_meta_and_warnings(
    command: &'static str,
    data: &str,
    meta: OutputMeta,
    warnings: Vec<OutputWarning>,
) -> (r: String)
    ensures
        r@ == success_object(command@, data@, warnings@, meta),
{
    let envelope = OutputEnvelope {
        ok: true,
        command,
        data: Some(data.to_owned()),
        warnings,
        errors: Vec::new(),
        meta,
    };
    assert(envelope.errors@.map_values(|e: OutputError| json_error(e)) =~= Seq::<Seq<char>>::empty());
    serialize_envelope(&envelope)
}

/// The success envelope with metadata and no warnings.
pub fn success_envelope_with_meta(command: &'static str, data: &str, meta: OutputMeta) -> (r: String)
    ensures
        r@ == success_object(command@, data@, seq![], meta),
{
    let r = success_envelope_with_meta_and_warnings(command, data, meta, Vec::new());
    r
}

/// The success envelope with default metadata.
pub fn success_envelope(command: &'static str, data: &str) -> (r: String)
    ensures
        r@ == success_object(command@, data@, seq![],
            OutputMeta { version: CLI_VERSION, workspace_key: None }),
{
    success_envelope_with_meta(command, data, OutputMeta::default())
}

/// The success envelope that names the workspace.
pub fn success_envelope_with_workspace_key(command: &'static str, data: &str, workspace_key: String) -> (r: String)
    ensures
        r@ == success_object(command@, data@, seq![],
            OutputMeta { version: CLI_VERSION, workspace_key: Some(workspace_key) }),
{
    success_envelope_with_meta_and_warnings(command, data,
        OutputMeta { version: CLI_VERSION, workspace_key: Some(workspace_key) }, Vec::new())
}

/// The failure envelope with metadata and warnings.
pub fn error_envelope_with_meta_and_warnings(
    command: &'static str,
    error: &CliError,
    meta: OutputMeta,
    warnings: Vec<OutputWarning>,
) -> (r: String)
    ensures
        r@ == failure_envelope(command@, *error, None, warnings@, meta),
{
    let envelope = OutputEnvelope {
        ok: false,
        command,
        data: None,
        warnings,
        errors: single_error(error, None),
        meta,
    };
    serialize_envelope(&envelope)
}

/// The failure envelope with default metadata.
pub fn error_envelope(command: &'static str, error: &CliError) -> (r: String)
    ensures
        r@ == failure_envelope(command@, *error, None, seq![],
            OutputMeta { version: CLI_VERSION, workspace_key: None }),
{
    error_envelope_with_meta_and_warnings(command, error, OutputMeta::default(), Vec::new())
}

/// The failure envelope of a recall, naming its bundle.
pub fn recall_error_envelope_with_meta_and_warnings(
    command: &'static str,
    error: &CliError,
    bundle_id: &crate::bundle::RecallBundleId,
    meta: OutputMeta,
    warnings: Vec<OutputWarning>,
) -> (r: String)
    ensures
        r@ == failure_envelope(command@, *error,
            Some("{\"bundle_id\":"@ + json_quoted(bundle_id@) + seq!['}']), warnings@, meta),
{
    let details = OutputErrorDetails::RecallFailure(RecallFailureDetails {
        bundle_id: bundle_id.as_str().to_owned(),
    });
    let envelope = OutputEnvelope {
        ok: false,
        command,
        data: None,
        warnings,
        errors: single_error(error, Some(details)),
        meta,
    };
    serialize_envelope(&envelope)
}

/// The failure envelope of a tool run limit, with its typed details.
pub fn tool_limit_error_envelope(command: &'static str, error: &CliError, details: OutputErrorDetails) -> (r: String)
    ensures
        r@ == failure_envelope(command@, *error, Some(json_details(details)), seq![],
            OutputMeta { version: CLI_VERSION, workspace_key: None }),
{
    let envelope = OutputEnvelope {
        ok: false,
        command,
        data: None,
        warnings: Vec::new(),
        errors: single_error(error, Some(details)),
        meta: OutputMeta::default(),
    };
    assert(envelope.warnings@.map_values(|w: OutputWarning| json_warning(w)) =~= Seq::<Seq<char>>::empty());
    serialize_envelope(&envelope)
}

/// The failure envelope of a mandatory context overflow, with metadata and warnings.
pub fn mandatory_context_overflow_envelope_with_meta_and_warnings(
    command: &'static str,
    error: &CliError,
    details: MandatoryContextOverflowDetails,
    meta: OutputMeta,
    warnings: Vec<OutputWarning>,
) -> (r: String)
    ensures
        r@ == failure_envelope(command@, *error, Some(json_overflow_details(details)), warnings@, meta),
{
    let envelope = OutputEnvelope {
        ok: false,
        command,
        data: None,
        warnings,
        errors: single_error(error, Some(OutputErrorDetails::MandatoryContextOverflow(details))),
        meta,
    };
    serialize_envelope(&envelope)
}

/// The bundle id that the stand-alone mandatory overflow envelope names.
pub open spec fn sample_bundle_id() -> Seq<char> {
    "550e8400-e29b-41d4-a716-446655440000"@
}

/// The failure envelope of a mandatory context overflow with default metadata and
/// the sample bundle id.
pub fn mandatory_context_overflow_envelope(
    command: &'static str,
    error: &CliError,
    hard_limit_bytes: usize,
    used_bytes_before_overflow: usize,
    offending_node_ids: Vec<i64>,
) -> (r: String)
    ensures
        r@ == failure_envelope(command@, *error, Some("{\"bundle_id\":"@ + json_quoted(sample_bundle_id())
            + ",\"hard_limit_bytes\":"@ + decimal_digits(hard_limit_bytes as nat)
            + ",\"used_bytes_before_overflow\":"@ + decimal_digits(used_bytes_before_overflow as nat)
            + ",\"offending_node_ids\":"@ + json_ints(offending_node_ids@)
            + seq!['}']), seq![], OutputMeta { version: CLI_VERSION, workspace_key: None }),
{
    let details = MandatoryContextOverflowDetails {
        bundle_id: "550e8400-e29b-41d4-a716-446655440000".to_owned(),
        hard_limit_bytes,
        used_bytes_before_overflow,
        offending_node_ids,
    };
    let r = mandatory_context_overflow_envelope_with_meta_and_warnings(command, error, details,
        OutputMeta::default(), Vec::new());
    assert(Seq::<OutputWarning>::empty().map_values(|w: OutputWarning| json_warning(w)) =~= Seq::<Seq<char>>::empty());
    r
}

/// In the envelope of a failed cleanup that carries its report, the report stands
/// under `"report"` with each key holding the report's field of that name: the root
/// and today's directory, the sizes before and after, the deleted, kept and removed
/// paths, and whether the cleanup completed.
pub proof fn lemma_cleanup_envelope_report(command: Seq<char>, error: CliError, rep: CleanupReport, paths: Seq<String>)
    ensures
        occurs_in(
            "\"report\":"@ + "{\"artifact_root\":"@ + json_quoted(rep.artifact_root@)
                + ",\"today_dir\":"@ + json_quoted(rep.today_dir@)
                + ",\"bytes_before\":"@ + decimal_digits(rep.bytes_before as nat)
                + ",\"bytes_after\":"@ + decimal_digits(rep.bytes_after as nat)
                + ",\"deleted_dirs\":"@ + json_strings(rep.deleted_dirs@)
                + ",\"deleted_files\":"@ + json_strings(rep.deleted_files@)
                + ",\"kept_dirs\":"@ + json_strings(rep.kept_dirs@)
                + ",\"deleted_paths\":"@ + json_strings(rep.deleted_paths@)
                + ",\"complete\":"@ + json_bool(rep.complete) + seq!['}'],
            failure_envelope(command, error, Some(cleanup_details_object(Some(json_cleanup_report(rep)), paths)),
                seq![], OutputMeta { version: CLI_VERSION, workspace_key: None })),
{
    let needle = "\"report\":"@ + "{\"artifact_root\":"@ + json_quoted(rep.artifact_root@)
        + ",\"today_dir\":"@ + json_quoted(rep.today_dir@)
        + ",\"bytes_before\":"@ + decimal_digits(rep.bytes_before as nat)
        + ",\"bytes_after\":"@ + decimal_digits(rep.bytes_after as nat)
        + ",\"deleted_dirs\":"@ + json_strings(rep.deleted_dirs@)
        + ",\"deleted_files\":"@ + json_strings(rep.deleted_files@)
        + ",\"kept_dirs\":"@ + json_strings(rep.kept_dirs@)
        + ",\"deleted_paths\":"@ + json_strings(rep.deleted_paths@)
        + ",\"complete\":"@ + json_bool(rep.complete) + seq!['}'];
    let j = json_cleanup_report(rep);
    assert(needle =~= "\"report\":"@ + j);
    lemma_occurs_self(needle);
    let d = cleanup_details_object(Some(j), paths);
    let d_tail = seq![','] + "\"deleted_paths\":"@ + json_strings(paths) + seq!['}'];
    assert(d =~= seq!['{'] + needle + d_tail);
    lemma_occurs_within(needle, seq!['{'], needle, d_tail);
    let e = error_object(error.code@, error.message@, error.fix_hint@, Some(d));
    let e_head = "{\"code\":"@ + json_quoted(error.code@) + ",\"message\":"@ + json_quoted(error.message@)
        + ",\"fix_hint\":"@ + json_quoted(error.fix_hint@) + ",\"details\":"@;
    assert(e =~= e_head + d + seq!['}']);
    lemma_occurs_within(needle, e_head, d, seq!['}']);
    let errs = json_array(seq![e]);
    assert(comma_joined(seq![e]) == e);
    assert(errs =~= seq!['['] + e + seq![']']);
    lemma_occurs_within(needle, seq!['['], e, seq![']']);
    let meta = OutputMeta { version: CLI_VERSION, workspace_key: None };
    let w = json_warnings(seq![]);
    let env_head = "{\"ok\":"@ + json_bool(false) + ",\"command\":"@ + json_quoted(command)
        + ",\"data\":"@ + seq!['n', 'u', 'l', 'l'] + ",\"warnings\":"@ + w + ",\"errors\":"@;
    let env_tail = ",\"meta\":"@ + json_meta(meta) + seq!['}'];
    assert(failure_envelope(command, error, Some(d), seq![], meta) =~= env_head + errs + env_tail);
    lemma_occurs_within(needle, env_head, errs, env_tail);
}

/// The failure envelope of an artifact cleanup, with the deleted paths (and the report,
/// when the failure carries one) as details when the failure tracks deleted paths.
pub fn artifact_cleanup_error_envelope(
    command: &'static str,
    error: &CliError,
    artifact_error: &crate::artifacts::ArtifactError,
) -> (r: String)
    ensures
        r@ == failure_envelope(command@, *error, match artifact_error.deleted_paths {
            Some(paths) => Some(cleanup_details_object(match artifact_error.report {
                Some(rep) => Some(json_cleanup_report(rep)),
                None => None,
            }, paths@)),
            None => None,
        }, seq![], OutputMeta { version: CLI_VERSION, workspace_key: None }),
        artifact_error.report matches Some(rep) ==> artifact_error.deleted_paths is Some ==> occurs_in(
            "\"report\":"@ + "{\"artifact_root\":"@ + json_quoted(rep.artifact_root@)
                + ",\"today_dir\":"@ + json_quoted(rep.today_dir@)
                + ",\"bytes_before\":"@ + decimal_digits(rep.bytes_before as nat)
                + ",\"bytes_after\":"@ + decimal_digits(rep.bytes_after as nat)
                + ",\"deleted_dirs\":"@ + json_strings(rep.deleted_dirs@)
                + ",\"deleted_files\":"@ + json_strings(rep.deleted_files@)
                + ",\"kept_dirs\":"@ + json_strings(rep.kept_dirs@)
                + ",\"deleted_paths\":"@ + json_strings(rep.deleted_paths@)
                + ",\"complete\":"@ + json_bool(rep.complete) + seq!['}'],
            r@),
{
    proof {
        if artifact_error.deleted_paths is Some && artifact_error.report is Some {
            lemma_cleanup_envelope_report(command@, *error, artifact_error.report->0,
                artifact_error.deleted_paths->0@);
        }
    }
    let details = match artifact_error.deleted_paths() {
        Some(paths) => {
            let report = match artifact_error.cleanup_report() {
                Some(rep) => Some(copy_report(rep)),
                None => None,
            };
            let copied = copy_strings(paths);
            proof { lemma_same_strings_json(copied@, paths@); }
            Some(OutputErrorDetails::ArtifactCleanup(ArtifactCleanupErrorDetails {
                report,
                deleted_paths: copied,
            }))
        },
        None => None,
    };
    let envelope = OutputEnvelope {
        ok: false,
        command,
        data: None,
        warnings: Vec::new(),
        errors: single_error(error, details),
        meta: OutputMeta::default(),
    };
    assert(envelope.warnings@.map_values(|w: OutputWarning| json_warning(w)) =~= Seq::<Seq<char>>::empty());
    serialize_envelope(&envelope)
}

} // verus!
