//! What each command records about itself: the events shaped from a command's
//! result, and the writes handed to the collector, in order.
use vstd::prelude::*;
use crate::observation::CommandObservation;
use crate::event::{
    ObservationEvent, EventType, EventOutcome, EventPayload, McpStatus, McpPayload,
    command_observation_event, counts_observation_event, pair_view,
};
use crate::error::{CliError, text};
use crate::text::same_text;
use crate::pagination::Page;
use crate::codes::{EXIT_SUCCESS, EXIT_DRIFT_DETECTED};
use crate::artifacts::{CleanupReport, ArtifactError, ArtifactErrorKind};
use crate::tools::{RunToolError, ToolRunLimitError, tool_run_code, tool_run_error_code};
use crate::event::{ArtifactPayload, tool_observation_event};

verus! {

/// The error code of a failed audit snapshot.
pub const AUDIT_SNAPSHOT_FAILED_ERROR_CODE: &'static str = "AUDIT_SNAPSHOT_FAILED";

/// The code of a mutation whose audit snapshot is still pending.
pub const AUDIT_SNAPSHOT_PENDING: &'static str = "AUDIT_SNAPSHOT_PENDING";

/// Appends the write a recording produced, if it produced one.
fn push_write(writes: &mut Vec<ObservationEvent>, w: Option<ObservationEvent>)
    ensures
        final(writes)@ == match w {
            Some(e) => old(writes)@.push(e),
            None => old(writes)@,
        },
{
    match w {
        Some(e) => writes.push(e),
        None => {},
    }
}

/// How the audit snapshot of a committed mutation went.
#[derive(Debug, Clone, Copy, PartialEq, Eq, Structural)]
pub enum SnapshotObservation {
    Completed { duration_ms: u64, bytes_written: u64 },
    Pending { duration_ms: u64 },
}

/// Records the audit snapshot of a mutation: one completed event, or a failed event
/// followed by a pending one. Returns the writes for the collector, in order.
pub fn record_snapshot_observation(
    observation: &mut CommandObservation,
    snapshot: SnapshotObservation,
) -> (writes: Vec<ObservationEvent>)
    requires
        old(observation).inv(),
    ensures
        final(observation).inv(),
        final(observation).froze(*old(observation)),
        old(observation).correlation is None ==> writes@.len() == 0,
        old(observation).correlation is Some ==> match snapshot {
            SnapshotObservation::Completed { duration_ms, bytes_written } => {
                &&& writes@.len() == 1
                &&& final(observation).delivers(writes@[0], EventType::AuditSnapshotCompleted,
                    EventOutcome::Success, None, final(observation).terminal_duration_ms)
                &&& writes@[0].counts() == Some(seq![("duration_ms"@, duration_ms), ("bytes_written"@, bytes_written)])
            },
            SnapshotObservation::Pending { duration_ms } => {
                &&& writes@.len() == 2
                &&& final(observation).delivers(writes@[0], EventType::AuditSnapshotFailed,
                    EventOutcome::Failure, Some(AUDIT_SNAPSHOT_FAILED_ERROR_CODE), final(observation).terminal_duration_ms)
                &&& writes@[0].counts() == Some(seq![("duration_ms"@, duration_ms)])
                &&& final(observation).delivers(writes@[1], EventType::AuditSnapshotPending,
                    EventOutcome::Pending, Some(AUDIT_SNAPSHOT_PENDING), final(observation).terminal_duration_ms)
                &&& writes@[1].counts() == Some(seq![("duration_ms"@, duration_ms)])
            },
        },
{
    let mut writes: Vec<ObservationEvent> = Vec::new();
    match snapshot {
        SnapshotObservation::Completed { duration_ms, bytes_written } => {
            let mut items: Vec<(&'static str, u64)> = Vec::new();
            items.push(("duration_ms", duration_ms));
            items.push(("bytes_written", bytes_written));
            assert(pair_view(items@) =~= seq![("duration_ms"@, duration_ms), ("bytes_written"@, bytes_written)]);
            let event = counts_observation_event(EventType::AuditSnapshotCompleted, EventOutcome::Success,
                items.as_slice(), None);
            let w = observation.record_terminal(event);
            push_write(&mut writes, w);
        },
        SnapshotObservation::Pending { duration_ms } => {
            let mut items: Vec<(&'static str, u64)> = Vec::new();
            items.push(("duration_ms", duration_ms));
            assert(pair_view(items@) =~= seq![("duration_ms"@, duration_ms)]);
            let failed = counts_observation_event(EventType::AuditSnapshotFailed, EventOutcome::Failure,
                items.as_slice(), Some(AUDIT_SNAPSHOT_FAILED_ERROR_CODE));
            let w = observation.record_terminal(failed);
            push_write(&mut writes, w);
            let pending = counts_observation_event(EventType::AuditSnapshotPending, EventOutcome::Pending,
                items.as_slice(), Some(AUDIT_SNAPSHOT_PENDING));
            let w = observation.record_terminal(pending);
            push_write(&mut writes, w);
        },
    }
    writes
}

/// An MCP profile as its status report reads it.
#[derive(Debug)]
pub struct McpProfile {
    pub id: String,
    pub status: String,
}

/// The observed status of a recognised profile status text.
pub open spec fn mcp_status_of(status: Seq<char>) -> Option<(McpStatus, EventOutcome)> {
    if status == "installed"@ {
        Some((McpStatus::Installed, EventOutcome::Configured))
    } else if status == "missing"@ {
        Some((McpStatus::Missing, EventOutcome::Missing))
    } else if status == "configured_unverified"@ {
        Some((McpStatus::ConfiguredUnverified, EventOutcome::ConfiguredUnverified))
    } else {
        None
    }
}

/// The status event of one MCP profile; none for a status text that is not recognised.
pub fn mcp_observation_event(profile: &McpProfile) -> (r: Option<ObservationEvent>)
    ensures
        match mcp_status_of(profile.status@) {
            None => r is None,
            Some((status, outcome)) => r matches Some(e) && e.fresh(EventType::McpStatus, outcome, None)
                && (e.payload matches EventPayload::Mcp(p) && p.profile_id@ == profile.id@ && p.status == status),
        },
{
    let s = profile.status.as_str();
    let (status, outcome) = if same_text(s, "installed") {
        (McpStatus::Installed, EventOutcome::Configured)
    } else if same_text(s, "missing") {
        (McpStatus::Missing, EventOutcome::Missing)
    } else if same_text(s, "configured_unverified") {
        (McpStatus::ConfiguredUnverified, EventOutcome::ConfiguredUnverified)
    } else {
        return None;
    };
    let payload = McpPayload { profile_id: text(profile.id.as_str()), status };
    Some(command_observation_event(EventType::McpStatus, outcome, EventPayload::Mcp(payload), None))
}

/// Records the status of one profile as a terminal event, if its status is recognised.
pub fn record_mcp_status(observation: &mut CommandObservation, profile: &McpProfile) -> (writes: Vec<ObservationEvent>)
    requires
        old(observation).inv(),
    ensures
        final(observation).inv(),
        match mcp_status_of(profile.status@) {
            None => *final(observation) == *old(observation) && writes@.len() == 0,
            Some((status, outcome)) => {
                &&& final(observation).froze(*old(observation))
                &&& old(observation).correlation is None ==> writes@.len() == 0
                &&& old(observation).correlation is Some ==> {
                    &&& writes@.len() == 1
                    &&& final(observation).delivers(writes@[0], EventType::McpStatus, outcome, None,
                        final(observation).terminal_duration_ms)
                    &&& writes@[0].payload matches EventPayload::Mcp(p) && p.profile_id@ == profile.id@ && p.status == status
                }
            },
        },
{
    let mut writes: Vec<ObservationEvent> = Vec::new();
    match mcp_observation_event(profile) {
        Some(event) => {
            observation.freeze_terminal_duration_ms();
            let w = observation.record_terminal(event);
            push_write(&mut writes, w);
        },
        None => {},
    }
    writes
}

/// How many profiles have the given status text.
pub open spec fn profiles_with(items: Seq<McpProfile>, status: Seq<char>) -> nat
    decreases items.len(),
{
    if items.len() == 0 {
        0
    } else {
        profiles_with(items.drop_last(), status) + if items.last().status@ == status { 1nat } else { 0nat }
    }
}

/// How many profiles have a status text that is not recognised.
pub open spec fn profiles_unrecognized(items: Seq<McpProfile>) -> nat
    decreases items.len(),
{
    if items.len() == 0 {
        0
    } else {
        profiles_unrecognized(items.drop_last())
            + if mcp_status_of(items.last().status@) is None { 1nat } else { 0nat }
    }
}

/// The three recognised status texts are distinct.
proof fn lemma_status_texts_distinct()
    ensures
        "installed"@ != "missing"@,
        "installed"@ != "configured_unverified"@,
        "missing"@ != "configured_unverified"@,
{
    reveal_strlit("installed");
    reveal_strlit("missing");
    reveal_strlit("configured_unverified");
    assert("installed"@.len() == 9);
    assert("missing"@.len() == 7);
    assert("configured_unverified"@.len() == 21);
}

/// Every profile is counted exactly once: as installed, missing,
/// configured-unverified or unrecognised.
pub proof fn lemma_profile_counts_partition(items: Seq<McpProfile>)
    ensures
        profiles_with(items, "installed"@) + profiles_with(items, "missing"@)
            + profiles_with(items, "configured_unverified"@) + profiles_unrecognized(items) == items.len(),
    decreases items.len(),
{
    lemma_status_texts_distinct();
    if items.len() > 0 {
        lemma_profile_counts_partition(items.drop_last());
    }
}

/// The aggregate status event of a page of MCP profiles.
pub fn mcp_status_aggregate_event(page: &Page<McpProfile, String>) -> (r: ObservationEvent)
    ensures
        r.has_counts(EventType::McpStatus,
            if page.more_results { EventOutcome::Truncated } else { EventOutcome::Success },
            seq![
                ("profiles"@, page.items@.len() as u64),
                ("installed"@, profiles_with(page.items@, "installed"@) as u64),
                ("missing"@, profiles_with(page.items@, "missing"@) as u64),
                ("configured_unverified"@, profiles_with(page.items@, "configured_unverified"@) as u64),
                ("unrecognized"@, profiles_unrecognized(page.items@) as u64),
                ("more_results"@, if page.more_results { 1u64 } else { 0u64 }),
            ],
            None),
{
    let mut installed: u64 = 0;
    let mut missing: u64 = 0;
    let mut configured_unverified: u64 = 0;
    let mut unrecognized: u64 = 0;
    let n = page.items.len();
    let mut i: usize = 0;
    while i < n
        invariant
            n == page.items@.len(),
            i <= n,
            installed == profiles_with(page.items@.take(i as int), "installed"@),
            missing == profiles_with(page.items@.take(i as int), "missing"@),
            configured_unverified == profiles_with(page.items@.take(i as int), "configured_unverified"@),
            unrecognized == profiles_unrecognized(page.items@.take(i as int)),
            installed + missing + configured_unverified + unrecognized == i,
        decreases n - i,
    {
        let s = page.items[i].status.as_str();
        proof {
            let next = page.items@.take(i + 1);
            assert(next.drop_last() =~= page.items@.take(i as int));
            assert(next.last() == page.items@[i as int]);
            lemma_status_texts_distinct();
        }
        if same_text(s, "installed") {
            installed = installed + 1;
        } else if same_text(s, "missing") {
            missing = missing + 1;
        } else if same_text(s, "configured_unverified") {
            configured_unverified = configured_unverified + 1;
        } else {
            unrecognized = unrecognized + 1;
        }
        i = i + 1;
    }
    assert(page.items@.take(n as int) =~= page.items@);
    let more: u64 = if page.more_results { 1 } else { 0 };
    let mut items: Vec<(&'static str, u64)> = Vec::new();
    items.push(("profiles", n as u64));
    items.push(("installed", installed));
    items.push(("missing", missing));
    items.push(("configured_unverified", configured_unverified));
    items.push(("unrecognized", unrecognized));
    items.push(("more_results", more));
    assert(pair_view(items@) =~= seq![
        ("profiles"@, n as u64),
        ("installed"@, installed),
        ("missing"@, missing),
        ("configured_unverified"@, configured_unverified),
        ("unrecognized"@, unrecognized),
        ("more_results"@, more),
    ]);
    let outcome = if page.more_results { EventOutcome::Truncated } else { EventOutcome::Success };
    counts_observation_event(EventType::McpStatus, outcome, items.as_slice(), None)
}

/// Records a failed command as a terminal event carrying the error's code.
pub fn record_failed_observation(
    observation: &mut CommandObservation,
    event_type: EventType,
    error: &CliError,
) -> (write: Option<ObservationEvent>)
    requires
        old(observation).inv(),
    ensures
        final(observation).inv(),
        final(observation).froze(*old(observation)),
        match write {
            Some(w) => old(observation).correlation is Some && w.payload == EventPayload::Empty
                && final(observation).delivers(w, event_type, EventOutcome::Failure, Some(error.code),
                    final(observation).terminal_duration_ms),
            None => old(observation).correlation is None,
        },
{
    let event = command_observation_event(event_type, EventOutcome::Failure, EventPayload::Empty, Some(error.code));
    observation.record_terminal(event)
}

/// Attaches the collector of a workspace that an install resolved; when the AOPMem
/// paths could not be resolved, the write-failed warning is latched instead. Returns
/// whether the caller must open the collector now.
pub fn attach_install_observation(observation: &mut CommandObservation, paths_resolved: bool) -> (open: bool)
    requires
        old(observation).inv(),
    ensures
        final(observation).inv(),
        final(observation).bundle_id == old(observation).bundle_id,
        final(observation).correlation == old(observation).correlation,
        if paths_resolved {
            &&& open == !old(observation).attach_attempted
            &&& final(observation).attach_attempted
            &&& final(observation).warning == old(observation).warning
        } else {
            &&& !open
            &&& final(observation).same_but_warning(*old(observation))
            &&& final(observation).write_failure_latched(*old(observation))
        },
{
    if paths_resolved {
        observation.attach_workspace()
    } else {
        observation.latch_write_warning();
        false
    }
}

/// Attaches the collector of the adapter's workspace when that workspace exists.
/// Returns whether the caller must open the collector now.
pub fn attach_adapter_observation(observation: &mut CommandObservation, workspace_present: bool) -> (open: bool)
    requires
        old(observation).inv(),
    ensures
        final(observation).inv(),
        final(observation).warning == old(observation).warning,
        final(observation).correlation == old(observation).correlation,
        open == (workspace_present && !old(observation).attach_attempted),
        workspace_present ==> final(observation).attach_attempted,
        !workspace_present ==> *final(observation) == *old(observation),
{
    if workspace_present {
        observation.attach_workspace()
    } else {
        false
    }
}

/// The counts an artifact cleanup reports: the whole report where there is one,
/// otherwise how many paths were already deleted.
pub open spec fn cleanup_counts(report: Option<CleanupReport>, deleted_paths: Option<Seq<String>>) -> Seq<(Seq<char>, u64)> {
    match report {
        Some(r) => seq![
            ("bytes_before"@, r.bytes_before),
            ("bytes_after"@, r.bytes_after),
            ("deleted_dirs"@, r.deleted_dirs@.len() as u64),
            ("deleted_files"@, r.deleted_files@.len() as u64),
            ("deleted_paths"@, r.deleted_paths@.len() as u64),
            ("kept_dirs"@, r.kept_dirs@.len() as u64),
            ("complete"@, if r.complete { 1u64 } else { 0u64 }),
        ],
        None => seq![("deleted_paths"@, match deleted_paths { Some(p) => p.len() as u64, None => 0u64 })],
    }
}

/// The counts of an artifact cleanup, in the order they are recorded.
pub fn artifact_cleanup_counts(
    report: Option<&CleanupReport>,
    deleted_paths: Option<&Vec<String>>,
) -> (r: Vec<(&'static str, u64)>)
    ensures
        pair_view(r@) == cleanup_counts(
            match report { Some(x) => Some(*x), None => None },
            match deleted_paths { Some(p) => Some(p@), None => None }),
{
    let mut items: Vec<(&'static str, u64)> = Vec::new();
    match report {
        Some(report) => {
            items.push(("bytes_before", report.bytes_before));
            items.push(("bytes_after", report.bytes_after));
            items.push(("deleted_dirs", report.deleted_dirs.len() as u64));
            items.push(("deleted_files", report.deleted_files.len() as u64));
            items.push(("deleted_paths", report.deleted_paths.len() as u64));
            items.push(("kept_dirs", report.kept_dirs.len() as u64));
            items.push(("complete", if report.complete { 1u64 } else { 0u64 }));
            assert(pair_view(items@) =~= cleanup_counts(Some(*report),
                match deleted_paths { Some(p) => Some(p@), None => None }));
        },
        None => {
            let n: u64 = match deleted_paths {
                Some(p) => p.len() as u64,
                None => 0,
            };
            items.push(("deleted_paths", n));
            assert(pair_view(items@) =~= cleanup_counts(None,
                match deleted_paths { Some(p) => Some(p@), None => None }));
        },
    }
    items
}

/// The code a failed cleanup reports.
pub open spec fn artifact_error_code(kind: ArtifactErrorKind) -> Seq<char> {
    match kind {
        ArtifactErrorKind::LockTimeout => "ARTIFACT_LOCK_TIMEOUT"@,
        ArtifactErrorKind::CleanupPartial => "ARTIFACT_CLEANUP_PARTIAL"@,
        ArtifactErrorKind::CleanupStateUnknown => "ARTIFACT_CLEANUP_STATE_UNKNOWN"@,
        ArtifactErrorKind::RetentionLimitNotMet => "ARTIFACT_RETENTION_NOT_MET"@,
        _ => "ARTIFACTS_ERROR"@,
    }
}

/// The outcome a failed cleanup is recorded with: a warning where the cleanup did
/// part of its work or could not meet the retention limit, a failure otherwise.
pub open spec fn artifact_error_outcome(kind: ArtifactErrorKind) -> EventOutcome {
    match kind {
        ArtifactErrorKind::CleanupPartial | ArtifactErrorKind::RetentionLimitNotMet => EventOutcome::Warning,
        _ => EventOutcome::Failure,
    }
}

/// The event of an artifact cleanup.
pub fn artifact_cleanup_observation_event(result: &Result<CleanupReport, ArtifactError>) -> (r: ObservationEvent)
    ensures
        match result {
            Ok(report) => r.has_counts(EventType::ArtifactsCleanup, EventOutcome::Success,
                cleanup_counts(Some(*report), None), None),
            Err(error) => {
                &&& r.event_type == EventType::ArtifactsCleanup
                &&& r.outcome == artifact_error_outcome(error.kind)
                &&& r.counts() == Some(cleanup_counts(error.report,
                    match error.deleted_paths { Some(p) => Some(p@), None => None }))
                &&& r.error_code matches Some(c) && c@ == artifact_error_code(error.kind)
                &&& r.bundle_id is None
                &&& r.duration_ms is None
            },
        },
{
    match result {
        Ok(report) => {
            let counts = artifact_cleanup_counts(Some(report), None);
            counts_observation_event(EventType::ArtifactsCleanup, EventOutcome::Success, counts.as_slice(), None)
        },
        Err(error) => {
            let cli_error = CliError::artifacts(error);
            let counts = artifact_cleanup_counts(error.cleanup_report(), error.deleted_paths());
            let outcome = match error.kind {
                ArtifactErrorKind::CleanupPartial | ArtifactErrorKind::RetentionLimitNotMet => EventOutcome::Warning,
                _ => EventOutcome::Failure,
            };
            counts_observation_event(EventType::ArtifactsCleanup, outcome, counts.as_slice(), Some(cli_error.code))
        },
    }
}

/// How a workspace initialisation seeded its nodes.
#[derive(Debug, Clone, Copy)]
pub struct WorkspaceInitStatus {
    pub seeded_nodes_created: usize,
    pub seeded_nodes_existing: usize,
    pub semantic_nodes_created: usize,
    pub semantic_nodes_existing: usize,
}

/// The event of a workspace initialisation.
pub fn workspace_init_observation_event(status: &WorkspaceInitStatus) -> (r: ObservationEvent)
    ensures
        r.has_counts(EventType::WorkspaceInit, EventOutcome::Success, seq![
            ("seeded_nodes_created"@, status.seeded_nodes_created as u64),
            ("seeded_nodes_existing"@, status.seeded_nodes_existing as u64),
            ("semantic_nodes_created"@, status.semantic_nodes_created as u64),
            ("semantic_nodes_existing"@, status.semantic_nodes_existing as u64),
        ], None),
{
    let mut items: Vec<(&'static str, u64)> = Vec::new();
    items.push(("seeded_nodes_created", status.seeded_nodes_created as u64));
    items.push(("seeded_nodes_existing", status.seeded_nodes_existing as u64));
    items.push(("semantic_nodes_created", status.semantic_nodes_created as u64));
    items.push(("semantic_nodes_existing", status.semantic_nodes_existing as u64));
    assert(pair_view(items@) =~= seq![
        ("seeded_nodes_created"@, status.seeded_nodes_created as u64),
        ("seeded_nodes_existing"@, status.seeded_nodes_existing as u64),
        ("semantic_nodes_created"@, status.semantic_nodes_created as u64),
        ("semantic_nodes_existing"@, status.semantic_nodes_existing as u64),
    ]);
    counts_observation_event(EventType::WorkspaceInit, EventOutcome::Success, items.as_slice(), None)
}

/// The state of one doctor check.
#[derive(Debug, Clone, Copy, PartialEq, Eq, Structural)]
pub enum DoctorStatus {
    Ready,
    Missing,
    Error,
}

/// The checks of a doctor report, each with its state.
#[derive(Debug, Clone, Copy)]
pub struct DoctorChecks {
    pub global_dirs: DoctorStatus,
    pub workspace: DoctorStatus,
    pub db: DoctorStatus,
    pub schema: DoctorStatus,
    pub fts: DoctorStatus,
    pub adapter_block: DoctorStatus,
    pub artifacts_dirs: DoctorStatus,
    pub audit_snapshot: DoctorStatus,
    pub tools_dirs: DoctorStatus,
}

/// A doctor report: its checks, and whether the workspace is healthy.
#[derive(Debug, Clone, Copy)]
pub struct DoctorReport {
    pub checks: DoctorChecks,
    pub healthy: bool,
}

/// The states of the checks, in report order.
pub open spec fn doctor_statuses(c: DoctorChecks) -> Seq<DoctorStatus> {
    seq![c.global_dirs, c.workspace, c.db, c.schema, c.fts, c.adapter_block, c.artifacts_dirs,
        c.audit_snapshot, c.tools_dirs]
}

/// How many of `statuses` are `status`.
pub open spec fn status_count(statuses: Seq<DoctorStatus>, status: DoctorStatus) -> nat
    decreases statuses.len(),
{
    if statuses.len() == 0 {
        0
    } else {
        status_count(statuses.drop_last(), status) + if statuses.last() == status { 1nat } else { 0nat }
    }
}

/// The event of a doctor run: how many checks, and how many are ready, missing or in error.
pub fn doctor_observation_event(report: &DoctorReport) -> (r: ObservationEvent)
    ensures
        r.has_counts(EventType::Doctor,
            if report.healthy { EventOutcome::Success } else { EventOutcome::Warning },
            seq![
                ("checks"@, 9u64),
                ("ready"@, status_count(doctor_statuses(report.checks), DoctorStatus::Ready) as u64),
                ("missing"@, status_count(doctor_statuses(report.checks), DoctorStatus::Missing) as u64),
                ("error"@, status_count(doctor_statuses(report.checks), DoctorStatus::Error) as u64),
            ],
            None),
{
    let c = &report.checks;
    let mut statuses: Vec<DoctorStatus> = Vec::new();
    statuses.push(c.global_dirs);
    statuses.push(c.workspace);
    statuses.push(c.db);
    statuses.push(c.schema);
    statuses.push(c.fts);
    statuses.push(c.adapter_block);
    statuses.push(c.artifacts_dirs);
    statuses.push(c.audit_snapshot);
    statuses.push(c.tools_dirs);
    assert(statuses@ =~= doctor_statuses(report.checks));
    let mut ready: u64 = 0;
    let mut missing: u64 = 0;
    let mut error: u64 = 0;
    let mut i: usize = 0;
    while i < statuses.len()
        invariant
            statuses@.len() == 9,
            i <= 9,
            ready == status_count(statuses@.take(i as int), DoctorStatus::Ready),
            missing == status_count(statuses@.take(i as int), DoctorStatus::Missing),
            error == status_count(statuses@.take(i as int), DoctorStatus::Error),
            ready + missing + error == i,
        decreases 9 - i,
    {
        proof {
            assert(statuses@.take(i + 1).drop_last() =~= statuses@.take(i as int));
        }
        match statuses[i] {
            DoctorStatus::Ready => ready = ready + 1,
            DoctorStatus::Missing => missing = missing + 1,
            DoctorStatus::Error => error = error + 1,
        }
        i = i + 1;
    }
    assert(statuses@.take(9) =~= statuses@);
    let mut items: Vec<(&'static str, u64)> = Vec::new();
    items.push(("checks", 9u64));
    items.push(("ready", ready));
    items.push(("missing", missing));
    items.push(("error", error));
    assert(pair_view(items@) =~= seq![("checks"@, 9u64), ("ready"@, ready), ("missing"@, missing), ("error"@, error)]);
    let outcome = if report.healthy { EventOutcome::Success } else { EventOutcome::Warning };
    counts_observation_event(EventType::Doctor, outcome, items.as_slice(), None)
}

/// The findings of a lint run, by kind.
#[derive(Debug, Clone, Copy)]
pub struct LintSummary {
    pub total: usize,
    pub duplicate_ids: usize,
    pub broken_links: usize,
    pub deprecated_active_links: usize,
    pub missing_source: usize,
    pub missing_summary: usize,
    pub missing_gates: usize,
    pub adapter_block_drift: usize,
    pub schema_drift: usize,
    pub forbidden_feature_terms: usize,
    pub pending_audit_snapshot: usize,
}

/// A lint report: its summary, and whether nothing was found.
#[derive(Debug, Clone, Copy)]
pub struct LintReport {
    pub summary: LintSummary,
    pub clean: bool,
}

/// The counts of a lint summary, in report order.
pub open spec fn lint_counts(s: LintSummary) -> Seq<(Seq<char>, u64)> {
    seq![
        ("total"@, s.total as u64),
        ("duplicate_ids"@, s.duplicate_ids as u64),
        ("broken_links"@, s.broken_links as u64),
        ("deprecated_active_links"@, s.deprecated_active_links as u64),
        ("missing_source"@, s.missing_source as u64),
        ("missing_summary"@, s.missing_summary as u64),
        ("missing_gates"@, s.missing_gates as u64),
        ("adapter_block_drift"@, s.adapter_block_drift as u64),
        ("schema_drift"@, s.schema_drift as u64),
        ("forbidden_feature_terms"@, s.forbidden_feature_terms as u64),
        ("pending_audit_snapshot"@, s.pending_audit_snapshot as u64),
    ]
}

/// The exit status of a lint run: success when nothing was found, drift otherwise.
pub fn verify_exit_code(report: &LintReport) -> (r: u8)
    ensures
        r == if report.clean { EXIT_SUCCESS } else { EXIT_DRIFT_DETECTED },
{
    if report.clean { EXIT_SUCCESS } else { EXIT_DRIFT_DETECTED }
}

/// The event of a lint run.
pub fn verify_observation_event(report: &LintReport) -> (r: ObservationEvent)
    ensures
        r.has_counts(EventType::Verify,
            if report.clean { EventOutcome::Success } else { EventOutcome::Warning },
            lint_counts(report.summary), None),
{
    let s = &report.summary;
    let mut items: Vec<(&'static str, u64)> = Vec::new();
    items.push(("total", s.total as u64));
    items.push(("duplicate_ids", s.duplicate_ids as u64));
    items.push(("broken_links", s.broken_links as u64));
    items.push(("deprecated_active_links", s.deprecated_active_links as u64));
    items.push(("missing_source", s.missing_source as u64));
    items.push(("missing_summary", s.missing_summary as u64));
    items.push(("missing_gates", s.missing_gates as u64));
    items.push(("adapter_block_drift", s.adapter_block_drift as u64));
    items.push(("schema_drift", s.schema_drift as u64));
    items.push(("forbidden_feature_terms", s.forbidden_feature_terms as u64));
    items.push(("pending_audit_snapshot", s.pending_audit_snapshot as u64));
    assert(pair_view(items@) =~= lint_counts(report.summary));
    let outcome = if report.clean { EventOutcome::Success } else { EventOutcome::Warning };
    counts_observation_event(EventType::Verify, outcome, items.as_slice(), None)
}

/// What happened on the way to a tool run: whether the tool passed validation and
/// whether its process was spawned.
#[derive(Debug, Clone, Copy)]
pub struct ToolRunTrace {
    pub validated: bool,
    pub spawned: bool,
}

impl ToolRunTrace {
    /// The tool passed validation.
    pub fn validation_succeeded(&self) -> (r: bool)
        ensures
            r == self.validated,
    {
        self.validated
    }

    /// The tool's process was spawned.
    pub fn process_spawned(&self) -> (r: bool)
        ensures
            r == self.spawned,
    {
        self.spawned
    }
}

/// One captured output stream of a tool run.
#[derive(Debug)]
pub struct ArtifactStream {
    pub path: String,
    pub bytes: u64,
}

/// The captured output of a tool run.
#[derive(Debug)]
pub struct ToolRunArtifacts {
    pub stdout: ArtifactStream,
    pub stderr: ArtifactStream,
}

/// A completed tool run.
#[derive(Debug)]
pub struct ToolRunRecord {
    pub artifacts: Option<ToolRunArtifacts>,
}

/// What a tool invocation did.
#[derive(Debug)]
pub enum ToolInvocationRecord {
    Run(ToolRunRecord),
    DryRun,
}

/// The shape of one recorded event: type, outcome, error code, whether it is a
/// terminal event (stamped with the frozen duration), and the path and size of
/// the artifact it reports, for an artifact event.
pub type EventShape = (EventType, EventOutcome, Option<Seq<char>>, bool, Option<(Seq<char>, u64)>);

/// The outcome and error code the validation event of a tool run carries.
pub open spec fn tool_validation_shape(trace: ToolRunTrace, result: Result<ToolInvocationRecord, RunToolError>) -> EventShape {
    match result {
        Ok(_) => (EventType::ToolValidation, EventOutcome::Success, None, true, None),
        Err(RunToolError::UnsafeActionBlocked { .. }) =>
            (EventType::ToolValidation, EventOutcome::Blocked, Some("UNSAFE_ACTION_BLOCKED"@), true, None),
        Err(e) => if trace.validated {
            (EventType::ToolValidation, EventOutcome::Success, None, true, None)
        } else {
            (EventType::ToolValidation, EventOutcome::Failure, Some(tool_run_code(e)), true, None)
        },
    }
}

/// The events that report the captured output of a run.
pub open spec fn artifact_shapes(artifacts: Option<ToolRunArtifacts>) -> Seq<EventShape> {
    match artifacts {
        Some(a) => seq![
            (EventType::ToolOutputArtifact, EventOutcome::Recorded, None, true, Some((a.stdout.path@, a.stdout.bytes))),
            (EventType::ToolOutputArtifact, EventOutcome::Recorded, None, true, Some((a.stderr.path@, a.stderr.bytes))),
        ],
        None => seq![],
    }
}

/// The events that report how a validated tool run ended.
pub open spec fn tool_result_shapes(result: Result<ToolInvocationRecord, RunToolError>) -> Seq<EventShape> {
    match result {
        Ok(ToolInvocationRecord::Run(record)) =>
            seq![(EventType::ToolRunCompleted, EventOutcome::Success, None, true, None)]
                + artifact_shapes(record.artifacts),
        Ok(ToolInvocationRecord::DryRun) => seq![],
        Err(RunToolError::Limit(ToolRunLimitError::TimedOut { .. })) =>
            seq![(EventType::ToolRunTimeout, EventOutcome::Timeout, Some("TOOL_TIMEOUT"@), true, None)],
        Err(e) => seq![(EventType::ToolRunFailed, EventOutcome::Failure, Some(tool_run_code(e)), true, None)],
    }
}

/// Every event a tool run records, in order: its validation, and for a validated
/// run that is not a dry run, its start (where a process was spawned) and its end.
pub open spec fn tool_run_shapes(
    trace: ToolRunTrace,
    result: Result<ToolInvocationRecord, RunToolError>,
    dry_run: bool,
) -> Seq<EventShape> {
    let validation = seq![tool_validation_shape(trace, result)];
    if dry_run || !trace.validated {
        validation
    } else {
        validation
            + (if trace.spawned { seq![(EventType::ToolRunStarted, EventOutcome::Started, None, false, None)] } else { seq![] })
            + tool_result_shapes(result)
    }
}

/// `w` is what the collector receives for an event of shape `shape` about tool
/// `tool_id`, the command being in state `obs`.
pub open spec fn matches_shape(
    w: ObservationEvent,
    shape: EventShape,
    obs: CommandObservation,
    tool_id: Seq<char>,
    approval_present: bool,
) -> bool {
    &&& w.event_type == shape.0
    &&& w.outcome == shape.1
    &&& match (w.error_code, shape.2) {
        (Some(c), Some(s)) => c@ == s,
        (None, None) => true,
        _ => false,
    }
    &&& w.duration_ms == if shape.3 { obs.terminal_duration_ms } else { None }
    &&& match obs.bundle_id {
        Some(b) => w.bundle_id matches Some(s) && s@ == b@,
        None => w.bundle_id is None,
    }
    &&& match shape.4 {
        Some((path, bytes)) => w.payload matches EventPayload::Artifact(p) && p.path@ == path && p.bytes == bytes,
        None => w.payload matches EventPayload::Tool(p) && p.tool_id@ == tool_id && p.approval_present == approval_present,
    }
}

/// Records one event of a tool run and extends the plan of recorded shapes.
fn record_tool_event(
    observation: &mut CommandObservation,
    writes: &mut Vec<ObservationEvent>,
    event: ObservationEvent,
    terminal: bool,
    Ghost(plan): Ghost<Seq<EventShape>>,
    Ghost(shape): Ghost<EventShape>,
    Ghost(tool_id): Ghost<Seq<char>>,
    Ghost(approval_present): Ghost<bool>,
)
    requires
        old(observation).inv(),
        old(observation).terminal_duration_ms is Some,
        old(observation).correlation is None ==> old(writes)@.len() == 0,
        old(observation).correlation is Some ==> old(writes)@.len() == plan.len(),
        old(observation).correlation is Some ==> forall|i: int| 0 <= i < plan.len()
            ==> matches_shape(#[trigger] old(writes)@[i], plan[i], *old(observation), tool_id, approval_present),
        event.event_type == shape.0,
        event.outcome == shape.1,
        match (event.error_code, shape.2) {
            (Some(c), Some(s)) => c@ == s,
            (None, None) => true,
            _ => false,
        },
        event.bundle_id is None,
        event.duration_ms is None,
        terminal == shape.3,
        match shape.4 {
            Some((path, bytes)) => event.payload matches EventPayload::Artifact(p) && p.path@ == path && p.bytes == bytes,
            None => event.payload matches EventPayload::Tool(p) && p.tool_id@ == tool_id && p.approval_present == approval_present,
        },
    ensures
        *final(observation) == *old(observation),
        old(observation).correlation is None ==> final(writes)@.len() == 0,
        old(observation).correlation is Some ==> final(writes)@.len() == plan.len() + 1,
        old(observation).correlation is Some ==> forall|i: int| 0 <= i < plan.len() + 1
            ==> matches_shape(#[trigger] final(writes)@[i], plan.push(shape)[i], *final(observation), tool_id, approval_present),
{
    let w = if terminal {
        observation.record_terminal(event)
    } else {
        observation.record(event)
    };
    push_write(writes, w);
    proof {
        if old(observation).correlation is Some {
            assert forall|i: int| 0 <= i < plan.len() + 1
                implies matches_shape(#[trigger] writes@[i], plan.push(shape)[i], *observation, tool_id, approval_present) by {
                if i < plan.len() {
                    assert(writes@[i] == old(writes)@[i]);
                }
            }
        }
    }
}

/// Records a tool run: its validation, and for a validated run that is not a dry run,
/// its start and its end, with the captured output of a completed run. Returns the
/// writes for the collector, in order.
pub fn record_tool_run_observation(
    observation: &mut CommandObservation,
    tool_id: &str,
    approval_present: bool,
    trace: ToolRunTrace,
    result: &Result<ToolInvocationRecord, RunToolError>,
    dry_run: bool,
) -> (writes: Vec<ObservationEvent>)
    requires
        old(observation).inv(),
    ensures
        final(observation).inv(),
        final(observation).froze(*old(observation)),
        old(observation).correlation is None ==> writes@.len() == 0,
        old(observation).correlation is Some ==> {
            let shapes = tool_run_shapes(trace, *result, dry_run);
            &&& writes@.len() == shapes.len()
            &&& forall|i: int| 0 <= i < shapes.len()
                ==> matches_shape(#[trigger] writes@[i], shapes[i], *final(observation), tool_id@, approval_present)
        },
        old(observation).correlation is Some && !dry_run && trace.validated ==> match *result {
            Ok(ToolInvocationRecord::Run(record)) => match record.artifacts {
                Some(a) => {
                    &&& writes@.len() >= 2
                    &&& writes@[writes@.len() - 2].event_type == EventType::ToolOutputArtifact
                    &&& writes@[writes@.len() - 2].payload matches EventPayload::Artifact(p)
                        && p.path@ == a.stdout.path@ && p.bytes == a.stdout.bytes
                    &&& writes@.last().event_type == EventType::ToolOutputArtifact
                    &&& writes@.last().payload matches EventPayload::Artifact(p)
                        && p.path@ == a.stderr.path@ && p.bytes == a.stderr.bytes
                    &&& forall|i: int| 0 <= i < writes@.len() - 2
                        ==> (#[trigger] writes@[i]).event_type != EventType::ToolOutputArtifact
                },
                None => forall|i: int| 0 <= i < writes@.len()
                    ==> (#[trigger] writes@[i]).event_type != EventType::ToolOutputArtifact,
            },
            _ => forall|i: int| 0 <= i < writes@.len()
                ==> (#[trigger] writes@[i]).event_type != EventType::ToolOutputArtifact,
        },
{
    proof { lemma_tool_run_artifacts(trace, *result, dry_run); }
    let mut writes: Vec<ObservationEvent> = Vec::new();
    observation.freeze_terminal_duration_ms();
    let ghost start = *observation;
    let ghost tid = tool_id@;
    let ghost mut plan: Seq<EventShape> = Seq::empty();

    let (validation_outcome, validation_error_code): (EventOutcome, Option<&'static str>) = match result {
        Ok(_) => (EventOutcome::Success, None),
        Err(RunToolError::UnsafeActionBlocked { .. }) => (EventOutcome::Blocked, Some("UNSAFE_ACTION_BLOCKED")),
        Err(error) => if trace.validation_succeeded() {
            (EventOutcome::Success, None)
        } else {
            (EventOutcome::Failure, Some(tool_run_error_code(error)))
        },
    };
    let ghost vshape = tool_validation_shape(trace, *result);
    proof { reveal_strlit("UNSAFE_ACTION_BLOCKED"); }
    let event = tool_observation_event(EventType::ToolValidation, validation_outcome, tool_id,
        approval_present, validation_error_code);
    record_tool_event(observation, &mut writes, event, true, Ghost(plan), Ghost(vshape), Ghost(tid), Ghost(approval_present));
    proof { plan = plan.push(vshape); }

    if dry_run || !trace.validation_succeeded() {
        assert(plan =~= tool_run_shapes(trace, *result, dry_run));
        return writes;
    }
    let ghost before_start = plan;
    if trace.process_spawned() {
        let ghost sshape: EventShape = (EventType::ToolRunStarted, EventOutcome::Started, None, false, None);
        let event = tool_observation_event(EventType::ToolRunStarted, EventOutcome::Started, tool_id, approval_present, None);
        record_tool_event(observation, &mut writes, event, false, Ghost(plan), Ghost(sshape), Ghost(tid), Ghost(approval_present));
        proof { plan = plan.push(sshape); }
    }
    let ghost after_start = plan;

    match result {
        Ok(ToolInvocationRecord::Run(record)) => {
            let ghost cshape: EventShape = (EventType::ToolRunCompleted, EventOutcome::Success, None, true, None);
            let event = tool_observation_event(EventType::ToolRunCompleted, EventOutcome::Success, tool_id, approval_present, None);
            record_tool_event(observation, &mut writes, event, true, Ghost(plan), Ghost(cshape), Ghost(tid), Ghost(approval_present));
            proof { plan = plan.push(cshape); }
            match &record.artifacts {
                Some(artifacts) => {
                    let ghost oshape: EventShape = (EventType::ToolOutputArtifact, EventOutcome::Recorded, None, true,
                        Some((artifacts.stdout.path@, artifacts.stdout.bytes)));
                    let payload = ArtifactPayload { path: text(artifacts.stdout.path.as_str()), bytes: artifacts.stdout.bytes };
                    let event = command_observation_event(EventType::ToolOutputArtifact, EventOutcome::Recorded,
                        EventPayload::Artifact(payload), None);
                    record_tool_event(observation, &mut writes, event, true, Ghost(plan), Ghost(oshape), Ghost(tid), Ghost(approval_present));
                    proof { plan = plan.push(oshape); }
                    let ghost eshape: EventShape = (EventType::ToolOutputArtifact, EventOutcome::Recorded, None, true,
                        Some((artifacts.stderr.path@, artifacts.stderr.bytes)));
                    let payload = ArtifactPayload { path: text(artifacts.stderr.path.as_str()), bytes: artifacts.stderr.bytes };
                    let event = command_observation_event(EventType::ToolOutputArtifact, EventOutcome::Recorded,
                        EventPayload::Artifact(payload), None);
                    record_tool_event(observation, &mut writes, event, true, Ghost(plan), Ghost(eshape), Ghost(tid), Ghost(approval_present));
                    proof { plan = plan.push(eshape); }
                },
                None => {},
            }
        },
        Ok(ToolInvocationRecord::DryRun) => {},
        Err(RunToolError::Limit(ToolRunLimitError::TimedOut { .. })) => {
            proof { reveal_strlit("TOOL_TIMEOUT"); }
            let ghost tshape: EventShape = (EventType::ToolRunTimeout, EventOutcome::Timeout, Some("TOOL_TIMEOUT"@), true, None);
            let event = tool_observation_event(EventType::ToolRunTimeout, EventOutcome::Timeout, tool_id,
                approval_present, Some("TOOL_TIMEOUT"));
            record_tool_event(observation, &mut writes, event, true, Ghost(plan), Ghost(tshape), Ghost(tid), Ghost(approval_present));
            proof { plan = plan.push(tshape); }
        },
        Err(error) => {
            let ghost fshape: EventShape = (EventType::ToolRunFailed, EventOutcome::Failure, Some(tool_run_code(*error)), true, None);
            let code = tool_run_error_code(error);
            let event = tool_observation_event(EventType::ToolRunFailed, EventOutcome::Failure, tool_id,
                approval_present, Some(code));
            record_tool_event(observation, &mut writes, event, true, Ghost(plan), Ghost(fshape), Ghost(tid), Ghost(approval_present));
            proof { plan = plan.push(fshape); }
        },
    }
    assert(after_start.subrange(before_start.len() as int, after_start.len() as int) =~=
        (if trace.spawned { seq![(EventType::ToolRunStarted, EventOutcome::Started, None, false, None)] } else { Seq::<EventShape>::empty() }));
    assert(plan =~= tool_run_shapes(trace, *result, dry_run));
    writes
}

/// Whether an event shape reports how a run ended.
pub open spec fn is_run_end(shape: EventShape) -> bool {
    shape.0 == EventType::ToolRunCompleted || shape.0 == EventType::ToolRunTimeout || shape.0 == EventType::ToolRunFailed
}

/// What a tool run records: a dry run or a run that fails validation records its
/// validation alone, with no start and no end; a validated run records one start
/// exactly when a process was spawned, and exactly one end unless it was a dry run.
pub proof fn lemma_tool_run_events(
    trace: ToolRunTrace,
    result: Result<ToolInvocationRecord, RunToolError>,
    dry_run: bool,
)
    ensures
        tool_run_shapes(trace, result, dry_run)[0].0 == EventType::ToolValidation,
        dry_run || !trace.validated ==> tool_run_shapes(trace, result, dry_run).len() == 1,
        !dry_run && trace.validated && trace.spawned ==> tool_run_shapes(trace, result, dry_run)[1].0 == EventType::ToolRunStarted,
        !dry_run && trace.validated && !(result matches Ok(ToolInvocationRecord::DryRun)) ==> {
            let shapes = tool_run_shapes(trace, result, dry_run);
            let first_end = if trace.spawned { 2int } else { 1int };
            &&& is_run_end(shapes[first_end])
            &&& forall|i: int| 0 <= i < shapes.len() && i != first_end ==> !is_run_end(#[trigger] shapes[i])
        },
{
    let shapes = tool_run_shapes(trace, result, dry_run);
    if !dry_run && trace.validated {
        let start: Seq<EventShape> = if trace.spawned {
            seq![(EventType::ToolRunStarted, EventOutcome::Started, None, false, None)]
        } else {
            seq![]
        };
        let head = seq![tool_validation_shape(trace, result)] + start;
        assert(shapes =~= head + tool_result_shapes(result));
        assert(shapes[0] == head[0]);
        if !(result matches Ok(ToolInvocationRecord::DryRun)) {
            let tail = tool_result_shapes(result);
            assert(tail.len() >= 1);
            assert(shapes[head.len() as int] == tail[0]);
            assert forall|i: int| 0 <= i < shapes.len() && i != head.len() implies !is_run_end(#[trigger] shapes[i]) by {
                if i < head.len() {
                    assert(shapes[i] == head[i]);
                } else {
                    assert(shapes[i] == tail[i - head.len()]);
                }
            }
        }
    }
}

/// The output of a completed run is reported stream by stream: the next-to-last
/// event reports the stdout stream, with its own path and size, and the last event
/// the stderr stream, with its own path and size; no other event reports output,
/// and a run without captured output, a failed run or a dry run reports none.
pub proof fn lemma_tool_run_artifacts(
    trace: ToolRunTrace,
    result: Result<ToolInvocationRecord, RunToolError>,
    dry_run: bool,
)
    ensures
        ({
            let shapes = tool_run_shapes(trace, result, dry_run);
            !dry_run && trace.validated ==> match result {
                Ok(ToolInvocationRecord::Run(record)) => match record.artifacts {
                    Some(a) => {
                        &&& shapes.len() >= 2
                        &&& shapes[shapes.len() - 2].0 == EventType::ToolOutputArtifact
                        &&& shapes[shapes.len() - 2].4 == Some((a.stdout.path@, a.stdout.bytes))
                        &&& shapes.last().0 == EventType::ToolOutputArtifact
                        &&& shapes.last().4 == Some((a.stderr.path@, a.stderr.bytes))
                        &&& forall|i: int| 0 <= i < shapes.len() - 2
                            ==> (#[trigger] shapes[i]).0 != EventType::ToolOutputArtifact && shapes[i].4 is None
                    },
                    None => forall|i: int| 0 <= i < shapes.len()
                        ==> (#[trigger] shapes[i]).0 != EventType::ToolOutputArtifact && shapes[i].4 is None,
                },
                _ => forall|i: int| 0 <= i < shapes.len()
                    ==> (#[trigger] shapes[i]).0 != EventType::ToolOutputArtifact && shapes[i].4 is None,
            }
        }),
{
    let shapes = tool_run_shapes(trace, result, dry_run);
    if !dry_run && trace.validated {
        let start: Seq<EventShape> = if trace.spawned {
            seq![(EventType::ToolRunStarted, EventOutcome::Started, None, false, None)]
        } else {
            seq![]
        };
        let head = seq![tool_validation_shape(trace, result)] + start;
        let tail = tool_result_shapes(result);
        assert(shapes =~= head + tail);
        assert forall|i: int| 0 <= i < head.len() implies
            (#[trigger] shapes[i]).0 != EventType::ToolOutputArtifact && shapes[i].4 is None by {
            assert(shapes[i] == head[i]);
        }
        match result {
            Ok(ToolInvocationRecord::Run(record)) => {
                match record.artifacts {
                    Some(a) => {
                        assert(shapes[head.len() as int] == tail[0]);
                        assert(shapes[shapes.len() - 2] == tail[1]);
                        assert(shapes[shapes.len() - 1] == tail[2]);
                    },
                    None => {
                        assert forall|i: int| 0 <= i < shapes.len() implies
                            (#[trigger] shapes[i]).0 != EventType::ToolOutputArtifact && shapes[i].4 is None by {
                            if i >= head.len() { assert(shapes[i] == tail[i - head.len()]); }
                        }
                    },
                }
            },
            _ => {
                assert forall|i: int| 0 <= i < shapes.len() implies
                    (#[trigger] shapes[i]).0 != EventType::ToolOutputArtifact && shapes[i].4 is None by {
                    if i >= head.len() { assert(shapes[i] == tail[i - head.len()]); }
                }
            },
        }
    } else {
        assert(shapes.len() == 1);
    }
}

} // verus!
