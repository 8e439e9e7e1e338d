//! Local Observability events: what a command records about itself, and the
//! builders that shape each kind of event from a command's result.
use vstd::prelude::*;
use crate::error::text;

verus! {

/// What happened.
#[derive(Debug, Clone, Copy, PartialEq, Eq, Structural)]
pub enum EventType {
    AdapterDrift,
    AdapterSeed,
    AdapterSync,
    ArtifactsCleanup,
    AuditSnapshotCompleted,
    AuditSnapshotFailed,
    AuditSnapshotPending,
    Doctor,
    InstallCompleted,
    InstallFailed,
    InstallStarted,
    LinkCreated,
    McpStatus,
    NodeCreated,
    NodeDeprecated,
    NodeUpdated,
    RecallCompleted,
    RecallContinuation,
    RecallEmpty,
    RecallFailed,
    RecallMandatoryOverflow,
    RecallStarted,
    RecallTruncated,
    ReflectionApplied,
    ReflectionInventory,
    ReflectionProposal,
    Remember,
    TeachApplied,
    TeachProposed,
    TeachStarted,
    ToolOutputArtifact,
    ToolRunCompleted,
    ToolRunFailed,
    ToolRunStarted,
    ToolRunTimeout,
    ToolValidation,
    Verify,
    WorkspaceInit,
}

/// How it ended.
#[derive(Debug, Clone, Copy, PartialEq, Eq, Structural)]
pub enum EventOutcome {
    Applied,
    Blocked,
    Configured,
    ConfiguredUnverified,
    Drafted,
    Empty,
    Failure,
    Missing,
    Overflow,
    Pending,
    Proposed,
    Recorded,
    Started,
    Success,
    Timeout,
    Truncated,
    Warning,
}

/// The state of an MCP profile as observed.
#[derive(Debug, Clone, Copy, PartialEq, Eq, Structural)]
pub enum McpStatus {
    Installed,
    Missing,
    ConfiguredUnverified,
}

/// Why a node was selected by recall, as observed.
#[derive(Debug, Clone, Copy, PartialEq, Eq, Structural)]
pub enum SelectionReason {
    Mandatory,
    TypedRoot,
    FtsBm25,
    DirectLink,
    GraphTraversal,
    Workflow,
    Tool,
    FailureMode,
}

/// An event that could not be shaped.
#[derive(Debug, Clone, Copy, PartialEq, Eq, Structural)]
pub enum CollectorInputError {
    Serialization,
}

/// One named count.
#[derive(Debug, Clone, Copy)]
pub struct CountItem {
    pub name: &'static str,
    pub count: u64,
}

/// A node as observed.
#[derive(Debug)]
pub struct NodePayload {
    pub id: i64,
    pub node_type: String,
    pub title: String,
    pub summary: Option<String>,
    pub source_ref: Option<String>,
}

/// A link as observed.
#[derive(Debug)]
pub struct LinkPayload {
    pub source_node_id: i64,
    pub target_node_id: i64,
    pub link_type: String,
}

/// A tool as observed.
#[derive(Debug)]
pub struct ToolPayload {
    pub tool_id: String,
    pub approval_present: bool,
}

/// An MCP profile as observed.
#[derive(Debug)]
pub struct McpPayload {
    pub profile_id: String,
    pub status: McpStatus,
}

/// A captured output artifact as observed.
#[derive(Debug)]
pub struct ArtifactPayload {
    pub path: String,
    pub bytes: u64,
}

/// A BM25 score of a selected node; the rank is carried as the bits of its
/// floating-point value.
#[derive(Debug, Clone, Copy, PartialEq, Eq, Structural)]
pub struct RecallScore {
    pub node_id: i64,
    pub rank_bits: u64,
}

/// A recall as observed: how many nodes, and for small results which nodes,
/// why, and how they scored.
#[derive(Debug)]
pub struct RecallPayload {
    pub node_count: u64,
    pub more_results: bool,
    pub continuation: u64,
    pub fts_fallback_used: bool,
    pub graph_traversal_used: bool,
    pub selected_node_ids: Option<Vec<i64>>,
    pub selection_reasons: Option<Vec<SelectionReason>>,
    pub scores: Option<Vec<RecallScore>>,
}

/// What an event carries.
#[derive(Debug)]
pub enum EventPayload {
    Empty,
    Node(NodePayload),
    Link(LinkPayload),
    Counts(Vec<CountItem>),
    Tool(ToolPayload),
    Mcp(McpPayload),
    Artifact(ArtifactPayload),
    Recall(RecallPayload),
}

/// One Local Observability event.
#[derive(Debug)]
pub struct ObservationEvent {
    pub event_type: EventType,
    pub outcome: EventOutcome,
    pub payload: EventPayload,
    pub error_code: Option<&'static str>,
    pub bundle_id: Option<String>,
    pub duration_ms: Option<u64>,
}

/// The names and values of a list of counts.
pub open spec fn count_view(items: Seq<CountItem>) -> Seq<(Seq<char>, u64)> {
    items.map_values(|c: CountItem| (c.name@, c.count))
}

/// The names and values of a list of `(name, count)` pairs.
pub open spec fn pair_view(items: Seq<(&'static str, u64)>) -> Seq<(Seq<char>, u64)> {
    items.map_values(|p: (&'static str, u64)| (p.0@, p.1))
}

impl ObservationEvent {
    /// The counts the event carries, if it carries counts.
    pub open spec fn counts(self) -> Option<Seq<(Seq<char>, u64)>> {
        match self.payload {
            EventPayload::Counts(items) => Some(count_view(items@)),
            _ => None,
        }
    }

    /// The event is a fresh event of this type and outcome with this error code:
    /// no bundle and no duration stamped yet.
    pub open spec fn fresh(self, event_type: EventType, outcome: EventOutcome, error_code: Option<&'static str>) -> bool {
        &&& self.event_type == event_type
        &&& self.outcome == outcome
        &&& self.error_code == error_code
        &&& self.bundle_id is None
        &&& self.duration_ms is None
    }

    /// The event is a counts event with exactly these counts.
    pub open spec fn has_counts(self, event_type: EventType, outcome: EventOutcome,
        counts: Seq<(Seq<char>, u64)>, error_code: Option<&'static str>) -> bool {
        &&& self.fresh(event_type, outcome, error_code)
        &&& self.counts() == Some(counts)
    }
}

/// The text of an optional string slice as an optional owned string.
pub fn optional_text(s: Option<&str>) -> (r: Option<String>)
    ensures
        match s {
            Some(t) => r matches Some(u) && u@ == t@,
            None => r is None,
        },
{
    match s {
        Some(t) => Some(text(t)),
        None => None,
    }
}

/// An event of the given type and outcome, carrying `payload`, with an error code
/// where the command failed.
pub fn command_observation_event(
    event_type: EventType,
    outcome: EventOutcome,
    payload: EventPayload,
    error_code: Option<&'static str>,
) -> (r: ObservationEvent)
    ensures
        r.fresh(event_type, outcome, error_code),
        r.payload == payload,
{
    ObservationEvent { event_type, outcome, payload, error_code, bundle_id: None, duration_ms: None }
}

/// A node event.
pub fn node_observation_event(
    event_type: EventType,
    outcome: EventOutcome,
    node: &Node,
) -> (r: ObservationEvent)
    ensures
        r.fresh(event_type, outcome, None),
        r.payload matches EventPayload::Node(p) && p.id == node.id && p.node_type@ == node.node_type@
            && p.title@ == node.title@
            && (match node.summary { Some(s) => p.summary matches Some(t) && t@ == s@, None => p.summary is None })
            && (match node.source_ref { Some(s) => p.source_ref matches Some(t) && t@ == s@, None => p.source_ref is None }),
{
    let summary = match &node.summary {
        Some(s) => Some(s.as_str()),
        None => None,
    };
    let source_ref = match &node.source_ref {
        Some(s) => Some(s.as_str()),
        None => None,
    };
    let payload = NodePayload {
        id: node.id,
        node_type: text(node.node_type.as_str()),
        title: text(node.title.as_str()),
        summary: optional_text(summary),
        source_ref: optional_text(source_ref),
    };
    command_observation_event(event_type, outcome, EventPayload::Node(payload), None)
}

/// A memory node, as far as its observation reads it.
#[derive(Debug)]
pub struct Node {
    pub id: i64,
    pub node_type: String,
    pub title: String,
    pub summary: Option<String>,
    pub source_ref: Option<String>,
}

/// A typed link between two nodes.
#[derive(Debug)]
pub struct Link {
    pub source_node_id: i64,
    pub target_node_id: i64,
    pub link_type: String,
}

/// The event of a created link.
pub fn link_observation_event(link: &Link) -> (r: ObservationEvent)
    ensures
        r.fresh(EventType::LinkCreated, EventOutcome::Recorded, None),
        r.payload matches EventPayload::Link(p) && p.source_node_id == link.source_node_id
            && p.target_node_id == link.target_node_id && p.link_type@ == link.link_type@,
{
    let payload = LinkPayload {
        source_node_id: link.source_node_id,
        target_node_id: link.target_node_id,
        link_type: text(link.link_type.as_str()),
    };
    command_observation_event(EventType::LinkCreated, EventOutcome::Recorded, EventPayload::Link(payload), None)
}

/// A counts event with one count, `items`.
pub fn items_observation_event(
    event_type: EventType,
    outcome: EventOutcome,
    item_count: usize,
) -> (r: ObservationEvent)
    ensures
        r.has_counts(event_type, outcome, seq![("items"@, item_count as u64)], None),
{
    let mut items: Vec<CountItem> = Vec::new();
    items.push(CountItem { name: "items", count: item_count as u64 });
    assert(count_view(items@) =~= seq![("items"@, item_count as u64)]);
    command_observation_event(event_type, outcome, EventPayload::Counts(items), None)
}

/// A counts event carrying `items` in order.
pub fn counts_observation_event(
    event_type: EventType,
    outcome: EventOutcome,
    items: &[(&'static str, u64)],
    error_code: Option<&'static str>,
) -> (r: ObservationEvent)
    ensures
        r.has_counts(event_type, outcome, pair_view(items@), error_code),
{
    let mut counts: Vec<CountItem> = Vec::new();
    let mut i: usize = 0;
    while i < items.len()
        invariant
            i <= items@.len(),
            count_view(counts@) =~= pair_view(items@.take(i as int)),
        decreases items@.len() - i,
    {
        let (name, count) = items[i];
        let ghost before = counts@;
        counts.push(CountItem { name, count });
        proof {
            assert(items@.take(i + 1) =~= items@.take(i as int).push(items@[i as int]));
            assert(counts@ =~= before.push(CountItem { name, count }));
            assert(count_view(counts@) =~= count_view(before).push((name@, count)));
            assert(pair_view(items@.take(i + 1)) =~= pair_view(items@.take(i as int)).push((name@, count)));
        }
        i = i + 1;
    }
    assert(items@.take(items@.len() as int) =~= items@);
    command_observation_event(event_type, outcome, EventPayload::Counts(counts), error_code)
}

/// A tool event.
pub fn tool_observation_event(
    event_type: EventType,
    outcome: EventOutcome,
    tool_id: &str,
    approval_present: bool,
    error_code: Option<&'static str>,
) -> (r: ObservationEvent)
    ensures
        r.fresh(event_type, outcome, error_code),
        r.payload matches EventPayload::Tool(p) && p.tool_id@ == tool_id@ && p.approval_present == approval_present,
{
    let payload = ToolPayload { tool_id: text(tool_id), approval_present };
    command_observation_event(event_type, outcome, EventPayload::Tool(payload), error_code)
}

/// The event of a recall whose mandatory context overflowed.
pub fn mandatory_overflow_observation_event(offending_node_count: usize) -> (r: ObservationEvent)
    ensures
        r.has_counts(EventType::RecallMandatoryOverflow, EventOutcome::Overflow,
            seq![("offending_nodes"@, offending_node_count as u64)], None),
{
    let mut items: Vec<CountItem> = Vec::new();
    items.push(CountItem { name: "offending_nodes", count: offending_node_count as u64 });
    assert(count_view(items@) =~= seq![("offending_nodes"@, offending_node_count as u64)]);
    command_observation_event(EventType::RecallMandatoryOverflow, EventOutcome::Overflow, EventPayload::Counts(items), None)
}

} // verus!
