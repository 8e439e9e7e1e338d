//! What a task recall tells Local Observability: how many nodes it selected,
//! why, and how they scored.
//!
//! Scores and confidences are floating-point values; they are carried here as
//! the bits of those values and never computed with.
use vstd::prelude::*;
use crate::event::{
    ObservationEvent, EventType, EventOutcome, EventPayload, SelectionReason, RecallScore, RecallPayload,
    CollectorInputError, command_observation_event, optional_text,
};
use crate::error::text;
use crate::event::{mandatory_overflow_observation_event, ObservationEvent as Event};

verus! {

/// Which expansion brought a node in.
#[derive(Debug, Clone, Copy, PartialEq, Eq, Structural)]
pub enum RecallExpansionType {
    Workflow,
    Tool,
    FailureMode,
}

/// Why recall selected a node.
#[derive(Debug, Clone, Copy, PartialEq, Eq, Structural)]
pub enum RecallSelectionReason {
    MandatoryContext,
    TypedRoot,
    FtsBm25 { rank_bits: u64 },
    DirectLink,
    GraphTraversal,
    Expansion { expansion_type: RecallExpansionType },
}

/// A node as recall returns it.
#[derive(Debug)]
pub struct RecallNode {
    pub id: i64,
    pub node_type: String,
    pub title: String,
    pub summary: Option<String>,
    pub source_ref: Option<String>,
    pub trust_level: Option<String>,
    pub confidence_bits: Option<u64>,
}

/// A selected node and the reasons it was selected, in order.
#[derive(Debug)]
pub struct SelectedRecallNode {
    pub node: RecallNode,
    pub selection_reasons: Vec<RecallSelectionReason>,
}

/// A selected node as the recall bundle records it.
#[derive(Debug)]
pub struct RecallBundleNode {
    pub id: i64,
    pub node_type: String,
    pub title: String,
    pub summary: Option<String>,
    pub source_ref: Option<String>,
    pub trust_level: Option<String>,
    pub confidence_bits: Option<u64>,
    pub score_bits: Option<u64>,
    pub reasons: Vec<SelectionReason>,
}

/// The observed form of a selection reason.
pub open spec fn observed_reason(reason: RecallSelectionReason) -> SelectionReason {
    match reason {
        RecallSelectionReason::MandatoryContext => SelectionReason::Mandatory,
        RecallSelectionReason::TypedRoot => SelectionReason::TypedRoot,
        RecallSelectionReason::FtsBm25 { .. } => SelectionReason::FtsBm25,
        RecallSelectionReason::DirectLink => SelectionReason::DirectLink,
        RecallSelectionReason::GraphTraversal => SelectionReason::GraphTraversal,
        RecallSelectionReason::Expansion { expansion_type } => match expansion_type {
            RecallExpansionType::Workflow => SelectionReason::Workflow,
            RecallExpansionType::Tool => SelectionReason::Tool,
            RecallExpansionType::FailureMode => SelectionReason::FailureMode,
        },
    }
}

/// The observed form of a selection reason.
pub fn recall_selection_reason(reason: &RecallSelectionReason) -> (r: SelectionReason)
    ensures
        r == observed_reason(*reason),
{
    match reason {
        RecallSelectionReason::MandatoryContext => SelectionReason::Mandatory,
        RecallSelectionReason::TypedRoot => SelectionReason::TypedRoot,
        RecallSelectionReason::FtsBm25 { .. } => SelectionReason::FtsBm25,
        RecallSelectionReason::DirectLink => SelectionReason::DirectLink,
        RecallSelectionReason::GraphTraversal => SelectionReason::GraphTraversal,
        RecallSelectionReason::Expansion { expansion_type } => match expansion_type {
            RecallExpansionType::Workflow => SelectionReason::Workflow,
            RecallExpansionType::Tool => SelectionReason::Tool,
            RecallExpansionType::FailureMode => SelectionReason::FailureMode,
        },
    }
}

/// The rank of the first full-text reason, if any reason is a full-text match.
pub open spec fn first_fts_rank(reasons: Seq<RecallSelectionReason>) -> Option<u64>
    decreases reasons.len(),
{
    if reasons.len() == 0 {
        None
    } else {
        match reasons[0] {
            RecallSelectionReason::FtsBm25 { rank_bits } => Some(rank_bits),
            _ => first_fts_rank(reasons.drop_first()),
        }
    }
}

/// The rank of the first full-text reason of a node.
fn fts_rank(reasons: &Vec<RecallSelectionReason>) -> (r: Option<u64>)
    ensures
        r == first_fts_rank(reasons@),
{
    let mut i: usize = 0;
    assert(reasons@.skip(0) =~= reasons@);
    while i < reasons.len()
        invariant
            i <= reasons@.len(),
            first_fts_rank(reasons@) == first_fts_rank(reasons@.skip(i as int)),
        decreases reasons@.len() - i,
    {
        assert(reasons@.skip(i as int).drop_first() =~= reasons@.skip(i + 1));
        match reasons[i] {
            RecallSelectionReason::FtsBm25 { rank_bits } => return Some(rank_bits),
            _ => {},
        }
        i = i + 1;
    }
    None
}

/// Some reason of the node is of the full-text kind.
pub open spec fn has_fts_reason(reasons: Seq<RecallSelectionReason>) -> bool {
    exists|i: int| 0 <= i < reasons.len() && reasons[i] is FtsBm25
}

/// Some reason of the node is of the graph-traversal kind.
pub open spec fn has_graph_reason(reasons: Seq<RecallSelectionReason>) -> bool {
    exists|i: int| 0 <= i < reasons.len() && reasons[i] is GraphTraversal
}

/// The observed reasons of a node, in order.
pub open spec fn observed_reasons(reasons: Seq<RecallSelectionReason>) -> Seq<SelectionReason> {
    reasons.map_values(|r: RecallSelectionReason| observed_reason(r))
}

/// A selected node as the recall bundle records it.
pub open spec fn bundle_node_of(b: RecallBundleNode, s: SelectedRecallNode) -> bool {
    &&& b.id == s.node.id
    &&& b.node_type@ == s.node.node_type@
    &&& b.title@ == s.node.title@
    &&& match s.node.summary { Some(x) => b.summary matches Some(y) && y@ == x@, None => b.summary is None }
    &&& match s.node.source_ref { Some(x) => b.source_ref matches Some(y) && y@ == x@, None => b.source_ref is None }
    &&& match s.node.trust_level { Some(x) => b.trust_level matches Some(y) && y@ == x@, None => b.trust_level is None }
    &&& b.confidence_bits == s.node.confidence_bits
    &&& b.score_bits == first_fts_rank(s.selection_reasons@)
    &&& b.reasons@ == observed_reasons(s.selection_reasons@)
}

/// Copies an optional string.
fn copy_optional(s: &Option<String>) -> (r: Option<String>)
    ensures
        match *s { Some(x) => r matches Some(y) && y@ == x@, None => r is None },
{
    match s {
        Some(x) => Some(text(x.as_str())),
        None => None,
    }
}

/// The observed reasons of a node, in order.
fn observed_reason_list(reasons: &Vec<RecallSelectionReason>) -> (r: Vec<SelectionReason>)
    ensures
        r@ == observed_reasons(reasons@),
{
    let mut out: Vec<SelectionReason> = Vec::new();
    let mut i: usize = 0;
    while i < reasons.len()
        invariant
            i <= reasons@.len(),
            out@ =~= observed_reasons(reasons@.take(i as int)),
        decreases reasons@.len() - i,
    {
        out.push(recall_selection_reason(&reasons[i]));
        assert(reasons@.take(i + 1) =~= reasons@.take(i as int).push(reasons@[i as int]));
        i = i + 1;
    }
    assert(reasons@.take(reasons@.len() as int) =~= reasons@);
    out
}

/// The selected nodes as the recall bundle records them, in order.
pub fn build_task_recall_bundle_nodes(selected: &Vec<&SelectedRecallNode>) -> (r: Vec<RecallBundleNode>)
    ensures
        r@.len() == selected@.len(),
        forall|i: int| 0 <= i < r@.len() ==> bundle_node_of(#[trigger] r@[i], *selected@[i]),
{
    let mut out: Vec<RecallBundleNode> = Vec::new();
    let mut i: usize = 0;
    while i < selected.len()
        invariant
            i <= selected@.len(),
            out@.len() == i,
            forall|k: int| 0 <= k < i ==> bundle_node_of(#[trigger] out@[k], *selected@[k]),
        decreases selected@.len() - i,
    {
        let s: &SelectedRecallNode = selected[i];
        let node = RecallBundleNode {
            id: s.node.id,
            node_type: text(s.node.node_type.as_str()),
            title: text(s.node.title.as_str()),
            summary: copy_optional(&s.node.summary),
            source_ref: copy_optional(&s.node.source_ref),
            trust_level: copy_optional(&s.node.trust_level),
            confidence_bits: s.node.confidence_bits,
            score_bits: fts_rank(&s.selection_reasons),
            reasons: observed_reason_list(&s.selection_reasons),
        };
        out.push(node);
        i = i + 1;
    }
    out
}

/// The most nodes whose ids, reasons and scores a recall event carries.
pub const MAX_OBSERVED_RECALL_NODES: usize = 128;

/// The scores of the nodes that have a full-text reason, in order.
pub open spec fn observed_scores(selected: Seq<SelectedRecallNode>) -> Seq<RecallScore>
    decreases selected.len(),
{
    if selected.len() == 0 {
        seq![]
    } else {
        let last = selected.last();
        observed_scores(selected.drop_last()) + match first_fts_rank(last.selection_reasons@) {
            Some(rank_bits) => seq![RecallScore { node_id: last.node.id, rank_bits }],
            None => seq![],
        }
    }
}

/// The selected nodes, each by itself rather than by reference.
pub open spec fn derefs(selected: Seq<&SelectedRecallNode>) -> Seq<SelectedRecallNode> {
    selected.map_values(|s: &SelectedRecallNode| *s)
}

/// The recall payload of a page: counts and flags always; for at most
/// `MAX_OBSERVED_RECALL_NODES` nodes also their ids, their first reasons and the
/// scores of the full-text matches. A node without any reason cannot be described.
pub fn build_task_recall_observation_payload(
    selected: &Vec<&SelectedRecallNode>,
    more_results: bool,
    incoming_continuation: bool,
    fts_fallback_used: bool,
    graph_traversal_used: bool,
) -> (r: Result<RecallPayload, CollectorInputError>)
    ensures
        (selected@.len() <= MAX_OBSERVED_RECALL_NODES
            && (exists|i: int| 0 <= i < selected@.len() && selected@[i].selection_reasons@.len() == 0))
            <==> r is Err,
        r matches Ok(p) ==> {
            &&& p.node_count == selected@.len()
            &&& p.more_results == more_results
            &&& p.continuation == if incoming_continuation { 1u64 } else { 0u64 }
            &&& p.fts_fallback_used == fts_fallback_used
            &&& p.graph_traversal_used == graph_traversal_used
            &&& if selected@.len() > MAX_OBSERVED_RECALL_NODES {
                &&& p.selected_node_ids is None
                &&& p.selection_reasons is None
                &&& p.scores is None
            } else {
                &&& p.selected_node_ids matches Some(ids) && ids@ == derefs(selected@).map_values(|s: SelectedRecallNode| s.node.id)
                &&& p.selection_reasons matches Some(rs)
                    && rs@ == derefs(selected@).map_values(|s: SelectedRecallNode| observed_reason(s.selection_reasons@[0]))
                &&& p.scores matches Some(sc) && sc@ == observed_scores(derefs(selected@))
            }
        },
{
    let n = selected.len();
    let continuation: u64 = if incoming_continuation { 1 } else { 0 };
    if n > MAX_OBSERVED_RECALL_NODES {
        return Ok(RecallPayload {
            node_count: n as u64,
            more_results,
            continuation,
            fts_fallback_used,
            graph_traversal_used,
            selected_node_ids: None,
            selection_reasons: None,
            scores: None,
        });
    }
    let ghost nodes = derefs(selected@);
    let mut ids: Vec<i64> = Vec::new();
    let mut reasons: Vec<SelectionReason> = Vec::new();
    let mut scores: Vec<RecallScore> = Vec::new();
    let mut i: usize = 0;
    while i < n
        invariant
            n == selected@.len(),
            n <= MAX_OBSERVED_RECALL_NODES,
            nodes == derefs(selected@),
            i <= n,
            forall|k: int| 0 <= k < i ==> selected@[k].selection_reasons@.len() > 0,
            ids@ =~= nodes.take(i as int).map_values(|s: SelectedRecallNode| s.node.id),
            reasons@ =~= nodes.take(i as int).map_values(|s: SelectedRecallNode| observed_reason(s.selection_reasons@[0])),
            scores@ =~= observed_scores(nodes.take(i as int)),
        decreases n - i,
    {
        let s: &SelectedRecallNode = selected[i];
        if s.selection_reasons.len() == 0 {
            assert(selected@[i as int].selection_reasons@.len() == 0);
            return Err(CollectorInputError::Serialization);
        }
        proof {
            assert(nodes.take(i + 1) =~= nodes.take(i as int).push(nodes[i as int]));
            assert(nodes.take(i + 1).drop_last() =~= nodes.take(i as int));
        }
        ids.push(s.node.id);
        reasons.push(recall_selection_reason(&s.selection_reasons[0]));
        match fts_rank(&s.selection_reasons) {
            Some(rank_bits) => scores.push(RecallScore { node_id: s.node.id, rank_bits }),
            None => {},
        }
        i = i + 1;
    }
    assert(nodes.take(n as int) =~= nodes);
    Ok(RecallPayload {
        node_count: n as u64,
        more_results,
        continuation,
        fts_fallback_used,
        graph_traversal_used,
        selected_node_ids: Some(ids),
        selection_reasons: Some(reasons),
        scores: Some(scores),
    })
}

/// The kinds of reasons a recall page used.
fn reason_kinds(reasons: &Vec<RecallSelectionReason>) -> (r: (bool, bool))
    ensures
        r.0 == has_fts_reason(reasons@),
        r.1 == has_graph_reason(reasons@),
{
    let mut fts = false;
    let mut graph = false;
    let mut i: usize = 0;
    while i < reasons.len()
        invariant
            i <= reasons@.len(),
            fts == exists|k: int| 0 <= k < i && reasons@[k] is FtsBm25,
            graph == exists|k: int| 0 <= k < i && reasons@[k] is GraphTraversal,
        decreases reasons@.len() - i,
    {
        match reasons[i] {
            RecallSelectionReason::FtsBm25 { .. } => fts = true,
            RecallSelectionReason::GraphTraversal => graph = true,
            _ => {},
        }
        i = i + 1;
    }
    (fts, graph)
}

/// A response of task recall, as far as its observation reads it.
#[derive(Debug)]
pub struct RecallResponse {
    pub mandatory_nodes: Vec<SelectedRecallNode>,
    pub task_nodes: Vec<SelectedRecallNode>,
    pub more_results: bool,
    pub task_budget_exhausted: bool,
}

/// What a recall page reports to Local Observability.
#[derive(Debug)]
pub struct RecallObservationFacts {
    pub payload: Result<RecallPayload, CollectorInputError>,
    pub bundle_nodes: Vec<RecallBundleNode>,
    pub empty: bool,
    pub truncated: bool,
    pub more_results: bool,
}

/// The nodes of a response as recall selected them: the mandatory context first,
/// then the task nodes.
pub open spec fn selected_nodes(response: RecallResponse) -> Seq<SelectedRecallNode> {
    response.mandatory_nodes@ + response.task_nodes@
}

/// Copies a list of plain values.
fn copy_values<T: Copy>(v: &Vec<T>) -> (r: Vec<T>)
    ensures
        r@ == v@,
{
    let mut out: Vec<T> = Vec::new();
    let mut i: usize = 0;
    while i < v.len()
        invariant
            i <= v@.len(),
            out@ =~= v@.take(i as int),
        decreases v@.len() - i,
    {
        out.push(v[i]);
        assert(v@.take(i + 1) =~= v@.take(i as int).push(v@[i as int]));
        i = i + 1;
    }
    assert(v@.take(v@.len() as int) =~= v@);
    out
}

/// Copies an optional list of plain values.
fn copy_optional_values<T: Copy>(v: &Option<Vec<T>>) -> (r: Option<Vec<T>>)
    ensures
        match *v { Some(x) => r matches Some(y) && y@ == x@, None => r is None },
{
    match v {
        Some(x) => Some(copy_values(x)),
        None => None,
    }
}

/// A recall payload with the same contents.
fn copy_payload(p: &RecallPayload) -> (r: RecallPayload)
    ensures
        same_payload(r, *p),
{
    RecallPayload {
        node_count: p.node_count,
        more_results: p.more_results,
        continuation: p.continuation,
        fts_fallback_used: p.fts_fallback_used,
        graph_traversal_used: p.graph_traversal_used,
        selected_node_ids: copy_optional_values(&p.selected_node_ids),
        selection_reasons: copy_optional_values(&p.selection_reasons),
        scores: copy_optional_values(&p.scores),
    }
}

/// Two recall payloads have the same contents.
pub open spec fn same_payload(a: RecallPayload, b: RecallPayload) -> bool {
    &&& a.node_count == b.node_count
    &&& a.more_results == b.more_results
    &&& a.continuation == b.continuation
    &&& a.fts_fallback_used == b.fts_fallback_used
    &&& a.graph_traversal_used == b.graph_traversal_used
    &&& match b.selected_node_ids { Some(x) => a.selected_node_ids matches Some(y) && y@ == x@, None => a.selected_node_ids is None }
    &&& match b.selection_reasons { Some(x) => a.selection_reasons matches Some(y) && y@ == x@, None => a.selection_reasons is None }
    &&& match b.scores { Some(x) => a.scores matches Some(y) && y@ == x@, None => a.scores is None }
}

/// What a task recall page reports: its payload and bundle nodes over the selected
/// nodes, whether the task section is empty, and whether the page is truncated.
pub fn task_recall_observation_facts(response: &RecallResponse, incoming_continuation: bool) -> (f: RecallObservationFacts)
    ensures
        ({
            let nodes = selected_nodes(*response);
            let fts = exists|i: int| 0 <= i < nodes.len() && has_fts_reason(#[trigger] nodes[i].selection_reasons@);
            let graph = exists|i: int| 0 <= i < nodes.len() && has_graph_reason(#[trigger] nodes[i].selection_reasons@);
            &&& f.bundle_nodes@.len() == nodes.len()
            &&& forall|i: int| 0 <= i < nodes.len() ==> bundle_node_of(#[trigger] f.bundle_nodes@[i], nodes[i])
            &&& (f.payload is Err <==> (nodes.len() <= MAX_OBSERVED_RECALL_NODES
                && (exists|i: int| 0 <= i < nodes.len() && nodes[i].selection_reasons@.len() == 0)))
            &&& f.payload matches Ok(p) ==> {
                &&& p.node_count == nodes.len()
                &&& p.more_results == response.more_results
                &&& p.continuation == if incoming_continuation { 1u64 } else { 0u64 }
                &&& p.fts_fallback_used == fts
                &&& p.graph_traversal_used == graph
                &&& if nodes.len() > MAX_OBSERVED_RECALL_NODES {
                    p.selected_node_ids is None && p.selection_reasons is None && p.scores is None
                } else {
                    &&& p.selected_node_ids matches Some(ids) && ids@ == nodes.map_values(|s: SelectedRecallNode| s.node.id)
                    &&& p.selection_reasons matches Some(rs)
                        && rs@ == nodes.map_values(|s: SelectedRecallNode| observed_reason(s.selection_reasons@[0]))
                    &&& p.scores matches Some(sc) && sc@ == observed_scores(nodes)
                }
            }
        }),
        f.empty == (response.task_nodes@.len() == 0),
        f.truncated == (response.more_results || response.task_budget_exhausted),
        f.more_results == response.more_results,
{
    let ghost nodes = selected_nodes(*response);
    let mut selected: Vec<&SelectedRecallNode> = Vec::new();
    let mut fts = false;
    let mut graph = false;
    let m = response.mandatory_nodes.len();
    let mut i: usize = 0;
    while i < m
        invariant
            m == response.mandatory_nodes@.len(),
            nodes == selected_nodes(*response),
            i <= m,
            derefs(selected@) =~= nodes.take(i as int),
            fts == exists|k: int| 0 <= k < i && has_fts_reason(#[trigger] nodes[k].selection_reasons@),
            graph == exists|k: int| 0 <= k < i && has_graph_reason(#[trigger] nodes[k].selection_reasons@),
        decreases m - i,
    {
        let s: &SelectedRecallNode = &response.mandatory_nodes[i];
        assert(*s == nodes[i as int]);
        let (f, g) = reason_kinds(&s.selection_reasons);
        fts = fts || f;
        graph = graph || g;
        selected.push(s);
        assert(nodes.take(i + 1) =~= nodes.take(i as int).push(nodes[i as int]));
        i = i + 1;
    }
    let t = response.task_nodes.len();
    let mut j: usize = 0;
    while j < t
        invariant
            m == response.mandatory_nodes@.len(),
            t == response.task_nodes@.len(),
            nodes == selected_nodes(*response),
            j <= t,
            derefs(selected@) =~= nodes.take(m + j),
            fts == exists|k: int| 0 <= k < m + j && has_fts_reason(#[trigger] nodes[k].selection_reasons@),
            graph == exists|k: int| 0 <= k < m + j && has_graph_reason(#[trigger] nodes[k].selection_reasons@),
        decreases t - j,
    {
        let s: &SelectedRecallNode = &response.task_nodes[j];
        assert(*s == nodes[m + j]);
        let (f, g) = reason_kinds(&s.selection_reasons);
        fts = fts || f;
        graph = graph || g;
        selected.push(s);
        assert(nodes.take(m + j + 1) =~= nodes.take(m + j).push(nodes[m + j]));
        j = j + 1;
    }
    assert(nodes.take(m + t) =~= nodes);
    assert(derefs(selected@) =~= nodes);
    assert forall|k: int| 0 <= k < selected@.len() implies *selected@[k] == #[trigger] nodes[k] by {
        assert(derefs(selected@)[k] == *selected@[k]);
    }
    let payload = build_task_recall_observation_payload(&selected, response.more_results, incoming_continuation, fts, graph);
    let bundle_nodes = build_task_recall_bundle_nodes(&selected);
    assert((exists|k: int| 0 <= k < selected@.len() && selected@[k].selection_reasons@.len() == 0)
        == (exists|k: int| 0 <= k < nodes.len() && nodes[k].selection_reasons@.len() == 0)) by {
        if exists|k: int| 0 <= k < selected@.len() && selected@[k].selection_reasons@.len() == 0 {
            let k = choose|k: int| 0 <= k < selected@.len() && selected@[k].selection_reasons@.len() == 0;
            assert(nodes[k].selection_reasons@.len() == 0);
        }
        if exists|k: int| 0 <= k < nodes.len() && nodes[k].selection_reasons@.len() == 0 {
            let k = choose|k: int| 0 <= k < nodes.len() && nodes[k].selection_reasons@.len() == 0;
            assert(selected@[k].selection_reasons@.len() == 0);
        }
    }
    RecallObservationFacts {
        payload,
        bundle_nodes,
        empty: response.task_nodes.len() == 0,
        truncated: response.more_results || response.task_budget_exhausted,
        more_results: response.more_results,
    }
}

impl RecallObservationFacts {
    /// The completed event of the page, carrying its recall payload.
    pub fn completed_event(&self) -> (r: Result<ObservationEvent, CollectorInputError>)
        ensures
            match self.payload {
                Ok(p) => r matches Ok(e) && e.fresh(EventType::RecallCompleted, EventOutcome::Success, None)
                    && (e.payload matches EventPayload::Recall(q) && same_payload(q, p)),
                Err(x) => r == Err::<ObservationEvent, CollectorInputError>(x),
            },
    {
        match &self.payload {
            Ok(p) => Ok(command_observation_event(EventType::RecallCompleted, EventOutcome::Success,
                EventPayload::Recall(copy_payload(p)), None)),
            Err(x) => Err(*x),
        }
    }
}

/// How a recall command ended, as its observation records it.
#[derive(Debug)]
pub enum RecallEnd {
    /// The page was built; these are its facts.
    Completed(RecallObservationFacts),
    /// The command failed with the error of this code.
    Failed { code: &'static str },
    /// The mandatory context did not fit its budget.
    MandatoryOverflow { offending_node_count: usize, code: &'static str },
}

/// The shape of one recall event: type, outcome, error code, and whether it carries
/// the frozen duration.
pub type RecallEventShape = (EventType, EventOutcome, Option<Seq<char>>, bool);

/// The events of a recall bundle, in order: the start, the continuation when the
/// command continued a cursor, then how it ended: an empty and a truncated marker
/// where they apply and the completion; or the failure; or the overflow and then
/// the failure. Every event after the start carries the duration.
pub open spec fn recall_shapes(incoming_continuation: bool, end: RecallEnd) -> Seq<RecallEventShape> {
    let head = seq![(EventType::RecallStarted, EventOutcome::Started, None, false)]
        + if incoming_continuation {
            seq![(EventType::RecallContinuation, EventOutcome::Recorded, None, true)]
        } else {
            seq![]
        };
    head + match end {
        RecallEnd::Completed(f) =>
            (if f.empty { seq![(EventType::RecallEmpty, EventOutcome::Empty, None, true)] } else { seq![] })
            + (if f.truncated { seq![(EventType::RecallTruncated, EventOutcome::Truncated, None, true)] } else { seq![] })
            + seq![(EventType::RecallCompleted, EventOutcome::Success, None, true)],
        RecallEnd::Failed { code } => seq![(EventType::RecallFailed, EventOutcome::Failure, Some(code@), true)],
        RecallEnd::MandatoryOverflow { code, .. } => seq![
            (EventType::RecallMandatoryOverflow, EventOutcome::Overflow, None, true),
            (EventType::RecallFailed, EventOutcome::Failure, Some(code@), true),
        ],
    }
}

/// `e` has shape `shape`, with `duration_ms` where the shape carries the duration.
pub open spec fn has_recall_shape(e: Event, shape: RecallEventShape, duration_ms: u64) -> bool {
    &&& e.event_type == shape.0
    &&& e.outcome == shape.1
    &&& match (e.error_code, shape.2) {
        (Some(c), Some(s)) => c@ == s,
        (None, None) => true,
        _ => false,
    }
    &&& e.duration_ms == if shape.3 { Some(duration_ms) } else { None }
    &&& e.bundle_id is None
}

/// Appends an event of the given shape with an empty payload.
fn push_recall_event(
    events: &mut Vec<Event>,
    event_type: EventType,
    outcome: EventOutcome,
    error_code: Option<&'static str>,
    duration_ms: Option<u64>,
)
    ensures
        final(events)@.len() == old(events)@.len() + 1,
        final(events)@.take(old(events)@.len() as int) == old(events)@,
        final(events)@.last().event_type == event_type,
        final(events)@.last().outcome == outcome,
        final(events)@.last().error_code == error_code,
        final(events)@.last().duration_ms == duration_ms,
        final(events)@.last().bundle_id is None,
        final(events)@.last().payload == EventPayload::Empty,
{
    let mut event = command_observation_event(event_type, outcome, EventPayload::Empty, error_code);
    event.duration_ms = duration_ms;
    let ghost before = events@;
    events.push(event);
    assert(events@.take(before.len() as int) =~= before);
}

/// The events of a recall bundle for the way the command ended. A completed page whose
/// payload could not be shaped yields no events: the bundle write fails as a whole.
pub fn recall_bundle_events(duration_ms: u64, incoming_continuation: bool, end: &RecallEnd)
    -> (r: Result<Vec<Event>, CollectorInputError>)
    ensures
        match *end {
            RecallEnd::Completed(f) => match f.payload {
                Err(x) => r == Err::<Vec<Event>, CollectorInputError>(x),
                Ok(p) => r matches Ok(es) && es@.last().payload matches EventPayload::Recall(q) && same_payload(q, p),
            },
            RecallEnd::MandatoryOverflow { offending_node_count, .. } => r matches Ok(es)
                && es@[es@.len() - 2].counts() == Some(seq![("offending_nodes"@, offending_node_count as u64)]),
            _ => r is Ok,
        },
        r matches Ok(es) ==> {
            let shapes = recall_shapes(incoming_continuation, *end);
            &&& es@.len() == shapes.len()
            &&& forall|i: int| 0 <= i < shapes.len() ==> has_recall_shape(#[trigger] es@[i], shapes[i], duration_ms)
        },
        r matches Ok(es) ==> (events_include(es@, EventType::RecallEmpty)
            <==> (*end matches RecallEnd::Completed(f) && f.empty)),
        r matches Ok(es) ==> (events_include(es@, EventType::RecallTruncated)
            <==> (*end matches RecallEnd::Completed(f) && f.truncated)),
{
    let mut events: Vec<Event> = Vec::new();
    let ghost mut plan: Seq<RecallEventShape> = Seq::empty();
    push_recall_event(&mut events, EventType::RecallStarted, EventOutcome::Started, None, None);
    proof { plan = plan.push((EventType::RecallStarted, EventOutcome::Started, None, false)); }
    if incoming_continuation {
        push_recall_event(&mut events, EventType::RecallContinuation, EventOutcome::Recorded, None, Some(duration_ms));
        proof { plan = plan.push((EventType::RecallContinuation, EventOutcome::Recorded, None, true)); }
    }
    assert forall|i: int| 0 <= i < plan.len() implies has_recall_shape(#[trigger] events@[i], plan[i], duration_ms) by {
        if i == 1 {
            assert(events@[1] == events@.last());
        }
    }
    let ghost head = plan;
    match end {
        RecallEnd::Completed(facts) => {
            let completed = match facts.completed_event() {
                Ok(e) => e,
                Err(x) => return Err(x),
            };
            if facts.empty {
                let ghost before = events@;
                push_recall_event(&mut events, EventType::RecallEmpty, EventOutcome::Empty, None, Some(duration_ms));
                proof {
                    plan = plan.push((EventType::RecallEmpty, EventOutcome::Empty, None, true));
                    assert forall|i: int| 0 <= i < plan.len() implies has_recall_shape(#[trigger] events@[i], plan[i], duration_ms) by {
                        if i < before.len() { assert(events@[i] == events@.take(before.len() as int)[i]); }
                    }
                }
            }
            if facts.truncated {
                let ghost before = events@;
                push_recall_event(&mut events, EventType::RecallTruncated, EventOutcome::Truncated, None, Some(duration_ms));
                proof {
                    plan = plan.push((EventType::RecallTruncated, EventOutcome::Truncated, None, true));
                    assert forall|i: int| 0 <= i < plan.len() implies has_recall_shape(#[trigger] events@[i], plan[i], duration_ms) by {
                        if i < before.len() { assert(events@[i] == events@.take(before.len() as int)[i]); }
                    }
                }
            }
            let mut completed = completed;
            completed.duration_ms = Some(duration_ms);
            let ghost before = events@;
            events.push(completed);
            proof {
                plan = plan.push((EventType::RecallCompleted, EventOutcome::Success, None, true));
                assert forall|i: int| 0 <= i < plan.len() implies has_recall_shape(#[trigger] events@[i], plan[i], duration_ms) by {
                    if i < before.len() { assert(events@[i] == before[i]); }
                }
                assert(plan =~= recall_shapes(incoming_continuation, *end));
            }
        },
        RecallEnd::Failed { code } => {
            let ghost before = events@;
            push_recall_event(&mut events, EventType::RecallFailed, EventOutcome::Failure, Some(*code), Some(duration_ms));
            proof {
                plan = plan.push((EventType::RecallFailed, EventOutcome::Failure, Some(code@), true));
                assert forall|i: int| 0 <= i < plan.len() implies has_recall_shape(#[trigger] events@[i], plan[i], duration_ms) by {
                    if i < before.len() { assert(events@[i] == events@.take(before.len() as int)[i]); }
                }
                assert(plan =~= recall_shapes(incoming_continuation, *end));
            }
        },
        RecallEnd::MandatoryOverflow { offending_node_count, code } => {
            let mut overflow = mandatory_overflow_observation_event(*offending_node_count);
            overflow.duration_ms = Some(duration_ms);
            let ghost before = events@;
            events.push(overflow);
            proof {
                plan = plan.push((EventType::RecallMandatoryOverflow, EventOutcome::Overflow, None, true));
                assert forall|i: int| 0 <= i < plan.len() implies has_recall_shape(#[trigger] events@[i], plan[i], duration_ms) by {
                    if i < before.len() { assert(events@[i] == before[i]); }
                }
            }
            let ghost middle = events@;
            push_recall_event(&mut events, EventType::RecallFailed, EventOutcome::Failure, Some(*code), Some(duration_ms));
            proof {
                plan = plan.push((EventType::RecallFailed, EventOutcome::Failure, Some(code@), true));
                assert forall|i: int| 0 <= i < plan.len() implies has_recall_shape(#[trigger] events@[i], plan[i], duration_ms) by {
                    if i < middle.len() { assert(events@[i] == events@.take(middle.len() as int)[i]); }
                }
                assert(events@[events@.len() - 2] == middle.last());
                assert(plan =~= recall_shapes(incoming_continuation, *end));
            }
        },
    }
    proof {
        let shapes = recall_shapes(incoming_continuation, *end);
        lemma_recall_markers(incoming_continuation, *end);
        lemma_events_follow_shapes(events@, shapes, duration_ms, EventType::RecallEmpty);
        lemma_events_follow_shapes(events@, shapes, duration_ms, EventType::RecallTruncated);
    }
    Ok(events)
}

/// Whether some shape of `shapes` has the event type `t`.
pub open spec fn shapes_include(shapes: Seq<RecallEventShape>, t: EventType) -> bool {
    exists|i: int| 0 <= i < shapes.len() && (#[trigger] shapes[i]).0 == t
}

/// Whether some event of `events` has the event type `t`.
pub open spec fn events_include(events: Seq<Event>, t: EventType) -> bool {
    exists|i: int| 0 <= i < events.len() && (#[trigger] events[i]).event_type == t
}

/// Events that follow a list of shapes one by one hold an event type exactly when
/// the shapes do.
proof fn lemma_events_follow_shapes(events: Seq<Event>, shapes: Seq<RecallEventShape>, duration_ms: u64, t: EventType)
    requires
        events.len() == shapes.len(),
        forall|i: int| 0 <= i < shapes.len() ==> has_recall_shape(#[trigger] events[i], shapes[i], duration_ms),
    ensures
        events_include(events, t) <==> shapes_include(shapes, t),
{
    if events_include(events, t) {
        let i = choose|i: int| 0 <= i < events.len() && (#[trigger] events[i]).event_type == t;
        assert(has_recall_shape(events[i], shapes[i], duration_ms));
        assert(shapes[i].0 == t);
    }
    if shapes_include(shapes, t) {
        let i = choose|i: int| 0 <= i < shapes.len() && (#[trigger] shapes[i]).0 == t;
        assert(has_recall_shape(events[i], shapes[i], duration_ms));
        assert(events[i].event_type == t);
    }
}

/// A recall bundle holds the empty marker exactly when the command completed a page
/// whose task section is empty, and the truncated marker exactly when it completed a
/// truncated page; a failed or overflowing recall holds neither.
pub proof fn lemma_recall_markers(incoming_continuation: bool, end: RecallEnd)
    ensures
        shapes_include(recall_shapes(incoming_continuation, end), EventType::RecallEmpty)
            <==> (end matches RecallEnd::Completed(f) && f.empty),
        shapes_include(recall_shapes(incoming_continuation, end), EventType::RecallTruncated)
            <==> (end matches RecallEnd::Completed(f) && f.truncated),
{
    let shapes = recall_shapes(incoming_continuation, end);
    let head = seq![(EventType::RecallStarted, EventOutcome::Started, None, false)]
        + if incoming_continuation {
            seq![(EventType::RecallContinuation, EventOutcome::Recorded, None, true)]
        } else {
            Seq::<RecallEventShape>::empty()
        };
    let tail = shapes.subrange(head.len() as int, shapes.len() as int);
    assert(shapes =~= head + tail);
    assert forall|i: int| 0 <= i < head.len() implies
        (#[trigger] shapes[i]).0 != EventType::RecallEmpty && shapes[i].0 != EventType::RecallTruncated by {
        assert(shapes[i] == head[i]);
    }
    match end {
        RecallEnd::Completed(f) => {
            let e: Seq<RecallEventShape> =
                if f.empty { seq![(EventType::RecallEmpty, EventOutcome::Empty, None, true)] } else { seq![] };
            let t: Seq<RecallEventShape> =
                if f.truncated { seq![(EventType::RecallTruncated, EventOutcome::Truncated, None, true)] } else { seq![] };
            let c: Seq<RecallEventShape> = seq![(EventType::RecallCompleted, EventOutcome::Success, None, true)];
            assert(tail =~= e + t + c);
            assert forall|j: int| 0 <= j < tail.len() implies
                ((#[trigger] tail[j]).0 == EventType::RecallEmpty ==> f.empty)
                && (tail[j].0 == EventType::RecallTruncated ==> f.truncated) by {
                if j < e.len() {
                    assert(tail[j] == e[j]);
                } else if j < e.len() + t.len() {
                    assert(tail[j] == t[j - e.len()]);
                } else {
                    assert(tail[j] == c[j - e.len() - t.len()]);
                }
            }
            assert forall|i: int| 0 <= i < shapes.len() implies
                ((#[trigger] shapes[i]).0 == EventType::RecallEmpty ==> f.empty)
                && (shapes[i].0 == EventType::RecallTruncated ==> f.truncated) by {
                if i >= head.len() {
                    assert(shapes[i] == tail[i - head.len()]);
                }
            }
            if f.empty {
                assert(tail[0] == e[0]);
                assert(shapes[head.len() as int] == tail[0]);
                assert(shapes[head.len() as int].0 == EventType::RecallEmpty);
            }
            if f.truncated {
                let k = e.len() as int;
                assert(tail[k] == t[0]);
                assert(shapes[head.len() + k] == tail[k]);
                assert(shapes[head.len() + k].0 == EventType::RecallTruncated);
            }
        },
        _ => {
            assert forall|i: int| 0 <= i < shapes.len() implies
                (#[trigger] shapes[i]).0 != EventType::RecallEmpty && shapes[i].0 != EventType::RecallTruncated by {
                if i >= head.len() {
                    assert(shapes[i] == tail[i - head.len()]);
                }
            }
        },
    }
}

/// Whether a recall event ends the bundle.
pub open spec fn ends_recall(shape: RecallEventShape) -> bool {
    shape.0 == EventType::RecallCompleted || shape.0 == EventType::RecallFailed
}

/// A recall bundle starts with its start event and ends with exactly one completion
/// or failure, which is its last event; a mandatory overflow is recorded just before
/// the failure it causes, and such a bundle has no completion.
pub proof fn lemma_recall_events_order(incoming_continuation: bool, end: RecallEnd)
    ensures
        ({
            let shapes = recall_shapes(incoming_continuation, end);
            &&& shapes.len() >= 2
            &&& shapes[0].0 == EventType::RecallStarted
            &&& ends_recall(shapes.last())
            &&& forall|i: int| 0 <= i < shapes.len() - 1 ==> !ends_recall(#[trigger] shapes[i])
            &&& end is MandatoryOverflow ==> {
                &&& shapes[shapes.len() - 2].0 == EventType::RecallMandatoryOverflow
                &&& shapes.last().0 == EventType::RecallFailed
                &&& forall|i: int| 0 <= i < shapes.len() ==> (#[trigger] shapes[i]).0 != EventType::RecallCompleted
            }
        }),
{
    let shapes = recall_shapes(incoming_continuation, end);
    let head = seq![(EventType::RecallStarted, EventOutcome::Started, None, false)]
        + if incoming_continuation {
            seq![(EventType::RecallContinuation, EventOutcome::Recorded, None, true)]
        } else {
            Seq::<RecallEventShape>::empty()
        };
    let tail = shapes.subrange(head.len() as int, shapes.len() as int);
    assert(shapes =~= head + tail);
    assert forall|i: int| 0 <= i < shapes.len() - 1 implies !ends_recall(#[trigger] shapes[i]) by {
        if i < head.len() {
            assert(shapes[i] == head[i]);
        } else {
            assert(shapes[i] == tail[i - head.len()]);
        }
    }
    if end is MandatoryOverflow {
        assert forall|i: int| 0 <= i < shapes.len() implies (#[trigger] shapes[i]).0 != EventType::RecallCompleted by {
            if i < head.len() {
                assert(shapes[i] == head[i]);
            } else {
                assert(shapes[i] == tail[i - head.len()]);
            }
        }
    }
}

} // verus!
