//! The state a task recall continues from, page after page: which retrieval
//! phase it is in, how far into that phase, the roots it found, and the nodes it
//! has already emitted.
use vstd::prelude::*;
use std::collections::HashSet;
use crate::error::CliError;
use crate::codes::EXIT_GENERIC_ERROR;
use crate::text::same_text;

verus! {

broadcast use vstd::std_specs::hash::group_hash_axioms;

/// The retrieval phases of a task recall, in order.
#[derive(Debug, Clone, Copy, PartialEq, Eq, Structural)]
pub enum RecallContinuationPhase {
    TypedRoots,
    Fts,
    DirectLinks,
    Graph,
}

/// A root node found by an earlier phase.
#[derive(Debug)]
pub struct ContinuationRoot {
    pub node_id: i64,
    pub node_type: String,
}

/// Where a task recall continues from.
#[derive(Debug)]
pub struct RecallContinuationState {
    pub phase: RecallContinuationPhase,
    pub offset: u64,
    pub roots: Vec<ContinuationRoot>,
    pub seen_node_ids: Vec<i64>,
    pub database_revision: String,
    /// The bytes of the task nodes emitted so far, separators included.
    pub task_node_bytes: u64,
    /// How many task nodes were emitted so far.
    pub emitted_count: u64,
    /// The task budget is used up.
    pub exhausted: bool,
}

/// Why a continuation cursor is refused.
#[derive(Debug, Clone, Copy, PartialEq, Eq, Structural)]
pub enum RecallCursorError {
    InvalidNodeId,
}

/// The ids of a list of roots, as a set.
pub open spec fn root_ids_of(roots: Seq<ContinuationRoot>) -> Set<i64> {
    roots.map_values(|r: ContinuationRoot| r.node_id).to_set()
}

/// A cursor continues only against the memory it was issued for: the revision it
/// carries must be the current one.
pub fn validate_recall_cursor_revision(
    state: &RecallContinuationState,
    database_revision: &str,
) -> (r: Result<(), CliError>)
    ensures
        match r {
            Ok(()) => state.database_revision@ == database_revision@,
            Err(e) => state.database_revision@ != database_revision@
                && e.has(EXIT_GENERIC_ERROR, "STALE_RECALL_CURSOR"@,
                    "operational memory changed after this recall bundle started"@,
                    "restart recall with the same `--query` and no continuation cursor"@),
        },
{
    if same_text(state.database_revision.as_str(), database_revision) {
        Ok(())
    } else {
        Err(CliError::stale_recall_cursor())
    }
}

/// Records that `node_id` was emitted: once only, in the order first seen. The set
/// `seen_node_ids` is the index of what the state holds. Node ids are positive.
pub fn insert_continuation_seen_node(
    state: &mut RecallContinuationState,
    seen_node_ids: &mut HashSet<i64>,
    node_id: i64,
) -> (r: Result<(), RecallCursorError>)
    ensures
        final(state).phase == old(state).phase,
        final(state).offset == old(state).offset,
        final(state).roots == old(state).roots,
        final(state).database_revision == old(state).database_revision,
        final(state).task_node_bytes == old(state).task_node_bytes,
        final(state).emitted_count == old(state).emitted_count,
        final(state).exhausted == old(state).exhausted,
        node_id <= 0 ==> r == Err::<(), RecallCursorError>(RecallCursorError::InvalidNodeId)
            && *final(state) == *old(state) && final(seen_node_ids)@ == old(seen_node_ids)@,
        node_id > 0 ==> {
            &&& r is Ok
            &&& final(seen_node_ids)@ == old(seen_node_ids)@.insert(node_id)
            &&& final(state).seen_node_ids@ == if old(seen_node_ids)@.contains(node_id) {
                old(state).seen_node_ids@
            } else {
                old(state).seen_node_ids@.push(node_id)
            }
        },
        old(seen_node_ids)@ == old(state).seen_node_ids@.to_set() ==> final(seen_node_ids)@ == final(state).seen_node_ids@.to_set(),
        old(seen_node_ids)@ == old(state).seen_node_ids@.to_set() && old(state).seen_node_ids@.no_duplicates()
            ==> final(state).seen_node_ids@.no_duplicates(),
{
    if node_id <= 0 {
        return Err(RecallCursorError::InvalidNodeId);
    }
    let ghost before = state.seen_node_ids@;
    if seen_node_ids.insert(node_id) {
        state.seen_node_ids.push(node_id);
        proof {
            lemma_to_set_push(before, node_id);
        }
    } else {
        proof {
            if seen_node_ids@ == before.to_set() {
                assert(before.to_set().insert(node_id) =~= before.to_set());
            }
        }
    }
    Ok(())
}

/// Pushing onto a sequence adds the element to its set.
proof fn lemma_to_set_push(s: Seq<i64>, x: i64)
    ensures
        s.push(x).to_set() == s.to_set().insert(x),
{
    assert forall|y: i64| s.push(x).to_set().contains(y) <==> s.to_set().insert(x).contains(y) by {
        if y == x {
            assert(s.push(x)[s.len() as int] == y);
        } else if s.contains(y) {
            let k = choose|k: int| 0 <= k < s.len() && s[k] == y;
            assert(s.push(x)[k] == y);
        }
    }
    assert(s.push(x).to_set() =~= s.to_set().insert(x));
}

/// Sorts ids in ascending order (`slice::sort_unstable`). As std documents it, the
/// slice is sorted in place: the result holds the same ids, ascending.
#[verifier::external_body]
fn sort_ids(ids: &mut Vec<i64>)
    ensures
        final(ids)@.to_multiset() == old(ids)@.to_multiset(),
        forall|i: int, j: int| 0 <= i <= j < final(ids)@.len() ==> final(ids)@[i] <= final(ids)@[j],
{
    ids.sort_unstable();
}

/// Puts the emitted node ids in canonical ascending order before the state is encoded.
pub fn canonicalize_continuation_seen_nodes(state: &mut RecallContinuationState)
    ensures
        final(state).phase == old(state).phase,
        final(state).offset == old(state).offset,
        final(state).roots == old(state).roots,
        final(state).database_revision == old(state).database_revision,
        final(state).task_node_bytes == old(state).task_node_bytes,
        final(state).emitted_count == old(state).emitted_count,
        final(state).exhausted == old(state).exhausted,
        final(state).seen_node_ids@.to_multiset() == old(state).seen_node_ids@.to_multiset(),
        forall|i: int, j: int| 0 <= i <= j < final(state).seen_node_ids@.len()
            ==> final(state).seen_node_ids@[i] <= final(state).seen_node_ids@[j],
{
    sort_ids(&mut state.seen_node_ids);
}

/// The roots of the state as `(node id, node type)` pairs, in order.
pub fn continuation_roots(state: &RecallContinuationState) -> (r: Vec<(i64, String)>)
    ensures
        r@.len() == state.roots@.len(),
        forall|i: int| 0 <= i < r@.len() ==> (#[trigger] r@[i]).0 == state.roots@[i].node_id
            && r@[i].1@ == state.roots@[i].node_type@,
{
    let mut roots: Vec<(i64, String)> = Vec::new();
    let mut i: usize = 0;
    while i < state.roots.len()
        invariant
            i <= state.roots@.len(),
            roots@.len() == i,
            forall|k: int| 0 <= k < i ==> (#[trigger] roots@[k]).0 == state.roots@[k].node_id
                && roots@[k].1@ == state.roots@[k].node_type@,
        decreases state.roots@.len() - i,
    {
        let root = &state.roots[i];
        roots.push((root.node_id, root.node_type.clone()));
        i = i + 1;
    }
    roots
}

/// Where a probe for more results started: enough to undo it.
#[derive(Debug, Clone, Copy)]
pub struct RecallProbeCheckpoint {
    pub phase: RecallContinuationPhase,
    pub offset: u64,
    pub roots_len: usize,
}

impl RecallProbeCheckpoint {
    /// The phase, offset and number of roots of `state`.
    pub fn capture(state: &RecallContinuationState) -> (c: Self)
        ensures
            c.phase == state.phase,
            c.offset == state.offset,
            c.roots_len == state.roots@.len(),
    {
        RecallProbeCheckpoint { phase: state.phase, offset: state.offset, roots_len: state.roots.len() }
    }

    /// Undoes a probe: phase and offset go back, and the roots the probe added are
    /// dropped from the state and from the root index.
    pub fn restore(self, state: &mut RecallContinuationState, root_ids: &mut HashSet<i64>)
        requires
            self.roots_len <= old(state).roots@.len(),
        ensures
            final(state).phase == self.phase,
            final(state).offset == self.offset,
            final(state).roots@ == old(state).roots@.take(self.roots_len as int),
            final(state).seen_node_ids == old(state).seen_node_ids,
            final(state).database_revision == old(state).database_revision,
            final(state).task_node_bytes == old(state).task_node_bytes,
            final(state).emitted_count == old(state).emitted_count,
            final(state).exhausted == old(state).exhausted,
            final(root_ids)@ == old(root_ids)@.difference(root_ids_of(old(state).roots@.skip(self.roots_len as int))),
    {
        state.phase = self.phase;
        state.offset = self.offset;
        let n = state.roots.len();
        let ghost added = state.roots@.skip(self.roots_len as int);
        let ghost start = root_ids@;
        let mut i: usize = self.roots_len;
        while i < n
            invariant
                self.roots_len <= i <= n,
                n == state.roots@.len(),
                added == state.roots@.skip(self.roots_len as int),
                root_ids@ == start.difference(root_ids_of(state.roots@.subrange(self.roots_len as int, i as int))),
            decreases n - i,
        {
            let id = state.roots[i].node_id;
            root_ids.remove(&id);
            proof {
                let done = state.roots@.subrange(self.roots_len as int, i as int);
                let next = state.roots@.subrange(self.roots_len as int, i + 1);
                assert(next =~= done.push(state.roots@[i as int]));
                assert(root_ids_of(next) =~= root_ids_of(done).insert(id)) by {
                    assert(next.map_values(|r: ContinuationRoot| r.node_id)
                        =~= done.map_values(|r: ContinuationRoot| r.node_id).push(id));
                    lemma_to_set_push(done.map_values(|r: ContinuationRoot| r.node_id), id);
                }
                assert(root_ids@ =~= start.difference(root_ids_of(next)));
            }
            i = i + 1;
        }
        assert(state.roots@.subrange(self.roots_len as int, n as int) =~= added);
        state.roots.truncate(self.roots_len);
    }
}

/// A probe that only appended roots new to the index is undone exactly: the roots
/// and the root index come back to what they were at the checkpoint.
pub proof fn lemma_probe_restore_round_trip(
    roots: Seq<ContinuationRoot>,
    added: Seq<ContinuationRoot>,
    index: Set<i64>,
)
    requires
        index.disjoint(root_ids_of(added)),
    ensures
        (roots + added).take(roots.len() as int) == roots,
        index.union(root_ids_of(added)).difference(root_ids_of((roots + added).skip(roots.len() as int))) == index,
{
    assert((roots + added).take(roots.len() as int) =~= roots);
    assert((roots + added).skip(roots.len() as int) =~= added);
    assert(index.union(root_ids_of(added)).difference(root_ids_of(added)) =~= index);
}

/// Why a recall page could not be assembled: a byte count that does not fit, or a
/// cursor whose position cannot advance.
#[derive(Debug, Clone, Copy, PartialEq, Eq, Structural)]
pub enum RecallStepError {
    ByteCountOverflow,
    InvalidShape,
}

/// `state` is `old` with only the fields named here changed as given.
pub open spec fn same_but_budget(state: RecallContinuationState, old: RecallContinuationState) -> bool {
    &&& state.phase == old.phase
    &&& state.offset == old.offset
    &&& state.roots == old.roots
    &&& state.seen_node_ids == old.seen_node_ids
    &&& state.database_revision == old.database_revision
}

/// The separator before a node: a comma once a node was emitted.
pub open spec fn separator_bytes(emitted_count: u64) -> int {
    if emitted_count > 0 { 1 } else { 0 }
}

/// Admits one selected node of `selected_bytes` into the page when the task section,
/// `empty_section_bytes` when empty, still fits `soft_budget` with it. A node that does
/// not fit marks the budget exhausted and is left out whole.
pub fn admit_task_node(
    state: &mut RecallContinuationState,
    selected_bytes: usize,
    empty_section_bytes: usize,
    soft_budget: usize,
) -> (r: Result<bool, RecallStepError>)
    ensures
        same_but_budget(*final(state), *old(state)),
        ({
            let next = old(state).task_node_bytes + selected_bytes + separator_bytes(old(state).emitted_count);
            let prospective = empty_section_bytes + next;
            if selected_bytes + separator_bytes(old(state).emitted_count) > usize::MAX || next > usize::MAX
                || prospective > usize::MAX {
                r == Err::<bool, RecallStepError>(RecallStepError::ByteCountOverflow) && *final(state) == *old(state)
            } else if prospective > soft_budget {
                &&& r == Ok::<bool, RecallStepError>(false)
                &&& final(state).exhausted
                &&& final(state).task_node_bytes == old(state).task_node_bytes
                &&& final(state).emitted_count == old(state).emitted_count
            } else if old(state).emitted_count == u64::MAX {
                &&& r == Err::<bool, RecallStepError>(RecallStepError::InvalidShape)
                &&& final(state).task_node_bytes == next
            } else {
                &&& r == Ok::<bool, RecallStepError>(true)
                &&& final(state).task_node_bytes == next
                &&& final(state).emitted_count == old(state).emitted_count + 1
                &&& final(state).exhausted == old(state).exhausted
                &&& empty_section_bytes + final(state).task_node_bytes <= soft_budget
            }
        }),
{
    let separator: usize = if state.emitted_count > 0 { 1 } else { 0 };
    let increment = match selected_bytes.checked_add(separator) {
        Some(v) => v,
        None => return Err(RecallStepError::ByteCountOverflow),
    };
    if state.task_node_bytes > usize::MAX as u64 {
        return Err(RecallStepError::ByteCountOverflow);
    }
    let current = state.task_node_bytes as usize;
    let next_node_bytes = match current.checked_add(increment) {
        Some(v) => v,
        None => return Err(RecallStepError::ByteCountOverflow),
    };
    let prospective = match empty_section_bytes.checked_add(next_node_bytes) {
        Some(v) => v,
        None => return Err(RecallStepError::ByteCountOverflow),
    };
    if prospective > soft_budget {
        state.exhausted = true;
        return Ok(false);
    }
    state.task_node_bytes = next_node_bytes as u64;
    if state.emitted_count == u64::MAX {
        return Err(RecallStepError::InvalidShape);
    }
    state.emitted_count = state.emitted_count + 1;
    Ok(true)
}

/// Moves the position within the current phase past `candidate_count` candidates.
pub fn advance_continuation_offset(state: &mut RecallContinuationState, candidate_count: usize) -> (r: Result<(), RecallStepError>)
    ensures
        old(state).offset + candidate_count > u64::MAX ==> r == Err::<(), RecallStepError>(RecallStepError::InvalidShape)
            && *final(state) == *old(state),
        old(state).offset + candidate_count <= u64::MAX ==> r is Ok
            && final(state).offset == old(state).offset + candidate_count
            && final(state).phase == old(state).phase
            && final(state).roots == old(state).roots
            && final(state).seen_node_ids == old(state).seen_node_ids
            && final(state).database_revision == old(state).database_revision
            && final(state).task_node_bytes == old(state).task_node_bytes
            && final(state).emitted_count == old(state).emitted_count
            && final(state).exhausted == old(state).exhausted,
{
    match state.offset.checked_add(candidate_count as u64) {
        Some(offset) => {
            state.offset = offset;
            Ok(())
        },
        None => Err(RecallStepError::InvalidShape),
    }
}

/// The phase after `phase`; none after the last.
pub open spec fn phase_after(phase: RecallContinuationPhase) -> Option<RecallContinuationPhase> {
    match phase {
        RecallContinuationPhase::TypedRoots => Some(RecallContinuationPhase::Fts),
        RecallContinuationPhase::Fts => Some(RecallContinuationPhase::DirectLinks),
        RecallContinuationPhase::DirectLinks => Some(RecallContinuationPhase::Graph),
        RecallContinuationPhase::Graph => None,
    }
}

/// Starts the next phase at its beginning once the current one has no more results.
/// Returns whether retrieval is complete, which it is after the last phase.
pub fn next_continuation_phase(state: &mut RecallContinuationState) -> (complete: bool)
    ensures
        final(state).offset == 0,
        complete == (phase_after(old(state).phase) is None),
        final(state).phase == match phase_after(old(state).phase) { Some(p) => p, None => old(state).phase },
        final(state).roots == old(state).roots,
        final(state).seen_node_ids == old(state).seen_node_ids,
        final(state).database_revision == old(state).database_revision,
        final(state).task_node_bytes == old(state).task_node_bytes,
        final(state).emitted_count == old(state).emitted_count,
        final(state).exhausted == old(state).exhausted,
{
    state.offset = 0;
    match state.phase {
        RecallContinuationPhase::TypedRoots => { state.phase = RecallContinuationPhase::Fts; false },
        RecallContinuationPhase::Fts => { state.phase = RecallContinuationPhase::DirectLinks; false },
        RecallContinuationPhase::DirectLinks => { state.phase = RecallContinuationPhase::Graph; false },
        RecallContinuationPhase::Graph => true,
    }
}

/// How many phases follow `phase`.
pub open spec fn phases_left(phase: RecallContinuationPhase) -> nat {
    match phase {
        RecallContinuationPhase::TypedRoots => 3,
        RecallContinuationPhase::Fts => 2,
        RecallContinuationPhase::DirectLinks => 1,
        RecallContinuationPhase::Graph => 0,
    }
}

/// Retrieval goes through the phases in order and ends after the last: every move to
/// the next phase leaves one phase fewer, and only the last has no next phase.
pub proof fn lemma_phases_end(phase: RecallContinuationPhase)
    ensures
        phase_after(phase) is None <==> phases_left(phase) == 0,
        phase_after(phase) matches Some(next) ==> phases_left(next) + 1 == phases_left(phase),
{
}

} // verus!
