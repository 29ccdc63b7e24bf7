//! The copy-mode request pipeline: at most one endpoint request is in flight;
//! further motions, objects and searches wait in a queue and are dispatched
//! one at a time.
use crate::copy_state::{
    actions_view, ops_view, pending_view, ClientCopyModeState, ClientCopyOperation, ClientShellState, CopyOp,
    MethodView, PendingEndpointKind, PendingKindView,
};
use crate::copy_mode::{count_or_one, untouched};
use crate::types::{
    ClientShellInput, Method, PaneCopyMotion, PaneCopyMotionParams, PaneCopyObjectParams,
    PaneCopyObjectRequest, PaneCopySearchDirection, PaneCopySearchParams, PaneTextRange,
};
use std::collections::VecDeque;
use vstd::prelude::*;

verus! {

/// An operation worth sending: everything but an empty search.
pub open spec fn sendable(op: CopyOp) -> bool {
    !(op matches CopyOp::Search { query, .. } && query.len() == 0)
}

/// Number of leading operations that are skipped rather than sent.
pub open spec fn skip_len(q: Seq<CopyOp>) -> nat
    decreases q.len(),
{
    if q.len() == 0 {
        0
    } else if sendable(q[0]) {
        0
    } else {
        1 + skip_len(q.skip(1))
    }
}

pub proof fn lemma_skip_len_bound(q: Seq<CopyOp>)
    ensures
        skip_len(q) <= q.len(),
        skip_len(q) < q.len() ==> sendable(q[skip_len(q) as int]),
        forall|j: int| 0 <= j < skip_len(q) ==> !sendable(#[trigger] q[j]),
    decreases q.len(),
{
    if q.len() > 0 && !sendable(q[0]) {
        lemma_skip_len_bound(q.skip(1));
        assert forall|j: int| 0 <= j < skip_len(q) implies !sendable(#[trigger] q[j]) by {
            if j > 0 {
                assert(q[j] == q.skip(1)[j - 1]);
            }
        }
    }
}

/// The match a repeated search steps away from: the current match, if the
/// cursor still sits on its start.
pub open spec fn previous_match(cm: ClientCopyModeState) -> Option<PaneTextRange> {
    match cm.search_current {
        Some(i) => if i < cm.search_matches@.len() && cm.search_matches@[i as int].start == cm.cursor {
            Some(cm.search_matches@[i as int])
        } else {
            None
        },
        None => None,
    }
}

/// The request dispatching `op` sends from copy mode `cm` (whose search
/// generation has already been advanced for a search).
pub open spec fn op_request(cm: ClientCopyModeState, op: CopyOp, session: u64) -> (MethodView, PendingKindView) {
    match op {
        CopyOp::Motion { motion, remaining } => (
            MethodView::CopyMotion {
                pane_id: cm.pane_id@,
                cursor: cm.cursor,
                motion: motion,
                content_revision: Some(cm.content_revision),
            },
            PendingKindView::CopyMotion {
                pane_id: cm.pane_id@,
                origin: cm.cursor,
                motion: motion,
                remaining: remaining,
                session_generation: session,
            },
        ),
        CopyOp::CopyObject(request) => (
            MethodView::CopyObject {
                pane_id: cm.pane_id@,
                cursor: cm.cursor,
                request: request,
                content_revision: Some(cm.content_revision),
            },
            PendingKindView::CopyObject {
                pane_id: cm.pane_id@,
                origin: cm.cursor,
                request: request,
                session_generation: session,
            },
        ),
        CopyOp::Search { query, direction, repeat, remaining } => (
            MethodView::CopySearch {
                pane_id: cm.pane_id@,
                query: query,
                direction: direction,
                cursor: cm.cursor,
                content_revision: cm.content_revision,
                previous: if repeat {
                    previous_match(cm)
                } else {
                    None
                },
            },
            PendingKindView::CopySearch {
                pane_id: cm.pane_id@,
                origin: cm.cursor,
                query: query,
                direction: direction,
                repeat: repeat,
                remaining: remaining,
                generation: cm.search_generation,
                session_generation: session,
            },
        ),
    }
}

/// `s1` is the state after dispatching the queue `q` from `s0` (whose own
/// queue is ignored): nothing happens while a request is in flight or the
/// queue is empty; without copy mode the queues are dropped; otherwise
/// leading empty searches are skipped and the first sendable operation goes
/// out, advancing the search generation for a search. A failed send drops
/// the queues.
pub open spec fn dispatched(
    s1: ClientShellState,
    s0: ClientShellState,
    out1: ClientShellInput,
    out0: ClientShellInput,
    q: Seq<CopyOp>,
) -> bool {
    &&& s1.same_env(s0)
    &&& s1.mode == s0.mode
    &&& s1.selection == s0.selection
    &&& s1.copy_session_generation == s0.copy_session_generation
    &&& out1.repaint == out0.repaint
    &&& if s0.copy_operation_in_flight || q.len() == 0 {
        &&& s1.copy_mode == s0.copy_mode
        &&& s1.copy_operation_in_flight == s0.copy_operation_in_flight
        &&& ops_view(s1.copy_operation_queue@) == q
        &&& s1.copy_input_queue@ == s0.copy_input_queue@
        &&& s1.same_requests(s0)
        &&& out1.actions@ == out0.actions@
    } else {
        match s0.copy_mode {
            None => {
                &&& s1.copy_mode is None
                &&& !s1.copy_operation_in_flight
                &&& s1.copy_operation_queue@.len() == 0
                &&& s1.copy_input_queue@.len() == 0
                &&& s1.same_requests(s0)
                &&& out1.actions@ == out0.actions@
            },
            Some(cm) => {
                let k = skip_len(q);
                if k == q.len() {
                    &&& s1.copy_mode == s0.copy_mode
                    &&& !s1.copy_operation_in_flight
                    &&& s1.copy_operation_queue@.len() == 0
                    &&& s1.copy_input_queue@ == s0.copy_input_queue@
                    &&& s1.same_requests(s0)
                    &&& out1.actions@ == out0.actions@
                } else {
                    let op = q[k as int];
                    let cm1 = if op is Search {
                        ClientCopyModeState { search_generation: cm.search_generation.saturating_add(1), ..cm }
                    } else {
                        cm
                    };
                    &&& s1.copy_mode == Some(cm1)
                    &&& s1.requested_all(
                        s0,
                        out1.actions@,
                        out0.actions@,
                        seq![op_request(cm1, op, s0.copy_session_generation)],
                    )
                    &&& if s0.endpoint_connected {
                        &&& s1.copy_operation_in_flight
                        &&& ops_view(s1.copy_operation_queue@) == q.skip((k + 1) as int)
                        &&& s1.copy_input_queue@ == s0.copy_input_queue@
                    } else {
                        &&& !s1.copy_operation_in_flight
                        &&& s1.copy_operation_queue@.len() == 0
                        &&& s1.copy_input_queue@.len() == 0
                    }
                }
            },
        }
    }
}


pub open spec fn has_search(q: Seq<CopyOp>) -> bool {
    exists|i: int| 0 <= i < q.len() && q[i] is Search
}

/// The queue with every search removed, other operations in order.
pub open spec fn without_searches(q: Seq<CopyOp>) -> Seq<CopyOp>
    decreases q.len(),
{
    if q.len() == 0 {
        Seq::empty()
    } else if q.last() is Search {
        without_searches(q.drop_last())
    } else {
        without_searches(q.drop_last()).push(q.last())
    }
}

pub open spec fn search_of_session(k: PendingKindView, session: u64) -> bool {
    match k {
        PendingKindView::CopySearch { session_generation, .. } => session_generation == session,
        _ => false,
    }
}

pub open spec fn search_for(k: PendingKindView, pane_id: Seq<char>, generation: u64, session: u64) -> bool {
    match k {
        PendingKindView::CopySearch { pane_id: pp, generation: g, session_generation: sg, .. } => pp == pane_id && g
            == generation && sg == session,
        _ => false,
    }
}

/// A copy search of `session` awaits its response.
pub open spec fn pending_search(p: Seq<(u64, PendingKindView)>, session: u64) -> bool {
    exists|i: int| 0 <= i < p.len() && search_of_session((#[trigger] p[i]).1, session)
}

/// A copy search for `pane_id` at search generation `generation` of
/// `session` awaits its response.
pub open spec fn pending_search_for(p: Seq<(u64, PendingKindView)>, pane_id: Seq<char>, generation: u64, session: u64) -> bool {
    exists|i: int| 0 <= i < p.len() && search_for((#[trigger] p[i]).1, pane_id, generation, session)
}

pub open spec fn opposite(d: PaneCopySearchDirection) -> PaneCopySearchDirection {
    match d {
        PaneCopySearchDirection::Forward => PaneCopySearchDirection::Backward,
        PaneCopySearchDirection::Backward => PaneCopySearchDirection::Forward,
    }
}

pub open spec fn max1(c: u32) -> u32 {
    if c == 0 {
        1
    } else {
        c
    }
}

pub open spec fn find_direction(forward: bool) -> PaneCopySearchDirection {
    if forward {
        PaneCopySearchDirection::Forward
    } else {
        PaneCopySearchDirection::Backward
    }
}

/// `s1` is `s0` after the queue became `q` and was dispatched, when copy mode
/// is active; nothing changes otherwise.
pub open spec fn enqueued(
    s1: ClientShellState,
    s0: ClientShellState,
    out1: ClientShellInput,
    out0: ClientShellInput,
    q: Seq<CopyOp>,
) -> bool {
    if s0.copy_mode is None {
        &&& s1.only_copy_mode_changed(s0)
        &&& s1.copy_mode == s0.copy_mode
        &&& out1 == out0
    } else {
        dispatched(s1, s0, out1, out0, q)
    }
}

/// `s1` is `s0` after retiring an in-flight copy search: the session moves
/// on so its response is ignored, and the pipeline is free again.
pub open spec fn retired(s1: ClientShellState, s0: ClientShellState) -> bool {
    if pending_search(pending_view(s0.pending_requests@), s0.copy_session_generation) {
        &&& s1.copy_session_generation == s0.copy_session_generation.saturating_add(1)
        &&& !s1.copy_operation_in_flight
    } else {
        &&& s1.copy_session_generation == s0.copy_session_generation
        &&& s1.copy_operation_in_flight == s0.copy_operation_in_flight
    }
}

/// `s1` is `s0` after `n` (or reversed, `N`) queued the last search again as
/// one compact chain of `count` steps (see `repeat_copy_search`).
pub open spec fn search_repeated(
    s1: ClientShellState,
    s0: ClientShellState,
    out1: ClientShellInput,
    out0: ClientShellInput,
    reverse: bool,
    count: Option<u32>,
) -> bool {
    match s0.copy_mode {
        Some(cm) => if cm.search_query@.len() > 0 && cm.search_direction is Some {
            dispatched(
                s1,
                s0,
                out1,
                out0,
                ops_view(s0.copy_operation_queue@).push(
                    CopyOp::Search {
                        query: cm.search_query@,
                        direction: if reverse {
                            opposite(cm.search_direction->0)
                        } else {
                            cm.search_direction->0
                        },
                        repeat: true,
                        remaining: max1(count_or_one(count)),
                    },
                ),
            )
        } else {
            untouched(s1, s0, out1, out0)
        },
        None => untouched(s1, s0, out1, out0),
    }
}

impl ClientShellState {
    /// Pops queued operations up to and including the first sendable one.
    fn pop_sendable_copy_operation(&mut self) -> (r: Option<ClientCopyOperation>)
        ensures
            ({
                let q = ops_view(old(self).copy_operation_queue@);
                let k = skip_len(q);
                &&& k < q.len() ==> (r matches Some(op) && op@ == q[k as int] && ops_view(
                    final(self).copy_operation_queue@,
                ) == q.skip((k + 1) as int))
                &&& k == q.len() ==> r is None && final(self).copy_operation_queue@.len() == 0
            }),
            final(self).same_env(*old(self)),
            final(self).same_requests(*old(self)),
            final(self).mode == old(self).mode,
            final(self).selection == old(self).selection,
            final(self).copy_mode == old(self).copy_mode,
            final(self).copy_session_generation == old(self).copy_session_generation,
            final(self).copy_operation_in_flight == old(self).copy_operation_in_flight,
            final(self).copy_input_queue@ == old(self).copy_input_queue@,
    {
        let ghost q = ops_view(self.copy_operation_queue@);
        proof {
            lemma_skip_len_bound(q);
        }
        let ghost mut skipped: int = 0;
        loop
            invariant
                q == ops_view(old(self).copy_operation_queue@),
                skip_len(q) <= q.len(),
                skip_len(q) < q.len() ==> sendable(q[skip_len(q) as int]),
                forall|j: int| 0 <= j < skip_len(q) ==> !sendable(#[trigger] q[j]),
                0 <= skipped <= skip_len(q),
                ops_view(self.copy_operation_queue@) == q.skip(skipped),
                self.same_env(*old(self)),
                self.same_requests(*old(self)),
                self.mode == old(self).mode,
                self.selection == old(self).selection,
                self.copy_mode == old(self).copy_mode,
                self.copy_session_generation == old(self).copy_session_generation,
                self.copy_operation_in_flight == old(self).copy_operation_in_flight,
                self.copy_input_queue@ == old(self).copy_input_queue@,
            decreases q.len() - skipped,
        {
            let ghost before = self.copy_operation_queue@;
            let operation = match self.copy_operation_queue.pop_front() {
                Some(operation) => operation,
                None => {
                    assert(ops_view(before).len() == 0);
                    return None;
                },
            };
            proof {
                assert(self.copy_operation_queue@ == before.subrange(1, before.len() as int));
                assert(ops_view(self.copy_operation_queue@) =~= ops_view(before).skip(1));
                assert(ops_view(before).skip(1) =~= q.skip(skipped + 1));
                assert(operation@ == ops_view(before)[0]);
                assert(ops_view(before)[0] == q[skipped as int]);
            }
            let empty_search = match &operation {
                ClientCopyOperation::Search { query, .. } => query.len() == 0,
                _ => false,
            };
            if !empty_search {
                proof {
                    if skipped < skip_len(q) {
                        assert(!sendable(q[skipped as int]));
                    }
                }
                return Some(operation);
            }
            proof {
                skipped = skipped + 1;
            }
        }
    }

    /// Sends the next queued copy operation unless one is already in flight.
    pub fn dispatch_next_copy_operation(&mut self, outcome: &mut ClientShellInput)
        ensures
            final(self).stepped(*old(self)),
            dispatched(*final(self), *old(self), *final(outcome), *old(outcome), ops_view(old(self).copy_operation_queue@)),
    {
        if self.copy_operation_in_flight {
            return;
        }
        let ghost q = ops_view(self.copy_operation_queue@);
        if self.copy_operation_queue.len() == 0 {
            assert(q.len() == 0);
            return;
        }
        if self.copy_mode.is_none() {
            self.copy_operation_queue.clear();
            self.copy_input_queue.clear();
            return;
        }
        proof {
            lemma_skip_len_bound(q);
        }
        let operation = match self.pop_sendable_copy_operation() {
            Some(operation) => operation,
            None => {
                return;
            },
        };
        let session_generation = self.copy_session_generation;
        let copy_mode = match &mut self.copy_mode {
            Some(copy_mode) => copy_mode,
            None => {
                return;
            },
        };
        let pane_id = copy_mode.pane_id.clone();
        let origin = copy_mode.cursor;
        let (method, kind) = match operation {
            ClientCopyOperation::Motion { motion, remaining } => (
                Method::PaneCopyMotion(
                    PaneCopyMotionParams {
                        pane_id: pane_id.clone(),
                        cursor: origin,
                        motion,
                        content_revision: Some(copy_mode.content_revision),
                    },
                ),
                PendingEndpointKind::CopyMotion { pane_id, origin, motion, remaining, session_generation },
            ),
            ClientCopyOperation::CopyObject(request) => (
                Method::PaneCopyObject(
                    PaneCopyObjectParams {
                        pane_id: pane_id.clone(),
                        cursor: origin,
                        request,
                        content_revision: Some(copy_mode.content_revision),
                    },
                ),
                PendingEndpointKind::CopyObject { pane_id, origin, request, session_generation },
            ),
            ClientCopyOperation::Search { query, direction, repeat, remaining } => {
                copy_mode.search_generation = copy_mode.search_generation.saturating_add(1);
                let generation = copy_mode.search_generation;
                let previous = if repeat {
                    match copy_mode.search_current {
                        Some(index) => if index < copy_mode.search_matches.len()
                            && copy_mode.search_matches[index].start == copy_mode.cursor {
                            Some(copy_mode.search_matches[index])
                        } else {
                            None
                        },
                        None => None,
                    }
                } else {
                    None
                };
                let kind_query = query.clone();
                proof {
                    assert(kind_query@ =~= query@);
                }
                (
                    Method::PaneCopySearch(
                        PaneCopySearchParams {
                            pane_id: pane_id.clone(),
                            query,
                            direction,
                            cursor: origin,
                            content_revision: copy_mode.content_revision,
                            previous,
                        },
                    ),
                    PendingEndpointKind::CopySearch {
                        pane_id,
                        origin,
                        query: kind_query,
                        direction,
                        repeat,
                        remaining,
                        generation,
                        session_generation,
                    },
                )
            },
        };
        self.copy_operation_in_flight = true;
        if !self.push_endpoint_method_with_kind(method, kind, outcome) {
            self.copy_operation_in_flight = false;
            self.copy_operation_queue.clear();
            self.copy_input_queue.clear();
        }
    }

    /// Drops every queued search, keeping the other operations in order.
    pub(crate) fn discard_queued_searches(&mut self)
        ensures
            final(self).stepped(*old(self)),
            ops_view(final(self).copy_operation_queue@) == without_searches(ops_view(old(self).copy_operation_queue@)),
            final(self).same_env(*old(self)),
            final(self).same_requests(*old(self)),
            final(self).mode == old(self).mode,
            final(self).selection == old(self).selection,
            final(self).copy_mode == old(self).copy_mode,
            final(self).copy_session_generation == old(self).copy_session_generation,
            final(self).copy_operation_in_flight == old(self).copy_operation_in_flight,
            final(self).copy_input_queue@ == old(self).copy_input_queue@,
    {
        let ghost q = ops_view(self.copy_operation_queue@);
        let mut kept: VecDeque<ClientCopyOperation> = VecDeque::new();
        let ghost mut i: int = 0;
        assert(q.take(0) =~= Seq::<CopyOp>::empty());
        loop
            invariant
                q == ops_view(old(self).copy_operation_queue@),
                0 <= i <= q.len(),
                ops_view(self.copy_operation_queue@) == q.skip(i),
                ops_view(kept@) == without_searches(q.take(i)),
                self.same_env(*old(self)),
                self.same_requests(*old(self)),
                self.mode == old(self).mode,
                self.selection == old(self).selection,
                self.copy_mode == old(self).copy_mode,
                self.copy_session_generation == old(self).copy_session_generation,
                self.copy_operation_in_flight == old(self).copy_operation_in_flight,
                self.copy_input_queue@ == old(self).copy_input_queue@,
            decreases q.len() - i,
        {
            let ghost before = self.copy_operation_queue@;
            let ghost kept_before = kept@;
            match self.copy_operation_queue.pop_front() {
                None => {
                    assert(ops_view(before).len() == 0);
                    assert(i == q.len());
                    assert(q.take(i) =~= q);
                    self.copy_operation_queue = kept;
                    return;
                },
                Some(operation) => {
                    proof {
                        assert(self.copy_operation_queue@ == before.subrange(1, before.len() as int));
                        assert(ops_view(self.copy_operation_queue@) =~= ops_view(before).skip(1));
                        assert(ops_view(before).skip(1) =~= q.skip(i + 1));
                        assert(operation@ == ops_view(before)[0]);
                        assert(ops_view(before)[0] == q[i]);
                        assert(q.take(i + 1).drop_last() =~= q.take(i));
                        assert(q.take(i + 1).last() == q[i]);
                    }
                    let is_search = match &operation {
                        ClientCopyOperation::Search { .. } => true,
                        _ => false,
                    };
                    if !is_search {
                        kept.push_back(operation);
                        assert(ops_view(kept@) =~= ops_view(kept_before).push(q[i]));
                    }
                    proof {
                        i = i + 1;
                    }
                },
            }
        }
    }

    /// Whether a search waits in the queue.
    pub fn has_queued_copy_search(&self) -> (r: bool)
        ensures
            r == has_search(ops_view(self.copy_operation_queue@)),
    {
        let n = self.copy_operation_queue.len();
        let mut i: usize = 0;
        while i < n
            invariant
                n == self.copy_operation_queue@.len(),
                i <= n,
                forall|j: int| 0 <= j < i ==> !(ops_view(self.copy_operation_queue@)[j] is Search),
            decreases n - i,
        {
            let is_search = match &self.copy_operation_queue[i] {
                ClientCopyOperation::Search { .. } => true,
                _ => false,
            };
            if is_search {
                assert(ops_view(self.copy_operation_queue@)[i as int] is Search);
                return true;
            }
            i = i + 1;
        }
        false
    }

    /// Whether a copy search of `session` awaits its response.
    pub fn has_pending_copy_search(&self, session: u64) -> (r: bool)
        ensures
            r == pending_search(pending_view(self.pending_requests@), session),
    {
        let n = self.pending_requests.len();
        let mut i: usize = 0;
        while i < n
            invariant
                n == self.pending_requests@.len(),
                i <= n,
                forall|j: int|
                    0 <= j < i ==> !search_of_session((#[trigger] pending_view(self.pending_requests@)[j]).1, session),
            decreases n - i,
        {
            let hit = match &self.pending_requests[i].kind {
                PendingEndpointKind::CopySearch { session_generation, .. } => *session_generation == session,
                _ => false,
            };
            if hit {
                assert(search_of_session(pending_view(self.pending_requests@)[i as int].1, session));
                return true;
            }
            i = i + 1;
        }
        false
    }

    /// Whether the copy search for `pane_id` at `generation` of `session`
    /// awaits its response.
    fn has_pending_copy_search_for(&self, pane_id: &String, generation: u64, session: u64) -> (r: bool)
        ensures
            r == pending_search_for(pending_view(self.pending_requests@), pane_id@, generation, session),
    {
        let n = self.pending_requests.len();
        let mut i: usize = 0;
        while i < n
            invariant
                n == self.pending_requests@.len(),
                i <= n,
                forall|j: int|
                    0 <= j < i ==> !search_for((#[trigger] pending_view(self.pending_requests@)[j]).1, pane_id@, generation, session),
            decreases n - i,
        {
            let hit = match &self.pending_requests[i].kind {
                PendingEndpointKind::CopySearch { pane_id: pp, generation: g, session_generation: sg, .. } => *pp
                    == *pane_id && *g == generation && *sg == session,
                _ => false,
            };
            if hit {
                assert(search_for(pending_view(self.pending_requests@)[i as int].1, pane_id@, generation, session));
                return true;
            }
            i = i + 1;
        }
        false
    }

    /// Retires an in-flight copy search so its late response is ignored and
    /// the pipeline is free at once.
    pub fn retire_cancelled_copy_search(&mut self)
        ensures
            final(self).stepped(*old(self)),
            retired(*final(self), *old(self)),
            final(self).same_env(*old(self)),
            final(self).same_requests(*old(self)),
            final(self).mode == old(self).mode,
            final(self).selection == old(self).selection,
            final(self).copy_mode == old(self).copy_mode,
            final(self).copy_operation_queue@ == old(self).copy_operation_queue@,
            final(self).copy_input_queue@ == old(self).copy_input_queue@,
    {
        let session_generation = self.copy_session_generation;
        if self.has_pending_copy_search(session_generation) {
            self.copy_session_generation = self.copy_session_generation.saturating_add(1);
            self.copy_operation_in_flight = false;
        }
    }

    /// Whether a search is queued or awaits its response in this session.
    pub fn copy_search_request_outstanding(&self) -> (r: bool)
        ensures
            r == (has_search(ops_view(self.copy_operation_queue@)) || pending_search(
                pending_view(self.pending_requests@),
                self.copy_session_generation,
            )),
    {
        self.has_queued_copy_search() || self.has_pending_copy_search(self.copy_session_generation)
    }

    /// A yank while the current search is still unanswered waits for it; the
    /// wait is recorded and reported.
    pub fn defer_copy_until_search_result(&mut self) -> (pending: bool)
        ensures
            final(self).stepped(*old(self)),
            pending == (old(self).copy_mode matches Some(cm) && (pending_search_for(
                pending_view(old(self).pending_requests@),
                cm.pane_id@,
                cm.search_generation,
                old(self).copy_session_generation,
            ) || has_search(ops_view(old(self).copy_operation_queue@)))),
            final(self).only_copy_mode_changed(*old(self)),
            final(self).copy_mode == (if pending {
                Some(ClientCopyModeState { copy_after_search: true, ..old(self).cm() })
            } else {
                old(self).copy_mode
            }),
    {
        let (pane_id, generation) = match &self.copy_mode {
            Some(copy_mode) => (copy_mode.pane_id.clone(), copy_mode.search_generation),
            None => {
                return false;
            },
        };
        let session = self.copy_session_generation;
        let pending = self.has_pending_copy_search_for(&pane_id, generation, session) || self.has_queued_copy_search();
        if pending {
            match &mut self.copy_mode {
                Some(copy_mode) => {
                    copy_mode.copy_after_search = true;
                },
                None => {},
            }
        }
        pending
    }

    /// Queues a one-shot endpoint motion.
    pub fn request_copy_motion(&mut self, motion: PaneCopyMotion, outcome: &mut ClientShellInput)
        ensures
            final(self).stepped(*old(self)),
            enqueued(
                *final(self),
                *old(self),
                *final(outcome),
                *old(outcome),
                ops_view(old(self).copy_operation_queue@).push(CopyOp::Motion { motion, remaining: 1 }),
            ),
    {
        if self.copy_mode.is_none() {
            return;
        }
        let ghost q0 = self.copy_operation_queue@;
        self.copy_operation_queue.push_back(ClientCopyOperation::Motion { motion, remaining: 1 });
        assert(ops_view(self.copy_operation_queue@) =~= ops_view(q0).push(CopyOp::Motion { motion, remaining: 1 }));
        self.dispatch_next_copy_operation(outcome);
    }

    /// Queues a counted endpoint motion as one compact repeat chain.
    pub fn request_copy_motion_repeat(&mut self, motion: PaneCopyMotion, count: Option<u32>, outcome: &mut ClientShellInput)
        ensures
            final(self).stepped(*old(self)),
            enqueued(
                *final(self),
                *old(self),
                *final(outcome),
                *old(outcome),
                ops_view(old(self).copy_operation_queue@).push(
                    CopyOp::Motion { motion, remaining: max1(count_or_one(count)) },
                ),
            ),
    {
        if self.copy_mode.is_none() {
            return;
        }
        let c = match count {
            Some(c) => c,
            None => 1,
        };
        let remaining = if c == 0 {
            1
        } else {
            c
        };
        let ghost q0 = self.copy_operation_queue@;
        self.copy_operation_queue.push_back(ClientCopyOperation::Motion { motion, remaining });
        assert(ops_view(self.copy_operation_queue@) =~= ops_view(q0).push(CopyOp::Motion { motion, remaining }));
        self.dispatch_next_copy_operation(outcome);
    }

    /// Queues a text-object or find request.
    pub fn request_copy_object(&mut self, request: PaneCopyObjectRequest, outcome: &mut ClientShellInput)
        ensures
            final(self).stepped(*old(self)),
            enqueued(
                *final(self),
                *old(self),
                *final(outcome),
                *old(outcome),
                ops_view(old(self).copy_operation_queue@).push(CopyOp::CopyObject(request)),
            ),
    {
        if self.copy_mode.is_none() {
            return;
        }
        let ghost q0 = self.copy_operation_queue@;
        self.copy_operation_queue.push_back(ClientCopyOperation::CopyObject(request));
        assert(ops_view(self.copy_operation_queue@) =~= ops_view(q0).push(CopyOp::CopyObject(request)));
        self.dispatch_next_copy_operation(outcome);
    }

    /// `f`/`F`/`t`/`T` and their repeats: one counted find request.
    pub fn request_copy_find(
        &mut self,
        ch: char,
        forward: bool,
        till: bool,
        count: Option<u32>,
        repeat: bool,
        outcome: &mut ClientShellInput,
    )
        ensures
            final(self).stepped(*old(self)),
            enqueued(
                *final(self),
                *old(self),
                *final(outcome),
                *old(outcome),
                ops_view(old(self).copy_operation_queue@).push(
                    CopyOp::CopyObject(
                        PaneCopyObjectRequest::Find {
                            ch,
                            direction: find_direction(forward),
                            till,
                            count: count_or_one(count),
                            repeat,
                        },
                    ),
                ),
            ),
    {
        self.request_copy_object(
            PaneCopyObjectRequest::Find {
                ch,
                direction: if forward {
                    PaneCopySearchDirection::Forward
                } else {
                    PaneCopySearchDirection::Backward
                },
                till,
                count: match count {
                    Some(c) => c,
                    None => 1,
                },
                repeat,
            },
            outcome,
        );
    }

    /// `n`/`N`: repeat the last search, reversed for `N`, as one compact
    /// chain of `count` steps.
    pub fn repeat_copy_search(&mut self, reverse: bool, count: Option<u32>, outcome: &mut ClientShellInput)
        ensures
            final(self).stepped(*old(self)),
            search_repeated(*final(self), *old(self), *final(outcome), *old(outcome), reverse, count),
    {
        let (query, direction) = match &self.copy_mode {
            Some(copy_mode) => {
                if copy_mode.search_query.len() == 0 {
                    return;
                }
                let direction = match copy_mode.search_direction {
                    Some(direction) => direction,
                    None => {
                        return;
                    },
                };
                let query = copy_mode.search_query.clone();
                assert(query@ =~= copy_mode.search_query@);
                (query, direction)
            },
            None => {
                return;
            },
        };
        let direction = if reverse {
            match direction {
                PaneCopySearchDirection::Forward => PaneCopySearchDirection::Backward,
                PaneCopySearchDirection::Backward => PaneCopySearchDirection::Forward,
            }
        } else {
            direction
        };
        let c = match count {
            Some(c) => c,
            None => 1,
        };
        let remaining = if c == 0 {
            1
        } else {
            c
        };
        let ghost q0 = self.copy_operation_queue@;
        let ghost qv = query@;
        self.copy_operation_queue.push_back(ClientCopyOperation::Search { query, direction, repeat: true, remaining });
        assert(ops_view(self.copy_operation_queue@) =~= ops_view(q0).push(
            CopyOp::Search { query: qv, direction, repeat: true, remaining },
        ));
        self.dispatch_next_copy_operation(outcome);
    }

    /// Forgets a deferred yank for search `generation`.
    pub fn cancel_deferred_copy_after_search(&mut self, generation: u64)
        ensures
            final(self).stepped(*old(self)),
            final(self).only_copy_mode_changed(*old(self)),
            final(self).copy_mode == (match old(self).copy_mode {
                Some(cm) => if cm.search_generation == generation {
                    Some(ClientCopyModeState { copy_after_search: false, ..cm })
                } else {
                    Some(cm)
                },
                None => None,
            }),
    {
        match &mut self.copy_mode {
            Some(copy_mode) => {
                if copy_mode.search_generation == generation {
                    copy_mode.copy_after_search = false;
                }
            },
            None => {},
        }
    }
}

/// Copy mode keeps at most one endpoint request in flight: dispatching sends
/// nothing while a request is in flight, and otherwise at most one request.
pub proof fn lemma_dispatch_sends_at_most_one(
    s1: ClientShellState,
    s0: ClientShellState,
    out1: ClientShellInput,
    out0: ClientShellInput,
    q: Seq<CopyOp>,
)
    requires
        dispatched(s1, s0, out1, out0, q),
    ensures
        out1.actions@.len() <= out0.actions@.len() + 1,
        s0.copy_operation_in_flight ==> out1.actions@ == out0.actions@ && s1.copy_operation_in_flight,
        out1.actions@.len() == out0.actions@.len() + 1 ==> s1.copy_operation_in_flight,
{
    assert(actions_view(out1.actions@).len() == out1.actions@.len());
    assert(actions_view(out0.actions@).len() == out0.actions@.len());
}

pub proof fn lemma_without_searches_has_none(q: Seq<CopyOp>)
    ensures
        !has_search(without_searches(q)),
    decreases q.len(),
{
    if q.len() > 0 {
        lemma_without_searches_has_none(q.drop_last());
        let rest = without_searches(q.drop_last());
        if !(q.last() is Search) {
            assert forall|i: int| 0 <= i < rest.push(q.last()).len() implies !(rest.push(q.last())[i] is Search) by {
                if i < rest.len() {
                    assert(rest.push(q.last())[i] == rest[i]);
                }
            }
        }
    }
}

pub proof fn lemma_skip_keeps_no_search(q: Seq<CopyOp>)
    requires
        !has_search(q),
    ensures
        forall|n: int| 0 <= n <= q.len() ==> !has_search(#[trigger] q.skip(n)),
{
    assert forall|n: int| 0 <= n <= q.len() implies !has_search(#[trigger] q.skip(n)) by {
        assert forall|i: int| 0 <= i < q.skip(n).len() implies !(q.skip(n)[i] is Search) by {
            assert(q.skip(n)[i] == q[n + i]);
        }
    }
}

} // verus!
