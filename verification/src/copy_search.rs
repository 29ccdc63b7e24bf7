//! Copy-mode search: the prompt, live queries while typing, committing with
//! Enter, repeating, and applying endpoint results only while they are still
//! current.
use crate::copy_mode::{count_or_one, exited, followed, untouched};
use crate::copy_pipeline::{
    dispatched, has_search, pending_search, retired, without_searches,
};
use crate::copy_state::{
    ops_view, pending_view, ClientCopyModeState, ClientCopyOperation, ClientCopySearchPrompt,
    ClientShellMode, ClientShellState, CopyOp,
};
use crate::text_editor::{single_line, TextEditor};
use crate::types::{ClientCopySearchResult, ClientShellInput, PaneCopySearchDirection, PaneTextPoint, PaneTextRange};
use vstd::prelude::*;

verus! {

/// Outcome of applying a search response.
#[derive(Clone, Copy, Debug, PartialEq, Eq, Structural)]
pub enum CopySearchApply {
    Applied,
    /// A newer query superseded the response.
    Superseded,
    /// The response no longer matches pane, cursor, or content state.
    Stale,
}

/// The current match of copy mode, if its index is valid.
pub open spec fn current_match(cm: ClientCopyModeState) -> Option<PaneTextRange> {
    match cm.search_current {
        Some(i) => if i < cm.search_matches@.len() {
            Some(cm.search_matches@[i as int])
        } else {
            None
        },
        None => None,
    }
}

/// A queued search for a different query.
pub open spec fn queued_other_search(q: Seq<CopyOp>, query: Seq<char>) -> bool {
    exists|i: int| 0 <= i < q.len() && (#[trigger] q[i] matches CopyOp::Search { query: qq, .. } && qq != query)
}

pub open spec fn search_op(query: Seq<char>, direction: PaneCopySearchDirection, repeat: bool, remaining: u32) -> CopyOp {
    CopyOp::Search { query, direction, repeat, remaining }
}

/// `s1` is `s0` with only copy mode replaced.
pub open spec fn with_copy_mode(s1: ClientShellState, s0: ClientShellState) -> bool {
    s1 == ClientShellState { copy_mode: s1.copy_mode, ..s0 }
}

/// Copy mode `c1` is `cm` with the prompt opened and prefixes dropped.
pub open spec fn prompt_opened(
    c1: ClientCopyModeState,
    cm: ClientCopyModeState,
    direction: PaneCopySearchDirection,
    count: Option<u32>,
) -> bool {
    &&& c1 == ClientCopyModeState {
        pending_find: None,
        pending_text_object: None,
        search_prompt: c1.search_prompt,
        ..cm
    }
    &&& c1.search_prompt is Some
    &&& c1.search_prompt->0.direction == direction
    &&& c1.search_prompt->0.count == count_or_one(count)
    &&& c1.search_prompt->0.query.text@.len() == 0
}

/// Copy mode `c2` is `cm` with the search query and matches cleared.
pub open spec fn search_cleared(c2: ClientCopyModeState, cm: ClientCopyModeState) -> bool {
    &&& c2 == ClientCopyModeState {
        search_query: c2.search_query,
        search_matches: c2.search_matches,
        search_total: 0,
        search_current: None,
        search_current_global: None,
        ..cm
    }
    &&& c2.search_query@.len() == 0
    &&& c2.search_matches@.len() == 0
}

/// The reported match index, if it is in range.
pub open spec fn valid_current(result: ClientCopySearchResult) -> Option<usize> {
    match result.current {
        Some(i) => if i < result.matches@.len() {
            Some(i)
        } else {
            None
        },
        None => None,
    }
}

/// Copy mode `c1` is `cm` with the search result recorded.
pub open spec fn search_recorded(
    c1: ClientCopyModeState,
    cm: ClientCopyModeState,
    query: Seq<char>,
    direction: PaneCopySearchDirection,
    repeat: bool,
    result: ClientCopySearchResult,
    take_copy: bool,
) -> bool {
    &&& c1 == ClientCopyModeState {
        search_query: c1.search_query,
        search_direction: if repeat {
            cm.search_direction
        } else {
            Some(direction)
        },
        search_matches: c1.search_matches,
        search_total: result.total,
        search_current: valid_current(result),
        search_current_global: result.current_global,
        search_cache_generation: Some(cm.search_generation),
        copy_after_search: if take_copy {
            false
        } else {
            cm.copy_after_search
        },
        ..cm
    }
    &&& c1.search_query@ == query
    &&& c1.search_matches@ == result.matches@
}

/// The last step of applying a result: leave copying when a yank waited for
/// it, otherwise continue a repeat chain at the front of the queue.
pub open spec fn search_finished(
    f: ClientShellState,
    m: ClientShellState,
    out_f: ClientShellInput,
    out_m: ClientShellInput,
    query: Seq<char>,
    direction: PaneCopySearchDirection,
    remaining: u32,
    chain: bool,
    leave_with_copy: bool,
) -> bool {
    if leave_with_copy {
        exited(f, m, out_f, out_m, true)
    } else {
        &&& f.same_env(m)
        &&& f.same_requests(m)
        &&& f.mode == m.mode
        &&& f.selection == m.selection
        &&& f.copy_mode == m.copy_mode
        &&& f.copy_session_generation == m.copy_session_generation
        &&& f.copy_operation_in_flight == m.copy_operation_in_flight
        &&& f.copy_input_queue@ == m.copy_input_queue@
        &&& ops_view(f.copy_operation_queue@) == (if chain {
            seq![search_op(query, direction, true, (remaining - 1) as u32)] + ops_view(m.copy_operation_queue@)
        } else {
            ops_view(m.copy_operation_queue@)
        })
        &&& out_f.actions@ == out_m.actions@
        &&& out_f.repaint
    }
}

/// The steps of applying a current search result through the intermediate
/// states `m1` (result recorded) and `m2` (cursor moved to the target).
pub open spec fn search_apply_steps(
    f: ClientShellState,
    s: ClientShellState,
    out_f: ClientShellInput,
    out_s: ClientShellInput,
    m1: ClientShellState,
    m2: ClientShellState,
    o2: ClientShellInput,
    query: Seq<char>,
    direction: PaneCopySearchDirection,
    repeat: bool,
    remaining: u32,
    result: ClientCopySearchResult,
) -> bool {
    let cm = s.cm();
    let sq = has_search(ops_view(s.copy_operation_queue@));
    let current = valid_current(result);
    let chain = repeat && remaining > 1 && current is Some;
    let prompt_open = cm.search_prompt is Some;
    let take_copy = !(prompt_open || sq || chain);
    &&& with_copy_mode(m1, s)
    &&& m1.copy_mode is Some
    &&& search_recorded(m1.cm(), cm, query, direction, repeat, result, take_copy)
    &&& if !prompt_open && current is Some {
        followed(
            m2,
            m1,
            o2,
            out_s,
            ClientCopyModeState { cursor: result.matches@[current->0 as int].start, ..m1.cm() },
            true,
        )
    } else {
        m2 == m1 && o2 == out_s
    }
    &&& search_finished(
        f,
        m2,
        out_f,
        o2,
        query,
        direction,
        remaining,
        chain,
        !prompt_open && take_copy && cm.copy_after_search,
    )
}

/// `s1` is `s0` after a prompt edit refreshed the live query: the new query
/// replaces any queued search and is dispatched; an emptied query clears the
/// search state.
pub open spec fn refreshed(s1: ClientShellState, s0: ClientShellState, out1: ClientShellInput, out0: ClientShellInput) -> bool {
    match s0.copy_mode {
        Some(cm) => match cm.search_prompt {
            Some(p) => {
                let cm1 = ClientCopyModeState { search_generation: cm.search_generation.saturating_add(1), ..cm };
                let q1 = without_searches(ops_view(s0.copy_operation_queue@));
                if p.query.text@.len() == 0 {
                    &&& s1.copy_mode is Some
                    &&& search_cleared(s1.cm(), cm1)
                    &&& ops_view(s1.copy_operation_queue@) == q1
                    &&& s1.same_env(s0)
                    &&& s1.same_requests(s0)
                    &&& s1.mode == s0.mode
                    &&& s1.selection == s0.selection
                    &&& s1.copy_session_generation == s0.copy_session_generation
                    &&& s1.copy_operation_in_flight == s0.copy_operation_in_flight
                    &&& s1.copy_input_queue@ == s0.copy_input_queue@
                    &&& out1 == out0
                } else {
                    dispatched(
                        s1,
                        ClientShellState { copy_mode: Some(cm1), ..s0 },
                        out1,
                        out0,
                        q1.push(search_op(p.query.text@, p.direction, false, 1)),
                    )
                }
            },
            None => untouched(s1, s0, out1, out0),
        },
        None => untouched(s1, s0, out1, out0),
    }
}

impl ClientShellState {
    /// Opens the `/` or `?` prompt; prefixes in progress are dropped.
    pub fn open_copy_search(&mut self, direction: PaneCopySearchDirection, count: Option<u32>)
        ensures
            final(self).stepped(*old(self)),
            final(self).only_copy_mode_changed(*old(self)),
            match old(self).copy_mode {
                None => final(self).copy_mode is None,
                Some(cm) => final(self).copy_mode is Some && prompt_opened(final(self).cm(), cm, direction, count),
            },
    {
        match &mut self.copy_mode {
            Some(copy_mode) => {
                copy_mode.pending_find = None;
                copy_mode.pending_text_object = None;
                copy_mode.search_prompt = Some(
                    ClientCopySearchPrompt {
                        direction,
                        query: TextEditor::default(),
                        count: match count {
                            Some(c) => c,
                            None => 1,
                        },
                    },
                );
            },
            None => {},
        }
    }

    /// After a prompt edit: the new query replaces any queued search and goes
    /// out as a live search; an emptied query clears the search state.
    pub fn refresh_copy_search_live_query(&mut self, outcome: &mut ClientShellInput)
        ensures
            final(self).stepped(*old(self)),
            refreshed(*final(self), *old(self), *final(outcome), *old(outcome)),
    {
        let (query, direction) = match &self.copy_mode {
            Some(copy_mode) => match &copy_mode.search_prompt {
                Some(prompt) => {
                    let q = prompt.query.text.clone();
                    assert(q@ =~= prompt.query.text@);
                    (q, prompt.direction)
                },
                None => {
                    return;
                },
            },
            None => {
                return;
            },
        };
        match &mut self.copy_mode {
            Some(copy_mode) => {
                copy_mode.search_generation = copy_mode.search_generation.saturating_add(1);
            },
            None => {},
        }
        self.discard_queued_searches();
        if query.len() == 0 {
            match &mut self.copy_mode {
                Some(copy_mode) => {
                    copy_mode.search_query.clear();
                    copy_mode.search_matches.clear();
                    copy_mode.search_total = 0;
                    copy_mode.search_current = None;
                    copy_mode.search_current_global = None;
                },
                None => {},
            }
            return;
        }
        let ghost q0 = self.copy_operation_queue@;
        let ghost qv = query@;
        self.copy_operation_queue.push_back(ClientCopyOperation::Search { query, direction, repeat: false, remaining: 1 });
        assert(ops_view(self.copy_operation_queue@) =~= ops_view(q0).push(search_op(qv, direction, false, 1)));
        self.dispatch_next_copy_operation(outcome);
    }

    /// Enter in the prompt. An empty query cancels any search in flight. A
    /// current cached result of the same query is applied in place;
    /// otherwise a fresh search is queued unless one is outstanding. A count
    /// above one adds one compact repeat chain.
    pub fn commit_copy_search(
        &mut self,
        query: Vec<char>,
        direction: PaneCopySearchDirection,
        count: u32,
        outcome: &mut ClientShellInput,
    )
        ensures
            final(self).stepped(*old(self)),
            search_committed(*final(self), *old(self), *final(outcome), *old(outcome), query@, direction, count),
    {
        if self.copy_mode.is_none() {
            return;
        }
        if query.len() == 0 {
            self.cancel_empty_copy_search();
            return;
        }
        let outstanding = self.copy_search_request_outstanding();
        let (cached, target) = self.cached_copy_search(&query, direction, outstanding);
        let ghost s0 = *self;
        let ghost o0 = *outcome;
        if cached {
            match target {
                Some(target) => {
                    match &mut self.copy_mode {
                        Some(copy_mode) => {
                            copy_mode.cursor = target.start;
                        },
                        None => {},
                    }
                    self.follow_copy_cursor(outcome, true);
                },
                None => {},
            }
        }
        let ghost mid = *self;
        let ghost omid = *outcome;
        self.queue_committed_search(query, direction, count, !cached && !outstanding);
        self.dispatch_next_copy_operation(outcome);
        proof {
            if cached && target is Some {
                assert(followed(
                    mid,
                    s0,
                    omid,
                    o0,
                    ClientCopyModeState { cursor: target->0.start, ..s0.cm() },
                    true,
                ));
            }
        }
    }

    /// Enter with an empty query: searches are dropped and an in-flight one
    /// retired.
    fn cancel_empty_copy_search(&mut self)
        requires
            old(self).copy_mode is Some,
        ensures
            final(self).copy_mode == Some(
                ClientCopyModeState {
                    search_generation: old(self).cm().search_generation.saturating_add(1),
                    copy_after_search: false,
                    ..old(self).cm()
                },
            ),
            ops_view(final(self).copy_operation_queue@) == without_searches(ops_view(old(self).copy_operation_queue@)),
            retired(*final(self), *old(self)),
            final(self).same_env(*old(self)),
            final(self).same_requests(*old(self)),
            final(self).mode == old(self).mode,
            final(self).selection == old(self).selection,
            final(self).copy_input_queue@ == old(self).copy_input_queue@,
    {
        self.discard_queued_searches();
        self.retire_cancelled_copy_search();
        match &mut self.copy_mode {
            Some(copy_mode) => {
                copy_mode.search_generation = copy_mode.search_generation.saturating_add(1);
                copy_mode.copy_after_search = false;
            },
            None => {},
        }
    }

    /// Whether the committed query has a current cached result, and the
    /// current match.
    fn cached_copy_search(&self, query: &Vec<char>, direction: PaneCopySearchDirection, outstanding: bool) -> (r: (
        bool,
        Option<PaneTextRange>,
    ))
        requires
            self.copy_mode is Some,
        ensures
            r.0 == (self.cm().search_query@ == query@ && self.cm().search_direction == Some(direction)
                && self.cm().search_cache_generation == Some(self.cm().search_generation) && !outstanding),
            r.1 == current_match(self.cm()),
    {
        match &self.copy_mode {
            Some(copy_mode) => {
                let same_query = chars_equal(&copy_mode.search_query, query);
                let same_direction = match copy_mode.search_direction {
                    Some(d) => d == direction,
                    None => false,
                };
                let fresh = match copy_mode.search_cache_generation {
                    Some(g) => g == copy_mode.search_generation,
                    None => false,
                };
                let target = match copy_mode.search_current {
                    Some(index) => if index < copy_mode.search_matches.len() {
                        Some(copy_mode.search_matches[index])
                    } else {
                        None
                    },
                    None => None,
                };
                (same_query && same_direction && fresh && !outstanding, target)
            },
            None => (false, None),
        }
    }

    /// Queues the committed search (when `fresh`) and the repeat chain for a
    /// count above one.
    fn queue_committed_search(&mut self, query: Vec<char>, direction: PaneCopySearchDirection, count: u32, fresh: bool)
        ensures
            ops_view(final(self).copy_operation_queue@) == ops_view(old(self).copy_operation_queue@) + (if fresh {
                seq![search_op(query@, direction, false, 1)]
            } else {
                Seq::empty()
            }) + (if count > 1 {
                seq![search_op(query@, direction, true, (count - 1) as u32)]
            } else {
                Seq::empty()
            }),
            final(self).same_env(*old(self)),
            final(self).same_requests(*old(self)),
            final(self).mode == old(self).mode,
            final(self).selection == old(self).selection,
            final(self).copy_mode == old(self).copy_mode,
            final(self).copy_session_generation == old(self).copy_session_generation,
            final(self).copy_operation_in_flight == old(self).copy_operation_in_flight,
            final(self).copy_input_queue@ == old(self).copy_input_queue@,
    {
        let ghost q0 = ops_view(self.copy_operation_queue@);
        let ghost qv = query@;
        if fresh {
            let fresh_query = query.clone();
            assert(fresh_query@ =~= query@);
            self.copy_operation_queue.push_back(
                ClientCopyOperation::Search { query: fresh_query, direction, repeat: false, remaining: 1 },
            );
        }
        let ghost q1 = ops_view(self.copy_operation_queue@);
        assert(q1 =~= q0 + (if fresh {
            seq![search_op(qv, direction, false, 1)]
        } else {
            Seq::empty()
        }));
        if count > 1 {
            self.copy_operation_queue.push_back(
                ClientCopyOperation::Search { query, direction, repeat: true, remaining: count - 1 },
            );
        }
        assert(ops_view(self.copy_operation_queue@) =~= q1 + (if count > 1 {
            seq![search_op(qv, direction, true, (count - 1) as u32)]
        } else {
            Seq::empty()
        }));
    }
}

/// How a search response relates to the current state.
pub open spec fn search_apply_verdict(
    s: ClientShellState,
    pane_id: Seq<char>,
    origin: PaneTextPoint,
    query: Seq<char>,
    generation: u64,
    result: ClientCopySearchResult,
) -> CopySearchApply {
    match s.copy_mode {
        None => CopySearchApply::Stale,
        Some(cm) => if cm.pane_id@ != pane_id || cm.cursor != origin || cm.content_revision != result.content_revision {
            CopySearchApply::Stale
        } else if queued_other_search(ops_view(s.copy_operation_queue@), query) {
            CopySearchApply::Superseded
        } else if cm.search_prompt is Some && cm.search_prompt->0.query.text@ != query {
            CopySearchApply::Superseded
        } else if cm.search_generation != generation {
            if has_search(ops_view(s.copy_operation_queue@)) {
                CopySearchApply::Superseded
            } else {
                CopySearchApply::Stale
            }
        } else {
            CopySearchApply::Applied
        },
    }
}

impl ClientShellState {
    /// Whether a search for a query other than `query` is queued.
    fn has_queued_other_search(&self, query: &Vec<char>) -> (r: bool)
        ensures
            r == queued_other_search(ops_view(self.copy_operation_queue@), query@),
    {
        let n = self.copy_operation_queue.len();
        let mut i: usize = 0;
        while i < n
            invariant
                n == self.copy_operation_queue@.len(),
                i <= n,
                forall|j: int|
                    0 <= j < i ==> !(#[trigger] ops_view(self.copy_operation_queue@)[j] matches CopyOp::Search {
                        query: qq,
                        ..
                    } && qq != query@),
            decreases n - i,
        {
            let other = match &self.copy_operation_queue[i] {
                ClientCopyOperation::Search { query: queued, .. } => !chars_equal(queued, query),
                _ => false,
            };
            if other {
                assert(ops_view(self.copy_operation_queue@)[i as int] matches CopyOp::Search { query: qq, .. } && qq
                    != query@);
                return true;
            }
            i = i + 1;
        }
        false
    }

    /// Applies a search response if it is still current: records the
    /// matches, moves to the reported match unless the prompt is open, runs a
    /// deferred yank, and keeps a repeat chain going.
    #[verifier::rlimit(30)]
    pub fn apply_copy_search_result(
        &mut self,
        pane_id: &String,
        origin: PaneTextPoint,
        query: Vec<char>,
        direction: PaneCopySearchDirection,
        repeat: bool,
        remaining: u32,
        generation: u64,
        result: ClientCopySearchResult,
        outcome: &mut ClientShellInput,
    ) -> (r: CopySearchApply)
        ensures
            final(self).stepped(*old(self)),
            r == search_apply_verdict(*old(self), pane_id@, origin, query@, generation, result),
            r != CopySearchApply::Applied ==> untouched(*final(self), *old(self), *final(outcome), *old(outcome)),
            r == CopySearchApply::Applied ==> exists|m1: ClientShellState, m2: ClientShellState, o2: ClientShellInput|
                #[trigger] search_apply_steps(
                    *final(self),
                    *old(self),
                    *final(outcome),
                    *old(outcome),
                    m1,
                    m2,
                    o2,
                    query@,
                    direction,
                    repeat,
                    remaining,
                    result,
                ),
    {
        let search_queued = self.has_queued_copy_search();
        let other_queued = self.has_queued_other_search(&query);
        match &self.copy_mode {
            None => {
                return CopySearchApply::Stale;
            },
            Some(copy_mode) => {
                if copy_mode.pane_id != *pane_id || copy_mode.cursor != origin || copy_mode.content_revision
                    != result.content_revision {
                    return CopySearchApply::Stale;
                }
                if other_queued {
                    return CopySearchApply::Superseded;
                }
                match &copy_mode.search_prompt {
                    Some(prompt) => {
                        if !chars_equal(&prompt.query.text, &query) {
                            return CopySearchApply::Superseded;
                        }
                    },
                    None => {},
                }
                if copy_mode.search_generation != generation {
                    return if search_queued {
                        CopySearchApply::Superseded
                    } else {
                        CopySearchApply::Stale
                    };
                }
            },
        }
        let ghost s0 = *self;
        let ghost o0 = *outcome;
        let current = match result.current {
            Some(index) => if index < result.matches.len() {
                Some(index)
            } else {
                None
            },
            None => None,
        };
        let chain_continues = repeat && remaining > 1 && current.is_some();
        let target = match current {
            Some(index) => Some(result.matches[index]),
            None => None,
        };
        let recorded_query = query.clone();
        assert(recorded_query@ =~= query@);
        let (prompt_open, copy_after_search) = match &mut self.copy_mode {
            Some(copy_mode) => {
                copy_mode.search_query = recorded_query;
                if !repeat {
                    copy_mode.search_direction = Some(direction);
                }
                copy_mode.search_matches = result.matches;
                copy_mode.search_total = result.total;
                copy_mode.search_current = current;
                copy_mode.search_current_global = result.current_global;
                copy_mode.search_cache_generation = Some(copy_mode.search_generation);
                let prompt_open = copy_mode.search_prompt.is_some();
                let copy_after_search = if prompt_open || search_queued || chain_continues {
                    false
                } else {
                    let deferred = copy_mode.copy_after_search;
                    copy_mode.copy_after_search = false;
                    deferred
                };
                (prompt_open, copy_after_search)
            },
            None => (false, false),
        };
        let ghost m1 = *self;
        if !prompt_open {
            match target {
                Some(target) => {
                    match &mut self.copy_mode {
                        Some(copy_mode) => {
                            copy_mode.cursor = target.start;
                        },
                        None => {},
                    }
                    self.follow_copy_cursor(outcome, true);
                },
                None => {},
            }
        }
        let ghost m2 = *self;
        let ghost o2 = *outcome;
        if !prompt_open && copy_after_search {
            self.exit_copy_mode(true, outcome);
            assert(search_apply_steps(*self, s0, *outcome, o0, m1, m2, o2, query@, direction, repeat, remaining, result));
            assert(m2.same_env(*old(self)));
            assert(self.stepped(*old(self)));
            return CopySearchApply::Applied;
        }
        let ghost q0 = ops_view(self.copy_operation_queue@);
        if chain_continues {
            let ghost qv = query@;
            self.copy_operation_queue.push_front(
                ClientCopyOperation::Search { query, direction, repeat: true, remaining: remaining - 1 },
            );
            assert(ops_view(self.copy_operation_queue@) =~= seq![search_op(qv, direction, true, (remaining - 1) as u32)] + q0);
        }
        outcome.repaint = true;
        assert(search_apply_steps(*self, s0, *outcome, o0, m1, m2, o2, query@, direction, repeat, remaining, result));
        CopySearchApply::Applied
    }

    /// Text committed or pasted into the search prompt, folded to one line.
    /// Refused outside copy mode, under an overlay or popup, or without a
    /// prompt; a change refreshes the live query.
    pub fn insert_copy_search_text(&mut self, text: &str, outcome: &mut ClientShellInput) -> (r: bool)
        ensures
            r == prompt_accepts_text(*old(self)),
            text_inserted(*final(self), *old(self), *final(outcome), *old(outcome), text@),
    {
        if self.mode != ClientShellMode::Copy || self.overlay_open || self.popup_open || self.popup_pending {
            return false;
        }
        let changed = match &mut self.copy_mode {
            Some(copy_mode) => match &mut copy_mode.search_prompt {
                Some(prompt) => prompt.query.insert(text),
                None => {
                    return false;
                },
            },
            None => {
                return false;
            },
        };
        let ghost mid = *self;
        if changed {
            self.refresh_copy_search_live_query(outcome);
        }
        assert(prompt_text_appended(mid, *old(self), single_line(text@)));
        true
    }
}

/// Whether text can go into the search prompt: copy mode with its prompt
/// open, and no overlay or popup in front of it.
pub open spec fn prompt_accepts_text(s: ClientShellState) -> bool {
    &&& s.mode == ClientShellMode::Copy
    &&& !s.overlay_open
    &&& !s.popup_open
    &&& !s.popup_pending
    &&& s.copy_mode is Some
    &&& s.cm().search_prompt is Some
}

/// What inserting `text` into the search prompt does to `s0` (output
/// `out0`): refused, nothing changes; accepted, the text is folded to one
/// line and appended, and a change refreshes the live query.
pub open spec fn text_inserted(
    s1: ClientShellState,
    s0: ClientShellState,
    out1: ClientShellInput,
    out0: ClientShellInput,
    text: Seq<char>,
) -> bool {
    &&& s1.stepped(s0)
    &&& !prompt_accepts_text(s0) ==> untouched(s1, s0, out1, out0)
    &&& prompt_accepts_text(s0) ==> exists|mid: ClientShellState|
        #[trigger] prompt_text_appended(mid, s0, single_line(text)) && (if single_line(text).len() > 0 {
            refreshed(s1, mid, out1, out0)
        } else {
            s1 == mid && out1 == out0
        })
}

/// What committing `query` (typed with `direction` and `count`) does to
/// `s0` (output `out0`): an empty query drops queued searches and retires
/// an unanswered one; otherwise a search is queued unless its results are
/// cached (the cursor then jumps to the current match) or one is already
/// outstanding, repeats follow as one chain, and the queue is dispatched.
pub open spec fn search_committed(
    s1: ClientShellState,
    s0: ClientShellState,
    out1: ClientShellInput,
    out0: ClientShellInput,
    query: Seq<char>,
    direction: PaneCopySearchDirection,
    count: u32,
) -> bool {
    match s0.copy_mode {
        None => untouched(s1, s0, out1, out0),
        Some(cm) => if query.len() == 0 {
            &&& s1.copy_mode == Some(
                ClientCopyModeState {
                    search_generation: cm.search_generation.saturating_add(1),
                    copy_after_search: false,
                    ..cm
                },
            )
            &&& ops_view(s1.copy_operation_queue@) == without_searches(
                ops_view(s0.copy_operation_queue@),
            )
            &&& retired(s1, s0)
            &&& s1.same_env(s0)
            &&& s1.same_requests(s0)
            &&& s1.mode == s0.mode
            &&& s1.selection == s0.selection
            &&& s1.copy_input_queue@ == s0.copy_input_queue@
            &&& out1 == out0
        } else {
            let outstanding = has_search(ops_view(s0.copy_operation_queue@)) || pending_search(
                pending_view(s0.pending_requests@),
                s0.copy_session_generation,
            );
            let cached = cm.search_query@ == query && cm.search_direction == Some(direction)
                && cm.search_cache_generation == Some(cm.search_generation) && !outstanding;
            let q = ops_view(s0.copy_operation_queue@) + (if !cached && !outstanding {
                seq![search_op(query, direction, false, 1)]
            } else {
                Seq::empty()
            }) + (if count > 1 {
                seq![search_op(query, direction, true, (count - 1) as u32)]
            } else {
                Seq::empty()
            });
            if cached && current_match(cm) is Some {
                exists|mid: ClientShellState, omid: ClientShellInput|
                    #[trigger] followed(
                        mid,
                        s0,
                        omid,
                        out0,
                        ClientCopyModeState { cursor: current_match(cm)->0.start, ..cm },
                        true,
                    ) && dispatched(s1, mid, out1, omid, q)
            } else {
                dispatched(s1, s0, out1, out0, q)
            }
        },
    }
}

/// `mid` is `s` with the prompt text replaced by `text`.
pub open spec fn prompt_text_now(mid: ClientShellState, s: ClientShellState, text: Seq<char>) -> bool {
    &&& with_copy_mode(mid, s)
    &&& mid.copy_mode is Some
    &&& mid.cm().search_prompt is Some
    &&& mid.cm() == ClientCopyModeState { search_prompt: mid.cm().search_prompt, ..s.cm() }
    &&& mid.cm().search_prompt->0 == ClientCopySearchPrompt {
        query: mid.cm().search_prompt->0.query,
        ..s.cm().search_prompt->0
    }
    &&& mid.cm().search_prompt->0.query.text@ == text
}

/// `mid` is `s` with `added` appended to the prompt text.
pub open spec fn prompt_text_appended(mid: ClientShellState, s: ClientShellState, added: Seq<char>) -> bool {
    &&& with_copy_mode(mid, s)
    &&& mid.copy_mode is Some
    &&& mid.cm().search_prompt is Some
    &&& mid.cm() == ClientCopyModeState { search_prompt: mid.cm().search_prompt, ..s.cm() }
    &&& mid.cm().search_prompt->0 == ClientCopySearchPrompt {
        query: mid.cm().search_prompt->0.query,
        ..s.cm().search_prompt->0
    }
    &&& mid.cm().search_prompt->0.query.text@ == s.cm().search_prompt->0.query.text@ + added
}

/// Element-wise equality of two character vectors.
pub fn chars_equal(a: &Vec<char>, b: &Vec<char>) -> (r: bool)
    ensures
        r == (a@ == b@),
{
    if a.len() != b.len() {
        return false;
    }
    let n = a.len();
    let mut i: usize = 0;
    while i < n
        invariant
            n == a@.len(),
            n == b@.len(),
            i <= n,
            forall|j: int| 0 <= j < i ==> a@[j] == b@[j],
        decreases n - i,
    {
        if a[i] != b[i] {
            return false;
        }
        i = i + 1;
    }
    assert(a@ =~= b@);
    true
}


/// `n` and `N` keep the direction of the last `/` or `?`: applying a repeat
/// result leaves the stored search direction as it was, while a fresh
/// search stores its own direction.
pub proof fn lemma_repeat_keeps_search_direction(
    f: ClientShellState,
    s: ClientShellState,
    out_f: ClientShellInput,
    out_s: ClientShellInput,
    m1: ClientShellState,
    m2: ClientShellState,
    o2: ClientShellInput,
    query: Seq<char>,
    direction: PaneCopySearchDirection,
    repeat: bool,
    remaining: u32,
    result: ClientCopySearchResult,
)
    requires
        search_apply_steps(f, s, out_f, out_s, m1, m2, o2, query, direction, repeat, remaining, result),
        f.copy_mode is Some,
    ensures
        repeat ==> f.cm().search_direction == s.cm().search_direction,
        !repeat ==> f.cm().search_direction == Some(direction),
{
}

} // verus!
