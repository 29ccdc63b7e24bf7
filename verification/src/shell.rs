//! The shell around copy mode: construction, surface updates, input events
//! and endpoint responses.
use crate::agent_panel::AgentPanelState;
use crate::copy_enter::{find_surface_pane, pane_index, reanchored_cursor, surface_pane};
use crate::copy_keys::{completed, key_handled};
use crate::copy_mode::{followed, untouched};
use crate::copy_search::{search_apply_steps, text_inserted, CopySearchApply};
use crate::copy_state::{
    hits_fit, scrollback_fits, ClientCopyModeState, ClientCopyOperation, ClientCopySelection, ClientShellMode, ClientShellState, PendingEndpoint,
    PendingEndpointKind,
};
use crate::selection::Selection;
use crate::types::{
    ClientShellAction, ClientShellEndpointError, ClientShellInput, EndpointErrorCode, PaneCopyObjectRequest,
    PaneTextPoint,
    PaneHit, PaneSurface, PaneSurfacePane, RawInputEvent, ResponseResult, ShellHitMap,
};
use std::collections::VecDeque;
use vstd::prelude::*;

verus! {

/// `i` is the first pending request with id `id`.
pub open spec fn is_first_pending(p: Seq<PendingEndpoint>, id: u64, i: int) -> bool {
    &&& 0 <= i < p.len()
    &&& p[i].id == id
    &&& forall|j: int| 0 <= j < i ==> p[j].id != id
}

/// The copy session a pending request belongs to, for copy motions, objects
/// and searches.
pub open spec fn copy_session_of(kind: PendingEndpointKind) -> Option<u64> {
    match kind {
        PendingEndpointKind::CopyMotion { session_generation, .. } => Some(session_generation),
        PendingEndpointKind::CopyObject { session_generation, .. } => Some(session_generation),
        PendingEndpointKind::CopySearch { session_generation, .. } => Some(session_generation),
        _ => None,
    }
}

/// Whether copy mode still sits on pane `pane_id` at cursor `origin` with
/// content revision `content_revision`: only then does an endpoint-evaluated
/// motion or object apply.
pub open spec fn fresh_for(s: ClientShellState, pane_id: Seq<char>, origin: PaneTextPoint, content_revision: u64) -> bool {
    s.copy_mode matches Some(cm) && cm.pane_id@ == pane_id && cm.cursor == origin && cm.content_revision
        == content_revision
}

/// A successful response to a copy request `kind` that no longer fits the
/// state `s`: another pane, cursor or content revision, a stale search, or
/// an answer of the wrong kind.
pub open spec fn stale_copy_response(
    kind: PendingEndpointKind,
    result: Result<ResponseResult, ClientShellEndpointError>,
    s: ClientShellState,
) -> bool {
    match result {
        Err(_) => false,
        Ok(response) => match kind {
            PendingEndpointKind::CopyMotion { origin, .. } => match response {
                ResponseResult::PaneCopyMotion { pane_id, content_revision, .. } => !fresh_for(
                    s,
                    pane_id@,
                    origin,
                    content_revision,
                ),
                _ => true,
            },
            PendingEndpointKind::CopyObject { origin, .. } => match response {
                ResponseResult::PaneCopyObject { pane_id, content_revision, .. } => !fresh_for(
                    s,
                    pane_id@,
                    origin,
                    content_revision,
                ),
                _ => true,
            },
            PendingEndpointKind::CopySearch { pane_id, origin, query, generation, .. } => match response {
                ResponseResult::PaneCopySearch(found) => crate::copy_search::search_apply_verdict(
                    s,
                    pane_id@,
                    origin,
                    query@,
                    generation,
                    found,
                ) == CopySearchApply::Stale,
                _ => true,
            },
            _ => false,
        },
    }
}

/// `s1` is `s0` with its copy pipeline dropped: nothing in flight, nothing
/// queued, copy mode itself unchanged.
pub open spec fn pipeline_dropped(s1: ClientShellState, s0: ClientShellState) -> bool {
    &&& s1.copy_mode == s0.copy_mode
    &&& s1.mode == s0.mode
    &&& s1.selection == s0.selection
    &&& s1.copy_session_generation == s0.copy_session_generation
    &&& !s1.copy_operation_in_flight
    &&& s1.copy_operation_queue@.len() == 0
    &&& s1.copy_input_queue@.len() == 0
    &&& s1.hits == s0.hits
    &&& s1.pane_surface == s0.pane_surface
    &&& s1.focused_pane == s0.focused_pane
    &&& s1.agent_panel == s0.agent_panel
    &&& s1.next_request_id == s0.next_request_id
}

/// An error the endpoint reports when a find or text object matched
/// nothing: benign, the queue goes on.
pub open spec fn benign_miss(kind: PendingEndpointKind, result: Result<ResponseResult, ClientShellEndpointError>) -> bool {
    &&& kind is CopyObject
    &&& result matches Err(e) && e.code == Some(EndpointErrorCode::CopyObjectUnavailable)
}

/// `sr` is `s0` with its pending request at `i` retired, and `o0` an empty
/// output: where answering a request starts from.
pub open spec fn retired_at(sr: ClientShellState, o0: ClientShellInput, s0: ClientShellState, i: int) -> bool {
    &&& sr == (ClientShellState { pending_requests: sr.pending_requests, ..s0 })
    &&& sr.pending_requests@ == s0.pending_requests@.remove(i)
    &&& !o0.repaint
    &&& o0.actions@.len() == 0
}

/// `s1` (output `out1`) is what the fitting answer `response` to the copy
/// request `kind` at `i` of `s0` leads to: from the retired state `sr` the
/// answer is applied (`mid`, `omid`); a motion that moved with repeats left
/// queues its next step in front (`m1`); then the operation completes and
/// the queue goes on. `m2` and `o2` are the steps of an applied search.
pub open spec fn answer_applied(
    s1: ClientShellState,
    out1: ClientShellInput,
    s0: ClientShellState,
    i: int,
    kind: PendingEndpointKind,
    response: ResponseResult,
    sr: ClientShellState,
    o0: ClientShellInput,
    mid: ClientShellState,
    omid: ClientShellInput,
    m1: ClientShellState,
    m2: ClientShellState,
    o2: ClientShellInput,
) -> bool {
    &&& retired_at(sr, o0, s0, i)
    &&& match kind {
        PendingEndpointKind::CopyMotion { origin, motion, remaining, session_generation, .. } => match response {
            ResponseResult::PaneCopyMotion { cursor, .. } => {
                &&& followed(mid, sr, omid, o0, ClientCopyModeState { cursor: cursor, ..sr.cm() }, false)
                &&& if remaining > 1 && cursor != origin {
                    &&& m1 == (ClientShellState { copy_operation_queue: m1.copy_operation_queue, ..mid })
                    &&& m1.copy_operation_queue@ == seq![
                        ClientCopyOperation::Motion { motion: motion, remaining: (remaining - 1) as u32 },
                    ] + mid.copy_operation_queue@
                } else {
                    m1 == mid
                }
                &&& completed(s1, m1, out1, omid, session_generation, true)
            },
            _ => false,
        },
        PendingEndpointKind::CopyObject { request, session_generation, .. } => match response {
            ResponseResult::PaneCopyObject { range, .. } => {
                &&& followed(
                    mid,
                    sr,
                    omid,
                    o0,
                    match request {
                        PaneCopyObjectRequest::Find { .. } => ClientCopyModeState { cursor: range.start, ..sr.cm() },
                        PaneCopyObjectRequest::Object { .. } => ClientCopyModeState {
                            selection: Some(ClientCopySelection::Character { anchor: range.start }),
                            cursor: range.end,
                            ..sr.cm()
                        },
                    },
                    false,
                )
                &&& completed(s1, mid, out1, omid, session_generation, true)
            },
            _ => false,
        },
        PendingEndpointKind::CopySearch {
            pane_id,
            origin,
            query,
            direction,
            repeat,
            remaining,
            generation,
            session_generation,
        } => match response {
            ResponseResult::PaneCopySearch(found) => {
                let verdict = crate::copy_search::search_apply_verdict(sr, pane_id@, origin, query@, generation, found);
                &&& verdict == CopySearchApply::Applied ==> search_apply_steps(
                    mid,
                    sr,
                    omid,
                    o0,
                    m1,
                    m2,
                    o2,
                    query@,
                    direction,
                    repeat,
                    remaining,
                    found,
                )
                &&& verdict != CopySearchApply::Applied ==> untouched(mid, sr, omid, o0)
                &&& completed(s1, mid, out1, omid, session_generation, true)
            },
            _ => false,
        },
        _ => false,
    }
}

/// What one input event does: a key is handled, typed or pasted text goes
/// into the search prompt.
pub open spec fn event_handled(
    s1: ClientShellState,
    s0: ClientShellState,
    out1: ClientShellInput,
    out0: ClientShellInput,
    event: RawInputEvent,
) -> bool {
    match event {
        RawInputEvent::Key(key) => key_handled(s1, s0, out1, out0, key),
        RawInputEvent::Text(text) => text_inserted(s1, s0, out1, out0, text@),
        RawInputEvent::Paste(text) => text_inserted(s1, s0, out1, out0, text@),
    }
}

/// `states` and `outs` record `events` handled in order, one step each.
pub open spec fn events_handled(states: Seq<ClientShellState>, outs: Seq<ClientShellInput>, events: Seq<RawInputEvent>) -> bool {
    &&& states.len() == events.len() + 1
    &&& outs.len() == states.len()
    &&& forall|j: int|
        #![trigger events[j]]
        0 <= j < events.len() ==> event_handled(states[j + 1], states[j], outs[j + 1], outs[j], events[j])
}

/// Every pane of the surface keeps its scroll offsets representable.
pub open spec fn surface_fits(panes: Seq<PaneSurfacePane>) -> bool {
    forall|i: int|
        0 <= i < panes.len() ==> ((#[trigger] panes[i]).scroll is Some ==> scrollback_fits(
            panes[i].scroll->0.max_offset_from_bottom,
        ))
}

/// The hit map of a surface: each pane laid out at its inner rectangle.
pub open spec fn hits_of(panes: Seq<PaneSurfacePane>, hits: Seq<PaneHit>) -> bool {
    &&& hits.len() == panes.len()
    &&& forall|i: int|
        0 <= i < panes.len() ==> (#[trigger] hits[i]).pane_id == panes[i].pane_id && hits[i].inner_rect
            == panes[i].inner_rect && hits[i].scroll == panes[i].scroll
}

/// Whether every pane of `panes` keeps its scroll offsets representable.
pub fn panes_fit(panes: &Vec<PaneSurfacePane>) -> (r: bool)
    ensures
        r == surface_fits(panes@),
{
    let mut i: usize = 0;
    while i < panes.len()
        invariant
            i <= panes@.len(),
            forall|j: int| 0 <= j < i ==> ((#[trigger] panes@[j]).scroll is Some ==> scrollback_fits(
                panes@[j].scroll->0.max_offset_from_bottom,
            )),
        decreases panes@.len() - i,
    {
        match panes[i].scroll {
            Some(metrics) => {
                if metrics.max_offset_from_bottom > 0xFFFF_7FFF {
                    assert(!scrollback_fits(panes@[i as int].scroll->0.max_offset_from_bottom));
                    return false;
                }
            },
            None => {},
        }
        i = i + 1;
    }
    true
}

impl ClientShellState {
    /// A shell in terminal mode with nothing laid out and nothing pending.
    pub fn new() -> (r: ClientShellState)
        ensures
            r.mode == ClientShellMode::Terminal,
            r.copy_mode is None,
            r.selection is None,
            !r.copy_operation_in_flight,
            r.copy_operation_queue@.len() == 0,
            r.copy_input_queue@.len() == 0,
            r.pending_requests@.len() == 0,
            r.hits.panes@.len() == 0,
            r.pane_surface is None,
            r.focused_pane is None,
            r.endpoint_connected,
            r.visible_endpoint_notice is None,
            r.wf(),
    {
        ClientShellState {
            mode: ClientShellMode::Terminal,
            copy_mode: None,
            selection: None,
            selection_highlight_clear_deadline: None,
            selection_autoscroll_active: false,
            copy_session_generation: 0,
            copy_operation_in_flight: false,
            copy_operation_queue: VecDeque::new(),
            copy_input_queue: VecDeque::new(),
            pending_requests: Vec::new(),
            next_request_id: 1,
            endpoint_connected: true,
            hits: ShellHitMap { panes: Vec::new() },
            pane_surface: None,
            focused_pane: None,
            overlay_open: false,
            popup_open: false,
            popup_pending: false,
            visible_endpoint_notice: None,
            agent_panel: AgentPanelState::new(),
        }
    }

    pub fn set_focused_pane(&mut self, pane_id: Option<String>)
        ensures
            final(self).focused_pane == pane_id,
            final(self).wf() == old(self).wf(),
            *final(self) == (ClientShellState { focused_pane: pane_id, ..*old(self) }),
    {
        self.focused_pane = pane_id;
    }

    /// Installs `surface` when every pane's scrollback is within the
    /// addressable limit (see `set_pane_surface`); otherwise leaves the shell
    /// as it is. Reports whether it was installed.
    pub fn install_pane_surface(&mut self, surface: PaneSurface) -> (installed: bool)
        requires
            old(self).wf(),
        ensures
            final(self).wf(),
            installed == surface_fits(surface.panes@),
            !installed ==> *final(self) == *old(self),
            installed ==> final(self).pane_surface == Some(surface) && hits_of(surface.panes@, final(self).hits.panes@),
    {
        if !panes_fit(&surface.panes) {
            return false;
        }
        self.set_pane_surface(surface);
        true
    }

    /// Installs a new rendered surface: panes are laid out where the surface
    /// puts them, and copy mode follows its pane. A new content revision
    /// invalidates search coordinates; a geometry or screen change re-anchors
    /// the cursor and invalidates the cached search.
    pub fn set_pane_surface(&mut self, surface: PaneSurface)
        requires
            old(self).wf(),
            surface_fits(surface.panes@),
        ensures
            final(self).wf(),
            final(self).pane_surface == Some(surface),
            hits_of(surface.panes@, final(self).hits.panes@),
            final(self).mode == old(self).mode,
            final(self).selection == old(self).selection,
            final(self).same_pipeline(*old(self)),
            final(self).same_requests(*old(self)),
            final(self).copy_mode is Some == old(self).copy_mode is Some,
            old(self).copy_mode matches Some(cm) ==> match surface_pane(Some(surface), cm.pane_id@) {
                None => final(self).copy_mode == old(self).copy_mode,
                Some(p) => {
                    let c = final(self).cm();
                    &&& c.pane_id == cm.pane_id
                    &&& c.content_revision == p.content_revision
                    &&& c.geometry == (p.inner_rect.width, p.inner_rect.height)
                    &&& c.alternate_screen_active == p.alternate_screen_active
                    &&& (p.content_revision != cm.content_revision ==> c.search_matches@.len() == 0
                        && c.search_total == 0 && c.search_current is None && c.search_current_global is None
                        && c.search_cache_generation is None)
                    &&& (p.content_revision == cm.content_revision ==> c.search_matches == cm.search_matches
                        && c.search_current == cm.search_current)
                    &&& (p.content_revision != cm.content_revision || p.alternate_screen_active
                        != cm.alternate_screen_active || (p.inner_rect.width, p.inner_rect.height) != cm.geometry
                        ==> c.search_cache_generation is None)
                    &&& (p.alternate_screen_active == cm.alternate_screen_active && (p.inner_rect.width, p.inner_rect.height)
                        == cm.geometry ==> c.cursor == cm.cursor)
                    &&& (p.alternate_screen_active != cm.alternate_screen_active || (p.inner_rect.width, p.inner_rect.height)
                        != cm.geometry ==> c.cursor == reanchored_cursor(
                        ClientCopyModeState {
                            offset_from_bottom: c.offset_from_bottom,
                            max_offset_from_bottom: c.max_offset_from_bottom,
                            ..cm
                        },
                        p.inner_rect,
                        p.alternate_screen_active != cm.alternate_screen_active,
                        surface.cursor,
                    ))
                    &&& c.offset_from_bottom == (match p.scroll {
                        Some(m) => m.offset_from_bottom,
                        None => cm.offset_from_bottom,
                    })
                    &&& c.max_offset_from_bottom == (match p.scroll {
                        Some(m) => m.max_offset_from_bottom,
                        None => cm.max_offset_from_bottom,
                    })
                    &&& c.search_prompt == cm.search_prompt
                    &&& c.search_query == cm.search_query
                    &&& c.search_generation == cm.search_generation
                    &&& c.selection == cm.selection
                },
            },
    {
        let mut hits: Vec<PaneHit> = Vec::new();
        let n = surface.panes.len();
        let mut i: usize = 0;
        while i < n
            invariant
                n == surface.panes@.len(),
                i <= n,
                surface_fits(surface.panes@),
                hits@.len() == i,
                forall|j: int|
                    0 <= j < i ==> (#[trigger] hits@[j]).pane_id == surface.panes@[j].pane_id
                        && hits@[j].inner_rect == surface.panes@[j].inner_rect && hits@[j].scroll
                        == surface.panes@[j].scroll,
            decreases n - i,
        {
            let pane = &surface.panes[i];
            hits.push(PaneHit { pane_id: pane.pane_id.clone(), inner_rect: pane.inner_rect, scroll: pane.scroll });
            i = i + 1;
        }
        self.hits = ShellHitMap { panes: hits };
        assert(hits_fit(self.hits.panes@)) by {
            assert forall|j: int| 0 <= j < self.hits.panes@.len() implies ((#[trigger] self.hits.panes@[j]).scroll is Some
                ==> scrollback_fits(self.hits.panes@[j].scroll->0.max_offset_from_bottom)) by {
                assert(self.hits.panes@[j].scroll == surface.panes@[j].scroll);
            }
        }
        let (pane_id, index) = match &self.copy_mode {
            Some(copy_mode) => match find_surface_pane(&surface.panes, &copy_mode.pane_id) {
                Some(index) => (copy_mode.pane_id.clone(), index),
                None => {
                    self.pane_surface = Some(surface);
                    return;
                },
            },
            None => {
                self.pane_surface = Some(surface);
                return;
            },
        };
        let pane_revision = surface.panes[index].content_revision;
        let pane_alternate = surface.panes[index].alternate_screen_active;
        let inner = surface.panes[index].inner_rect;
        let scroll = surface.panes[index].scroll;
        let frame_cursor = surface.cursor;
        assert(surface.panes@[index as int].scroll is Some ==> scrollback_fits(
            surface.panes@[index as int].scroll->0.max_offset_from_bottom,
        ));
        let mut switched = false;
        let mut reshaped = false;
        match &mut self.copy_mode {
            Some(copy_mode) => {
                match scroll {
                    Some(m) => {
                        copy_mode.offset_from_bottom = m.offset_from_bottom;
                        copy_mode.max_offset_from_bottom = m.max_offset_from_bottom;
                    },
                    None => {},
                }
                if copy_mode.content_revision != pane_revision {
                    copy_mode.content_revision = pane_revision;
                    copy_mode.search_matches.clear();
                    copy_mode.search_total = 0;
                    copy_mode.search_current = None;
                    copy_mode.search_current_global = None;
                    copy_mode.search_cache_generation = None;
                }
                switched = copy_mode.alternate_screen_active != pane_alternate;
                reshaped = copy_mode.geometry.0 != inner.width || copy_mode.geometry.1 != inner.height;
                if switched || reshaped {
                    copy_mode.search_cache_generation = None;
                    copy_mode.geometry = (inner.width, inner.height);
                    copy_mode.alternate_screen_active = pane_alternate;
                }
            },
            None => {},
        }
        if switched || reshaped {
            self.reclamp_copy_cursor_after_surface_change(&pane_id, inner, switched, frame_cursor);
        }
        self.pane_surface = Some(surface);
    }

    /// Handles a batch of input events and reports what they produced.
    pub fn handle_raw_events(&mut self, events: Vec<RawInputEvent>) -> (r: ClientShellInput)
        requires
            old(self).wf(),
        ensures
            final(self).wf(),
            final(self).hits == old(self).hits,
            final(self).pane_surface == old(self).pane_surface,
            old(self).mode != ClientShellMode::Copy ==> final(self).only_copy_mode_changed(*old(self))
                && final(self).copy_mode == old(self).copy_mode && !r.repaint && r.actions@.len() == 0,
            exists|states: Seq<ClientShellState>, outs: Seq<ClientShellInput>|
                #[trigger] events_handled(states, outs, events@) && states[0] == *old(self) && !outs[0].repaint
                    && outs[0].actions@.len() == 0 && states.last() == *final(self) && outs.last() == r,
    {
        let mut outcome = ClientShellInput::new();
        let n = events.len();
        let mut i: usize = 0;
        let ghost mut states: Seq<ClientShellState> = seq![*self];
        let ghost mut outs: Seq<ClientShellInput> = seq![outcome];
        while i < n
            invariant
                n == events@.len(),
                i <= n,
                self.wf(),
                self.hits == old(self).hits,
                self.pane_surface == old(self).pane_surface,
                old(self).mode != ClientShellMode::Copy ==> self.only_copy_mode_changed(*old(self))
                    && self.copy_mode == old(self).copy_mode && !outcome.repaint && outcome.actions@.len() == 0,
                events_handled(states, outs, events@.take(i as int)),
                states[0] == *old(self),
                !outs[0].repaint,
                outs[0].actions@.len() == 0,
                states.last() == *self,
                outs.last() == outcome,
            decreases n - i,
        {
            match &events[i] {
                RawInputEvent::Key(key) => {
                    self.handle_key(*key, &mut outcome);
                },
                RawInputEvent::Text(text) => {
                    let _ = self.insert_copy_search_text(text.as_str(), &mut outcome);
                },
                RawInputEvent::Paste(text) => {
                    let _ = self.insert_copy_search_text(text.as_str(), &mut outcome);
                },
            }
            proof {
                let ns = states.push(*self);
                let no = outs.push(outcome);
                let done = events@.take(i as int + 1);
                assert(done[i as int] == events@[i as int]);
                assert forall|j: int| #![trigger done[j]] 0 <= j < done.len() implies event_handled(
                    ns[j + 1],
                    ns[j],
                    no[j + 1],
                    no[j],
                    done[j],
                ) by {
                    if j < i {
                        assert(done[j] == events@.take(i as int)[j]);
                        assert(ns[j + 1] == states[j + 1]);
                        assert(no[j + 1] == outs[j + 1]);
                    }
                }
                states = ns;
                outs = no;
            }
            i = i + 1;
        }
        assert(events@.take(n as int) =~= events@);
        outcome
    }

    /// Position of the pending request `id`.
    fn pending_index(&self, id: u64) -> (r: Option<usize>)
        ensures
            r matches Some(i) ==> is_first_pending(self.pending_requests@, id, i as int),
            r is None ==> forall|j: int| 0 <= j < self.pending_requests@.len() ==> self.pending_requests@[j].id != id,
    {
        let n = self.pending_requests.len();
        let mut i: usize = 0;
        while i < n
            invariant
                n == self.pending_requests@.len(),
                i <= n,
                forall|j: int| 0 <= j < i ==> self.pending_requests@[j].id != id,
            decreases n - i,
        {
            if self.pending_requests[i].id == id {
                return Some(i);
            }
            i = i + 1;
        }
        None
    }

    /// A response to request `request_id`. Unknown ids are ignored. Copy
    /// motions, objects and searches are applied when still current and then
    /// complete their operation, continuing the queue on success; a motion
    /// that moved keeps its repeat chain going. A benign no-match of a find
    /// or object continues the queue; any other error of the current session
    /// cancels it and is shown as a notice.
    #[verifier::rlimit(30)]
    pub fn handle_endpoint_result(
        &mut self,
        request_id: u64,
        result: Result<ResponseResult, ClientShellEndpointError>,
    ) -> (r: (bool, Vec<ClientShellAction>))
        requires
            old(self).wf(),
        ensures
            final(self).wf(),
            final(self).hits == old(self).hits,
            final(self).pane_surface == old(self).pane_surface,
            (forall|j: int| 0 <= j < old(self).pending_requests@.len() ==> old(self).pending_requests@[j].id != request_id)
                ==> (!r.0 && r.1@.len() == 0 && *final(self) == *old(self)),
            forall|i: int|
                #![trigger old(self).pending_requests@[i]]
                is_first_pending(old(self).pending_requests@, request_id, i) ==> {
                    let kind = old(self).pending_requests@[i].kind;
                    let retired = *final(self) == (ClientShellState {
                        pending_requests: final(self).pending_requests,
                        ..*old(self)
                    }) && final(self).pending_requests@ == old(self).pending_requests@.remove(i);
                    &&& (copy_session_of(kind) matches Some(g) && g != old(self).copy_session_generation) ==> (
                    retired && !r.0 && r.1@.len() == 0)
                    &&& copy_session_of(kind) is None ==> (retired && r.0 && r.1@.len() == 0)
                    &&& (copy_session_of(kind) == Some(old(self).copy_session_generation) && stale_copy_response(
                        kind,
                        result,
                        *old(self),
                    )) ==> (pipeline_dropped(*final(self), *old(self)) && final(self).visible_endpoint_notice == old(
                        self,
                    ).visible_endpoint_notice && final(self).pending_requests@ == old(self).pending_requests@.remove(i)
                        && !r.0 && r.1@.len() == 0)
                    &&& (copy_session_of(kind) == Some(old(self).copy_session_generation) && result is Err
                        && !benign_miss(kind, result)) ==> (pipeline_dropped(*final(self), *old(self))
                        && final(self).visible_endpoint_notice == Some(result->Err_0.message)
                        && final(self).pending_requests@ == old(self).pending_requests@.remove(i) && !r.0
                        && r.1@.len() == 0)
                    &&& (copy_session_of(kind) == Some(old(self).copy_session_generation) && result is Ok
                        && !stale_copy_response(kind, result, *old(self))) ==> exists|
                        sr: ClientShellState,
                        o0: ClientShellInput,
                        mid: ClientShellState,
                        omid: ClientShellInput,
                        m1: ClientShellState,
                        m2: ClientShellState,
                        o2: ClientShellInput,
                        out1: ClientShellInput,
                    |
                        #[trigger] answer_applied(
                            *final(self),
                            out1,
                            *old(self),
                            i,
                            kind,
                            result->Ok_0,
                            sr,
                            o0,
                            mid,
                            omid,
                            m1,
                            m2,
                            o2,
                        ) && r.0 == out1.repaint && r.1@ == out1.actions@
                    &&& (copy_session_of(kind) == Some(old(self).copy_session_generation) && benign_miss(kind, result))
                        ==> exists|sr: ClientShellState, o0: ClientShellInput, out1: ClientShellInput|
                        retired_at(sr, o0, *old(self), i) && #[trigger] completed(
                            *final(self),
                            sr,
                            out1,
                            o0,
                            old(self).copy_session_generation,
                            true,
                        ) && r.0 == out1.repaint && r.1@ == out1.actions@
                },
    {
        let mut outcome = ClientShellInput::new();
        let index = match self.pending_index(request_id) {
            Some(index) => index,
            None => {
                return (false, outcome.actions);
            },
        };
        let ghost s0 = *self;
        let ghost res = result;
        let pending: PendingEndpoint = self.pending_requests.remove(index);
        let ghost kind = pending.kind;
        let ghost sr = *self;
        let ghost o0 = outcome;
        proof {
            assert forall|i: int| is_first_pending(s0.pending_requests@, request_id, i) implies i == index by {
                if i < index {
                    assert(s0.pending_requests@[i].id != request_id);
                } else if index < i {
                    assert(s0.pending_requests@[index as int].id != request_id);
                }
            }
        }
        match pending.kind {
            PendingEndpointKind::CopyMotion { pane_id: _, origin, motion, remaining, session_generation } => {
                if session_generation != self.copy_session_generation {
                    return (outcome.repaint, outcome.actions);
                }
                match result {
                    Ok(ResponseResult::PaneCopyMotion { pane_id, cursor, content_revision }) => {
                        let applied = self.apply_copy_motion_target(&pane_id, origin, cursor, content_revision, &mut outcome);
                        let ghost mid = *self;
                        let ghost omid = outcome;
                        if applied && remaining > 1 && cursor != origin {
                            self.copy_operation_queue.push_front(
                                ClientCopyOperation::Motion { motion, remaining: remaining - 1 },
                            );
                        }
                        let ghost m1 = *self;
                        self.complete_copy_operation(session_generation, applied, &mut outcome);
                        proof {
                            if applied {
                                assert(answer_applied(*self, outcome, s0, index as int, kind, res->Ok_0, sr, o0, mid, omid, m1, m1, omid));
                            }
                        }
                    },
                    Ok(_) => {
                        self.complete_copy_operation(session_generation, false, &mut outcome);
                    },
                    Err(error) => {
                        self.report_copy_error(&error);
                        self.complete_copy_operation(session_generation, false, &mut outcome);
                    },
                }
            },
            PendingEndpointKind::CopyObject { pane_id: _, origin, request, session_generation } => {
                if session_generation != self.copy_session_generation {
                    return (outcome.repaint, outcome.actions);
                }
                match result {
                    Ok(ResponseResult::PaneCopyObject { pane_id, range, content_revision }) => {
                        let ghost request0 = request;
                        let applied = match request {
                            PaneCopyObjectRequest::Find { .. } => self.apply_copy_motion_target(
                                &pane_id,
                                origin,
                                range.start,
                                content_revision,
                                &mut outcome,
                            ),
                            PaneCopyObjectRequest::Object { .. } => self.apply_copy_object_range(
                                &pane_id,
                                origin,
                                range,
                                content_revision,
                                &mut outcome,
                            ),
                        };
                        let ghost mid = *self;
                        let ghost omid = outcome;
                        self.complete_copy_operation(session_generation, applied, &mut outcome);
                        proof {
                            if applied {
                                assert(answer_applied(*self, outcome, s0, index as int, kind, res->Ok_0, sr, o0, mid, omid, mid, mid, omid));
                            }
                        }
                    },
                    Ok(_) => {
                        self.complete_copy_operation(session_generation, false, &mut outcome);
                    },
                    Err(error) => {
                        let benign = match error.code {
                            Some(EndpointErrorCode::CopyObjectUnavailable) => true,
                            _ => false,
                        };
                        if !benign {
                            self.report_copy_error(&error);
                        }
                        self.complete_copy_operation(session_generation, benign, &mut outcome);
                        proof {
                            if benign {
                                assert(retired_at(sr, o0, s0, index as int));
                                assert(completed(*self, sr, outcome, o0, s0.copy_session_generation, true));
                            }
                        }
                    },
                }
            },
            PendingEndpointKind::CopySearch {
                pane_id,
                origin,
                query,
                direction,
                repeat,
                remaining,
                generation,
                session_generation,
            } => {
                if session_generation != self.copy_session_generation {
                    return (outcome.repaint, outcome.actions);
                }
                match result {
                    Ok(ResponseResult::PaneCopySearch(search)) => {
                        let ghost found = search;
                        let applied = self.apply_copy_search_result(
                            &pane_id,
                            origin,
                            query,
                            direction,
                            repeat,
                            remaining,
                            generation,
                            search,
                            &mut outcome,
                        );
                        let ghost mid = *self;
                        let ghost omid = outcome;
                        self.complete_copy_operation(
                            session_generation,
                            applied != CopySearchApply::Stale,
                            &mut outcome,
                        );
                        proof {
                            if applied == CopySearchApply::Applied {
                                let (m1, m2, o2) = choose|m1: ClientShellState, m2: ClientShellState, o2: ClientShellInput|
                                    #[trigger] search_apply_steps(mid, sr, omid, o0, m1, m2, o2, query@, direction, repeat, remaining, found);
                                assert(answer_applied(*self, outcome, s0, index as int, kind, res->Ok_0, sr, o0, mid, omid, m1, m2, o2));
                            } else if applied == CopySearchApply::Superseded {
                                assert(answer_applied(*self, outcome, s0, index as int, kind, res->Ok_0, sr, o0, mid, omid, mid, mid, omid));
                            }
                        }
                    },
                    Ok(_) => {
                        self.complete_copy_operation(session_generation, false, &mut outcome);
                    },
                    Err(error) => {
                        self.report_copy_error(&error);
                        self.complete_copy_operation(session_generation, false, &mut outcome);
                    },
                }
            },
            PendingEndpointKind::PaneScroll { .. } => {
                outcome.repaint = true;
            },
            PendingEndpointKind::SelectionRead => {
                outcome.repaint = true;
            },
        }
        (outcome.repaint, outcome.actions)
    }

    /// Shows a failed copy request of the current session as a notice.
    fn report_copy_error(&mut self, error: &ClientShellEndpointError)
        ensures
            *final(self) == (ClientShellState { visible_endpoint_notice: Some(error.message), ..*old(self) }),
    {
        self.visible_endpoint_notice = Some(error.message.clone());
    }
}

} // verus!
