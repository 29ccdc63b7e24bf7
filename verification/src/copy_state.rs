//! Copy-mode state, the shell fields it drives, and the endpoint request
//! plumbing: every request the pipeline sends is recorded as pending until its
//! response arrives.
use crate::selection::Selection;
use crate::text_editor::TextEditor;
use crate::types::{
    ClientShellAction, ClientShellInput, EndpointRequest, Method, PaneCopyMotion,
    PaneCopyMotionParams, PaneCopyObjectParams, PaneCopyObjectRequest, PaneCopySearchDirection,
    PaneCopySearchParams, PaneScrollParams, PaneSelectionReadParams, PaneSurface, PaneTextPoint,
    PaneTextRange, ShellHitMap, TerminalKey, PaneHit,
};
use std::collections::VecDeque;
use crate::agent_panel::AgentPanelState;
use vstd::prelude::*;

verus! {

#[derive(Clone, Copy, Debug, PartialEq, Eq, Structural)]
pub enum ClientShellMode {
    Terminal,
    Copy,
}

/// The visual selection kind of copy mode and its anchor.
#[derive(Clone, Copy, Debug, PartialEq, Eq, Structural)]
pub enum ClientCopySelection {
    Character { anchor: PaneTextPoint },
    Linewise { anchor_row: u32 },
    Block { anchor: PaneTextPoint },
}

/// The last `f`/`F`/`t`/`T` target, repeated by `;` and `,`.
#[derive(Clone, Copy, Debug, PartialEq, Eq, Structural)]
pub struct ClientCopyLastFind {
    pub ch: char,
    pub forward: bool,
    pub till: bool,
}

/// The open `/` or `?` prompt.
#[derive(Clone, Debug)]
pub struct ClientCopySearchPrompt {
    pub direction: PaneCopySearchDirection,
    pub query: TextEditor,
    pub count: u32,
}

/// Copy mode of one pane.
#[derive(Debug)]
pub struct ClientCopyModeState {
    pub pane_id: String,
    pub content_revision: u64,
    pub geometry: (u16, u16),
    pub alternate_screen_active: bool,
    pub cursor: PaneTextPoint,
    pub offset_from_bottom: usize,
    pub max_offset_from_bottom: usize,
    pub entry_offset_from_bottom: usize,
    pub selection: Option<ClientCopySelection>,
    pub search_prompt: Option<ClientCopySearchPrompt>,
    pub search_query: Vec<char>,
    pub search_direction: Option<PaneCopySearchDirection>,
    pub search_matches: Vec<PaneTextRange>,
    pub search_total: usize,
    pub search_current: Option<usize>,
    pub search_current_global: Option<usize>,
    pub search_generation: u64,
    pub search_cache_generation: Option<u64>,
    pub copy_after_search: bool,
    pub pending_count: Option<u32>,
    pub pending_find: Option<(bool, bool)>,
    pub pending_text_object: Option<bool>,
    pub last_find: Option<ClientCopyLastFind>,
}

/// Work queued behind the one endpoint request copy mode keeps in flight.
#[derive(Debug)]
pub enum ClientCopyOperation {
    Motion { motion: PaneCopyMotion, remaining: u32 },
    CopyObject(PaneCopyObjectRequest),
    Search { query: Vec<char>, direction: PaneCopySearchDirection, repeat: bool, remaining: u32 },
}

/// Abstract value of a queued operation.
pub enum CopyOp {
    Motion { motion: PaneCopyMotion, remaining: u32 },
    CopyObject(PaneCopyObjectRequest),
    Search { query: Seq<char>, direction: PaneCopySearchDirection, repeat: bool, remaining: u32 },
}

impl View for ClientCopyOperation {
    type V = CopyOp;

    open spec fn view(&self) -> CopyOp {
        match self {
            ClientCopyOperation::Motion { motion, remaining } => CopyOp::Motion {
                motion: *motion,
                remaining: *remaining,
            },
            ClientCopyOperation::CopyObject(r) => CopyOp::CopyObject(*r),
            ClientCopyOperation::Search { query, direction, repeat, remaining } => CopyOp::Search {
                query: query@,
                direction: *direction,
                repeat: *repeat,
                remaining: *remaining,
            },
        }
    }
}

/// What an outstanding request was for.
#[derive(Debug)]
pub enum PendingEndpointKind {
    CopyMotion {
        pane_id: String,
        origin: PaneTextPoint,
        motion: PaneCopyMotion,
        remaining: u32,
        session_generation: u64,
    },
    CopyObject {
        pane_id: String,
        origin: PaneTextPoint,
        request: PaneCopyObjectRequest,
        session_generation: u64,
    },
    CopySearch {
        pane_id: String,
        origin: PaneTextPoint,
        query: Vec<char>,
        direction: PaneCopySearchDirection,
        repeat: bool,
        remaining: u32,
        generation: u64,
        session_generation: u64,
    },
    PaneScroll { pane_id: String, offset_from_bottom: usize },
    SelectionRead,
}

pub enum PendingKindView {
    CopyMotion {
        pane_id: Seq<char>,
        origin: PaneTextPoint,
        motion: PaneCopyMotion,
        remaining: u32,
        session_generation: u64,
    },
    CopyObject {
        pane_id: Seq<char>,
        origin: PaneTextPoint,
        request: PaneCopyObjectRequest,
        session_generation: u64,
    },
    CopySearch {
        pane_id: Seq<char>,
        origin: PaneTextPoint,
        query: Seq<char>,
        direction: PaneCopySearchDirection,
        repeat: bool,
        remaining: u32,
        generation: u64,
        session_generation: u64,
    },
    PaneScroll { pane_id: Seq<char>, offset_from_bottom: usize },
    SelectionRead,
}

impl View for PendingEndpointKind {
    type V = PendingKindView;

    open spec fn view(&self) -> PendingKindView {
        match self {
            PendingEndpointKind::CopyMotion {
                pane_id,
                origin,
                motion,
                remaining,
                session_generation,
            } => PendingKindView::CopyMotion {
                pane_id: pane_id@,
                origin: *origin,
                motion: *motion,
                remaining: *remaining,
                session_generation: *session_generation,
            },
            PendingEndpointKind::CopyObject { pane_id, origin, request, session_generation } =>
                PendingKindView::CopyObject {
                pane_id: pane_id@,
                origin: *origin,
                request: *request,
                session_generation: *session_generation,
            },
            PendingEndpointKind::CopySearch {
                pane_id,
                origin,
                query,
                direction,
                repeat,
                remaining,
                generation,
                session_generation,
            } => PendingKindView::CopySearch {
                pane_id: pane_id@,
                origin: *origin,
                query: query@,
                direction: *direction,
                repeat: *repeat,
                remaining: *remaining,
                generation: *generation,
                session_generation: *session_generation,
            },
            PendingEndpointKind::PaneScroll { pane_id, offset_from_bottom } =>
                PendingKindView::PaneScroll {
                pane_id: pane_id@,
                offset_from_bottom: *offset_from_bottom,
            },
            PendingEndpointKind::SelectionRead => PendingKindView::SelectionRead,
        }
    }
}

#[derive(Debug)]
pub struct PendingEndpoint {
    pub id: u64,
    pub kind: PendingEndpointKind,
}

/// Abstract value of an endpoint method.
pub enum MethodView {
    CopyMotion { pane_id: Seq<char>, cursor: PaneTextPoint, motion: PaneCopyMotion, content_revision: Option<u64> },
    CopyObject { pane_id: Seq<char>, cursor: PaneTextPoint, request: PaneCopyObjectRequest, content_revision: Option<u64> },
    CopySearch {
        pane_id: Seq<char>,
        query: Seq<char>,
        direction: PaneCopySearchDirection,
        cursor: PaneTextPoint,
        content_revision: u64,
        previous: Option<PaneTextRange>,
    },
    Scroll { pane_id: Seq<char>, offset_from_bottom: usize },
    SelectionRead { block: bool, pane_id: Seq<char>, anchor: PaneTextPoint, cursor: PaneTextPoint, content_revision: Option<u64> },
}

pub open spec fn method_view(m: Method) -> MethodView {
    match m {
        Method::PaneCopyMotion(p) => MethodView::CopyMotion {
            pane_id: p.pane_id@,
            cursor: p.cursor,
            motion: p.motion,
            content_revision: p.content_revision,
        },
        Method::PaneCopyObject(p) => MethodView::CopyObject {
            pane_id: p.pane_id@,
            cursor: p.cursor,
            request: p.request,
            content_revision: p.content_revision,
        },
        Method::PaneCopySearch(p) => MethodView::CopySearch {
            pane_id: p.pane_id@,
            query: p.query@,
            direction: p.direction,
            cursor: p.cursor,
            content_revision: p.content_revision,
            previous: p.previous,
        },
        Method::PaneScroll(p) => MethodView::Scroll {
            pane_id: p.pane_id@,
            offset_from_bottom: p.offset_from_bottom,
        },
        Method::PaneSelectionRead(p) => MethodView::SelectionRead {
            block: false,
            pane_id: p.pane_id@,
            anchor: p.anchor,
            cursor: p.cursor,
            content_revision: p.content_revision,
        },
        Method::PaneSelectionReadBlock(p) => MethodView::SelectionRead {
            block: true,
            pane_id: p.pane_id@,
            anchor: p.anchor,
            cursor: p.cursor,
            content_revision: p.content_revision,
        },
    }
}

/// Abstract value of an emitted action: the request id and its method.
pub open spec fn action_view(a: ClientShellAction) -> (u64, MethodView) {
    match a {
        ClientShellAction::Endpoint { request } => (request.id, method_view(request.method)),
    }
}

pub open spec fn actions_view(s: Seq<ClientShellAction>) -> Seq<(u64, MethodView)> {
    s.map_values(|a: ClientShellAction| action_view(a))
}

pub open spec fn pending_view(s: Seq<PendingEndpoint>) -> Seq<(u64, PendingKindView)> {
    s.map_values(|p: PendingEndpoint| (p.id, p.kind@))
}

pub open spec fn ops_view(s: Seq<ClientCopyOperation>) -> Seq<CopyOp> {
    s.map_values(|o: ClientCopyOperation| o@)
}

pub open spec fn next_request_id(id: u64) -> u64 {
    if id < u64::MAX {
        (id + 1) as u64
    } else {
        0
    }
}

/// The id `n` requests after `id`.
pub open spec fn advance_id(id: u64, n: nat) -> u64
    decreases n,
{
    if n == 0 {
        id
    } else {
        next_request_id(advance_id(id, (n - 1) as nat))
    }
}

pub open spec fn sent_pending(id: u64, reqs: Seq<(MethodView, PendingKindView)>) -> Seq<(u64, PendingKindView)> {
    Seq::new(reqs.len(), |k: int| (advance_id(id, k as nat), reqs[k].1))
}

pub open spec fn sent_actions(id: u64, reqs: Seq<(MethodView, PendingKindView)>) -> Seq<(u64, MethodView)> {
    Seq::new(reqs.len(), |k: int| (advance_id(id, k as nat), reqs[k].0))
}

pub proof fn lemma_advance_id_add(id: u64, a: nat, b: nat)
    ensures
        advance_id(advance_id(id, a), b) == advance_id(id, a + b),
    decreases b,
{
    if b > 0 {
        lemma_advance_id_add(id, a, (b - 1) as nat);
    }
}

/// Rows must be addressable as `u32` down to the middle line of the tallest
/// viewport below the scrollback top (`M` lands there without saturating),
/// so scroll offsets are bounded by this limit.
pub open spec fn scrollback_fits(max_offset_from_bottom: usize) -> bool {
    max_offset_from_bottom as int + 0x8000 <= u32::MAX as int
}

pub open spec fn hits_fit(panes: Seq<PaneHit>) -> bool {
    forall|i: int|
        0 <= i < panes.len() ==> ((#[trigger] panes[i]).scroll is Some ==> scrollback_fits(
            panes[i].scroll->0.max_offset_from_bottom,
        ))
}

/// The client shell: the fields copy mode reads and drives.
#[derive(Debug)]
pub struct ClientShellState {
    pub mode: ClientShellMode,
    pub copy_mode: Option<ClientCopyModeState>,
    pub selection: Option<Selection>,
    /// When the host is to clear the selection highlight, as a reading of
    /// its clock, if a clear is pending.
    pub selection_highlight_clear_deadline: Option<u64>,
    /// Whether a mouse selection drag is scrolling the pane.
    pub selection_autoscroll_active: bool,
    pub copy_session_generation: u64,
    pub copy_operation_in_flight: bool,
    pub copy_operation_queue: VecDeque<ClientCopyOperation>,
    pub copy_input_queue: VecDeque<TerminalKey>,
    pub pending_requests: Vec<PendingEndpoint>,
    pub next_request_id: u64,
    pub endpoint_connected: bool,
    pub hits: ShellHitMap,
    pub pane_surface: Option<PaneSurface>,
    pub focused_pane: Option<String>,
    pub overlay_open: bool,
    pub popup_open: bool,
    pub popup_pending: bool,
    pub visible_endpoint_notice: Option<String>,
    pub agent_panel: AgentPanelState,
}

impl ClientShellState {
    pub open spec fn cm(self) -> ClientCopyModeState {
        self.copy_mode->0
    }

    /// Everything outside the copy pipeline is left alone.
    pub open spec fn same_env(self, o: Self) -> bool {
        &&& self.same_surroundings(o)
        &&& self.same_highlight(o)
    }

    /// The selection highlight's clear deadline and the drag autoscroll are
    /// kept.
    pub open spec fn same_highlight(self, o: Self) -> bool {
        &&& self.selection_highlight_clear_deadline == o.selection_highlight_clear_deadline
        &&& self.selection_autoscroll_active == o.selection_autoscroll_active
    }

    /// The highlight deadline and the drag autoscroll each stay or are
    /// dropped.
    pub open spec fn highlight_kept_or_cleared(self, o: Self) -> bool {
        &&& (self.selection_highlight_clear_deadline == o.selection_highlight_clear_deadline
            || self.selection_highlight_clear_deadline is None)
        &&& (self.selection_autoscroll_active == o.selection_autoscroll_active || !self.selection_autoscroll_active)
    }

    /// No highlight clear is pending and no drag autoscroll runs.
    pub open spec fn highlight_dropped(self) -> bool {
        &&& self.selection_highlight_clear_deadline is None
        &&& !self.selection_autoscroll_active
    }

    /// Everything outside the copy pipeline and the selection highlight is
    /// left alone.
    pub open spec fn same_surroundings(self, o: Self) -> bool {
        &&& self.hits == o.hits
        &&& self.pane_surface == o.pane_surface
        &&& self.focused_pane == o.focused_pane
        &&& self.overlay_open == o.overlay_open
        &&& self.popup_open == o.popup_open
        &&& self.popup_pending == o.popup_pending
        &&& self.endpoint_connected == o.endpoint_connected
        &&& self.visible_endpoint_notice == o.visible_endpoint_notice
        &&& self.agent_panel == o.agent_panel
    }

    pub open spec fn same_pipeline(self, o: Self) -> bool {
        &&& self.copy_session_generation == o.copy_session_generation
        &&& self.copy_operation_in_flight == o.copy_operation_in_flight
        &&& self.copy_operation_queue@ == o.copy_operation_queue@
        &&& self.copy_input_queue@ == o.copy_input_queue@
    }

    pub open spec fn same_requests(self, o: Self) -> bool {
        &&& self.pending_requests@ == o.pending_requests@
        &&& self.next_request_id == o.next_request_id
    }

    /// `self` is `o` after sending `reqs` in order: each method was emitted as
    /// an action and its kind recorded as pending under consecutive ids. A
    /// disconnected endpoint sends nothing.
    pub open spec fn requested_all(
        self,
        o: Self,
        out: Seq<ClientShellAction>,
        out0: Seq<ClientShellAction>,
        reqs: Seq<(MethodView, PendingKindView)>,
    ) -> bool {
        if o.endpoint_connected {
            &&& pending_view(self.pending_requests@) == pending_view(o.pending_requests@) + sent_pending(
                o.next_request_id,
                reqs,
            )
            &&& self.next_request_id == advance_id(o.next_request_id, reqs.len())
            &&& actions_view(out) == actions_view(out0) + sent_actions(o.next_request_id, reqs)
        } else {
            &&& self.same_requests(o)
            &&& out == out0
        }
    }

    /// Requests sent in two steps are the requests of both steps in order.
    pub proof fn lemma_requested_trans(
        s0: Self,
        s1: Self,
        s2: Self,
        o0: Seq<ClientShellAction>,
        o1: Seq<ClientShellAction>,
        o2: Seq<ClientShellAction>,
        r1: Seq<(MethodView, PendingKindView)>,
        r2: Seq<(MethodView, PendingKindView)>,
    )
        requires
            s1.requested_all(s0, o1, o0, r1),
            s2.requested_all(s1, o2, o1, r2),
            s1.endpoint_connected == s0.endpoint_connected,
        ensures
            s2.requested_all(s0, o2, o0, r1 + r2),
    {
        if s0.endpoint_connected {
            let id = s0.next_request_id;
            lemma_advance_id_add(id, r1.len(), r2.len());
            assert forall|k: int| 0 <= k < r2.len() implies #[trigger] advance_id(advance_id(id, r1.len()), k as nat)
                == advance_id(id, (r1.len() + k) as nat) by {
                lemma_advance_id_add(id, r1.len(), k as nat);
            }
            assert(sent_pending(id, r1 + r2) =~= sent_pending(id, r1) + sent_pending(
                advance_id(id, r1.len()),
                r2,
            ));
            assert(sent_actions(id, r1 + r2) =~= sent_actions(id, r1) + sent_actions(
                advance_id(id, r1.len()),
                r2,
            ));
            assert(pending_view(s2.pending_requests@) =~= pending_view(s0.pending_requests@)
                + sent_pending(id, r1 + r2));
            assert(actions_view(o2) =~= actions_view(o0) + sent_actions(id, r1 + r2));
        }
    }

    /// Sending nothing leaves the requests as they were.
    pub proof fn lemma_requested_none(s0: Self, s1: Self, o0: Seq<ClientShellAction>, o1: Seq<ClientShellAction>)
        requires
            s1.same_requests(s0),
            o1 == o0,
        ensures
            s1.requested_all(s0, o1, o0, Seq::empty()),
    {
        assert(pending_view(s1.pending_requests@) =~= pending_view(s0.pending_requests@) + sent_pending(
            s0.next_request_id,
            Seq::empty(),
        ));
        assert(actions_view(o1) =~= actions_view(o0) + sent_actions(s0.next_request_id, Seq::empty()));
    }

    /// A step of the shell: the environment is untouched (the highlight
    /// deadline and drag autoscroll stay or are dropped), well-formedness is
    /// kept, queued input stays or is dropped, and the session never goes
    /// back.
    pub open spec fn stepped(self, o: Self) -> bool {
        &&& self.same_surroundings(o)
        &&& self.highlight_kept_or_cleared(o)
        &&& (o.wf() ==> self.wf())
        &&& (self.copy_input_queue@ == o.copy_input_queue@ || self.copy_input_queue@.len() == 0)
        &&& self.copy_session_generation >= o.copy_session_generation
    }

    /// Copy mode and the laid-out panes keep their scroll offsets
    /// representable.
    pub open spec fn wf(self) -> bool {
        &&& self.copy_mode is Some ==> scrollback_fits(self.cm().max_offset_from_bottom)
        &&& hits_fit(self.hits.panes@)
    }

    /// Sends `method` and records `kind` as pending. Fails, sending nothing,
    /// when the endpoint is disconnected.
    pub fn push_endpoint_method_with_kind(
        &mut self,
        method: Method,
        kind: PendingEndpointKind,
        outcome: &mut ClientShellInput,
    ) -> (sent: bool)
        ensures
            sent == old(self).endpoint_connected,
            final(self).requested_all(
                *old(self),
                final(outcome).actions@,
                old(outcome).actions@,
                seq![(method_view(method), kind@)],
            ),
            final(outcome).repaint == old(outcome).repaint,
            final(self).same_env(*old(self)),
            final(self).same_pipeline(*old(self)),
            final(self).mode == old(self).mode,
            final(self).copy_mode == old(self).copy_mode,
            final(self).selection == old(self).selection,
    {
        if !self.endpoint_connected {
            return false;
        }
        let id = self.next_request_id;
        self.next_request_id = if id < u64::MAX {
            id + 1
        } else {
            0
        };
        let ghost p0 = self.pending_requests@;
        let ghost a0 = outcome.actions@;
        let ghost kv = kind@;
        let ghost mv = method_view(method);
        self.pending_requests.push(PendingEndpoint { id, kind });
        outcome.actions.push(ClientShellAction::Endpoint { request: EndpointRequest { id, method } });
        assert(advance_id(id, 0) == id);
        assert(advance_id(id, 1) == next_request_id(id));
        assert(pending_view(self.pending_requests@) =~= pending_view(p0) + sent_pending(
            id,
            seq![(mv, kv)],
        ));
        assert(actions_view(outcome.actions@) =~= actions_view(a0) + sent_actions(id, seq![(mv, kv)]));
        true
    }

    /// Asks the endpoint to scroll `pane_id` to `offset_from_bottom`.
    pub fn push_pane_scroll_offset(
        &mut self,
        pane_id: String,
        offset_from_bottom: usize,
        outcome: &mut ClientShellInput,
    )
        ensures
            final(self).requested_all(
                *old(self),
                final(outcome).actions@,
                old(outcome).actions@,
                seq![
                    (
                        MethodView::Scroll { pane_id: pane_id@, offset_from_bottom },
                        PendingKindView::PaneScroll { pane_id: pane_id@, offset_from_bottom },
                    ),
                ],
            ),
            final(outcome).repaint == old(outcome).repaint,
            final(self).same_env(*old(self)),
            final(self).same_pipeline(*old(self)),
            final(self).mode == old(self).mode,
            final(self).copy_mode == old(self).copy_mode,
            final(self).selection == old(self).selection,
    {
        let kind_pane = pane_id.clone();
        let _ = self.push_endpoint_method_with_kind(
            Method::PaneScroll(PaneScrollParams { pane_id, offset_from_bottom }),
            PendingEndpointKind::PaneScroll { pane_id: kind_pane, offset_from_bottom },
            outcome,
        );
    }
}

} // verus!
