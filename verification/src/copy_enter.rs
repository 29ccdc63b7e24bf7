//! Entering copy mode on the focused pane, and keeping the cursor anchored
//! when the pane's geometry or screen changes.
use crate::copy_mode::{exited, untouched};
use crate::copy_state::{
    scrollback_fits, ClientCopyModeState, ClientShellMode, ClientShellState,
};
use crate::copy_view::is_first_hit;
use crate::types::{
    ClientShellInput, CursorState, PaneHit, PaneSurface, PaneSurfacePane, PaneTextPoint, SurfaceRect,
};
use vstd::prelude::*;

verus! {

pub open spec fn is_first_pane(panes: Seq<PaneSurfacePane>, id: Seq<char>, i: int) -> bool {
    &&& 0 <= i < panes.len()
    &&& panes[i].pane_id@ == id
    &&& forall|j: int| 0 <= j < i ==> panes[j].pane_id@ != id
}

/// Position of the first surface pane with id `id`.
pub open spec fn pane_index(panes: Seq<PaneSurfacePane>, id: Seq<char>) -> Option<int> {
    if exists|i: int| is_first_pane(panes, id, i) {
        Some(choose|i: int| is_first_pane(panes, id, i))
    } else {
        None
    }
}

pub proof fn lemma_first_pane_unique(panes: Seq<PaneSurfacePane>, id: Seq<char>, i: int, k: int)
    requires
        is_first_pane(panes, id, i),
        is_first_pane(panes, id, k),
    ensures
        i == k,
{
    if i < k {
        assert(panes[i].pane_id@ != id);
    } else if k < i {
        assert(panes[k].pane_id@ != id);
    }
}

/// The surface pane with id `id`, if the surface has one.
pub open spec fn surface_pane(surface: Option<PaneSurface>, id: Seq<char>) -> Option<PaneSurfacePane> {
    match surface {
        Some(sf) => match pane_index(sf.panes@, id) {
            Some(i) => Some(sf.panes@[i]),
            None => None,
        },
        None => None,
    }
}

/// Whether the frame cursor is visible inside `inner`.
pub open spec fn cursor_inside(c: CursorState, inner: SurfaceRect) -> bool {
    &&& c.visible
    &&& c.x >= inner.x
    &&& c.x < inner.x.saturating_add(inner.width)
    &&& c.y >= inner.y
    &&& c.y < inner.y.saturating_add(inner.height)
}

/// The cursor copy mode starts at: the visible terminal cursor of the pane,
/// else the bottom-left cell of the viewport.
pub open spec fn entry_cursor(surface: Option<PaneSurface>, pane_id: Seq<char>, hit_rect: SurfaceRect, top: u32) -> PaneTextPoint {
    let fallback = PaneTextPoint { row: top.saturating_add(hit_rect.height.saturating_sub(1) as u32), col: 0 };
    match surface_pane(surface, pane_id) {
        Some(pane) => match surface->0.cursor {
            Some(c) => if cursor_inside(c, pane.inner_rect) {
                PaneTextPoint {
                    row: top.saturating_add((c.y - pane.inner_rect.y) as u32),
                    col: (c.x - pane.inner_rect.x) as u16,
                }
            } else {
                fallback
            },
            None => fallback,
        },
        None => fallback,
    }
}

/// Viewport top for scroll metrics, clamped into `u32`.
pub open spec fn metrics_top(max_offset_from_bottom: usize, offset_from_bottom: usize) -> u32 {
    let t = max_offset_from_bottom.saturating_sub(offset_from_bottom);
    if t > u32::MAX as usize {
        u32::MAX
    } else {
        t as u32
    }
}

/// Copy mode `cm` as freshly entered on `pane_id`.
pub open spec fn entered_state(cm: ClientCopyModeState, s: ClientShellState, pane_id: String, hit: PaneHit) -> bool {
    let m = hit.scroll->0;
    let top = metrics_top(m.max_offset_from_bottom, m.offset_from_bottom);
    let sp = surface_pane(s.pane_surface, pane_id@);
    &&& cm.pane_id == pane_id
    &&& cm.content_revision == (match sp {
        Some(p) => p.content_revision,
        None => 0,
    })
    &&& cm.alternate_screen_active == (match sp {
        Some(p) => p.alternate_screen_active,
        None => false,
    })
    &&& cm.geometry == (hit.inner_rect.width, hit.inner_rect.height)
    &&& cm.cursor == entry_cursor(s.pane_surface, pane_id@, hit.inner_rect, top)
    &&& cm.offset_from_bottom == m.offset_from_bottom
    &&& cm.max_offset_from_bottom == m.max_offset_from_bottom
    &&& cm.entry_offset_from_bottom == m.offset_from_bottom
    &&& cm.selection is None
    &&& cm.search_prompt is None
    &&& cm.search_query@.len() == 0
    &&& cm.search_direction is None
    &&& cm.search_matches@.len() == 0
    &&& cm.search_total == 0
    &&& cm.search_current is None
    &&& cm.search_current_global is None
    &&& cm.search_generation == 0
    &&& cm.search_cache_generation is None
    &&& !cm.copy_after_search
    &&& cm.pending_count is None
    &&& cm.pending_find is None
    &&& cm.pending_text_object is None
    &&& cm.last_find is None
}

/// The hit of pane `id` in `panes`.
pub fn find_pane_hit(panes: &Vec<PaneHit>, id: &String) -> (r: Option<PaneHit>)
    ensures
        match crate::copy_view::hit_index(panes@, *id) {
            Some(i) => r == Some(
                PaneHit { pane_id: panes@[i].pane_id, inner_rect: panes@[i].inner_rect, scroll: panes@[i].scroll },
            ),
            None => r is None,
        },
{
    let n = panes.len();
    let mut i: usize = 0;
    while i < n
        invariant
            n == panes@.len(),
            i <= n,
            forall|j: int| 0 <= j < i ==> panes@[j].pane_id@ != id@,
        decreases n - i,
    {
        let hit = &panes[i];
        if hit.pane_id == *id {
            proof {
                assert(is_first_hit(panes@, *id, i as int));
                let k = choose|k: int| is_first_hit(panes@, *id, k);
                crate::copy_view::lemma_first_hit_unique(panes@, *id, i as int, k);
            }
            return Some(PaneHit { pane_id: hit.pane_id.clone(), inner_rect: hit.inner_rect, scroll: hit.scroll });
        }
        i = i + 1;
    }
    None
}

/// Index of the surface pane with id `id`.
pub fn find_surface_pane(panes: &Vec<PaneSurfacePane>, id: &String) -> (r: Option<usize>)
    ensures
        r matches Some(i) ==> pane_index(panes@, id@) == Some(i as int),
        r is None ==> pane_index(panes@, id@) is None,
{
    let n = panes.len();
    let mut i: usize = 0;
    while i < n
        invariant
            n == panes@.len(),
            i <= n,
            forall|j: int| 0 <= j < i ==> panes@[j].pane_id@ != id@,
        decreases n - i,
    {
        if panes[i].pane_id == *id {
            proof {
                assert(is_first_pane(panes@, id@, i as int));
                let k = choose|k: int| is_first_pane(panes@, id@, k);
                lemma_first_pane_unique(panes@, id@, i as int, k);
            }
            return Some(i);
        }
        i = i + 1;
    }
    None
}

/// Where the copy cursor of `cm` lands after its pane, now at `inner`,
/// changed geometry or screen: the column is clamped to the new width;
/// after a screen switch the row follows the visible terminal cursor (else
/// the viewport's last row); otherwise the row is clamped to the last row.
pub open spec fn reanchored_cursor(
    cm: ClientCopyModeState,
    inner: SurfaceRect,
    screen_switched: bool,
    frame_cursor: Option<CursorState>,
) -> PaneTextPoint {
    let col0 = if cm.cursor.col <= inner.width.saturating_sub(1) {
        cm.cursor.col
    } else {
        inner.width.saturating_sub(1)
    };
    let top = cm.max_offset_from_bottom.saturating_sub(cm.offset_from_bottom) as u32;
    if screen_switched {
        match frame_cursor {
            Some(c) => if cursor_inside(c, inner) {
                PaneTextPoint {
                    row: top.saturating_add((c.y - inner.y) as u32),
                    col: (c.x - inner.x) as u16,
                }
            } else {
                PaneTextPoint { row: top.saturating_add(inner.height.saturating_sub(1) as u32), col: col0 }
            },
            None => PaneTextPoint {
                row: top.saturating_add(inner.height.saturating_sub(1) as u32),
                col: col0,
            },
        }
    } else {
        let total = cm.max_offset_from_bottom.saturating_add(inner.height as usize);
        let total1: usize = if total == 0 {
            1
        } else {
            total
        };
        let limit: u32 = if total1 - 1 > u32::MAX as usize {
            u32::MAX
        } else {
            (total1 - 1) as u32
        };
        PaneTextPoint {
            row: if cm.cursor.row <= limit {
                cm.cursor.row
            } else {
                limit
            },
            col: col0,
        }
    }
}

impl ClientShellState {
    /// The pane keyboard focus is on.
    pub fn focused_pane_id(&self) -> (r: Option<String>)
        ensures
            r == self.focused_pane,
    {
        match &self.focused_pane {
            Some(p) => Some(p.clone()),
            None => None,
        }
    }

    /// The cursor copy mode starts at on a pane laid out at `hit_rect`.
    fn entry_cursor_for(&self, pane_id: &String, hit_rect: SurfaceRect, top: u32) -> (r: PaneTextPoint)
        ensures
            r == entry_cursor(self.pane_surface, pane_id@, hit_rect, top),
    {
        let fallback = PaneTextPoint {
            row: top.saturating_add(hit_rect.height.saturating_sub(1) as u32),
            col: 0,
        };
        let surface = match &self.pane_surface {
            Some(surface) => surface,
            None => {
                return fallback;
            },
        };
        let index = match find_surface_pane(&surface.panes, pane_id) {
            Some(index) => index,
            None => {
                return fallback;
            },
        };
        let inner = surface.panes[index].inner_rect;
        match surface.cursor {
            Some(c) => {
                if c.visible && c.x >= inner.x && c.x < inner.x.saturating_add(inner.width) && c.y >= inner.y && c.y
                    < inner.y.saturating_add(inner.height) {
                    PaneTextPoint { row: top.saturating_add((c.y - inner.y) as u32), col: c.x - inner.x }
                } else {
                    fallback
                }
            },
            None => fallback,
        }
    }

    /// Content revision and screen of pane `pane_id` on the surface.
    fn surface_pane_state(&self, pane_id: &String) -> (r: (u64, bool))
        ensures
            r == (match surface_pane(self.pane_surface, pane_id@) {
                Some(p) => (p.content_revision, p.alternate_screen_active),
                None => (0u64, false),
            }),
    {
        match &self.pane_surface {
            Some(surface) => match find_surface_pane(&surface.panes, pane_id) {
                Some(index) => (surface.panes[index].content_revision, surface.panes[index].alternate_screen_active),
                None => (0, false),
            },
            None => (0, false),
        }
    }

    /// Enters copy mode on the focused pane, starting at its visible cursor.
    /// Re-entering on the same pane only switches the mode; copy mode on
    /// another pane is left first. Fails without a focused pane or when the
    /// pane has no scroll metrics.
    pub fn enter_copy_mode(&mut self, outcome: &mut ClientShellInput) -> (r: bool)
        requires
            old(self).wf(),
        ensures
            final(self).wf(),
            final(self).same_surroundings(*old(self)),
            match old(self).focused_pane {
                None => !r && untouched(*final(self), *old(self), *final(outcome), *old(outcome)),
                Some(p) => if old(self).copy_mode matches Some(cm) && cm.pane_id@ == p@ {
                    &&& r
                    &&& final(self).mode == ClientShellMode::Copy
                    &&& final(self).copy_mode == old(self).copy_mode
                    &&& final(self).same_highlight(*old(self))
                    &&& final(self).same_pipeline(*old(self))
                    &&& final(self).same_requests(*old(self))
                    &&& final(self).selection == old(self).selection
                    &&& *final(outcome) == *old(outcome)
                } else {
                    exists|mid: ClientShellState, omid: ClientShellInput|
                        #[trigger] exited(mid, *old(self), omid, *old(outcome), false) && match crate::copy_view::hit_index(
                            old(self).hits.panes@,
                            p,
                        ) {
                            Some(i) if old(self).hits.panes@[i].scroll is Some => {
                                let hit = old(self).hits.panes@[i];
                                &&& r
                                &&& final(self).mode == ClientShellMode::Copy
                                &&& final(self).copy_mode is Some
                                &&& entered_state(final(self).cm(), *old(self), p, hit)
                                &&& final(self).selection is None
                                &&& final(self).highlight_dropped()
                                &&& final(self).copy_session_generation == mid.copy_session_generation.saturating_add(1)
                                &&& !final(self).copy_operation_in_flight
                                &&& final(self).copy_operation_queue@.len() == 0
                                &&& final(self).copy_input_queue@.len() == 0
                                &&& final(self).same_requests(mid)
                                &&& *final(outcome) == omid
                            },
                            _ => !r && untouched(*final(self), mid, *final(outcome), omid),
                        }
                },
            },
    {
        let pane_id = match self.focused_pane_id() {
            Some(pane_id) => pane_id,
            None => {
                return false;
            },
        };
        let same_pane = match &self.copy_mode {
            Some(copy_mode) => copy_mode.pane_id == pane_id,
            None => false,
        };
        if same_pane {
            self.mode = ClientShellMode::Copy;
            return true;
        }
        let ghost s0 = *self;
        let ghost o0 = *outcome;
        if self.copy_mode.is_some() {
            self.exit_copy_mode(false, outcome);
        }
        let ghost mid = *self;
        let ghost omid = *outcome;
        assert(exited(mid, s0, omid, o0, false));
        let hit = match find_pane_hit(&self.hits.panes, &pane_id) {
            Some(hit) => hit,
            None => {
                return false;
            },
        };
        let metrics = match hit.scroll {
            Some(metrics) => metrics,
            None => {
                return false;
            },
        };
        proof {
            let i = crate::copy_view::hit_index(self.hits.panes@, pane_id)->0;
            assert(self.hits.panes@[i].scroll is Some);
            assert(scrollback_fits(metrics.max_offset_from_bottom));
        }
        let t = metrics.max_offset_from_bottom.saturating_sub(metrics.offset_from_bottom);
        let viewport_top: u32 = if t > u32::MAX as usize {
            u32::MAX
        } else {
            t as u32
        };
        let cursor = self.entry_cursor_for(&pane_id, hit.inner_rect, viewport_top);
        self.selection = None;
        self.selection_autoscroll_active = false;
        self.selection_highlight_clear_deadline = None;
        self.reset_copy_pipeline();
        let (content_revision, alternate_screen_active) = self.surface_pane_state(&pane_id);
        self.copy_mode = Some(
            ClientCopyModeState {
                pane_id,
                content_revision,
                geometry: (hit.inner_rect.width, hit.inner_rect.height),
                alternate_screen_active,
                cursor,
                offset_from_bottom: metrics.offset_from_bottom,
                max_offset_from_bottom: metrics.max_offset_from_bottom,
                entry_offset_from_bottom: metrics.offset_from_bottom,
                selection: None,
                search_prompt: None,
                search_query: Vec::new(),
                search_direction: None,
                search_matches: Vec::new(),
                search_total: 0,
                search_current: None,
                search_current_global: None,
                search_generation: 0,
                search_cache_generation: None,
                copy_after_search: false,
                pending_count: None,
                pending_find: None,
                pending_text_object: None,
                last_find: None,
            },
        );
        self.mode = ClientShellMode::Copy;
        true
    }

    /// Re-anchors the copy cursor after pane `pane_id` changed geometry or
    /// screen: the column is clamped to the new width; after a screen switch
    /// the row follows the visible terminal cursor (else the viewport's last
    /// row); otherwise the row is clamped to the last row.
    pub fn reclamp_copy_cursor_after_surface_change(
        &mut self,
        pane_id: &String,
        inner: SurfaceRect,
        screen_switched: bool,
        frame_cursor: Option<CursorState>,
    )
        ensures
            final(self).only_copy_mode_changed(*old(self)),
            final(self).stepped(*old(self)),
            match old(self).copy_mode {
                Some(cm) => if cm.pane_id@ == pane_id@ {
                    final(self).copy_mode == Some(
                        ClientCopyModeState { cursor: reanchored_cursor(cm, inner, screen_switched, frame_cursor), ..cm },
                    )
                } else {
                    final(self).copy_mode == old(self).copy_mode
                },
                None => final(self).copy_mode is None,
            },
    {
        let copy_mode = match &mut self.copy_mode {
            Some(copy_mode) => copy_mode,
            None => {
                return;
            },
        };
        if copy_mode.pane_id != *pane_id {
            return;
        }
        let last_col = inner.width.saturating_sub(1);
        if copy_mode.cursor.col > last_col {
            copy_mode.cursor.col = last_col;
        }
        let viewport_top = copy_mode.max_offset_from_bottom.saturating_sub(copy_mode.offset_from_bottom) as u32;
        if screen_switched {
            let anchored = match frame_cursor {
                Some(c) => if c.visible && c.x >= inner.x && c.x < inner.x.saturating_add(inner.width) && c.y
                    >= inner.y && c.y < inner.y.saturating_add(inner.height) {
                    Some(c)
                } else {
                    None
                },
                None => None,
            };
            match anchored {
                Some(c) => {
                    copy_mode.cursor.row = viewport_top.saturating_add((c.y - inner.y) as u32);
                    copy_mode.cursor.col = c.x - inner.x;
                },
                None => {
                    copy_mode.cursor.row = viewport_top.saturating_add(inner.height.saturating_sub(1) as u32);
                },
            }
        } else {
            let total = copy_mode.max_offset_from_bottom.saturating_add(inner.height as usize);
            let total1: usize = if total == 0 {
                1
            } else {
                total
            };
            let limit: u32 = if total1 - 1 > u32::MAX as usize {
                u32::MAX
            } else {
                (total1 - 1) as u32
            };
            if copy_mode.cursor.row > limit {
                copy_mode.cursor.row = limit;
            }
        }
    }
}


/// Copy mode starts inside the visible viewport of a pane laid out where
/// the surface puts it: at the terminal cursor when it shows in the pane,
/// else at the bottom-left cell of the viewport whose top row is `top`.
pub proof fn lemma_entry_cursor_in_viewport(
    surface: Option<PaneSurface>,
    pane_id: Seq<char>,
    hit_rect: SurfaceRect,
    top: u32,
)
    requires
        hit_rect.height > 0,
        top + hit_rect.height <= u32::MAX + 1,
        surface_pane(surface, pane_id) matches Some(p) ==> p.inner_rect == hit_rect,
    ensures
        top <= entry_cursor(surface, pane_id, hit_rect, top).row <= top + hit_rect.height - 1,
        (surface_pane(surface, pane_id) is Some && surface->0.cursor is Some && cursor_inside(
            surface->0.cursor->0,
            hit_rect,
        )) ==> entry_cursor(surface, pane_id, hit_rect, top) == (PaneTextPoint {
            row: (top + (surface->0.cursor->0.y - hit_rect.y)) as u32,
            col: (surface->0.cursor->0.x - hit_rect.x) as u16,
        }),
        !(surface_pane(surface, pane_id) is Some && surface->0.cursor is Some && cursor_inside(
            surface->0.cursor->0,
            hit_rect,
        )) ==> entry_cursor(surface, pane_id, hit_rect, top) == (PaneTextPoint {
            row: (top + hit_rect.height - 1) as u32,
            col: 0,
        }),
{
}

} // verus!
