//! Copy mode: cursor motions, visual selections, the request pipeline and
//! leaving with a copy.
use crate::copy_state::{
    ClientCopyModeState, ClientCopySelection, ClientShellMode, ClientShellState, MethodView,
    PendingEndpointKind, PendingKindView,
};
use crate::copy_view::{
    last_row, line_end_col, projected_selection, reveal_offset, scroll_req, scroll_reqs, synced,
    synced_selection, viewport_top,
};
use crate::selection::{Selection, SelectionShape};
use crate::types::{ClientShellInput, Method, PaneSelectionReadParams, PaneTextPoint, PaneTextRange};
use vstd::prelude::*;

verus! {

pub open spec fn count_or_one(count: Option<u32>) -> u32 {
    match count {
        Some(c) => c,
        None => 1,
    }
}

/// Count-multiplied cell delta for plain motions, saturated into `i16`.
pub fn copy_motion_times(count: Option<u32>) -> (r: i16)
    ensures
        r as int == (if count_or_one(count) <= 32767 {
            count_or_one(count) as int
        } else {
            32767
        }),
{
    let c: u32 = match count {
        Some(c) => c,
        None => 1,
    };
    if c <= 32767 {
        c as i16
    } else {
        32767
    }
}

/// Line delta of counted line-relative keys (`3$` acts two lines down).
pub fn copy_line_count_delta(count: Option<u32>) -> (r: i16)
    ensures
        r as int == (if count_or_one(count).saturating_sub(1) <= 32767 {
            count_or_one(count).saturating_sub(1) as int
        } else {
            32767
        }),
{
    let c: u32 = match count {
        Some(c) => c,
        None => 1,
    }.saturating_sub(1);
    if c <= 32767 {
        c as i16
    } else {
        32767
    }
}

pub open spec fn point_of(cell: (u32, u16)) -> PaneTextPoint {
    PaneTextPoint { row: cell.0, col: cell.1 }
}

/// The read request that copies `sel`; a live selection reads the current
/// text, a fallback pins the content revision it was computed against.
pub open spec fn selection_read_req(sel: Selection, live: bool, content_revision: u64) -> (
    MethodView,
    PendingKindView,
) {
    (
        MethodView::SelectionRead {
            block: sel.shape == SelectionShape::Block,
            pane_id: sel.pane_id@,
            anchor: point_of(sel.anchor),
            cursor: point_of(sel.head),
            content_revision: if live {
                None
            } else {
                Some(content_revision)
            },
        },
        PendingKindView::SelectionRead,
    )
}

pub open spec fn visible(sel: Option<Selection>) -> bool {
    sel matches Some(s) && s.shape != SelectionShape::Anchor
}

/// The current search match as a character selection.
pub open spec fn search_match_selection(cm: ClientCopyModeState) -> Option<Selection> {
    match cm.search_current {
        Some(i) => if i < cm.search_matches@.len() {
            Some(
                Selection {
                    pane_id: cm.pane_id,
                    shape: SelectionShape::Character,
                    anchor: (cm.search_matches@[i as int].start.row, cm.search_matches@[i as int].start.col),
                    head: (cm.search_matches@[i as int].end.row, cm.search_matches@[i as int].end.col),
                },
            )
        } else {
            None
        },
        None => None,
    }
}

/// Copy mode with the cursor placed at `cursor` and the viewport following it.
pub open spec fn cm_at(cm: ClientCopyModeState, cursor: PaneTextPoint, offset: usize) -> ClientCopyModeState {
    ClientCopyModeState { cursor: cursor, offset_from_bottom: offset, ..cm }
}

/// `s1` is `s0` after leaving copy mode (see `exit_copy_mode`).
pub open spec fn exited(
    s1: ClientShellState,
    s0: ClientShellState,
    out1: ClientShellInput,
    out0: ClientShellInput,
    copy: bool,
) -> bool {
    &&& s1.same_surroundings(s0)
    &&& match s0.copy_mode {
        None => {
            &&& s1.same_highlight(s0)
            &&& s1.same_pipeline(s0)
            &&& s1.same_requests(s0)
            &&& s1.mode == s0.mode
            &&& s1.copy_mode is None
            &&& s1.selection == s0.selection
            &&& out1.actions@ == out0.actions@
            &&& out1.repaint == out0.repaint
        },
        Some(cm) => {
            let live = visible(s0.selection);
            let sel = if copy && !live && search_match_selection(cm) is Some {
                search_match_selection(cm)
            } else {
                s0.selection
            };
            let copy_reqs = if copy && visible(sel) {
                seq![selection_read_req(sel->0, live, cm.content_revision)]
            } else {
                Seq::empty()
            };
            &&& s1.copy_mode is None
            &&& s1.mode == ClientShellMode::Terminal
            &&& s1.selection is None
            &&& s1.selection_highlight_clear_deadline is None
            &&& s1.selection_autoscroll_active == s0.selection_autoscroll_active
            &&& s1.copy_session_generation == s0.copy_session_generation.saturating_add(1)
            &&& !s1.copy_operation_in_flight
            &&& s1.copy_operation_queue@.len() == 0
            &&& s1.copy_input_queue@.len() == 0
            &&& out1.repaint
            &&& s1.requested_all(
                s0,
                out1.actions@,
                out0.actions@,
                copy_reqs + seq![scroll_req(cm.pane_id@, cm.entry_offset_from_bottom)],
            )
        },
    }
}

/// `s1` is `s0` after copy mode was set to `cm1` and the viewport and the
/// selection followed the cursor.
pub open spec fn followed(
    s1: ClientShellState,
    s0: ClientShellState,
    out1: ClientShellInput,
    out0: ClientShellInput,
    cm1: ClientCopyModeState,
    reserve_mode_bar_row: bool,
) -> bool {
    let hit = s0.hit_rect();
    let off = reveal_offset(cm1, hit, reserve_mode_bar_row);
    let cm2 = ClientCopyModeState { offset_from_bottom: off, ..cm1 };
    &&& s1.copy_mode == Some(cm2)
    &&& s1.selection == synced(cm2, s0.selection, hit)
    &&& s1.requested_all(s0, out1.actions@, out0.actions@, scroll_reqs(cm1.pane_id@, cm1.offset_from_bottom, off))
    &&& s1.same_env(s0)
    &&& s1.same_pipeline(s0)
    &&& s1.mode == s0.mode
    &&& out1.repaint
}

/// `s1` is `s0` after copy mode was set to `cm1`, a scroll to `cm1`'s offset
/// was sent and the selection followed.
pub open spec fn scrolled_with(
    s1: ClientShellState,
    s0: ClientShellState,
    out1: ClientShellInput,
    out0: ClientShellInput,
    cm1: ClientCopyModeState,
) -> bool {
    &&& s1.copy_mode == Some(cm1)
    &&& s1.selection == synced(cm1, s0.selection, s0.hit_rect())
    &&& s1.requested_all(s0, out1.actions@, out0.actions@, seq![scroll_req(cm1.pane_id@, cm1.offset_from_bottom)])
    &&& s1.same_env(s0)
    &&& s1.same_pipeline(s0)
    &&& s1.mode == s0.mode
    &&& out1.repaint
}

/// Nothing changed at all.
pub open spec fn untouched(s1: ClientShellState, s0: ClientShellState, out1: ClientShellInput, out0: ClientShellInput) -> bool {
    &&& s1.only_copy_mode_changed(s0)
    &&& s1.copy_mode == s0.copy_mode
    &&& out1 == out0
}

pub open spec fn abs_i16(d: i16) -> int {
    if d < 0 {
        -(d as int)
    } else {
        d as int
    }
}

/// Column after a horizontal move: clamped at 0 and at the last column.
pub open spec fn moved_col(col: u16, delta: i16, width: u16) -> u16 {
    if delta < 0 {
        col.saturating_sub(abs_i16(delta) as u16)
    } else if delta > 0 {
        let c = col.saturating_add(delta as u16);
        let last = width.saturating_sub(1);
        if c <= last {
            c
        } else {
            last
        }
    } else {
        col
    }
}

/// Row after a vertical move: clamped at 0 and at the last row.
pub open spec fn moved_row(row: u32, delta: i16, max_offset_from_bottom: usize, height: u16) -> u32 {
    if delta < 0 {
        row.saturating_sub(abs_i16(delta) as u32)
    } else if delta > 0 {
        let r = row.saturating_add(delta as u32);
        let limit = last_row(max_offset_from_bottom, height);
        if r <= limit {
            r
        } else {
            limit
        }
    } else {
        row
    }
}

pub open spec fn min_u32(a: u32, b: u32) -> u32 {
    if a <= b {
        a
    } else {
        b
    }
}

pub open spec fn sat_mul(a: usize, b: usize) -> usize {
    if a * b > usize::MAX {
        usize::MAX
    } else {
        (a * b) as usize
    }
}

/// Lines a page key moves: the viewport height, or half of it.
pub open spec fn page_lines(height: u16, half_page: bool) -> usize {
    let h: usize = if half_page {
        (height / 2) as usize
    } else {
        height as usize
    };
    if h == 0 {
        1
    } else {
        h
    }
}

/// Viewport-relative line targets of `H`, `M` and `L`.
#[derive(Clone, Copy, Debug, PartialEq, Eq, Structural)]
pub enum CopyViewportLine {
    Top,
    Middle,
    Bottom,
}

/// Visual selection kinds a key can start.
#[derive(Clone, Copy, Debug, PartialEq, Eq, Structural)]
pub enum CopySelectionKind {
    Character,
    Linewise,
    Block,
}

pub open spec fn selection_kind(sel: ClientCopySelection) -> CopySelectionKind {
    match sel {
        ClientCopySelection::Character { .. } => CopySelectionKind::Character,
        ClientCopySelection::Linewise { .. } => CopySelectionKind::Linewise,
        ClientCopySelection::Block { .. } => CopySelectionKind::Block,
    }
}

/// The anchor a selection keeps when its kind changes.
pub open spec fn selection_anchor(sel: ClientCopySelection) -> PaneTextPoint {
    match sel {
        ClientCopySelection::Character { anchor } => anchor,
        ClientCopySelection::Block { anchor } => anchor,
        ClientCopySelection::Linewise { anchor_row } => PaneTextPoint { row: anchor_row, col: 0 },
    }
}

pub open spec fn selection_of_kind(kind: CopySelectionKind, anchor: PaneTextPoint) -> ClientCopySelection {
    match kind {
        CopySelectionKind::Character => ClientCopySelection::Character { anchor },
        CopySelectionKind::Linewise => ClientCopySelection::Linewise { anchor_row: anchor.row },
        CopySelectionKind::Block => ClientCopySelection::Block { anchor },
    }
}

/// Size of a page motion.
pub fn copy_mode_page_lines(height: u16, half_page: bool) -> (r: usize)
    ensures
        r == page_lines(height, half_page),
{
    let h: usize = if half_page {
        (height / 2) as usize
    } else {
        height as usize
    };
    if h == 0 {
        1
    } else {
        h
    }
}

fn saturating_mul_usize(a: usize, b: usize) -> (r: usize)
    ensures
        r == sat_mul(a, b),
{
    match a.checked_mul(b) {
        Some(p) => p,
        None => usize::MAX,
    }
}

/// `s1` is `s0` after a page key moved the cursor and the viewport together
/// (see `move_copy_page`).
pub open spec fn paged(
    s1: ClientShellState,
    s0: ClientShellState,
    out1: ClientShellInput,
    out0: ClientShellInput,
    direction: i8,
    half_page: bool,
    count: Option<u32>,
) -> bool {
    match s0.hit_rect() {
        None => untouched(s1, s0, out1, out0),
        Some(rect) => {
            let cm = s0.cm();
            let lines = sat_mul(page_lines(rect.height, half_page), count_or_one(count) as usize);
            let row: u32 = if direction < 0 {
                cm.cursor.row.saturating_sub(lines as u32)
            } else {
                min_u32(cm.cursor.row.saturating_add(lines as u32), last_row(cm.max_offset_from_bottom, rect.height))
            };
            let offset: usize = if direction < 0 {
                let o = cm.offset_from_bottom.saturating_add(lines);
                if o <= cm.max_offset_from_bottom {
                    o
                } else {
                    cm.max_offset_from_bottom
                }
            } else {
                cm.offset_from_bottom.saturating_sub(lines)
            };
            scrolled_with(
                s1,
                s0,
                out1,
                out0,
                ClientCopyModeState { cursor: PaneTextPoint { row: row, ..cm.cursor }, offset_from_bottom: offset, ..cm },
            )
        },
    }
}

/// `s1` is `s0` after `g` (`top`), `G` or a counted `G` moved the cursor
/// through the history (see `move_copy_history`).
pub open spec fn history_moved(
    s1: ClientShellState,
    s0: ClientShellState,
    out1: ClientShellInput,
    out0: ClientShellInput,
    top: bool,
    count: Option<u32>,
) -> bool {
    match s0.hit_rect() {
        None => untouched(s1, s0, out1, out0),
        Some(rect) => {
            let cm = s0.cm();
            let last = last_row(cm.max_offset_from_bottom, rect.height);
            if top {
                scrolled_with(
                    s1,
                    s0,
                    out1,
                    out0,
                    ClientCopyModeState {
                        cursor: PaneTextPoint { row: 0, ..cm.cursor },
                        offset_from_bottom: cm.max_offset_from_bottom,
                        ..cm
                    },
                )
            } else {
                match count {
                    Some(c) => followed(
                        s1,
                        s0,
                        out1,
                        out0,
                        ClientCopyModeState {
                            cursor: PaneTextPoint { row: min_u32(c.saturating_sub(1), last), ..cm.cursor },
                            ..cm
                        },
                        false,
                    ),
                    None => scrolled_with(
                        s1,
                        s0,
                        out1,
                        out0,
                        ClientCopyModeState {
                            cursor: PaneTextPoint { row: last, ..cm.cursor },
                            offset_from_bottom: 0,
                            ..cm
                        },
                    ),
                }
            }
        },
    }
}

/// `s1` is `s0` after `H`, `M` or `L` put the cursor on a line of the
/// viewport (see `move_copy_viewport_line`).
pub open spec fn viewport_line_moved(
    s1: ClientShellState,
    s0: ClientShellState,
    out1: ClientShellInput,
    out0: ClientShellInput,
    line: CopyViewportLine,
    count: Option<u32>,
) -> bool {
    match s0.hit_rect() {
        None => s1.only_copy_mode_changed(s0) && s1.copy_mode == s0.copy_mode && out1 == out0,
        Some(rect) => {
            let cm = s0.cm();
            let height = rect.height as u32;
            let top = viewport_top(cm);
            let count_offset = min_u32(count_or_one(count).saturating_sub(1), height.saturating_sub(1));
            let row: u32 = match line {
                CopyViewportLine::Top => top.saturating_add(count_offset),
                CopyViewportLine::Middle => (top + height / 2) as u32,
                CopyViewportLine::Bottom => top.saturating_add(height.saturating_sub(1)).saturating_sub(count_offset),
            };
            let cm1 = ClientCopyModeState {
                cursor: PaneTextPoint { row: min_u32(row, last_row(cm.max_offset_from_bottom, rect.height)), ..cm.cursor },
                ..cm
            };
            followed(s1, s0, out1, out0, cm1, false)
        },
    }
}

/// `s1` is `s0` after a visual selection of `kind` began at the cursor, or
/// an active selection switched to `kind` keeping its anchor (see
/// `begin_copy_selection`).
pub open spec fn selection_begun(s1: ClientShellState, s0: ClientShellState, kind: CopySelectionKind) -> bool {
    &&& s1.same_env(s0)
    &&& s1.same_pipeline(s0)
    &&& s1.same_requests(s0)
    &&& s1.mode == s0.mode
    &&& match s0.copy_mode {
        None => s1.copy_mode is None && s1.selection == s0.selection,
        Some(cm) => {
            let end_col = line_end_col(s0.hit_rect());
            let p = cm.cursor;
            match cm.selection {
                Some(active) if selection_kind(active) != kind => {
                    let cm2 = ClientCopyModeState {
                        selection: Some(selection_of_kind(kind, selection_anchor(active))),
                        ..cm
                    };
                    &&& s1.copy_mode == Some(cm2)
                    &&& s1.selection == projected_selection(cm2, end_col)
                },
                _ => {
                    &&& s1.copy_mode == Some(
                        ClientCopyModeState { selection: Some(selection_of_kind(kind, p)), ..cm },
                    )
                    &&& s1.selection == Some(
                        Selection {
                            pane_id: cm.pane_id,
                            shape: match kind {
                                CopySelectionKind::Character => SelectionShape::Anchor,
                                CopySelectionKind::Linewise => SelectionShape::Line,
                                CopySelectionKind::Block => SelectionShape::Block,
                            },
                            anchor: (p.row, if kind == CopySelectionKind::Linewise { 0u16 } else { p.col }),
                            head: (p.row, if kind == CopySelectionKind::Linewise { end_col } else { p.col }),
                        },
                    )
                },
            }
        },
    }
}

impl ClientShellState {
    /// No field but `copy_mode` changed.
    pub open spec fn only_copy_mode_changed(self, o: Self) -> bool {
        &&& self.same_env(o)
        &&& self.same_pipeline(o)
        &&& self.same_requests(o)
        &&& self.mode == o.mode
        &&& self.selection == o.selection
    }

    /// Drops queued work and invalidates everything in flight: late
    /// completions of the previous session are ignored.
    pub fn reset_copy_pipeline(&mut self)
        ensures
            final(self).stepped(*old(self)),
            final(self).copy_session_generation == old(self).copy_session_generation.saturating_add(1),
            !final(self).copy_operation_in_flight,
            final(self).copy_operation_queue@.len() == 0,
            final(self).copy_input_queue@.len() == 0,
            final(self).same_env(*old(self)),
            final(self).same_requests(*old(self)),
            final(self).mode == old(self).mode,
            final(self).copy_mode == old(self).copy_mode,
            final(self).selection == old(self).selection,
    {
        self.copy_session_generation = self.copy_session_generation.saturating_add(1);
        self.copy_operation_in_flight = false;
        self.copy_operation_queue.clear();
        self.copy_input_queue.clear();
    }

    pub fn set_copy_cursor_col(&mut self, col: u16)
        ensures
            final(self).stepped(*old(self)),
            final(self).only_copy_mode_changed(*old(self)),
            final(self).copy_mode == (match old(self).copy_mode {
                Some(cm) => Some(ClientCopyModeState { cursor: PaneTextPoint { col: col, ..cm.cursor }, ..cm }),
                None => None,
            }),
    {
        match &mut self.copy_mode {
            Some(cm) => {
                cm.cursor.col = col;
            },
            None => {},
        }
    }

    /// Takes the pending count prefix.
    pub fn take_copy_count(&mut self) -> (r: Option<u32>)
        ensures
            final(self).stepped(*old(self)),
            final(self).only_copy_mode_changed(*old(self)),
            r == (match old(self).copy_mode {
                Some(cm) => cm.pending_count,
                None => None,
            }),
            final(self).copy_mode == (match old(self).copy_mode {
                Some(cm) => Some(ClientCopyModeState { pending_count: None, ..cm }),
                None => None,
            }),
    {
        match &mut self.copy_mode {
            Some(cm) => cm.pending_count.take(),
            None => None,
        }
    }

    /// Cancels a pending `f`/`F`/`t`/`T` target or text-object prefix.
    pub fn clear_copy_pending_prefixes(&mut self)
        ensures
            final(self).stepped(*old(self)),
            final(self).only_copy_mode_changed(*old(self)),
            final(self).copy_mode == (match old(self).copy_mode {
                Some(cm) => Some(ClientCopyModeState { pending_find: None, pending_text_object: None, ..cm }),
                None => None,
            }),
    {
        match &mut self.copy_mode {
            Some(cm) => {
                cm.pending_find = None;
                cm.pending_text_object = None;
            },
            None => {},
        }
    }

    pub fn set_copy_pending_find(&mut self, forward: bool, till: bool)
        ensures
            final(self).stepped(*old(self)),
            final(self).only_copy_mode_changed(*old(self)),
            final(self).copy_mode == (match old(self).copy_mode {
                Some(cm) => Some(ClientCopyModeState { pending_find: Some((forward, till)), ..cm }),
                None => None,
            }),
    {
        match &mut self.copy_mode {
            Some(cm) => {
                cm.pending_find = Some((forward, till));
            },
            None => {},
        }
    }

    pub fn set_copy_pending_text_object(&mut self, around: bool)
        ensures
            final(self).stepped(*old(self)),
            final(self).only_copy_mode_changed(*old(self)),
            final(self).copy_mode == (match old(self).copy_mode {
                Some(cm) => Some(ClientCopyModeState { pending_text_object: Some(around), ..cm }),
                None => None,
            }),
    {
        match &mut self.copy_mode {
            Some(cm) => {
                cm.pending_text_object = Some(around);
            },
            None => {},
        }
    }

    /// Scrolls the pane so the cursor row is visible (keeping the mode-bar row
    /// free when asked); only a changed offset is sent.
    pub fn reveal_copy_cursor(&mut self, outcome: &mut ClientShellInput, reserve_mode_bar_row: bool)
        ensures
            final(self).stepped(*old(self)),
            final(self).same_env(*old(self)),
            final(self).same_pipeline(*old(self)),
            final(self).mode == old(self).mode,
            final(self).selection == old(self).selection,
            final(outcome).repaint == old(outcome).repaint,
            match old(self).copy_mode {
                Some(cm) => {
                    let off = reveal_offset(cm, old(self).hit_rect(), reserve_mode_bar_row);
                    &&& final(self).copy_mode == Some(ClientCopyModeState { offset_from_bottom: off, ..cm })
                    &&& final(self).requested_all(
                        *old(self),
                        final(outcome).actions@,
                        old(outcome).actions@,
                        scroll_reqs(cm.pane_id@, cm.offset_from_bottom, off),
                    )
                },
                None => final(self).copy_mode is None && final(self).same_requests(*old(self))
                    && final(outcome).actions@ == old(outcome).actions@,
            },
    {
        let hit = match self.copy_hit() {
            Some(hit) => hit,
            None => {
                return;
            },
        };
        let request = match &mut self.copy_mode {
            Some(copy_mode) => {
                let current_top = copy_mode.max_offset_from_bottom.saturating_sub(
                    copy_mode.offset_from_bottom,
                ) as u32;
                let max_cursor_row: u16 = hit.inner_rect.height.saturating_sub(
                    if reserve_mode_bar_row {
                        2
                    } else {
                        1
                    },
                );
                let bottom = current_top.saturating_add(max_cursor_row as u32);
                let desired_top = if copy_mode.cursor.row < current_top {
                    copy_mode.cursor.row
                } else if copy_mode.cursor.row > bottom {
                    copy_mode.cursor.row.saturating_sub(max_cursor_row as u32)
                } else {
                    current_top
                };
                let offset = copy_mode.max_offset_from_bottom.saturating_sub(desired_top as usize);
                if offset == copy_mode.offset_from_bottom {
                    None
                } else {
                    copy_mode.offset_from_bottom = offset;
                    Some((copy_mode.pane_id.clone(), offset))
                }
            },
            None => None,
        };
        match request {
            Some((pane_id, offset)) => {
                self.push_pane_scroll_offset(pane_id, offset, outcome);
            },
            None => {},
        }
    }

    /// Re-projects copy mode's visual selection onto the shell selection.
    pub fn sync_copy_selection(&mut self)
        ensures
            final(self).stepped(*old(self)),
            final(self).same_env(*old(self)),
            final(self).same_pipeline(*old(self)),
            final(self).same_requests(*old(self)),
            final(self).mode == old(self).mode,
            final(self).copy_mode == old(self).copy_mode,
            final(self).selection == synced_selection(*old(self), old(self).hit_rect()),
    {
        let end_col = match self.copy_hit() {
            Some(hit) => hit.inner_rect.width.saturating_sub(1),
            None => 0,
        };
        let projected = match &self.copy_mode {
            None => {
                return;
            },
            Some(copy_mode) => match copy_mode.selection {
                None => {
                    return;
                },
                Some(ClientCopySelection::Character { anchor }) => Selection::absolute_range(
                    copy_mode.pane_id.clone(),
                    (anchor.row, anchor.col),
                    (copy_mode.cursor.row, copy_mode.cursor.col),
                ),
                Some(ClientCopySelection::Linewise { anchor_row }) => Selection::line_range(
                    copy_mode.pane_id.clone(),
                    anchor_row,
                    copy_mode.cursor.row,
                    end_col,
                ),
                Some(ClientCopySelection::Block { anchor }) => Selection::block_range(
                    copy_mode.pane_id.clone(),
                    (anchor.row, anchor.col),
                    (copy_mode.cursor.row, copy_mode.cursor.col),
                ),
            },
        };
        self.selection = Some(projected);
    }

    /// Sends a read of the selection to be copied, if it is visible.
    fn request_selection_copy(&mut self, outcome: &mut ClientShellInput, live_selection: bool, content_revision: u64)
        ensures
            final(self).same_env(*old(self)),
            final(self).same_pipeline(*old(self)),
            final(self).mode == old(self).mode,
            final(self).copy_mode == old(self).copy_mode,
            final(self).selection == old(self).selection,
            final(outcome).repaint == old(outcome).repaint,
            final(self).requested_all(
                *old(self),
                final(outcome).actions@,
                old(outcome).actions@,
                if visible(old(self).selection) {
                    seq![selection_read_req(old(self).selection->0, live_selection, content_revision)]
                } else {
                    Seq::empty()
                },
            ),
    {
        let params = match &self.selection {
            Some(sel) => {
                if !sel.is_visible() {
                    assert(final(outcome).actions@ == old(outcome).actions@);
                    return;
                }
                let block = sel.is_block();
                let p = PaneSelectionReadParams {
                    pane_id: sel.pane_id.clone(),
                    anchor: PaneTextPoint { row: sel.anchor.0, col: sel.anchor.1 },
                    cursor: PaneTextPoint { row: sel.head.0, col: sel.head.1 },
                    content_revision: if live_selection {
                        None
                    } else {
                        Some(content_revision)
                    },
                };
                (block, p)
            },
            None => {
                return;
            },
        };
        let (block, p) = params;
        let method = if block {
            Method::PaneSelectionReadBlock(p)
        } else {
            Method::PaneSelectionRead(p)
        };
        let _ = self.push_endpoint_method_with_kind(method, PendingEndpointKind::SelectionRead, outcome);
    }

    /// Leaves copy mode, restoring the entry scroll position. With `copy`, the
    /// visible selection is read for the clipboard; without one, the current
    /// search match stands in for it.
    pub fn exit_copy_mode(&mut self, copy: bool, outcome: &mut ClientShellInput)
        ensures
            final(self).stepped(*old(self)),
            exited(*final(self), *old(self), *final(outcome), *old(outcome), copy),
    {
        let live_selection = match &self.selection {
            Some(sel) => sel.is_visible(),
            None => false,
        };
        if copy && !live_selection {
            let fallback = match &self.copy_mode {
                Some(copy_mode) => match copy_mode.search_current {
                    Some(index) => if index < copy_mode.search_matches.len() {
                        let m = copy_mode.search_matches[index];
                        Some(
                            Selection::absolute_range(
                                copy_mode.pane_id.clone(),
                                (m.start.row, m.start.col),
                                (m.end.row, m.end.col),
                            ),
                        )
                    } else {
                        None
                    },
                    None => None,
                },
                None => None,
            };
            match fallback {
                Some(sel) => {
                    self.selection = Some(sel);
                },
                None => {},
            }
        }
        let copy_mode = match self.copy_mode.take() {
            Some(copy_mode) => copy_mode,
            None => {
                return;
            },
        };
        let ghost s0 = *self;
        let ghost o0 = outcome.actions@;
        self.reset_copy_pipeline();
        proof {
            ClientShellState::lemma_requested_none(s0, *self, o0, outcome.actions@);
        }
        let ghost s1 = *self;
        let ghost r1: Seq<(MethodView, PendingKindView)> = if copy && visible(s1.selection) {
            seq![selection_read_req(s1.selection->0, live_selection, copy_mode.content_revision)]
        } else {
            Seq::empty()
        };
        if copy {
            self.request_selection_copy(outcome, live_selection, copy_mode.content_revision);
            proof {
                ClientShellState::lemma_requested_trans(s0, s1, *self, o0, o0, outcome.actions@, Seq::empty(), r1);
                assert(Seq::<(MethodView, PendingKindView)>::empty() + r1 =~= r1);
            }
        }
        let ghost s2 = *self;
        let ghost o2 = outcome.actions@;
        assert(s2.requested_all(s0, o2, o0, r1));
        self.selection = None;
        self.selection_highlight_clear_deadline = None;
        self.push_pane_scroll_offset(copy_mode.pane_id, copy_mode.entry_offset_from_bottom, outcome);
        proof {
            ClientShellState::lemma_requested_trans(s0, s2, *self, o0, o2, outcome.actions@, r1,
                seq![scroll_req(copy_mode.pane_id@, copy_mode.entry_offset_from_bottom)]);
        }
        self.mode = ClientShellMode::Terminal;
        outcome.repaint = true;
    }

    /// Reveals the cursor and re-projects the selection after copy mode moved.
    pub(crate) fn follow_copy_cursor(&mut self, outcome: &mut ClientShellInput, reserve_mode_bar_row: bool)
        requires
            old(self).copy_mode is Some,
        ensures
            followed(*final(self), *old(self), *final(outcome), *old(outcome), old(self).cm(), reserve_mode_bar_row),
    {
        let ghost s0 = *self;
        self.reveal_copy_cursor(outcome, reserve_mode_bar_row);
        self.sync_copy_selection();
        outcome.repaint = true;
    }

    /// Moves the cursor by whole rows and columns inside the pane, then reveals
    /// it. Without a laid-out pane copy mode is left.
    pub fn move_copy_cursor(&mut self, row_delta: i16, col_delta: i16, outcome: &mut ClientShellInput)
        ensures
            final(self).stepped(*old(self)),
            match old(self).hit_rect() {
                None => exited(*final(self), *old(self), *final(outcome), *old(outcome), false),
                Some(rect) => {
                    let cm = old(self).cm();
                    let cm1 = ClientCopyModeState {
                        cursor: PaneTextPoint {
                            row: moved_row(cm.cursor.row, row_delta, cm.max_offset_from_bottom, rect.height),
                            col: moved_col(cm.cursor.col, col_delta, rect.width),
                        },
                        ..cm
                    };
                    followed(*final(self), *old(self), *final(outcome), *old(outcome), cm1, false)
                },
            },
    {
        let hit = match self.copy_hit() {
            Some(hit) => hit,
            None => {
                self.exit_copy_mode(false, outcome);
                return;
            },
        };
        match &mut self.copy_mode {
            Some(copy_mode) => {
                if col_delta < 0 {
                    let d: u16 = (0i32 - col_delta as i32) as u16;
                    copy_mode.cursor.col = copy_mode.cursor.col.saturating_sub(d);
                } else if col_delta > 0 {
                    let c = copy_mode.cursor.col.saturating_add(col_delta as u16);
                    let last = hit.inner_rect.width.saturating_sub(1);
                    copy_mode.cursor.col = if c <= last {
                        c
                    } else {
                        last
                    };
                }
                let t = copy_mode.max_offset_from_bottom.saturating_add(hit.inner_rect.height as usize).saturating_sub(1);
                let limit: u32 = if t > u32::MAX as usize {
                    u32::MAX
                } else {
                    t as u32
                };
                if row_delta < 0 {
                    let d: u32 = (0i32 - row_delta as i32) as u32;
                    copy_mode.cursor.row = copy_mode.cursor.row.saturating_sub(d);
                } else if row_delta > 0 {
                    let r = copy_mode.cursor.row.saturating_add(row_delta as u32);
                    copy_mode.cursor.row = if r <= limit {
                        r
                    } else {
                        limit
                    };
                }
            },
            None => {
                return;
            },
        }
        self.follow_copy_cursor(outcome, false);
    }

    /// `h`/`l` and the arrow keys: a counted local horizontal move.
    pub fn request_copy_horizontal(&mut self, forward: bool, count: Option<u32>, outcome: &mut ClientShellInput)
        ensures
            final(self).stepped(*old(self)),
            ({
                let d = if count_or_one(count) <= 32767 {
                    count_or_one(count) as i16
                } else {
                    32767i16
                };
                match old(self).hit_rect() {
                    None => exited(*final(self), *old(self), *final(outcome), *old(outcome), false),
                    Some(rect) => {
                        let cm = old(self).cm();
                        let cm1 = ClientCopyModeState {
                            cursor: PaneTextPoint {
                                row: cm.cursor.row,
                                col: moved_col(cm.cursor.col, if forward { d } else { (-d) as i16 }, rect.width),
                            },
                            ..cm
                        };
                        followed(*final(self), *old(self), *final(outcome), *old(outcome), cm1, false)
                    },
                }
            }),
    {
        let delta = copy_motion_times(count);
        self.move_copy_cursor(
            0,
            if forward {
                delta
            } else {
                -delta
            },
            outcome,
        );
    }

    /// `H`, `M`, `L`: jump to a line of the viewport; a count offsets from the
    /// top or bottom edge.
    pub fn move_copy_viewport_line(&mut self, line: CopyViewportLine, count: Option<u32>, outcome: &mut ClientShellInput)
        requires
            old(self).wf(),
        ensures
            final(self).stepped(*old(self)),
            viewport_line_moved(*final(self), *old(self), *final(outcome), *old(outcome), line, count),
    {
        let hit = match self.copy_hit() {
            Some(hit) => hit,
            None => {
                return;
            },
        };
        let height = hit.inner_rect.height as u32;
        match &mut self.copy_mode {
            Some(copy_mode) => {
                let top = copy_mode.max_offset_from_bottom.saturating_sub(copy_mode.offset_from_bottom) as u32;
                let t = copy_mode.max_offset_from_bottom.saturating_add(hit.inner_rect.height as usize).saturating_sub(1);
                let last: u32 = if t > u32::MAX as usize {
                    u32::MAX
                } else {
                    t as u32
                };
                let c = match count {
                    Some(c) => c,
                    None => 1,
                }.saturating_sub(1);
                let h1 = height.saturating_sub(1);
                let count_offset = if c <= h1 {
                    c
                } else {
                    h1
                };
                let row = match line {
                    CopyViewportLine::Top => top.saturating_add(count_offset),
                    CopyViewportLine::Middle => top + height / 2,
                    CopyViewportLine::Bottom => top.saturating_add(height.saturating_sub(1)).saturating_sub(count_offset),
                };
                copy_mode.cursor.row = if row <= last {
                    row
                } else {
                    last
                };
            },
            None => {
                return;
            },
        }
        self.follow_copy_cursor(outcome, false);
    }

    /// Page keys: move cursor and viewport together by whole pages.
    pub fn move_copy_page(&mut self, direction: i8, half_page: bool, count: Option<u32>, outcome: &mut ClientShellInput)
        ensures
            final(self).stepped(*old(self)),
            paged(*final(self), *old(self), *final(outcome), *old(outcome), direction, half_page, count),
    {
        let hit = match self.copy_hit() {
            Some(hit) => hit,
            None => {
                return;
            },
        };
        let lines = saturating_mul_usize(
            copy_mode_page_lines(hit.inner_rect.height, half_page),
            match count {
                Some(c) => c,
                None => 1,
            } as usize,
        );
        let (pane_id, next_offset) = match &mut self.copy_mode {
            Some(copy_mode) => {
                if direction < 0 {
                    copy_mode.cursor.row = copy_mode.cursor.row.saturating_sub(lines as u32);
                    let o = copy_mode.offset_from_bottom.saturating_add(lines);
                    copy_mode.offset_from_bottom = if o <= copy_mode.max_offset_from_bottom {
                        o
                    } else {
                        copy_mode.max_offset_from_bottom
                    };
                } else {
                    let t = copy_mode.max_offset_from_bottom.saturating_add(hit.inner_rect.height as usize).saturating_sub(1);
                    let last: u32 = if t > u32::MAX as usize {
                        u32::MAX
                    } else {
                        t as u32
                    };
                    let r = copy_mode.cursor.row.saturating_add(lines as u32);
                    copy_mode.cursor.row = if r <= last {
                        r
                    } else {
                        last
                    };
                    copy_mode.offset_from_bottom = copy_mode.offset_from_bottom.saturating_sub(lines);
                }
                (copy_mode.pane_id.clone(), copy_mode.offset_from_bottom)
            },
            None => {
                return;
            },
        };
        self.push_pane_scroll_offset(pane_id, next_offset, outcome);
        self.sync_copy_selection();
        outcome.repaint = true;
    }

    /// `g`/`G`: jump to the top or bottom of the history; a count jumps to
    /// absolute row count - 1 and reveals it.
    pub fn move_copy_history(&mut self, top: bool, count: Option<u32>, outcome: &mut ClientShellInput)
        ensures
            final(self).stepped(*old(self)),
            history_moved(*final(self), *old(self), *final(outcome), *old(outcome), top, count),
    {
        let hit = match self.copy_hit() {
            Some(hit) => hit,
            None => {
                return;
            },
        };
        let (pane_id, offset_from_bottom, counted) = match &mut self.copy_mode {
            Some(copy_mode) => {
                let t = copy_mode.max_offset_from_bottom.saturating_add(hit.inner_rect.height as usize).saturating_sub(1);
                let last: u32 = if t > u32::MAX as usize {
                    u32::MAX
                } else {
                    t as u32
                };
                if top {
                    copy_mode.cursor.row = 0;
                    copy_mode.offset_from_bottom = copy_mode.max_offset_from_bottom;
                } else {
                    copy_mode.cursor.row = match count {
                        Some(c) => {
                            let r = c.saturating_sub(1);
                            if r <= last {
                                r
                            } else {
                                last
                            }
                        },
                        None => last,
                    };
                    if count.is_none() {
                        copy_mode.offset_from_bottom = 0;
                    }
                }
                (copy_mode.pane_id.clone(), copy_mode.offset_from_bottom, count.is_some() && !top)
            },
            None => {
                return;
            },
        };
        if counted {
            self.follow_copy_cursor(outcome, false);
        } else {
            self.push_pane_scroll_offset(pane_id, offset_from_bottom, outcome);
            self.sync_copy_selection();
            outcome.repaint = true;
        }
    }

    /// Starts (or re-anchors) a visual selection of `kind` at the cursor.
    /// Switching kind while a selection is active keeps its anchor.
    pub fn begin_copy_selection(&mut self, kind: CopySelectionKind)
        ensures
            final(self).stepped(*old(self)),
            selection_begun(*final(self), *old(self), kind),
    {
        let end_col = match self.copy_hit() {
            Some(hit) => hit.inner_rect.width.saturating_sub(1),
            None => 0,
        };
        let copy_mode = match &mut self.copy_mode {
            Some(copy_mode) => copy_mode,
            None => {
                return;
            },
        };
        match copy_mode.selection {
            Some(active) => {
                let active_kind = match active {
                    ClientCopySelection::Character { .. } => CopySelectionKind::Character,
                    ClientCopySelection::Linewise { .. } => CopySelectionKind::Linewise,
                    ClientCopySelection::Block { .. } => CopySelectionKind::Block,
                };
                if active_kind != kind {
                    let anchor = match active {
                        ClientCopySelection::Character { anchor } => anchor,
                        ClientCopySelection::Block { anchor } => anchor,
                        ClientCopySelection::Linewise { anchor_row } => PaneTextPoint { row: anchor_row, col: 0 },
                    };
                    copy_mode.selection = Some(
                        match kind {
                            CopySelectionKind::Character => ClientCopySelection::Character { anchor },
                            CopySelectionKind::Linewise => ClientCopySelection::Linewise { anchor_row: anchor.row },
                            CopySelectionKind::Block => ClientCopySelection::Block { anchor },
                        },
                    );
                    self.sync_copy_selection();
                    return;
                }
            },
            None => {},
        }
        if kind == CopySelectionKind::Linewise {
            copy_mode.selection = Some(ClientCopySelection::Linewise { anchor_row: copy_mode.cursor.row });
            self.selection = Some(
                Selection::line_range(
                    copy_mode.pane_id.clone(),
                    copy_mode.cursor.row,
                    copy_mode.cursor.row,
                    end_col,
                ),
            );
        } else {
            let anchor = copy_mode.cursor;
            copy_mode.selection = Some(
                if kind == CopySelectionKind::Block {
                    ClientCopySelection::Block { anchor }
                } else {
                    ClientCopySelection::Character { anchor }
                },
            );
            self.selection = Some(
                if kind == CopySelectionKind::Block {
                    Selection::block_range(copy_mode.pane_id.clone(), (anchor.row, anchor.col), (anchor.row, anchor.col))
                } else {
                    Selection::absolute_anchor(copy_mode.pane_id.clone(), (anchor.row, anchor.col))
                },
            );
        }
    }

    /// Applies an endpoint-evaluated motion if it still belongs to the current
    /// pane, cursor and content; reports whether it did.
    pub fn apply_copy_motion_target(
        &mut self,
        pane_id: &String,
        origin: PaneTextPoint,
        cursor: PaneTextPoint,
        content_revision: u64,
        outcome: &mut ClientShellInput,
    ) -> (applied: bool)
        ensures
            final(self).stepped(*old(self)),
            applied == (old(self).copy_mode matches Some(cm) && cm.pane_id@ == pane_id@ && cm.cursor == origin
                && cm.content_revision == content_revision),
            !applied ==> untouched(*final(self), *old(self), *final(outcome), *old(outcome)),
            applied ==> followed(
                *final(self),
                *old(self),
                *final(outcome),
                *old(outcome),
                ClientCopyModeState { cursor: cursor, ..old(self).cm() },
                false,
            ),
    {
        match &mut self.copy_mode {
            Some(copy_mode) => {
                if copy_mode.pane_id != *pane_id || copy_mode.cursor != origin || copy_mode.content_revision
                    != content_revision {
                    return false;
                }
                copy_mode.cursor = cursor;
            },
            None => {
                return false;
            },
        }
        self.follow_copy_cursor(outcome, false);
        true
    }

    /// Applies an endpoint-evaluated text object as a character selection
    /// from its start to its end, under the same freshness checks.
    pub fn apply_copy_object_range(
        &mut self,
        pane_id: &String,
        origin: PaneTextPoint,
        range: PaneTextRange,
        content_revision: u64,
        outcome: &mut ClientShellInput,
    ) -> (applied: bool)
        ensures
            final(self).stepped(*old(self)),
            applied == (old(self).copy_mode matches Some(cm) && cm.pane_id@ == pane_id@ && cm.cursor == origin
                && cm.content_revision == content_revision),
            !applied ==> untouched(*final(self), *old(self), *final(outcome), *old(outcome)),
            applied ==> followed(
                *final(self),
                *old(self),
                *final(outcome),
                *old(outcome),
                ClientCopyModeState {
                    selection: Some(ClientCopySelection::Character { anchor: range.start }),
                    cursor: range.end,
                    ..old(self).cm()
                },
                false,
            ),
    {
        match &mut self.copy_mode {
            Some(copy_mode) => {
                if copy_mode.pane_id != *pane_id || copy_mode.cursor != origin || copy_mode.content_revision
                    != content_revision {
                    return false;
                }
                copy_mode.selection = Some(ClientCopySelection::Character { anchor: range.start });
                copy_mode.cursor = range.end;
            },
            None => {
                return false;
            },
        }
        self.follow_copy_cursor(outcome, false);
        true
    }
}

/// Leaving copy mode retires its session: a response to a copy request sent
/// in this session or an earlier one no longer belongs to the current
/// session, so it is ignored (see `handle_endpoint_result`).
pub proof fn lemma_exit_retires_session(
    s1: ClientShellState,
    s0: ClientShellState,
    out1: ClientShellInput,
    out0: ClientShellInput,
    copy: bool,
    session: u64,
)
    requires
        exited(s1, s0, out1, out0, copy),
        s0.copy_mode is Some,
        session <= s0.copy_session_generation < u64::MAX,
    ensures
        session != s1.copy_session_generation,
        s1.copy_session_generation == s0.copy_session_generation + 1,
{
}

/// Local cursor moves never leave the pane's text: from a cell inside the
/// pane, a move lands inside it too, clamping at the first and last row and
/// column.
pub proof fn lemma_moves_stay_in_pane(
    row: u32,
    col: u16,
    row_delta: i16,
    col_delta: i16,
    max_offset_from_bottom: usize,
    width: u16,
    height: u16,
)
    requires
        row <= last_row(max_offset_from_bottom, height),
        col <= width.saturating_sub(1),
    ensures
        moved_row(row, row_delta, max_offset_from_bottom, height) <= last_row(max_offset_from_bottom, height),
        moved_col(col, col_delta, width) <= width.saturating_sub(1),
{
}


/// A counted page key moves as far as that many presses of it: unless the
/// top, the last row or the end of the scrollback stops it, the cursor and
/// the viewport move `count` pages, and the column stays.
pub proof fn lemma_counted_page_moves_count_pages(
    s1: ClientShellState,
    s0: ClientShellState,
    out1: ClientShellInput,
    out0: ClientShellInput,
    direction: i8,
    half_page: bool,
    count: u32,
)
    requires
        paged(s1, s0, out1, out0, direction, half_page, Some(count)),
        s0.copy_mode is Some,
        s0.hit_rect() is Some,
    ensures
        ({
            let cm = s0.cm();
            let n = page_lines(s0.hit_rect()->0.height, half_page) * count;
            &&& s1.cm().cursor.col == cm.cursor.col
            &&& (direction < 0 && n <= cm.cursor.row && cm.offset_from_bottom + n <= cm.max_offset_from_bottom)
                ==> s1.cm().cursor.row == cm.cursor.row - n && s1.cm().offset_from_bottom == cm.offset_from_bottom + n
            &&& (direction >= 0 && cm.cursor.row + n <= last_row(cm.max_offset_from_bottom, s0.hit_rect()->0.height)
                && n <= cm.offset_from_bottom) ==> s1.cm().cursor.row == cm.cursor.row + n
                && s1.cm().offset_from_bottom == cm.offset_from_bottom - n
        }),
{
}

} // verus!
