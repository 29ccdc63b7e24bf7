//! Viewport geometry of copy mode: the pane hit, row clamps, scroll reveal
//! and the projected selection.
use crate::copy_state::{
    ClientCopyModeState, ClientCopySelection, ClientShellState, MethodView, PendingKindView,
};
use crate::selection::{Selection, SelectionShape};
use crate::types::{PaneHit, SurfaceRect};
use vstd::prelude::*;

verus! {

pub open spec fn is_first_hit(panes: Seq<PaneHit>, id: String, i: int) -> bool {
    &&& 0 <= i < panes.len()
    &&& panes[i].pane_id@ == id@
    &&& forall|j: int| 0 <= j < i ==> panes[j].pane_id@ != id@
}

/// Position of the first hit of pane `id`.
pub open spec fn hit_index(panes: Seq<PaneHit>, id: String) -> Option<int> {
    if exists|i: int| is_first_hit(panes, id, i) {
        Some(choose|i: int| is_first_hit(panes, id, i))
    } else {
        None
    }
}

pub proof fn lemma_first_hit_unique(panes: Seq<PaneHit>, id: String, i: int, k: int)
    requires
        is_first_hit(panes, id, i),
        is_first_hit(panes, id, k),
    ensures
        i == k,
{
    if i < k {
        assert(panes[i].pane_id@ != id@);
    } else if k < i {
        assert(panes[k].pane_id@ != id@);
    }
}

/// Last addressable row: the bottom of the viewport when scrolled to the
/// bottom, clamped into `u32`.
pub open spec fn last_row(max_offset_from_bottom: usize, height: u16) -> u32 {
    let t = max_offset_from_bottom.saturating_add(height as usize).saturating_sub(1);
    if t > u32::MAX as usize {
        u32::MAX
    } else {
        t as u32
    }
}

/// Absolute row at the top of the viewport.
pub open spec fn viewport_top(cm: ClientCopyModeState) -> u32 {
    cm.max_offset_from_bottom.saturating_sub(cm.offset_from_bottom) as u32
}

/// The scroll offset that brings the cursor into view: unchanged when the
/// cursor row is visible, otherwise the nearest offset that shows it. With
/// `reserve_mode_bar_row` the last viewport row is kept free.
pub open spec fn revealed_offset(cm: ClientCopyModeState, height: u16, reserve_mode_bar_row: bool) -> usize {
    let current_top = viewport_top(cm);
    let max_cursor_row: u16 = height.saturating_sub(
        if reserve_mode_bar_row {
            2
        } else {
            1
        },
    );
    let bottom = current_top.saturating_add(max_cursor_row as u32);
    let desired_top = if cm.cursor.row < current_top {
        cm.cursor.row
    } else if cm.cursor.row > bottom {
        cm.cursor.row.saturating_sub(max_cursor_row as u32)
    } else {
        current_top
    };
    cm.max_offset_from_bottom.saturating_sub(desired_top as usize)
}

pub open spec fn reveal_offset(cm: ClientCopyModeState, hit: Option<SurfaceRect>, reserve_mode_bar_row: bool) -> usize {
    match hit {
        Some(rect) => revealed_offset(cm, rect.height, reserve_mode_bar_row),
        None => cm.offset_from_bottom,
    }
}

/// Column of the line end used by linewise selections.
pub open spec fn line_end_col(hit: Option<SurfaceRect>) -> u16 {
    match hit {
        Some(rect) => rect.width.saturating_sub(1),
        None => 0,
    }
}

/// The shell selection projected from copy mode's visual selection.
pub open spec fn projected_selection(cm: ClientCopyModeState, end_col: u16) -> Option<Selection> {
    match cm.selection {
        None => None,
        Some(ClientCopySelection::Character { anchor }) => Some(
            Selection {
                pane_id: cm.pane_id,
                shape: SelectionShape::Character,
                anchor: (anchor.row, anchor.col),
                head: (cm.cursor.row, cm.cursor.col),
            },
        ),
        Some(ClientCopySelection::Linewise { anchor_row }) => Some(
            if anchor_row <= cm.cursor.row {
                Selection {
                    pane_id: cm.pane_id,
                    shape: SelectionShape::Line,
                    anchor: (anchor_row, 0u16),
                    head: (cm.cursor.row, end_col),
                }
            } else {
                Selection {
                    pane_id: cm.pane_id,
                    shape: SelectionShape::Line,
                    anchor: (anchor_row, end_col),
                    head: (cm.cursor.row, 0u16),
                }
            },
        ),
        Some(ClientCopySelection::Block { anchor }) => Some(
            Selection {
                pane_id: cm.pane_id,
                shape: SelectionShape::Block,
                anchor: (anchor.row, anchor.col),
                head: (cm.cursor.row, cm.cursor.col),
            },
        ),
    }
}

/// The shell selection `sel` after syncing with copy mode `cm`.
pub open spec fn synced(cm: ClientCopyModeState, sel: Option<Selection>, hit: Option<SurfaceRect>) -> Option<Selection> {
    if cm.selection is Some {
        projected_selection(cm, line_end_col(hit))
    } else {
        sel
    }
}

/// The shell selection after a sync: the projection when copy mode has a
/// visual selection, otherwise unchanged.
pub open spec fn synced_selection(s: ClientShellState, hit: Option<SurfaceRect>) -> Option<Selection> {
    match s.copy_mode {
        Some(cm) => synced(cm, s.selection, hit),
        None => s.selection,
    }
}

/// A scroll request for `pane_id`.
pub open spec fn scroll_req(pane_id: Seq<char>, offset: usize) -> (MethodView, PendingKindView) {
    (
        MethodView::Scroll { pane_id: pane_id, offset_from_bottom: offset },
        PendingKindView::PaneScroll { pane_id: pane_id, offset_from_bottom: offset },
    )
}

/// The scroll request sent when the offset moved, none otherwise.
pub open spec fn scroll_reqs(pane_id: Seq<char>, old_offset: usize, new_offset: usize) -> Seq<
    (MethodView, PendingKindView),
> {
    if new_offset == old_offset {
        Seq::empty()
    } else {
        seq![scroll_req(pane_id, new_offset)]
    }
}

impl ClientShellState {
    /// The hit rectangle of the copy-mode pane, if it was laid out.
    pub open spec fn hit_rect(self) -> Option<SurfaceRect> {
        match self.copy_mode {
            Some(cm) => match hit_index(self.hits.panes@, cm.pane_id) {
                Some(i) => Some(self.hits.panes@[i].inner_rect),
                None => None,
            },
            None => None,
        }
    }

    /// The hit of the copy-mode pane in the last frame.
    pub fn copy_hit(&self) -> (r: Option<PaneHit>)
        ensures
            match self.copy_mode {
                Some(cm) => match hit_index(self.hits.panes@, cm.pane_id) {
                    Some(i) => r == Some(
                        PaneHit {
                            pane_id: self.hits.panes@[i].pane_id,
                            inner_rect: self.hits.panes@[i].inner_rect,
                            scroll: self.hits.panes@[i].scroll,
                        },
                    ),
                    None => r is None,
                },
                None => r is None,
            },
            r matches Some(h) ==> Some(h.inner_rect) == self.hit_rect(),
            r is None ==> self.hit_rect() is None,
    {
        let cm = match &self.copy_mode {
            Some(cm) => cm,
            None => return None,
        };
        let n = self.hits.panes.len();
        let mut i: usize = 0;
        while i < n
            invariant
                n == self.hits.panes@.len(),
                self.copy_mode == Some(*cm),
                i <= n,
                forall|j: int| 0 <= j < i ==> self.hits.panes@[j].pane_id@ != cm.pane_id@,
            decreases n - i,
        {
            let hit = &self.hits.panes[i];
            if hit.pane_id == cm.pane_id {
                proof {
                    assert(is_first_hit(self.hits.panes@, cm.pane_id, i as int));
                    let k = choose|k: int| is_first_hit(self.hits.panes@, cm.pane_id, k);
                    lemma_first_hit_unique(self.hits.panes@, cm.pane_id, i as int, k);
                }
                return Some(
                    PaneHit { pane_id: hit.pane_id.clone(), inner_rect: hit.inner_rect, scroll: hit.scroll },
                );
            }
            i = i + 1;
        }
        assert(!exists|k: int| is_first_hit(self.hits.panes@, cm.pane_id, k));
        None
    }
}

} // verus!
