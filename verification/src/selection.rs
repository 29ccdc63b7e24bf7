//! The projected pane selection that copy mode drives.
use crate::types::ScrollMetrics;
use vstd::prelude::*;

verus! {

#[derive(Clone, Copy, Debug, PartialEq, Eq, Structural)]
pub enum SelectionShape {
    /// Only an anchor has been placed; nothing is highlighted yet.
    Anchor,
    /// Character-wise range in reading order.
    Character,
    /// Whole lines from the anchor row to the head row.
    Line,
    /// Rectangle spanned by the anchor and head cells.
    Block,
}

/// A selection in absolute (row, column) cells of one pane.
#[derive(Debug)]
pub struct Selection {
    pub pane_id: String,
    pub shape: SelectionShape,
    pub anchor: (u32, u16),
    pub head: (u32, u16),
}

pub open spec fn cell_le(a: (u32, u16), b: (u32, u16)) -> bool {
    a.0 < b.0 || (a.0 == b.0 && a.1 <= b.1)
}

pub open spec fn min_u32(a: u32, b: u32) -> u32 {
    if a <= b {
        a
    } else {
        b
    }
}

pub open spec fn max_u32(a: u32, b: u32) -> u32 {
    if a <= b {
        b
    } else {
        a
    }
}

pub open spec fn min_u16(a: u16, b: u16) -> u16 {
    if a <= b {
        a
    } else {
        b
    }
}

pub open spec fn max_u16(a: u16, b: u16) -> u16 {
    if a <= b {
        b
    } else {
        a
    }
}

impl Selection {
    /// The first and last cell: reading order for character and line
    /// selections, top-left and bottom-right corners for a block.
    pub open spec fn ordered(self) -> ((u32, u16), (u32, u16)) {
        if self.shape == SelectionShape::Block {
            (
                (min_u32(self.anchor.0, self.head.0), min_u16(self.anchor.1, self.head.1)),
                (max_u32(self.anchor.0, self.head.0), max_u16(self.anchor.1, self.head.1)),
            )
        } else if cell_le(self.anchor, self.head) {
            (self.anchor, self.head)
        } else {
            (self.head, self.anchor)
        }
    }

    /// Whether the absolute cell lies inside the highlighted area.
    pub open spec fn covers(self, row: u32, col: u16) -> bool {
        let (first, last) = self.ordered();
        match self.shape {
            SelectionShape::Anchor => false,
            SelectionShape::Character => cell_le(first, (row, col)) && cell_le((row, col), last),
            SelectionShape::Line => first.0 <= row <= last.0,
            SelectionShape::Block => first.0 <= row <= last.0 && first.1 <= col <= last.1,
        }
    }

    /// An anchor-only selection at `anchor`.
    pub fn absolute_anchor(pane_id: String, anchor: (u32, u16)) -> (r: Selection)
        ensures
            r.pane_id == pane_id,
            r.shape == SelectionShape::Anchor,
            r.anchor == anchor,
            r.head == anchor,
    {
        Selection { pane_id, shape: SelectionShape::Anchor, anchor, head: anchor }
    }

    /// A character-wise selection from `anchor` to `head`.
    pub fn absolute_range(pane_id: String, anchor: (u32, u16), head: (u32, u16)) -> (r: Selection)
        ensures
            r.pane_id == pane_id,
            r.shape == SelectionShape::Character,
            r.anchor == anchor,
            r.head == head,
    {
        Selection { pane_id, shape: SelectionShape::Character, anchor, head }
    }

    /// Whole lines between two rows; the line end is column `end_col`.
    pub fn line_range(pane_id: String, anchor_row: u32, head_row: u32, end_col: u16) -> (r: Selection)
        ensures
            r.pane_id == pane_id,
            r.shape == SelectionShape::Line,
            r.anchor == (if anchor_row <= head_row { (anchor_row, 0u16) } else { (anchor_row, end_col) }),
            r.head == (if anchor_row <= head_row { (head_row, end_col) } else { (head_row, 0u16) }),
    {
        if anchor_row <= head_row {
            Selection { pane_id, shape: SelectionShape::Line, anchor: (anchor_row, 0), head: (head_row, end_col) }
        } else {
            Selection { pane_id, shape: SelectionShape::Line, anchor: (anchor_row, end_col), head: (head_row, 0) }
        }
    }

    /// A rectangle spanned by two corner cells.
    pub fn block_range(pane_id: String, anchor: (u32, u16), head: (u32, u16)) -> (r: Selection)
        ensures
            r.pane_id == pane_id,
            r.shape == SelectionShape::Block,
            r.anchor == anchor,
            r.head == head,
    {
        Selection { pane_id, shape: SelectionShape::Block, anchor, head }
    }

    /// A selection is shown once it spans a range; a bare anchor is not.
    pub fn is_visible(&self) -> (r: bool)
        ensures
            r == (self.shape != SelectionShape::Anchor),
    {
        match self.shape {
            SelectionShape::Anchor => false,
            _ => true,
        }
    }

    pub fn is_block(&self) -> (r: bool)
        ensures
            r == (self.shape == SelectionShape::Block),
    {
        match self.shape {
            SelectionShape::Block => true,
            _ => false,
        }
    }

    pub fn ordered_cells(&self) -> (r: ((u32, u16), (u32, u16)))
        ensures
            r == self.ordered(),
    {
        let a = self.anchor;
        let h = self.head;
        match self.shape {
            SelectionShape::Block => {
                let r0 = if a.0 <= h.0 { a.0 } else { h.0 };
                let r1 = if a.0 <= h.0 { h.0 } else { a.0 };
                let c0 = if a.1 <= h.1 { a.1 } else { h.1 };
                let c1 = if a.1 <= h.1 { h.1 } else { a.1 };
                ((r0, c0), (r1, c1))
            },
            _ => {
                if a.0 < h.0 || (a.0 == h.0 && a.1 <= h.1) {
                    (a, h)
                } else {
                    (h, a)
                }
            },
        }
    }

    /// Whether the cell at viewport row `row`, column `col` is selected. With
    /// scroll metrics the viewport row is turned into an absolute row.
    pub fn contains(&self, row: u16, col: u16, metrics: Option<ScrollMetrics>) -> (r: bool)
        ensures
            r == (match metrics {
                None => self.covers(row as u32, col),
                Some(m) => {
                    let top = m.max_offset_from_bottom.saturating_sub(m.offset_from_bottom) as int;
                    top + row <= u32::MAX && self.covers((top + row) as u32, col)
                },
            }),
    {
        let abs: u64 = match metrics {
            None => row as u64,
            Some(m) => {
                let top = m.max_offset_from_bottom.saturating_sub(m.offset_from_bottom);
                if top > u32::MAX as usize {
                    return false;
                }
                top as u64 + row as u64
            },
        };
        if abs > u32::MAX as u64 {
            return false;
        }
        let abs_row = abs as u32;
        let (first, last) = self.ordered_cells();
        match self.shape {
            SelectionShape::Anchor => false,
            SelectionShape::Character => {
                (first.0 < abs_row || (first.0 == abs_row && first.1 <= col)) && (abs_row < last.0
                    || (abs_row == last.0 && col <= last.1))
            },
            SelectionShape::Line => first.0 <= abs_row && abs_row <= last.0,
            SelectionShape::Block => first.0 <= abs_row && abs_row <= last.0 && first.1 <= col
                && col <= last.1,
        }
    }
}

} // verus!
