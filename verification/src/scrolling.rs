//! How far the transcript is scrolled.

use vstd::prelude::*;

use crate::geometry;
use crate::geometry::Rect;
use crate::state_types::ScrollDrag;

verus! {

/// The scroll position, counted in rows from the end of the transcript, and
/// what the pointer does to it.
#[derive(Clone, Debug)]
pub struct Scroll {
    pub scroll_from_bottom: usize,
    pub scroll_drag: Option<ScrollDrag>,
    pub scrollbar_dragging: bool,
    pub transcript_rect: Option<Rect>,
    pub transcript_scrollbar_rect: Option<Rect>,
}

/// The transcript follows its end.
pub open spec fn fresh(s: Scroll) -> bool {
    &&& s.scroll_from_bottom == 0
    &&& s.scroll_drag is None
    &&& !s.scrollbar_dragging
    &&& s.transcript_rect is None
    &&& s.transcript_scrollbar_rect is None
}

impl Default for Scroll {
    fn default() -> (r: Self)
        ensures
            fresh(r),
    {
        Scroll {
            scroll_from_bottom: 0,
            scroll_drag: None,
            scrollbar_dragging: false,
            transcript_rect: None,
            transcript_scrollbar_rect: None,
        }
    }
}

/// A number kept between zero and a bound.
pub open spec fn between(n: int, last: int) -> int {
    geometry::max(0, geometry::min(n, last))
}

/// The scroll position that a row of the scroll bar stands for: its first row
/// for the beginning of the transcript, its last row for the end.
pub open spec fn bar_position(bar: Rect, row: int, last: int) -> int {
    if bar.height <= 1 {
        last
    } else {
        last - last * between(row - bar.y, bar.height - 1) / (bar.height - 1)
    }
}

/// The ends of the scroll bar stand for the ends of the transcript, and every
/// row of it for a position between them.
pub proof fn bar_reaches_both_ends(bar: Rect, row: int, last: int)
    requires
        bar.height >= 2,
        last >= 0,
    ensures
        bar_position(bar, bar.y as int, last) == last,
        bar_position(bar, bar.y + bar.height - 1, last) == 0,
        0 <= bar_position(bar, row, last) <= last,
{
    let h = bar.height - 1;
    assert(last * 0 / h == 0) by (nonlinear_arith)
        requires
            h >= 1,
    ;
    assert(last * h / h == last) by (nonlinear_arith)
        requires
            h >= 1,
    ;
    let at = between(row - bar.y, h);
    assert(0 <= last * at / h <= last) by (nonlinear_arith)
        requires
            0 <= at <= h,
            h >= 1,
            last >= 0,
    ;
}

impl Scroll {
    /// Scrolls towards the beginning.
    pub fn scroll_up(&mut self, rows: usize, last: usize)
        ensures
            *final(self) == (Scroll {
                scroll_from_bottom: final(self).scroll_from_bottom,
                ..*old(self)
            }),
            final(self).scroll_from_bottom == geometry::min(
                old(self).scroll_from_bottom + rows,
                last as int,
            ),
    {
        let at: usize = self.scroll_from_bottom;
        self.scroll_from_bottom = if at >= last || last - at <= rows {
            last
        } else {
            at + rows
        };
    }

    /// Scrolls towards the end.
    pub fn scroll_down(&mut self, rows: usize)
        ensures
            *final(self) == (Scroll {
                scroll_from_bottom: final(self).scroll_from_bottom,
                ..*old(self)
            }),
            final(self).scroll_from_bottom == geometry::less(
                old(self).scroll_from_bottom as int,
                rows as int,
            ),
    {
        self.scroll_from_bottom = self.scroll_from_bottom.saturating_sub(rows);
    }

    /// Scrolls to the beginning.
    pub fn scroll_to_top(&mut self, last: usize)
        ensures
            *final(self) == (Scroll { scroll_from_bottom: last, ..*old(self) }),
    {
        self.scroll_from_bottom = last;
    }

    /// Scrolls to the end, which the transcript then follows.
    pub fn scroll_to_bottom(&mut self)
        ensures
            *final(self) == (Scroll { scroll_from_bottom: 0, ..*old(self) }),
    {
        self.scroll_from_bottom = 0;
    }

    /// Begins to drag the transcript.
    pub fn begin_scrollback_drag(&mut self, row: u16)
        ensures
            *final(self) == (Scroll {
                scroll_drag: Some(ScrollDrag { row, scroll: old(self).scroll_from_bottom }),
                ..*old(self)
            }),
    {
        self.scroll_drag = Some(ScrollDrag { row, scroll: self.scroll_from_bottom });
    }

    /// Drags the transcript: it moves with the pointer.
    pub fn drag_scrollback_to(&mut self, row: u16, last: usize)
        ensures
            *final(self) == (Scroll {
                scroll_from_bottom: final(self).scroll_from_bottom,
                ..*old(self)
            }),
            match old(self).scroll_drag {
                Some(drag) => final(self).scroll_from_bottom == between(
                    drag.scroll + row - drag.row,
                    last as int,
                ),
                None => final(self).scroll_from_bottom == old(self).scroll_from_bottom,
            },
    {
        if let Some(drag) = self.scroll_drag {
            self.scroll_from_bottom = if row >= drag.row {
                let down: usize = (row - drag.row) as usize;
                if drag.scroll >= last || last - drag.scroll <= down {
                    last
                } else {
                    drag.scroll + down
                }
            } else {
                let up: usize = (drag.row - row) as usize;
                geometry::smaller(drag.scroll.saturating_sub(up), last)
            };
        }
    }

    /// Drags the thumb of the scroll bar.
    pub fn drag_scrollbar_to(&mut self, row: u16, last: usize)
        ensures
            *final(self) == (Scroll {
                scroll_from_bottom: final(self).scroll_from_bottom,
                ..*old(self)
            }),
            match old(self).transcript_scrollbar_rect {
                Some(bar) => final(self).scroll_from_bottom == bar_position(
                    bar,
                    row as int,
                    last as int,
                ),
                None => final(self).scroll_from_bottom == old(self).scroll_from_bottom,
            },
    {
        if let Some(bar) = self.transcript_scrollbar_rect {
            if bar.height <= 1 {
                self.scroll_from_bottom = last;
            } else {
                let at: u16 = geometry::smaller_cells(row.saturating_sub(bar.y), bar.height - 1);
                proof {
                    bar_reaches_both_ends(bar, row as int, last as int);
                    assert(last * at <= 0xffff_ffff_ffff_ffff * 0xffff) by (nonlinear_arith)
                        requires
                            0 <= last <= 0xffff_ffff_ffff_ffff,
                            0 <= at <= 0xffff,
                    ;
                }
                let part: u128 = last as u128 * at as u128 / (bar.height - 1) as u128;
                self.scroll_from_bottom = last - part as usize;
            }
        }
    }

    /// Whether a cell is on the scroll bar.
    pub fn transcript_scrollbar_contains(&self, column: u16, row: u16) -> (r: bool)
        ensures
            r == (self.transcript_scrollbar_rect matches Some(bar) && bar.covers(
                column as int,
                row as int,
            )),
    {
        match &self.transcript_scrollbar_rect {
            Some(bar) => bar.contains(column, row),
            None => false,
        }
    }

    /// Whether a cell is in the transcript.
    pub fn transcript_contains(&self, column: u16, row: u16) -> (r: bool)
        ensures
            r == (self.transcript_rect matches Some(area) && area.covers(
                column as int,
                row as int,
            )),
    {
        match &self.transcript_rect {
            Some(area) => area.contains(column, row),
            None => false,
        }
    }
}

} // verus!
