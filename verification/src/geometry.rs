//! Rectangles on the screen, and how an area is split into rows.

use ratatui::layout::{Constraint, Direction, Layout};
use vstd::prelude::*;

verus! {

/// A rectangle of cells.
#[derive(Clone, Copy, Debug, PartialEq, Eq, Structural)]
pub struct Rect {
    pub x: u16,
    pub y: u16,
    pub width: u16,
    pub height: u16,
}

/// The smaller of two numbers.
pub open spec fn min(a: int, b: int) -> int {
    if a <= b {
        a
    } else {
        b
    }
}

/// The larger of two numbers.
pub open spec fn max(a: int, b: int) -> int {
    if a >= b {
        a
    } else {
        b
    }
}

/// `a - b`, or zero if that is negative.
pub open spec fn less(a: int, b: int) -> int {
    if a >= b {
        a - b
    } else {
        0
    }
}

/// The smaller of two lengths.
pub fn smaller(a: usize, b: usize) -> (r: usize)
    ensures
        r == min(a as int, b as int),
{
    if a <= b {
        a
    } else {
        b
    }
}

/// The larger of two lengths.
pub fn larger(a: usize, b: usize) -> (r: usize)
    ensures
        r == max(a as int, b as int),
{
    if a >= b {
        a
    } else {
        b
    }
}

/// The smaller of two cell counts.
pub fn smaller_cells(a: u16, b: u16) -> (r: u16)
    ensures
        r == min(a as int, b as int),
{
    if a <= b {
        a
    } else {
        b
    }
}

/// The larger of two cell counts.
pub fn larger_cells(a: u16, b: u16) -> (r: u16)
    ensures
        r == max(a as int, b as int),
{
    if a >= b {
        a
    } else {
        b
    }
}

impl Rect {
    /// The rectangle at a position, cut where it would leave the coordinate range.
    pub open spec fn at(x: int, y: int, width: int, height: int) -> Rect {
        Rect {
            x: x as u16,
            y: y as u16,
            width: min(width, u16::MAX - x) as u16,
            height: min(height, u16::MAX - y) as u16,
        }
    }

    /// The rectangle at a position, cut where it would leave the coordinate range.
    pub fn new(x: u16, y: u16, width: u16, height: u16) -> (r: Rect)
        ensures
            r == Rect::at(x as int, y as int, width as int, height as int),
            r.fits(),
    {
        Rect {
            x,
            y,
            width: smaller_cells(width, u16::MAX - x),
            height: smaller_cells(height, u16::MAX - y),
        }
    }

    /// The rectangle without cells.
    pub fn zero() -> (r: Rect)
        ensures
            r == (Rect { x: 0, y: 0, width: 0, height: 0 }),
    {
        Rect { x: 0, y: 0, width: 0, height: 0 }
    }

    /// Whether the rectangle stays in the coordinate range.
    pub open spec fn fits(self) -> bool {
        self.x + self.width <= u16::MAX && self.y + self.height <= u16::MAX
    }

    /// The column after the last one.
    pub open spec fn end_x(self) -> int {
        min(self.x + self.width, u16::MAX as int)
    }

    /// The row after the last one.
    pub open spec fn end_y(self) -> int {
        min(self.y + self.height, u16::MAX as int)
    }

    /// The column after the last one.
    pub fn right(&self) -> (r: u16)
        ensures
            r == self.end_x(),
    {
        self.x.saturating_add(self.width)
    }

    /// The row after the last one.
    pub fn bottom(&self) -> (r: u16)
        ensures
            r == self.end_y(),
    {
        self.y.saturating_add(self.height)
    }

    /// Whether a cell is in the rectangle.
    pub open spec fn covers(self, column: int, row: int) -> bool {
        self.x <= column < self.end_x() && self.y <= row < self.end_y()
    }

    /// Whether a cell is in the rectangle.
    pub fn contains(&self, column: u16, row: u16) -> (r: bool)
        ensures
            r == self.covers(column as int, row as int),
    {
        column >= self.x && column < self.right() && row >= self.y && row < self.bottom()
    }

    /// The rectangle without a margin of one column at both sides.
    pub open spec fn inside_columns(self) -> Rect {
        if self.width < 2 {
            Rect { x: 0, y: 0, width: 0, height: 0 }
        } else {
            Rect {
                x: min(self.x + 1, u16::MAX as int) as u16,
                width: (self.width - 2) as u16,
                ..self
            }
        }
    }

    /// The rectangle without a margin of one column at both sides.
    pub fn inner_columns(&self) -> (r: Rect)
        ensures
            r == self.inside_columns(),
    {
        if self.width < 2 {
            Rect::zero()
        } else {
            Rect {
                x: self.x.saturating_add(1),
                y: self.y,
                width: self.width - 2,
                height: self.height,
            }
        }
    }
}

/// The sum of some heights.
pub open spec fn total(heights: Seq<u16>) -> int
    decreases heights.len(),
{
    if heights.len() == 0 {
        0
    } else {
        total(heights.drop_last()) + heights.last()
    }
}

/// Whether parts of the heights `above` and `below` and one of at least `least` have room in
/// the rows of an area.
pub open spec fn have_room(y: u16, height: u16, above: Seq<u16>, least: u16, below: Seq<u16>) -> bool {
    y + height <= u16::MAX && total(above) + least + total(below) <= height
}

/// The heights of all parts where they have room: those asked for, and the rest for the one
/// between.
pub open spec fn full_heights(height: u16, above: Seq<u16>, below: Seq<u16>) -> Seq<u16> {
    above.push((height - total(above) - total(below)) as u16) + below
}

/// The start row and the height of parts that stand below one another.
pub open spec fn stacked(y: u16, heights: Seq<u16>) -> Seq<(u16, u16)> {
    Seq::new(heights.len(), |i: int| ((y + total(heights.take(i))) as u16, heights[i]))
}

/// Whether `rows` are start rows and heights of the parts of an area: one for each height
/// asked for and one between, in the area, one below the other. Where they have room they
/// are as high as asked, and the one between has the rest.
pub open spec fn splits(
    y: u16,
    height: u16,
    above: Seq<u16>,
    least: u16,
    below: Seq<u16>,
    rows: Seq<(u16, u16)>,
) -> bool {
    &&& rows.len() == above.len() + 1 + below.len()
    &&& forall|i: int|
        0 <= i < rows.len() ==> {
            &&& y <= (#[trigger] rows[i]).0
            &&& rows[i].0 + rows[i].1 <= min(y + height, u16::MAX as int)
        }
    &&& forall|i: int, j: int|
        0 <= i < j < rows.len() ==> (#[trigger] rows[i]).0 + rows[i].1 <= (#[trigger] rows[j]).0
    &&& have_room(y, height, above, least, below) ==> rows == stacked(
        y,
        full_heights(height, above, below),
    )
}

/// `ratatui::layout::Layout::split` in vertical direction, with a length for each part above
/// and below and a minimum for the one between: the start row and the height of each part.
///
/// Where the parts have no room, its solver gives some of them less than asked. Which ones is
/// not determined, and nothing is said of it here. The minimum is handed on as a signed
/// number, so it has to be one.
#[verifier::external_body]
pub(crate) fn layout_rows(area: Rect, above: &Vec<u16>, least: u16, below: &Vec<u16>) -> (r: Vec<
    (u16, u16),
>)
    requires
        least <= i16::MAX,
    ensures
        splits(area.y, area.height, above@, least, below@, r@),
{
    let Rect { x, y, width, height } = area;
    let mut parts: Vec<Constraint> = above.iter().map(|rows| Constraint::Length(*rows)).collect();
    parts.push(Constraint::Min(least));
    parts.extend(below.iter().map(|rows| Constraint::Length(*rows)));
    let whole = ratatui::layout::Rect { x, y, width, height };
    let layout = Layout::default().direction(Direction::Vertical).constraints(parts);
    layout.split(whole).iter().map(|part| (part.y, part.height)).collect()
}

/// The rectangle with the columns of an area and the given start row and height.
pub open spec fn strip(area: Rect, row: (u16, u16)) -> Rect {
    Rect { x: area.x, y: row.0, width: area.width, height: row.1 }
}

/// The rectangle with the columns of an area and the given start row and height.
pub fn strip_of(area: Rect, row: (u16, u16)) -> (r: Rect)
    ensures
        r == strip(area, row),
{
    Rect { x: area.x, y: row.0, width: area.width, height: row.1 }
}

/// A rectangle of the given size in the middle of an area.
pub open spec fn middle(area: Rect, width: u16, height: u16) -> Rect {
    Rect::at(
        area.x + less(area.width as int, width as int) / 2,
        area.y + less(area.height as int, height as int) / 2,
        min(width as int, area.width as int),
        min(height as int, area.height as int),
    )
}

/// A rectangle of the given size in the middle of an area.
pub fn centered(area: Rect, width: u16, height: u16) -> (r: Rect)
    requires
        area.fits(),
    ensures
        r == middle(area, width, height),
        r.fits(),
        area.x <= r.x,
        r.x + r.width <= area.x + area.width,
        area.y <= r.y,
        r.y + r.height <= area.y + area.height,
{
    Rect::new(
        area.x + area.width.saturating_sub(width) / 2,
        area.y + area.height.saturating_sub(height) / 2,
        smaller_cells(width, area.width),
        smaller_cells(height, area.height),
    )
}

/// Where a window of `capacity` rows starts, so that the selected row is in its middle
/// where possible.
pub open spec fn window_start(selected: int, total: int, capacity: int) -> int {
    if total <= capacity {
        0
    } else {
        min(less(selected, capacity / 2), total - capacity)
    }
}

/// Where a window of `capacity` rows starts, so that the selected row is in its middle
/// where possible.
pub fn centered_window(selected: usize, total: usize, capacity: usize) -> (r: usize)
    ensures
        r == window_start(selected as int, total as int, capacity as int),
{
    if total <= capacity {
        0
    } else {
        smaller(selected.saturating_sub(capacity / 2), total - capacity)
    }
}

/// The window holds the selected row and does not reach past the last row.
pub proof fn window_holds_the_selection(selected: int, total: int, capacity: int)
    requires
        0 <= selected < total,
        0 < capacity,
    ensures
        ({
            let start = window_start(selected, total, capacity);
            start <= selected < start + capacity && 0 <= start && (start + capacity <= total
                || start == 0)
        }),
{
}

/// Where the thumb of a scrollbar starts and how long it is; `None` if all is visible.
pub open spec fn thumb_of(total: int, visible: int, track: int, offset: int) -> Option<(int, int)> {
    if total <= visible || track == 0 || visible == 0 {
        None
    } else {
        let thumb = max(track * visible / total, 1);
        Some((offset * less(track, thumb) / max(total - visible, 1), thumb))
    }
}

/// Where the thumb of a scrollbar starts and how long it is; `None` if all is visible.
pub fn scrollbar_geometry(total: usize, visible: usize, track: usize, offset: usize) -> (r: Option<
    (usize, usize),
>)
    requires
        track as int * visible as int <= usize::MAX,
        offset as int * track as int <= usize::MAX,
    ensures
        match r {
            Some((start, thumb)) => thumb_of(
                total as int,
                visible as int,
                track as int,
                offset as int,
            ) == Some((start as int, thumb as int)),
            None => thumb_of(total as int, visible as int, track as int, offset as int) is None,
        },
{
    if total <= visible || track == 0 || visible == 0 {
        return None;
    }
    let thumb: usize = larger(track * visible / total, 1);
    let free: usize = track.saturating_sub(thumb);
    let hidden: usize = total - visible;
    proof {
        assert(offset * free <= offset * track) by (nonlinear_arith)
            requires
                free <= track,
        ;
    }
    Some((offset * free / hidden, thumb))
}

/// The thumb reaches both ends of the track: it starts at the top for the first row and
/// ends at the bottom for the last one.
pub proof fn thumb_reaches_both_ends(total: int, visible: int, track: int)
    requires
        0 < visible < total,
        0 < track,
    ensures
        thumb_of(total, visible, track, 0) matches Some((start, _)) && start == 0,
        thumb_of(total, visible, track, total - visible) matches Some((start, thumb)) && start
            + thumb == max(track, thumb),
{
    let thumb = max(track * visible / total, 1);
    let free = less(track, thumb);
    let hidden = total - visible;
    assert(0 * free / hidden == 0) by (nonlinear_arith)
        requires
            hidden > 0,
    ;
    assert(hidden * free / hidden == free) by (nonlinear_arith)
        requires
            hidden > 0,
    ;
}

/// The smaller and the larger of two numbers, and what is left of one, are what they say.
pub proof fn numbers_are_compared(a: int, b: int)
    ensures
        min(a, b) <= a && min(a, b) <= b && (min(a, b) == a || min(a, b) == b),
        max(a, b) >= a && max(a, b) >= b && (max(a, b) == a || max(a, b) == b),
        less(a, b) >= 0,
        a >= b ==> less(a, b) + b == a,
        a < b ==> less(a, b) == 0,
{
}

/// A rectangle covers as many cells as it is wide and high, from its corner on.
pub proof fn rectangles_cover_their_cells(r: Rect, column: int, row: int)
    requires
        r.fits(),
    ensures
        r.covers(column, row) <==> r.x <= column < r.x + r.width && r.y <= row < r.y + r.height,
{
}

/// What stands in the middle of an area has the same room on both sides, but for one cell.
pub proof fn middles_have_the_same_room(area: Rect, width: u16, height: u16)
    requires
        area.fits(),
        width <= area.width,
        height <= area.height,
    ensures
        ({
            let m = middle(area, width, height);
            let left = m.x - area.x;
            let right = area.x + area.width - (m.x + m.width);
            let above = m.y - area.y;
            let below = area.y + area.height - (m.y + m.height);
            &&& m.width == width
            &&& m.height == height
            &&& 0 <= left <= right <= left + 1
            &&& 0 <= above <= below <= above + 1
        }),
{
}

/// A window around a row in the middle of a list has as many rows before it as behind it, but
/// for one.
pub proof fn windows_lie_around_the_selection(selected: int, total: int, capacity: int)
    requires
        0 < capacity < total,
        capacity / 2 <= selected,
        selected - capacity / 2 <= total - capacity,
    ensures
        selected - window_start(selected, total, capacity) == capacity / 2,
{
}

/// Parts that stand below one another begin where the one above them ends.
pub proof fn parts_stand_below_one_another(y: u16, heights: Seq<u16>, i: int)
    requires
        0 <= i < heights.len(),
        y + total(heights) <= u16::MAX,
    ensures
        stacked(y, heights)[i].1 == heights[i],
        i == 0 ==> stacked(y, heights)[i].0 == y,
        i > 0 ==> stacked(y, heights)[i].0 == stacked(y, heights)[i - 1].0 + stacked(
            y,
            heights,
        )[i - 1].1,
{
    sums_grow(heights, i);
    assert(heights.take(0) =~= Seq::<u16>::empty());
    if i > 0 {
        sums_grow(heights, i - 1);
        assert(heights.take(i).drop_last() =~= heights.take(i - 1));
        assert(heights.take(i).last() == heights[i - 1]);
    }
}

proof fn sums_grow(heights: Seq<u16>, i: int)
    requires
        0 <= i <= heights.len(),
    ensures
        0 <= total(heights.take(i)) <= total(heights),
    decreases heights.len(),
{
    if i == heights.len() {
        assert(heights.take(i) =~= heights);
        if heights.len() > 0 {
            sums_grow(heights.drop_last(), heights.len() - 1);
            assert(heights.drop_last().take(heights.len() - 1) =~= heights.drop_last());
        }
    } else {
        sums_grow(heights.drop_last(), i);
        assert(heights.drop_last().take(i) =~= heights.take(i));
    }
}

/// The thumb of a scroll bar shows how much of the whole is visible, at least one cell of it,
/// and stays on its track.
pub proof fn thumbs_show_what_is_visible(total: int, visible: int, track: int, offset: int)
    requires
        0 < visible < total,
        0 < track,
        0 <= offset <= total - visible,
    ensures
        thumb_of(total, visible, track, offset) is Some,
        ({
            let (start, thumb) = thumb_of(total, visible, track, offset)->0;
            &&& 1 <= thumb <= track
            &&& thumb == max(track * visible / total, 1)
            &&& 0 <= start
            &&& start + thumb <= track
        }),
        thumb_of(visible, visible, track, 0) is None,
{
    let thumb = max(track * visible / total, 1);
    assert(track * visible / total <= track) by (nonlinear_arith)
        requires
            0 < visible < total,
            0 < track,
    {
        assert(track * visible <= track * total);
        assert(track * visible / total <= track * total / total);
    }
    let room = track - thumb;
    let last = total - visible;
    assert(0 <= offset * room / last <= room) by (nonlinear_arith)
        requires
            0 <= offset <= last,
            last > 0,
            room >= 0,
    {
        assert(0 <= offset * room <= last * room);
        assert(offset * room / last <= last * room / last);
    }
}

} // verus!
