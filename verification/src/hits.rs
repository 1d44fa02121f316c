//! Which block of the transcript lies under a cell of the screen.
//!
//! The blocks stand below each other, each on as many rows as it was drawn with.

use vstd::prelude::*;

use crate::agent_layout;
use crate::agent_layout::AgentLayout;
use crate::geometry;
use crate::geometry::Rect;
use crate::overlay;
use crate::state::AppState;
use crate::state_types::SectionTarget;
use crate::transcript;

verus! {

broadcast use vstd::string::group_string_axioms;

/// The rows of the first `k` blocks.
pub open spec fn rows_before(heights: Seq<u16>, k: int) -> int
    decreases k,
{
    if k <= 0 {
        0
    } else {
        rows_before(heights, k - 1) + heights[k - 1]
    }
}

/// All rows.
pub open spec fn all_rows(heights: Seq<u16>) -> int {
    rows_before(heights, heights.len() as int)
}

/// How far the rows can be scrolled in an area with room for `visible` of them.
pub open spec fn scrollable(heights: Seq<u16>, visible: int) -> int {
    geometry::less(all_rows(heights), visible)
}

/// The first row that is shown. The rows are scrolled from their end.
pub open spec fn first_shown(heights: Seq<u16>, visible: int, scrolled: int) -> int {
    scrollable(heights, visible) - geometry::min(scrolled, scrollable(heights, visible))
}

/// Whether a row belongs to the block `k`.
pub open spec fn in_block(heights: Seq<u16>, k: int, row: int) -> bool {
    &&& 0 <= k < heights.len()
    &&& rows_before(heights, k) <= row < rows_before(heights, k + 1)
}

proof fn rows_are_bounded(heights: Seq<u16>, k: int)
    requires
        0 <= k <= heights.len(),
    ensures
        0 <= rows_before(heights, k) <= 65535 * k,
    decreases k,
{
    if k > 0 {
        rows_are_bounded(heights, k - 1);
    }
}

proof fn rows_grow(heights: Seq<u16>, j: int, k: int)
    requires
        0 <= j <= k <= heights.len(),
    ensures
        rows_before(heights, j) <= rows_before(heights, k),
    decreases k,
{
    if j < k {
        rows_grow(heights, j, k - 1);
    }
}

fn count_rows(heights: &Vec<u16>) -> (r: u128)
    ensures
        r == all_rows(heights@),
{
    let mut total: u128 = 0;
    let mut i: usize = 0;
    while i < heights.len()
        invariant
            i <= heights@.len(),
            total == rows_before(heights@, i as int),
        decreases heights@.len() - i,
    {
        proof {
            rows_are_bounded(heights@, i as int);
        }
        total = total + heights[i] as u128;
        i += 1;
    }
    total
}

/// How far the rows can be scrolled; more than the machine can count is as far as it
/// can count.
pub fn max_scroll(heights: &Vec<u16>, visible: usize) -> (r: usize)
    ensures
        r == geometry::min(scrollable(heights@, visible as int), usize::MAX as int),
{
    let hidden: u128 = count_rows(heights).saturating_sub(visible as u128);
    if hidden > usize::MAX as u128 {
        usize::MAX
    } else {
        hidden as usize
    }
}

/// The block to which a row belongs.
pub fn block_at(heights: &Vec<u16>, row: u128) -> (r: Option<usize>)
    ensures
        match r {
            Some(k) => in_block(heights@, k as int, row as int),
            None => row >= all_rows(heights@),
        },
{
    let mut before: u128 = 0;
    let mut i: usize = 0;
    while i < heights.len()
        invariant
            i <= heights@.len(),
            before == rows_before(heights@, i as int),
            before <= row,
        decreases heights@.len() - i,
    {
        proof {
            rows_are_bounded(heights@, i as int);
        }
        let after: u128 = before + heights[i] as u128;
        if row < after {
            return Some(i);
        }
        before = after;
        i += 1;
    }
    None
}

/// The row of the transcript that a row of the screen shows.
pub open spec fn row_shown(heights: Seq<u16>, area: Rect, scrolled: int, row: int) -> int {
    first_shown(heights, area.height as int, scrolled) + (row - area.y)
}

/// Whether `r` is the block of the transcript under a cell of the screen, the transcript
/// standing in `area`.
pub open spec fn block_under(
    s: AppState,
    heights: Seq<u16>,
    area: Rect,
    column: u16,
    row: u16,
    r: Option<SectionTarget>,
) -> bool {
    let at = row_shown(heights, area, s.scroll.scroll_from_bottom as int, row as int);
    let targets = transcript::all_targets(s.transcript);
    match r {
        Some(target) => area.covers(column as int, row as int) && exists|k: int| #[trigger]
            in_block(heights, k, at) && k < targets.len() && targets[k] == (
                target.index as int,
                target.id@,
            ),
        None => !area.covers(column as int, row as int) || at >= all_rows(heights) || exists|k: int|
         #[trigger]
            in_block(heights, k, at) && k >= targets.len(),
    }
}

/// The block of the transcript under a cell of the screen, where there is one. The
/// blocks are those that can be pointed at, `heights` the rows each was drawn with.
pub fn section_hit_at(
    s: &AppState,
    heights: &Vec<u16>,
    width: u16,
    height: u16,
    column: u16,
    row: u16,
) -> (r: Option<SectionTarget>)
    ensures
        exists|layout: AgentLayout| #[trigger]
            agent_layout::laid_out(overlay::frame_of(width, height), *s, layout) && block_under(
                *s,
                heights@,
                layout.scrollback,
                column,
                row,
                r,
            ),
        agent_layout::has_room(overlay::frame_of(width, height), *s) ==> block_under(
            *s,
            heights@,
            agent_layout::full_layout(overlay::frame_of(width, height), *s).scrollback,
            column,
            row,
            r,
        ),
{
    let frame: Rect = Rect::new(0, 0, width, height);
    assert(frame == overlay::frame_of(width, height));
    let layout: AgentLayout = AgentLayout::compute(frame, s);
    section_hit_in(s, heights, layout.scrollback, column, row)
}

/// The block of the transcript under a cell of the screen, where there is one, the
/// transcript standing in `area`.
pub fn section_hit_in(
    s: &AppState,
    heights: &Vec<u16>,
    area: Rect,
    column: u16,
    row: u16,
) -> (r: Option<SectionTarget>)
    ensures
        block_under(*s, heights@, area, column, row, r),
{
    if !area.contains(column, row) {
        return None;
    }
    let total: u128 = count_rows(heights);
    let hidden: u128 = total.saturating_sub(area.height as u128);
    let scrolled: u128 = s.scroll.scroll_from_bottom as u128;
    let back: u128 = if scrolled < hidden {
        scrolled
    } else {
        hidden
    };
    proof {
        rows_are_bounded(heights@, heights@.len() as int);
    }
    let at: u128 = hidden - back + (row - area.y) as u128;
    assert(hidden == scrollable(heights@, area.height as int));
    assert(at == row_shown(heights@, area, s.scroll.scroll_from_bottom as int, row as int));
    let mut targets: Vec<SectionTarget> = s.transcript.section_targets();
    assert(targets@.len() == transcript::all_targets(s.transcript).len());
    match block_at(heights, at) {
        None => None,
        Some(k) => {
            assert(in_block(heights@, k as int, at as int));
            if k < targets.len() {
                let ghost listed = targets@;
                let target: SectionTarget = targets.remove(k);
                assert(transcript::target_views(listed)[k as int] == (
                    target.index as int,
                    target.id@,
                ));
                Some(target)
            } else {
                None
            }
        },
    }
}

/// A row belongs to one block at most.
pub proof fn rows_have_one_block(heights: Seq<u16>, row: int, j: int, k: int)
    requires
        in_block(heights, j, row),
        in_block(heights, k, row),
    ensures
        j == k,
{
    if j < k {
        rows_grow(heights, j + 1, k);
    } else if k < j {
        rows_grow(heights, k + 1, j);
    }
}

/// However far the rows are scrolled, an area that they fill shows rows of blocks
/// alone.
pub proof fn shown_rows_have_a_block(
    heights: Seq<u16>,
    area: Rect,
    scrolled: int,
    row: int,
) -> (k: int)
    requires
        area.height <= all_rows(heights),
        scrolled >= 0,
        area.y <= row < area.y + area.height,
    ensures
        in_block(heights, k, row_shown(heights, area, scrolled, row)),
{
    let at = row_shown(heights, area, scrolled, row);
    rows_are_bounded(heights, heights.len() as int);
    find_block(heights, heights.len() as int, at)
}

proof fn find_block(heights: Seq<u16>, n: int, at: int) -> (k: int)
    requires
        0 <= n <= heights.len(),
        0 <= at < rows_before(heights, n),
    ensures
        in_block(heights, k, at),
    decreases n,
{
    if at >= rows_before(heights, n - 1) {
        n - 1
    } else {
        find_block(heights, n - 1, at)
    }
}

/// Outside the transcript there is no block; inside it, what lies in one row is one block, and
/// what lies in a lower row is the same block or a later one.
pub proof fn lower_rows_show_later_blocks(
    s: AppState,
    heights: Seq<u16>,
    area: Rect,
    columns: (u16, u16),
    rows: (u16, u16),
    upper: Option<SectionTarget>,
    lower: Option<SectionTarget>,
) -> (r: (int, int))
    requires
        block_under(s, heights, area, columns.0, rows.0, upper),
        block_under(s, heights, area, columns.1, rows.1, lower),
        rows.0 <= rows.1,
    ensures
        !area.covers(columns.0 as int, rows.0 as int) ==> upper is None,
        upper is Some && lower is Some ==> {
            let targets = transcript::all_targets(s.transcript);
            &&& 0 <= r.0 <= r.1 < targets.len()
            &&& targets[r.0] == (upper->0.index as int, upper->0.id@)
            &&& targets[r.1] == (lower->0.index as int, lower->0.id@)
            &&& rows.0 == rows.1 ==> r.0 == r.1
        },
{
    let scrolled = s.scroll.scroll_from_bottom as int;
    let targets = transcript::all_targets(s.transcript);
    if upper is Some && lower is Some {
        let first = row_shown(heights, area, scrolled, rows.0 as int);
        let second = row_shown(heights, area, scrolled, rows.1 as int);
        let j = choose|k: int| #[trigger]
            in_block(heights, k, first) && k < targets.len() && targets[k] == (
                upper->0.index as int,
                upper->0.id@,
            );
        let k = choose|k: int| #[trigger]
            in_block(heights, k, second) && k < targets.len() && targets[k] == (
                lower->0.index as int,
                lower->0.id@,
            );
        if k < j {
            rows_grow(heights, k + 1, j);
        }
        if rows.0 == rows.1 {
            rows_have_one_block(heights, first, j, k);
        }
        (j, k)
    } else {
        (0, 0)
    }
}

} // verus!
