//! The layout of the agent screen.

use vstd::prelude::*;

use crate::boards;
use crate::geometry;
use crate::geometry::Rect;
use crate::prompt;
use crate::state::AppState;
use crate::transcript;

verus! {

broadcast use vstd::string::group_string_axioms;

/// Terminals of at most this height have no margin and no gaps.
pub const SHORT_TERMINAL_ROWS: u16 = 24;

/// Where the parts of the agent screen stand.
#[derive(Clone, Copy, Debug, PartialEq, Eq, Structural)]
pub struct AgentLayout {
    pub outer: Rect,
    pub status: Rect,
    pub scrollback: Rect,
    pub queue: Rect,
    pub workflow_status: Rect,
    pub turn_status: Rect,
    pub compaction: Rect,
    pub permission: Rect,
    pub prompt: Rect,
    pub shortcuts: Rect,
    pub compact: bool,
}

/// The height that the draft asks for.
pub open spec fn prompt_rows(area: Rect, state: AppState) -> int {
    let compact = area.height <= SHORT_TERMINAL_ROWS;
    let columns = geometry::max(geometry::less(outer_of(area).width as int, 6), 1);
    let lines = prompt::laid(state.composer.prompt@, columns).0.len() as int;
    geometry::max(geometry::min(lines, if compact { 4int } else { 8int }), 1) + 2
}

/// The area inside the margin.
pub open spec fn outer_of(area: Rect) -> Rect {
    if area.height <= SHORT_TERMINAL_ROWS {
        area
    } else {
        area.inside_columns()
    }
}

/// The height of the list of queued messages: at most three of them and a
/// title.
pub open spec fn queue_rows(state: AppState) -> int {
    let queued = state.transcript.queued_steering@.len() as int
        + state.transcript.queued_follow_up@.len() as int;
    if state.transcript.queue_visible && queued > 0 {
        geometry::min(queued, 3) + 1
    } else {
        0
    }
}

/// The height of the permission request.
pub open spec fn permission_rows(area: Rect, state: AppState) -> int {
    if state.pending_permission is None {
        0
    } else if area.height <= SHORT_TERMINAL_ROWS {
        4
    } else {
        5
    }
}

/// A run is not over yet.
pub open spec fn shows_workflow(state: AppState) -> bool {
    exists|k: int| boards::first_open(state.boards.workflow_runs@, k)
}

/// The heights of what stands above the transcript.
pub open spec fn rows_above(area: Rect) -> Seq<u16> {
    seq![1u16, if area.height <= SHORT_TERMINAL_ROWS { 0u16 } else { 1u16 }]
}

/// The heights of what stands below the transcript. The row of the turn is
/// kept free, so that the draft does not jump when a turn starts or ends.
pub open spec fn rows_below(area: Rect, state: AppState) -> Seq<u16> {
    seq![
        queue_rows(state) as u16,
        if shows_workflow(state) { 1u16 } else { 0u16 },
        1u16,
        if transcript::compacting_since(state.transcript.entries@) is Some { 1u16 } else { 0u16 },
        permission_rows(area, state) as u16,
        prompt_rows(area, state) as u16,
        1u16,
    ]
}

/// The layout of the agent screen where its parts have these start rows and heights, top
/// down.
pub open spec fn arranged(area: Rect, rows: Seq<(u16, u16)>) -> AgentLayout {
    let outer = outer_of(area);
    AgentLayout {
        outer,
        status: geometry::strip(outer, rows[0]),
        scrollback: geometry::strip(outer, rows[2]),
        queue: geometry::strip(outer, rows[3]),
        workflow_status: geometry::strip(outer, rows[4]),
        turn_status: geometry::strip(outer, rows[5]),
        compaction: geometry::strip(outer, rows[6]),
        permission: geometry::strip(outer, rows[7]),
        prompt: geometry::strip(outer, rows[8]),
        shortcuts: geometry::strip(outer, rows[9]),
        compact: area.height <= SHORT_TERMINAL_ROWS,
    }
}

/// Whether the rows of the parts of the agent screen can be these.
pub open spec fn rows_of(area: Rect, state: AppState, rows: Seq<(u16, u16)>) -> bool {
    geometry::splits(
        outer_of(area).y,
        outer_of(area).height,
        rows_above(area),
        5,
        rows_below(area, state),
        rows,
    )
}

/// Whether the agent screen can be laid out like this.
pub open spec fn laid_out(area: Rect, state: AppState, layout: AgentLayout) -> bool {
    exists|rows: Seq<(u16, u16)>| #[trigger]
        rows_of(area, state, rows) && layout == arranged(area, rows)
}

/// Whether all parts of the agent screen have the rows that they ask for.
pub open spec fn has_room(area: Rect, state: AppState) -> bool {
    geometry::have_room(
        outer_of(area).y,
        outer_of(area).height,
        rows_above(area),
        5,
        rows_below(area, state),
    )
}

/// The layout of the agent screen where all parts have the rows that they ask for: the
/// transcript has the rest.
pub open spec fn full_layout(area: Rect, state: AppState) -> AgentLayout {
    arranged(
        area,
        geometry::stacked(
            outer_of(area).y,
            geometry::full_heights(
                outer_of(area).height,
                rows_above(area),
                rows_below(area, state),
            ),
        ),
    )
}

/// The layout asks for the same rows before and while a turn runs, as long as its entries are
/// the same: the draft stays where it is.
pub proof fn streaming_does_not_move_the_prompt(area: Rect, idle: AppState, busy: AppState)
    requires
        busy == (AppState {
            transcript: transcript::Transcript {
                streaming: busy.transcript.streaming,
                turn_started_at: busy.transcript.turn_started_at,
                turn_input_tokens: busy.transcript.turn_input_tokens,
                turn_output_chars: busy.transcript.turn_output_chars,
                ..idle.transcript
            },
            ..idle
        }),
    ensures
        rows_below(area, busy) == rows_below(area, idle),
        forall|layout: AgentLayout| #[trigger]
            laid_out(area, busy, layout) == laid_out(area, idle, layout),
        forall|before: AgentLayout, after: AgentLayout|
            has_room(area, idle) && #[trigger] laid_out(area, idle, before) && #[trigger] laid_out(
                area,
                busy,
                after,
            ) ==> after.prompt == before.prompt,
{
    assert(rows_below(area, busy) =~= rows_below(area, idle));
    assert forall|layout: AgentLayout| #[trigger]
        laid_out(area, busy, layout) == laid_out(area, idle, layout) by {
        if laid_out(area, busy, layout) {
            same_rows_same_layout(area, busy, idle, layout);
        }
        if laid_out(area, idle, layout) {
            same_rows_same_layout(area, idle, busy, layout);
        }
    }
    assert forall|before: AgentLayout, after: AgentLayout|
        has_room(area, idle) && #[trigger] laid_out(area, idle, before) && #[trigger] laid_out(
            area,
            busy,
            after,
        ) implies after.prompt == before.prompt by {
        layouts_with_room_are_one(area, idle, before);
        layouts_with_room_are_one(area, busy, after);
    }
}

proof fn same_rows_same_layout(area: Rect, a: AppState, b: AppState, layout: AgentLayout)
    requires
        rows_below(area, a) == rows_below(area, b),
        laid_out(area, a, layout),
    ensures
        laid_out(area, b, layout),
{
    let rows = choose|rows: Seq<(u16, u16)>| #[trigger]
        rows_of(area, a, rows) && layout == arranged(area, rows);
    assert(rows_of(area, b, rows));
}

/// Where all parts have room there is one layout.
pub proof fn layouts_with_room_are_one(area: Rect, state: AppState, layout: AgentLayout)
    requires
        has_room(area, state),
        laid_out(area, state, layout),
    ensures
        layout == full_layout(area, state),
{
}

/// Where all parts have room, the draft has the rows that it asks for and the transcript at
/// least five.
pub proof fn the_prompt_does_not_starve_the_transcript(area: Rect, state: AppState)
    requires
        has_room(area, state),
    ensures
        full_layout(area, state).prompt.height == prompt_rows(area, state),
        full_layout(area, state).scrollback.height >= 5,
        full_layout(area, state).shortcuts.height == 1,
{
    let above = rows_above(area);
    let below = rows_below(area, state);
    let heights = geometry::full_heights(outer_of(area).height, above, below);
    heights_are_nonnegative(above);
    heights_are_nonnegative(below);
    assert(heights[2] == (outer_of(area).height - geometry::total(above) - geometry::total(
        below,
    )) as u16);
    assert(heights[8] == below[5]);
    assert(heights[9] == below[6]);
}

proof fn heights_are_nonnegative(heights: Seq<u16>)
    ensures
        geometry::total(heights) >= 0,
    decreases heights.len(),
{
    if heights.len() > 0 {
        heights_are_nonnegative(heights.drop_last());
    }
}

impl AgentLayout {
    /// The layout of the agent screen whose parts have these start rows and heights.
    pub fn from_rows(area: Rect, rows: &Vec<(u16, u16)>) -> (r: Self)
        requires
            rows@.len() == 10,
        ensures
            r == arranged(area, rows@),
    {
        let compact: bool = area.height <= SHORT_TERMINAL_ROWS;
        let outer: Rect = if compact {
            area
        } else {
            area.inner_columns()
        };
        AgentLayout {
            outer,
            status: geometry::strip_of(outer, rows[0]),
            scrollback: geometry::strip_of(outer, rows[2]),
            queue: geometry::strip_of(outer, rows[3]),
            workflow_status: geometry::strip_of(outer, rows[4]),
            turn_status: geometry::strip_of(outer, rows[5]),
            compaction: geometry::strip_of(outer, rows[6]),
            permission: geometry::strip_of(outer, rows[7]),
            prompt: geometry::strip_of(outer, rows[8]),
            shortcuts: geometry::strip_of(outer, rows[9]),
            compact,
        }
    }

    /// The rows of the transcript that a page key moves by, at least one.
    pub fn page(&self) -> (r: usize)
        ensures
            r == geometry::max(self.scrollback.height as int, 1),
    {
        geometry::larger(self.scrollback.height as usize, 1)
    }

    /// The layout of the agent screen. On a screen without room for all parts, which of them
    /// get less is up to the solver of `ratatui`.
    pub fn compute(area: Rect, state: &AppState) -> (r: Self)
        ensures
            laid_out(area, *state, r),
            has_room(area, *state) ==> r == full_layout(area, *state),
    {
        let compact: bool = area.height <= SHORT_TERMINAL_ROWS;
        let outer: Rect = if compact {
            area
        } else {
            area.inner_columns()
        };
        let columns: usize = geometry::larger(outer.width.saturating_sub(6) as usize, 1);
        let prompt_height: u16 = prompt::desired_height(
            state.composer.prompt.as_str(),
            state.composer.cursor,
            columns,
            if compact {
                4
            } else {
                8
            },
        );
        let compaction_height: u16 = if state.transcript.active_compaction_started_at().is_some() {
            1
        } else {
            0
        };
        let queue_height: u16 = queue_height(state);
        let workflow_height: u16 = match state.boards.workflow_widget() {
            Some(_k) => {
                assert(boards::first_open(state.boards.workflow_runs@, _k as int));
                1
            },
            None => 0,
        };
        let permission_height: u16 = if state.pending_permission.is_some() {
            if compact {
                4
            } else {
                5
            }
        } else {
            0
        };
        let gap: u16 = if compact {
            0
        } else {
            1
        };
        let above: Vec<u16> = vec![1, gap];
        let below: Vec<u16> = vec![
            queue_height,
            workflow_height,
            1,
            compaction_height,
            permission_height,
            prompt_height,
            1,
        ];
        assert(above@ =~= rows_above(area));
        assert(below@ =~= rows_below(area, *state));
        let rows: Vec<(u16, u16)> = geometry::layout_rows(outer, &above, 5, &below);
        assert(rows_of(area, *state, rows@));
        AgentLayout::from_rows(area, &rows)
    }
}

fn queue_height(state: &AppState) -> (r: u16)
    ensures
        r == queue_rows(*state),
{
    let steering: usize = geometry::smaller(state.transcript.queued_steering.len(), 3);
    let follow_up: usize = geometry::smaller(state.transcript.queued_follow_up.len(), 3);
    if state.transcript.queue_visible && steering + follow_up > 0 {
        (geometry::smaller(steering + follow_up, 3) + 1) as u16
    } else {
        0
    }
}

} // verus!
