//! What the screen shows and the pointer does, whatever the state.

use vstd::prelude::*;

use crate::agent_layout;
use crate::choices;
use crate::dispatch::Effect;
use crate::geometry::Rect;
use crate::hits;
use crate::mouse;
use crate::mouse::MouseEvent;
use crate::mouse::MouseIntent;
use crate::mouse::MouseKind;
use crate::mouse::Screen;
use crate::overlay;
use crate::picker;
use crate::picker::PickerRow;
use crate::state::AppState;
use crate::text;
use crate::width;

verus! {

broadcast use vstd::string::group_string_axioms;

/// A reply to a sign-in is not shown, only its length; everything else that is typed is.
pub proof fn replies_stay_hidden(s: AppState, i: int)
    ensures
        s.dialog.overlay is OauthPrompt ==> overlay::shown_query(s).len()
            == s.dialog.overlay_query@.len() && (0 <= i < overlay::shown_query(s).len()
            ==> overlay::shown_query(s)[i] == '•'),
        !(s.dialog.overlay is OauthPrompt) ==> overlay::shown_query(s) == s.dialog.overlay_query@,
{
}

/// A request for leave is shown with its tool and its reason, and the question whether to
/// delete a session with its path.
pub proof fn questions_say_what_they_are_about(s: AppState, empty: bool)
    ensures
        s.dialog.overlay is Permission && s.pending_permission is Some ==> {
            let notes = overlay::notes_of(s, empty);
            &&& notes.len() == 2
            &&& text::finishes_with(notes[0], s.pending_permission->0.tool@)
            &&& notes[1] == s.pending_permission->0.reason@
        },
        s.dialog.overlay is SessionDeleteConfirm && s.sessions.pending_session_path is Some ==> {
            let notes = overlay::notes_of(s, empty);
            &&& notes.len() == 1
            &&& text::occurs_in(s.sessions.pending_session_path->0@, notes[0])
        },
        (s.dialog.overlay is OauthPrompt || s.dialog.overlay is OauthSelect)
            && s.pending_oauth is Some ==> overlay::notes_of(s, empty) == seq![
            s.pending_oauth->0.message@,
        ],
{
    let notes = overlay::notes_of(s, empty);
    if s.dialog.overlay is Permission && s.pending_permission is Some {
        let tool = s.pending_permission->0.tool@;
        let line = "Tool: "@ + tool;
        assert(notes =~= seq![line, s.pending_permission->0.reason@]);
        assert(line.subrange(line.len() - tool.len(), line.len() as int) =~= tool);
    }
    if s.dialog.overlay is SessionDeleteConfirm && s.sessions.pending_session_path is Some {
        let path = s.sessions.pending_session_path->0@;
        let line = "Delete "@ + path + "? This cannot be undone."@;
        assert(notes =~= seq![line]);
        let at = "Delete "@.len() as int;
        assert(line.subrange(at, at + path.len()) =~= path);
        assert(text::has_at(line, path, at));
    }
    if (s.dialog.overlay is OauthPrompt || s.dialog.overlay is OauthSelect)
        && s.pending_oauth is Some {
        assert(notes =~= seq![s.pending_oauth->0.message@]);
    }
}

/// The row of what is in use is marked, and no other one; a model that is cycled through is
/// ticked, and no other one.
pub proof fn rows_are_marked(s: AppState, k: int, place: int, row: PickerRow)
    requires
        overlay::row_shows(s, k, place, row),
    ensures
        row.item_index == Some(k as usize),
        s.dialog.overlay is ModelPicker ==> (row.current
            <==> s.offers.available_models@[place].display_name@ == s.model@),
        s.dialog.overlay is SessionPicker ==> row.current
            == s.sessions.available_sessions@[place].current,
        s.dialog.overlay is ScopedModels ==> row.checked == Some(
            exists|j: int|
                0 <= j < s.offers.runtime_settings.enabled_models@.len() && (
                #[trigger] s.offers.runtime_settings.enabled_models@[j])@
                    == s.offers.available_models@[place].id@,
        ),
        s.dialog.overlay is ModelPicker ==> row.label@
            == s.offers.available_models@[place].display_name@,
        s.dialog.overlay is Permission && 0 <= place < 3 ==> row.label@
            == choices::permission_choices()[place],
{
}

/// The row that is selected has a mark in front of its label, and one in use says so at its
/// end.
pub proof fn selected_rows_have_a_mark(row: PickerRow, selected: bool)
    ensures
        text::finishes_with(picker::row_head(row, selected), row.label@),
        text::begins_with(
            picker::row_head(row, selected),
            if selected {
                "❯ "@
            } else {
                "  "@
            },
        ),
        row.current ==> picker::row_suffix(row) == "✓ current"@,
        !row.current ==> picker::row_suffix(row) == row.right@,
{
    let head = picker::row_head(row, selected);
    let mark = if selected {
        "❯ "@
    } else {
        "  "@
    };
    assert(head.subrange(head.len() - row.label@.len(), head.len() as int) =~= row.label@);
    assert(head.subrange(0, mark.len() as int) =~= mark);
}

/// A text that fits is shown whole; a longer one is the beginning of it and an ellipsis.
pub proof fn texts_are_shortened_at_their_end(value: Seq<char>, budget: int, shown: Seq<char>)
    requires
        picker::shortened(value, budget, shown),
    ensures
        width::text_columns(value) <= budget ==> shown == value,
        width::text_columns(value) > budget && budget >= 2 ==> shown.len() > 0 && shown.last()
            == '…' && shown.len() - 1 <= value.len() && shown.drop_last() == value.take(
            shown.len() - 1,
        ),
        width::text_columns(value) > budget && budget < 2 ==> shown.len() == 0,
{
    if width::text_columns(value) > budget && budget >= 2 {
        let k = choose|k: int| #[trigger]
            picker::cut_at(value, budget, k) && shown == value.take(k).push('…');
        assert(shown.drop_last() =~= value.take(k));
    }
}

/// A click on the cross in the corner of a dialog is on its first row.
pub proof fn crosses_are_in_the_corner(modal: Rect, column: int, row: int)
    requires
        modal.fits(),
        modal.width >= 6,
    ensures
        overlay::on_close(modal, column, row) <==> row == modal.y && modal.x + modal.width - 6
            <= column < modal.x + modal.width - 1,
{
}

/// What a click on a list hits is the entry that is shown there.
pub proof fn clicks_hit_what_is_shown(
    area: Rect,
    start: int,
    end: int,
    lead: int,
    rows: int,
    column: int,
    k: int,
    line: int,
)
    requires
        area.fits(),
        area.x <= column < area.x + area.width,
        0 <= start <= start + k < end,
        0 <= k,
        lead >= 0,
        rows > 0,
        0 <= line < rows,
        area.y + lead <= u16::MAX,
        lead + k * rows + line < area.height,
    ensures
        overlay::window_hit((area, start, end), lead, rows, column, area.y + lead + k * rows + line)
            == Some(start + k),
{
    let row = area.y + lead + k * rows + line;
    let first = area.y + lead;
    assert(k * rows >= 0) by (nonlinear_arith)
        requires
            k >= 0,
            rows > 0,
    ;
    assert((k * rows + line) / rows == k) by (nonlinear_arith)
        requires
            rows > 0,
            0 <= line < rows,
    ;
    assert(row - first == k * rows + line);
}

/// A click in a dialog chooses the row that it is on.
pub proof fn clicks_choose_their_row(
    before: AppState,
    after: AppState,
    mouse: MouseEvent,
    screen: Screen,
    effect: Effect,
) -> (item: Option<usize>)
    requires
        mouse::dialog_pressed(before, after, mouse, screen, effect),
        !(before.dialog.overlay is ImageViewer),
        !(before.dialog.overlay is PasteEditor),
    ensures
        overlay::hits_item(before, screen.width, screen.height, mouse.column, mouse.row, item),
        item is None ==> after == before && effect is Nothing,
        item is Some ==> exists|action: crate::state_types::OverlayAction| #[trigger]
            crate::pickers::activates(
                AppState {
                    dialog: crate::dialog::Dialog { overlay_selected: item->0, ..before.dialog },
                    ..before
                },
                after,
                action,
            ) && effect == crate::dispatch::dispatched(action),
{
    choose|item: Option<usize>| #[trigger]
        overlay::hits_item(before, screen.width, screen.height, mouse.column, mouse.row, item)
            && match item {
            Some(index) => crate::dialog_keys::dialog_done(
                AppState {
                    dialog: crate::dialog::Dialog { overlay_selected: index, ..before.dialog },
                    ..before
                },
                after,
                crate::dialog_keys::DialogIntent::Confirm,
                0,
                effect,
            ),
            None => after == before && effect == Effect::Nothing,
        }
}

/// The wheel scrolls the transcript, a press on the bar grabs it, and a drag moves what was
/// grabbed.
pub proof fn pointers_move_what_they_hold(s: AppState, mouse: MouseEvent, close: bool)
    ensures
        mouse.kind is DragLeft && s.scroll.scrollbar_dragging ==> mouse::mouse_intent(
            s,
            mouse,
            close,
        ) is DragBar,
        mouse.kind is DragLeft && !s.scroll.scrollbar_dragging && s.scroll.scroll_drag is Some
            ==> mouse::mouse_intent(s, mouse, close) is DragText,
        mouse.kind is UpLeft ==> mouse::mouse_intent(s, mouse, close) is Release,
        s.view is Transcript && !(s.focus is Prompt) && mouse.kind is ScrollUp
            ==> mouse::mouse_intent(s, mouse, close) is ScrollUp,
        s.view is Transcript && !(s.focus is Prompt) && mouse.kind is ScrollDown
            ==> mouse::mouse_intent(s, mouse, close) is ScrollDown,
        s.view is Transcript && mouse.kind == (MouseKind::Down { left: true })
            && s.scroll.transcript_scrollbar_rect is Some
            && s.scroll.transcript_scrollbar_rect->0.covers(mouse.column as int, mouse.row as int)
            ==> mouse::mouse_intent(s, mouse, close) is GrabBar,
        s.view is Subagent && !(s.focus is Prompt) && mouse.kind == (MouseKind::Down {
            left: true,
        }) && close ==> mouse::mouse_intent(s, mouse, close) is LeaveSubagent,
{
}

/// The wheel moves the transcript by one row and not past its ends.
pub proof fn the_wheel_moves_by_one_row(
    before: AppState,
    after: AppState,
    mouse: MouseEvent,
    screen: Screen,
    effect: Effect,
    changed: bool,
    up: bool,
)
    requires
        mouse::mouse_done(
            before,
            after,
            if up {
                MouseIntent::ScrollUp
            } else {
                MouseIntent::ScrollDown
            },
            mouse,
            screen,
            effect,
            changed,
        ),
        before.scroll.scroll_from_bottom <= screen.max_scroll,
    ensures
        effect is Nothing,
        up && before.scroll.scroll_from_bottom < screen.max_scroll
            ==> after.scroll.scroll_from_bottom == before.scroll.scroll_from_bottom + 1,
        up && before.scroll.scroll_from_bottom == screen.max_scroll
            ==> after.scroll.scroll_from_bottom == screen.max_scroll,
        !up && before.scroll.scroll_from_bottom > 0 ==> after.scroll.scroll_from_bottom
            == before.scroll.scroll_from_bottom - 1,
        !up && before.scroll.scroll_from_bottom == 0 ==> after.scroll.scroll_from_bottom == 0,
        after.transcript == before.transcript,
        after.composer == before.composer,
{
}

/// A transcript that is dragged follows the pointer row by row, within its ends.
pub proof fn dragged_text_follows_the_pointer(
    before: crate::scrolling::Scroll,
    after: crate::scrolling::Scroll,
    row: u16,
    last: usize,
)
    requires
        mouse::text_dragged(before, after, row, last),
        before.scroll_drag is Some,
    ensures
        ({
            let drag = before.scroll_drag->0;
            let to = drag.scroll + row - drag.row;
            &&& 0 <= to <= last ==> after.scroll_from_bottom == to
            &&& to < 0 ==> after.scroll_from_bottom == 0
            &&& to > last ==> after.scroll_from_bottom == last
        }),
{
}

/// What the parts of the header and of the line below the draft do when they are pressed.
pub proof fn pressed_parts_do_what_they_show(
    before: AppState,
    after: AppState,
    target: u64,
    effect: Effect,
)
    ensures
        mouse::header_pressed(before, after, target, effect) && target == 0 ==> effect
            == Effect::CopyDirectory(before.header.cwd) && after == before,
        mouse::header_pressed(before, after, target, effect) && target == 1 ==> after.view is Tasks
            && effect is Nothing,
        mouse::header_pressed(before, after, target, effect) && target == 3
            ==> after.transcript.queue_visible != before.transcript.queue_visible,
        mouse::composer_pressed(before, after, target, effect) && target == 0
            ==> after.dialog.overlay is ModelPicker,
        mouse::composer_pressed(before, after, target, effect) && target == 1
            ==> after.dialog.overlay is ThinkingPicker,
        mouse::composer_pressed(before, after, target, effect) && target == 2
            ==> after.permission_mode == before.permission_mode.following(),
{
}

/// The task and the session under the pointer are those of the row that it is on.
pub proof fn listed_work_is_under_its_row(s: AppState, mouse: MouseEvent)
    ensures
        mouse::task_under(s, mouse) matches Some(i) ==> 0 <= i < s.boards.subagent_tasks@.len()
            && s.boards.task_list_rect is Some && s.boards.task_list_rect->0.covers(
            mouse.column as int,
            mouse.row as int,
        ) && i == s.boards.task_list_offset + (mouse.row - s.boards.task_list_rect->0.y) / 2,
        mouse::session_under(s, mouse) matches Some(i) ==> i
            < s.sessions.available_sessions@.len(),
{
}

/// Queued messages, a request for leave, a running compaction and an open run have rows on the
/// screen, and have none where there are none of them.
pub proof fn parts_have_rows_where_they_are_needed(area: Rect, s: AppState)
    ensures
        ({
            let rows = agent_layout::rows_below(area, s);
            let queued = s.transcript.queued_steering@.len() + s.transcript.queued_follow_up@.len();
            &&& rows.len() == 7
            &&& (rows[0] > 0 <==> s.transcript.queue_visible && queued > 0)
            &&& rows[0] <= 4
            &&& (rows[4] > 0 <==> s.pending_permission is Some)
            &&& 3 <= rows[5] <= 10
            &&& rows[6] == 1
            &&& rows[2] == 1
            &&& (rows[3] == 1 <==> crate::transcript::compacting_since(s.transcript.entries@)
                is Some)
        }),
{
}

/// The rows of a block lie below those of the blocks before it, as many as it was drawn with.
pub proof fn blocks_lie_below_one_another(heights: Seq<u16>, k: int, row: int)
    requires
        0 <= k < heights.len(),
        0 <= row < heights[k],
    ensures
        hits::in_block(heights, k, hits::rows_before(heights, k) + row),
        hits::rows_before(heights, 0) == 0,
        hits::rows_before(heights, k + 1) == hits::rows_before(heights, k) + heights[k],
{
}

/// A transcript that follows its end shows its last row at the bottom, and one that is
/// scrolled as far as it goes its first row at the top.
pub proof fn scrolled_transcripts_show_their_ends(heights: Seq<u16>, visible: int)
    requires
        0 <= visible <= hits::all_rows(heights),
    ensures
        hits::first_shown(heights, visible, 0) + visible == hits::all_rows(heights),
        hits::first_shown(heights, visible, hits::scrollable(heights, visible)) == 0,
{
}

} // verus!
