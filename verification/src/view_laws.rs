//! What the views show and their keys lead to, whatever the state.

use vstd::prelude::*;

use crate::actions::KeyCode;
use crate::actions::KeyEvent;
use crate::actions::KeyModifiers;
use crate::boards;
use crate::composer;
use crate::composer_state;
use crate::dialog;
use crate::dispatch::Effect;
use crate::dispatch::UiCommand;
use crate::events;
use crate::events::ClipboardPayload;
use crate::harness::AppUpdateStatus;
use crate::screen;
use crate::sessions;
use crate::state::AppState;
use crate::state_types::Entry;
use crate::state_types::Focus;
use crate::state_types::ImageAttachment;
use crate::text;
use crate::transcript;
use crate::transcript::BlockKind;
use crate::transcript::Transcript;
use crate::transcript_keys;
use crate::transcript_keys::Moment;
use crate::transcript_keys::TextIntent;
use crate::view_keys;
use crate::view_keys::ViewIntent;

verus! {

broadcast use vstd::string::group_string_axioms;

/// Folding or unfolding all blocks of a kind does so to each of them, and leaves the others
/// alone.
pub proof fn all_blocks_of_a_kind_are_folded(
    entries: Seq<Entry>,
    kind: BlockKind,
    to: bool,
    i: int,
)
    requires
        0 <= i < entries.len(),
    ensures
        transcript::with_all(entries, kind, to).len() == entries.len(),
        (kind is Tool && entries[i] is Tool) || (kind is Diff && entries[i] is Diff) || (kind
            is Reasoning && entries[i] is Reasoning) ==> transcript::with_all(
            entries,
            kind,
            to,
        )[i].unfolded() == Some(to),
        (kind is Tool && !(entries[i] is Tool)) || (kind is Diff && !(entries[i] is Diff)) || (kind
            is Reasoning && !(entries[i] is Reasoning)) ==> transcript::with_all(
            entries,
            kind,
            to,
        )[i] == entries[i],
{
}

/// Toggling all blocks of a kind unfolds them, unless all of them are unfolded; then it folds
/// them.
pub proof fn toggling_all_unfolds_first(before: AppState, after: AppState, kind: BlockKind, i: int)
    requires
        transcript_keys::toggles_all(before, after, kind),
        0 <= i < before.transcript.entries@.len(),
        transcript::of_kind(before.transcript.entries@[i], kind),
    ensures
        before.transcript.entries@[i].unfolded() == Some(false)
            ==> after.transcript.entries@[i].unfolded() == Some(true),
        (forall|j: int|
            0 <= j < before.transcript.entries@.len() && transcript::of_kind(
                #[trigger] before.transcript.entries@[j],
                kind,
            ) ==> before.transcript.entries@[j].unfolded() == Some(true))
            ==> after.transcript.entries@[i].unfolded() == Some(false),
        after.composer == before.composer,
{
}

/// Calls of the same tool in a row are a group from two on; a call between others is none.
pub proof fn calls_in_a_row_are_a_group(entries: Seq<Entry>, i: int)
    requires
        0 <= i < entries.len(),
    ensures
        i + 1 < entries.len() && entries[i] is Tool && entries[i + 1] is Tool
            && entries[i]->Tool_label@ == entries[i + 1]->Tool_label@ && (i == 0 || !(entries[i - 1]
            is Tool) || entries[i - 1]->Tool_label@ != entries[i]->Tool_label@)
            <==> transcript::heads_group(entries, i),
        !(entries[i] is Tool) ==> transcript::run_start(entries, i) == i,
        transcript::run_start(entries, i) <= i,
    decreases i,
{
    if i > 0 && transcript::alike(entries[i - 1], entries[i]) {
        calls_in_a_row_are_a_group(entries, i - 1);
    }
}

/// A block that is in no group can be reached, under a name of its own.
pub proof fn single_blocks_can_be_reached(t: Transcript, n: int, i: int)
    requires
        0 <= i < n <= t.entries@.len(),
        !(t.entries@[i] is Tool),
    ensures
        transcript::targets(t, n).contains((i, transcript::block_id(t, i))),
    decreases n,
{
    let before = transcript::targets(t, n - 1);
    let all = transcript::targets(t, n);
    calls_in_a_row_are_a_group(t.entries@, i);
    if i == n - 1 {
        assert(transcript::block_targets(t, i) == seq![(i, transcript::block_id(t, i))]);
        assert(all[before.len() as int] == (i, transcript::block_id(t, i)));
    } else {
        single_blocks_can_be_reached(t, n - 1, i);
        let k = choose|k: int|
            0 <= k < before.len() && before[k] == (i, transcript::block_id(t, i));
        assert(all[k] == before[k]);
    }
}

/// The names of two different blocks of a session differ where they are counted.
pub proof fn counted_blocks_have_different_names(t: Transcript, i: int, j: int)
    requires
        0 <= i < t.entries@.len(),
        0 <= j < t.entries@.len(),
        i != j,
        !(t.entries@[i] is Tool || t.entries@[i] is Diff),
        !(t.entries@[j] is Tool || t.entries@[j] is Diff),
    ensures
        transcript::block_id(t, i) != transcript::block_id(t, j),
{
    let front = "entry:"@ + text::decimal(t.entry_epoch as nat) + ":"@;
    let a = transcript::block_id(t, i);
    let b = transcript::block_id(t, j);
    if a == b {
        assert(a.subrange(front.len() as int, a.len() as int) =~= text::decimal(i as nat));
        assert(b.subrange(front.len() as int, b.len() as int) =~= text::decimal(j as nat));
        text::decimal_is_injective(i as nat, j as nat);
    }
}

/// The focus moves to the target behind the one that has it, or before it, and stays at the
/// ends.
pub proof fn the_focus_moves_by_one(
    list: Seq<(int, Seq<char>)>,
    id: String,
    direction: int,
    k: int,
    to: int,
)
    requires
        0 <= k < list.len(),
        list[k].1 == id@,
        forall|j: int| 0 <= j < k ==> (#[trigger] list[j]).1 != id@,
        direction == 1 || direction == -1,
        transcript::next_place(list, Some(id), direction, to),
    ensures
        direction == 1 && k + 1 < list.len() ==> to == k + 1,
        direction == 1 && k + 1 == list.len() ==> to == k,
        direction == -1 && k > 0 ==> to == k - 1,
        direction == -1 && k == 0 ==> to == 0,
{
    assert(transcript::place_of(list, Some(id), k));
    let j = choose|j: int|
        #![trigger transcript::place_of(list, Some(id), j)]
        transcript::place_of(list, Some(id), j) && to == dialog::stepped(
            j,
            direction,
            list.len() as int,
        );
    if j < k {
        assert(list[j].1 != id@);
    } else if k < j {
        assert(list[k].1 != id@);
    }
}

/// The compaction that runs last is the one whose time counts.
pub proof fn the_last_compaction_counts(entries: Seq<Entry>, entry: Entry)
    ensures
        entry is Compaction && entry->Compaction_active && entry->Compaction_started_at is Some
            ==> transcript::compacting_since(entries.push(entry)) == entry->Compaction_started_at,
        !(entry is Compaction) ==> transcript::compacting_since(entries.push(entry))
            == transcript::compacting_since(entries),
        entry is Compaction && !entry->Compaction_active ==> transcript::compacting_since(
            entries.push(entry),
        ) == transcript::compacting_since(entries),
        transcript::compacting_since(Seq::empty()) is None,
{
    assert(entries.push(entry).drop_last() =~= entries);
}

/// The letters on the list of runs: A approves, D rejects, R retries, X cancels.
pub proof fn letters_control_the_run(key: KeyEvent, update: Option<AppUpdateStatus>, c: char)
    requires
        key.code == KeyCode::Char(c),
        !key.modifiers.control,
    ensures
        ({
            let intent = view_keys::view_intent(screen::View::Workflows, update, key);
            &&& c == 'a' ==> intent == ViewIntent::ControlRun('a') && view_keys::control_word('a')
                == "approve"@
            &&& c == 'd' ==> intent == ViewIntent::ControlRun('d') && view_keys::control_word('d')
                == "reject"@
            &&& c == 'r' ==> intent == ViewIntent::ControlRun('r') && view_keys::control_word('r')
                == "retry"@
            &&& c == 'x' ==> intent == ViewIntent::ControlRun('x') && view_keys::control_word('x')
                == "cancel"@
            &&& c != 'a' && c != 'd' && c != 'r' && c != 'x' ==> !(intent is ControlRun)
        }),
{
}

/// What is sent for a letter is its action on the run that is selected.
pub proof fn controls_reach_the_selected_run(s: AppState, c: char, effect: Effect)
    requires
        view_keys::run_command(s, c, effect),
    ensures
        effect is Nothing || (effect is Send && effect->Send_0 is WorkflowControl
            && s.boards.workflow_selected < s.boards.workflow_runs@.len()
            && effect->Send_0->WorkflowControl_run_id
            == s.boards.workflow_runs@[s.boards.workflow_selected as int].run_id
            && effect->Send_0->WorkflowControl_action@ == view_keys::control_word(c)),
        c == 'x' && s.boards.workflow_selected < s.boards.workflow_runs@.len() ==> effect is Send,
{
    let r = choose|r: Option<(String, Option<String>)>| #[trigger]
        boards::control_of(s.boards, view_keys::control_word(c), r) && match r {
            Some((run, step)) => effect matches Effect::Send(
                UiCommand::WorkflowControl { run_id, action, step_id },
            ) && run_id == run && action@ == view_keys::control_word(c) && step_id == step,
            None => effect == Effect::Nothing,
        };
    boards::actions_name_their_run(s.boards, view_keys::control_word(c), r);
}

/// What the keys of the views lead to: Escape goes back, the arrows move by one row, and the
/// letters act on what is selected.
pub proof fn views_know_their_keys(update: Option<AppUpdateStatus>, m: KeyModifiers)
    requires
        !m.control,
    ensures
        ({
            let esc = KeyEvent { code: KeyCode::Esc, modifiers: m };
            &&& view_keys::view_intent(screen::View::BlockViewer, update, esc)
                == (ViewIntent::Show { view: screen::View::Transcript, rewind: true })
            &&& view_keys::view_intent(screen::View::WorkflowArtifact, update, esc)
                == (ViewIntent::Show { view: screen::View::Workflows, rewind: true })
            &&& view_keys::view_intent(screen::View::Workflows, update, esc)
                == (ViewIntent::Show { view: screen::View::Transcript, rewind: false })
            &&& view_keys::view_intent(screen::View::Tasks, update, esc) == (ViewIntent::Show {
                view: screen::View::Transcript,
                rewind: false,
            })
            &&& view_keys::view_intent(screen::View::Dashboard, update, esc) == (ViewIntent::Show {
                view: screen::View::Transcript,
                rewind: false,
            })
            &&& view_keys::view_intent(screen::View::Subagent, update, esc) == (ViewIntent::Show {
                view: screen::View::Tasks,
                rewind: true,
            })
            &&& view_keys::view_intent(
                screen::View::Tasks,
                update,
                KeyEvent { code: KeyCode::Char('k'), modifiers: m },
            ) is KillTask
            &&& view_keys::view_intent(
                screen::View::Tasks,
                update,
                KeyEvent { code: KeyCode::Enter, modifiers: m },
            ) is OpenTask
            &&& view_keys::view_intent(
                screen::View::Dashboard,
                update,
                KeyEvent { code: KeyCode::Enter, modifiers: m },
            ) is OpenSession
            &&& view_keys::view_intent(
                screen::View::Dashboard,
                update,
                KeyEvent { code: KeyCode::Char('n'), modifiers: m },
            ) is NewSession
            &&& view_keys::view_intent(
                screen::View::Dashboard,
                update,
                KeyEvent { code: KeyCode::Char('d'), modifiers: m },
            ) is DeleteSession
            &&& view_keys::view_intent(
                screen::View::Dashboard,
                update,
                KeyEvent { code: KeyCode::Char('s'), modifiers: m },
            ) is StopSession
            &&& view_keys::view_intent(
                screen::View::Dashboard,
                update,
                KeyEvent { code: KeyCode::Char('x'), modifiers: m },
            ) is CloseSession
            &&& view_keys::view_intent(
                screen::View::Dashboard,
                update,
                KeyEvent { code: KeyCode::Char('u'), modifiers: m },
            ) is InstallUpdate <==> (update is Some && update->0 is Available)
        }),
{
}

/// What an intent does in a view: the selected task is stopped, the selected session opened,
/// stopped or closed where that is possible, and nothing is sent by moving.
pub proof fn views_act_on_what_is_selected(
    before: AppState,
    after: AppState,
    intent: ViewIntent,
    page: int,
    effect: Effect,
)
    requires
        view_keys::view_done(before, after, intent, page, effect),
    ensures
        intent is KillTask && before.boards.task_selected < before.boards.subagent_tasks@.len()
            ==> effect is Send && effect->Send_0 is KillTask && effect->Send_0->KillTask_0@
            == before.boards.subagent_tasks@[before.boards.task_selected as int].task_id@,
        intent is OpenSession && before.sessions.dashboard_selected
            < before.sessions.available_sessions@.len()
            && !before.sessions.available_sessions@[before.sessions.dashboard_selected as int].current
            ==> effect is Send && effect->Send_0 is ResumeSession && effect->Send_0->ResumeSession_0@
            == before.sessions.available_sessions@[before.sessions.dashboard_selected as int].path@
            && after.view is Transcript,
        intent is OpenSession && before.sessions.dashboard_selected
            < before.sessions.available_sessions@.len()
            && before.sessions.available_sessions@[before.sessions.dashboard_selected as int].current
            ==> effect is Nothing && after.view is Transcript,
        intent is NewSession ==> effect == Effect::Send(UiCommand::NewSession) && after.view
            is Transcript,
        intent is InstallUpdate ==> effect == Effect::Send(UiCommand::InstallUpdate),
        intent is StopSession && effect is Send ==> effect->Send_0 is StopResident,
        intent is CloseSession && effect is Send ==> effect->Send_0 is CloseResident,
        intent is SelectTask || intent is SelectRun || intent is SelectSession || intent is Show
            || intent is ScrollBack || intent is ScrollForward || intent is Ignore || intent is Pass
            || intent is ToggleTasks || intent is DismissUpdate ==> effect is Nothing,
        intent is DismissUpdate ==> after.header.app_update is None,
        intent is Ignore || intent is Pass ==> after == before,
        intent matches ViewIntent::Show { view, .. } ==> after.view == view,
        intent is ScrollBack && before.scroll.scroll_from_bottom < 1_000_000
            ==> after.scroll.scroll_from_bottom == before.scroll.scroll_from_bottom + 3,
{
}

/// A step in a list moves by as many rows as it is told and stays in the list.
pub proof fn steps_stay_in_the_list(at: int, rows: int, count: int, down: bool)
    requires
        0 <= at < count,
        rows >= 0,
    ensures
        0 <= view_keys::stepped_place(at, rows, count, down) < count,
        down && at + rows < count ==> view_keys::stepped_place(at, rows, count, down) == at + rows,
        !down && at >= rows ==> view_keys::stepped_place(at, rows, count, down) == at - rows,
        down && at + rows >= count ==> view_keys::stepped_place(at, rows, count, down) == count - 1,
        !down && at < rows ==> view_keys::stepped_place(at, rows, count, down) == 0,
{
}

/// The keys of the composer: characters are typed, Enter enters, and the cursor keys move;
/// with Control, the keys for a command give it.
pub proof fn the_composer_knows_its_keys(suggesting: bool, c: char, m: KeyModifiers)
    ensures
        !m.control && !m.alt && !m.logo ==> transcript_keys::text_intent(
            Focus::Prompt,
            suggesting,
            KeyEvent { code: KeyCode::Char(c), modifiers: m },
        ) == TextIntent::Type(c),
        transcript_keys::text_intent(
            Focus::Prompt,
            suggesting,
            KeyEvent { code: KeyCode::Enter, modifiers: m },
        ) == (TextIntent::Enter { modified: m.shift || m.alt, control: m.control }),
        transcript_keys::text_intent(
            Focus::Prompt,
            suggesting,
            KeyEvent { code: KeyCode::Backspace, modifiers: m },
        ) is Erase,
        transcript_keys::text_intent(
            Focus::Prompt,
            suggesting,
            KeyEvent { code: KeyCode::Delete, modifiers: m },
        ) is EraseForward,
        transcript_keys::text_intent(
            Focus::Prompt,
            suggesting,
            KeyEvent { code: KeyCode::Left, modifiers: m },
        ) is CursorLeft,
        transcript_keys::text_intent(
            Focus::Prompt,
            suggesting,
            KeyEvent { code: KeyCode::Right, modifiers: m },
        ) is CursorRight,
        transcript_keys::text_intent(
            Focus::Prompt,
            false,
            KeyEvent { code: KeyCode::Up, modifiers: m },
        ) is PreviousPrompt,
        transcript_keys::text_intent(
            Focus::Prompt,
            false,
            KeyEvent { code: KeyCode::Down, modifiers: m },
        ) is NextPrompt,
        transcript_keys::text_intent(
            Focus::Prompt,
            true,
            KeyEvent { code: KeyCode::Up, modifiers: m },
        ) == (TextIntent::MoveSuggestion { down: false }),
        transcript_keys::text_intent(
            Focus::Prompt,
            true,
            KeyEvent { code: KeyCode::Down, modifiers: m },
        ) == (TextIntent::MoveSuggestion { down: true }),
        transcript_keys::text_intent(
            Focus::Scrollback,
            suggesting,
            KeyEvent { code: KeyCode::Up, modifiers: m },
        ) == (TextIntent::MoveFocus { down: false }),
        transcript_keys::text_intent(
            Focus::Scrollback,
            suggesting,
            KeyEvent { code: KeyCode::Enter, modifiers: m },
        ) is ActivateFocus,
        transcript_keys::text_intent(
            Focus::Prompt,
            suggesting,
            KeyEvent { code: KeyCode::Esc, modifiers: m },
        ) is Escape,
{
}

/// A typed character stands in the draft where the cursor was, whatever had the focus, and the
/// draft has it now. The mark for a file opens the list of files where there are any.
pub proof fn typed_characters_reach_the_draft(before: AppState, after: AppState, c: char)
    requires
        transcript_keys::types_char(before, after, c),
        before.composer.cursor <= before.composer.prompt@.len(),
    ensures
        after.composer.prompt@ == before.composer.prompt@.take(before.composer.cursor as int)
            + seq![c] + before.composer.prompt@.skip(before.composer.cursor as int),
        after.composer.cursor == before.composer.cursor + 1,
        after.focus is Prompt,
        c == '@' && before.offers.available_files@.len() > 0 ==> after.dialog.overlay is FilePicker,
        c != '@' ==> after.dialog.overlay == before.dialog.overlay,
        after.composer.history == before.composer.history,
{
    assert(after.composer.draft().text == after.composer.prompt@);
    assert(after.composer.draft().cursor == after.composer.cursor);
}

/// Scrolling by a page goes as far as a page, and never past an end.
pub proof fn pages_scroll_within_the_transcript(
    before: AppState,
    after: AppState,
    moment: Moment,
    up: bool,
    effect: Effect,
)
    requires
        transcript_keys::text_done(
            before,
            after,
            if up {
                TextIntent::PageUp
            } else {
                TextIntent::PageDown
            },
            moment,
            effect,
        ),
        before.scroll.scroll_from_bottom <= moment.max_scroll,
    ensures
        effect is Nothing,
        after.scroll.scroll_from_bottom <= moment.max_scroll,
        up && before.scroll.scroll_from_bottom + moment.page <= moment.max_scroll
            ==> after.scroll.scroll_from_bottom == before.scroll.scroll_from_bottom + moment.page,
        !up && before.scroll.scroll_from_bottom >= moment.page ==> after.scroll.scroll_from_bottom
            == before.scroll.scroll_from_bottom - moment.page,
        !up && before.scroll.scroll_from_bottom < moment.page ==> after.scroll.scroll_from_bottom
            == 0,
        after.transcript == before.transcript,
{
}

/// The screen moves while a turn runs, something is dragged, the clipboard is read, a
/// compaction runs or work goes on elsewhere, and not otherwise.
pub proof fn screens_move_while_work_goes_on(s: AppState)
    ensures
        s.transcript.streaming ==> events::animated(s),
        s.composer.image_processing_started_at is Some ==> events::animated(s),
        s.scroll.scroll_drag is Some || s.scroll.scrollbar_dragging ==> events::animated(s),
        s.boards.busy() || s.sessions.running() ==> events::animated(s),
        !s.transcript.streaming && s.scroll.scroll_drag is None && !s.scroll.scrollbar_dragging
            && s.composer.image_processing_started_at is None && s.transcript.entries@.len() == 0
            && s.boards.subagent_tasks@.len() == 0 && s.boards.workflow_runs@.len() == 0
            && s.sessions.runtime_sessions@.len() == 0 ==> !events::animated(s),
{
}

/// A screen that does not move is drawn where something has changed, and one that moves at
/// least every thirty-three milliseconds.
pub proof fn changes_are_drawn(dirty: bool, since: Option<u64>)
    ensures
        events::due(false, dirty, since) == dirty,
        events::due(true, dirty, None),
        since matches Some(passed) ==> (events::due(true, dirty, since) <==> passed >= 33),
        events::wait_of(true, None) == 0,
        since matches Some(passed) ==> (passed <= 33 ==> events::wait_of(true, since) == 33 - passed),
{
}

/// A text from the clipboard is pasted where the cursor is, an image is attached, and a
/// failure is told; the clipboard can be read again.
pub proof fn clipboards_come_in(
    before: AppState,
    after: AppState,
    result: Result<ClipboardPayload, String>,
)
    requires
        before.wf(),
        events::clipboard_loaded(before, after, result),
    ensures
        after.composer.image_processing_started_at is None,
        result matches Ok(ClipboardPayload::Image(image)) ==> after.composer.image_attachments@.len()
            == before.composer.image_attachments@.len() + 1
            && after.composer.image_attachments@.last().path == image.path && after.composer.prompt
            == before.composer.prompt,
        result matches Ok(ClipboardPayload::Text(content)) ==> (!content@.contains('\r')
            && content@.len() > 0 ==> after.composer.prompt@ == before.composer.prompt@.take(
            before.composer.cursor as int,
        ) + content@ + before.composer.prompt@.skip(before.composer.cursor as int)),
        result matches Err(error) ==> after.composer.prompt == before.composer.prompt
            && text::finishes_with(after.status@, error@),
{
    match result {
        Ok(ClipboardPayload::Text(content)) => {
            composer::line_ends_become_feeds(content@);
            if !content@.contains('\r') && content@.len() > 0 {
                let d = before.composer.draft();
                assert(after.composer.draft().text == after.composer.prompt@);
                assert(after.composer.prompt@ =~= d.text.take(d.cursor) + content@ + d.text.skip(
                    d.cursor,
                ));
            }
        },
        Err(error) => {
            let all = after.status@;
            assert(all.subrange(all.len() - error@.len(), all.len() as int) =~= error@);
        },
        _ => {},
    }
}

/// What the terminal pastes goes into the editor where it is open, into the draft where it has
/// the focus and no dialog is open, and nowhere otherwise.
pub proof fn pasted_text_finds_its_place(before: AppState, after: AppState, content: Seq<char>)
    requires
        events::terminal_pasted(before, after, content),
    ensures
        !(before.dialog.overlay is PasteEditor) ==> after.dialog.overlay == before.dialog.overlay
            && after.dialog.overlay_query == before.dialog.overlay_query,
        before.dialog.overlay is PasteEditor ==> after.composer == before.composer,
        !(before.dialog.overlay is PasteEditor) && (!(before.focus is Prompt)
            || !(before.dialog.overlay is Closed)) ==> after == before,
{
}

/// The client starts on the dashboard with what the backend offers, with its first model, and
/// with the list of sessions where that was asked for.
pub proof fn clients_start_on_the_dashboard(
    s: AppState,
    b: events::TuiBootstrap,
    theme: crate::state_types::ThemeMode,
    cwd: Option<String>,
    branch: Option<String>,
)
    requires
        events::started(s, b, theme, cwd, branch),
    ensures
        s.view is Dashboard,
        s.theme_mode == theme,
        s.offers.available_models == b.models,
        s.offers.available_files == b.files,
        s.sessions.available_sessions == b.sessions,
        b.models@.len() > 0 ==> s.model@ == b.models@[0].display_name@,
        b.open_resume ==> s.dialog.overlay is SessionPicker,
        !b.open_resume ==> s.dialog.overlay is Closed,
        cwd matches Some(path) ==> s.header.cwd == path,
        s.transcript.entries@.len() == 0,
        s.permission_mode is Normal,
        s.composer.prompt@.len() == 0,
{
    reveal_strlit("");
}

} // verus!
