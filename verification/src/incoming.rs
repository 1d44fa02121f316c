//! What the screen makes of the backend's events.

use vstd::prelude::*;

use crate::boards::Boards;
use crate::boards::TaskTranscript;
use crate::composer_state;
use crate::composer_state::Composer;
use crate::dialog;
use crate::dialog::Dialog;
use crate::entry_view;
use crate::entry_view::EntryView;
use crate::harness::AgentEvent;
use crate::harness::AuthChoice;
use crate::harness::CompactionPhase;
use crate::harness::ModelInfo;
use crate::harness::PlanEntry;
use crate::harness::RuntimeResources;
use crate::harness::SessionTreeEntry;
use crate::harness::SubagentTask;
use crate::harness::ToolResult;
use crate::harness::Usage;
use crate::harness::WorkflowRunSnapshot;
use crate::offers::Offers;
use crate::paste_editor::PasteEditor;
use crate::result_diff;
use crate::screen;
use crate::scrolling::Scroll;
use crate::sessions::SessionList;
use crate::slash;
use crate::state::AppState;
use crate::state::Header;
use crate::state_types::Entry;
use crate::state_types::Focus;
use crate::state_types::OverlayKind;
use crate::state_types::PendingOauth;
use crate::state_types::PendingPermission;
use crate::state_types::ToolStatus;
use crate::streaming;
use crate::streaming::Stream;
use crate::text;
use crate::tool_calls;
use crate::tool_calls::ToolFamily;
use crate::transcript;
use crate::transcript::Transcript;
use crate::tree;
use crate::tree::SessionTree;

verus! {

broadcast use vstd::string::group_string_axioms;

/// When an event came: in milliseconds, and as the clock shows it.
#[derive(Clone, Debug)]
pub struct Arrival {
    pub now: u64,
    pub clock: String,
}

/// The blocks of the transcript.
pub open spec fn blocks(s: AppState) -> Seq<EntryView> {
    entry_view::entry_views(s.transcript.entries@)
}

/// Only the blocks have changed, to these.
pub open spec fn blocks_to(before: AppState, after: AppState, views: Seq<EntryView>) -> bool {
    &&& after == (AppState {
        transcript: Transcript { entries: after.transcript.entries, ..before.transcript },
        ..before
    })
    &&& blocks(after) == views
}

/// The number that follows, from the start again behind the last one.
pub open spec fn next_epoch(epoch: u64) -> u64 {
    if epoch == u64::MAX {
        0
    } else {
        (epoch + 1) as u64
    }
}

/// A session takes the place of the present one: the transcript is empty and
/// its blocks get new names, and neither a draft nor a queue nor a question is
/// left over.
pub open spec fn session_reset(before: AppState, after: AppState) -> bool {
    &&& after == (AppState {
        view: screen::View::Transcript,
        focus: Focus::Prompt,
        status: after.status,
        header: after.header,
        composer: after.composer,
        transcript: after.transcript,
        scroll: Scroll {
            scroll_from_bottom: 0,
            scroll_drag: None,
            scrollbar_dragging: false,
            ..before.scroll
        },
        dialog: after.dialog,
        editor: PasteEditor { editing_paste: None, ..before.editor },
        pending_permission: None,
        pending_oauth: None,
        ..before
    })
    &&& after.status@ == ""@
    &&& after.header == (Header {
        tasks_complete: 0,
        tasks_total: 0,
        plan_entries: after.header.plan_entries,
        ..before.header
    })
    &&& after.header.plan_entries@.len() == 0
    &&& after.composer.viewed_image_id is None
    &&& composer_state::cleared(
        before.composer,
        (Composer { viewed_image_id: before.composer.viewed_image_id, ..after.composer }),
    )
    &&& transcript::fresh((Transcript { entry_epoch: 0, ..after.transcript }))
    &&& after.transcript.entry_epoch == next_epoch(before.transcript.entry_epoch)
    &&& dialog::opened(after.dialog, OverlayKind::Closed, 0, None)
}

/// A model in the list that says how much it can hold.
pub open spec fn sized_model(models: Seq<ModelInfo>, id: Seq<char>, i: int) -> bool {
    0 <= i < models.len() && models[i].id@ == id && models[i].context_window is Some && forall|
        j: int,
    |
        0 <= j < i ==> !((#[trigger] models[j]).id@ == id && models[j].context_window is Some)
}

/// The model has changed, and with it how much the context can hold.
pub open spec fn model_changed(
    before: AppState,
    after: AppState,
    id: Seq<char>,
    name: String,
) -> bool {
    let models = before.offers.available_models@;
    &&& after == (AppState {
        model: name,
        header: Header { context_limit: after.header.context_limit, ..before.header },
        ..before
    })
    &&& if exists|i: int| sized_model(models, id, i) {
        exists|i: int| #[trigger]
            sized_model(models, id, i) && after.header.context_limit
                == models[i].context_window->0
    } else {
        after.header.context_limit == before.header.context_limit
    }
}

/// The draft is replaced, and the prompt takes the keys.
pub open spec fn prefilled(before: AppState, after: AppState, words: Seq<char>) -> bool {
    &&& after == (AppState { composer: after.composer, focus: Focus::Prompt, ..before })
    &&& composer_state::edited(
        before.composer,
        after.composer,
        composer_state::plain_draft(words),
    )
}

/// How many messages wait, in words.
pub open spec fn queue_status(count: nat) -> Seq<char> {
    if count == 0 {
        ""@
    } else {
        text::decimal(count) + " queued"@
    }
}

/// The queue has changed, and the status says how much waits.
pub open spec fn queue_changed(
    before: AppState,
    after: AppState,
    steering: Vec<String>,
    follow_up: Vec<String>,
) -> bool {
    &&& after == (AppState {
        status: after.status,
        transcript: Transcript {
            queued_steering: steering,
            queued_follow_up: follow_up,
            ..before.transcript
        },
        ..before
    })
    &&& after.status@ == queue_status(steering@.len() + follow_up@.len())
}

/// What the backend offers has changed.
pub open spec fn resources_changed(before: AppState, resources: RuntimeResources) -> AppState {
    AppState {
        offers: Offers {
            runtime_commands: resources.commands,
            context_files: resources.context_files,
            runtime_extensions: resources.extensions,
            ..before.offers
        },
        ..before
    }
}

/// The names that a sign-in lets choose between.
pub open spec fn choice_ids(options: Seq<AuthChoice>) -> Seq<Seq<char>> {
    options.map_values(|choice: AuthChoice| choice.id@)
}

/// The labels that a sign-in lets choose between.
pub open spec fn choice_labels(options: Seq<AuthChoice>) -> Seq<Seq<char>> {
    options.map_values(|choice: AuthChoice| choice.label@)
}

/// The choices of a sign-in, none if it has none.
pub open spec fn choices_of(options: Option<Vec<AuthChoice>>) -> Seq<AuthChoice> {
    match options {
        Some(list) => list@,
        None => Seq::<AuthChoice>::empty(),
    }
}

/// A sign-in asks for a choice or for a text.
pub open spec fn asks(
    before: AppState,
    after: AppState,
    kind: OverlayKind,
    id: Seq<char>,
    message: Option<String>,
    options: Option<Vec<AuthChoice>>,
) -> bool {
    &&& after == (AppState {
        dialog: after.dialog,
        pending_oauth: after.pending_oauth,
        ..before
    })
    &&& dialog::opened(after.dialog, kind, 0, None)
    &&& match after.pending_oauth {
        Some(request) => {
            &&& request.id@ == id
            &&& request.message@ == tool_calls::or_nothing(entry_view::option_view(message))
            &&& text::views(request.option_ids@) == choice_ids(choices_of(options))
            &&& text::views(request.option_labels@) == choice_labels(choices_of(options))
        },
        None => false,
    }
}

/// What a sign-in says that only has to be read: the message, where to go, and
/// the code to enter there.
pub open spec fn sign_in_lines(
    message: Option<String>,
    url: Option<String>,
    verification_uri: Option<String>,
    user_code: Option<String>,
) -> Seq<Seq<char>> {
    let none = Seq::<Seq<char>>::empty();
    (match message {
        Some(words) => seq![words@],
        None => none,
    }) + (match url {
        Some(address) => seq![address@],
        None => match verification_uri {
            Some(address) => seq![address@],
            None => none,
        },
    }) + (match user_code {
        Some(code) => seq!["Code: "@ + code@],
        None => none,
    })
}

/// A sign-in has finished.
pub open spec fn signed_in(before: AppState, after: AppState, provider: Seq<char>) -> bool {
    &&& after.status@ == "logged in to "@ + provider
    &&& slash::notes(
        before,
        (AppState { status: before.status, ..after }),
        seq!["Authentication successful: "@ + provider],
    )
}

/// The row of a list of entries that is selected first: the last one of the
/// active path, else the last one.
pub open spec fn first_row(
    entries: Seq<SessionTreeEntry>,
    places: Seq<usize>,
    path: bool,
    n: int,
) -> int
    decreases n,
{
    if n <= 0 || n > places.len() {
        if places.len() == 0 {
            0
        } else {
            places.len() - 1
        }
    } else if !path || entries[places[n - 1] as int].active {
        n - 1
    } else {
        first_row(entries, places, path, n - 1)
    }
}

/// The entries of the session are listed, all of them or the user's.
pub open spec fn tree_listed(
    before: AppState,
    after: AppState,
    entries: Vec<SessionTreeEntry>,
    user_only: bool,
) -> bool {
    let places = tree::all_listed(after.tree, Seq::<char>::empty());
    &&& after == (AppState {
        dialog: after.dialog,
        tree: SessionTree { session_tree: entries, ..before.tree },
        ..before
    })
    &&& dialog::opened(
        after.dialog,
        if user_only {
            OverlayKind::ForkPicker
        } else {
            OverlayKind::TreePicker
        },
        first_row(entries@, places, !user_only, places.len() as int) as usize,
        None,
    )
}

/// The transcript while a turn runs.
pub open spec fn running(s: AppState, now: u64) -> Transcript {
    streaming::turn_begun(s.transcript, s.header.context_used, now)
}

/// Only the transcript has changed, and the status says that a turn runs.
pub open spec fn turn_runs(before: AppState, after: AppState) -> bool {
    &&& after == (AppState { status: after.status, transcript: after.transcript, ..before })
    &&& after.status@ == "generating…"@
}

/// A sum, or the largest number if it does not fit.
pub open spec fn capped_sum(a: int, b: int) -> int {
    if a + b > usize::MAX {
        usize::MAX as int
    } else {
        a + b
    }
}

/// Words of the model have come.
pub open spec fn spoken(before: AppState, after: AppState, words: Seq<char>, at: Arrival) -> bool {
    let base = running(before, at.now);
    &&& turn_runs(before, after)
    &&& after.transcript == (Transcript {
        entries: after.transcript.entries,
        think_tag_open: after.transcript.think_tag_open,
        turn_output_chars: capped_sum(
            base.turn_output_chars as int,
            words.len() as int,
        ) as usize,
        ..base
    })
    &&& streaming::told(
        (Stream { entries: blocks(before), thinking: before.transcript.think_tag_open }),
        words,
        at.clock@,
    ) == (Stream { entries: blocks(after), thinking: after.transcript.think_tag_open })
}

/// A thought of the model has come.
pub open spec fn reasoned(before: AppState, after: AppState, words: Seq<char>, now: u64) -> bool {
    &&& turn_runs(before, after)
    &&& after.transcript == (Transcript {
        entries: after.transcript.entries,
        ..running(before, now)
    })
    &&& blocks(after) == streaming::thought(blocks(before), words)
}

/// The block of a tool call that was started.
pub open spec fn call_block(id: Seq<char>, name: Seq<char>, args: Seq<char>, now: u64) -> EntryView {
    let family = tool_calls::family_of(text::ascii_lowered(name));
    match (family, tool_calls::edit_changes(args)) {
        (ToolFamily::Edit, Some(lines)) => EntryView::Diff {
            id,
            path: tool_calls::path_of(args),
            lines,
            expanded: true,
        },
        _ => EntryView::Tool {
            id,
            label: tool_calls::label_of(family, name),
            detail: tool_calls::detail_of(family, args),
            status: ToolStatus::Running,
            duration: None,
            started_at: Some(now),
            result: None,
            expanded: false,
        },
    }
}

/// A tool call has started.
pub open spec fn call_started(
    before: AppState,
    after: AppState,
    id: Seq<char>,
    name: Seq<char>,
    args: Seq<char>,
    now: u64,
) -> bool {
    &&& turn_runs(before, after)
    &&& after.transcript == (Transcript {
        entries: after.transcript.entries,
        ..running(before, now)
    })
    &&& blocks(after) == if tool_calls::hidden(text::ascii_lowered(name)) {
        blocks(before)
    } else {
        blocks(before).push(call_block(id, name, args, now))
    }
}

/// The block is the tool call of this name.
pub open spec fn is_call(entry: EntryView, call: Seq<char>) -> bool {
    match entry {
        EntryView::Tool { id, .. } => id == call,
        EntryView::Diff { id, .. } => id == call,
        _ => false,
    }
}

/// The last block of a tool call.
pub open spec fn last_call(entries: Seq<EntryView>, call: Seq<char>) -> Option<int>
    decreases entries.len(),
{
    if entries.len() == 0 {
        None
    } else if is_call(entries.last(), call) {
        Some(entries.len() - 1)
    } else {
        last_call(entries.drop_last(), call)
    }
}

/// How long something took, in words.
pub open spec fn took(milliseconds: Option<u64>) -> Option<Seq<char>> {
    match milliseconds {
        Some(n) => Some(tool_calls::duration_of(n as nat)),
        None => None,
    }
}

/// The diff that a tool call reports.
pub open spec fn reported_diff(result: ToolResult) -> Option<Seq<char>> {
    match result.details {
        Some(details) => tool_calls::json_member(details@, "diff"@),
        None => None,
    }
}

/// A tool call that has ended. An edit shows the diff that it reports in place
/// of the one that was expected.
pub open spec fn call_done(
    entry: EntryView,
    result: ToolResult,
    is_error: bool,
    milliseconds: Option<u64>,
) -> EntryView {
    match entry {
        EntryView::Diff { id, path, lines, expanded } => EntryView::Diff {
            id,
            path,
            lines: match reported_diff(result) {
                Some(diff) => if is_error {
                    lines
                } else {
                    result_diff::reported(diff)
                },
                None => lines,
            },
            expanded,
        },
        EntryView::Tool { id, label, detail, expanded, .. } => EntryView::Tool {
            id,
            label,
            detail,
            status: if is_error {
                ToolStatus::Error
            } else {
                ToolStatus::Success
            },
            duration: took(milliseconds),
            started_at: None,
            result: Some(result.content@),
            expanded,
        },
        other => other,
    }
}

/// The blocks after the end of a tool call.
pub open spec fn calls_done(
    entries: Seq<EntryView>,
    call: Seq<char>,
    result: ToolResult,
    is_error: bool,
    milliseconds: Option<u64>,
) -> Seq<EntryView> {
    match last_call(entries, call) {
        Some(i) => entries.update(i, call_done(entries[i], result, is_error, milliseconds)),
        None => entries,
    }
}

/// How many of the first steps of a plan are done.
pub open spec fn steps_done(steps: Seq<PlanEntry>, n: int) -> int
    decreases n,
{
    if n <= 0 || n > steps.len() {
        0
    } else {
        steps_done(steps, n - 1) + if steps[n - 1].status@ == "completed"@ {
            1int
        } else {
            0int
        }
    }
}

/// The last block that shows the plan.
pub open spec fn last_plan(entries: Seq<EntryView>) -> Option<int>
    decreases entries.len(),
{
    if entries.len() == 0 {
        None
    } else if entries.last() is Plan {
        Some(entries.len() - 1)
    } else {
        last_plan(entries.drop_last())
    }
}

/// The blocks with the plan, unfolded while something is left of it.
pub open spec fn plan_shown(entries: Seq<EntryView>, expanded: bool) -> Seq<EntryView> {
    match last_plan(entries) {
        Some(i) => entries.update(i, EntryView::Plan { expanded }),
        None => entries.push(EntryView::Plan { expanded }),
    }
}

/// The plan has changed.
pub open spec fn planned(before: AppState, after: AppState, steps: Vec<PlanEntry>) -> bool {
    let done = steps_done(steps@, steps@.len() as int);
    &&& after == (AppState {
        header: Header {
            plan_entries: steps,
            tasks_complete: done as usize,
            tasks_total: steps@.len() as usize,
            ..before.header
        },
        transcript: Transcript { entries: after.transcript.entries, ..before.transcript },
        ..before
    })
    &&& blocks(after) == plan_shown(blocks(before), done < steps@.len())
}

/// A tool call waits for leave to run.
pub open spec fn leave_asked(
    before: AppState,
    after: AppState,
    id: String,
    tool: String,
    reason: String,
) -> bool {
    &&& after == (AppState {
        dialog: after.dialog,
        pending_permission: Some(PendingPermission { id, tool, reason }),
        ..before
    })
    &&& dialog::opened(after.dialog, OverlayKind::Permission, 0, None)
}

/// A turn is over.
pub open spec fn turn_done(before: AppState, after: AppState, usage: Usage) -> bool {
    let used = usage.input_tokens + usage.output_tokens;
    &&& after == (AppState {
        status: after.status,
        header: Header {
            context_used: if used == 0 {
                before.header.context_used
            } else if used > u64::MAX {
                u64::MAX
            } else {
                used as u64
            },
            ..before.header
        },
        transcript: after.transcript,
        ..before
    })
    &&& after.status@ == ""@
    &&& streaming::turn_ended(before.transcript, after.transcript)
}

/// The backend has failed: the turn is over, and the transcript says why.
pub open spec fn failed(before: AppState, after: AppState, message: Seq<char>, clock: Seq<char>) -> bool {
    &&& after == (AppState { status: after.status, transcript: after.transcript, ..before })
    &&& after.status@ == "error"@
    &&& after.transcript == (Transcript {
        entries: after.transcript.entries,
        streaming: false,
        turn_started_at: None,
        turn_output_chars: 0,
        think_tag_open: false,
        ..before.transcript
    })
    &&& blocks(after) == streaming::thoughts_ended(blocks(before)).push(
        EntryView::Assistant { lines: seq!["Error: "@ + message], timestamp: clock },
    )
}

/// A compaction has begun.
pub open spec fn compaction_begun(
    before: AppState,
    after: AppState,
    tokens_before: Option<u64>,
    now: u64,
) -> bool {
    &&& after == (AppState {
        status: after.status,
        transcript: Transcript { entries: after.transcript.entries, ..before.transcript },
        ..before
    })
    &&& after.status@ == "compacting…"@
    &&& blocks(after) == blocks(before).push(
        EntryView::Compaction {
            summary: ""@,
            active: true,
            tokens_before,
            tokens_after: None,
            error: None,
            started_at: Some(now),
        },
    )
}

/// The block is a compaction that runs.
pub open spec fn compacting(entry: EntryView) -> bool {
    match entry {
        EntryView::Compaction { active, .. } => active,
        _ => false,
    }
}

/// The last compaction that runs.
pub open spec fn last_compacting(entries: Seq<EntryView>) -> Option<int>
    decreases entries.len(),
{
    if entries.len() == 0 {
        None
    } else if compacting(entries.last()) {
        Some(entries.len() - 1)
    } else {
        last_compacting(entries.drop_last())
    }
}

/// The blocks after the end of a compaction: it takes the place of the one
/// that runs, or of none.
pub open spec fn compactions_done(entries: Seq<EntryView>, block: EntryView) -> Seq<EntryView> {
    match last_compacting(entries) {
        Some(i) => entries.update(i, block),
        None => entries.push(block),
    }
}

/// A compaction has ended.
pub open spec fn compaction_ended(
    before: AppState,
    after: AppState,
    summary: Option<String>,
    tokens_before: Option<u64>,
    tokens_after: Option<u64>,
    error: Option<String>,
) -> bool {
    &&& after == (AppState {
        status: after.status,
        header: Header {
            context_used: match tokens_after {
                Some(n) => n,
                None => before.header.context_used,
            },
            ..before.header
        },
        transcript: Transcript { entries: after.transcript.entries, ..before.transcript },
        ..before
    })
    &&& after.status@ == if error is Some {
        "compaction failed"@
    } else {
        "compacted"@
    }
    &&& blocks(after) == compactions_done(
        blocks(before),
        EntryView::Compaction {
            summary: tool_calls::or_nothing(entry_view::option_view(summary)),
            active: false,
            tokens_before,
            tokens_after,
            error: entry_view::option_view(error),
            started_at: None,
        },
    )
}

/// A compaction of an earlier time.
pub open spec fn old_compaction(tokens_before: Option<u64>) -> EntryView {
    EntryView::Compaction {
        summary: ""@,
        active: false,
        tokens_before,
        tokens_after: None,
        error: None,
        started_at: None,
    }
}

/// The backend says whether a turn runs.
pub open spec fn runtime_told(before: AppState, after: AppState, idle: bool) -> bool {
    if idle {
        &&& after == (AppState { transcript: after.transcript, ..before })
        &&& streaming::turn_ended(before.transcript, after.transcript)
    } else {
        after == (AppState {
            transcript: Transcript { streaming: true, ..before.transcript },
            ..before
        })
    }
}

/// How far a subagent has come.
pub open spec fn task_progress(status: Seq<char>) -> ToolStatus {
    if status == "completed"@ {
        ToolStatus::Success
    } else if status == "failed"@ || status == "cancelled"@ || status == "interrupted"@ {
        ToolStatus::Error
    } else {
        ToolStatus::Running
    }
}

/// The name of the block of a subagent.
pub open spec fn task_call(task_id: Seq<char>) -> Seq<char> {
    "subagent:"@ + task_id
}

/// The block of a subagent.
pub open spec fn task_block(task: SubagentTask, expanded: bool) -> EntryView {
    EntryView::Tool {
        id: task_call(task.task_id@),
        label: "Agent"@,
        detail: task.description@,
        status: task_progress(task.status@),
        duration: Some(tool_calls::duration_of(task.duration_ms as nat)),
        started_at: None,
        result: tool_calls::first_of(
            entry_view::option_view(task.output),
            entry_view::option_view(task.error),
        ),
        expanded,
    }
}

/// Whether a block is unfolded that can be folded.
pub open spec fn unfolded(entry: EntryView) -> bool {
    match entry {
        EntryView::Tool { expanded, .. } => expanded,
        EntryView::Diff { expanded, .. } => expanded,
        _ => false,
    }
}

/// The blocks with that of a subagent: it has one, which stays folded or
/// unfolded.
pub open spec fn task_shown(entries: Seq<EntryView>, task: SubagentTask) -> Seq<EntryView> {
    match last_call(entries, task_call(task.task_id@)) {
        Some(i) => entries.update(i, task_block(task, unfolded(entries[i]))),
        None => entries.push(task_block(task, false)),
    }
}

/// The first task of this name.
pub open spec fn first_task(tasks: Seq<SubagentTask>, id: Seq<char>, i: int) -> bool {
    0 <= i < tasks.len() && tasks[i].task_id@ == id && forall|j: int|
        0 <= j < i ==> (#[trigger] tasks[j]).task_id@ != id
}

/// The list with a task: in its place, or behind the others.
pub open spec fn task_kept(
    before: Seq<SubagentTask>,
    after: Seq<SubagentTask>,
    task: SubagentTask,
) -> bool {
    if exists|i: int| first_task(before, task.task_id@, i) {
        exists|i: int| #[trigger]
            first_task(before, task.task_id@, i) && after == before.update(i, task)
    } else {
        after == before.push(task)
    }
}

/// A subagent has reported how far it has come. Its first report unfolds the
/// group that its block begins.
pub open spec fn task_told(before: AppState, after: AppState, task: SubagentTask) -> bool {
    &&& after == (AppState {
        boards: Boards { subagent_tasks: after.boards.subagent_tasks, ..before.boards },
        transcript: Transcript {
            entries: after.transcript.entries,
            expanded_tool_groups: after.transcript.expanded_tool_groups,
            ..before.transcript
        },
        ..before
    })
    &&& after.transcript.expanded_tool_groups@ == match last_call(
        blocks(before),
        task_call(task.task_id@),
    ) {
        Some(_) => before.transcript.expanded_tool_groups@,
        None => before.transcript.expanded_tool_groups@.push(blocks(before).len() as usize),
    }
    &&& task_kept(before.boards.subagent_tasks@, after.boards.subagent_tasks@, task)
    &&& blocks(after) == task_shown(blocks(before), task)
}

/// The first transcript of a task.
pub open spec fn first_report(all: Seq<TaskTranscript>, id: Seq<char>, i: int) -> bool {
    0 <= i < all.len() && all[i].task_id@ == id && forall|j: int|
        0 <= j < i ==> (#[trigger] all[j]).task_id@ != id
}

/// A subagent's event was kept behind its others.
pub open spec fn report_kept(
    before: Seq<TaskTranscript>,
    after: Seq<TaskTranscript>,
    task_id: String,
    event: String,
) -> bool {
    if exists|i: int| first_report(before, task_id@, i) {
        exists|i: int| #[trigger]
            first_report(before, task_id@, i) && after.len() == before.len() && after[i].task_id
                == before[i].task_id && after[i].events@ == before[i].events@.push(event) && (
            forall|j: int| 0 <= j < before.len() && j != i ==> #[trigger] after[j] == before[j])
    } else {
        &&& after.len() == before.len() + 1
        &&& after.drop_last() == before
        &&& after.last().task_id == task_id
        &&& after.last().events@ == seq![event]
    }
}

/// A subagent's event has come.
pub open spec fn report_told(
    before: AppState,
    after: AppState,
    task_id: String,
    event: String,
) -> bool {
    &&& after == (AppState {
        boards: Boards { subagent_transcripts: after.boards.subagent_transcripts, ..before.boards },
        ..before
    })
    &&& report_kept(
        before.boards.subagent_transcripts@,
        after.boards.subagent_transcripts@,
        task_id,
        event,
    )
}

/// The first run of this name.
pub open spec fn first_run(runs: Seq<WorkflowRunSnapshot>, id: Seq<char>, i: int) -> bool {
    0 <= i < runs.len() && runs[i].run_id@ == id && forall|j: int|
        0 <= j < i ==> (#[trigger] runs[j]).run_id@ != id
}

/// The list with a run: in its place, or behind the others.
pub open spec fn run_kept(
    before: Seq<WorkflowRunSnapshot>,
    after: Seq<WorkflowRunSnapshot>,
    run: WorkflowRunSnapshot,
) -> bool {
    if exists|i: int| first_run(before, run.run_id@, i) {
        exists|i: int| #[trigger]
            first_run(before, run.run_id@, i) && after == before.update(i, run)
    } else {
        after == before.push(run)
    }
}

/// A workflow has reported how far it has come.
pub open spec fn run_told(before: AppState, after: AppState, run: WorkflowRunSnapshot) -> bool {
    &&& after == (AppState {
        boards: Boards { workflow_runs: after.boards.workflow_runs, ..before.boards },
        ..before
    })
    &&& run_kept(before.boards.workflow_runs@, after.boards.workflow_runs@, run)
}

/// What an event of the backend does.
pub open spec fn applied(before: AppState, after: AppState, event: AgentEvent, at: Arrival) -> bool {
    match event {
        AgentEvent::SessionReset => session_reset(before, after),
        AgentEvent::UserMessage { text } => blocks_to(
            before,
            after,
            blocks(before).push(EntryView::User { text: text@, timestamp: at.clock@ }),
        ),
        AgentEvent::ModelChanged { id, display_name } => model_changed(
            before,
            after,
            id@,
            display_name,
        ),
        AgentEvent::SessionInfo { summary } => slash::notes(
            before,
            after,
            text::split(summary@, '\n'),
        ),
        AgentEvent::PromptPrefill { text } => prefilled(before, after, text@),
        AgentEvent::ThinkingChanged { level } => after == (AppState {
            thinking_level: level,
            ..before
        }),
        AgentEvent::QueueChanged { steering, follow_up } => queue_changed(
            before,
            after,
            steering,
            follow_up,
        ),
        AgentEvent::ResourcesChanged { resources } => after == resources_changed(before, resources),
        AgentEvent::OauthRequest {
            id,
            kind,
            message,
            url,
            user_code,
            verification_uri,
            options,
            ..
        } => if kind@ == "select"@ {
            asks(before, after, OverlayKind::OauthSelect, id@, message, options)
        } else if kind@ == "prompt"@ {
            asks(before, after, OverlayKind::OauthPrompt, id@, message, options)
        } else {
            slash::notes(
                before,
                after,
                sign_in_lines(message, url, verification_uri, user_code),
            )
        },
        AgentEvent::OauthComplete { provider } => signed_in(before, after, provider@),
        AgentEvent::RewindList { checkpoints } => {
            &&& after == (AppState {
                dialog: after.dialog,
                offers: Offers { rewind_checkpoints: checkpoints, ..before.offers },
                ..before
            })
            &&& dialog::opened(after.dialog, OverlayKind::RewindPicker, 0, None)
        },
        AgentEvent::SessionTree { entries, user_only } => tree_listed(
            before,
            after,
            entries,
            user_only,
        ),
        AgentEvent::TextDelta { text } => spoken(before, after, text@, at),
        AgentEvent::ReasoningDelta { text } => reasoned(before, after, text@, at.now),
        AgentEvent::ToolCallStart { id, name, args } => call_started(
            before,
            after,
            id@,
            name@,
            args@,
            at.now,
        ),
        AgentEvent::ToolCallUpdate { .. } => after == before,
        AgentEvent::ToolCallResult { id, result, is_error, duration_ms } => blocks_to(
            before,
            after,
            calls_done(blocks(before), id@, result, is_error, duration_ms),
        ),
        AgentEvent::PlanUpdate { entries } => planned(before, after, entries),
        AgentEvent::PermissionRequest { id, tool, reason, .. } => leave_asked(
            before,
            after,
            id,
            tool,
            reason,
        ),
        AgentEvent::TurnComplete { usage, .. } => turn_done(before, after, usage),
        AgentEvent::Error { message, .. } => failed(before, after, message@, at.clock@),
        AgentEvent::Compaction { phase, summary, tokens_before, tokens_after, error, .. } =>
            match phase {
            CompactionPhase::Start => compaction_begun(before, after, tokens_before, at.now),
            CompactionPhase::End => compaction_ended(
                before,
                after,
                summary,
                tokens_before,
                tokens_after,
                error,
            ),
        },
        AgentEvent::CompactionIndicator { tokens_before, .. } => blocks_to(
            before,
            after,
            blocks(before).push(old_compaction(tokens_before)),
        ),
        AgentEvent::RuntimeState { idle } => runtime_told(before, after, idle),
        AgentEvent::SubagentUpdate { task } => task_told(before, after, *task),
        AgentEvent::SubagentTranscript { task_id, event } => report_told(
            before,
            after,
            task_id,
            event,
        ),
        AgentEvent::WorkflowUpdate { workflow } => run_told(before, after, *workflow),
        AgentEvent::WorkflowArtifact { artifact } => after == (AppState {
            boards: Boards { workflow_artifact: Some(*artifact), ..before.boards },
            ..before
        }),
        AgentEvent::WorkflowCatalog { workflows } => {
            &&& after == (AppState {
                dialog: after.dialog,
                boards: Boards { workflow_catalog: workflows, ..before.boards },
                ..before
            })
            &&& dialog::opened(after.dialog, OverlayKind::WorkflowPicker, 0, None)
        },
        AgentEvent::WorkflowPreview { preview } => {
            &&& after == (AppState {
                dialog: after.dialog,
                boards: Boards { workflow_preview: Some(*preview), ..before.boards },
                ..before
            })
            &&& dialog::opened(after.dialog, OverlayKind::WorkflowPreview, 0, None)
        },
        AgentEvent::RuntimeSessions { sessions } => after == (AppState {
            sessions: SessionList { runtime_sessions: sessions, ..before.sessions },
            ..before
        }),
        AgentEvent::SessionsChanged { sessions } => after == (AppState {
            sessions: SessionList { available_sessions: sessions, ..before.sessions },
            ..before
        }),
        AgentEvent::ModelsChanged { models } => after == (AppState {
            offers: Offers { available_models: models, ..before.offers },
            ..before
        }),
        AgentEvent::HostCall { .. } => after == before,
    }
}

fn lines_of_one(line: String) -> (r: Vec<String>)
    ensures
        text::views(r@) == seq![line@],
{
    let mut lines: Vec<String> = Vec::new();
    lines.push(line);
    assert(text::views(lines@) =~= seq![line@]);
    lines
}

fn find_sized(models: &Vec<ModelInfo>, id: &str) -> (r: Option<u64>)
    ensures
        match r {
            Some(n) => exists|i: int| #[trigger]
                sized_model(models@, id@, i) && models@[i].context_window == Some(n),
            None => forall|i: int| !sized_model(models@, id@, i),
        },
{
    let mut i: usize = 0;
    while i < models.len()
        invariant
            i <= models@.len(),
            forall|j: int|
                0 <= j < i ==> !((#[trigger] models@[j]).id@ == id@
                    && models@[j].context_window is Some),
        decreases models@.len() - i,
    {
        if text::same_text(models[i].id.as_str(), id) {
            if let Some(n) = models[i].context_window {
                assert(sized_model(models@, id@, i as int));
                return Some(n);
            }
        }
        i += 1;
    }
    None
}

fn choice_lists(options: &Option<Vec<AuthChoice>>) -> (r: (Vec<String>, Vec<String>))
    ensures
        text::views(r.0@) == choice_ids(choices_of(*options)),
        text::views(r.1@) == choice_labels(choices_of(*options)),
{
    let mut ids: Vec<String> = Vec::new();
    let mut labels: Vec<String> = Vec::new();
    if let Some(list) = options {
        let mut i: usize = 0;
        while i < list.len()
            invariant
                i <= list@.len(),
                ids@.len() == i,
                labels@.len() == i,
                forall|k: int| 0 <= k < i ==> (#[trigger] ids@[k])@ == list@[k].id@,
                forall|k: int| 0 <= k < i ==> (#[trigger] labels@[k])@ == list@[k].label@,
            decreases list@.len() - i,
        {
            ids.push(list[i].id.clone());
            labels.push(list[i].label.clone());
            i += 1;
        }
    }
    assert(text::views(ids@) =~= choice_ids(choices_of(*options)));
    assert(text::views(labels@) =~= choice_labels(choices_of(*options)));
    (ids, labels)
}

fn words_or_nothing(o: Option<String>) -> (r: String)
    ensures
        r@ == tool_calls::or_nothing(entry_view::option_view(o)),
{
    match o {
        Some(s) => s,
        None => {
            let none: String = String::new();
            assert(none@ =~= Seq::<char>::empty());
            none
        },
    }
}

fn sign_in_texts(
    message: Option<String>,
    url: Option<String>,
    verification_uri: Option<String>,
    user_code: Option<String>,
) -> (r: Vec<String>)
    ensures
        text::views(r@) == sign_in_lines(message, url, verification_uri, user_code),
{
    let mut lines: Vec<String> = Vec::new();
    if let Some(words) = message {
        lines.push(words);
    }
    if let Some(address) = url {
        lines.push(address);
    } else if let Some(address) = verification_uri {
        lines.push(address);
    }
    if let Some(code) = user_code {
        lines.push(text::joined("Code: ", code.as_str()));
    }
    assert(text::views(lines@) =~= sign_in_lines(message, url, verification_uri, user_code));
    lines
}

fn find_row(entries: &Vec<SessionTreeEntry>, places: &Vec<usize>, path: bool) -> (r: usize)
    requires
        forall|k: int| 0 <= k < places@.len() ==> #[trigger] places@[k] < entries@.len(),
    ensures
        r == first_row(entries@, places@, path, places@.len() as int),
{
    let mut n: usize = places.len();
    while n > 0
        invariant
            n <= places@.len(),
            forall|k: int| 0 <= k < places@.len() ==> #[trigger] places@[k] < entries@.len(),
            first_row(entries@, places@, path, places@.len() as int) == first_row(
                entries@,
                places@,
                path,
                n as int,
            ),
        decreases n,
    {
        if !path || entries[places[n - 1]].active {
            return n - 1;
        }
        n -= 1;
    }
    if places.len() == 0 {
        0
    } else {
        places.len() - 1
    }
}

fn count_done(steps: &Vec<PlanEntry>) -> (r: usize)
    ensures
        r == steps_done(steps@, steps@.len() as int),
        r <= steps@.len(),
{
    let mut i: usize = 0;
    let mut done: usize = 0;
    while i < steps.len()
        invariant
            i <= steps@.len(),
            done <= i,
            done == steps_done(steps@, i as int),
        decreases steps@.len() - i,
    {
        if text::same_text(steps[i].status.as_str(), "completed") {
            done += 1;
        }
        i += 1;
    }
    done
}

fn find_diff(result: &ToolResult) -> (r: Option<String>)
    ensures
        entry_view::option_view(r) == reported_diff(*result),
{
    match &result.details {
        Some(details) => tool_calls::read_member(details.as_str(), "diff"),
        None => None,
    }
}

fn duration_words(milliseconds: Option<u64>) -> (r: Option<String>)
    ensures
        entry_view::option_view(r) == took(milliseconds),
{
    match milliseconds {
        Some(n) => Some(tool_calls::duration_text(n)),
        None => None,
    }
}

impl Entry {
    fn names_call(&self, call: &str) -> (r: bool)
        ensures
            r == is_call(entry_view::entry_view(*self), call@),
    {
        match self {
            Entry::Tool { id, .. } => text::same_text(id.as_str(), call),
            Entry::Diff { id, .. } => text::same_text(id.as_str(), call),
            _ => false,
        }
    }

    fn finish_call(&mut self, result: ToolResult, is_error: bool, milliseconds: Option<u64>)
        ensures
            entry_view::entry_view(*final(self)) == call_done(
                entry_view::entry_view(*old(self)),
                result,
                is_error,
                milliseconds,
            ),
    {
        match self {
            Entry::Tool { status, duration, started_at, result: output, .. } => {
                if is_error {
                    *status = ToolStatus::Error;
                } else {
                    *status = ToolStatus::Success;
                }
                *duration = duration_words(milliseconds);
                *started_at = None;
                *output = Some(result.content);
            },
            Entry::Diff { lines, .. } => {
                if !is_error {
                    if let Some(diff) = find_diff(&result) {
                        *lines = result_diff::read_diff(diff.as_str());
                    }
                }
            },
            _ => {},
        }
    }

    fn is_compacting(&self) -> (r: bool)
        ensures
            r == compacting(entry_view::entry_view(*self)),
    {
        match self {
            Entry::Compaction { active, .. } => *active,
            _ => false,
        }
    }
}

impl Transcript {
    fn find_call(&self, call: &str) -> (r: Option<usize>)
        ensures
            match r {
                Some(i) => i < self.entries@.len() && last_call(
                    entry_view::entry_views(self.entries@),
                    call@,
                ) == Some(i as int),
                None => last_call(entry_view::entry_views(self.entries@), call@) is None,
            },
    {
        let ghost views = entry_view::entry_views(self.entries@);
        let mut end: usize = self.entries.len();
        assert(views.take(end as int) =~= views);
        while end > 0
            invariant
                end <= self.entries@.len(),
                views == entry_view::entry_views(self.entries@),
                last_call(views, call@) == last_call(views.take(end as int), call@),
            decreases end,
        {
            proof {
                assert(views.take(end as int).last() == entry_view::entry_view(
                    self.entries@[end - 1],
                ));
                assert(views.take(end as int).drop_last() =~= views.take(end - 1));
            }
            if self.entries[end - 1].names_call(call) {
                return Some(end - 1);
            }
            end -= 1;
        }
        None
    }

    fn find_plan(&self) -> (r: Option<usize>)
        ensures
            match r {
                Some(i) => i < self.entries@.len() && last_plan(
                    entry_view::entry_views(self.entries@),
                ) == Some(i as int),
                None => last_plan(entry_view::entry_views(self.entries@)) is None,
            },
    {
        let ghost views = entry_view::entry_views(self.entries@);
        let mut end: usize = self.entries.len();
        assert(views.take(end as int) =~= views);
        while end > 0
            invariant
                end <= self.entries@.len(),
                views == entry_view::entry_views(self.entries@),
                last_plan(views) == last_plan(views.take(end as int)),
            decreases end,
        {
            proof {
                assert(views.take(end as int).last() == entry_view::entry_view(
                    self.entries@[end - 1],
                ));
                assert(views.take(end as int).drop_last() =~= views.take(end - 1));
            }
            if self.entries[end - 1].is_plan() {
                return Some(end - 1);
            }
            end -= 1;
        }
        None
    }

    fn find_compacting(&self) -> (r: Option<usize>)
        ensures
            match r {
                Some(i) => i < self.entries@.len() && last_compacting(
                    entry_view::entry_views(self.entries@),
                ) == Some(i as int),
                None => last_compacting(entry_view::entry_views(self.entries@)) is None,
            },
    {
        let ghost views = entry_view::entry_views(self.entries@);
        let mut end: usize = self.entries.len();
        assert(views.take(end as int) =~= views);
        while end > 0
            invariant
                end <= self.entries@.len(),
                views == entry_view::entry_views(self.entries@),
                last_compacting(views) == last_compacting(views.take(end as int)),
            decreases end,
        {
            proof {
                assert(views.take(end as int).last() == entry_view::entry_view(
                    self.entries@[end - 1],
                ));
                assert(views.take(end as int).drop_last() =~= views.take(end - 1));
            }
            if self.entries[end - 1].is_compacting() {
                return Some(end - 1);
            }
            end -= 1;
        }
        None
    }

    fn put_entry(&mut self, place: Option<usize>, entry: Entry)
        requires
            place matches Some(i) ==> i < old(self).entries@.len(),
        ensures
            *final(self) == (Transcript { entries: final(self).entries, ..*old(self) }),
            entry_view::entry_views(final(self).entries@) == match place {
                Some(i) => entry_view::entry_views(old(self).entries@).update(
                    i as int,
                    entry_view::entry_view(entry),
                ),
                None => entry_view::entry_views(old(self).entries@).push(
                    entry_view::entry_view(entry),
                ),
            },
    {
        let ghost before = entry_view::entry_views(self.entries@);
        let ghost told = entry_view::entry_view(entry);
        match place {
            Some(i) => {
                self.entries.set(i, entry);
                assert(entry_view::entry_views(self.entries@) =~= before.update(i as int, told));
            },
            None => {
                self.entries.push(entry);
                assert(entry_view::entry_views(self.entries@) =~= before.push(told));
            },
        }
    }
}

impl AppState {
    fn reset_session(&mut self)
        requires
            old(self).wf(),
        ensures
            session_reset(*old(self), *final(self)),
            final(self).wf(),
    {
        let epoch: u64 = if self.transcript.entry_epoch == u64::MAX {
            0
        } else {
            self.transcript.entry_epoch + 1
        };
        self.transcript = Transcript::default();
        self.transcript.entry_epoch = epoch;
        self.composer.clear_prompt();
        self.composer.viewed_image_id = None;
        self.dialog = Dialog::default();
        self.editor.editing_paste = None;
        self.pending_permission = None;
        self.pending_oauth = None;
        self.header.tasks_complete = 0;
        self.header.tasks_total = 0;
        self.header.plan_entries = Vec::new();
        self.scroll.scroll_from_bottom = 0;
        self.scroll.scroll_drag = None;
        self.scroll.scrollbar_dragging = false;
        self.view = screen::View::Transcript;
        self.focus = Focus::Prompt;
        self.status = "".to_owned();
    }

    fn change_model(&mut self, id: String, display_name: String)
        ensures
            model_changed(*old(self), *final(self), id@, display_name),
            old(self).wf() ==> final(self).wf(),
    {
        self.model = display_name;
        if let Some(limit) = find_sized(&self.offers.available_models, id.as_str()) {
            self.header.context_limit = limit;
        }
    }

    fn prefill(&mut self, words: String)
        requires
            old(self).wf(),
        ensures
            prefilled(*old(self), *final(self), words@),
            final(self).wf(),
    {
        let chars: Vec<char> = text::chars_of(words.as_str());
        let _count: usize = chars.len();
        self.composer.set_prompt(words);
        self.focus = Focus::Prompt;
    }

    fn change_queue(&mut self, steering: Vec<String>, follow_up: Vec<String>)
        ensures
            queue_changed(*old(self), *final(self), steering, follow_up),
            old(self).wf() ==> final(self).wf(),
    {
        let count: u128 = steering.len() as u128 + follow_up.len() as u128;
        self.status = queue_words(count);
        self.transcript.queued_steering = steering;
        self.transcript.queued_follow_up = follow_up;
    }

    fn ask_sign_in(
        &mut self,
        kind: OverlayKind,
        id: String,
        message: Option<String>,
        options: Option<Vec<AuthChoice>>,
    )
        ensures
            asks(*old(self), *final(self), kind, id@, message, options),
            old(self).wf() ==> final(self).wf(),
    {
        let (option_ids, option_labels) = choice_lists(&options);
        self.pending_oauth = Some(
            PendingOauth { id, message: words_or_nothing(message), option_ids, option_labels },
        );
        self.dialog.open(kind);
    }

    fn finish_sign_in(&mut self, provider: String)
        ensures
            signed_in(*old(self), *final(self), provider@),
            old(self).wf() ==> final(self).wf(),
    {
        self.add_note(
            lines_of_one(text::joined("Authentication successful: ", provider.as_str())),
        );
        self.status = text::joined("logged in to ", provider.as_str());
    }

    fn list_tree(&mut self, entries: Vec<SessionTreeEntry>, user_only: bool)
        ensures
            tree_listed(*old(self), *final(self), entries, user_only),
            old(self).wf() ==> final(self).wf(),
    {
        let kind: OverlayKind = if user_only {
            OverlayKind::ForkPicker
        } else {
            OverlayKind::TreePicker
        };
        self.tree.session_tree = entries;
        self.dialog.open(kind);
        proof {
            reveal_strlit("");
            assert(""@ =~= Seq::<char>::empty());
        }
        let places: Vec<usize> = self.tree.filtered("");
        let _count: usize = self.tree.session_tree.len();
        assert forall|k: int| 0 <= k < places@.len() implies #[trigger] places@[k]
            < self.tree.session_tree@.len() by {
            tree::listings_ascend(self.tree, Seq::<char>::empty(), self.tree.session_tree@.len() as int);
        }
        self.dialog.overlay_selected = find_row(&self.tree.session_tree, &places, !user_only);
    }

    fn run_turn(&mut self, now: u64)
        ensures
            turn_runs(*old(self), *final(self)),
            final(self).transcript == running(*old(self), now),
            old(self).wf() ==> final(self).wf(),
    {
        self.transcript.begin_turn(self.header.context_used, now);
        self.status = "generating…".to_owned();
    }

    fn hear(&mut self, words: String, at: &Arrival)
        ensures
            spoken(*old(self), *final(self), words@, *at),
            old(self).wf() ==> final(self).wf(),
    {
        self.run_turn(at.now);
        let count: usize = text::chars_of(words.as_str()).len();
        self.transcript.turn_output_chars = self.transcript.turn_output_chars.saturating_add(count);
        self.transcript.stream(words.as_str(), at.clock.as_str());
    }

    fn hear_thought(&mut self, words: String, now: u64)
        ensures
            reasoned(*old(self), *final(self), words@, now),
            old(self).wf() ==> final(self).wf(),
    {
        self.run_turn(now);
        self.transcript.think(words.as_str());
    }

    fn start_call(&mut self, id: String, name: String, args: String, now: u64)
        ensures
            call_started(*old(self), *final(self), id@, name@, args@, now),
            old(self).wf() ==> final(self).wf(),
    {
        self.run_turn(now);
        let lower: String = text::to_ascii_lower(name.as_str());
        if tool_calls::is_hidden(lower.as_str()) {
            return ;
        }
        let entry: Entry = call_entry(id, name, lower, args, now);
        self.transcript.put_entry(None, entry);
    }

    fn finish_call(
        &mut self,
        id: String,
        result: ToolResult,
        is_error: bool,
        milliseconds: Option<u64>,
    )
        ensures
            blocks_to(
                *old(self),
                *final(self),
                calls_done(blocks(*old(self)), id@, result, is_error, milliseconds),
            ),
            old(self).wf() ==> final(self).wf(),
    {
        let ghost before = blocks(*self);
        if let Some(i) = self.transcript.find_call(id.as_str()) {
            self.transcript.entries[i].finish_call(result, is_error, milliseconds);
            assert(blocks(*self) =~= calls_done(before, id@, result, is_error, milliseconds));
        }
    }

    fn change_plan(&mut self, steps: Vec<PlanEntry>)
        ensures
            planned(*old(self), *final(self), steps),
            old(self).wf() ==> final(self).wf(),
    {
        let done: usize = count_done(&steps);
        let total: usize = steps.len();
        self.header.plan_entries = steps;
        self.header.tasks_complete = done;
        self.header.tasks_total = total;
        let place: Option<usize> = self.transcript.find_plan();
        self.transcript.put_entry(place, Entry::Plan { expanded: done < total });
    }

    fn finish_turn(&mut self, usage: Usage)
        ensures
            turn_done(*old(self), *final(self), usage),
            old(self).wf() ==> final(self).wf(),
    {
        let used: u64 = usage.input_tokens.saturating_add(usage.output_tokens);
        if used > 0 {
            self.header.context_used = used;
        }
        self.transcript.end_turn();
        self.status = "".to_owned();
    }

    fn fail_turn(&mut self, message: String, clock: &String)
        ensures
            failed(*old(self), *final(self), message@, clock@),
            old(self).wf() ==> final(self).wf(),
    {
        self.transcript.end_turn();
        let entry: Entry = Entry::Assistant {
            lines: lines_of_one(text::joined("Error: ", message.as_str())),
            timestamp: clock.clone(),
        };
        self.transcript.put_entry(None, entry);
        self.status = "error".to_owned();
    }

    fn begin_compaction(&mut self, tokens_before: Option<u64>, now: u64)
        ensures
            compaction_begun(*old(self), *final(self), tokens_before, now),
            old(self).wf() ==> final(self).wf(),
    {
        self.transcript.put_entry(
            None,
            Entry::Compaction {
                summary: "".to_owned(),
                active: true,
                tokens_before,
                tokens_after: None,
                error: None,
                started_at: Some(now),
            },
        );
        self.status = "compacting…".to_owned();
    }

    fn end_compaction(
        &mut self,
        summary: Option<String>,
        tokens_before: Option<u64>,
        tokens_after: Option<u64>,
        error: Option<String>,
    )
        ensures
            compaction_ended(
                *old(self),
                *final(self),
                summary,
                tokens_before,
                tokens_after,
                error,
            ),
            old(self).wf() ==> final(self).wf(),
    {
        if let Some(used) = tokens_after {
            self.header.context_used = used;
        }
        if error.is_some() {
            self.status = "compaction failed".to_owned();
        } else {
            self.status = "compacted".to_owned();
        }
        let place: Option<usize> = self.transcript.find_compacting();
        self.transcript.put_entry(
            place,
            Entry::Compaction {
                summary: words_or_nothing(summary),
                active: false,
                tokens_before,
                tokens_after,
                error,
                started_at: None,
            },
        );
    }

    fn show_task(&mut self, task: SubagentTask)
        ensures
            task_told(*old(self), *final(self), task),
            old(self).wf() ==> final(self).wf(),
    {
        let call: String = text::joined("subagent:", task.task_id.as_str());
        let place: Option<usize> = self.transcript.find_call(call.as_str());
        let expanded: bool = match place {
            Some(i) => match self.transcript.entries[i].expansion() {
                Some(open) => open,
                None => false,
            },
            None => false,
        };
        proof {
            if let Some(i) = place {
                call_is_found(blocks(*self), call@);
                assert(blocks(*self)[i as int] == entry_view::entry_view(
                    self.transcript.entries@[i as int],
                ));
            }
        }
        let entry: Entry = task_entry(call, &task, expanded);
        if place.is_none() {
            let head: usize = self.transcript.entries.len();
            self.transcript.expanded_tool_groups.push(head);
        }
        self.transcript.put_entry(place, entry);
        keep_task(&mut self.boards.subagent_tasks, task);
    }
}

proof fn call_is_found(entries: Seq<EntryView>, call: Seq<char>)
    ensures
        last_call(entries, call) matches Some(i) ==> 0 <= i < entries.len() && is_call(
            entries[i],
            call,
        ),
    decreases entries.len(),
{
    if entries.len() > 0 {
        call_is_found(entries.drop_last(), call);
    }
}

fn queue_words(count: u128) -> (r: String)
    requires
        count <= 2 * usize::MAX as u128,
    ensures
        r@ == queue_status(count as nat),
{
    if count == 0 {
        "".to_owned()
    } else {
        text::joined(text::wide_decimal_text(count).as_str(), " queued")
    }
}

fn call_entry(id: String, name: String, lower: String, args: String, now: u64) -> (r: Entry)
    requires
        lower@ == text::ascii_lowered(name@),
    ensures
        entry_view::entry_view(r) == call_block(id@, name@, args@, now),
{
    let family: ToolFamily = tool_calls::tool_family(lower.as_str());
    if family == ToolFamily::Edit {
        if let Some((path, lines)) = tool_calls::edit_diff(args.as_str()) {
            return Entry::Diff { id, path, lines, expanded: true };
        }
    }
    Entry::Tool {
        id,
        label: tool_calls::tool_label(family, name.as_str()),
        detail: tool_calls::tool_detail(family, args.as_str()),
        status: ToolStatus::Running,
        duration: None,
        started_at: Some(now),
        result: None,
        expanded: false,
    }
}

fn progress_of(status: &str) -> (r: ToolStatus)
    ensures
        r == task_progress(status@),
{
    if text::same_text(status, "completed") {
        ToolStatus::Success
    } else if text::same_text(status, "failed") || text::same_text(status, "cancelled")
        || text::same_text(status, "interrupted") {
        ToolStatus::Error
    } else {
        ToolStatus::Running
    }
}

fn task_entry(call: String, task: &SubagentTask, expanded: bool) -> (r: Entry)
    requires
        call@ == task_call(task.task_id@),
    ensures
        entry_view::entry_view(r) == task_block(*task, expanded),
{
    let result: Option<String> = match &task.output {
        Some(output) => Some(output.clone()),
        None => text::copy_option(&task.error),
    };
    Entry::Tool {
        id: call,
        label: "Agent".to_owned(),
        detail: task.description.clone(),
        status: progress_of(task.status.as_str()),
        duration: Some(tool_calls::duration_text(task.duration_ms)),
        started_at: None,
        result,
        expanded,
    }
}

fn keep_task(tasks: &mut Vec<SubagentTask>, task: SubagentTask)
    ensures
        task_kept(old(tasks)@, final(tasks)@, task),
{
    let ghost before = tasks@;
    let mut i: usize = 0;
    while i < tasks.len()
        invariant
            i <= tasks@.len(),
            tasks@ == before,
            before == old(tasks)@,
            forall|j: int| 0 <= j < i ==> (#[trigger] before[j]).task_id@ != task.task_id@,
        decreases before.len() - i,
    {
        if text::same_text(tasks[i].task_id.as_str(), task.task_id.as_str()) {
            assert(first_task(before, task.task_id@, i as int));
            tasks.set(i, task);
            assert(tasks@ =~= before.update(i as int, task));
            return ;
        }
        i += 1;
    }
    assert(forall|k: int| !first_task(before, task.task_id@, k));
    tasks.push(task);
}

fn keep_run(runs: &mut Vec<WorkflowRunSnapshot>, run: WorkflowRunSnapshot)
    ensures
        run_kept(old(runs)@, final(runs)@, run),
{
    let ghost before = runs@;
    let mut i: usize = 0;
    while i < runs.len()
        invariant
            i <= runs@.len(),
            runs@ == before,
            before == old(runs)@,
            forall|j: int| 0 <= j < i ==> (#[trigger] before[j]).run_id@ != run.run_id@,
        decreases before.len() - i,
    {
        if text::same_text(runs[i].run_id.as_str(), run.run_id.as_str()) {
            assert(first_run(before, run.run_id@, i as int));
            runs.set(i, run);
            assert(runs@ =~= before.update(i as int, run));
            return ;
        }
        i += 1;
    }
    assert(forall|k: int| !first_run(before, run.run_id@, k));
    runs.push(run);
}

fn keep_report(all: &mut Vec<TaskTranscript>, task_id: String, event: String)
    ensures
        report_kept(old(all)@, final(all)@, task_id, event),
{
    let ghost before = all@;
    let mut i: usize = 0;
    while i < all.len()
        invariant
            i <= all@.len(),
            all@ == before,
            before == old(all)@,
            forall|j: int| 0 <= j < i ==> (#[trigger] before[j]).task_id@ != task_id@,
        decreases before.len() - i,
    {
        if text::same_text(all[i].task_id.as_str(), task_id.as_str()) {
            assert(first_report(before, task_id@, i as int));
            all[i].events.push(event);
            assert(first_report(before, task_id@, i as int) && all@[i as int].events@
                == before[i as int].events@.push(event));
            return ;
        }
        i += 1;
    }
    assert(forall|k: int| !first_report(before, task_id@, k));
    let mut events: Vec<String> = Vec::new();
    events.push(event);
    assert(events@ =~= seq![event]);
    all.push(TaskTranscript { task_id, events });
    assert(all@.drop_last() =~= before);
}

impl AppState {
    /// Takes in an event of the backend.
    pub fn apply(&mut self, event: AgentEvent, at: &Arrival)
        requires
            old(self).wf(),
        ensures
            applied(*old(self), *final(self), event, *at),
            final(self).wf(),
    {
        match event {
            AgentEvent::SessionReset => self.reset_session(),
            AgentEvent::UserMessage { text } => {
                self.transcript.put_entry(
                    None,
                    Entry::User { text, timestamp: at.clock.clone() },
                );
            },
            AgentEvent::ModelChanged { id, display_name } => self.change_model(id, display_name),
            AgentEvent::SessionInfo { summary } => {
                let lines: Vec<String> = text::split_text(summary.as_str(), '\n');
                self.add_note(lines);
            },
            AgentEvent::PromptPrefill { text } => self.prefill(text),
            AgentEvent::ThinkingChanged { level } => {
                self.thinking_level = level;
            },
            AgentEvent::QueueChanged { steering, follow_up } => self.change_queue(
                steering,
                follow_up,
            ),
            AgentEvent::ResourcesChanged { resources } => {
                self.offers.runtime_commands = resources.commands;
                self.offers.context_files = resources.context_files;
                self.offers.runtime_extensions = resources.extensions;
            },
            AgentEvent::OauthRequest {
                id,
                kind,
                message,
                url,
                user_code,
                verification_uri,
                options,
                ..
            } => {
                if text::same_text(kind.as_str(), "select") {
                    self.ask_sign_in(OverlayKind::OauthSelect, id, message, options);
                } else if text::same_text(kind.as_str(), "prompt") {
                    self.ask_sign_in(OverlayKind::OauthPrompt, id, message, options);
                } else {
                    self.add_note(sign_in_texts(message, url, verification_uri, user_code));
                }
            },
            AgentEvent::OauthComplete { provider } => self.finish_sign_in(provider),
            AgentEvent::RewindList { checkpoints } => {
                self.offers.rewind_checkpoints = checkpoints;
                self.dialog.open(OverlayKind::RewindPicker);
            },
            AgentEvent::SessionTree { entries, user_only } => self.list_tree(entries, user_only),
            AgentEvent::TextDelta { text } => self.hear(text, at),
            AgentEvent::ReasoningDelta { text } => self.hear_thought(text, at.now),
            AgentEvent::ToolCallStart { id, name, args } => self.start_call(
                id,
                name,
                args,
                at.now,
            ),
            AgentEvent::ToolCallUpdate { .. } => {},
            AgentEvent::ToolCallResult { id, result, is_error, duration_ms } => self.finish_call(
                id,
                result,
                is_error,
                duration_ms,
            ),
            AgentEvent::PlanUpdate { entries } => self.change_plan(entries),
            AgentEvent::PermissionRequest { id, tool, reason, .. } => {
                self.pending_permission = Some(PendingPermission { id, tool, reason });
                self.dialog.open(OverlayKind::Permission);
            },
            AgentEvent::TurnComplete { usage, .. } => self.finish_turn(usage),
            AgentEvent::Error { message, .. } => self.fail_turn(message, &at.clock),
            AgentEvent::Compaction {
                phase,
                summary,
                tokens_before,
                tokens_after,
                error,
                ..
            } => match phase {
                CompactionPhase::Start => self.begin_compaction(tokens_before, at.now),
                CompactionPhase::End => self.end_compaction(
                    summary,
                    tokens_before,
                    tokens_after,
                    error,
                ),
            },
            AgentEvent::CompactionIndicator { tokens_before, .. } => {
                self.transcript.put_entry(
                    None,
                    Entry::Compaction {
                        summary: "".to_owned(),
                        active: false,
                        tokens_before,
                        tokens_after: None,
                        error: None,
                        started_at: None,
                    },
                );
            },
            AgentEvent::RuntimeState { idle } => {
                if idle {
                    self.transcript.end_turn();
                } else {
                    self.transcript.streaming = true;
                }
            },
            AgentEvent::SubagentUpdate { task } => self.show_task(*task),
            AgentEvent::SubagentTranscript { task_id, event } => {
                keep_report(&mut self.boards.subagent_transcripts, task_id, event);
            },
            AgentEvent::WorkflowUpdate { workflow } => {
                keep_run(&mut self.boards.workflow_runs, *workflow);
            },
            AgentEvent::WorkflowArtifact { artifact } => {
                self.boards.workflow_artifact = Some(*artifact);
            },
            AgentEvent::WorkflowCatalog { workflows } => {
                self.boards.workflow_catalog = workflows;
                self.dialog.open(OverlayKind::WorkflowPicker);
            },
            AgentEvent::WorkflowPreview { preview } => {
                self.boards.workflow_preview = Some(*preview);
                self.dialog.open(OverlayKind::WorkflowPreview);
            },
            AgentEvent::RuntimeSessions { sessions } => {
                self.sessions.runtime_sessions = sessions;
            },
            AgentEvent::SessionsChanged { sessions } => {
                self.sessions.available_sessions = sessions;
            },
            AgentEvent::ModelsChanged { models } => {
                self.offers.available_models = models;
            },
            AgentEvent::HostCall { .. } => {},
        }
    }
}

/// Another session gives the blocks other names: its number differs from the
/// one before.
pub proof fn resets_rename_the_blocks(before: AppState, after: AppState)
    requires
        session_reset(before, after),
    ensures
        after.transcript.entry_epoch != before.transcript.entry_epoch,
        blocks(after).len() == 0,
{
}

/// The end of a tool call changes the block of that call and no other.
pub proof fn other_calls_stay(
    entries: Seq<EntryView>,
    call: Seq<char>,
    result: ToolResult,
    is_error: bool,
    milliseconds: Option<u64>,
    j: int,
)
    requires
        0 <= j < entries.len(),
        !is_call(entries[j], call),
    ensures
        calls_done(entries, call, result, is_error, milliseconds).len() == entries.len(),
        calls_done(entries, call, result, is_error, milliseconds)[j] == entries[j],
{
    call_is_found(entries, call);
}

/// A subagent has one block: reporting again changes it and adds none.
pub proof fn subagents_have_one_block(entries: Seq<EntryView>, first: SubagentTask, again: SubagentTask)
    requires
        first.task_id@ == again.task_id@,
    ensures
        task_shown(task_shown(entries, first), again).len() == task_shown(entries, first).len(),
{
    let call = task_call(first.task_id@);
    call_is_found(entries, call);
    let shown = task_shown(entries, first);
    let i = match last_call(entries, call) {
        Some(i) => i,
        None => entries.len() as int,
    };
    assert(is_call(shown[i], call));
    call_stays_found(shown, call, i);
    call_is_found(shown, call);
}

proof fn call_stays_found(entries: Seq<EntryView>, call: Seq<char>, i: int)
    requires
        0 <= i < entries.len(),
        is_call(entries[i], call),
    ensures
        last_call(entries, call) is Some,
    decreases entries.len(),
{
    if !is_call(entries.last(), call) {
        assert(entries.drop_last()[i] == entries[i]);
        call_stays_found(entries.drop_last(), call, i);
    }
}

} // verus!
