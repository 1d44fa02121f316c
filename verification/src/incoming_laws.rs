//! What the screen shows of the backend's events, whatever went before.

use vstd::prelude::*;

use crate::dialog;
use crate::entry_view;
use crate::entry_view::EntryView;
use crate::harness::AgentErrorKind;
use crate::harness::AgentEvent;
use crate::harness::AuthChoice;
use crate::harness::CompactionPhase;
use crate::harness::PlanEntry;
use crate::harness::SessionTreeEntry;
use crate::harness::SubagentTask;
use crate::harness::ToolResult;
use crate::harness::Usage;
use crate::harness::WorkflowRunSnapshot;
use crate::incoming;
use crate::incoming::Arrival;
use crate::state::AppState;
use crate::state_types::Entry;
use crate::state_types::OverlayKind;
use crate::state_types::ToolStatus;
use crate::streaming;
use crate::streaming::Stream;
use crate::text;
use crate::tool_calls;
use crate::tool_calls::ToolFamily;

verus! {

broadcast use vstd::string::group_string_axioms;

/// A message of the user is shown behind everything else, with its words and its time.
pub proof fn messages_are_shown(before: AppState, after: AppState, words: String, at: Arrival)
    requires
        incoming::applied(before, after, AgentEvent::UserMessage { text: words }, at),
    ensures
        incoming::blocks(after).len() == incoming::blocks(before).len() + 1,
        incoming::blocks(after).drop_last() == incoming::blocks(before),
        incoming::blocks(after).last() == (EntryView::User {
            text: words@,
            timestamp: at.clock@,
        }),
{
    assert(incoming::blocks(after).drop_last() =~= incoming::blocks(before));
}

/// The words of an answer are kept in their order: its lines, joined by line feeds, are what
/// came before and the new words behind it.
pub proof fn answers_keep_their_words(lines: Seq<Seq<char>>, words: Seq<char>)
    requires
        lines.len() > 0,
    ensures
        text::join(streaming::lines_on(lines, words), seq!['\n']) == text::join(lines, seq!['\n'])
            + words,
{
    let parts = text::split(words, '\n');
    text::split_has_parts(words, '\n');
    text::parts_make_the_text(words, '\n');
    let all = streaming::lines_on(lines, words);
    joins_where_they_meet(lines, parts, parts.len() as int);
    assert(parts.take(parts.len() as int) =~= parts);
    assert(all =~= lines.drop_last() + seq![lines.last() + parts[0]] + parts.skip(1));
}

proof fn joins_where_they_meet(lines: Seq<Seq<char>>, parts: Seq<Seq<char>>, n: int)
    requires
        lines.len() > 0,
        1 <= n <= parts.len(),
    ensures
        text::join(
            lines.drop_last() + seq![lines.last() + parts[0]] + parts.take(n).skip(1),
            seq!['\n'],
        ) == text::join(lines, seq!['\n']) + text::join(parts.take(n), seq!['\n']),
    decreases n,
{
    let feed = seq!['\n'];
    let met = lines.drop_last() + seq![lines.last() + parts[0]];
    let all = met + parts.take(n).skip(1);
    if n == 1 {
        assert(all =~= met);
        assert(met.drop_last() =~= lines.drop_last());
        assert(parts.take(1)[0] == parts[0]);
        assert(text::join(met, feed) =~= text::join(lines, feed) + parts[0]);
    } else {
        joins_where_they_meet(lines, parts, n - 1);
        let some = parts.take(n);
        assert(some.drop_last() =~= parts.take(n - 1));
        assert(all.drop_last() =~= met + parts.take(n - 1).skip(1));
        assert(all.last() == parts[n - 1]);
        assert(some.last() == parts[n - 1]);
        assert(text::join(all, feed) =~= text::join(lines, feed) + text::join(some, feed));
    }
}

proof fn no_tag_occurs(words: Seq<char>, tag: Seq<char>, from: int)
    requires
        !words.contains('<'),
        tag.len() > 0,
        tag[0] == '<',
        0 <= from,
    ensures
        text::first_at(words, tag, from) == words.len() || from > words.len(),
    decreases words.len() - from,
{
    if from < words.len() && from + tag.len() <= words.len() {
        if text::has_at(words, tag, from) {
            assert(words.subrange(from, from + tag.len())[0] == words[from]);
        }
        no_tag_occurs(words, tag, from + 1);
    }
}

proof fn tags_begin_alike()
    ensures
        "<think>"@.len() == 7,
        "</think>"@.len() == 8,
        "<think>"@[0] == '<',
        "</think>"@[0] == '<',
        "<think>"@[1] == 't',
        "</think>"@[1] == '/',
{
    reveal_strlit("<think>");
    reveal_strlit("</think>");
}

/// Words of the model without tags begin an answer with the present time, or go on with the
/// one at the end: joined by line feeds, its lines are all the words in their order. Nothing
/// before it is changed but thoughts, which have ended.
pub proof fn words_make_the_answer(before: AppState, after: AppState, words: String, at: Arrival)
    requires
        incoming::applied(before, after, AgentEvent::TextDelta { text: words }, at),
        !before.transcript.think_tag_open,
        words@.len() > 0,
        !words@.contains('<'),
    ensures
        !after.transcript.think_tag_open,
        after.transcript.streaming,
        after.transcript.turn_started_at is Some,
        ({
            let old_blocks = incoming::blocks(before);
            let new_blocks = incoming::blocks(after);
            match (if old_blocks.len() > 0 {
                Some(old_blocks.last())
            } else {
                None
            }) {
                Some(EntryView::Assistant { lines, timestamp }) => {
                    &&& new_blocks.len() == old_blocks.len()
                    &&& new_blocks.last() matches EntryView::Assistant {
                        lines: more,
                        timestamp: time,
                    }
                    &&& time == timestamp
                    &&& lines.len() > 0 ==> text::join(more, seq!['\n']) == text::join(
                        lines,
                        seq!['\n'],
                    ) + words@
                },
                _ => {
                    &&& new_blocks.len() == old_blocks.len() + 1
                    &&& new_blocks.last() matches EntryView::Assistant { lines, timestamp }
                    &&& timestamp == at.clock@
                    &&& text::join(lines, seq!['\n']) == words@
                },
            }
        }),
{
    tags_begin_alike();
    no_tag_occurs(words@, "<think>"@, 0);
    text::parts_make_the_text(words@, '\n');
    let old_blocks = incoming::blocks(before);
    let quiet = streaming::thoughts_ended(old_blocks);
    if old_blocks.len() > 0 {
        assert(quiet.last() == streaming::ended(old_blocks.last()));
        match old_blocks.last() {
            EntryView::Assistant { lines, timestamp } => {
                if lines.len() > 0 {
                    answers_keep_their_words(lines, words@);
                }
            },
            _ => {},
        }
    }
}

/// Words between the tags are thoughts, the words behind them the answer.
pub proof fn tagged_words_are_thoughts(
    entries: Seq<EntryView>,
    a: Seq<char>,
    b: Seq<char>,
    clock: Seq<char>,
)
    requires
        a.len() > 0,
        b.len() > 0,
        !a.contains('<'),
        !b.contains('<'),
    ensures
        streaming::told(
            Stream { entries, thinking: false },
            "<think>"@ + a + "</think>"@ + b,
            clock,
        ) == (Stream {
            entries: streaming::answered(streaming::thought(entries, a), b, clock),
            thinking: false,
        }),
{
    tags_begin_alike();
    let open = "<think>"@;
    let close = "</think>"@;
    let all = open + a + close + b;
    assert(all.subrange(0, 7) =~= open);
    assert(text::has_at(all, open, 0));
    assert(text::first_at(all, open, 0) == 0);
    let first = Stream { entries, thinking: false };
    let rest = a + close + b;
    assert(all.skip(7) =~= rest);
    assert(all.take(0).len() == 0);
    let second = Stream { entries, thinking: true };
    assert(streaming::told(first, all, clock) == streaming::told(second, rest, clock));
    close_is_found(a, b, 0);
    assert(rest.take(a.len() as int) =~= a);
    assert(rest.skip(a.len() as int + 8) =~= b);
    let third = Stream { entries: streaming::thought(entries, a), thinking: false };
    assert(streaming::told(second, rest, clock) == streaming::told(third, b, clock));
    no_tag_occurs(b, open, 0);
}

proof fn close_is_found(a: Seq<char>, b: Seq<char>, from: int)
    requires
        0 <= from <= a.len(),
        !a.contains('<'),
    ensures
        text::first_at(a + "</think>"@ + b, "</think>"@, from) == a.len(),
    decreases a.len() - from,
{
    tags_begin_alike();
    let close = "</think>"@;
    let rest = a + close + b;
    if from == a.len() {
        assert(rest.subrange(from, from + 8) =~= close);
    } else {
        if text::has_at(rest, close, from) {
            assert(rest.subrange(from, from + 8)[0] == a[from]);
            assert(a.contains('<'));
        }
        close_is_found(a, b, from + 1);
    }
}

/// A thought is shown as one that goes on, and its words end the thoughts of the turn.
pub proof fn thoughts_are_shown(entries: Seq<EntryView>, words: Seq<char>) -> (i: int)
    ensures
        0 <= i < streaming::thought(entries, words).len(),
        streaming::thought(entries, words)[i] matches EntryView::Reasoning { text: all, active, .. }
            && active && text::finishes_with(all, words),
        streaming::thought(entries, words).len() <= entries.len() + 1,
        forall|j: int|
            0 <= j < entries.len() && j != i ==> #[trigger] streaming::thought(entries, words)[j]
                == entries[j],
{
    open_thoughts_are_thoughts(entries);
    match streaming::open_thought(entries) {
        Some(i) => {
            match entries[i] {
                EntryView::Reasoning { text: old_words, .. } => {
                    let all = old_words + words;
                    assert(all.subrange(all.len() - words.len(), all.len() as int) =~= words);
                },
                _ => {},
            }
            i
        },
        None => {
            assert(words.subrange(0, words.len() as int) =~= words);
            entries.len() as int
        },
    }
}

proof fn open_thoughts_are_thoughts(entries: Seq<EntryView>)
    ensures
        streaming::open_thought(entries) matches Some(i) ==> 0 <= i < entries.len() && entries[i]
            is Reasoning,
    decreases entries.len(),
{
    if entries.len() > 0 {
        open_thoughts_are_thoughts(entries.drop_last());
    }
}

/// A message, an answer and a compaction close the thoughts before them: a later thought
/// begins anew.
pub proof fn closed_thoughts_stay_closed(entries: Seq<EntryView>, words: Seq<char>)
    requires
        entries.len() > 0,
        entries.last() is User || entries.last() is Assistant || entries.last() is Compaction,
    ensures
        streaming::thought(entries, words) == entries.push(
            EntryView::Reasoning { text: words, active: true, expanded: false },
        ),
{
}

/// No thought goes on where all have ended, and nothing else is changed.
pub proof fn ended_thoughts_are_still(entries: Seq<EntryView>, i: int)
    requires
        0 <= i < entries.len(),
    ensures
        streaming::thoughts_ended(entries).len() == entries.len(),
        match entries[i] {
            EntryView::Reasoning { text: words, active, expanded } =>
                streaming::thoughts_ended(entries)[i] == (EntryView::Reasoning {
                text: words,
                active: false,
                expanded,
            }),
            other => streaming::thoughts_ended(entries)[i] == other,
        },
{
}

/// A call of bash is shown behind everything else with its command, as running since now.
pub proof fn started_commands_are_shown(
    before: AppState,
    after: AppState,
    id: String,
    args: String,
    command: Seq<char>,
    name: String,
    at: Arrival,
)
    requires
        incoming::applied(before, after, AgentEvent::ToolCallStart { id, name, args }, at),
        text::ascii_lowered(name@) == "bash"@,
        tool_calls::json_member(args@, "command"@) == Some(command),
    ensures
        incoming::blocks(after).len() == incoming::blocks(before).len() + 1,
        incoming::blocks(after).drop_last() == incoming::blocks(before),
        incoming::blocks(after).last() matches EntryView::Tool {
            id: shown,
            label,
            detail,
            status,
            started_at,
            result,
            ..
        } && shown == id@ && label == "Run"@ && detail == command && status is Running
            && started_at == Some(at.now) && result is None,
{
    tool_calls::tools_are_known_by_their_names("bash"@);
    tool_calls::commands_are_shown("bash"@, args@, command);
    tool_calls::working_tools_are_shown("bash"@);
    assert(incoming::blocks(after).drop_last() =~= incoming::blocks(before));
}

/// Every call of a tool that works is shown behind everything else: an edit that says what it
/// changes as these changes, under its file, any other call by what it works on.
pub proof fn started_calls_are_shown(
    before: AppState,
    after: AppState,
    id: String,
    name: String,
    args: String,
    at: Arrival,
)
    requires
        incoming::applied(before, after, AgentEvent::ToolCallStart { id, name, args }, at),
        !(tool_calls::family_of(text::ascii_lowered(name@)) is Other),
    ensures
        after.transcript.streaming,
        incoming::blocks(after).len() == incoming::blocks(before).len() + 1,
        incoming::blocks(after).drop_last() == incoming::blocks(before),
        match incoming::blocks(after).last() {
            EntryView::Diff { id: shown, path, lines, .. } => {
                &&& shown == id@
                &&& text::ascii_lowered(name@) == "edit"@
                &&& path == tool_calls::path_of(args@)
                &&& tool_calls::edit_changes(args@) == Some(lines)
            },
            EntryView::Tool { id: shown, detail, status, started_at, duration, result, .. } => {
                &&& shown == id@
                &&& status is Running
                &&& started_at == Some(at.now)
                &&& duration is None
                &&& result is None
                &&& detail == tool_calls::detail_of(
                    tool_calls::family_of(text::ascii_lowered(name@)),
                    args@,
                )
            },
            _ => false,
        },
{
    tool_calls::working_tools_are_shown(text::ascii_lowered(name@));
    tool_calls::tools_are_known_by_their_names(text::ascii_lowered(name@));
    assert(incoming::blocks(after).drop_last() =~= incoming::blocks(before));
}

proof fn last_call_is_last(entries: Seq<EntryView>, call: Seq<char>, i: int)
    requires
        0 <= i < entries.len(),
        incoming::is_call(entries[i], call),
        forall|j: int| i < j < entries.len() ==> !incoming::is_call(#[trigger] entries[j], call),
    ensures
        incoming::last_call(entries, call) == Some(i),
    decreases entries.len(),
{
    if i < entries.len() - 1 {
        assert(!incoming::is_call(entries[entries.len() - 1], call));
        let fewer = entries.drop_last();
        assert forall|j: int| i < j < fewer.len() implies !incoming::is_call(
            #[trigger] fewer[j],
            call,
        ) by {
            assert(!incoming::is_call(entries[j], call));
        }
        last_call_is_last(fewer, call, i);
    }
}

/// The end of a call is shown in its block: whether it went well, what came of it, and how
/// long it took. What the call was stays.
pub proof fn ended_calls_show_their_result(
    before: AppState,
    after: AppState,
    id: String,
    result: ToolResult,
    is_error: bool,
    duration_ms: Option<u64>,
    at: Arrival,
    i: int,
)
    requires
        incoming::applied(
            before,
            after,
            AgentEvent::ToolCallResult { id, result, is_error, duration_ms },
            at,
        ),
        0 <= i < incoming::blocks(before).len(),
        incoming::blocks(before)[i] is Tool,
        incoming::blocks(before)[i]->Tool_id == id@,
        forall|j: int|
            i < j < incoming::blocks(before).len() ==> match #[trigger] incoming::blocks(
                before,
            )[j] {
                EntryView::Tool { id: other, .. } => other != id@,
                EntryView::Diff { id: other, .. } => other != id@,
                _ => true,
            },
    ensures
        incoming::blocks(after).len() == incoming::blocks(before).len(),
        match (incoming::blocks(before)[i], incoming::blocks(after)[i]) {
            (EntryView::Tool { label, detail, expanded, .. }, EntryView::Tool {
                id: shown,
                label: new_label,
                detail: new_detail,
                status,
                duration,
                started_at,
                result: words,
                expanded: new_expanded,
            }) => {
                &&& shown == id@
                &&& new_label == label
                &&& new_detail == detail
                &&& new_expanded == expanded
                &&& status == (if is_error {
                    ToolStatus::Error
                } else {
                    ToolStatus::Success
                })
                &&& words == Some(result.content@)
                &&& started_at is None
                &&& match duration_ms {
                    Some(n) => duration == Some(tool_calls::duration_of(n as nat)),
                    None => duration is None,
                }
            },
            _ => false,
        },
{
    let entries = incoming::blocks(before);
    assert forall|j: int| i < j < entries.len() implies !incoming::is_call(
        #[trigger] entries[j],
        id@,
    ) by {}
    last_call_is_last(entries, id@, i);
}

/// The number of steps of a plan that are done: one more with each step that is.
pub proof fn plans_count_what_is_done(steps: Seq<PlanEntry>, n: int)
    requires
        0 <= n < steps.len(),
    ensures
        incoming::steps_done(steps, 0) == 0,
        steps[n].status@ == "completed"@ ==> incoming::steps_done(steps, n + 1)
            == incoming::steps_done(steps, n) + 1,
        steps[n].status@ != "completed"@ ==> incoming::steps_done(steps, n + 1)
            == incoming::steps_done(steps, n),
{
}

proof fn done_steps_are_steps(steps: Seq<PlanEntry>, n: int)
    requires
        0 <= n <= steps.len(),
    ensures
        0 <= incoming::steps_done(steps, n) <= n,
        incoming::steps_done(steps, n) == n <==> (forall|i: int|
            0 <= i < n ==> (#[trigger] steps[i]).status@ == "completed"@),
    decreases n,
{
    if n > 0 {
        done_steps_are_steps(steps, n - 1);
        if incoming::steps_done(steps, n) == n {
            assert forall|i: int| 0 <= i < n implies (#[trigger] steps[i]).status@
                == "completed"@ by {}
        }
        if forall|i: int| 0 <= i < n ==> (#[trigger] steps[i]).status@ == "completed"@ {
            assert(steps[n - 1].status@ == "completed"@);
        }
    }
}

/// A plan is counted in the header, all of its steps and those that are done, and its block
/// is unfolded until every step is done.
pub proof fn plans_are_counted(
    before: AppState,
    after: AppState,
    entries: Vec<PlanEntry>,
    at: Arrival,
) -> (i: int)
    requires
        incoming::applied(before, after, AgentEvent::PlanUpdate { entries }, at),
    ensures
        after.header.plan_entries == entries,
        after.header.tasks_total == entries@.len(),
        after.header.tasks_complete == incoming::steps_done(entries@, entries@.len() as int),
        after.header.tasks_complete <= after.header.tasks_total,
        0 <= i < incoming::blocks(after).len(),
        incoming::blocks(after)[i] matches EntryView::Plan { expanded } && expanded == exists|k: int|
            0 <= k < entries@.len() && (#[trigger] entries@[k]).status@ != "completed"@,
        incoming::blocks(after).len() <= incoming::blocks(before).len() + 1,
{
    done_steps_are_steps(entries@, entries@.len() as int);
    plans_are_plans(incoming::blocks(before));
    assert(entries.len() == entries@.len());
    match incoming::last_plan(incoming::blocks(before)) {
        Some(i) => i,
        None => incoming::blocks(before).len() as int,
    }
}

proof fn plans_are_plans(entries: Seq<EntryView>)
    ensures
        incoming::last_plan(entries) matches Some(i) ==> 0 <= i < entries.len() && entries[i]
            is Plan,
        incoming::last_plan(entries) is None ==> forall|i: int|
            0 <= i < entries.len() ==> !(#[trigger] entries[i] is Plan),
    decreases entries.len(),
{
    if entries.len() > 0 && !(entries.last() is Plan) {
        plans_are_plans(entries.drop_last());
        if incoming::last_plan(entries) is None {
            assert forall|i: int| 0 <= i < entries.len() implies !(#[trigger] entries[i]
                is Plan) by {
                if i < entries.len() - 1 {
                    assert(entries.drop_last()[i] == entries[i]);
                }
            }
        }
    }
}

/// A request for leave opens the dialog for it and keeps what is asked: for which call, for
/// which tool, and why.
pub proof fn leave_is_asked_for(
    before: AppState,
    after: AppState,
    id: String,
    tool: String,
    args: String,
    reason: String,
    at: Arrival,
)
    requires
        incoming::applied(
            before,
            after,
            AgentEvent::PermissionRequest { id, tool, args, reason },
            at,
        ),
    ensures
        after.dialog.overlay is Permission,
        after.dialog.overlay_selected == 0,
        after.pending_permission is Some,
        after.pending_permission->0.id == id,
        after.pending_permission->0.tool == tool,
        after.pending_permission->0.reason == reason,
        after.transcript == before.transcript,
        after.composer == before.composer,
{
}

/// A turn that is over runs no more, its thoughts have ended, and the context that is used is
/// what the turn took in and gave out, where it says so.
pub proof fn turns_end(
    before: AppState,
    after: AppState,
    usage: Usage,
    stop_reason: String,
    at: Arrival,
)
    requires
        incoming::applied(before, after, AgentEvent::TurnComplete { usage, stop_reason }, at),
    ensures
        !after.transcript.streaming,
        after.transcript.turn_started_at is None,
        !after.transcript.think_tag_open,
        after.status@.len() == 0,
        usage.input_tokens == 0 && usage.output_tokens == 0 ==> after.header.context_used
            == before.header.context_used,
        usage.input_tokens + usage.output_tokens > 0 && usage.input_tokens + usage.output_tokens
            <= u64::MAX ==> after.header.context_used == usage.input_tokens + usage.output_tokens,
        incoming::blocks(after).len() == incoming::blocks(before).len(),
        forall|i: int|
            0 <= i < incoming::blocks(after).len() ==> (#[trigger] incoming::blocks(after)[i] matches
                EntryView::Reasoning { active, .. } ==> !active),
{
    reveal_strlit("");
}

/// An error ends the turn and is shown behind everything else in its own words.
pub proof fn errors_are_shown(
    before: AppState,
    after: AppState,
    kind: AgentErrorKind,
    message: String,
    at: Arrival,
)
    requires
        incoming::applied(before, after, AgentEvent::Error { kind, message }, at),
    ensures
        !after.transcript.streaming,
        after.transcript.turn_started_at is None,
        after.status@ == "error"@,
        incoming::blocks(after).len() == incoming::blocks(before).len() + 1,
        incoming::blocks(after).last() matches EntryView::Assistant { lines, timestamp }
            && lines.len() == 1 && text::finishes_with(lines[0], message@) && text::begins_with(
            lines[0],
            "Error: "@,
        ) && timestamp == at.clock@,
{
    let line = "Error: "@ + message@;
    assert(line.subrange(line.len() - message@.len(), line.len() as int) =~= message@);
    assert(line.subrange(0, "Error: "@.len() as int) =~= "Error: "@);
}

/// A session says whether a turn runs.
pub proof fn sessions_say_whether_they_run(before: AppState, after: AppState, idle: bool, at: Arrival)
    requires
        incoming::applied(before, after, AgentEvent::RuntimeState { idle }, at),
    ensures
        after.transcript.streaming == !idle,
        incoming::blocks(after).len() == incoming::blocks(before).len(),
        after.header == before.header,
        after.dialog == before.dialog,
        after.composer == before.composer,
{
}

/// A compaction that begins is shown as running; one that ends takes the place of the one
/// that runs, with its summary and its error, and the context that is used is what it left.
pub proof fn compactions_are_shown(
    before: AppState,
    after: AppState,
    phase: CompactionPhase,
    reason: Option<String>,
    summary: Option<String>,
    tokens_before: Option<u64>,
    tokens_after: Option<u64>,
    error: Option<String>,
    at: Arrival,
) -> (i: int)
    requires
        incoming::applied(
            before,
            after,
            AgentEvent::Compaction { phase, reason, summary, tokens_before, tokens_after, error },
            at,
        ),
    ensures
        0 <= i < incoming::blocks(after).len(),
        phase is Start ==> {
            &&& i == incoming::blocks(before).len()
            &&& incoming::blocks(after)[i] matches EntryView::Compaction {
                active,
                tokens_before: then,
                started_at,
                ..
            }
            &&& active
            &&& then == tokens_before
            &&& started_at == Some(at.now)
            &&& after.header == before.header
        },
        phase is End ==> {
            &&& incoming::blocks(after)[i] matches EntryView::Compaction {
                summary: words,
                active,
                tokens_before: then,
                tokens_after: now,
                error: trouble,
                ..
            }
            &&& !active
            &&& then == tokens_before
            &&& now == tokens_after
            &&& summary matches Some(s) ==> words == s@
            &&& match error {
                Some(e) => trouble == Some(e@),
                None => trouble is None,
            }
            &&& tokens_after matches Some(n) ==> after.header.context_used == n
            &&& tokens_after is None ==> after.header.context_used == before.header.context_used
            &&& after.status@ == if error is Some {
                "compaction failed"@
            } else {
                "compacted"@
            }
            &&& i < incoming::blocks(before).len() ==> (incoming::blocks(before)[i] matches
                EntryView::Compaction { active, .. } && active)
            &&& i >= incoming::blocks(before).len() ==> forall|j: int|
                0 <= j < incoming::blocks(before).len() ==> (#[trigger] incoming::blocks(
                    before,
                )[j] matches EntryView::Compaction { active, .. } ==> !active)
        },
{
    compactions_are_compactions(incoming::blocks(before));
    match phase {
        CompactionPhase::Start => incoming::blocks(before).len() as int,
        CompactionPhase::End => match incoming::last_compacting(incoming::blocks(before)) {
            Some(i) => i,
            None => incoming::blocks(before).len() as int,
        },
    }
}

proof fn compactions_are_compactions(entries: Seq<EntryView>)
    ensures
        incoming::last_compacting(entries) matches Some(i) ==> 0 <= i < entries.len()
            && incoming::compacting(entries[i]),
        incoming::last_compacting(entries) is None ==> forall|i: int|
            0 <= i < entries.len() ==> !incoming::compacting(#[trigger] entries[i]),
    decreases entries.len(),
{
    if entries.len() > 0 && !incoming::compacting(entries.last()) {
        compactions_are_compactions(entries.drop_last());
        if incoming::last_compacting(entries) is None {
            assert forall|i: int| 0 <= i < entries.len() implies !incoming::compacting(
                #[trigger] entries[i],
            ) by {
                if i < entries.len() - 1 {
                    assert(entries.drop_last()[i] == entries[i]);
                }
            }
        }
    }
}

/// A subagent is shown by what it was called for, how far it has come, and what came of it.
pub proof fn subagents_show_how_far_they_are(task: SubagentTask, expanded: bool)
    ensures
        incoming::task_block(task, expanded) matches EntryView::Tool {
            label,
            detail,
            status,
            result,
            expanded: shown,
            ..
        } && label == "Agent"@ && detail == task.description@ && shown == expanded && (
        task.status@ == "completed"@ ==> status is Success) && (task.status@ == "failed"@
            || task.status@ == "cancelled"@ || task.status@ == "interrupted"@ ==> status is Error)
            && (task.status@ == "running"@ || task.status@ == "pending"@ ==> status is Running) && (
        task.output matches Some(words) ==> result == Some(words@)) && (task.output is None
            && task.error is Some ==> result == Some(task.error->0@)),
{
    reveal_strlit("completed");
    reveal_strlit("failed");
    reveal_strlit("cancelled");
    reveal_strlit("interrupted");
    reveal_strlit("running");
    reveal_strlit("pending");
    assert("completed"@.len() == 9);
    assert("failed"@.len() == 6);
    assert("cancelled"@.len() == 9);
    assert("interrupted"@.len() == 11);
    assert("running"@.len() == 7);
    assert("pending"@.len() == 7);
    assert("completed"@[1] == 'o');
    assert("cancelled"@[1] == 'a');
    assert("running"@[0] == 'r');
    assert("pending"@[0] == 'p');
}

/// What a subagent reports is kept once, and the other tasks stay.
pub proof fn subagents_are_kept_once(
    before: AppState,
    after: AppState,
    task: SubagentTask,
    at: Arrival,
) -> (i: int)
    requires
        incoming::applied(
            before,
            after,
            AgentEvent::SubagentUpdate { task: Box::new(task) },
            at,
        ),
    ensures
        0 <= i < after.boards.subagent_tasks@.len(),
        after.boards.subagent_tasks@[i] == task,
        forall|j: int|
            0 <= j < before.boards.subagent_tasks@.len() && j != i
                ==> #[trigger] after.boards.subagent_tasks@[j] == before.boards.subagent_tasks@[j],
        i < before.boards.subagent_tasks@.len() ==> before.boards.subagent_tasks@[i].task_id@
            == task.task_id@ && after.boards.subagent_tasks@.len()
            == before.boards.subagent_tasks@.len(),
        i >= before.boards.subagent_tasks@.len() ==> after.boards.subagent_tasks@.len()
            == before.boards.subagent_tasks@.len() + 1 && forall|j: int|
            0 <= j < before.boards.subagent_tasks@.len() ==> (
            #[trigger] before.boards.subagent_tasks@[j]).task_id@ != task.task_id@,
{
    let tasks = before.boards.subagent_tasks@;
    if exists|i: int| incoming::first_task(tasks, task.task_id@, i) {
        choose|i: int| #[trigger]
            incoming::first_task(tasks, task.task_id@, i) && after.boards.subagent_tasks@
                == tasks.update(i, task)
    } else {
        assert forall|j: int| 0 <= j < tasks.len() implies (#[trigger] tasks[j]).task_id@
            != task.task_id@ by {
            if tasks[j].task_id@ == task.task_id@ {
                some_task_is_first(tasks, task.task_id@, j);
            }
        }
        tasks.len() as int
    }
}

proof fn some_task_is_first(tasks: Seq<SubagentTask>, id: Seq<char>, j: int)
    requires
        0 <= j < tasks.len(),
        tasks[j].task_id@ == id,
    ensures
        exists|i: int| incoming::first_task(tasks, id, i),
    decreases j,
{
    if !incoming::first_task(tasks, id, j) {
        let k = choose|k: int| 0 <= k < j && (#[trigger] tasks[k]).task_id@ == id;
        some_task_is_first(tasks, id, k);
    }
}

/// What a workflow reports is kept once, and the other runs stay.
pub proof fn runs_are_kept_once(
    before: AppState,
    after: AppState,
    run: WorkflowRunSnapshot,
    at: Arrival,
) -> (i: int)
    requires
        incoming::applied(
            before,
            after,
            AgentEvent::WorkflowUpdate { workflow: Box::new(run) },
            at,
        ),
    ensures
        0 <= i < after.boards.workflow_runs@.len(),
        after.boards.workflow_runs@[i] == run,
        forall|j: int|
            0 <= j < before.boards.workflow_runs@.len() && j != i
                ==> #[trigger] after.boards.workflow_runs@[j] == before.boards.workflow_runs@[j],
        i < before.boards.workflow_runs@.len() ==> before.boards.workflow_runs@[i].run_id@
            == run.run_id@,
        i >= before.boards.workflow_runs@.len() ==> forall|j: int|
            0 <= j < before.boards.workflow_runs@.len() ==> (
            #[trigger] before.boards.workflow_runs@[j]).run_id@ != run.run_id@,
{
    let runs = before.boards.workflow_runs@;
    if exists|i: int| incoming::first_run(runs, run.run_id@, i) {
        choose|i: int| #[trigger]
            incoming::first_run(runs, run.run_id@, i) && after.boards.workflow_runs@ == runs.update(
                i,
                run,
            )
    } else {
        assert forall|j: int| 0 <= j < runs.len() implies (#[trigger] runs[j]).run_id@
            != run.run_id@ by {
            if runs[j].run_id@ == run.run_id@ {
                some_run_is_first(runs, run.run_id@, j);
            }
        }
        runs.len() as int
    }
}

proof fn some_run_is_first(runs: Seq<WorkflowRunSnapshot>, id: Seq<char>, j: int)
    requires
        0 <= j < runs.len(),
        runs[j].run_id@ == id,
    ensures
        exists|i: int| incoming::first_run(runs, id, i),
    decreases j,
{
    if !incoming::first_run(runs, id, j) {
        let k = choose|k: int| 0 <= k < j && (#[trigger] runs[k]).run_id@ == id;
        some_run_is_first(runs, id, k);
    }
}

/// A queue is kept as it is told, and the status says how many messages wait, or nothing.
pub proof fn queues_are_counted(
    before: AppState,
    after: AppState,
    steering: Vec<String>,
    follow_up: Vec<String>,
    at: Arrival,
)
    requires
        incoming::applied(before, after, AgentEvent::QueueChanged { steering, follow_up }, at),
    ensures
        after.transcript.queued_steering == steering,
        after.transcript.queued_follow_up == follow_up,
        steering@.len() + follow_up@.len() == 0 ==> after.status@.len() == 0,
        steering@.len() + follow_up@.len() > 0 ==> after.status@ == text::decimal(
            steering@.len() + follow_up@.len(),
        ) + seq![' ', 'q', 'u', 'e', 'u', 'e', 'd'],
{
    reveal_strlit("");
    reveal_strlit(" queued");
    assert(" queued"@ =~= seq![' ', 'q', 'u', 'e', 'u', 'e', 'd']);
}

/// Another model is shown by its name, and the context can hold what the list of models says
/// of it, as much as before where it says nothing.
pub proof fn models_bring_their_context(
    before: AppState,
    after: AppState,
    id: String,
    display_name: String,
    at: Arrival,
    i: int,
)
    requires
        incoming::applied(before, after, AgentEvent::ModelChanged { id, display_name }, at),
        0 <= i < before.offers.available_models@.len(),
        before.offers.available_models@[i].id@ == id@,
        forall|j: int|
            0 <= j < before.offers.available_models@.len() && j != i ==> (
            #[trigger] before.offers.available_models@[j]).id@ != id@,
    ensures
        after.model == display_name,
        match before.offers.available_models@[i].context_window {
            Some(size) => after.header.context_limit == size,
            None => after.header.context_limit == before.header.context_limit,
        },
{
    let models = before.offers.available_models@;
    if models[i].context_window is Some {
        assert(incoming::sized_model(models, id@, i));
    }
    if exists|k: int| incoming::sized_model(models, id@, k) {
        let k = choose|k: int| #[trigger]
            incoming::sized_model(models, id@, k) && after.header.context_limit
                == models[k].context_window->0;
        assert(models[k].id@ == id@);
    }
}

/// Another session begins with an empty transcript and an empty draft, and nothing of the old
/// one waits for an answer.
pub proof fn resets_leave_nothing(before: AppState, after: AppState, at: Arrival)
    requires
        incoming::applied(before, after, AgentEvent::SessionReset, at),
    ensures
        incoming::blocks(after).len() == 0,
        !after.transcript.streaming,
        after.transcript.queued_steering@.len() == 0,
        after.transcript.queued_follow_up@.len() == 0,
        after.composer.draft().text.len() == 0,
        after.composer.image_attachments@.len() == 0,
        after.pending_permission is None,
        after.pending_oauth is None,
        after.dialog.overlay is Closed,
        after.header.plan_entries@.len() == 0,
        after.header.tasks_total == 0,
        after.header.tasks_complete == 0,
        after.scroll.scroll_from_bottom == 0,
        after.model == before.model,
        after.permission_mode == before.permission_mode,
{
}

/// A sign-in that offers choices opens their list, one that asks for a text opens a field for
/// it, and both keep what is asked; others are only shown.
pub proof fn sign_ins_ask(
    before: AppState,
    after: AppState,
    id: String,
    kind: String,
    message: Option<String>,
    url: Option<String>,
    user_code: Option<String>,
    verification_uri: Option<String>,
    interval_seconds: Option<u64>,
    expires_in_seconds: Option<u64>,
    options: Option<Vec<AuthChoice>>,
    at: Arrival,
)
    requires
        incoming::applied(
            before,
            after,
            AgentEvent::OauthRequest {
                id,
                kind,
                message,
                url,
                user_code,
                verification_uri,
                interval_seconds,
                expires_in_seconds,
                options,
            },
            at,
        ),
    ensures
        kind@ == "select"@ ==> after.dialog.overlay is OauthSelect,
        kind@ == "prompt"@ ==> after.dialog.overlay is OauthPrompt,
        kind@ == "select"@ || kind@ == "prompt"@ ==> {
            &&& after.pending_oauth is Some
            &&& after.pending_oauth->0.id@ == id@
            &&& message matches Some(words) ==> after.pending_oauth->0.message@ == words@
            &&& options matches Some(list) ==> after.pending_oauth->0.option_ids@.len()
                == list@.len() && forall|i: int|
                0 <= i < list@.len() ==> (#[trigger] after.pending_oauth->0.option_ids@[i])@
                    == list@[i].id@
            &&& after.transcript == before.transcript
        },
        kind@ != "select"@ && kind@ != "prompt"@ ==> after.dialog == before.dialog
            && after.pending_oauth == before.pending_oauth && incoming::blocks(after).len()
            == incoming::blocks(before).len() + 1,
{
    reveal_strlit("select");
    reveal_strlit("prompt");
    assert("select"@[0] == 's');
    assert("prompt"@[0] == 'p');
    if kind@ == "select"@ || kind@ == "prompt"@ {
        match options {
            Some(list) => {
                let ids = after.pending_oauth->0.option_ids@;
                assert(text::views(ids).len() == ids.len());
                assert(incoming::choice_ids(list@).len() == list@.len());
                assert forall|i: int| 0 <= i < list@.len() implies (#[trigger] ids[i])@
                    == list@[i].id@ by {
                    assert(text::views(ids)[i] == ids[i]@);
                    assert(incoming::choice_ids(list@)[i] == list@[i].id@);
                }
            },
            None => {},
        }
    }
}

/// What a sign-in shows: its message, then where to go, then the code to enter there.
pub proof fn sign_ins_show_where_to_go(
    message: Option<String>,
    url: Option<String>,
    verification_uri: Option<String>,
    user_code: Option<String>,
)
    ensures
        ({
            let lines = incoming::sign_in_lines(message, url, verification_uri, user_code);
            &&& message matches Some(words) ==> lines.len() > 0 && lines[0] == words@
            &&& url matches Some(address) ==> lines.contains(address@)
            &&& url is None && verification_uri is Some ==> lines.contains(verification_uri->0@)
            &&& user_code matches Some(code) ==> lines.len() > 0 && text::finishes_with(
                lines.last(),
                code@,
            )
        }),
{
    let lines = incoming::sign_in_lines(message, url, verification_uri, user_code);
    let at = if message is Some {
        1int
    } else {
        0int
    };
    match url {
        Some(address) => {
            assert(lines[at] == address@);
        },
        None => match verification_uri {
            Some(address) => {
                assert(lines[at] == address@);
            },
            None => {},
        },
    }
    match user_code {
        Some(code) => {
            let line = "Code: "@ + code@;
            assert(lines.last() == line);
            assert(line.subrange(line.len() - code@.len(), line.len() as int) =~= code@);
        },
        None => {},
    }
}

/// The entries of a session open the list for going back in it, those of the user alone the
/// list for branching off.
pub proof fn trees_open_their_list(
    before: AppState,
    after: AppState,
    entries: Vec<SessionTreeEntry>,
    user_only: bool,
    at: Arrival,
)
    requires
        incoming::applied(before, after, AgentEvent::SessionTree { entries, user_only }, at),
    ensures
        after.tree.session_tree == entries,
        user_only ==> after.dialog.overlay is ForkPicker,
        !user_only ==> after.dialog.overlay is TreePicker,
        after.transcript == before.transcript,
        after.composer == before.composer,
{
}

/// What the backend says of itself is kept as it says it.
pub proof fn other_news_are_kept(before: AppState, after: AppState, event: AgentEvent, at: Arrival)
    requires
        incoming::applied(before, after, event, at),
    ensures
        event matches AgentEvent::ThinkingChanged { level } ==> after.thinking_level == level,
        event matches AgentEvent::ResourcesChanged { resources } ==> after.offers.runtime_commands
            == resources.commands && after.offers.context_files == resources.context_files
            && after.offers.runtime_extensions == resources.extensions,
        event matches AgentEvent::RewindList { checkpoints } ==> after.offers.rewind_checkpoints
            == checkpoints && after.dialog.overlay is RewindPicker,
        event matches AgentEvent::WorkflowArtifact { artifact } ==> after.boards.workflow_artifact
            == Some(*artifact),
        event matches AgentEvent::WorkflowCatalog { workflows } ==> after.boards.workflow_catalog
            == workflows && after.dialog.overlay is WorkflowPicker,
        event matches AgentEvent::WorkflowPreview { preview } ==> after.boards.workflow_preview
            == Some(*preview) && after.dialog.overlay is WorkflowPreview,
        event matches AgentEvent::RuntimeSessions { sessions } ==> after.sessions.runtime_sessions
            == sessions,
        event matches AgentEvent::SessionsChanged { sessions } ==> after.sessions.available_sessions
            == sessions,
        event matches AgentEvent::ModelsChanged { models } ==> after.offers.available_models
            == models,
        event matches AgentEvent::PromptPrefill { text: words } ==> after.composer.draft().text
            == words@ && after.composer.draft().cursor == words@.len() && after.focus is Prompt,
        event is HostCall || event is ToolCallUpdate ==> after == before,
{
}

} // verus!
