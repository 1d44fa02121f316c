//! Slash commands: which there are, how one is completed, and what it does.

use vstd::prelude::*;

use crate::composer;
use crate::composer_state;
use crate::dialog;
use crate::dialogs;
use crate::harness::RuntimeCommand;
use crate::screen;
use crate::state;
use crate::state::AppState;
use crate::state_types::Entry;
use crate::state_types::OverlayAction;
use crate::state_types::OverlayKind;
use crate::state_types::PermissionMode;
use crate::text;
use crate::transcript::Transcript;

verus! {

broadcast use vstd::string::group_string_axioms;

/// The commands that the client runs itself.
#[derive(Clone, Copy, Debug, PartialEq, Eq, Structural)]
pub enum SlashCommand {
    Model,
    Mode,
    Plan,
    Thinking,
    Settings,
    ScopedModels,
    Extensions,
    Login,
    New,
    Resume,
    Dashboard,
    Name,
    Session,
    Clone,
    Tree,
    Fork,
    Compact,
    Context,
    Export,
    Import,
    Trace,
    Copy,
    Rewind,
    Paste,
    Workflow,
    Workflows,
    Tasks,
    Queue,
    Trust,
    Reload,
    Quit,
}

/// A command as it is offered: its name and what it does.
#[derive(Clone, Debug)]
pub struct Suggestion {
    pub name: String,
    pub description: String,
}

/// A command as it is offered.
pub open spec fn offer(s: Suggestion) -> (Seq<char>, Seq<char>) {
    (s.name@, s.description@)
}

/// Commands as they are offered.
pub open spec fn offers_of(v: Seq<Suggestion>) -> Seq<(Seq<char>, Seq<char>)> {
    v.map_values(|s: Suggestion| offer(s))
}

/// The commands that the client offers.
pub open spec fn builtin_offers() -> Seq<(Seq<char>, Seq<char>)> {
    seq![
        ("/model"@, "Switch model"@),
        ("/mode"@, "Cycle the permission mode"@),
        ("/plan"@, "Switch to plan mode"@),
        ("/thinking"@, "Cycle the thinking effort"@),
        ("/settings"@, "Open settings"@),
        ("/scoped-models"@, "Choose the models to cycle through"@),
        ("/extensions"@, "Turn extensions on or off"@),
        ("/login"@, "Log in to a provider"@),
        ("/new"@, "Start a new session"@),
        ("/resume"@, "Open another session"@),
        ("/dashboard"@, "Show the welcome dashboard"@),
        ("/name"@, "Name the session"@),
        ("/session"@, "Show session statistics"@),
        ("/clone"@, "Copy the session"@),
        ("/tree"@, "Walk the session tree"@),
        ("/fork"@, "Fork from an earlier message"@),
        ("/compact"@, "Compact the context"@),
        ("/context"@, "List the context files"@),
        ("/export"@, "Export the session"@),
        ("/import"@, "Import a session file"@),
        ("/trace"@, "Export the event trace"@),
        ("/copy"@, "Copy the last answer"@),
        ("/rewind"@, "Restore an earlier version of a file"@),
        ("/paste"@, "Paste clipboard text or attach an image"@),
        ("/workflow"@, "Run, check or browse workflows"@),
        ("/workflows"@, "Show workflow runs"@),
        ("/tasks"@, "Show subagent tasks"@),
        ("/queue"@, "Show or hide queued messages"@),
        ("/trust"@, "Trust this project"@),
        ("/reload"@, "Reload backend resources"@),
        ("/quit"@, "Leave the client"@),
    ]
}

/// The command with a name. Two commands have a second name that is not offered.
pub open spec fn command_named(name: Seq<char>) -> Option<SlashCommand> {
    if name == "/model"@ {
        Some(SlashCommand::Model)
    } else if name == "/mode"@ {
        Some(SlashCommand::Mode)
    } else if name == "/plan"@ {
        Some(SlashCommand::Plan)
    } else if name == "/thinking"@ {
        Some(SlashCommand::Thinking)
    } else if name == "/settings"@ {
        Some(SlashCommand::Settings)
    } else if name == "/scoped-models"@ {
        Some(SlashCommand::ScopedModels)
    } else if name == "/extensions"@ {
        Some(SlashCommand::Extensions)
    } else if name == "/login"@ {
        Some(SlashCommand::Login)
    } else if name == "/new"@ {
        Some(SlashCommand::New)
    } else if name == "/resume"@ {
        Some(SlashCommand::Resume)
    } else if name == "/dashboard"@ {
        Some(SlashCommand::Dashboard)
    } else if name == "/name"@ {
        Some(SlashCommand::Name)
    } else if name == "/session"@ {
        Some(SlashCommand::Session)
    } else if name == "/clone"@ {
        Some(SlashCommand::Clone)
    } else if name == "/tree"@ {
        Some(SlashCommand::Tree)
    } else if name == "/fork"@ {
        Some(SlashCommand::Fork)
    } else if name == "/compact"@ {
        Some(SlashCommand::Compact)
    } else if name == "/context"@ {
        Some(SlashCommand::Context)
    } else if name == "/export"@ {
        Some(SlashCommand::Export)
    } else if name == "/import"@ {
        Some(SlashCommand::Import)
    } else if name == "/trace"@ {
        Some(SlashCommand::Trace)
    } else if name == "/copy"@ {
        Some(SlashCommand::Copy)
    } else if name == "/rewind"@ {
        Some(SlashCommand::Rewind)
    } else if name == "/paste"@ {
        Some(SlashCommand::Paste)
    } else if name == "/workflow"@ {
        Some(SlashCommand::Workflow)
    } else if name == "/workflows"@ {
        Some(SlashCommand::Workflows)
    } else if name == "/tasks"@ {
        Some(SlashCommand::Tasks)
    } else if name == "/queue"@ {
        Some(SlashCommand::Queue)
    } else if name == "/trust"@ {
        Some(SlashCommand::Trust)
    } else if name == "/reload"@ {
        Some(SlashCommand::Reload)
    } else if name == "/quit"@ {
        Some(SlashCommand::Quit)
    } else if name == "/home"@ {
        Some(SlashCommand::Dashboard)
    } else if name == "/paste-image"@ {
        Some(SlashCommand::Paste)
    } else {
        None
    }
}

/// The command with a name.
pub fn find_command(name: &str) -> (r: Option<SlashCommand>)
    ensures
        r == command_named(name@),
{
    if text::same_text(name, "/model") {
        Some(SlashCommand::Model)
    } else if text::same_text(name, "/mode") {
        Some(SlashCommand::Mode)
    } else if text::same_text(name, "/plan") {
        Some(SlashCommand::Plan)
    } else if text::same_text(name, "/thinking") {
        Some(SlashCommand::Thinking)
    } else if text::same_text(name, "/settings") {
        Some(SlashCommand::Settings)
    } else if text::same_text(name, "/scoped-models") {
        Some(SlashCommand::ScopedModels)
    } else if text::same_text(name, "/extensions") {
        Some(SlashCommand::Extensions)
    } else if text::same_text(name, "/login") {
        Some(SlashCommand::Login)
    } else if text::same_text(name, "/new") {
        Some(SlashCommand::New)
    } else if text::same_text(name, "/resume") {
        Some(SlashCommand::Resume)
    } else if text::same_text(name, "/dashboard") {
        Some(SlashCommand::Dashboard)
    } else if text::same_text(name, "/name") {
        Some(SlashCommand::Name)
    } else if text::same_text(name, "/session") {
        Some(SlashCommand::Session)
    } else if text::same_text(name, "/clone") {
        Some(SlashCommand::Clone)
    } else if text::same_text(name, "/tree") {
        Some(SlashCommand::Tree)
    } else if text::same_text(name, "/fork") {
        Some(SlashCommand::Fork)
    } else if text::same_text(name, "/compact") {
        Some(SlashCommand::Compact)
    } else if text::same_text(name, "/context") {
        Some(SlashCommand::Context)
    } else if text::same_text(name, "/export") {
        Some(SlashCommand::Export)
    } else if text::same_text(name, "/import") {
        Some(SlashCommand::Import)
    } else if text::same_text(name, "/trace") {
        Some(SlashCommand::Trace)
    } else if text::same_text(name, "/copy") {
        Some(SlashCommand::Copy)
    } else if text::same_text(name, "/rewind") {
        Some(SlashCommand::Rewind)
    } else if text::same_text(name, "/paste") {
        Some(SlashCommand::Paste)
    } else if text::same_text(name, "/workflow") {
        Some(SlashCommand::Workflow)
    } else if text::same_text(name, "/workflows") {
        Some(SlashCommand::Workflows)
    } else if text::same_text(name, "/tasks") {
        Some(SlashCommand::Tasks)
    } else if text::same_text(name, "/queue") {
        Some(SlashCommand::Queue)
    } else if text::same_text(name, "/trust") {
        Some(SlashCommand::Trust)
    } else if text::same_text(name, "/reload") {
        Some(SlashCommand::Reload)
    } else if text::same_text(name, "/quit") {
        Some(SlashCommand::Quit)
    } else if text::same_text(name, "/home") {
        Some(SlashCommand::Dashboard)
    } else if text::same_text(name, "/paste-image") {
        Some(SlashCommand::Paste)
    } else {
        None
    }
}

fn add_offer(list: &mut Vec<Suggestion>, name: &str, description: &str)
    ensures
        offers_of(final(list)@) == offers_of(old(list)@).push((name@, description@)),
{
    let ghost before = offers_of(list@);
    list.push(Suggestion { name: name.to_owned(), description: description.to_owned() });
    assert(offers_of(list@) =~= before.push((name@, description@)));
}

/// The commands that the client offers.
fn list_builtins() -> (r: Vec<Suggestion>)
    ensures
        offers_of(r@) == builtin_offers(),
{
    let mut list: Vec<Suggestion> = Vec::new();
    assert(offers_of(list@) =~= Seq::<(Seq<char>, Seq<char>)>::empty());
    add_offer(&mut list, "/model", "Switch model");
    add_offer(&mut list, "/mode", "Cycle the permission mode");
    add_offer(&mut list, "/plan", "Switch to plan mode");
    add_offer(&mut list, "/thinking", "Cycle the thinking effort");
    add_offer(&mut list, "/settings", "Open settings");
    add_offer(&mut list, "/scoped-models", "Choose the models to cycle through");
    add_offer(&mut list, "/extensions", "Turn extensions on or off");
    add_offer(&mut list, "/login", "Log in to a provider");
    add_offer(&mut list, "/new", "Start a new session");
    add_offer(&mut list, "/resume", "Open another session");
    add_offer(&mut list, "/dashboard", "Show the welcome dashboard");
    add_offer(&mut list, "/name", "Name the session");
    add_offer(&mut list, "/session", "Show session statistics");
    add_offer(&mut list, "/clone", "Copy the session");
    add_offer(&mut list, "/tree", "Walk the session tree");
    add_offer(&mut list, "/fork", "Fork from an earlier message");
    add_offer(&mut list, "/compact", "Compact the context");
    add_offer(&mut list, "/context", "List the context files");
    add_offer(&mut list, "/export", "Export the session");
    add_offer(&mut list, "/import", "Import a session file");
    add_offer(&mut list, "/trace", "Export the event trace");
    add_offer(&mut list, "/copy", "Copy the last answer");
    add_offer(&mut list, "/rewind", "Restore an earlier version of a file");
    add_offer(&mut list, "/paste", "Paste clipboard text or attach an image");
    add_offer(&mut list, "/workflow", "Run, check or browse workflows");
    add_offer(&mut list, "/workflows", "Show workflow runs");
    add_offer(&mut list, "/tasks", "Show subagent tasks");
    add_offer(&mut list, "/queue", "Show or hide queued messages");
    add_offer(&mut list, "/trust", "Trust this project");
    add_offer(&mut list, "/reload", "Reload backend resources");
    add_offer(&mut list, "/quit", "Leave the client");
    assert(offers_of(list@) =~= builtin_offers());
    list
}

/// The commands of the backend.
pub open spec fn runtime_offers(commands: Seq<RuntimeCommand>) -> Seq<(Seq<char>, Seq<char>)> {
    commands.map_values(|c: RuntimeCommand| (c.name@, c.description@))
}

/// All commands on offer: those of the client, then those of the backend.
pub open spec fn all_offers(commands: Seq<RuntimeCommand>) -> Seq<(Seq<char>, Seq<char>)> {
    builtin_offers() + runtime_offers(commands)
}

/// All commands on offer.
pub fn list_commands(commands: &Vec<RuntimeCommand>) -> (r: Vec<Suggestion>)
    ensures
        offers_of(r@) == all_offers(commands@),
{
    let mut list: Vec<Suggestion> = list_builtins();
    let mut i: usize = 0;
    assert(offers_of(list@) =~= builtin_offers() + runtime_offers(commands@).take(0));
    while i < commands.len()
        invariant
            i <= commands@.len(),
            offers_of(list@) == builtin_offers() + runtime_offers(commands@).take(i as int),
        decreases commands@.len() - i,
    {
        add_offer(&mut list, commands[i].name.as_str(), commands[i].description.as_str());
        i += 1;
        assert(runtime_offers(commands@).take(i as int) =~= runtime_offers(commands@).take(
            i - 1,
        ).push(runtime_offers(commands@)[i - 1]));
        assert(offers_of(list@) =~= builtin_offers() + runtime_offers(commands@).take(i as int));
    }
    assert(runtime_offers(commands@).take(commands@.len() as int) =~= runtime_offers(commands@));
    list
}

/// Where the word begins that holds or ends at position `at`.
pub open spec fn word_start(s: Seq<char>, at: int) -> int
    decreases at,
{
    if at <= 0 || at > s.len() || text::white_space(s[at - 1]) {
        at
    } else {
        word_start(s, at - 1)
    }
}

/// Where the word ends that holds or begins at position `at`.
pub open spec fn word_end(s: Seq<char>, at: int) -> int
    decreases s.len() - at,
{
    if at < 0 || at >= s.len() || text::white_space(s[at]) {
        at
    } else {
        word_end(s, at + 1)
    }
}

/// The word at a position.
pub open spec fn word_at(s: Seq<char>, at: int) -> Seq<char> {
    s.subrange(word_start(s, at), word_end(s, at))
}

/// The offers whose names begin with a word.
pub open spec fn beginning_with(
    offers: Seq<(Seq<char>, Seq<char>)>,
    word: Seq<char>,
) -> Seq<(Seq<char>, Seq<char>)>
    decreases offers.len(),
{
    if offers.len() == 0 {
        offers
    } else {
        let rest = beginning_with(offers.drop_last(), word);
        if text::begins_with(offers.last().0, word) {
            rest.push(offers.last())
        } else {
            rest
        }
    }
}

/// The suggestions for a draft: the commands whose names begin with the word
/// at the cursor, if that begins with a slash.
pub open spec fn suggestions(prompt: Seq<char>, cursor: int, commands: Seq<RuntimeCommand>) -> Seq<
    (Seq<char>, Seq<char>),
> {
    let word = word_at(prompt, cursor);
    if text::begins_with(word, "/"@) {
        beginning_with(all_offers(commands), word)
    } else {
        Seq::empty()
    }
}

/// Every suggestion begins with the word that it is for.
pub proof fn suggestions_begin_with(
    offers: Seq<(Seq<char>, Seq<char>)>,
    word: Seq<char>,
    k: int,
)
    requires
        0 <= k < beginning_with(offers, word).len(),
    ensures
        text::begins_with(beginning_with(offers, word)[k].0, word),
    decreases offers.len(),
{
    if offers.len() > 0 {
        let rest = beginning_with(offers.drop_last(), word);
        if k < rest.len() {
            suggestions_begin_with(offers.drop_last(), word, k);
        }
    }
}

/// Where the word at a position begins and ends.
fn find_word(chars: &Vec<char>, at: usize) -> (r: (usize, usize))
    requires
        at <= chars@.len(),
    ensures
        r.0 == word_start(chars@, at as int),
        r.1 == word_end(chars@, at as int),
        r.0 <= at <= r.1 <= chars@.len(),
{
    let mut start: usize = at;
    while start > 0 && !text::is_white_space(chars[start - 1])
        invariant
            start <= at <= chars@.len(),
            word_start(chars@, start as int) == word_start(chars@, at as int),
        decreases start,
    {
        start -= 1;
    }
    let mut end: usize = at;
    while end < chars.len() && !text::is_white_space(chars[end])
        invariant
            at <= end <= chars@.len(),
            word_end(chars@, end as int) == word_end(chars@, at as int),
        decreases chars@.len() - end,
    {
        end += 1;
    }
    (start, end)
}

/// The name and the arguments of a draft that is a command line.
pub open spec fn command_line(prompt: Seq<char>) -> Option<(Seq<char>, Seq<char>)> {
    let line = text::trim(prompt);
    if text::begins_with(line, "/"@) {
        Some((line.take(word_end(line, 0)), text::trim(line.skip(word_end(line, 0)))))
    } else {
        None
    }
}

/// The suggestion that is selected.
pub open spec fn picked(list: Seq<(Seq<char>, Seq<char>)>, selected: int) -> Seq<char> {
    if selected < list.len() {
        list[selected].0
    } else {
        list[list.len() - 1].0
    }
}

/// The command that a draft stands for, with its arguments: the one that the
/// line names, the suggestion that is selected for a line that names none, or
/// the one that the word at the cursor names.
pub open spec fn resolved(s: AppState) -> Option<(SlashCommand, Seq<char>)> {
    let prompt = s.composer.prompt@;
    let list = suggestions(prompt, s.composer.cursor as int, s.offers.runtime_commands@);
    match command_line(prompt) {
        Some((name, args)) => match command_named(name) {
            Some(command) => Some((command, args)),
            None => if args.len() == 0 && list.len() > 0 {
                match command_named(picked(list, s.dialog.overlay_selected as int)) {
                    Some(command) => Some((command, args)),
                    None => None,
                }
            } else {
                None
            },
        },
        None => match command_named(word_at(prompt, s.composer.cursor as int)) {
            Some(command) => Some((command, Seq::empty())),
            None => None,
        },
    }
}

/// What the arguments of the workflow command ask for.
pub enum WorkflowRequest {
    Catalog,
    Check(String),
    Start(String, String),
    Unclear,
}

proof fn command_ran(
    before: AppState,
    between: AppState,
    after: AppState,
    command: SlashCommand,
    args: Seq<char>,
    action: OverlayAction,
)
    requires
        resolved(before) == Some((command, args)),
        emptied(before, between),
        effect(between, after, command, args, action),
    ensures
        runs_command(before, after, Some(action)),
{
    assert(exists|b: AppState|
        emptied(before, b) && #[trigger] effect(b, after, command, args, action));
    match resolved(before) {
        None => {},
        Some((c, a)) => {
            assert(c == command && a == args);
            assert(exists|b: AppState| emptied(before, b) && #[trigger] effect(b, after, c, a, action));
        },
    }
}

/// The first word of some arguments, and what stands behind it.
pub open spec fn first_word(args: Seq<char>) -> (Seq<char>, Seq<char>) {
    (args.take(word_end(args, 0)), text::trim(args.skip(word_end(args, 0))))
}

/// What the arguments of the workflow command ask for: nothing for the
/// catalog, a name behind `check` for a preview, and a name and an input for a
/// run. Options are not taken.
pub open spec fn asks(args: Seq<char>, r: WorkflowRequest) -> bool {
    let (name, rest) = first_word(args);
    if args.len() == 0 {
        r is Catalog
    } else if rest.len() == 0 || text::begins_with(rest, "--params"@) {
        r is Unclear
    } else if name == "check"@ {
        r matches WorkflowRequest::Check(workflow) && workflow@ == rest
    } else {
        r matches WorkflowRequest::Start(workflow, input) && workflow@ == name && input@ == rest
    }
}

/// A note was added to the transcript.
pub open spec fn notes(before: AppState, after: AppState, lines: Seq<Seq<char>>) -> bool {
    &&& after == (AppState {
        transcript: Transcript { entries: after.transcript.entries, ..before.transcript },
        ..before
    })
    &&& after.transcript.entries@.len() == before.transcript.entries@.len() + 1
    &&& after.transcript.entries@.drop_last() == before.transcript.entries@
    &&& after.transcript.entries@.last() matches Entry::Assistant { lines: said, timestamp }
        && text::views(said@) == lines && timestamp@ == ""@
}

/// The lines that list the context files.
pub open spec fn context_lines(files: Seq<String>) -> Seq<Seq<char>> {
    seq!["Context files"@] + files.map_values(|f: String| "- "@ + f@)
}

/// A state that differs from another only in the screen that is shown.
pub open spec fn shows_screen(before: AppState, after: AppState, view: screen::View) -> bool {
    after == (AppState { view, ..before })
}

/// An argument, if there is one.
pub open spec fn optional(args: Seq<char>, value: Option<String>) -> bool {
    if args.len() == 0 {
        value is None
    } else {
        value matches Some(v) && v@ == args
    }
}

/// The hash of the workflow that was looked at last, if it is this one.
pub open spec fn previewed_hash(s: AppState, workflow: Seq<char>) -> Option<String> {
    match s.boards.workflow_preview {
        Some(preview) => if preview.name@ == workflow {
            Some(preview.definition_hash)
        } else {
            None
        },
        None => None,
    }
}

/// What a command does.
pub open spec fn effect(
    before: AppState,
    after: AppState,
    command: SlashCommand,
    args: Seq<char>,
    action: OverlayAction,
) -> bool {
    match command {
        SlashCommand::Model => dialogs::opens(before, after, OverlayKind::ModelPicker)
            && action is Nothing,
        SlashCommand::Settings => dialogs::opens(before, after, OverlayKind::Settings)
            && action is Nothing,
        SlashCommand::ScopedModels => dialogs::opens(before, after, OverlayKind::ScopedModels)
            && action is Nothing,
        SlashCommand::Extensions => dialogs::opens(before, after, OverlayKind::Extensions)
            && action is Nothing,
        SlashCommand::Login => dialogs::opens(before, after, OverlayKind::LoginProvider)
            && action is Nothing,
        SlashCommand::Resume => dialogs::opens(before, after, OverlayKind::SessionPicker)
            && action is Nothing,
        SlashCommand::Mode => {
            let mode = before.permission_mode.following();
            &&& after == (AppState { permission_mode: mode, ..before })
            &&& action matches OverlayAction::SetPermissionMode(wire) && wire@ == mode.wire()
        },
        SlashCommand::Plan => {
            &&& after == (AppState { permission_mode: PermissionMode::Plan, ..before })
            &&& action matches OverlayAction::SetPermissionMode(wire) && wire@
                == PermissionMode::Plan.wire()
        },
        SlashCommand::Thinking => after == before && action is CycleThinking,
        SlashCommand::New => after == before && action is NewSession,
        SlashCommand::Dashboard => shows_screen(before, after, screen::View::Dashboard)
            && action is RefreshSessions,
        SlashCommand::Name => if args.len() == 0 {
            notes(before, after, seq!["Usage: /name <session name>"@]) && action is Nothing
        } else {
            after == before && (action matches OverlayAction::NameSession(name) && name@ == args)
        },
        SlashCommand::Session => after == before && action is SessionInfo,
        SlashCommand::Clone => after == before && action is CloneSession,
        SlashCommand::Tree => after == before && action == (OverlayAction::LoadTree {
            user_only: false,
        }),
        SlashCommand::Fork => after == before && action == (OverlayAction::LoadTree {
            user_only: true,
        }),
        SlashCommand::Compact => after == before && (action matches OverlayAction::Compact(words)
            && optional(args, words)),
        SlashCommand::Context => notes(
            before,
            after,
            context_lines(before.offers.context_files@),
        ) && action is Nothing,
        SlashCommand::Export => after == before && (action matches OverlayAction::ExportSession(
            path,
        ) && optional(args, path)),
        SlashCommand::Import => if args.len() == 0 {
            notes(before, after, seq!["Usage: /import <session.jsonl>"@]) && action is Nothing
        } else {
            after == before && (action matches OverlayAction::ImportSession(path) && path@
                == args)
        },
        SlashCommand::Trace => after == before && (action matches OverlayAction::ExportTrace(path)
            && optional(args, path)),
        SlashCommand::Copy => after == before && action is CopyLast,
        SlashCommand::Rewind => dialogs::opens(before, after, OverlayKind::RewindPicker)
            && action is LoadRewinds,
        SlashCommand::Paste => after == before && action is Nothing,
        SlashCommand::Workflow => exists|request: WorkflowRequest| #[trigger]
            asks(args, request) && workflow_effect(before, after, request, action),
        SlashCommand::Workflows => shows_screen(before, after, screen::View::Workflows)
            && action is Nothing,
        SlashCommand::Tasks => shows_screen(before, after, screen::View::Tasks)
            && action is Nothing,
        SlashCommand::Queue => after == (AppState {
            transcript: Transcript {
                queue_visible: !before.transcript.queue_visible,
                ..before.transcript
            },
            ..before
        }) && action is Nothing,
        SlashCommand::Trust => after == before && action == OverlayAction::SetProjectTrust(true),
        SlashCommand::Reload => after == before && action is ReloadResources,
        SlashCommand::Quit => after == before && action is Quit,
    }
}

/// What the workflow command does.
pub open spec fn workflow_effect(
    before: AppState,
    after: AppState,
    request: WorkflowRequest,
    action: OverlayAction,
) -> bool {
    match request {
        WorkflowRequest::Catalog => after == before && action is LoadWorkflowCatalog,
        WorkflowRequest::Check(name) => after == before && action
            == (OverlayAction::PreviewWorkflow { workflow: name }),
        WorkflowRequest::Start(name, text) => after == before && action
            == (OverlayAction::StartWorkflow {
            workflow: name,
            input: text,
            expected_definition_hash: previewed_hash(before, name@),
        }),
        WorkflowRequest::Unclear => notes(
            before,
            after,
            seq!["Usage: /workflow <name> <input> or /workflow check <name>"@],
        ) && action is Nothing,
    }
}

/// The draft was emptied to run a command.
pub open spec fn emptied(before: AppState, after: AppState) -> bool {
    &&& state::composed(before, after)
    &&& composer_state::edited(
        before.composer,
        after.composer,
        composer_state::plain_draft(Seq::empty()),
    )
}

/// What running the command of a draft does: the draft is emptied first.
pub open spec fn runs_command(before: AppState, after: AppState, r: Option<OverlayAction>) -> bool {
    match resolved(before) {
        None => r is None && after == before,
        Some((command, args)) => r matches Some(action) && exists|between: AppState|
            emptied(before, between) && #[trigger] effect(between, after, command, args, action),
    }
}

/// The first word of some arguments, and what stands behind it.
fn split_word(args: &str) -> (r: (String, String))
    ensures
        (r.0@, r.1@) == first_word(args@),
{
    let chars: Vec<char> = text::chars_of(args);
    let (_start, end): (usize, usize) = find_word(&chars, 0);
    let name: String = text::string_between(&chars, 0, end);
    let rest: String = text::string_between(&chars, end, chars.len());
    proof {
        assert(chars@.subrange(0, end as int) =~= chars@.take(end as int));
        assert(chars@.subrange(end as int, chars@.len() as int) =~= chars@.skip(end as int));
    }
    (name, text::trimmed(rest.as_str()))
}

/// Reads the arguments of the workflow command.
fn workflow_request(args: &str) -> (r: WorkflowRequest)
    ensures
        asks(args@, r),
{
    if args.is_empty() {
        return WorkflowRequest::Catalog;
    }
    let (name, rest): (String, String) = split_word(args);
    if rest.as_str().is_empty() || text::starts_with(rest.as_str(), "--params") {
        WorkflowRequest::Unclear
    } else if text::same_text(name.as_str(), "check") {
        WorkflowRequest::Check(rest)
    } else {
        WorkflowRequest::Start(name, rest)
    }
}

fn argument(args: String) -> (r: Option<String>)
    ensures
        optional(args@, r),
{
    if args.as_str().is_empty() {
        None
    } else {
        Some(args)
    }
}

/// The name and the arguments of a draft that is a command line.
fn read_line(prompt: &str) -> (r: Option<(String, String)>)
    ensures
        match r {
            Some((name, args)) => command_line(prompt@) == Some((name@, args@)),
            None => command_line(prompt@) is None,
        },
{
    let line: String = text::trimmed(prompt);
    if text::starts_with(line.as_str(), "/") {
        Some(split_word(line.as_str()))
    } else {
        None
    }
}

impl AppState {
    /// Adds a note to the transcript.
    pub fn add_note(&mut self, lines: Vec<String>)
        ensures
            notes(*old(self), *final(self), text::views(lines@)),
            old(self).wf() ==> final(self).wf(),
    {
        self.transcript.entries.push(Entry::Assistant { lines, timestamp: "".to_owned() });
        assert(self.transcript.entries@.drop_last() =~= old(self).transcript.entries@);
    }

    /// Adds a note of one line to the transcript.
    fn add_line(&mut self, line: &str)
        ensures
            notes(*old(self), *final(self), seq![line@]),
            old(self).wf() ==> final(self).wf(),
    {
        let mut lines: Vec<String> = Vec::new();
        lines.push(line.to_owned());
        assert(text::views(lines@) =~= seq![line@]);
        self.add_note(lines);
    }

    /// Lists the context files in the transcript.
    pub fn show_context_info(&mut self)
        ensures
            notes(*old(self), *final(self), context_lines(old(self).offers.context_files@)),
            old(self).wf() ==> final(self).wf(),
    {
        let files: &Vec<String> = &self.offers.context_files;
        let ghost all = context_lines(files@);
        let mut lines: Vec<String> = Vec::new();
        lines.push("Context files".to_owned());
        let mut i: usize = 0;
        assert(text::views(lines@) =~= all.take(1));
        while i < files.len()
            invariant
                i <= files@.len(),
                all == context_lines(files@),
                text::views(lines@) == all.take(i + 1),
            decreases files@.len() - i,
        {
            let ghost before = text::views(lines@);
            lines.push(text::joined("- ", files[i].as_str()));
            assert(all[i + 1] == "- "@ + files@[i as int]@);
            assert(text::views(lines@) =~= before.push(all[i + 1]));
            assert(all.take(i + 2) =~= all.take(i + 1).push(all[i + 1]));
            i += 1;
        }
        assert(all.take(all.len() as int) =~= all);
        self.add_note(lines);
    }

    /// Runs a command that opens a dialog.
    fn run_opening(&mut self, command: SlashCommand) -> (r: Option<OverlayAction>)
        ensures
            match r {
                Some(action) => effect(*old(self), *final(self), command, Seq::empty(), action)
                    && effect_ignores_arguments(command),
                None => *final(self) == *old(self) && !opens_dialog(command),
            },
            old(self).wf() ==> final(self).wf(),
    {
        let kind: OverlayKind = match command {
            SlashCommand::Model => OverlayKind::ModelPicker,
            SlashCommand::Settings => OverlayKind::Settings,
            SlashCommand::ScopedModels => OverlayKind::ScopedModels,
            SlashCommand::Extensions => OverlayKind::Extensions,
            SlashCommand::Login => OverlayKind::LoginProvider,
            SlashCommand::Resume => OverlayKind::SessionPicker,
            SlashCommand::Rewind => OverlayKind::RewindPicker,
            _ => {
                return None;
            },
        };
        self.open_overlay(kind);
        if command == SlashCommand::Rewind {
            Some(OverlayAction::LoadRewinds)
        } else {
            Some(OverlayAction::Nothing)
        }
    }

    /// Runs a command that only asks the client for something.
    fn run_request(&self, command: SlashCommand, args: String) -> (r: Option<OverlayAction>)
        ensures
            match r {
                Some(action) => effect(*self, *self, command, args@, action),
                None => !requests(command),
            },
    {
        match command {
            SlashCommand::Thinking => Some(OverlayAction::CycleThinking),
            SlashCommand::New => Some(OverlayAction::NewSession),
            SlashCommand::Session => Some(OverlayAction::SessionInfo),
            SlashCommand::Clone => Some(OverlayAction::CloneSession),
            SlashCommand::Tree => Some(OverlayAction::LoadTree { user_only: false }),
            SlashCommand::Fork => Some(OverlayAction::LoadTree { user_only: true }),
            SlashCommand::Compact => Some(OverlayAction::Compact(argument(args))),
            SlashCommand::Export => Some(OverlayAction::ExportSession(argument(args))),
            SlashCommand::Trace => Some(OverlayAction::ExportTrace(argument(args))),
            SlashCommand::Copy => Some(OverlayAction::CopyLast),
            SlashCommand::Paste => Some(OverlayAction::Nothing),
            SlashCommand::Trust => Some(OverlayAction::SetProjectTrust(true)),
            SlashCommand::Reload => Some(OverlayAction::ReloadResources),
            SlashCommand::Quit => Some(OverlayAction::Quit),
            _ => None,
        }
    }

    /// Runs a command that changes a mode or a screen.
    fn run_switch(&mut self, command: SlashCommand) -> (r: Option<OverlayAction>)
        ensures
            match r {
                Some(action) => effect(*old(self), *final(self), command, Seq::empty(), action)
                    && effect_ignores_arguments(command),
                None => *final(self) == *old(self) && !switches(command),
            },
            old(self).wf() ==> final(self).wf(),
    {
        match command {
            SlashCommand::Mode => {
                self.permission_mode = self.permission_mode.next();
                Some(OverlayAction::SetPermissionMode(self.permission_mode.wire_value().to_owned()))
            },
            SlashCommand::Plan => {
                self.permission_mode = PermissionMode::Plan;
                Some(OverlayAction::SetPermissionMode(self.permission_mode.wire_value().to_owned()))
            },
            SlashCommand::Dashboard => {
                self.view = screen::View::Dashboard;
                Some(OverlayAction::RefreshSessions)
            },
            SlashCommand::Workflows => {
                self.view = screen::View::Workflows;
                Some(OverlayAction::Nothing)
            },
            SlashCommand::Tasks => {
                self.view = screen::View::Tasks;
                Some(OverlayAction::Nothing)
            },
            SlashCommand::Queue => {
                self.transcript.queue_visible = !self.transcript.queue_visible;
                Some(OverlayAction::Nothing)
            },
            _ => None,
        }
    }

    /// Runs the workflow command.
    fn run_workflow(&mut self, args: String) -> (r: OverlayAction)
        ensures
            effect(*old(self), *final(self), SlashCommand::Workflow, args@, r),
            old(self).wf() ==> final(self).wf(),
    {
        let request: WorkflowRequest = workflow_request(args.as_str());
        let ghost asked = request;
        let r: OverlayAction = match request {
            WorkflowRequest::Catalog => OverlayAction::LoadWorkflowCatalog,
            WorkflowRequest::Check(workflow) => OverlayAction::PreviewWorkflow { workflow },
            WorkflowRequest::Start(workflow, input) => {
                let expected_definition_hash: Option<String> = match &self.boards.workflow_preview {
                    Some(preview) => if text::same_text(preview.name.as_str(), workflow.as_str()) {
                        Some(preview.definition_hash.clone())
                    } else {
                        None
                    },
                    None => None,
                };
                OverlayAction::StartWorkflow { workflow, input, expected_definition_hash }
            },
            WorkflowRequest::Unclear => {
                self.add_line("Usage: /workflow <name> <input> or /workflow check <name>");
                OverlayAction::Nothing
            },
        };
        assert(asks(args@, asked) && workflow_effect(*old(self), *self, asked, r));
        r
    }

    /// Runs a command.
    fn run_command(&mut self, command: SlashCommand, args: String) -> (r: OverlayAction)
        ensures
            effect(*old(self), *final(self), command, args@, r),
            old(self).wf() ==> final(self).wf(),
    {
        if let Some(action) = self.run_opening(command) {
            return action;
        }
        if let Some(action) = self.run_switch(command) {
            return action;
        }
        match command {
            SlashCommand::Workflow => self.run_workflow(args),
            SlashCommand::Context => {
                self.show_context_info();
                OverlayAction::Nothing
            },
            SlashCommand::Name => if args.as_str().is_empty() {
                self.add_line("Usage: /name <session name>");
                OverlayAction::Nothing
            } else {
                OverlayAction::NameSession(args)
            },
            SlashCommand::Import => if args.as_str().is_empty() {
                self.add_line("Usage: /import <session.jsonl>");
                OverlayAction::Nothing
            } else {
                OverlayAction::ImportSession(args)
            },
            _ => match self.run_request(command, args) {
                Some(action) => action,
                None => OverlayAction::Nothing,
            },
        }
    }
}

/// The commands that open a dialog.
spec fn opens_dialog(command: SlashCommand) -> bool {
    command is Model || command is Settings || command is ScopedModels || command is Extensions
        || command is Login || command is Resume || command is Rewind
}

/// The commands that change a mode or a screen.
spec fn switches(command: SlashCommand) -> bool {
    command is Mode || command is Plan || command is Dashboard || command is Workflows
        || command is Tasks || command is Queue
}

/// The commands that only ask the client for something.
spec fn requests(command: SlashCommand) -> bool {
    command is Thinking || command is New || command is Session || command is Clone
        || command is Tree || command is Fork || command is Compact || command is Export
        || command is Trace || command is Copy || command is Paste || command is Trust
        || command is Reload || command is Quit
}

/// The commands that take no arguments.
spec fn effect_ignores_arguments(command: SlashCommand) -> bool {
    opens_dialog(command) || switches(command)
}

/// Completing replaced the word at the cursor by the suggestion selected.
pub open spec fn completes(before: AppState, after: AppState, r: bool) -> bool {
    let prompt = before.composer.prompt@;
    let cursor = before.composer.cursor as int;
    let list = suggestions(prompt, cursor, before.offers.runtime_commands@);
    let name = picked(list, before.dialog.overlay_selected as int);
    &&& r == (list.len() > 0 && name != word_at(prompt, cursor))
    &&& !r ==> after == before
    &&& r ==> state::composed(before, after) && composer_state::edited(
        before.composer,
        after.composer,
        composer::word_replaced(
            before.composer.draft(),
            word_start(prompt, cursor),
            word_end(prompt, cursor),
            name,
        ),
    )
}

impl AppState {
    /// The suggestions for the draft.
    pub fn slash_suggestions(&self) -> (r: Vec<Suggestion>)
        requires
            self.wf(),
        ensures
            offers_of(r@) == suggestions(
                self.composer.prompt@,
                self.composer.cursor as int,
                self.offers.runtime_commands@,
            ),
    {
        let chars: Vec<char> = text::chars_of(self.composer.prompt.as_str());
        let (start, end): (usize, usize) = find_word(&chars, self.composer.cursor);
        let word: String = text::string_between(&chars, start, end);
        let mut out: Vec<Suggestion> = Vec::new();
        assert(offers_of(out@) =~= Seq::<(Seq<char>, Seq<char>)>::empty());
        if !text::starts_with(word.as_str(), "/") {
            return out;
        }
        let mut all: Vec<Suggestion> = list_commands(&self.offers.runtime_commands);
        let ghost whole = offers_of(all@);
        let _total: usize = all.len();
        let mut i: usize = 0;
        assert(whole.subrange(0, whole.len() as int) =~= whole);
        assert(beginning_with(whole.take(0), word@) =~= Seq::<(Seq<char>, Seq<char>)>::empty());
        while all.len() > 0
            invariant
                i + all@.len() == whole.len(),
                whole.len() <= usize::MAX,
                offers_of(all@) == whole.subrange(i as int, whole.len() as int),
                offers_of(out@) == beginning_with(whole.take(i as int), word@),
            decreases all@.len(),
        {
            let ghost rest = offers_of(all@);
            let ghost before = offers_of(out@);
            assert(rest[0] == offer(all@[0]));
            let first: Suggestion = all.remove(0);
            proof {
                assert(offers_of(all@) =~= rest.subrange(1, rest.len() as int));
                assert(offers_of(all@) =~= whole.subrange(i + 1, whole.len() as int));
                assert(whole.take(i + 1).drop_last() =~= whole.take(i as int));
                assert(whole.take(i + 1).last() == offer(first));
            }
            if text::starts_with(first.name.as_str(), word.as_str()) {
                let ghost said = offer(first);
                out.push(first);
                assert(offers_of(out@) =~= before.push(said));
            }
            i += 1;
        }
        assert(whole.take(whole.len() as int) =~= whole);
        out
    }

    /// Whether a word is the name of a command.
    pub fn is_valid_slash_command(&self, name: &str) -> (r: bool)
        ensures
            r == (command_named(name@) is Some || exists|k: int|
                0 <= k < self.offers.runtime_commands@.len() && (
                #[trigger] self.offers.runtime_commands@[k]).name@ == name@),
    {
        if find_command(name).is_some() {
            return true;
        }
        let mut k: usize = 0;
        while k < self.offers.runtime_commands.len()
            invariant
                k <= self.offers.runtime_commands@.len(),
                forall|j: int|
                    0 <= j < k ==> (#[trigger] self.offers.runtime_commands@[j]).name@ != name@,
            decreases self.offers.runtime_commands@.len() - k,
        {
            if text::same_text(self.offers.runtime_commands[k].name.as_str(), name) {
                return true;
            }
            k += 1;
        }
        false
    }

    /// Completes the word at the cursor. Whether it was changed.
    pub fn complete_slash_command(&mut self) -> (r: bool)
        requires
            old(self).wf(),
        ensures
            completes(*old(self), *final(self), r),
            final(self).wf(),
    {
        let list: Vec<Suggestion> = self.slash_suggestions();
        if list.len() == 0 {
            return false;
        }
        let index: usize = if self.dialog.overlay_selected < list.len() {
            self.dialog.overlay_selected
        } else {
            list.len() - 1
        };
        proof {
            assert(offers_of(list@)[index as int] == offer(list@[index as int]));
        }
        let chars: Vec<char> = text::chars_of(self.composer.prompt.as_str());
        let (start, end): (usize, usize) = find_word(&chars, self.composer.cursor);
        let word: String = text::string_between(&chars, start, end);
        let name: &str = list[index].name.as_str();
        if text::same_text(name, word.as_str()) {
            return false;
        }
        proof {
            assert(offers_of(list@).len() == list@.len());
            assert(offers_of(list@) == beginning_with(
                all_offers(self.offers.runtime_commands@),
                word@,
            ));
            suggestions_begin_with(
                all_offers(self.offers.runtime_commands@),
                word@,
                index as int,
            );
            reveal_strlit("/");
        }
        self.composer.replace_word(start, end, name);
        self.dialog.overlay_selected = 0;
        true
    }

    /// Runs the command of the draft, `None` if it stands for none.
    pub fn activate_slash_command(&mut self) -> (r: Option<OverlayAction>)
        requires
            old(self).wf(),
        ensures
            runs_command(*old(self), *final(self), r),
            final(self).wf(),
    {
        let found: Option<(SlashCommand, String)> = self.resolve_command();
        match found {
            None => None,
            Some((command, args)) => {
                self.clear_prompt_text();
                let ghost between = *self;
                assert(emptied(*old(self), between));
                let action: OverlayAction = self.run_command(command, args);
                assert(effect(between, *self, command, args@, action));
                proof {
                    command_ran(*old(self), between, *self, command, args@, action);
                }
                Some(action)
            },
        }
    }

    /// The command that the draft stands for.
    fn resolve_command(&self) -> (r: Option<(SlashCommand, String)>)
        requires
            self.wf(),
        ensures
            match r {
                Some((command, args)) => resolved(*self) == Some((command, args@)),
                None => resolved(*self) is None,
            },
    {
        match read_line(self.composer.prompt.as_str()) {
            Some((name, args)) => match find_command(name.as_str()) {
                Some(command) => Some((command, args)),
                None => {
                    if !args.as_str().is_empty() {
                        return None;
                    }
                    let list: Vec<Suggestion> = self.slash_suggestions();
                    if list.len() == 0 {
                        return None;
                    }
                    let index: usize = if self.dialog.overlay_selected < list.len() {
                        self.dialog.overlay_selected
                    } else {
                        list.len() - 1
                    };
                    proof {
                        assert(offers_of(list@)[index as int] == offer(list@[index as int]));
                    }
                    match find_command(list[index].name.as_str()) {
                        Some(command) => Some((command, args)),
                        None => None,
                    }
                },
            },
            None => {
                let chars: Vec<char> = text::chars_of(self.composer.prompt.as_str());
                let (start, end): (usize, usize) = find_word(&chars, self.composer.cursor);
                let word: String = text::string_between(&chars, start, end);
                proof {
                    reveal_strlit("");
                    assert(""@ =~= Seq::<char>::empty());
                }
                match find_command(word.as_str()) {
                    Some(command) => Some((command, "".to_owned())),
                    None => None,
                }
            },
        }
    }
}

/// Each command is known by its name, and two of them by a second one; nothing else is a
/// command of the client.
pub proof fn commands_are_known_by_their_names(name: Seq<char>)
    ensures
        command_named(name) == Some(SlashCommand::Model) <==> name == "/model"@,
        command_named(name) == Some(SlashCommand::Mode) <==> name == "/mode"@,
        command_named(name) == Some(SlashCommand::Plan) <==> name == "/plan"@,
        command_named(name) == Some(SlashCommand::Thinking) <==> name == "/thinking"@,
        command_named(name) == Some(SlashCommand::Settings) <==> name == "/settings"@,
        command_named(name) == Some(SlashCommand::ScopedModels) <==> name == "/scoped-models"@,
        command_named(name) == Some(SlashCommand::Extensions) <==> name == "/extensions"@,
        command_named(name) == Some(SlashCommand::Login) <==> name == "/login"@,
        command_named(name) == Some(SlashCommand::New) <==> name == "/new"@,
        command_named(name) == Some(SlashCommand::Resume) <==> name == "/resume"@,
        command_named(name) == Some(SlashCommand::Dashboard) <==> (name == "/dashboard"@ || name == "/home"@),
        command_named(name) == Some(SlashCommand::Name) <==> name == "/name"@,
        command_named(name) == Some(SlashCommand::Session) <==> name == "/session"@,
        command_named(name) == Some(SlashCommand::Clone) <==> name == "/clone"@,
        command_named(name) == Some(SlashCommand::Tree) <==> name == "/tree"@,
        command_named(name) == Some(SlashCommand::Fork) <==> name == "/fork"@,
        command_named(name) == Some(SlashCommand::Compact) <==> name == "/compact"@,
        command_named(name) == Some(SlashCommand::Context) <==> name == "/context"@,
        command_named(name) == Some(SlashCommand::Export) <==> name == "/export"@,
        command_named(name) == Some(SlashCommand::Import) <==> name == "/import"@,
        command_named(name) == Some(SlashCommand::Trace) <==> name == "/trace"@,
        command_named(name) == Some(SlashCommand::Copy) <==> name == "/copy"@,
        command_named(name) == Some(SlashCommand::Rewind) <==> name == "/rewind"@,
        command_named(name) == Some(SlashCommand::Paste) <==> (name == "/paste"@ || name == "/paste-image"@),
        command_named(name) == Some(SlashCommand::Workflow) <==> name == "/workflow"@,
        command_named(name) == Some(SlashCommand::Workflows) <==> name == "/workflows"@,
        command_named(name) == Some(SlashCommand::Tasks) <==> name == "/tasks"@,
        command_named(name) == Some(SlashCommand::Queue) <==> name == "/queue"@,
        command_named(name) == Some(SlashCommand::Trust) <==> name == "/trust"@,
        command_named(name) == Some(SlashCommand::Reload) <==> name == "/reload"@,
        command_named(name) == Some(SlashCommand::Quit) <==> name == "/quit"@,
{
    reveal_strlit("/model");
    reveal_strlit("/mode");
    reveal_strlit("/plan");
    reveal_strlit("/thinking");
    reveal_strlit("/settings");
    reveal_strlit("/scoped-models");
    reveal_strlit("/extensions");
    reveal_strlit("/login");
    reveal_strlit("/new");
    reveal_strlit("/resume");
    reveal_strlit("/dashboard");
    reveal_strlit("/name");
    reveal_strlit("/session");
    reveal_strlit("/clone");
    reveal_strlit("/tree");
    reveal_strlit("/fork");
    reveal_strlit("/compact");
    reveal_strlit("/context");
    reveal_strlit("/export");
    reveal_strlit("/import");
    reveal_strlit("/trace");
    reveal_strlit("/copy");
    reveal_strlit("/rewind");
    reveal_strlit("/paste");
    reveal_strlit("/workflow");
    reveal_strlit("/workflows");
    reveal_strlit("/tasks");
    reveal_strlit("/queue");
    reveal_strlit("/trust");
    reveal_strlit("/reload");
    reveal_strlit("/quit");
    reveal_strlit("/home");
    reveal_strlit("/paste-image");
    assert("/model"@.len() == 6);
    assert("/mode"@.len() == 5);
    assert("/plan"@.len() == 5);
    assert("/thinking"@.len() == 9);
    assert("/settings"@.len() == 9);
    assert("/scoped-models"@.len() == 14);
    assert("/extensions"@.len() == 11);
    assert("/login"@.len() == 6);
    assert("/new"@.len() == 4);
    assert("/resume"@.len() == 7);
    assert("/dashboard"@.len() == 10);
    assert("/name"@.len() == 5);
    assert("/session"@.len() == 8);
    assert("/clone"@.len() == 6);
    assert("/tree"@.len() == 5);
    assert("/fork"@.len() == 5);
    assert("/compact"@.len() == 8);
    assert("/context"@.len() == 8);
    assert("/export"@.len() == 7);
    assert("/import"@.len() == 7);
    assert("/trace"@.len() == 6);
    assert("/copy"@.len() == 5);
    assert("/rewind"@.len() == 7);
    assert("/paste"@.len() == 6);
    assert("/workflow"@.len() == 9);
    assert("/workflows"@.len() == 10);
    assert("/tasks"@.len() == 6);
    assert("/queue"@.len() == 6);
    assert("/trust"@.len() == 6);
    assert("/reload"@.len() == 7);
    assert("/quit"@.len() == 5);
    assert("/home"@.len() == 5);
    assert("/paste-image"@.len() == 12);
    assert("/model"@[4] == 'e');
    assert("/login"@[4] == 'i');
    assert("/clone"@[4] == 'n');
    assert("/trace"@[4] == 'c');
    assert("/paste"@[4] == 't');
    assert("/tasks"@[4] == 'k');
    assert("/queue"@[4] == 'u');
    assert("/trust"@[4] == 's');
    assert("/mode"@[1] == 'm');
    assert("/plan"@[1] == 'p');
    assert("/name"@[1] == 'n');
    assert("/tree"@[1] == 't');
    assert("/fork"@[1] == 'f');
    assert("/copy"@[1] == 'c');
    assert("/quit"@[1] == 'q');
    assert("/home"@[1] == 'h');
    assert("/thinking"@[1] == 't');
    assert("/settings"@[1] == 's');
    assert("/workflow"@[1] == 'w');
    assert("/export"@[1] == 'e');
    assert("/import"@[1] == 'i');
    assert("/reload"@[1] == 'r');
    assert("/reload"@[3] == 'l');
    assert("/resume"@[1] == 'r');
    assert("/resume"@[3] == 's');
    assert("/rewind"@[1] == 'r');
    assert("/rewind"@[3] == 'w');
    assert("/dashboard"@[1] == 'd');
    assert("/workflows"@[1] == 'w');
    assert("/session"@[3] == 's');
    assert("/compact"@[3] == 'm');
    assert("/context"@[3] == 'n');
}

/// Every command that the client offers is one.
pub proof fn offered_commands_are_commands(k: int)
    requires
        0 <= k < builtin_offers().len(),
    ensures
        command_named(builtin_offers()[k].0) is Some,
        builtin_offers()[k].0.len() > 0,
        builtin_offers()[k].0[0] == '/',
        builtin_offers()[k].1.len() > 0,
{
    reveal_strlit("/model");
    reveal_strlit("/mode");
    reveal_strlit("/plan");
    reveal_strlit("/thinking");
    reveal_strlit("/settings");
    reveal_strlit("/scoped-models");
    reveal_strlit("/extensions");
    reveal_strlit("/login");
    reveal_strlit("/new");
    reveal_strlit("/resume");
    reveal_strlit("/dashboard");
    reveal_strlit("/name");
    reveal_strlit("/session");
    reveal_strlit("/clone");
    reveal_strlit("/tree");
    reveal_strlit("/fork");
    reveal_strlit("/compact");
    reveal_strlit("/context");
    reveal_strlit("/export");
    reveal_strlit("/import");
    reveal_strlit("/trace");
    reveal_strlit("/copy");
    reveal_strlit("/rewind");
    reveal_strlit("/paste");
    reveal_strlit("/workflow");
    reveal_strlit("/workflows");
    reveal_strlit("/tasks");
    reveal_strlit("/queue");
    reveal_strlit("/trust");
    reveal_strlit("/reload");
    reveal_strlit("/quit");
    reveal_strlit("Switch model");
    reveal_strlit("Cycle the permission mode");
    reveal_strlit("Switch to plan mode");
    reveal_strlit("Cycle the thinking effort");
    reveal_strlit("Open settings");
    reveal_strlit("Choose the models to cycle through");
    reveal_strlit("Turn extensions on or off");
    reveal_strlit("Log in to a provider");
    reveal_strlit("Start a new session");
    reveal_strlit("Open another session");
    reveal_strlit("Show the welcome dashboard");
    reveal_strlit("Name the session");
    reveal_strlit("Show session statistics");
    reveal_strlit("Copy the session");
    reveal_strlit("Walk the session tree");
    reveal_strlit("Fork from an earlier message");
    reveal_strlit("Compact the context");
    reveal_strlit("List the context files");
    reveal_strlit("Export the session");
    reveal_strlit("Import a session file");
    reveal_strlit("Export the event trace");
    reveal_strlit("Copy the last answer");
    reveal_strlit("Restore an earlier version of a file");
    reveal_strlit("Paste clipboard text or attach an image");
    reveal_strlit("Run, check or browse workflows");
    reveal_strlit("Show workflow runs");
    reveal_strlit("Show subagent tasks");
    reveal_strlit("Show or hide queued messages");
    reveal_strlit("Trust this project");
    reveal_strlit("Reload backend resources");
    reveal_strlit("Leave the client");
}

/// What a command asks the client to do, whatever the state.
pub proof fn commands_do_what_they_say(
    before: AppState,
    after: AppState,
    command: SlashCommand,
    args: Seq<char>,
    action: OverlayAction,
)
    requires
        effect(before, after, command, args, action),
    ensures
        command is Quit <==> action is Quit,
        command is New ==> action is NewSession,
        command is Clone ==> action is CloneSession,
        command is Copy ==> action is CopyLast,
        command is Reload ==> action is ReloadResources,
        command is Thinking ==> action is CycleThinking,
        command is Session ==> action is SessionInfo,
        command is Trust ==> action == OverlayAction::SetProjectTrust(true),
        command is Tree ==> action == (OverlayAction::LoadTree { user_only: false }),
        command is Fork ==> action == (OverlayAction::LoadTree { user_only: true }),
        command is Rewind ==> action is LoadRewinds && after.dialog.overlay is RewindPicker,
        command is Model ==> after.dialog.overlay is ModelPicker,
        command is Settings ==> after.dialog.overlay is Settings,
        command is ScopedModels ==> after.dialog.overlay is ScopedModels,
        command is Extensions ==> after.dialog.overlay is Extensions,
        command is Login ==> after.dialog.overlay is LoginProvider,
        command is Resume ==> after.dialog.overlay is SessionPicker,
        command is Dashboard ==> after.view is Dashboard,
        command is Workflows ==> after.view is Workflows,
        command is Tasks ==> after.view is Tasks,
        command is Plan ==> after.permission_mode is Plan && action is SetPermissionMode,
        command is Mode ==> after.permission_mode != before.permission_mode && action
            is SetPermissionMode,
        command is Queue ==> after.transcript.queue_visible != before.transcript.queue_visible,
        command is Name && args.len() > 0 ==> action is NameSession && action->NameSession_0@
            == args,
        command is Import && args.len() > 0 ==> action is ImportSession && action->ImportSession_0@
            == args,
        command is Compact ==> action is Compact && (args.len() > 0 ==> action->Compact_0 is Some
            && action->Compact_0->0@ == args) && (args.len() == 0 ==> action->Compact_0 is None),
        command is Export ==> action is ExportSession && (args.len() > 0
            ==> action->ExportSession_0 is Some && action->ExportSession_0->0@ == args) && (
        args.len() == 0 ==> action->ExportSession_0 is None),
        (command is Name || command is Import) && args.len() == 0 ==> action is Nothing
            && after.transcript.entries@.len() == before.transcript.entries@.len() + 1,
{
    if command is Mode {
        crate::state_types::modes_come_round(before.permission_mode);
    }
}

/// A line that begins with a slash is a command: its first word is the name, and what stands
/// behind it, without the white space around it, are the arguments.
pub proof fn command_lines_have_name_and_arguments(name: Seq<char>, args: Seq<char>)
    requires
        name.len() > 0,
        name[0] == '/',
        forall|i: int| 0 <= i < name.len() ==> !text::white_space(#[trigger] name[i]),
        args.len() > 0,
        text::trim(args) == args,
    ensures
        command_line(name + seq![' '] + args) == Some((name, args)),
        command_line(name) == Some((name, Seq::<char>::empty())),
{
    reveal_strlit("/");
    assert("/"@ =~= seq!['/']);
    let line = name + seq![' '] + args;
    let _ = text::trimming_takes_white_space(args);
    trim_keeps(line);
    trim_keeps(name);
    word_ends_at(line, 0, name.len() as int);
    word_ends_at(name, 0, name.len() as int);
    assert(line.subrange(0, 1) =~= seq!['/']);
    assert(name.subrange(0, 1) =~= seq!['/']);
    assert(line.take(name.len() as int) =~= name);
    assert(name.take(name.len() as int) =~= name);
    assert(name.skip(name.len() as int) =~= Seq::<char>::empty());
    let rest = line.skip(name.len() as int);
    assert(rest =~= seq![' '] + args);
    assert(text::white_space(' '));
    assert(rest.subrange(1, rest.len() as int) =~= args);
    assert(text::trim_start(rest) == text::trim_start(args));
}

proof fn trim_keeps(s: Seq<char>)
    requires
        s.len() > 0,
        !text::white_space(s[0]),
        !text::white_space(s.last()),
    ensures
        text::trim(s) == s,
{
}

proof fn word_ends_at(s: Seq<char>, from: int, to: int)
    requires
        0 <= from <= to <= s.len(),
        forall|i: int| from <= i < to ==> !text::white_space(#[trigger] s[i]),
        to < s.len() ==> text::white_space(s[to]),
    ensures
        word_end(s, from) == to,
    decreases to - from,
{
    if from < to {
        word_ends_at(s, from + 1, to);
    }
}

/// The word at a place holds no white space, and reaches as far as there is none.
pub proof fn words_hold_no_white_space(s: Seq<char>, at: int, i: int)
    requires
        0 <= at <= s.len(),
    ensures
        0 <= word_start(s, at) <= at <= word_end(s, at) <= s.len(),
        word_start(s, at) <= i < word_end(s, at) ==> !text::white_space(s[i]),
        word_start(s, at) > 0 ==> text::white_space(s[word_start(s, at) - 1]),
        word_end(s, at) < s.len() ==> text::white_space(s[word_end(s, at)]),
{
    words_begin_behind_white_space(s, at, i);
    words_end_before_white_space(s, at, i);
}

proof fn words_begin_behind_white_space(s: Seq<char>, at: int, i: int)
    requires
        0 <= at <= s.len(),
    ensures
        0 <= word_start(s, at) <= at,
        word_start(s, at) <= i < at ==> !text::white_space(s[i]),
        word_start(s, at) > 0 ==> text::white_space(s[word_start(s, at) - 1]),
    decreases at,
{
    if !(at <= 0 || text::white_space(s[at - 1])) {
        words_begin_behind_white_space(s, at - 1, i);
    }
}

proof fn words_end_before_white_space(s: Seq<char>, at: int, i: int)
    requires
        0 <= at <= s.len(),
    ensures
        at <= word_end(s, at) <= s.len(),
        at <= i < word_end(s, at) ==> !text::white_space(s[i]),
        word_end(s, at) < s.len() ==> text::white_space(s[word_end(s, at)]),
    decreases s.len() - at,
{
    if !(at >= s.len() || text::white_space(s[at])) {
        words_end_before_white_space(s, at + 1, i);
    }
}

/// Every command on offer whose name begins with the word is suggested.
pub proof fn fitting_commands_are_suggested(
    offers: Seq<(Seq<char>, Seq<char>)>,
    word: Seq<char>,
    i: int,
)
    requires
        0 <= i < offers.len(),
        text::begins_with(offers[i].0, word),
    ensures
        beginning_with(offers, word).contains(offers[i]),
    decreases offers.len(),
{
    let rest = beginning_with(offers.drop_last(), word);
    let all = beginning_with(offers, word);
    if i == offers.len() - 1 {
        assert(all[rest.len() as int] == offers[i]);
    } else {
        fitting_commands_are_suggested(offers.drop_last(), word, i);
        let k = choose|k: int| 0 <= k < rest.len() && rest[k] == offers[i];
        assert(all[k] == offers[i]);
    }
}

/// Commands are suggested only for a word that begins with a slash; those of the backend are
/// suggested too.
pub proof fn suggestions_need_a_slash(prompt: Seq<char>, cursor: int, commands: Seq<RuntimeCommand>, k: int)
    ensures
        ({
            let word = word_at(prompt, cursor);
            &&& word.len() == 0 || word[0] != '/' ==> suggestions(prompt, cursor, commands).len()
                == 0
            &&& word.len() > 0 && word[0] == '/' && 0 <= k < commands.len() && text::begins_with(
                commands[k].name@,
                word,
            ) ==> suggestions(prompt, cursor, commands).contains(
                (commands[k].name@, commands[k].description@),
            )
        }),
{
    reveal_strlit("/");
    assert("/"@ =~= seq!['/']);
    let word = word_at(prompt, cursor);
    if word.len() > 0 {
        assert(word.subrange(0, 1)[0] == word[0]);
        assert("/"@[0] == '/');
        assert(word.subrange(0, 1) =~= seq![word[0]]);
        if word[0] == '/' && 0 <= k < commands.len() && text::begins_with(commands[k].name@, word) {
            let all = all_offers(commands);
            let i = builtin_offers().len() + k;
            assert(all[i] == (commands[k].name@, commands[k].description@));
            fitting_commands_are_suggested(all, word, i);
        }
    }
}

/// A workflow is started by its name with the rest of the line, looked at behind the word
/// "check", and without a name all of them are listed.
pub proof fn workflow_lines_are_read(
    name: Seq<char>,
    rest: Seq<char>,
    r: WorkflowRequest,
    none: WorkflowRequest,
)
    requires
        name.len() > 0,
        forall|i: int| 0 <= i < name.len() ==> !text::white_space(#[trigger] name[i]),
        rest.len() > 0,
        text::trim(rest) == rest,
        !text::begins_with(rest, "--params"@),
        asks(name + seq![' '] + rest, r),
        asks(Seq::empty(), none),
    ensures
        none is Catalog,
        name == "check"@ ==> r is Check && r->Check_0@ == rest,
        name != "check"@ ==> r is Start && r->Start_0@ == name && r->Start_1@ == rest,
{
    let args = name + seq![' '] + rest;
    assert(text::white_space(' '));
    word_ends_at(args, 0, name.len() as int);
    assert(args.take(name.len() as int) =~= name);
    let tail = args.skip(name.len() as int);
    assert(tail =~= seq![' '] + rest);
    assert(tail.subrange(1, tail.len() as int) =~= rest);
    assert(text::trim_start(tail) == text::trim_start(rest));
}

/// A run of a workflow that was looked at is tied to what was shown.
pub proof fn started_workflows_are_the_ones_shown(
    before: AppState,
    after: AppState,
    name: String,
    words: String,
    action: OverlayAction,
)
    requires
        workflow_effect(before, after, WorkflowRequest::Start(name, words), action),
        before.boards.workflow_preview is Some,
        before.boards.workflow_preview->0.name@ == name@,
    ensures
        action is StartWorkflow,
        action->StartWorkflow_workflow == name,
        action->StartWorkflow_input == words,
        action->StartWorkflow_expected_definition_hash == Some(
            before.boards.workflow_preview->0.definition_hash,
        ),
        after == before,
{
}

/// A completed word is the suggestion that is selected, and the rest of the draft stays.
pub proof fn completing_replaces_the_word(before: AppState, after: AppState)
    requires
        before.wf(),
        completes(before, after, true),
    ensures
        ({
            let prompt = before.composer.prompt@;
            let cursor = before.composer.cursor as int;
            let list = suggestions(prompt, cursor, before.offers.runtime_commands@);
            let k = if before.dialog.overlay_selected < list.len() {
                before.dialog.overlay_selected as int
            } else {
                list.len() - 1
            };
            &&& list.len() > 0
            &&& after.composer.prompt@ == prompt.take(word_start(prompt, cursor)) + list[k].0
                + prompt.skip(word_end(prompt, cursor))
            &&& after.composer.cursor == word_start(prompt, cursor) + list[k].0.len()
        }),
{
    assert(after.composer.draft().text == after.composer.prompt@);
}

} // verus!
