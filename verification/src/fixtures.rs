//! Ready-made states that show what the screen can draw.

use vstd::prelude::*;

use crate::dialogs;
use crate::entry_view;
use crate::entry_view::DiffView;
use crate::entry_view::EntryView;
use crate::scrolling::Scroll;
use crate::state;
use crate::state::AppState;
use crate::state::Header;
use crate::state_types::DiffKind;
use crate::state_types::DiffLine;
use crate::state_types::Entry;
use crate::state_types::Focus;
use crate::state_types::OverlayKind;
use crate::state_types::PendingPermission;
use crate::state_types::PermissionMode;
use crate::state_types::ToolStatus;
use crate::text;
use crate::transcript::Transcript;

verus! {

broadcast use vstd::string::group_string_axioms;

/// A ready-made state.
#[derive(Clone, Copy, Debug, PartialEq, Eq, Structural)]
pub enum Story {
    Conversation,
    Streaming,
    Markdown,
    Tools,
    Palette,
    ModelPicker,
    Settings,
    Permission,
}

impl Story {
    /// The story's name.
    pub open spec fn name(self) -> Seq<char> {
        match self {
            Story::Conversation => "conversation"@,
            Story::Streaming => "streaming"@,
            Story::Markdown => "markdown"@,
            Story::Tools => "tools"@,
            Story::Palette => "palette"@,
            Story::ModelPicker => "model-picker"@,
            Story::Settings => "settings"@,
            Story::Permission => "permission"@,
        }
    }

    /// The story of this name.
    pub fn parse(value: &str) -> (r: Option<Story>)
        ensures
            match r {
                Some(story) => story.name() == value@,
                None => forall|story: Story| #[trigger] story.name() != value@,
            },
    {
        let stories: [Story; 8] = [
            Story::Conversation,
            Story::Streaming,
            Story::Markdown,
            Story::Tools,
            Story::Palette,
            Story::ModelPicker,
            Story::Settings,
            Story::Permission,
        ];
        let mut i: usize = 0;
        while i < 8
            invariant
                i <= 8,
                stories@ == all_stories(),
                forall|k: int| 0 <= k < i ==> (#[trigger] all_stories()[k]).name() != value@,
            decreases 8 - i,
        {
            assert(stories@[i as int] == all_stories()[i as int]);
            if text::same_text(stories[i].label(), value) {
                return Some(stories[i]);
            }
            i += 1;
        }
        assert forall|story: Story| #[trigger] story.name() != value@ by {
            let k = story_place(story);
            assert(all_stories()[k] == story);
        }
        None
    }

    /// The story's name.
    pub fn label(self) -> (r: &'static str)
        ensures
            r@ == self.name(),
    {
        match self {
            Story::Conversation => "conversation",
            Story::Streaming => "streaming",
            Story::Markdown => "markdown",
            Story::Tools => "tools",
            Story::Palette => "palette",
            Story::ModelPicker => "model-picker",
            Story::Settings => "settings",
            Story::Permission => "permission",
        }
    }

    /// The state that the story shows.
    pub open spec fn shows(self, s: AppState) -> bool {
        match self {
            Story::Conversation => is_conversation(s),
            Story::Streaming => is_streaming(s),
            Story::Markdown => is_markdown(s),
            Story::Tools => is_tools(s),
            Story::Palette => shows_dialog(s, OverlayKind::CommandPalette),
            Story::ModelPicker => shows_dialog(s, OverlayKind::ModelPicker),
            Story::Settings => shows_dialog(s, OverlayKind::Settings),
            Story::Permission => is_permission(s),
        }
    }

    /// The state that the story shows.
    pub fn state(self) -> (r: AppState)
        ensures
            self.shows(r),
            r.wf(),
    {
        match self {
            Story::Conversation => conversation(),
            Story::Streaming => streaming(),
            Story::Markdown => markdown(),
            Story::Tools => tools(),
            Story::Palette => with_overlay(OverlayKind::CommandPalette),
            Story::ModelPicker => with_overlay(OverlayKind::ModelPicker),
            Story::Settings => with_overlay(OverlayKind::Settings),
            Story::Permission => permission(),
        }
    }
}

spec fn all_stories() -> Seq<Story> {
    seq![
        Story::Conversation,
        Story::Streaming,
        Story::Markdown,
        Story::Tools,
        Story::Palette,
        Story::ModelPicker,
        Story::Settings,
        Story::Permission,
    ]
}

spec fn story_place(story: Story) -> int {
    match story {
        Story::Conversation => 0,
        Story::Streaming => 1,
        Story::Markdown => 2,
        Story::Tools => 3,
        Story::Palette => 4,
        Story::ModelPicker => 5,
        Story::Settings => 6,
        Story::Permission => 7,
    }
}

/// The words of literals.
pub open spec fn words(v: Seq<&'static str>) -> Seq<Seq<char>> {
    v.map_values(|s: &'static str| s@)
}

fn owned(v: Vec<&'static str>) -> (r: Vec<String>)
    ensures
        text::views(r@) == words(v@),
{
    let mut out: Vec<String> = Vec::new();
    let mut i: usize = 0;
    while i < v.len()
        invariant
            i <= v@.len(),
            out@.len() == i,
            forall|k: int| 0 <= k < i ==> (#[trigger] out@[k])@ == v@[k]@,
        decreases v@.len() - i,
    {
        out.push(v[i].to_owned());
        i += 1;
    }
    assert(text::views(out@) =~= words(v@));
    out
}

fn user(said: &str, at: &str) -> (r: Entry)
    ensures
        entry_view::entry_view(r) == (EntryView::User { text: said@, timestamp: at@ }),
{
    Entry::User { text: said.to_owned(), timestamp: at.to_owned() }
}

fn reasoning(thought: &str, active: bool, expanded: bool) -> (r: Entry)
    ensures
        entry_view::entry_view(r) == (EntryView::Reasoning { text: thought@, active, expanded }),
{
    Entry::Reasoning { text: thought.to_owned(), active, expanded }
}

/// A tool call of a story.
pub open spec fn call(
    id: Seq<char>,
    label: Seq<char>,
    detail: Seq<char>,
    status: ToolStatus,
    duration: Seq<char>,
    result: Option<Seq<char>>,
    expanded: bool,
) -> EntryView {
    EntryView::Tool {
        id,
        label,
        detail,
        status,
        duration: Some(duration),
        started_at: None,
        result,
        expanded,
    }
}

fn tool(
    id: String,
    label: &str,
    detail: String,
    status: ToolStatus,
    duration: &str,
    result: Option<String>,
    expanded: bool,
) -> (r: Entry)
    ensures
        entry_view::entry_view(r) == call(
            id@,
            label@,
            detail@,
            status,
            duration@,
            entry_view::option_view(result),
            expanded,
        ),
{
    Entry::Tool {
        id,
        label: label.to_owned(),
        detail,
        status,
        duration: Some(duration.to_owned()),
        started_at: None,
        result,
        expanded,
    }
}

fn diff(number: u32, line: &str, kind: DiffKind) -> (r: DiffLine)
    ensures
        r.number == Some(number),
        r.text@ == line@,
        r.kind == kind,
{
    DiffLine { number: Some(number), text: line.to_owned(), kind }
}

/// A state that is fresh but for the parts that a story sets.
pub open spec fn told(s: AppState) -> bool {
    exists|base: AppState| #[trigger] state::fresh(base) && sets(base, s)
}

/// Only the parts that a story sets have changed.
pub open spec fn sets(before: AppState, after: AppState) -> bool {
    &&& after == (AppState {
        focus: after.focus,
        permission_mode: after.permission_mode,
        model: after.model,
        status: after.status,
        placeholder: after.placeholder,
        header: after.header,
        transcript: after.transcript,
        scroll: after.scroll,
        ..before
    })
    &&& after.transcript == (Transcript {
        entries: after.transcript.entries,
        streaming: after.transcript.streaming,
        ..before.transcript
    })
    &&& after.scroll == (Scroll {
        scroll_from_bottom: after.scroll.scroll_from_bottom,
        ..before.scroll
    })
    &&& after.header == (Header {
        branch: after.header.branch,
        cwd: after.header.cwd,
        context_used: after.header.context_used,
        context_limit: after.header.context_limit,
        tasks_complete: after.header.tasks_complete,
        tasks_total: after.header.tasks_total,
        ..before.header
    })
}

/// The parts that a story leaves as they are in a fresh state.
pub open spec fn settled(s: AppState) -> bool {
    &&& s.focus == Focus::Prompt
    &&& s.status@ == ""@
    &&& s.placeholder@ == "Ask anything"@
    &&& !s.transcript.streaming
}

/// The diff of the conversation.
pub open spec fn conversation_diff() -> Seq<DiffView> {
    seq![
        context(155, "Within seconds (Reverb). If Reverb is unreachable, the"@),
        context(156, "wire:poll.60s fallback keeps it fresh."@),
        context(157, "Apply a filter that returns no rows — the empty state should"@),
        context(158, "read ‘Tidak ada transaksi yang cocok dengan filter saat"@),
        context(159, "ini.’ Clear the filter and the empty state should switch"@),
        context(160, "back to ‘Belum ada pembayaran masuk bulan ini.’"@),
        DiffView { number: Some(165), text: "Co-authored by Grok."@, kind: DiffKind::Added },
    ]
}

/// A line of a diff that has not changed.
pub open spec fn context(number: u32, line: Seq<char>) -> DiffView {
    DiffView { number: Some(number), text: line, kind: DiffKind::Context }
}

/// The summary that ends the conversation.
pub open spec fn conversation_summary() -> Seq<Seq<char>> {
    seq![
        "Done. Here's the summary:"@,
        ""@,
        "⚑ PR opened"@,
        ""@,
        "#103 — feat(collector): searchbar + filters on History (Riwayat) page"@,
        ""@,
        "• Base: main"@,
        "• Head: collector-improvement"@,
        "• State: OPEN"@,
        "• Diffs: 3 files, +604 / -2"@,
        "• Review requested: fahmiirsyad"@,
        ""@,
        "What landed in the commit"@,
        ""@,
        "One commit (68cb7b) on collector-improvement:"@,
        ""@,
        "feat(collector): searchbar + filters on History (Riwayat) page"@,
    ]
}

/// The blocks of the conversation.
pub open spec fn conversation_entries() -> Seq<EntryView> {
    seq![
        EntryView::User {
            text: "okay commit and create a pr explaining what changes."@,
            timestamp: "5:01 PM"@,
        },
        EntryView::Diff {
            id: "fixture-diff-1"@,
            path: "app/Livewire/History.php"@,
            lines: conversation_diff(),
            expanded: true,
        },
        call(
            "tool-pr"@,
            "Run"@,
            "Open the pull request on GitHub"@,
            ToolStatus::Success,
            "1.2s"@,
            Some("Pull request #103 opened successfully."@),
            false,
        ),
        call(
            "tool-verify"@,
            "Run"@,
            "Verify the PR was created"@,
            ToolStatus::Success,
            "640ms"@,
            Some("State: OPEN · review requested"@),
            false,
        ),
        EntryView::Assistant { lines: conversation_summary(), timestamp: "5:03 PM"@ },
    ]
}

/// What the conversation sets besides its blocks.
pub open spec fn conversation_setting(s: AppState) -> bool {
    &&& told(s)
    &&& s.header.branch@ == "collector-improvement"@
    &&& s.header.cwd@ == "~/dev/mynet_revamp/app"@
    &&& s.header.context_used == 126000
    &&& s.header.context_limit == 200000
    &&& s.header.tasks_complete == 7
    &&& s.header.tasks_total == 8
    &&& s.model@ == "Minimax M3 via opencode-go"@
    &&& s.permission_mode == PermissionMode::AlwaysApprove
    &&& s.scroll.scroll_from_bottom == 12
    &&& s.focus == Focus::Prompt
}

/// A finished conversation.
pub open spec fn is_conversation(s: AppState) -> bool {
    &&& conversation_setting(s)
    &&& settled(s)
    &&& entry_view::entry_views(s.transcript.entries@) == conversation_entries()
}

fn diff_of_conversation() -> (r: Vec<DiffLine>)
    ensures
        entry_view::diff_views(r@) == conversation_diff(),
{
    let mut lines: Vec<DiffLine> = Vec::new();
    lines.push(
        diff(155, "Within seconds (Reverb). If Reverb is unreachable, the", DiffKind::Context),
    );
    lines.push(diff(156, "wire:poll.60s fallback keeps it fresh.", DiffKind::Context));
    lines.push(
        diff(
            157,
            "Apply a filter that returns no rows — the empty state should",
            DiffKind::Context,
        ),
    );
    lines.push(
        diff(158, "read ‘Tidak ada transaksi yang cocok dengan filter saat", DiffKind::Context),
    );
    lines.push(
        diff(159, "ini.’ Clear the filter and the empty state should switch", DiffKind::Context),
    );
    lines.push(diff(160, "back to ‘Belum ada pembayaran masuk bulan ini.’", DiffKind::Context));
    lines.push(diff(165, "Co-authored by Grok.", DiffKind::Added));
    assert(entry_view::diff_views(lines@) =~= conversation_diff());
    lines
}

fn summary_of_conversation() -> (r: Vec<String>)
    ensures
        text::views(r@) == conversation_summary(),
{
    let lines: Vec<&'static str> = vec![
        "Done. Here's the summary:",
        "",
        "⚑ PR opened",
        "",
        "#103 — feat(collector): searchbar + filters on History (Riwayat) page",
        "",
        "• Base: main",
        "• Head: collector-improvement",
        "• State: OPEN",
        "• Diffs: 3 files, +604 / -2",
        "• Review requested: fahmiirsyad",
        "",
        "What landed in the commit",
        "",
        "One commit (68cb7b) on collector-improvement:",
        "",
        "feat(collector): searchbar + filters on History (Riwayat) page",
    ];
    assert(words(lines@) =~= conversation_summary());
    owned(lines)
}

fn entries_of_conversation() -> (r: Vec<Entry>)
    ensures
        entry_view::entry_views(r@) == conversation_entries(),
{
    let mut entries: Vec<Entry> = Vec::new();
    entries.push(user("okay commit and create a pr explaining what changes.", "5:01 PM"));
    entries.push(
        Entry::Diff {
            id: "fixture-diff-1".to_owned(),
            path: "app/Livewire/History.php".to_owned(),
            lines: diff_of_conversation(),
            expanded: true,
        },
    );
    entries.push(
        tool(
            "tool-pr".to_owned(),
            "Run",
            "Open the pull request on GitHub".to_owned(),
            ToolStatus::Success,
            "1.2s",
            Some("Pull request #103 opened successfully.".to_owned()),
            false,
        ),
    );
    entries.push(
        tool(
            "tool-verify".to_owned(),
            "Run",
            "Verify the PR was created".to_owned(),
            ToolStatus::Success,
            "640ms",
            Some("State: OPEN · review requested".to_owned()),
            false,
        ),
    );
    entries.push(
        Entry::Assistant {
            lines: summary_of_conversation(),
            timestamp: "5:03 PM".to_owned(),
        },
    );
    assert(entry_view::entry_views(entries@) =~= conversation_entries());
    entries
}

/// A finished conversation.
pub fn conversation() -> (r: AppState)
    ensures
        is_conversation(r),
        r.wf(),
{
    let mut s: AppState = AppState::default();
    let ghost base = s;
    s.header.branch = "collector-improvement".to_owned();
    s.header.cwd = "~/dev/mynet_revamp/app".to_owned();
    s.header.context_used = 126000;
    s.header.context_limit = 200000;
    s.header.tasks_complete = 7;
    s.header.tasks_total = 8;
    s.transcript.entries = entries_of_conversation();
    s.model = "Minimax M3 via opencode-go".to_owned();
    s.permission_mode = PermissionMode::AlwaysApprove;
    s.scroll.scroll_from_bottom = 12;
    assert(state::fresh(base) && sets(base, s));
    s
}

/// The block of a long session at a place.
pub open spec fn long_entry(index: int) -> EntryView {
    let number = text::decimal(index as nat);
    if index % 4 == 0 {
        EntryView::User {
            text: "Prompt "@ + number
                + ": inspect the current implementation and report findings."@,
            timestamp: "12:00 PM"@,
        }
    } else if index % 4 == 1 {
        EntryView::Assistant {
            lines: seq![
                "Result "@ + number,
                "A compact response with **markdown** output."@,
            ],
            timestamp: "12:00 PM"@,
        }
    } else if index % 4 == 2 {
        EntryView::Reasoning {
            text: "Reviewing the relevant files and checking the implementation details."@,
            active: false,
            expanded: false,
        }
    } else {
        call(
            "tool-"@ + number,
            "Read"@,
            "src/file-"@ + number + ".rs"@,
            ToolStatus::Success,
            "12ms"@,
            Some("A sufficiently large stored tool result\nwith a second output line."@),
            index % 16 == 3,
        )
    }
}

fn long_entry_at(index: usize) -> (r: Entry)
    ensures
        entry_view::entry_view(r) == long_entry(index as int),
{
    let number: String = text::decimal_text(index as u64);
    let turn: usize = index % 4;
    if turn == 0 {
        let said: String = text::joined3(
            "Prompt ",
            number.as_str(),
            ": inspect the current implementation and report findings.",
        );
        user(said.as_str(), "12:00 PM")
    } else if turn == 1 {
        let mut lines: Vec<String> = Vec::new();
        lines.push(text::joined("Result ", number.as_str()));
        lines.push("A compact response with **markdown** output.".to_owned());
        assert(text::views(lines@) =~= seq![
            "Result "@ + text::decimal(index as nat),
            "A compact response with **markdown** output."@,
        ]);
        Entry::Assistant { lines, timestamp: "12:00 PM".to_owned() }
    } else if turn == 2 {
        reasoning(
            "Reviewing the relevant files and checking the implementation details.",
            false,
            false,
        )
    } else {
        tool(
            text::joined("tool-", number.as_str()),
            "Read",
            text::joined3("src/file-", number.as_str(), ".rs"),
            ToolStatus::Success,
            "12ms",
            Some(
                "A sufficiently large stored tool result\nwith a second output line.".to_owned(),
            ),
            index % 16 == 3,
        )
    }
}

/// A session of this many blocks, read from its end.
pub open spec fn is_long_session(s: AppState, count: nat) -> bool {
    &&& exists|base: AppState| #[trigger]
        state::fresh(base) && s == (AppState {
            focus: Focus::Scrollback,
            transcript: Transcript { entries: s.transcript.entries, ..base.transcript },
            ..base
        })
    &&& entry_view::entry_views(s.transcript.entries@) == Seq::new(
        count,
        |i: int| long_entry(i),
    )
}

/// A session of this many blocks, read from its end.
pub fn long_session(count: usize) -> (r: AppState)
    ensures
        is_long_session(r, count as nat),
        r.wf(),
{
    let mut s: AppState = AppState::default();
    let ghost base = s;
    let mut entries: Vec<Entry> = Vec::new();
    let mut i: usize = 0;
    while i < count
        invariant
            i <= count,
            entries@.len() == i,
            forall|k: int|
                0 <= k < i ==> entry_view::entry_view(#[trigger] entries@[k]) == long_entry(k),
        decreases count - i,
    {
        entries.push(long_entry_at(i));
        i += 1;
    }
    assert(entry_view::entry_views(entries@) =~= Seq::new(count as nat, |k: int| long_entry(k)));
    s.transcript.entries = entries;
    s.focus = Focus::Scrollback;
    assert(state::fresh(base));
    s
}

/// The blocks that follow the prompt while a turn runs.
pub open spec fn streaming_entries() -> Seq<EntryView> {
    seq![
        conversation_entries()[0],
        EntryView::Reasoning {
            text: "Comparing the implementation with the requested interface."@,
            active: true,
            expanded: false,
        },
        call(
            "tool-streaming"@,
            "Run"@,
            "cargo test · 1.8s"@,
            ToolStatus::Running,
            "1.8s"@,
            None,
            false,
        ),
    ]
}

/// A conversation with a running turn.
pub open spec fn is_streaming(s: AppState) -> bool {
    &&& conversation_setting(s)
    &&& s.placeholder@ == "Type the next request while this turn is running…"@
    &&& s.status@ == "generating…"@
    &&& s.transcript.streaming
    &&& entry_view::entry_views(s.transcript.entries@) == streaming_entries()
}

/// A conversation with a running turn.
pub fn streaming() -> (r: AppState)
    ensures
        is_streaming(r),
        r.wf(),
{
    let mut s: AppState = conversation();
    let ghost base = choose|base: AppState| #[trigger] state::fresh(base) && sets(base, s);
    let ghost views = entry_view::entry_views(s.transcript.entries@);
    assert(views.len() == s.transcript.entries@.len());
    s.transcript.entries.truncate(1);
    assert(entry_view::entry_view(s.transcript.entries@[0]) == views[0]);
    s.transcript.entries.push(
        reasoning("Comparing the implementation with the requested interface.", true, false),
    );
    s.transcript.entries.push(
        tool(
            "tool-streaming".to_owned(),
            "Run",
            "cargo test · 1.8s".to_owned(),
            ToolStatus::Running,
            "1.8s",
            None,
            false,
        ),
    );
    assert(entry_view::entry_views(s.transcript.entries@) =~= streaming_entries());
    s.placeholder = "Type the next request while this turn is running…".to_owned();
    s.status = "generating…".to_owned();
    s.transcript.streaming = true;
    assert(state::fresh(base) && sets(base, s));
    s
}

/// The answer that shows the markup.
pub open spec fn markdown_lines() -> Seq<Seq<char>> {
    seq![
        "# Renderer design"@,
        ""@,
        "The renderer converts **typed entries** into styled terminal lines."@,
        ""@,
        "- Wrap prose to the viewport width"@,
        "- Preserve `inline code` styling"@,
        "- Render fenced blocks with a separate background"@,
        ""@,
        "```rust"@,
        "fn render(entry: &Entry) -> Vec<Line<'static>> {"@,
        "    match entry {"@,
        "        Entry::Assistant { lines, .. } => markdown::render(lines),"@,
        "        _ => Vec::new(),"@,
        "    }"@,
        "}"@,
        "```"@,
    ]
}

/// The blocks of the answer that shows the markup.
pub open spec fn markdown_entries() -> Seq<EntryView> {
    seq![
        EntryView::User {
            text: "Show the renderer design and a small Rust example."@,
            timestamp: "12:14 AM"@,
        },
        EntryView::Reasoning {
            text:
                "I’ll describe the rendering pipeline, then include a compact implementation example. The block can be folded after streaming completes."@,
            active: false,
            expanded: true,
        },
        EntryView::Assistant { lines: markdown_lines(), timestamp: "12:14 AM"@ },
    ]
}

/// An answer that shows the markup.
pub open spec fn is_markdown(s: AppState) -> bool {
    &&& told(s)
    &&& settled(s)
    &&& s.header.branch@ == "ui-markdown"@
    &&& s.header.cwd@ == "~/dev/pi-shell"@
    &&& s.header.context_used == 18400
    &&& s.header.context_limit == 200000
    &&& s.header.tasks_complete == 0
    &&& s.header.tasks_total == 0
    &&& s.model@ == "Mock model"@
    &&& s.permission_mode == PermissionMode::Normal
    &&& s.scroll.scroll_from_bottom == 0
    &&& entry_view::entry_views(s.transcript.entries@) == markdown_entries()
}

fn lines_of_markdown() -> (r: Vec<String>)
    ensures
        text::views(r@) == markdown_lines(),
{
    let lines: Vec<&'static str> = vec![
        "# Renderer design",
        "",
        "The renderer converts **typed entries** into styled terminal lines.",
        "",
        "- Wrap prose to the viewport width",
        "- Preserve `inline code` styling",
        "- Render fenced blocks with a separate background",
        "",
        "```rust",
        "fn render(entry: &Entry) -> Vec<Line<'static>> {",
        "    match entry {",
        "        Entry::Assistant { lines, .. } => markdown::render(lines),",
        "        _ => Vec::new(),",
        "    }",
        "}",
        "```",
    ];
    assert(words(lines@) =~= markdown_lines());
    owned(lines)
}

/// An answer that shows the markup.
pub fn markdown() -> (r: AppState)
    ensures
        is_markdown(r),
        r.wf(),
{
    let mut s: AppState = AppState::default();
    let ghost base = s;
    s.header.branch = "ui-markdown".to_owned();
    s.header.cwd = "~/dev/pi-shell".to_owned();
    s.header.context_used = 18400;
    s.header.context_limit = 200000;
    let mut entries: Vec<Entry> = Vec::new();
    entries.push(user("Show the renderer design and a small Rust example.", "12:14 AM"));
    entries.push(
        reasoning(
            "I’ll describe the rendering pipeline, then include a compact implementation example. The block can be folded after streaming completes.",
            false,
            true,
        ),
    );
    entries.push(
        Entry::Assistant { lines: lines_of_markdown(), timestamp: "12:14 AM".to_owned() },
    );
    assert(entry_view::entry_views(entries@) =~= markdown_entries());
    s.transcript.entries = entries;
    s.model = "Mock model".to_owned();
    assert(state::fresh(base) && sets(base, s));
    s
}

/// The diff among the tool calls.
pub open spec fn tools_diff() -> Seq<DiffView> {
    seq![
        DiffView {
            number: Some(141),
            text: "let border = theme.border;"@,
            kind: DiffKind::Removed,
        },
        DiffView {
            number: Some(141),
            text: "let border = focused_border(state, theme);"@,
            kind: DiffKind::Added,
        },
        context(142, "render_widget(composer, area);"@),
    ]
}

/// The blocks that show tool calls.
pub open spec fn tools_entries() -> Seq<EntryView> {
    seq![
        EntryView::User {
            text: "Run the checks and show me what changed."@,
            timestamp: "12:26 AM"@,
        },
        call(
            "tool-test"@,
            "Run"@,
            "cargo test --workspace"@,
            ToolStatus::Running,
            "2.4s"@,
            None,
            false,
        ),
        call(
            "tool-clippy"@,
            "Run"@,
            "cargo clippy --workspace"@,
            ToolStatus::Success,
            "810ms"@,
            Some("Finished dev profile. No warnings."@),
            true,
        ),
        call(
            "tool-broken"@,
            "Run"@,
            "cargo test broken-package"@,
            ToolStatus::Error,
            "320ms"@,
            Some("error: package ID specification did not match any packages"@),
            true,
        ),
        EntryView::Diff {
            id: "fixture-diff-2"@,
            path: "crates/pi-tui/src/ui.rs"@,
            lines: tools_diff(),
            expanded: true,
        },
    ]
}

/// Tool calls that run, succeeded and failed.
pub open spec fn is_tools(s: AppState) -> bool {
    &&& told(s)
    &&& settled(s)
    &&& s.header.branch@ == "ui-tools"@
    &&& s.header.cwd@ == "~/dev/pi-shell"@
    &&& s.header.context_used == 0
    &&& s.header.context_limit == 0
    &&& s.header.tasks_complete == 0
    &&& s.header.tasks_total == 0
    &&& s.model@ == "Mock model"@
    &&& s.permission_mode == PermissionMode::Normal
    &&& s.scroll.scroll_from_bottom == 0
    &&& entry_view::entry_views(s.transcript.entries@) == tools_entries()
}

fn diff_of_tools() -> (r: Vec<DiffLine>)
    ensures
        entry_view::diff_views(r@) == tools_diff(),
{
    let mut lines: Vec<DiffLine> = Vec::new();
    lines.push(diff(141, "let border = theme.border;", DiffKind::Removed));
    lines.push(diff(141, "let border = focused_border(state, theme);", DiffKind::Added));
    lines.push(diff(142, "render_widget(composer, area);", DiffKind::Context));
    assert(entry_view::diff_views(lines@) =~= tools_diff());
    lines
}

fn entries_of_tools() -> (r: Vec<Entry>)
    ensures
        entry_view::entry_views(r@) == tools_entries(),
{
    let mut entries: Vec<Entry> = Vec::new();
    entries.push(user("Run the checks and show me what changed.", "12:26 AM"));
    entries.push(
        tool(
            "tool-test".to_owned(),
            "Run",
            "cargo test --workspace".to_owned(),
            ToolStatus::Running,
            "2.4s",
            None,
            false,
        ),
    );
    entries.push(
        tool(
            "tool-clippy".to_owned(),
            "Run",
            "cargo clippy --workspace".to_owned(),
            ToolStatus::Success,
            "810ms",
            Some("Finished dev profile. No warnings.".to_owned()),
            true,
        ),
    );
    entries.push(
        tool(
            "tool-broken".to_owned(),
            "Run",
            "cargo test broken-package".to_owned(),
            ToolStatus::Error,
            "320ms",
            Some("error: package ID specification did not match any packages".to_owned()),
            true,
        ),
    );
    entries.push(
        Entry::Diff {
            id: "fixture-diff-2".to_owned(),
            path: "crates/pi-tui/src/ui.rs".to_owned(),
            lines: diff_of_tools(),
            expanded: true,
        },
    );
    assert(entry_view::entry_views(entries@) =~= tools_entries());
    entries
}

/// Tool calls that run, succeeded and failed.
pub fn tools() -> (r: AppState)
    ensures
        is_tools(r),
        r.wf(),
{
    let mut s: AppState = AppState::default();
    let ghost base = s;
    s.header.branch = "ui-tools".to_owned();
    s.header.cwd = "~/dev/pi-shell".to_owned();
    s.transcript.entries = entries_of_tools();
    s.model = "Mock model".to_owned();
    assert(state::fresh(base) && sets(base, s));
    s
}

/// The answer that shows the markup, under a dialog.
pub open spec fn shows_dialog(s: AppState, kind: OverlayKind) -> bool {
    exists|before: AppState| #[trigger] is_markdown(before) && dialogs::opens(before, s, kind)
}

fn with_overlay(kind: OverlayKind) -> (r: AppState)
    ensures
        shows_dialog(r, kind),
        r.wf(),
{
    let mut s: AppState = markdown();
    let ghost before = s;
    s.open_overlay(kind);
    assert(is_markdown(before));
    s
}

/// The tool calls with the question whether one may run.
pub open spec fn asked(before: AppState, after: AppState) -> bool {
    &&& after == (AppState { pending_permission: after.pending_permission, ..before })
    &&& match after.pending_permission {
        Some(p) => p.id@ == "permission-1"@ && p.tool@ == "bash"@ && p.reason@
            == "Run cargo test --workspace"@,
        None => false,
    }
}

/// The tool calls under the question whether one may run.
pub open spec fn is_permission(s: AppState) -> bool {
    exists|calls: AppState, pending: AppState| #[trigger]
        asked(calls, pending) && is_tools(calls) && dialogs::opens(
            pending,
            s,
            OverlayKind::Permission,
        )
}

fn permission() -> (r: AppState)
    ensures
        is_permission(r),
        r.wf(),
{
    let mut s: AppState = tools();
    let ghost calls = s;
    s.pending_permission = Some(
        PendingPermission {
            id: "permission-1".to_owned(),
            tool: "bash".to_owned(),
            reason: "Run cargo test --workspace".to_owned(),
        },
    );
    let ghost pending = s;
    s.open_overlay(OverlayKind::Permission);
    assert(asked(calls, pending));
    s
}

} // verus!
