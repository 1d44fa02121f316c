//! The values that the screen state is made of.

use vstd::prelude::*;

use crate::text;

verus! {

broadcast use vstd::string::group_string_axioms;

/// Which pane of the transcript screen takes the keys.
#[derive(Clone, Copy, Debug, PartialEq, Eq, Structural)]
pub enum Focus {
    Prompt,
    Scrollback,
}

/// The dialog over the screen.
#[derive(Clone, Copy, Debug, PartialEq, Eq, Structural)]
pub enum OverlayKind {
    Closed,
    CommandPalette,
    ModelPicker,
    WorkflowPicker,
    WorkflowPreview,
    SessionPicker,
    SessionRename,
    SessionDeleteConfirm,
    TreePicker,
    ForkPicker,
    TreeSummaryPicker,
    TreeSummaryEditor,
    PasteEditor,
    ImageViewer,
    LabelEditor,
    FilePicker,
    ScopedModels,
    SubagentModelPicker,
    OauthPrompt,
    OauthSelect,
    LoginProvider,
    ThinkingPicker,
    RewindPicker,
    Settings,
    Extensions,
    Permission,
}

/// The palette in use.
#[derive(Clone, Copy, Debug, PartialEq, Eq, Structural)]
pub enum ThemeMode {
    Dark,
    Light,
}

impl ThemeMode {
    /// The palette's name.
    pub open spec fn name(self) -> Seq<char> {
        match self {
            ThemeMode::Dark => "dark"@,
            ThemeMode::Light => "light"@,
        }
    }

    /// The other palette.
    pub open spec fn other(self) -> ThemeMode {
        match self {
            ThemeMode::Dark => ThemeMode::Light,
            ThemeMode::Light => ThemeMode::Dark,
        }
    }

    /// The palette's name.
    pub fn label(self) -> (r: &'static str)
        ensures
            r@ == self.name(),
    {
        match self {
            ThemeMode::Dark => "dark",
            ThemeMode::Light => "light",
        }
    }

    /// Switches to the other palette.
    pub fn toggled(self) -> (r: ThemeMode)
        ensures
            r == self.other(),
    {
        match self {
            ThemeMode::Dark => ThemeMode::Light,
            ThemeMode::Light => ThemeMode::Dark,
        }
    }
}

/// How tool calls are approved.
#[derive(Clone, Copy, Debug, PartialEq, Eq, Structural)]
pub enum PermissionMode {
    Normal,
    Plan,
    AlwaysApprove,
}

impl PermissionMode {
    /// The name shown on the screen.
    pub open spec fn name(self) -> Seq<char> {
        match self {
            PermissionMode::Normal => "normal"@,
            PermissionMode::Plan => "plan"@,
            PermissionMode::AlwaysApprove => "always approve"@,
        }
    }

    /// The name sent to the backend.
    pub open spec fn wire(self) -> Seq<char> {
        match self {
            PermissionMode::Normal => "normal"@,
            PermissionMode::Plan => "plan"@,
            PermissionMode::AlwaysApprove => "always-approve"@,
        }
    }

    /// The mode that follows in the cycle normal, plan, always approve.
    pub open spec fn following(self) -> PermissionMode {
        match self {
            PermissionMode::Normal => PermissionMode::Plan,
            PermissionMode::Plan => PermissionMode::AlwaysApprove,
            PermissionMode::AlwaysApprove => PermissionMode::Normal,
        }
    }

    /// The name shown on the screen.
    pub fn label(self) -> (r: &'static str)
        ensures
            r@ == self.name(),
    {
        match self {
            PermissionMode::Normal => "normal",
            PermissionMode::Plan => "plan",
            PermissionMode::AlwaysApprove => "always approve",
        }
    }

    /// The name sent to the backend.
    pub fn wire_value(self) -> (r: &'static str)
        ensures
            r@ == self.wire(),
    {
        match self {
            PermissionMode::Normal => "normal",
            PermissionMode::Plan => "plan",
            PermissionMode::AlwaysApprove => "always-approve",
        }
    }

    /// The mode that follows in the cycle.
    pub fn next(self) -> (r: PermissionMode)
        ensures
            r == self.following(),
    {
        match self {
            PermissionMode::Normal => PermissionMode::Plan,
            PermissionMode::Plan => PermissionMode::AlwaysApprove,
            PermissionMode::AlwaysApprove => PermissionMode::Normal,
        }
    }
}

/// The order of the session list.
#[derive(Clone, Copy, Debug, PartialEq, Eq, Structural)]
pub enum SessionSort {
    Threaded,
    Recent,
}

impl SessionSort {
    /// The order's name.
    pub open spec fn name(self) -> Seq<char> {
        match self {
            SessionSort::Threaded => "Threaded"@,
            SessionSort::Recent => "Recent"@,
        }
    }

    /// The order that follows in the cycle.
    pub open spec fn following(self) -> SessionSort {
        match self {
            SessionSort::Threaded => SessionSort::Recent,
            SessionSort::Recent => SessionSort::Threaded,
        }
    }

    /// The order's name.
    pub fn label(self) -> (r: &'static str)
        ensures
            r@ == self.name(),
    {
        match self {
            SessionSort::Threaded => "Threaded",
            SessionSort::Recent => "Recent",
        }
    }

    /// The order that follows in the cycle.
    pub fn next(self) -> (r: SessionSort)
        ensures
            r == self.following(),
    {
        match self {
            SessionSort::Threaded => SessionSort::Recent,
            SessionSort::Recent => SessionSort::Threaded,
        }
    }
}

/// Which entries of the session tree are listed.
#[derive(Clone, Copy, Debug, PartialEq, Eq, Structural)]
pub enum TreeFilter {
    Default,
    NoTools,
    UserOnly,
    LabeledOnly,
    All,
}

impl TreeFilter {
    /// The filter's name.
    pub open spec fn name(self) -> Seq<char> {
        match self {
            TreeFilter::Default => "default"@,
            TreeFilter::NoTools => "no-tools"@,
            TreeFilter::UserOnly => "user-only"@,
            TreeFilter::LabeledOnly => "labeled-only"@,
            TreeFilter::All => "all"@,
        }
    }

    /// The filter that follows in the cycle.
    pub open spec fn following(self) -> TreeFilter {
        match self {
            TreeFilter::Default => TreeFilter::NoTools,
            TreeFilter::NoTools => TreeFilter::UserOnly,
            TreeFilter::UserOnly => TreeFilter::LabeledOnly,
            TreeFilter::LabeledOnly => TreeFilter::All,
            TreeFilter::All => TreeFilter::Default,
        }
    }

    /// The filter's name.
    pub fn label(self) -> (r: &'static str)
        ensures
            r@ == self.name(),
    {
        match self {
            TreeFilter::Default => "default",
            TreeFilter::NoTools => "no-tools",
            TreeFilter::UserOnly => "user-only",
            TreeFilter::LabeledOnly => "labeled-only",
            TreeFilter::All => "all",
        }
    }

    /// The filter that follows in the cycle.
    pub fn next(self) -> (r: TreeFilter)
        ensures
            r == self.following(),
    {
        match self {
            TreeFilter::Default => TreeFilter::NoTools,
            TreeFilter::NoTools => TreeFilter::UserOnly,
            TreeFilter::UserOnly => TreeFilter::LabeledOnly,
            TreeFilter::LabeledOnly => TreeFilter::All,
            TreeFilter::All => TreeFilter::Default,
        }
    }
}

/// How far a tool call has come.
#[derive(Clone, Copy, Debug, PartialEq, Eq, Structural)]
pub enum ToolStatus {
    Running,
    Success,
    Error,
}

/// What a line of a diff is.
#[derive(Clone, Copy, Debug, PartialEq, Eq, Structural)]
pub enum DiffKind {
    Added,
    Removed,
    Context,
}

/// A line of a diff.
#[derive(Clone, Debug)]
pub struct DiffLine {
    pub number: Option<u32>,
    pub text: String,
    pub kind: DiffKind,
}

/// A block of the transcript. Times are milliseconds.
#[derive(Clone, Debug)]
pub enum Entry {
    User { text: String, timestamp: String },
    Assistant { lines: Vec<String>, timestamp: String },
    Reasoning { text: String, active: bool, expanded: bool },
    Tool {
        id: String,
        label: String,
        detail: String,
        status: ToolStatus,
        duration: Option<String>,
        started_at: Option<u64>,
        result: Option<String>,
        expanded: bool,
    },
    Diff { id: String, path: String, lines: Vec<DiffLine>, expanded: bool },
    Plan { expanded: bool },
    Compaction {
        summary: String,
        active: bool,
        tokens_before: Option<u64>,
        tokens_after: Option<u64>,
        error: Option<String>,
        started_at: Option<u64>,
    },
}

impl Entry {
    /// Whether the block is unfolded, `None` if it cannot be folded.
    pub open spec fn unfolded(self) -> Option<bool> {
        match self {
            Entry::Reasoning { expanded, .. } => Some(expanded),
            Entry::Tool { expanded, .. } => Some(expanded),
            Entry::Diff { expanded, .. } => Some(expanded),
            Entry::Plan { expanded } => Some(expanded),
            _ => None,
        }
    }

    /// The block, folded or unfolded; one that cannot be folded stays as it is.
    pub open spec fn folded_to(self, to: bool) -> Entry {
        match self {
            Entry::Reasoning { text, active, expanded } => Entry::Reasoning {
                text,
                active,
                expanded: to,
            },
            Entry::Tool {
                id,
                label,
                detail,
                status,
                duration,
                started_at,
                result,
                expanded,
            } => Entry::Tool {
                id,
                label,
                detail,
                status,
                duration,
                started_at,
                result,
                expanded: to,
            },
            Entry::Diff { id, path, lines, expanded } => Entry::Diff {
                id,
                path,
                lines,
                expanded: to,
            },
            Entry::Plan { expanded } => Entry::Plan { expanded: to },
            other => other,
        }
    }

    /// Whether the block is unfolded, `None` if it cannot be folded.
    pub fn expansion(&self) -> (r: Option<bool>)
        ensures
            r == self.unfolded(),
    {
        match self {
            Entry::Reasoning { expanded, .. } => Some(*expanded),
            Entry::Tool { expanded, .. } => Some(*expanded),
            Entry::Diff { expanded, .. } => Some(*expanded),
            Entry::Plan { expanded } => Some(*expanded),
            _ => None,
        }
    }

    /// Folds or unfolds the block.
    pub fn set_expanded(&mut self, to: bool)
        ensures
            *final(self) == old(self).folded_to(to),
    {
        match self {
            Entry::Reasoning { expanded, .. } => {
                *expanded = to;
            },
            Entry::Tool { expanded, .. } => {
                *expanded = to;
            },
            Entry::Diff { expanded, .. } => {
                *expanded = to;
            },
            Entry::Plan { expanded } => {
                *expanded = to;
            },
            _ => {},
        }
    }

    /// Whether the block is a tool call.
    pub fn is_tool(&self) -> (r: bool)
        ensures
            r == (self is Tool),
    {
        match self {
            Entry::Tool { .. } => true,
            _ => false,
        }
    }

    /// Whether the block is a diff.
    pub fn is_diff(&self) -> (r: bool)
        ensures
            r == (self is Diff),
    {
        match self {
            Entry::Diff { .. } => true,
            _ => false,
        }
    }

    /// Whether the block is reasoning.
    pub fn is_reasoning(&self) -> (r: bool)
        ensures
            r == (self is Reasoning),
    {
        match self {
            Entry::Reasoning { .. } => true,
            _ => false,
        }
    }

    /// Whether the block is a plan.
    pub fn is_plan(&self) -> (r: bool)
        ensures
            r == (self is Plan),
    {
        match self {
            Entry::Plan { .. } => true,
            _ => false,
        }
    }
}

/// A tool call that waits for an answer.
#[derive(Clone, Debug)]
pub struct PendingPermission {
    pub id: String,
    pub tool: String,
    pub reason: String,
}

/// A question of a sign-in that waits for an answer.
#[derive(Clone, Debug)]
pub struct PendingOauth {
    pub id: String,
    pub message: String,
    pub option_ids: Vec<String>,
    pub option_labels: Vec<String>,
}

/// An image that goes with the next message, with a small copy to look at:
/// four bytes for each of its pixels.
#[derive(Clone, Debug)]
pub struct ImageAttachment {
    pub id: u64,
    pub path: String,
    pub name: String,
    pub width: usize,
    pub height: usize,
    pub mime_type: String,
    pub temporary: bool,
    pub preview_width: u16,
    pub preview_height: u16,
    pub preview_rgba: Vec<u8>,
}

/// A stretch of a screen row that answers to the pointer.
#[derive(Clone, Copy, Debug, PartialEq, Eq, Structural)]
pub struct Target {
    pub id: u64,
    pub start: u16,
    pub end: u16,
    pub row: u16,
}

impl Target {
    /// The stretch covers this cell.
    pub open spec fn covers(self, column: u16, row: u16) -> bool {
        row == self.row && self.start <= column < self.end
    }
}

/// The identifier of the first target that covers a cell.
pub open spec fn hit(targets: Seq<Target>, column: u16, row: u16) -> Option<u64>
    decreases targets.len(),
{
    if targets.len() == 0 {
        None
    } else if targets[0].covers(column, row) {
        Some(targets[0].id)
    } else {
        hit(targets.skip(1), column, row)
    }
}

/// The first target that covers a cell.
pub fn target_at(targets: &Vec<Target>, column: u16, row: u16) -> (r: Option<u64>)
    ensures
        r == hit(targets@, column, row),
{
    let mut i: usize = 0;
    assert(targets@.skip(0) =~= targets@);
    while i < targets.len()
        invariant
            i <= targets@.len(),
            hit(targets@.skip(i as int), column, row) == hit(targets@, column, row),
        decreases targets@.len() - i,
    {
        assert(targets@.skip(i as int)[0] == targets@[i as int]);
        assert(targets@.skip(i as int).skip(1) =~= targets@.skip(i + 1));
        if targets[i].row == row && targets[i].start <= column && column < targets[i].end {
            return Some(targets[i].id);
        }
        i += 1;
    }
    None
}

/// A place in the text of the paste editor and the cell that shows it.
#[derive(Clone, Copy, Debug, PartialEq, Eq, Structural)]
pub struct TextCell {
    pub column: u16,
    pub row: u16,
    pub offset: usize,
}

/// A drag over the transcript: where it began and how far the transcript was
/// scrolled then.
#[derive(Clone, Copy, Debug, PartialEq, Eq, Structural)]
pub struct ScrollDrag {
    pub row: u16,
    pub scroll: usize,
}

/// A target of the transcript: an entry and the identifier of what was hit.
#[derive(Clone, Debug)]
pub struct SectionTarget {
    pub index: usize,
    pub id: String,
}

impl SectionTarget {
    /// Whether two targets are the same.
    pub open spec fn matches_target(self, other: SectionTarget) -> bool {
        self.index == other.index && self.id@ == other.id@
    }

    /// A copy of the target.
    pub fn copy(&self) -> (r: SectionTarget)
        ensures
            r == *self,
    {
        SectionTarget { index: self.index, id: self.id.clone() }
    }
}

/// The value of a backend setting.
#[derive(Clone, Debug)]
pub enum SettingValue {
    Text(String),
    Flag(bool),
    Null,
}

/// What a dialog or a command asks the client to do.
#[derive(Clone, Debug)]
pub enum OverlayAction {
    Nothing,
    Quit,
    SetTheme(ThemeMode),
    RefreshSessions,
    LoadWorkflowCatalog,
    PreviewWorkflow { workflow: String },
    StartWorkflow { workflow: String, input: String, expected_definition_hash: Option<String> },
    Permission { request_id: String, decision: crate::harness::PermissionDecision },
    SetModel { id: String },
    ResumeSession { target: String },
    RenameSession { target: String, name: String },
    DeleteSession { target: String },
    NewSession,
    NameSession(String),
    SessionInfo,
    CloneSession,
    Compact(Option<String>),
    LoadTree { user_only: bool },
    NavigateTree { entry_id: String, summarize: bool, instructions: Option<String> },
    ForkSession { entry_id: String },
    SetLabel { entry_id: String, label: Option<String> },
    CycleThinking,
    SetThinking(String),
    ReloadResources,
    SetRuntimeSetting { key: String, value: SettingValue },
    SetProjectTrust(bool),
    SetScopedModels(Vec<String>),
    SetExtensionEnabled { path: String, enabled: bool },
    ExportSession(Option<String>),
    ImportSession(String),
    CopyLast,
    BeginOauth(String),
    OauthReply { id: String, value: Option<String> },
    SetPermissionMode(String),
    LoadRewinds,
    RewindFile(String),
    ExportTrace(Option<String>),
}

/// How long ago something happened, in words.
pub open spec fn age(then: u64, now: u64) -> Seq<char> {
    let passed: int = if now >= then {
        now - then
    } else {
        0
    };
    if passed < 60_000 {
        "now"@
    } else if passed < 3_600_000 {
        text::decimal((passed / 60_000) as nat) + "m ago"@
    } else if passed < 86_400_000 {
        text::decimal((passed / 3_600_000) as nat) + "h ago"@
    } else {
        text::decimal((passed / 86_400_000) as nat) + "d ago"@
    }
}

/// How long before `now` a session was last used, both in milliseconds.
pub fn format_session_age(then: u64, now: u64) -> (r: String)
    ensures
        r@ == age(then, now),
{
    let passed: u64 = if now >= then {
        now - then
    } else {
        0
    };
    if passed < 60_000 {
        "now".to_owned()
    } else if passed < 3_600_000 {
        text::joined(text::decimal_text(passed / 60_000).as_str(), "m ago")
    } else if passed < 86_400_000 {
        text::joined(text::decimal_text(passed / 3_600_000).as_str(), "h ago")
    } else {
        text::joined(text::decimal_text(passed / 86_400_000).as_str(), "d ago")
    }
}

/// The permission modes come round.
pub proof fn modes_come_round(mode: PermissionMode)
    ensures
        mode.following().following().following() == mode,
        mode.following() != mode,
{
}

/// The filters of the tree come round.
pub proof fn filters_come_round(filter: TreeFilter)
    ensures
        filter.following().following().following().following().following() == filter,
        filter.following() != filter,
{
}

/// The modes follow each other from asking to planning to approving everything and back, and
/// the backend knows them by these names.
pub proof fn modes_have_their_names(a: PermissionMode, b: PermissionMode)
    ensures
        PermissionMode::Normal.following() is Plan,
        PermissionMode::Plan.following() is AlwaysApprove,
        PermissionMode::AlwaysApprove.following() is Normal,
        a is Normal ==> a.wire() == "normal"@,
        a is Plan ==> a.wire() == "plan"@,
        a is AlwaysApprove ==> a.wire() == "always-approve"@,
        a.wire() == b.wire() ==> a == b,
        a.name() == b.name() ==> a == b,
{
    reveal_strlit("normal");
    reveal_strlit("plan");
    reveal_strlit("always-approve");
    reveal_strlit("always approve");
    assert("normal"@.len() == 6);
    assert("plan"@.len() == 4);
    assert("always-approve"@.len() == 14);
    assert("always approve"@.len() == 14);
    assert("always-approve"@[6] == '-');
    assert("always approve"@[6] == ' ');
}

/// A palette and an order of sessions have one other, and come back after it; their names, and
/// those of the filters, tell them apart.
pub proof fn choices_come_back(
    theme: ThemeMode,
    sort: SessionSort,
    a: TreeFilter,
    b: TreeFilter,
)
    ensures
        theme.other() != theme,
        theme.other().other() == theme,
        theme is Dark ==> theme.name() == "dark"@,
        theme is Light ==> theme.name() == "light"@,
        sort.following() != sort,
        sort.following().following() == sort,
        sort is Recent ==> sort.name() == "Recent"@,
        sort is Threaded ==> sort.name() == "Threaded"@,
        a.following() != a,
        a.name() == b.name() ==> a == b,
{
    reveal_strlit("default");
    reveal_strlit("no-tools");
    reveal_strlit("user-only");
    reveal_strlit("labeled-only");
    reveal_strlit("all");
    assert("default"@.len() == 7);
    assert("no-tools"@.len() == 8);
    assert("user-only"@.len() == 9);
    assert("labeled-only"@.len() == 12);
    assert("all"@.len() == 3);
}

/// A block that can be folded is as it was told to be, and only that changes.
pub proof fn folding_changes_the_fold(entry: Entry, to: bool)
    ensures
        entry.unfolded() is Some ==> entry.folded_to(to).unfolded() == Some(to),
        entry.unfolded() is None ==> entry.folded_to(to) == entry,
        entry is Reasoning || entry is Tool || entry is Diff || entry is Plan
            <==> entry.unfolded() is Some,
        entry.unfolded() matches Some(was) ==> entry.folded_to(to).folded_to(was) == entry,
{
}

/// A click reaches the first target that covers the cell, and none where none does.
pub proof fn clicks_reach_their_target(targets: Seq<Target>, column: u16, row: u16, i: int)
    requires
        0 <= i < targets.len(),
        targets[i].row == row,
        targets[i].start <= column < targets[i].end,
        forall|j: int|
            0 <= j < i ==> !((#[trigger] targets[j]).row == row && targets[j].start <= column
                < targets[j].end),
    ensures
        hit(targets, column, row) == Some(targets[i].id),
    decreases targets.len(),
{
    if i > 0 {
        assert(!targets[0].covers(column, row));
        let rest = targets.skip(1);
        assert forall|j: int| 0 <= j < i - 1 implies !((#[trigger] rest[j]).row == row
            && rest[j].start <= column < rest[j].end) by {
            assert(rest[j] == targets[j + 1]);
        }
        clicks_reach_their_target(rest, column, row, i - 1);
    }
}

/// A click beside all targets reaches none.
pub proof fn other_clicks_reach_nothing(targets: Seq<Target>, column: u16, row: u16)
    requires
        forall|j: int|
            0 <= j < targets.len() ==> !((#[trigger] targets[j]).row == row && targets[j].start
                <= column < targets[j].end),
    ensures
        hit(targets, column, row) is None,
    decreases targets.len(),
{
    if targets.len() > 0 {
        assert(!targets[0].covers(column, row));
        let rest = targets.skip(1);
        assert forall|j: int| 0 <= j < rest.len() implies !((#[trigger] rest[j]).row == row
            && rest[j].start <= column < rest[j].end) by {
            assert(rest[j] == targets[j + 1]);
        }
        other_clicks_reach_nothing(rest, column, row);
    }
}

/// How long ago something was is told in whole minutes, hours or days, in the largest of them
/// that has passed, and as now within the first minute and for what is still to come.
pub proof fn ages_are_told_in_whole_units(then: u64, now: u64) -> (r: (nat, char))
    ensures
        now < then + 60_000 <==> age(then, now) =~= seq!['n', 'o', 'w'],
        now >= then + 60_000 ==> ({
            let passed = now - then;
            let unit: int = if r.1 == 'm' {
                60_000
            } else if r.1 == 'h' {
                3_600_000
            } else {
                86_400_000
            };
            &&& age(then, now) =~= text::decimal(r.0) + seq![r.1, ' ', 'a', 'g', 'o']
            &&& r.0 * unit <= passed < (r.0 + 1) * unit
            &&& r.0 >= 1
            &&& r.1 == 'm' || r.1 == 'h' || r.1 == 'd'
            &&& r.1 == 'm' ==> r.0 < 60
            &&& r.1 == 'h' ==> r.0 < 24
        }),
{
    reveal_strlit("now");
    reveal_strlit("m ago");
    reveal_strlit("h ago");
    reveal_strlit("d ago");
    assert("now"@.len() == 3);
    assert("m ago"@.len() == 5);
    assert("h ago"@.len() == 5);
    assert("d ago"@.len() == 5);
    assert("m ago"@[0] == 'm');
    assert("h ago"@[0] == 'h');
    assert("d ago"@[0] == 'd');
    assert("now"@ =~= seq!['n', 'o', 'w']);
    let passed: int = if now >= then {
        now - then
    } else {
        0
    };
    let r = if passed < 3_600_000 {
        ((passed / 60_000) as nat, 'm')
    } else if passed < 86_400_000 {
        ((passed / 3_600_000) as nat, 'h')
    } else {
        ((passed / 86_400_000) as nat, 'd')
    };
    if now >= then + 60_000 {
        text::numbers_have_digits(r.0, 0);
        assert(age(then, now) =~= text::decimal(r.0) + seq![r.1, ' ', 'a', 'g', 'o']);
        assert(age(then, now).last() == 'o');
    }
    r
}

} // verus!
