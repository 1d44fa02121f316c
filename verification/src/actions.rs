//! The actions of the client and the keys that trigger them, for input, palette and hints.

use vstd::prelude::*;

use crate::text;

verus! {

broadcast use vstd::string::group_string_axioms;

/// A key.
#[derive(Clone, Copy, Debug, PartialEq, Eq, Structural)]
pub enum KeyCode {
    Backspace,
    Enter,
    Left,
    Right,
    Up,
    Down,
    Home,
    End,
    PageUp,
    PageDown,
    Tab,
    BackTab,
    Delete,
    Insert,
    F(u8),
    Char(char),
    Null,
    Esc,
    CapsLock,
    ScrollLock,
    NumLock,
    PrintScreen,
    Pause,
    Menu,
    KeypadBegin,
}

/// The modifier keys that are held.
#[derive(Clone, Copy, Debug, PartialEq, Eq, Structural)]
pub struct KeyModifiers {
    pub shift: bool,
    pub control: bool,
    pub alt: bool,
    pub logo: bool,
    pub hyper: bool,
    pub meta: bool,
}

impl KeyModifiers {
    /// No modifier.
    pub open spec fn nothing() -> KeyModifiers {
        KeyModifiers {
            shift: false,
            control: false,
            alt: false,
            logo: false,
            hyper: false,
            meta: false,
        }
    }

    /// No modifier.
    pub fn none() -> (r: KeyModifiers)
        ensures
            r == KeyModifiers::nothing(),
    {
        KeyModifiers {
            shift: false,
            control: false,
            alt: false,
            logo: false,
            hyper: false,
            meta: false,
        }
    }

    /// Control alone.
    pub fn control() -> (r: KeyModifiers)
        ensures
            r == (KeyModifiers { control: true, ..KeyModifiers::nothing() }),
    {
        KeyModifiers {
            shift: false,
            control: true,
            alt: false,
            logo: false,
            hyper: false,
            meta: false,
        }
    }

    /// Shift alone.
    pub fn shift() -> (r: KeyModifiers)
        ensures
            r == (KeyModifiers { shift: true, ..KeyModifiers::nothing() }),
    {
        KeyModifiers {
            shift: true,
            control: false,
            alt: false,
            logo: false,
            hyper: false,
            meta: false,
        }
    }
}

/// A key press.
#[derive(Clone, Copy, Debug, PartialEq, Eq, Structural)]
pub struct KeyEvent {
    pub code: KeyCode,
    pub modifiers: KeyModifiers,
}

impl KeyEvent {
    /// A key press.
    pub fn new(code: KeyCode, modifiers: KeyModifiers) -> (r: KeyEvent)
        ensures
            r == (KeyEvent { code, modifiers }),
    {
        KeyEvent { code, modifiers }
    }
}

/// Something that a key can do.
#[derive(Clone, Copy, Debug, PartialEq, Eq, Structural)]
pub enum ActionId {
    SendPrompt,
    SendNow,
    ToggleMultiline,
    CancelTurn,
    ClearPrompt,
    FocusPrompt,
    FocusScrollback,
    ScrollUp,
    ScrollDown,
    ToggleFold,
    OpenBlockViewer,
    ToggleTasks,
    ToggleQueue,
    CycleMode,
    CommandPalette,
    ModelPicker,
    SessionPicker,
    Settings,
    Quit,
}

/// Where an action applies.
#[derive(Clone, Copy, Debug, PartialEq, Eq, Structural)]
pub enum ActionContext {
    Prompt,
    Scrollback,
    Agent,
    Global,
}

/// A key with exactly these modifiers.
#[derive(Clone, Copy, Debug, PartialEq, Eq, Structural)]
pub struct KeyBinding {
    pub code: KeyCode,
    pub modifiers: KeyModifiers,
}

/// The name of a key.
pub open spec fn key_name(code: KeyCode) -> Seq<char> {
    match code {
        KeyCode::Enter => "Enter"@,
        KeyCode::Esc => "Esc"@,
        KeyCode::Tab => "Tab"@,
        KeyCode::BackTab => "Tab"@,
        KeyCode::Up => "↑"@,
        KeyCode::Down => "↓"@,
        KeyCode::PageUp => "PgUp"@,
        KeyCode::PageDown => "PgDn"@,
        KeyCode::F(number) => "F"@ + text::decimal(number as nat),
        KeyCode::Char(character) => seq![text::ascii_upper(character)],
        KeyCode::Backspace => "Backspace"@,
        KeyCode::Left => "Left"@,
        KeyCode::Right => "Right"@,
        KeyCode::Home => "Home"@,
        KeyCode::End => "End"@,
        KeyCode::Delete => "Delete"@,
        KeyCode::Insert => "Insert"@,
        KeyCode::Null => "Null"@,
        KeyCode::CapsLock => "CapsLock"@,
        KeyCode::ScrollLock => "ScrollLock"@,
        KeyCode::NumLock => "NumLock"@,
        KeyCode::PrintScreen => "PrintScreen"@,
        KeyCode::Pause => "Pause"@,
        KeyCode::Menu => "Menu"@,
        KeyCode::KeypadBegin => "KeypadBegin"@,
    }
}

fn key_text(code: KeyCode) -> (r: String)
    ensures
        r@ == key_name(code),
{
    match code {
        KeyCode::Enter => "Enter".to_owned(),
        KeyCode::Esc => "Esc".to_owned(),
        KeyCode::Tab => "Tab".to_owned(),
        KeyCode::BackTab => "Tab".to_owned(),
        KeyCode::Up => "↑".to_owned(),
        KeyCode::Down => "↓".to_owned(),
        KeyCode::PageUp => "PgUp".to_owned(),
        KeyCode::PageDown => "PgDn".to_owned(),
        KeyCode::F(number) => text::joined("F", text::decimal_text(number as u64).as_str()),
        KeyCode::Char(character) => {
            let mut out = String::new();
            out.push(text::to_upper(character));
            assert(out@ =~= seq![text::ascii_upper(character)]);
            out
        },
        KeyCode::Backspace => "Backspace".to_owned(),
        KeyCode::Left => "Left".to_owned(),
        KeyCode::Right => "Right".to_owned(),
        KeyCode::Home => "Home".to_owned(),
        KeyCode::End => "End".to_owned(),
        KeyCode::Delete => "Delete".to_owned(),
        KeyCode::Insert => "Insert".to_owned(),
        KeyCode::Null => "Null".to_owned(),
        KeyCode::CapsLock => "CapsLock".to_owned(),
        KeyCode::ScrollLock => "ScrollLock".to_owned(),
        KeyCode::NumLock => "NumLock".to_owned(),
        KeyCode::PrintScreen => "PrintScreen".to_owned(),
        KeyCode::Pause => "Pause".to_owned(),
        KeyCode::Menu => "Menu".to_owned(),
        KeyCode::KeypadBegin => "KeypadBegin".to_owned(),
    }
}

impl KeyBinding {
    /// A key with exactly these modifiers.
    pub fn new(code: KeyCode, modifiers: KeyModifiers) -> (r: KeyBinding)
        ensures
            r == (KeyBinding { code, modifiers }),
    {
        KeyBinding { code, modifiers }
    }

    /// Whether a key press is this binding.
    pub open spec fn fits(self, key: KeyEvent) -> bool {
        self.code == key.code && self.modifiers == key.modifiers
    }

    /// Whether a key press is this binding.
    pub fn matches(self, key: &KeyEvent) -> (r: bool)
        ensures
            r == self.fits(*key),
    {
        self.code == key.code && self.modifiers == key.modifiers
    }

    /// The binding in words: the modifiers and the key, joined with plus signs.
    pub open spec fn shown(self) -> Seq<char> {
        (if self.modifiers.control { "Ctrl+"@ } else { Seq::empty() }) + (if self.modifiers.alt {
            "Alt+"@
        } else {
            Seq::empty()
        }) + (if self.modifiers.shift { "Shift+"@ } else { Seq::empty() }) + key_name(self.code)
    }

    /// The binding in words.
    pub fn display(self) -> (r: String)
        ensures
            r@ == self.shown(),
    {
        let mut out = String::new();
        if self.modifiers.control {
            out.append("Ctrl+");
        }
        if self.modifiers.alt {
            out.append("Alt+");
        }
        if self.modifiers.shift {
            out.append("Shift+");
        }
        out.append(key_text(self.code).as_str());
        assert(out@ =~= self.shown());
        out
    }
}

/// What is known of an action.
#[derive(Clone, Debug)]
pub struct ActionDefinition {
    pub id: ActionId,
    pub label: &'static str,
    pub description: &'static str,
    pub context: ActionContext,
    pub primary: KeyBinding,
    pub alternates: Vec<KeyBinding>,
    pub hint_priority: Option<u8>,
    pub palette: bool,
}

/// The contents of an action definition.
pub struct ActionView {
    pub id: ActionId,
    pub label: Seq<char>,
    pub description: Seq<char>,
    pub context: ActionContext,
    pub primary: KeyBinding,
    pub alternates: Seq<KeyBinding>,
    pub hint_priority: Option<u8>,
    pub palette: bool,
}

impl ActionDefinition {
    /// The contents of the definition.
    pub open spec fn view(&self) -> ActionView {
        ActionView {
            id: self.id,
            label: self.label@,
            description: self.description@,
            context: self.context,
            primary: self.primary,
            alternates: self.alternates@,
            hint_priority: self.hint_priority,
            palette: self.palette,
        }
    }
}

impl ActionView {
    /// Whether a key press triggers the action.
    pub open spec fn triggered_by(self, key: KeyEvent) -> bool {
        self.primary.fits(key) || exists|i: int|
            0 <= i < self.alternates.len() && (#[trigger] self.alternates[i]).fits(key)
    }

    /// Whether the action is found in the palette with a query in lower case.
    pub open spec fn found_by(self, query: Seq<char>) -> bool {
        self.palette && (query.len() == 0 || text::occurs_in(
            query,
            text::ascii_lowered(self.label),
        ) || text::occurs_in(query, text::ascii_lowered(self.description)))
    }
}

/// A key without modifiers.
pub open spec fn plain(code: KeyCode) -> KeyBinding {
    KeyBinding { code, modifiers: KeyModifiers::nothing() }
}

/// A key with control.
pub open spec fn with_control(code: KeyCode) -> KeyBinding {
    KeyBinding { code, modifiers: KeyModifiers { control: true, ..KeyModifiers::nothing() } }
}

/// A key with shift.
pub open spec fn with_shift(code: KeyCode) -> KeyBinding {
    KeyBinding { code, modifiers: KeyModifiers { shift: true, ..KeyModifiers::nothing() } }
}

/// The contents of a definition, written in one line.
pub open spec fn entry(
    id: ActionId,
    label: Seq<char>,
    description: Seq<char>,
    context: ActionContext,
    primary: KeyBinding,
    alternates: Seq<KeyBinding>,
    hint_priority: Option<u8>,
    palette: bool,
) -> ActionView {
    ActionView { id, label, description, context, primary, alternates, hint_priority, palette }
}

/// All actions, in the order in which they are looked up.
pub open spec fn table() -> Seq<ActionView> {
    seq![
        entry(
            ActionId::SendPrompt,
            "Send"@,
            "Send the current prompt"@,
            ActionContext::Prompt,
            plain(KeyCode::Enter),
            Seq::empty(),
            Some(0),
            false,
        ),
        entry(
            ActionId::ClearPrompt,
            "Clear"@,
            "Clear the current draft"@,
            ActionContext::Prompt,
            with_control(KeyCode::Char('c')),
            Seq::empty(),
            None,
            false,
        ),
        entry(
            ActionId::SendNow,
            "Send now"@,
            "Deliver the current prompt to the running turn immediately"@,
            ActionContext::Prompt,
            with_control(KeyCode::Enter),
            Seq::empty(),
            Some(1),
            false,
        ),
        entry(
            ActionId::ToggleMultiline,
            "Multiline"@,
            "Toggle whether Enter inserts a newline"@,
            ActionContext::Prompt,
            with_control(KeyCode::Char('m')),
            Seq::empty(),
            None,
            true,
        ),
        entry(
            ActionId::FocusScrollback,
            "Scrollback"@,
            "Focus the conversation scrollback"@,
            ActionContext::Prompt,
            plain(KeyCode::Tab),
            Seq::empty(),
            Some(1),
            false,
        ),
        entry(
            ActionId::ScrollUp,
            "Navigate"@,
            "Move to the previous conversation block"@,
            ActionContext::Scrollback,
            plain(KeyCode::Up),
            Seq::empty(),
            Some(0),
            false,
        ),
        entry(
            ActionId::ScrollDown,
            "Navigate"@,
            "Move to the next conversation block"@,
            ActionContext::Scrollback,
            plain(KeyCode::Down),
            Seq::empty(),
            None,
            false,
        ),
        entry(
            ActionId::ToggleFold,
            "Fold"@,
            "Expand or collapse the selected block"@,
            ActionContext::Scrollback,
            plain(KeyCode::Enter),
            Seq::empty(),
            Some(1),
            false,
        ),
        entry(
            ActionId::OpenBlockViewer,
            "Open block"@,
            "Open the selected conversation block in a full-screen viewer"@,
            ActionContext::Scrollback,
            with_control(KeyCode::Char('f')),
            Seq::empty(),
            Some(3),
            false,
        ),
        entry(
            ActionId::FocusPrompt,
            "Prompt"@,
            "Focus the prompt editor"@,
            ActionContext::Scrollback,
            plain(KeyCode::Tab),
            Seq::empty(),
            Some(2),
            false,
        ),
        entry(
            ActionId::ToggleTasks,
            "Tasks"@,
            "Open or close the task pane"@,
            ActionContext::Agent,
            with_control(KeyCode::Char('b')),
            Seq::empty(),
            Some(4),
            true,
        ),
        entry(
            ActionId::ToggleQueue,
            "Queue"@,
            "Show or hide queued prompts"@,
            ActionContext::Agent,
            with_control(KeyCode::Char(';')),
            seq![with_control(KeyCode::Char('\''))],
            None,
            true,
        ),
        entry(
            ActionId::CycleMode,
            "Mode"@,
            "Cycle normal, plan, and always-approve modes"@,
            ActionContext::Agent,
            with_shift(KeyCode::BackTab),
            Seq::empty(),
            Some(3),
            true,
        ),
        entry(
            ActionId::CommandPalette,
            "Command palette"@,
            "Search available actions"@,
            ActionContext::Agent,
            with_control(KeyCode::Char('p')),
            seq![plain(KeyCode::Char('?'))],
            None,
            true,
        ),
        entry(
            ActionId::ModelPicker,
            "Model picker"@,
            "Select the model for this session"@,
            ActionContext::Agent,
            with_control(KeyCode::Char('m')),
            Seq::empty(),
            None,
            true,
        ),
        entry(
            ActionId::SessionPicker,
            "Resume session"@,
            "Open the session picker"@,
            ActionContext::Agent,
            with_control(KeyCode::Char('s')),
            Seq::empty(),
            None,
            true,
        ),
        entry(
            ActionId::Settings,
            "Settings"@,
            "Open Torii settings"@,
            ActionContext::Agent,
            plain(KeyCode::F(2)),
            Seq::empty(),
            None,
            true,
        ),
        entry(
            ActionId::CancelTurn,
            "Cancel turn"@,
            "Cancel the running turn"@,
            ActionContext::Agent,
            with_control(KeyCode::Char('c')),
            Seq::empty(),
            Some(0),
            false,
        ),
        entry(
            ActionId::Quit,
            "Quit"@,
            "Quit Torii"@,
            ActionContext::Global,
            with_control(KeyCode::Char('q')),
            Seq::empty(),
            None,
            true,
        ),
    ]
}

fn define(
    id: ActionId,
    label: &'static str,
    description: &'static str,
    context: ActionContext,
    primary: KeyBinding,
    alternates: Vec<KeyBinding>,
    hint_priority: Option<u8>,
    palette: bool,
) -> (r: ActionDefinition)
    ensures
        r@ == entry(
            id,
            label@,
            description@,
            context,
            primary,
            alternates@,
            hint_priority,
            palette,
        ),
{
    ActionDefinition { id, label, description, context, primary, alternates, hint_priority, palette }
}

fn no_keys() -> (r: Vec<KeyBinding>)
    ensures
        r@ == Seq::<KeyBinding>::empty(),
{
    Vec::new()
}

fn one_key(key: KeyBinding) -> (r: Vec<KeyBinding>)
    ensures
        r@ == seq![key],
{
    let mut out: Vec<KeyBinding> = Vec::new();
    out.push(key);
    assert(out@ =~= seq![key]);
    out
}

fn bare(code: KeyCode) -> (r: KeyBinding)
    ensures
        r == plain(code),
{
    KeyBinding::new(code, KeyModifiers::none())
}

fn control(code: KeyCode) -> (r: KeyBinding)
    ensures
        r == with_control(code),
{
    KeyBinding::new(code, KeyModifiers::control())
}

fn shifted(code: KeyCode) -> (r: KeyBinding)
    ensures
        r == with_shift(code),
{
    KeyBinding::new(code, KeyModifiers::shift())
}

/// The contents of a list of definitions.
pub open spec fn views(definitions: Seq<ActionDefinition>) -> Seq<ActionView> {
    definitions.map_values(|d: ActionDefinition| d@)
}

/// All actions.
pub fn definitions() -> (r: Vec<ActionDefinition>)
    ensures
        views(r@) == table(),
{
    let mut out: Vec<ActionDefinition> = Vec::new();
    out.push(
        define(
            ActionId::SendPrompt,
            "Send",
            "Send the current prompt",
            ActionContext::Prompt,
            bare(KeyCode::Enter),
            no_keys(),
            Some(0),
            false,
        ),
    );
    out.push(
        define(
            ActionId::ClearPrompt,
            "Clear",
            "Clear the current draft",
            ActionContext::Prompt,
            control(KeyCode::Char('c')),
            no_keys(),
            None,
            false,
        ),
    );
    out.push(
        define(
            ActionId::SendNow,
            "Send now",
            "Deliver the current prompt to the running turn immediately",
            ActionContext::Prompt,
            control(KeyCode::Enter),
            no_keys(),
            Some(1),
            false,
        ),
    );
    out.push(
        define(
            ActionId::ToggleMultiline,
            "Multiline",
            "Toggle whether Enter inserts a newline",
            ActionContext::Prompt,
            control(KeyCode::Char('m')),
            no_keys(),
            None,
            true,
        ),
    );
    out.push(
        define(
            ActionId::FocusScrollback,
            "Scrollback",
            "Focus the conversation scrollback",
            ActionContext::Prompt,
            bare(KeyCode::Tab),
            no_keys(),
            Some(1),
            false,
        ),
    );
    out.push(
        define(
            ActionId::ScrollUp,
            "Navigate",
            "Move to the previous conversation block",
            ActionContext::Scrollback,
            bare(KeyCode::Up),
            no_keys(),
            Some(0),
            false,
        ),
    );
    out.push(
        define(
            ActionId::ScrollDown,
            "Navigate",
            "Move to the next conversation block",
            ActionContext::Scrollback,
            bare(KeyCode::Down),
            no_keys(),
            None,
            false,
        ),
    );
    out.push(
        define(
            ActionId::ToggleFold,
            "Fold",
            "Expand or collapse the selected block",
            ActionContext::Scrollback,
            bare(KeyCode::Enter),
            no_keys(),
            Some(1),
            false,
        ),
    );
    out.push(
        define(
            ActionId::OpenBlockViewer,
            "Open block",
            "Open the selected conversation block in a full-screen viewer",
            ActionContext::Scrollback,
            control(KeyCode::Char('f')),
            no_keys(),
            Some(3),
            false,
        ),
    );
    out.push(
        define(
            ActionId::FocusPrompt,
            "Prompt",
            "Focus the prompt editor",
            ActionContext::Scrollback,
            bare(KeyCode::Tab),
            no_keys(),
            Some(2),
            false,
        ),
    );
    out.push(
        define(
            ActionId::ToggleTasks,
            "Tasks",
            "Open or close the task pane",
            ActionContext::Agent,
            control(KeyCode::Char('b')),
            no_keys(),
            Some(4),
            true,
        ),
    );
    out.push(
        define(
            ActionId::ToggleQueue,
            "Queue",
            "Show or hide queued prompts",
            ActionContext::Agent,
            control(KeyCode::Char(';')),
            one_key(control(KeyCode::Char('\''))),
            None,
            true,
        ),
    );
    out.push(
        define(
            ActionId::CycleMode,
            "Mode",
            "Cycle normal, plan, and always-approve modes",
            ActionContext::Agent,
            shifted(KeyCode::BackTab),
            no_keys(),
            Some(3),
            true,
        ),
    );
    out.push(
        define(
            ActionId::CommandPalette,
            "Command palette",
            "Search available actions",
            ActionContext::Agent,
            control(KeyCode::Char('p')),
            one_key(bare(KeyCode::Char('?'))),
            None,
            true,
        ),
    );
    out.push(
        define(
            ActionId::ModelPicker,
            "Model picker",
            "Select the model for this session",
            ActionContext::Agent,
            control(KeyCode::Char('m')),
            no_keys(),
            None,
            true,
        ),
    );
    out.push(
        define(
            ActionId::SessionPicker,
            "Resume session",
            "Open the session picker",
            ActionContext::Agent,
            control(KeyCode::Char('s')),
            no_keys(),
            None,
            true,
        ),
    );
    out.push(
        define(
            ActionId::Settings,
            "Settings",
            "Open Torii settings",
            ActionContext::Agent,
            bare(KeyCode::F(2)),
            no_keys(),
            None,
            true,
        ),
    );
    out.push(
        define(
            ActionId::CancelTurn,
            "Cancel turn",
            "Cancel the running turn",
            ActionContext::Agent,
            control(KeyCode::Char('c')),
            no_keys(),
            Some(0),
            false,
        ),
    );
    out.push(
        define(
            ActionId::Quit,
            "Quit",
            "Quit Torii",
            ActionContext::Global,
            control(KeyCode::Char('q')),
            no_keys(),
            None,
            true,
        ),
    );
    assert(views(out@) =~= table());
    out
}

/// Whether the first action of a context that a key triggers is the one at `i`.
pub open spec fn first_triggered(key: KeyEvent, context: ActionContext, i: int) -> bool {
    let t = table();
    &&& 0 <= i < t.len()
    &&& t[i].context == context
    &&& t[i].triggered_by(key)
    &&& forall|j: int|
        0 <= j < i ==> !((#[trigger] t[j]).context == context && t[j].triggered_by(key))
}

fn triggers(definition: &ActionDefinition, key: &KeyEvent) -> (r: bool)
    ensures
        r == definition@.triggered_by(*key),
{
    if definition.primary.matches(key) {
        return true;
    }
    let mut i: usize = 0;
    while i < definition.alternates.len()
        invariant
            i <= definition.alternates.len(),
            forall|j: int|
                0 <= j < i ==> !(#[trigger] definition@.alternates[j]).fits(*key),
        decreases definition.alternates.len() - i,
    {
        if definition.alternates[i].matches(key) {
            assert(definition@.alternates[i as int].fits(*key));
            return true;
        }
        assert(!definition@.alternates[i as int].fits(*key));
        i += 1;
    }
    false
}

/// The action that a key triggers in a context: the first one of the table.
pub open spec fn looks_up(key: KeyEvent, context: ActionContext, r: Option<ActionId>) -> bool {
    match r {
        Some(id) => exists|i: int| #[trigger]
            first_triggered(key, context, i) && table()[i].id == id,
        None => forall|i: int| !first_triggered(key, context, i),
    }
}

/// The action that a key triggers in a context: the first one defined for it.
pub fn lookup(key: &KeyEvent, context: ActionContext) -> (r: Option<ActionId>)
    ensures
        looks_up(*key, context, r),
{
    let all: Vec<ActionDefinition> = definitions();
    let mut i: usize = 0;
    while i < all.len()
        invariant
            i <= all.len(),
            views(all@) == table(),
            forall|j: int|
                0 <= j < i ==> !((#[trigger] table()[j]).context == context
                    && table()[j].triggered_by(*key)),
        decreases all.len() - i,
    {
        assert(table()[i as int] == all@[i as int]@);
        if all[i].context == context && triggers(&all[i], key) {
            assert(first_triggered(*key, context, i as int));
            return Some(all[i].id);
        }
        i += 1;
    }
    assert(table().len() == all@.len());
    None
}

/// The actions of `list` that the palette shows for a query in lower case.
pub open spec fn palette_of(list: Seq<ActionView>, query: Seq<char>) -> Seq<ActionView>
    decreases list.len(),
{
    if list.len() == 0 {
        Seq::empty()
    } else {
        let rest = palette_of(list.drop_last(), query);
        if list.last().found_by(query) {
            rest.push(list.last())
        } else {
            rest
        }
    }
}

/// Whether an action is found with a query in lower case.
pub fn found(definition: &ActionDefinition, query: &str) -> (r: bool)
    ensures
        r == definition@.found_by(query@),
{
    definition.palette && (query.is_empty() || text::contains(
        text::to_ascii_lower(definition.label).as_str(),
        query,
    ) || text::contains(text::to_ascii_lower(definition.description).as_str(), query))
}

/// The actions that the palette shows for a query.
pub fn palette(query: &str) -> (r: Vec<ActionDefinition>)
    ensures
        views(r@) == palette_of(table(), text::ascii_lowered(text::trim(query@))),
{
    let query: String = text::to_ascii_lower(text::trimmed(query).as_str());
    let mut all: Vec<ActionDefinition> = definitions();
    let ghost whole = views(all@);
    let mut out: Vec<ActionDefinition> = Vec::new();
    let mut i: usize = 0;
    assert(views(out@) =~= palette_of(whole.take(0), query@));
    assert(whole.subrange(0, whole.len() as int) =~= whole);
    while all.len() > 0
        invariant
            i + all.len() == whole.len(),
            whole == table(),
            views(all@) == whole.subrange(i as int, whole.len() as int),
            views(out@) == palette_of(whole.take(i as int), query@),
        decreases all.len(),
    {
        let ghost before = views(all@);
        assert(before[0] == all@[0]@);
        let first: ActionDefinition = all.remove(0);
        let ghost part = whole.take(i + 1);
        assert(part.drop_last() =~= whole.take(i as int));
        assert(part.last() == first@);
        assert(views(all@) =~= before.subrange(1, before.len() as int));
        assert(views(all@) =~= whole.subrange(i + 1, whole.len() as int));
        if found(&first, query.as_str()) {
            let ghost kept = out@;
            out.push(first);
            assert(views(out@) =~= views(kept).push(first@));
        }
        i += 1;
    }
    assert(whole.take(whole.len() as int) =~= whole);
    out
}

/// The actions of `list` in the given contexts with a hint of priority `p`.
pub open spec fn hints_at(
    list: Seq<ActionView>,
    contexts: Seq<ActionContext>,
    p: int,
) -> Seq<ActionView>
    decreases list.len(),
{
    if list.len() == 0 {
        Seq::empty()
    } else {
        let rest = hints_at(list.drop_last(), contexts, p);
        let last = list.last();
        if contexts.contains(last.context) && (last.hint_priority matches Some(q) && q == p) {
            rest.push(last)
        } else {
            rest
        }
    }
}

/// The hints with a priority below `p`: those of lower priority first, and among equals in
/// the order of their definition.
pub open spec fn hints_below(contexts: Seq<ActionContext>, p: int) -> Seq<ActionView>
    decreases p,
{
    if p <= 0 {
        Seq::empty()
    } else {
        hints_below(contexts, p - 1) + hints_at(table(), contexts, p - 1)
    }
}

fn has_context(contexts: &Vec<ActionContext>, context: ActionContext) -> (r: bool)
    ensures
        r == contexts@.contains(context),
{
    let mut i: usize = 0;
    while i < contexts.len()
        invariant
            i <= contexts.len(),
            forall|j: int| 0 <= j < i ==> contexts@[j] != context,
        decreases contexts.len() - i,
    {
        if contexts[i] == context {
            assert(contexts@[i as int] == context);
            return true;
        }
        i += 1;
    }
    false
}

/// The hints for some contexts, most important first.
pub fn hints(contexts: &Vec<ActionContext>) -> (r: Vec<ActionDefinition>)
    ensures
        views(r@) == hints_below(contexts@, 256),
{
    let mut out: Vec<ActionDefinition> = Vec::new();
    let mut p: u16 = 0;
    assert(views(out@) =~= hints_below(contexts@, 0));
    while p < 256
        invariant
            p <= 256,
            views(out@) == hints_below(contexts@, p as int),
        decreases 256 - p,
    {
        let mut some: Vec<ActionDefinition> = hints_with(contexts, p as u8);
        let ghost before = out@;
        let ghost more = some@;
        out.append(&mut some);
        assert(views(out@) =~= views(before) + views(more));
        p += 1;
    }
    out
}

fn hints_with(contexts: &Vec<ActionContext>, p: u8) -> (r: Vec<ActionDefinition>)
    ensures
        views(r@) == hints_at(table(), contexts@, p as int),
{
    let mut all: Vec<ActionDefinition> = definitions();
    let ghost whole = views(all@);
    let mut out: Vec<ActionDefinition> = Vec::new();
    let mut i: usize = 0;
    assert(views(out@) =~= hints_at(whole.take(0), contexts@, p as int));
    assert(whole.subrange(0, whole.len() as int) =~= whole);
    while all.len() > 0
        invariant
            i + all.len() == whole.len(),
            whole == table(),
            views(all@) == whole.subrange(i as int, whole.len() as int),
            views(out@) == hints_at(whole.take(i as int), contexts@, p as int),
        decreases all.len(),
    {
        let ghost before = views(all@);
        assert(before[0] == all@[0]@);
        let first: ActionDefinition = all.remove(0);
        let ghost part = whole.take(i + 1);
        assert(part.drop_last() =~= whole.take(i as int));
        assert(part.last() == first@);
        assert(views(all@) =~= before.subrange(1, before.len() as int));
        assert(views(all@) =~= whole.subrange(i + 1, whole.len() as int));
        let wanted: bool = has_context(contexts, first.context) && match first.hint_priority {
            Some(q) => q == p,
            None => false,
        };
        if wanted {
            let ghost kept = out@;
            out.push(first);
            assert(views(out@) =~= views(kept).push(first@));
        }
        i += 1;
    }
    assert(whole.take(whole.len() as int) =~= whole);
    out
}

/// An action found for a context is always one of that context.
pub proof fn lookup_stays_in_context(key: KeyEvent, context: ActionContext, i: int)
    requires
        first_triggered(key, context, i),
    ensures
        table()[i].context == context,
        table()[i].triggered_by(key),
{
}

/// A palette entry is always an action that is offered there.
pub proof fn palette_holds_offered_actions(list: Seq<ActionView>, query: Seq<char>, i: int)
    requires
        0 <= i < palette_of(list, query).len(),
    ensures
        list.contains(palette_of(list, query)[i]),
        palette_of(list, query)[i].palette,
    decreases list.len(),
{
    let rest = palette_of(list.drop_last(), query);
    if i < rest.len() {
        palette_holds_offered_actions(list.drop_last(), query, i);
        let k = choose|k: int|
            0 <= k < list.drop_last().len() && list.drop_last()[k] == rest[i];
        assert(list[k] == rest[i]);
    } else {
        assert(list[list.len() - 1] == list.last());
    }
}

/// The keys that trigger each action, and where. Every action has one place in the table.
pub proof fn actions_have_their_keys(i: int)
    requires
        0 <= i < table().len(),
    ensures
        ({
            let action = table()[i];
            let held = action.primary.modifiers;
            &&& action.id is SendPrompt ==> action.context is Prompt && action.primary.code == KeyCode::Enter && held.control == false && held.shift == false
            &&& action.id is ClearPrompt ==> action.context is Prompt && action.primary.code == KeyCode::Char('c') && held.control == true && held.shift == false
            &&& action.id is SendNow ==> action.context is Prompt && action.primary.code == KeyCode::Enter && held.control == true && held.shift == false
            &&& action.id is ToggleMultiline ==> action.context is Prompt && action.primary.code == KeyCode::Char('m') && held.control == true && held.shift == false
            &&& action.id is FocusScrollback ==> action.context is Prompt && action.primary.code == KeyCode::Tab && held.control == false && held.shift == false
            &&& action.id is ScrollUp ==> action.context is Scrollback && action.primary.code == KeyCode::Up && held.control == false && held.shift == false
            &&& action.id is ScrollDown ==> action.context is Scrollback && action.primary.code == KeyCode::Down && held.control == false && held.shift == false
            &&& action.id is ToggleFold ==> action.context is Scrollback && action.primary.code == KeyCode::Enter && held.control == false && held.shift == false
            &&& action.id is OpenBlockViewer ==> action.context is Scrollback && action.primary.code == KeyCode::Char('f') && held.control == true && held.shift == false
            &&& action.id is FocusPrompt ==> action.context is Scrollback && action.primary.code == KeyCode::Tab && held.control == false && held.shift == false
            &&& action.id is ToggleTasks ==> action.context is Agent && action.primary.code == KeyCode::Char('b') && held.control == true && held.shift == false
            &&& action.id is ToggleQueue ==> action.context is Agent && action.primary.code == KeyCode::Char(';') && held.control == true && held.shift == false
            &&& action.id is CycleMode ==> action.context is Agent && action.primary.code == KeyCode::BackTab && held.control == false && held.shift == true
            &&& action.id is CommandPalette ==> action.context is Agent && action.primary.code == KeyCode::Char('p') && held.control == true && held.shift == false
            &&& action.id is ModelPicker ==> action.context is Agent && action.primary.code == KeyCode::Char('m') && held.control == true && held.shift == false
            &&& action.id is SessionPicker ==> action.context is Agent && action.primary.code == KeyCode::Char('s') && held.control == true && held.shift == false
            &&& action.id is Settings ==> action.context is Agent && action.primary.code == KeyCode::F(2) && held.control == false && held.shift == false
            &&& action.id is CancelTurn ==> action.context is Agent && action.primary.code == KeyCode::Char('c') && held.control == true && held.shift == false
            &&& action.id is Quit ==> action.context is Global && action.primary.code == KeyCode::Char('q') && held.control == true && held.shift == false
            &&& !held.alt && !held.logo && !held.hyper && !held.meta
            &&& forall|j: int| 0 <= j < table().len() && j != i ==> (#[trigger] table()[j]).id != action.id
        }),
{
}

proof fn first_is_found(key: KeyEvent, context: ActionContext, k: int) -> (i: int)
    requires
        0 <= k < table().len(),
        table()[k].context == context,
        table()[k].triggered_by(key),
    ensures
        0 <= i <= k,
        first_triggered(key, context, i),
    decreases k,
{
    if first_triggered(key, context, k) {
        k
    } else {
        let j = choose|j: int|
            0 <= j < k && (#[trigger] table()[j]).context == context && table()[j].triggered_by(
                key,
            );
        first_is_found(key, context, j)
    }
}

/// A key that triggers an action of a context finds one of this context that it triggers, and
/// a key that triggers none finds none.
pub proof fn keys_find_their_action(key: KeyEvent, context: ActionContext, r: Option<ActionId>)
    requires
        looks_up(key, context, r),
    ensures
        r is Some <==> exists|k: int|
            0 <= k < table().len() && (#[trigger] table()[k]).context == context
                && table()[k].triggered_by(key),
        r matches Some(id) ==> exists|k: int|
            0 <= k < table().len() && (#[trigger] table()[k]).id == id && table()[k].context
                == context && table()[k].triggered_by(key),
{
    if exists|k: int|
        0 <= k < table().len() && (#[trigger] table()[k]).context == context
            && table()[k].triggered_by(key) {
        let k = choose|k: int|
            0 <= k < table().len() && (#[trigger] table()[k]).context == context
                && table()[k].triggered_by(key);
        let i = first_is_found(key, context, k);
    }
    match r {
        Some(id) => {
            let i = choose|i: int| #[trigger]
                first_triggered(key, context, i) && table()[i].id == id;
            assert(table()[i].context == context);
        },
        None => {},
    }
}

/// Control and Q leave the client, from everywhere.
pub proof fn control_q_quits(key: KeyEvent, r: Option<ActionId>)
    requires
        looks_up(key, ActionContext::Global, r),
    ensures
        r == Some(ActionId::Quit) <==> key == (KeyEvent {
            code: KeyCode::Char('q'),
            modifiers: KeyModifiers { control: true, ..KeyModifiers::nothing() },
        }),
        r is Some ==> r == Some(ActionId::Quit),
{
    let n = table().len() - 1;
    if table()[n].triggered_by(key) {
        let i = first_is_found(key, ActionContext::Global, n);
    }
}

/// A binding is shown with its modifiers in front of the key.
pub proof fn bindings_are_shown_in_words(binding: KeyBinding)
    ensures
        text::finishes_with(binding.shown(), key_name(binding.code)),
        binding.modifiers.control ==> text::begins_with(binding.shown(), "Ctrl+"@),
        !binding.modifiers.control && !binding.modifiers.alt && !binding.modifiers.shift
            ==> binding.shown() == key_name(binding.code),
{
    let all = binding.shown();
    let name = key_name(binding.code);
    assert(all.subrange(all.len() - name.len(), all.len() as int) =~= name);
    if binding.modifiers.control {
        assert(all.subrange(0, "Ctrl+"@.len() as int) =~= "Ctrl+"@);
    } else if !binding.modifiers.alt && !binding.modifiers.shift {
        assert(all =~= name);
    }
}

/// Every action of the palette that the query occurs in is shown there, and all of them where
/// there is no query.
pub proof fn palettes_show_what_is_found(list: Seq<ActionView>, query: Seq<char>, i: int)
    requires
        0 <= i < list.len(),
        list[i].palette,
        query.len() == 0 || text::occurs_in(query, text::ascii_lowered(list[i].label))
            || text::occurs_in(query, text::ascii_lowered(list[i].description)),
    ensures
        palette_of(list, query).contains(list[i]),
    decreases list.len(),
{
    let rest = palette_of(list.drop_last(), query);
    let all = palette_of(list, query);
    if i == list.len() - 1 {
        assert(all[rest.len() as int] == list[i]);
    } else {
        palettes_show_what_is_found(list.drop_last(), query, i);
        let k = choose|k: int| 0 <= k < rest.len() && rest[k] == list[i];
        assert(all[k] == list[i]);
    }
}

/// A hint is one of the actions of the contexts.
pub proof fn hints_belong_to_their_contexts(
    list: Seq<ActionView>,
    contexts: Seq<ActionContext>,
    p: int,
    k: int,
)
    requires
        0 <= k < hints_at(list, contexts, p).len(),
    ensures
        contexts.contains(hints_at(list, contexts, p)[k].context),
        hints_at(list, contexts, p)[k].hint_priority is Some,
        hints_at(list, contexts, p)[k].hint_priority->0 == p,
        list.contains(hints_at(list, contexts, p)[k]),
    decreases list.len(),
{
    let rest = hints_at(list.drop_last(), contexts, p);
    let all = hints_at(list, contexts, p);
    if k < rest.len() {
        hints_belong_to_their_contexts(list.drop_last(), contexts, p, k);
        let m = choose|m: int| 0 <= m < list.len() - 1 && list.drop_last()[m] == rest[k];
        assert(list[m] == all[k]);
    } else {
        assert(list[list.len() - 1] == all[k]);
    }
}

} // verus!
