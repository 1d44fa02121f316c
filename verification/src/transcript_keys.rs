//! What keys do in the transcript and its composer, and what a key does in all.

use vstd::prelude::*;

use crate::actions;
use crate::actions::ActionContext;
use crate::actions::ActionId;
use crate::actions::KeyCode;
use crate::actions::KeyEvent;
use crate::actions::KeyModifiers;
use crate::agent_keys;
use crate::composer;
use crate::composer_state;
use crate::composer_state::Composer;
use crate::dialog;
use crate::dialog_keys;
use crate::dialogs;
use crate::dispatch::Effect;
use crate::dispatch::UiCommand;
use crate::geometry;
use crate::overlay;
use crate::panes;
use crate::screen;
use crate::slash;
use crate::slash::Suggestion;
use crate::state;
use crate::state::AppState;
use crate::state_types::Focus;
use crate::state_types::OverlayKind;
use crate::transcript;
use crate::transcript::BlockKind;
use crate::transcript::Transcript;
use crate::view_keys;
use crate::view_keys::ViewIntent;

verus! {

broadcast use vstd::string::group_string_axioms;

/// What a key asks of the transcript and its composer.
#[derive(Clone, Copy, Debug, PartialEq, Eq, Structural)]
pub enum TextIntent {
    OpenPalette,
    OpenModels,
    CycleThinking,
    OpenSettings,
    ClearDraft,
    LoadImage,
    CycleMode,
    SwitchFocus,
    Enter { modified: bool, control: bool },
    ActivateFocus,
    Erase,
    EraseForward,
    CursorLeft,
    CursorRight,
    CursorHome,
    CursorEnd,
    MoveSuggestion { down: bool },
    PreviousPrompt,
    NextPrompt,
    MoveFocus { down: bool },
    PageUp,
    PageDown,
    Top,
    Bottom,
    HalfPageUp,
    HalfPageDown,
    ToggleAllReasoning,
    ToggleLatestReasoning,
    ToggleAllTools,
    ToggleAllDiffs,
    Escape,
    Type(char),
    Ignore,
}

/// What a character asks of the transcript and its composer.
pub open spec fn char_intent(focus: Focus, c: char, m: KeyModifiers) -> TextIntent {
    let scrollback = focus == Focus::Scrollback;
    if c == 'p' && m.control {
        TextIntent::OpenPalette
    } else if c == 'm' && m.control {
        TextIntent::OpenModels
    } else if c == 't' && m.control {
        TextIntent::CycleThinking
    } else if c == '?' && scrollback {
        TextIntent::OpenPalette
    } else if c == 'c' && m.control {
        TextIntent::ClearDraft
    } else if c == 'v' && (m.alt || (m.control && m.shift)) {
        TextIntent::LoadImage
    } else if c == 'u' && m.control && scrollback {
        TextIntent::HalfPageUp
    } else if c == 'd' && m.control && scrollback {
        TextIntent::HalfPageDown
    } else if c == 'e' && m.control && scrollback {
        TextIntent::ToggleAllReasoning
    } else if c == 'e' && scrollback {
        TextIntent::ToggleLatestReasoning
    } else if c == 't' && scrollback {
        TextIntent::ToggleAllTools
    } else if c == 'd' && scrollback {
        TextIntent::ToggleAllDiffs
    } else if !m.control && !m.alt && !m.logo {
        TextIntent::Type(c)
    } else {
        TextIntent::Ignore
    }
}

/// What a key asks of the transcript and its composer. With suggestions above
/// the draft the arrow keys move among them.
pub open spec fn text_intent(focus: Focus, suggesting: bool, key: KeyEvent) -> TextIntent {
    let prompt = focus == Focus::Prompt;
    let m = key.modifiers;
    match key.code {
        KeyCode::Char(c) => char_intent(focus, c, m),
        KeyCode::F(n) => if n == 2 {
            TextIntent::OpenSettings
        } else {
            TextIntent::Ignore
        },
        KeyCode::BackTab => TextIntent::CycleMode,
        KeyCode::Tab => TextIntent::SwitchFocus,
        KeyCode::Enter => if prompt {
            TextIntent::Enter { modified: m.shift || m.alt, control: m.control }
        } else {
            TextIntent::ActivateFocus
        },
        KeyCode::Backspace => if prompt {
            TextIntent::Erase
        } else {
            TextIntent::Ignore
        },
        KeyCode::Delete => if prompt {
            TextIntent::EraseForward
        } else {
            TextIntent::Ignore
        },
        KeyCode::Left => if prompt {
            TextIntent::CursorLeft
        } else {
            TextIntent::Ignore
        },
        KeyCode::Right => if prompt {
            TextIntent::CursorRight
        } else {
            TextIntent::Ignore
        },
        KeyCode::Home => if prompt {
            TextIntent::CursorHome
        } else {
            TextIntent::Top
        },
        KeyCode::End => if prompt {
            TextIntent::CursorEnd
        } else {
            TextIntent::Bottom
        },
        KeyCode::Up => if prompt && suggesting {
            TextIntent::MoveSuggestion { down: false }
        } else if prompt {
            TextIntent::PreviousPrompt
        } else {
            TextIntent::MoveFocus { down: false }
        },
        KeyCode::Down => if prompt && suggesting {
            TextIntent::MoveSuggestion { down: true }
        } else if prompt {
            TextIntent::NextPrompt
        } else {
            TextIntent::MoveFocus { down: true }
        },
        KeyCode::PageUp => TextIntent::PageUp,
        KeyCode::PageDown => TextIntent::PageDown,
        KeyCode::Esc => TextIntent::Escape,
        _ => TextIntent::Ignore,
    }
}

/// What is known of the screen when a key is handled.
#[derive(Clone, Copy, Debug, PartialEq, Eq, Structural)]
pub struct Moment {
    /// The rows of the transcript.
    pub page: usize,
    /// How far the transcript can be scrolled.
    pub max_scroll: usize,
    /// The time in milliseconds.
    pub now: u64,
}

/// Only the cursor of the composer has moved.
pub open spec fn cursor_moved(before: AppState, after: AppState, to: int) -> bool {
    &&& after == (AppState {
        composer: Composer { cursor: after.composer.cursor, ..before.composer },
        ..before
    })
    &&& after.composer.cursor == to
}

/// The focus has changed sides: from the composer to the transcript, unless a
/// word could be completed, and back.
pub open spec fn switches_focus(before: AppState, after: AppState) -> bool {
    if before.focus == Focus::Prompt {
        agent_keys::leaves_prompt(before, after)
    } else {
        panes::focuses(before, after, Focus::Prompt)
    }
}

/// A character was typed: the composer gets the focus, and the mark for a
/// file opens the list of files.
pub open spec fn types_char(before: AppState, after: AppState, c: char) -> bool {
    &&& composer_state::edited(
        before.composer,
        after.composer,
        composer::typed(before.composer.draft(), seq![c]),
    )
    &&& after == (AppState {
        focus: Focus::Prompt,
        composer: after.composer,
        dialog: after.dialog,
        ..before
    })
    &&& if c == '@' && before.offers.available_files@.len() > 0 {
        dialog::opened(after.dialog, OverlayKind::FilePicker, 0, None)
    } else {
        after.dialog == (dialog::Dialog { overlay_selected: 0, ..before.dialog })
    }
}

/// Only the blocks of the transcript were folded or unfolded.
pub open spec fn refolds(before: AppState, after: AppState) -> bool {
    after == (AppState {
        transcript: Transcript {
            entries: after.transcript.entries,
            expanded_tool_groups: after.transcript.expanded_tool_groups,
            ..before.transcript
        },
        ..before
    })
}

/// All blocks of a kind were folded or unfolded: they are unfolded unless all
/// of them are.
pub open spec fn toggles_all(before: AppState, after: AppState, kind: BlockKind) -> bool {
    let entries = before.transcript.entries@;
    let folding = transcript::all_unfolded(entries, kind);
    &&& refolds(before, after)
    &&& after.transcript.entries@ == transcript::with_all(entries, kind, !folding)
    &&& kind == BlockKind::Tool ==> after.transcript.expanded_tool_groups@ == if folding {
        Seq::empty()
    } else {
        transcript::group_heads(entries, entries.len() as int)
    }
    &&& kind != BlockKind::Tool ==> after.transcript.expanded_tool_groups
        == before.transcript.expanded_tool_groups
}

/// The latest block of a kind was folded the other way.
pub open spec fn toggles_latest(before: AppState, after: AppState, kind: BlockKind) -> bool {
    let entries = before.transcript.entries@;
    if exists|i: int| transcript::latest(entries, kind, i) {
        exists|i: int| #[trigger]
            transcript::latest(entries, kind, i) && refolds(before, after)
                && after.transcript.expanded_tool_groups == before.transcript.expanded_tool_groups
                && after.transcript.entries@ == entries.update(i, transcript::flipped(entries[i]))
    } else {
        after == before
    }
}

/// What an intent does to the transcript and its composer, and what is left
/// to do.
pub open spec fn text_done(
    before: AppState,
    after: AppState,
    intent: TextIntent,
    moment: Moment,
    effect: Effect,
) -> bool {
    let at = before.scroll.scroll_from_bottom as int;
    match intent {
        TextIntent::OpenPalette => effect == Effect::Nothing && dialogs::opens(
            before,
            after,
            OverlayKind::CommandPalette,
        ),
        TextIntent::OpenModels => effect == Effect::Nothing && dialogs::opens(
            before,
            after,
            OverlayKind::ModelPicker,
        ),
        TextIntent::OpenSettings => effect == Effect::Nothing && dialogs::opens(
            before,
            after,
            OverlayKind::Settings,
        ),
        TextIntent::CycleThinking => after == before && effect == Effect::Send(
            UiCommand::CycleThinking,
        ),
        TextIntent::ClearDraft => effect == Effect::Nothing && agent_keys::discards(before, after),
        TextIntent::LoadImage => agent_keys::begins_load(before, after, moment.now, true, effect),
        TextIntent::CycleMode => agent_keys::cycles_mode(before, after, effect),
        TextIntent::SwitchFocus => effect == Effect::Nothing && switches_focus(before, after),
        TextIntent::Enter { modified, control } => agent_keys::enters(
            before,
            after,
            modified,
            control,
            moment.now,
            effect,
        ),
        TextIntent::ActivateFocus => effect == Effect::Nothing && agent_keys::activates_focus(
            before,
            after,
        ),
        TextIntent::Erase => {
            &&& effect == Effect::Nothing
            &&& state::composed(before, after)
            &&& composer_state::edited(before.composer, after.composer, after.composer.draft())
            &&& composer::after_backspace(before.composer.draft(), after.composer.draft())
        },
        TextIntent::EraseForward => {
            &&& effect == Effect::Nothing
            &&& state::composed(before, after)
            &&& composer_state::edited(before.composer, after.composer, after.composer.draft())
            &&& composer::after_delete(before.composer.draft(), after.composer.draft())
        },
        TextIntent::CursorLeft => effect == Effect::Nothing && cursor_moved(
            before,
            after,
            geometry::less(before.composer.cursor as int, 1),
        ),
        TextIntent::CursorRight => effect == Effect::Nothing && cursor_moved(
            before,
            after,
            geometry::min(before.composer.cursor + 1, before.composer.prompt@.len() as int),
        ),
        TextIntent::CursorHome => effect == Effect::Nothing && cursor_moved(before, after, 0),
        TextIntent::CursorEnd => effect == Effect::Nothing && cursor_moved(
            before,
            after,
            before.composer.prompt@.len() as int,
        ),
        TextIntent::MoveSuggestion { down } => effect == Effect::Nothing && panes::suggestion_moved(
            before,
            after,
            if down {
                1
            } else {
                -1
            },
        ),
        TextIntent::PreviousPrompt => effect == Effect::Nothing && state::composed(before, after)
            && composer_state::recalls_previous(before.composer, after.composer),
        TextIntent::NextPrompt => effect == Effect::Nothing && state::composed(before, after)
            && composer_state::recalls_next(before.composer, after.composer),
        TextIntent::MoveFocus { down } => effect == Effect::Nothing && agent_keys::steps_focus(
            before,
            after,
            if down {
                1
            } else {
                -1
            },
        ),
        TextIntent::PageUp => effect == Effect::Nothing && view_keys::scrolled(
            before,
            after,
            geometry::min(at + moment.page, moment.max_scroll as int),
        ),
        TextIntent::PageDown => effect == Effect::Nothing && view_keys::scrolled(
            before,
            after,
            geometry::less(at, moment.page as int),
        ),
        TextIntent::Top => effect == Effect::Nothing && view_keys::scrolled(
            before,
            after,
            moment.max_scroll as int,
        ),
        TextIntent::Bottom => effect == Effect::Nothing && view_keys::scrolled(before, after, 0),
        TextIntent::HalfPageUp => effect == Effect::Nothing && view_keys::scrolled(
            before,
            after,
            geometry::min(at + moment.page / 2, moment.max_scroll as int),
        ),
        TextIntent::HalfPageDown => effect == Effect::Nothing && view_keys::scrolled(
            before,
            after,
            geometry::less(at, moment.page as int / 2),
        ),
        TextIntent::ToggleAllReasoning => effect == Effect::Nothing && toggles_all(
            before,
            after,
            BlockKind::Reasoning,
        ),
        TextIntent::ToggleLatestReasoning => effect == Effect::Nothing && toggles_latest(
            before,
            after,
            BlockKind::Reasoning,
        ),
        TextIntent::ToggleAllTools => effect == Effect::Nothing && toggles_all(
            before,
            after,
            BlockKind::Tool,
        ),
        TextIntent::ToggleAllDiffs => effect == Effect::Nothing && toggles_all(
            before,
            after,
            BlockKind::Diff,
        ),
        TextIntent::Escape => agent_keys::escapes(before, after, moment.now, effect),
        TextIntent::Type(c) => effect == Effect::Nothing && types_char(before, after, c),
        TextIntent::Ignore => after == before && effect == Effect::Nothing,
    }
}

/// What a character asks of the transcript and its composer.
fn read_char(focus: Focus, c: char, m: KeyModifiers) -> (r: TextIntent)
    ensures
        r == char_intent(focus, c, m),
{
    let scrollback: bool = focus == Focus::Scrollback;
    if c == 'p' && m.control {
        TextIntent::OpenPalette
    } else if c == 'm' && m.control {
        TextIntent::OpenModels
    } else if c == 't' && m.control {
        TextIntent::CycleThinking
    } else if c == '?' && scrollback {
        TextIntent::OpenPalette
    } else if c == 'c' && m.control {
        TextIntent::ClearDraft
    } else if c == 'v' && (m.alt || (m.control && m.shift)) {
        TextIntent::LoadImage
    } else if c == 'u' && m.control && scrollback {
        TextIntent::HalfPageUp
    } else if c == 'd' && m.control && scrollback {
        TextIntent::HalfPageDown
    } else if c == 'e' && m.control && scrollback {
        TextIntent::ToggleAllReasoning
    } else if c == 'e' && scrollback {
        TextIntent::ToggleLatestReasoning
    } else if c == 't' && scrollback {
        TextIntent::ToggleAllTools
    } else if c == 'd' && scrollback {
        TextIntent::ToggleAllDiffs
    } else if !m.control && !m.alt && !m.logo {
        TextIntent::Type(c)
    } else {
        TextIntent::Ignore
    }
}

/// What a key asks of the transcript and its composer.
pub fn read_text_key(focus: Focus, suggesting: bool, key: KeyEvent) -> (r: TextIntent)
    ensures
        r == text_intent(focus, suggesting, key),
{
    let prompt: bool = focus == Focus::Prompt;
    let m: KeyModifiers = key.modifiers;
    match key.code {
        KeyCode::Char(c) => read_char(focus, c, m),
        KeyCode::F(n) => if n == 2 {
            TextIntent::OpenSettings
        } else {
            TextIntent::Ignore
        },
        KeyCode::BackTab => TextIntent::CycleMode,
        KeyCode::Tab => TextIntent::SwitchFocus,
        KeyCode::Enter => if prompt {
            TextIntent::Enter { modified: m.shift || m.alt, control: m.control }
        } else {
            TextIntent::ActivateFocus
        },
        KeyCode::Backspace => if prompt {
            TextIntent::Erase
        } else {
            TextIntent::Ignore
        },
        KeyCode::Delete => if prompt {
            TextIntent::EraseForward
        } else {
            TextIntent::Ignore
        },
        KeyCode::Left => if prompt {
            TextIntent::CursorLeft
        } else {
            TextIntent::Ignore
        },
        KeyCode::Right => if prompt {
            TextIntent::CursorRight
        } else {
            TextIntent::Ignore
        },
        KeyCode::Home => if prompt {
            TextIntent::CursorHome
        } else {
            TextIntent::Top
        },
        KeyCode::End => if prompt {
            TextIntent::CursorEnd
        } else {
            TextIntent::Bottom
        },
        KeyCode::Up => if prompt && suggesting {
            TextIntent::MoveSuggestion { down: false }
        } else if prompt {
            TextIntent::PreviousPrompt
        } else {
            TextIntent::MoveFocus { down: false }
        },
        KeyCode::Down => if prompt && suggesting {
            TextIntent::MoveSuggestion { down: true }
        } else if prompt {
            TextIntent::NextPrompt
        } else {
            TextIntent::MoveFocus { down: true }
        },
        KeyCode::PageUp => TextIntent::PageUp,
        KeyCode::PageDown => TextIntent::PageDown,
        KeyCode::Esc => TextIntent::Escape,
        _ => TextIntent::Ignore,
    }
}

impl AppState {
    fn edit_draft(&mut self, intent: TextIntent, moment: Moment)
        requires
            old(self).wf(),
            match intent {
                TextIntent::Erase => true,
                TextIntent::EraseForward => true,
                TextIntent::CursorLeft => true,
                TextIntent::CursorRight => true,
                TextIntent::CursorHome => true,
                TextIntent::CursorEnd => true,
                TextIntent::MoveSuggestion { .. } => true,
                TextIntent::PreviousPrompt => true,
                TextIntent::NextPrompt => true,
                TextIntent::ClearDraft => true,
                _ => false,
            },
        ensures
            text_done(*old(self), *final(self), intent, moment, Effect::Nothing),
            final(self).wf(),
    {
        match intent {
            TextIntent::Erase => self.backspace(),
            TextIntent::EraseForward => self.delete(),
            TextIntent::CursorLeft => self.composer.move_cursor_left(),
            TextIntent::CursorRight => self.composer.move_cursor_right(),
            TextIntent::CursorHome => self.composer.move_cursor_home(),
            TextIntent::CursorEnd => self.composer.move_cursor_end(),
            TextIntent::MoveSuggestion { down } => {
                if down {
                    self.move_slash_selection(1);
                } else {
                    self.move_slash_selection(-1);
                }
            },
            TextIntent::PreviousPrompt => self.previous_prompt(),
            TextIntent::NextPrompt => self.next_prompt(),
            _ => self.clear_prompt(),
        }
    }

    fn scroll_transcript(&mut self, intent: TextIntent, moment: Moment)
        requires
            old(self).wf(),
            match intent {
                TextIntent::PageUp => true,
                TextIntent::PageDown => true,
                TextIntent::Top => true,
                TextIntent::Bottom => true,
                TextIntent::HalfPageUp => true,
                TextIntent::HalfPageDown => true,
                _ => false,
            },
        ensures
            text_done(*old(self), *final(self), intent, moment, Effect::Nothing),
            final(self).wf(),
    {
        match intent {
            TextIntent::PageUp => self.scroll.scroll_up(moment.page, moment.max_scroll),
            TextIntent::PageDown => self.scroll.scroll_down(moment.page),
            TextIntent::Top => self.scroll.scroll_to_top(moment.max_scroll),
            TextIntent::Bottom => self.scroll.scroll_to_bottom(),
            TextIntent::HalfPageUp => self.scroll.scroll_up(moment.page / 2, moment.max_scroll),
            _ => self.scroll.scroll_down(moment.page / 2),
        }
    }

    /// Whether all thoughts are unfolded.
    pub fn all_reasoning_expanded(&self) -> (r: bool)
        ensures
            r == transcript::all_unfolded(self.transcript.entries@, BlockKind::Reasoning),
    {
        self.transcript.all_expanded(BlockKind::Reasoning)
    }

    fn fold_blocks(&mut self, intent: TextIntent, moment: Moment)
        requires
            old(self).wf(),
            match intent {
                TextIntent::ToggleAllReasoning => true,
                TextIntent::ToggleLatestReasoning => true,
                TextIntent::ToggleAllTools => true,
                TextIntent::ToggleAllDiffs => true,
                _ => false,
            },
        ensures
            text_done(*old(self), *final(self), intent, moment, Effect::Nothing),
            final(self).wf(),
    {
        match intent {
            TextIntent::ToggleAllReasoning => {
                let expand: bool = !self.all_reasoning_expanded();
                self.transcript.set_all(BlockKind::Reasoning, expand);
            },
            TextIntent::ToggleLatestReasoning => {
                let ghost entries = self.transcript.entries@;
                self.transcript.toggle_latest(BlockKind::Reasoning);
                proof {
                    if exists|i: int| transcript::latest(entries, BlockKind::Reasoning, i) {
                        let i = choose|i: int|
                            transcript::latest(entries, BlockKind::Reasoning, i);
                        assert(transcript::latest(entries, BlockKind::Reasoning, i));
                    }
                }
            },
            TextIntent::ToggleAllTools => self.transcript.toggle_all_tools(),
            _ => self.transcript.toggle_all_diffs(),
        }
    }

    fn type_into_draft(&mut self, c: char)
        requires
            old(self).wf(),
        ensures
            types_char(*old(self), *final(self), c),
            final(self).wf(),
    {
        self.focus_prompt();
        self.insert_char(c);
        if c == '@' && self.offers.available_files.len() > 0 {
            self.open_overlay(OverlayKind::FilePicker);
        }
    }

    /// Does what a key asks of the transcript and its composer.
    pub fn perform_in_text(&mut self, intent: TextIntent, moment: Moment) -> (r: Effect)
        requires
            old(self).wf(),
        ensures
            text_done(*old(self), *final(self), intent, moment, r),
            final(self).wf(),
    {
        match intent {
            TextIntent::OpenPalette => self.open_overlay(OverlayKind::CommandPalette),
            TextIntent::OpenModels => self.open_overlay(OverlayKind::ModelPicker),
            TextIntent::OpenSettings => self.open_overlay(OverlayKind::Settings),
            TextIntent::CycleThinking => {
                return Effect::Send(UiCommand::CycleThinking);
            },
            TextIntent::LoadImage => {
                return self.begin_clipboard_load(moment.now, true);
            },
            TextIntent::CycleMode => {
                return self.next_permission_mode();
            },
            TextIntent::SwitchFocus => {
                if self.focus == Focus::Prompt {
                    self.leave_prompt();
                } else {
                    self.focus_prompt();
                }
            },
            TextIntent::Enter { modified, control } => {
                return self.press_enter(modified, control, moment.now);
            },
            TextIntent::ActivateFocus => self.activate_focus(),
            TextIntent::MoveFocus { down } => {
                if down {
                    self.move_section_focus(1);
                } else {
                    self.move_section_focus(-1);
                }
            },
            TextIntent::Escape => {
                return self.handle_agent_escape(moment.now);
            },
            TextIntent::Type(c) => self.type_into_draft(c),
            TextIntent::Ignore => {},
            TextIntent::PageUp => self.scroll_transcript(intent, moment),
            TextIntent::PageDown => self.scroll_transcript(intent, moment),
            TextIntent::Top => self.scroll_transcript(intent, moment),
            TextIntent::Bottom => self.scroll_transcript(intent, moment),
            TextIntent::HalfPageUp => self.scroll_transcript(intent, moment),
            TextIntent::HalfPageDown => self.scroll_transcript(intent, moment),
            TextIntent::ToggleAllReasoning => self.fold_blocks(intent, moment),
            TextIntent::ToggleLatestReasoning => self.fold_blocks(intent, moment),
            TextIntent::ToggleAllTools => self.fold_blocks(intent, moment),
            TextIntent::ToggleAllDiffs => self.fold_blocks(intent, moment),
            _ => self.edit_draft(intent, moment),
        }
        Effect::Nothing
    }
}

/// The action that works everywhere was run, if the key triggers one.
pub open spec fn global_step(
    before: AppState,
    after: AppState,
    key: KeyEvent,
    effect: Effect,
) -> bool {
    exists|id: Option<ActionId>| #[trigger]
        actions::looks_up(key, ActionContext::Global, id) && match id {
            Some(action) => agent_keys::registered(before, after, action, effect),
            None => after == before && effect == Effect::Nothing,
        }
}

/// The context of the pane that has the focus.
pub open spec fn pane_context(focus: Focus) -> ActionContext {
    match focus {
        Focus::Prompt => ActionContext::Prompt,
        Focus::Scrollback => ActionContext::Scrollback,
    }
}

/// The pane that has the focus was offered the key; `done` says whether it
/// took it.
pub open spec fn pane_step(
    before: AppState,
    after: AppState,
    key: KeyEvent,
    done: bool,
) -> bool {
    if before.view != screen::View::Transcript {
        !done && after == before
    } else {
        exists|id: Option<ActionId>| #[trigger]
            actions::looks_up(key, pane_context(before.focus), id) && match id {
                Some(action) => agent_keys::pane_action(before, after, action, done),
                None => !done && after == before,
            }
    }
}

/// The key triggers an action of the agent screen.
pub open spec fn agent_action(s: AppState, key: KeyEvent, id: Option<ActionId>) -> bool {
    if s.view == screen::View::Transcript || s.view == screen::View::Tasks {
        actions::looks_up(key, ActionContext::Agent, id)
    } else {
        id is None
    }
}

/// There are suggestions for the draft.
pub open spec fn suggesting(s: AppState) -> bool {
    overlay::suggested(s).len() > 0
}

/// What a key does that no pane took: it runs an action of the agent screen,
/// or does what it means in the view or in the transcript.
pub open spec fn rest_step(
    before: AppState,
    after: AppState,
    key: KeyEvent,
    moment: Moment,
    effect: Effect,
) -> bool {
    let intent = view_keys::view_intent(before.view, before.header.app_update, key);
    exists|id: Option<ActionId>| #[trigger]
        agent_action(before, key, id) && match id {
            Some(action) => agent_keys::registered(before, after, action, effect),
            None => if intent == ViewIntent::Pass {
                text_done(
                    before,
                    after,
                    text_intent(before.focus, suggesting(before), key),
                    moment,
                    effect,
                )
            } else {
                view_keys::view_done(before, after, intent, moment.page as int, effect)
            },
        }
}

/// What a key does where no dialog is open.
pub open spec fn pane_key_handled(
    before: AppState,
    after: AppState,
    key: KeyEvent,
    moment: Moment,
    effects: (Effect, Effect),
) -> bool {
    exists|between: AppState| #[trigger]
        global_step(before, between, key, effects.0) && if effects.0 == Effect::Quit {
            after == between && effects.1 == Effect::Nothing
        } else {
            exists|offered: AppState, done: bool| #[trigger]
                pane_step(between, offered, key, done) && if done {
                    after == offered && effects.1 == Effect::Nothing
                } else {
                    rest_step(offered, after, key, moment, effects.1)
                }
        }
}

/// A key that pastes the text of the clipboard into the draft.
pub open spec fn pastes(s: AppState, key: KeyEvent) -> bool {
    key.code == KeyCode::Char('v') && dialog_keys::only_control(key.modifiers) && s.focus
        == Focus::Prompt
}

/// What a key does, and what is left to do, in this order.
pub open spec fn key_handled(
    before: AppState,
    after: AppState,
    key: KeyEvent,
    moment: Moment,
    effects: (Effect, Effect),
) -> bool {
    if before.dialog.overlay != OverlayKind::Closed {
        &&& dialog_keys::dialog_done(
            before,
            after,
            dialog_keys::dialog_intent(before.dialog.overlay, key),
            moment.page as int,
            effects.0,
        )
        &&& effects.1 == Effect::Nothing
    } else if pastes(before, key) {
        &&& after == before
        &&& effects == (Effect::PasteText { editor: false }, Effect::Nothing)
    } else {
        pane_key_handled(before, after, key, moment, effects)
    }
}

impl AppState {
    fn take_global(&mut self, key: KeyEvent) -> (r: Effect)
        requires
            old(self).wf(),
        ensures
            global_step(*old(self), *final(self), key, r),
            final(self).wf(),
    {
        let id: Option<ActionId> = actions::lookup(&key, ActionContext::Global);
        let effect: Effect = match id {
            Some(action) => self.dispatch_registered_action(action),
            None => Effect::Nothing,
        };
        assert(actions::looks_up(key, ActionContext::Global, id));
        effect
    }

    fn offer_pane(&mut self, key: KeyEvent) -> (r: bool)
        requires
            old(self).wf(),
        ensures
            pane_step(*old(self), *final(self), key, r),
            final(self).wf(),
    {
        if self.view != screen::View::Transcript {
            return false;
        }
        let context: ActionContext = match self.focus {
            Focus::Prompt => ActionContext::Prompt,
            Focus::Scrollback => ActionContext::Scrollback,
        };
        let id: Option<ActionId> = actions::lookup(&key, context);
        let done: bool = match id {
            Some(action) => self.dispatch_pane_action(action),
            None => false,
        };
        assert(actions::looks_up(key, pane_context(old(self).focus), id));
        done
    }

    fn take_rest(&mut self, key: KeyEvent, moment: Moment) -> (r: Effect)
        requires
            old(self).wf(),
        ensures
            rest_step(*old(self), *final(self), key, moment, r),
            final(self).wf(),
    {
        let id: Option<ActionId> = if self.view == screen::View::Transcript || self.view
            == screen::View::Tasks {
            actions::lookup(&key, ActionContext::Agent)
        } else {
            None
        };
        assert(agent_action(*self, key, id));
        if let Some(action) = id {
            return self.dispatch_registered_action(action);
        }
        let intent: ViewIntent = view_keys::read_view_key(self.view, &self.header.app_update, key);
        if intent != ViewIntent::Pass {
            return self.perform_in_view(intent, moment.page);
        }
        let list: Vec<Suggestion> = self.slash_suggestions();
        assert(slash::offers_of(list@).len() == list@.len());
        let asked: TextIntent = read_text_key(self.focus, list.len() > 0, key);
        self.perform_in_text(asked, moment)
    }

    fn handle_pane_key(&mut self, key: KeyEvent, moment: Moment) -> (r: (Effect, Effect))
        requires
            old(self).wf(),
        ensures
            pane_key_handled(*old(self), *final(self), key, moment, r),
            final(self).wf(),
    {
        let first: Effect = self.take_global(key);
        let ghost between = *self;
        if let Effect::Quit = first {
            assert(global_step(*old(self), between, key, first));
            return (first, Effect::Nothing);
        }
        let done: bool = self.offer_pane(key);
        let ghost offered = *self;
        assert(pane_step(between, offered, key, done));
        if done {
            assert(global_step(*old(self), between, key, first));
            return (first, Effect::Nothing);
        }
        let second: Effect = self.take_rest(key, moment);
        assert(global_step(*old(self), between, key, first));
        (first, second)
    }

    /// Handles a key.
    pub fn handle_key(&mut self, key: KeyEvent, moment: Moment) -> (r: (Effect, Effect))
        requires
            old(self).wf(),
        ensures
            key_handled(*old(self), *final(self), key, moment, r),
            final(self).wf(),
    {
        if self.dialog.overlay != OverlayKind::Closed {
            return (self.handle_dialog_key(key, moment.page), Effect::Nothing);
        }
        let m: KeyModifiers = key.modifiers;
        if key.code == KeyCode::Char('v') && m.control && !m.shift && !m.alt && !m.logo && !m.hyper
            && !m.meta && self.focus == Focus::Prompt {
            return (Effect::PasteText { editor: false }, Effect::Nothing);
        }
        self.handle_pane_key(key, moment)
    }
}

} // verus!
