//! What keys do while a dialog is open.

use vstd::prelude::*;

use crate::actions::KeyCode;
use crate::actions::KeyEvent;
use crate::actions::KeyModifiers;
use crate::choices;
use crate::composer;
use crate::dialog;
use crate::dialog::Dialog;
use crate::dialogs;
use crate::dispatch;
use crate::dispatch::Effect;
use crate::panes;
use crate::paste_editor;
use crate::pickers;
use crate::sessions::SessionList;
use crate::state::AppState;
use crate::state_types::OverlayAction;
use crate::state_types::OverlayKind;
use crate::text;
use crate::tree::SessionTree;

verus! {

broadcast use vstd::string::group_string_axioms;

/// What a key asks of the open dialog.
#[derive(Clone, Copy, Debug, PartialEq, Eq, Structural)]
pub enum DialogIntent {
    Quit,
    Cancel,
    MoveCursor(isize),
    TextStart,
    TextEnd,
    LineEdge(bool),
    MoveRows(isize),
    Select(isize),
    SelectPage(bool),
    SelectFirst,
    SelectLast,
    Fold(bool),
    TreePage(bool),
    ToggleModel,
    Confirm,
    CycleFilter,
    TogglePaths,
    CycleSort,
    PasteText,
    ToggleNamed,
    Rename,
    Delete,
    ToggleTimes,
    Label,
    Erase,
    RemoveImage,
    Close,
    NewLine,
    ConfirmWithSummary,
    Type(char),
    Ignore,
}

/// Only the control key is held.
pub open spec fn only_control(m: KeyModifiers) -> bool {
    m == (KeyModifiers { control: true, ..KeyModifiers::nothing() })
}

/// Characters are typed: no key is held that makes a command of them.
pub open spec fn types(m: KeyModifiers) -> bool {
    !m.control && !m.alt && !m.logo
}

/// The dialog lists entries of the session tree.
pub open spec fn lists_tree(overlay: OverlayKind) -> bool {
    overlay == OverlayKind::TreePicker || overlay == OverlayKind::ForkPicker
}

/// What a character asks of a dialog.
pub open spec fn char_intent(overlay: OverlayKind, c: char, m: KeyModifiers) -> DialogIntent {
    let editor = overlay == OverlayKind::PasteEditor;
    let sessions = overlay == OverlayKind::SessionPicker;
    if c == 'q' && m.control {
        DialogIntent::Quit
    } else if c == ' ' && overlay == OverlayKind::ScopedModels {
        DialogIntent::ToggleModel
    } else if c == ' ' && (overlay == OverlayKind::Extensions || overlay == OverlayKind::Settings) {
        DialogIntent::Confirm
    } else if c == 'o' && m.control && lists_tree(overlay) {
        DialogIntent::CycleFilter
    } else if c == 'p' && m.control && sessions {
        DialogIntent::TogglePaths
    } else if c == 's' && m.control && sessions {
        DialogIntent::CycleSort
    } else if c == 'v' && editor && only_control(m) {
        DialogIntent::PasteText
    } else if c == 'n' && m.control && sessions {
        DialogIntent::ToggleNamed
    } else if c == 'r' && m.control && sessions {
        DialogIntent::Rename
    } else if c == 'd' && m.control && sessions {
        DialogIntent::Delete
    } else if c == 't' && m.shift && lists_tree(overlay) {
        DialogIntent::ToggleTimes
    } else if c == 'l' && m.shift && lists_tree(overlay) {
        DialogIntent::Label
    } else if (c == 'j' || c == 'm' || c == 's') && editor && m.control {
        DialogIntent::Confirm
    } else if types(m) {
        DialogIntent::Type(c)
    } else {
        DialogIntent::Ignore
    }
}

/// What a key asks of the editor of a pasted block; `Ignore` for those that
/// mean there what they mean everywhere.
pub open spec fn editor_intent(code: KeyCode, m: KeyModifiers) -> DialogIntent {
    match code {
        KeyCode::Left => DialogIntent::MoveCursor((-1) as isize),
        KeyCode::Right => DialogIntent::MoveCursor(1),
        KeyCode::Home => if m.control {
            DialogIntent::TextStart
        } else {
            DialogIntent::LineEdge(false)
        },
        KeyCode::End => if m.control {
            DialogIntent::TextEnd
        } else {
            DialogIntent::LineEdge(true)
        },
        KeyCode::PageUp => DialogIntent::MoveRows((-10) as isize),
        KeyCode::PageDown => DialogIntent::MoveRows(10),
        KeyCode::Up => DialogIntent::MoveRows((-1) as isize),
        KeyCode::Down => DialogIntent::MoveRows(1),
        KeyCode::Enter => if m.control {
            if m.shift {
                DialogIntent::ConfirmWithSummary
            } else {
                DialogIntent::Confirm
            }
        } else {
            DialogIntent::NewLine
        },
        KeyCode::Esc => DialogIntent::Cancel,
        KeyCode::Backspace => DialogIntent::Erase,
        KeyCode::Char(c) => char_intent(OverlayKind::PasteEditor, c, m),
        _ => DialogIntent::Ignore,
    }
}

/// What a key asks of a dialog that lists rows.
pub open spec fn list_intent(overlay: OverlayKind, code: KeyCode, m: KeyModifiers) -> DialogIntent {
    let tree = overlay == OverlayKind::TreePicker;
    match code {
        KeyCode::Esc => DialogIntent::Cancel,
        KeyCode::Up => DialogIntent::Select((-1) as isize),
        KeyCode::Down => DialogIntent::Select(1),
        KeyCode::PageUp => if tree {
            DialogIntent::TreePage(false)
        } else {
            DialogIntent::SelectPage(false)
        },
        KeyCode::PageDown => if tree {
            DialogIntent::TreePage(true)
        } else {
            DialogIntent::SelectPage(true)
        },
        KeyCode::Home => DialogIntent::SelectFirst,
        KeyCode::End => DialogIntent::SelectLast,
        KeyCode::Left => if overlay == OverlayKind::Permission {
            DialogIntent::Select((-1) as isize)
        } else if tree && (m.control || m.alt) {
            DialogIntent::Fold(false)
        } else if tree {
            DialogIntent::TreePage(false)
        } else {
            DialogIntent::Ignore
        },
        KeyCode::Right => if overlay == OverlayKind::Permission {
            DialogIntent::Select(1)
        } else if tree && (m.control || m.alt) {
            DialogIntent::Fold(true)
        } else if tree {
            DialogIntent::TreePage(true)
        } else {
            DialogIntent::Ignore
        },
        KeyCode::Backspace => DialogIntent::Erase,
        KeyCode::Delete => if overlay == OverlayKind::ImageViewer {
            DialogIntent::RemoveImage
        } else {
            DialogIntent::Ignore
        },
        KeyCode::Enter => if overlay == OverlayKind::ImageViewer {
            DialogIntent::Close
        } else if m.shift {
            DialogIntent::ConfirmWithSummary
        } else {
            DialogIntent::Confirm
        },
        KeyCode::Char(c) => char_intent(overlay, c, m),
        _ => DialogIntent::Ignore,
    }
}

/// What a key asks of the open dialog.
pub open spec fn dialog_intent(overlay: OverlayKind, key: KeyEvent) -> DialogIntent {
    if overlay == OverlayKind::PasteEditor {
        editor_intent(key.code, key.modifiers)
    } else {
        list_intent(overlay, key.code, key.modifiers)
    }
}

fn is_only_control(m: KeyModifiers) -> (r: bool)
    ensures
        r == only_control(m),
{
    m.control && !m.shift && !m.alt && !m.logo && !m.hyper && !m.meta
}

/// What a character asks of a dialog.
fn read_char(overlay: OverlayKind, c: char, m: KeyModifiers) -> (r: DialogIntent)
    ensures
        r == char_intent(overlay, c, m),
{
    let editor: bool = overlay == OverlayKind::PasteEditor;
    let sessions: bool = overlay == OverlayKind::SessionPicker;
    if c == 'q' && m.control {
        DialogIntent::Quit
    } else if c == ' ' && overlay == OverlayKind::ScopedModels {
        DialogIntent::ToggleModel
    } else if c == ' ' && (overlay == OverlayKind::Extensions || overlay == OverlayKind::Settings) {
        DialogIntent::Confirm
    } else if c == 'o' && m.control && (overlay == OverlayKind::TreePicker || overlay
        == OverlayKind::ForkPicker) {
        DialogIntent::CycleFilter
    } else if c == 'p' && m.control && sessions {
        DialogIntent::TogglePaths
    } else if c == 's' && m.control && sessions {
        DialogIntent::CycleSort
    } else if c == 'v' && editor && is_only_control(m) {
        DialogIntent::PasteText
    } else if c == 'n' && m.control && sessions {
        DialogIntent::ToggleNamed
    } else if c == 'r' && m.control && sessions {
        DialogIntent::Rename
    } else if c == 'd' && m.control && sessions {
        DialogIntent::Delete
    } else if c == 't' && m.shift && (overlay == OverlayKind::TreePicker || overlay
        == OverlayKind::ForkPicker) {
        DialogIntent::ToggleTimes
    } else if c == 'l' && m.shift && (overlay == OverlayKind::TreePicker || overlay
        == OverlayKind::ForkPicker) {
        DialogIntent::Label
    } else if (c == 'j' || c == 'm' || c == 's') && editor && m.control {
        DialogIntent::Confirm
    } else if !m.control && !m.alt && !m.logo {
        DialogIntent::Type(c)
    } else {
        DialogIntent::Ignore
    }
}

/// What a key asks of the editor of a pasted block.
fn read_editor_key(code: KeyCode, m: KeyModifiers) -> (r: DialogIntent)
    ensures
        r == editor_intent(code, m),
{
    match code {
        KeyCode::Left => DialogIntent::MoveCursor(-1),
        KeyCode::Right => DialogIntent::MoveCursor(1),
        KeyCode::Home => if m.control {
            DialogIntent::TextStart
        } else {
            DialogIntent::LineEdge(false)
        },
        KeyCode::End => if m.control {
            DialogIntent::TextEnd
        } else {
            DialogIntent::LineEdge(true)
        },
        KeyCode::PageUp => DialogIntent::MoveRows(-10),
        KeyCode::PageDown => DialogIntent::MoveRows(10),
        KeyCode::Up => DialogIntent::MoveRows(-1),
        KeyCode::Down => DialogIntent::MoveRows(1),
        KeyCode::Enter => if m.control {
            if m.shift {
                DialogIntent::ConfirmWithSummary
            } else {
                DialogIntent::Confirm
            }
        } else {
            DialogIntent::NewLine
        },
        KeyCode::Esc => DialogIntent::Cancel,
        KeyCode::Backspace => DialogIntent::Erase,
        KeyCode::Char(c) => read_char(OverlayKind::PasteEditor, c, m),
        _ => DialogIntent::Ignore,
    }
}

/// What a key asks of a dialog that lists rows.
fn read_list_key(overlay: OverlayKind, code: KeyCode, m: KeyModifiers) -> (r: DialogIntent)
    ensures
        r == list_intent(overlay, code, m),
{
    let tree: bool = overlay == OverlayKind::TreePicker;
    match code {
        KeyCode::Esc => DialogIntent::Cancel,
        KeyCode::Up => DialogIntent::Select(-1),
        KeyCode::Down => DialogIntent::Select(1),
        KeyCode::PageUp => if tree {
            DialogIntent::TreePage(false)
        } else {
            DialogIntent::SelectPage(false)
        },
        KeyCode::PageDown => if tree {
            DialogIntent::TreePage(true)
        } else {
            DialogIntent::SelectPage(true)
        },
        KeyCode::Home => DialogIntent::SelectFirst,
        KeyCode::End => DialogIntent::SelectLast,
        KeyCode::Left => if overlay == OverlayKind::Permission {
            DialogIntent::Select(-1)
        } else if tree && (m.control || m.alt) {
            DialogIntent::Fold(false)
        } else if tree {
            DialogIntent::TreePage(false)
        } else {
            DialogIntent::Ignore
        },
        KeyCode::Right => if overlay == OverlayKind::Permission {
            DialogIntent::Select(1)
        } else if tree && (m.control || m.alt) {
            DialogIntent::Fold(true)
        } else if tree {
            DialogIntent::TreePage(true)
        } else {
            DialogIntent::Ignore
        },
        KeyCode::Backspace => DialogIntent::Erase,
        KeyCode::Delete => if overlay == OverlayKind::ImageViewer {
            DialogIntent::RemoveImage
        } else {
            DialogIntent::Ignore
        },
        KeyCode::Enter => if overlay == OverlayKind::ImageViewer {
            DialogIntent::Close
        } else if m.shift {
            DialogIntent::ConfirmWithSummary
        } else {
            DialogIntent::Confirm
        },
        KeyCode::Char(c) => read_char(overlay, c, m),
        _ => DialogIntent::Ignore,
    }
}

/// What a key asks of the open dialog.
pub fn read_dialog_key(overlay: OverlayKind, key: KeyEvent) -> (r: DialogIntent)
    ensures
        r == dialog_intent(overlay, key),
{
    if overlay == OverlayKind::PasteEditor {
        read_editor_key(key.code, key.modifiers)
    } else {
        read_list_key(overlay, key.code, key.modifiers)
    }
}

/// The rows that a step of a page moves by.
pub open spec fn page_step(down: bool, page: int) -> int {
    if down {
        panes::capped(page)
    } else {
        -panes::capped(page)
    }
}

/// Only the selection has changed, and nothing is hovered.
pub open spec fn selected(before: AppState, after: AppState, at: int) -> bool {
    &&& after == (AppState {
        dialog: Dialog {
            overlay_selected: after.dialog.overlay_selected,
            overlay_hovered: None,
            ..before.dialog
        },
        ..before
    })
    &&& after.dialog.overlay_selected == at
}

/// Only the cursor of the editor has moved.
pub open spec fn cursor_set(before: AppState, after: AppState, at: int) -> bool {
    &&& after == (AppState {
        dialog: Dialog { overlay_cursor: after.dialog.overlay_cursor, ..before.dialog },
        ..before
    })
    &&& after.dialog.overlay_cursor == at
}

/// A text was inserted into the editor.
pub open spec fn editor_inserted(before: AppState, after: AppState, content: Seq<char>) -> bool {
    let at = before.dialog.text_cursor();
    &&& dialogs::editor_moved(before, after)
    &&& after.dialog.overlay_query@ == composer::replaced(
        before.dialog.overlay_query@,
        at,
        at,
        composer::line_feeds(content),
    )
    &&& after.dialog.overlay_cursor == at + composer::line_feeds(content).len()
}

/// The cursor of the editor has moved, and its text stays.
pub open spec fn editor_cursor(before: AppState, after: AppState, at: int) -> bool {
    &&& dialogs::editor_moved(before, after)
    &&& after.dialog.overlay_query == before.dialog.overlay_query
    &&& after.dialog.overlay_cursor == at
}

/// What an intent does to the open dialog, and what is left to do.
pub open spec fn dialog_done(
    before: AppState,
    after: AppState,
    intent: DialogIntent,
    page: int,
    effect: Effect,
) -> bool {
    let query = before.dialog.overlay_query@;
    match intent {
        DialogIntent::Quit => after == before && effect == Effect::Quit,
        DialogIntent::Cancel => exists|action: OverlayAction| #[trigger]
            panes::cancels(before, after, action) && effect == dispatch::dispatched(action),
        DialogIntent::Confirm => exists|action: OverlayAction| #[trigger]
            pickers::activates(before, after, action) && effect == dispatch::dispatched(action),
        DialogIntent::ConfirmWithSummary => exists|action: OverlayAction| #[trigger]
            panes::activates_with_summary(before, after, action) && effect
                == dispatch::dispatched(action),
        DialogIntent::PasteText => after == before && effect == (Effect::PasteText {
            editor: true,
        }),
        DialogIntent::MoveCursor(delta) => effect == Effect::Nothing && editor_cursor(
            before,
            after,
            dialog::stepped(before.dialog.text_cursor(), delta as int, query.len() as int + 1),
        ),
        DialogIntent::TextStart => effect == Effect::Nothing && cursor_set(before, after, 0),
        DialogIntent::TextEnd => effect == Effect::Nothing && cursor_set(
            before,
            after,
            query.len() as int,
        ),
        DialogIntent::LineEdge(end) => effect == Effect::Nothing && editor_cursor(
            before,
            after,
            if end {
                dialog::line_end(query, before.dialog.text_cursor())
            } else {
                dialog::line_start(query, before.dialog.text_cursor())
            },
        ),
        DialogIntent::MoveRows(delta) => {
            &&& effect == Effect::Nothing
            &&& editor_cursor(before, after, after.dialog.overlay_cursor as int)
            &&& paste_editor::moved_by_rows(
                before.editor.paste_editor_rows@,
                before.dialog.overlay_cursor as int,
                delta as int,
                after.dialog.overlay_cursor as int,
            )
        },
        DialogIntent::NewLine => effect == Effect::Nothing && editor_inserted(
            before,
            after,
            seq!['\n'],
        ),
        DialogIntent::Select(delta) => effect == Effect::Nothing && choices::selection_moved(
            before,
            after,
            delta as int,
        ),
        DialogIntent::SelectPage(down) => effect == Effect::Nothing && choices::selection_moved(
            before,
            after,
            page_step(down, page),
        ),
        DialogIntent::TreePage(down) => effect == Effect::Nothing && choices::selection_moved(
            before,
            after,
            page_step(down, page),
        ),
        DialogIntent::SelectFirst => effect == Effect::Nothing && selected(before, after, 0),
        DialogIntent::SelectLast => effect == Effect::Nothing && exists|places: Seq<usize>|
            #[trigger]
            choices::lists_places(before, places) && selected(
                before,
                after,
                if places.len() > 0 {
                    places.len() - 1
                } else {
                    0
                },
            ),
        DialogIntent::Fold(right) => effect == Effect::Nothing && panes::tree_stepped(
            before,
            after,
            right,
        ),
        DialogIntent::ToggleModel => effect == Effect::Nothing && panes::scopes(before, after),
        DialogIntent::CycleFilter => effect == Effect::Nothing && after == (AppState {
            tree: SessionTree { tree_filter: before.tree.tree_filter.following(), ..before.tree },
            dialog: Dialog { overlay_selected: 0, ..before.dialog },
            ..before
        }),
        DialogIntent::TogglePaths => effect == Effect::Nothing && after == (AppState {
            sessions: SessionList {
                session_show_path: !before.sessions.session_show_path,
                ..before.sessions
            },
            ..before
        }),
        DialogIntent::CycleSort => effect == Effect::Nothing && panes::relists(
            before,
            after,
            SessionList {
                session_sort: before.sessions.session_sort.following(),
                ..before.sessions
            },
        ),
        DialogIntent::ToggleNamed => effect == Effect::Nothing && panes::relists(
            before,
            after,
            SessionList {
                session_named_only: !before.sessions.session_named_only,
                ..before.sessions
            },
        ),
        DialogIntent::Rename => effect == Effect::Nothing && panes::picker_asks(
            before,
            after,
            false,
        ),
        DialogIntent::Delete => effect == Effect::Nothing && panes::picker_asks(
            before,
            after,
            true,
        ),
        DialogIntent::ToggleTimes => effect == Effect::Nothing && after == (AppState {
            tree: SessionTree {
                tree_show_timestamps: !before.tree.tree_show_timestamps,
                ..before.tree
            },
            ..before
        }),
        DialogIntent::Label => effect == Effect::Nothing && if lists_tree(before.dialog.overlay) {
            panes::asks_label(before, after)
        } else {
            after == before
        },
        DialogIntent::Erase => effect == Effect::Nothing && dialogs::erased_from(before, after),
        DialogIntent::RemoveImage => effect == Effect::Nothing && dialogs::drops_image(
            before,
            after,
        ),
        DialogIntent::Close => effect == Effect::Nothing && dialogs::closes(before, after),
        DialogIntent::Type(c) => effect == Effect::Nothing && dialogs::typed_into(
            before,
            after,
            c,
        ),
        DialogIntent::Ignore => effect == Effect::Nothing && after == before,
    }
}

impl AppState {
    fn confirm_dialog(&mut self, summary: bool) -> (r: Effect)
        requires
            old(self).wf(),
        ensures
            dialog_done(
                *old(self),
                *final(self),
                if summary {
                    DialogIntent::ConfirmWithSummary
                } else {
                    DialogIntent::Confirm
                },
                0,
                r,
            ),
            final(self).wf(),
    {
        if summary {
            let action: OverlayAction = self.activate_tree_with_summary();
            let ghost told = action;
            let effect: Effect = dispatch::dispatch_overlay_action(action);
            assert(panes::activates_with_summary(*old(self), *self, told));
            effect
        } else {
            let action: OverlayAction = self.activate_overlay();
            let ghost told = action;
            let effect: Effect = dispatch::dispatch_overlay_action(action);
            assert(pickers::activates(*old(self), *self, told));
            effect
        }
    }

    /// Leaves the open dialog.
    pub fn cancel_dialog(&mut self) -> (r: Effect)
        requires
            old(self).wf(),
        ensures
            dialog_done(*old(self), *final(self), DialogIntent::Cancel, 0, r),
            final(self).wf(),
    {
        let action: OverlayAction = self.cancel_oauth();
        let ghost told = action;
        let effect: Effect = dispatch::dispatch_overlay_action(action);
        assert(panes::cancels(*old(self), *self, told));
        effect
    }

    fn step_page(&mut self, down: bool, page: usize)
        requires
            old(self).wf(),
        ensures
            choices::selection_moved(*old(self), *final(self), page_step(down, page as int)),
            final(self).wf(),
    {
        let rows: isize = panes::page_rows(page);
        if down {
            self.move_overlay_selection(rows);
        } else {
            self.move_overlay_selection(-rows);
        }
    }

    fn select_last(&mut self)
        requires
            old(self).wf(),
        ensures
            dialog_done(*old(self), *final(self), DialogIntent::SelectLast, 0, Effect::Nothing),
            final(self).wf(),
    {
        let places: Vec<usize> = self.overlay_places();
        self.dialog.overlay_hovered = None;
        self.dialog.overlay_selected = places.len().saturating_sub(1);
        assert(choices::lists_places(*old(self), places@));
    }

    fn edit_text(&mut self, intent: DialogIntent)
        requires
            old(self).wf(),
            match intent {
                DialogIntent::MoveCursor(_) => true,
                DialogIntent::TextStart => true,
                DialogIntent::TextEnd => true,
                DialogIntent::LineEdge(_) => true,
                DialogIntent::MoveRows(_) => true,
                DialogIntent::NewLine => true,
                _ => false,
            },
        ensures
            dialog_done(*old(self), *final(self), intent, 0, Effect::Nothing),
            final(self).wf(),
    {
        match intent {
            DialogIntent::MoveCursor(delta) => self.move_paste_editor_cursor(delta),
            DialogIntent::TextStart => {
                self.dialog.overlay_cursor = 0;
            },
            DialogIntent::TextEnd => {
                let chars: Vec<char> = text::chars_of(self.dialog.overlay_query.as_str());
                self.dialog.overlay_cursor = chars.len();
            },
            DialogIntent::LineEdge(end) => self.move_paste_editor_line_edge(end),
            DialogIntent::MoveRows(delta) => self.move_paste_editor_vertical(delta),
            _ => {
                proof {
                    reveal_strlit("\n");
                    assert("\n"@ =~= seq!['\n']);
                }
                self.insert_paste_editor_text("\n".to_owned());
            },
        }
    }

    fn arrange_rows(&mut self, intent: DialogIntent)
        requires
            old(self).wf(),
            match intent {
                DialogIntent::Fold(_) => true,
                DialogIntent::ToggleModel => true,
                DialogIntent::CycleFilter => true,
                DialogIntent::TogglePaths => true,
                DialogIntent::CycleSort => true,
                DialogIntent::ToggleNamed => true,
                DialogIntent::Rename => true,
                DialogIntent::Delete => true,
                DialogIntent::ToggleTimes => true,
                DialogIntent::Label => true,
                _ => false,
            },
        ensures
            dialog_done(*old(self), *final(self), intent, 0, Effect::Nothing),
            final(self).wf(),
    {
        match intent {
            DialogIntent::Fold(right) => self.fold_or_move_tree(right),
            DialogIntent::ToggleModel => self.toggle_scoped_model(),
            DialogIntent::CycleFilter => self.cycle_tree_filter(),
            DialogIntent::TogglePaths => self.toggle_session_paths(),
            DialogIntent::CycleSort => self.cycle_session_sort(),
            DialogIntent::ToggleNamed => self.toggle_named_sessions(),
            DialogIntent::Rename => self.begin_session_rename(),
            DialogIntent::Delete => self.begin_session_delete(),
            DialogIntent::ToggleTimes => self.toggle_tree_timestamps(),
            _ => {
                if self.dialog.overlay == OverlayKind::TreePicker || self.dialog.overlay
                    == OverlayKind::ForkPicker {
                    self.begin_tree_label();
                }
            },
        }
    }

    /// Does what a key asks of the open dialog.
    pub fn perform_in_dialog(&mut self, intent: DialogIntent, page: usize) -> (r: Effect)
        requires
            old(self).wf(),
        ensures
            dialog_done(*old(self), *final(self), intent, page as int, r),
            final(self).wf(),
    {
        match intent {
            DialogIntent::Quit => {
                return Effect::Quit;
            },
            DialogIntent::Cancel => {
                return self.cancel_dialog();
            },
            DialogIntent::Confirm => {
                return self.confirm_dialog(false);
            },
            DialogIntent::ConfirmWithSummary => {
                return self.confirm_dialog(true);
            },
            DialogIntent::PasteText => {
                return Effect::PasteText { editor: true };
            },
            DialogIntent::MoveCursor(_) => self.edit_text(intent),
            DialogIntent::TextStart => self.edit_text(intent),
            DialogIntent::TextEnd => self.edit_text(intent),
            DialogIntent::LineEdge(_) => self.edit_text(intent),
            DialogIntent::MoveRows(_) => self.edit_text(intent),
            DialogIntent::NewLine => self.edit_text(intent),
            DialogIntent::Select(delta) => self.move_overlay_selection(delta),
            DialogIntent::SelectPage(down) => self.step_page(down, page),
            DialogIntent::TreePage(down) => self.step_page(down, page),
            DialogIntent::SelectFirst => {
                self.dialog.overlay_hovered = None;
                self.dialog.overlay_selected = 0;
            },
            DialogIntent::SelectLast => self.select_last(),
            DialogIntent::Erase => self.overlay_backspace(),
            DialogIntent::RemoveImage => self.remove_viewed_image(),
            DialogIntent::Close => self.close_overlay(),
            DialogIntent::Type(c) => self.insert_overlay_char(c),
            DialogIntent::Ignore => {},
            _ => self.arrange_rows(intent),
        }
        Effect::Nothing
    }

    /// Handles a key while a dialog is open.
    pub fn handle_dialog_key(&mut self, key: KeyEvent, page: usize) -> (r: Effect)
        requires
            old(self).wf(),
        ensures
            dialog_done(
                *old(self),
                *final(self),
                dialog_intent(old(self).dialog.overlay, key),
                page as int,
                r,
            ),
            final(self).wf(),
    {
        let intent: DialogIntent = read_dialog_key(self.dialog.overlay, key);
        self.perform_in_dialog(intent, page)
    }
}

} // verus!
