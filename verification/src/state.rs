//! The state of the screen.

use vstd::prelude::*;

use crate::boards;
use crate::boards::Boards;
use crate::composer;
use crate::composer_state;
use crate::composer_state::Composer;
use crate::dialog;
use crate::dialog::Dialog;
use crate::harness::AppUpdateStatus;
use crate::harness::MessageImage;
use crate::harness::PlanEntry;
use crate::offers;
use crate::offers::Offers;
use crate::paste_editor;
use crate::paste_editor::PasteEditor;
use crate::screen;
use crate::scrolling;
use crate::scrolling::Scroll;
use crate::sessions;
use crate::sessions::SessionList;
use crate::state_types::Focus;
use crate::state_types::OverlayKind;
use crate::state_types::PendingOauth;
use crate::state_types::PendingPermission;
use crate::state_types::PermissionMode;
use crate::state_types::Target;
use crate::state_types::ThemeMode;
use crate::text;
use crate::transcript;
use crate::transcript::Transcript;
use crate::tree;
use crate::tree::SessionTree;

verus! {

broadcast use vstd::string::group_string_axioms;

/// The line above the transcript.
#[derive(Clone, Debug)]
pub struct Header {
    pub branch: String,
    pub cwd: String,
    pub context_used: u64,
    pub context_limit: u64,
    pub tasks_complete: usize,
    pub tasks_total: usize,
    pub plan_entries: Vec<PlanEntry>,
    pub app_update: Option<AppUpdateStatus>,
}

/// An empty header.
pub open spec fn fresh_header(h: Header) -> bool {
    &&& h.branch@ == ""@
    &&& h.cwd@ == ""@
    &&& h.context_used == 0
    &&& h.context_limit == 0
    &&& h.tasks_complete == 0
    &&& h.tasks_total == 0
    &&& h.plan_entries@.len() == 0
    &&& h.app_update is None
}

impl Default for Header {
    fn default() -> (r: Self)
        ensures
            fresh_header(r),
    {
        Header {
            branch: "".to_owned(),
            cwd: "".to_owned(),
            context_used: 0,
            context_limit: 0,
            tasks_complete: 0,
            tasks_total: 0,
            plan_entries: Vec::new(),
            app_update: None,
        }
    }
}

/// What the pointer can hit, and what it hovers.
#[derive(Clone, Debug)]
pub struct Pointer {
    pub header_targets: Vec<Target>,
    pub header_hover: Option<u64>,
    pub composer_targets: Vec<Target>,
    pub composer_hover: Option<u64>,
    pub paste_targets: Vec<Target>,
    pub paste_hover: Option<u64>,
    pub image_targets: Vec<Target>,
    pub image_hover: Option<u64>,
    pub image_view_actions: Vec<Target>,
    pub image_view_action_hover: Option<u64>,
}

/// Nothing to hit and nothing hovered.
pub open spec fn fresh_pointer(p: Pointer) -> bool {
    &&& p.header_targets@.len() == 0
    &&& p.header_hover is None
    &&& p.composer_targets@.len() == 0
    &&& p.composer_hover is None
    &&& p.paste_targets@.len() == 0
    &&& p.paste_hover is None
    &&& p.image_targets@.len() == 0
    &&& p.image_hover is None
    &&& p.image_view_actions@.len() == 0
    &&& p.image_view_action_hover is None
}

impl Default for Pointer {
    fn default() -> (r: Self)
        ensures
            fresh_pointer(r),
    {
        Pointer {
            header_targets: Vec::new(),
            header_hover: None,
            composer_targets: Vec::new(),
            composer_hover: None,
            paste_targets: Vec::new(),
            paste_hover: None,
            image_targets: Vec::new(),
            image_hover: None,
            image_view_actions: Vec::new(),
            image_view_action_hover: None,
        }
    }
}

/// Everything that the screen shows and reacts to.
#[derive(Clone, Debug)]
pub struct AppState {
    pub view: screen::View,
    pub focus: Focus,
    pub theme_mode: ThemeMode,
    pub permission_mode: PermissionMode,
    pub model: String,
    pub thinking_level: String,
    pub status: String,
    pub placeholder: String,
    pub header: Header,
    pub composer: Composer,
    pub transcript: Transcript,
    pub scroll: Scroll,
    pub dialog: Dialog,
    pub editor: PasteEditor,
    pub tree: SessionTree,
    pub sessions: SessionList,
    pub offers: Offers,
    pub boards: Boards,
    pub pointer: Pointer,
    pub pending_permission: Option<PendingPermission>,
    pub pending_oauth: Option<PendingOauth>,
}

/// The state before anything has happened.
pub open spec fn fresh(s: AppState) -> bool {
    &&& s.view == screen::View::Transcript
    &&& s.focus == Focus::Prompt
    &&& s.theme_mode == ThemeMode::Dark
    &&& s.permission_mode == PermissionMode::Normal
    &&& s.model@ == ""@
    &&& s.thinking_level@ == ""@
    &&& s.status@ == ""@
    &&& s.placeholder@ == "Ask anything"@
    &&& fresh_header(s.header)
    &&& composer_state::fresh(s.composer)
    &&& transcript::fresh(s.transcript)
    &&& scrolling::fresh(s.scroll)
    &&& dialog::opened(s.dialog, OverlayKind::Closed, 0, None)
    &&& paste_editor::fresh(s.editor)
    &&& tree::fresh(s.tree)
    &&& sessions::fresh(s.sessions)
    &&& offers::fresh(s.offers)
    &&& boards::fresh(s.boards)
    &&& fresh_pointer(s.pointer)
    &&& s.pending_permission is None
    &&& s.pending_oauth is None
}

impl AppState {
    /// The draft is well formed, the sets list nothing twice, and the rows of
    /// the editor can be walked.
    pub open spec fn wf(self) -> bool {
        &&& self.composer.wf()
        &&& paste_editor::walkable(self.editor.paste_editor_rows@)
        &&& self.transcript.pinned_entry_modes.wf()
        &&& self.tree.tree_folded.wf()
    }
}

impl Default for AppState {
    fn default() -> (r: Self)
        ensures
            fresh(r),
            r.wf(),
    {
        AppState {
            view: screen::View::Transcript,
            focus: Focus::Prompt,
            theme_mode: ThemeMode::Dark,
            permission_mode: PermissionMode::Normal,
            model: "".to_owned(),
            thinking_level: "".to_owned(),
            status: "".to_owned(),
            placeholder: "Ask anything".to_owned(),
            header: Header::default(),
            composer: Composer::default(),
            transcript: Transcript::default(),
            scroll: Scroll::default(),
            dialog: Dialog::default(),
            editor: PasteEditor::default(),
            tree: SessionTree::default(),
            sessions: SessionList::default(),
            offers: Offers::default(),
            boards: Boards::default(),
            pointer: Pointer::default(),
            pending_permission: None,
            pending_oauth: None,
        }
    }
}

/// Only the composer has changed, and the first suggestion is selected again.
pub open spec fn composed(before: AppState, after: AppState) -> bool {
    after == (AppState {
        composer: after.composer,
        dialog: Dialog { overlay_selected: 0, ..before.dialog },
        ..before
    })
}

impl AppState {
    /// Types a character at the cursor.
    pub fn insert_char(&mut self, c: char)
        requires
            old(self).wf(),
        ensures
            composed(*old(self), *final(self)),
            composer_state::edited(
                old(self).composer,
                final(self).composer,
                composer::typed(old(self).composer.draft(), seq![c]),
            ),
            final(self).wf(),
    {
        self.composer.insert_char(c);
        self.dialog.overlay_selected = 0;
    }

    /// Deletes what stands in front of the cursor.
    pub fn backspace(&mut self)
        requires
            old(self).wf(),
        ensures
            composed(*old(self), *final(self)),
            composer_state::edited(
                old(self).composer,
                final(self).composer,
                final(self).composer.draft(),
            ),
            composer::after_backspace(old(self).composer.draft(), final(self).composer.draft()),
            final(self).wf(),
    {
        self.composer.backspace();
        self.dialog.overlay_selected = 0;
    }

    /// Deletes what the cursor touches.
    pub fn delete(&mut self)
        requires
            old(self).wf(),
        ensures
            composed(*old(self), *final(self)),
            composer_state::edited(
                old(self).composer,
                final(self).composer,
                final(self).composer.draft(),
            ),
            composer::after_delete(old(self).composer.draft(), final(self).composer.draft()),
            final(self).wf(),
    {
        self.composer.delete();
        self.dialog.overlay_selected = 0;
    }

    /// Pastes text at the cursor.
    pub fn insert_paste(&mut self, content: String)
        requires
            old(self).wf(),
        ensures
            composed(*old(self), *final(self)),
            composer_state::pasted_into(old(self).composer, final(self).composer, content@),
            final(self).wf(),
    {
        self.composer.insert_paste(content);
        self.dialog.overlay_selected = 0;
    }

    /// Replaces the text of a pasted block. Whether there is such a block.
    pub fn replace_paste(&mut self, id: u64, content: String) -> (r: bool)
        requires
            old(self).wf(),
        ensures
            *final(self) == (AppState { composer: final(self).composer, ..*old(self) }),
            composer_state::block_rewritten(
                old(self).composer,
                final(self).composer,
                id,
                content@,
                r,
            ),
            final(self).wf(),
    {
        self.composer.replace_paste(id, content)
    }

    /// Puts the cursor behind a pasted block. Whether there is such a block.
    pub fn focus_paste(&mut self, id: u64) -> (r: bool)
        requires
            old(self).wf(),
        ensures
            *final(self) == (AppState {
                composer: final(self).composer,
                focus: if r {
                    Focus::Prompt
                } else {
                    old(self).focus
                },
                ..*old(self)
            }),
            composer_state::behind_block(old(self).composer, final(self).composer, id, r),
            final(self).wf(),
    {
        if self.composer.focus_paste(id) {
            self.focus = Focus::Prompt;
            true
        } else {
            false
        }
    }

    /// Empties the composer but keeps the attachments.
    pub fn clear_prompt_text(&mut self)
        requires
            old(self).wf(),
        ensures
            composed(*old(self), *final(self)),
            composer_state::edited(
                old(self).composer,
                final(self).composer,
                composer_state::plain_draft(Seq::empty()),
            ),
            final(self).wf(),
    {
        self.composer.clear_prompt_text();
        self.dialog.overlay_selected = 0;
    }

    /// Empties the composer and drops the attachments.
    pub fn clear_prompt(&mut self)
        requires
            old(self).wf(),
        ensures
            composed(*old(self), *final(self)),
            composer_state::cleared(old(self).composer, final(self).composer),
            final(self).wf(),
    {
        self.composer.clear_prompt();
        self.dialog.overlay_selected = 0;
    }

    /// Takes the draft as a prompt; nothing happens if it is blank.
    pub fn submit_prompt(&mut self) -> (r: Option<String>)
        requires
            old(self).wf(),
        ensures
            composed(*old(self), *final(self)),
            composer_state::prompt_taken(old(self).composer, final(self).composer, r),
            final(self).wf(),
    {
        let r: Option<String> = self.composer.submit_prompt();
        self.dialog.overlay_selected = 0;
        r
    }

    /// Takes the draft as a shell command.
    pub fn submit_bash(&mut self) -> (r: Option<(String, bool)>)
        requires
            old(self).wf(),
        ensures
            composed(*old(self), *final(self)),
            composer_state::command_taken(old(self).composer, final(self).composer, r),
            final(self).wf(),
    {
        let r: Option<(String, bool)> = self.composer.submit_bash();
        self.dialog.overlay_selected = 0;
        r
    }

    /// Takes the draft and the attachments as a message.
    pub fn submit_message(&mut self) -> (r: Option<(String, Vec<MessageImage>)>)
        requires
            old(self).wf(),
        ensures
            composed(*old(self), *final(self)),
            composer_state::message_taken(old(self).composer, final(self).composer, r),
            final(self).wf(),
    {
        let r: Option<(String, Vec<MessageImage>)> = self.composer.submit_message();
        self.dialog.overlay_selected = 0;
        r
    }

    /// Shows an earlier line of the history.
    pub fn previous_prompt(&mut self)
        requires
            old(self).wf(),
        ensures
            composed(*old(self), *final(self)),
            composer_state::recalls_previous(old(self).composer, final(self).composer),
            final(self).wf(),
    {
        self.composer.previous_prompt();
        self.dialog.overlay_selected = 0;
    }

    /// Shows a later line of the history.
    pub fn next_prompt(&mut self)
        requires
            old(self).wf(),
        ensures
            composed(*old(self), *final(self)),
            composer_state::recalls_next(old(self).composer, final(self).composer),
            final(self).wf(),
    {
        self.composer.next_prompt();
        self.dialog.overlay_selected = 0;
    }
}

} // verus!
