//! When the screen is drawn, and what comes in beside keys and pointer.

use vstd::prelude::*;

use crate::agent_layout;
use crate::agent_layout::AgentLayout;
use crate::composer_state;
use crate::composer_state::Composer;
use crate::dialog;
use crate::dialog_keys;
use crate::dialogs;
use crate::geometry;
use crate::geometry::Rect;
use crate::harness::ModelInfo;
use crate::harness::RuntimeResources;
use crate::harness::RuntimeSettings;
use crate::harness::SessionInfo;
use crate::offers::Offers;
use crate::overlay;
use crate::screen;
use crate::sessions::SessionList;
use crate::state;
use crate::state::AppState;
use crate::state::Header;
use crate::state_types::Focus;
use crate::state_types::ImageAttachment;
use crate::state_types::OverlayKind;
use crate::state_types::ThemeMode;
use crate::text;
use crate::transcript;

verus! {

broadcast use vstd::string::group_string_axioms;

/// The time between two frames of an animation, in milliseconds.
pub const FRAME_INTERVAL_MS: u64 = 33;

/// How long a screen without animation waits, in milliseconds.
pub const IDLE_WAIT_MS: u64 = 3_600_000;

/// Something on the screen moves by itself.
pub open spec fn animated(s: AppState) -> bool {
    ||| s.transcript.streaming
    ||| s.scroll.scroll_drag is Some
    ||| s.scroll.scrollbar_dragging
    ||| s.composer.image_processing_started_at is Some
    ||| transcript::compacting_since(s.transcript.entries@) is Some
    ||| s.boards.busy()
    ||| s.sessions.running()
}

/// The screen is to be drawn: what has changed is drawn at once, and a screen
/// that moves by itself once for each frame.
pub open spec fn due(moving: bool, dirty: bool, since_draw: Option<u64>) -> bool {
    if moving {
        match since_draw {
            None => true,
            Some(passed) => passed >= FRAME_INTERVAL_MS,
        }
    } else {
        dirty
    }
}

/// How long to wait for the next frame, in milliseconds.
pub open spec fn wait_of(moving: bool, since_draw: Option<u64>) -> u64 {
    if moving {
        match since_draw {
            None => 0,
            Some(passed) => geometry::less(FRAME_INTERVAL_MS as int, passed as int) as u64,
        }
    } else {
        IDLE_WAIT_MS
    }
}

/// A frame that was waited for is due.
pub proof fn waiting_makes_the_frame_due(dirty: bool, passed: u64, later: u64)
    requires
        later >= passed + wait_of(true, Some(passed)),
    ensures
        due(true, dirty, Some(later)),
{
}

/// The screen is to be drawn.
pub fn draw_due(moving: bool, dirty: bool, since_draw: Option<u64>) -> (r: bool)
    ensures
        r == due(moving, dirty, since_draw),
{
    if moving {
        match since_draw {
            None => true,
            Some(passed) => passed >= FRAME_INTERVAL_MS,
        }
    } else {
        dirty
    }
}

/// How long to wait for the next frame, in milliseconds.
pub fn frame_wait(moving: bool, since_draw: Option<u64>) -> (r: u64)
    ensures
        r == wait_of(moving, since_draw),
{
    if moving {
        match since_draw {
            None => 0,
            Some(passed) => FRAME_INTERVAL_MS.saturating_sub(passed),
        }
    } else {
        IDLE_WAIT_MS
    }
}

/// What was found in the clipboard.
#[derive(Clone, Debug)]
pub enum ClipboardPayload {
    Image(ImageAttachment),
    Text(String),
}

/// A text was pasted into the draft, and the status says how long it is.
pub open spec fn pastes_text(before: AppState, after: AppState, content: Seq<char>) -> bool {
    &&& after == (AppState {
        composer: after.composer,
        dialog: dialog::Dialog { overlay_selected: 0, ..before.dialog },
        status: after.status,
        ..before
    })
    &&& composer_state::pasted_into(before.composer, after.composer, content)
    &&& after.status@ == "pasted "@ + text::decimal(content.len()) + " characters"@
}

/// What was loaded from the clipboard has come in.
pub open spec fn clipboard_loaded(
    before: AppState,
    after: AppState,
    result: Result<ClipboardPayload, String>,
) -> bool {
    let calm = AppState {
        composer: Composer { image_processing_started_at: None, ..before.composer },
        ..before
    };
    match result {
        Ok(ClipboardPayload::Image(image)) => dialogs::attaches(calm, after, image),
        Ok(ClipboardPayload::Text(content)) => pastes_text(calm, after, content@),
        Err(error) => dialogs::says(calm, after, "clipboard unavailable: "@ + error@),
    }
}

/// The text of the clipboard was asked for and has come in.
pub open spec fn clipboard_text(
    before: AppState,
    after: AppState,
    editor: bool,
    result: Result<String, String>,
) -> bool {
    match result {
        Ok(content) => if editor {
            dialog_keys::editor_inserted(before, after, content@)
        } else {
            pastes_text(before, after, content@)
        },
        Err(error) => dialogs::says(before, after, "clipboard text unavailable: "@ + error@),
    }
}

/// A text was pasted by the terminal: into the editor, or into the draft if
/// it has the focus and no dialog is open.
pub open spec fn terminal_pasted(before: AppState, after: AppState, content: Seq<char>) -> bool {
    if before.dialog.overlay == OverlayKind::PasteEditor {
        dialog_keys::editor_inserted(before, after, content)
    } else if before.focus == Focus::Prompt && before.dialog.overlay == OverlayKind::Closed {
        &&& state::composed(before, after)
        &&& composer_state::pasted_into(before.composer, after.composer, content)
    } else {
        after == before
    }
}

/// What is known when the client starts.
pub struct TuiBootstrap {
    pub models: Vec<ModelInfo>,
    pub auth_providers: Vec<ModelInfo>,
    pub sessions: Vec<SessionInfo>,
    pub files: Vec<String>,
    pub resources: RuntimeResources,
    pub settings: RuntimeSettings,
    pub open_resume: bool,
}

/// The client starts from the fresh state `d` with the dashboard, and with the list of
/// sessions over it if that was asked for. The first model is in use. Everything else is
/// fresh.
pub open spec fn starts_from(
    d: AppState,
    s: AppState,
    b: TuiBootstrap,
    theme: ThemeMode,
    cwd: Option<String>,
    branch: Option<String>,
) -> bool {
    &&& s == (AppState {
        view: screen::View::Dashboard,
        theme_mode: theme,
        model: if b.models@.len() > 0 {
            s.model
        } else {
            d.model
        },
        header: Header {
            cwd: match cwd {
                Some(path) => path,
                None => d.header.cwd,
            },
            branch: match (cwd, branch) {
                (Some(_), Some(name)) => name,
                _ => d.header.branch,
            },
            ..d.header
        },
        offers: Offers {
            available_models: b.models,
            available_auth_providers: b.auth_providers,
            available_files: b.files,
            runtime_commands: b.resources.commands,
            context_files: b.resources.context_files,
            runtime_extensions: b.resources.extensions,
            runtime_settings: b.settings,
            ..d.offers
        },
        sessions: SessionList { available_sessions: b.sessions, ..d.sessions },
        dialog: if b.open_resume {
            s.dialog
        } else {
            d.dialog
        },
        ..d
    })
    &&& b.models@.len() > 0 ==> s.model@ == b.models@[0].display_name@
    &&& b.open_resume ==> dialog::opened(s.dialog, OverlayKind::SessionPicker, 0, None)
}

/// The state that the client starts with.
pub open spec fn started(
    s: AppState,
    b: TuiBootstrap,
    theme: ThemeMode,
    cwd: Option<String>,
    branch: Option<String>,
) -> bool {
    exists|d: AppState| #[trigger]
        state::fresh(d) && starts_from(d, s, b, theme, cwd, branch)
}

impl AppState {
    /// Whether something on the screen moves by itself.
    pub fn is_animated(&self) -> (r: bool)
        ensures
            r == animated(*self),
    {
        self.transcript.streaming || self.scroll.scroll_drag.is_some()
            || self.scroll.scrollbar_dragging
            || self.composer.image_processing_started_at.is_some()
            || self.transcript.active_compaction_started_at().is_some()
            || self.boards.has_background_work() || self.sessions.any_running()
    }

    fn paste_text(&mut self, content: String)
        requires
            old(self).wf(),
        ensures
            pastes_text(*old(self), *final(self), content@),
            final(self).wf(),
    {
        let chars: Vec<char> = text::chars_of(content.as_str());
        let length: usize = chars.len();
        self.insert_paste(content);
        self.status = text::joined3(
            "pasted ",
            text::decimal_text(length as u64).as_str(),
            " characters",
        );
    }

    /// Takes in what was loaded from the clipboard.
    pub fn receive_clipboard(&mut self, result: Result<ClipboardPayload, String>)
        requires
            old(self).wf(),
        ensures
            clipboard_loaded(*old(self), *final(self), result),
            final(self).wf(),
    {
        self.composer.image_processing_started_at = None;
        match result {
            Ok(ClipboardPayload::Image(image)) => self.attach_image(image),
            Ok(ClipboardPayload::Text(content)) => self.paste_text(content),
            Err(error) => {
                self.status = text::joined("clipboard unavailable: ", error.as_str());
            },
        }
    }

    /// Takes in the text of the clipboard.
    pub fn paste_clipboard_text(&mut self, editor: bool, result: Result<String, String>)
        requires
            old(self).wf(),
        ensures
            clipboard_text(*old(self), *final(self), editor, result),
            final(self).wf(),
    {
        match result {
            Ok(content) => {
                if editor {
                    self.insert_paste_editor_text(content);
                } else {
                    self.paste_text(content);
                }
            },
            Err(error) => {
                self.status = text::joined("clipboard text unavailable: ", error.as_str());
            },
        }
    }

    /// Takes in a text that the terminal pasted.
    pub fn handle_paste(&mut self, content: String)
        requires
            old(self).wf(),
        ensures
            terminal_pasted(*old(self), *final(self), content@),
            final(self).wf(),
    {
        if self.dialog.overlay == OverlayKind::PasteEditor {
            self.insert_paste_editor_text(content);
        } else if self.focus == Focus::Prompt && self.dialog.overlay == OverlayKind::Closed {
            self.insert_paste(content);
        }
    }

    /// Says whether the working directory was copied.
    pub fn directory_copied(&mut self, result: Result<(), String>)
        ensures
            match result {
                Ok(()) => dialogs::says(*old(self), *final(self), "working directory copied"@),
                Err(error) => dialogs::says(
                    *old(self),
                    *final(self),
                    "copy working directory failed: "@ + error@,
                ),
            },
            old(self).wf() ==> final(self).wf(),
    {
        self.status = match result {
            Ok(()) => "working directory copied".to_owned(),
            Err(error) => text::joined("copy working directory failed: ", error.as_str()),
        };
    }

    /// The rows of the transcript on a screen, at least one.
    pub fn page(&self, width: u16, height: u16) -> (r: usize)
        ensures
            exists|layout: AgentLayout| #[trigger]
                agent_layout::laid_out(overlay::frame_of(width, height), *self, layout) && r
                    == geometry::max(layout.scrollback.height as int, 1),
            agent_layout::has_room(overlay::frame_of(width, height), *self) ==> r == geometry::max(
                agent_layout::full_layout(
                    overlay::frame_of(width, height),
                    *self,
                ).scrollback.height as int,
                1,
            ),
    {
        let frame: Rect = Rect::new(0, 0, width, height);
        assert(frame == overlay::frame_of(width, height));
        let layout: AgentLayout = AgentLayout::compute(frame, self);
        layout.page()
    }

    /// The state that the client starts with.
    pub fn start(
        b: TuiBootstrap,
        theme: ThemeMode,
        cwd: Option<String>,
        branch: Option<String>,
    ) -> (r: AppState)
        ensures
            started(r, b, theme, cwd, branch),
            r.wf(),
    {
        let mut s: AppState = AppState::default();
        let ghost d = s;
        s.theme_mode = theme;
        if let Some(path) = cwd {
            s.header.cwd = path;
            if let Some(name) = branch {
                s.header.branch = name;
            }
        }
        if b.models.len() > 0 {
            s.model = b.models[0].display_name.clone();
        }
        s.offers.available_models = b.models;
        s.sessions.available_sessions = b.sessions;
        s.offers.available_auth_providers = b.auth_providers;
        s.offers.available_files = b.files;
        s.offers.runtime_commands = b.resources.commands;
        s.offers.context_files = b.resources.context_files;
        s.offers.runtime_extensions = b.resources.extensions;
        s.offers.runtime_settings = b.settings;
        s.view = screen::View::Dashboard;
        if b.open_resume {
            s.open_overlay(OverlayKind::SessionPicker);
        }
        assert(starts_from(d, s, b, theme, cwd, branch));
        s
    }
}

/// The text of the clipboard goes to where it was asked for: into the editor, where the cursor
/// stands, and then not into the draft. Where there is none, the reason is told and no text
/// changes.
pub proof fn clipboard_text_goes_where_it_was_asked_for(
    before: AppState,
    after: AppState,
    editor: bool,
    result: Result<String, String>,
)
    requires
        clipboard_text(before, after, editor, result),
    ensures
        result is Ok && editor ==> {
            let at = before.dialog.text_cursor();
            let old_text = before.dialog.overlay_query@;
            let content = crate::composer::line_feeds(result->Ok_0@);
            &&& after.composer == before.composer
            &&& after.dialog.overlay_query@ == old_text.take(at) + content + old_text.skip(at)
            &&& after.dialog.overlay_cursor == at + content.len()
        },
        result matches Err(error) ==> {
            &&& text::finishes_with(after.status@, error@)
            &&& after.composer == before.composer
            &&& after.dialog == before.dialog
        },
{
    if let Err(error) = result {
        let front = "clipboard text unavailable: "@;
        assert(after.status@.skip(front.len() as int) =~= error@);
        assert(after.status@ =~= front + error@);
    }
}

} // verus!
