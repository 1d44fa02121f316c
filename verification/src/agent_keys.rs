//! What the registered actions and the keys of the composer do.

use vstd::prelude::*;

use crate::actions::ActionId;
use crate::composer;
use crate::composer_state;
use crate::composer_state::Composer;
use crate::dialog;
use crate::dialogs;
use crate::dispatch;
use crate::dispatch::Effect;
use crate::dispatch::UiCommand;
use crate::harness::MessageDelivery;
use crate::harness::MessageImage;
use crate::panes;
use crate::pickers;
use crate::screen;
use crate::scrolling::Scroll;
use crate::slash;
use crate::state;
use crate::state::AppState;
use crate::state_types::Focus;
use crate::state_types::OverlayAction;
use crate::state_types::OverlayKind;
use crate::text;
use crate::transcript;
use crate::transcript::Transcript;

verus! {

broadcast use vstd::string::group_string_axioms;

/// There is something in the composer.
pub open spec fn drafting(s: AppState) -> bool {
    s.composer.prompt@.len() > 0 || s.composer.image_attachments@.len() > 0
}

/// The composer was emptied and its attachments dropped.
pub open spec fn discards(before: AppState, after: AppState) -> bool {
    &&& state::composed(before, after)
    &&& composer_state::cleared(before.composer, after.composer)
}

/// The next permission mode was set, and the backend is told.
pub open spec fn cycles_mode(before: AppState, after: AppState, effect: Effect) -> bool {
    &&& after == (AppState { permission_mode: before.permission_mode.following(), ..before })
    &&& effect matches Effect::Send(UiCommand::SetPermissionMode(mode))
    &&& mode@ == after.permission_mode.wire()
}

/// What a registered action does.
pub open spec fn registered(
    before: AppState,
    after: AppState,
    id: ActionId,
    effect: Effect,
) -> bool {
    match id {
        ActionId::CommandPalette => effect == Effect::Nothing && dialogs::opens(
            before,
            after,
            OverlayKind::CommandPalette,
        ),
        ActionId::ModelPicker => effect == Effect::Nothing && dialogs::opens(
            before,
            after,
            OverlayKind::ModelPicker,
        ),
        ActionId::SessionPicker => effect == Effect::Nothing && dialogs::opens(
            before,
            after,
            OverlayKind::SessionPicker,
        ),
        ActionId::Settings => effect == Effect::Nothing && dialogs::opens(
            before,
            after,
            OverlayKind::Settings,
        ),
        ActionId::ToggleTasks => effect == Effect::Nothing && after == (AppState {
            view: pickers::other_pane(before.view),
            ..before
        }),
        ActionId::ToggleQueue => effect == Effect::Nothing && after == (AppState {
            transcript: Transcript {
                queue_visible: !before.transcript.queue_visible,
                ..before.transcript
            },
            ..before
        }),
        ActionId::CycleMode => cycles_mode(before, after, effect),
        ActionId::CancelTurn => if drafting(before) {
            discards(before, after) && effect == Effect::Nothing
        } else if before.transcript.streaming {
            after == before && effect == Effect::Send(UiCommand::AbortAndRestoreQueue)
        } else {
            after == before && effect == Effect::Nothing
        },
        ActionId::Quit => after == before && effect == Effect::Quit,
        _ => after == before && effect == Effect::Nothing,
    }
}

/// The word at the cursor is completed, or else the transcript gets the focus.
pub open spec fn leaves_prompt(before: AppState, after: AppState) -> bool {
    ||| slash::completes(before, after, true)
    ||| {
        &&& slash::completes(before, before, false)
        &&& enters_transcript(before, after)
    }
}

/// The transcript gets the focus.
pub open spec fn enters_transcript(before: AppState, after: AppState) -> bool {
    &&& after == (AppState {
        focus: Focus::Scrollback,
        transcript: after.transcript,
        ..before
    })
    &&& transcript::focus_entered(before.transcript, after.transcript)
}

/// The focus has moved within the transcript.
pub open spec fn steps_focus(before: AppState, after: AppState, direction: int) -> bool {
    &&& after == (AppState { transcript: after.transcript, ..before })
    &&& transcript::focus_moved(before.transcript, after.transcript, direction)
}

/// The target that has the focus was activated; without one nothing happens.
pub open spec fn activates_focus(before: AppState, after: AppState) -> bool {
    match before.transcript.focused_entry {
        Some(index) => panes::target_activated(
            before,
            after,
            index as int,
            before.transcript.focused_target_id,
        ),
        None => after == before,
    }
}

/// An action that belongs to a pane; `done` says whether the pane takes it.
pub open spec fn pane_action(
    before: AppState,
    after: AppState,
    id: ActionId,
    done: bool,
) -> bool {
    match id {
        ActionId::ClearPrompt => if drafting(before) {
            done && discards(before, after)
        } else {
            !done && after == before
        },
        ActionId::FocusScrollback => done && leaves_prompt(before, after),
        ActionId::FocusPrompt => done && panes::focuses(before, after, Focus::Prompt),
        ActionId::ScrollUp => done && steps_focus(before, after, -1),
        ActionId::ScrollDown => done && steps_focus(before, after, 1),
        ActionId::ToggleFold => done && activates_focus(before, after),
        ActionId::OpenBlockViewer => done && if before.transcript.focused_entry is Some {
            after == (AppState {
                view: screen::View::BlockViewer,
                transcript: Transcript {
                    viewed_entry: before.transcript.focused_entry,
                    ..before.transcript
                },
                scroll: Scroll { scroll_from_bottom: 0, ..before.scroll },
                ..before
            })
        } else {
            after == before
        },
        ActionId::ToggleMultiline => {
            &&& done
            &&& after == (AppState {
                composer: Composer {
                    multiline_mode: !before.composer.multiline_mode,
                    ..before.composer
                },
                status: after.status,
                ..before
            })
            &&& after.status@ == if after.composer.multiline_mode {
                "multiline input enabled"@
            } else {
                "multiline input disabled"@
            }
        },
        _ => !done && after == before,
    }
}

/// How long a first press of the escape key counts, in milliseconds.
pub const ESCAPE_WINDOW_MS: u64 = 800;

/// The escape key was pressed for the second time within the window.
pub open spec fn escape_confirmed(armed: Option<u64>, now: u64) -> bool {
    armed matches Some(at) && (now <= at || now - at <= ESCAPE_WINDOW_MS)
}

/// What the escape key does: the first press arms it, the second one empties
/// the composer or, if it is empty, offers the checkpoints. While a turn runs
/// it only disarms.
pub open spec fn escapes(before: AppState, after: AppState, now: u64, effect: Effect) -> bool {
    let calm = AppState {
        composer: Composer { escape_armed_at: None, ..before.composer },
        ..before
    };
    let armed = AppState {
        composer: Composer { escape_armed_at: Some(now), ..before.composer },
        ..before
    };
    if before.transcript.streaming {
        after == calm && effect == Effect::Nothing
    } else if !escape_confirmed(before.composer.escape_armed_at, now) {
        &&& effect == Effect::Nothing
        &&& if drafting(before) {
            dialogs::says(armed, after, "press Esc again to clear the draft"@)
        } else {
            after == armed
        }
    } else if drafting(before) {
        discards(calm, after) && effect == Effect::Nothing
    } else if before.transcript.entries@.len() > 0 {
        &&& after == (AppState { dialog: after.dialog, status: after.status, ..calm })
        &&& dialog::opened(after.dialog, OverlayKind::RewindPicker, 0, None)
        &&& after.status@ == "loading rewind checkpoints…"@
        &&& effect == Effect::Send(UiCommand::LoadRewinds)
    } else {
        after == calm && effect == Effect::Nothing
    }
}

/// A load from the clipboard was begun, unless one is running already.
pub open spec fn begins_load(
    before: AppState,
    after: AppState,
    now: u64,
    image: bool,
    effect: Effect,
) -> bool {
    if before.composer.image_processing_started_at is Some {
        &&& effect == Effect::Nothing
        &&& dialogs::says(
            before,
            after,
            if image {
                "image processing already in progress…"@
            } else {
                "clipboard processing already in progress…"@
            },
        )
    } else {
        &&& effect == if image {
            Effect::LoadImage
        } else {
            Effect::LoadClipboard
        }
        &&& after == (AppState {
            composer: Composer { image_processing_started_at: Some(now), ..before.composer },
            status: after.status,
            ..before
        })
        &&& after.status@ == if image {
            "processing image from clipboard…"@
        } else {
            "reading clipboard…"@
        }
    }
}

/// A key that ends a line rather than sending the draft.
pub open spec fn breaks_line(s: AppState, modified: bool, control: bool) -> bool {
    !control && s.composer.multiline_mode != modified
}

/// A draft that asks for the clipboard.
pub open spec fn asks_clipboard(prompt: Seq<char>) -> bool {
    text::trim(prompt) == "/paste"@ || text::trim(prompt) == "/paste-image"@
}

/// How a message is delivered: while a turn runs it steers it, or follows it.
pub open spec fn delivery_of(s: AppState, control: bool) -> Option<MessageDelivery> {
    if !s.transcript.streaming {
        None
    } else if control {
        Some(MessageDelivery::Steer)
    } else {
        Some(MessageDelivery::FollowUp)
    }
}

/// The draft was sent: as a shell command if it begins with an exclamation
/// mark, otherwise as a message.
pub open spec fn sends(before: AppState, after: AppState, control: bool, effect: Effect) -> bool {
    &&& state::composed(before, after)
    &&& if text::begins_with(text::trim_start(before.composer.prompt@), "!"@) {
        exists|r: Option<(String, bool)>| #[trigger]
            composer_state::command_taken(before.composer, after.composer, r) && effect
                == command_effect(r)
    } else {
        exists|r: Option<(String, Vec<MessageImage>)>| #[trigger]
            composer_state::message_taken(before.composer, after.composer, r) && effect
                == message_effect(r, delivery_of(before, control))
    }
}

/// What is left to do with a shell command.
pub open spec fn command_effect(r: Option<(String, bool)>) -> Effect {
    match r {
        Some((command, exclude_from_context)) => Effect::Send(
            UiCommand::ExecuteBash { command, exclude_from_context },
        ),
        None => Effect::Nothing,
    }
}

/// What is left to do with a message.
pub open spec fn message_effect(
    r: Option<(String, Vec<MessageImage>)>,
    delivery: Option<MessageDelivery>,
) -> Effect {
    match r {
        Some((text, images)) => Effect::Send(UiCommand::Submit { text, delivery, images }),
        None => Effect::Nothing,
    }
}

/// What the enter key does in the composer.
pub open spec fn enters(
    before: AppState,
    after: AppState,
    modified: bool,
    control: bool,
    now: u64,
    effect: Effect,
) -> bool {
    if breaks_line(before, modified, control) {
        &&& effect == Effect::Nothing
        &&& state::composed(before, after)
        &&& composer_state::edited(
            before.composer,
            after.composer,
            composer::typed(before.composer.draft(), seq!['\n']),
        )
    } else if asks_clipboard(before.composer.prompt@) {
        exists|between: AppState| #[trigger]
            slash::emptied(before, between) && begins_load(between, after, now, false, effect)
    } else if slash::resolved(before) is Some {
        exists|action: OverlayAction|
            slash::runs_command(before, after, Some(action)) && effect
                == #[trigger] dispatch::dispatched(action)
    } else {
        sends(before, after, control, effect)
    }
}

impl AppState {
    fn is_drafting(&self) -> (r: bool)
        ensures
            r == drafting(*self),
    {
        !self.composer.prompt.as_str().is_empty() || self.composer.image_attachments.len() > 0
    }

    /// The next permission mode, of which the backend is told.
    pub fn next_permission_mode(&mut self) -> (r: Effect)
        ensures
            cycles_mode(*old(self), *final(self), r),
            old(self).wf() ==> final(self).wf(),
    {
        self.cycle_permission_mode();
        Effect::Send(UiCommand::SetPermissionMode(self.permission_mode.wire_value().to_owned()))
    }

    /// Runs a registered action.
    pub fn dispatch_registered_action(&mut self, id: ActionId) -> (r: Effect)
        requires
            old(self).wf(),
        ensures
            registered(*old(self), *final(self), id, r),
            final(self).wf(),
    {
        match id {
            ActionId::CommandPalette => self.open_overlay(OverlayKind::CommandPalette),
            ActionId::ModelPicker => self.open_overlay(OverlayKind::ModelPicker),
            ActionId::SessionPicker => self.open_overlay(OverlayKind::SessionPicker),
            ActionId::Settings => self.open_overlay(OverlayKind::Settings),
            ActionId::ToggleTasks => {
                self.view = if self.view == screen::View::Tasks {
                    screen::View::Transcript
                } else {
                    screen::View::Tasks
                };
            },
            ActionId::ToggleQueue => {
                self.transcript.queue_visible = !self.transcript.queue_visible;
            },
            ActionId::CycleMode => {
                return self.next_permission_mode();
            },
            ActionId::CancelTurn => {
                if self.is_drafting() {
                    self.clear_prompt();
                } else if self.transcript.streaming {
                    return Effect::Send(UiCommand::AbortAndRestoreQueue);
                }
            },
            ActionId::Quit => {
                return Effect::Quit;
            },
            _ => {},
        }
        Effect::Nothing
    }

    /// Gives the transcript the focus.
    pub fn enter_transcript(&mut self)
        ensures
            enters_transcript(*old(self), *final(self)),
            old(self).wf() ==> final(self).wf(),
    {
        self.focus = Focus::Scrollback;
        self.transcript.enter_focus();
    }

    /// Moves the focus within the transcript.
    pub fn move_section_focus(&mut self, direction: isize)
        ensures
            steps_focus(*old(self), *final(self), direction as int),
            old(self).wf() ==> final(self).wf(),
    {
        self.transcript.move_focus(direction);
    }

    /// Activates the target that has the focus.
    pub fn activate_focus(&mut self)
        requires
            old(self).wf(),
        ensures
            activates_focus(*old(self), *final(self)),
            final(self).wf(),
    {
        if let Some(index) = self.transcript.focused_entry {
            let id: Option<String> = text::copy_option(&self.transcript.focused_target_id);
            self.activate_target(index, &id);
        }
    }

    /// Completes the word at the cursor, or else gives the transcript the
    /// focus.
    pub fn leave_prompt(&mut self)
        requires
            old(self).wf(),
        ensures
            leaves_prompt(*old(self), *final(self)),
            final(self).wf(),
    {
        if !self.complete_slash_command() {
            self.enter_transcript();
        }
    }

    fn toggle_multiline(&mut self)
        ensures
            pane_action(*old(self), *final(self), ActionId::ToggleMultiline, true),
            old(self).wf() ==> final(self).wf(),
    {
        self.composer.multiline_mode = !self.composer.multiline_mode;
        self.status = if self.composer.multiline_mode {
            "multiline input enabled".to_owned()
        } else {
            "multiline input disabled".to_owned()
        };
    }

    /// Runs an action that belongs to a pane. Whether the pane takes it.
    pub fn dispatch_pane_action(&mut self, id: ActionId) -> (r: bool)
        requires
            old(self).wf(),
        ensures
            pane_action(*old(self), *final(self), id, r),
            final(self).wf(),
    {
        match id {
            ActionId::ClearPrompt => {
                if !self.is_drafting() {
                    return false;
                }
                self.clear_prompt();
            },
            ActionId::FocusScrollback => self.leave_prompt(),
            ActionId::FocusPrompt => self.focus_prompt(),
            ActionId::ScrollUp => self.move_section_focus(-1),
            ActionId::ScrollDown => self.move_section_focus(1),
            ActionId::ToggleFold => self.activate_focus(),
            ActionId::OpenBlockViewer => {
                if self.transcript.focused_entry.is_some() {
                    self.transcript.viewed_entry = self.transcript.focused_entry;
                    self.view = screen::View::BlockViewer;
                    self.scroll.scroll_from_bottom = 0;
                }
            },
            ActionId::ToggleMultiline => self.toggle_multiline(),
            _ => {
                return false;
            },
        }
        true
    }

    /// Handles the escape key.
    pub fn handle_agent_escape(&mut self, now: u64) -> (r: Effect)
        requires
            old(self).wf(),
        ensures
            escapes(*old(self), *final(self), now, r),
            final(self).wf(),
    {
        if self.transcript.streaming {
            self.composer.escape_armed_at = None;
            return Effect::Nothing;
        }
        let confirmed: bool = match self.composer.escape_armed_at {
            Some(at) => now <= at || now - at <= ESCAPE_WINDOW_MS,
            None => false,
        };
        if !confirmed {
            self.composer.escape_armed_at = Some(now);
            if self.is_drafting() {
                self.status = "press Esc again to clear the draft".to_owned();
            }
            return Effect::Nothing;
        }
        self.composer.escape_armed_at = None;
        if self.is_drafting() {
            self.clear_prompt();
            Effect::Nothing
        } else if self.transcript.entries.len() > 0 {
            self.open_overlay(OverlayKind::RewindPicker);
            self.status = "loading rewind checkpoints…".to_owned();
            Effect::Send(UiCommand::LoadRewinds)
        } else {
            Effect::Nothing
        }
    }

    /// Begins a load from the clipboard.
    pub fn begin_clipboard_load(&mut self, now: u64, image: bool) -> (r: Effect)
        ensures
            begins_load(*old(self), *final(self), now, image, r),
            old(self).wf() ==> final(self).wf(),
    {
        if self.composer.image_processing_started_at.is_some() {
            self.status = if image {
                "image processing already in progress…".to_owned()
            } else {
                "clipboard processing already in progress…".to_owned()
            };
            return Effect::Nothing;
        }
        self.composer.image_processing_started_at = Some(now);
        if image {
            self.status = "processing image from clipboard…".to_owned();
            Effect::LoadImage
        } else {
            self.status = "reading clipboard…".to_owned();
            Effect::LoadClipboard
        }
    }

    fn send_draft(&mut self, control: bool) -> (r: Effect)
        requires
            old(self).wf(),
        ensures
            sends(*old(self), *final(self), control, r),
            final(self).wf(),
    {
        let delivery: Option<MessageDelivery> = if !self.transcript.streaming {
            None
        } else if control {
            Some(MessageDelivery::Steer)
        } else {
            Some(MessageDelivery::FollowUp)
        };
        let shell: bool = text::starts_with(
            text::trimmed_start(self.composer.prompt.as_str()).as_str(),
            "!",
        );
        if shell {
            let taken: Option<(String, bool)> = self.submit_bash();
            let ghost told = taken;
            assert(composer_state::command_taken(old(self).composer, self.composer, told));
            match taken {
                Some((command, exclude_from_context)) => Effect::Send(
                    UiCommand::ExecuteBash { command, exclude_from_context },
                ),
                None => Effect::Nothing,
            }
        } else {
            let taken: Option<(String, Vec<MessageImage>)> = self.submit_message();
            let ghost told = taken;
            assert(composer_state::message_taken(old(self).composer, self.composer, told));
            match taken {
                Some((text, images)) => Effect::Send(UiCommand::Submit { text, delivery, images }),
                None => Effect::Nothing,
            }
        }
    }

    fn run_slash_command(&mut self) -> (r: Option<Effect>)
        requires
            old(self).wf(),
        ensures
            match r {
                Some(effect) => slash::resolved(*old(self)) is Some && exists|action: OverlayAction|
                    slash::runs_command(*old(self), *final(self), Some(action)) && effect
                        == #[trigger] dispatch::dispatched(action),
                None => slash::resolved(*old(self)) is None && *final(self) == *old(self),
            },
            final(self).wf(),
    {
        match self.activate_slash_command() {
            Some(action) => {
                let ghost told = action;
                let effect: Effect = dispatch::dispatch_overlay_action(action);
                assert(slash::runs_command(*old(self), *self, Some(told)));
                assert(effect == dispatch::dispatched(told));
                Some(effect)
            },
            None => None,
        }
    }

    /// Handles the enter key in the composer.
    pub fn press_enter(&mut self, modified: bool, control: bool, now: u64) -> (r: Effect)
        requires
            old(self).wf(),
        ensures
            enters(*old(self), *final(self), modified, control, now, r),
            final(self).wf(),
    {
        if !control && self.composer.multiline_mode != modified {
            self.insert_char('\n');
            return Effect::Nothing;
        }
        let shown: String = text::trimmed(self.composer.prompt.as_str());
        if text::same_text(shown.as_str(), "/paste") || text::same_text(
            shown.as_str(),
            "/paste-image",
        ) {
            self.clear_prompt_text();
            let ghost between = *self;
            assert(slash::emptied(*old(self), between));
            return self.begin_clipboard_load(now, false);
        }
        match self.run_slash_command() {
            Some(effect) => effect,
            None => self.send_draft(control),
        }
    }
}

/// Two presses of the escape key within the window empty the draft, and send nothing.
pub proof fn two_escapes_clear_the_draft(
    before: AppState,
    between: AppState,
    after: AppState,
    first: u64,
    second: u64,
    sent_first: Effect,
    sent_second: Effect,
)
    requires
        !before.transcript.streaming,
        drafting(before),
        !escape_confirmed(before.composer.escape_armed_at, first),
        escapes(before, between, first, sent_first),
        escapes(between, after, second, sent_second),
        second <= first + ESCAPE_WINDOW_MS,
    ensures
        between.composer.prompt == before.composer.prompt,
        !drafting(after),
        sent_first is Nothing,
        sent_second is Nothing,
{
}

/// A second press that comes too late leaves the draft alone.
pub proof fn late_escapes_keep_the_draft(
    before: AppState,
    between: AppState,
    after: AppState,
    first: u64,
    second: u64,
    sent_first: Effect,
    sent_second: Effect,
)
    requires
        !before.transcript.streaming,
        drafting(before),
        !escape_confirmed(before.composer.escape_armed_at, first),
        escapes(before, between, first, sent_first),
        escapes(between, after, second, sent_second),
        second > first + ESCAPE_WINDOW_MS,
    ensures
        after.composer.prompt == before.composer.prompt,
        after.composer.image_attachments == before.composer.image_attachments,
        sent_second is Nothing,
{
}

} // verus!
