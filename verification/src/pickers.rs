//! What choosing a row of a dialog does.

use vstd::prelude::*;

use crate::actions;
use crate::actions::ActionDefinition;
use crate::actions::ActionId;
use crate::choices;
use crate::composer;
use crate::composer_state;
use crate::composer_state::Composer;
use crate::dialog;
use crate::dialogs;
use crate::harness::PermissionDecision;
use crate::harness::RuntimeSettings;
use crate::harness::WorkflowCatalogEntry;
use crate::offers::Offers;
use crate::paste_editor::PasteEditor;
use crate::screen;
use crate::sessions::SessionList;
use crate::slash;
use crate::slash::Suggestion;
use crate::state::AppState;
use crate::state_types::OverlayAction;
use crate::state_types::OverlayKind;
use crate::state_types::SettingValue;
use crate::text;
use crate::transcript::Transcript;
use crate::tree::SessionTree;

verus! {

broadcast use vstd::string::group_string_axioms;

/// The place of the selected row, `None` if there is no such row.
pub open spec fn selects(s: AppState, place: Option<usize>) -> bool {
    exists|places: Seq<usize>| #[trigger]
        choices::lists_places(s, places) && place == (if s.dialog.overlay_selected
            < places.len() {
            Some(places[s.dialog.overlay_selected as int])
        } else {
            None
        })
}

/// Nothing was chosen.
pub open spec fn ignored(before: AppState, after: AppState, action: OverlayAction) -> bool {
    after == before && action == OverlayAction::Nothing
}

/// The draft was replaced and the dialog closed.
pub open spec fn drafts(before: AppState, after: AppState, prompt: Seq<char>) -> bool {
    &&& after == (AppState {
        dialog: after.dialog,
        editor: PasteEditor { editing_paste: None, ..before.editor },
        composer: after.composer,
        ..before
    })
    &&& dialog::closed_to(before.dialog, after.dialog)
    &&& composer_state::edited(
        Composer { viewed_image_id: None, ..before.composer },
        after.composer,
        composer_state::plain_draft(prompt),
    )
}

/// An action of the palette was chosen: it opens its dialog, or the palette is
/// closed and it runs.
pub open spec fn runs_action(
    before: AppState,
    after: AppState,
    id: ActionId,
    action: OverlayAction,
) -> bool {
    match id {
        ActionId::CommandPalette => dialogs::opens(before, after, OverlayKind::CommandPalette)
            && action == OverlayAction::Nothing,
        ActionId::ModelPicker => dialogs::opens(before, after, OverlayKind::ModelPicker) && action
            == OverlayAction::Nothing,
        ActionId::SessionPicker => dialogs::opens(before, after, OverlayKind::SessionPicker)
            && action == OverlayAction::Nothing,
        ActionId::Settings => dialogs::opens(before, after, OverlayKind::Settings) && action
            == OverlayAction::Nothing,
        ActionId::ToggleTasks => dialogs::closes(
            AppState { view: other_pane(before.view), ..before },
            after,
        ) && action == OverlayAction::Nothing,
        ActionId::ToggleQueue => dialogs::closes(
            AppState {
                transcript: Transcript {
                    queue_visible: !before.transcript.queue_visible,
                    ..before.transcript
                },
                ..before
            },
            after,
        ) && action == OverlayAction::Nothing,
        ActionId::CycleMode => {
            &&& dialogs::closes(
                AppState { permission_mode: before.permission_mode.following(), ..before },
                after,
            )
            &&& action matches OverlayAction::SetPermissionMode(mode)
            &&& mode@ == before.permission_mode.following().wire()
        },
        ActionId::Quit => dialogs::closes(before, after) && action == OverlayAction::Quit,
        _ => dialogs::closes(before, after) && action == OverlayAction::Nothing,
    }
}

/// The list of tasks and the transcript take turns.
pub open spec fn other_pane(view: screen::View) -> screen::View {
    if view == screen::View::Tasks {
        screen::View::Transcript
    } else {
        screen::View::Tasks
    }
}

/// The other way to deliver queued messages.
pub open spec fn other_delivery(mode: Seq<char>) -> Seq<char> {
    if mode == "one-at-a-time"@ {
        "all"@
    } else {
        "one-at-a-time"@
    }
}

/// The trust for projects that follows another one.
pub open spec fn next_trust(trust: Seq<char>) -> Seq<char> {
    if trust == "ask"@ {
        "always"@
    } else if trust == "always"@ {
        "never"@
    } else {
        "ask"@
    }
}

/// A setting was changed, and nothing else.
pub open spec fn sets(
    before: AppState,
    after: AppState,
    key: Seq<char>,
    value: SettingValue,
    action: OverlayAction,
) -> bool {
    &&& after == (AppState {
        offers: Offers { runtime_settings: after.offers.runtime_settings, ..before.offers },
        ..before
    })
    &&& action matches OverlayAction::SetRuntimeSetting { key: k, value: v }
    &&& k@ == key
    &&& same_value(v, value)
}

/// Two values of a setting say the same.
pub open spec fn same_value(a: SettingValue, b: SettingValue) -> bool {
    match (a, b) {
        (SettingValue::Text(x), SettingValue::Text(y)) => x@ == y@,
        (SettingValue::Flag(x), SettingValue::Flag(y)) => x == y,
        (SettingValue::Null, SettingValue::Null) => true,
        _ => false,
    }
}

/// A dialog was opened over the settings.
pub open spec fn opens_over(before: AppState, after: AppState, kind: OverlayKind) -> bool {
    &&& after == (AppState { dialog: after.dialog, ..before })
    &&& dialog::opened(
        after.dialog,
        kind,
        0,
        Some((before.dialog.overlay, before.dialog.overlay_selected)),
    )
}

/// A setting was chosen: it takes its next value, or its dialog opens.
pub open spec fn setting_chosen(
    before: AppState,
    after: AppState,
    place: int,
    action: OverlayAction,
) -> bool {
    let old = before.offers.runtime_settings;
    let new = after.offers.runtime_settings;
    if place == 0 {
        &&& sets(before, after, "steering_mode"@, SettingValue::Text(new.steering_mode), action)
        &&& new == (RuntimeSettings { steering_mode: new.steering_mode, ..old })
        &&& new.steering_mode@ == other_delivery(old.steering_mode@)
    } else if place == 1 {
        &&& sets(before, after, "follow_up_mode"@, SettingValue::Text(new.follow_up_mode), action)
        &&& new == (RuntimeSettings { follow_up_mode: new.follow_up_mode, ..old })
        &&& new.follow_up_mode@ == other_delivery(old.follow_up_mode@)
    } else if place == 2 {
        &&& sets(before, after, "auto_compaction"@, SettingValue::Flag(!old.auto_compaction), action)
        &&& new == (RuntimeSettings { auto_compaction: !old.auto_compaction, ..old })
    } else if place == 3 {
        &&& sets(
            before,
            after,
            "default_project_trust"@,
            SettingValue::Text(new.default_project_trust),
            action,
        )
        &&& new == (RuntimeSettings { default_project_trust: new.default_project_trust, ..old })
        &&& new.default_project_trust@ == next_trust(old.default_project_trust@)
    } else if place == 4 {
        after == before && action == OverlayAction::SetProjectTrust(!old.project_trusted)
    } else if place == 5 {
        opens_over(before, after, OverlayKind::Extensions) && action == OverlayAction::Nothing
    } else if place == 6 {
        opens_over(before, after, OverlayKind::ScopedModels) && action == OverlayAction::Nothing
    } else if place == 7 {
        opens_over(before, after, OverlayKind::SubagentModelPicker) && action
            == OverlayAction::Nothing
    } else {
        &&& after == (AppState { theme_mode: before.theme_mode.other(), ..before })
        &&& action == OverlayAction::SetTheme(before.theme_mode.other())
    }
}

/// The answer at a place of the permission dialog.
pub open spec fn decision_at(place: int) -> PermissionDecision {
    if place == 0 {
        PermissionDecision::AllowOnce
    } else if place == 1 {
        PermissionDecision::AllowAlways
    } else {
        PermissionDecision::Deny
    }
}

/// A text, `None` if there is nothing in it.
pub open spec fn unless_blank(s: Seq<char>) -> Option<Seq<char>> {
    if text::trim(s).len() == 0 {
        None
    } else {
        Some(text::trim(s))
    }
}

/// An optional text says the same as another one.
pub open spec fn says_option(o: Option<String>, s: Option<Seq<char>>) -> bool {
    match (o, s) {
        (Some(x), Some(y)) => x@ == y,
        (None, None) => true,
        _ => false,
    }
}

/// A dialog that answers what is typed into it was confirmed.
pub open spec fn confirmed(before: AppState, after: AppState, action: OverlayAction) -> bool {
    let query = before.dialog.overlay_query@;
    match before.dialog.overlay {
        OverlayKind::SessionRename => {
            &&& dialogs::closes(
                AppState {
                    sessions: SessionList { pending_session_path: None, ..before.sessions },
                    ..before
                },
                after,
            )
            &&& match (before.sessions.pending_session_path, unless_blank(query)) {
                (Some(path), Some(name)) => action matches OverlayAction::RenameSession {
                    target,
                    name: given,
                } && target@ == path@ && given@ == name,
                _ => action == OverlayAction::Nothing,
            }
        },
        OverlayKind::SessionDeleteConfirm => {
            &&& dialogs::closes(
                AppState {
                    sessions: SessionList { pending_session_path: None, ..before.sessions },
                    ..before
                },
                after,
            )
            &&& match before.sessions.pending_session_path {
                Some(path) => action matches OverlayAction::DeleteSession { target } && target@
                    == path@,
                None => action == OverlayAction::Nothing,
            }
        },
        OverlayKind::TreeSummaryEditor => {
            &&& dialogs::closes(before, after)
            &&& match before.tree.tree_target {
                Some(id) => action matches OverlayAction::NavigateTree {
                    entry_id,
                    summarize,
                    instructions,
                } && entry_id@ == id@ && summarize && says_option(
                    instructions,
                    unless_blank(query),
                ),
                None => action == OverlayAction::Nothing,
            }
        },
        OverlayKind::LabelEditor => {
            &&& dialogs::closes(before, after)
            &&& match before.tree.tree_target {
                Some(id) => action matches OverlayAction::SetLabel { entry_id, label } && entry_id@
                    == id@ && says_option(label, unless_blank(query)),
                None => action == OverlayAction::Nothing,
            }
        },
        OverlayKind::OauthPrompt => {
            &&& dialogs::closes(AppState { pending_oauth: None, ..before }, after)
            &&& match before.pending_oauth {
                Some(request) => action matches OverlayAction::OauthReply { id, value } && id@
                    == request.id@ && says_option(value, Some(query)),
                None => action == OverlayAction::Nothing,
            }
        },
        OverlayKind::PasteEditor => {
            &&& action == OverlayAction::Nothing
            &&& after == (AppState {
                dialog: after.dialog,
                editor: PasteEditor { editing_paste: None, ..before.editor },
                composer: after.composer,
                ..before
            })
            &&& dialog::closed_to(before.dialog, after.dialog)
            &&& match before.editor.editing_paste {
                Some(id) => exists|found: bool| #[trigger]
                    composer_state::block_rewritten(
                        Composer { viewed_image_id: None, ..before.composer },
                        after.composer,
                        id,
                        query,
                        found,
                    ),
                None => after.composer == (Composer { viewed_image_id: None, ..before.composer }),
            }
        },
        OverlayKind::ScopedModels => {
            &&& dialogs::closes(before, after)
            &&& action matches OverlayAction::SetScopedModels(models)
            &&& text::views(models@) == text::views(before.offers.runtime_settings.enabled_models@)
        },
        OverlayKind::ImageViewer => dialogs::closes(before, after) && action
            == OverlayAction::Nothing,
        _ => false,
    }
}

/// A dialog that does not depend on which row is selected.
pub open spec fn answers_text(kind: OverlayKind) -> bool {
    match kind {
        OverlayKind::SessionRename => true,
        OverlayKind::SessionDeleteConfirm => true,
        OverlayKind::TreeSummaryEditor => true,
        OverlayKind::LabelEditor => true,
        OverlayKind::OauthPrompt => true,
        OverlayKind::PasteEditor => true,
        OverlayKind::ScopedModels => true,
        OverlayKind::ImageViewer => true,
        _ => false,
    }
}

/// A workflow of the catalog was chosen: one that can be run is previewed, of
/// another one the fault is shown.
pub open spec fn workflow_chosen(
    before: AppState,
    after: AppState,
    w: WorkflowCatalogEntry,
    action: OverlayAction,
) -> bool {
    if w.valid {
        &&& dialogs::closes(before, after)
        &&& action matches OverlayAction::PreviewWorkflow { workflow }
        &&& workflow@ == w.name@
    } else {
        &&& dialogs::says(
            before,
            after,
            match w.error {
                Some(error) => error@,
                None => "workflow is invalid"@,
            },
        )
        &&& action == OverlayAction::Nothing
    }
}

/// A row was chosen.
pub open spec fn chosen(
    before: AppState,
    place: int,
    after: AppState,
    action: OverlayAction,
) -> bool {
    match before.dialog.overlay {
        OverlayKind::CommandPalette => {
            let actions = actions::table();
            if place < actions.len() {
                runs_action(before, after, actions[place].id, action)
            } else {
                &&& drafts(
                    before,
                    after,
                    slash::all_offers(before.offers.runtime_commands@)[place - actions.len()].0
                        + " "@,
                )
                &&& action == OverlayAction::Nothing
            }
        },
        OverlayKind::ModelPicker => {
            let model = before.offers.available_models@[place];
            &&& dialogs::closes(AppState { model: after.model, ..before }, after)
            &&& after.model@ == model.display_name@
            &&& action matches OverlayAction::SetModel { id }
            &&& id@ == model.id@
        },
        OverlayKind::SubagentModelPicker => {
            let models = before.offers.available_models@;
            let settings = before.offers.runtime_settings;
            &&& dialogs::closes(
                AppState {
                    offers: Offers {
                        runtime_settings: RuntimeSettings {
                            subagent_model: after.offers.runtime_settings.subagent_model,
                            ..settings
                        },
                        ..before.offers
                    },
                    ..before
                },
                after,
            )
            &&& action matches OverlayAction::SetRuntimeSetting { key, value }
            &&& key@ == "subagent_model"@
            &&& if place < models.len() {
                &&& value matches SettingValue::Text(id)
                &&& id@ == models[place].id@
                &&& after.offers.runtime_settings.subagent_model matches Some(model)
                &&& model@ == models[place].id@
            } else {
                value == SettingValue::Null
                    && after.offers.runtime_settings.subagent_model is None
            }
        },
        OverlayKind::SessionPicker => {
            &&& dialogs::closes(
                AppState {
                    view: screen::View::Transcript,
                    sessions: SessionList {
                        available_sessions: after.sessions.available_sessions,
                        ..before.sessions
                    },
                    ..before
                },
                after,
            )
            &&& after.sessions.available_sessions@ == SessionList::made_current(
                before.sessions.available_sessions@,
                place,
            )
            &&& action matches OverlayAction::ResumeSession { target }
            &&& target@ == before.sessions.available_sessions@[place].path@
        },
        OverlayKind::TreePicker => {
            &&& dialogs::opens(
                AppState {
                    tree: SessionTree { tree_target: after.tree.tree_target, ..before.tree },
                    ..before
                },
                after,
                OverlayKind::TreeSummaryPicker,
            )
            &&& after.tree.tree_target matches Some(id)
            &&& id@ == before.tree.session_tree@[place].id@
            &&& action == OverlayAction::Nothing
        },
        OverlayKind::ForkPicker => {
            &&& dialogs::closes(before, after)
            &&& action matches OverlayAction::ForkSession { entry_id }
            &&& entry_id@ == before.tree.session_tree@[place].id@
        },
        OverlayKind::TreeSummaryPicker => match before.tree.tree_target {
            None => dialogs::closes(before, after) && action == OverlayAction::Nothing,
            Some(id) => if place == 2 {
                dialogs::opens(before, after, OverlayKind::TreeSummaryEditor) && action
                    == OverlayAction::Nothing
            } else {
                &&& dialogs::closes(before, after)
                &&& action matches OverlayAction::NavigateTree { entry_id, summarize, instructions }
                &&& entry_id@ == id@
                &&& summarize == (place == 1)
                &&& instructions is None
            },
        },
        OverlayKind::FilePicker => {
            &&& after == (AppState {
                dialog: after.dialog,
                editor: PasteEditor { editing_paste: None, ..before.editor },
                composer: after.composer,
                ..before
            })
            &&& dialog::closed_to(before.dialog, after.dialog)
            &&& composer_state::edited(
                Composer { viewed_image_id: None, ..before.composer },
                after.composer,
                composer::typed(
                    before.composer.draft(),
                    before.offers.available_files@[place]@ + " "@,
                ),
            )
            &&& action == OverlayAction::Nothing
        },
        OverlayKind::OauthSelect => {
            &&& dialogs::closes(AppState { pending_oauth: None, ..before }, after)
            &&& match before.pending_oauth {
                Some(request) => if place < request.option_ids@.len() {
                    action matches OverlayAction::OauthReply { id, value } && id@ == request.id@
                        && says_option(value, Some(request.option_ids@[place]@))
                } else {
                    action == OverlayAction::Nothing
                },
                None => action == OverlayAction::Nothing,
            }
        },
        OverlayKind::LoginProvider => {
            &&& dialogs::closes(before, after)
            &&& action matches OverlayAction::BeginOauth(id)
            &&& id@ == before.offers.available_auth_providers@[place].id@
        },
        OverlayKind::ThinkingPicker => {
            &&& dialogs::closes(before, after)
            &&& action matches OverlayAction::SetThinking(level)
            &&& level@ == choices::thinking_levels()[place]
        },
        OverlayKind::RewindPicker => {
            &&& dialogs::closes(before, after)
            &&& action matches OverlayAction::RewindFile(id)
            &&& id@ == before.offers.rewind_checkpoints@[place].id@
        },
        OverlayKind::Settings => setting_chosen(before, after, place, action),
        OverlayKind::Extensions => {
            let extension = before.offers.runtime_extensions@[place];
            &&& after == before
            &&& action matches OverlayAction::SetExtensionEnabled { path, enabled }
            &&& path@ == extension.path@
            &&& enabled == !extension.enabled
        },
        OverlayKind::Permission => {
            &&& dialogs::closes(AppState { pending_permission: None, ..before }, after)
            &&& match before.pending_permission {
                Some(request) => action matches OverlayAction::Permission {
                    request_id,
                    decision,
                } && request_id@ == request.id@ && decision == decision_at(place),
                None => action == OverlayAction::Nothing,
            }
        },
        OverlayKind::WorkflowPicker => workflow_chosen(
            before,
            after,
            before.boards.workflow_catalog@[place],
            action,
        ),
        OverlayKind::WorkflowPreview => {
            &&& action == OverlayAction::Nothing
            &&& match before.boards.workflow_preview {
                None => dialogs::closes(before, after),
                Some(preview) => if preview.readiness@ == "blocked"@ {
                    dialogs::says(before, after, "workflow readiness is blocked"@)
                } else {
                    drafts(before, after, "/workflow "@ + preview.name@ + " "@)
                },
            }
        },
        _ => ignored(before, after, action),
    }
}

/// The open dialog was confirmed.
pub open spec fn activates(before: AppState, after: AppState, action: OverlayAction) -> bool {
    if answers_text(before.dialog.overlay) {
        confirmed(before, after, action)
    } else {
        exists|place: Option<usize>| #[trigger]
            selects(before, place) && match place {
                Some(at) => chosen(before, at as int, after, action),
                None => ignored(before, after, action),
            }
    }
}

/// A text, `None` if there is nothing in it.
fn not_blank(s: &str) -> (r: Option<String>)
    ensures
        says_option(r, unless_blank(s@)),
{
    let shown: String = text::trimmed(s);
    if shown.as_str().is_empty() {
        None
    } else {
        Some(shown)
    }
}

impl AppState {
    /// The place of the selected row, `None` if there is no such row.
    pub fn selected_place(&self) -> (r: Option<usize>)
        ensures
            selects(*self, r),
            r matches Some(place) ==> choices::place_exists(*self, place as int),
    {
        let places: Vec<usize> = self.overlay_places();
        assert(choices::lists_places(*self, places@));
        if self.dialog.overlay_selected < places.len() {
            Some(places[self.dialog.overlay_selected])
        } else {
            None
        }
    }

    fn run_palette_action(&mut self, id: ActionId) -> (r: OverlayAction)
        requires
            old(self).wf(),
        ensures
            runs_action(*old(self), *final(self), id, r),
            final(self).wf(),
    {
        match id {
            ActionId::CommandPalette => {
                self.open_overlay(OverlayKind::CommandPalette);
                OverlayAction::Nothing
            },
            ActionId::ModelPicker => {
                self.open_overlay(OverlayKind::ModelPicker);
                OverlayAction::Nothing
            },
            ActionId::SessionPicker => {
                self.open_overlay(OverlayKind::SessionPicker);
                OverlayAction::Nothing
            },
            ActionId::Settings => {
                self.open_overlay(OverlayKind::Settings);
                OverlayAction::Nothing
            },
            ActionId::ToggleTasks => {
                self.view = if self.view == screen::View::Tasks {
                    screen::View::Transcript
                } else {
                    screen::View::Tasks
                };
                self.close_overlay();
                OverlayAction::Nothing
            },
            ActionId::ToggleQueue => {
                self.transcript.queue_visible = !self.transcript.queue_visible;
                self.close_overlay();
                OverlayAction::Nothing
            },
            ActionId::CycleMode => {
                self.permission_mode = self.permission_mode.next();
                let mode: String = self.permission_mode.wire_value().to_owned();
                self.close_overlay();
                OverlayAction::SetPermissionMode(mode)
            },
            ActionId::Quit => {
                self.close_overlay();
                OverlayAction::Quit
            },
            _ => {
                self.close_overlay();
                OverlayAction::Nothing
            },
        }
    }

    /// Puts a text into the composer and closes the dialog.
    fn draft_and_close(&mut self, prompt: String)
        requires
            old(self).wf(),
        ensures
            drafts(*old(self), *final(self), prompt@),
            final(self).wf(),
    {
        self.close_overlay();
        let chars: Vec<char> = text::chars_of(prompt.as_str());
        let _length: usize = chars.len();
        self.composer.set_prompt(prompt);
    }

    fn choose_command(&mut self, place: usize) -> (r: OverlayAction)
        requires
            old(self).wf(),
            old(self).dialog.overlay == OverlayKind::CommandPalette,
            choices::place_exists(*old(self), place as int),
        ensures
            chosen(*old(self), place as int, *final(self), r),
            final(self).wf(),
    {
        let list: Vec<ActionDefinition> = actions::definitions();
        assert(list@.len() == actions::table().len());
        if place < list.len() {
            assert(actions::table()[place as int] == list@[place as int]@);
            self.run_palette_action(list[place].id)
        } else {
            let commands: Vec<Suggestion> = slash::list_commands(&self.offers.runtime_commands);
            let k: usize = place - list.len();
            assert(slash::offers_of(commands@)[k as int] == slash::offer(commands@[k as int]));
            let prompt: String = text::joined(commands[k].name.as_str(), " ");
            self.draft_and_close(prompt);
            OverlayAction::Nothing
        }
    }

    fn choose_subagent_model(&mut self, place: usize) -> (r: OverlayAction)
        requires
            old(self).wf(),
            old(self).dialog.overlay == OverlayKind::SubagentModelPicker,
        ensures
            chosen(*old(self), place as int, *final(self), r),
            final(self).wf(),
    {
        if place < self.offers.available_models.len() {
            let id: String = self.offers.available_models[place].id.clone();
            self.offers.runtime_settings.subagent_model = Some(id.clone());
            self.close_overlay();
            OverlayAction::SetRuntimeSetting {
                key: "subagent_model".to_owned(),
                value: SettingValue::Text(id),
            }
        } else {
            self.offers.runtime_settings.subagent_model = None;
            self.close_overlay();
            OverlayAction::SetRuntimeSetting {
                key: "subagent_model".to_owned(),
                value: SettingValue::Null,
            }
        }
    }

    fn choose_session(&mut self, place: usize) -> (r: OverlayAction)
        requires
            old(self).wf(),
            old(self).dialog.overlay == OverlayKind::SessionPicker,
            place < old(self).sessions.available_sessions@.len(),
        ensures
            chosen(*old(self), place as int, *final(self), r),
            final(self).wf(),
    {
        let target: String = self.sessions.available_sessions[place].path.clone();
        self.sessions.make_current(place);
        self.view = screen::View::Transcript;
        self.close_overlay();
        OverlayAction::ResumeSession { target }
    }

    fn choose_summary(&mut self, place: usize) -> (r: OverlayAction)
        requires
            old(self).wf(),
            old(self).dialog.overlay == OverlayKind::TreeSummaryPicker,
        ensures
            chosen(*old(self), place as int, *final(self), r),
            final(self).wf(),
    {
        match &self.tree.tree_target {
            None => {
                self.close_overlay();
                OverlayAction::Nothing
            },
            Some(id) => {
                if place == 2 {
                    self.open_overlay(OverlayKind::TreeSummaryEditor);
                    OverlayAction::Nothing
                } else {
                    let entry_id: String = id.clone();
                    self.close_overlay();
                    OverlayAction::NavigateTree {
                        entry_id,
                        summarize: place == 1,
                        instructions: None,
                    }
                }
            },
        }
    }

    fn choose_file(&mut self, place: usize) -> (r: OverlayAction)
        requires
            old(self).wf(),
            old(self).dialog.overlay == OverlayKind::FilePicker,
            place < old(self).offers.available_files@.len(),
        ensures
            chosen(*old(self), place as int, *final(self), r),
            final(self).wf(),
    {
        let reference: String = text::joined(self.offers.available_files[place].as_str(), " ");
        self.close_overlay();
        self.composer.type_text(reference.as_str());
        OverlayAction::Nothing
    }

    fn choose_oauth(&mut self, place: usize) -> (r: OverlayAction)
        requires
            old(self).wf(),
            old(self).dialog.overlay == OverlayKind::OauthSelect,
        ensures
            chosen(*old(self), place as int, *final(self), r),
            final(self).wf(),
    {
        let mut action: OverlayAction = OverlayAction::Nothing;
        if let Some(request) = &self.pending_oauth {
            if place < request.option_ids.len() {
                action = OverlayAction::OauthReply {
                    id: request.id.clone(),
                    value: Some(request.option_ids[place].clone()),
                };
            }
        }
        self.pending_oauth = None;
        self.close_overlay();
        action
    }

    fn other_mode(mode: &str) -> (r: String)
        ensures
            r@ == other_delivery(mode@),
    {
        if text::same_text(mode, "one-at-a-time") {
            "all".to_owned()
        } else {
            "one-at-a-time".to_owned()
        }
    }

    fn choose_setting(&mut self, place: usize) -> (r: OverlayAction)
        requires
            old(self).wf(),
        ensures
            setting_chosen(*old(self), *final(self), place as int, r),
            final(self).wf(),
    {
        if place == 0 {
            let mode: String = AppState::other_mode(
                self.offers.runtime_settings.steering_mode.as_str(),
            );
            self.offers.runtime_settings.steering_mode = mode.clone();
            OverlayAction::SetRuntimeSetting {
                key: "steering_mode".to_owned(),
                value: SettingValue::Text(mode),
            }
        } else if place == 1 {
            let mode: String = AppState::other_mode(
                self.offers.runtime_settings.follow_up_mode.as_str(),
            );
            self.offers.runtime_settings.follow_up_mode = mode.clone();
            OverlayAction::SetRuntimeSetting {
                key: "follow_up_mode".to_owned(),
                value: SettingValue::Text(mode),
            }
        } else if place == 2 {
            let flag: bool = !self.offers.runtime_settings.auto_compaction;
            self.offers.runtime_settings.auto_compaction = flag;
            OverlayAction::SetRuntimeSetting {
                key: "auto_compaction".to_owned(),
                value: SettingValue::Flag(flag),
            }
        } else if place == 3 {
            let trust: &str = self.offers.runtime_settings.default_project_trust.as_str();
            let next: &'static str = if text::same_text(trust, "ask") {
                "always"
            } else if text::same_text(trust, "always") {
                "never"
            } else {
                "ask"
            };
            self.offers.runtime_settings.default_project_trust = next.to_owned();
            OverlayAction::SetRuntimeSetting {
                key: "default_project_trust".to_owned(),
                value: SettingValue::Text(next.to_owned()),
            }
        } else if place == 4 {
            OverlayAction::SetProjectTrust(!self.offers.runtime_settings.project_trusted)
        } else if place == 5 {
            self.dialog.open_over(OverlayKind::Extensions);
            OverlayAction::Nothing
        } else if place == 6 {
            self.dialog.open_over(OverlayKind::ScopedModels);
            OverlayAction::Nothing
        } else if place == 7 {
            self.dialog.open_over(OverlayKind::SubagentModelPicker);
            OverlayAction::Nothing
        } else {
            self.theme_mode = self.theme_mode.toggled();
            OverlayAction::SetTheme(self.theme_mode)
        }
    }

    fn choose_permission(&mut self, place: usize) -> (r: OverlayAction)
        requires
            old(self).wf(),
            old(self).dialog.overlay == OverlayKind::Permission,
        ensures
            chosen(*old(self), place as int, *final(self), r),
            final(self).wf(),
    {
        let decision: PermissionDecision = if place == 0 {
            PermissionDecision::AllowOnce
        } else if place == 1 {
            PermissionDecision::AllowAlways
        } else {
            PermissionDecision::Deny
        };
        let action: OverlayAction = match &self.pending_permission {
            Some(request) => OverlayAction::Permission {
                request_id: request.id.clone(),
                decision,
            },
            None => OverlayAction::Nothing,
        };
        self.pending_permission = None;
        self.close_overlay();
        action
    }

    fn choose_workflow(&mut self, place: usize) -> (r: OverlayAction)
        requires
            old(self).wf(),
            old(self).dialog.overlay == OverlayKind::WorkflowPicker,
            place < old(self).boards.workflow_catalog@.len(),
        ensures
            chosen(*old(self), place as int, *final(self), r),
            final(self).wf(),
    {
        let w: &WorkflowCatalogEntry = &self.boards.workflow_catalog[place];
        if w.valid {
            let workflow: String = w.name.clone();
            self.close_overlay();
            OverlayAction::PreviewWorkflow { workflow }
        } else {
            self.status = match &w.error {
                Some(error) => error.clone(),
                None => "workflow is invalid".to_owned(),
            };
            OverlayAction::Nothing
        }
    }

    fn choose_preview(&mut self) -> (r: OverlayAction)
        requires
            old(self).wf(),
            old(self).dialog.overlay == OverlayKind::WorkflowPreview,
        ensures
            chosen(*old(self), 0, *final(self), r),
            forall|place: int| chosen(*old(self), place, *final(self), r),
            final(self).wf(),
    {
        match &self.boards.workflow_preview {
            None => {
                self.close_overlay();
            },
            Some(preview) => {
                if text::same_text(preview.readiness.as_str(), "blocked") {
                    self.status = "workflow readiness is blocked".to_owned();
                } else {
                    let prompt: String = text::joined3("/workflow ", preview.name.as_str(), " ");
                    self.draft_and_close(prompt);
                }
            },
        }
        OverlayAction::Nothing
    }
}

impl AppState {
    fn confirm_session(&mut self, delete: bool) -> (r: OverlayAction)
        requires
            old(self).wf(),
            delete ==> old(self).dialog.overlay == OverlayKind::SessionDeleteConfirm,
            !delete ==> old(self).dialog.overlay == OverlayKind::SessionRename,
        ensures
            confirmed(*old(self), *final(self), r),
            final(self).wf(),
    {
        let mut action: OverlayAction = OverlayAction::Nothing;
        if let Some(path) = &self.sessions.pending_session_path {
            if delete {
                action = OverlayAction::DeleteSession { target: path.clone() };
            } else {
                if let Some(name) = not_blank(self.dialog.overlay_query.as_str()) {
                    action = OverlayAction::RenameSession { target: path.clone(), name };
                }
            }
        }
        self.sessions.pending_session_path = None;
        self.close_overlay();
        action
    }

    fn confirm_entry(&mut self, label: bool) -> (r: OverlayAction)
        requires
            old(self).wf(),
            label ==> old(self).dialog.overlay == OverlayKind::LabelEditor,
            !label ==> old(self).dialog.overlay == OverlayKind::TreeSummaryEditor,
        ensures
            confirmed(*old(self), *final(self), r),
            final(self).wf(),
    {
        let mut action: OverlayAction = OverlayAction::Nothing;
        if let Some(id) = &self.tree.tree_target {
            let words: Option<String> = not_blank(self.dialog.overlay_query.as_str());
            action = if label {
                OverlayAction::SetLabel { entry_id: id.clone(), label: words }
            } else {
                OverlayAction::NavigateTree {
                    entry_id: id.clone(),
                    summarize: true,
                    instructions: words,
                }
            };
        }
        self.close_overlay();
        action
    }

    fn confirm_reply(&mut self) -> (r: OverlayAction)
        requires
            old(self).wf(),
            old(self).dialog.overlay == OverlayKind::OauthPrompt,
        ensures
            confirmed(*old(self), *final(self), r),
            final(self).wf(),
    {
        let action: OverlayAction = match &self.pending_oauth {
            Some(request) => OverlayAction::OauthReply {
                id: request.id.clone(),
                value: Some(self.dialog.overlay_query.clone()),
            },
            None => OverlayAction::Nothing,
        };
        self.pending_oauth = None;
        self.close_overlay();
        action
    }

    fn confirm_paste(&mut self) -> (r: OverlayAction)
        requires
            old(self).wf(),
            old(self).dialog.overlay == OverlayKind::PasteEditor,
        ensures
            confirmed(*old(self), *final(self), r),
            final(self).wf(),
    {
        let edited: Option<u64> = self.editor.editing_paste;
        let content: String = self.dialog.overlay_query.clone();
        self.close_overlay();
        let ghost closed = self.composer;
        if let Some(id) = edited {
            let found: bool = self.composer.replace_paste(id, content);
            assert(composer_state::block_rewritten(closed, self.composer, id, content@, found));
        }
        OverlayAction::Nothing
    }

    fn confirm_text(&mut self) -> (r: OverlayAction)
        requires
            old(self).wf(),
            answers_text(old(self).dialog.overlay),
        ensures
            confirmed(*old(self), *final(self), r),
            final(self).wf(),
    {
        match self.dialog.overlay {
            OverlayKind::SessionRename => self.confirm_session(false),
            OverlayKind::SessionDeleteConfirm => self.confirm_session(true),
            OverlayKind::TreeSummaryEditor => self.confirm_entry(false),
            OverlayKind::LabelEditor => self.confirm_entry(true),
            OverlayKind::OauthPrompt => self.confirm_reply(),
            OverlayKind::PasteEditor => self.confirm_paste(),
            OverlayKind::ScopedModels => {
                let models: Vec<String> = text::copy_strings(
                    &self.offers.runtime_settings.enabled_models,
                );
                self.close_overlay();
                OverlayAction::SetScopedModels(models)
            },
            _ => {
                self.close_overlay();
                OverlayAction::Nothing
            },
        }
    }

    fn choose_other(&mut self, place: usize) -> (r: OverlayAction)
        requires
            old(self).wf(),
            choices::place_exists(*old(self), place as int),
            match old(self).dialog.overlay {
                OverlayKind::ModelPicker => true,
                OverlayKind::TreePicker => true,
                OverlayKind::ForkPicker => true,
                OverlayKind::LoginProvider => true,
                OverlayKind::ThinkingPicker => true,
                OverlayKind::RewindPicker => true,
                OverlayKind::Extensions => true,
                _ => false,
            },
        ensures
            chosen(*old(self), place as int, *final(self), r),
            final(self).wf(),
    {
        match self.dialog.overlay {
            OverlayKind::ModelPicker => {
                let id: String = self.offers.available_models[place].id.clone();
                self.model = self.offers.available_models[place].display_name.clone();
                self.close_overlay();
                OverlayAction::SetModel { id }
            },
            OverlayKind::TreePicker => {
                self.tree.tree_target = Some(self.tree.session_tree[place].id.clone());
                self.open_overlay(OverlayKind::TreeSummaryPicker);
                OverlayAction::Nothing
            },
            OverlayKind::ForkPicker => {
                let entry_id: String = self.tree.session_tree[place].id.clone();
                self.close_overlay();
                OverlayAction::ForkSession { entry_id }
            },
            OverlayKind::LoginProvider => {
                let id: String = self.offers.available_auth_providers[place].id.clone();
                self.close_overlay();
                OverlayAction::BeginOauth(id)
            },
            OverlayKind::ThinkingPicker => {
                let level: String = self.overlay_text(place);
                self.close_overlay();
                OverlayAction::SetThinking(level)
            },
            OverlayKind::RewindPicker => {
                let id: String = self.offers.rewind_checkpoints[place].id.clone();
                self.close_overlay();
                OverlayAction::RewindFile(id)
            },
            _ => {
                let path: String = self.offers.runtime_extensions[place].path.clone();
                let enabled: bool = !self.offers.runtime_extensions[place].enabled;
                OverlayAction::SetExtensionEnabled { path, enabled }
            },
        }
    }

    fn choose_row(&mut self, place: usize) -> (r: OverlayAction)
        requires
            old(self).wf(),
            choices::place_exists(*old(self), place as int),
            !answers_text(old(self).dialog.overlay),
        ensures
            chosen(*old(self), place as int, *final(self), r),
            final(self).wf(),
    {
        match self.dialog.overlay {
            OverlayKind::CommandPalette => self.choose_command(place),
            OverlayKind::SubagentModelPicker => self.choose_subagent_model(place),
            OverlayKind::SessionPicker => self.choose_session(place),
            OverlayKind::TreeSummaryPicker => self.choose_summary(place),
            OverlayKind::FilePicker => self.choose_file(place),
            OverlayKind::OauthSelect => self.choose_oauth(place),
            OverlayKind::Settings => self.choose_setting(place),
            OverlayKind::Permission => self.choose_permission(place),
            OverlayKind::WorkflowPicker => self.choose_workflow(place),
            OverlayKind::WorkflowPreview => self.choose_preview(),
            OverlayKind::ModelPicker => self.choose_other(place),
            OverlayKind::TreePicker => self.choose_other(place),
            OverlayKind::ForkPicker => self.choose_other(place),
            OverlayKind::LoginProvider => self.choose_other(place),
            OverlayKind::ThinkingPicker => self.choose_other(place),
            OverlayKind::RewindPicker => self.choose_other(place),
            OverlayKind::Extensions => self.choose_other(place),
            _ => OverlayAction::Nothing,
        }
    }

    /// Confirms the open dialog.
    pub fn activate_overlay(&mut self) -> (r: OverlayAction)
        requires
            old(self).wf(),
        ensures
            activates(*old(self), *final(self), r),
            final(self).wf(),
    {
        let kind: OverlayKind = self.dialog.overlay;
        if overlay_answers_text(kind) {
            return self.confirm_text();
        }
        let place: Option<usize> = self.selected_place();
        match place {
            None => {
                assert(selects(*old(self), place));
                OverlayAction::Nothing
            },
            Some(at) => {
                let r: OverlayAction = self.choose_row(at);
                assert(selects(*old(self), place));
                r
            },
        }
    }
}

fn overlay_answers_text(kind: OverlayKind) -> (r: bool)
    ensures
        r == answers_text(kind),
{
    match kind {
        OverlayKind::SessionRename => true,
        OverlayKind::SessionDeleteConfirm => true,
        OverlayKind::TreeSummaryEditor => true,
        OverlayKind::LabelEditor => true,
        OverlayKind::OauthPrompt => true,
        OverlayKind::PasteEditor => true,
        OverlayKind::ScopedModels => true,
        OverlayKind::ImageViewer => true,
        _ => false,
    }
}

} // verus!
