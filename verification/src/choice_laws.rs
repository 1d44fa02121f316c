//! What keys and choices lead to, whatever the state.

use vstd::prelude::*;

use crate::actions::ActionId;
use crate::actions::KeyCode;
use crate::actions::KeyEvent;
use crate::actions::KeyModifiers;
use crate::agent_keys;
use crate::choices;
use crate::composer_state;
use crate::dialog_keys;
use crate::dialog_keys::DialogIntent;
use crate::dispatch;
use crate::dispatch::Effect;
use crate::dispatch::UiCommand;
use crate::harness::MessageDelivery;
use crate::harness::MessageImage;
use crate::offers;
use crate::panes;
use crate::pickers;
use crate::sessions;
use crate::slash;
use crate::state::AppState;
use crate::state_types::OverlayAction;
use crate::state_types::OverlayKind;
use crate::text;

verus! {

broadcast use vstd::string::group_string_axioms;

proof fn nothing_is_found_everywhere(names: Seq<Seq<char>>, n: int)
    requires
        0 <= n <= names.len(),
        n <= usize::MAX,
    ensures
        offers::matching(Seq::empty(), names, n) == Seq::new(n as nat, |i: int| i as usize),
    decreases n,
{
    if n > 0 {
        nothing_is_found_everywhere(names, n - 1);
        sessions::queries_are_found(Seq::empty(), names[n - 1], Seq::empty());
        assert(offers::matching(Seq::empty(), names, n) =~= Seq::new(n as nat, |i: int| i as usize));
    } else {
        assert(offers::matching(Seq::empty(), names, n) =~= Seq::new(0, |i: int| i as usize));
    }
}

/// The answer to a request for leave is the row that is selected: the first allows the call
/// once, the second always, the third refuses it. It answers the request that was made, which
/// waits no longer.
pub proof fn permissions_are_answered_as_selected(
    before: AppState,
    after: AppState,
    action: OverlayAction,
)
    requires
        before.dialog.overlay is Permission,
        before.dialog.overlay_query@.len() == 0,
        before.dialog.overlay_selected < 3,
        before.pending_permission is Some,
        pickers::activates(before, after, action),
    ensures
        action is Permission,
        action->Permission_request_id@ == before.pending_permission->0.id@,
        before.dialog.overlay_selected == 0 ==> action->Permission_decision is AllowOnce
            && choices::permission_choices()[0] == "Allow once"@,
        before.dialog.overlay_selected == 1 ==> action->Permission_decision is AllowAlways
            && choices::permission_choices()[1] == "Always allow"@,
        before.dialog.overlay_selected == 2 ==> action->Permission_decision is Deny
            && choices::permission_choices()[2] == "Deny"@,
        after.pending_permission is None,
        dispatch::dispatched(action) == Effect::Send(
            UiCommand::Permission {
                request_id: action->Permission_request_id,
                decision: action->Permission_decision,
            },
        ),
{
    let rows = choices::plain_rows(before);
    let query = before.dialog.overlay_query@;
    assert(query =~= Seq::<char>::empty());
    nothing_is_found_everywhere(rows, 3);
    let place = choose|place: Option<usize>| #[trigger]
        pickers::selects(before, place) && match place {
            Some(at) => pickers::chosen(before, at as int, after, action),
            None => pickers::ignored(before, after, action),
        };
    let places = choose|places: Seq<usize>| #[trigger]
        choices::lists_places(before, places) && place == (if before.dialog.overlay_selected
            < places.len() {
            Some(places[before.dialog.overlay_selected as int])
        } else {
            None
        });
    assert(places == Seq::new(3, |i: int| i as usize));
    assert(place == Some(before.dialog.overlay_selected));
}

/// Only the first two answers allow anything.
pub proof fn other_answers_refuse(place: int)
    ensures
        pickers::decision_at(place) is AllowOnce <==> place == 0,
        pickers::decision_at(place) is AllowAlways <==> place == 1,
        place != 0 && place != 1 ==> pickers::decision_at(place) is Deny,
{
}

/// What is chosen is what the row stands for: the model, the session, the entry, the provider,
/// the version of a file or the extension at its place.
pub proof fn rows_stand_for_what_is_chosen(
    before: AppState,
    place: int,
    after: AppState,
    action: OverlayAction,
)
    requires
        pickers::chosen(before, place, after, action),
    ensures
        before.dialog.overlay is ModelPicker ==> action is SetModel && action->SetModel_id@
            == before.offers.available_models@[place].id@ && after.model@
            == before.offers.available_models@[place].display_name@,
        before.dialog.overlay is SessionPicker ==> action is ResumeSession
            && action->ResumeSession_target@ == before.sessions.available_sessions@[place].path@
            && after.view is Transcript,
        before.dialog.overlay is ForkPicker ==> action is ForkSession
            && action->ForkSession_entry_id@ == before.tree.session_tree@[place].id@,
        before.dialog.overlay is TreePicker ==> action is Nothing && after.dialog.overlay
            is TreeSummaryPicker && after.tree.tree_target is Some && after.tree.tree_target->0@
            == before.tree.session_tree@[place].id@,
        before.dialog.overlay is LoginProvider ==> action is BeginOauth && action->BeginOauth_0@
            == before.offers.available_auth_providers@[place].id@,
        before.dialog.overlay is RewindPicker ==> action is RewindFile && action->RewindFile_0@
            == before.offers.rewind_checkpoints@[place].id@,
        before.dialog.overlay is Extensions ==> action is SetExtensionEnabled
            && action->SetExtensionEnabled_path@ == before.offers.runtime_extensions@[place].path@
            && action->SetExtensionEnabled_enabled
            == !before.offers.runtime_extensions@[place].enabled,
        before.dialog.overlay is ThinkingPicker && 0 <= place < 5 ==> action is SetThinking
            && action->SetThinking_0@ == choices::place_text(before, place),
        before.dialog.overlay is SubagentModelPicker && place
            < before.offers.available_models@.len() ==> action is SetRuntimeSetting
            && action->SetRuntimeSetting_value is Text && action->SetRuntimeSetting_value->Text_0@
            == before.offers.available_models@[place].id@,
        before.dialog.overlay is SubagentModelPicker && place
            >= before.offers.available_models@.len() ==> action is SetRuntimeSetting
            && action->SetRuntimeSetting_value is Null,
        before.dialog.overlay is FilePicker ==> action is Nothing && after.composer.prompt@
            == before.composer.prompt@.take(before.composer.cursor as int)
            + before.offers.available_files@[place]@ + seq![' '] + before.composer.prompt@.skip(
            before.composer.cursor as int,
        ),
        before.dialog.overlay is OauthSelect && before.pending_oauth is Some && 0 <= place
            < before.pending_oauth->0.option_ids@.len() ==> action is OauthReply
            && action->OauthReply_id@ == before.pending_oauth->0.id@ && action->OauthReply_value
            is Some && action->OauthReply_value->0@
            == before.pending_oauth->0.option_ids@[place]@,
{
    reveal_strlit(" ");
    assert(" "@ =~= seq![' ']);
    if before.dialog.overlay is FilePicker {
        assert(after.composer.draft().text == after.composer.prompt@);
        assert(after.composer.prompt@ =~= before.composer.prompt@.take(
            before.composer.cursor as int,
        ) + before.offers.available_files@[place]@ + seq![' '] + before.composer.prompt@.skip(
            before.composer.cursor as int,
        ));
    }
}

/// Leaving a branch asks for a summary exactly where that was chosen, and goes to the entry
/// that was picked.
pub proof fn branches_are_left_as_chosen(
    before: AppState,
    place: int,
    after: AppState,
    action: OverlayAction,
)
    requires
        before.dialog.overlay is TreeSummaryPicker,
        before.tree.tree_target is Some,
        pickers::chosen(before, place, after, action),
        0 <= place < 3,
    ensures
        choices::summary_choices()[place] == "No summary"@ ==> action is NavigateTree
            && !action->NavigateTree_summarize,
        choices::summary_choices()[place] == "Summarize"@ ==> action is NavigateTree
            && action->NavigateTree_summarize && action->NavigateTree_instructions is None,
        choices::summary_choices()[place] == "Summarize with custom prompt"@ ==> action is Nothing
            && after.dialog.overlay is TreeSummaryEditor,
        action is NavigateTree ==> action->NavigateTree_entry_id@ == before.tree.tree_target->0@,
{
    reveal_strlit("No summary");
    reveal_strlit("Summarize");
    reveal_strlit("Summarize with custom prompt");
    assert("No summary"@.len() == 10);
    assert("Summarize"@.len() == 9);
    assert("Summarize with custom prompt"@.len() == 28);
    assert(choices::summary_choices()[0] == "No summary"@);
    assert(choices::summary_choices()[1] == "Summarize"@);
    assert(choices::summary_choices()[2] == "Summarize with custom prompt"@);
}

/// A setting that is chosen takes its other value, is sent under its name, and no other
/// setting changes.
pub proof fn settings_take_their_next_value(
    before: AppState,
    after: AppState,
    place: int,
    action: OverlayAction,
)
    requires
        pickers::setting_chosen(before, after, place, action),
        0 <= place < 9,
    ensures
        place == 2 ==> after.offers.runtime_settings.auto_compaction
            == !before.offers.runtime_settings.auto_compaction && action is SetRuntimeSetting
            && action->SetRuntimeSetting_key@ == "auto_compaction"@,
        place == 0 ==> after.offers.runtime_settings.steering_mode@
            != before.offers.runtime_settings.steering_mode@ && action is SetRuntimeSetting
            && action->SetRuntimeSetting_key@ == "steering_mode"@
            && after.offers.runtime_settings.follow_up_mode
            == before.offers.runtime_settings.follow_up_mode,
        place == 1 ==> after.offers.runtime_settings.follow_up_mode@
            != before.offers.runtime_settings.follow_up_mode@ && action is SetRuntimeSetting
            && action->SetRuntimeSetting_key@ == "follow_up_mode"@
            && after.offers.runtime_settings.steering_mode
            == before.offers.runtime_settings.steering_mode,
        place == 3 ==> action is SetRuntimeSetting && action->SetRuntimeSetting_key@
            == "default_project_trust"@,
        place == 4 ==> action == OverlayAction::SetProjectTrust(
            !before.offers.runtime_settings.project_trusted,
        ),
        place == 5 ==> after.dialog.overlay is Extensions,
        place == 6 ==> after.dialog.overlay is ScopedModels,
        place == 7 ==> after.dialog.overlay is SubagentModelPicker,
        place == 8 ==> after.theme_mode != before.theme_mode && action == OverlayAction::SetTheme(
            after.theme_mode,
        ),
{
    reveal_strlit("one-at-a-time");
    reveal_strlit("all");
    assert("one-at-a-time"@.len() == 13);
    assert("all"@.len() == 3);
}

/// The trust for projects goes from asking to always to never and back.
pub proof fn trust_comes_round(trust: Seq<char>)
    ensures
        pickers::next_trust("ask"@) == "always"@,
        pickers::next_trust("always"@) == "never"@,
        pickers::next_trust("never"@) == "ask"@,
        trust == "ask"@ || trust == "always"@ || trust == "never"@ ==> pickers::next_trust(
            pickers::next_trust(pickers::next_trust(trust)),
        ) == trust,
        pickers::other_delivery("all"@) == "one-at-a-time"@,
        pickers::other_delivery("one-at-a-time"@) == "all"@,
{
    reveal_strlit("ask");
    reveal_strlit("always");
    reveal_strlit("never");
    assert("ask"@.len() == 3);
    assert("always"@.len() == 6);
    assert("never"@.len() == 5);
    reveal_strlit("one-at-a-time");
    reveal_strlit("all");
    assert("one-at-a-time"@.len() == 13);
    assert("all"@.len() == 3);
}

/// The names and the values of the settings are those of their rows.
pub proof fn settings_are_shown_in_their_rows(s: AppState)
    ensures
        choices::setting_names().len() == 9,
        choices::setting_names()[2] == "Auto compaction"@,
        choices::setting_value(s, 2) == (if s.offers.runtime_settings.auto_compaction {
            "on"@
        } else {
            "off"@
        }),
        choices::setting_names()[4] == "Current project trusted"@,
        choices::setting_value(s, 4) == (if s.offers.runtime_settings.project_trusted {
            "yes"@
        } else {
            "no"@
        }),
        choices::setting_names()[0] == "Steering delivery"@,
        choices::setting_value(s, 0) == s.offers.runtime_settings.steering_mode@,
        choices::setting_names()[1] == "Follow-up delivery"@,
        choices::setting_value(s, 1) == s.offers.runtime_settings.follow_up_mode@,
        choices::setting_names()[3] == "Default project trust"@,
        choices::setting_value(s, 3) == s.offers.runtime_settings.default_project_trust@,
        choices::setting_names()[7] == "Subagent model"@,
        s.offers.runtime_settings.subagent_model matches Some(model) ==> choices::setting_value(
            s,
            7,
        ) == model@,
        choices::setting_names()[8] == "Theme"@,
        choices::setting_value(s, 8) == s.theme_mode.name(),
{
}

/// What is typed into a dialog is what it answers with: a session is renamed to it, an entry
/// labelled with it, and a sign-in answered by it. A session is deleted only where one was
/// asked about.
pub proof fn typed_answers_are_given(before: AppState, after: AppState, action: OverlayAction)
    requires
        pickers::confirmed(before, after, action),
    ensures
        before.dialog.overlay is SessionRename && action is RenameSession
            ==> before.sessions.pending_session_path is Some && action->RenameSession_target@
            == before.sessions.pending_session_path->0@ && action->RenameSession_name@
            == text::trim(before.dialog.overlay_query@) && action->RenameSession_name@.len() > 0,
        before.dialog.overlay is SessionRename && before.sessions.pending_session_path is Some
            && text::trim(before.dialog.overlay_query@).len() > 0 ==> action is RenameSession,
        before.dialog.overlay is SessionDeleteConfirm && before.sessions.pending_session_path
            is Some ==> action is DeleteSession && action->DeleteSession_target@
            == before.sessions.pending_session_path->0@,
        action is DeleteSession ==> before.dialog.overlay is SessionDeleteConfirm,
        before.dialog.overlay is LabelEditor && before.tree.tree_target is Some ==> action
            is SetLabel && action->SetLabel_entry_id@ == before.tree.tree_target->0@ && (text::trim(
            before.dialog.overlay_query@,
        ).len() > 0 ==> action->SetLabel_label is Some && action->SetLabel_label->0@ == text::trim(
            before.dialog.overlay_query@,
        )) && (text::trim(before.dialog.overlay_query@).len() == 0 ==> action->SetLabel_label
            is None),
        before.dialog.overlay is OauthPrompt && before.pending_oauth is Some ==> action
            is OauthReply && action->OauthReply_id@ == before.pending_oauth->0.id@
            && action->OauthReply_value is Some && action->OauthReply_value->0@
            == before.dialog.overlay_query@,
        before.dialog.overlay is TreeSummaryEditor && before.tree.tree_target is Some ==> action
            is NavigateTree && action->NavigateTree_summarize && action->NavigateTree_entry_id@
            == before.tree.tree_target->0@,
{
}

/// Leaving a dialog changes and sends nothing, but a sign-in that waits is told that there is
/// no answer.
pub proof fn leaving_a_dialog_decides_nothing(
    before: AppState,
    after: AppState,
    action: OverlayAction,
)
    requires
        panes::cancels(before, after, action),
    ensures
        action is Nothing || (action is OauthReply && action->OauthReply_value is None
            && before.pending_oauth is Some && action->OauthReply_id@
            == before.pending_oauth->0.id@),
        !(before.dialog.overlay is OauthPrompt || before.dialog.overlay is OauthSelect) ==> action
            is Nothing,
        after.composer.prompt == before.composer.prompt,
        after.transcript == before.transcript,
        after.model == before.model,
        after.offers == before.offers,
        after.permission_mode == before.permission_mode,
{
}

/// The current session is not deleted: nobody is asked, and a status says why.
pub proof fn the_current_session_is_kept(
    before: AppState,
    after: AppState,
    session: crate::harness::SessionInfo,
    parent: Option<(OverlayKind, usize)>,
)
    requires
        panes::asks_delete(before, after, session, parent),
    ensures
        session.current ==> after.dialog == before.dialog && after.sessions == before.sessions,
        !session.current ==> after.dialog.overlay is SessionDeleteConfirm
            && after.sessions.pending_session_path is Some
            && after.sessions.pending_session_path->0@ == session.path@,
{
}

/// Escape leaves every dialog, Control and Q the client, and the arrows move by one row.
pub proof fn dialogs_know_their_keys(overlay: OverlayKind, m: KeyModifiers)
    ensures
        dialog_keys::dialog_intent(overlay, KeyEvent { code: KeyCode::Esc, modifiers: m })
            is Cancel,
        m.control ==> dialog_keys::dialog_intent(
            overlay,
            KeyEvent { code: KeyCode::Char('q'), modifiers: m },
        ) is Quit,
        !(overlay is PasteEditor) ==> dialog_keys::dialog_intent(
            overlay,
            KeyEvent { code: KeyCode::Up, modifiers: m },
        ) == DialogIntent::Select((-1) as isize) && dialog_keys::dialog_intent(
            overlay,
            KeyEvent { code: KeyCode::Down, modifiers: m },
        ) == DialogIntent::Select(1),
        !(overlay is PasteEditor) && !(overlay is ImageViewer) && !m.shift
            ==> dialog_keys::dialog_intent(
            overlay,
            KeyEvent { code: KeyCode::Enter, modifiers: m },
        ) is Confirm,
        dialog_keys::dialog_intent(overlay, KeyEvent { code: KeyCode::Backspace, modifiers: m })
            is Erase,
{
}

/// A character without a command key is typed, but for the blank where it chooses.
pub proof fn characters_are_typed_into_dialogs(overlay: OverlayKind, c: char, m: KeyModifiers)
    requires
        !m.control,
        !m.alt,
        !m.logo,
        !m.shift,
        c != ' ',
    ensures
        dialog_keys::dialog_intent(overlay, KeyEvent { code: KeyCode::Char(c), modifiers: m })
            == DialogIntent::Type(c),
{
}

/// Keys that only move or leave never decide anything: nothing is sent.
pub proof fn moving_sends_nothing(
    before: AppState,
    after: AppState,
    intent: DialogIntent,
    page: int,
    effect: Effect,
)
    requires
        dialog_keys::dialog_done(before, after, intent, page, effect),
        !(intent is Quit),
        !(intent is Cancel),
        !(intent is Confirm),
        !(intent is ConfirmWithSummary),
        !(intent is PasteText),
    ensures
        effect is Nothing,
{
}

/// The Enter key sends the draft: its words and its images, into a running turn behind what is
/// queued, or at once where Control is held.
pub proof fn enter_sends_the_draft(
    before: AppState,
    after: AppState,
    modified: bool,
    control: bool,
    now: u64,
    effect: Effect,
)
    requires
        agent_keys::enters(before, after, modified, control, now, effect),
        control || before.composer.multiline_mode == modified,
        text::trim(before.composer.prompt@) != "/paste"@,
        text::trim(before.composer.prompt@) != "/paste-image"@,
        slash::resolved(before) is None,
        text::trim(before.composer.prompt@).len() > 0,
        text::trim_start(before.composer.prompt@)[0] != '!',
    ensures
        effect is Send,
        effect->Send_0 is Submit,
        effect->Send_0->Submit_text@ == text::trim(before.composer.prompt@),
        effect->Send_0->Submit_images@.len() == before.composer.image_attachments@.len(),
        !before.transcript.streaming ==> effect->Send_0->Submit_delivery is None,
        before.transcript.streaming && control ==> effect->Send_0->Submit_delivery == Some(
            MessageDelivery::Steer,
        ),
        before.transcript.streaming && !control ==> effect->Send_0->Submit_delivery == Some(
            MessageDelivery::FollowUp,
        ),
        after.composer.prompt@.len() == 0,
        after.composer.image_attachments@.len() == 0,
        after.composer.history@.last()@ == text::trim(before.composer.prompt@),
{
    reveal_strlit("!");
    assert("!"@[0] == '!');
    let start = text::trim_start(before.composer.prompt@);
    if text::begins_with(start, "!"@) {
        assert(start.subrange(0, 1)[0] == start[0]);
    }
    let r = choose|r: Option<(String, Vec<MessageImage>)>| #[trigger]
        composer_state::message_taken(before.composer, after.composer, r) && effect
            == agent_keys::message_effect(r, agent_keys::delivery_of(before, control));
    composer_state::blank_drafts_are_not_sent(before.composer, after.composer, r);
    match r {
        Some((line, images)) => {
            composer_state::messages_hold_the_draft(before.composer, after.composer, line, images);
        },
        None => {},
    }
}

/// A draft with an exclamation mark in front is run as a command instead.
pub proof fn enter_runs_commands(
    before: AppState,
    after: AppState,
    modified: bool,
    control: bool,
    now: u64,
    effect: Effect,
    command: Seq<char>,
    kept_out: bool,
)
    requires
        agent_keys::enters(before, after, modified, control, now, effect),
        control || before.composer.multiline_mode == modified,
        slash::resolved(before) is None,
        text::trim_start(before.composer.prompt@).len() > 0,
        text::trim_start(before.composer.prompt@)[0] == '!',
        composer_state::bash_command(before.composer.prompt@) == Some((command, kept_out)),
        command.len() > 0,
        text::trim(before.composer.prompt@) != "/paste"@,
        text::trim(before.composer.prompt@) != "/paste-image"@,
    ensures
        effect is Send,
        effect->Send_0 is ExecuteBash,
        effect->Send_0->ExecuteBash_command@ == command,
        effect->Send_0->ExecuteBash_exclude_from_context == kept_out,
        after.composer.prompt@.len() == 0,
{
    reveal_strlit("!");
    assert("!"@ =~= seq!['!']);
    let start = text::trim_start(before.composer.prompt@);
    assert(start.subrange(0, 1) =~= seq!['!']);
    assert(text::begins_with(start, "!"@));
    let r = choose|r: Option<(String, bool)>| #[trigger]
        composer_state::command_taken(before.composer, after.composer, r) && effect
            == agent_keys::command_effect(r);
    assert(after.composer.draft().text == after.composer.prompt@);
}

/// In a draft of several lines Enter begins a line, and in others a modified Enter does;
/// nothing is sent.
pub proof fn enter_begins_a_line(
    before: AppState,
    after: AppState,
    modified: bool,
    now: u64,
    effect: Effect,
)
    requires
        agent_keys::enters(before, after, modified, false, now, effect),
        before.composer.multiline_mode != modified,
    ensures
        effect is Nothing,
        after.composer.prompt@ == before.composer.prompt@.take(before.composer.cursor as int)
            + seq!['\n'] + before.composer.prompt@.skip(before.composer.cursor as int),
        after.composer.cursor == before.composer.cursor + 1,
{
    assert(after.composer.draft().text == after.composer.prompt@);
}

/// What a registered action does: it opens its dialog, changes the mode and tells the backend,
/// stops the running turn where there is no draft to drop, or leaves the client.
pub proof fn actions_do_what_they_say(
    before: AppState,
    after: AppState,
    id: ActionId,
    effect: Effect,
)
    requires
        agent_keys::registered(before, after, id, effect),
    ensures
        id is Quit <==> effect is Quit,
        id is CommandPalette ==> after.dialog.overlay is CommandPalette,
        id is ModelPicker ==> after.dialog.overlay is ModelPicker,
        id is SessionPicker ==> after.dialog.overlay is SessionPicker,
        id is Settings ==> after.dialog.overlay is Settings,
        id is ToggleQueue ==> after.transcript.queue_visible != before.transcript.queue_visible,
        id is ToggleTasks ==> (after.view is Tasks <==> !(before.view is Tasks)),
        id is CycleMode ==> effect is Send && effect->Send_0 is SetPermissionMode
            && effect->Send_0->SetPermissionMode_0@ == after.permission_mode.wire()
            && after.permission_mode == before.permission_mode.following(),
        id is CancelTurn && before.composer.prompt@.len() == 0
            && before.composer.image_attachments@.len() == 0 && before.transcript.streaming
            ==> effect == Effect::Send(UiCommand::AbortAndRestoreQueue),
        id is CancelTurn && before.composer.prompt@.len() > 0 ==> effect is Nothing
            && after.composer.prompt@.len() == 0,
        id is CancelTurn && !before.transcript.streaming ==> effect is Nothing,
{
    if id is CancelTurn && before.composer.prompt@.len() > 0 {
        assert(after.composer.draft().text == after.composer.prompt@);
    }
}

/// A load from the clipboard is begun once, and a second one is refused until it is done.
pub proof fn clipboards_are_read_once(
    before: AppState,
    after: AppState,
    now: u64,
    image: bool,
    effect: Effect,
)
    requires
        agent_keys::begins_load(before, after, now, image, effect),
    ensures
        before.composer.image_processing_started_at is Some ==> effect is Nothing
            && after.composer == before.composer,
        before.composer.image_processing_started_at is None ==> {
            &&& image ==> effect is LoadImage
            &&& !image ==> effect is LoadClipboard
            &&& after.composer.image_processing_started_at == Some(now)
            &&& after.composer.prompt == before.composer.prompt
        },
{
}

/// A model that is cycled through no longer is after it was toggled, and one that was not is.
pub proof fn toggled_models_change_sides(models: Seq<Seq<char>>, id: Seq<char>, other: Seq<char>)
    ensures
        panes::toggled_model(models, id).contains(id) <==> !models.contains(id),
        other != id ==> (panes::toggled_model(models, id).contains(other) <==> models.contains(
            other,
        )),
{
    broadcast use vstd::seq_lib::group_filter_ensures;
    broadcast use Seq::lemma_filter_contains_rev;

    let after = panes::toggled_model(models, id);
    if models.contains(id) {
        if after.contains(id) {
            let k = choose|k: int| 0 <= k < after.len() && after[k] == id;
            assert(after[k] != id);
        }
        if models.contains(other) && other != id {
            let k = choose|k: int| 0 <= k < models.len() && models[k] == other;
            assert(after.contains(models[k]));
        }
    } else {
        assert(after[models.len() as int] == id);
        if models.contains(other) {
            let k = choose|k: int| 0 <= k < models.len() && models[k] == other;
            assert(after[k] == other);
        }
        if after.contains(other) && other != id {
            let k = choose|k: int| 0 <= k < after.len() && after[k] == other;
            assert(models[k] == other);
        }
    }
}

/// A block that is activated is looked at where it is a subagent, folded the other way where
/// it folds, and shown in the viewer otherwise; no other block changes.
pub proof fn blocks_are_activated(before: AppState, after: AppState, i: int, j: int)
    requires
        panes::entry_activated(before, after, i),
        0 <= i < before.transcript.entries@.len(),
        0 <= j < before.transcript.entries@.len(),
    ensures
        after.transcript.entries@.len() == before.transcript.entries@.len(),
        j != i ==> after.transcript.entries@[j] == before.transcript.entries@[j],
        before.transcript.entries@[i] is User || before.transcript.entries@[i] is Assistant
            ==> after.view is BlockViewer && after.transcript.viewed_entry == Some(i as usize),
        before.transcript.entries@[i] is Reasoning || before.transcript.entries@[i] is Diff
            || before.transcript.entries@[i] is Plan
            ==> after.transcript.entries@[i].unfolded() == Some(
            !before.transcript.entries@[i].unfolded()->0,
        ),
        after.composer == before.composer,
{
    crate::state_types::folding_changes_the_fold(
        before.transcript.entries@[i],
        !(before.transcript.entries@[i].unfolded() == Some(true)),
    );
}

/// The other pane takes the keys, and then the first one again.
pub proof fn panes_take_turns(focus: crate::state_types::Focus)
    ensures
        panes::other_focus(focus) != focus,
        panes::other_focus(panes::other_focus(focus)) == focus,
{
}

} // verus!
