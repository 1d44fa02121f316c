//! What a key or the pointer does in all, whatever is open.

use vstd::prelude::*;

use crate::actions;
use crate::actions::ActionContext;
use crate::actions::ActionId;
use crate::actions::KeyCode;
use crate::actions::KeyEvent;
use crate::actions::KeyModifiers;
use crate::agent_keys;
use crate::choice_laws;
use crate::choices;
use crate::dialog_keys;
use crate::dispatch::Effect;
use crate::mouse;
use crate::mouse::MouseEvent;
use crate::mouse::MouseKind;
use crate::mouse::Screen;
use crate::overlay;
use crate::state::AppState;
use crate::state_types;
use crate::state_types::OverlayAction;
use crate::state_types::OverlayKind;
use crate::transcript_keys;
use crate::transcript_keys::Moment;
use crate::view_laws;

verus! {

broadcast use vstd::string::group_string_axioms;

/// Control and `q` end the client, whether or not a dialog is open, and nothing else happens.
pub proof fn control_q_ends_the_client(
    before: AppState,
    after: AppState,
    moment: Moment,
    effects: (Effect, Effect),
)
    requires
        transcript_keys::key_handled(
            before,
            after,
            KeyEvent {
                code: KeyCode::Char('q'),
                modifiers: KeyModifiers { control: true, ..KeyModifiers::nothing() },
            },
            moment,
            effects,
        ),
    ensures
        effects == (Effect::Quit, Effect::Nothing),
        after == before,
{
    let m = KeyModifiers { control: true, ..KeyModifiers::nothing() };
    let key = KeyEvent { code: KeyCode::Char('q'), modifiers: m };
    choice_laws::dialogs_know_their_keys(before.dialog.overlay, m);
    if before.dialog.overlay == OverlayKind::Closed {
        let between = choose|between: AppState| #[trigger]
            transcript_keys::global_step(before, between, key, effects.0) && if effects.0
                == Effect::Quit {
                after == between && effects.1 == Effect::Nothing
            } else {
                exists|offered: AppState, done: bool| #[trigger]
                    transcript_keys::pane_step(between, offered, key, done) && if done {
                        after == offered && effects.1 == Effect::Nothing
                    } else {
                        transcript_keys::rest_step(offered, after, key, moment, effects.1)
                    }
            };
        let id = choose|id: Option<ActionId>| #[trigger]
            actions::looks_up(key, ActionContext::Global, id) && match id {
                Some(action) => agent_keys::registered(before, between, action, effects.0),
                None => between == before && effects.0 == Effect::Nothing,
            };
        actions::control_q_quits(key, id);
    }
}

/// A dialog takes every key: nothing else is asked for, leaving it keeps the draft and what has
/// been said, and a step moves the selection by one row and changes nothing behind the dialog.
pub proof fn dialogs_take_every_key(
    before: AppState,
    after: AppState,
    key: KeyEvent,
    moment: Moment,
    effects: (Effect, Effect),
)
    requires
        transcript_keys::key_handled(before, after, key, moment, effects),
        !(before.dialog.overlay is Closed),
    ensures
        effects.1 is Nothing,
        key.code is Esc ==> after.composer.prompt == before.composer.prompt && after.transcript
            == before.transcript && after.permission_mode == before.permission_mode,
        key.code is Esc && !(before.dialog.overlay is OauthPrompt || before.dialog.overlay
            is OauthSelect) ==> effects.0 is Nothing,
        (key.code is Up || key.code is Down) && !(before.dialog.overlay is PasteEditor) ==> {
            &&& effects.0 is Nothing
            &&& after.composer == before.composer
            &&& after.transcript == before.transcript
            &&& after.dialog.overlay == before.dialog.overlay
            &&& key.code is Up && before.dialog.overlay_selected > 0
                ==> after.dialog.overlay_selected < before.dialog.overlay_selected
            &&& key.code is Down ==> after.dialog.overlay_selected
                <= before.dialog.overlay_selected + 1
        },
{
    let kind = before.dialog.overlay;
    choice_laws::dialogs_know_their_keys(kind, key.modifiers);
    if key.code is Esc {
        assert(key == KeyEvent { code: KeyCode::Esc, modifiers: key.modifiers });
        let action = choose|action: OverlayAction| #[trigger]
            crate::panes::cancels(before, after, action) && effects.0
                == crate::dispatch::dispatched(action);
        choice_laws::leaving_a_dialog_decides_nothing(before, after, action);
    }
    if key.code is Up {
        assert(key == KeyEvent { code: KeyCode::Up, modifiers: key.modifiers });
    }
    if key.code is Down {
        assert(key == KeyEvent { code: KeyCode::Down, modifiers: key.modifiers });
    }
}

/// Control and `v` over the draft ask for the text of the clipboard and change nothing yet.
pub proof fn control_v_asks_for_the_clipboard(
    before: AppState,
    after: AppState,
    moment: Moment,
    effects: (Effect, Effect),
)
    requires
        transcript_keys::key_handled(
            before,
            after,
            KeyEvent {
                code: KeyCode::Char('v'),
                modifiers: KeyModifiers { control: true, ..KeyModifiers::nothing() },
            },
            moment,
            effects,
        ),
        before.dialog.overlay is Closed,
        before.focus is Prompt,
    ensures
        after == before,
        effects == (Effect::PasteText { editor: false }, Effect::Nothing),
{
}

/// Plain characters but the question mark belong to no action.
proof fn characters_are_no_actions(c: char, context: ActionContext, r: Option<ActionId>)
    requires
        actions::looks_up(
            KeyEvent { code: KeyCode::Char(c), modifiers: KeyModifiers::nothing() },
            context,
            r,
        ),
        context is Global || context is Prompt || context is Agent,
        c != '?',
    ensures
        r is None,
{
    let key = KeyEvent { code: KeyCode::Char(c), modifiers: KeyModifiers::nothing() };
    actions::keys_find_their_action(key, context, r);
    assert forall|k: int|
        0 <= k < actions::table().len() && (#[trigger] actions::table()[k]).context
            == context implies !actions::table()[k].triggered_by(key) by {
        actions::actions_have_their_keys(k);
    }
}

/// A character typed over the draft stands in it, where the cursor was, and nothing is sent;
/// only the question mark opens the list of actions instead.
pub proof fn typed_characters_go_into_the_draft(
    before: AppState,
    after: AppState,
    c: char,
    moment: Moment,
    effects: (Effect, Effect),
)
    requires
        transcript_keys::key_handled(
            before,
            after,
            KeyEvent { code: KeyCode::Char(c), modifiers: KeyModifiers::nothing() },
            moment,
            effects,
        ),
        before.dialog.overlay is Closed,
        before.view is Transcript,
        before.focus is Prompt,
        c != '?',
        before.composer.cursor <= before.composer.prompt@.len(),
    ensures
        effects == (Effect::Nothing, Effect::Nothing),
        after.composer.prompt@ == before.composer.prompt@.take(before.composer.cursor as int)
            + seq![c] + before.composer.prompt@.skip(before.composer.cursor as int),
        after.composer.cursor == before.composer.cursor + 1,
        after.transcript == before.transcript,
{
    let key = KeyEvent { code: KeyCode::Char(c), modifiers: KeyModifiers::nothing() };
    let between = choose|between: AppState| #[trigger]
        transcript_keys::global_step(before, between, key, effects.0) && if effects.0
            == Effect::Quit {
            after == between && effects.1 == Effect::Nothing
        } else {
            exists|offered: AppState, done: bool| #[trigger]
                transcript_keys::pane_step(between, offered, key, done) && if done {
                    after == offered && effects.1 == Effect::Nothing
                } else {
                    transcript_keys::rest_step(offered, after, key, moment, effects.1)
                }
        };
    let id = choose|id: Option<ActionId>| #[trigger]
        actions::looks_up(key, ActionContext::Global, id) && match id {
            Some(action) => agent_keys::registered(before, between, action, effects.0),
            None => between == before && effects.0 == Effect::Nothing,
        };
    characters_are_no_actions(c, ActionContext::Global, id);
    let (offered, done) = choose|offered: AppState, done: bool| #[trigger]
        transcript_keys::pane_step(between, offered, key, done) && if done {
            after == offered && effects.1 == Effect::Nothing
        } else {
            transcript_keys::rest_step(offered, after, key, moment, effects.1)
        };
    let pane = choose|pane: Option<ActionId>| #[trigger]
        actions::looks_up(key, transcript_keys::pane_context(between.focus), pane) && match pane {
            Some(action) => agent_keys::pane_action(between, offered, action, done),
            None => !done && offered == between,
        };
    characters_are_no_actions(c, ActionContext::Prompt, pane);
    let intent = crate::view_keys::view_intent(offered.view, offered.header.app_update, key);
    let rest = choose|rest: Option<ActionId>| #[trigger]
        transcript_keys::agent_action(offered, key, rest) && match rest {
            Some(action) => agent_keys::registered(offered, after, action, effects.1),
            None => if intent == crate::view_keys::ViewIntent::Pass {
                transcript_keys::text_done(
                    offered,
                    after,
                    transcript_keys::text_intent(
                        offered.focus,
                        transcript_keys::suggesting(offered),
                        key,
                    ),
                    moment,
                    effects.1,
                )
            } else {
                crate::view_keys::view_done(
                    offered,
                    after,
                    intent,
                    moment.page as int,
                    effects.1,
                )
            },
        };
    characters_are_no_actions(c, ActionContext::Agent, rest);
    view_laws::the_composer_knows_its_keys(
        transcript_keys::suggesting(before),
        c,
        KeyModifiers::nothing(),
    );
    view_laws::typed_characters_reach_the_draft(before, after, c);
}

/// What an action of the pane does: it goes over to the other pane, moves the focus, changes
/// between lines and messages, or throws the draft away; what is not done changes nothing.
pub proof fn pane_actions_do_what_they_say(
    before: AppState,
    after: AppState,
    id: ActionId,
    done: bool,
)
    requires
        agent_keys::pane_action(before, after, id, done),
    ensures
        !done ==> after == before,
        id is FocusPrompt ==> done && after.focus is Prompt && after.composer == before.composer,
        id is ToggleMultiline ==> done && after.composer.multiline_mode
            != before.composer.multiline_mode && after.composer.prompt == before.composer.prompt
            && (after.composer.multiline_mode ==> crate::text::finishes_with(
            after.status@,
            "enabled"@,
        )) && (!after.composer.multiline_mode ==> crate::text::finishes_with(
            after.status@,
            "disabled"@,
        )),
        id is ClearPrompt && before.composer.prompt@.len() > 0 ==> done
            && after.composer.prompt@.len() == 0,
        id is ClearPrompt && before.composer.prompt@.len() == 0
            && before.composer.image_attachments@.len() == 0 ==> !done,
        id is OpenBlockViewer && before.transcript.focused_entry is Some ==> done && after.view
            is BlockViewer && after.transcript.viewed_entry == before.transcript.focused_entry
            && after.scroll.scroll_from_bottom == 0,
        id is ScrollUp || id is ScrollDown || id is FocusScrollback || id is ToggleFold ==> done,
        id is SendPrompt || id is SendNow || id is Quit || id is CancelTurn ==> !done,
{
    reveal_strlit("multiline input enabled");
    reveal_strlit("multiline input disabled");
    reveal_strlit("enabled");
    reveal_strlit("disabled");
    assert("multiline input enabled"@.len() == 23);
    assert("multiline input disabled"@.len() == 24);
    assert("enabled"@.len() == 7);
    assert("disabled"@.len() == 8);
    if id is ToggleMultiline {
        assert("multiline input enabled"@.skip(16) =~= "enabled"@);
        assert("multiline input disabled"@.skip(16) =~= "disabled"@);
        assert("multiline input enabled"@ =~= "multiline input enabled"@.take(16) + "enabled"@);
        assert("multiline input disabled"@ =~= "multiline input disabled"@.take(16) + "disabled"@);
    }
    if id is ClearPrompt && before.composer.prompt@.len() > 0 {
        assert(after.composer.draft().text == after.composer.prompt@);
    }
}

/// Over a dialog with a list the wheel moves the selection by three rows, as far as there are
/// rows, and nothing behind the dialog.
pub proof fn the_wheel_moves_three_rows_of_a_dialog(
    before: AppState,
    after: AppState,
    mouse: MouseEvent,
    screen: Screen,
    effect: Effect,
    changed: bool,
) -> (places: Seq<usize>)
    requires
        mouse::mouse_handled(before, after, mouse, screen, effect, changed),
        !(before.dialog.overlay is Closed),
        !(before.dialog.overlay is PasteEditor),
        mouse.kind is ScrollUp || mouse.kind is ScrollDown,
    ensures
        changed,
        effect is Nothing,
        choices::lists_places(before, places),
        after.composer == before.composer,
        after.transcript == before.transcript,
        after.scroll == before.scroll,
        before.dialog.overlay_selected < places.len() ==> {
            let at = before.dialog.overlay_selected as int;
            let now = after.dialog.overlay_selected as int;
            &&& mouse.kind is ScrollUp ==> now == at - 3 || (at < 3 && now == 0)
            &&& mouse.kind is ScrollDown ==> now == at + 3 || (at + 3 >= places.len() && now
                == places.len() - 1)
        },
{
    let delta: int = if mouse.kind is ScrollUp {
        -3
    } else {
        3
    };
    choose|places: Seq<usize>| #[trigger]
        choices::lists_places(before, places) && after.dialog.overlay_selected
            == crate::dialog::stepped(
            before.dialog.overlay_selected as int,
            delta,
            places.len() as int,
        )
}

/// Over the editor of pasted text the wheel moves the text by three rows and leaves the text
/// and the cursor as they are.
pub proof fn the_wheel_moves_three_rows_of_the_editor(
    before: AppState,
    after: AppState,
    mouse: MouseEvent,
    screen: Screen,
    effect: Effect,
    changed: bool,
)
    requires
        mouse::mouse_handled(before, after, mouse, screen, effect, changed),
        before.dialog.overlay is PasteEditor,
        mouse.kind is ScrollUp || mouse.kind is ScrollDown,
    ensures
        effect is Nothing,
        after.dialog.overlay_query == before.dialog.overlay_query,
        after.dialog.overlay_cursor == before.dialog.overlay_cursor,
        !after.editor.paste_editor_follow_cursor,
        mouse.kind is ScrollDown && before.editor.paste_editor_scroll + 3 <= usize::MAX
            ==> after.editor.paste_editor_scroll == before.editor.paste_editor_scroll + 3,
        mouse.kind is ScrollUp && before.editor.paste_editor_scroll >= 3
            ==> after.editor.paste_editor_scroll == before.editor.paste_editor_scroll - 3,
        mouse.kind is ScrollUp && before.editor.paste_editor_scroll < 3
            ==> after.editor.paste_editor_scroll == 0,
{
}

/// Moving over a dialog marks what lies under the pointer and nothing more.
pub proof fn pointers_mark_what_they_are_over(
    before: AppState,
    after: AppState,
    mouse: MouseEvent,
    screen: Screen,
    effect: Effect,
    changed: bool,
)
    requires
        mouse::mouse_handled(before, after, mouse, screen, effect, changed),
        !(before.dialog.overlay is Closed),
        mouse.kind is Moved,
    ensures
        effect is Nothing,
        overlay::hits_item(
            before,
            screen.width,
            screen.height,
            mouse.column,
            mouse.row,
            after.dialog.overlay_hovered,
        ),
        overlay::closes_at(
            before,
            screen.width,
            screen.height,
            mouse.column,
            mouse.row,
            after.dialog.overlay_close_hovered,
        ),
        before.dialog.overlay is PasteEditor ==> after.editor.paste_editor_action_hover
            == state_types::hit(before.editor.paste_editor_actions@, mouse.column, mouse.row),
        before.dialog.overlay is ImageViewer ==> after.pointer.image_view_action_hover
            == state_types::hit(before.pointer.image_view_actions@, mouse.column, mouse.row),
        after.dialog.overlay_selected == before.dialog.overlay_selected,
        after.composer == before.composer,
        after.transcript == before.transcript,
{
}

/// A press on the cross leaves the dialog as the escape key does; where nothing has a cross
/// there is nothing to press.
pub proof fn pressing_the_cross_leaves_the_dialog(
    before: AppState,
    after: AppState,
    mouse: MouseEvent,
    screen: Screen,
    effect: Effect,
    changed: bool,
)
    requires
        mouse::mouse_handled(before, after, mouse, screen, effect, changed),
        !(before.dialog.overlay is Closed),
        mouse.kind is Down,
        forall|r: bool|
            overlay::closes_at(
                before,
                screen.width,
                screen.height,
                mouse.column,
                mouse.row,
                r,
            ) ==> r,
    ensures
        after.composer.prompt == before.composer.prompt,
        after.transcript == before.transcript,
        after.permission_mode == before.permission_mode,
        !(before.dialog.overlay is OauthPrompt || before.dialog.overlay is OauthSelect) ==> effect
            is Nothing,
        exists|action: OverlayAction| #[trigger] crate::panes::cancels(before, after, action),
{
    let action = choose|action: OverlayAction| #[trigger]
        crate::panes::cancels(before, after, action) && effect == crate::dispatch::dispatched(
            action,
        );
    choice_laws::leaving_a_dialog_decides_nothing(before, after, action);
}

} // verus!
