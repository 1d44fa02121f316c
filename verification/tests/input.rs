use torii::actions::KeyCode;
use torii::actions::KeyEvent;
use torii::actions::KeyModifiers;
use torii::agent_layout::AgentLayout;
use torii::dispatch;
use torii::dispatch::Effect;
use torii::dispatch::UiCommand;
use torii::events;
use torii::events::ClipboardPayload;
use torii::events::TuiBootstrap;
use torii::fixtures;
use torii::geometry::Rect;
use torii::harness::MessageDelivery;
use torii::harness::ModelInfo;
use torii::harness::RuntimeResources;
use torii::harness::RuntimeSettings;
use torii::mouse::MouseEvent;
use torii::mouse::MouseKind;
use torii::mouse::Screen;
use torii::screen::View;
use torii::state::AppState;
use torii::state_types::Focus;
use torii::state_types::ImageAttachment;
use torii::state_types::OverlayAction;
use torii::state_types::OverlayKind;
use torii::state_types::PermissionMode;
use torii::state_types::SectionTarget;
use torii::state_types::Target;
use torii::state_types::ThemeMode;
use torii::state_types::TreeFilter;
use torii::transcript_keys::Moment;

fn key(code: KeyCode) -> KeyEvent {
    KeyEvent::new(code, KeyModifiers::none())
}

fn control(character: char) -> KeyEvent {
    KeyEvent::new(KeyCode::Char(character), KeyModifiers::control())
}

fn at(now: u64) -> Moment {
    Moment {
        page: 20,
        max_scroll: 100,
        now,
    }
}

fn press(state: &mut AppState, event: KeyEvent) -> Vec<Effect> {
    let (first, second) = state.handle_key(event, at(1_000));
    vec![first, second]
        .into_iter()
        .filter(|effect| !matches!(effect, Effect::Nothing))
        .collect()
}

fn type_text(state: &mut AppState, words: &str) {
    for character in words.chars() {
        press(state, key(KeyCode::Char(character)));
    }
}

fn screen(hit: Option<SectionTarget>) -> Screen {
    Screen {
        width: 100,
        height: 30,
        max_scroll: 50,
        layout: AgentLayout::compute(Rect::new(0, 0, 100, 30), &AppState::default()),
        hit,
        on_subagent_close: false,
    }
}

fn mouse(kind: MouseKind, column: u16, row: u16) -> MouseEvent {
    MouseEvent { kind, column, row }
}

#[test]
fn typed_text_is_sent_with_enter() {
    let mut state = AppState::default();
    type_text(&mut state, "hello");
    assert_eq!(state.composer.prompt, "hello");
    let effects = press(&mut state, key(KeyCode::Enter));
    assert!(matches!(
        effects.as_slice(),
        [Effect::Send(UiCommand::Submit { text, delivery: None, images })]
            if text == "hello" && images.is_empty()
    ));
    assert!(state.composer.prompt.is_empty());
}

#[test]
fn messages_steer_a_running_turn() {
    let mut state = fixtures::streaming();
    state.clear_prompt();
    type_text(&mut state, "wait");
    let effects = press(&mut state, key(KeyCode::Enter));
    assert!(matches!(
        effects.as_slice(),
        [Effect::Send(UiCommand::Submit { text, delivery: Some(_), .. })] if text == "wait"
    ));
    assert_ne!(
        format!("{:?}", MessageDelivery::Steer),
        format!("{:?}", MessageDelivery::FollowUp)
    );
}

#[test]
fn bash_lines_are_run() {
    let mut state = AppState::default();
    type_text(&mut state, "!! git status");
    let effects = press(&mut state, key(KeyCode::Enter));
    assert!(matches!(
        effects.as_slice(),
        [Effect::Send(UiCommand::ExecuteBash { command, exclude_from_context: true })]
            if command == "git status"
    ));
}

#[test]
fn two_escapes_clear_the_draft_and_one_only_warns() {
    let mut state = AppState::default();
    type_text(&mut state, "draft");
    assert!(matches!(state.handle_agent_escape(1_000), Effect::Nothing));
    assert_eq!(state.composer.prompt, "draft");
    assert_eq!(state.status, "press Esc again to clear the draft");
    assert!(matches!(state.handle_agent_escape(1_800), Effect::Nothing));
    assert_eq!(state.composer.prompt, "");
}

#[test]
fn late_escapes_keep_the_draft() {
    let mut state = AppState::default();
    type_text(&mut state, "draft");
    state.handle_agent_escape(1_000);
    state.handle_agent_escape(1_801);
    assert_eq!(state.composer.prompt, "draft");
}

#[test]
fn two_escapes_without_a_draft_offer_the_checkpoints() {
    let mut state = fixtures::conversation();
    state.clear_prompt();
    state.handle_agent_escape(1_000);
    let effect = state.handle_agent_escape(1_500);
    assert!(matches!(effect, Effect::Send(UiCommand::LoadRewinds)));
    assert_eq!(state.dialog.overlay, OverlayKind::RewindPicker);
}

#[test]
fn keys_of_a_dialog_stay_in_it() {
    let mut state = AppState::default();
    state.open_overlay(OverlayKind::CommandPalette);
    type_text(&mut state, "mo");
    assert_eq!(state.dialog.overlay_query, "mo");
    assert_eq!(state.composer.prompt, "");
    press(&mut state, key(KeyCode::Backspace));
    assert_eq!(state.dialog.overlay_query, "m");
    press(&mut state, key(KeyCode::Esc));
    assert_eq!(state.dialog.overlay, OverlayKind::Closed);
}

#[test]
fn control_q_ends_the_client_from_anywhere() {
    let mut state = AppState::default();
    assert!(matches!(press(&mut state, control('q')).as_slice(), [Effect::Quit]));
    state.open_overlay(OverlayKind::ModelPicker);
    assert!(matches!(press(&mut state, control('q')).as_slice(), [Effect::Quit]));
}

#[test]
fn only_the_quit_action_ends_the_client() {
    assert!(matches!(
        dispatch::dispatch_overlay_action(OverlayAction::Quit),
        Effect::Quit
    ));
    assert!(matches!(
        dispatch::dispatch_overlay_action(OverlayAction::Nothing),
        Effect::Nothing
    ));
    assert!(matches!(
        dispatch::dispatch_overlay_action(OverlayAction::SetTheme(ThemeMode::Light)),
        Effect::SaveTheme(ThemeMode::Light)
    ));
    assert!(matches!(
        dispatch::dispatch_overlay_action(OverlayAction::SetModel { id: "m".into() }),
        Effect::Send(UiCommand::SetModel(id)) if id == "m"
    ));
}

#[test]
fn cycles_come_round() {
    let mut mode = PermissionMode::Normal;
    for _ in 0..3 {
        mode = mode.next();
    }
    assert_eq!(mode, PermissionMode::Normal);
    let mut filter = TreeFilter::Default;
    let mut seen = 0;
    loop {
        filter = filter.next();
        seen += 1;
        if filter == TreeFilter::Default {
            break;
        }
    }
    assert_eq!(seen, 5);
}

#[test]
fn editor_keys_move_and_save() {
    let mut state = AppState::default();
    state.insert_paste("one\ntwo\nthree".into());
    let id = state.composer.paste_blocks[0].id;
    assert!(state.begin_paste_edit(id));
    state.lay_out_editor(Rect::new(0, 0, 80, 24));
    press(&mut state, KeyEvent::new(KeyCode::Home, KeyModifiers::control()));
    assert_eq!(state.dialog.overlay_cursor, 0);
    press(&mut state, key(KeyCode::Enter));
    assert_eq!(state.dialog.overlay_query, "\none\ntwo\nthree");
    press(&mut state, control('s'));
    assert_eq!(state.dialog.overlay, OverlayKind::Closed);
    assert_eq!(state.composer.prompt, "\none\ntwo\nthree");
}

#[test]
fn dashboards_are_walked_with_the_arrows() {
    let mut state = AppState::default();
    state.view = View::Dashboard;
    assert!(matches!(
        press(&mut state, key(KeyCode::Char('n'))).as_slice(),
        [Effect::Send(UiCommand::NewSession)]
    ));
}

#[test]
fn the_wheel_scrolls_the_transcript() {
    let mut state = fixtures::conversation();
    let here = screen(None);
    state.scroll.scroll_from_bottom = 0;
    state.handle_mouse(mouse(MouseKind::ScrollUp, 10, 10), &here);
    assert_eq!(state.scroll.scroll_from_bottom, 1);
    state.handle_mouse(mouse(MouseKind::ScrollDown, 10, 10), &here);
    assert_eq!(state.scroll.scroll_from_bottom, 0);
}

#[test]
fn a_press_on_the_directory_copies_it() {
    let mut state = AppState::default();
    state.header.cwd = "~/work/torii".into();
    state.pointer.header_targets = vec![Target {
        id: 0,
        start: 2,
        end: 12,
        row: 0,
    }];
    let (effect, _) =
        state.handle_mouse(mouse(MouseKind::Down { left: true }, 5, 0), &screen(None));
    assert!(matches!(effect, Effect::CopyDirectory(path) if path == "~/work/torii"));
    state.directory_copied(Ok(()));
    let copied = state.status.clone();
    state.directory_copied(Err("no display".into()));
    assert_ne!(state.status, copied);
    assert!(state.status.contains("no display"));
}

#[test]
fn hovering_a_block_is_seen_once() {
    let mut state = fixtures::conversation();
    let target = state.transcript.section_targets().remove(0);
    let here = screen(Some(target.copy()));
    let (_, first) = state.handle_mouse(mouse(MouseKind::Moved, 5, 5), &here);
    let (_, again) = state.handle_mouse(mouse(MouseKind::Moved, 6, 5), &here);
    assert!(first);
    assert!(!again);
    assert_eq!(state.transcript.hovered_target_id, Some(target.id));
}

#[test]
fn a_press_on_the_transcript_gives_it_the_focus() {
    let mut state = fixtures::conversation();
    state.scroll.transcript_rect = Some(Rect::new(0, 1, 100, 20));
    let target = state.transcript.section_targets().remove(0);
    state.handle_mouse(
        mouse(MouseKind::Down { left: true }, 5, 5),
        &screen(Some(target.copy())),
    );
    assert_eq!(state.focus, Focus::Scrollback);
    assert_eq!(state.transcript.focused_entry, Some(target.index));
}

#[test]
fn frames_are_drawn_when_they_are_due() {
    assert!(events::draw_due(false, true, Some(0)));
    assert!(!events::draw_due(false, false, Some(10_000)));
    assert!(events::draw_due(true, false, None));
    assert!(!events::draw_due(true, true, Some(32)));
    assert!(events::draw_due(true, false, Some(33)));
    assert_eq!(events::frame_wait(false, Some(5)), 3_600_000);
    assert_eq!(events::frame_wait(true, None), 0);
    assert_eq!(events::frame_wait(true, Some(13)), 20);
    assert_eq!(events::frame_wait(true, Some(50)), 0);
}

#[test]
fn waiting_makes_an_animated_frame_due() {
    let wait = events::frame_wait(true, Some(13));
    assert!(!events::draw_due(true, false, Some(13)));
    assert!(events::draw_due(true, false, Some(13 + wait)));
}

fn picture() -> ImageAttachment {
    ImageAttachment {
        id: 0,
        path: "/tmp/picture.png".into(),
        name: "picture.png".into(),
        width: 2,
        height: 3,
        mime_type: "image/png".into(),
        temporary: false,
        preview_width: 2,
        preview_height: 3,
        preview_rgba: vec![9; 24],
    }
}

#[test]
fn clipboard_contents_reach_the_draft() {
    let mut state = AppState::default();
    assert!(matches!(
        state.begin_clipboard_load(7, false),
        Effect::LoadClipboard
    ));
    assert_eq!(state.status, "reading clipboard…");
    assert!(matches!(state.begin_clipboard_load(8, false), Effect::Nothing));
    assert_eq!(state.status, "clipboard processing already in progress…");
    state.receive_clipboard(Ok(ClipboardPayload::Text("héllo".into())));
    assert_eq!(state.composer.prompt, "héllo");
    assert_eq!(state.status, "pasted 5 characters");
    assert_eq!(state.composer.image_processing_started_at, None);

    assert!(matches!(state.begin_clipboard_load(9, true), Effect::LoadImage));
    state.receive_clipboard(Ok(ClipboardPayload::Image(picture())));
    assert_eq!(state.composer.image_attachments.len(), 1);
    state.begin_clipboard_load(10, true);
    state.receive_clipboard(Err("empty".into()));
    assert_eq!(state.status, "clipboard unavailable: empty");
}

#[test]
fn pasted_text_goes_where_the_cursor_is() {
    let mut state = AppState::default();
    state.paste_clipboard_text(false, Ok("abc".into()));
    assert_eq!(state.composer.prompt, "abc");
    assert_eq!(state.status, "pasted 3 characters");
    state.paste_clipboard_text(false, Err("nothing".into()));
    assert_eq!(state.status, "clipboard text unavailable: nothing");
    state.handle_paste("\r\ndef".into());
    assert!(state.composer.prompt.ends_with("def"));
    let id = state.composer.paste_blocks[0].id;
    assert!(state.begin_paste_edit(id));
    state.paste_clipboard_text(true, Ok("!".into()));
    assert!(state.dialog.overlay_query.ends_with('!'));
}

#[test]
fn a_referenced_image_takes_the_place_of_its_mark() {
    let mut state = AppState::default();
    state.composer.prompt = "inspect @".into();
    state.composer.cursor = 9;
    state.open_overlay(OverlayKind::FilePicker);
    state.attach_referenced(picture());
    assert_eq!(state.composer.prompt, "inspect ");
    assert_eq!(state.composer.image_attachments.len(), 1);
    assert_eq!(
        (
            state.composer.image_attachments[0].width,
            state.composer.image_attachments[0].height
        ),
        (2, 3)
    );
}

#[test]
fn the_client_starts_on_the_dashboard() {
    let bootstrap = |open_resume| TuiBootstrap {
        models: vec![ModelInfo {
            id: "a/b".into(),
            display_name: "B".into(),
            context_window: None,
        }],
        auth_providers: Vec::new(),
        sessions: Vec::new(),
        files: vec!["README.md".into()],
        resources: RuntimeResources::default(),
        settings: RuntimeSettings::default(),
        open_resume,
    };
    let state = AppState::start(
        bootstrap(false),
        ThemeMode::Light,
        Some("~/work".into()),
        Some("main".into()),
    );
    assert_eq!(state.view, View::Dashboard);
    assert_eq!(state.model, "B");
    assert_eq!(state.theme_mode, ThemeMode::Light);
    assert_eq!(state.header.cwd, "~/work");
    assert_eq!(state.header.branch, "main");
    assert_eq!(state.dialog.overlay, OverlayKind::Closed);
    assert_eq!(state.permission_mode, PermissionMode::Normal);
    assert_eq!(state.thinking_level, "");
    let resumed = AppState::start(bootstrap(true), ThemeMode::Dark, None, None);
    assert_eq!(resumed.dialog.overlay, OverlayKind::SessionPicker);
}

#[test]
fn folding_twice_changes_nothing() {
    let mut state = fixtures::tools();
    let before: Vec<Option<bool>> =
        state.transcript.entries.iter().map(|entry| entry.expansion()).collect();
    for index in 0..state.transcript.entries.len() {
        state.transcript.toggle_entry_at(index);
        state.transcript.toggle_entry_at(index);
    }
    let after: Vec<Option<bool>> =
        state.transcript.entries.iter().map(|entry| entry.expansion()).collect();
    assert_eq!(before, after);
}

#[test]
fn closing_a_dialog_keeps_the_draft() {
    let mut state = AppState::default();
    state.insert_paste("kept".into());
    state.attach_image(picture());
    let id = state.composer.image_attachments[0].id;
    assert!(state.begin_image_view(id));
    state.close_overlay();
    assert_eq!(state.composer.prompt, "kept");
    assert_eq!(state.composer.paste_blocks.len(), 1);
    assert_eq!(state.composer.image_attachments.len(), 1);
}
