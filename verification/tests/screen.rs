use torii::fixtures;
use torii::fixtures::Story;
use torii::harness::ModelInfo;
use torii::harness::PermissionDecision;
use torii::harness::RuntimeCommand;
use torii::harness::RuntimeExtension;
use torii::harness::SessionInfo;
use torii::screen::View;
use torii::state::AppState;
use torii::state_types::Entry;
use torii::state_types::Focus;
use torii::state_types::ImageAttachment;
use torii::state_types::OverlayAction;
use torii::state_types::OverlayKind;
use torii::state_types::SectionTarget;
use torii::transcript::BlockKind;

fn set_prompt(state: &mut AppState, prompt: &str) {
    state.composer.prompt = prompt.into();
    state.composer.cursor = state.composer.prompt.chars().count();
}

fn model(id: &str, name: &str) -> ModelInfo {
    ModelInfo {
        id: id.into(),
        display_name: name.into(),
        context_window: None,
    }
}

fn expansions(state: &AppState, kind: BlockKind) -> Vec<bool> {
    state
        .transcript
        .entries
        .iter()
        .filter_map(|entry| match (entry, kind) {
            (Entry::Tool { expanded, .. }, BlockKind::Tool) => Some(*expanded),
            (Entry::Diff { expanded, .. }, BlockKind::Diff) => Some(*expanded),
            _ => None,
        })
        .collect()
}

#[test]
fn prompt_editor_handles_unicode_cursor_and_deletion() {
    let mut state = AppState::default();
    state.insert_char('a');
    state.insert_char('界');
    state.insert_char('b');
    state.composer.move_cursor_left();
    state.backspace();

    assert_eq!(state.composer.prompt, "ab");
    assert_eq!(state.composer.cursor, 1);

    state.delete();
    assert_eq!(state.composer.prompt, "a");
    assert_eq!(state.composer.cursor, 1);
}

#[test]
fn file_reference_picker_and_bash_prefixes_match_pi_input_semantics() {
    let mut state = AppState::default();
    state.composer.prompt = "inspect @".into();
    state.composer.cursor = 9;
    state.offers.available_files = vec!["src/main.rs".into(), "README.md".into()];
    state.open_overlay(OverlayKind::FilePicker);
    state.dialog.overlay_query = "main".into();
    assert_eq!(state.overlay_items(), vec!["src/main.rs"]);
    assert!(matches!(state.activate_overlay(), OverlayAction::Nothing));
    assert_eq!(state.composer.prompt, "inspect @src/main.rs ");

    set_prompt(&mut state, "! cargo test");
    assert_eq!(state.submit_bash(), Some(("cargo test".into(), false)));
    set_prompt(&mut state, "!! git status");
    assert_eq!(state.submit_bash(), Some(("git status".into(), true)));
}

#[test]
fn multiline_paste_is_inserted_inline_and_expands_on_submit() {
    let mut state = AppState::default();
    state.composer.prompt = "check this  some text".into();
    state.composer.cursor = 11;
    state.insert_paste("one\r\ntwo\rthree".into());
    assert_eq!(state.composer.prompt, "check this one\ntwo\nthree some text");
    assert_eq!(state.composer.paste_blocks.len(), 1);
    assert_eq!(
        state.composer.paste_blocks[0].end - state.composer.paste_blocks[0].start,
        13
    );
    state.delete();
    assert_eq!(state.composer.prompt, "check this  some text");
    assert!(state.composer.paste_blocks.is_empty());

    state.composer.cursor = 11;
    state.insert_paste("one\ntwo".into());
    assert_eq!(
        state.submit_prompt().as_deref(),
        Some("check this one\ntwo some text")
    );
    assert!(state.composer.prompt.is_empty());
    assert!(state.composer.paste_blocks.is_empty());
}

#[test]
fn paste_editor_opens_with_full_content_and_applies_multiline_changes() {
    let mut state = AppState::default();
    state.insert_paste("one\ntwo".into());
    let id = state.composer.paste_blocks[0].id;

    assert!(state.begin_paste_edit(id));
    assert_eq!(state.dialog.overlay, OverlayKind::PasteEditor);
    assert_eq!(state.dialog.overlay_query, "one\ntwo");
    state.move_paste_editor_cursor(-3);
    state.insert_paste_editor_text(" edited".into());
    assert!(matches!(state.activate_overlay(), OverlayAction::Nothing));

    assert_eq!(state.composer.prompt, "one\n editedtwo");
    assert_eq!(state.dialog.overlay, OverlayKind::Closed);
    assert_eq!(
        state.composer.paste_blocks[0].end,
        state.composer.prompt.chars().count()
    );
}

#[test]
fn paste_editor_cancel_preserves_original_content() {
    let mut state = AppState::default();
    state.insert_paste("original".into());
    let id = state.composer.paste_blocks[0].id;
    assert!(state.begin_paste_edit(id));
    state.dialog.overlay_query = "changed".into();

    assert!(matches!(state.cancel_oauth(), OverlayAction::Nothing));
    assert_eq!(state.composer.prompt, "original");
    assert_eq!(state.dialog.overlay, OverlayKind::Closed);
}

#[test]
fn editing_one_paste_keeps_later_paste_ranges_aligned() {
    let mut state = AppState::default();
    state.insert_paste("first".into());
    let first = state.composer.paste_blocks[0].id;
    state.insert_char(' ');
    state.insert_paste("second".into());
    let second = state.composer.paste_blocks[1].id;

    assert!(state.replace_paste(first, "a much longer first".into()));
    assert!(state.focus_paste(second));
    state.delete();

    assert_eq!(state.composer.prompt, "a much longer first ");
    assert_eq!(state.composer.paste_blocks.len(), 1);
}

#[test]
fn copied_file_uri_is_decoded_and_portrait_preview_keeps_aspect_ratio() {
    assert_eq!(
        torii::clipboard::percent_decode_path("/home/void/Pictures/flower%202.jpg"),
        Some("/home/void/Pictures/flower 2.jpg".into())
    );
    assert_eq!(
        torii::clipboard::percent_decode_path("/home/void/Pictures/flower2.jpg"),
        Some("/home/void/Pictures/flower2.jpg".into())
    );
    let pixels = vec![255; 1060 * 1500 * 4];
    let (width, height, _) = torii::images::image_preview(1060, 1500, &pixels);
    assert_eq!((width, height), (42, 60));
}

#[test]
fn clearing_paste_command_preserves_existing_attachments() {
    let mut state = AppState::default();
    state.attach_image(ImageAttachment {
        id: 0,
        path: "/tmp/first.png".into(),
        name: "first.png".into(),
        width: 1,
        height: 1,
        mime_type: "image/png".into(),
        temporary: true,
        preview_width: 1,
        preview_height: 1,
        preview_rgba: vec![255; 4],
    });
    set_prompt(&mut state, "/paste");

    state.clear_prompt_text();

    assert!(state.composer.prompt.is_empty());
    assert_eq!(state.composer.image_attachments.len(), 1);
    assert_eq!(state.composer.image_attachments[0].name, "first.png");
}

#[test]
fn submitting_and_recalling_prompt_history() {
    let mut state = AppState::default();
    for character in "first request".chars() {
        state.insert_char(character);
    }

    assert_eq!(state.submit_prompt().as_deref(), Some("first request"));
    assert!(state.composer.prompt.is_empty());

    state.previous_prompt();
    assert_eq!(state.composer.prompt, "first request");
    state.next_prompt();
    assert!(state.composer.prompt.is_empty());
}

#[test]
fn focus_and_permission_mode_cycle() {
    let mut state = AppState::default();
    assert_eq!(state.focus, Focus::Prompt);
    assert_eq!(state.permission_mode.label(), "normal");

    state.toggle_focus();
    state.cycle_permission_mode();
    assert_eq!(state.focus, Focus::Scrollback);
    assert_eq!(state.permission_mode.label(), "plan");
}

#[test]
fn enter_on_plain_transcript_block_opens_viewer() {
    let mut state = AppState::default();
    state.transcript.entries.push(Entry::Assistant {
        lines: vec!["inspect me".into()],
        timestamp: String::new(),
    });
    state.focus_scrollback();
    state.activate_entry_at(0);
    assert_eq!(state.view, View::BlockViewer);
    assert_eq!(state.transcript.viewed_entry, Some(0));
}

#[test]
fn scrollback_drag_tracks_pointer_distance_and_clamps() {
    let mut state = AppState::default();
    state.scroll.scroll_from_bottom = 4;
    state.scroll.begin_scrollback_drag(10);
    state.scroll.drag_scrollback_to(15, 20);
    assert_eq!(state.scroll.scroll_from_bottom, 9);
    state.scroll.drag_scrollback_to(2, 20);
    assert_eq!(state.scroll.scroll_from_bottom, 0);

    state.scroll.transcript_scrollbar_rect = Some(torii::geometry::Rect {
        x: 99,
        y: 2,
        width: 1,
        height: 10,
    });
    state.scroll.drag_scrollbar_to(2, 100);
    assert_eq!(state.scroll.scroll_from_bottom, 100);
    state.scroll.drag_scrollbar_to(11, 100);
    assert_eq!(state.scroll.scroll_from_bottom, 0);
}

#[test]
fn tool_and_diff_blocks_toggle_expansion() {
    let mut state = fixtures::tools();

    state.transcript.toggle_latest(BlockKind::Tool);
    match state
        .transcript
        .entries
        .iter()
        .rev()
        .find(|entry| matches!(entry, Entry::Tool { .. }))
    {
        Some(Entry::Tool { expanded, .. }) => assert!(!expanded),
        _ => panic!("expected tool entry"),
    }

    state.transcript.toggle_latest(BlockKind::Diff);
    match state
        .transcript
        .entries
        .iter()
        .rev()
        .find(|entry| matches!(entry, Entry::Diff { .. }))
    {
        Some(Entry::Diff { expanded, .. }) => assert!(!expanded),
        _ => panic!("expected diff entry"),
    }
}

#[test]
fn home_alias_opens_welcome_dashboard() {
    let mut state = fixtures::conversation();
    set_prompt(&mut state, "/home");
    state.activate_slash_command();
    assert_eq!(state.view, View::Dashboard);
}

#[test]
fn tool_and_diff_shortcuts_toggle_every_matching_entry() {
    let mut state = fixtures::tools();

    state.transcript.toggle_all_tools();
    assert!(expansions(&state, BlockKind::Tool).into_iter().all(|expanded| expanded));
    assert!(!state.transcript.expanded_tool_groups.is_empty());
    state.transcript.toggle_all_tools();
    assert!(expansions(&state, BlockKind::Tool).into_iter().all(|expanded| !expanded));
    assert!(state.transcript.expanded_tool_groups.is_empty());

    if let Some(Entry::Diff { expanded, .. }) = state
        .transcript
        .entries
        .iter_mut()
        .find(|entry| matches!(entry, Entry::Diff { .. }))
    {
        *expanded = false;
    }
    state.transcript.toggle_all_diffs();
    assert!(expansions(&state, BlockKind::Diff).into_iter().all(|expanded| expanded));
    state.transcript.toggle_all_diffs();
    assert!(expansions(&state, BlockKind::Diff).into_iter().all(|expanded| !expanded));
}

#[test]
fn scrollbar_thumb_is_dynamic_and_reaches_both_ends() {
    assert_eq!(torii::geometry::scrollbar_geometry(100, 25, 20, 0), Some((0, 5)));
    assert_eq!(torii::geometry::scrollbar_geometry(100, 25, 20, 75), Some((15, 5)));
    assert_eq!(torii::geometry::scrollbar_geometry(50, 25, 20, 0), Some((0, 10)));
    assert_eq!(torii::geometry::scrollbar_geometry(25, 25, 20, 0), None);
}

#[test]
fn section_focus_steps_entries_and_keeps_them_visible() {
    let mut state = fixtures::conversation();
    state.focus = Focus::Scrollback;
    state.move_section_focus(1);
    assert_eq!(state.transcript.focused_entry, Some(0));
    state.move_section_focus(1);
    assert_eq!(state.transcript.focused_entry, Some(1));
    state.move_section_focus(-1);
    assert_eq!(state.transcript.focused_entry, Some(0));
}

#[test]
fn unchanged_hover_target_does_not_request_another_frame() {
    let mut state = fixtures::tools();
    let target = || {
        Some(SectionTarget {
            index: 1,
            id: "tool:one".into(),
        })
    };
    assert!(state.transcript.set_hovered_transcript_target(target()));
    assert!(!state.transcript.set_hovered_transcript_target(target()));
    assert!(state.transcript.set_hovered_transcript_target(None));
    assert!(!state.transcript.set_hovered_transcript_target(None));
}

#[test]
fn expanded_tool_children_are_independent_focus_stops() {
    let mut state = fixtures::tools();
    state.transcript.toggle_tool_group(1);
    state.transcript.focused_section = None;
    let mut visited = Vec::new();
    for _ in 0..8 {
        state.move_section_focus(1);
        visited.push(state.transcript.focused_entry);
    }
    assert!(visited.contains(&Some(2)), "visited: {visited:?}");
    assert!(visited.contains(&Some(3)), "visited: {visited:?}");
}

#[test]
fn activating_scrollback_never_focuses_a_hidden_group_child() {
    let mut state = fixtures::tools();
    state.transcript.entries.truncate(4);
    state.focus = Focus::Prompt;
    state.transcript.focused_entry = None;
    state.transcript.focused_target_id = None;

    state.enter_transcript();

    assert_eq!(state.focus, Focus::Scrollback);
    assert_eq!(state.transcript.focused_entry, Some(1));
    assert_eq!(
        state.transcript.focused_target_id.as_deref(),
        Some("tool-group:tool-test")
    );
}

#[test]
fn command_palette_filters_and_opens_selected_action() {
    let mut state = fixtures::markdown();
    state.composer.prompt = "draft stays here".into();
    state.open_overlay(OverlayKind::CommandPalette);
    for character in "sett".chars() {
        state.insert_overlay_char(character);
    }

    assert_eq!(
        state.overlay_items(),
        vec![
            "Settings  ·  F2  ·  Open Torii settings",
            "/settings  ·  Open settings"
        ]
    );
    assert!(matches!(state.activate_overlay(), OverlayAction::Nothing));
    assert_eq!(state.dialog.overlay, OverlayKind::Settings);
    assert_eq!(state.composer.prompt, "draft stays here");

    state.open_overlay(OverlayKind::CommandPalette);
    state.dialog.overlay_query = "settings".into();
    state.dialog.overlay_selected = 1;
    state.activate_overlay();
    assert_eq!(state.composer.prompt, "/settings ");
    assert_eq!(state.dialog.overlay, OverlayKind::Closed);
}

#[test]
fn permission_overlay_returns_a_harness_decision() {
    let mut state = Story::Permission.state();
    state.dialog.overlay_selected = 2;

    assert!(matches!(
        state.activate_overlay(),
        OverlayAction::Permission {
            request_id,
            decision: PermissionDecision::Deny,
        } if request_id == "permission-1"
    ));
    assert_eq!(state.dialog.overlay, OverlayKind::Closed);
}

#[test]
fn model_picker_returns_the_backend_model_id() {
    let mut state = AppState::default();
    state.offers.available_models = vec![
        model("opencode-go/glm-5.2", "GLM-5.2"),
        model("opencode-go/minimax-m3", "MiniMax-M3"),
    ];
    state.open_overlay(OverlayKind::ModelPicker);
    state.dialog.overlay_selected = 1;

    assert!(matches!(
        state.activate_overlay(),
        OverlayAction::SetModel { id } if id == "opencode-go/minimax-m3"
    ));
    assert_eq!(state.model, "MiniMax-M3");
}

#[test]
fn session_picker_supports_pi_management_controls() {
    let mut state = AppState::default();
    state.sessions.available_sessions = vec![
        SessionInfo {
            id: "one".into(),
            path: "/sessions/one.jsonl".into(),
            name: Some("Named session".into()),
            first_message: "first".into(),
            modified_at_ms: 1_752_220_600_000,
            message_count: 12,
            current: true,
            cwd: "/work".into(),
            parent_session_path: None,
        },
        SessionInfo {
            id: "two".into(),
            path: "/sessions/two.jsonl".into(),
            name: None,
            first_message: "second".into(),
            modified_at_ms: 1_752_215_200_000,
            message_count: 4,
            current: false,
            cwd: "/work".into(),
            parent_session_path: Some("/sessions/one.jsonl".into()),
        },
    ];
    state.open_overlay(OverlayKind::SessionPicker);

    state.toggle_session_paths();
    assert!(state.overlay_items()[0].contains("/sessions/one.jsonl"));
    state.cycle_session_sort();
    assert_eq!(state.sessions.session_sort.label(), "Recent");
    state.toggle_named_sessions();
    assert_eq!(state.overlay_items().len(), 1);
    state.toggle_named_sessions();

    state.dialog.overlay_selected = 1;
    state.begin_session_rename();
    assert_eq!(state.dialog.overlay, OverlayKind::SessionRename);
    state.dialog.overlay_query = "Renamed child".into();
    assert!(matches!(
        state.activate_overlay(),
        OverlayAction::RenameSession { target, name }
            if target == "/sessions/two.jsonl" && name == "Renamed child"
    ));

    state.dialog.overlay_selected = 1;
    state.begin_session_delete();
    assert_eq!(state.dialog.overlay, OverlayKind::SessionDeleteConfirm);
    assert!(matches!(
        state.activate_overlay(),
        OverlayAction::DeleteSession { target } if target == "/sessions/two.jsonl"
    ));

    state.dialog.overlay_selected = 0;
    state.begin_session_delete();
    assert_eq!(state.dialog.overlay, OverlayKind::SessionPicker);
    assert!(state.status.contains("active session"));
}

#[test]
fn dashboard_delete_requires_confirmation_and_refuses_active_session() {
    let mut state = AppState::default();
    state.view = View::Dashboard;
    state.sessions.available_sessions = vec![
        SessionInfo {
            id: "active".into(),
            path: "/sessions/active.jsonl".into(),
            name: Some("Active".into()),
            first_message: "active".into(),
            modified_at_ms: 0,
            message_count: 1,
            current: true,
            cwd: "/work".into(),
            parent_session_path: None,
        },
        SessionInfo {
            id: "old".into(),
            path: "/sessions/old.jsonl".into(),
            name: Some("Old".into()),
            first_message: "old".into(),
            modified_at_ms: 0,
            message_count: 1,
            current: false,
            cwd: "/work".into(),
            parent_session_path: None,
        },
    ];

    state.begin_dashboard_delete();
    assert_eq!(state.dialog.overlay, OverlayKind::Closed);
    assert!(state.status.contains("active session"));

    state.sessions.dashboard_selected = 1;
    state.begin_dashboard_delete();
    assert_eq!(state.dialog.overlay, OverlayKind::SessionDeleteConfirm);
    assert!(matches!(
        state.activate_overlay(),
        OverlayAction::DeleteSession { target } if target == "/sessions/old.jsonl"
    ));
    assert_eq!(state.dialog.overlay, OverlayKind::Closed);
    assert_eq!(state.view, View::Dashboard);
}

#[test]
fn slash_commands_complete_and_activate_locally() {
    let mut state = AppState::default();
    state.composer.prompt = "/mo".into();
    state.composer.cursor = 3;

    assert!(state.complete_slash_command());
    assert_eq!(state.composer.prompt, "/model");
    assert!(matches!(
        state.activate_slash_command(),
        Some(OverlayAction::Nothing)
    ));
    assert_eq!(state.dialog.overlay, OverlayKind::ModelPicker);
    assert!(state.composer.prompt.is_empty());

    set_prompt(&mut state, "/pa");
    let paste = state.slash_suggestions();
    assert!(paste.iter().any(|suggestion| {
        suggestion.name == "/paste"
            && suggestion.description.contains("text or attach an image")
    }));
    assert!(!paste.iter().any(|suggestion| suggestion.name == "/paste-image"));

    set_prompt(&mut state, "/dashboard");
    assert!(matches!(
        state.activate_slash_command(),
        Some(OverlayAction::RefreshSessions)
    ));
    assert_eq!(state.view, View::Dashboard);

    set_prompt(&mut state, "/workflow implement-review Fix the resume bug");
    assert!(matches!(
        state.activate_slash_command(),
        Some(OverlayAction::StartWorkflow { workflow, input, .. })
            if workflow == "implement-review" && input == "Fix the resume bug"
    ));

    set_prompt(
        &mut state,
        "/workflow review --params {\"target\":\"src\",\"depth\":2} -- Inspect the patch",
    );
    assert!(matches!(
        state.activate_slash_command(),
        Some(OverlayAction::Nothing)
    ));

    set_prompt(&mut state, "/workflow");
    assert!(matches!(
        state.activate_slash_command(),
        Some(OverlayAction::LoadWorkflowCatalog)
    ));
    assert!(state.composer.prompt.is_empty());

    state.composer.prompt = "/mode".into();
    state.composer.cursor = 5;
    let previous = state.permission_mode.label();
    assert!(state.activate_slash_command().is_some());
    assert_ne!(state.permission_mode.label(), previous);

    state.composer.prompt = "/name API migration".into();
    assert!(matches!(
        state.activate_slash_command(),
        Some(OverlayAction::NameSession(name)) if name == "API migration"
    ));
    state.composer.prompt = "/compact preserve test failures".into();
    assert!(matches!(
        state.activate_slash_command(),
        Some(OverlayAction::Compact(Some(instructions)))
            if instructions == "preserve test failures"
    ));

    for (command, usage) in [
        ("/name", "Usage: /name <session name>"),
        ("/import", "Usage: /import <session.jsonl>"),
    ] {
        state.composer.prompt = command.into();
        assert!(matches!(
            state.activate_slash_command(),
            Some(OverlayAction::Nothing)
        ));
        assert!(state.composer.prompt.is_empty());
        assert!(matches!(
            state.transcript.entries.last(),
            Some(Entry::Assistant { lines, .. }) if lines == &vec![usage.to_string()]
        ));
    }

    state.offers.available_auth_providers =
        vec![model("openai", "OpenAI"), model("anthropic", "Anthropic")];
    state.composer.prompt = "/login".into();
    assert!(state.activate_slash_command().is_some());
    assert_eq!(state.dialog.overlay, OverlayKind::LoginProvider);
    for character in "anth".chars() {
        state.insert_overlay_char(character);
    }
    assert_eq!(state.overlay_items(), vec!["Anthropic"]);
    assert!(matches!(
        state.activate_overlay(),
        OverlayAction::BeginOauth(provider) if provider == "anthropic"
    ));
}

#[test]
fn pi_runtime_commands_and_context_files_feed_completion() {
    let mut state = AppState::default();
    state.composer.prompt = "/dep".into();
    state.composer.cursor = 4;
    state.offers.runtime_commands = vec![RuntimeCommand {
        name: "/deploy".into(),
        description: "Deploy preview".into(),
        source: "extension".into(),
    }];
    state.offers.context_files = vec!["/project/AGENTS.md".into()];
    assert!(state.complete_slash_command());
    assert_eq!(state.composer.prompt, "/deploy");

    set_prompt(&mut state, "/context");
    assert!(state.activate_slash_command().is_some());
    assert!(matches!(
        state.transcript.entries.last(),
        Some(Entry::Assistant { lines, .. }) if lines.iter().any(|line| line.contains("AGENTS.md"))
    ));

    set_prompt(&mut state, "/reload");
    assert!(matches!(
        state.activate_slash_command(),
        Some(OverlayAction::ReloadResources)
    ));
}

#[test]
fn pi_extensions_menu_reports_and_toggles_resolved_sdk_extensions() {
    let mut state = AppState::default();
    state.offers.runtime_extensions = vec![
        RuntimeExtension {
            path: "/home/user/.pi/agent/extensions/review.ts".into(),
            label: "review.ts".into(),
            source: "local".into(),
            scope: "user".into(),
            enabled: true,
            loaded: true,
        },
        RuntimeExtension {
            path: "/project/.pi/extensions/legacy.ts".into(),
            label: "legacy.ts".into(),
            source: "local".into(),
            scope: "project".into(),
            enabled: false,
            loaded: false,
        },
    ];
    state.open_overlay(OverlayKind::Settings);
    state.dialog.overlay_selected = 5;
    assert!(matches!(state.activate_overlay(), OverlayAction::Nothing));
    assert_eq!(state.dialog.overlay, OverlayKind::Extensions);
    assert_eq!(
        state.overlay_items(),
        vec!["[✓] review.ts", "[ ] legacy.ts"]
    );

    assert!(matches!(
        state.activate_overlay(),
        OverlayAction::SetExtensionEnabled { path, enabled }
            if path.ends_with("review.ts") && !enabled
    ));
    assert!(state.offers.runtime_extensions[0].enabled);
}

#[test]
fn scrolling_clamps_and_returns_to_tail_following() {
    let mut state = fixtures::conversation();
    let max_scroll = 24;

    state.scroll.scroll_to_bottom();
    assert_eq!(state.scroll.scroll_from_bottom, 0);

    state.scroll.scroll_up(usize::MAX, max_scroll);
    assert_eq!(state.scroll.scroll_from_bottom, max_scroll);

    state.scroll.scroll_down(1);
    assert_eq!(state.scroll.scroll_from_bottom, max_scroll.saturating_sub(1));

    state.scroll.scroll_to_bottom();
    assert_eq!(state.scroll.scroll_from_bottom, 0);
}

#[test]
fn session_age_uses_relative_units_without_leaking_wire_dates() {
    let now = 2_000_000_000;
    assert_eq!(torii::state_types::format_session_age(now, now), "now");
    assert_eq!(
        torii::state_types::format_session_age(now - 5 * 60_000, now),
        "5m ago"
    );
    assert_eq!(
        torii::state_types::format_session_age(now - 3 * 3_600_000, now),
        "3h ago"
    );
    assert_eq!(
        torii::state_types::format_session_age(now - 2 * 86_400_000, now),
        "2d ago"
    );
}

#[test]
fn paste_editor_navigates_visual_rows_and_clicks_to_position() {
    let mut state = AppState::default();
    state.insert_paste("abcd\nx".into());
    let id = state.composer.paste_blocks[0].id;
    assert!(state.begin_paste_edit(id));
    state.lay_out_editor(torii::geometry::Rect {
        x: 0,
        y: 0,
        width: 60,
        height: 20,
    });

    state.move_paste_editor_vertical(-1);
    assert_eq!(state.dialog.overlay_cursor, 1);
    state.move_paste_editor_line_edge(true);
    assert_eq!(state.dialog.overlay_cursor, 4);

    let target = state
        .editor
        .paste_editor_targets
        .iter()
        .find(|cell| cell.offset == 0)
        .copied()
        .unwrap();
    assert!(state.click_paste_editor(target.column, target.row));
    assert_eq!(state.dialog.overlay_cursor, 0);
}

#[test]
fn images_are_sent_with_the_message() {
    let mut state = AppState::default();
    state.attach_image(ImageAttachment {
        id: 0,
        path: "/tmp/screenshot.png".into(),
        name: "a-very-long-screenshot-filename.png".into(),
        width: 1280,
        height: 720,
        mime_type: "image/png".into(),
        temporary: true,
        preview_width: 2,
        preview_height: 2,
        preview_rgba: vec![255; 16],
    });
    let id = state.composer.image_attachments[0].id;
    assert!(state.begin_image_view(id));
    assert!(torii::images::image_caption(&state.composer.image_attachments[0]).contains("1280×720"));
    state.close_overlay();

    let (text, images) = state.submit_message().unwrap();
    assert!(text.is_empty());
    assert_eq!(images.len(), 1);
    assert_eq!(images[0].path, "/tmp/screenshot.png");
    assert!(state.composer.image_attachments.is_empty());
}

#[test]
fn section_hits_respect_horizontal_and_dynamic_banner_bounds() {
    let mut state = fixtures::tools();
    state.transcript.turn_started_at = Some(1_000);
    let heights: Vec<u16> = vec![3; state.transcript.section_targets().len()];
    assert!(torii::hits::section_hit_at(&state, &heights, 100, 32, 0, 7).is_none());
    let hit = (2..24)
        .find_map(|row| torii::hits::section_hit_at(&state, &heights, 100, 32, 5, row));
    assert!(hit.is_some());
}

#[test]
fn rows_hit_exactly_after_scrolling() {
    let mut state = fixtures::long_session(120);
    let targets = state.transcript.section_targets();
    let heights: Vec<u16> = (0..targets.len()).map(|place| 1 + (place % 3) as u16).collect();
    let owners: Vec<usize> = heights
        .iter()
        .enumerate()
        .flat_map(|(place, rows)| vec![place; usize::from(*rows)])
        .collect();
    let (width, height) = (100, 24);
    let area = torii::agent_layout::AgentLayout::compute(
        torii::geometry::Rect::new(0, 0, width, height),
        &state,
    )
    .scrollback;
    let visible = usize::from(area.height);
    let last = torii::hits::max_scroll(&heights, visible);
    assert_eq!(last, owners.len() - visible);
    for from_bottom in [0, last / 2, last, last + 5] {
        state.scroll.scroll_from_bottom = from_bottom;
        let first = last - from_bottom.min(last);
        for offset in 0..visible {
            let hit = torii::hits::section_hit_at(
                &state,
                &heights,
                width,
                height,
                6,
                area.y + offset as u16,
            );
            assert_eq!(
                hit.map(|target| target.id),
                Some(targets[owners[first + offset]].id.clone())
            );
        }
    }
    assert_eq!(torii::hits::block_at(&vec![2, 0, 1], 2), Some(2));
    assert_eq!(torii::hits::block_at(&vec![2, 0, 1], 3), None);
}
