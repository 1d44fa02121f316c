use torii::fixtures;
use torii::fixtures::Story;
use torii::geometry::Rect;
use torii::harness::AgentEvent;
use torii::harness::ModelInfo;
use torii::harness::RuntimeCommand;
use torii::harness::SessionInfo;
use torii::harness::SessionTreeEntry;
use torii::incoming::Arrival;
use torii::markdown;
use torii::overlay;
use torii::picker;
use torii::picker::PickerSpec;
use torii::prompt;
use torii::screen::View;
use torii::state::AppState;
use torii::state_types::Entry;
use torii::state_types::OverlayAction;
use torii::state_types::OverlayKind;
use torii::state_types::ThemeMode;
use torii::tree;
use torii::tree::TreeTopology;

fn apply(state: &mut AppState, event: AgentEvent) {
    let at = Arrival {
        now: 1_000,
        clock: "12:00 PM".into(),
    };
    state.apply(event, &at);
}

fn model(id: &str, name: &str) -> ModelInfo {
    ModelInfo {
        id: id.into(),
        display_name: name.into(),
        context_window: None,
    }
}

/// The rows of the screen that an open picker covers, as text.
fn picker_rows(state: &AppState, width: u16, height: u16) -> Vec<(u16, String)> {
    let data = overlay::generic_picker_data(state);
    let query = overlay::display_query(state);
    let spec = PickerSpec {
        title: data.title,
        query: data.query_label.map(|label| (label, query.as_str())),
        notes: &data.notes,
        rows: &data.rows,
        footer: data.footer,
        max_width: data.max_width,
        max_height: data.max_height,
    };
    let selected = state.dialog.overlay_selected;
    let layout = picker::layout(Rect::new(0, 0, width, height), &spec, selected);
    let mut out = vec![(layout.modal.y, data.title.to_string())];
    let visible = &data.rows[layout.visible_start..layout.visible_end];
    let labels = picker::label_columns(visible, layout.rows.width);
    for (offset, row) in visible.iter().enumerate() {
        let words = if row.header {
            row.label.clone()
        } else {
            let here = row.item_index == Some(selected);
            let texts = picker::row_texts(row, here, labels, layout.rows.width);
            format!(
                "{}{}{}{}",
                texts.left,
                texts.description,
                " ".repeat(texts.gap),
                texts.suffix
            )
        };
        out.push((layout.rows.y + offset as u16, words));
    }
    out.push((
        layout.modal.bottom() - 2,
        picker::footer_text(data.footer, &data.rows, selected),
    ));
    out
}

fn picker_text(state: &AppState, width: u16, height: u16) -> String {
    picker_rows(state, width, height)
        .into_iter()
        .map(|(_, words)| words + "\n")
        .collect()
}

/// The suggestions for the draft, as text.
fn suggestion_text(state: &AppState, width: u16, height: u16) -> String {
    let Some((area, start, end)) =
        overlay::slash_suggestion_area(state, Rect::new(0, 0, width, height))
    else {
        return String::new();
    };
    let list = state.slash_suggestions();
    let names = overlay::suggestion_columns(&list, start, end, area.width);
    (start..end)
        .map(|index| {
            let selected = index == state.dialog.overlay_selected;
            let (name, words) =
                overlay::suggestion_row(&list[index], selected, names, area.width);
            format!("{name}{words}\n")
        })
        .collect()
}

#[test]
fn model_picker_marks_the_current_model() {
    let (width, height) = (100, 32);
    let mut state = AppState::default();
    state.model = "MiniMax-M3".into();
    state.offers.available_models = vec![
        model("opencode-go/glm-5.2", "GLM-5.2"),
        model("opencode-go/minimax-m3", "MiniMax-M3"),
    ];
    state.open_overlay(OverlayKind::ModelPicker);

    let output = picker_text(&state, width, height);
    let current = output
        .lines()
        .find(|line| line.contains("MiniMax-M3"))
        .expect("current model row");
    let other = output
        .lines()
        .find(|line| line.contains("GLM-5.2"))
        .expect("other model row");
    assert!(current.contains("✓ current"));
    assert!(!other.contains("✓ current"));
}

#[test]
fn long_model_picker_follows_selection_and_hover_uses_visible_rows() {
    let (width, height) = (100, 24);
    let mut state = AppState::default();
    state.offers.available_models = (0..30)
        .map(|index| {
            model(
                &format!("provider-{}/model-{index:02}", index / 10),
                &format!("Model {index:02}"),
            )
        })
        .collect();
    state.open_overlay(OverlayKind::ModelPicker);
    state.dialog.overlay_selected = 25;

    let output = picker_text(&state, width, height);
    assert!(
        output.contains("Model 25"),
        "selected model must stay visible: {output}"
    );
    assert!(
        !output.contains("Model 00"),
        "viewport should follow selection: {output}"
    );
    let selected_row = picker_rows(&state, width, height)
        .into_iter()
        .find(|(_, words)| words.contains("Model 25"))
        .unwrap()
        .0;
    assert_eq!(
        overlay::item_at_position(&state, width, height, width / 2, selected_row),
        Some(25)
    );
    assert_eq!(
        overlay::item_at_position(&state, width, height, 0, selected_row),
        None,
        "hover outside the modal must not select a row"
    );
}

#[test]
fn subagent_model_picker_filters_by_provider_and_groups_provider_rows() {
    let (width, height) = (100, 24);
    let mut state = AppState::default();
    state.offers.available_models = vec![
        model("zeta/model-b", "Shared B"),
        model("alpha/model-a", "Shared A"),
        model("alpha/model-c", "Shared C"),
    ];
    state.open_overlay(OverlayKind::SubagentModelPicker);
    for character in "alpha".chars() {
        state.insert_overlay_char(character);
    }

    assert_eq!(state.overlay_items(), vec!["Shared A", "Shared C"]);
    let output = picker_text(&state, width, height);
    let a = output.find("Shared A  alpha").unwrap();
    let c = output.find("Shared C  alpha").unwrap();
    assert!(
        a < c,
        "models should be grouped and sorted by provider: {output}"
    );
    assert!(!output.contains("Shared B"));
}

#[test]
fn session_picker_filters_marks_current_and_returns_path() {
    let (width, height) = (110, 32);
    let mut state = AppState::default();
    state.sessions.available_sessions = vec![
        SessionInfo {
            id: "one".into(),
            path: "/sessions/one.jsonl".into(),
            name: Some("DeepSeek subagent exploration".into()),
            first_message: "explore the codebase".into(),
            modified_at_ms: 1_752_220_600_000,
            message_count: 12,
            current: true,
            cwd: "/work/pi-shell".into(),
            parent_session_path: None,
        },
        SessionInfo {
            id: "two".into(),
            path: "/sessions/two.jsonl".into(),
            name: None,
            first_message: "Fix the model picker".into(),
            modified_at_ms: 1_752_215_200_000,
            message_count: 4,
            current: false,
            cwd: "/work/pi-shell".into(),
            parent_session_path: Some("/sessions/one.jsonl".into()),
        },
    ];
    state.open_overlay(OverlayKind::SessionPicker);
    let output = picker_text(&state, width, height);
    assert!(output.contains("Resume session"));
    assert!(output.contains("DeepSeek subagent"));
    assert!(output.contains("✓ current"));
    assert!(output.contains("Ctrl+S sort"));

    for character in "model".chars() {
        state.insert_overlay_char(character);
    }
    assert_eq!(state.overlay_items().len(), 1);
    assert!(matches!(
        state.activate_overlay(),
        OverlayAction::ResumeSession { target } if target == "/sessions/two.jsonl"
    ));
    assert!(state.sessions.available_sessions[1].current);
    assert_eq!(state.view, View::Transcript);
}

#[test]
fn overlay_and_slash_suggestions_render() {
    let (width, height) = (100, 32);
    let state = Story::Palette.state();
    let palette = picker_text(&state, width, height);
    assert!(palette.contains("Commands"));
    assert!(palette.contains("Model picker"));

    let mut slash = AppState::default();
    slash.composer.prompt = "/mo".into();
    slash.composer.cursor = 3;
    let suggestions = suggestion_text(&slash, width, height);
    assert!(suggestions.contains("/model"));
    assert!(suggestions.contains("Switch model"));

    let mut many = AppState::default();
    many.composer.prompt = "/".into();
    many.composer.cursor = 1;
    many.offers.runtime_commands = (0..20)
        .map(|index| RuntimeCommand {
            name: format!("/command-{index:02}"),
            description: format!("Runtime command {index}"),
            source: "test".into(),
        })
        .collect();
    many.dialog.overlay_selected = many
        .slash_suggestions()
        .iter()
        .position(|suggestion| suggestion.name == "/command-15")
        .unwrap();
    let output = suggestion_text(&many, width, height);
    assert!(output.contains("/command-15"));
    assert!(!output.contains("/command-00"));
}

#[test]
fn slash_completion_works_at_cursor_inside_a_prompt_and_valid_tokens_are_colored() {
    let mut state = AppState::default();
    state.composer.prompt = "please /mo then continue".into();
    state.composer.cursor = 10;
    assert!(state.complete_slash_command());
    assert_eq!(state.composer.prompt, "please /model then continue");
    assert_eq!(state.composer.cursor, 13);
    assert!(state.is_valid_slash_command("/model"));

    let mut executable = AppState::default();
    executable.composer.prompt = "something /model".into();
    executable.composer.cursor = 16;
    assert!(matches!(
        executable.activate_slash_command(),
        Some(OverlayAction::Nothing)
    ));
    assert_eq!(executable.dialog.overlay, OverlayKind::ModelPicker);
    assert!(executable.composer.prompt.is_empty());

    assert!(state.is_valid_slash_command("/model"));
    assert!(!state.is_valid_slash_command("/modeling"));

    let shown = prompt::layout(&state.composer.prompt, state.composer.cursor, 96);
    assert!(shown
        .lines
        .iter()
        .any(|line| line.contains("please /model then continue")));
}

fn tree_entry(id: &str, parent: Option<&str>, role: &str, text: &str) -> SessionTreeEntry {
    SessionTreeEntry {
        id: id.into(),
        parent_id: parent.map(String::from),
        kind: "message".into(),
        role: Some(role.into()),
        text: text.into(),
        timestamp: "2026-07-11T00:00:00Z".into(),
        label: None,
        label_timestamp: None,
        depth: 0,
        active: true,
    }
}

fn labelled_tree() -> Vec<SessionTreeEntry> {
    let mut entries = vec![
        tree_entry("root", None, "user", "start here"),
        tree_entry("answer", Some("root"), "assistant", "choose an approach"),
        tree_entry("branch-a", Some("answer"), "user", "active approach"),
        tree_entry("branch-b", Some("answer"), "user", "abandoned approach"),
    ];
    entries[2].label = Some("checkpoint".into());
    entries[2].label_timestamp = Some("2026-07-11T01:00:00Z".into());
    entries[3].active = false;
    entries
}

/// The rows of the screen that the tree covers, as text.
fn tree_rows(state: &AppState, width: u16, height: u16) -> Vec<(u16, String)> {
    let places = state.tree.filtered(&state.dialog.overlay_query);
    let selected = state.dialog.overlay_selected;
    let (area, start, end) =
        overlay::tree_picker_geometry(Rect::new(0, 0, width, height), selected, places.len());
    let topology = TreeTopology::new(&places, &state.tree.session_tree);
    (start..end.min(places.len()))
        .map(|row| {
            let entry = &state.tree.session_tree[places[row]];
            let spans = tree::tree_row(
                entry,
                &topology,
                row,
                row == selected,
                false,
                state.tree.tree_folded.contains(&entry.id),
                state.tree.tree_show_timestamps,
            );
            let words = spans.into_iter().map(|span| span.text).collect::<String>();
            (area.y + 4 + (row - start) as u16, words)
        })
        .collect()
}

#[test]
fn tree_picker_renders_pi_topology_active_path_and_label_time() {
    let mut state = AppState::default();
    apply(
        &mut state,
        AgentEvent::SessionTree {
            entries: labelled_tree(),
            user_only: false,
        },
    );
    state.toggle_tree_timestamps();

    let (width, height) = (120, 32);
    assert_eq!(overlay::dialog_title(state.dialog.overlay), "Session Tree");
    assert!(overlay::dialog_hint(state.dialog.overlay).contains("Ctrl+←/→ fold/jump"));
    let rows = tree_rows(&state, width, height);
    let output: String = rows.iter().map(|(_, words)| words.clone() + "\n").collect();
    assert!(
        output.contains("├─ • [checkpoint] 07-11 01:00 user: active approach"),
        "{output}"
    );
    assert!(output.contains("└─ user: abandoned approach"));
    let selected_row = rows
        .iter()
        .find(|(_, words)| words.contains('›') && words.contains("active approach"))
        .unwrap()
        .0;
    assert_eq!(overlay::item_at(&state, width, height, selected_row), Some(2));
}

#[test]
fn fork_picker_is_a_dedicated_latest_user_message_selector() {
    let mut state = AppState::default();
    let entries = labelled_tree()
        .into_iter()
        .filter(|entry| entry.role.as_deref() == Some("user"))
        .collect();
    apply(
        &mut state,
        AgentEvent::SessionTree {
            entries,
            user_only: true,
        },
    );

    let (width, height) = (120, 32);
    assert_eq!(overlay::dialog_title(state.dialog.overlay), "Fork from Message");
    let places = state.tree.filtered("");
    let selected = state.dialog.overlay_selected;
    let (area, start, end) =
        overlay::fork_picker_geometry(Rect::new(0, 0, width, height), selected, places.len());
    let rows: Vec<(u16, String, String)> = (start..end)
        .map(|row| {
            let entry = &state.tree.session_tree[places[row]];
            let (first, second) =
                overlay::fork_row(&entry.text, row, places.len(), row == selected);
            (area.y + 3 + 3 * (row - start) as u16, first, second)
        })
        .collect();
    assert!(rows.iter().any(|(_, _, second)| second.contains("Message 3 of 3")));
    assert!(rows.iter().all(|(_, first, second)| {
        !first.contains("Filter:") && !second.contains("Filter:")
    }));
    let selected_row = rows
        .iter()
        .find(|(_, first, _)| first.contains('›') && first.contains("abandoned approach"))
        .unwrap()
        .0;
    assert_eq!(overlay::item_at(&state, width, height, selected_row), Some(2));
    assert!(matches!(
        state.activate_overlay(),
        OverlayAction::ForkSession { entry_id } if entry_id == "branch-b"
    ));
}

#[test]
fn settings_list_the_theme_that_is_set() {
    let mut state = AppState::default();
    state.open_overlay(OverlayKind::Settings);
    state.dialog.overlay_selected = 8;
    assert!(matches!(
        state.activate_overlay(),
        OverlayAction::SetTheme(ThemeMode::Light)
    ));
    let output = picker_text(&state, 100, 30);
    assert!(output.contains("Theme"));
    assert!(output.contains("light"));
}

#[test]
fn markdown_story_renders_structured_code_and_styles() {
    let state = fixtures::markdown();
    let mut output = String::new();
    let mut on_code = false;
    for entry in &state.transcript.entries {
        if let Entry::Assistant { lines, .. } = entry {
            for line in markdown::render(lines, 98) {
                output.push_str(&line.words());
                output.push('\n');
                on_code = on_code || line.spans.iter().any(|span| span.face.on_code);
            }
        }
    }
    assert!(output.contains("Renderer design"));
    assert!(output.contains("fn render(entry: &Entry)"));
    assert!(on_code);
}

fn agent(id: &str, description: &str, started_at_ms: u64) -> torii::harness::SubagentTask {
    torii::harness::SubagentTask {
        task_id: id.into(),
        parent_session_id: "parent".into(),
        child_session_id: Some(format!("child-{id}")),
        child_session_path: None,
        description: description.into(),
        subagent_type: "executor".into(),
        capability_mode: "execute".into(),
        isolation: "none".into(),
        background: true,
        status: "running".into(),
        activity: "read C:/Users/nier/Documents/orces/torii/docs/workflows.md".into(),
        started_at_ms,
        completed_at_ms: None,
        duration_ms: 20,
        output: None,
        error: None,
        failure_kind: None,
        model: Some("openai/gpt-test".into()),
        thinking_level: Some("high".into()),
        worktree_path: None,
        cwd: None,
        workflow_run_id: None,
    }
}

#[test]
fn orchestration_cohort_survives_reasoning_and_internal_polling() {
    let mut state = AppState::default();
    state.header.cwd = "C:/Users/nier/Documents/orces/torii".into();
    apply(
        &mut state,
        AgentEvent::UserMessage {
            text: "Orchestrate. Objective: Analyze this codebase".into(),
        },
    );
    apply(
        &mut state,
        AgentEvent::ReasoningDelta {
            text: "planning delegation".into(),
        },
    );
    apply(
        &mut state,
        AgentEvent::SubagentUpdate {
            task: Box::new(agent("planner", "Architecture planner", 1)),
        },
    );
    apply(
        &mut state,
        AgentEvent::ReasoningDelta {
            text: "delegating execution".into(),
        },
    );
    apply(
        &mut state,
        AgentEvent::ToolCallStart {
            id: "poll".into(),
            name: "Get_command_or_subagent_output".into(),
            args: "{\"task_id\":\"executor\"}".into(),
        },
    );
    apply(
        &mut state,
        AgentEvent::SubagentUpdate {
            task: Box::new(agent("executor", "Analysis executor", 2)),
        },
    );
    let agents: Vec<usize> = state
        .transcript
        .entries
        .iter()
        .enumerate()
        .filter(|(_, entry)| matches!(entry, Entry::Tool { id, .. } if id.starts_with("subagent:")))
        .map(|(index, _)| index)
        .collect();
    assert_eq!(agents.len(), 2);
    assert_eq!(agents[1], agents[0] + 1);
    assert_eq!(
        state
            .transcript
            .entries
            .iter()
            .filter(|entry| matches!(entry, Entry::Reasoning { .. }))
            .count(),
        1
    );
    assert!(!state
        .transcript
        .entries
        .iter()
        .any(|entry| matches!(entry, Entry::Tool { id, .. } if id == "poll")));
    apply(
        &mut state,
        AgentEvent::UserMessage {
            text: "Write into ISSUE.md".into(),
        },
    );
    apply(
        &mut state,
        AgentEvent::ToolCallStart {
            id: "write-later".into(),
            name: "write".into(),
            args: "{\"path\":\"ISSUE.md\"}".into(),
        },
    );
    state.activate_entry_at(agents[1]);
    assert_eq!(state.view, View::Subagent);
    assert_eq!(state.boards.inspected_subagent.as_deref(), Some("executor"));
}
