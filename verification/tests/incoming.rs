use torii::fixtures;
use torii::harness::AgentEvent;
use torii::harness::AuthChoice;
use torii::harness::CompactionPhase;
use torii::harness::ModelInfo;
use torii::harness::PlanEntry;
use torii::harness::RewindCheckpoint;
use torii::harness::SessionTreeEntry;
use torii::harness::SubagentTask;
use torii::harness::ToolResult;
use torii::harness::Usage;
use torii::harness::WorkflowCatalogEntry;
use torii::harness::WorkflowPreview;
use torii::incoming::Arrival;
use torii::screen::View;
use torii::state::AppState;
use torii::state_types::DiffKind;
use torii::state_types::Entry;
use torii::state_types::Focus;
use torii::state_types::OverlayAction;
use torii::state_types::OverlayKind;
use torii::state_types::SectionTarget;
use torii::state_types::SettingValue;
use torii::state_types::ThemeMode;
use torii::state_types::ToolStatus;
use torii::transcript::BlockKind;

fn apply(state: &mut AppState, event: AgentEvent) {
    let at = Arrival {
        now: 1_000,
        clock: "12:00 PM".into(),
    };
    state.apply(event, &at);
}

fn text_delta(text: &str) -> AgentEvent {
    AgentEvent::TextDelta { text: text.into() }
}

fn reasoning(text: &str) -> AgentEvent {
    AgentEvent::ReasoningDelta { text: text.into() }
}

fn call(id: &str, name: &str, args: &str) -> AgentEvent {
    AgentEvent::ToolCallStart {
        id: id.into(),
        name: name.into(),
        args: args.into(),
    }
}

fn result(id: &str, content: &str, is_error: bool, duration_ms: Option<u64>) -> AgentEvent {
    AgentEvent::ToolCallResult {
        id: id.into(),
        result: ToolResult {
            content: content.into(),
            details: None,
        },
        is_error,
        duration_ms,
    }
}

fn compaction(
    phase: CompactionPhase,
    reason: &str,
    summary: Option<&str>,
    tokens_before: Option<u64>,
    tokens_after: Option<u64>,
    error: Option<&str>,
) -> AgentEvent {
    AgentEvent::Compaction {
        phase,
        reason: Some(reason.into()),
        summary: summary.map(String::from),
        tokens_before,
        tokens_after,
        error: error.map(String::from),
    }
}

#[test]
fn thinking_and_message_queue_events_are_visible() {
    let mut state = AppState::default();
    apply(
        &mut state,
        AgentEvent::ThinkingChanged {
            level: "high".into(),
        },
    );
    apply(
        &mut state,
        AgentEvent::QueueChanged {
            steering: vec!["change direction".into()],
            follow_up: vec!["then run tests".into()],
        },
    );
    assert_eq!(state.thinking_level, "high");
    assert_eq!(state.transcript.queued_steering.len(), 1);
    assert_eq!(state.transcript.queued_follow_up.len(), 1);
    assert_eq!(state.status, "2 queued");

    state.composer.prompt = "/thinking".into();
    assert!(matches!(
        state.activate_slash_command(),
        Some(OverlayAction::CycleThinking)
    ));
}

#[test]
fn deferred_transcript_click_expands_resumed_reasoning_but_drag_cancels_it() {
    let mut state = AppState::default();
    apply(&mut state, reasoning("restored thought"));
    let target_id = state.transcript.entry_target_id(0).unwrap();
    let target = || {
        Some(SectionTarget {
            index: 0,
            id: target_id.clone(),
        })
    };

    state.transcript.pending_transcript_click = target();
    state.finish_transcript_click(target());
    assert!(matches!(
        state.transcript.entries.first(),
        Some(Entry::Reasoning { expanded: true, .. })
    ));

    state.transcript.pending_transcript_click = target();
    state.transcript.pending_transcript_click = None; // promoted to a drag
    state.finish_transcript_click(target());
    assert!(matches!(
        state.transcript.entries.first(),
        Some(Entry::Reasoning { expanded: true, .. })
    ));
}

#[test]
fn reasoning_deltas_accumulate_and_fold() {
    let mut state = AppState::default();
    apply(&mut state, reasoning("first "));
    apply(&mut state, reasoning("second"));

    assert_eq!(state.transcript.entries.len(), 1);
    match &state.transcript.entries[0] {
        Entry::Reasoning { text, expanded, .. } => {
            assert_eq!(text, "first second");
            assert!(!expanded);
        }
        _ => panic!("expected reasoning entry"),
    }

    state.transcript.toggle_latest(BlockKind::Reasoning);
    assert!(state.all_reasoning_expanded());
    state.transcript.set_all(BlockKind::Reasoning, false);
    assert!(!state.all_reasoning_expanded());

    apply(
        &mut state,
        call("read-between-thoughts", "read", "{\"path\":\"README.md\"}"),
    );
    apply(&mut state, reasoning(" third"));
    assert_eq!(
        state
            .transcript
            .entries
            .iter()
            .filter(|entry| matches!(entry, Entry::Reasoning { .. }))
            .count(),
        1,
        "tool activity within one turn should not create repeated Thinking rows"
    );
    assert!(matches!(
        &state.transcript.entries[0],
        Entry::Reasoning { text, .. } if text == "first second third"
    ));
}

#[test]
fn resume_reset_drops_transient_input_queue_and_permissions() {
    let mut state = fixtures::Story::Permission.state();
    state.composer.prompt = "draft from old session".into();
    state.composer.cursor = state.composer.prompt.chars().count();
    state.transcript.queued_follow_up.push("later".into());
    apply(&mut state, AgentEvent::SessionReset);
    assert!(state.composer.prompt.is_empty());
    assert!(state.transcript.queued_follow_up.is_empty());
    assert!(state.pending_permission.is_none());
    assert_eq!(state.dialog.overlay, OverlayKind::Closed);
}

#[test]
fn historical_tool_without_duration_does_not_show_replay_time() {
    let mut state = AppState::default();
    apply(&mut state, call("historical", "read", "{\"path\":\"README.md\"}"));
    apply(&mut state, result("historical", "done", false, None));

    match &state.transcript.entries[0] {
        Entry::Tool { duration, .. } => assert_eq!(duration, &None),
        other => panic!("expected tool entry, got {other:?}"),
    }
}

#[test]
fn focus_identity_survives_tool_expansion_and_stream_updates() {
    let mut state = fixtures::tools();
    state.transcript.toggle_tool_group(1);
    state.transcript.focused_section = None;
    while state.transcript.focused_entry != Some(2) {
        state.move_section_focus(1);
    }
    let stable_id = state.transcript.focused_target_id.clone();
    state.transcript.toggle_entry_at(2);
    state.transcript.focused_target_id = stable_id.clone();
    apply(&mut state, text_delta("streamed after tools"));
    state.move_section_focus(1);
    assert_eq!(stable_id.as_deref(), Some("tool:tool-clippy"));
    assert_eq!(state.transcript.focused_entry, Some(3));
}

#[test]
fn semantic_entry_identity_survives_streaming_and_manual_folds_are_pinned() {
    let mut state = AppState::default();
    apply(&mut state, reasoning("first"));
    let id = state.transcript.entry_target_id(0).unwrap();
    apply(&mut state, reasoning(" second"));
    assert_eq!(state.transcript.entry_target_id(0).as_deref(), Some(id.as_str()));
    state.transcript.toggle_entry_at(0);
    assert!(state.transcript.pinned_entry_modes.contains(&id));
}

#[test]
fn session_reset_allocates_fresh_semantic_entry_ids() {
    let mut state = AppState::default();
    apply(&mut state, reasoning("old"));
    let old = state.transcript.entry_target_id(0).unwrap();
    apply(&mut state, AgentEvent::SessionReset);
    apply(&mut state, reasoning("new"));
    assert_ne!(state.transcript.entry_target_id(0).unwrap(), old);
}

#[test]
fn internal_subagent_polling_tools_stay_out_of_transcript() {
    let mut state = AppState::default();
    apply(
        &mut state,
        call(
            "agent-1",
            "agent",
            "{\"description\":\"Scout Rust crate public APIs\",\"prompt\":\"A deliberately long private task brief\"}",
        ),
    );
    apply(
        &mut state,
        call("result-1", "get_subagent_result", "{\"agent_id\":\"4841a1b4\"}"),
    );
    apply(
        &mut state,
        call(
            "custom-agent",
            "spawn_agent",
            "{\"description\":\"External dynamic agent tool\"}",
        ),
    );

    assert!(matches!(
        &state.transcript.entries[0],
        Entry::Tool { label, detail, .. }
            if label == "Agent" && detail == "Scout Rust crate public APIs"
    ));
    assert_eq!(state.transcript.entries.len(), 2);
    assert!(!state.transcript.entries.iter().any(|entry| {
        matches!(entry, Entry::Tool { label, .. } if label == "Agent result")
    }));
    assert!(state
        .transcript
        .entries
        .iter()
        .any(|entry| matches!(entry, Entry::Tool { id, .. } if id == "custom-agent")));
}

#[test]
fn batch_tools_are_summarized() {
    let mut state = AppState::default();
    apply(
        &mut state,
        call(
            "find",
            "Find_files",
            "{\"queries\":[{\"pattern\":\"package.json\"},{\"pattern\":\"README*\"},{\"pattern\":\"Cargo.toml\"},{\"pattern\":\"go.mod\"}]}",
        ),
    );
    apply(
        &mut state,
        call(
            "grep",
            "Grep_files",
            "{\"queries\":[{\"pattern\":\"TODO|FIXME\",\"path\":\".\",\"glob\":\"!node_modules/**\"},{\"pattern\":\"test|describe\",\"path\":\"src\"}]}",
        ),
    );
    apply(
        &mut state,
        call(
            "read",
            "Read_files",
            "{\"paths\":[\"README.md\",\"Cargo.toml\",\"sidecar/package.json\",\"docs/workflows.md\"],\"limit\":260}",
        ),
    );
    apply(
        &mut state,
        call(
            "search-1",
            "search",
            "{\"query\":\"status\",\"path\":\"src/state.rs\"}",
        ),
    );

    let shown: Vec<(&str, &str)> = state
        .transcript
        .entries
        .iter()
        .map(|entry| match entry {
            Entry::Tool { label, detail, .. } => (label.as_str(), detail.as_str()),
            other => panic!("expected tool entry, got {other:?}"),
        })
        .collect();
    assert_eq!(
        shown,
        vec![
            ("Find", "4 patterns · \"package.json\"; \"README*\"; …"),
            ("Search", "2 queries · \"TODO|FIXME\"; \"test|describe\" in src"),
            ("Read", "4 files · README.md, Cargo.toml, sidecar/package.json, …"),
            ("Search", "\"status\" in src/state.rs"),
        ]
    );
}

fn subagent(id: &str, status: &str, activity: &str) -> SubagentTask {
    SubagentTask {
        task_id: id.into(),
        parent_session_id: "parent".into(),
        child_session_id: None,
        child_session_path: None,
        description: "Worker".into(),
        subagent_type: "executor".into(),
        capability_mode: "execute".into(),
        isolation: "none".into(),
        background: true,
        status: status.into(),
        activity: activity.into(),
        started_at_ms: 1,
        completed_at_ms: None,
        duration_ms: 10,
        output: None,
        error: None,
        failure_kind: None,
        model: None,
        thinking_level: None,
        worktree_path: None,
        cwd: None,
        workflow_run_id: None,
    }
}

#[test]
fn native_subagent_updates_one_live_lifecycle_entry_and_keeps_child_transcript() {
    let mut state = AppState::default();
    let mut task = SubagentTask {
        task_id: "task-native".into(),
        parent_session_id: "parent".into(),
        child_session_id: Some("child".into()),
        child_session_path: Some("/tmp/child.jsonl".into()),
        description: "Inspect modal".into(),
        subagent_type: "explore".into(),
        capability_mode: "execute".into(),
        isolation: "none".into(),
        background: true,
        status: "running".into(),
        activity: "Thinking".into(),
        started_at_ms: 1,
        completed_at_ms: None,
        duration_ms: 25,
        output: None,
        error: None,
        failure_kind: None,
        model: Some("test/model".into()),
        thinking_level: Some("high".into()),
        worktree_path: None,
        cwd: None,
        workflow_run_id: None,
    };
    apply(
        &mut state,
        AgentEvent::SubagentUpdate {
            task: Box::new(task.clone()),
        },
    );
    for event in [
        "{\"type\":\"text_delta\",\"text\":\"evidence\"}",
        "{\"type\":\"tool_call_start\",\"id\":\"child-read\",\"name\":\"read_file\"}",
        "{\"type\":\"tool_call_result\",\"id\":\"child-read\",\"is_error\":true}",
    ] {
        apply(
            &mut state,
            AgentEvent::SubagentTranscript {
                task_id: task.task_id.clone(),
                event: event.into(),
            },
        );
    }
    task.status = "completed".into();
    task.activity = "Completed".into();
    task.duration_ms = 200;
    task.output = Some("report".into());
    apply(
        &mut state,
        AgentEvent::SubagentUpdate {
            task: Box::new(task),
        },
    );
    assert_eq!(
        state
            .transcript
            .entries
            .iter()
            .filter(
                |entry| matches!(entry, Entry::Tool { id, .. } if id == "subagent:task-native")
            )
            .count(),
        1
    );
    assert_eq!(state.boards.subagent_transcripts[0].events.len(), 3);
    assert_eq!(state.boards.subagent_tasks[0].status, "completed");

    state.view = View::Tasks;
    state.open_selected_subagent();
    assert_eq!(state.view, View::Subagent);
    assert_eq!(state.boards.inspected_subagent.as_deref(), Some("task-native"));
}

#[test]
fn subagent_updates_preserve_user_selected_tool_group_expansion() {
    let mut state = AppState::default();
    for index in 0..2 {
        apply(
            &mut state,
            call(
                &format!("read-{index}"),
                "read_file",
                &format!("{{\"path\":\"file-{index}.rs\"}}"),
            ),
        );
    }
    state.transcript.expanded_tool_groups.push(0);
    apply(
        &mut state,
        AgentEvent::SubagentUpdate {
            task: Box::new(subagent("worker", "running", "Thinking")),
        },
    );
    assert!(state.transcript.expanded_tool_groups.contains(&0));
    assert!(state.transcript.expanded_tool_groups.contains(&2));
    state.transcript.expanded_tool_groups.retain(|head| *head != 2);

    apply(
        &mut state,
        AgentEvent::SubagentUpdate {
            task: Box::new(subagent("worker", "running", "Reading file-0.rs")),
        },
    );

    assert!(state.transcript.expanded_tool_groups.contains(&0));
    assert!(!state.transcript.expanded_tool_groups.contains(&2));
}

#[test]
fn tool_results_complete_the_matching_concurrent_call() {
    let mut state = AppState::default();
    for id in ["agent-a", "agent-b"] {
        apply(
            &mut state,
            call(id, "agent", &format!("{{\"description\":\"{id}\"}}")),
        );
    }
    apply(&mut state, result("agent-a", "done", false, Some(250)));

    assert!(matches!(
        &state.transcript.entries[0],
        Entry::Tool {
            status: ToolStatus::Success,
            started_at: None,
            duration: Some(_),
            ..
        }
    ));
    assert!(matches!(
        &state.transcript.entries[1],
        Entry::Tool {
            status: ToolStatus::Running,
            started_at: Some(_),
            ..
        }
    ));
    apply(&mut state, result("agent-b", "broken", true, Some(1_234)));
    assert!(matches!(
        &state.transcript.entries[1],
        Entry::Tool { status: ToolStatus::Error, duration: Some(duration), result: Some(result), .. }
            if duration == "1.2s" && result == "broken"
    ));
}

#[test]
fn textual_think_tags_become_reasoning_entries() {
    let mut state = AppState::default();
    apply(
        &mut state,
        text_delta("<think>inspect first</think>final answer"),
    );

    assert_eq!(state.transcript.entries.len(), 2);
    assert!(matches!(
        &state.transcript.entries[0],
        Entry::Reasoning { text, .. } if text == "inspect first"
    ));
    assert!(matches!(
        &state.transcript.entries[1],
        Entry::Assistant { lines, .. } if lines == &["final answer"]
    ));
}

#[test]
fn think_tags_stay_open_between_deltas() {
    let mut state = AppState::default();
    apply(&mut state, text_delta("<think>one "));
    apply(&mut state, text_delta("two</think>three"));
    assert!(matches!(
        &state.transcript.entries[0],
        Entry::Reasoning { text, active: false, .. } if text == "one two"
    ));
    assert!(matches!(
        &state.transcript.entries[1],
        Entry::Assistant { lines, .. } if lines == &["three"]
    ));
}

#[test]
fn streaming_text_delta_splits_lines_on_newlines() {
    let mut state = AppState::default();
    apply(
        &mut state,
        text_delta("# Renderer design\n\nThe renderer.\n- item one\n- item two"),
    );

    assert_eq!(state.transcript.entries.len(), 1);
    assert!(matches!(
        &state.transcript.entries[0],
        Entry::Assistant { lines, .. } if lines == &[
            "# Renderer design".to_string(),
            "".to_string(),
            "The renderer.".to_string(),
            "- item one".to_string(),
            "- item two".to_string(),
        ]
    ));
}

#[test]
fn streaming_text_delta_continues_previous_line_then_splits() {
    let mut state = AppState::default();
    apply(&mut state, text_delta("first half"));
    apply(&mut state, text_delta(" still streaming\nsecond line"));

    assert_eq!(state.transcript.entries.len(), 1);
    assert!(matches!(
        &state.transcript.entries[0],
        Entry::Assistant { lines, .. } if lines == &[
            "first half still streaming".to_string(),
            "second line".to_string(),
        ]
    ));
}

#[test]
fn edit_tool_call_becomes_a_diff_entry_with_removed_and_added_lines() {
    let mut state = AppState::default();
    apply(
        &mut state,
        call(
            "tool-1",
            "edit",
            "{\"path\":\"src/lib.rs\",\"old_text\":\"let border = theme.border;\\n\",\"new_text\":\"let border = focused_border(state, theme);\\n\"}",
        ),
    );

    assert_eq!(state.transcript.entries.len(), 1);
    match &state.transcript.entries[0] {
        Entry::Diff {
            path,
            lines,
            expanded,
            ..
        } => {
            assert_eq!(path, "src/lib.rs");
            assert!(*expanded, "edit diffs default to expanded");
            assert_eq!(lines.len(), 2);
            assert!(matches!(lines[0].kind, DiffKind::Removed));
            assert_eq!(lines[0].text, "let border = theme.border;");
            assert!(matches!(lines[1].kind, DiffKind::Added));
            assert_eq!(lines[1].text, "let border = focused_border(state, theme);");
        }
        other => panic!("expected Diff entry, got {other:?}"),
    }
}

#[test]
fn edit_tool_call_with_old_string_field_also_becomes_a_diff_entry() {
    let mut state = AppState::default();
    apply(
        &mut state,
        call(
            "tool-2",
            "Edit",
            "{\"file_path\":\"app/handler.py\",\"old_string\":\"return result\",\"new_string\":\"return result or default\"}",
        ),
    );

    assert_eq!(state.transcript.entries.len(), 1);
    match &state.transcript.entries[0] {
        Entry::Diff { path, lines, .. } => {
            assert_eq!(path, "app/handler.py");
            assert_eq!(lines.len(), 2);
            assert!(matches!(lines[0].kind, DiffKind::Removed));
            assert!(matches!(lines[1].kind, DiffKind::Added));
        }
        other => panic!("expected Diff entry, got {other:?}"),
    }
}

#[test]
fn edit_tool_without_diff_args_falls_back_to_plain_tool_entry() {
    let mut state = AppState::default();
    apply(&mut state, call("tool-3", "edit", "{\"path\":\"src/lib.rs\"}"));

    assert_eq!(state.transcript.entries.len(), 1);
    assert!(matches!(
        &state.transcript.entries[0],
        Entry::Tool { label, .. } if label == "Edit"
    ));
}

#[test]
fn edit_tool_multiline_diff_preserves_internal_blank_lines() {
    let mut state = AppState::default();
    apply(
        &mut state,
        call(
            "tool-4",
            "edit",
            "{\"path\":\"src/handler.rs\",\"old_text\":\"fn handle(req: Request) -> Response {\\n    process(req)\\n}\",\"new_text\":\"fn handle(req: Request) -> Response {\\n    validate(&req)?;\\n    process(req)\\n}\"}",
        ),
    );

    match &state.transcript.entries[0] {
        Entry::Diff { lines, .. } => {
            assert_eq!(lines.len(), 4);
            assert_eq!(lines[0].text, "fn handle(req: Request) -> Response {");
            assert!(matches!(lines[0].kind, DiffKind::Context));
            assert_eq!(lines[1].text, "    validate(&req)?;");
            assert!(matches!(lines[1].kind, DiffKind::Added));
            assert_eq!(lines[2].text, "    process(req)");
            assert!(matches!(lines[2].kind, DiffKind::Context));
            assert_eq!(lines[3].text, "}");
            assert!(matches!(lines[3].kind, DiffKind::Context));
        }
        other => panic!("expected Diff entry, got {other:?}"),
    }
}

#[test]
fn session_reset_replaces_the_visible_transcript() {
    let mut state = fixtures::conversation();
    state.view = View::Dashboard;
    assert!(!state.transcript.entries.is_empty());
    apply(&mut state, AgentEvent::SessionReset);
    apply(
        &mut state,
        AgentEvent::UserMessage {
            text: "restored prompt".into(),
        },
    );

    assert_eq!(state.transcript.entries.len(), 1);
    assert!(matches!(
        &state.transcript.entries[0],
        Entry::User { text, .. } if text == "restored prompt"
    ));
    assert_eq!(state.view, View::Transcript);
}

fn tree_entry(id: &str, parent: Option<&str>, role: &str, text: &str, active: bool) -> SessionTreeEntry {
    SessionTreeEntry {
        id: id.into(),
        parent_id: parent.map(String::from),
        kind: "message".into(),
        role: Some(role.into()),
        text: text.into(),
        timestamp: "2026-07-11T00:00:00Z".into(),
        label: None,
        label_timestamp: None,
        depth: 0,
        active,
    }
}

fn tree_picker_entries() -> Vec<SessionTreeEntry> {
    vec![
        tree_entry("root", None, "user", "start here", true),
        tree_entry("answer", Some("root"), "assistant", "choose an approach", true),
        tree_entry("branch-a", Some("answer"), "user", "active approach", true),
        tree_entry("branch-b", Some("answer"), "user", "abandoned approach", false),
    ]
}

#[test]
fn tree_and_fork_pickers_use_pi_entry_ids_and_prefill_prompt() {
    let mut state = AppState::default();
    let entries = || {
        let mut entry = tree_entry("entry-1", None, "user", "try the other approach", false);
        entry.label = Some("checkpoint".into());
        entry.label_timestamp = Some("2026-07-11T01:00:00Z".into());
        vec![entry]
    };
    let tree = |user_only| AgentEvent::SessionTree {
        entries: entries(),
        user_only,
    };
    apply(&mut state, tree(false));
    assert_eq!(state.dialog.overlay, OverlayKind::TreePicker);
    assert!(state.overlay_items()[0].contains("checkpoint"));
    state.toggle_tree_timestamps();
    assert!(state.overlay_items()[0].contains("2026-07-11"));
    assert!(matches!(
        state.activate_tree_with_summary(),
        OverlayAction::NavigateTree { entry_id, summarize: true, .. } if entry_id == "entry-1"
    ));

    apply(&mut state, tree(false));
    state.begin_tree_label();
    assert_eq!(state.dialog.overlay, OverlayKind::LabelEditor);
    state.dialog.overlay_query = "release point".into();
    assert!(matches!(
        state.activate_overlay(),
        OverlayAction::SetLabel { entry_id, label: Some(label) }
            if entry_id == "entry-1" && label == "release point"
    ));

    apply(&mut state, tree(false));
    assert!(matches!(state.activate_overlay(), OverlayAction::Nothing));
    assert_eq!(state.dialog.overlay, OverlayKind::TreeSummaryPicker);
    assert!(matches!(
        state.activate_overlay(),
        OverlayAction::NavigateTree { entry_id, summarize: false, instructions: None }
            if entry_id == "entry-1"
    ));

    apply(&mut state, tree(false));
    assert!(matches!(state.activate_overlay(), OverlayAction::Nothing));
    state.dialog.overlay_selected = 2;
    assert!(matches!(state.activate_overlay(), OverlayAction::Nothing));
    assert_eq!(state.dialog.overlay, OverlayKind::TreeSummaryEditor);
    state.dialog.overlay_query = "preserve the benchmark results".into();
    assert!(matches!(
        state.activate_overlay(),
        OverlayAction::NavigateTree {
            entry_id,
            summarize: true,
            instructions: Some(instructions),
        } if entry_id == "entry-1" && instructions == "preserve the benchmark results"
    ));

    apply(&mut state, tree(true));
    assert_eq!(state.dialog.overlay, OverlayKind::ForkPicker);
    assert!(matches!(
        state.activate_overlay(),
        OverlayAction::ForkSession { entry_id } if entry_id == "entry-1"
    ));

    apply(
        &mut state,
        AgentEvent::PromptPrefill {
            text: "editable prompt".into(),
        },
    );
    assert_eq!(state.composer.prompt, "editable prompt");
    assert_eq!(state.composer.cursor, 15);
    assert_eq!(state.focus, Focus::Prompt);
}

#[test]
fn trees_open_on_the_active_path() {
    let mut state = AppState::default();
    apply(
        &mut state,
        AgentEvent::SessionTree {
            entries: tree_picker_entries(),
            user_only: false,
        },
    );
    assert_eq!(state.dialog.overlay_selected, 2);
    let users = tree_picker_entries()
        .into_iter()
        .filter(|entry| entry.role.as_deref() == Some("user"))
        .collect();
    apply(
        &mut state,
        AgentEvent::SessionTree {
            entries: users,
            user_only: true,
        },
    );
    assert_eq!(state.dialog.overlay_selected, 2);
    assert!(matches!(
        state.activate_overlay(),
        OverlayAction::ForkSession { entry_id } if entry_id == "branch-b"
    ));
}

#[test]
fn folded_tree_hides_all_descendants_without_hiding_the_fold_point() {
    let mut state = AppState::default();
    apply(
        &mut state,
        AgentEvent::SessionTree {
            entries: tree_picker_entries(),
            user_only: false,
        },
    );
    state.tree.tree_folded.insert("answer".into());

    let visible = state
        .tree
        .filtered("")
        .into_iter()
        .map(|place| state.tree.session_tree[place].id.as_str())
        .collect::<Vec<_>>();

    assert_eq!(visible, ["root", "answer"]);
}

#[test]
fn long_linear_tree_navigation_stays_interactive_without_folds() {
    let entries = (0..10_000)
        .map(|index| SessionTreeEntry {
            id: format!("entry-{index}"),
            parent_id: if index > 0 {
                Some(format!("entry-{}", index - 1))
            } else {
                None
            },
            kind: "message".into(),
            role: Some(if index % 2 == 0 { "user" } else { "assistant" }.into()),
            text: format!("message {index}"),
            timestamp: "2026-07-11T00:00:00Z".into(),
            label: None,
            label_timestamp: None,
            depth: index,
            active: true,
        })
        .collect();
    let mut state = AppState::default();
    apply(
        &mut state,
        AgentEvent::SessionTree {
            entries,
            user_only: false,
        },
    );

    let started = std::time::Instant::now();
    for _ in 0..20 {
        state.move_overlay_selection(-1);
    }
    let elapsed = started.elapsed();

    assert_eq!(state.dialog.overlay_selected, 9_979);
    assert!(
        elapsed < std::time::Duration::from_millis(500),
        "20 navigation steps took {elapsed:?}"
    );
}

#[test]
fn oauth_callbacks_round_trip_through_tui_overlays() {
    let mut state = AppState::default();
    let request = |id: &str, kind: &str, message: &str, options| AgentEvent::OauthRequest {
        id: id.into(),
        kind: kind.into(),
        message: Some(message.into()),
        url: None,
        user_code: None,
        verification_uri: None,
        interval_seconds: None,
        expires_in_seconds: None,
        options,
    };
    apply(
        &mut state,
        request(
            "oauth-1",
            "select",
            "Choose a flow",
            Some(vec![AuthChoice {
                id: "device".into(),
                label: "Device code".into(),
            }]),
        ),
    );
    assert_eq!(state.dialog.overlay, OverlayKind::OauthSelect);
    assert!(matches!(
        state.activate_overlay(),
        OverlayAction::OauthReply { id, value: Some(value) } if id == "oauth-1" && value == "device"
    ));

    apply(&mut state, request("oauth-2", "prompt", "Paste code", None));
    state.dialog.overlay_query = "secret".into();
    assert!(matches!(
        state.activate_overlay(),
        OverlayAction::OauthReply { id, value: Some(value) } if id == "oauth-2" && value == "secret"
    ));

    apply(
        &mut state,
        AgentEvent::OauthComplete {
            provider: "example".into(),
        },
    );
    assert_eq!(state.status, "logged in to example");
    assert!(matches!(
        state.transcript.entries.last(),
        Some(Entry::Assistant { lines, .. })
            if lines.iter().any(|line| line.contains("Authentication successful"))
    ));
    apply(
        &mut state,
        AgentEvent::ModelsChanged {
            models: vec![ModelInfo {
                id: "example/new-model".into(),
                display_name: "New Model".into(),
                context_window: Some(128_000),
            }],
        },
    );
    assert_eq!(state.offers.available_models[0].id, "example/new-model");
    apply(
        &mut state,
        AgentEvent::ModelChanged {
            id: "example/new-model".into(),
            display_name: "New Model".into(),
        },
    );
    assert_eq!(state.header.context_limit, 128_000);
}

#[test]
fn rewind_picker_returns_persisted_checkpoint_id() {
    let mut state = AppState::default();
    apply(
        &mut state,
        AgentEvent::RewindList {
            checkpoints: vec![RewindCheckpoint {
                id: "checkpoint-1".into(),
                path: "/project/src/main.rs".into(),
                timestamp: "2026-07-12T01:00:00Z".into(),
                tool: "edit".into(),
            }],
        },
    );
    assert_eq!(state.dialog.overlay, OverlayKind::RewindPicker);
    assert!(state.overlay_items()[0].contains("src/main.rs"));
    assert!(matches!(
        state.activate_overlay(),
        OverlayAction::RewindFile(id) if id == "checkpoint-1"
    ));
}

#[test]
fn persisted_plan_updates_header_progress_and_plan_mode() {
    let mut state = AppState::default();
    apply(&mut state, call("plan-tool", "update_plan", "{\"entries\":[]}"));
    assert!(state.transcript.entries.is_empty());
    let plan = |second: &str| AgentEvent::PlanUpdate {
        entries: vec![
            PlanEntry {
                step: "Inspect".into(),
                status: "completed".into(),
            },
            PlanEntry {
                step: "Implement".into(),
                status: second.into(),
            },
        ],
    };
    apply(&mut state, plan("in_progress"));
    assert_eq!((state.header.tasks_complete, state.header.tasks_total), (1, 2));
    assert_eq!(state.header.plan_entries.len(), 2);
    assert!(matches!(
        state.transcript.entries.as_slice(),
        [Entry::Plan { expanded: true }]
    ));
    apply(&mut state, plan("completed"));
    assert!(matches!(
        state.transcript.entries.as_slice(),
        [Entry::Plan { expanded: false }]
    ));

    state.composer.prompt = "/plan".into();
    assert!(matches!(
        state.activate_slash_command(),
        Some(OverlayAction::SetPermissionMode(mode)) if mode == "plan"
    ));
    assert_eq!(state.permission_mode.label(), "plan");
}

#[test]
fn compaction_start_pushes_active_placeholder_and_sets_status() {
    let mut state = AppState::default();
    state.header.context_used = 184_000;
    apply(
        &mut state,
        compaction(CompactionPhase::Start, "manual", None, Some(184_000), None, None),
    );

    assert_eq!(state.transcript.entries.len(), 1);
    assert!(matches!(
        &state.transcript.entries[0],
        Entry::Compaction {
            active: true,
            tokens_before: Some(184_000),
            tokens_after: None,
            error: None,
            ..
        }
    ));
    assert_eq!(state.status, "compacting…");
}

#[test]
fn compaction_end_replaces_placeholder_summary_and_drops_context() {
    let mut state = AppState::default();
    state.header.context_used = 184_000;
    apply(
        &mut state,
        compaction(CompactionPhase::Start, "manual", None, Some(184_000), None, None),
    );
    apply(
        &mut state,
        compaction(
            CompactionPhase::End,
            "manual",
            Some("Kept recent turns; summarized the rest."),
            Some(184_000),
            Some(22_000),
            None,
        ),
    );

    match &state.transcript.entries[0] {
        Entry::Compaction {
            summary,
            active,
            tokens_before,
            tokens_after,
            error,
            started_at,
        } => {
            assert_eq!(summary, "Kept recent turns; summarized the rest.");
            assert!(!active);
            assert_eq!(*tokens_before, Some(184_000));
            assert_eq!(*tokens_after, Some(22_000));
            assert!(error.is_none());
            assert!(started_at.is_none(), "End event should clear started_at");
        }
        other => panic!("expected Compaction entry, got {other:?}"),
    }
    assert_eq!(state.header.context_used, 22_000);
    assert_eq!(state.status, "compacted");
}

#[test]
fn compaction_end_with_error_marks_entry_and_status_as_failed() {
    let mut state = AppState::default();
    apply(
        &mut state,
        compaction(CompactionPhase::Start, "threshold", None, Some(190_000), None, None),
    );
    apply(
        &mut state,
        compaction(
            CompactionPhase::End,
            "threshold",
            None,
            Some(190_000),
            None,
            Some("model timeout"),
        ),
    );

    assert!(matches!(
        &state.transcript.entries[0],
        Entry::Compaction {
            active: false,
            error: Some(message),
            ..
        } if message == "model timeout"
    ));
    assert_eq!(state.status, "compaction failed");
}

#[test]
fn repeated_compactions_keep_distinct_chronological_cards() {
    let mut state = AppState::default();
    for (reason, before, after) in [
        ("threshold", 190_000, 40_000),
        ("overflow", 198_000, 35_000),
    ] {
        apply(
            &mut state,
            compaction(CompactionPhase::Start, reason, None, Some(before), None, None),
        );
        let summary = format!("{reason} summary");
        apply(
            &mut state,
            compaction(
                CompactionPhase::End,
                reason,
                Some(&summary),
                Some(before),
                Some(after),
                None,
            ),
        );
    }
    let summaries: Vec<&str> = state
        .transcript
        .entries
        .iter()
        .filter_map(|entry| match entry {
            Entry::Compaction { summary, .. } => Some(summary.as_str()),
            _ => None,
        })
        .collect();
    assert_eq!(summaries, ["threshold summary", "overflow summary"]);
    assert_eq!(state.header.context_used, 35_000);
}

#[test]
fn aborted_compaction_preserves_error_and_does_not_change_tokens() {
    let mut state = AppState::default();
    state.header.context_used = 150_000;
    apply(
        &mut state,
        compaction(CompactionPhase::Start, "manual", None, Some(150_000), None, None),
    );
    apply(
        &mut state,
        compaction(
            CompactionPhase::End,
            "manual",
            None,
            Some(150_000),
            None,
            Some("aborted"),
        ),
    );
    assert_eq!(state.header.context_used, 150_000);
    assert!(matches!(
        state.transcript.entries.last(),
        Some(Entry::Compaction { active: false, error: Some(error), .. }) if error == "aborted"
    ));
}

#[test]
fn split_turn_compaction_stays_between_surrounding_messages() {
    let mut state = AppState::default();
    apply(&mut state, text_delta("before"));
    apply(
        &mut state,
        compaction(CompactionPhase::Start, "overflow", None, Some(200_000), None, None),
    );
    apply(
        &mut state,
        compaction(
            CompactionPhase::End,
            "overflow",
            Some("middle"),
            Some(200_000),
            Some(30_000),
            None,
        ),
    );
    apply(&mut state, text_delta("after"));
    assert!(matches!(state.transcript.entries.as_slice(), [
        Entry::Assistant { .. },
        Entry::Compaction { summary, .. },
        Entry::Assistant { .. }
    ] if summary == "middle"));
}

#[test]
fn working_banner_input_snapshot_resets_between_turns() {
    let mut state = AppState::default();
    state.header.context_used = 2_000;
    apply(&mut state, text_delta("first turn"));
    assert_eq!(state.transcript.turn_input_tokens, 2_000);
    assert!(state.transcript.turn_started_at.is_some());

    apply(
        &mut state,
        AgentEvent::TurnComplete {
            usage: Usage {
                input_tokens: 2_000,
                output_tokens: 10,
            },
            stop_reason: "end_turn".into(),
        },
    );
    assert_eq!(state.transcript.turn_input_tokens, 2_000);
    assert_eq!(state.transcript.turn_output_chars, 0);
    assert!(state.transcript.turn_started_at.is_none());

    state.header.context_used = 2_010;
    apply(&mut state, text_delta("second turn"));
    assert_eq!(state.transcript.turn_input_tokens, 2_010);
    assert!(state.transcript.turn_started_at.is_some());
}

#[test]
fn settings_and_scoped_models_return_persistent_pi_actions() {
    let model = |id: &str, name: &str| ModelInfo {
        id: id.into(),
        display_name: name.into(),
        context_window: None,
    };
    let mut state = AppState::default();
    state.offers.available_models = vec![model("one/a", "Model A"), model("two/b", "Model B")];
    state.open_overlay(OverlayKind::Settings);
    assert!(state.overlay_items()[0].contains("one-at-a-time"));
    assert!(matches!(
        state.activate_overlay(),
        OverlayAction::SetRuntimeSetting { key, value: SettingValue::Text(value) }
            if key == "steering_mode" && value == "all"
    ));
    assert_eq!(state.dialog.overlay, OverlayKind::Settings);

    state.dialog.overlay_selected = 6;
    assert!(matches!(state.activate_overlay(), OverlayAction::Nothing));
    assert_eq!(state.dialog.overlay, OverlayKind::ScopedModels);
    state.close_overlay();
    assert_eq!(state.dialog.overlay, OverlayKind::Settings);
    assert_eq!(state.dialog.overlay_selected, 6);

    state.open_overlay(OverlayKind::ScopedModels);
    state.toggle_scoped_model();
    assert_eq!(state.offers.runtime_settings.enabled_models, vec!["one/a"]);
    assert!(matches!(
        state.activate_overlay(),
        OverlayAction::SetScopedModels(models) if models == vec!["one/a"]
    ));

    state.open_overlay(OverlayKind::SubagentModelPicker);
    state.dialog.overlay_selected = 2;
    assert!(matches!(
        state.activate_overlay(),
        OverlayAction::SetRuntimeSetting { key, value: SettingValue::Text(value) }
            if key == "subagent_model" && value == "two/b"
    ));
    assert_eq!(
        state.offers.runtime_settings.subagent_model.as_deref(),
        Some("two/b")
    );

    state.open_overlay(OverlayKind::SubagentModelPicker);
    assert!(matches!(
        state.activate_overlay(),
        OverlayAction::SetRuntimeSetting { key, value: SettingValue::Null }
            if key == "subagent_model"
    ));
    assert_eq!(state.offers.runtime_settings.subagent_model, None);

    state.composer.prompt = "/trust".into();
    assert!(matches!(
        state.activate_slash_command(),
        Some(OverlayAction::SetProjectTrust(true))
    ));
}

#[test]
fn the_theme_is_a_setting() {
    let mut state = AppState::default();
    state.open_overlay(OverlayKind::Settings);
    state.dialog.overlay_selected = 8;
    assert!(matches!(
        state.activate_overlay(),
        OverlayAction::SetTheme(ThemeMode::Light)
    ));
    assert_eq!(state.theme_mode, ThemeMode::Light);
    assert_eq!(state.dialog.overlay, OverlayKind::Settings);
}

fn catalog_of_two() -> Vec<WorkflowCatalogEntry> {
    vec![
        WorkflowCatalogEntry {
            name: "review".into(),
            description: Some("Review changes".into()),
            source: "builtin".into(),
            valid: true,
            error: None,
        },
        WorkflowCatalogEntry {
            name: "broken".into(),
            description: None,
            source: "global".into(),
            valid: false,
            error: Some("steps must be an array".into()),
        },
    ]
}

#[test]
fn workflow_catalog_opens_resolved_preflight_and_keeps_invalid_entries_visible() {
    let mut state = AppState::default();
    state.composer.prompt = "/workflow check review".into();
    state.composer.cursor = state.composer.prompt.chars().count();
    assert!(matches!(
        state.activate_slash_command(),
        Some(OverlayAction::PreviewWorkflow { workflow }) if workflow == "review"
    ));
    apply(
        &mut state,
        AgentEvent::WorkflowCatalog {
            workflows: catalog_of_two(),
        },
    );
    assert_eq!(state.dialog.overlay, OverlayKind::WorkflowPicker);
    assert!(state.overlay_items()[1].contains("[invalid]"));

    state.dialog.overlay_query = "review".into();
    assert_eq!(state.overlay_items().len(), 1);
    assert!(matches!(
        state.activate_overlay(),
        OverlayAction::PreviewWorkflow { workflow } if workflow == "review"
    ));
    assert_eq!(state.dialog.overlay, OverlayKind::Closed);

    apply(
        &mut state,
        AgentEvent::WorkflowPreview {
            preview: Box::new(WorkflowPreview {
                name: "review".into(),
                version: 1,
                description: Some("Review changes".into()),
                definition_hash: "abc123def456".into(),
                resolved_at_ms: 10,
                steps: vec![],
                readiness: "warning".into(),
            }),
        },
    );
    assert_eq!(state.dialog.overlay, OverlayKind::WorkflowPreview);
}

#[test]
fn broken_workflows_do_not_start() {
    let mut state = AppState::default();
    apply(
        &mut state,
        AgentEvent::WorkflowCatalog {
            workflows: catalog_of_two(),
        },
    );
    state.dialog.overlay_selected = 1;
    assert!(matches!(state.activate_overlay(), OverlayAction::Nothing));
    assert_eq!(state.dialog.overlay, OverlayKind::WorkflowPicker);
    assert!(state.status.contains("steps must be an array"));
}

#[test]
fn failures_end_the_turn() {
    let mut state = AppState::default();
    apply(&mut state, reasoning("hm"));
    apply(
        &mut state,
        AgentEvent::Error {
            kind: torii::harness::AgentErrorKind::Provider,
            message: "overloaded".into(),
        },
    );
    assert!(!state.transcript.streaming);
    assert!(state.transcript.turn_started_at.is_none());
    assert!(matches!(
        &state.transcript.entries[0],
        Entry::Reasoning { active: false, .. }
    ));
    assert!(matches!(
        &state.transcript.entries[1],
        Entry::Assistant { lines, .. } if lines == &["Error: overloaded"]
    ));
}

fn edit_result(state: &mut AppState, id: &str, path: &str, diff: &str) {
    apply(
        state,
        call(
            id,
            "edit",
            &format!("{{\"path\":\"{path}\",\"edits\":[{{\"oldText\":\"old\",\"newText\":\"new\"}}]}}"),
        ),
    );
    let mut details = serde_json::Map::new();
    details.insert("diff".into(), serde_json::Value::from(diff));
    apply(
        state,
        AgentEvent::ToolCallResult {
            id: id.into(),
            result: ToolResult {
                content: format!("Edited {path}"),
                details: Some(serde_json::Value::from(details).to_string()),
            },
            is_error: false,
            duration_ms: Some(10),
        },
    );
}

#[test]
fn current_pi_edit_schema_uses_authoritative_result_diff() {
    let mut state = AppState::default();
    edit_result(
        &mut state,
        "edit-current",
        "src/lib.rs",
        "@@ -12,2 +12,2 @@\n context\n-old\n+final",
    );

    match &state.transcript.entries[0] {
        Entry::Diff { lines, .. } => {
            assert!(matches!(lines[0].kind, DiffKind::Context));
            assert_eq!(lines[0].number, Some(12));
            assert!(matches!(lines[1].kind, DiffKind::Removed));
            assert_eq!(lines[1].number, Some(13));
            assert!(matches!(lines[2].kind, DiffKind::Added));
            assert_eq!(lines[2].number, Some(13));
            assert_eq!(lines[2].text, "final");
        }
        other => panic!("expected diff entry, got {other:?}"),
    }
}

#[test]
fn compact_pi_edit_diff_uses_source_numbers_without_a_fake_index() {
    let mut state = AppState::default();
    edit_result(
        &mut state,
        "edit-numbered",
        "src/lib.rs",
        "      ...\n 1224   let listed = sessions();\n-1225   return listed;\n+1225   return filtered;\n      ...",
    );

    match &state.transcript.entries[0] {
        Entry::Diff { lines, .. } => {
            assert_eq!(lines[0].number, None);
            assert_eq!(lines[0].text, "...");
            assert_eq!(lines[1].number, Some(1224));
            assert_eq!(lines[1].text, "  let listed = sessions();");
            assert_eq!(lines[2].number, Some(1225));
            assert!(matches!(lines[2].kind, DiffKind::Removed));
            assert_eq!(lines[3].number, Some(1225));
            assert!(matches!(lines[3].kind, DiffKind::Added));
        }
        other => panic!("expected diff entry, got {other:?}"),
    }
}

#[test]
fn padded_pi_edit_diff_does_not_invent_zero_based_display_numbers() {
    let mut state = AppState::default();
    edit_result(
        &mut state,
        "edit-padded",
        "src/state.rs",
        "      ...\n  602         self.history_index = None;\n  603         true\n+ 606     pub fn move_slash_selection(&mut self) {\n+ 607         if !self.prompt.starts_with('/') {\n      ...",
    );

    match &state.transcript.entries[0] {
        Entry::Diff { lines, .. } => {
            let numbers = lines
                .iter()
                .filter_map(|line| line.number)
                .collect::<Vec<_>>();
            assert_eq!(numbers, vec![602, 603, 606, 607]);
            assert!(!numbers.contains(&0));
            assert!(matches!(lines[3].kind, DiffKind::Added));
        }
        other => panic!("expected diff entry, got {other:?}"),
    }
}

#[test]
fn mixed_pi_edit_diff_preserves_indented_unnumbered_replacements() {
    let mut state = AppState::default();
    edit_result(
        &mut state,
        "edit-mixed-numbering",
        "src/pi-adapter.ts",
        "  1578     await active.session.compact(instructions);\n-     // Pi's compactor uses the model currently held by AgentSession and does not\n-     // expose a per-compaction model override. Change only the in-memory agent\n+     // Compaction uses the active model.\n  1581     export function setApiKey(active: ActiveSession, provider: string, key: string): void {",
    );

    match &state.transcript.entries[0] {
        Entry::Diff { lines, .. } => {
            assert_eq!(lines.len(), 5);
            assert_eq!(
                lines[1].text,
                "     // Pi's compactor uses the model currently held by AgentSession and does not"
            );
            assert_eq!(
                lines[2].text,
                "     // expose a per-compaction model override. Change only the in-memory agent"
            );
            assert_eq!(lines[3].text, "     // Compaction uses the active model.");
            assert!(matches!(lines[1].kind, DiffKind::Removed));
            assert!(matches!(lines[3].kind, DiffKind::Added));
        }
        other => panic!("expected diff entry, got {other:?}"),
    }
}

#[test]
fn ellipsis_does_not_hide_unnumbered_replacement_lines() {
    let mut state = AppState::default();
    edit_result(
        &mut state,
        "edit-ellipsis",
        "src/lib.rs",
        "      ...\n-old value\n+new value\n      ...",
    );

    match &state.transcript.entries[0] {
        Entry::Diff { lines, .. } => {
            assert_eq!(lines.len(), 2);
            assert_eq!(lines[0].text, "old value");
            assert!(matches!(lines[0].kind, DiffKind::Removed));
            assert_eq!(lines[1].text, "new value");
            assert!(matches!(lines[1].kind, DiffKind::Added));
        }
        other => panic!("expected diff entry, got {other:?}"),
    }
}

#[test]
fn diffs_hold_the_old_and_the_new_text() {
    let words = |text: &str| text.split(' ').map(String::from).collect::<Vec<_>>();
    let (old, new) = (words("a b c d e"), words("a x y d e"));
    let lines = torii::line_diff::line_diff(&old, &new);
    let without = |kind| {
        lines
            .iter()
            .filter(|line| line.kind != kind)
            .map(|line| line.text.clone())
            .collect::<Vec<_>>()
    };
    assert_eq!(without(DiffKind::Added), old);
    assert_eq!(without(DiffKind::Removed), new);
}
