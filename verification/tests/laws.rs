use torii::agent_layout::AgentLayout;
use torii::clipboard;
use torii::digest;
use torii::geometry;
use torii::geometry::Rect;
use torii::harness::AuthProviderInfo;
use torii::harness::SessionId;
use torii::harness::SessionInfo;
use torii::images;
use torii::line_diff;
use torii::markdown;
use torii::markdown_events::Alignment;
use torii::markdown_events::EventKind;
use torii::markdown_events::MarkdownEvent;
use torii::markdown_events::TagKind;
use torii::paste_editor;
use torii::picker;
use torii::picker::PickerRow;
use torii::picker::PickerSpec;
use torii::places;
use torii::requests::Command;
use torii::startup;
use torii::startup::LoginError;
use torii::state::AppState;
use torii::state_types::DiffKind;
use torii::state_types::ImageAttachment;
use torii::task;
use torii::task::TaskCall;
use torii::task::TaskError;
use torii::text;
use torii::tool_calls;
use torii::tool_calls::CallArgs;
use torii::tool_calls::EditTexts;
use torii::tool_calls::QueryArgs;
use torii::tool_calls::ToolFamily;
use torii::width;
use torii::workflow;
use torii::workflow::builtin;
use torii::workflow_run;
use torii::workflow_run::RunStatus;
use torii::workflow_run::StepStatus;
use torii::workflow_run::WorkflowRun;
use torii::workflow_store;
use torii::workflow_store::ShownResult;
use torii::workflow_store::WorkflowCall;
use torii::wrap;
use unicode_width::UnicodeWidthStr;

#[test]
fn paths_below_home_are_shown_from_there() {
    let home = Some("/home/user".to_string());
    assert_eq!(places::display_path("/home/user/work/torii", &home), "~/work/torii");
    assert_eq!(places::display_path("/home/user", &home), "~/");
    assert_eq!(places::display_path("/home/username", &home), "/home/username");
    assert_eq!(places::display_path("home/user/x", &home), "home/user/x");
    assert_eq!(places::display_path("/etc", &home), "/etc");
    assert_eq!(places::display_path("/etc", &None), "/etc");
    assert_eq!(
        places::display_path("/home/user/x", &Some("/home/user/".into())),
        "~/x"
    );
}

#[test]
fn branches_come_before_commits() {
    let printed = |words: &str| Some(words.to_string());
    assert_eq!(
        places::branch_name(&printed("main\n"), &printed("abc\n")).as_deref(),
        Some("main")
    );
    assert_eq!(
        places::branch_name(&printed(" \n"), &printed("abc\n")).as_deref(),
        Some("detached:abc")
    );
    assert_eq!(
        places::branch_name(&None, &printed("abc")).as_deref(),
        Some("detached:abc")
    );
    assert_eq!(places::branch_name(&None, &printed("")), None);
    assert_eq!(places::branch_name(&None, &printed("abc:")), None);
    assert_eq!(places::branch_name(&None, &None), None);
}

#[test]
fn files_are_kept_in_their_places() {
    assert_eq!(
        places::task_root("/sessions/one.jsonl").as_deref(),
        Some("/sessions/torii-task-runs")
    );
    assert_eq!(places::task_root("/one.jsonl").as_deref(), Some("/torii-task-runs"));
    assert_eq!(places::task_root("mock-1"), None);
    assert_eq!(places::task_root("/"), None);
    assert_eq!(places::run_root("/work"), "/work/.pi/workflow-runs");
    assert_eq!(places::workflow_root("/work/"), "/work/.pi/workflows");
    assert_eq!(
        places::install_root("/opt/torii/versions/1.2.3/bin/torii").as_deref(),
        Some("/opt/torii")
    );
    assert_eq!(places::install_root("/usr/local/bin/torii"), None);
    let told = |words: &str| Some(words.to_string());
    assert_eq!(
        places::client_home(told("/t"), told("/h"), None).as_deref(),
        Some("/t")
    );
    assert_eq!(
        places::client_home(None, told("/h"), told("/p")).as_deref(),
        Some("/h/.torii")
    );
    assert_eq!(
        places::client_home(None, None, told("/p")).as_deref(),
        Some("/p/.torii")
    );
    assert_eq!(places::client_home(None, None, None), None);
}

fn provider(id: &str, auth_type: &str) -> AuthProviderInfo {
    AuthProviderInfo {
        id: id.into(),
        display_name: id.to_uppercase(),
        auth_type: auth_type.into(),
        configured: false,
    }
}

#[test]
fn logins_are_refused_in_words() {
    let providers = vec![provider("one", "api_key"), provider("two", "oauth")];
    assert!(matches!(startup::find_provider(&providers, "two"), Ok(1)));
    let unknown = startup::find_provider(&providers, "three").unwrap_err();
    assert!(matches!(unknown, LoginError::UnknownProvider { .. }));
    assert_eq!(unknown.message(), "unknown provider: three");
    assert!(startup::takes_key(&providers[0]).is_ok());
    assert_eq!(
        startup::takes_key(&providers[1]).unwrap_err().message(),
        "TWO uses OAuth; use the official Pi /login flow until OAuth callbacks are bridged"
    );
    assert!(startup::accept_key("k").is_ok());
    assert_eq!(
        startup::accept_key("").unwrap_err().message(),
        "API key cannot be empty"
    );
}

#[test]
fn host_calls_are_named() {
    assert!(matches!(task::task_call("task_spawn"), Ok(TaskCall::Spawn)));
    assert!(matches!(task::task_call("task_status"), Ok(TaskCall::Status)));
    assert!(matches!(task::task_call("task_wait"), Ok(TaskCall::Wait)));
    assert!(matches!(task::task_call("task_kill"), Ok(TaskCall::Kill)));
    assert!(matches!(task::task_call("tasks_wait"), Ok(TaskCall::WaitMany)));
    let unknown = task::task_call("nap").unwrap_err();
    assert!(matches!(unknown, TaskError::UnknownCall { .. }));
    assert_eq!(unknown.message(), "unknown Rust host call: nap");
    assert!(matches!(
        workflow_store::workflow_call("workflow_artifact_read"),
        Ok(WorkflowCall::Artifact)
    ));
    assert_eq!(
        workflow_store::shown_result("workflow_check"),
        Some(ShownResult::Preview)
    );
    assert_eq!(
        workflow_store::shown_result("workflow_catalog"),
        Some(ShownResult::Catalog)
    );
    assert_eq!(
        workflow_store::shown_result("artifact_read"),
        Some(ShownResult::Artifact)
    );
    assert_eq!(workflow_store::shown_result("workflow_start"), None);
}

#[test]
fn waits_have_a_mode_and_a_limit() {
    assert_eq!(task::wait_terms(None, None), ("wait_all".to_string(), 30_000));
    assert_eq!(
        task::wait_terms(Some("wait_any".into()), Some(5)),
        ("wait_any".to_string(), 5)
    );
}

#[test]
fn opened_sessions_are_found_where_they_are_stored() {
    let session = |path: &str, current| SessionInfo {
        id: "s".into(),
        path: path.into(),
        name: None,
        first_message: String::new(),
        modified_at_ms: 0,
        message_count: 0,
        current,
        cwd: String::new(),
        parent_session_path: None,
    };
    let child = SessionId("child".into());
    let listed = vec![session("/a", false), session("/b", true), session("/c", true)];
    assert_eq!(task::child_path(&listed, &Some("/r".into()), &child), "/b");
    assert_eq!(task::child_path(&Vec::new(), &Some("/r".into()), &child), "/r");
    assert_eq!(task::child_path(&Vec::new(), &None, &child), "child");
}

#[test]
fn some_requests_are_special() {
    assert_eq!(Command::Health.fixed_id().as_deref(), Some("health"));
    assert_eq!(Command::ListModels.fixed_id(), None);
    assert!(Command::PreviewWorkflow { workflow: "w".into() }.reports_failure());
    assert!(!Command::Cancel.reports_failure());
    let tree = Command::SessionTree { user_only: true };
    assert!(matches!(
        torii::connection::shown_request(&tree),
        Some(Command::SessionTree { user_only: true })
    ));
    assert!(torii::connection::shown_request(&Command::Cancel).is_none());
}

#[test]
fn escaped_paths_are_decoded() {
    assert_eq!(
        clipboard::clipboard_image_path("file:///tmp/a%20b.png").as_deref(),
        Some("/tmp/a b.png")
    );
    assert_eq!(
        clipboard::percent_decode_path("/caf%C3%A9").as_deref(),
        Some("/café")
    );
    assert_eq!(clipboard::percent_decode_path("/%FF/x"), None);
    assert_eq!(clipboard::percent_decode_path("/plain").as_deref(), Some("/plain"));
    assert_eq!(clipboard::clipboard_image_path("copy"), None);
    assert_eq!(clipboard::clipboard_image_path("relative.png"), None);
    assert_eq!(
        clipboard::clipboard_paths("copy\nfile:///tmp/a.png\n"),
        vec!["/tmp/a.png".to_string()]
    );
    assert_eq!(clipboard::mime_type("JPG"), "image/jpeg");
    assert_eq!(clipboard::mime_type("webp"), "image/webp");
    assert_eq!(clipboard::mime_type("gif"), "image/gif");
    assert_eq!(clipboard::mime_type("bmp"), "image/png");
}

#[test]
fn digests_are_those_of_the_algorithm() {
    assert_eq!(
        digest::sha256_hex(&b"abc".to_vec()),
        "ba7816bf8f01cfea414140de5dae2223b00361a396177a9cb410ff61f20015ad"
    );
    assert_eq!(digest::hex_text(&vec![0, 15, 255]), "000fff");
}

#[test]
fn columns_are_those_of_the_terminal() {
    assert_eq!(width::char_cells('a'), 1);
    assert_eq!(width::char_cells('界'), 2);
    assert_eq!(width::char_cells('\u{0301}'), 0);
}

#[test]
fn wrapping_keeps_the_words_of_a_text() {
    let lines = wrap::wrap("the quick brown fox jumps", 10);
    assert!(lines.iter().all(|line| line.chars().count() <= 10));
    let words: Vec<&str> = lines.iter().flat_map(|line| line.split_whitespace()).collect();
    assert_eq!(words, vec!["the", "quick", "brown", "fox", "jumps"]);
}

#[test]
fn narrow_texts_are_as_wide_as_they_are_long() {
    let mut narrow: Vec<char> = (' '..='~').chain('\u{2500}'..='\u{257f}').collect();
    narrow.extend(['•', '…', '☐', '☑']);
    for &c in &narrow {
        assert_eq!(width::char_cells(c), 1);
    }
    for &a in &narrow {
        for &b in &narrow {
            let pair: String = [a, b].iter().collect();
            assert_eq!(UnicodeWidthStr::width(pair.as_str()), 2);
        }
    }
    let all: String = narrow.iter().collect();
    assert_eq!(UnicodeWidthStr::width(all.as_str()), narrow.len());
}

#[test]
fn blanks_part_the_columns_of_a_text() {
    let ends = ["", "a", "世", "\u{fe0f}", "\u{200d}👩", "\u{338}=", "لا", "❤\u{fe0f}", "🇩🇪", "\u{1f3fb}"];
    for c in '\u{0}'..=char::MAX {
        let one = c.to_string();
        for end in ends {
            let before = format!("{one} {end}");
            let behind = format!("{end} {one}");
            let sum = UnicodeWidthStr::width(one.as_str()) + 1 + UnicodeWidthStr::width(end);
            assert_eq!(UnicodeWidthStr::width(before.as_str()), sum);
            assert_eq!(UnicodeWidthStr::width(behind.as_str()), sum);
        }
    }
}

#[test]
fn wrapped_lines_stay_within_the_width() {
    for columns in 1..12 {
        for line in wrap::wrap("an extraordinarily long word, and short ones", columns) {
            assert!(UnicodeWidthStr::width(line.as_str()) <= columns);
        }
    }
    for columns in 4..12 {
        for line in wrap::wrap("世界 世界 and 世界", columns) {
            assert!(UnicodeWidthStr::width(line.as_str()) <= columns);
        }
    }
}

#[test]
fn wide_words_are_cut_where_nothing_fits() {
    assert_eq!(wrap::wrap("世界", 1), vec!["世", "界"]);
}

fn drawn_within(source: &str, columns: usize) {
    let lines: Vec<String> = source.lines().map(|line| line.to_string()).collect();
    for line in markdown::render(&lines, columns) {
        assert!(UnicodeWidthStr::width(line.words().as_str()) <= columns);
    }
}

#[test]
fn drawn_lines_stay_within_the_width() {
    let source = "# A title that is longer than the screen\n\n\
        - one item of a list with some words\n  1. and another below it\n\n\
        > > quoted words that go on and on\n\n\
        - [x] done\n\n---\n\n\
        ```rust\nlet value = compute(the, arguments, of, it);\n```\n";
    for columns in 12..60 {
        drawn_within(source, columns);
    }
}

#[test]
fn tables_stay_within_the_width() {
    let source = "| Name | What it is good for |\n|:--|--:|\n\
        | alpha | the first of them all |\n| beta | extraordinarily |\n";
    for columns in 1..60 {
        drawn_within(source, columns);
    }
    let wide = "| Name | What |\n|:--|:-:|\n| 世界 | a wide one |\n";
    for columns in 30..60 {
        drawn_within(wide, columns);
    }
}

fn event(kind: EventKind, tag: TagKind, text: &str) -> MarkdownEvent {
    MarkdownEvent {
        kind,
        tag,
        text: text.to_string(),
        number: None,
        alignments: Vec::new(),
    }
}

#[test]
fn events_are_drawn_as_they_come() {
    let events = vec![
        event(EventKind::Start, TagKind::Item, ""),
        event(EventKind::Text, TagKind::Other, "first words"),
        event(EventKind::End, TagKind::Item, ""),
        event(EventKind::Start, TagKind::CodeBlock, "sh"),
        event(EventKind::Text, TagKind::Other, "ls\n"),
        event(EventKind::End, TagKind::CodeBlock, ""),
    ];
    let drawn = markdown::draw_events(&events, 9);
    let words: Vec<String> = drawn.lines.iter().map(|line| line.words()).collect();
    assert_eq!(words, vec!["• first", "  words", " sh      ", "  ls     "]);
    assert_eq!(drawn.code_blocks.len(), 1);
    assert_eq!(drawn.code_blocks[0].info, "sh");
    assert_eq!(drawn.code_blocks[0].body, "ls");
    assert_eq!(drawn.code_blocks[0].first_line, 3);
    assert_eq!(drawn.code_blocks[0].end_line, 4);
}

#[test]
fn heads_and_rows_of_a_table_are_drawn_as_they_come() {
    let mut table = event(EventKind::Start, TagKind::Table, "");
    table.alignments = vec![Alignment::Right];
    let events = vec![
        table,
        event(EventKind::Start, TagKind::Head, ""),
        event(EventKind::Start, TagKind::Cell, ""),
        event(EventKind::Text, TagKind::Other, "head"),
        event(EventKind::End, TagKind::Cell, ""),
        event(EventKind::End, TagKind::Head, ""),
        event(EventKind::Start, TagKind::Row, ""),
        event(EventKind::Start, TagKind::Cell, ""),
        event(EventKind::Text, TagKind::Other, "x"),
        event(EventKind::End, TagKind::Cell, ""),
        event(EventKind::End, TagKind::Row, ""),
        event(EventKind::End, TagKind::Table, ""),
    ];
    let drawn = markdown::draw_events(&events, 20);
    let words: Vec<String> = drawn.lines.iter().map(|line| line.words()).collect();
    assert_eq!(words, vec!["┌──────┐", "│ head │", "├──────┤", "│    x │", "└──────┘"]);
}

#[test]
fn blocks_of_code_are_collected_from_events() {
    let events = vec![
        event(EventKind::Text, TagKind::Other, "outside"),
        event(EventKind::Start, TagKind::CodeBlock, "rust"),
        event(EventKind::Text, TagKind::Other, "a\n"),
        event(EventKind::Text, TagKind::Other, "b\n"),
        event(EventKind::End, TagKind::CodeBlock, ""),
    ];
    let codes = markdown::collect_code(&events);
    assert_eq!(codes.len(), 1);
    assert_eq!(codes[0].info, "rust");
    assert_eq!(codes[0].body, "a\nb");
}

fn no_arguments() -> CallArgs {
    CallArgs {
        path: None,
        file_path: None,
        command: None,
        query: None,
        pattern: None,
        description: None,
        paths: Vec::new(),
        queries: Vec::new(),
    }
}

#[test]
fn calls_are_described_by_their_arguments() {
    let mut args = no_arguments();
    args.paths = vec!["a".into(), "b".into(), "c".into(), "d".into()];
    assert_eq!(tool_calls::describe_call(ToolFamily::Read, &args), "4 files · a, b, c, …");
    args.paths.clear();
    args.file_path = Some("src/lib.rs".into());
    assert_eq!(tool_calls::describe_call(ToolFamily::Read, &args), "src/lib.rs");
    args.path = Some("src/main.rs".into());
    assert_eq!(tool_calls::describe_call(ToolFamily::Edit, &args), "src/main.rs");
    assert_eq!(tool_calls::describe_call(ToolFamily::Other, &args), "src/main.rs");
    args.queries = vec![
        QueryArgs { pattern: Some("fn".into()), path: Some("src".into()) },
        QueryArgs { pattern: Some("use".into()), path: Some(".".into()) },
    ];
    assert_eq!(
        tool_calls::describe_call(ToolFamily::Search, &args),
        "2 queries · \"fn\" in src; \"use\""
    );
    assert_eq!(
        tool_calls::describe_call(ToolFamily::Find, &args),
        "2 patterns · \"fn\"; \"use\""
    );
    assert_eq!(tool_calls::describe_call(ToolFamily::Run, &args), "");
}

#[test]
fn arguments_are_read_by_what_they_hold() {
    let args = tool_calls::read_args(r#"{"paths":["{\"a\":1}",{"b":2},3],"path":"here"}"#);
    assert_eq!(args.paths[0], "{\"a\":1}");
    assert_eq!(args.path.as_deref(), Some("here"));
    assert_eq!(args.file_path, None);
}

#[test]
fn edits_are_shown_by_what_they_replace() {
    let nothing = EditTexts {
        old_text: None,
        old_string: None,
        old_camel: None,
        new_text: None,
        new_string: None,
        new_camel: None,
    };
    let mut edit = nothing.clone();
    edit.old_string = Some("same\nold".into());
    edit.new_camel = Some("same\nnew".into());
    let path = Some("a.rs".to_string());
    let (file, lines) = tool_calls::diff_of(&path, &None, &edit, &None).unwrap();
    assert_eq!(file, "a.rs");
    let shown: Vec<(DiffKind, &str)> =
        lines.iter().map(|line| (line.kind, line.text.as_str())).collect();
    assert!(shown.contains(&(DiffKind::Removed, "old")));
    assert!(shown.contains(&(DiffKind::Added, "new")));
    assert!(tool_calls::diff_of(&path, &None, &edit, &Some(nothing.clone())).is_none());
    assert!(tool_calls::diff_of(&path, &None, &nothing, &Some(edit)).is_some());
}

#[test]
fn drawn_code_lies_on_the_page() {
    let source = vec![
        "# Title".to_string(),
        "```rust".to_string(),
        "let a = 1;".to_string(),
        "let b = 2;".to_string(),
        "```".to_string(),
        "after".to_string(),
    ];
    let output = markdown::render_output(&source, 40);
    assert_eq!(output.code_blocks.len(), 1);
    let code = &output.code_blocks[0];
    assert_eq!(code.body, "let a = 1;\nlet b = 2;");
    assert!(code.end_line <= output.lines.len());
    let shown: Vec<String> = output.lines[code.first_line..code.end_line]
        .iter()
        .map(|line| line.words().trim().to_string())
        .collect();
    assert_eq!(shown, vec!["let a = 1;", "let b = 2;"]);
}

#[test]
fn windows_hold_their_selection() {
    for selected in 0..30 {
        let start = geometry::centered_window(selected, 30, 7);
        assert!(start <= selected && selected < start + 7);
    }
    assert_eq!(geometry::centered_window(3, 5, 10), 0);
}

#[test]
fn parts_with_room_have_the_rows_they_ask_for() {
    let state = AppState::default();
    let layout = AgentLayout::compute(Rect::new(0, 0, 100, 30), &state);
    assert_eq!((layout.status.y, layout.status.height), (0, 1));
    assert_eq!((layout.scrollback.y, layout.scrollback.height), (2, 23));
    assert_eq!((layout.turn_status.y, layout.turn_status.height), (25, 1));
    assert_eq!((layout.prompt.y, layout.prompt.height), (26, 3));
    assert_eq!((layout.shortcuts.y, layout.shortcuts.height), (29, 1));
    assert_eq!(layout.prompt.x, 1);
    assert_eq!(layout.prompt.width, 98);
    assert_eq!(layout.page(), 23);
}

#[test]
fn parts_without_room_stay_in_order_on_the_screen() {
    let state = AppState::default();
    for height in 0..12 {
        let layout = AgentLayout::compute(Rect::new(0, 0, 40, height), &state);
        let parts = [
            layout.status,
            layout.scrollback,
            layout.queue,
            layout.workflow_status,
            layout.turn_status,
            layout.compaction,
            layout.permission,
            layout.prompt,
            layout.shortcuts,
        ];
        let mut below = 0;
        for part in parts {
            assert!(part.y >= below);
            below = part.y + part.height;
            assert!(below <= height);
        }
    }
}

#[test]
fn layouts_are_made_of_their_rows() {
    let rows: Vec<(u16, u16)> = (0..10).map(|row| (row * 2, 2)).collect();
    let layout = AgentLayout::from_rows(Rect::new(3, 0, 50, 20), &rows);
    assert!(layout.compact);
    assert_eq!(layout.scrollback, Rect::new(3, 4, 50, 2));
    assert_eq!(layout.prompt, Rect::new(3, 16, 50, 2));
}

#[test]
fn picker_rows_are_hit_where_they_are_painted() {
    let mut rows = vec![PickerRow::header("Models")];
    rows.extend((0..40).map(|index| PickerRow::item(index, &format!("model {index}"))));
    let spec = PickerSpec {
        title: "Model",
        query: Some(("Search", "")),
        notes: &[],
        rows: &rows,
        footer: "",
        max_width: 60,
        max_height: 20,
    };
    let (layout, painted) = picker::render(Rect::new(0, 0, 80, 24), &spec, 30);
    assert_eq!(painted.len(), layout.visible_end - layout.visible_start);
    assert!(painted.iter().any(|row| rows[row.visual].item_index == Some(30)));
    for row in &painted {
        assert_eq!(
            picker::item_at(layout, &rows, row.line.x, row.line.y),
            rows[row.visual].item_index
        );
    }
    assert_eq!(painted[0].line.y, layout.rows.y);
}

#[test]
fn viewers_stay_on_the_screen() {
    let image = ImageAttachment {
        id: 1,
        path: "/tmp/p.png".into(),
        name: "p.png".into(),
        width: 400,
        height: 300,
        mime_type: "image/png".into(),
        temporary: false,
        preview_width: 80,
        preview_height: 60,
        preview_rgba: vec![7; 80 * 60 * 4],
    };
    let screen = Rect::new(0, 0, 100, 30);
    let (viewer, width, height) = images::image_viewer_geometry(&image, screen);
    assert!(viewer.right() <= 100 && viewer.bottom() <= 30);
    assert!(width <= viewer.width && height > 0);
    let (top, bottom) = images::preview_cell(&image, width, height, 0, 0).unwrap();
    assert_eq!((top.red, bottom.blue), (7, 7));
    let actions = images::image_viewer_actions(viewer);
    assert_eq!(actions.len(), 2);
    assert_eq!(actions[0].end - actions[0].start, 10);
}

#[test]
fn every_place_of_a_pasted_text_has_a_row() {
    let rows = paste_editor::paste_editor_rows("ab\nlonger line here", 6);
    let mut offsets: Vec<usize> = rows.iter().flat_map(|row| row.offsets.clone()).collect();
    offsets.sort_unstable();
    offsets.dedup();
    assert_eq!(offsets, (0..=19).collect::<Vec<usize>>());
}

#[test]
fn diffs_keep_both_texts() {
    let old = text::split_text("a\nb\nc", '\n');
    let new = text::split_text("a\nx\nc", '\n');
    let changes = line_diff::line_diff(&old, &new);
    let kinds: Vec<String> = changes.iter().map(|line| format!("{:?}", line.kind)).collect();
    assert!(kinds.contains(&"Added".to_string()) && kinds.contains(&"Removed".to_string()));
    let kept: Vec<&String> = changes
        .iter()
        .filter(|line| format!("{:?}", line.kind) != "Added")
        .map(|line| &line.text)
        .collect();
    assert_eq!(kept, old.iter().collect::<Vec<_>>());
    let after: Vec<&String> = changes
        .iter()
        .filter(|line| format!("{:?}", line.kind) != "Removed")
        .map(|line| &line.text)
        .collect();
    assert_eq!(after, new.iter().collect::<Vec<_>>());
}

#[test]
fn texts_are_cut_between_characters() {
    assert_eq!(text::truncate_utf8("héllo".into(), 2), "h");
    assert_eq!(text::truncate_utf8("héllo".into(), 3), "hé");
    assert_eq!(text::truncate_utf8("hi".into(), 9), "hi");
}

#[test]
fn valid_runs_always_go_on() {
    let definition = builtin("production-change").unwrap();
    assert!(workflow::validate_definition(&definition).is_ok());
    let mut run = WorkflowRun::start(
        "run".into(),
        SessionId("owner".into()),
        "/owner".into(),
        "/work".into(),
        definition,
        "input".into(),
        1,
    );
    assert_eq!(run.status, RunStatus::Pending);
    let mut rounds = 0;
    while run.steps.iter().any(|step| step.status != StepStatus::Completed) {
        let ready = workflow_run::ready_list(&run.steps);
        assert!(!ready.is_empty());
        for index in ready {
            run.steps[index].status = StepStatus::Completed;
        }
        rounds += 1;
    }
    assert_eq!(rounds, 6);
    assert!(!workflow_run::terminal(RunStatus::Running));
    assert!(workflow_run::terminal(RunStatus::Paused));
}

#[test]
fn workflow_refusals_are_worded() {
    let step = |id: &str, needs: &[&str]| workflow::WorkflowStepDefinition::Checkpoint {
        id: id.into(),
        description: None,
        depends_on: needs.iter().map(|need| need.to_string()).collect(),
    };
    let definition = |steps| workflow::WorkflowDefinition {
        name: "w".into(),
        description: None,
        steps,
    };
    let refusal = |steps| workflow::validate_definition(&definition(steps)).unwrap_err().message();
    assert_eq!(refusal(vec![]), "workflow name and steps must not be empty");
    assert_eq!(
        refusal(vec![step("a", &[]), step("a", &[])]),
        "workflow step IDs must be unique and non-empty"
    );
    assert_eq!(
        refusal(vec![step("a", &["b"])]),
        "step a has invalid dependency b"
    );
    assert!(refusal(vec![step("a", &["b"]), step("b", &["a"])])
        .starts_with("workflow dependency cycle at "));
}
