use torii::actions::hints;
use torii::actions::lookup;
use torii::actions::palette;
use torii::actions::ActionContext;
use torii::actions::ActionId;
use torii::actions::KeyBinding;
use torii::actions::KeyCode;
use torii::actions::KeyEvent;
use torii::actions::KeyModifiers;
use torii::agent_layout::AgentLayout;
use torii::geometry::Rect;
use torii::markdown::code_blocks;
use torii::markdown::render;
use torii::markdown::render_output;
use torii::markdown_events;
use torii::picker;
use torii::picker::PickerRow;
use torii::picker::PickerSpec;
use torii::prompt::desired_height;
use torii::prompt::layout;
use torii::state::AppState;
use torii::styled::TextLine;

fn rect(x: u16, y: u16, width: u16, height: u16) -> Rect {
    Rect {
        x,
        y,
        width,
        height,
    }
}

fn text(lines: &[TextLine]) -> String {
    lines
        .iter()
        .map(|line| {
            line.spans
                .iter()
                .map(|span| span.text.as_str())
                .collect::<String>()
        })
        .collect::<Vec<_>>()
        .join("\n")
}

#[test]
fn wraps_and_tracks_cursor_across_explicit_lines() {
    let prompt = layout("abcd\nef", 6, 3);
    assert_eq!(prompt.lines, vec!["abc", "d", "ef"]);
    assert_eq!((prompt.cursor_row, prompt.cursor_column), (2, 1));
}

#[test]
fn desired_height_is_bounded() {
    assert_eq!(desired_height("one", 3, 20, 8), 3);
    assert_eq!(desired_height("a\nb\nc\nd", 7, 20, 2), 4);
}

#[test]
fn renders_gfm_table_with_borders() {
    let source = vec![
        "| Name | State |".into(),
        "| --- | ---: |".into(),
        "| worker | running |".into(),
    ];
    let rendered = render_output(&source, 60);
    let output = text(&rendered.lines);
    assert!(output.contains("┌"));
    assert!(output.contains("worker"));
    assert!(!output.contains("| ---"));
}

#[test]
fn narrow_tables_fall_back_without_exceeding_the_viewport() {
    let source = vec![
        "| A | B | C |".into(),
        "| - | - | - |".into(),
        "| 1 | 2 | 3 |".into(),
    ];
    let rendered = render_output(&source, 5);
    assert!(rendered.lines.iter().all(|line| {
        unicode_width::UnicodeWidthStr::width(
            line.spans
                .iter()
                .map(|span| span.text.as_str())
                .collect::<String>()
                .as_str(),
        ) <= 5
    }));
}

#[test]
fn preserves_code_block_body_for_copy() {
    let source = vec!["```rust".into(), "fn main() {}".into(), "```".into()];
    let rendered = render_output(&source, 60);
    assert_eq!(rendered.code_blocks.len(), 1);
    assert_eq!(rendered.code_blocks[0].info, "rust");
    assert_eq!(rendered.code_blocks[0].body, "fn main() {}");
    let read = code_blocks(&source);
    assert_eq!(read.len(), 1);
    assert_eq!(read[0].body, "fn main() {}");
}

#[test]
fn renders_quotes_links_strike_and_rules_semantically() {
    let source = vec![
        "> [docs](https://example.com) and ~~old~~".into(),
        "".into(),
        "---".into(),
    ];
    let output = text(&render(&source, 60));
    assert!(output.contains("│ "));
    assert!(output.contains("https://example.com"));
    assert!(output.contains("─"));
}

#[test]
fn markup_options_are_those_of_the_parser() {
    let render = pulldown_cmark::Options::ENABLE_STRIKETHROUGH
        | pulldown_cmark::Options::ENABLE_TABLES
        | pulldown_cmark::Options::ENABLE_TASKLISTS
        | pulldown_cmark::Options::ENABLE_MATH
        | pulldown_cmark::Options::ENABLE_GFM;
    assert_eq!(markdown_events::RENDER_OPTIONS, render.bits());
    let code = pulldown_cmark::Options::ENABLE_TABLES
        | pulldown_cmark::Options::ENABLE_TASKLISTS
        | pulldown_cmark::Options::ENABLE_GFM;
    assert_eq!(markdown_events::CODE_OPTIONS, code.bits());
}

#[test]
fn selection_is_kept_inside_a_bounded_viewport() {
    let rows = (0..40)
        .map(|i| PickerRow::item(i, &format!("row {i}")))
        .collect::<Vec<_>>();
    let spec = PickerSpec {
        title: "Picker",
        query: Some(("Search", "")),
        notes: &[],
        rows: &rows,
        footer: "Enter confirm",
        max_width: 90,
        max_height: 18,
    };
    let layout = picker::layout(rect(0, 0, 100, 24), &spec, 30);
    assert!(layout.visible_start <= 30);
    assert!(layout.visible_end > 30);
    assert!(layout.visible_end < rows.len());
}

#[test]
fn hit_testing_skips_headers() {
    let rows = vec![PickerRow::header("General"), PickerRow::item(0, "First")];
    let spec = PickerSpec {
        title: "Settings",
        query: None,
        notes: &[],
        rows: &rows,
        footer: "Esc close",
        max_width: 80,
        max_height: 20,
    };
    let layout = picker::layout(rect(0, 0, 100, 30), &spec, 0);
    assert_eq!(
        picker::item_at(layout, &rows, layout.rows.x, layout.rows.y),
        None
    );
    assert_eq!(
        picker::item_at(layout, &rows, layout.rows.x, layout.rows.y + 1),
        Some(0)
    );
}

#[test]
fn prompt_grows_without_starving_scrollback() {
    let mut state = AppState::default();
    state.composer.prompt = "one\ntwo\nthree".into();
    state.composer.cursor = state.composer.prompt.chars().count();
    let layout = AgentLayout::compute(rect(0, 0, 100, 30), &state);
    assert_eq!(layout.prompt.height, 5);
    assert!(layout.scrollback.height >= 5);
}

#[test]
fn short_terminals_use_compact_chrome() {
    let state = AppState::default();
    let layout = AgentLayout::compute(rect(0, 0, 80, 20), &state);
    assert!(layout.compact);
    assert_eq!(layout.outer, rect(0, 0, 80, 20));
    assert_eq!(layout.shortcuts.height, 1);
}

#[test]
fn streaming_does_not_move_the_prompt() {
    let idle = AppState::default();
    let mut streaming = idle.clone();
    streaming.transcript.streaming = true;
    streaming.transcript.turn_started_at = Some(1);
    let area = rect(0, 0, 100, 30);
    assert_eq!(
        AgentLayout::compute(area, &idle).prompt,
        AgentLayout::compute(area, &streaming).prompt
    );
}

#[test]
fn lookup_is_exactly_contextual() {
    let tab = KeyEvent::new(KeyCode::Tab, KeyModifiers::none());
    assert_eq!(
        lookup(&tab, ActionContext::Prompt),
        Some(ActionId::FocusScrollback)
    );
    assert_eq!(
        lookup(&tab, ActionContext::Scrollback),
        Some(ActionId::FocusPrompt)
    );
    assert_eq!(lookup(&tab, ActionContext::Agent), None);
}

#[test]
fn palette_and_hints_share_definitions() {
    let model = palette("model");
    assert_eq!(model.len(), 1);
    assert_eq!(model[0].id, ActionId::ModelPicker);
    let hints = hints(&vec![ActionContext::Prompt, ActionContext::Agent]);
    assert!(hints.iter().any(|action| action.id == ActionId::SendPrompt));
    assert!(hints.iter().any(|action| action.id == ActionId::CycleMode));
}

#[test]
fn key_display_is_human_readable() {
    assert_eq!(
        KeyBinding::new(KeyCode::Char('m'), KeyModifiers::control()).display(),
        "Ctrl+M"
    );
    assert_eq!(
        KeyBinding::new(KeyCode::BackTab, KeyModifiers::shift()).display(),
        "Shift+Tab"
    );
}

#[test]
fn markdown_renders_numbered_lists_and_checkboxes() {
    let source: Vec<String> = vec![
        "## Next Steps".into(),
        "1. Run the test suite".into(),
        "2. Push the changes".into(),
        "### Done".into(),
        "- [x] Wire compaction".into(),
        "- [ ] Visual review".into(),
    ];
    let lines = render(&source, 80);
    let text: Vec<String> = lines
        .iter()
        .map(|line| {
            line.spans
                .iter()
                .map(|span| span.text.as_str())
                .collect::<String>()
        })
        .collect();
    assert!(
        text.iter()
            .any(|line| line.contains("1. Run the test suite")),
        "numbered list should keep the number, got: {text:?}"
    );
    assert!(text.iter().any(|line| line.contains("☑ Wire compaction")));
    assert!(text.iter().any(|line| line.contains("☐ Visual review")));
}
