//! What the dialogs show, and what the pointer hits in them.

use vstd::prelude::*;

use crate::agent_layout;
use crate::agent_layout::AgentLayout;
use crate::choices;
use crate::composer_state;
use crate::geometry;
use crate::geometry::Rect;
use crate::images;
use crate::offers;
use crate::paste_editor;
use crate::picker;
use crate::picker::PickerLayout;
use crate::picker::PickerRow;
use crate::picker::PickerSpec;
use crate::sessions;
use crate::slash;
use crate::slash::Suggestion;
use crate::state::AppState;
use crate::state_types::OverlayKind;
use crate::state_types::TreeFilter;
use crate::text;
use crate::tree;
use crate::width;

verus! {

broadcast use vstd::string::group_string_axioms;

/// A dialog that is typed into.
pub open spec fn takes_text(overlay: OverlayKind) -> bool {
    match overlay {
        OverlayKind::CommandPalette => true,
        OverlayKind::ModelPicker => true,
        OverlayKind::SessionPicker => true,
        OverlayKind::SessionRename => true,
        OverlayKind::TreeSummaryEditor => true,
        OverlayKind::LabelEditor => true,
        OverlayKind::FilePicker => true,
        OverlayKind::ScopedModels => true,
        OverlayKind::SubagentModelPicker => true,
        OverlayKind::OauthPrompt => true,
        OverlayKind::OauthSelect => true,
        OverlayKind::LoginProvider => true,
        OverlayKind::RewindPicker => true,
        _ => false,
    }
}

/// Whether a dialog is typed into.
pub fn overlay_has_query(overlay: OverlayKind) -> (r: bool)
    ensures
        r == takes_text(overlay),
{
    match overlay {
        OverlayKind::CommandPalette => true,
        OverlayKind::ModelPicker => true,
        OverlayKind::SessionPicker => true,
        OverlayKind::SessionRename => true,
        OverlayKind::TreeSummaryEditor => true,
        OverlayKind::LabelEditor => true,
        OverlayKind::FilePicker => true,
        OverlayKind::ScopedModels => true,
        OverlayKind::SubagentModelPicker => true,
        OverlayKind::OauthPrompt => true,
        OverlayKind::OauthSelect => true,
        OverlayKind::LoginProvider => true,
        OverlayKind::RewindPicker => true,
        _ => false,
    }
}

/// The title of a dialog.
pub open spec fn title_of(overlay: OverlayKind) -> Seq<char> {
    match overlay {
        OverlayKind::CommandPalette => "Commands"@,
        OverlayKind::ModelPicker => "Select model"@,
        OverlayKind::WorkflowPicker => "Workflow catalog"@,
        OverlayKind::WorkflowPreview => "Workflow preflight"@,
        OverlayKind::SessionPicker => "Resume session"@,
        OverlayKind::SessionRename => "Rename session"@,
        OverlayKind::SessionDeleteConfirm => "Delete session?"@,
        OverlayKind::TreePicker => "Session tree"@,
        OverlayKind::ForkPicker => "Fork from prompt"@,
        OverlayKind::TreeSummaryPicker => "Summarize branch?"@,
        OverlayKind::TreeSummaryEditor => "Custom summary instructions"@,
        OverlayKind::PasteEditor => "Edit pasted text"@,
        OverlayKind::ImageViewer => "Image attachment"@,
        OverlayKind::LabelEditor => "Entry label"@,
        OverlayKind::FilePicker => "Reference file"@,
        OverlayKind::ScopedModels => "Scoped models"@,
        OverlayKind::SubagentModelPicker => "Subagent model"@,
        OverlayKind::OauthPrompt => "OAuth input"@,
        OverlayKind::OauthSelect => "OAuth selection"@,
        OverlayKind::LoginProvider => "Login provider"@,
        OverlayKind::ThinkingPicker => "Thinking effort"@,
        OverlayKind::RewindPicker => "Rewind file edit"@,
        OverlayKind::Settings => "Settings"@,
        OverlayKind::Extensions => "Extensions"@,
        OverlayKind::Permission => "Permission required"@,
        OverlayKind::Closed => ""@,
    }
}

fn title(overlay: OverlayKind) -> (r: &'static str)
    ensures
        r@ == title_of(overlay),
{
    match overlay {
        OverlayKind::CommandPalette => "Commands",
        OverlayKind::ModelPicker => "Select model",
        OverlayKind::WorkflowPicker => "Workflow catalog",
        OverlayKind::WorkflowPreview => "Workflow preflight",
        OverlayKind::SessionPicker => "Resume session",
        OverlayKind::SessionRename => "Rename session",
        OverlayKind::SessionDeleteConfirm => "Delete session?",
        OverlayKind::TreePicker => "Session tree",
        OverlayKind::ForkPicker => "Fork from prompt",
        OverlayKind::TreeSummaryPicker => "Summarize branch?",
        OverlayKind::TreeSummaryEditor => "Custom summary instructions",
        OverlayKind::PasteEditor => "Edit pasted text",
        OverlayKind::ImageViewer => "Image attachment",
        OverlayKind::LabelEditor => "Entry label",
        OverlayKind::FilePicker => "Reference file",
        OverlayKind::ScopedModels => "Scoped models",
        OverlayKind::SubagentModelPicker => "Subagent model",
        OverlayKind::OauthPrompt => "OAuth input",
        OverlayKind::OauthSelect => "OAuth selection",
        OverlayKind::LoginProvider => "Login provider",
        OverlayKind::ThinkingPicker => "Thinking effort",
        OverlayKind::RewindPicker => "Rewind file edit",
        OverlayKind::Settings => "Settings",
        OverlayKind::Extensions => "Extensions",
        OverlayKind::Permission => "Permission required",
        OverlayKind::Closed => "",
    }
}

/// What stands in front of the text that is typed.
pub open spec fn query_label_of(overlay: OverlayKind) -> Option<Seq<char>> {
    if !takes_text(overlay) {
        None
    } else {
        Some(
            match overlay {
                OverlayKind::LabelEditor => "Label"@,
                OverlayKind::SessionRename => "Name"@,
                OverlayKind::TreeSummaryEditor => "Instructions"@,
                OverlayKind::OauthPrompt => "Reply"@,
                _ => "Search"@,
            },
        )
    }
}

/// The line below the rows.
pub open spec fn footer_of(overlay: OverlayKind) -> Seq<char> {
    match overlay {
        OverlayKind::SessionPicker =>
            "↑/↓ navigate · Enter open · Ctrl+S sort · Ctrl+N named · Ctrl+P paths · Ctrl+R rename · Ctrl+D delete · Esc close"@,
        OverlayKind::ScopedModels => "↑/↓ navigate · Space toggle · Enter apply · Esc back"@,
        OverlayKind::Settings => "↑/↓ navigate · Space/Enter change · Esc close"@,
        OverlayKind::WorkflowPreview => "↑/↓ scroll · Enter use workflow · Esc back"@,
        OverlayKind::SessionDeleteConfirm => "Enter delete · Esc cancel"@,
        _ => "↑/↓ navigate · Enter confirm · Esc close"@,
    }
}

fn footer(overlay: OverlayKind) -> (r: &'static str)
    ensures
        r@ == footer_of(overlay),
{
    match overlay {
        OverlayKind::SessionPicker =>
            "↑/↓ navigate · Enter open · Ctrl+S sort · Ctrl+N named · Ctrl+P paths · Ctrl+R rename · Ctrl+D delete · Esc close",
        OverlayKind::ScopedModels => "↑/↓ navigate · Space toggle · Enter apply · Esc back",
        OverlayKind::Settings => "↑/↓ navigate · Space/Enter change · Esc close",
        OverlayKind::WorkflowPreview => "↑/↓ scroll · Enter use workflow · Esc back",
        OverlayKind::SessionDeleteConfirm => "Enter delete · Esc cancel",
        _ => "↑/↓ navigate · Enter confirm · Esc close",
    }
}

fn query_label(overlay: OverlayKind) -> (r: Option<&'static str>)
    ensures
        match r {
            Some(label) => query_label_of(overlay) == Some(label@),
            None => query_label_of(overlay) is None,
        },
{
    if !overlay_has_query(overlay) {
        return None;
    }
    match overlay {
        OverlayKind::LabelEditor => Some("Label"),
        OverlayKind::SessionRename => Some("Name"),
        OverlayKind::TreeSummaryEditor => Some("Instructions"),
        OverlayKind::OauthPrompt => Some("Reply"),
        _ => Some("Search"),
    }
}

/// The text that is typed, as it is shown: a reply to a login stays hidden.
pub open spec fn shown_query(s: AppState) -> Seq<char> {
    if s.dialog.overlay == OverlayKind::OauthPrompt {
        Seq::new(s.dialog.overlay_query@.len(), |i: int| '•')
    } else {
        s.dialog.overlay_query@
    }
}

/// The text that is typed, as it is shown.
pub fn display_query(s: &AppState) -> (r: String)
    ensures
        r@ == shown_query(*s),
{
    if s.dialog.overlay != OverlayKind::OauthPrompt {
        return s.dialog.overlay_query.clone();
    }
    let chars: Vec<char> = text::chars_of(s.dialog.overlay_query.as_str());
    let mut out: Vec<char> = Vec::new();
    let mut i: usize = 0;
    while i < chars.len()
        invariant
            i <= chars@.len(),
            out@ == Seq::new(i as nat, |k: int| '•'),
        decreases chars@.len() - i,
    {
        out.push('•');
        i += 1;
        assert(out@ =~= Seq::new(i as nat, |k: int| '•'));
    }
    text::string_of(&out)
}

/// The lines above the rows.
pub open spec fn notes_of(s: AppState, empty: bool) -> Seq<Seq<char>> {
    let kind = s.dialog.overlay;
    (if kind == OverlayKind::SessionPicker {
        seq![
            "Sort "@ + s.sessions.session_sort.name() + "  ·  "@ + choices::flag_word(
                s.sessions.session_named_only,
                "named"@,
                "all"@,
            ) + " sessions  ·  paths "@ + choices::flag_word(
                s.sessions.session_show_path,
                "shown"@,
                "hidden"@,
            ),
        ]
    } else if kind == OverlayKind::SessionDeleteConfirm {
        seq![
            "Delete "@ + (match s.sessions.pending_session_path {
                Some(path) => path@,
                None => Seq::empty(),
            }) + "? This cannot be undone."@,
        ]
    } else if kind == OverlayKind::Permission {
        match s.pending_permission {
            Some(request) => seq!["Tool: "@ + request.tool@, request.reason@],
            None => Seq::empty(),
        }
    } else if kind == OverlayKind::OauthPrompt || kind == OverlayKind::OauthSelect {
        match s.pending_oauth {
            Some(request) => seq![request.message@],
            None => Seq::empty(),
        }
    } else {
        Seq::empty()
    }) + (if kind == OverlayKind::SessionPicker && empty {
        seq![
            choices::flag_word(
                s.sessions.session_named_only,
                "No named sessions. Ctrl+N shows all sessions."@,
                "No sessions found."@,
            ),
        ]
    } else {
        Seq::empty()
    })
}

fn word(flag: bool, yes: &'static str, no: &'static str) -> (r: &'static str)
    ensures
        r@ == choices::flag_word(flag, yes@, no@),
{
    if flag {
        yes
    } else {
        no
    }
}

fn notes(s: &AppState, empty: bool) -> (r: Vec<String>)
    ensures
        text::views(r@) == notes_of(*s, empty),
        r@.len() <= 2,
{
    let mut out: Vec<String> = Vec::new();
    match s.dialog.overlay {
        OverlayKind::SessionPicker => {
            let mut line: String = text::joined3("Sort ", s.sessions.session_sort.label(), "  ·  ");
            line.append(word(s.sessions.session_named_only, "named", "all"));
            line.append(" sessions  ·  paths ");
            line.append(word(s.sessions.session_show_path, "shown", "hidden"));
            out.push(line);
            if empty {
                out.push(
                    word(
                        s.sessions.session_named_only,
                        "No named sessions. Ctrl+N shows all sessions.",
                        "No sessions found.",
                    ).to_owned(),
                );
            }
            assert(text::views(out@) =~= notes_of(*s, empty));
        },
        OverlayKind::SessionDeleteConfirm => {
            let mut line: String = "Delete ".to_owned();
            if let Some(path) = &s.sessions.pending_session_path {
                line.append(path.as_str());
            }
            line.append("? This cannot be undone.");
            out.push(line);
            assert(line@ =~= notes_of(*s, empty)[0]);
            assert(text::views(out@) =~= notes_of(*s, empty));
        },
        OverlayKind::Permission => {
            if let Some(request) = &s.pending_permission {
                out.push(text::joined("Tool: ", request.tool.as_str()));
                out.push(request.reason.clone());
            }
            assert(text::views(out@) =~= notes_of(*s, empty));
        },
        OverlayKind::OauthPrompt => {
            if let Some(request) = &s.pending_oauth {
                out.push(request.message.clone());
            }
            assert(text::views(out@) =~= notes_of(*s, empty));
        },
        OverlayKind::OauthSelect => {
            if let Some(request) = &s.pending_oauth {
                out.push(request.message.clone());
            }
            assert(text::views(out@) =~= notes_of(*s, empty));
        },
        _ => {
            assert(text::views(out@) =~= notes_of(*s, empty));
        },
    }
    out
}

/// The parts of a row of the palette.
pub open spec fn row_parts(s: AppState, place: int) -> Seq<Seq<char>> {
    text::pieces(choices::place_text(s, place), choices::dot())
}

/// What a row says of a place.
pub open spec fn row_label(s: AppState, place: int) -> Seq<char> {
    match s.dialog.overlay {
        OverlayKind::ScopedModels => s.offers.available_models@[place].display_name@,
        OverlayKind::CommandPalette => row_parts(s, place)[0],
        _ => choices::place_text(s, place),
    }
}

/// What stands behind the label of a row: the provider of a model, or the
/// description of an action or a command.
pub open spec fn row_description(s: AppState, place: int) -> Seq<char> {
    match s.dialog.overlay {
        OverlayKind::ModelPicker => offers::provider_name(s.offers.available_models@[place]),
        OverlayKind::ScopedModels => offers::provider_name(s.offers.available_models@[place]),
        OverlayKind::SubagentModelPicker => if place < s.offers.available_models@.len() {
            offers::provider_name(s.offers.available_models@[place])
        } else {
            Seq::empty()
        },
        OverlayKind::CommandPalette => {
            let parts = row_parts(s, place);
            if parts.len() == 3 {
                parts[2]
            } else if parts.len() == 2 {
                parts[1]
            } else {
                Seq::empty()
            }
        },
        _ => Seq::empty(),
    }
}

/// What stands at the right end of a row: the key of an action.
pub open spec fn row_right(s: AppState, place: int) -> Seq<char> {
    if s.dialog.overlay == OverlayKind::CommandPalette && row_parts(s, place).len() == 3 {
        row_parts(s, place)[1]
    } else {
        Seq::empty()
    }
}

/// A row stands for what is in use.
pub open spec fn row_current(s: AppState, place: int) -> bool {
    match s.dialog.overlay {
        OverlayKind::ModelPicker => s.offers.available_models@[place].display_name@ == s.model@,
        OverlayKind::SubagentModelPicker => match s.offers.runtime_settings.subagent_model {
            None => place >= s.offers.available_models@.len(),
            Some(id) => place < s.offers.available_models@.len()
                && s.offers.available_models@[place].id@ == id@,
        },
        OverlayKind::SessionPicker => s.sessions.available_sessions@[place].current,
        _ => false,
    }
}

/// A row shows the place that it stands for.
pub open spec fn row_shows(s: AppState, k: int, place: int, row: PickerRow) -> bool {
    &&& row.item_index == Some(k as usize)
    &&& row.label@ == row_label(s, place)
    &&& row.description@ == row_description(s, place)
    &&& row.right@ == row_right(s, place)
    &&& row.badge@.len() == 0
    &&& row.checked == (if s.dialog.overlay == OverlayKind::ScopedModels {
        Some(choices::scoped(s, place))
    } else {
        None
    })
    &&& row.current == row_current(s, place)
    &&& !row.disabled
    &&& !row.header
}

/// A row shows a setting.
pub open spec fn setting_shows(s: AppState, i: int, row: PickerRow) -> bool {
    &&& row.item_index == Some(i as usize)
    &&& row.label@ == choices::setting_names()[i]
    &&& row.description@ == choices::setting_descriptions()[i]
    &&& row.right@ == choices::setting_value(s, i)
    &&& row.badge@.len() == 0
    &&& row.checked is None
    &&& !row.current
    &&& !row.disabled
    &&& !row.header
}

/// A row is the title of the rows below it.
pub open spec fn heads(row: PickerRow, label: Seq<char>) -> bool {
    &&& row.item_index is None
    &&& row.label@ == label
    &&& row.description@.len() == 0
    &&& row.right@.len() == 0
    &&& row.badge@.len() == 0
    &&& row.checked is None
    &&& !row.current
    &&& !row.disabled
    &&& row.header
}

/// The rows of the settings: three groups, each below its title.
pub open spec fn settings_show(s: AppState, rows: Seq<PickerRow>) -> bool {
    &&& rows.len() == 12
    &&& heads(rows[0], "Agent behavior"@)
    &&& forall|i: int| 0 <= i < 6 ==> setting_shows(s, i, #[trigger] rows[i + 1])
    &&& heads(rows[7], "Models"@)
    &&& setting_shows(s, 6, rows[8])
    &&& setting_shows(s, 7, rows[9])
    &&& heads(rows[10], "Appearance"@)
    &&& setting_shows(s, 8, rows[11])
}

/// The one row of the question whether a session is to be deleted.
pub open spec fn delete_row(row: PickerRow) -> bool {
    &&& row.item_index == Some(0usize)
    &&& row.label@ == "Delete session"@
    &&& row.description@.len() == 0
    &&& row.right@.len() == 0
    &&& row.badge@.len() == 0
    &&& row.checked is None
    &&& !row.current
    &&& !row.disabled
    &&& !row.header
}

/// The rows of a dialog for the places that it lists.
pub open spec fn rows_show(s: AppState, places: Seq<usize>, rows: Seq<PickerRow>) -> bool {
    if s.dialog.overlay == OverlayKind::Settings {
        settings_show(s, rows)
    } else if s.dialog.overlay == OverlayKind::SessionDeleteConfirm {
        rows.len() == 1 && delete_row(rows[0])
    } else {
        &&& rows.len() == places.len()
        &&& forall|k: int|
            0 <= k < rows.len() ==> row_shows(s, k, places[k] as int, #[trigger] rows[k])
    }
}

/// What a dialog shows.
pub struct PickerData {
    pub title: &'static str,
    pub query_label: Option<&'static str>,
    pub notes: Vec<String>,
    pub rows: Vec<PickerRow>,
    pub footer: &'static str,
    pub max_width: u16,
    pub max_height: u16,
}

/// A dialog shows its title, its notes, its rows and its footer.
pub open spec fn picker_shows(s: AppState, places: Seq<usize>, d: PickerData) -> bool {
    let kind = s.dialog.overlay;
    &&& d.title@ == title_of(kind)
    &&& match d.query_label {
        Some(label) => query_label_of(kind) == Some(label@),
        None => query_label_of(kind) is None,
    }
    &&& rows_show(s, places, d.rows@)
    &&& text::views(d.notes@) == notes_of(s, d.rows@.len() == 0)
    &&& d.footer@ == footer_of(kind)
    &&& d.max_width == (if kind == OverlayKind::WorkflowPreview {
        110u16
    } else {
        92u16
    })
    &&& d.max_height == (if kind == OverlayKind::WorkflowPreview {
        30u16
    } else {
        24u16
    })
}

fn setting_row(s: &AppState, i: usize) -> (r: PickerRow)
    requires
        i < 9,
    ensures
        setting_shows(*s, i as int, r),
{
    let mut row: PickerRow = PickerRow::item(i, choices::setting_name(i));
    row.right = s.setting_text(i);
    row.description = choices::setting_description(i).to_owned();
    row
}

/// The rows of the settings.
pub fn settings_rows(s: &AppState) -> (r: Vec<PickerRow>)
    ensures
        settings_show(*s, r@),
{
    let mut rows: Vec<PickerRow> = Vec::new();
    rows.push(PickerRow::header("Agent behavior"));
    rows.push(setting_row(s, 0));
    rows.push(setting_row(s, 1));
    rows.push(setting_row(s, 2));
    rows.push(setting_row(s, 3));
    rows.push(setting_row(s, 4));
    rows.push(setting_row(s, 5));
    rows.push(PickerRow::header("Models"));
    rows.push(setting_row(s, 6));
    rows.push(setting_row(s, 7));
    rows.push(PickerRow::header("Appearance"));
    rows.push(setting_row(s, 8));
    rows
}

fn describe_command(s: &AppState, place: usize, row: &mut PickerRow)
    requires
        s.dialog.overlay == OverlayKind::CommandPalette,
        old(row).label@ == choices::place_text(*s, place as int),
        old(row).description@.len() == 0,
        old(row).right@.len() == 0,
    ensures
        *final(row) == (PickerRow {
            label: final(row).label,
            description: final(row).description,
            right: final(row).right,
            ..*old(row)
        }),
        final(row).label@ == row_label(*s, place as int),
        final(row).description@ == row_description(*s, place as int),
        final(row).right@ == row_right(*s, place as int),
{
    proof {
        reveal_strlit("  ·  ");
    }
    let parts: Vec<String> = text::split_pieces(row.label.as_str(), "  ·  ");
    let ghost views = text::views(parts@);
    assert(views.len() == parts@.len());
    assert(views[0] == parts@[0]@);
    row.label = parts[0].clone();
    if parts.len() == 3 {
        assert(views[1] == parts@[1]@ && views[2] == parts@[2]@);
        row.right = parts[1].clone();
        row.description = parts[2].clone();
    } else if parts.len() == 2 {
        assert(views[1] == parts@[1]@);
        row.description = parts[1].clone();
        assert(row.right@ =~= Seq::<char>::empty());
    } else {
        assert(row.right@ =~= Seq::<char>::empty());
        assert(row.description@ =~= Seq::<char>::empty());
    }
}

fn picker_row(s: &AppState, k: usize, place: usize) -> (r: PickerRow)
    requires
        choices::place_exists(*s, place as int),
    ensures
        row_shows(*s, k as int, place as int, r),
{
    let item: String = s.overlay_text(place);
    let mut row: PickerRow = PickerRow::item(k, item.as_str());
    assert(row.right@ =~= Seq::<char>::empty());
    assert(row.description@ =~= Seq::<char>::empty());
    match s.dialog.overlay {
        OverlayKind::ModelPicker => {
            let model: &crate::harness::ModelInfo = &s.offers.available_models[place];
            row.description = offers::provider_label(model);
            row.current = text::same_text(model.display_name.as_str(), s.model.as_str());
        },
        OverlayKind::ScopedModels => {
            let model: &crate::harness::ModelInfo = &s.offers.available_models[place];
            row.description = offers::provider_label(model);
            row.checked = Some(
                text::list_has(&s.offers.runtime_settings.enabled_models, model.id.as_str()),
            );
            row.label = model.display_name.clone();
        },
        OverlayKind::SubagentModelPicker => {
            if place < s.offers.available_models.len() {
                let model: &crate::harness::ModelInfo = &s.offers.available_models[place];
                row.description = offers::provider_label(model);
                row.current = match &s.offers.runtime_settings.subagent_model {
                    None => false,
                    Some(id) => text::same_text(model.id.as_str(), id.as_str()),
                };
            } else {
                row.current = s.offers.runtime_settings.subagent_model.is_none();
            }
        },
        OverlayKind::SessionPicker => {
            row.current = s.sessions.available_sessions[place].current;
        },
        OverlayKind::CommandPalette => {
            describe_command(s, place, &mut row);
        },
        _ => {},
    }
    row
}

/// The places that the open dialog lists, and what it shows for them.
pub fn generic_picker_data(s: &AppState) -> (r: PickerData)
    ensures
        exists|places: Seq<usize>|
            choices::lists_places(*s, places) && #[trigger] picker_shows(*s, places, r),
        r.notes@.len() <= 2,
{
    let kind: OverlayKind = s.dialog.overlay;
    let places: Vec<usize> = s.overlay_places();
    let rows: Vec<PickerRow> = if kind == OverlayKind::Settings {
        settings_rows(s)
    } else if kind == OverlayKind::SessionDeleteConfirm {
        let mut one: Vec<PickerRow> = Vec::new();
        one.push(PickerRow::item(0, "Delete session"));
        one
    } else {
        let mut list: Vec<PickerRow> = Vec::new();
        let mut k: usize = 0;
        while k < places.len()
            invariant
                k == list@.len(),
                k <= places@.len(),
                forall|j: int|
                    0 <= j < places@.len() ==> choices::place_exists(
                        *s,
                        #[trigger] places@[j] as int,
                    ),
                forall|j: int|
                    0 <= j < k ==> row_shows(*s, j, places@[j] as int, #[trigger] list@[j]),
            decreases places@.len() - k,
        {
            list.push(picker_row(s, k, places[k]));
            k += 1;
        }
        list
    };
    let data: PickerData = PickerData {
        title: title(kind),
        query_label: query_label(kind),
        notes: notes(s, rows.len() == 0),
        rows,
        footer: footer(kind),
        max_width: if kind == OverlayKind::WorkflowPreview {
            110
        } else {
            92
        },
        max_height: if kind == OverlayKind::WorkflowPreview {
            30
        } else {
            24
        },
    };
    assert(choices::lists_places(*s, places@) && picker_shows(*s, places@, data));
    data
}

/// The last row of a window, and one more.
pub open spec fn window_end(start: int, capacity: int, count: int) -> int {
    geometry::min(start + capacity, count)
}

/// The dialog of the session tree: its place, and which entries it shows.
pub open spec fn tree_window(area: Rect, selected: int, count: int) -> (Rect, int, int) {
    let capacity = geometry::max(geometry::less(area.height as int, 10), 1);
    let start = geometry::window_start(selected, count, capacity);
    let end = window_end(start, capacity, count);
    let high = geometry::min(
        end - start + 7,
        geometry::max(geometry::less(area.height as int, 1), 1),
    );
    let wide = geometry::max(geometry::less(area.width as int, 2), 1);
    (geometry::middle(area, wide as u16, high as u16), start, end)
}

/// The dialog of the messages to fork from: its place, and which of them it
/// shows. Each takes three rows.
pub open spec fn fork_window(area: Rect, selected: int, count: int) -> (Rect, int, int) {
    let capacity = geometry::max(
        geometry::min(10, geometry::less(area.height as int, 10) / 3),
        1,
    );
    let start = geometry::window_start(selected, count, capacity);
    let end = window_end(start, capacity, count);
    let high = geometry::min(
        (end - start) * 3 + 6,
        geometry::max(geometry::less(area.height as int, 1), 1),
    );
    let wide = geometry::max(geometry::less(area.width as int, 2), 1);
    (geometry::middle(area, wide as u16, high as u16), start, end)
}

fn end_of_window(start: usize, capacity: usize, count: usize) -> (r: usize)
    requires
        start <= count,
    ensures
        r == window_end(start as int, capacity as int, count as int),
{
    if count - start <= capacity {
        count
    } else {
        start + capacity
    }
}

/// The dialog of the session tree: its place, and which entries it shows.
pub fn tree_picker_geometry(area: Rect, selected: usize, count: usize) -> (r: (Rect, usize, usize))
    requires
        area.fits(),
    ensures
        (r.0, r.1 as int, r.2 as int) == tree_window(area, selected as int, count as int),
        r.1 <= r.2 <= count,
        r.0.fits(),
{
    let capacity: usize = geometry::larger(area.height.saturating_sub(10) as usize, 1);
    let start: usize = geometry::centered_window(selected, count, capacity);
    let end: usize = end_of_window(start, capacity, count);
    let high: u16 = geometry::smaller_cells(
        (end - start) as u16 + 7,
        geometry::larger_cells(area.height.saturating_sub(1), 1),
    );
    let wide: u16 = geometry::larger_cells(area.width.saturating_sub(2), 1);
    (geometry::centered(area, wide, high), start, end)
}

/// The dialog of the messages to fork from: its place, and which of them it
/// shows.
pub fn fork_picker_geometry(area: Rect, selected: usize, count: usize) -> (r: (Rect, usize, usize))
    requires
        area.fits(),
    ensures
        (r.0, r.1 as int, r.2 as int) == fork_window(area, selected as int, count as int),
        r.1 <= r.2 <= count,
        r.0.fits(),
{
    let third: u16 = area.height.saturating_sub(10) / 3;
    let capacity: usize = geometry::larger(geometry::smaller(10, third as usize), 1);
    let start: usize = geometry::centered_window(selected, count, capacity);
    let end: usize = end_of_window(start, capacity, count);
    let high: u16 = geometry::smaller_cells(
        (end - start) as u16 * 3 + 6,
        geometry::larger_cells(area.height.saturating_sub(1), 1),
    );
    let wide: u16 = geometry::larger_cells(area.width.saturating_sub(2), 1);
    (geometry::centered(area, wide, high), start, end)
}

/// The entry of a window under a cell: the first one stands `lead` rows below
/// the top of the dialog, and each takes `rows`.
pub open spec fn window_hit(
    window: (Rect, int, int),
    lead: int,
    rows: int,
    column: int,
    row: int,
) -> Option<int> {
    let (area, start, end) = window;
    let first = geometry::min(area.y + lead, u16::MAX as int);
    if area.covers(column, row) && row >= first && (row - first) / rows < end - start {
        Some(start + (row - first) / rows)
    } else {
        None
    }
}

fn window_item(
    window: (Rect, usize, usize),
    lead: u16,
    rows: u16,
    column: u16,
    row: u16,
) -> (r: Option<usize>)
    requires
        window.1 <= window.2,
        rows > 0,
    ensures
        match r {
            Some(i) => window_hit(
                (window.0, window.1 as int, window.2 as int),
                lead as int,
                rows as int,
                column as int,
                row as int,
            ) == Some(i as int),
            None => window_hit(
                (window.0, window.1 as int, window.2 as int),
                lead as int,
                rows as int,
                column as int,
                row as int,
            ) is None,
        },
{
    if !window.0.contains(column, row) {
        return None;
    }
    let first: u16 = window.0.y.saturating_add(lead);
    if row < first {
        return None;
    }
    let offset: usize = ((row - first) / rows) as usize;
    if offset < window.2 - window.1 {
        Some(window.1 + offset)
    } else {
        None
    }
}

/// A dialog is laid out with what it shows.
pub open spec fn dialog_laid(
    area: Rect,
    data: PickerData,
    selected: usize,
    layout: PickerLayout,
) -> bool {
    picker::laid_out(
        area,
        data.query_label is Some,
        data.notes@.len() as int,
        data.rows@,
        data.max_width,
        data.max_height,
        selected,
        layout,
    )
}

fn lay_dialog(s: &AppState, area: Rect, data: &PickerData) -> (r: PickerLayout)
    requires
        area.x + area.width + 2 <= u16::MAX,
        area.y + area.height + 5 <= u16::MAX,
        data.notes@.len() <= 2,
    ensures
        dialog_laid(area, *data, s.dialog.overlay_selected, r),
{
    let query: String = display_query(s);
    let spec: PickerSpec<'_> = PickerSpec {
        title: data.title,
        query: match data.query_label {
            Some(label) => Some((label, query.as_str())),
            None => None,
        },
        notes: data.notes.as_slice(),
        rows: data.rows.as_slice(),
        footer: data.footer,
        max_width: data.max_width,
        max_height: data.max_height,
    };
    picker::layout(area, &spec, s.dialog.overlay_selected)
}

/// The frame of a terminal.
pub open spec fn frame_of(width: u16, height: u16) -> Rect {
    Rect { x: 0, y: 0, width, height }
}

/// How many entries of the session tree are listed.
pub open spec fn tree_count(s: AppState) -> int {
    tree::all_listed(s.tree, s.dialog.overlay_query@).len() as int
}

/// The item of a dialog under a cell.
pub open spec fn hits_item(
    s: AppState,
    width: u16,
    height: u16,
    column: u16,
    row: u16,
    r: Option<usize>,
) -> bool {
    let area = frame_of(width, height);
    let selected = s.dialog.overlay_selected;
    let hit = match r {
        Some(i) => Some(i as int),
        None => None,
    };
    match s.dialog.overlay {
        OverlayKind::TreePicker => hit == window_hit(
            tree_window(area, selected as int, tree_count(s)),
            4,
            1,
            column as int,
            row as int,
        ),
        OverlayKind::ForkPicker => hit == window_hit(
            fork_window(area, selected as int, tree_count(s)),
            3,
            3,
            column as int,
            row as int,
        ),
        _ => exists|places: Seq<usize>, data: PickerData, layout: PickerLayout|
            choices::lists_places(s, places) && #[trigger] picker_shows(s, places, data)
                && #[trigger] dialog_laid(area, data, selected, layout) && r == picker::item_under(
                layout,
                data.rows@,
                column as int,
                row as int,
            ),
    }
}

/// The item of the open dialog under a cell.
pub fn item_at_position(s: &AppState, width: u16, height: u16, column: u16, row: u16) -> (r: Option<
    usize,
>)
    requires
        width + 2 <= u16::MAX,
        height + 5 <= u16::MAX,
    ensures
        hits_item(*s, width, height, column, row, r),
{
    let area: Rect = Rect::new(0, 0, width, height);
    assert(area == frame_of(width, height));
    match s.dialog.overlay {
        OverlayKind::TreePicker => {
            let count: usize = s.tree.filtered(s.dialog.overlay_query.as_str()).len();
            let window: (Rect, usize, usize) = tree_picker_geometry(
                area,
                s.dialog.overlay_selected,
                count,
            );
            window_item(window, 4, 1, column, row)
        },
        OverlayKind::ForkPicker => {
            let count: usize = s.tree.filtered(s.dialog.overlay_query.as_str()).len();
            let window: (Rect, usize, usize) = fork_picker_geometry(
                area,
                s.dialog.overlay_selected,
                count,
            );
            window_item(window, 3, 3, column, row)
        },
        _ => {
            let data: PickerData = generic_picker_data(s);
            let layout: PickerLayout = lay_dialog(s, area, &data);
            let r: Option<usize> = picker::item_at(layout, data.rows.as_slice(), column, row);
            proof {
                let places = choose|places: Seq<usize>|
                    choices::lists_places(*s, places) && #[trigger] picker_shows(*s, places, data);
                assert(picker_shows(*s, places, data));
                assert(dialog_laid(area, data, s.dialog.overlay_selected, layout));
            }
            r
        },
    }
}

/// The item of the open dialog in a row, in the middle of the terminal.
pub fn item_at(s: &AppState, width: u16, height: u16, row: u16) -> (r: Option<usize>)
    requires
        width + 2 <= u16::MAX,
        height + 5 <= u16::MAX,
    ensures
        hits_item(*s, width, height, width / 2, row, r),
{
    item_at_position(s, width, height, width / 2, row)
}

/// The cell is the button in the upper right corner of a modal.
pub open spec fn on_close(modal: Rect, column: int, row: int) -> bool {
    row == modal.y && geometry::less(modal.end_x(), 6) <= column < geometry::less(
        modal.end_x(),
        1,
    )
}

fn hits_close(modal: Rect, column: u16, row: u16) -> (r: bool)
    ensures
        r == on_close(modal, column as int, row as int),
{
    row == modal.y && column >= modal.right().saturating_sub(6) && column
        < modal.right().saturating_sub(1)
}

/// The modal of the open dialog.
pub open spec fn modal_is(s: AppState, area: Rect, modal: Rect) -> bool {
    let selected = s.dialog.overlay_selected;
    match s.dialog.overlay {
        OverlayKind::TreePicker => modal == tree_window(area, selected as int, tree_count(s)).0,
        OverlayKind::ForkPicker => modal == fork_window(area, selected as int, tree_count(s)).0,
        OverlayKind::PasteEditor => modal == paste_editor::editor_area(area),
        OverlayKind::ImageViewer => exists|k: int| #[trigger]
            composer_state::viewed_place(s.composer, k) && {
                let image = s.composer.image_attachments@[k];
                modal == images::viewer_area(
                    images::display_size(
                        image.preview_width as int,
                        image.preview_height as int,
                        area,
                    ),
                    area,
                )
            },
        OverlayKind::Closed => false,
        _ => exists|places: Seq<usize>, data: PickerData, layout: PickerLayout|
            choices::lists_places(s, places) && #[trigger] picker_shows(s, places, data)
                && #[trigger] dialog_laid(area, data, selected, layout) && modal == layout.modal,
    }
}

/// The modal of the open dialog.
pub fn modal_area(s: &AppState, area: Rect) -> (r: Option<Rect>)
    requires
        area.x + area.width + 2 <= u16::MAX,
        area.y + area.height + 5 <= u16::MAX,
    ensures
        match r {
            Some(modal) => modal_is(*s, area, modal),
            None => s.dialog.overlay == OverlayKind::Closed || (s.dialog.overlay
                == OverlayKind::ImageViewer && forall|k: int|
                !#[trigger] composer_state::viewed_place(s.composer, k)),
        },
{
    match s.dialog.overlay {
        OverlayKind::TreePicker => {
            let count: usize = s.tree.filtered(s.dialog.overlay_query.as_str()).len();
            Some(tree_picker_geometry(area, s.dialog.overlay_selected, count).0)
        },
        OverlayKind::ForkPicker => {
            let count: usize = s.tree.filtered(s.dialog.overlay_query.as_str()).len();
            Some(fork_picker_geometry(area, s.dialog.overlay_selected, count).0)
        },
        OverlayKind::PasteEditor => Some(paste_editor::paste_editor_geometry(area)),
        OverlayKind::ImageViewer => match s.composer.viewed_image() {
            Some(image) => Some(images::image_viewer_geometry(image, area).0),
            None => None,
        },
        OverlayKind::Closed => None,
        _ => {
            let data: PickerData = generic_picker_data(s);
            let layout: PickerLayout = lay_dialog(s, area, &data);
            proof {
                let places = choose|places: Seq<usize>|
                    choices::lists_places(*s, places) && #[trigger] picker_shows(*s, places, data);
                assert(picker_shows(*s, places, data));
                assert(dialog_laid(area, data, s.dialog.overlay_selected, layout));
            }
            Some(layout.modal)
        },
    }
}

/// The cell is, or is not, the button that closes the open dialog.
pub open spec fn closes_at(
    s: AppState,
    width: u16,
    height: u16,
    column: u16,
    row: u16,
    r: bool,
) -> bool {
    let area = frame_of(width, height);
    ||| exists|modal: Rect| #[trigger]
        modal_is(s, area, modal) && r == on_close(modal, column as int, row as int)
    ||| !r && (s.dialog.overlay == OverlayKind::Closed || (s.dialog.overlay
        == OverlayKind::ImageViewer && forall|k: int|
        !#[trigger] composer_state::viewed_place(s.composer, k)))
}

/// Whether a cell is the button that closes the open dialog.
pub fn close_at_position(s: &AppState, width: u16, height: u16, column: u16, row: u16) -> (r: bool)
    requires
        width + 2 <= u16::MAX,
        height + 5 <= u16::MAX,
    ensures
        closes_at(*s, width, height, column, row, r),
{
    let area: Rect = Rect::new(0, 0, width, height);
    assert(area == frame_of(width, height));
    match modal_area(s, area) {
        None => false,
        Some(modal) => {
            let r: bool = hits_close(modal, column, row);
            assert(modal_is(*s, frame_of(width, height), modal));
            r
        },
    }
}

/// The list of suggestions above the draft, which stands in `prompt`, on a screen from the row
/// `top` on: its place, and which of them it shows.
pub open spec fn suggestion_window(s: AppState, top: u16, prompt: Rect, count: int) -> (
    Rect,
    int,
    int,
) {
    let above = geometry::less(prompt.y as int, top as int);
    let capacity = geometry::max(1, geometry::min(geometry::less(above, 2), 10));
    let start = geometry::window_start(s.dialog.overlay_selected as int, count, capacity);
    let end = window_end(start, capacity, count);
    let high = end - start + 2;
    (
        Rect::at(
            prompt.x as int,
            geometry::less(prompt.y as int, high),
            prompt.width as int,
            high,
        ),
        start,
        end,
    )
}

/// The suggestions for the draft.
pub open spec fn suggested(s: AppState) -> Seq<(Seq<char>, Seq<char>)> {
    slash::suggestions(s.composer.prompt@, s.composer.cursor as int, s.offers.runtime_commands@)
}

/// Whether `r` is the list of suggestions above the draft, which stands in `prompt`.
pub open spec fn suggestions_stand(
    s: AppState,
    top: u16,
    prompt: Rect,
    r: Option<(Rect, usize, usize)>,
) -> bool {
    match r {
        Some((rect, start, end)) => suggested(s).len() > 0 && (rect, start as int, end as int)
            == suggestion_window(s, top, prompt, suggested(s).len() as int),
        None => suggested(s).len() == 0,
    }
}

/// The list of suggestions above the draft, `None` if there are none.
pub fn slash_suggestion_area(s: &AppState, area: Rect) -> (r: Option<(Rect, usize, usize)>)
    requires
        s.wf(),
    ensures
        exists|layout: AgentLayout| #[trigger]
            agent_layout::laid_out(area, *s, layout) && suggestions_stand(
                *s,
                area.y,
                layout.prompt,
                r,
            ),
        agent_layout::has_room(area, *s) ==> suggestions_stand(
            *s,
            area.y,
            agent_layout::full_layout(area, *s).prompt,
            r,
        ),
        r matches Some((rect, start, end)) ==> start <= end <= suggested(*s).len() && rect.fits()
            && rect.y + 3 <= u16::MAX,
{
    let agent: AgentLayout = AgentLayout::compute(area, s);
    suggestion_area_above(s, area.y, agent.prompt)
}

/// The list of suggestions above the draft, which stands in `prompt`, `None` if there are
/// none.
pub fn suggestion_area_above(s: &AppState, top: u16, prompt: Rect) -> (r: Option<
    (Rect, usize, usize),
>)
    requires
        s.wf(),
    ensures
        suggestions_stand(*s, top, prompt, r),
        r matches Some((rect, start, end)) ==> start <= end <= suggested(*s).len() && rect.fits()
            && rect.y + 3 <= u16::MAX,
{
    let list: Vec<Suggestion> = s.slash_suggestions();
    assert(slash::offers_of(list@).len() == list@.len());
    if list.len() == 0 {
        return None;
    }
    let above: u16 = prompt.y.saturating_sub(top);
    let capacity: usize = geometry::larger(
        1,
        geometry::smaller(above.saturating_sub(2) as usize, 10),
    );
    let start: usize = geometry::centered_window(s.dialog.overlay_selected, list.len(), capacity);
    let end: usize = end_of_window(start, capacity, list.len());
    let high: u16 = (end - start + 2) as u16;
    Some((Rect::new(prompt.x, prompt.y.saturating_sub(high), prompt.width, high), start, end))
}

/// The suggestion under a cell, the draft standing in `prompt`.
pub open spec fn suggestion_hit(s: AppState, prompt: Rect, column: int, row: int) -> Option<int> {
    let count = suggested(s).len() as int;
    let (area, start, end) = suggestion_window(s, 0, prompt, count);
    if count > 0 && area.x <= column < area.end_x() && area.y + 1 <= row < geometry::less(
        area.end_y(),
        1,
    ) && start + (row - area.y - 1) < end {
        Some(start + (row - area.y - 1))
    } else {
        None
    }
}

/// The suggestion under a cell.
pub fn slash_item_at(s: &AppState, width: u16, height: u16, column: u16, row: u16) -> (r: Option<
    usize,
>)
    requires
        s.wf(),
    ensures
        exists|layout: AgentLayout| #[trigger]
            agent_layout::laid_out(frame_of(width, height), *s, layout) && place_is(
                r,
                suggestion_hit(*s, layout.prompt, column as int, row as int),
            ),
        agent_layout::has_room(frame_of(width, height), *s) ==> place_is(
            r,
            suggestion_hit(
                *s,
                agent_layout::full_layout(frame_of(width, height), *s).prompt,
                column as int,
                row as int,
            ),
        ),
{
    let frame: Rect = Rect::new(0, 0, width, height);
    assert(frame == frame_of(width, height));
    let agent: AgentLayout = AgentLayout::compute(frame, s);
    slash_item_above(s, agent.prompt, column, row)
}

/// Whether a place is the given one.
pub open spec fn place_is(r: Option<usize>, to: Option<int>) -> bool {
    match r {
        Some(i) => to == Some(i as int),
        None => to is None,
    }
}

/// The suggestion under a cell, the draft standing in `prompt`.
pub fn slash_item_above(s: &AppState, prompt: Rect, column: u16, row: u16) -> (r: Option<usize>)
    requires
        s.wf(),
    ensures
        place_is(r, suggestion_hit(*s, prompt, column as int, row as int)),
{
    match suggestion_area_above(s, 0, prompt) {
        None => None,
        Some((area, start, end)) => {
            if column < area.x || column >= area.right() {
                return None;
            }
            if row < area.y + 1 || row >= area.bottom().saturating_sub(1) {
                return None;
            }
            let offset: usize = (row - (area.y + 1)) as usize;
            if offset < end - start {
                Some(start + offset)
            } else {
                None
            }
        },
    }
}

/// A text cut to a number of characters, with an ellipsis where it was cut.
pub open spec fn cut_text(value: Seq<char>, columns: int) -> Seq<char> {
    if value.len() <= columns {
        value
    } else if columns > 1 {
        value.take(columns - 1).push('…')
    } else {
        value.take(columns)
    }
}

/// Cuts a text to a number of characters.
pub fn truncate_overlay_text(value: &str, columns: usize) -> (r: String)
    ensures
        r@ == cut_text(value@, columns as int),
{
    let chars: Vec<char> = text::chars_of(value);
    if chars.len() <= columns {
        return value.to_owned();
    }
    if columns > 1 {
        let mut out: String = text::string_between(&chars, 0, columns - 1);
        out.append("…");
        proof {
            reveal_strlit("…");
            assert(chars@.subrange(0, columns - 1) =~= value@.take(columns - 1));
            assert(out@ =~= value@.take(columns - 1).push('…'));
        }
        out
    } else {
        assert(chars@.subrange(0, columns as int) =~= value@.take(columns as int));
        text::string_between(&chars, 0, columns)
    }
}

/// The line below the session tree: which entry is selected, the filter, and
/// whether times are shown.
pub open spec fn tree_footer_of(s: AppState) -> Seq<char> {
    let count = tree_count(s);
    let at = geometry::min(s.dialog.overlay_selected + 1, count);
    "  ("@ + text::decimal(at as nat) + "/"@ + text::decimal(count as nat) + ")"@ + (
    if s.tree.tree_filter == TreeFilter::Default {
        Seq::empty()
    } else {
        " ["@ + s.tree.tree_filter.name() + "]"@
    }) + (if s.tree.tree_show_timestamps {
        " [+label time]"@
    } else {
        Seq::empty()
    })
}

/// The line below the session tree.
pub fn tree_footer(s: &AppState) -> (r: String)
    ensures
        r@ == tree_footer_of(*s),
{
    let count: usize = s.tree.filtered(s.dialog.overlay_query.as_str()).len();
    let at: usize = if s.dialog.overlay_selected < count {
        s.dialog.overlay_selected + 1
    } else {
        count
    };
    let mut out: String = "  (".to_owned();
    out.append(text::decimal_text(at as u64).as_str());
    out.append("/");
    out.append(text::decimal_text(count as u64).as_str());
    out.append(")");
    let ghost counted = out@;
    if s.tree.tree_filter != TreeFilter::Default {
        out.append(" [");
        out.append(s.tree.tree_filter.label());
        out.append("]");
    }
    assert(out@ =~= counted + (if s.tree.tree_filter == TreeFilter::Default {
        Seq::empty()
    } else {
        " ["@ + s.tree.tree_filter.name() + "]"@
    }));
    if s.tree.tree_show_timestamps {
        out.append(" [+label time]");
    }
    assert(out@ =~= tree_footer_of(*s));
    out
}

/// The lines of a message to fork from: its text behind a mark, and its number.
pub open spec fn fork_lines(
    text: Seq<char>,
    index: int,
    count: int,
    selected: bool,
) -> (Seq<char>, Seq<char>) {
    (
        (if selected {
            "› "@
        } else {
            "  "@
        }) + text::trim(text),
        "  Message "@ + text::decimal((index + 1) as nat) + " of "@ + text::decimal(count as nat),
    )
}

/// The lines of a message to fork from.
pub fn fork_row(words: &str, index: usize, count: usize, selected: bool) -> (r: (String, String))
    requires
        index < count,
    ensures
        (r.0@, r.1@) == fork_lines(words@, index as int, count as int, selected),
{
    let first: String = text::joined(
        if selected {
            "› "
        } else {
            "  "
        },
        text::trimmed(words).as_str(),
    );
    let mut second: String = "  Message ".to_owned();
    second.append(text::decimal_text((index + 1) as u64).as_str());
    second.append(" of ");
    second.append(text::decimal_text(count as u64).as_str());
    (first, second)
}

/// The columns that the names of some suggestions take.
pub open spec fn widest_name(list: Seq<(Seq<char>, Seq<char>)>) -> int
    decreases list.len(),
{
    if list.len() == 0 {
        0
    } else {
        geometry::max(
            widest_name(list.drop_last()),
            width::text_columns(list.last().0) as int,
        )
    }
}

/// The columns for the names of the suggestions that are shown.
pub open spec fn name_columns(list: Seq<(Seq<char>, Seq<char>)>, columns: int) -> int {
    geometry::min(geometry::min(widest_name(list), columns * 3 / 5), 40)
}

/// The two texts of a suggestion: the name behind a mark and filled up with
/// blanks, and the description, both cut to what there is room for.
pub open spec fn suggestion_texts(
    offer: (Seq<char>, Seq<char>),
    selected: bool,
    names: int,
    columns: int,
) -> (Seq<char>, Seq<char>) {
    let shown = cut_text(offer.0, names);
    (
        (if selected {
            "❯ "@
        } else {
            "  "@
        }) + shown + picker::blanks(geometry::less(names, width::text_columns(shown) as int))
            + "  "@,
        cut_text(offer.1, geometry::less(columns, names + 5)),
    )
}

/// The columns for the names of the suggestions that are shown.
pub fn suggestion_columns(list: &Vec<Suggestion>, start: usize, end: usize, columns: u16) -> (r:
    usize)
    requires
        start <= end <= list@.len(),
    ensures
        r == name_columns(
            slash::offers_of(list@).subrange(start as int, end as int),
            columns as int,
        ),
{
    let ghost all = slash::offers_of(list@);
    let mut widest: usize = 0;
    let mut i: usize = start;
    let limit: usize = geometry::smaller((columns as u32 * 3 / 5) as usize, 40);
    assert(all.subrange(start as int, start as int) =~= Seq::empty());
    while i < end
        invariant
            start <= i <= end <= list@.len(),
            all == slash::offers_of(list@),
            limit == geometry::min(columns * 3 / 5, 40),
            widest == geometry::min(
                widest_name(all.subrange(start as int, i as int)),
                limit as int,
            ),
        decreases end - i,
    {
        proof {
            let part = all.subrange(start as int, i + 1);
            assert(part.drop_last() =~= all.subrange(start as int, i as int));
            assert(part.last() == slash::offer(list@[i as int]));
        }
        let wide: usize = width::text_width(list[i].name.as_str());
        widest = geometry::larger(widest, geometry::smaller(wide, limit));
        i += 1;
    }
    widest
}

/// The two texts of a suggestion.
pub fn suggestion_row(suggestion: &Suggestion, selected: bool, names: usize, columns: u16) -> (r: (
    String,
    String,
))
    requires
        names <= 40,
    ensures
        (r.0@, r.1@) == suggestion_texts(
            slash::offer(*suggestion),
            selected,
            names as int,
            columns as int,
        ),
{
    let shown: String = truncate_overlay_text(suggestion.name.as_str(), names);
    let taken: usize = width::text_width(shown.as_str());
    let mut left: String = text::joined(
        if selected {
            "❯ "
        } else {
            "  "
        },
        shown.as_str(),
    );
    picker::add_blanks(&mut left, names.saturating_sub(taken));
    left.append("  ");
    let room: usize = (columns as usize).saturating_sub(names + 5);
    (left, truncate_overlay_text(suggestion.description.as_str(), room))
}

/// The title of a dialog that is no list of choices.
pub open spec fn own_title(kind: OverlayKind) -> Seq<char> {
    match kind {
        OverlayKind::TreePicker => "Session Tree"@,
        OverlayKind::ForkPicker => "Fork from Message"@,
        OverlayKind::PasteEditor => "Edit pasted text"@,
        OverlayKind::ImageViewer => "Image attachment"@,
        _ => ""@,
    }
}

/// The title of a dialog that is no list of choices; lists have their own.
pub fn dialog_title(kind: OverlayKind) -> (r: &'static str)
    ensures
        r@ == own_title(kind),
{
    match kind {
        OverlayKind::TreePicker => "Session Tree",
        OverlayKind::ForkPicker => "Fork from Message",
        OverlayKind::PasteEditor => "Edit pasted text",
        OverlayKind::ImageViewer => "Image attachment",
        _ => "",
    }
}

/// What a dialog says of its keys.
pub open spec fn own_hint(kind: OverlayKind) -> Seq<char> {
    match kind {
        OverlayKind::TreePicker =>
            " ↑/↓ navigate  ·  ←/→ page  ·  Ctrl+←/→ fold/jump  ·  Ctrl+O filter  ·  Shift+L label  ·  Shift+T time"@,
        OverlayKind::ForkPicker =>
            " Select a user message to copy the active path up to that point into a new session"@,
        OverlayKind::PasteEditor => "  Enter newline · Ctrl+Enter/Ctrl+S save · Esc cancel"@,
        OverlayKind::ImageViewer => "  Esc close"@,
        _ => ""@,
    }
}

/// What a dialog says of its keys; lists say it in their footer.
pub fn dialog_hint(kind: OverlayKind) -> (r: &'static str)
    ensures
        r@ == own_hint(kind),
{
    match kind {
        OverlayKind::TreePicker =>
            " ↑/↓ navigate  ·  ←/→ page  ·  Ctrl+←/→ fold/jump  ·  Ctrl+O filter  ·  Shift+L label  ·  Shift+T time",
        OverlayKind::ForkPicker =>
            " Select a user message to copy the active path up to that point into a new session",
        OverlayKind::PasteEditor => "  Enter newline · Ctrl+Enter/Ctrl+S save · Esc cancel",
        OverlayKind::ImageViewer => "  Esc close",
        _ => "",
    }
}

/// A text that is cut has the room it was given, begins as the text does, and shows with a dot
/// that something is missing; a text with room stays whole.
pub proof fn cut_texts_fit(value: Seq<char>, columns: int)
    requires
        columns >= 0,
    ensures
        value.len() <= columns ==> cut_text(value, columns) == value,
        value.len() > columns ==> cut_text(value, columns).len() == columns,
        value.len() > columns && columns > 1 ==> cut_text(value, columns).last() == '…'
            && cut_text(value, columns).drop_last() == value.take(columns - 1),
{
    if value.len() > columns && columns > 1 {
        assert(cut_text(value, columns).drop_last() =~= value.take(columns - 1));
    }
}

/// No name is wider than the widest.
pub proof fn names_have_room(list: Seq<(Seq<char>, Seq<char>)>, k: int) -> (at: int)
    requires
        0 <= k < list.len(),
    ensures
        width::text_columns(list[k].0) <= widest_name(list),
        0 <= at < list.len(),
        width::text_columns(list[at].0) == widest_name(list),
    decreases list.len(),
{
    let front = list.drop_last();
    let last = list.len() - 1;
    if front.len() == 0 {
        assert(widest_name(front) == 0);
        0
    } else {
        let at = names_have_room(front, if k < last {
            k
        } else {
            0
        });
        if width::text_columns(list.last().0) >= widest_name(front) {
            last
        } else {
            at
        }
    }
}

/// The suggestions stand right above the prompt, as wide as it is; the selected one is among
/// those shown, and there is one row for each and two for the frame.
pub proof fn suggestions_stand_above_the_prompt(
    s: AppState,
    top: u16,
    prompt: Rect,
    rect: Rect,
    start: usize,
    end: usize,
)
    requires
        suggestions_stand(s, top, prompt, Some((rect, start, end))),
        s.dialog.overlay_selected < suggested(s).len(),
        prompt.fits(),
        prompt.y >= top + 3,
    ensures
        start <= s.dialog.overlay_selected < end,
        end <= suggested(s).len(),
        end - start <= 10,
        rect.x == prompt.x,
        rect.width == prompt.width,
        rect.height == end - start + 2,
        rect.y + rect.height == prompt.y,
        rect.y >= top,
{
    let count = suggested(s).len() as int;
    let above = geometry::less(prompt.y as int, top as int);
    let capacity = geometry::max(1, geometry::min(geometry::less(above, 2), 10));
    geometry::window_holds_the_selection(s.dialog.overlay_selected as int, count, capacity);
}

/// Only the selected suggestion has a mark, every name has the same room, and what is said of
/// a suggestion is cut at its end.
pub proof fn selected_suggestions_have_a_mark(
    offer: (Seq<char>, Seq<char>),
    selected: bool,
    names: int,
    columns: int,
)
    requires
        0 <= offer.0.len() <= names,
    ensures
        ({
            let shown = suggestion_texts(offer, selected, names, columns);
            &&& shown.0.len() >= 2 + offer.0.len()
            &&& shown.0[0] == (if selected {
                '❯'
            } else {
                ' '
            })
            &&& shown.0.subrange(2, (2 + offer.0.len()) as int) == offer.0
            &&& offer.1.len() <= columns - names - 5 ==> shown.1 == offer.1
            &&& shown.1.len() <= offer.1.len()
        }),
{
    reveal_strlit("❯ ");
    reveal_strlit("  ");
    let shown = suggestion_texts(offer, selected, names, columns);
    assert(shown.0.subrange(2, (2 + offer.0.len()) as int) =~= offer.0);
}

/// A message to go back to is shown without white space at its ends, below it which of how
/// many it is, counted from one.
pub proof fn messages_are_numbered(text: Seq<char>, index: int, count: int, selected: bool)
    requires
        0 <= index < count,
    ensures
        ({
            let shown = fork_lines(text, index, count, selected);
            &&& text::finishes_with(shown.0, text::trim(text))
            &&& shown.0.len() == text::trim(text).len() + 2
            &&& shown.0[0] == (if selected {
                '›'
            } else {
                ' '
            })
            &&& text::finishes_with(shown.1, text::decimal(count as nat))
            &&& text::occurs_in(text::decimal((index + 1) as nat), shown.1)
        }),
{
    reveal_strlit("› ");
    reveal_strlit("  ");
    let shown = fork_lines(text, index, count, selected);
    let front = if selected {
        "› "@
    } else {
        "  "@
    };
    assert(shown.0 =~= front + text::trim(text));
    assert(shown.0.skip(2) =~= text::trim(text));
    let before = "  Message "@;
    let number = text::decimal((index + 1) as nat);
    let total = text::decimal(count as nat);
    assert(shown.1 =~= (before + number + " of "@) + total);
    assert(shown.1.skip((before + number + " of "@).len() as int) =~= total);
    let at = before.len() as int;
    assert(shown.1.subrange(at, at + number.len()) =~= number);
    assert(text::has_at(shown.1, number, at));
}

/// Nothing can be closed where no dialog is open.
pub proof fn nothing_closes_without_a_dialog(
    s: AppState,
    size: (u16, u16),
    column: u16,
    row: u16,
    r: bool,
)
    requires
        closes_at(s, size.0, size.1, column, row, r),
        s.dialog.overlay is Closed,
    ensures
        !r,
{
}

} // verus!
