//! The rows that the dialogs list.

use vstd::prelude::*;

use crate::actions;
use crate::actions::ActionDefinition;
use crate::dialog;
use crate::dialog::Dialog;
use crate::harness::ModelInfo;
use crate::harness::RewindCheckpoint;
use crate::harness::RuntimeExtension;
use crate::harness::SessionTreeEntry;
use crate::harness::WorkflowCatalogEntry;
use crate::harness::WorkflowPreview;
use crate::harness::WorkflowPreviewStep;
use crate::offers;
use crate::sessions;
use crate::slash;
use crate::slash::Suggestion;
use crate::state::AppState;
use crate::state_types::OverlayKind;
use crate::text;
use crate::tree;

verus! {

broadcast use vstd::string::group_string_axioms;

/// What separates the parts of a row.
pub open spec fn dot() -> Seq<char> {
    "  ·  "@
}

/// A part that is left out where there is nothing to show.
pub open spec fn part(lead: Seq<char>, o: Option<String>) -> Seq<char> {
    match o {
        Some(s) => lead + s@,
        None => Seq::empty(),
    }
}

fn part_text(lead: &str, o: &Option<String>) -> (r: String)
    ensures
        r@ == part(lead@, *o),
{
    match o {
        Some(s) => text::joined(lead, s.as_str()),
        None => {
            let empty: String = String::new();
            assert(empty@ =~= Seq::<char>::empty());
            empty
        },
    }
}

/// A word for a flag.
pub open spec fn flag_word(flag: bool, yes: Seq<char>, no: Seq<char>) -> Seq<char> {
    if flag {
        yes
    } else {
        no
    }
}

/// The value of a setting.
pub open spec fn setting_value(s: AppState, i: int) -> Seq<char> {
    let settings = s.offers.runtime_settings;
    if i == 0 {
        settings.steering_mode@
    } else if i == 1 {
        settings.follow_up_mode@
    } else if i == 2 {
        flag_word(settings.auto_compaction, "on"@, "off"@)
    } else if i == 3 {
        settings.default_project_trust@
    } else if i == 4 {
        flag_word(settings.project_trusted, "yes"@, "no"@)
    } else if i == 5 {
        text::decimal(s.offers.runtime_extensions@.len())
    } else if i == 6 {
        text::decimal(settings.enabled_models@.len())
    } else if i == 7 {
        match settings.subagent_model {
            Some(model) => model@,
            None => "inherit parent"@,
        }
    } else {
        s.theme_mode.name()
    }
}

/// The names of the settings.
pub open spec fn setting_names() -> Seq<Seq<char>> {
    seq![
        "Steering delivery"@,
        "Follow-up delivery"@,
        "Auto compaction"@,
        "Default project trust"@,
        "Current project trusted"@,
        "Extensions"@,
        "Scoped models"@,
        "Subagent model"@,
        "Theme"@,
    ]
}

/// What the settings are for.
pub open spec fn setting_descriptions() -> Seq<Seq<char>> {
    seq![
        "How immediate steering messages are drained"@,
        "How queued next-turn prompts are drained"@,
        "Compact context automatically near the model limit"@,
        "Default policy for project-local resources"@,
        "Allow this project's agents and workflows"@,
        "Turn runtime extensions on or off"@,
        "Limit model cycling and selection"@,
        "Default model for native delegated tasks"@,
        "Switch between Grok dark and light palettes"@,
    ]
}

/// The name of a setting.
pub fn setting_name(i: usize) -> (r: &'static str)
    requires
        i < 9,
    ensures
        r@ == setting_names()[i as int],
{
    if i == 0 {
        "Steering delivery"
    } else if i == 1 {
        "Follow-up delivery"
    } else if i == 2 {
        "Auto compaction"
    } else if i == 3 {
        "Default project trust"
    } else if i == 4 {
        "Current project trusted"
    } else if i == 5 {
        "Extensions"
    } else if i == 6 {
        "Scoped models"
    } else if i == 7 {
        "Subagent model"
    } else {
        "Theme"
    }
}

/// What a setting is for.
pub fn setting_description(i: usize) -> (r: &'static str)
    requires
        i < 9,
    ensures
        r@ == setting_descriptions()[i as int],
{
    if i == 0 {
        "How immediate steering messages are drained"
    } else if i == 1 {
        "How queued next-turn prompts are drained"
    } else if i == 2 {
        "Compact context automatically near the model limit"
    } else if i == 3 {
        "Default policy for project-local resources"
    } else if i == 4 {
        "Allow this project's agents and workflows"
    } else if i == 5 {
        "Turn runtime extensions on or off"
    } else if i == 6 {
        "Limit model cycling and selection"
    } else if i == 7 {
        "Default model for native delegated tasks"
    } else {
        "Switch between Grok dark and light palettes"
    }
}

/// The levels of thinking effort.
pub open spec fn thinking_levels() -> Seq<Seq<char>> {
    seq!["off"@, "minimal"@, "low"@, "medium"@, "high"@]
}

/// The ways to leave a branch.
pub open spec fn summary_choices() -> Seq<Seq<char>> {
    seq!["No summary"@, "Summarize"@, "Summarize with custom prompt"@]
}

/// The answers to a permission request.
pub open spec fn permission_choices() -> Seq<Seq<char>> {
    seq!["Allow once"@, "Always allow"@, "Deny"@]
}

/// The row of an extension.
pub open spec fn extension_row(e: RuntimeExtension) -> Seq<char> {
    flag_word(e.enabled, "[✓] "@, "[ ] "@) + e.label@
}

/// The row of a checkpoint.
pub open spec fn rewind_row(c: RewindCheckpoint) -> Seq<char> {
    c.path@ + dot() + c.tool@ + dot() + c.timestamp@
}

/// The row of a workflow: those that cannot be run say so.
pub open spec fn catalog_row(w: WorkflowCatalogEntry) -> Seq<char> {
    flag_word(w.valid, Seq::empty(), "[invalid] "@) + w.name@ + part(dot(), w.description)
}

/// The row of a step in a preview.
pub open spec fn step_row(step: WorkflowPreviewStep) -> Seq<char> {
    step.id@ + dot() + step.kind@ + part(dot(), step.role) + part(dot(), step.model) + part(
        "  ·  thinking="@,
        step.thinking,
    ) + part("  ·  capability="@, step.capability)
}

/// The rows of a preview: the workflow, whether it is ready, and its steps.
pub open spec fn preview_rows(p: WorkflowPreview) -> Seq<Seq<char>> {
    seq![p.name@ + part(dot(), p.description), "readiness "@ + p.readiness@] + Seq::new(
        p.steps@.len(),
        |i: int| step_row(p.steps@[i]),
    )
}

/// The rows of a dialog that lists them as they are.
pub open spec fn plain_rows(s: AppState) -> Seq<Seq<char>> {
    match s.dialog.overlay {
        OverlayKind::TreeSummaryPicker => summary_choices(),
        OverlayKind::FilePicker => text::views(s.offers.available_files@),
        OverlayKind::OauthSelect => match s.pending_oauth {
            Some(request) => text::views(request.option_labels@),
            None => Seq::empty(),
        },
        OverlayKind::LoginProvider => Seq::new(
            s.offers.available_auth_providers@.len(),
            |i: int| s.offers.available_auth_providers@[i].display_name@,
        ),
        OverlayKind::ThinkingPicker => thinking_levels(),
        OverlayKind::RewindPicker => Seq::new(
            s.offers.rewind_checkpoints@.len(),
            |i: int| rewind_row(s.offers.rewind_checkpoints@[i]),
        ),
        OverlayKind::Settings => Seq::new(
            9,
            |i: int| setting_names()[i] + dot() + setting_value(s, i),
        ),
        OverlayKind::Extensions => Seq::new(
            s.offers.runtime_extensions@.len(),
            |i: int| extension_row(s.offers.runtime_extensions@[i]),
        ),
        OverlayKind::Permission => permission_choices(),
        OverlayKind::WorkflowPicker => Seq::new(
            s.boards.workflow_catalog@.len(),
            |i: int| catalog_row(s.boards.workflow_catalog@[i]),
        ),
        OverlayKind::WorkflowPreview => match s.boards.workflow_preview {
            Some(preview) => preview_rows(preview),
            None => Seq::empty(),
        },
        _ => Seq::empty(),
    }
}

/// The row for a subagent that runs on the model of its parent.
pub open spec fn inherit_row() -> Seq<char> {
    "Inherit parent (default)"@
}

/// A row of the palette is listed: an action that it shows for the query, or a
/// command whose name or description the query occurs in. The commands stand
/// behind the actions.
pub open spec fn palette_lists(s: AppState, i: int) -> bool {
    let query = s.dialog.overlay_query@;
    let actions = actions::table();
    let commands = slash::all_offers(s.offers.runtime_commands@);
    if i < actions.len() {
        actions[i].found_by(text::ascii_lowered(text::trim(query)))
    } else {
        sessions::found(query, commands[i - actions.len()].0) || sessions::found(
            query,
            commands[i - actions.len()].1,
        )
    }
}

/// How many rows the palette has in all.
pub open spec fn palette_size(s: AppState) -> int {
    (actions::table().len() + slash::all_offers(s.offers.runtime_commands@).len()) as int
}

/// The rows of the palette that are listed, out of the first `n`.
pub open spec fn palette_places(s: AppState, n: int) -> Seq<usize>
    decreases n,
{
    if n <= 0 {
        Seq::empty()
    } else if palette_lists(s, n - 1) {
        palette_places(s, n - 1).push((n - 1) as usize)
    } else {
        palette_places(s, n - 1)
    }
}

/// The places that the open dialog lists, in the order of its rows. The place
/// behind the last model stands for none.
pub open spec fn lists_places(s: AppState, places: Seq<usize>) -> bool {
    let query = s.dialog.overlay_query@;
    let models = s.offers.available_models@;
    match s.dialog.overlay {
        OverlayKind::CommandPalette => places == palette_places(s, palette_size(s)),
        OverlayKind::ModelPicker | OverlayKind::ScopedModels => offers::model_listing(
            models,
            query,
            false,
            places,
        ),
        OverlayKind::SubagentModelPicker => if sessions::found(query, inherit_row()) {
            places.len() > 0 && places[0] == models.len() && offers::model_listing(
                models,
                query,
                true,
                places.skip(1),
            )
        } else {
            offers::model_listing(models, query, true, places)
        },
        OverlayKind::SessionPicker => sessions::listing(s.sessions, query, places),
        OverlayKind::TreePicker | OverlayKind::ForkPicker => places == tree::all_listed(
            s.tree,
            query,
        ),
        _ => places == offers::matches_of(query, plain_rows(s)),
    }
}

/// A model is named among those to cycle through.
pub open spec fn scoped(s: AppState, i: int) -> bool {
    text::lists(
        s.offers.runtime_settings.enabled_models@,
        s.offers.available_models@[i].id@,
    )
}

/// The row of an entry of the session tree.
pub open spec fn entry_row(s: AppState, i: int) -> Seq<char> {
    let entry = s.tree.session_tree@[i];
    (match entry.label {
        Some(label) => "["@ + label@ + "] "@,
        None => Seq::empty(),
    }) + (if s.tree.tree_show_timestamps {
        entry.timestamp@ + " "@
    } else {
        Seq::empty()
    }) + entry.text@
}

/// What the row at a place says.
pub open spec fn place_text(s: AppState, place: int) -> Seq<char> {
    match s.dialog.overlay {
        OverlayKind::CommandPalette => {
            let actions = actions::table();
            if place < actions.len() {
                let action = actions[place];
                action.label + dot() + action.primary.shown() + dot() + action.description
            } else {
                let command = slash::all_offers(s.offers.runtime_commands@)[place - actions.len()];
                command.0 + dot() + command.1
            }
        },
        OverlayKind::ModelPicker => s.offers.available_models@[place].display_name@,
        OverlayKind::ScopedModels => flag_word(scoped(s, place), "[✓] "@, "[ ] "@)
            + s.offers.available_models@[place].display_name@,
        OverlayKind::SubagentModelPicker => if place < s.offers.available_models@.len() {
            s.offers.available_models@[place].display_name@
        } else {
            inherit_row()
        },
        OverlayKind::SessionPicker => s.sessions.row_text(place),
        OverlayKind::TreePicker | OverlayKind::ForkPicker => entry_row(s, place),
        _ => plain_rows(s)[place],
    }
}

/// A place is one that the open dialog has.
pub open spec fn place_exists(s: AppState, place: int) -> bool {
    0 <= place < (match s.dialog.overlay {
        OverlayKind::CommandPalette => palette_size(s),
        OverlayKind::ModelPicker | OverlayKind::ScopedModels =>
            s.offers.available_models@.len() as int,
        OverlayKind::SubagentModelPicker => s.offers.available_models@.len() as int + 1,
        OverlayKind::SessionPicker => s.sessions.available_sessions@.len() as int,
        OverlayKind::TreePicker | OverlayKind::ForkPicker => s.tree.session_tree@.len() as int,
        _ => plain_rows(s).len() as int,
    })
}

/// The rows that the open dialog lists.
pub open spec fn lists_rows(s: AppState, rows: Seq<Seq<char>>) -> bool {
    exists|places: Seq<usize>| #[trigger]
        lists_places(s, places) && rows == Seq::new(
            places.len(),
            |k: int| place_text(s, places[k] as int),
        )
}

fn flag_text(flag: bool, yes: &'static str, no: &'static str) -> (r: &'static str)
    ensures
        r@ == flag_word(flag, yes@, no@),
{
    if flag {
        yes
    } else {
        no
    }
}

fn step_text(step: &WorkflowPreviewStep) -> (r: String)
    ensures
        r@ == step_row(*step),
{
    let mut out: String = text::joined3(step.id.as_str(), "  ·  ", step.kind.as_str());
    out.append(part_text("  ·  ", &step.role).as_str());
    out.append(part_text("  ·  ", &step.model).as_str());
    out.append(part_text("  ·  thinking=", &step.thinking).as_str());
    out.append(part_text("  ·  capability=", &step.capability).as_str());
    assert(out@ =~= step_row(*step));
    out
}

fn preview_texts(p: &WorkflowPreview) -> (r: Vec<String>)
    ensures
        text::views(r@) == preview_rows(*p),
{
    let mut out: Vec<String> = Vec::new();
    out.push(text::joined(p.name.as_str(), part_text("  ·  ", &p.description).as_str()));
    out.push(text::joined("readiness ", p.readiness.as_str()));
    let mut i: usize = 0;
    while i < p.steps.len()
        invariant
            i <= p.steps@.len(),
            out@.len() == i + 2,
            text::views(out@) == preview_rows(*p).take(i + 2),
        decreases p.steps@.len() - i,
    {
        out.push(step_text(&p.steps[i]));
        i += 1;
        assert(text::views(out@) =~= preview_rows(*p).take(i + 2));
    }
    assert(preview_rows(*p).take(p.steps@.len() as int + 2) =~= preview_rows(*p));
    out
}

fn provider_texts(list: &Vec<ModelInfo>) -> (r: Vec<String>)
    ensures
        text::views(r@) == Seq::new(list@.len(), |i: int| list@[i].display_name@),
{
    let mut out: Vec<String> = Vec::new();
    let mut i: usize = 0;
    while i < list.len()
        invariant
            i == out@.len(),
            i <= list@.len(),
            forall|k: int| 0 <= k < i ==> (#[trigger] out@[k])@ == list@[k].display_name@,
        decreases list@.len() - i,
    {
        out.push(list[i].display_name.clone());
        i += 1;
    }
    assert(text::views(out@) =~= Seq::new(list@.len(), |i: int| list@[i].display_name@));
    out
}

fn rewind_texts(list: &Vec<RewindCheckpoint>) -> (r: Vec<String>)
    ensures
        text::views(r@) == Seq::new(list@.len(), |i: int| rewind_row(list@[i])),
{
    let mut out: Vec<String> = Vec::new();
    let mut i: usize = 0;
    while i < list.len()
        invariant
            i == out@.len(),
            i <= list@.len(),
            forall|k: int| 0 <= k < i ==> (#[trigger] out@[k])@ == rewind_row(list@[k]),
        decreases list@.len() - i,
    {
        let c: &RewindCheckpoint = &list[i];
        let mut row: String = text::joined3(c.path.as_str(), "  ·  ", c.tool.as_str());
        row.append("  ·  ");
        row.append(c.timestamp.as_str());
        assert(row@ =~= rewind_row(*c));
        out.push(row);
        i += 1;
    }
    assert(text::views(out@) =~= Seq::new(list@.len(), |i: int| rewind_row(list@[i])));
    out
}

fn extension_texts(list: &Vec<RuntimeExtension>) -> (r: Vec<String>)
    ensures
        text::views(r@) == Seq::new(list@.len(), |i: int| extension_row(list@[i])),
{
    let mut out: Vec<String> = Vec::new();
    let mut i: usize = 0;
    while i < list.len()
        invariant
            i == out@.len(),
            i <= list@.len(),
            forall|k: int| 0 <= k < i ==> (#[trigger] out@[k])@ == extension_row(list@[k]),
        decreases list@.len() - i,
    {
        let e: &RuntimeExtension = &list[i];
        out.push(text::joined(flag_text(e.enabled, "[✓] ", "[ ] "), e.label.as_str()));
        i += 1;
    }
    assert(text::views(out@) =~= Seq::new(list@.len(), |i: int| extension_row(list@[i])));
    out
}

fn catalog_texts(list: &Vec<WorkflowCatalogEntry>) -> (r: Vec<String>)
    ensures
        text::views(r@) == Seq::new(list@.len(), |i: int| catalog_row(list@[i])),
{
    let mut out: Vec<String> = Vec::new();
    let mut i: usize = 0;
    while i < list.len()
        invariant
            i == out@.len(),
            i <= list@.len(),
            forall|k: int| 0 <= k < i ==> (#[trigger] out@[k])@ == catalog_row(list@[k]),
        decreases list@.len() - i,
    {
        let w: &WorkflowCatalogEntry = &list[i];
        proof {
            reveal_strlit("");
            assert(""@ =~= Seq::<char>::empty());
        }
        let row: String = text::joined3(
            flag_text(w.valid, "", "[invalid] "),
            w.name.as_str(),
            part_text("  ·  ", &w.description).as_str(),
        );
        out.push(row);
        i += 1;
    }
    assert(text::views(out@) =~= Seq::new(list@.len(), |i: int| catalog_row(list@[i])));
    out
}

/// Copies of a few fixed rows.
fn fixed_texts(rows: &[&'static str]) -> (r: Vec<String>)
    ensures
        text::views(r@) == Seq::new(rows@.len(), |i: int| rows@[i]@),
{
    let mut out: Vec<String> = Vec::new();
    let mut i: usize = 0;
    while i < rows.len()
        invariant
            i == out@.len(),
            i <= rows@.len(),
            forall|k: int| 0 <= k < i ==> (#[trigger] out@[k])@ == rows@[k]@,
        decreases rows@.len() - i,
    {
        out.push(rows[i].to_owned());
        i += 1;
    }
    assert(text::views(out@) =~= Seq::new(rows@.len(), |i: int| rows@[i]@));
    out
}

/// No rows.
fn no_texts() -> (r: Vec<String>)
    ensures
        text::views(r@) == Seq::<Seq<char>>::empty(),
{
    let out: Vec<String> = Vec::new();
    assert(text::views(out@) =~= Seq::<Seq<char>>::empty());
    out
}

impl AppState {
    /// The value of a setting.
    pub fn setting_text(&self, i: usize) -> (r: String)
        requires
            i < 9,
        ensures
            r@ == setting_value(*self, i as int),
    {
        if i == 0 {
            self.offers.runtime_settings.steering_mode.clone()
        } else if i == 1 {
            self.offers.runtime_settings.follow_up_mode.clone()
        } else if i == 2 {
            flag_text(self.offers.runtime_settings.auto_compaction, "on", "off").to_owned()
        } else if i == 3 {
            self.offers.runtime_settings.default_project_trust.clone()
        } else if i == 4 {
            flag_text(self.offers.runtime_settings.project_trusted, "yes", "no").to_owned()
        } else if i == 5 {
            text::decimal_text(self.offers.runtime_extensions.len() as u64)
        } else if i == 6 {
            text::decimal_text(self.offers.runtime_settings.enabled_models.len() as u64)
        } else if i == 7 {
            match &self.offers.runtime_settings.subagent_model {
                Some(model) => model.clone(),
                None => "inherit parent".to_owned(),
            }
        } else {
            self.theme_mode.label().to_owned()
        }
    }

    fn setting_texts(&self) -> (r: Vec<String>)
        ensures
            text::views(r@) == Seq::new(
                9,
                |i: int| setting_names()[i] + dot() + setting_value(*self, i),
            ),
    {
        let mut out: Vec<String> = Vec::new();
        let mut i: usize = 0;
        while i < 9
            invariant
                i == out@.len(),
                i <= 9,
                forall|k: int|
                    0 <= k < i ==> (#[trigger] out@[k])@ == setting_names()[k] + dot()
                        + setting_value(*self, k),
            decreases 9 - i,
        {
            let value: String = self.setting_text(i);
            out.push(text::joined3(setting_name(i), "  ·  ", value.as_str()));
            i += 1;
        }
        assert(text::views(out@) =~= Seq::new(
            9,
            |i: int| setting_names()[i] + dot() + setting_value(*self, i),
        ));
        out
    }

    fn plain_texts(&self) -> (r: Vec<String>)
        ensures
            text::views(r@) == plain_rows(*self),
    {
        match self.dialog.overlay {
            OverlayKind::TreeSummaryPicker => {
                let rows: Vec<String> = fixed_texts(
                    &["No summary", "Summarize", "Summarize with custom prompt"],
                );
                assert(text::views(rows@) =~= summary_choices());
                rows
            },
            OverlayKind::FilePicker => text::copy_strings(&self.offers.available_files),
            OverlayKind::OauthSelect => match &self.pending_oauth {
                Some(request) => text::copy_strings(&request.option_labels),
                None => no_texts(),
            },
            OverlayKind::LoginProvider => provider_texts(&self.offers.available_auth_providers),
            OverlayKind::ThinkingPicker => {
                let rows: Vec<String> = fixed_texts(&["off", "minimal", "low", "medium", "high"]);
                assert(text::views(rows@) =~= thinking_levels());
                rows
            },
            OverlayKind::RewindPicker => rewind_texts(&self.offers.rewind_checkpoints),
            OverlayKind::Settings => self.setting_texts(),
            OverlayKind::Extensions => extension_texts(&self.offers.runtime_extensions),
            OverlayKind::Permission => {
                let rows: Vec<String> = fixed_texts(&["Allow once", "Always allow", "Deny"]);
                assert(text::views(rows@) =~= permission_choices());
                rows
            },
            OverlayKind::WorkflowPicker => catalog_texts(&self.boards.workflow_catalog),
            OverlayKind::WorkflowPreview => match &self.boards.workflow_preview {
                Some(preview) => preview_texts(preview),
                None => no_texts(),
            },
            _ => no_texts(),
        }
    }
}

proof fn palette_places_fit(s: AppState, n: int)
    requires
        n <= usize::MAX,
    ensures
        forall|k: int|
            0 <= k < palette_places(s, n).len() ==> (#[trigger] palette_places(s, n)[k]) < n,
    decreases n,
{
    if n > 0 {
        palette_places_fit(s, n - 1);
        let rest = palette_places(s, n - 1);
        assert forall|k: int| 0 <= k < palette_places(s, n).len() implies (
        #[trigger] palette_places(s, n)[k]) < n by {
            if k < rest.len() {
                assert(palette_places(s, n)[k] == rest[k]);
            }
        }
    }
}

/// The rows of the open dialog can be counted.
pub open spec fn places_count(s: AppState) -> bool {
    (match s.dialog.overlay {
        OverlayKind::CommandPalette => palette_size(s),
        OverlayKind::TreePicker | OverlayKind::ForkPicker => s.tree.session_tree@.len() as int,
        _ => plain_rows(s).len() as int,
    }) <= usize::MAX
}

/// Every place that a dialog lists is one that it has.
pub proof fn listed_places_exist(s: AppState, places: Seq<usize>, k: int)
    requires
        lists_places(s, places),
        0 <= k < places.len(),
        places_count(s),
    ensures
        place_exists(s, places[k] as int),
{
    let query = s.dialog.overlay_query@;
    match s.dialog.overlay {
        OverlayKind::CommandPalette => {
            palette_places_fit(s, palette_size(s));
        },
        OverlayKind::ModelPicker | OverlayKind::ScopedModels => {
            assert(offers::model_listed(s.offers.available_models@, query, places[k] as int));
        },
        OverlayKind::SubagentModelPicker => {
            if sessions::found(query, inherit_row()) {
                if k > 0 {
                    assert(places.skip(1)[k - 1] == places[k]);
                    assert(offers::model_listed(
                        s.offers.available_models@,
                        query,
                        places.skip(1)[k - 1] as int,
                    ));
                }
            } else {
                assert(offers::model_listed(s.offers.available_models@, query, places[k] as int));
            }
        },
        OverlayKind::SessionPicker => {
            assert(sessions::listed(s.sessions, query, places[k] as int));
        },
        OverlayKind::TreePicker | OverlayKind::ForkPicker => {
            tree::listings_ascend(s.tree, query, s.tree.session_tree@.len() as int);
        },
        _ => {
            offers::matches_are_found(query, plain_rows(s), plain_rows(s).len() as int, k);
        },
    }
}

impl AppState {
    /// For each row of the palette whether it is listed.
    fn palette_flags(&self) -> (r: Vec<bool>)
        ensures
            r@.len() == palette_size(*self),
            forall|i: int| 0 <= i < r@.len() ==> #[trigger] r@[i] == palette_lists(*self, i),
    {
        let query: String = text::to_ascii_lower(
            text::trimmed(self.dialog.overlay_query.as_str()).as_str(),
        );
        let list: Vec<ActionDefinition> = actions::definitions();
        let mut flags: Vec<bool> = Vec::new();
        let mut i: usize = 0;
        assert(list@.len() == actions::table().len());
        while i < list.len()
            invariant
                i <= list@.len(),
                actions::views(list@) == actions::table(),
                list@.len() == actions::table().len(),
                query@ == text::ascii_lowered(text::trim(self.dialog.overlay_query@)),
                flags@.len() == i,
                forall|k: int| 0 <= k < i ==> #[trigger] flags@[k] == palette_lists(*self, k),
            decreases list@.len() - i,
        {
            assert(actions::table()[i as int] == list@[i as int]@);
            flags.push(actions::found(&list[i], query.as_str()));
            i += 1;
        }
        let commands: Vec<Suggestion> = slash::list_commands(&self.offers.runtime_commands);
        let mut j: usize = 0;
        assert(slash::offers_of(commands@).len() == commands@.len());
        while j < commands.len()
            invariant
                j <= commands@.len(),
                slash::offers_of(commands@) == slash::all_offers(self.offers.runtime_commands@),
                slash::offers_of(commands@).len() == commands@.len(),
                flags@.len() == actions::table().len() + j,
                forall|k: int|
                    0 <= k < flags@.len() ==> #[trigger] flags@[k] == palette_lists(*self, k),
            decreases commands@.len() - j,
        {
            let command: &Suggestion = &commands[j];
            assert(slash::offers_of(commands@)[j as int] == slash::offer(commands@[j as int]));
            flags.push(
                sessions::finds(self.dialog.overlay_query.as_str(), command.name.as_str())
                    || sessions::finds(
                    self.dialog.overlay_query.as_str(),
                    command.description.as_str(),
                ),
            );
            j += 1;
        }
        flags
    }

    fn palette_listing(&self) -> (r: Vec<usize>)
        ensures
            r@ == palette_places(*self, palette_size(*self)),
            palette_size(*self) <= usize::MAX,
    {
        let flags: Vec<bool> = self.palette_flags();
        let mut out: Vec<usize> = Vec::new();
        let mut i: usize = 0;
        while i < flags.len()
            invariant
                i <= flags@.len(),
                flags@.len() == palette_size(*self),
                forall|k: int|
                    0 <= k < flags@.len() ==> #[trigger] flags@[k] == palette_lists(*self, k),
                out@ == palette_places(*self, i as int),
            decreases flags@.len() - i,
        {
            if flags[i] {
                out.push(i);
            }
            i += 1;
        }
        out
    }

    fn subagent_listing(&self) -> (r: Vec<usize>)
        requires
            self.dialog.overlay == OverlayKind::SubagentModelPicker,
        ensures
            lists_places(*self, r@),
    {
        let mut found: Vec<usize> = self.offers.filtered_models(
            self.dialog.overlay_query.as_str(),
            true,
        );
        if sessions::finds(self.dialog.overlay_query.as_str(), "Inherit parent (default)") {
            let ghost models = found@;
            found.insert(0, self.offers.available_models.len());
            assert(found@.skip(1) =~= models);
        }
        found
    }

    /// The places that the open dialog lists.
    pub fn overlay_places(&self) -> (r: Vec<usize>)
        ensures
            lists_places(*self, r@),
            forall|k: int| 0 <= k < r@.len() ==> place_exists(*self, #[trigger] r@[k] as int),
    {
        let query: &str = self.dialog.overlay_query.as_str();
        let _entries: usize = self.tree.session_tree.len();
        let plain: Vec<String> = self.plain_texts();
        let _count: usize = plain.len();
        assert(text::views(plain@).len() == plain@.len());
        let r: Vec<usize> = match self.dialog.overlay {
            OverlayKind::CommandPalette => self.palette_listing(),
            OverlayKind::ModelPicker => self.offers.filtered_models(query, false),
            OverlayKind::ScopedModels => self.offers.filtered_models(query, false),
            OverlayKind::SubagentModelPicker => self.subagent_listing(),
            OverlayKind::SessionPicker => self.sessions.filtered(query),
            OverlayKind::TreePicker => self.tree.filtered(query),
            OverlayKind::ForkPicker => self.tree.filtered(query),
            _ => offers::find_matches(query, &plain),
        };
        assert forall|k: int| 0 <= k < r@.len() implies place_exists(
            *self,
            #[trigger] r@[k] as int,
        ) by {
            listed_places_exist(*self, r@, k);
        }
        r
    }
}

/// The selection was moved over the rows of the open dialog, and nothing is
/// hovered.
pub open spec fn selection_moved(before: AppState, after: AppState, delta: int) -> bool {
    &&& after == (AppState {
        dialog: Dialog {
            overlay_selected: after.dialog.overlay_selected,
            overlay_hovered: None,
            ..before.dialog
        },
        ..before
    })
    &&& exists|places: Seq<usize>| #[trigger]
        lists_places(before, places) && after.dialog.overlay_selected == dialog::stepped(
            before.dialog.overlay_selected as int,
            delta,
            places.len() as int,
        )
}

impl AppState {
    fn palette_text(&self, place: usize) -> (r: String)
        requires
            self.dialog.overlay == OverlayKind::CommandPalette,
            place_exists(*self, place as int),
        ensures
            r@ == place_text(*self, place as int),
    {
        let list: Vec<ActionDefinition> = actions::definitions();
        assert(list@.len() == actions::table().len());
        if place < list.len() {
            let action: &ActionDefinition = &list[place];
            assert(actions::table()[place as int] == list@[place as int]@);
            let mut row: String = text::joined3(
                action.label,
                "  ·  ",
                action.primary.display().as_str(),
            );
            row.append("  ·  ");
            row.append(action.description);
            assert(row@ =~= place_text(*self, place as int));
            row
        } else {
            let commands: Vec<Suggestion> = slash::list_commands(&self.offers.runtime_commands);
            let k: usize = place - list.len();
            assert(slash::offers_of(commands@)[k as int] == slash::offer(commands@[k as int]));
            text::joined3(commands[k].name.as_str(), "  ·  ", commands[k].description.as_str())
        }
    }

    fn entry_text(&self, place: usize) -> (r: String)
        requires
            place < self.tree.session_tree@.len(),
        ensures
            r@ == entry_row(*self, place as int),
    {
        let entry: &SessionTreeEntry = &self.tree.session_tree[place];
        let mut row: String = match &entry.label {
            Some(label) => text::joined3("[", label.as_str(), "] "),
            None => String::new(),
        };
        if self.tree.tree_show_timestamps {
            row.append(entry.timestamp.as_str());
            row.append(" ");
        }
        row.append(entry.text.as_str());
        assert(row@ =~= entry_row(*self, place as int));
        row
    }

    /// What the row at a place says.
    pub fn overlay_text(&self, place: usize) -> (r: String)
        requires
            place_exists(*self, place as int),
        ensures
            r@ == place_text(*self, place as int),
    {
        match self.dialog.overlay {
            OverlayKind::CommandPalette => self.palette_text(place),
            OverlayKind::ModelPicker => self.offers.available_models[place].display_name.clone(),
            OverlayKind::ScopedModels => {
                let model: &ModelInfo = &self.offers.available_models[place];
                let chosen: bool = text::list_has(
                    &self.offers.runtime_settings.enabled_models,
                    model.id.as_str(),
                );
                text::joined(flag_text(chosen, "[✓] ", "[ ] "), model.display_name.as_str())
            },
            OverlayKind::SubagentModelPicker => {
                if place < self.offers.available_models.len() {
                    self.offers.available_models[place].display_name.clone()
                } else {
                    "Inherit parent (default)".to_owned()
                }
            },
            OverlayKind::SessionPicker => self.sessions.session_row(place),
            OverlayKind::TreePicker => self.entry_text(place),
            OverlayKind::ForkPicker => self.entry_text(place),
            _ => {
                let rows: Vec<String> = self.plain_texts();
                assert(text::views(rows@)[place as int] == rows@[place as int]@);
                rows[place].clone()
            },
        }
    }

    /// The rows that the open dialog lists.
    pub fn overlay_items(&self) -> (r: Vec<String>)
        ensures
            lists_rows(*self, text::views(r@)),
    {
        let places: Vec<usize> = self.overlay_places();
        let mut rows: Vec<String> = Vec::new();
        let mut k: usize = 0;
        while k < places.len()
            invariant
                k == rows@.len(),
                k <= places@.len(),
                forall|j: int|
                    0 <= j < places@.len() ==> place_exists(*self, #[trigger] places@[j] as int),
                forall|j: int|
                    0 <= j < k ==> (#[trigger] rows@[j])@ == place_text(*self, places@[j] as int),
            decreases places@.len() - k,
        {
            rows.push(self.overlay_text(places[k]));
            k += 1;
        }
        proof {
            let texts = Seq::new(places@.len(), |k: int| place_text(*self, places@[k] as int));
            assert(text::views(rows@) =~= texts);
            assert(lists_places(*self, places@));
        }
        rows
    }

    /// Moves the selection over the rows of the open dialog.
    pub fn move_overlay_selection(&mut self, delta: isize)
        ensures
            selection_moved(*old(self), *final(self), delta as int),
            old(self).wf() ==> final(self).wf(),
    {
        let places: Vec<usize> = self.overlay_places();
        self.dialog.move_selection(delta, places.len());
        assert(lists_places(*old(self), places@));
    }
}

} // verus!
