//! What the client asks of the backend, and what it does itself.

use vstd::prelude::*;

use crate::harness::MessageDelivery;
use crate::harness::MessageImage;
use crate::harness::PermissionDecision;
use crate::state_types::OverlayAction;
use crate::state_types::SettingValue;
use crate::state_types::ThemeMode;

verus! {

/// A request to the backend.
#[derive(Clone, Debug)]
pub enum UiCommand {
    InstallUpdate,
    Submit { text: String, delivery: Option<MessageDelivery>, images: Vec<MessageImage> },
    Permission { request_id: String, decision: PermissionDecision },
    SetModel(String),
    ResumeSession(String),
    RenameSession { target: String, name: String },
    DeleteSession(String),
    RefreshSessions,
    LoadWorkflowCatalog,
    PreviewWorkflow(String),
    StartWorkflow { workflow: String, input: String, expected_definition_hash: Option<String> },
    NewSession,
    NameSession(String),
    SessionInfo,
    CloneSession,
    Compact(Option<String>),
    LoadTree { user_only: bool },
    NavigateTree { entry_id: String, summarize: bool, instructions: Option<String> },
    ForkSession { entry_id: String },
    SetLabel { entry_id: String, label: Option<String> },
    CycleThinking,
    SetThinking(String),
    AbortAndRestoreQueue,
    ExecuteBash { command: String, exclude_from_context: bool },
    ReloadResources,
    SetRuntimeSetting { key: String, value: SettingValue },
    SetProjectTrust(bool),
    SetScopedModels(Vec<String>),
    SetExtensionEnabled { path: String, enabled: bool },
    ExportSession(Option<String>),
    ImportSession(String),
    CopyLast,
    BeginOauth(String),
    OauthReply { id: String, value: Option<String> },
    SetPermissionMode(String),
    LoadRewinds,
    RewindFile(String),
    ExportTrace(Option<String>),
    StopResident(String),
    CloseResident(String),
    KillTask(String),
    WorkflowControl { run_id: String, action: String, step_id: Option<String> },
    ReadWorkflowArtifact { run_id: String, artifact_id: String },
}

/// What is left to do after an event was handled.
#[derive(Clone, Debug)]
pub enum Effect {
    /// Nothing.
    Nothing,
    /// The client ends.
    Quit,
    /// The backend is asked for something.
    Send(UiCommand),
    /// The choice of colours is kept.
    SaveTheme(ThemeMode),
    /// The text of the clipboard is pasted, into the editor or into the draft.
    PasteText { editor: bool },
    /// An image is loaded from the clipboard.
    LoadImage,
    /// An image or a text is loaded from the clipboard.
    LoadClipboard,
    /// The working directory, as it is shown, goes to the clipboard.
    CopyDirectory(String),
}

/// What an action of a dialog leads to.
pub open spec fn dispatched(action: OverlayAction) -> Effect {
    match action {
        OverlayAction::Nothing => Effect::Nothing,
        OverlayAction::Quit => Effect::Quit,
        OverlayAction::SetTheme(mode) => Effect::SaveTheme(mode),
        OverlayAction::RefreshSessions => Effect::Send(UiCommand::RefreshSessions),
        OverlayAction::LoadWorkflowCatalog => Effect::Send(UiCommand::LoadWorkflowCatalog),
        OverlayAction::PreviewWorkflow { workflow } => Effect::Send(
            UiCommand::PreviewWorkflow(workflow),
        ),
        OverlayAction::StartWorkflow { workflow, input, expected_definition_hash } => Effect::Send(
            UiCommand::StartWorkflow { workflow, input, expected_definition_hash },
        ),
        OverlayAction::Permission { request_id, decision } => Effect::Send(
            UiCommand::Permission { request_id, decision },
        ),
        OverlayAction::SetModel { id } => Effect::Send(UiCommand::SetModel(id)),
        OverlayAction::ResumeSession { target } => Effect::Send(UiCommand::ResumeSession(target)),
        OverlayAction::RenameSession { target, name } => Effect::Send(
            UiCommand::RenameSession { target, name },
        ),
        OverlayAction::DeleteSession { target } => Effect::Send(UiCommand::DeleteSession(target)),
        OverlayAction::NewSession => Effect::Send(UiCommand::NewSession),
        OverlayAction::NameSession(name) => Effect::Send(UiCommand::NameSession(name)),
        OverlayAction::SessionInfo => Effect::Send(UiCommand::SessionInfo),
        OverlayAction::CloneSession => Effect::Send(UiCommand::CloneSession),
        OverlayAction::Compact(instructions) => Effect::Send(UiCommand::Compact(instructions)),
        OverlayAction::LoadTree { user_only } => Effect::Send(UiCommand::LoadTree { user_only }),
        OverlayAction::NavigateTree { entry_id, summarize, instructions } => Effect::Send(
            UiCommand::NavigateTree { entry_id, summarize, instructions },
        ),
        OverlayAction::ForkSession { entry_id } => Effect::Send(
            UiCommand::ForkSession { entry_id },
        ),
        OverlayAction::SetLabel { entry_id, label } => Effect::Send(
            UiCommand::SetLabel { entry_id, label },
        ),
        OverlayAction::CycleThinking => Effect::Send(UiCommand::CycleThinking),
        OverlayAction::SetThinking(level) => Effect::Send(UiCommand::SetThinking(level)),
        OverlayAction::ReloadResources => Effect::Send(UiCommand::ReloadResources),
        OverlayAction::SetRuntimeSetting { key, value } => Effect::Send(
            UiCommand::SetRuntimeSetting { key, value },
        ),
        OverlayAction::SetProjectTrust(trusted) => Effect::Send(
            UiCommand::SetProjectTrust(trusted),
        ),
        OverlayAction::SetScopedModels(models) => Effect::Send(UiCommand::SetScopedModels(models)),
        OverlayAction::SetExtensionEnabled { path, enabled } => Effect::Send(
            UiCommand::SetExtensionEnabled { path, enabled },
        ),
        OverlayAction::ExportSession(path) => Effect::Send(UiCommand::ExportSession(path)),
        OverlayAction::ImportSession(path) => Effect::Send(UiCommand::ImportSession(path)),
        OverlayAction::CopyLast => Effect::Send(UiCommand::CopyLast),
        OverlayAction::BeginOauth(provider) => Effect::Send(UiCommand::BeginOauth(provider)),
        OverlayAction::OauthReply { id, value } => Effect::Send(
            UiCommand::OauthReply { id, value },
        ),
        OverlayAction::SetPermissionMode(mode) => Effect::Send(UiCommand::SetPermissionMode(mode)),
        OverlayAction::LoadRewinds => Effect::Send(UiCommand::LoadRewinds),
        OverlayAction::RewindFile(id) => Effect::Send(UiCommand::RewindFile(id)),
        OverlayAction::ExportTrace(path) => Effect::Send(UiCommand::ExportTrace(path)),
    }
}

/// What an action of a dialog leads to.
pub fn dispatch_overlay_action(action: OverlayAction) -> (r: Effect)
    ensures
        r == dispatched(action),
{
    match action {
        OverlayAction::Nothing => Effect::Nothing,
        OverlayAction::Quit => Effect::Quit,
        OverlayAction::SetTheme(mode) => Effect::SaveTheme(mode),
        OverlayAction::RefreshSessions => Effect::Send(UiCommand::RefreshSessions),
        OverlayAction::LoadWorkflowCatalog => Effect::Send(UiCommand::LoadWorkflowCatalog),
        OverlayAction::PreviewWorkflow { workflow } => Effect::Send(
            UiCommand::PreviewWorkflow(workflow),
        ),
        OverlayAction::StartWorkflow { workflow, input, expected_definition_hash } => Effect::Send(
            UiCommand::StartWorkflow { workflow, input, expected_definition_hash },
        ),
        OverlayAction::Permission { request_id, decision } => Effect::Send(
            UiCommand::Permission { request_id, decision },
        ),
        OverlayAction::SetModel { id } => Effect::Send(UiCommand::SetModel(id)),
        OverlayAction::ResumeSession { target } => Effect::Send(UiCommand::ResumeSession(target)),
        OverlayAction::RenameSession { target, name } => Effect::Send(
            UiCommand::RenameSession { target, name },
        ),
        OverlayAction::DeleteSession { target } => Effect::Send(UiCommand::DeleteSession(target)),
        OverlayAction::NewSession => Effect::Send(UiCommand::NewSession),
        OverlayAction::NameSession(name) => Effect::Send(UiCommand::NameSession(name)),
        OverlayAction::SessionInfo => Effect::Send(UiCommand::SessionInfo),
        OverlayAction::CloneSession => Effect::Send(UiCommand::CloneSession),
        OverlayAction::Compact(instructions) => Effect::Send(UiCommand::Compact(instructions)),
        OverlayAction::LoadTree { user_only } => Effect::Send(UiCommand::LoadTree { user_only }),
        OverlayAction::NavigateTree { entry_id, summarize, instructions } => Effect::Send(
            UiCommand::NavigateTree { entry_id, summarize, instructions },
        ),
        OverlayAction::ForkSession { entry_id } => Effect::Send(
            UiCommand::ForkSession { entry_id },
        ),
        OverlayAction::SetLabel { entry_id, label } => Effect::Send(
            UiCommand::SetLabel { entry_id, label },
        ),
        OverlayAction::CycleThinking => Effect::Send(UiCommand::CycleThinking),
        OverlayAction::SetThinking(level) => Effect::Send(UiCommand::SetThinking(level)),
        OverlayAction::ReloadResources => Effect::Send(UiCommand::ReloadResources),
        OverlayAction::SetRuntimeSetting { key, value } => Effect::Send(
            UiCommand::SetRuntimeSetting { key, value },
        ),
        OverlayAction::SetProjectTrust(trusted) => Effect::Send(
            UiCommand::SetProjectTrust(trusted),
        ),
        OverlayAction::SetScopedModels(models) => Effect::Send(UiCommand::SetScopedModels(models)),
        OverlayAction::SetExtensionEnabled { path, enabled } => Effect::Send(
            UiCommand::SetExtensionEnabled { path, enabled },
        ),
        OverlayAction::ExportSession(path) => Effect::Send(UiCommand::ExportSession(path)),
        OverlayAction::ImportSession(path) => Effect::Send(UiCommand::ImportSession(path)),
        OverlayAction::CopyLast => Effect::Send(UiCommand::CopyLast),
        OverlayAction::BeginOauth(provider) => Effect::Send(UiCommand::BeginOauth(provider)),
        OverlayAction::OauthReply { id, value } => Effect::Send(
            UiCommand::OauthReply { id, value },
        ),
        OverlayAction::SetPermissionMode(mode) => Effect::Send(UiCommand::SetPermissionMode(mode)),
        OverlayAction::LoadRewinds => Effect::Send(UiCommand::LoadRewinds),
        OverlayAction::RewindFile(id) => Effect::Send(UiCommand::RewindFile(id)),
        OverlayAction::ExportTrace(path) => Effect::Send(UiCommand::ExportTrace(path)),
    }
}

/// The client ends on one action alone.
pub proof fn only_quitting_ends(action: OverlayAction)
    ensures
        dispatched(action) is Quit <==> action is Quit,
{
}

/// What a dialog decides reaches the backend as it was decided: a permission with its
/// request and its decision, and every other choice with what it names.
pub proof fn decisions_reach_the_backend(action: OverlayAction)
    ensures
        action matches OverlayAction::Permission { request_id, decision } ==> dispatched(action)
            == Effect::Send(UiCommand::Permission { request_id, decision }),
        action matches OverlayAction::SetModel { id } ==> dispatched(action) == Effect::Send(
            UiCommand::SetModel(id),
        ),
        action matches OverlayAction::ResumeSession { target } ==> dispatched(action)
            == Effect::Send(UiCommand::ResumeSession(target)),
        action matches OverlayAction::DeleteSession { target } ==> dispatched(action)
            == Effect::Send(UiCommand::DeleteSession(target)),
        action matches OverlayAction::RenameSession { target, name } ==> dispatched(action)
            == Effect::Send(UiCommand::RenameSession { target, name }),
        action matches OverlayAction::NavigateTree { entry_id, summarize, instructions }
            ==> dispatched(action) == Effect::Send(
            UiCommand::NavigateTree { entry_id, summarize, instructions },
        ),
        action matches OverlayAction::ForkSession { entry_id } ==> dispatched(action)
            == Effect::Send(UiCommand::ForkSession { entry_id }),
        action matches OverlayAction::SetLabel { entry_id, label } ==> dispatched(action)
            == Effect::Send(UiCommand::SetLabel { entry_id, label }),
        action matches OverlayAction::StartWorkflow { workflow, input, expected_definition_hash }
            ==> dispatched(action) == Effect::Send(
            UiCommand::StartWorkflow { workflow, input, expected_definition_hash },
        ),
        action matches OverlayAction::PreviewWorkflow { workflow } ==> dispatched(action)
            == Effect::Send(UiCommand::PreviewWorkflow(workflow)),
        action matches OverlayAction::SetPermissionMode(mode) ==> dispatched(action)
            == Effect::Send(UiCommand::SetPermissionMode(mode)),
        action matches OverlayAction::SetThinking(level) ==> dispatched(action) == Effect::Send(
            UiCommand::SetThinking(level),
        ),
        action matches OverlayAction::SetProjectTrust(trusted) ==> dispatched(action)
            == Effect::Send(UiCommand::SetProjectTrust(trusted)),
        action matches OverlayAction::RewindFile(id) ==> dispatched(action) == Effect::Send(
            UiCommand::RewindFile(id),
        ),
        action matches OverlayAction::OauthReply { id, value } ==> dispatched(action)
            == Effect::Send(UiCommand::OauthReply { id, value }),
        action matches OverlayAction::BeginOauth(provider) ==> dispatched(action) == Effect::Send(
            UiCommand::BeginOauth(provider),
        ),
        action matches OverlayAction::SetExtensionEnabled { path, enabled } ==> dispatched(action)
            == Effect::Send(UiCommand::SetExtensionEnabled { path, enabled }),
        action matches OverlayAction::SetRuntimeSetting { key, value } ==> dispatched(action)
            == Effect::Send(UiCommand::SetRuntimeSetting { key, value }),
        action matches OverlayAction::NameSession(name) ==> dispatched(action) == Effect::Send(
            UiCommand::NameSession(name),
        ),
        action matches OverlayAction::Compact(words) ==> dispatched(action) == Effect::Send(
            UiCommand::Compact(words),
        ),
        action matches OverlayAction::ImportSession(path) ==> dispatched(action) == Effect::Send(
            UiCommand::ImportSession(path),
        ),
        action is NewSession ==> dispatched(action) == Effect::Send(UiCommand::NewSession),
        action is CloneSession ==> dispatched(action) == Effect::Send(UiCommand::CloneSession),
        action is CopyLast ==> dispatched(action) == Effect::Send(UiCommand::CopyLast),
        action is Nothing <==> dispatched(action) is Nothing,
{
}

} // verus!
