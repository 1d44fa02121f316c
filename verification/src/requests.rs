//! The requests to the backend process, one line of JSON each.

use vstd::prelude::*;

use crate::dispatch::UiCommand;
use crate::entry_view;
use crate::harness::MessageDelivery;
use crate::harness::MessageImage;
use crate::harness::PermissionDecision;
use crate::harness::SessionId;
use crate::harness::SessionPersistence;
use crate::state_types::SettingValue;
use crate::text;

verus! {

broadcast use vstd::string::group_string_axioms;

/// How long a request waits for its answer, in milliseconds.
pub const REQUEST_TIMEOUT_MS: u64 = 30000;

/// How long a request waits that has the backend ask a model.
pub const INFERENCE_OPERATION_TIMEOUT_MS: u64 = 600000;

/// A JSON value that is carried through.
#[verifier::external_type_specification]
#[verifier::external_body]
pub struct ExJsonValue(serde_json::Value);

/// The value of a member of a request.
#[derive(Debug)]
pub enum Field {
    Text(String),
    Maybe(Option<String>),
    Flag(bool),
    Texts(Vec<String>),
    Record(Vec<(String, String)>),
    Records(Vec<Vec<(String, String)>>),
    Json(serde_json::Value),
}

/// The contents of a value.
pub enum FieldView {
    Text(Seq<char>),
    Null,
    Flag(bool),
    Texts(Seq<Seq<char>>),
    Record(Seq<(Seq<char>, Seq<char>)>),
    Records(Seq<Seq<(Seq<char>, Seq<char>)>>),
    Json(serde_json::Value),
}

/// The contents of the members of a record.
pub open spec fn record_view(record: Seq<(String, String)>) -> Seq<(Seq<char>, Seq<char>)> {
    record.map_values(|pair: (String, String)| (pair.0@, pair.1@))
}

/// The contents of records.
pub open spec fn record_views(records: Seq<Vec<(String, String)>>) -> Seq<
    Seq<(Seq<char>, Seq<char>)>,
> {
    records.map_values(|record: Vec<(String, String)>| record_view(record@))
}

/// A text that may be missing.
pub open spec fn maybe(o: Option<String>) -> FieldView {
    match o {
        Some(s) => FieldView::Text(s@),
        None => FieldView::Null,
    }
}

impl Field {
    /// The contents of the value.
    pub open spec fn view(&self) -> FieldView {
        match *self {
            Field::Text(s) => FieldView::Text(s@),
            Field::Maybe(o) => maybe(o),
            Field::Flag(b) => FieldView::Flag(b),
            Field::Texts(v) => FieldView::Texts(text::views(v@)),
            Field::Record(record) => FieldView::Record(record_view(record@)),
            Field::Records(records) => FieldView::Records(record_views(records@)),
            Field::Json(value) => FieldView::Json(value),
        }
    }
}

/// The contents of members.
pub open spec fn member_views(members: Seq<(String, Field)>) -> Seq<(Seq<char>, FieldView)> {
    members.map_values(|member: (String, Field)| (member.0@, member.1@))
}

/// A request to the backend process.
#[derive(Debug)]
pub enum Command {
    Health,
    ListModels,
    OpenSession { cwd: String, persistence: SessionPersistence },
    ListAuthProviders,
    SetApiKey { provider: String, key: String },
    Logout { provider: String },
    Prompt { text: String },
    DeliverMessage { text: String, delivery: Option<MessageDelivery>, images: Vec<MessageImage> },
    CycleThinking,
    SetThinking { level: String },
    ClearQueue,
    ExecuteBash { command: String, exclude_from_context: bool },
    Cancel,
    KillTask { task_id: String },
    ControlWorkflow { run_id: String, action: String, step_id: Option<String> },
    StartWorkflow {
        workflow: String,
        input: String,
        parameters: Option<serde_json::Value>,
        expected_definition_hash: Option<String>,
    },
    WorkflowCatalog,
    PreviewWorkflow { workflow: String },
    ReadWorkflowArtifact { run_id: String, artifact_id: String },
    CloseSession,
    ReplyPermission { permission_id: String, decision: PermissionDecision },
    SetModel { model: String },
    ListFiles,
    RuntimeResources,
    ReloadResources,
    RuntimeSettings,
    SetRuntimeSetting { key: String, value: SettingValue },
    SetScopedModels { models: Vec<String> },
    SetProjectTrust { trusted: bool },
    ExportSession { path: Option<String> },
    ImportSession { path: String },
    CopyLast,
    BeginOauth { provider: String },
    ReplyOauth { oauth_id: String, value: Option<String> },
    SetPermissionMode { mode: String },
    ListRewinds,
    RewindFile { checkpoint_id: String },
    ExportTrace { path: Option<String> },
    ListSessions,
    ResumeSession { target: String },
    RenameSession { target: String, name: String },
    DeleteSession { target: String },
    NewSession,
    NameSession { name: String },
    SessionStats,
    CloneSession,
    Compact { instructions: Option<String> },
    SessionTree { user_only: bool },
    NavigateTree { entry_id: String, summarize: bool, instructions: Option<String> },
    ForkSession { entry_id: String },
    SetSessionLabel { entry_id: String, label: Option<String> },
}

/// The name under which a delivery is sent.
pub open spec fn delivery_name(delivery: MessageDelivery) -> Seq<char> {
    match delivery {
        MessageDelivery::Steer => "steer"@,
        MessageDelivery::FollowUp => "follow_up"@,
    }
}

/// The name under which an answer to a permission request is sent.
pub open spec fn decision_name(decision: PermissionDecision) -> Seq<char> {
    match decision {
        PermissionDecision::AllowOnce => "AllowOnce"@,
        PermissionDecision::AllowAlways => "AllowAlways"@,
        PermissionDecision::Deny => "Deny"@,
    }
}

/// The members that say how a session is stored.
pub open spec fn persistence_record(persistence: SessionPersistence) -> Seq<
    (Seq<char>, Seq<char>),
> {
    match persistence {
        SessionPersistence::Persistent => seq![("mode"@, "persistent"@)],
        SessionPersistence::Continue => seq![("mode"@, "continue"@)],
        SessionPersistence::Open(target) => seq![("mode"@, "open"@), ("target"@, target@)],
        SessionPersistence::Fork(target) => seq![("mode"@, "fork"@), ("target"@, target@)],
        SessionPersistence::InMemory => seq![("mode"@, "in_memory"@)],
    }
}

/// The members that an image is sent as.
pub open spec fn image_record(image: MessageImage) -> Seq<(Seq<char>, Seq<char>)> {
    seq![("path"@, image.path@), ("mime_type"@, image.mime_type@)]
}

/// The value of a setting.
pub open spec fn setting_field(value: SettingValue) -> FieldView {
    match value {
        SettingValue::Text(s) => FieldView::Text(s@),
        SettingValue::Flag(b) => FieldView::Flag(b),
        SettingValue::Null => FieldView::Null,
    }
}

impl Command {
    /// The name of the request.
    pub open spec fn kind(self) -> Seq<char> {
        match self {
            Command::Health => "health"@,
            Command::ListModels => "list_models"@,
            Command::OpenSession { .. } => "open_session"@,
            Command::ListAuthProviders => "list_auth_providers"@,
            Command::SetApiKey { .. } => "set_api_key"@,
            Command::Logout { .. } => "logout"@,
            Command::Prompt { .. } => "prompt"@,
            Command::DeliverMessage { .. } => "prompt"@,
            Command::CycleThinking => "cycle_thinking"@,
            Command::SetThinking { .. } => "set_thinking"@,
            Command::ClearQueue => "clear_queue"@,
            Command::ExecuteBash { .. } => "bash"@,
            Command::Cancel => "cancel"@,
            Command::KillTask { .. } => "kill_task"@,
            Command::ControlWorkflow { .. } => "workflow_control"@,
            Command::StartWorkflow { .. } => "workflow_start"@,
            Command::WorkflowCatalog => "workflow_catalog"@,
            Command::PreviewWorkflow { .. } => "workflow_preview"@,
            Command::ReadWorkflowArtifact { .. } => "workflow_artifact_read"@,
            Command::CloseSession => "close_session"@,
            Command::ReplyPermission { .. } => "permission"@,
            Command::SetModel { .. } => "set_model"@,
            Command::ListFiles => "list_files"@,
            Command::RuntimeResources => "list_resources"@,
            Command::ReloadResources => "reload_resources"@,
            Command::RuntimeSettings => "get_settings"@,
            Command::SetRuntimeSetting { .. } => "set_setting"@,
            Command::SetScopedModels { .. } => "set_scoped_models"@,
            Command::SetProjectTrust { .. } => "set_project_trust"@,
            Command::ExportSession { .. } => "export_session"@,
            Command::ImportSession { .. } => "import_session"@,
            Command::CopyLast => "copy_last"@,
            Command::BeginOauth { .. } => "oauth_login"@,
            Command::ReplyOauth { .. } => "oauth_reply"@,
            Command::SetPermissionMode { .. } => "set_permission_mode"@,
            Command::ListRewinds => "list_rewinds"@,
            Command::RewindFile { .. } => "rewind_file"@,
            Command::ExportTrace { .. } => "trace"@,
            Command::ListSessions => "list_sessions"@,
            Command::ResumeSession { .. } => "resume_session"@,
            Command::RenameSession { .. } => "rename_session"@,
            Command::DeleteSession { .. } => "delete_session"@,
            Command::NewSession => "new_session"@,
            Command::NameSession { .. } => "name_session"@,
            Command::SessionStats => "session_info"@,
            Command::CloneSession => "clone_session"@,
            Command::Compact { .. } => "compact"@,
            Command::SessionTree { .. } => "list_tree"@,
            Command::NavigateTree { .. } => "navigate_tree"@,
            Command::ForkSession { .. } => "fork_session"@,
            Command::SetSessionLabel { .. } => "set_label"@,
        }
    }

    /// The request concerns no session.
    pub open spec fn is_global(self) -> bool {
        self is Health || self is ListModels || self is OpenSession
    }

    /// The backend asks a model before it answers.
    pub open spec fn is_patient(self) -> bool {
        match self {
            Command::ExecuteBash { .. } => true,
            Command::ReloadResources => true,
            Command::ExportSession { .. } => true,
            Command::ImportSession { .. } => true,
            Command::ExportTrace { .. } => true,
            Command::ResumeSession { .. } => true,
            Command::NewSession => true,
            Command::CloneSession => true,
            Command::Compact { .. } => true,
            Command::NavigateTree { .. } => true,
            Command::ForkSession { .. } => true,
            _ => false,
        }
    }

    /// The answer holds the history of the session that takes the place of the
    /// present one.
    pub open spec fn replaces_session(self) -> bool {
        match self {
            Command::ImportSession { .. } => true,
            Command::ResumeSession { .. } => true,
            Command::NewSession => true,
            Command::CloneSession => true,
            Command::NavigateTree { .. } => true,
            Command::ForkSession { .. } => true,
            _ => false,
        }
    }

    /// A failure of the request is also told to the subscribers of the session.
    pub open spec fn tells_failure(self) -> bool {
        self is StartWorkflow || self is PreviewWorkflow
    }

    /// The members besides the name, the session and the number.
    pub open spec fn members(self) -> Seq<(Seq<char>, FieldView)> {
        match self {
            Command::OpenSession { cwd, persistence } => seq![
                ("cwd"@, FieldView::Text(cwd@)),
                ("persistence"@, FieldView::Record(persistence_record(persistence))),
            ],
            Command::SetApiKey { provider, key } => seq![
                ("provider"@, FieldView::Text(provider@)),
                ("key"@, FieldView::Text(key@)),
            ],
            Command::Logout { provider } => seq![
                ("provider"@, FieldView::Text(provider@)),
            ],
            Command::Prompt { text } => seq![
                ("text"@, FieldView::Text(text@)),
            ],
            Command::DeliverMessage { text, delivery, images } => seq![
                ("text"@, FieldView::Text(text@)),
                (
                    "delivery"@,
                    match delivery {
                        Some(d) => FieldView::Text(delivery_name(d)),
                        None => FieldView::Null,
                    },
                ),
                (
                    "images"@,
                    FieldView::Records(images@.map_values(|image: MessageImage| image_record(image))),
                ),
            ],
            Command::SetThinking { level } => seq![
                ("level"@, FieldView::Text(level@)),
            ],
            Command::ExecuteBash { command, exclude_from_context } => seq![
                ("command"@, FieldView::Text(command@)),
                ("exclude_from_context"@, FieldView::Flag(exclude_from_context)),
            ],
            Command::KillTask { task_id } => seq![
                ("task_id"@, FieldView::Text(task_id@)),
            ],
            Command::ControlWorkflow { run_id, action, step_id } => seq![
                ("run_id"@, FieldView::Text(run_id@)),
                ("action"@, FieldView::Text(action@)),
                ("step_id"@, maybe(step_id)),
            ],
            Command::StartWorkflow { workflow, input, parameters, expected_definition_hash } => seq![
                ("workflow"@, FieldView::Text(workflow@)),
                ("input"@, FieldView::Text(input@)),
            ] + match parameters {
                Some(value) => seq![("parameters"@, FieldView::Json(value))],
                None => Seq::<(Seq<char>, FieldView)>::empty(),
            } + match expected_definition_hash {
                Some(hash) => seq![("expected_definition_hash"@, FieldView::Text(hash@))],
                None => Seq::<(Seq<char>, FieldView)>::empty(),
            },
            Command::PreviewWorkflow { workflow } => seq![
                ("workflow"@, FieldView::Text(workflow@)),
            ],
            Command::ReadWorkflowArtifact { run_id, artifact_id } => seq![
                ("run_id"@, FieldView::Text(run_id@)),
                ("artifact_id"@, FieldView::Text(artifact_id@)),
            ],
            Command::ReplyPermission { permission_id, decision } => seq![
                ("permission_id"@, FieldView::Text(permission_id@)),
                ("decision"@, FieldView::Text(decision_name(decision))),
            ],
            Command::SetModel { model } => seq![
                ("model"@, FieldView::Text(model@)),
            ],
            Command::SetRuntimeSetting { key, value } => seq![
                ("key"@, FieldView::Text(key@)),
                ("value"@, setting_field(value)),
            ],
            Command::SetScopedModels { models } => seq![
                ("models"@, FieldView::Texts(text::views(models@))),
            ],
            Command::SetProjectTrust { trusted } => seq![
                ("trusted"@, FieldView::Flag(trusted)),
            ],
            Command::ExportSession { path } => seq![
                ("path"@, maybe(path)),
            ],
            Command::ImportSession { path } => seq![
                ("path"@, FieldView::Text(path@)),
            ],
            Command::BeginOauth { provider } => seq![
                ("provider"@, FieldView::Text(provider@)),
            ],
            Command::ReplyOauth { oauth_id, value } => seq![
                ("oauth_id"@, FieldView::Text(oauth_id@)),
                ("value"@, maybe(value)),
            ],
            Command::SetPermissionMode { mode } => seq![
                ("mode"@, FieldView::Text(mode@)),
            ],
            Command::RewindFile { checkpoint_id } => seq![
                ("checkpoint_id"@, FieldView::Text(checkpoint_id@)),
            ],
            Command::ExportTrace { path } => seq![
                ("path"@, maybe(path)),
            ],
            Command::ResumeSession { target } => seq![
                ("target"@, FieldView::Text(target@)),
            ],
            Command::RenameSession { target, name } => seq![
                ("target"@, FieldView::Text(target@)),
                ("name"@, FieldView::Text(name@)),
            ],
            Command::DeleteSession { target } => seq![
                ("target"@, FieldView::Text(target@)),
            ],
            Command::NameSession { name } => seq![
                ("name"@, FieldView::Text(name@)),
            ],
            Command::Compact { instructions } => seq![
                ("instructions"@, maybe(instructions)),
            ],
            Command::SessionTree { user_only } => seq![
                ("user_only"@, FieldView::Flag(user_only)),
            ],
            Command::NavigateTree { entry_id, summarize, instructions } => seq![
                ("entry_id"@, FieldView::Text(entry_id@)),
                ("summarize"@, FieldView::Flag(summarize)),
                ("instructions"@, maybe(instructions)),
            ],
            Command::ForkSession { entry_id } => seq![
                ("entry_id"@, FieldView::Text(entry_id@)),
            ],
            Command::SetSessionLabel { entry_id, label } => seq![
                ("entry_id"@, FieldView::Text(entry_id@)),
                ("label"@, maybe(label)),
            ],
            _ => Seq::<(Seq<char>, FieldView)>::empty(),
        }
    }

    /// The name of the request.
    pub fn kind_name(&self) -> (r: &'static str)
        ensures
            r@ == self.kind(),
    {
        match self {
            Command::Health => "health",
            Command::ListModels => "list_models",
            Command::OpenSession { .. } => "open_session",
            Command::ListAuthProviders => "list_auth_providers",
            Command::SetApiKey { .. } => "set_api_key",
            Command::Logout { .. } => "logout",
            Command::Prompt { .. } => "prompt",
            Command::DeliverMessage { .. } => "prompt",
            Command::CycleThinking => "cycle_thinking",
            Command::SetThinking { .. } => "set_thinking",
            Command::ClearQueue => "clear_queue",
            Command::ExecuteBash { .. } => "bash",
            Command::Cancel => "cancel",
            Command::KillTask { .. } => "kill_task",
            Command::ControlWorkflow { .. } => "workflow_control",
            Command::StartWorkflow { .. } => "workflow_start",
            Command::WorkflowCatalog => "workflow_catalog",
            Command::PreviewWorkflow { .. } => "workflow_preview",
            Command::ReadWorkflowArtifact { .. } => "workflow_artifact_read",
            Command::CloseSession => "close_session",
            Command::ReplyPermission { .. } => "permission",
            Command::SetModel { .. } => "set_model",
            Command::ListFiles => "list_files",
            Command::RuntimeResources => "list_resources",
            Command::ReloadResources => "reload_resources",
            Command::RuntimeSettings => "get_settings",
            Command::SetRuntimeSetting { .. } => "set_setting",
            Command::SetScopedModels { .. } => "set_scoped_models",
            Command::SetProjectTrust { .. } => "set_project_trust",
            Command::ExportSession { .. } => "export_session",
            Command::ImportSession { .. } => "import_session",
            Command::CopyLast => "copy_last",
            Command::BeginOauth { .. } => "oauth_login",
            Command::ReplyOauth { .. } => "oauth_reply",
            Command::SetPermissionMode { .. } => "set_permission_mode",
            Command::ListRewinds => "list_rewinds",
            Command::RewindFile { .. } => "rewind_file",
            Command::ExportTrace { .. } => "trace",
            Command::ListSessions => "list_sessions",
            Command::ResumeSession { .. } => "resume_session",
            Command::RenameSession { .. } => "rename_session",
            Command::DeleteSession { .. } => "delete_session",
            Command::NewSession => "new_session",
            Command::NameSession { .. } => "name_session",
            Command::SessionStats => "session_info",
            Command::CloneSession => "clone_session",
            Command::Compact { .. } => "compact",
            Command::SessionTree { .. } => "list_tree",
            Command::NavigateTree { .. } => "navigate_tree",
            Command::ForkSession { .. } => "fork_session",
            Command::SetSessionLabel { .. } => "set_label",
        }
    }

    /// Whether the request concerns a session.
    pub fn has_session(&self) -> (r: bool)
        ensures
            r == !self.is_global(),
    {
        match self {
            Command::Health => false,
            Command::ListModels => false,
            Command::OpenSession { .. } => false,
            _ => true,
        }
    }

    /// How long the request waits for its answer, in milliseconds.
    pub fn timeout_ms(&self) -> (r: u64)
        ensures
            r == if self.is_patient() {
                INFERENCE_OPERATION_TIMEOUT_MS
            } else {
                REQUEST_TIMEOUT_MS
            },
    {
        match self {
            Command::ExecuteBash { .. } => INFERENCE_OPERATION_TIMEOUT_MS,
            Command::ReloadResources => INFERENCE_OPERATION_TIMEOUT_MS,
            Command::ExportSession { .. } => INFERENCE_OPERATION_TIMEOUT_MS,
            Command::ImportSession { .. } => INFERENCE_OPERATION_TIMEOUT_MS,
            Command::ExportTrace { .. } => INFERENCE_OPERATION_TIMEOUT_MS,
            Command::ResumeSession { .. } => INFERENCE_OPERATION_TIMEOUT_MS,
            Command::NewSession => INFERENCE_OPERATION_TIMEOUT_MS,
            Command::CloneSession => INFERENCE_OPERATION_TIMEOUT_MS,
            Command::Compact { .. } => INFERENCE_OPERATION_TIMEOUT_MS,
            Command::NavigateTree { .. } => INFERENCE_OPERATION_TIMEOUT_MS,
            Command::ForkSession { .. } => INFERENCE_OPERATION_TIMEOUT_MS,
            _ => REQUEST_TIMEOUT_MS,
        }
    }

    /// Whether the answer holds the history of another session.
    pub fn replaces(&self) -> (r: bool)
        ensures
            r == self.replaces_session(),
    {
        match self {
            Command::ImportSession { .. } => true,
            Command::ResumeSession { .. } => true,
            Command::NewSession => true,
            Command::CloneSession => true,
            Command::NavigateTree { .. } => true,
            Command::ForkSession { .. } => true,
            _ => false,
        }
    }

    /// Whether a failure of the request is also told to the subscribers of the session.
    pub fn reports_failure(&self) -> (r: bool)
        ensures
            r == self.tells_failure(),
    {
        match self {
            Command::StartWorkflow { .. } => true,
            Command::PreviewWorkflow { .. } => true,
            _ => false,
        }
    }

    /// The number of the request, where it does not get the next one.
    pub fn fixed_id(&self) -> (r: Option<String>)
        ensures
            r is Some <==> *self is Health,
            r matches Some(id) ==> id@ == "health"@,
    {
        match self {
            Command::Health => Some("health".to_owned()),
            _ => None,
        }
    }

    /// The members besides the name, the session and the number.
    pub fn into_members(self) -> (r: Vec<(String, Field)>)
        ensures
            member_views(r@) == self.members(),
    {
        match self {
            Command::Health => no_members(),
            Command::ListModels => no_members(),
            Command::OpenSession { cwd, persistence } =>
                two("cwd", Field::Text(cwd), "persistence", persistence_field(persistence)),
            Command::ListAuthProviders => no_members(),
            Command::SetApiKey { provider, key } =>
                two("provider", Field::Text(provider), "key", Field::Text(key)),
            Command::Logout { provider } => one("provider", Field::Text(provider)),
            Command::Prompt { text } => one("text", Field::Text(text)),
            Command::DeliverMessage { text, delivery, images } =>
                three(
                    "text", Field::Text(text),
                    "delivery", delivery_field(delivery),
                    "images", images_field(images),
                ),
            Command::CycleThinking => no_members(),
            Command::SetThinking { level } => one("level", Field::Text(level)),
            Command::ClearQueue => no_members(),
            Command::ExecuteBash { command, exclude_from_context } =>
                two(
                    "command", Field::Text(command),
                    "exclude_from_context", Field::Flag(exclude_from_context),
                ),
            Command::Cancel => no_members(),
            Command::KillTask { task_id } => one("task_id", Field::Text(task_id)),
            Command::ControlWorkflow { run_id, action, step_id } =>
                three(
                    "run_id", Field::Text(run_id),
                    "action", Field::Text(action),
                    "step_id", Field::Maybe(step_id),
                ),
            Command::StartWorkflow { workflow, input, parameters, expected_definition_hash } => {
                let mut members: Vec<(String, Field)> = two(
                    "workflow",
                    Field::Text(workflow),
                    "input",
                    Field::Text(input),
                );
                if let Some(value) = parameters {
                    push_member(&mut members, "parameters", Field::Json(value));
                }
                if let Some(hash) = expected_definition_hash {
                    push_member(&mut members, "expected_definition_hash", Field::Text(hash));
                }
                assert(member_views(members@) =~= self.members());
                members
            },
            Command::WorkflowCatalog => no_members(),
            Command::PreviewWorkflow { workflow } => one("workflow", Field::Text(workflow)),
            Command::ReadWorkflowArtifact { run_id, artifact_id } =>
                two("run_id", Field::Text(run_id), "artifact_id", Field::Text(artifact_id)),
            Command::CloseSession => no_members(),
            Command::ReplyPermission { permission_id, decision } =>
                two(
                    "permission_id", Field::Text(permission_id),
                    "decision", decision_field(decision),
                ),
            Command::SetModel { model } => one("model", Field::Text(model)),
            Command::ListFiles => no_members(),
            Command::RuntimeResources => no_members(),
            Command::ReloadResources => no_members(),
            Command::RuntimeSettings => no_members(),
            Command::SetRuntimeSetting { key, value } =>
                two("key", Field::Text(key), "value", value_field(value)),
            Command::SetScopedModels { models } => one("models", Field::Texts(models)),
            Command::SetProjectTrust { trusted } => one("trusted", Field::Flag(trusted)),
            Command::ExportSession { path } => one("path", Field::Maybe(path)),
            Command::ImportSession { path } => one("path", Field::Text(path)),
            Command::CopyLast => no_members(),
            Command::BeginOauth { provider } => one("provider", Field::Text(provider)),
            Command::ReplyOauth { oauth_id, value } =>
                two("oauth_id", Field::Text(oauth_id), "value", Field::Maybe(value)),
            Command::SetPermissionMode { mode } => one("mode", Field::Text(mode)),
            Command::ListRewinds => no_members(),
            Command::RewindFile { checkpoint_id } =>
                one("checkpoint_id", Field::Text(checkpoint_id)),
            Command::ExportTrace { path } => one("path", Field::Maybe(path)),
            Command::ListSessions => no_members(),
            Command::ResumeSession { target } => one("target", Field::Text(target)),
            Command::RenameSession { target, name } =>
                two("target", Field::Text(target), "name", Field::Text(name)),
            Command::DeleteSession { target } => one("target", Field::Text(target)),
            Command::NewSession => no_members(),
            Command::NameSession { name } => one("name", Field::Text(name)),
            Command::SessionStats => no_members(),
            Command::CloneSession => no_members(),
            Command::Compact { instructions } => one("instructions", Field::Maybe(instructions)),
            Command::SessionTree { user_only } => one("user_only", Field::Flag(user_only)),
            Command::NavigateTree { entry_id, summarize, instructions } =>
                three(
                    "entry_id", Field::Text(entry_id),
                    "summarize", Field::Flag(summarize),
                    "instructions", Field::Maybe(instructions),
                ),
            Command::ForkSession { entry_id } => one("entry_id", Field::Text(entry_id)),
            Command::SetSessionLabel { entry_id, label } =>
                two("entry_id", Field::Text(entry_id), "label", Field::Maybe(label)),
        }
    }
}

fn no_members() -> (r: Vec<(String, Field)>)
    ensures
        member_views(r@) == Seq::<(Seq<char>, FieldView)>::empty(),
{
    let out: Vec<(String, Field)> = Vec::new();
    assert(member_views(out@) =~= Seq::<(Seq<char>, FieldView)>::empty());
    out
}

fn push_member(members: &mut Vec<(String, Field)>, name: &str, field: Field)
    ensures
        member_views(final(members)@) == member_views(old(members)@).push((name@, field@)),
{
    let ghost before = members@;
    members.push((name.to_owned(), field));
    assert(member_views(members@) =~= member_views(before).push((name@, field@)));
}

pub(crate) fn one(a: &str, x: Field) -> (r: Vec<(String, Field)>)
    ensures
        member_views(r@) == seq![(a@, x@)],
{
    let mut out: Vec<(String, Field)> = no_members();
    push_member(&mut out, a, x);
    assert(member_views(out@) =~= seq![(a@, x@)]);
    out
}

fn two(a: &str, x: Field, b: &str, y: Field) -> (r: Vec<(String, Field)>)
    ensures
        member_views(r@) == seq![(a@, x@), (b@, y@)],
{
    let mut out: Vec<(String, Field)> = one(a, x);
    push_member(&mut out, b, y);
    assert(member_views(out@) =~= seq![(a@, x@), (b@, y@)]);
    out
}

fn three(a: &str, x: Field, b: &str, y: Field, c: &str, z: Field) -> (r: Vec<(String, Field)>)
    ensures
        member_views(r@) == seq![(a@, x@), (b@, y@), (c@, z@)],
{
    let mut out: Vec<(String, Field)> = two(a, x, b, y);
    push_member(&mut out, c, z);
    assert(member_views(out@) =~= seq![(a@, x@), (b@, y@), (c@, z@)]);
    out
}

fn pair(name: &str, value: String) -> (r: (String, String))
    ensures
        r.0@ == name@,
        r.1 == value,
{
    (name.to_owned(), value)
}

fn persistence_field(persistence: SessionPersistence) -> (r: Field)
    ensures
        r@ == FieldView::Record(persistence_record(persistence)),
{
    let mut record: Vec<(String, String)> = Vec::new();
    let ghost told = persistence_record(persistence);
    match persistence {
        SessionPersistence::Persistent => record.push(pair("mode", "persistent".to_owned())),
        SessionPersistence::Continue => record.push(pair("mode", "continue".to_owned())),
        SessionPersistence::Open(target) => {
            record.push(pair("mode", "open".to_owned()));
            record.push(pair("target", target));
        },
        SessionPersistence::Fork(target) => {
            record.push(pair("mode", "fork".to_owned()));
            record.push(pair("target", target));
        },
        SessionPersistence::InMemory => record.push(pair("mode", "in_memory".to_owned())),
    }
    assert(record_view(record@) =~= told);
    Field::Record(record)
}

fn delivery_field(delivery: Option<MessageDelivery>) -> (r: Field)
    ensures
        r@ == match delivery {
            Some(d) => FieldView::Text(delivery_name(d)),
            None => FieldView::Null,
        },
{
    match delivery {
        Some(MessageDelivery::Steer) => Field::Text("steer".to_owned()),
        Some(MessageDelivery::FollowUp) => Field::Text("follow_up".to_owned()),
        None => Field::Maybe(None),
    }
}

fn decision_field(decision: PermissionDecision) -> (r: Field)
    ensures
        r@ == FieldView::Text(decision_name(decision)),
{
    match decision {
        PermissionDecision::AllowOnce => Field::Text("AllowOnce".to_owned()),
        PermissionDecision::AllowAlways => Field::Text("AllowAlways".to_owned()),
        PermissionDecision::Deny => Field::Text("Deny".to_owned()),
    }
}

fn value_field(value: SettingValue) -> (r: Field)
    ensures
        r@ == setting_field(value),
{
    match value {
        SettingValue::Text(s) => Field::Text(s),
        SettingValue::Flag(b) => Field::Flag(b),
        SettingValue::Null => Field::Maybe(None),
    }
}

fn images_field(images: Vec<MessageImage>) -> (r: Field)
    ensures
        r@ == FieldView::Records(images@.map_values(|image: MessageImage| image_record(image))),
{
    let mut records: Vec<Vec<(String, String)>> = Vec::new();
    let mut i: usize = 0;
    while i < images.len()
        invariant
            i <= images@.len(),
            records@.len() == i,
            forall|k: int|
                0 <= k < i ==> record_view((#[trigger] records@[k])@) == image_record(images@[k]),
        decreases images@.len() - i,
    {
        let mut record: Vec<(String, String)> = Vec::new();
        record.push(pair("path", images[i].path.clone()));
        record.push(pair("mime_type", images[i].mime_type.clone()));
        assert(record_view(record@) =~= image_record(images@[i as int]));
        records.push(record);
        i += 1;
    }
    assert(record_views(records@) =~= images@.map_values(
        |image: MessageImage| image_record(image),
    ));
    Field::Records(records)
}

/// The text of a JSON object with these members, `None` where it cannot be
/// written.
pub uninterp spec fn json_object(members: Seq<(Seq<char>, FieldView)>) -> Option<Seq<char>>;

/// Writes a JSON object.
///
/// Trusted: `serde_json::to_string` on the `serde_json::Value` that has these
/// members. The text depends on the members alone: texts become strings,
/// missing texts `null`, flags booleans, lists arrays, records objects, and a
/// JSON value stays as it is.
#[verifier::external_body]
pub(crate) fn object_text(members: Vec<(String, Field)>) -> (r: Option<String>)
    ensures
        entry_view::option_view(r) == json_object(member_views(members@)),
{
    let value: serde_json::Value = members.into_iter().map(|(name, field)| (name, match field {
        Field::Text(text) => serde_json::Value::from(text),
        Field::Maybe(text) => serde_json::Value::from(text),
        Field::Flag(flag) => serde_json::Value::from(flag),
        Field::Texts(texts) => serde_json::Value::from(texts),
        Field::Record(pairs) => pairs.into_iter().collect(),
        Field::Records(list) =>
            list.into_iter().map(|pairs| pairs.into_iter().collect::<serde_json::Value>()).collect(),
        Field::Json(value) => value,
    })).collect();
    serde_json::to_string(&value).ok()
}

/// All members of a request: its name, the session it concerns, its own
/// members and its number.
pub open spec fn line_members(command: Command, session: Seq<char>, id: Seq<char>) -> Seq<
    (Seq<char>, FieldView),
> {
    let head = if command.is_global() {
        seq![("type"@, FieldView::Text(command.kind()))]
    } else {
        seq![
            ("type"@, FieldView::Text(command.kind())),
            ("session_id"@, FieldView::Text(session)),
        ]
    };
    (head + command.members()).push(("request_id"@, FieldView::Text(id)))
}

/// The members of the line that a request is sent as.
pub fn request_members(command: Command, session: &SessionId, id: &String) -> (r: Vec<(String, Field)>)
    ensures
        member_views(r@) == line_members(command, session@, id@),
{
    let mut members: Vec<(String, Field)> = one(
        "type",
        Field::Text(command.kind_name().to_owned()),
    );
    if command.has_session() {
        push_member(&mut members, "session_id", Field::Text(session.0.clone()));
    }
    let ghost head = member_views(members@);
    proof {
        if command.is_global() {
            assert(head =~= seq![("type"@, FieldView::Text(command.kind()))]);
        } else {
            assert(head =~= seq![
                ("type"@, FieldView::Text(command.kind())),
                ("session_id"@, FieldView::Text(session@)),
            ]);
        }
    }
    let ghost first = members@;
    let mut own: Vec<(String, Field)> = command.into_members();
    let ghost told = own@;
    members.append(&mut own);
    assert(member_views(members@) =~= head + member_views(told)) by {
        assert(members@ =~= first + told);
    }
    push_member(&mut members, "request_id", Field::Text(id.clone()));
    members
}

/// The line that a request is sent as, `None` where it cannot be written.
pub fn request_line(command: Command, session: &SessionId, id: &String) -> (r: Option<String>)
    ensures
        entry_view::option_view(r) == match json_object(line_members(command, session@, id@)) {
            Some(object) => Some(object + "\n"@),
            None => None,
        },
{
    match object_text(request_members(command, session, id)) {
        Some(object) => Some(text::joined(object.as_str(), "\n")),
        None => None,
    }
}

/// The requests that a command of the screen leads to, in turn. Updates,
/// resident sessions and extensions are not the backend's to change.
pub open spec fn asks(command: UiCommand) -> Seq<Command> {
    match command {
        UiCommand::Submit { text, delivery, images } =>
            seq![Command::DeliverMessage { text, delivery, images }],
        UiCommand::Permission { request_id, decision } =>
            seq![Command::ReplyPermission { permission_id: request_id, decision }],
        UiCommand::SetModel(model) => seq![Command::SetModel { model }],
        UiCommand::ResumeSession(target) => seq![Command::ResumeSession { target }],
        UiCommand::RenameSession { target, name } => seq![Command::RenameSession { target, name }],
        UiCommand::DeleteSession(target) => seq![Command::DeleteSession { target }],
        UiCommand::RefreshSessions => seq![Command::ListSessions],
        UiCommand::LoadWorkflowCatalog => seq![Command::WorkflowCatalog],
        UiCommand::PreviewWorkflow(workflow) => seq![Command::PreviewWorkflow { workflow }],
        UiCommand::StartWorkflow { workflow, input, expected_definition_hash } =>
            seq![
                Command::StartWorkflow {
                    workflow,
                    input,
                    parameters: None,
                    expected_definition_hash,
                },
            ],
        UiCommand::NewSession => seq![Command::NewSession],
        UiCommand::NameSession(name) => seq![Command::NameSession { name }],
        UiCommand::SessionInfo => seq![Command::SessionStats],
        UiCommand::CloneSession => seq![Command::CloneSession],
        UiCommand::Compact(instructions) => seq![Command::Compact { instructions }],
        UiCommand::LoadTree { user_only } => seq![Command::SessionTree { user_only }],
        UiCommand::NavigateTree { entry_id, summarize, instructions } =>
            seq![Command::NavigateTree { entry_id, summarize, instructions }],
        UiCommand::ForkSession { entry_id } => seq![Command::ForkSession { entry_id }],
        UiCommand::SetLabel { entry_id, label } =>
            seq![Command::SetSessionLabel { entry_id, label }],
        UiCommand::CycleThinking => seq![Command::CycleThinking],
        UiCommand::SetThinking(level) => seq![Command::SetThinking { level }],
        UiCommand::ExecuteBash { command, exclude_from_context } =>
            seq![Command::ExecuteBash { command, exclude_from_context }],
        UiCommand::ReloadResources => seq![Command::ReloadResources],
        UiCommand::SetRuntimeSetting { key, value } =>
            seq![Command::SetRuntimeSetting { key, value }],
        UiCommand::SetProjectTrust(trusted) => seq![Command::SetProjectTrust { trusted }],
        UiCommand::SetScopedModels(models) => seq![Command::SetScopedModels { models }],
        UiCommand::ExportSession(path) => seq![Command::ExportSession { path }],
        UiCommand::ImportSession(path) => seq![Command::ImportSession { path }],
        UiCommand::CopyLast => seq![Command::CopyLast],
        UiCommand::BeginOauth(provider) => seq![Command::BeginOauth { provider }],
        UiCommand::OauthReply { id, value } => seq![Command::ReplyOauth { oauth_id: id, value }],
        UiCommand::SetPermissionMode(mode) => seq![Command::SetPermissionMode { mode }],
        UiCommand::LoadRewinds => seq![Command::ListRewinds],
        UiCommand::RewindFile(checkpoint_id) => seq![Command::RewindFile { checkpoint_id }],
        UiCommand::ExportTrace(path) => seq![Command::ExportTrace { path }],
        UiCommand::KillTask(task_id) => seq![Command::KillTask { task_id }],
        UiCommand::WorkflowControl { run_id, action, step_id } =>
            seq![Command::ControlWorkflow { run_id, action, step_id }],
        UiCommand::ReadWorkflowArtifact { run_id, artifact_id } =>
            seq![Command::ReadWorkflowArtifact { run_id, artifact_id }],
        UiCommand::AbortAndRestoreQueue => seq![Command::Cancel, Command::ClearQueue],
        UiCommand::InstallUpdate => Seq::<Command>::empty(),
        UiCommand::SetExtensionEnabled { .. } => Seq::<Command>::empty(),
        UiCommand::StopResident(path) => Seq::<Command>::empty(),
        UiCommand::CloseResident(path) => Seq::<Command>::empty(),
    }
}

fn single(command: Command) -> (r: Vec<Command>)
    ensures
        r@ == seq![command],
{
    let mut out: Vec<Command> = Vec::new();
    out.push(command);
    assert(out@ =~= seq![command]);
    out
}

/// The requests that a command of the screen leads to, in turn.
pub fn commands_of(command: UiCommand) -> (r: Vec<Command>)
    ensures
        r@ == asks(command),
{
    match command {
        UiCommand::Submit { text, delivery, images } =>
            single(Command::DeliverMessage { text, delivery, images }),
        UiCommand::Permission { request_id, decision } =>
            single(Command::ReplyPermission { permission_id: request_id, decision }),
        UiCommand::SetModel(model) => single(Command::SetModel { model }),
        UiCommand::ResumeSession(target) => single(Command::ResumeSession { target }),
        UiCommand::RenameSession { target, name } =>
            single(Command::RenameSession { target, name }),
        UiCommand::DeleteSession(target) => single(Command::DeleteSession { target }),
        UiCommand::RefreshSessions => single(Command::ListSessions),
        UiCommand::LoadWorkflowCatalog => single(Command::WorkflowCatalog),
        UiCommand::PreviewWorkflow(workflow) => single(Command::PreviewWorkflow { workflow }),
        UiCommand::StartWorkflow { workflow, input, expected_definition_hash } =>
            single(
                Command::StartWorkflow {
                    workflow,
                    input,
                    parameters: None,
                    expected_definition_hash,
                },
            ),
        UiCommand::NewSession => single(Command::NewSession),
        UiCommand::NameSession(name) => single(Command::NameSession { name }),
        UiCommand::SessionInfo => single(Command::SessionStats),
        UiCommand::CloneSession => single(Command::CloneSession),
        UiCommand::Compact(instructions) => single(Command::Compact { instructions }),
        UiCommand::LoadTree { user_only } => single(Command::SessionTree { user_only }),
        UiCommand::NavigateTree { entry_id, summarize, instructions } =>
            single(Command::NavigateTree { entry_id, summarize, instructions }),
        UiCommand::ForkSession { entry_id } => single(Command::ForkSession { entry_id }),
        UiCommand::SetLabel { entry_id, label } =>
            single(Command::SetSessionLabel { entry_id, label }),
        UiCommand::CycleThinking => single(Command::CycleThinking),
        UiCommand::SetThinking(level) => single(Command::SetThinking { level }),
        UiCommand::ExecuteBash { command, exclude_from_context } =>
            single(Command::ExecuteBash { command, exclude_from_context }),
        UiCommand::ReloadResources => single(Command::ReloadResources),
        UiCommand::SetRuntimeSetting { key, value } =>
            single(Command::SetRuntimeSetting { key, value }),
        UiCommand::SetProjectTrust(trusted) => single(Command::SetProjectTrust { trusted }),
        UiCommand::SetScopedModels(models) => single(Command::SetScopedModels { models }),
        UiCommand::ExportSession(path) => single(Command::ExportSession { path }),
        UiCommand::ImportSession(path) => single(Command::ImportSession { path }),
        UiCommand::CopyLast => single(Command::CopyLast),
        UiCommand::BeginOauth(provider) => single(Command::BeginOauth { provider }),
        UiCommand::OauthReply { id, value } => single(Command::ReplyOauth { oauth_id: id, value }),
        UiCommand::SetPermissionMode(mode) => single(Command::SetPermissionMode { mode }),
        UiCommand::LoadRewinds => single(Command::ListRewinds),
        UiCommand::RewindFile(checkpoint_id) => single(Command::RewindFile { checkpoint_id }),
        UiCommand::ExportTrace(path) => single(Command::ExportTrace { path }),
        UiCommand::KillTask(task_id) => single(Command::KillTask { task_id }),
        UiCommand::WorkflowControl { run_id, action, step_id } =>
            single(Command::ControlWorkflow { run_id, action, step_id }),
        UiCommand::ReadWorkflowArtifact { run_id, artifact_id } =>
            single(Command::ReadWorkflowArtifact { run_id, artifact_id }),
        UiCommand::AbortAndRestoreQueue => {
            let mut out: Vec<Command> = single(Command::Cancel);
            out.push(Command::ClearQueue);
            assert(out@ =~= seq![Command::Cancel, Command::ClearQueue]);
            out
        },
        UiCommand::InstallUpdate => Vec::new(),
        UiCommand::SetExtensionEnabled { .. } => Vec::new(),
        UiCommand::StopResident(_) => Vec::new(),
        UiCommand::CloseResident(_) => Vec::new(),
    }
}

/// The name under which the backend knows each request. Both ways of sending a message have
/// the same one, and no other two requests do.
pub proof fn requests_have_their_names(command: Command)
    ensures
        command is Health ==> command.kind() == "health"@,
        command is ListModels ==> command.kind() == "list_models"@,
        command is OpenSession ==> command.kind() == "open_session"@,
        command is ListAuthProviders ==> command.kind() == "list_auth_providers"@,
        command is SetApiKey ==> command.kind() == "set_api_key"@,
        command is Logout ==> command.kind() == "logout"@,
        command is Prompt ==> command.kind() == "prompt"@,
        command is DeliverMessage ==> command.kind() == "prompt"@,
        command is CycleThinking ==> command.kind() == "cycle_thinking"@,
        command is SetThinking ==> command.kind() == "set_thinking"@,
        command is ClearQueue ==> command.kind() == "clear_queue"@,
        command is ExecuteBash ==> command.kind() == "bash"@,
        command is Cancel ==> command.kind() == "cancel"@,
        command is KillTask ==> command.kind() == "kill_task"@,
        command is ControlWorkflow ==> command.kind() == "workflow_control"@,
        command is StartWorkflow ==> command.kind() == "workflow_start"@,
        command is WorkflowCatalog ==> command.kind() == "workflow_catalog"@,
        command is PreviewWorkflow ==> command.kind() == "workflow_preview"@,
        command is ReadWorkflowArtifact ==> command.kind() == "workflow_artifact_read"@,
        command is CloseSession ==> command.kind() == "close_session"@,
        command is ReplyPermission ==> command.kind() == "permission"@,
        command is SetModel ==> command.kind() == "set_model"@,
        command is ListFiles ==> command.kind() == "list_files"@,
        command is RuntimeResources ==> command.kind() == "list_resources"@,
        command is ReloadResources ==> command.kind() == "reload_resources"@,
        command is RuntimeSettings ==> command.kind() == "get_settings"@,
        command is SetRuntimeSetting ==> command.kind() == "set_setting"@,
        command is SetScopedModels ==> command.kind() == "set_scoped_models"@,
        command is SetProjectTrust ==> command.kind() == "set_project_trust"@,
        command is ExportSession ==> command.kind() == "export_session"@,
        command is ImportSession ==> command.kind() == "import_session"@,
        command is CopyLast ==> command.kind() == "copy_last"@,
        command is BeginOauth ==> command.kind() == "oauth_login"@,
        command is ReplyOauth ==> command.kind() == "oauth_reply"@,
        command is SetPermissionMode ==> command.kind() == "set_permission_mode"@,
        command is ListRewinds ==> command.kind() == "list_rewinds"@,
        command is RewindFile ==> command.kind() == "rewind_file"@,
        command is ExportTrace ==> command.kind() == "trace"@,
        command is ListSessions ==> command.kind() == "list_sessions"@,
        command is ResumeSession ==> command.kind() == "resume_session"@,
        command is RenameSession ==> command.kind() == "rename_session"@,
        command is DeleteSession ==> command.kind() == "delete_session"@,
        command is NewSession ==> command.kind() == "new_session"@,
        command is NameSession ==> command.kind() == "name_session"@,
        command is SessionStats ==> command.kind() == "session_info"@,
        command is CloneSession ==> command.kind() == "clone_session"@,
        command is Compact ==> command.kind() == "compact"@,
        command is SessionTree ==> command.kind() == "list_tree"@,
        command is NavigateTree ==> command.kind() == "navigate_tree"@,
        command is ForkSession ==> command.kind() == "fork_session"@,
        command is SetSessionLabel ==> command.kind() == "set_label"@,
{
}

proof fn held(members: Seq<(Seq<char>, FieldView)>, command: Command, session: Seq<char>, id: Seq<char>, k: int)
    requires
        members == command.members(),
        0 <= k < members.len(),
    ensures
        line_members(command, session, id).contains(members[k]),
{
    let line = line_members(command, session, id);
    let skip = if command.is_global() {
        1int
    } else {
        2int
    };
    assert(line[skip + k] == members[k]);
}

/// Every request says what it is, which session it concerns, unless it concerns none, and
/// under which number it is answered.
pub proof fn requests_can_be_answered(command: Command, session: Seq<char>, id: Seq<char>)
    ensures
        line_members(command, session, id)[0] == ("type"@, FieldView::Text(command.kind())),
        line_members(command, session, id).last() == ("request_id"@, FieldView::Text(id)),
        command is Health || command is ListModels || command is OpenSession
            || line_members(command, session, id)[1] == ("session_id"@, FieldView::Text(session)),
{
}

/// A message is sent with its words, how it is delivered, and its images.
pub proof fn messages_carry_their_words(command: Command, session: Seq<char>, id: Seq<char>)
    ensures
        command matches Command::Prompt { text } ==> line_members(command, session, id).contains(
            ("text"@, FieldView::Text(text@)),
        ),
        command matches Command::DeliverMessage { text, delivery, images } ==> {
            let line = line_members(command, session, id);
            &&& line.contains(("text"@, FieldView::Text(text@)))
            &&& delivery is None ==> line.contains(("delivery"@, FieldView::Null))
            &&& delivery == Some(MessageDelivery::Steer) ==> line.contains(
                ("delivery"@, FieldView::Text("steer"@)),
            )
            &&& delivery == Some(MessageDelivery::FollowUp) ==> line.contains(
                ("delivery"@, FieldView::Text("follow_up"@)),
            )
        },
{
    let members = command.members();
    if members.len() > 0 {
        held(members, command, session, id, 0);
    }
    if members.len() > 1 {
        held(members, command, session, id, 1);
    }
}

/// Every image of a message is sent with its place and its type, in the order of the images.
pub proof fn messages_carry_their_images(
    text: String,
    delivery: Option<MessageDelivery>,
    images: Vec<MessageImage>,
    k: int,
)
    requires
        0 <= k < images@.len(),
    ensures
        ({
            let members = (Command::DeliverMessage { text, delivery, images }).members();
            &&& members.len() == 3
            &&& members[2].0 == "images"@
            &&& members[2].1 matches FieldView::Records(records)
            &&& records.len() == images@.len()
            &&& records[k].contains(("path"@, images@[k].path@))
            &&& records[k].contains(("mime_type"@, images@[k].mime_type@))
        }),
{
    let members = (Command::DeliverMessage { text, delivery, images }).members();
    let records = images@.map_values(|image: MessageImage| image_record(image));
    assert(records[k][0] == ("path"@, images@[k].path@));
    assert(records[k][1] == ("mime_type"@, images@[k].mime_type@));
}

/// An answer to a request for leave says which request it answers and what was decided; the
/// three decisions are told apart.
pub proof fn decisions_are_sent(
    permission_id: String,
    decision: PermissionDecision,
    session: Seq<char>,
    id: Seq<char>,
)
    ensures
        ({
            let line = line_members(
                Command::ReplyPermission { permission_id, decision },
                session,
                id,
            );
            &&& line.contains(("permission_id"@, FieldView::Text(permission_id@)))
            &&& decision is AllowOnce ==> line.contains(
                ("decision"@, FieldView::Text("AllowOnce"@)),
            )
            &&& decision is AllowAlways ==> line.contains(
                ("decision"@, FieldView::Text("AllowAlways"@)),
            )
            &&& decision is Deny ==> line.contains(("decision"@, FieldView::Text("Deny"@)))
        }),
{
    let command = Command::ReplyPermission { permission_id, decision };
    held(command.members(), command, session, id, 0);
    held(command.members(), command, session, id, 1);
}

/// A request on something names it: the session, the entry, the task, the run, the provider,
/// the model, the file or the setting that is meant, and what is to become of it.
pub proof fn requests_name_what_they_mean(
    command: Command,
    session: Seq<char>,
    id: Seq<char>,
    k: int,
)
    requires
        0 <= k < command.members().len(),
    ensures
        line_members(command, session, id).contains(command.members()[k]),
        command matches Command::SetApiKey { provider, key } ==> command.members()[0] == ("provider"@, FieldView::Text(provider@)) && command.members()[1] == ("key"@, FieldView::Text(key@)),
        command matches Command::Logout { provider } ==> command.members()[0] == ("provider"@, FieldView::Text(provider@)),
        command matches Command::SetThinking { level } ==> command.members()[0] == ("level"@, FieldView::Text(level@)),
        command matches Command::ExecuteBash { command: words, exclude_from_context } ==> command.members()[0] == ("command"@, FieldView::Text(words@)) && command.members()[1] == ("exclude_from_context"@, FieldView::Flag(exclude_from_context)),
        command matches Command::KillTask { task_id } ==> command.members()[0] == ("task_id"@, FieldView::Text(task_id@)),
        command matches Command::ControlWorkflow { run_id, action, step_id } ==> command.members()[0] == ("run_id"@, FieldView::Text(run_id@)) && command.members()[1] == ("action"@, FieldView::Text(action@)) && command.members()[2] == ("step_id"@, match step_id {
                Some(words) => FieldView::Text(words@),
                None => FieldView::Null,
            }),
        command matches Command::PreviewWorkflow { workflow } ==> command.members()[0] == ("workflow"@, FieldView::Text(workflow@)),
        command matches Command::ReadWorkflowArtifact { run_id, artifact_id } ==> command.members()[0] == ("run_id"@, FieldView::Text(run_id@)) && command.members()[1] == ("artifact_id"@, FieldView::Text(artifact_id@)),
        command matches Command::SetModel { model } ==> command.members()[0] == ("model"@, FieldView::Text(model@)),
        command matches Command::SetProjectTrust { trusted } ==> command.members()[0] == ("trusted"@, FieldView::Flag(trusted)),
        command matches Command::ExportSession { path } ==> command.members()[0] == ("path"@, match path {
                Some(words) => FieldView::Text(words@),
                None => FieldView::Null,
            }),
        command matches Command::ImportSession { path } ==> command.members()[0] == ("path"@, FieldView::Text(path@)),
        command matches Command::BeginOauth { provider } ==> command.members()[0] == ("provider"@, FieldView::Text(provider@)),
        command matches Command::ReplyOauth { oauth_id, value } ==> command.members()[0] == ("oauth_id"@, FieldView::Text(oauth_id@)) && command.members()[1] == ("value"@, match value {
                Some(words) => FieldView::Text(words@),
                None => FieldView::Null,
            }),
        command matches Command::SetPermissionMode { mode } ==> command.members()[0] == ("mode"@, FieldView::Text(mode@)),
        command matches Command::RewindFile { checkpoint_id } ==> command.members()[0] == ("checkpoint_id"@, FieldView::Text(checkpoint_id@)),
        command matches Command::ExportTrace { path } ==> command.members()[0] == ("path"@, match path {
                Some(words) => FieldView::Text(words@),
                None => FieldView::Null,
            }),
        command matches Command::ResumeSession { target } ==> command.members()[0] == ("target"@, FieldView::Text(target@)),
        command matches Command::RenameSession { target, name } ==> command.members()[0] == ("target"@, FieldView::Text(target@)) && command.members()[1] == ("name"@, FieldView::Text(name@)),
        command matches Command::DeleteSession { target } ==> command.members()[0] == ("target"@, FieldView::Text(target@)),
        command matches Command::NameSession { name } ==> command.members()[0] == ("name"@, FieldView::Text(name@)),
        command matches Command::Compact { instructions } ==> command.members()[0] == ("instructions"@, match instructions {
                Some(words) => FieldView::Text(words@),
                None => FieldView::Null,
            }),
        command matches Command::SessionTree { user_only } ==> command.members()[0] == ("user_only"@, FieldView::Flag(user_only)),
        command matches Command::NavigateTree { entry_id, summarize, instructions } ==> command.members()[0] == ("entry_id"@, FieldView::Text(entry_id@)) && command.members()[1] == ("summarize"@, FieldView::Flag(summarize)) && command.members()[2] == ("instructions"@, match instructions {
                Some(words) => FieldView::Text(words@),
                None => FieldView::Null,
            }),
        command matches Command::ForkSession { entry_id } ==> command.members()[0] == ("entry_id"@, FieldView::Text(entry_id@)),
        command matches Command::SetSessionLabel { entry_id, label } ==> command.members()[0] == ("entry_id"@, FieldView::Text(entry_id@)) && command.members()[1] == ("label"@, match label {
                Some(words) => FieldView::Text(words@),
                None => FieldView::Null,
            }),
{
    held(command.members(), command, session, id, k);
}

/// A workflow is started by its name with the request, and with the hash of the definition
/// that was shown, where one was.
pub proof fn workflows_are_started_as_shown(
    workflow: String,
    input: String,
    parameters: Option<serde_json::Value>,
    expected_definition_hash: Option<String>,
)
    ensures
        ({
            let members = (Command::StartWorkflow {
                workflow,
                input,
                parameters,
                expected_definition_hash,
            }).members();
            &&& members.contains(("workflow"@, FieldView::Text(workflow@)))
            &&& members.contains(("input"@, FieldView::Text(input@)))
            &&& parameters matches Some(value) ==> members.contains(
                ("parameters"@, FieldView::Json(value)),
            )
            &&& expected_definition_hash matches Some(hash) ==> members.contains(
                ("expected_definition_hash"@, FieldView::Text(hash@)),
            )
        }),
{
    let members = (Command::StartWorkflow {
        workflow,
        input,
        parameters,
        expected_definition_hash,
    }).members();
    assert(members[0] == ("workflow"@, FieldView::Text(workflow@)));
    assert(members[1] == ("input"@, FieldView::Text(input@)));
    let at = if parameters is Some {
        3int
    } else {
        2int
    };
    if parameters is Some {
        assert(members[2] == ("parameters"@, FieldView::Json(parameters->0)));
    }
    if expected_definition_hash is Some {
        assert(members[at] == (
            "expected_definition_hash"@,
            FieldView::Text(expected_definition_hash->0@),
        ));
    }
}

/// A session is opened in a directory, and as it is asked for: anew, the last one, a stored
/// one, a copy of a stored one, or one that is not stored.
pub proof fn sessions_are_opened_as_asked(cwd: String, persistence: SessionPersistence)
    ensures
        ({
            let members = (Command::OpenSession { cwd, persistence }).members();
            &&& members[0] == ("cwd"@, FieldView::Text(cwd@))
            &&& members[1].0 == "persistence"@
            &&& members[1].1 matches FieldView::Record(record)
            &&& record.len() > 0
            &&& record[0].0 == "mode"@
            &&& persistence is Persistent ==> record[0].1 == "persistent"@
            &&& persistence is Continue ==> record[0].1 == "continue"@
            &&& persistence is InMemory ==> record[0].1 == "in_memory"@
            &&& persistence matches SessionPersistence::Open(target) ==> record[0].1 == "open"@
                && record.contains(("target"@, target@))
            &&& persistence matches SessionPersistence::Fork(target) ==> record[0].1 == "fork"@
                && record.contains(("target"@, target@))
        }),
{
    match persistence {
        SessionPersistence::Open(target) => {
            assert(persistence_record(persistence)[1] == ("target"@, target@));
        },
        SessionPersistence::Fork(target) => {
            assert(persistence_record(persistence)[1] == ("target"@, target@));
        },
        _ => {},
    }
}

/// A request that puts another session in the place of the present one may take long, and so
/// may one that runs a command or asks a model; a message, a decision and a stop do not.
pub proof fn long_requests_are_given_time(command: Command)
    ensures
        command.replaces_session() ==> command.is_patient(),
        command is ExecuteBash || command is Compact ==> command.is_patient(),
        command is Prompt || command is DeliverMessage || command is Cancel || command
            is ReplyPermission ==> !command.is_patient(),
        INFERENCE_OPERATION_TIMEOUT_MS > REQUEST_TIMEOUT_MS,
{
}

/// The requests that bring another session: a new one, a copy, a branch, an imported or a
/// stored one, and another place in the present one.
pub proof fn replacing_requests_are_known(command: Command)
    ensures
        command.replaces_session() <==> (command is NewSession || command is CloneSession || command
            is ForkSession || command is ImportSession || command is ResumeSession || command
            is NavigateTree),
{
}

} // verus!
