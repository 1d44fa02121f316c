//! The data exchanged with an agent backend.
//!
//! Payloads that the client only carries through, such as the arguments of a
//! tool call, are kept as JSON text.

use vstd::prelude::*;

verus! {

/// Identifies one agent session.
#[derive(Clone, Debug)]
pub struct SessionId(pub String);

impl SessionId {
    /// The identifier as text.
    pub open spec fn view(&self) -> Seq<char> {
        self.0@
    }

    /// Whether two identifiers name the same session.
    pub fn same(&self, other: &SessionId) -> (r: bool)
        ensures
            r == (self@ == other@),
    {
        self.0 == other.0
    }

    /// A copy of the identifier.
    pub fn copy(&self) -> (r: SessionId)
        ensures
            r == *self,
    {
        SessionId(self.0.clone())
    }
}

/// How a session is opened and stored.
#[derive(Clone, Debug)]
pub enum SessionPersistence {
    Persistent,
    Continue,
    Open(String),
    Fork(String),
    InMemory,
}

impl Default for SessionPersistence {
    fn default() -> (r: Self)
        ensures
            r is Persistent,
    {
        SessionPersistence::Persistent
    }
}

/// What a session is opened with.
#[derive(Clone, Debug)]
pub struct SessionConfig {
    pub model: Option<String>,
    pub cwd: Option<String>,
    pub persistence: SessionPersistence,
    pub parent_session_path: Option<String>,
    pub thinking_level: Option<String>,
    pub tools: Option<Vec<String>>,
}

impl Default for SessionConfig {
    fn default() -> (r: Self)
        ensures
            r.model is None,
            r.cwd is None,
            r.persistence is Persistent,
            r.parent_session_path is None,
            r.thinking_level is None,
            r.tools is None,
    {
        SessionConfig {
            model: None,
            cwd: None,
            persistence: SessionPersistence::Persistent,
            parent_session_path: None,
            thinking_level: None,
            tools: None,
        }
    }
}

/// An authentication provider and whether it has credentials.
#[derive(Clone, Debug)]
pub struct AuthProviderInfo {
    pub id: String,
    pub display_name: String,
    pub auth_type: String,
    pub configured: bool,
}

/// The outcome of a tool call. `details` is JSON text.
#[derive(Clone, Debug)]
pub struct ToolResult {
    pub content: String,
    pub details: Option<String>,
}

/// One step of a plan.
#[derive(Clone, Debug)]
pub struct PlanEntry {
    pub step: String,
    pub status: String,
}

/// Token counts of one turn.
#[derive(Clone, Copy, Debug, PartialEq, Eq, Structural)]
pub struct Usage {
    pub input_tokens: u64,
    pub output_tokens: u64,
}

impl Default for Usage {
    fn default() -> (r: Self)
        ensures
            r == (Usage { input_tokens: 0, output_tokens: 0 }),
    {
        Usage { input_tokens: 0, output_tokens: 0 }
    }
}

/// Where an agent error came from.
#[derive(Clone, Copy, Debug, PartialEq, Eq, Structural)]
pub enum AgentErrorKind {
    Authentication,
    Provider,
    Tool,
    Internal,
}

/// Start or end of a compaction.
#[derive(Clone, Copy, Debug, PartialEq, Eq, Structural)]
pub enum CompactionPhase {
    Start,
    End,
}

/// The answer to a permission request.
#[derive(Clone, Copy, Debug, PartialEq, Eq, Structural)]
pub enum PermissionDecision {
    AllowOnce,
    AllowAlways,
    Deny,
}

/// How a message reaches a running turn.
#[derive(Clone, Copy, Debug, PartialEq, Eq, Structural)]
pub enum MessageDelivery {
    Steer,
    FollowUp,
}

/// An image sent with a message.
#[derive(Clone, Debug)]
pub struct MessageImage {
    pub path: String,
    pub mime_type: String,
}

/// A selectable model.
#[derive(Clone, Debug)]
pub struct ModelInfo {
    pub id: String,
    pub display_name: String,
    pub context_window: Option<u64>,
}

/// A stored session.
#[derive(Clone, Debug)]
pub struct SessionInfo {
    pub id: String,
    pub path: String,
    pub name: Option<String>,
    pub first_message: String,
    pub modified_at_ms: u64,
    pub message_count: usize,
    pub current: bool,
    pub cwd: String,
    pub parent_session_path: Option<String>,
}

/// A resident session as the dashboard lists it.
#[derive(Clone, Debug)]
pub struct RuntimeSessionInfo {
    pub path: String,
    pub status: String,
    pub started_at_ms: Option<u64>,
}

/// One entry of a session's message tree.
#[derive(Clone, Debug)]
pub struct SessionTreeEntry {
    pub id: String,
    pub parent_id: Option<String>,
    pub kind: String,
    pub role: Option<String>,
    pub text: String,
    pub timestamp: String,
    pub label: Option<String>,
    pub label_timestamp: Option<String>,
    pub depth: usize,
    pub active: bool,
}

/// A command that the backend offers.
#[derive(Clone, Debug)]
pub struct RuntimeCommand {
    pub name: String,
    pub description: String,
    pub source: String,
}

/// An extension that the backend has resolved.
#[derive(Clone, Debug)]
pub struct RuntimeExtension {
    pub path: String,
    pub label: String,
    pub source: String,
    pub scope: String,
    pub enabled: bool,
    pub loaded: bool,
}

/// What the backend offers for completion and display.
#[derive(Clone, Debug)]
pub struct RuntimeResources {
    pub commands: Vec<RuntimeCommand>,
    pub context_files: Vec<String>,
    pub extensions: Vec<RuntimeExtension>,
}

impl Default for RuntimeResources {
    fn default() -> (r: Self)
        ensures
            r.commands@.len() == 0,
            r.context_files@.len() == 0,
            r.extensions@.len() == 0,
    {
        RuntimeResources { commands: Vec::new(), context_files: Vec::new(), extensions: Vec::new() }
    }
}

/// One way of signing in.
#[derive(Clone, Debug)]
pub struct AuthChoice {
    pub id: String,
    pub label: String,
}

/// A file version that can be restored.
#[derive(Clone, Debug)]
pub struct RewindCheckpoint {
    pub id: String,
    pub path: String,
    pub timestamp: String,
    pub tool: String,
}

/// The backend's settings.
#[derive(Clone, Debug)]
pub struct RuntimeSettings {
    pub steering_mode: String,
    pub follow_up_mode: String,
    pub auto_compaction: bool,
    pub default_project_trust: String,
    pub enabled_models: Vec<String>,
    pub project_trusted: bool,
    pub compaction_model: Option<String>,
    pub subagent_model: Option<String>,
}

impl Default for RuntimeSettings {
    fn default() -> (r: Self)
        ensures
            r.steering_mode@ == "one-at-a-time"@,
            r.follow_up_mode@ == "one-at-a-time"@,
            r.auto_compaction,
            r.default_project_trust@ == "ask"@,
            r.enabled_models@.len() == 0,
            !r.project_trusted,
            r.compaction_model is None,
            r.subagent_model is None,
    {
        RuntimeSettings {
            steering_mode: "one-at-a-time".to_owned(),
            follow_up_mode: "one-at-a-time".to_owned(),
            auto_compaction: true,
            default_project_trust: "ask".to_owned(),
            enabled_models: Vec::new(),
            project_trusted: false,
            compaction_model: None,
            subagent_model: None,
        }
    }
}

/// A subagent task as it is shown and sent.
#[derive(Clone, Debug)]
pub struct SubagentTask {
    pub task_id: String,
    pub parent_session_id: String,
    pub child_session_id: Option<String>,
    pub child_session_path: Option<String>,
    pub description: String,
    pub subagent_type: String,
    pub capability_mode: String,
    pub isolation: String,
    pub background: bool,
    pub status: String,
    pub activity: String,
    pub started_at_ms: u64,
    pub completed_at_ms: Option<u64>,
    pub duration_ms: u64,
    pub output: Option<String>,
    pub error: Option<String>,
    pub failure_kind: Option<String>,
    pub model: Option<String>,
    pub thinking_level: Option<String>,
    pub worktree_path: Option<String>,
    pub cwd: Option<String>,
    pub workflow_run_id: Option<String>,
}

/// One step of a workflow run as it is shown and sent.
#[derive(Clone, Debug)]
pub struct WorkflowStepSnapshot {
    pub id: String,
    pub kind: String,
    pub status: String,
    pub role: Option<String>,
    pub model: Option<String>,
    pub task_ids: Vec<String>,
    pub artifact_ids: Vec<String>,
    pub error: Option<String>,
    pub attempt_count: usize,
}

/// A workflow run as it is shown and sent.
#[derive(Clone, Debug)]
pub struct WorkflowRunSnapshot {
    pub run_id: String,
    pub name: String,
    pub description: Option<String>,
    pub status: String,
    pub current_step: Option<String>,
    pub completed_steps: usize,
    pub total_steps: usize,
    pub artifact_ids: Vec<String>,
    pub steps: Vec<WorkflowStepSnapshot>,
    pub created_at_ms: u64,
    pub updated_at_ms: u64,
    pub error: Option<String>,
}

/// What a workflow step left behind.
#[derive(Clone, Debug)]
pub struct WorkflowArtifactSnapshot {
    pub run_id: String,
    pub artifact_id: String,
    pub step_id: String,
    pub summary: String,
    pub producer_role: String,
    pub producer_model: Option<String>,
    pub content: String,
    pub truncated: bool,
}

/// A workflow that can be started.
#[derive(Clone, Debug)]
pub struct WorkflowCatalogEntry {
    pub name: String,
    pub description: Option<String>,
    pub source: String,
    pub valid: bool,
    pub error: Option<String>,
}

/// One step of a workflow before it runs.
#[derive(Clone, Debug)]
pub struct WorkflowPreviewStep {
    pub id: String,
    pub kind: String,
    pub description: Option<String>,
    pub role: Option<String>,
    pub model: Option<String>,
    pub thinking: Option<String>,
    pub capability: Option<String>,
    pub reports: Option<String>,
}

/// A workflow before it runs.
#[derive(Clone, Debug)]
pub struct WorkflowPreview {
    pub name: String,
    pub version: u64,
    pub description: Option<String>,
    pub definition_hash: String,
    pub resolved_at_ms: u64,
    pub steps: Vec<WorkflowPreviewStep>,
    pub readiness: String,
}

/// The state of a client update.
#[derive(Clone, Debug)]
pub enum AppUpdateStatus {
    Available { version: String, size_bytes: u64 },
    Downloading { version: String, downloaded_bytes: u64, total_bytes: u64 },
    Ready { version: String },
}

/// What a backend session reports.
#[derive(Clone, Debug)]
pub enum AgentEvent {
    SessionReset,
    UserMessage { text: String },
    ModelChanged { id: String, display_name: String },
    SessionInfo { summary: String },
    PromptPrefill { text: String },
    ThinkingChanged { level: String },
    QueueChanged { steering: Vec<String>, follow_up: Vec<String> },
    ResourcesChanged { resources: RuntimeResources },
    OauthRequest {
        id: String,
        kind: String,
        message: Option<String>,
        url: Option<String>,
        user_code: Option<String>,
        verification_uri: Option<String>,
        interval_seconds: Option<u64>,
        expires_in_seconds: Option<u64>,
        options: Option<Vec<AuthChoice>>,
    },
    OauthComplete { provider: String },
    RewindList { checkpoints: Vec<RewindCheckpoint> },
    SessionTree { entries: Vec<SessionTreeEntry>, user_only: bool },
    TextDelta { text: String },
    ReasoningDelta { text: String },
    ToolCallStart { id: String, name: String, args: String },
    ToolCallUpdate { id: String, partial_args: String },
    ToolCallResult { id: String, result: ToolResult, is_error: bool, duration_ms: Option<u64> },
    PlanUpdate { entries: Vec<PlanEntry> },
    PermissionRequest { id: String, tool: String, args: String, reason: String },
    TurnComplete { usage: Usage, stop_reason: String },
    Error { kind: AgentErrorKind, message: String },
    Compaction {
        phase: CompactionPhase,
        reason: Option<String>,
        summary: Option<String>,
        tokens_before: Option<u64>,
        tokens_after: Option<u64>,
        error: Option<String>,
    },
    CompactionIndicator { reason: String, tokens_before: Option<u64> },
    RuntimeState { idle: bool },
    SubagentUpdate { task: Box<SubagentTask> },
    SubagentTranscript { task_id: String, event: String },
    WorkflowUpdate { workflow: Box<WorkflowRunSnapshot> },
    WorkflowArtifact { artifact: Box<WorkflowArtifactSnapshot> },
    WorkflowCatalog { workflows: Vec<WorkflowCatalogEntry> },
    WorkflowPreview { preview: Box<WorkflowPreview> },
    RuntimeSessions { sessions: Vec<RuntimeSessionInfo> },
    SessionsChanged { sessions: Vec<SessionInfo> },
    ModelsChanged { models: Vec<ModelInfo> },
    HostCall { id: String, name: String, args: String },
}

} // verus!
