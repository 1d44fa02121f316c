//! Subagent tasks: requests, their state machine and the owner boundary.

use vstd::prelude::*;

use crate::harness::{
    AgentEvent, SessionConfig, SessionId, SessionInfo, SessionPersistence, SubagentTask, ToolResult,
};
use crate::text;

verus! {

broadcast use vstd::string::group_string_axioms;

/// What a task is started with.
#[derive(Clone, Debug)]
pub struct TaskRequest {
    pub owner: SessionId,
    pub owner_path: String,
    pub cwd: Option<String>,
    pub prompt: String,
    pub description: String,
    pub model: Option<String>,
    pub thinking_level: Option<String>,
    pub tools: Option<Vec<String>>,
    pub subagent_type: String,
    pub capability_mode: String,
    pub background: bool,
    pub workflow_run_id: Option<String>,
    pub isolation: String,
    pub resume_path: Option<String>,
}

/// Where a task stands.
#[derive(Clone, Debug)]
pub enum TaskStatus {
    Launching,
    Running { child: SessionId },
    Completed { child: SessionId, output: String },
    Failed { error: String },
    Cancelled,
    Interrupted { error: String },
}

impl TaskStatus {
    /// Whether the task has ended.
    pub open spec fn ended(self) -> bool {
        self is Completed || self is Failed || self is Cancelled || self is Interrupted
    }

    /// Whether the task has ended.
    pub fn is_terminal(&self) -> (r: bool)
        ensures
            r == self.ended(),
    {
        matches!(
            self,
            TaskStatus::Completed { .. }
                | TaskStatus::Failed { .. }
                | TaskStatus::Cancelled
                | TaskStatus::Interrupted { .. }
        )
    }

    /// A copy of the status.
    pub fn copy(&self) -> (r: TaskStatus)
        ensures
            r == *self,
    {
        match self {
            TaskStatus::Launching => TaskStatus::Launching,
            TaskStatus::Running { child } => TaskStatus::Running { child: child.copy() },
            TaskStatus::Completed { child, output } => TaskStatus::Completed {
                child: child.copy(),
                output: output.clone(),
            },
            TaskStatus::Failed { error } => TaskStatus::Failed { error: error.clone() },
            TaskStatus::Cancelled => TaskStatus::Cancelled,
            TaskStatus::Interrupted { error } => TaskStatus::Interrupted { error: error.clone() },
        }
    }

    /// The status as it is sent.
    pub open spec fn wire_name(self) -> Seq<char> {
        match self {
            TaskStatus::Launching => "running"@,
            TaskStatus::Running { .. } => "running"@,
            TaskStatus::Completed { .. } => "completed"@,
            TaskStatus::Failed { .. } => "failed"@,
            TaskStatus::Cancelled => "cancelled"@,
            TaskStatus::Interrupted { .. } => "interrupted"@,
        }
    }

    /// What the task is shown to be doing.
    pub open spec fn activity_name(self) -> Seq<char> {
        match self {
            TaskStatus::Launching => "Starting"@,
            TaskStatus::Running { .. } => "Running"@,
            TaskStatus::Completed { .. } => "Completed"@,
            TaskStatus::Failed { .. } => "Failed"@,
            TaskStatus::Cancelled => "Cancelled"@,
            TaskStatus::Interrupted { .. } => "Interrupted"@,
        }
    }

    /// The child session of a running or completed task.
    pub open spec fn child_id(self) -> Option<String> {
        match self {
            TaskStatus::Running { child } => Some(child.0),
            TaskStatus::Completed { child, .. } => Some(child.0),
            _ => None,
        }
    }

    /// The output of a completed task.
    pub open spec fn final_output(self) -> Option<String> {
        match self {
            TaskStatus::Completed { output, .. } => Some(output),
            _ => None,
        }
    }

    /// The error of a failed or interrupted task.
    pub open spec fn final_error(self) -> Option<String> {
        match self {
            TaskStatus::Failed { error } => Some(error),
            TaskStatus::Interrupted { error } => Some(error),
            _ => None,
        }
    }
}

/// A task as it is stored.
#[derive(Clone, Debug)]
pub struct TaskSnapshot {
    pub id: String,
    pub owner: SessionId,
    pub owner_path: String,
    pub description: String,
    pub subagent_type: String,
    pub capability_mode: String,
    pub background: bool,
    pub workflow_run_id: Option<String>,
    pub isolation: String,
    pub child_session_path: Option<String>,
    pub cwd: Option<String>,
    pub worktree_path: Option<String>,
    pub status: TaskStatus,
    pub started_at_ms: u64,
}

/// Whether `r` is a task as it is shown and sent at the time `now`.
pub open spec fn shows_task(task: TaskSnapshot, now: u64, r: SubagentTask) -> bool {
    &&& r.task_id == task.id
    &&& r.parent_session_id == task.owner.0
    &&& r.child_session_id == task.status.child_id()
    &&& r.child_session_path == task.child_session_path
    &&& r.description == task.description
    &&& r.subagent_type == task.subagent_type
    &&& r.capability_mode == task.capability_mode
    &&& r.isolation == task.isolation
    &&& r.background == task.background
    &&& r.status@ == task.status.wire_name()
    &&& r.activity@ == task.status.activity_name()
    &&& r.started_at_ms == task.started_at_ms
    &&& r.completed_at_ms == (if task.status.ended() { Some(now) } else { None::<u64> })
    &&& r.duration_ms == (if now >= task.started_at_ms { now - task.started_at_ms } else { 0 })
    &&& r.output == task.status.final_output()
    &&& r.error == task.status.final_error()
    &&& r.failure_kind is None
    &&& r.model is None
    &&& r.thinking_level is None
    &&& r.worktree_path == task.worktree_path
    &&& r.cwd == task.cwd
    &&& r.workflow_run_id == task.workflow_run_id
}

impl TaskSnapshot {
    /// A copy of the snapshot.
    pub fn copy(&self) -> (r: TaskSnapshot)
        ensures
            r == *self,
    {
        TaskSnapshot {
            id: self.id.clone(),
            owner: self.owner.copy(),
            owner_path: self.owner_path.clone(),
            description: self.description.clone(),
            subagent_type: self.subagent_type.clone(),
            capability_mode: self.capability_mode.clone(),
            background: self.background,
            workflow_run_id: text::copy_option(&self.workflow_run_id),
            isolation: self.isolation.clone(),
            child_session_path: text::copy_option(&self.child_session_path),
            cwd: text::copy_option(&self.cwd),
            worktree_path: text::copy_option(&self.worktree_path),
            status: self.status.copy(),
            started_at_ms: self.started_at_ms,
        }
    }

    /// The task as it is shown and sent at the time `now`.
    pub fn as_agent_task(&self, now: u64) -> (r: SubagentTask)
        ensures
            shows_task(*self, now, r),
    {
        let (status, activity, child_session_id, output, error): (
            &str,
            &str,
            Option<String>,
            Option<String>,
            Option<String>,
        ) = match &self.status {
            TaskStatus::Launching => ("running", "Starting", None, None, None),
            TaskStatus::Running { child } => (
                "running",
                "Running",
                Some(child.0.clone()),
                None,
                None,
            ),
            TaskStatus::Completed { child, output } => (
                "completed",
                "Completed",
                Some(child.0.clone()),
                Some(output.clone()),
                None,
            ),
            TaskStatus::Failed { error } => ("failed", "Failed", None, None, Some(error.clone())),
            TaskStatus::Cancelled => ("cancelled", "Cancelled", None, None, None),
            TaskStatus::Interrupted { error } => (
                "interrupted",
                "Interrupted",
                None,
                None,
                Some(error.clone()),
            ),
        };
        SubagentTask {
            task_id: self.id.clone(),
            parent_session_id: self.owner.0.clone(),
            child_session_id,
            child_session_path: text::copy_option(&self.child_session_path),
            description: self.description.clone(),
            subagent_type: self.subagent_type.clone(),
            capability_mode: self.capability_mode.clone(),
            isolation: self.isolation.clone(),
            background: self.background,
            status: status.to_owned(),
            activity: activity.to_owned(),
            started_at_ms: self.started_at_ms,
            completed_at_ms: if self.status.is_terminal() { Some(now) } else { None },
            duration_ms: now.saturating_sub(self.started_at_ms),
            output,
            error,
            failure_kind: None,
            model: None,
            thinking_level: None,
            worktree_path: text::copy_option(&self.worktree_path),
            cwd: text::copy_option(&self.cwd),
            workflow_run_id: text::copy_option(&self.workflow_run_id),
        }
    }

    /// What a tool call about the task answers: its output, else its error, else
    /// `None`, for which the whole task is sent.
    pub fn tool_result(&self) -> (r: Option<String>)
        ensures
            r == (match self.status.final_output() {
                Some(output) => Some(output),
                None => self.status.final_error(),
            }),
    {
        match &self.status {
            TaskStatus::Completed { output, .. } => Some(output.clone()),
            TaskStatus::Failed { error } => Some(error.clone()),
            TaskStatus::Interrupted { error } => Some(error.clone()),
            _ => None,
        }
    }
}

/// What the task coordinator reports.
#[derive(Clone, Debug)]
pub enum TaskNotice {
    Update(TaskSnapshot),
    Event { owner: SessionId, owner_path: String, event: AgentEvent },
}

/// Why a task call is refused.
#[derive(Clone, Debug)]
pub enum TaskError {
    Unknown { id: String },
    Foreign { id: String },
    Isolation { mode: String },
    NotCompleted,
    ResumedWorktree,
    Capability { mode: String },
    WaitCount,
    WaitMode { mode: String },
    MissingDirectory,
    UnknownCall { name: String },
}

impl TaskError {
    /// The refusal in words.
    pub open spec fn text(self) -> Seq<char> {
        match self {
            TaskError::Unknown { id } => "unknown task: "@ + id@,
            TaskError::Foreign { id } => "task "@ + id@ + " belongs to another session"@,
            TaskError::Isolation { mode } => "unknown task isolation: "@ + mode@,
            TaskError::NotCompleted => "only a completed task can be resumed"@,
            TaskError::ResumedWorktree =>
                "a resumed task keeps its original working directory and isolation"@,
            TaskError::Capability { mode } => "unknown capability mode: "@ + mode@,
            TaskError::WaitCount => "task_ids must contain between 1 and 20 IDs"@,
            TaskError::WaitMode { mode } => "unknown task wait mode: "@ + mode@,
            TaskError::MissingDirectory => "worktree isolation requires a working directory"@,
            TaskError::UnknownCall { name } => "unknown Rust host call: "@ + name@,
        }
    }

    /// The refusal in words.
    pub fn message(&self) -> (r: String)
        ensures
            r@ == self.text(),
    {
        match self {
            TaskError::Unknown { id } => text::joined("unknown task: ", id.as_str()),
            TaskError::Foreign { id } => text::joined3(
                "task ",
                id.as_str(),
                " belongs to another session",
            ),
            TaskError::Isolation { mode } => text::joined("unknown task isolation: ", mode.as_str()),
            TaskError::NotCompleted => "only a completed task can be resumed".to_owned(),
            TaskError::ResumedWorktree =>
                "a resumed task keeps its original working directory and isolation".to_owned(),
            TaskError::Capability { mode } => text::joined(
                "unknown capability mode: ",
                mode.as_str(),
            ),
            TaskError::WaitCount => "task_ids must contain between 1 and 20 IDs".to_owned(),
            TaskError::WaitMode { mode } => text::joined("unknown task wait mode: ", mode.as_str()),
            TaskError::MissingDirectory =>
                "worktree isolation requires a working directory".to_owned(),
            TaskError::UnknownCall { name } => text::joined(
                "unknown Rust host call: ",
                name.as_str(),
            ),
        }
    }
}

/// The tools that only read.
pub open spec fn read_tools() -> Seq<Seq<char>> {
    seq!["read"@, "grep"@, "find"@, "ls"@, "web_fetch"@, "web_search"@]
}

/// The tools of a capability mode: `Some(None)` allows every tool, `None` means
/// that there is no such mode.
pub open spec fn tools_of(mode: Seq<char>) -> Option<Option<Seq<Seq<char>>>> {
    if mode == "read-only"@ {
        Some(Some(read_tools()))
    } else if mode == "read-write"@ {
        Some(Some(read_tools().push("write"@).push("edit"@)))
    } else if mode == "execute"@ {
        Some(Some(read_tools().push("bash"@)))
    } else if mode == "all"@ {
        Some(None)
    } else {
        None
    }
}

fn read_tool_list() -> (r: Vec<String>)
    ensures
        text::views(r@) == read_tools(),
{
    let mut out: Vec<String> = Vec::new();
    out.push("read".to_owned());
    out.push("grep".to_owned());
    out.push("find".to_owned());
    out.push("ls".to_owned());
    out.push("web_fetch".to_owned());
    out.push("web_search".to_owned());
    assert(text::views(out@) =~= read_tools());
    out
}

/// The tools of a capability mode; every tool where none are listed.
pub fn capability_tools(mode: &str) -> (r: Result<Option<Vec<String>>, TaskError>)
    ensures
        match r {
            Ok(Some(tools)) => tools_of(mode@) == Some(Some(text::views(tools@))),
            Ok(None) => tools_of(mode@) == Some(None::<Seq<Seq<char>>>),
            Err(error) => tools_of(mode@) is None && (error matches TaskError::Capability { mode: m }
                && m@ == mode@),
        },
{
    if text::same_text(mode, "read-only") {
        Ok(Some(read_tool_list()))
    } else if text::same_text(mode, "read-write") {
        let mut out = read_tool_list();
        let ghost read = out@;
        out.push("write".to_owned());
        out.push("edit".to_owned());
        assert(text::views(out@) =~= text::views(read).push("write"@).push("edit"@));
        Ok(Some(out))
    } else if text::same_text(mode, "execute") {
        let mut out = read_tool_list();
        let ghost read = out@;
        out.push("bash".to_owned());
        assert(text::views(out@) =~= text::views(read).push("bash"@));
        Ok(Some(out))
    } else if text::same_text(mode, "all") {
        Ok(None)
    } else {
        Err(TaskError::Capability { mode: mode.to_owned() })
    }
}

/// A stored task and whether its cancellation was asked for.
#[derive(Clone, Debug)]
pub struct TaskRecord {
    pub snapshot: TaskSnapshot,
    pub cancelled: bool,
}

/// Whether the task at `i` has the identifier `id`.
pub open spec fn has_task(tasks: Seq<TaskRecord>, id: Seq<char>, i: int) -> bool {
    0 <= i < tasks.len() && tasks[i].snapshot.id@ == id
}

/// Where the task `id` is stored, if it is.
pub open spec fn lookup(tasks: Seq<TaskRecord>, id: Seq<char>) -> Option<int> {
    if exists|i: int| has_task(tasks, id, i) {
        Some(choose|i: int| has_task(tasks, id, i))
    } else {
        None
    }
}

/// No identifier occurs twice.
pub open spec fn distinct(tasks: Seq<TaskRecord>) -> bool {
    forall|i: int, j: int|
        0 <= i < j < tasks.len() ==> (#[trigger] tasks[i]).snapshot.id@ != (
        #[trigger] tasks[j]).snapshot.id@
}

/// Tasks keep their place, their identifier and, once ended, their status.
pub open spec fn keeps_ended(before: Seq<TaskRecord>, after: Seq<TaskRecord>) -> bool {
    &&& before.len() <= after.len()
    &&& forall|i: int|
        0 <= i < before.len() ==> {
            &&& (#[trigger] after[i]).snapshot.id@ == before[i].snapshot.id@
            &&& before[i].snapshot.status.ended() ==> after[i].snapshot.status
                == before[i].snapshot.status
        }
}

/// The record after a cancellation.
pub open spec fn cancelled_record(record: TaskRecord) -> TaskRecord {
    if record.snapshot.status.ended() {
        record
    } else {
        TaskRecord {
            snapshot: TaskSnapshot { status: TaskStatus::Cancelled, ..record.snapshot },
            cancelled: true,
        }
    }
}

/// The record after all tasks of `owner` were cancelled.
pub open spec fn cancelled_for(record: TaskRecord, owner: Seq<char>) -> TaskRecord {
    if record.snapshot.owner@ == owner {
        cancelled_record(record)
    } else {
        record
    }
}

/// The child sessions of the running tasks of `owner`.
pub open spec fn running_children(tasks: Seq<TaskRecord>, owner: Seq<char>) -> Seq<SessionId>
    decreases tasks.len(),
{
    if tasks.len() == 0 {
        Seq::empty()
    } else {
        let rest = running_children(tasks.drop_last(), owner);
        match tasks.last().snapshot.status {
            TaskStatus::Running { child } => if tasks.last().snapshot.owner@ == owner {
                rest.push(child)
            } else {
                rest
            },
            _ => rest,
        }
    }
}

/// What a cancellation did.
#[derive(Clone, Debug)]
pub struct CancelOutcome {
    /// Whether the task was still live.
    pub changed: bool,
    /// The child session to stop.
    pub child: Option<SessionId>,
    pub snapshot: TaskSnapshot,
}

/// What restoring a stored task asks for.
#[derive(Clone, Debug)]
pub struct RestoreOutcome {
    /// The snapshot to write back.
    pub persist: Option<TaskSnapshot>,
    /// The snapshot to announce.
    pub announce: Option<TaskSnapshot>,
}

/// The arguments of a request to start a task.
#[derive(Clone, Debug)]
pub struct SpawnArgs {
    pub prompt: String,
    pub description: String,
    pub subagent_type: Option<String>,
    pub background: Option<bool>,
    pub capability_mode: Option<String>,
    pub isolation: Option<String>,
    pub resume_from: Option<String>,
    pub cwd: Option<String>,
    pub parent_cwd: Option<String>,
    pub parent_session_path: Option<String>,
    pub model: Option<String>,
    pub thinking_level: Option<String>,
}

/// The message of work that was under way when the client stopped.
pub open spec fn stopped_during(what: Seq<char>) -> Seq<char> {
    "Torii stopped while this "@ + what + " was active"@
}

/// The message of work that was under way when the client stopped.
pub fn stopped_message(what: &str) -> (r: String)
    ensures
        r@ == stopped_during(what@),
{
    text::joined3("Torii stopped while this ", what, " was active")
}

/// A stored snapshot as it is taken over by `owner`: a task that was live when it
/// was written is interrupted.
pub open spec fn restored(snapshot: TaskSnapshot, owner: SessionId, taken: TaskSnapshot) -> bool {
    &&& taken == (TaskSnapshot { owner, status: taken.status, ..snapshot })
    &&& snapshot.status.ended() ==> taken.status == snapshot.status
    &&& !snapshot.status.ended() ==> (taken.status matches TaskStatus::Interrupted { error }
        && error@ == stopped_during("task"@))
}

/// The optional text `a`, else `b`.
pub open spec fn or_else(a: Option<String>, b: Option<String>) -> Option<String> {
    match a {
        Some(s) => Some(s),
        None => b,
    }
}

/// The text in `a`, else `b`.
pub open spec fn or_text(a: Option<String>, b: Seq<char>) -> Seq<char> {
    match a {
        Some(s) => s@,
        None => b,
    }
}

/// Whether an optional text is `s`.
pub open spec fn text_is(o: Option<String>, s: Seq<char>) -> bool {
    o matches Some(x) && x@ == s
}

fn pick(a: Option<String>, b: Option<String>) -> (r: Option<String>)
    ensures
        r == or_else(a, b),
{
    match a {
        Some(s) => Some(s),
        None => b,
    }
}

fn pick_text(a: &Option<String>, b: &str) -> (r: String)
    ensures
        r@ == or_text(*a, b@),
{
    match a {
        Some(s) => s.clone(),
        None => b.to_owned(),
    }
}

/// All tasks of the process.
#[derive(Clone, Debug)]
pub struct TaskCoordinator {
    pub tasks: Vec<TaskRecord>,
}

/// The identifiers of the tasks of a session that have not ended, in their order.
pub open spec fn live_ids(tasks: Seq<TaskRecord>, owner: Seq<char>) -> Seq<String>
    decreases tasks.len(),
{
    if tasks.len() == 0 {
        Seq::empty()
    } else {
        let last = tasks.last().snapshot;
        if last.owner@ == owner && !last.status.ended() {
            live_ids(tasks.drop_last(), owner).push(last.id)
        } else {
            live_ids(tasks.drop_last(), owner)
        }
    }
}

impl TaskCoordinator {
    /// No identifier occurs twice.
    pub open spec fn wf(&self) -> bool {
        distinct(self.tasks@)
    }

    /// A coordinator without tasks.
    pub fn new() -> (r: TaskCoordinator)
        ensures
            r.tasks@.len() == 0,
            r.wf(),
    {
        TaskCoordinator { tasks: Vec::new() }
    }

    /// Where the task `id` is stored.
    fn find(&self, id: &str) -> (r: Option<usize>)
        requires
            self.wf(),
        ensures
            match r {
                Some(i) => lookup(self.tasks@, id@) == Some(i as int) && has_task(
                    self.tasks@,
                    id@,
                    i as int,
                ),
                None => lookup(self.tasks@, id@) is None,
            },
    {
        let mut i: usize = 0;
        while i < self.tasks.len()
            invariant
                self.wf(),
                i <= self.tasks.len(),
                forall|j: int| 0 <= j < i ==> !has_task(self.tasks@, id@, j),
            decreases self.tasks.len() - i,
        {
            if text::same_text(self.tasks[i].snapshot.id.as_str(), id) {
                assert(has_task(self.tasks@, id@, i as int));
                return Some(i);
            }
            i += 1;
        }
        None
    }

    /// The task `id`, for its owner only.
    pub fn snapshot(&self, owner: &SessionId, id: &str) -> (r: Result<TaskSnapshot, TaskError>)
        requires
            self.wf(),
        ensures
            match lookup(self.tasks@, id@) {
                None => r matches Err(TaskError::Unknown { id: x }) && x@ == id@,
                Some(i) => if self.tasks@[i].snapshot.owner@ != owner@ {
                    r matches Err(TaskError::Foreign { id: x }) && x@ == id@
                } else {
                    r == Ok::<TaskSnapshot, TaskError>(self.tasks@[i].snapshot)
                },
            },
    {
        match self.find(id) {
            None => Err(TaskError::Unknown { id: id.to_owned() }),
            Some(i) => if !self.tasks[i].snapshot.owner.same(owner) {
                Err(TaskError::Foreign { id: id.to_owned() })
            } else {
                Ok(self.tasks[i].snapshot.copy())
            },
        }
    }

    /// Stores a record under its identifier, in place of an earlier one.
    fn insert(&mut self, record: TaskRecord)
        requires
            old(self).wf(),
        ensures
            final(self).wf(),
            final(self).tasks@ == (match lookup(old(self).tasks@, record.snapshot.id@) {
                Some(i) => old(self).tasks@.update(i, record),
                None => old(self).tasks@.push(record),
            }),
    {
        match self.find(record.snapshot.id.as_str()) {
            Some(i) => {
                self.tasks.set(i, record);
            },
            None => {
                assert forall|i: int| 0 <= i < self.tasks@.len() implies (
                #[trigger] self.tasks@[i]).snapshot.id@ != record.snapshot.id@ by {
                    assert(!has_task(self.tasks@, record.snapshot.id@, i));
                }
                self.tasks.push(record);
            },
        }
    }

    /// Starts a task under the identifier `id` at the time `now`.
    pub fn spawn(&mut self, request: &TaskRequest, id: String, now: u64) -> (r: TaskSnapshot)
        requires
            old(self).wf(),
        ensures
            final(self).wf(),
            r.id == id,
            r.owner == request.owner,
            r.owner_path == request.owner_path,
            r.description == request.description,
            r.subagent_type == request.subagent_type,
            r.capability_mode == request.capability_mode,
            r.background == request.background,
            r.workflow_run_id == request.workflow_run_id,
            r.isolation == request.isolation,
            r.child_session_path is None,
            r.cwd == request.cwd,
            r.worktree_path is None,
            r.status is Launching,
            r.started_at_ms == now,
            ({
                let record = TaskRecord { snapshot: r, cancelled: false };
                final(self).tasks@ == (match lookup(old(self).tasks@, id@) {
                    Some(i) => old(self).tasks@.update(i, record),
                    None => old(self).tasks@.push(record),
                })
            }),
    {
        let snapshot = TaskSnapshot {
            id,
            owner: request.owner.copy(),
            owner_path: request.owner_path.clone(),
            description: request.description.clone(),
            subagent_type: request.subagent_type.clone(),
            capability_mode: request.capability_mode.clone(),
            background: request.background,
            workflow_run_id: text::copy_option(&request.workflow_run_id),
            isolation: request.isolation.clone(),
            child_session_path: None,
            cwd: text::copy_option(&request.cwd),
            worktree_path: None,
            status: TaskStatus::Launching,
            started_at_ms: now,
        };
        self.insert(TaskRecord { snapshot: snapshot.copy(), cancelled: false });
        snapshot
    }

    /// Takes over a stored task that belongs to the session stored at `owner_path`.
    pub fn restore(&mut self, stored: TaskSnapshot, owner: &SessionId, owner_path: &str) -> (r:
        RestoreOutcome)
        requires
            old(self).wf(),
        ensures
            final(self).wf(),
            stored.owner_path@ != owner_path@ ==> *final(self) == *old(self) && r.persist is None
                && r.announce is None,
            stored.owner_path@ == owner_path@ ==> {
                &&& r.persist is Some <==> !stored.status.ended()
                &&& r.persist matches Some(p) ==> restored(stored, *owner, p)
                &&& match lookup(old(self).tasks@, stored.id@) {
                    Some(i) => {
                        &&& r.announce is None
                        &&& final(self).tasks@ == old(self).tasks@.update(
                            i,
                            TaskRecord {
                                snapshot: TaskSnapshot {
                                    owner: *owner,
                                    ..old(self).tasks@[i].snapshot
                                },
                                ..old(self).tasks@[i]
                            },
                        )
                    },
                    None => {
                        &&& r.announce is Some
                        &&& restored(stored, *owner, r.announce->0)
                        &&& final(self).tasks@ == old(self).tasks@.push(
                            TaskRecord { snapshot: r.announce->0, cancelled: false },
                        )
                    },
                }
            },
    {
        if !text::same_text(stored.owner_path.as_str(), owner_path) {
            return RestoreOutcome { persist: None, announce: None };
        }
        let live: bool = !stored.status.is_terminal();
        let mut snapshot = stored;
        snapshot.owner = owner.copy();
        if live {
            snapshot.status = TaskStatus::Interrupted { error: stopped_message("task") };
        }
        let persist: Option<TaskSnapshot> = if live { Some(snapshot.copy()) } else { None };
        match self.find(snapshot.id.as_str()) {
            Some(i) => {
                let mut record = TaskRecord {
                    snapshot: self.tasks[i].snapshot.copy(),
                    cancelled: self.tasks[i].cancelled,
                };
                record.snapshot.owner = owner.copy();
                self.tasks.set(i, record);
                RestoreOutcome { persist, announce: None }
            },
            None => {
                let announce = Some(snapshot.copy());
                self.insert(TaskRecord { snapshot, cancelled: false });
                RestoreOutcome { persist, announce }
            },
        }
    }

    /// Cancels the live task `id` for its owner.
    pub fn cancel(&mut self, owner: &SessionId, id: &str) -> (r: Result<CancelOutcome, TaskError>)
        requires
            old(self).wf(),
        ensures
            final(self).wf(),
            keeps_ended(old(self).tasks@, final(self).tasks@),
            match lookup(old(self).tasks@, id@) {
                None => (r matches Err(TaskError::Unknown { id: x }) && x@ == id@) && *final(self)
                    == *old(self),
                Some(i) => {
                    let before = old(self).tasks@[i];
                    if before.snapshot.owner@ != owner@ {
                        (r matches Err(TaskError::Foreign { id: x }) && x@ == id@) && *final(self)
                            == *old(self)
                    } else {
                        &&& final(self).tasks@ == old(self).tasks@.update(
                            i,
                            cancelled_record(before),
                        )
                        &&& r matches Ok(outcome)
                        &&& outcome.changed == !before.snapshot.status.ended()
                        &&& outcome.snapshot == cancelled_record(before).snapshot
                        &&& outcome.child == (match before.snapshot.status {
                            TaskStatus::Running { child } => Some(child),
                            _ => None,
                        })
                    }
                },
            },
    {
        match self.find(id) {
            None => Err(TaskError::Unknown { id: id.to_owned() }),
            Some(i) => {
                if !self.tasks[i].snapshot.owner.same(owner) {
                    return Err(TaskError::Foreign { id: id.to_owned() });
                }
                let mut snapshot = self.tasks[i].snapshot.copy();
                if snapshot.status.is_terminal() {
                    assert(self.tasks@ =~= self.tasks@.update(i as int, self.tasks@[i as int]));
                    return Ok(CancelOutcome { changed: false, child: None, snapshot });
                }
                let child: Option<SessionId> = match &snapshot.status {
                    TaskStatus::Running { child } => Some(child.copy()),
                    _ => None,
                };
                snapshot.status = TaskStatus::Cancelled;
                self.tasks.set(i, TaskRecord { snapshot: snapshot.copy(), cancelled: true });
                Ok(CancelOutcome { changed: true, child, snapshot })
            },
        }
    }

    /// The tasks of a session that have not ended, in their order.
    pub fn live_tasks(&self, owner: &SessionId) -> (r: Vec<String>)
        ensures
            r@ == live_ids(self.tasks@, owner@),
    {
        let mut out: Vec<String> = Vec::new();
        let mut i: usize = 0;
        assert(self.tasks@.take(0) =~= Seq::<TaskRecord>::empty());
        while i < self.tasks.len()
            invariant
                i <= self.tasks.len(),
                out@ == live_ids(self.tasks@.take(i as int), owner@),
            decreases self.tasks.len() - i,
        {
            proof {
                assert(self.tasks@.take(i + 1).drop_last() =~= self.tasks@.take(i as int));
                assert(self.tasks@.take(i + 1).last() == self.tasks@[i as int]);
            }
            let snapshot: &TaskSnapshot = &self.tasks[i].snapshot;
            if snapshot.owner.same(owner) && !snapshot.status.is_terminal() {
                out.push(snapshot.id.clone());
            }
            i += 1;
        }
        assert(self.tasks@.take(self.tasks@.len() as int) =~= self.tasks@);
        out
    }

    /// Cancels every live task of `owner`; returns the child sessions to stop.
    pub fn cancel_owner(&mut self, owner: &SessionId) -> (r: Vec<SessionId>)
        requires
            old(self).wf(),
        ensures
            final(self).wf(),
            keeps_ended(old(self).tasks@, final(self).tasks@),
            final(self).tasks@ == old(self).tasks@.map_values(
                |t: TaskRecord| cancelled_for(t, owner@),
            ),
            r@ == running_children(old(self).tasks@, owner@),
    {
        let mut children: Vec<SessionId> = Vec::new();
        let mut i: usize = 0;
        while i < self.tasks.len()
            invariant
                i <= self.tasks.len(),
                self.tasks@.len() == old(self).tasks@.len(),
                forall|j: int|
                    0 <= j < i ==> #[trigger] self.tasks@[j] == cancelled_for(
                        old(self).tasks@[j],
                        owner@,
                    ),
                forall|j: int|
                    i <= j < self.tasks@.len() ==> #[trigger] self.tasks@[j]
                        == old(self).tasks@[j],
                children@ == running_children(old(self).tasks@.take(i as int), owner@),
            decreases self.tasks.len() - i,
        {
            let ghost part = old(self).tasks@.take(i + 1);
            assert(part.drop_last() =~= old(self).tasks@.take(i as int));
            assert(part.last() == old(self).tasks@[i as int]);
            if self.tasks[i].snapshot.owner.same(owner)
                && !self.tasks[i].snapshot.status.is_terminal() {
                match &self.tasks[i].snapshot.status {
                    TaskStatus::Running { child } => {
                        children.push(child.copy());
                    },
                    _ => {},
                }
                let mut snapshot = self.tasks[i].snapshot.copy();
                snapshot.status = TaskStatus::Cancelled;
                self.tasks.set(i, TaskRecord { snapshot, cancelled: true });
            }
            i += 1;
        }
        assert(old(self).tasks@.take(old(self).tasks@.len() as int) =~= old(self).tasks@);
        assert(self.tasks@ =~= old(self).tasks@.map_values(
            |t: TaskRecord| cancelled_for(t, owner@),
        ));
        children
    }

    /// Marks a launching task as running; returns the snapshot to store and announce.
    pub fn set_running(
        &mut self,
        id: &str,
        child: SessionId,
        child_session_path: Option<String>,
        cwd: Option<String>,
        worktree_path: Option<String>,
    ) -> (r: Option<TaskSnapshot>)
        requires
            old(self).wf(),
        ensures
            final(self).wf(),
            keeps_ended(old(self).tasks@, final(self).tasks@),
            match lookup(old(self).tasks@, id@) {
                None => r is None && *final(self) == *old(self),
                Some(i) => if old(self).tasks@[i].snapshot.status is Launching {
                    let snapshot = TaskSnapshot {
                        status: TaskStatus::Running { child },
                        child_session_path,
                        cwd,
                        worktree_path,
                        ..old(self).tasks@[i].snapshot
                    };
                    r == Some(snapshot) && final(self).tasks@ == old(self).tasks@.update(
                        i,
                        TaskRecord { snapshot, ..old(self).tasks@[i] },
                    )
                } else {
                    r is None && *final(self) == *old(self)
                },
            },
    {
        match self.find(id) {
            None => None,
            Some(i) => {
                match self.tasks[i].snapshot.status {
                    TaskStatus::Launching => {},
                    _ => {
                        return None;
                    },
                }
                let cancelled: bool = self.tasks[i].cancelled;
                let mut snapshot = self.tasks[i].snapshot.copy();
                snapshot.status = TaskStatus::Running { child };
                snapshot.child_session_path = child_session_path;
                snapshot.cwd = cwd;
                snapshot.worktree_path = worktree_path;
                self.tasks.set(i, TaskRecord { snapshot: snapshot.copy(), cancelled });
                Some(snapshot)
            },
        }
    }

    /// Gives a live task its final status; returns the snapshot to store and announce.
    pub fn finish_if_live(&mut self, id: &str, status: TaskStatus) -> (r: Option<TaskSnapshot>)
        requires
            old(self).wf(),
        ensures
            final(self).wf(),
            keeps_ended(old(self).tasks@, final(self).tasks@),
            match lookup(old(self).tasks@, id@) {
                None => r is None && *final(self) == *old(self),
                Some(i) => if old(self).tasks@[i].snapshot.status.ended() {
                    r is None && *final(self) == *old(self)
                } else {
                    let snapshot = TaskSnapshot { status, ..old(self).tasks@[i].snapshot };
                    r == Some(snapshot) && final(self).tasks@ == old(self).tasks@.update(
                        i,
                        TaskRecord { snapshot, ..old(self).tasks@[i] },
                    )
                },
            },
    {
        match self.find(id) {
            None => None,
            Some(i) => {
                if self.tasks[i].snapshot.status.is_terminal() {
                    return None;
                }
                let cancelled: bool = self.tasks[i].cancelled;
                let mut snapshot = self.tasks[i].snapshot.copy();
                snapshot.status = status;
                self.tasks.set(i, TaskRecord { snapshot: snapshot.copy(), cancelled });
                Some(snapshot)
            },
        }
    }

    /// Whether the task `id` is gone or its cancellation was asked for.
    pub fn cancelled(&self, id: &str) -> (r: bool)
        requires
            self.wf(),
        ensures
            r == (match lookup(self.tasks@, id@) {
                Some(i) => self.tasks@[i].cancelled,
                None => true,
            }),
    {
        match self.find(id) {
            Some(i) => self.tasks[i].cancelled,
            None => true,
        }
    }

    /// The request that a call to start a task stands for.
    pub fn spawn_request(&self, owner: &SessionId, owner_path: &str, args: SpawnArgs) -> (r: Result<
        TaskRequest,
        TaskError,
    >)
        requires
            self.wf(),
        ensures
            match spawn_check(self.tasks@, owner@, args) {
                SpawnCheck::Isolation => r matches Err(TaskError::Isolation { mode }) && mode@
                    == or_text(args.isolation, "none"@),
                SpawnCheck::Unknown => r matches Err(TaskError::Unknown { id }) && text_is(
                    args.resume_from,
                    id@,
                ),
                SpawnCheck::Foreign => r matches Err(TaskError::Foreign { id }) && text_is(
                    args.resume_from,
                    id@,
                ),
                SpawnCheck::NotCompleted => r matches Err(TaskError::NotCompleted),
                SpawnCheck::ResumedWorktree => r matches Err(TaskError::ResumedWorktree),
                SpawnCheck::Capability => r matches Err(TaskError::Capability { mode }) && mode@
                    == or_text(args.capability_mode, "all"@),
                SpawnCheck::Granted(source) => {
                    &&& r matches Ok(request)
                    &&& request_of(*owner, owner_path@, args, source, request)
                },
            },
    {
        let isolation: String = pick_text(&args.isolation, "none");
        let worktree: bool = text::same_text(isolation.as_str(), "worktree");
        if !worktree && !text::same_text(isolation.as_str(), "none") {
            return Err(TaskError::Isolation { mode: isolation });
        }
        let resumed: Option<TaskSnapshot> = match &args.resume_from {
            Some(id) => match self.snapshot(owner, id.as_str()) {
                Ok(source) => {
                    match source.status {
                        TaskStatus::Completed { .. } => {},
                        _ => {
                            return Err(TaskError::NotCompleted);
                        },
                    }
                    Some(source)
                },
                Err(error) => {
                    return Err(error);
                },
            },
            None => None,
        };
        if resumed.is_some() && worktree {
            return Err(TaskError::ResumedWorktree);
        }
        let capability: String = pick_text(&args.capability_mode, "all");
        let tools: Option<Vec<String>> = match capability_tools(capability.as_str()) {
            Ok(tools) => tools,
            Err(error) => {
                return Err(error);
            },
        };
        let source_cwd: Option<String> = match &resumed {
            Some(source) => text::copy_option(&source.cwd),
            None => None,
        };
        let kept_isolation: String = match &resumed {
            Some(source) => source.isolation.clone(),
            None => isolation,
        };
        let resume_path: Option<String> = match &resumed {
            Some(source) => text::copy_option(&source.child_session_path),
            None => None,
        };
        Ok(
            TaskRequest {
                owner: owner.copy(),
                owner_path: pick_text(&args.parent_session_path, owner_path),
                cwd: pick(pick(source_cwd, args.cwd), args.parent_cwd),
                prompt: args.prompt,
                description: args.description,
                model: args.model,
                thinking_level: args.thinking_level,
                tools,
                subagent_type: pick_text(&args.subagent_type, "general-purpose"),
                capability_mode: capability,
                background: match args.background {
                    Some(b) => b,
                    None => false,
                },
                workflow_run_id: None,
                isolation: kept_isolation,
                resume_path,
            },
        )
    }

    /// The snapshots of several tasks, and whether the wait on them is over.
    pub fn poll_wait(&self, owner: &SessionId, ids: &Vec<String>, mode: &str) -> (r: Result<
        (Vec<TaskSnapshot>, bool),
        TaskError,
    >)
        requires
            self.wf(),
        ensures
            (ids@.len() == 0 || ids@.len() > 20) ==> r matches Err(TaskError::WaitCount),
            1 <= ids@.len() <= 20 && mode@ != "wait_any"@ && mode@ != "wait_all"@ ==> (
                r matches Err(TaskError::WaitMode { mode: m }) && m@ == mode@),
            1 <= ids@.len() <= 20 && (mode@ == "wait_any"@ || mode@ == "wait_all"@) ==> match r {
                Ok((snapshots, ready)) => {
                    &&& snapshots@.len() == ids@.len()
                    &&& forall|k: int|
                        0 <= k < ids@.len() ==> readable(
                            self.tasks@,
                            owner@,
                            (#[trigger] ids@[k])@,
                        ) && snapshots@[k] == self.tasks@[lookup(
                            self.tasks@,
                            ids@[k]@,
                        )->0].snapshot
                    &&& ready == if mode@ == "wait_all"@ {
                        forall|k: int|
                            0 <= k < snapshots@.len() ==> (
                            #[trigger] snapshots@[k]).status.ended()
                    } else {
                        exists|k: int|
                            0 <= k < snapshots@.len() && (
                            #[trigger] snapshots@[k]).status.ended()
                    }
                },
                Err(error) => exists|k: int|
                    {
                        &&& 0 <= k < ids@.len()
                        &&& first_unreadable(self.tasks@, owner@, ids@, k)
                        &&& #[trigger] refusal(self.tasks@, ids@[k]@, error)
                    },
            },
    {
        if ids.len() == 0 || ids.len() > 20 {
            return Err(TaskError::WaitCount);
        }
        let all: bool = text::same_text(mode, "wait_all");
        if !text::same_text(mode, "wait_any") && !all {
            return Err(TaskError::WaitMode { mode: mode.to_owned() });
        }
        let mut snapshots: Vec<TaskSnapshot> = Vec::new();
        let mut every: bool = true;
        let mut some: bool = false;
        let mut i: usize = 0;
        while i < ids.len()
            invariant
                self.wf(),
                1 <= ids@.len() <= 20,
                mode@ == "wait_any"@ || mode@ == "wait_all"@,
                i <= ids.len(),
                snapshots@.len() == i,
                forall|k: int|
                    0 <= k < i ==> readable(self.tasks@, owner@, (#[trigger] ids@[k])@)
                        && snapshots@[k] == self.tasks@[lookup(
                        self.tasks@,
                        ids@[k]@,
                    )->0].snapshot,
                every == (forall|k: int|
                    0 <= k < i ==> (#[trigger] snapshots@[k]).status.ended()),
                some == (exists|k: int|
                    0 <= k < i && (#[trigger] snapshots@[k]).status.ended()),
            decreases ids.len() - i,
        {
            match self.snapshot(owner, ids[i].as_str()) {
                Ok(snapshot) => {
                    let ended: bool = snapshot.status.is_terminal();
                    let ghost before = snapshots@;
                    snapshots.push(snapshot);
                    assert(forall|k: int|
                        #![trigger snapshots@[k]]
                        #![trigger before[k]]
                        0 <= k < i ==> snapshots@[k] == before[k]);
                    assert(snapshots@[i as int].status.ended() == ended);
                    every = every && ended;
                    some = some || ended;
                },
                Err(error) => {
                    assert(first_unreadable(self.tasks@, owner@, ids@, i as int));
                    assert(refusal(self.tasks@, ids@[i as int]@, error));
                    return Err(error);
                },
            }
            i += 1;
        }
        Ok((snapshots, if all { every } else { some }))
    }
}

/// Whether `owner` may read the task `id`.
pub open spec fn readable(tasks: Seq<TaskRecord>, owner: Seq<char>, id: Seq<char>) -> bool {
    lookup(tasks, id) matches Some(i) && tasks[i].snapshot.owner@ == owner
}

/// Whether `ids[k]` is the first task that `owner` may not read.
pub open spec fn first_unreadable(
    tasks: Seq<TaskRecord>,
    owner: Seq<char>,
    ids: Seq<String>,
    k: int,
) -> bool {
    &&& !readable(tasks, owner, ids[k]@)
    &&& forall|j: int| 0 <= j < k ==> readable(tasks, owner, (#[trigger] ids[j])@)
}

/// Whether `error` is the refusal to show the task `id`.
pub open spec fn refusal(tasks: Seq<TaskRecord>, id: Seq<char>, error: TaskError) -> bool {
    match lookup(tasks, id) {
        None => error matches TaskError::Unknown { id: x } && x@ == id,
        Some(_) => error matches TaskError::Foreign { id: x } && x@ == id,
    }
}

/// The verdict on a call to start a task.
pub enum SpawnCheck {
    Isolation,
    Unknown,
    Foreign,
    NotCompleted,
    ResumedWorktree,
    Capability,
    /// Granted, with the completed task that it resumes.
    Granted(Option<TaskSnapshot>),
}

/// The verdict on a call to start a task, in the order in which the checks are made.
pub open spec fn spawn_check(tasks: Seq<TaskRecord>, owner: Seq<char>, args: SpawnArgs) -> SpawnCheck {
    let isolation = or_text(args.isolation, "none"@);
    if isolation != "none"@ && isolation != "worktree"@ {
        SpawnCheck::Isolation
    } else {
        match args.resume_from {
            Some(id) => match lookup(tasks, id@) {
                None => SpawnCheck::Unknown,
                Some(i) => if tasks[i].snapshot.owner@ != owner {
                    SpawnCheck::Foreign
                } else if !(tasks[i].snapshot.status is Completed) {
                    SpawnCheck::NotCompleted
                } else if isolation == "worktree"@ {
                    SpawnCheck::ResumedWorktree
                } else if tools_of(or_text(args.capability_mode, "all"@)) is None {
                    SpawnCheck::Capability
                } else {
                    SpawnCheck::Granted(Some(tasks[i].snapshot))
                },
            },
            None => if tools_of(or_text(args.capability_mode, "all"@)) is None {
                SpawnCheck::Capability
            } else {
                SpawnCheck::Granted(None)
            },
        }
    }
}

/// Whether `request` is what a granted call stands for. A resumed task keeps the
/// working directory, isolation and session of its source.
pub open spec fn request_of(
    owner: SessionId,
    owner_path: Seq<char>,
    args: SpawnArgs,
    source: Option<TaskSnapshot>,
    request: TaskRequest,
) -> bool {
    let source_cwd = match source {
        Some(s) => s.cwd,
        None => None,
    };
    let mode = or_text(args.capability_mode, "all"@);
    &&& request.owner == owner
    &&& request.owner_path@ == or_text(args.parent_session_path, owner_path)
    &&& request.cwd == or_else(or_else(source_cwd, args.cwd), args.parent_cwd)
    &&& request.prompt == args.prompt
    &&& request.description == args.description
    &&& request.model == args.model
    &&& request.thinking_level == args.thinking_level
    &&& Some(
        match request.tools {
            Some(tools) => Some(text::views(tools@)),
            None => None,
        },
    ) == tools_of(mode)
    &&& request.subagent_type@ == or_text(args.subagent_type, "general-purpose"@)
    &&& request.capability_mode@ == mode
    &&& request.background == (args.background == Some(true))
    &&& request.workflow_run_id is None
    &&& match source {
        Some(s) => request.isolation == s.isolation && request.resume_path == s.child_session_path,
        None => request.isolation@ == or_text(args.isolation, "none"@) && request.resume_path
            is None,
    }
}

/// What to do after an event of a child session.
#[derive(Clone, Debug)]
pub enum ChildStep {
    Continue,
    /// Hand the event on to the owner.
    Forward,
    Finish(TaskStatus),
}

/// What comes in while a child session works.
#[derive(Clone, Debug)]
pub enum ChildInput {
    Event(AgentEvent),
    /// The events of the child have broken off.
    Lost(String),
    /// The task was cancelled.
    Cancelled,
}

/// Folds what came in into the output of a task. A child whose events break off interrupts
/// its task, and a cancelled task ends as such.
pub fn child_step(output: &mut String, child: &SessionId, input: &ChildInput) -> (r: ChildStep)
    ensures
        match *input {
            ChildInput::Event(event) => observed_child(
                old(output)@,
                final(output)@,
                *child,
                event,
                r,
            ),
            ChildInput::Lost(error) => final(output)@ == old(output)@ && r == ChildStep::Finish(
                TaskStatus::Interrupted { error },
            ),
            ChildInput::Cancelled => final(output)@ == old(output)@ && r == ChildStep::Finish(
                TaskStatus::Cancelled,
            ),
        },
{
    match input {
        ChildInput::Event(event) => observe_child(output, child, event),
        ChildInput::Lost(error) => ChildStep::Finish(
            TaskStatus::Interrupted { error: error.clone() },
        ),
        ChildInput::Cancelled => ChildStep::Finish(TaskStatus::Cancelled),
    }
}

/// What an event of a child session adds to the output of its task, and what is to be done.
pub open spec fn observed_child(
    before: Seq<char>,
    after: Seq<char>,
    child: SessionId,
    event: AgentEvent,
    r: ChildStep,
) -> bool {
    &&& after == (match event {
        AgentEvent::TextDelta { text } => before + text@,
        _ => before,
    })
    &&& match event {
        AgentEvent::PermissionRequest { .. } => r is Forward,
        AgentEvent::TurnComplete { .. } => {
            &&& r matches ChildStep::Finish(TaskStatus::Completed { child: c, output: o })
            &&& c == child
            &&& o@ == before
        },
        AgentEvent::Error { message, .. } => r == ChildStep::Finish(
            TaskStatus::Failed { error: message },
        ),
        _ => r is Continue,
    }
}

/// Folds one event of a child session into the output of its task.
pub fn observe_child(output: &mut String, child: &SessionId, event: &AgentEvent) -> (r: ChildStep)
    ensures
        observed_child(old(output)@, final(output)@, *child, *event, r),
{
    match event {
        AgentEvent::TextDelta { text } => {
            output.append(text.as_str());
            ChildStep::Continue
        },
        AgentEvent::PermissionRequest { .. } => ChildStep::Forward,
        AgentEvent::TurnComplete { .. } => ChildStep::Finish(
            TaskStatus::Completed { child: child.copy(), output: output.clone() },
        ),
        AgentEvent::Error { message, .. } => ChildStep::Finish(
            TaskStatus::Failed { error: message.clone() },
        ),
        _ => ChildStep::Continue,
    }
}

/// How the child session of a task is opened, in the prepared directory `cwd`.
pub fn child_config(request: &TaskRequest, cwd: &Option<String>) -> (r: SessionConfig)
    ensures
        r.model == request.model,
        r.cwd == *cwd,
        match request.resume_path {
            Some(path) => r.persistence == SessionPersistence::Open(path),
            None => r.persistence is Persistent,
        },
        r.parent_session_path == Some(request.owner_path),
        r.thinking_level == request.thinking_level,
        match (r.tools, request.tools) {
            (Some(a), Some(b)) => a@ == b@,
            (None, None) => true,
            _ => false,
        },
{
    SessionConfig {
        model: text::copy_option(&request.model),
        cwd: text::copy_option(cwd),
        persistence: match &request.resume_path {
            Some(path) => SessionPersistence::Open(path.clone()),
            None => SessionPersistence::Persistent,
        },
        parent_session_path: Some(request.owner_path.clone()),
        thinking_level: text::copy_option(&request.thinking_level),
        tools: match &request.tools {
            Some(tools) => Some(text::copy_strings(tools)),
            None => None,
        },
    }
}

/// Where the work of a task has to happen.
#[derive(Clone, Debug)]
pub enum WorkPlace {
    /// In the given directory, if any.
    Shared(Option<String>),
    /// In a new Git worktree of the repository around the directory.
    Worktree(String),
}

/// Where the work of a task has to happen.
pub fn work_place(request: &TaskRequest) -> (r: Result<WorkPlace, TaskError>)
    ensures
        request.isolation@ != "worktree"@ ==> r == Ok::<WorkPlace, TaskError>(
            WorkPlace::Shared(request.cwd),
        ),
        request.isolation@ == "worktree"@ ==> match request.cwd {
            Some(cwd) => r == Ok::<WorkPlace, TaskError>(WorkPlace::Worktree(cwd)),
            None => r matches Err(TaskError::MissingDirectory),
        },
{
    if !text::same_text(request.isolation.as_str(), "worktree") {
        return Ok(WorkPlace::Shared(text::copy_option(&request.cwd)));
    }
    match &request.cwd {
        Some(cwd) => Ok(WorkPlace::Worktree(cwd.clone())),
        None => Err(TaskError::MissingDirectory),
    }
}

/// A call that a backend makes about tasks.
#[derive(Clone, Copy, Debug, PartialEq, Eq, Structural)]
pub enum TaskCall {
    Spawn,
    Status,
    Wait,
    Kill,
    WaitMany,
}

/// Which call a name stands for.
pub open spec fn call_named(name: Seq<char>) -> Option<TaskCall> {
    if name == "task_spawn"@ {
        Some(TaskCall::Spawn)
    } else if name == "task_status"@ {
        Some(TaskCall::Status)
    } else if name == "task_wait"@ {
        Some(TaskCall::Wait)
    } else if name == "task_kill"@ {
        Some(TaskCall::Kill)
    } else if name == "tasks_wait"@ {
        Some(TaskCall::WaitMany)
    } else {
        None
    }
}

/// Which call a name stands for.
pub fn task_call(name: &str) -> (r: Result<TaskCall, TaskError>)
    ensures
        match call_named(name@) {
            Some(call) => r == Ok::<TaskCall, TaskError>(call),
            None => r matches Err(TaskError::UnknownCall { name: n }) && n@ == name@,
        },
{
    if text::same_text(name, "task_spawn") {
        Ok(TaskCall::Spawn)
    } else if text::same_text(name, "task_status") {
        Ok(TaskCall::Status)
    } else if text::same_text(name, "task_wait") {
        Ok(TaskCall::Wait)
    } else if text::same_text(name, "task_kill") {
        Ok(TaskCall::Kill)
    } else if text::same_text(name, "tasks_wait") {
        Ok(TaskCall::WaitMany)
    } else {
        Err(TaskError::UnknownCall { name: name.to_owned() })
    }
}

/// How long a wait for several tasks lasts when nothing else is asked, in milliseconds.
pub const DEFAULT_WAIT_MS: u64 = 30_000;

/// The mode and the limit of a wait for several tasks.
pub fn wait_terms(mode: Option<String>, timeout_ms: Option<u64>) -> (r: (String, u64))
    ensures
        r.0@ == (match mode {
            Some(asked) => asked@,
            None => "wait_all"@,
        }),
        r.1 == (match timeout_ms {
            Some(limit) => limit,
            None => DEFAULT_WAIT_MS,
        }),
{
    let words: String = match mode {
        Some(asked) => asked,
        None => "wait_all".to_owned(),
    };
    let limit: u64 = match timeout_ms {
        Some(limit) => limit,
        None => DEFAULT_WAIT_MS,
    };
    (words, limit)
}

/// Whether the first current session of a list is at `i`.
pub open spec fn current_at(sessions: Seq<SessionInfo>, i: int) -> bool {
    &&& 0 <= i < sessions.len()
    &&& sessions[i].current
    &&& forall|j: int| 0 <= j < i ==> !(#[trigger] sessions[j]).current
}

/// Where the current session of a list is stored.
pub fn current_path(sessions: &Vec<SessionInfo>) -> (r: Option<String>)
    ensures
        match r {
            Some(path) => exists|i: int| #[trigger]
                current_at(sessions@, i) && path@ == sessions@[i].path@,
            None => forall|i: int| 0 <= i < sessions@.len() ==> !(#[trigger] sessions@[i]).current,
        },
{
    let mut i: usize = 0;
    while i < sessions.len()
        invariant
            i <= sessions@.len(),
            forall|j: int| 0 <= j < i ==> !(#[trigger] sessions@[j]).current,
        decreases sessions@.len() - i,
    {
        if sessions[i].current {
            assert(current_at(sessions@, i as int));
            return Some(sessions[i].path.clone());
        }
        i += 1;
    }
    None
}

/// Where an opened session is stored: where the backend says, else where it
/// was resumed from, else under its identifier.
pub fn child_path(
    sessions: &Vec<SessionInfo>,
    resume_path: &Option<String>,
    child: &SessionId,
) -> (r: String)
    ensures
        if exists|i: int| current_at(sessions@, i) {
            exists|i: int| #[trigger] current_at(sessions@, i) && r@ == sessions@[i].path@
        } else {
            r@ == (match *resume_path {
                Some(path) => path@,
                None => child@,
            })
        },
{
    match current_path(sessions) {
        Some(path) => path,
        None => match resume_path {
            Some(path) => path.clone(),
            None => child.0.clone(),
        },
    }
}

/// Once ended, a task keeps its status through any two changes.
pub proof fn ended_is_final(a: Seq<TaskRecord>, b: Seq<TaskRecord>, c: Seq<TaskRecord>)
    requires
        keeps_ended(a, b),
        keeps_ended(b, c),
    ensures
        keeps_ended(a, c),
{
    assert forall|i: int| 0 <= i < a.len() implies {
        &&& (#[trigger] c[i]).snapshot.id@ == a[i].snapshot.id@
        &&& a[i].snapshot.status.ended() ==> c[i].snapshot.status == a[i].snapshot.status
    } by {
        assert(b[i].snapshot.id@ == a[i].snapshot.id@);
    }
}

/// A session that does not own a task cannot read it.
pub proof fn only_the_owner_reads(tasks: Seq<TaskRecord>, a: Seq<char>, b: Seq<char>, id: Seq<char>)
    requires
        readable(tasks, a, id),
        a != b,
    ensures
        !readable(tasks, b, id),
{
}

/// The answer to a host call, and whether it is an error: a call that failed is answered with
/// its message.
pub fn reply_of(result: Result<ToolResult, String>) -> (r: (ToolResult, bool))
    ensures
        r.1 == (result is Err),
        match result {
            Ok(answer) => r.0 == answer,
            Err(message) => r.0 == (ToolResult { content: message, details: None }),
        },
{
    match result {
        Ok(answer) => (answer, false),
        Err(message) => (ToolResult { content: message, details: None }, true),
    }
}

/// There are four capability modes, and only "all" allows every tool.
pub proof fn modes_are_known(mode: Seq<char>)
    ensures
        tools_of(mode) is Some <==> (mode == "read-only"@ || mode == "read-write"@ || mode
            == "execute"@ || mode == "all"@),
        tools_of(mode) == Some(None::<Seq<Seq<char>>>) <==> mode == "all"@,
{
    reveal_strlit("read-only");
    reveal_strlit("read-write");
    reveal_strlit("execute");
    reveal_strlit("all");
    assert("read-only"@.len() == 9);
    assert("read-write"@.len() == 10);
    assert("execute"@.len() == 7);
    assert("all"@.len() == 3);
}

/// The tools of a mode that lists them: all of them can read, search and look things up,
/// only "execute" can run commands, only "read-write" can change files, no mode can do both,
/// and nothing else is allowed.
pub proof fn modes_limit_the_tools(mode: Seq<char>, tools: Seq<Seq<char>>)
    requires
        tools_of(mode) == Some(Some(tools)),
    ensures
        tools.contains("read"@),
        tools.contains("grep"@),
        tools.contains("find"@),
        tools.contains("ls"@),
        tools.contains("web_fetch"@),
        tools.contains("web_search"@),
        tools.contains("bash"@) <==> mode == "execute"@,
        tools.contains("write"@) <==> mode == "read-write"@,
        tools.contains("edit"@) <==> mode == "read-write"@,
        forall|tool: Seq<char>| #[trigger]
            tools.contains(tool) ==> {
                ||| tool == "read"@
                ||| tool == "grep"@
                ||| tool == "find"@
                ||| tool == "ls"@
                ||| tool == "web_fetch"@
                ||| tool == "web_search"@
                ||| tool == "bash"@
                ||| tool == "write"@
                ||| tool == "edit"@
            },
        tools.no_duplicates(),
{
    reveal_strlit("read-only");
    reveal_strlit("read-write");
    reveal_strlit("execute");
    reveal_strlit("all");
    reveal_strlit("read");
    reveal_strlit("grep");
    reveal_strlit("find");
    reveal_strlit("ls");
    reveal_strlit("web_fetch");
    reveal_strlit("web_search");
    reveal_strlit("bash");
    reveal_strlit("write");
    reveal_strlit("edit");
    assert("read-only"@.len() == 9);
    assert("read-write"@.len() == 10);
    assert("execute"@.len() == 7);
    assert("all"@.len() == 3);
    assert("read"@.len() == 4);
    assert("grep"@.len() == 4);
    assert("find"@.len() == 4);
    assert("ls"@.len() == 2);
    assert("web_fetch"@.len() == 9);
    assert("web_search"@.len() == 10);
    assert("bash"@.len() == 4);
    assert("write"@.len() == 5);
    assert("edit"@.len() == 4);
    assert("read-only"@[0] == 'r');
    assert("web_fetch"@[0] == 'w');
    assert("read-write"@[0] == 'r');
    assert("web_search"@[0] == 'w');
    assert("read"@[0] == 'r');
    assert("grep"@[0] == 'g');
    assert("find"@[0] == 'f');
    assert("bash"@[0] == 'b');
    assert("edit"@[0] == 'e');
    assert(tools[0] == "read"@ && tools[1] == "grep"@ && tools[2] == "find"@);
    assert(tools[3] == "ls"@ && tools[4] == "web_fetch"@ && tools[5] == "web_search"@);
    if mode == "execute"@ {
        assert(tools[6] == "bash"@);
    } else if mode == "read-write"@ {
        assert(tools[6] == "write"@ && tools[7] == "edit"@);
    }
}

/// A task is shown as it stands: one that is over has an end, only a completed one has an
/// output, only a failed or interrupted one an error, and it has lasted from its start on.
pub proof fn tasks_are_shown_as_they_stand(task: TaskSnapshot, now: u64, shown: SubagentTask)
    requires
        shows_task(task, now, shown),
    ensures
        shown.task_id == task.id,
        shown.description == task.description,
        task.status is Launching || task.status is Running ==> shown.status@ == "running"@
            && shown.completed_at_ms is None && shown.output is None && shown.error is None,
        task.status matches TaskStatus::Completed { output, .. } ==> shown.status@ == "completed"@
            && shown.output == Some(output) && shown.completed_at_ms == Some(now),
        task.status matches TaskStatus::Failed { error } ==> shown.status@ == "failed"@
            && shown.error == Some(error) && shown.completed_at_ms == Some(now),
        task.status matches TaskStatus::Interrupted { error } ==> shown.status@ == "interrupted"@
            && shown.error == Some(error) && shown.completed_at_ms == Some(now),
        task.status is Cancelled ==> shown.status@ == "cancelled"@ && shown.completed_at_ms == Some(
            now,
        ),
        now >= task.started_at_ms ==> shown.started_at_ms + shown.duration_ms == now,
        task.status matches TaskStatus::Running { child } ==> shown.child_session_id == Some(
            child.0,
        ),
{
}

/// A live task that is cancelled is over and marked as such; one that has ended stays as it
/// is. Everything else of the task stays.
pub proof fn cancelling_ends_live_tasks(record: TaskRecord)
    ensures
        record.snapshot.status is Launching || record.snapshot.status is Running
            ==> cancelled_record(record).snapshot.status is Cancelled && cancelled_record(
            record,
        ).cancelled,
        !(record.snapshot.status is Launching || record.snapshot.status is Running)
            ==> cancelled_record(record) == record,
        cancelled_record(record).snapshot.id == record.snapshot.id,
        cancelled_record(record).snapshot.owner == record.snapshot.owner,
        cancelled_record(record).snapshot.description == record.snapshot.description,
{
}

/// Cancelling the tasks of a session leaves those of others alone, and none of its own live.
pub proof fn cancelling_stays_with_the_owner(record: TaskRecord, owner: Seq<char>)
    ensures
        record.snapshot.owner@ != owner ==> cancelled_for(record, owner) == record,
        record.snapshot.owner@ == owner ==> !(cancelled_for(record, owner).snapshot.status
            is Launching || cancelled_for(record, owner).snapshot.status is Running),
{
}

/// The children that are stopped with their owner are those of its running tasks.
pub proof fn all_running_children_are_stopped(tasks: Seq<TaskRecord>, owner: Seq<char>, i: int)
    requires
        0 <= i < tasks.len(),
        tasks[i].snapshot.owner@ == owner,
        tasks[i].snapshot.status is Running,
    ensures
        running_children(tasks, owner).contains(tasks[i].snapshot.status->Running_child),
    decreases tasks.len(),
{
    let rest = running_children(tasks.drop_last(), owner);
    let all = running_children(tasks, owner);
    let child = tasks[i].snapshot.status->Running_child;
    if i == tasks.len() - 1 {
        assert(all[rest.len() as int] == child);
    } else {
        all_running_children_are_stopped(tasks.drop_last(), owner, i);
        let k = choose|k: int| 0 <= k < rest.len() && rest[k] == child;
        assert(all[k] == child);
    }
}

/// No other children are stopped.
pub proof fn only_running_children_are_stopped(
    tasks: Seq<TaskRecord>,
    owner: Seq<char>,
    k: int,
) -> (i: int)
    requires
        0 <= k < running_children(tasks, owner).len(),
    ensures
        0 <= i < tasks.len(),
        tasks[i].snapshot.owner@ == owner,
        tasks[i].snapshot.status == (TaskStatus::Running {
            child: running_children(tasks, owner)[k],
        }),
    decreases tasks.len(),
{
    let rest = running_children(tasks.drop_last(), owner);
    if k < rest.len() {
        only_running_children_are_stopped(tasks.drop_last(), owner, k)
    } else {
        tasks.len() - 1
    }
}

/// The live tasks of a session are those that it owns and that are launching or running.
pub proof fn live_tasks_are_listed(tasks: Seq<TaskRecord>, owner: Seq<char>, i: int)
    requires
        0 <= i < tasks.len(),
        tasks[i].snapshot.owner@ == owner,
        tasks[i].snapshot.status is Launching || tasks[i].snapshot.status is Running,
    ensures
        live_ids(tasks, owner).contains(tasks[i].snapshot.id),
    decreases tasks.len(),
{
    let rest = live_ids(tasks.drop_last(), owner);
    let all = live_ids(tasks, owner);
    if i == tasks.len() - 1 {
        assert(all[rest.len() as int] == tasks[i].snapshot.id);
    } else {
        live_tasks_are_listed(tasks.drop_last(), owner, i);
        let k = choose|k: int| 0 <= k < rest.len() && rest[k] == tasks[i].snapshot.id;
        assert(all[k] == tasks[i].snapshot.id);
    }
}

/// No task of another session, and none that is over, is listed as live.
pub proof fn listed_tasks_are_live(tasks: Seq<TaskRecord>, owner: Seq<char>, k: int) -> (i: int)
    requires
        0 <= k < live_ids(tasks, owner).len(),
    ensures
        0 <= i < tasks.len(),
        tasks[i].snapshot.id == live_ids(tasks, owner)[k],
        tasks[i].snapshot.owner@ == owner,
        tasks[i].snapshot.status is Launching || tasks[i].snapshot.status is Running,
    decreases tasks.len(),
{
    let rest = live_ids(tasks.drop_last(), owner);
    if k < rest.len() {
        listed_tasks_are_live(tasks.drop_last(), owner, k)
    } else {
        tasks.len() - 1
    }
}

/// A stored task that was live is interrupted when it is taken over, with the reason; one that
/// had ended is taken over as it ended.
pub proof fn stored_tasks_do_not_run_on(
    snapshot: TaskSnapshot,
    owner: SessionId,
    taken: TaskSnapshot,
)
    requires
        restored(snapshot, owner, taken),
    ensures
        taken.owner == owner,
        taken.id == snapshot.id,
        snapshot.status is Launching || snapshot.status is Running ==> (taken.status matches
            TaskStatus::Interrupted { error } && error@ == "Torii stopped while this "@ + "task"@
            + " was active"@),
        !(snapshot.status is Launching || snapshot.status is Running) ==> taken.status
            == snapshot.status,
{
}

/// Where tasks have different identifiers, each is found under its own.
pub proof fn tasks_are_found(tasks: Seq<TaskRecord>, i: int)
    requires
        distinct(tasks),
        0 <= i < tasks.len(),
    ensures
        lookup(tasks, tasks[i].snapshot.id@) == Some(i),
{
    let id = tasks[i].snapshot.id@;
    assert(has_task(tasks, id, i));
    let k = choose|k: int| has_task(tasks, id, k);
    assert(has_task(tasks, id, k));
    if k < i {
        assert(tasks[k].snapshot.id@ != tasks[i].snapshot.id@);
    } else if i < k {
        assert(tasks[i].snapshot.id@ != tasks[k].snapshot.id@);
    }
}

/// Only a completed task of the same session is resumed, and never in a worktree of its own.
pub proof fn only_own_completed_tasks_are_resumed(
    tasks: Seq<TaskRecord>,
    owner: Seq<char>,
    args: SpawnArgs,
    id: String,
) -> (i: int)
    requires
        args.resume_from == Some(id),
        spawn_check(tasks, owner, args) is Granted,
    ensures
        0 <= i < tasks.len(),
        tasks[i].snapshot.id@ == id@,
        tasks[i].snapshot.owner@ == owner,
        tasks[i].snapshot.status is Completed,
        spawn_check(tasks, owner, args) == SpawnCheck::Granted(Some(tasks[i].snapshot)),
        !(args.isolation matches Some(mode) && mode@ == "worktree"@),
{
    let i = lookup(tasks, id@)->0;
    assert(has_task(tasks, id@, i));
    i
}

/// A task is granted only in a known mode and with a known isolation; a new one with both is
/// granted.
pub proof fn granted_tasks_have_a_known_mode(
    tasks: Seq<TaskRecord>,
    owner: Seq<char>,
    args: SpawnArgs,
)
    ensures
        ({
            let mode_is_known = args.capability_mode matches Some(mode) ==> mode@ == "read-only"@
                || mode@ == "read-write"@ || mode@ == "execute"@ || mode@ == "all"@;
            let isolation_is_known = args.isolation matches Some(mode) ==> mode@ == "none"@
                || mode@ == "worktree"@;
            &&& spawn_check(tasks, owner, args) is Granted ==> mode_is_known && isolation_is_known
            &&& args.resume_from is None && mode_is_known && isolation_is_known ==> spawn_check(
                tasks,
                owner,
                args,
            ) == SpawnCheck::Granted(None)
            &&& !isolation_is_known ==> spawn_check(tasks, owner, args) is Isolation
        }),
{
    modes_are_known(or_text(args.capability_mode, "all"@));
    modes_are_known("all"@);
}

/// A task that is started does what was asked, with the tools of its mode; a resumed one goes
/// on in the session and the directory where it worked.
pub proof fn started_tasks_do_what_was_asked(
    owner: SessionId,
    owner_path: Seq<char>,
    args: SpawnArgs,
    source: Option<TaskSnapshot>,
    request: TaskRequest,
)
    requires
        request_of(owner, owner_path, args, source, request),
    ensures
        request.owner == owner,
        request.prompt == args.prompt,
        request.description == args.description,
        request.model == args.model,
        args.background == Some(true) <==> request.background,
        args.subagent_type matches Some(kind) ==> request.subagent_type@ == kind@,
        args.subagent_type is None ==> request.subagent_type@ == "general-purpose"@,
        args.capability_mode matches Some(mode) ==> request.capability_mode@ == mode@,
        args.capability_mode is None ==> request.capability_mode@ == "all"@ && request.tools
            is None,
        args.capability_mode matches Some(mode) && mode@ == "read-only"@ ==> request.tools
            is Some && !text::views(request.tools->0@).contains("bash"@) && !text::views(
            request.tools->0@,
        ).contains("write"@) && !text::views(request.tools->0@).contains("edit"@),
        source matches Some(s) ==> request.resume_path == s.child_session_path && request.isolation
            == s.isolation && (s.cwd is Some ==> request.cwd == s.cwd),
        source is None ==> request.resume_path is None,
        source is None && args.cwd is Some ==> request.cwd == args.cwd,
        source is None && args.cwd is None ==> request.cwd == args.parent_cwd,
{
    modes_are_known("all"@);
    match args.capability_mode {
        Some(mode) => {
            if mode@ == "read-only"@ {
                modes_are_known("read-only"@);
                reveal_strlit("all");
                reveal_strlit("read-only");
                reveal_strlit("execute");
                reveal_strlit("read-write");
                assert("all"@.len() == 3);
                assert("read-only"@.len() == 9);
                assert("execute"@.len() == 7);
                assert("read-write"@.len() == 10);
                modes_limit_the_tools("read-only"@, text::views(request.tools->0@));
            }
        },
        None => {},
    }
}

/// The words of a child are gathered in their order, and a finished turn completes its task
/// with all of them.
pub proof fn children_gather_their_words(
    before: Seq<char>,
    after: Seq<char>,
    child: SessionId,
    event: AgentEvent,
    r: ChildStep,
)
    requires
        observed_child(before, after, child, event, r),
    ensures
        event matches AgentEvent::TextDelta { text: words } ==> after == before + words@ && r
            is Continue,
        !(event is TextDelta) ==> after == before,
        event is TurnComplete ==> (r matches ChildStep::Finish(
            TaskStatus::Completed { child: c, output },
        ) && c == child && output@ == before),
        event matches AgentEvent::Error { message, .. } ==> (r matches ChildStep::Finish(
            TaskStatus::Failed { error },
        ) && error == message),
        event is PermissionRequest ==> r is Forward,
        r is Finish ==> event is TurnComplete || event is Error,
        r is Forward ==> event is PermissionRequest,
{
}

/// The five calls on tasks are known by their names, and no others.
pub proof fn task_calls_are_known_by_their_names(name: Seq<char>)
    ensures
        call_named(name) == Some(TaskCall::Spawn) <==> name == "task_spawn"@,
        call_named(name) == Some(TaskCall::Status) <==> name == "task_status"@,
        call_named(name) == Some(TaskCall::Wait) <==> name == "task_wait"@,
        call_named(name) == Some(TaskCall::Kill) <==> name == "task_kill"@,
        call_named(name) == Some(TaskCall::WaitMany) <==> name == "tasks_wait"@,
{
    reveal_strlit("task_spawn");
    reveal_strlit("task_status");
    reveal_strlit("task_wait");
    reveal_strlit("task_kill");
    reveal_strlit("tasks_wait");
    assert("task_spawn"@.len() == 10);
    assert("task_status"@.len() == 11);
    assert("task_wait"@.len() == 9);
    assert("task_kill"@.len() == 9);
    assert("tasks_wait"@.len() == 10);
    assert("task_spawn"@[4] == '_');
    assert("tasks_wait"@[4] == 's');
    assert("task_wait"@[5] == 'w');
    assert("task_kill"@[5] == 'k');
}

/// A task can be read by its owner and by no other session.
pub proof fn owners_read_their_tasks(tasks: Seq<TaskRecord>, owner: Seq<char>, i: int)
    requires
        distinct(tasks),
        0 <= i < tasks.len(),
    ensures
        readable(tasks, owner, tasks[i].snapshot.id@) <==> tasks[i].snapshot.owner@ == owner,
{
    tasks_are_found(tasks, i);
}

/// Whoever asks for a task that is not there is told that it is unknown, and whoever asks for
/// the task of another session that it is foreign; either way the task asked for is named.
pub proof fn refusals_name_the_task(
    tasks: Seq<TaskRecord>,
    owner: Seq<char>,
    id: Seq<char>,
    error: TaskError,
)
    requires
        refusal(tasks, id, error),
        !readable(tasks, owner, id),
    ensures
        (error is Unknown && error->Unknown_id@ == id) || (error is Foreign && error->Foreign_id@
            == id),
        error is Unknown <==> forall|i: int|
            0 <= i < tasks.len() ==> (#[trigger] tasks[i]).snapshot.id@ != id,
        error is Foreign ==> exists|i: int|
            0 <= i < tasks.len() && (#[trigger] tasks[i]).snapshot.id@ == id
                && tasks[i].snapshot.owner@ != owner,
{
    if exists|i: int| has_task(tasks, id, i) {
        let i = choose|i: int| has_task(tasks, id, i);
        assert(has_task(tasks, id, i));
        assert(tasks[i].snapshot.id@ == id);
    } else {
        assert forall|i: int| 0 <= i < tasks.len() implies (#[trigger] tasks[i]).snapshot.id@
            != id by {
            assert(!has_task(tasks, id, i));
        }
    }
}

/// Of several tasks asked for, the first that may not be read is the one refused.
pub proof fn the_first_refused_task_counts(
    tasks: Seq<TaskRecord>,
    owner: Seq<char>,
    ids: Seq<String>,
    k: int,
    other: int,
)
    requires
        0 <= k < ids.len(),
        first_unreadable(tasks, owner, ids, k),
        0 <= other < ids.len(),
        !readable(tasks, owner, ids[other]@),
    ensures
        k <= other,
        forall|i: int|
            0 <= i < tasks.len() && (#[trigger] tasks[i]).snapshot.id@ == ids[k]@ && distinct(tasks)
                ==> tasks[i].snapshot.owner@ != owner,
{
    assert forall|i: int|
        0 <= i < tasks.len() && (#[trigger] tasks[i]).snapshot.id@ == ids[k]@ && distinct(
            tasks,
        ) implies tasks[i].snapshot.owner@ != owner by {
        tasks_are_found(tasks, i);
    }
}

} // verus!
