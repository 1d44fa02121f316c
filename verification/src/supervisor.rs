//! Resident sessions: what they are doing, their replayable history, and routing.

use vstd::prelude::*;

use crate::harness::{AgentEvent, RuntimeSessionInfo, SessionId};
use crate::idset::IdSet;
use crate::task;
use crate::task::TaskNotice;
use crate::text;
use crate::workflow_store::WorkflowNotice;

verus! {

broadcast use vstd::string::group_string_axioms;

/// The most events that a resident keeps for replay.
pub const MAX_REPLAY_EVENTS: usize = 20_000;

/// How many of the oldest events go when the history is full.
pub const REPLAY_TRIM: usize = 1_000;

/// Room for a full replay and live events on top.
pub const EVENT_CHANNEL_CAPACITY: usize = 21_024;

/// What a resident session is doing.
#[derive(Clone, Copy, Debug, PartialEq, Eq, Structural)]
pub enum RuntimeStatus {
    Idle,
    Running,
    Attention,
}

impl RuntimeStatus {
    /// The status as it is sent.
    pub open spec fn wire_name(self) -> Seq<char> {
        match self {
            RuntimeStatus::Idle => "idle"@,
            RuntimeStatus::Running => "running"@,
            RuntimeStatus::Attention => "attention"@,
        }
    }

    /// The status as it is sent.
    pub fn label(&self) -> (r: String)
        ensures
            r@ == self.wire_name(),
    {
        match self {
            RuntimeStatus::Idle => "idle".to_owned(),
            RuntimeStatus::Running => "running".to_owned(),
            RuntimeStatus::Attention => "attention".to_owned(),
        }
    }
}

/// An event and the session it belongs to.
#[derive(Clone, Debug)]
pub struct TaggedEvent {
    pub session_id: SessionId,
    pub event: AgentEvent,
}

/// A resident session as the client lists it. Times are milliseconds since the epoch.
#[derive(Clone, Debug)]
pub struct ResidentSnapshot {
    pub session_id: SessionId,
    pub path: String,
    pub status: RuntimeStatus,
    pub started_at: Option<u64>,
}

/// A resident session.
#[derive(Clone, Debug)]
pub struct Resident {
    pub id: SessionId,
    pub path: String,
    pub status: RuntimeStatus,
    pub started_at: Option<u64>,
    pub history: Vec<AgentEvent>,
    pub turn_running: bool,
    pub running_tools: IdSet,
    pub background_tasks: IdSet,
}

/// The activity of a resident: all that its events can change but the history.
pub struct Activity {
    pub status: RuntimeStatus,
    pub started: Option<u64>,
    pub turn: bool,
    pub tools: Set<Seq<char>>,
    pub background: Set<Seq<char>>,
}

impl Activity {
    /// Whether no turn, tool or background work is under way.
    pub open spec fn quiet(self) -> bool {
        !self.turn && self.tools == Set::<Seq<char>>::empty() && self.background == Set::<
            Seq<char>,
        >::empty()
    }

    /// Running since it started, or since `now`.
    pub open spec fn busy_since(self, now: u64) -> Activity {
        Activity {
            status: RuntimeStatus::Running,
            started: if self.started is Some {
                self.started
            } else {
                Some(now)
            },
            ..self
        }
    }

    /// Idle if nothing is under way.
    pub open spec fn rests(self) -> Activity {
        if self.quiet() {
            Activity { status: RuntimeStatus::Idle, started: None, ..self }
        } else {
            self
        }
    }

    /// In need of attention.
    pub open spec fn alarmed(self) -> Activity {
        Activity { status: RuntimeStatus::Attention, ..self }
    }

    /// The timer runs while the session runs, and stands still while it is idle.
    pub open spec fn timed(self) -> bool {
        &&& self.status is Idle ==> self.started is None
        &&& self.status is Running ==> self.started is Some
    }
}

/// Whether a task status asks for attention.
pub open spec fn task_trouble(status: Seq<char>) -> bool {
    status == "failed"@ || status == "interrupted"@
}

/// Whether a workflow status asks for attention.
pub open spec fn workflow_trouble(status: Seq<char>) -> bool {
    status == "failed"@ || status == "interrupted"@ || status == "paused"@
}

/// The activity after an event at the time `now`.
pub open spec fn observed(a: Activity, event: AgentEvent, now: u64) -> Activity {
    match event {
        AgentEvent::RuntimeState { idle } => {
            let b = Activity { turn: !idle, ..a };
            if !idle || b.background != Set::<Seq<char>>::empty() {
                b.busy_since(now)
            } else if b.status is Attention {
                b
            } else {
                Activity { status: RuntimeStatus::Idle, started: None, ..b }
            }
        },
        AgentEvent::UserMessage { .. } => Activity {
            turn: true,
            status: RuntimeStatus::Running,
            started: Some(now),
            ..a
        },
        AgentEvent::ToolCallStart { id, .. } => Activity {
            tools: a.tools.insert(id@),
            ..a
        }.busy_since(now),
        AgentEvent::ToolCallResult { id, .. } => Activity { tools: a.tools.remove(id@), ..a }.rests(),
        AgentEvent::SubagentUpdate { task } => if task.status@ == "running"@ {
            Activity { background: a.background.insert(task.task_id@), ..a }.busy_since(now)
        } else {
            let b = Activity { background: a.background.remove(task.task_id@), ..a };
            if task_trouble(task.status@) {
                b.alarmed()
            } else {
                b.rests()
            }
        },
        AgentEvent::WorkflowUpdate { workflow } => {
            let key = "workflow:"@ + workflow.run_id@;
            if workflow.status@ == "running"@ || workflow.status@ == "pending"@ {
                Activity { background: a.background.insert(key), ..a }.busy_since(now)
            } else {
                let b = Activity { background: a.background.remove(key), ..a };
                if workflow_trouble(workflow.status@) {
                    b.alarmed()
                } else {
                    b.rests()
                }
            }
        },
        AgentEvent::TurnComplete { .. } => Activity { turn: false, ..a }.rests(),
        AgentEvent::PermissionRequest { .. } => a.alarmed(),
        AgentEvent::Error { .. } => a.alarmed(),
        _ => a,
    }
}

/// Whether the event at `i` is an error. It counts even where a later turn was completed.
pub open spec fn persisted_error(history: Seq<AgentEvent>, i: int) -> bool {
    0 <= i < history.len() && history[i] is Error
}

/// The task that an event reports on.
pub open spec fn task_of(event: AgentEvent) -> Option<Seq<char>> {
    match event {
        AgentEvent::SubagentUpdate { task } => Some(task.task_id@),
        _ => None,
    }
}

/// The workflow run that an event reports on.
pub open spec fn run_of(event: AgentEvent) -> Option<Seq<char>> {
    match event {
        AgentEvent::WorkflowUpdate { workflow } => Some(workflow.run_id@),
        _ => None,
    }
}

/// Whether the event at `i` is the last word on a task in trouble.
pub open spec fn troubled_task(history: Seq<AgentEvent>, i: int) -> bool {
    &&& 0 <= i < history.len()
    &&& history[i] matches AgentEvent::SubagentUpdate { task }
    &&& task_trouble(task.status@)
    &&& forall|j: int| i < j < history.len() ==> task_of(#[trigger] history[j]) != Some(task.task_id@)
}

/// Whether the event at `i` is the last word on a workflow run in trouble.
pub open spec fn troubled_run(history: Seq<AgentEvent>, i: int) -> bool {
    &&& 0 <= i < history.len()
    &&& history[i] matches AgentEvent::WorkflowUpdate { workflow }
    &&& workflow_trouble(workflow.status@)
    &&& forall|j: int|
        i < j < history.len() ==> run_of(#[trigger] history[j]) != Some(workflow.run_id@)
}

/// Whether a resumed history holds an error, or a task or a run that is left in trouble.
pub open spec fn needs_attention(history: Seq<AgentEvent>) -> bool {
    exists|i: int|
        #![trigger history[i]]
        persisted_error(history, i) || troubled_task(history, i) || troubled_run(history, i)
}

/// The history after one more event, with the oldest ones gone if it was full.
pub open spec fn remembered(history: Seq<AgentEvent>, event: AgentEvent) -> Seq<AgentEvent> {
    if history.len() >= MAX_REPLAY_EVENTS {
        history.subrange(REPLAY_TRIM as int, history.len() as int).push(event)
    } else {
        history.push(event)
    }
}

fn in_task_trouble(status: &str) -> (r: bool)
    ensures
        r == task_trouble(status@),
{
    text::same_text(status, "failed") || text::same_text(status, "interrupted")
}

fn in_workflow_trouble(status: &str) -> (r: bool)
    ensures
        r == workflow_trouble(status@),
{
    text::same_text(status, "failed") || text::same_text(status, "interrupted") || text::same_text(
        status,
        "paused",
    )
}

impl Resident {
    /// A resident that has done nothing yet.
    pub fn new(id: SessionId, path: String) -> (r: Resident)
        ensures
            r.id == id,
            r.path == path,
            r.history@.len() == 0,
            r.wf(),
            r.activity() == (Activity {
                status: RuntimeStatus::Idle,
                started: None,
                turn: false,
                tools: Set::empty(),
                background: Set::empty(),
            }),
    {
        Resident {
            id,
            path,
            status: RuntimeStatus::Idle,
            started_at: None,
            history: Vec::new(),
            turn_running: false,
            running_tools: IdSet::new(),
            background_tasks: IdSet::new(),
        }
    }

    /// The sets list nothing twice.
    pub open spec fn wf(&self) -> bool {
        self.running_tools.wf() && self.background_tasks.wf()
    }

    /// What the resident is doing.
    pub open spec fn activity(&self) -> Activity {
        Activity {
            status: self.status,
            started: self.started_at,
            turn: self.turn_running,
            tools: self.running_tools@,
            background: self.background_tasks@,
        }
    }

    fn mark_busy(&mut self, now: u64)
        requires
            old(self).wf(),
        ensures
            final(self).wf(),
            final(self).activity() == old(self).activity().busy_since(now),
            final(self).same_session(*old(self)),
    {
        self.status = RuntimeStatus::Running;
        if self.started_at.is_none() {
            self.started_at = Some(now);
        }
    }

    /// Identity and history are the same.
    pub open spec fn same_session(&self, other: Resident) -> bool {
        self.id == other.id && self.path == other.path && self.history == other.history
    }

    fn rest_if_quiet(&mut self)
        requires
            old(self).wf(),
        ensures
            final(self).wf(),
            final(self).activity() == old(self).activity().rests(),
            final(self).same_session(*old(self)),
    {
        if !self.turn_running && self.running_tools.is_empty() && self.background_tasks.is_empty() {
            self.status = RuntimeStatus::Idle;
            self.started_at = None;
        }
    }

    /// Folds one event into the activity; returns whether the status or the timer changed.
    pub fn observe(&mut self, event: &AgentEvent, now: u64) -> (r: bool)
        requires
            old(self).wf(),
        ensures
            final(self).wf(),
            final(self).activity() == observed(old(self).activity(), *event, now),
            final(self).same_session(*old(self)),
            r == (final(self).status != old(self).status || final(self).started_at
                != old(self).started_at),
    {
        let status: RuntimeStatus = self.status;
        let started: Option<u64> = self.started_at;
        match event {
            AgentEvent::RuntimeState { idle } => {
                self.turn_running = !*idle;
                if !*idle || !self.background_tasks.is_empty() {
                    self.mark_busy(now);
                } else if self.status != RuntimeStatus::Attention {
                    self.status = RuntimeStatus::Idle;
                    self.started_at = None;
                }
            },
            AgentEvent::UserMessage { .. } => {
                self.turn_running = true;
                self.status = RuntimeStatus::Running;
                self.started_at = Some(now);
            },
            AgentEvent::ToolCallStart { id, .. } => {
                self.running_tools.insert(id.clone());
                self.mark_busy(now);
            },
            AgentEvent::ToolCallResult { id, .. } => {
                self.running_tools.remove(id.as_str());
                self.rest_if_quiet();
            },
            AgentEvent::SubagentUpdate { task } => {
                if text::same_text(task.status.as_str(), "running") {
                    self.background_tasks.insert(task.task_id.clone());
                    self.mark_busy(now);
                } else {
                    self.background_tasks.remove(task.task_id.as_str());
                    if in_task_trouble(task.status.as_str()) {
                        self.status = RuntimeStatus::Attention;
                    } else {
                        self.rest_if_quiet();
                    }
                }
            },
            AgentEvent::WorkflowUpdate { workflow } => {
                let key: String = text::joined("workflow:", workflow.run_id.as_str());
                if text::same_text(workflow.status.as_str(), "running") || text::same_text(
                    workflow.status.as_str(),
                    "pending",
                ) {
                    self.background_tasks.insert(key);
                    self.mark_busy(now);
                } else {
                    self.background_tasks.remove(key.as_str());
                    if in_workflow_trouble(workflow.status.as_str()) {
                        self.status = RuntimeStatus::Attention;
                    } else {
                        self.rest_if_quiet();
                    }
                }
            },
            AgentEvent::TurnComplete { .. } => {
                self.turn_running = false;
                self.rest_if_quiet();
            },
            AgentEvent::PermissionRequest { .. } => {
                self.status = RuntimeStatus::Attention;
            },
            AgentEvent::Error { .. } => {
                self.status = RuntimeStatus::Attention;
            },
            _ => {},
        }
        self.status != status || !same_time(self.started_at, started)
    }

    /// Adds an event to the history and folds it into the activity.
    pub fn receive(&mut self, event: AgentEvent, now: u64) -> (r: bool)
        requires
            old(self).wf(),
        ensures
            final(self).wf(),
            final(self).activity() == observed(old(self).activity(), event, now),
            final(self).history@ == remembered(old(self).history@, event),
            final(self).id == old(self).id,
            final(self).path == old(self).path,
            r == (final(self).status != old(self).status || final(self).started_at
                != old(self).started_at),
    {
        if self.history.len() >= MAX_REPLAY_EVENTS {
            let rest: Vec<AgentEvent> = self.history.split_off(REPLAY_TRIM);
            self.history = rest;
        }
        let r: bool = self.observe(&event, now);
        self.history.push(event);
        r
    }

    /// Adds an event of the client itself; such events are never dropped.
    pub fn record(&mut self, event: AgentEvent, now: u64) -> (r: bool)
        requires
            old(self).wf(),
        ensures
            final(self).wf(),
            final(self).activity() == observed(old(self).activity(), event, now),
            final(self).history@ == old(self).history@.push(event),
            final(self).id == old(self).id,
            final(self).path == old(self).path,
            r == (final(self).status != old(self).status || final(self).started_at
                != old(self).started_at),
    {
        let r: bool = self.observe(&event, now);
        self.history.push(event);
        r
    }

    /// Turns what a replayed history left into a resumed baseline: nothing is under way,
    /// and attention is asked for by what the history holds, whatever status the replay
    /// left. A failed task and a persisted error show even where a turn was completed
    /// after them.
    pub fn settle_after_resume(&mut self)
        requires
            old(self).wf(),
        ensures
            final(self).wf(),
            final(self).same_session(*old(self)),
            final(self).activity() == (Activity {
                status: if needs_attention(old(self).history@) {
                    RuntimeStatus::Attention
                } else {
                    RuntimeStatus::Idle
                },
                started: None,
                turn: false,
                tools: Set::empty(),
                background: Set::empty(),
            }),
    {
        self.turn_running = false;
        self.running_tools.clear();
        self.background_tasks.clear();
        self.started_at = None;
        self.status = if attention_needed(&self.history) {
            RuntimeStatus::Attention
        } else {
            RuntimeStatus::Idle
        };
    }

    /// Forgets all work under way, as after a stop.
    pub fn stop(&mut self)
        requires
            old(self).wf(),
        ensures
            final(self).wf(),
            final(self).same_session(*old(self)),
            final(self).activity() == (Activity {
                status: RuntimeStatus::Idle,
                started: None,
                turn: false,
                tools: Set::empty(),
                background: Set::empty(),
            }),
    {
        self.status = RuntimeStatus::Idle;
        self.turn_running = false;
        self.started_at = None;
        self.running_tools.clear();
        self.background_tasks.clear();
    }

    /// Marks that a turn was started.
    pub fn mark_running(&mut self, now: u64)
        requires
            old(self).wf(),
        ensures
            final(self).wf(),
            final(self).same_session(*old(self)),
            final(self).activity() == (Activity { turn: true, ..old(self).activity() }).busy_since(
                now,
            ),
    {
        self.turn_running = true;
        self.mark_busy(now);
    }
}

fn same_time(a: Option<u64>, b: Option<u64>) -> (r: bool)
    ensures
        r == (a == b),
{
    match (a, b) {
        (Some(x), Some(y)) => x == y,
        (None, None) => true,
        _ => false,
    }
}

fn reports_later(history: &Vec<AgentEvent>, from: usize, task: bool, id: &str) -> (r: bool)
    requires
        from <= history@.len(),
    ensures
        r == exists|j: int|
            from <= j < history@.len() && (if task {
                task_of(#[trigger] history@[j])
            } else {
                run_of(history@[j])
            }) == Some(id@),
{
    let mut j: usize = from;
    while j < history.len()
        invariant
            from <= j <= history.len(),
            forall|m: int|
                from <= m < j ==> (if task {
                    task_of(#[trigger] history@[m])
                } else {
                    run_of(history@[m])
                }) != Some(id@),
        decreases history.len() - j,
    {
        let hit: bool = match &history[j] {
            AgentEvent::SubagentUpdate { task: t } => task && text::same_text(
                t.task_id.as_str(),
                id,
            ),
            AgentEvent::WorkflowUpdate { workflow } => !task && text::same_text(
                workflow.run_id.as_str(),
                id,
            ),
            _ => false,
        };
        if hit {
            assert((if task {
                task_of(history@[j as int])
            } else {
                run_of(history@[j as int])
            }) == Some(id@));
            return true;
        }
        j += 1;
    }
    false
}

/// Whether a resumed history holds an error, or a task or a run that is left in trouble.
fn attention_needed(history: &Vec<AgentEvent>) -> (r: bool)
    ensures
        r == needs_attention(history@),
{
    let mut i: usize = history.len();
    while i > 0
        invariant
            i <= history.len(),
            forall|j: int|
                #![trigger history@[j]]
                i <= j < history@.len() ==> !persisted_error(history@, j) && !troubled_task(
                    history@,
                    j,
                ) && !troubled_run(history@, j),
        decreases i,
    {
        i -= 1;
        let found: bool = match &history[i] {
            AgentEvent::Error { .. } => true,
            AgentEvent::SubagentUpdate { task } => in_task_trouble(task.status.as_str())
                && !reports_later(history, i + 1, true, task.task_id.as_str()),
            AgentEvent::WorkflowUpdate { workflow } => in_workflow_trouble(
                workflow.status.as_str(),
            ) && !reports_later(history, i + 1, false, workflow.run_id.as_str()),
            _ => false,
        };
        if found {
            proof {
                assert(persisted_error(history@, i as int) || troubled_task(
                    history@,
                    i as int,
                ) || troubled_run(history@, i as int));
            }
            return true;
        }
        proof {
            assert(!persisted_error(history@, i as int));
            assert(!troubled_task(history@, i as int));
            assert(!troubled_run(history@, i as int));
        }
    }
    false
}

/// Every event keeps the timer right.
pub proof fn observing_keeps_the_timer(a: Activity, event: AgentEvent, now: u64)
    requires
        a.timed(),
    ensures
        observed(a, event, now).timed(),
{
}

/// While background work is under way, the end of a turn changes neither status nor timer.
pub proof fn background_work_outlives_the_turn(
    a: Activity,
    usage: crate::harness::Usage,
    reason: String,
    now: u64,
)
    requires
        a.background != Set::<Seq<char>>::empty(),
    ensures
        ({
            let b = observed(a, AgentEvent::TurnComplete { usage, stop_reason: reason }, now);
            b.status == a.status && b.started == a.started && b.background == a.background
        }),
{
}

/// Streamed text never changes the activity.
pub proof fn deltas_change_nothing(a: Activity, delta: String, now: u64)
    ensures
        observed(a, AgentEvent::TextDelta { text: delta }, now) == a,
        observed(a, AgentEvent::ReasoningDelta { text: delta }, now) == a,
{
}

/// The history never grows past its limit, and the channel of the supervisor holds a whole
/// replay and 1,024 live events besides.
pub proof fn history_is_bounded(history: Seq<AgentEvent>, event: AgentEvent)
    requires
        history.len() <= MAX_REPLAY_EVENTS,
    ensures
        remembered(history, event).len() <= MAX_REPLAY_EVENTS,
        remembered(history, event).last() == event,
        remembered(history, event).len() + 1_024 <= EVENT_CHANNEL_CAPACITY,
{
}

/// Whether a host call is for the workflow coordinator.
pub open spec fn for_workflows(name: Seq<char>) -> bool {
    text::begins_with(name, "workflow_"@) || name == "artifact_read"@
}

/// Whether a host call is for the workflow coordinator; the others are for the task one.
pub fn routes_to_workflows(name: &str) -> (r: bool)
    ensures
        r == for_workflows(name@),
{
    text::starts_with(name, "workflow_") || text::same_text(name, "artifact_read")
}

/// The address that a sign-in request wants opened in a browser.
pub fn browser_oauth_url(event: &AgentEvent) -> (r: Option<String>)
    ensures
        r == (match *event {
            AgentEvent::OauthRequest { kind, url, .. } => if kind@ == "auth"@ {
                url
            } else {
                None
            },
            _ => None,
        }),
{
    match event {
        AgentEvent::OauthRequest { kind, url, .. } => if text::same_text(kind.as_str(), "auth") {
            text::copy_option(url)
        } else {
            None
        },
        _ => None,
    }
}

/// Why a request to the supervisor is refused.
#[derive(Clone, Debug)]
pub enum SupervisorError {
    NoActive,
    Disappeared,
    NotResident { name: String },
}

impl SupervisorError {
    /// The refusal in words.
    pub open spec fn text(self) -> Seq<char> {
        match self {
            SupervisorError::NoActive => "no active resident session"@,
            SupervisorError::Disappeared => "active resident session disappeared"@,
            SupervisorError::NotResident { name } => "session is not resident: "@ + name@,
        }
    }

    /// The refusal in words.
    pub fn message(&self) -> (r: String)
        ensures
            r@ == self.text(),
    {
        match self {
            SupervisorError::NoActive => "no active resident session".to_owned(),
            SupervisorError::Disappeared => "active resident session disappeared".to_owned(),
            SupervisorError::NotResident { name } => text::joined(
                "session is not resident: ",
                name.as_str(),
            ),
        }
    }
}

/// Whether the resident at `i` is stored at `path`.
pub open spec fn resident_at(residents: Seq<Resident>, path: Seq<char>, i: int) -> bool {
    0 <= i < residents.len() && residents[i].path@ == path
}

/// Where the resident stored at `path` is, if it is resident.
pub open spec fn lookup(residents: Seq<Resident>, path: Seq<char>) -> Option<int> {
    if exists|i: int| resident_at(residents, path, i) {
        Some(choose|i: int| resident_at(residents, path, i))
    } else {
        None
    }
}

/// Whether `i` is the first resident with the session `id`.
pub open spec fn first_with_id(residents: Seq<Resident>, id: Seq<char>, i: int) -> bool {
    &&& 0 <= i < residents.len()
    &&& residents[i].id@ == id
    &&& forall|j: int| 0 <= j < i ==> (#[trigger] residents[j]).id@ != id
}

/// How a resident is listed.
pub open spec fn listed(resident: Resident, info: RuntimeSessionInfo) -> bool {
    &&& info.path == resident.path
    &&& info.status@ == resident.status.wire_name()
    &&& info.started_at_ms == resident.started_at
}

/// The session in front, if its resident is there.
pub open spec fn active_id(s: SessionSupervisor) -> Option<SessionId> {
    match s.active_path {
        Some(path) => match lookup(s.residents@, path@) {
            Some(i) => Some(s.residents@[i].id),
            None => None,
        },
        None => None,
    }
}

/// What to do with an event of a resident session.
#[derive(Clone, Debug)]
pub enum Forward {
    /// A host call from a replayed history is not answered again.
    Skip,
    /// Answer a host call.
    Call { to_workflows: bool },
    /// Send the event on, with these side effects.
    Deliver { open_url: Option<String>, list_models: bool, refresh: bool },
}

/// The resident sessions of the process.
#[derive(Clone, Debug)]
pub struct SessionSupervisor {
    pub residents: Vec<Resident>,
    pub active_path: Option<String>,
    pub project_trusted: bool,
}

impl SessionSupervisor {
    /// No path occurs twice, and the residents' sets list nothing twice.
    pub open spec fn wf(&self) -> bool {
        &&& forall|i: int, j: int|
            0 <= i < j < self.residents@.len() ==> (#[trigger] self.residents@[i]).path@ != (
            #[trigger] self.residents@[j]).path@
        &&& forall|i: int|
            0 <= i < self.residents@.len() ==> (#[trigger] self.residents@[i]).wf()
    }

    /// A supervisor without residents.
    pub fn new() -> (r: SessionSupervisor)
        ensures
            r.wf(),
            r.residents@.len() == 0,
            r.active_path is None,
            !r.project_trusted,
    {
        SessionSupervisor { residents: Vec::new(), active_path: None, project_trusted: false }
    }

    /// Where the resident stored at `path` is.
    pub fn find(&self, path: &str) -> (r: Option<usize>)
        requires
            self.wf(),
        ensures
            match r {
                Some(i) => lookup(self.residents@, path@) == Some(i as int) && resident_at(
                    self.residents@,
                    path@,
                    i as int,
                ),
                None => lookup(self.residents@, path@) is None,
            },
    {
        let mut i: usize = 0;
        while i < self.residents.len()
            invariant
                self.wf(),
                i <= self.residents.len(),
                forall|j: int| 0 <= j < i ==> !resident_at(self.residents@, path@, j),
            decreases self.residents.len() - i,
        {
            if text::same_text(self.residents[i].path.as_str(), path) {
                assert(resident_at(self.residents@, path@, i as int));
                return Some(i);
            }
            i += 1;
        }
        None
    }

    /// Makes a session resident, in front, with an empty history.
    pub fn adopt(&mut self, path: String, id: SessionId)
        requires
            old(self).wf(),
        ensures
            final(self).wf(),
            final(self).project_trusted == old(self).project_trusted,
            final(self).active_path matches Some(p) && p@ == path@,
            ({
                let at = match lookup(old(self).residents@, path@) {
                    Some(i) => i,
                    None => old(self).residents@.len() as int,
                };
                let added = final(self).residents@[at];
                &&& final(self).residents@ == (if at < old(self).residents@.len() {
                    old(self).residents@.update(at, added)
                } else {
                    old(self).residents@.push(added)
                })
                &&& added.id == id
                &&& added.path@ == path@
                &&& added.history@.len() == 0
                &&& added.activity() == (Activity {
                    status: RuntimeStatus::Idle,
                    started: None,
                    turn: false,
                    tools: Set::empty(),
                    background: Set::empty(),
                })
            }),
    {
        let resident = Resident::new(id, path.clone());
        match self.find(path.as_str()) {
            Some(i) => {
                self.residents.set(i, resident);
            },
            None => {
                assert forall|i: int| 0 <= i < self.residents@.len() implies (
                #[trigger] self.residents@[i]).path@ != path@ by {
                    assert(!resident_at(self.residents@, path@, i));
                }
                self.residents.push(resident);
            },
        }
        self.active_path = Some(path);
    }

    /// Brings a resident to the front; returns where it is, `None` if it must be opened.
    pub fn activate(&mut self, path: String) -> (r: Option<usize>)
        requires
            old(self).wf(),
        ensures
            final(self).wf(),
            final(self).residents == old(self).residents,
            final(self).project_trusted == old(self).project_trusted,
            match lookup(old(self).residents@, path@) {
                Some(i) => (r matches Some(x) && x as int == i) && final(self).active_path == Some(
                    path,
                ),
                None => r is None && final(self).active_path == old(self).active_path,
            },
    {
        match self.find(path.as_str()) {
            Some(i) => {
                self.active_path = Some(path);
                Some(i)
            },
            None => None,
        }
    }

    /// The session in front.
    pub fn active_session(&self) -> (r: Result<SessionId, SupervisorError>)
        requires
            self.wf(),
        ensures
            match r {
                Ok(id) => active_id(*self) == Some(id),
                Err(SupervisorError::NoActive) => self.active_path is None,
                Err(SupervisorError::Disappeared) => self.active_path is Some && active_id(
                    *self,
                ) is None,
                Err(_) => false,
            },
    {
        match &self.active_path {
            None => Err(SupervisorError::NoActive),
            Some(path) => match self.find(path.as_str()) {
                Some(i) => Ok(self.residents[i].id.copy()),
                None => Err(SupervisorError::Disappeared),
            },
        }
    }

    /// The tag for events that concern no session in particular.
    pub fn host_tag(&self) -> (r: SessionId)
        requires
            self.wf(),
        ensures
            match active_id(*self) {
                Some(id) => r == id,
                None => r@.len() == 0,
            },
    {
        match self.active_session() {
            Ok(id) => id,
            Err(_) => SessionId(String::new()),
        }
    }

    /// Whether an event reaches the client's screen: those of the session in front, and
    /// every list of residents.
    pub fn in_foreground(&self, message: &TaggedEvent) -> (r: bool)
        requires
            self.wf(),
        ensures
            r == (message.event is RuntimeSessions || (active_id(*self) matches Some(id) && id@
                == message.session_id@)),
    {
        match &message.event {
            AgentEvent::RuntimeSessions { .. } => {
                return true;
            },
            _ => {},
        }
        match self.active_session() {
            Ok(id) => id.same(&message.session_id),
            Err(_) => false,
        }
    }

    /// Marks that a turn of the session `id` was started.
    pub fn mark_running(&mut self, id: &SessionId, now: u64)
        requires
            old(self).wf(),
        ensures
            final(self).wf(),
            final(self).active_path == old(self).active_path,
            final(self).project_trusted == old(self).project_trusted,
            (forall|i: int| !first_with_id(old(self).residents@, id@, i)) ==> *final(self)
                == *old(self),
            forall|i: int| #[trigger]
                first_with_id(old(self).residents@, id@, i) ==> {
                    let before = old(self).residents@[i];
                    let after = final(self).residents@[i];
                    &&& final(self).residents@ == old(self).residents@.update(i, after)
                    &&& after.same_session(before)
                    &&& after.activity() == (Activity {
                        turn: true,
                        ..before.activity()
                    }).busy_since(now)
                },
    {
        let mut i: usize = 0;
        while i < self.residents.len()
            invariant
                *self == *old(self),
                old(self).wf(),
                i <= self.residents.len(),
                forall|j: int| 0 <= j < i ==> (#[trigger] self.residents@[j]).id@ != id@,
            decreases self.residents.len() - i,
        {
            if self.residents[i].id.same(id) {
                self.residents[i].mark_running(now);
                proof {
                    assert(self.residents@ =~= old(self).residents@.update(
                        i as int,
                        self.residents@[i as int],
                    ));
                    assert(first_with_id(old(self).residents@, id@, i as int));
                    assert forall|k: int|
                        first_with_id(old(self).residents@, id@, k) implies k == i by {
                        if k < i {
                        } else if i < k {
                            assert(old(self).residents@[i as int].id@ != id@);
                        }
                    }
                }
                return;
            }
            i += 1;
        }
    }

    /// The path of the resident with the session `owner`.
    pub fn path_of(&self, owner: &SessionId) -> (r: Result<String, SupervisorError>)
        ensures
            match r {
                Ok(path) => exists|i: int| #[trigger]
                    first_with_id(self.residents@, owner@, i) && self.residents@[i].path == path,
                Err(error) => {
                    &&& error matches SupervisorError::NotResident { name }
                    &&& name == owner.0
                    &&& forall|i: int| !first_with_id(self.residents@, owner@, i)
                },
            },
    {
        let mut i: usize = 0;
        while i < self.residents.len()
            invariant
                i <= self.residents.len(),
                forall|j: int| 0 <= j < i ==> (#[trigger] self.residents@[j]).id@ != owner@,
            decreases self.residents.len() - i,
        {
            if self.residents[i].id.same(owner) {
                assert(first_with_id(self.residents@, owner@, i as int));
                return Ok(self.residents[i].path.clone());
            }
            i += 1;
        }
        Err(SupervisorError::NotResident { name: owner.0.clone() })
    }

    /// Forgets all work of the resident at `path`, after its session was stopped.
    pub fn stop(&mut self, path: &str) -> (r: Result<(), SupervisorError>)
        requires
            old(self).wf(),
        ensures
            final(self).wf(),
            match lookup(old(self).residents@, path@) {
                None => *final(self) == *old(self) && (r matches Err(
                    SupervisorError::NotResident { name },
                ) && name@ == path@),
                Some(i) => {
                    let after = final(self).residents@[i];
                    &&& r is Ok
                    &&& *final(self) == (SessionSupervisor {
                        residents: final(self).residents,
                        ..*old(self)
                    })
                    &&& final(self).residents@ == old(self).residents@.update(i, after)
                    &&& after.same_session(old(self).residents@[i])
                    &&& after.activity() == (Activity {
                        status: RuntimeStatus::Idle,
                        started: None,
                        turn: false,
                        tools: Set::empty(),
                        background: Set::empty(),
                    })
                },
            },
    {
        match self.find(path) {
            None => Err(SupervisorError::NotResident { name: path.to_owned() }),
            Some(i) => {
                self.residents[i].stop();
                assert(self.residents@ =~= old(self).residents@.update(
                    i as int,
                    self.residents@[i as int],
                ));
                Ok(())
            },
        }
    }

    /// Removes the resident at `path`. If it was in front, another resident takes its
    /// place, if there is one.
    pub fn close(&mut self, path: &str) -> (r: Result<(), SupervisorError>)
        requires
            old(self).wf(),
        ensures
            final(self).wf(),
            final(self).project_trusted == old(self).project_trusted,
            match lookup(old(self).residents@, path@) {
                None => *final(self) == *old(self) && (r matches Err(
                    SupervisorError::NotResident { name },
                ) && name@ == path@),
                Some(i) => {
                    &&& r is Ok
                    &&& final(self).residents@ == old(self).residents@.remove(i)
                    &&& if (old(self).active_path matches Some(p) && p@ == path@) {
                        if final(self).residents@.len() == 0 {
                            final(self).active_path is None
                        } else {
                            final(self).active_path == Some(final(self).residents@[0].path)
                        }
                    } else {
                        final(self).active_path == old(self).active_path
                    }
                },
            },
    {
        match self.find(path) {
            None => Err(SupervisorError::NotResident { name: path.to_owned() }),
            Some(i) => {
                let _closed: Resident = self.residents.remove(i);
                assert(self.residents@ =~= old(self).residents@.remove(i as int));
                let in_front: bool = match &self.active_path {
                    Some(p) => text::same_text(p.as_str(), path),
                    None => false,
                };
                if in_front {
                    self.active_path = if self.residents.len() == 0 {
                        None
                    } else {
                        Some(self.residents[0].path.clone())
                    };
                }
                proof {
                    let before = old(self).residents@;
                    let after = self.residents@;
                    assert forall|a: int, b: int| 0 <= a < b < after.len() implies (
                    #[trigger] after[a]).path@ != (#[trigger] after[b]).path@ by {
                        let x = if a < i {
                            a
                        } else {
                            a + 1
                        };
                        let y = if b < i {
                            b
                        } else {
                            b + 1
                        };
                        assert(before[x].path@ != before[y].path@);
                    }
                    assert forall|a: int| 0 <= a < after.len() implies (
                    #[trigger] after[a]).wf() by {
                        let x = if a < i {
                            a
                        } else {
                            a + 1
                        };
                        assert(before[x].wf());
                    }
                }
                Ok(())
            },
        }
    }

    /// How the residents are listed.
    pub fn runtime_infos(&self) -> (r: Vec<RuntimeSessionInfo>)
        ensures
            r@.len() == self.residents@.len(),
            forall|i: int| 0 <= i < r@.len() ==> listed(self.residents@[i], #[trigger] r@[i]),
    {
        let mut out: Vec<RuntimeSessionInfo> = Vec::new();
        let mut i: usize = 0;
        while i < self.residents.len()
            invariant
                i <= self.residents.len(),
                out@.len() == i,
                forall|j: int| 0 <= j < i ==> listed(self.residents@[j], #[trigger] out@[j]),
            decreases self.residents.len() - i,
        {
            let resident: &Resident = &self.residents[i];
            out.push(
                RuntimeSessionInfo {
                    path: resident.path.clone(),
                    status: resident.status.label(),
                    started_at_ms: resident.started_at,
                },
            );
            i += 1;
        }
        out
    }

    /// The residents with their sessions.
    pub fn snapshots(&self) -> (r: Vec<ResidentSnapshot>)
        ensures
            r@.len() == self.residents@.len(),
            forall|i: int|
                0 <= i < r@.len() ==> #[trigger] r@[i] == (ResidentSnapshot {
                    session_id: self.residents@[i].id,
                    path: self.residents@[i].path,
                    status: self.residents@[i].status,
                    started_at: self.residents@[i].started_at,
                }),
    {
        let mut out: Vec<ResidentSnapshot> = Vec::new();
        let mut i: usize = 0;
        while i < self.residents.len()
            invariant
                i <= self.residents.len(),
                out@.len() == i,
                forall|j: int|
                    0 <= j < i ==> #[trigger] out@[j] == (ResidentSnapshot {
                        session_id: self.residents@[j].id,
                        path: self.residents@[j].path,
                        status: self.residents@[j].status,
                        started_at: self.residents@[j].started_at,
                    }),
            decreases self.residents.len() - i,
        {
            let resident: &Resident = &self.residents[i];
            out.push(
                ResidentSnapshot {
                    session_id: resident.id.copy(),
                    path: resident.path.clone(),
                    status: resident.status,
                    started_at: resident.started_at,
                },
            );
            i += 1;
        }
        out
    }

    /// Takes in one event of the session resident at `path`. Events of a history that is
    /// being replayed neither start calls nor refresh the list of residents one by one.
    pub fn forward(&mut self, path: &str, event: AgentEvent, replaying: bool, now: u64) -> (r:
        Forward)
        requires
            old(self).wf(),
        ensures
            final(self).wf(),
            *final(self) == (SessionSupervisor { residents: final(self).residents, ..*old(self) }),
            match event {
                AgentEvent::HostCall { name, .. } => {
                    &&& *final(self) == *old(self)
                    &&& r == (if replaying {
                        Forward::Skip
                    } else {
                        Forward::Call { to_workflows: for_workflows(name@) }
                    })
                },
                _ => {
                    &&& r matches Forward::Deliver { open_url, list_models, refresh }
                    &&& open_url == (match event {
                        AgentEvent::OauthRequest { kind, url, .. } => if kind@ == "auth"@ {
                            url
                        } else {
                            None
                        },
                        _ => None,
                    })
                    &&& list_models == (event is OauthComplete)
                    &&& match lookup(old(self).residents@, path@) {
                        None => *final(self) == *old(self) && !refresh,
                        Some(i) => {
                            let before = old(self).residents@[i];
                            let after = final(self).residents@[i];
                            &&& final(self).residents@ == old(self).residents@.update(i, after)
                            &&& after.id == before.id
                            &&& after.path == before.path
                            &&& after.history@ == remembered(before.history@, event)
                            &&& after.activity() == observed(before.activity(), event, now)
                            &&& refresh == (!replaying && (after.status != before.status
                                || after.started_at != before.started_at))
                        },
                    }
                },
            },
    {
        match &event {
            AgentEvent::HostCall { name, .. } => {
                return if replaying {
                    Forward::Skip
                } else {
                    Forward::Call { to_workflows: routes_to_workflows(name.as_str()) }
                };
            },
            _ => {},
        }
        let open_url: Option<String> = browser_oauth_url(&event);
        let list_models: bool = match &event {
            AgentEvent::OauthComplete { .. } => true,
            _ => false,
        };
        let changed: bool = match self.find(path) {
            Some(i) => {
                let changed: bool = self.residents[i].receive(event, now);
                assert(self.residents@ =~= old(self).residents@.update(
                    i as int,
                    self.residents@[i as int],
                ));
                changed
            },
            None => false,
        };
        Forward::Deliver { open_url, list_models, refresh: changed && !replaying }
    }

    /// Takes in an event of the client's own coordinators for the session stored at
    /// `owner_path`; returns whether the list of residents has to be refreshed.
    pub fn host_event(&mut self, owner_path: &str, event: AgentEvent, now: u64) -> (r: bool)
        requires
            old(self).wf(),
        ensures
            final(self).wf(),
            *final(self) == (SessionSupervisor { residents: final(self).residents, ..*old(self) }),
            match lookup(old(self).residents@, owner_path@) {
                None => *final(self) == *old(self) && !r,
                Some(i) => {
                    let before = old(self).residents@[i];
                    let after = final(self).residents@[i];
                    &&& final(self).residents@ == old(self).residents@.update(i, after)
                    &&& after.id == before.id
                    &&& after.path == before.path
                    &&& after.history@ == before.history@.push(event)
                    &&& after.activity() == observed(before.activity(), event, now)
                    &&& r == (after.status != before.status || after.started_at
                        != before.started_at)
                },
            },
    {
        match self.find(owner_path) {
            Some(i) => {
                let changed: bool = self.residents[i].record(event, now);
                assert(self.residents@ =~= old(self).residents@.update(
                    i as int,
                    self.residents@[i as int],
                ));
                changed
            },
            None => false,
        }
    }

    /// Ends the replay of the history of the session resident at `path`.
    pub fn settle(&mut self, path: &str)
        requires
            old(self).wf(),
        ensures
            final(self).wf(),
            *final(self) == (SessionSupervisor { residents: final(self).residents, ..*old(self) }),
            match lookup(old(self).residents@, path@) {
                None => *final(self) == *old(self),
                Some(i) => {
                    let after = final(self).residents@[i];
                    &&& final(self).residents@ == old(self).residents@.update(i, after)
                    &&& after.same_session(old(self).residents@[i])
                    &&& after.activity() == (Activity {
                        status: if needs_attention(old(self).residents@[i].history@) {
                            RuntimeStatus::Attention
                        } else {
                            RuntimeStatus::Idle
                        },
                        started: None,
                        turn: false,
                        tools: Set::empty(),
                        background: Set::empty(),
                    })
                },
            },
    {
        match self.find(path) {
            Some(i) => {
                self.residents[i].settle_after_resume();
                assert(self.residents@ =~= old(self).residents@.update(
                    i as int,
                    self.residents@[i as int],
                ));
            },
            None => {},
        }
    }
}

/// The event that a task notice stands for, with the owner's session and path.
pub fn task_notice_event(notice: TaskNotice, now: u64) -> (r: (SessionId, String, AgentEvent))
    ensures
        match notice {
            TaskNotice::Update(snapshot) => {
                &&& r.0 == snapshot.owner
                &&& r.1 == snapshot.owner_path
                &&& r.2 matches AgentEvent::SubagentUpdate { task }
                &&& task::shows_task(snapshot, now, *task)
            },
            TaskNotice::Event { owner, owner_path, event } => r == (owner, owner_path, event),
        },
{
    match notice {
        TaskNotice::Update(snapshot) => {
            let task = snapshot.as_agent_task(now);
            (
                snapshot.owner,
                snapshot.owner_path,
                AgentEvent::SubagentUpdate { task: Box::new(task) },
            )
        },
        TaskNotice::Event { owner, owner_path, event } => (owner, owner_path, event),
    }
}

/// The event that a workflow notice stands for, with the owner's session and path.
pub fn workflow_notice_event(notice: WorkflowNotice) -> (r: (SessionId, String, AgentEvent))
    ensures
        match notice {
            WorkflowNotice::Update { owner, owner_path, snapshot } => r == (
                owner,
                owner_path,
                AgentEvent::WorkflowUpdate { workflow: Box::new(snapshot) },
            ),
            WorkflowNotice::Artifact { owner, owner_path, artifact } => r == (
                owner,
                owner_path,
                AgentEvent::WorkflowArtifact { artifact: Box::new(artifact) },
            ),
        },
{
    match notice {
        WorkflowNotice::Update { owner, owner_path, snapshot } => (
            owner,
            owner_path,
            AgentEvent::WorkflowUpdate { workflow: Box::new(snapshot) },
        ),
        WorkflowNotice::Artifact { owner, owner_path, artifact } => (
            owner,
            owner_path,
            AgentEvent::WorkflowArtifact { artifact: Box::new(artifact) },
        ),
    }
}

/// A question to the user and an error ask for attention, whatever went on before, and end
/// nothing that is under way.
pub proof fn questions_and_errors_need_attention(a: Activity, event: AgentEvent, now: u64)
    requires
        event is PermissionRequest || event is Error,
    ensures
        ({
            let b = observed(a, event, now);
            &&& b.status is Attention
            &&& b.started == a.started
            &&& b.turn == a.turn
            &&& b.tools == a.tools
            &&& b.background == a.background
        }),
{
}

/// A task that failed or was interrupted asks for attention; one that was completed or
/// cancelled does not.
pub proof fn lost_tasks_need_attention(
    a: Activity,
    task: crate::harness::SubagentTask,
    now: u64,
)
    ensures
        ({
            let b = observed(a, AgentEvent::SubagentUpdate { task: Box::new(task) }, now);
            let status = task.status@;
            &&& status == "failed"@ || status == "interrupted"@ ==> b.status is Attention
            &&& status == "completed"@ || status == "cancelled"@ ==> b.status == a.status
                || b.status is Idle
            &&& status == "running"@ ==> b.status is Running && b.started is Some
            &&& status == "running"@ <==> b.background.contains(task.task_id@)
            &&& forall|id: Seq<char>|
                id != task.task_id@ ==> (#[trigger] b.background.contains(id)
                    == a.background.contains(id))
            &&& b.tools == a.tools
            &&& b.turn == a.turn
        }),
{
    reveal_strlit("failed");
    reveal_strlit("interrupted");
    reveal_strlit("completed");
    reveal_strlit("cancelled");
    reveal_strlit("running");
    assert("failed"@.len() == 6);
    assert("interrupted"@.len() == 11);
    assert("completed"@.len() == 9);
    assert("cancelled"@.len() == 9);
    assert("running"@.len() == 7);
    assert("completed"@[1] == 'o');
    assert("cancelled"@[1] == 'a');
}

/// A workflow that failed, was interrupted or waits for an approval asks for attention; one
/// that goes on runs.
pub proof fn stopped_workflows_need_attention(
    a: Activity,
    workflow: crate::harness::WorkflowRunSnapshot,
    now: u64,
)
    ensures
        ({
            let b = observed(a, AgentEvent::WorkflowUpdate { workflow: Box::new(workflow) }, now);
            let status = workflow.status@;
            let key = "workflow:"@ + workflow.run_id@;
            &&& status == "failed"@ || status == "interrupted"@ || status == "paused"@
                ==> b.status is Attention
            &&& status == "completed"@ || status == "cancelled"@ ==> b.status == a.status
                || b.status is Idle
            &&& status == "running"@ || status == "pending"@ ==> b.status is Running
                && b.started is Some
            &&& (status == "running"@ || status == "pending"@) <==> b.background.contains(key)
            &&& forall|id: Seq<char>|
                id != key ==> (#[trigger] b.background.contains(id) == a.background.contains(id))
            &&& b.tools == a.tools
            &&& b.turn == a.turn
        }),
{
    reveal_strlit("failed");
    reveal_strlit("interrupted");
    reveal_strlit("paused");
    reveal_strlit("completed");
    reveal_strlit("cancelled");
    reveal_strlit("running");
    reveal_strlit("pending");
    assert("failed"@.len() == 6);
    assert("interrupted"@.len() == 11);
    assert("paused"@.len() == 6);
    assert("completed"@.len() == 9);
    assert("cancelled"@.len() == 9);
    assert("running"@.len() == 7);
    assert("pending"@.len() == 7);
    assert("failed"@[0] == 'f');
    assert("paused"@[0] == 'p');
    assert("completed"@[1] == 'o');
    assert("cancelled"@[1] == 'a');
    assert("running"@[0] == 'r');
    assert("pending"@[0] == 'p');
}

/// A message of the user, a started tool call and a session that is not idle run. A message
/// starts the timer anew, the others leave it as it is where it runs.
pub proof fn work_runs(a: Activity, event: AgentEvent, now: u64)
    requires
        event is UserMessage || event is ToolCallStart || event == (AgentEvent::RuntimeState {
            idle: false,
        }),
    ensures
        ({
            let b = observed(a, event, now);
            &&& b.status is Running
            &&& b.started == (if event is UserMessage || a.started is None {
                Some(now)
            } else {
                a.started
            })
            &&& b.turn == (a.turn || !(event is ToolCallStart))
            &&& b.background == a.background
        }),
{
}

/// A tool runs from its start to its result, and nothing else changes which tools run.
pub proof fn tools_run_until_their_result(a: Activity, event: AgentEvent, now: u64, id: Seq<char>)
    ensures
        observed(a, event, now).tools.contains(id) == (match event {
            AgentEvent::ToolCallStart { id: started, .. } => a.tools.contains(id) || started@ == id,
            AgentEvent::ToolCallResult { id: ended, .. } => a.tools.contains(id) && ended@ != id,
            _ => a.tools.contains(id),
        }),
{
}

/// A turn that is over, and a tool that was the last, leave a session idle where nothing else
/// is under way, and only there.
pub proof fn sessions_rest_when_all_is_done(a: Activity, event: AgentEvent, now: u64)
    requires
        event is TurnComplete || event is ToolCallResult,
    ensures
        ({
            let b = observed(a, event, now);
            let done = !b.turn && b.tools == Set::<Seq<char>>::empty() && b.background == Set::<
                Seq<char>,
            >::empty();
            &&& event is TurnComplete ==> !b.turn && b.tools == a.tools
            &&& event is ToolCallResult ==> b.turn == a.turn
            &&& b.background == a.background
            &&& done ==> b.status is Idle && b.started is None
            &&& !done ==> b.status == a.status && b.started == a.started
        }),
{
}

/// A session that says it is idle ends its turn. It keeps asking for attention, and it runs
/// on while background work does.
pub proof fn idle_sessions_keep_asking(a: Activity, now: u64)
    ensures
        ({
            let b = observed(a, AgentEvent::RuntimeState { idle: true }, now);
            let works = a.background != Set::<Seq<char>>::empty();
            &&& !b.turn
            &&& works ==> b.status is Running && b.started is Some
            &&& !works && a.status is Attention ==> b.status is Attention && b.started == a.started
            &&& !works && !(a.status is Attention) ==> b.status is Idle && b.started is None
        }),
{
}

/// Other events change nothing of what a session does.
pub proof fn other_events_change_nothing(a: Activity, event: AgentEvent, now: u64)
    requires
        !(event is RuntimeState),
        !(event is UserMessage),
        !(event is ToolCallStart),
        !(event is ToolCallResult),
        !(event is SubagentUpdate),
        !(event is WorkflowUpdate),
        !(event is TurnComplete),
        !(event is PermissionRequest),
        !(event is Error),
    ensures
        observed(a, event, now) == a,
{
}

/// A resumed session asks for attention where its history holds an error.
pub proof fn stored_errors_need_attention(history: Seq<AgentEvent>, i: int)
    requires
        0 <= i < history.len(),
        history[i] is Error,
    ensures
        needs_attention(history),
{
    assert(persisted_error(history, i));
}

/// What became of a task last decides whether a resumed session asks for attention for it.
pub proof fn the_last_word_on_a_task_counts(
    history: Seq<AgentEvent>,
    task: crate::harness::SubagentTask,
)
    requires
        !needs_attention(history),
    ensures
        needs_attention(history.push(AgentEvent::SubagentUpdate { task: Box::new(task) })) <==> (
        task.status@ == "failed"@ || task.status@ == "interrupted"@),
{
    let event = AgentEvent::SubagentUpdate { task: Box::new(task) };
    let all = history.push(event);
    let n = history.len() as int;
    assert(all[n] == event);
    if task.status@ == "failed"@ || task.status@ == "interrupted"@ {
        assert(troubled_task(all, n));
    }
    if needs_attention(all) {
        let i = choose|i: int|
            #![trigger all[i]]
            persisted_error(all, i) || troubled_task(all, i) || troubled_run(all, i);
        assert(persisted_error(all, i) || troubled_task(all, i) || troubled_run(all, i));
        if i < n {
            assert(all[i] == history[i]);
            trouble_was_there(history, event, i);
        }
    }
}

/// What became of a workflow run last decides whether a resumed session asks for attention
/// for it.
pub proof fn the_last_word_on_a_run_counts(
    history: Seq<AgentEvent>,
    workflow: crate::harness::WorkflowRunSnapshot,
)
    requires
        !needs_attention(history),
    ensures
        needs_attention(
            history.push(AgentEvent::WorkflowUpdate { workflow: Box::new(workflow) }),
        ) <==> (workflow.status@ == "failed"@ || workflow.status@ == "interrupted"@
            || workflow.status@ == "paused"@),
{
    let event = AgentEvent::WorkflowUpdate { workflow: Box::new(workflow) };
    let all = history.push(event);
    let n = history.len() as int;
    assert(all[n] == event);
    if workflow.status@ == "failed"@ || workflow.status@ == "interrupted"@ || workflow.status@
        == "paused"@ {
        assert(troubled_run(all, n));
    }
    if needs_attention(all) {
        let i = choose|i: int|
            #![trigger all[i]]
            persisted_error(all, i) || troubled_task(all, i) || troubled_run(all, i);
        assert(persisted_error(all, i) || troubled_task(all, i) || troubled_run(all, i));
        if i < n {
            assert(all[i] == history[i]);
            trouble_was_there(history, event, i);
        }
    }
}

proof fn trouble_was_there(history: Seq<AgentEvent>, event: AgentEvent, i: int)
    requires
        0 <= i < history.len(),
        ({
            let all = history.push(event);
            persisted_error(all, i) || troubled_task(all, i) || troubled_run(all, i)
        }),
    ensures
        needs_attention(history),
{
    let all = history.push(event);
    assert(all[i] == history[i]);
    if troubled_task(all, i) {
        match history[i] {
            AgentEvent::SubagentUpdate { task } => {
                assert forall|j: int| i < j < history.len() implies task_of(#[trigger] history[j])
                    != Some(task.task_id@) by {
                    assert(all[j] == history[j]);
                }
            },
            _ => {},
        }
        assert(troubled_task(history, i));
    } else if troubled_run(all, i) {
        match history[i] {
            AgentEvent::WorkflowUpdate { workflow } => {
                assert forall|j: int| i < j < history.len() implies run_of(#[trigger] history[j])
                    != Some(workflow.run_id@) by {
                    assert(all[j] == history[j]);
                }
            },
            _ => {},
        }
        assert(troubled_run(history, i));
    } else {
        assert(persisted_error(history, i));
    }
}

/// A task that goes on, or ended well, takes its earlier trouble away.
pub proof fn later_news_of_a_task_take_its_trouble_away(
    history: Seq<AgentEvent>,
    first: crate::harness::SubagentTask,
    later: crate::harness::SubagentTask,
)
    requires
        !needs_attention(history),
        later.task_id@ == first.task_id@,
        later.status@ != "failed"@,
        later.status@ != "interrupted"@,
    ensures
        !needs_attention(
            history.push(AgentEvent::SubagentUpdate { task: Box::new(first) }).push(
                AgentEvent::SubagentUpdate { task: Box::new(later) },
            ),
        ),
{
    let one = AgentEvent::SubagentUpdate { task: Box::new(first) };
    let two = AgentEvent::SubagentUpdate { task: Box::new(later) };
    let middle = history.push(one);
    let all = middle.push(two);
    let n = history.len() as int;
    assert(all[n] == one && all[n + 1] == two);
    if needs_attention(all) {
        let i = choose|i: int|
            #![trigger all[i]]
            persisted_error(all, i) || troubled_task(all, i) || troubled_run(all, i);
        assert(persisted_error(all, i) || troubled_task(all, i) || troubled_run(all, i));
        if i < n {
            assert(all[i] == history[i]);
            assert(middle[i] == history[i]);
            if troubled_task(all, i) {
                match history[i] {
                    AgentEvent::SubagentUpdate { task } => {
                        assert forall|j: int| i < j < middle.len() implies task_of(
                            #[trigger] middle[j],
                        ) != Some(task.task_id@) by {
                            assert(all[j] == middle[j]);
                        }
                    },
                    _ => {},
                }
                assert(troubled_task(middle, i));
            } else if troubled_run(all, i) {
                match history[i] {
                    AgentEvent::WorkflowUpdate { workflow } => {
                        assert forall|j: int| i < j < middle.len() implies run_of(
                            #[trigger] middle[j],
                        ) != Some(workflow.run_id@) by {
                            assert(all[j] == middle[j]);
                        }
                    },
                    _ => {},
                }
                assert(troubled_run(middle, i));
            } else {
                assert(persisted_error(middle, i));
            }
            trouble_was_there(history, one, i);
        }
    }
}

/// Where residents are stored at different paths, each is found at its own.
pub proof fn residents_are_found(residents: Seq<Resident>, i: int)
    requires
        0 <= i < residents.len(),
        forall|j: int, k: int|
            0 <= j < k < residents.len() ==> (#[trigger] residents[j]).path@ != (
            #[trigger] residents[k]).path@,
    ensures
        lookup(residents, residents[i].path@) == Some(i),
{
    let path = residents[i].path@;
    assert(resident_at(residents, path, i));
    let k = choose|k: int| resident_at(residents, path, k);
    assert(resident_at(residents, path, k));
    if k < i {
        assert(residents[k].path@ != residents[i].path@);
    } else if i < k {
        assert(residents[i].path@ != residents[k].path@);
    }
}

/// Calls on workflows and their artifacts go to the workflow coordinator, those on tasks do
/// not.
pub proof fn calls_find_their_coordinator(rest: Seq<char>)
    ensures
        for_workflows("workflow_"@ + rest),
        for_workflows("artifact_read"@),
        !for_workflows("task_"@ + rest),
{
    reveal_strlit("workflow_");
    reveal_strlit("artifact_read");
    reveal_strlit("task_");
    let name = "workflow_"@ + rest;
    assert(name.subrange(0, "workflow_"@.len() as int) =~= "workflow_"@);
    let other = "task_"@ + rest;
    assert(other[0] == 't');
    assert("artifact_read"@[0] == 'a');
    if text::begins_with(other, "workflow_"@) {
        assert(other.subrange(0, "workflow_"@.len() as int)[0] == 't');
    }
}

/// The three states are told apart where they are sent.
pub proof fn states_are_sent_apart(a: RuntimeStatus, b: RuntimeStatus)
    requires
        a.wire_name() == b.wire_name(),
    ensures
        a == b,
{
    reveal_strlit("idle");
    reveal_strlit("running");
    reveal_strlit("attention");
    assert("idle"@.len() == 4);
    assert("running"@.len() == 7);
    assert("attention"@.len() == 9);
}

/// The session in front is the one at the active path, and there is none without a path or
/// where no session lies at it.
pub proof fn the_session_in_front_lies_at_the_active_path(s: SessionSupervisor)
    ensures
        active_id(s) matches Some(id) ==> s.active_path is Some && exists|i: int|
            0 <= i < s.residents@.len() && (#[trigger] s.residents@[i]).path@ == s.active_path->0@
                && s.residents@[i].id == id,
        s.active_path is None ==> active_id(s) is None,
        s.active_path matches Some(path) ==> ((forall|i: int|
            0 <= i < s.residents@.len() ==> (#[trigger] s.residents@[i]).path@ != path@)
            ==> active_id(s) is None),
{
    match s.active_path {
        Some(path) => {
            if exists|i: int| resident_at(s.residents@, path@, i) {
                let i = choose|i: int| resident_at(s.residents@, path@, i);
                assert(resident_at(s.residents@, path@, i));
                assert(s.residents@[i].path@ == path@);
            }
        },
        None => {},
    }
}

/// Of several sessions of one name the first is meant.
pub proof fn the_first_of_a_name_is_meant(residents: Seq<Resident>, id: Seq<char>, i: int, k: int)
    requires
        first_with_id(residents, id, i),
        0 <= k < residents.len(),
        residents[k].id@ == id,
    ensures
        i <= k,
        residents[i].id@ == id,
{
}

} // verus!
