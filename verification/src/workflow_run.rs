//! Workflow runs: scheduling, results, control and the owner boundary.

use vstd::prelude::*;

use crate::harness::{SessionId, WorkflowArtifactSnapshot};
use crate::task;
use crate::task::{TaskRequest, TaskStatus};
use crate::text;
use crate::workflow;
use crate::workflow::{WorkflowDefinition, WorkflowError, WorkflowStepDefinition};

verus! {

broadcast use vstd::string::group_string_axioms;

/// The most bytes that an artifact keeps of a step's output.
pub const ARTIFACT_LIMIT: usize = 100_000;

/// The most bytes of an artifact that its summary shows.
pub const SUMMARY_LIMIT: usize = 240;

/// Where a step of a run stands.
#[derive(Clone, Copy, Debug, PartialEq, Eq, Structural)]
pub enum StepStatus {
    Pending,
    Running,
    Waiting,
    Completed,
    Failed,
    Cancelled,
    Interrupted,
}

impl StepStatus {
    /// The status as it is sent.
    pub open spec fn wire_name(self) -> Seq<char> {
        match self {
            StepStatus::Pending => "pending"@,
            StepStatus::Running => "running"@,
            StepStatus::Waiting => "waiting"@,
            StepStatus::Completed => "completed"@,
            StepStatus::Failed => "failed"@,
            StepStatus::Cancelled => "cancelled"@,
            StepStatus::Interrupted => "interrupted"@,
        }
    }

    /// The status as it is sent.
    pub fn label(&self) -> (r: String)
        ensures
            r@ == self.wire_name(),
    {
        match self {
            StepStatus::Pending => "pending".to_owned(),
            StepStatus::Running => "running".to_owned(),
            StepStatus::Waiting => "waiting".to_owned(),
            StepStatus::Completed => "completed".to_owned(),
            StepStatus::Failed => "failed".to_owned(),
            StepStatus::Cancelled => "cancelled".to_owned(),
            StepStatus::Interrupted => "interrupted".to_owned(),
        }
    }
}

/// Where a run stands.
#[derive(Clone, Copy, Debug, PartialEq, Eq, Structural)]
pub enum RunStatus {
    Pending,
    Running,
    Paused,
    Completed,
    Failed,
    Cancelled,
    Interrupted,
}

impl RunStatus {
    /// The status as it is sent.
    pub open spec fn wire_name(self) -> Seq<char> {
        match self {
            RunStatus::Pending => "pending"@,
            RunStatus::Running => "running"@,
            RunStatus::Paused => "paused"@,
            RunStatus::Completed => "completed"@,
            RunStatus::Failed => "failed"@,
            RunStatus::Cancelled => "cancelled"@,
            RunStatus::Interrupted => "interrupted"@,
        }
    }

    /// Whether the run does not go on by itself.
    pub open spec fn halted(self) -> bool {
        self is Completed || self is Failed || self is Cancelled || self is Interrupted
            || self is Paused
    }

    /// The status as it is sent.
    pub fn label(&self) -> (r: String)
        ensures
            r@ == self.wire_name(),
    {
        match self {
            RunStatus::Pending => "pending".to_owned(),
            RunStatus::Running => "running".to_owned(),
            RunStatus::Paused => "paused".to_owned(),
            RunStatus::Completed => "completed".to_owned(),
            RunStatus::Failed => "failed".to_owned(),
            RunStatus::Cancelled => "cancelled".to_owned(),
            RunStatus::Interrupted => "interrupted".to_owned(),
        }
    }
}

/// Whether a run with this status does not go on by itself.
pub fn terminal(status: RunStatus) -> (r: bool)
    ensures
        r == status.halted(),
{
    matches!(
        status,
        RunStatus::Completed | RunStatus::Failed | RunStatus::Cancelled | RunStatus::Interrupted
            | RunStatus::Paused
    )
}

/// A step of a run.
#[derive(Clone, Debug)]
pub struct WorkflowStepState {
    pub definition: WorkflowStepDefinition,
    pub status: StepStatus,
    pub task_id: Option<String>,
    pub artifact_id: Option<String>,
    pub error: Option<String>,
    pub attempt_count: usize,
}

/// The output of a completed step.
#[derive(Clone, Debug)]
pub struct WorkflowArtifact {
    pub id: String,
    pub step_id: String,
    pub role: String,
    pub model: Option<String>,
    pub content: String,
}

/// One execution of a workflow.
#[derive(Clone, Debug)]
pub struct WorkflowRun {
    pub run_id: String,
    pub owner: SessionId,
    pub owner_path: String,
    pub cwd: String,
    pub definition: WorkflowDefinition,
    pub input: String,
    pub status: RunStatus,
    pub current_step: Option<String>,
    pub steps: Vec<WorkflowStepState>,
    pub artifacts: Vec<WorkflowArtifact>,
    pub created_at_ms: u64,
    pub updated_at_ms: u64,
    pub error: Option<String>,
}

/// A run and how it is being driven.
#[derive(Clone, Debug)]
pub struct WorkflowRecord {
    pub run: WorkflowRun,
    pub cancelled: bool,
    pub driving: bool,
}

/// Whether some step with the identifier `id` is completed.
pub open spec fn completed(steps: Seq<WorkflowStepState>, id: Seq<char>) -> bool {
    exists|j: int|
        0 <= j < steps.len() && (#[trigger] steps[j]).status is Completed
            && steps[j].definition.id_text() == id
}

/// Whether everything that the step `i` waits for is completed.
pub open spec fn needs_met(steps: Seq<WorkflowStepState>, i: int) -> bool {
    forall|k: int|
        0 <= k < steps[i].definition.needs().len() ==> completed(
            steps,
            (#[trigger] steps[i].definition.needs()[k])@,
        )
}

/// Whether the step `i` can start.
pub open spec fn ready(steps: Seq<WorkflowStepState>, i: int) -> bool {
    steps[i].status is Pending && needs_met(steps, i)
}

/// The steps before `n` that can start, in order.
pub open spec fn ready_upto(steps: Seq<WorkflowStepState>, n: int) -> Seq<int>
    decreases n,
{
    if n <= 0 {
        Seq::empty()
    } else if ready(steps, n - 1) {
        ready_upto(steps, n - 1).push(n - 1)
    } else {
        ready_upto(steps, n - 1)
    }
}

/// The steps that can start, in order.
pub open spec fn ready_steps(steps: Seq<WorkflowStepState>) -> Seq<int> {
    ready_upto(steps, steps.len() as int)
}

/// A step that was ever started has everything that it waits for.
pub open spec fn sound(steps: Seq<WorkflowStepState>) -> bool {
    forall|i: int|
        0 <= i < steps.len() && !((#[trigger] steps[i]).status is Pending) ==> needs_met(steps, i)
}

/// The definitions of a run's steps.
pub open spec fn definitions_of(steps: Seq<WorkflowStepState>) -> Seq<WorkflowStepDefinition> {
    steps.map_values(|s: WorkflowStepState| s.definition)
}

/// Whether every step is completed.
pub open spec fn all_completed(steps: Seq<WorkflowStepState>) -> bool {
    forall|i: int| 0 <= i < steps.len() ==> (#[trigger] steps[i]).status is Completed
}

/// Whether `i` is the first checkpoint that can start.
pub open spec fn first_checkpoint(steps: Seq<WorkflowStepState>, i: int) -> bool {
    &&& 0 <= i < steps.len()
    &&& ready(steps, i)
    &&& steps[i].definition is Checkpoint
    &&& forall|j: int|
        0 <= j < i && ready(steps, j) ==> !((#[trigger] steps[j]).definition is Checkpoint)
}

/// A step after it was started.
pub open spec fn started(step: WorkflowStepState) -> WorkflowStepState {
    WorkflowStepState {
        status: StepStatus::Running,
        attempt_count: (step.attempt_count + 1) as usize,
        ..step
    }
}

/// Definitions, results and completed steps stay as they were.
pub open spec fn progresses(before: Seq<WorkflowStepState>, after: Seq<WorkflowStepState>) -> bool {
    &&& before.len() == after.len()
    &&& forall|i: int|
        0 <= i < before.len() ==> {
            &&& (#[trigger] after[i]).definition == before[i].definition
            &&& before[i].status is Completed ==> after[i].status is Completed
        }
}

proof fn completed_stays(
    before: Seq<WorkflowStepState>,
    after: Seq<WorkflowStepState>,
    id: Seq<char>,
)
    requires
        progresses(before, after),
        completed(before, id),
    ensures
        completed(after, id),
{
    let j = choose|j: int|
        0 <= j < before.len() && (#[trigger] before[j]).status is Completed
            && before[j].definition.id_text() == id;
    assert(after[j].definition == before[j].definition);
    assert(after[j].status is Completed);
}

proof fn needs_stay_met(before: Seq<WorkflowStepState>, after: Seq<WorkflowStepState>, i: int)
    requires
        progresses(before, after),
        0 <= i < before.len(),
        needs_met(before, i),
    ensures
        needs_met(after, i),
{
    assert(after[i].definition == before[i].definition);
    assert forall|k: int| 0 <= k < after[i].definition.needs().len() implies completed(
        after,
        (#[trigger] after[i].definition.needs()[k])@,
    ) by {
        assert(completed(before, before[i].definition.needs()[k]@));
        completed_stays(before, after, before[i].definition.needs()[k]@);
    }
}

/// Soundness is kept when every step that is newly off pending could start.
proof fn soundness_kept(before: Seq<WorkflowStepState>, after: Seq<WorkflowStepState>)
    requires
        progresses(before, after),
        sound(before),
        forall|i: int|
            0 <= i < before.len() && before[i].status is Pending && !((
            #[trigger] after[i]).status is Pending) ==> needs_met(before, i),
    ensures
        sound(after),
{
    assert forall|i: int| 0 <= i < after.len() && !((#[trigger] after[i]).status is Pending) implies
        needs_met(after, i) by {
        if before[i].status is Pending {
            assert(needs_met(before, i));
        }
        needs_stay_met(before, after, i);
    }
}

fn is_completed(steps: &Vec<WorkflowStepState>, id: &str) -> (r: bool)
    ensures
        r == completed(steps@, id@),
{
    let mut j: usize = 0;
    while j < steps.len()
        invariant
            j <= steps.len(),
            forall|m: int|
                0 <= m < j ==> !((#[trigger] steps@[m]).status is Completed
                    && steps@[m].definition.id_text() == id@),
        decreases steps.len() - j,
    {
        if steps[j].status == StepStatus::Completed && text::same_text(
            steps[j].definition.id().as_str(),
            id,
        ) {
            return true;
        }
        j += 1;
    }
    false
}

fn is_ready(steps: &Vec<WorkflowStepState>, i: usize) -> (r: bool)
    requires
        i < steps@.len(),
    ensures
        r == ready(steps@, i as int),
{
    if steps[i].status != StepStatus::Pending {
        return false;
    }
    let needs: &Vec<String> = steps[i].definition.dependencies();
    let mut k: usize = 0;
    while k < needs.len()
        invariant
            i < steps@.len(),
            needs@ == steps@[i as int].definition.needs(),
            k <= needs.len(),
            forall|m: int|
                0 <= m < k ==> completed(
                    steps@,
                    (#[trigger] steps@[i as int].definition.needs()[m])@,
                ),
        decreases needs.len() - k,
    {
        if !is_completed(steps, needs[k].as_str()) {
            assert(!completed(steps@, steps@[i as int].definition.needs()[k as int]@));
            return false;
        }
        k += 1;
    }
    true
}

/// The steps that can start, in order.
pub fn ready_list(steps: &Vec<WorkflowStepState>) -> (r: Vec<usize>)
    ensures
        r@.map_values(|i: usize| i as int) == ready_steps(steps@),
{
    let mut out: Vec<usize> = Vec::new();
    let mut i: usize = 0;
    assert(out@.map_values(|i: usize| i as int) =~= ready_upto(steps@, 0));
    while i < steps.len()
        invariant
            i <= steps.len(),
            out@.map_values(|i: usize| i as int) == ready_upto(steps@, i as int),
        decreases steps.len() - i,
    {
        let ghost before = out@;
        if is_ready(steps, i) {
            out.push(i);
            assert(out@.map_values(|i: usize| i as int) =~= before.map_values(
                |i: usize| i as int,
            ).push(i as int));
        }
        i += 1;
    }
    out
}

proof fn ready_upto_lists(steps: Seq<WorkflowStepState>, n: int)
    requires
        0 <= n <= steps.len(),
    ensures
        forall|m: int|
            0 <= m < ready_upto(steps, n).len() ==> {
                &&& 0 <= #[trigger] ready_upto(steps, n)[m] < n
                &&& ready(steps, ready_upto(steps, n)[m])
            },
        forall|i: int|
            0 <= i < n && ready(steps, i) ==> #[trigger] ready_upto(steps, n).contains(i),
        forall|a: int, b: int|
            0 <= a < b < ready_upto(steps, n).len() ==> #[trigger] ready_upto(steps, n)[a]
                < #[trigger] ready_upto(steps, n)[b],
    decreases n,
{
    if n > 0 {
        ready_upto_lists(steps, n - 1);
        let before = ready_upto(steps, n - 1);
        let after = ready_upto(steps, n);
        if ready(steps, n - 1) {
            assert(after[after.len() - 1] == n - 1);
        }
        assert forall|i: int| 0 <= i < n && ready(steps, i) implies #[trigger] after.contains(i) by {
            if i < n - 1 {
                assert(before.contains(i));
                let m = choose|m: int| 0 <= m < before.len() && before[m] == i;
                assert(after[m] == i);
            }
        }
    }
}

/// What to do after the scheduler has looked at a run.
#[derive(Clone, Debug)]
pub enum Advance {
    /// Nothing changed; stop driving.
    Stop,
    /// Announce the run, then stop driving.
    Announce,
    /// Announce the run and launch these steps.
    Launch(Vec<usize>),
}

/// Whether `after` is what the scheduler makes of `before` at the time `now`.
pub open spec fn advanced(
    before: WorkflowRecord,
    after: WorkflowRecord,
    now: u64,
    r: Advance,
) -> bool {
    let old_run = before.run;
    let run = after.run;
    let list = ready_steps(old_run.steps@);
    if before.cancelled || old_run.status.halted() {
        after == before && r is Stop
    } else if list.len() == 0 {
        &&& r is Announce
        &&& if all_completed(old_run.steps@) {
            &&& after == (WorkflowRecord { run, ..before })
            &&& run == (WorkflowRun {
                status: RunStatus::Completed,
                current_step: None,
                updated_at_ms: now,
                ..old_run
            })
        } else {
            after == before
        }
    } else {
        &&& after == (WorkflowRecord { run, ..before })
        &&& run == (WorkflowRun {
            status: run.status,
            current_step: run.current_step,
            steps: run.steps,
            updated_at_ms: now,
            ..old_run
        })
        &&& run.current_step is Some
        &&& if exists|i: int| first_checkpoint(old_run.steps@, i) {
            let i = choose|i: int| first_checkpoint(old_run.steps@, i);
            &&& r is Announce
            &&& run.status is Paused
            &&& run.current_step->0@ == old_run.steps@[i].definition.id_text()
            &&& run.steps@ == old_run.steps@.update(
                i,
                WorkflowStepState { status: StepStatus::Waiting, ..old_run.steps@[i] },
            )
        } else {
            &&& r matches Advance::Launch(launched)
            &&& launched@.map_values(|i: usize| i as int) == list
            &&& run.status is Running
            &&& run.current_step->0@ == old_run.steps@[list[0]].definition.id_text()
            &&& run.steps@.len() == old_run.steps@.len()
            &&& forall|i: int|
                0 <= i < run.steps@.len() ==> #[trigger] run.steps@[i] == (if ready(
                    old_run.steps@,
                    i,
                ) {
                    started(old_run.steps@[i])
                } else {
                    old_run.steps@[i]
                })
        }
    }
}

fn find_checkpoint(steps: &Vec<WorkflowStepState>, list: &Vec<usize>) -> (r: Option<usize>)
    requires
        list@.map_values(|i: usize| i as int) == ready_steps(steps@),
    ensures
        match r {
            Some(i) => first_checkpoint(steps@, i as int),
            None => !exists|i: int| first_checkpoint(steps@, i),
        },
{
    proof {
        ready_upto_lists(steps@, steps@.len() as int);
    }
    let ghost wanted = ready_steps(steps@);
    let mut m: usize = 0;
    while m < list.len()
        invariant
            m <= list.len(),
            wanted == ready_steps(steps@),
            list@.map_values(|i: usize| i as int) == wanted,
            forall|x: int|
                0 <= x < wanted.len() ==> 0 <= #[trigger] wanted[x] < steps@.len() && ready(
                    steps@,
                    wanted[x],
                ),
            forall|i: int|
                0 <= i < steps@.len() && ready(steps@, i) ==> #[trigger] wanted.contains(i),
            forall|a: int, b: int|
                0 <= a < b < wanted.len() ==> #[trigger] wanted[a] < #[trigger] wanted[b],
            forall|x: int|
                0 <= x < m ==> !(steps@[#[trigger] wanted[x]].definition is Checkpoint),
        decreases list.len() - m,
    {
        let i: usize = list[m];
        assert(wanted[m as int] == i);
        match &steps[i].definition {
            WorkflowStepDefinition::Checkpoint { .. } => {
                assert forall|j: int| 0 <= j < i && ready(steps@, j) implies !((
                #[trigger] steps@[j]).definition is Checkpoint) by {
                    assert(wanted.contains(j));
                    let x = choose|x: int| 0 <= x < wanted.len() && wanted[x] == j;
                    if x > m {
                        assert(wanted[m as int] < wanted[x]);
                    }
                }
                return Some(i);
            },
            _ => {},
        }
        m += 1;
    }
    assert forall|i: int| !first_checkpoint(steps@, i) by {
        if first_checkpoint(steps@, i) {
            assert(wanted.contains(i));
            let x = choose|x: int| 0 <= x < wanted.len() && wanted[x] == i;
            assert(!(steps@[wanted[x]].definition is Checkpoint));
        }
    }
    None
}

fn every_completed(steps: &Vec<WorkflowStepState>) -> (r: bool)
    ensures
        r == all_completed(steps@),
{
    let mut i: usize = 0;
    while i < steps.len()
        invariant
            i <= steps.len(),
            forall|j: int| 0 <= j < i ==> (#[trigger] steps@[j]).status is Completed,
        decreases steps.len() - i,
    {
        if steps[i].status != StepStatus::Completed {
            return false;
        }
        i += 1;
    }
    true
}

proof fn one_first_checkpoint(steps: Seq<WorkflowStepState>, i: int, j: int)
    requires
        first_checkpoint(steps, i),
        first_checkpoint(steps, j),
    ensures
        i == j,
{
    if i < j {
        assert(!(steps[i].definition is Checkpoint));
    } else if j < i {
        assert(!(steps[j].definition is Checkpoint));
    }
}

impl WorkflowRecord {
    /// Lets the scheduler look at the run once, at the time `now`.
    pub fn advance(&mut self, now: u64) -> (r: Advance)
        requires
            forall|i: int|
                0 <= i < old(self).run.steps@.len() ==> (
                #[trigger] old(self).run.steps@[i]).attempt_count < usize::MAX,
        ensures
            advanced(*old(self), *final(self), now, r),
            progresses(old(self).run.steps@, final(self).run.steps@),
            sound(old(self).run.steps@) ==> sound(final(self).run.steps@),
    {
        if self.cancelled || terminal(self.run.status) {
            return Advance::Stop;
        }
        let list: Vec<usize> = ready_list(&self.run.steps);
        let ghost wanted = ready_steps(self.run.steps@);
        proof {
            ready_upto_lists(self.run.steps@, self.run.steps@.len() as int);
            assert(list@.len() == wanted.len());
        }
        if list.len() == 0 {
            if every_completed(&self.run.steps) {
                self.run.status = RunStatus::Completed;
                self.run.current_step = None;
                self.run.updated_at_ms = now;
            }
            return Advance::Announce;
        }
        match find_checkpoint(&self.run.steps, &list) {
            Some(i) => {
                let id: String = self.run.steps[i].definition.id().clone();
                self.run.steps[i].status = StepStatus::Waiting;
                self.run.status = RunStatus::Paused;
                self.run.current_step = Some(id);
                self.run.updated_at_ms = now;
                proof {
                    let c = choose|c: int| first_checkpoint(old(self).run.steps@, c);
                    one_first_checkpoint(old(self).run.steps@, c, i as int);
                    if sound(old(self).run.steps@) {
                        soundness_kept(old(self).run.steps@, self.run.steps@);
                    }
                }
                Advance::Announce
            },
            None => {
                let first: usize = list[0];
                assert(wanted[0] == first);
                let id: String = self.run.steps[first].definition.id().clone();
                let mut m: usize = 0;
                while m < list.len()
                    invariant
                        m <= list.len(),
                        wanted == ready_steps(old(self).run.steps@),
                        list@.map_values(|i: usize| i as int) == wanted,
                        self.run.steps@.len() == old(self).run.steps@.len(),
                        *self == (WorkflowRecord {
                            run: WorkflowRun { steps: self.run.steps, ..old(self).run },
                            ..*old(self)
                        }),
                        forall|x: int|
                            0 <= x < wanted.len() ==> 0 <= #[trigger] wanted[x]
                                < old(self).run.steps@.len(),
                        forall|a: int, b: int|
                            0 <= a < b < wanted.len() ==> #[trigger] wanted[a]
                                < #[trigger] wanted[b],
                        forall|i: int|
                            0 <= i < old(self).run.steps@.len() ==> (
                            #[trigger] old(self).run.steps@[i]).attempt_count < usize::MAX,
                        forall|i: int|
                            0 <= i < self.run.steps@.len() ==> #[trigger] self.run.steps@[i] == (
                            if wanted.take(m as int).contains(i) {
                                started(old(self).run.steps@[i])
                            } else {
                                old(self).run.steps@[i]
                            }),
                    decreases list.len() - m,
                {
                    let i: usize = list[m];
                    assert(wanted[m as int] == i);
                    let ghost before = self.run.steps@;
                    proof {
                        if wanted.take(m as int).contains(i as int) {
                            let x = choose|x: int|
                                0 <= x < m && wanted.take(m as int)[x] == i as int;
                            assert(wanted[x] < wanted[m as int]);
                        }
                        assert(before[i as int] == old(self).run.steps@[i as int]);
                    }
                    self.run.steps[i].status = StepStatus::Running;
                    self.run.steps[i].attempt_count = self.run.steps[i].attempt_count + 1;
                    proof {
                        let now_taken = wanted.take(m + 1);
                        assert(now_taken =~= wanted.take(m as int).push(i as int));
                        assert(self.run.steps@ =~= before.update(
                            i as int,
                            started(before[i as int]),
                        ));
                        assert forall|j: int|
                            0 <= j < self.run.steps@.len() implies #[trigger] self.run.steps@[j]
                            == (if now_taken.contains(j) {
                            started(old(self).run.steps@[j])
                        } else {
                            old(self).run.steps@[j]
                        }) by {
                            if j == i {
                                assert(now_taken[m as int] == j);
                            } else {
                                assert(self.run.steps@[j] == before[j]);
                                if wanted.take(m as int).contains(j) {
                                    let x = choose|x: int|
                                        0 <= x < m && wanted.take(m as int)[x] == j;
                                    assert(now_taken[x] == j);
                                }
                                if now_taken.contains(j) {
                                    let x = choose|x: int|
                                        0 <= x < m + 1 && now_taken[x] == j;
                                    assert(x < m);
                                    assert(wanted.take(m as int)[x] == j);
                                }
                            }
                        }
                    }
                    m += 1;
                }
                self.run.status = RunStatus::Running;
                self.run.current_step = Some(id);
                self.run.updated_at_ms = now;
                proof {
                    assert(wanted.take(wanted.len() as int) =~= wanted);
                    let steps = old(self).run.steps@;
                    assert forall|i: int|
                        0 <= i < self.run.steps@.len() implies #[trigger] self.run.steps@[i] == (
                    if ready(steps, i) {
                        started(steps[i])
                    } else {
                        steps[i]
                    }) by {
                        if ready(steps, i) {
                            assert(ready_upto(steps, steps.len() as int).contains(i));
                            assert(wanted.contains(i));
                        } else if wanted.contains(i) {
                            let x = choose|x: int| 0 <= x < wanted.len() && wanted[x] == i;
                            assert(ready(steps, ready_upto(steps, steps.len() as int)[x]));
                        }
                    }
                    if sound(steps) {
                        soundness_kept(steps, self.run.steps@);
                    }
                }
                Advance::Launch(list)
            },
        }
    }
}

/// Whether the step `i` is running or can start.
pub open spec fn active(steps: Seq<WorkflowStepState>, i: int) -> bool {
    steps[i].status is Running || ready(steps, i)
}

/// A step that has what it waits for has completed whatever it reaches.
proof fn reached_is_completed(steps: Seq<WorkflowStepState>, i: int, m: int, n: nat)
    requires
        0 <= i < steps.len(),
        workflow::good_ids(definitions_of(steps)),
        sound(steps),
        needs_met(steps, i),
        workflow::needs_over(definitions_of(steps), steps[i].definition, m, n),
    ensures
        0 <= m < steps.len(),
        steps[m].status is Completed,
    decreases n,
{
    let defs = definitions_of(steps);
    if n == 0 {
        let needs = steps[i].definition.needs();
        let k = choose|k: int|
            0 <= k < needs.len() && workflow::first_step(defs, (#[trigger] needs[k])@, m);
        assert(completed(steps, steps[i].definition.needs()[k]@));
        completed_is_unique(steps, needs[k]@, m);
    } else {
        let j = choose|j: int|
            0 <= j < defs.len() && workflow::needs_over(
                defs,
                steps[i].definition,
                j,
                (n - 1) as nat,
            ) && #[trigger] workflow::needs_step(defs, defs[j], m);
        reached_is_completed(steps, i, j, (n - 1) as nat);
        assert(needs_met(steps, j));
        let needs = steps[j].definition.needs();
        assert(defs[j] == steps[j].definition);
        let k = choose|k: int|
            0 <= k < needs.len() && workflow::first_step(defs, (#[trigger] needs[k])@, m);
        assert(completed(steps, steps[j].definition.needs()[k]@));
        completed_is_unique(steps, needs[k]@, m);
    }
}

/// With distinct identifiers, the step of a completed identifier is completed.
proof fn completed_is_unique(steps: Seq<WorkflowStepState>, id: Seq<char>, m: int)
    requires
        workflow::good_ids(definitions_of(steps)),
        completed(steps, id),
        0 <= m < steps.len(),
        steps[m].definition.id_text() == id,
    ensures
        steps[m].status is Completed,
{
    let defs = definitions_of(steps);
    let j = choose|j: int|
        0 <= j < steps.len() && (#[trigger] steps[j]).status is Completed
            && steps[j].definition.id_text() == id;
    assert(defs[j].id_text() == defs[m].id_text());
    if j < m {
        assert(defs[j].id_text() != defs[m].id_text());
    } else if m < j {
        assert(defs[m].id_text() != defs[j].id_text());
    }
}

proof fn dependent_is_not_active(steps: Seq<WorkflowStepState>, i: int, j: int)
    requires
        0 <= i < steps.len(),
        0 <= j < steps.len(),
        workflow::good_ids(definitions_of(steps)),
        sound(steps),
        workflow::depends(
            definitions_of(steps),
            steps[i].definition,
            steps[j].definition.id_text(),
        ),
        active(steps, i),
    ensures
        !active(steps, j),
{
    let defs = definitions_of(steps);
    let id = steps[j].definition.id_text();
    assert(needs_met(steps, i));
    if text::lists(steps[i].definition.needs(), id) {
        let k = choose|k: int|
            0 <= k < steps[i].definition.needs().len() && (
            #[trigger] steps[i].definition.needs()[k])@ == id;
        assert(completed(steps, steps[i].definition.needs()[k]@));
        completed_is_unique(steps, id, j);
    } else {
        let m = choose|m: int|
            0 <= m < defs.len() && #[trigger] workflow::reaches(defs, steps[i].definition, m)
                && text::lists(defs[m].needs(), id);
        let n = choose|n: nat| workflow::needs_over(defs, steps[i].definition, m, n);
        reached_is_completed(steps, i, m, n);
        assert(needs_met(steps, m));
        assert(defs[m] == steps[m].definition);
        let k = choose|k: int|
            0 <= k < steps[m].definition.needs().len() && (
            #[trigger] steps[m].definition.needs()[k])@ == id;
        assert(completed(steps, steps[m].definition.needs()[k]@));
        completed_is_unique(steps, id, j);
    }
}

/// In a sound run of a valid workflow, two different steps that may write are never
/// running or able to start at the same time.
pub proof fn writers_never_overlap(steps: Seq<WorkflowStepState>, i: int, j: int)
    requires
        workflow::good_ids(definitions_of(steps)),
        workflow::ordered_writers(definitions_of(steps)),
        sound(steps),
        0 <= i < j < steps.len(),
        steps[i].definition.writes(),
        steps[j].definition.writes(),
    ensures
        !(active(steps, i) && active(steps, j)),
{
    let defs = definitions_of(steps);
    assert(workflow::ordered(defs, i, j));
    assert(defs[i] == steps[i].definition);
    assert(defs[j] == steps[j].definition);
    if workflow::depends(defs, defs[i], defs[j].id_text()) {
        if active(steps, i) {
            dependent_is_not_active(steps, i, j);
        }
    } else {
        if active(steps, j) {
            dependent_is_not_active(steps, j, i);
        }
    }
}

/// Every step is completed or has not begun.
pub open spec fn calm(steps: Seq<WorkflowStepState>) -> bool {
    forall|i: int|
        0 <= i < steps.len() ==> (#[trigger] steps[i]).status is Completed
            || steps[i].status is Pending
}

/// A step that cannot start waits for one that has not begun.
proof fn blocked_needs_a_pending_step(steps: Seq<WorkflowStepState>, i: int) -> (j: int)
    requires
        0 <= i < steps.len(),
        workflow::good_ids(definitions_of(steps)),
        workflow::good_dependencies(definitions_of(steps)),
        calm(steps),
        !needs_met(steps, i),
    ensures
        0 <= j < steps.len(),
        steps[j].status is Pending,
        workflow::needs_step(definitions_of(steps), definitions_of(steps)[i], j),
{
    let defs = definitions_of(steps);
    let needs = steps[i].definition.needs();
    assert(defs[i] == steps[i].definition);
    let k = choose|k: int|
        0 <= k < needs.len() && !completed(steps, (#[trigger] needs[k])@);
    assert(workflow::good_needs_upto(defs, i, needs.len() as int));
    assert(workflow::good_need(defs, i, k));
    let j = choose|j: int| 0 <= j < defs.len() && (#[trigger] defs[j]).id_text() == needs[k]@;
    assert(defs[j] == steps[j].definition);
    assert(!(steps[j].status is Completed));
    assert forall|m: int| 0 <= m < j implies (#[trigger] defs[m]).id_text() != needs[k]@ by {
        assert(defs[m].id_text() != defs[j].id_text());
    }
    assert(workflow::first_step(defs, defs[i].needs()[k]@, j));
    j
}

/// Following what blocked steps wait for never comes to an end, unless one can start.
/// `seen` are the steps that were passed on the way to `i`.
proof fn some_pending_step_is_ready(steps: Seq<WorkflowStepState>, seen: Set<int>, i: int) -> (r: int)
    requires
        0 <= i < steps.len(),
        steps[i].status is Pending,
        workflow::good_ids(definitions_of(steps)),
        workflow::good_dependencies(definitions_of(steps)),
        workflow::acyclic(definitions_of(steps)),
        calm(steps),
        seen.subset_of(vstd::set_lib::set_int_range(0, steps.len() as int)),
        !seen.contains(i),
        forall|s: int| #[trigger]
            seen.contains(s) ==> workflow::reaches(definitions_of(steps), definitions_of(steps)[s], i),
    ensures
        0 <= r < steps.len(),
        ready(steps, r),
    decreases steps.len() - seen.len(),
{
    let defs = definitions_of(steps);
    let all = vstd::set_lib::set_int_range(0, steps.len() as int);
    vstd::set_lib::lemma_int_range(0, steps.len() as int);
    let more = seen.insert(i);
    vstd::set_lib::lemma_len_subset(seen, all);
    vstd::set_lib::lemma_len_subset(more, all);
    if needs_met(steps, i) {
        i
    } else {
        let j = blocked_needs_a_pending_step(steps, i);
        assert forall|s: int| #[trigger] more.contains(s) implies workflow::reaches(
            defs,
            defs[s],
            j,
        ) by {
            if s == i {
                workflow::reach_by_one(defs, defs[i], j);
            } else {
                workflow::reach_further(defs, defs[s], i, j);
            }
        }
        if more.contains(j) {
            assert(workflow::reaches(defs, defs[j], j));
        }
        some_pending_step_is_ready(steps, more, j)
    }
}

/// A run of a valid workflow never gets stuck: while some step has not begun and the
/// others are completed, one of them can start.
pub proof fn valid_runs_go_on(definition: workflow::WorkflowDefinition, steps: Seq<WorkflowStepState>)
    requires
        workflow::valid(definition),
        definitions_of(steps) == definition.steps@,
        calm(steps),
        !all_completed(steps),
    ensures
        ready_steps(steps).len() > 0,
{
    let i = choose|i: int| 0 <= i < steps.len() && !((#[trigger] steps[i]).status is Completed);
    let r = some_pending_step_is_ready(steps, Set::empty(), i);
    some_ready_is_listed(steps, steps.len() as int, r);
}

proof fn some_ready_is_listed(steps: Seq<WorkflowStepState>, n: int, r: int)
    requires
        0 <= r < n <= steps.len(),
        ready(steps, r),
    ensures
        ready_upto(steps, n).len() > 0,
    decreases n,
{
    if r < n - 1 {
        some_ready_is_listed(steps, n - 1, r);
    }
}

/// The dependency outputs that a step sees, one text for each artifact.
pub open spec fn context_parts(
    artifacts: Seq<WorkflowArtifact>,
    needs: Seq<String>,
) -> Seq<Seq<char>>
    decreases artifacts.len(),
{
    if artifacts.len() == 0 {
        Seq::empty()
    } else {
        let rest = context_parts(artifacts.drop_last(), needs);
        let artifact = artifacts.last();
        if text::lists(needs, artifact.step_id@) {
            rest.push(
                "<dependency step=\""@ + artifact.step_id@ + "\">\n"@ + artifact.content@
                    + "\n</dependency>"@,
            )
        } else {
            rest
        }
    }
}

/// The prompt of an agent step.
pub open spec fn step_prompt(
    input: Seq<char>,
    instruction: Seq<char>,
    parts: Seq<Seq<char>>,
) -> Seq<char> {
    let context = text::join(parts, "\n\n"@);
    let head = "Workflow root request:\n"@ + input + "\n\nStep instruction:\n"@ + instruction;
    if context.len() == 0 {
        head
    } else {
        head + "\n\nUntrusted dependency outputs:\n"@ + context
    }
}

fn context_list(artifacts: &Vec<WorkflowArtifact>, needs: &Vec<String>) -> (r: Vec<String>)
    ensures
        text::views(r@) == context_parts(artifacts@, needs@),
{
    let mut out: Vec<String> = Vec::new();
    let mut i: usize = 0;
    assert(text::views(out@) =~= context_parts(artifacts@.take(0), needs@));
    while i < artifacts.len()
        invariant
            i <= artifacts.len(),
            text::views(out@) == context_parts(artifacts@.take(i as int), needs@),
        decreases artifacts.len() - i,
    {
        let ghost part = artifacts@.take(i + 1);
        assert(part.drop_last() =~= artifacts@.take(i as int));
        assert(part.last() == artifacts@[i as int]);
        if text::list_has(needs, artifacts[i].step_id.as_str()) {
            let ghost before = out@;
            let head: String = text::joined3(
                "<dependency step=\"",
                artifacts[i].step_id.as_str(),
                "\">\n",
            );
            let item: String = text::joined3(
                head.as_str(),
                artifacts[i].content.as_str(),
                "\n</dependency>",
            );
            out.push(item);
            assert(text::views(out@) =~= text::views(before).push(item@));
        }
        i += 1;
    }
    assert(artifacts@.take(artifacts@.len() as int) =~= artifacts@);
    out
}

impl WorkflowRun {
    /// A new run of `definition`.
    pub fn start(
        run_id: String,
        owner: SessionId,
        owner_path: String,
        cwd: String,
        definition: WorkflowDefinition,
        input: String,
        now: u64,
    ) -> (r: WorkflowRun)
        ensures
            r.run_id == run_id,
            r.owner == owner,
            r.owner_path == owner_path,
            r.cwd == cwd,
            r.definition == definition,
            r.input == input,
            r.status is Pending,
            r.current_step is None,
            r.artifacts@.len() == 0,
            r.created_at_ms == now,
            r.updated_at_ms == now,
            r.error is None,
            r.steps@.len() == definition.steps@.len(),
            forall|i: int|
                0 <= i < r.steps@.len() ==> {
                    &&& (#[trigger] r.steps@[i]).definition@ == definition.steps@[i]@
                    &&& r.steps@[i].status is Pending
                    &&& r.steps@[i].task_id is None
                    &&& r.steps@[i].artifact_id is None
                    &&& r.steps@[i].error is None
                    &&& r.steps@[i].attempt_count == 0
                },
            sound(r.steps@),
    {
        let mut steps: Vec<WorkflowStepState> = Vec::new();
        let mut i: usize = 0;
        while i < definition.steps.len()
            invariant
                i <= definition.steps.len(),
                steps@.len() == i,
                forall|j: int|
                    0 <= j < i ==> {
                        &&& (#[trigger] steps@[j]).definition@ == definition.steps@[j]@
                        &&& steps@[j].status is Pending
                        &&& steps@[j].task_id is None
                        &&& steps@[j].artifact_id is None
                        &&& steps@[j].error is None
                        &&& steps@[j].attempt_count == 0
                    },
            decreases definition.steps.len() - i,
        {
            steps.push(
                WorkflowStepState {
                    definition: copy_step(&definition.steps[i]),
                    status: StepStatus::Pending,
                    task_id: None,
                    artifact_id: None,
                    error: None,
                    attempt_count: 0,
                },
            );
            i += 1;
        }
        WorkflowRun {
            run_id,
            owner,
            owner_path,
            cwd,
            definition,
            input,
            status: RunStatus::Pending,
            current_step: None,
            steps,
            artifacts: Vec::new(),
            created_at_ms: now,
            updated_at_ms: now,
            error: None,
        }
    }

    /// The task that carries out the agent step at `index`; `None` for a checkpoint.
    pub fn step_request(&self, index: usize) -> (r: Result<Option<TaskRequest>, WorkflowError>)
        requires
            index < self.steps@.len(),
        ensures
            match self.steps@[index as int].definition {
                WorkflowStepDefinition::Checkpoint { .. } => r matches Ok(None),
                WorkflowStepDefinition::Agent {
                    id,
                    prompt,
                    depends_on,
                    role,
                    model,
                    thinking,
                    capability,
                } => if task::tools_of(capability@) is None {
                    r matches Err(WorkflowError::Capability { mode }) && mode@ == capability@
                } else {
                    &&& r matches Ok(Some(request))
                    &&& request.owner == self.owner
                    &&& request.owner_path == self.owner_path
                    &&& request.cwd == Some(self.cwd)
                    &&& request.prompt@ == step_prompt(
                        self.input@,
                        prompt@,
                        context_parts(self.artifacts@, depends_on@),
                    )
                    &&& request.description@ == "workflow "@ + id@
                    &&& request.model == model
                    &&& request.thinking_level == thinking
                    &&& Some(
                        match request.tools {
                            Some(tools) => Some(text::views(tools@)),
                            None => None,
                        },
                    ) == task::tools_of(capability@)
                    &&& request.subagent_type == role
                    &&& request.capability_mode == capability
                    &&& request.background
                    &&& request.workflow_run_id == Some(self.run_id)
                    &&& request.isolation@ == "none"@
                    &&& request.resume_path is None
                },
            },
    {
        match &self.steps[index].definition {
            WorkflowStepDefinition::Checkpoint { .. } => Ok(None),
            WorkflowStepDefinition::Agent {
                id,
                prompt,
                depends_on,
                role,
                model,
                thinking,
                capability,
            } => {
                let tools: Option<Vec<String>> = match task::capability_tools(capability.as_str()) {
                    Ok(tools) => tools,
                    Err(_) => {
                        return Err(WorkflowError::Capability { mode: capability.clone() });
                    },
                };
                let context: String = text::join_texts(
                    &context_list(&self.artifacts, depends_on),
                    "\n\n",
                );
                let mut full: String = text::joined3(
                    "Workflow root request:\n",
                    self.input.as_str(),
                    "\n\nStep instruction:\n",
                );
                full.append(prompt.as_str());
                if !context.as_str().is_empty() {
                    full.append("\n\nUntrusted dependency outputs:\n");
                    full.append(context.as_str());
                }
                Ok(
                    Some(
                        TaskRequest {
                            owner: self.owner.copy(),
                            owner_path: self.owner_path.clone(),
                            cwd: Some(self.cwd.clone()),
                            prompt: full,
                            description: text::joined("workflow ", id.as_str()),
                            model: text::copy_option(model),
                            thinking_level: text::copy_option(thinking),
                            tools,
                            subagent_type: role.clone(),
                            capability_mode: capability.clone(),
                            background: true,
                            workflow_run_id: Some(self.run_id.clone()),
                            isolation: "none".to_owned(),
                            resume_path: None,
                        },
                    ),
                )
            },
        }
    }

    /// Notes the task that carries out a step.
    pub fn attach_task(&mut self, index: usize, task_id: String)
        requires
            index < old(self).steps@.len(),
        ensures
            *final(self) == (WorkflowRun { steps: final(self).steps, ..*old(self) }),
            final(self).steps@ == old(self).steps@.update(
                index as int,
                WorkflowStepState { task_id: Some(task_id), ..old(self).steps@[index as int] },
            ),
            progresses(old(self).steps@, final(self).steps@),
            sound(old(self).steps@) ==> sound(final(self).steps@),
    {
        self.steps[index].task_id = Some(task_id);
        proof {
            if sound(old(self).steps@) {
                soundness_kept(old(self).steps@, self.steps@);
            }
        }
    }

    /// Records how the task of the step at `index` ended. Returns the artifact to
    /// announce. What was completed stays so where the step was running.
    pub fn settle_step(&mut self, index: usize, outcome: TaskStatus, artifact_id: String, now: u64)
        -> (r: Option<WorkflowArtifactSnapshot>)
        requires
            index < old(self).steps@.len(),
            outcome.ended(),
        ensures
            ({
                let before = old(self).steps@[index as int];
                match outcome {
                    TaskStatus::Completed { output, .. } => {
                        &&& *final(self) == (WorkflowRun {
                            steps: final(self).steps,
                            artifacts: final(self).artifacts,
                            updated_at_ms: now,
                            ..*old(self)
                        })
                        &&& final(self).steps@ == old(self).steps@.update(
                            index as int,
                            WorkflowStepState {
                                status: StepStatus::Completed,
                                artifact_id: Some(artifact_id),
                                ..before
                            },
                        )
                        &&& final(self).artifacts@.len() == old(self).artifacts@.len() + 1
                        &&& final(self).artifacts@.drop_last() == old(self).artifacts@
                        &&& artifact_of(before, output@, artifact_id, final(self).artifacts@.last())
                        &&& r matches Some(shown)
                        &&& shows(
                            old(self).run_id,
                            final(self).artifacts@.last(),
                            text::byte_len(output@) > ARTIFACT_LIMIT,
                            shown,
                        )
                    },
                    TaskStatus::Cancelled => {
                        &&& *final(self) == (WorkflowRun {
                            steps: final(self).steps,
                            status: RunStatus::Cancelled,
                            updated_at_ms: now,
                            ..*old(self)
                        })
                        &&& final(self).steps@ == old(self).steps@.update(
                            index as int,
                            WorkflowStepState { status: StepStatus::Cancelled, ..before },
                        )
                        &&& r is None
                    },
                    _ => {
                        &&& *final(self) == (WorkflowRun {
                            steps: final(self).steps,
                            status: RunStatus::Failed,
                            error: outcome.final_error(),
                            updated_at_ms: now,
                            ..*old(self)
                        })
                        &&& final(self).steps@ == old(self).steps@.update(
                            index as int,
                            WorkflowStepState {
                                status: StepStatus::Failed,
                                error: outcome.final_error(),
                                ..before
                            },
                        )
                        &&& r is None
                    },
                }
            }),
            old(self).steps@[index as int].status is Running ==> progresses(
                old(self).steps@,
                final(self).steps@,
            ),
            old(self).steps@[index as int].status is Running && sound(old(self).steps@) ==> sound(
                final(self).steps@,
            ),
    {
        let mut shown: Option<WorkflowArtifactSnapshot> = None;
        match outcome {
            TaskStatus::Completed { output, .. } => {
                let truncated: bool = !text::fits_in(output.as_str(), ARTIFACT_LIMIT);
                let content: String = text::truncate_utf8(output, ARTIFACT_LIMIT);
                let (role, model): (String, Option<String>) =
                    match &self.steps[index].definition {
                    WorkflowStepDefinition::Agent { role, model, .. } => (
                        role.clone(),
                        text::copy_option(model),
                    ),
                    WorkflowStepDefinition::Checkpoint { .. } => (String::new(), None),
                };
                let artifact = WorkflowArtifact {
                    id: artifact_id.clone(),
                    step_id: self.steps[index].definition.id().clone(),
                    role,
                    model,
                    content,
                };
                self.steps[index].status = StepStatus::Completed;
                self.steps[index].artifact_id = Some(artifact_id);
                shown = Some(artifact_snapshot(&self.run_id, &artifact, truncated));
                let ghost before = self.artifacts@;
                self.artifacts.push(artifact);
                assert(self.artifacts@.drop_last() =~= before);
            },
            TaskStatus::Cancelled => {
                self.steps[index].status = StepStatus::Cancelled;
                self.status = RunStatus::Cancelled;
            },
            TaskStatus::Failed { error } => {
                self.steps[index].status = StepStatus::Failed;
                self.steps[index].error = Some(error.clone());
                self.status = RunStatus::Failed;
                self.error = Some(error);
            },
            TaskStatus::Interrupted { error } => {
                self.steps[index].status = StepStatus::Failed;
                self.steps[index].error = Some(error.clone());
                self.status = RunStatus::Failed;
                self.error = Some(error);
            },
            _ => {},
        }
        self.updated_at_ms = now;
        proof {
            if old(self).steps@[index as int].status is Running && sound(old(self).steps@) {
                soundness_kept(old(self).steps@, self.steps@);
            }
        }
        shown
    }
}

/// Whether `artifact` holds the output of `step`, cut to what an artifact keeps.
pub open spec fn artifact_of(
    step: WorkflowStepState,
    output: Seq<char>,
    id: String,
    artifact: WorkflowArtifact,
) -> bool {
    &&& artifact.id == id
    &&& artifact.step_id@ == step.definition.id_text()
    &&& match step.definition {
        WorkflowStepDefinition::Agent { role, model, .. } => artifact.role == role
            && artifact.model == model,
        WorkflowStepDefinition::Checkpoint { .. } => artifact.role@.len() == 0 && artifact.model
            is None,
    }
    &&& text::byte_len(output) <= ARTIFACT_LIMIT ==> artifact.content@ == output
    &&& exists|k: int| #[trigger] text::fitting(output, ARTIFACT_LIMIT as nat, k)
        && artifact.content@ == output.take(k)
}

/// Whether `shown` is how an artifact is announced.
pub open spec fn shows(
    run_id: String,
    artifact: WorkflowArtifact,
    truncated: bool,
    shown: WorkflowArtifactSnapshot,
) -> bool {
    &&& shown.run_id == run_id
    &&& shown.artifact_id == artifact.id
    &&& shown.step_id == artifact.step_id
    &&& text::byte_len(artifact.content@) <= SUMMARY_LIMIT ==> shown.summary@ == artifact.content@
    &&& exists|k: int| #[trigger] text::fitting(artifact.content@, SUMMARY_LIMIT as nat, k)
        && shown.summary@ == artifact.content@.take(k)
    &&& shown.producer_role == artifact.role
    &&& shown.producer_model == artifact.model
    &&& shown.content == artifact.content
    &&& shown.truncated == truncated
}

/// How an artifact is announced.
pub fn artifact_snapshot(run_id: &String, artifact: &WorkflowArtifact, truncated: bool) -> (r:
    WorkflowArtifactSnapshot)
    ensures
        shows(*run_id, *artifact, truncated, r),
{
    WorkflowArtifactSnapshot {
        run_id: run_id.clone(),
        artifact_id: artifact.id.clone(),
        step_id: artifact.step_id.clone(),
        summary: text::truncate_utf8(artifact.content.clone(), SUMMARY_LIMIT),
        producer_role: artifact.role.clone(),
        producer_model: text::copy_option(&artifact.model),
        content: artifact.content.clone(),
        truncated,
    }
}

fn copy_step(step: &WorkflowStepDefinition) -> (r: WorkflowStepDefinition)
    ensures
        r@ == step@,
{
    match step {
        WorkflowStepDefinition::Agent {
            id,
            prompt,
            depends_on,
            role,
            model,
            thinking,
            capability,
        } => WorkflowStepDefinition::Agent {
            id: id.clone(),
            prompt: prompt.clone(),
            depends_on: text::copy_strings(depends_on),
            role: role.clone(),
            model: text::copy_option(model),
            thinking: text::copy_option(thinking),
            capability: capability.clone(),
        },
        WorkflowStepDefinition::Checkpoint { id, description, depends_on } =>
            WorkflowStepDefinition::Checkpoint {
            id: id.clone(),
            description: text::copy_option(description),
            depends_on: text::copy_strings(depends_on),
        },
    }
}

/// Whether a step is the one asked for, or none was named.
pub open spec fn asked_for(step: WorkflowStepState, step_id: Option<String>) -> bool {
    match step_id {
        Some(id) => step.definition.id_text() == id@,
        None => true,
    }
}

/// Whether the step waits for the approval asked for.
pub open spec fn approvable(step: WorkflowStepState, step_id: Option<String>) -> bool {
    step.status is Waiting && asked_for(step, step_id)
}

/// Whether the step can be retried as asked for.
pub open spec fn retriable(step: WorkflowStepState, step_id: Option<String>) -> bool {
    (step.status is Failed || step.status is Interrupted) && asked_for(step, step_id)
}

/// Whether `i` is the first step that waits for the approval asked for.
pub open spec fn first_approvable(
    steps: Seq<WorkflowStepState>,
    step_id: Option<String>,
    i: int,
) -> bool {
    &&& 0 <= i < steps.len()
    &&& approvable(steps[i], step_id)
    &&& forall|j: int| 0 <= j < i ==> !approvable(#[trigger] steps[j], step_id)
}

/// Whether `i` is the first step that can be retried as asked for.
pub open spec fn first_retriable(
    steps: Seq<WorkflowStepState>,
    step_id: Option<String>,
    i: int,
) -> bool {
    &&& 0 <= i < steps.len()
    &&& retriable(steps[i], step_id)
    &&& forall|j: int| 0 <= j < i ==> !retriable(#[trigger] steps[j], step_id)
}

/// The tasks of the running steps, in order.
pub open spec fn running_tasks(steps: Seq<WorkflowStepState>) -> Seq<String>
    decreases steps.len(),
{
    if steps.len() == 0 {
        Seq::empty()
    } else {
        let rest = running_tasks(steps.drop_last());
        match steps.last().task_id {
            Some(id) => if steps.last().status is Running {
                rest.push(id)
            } else {
                rest
            },
            None => rest,
        }
    }
}

/// What a control call asks for.
#[derive(Clone, Debug)]
pub struct ControlOutcome {
    /// Whether the run has to be driven on.
    pub drive: bool,
    /// The tasks to cancel.
    pub cancel_tasks: Vec<String>,
}

/// Whether the action and the run lead from `before` to `after` and `r`.
pub open spec fn controlled(
    before: WorkflowRecord,
    after: WorkflowRecord,
    action: Seq<char>,
    step_id: Option<String>,
    now: u64,
    r: Result<ControlOutcome, WorkflowError>,
) -> bool {
    let steps = before.run.steps@;
    if action == "approve"@ {
        if exists|i: int| first_approvable(steps, step_id, i) {
            let i = choose|i: int| first_approvable(steps, step_id, i);
            &&& after == (WorkflowRecord { run: after.run, ..before })
            &&& after.run == (WorkflowRun {
                steps: after.run.steps,
                status: RunStatus::Pending,
                current_step: None,
                updated_at_ms: now,
                ..before.run
            })
            &&& after.run.steps@ == steps.update(
                i,
                WorkflowStepState { status: StepStatus::Completed, ..steps[i] },
            )
            &&& r matches Ok(outcome)
            &&& outcome.drive
            &&& outcome.cancel_tasks@.len() == 0
        } else {
            after == before && r matches Err(WorkflowError::NoCheckpoint)
        }
    } else if action == "reject"@ || action == "cancel"@ {
        &&& after == (WorkflowRecord {
            run: WorkflowRun {
                status: RunStatus::Cancelled,
                current_step: None,
                updated_at_ms: now,
                ..before.run
            },
            cancelled: true,
            ..before
        })
        &&& r matches Ok(outcome)
        &&& !outcome.drive
        &&& outcome.cancel_tasks@ == running_tasks(steps)
    } else if action == "retry"@ {
        if exists|i: int| first_retriable(steps, step_id, i) {
            let i = choose|i: int| first_retriable(steps, step_id, i);
            &&& after == (WorkflowRecord { run: after.run, cancelled: false, ..before })
            &&& after.run == (WorkflowRun {
                steps: after.run.steps,
                status: RunStatus::Pending,
                current_step: None,
                error: None,
                updated_at_ms: now,
                ..before.run
            })
            &&& after.run.steps@ == steps.update(
                i,
                WorkflowStepState {
                    status: StepStatus::Pending,
                    error: None,
                    task_id: None,
                    ..steps[i]
                },
            )
            &&& r matches Ok(outcome)
            &&& outcome.drive
            &&& outcome.cancel_tasks@.len() == 0
        } else {
            after == before && r matches Err(WorkflowError::NoFailedStep)
        }
    } else {
        after == before && (r matches Err(WorkflowError::Action { action: a }) && a@ == action)
    }
}

fn is_asked_for(step: &WorkflowStepState, step_id: &Option<String>) -> (r: bool)
    ensures
        r == asked_for(*step, *step_id),
{
    match step_id {
        Some(id) => text::same_text(step.definition.id().as_str(), id.as_str()),
        None => true,
    }
}

fn find_approvable(steps: &Vec<WorkflowStepState>, step_id: &Option<String>) -> (r: Option<usize>)
    ensures
        match r {
            Some(i) => first_approvable(steps@, *step_id, i as int) && forall|x: int|
                first_approvable(steps@, *step_id, x) ==> x == i,
            None => !exists|i: int| first_approvable(steps@, *step_id, i),
        },
{
    let mut i: usize = 0;
    while i < steps.len()
        invariant
            i <= steps.len(),
            forall|j: int| 0 <= j < i ==> !approvable(#[trigger] steps@[j], *step_id),
        decreases steps.len() - i,
    {
        if steps[i].status == StepStatus::Waiting && is_asked_for(&steps[i], step_id) {
            assert(approvable(steps@[i as int], *step_id));
            return Some(i);
        }
        i += 1;
    }
    None
}

fn find_retriable(steps: &Vec<WorkflowStepState>, step_id: &Option<String>) -> (r: Option<usize>)
    ensures
        match r {
            Some(i) => first_retriable(steps@, *step_id, i as int) && forall|x: int|
                first_retriable(steps@, *step_id, x) ==> x == i,
            None => !exists|i: int| first_retriable(steps@, *step_id, i),
        },
{
    let mut i: usize = 0;
    while i < steps.len()
        invariant
            i <= steps.len(),
            forall|j: int| 0 <= j < i ==> !retriable(#[trigger] steps@[j], *step_id),
        decreases steps.len() - i,
    {
        if (steps[i].status == StepStatus::Failed || steps[i].status == StepStatus::Interrupted)
            && is_asked_for(&steps[i], step_id) {
            assert(retriable(steps@[i as int], *step_id));
            return Some(i);
        }
        i += 1;
    }
    None
}

fn list_running_tasks(steps: &Vec<WorkflowStepState>) -> (r: Vec<String>)
    ensures
        r@ == running_tasks(steps@),
{
    let mut out: Vec<String> = Vec::new();
    let mut i: usize = 0;
    while i < steps.len()
        invariant
            i <= steps.len(),
            out@ == running_tasks(steps@.take(i as int)),
        decreases steps.len() - i,
    {
        let ghost part = steps@.take(i + 1);
        assert(part.drop_last() =~= steps@.take(i as int));
        assert(part.last() == steps@[i as int]);
        if steps[i].status == StepStatus::Running {
            match &steps[i].task_id {
                Some(id) => {
                    out.push(id.clone());
                },
                None => {},
            }
        }
        i += 1;
    }
    assert(steps@.take(steps@.len() as int) =~= steps@);
    out
}

impl WorkflowRecord {
    /// Approves, rejects, cancels or retries the run.
    pub fn control(&mut self, action: &str, step_id: &Option<String>, now: u64) -> (r: Result<
        ControlOutcome,
        WorkflowError,
    >)
        ensures
            controlled(*old(self), *final(self), action@, *step_id, now, r),
            progresses(old(self).run.steps@, final(self).run.steps@),
            sound(old(self).run.steps@) ==> sound(final(self).run.steps@),
    {
        if text::same_text(action, "approve") {
            match find_approvable(&self.run.steps, step_id) {
                Some(i) => {
                    self.run.steps[i].status = StepStatus::Completed;
                    self.run.status = RunStatus::Pending;
                    self.run.current_step = None;
                    self.run.updated_at_ms = now;
                    proof {
                        assert(first_approvable(old(self).run.steps@, *step_id, i as int));
                        let c = choose|c: int| first_approvable(old(self).run.steps@, *step_id, c);
                        assert(c == i);
                        if sound(old(self).run.steps@) {
                            soundness_kept(old(self).run.steps@, self.run.steps@);
                        }
                    }
                    Ok(ControlOutcome { drive: true, cancel_tasks: Vec::new() })
                },
                None => Err(WorkflowError::NoCheckpoint),
            }
        } else if text::same_text(action, "reject") || text::same_text(action, "cancel") {
            let cancel_tasks: Vec<String> = list_running_tasks(&self.run.steps);
            self.cancelled = true;
            self.run.status = RunStatus::Cancelled;
            self.run.current_step = None;
            self.run.updated_at_ms = now;
            Ok(ControlOutcome { drive: false, cancel_tasks })
        } else if text::same_text(action, "retry") {
            match find_retriable(&self.run.steps, step_id) {
                Some(i) => {
                    self.run.steps[i].status = StepStatus::Pending;
                    self.run.steps[i].error = None;
                    self.run.steps[i].task_id = None;
                    self.run.status = RunStatus::Pending;
                    self.run.error = None;
                    self.run.current_step = None;
                    self.run.updated_at_ms = now;
                    self.cancelled = false;
                    proof {
                        assert(self.run.steps@ =~= old(self).run.steps@.update(
                            i as int,
                            WorkflowStepState {
                                status: StepStatus::Pending,
                                error: None,
                                task_id: None,
                                ..old(self).run.steps@[i as int]
                            },
                        ));
                        assert(first_retriable(old(self).run.steps@, *step_id, i as int));
                        let c = choose|c: int| first_retriable(old(self).run.steps@, *step_id, c);
                        assert(c == i);
                        if sound(old(self).run.steps@) {
                            soundness_kept(old(self).run.steps@, self.run.steps@);
                        }
                    }
                    Ok(ControlOutcome { drive: true, cancel_tasks: Vec::new() })
                },
                None => Err(WorkflowError::NoFailedStep),
            }
        } else {
            Err(WorkflowError::Action { action: action.to_owned() })
        }
    }

    /// Claims the run for one driver; `false` if it is already being driven.
    pub fn begin_drive(&mut self) -> (r: bool)
        ensures
            r == !old(self).driving,
            *final(self) == (WorkflowRecord { driving: true, ..*old(self) }),
    {
        if self.driving {
            return false;
        }
        self.driving = true;
        true
    }

    /// Gives the run up after a drive, unless it became pending meanwhile; then it has
    /// to be driven again.
    pub fn end_drive(&mut self) -> (r: bool)
        ensures
            r == (old(self).run.status is Pending),
            *final(self) == (WorkflowRecord { driving: r, ..*old(self) }),
    {
        let again: bool = self.run.status == RunStatus::Pending;
        self.driving = again;
        again
    }

    /// Marks the run as failed.
    pub fn fail(&mut self, error: String, now: u64)
        ensures
            *final(self) == (WorkflowRecord {
                run: WorkflowRun {
                    status: RunStatus::Failed,
                    error: Some(error),
                    updated_at_ms: now,
                    ..old(self).run
                },
                ..*old(self)
            }),
    {
        self.run.status = RunStatus::Failed;
        self.run.error = Some(error);
        self.run.updated_at_ms = now;
    }
}

/// An approval completes the checkpoint and lets the run go on; it cannot be repeated.
pub proof fn approval_is_single(
    before: WorkflowRecord,
    after: WorkflowRecord,
    id: String,
    now: u64,
    r: Result<ControlOutcome, WorkflowError>,
    i: int,
)
    requires
        workflow::good_ids(definitions_of(before.run.steps@)),
        controlled(before, after, "approve"@, Some(id), now, r),
        first_approvable(before.run.steps@, Some(id), i),
    ensures
        after.run.steps@[i].status is Completed,
        after.run.status is Pending,
        !exists|j: int| first_approvable(after.run.steps@, Some(id), j),
{
    reveal_strlit("approve");
    let steps = before.run.steps@;
    let c = choose|c: int| first_approvable(steps, Some(id), c);
    assert(c == i) by {
        if c < i {
            assert(!approvable(steps[c], Some(id)));
        } else if i < c {
            assert(!approvable(steps[i], Some(id)));
        }
    }
    assert forall|j: int| !first_approvable(after.run.steps@, Some(id), j) by {
        if first_approvable(after.run.steps@, Some(id), j) && j != i {
            let defs = definitions_of(steps);
            assert(after.run.steps@[j] == steps[j]);
            assert(defs[j].id_text() == defs[i].id_text());
            if j < i {
                assert(defs[j].id_text() != defs[i].id_text());
            } else {
                assert(defs[i].id_text() != defs[j].id_text());
            }
        }
    }
}

/// The message of a run that was active when the client stopped.
pub open spec fn stopped_text() -> Seq<char> {
    task::stopped_during("workflow"@) + "; retry explicitly"@
}

fn stopped_message() -> (r: String)
    ensures
        r@ == stopped_text(),
{
    text::joined(task::stopped_message("workflow").as_str(), "; retry explicitly")
}

/// A step of a run that was active when the client stopped.
pub open spec fn interrupted_step(before: WorkflowStepState, after: WorkflowStepState) -> bool {
    if before.status is Running {
        &&& after == (WorkflowStepState {
            status: StepStatus::Interrupted,
            error: after.error,
            ..before
        })
        &&& after.error matches Some(e)
        &&& e@ == stopped_text()
    } else {
        after == before
    }
}

/// A run that was active was interrupted, and its running steps with it.
pub open spec fn interrupted(before: WorkflowRun, after: WorkflowRun) -> bool {
    &&& after == (WorkflowRun {
        status: RunStatus::Interrupted,
        error: after.error,
        steps: after.steps,
        ..before
    })
    &&& after.error matches Some(e)
    &&& e@ == stopped_text()
    &&& after.steps@.len() == before.steps@.len()
    &&& forall|i: int|
        0 <= i < after.steps@.len() ==> interrupted_step(
            before.steps@[i],
            #[trigger] after.steps@[i],
        )
}

impl WorkflowRun {
    /// Takes over a stored run: one that was active is interrupted. Returns whether the
    /// run has changed and must be stored.
    pub fn interrupt(&mut self) -> (r: bool)
        ensures
            r == (old(self).status is Pending || old(self).status is Running),
            !r ==> *final(self) == *old(self),
            r ==> interrupted(*old(self), *final(self)),
            progresses(old(self).steps@, final(self).steps@),
            sound(old(self).steps@) ==> sound(final(self).steps@),
    {
        if self.status != RunStatus::Pending && self.status != RunStatus::Running {
            return false;
        }
        self.status = RunStatus::Interrupted;
        self.error = Some(stopped_message());
        let ghost changed = *self;
        let mut i: usize = 0;
        while i < self.steps.len()
            invariant
                i <= self.steps.len(),
                *self == (WorkflowRun { steps: self.steps, ..changed }),
                self.steps@.len() == old(self).steps@.len(),
                forall|j: int|
                    0 <= j < i ==> interrupted_step(
                        old(self).steps@[j],
                        #[trigger] self.steps@[j],
                    ),
                forall|j: int|
                    i <= j < self.steps@.len() ==> #[trigger] self.steps@[j]
                        == old(self).steps@[j],
            decreases self.steps.len() - i,
        {
            if self.steps[i].status == StepStatus::Running {
                self.steps[i].status = StepStatus::Interrupted;
                self.steps[i].error = Some(stopped_message());
            }
            i += 1;
        }
        proof {
            assert forall|j: int| 0 <= j < self.steps@.len() implies {
                &&& (#[trigger] self.steps@[j]).definition == old(self).steps@[j].definition
                &&& old(self).steps@[j].status is Completed ==> self.steps@[j].status is Completed
            } by {
                assert(interrupted_step(old(self).steps@[j], self.steps@[j]));
            }
            if sound(old(self).steps@) {
                assert forall|j: int|
                    0 <= j < self.steps@.len() && old(self).steps@[j].status is Pending && !((
                    #[trigger] self.steps@[j]).status is Pending) implies needs_met(
                    old(self).steps@,
                    j,
                ) by {
                    assert(interrupted_step(old(self).steps@[j], self.steps@[j]));
                }
                soundness_kept(old(self).steps@, self.steps@);
            }
        }
        true
    }
}

/// The statuses of steps are told apart where they are sent.
pub proof fn step_states_are_sent_apart(a: StepStatus, b: StepStatus)
    requires
        a.wire_name() == b.wire_name(),
    ensures
        a == b,
{
    reveal_strlit("pending");
    reveal_strlit("running");
    reveal_strlit("waiting");
    reveal_strlit("completed");
    reveal_strlit("failed");
    reveal_strlit("cancelled");
    reveal_strlit("interrupted");
    assert("pending"@.len() == 7);
    assert("running"@.len() == 7);
    assert("waiting"@.len() == 7);
    assert("completed"@.len() == 9);
    assert("failed"@.len() == 6);
    assert("cancelled"@.len() == 9);
    assert("interrupted"@.len() == 11);
    assert("pending"@[0] == 'p');
    assert("running"@[0] == 'r');
    assert("waiting"@[0] == 'w');
    assert("completed"@[1] == 'o');
    assert("cancelled"@[1] == 'a');
}

/// The statuses of runs are told apart where they are sent.
pub proof fn run_states_are_sent_apart(a: RunStatus, b: RunStatus)
    requires
        a.wire_name() == b.wire_name(),
    ensures
        a == b,
{
    reveal_strlit("pending");
    reveal_strlit("running");
    reveal_strlit("paused");
    reveal_strlit("completed");
    reveal_strlit("failed");
    reveal_strlit("cancelled");
    reveal_strlit("interrupted");
    assert("pending"@.len() == 7);
    assert("running"@.len() == 7);
    assert("paused"@.len() == 6);
    assert("completed"@.len() == 9);
    assert("failed"@.len() == 6);
    assert("cancelled"@.len() == 9);
    assert("interrupted"@.len() == 11);
    assert("pending"@[0] == 'p');
    assert("running"@[0] == 'r');
    assert("paused"@[0] == 'p');
    assert("failed"@[0] == 'f');
    assert("completed"@[1] == 'o');
    assert("cancelled"@[1] == 'a');
}

proof fn listed_steps_are_ready(steps: Seq<WorkflowStepState>, n: int, k: int)
    requires
        0 <= n <= steps.len(),
        0 <= k < ready_upto(steps, n).len(),
    ensures
        0 <= ready_upto(steps, n)[k] < n,
        ready(steps, ready_upto(steps, n)[k]),
        k > 0 ==> ready_upto(steps, n)[k - 1] < ready_upto(steps, n)[k],
    decreases n,
{
    if n > 0 {
        let rest = ready_upto(steps, n - 1);
        if k < rest.len() {
            listed_steps_are_ready(steps, n - 1, k);
        } else if k > 0 {
            listed_steps_are_ready(steps, n - 1, k - 1);
        }
    }
}

proof fn ready_steps_are_listed(steps: Seq<WorkflowStepState>, n: int, i: int) -> (k: int)
    requires
        0 <= i < n <= steps.len(),
        ready(steps, i),
    ensures
        0 <= k < ready_upto(steps, n).len(),
        ready_upto(steps, n)[k] == i,
    decreases n,
{
    if i == n - 1 {
        ready_upto(steps, n - 1).len() as int
    } else {
        ready_steps_are_listed(steps, n - 1, i)
    }
}

/// A step that can start has not begun, and a completed step stands for each of its
/// dependencies. The steps are listed in their order, each once.
pub proof fn steps_wait_for_their_dependencies(steps: Seq<WorkflowStepState>, k: int, d: int) -> (j:
    int)
    requires
        0 <= k < ready_steps(steps).len(),
        0 <= ready_steps(steps)[k] < steps.len() ==> 0 <= d
            < steps[ready_steps(steps)[k]].definition.needs().len(),
    ensures
        ({
            let i = ready_steps(steps)[k];
            &&& 0 <= i < steps.len()
            &&& steps[i].status is Pending
            &&& k > 0 ==> ready_steps(steps)[k - 1] < i
            &&& 0 <= j < steps.len()
            &&& steps[j].status is Completed
            &&& steps[j].definition.id_text() == steps[i].definition.needs()[d]@
        }),
{
    let i = ready_steps(steps)[k];
    listed_steps_are_ready(steps, steps.len() as int, k);
    let name = steps[i].definition.needs()[d]@;
    assert(completed(steps, name));
    choose|j: int|
        0 <= j < steps.len() && (#[trigger] steps[j]).status is Completed
            && steps[j].definition.id_text() == name
}

/// A step that has not begun and whose dependencies are all completed can start.
pub proof fn unblocked_steps_can_start(
    steps: Seq<WorkflowStepState>,
    i: int,
    done: Seq<int>,
) -> (k: int)
    requires
        0 <= i < steps.len(),
        steps[i].status is Pending,
        done.len() == steps[i].definition.needs().len(),
        forall|d: int|
            0 <= d < done.len() ==> {
                &&& 0 <= #[trigger] done[d] < steps.len()
                &&& steps[done[d]].status is Completed
                &&& steps[done[d]].definition.id_text() == steps[i].definition.needs()[d]@
            },
    ensures
        0 <= k < ready_steps(steps).len(),
        ready_steps(steps)[k] == i,
{
    assert forall|d: int| 0 <= d < steps[i].definition.needs().len() implies completed(
        steps,
        (#[trigger] steps[i].definition.needs()[d])@,
    ) by {
        assert(steps[done[d]].status is Completed);
    }
    ready_steps_are_listed(steps, steps.len() as int, i)
}

/// A run that was cancelled, or that is paused or over, is left alone.
pub proof fn halted_runs_stay(
    before: WorkflowRecord,
    after: WorkflowRecord,
    now: u64,
    r: Advance,
)
    requires
        advanced(before, after, now, r),
        before.cancelled || before.run.status is Completed || before.run.status is Failed
            || before.run.status is Cancelled || before.run.status is Interrupted
            || before.run.status is Paused,
    ensures
        after == before,
        r is Stop,
{
}

/// A run under way is completed when, and only when, every step is.
pub proof fn runs_complete_with_their_steps(
    before: WorkflowRecord,
    after: WorkflowRecord,
    now: u64,
    r: Advance,
)
    requires
        advanced(before, after, now, r),
        !before.cancelled,
        before.run.status is Pending || before.run.status is Running,
    ensures
        after.run.status is Completed <==> (forall|i: int|
            0 <= i < before.run.steps@.len() ==> (#[trigger] before.run.steps@[i]).status
                is Completed),
        after.run.status is Completed ==> after.run.current_step is None && after.run.steps
            == before.run.steps,
{
    let steps = before.run.steps@;
    if ready_steps(steps).len() > 0 {
        listed_steps_are_ready(steps, steps.len() as int, 0);
        assert(!(steps[ready_steps(steps)[0]].status is Completed));
    }
}

/// A checkpoint that is reached stops the run: nothing is started, and the checkpoint waits.
pub proof fn checkpoints_pause_the_run(
    before: WorkflowRecord,
    after: WorkflowRecord,
    now: u64,
    r: Advance,
    k: int,
    i: int,
)
    requires
        advanced(before, after, now, r),
        !before.cancelled,
        before.run.status is Pending || before.run.status is Running,
        0 <= k < ready_steps(before.run.steps@).len(),
        before.run.steps@[ready_steps(before.run.steps@)[k]].definition is Checkpoint,
        0 <= i < before.run.steps@.len(),
    ensures
        after.run.status is Paused,
        r is Announce,
        after.run.steps@.len() == before.run.steps@.len(),
        after.run.steps@[i] == before.run.steps@[i] || (before.run.steps@[i].definition
            is Checkpoint && before.run.steps@[i].status is Pending && after.run.steps@[i].status
            is Waiting && after.run.current_step is Some && after.run.current_step->0@
            == before.run.steps@[i].definition.id_text()),
{
    let steps = before.run.steps@;
    let c = ready_steps(steps)[k];
    listed_steps_are_ready(steps, steps.len() as int, k);
    some_checkpoint_is_first(steps, c);
    let first = choose|i: int| first_checkpoint(steps, i);
    assert(first_checkpoint(steps, first));
}

proof fn some_checkpoint_is_first(steps: Seq<WorkflowStepState>, c: int)
    requires
        0 <= c < steps.len(),
        ready(steps, c),
        steps[c].definition is Checkpoint,
    ensures
        exists|i: int| first_checkpoint(steps, i),
    decreases c,
{
    if !first_checkpoint(steps, c) {
        let j = choose|j: int|
            0 <= j < c && ready(steps, j) && (#[trigger] steps[j]).definition is Checkpoint;
        some_checkpoint_is_first(steps, j);
    }
}

/// Only agent steps are started, and only ones that can start; all of those are, each for
/// one more attempt, and the others stay as they are.
pub proof fn started_steps_could_start(
    before: WorkflowRecord,
    after: WorkflowRecord,
    now: u64,
    r: Advance,
    i: int,
)
    requires
        advanced(before, after, now, r),
        r is Launch,
        0 <= i < before.run.steps@.len(),
        before.run.steps@[i].attempt_count < usize::MAX,
    ensures
        after.run.status is Running,
        after.run.steps@.len() == before.run.steps@.len(),
        ready_steps(before.run.steps@).contains(i) ==> {
            &&& before.run.steps@[i].definition is Agent
            &&& after.run.steps@[i].status is Running
            &&& after.run.steps@[i].attempt_count == before.run.steps@[i].attempt_count + 1
            &&& after.run.steps@[i].definition == before.run.steps@[i].definition
            &&& r->Launch_0@.contains(i as usize)
        },
        !ready_steps(before.run.steps@).contains(i) ==> after.run.steps@[i]
            == before.run.steps@[i],
{
    let steps = before.run.steps@;
    let list = ready_steps(steps);
    let launched = r->Launch_0@;
    let numbers = launched.map_values(|i: usize| i as int);
    assert(numbers == list);
    if list.contains(i) {
        let k = choose|k: int| 0 <= k < list.len() && list[k] == i;
        listed_steps_are_ready(steps, steps.len() as int, k);
        if steps[i].definition is Checkpoint {
            some_checkpoint_is_first(steps, i);
        }
        assert(numbers[k] == launched[k] as int);
        assert(launched[k] == i as usize);
    } else if ready(steps, i) {
        let k = ready_steps_are_listed(steps, steps.len() as int, i);
        assert(list[k] == i);
    }
}

/// The output of every completed dependency is handed on, between marks that name the step.
pub proof fn dependency_outputs_are_handed_on(
    input: Seq<char>,
    instruction: Seq<char>,
    artifacts: Seq<WorkflowArtifact>,
    needs: Seq<String>,
    i: int,
    k: int,
) -> (r: (Seq<char>, Seq<char>))
    requires
        0 <= i < artifacts.len(),
        0 <= k < needs.len(),
        needs[k]@ == artifacts[i].step_id@,
    ensures
        step_prompt(input, instruction, context_parts(artifacts, needs)) == r.0 + ("<dependency step=\""@
            + artifacts[i].step_id@ + "\">\n"@ + artifacts[i].content@ + "\n</dependency>"@) + r.1,
{
    let parts = context_parts(artifacts, needs);
    let section = "<dependency step=\""@ + artifacts[i].step_id@ + "\">\n"@ + artifacts[i].content@
        + "\n</dependency>"@;
    assert(text::lists(needs, artifacts[i].step_id@));
    let p = needed_outputs_have_a_part(artifacts, needs, i);
    let (a, b) = text::joined_texts_stand_in_the_whole(parts, "\n\n"@, p);
    reveal_strlit("<dependency step=\"");
    assert(section.len() > 0);
    let head = "Workflow root request:\n"@ + input + "\n\nStep instruction:\n"@ + instruction
        + "\n\nUntrusted dependency outputs:\n"@;
    let before = head + a;
    assert(step_prompt(input, instruction, parts) =~= before + section + b);
    (before, b)
}

proof fn needed_outputs_have_a_part(
    artifacts: Seq<WorkflowArtifact>,
    needs: Seq<String>,
    i: int,
) -> (p: int)
    requires
        0 <= i < artifacts.len(),
        text::lists(needs, artifacts[i].step_id@),
    ensures
        0 <= p < context_parts(artifacts, needs).len(),
        context_parts(artifacts, needs)[p] == "<dependency step=\""@ + artifacts[i].step_id@
            + "\">\n"@ + artifacts[i].content@ + "\n</dependency>"@,
    decreases artifacts.len(),
{
    let rest = context_parts(artifacts.drop_last(), needs);
    if i == artifacts.len() - 1 {
        rest.len() as int
    } else {
        let p = needed_outputs_have_a_part(artifacts.drop_last(), needs, i);
        assert(context_parts(artifacts, needs)[p] == rest[p]);
        p
    }
}

/// Each section of the context is the output of a step that is asked for.
pub proof fn only_dependencies_are_handed_on(
    artifacts: Seq<WorkflowArtifact>,
    needs: Seq<String>,
    p: int,
) -> (r: (int, int))
    requires
        0 <= p < context_parts(artifacts, needs).len(),
    ensures
        0 <= r.0 < artifacts.len(),
        0 <= r.1 < needs.len(),
        needs[r.1]@ == artifacts[r.0].step_id@,
        context_parts(artifacts, needs)[p] == "<dependency step=\""@ + needs[r.1]@ + "\">\n"@
            + artifacts[r.0].content@ + "\n</dependency>"@,
    decreases artifacts.len(),
{
    let rest = context_parts(artifacts.drop_last(), needs);
    let n = artifacts.len() - 1;
    if p < rest.len() {
        only_dependencies_are_handed_on(artifacts.drop_last(), needs, p)
    } else {
        let k = choose|k: int| 0 <= k < needs.len() && (#[trigger] needs[k])@
            == artifacts[n].step_id@;
        (n, k)
    }
}

/// The output of a step that is not asked for changes nothing in the prompt.
pub proof fn other_outputs_change_nothing(
    input: Seq<char>,
    instruction: Seq<char>,
    artifacts: Seq<WorkflowArtifact>,
    needs: Seq<String>,
    i: int,
)
    requires
        0 <= i < artifacts.len(),
        forall|k: int| 0 <= k < needs.len() ==> (#[trigger] needs[k])@ != artifacts[i].step_id@,
    ensures
        step_prompt(input, instruction, context_parts(artifacts, needs)) == step_prompt(
            input,
            instruction,
            context_parts(artifacts.remove(i), needs),
        ),
{
    unneeded_outputs_have_no_part(artifacts, needs, i);
}

proof fn unneeded_outputs_have_no_part(
    artifacts: Seq<WorkflowArtifact>,
    needs: Seq<String>,
    i: int,
)
    requires
        0 <= i < artifacts.len(),
        !text::lists(needs, artifacts[i].step_id@),
    ensures
        context_parts(artifacts.remove(i), needs) == context_parts(artifacts, needs),
    decreases artifacts.len(),
{
    let fewer = artifacts.remove(i);
    if i == artifacts.len() - 1 {
        assert(fewer =~= artifacts.drop_last());
    } else {
        unneeded_outputs_have_no_part(artifacts.drop_last(), needs, i);
        assert(fewer.drop_last() =~= artifacts.drop_last().remove(i));
        assert(fewer.last() == artifacts.last());
    }
}

/// The prompt of a step holds the request of the run and the instruction of the step, in
/// this order, and nothing else where there is nothing to hand on.
pub proof fn prompts_hold_request_and_instruction(
    input: Seq<char>,
    instruction: Seq<char>,
    artifacts: Seq<WorkflowArtifact>,
    needs: Seq<String>,
)
    ensures
        text::begins_with(
            step_prompt(input, instruction, context_parts(artifacts, needs)),
            "Workflow root request:\n"@ + input + "\n\nStep instruction:\n"@ + instruction,
        ),
        needs.len() == 0 ==> step_prompt(input, instruction, context_parts(artifacts, needs))
            == "Workflow root request:\n"@ + input + "\n\nStep instruction:\n"@ + instruction,
{
    let head = "Workflow root request:\n"@ + input + "\n\nStep instruction:\n"@ + instruction;
    let all = step_prompt(input, instruction, context_parts(artifacts, needs));
    assert(all.subrange(0, head.len() as int) =~= head);
    if needs.len() == 0 {
        no_needs_no_parts(artifacts, needs);
    }
}

proof fn no_needs_no_parts(artifacts: Seq<WorkflowArtifact>, needs: Seq<String>)
    requires
        needs.len() == 0,
    ensures
        context_parts(artifacts, needs).len() == 0,
    decreases artifacts.len(),
{
    if artifacts.len() > 0 {
        no_needs_no_parts(artifacts.drop_last(), needs);
    }
}

/// An artifact keeps the beginning of the output, and all of it where it is short enough.
pub proof fn artifacts_keep_the_output(
    step: WorkflowStepState,
    output: Seq<char>,
    id: String,
    artifact: WorkflowArtifact,
)
    requires
        artifact_of(step, output, id, artifact),
    ensures
        artifact.id == id,
        artifact.step_id@ == step.definition.id_text(),
        artifact.content@.len() <= output.len(),
        artifact.content@ == output.take(artifact.content@.len() as int),
        text::byte_len(artifact.content@) <= 100_000,
        text::byte_len(output) <= 100_000 ==> artifact.content@ == output,
{
    let k = choose|k: int| #[trigger] text::fitting(output, ARTIFACT_LIMIT as nat, k)
        && artifact.content@ == output.take(k);
    assert(output.take(k) =~= output.take(output.take(k).len() as int));
}

/// An approval completes a checkpoint that waits for it and no other step, and lets the run
/// go on. Without one it is refused and nothing changes.
pub proof fn approvals_complete_a_waiting_checkpoint(
    before: WorkflowRecord,
    after: WorkflowRecord,
    step_id: Option<String>,
    now: u64,
    r: Result<ControlOutcome, WorkflowError>,
    i: int,
)
    requires
        controlled(before, after, "approve"@, step_id, now, r),
        0 <= i < before.run.steps@.len(),
    ensures
        r matches Ok(outcome) ==> {
            &&& after.run.status is Pending
            &&& outcome.drive
            &&& outcome.cancel_tasks@.len() == 0
            &&& after.run.steps@.len() == before.run.steps@.len()
            &&& after.run.steps@[i] == before.run.steps@[i] || (before.run.steps@[i].status
                is Waiting && after.run.steps@[i].status is Completed && (step_id matches Some(id)
                ==> id@ == before.run.steps@[i].definition.id_text()))
        },
        r is Err ==> after == before,
        before.run.steps@[i].status is Waiting && (step_id matches Some(id) ==> id@
            == before.run.steps@[i].definition.id_text()) ==> r is Ok,
{
    let steps = before.run.steps@;
    if approvable(steps[i], step_id) {
        some_approvable_is_first(steps, step_id, i);
    }
    if exists|j: int| first_approvable(steps, step_id, j) {
        let j = choose|j: int| first_approvable(steps, step_id, j);
        assert(first_approvable(steps, step_id, j));
    }
}

proof fn some_approvable_is_first(
    steps: Seq<WorkflowStepState>,
    step_id: Option<String>,
    i: int,
)
    requires
        0 <= i < steps.len(),
        approvable(steps[i], step_id),
    ensures
        exists|j: int| first_approvable(steps, step_id, j),
    decreases i,
{
    if !first_approvable(steps, step_id, i) {
        let j = choose|j: int| 0 <= j < i && approvable(#[trigger] steps[j], step_id);
        some_approvable_is_first(steps, step_id, j);
    }
}

/// A retry sets a step that failed or was interrupted back, without its error, and no other
/// step, and lets the run go on. Without one it is refused and nothing changes.
pub proof fn retries_set_a_failed_step_back(
    before: WorkflowRecord,
    after: WorkflowRecord,
    step_id: Option<String>,
    now: u64,
    r: Result<ControlOutcome, WorkflowError>,
    i: int,
)
    requires
        controlled(before, after, "retry"@, step_id, now, r),
        0 <= i < before.run.steps@.len(),
    ensures
        r matches Ok(outcome) ==> {
            &&& after.run.status is Pending
            &&& after.run.error is None
            &&& !after.cancelled
            &&& outcome.drive
            &&& outcome.cancel_tasks@.len() == 0
            &&& after.run.steps@.len() == before.run.steps@.len()
            &&& after.run.steps@[i] == before.run.steps@[i] || ((before.run.steps@[i].status
                is Failed || before.run.steps@[i].status is Interrupted)
                && after.run.steps@[i].status is Pending && after.run.steps@[i].error is None && (
            step_id matches Some(id) ==> id@ == before.run.steps@[i].definition.id_text()))
        },
        r is Err ==> after == before,
        (before.run.steps@[i].status is Failed || before.run.steps@[i].status is Interrupted) && (
        step_id matches Some(id) ==> id@ == before.run.steps@[i].definition.id_text()) ==> r is Ok,
{
    reveal_strlit("approve");
    reveal_strlit("reject");
    reveal_strlit("cancel");
    reveal_strlit("retry");
    assert("approve"@.len() == 7);
    assert("reject"@.len() == 6);
    assert("cancel"@.len() == 6);
    assert("retry"@.len() == 5);
    assert("reject"@[0] == 'r');
    assert("cancel"@[0] == 'c');
    let steps = before.run.steps@;
    if retriable(steps[i], step_id) {
        some_retriable_is_first(steps, step_id, i);
    }
    if exists|j: int| first_retriable(steps, step_id, j) {
        let j = choose|j: int| first_retriable(steps, step_id, j);
        assert(first_retriable(steps, step_id, j));
    }
}

proof fn some_retriable_is_first(steps: Seq<WorkflowStepState>, step_id: Option<String>, i: int)
    requires
        0 <= i < steps.len(),
        retriable(steps[i], step_id),
    ensures
        exists|j: int| first_retriable(steps, step_id, j),
    decreases i,
{
    if !first_retriable(steps, step_id, i) {
        let j = choose|j: int| 0 <= j < i && retriable(#[trigger] steps[j], step_id);
        some_retriable_is_first(steps, step_id, j);
    }
}

/// A rejection and a cancellation end the run, keep its steps, and cancel the tasks of all
/// running steps.
pub proof fn cancelling_ends_the_run(
    before: WorkflowRecord,
    after: WorkflowRecord,
    action: Seq<char>,
    step_id: Option<String>,
    now: u64,
    r: Result<ControlOutcome, WorkflowError>,
)
    requires
        controlled(before, after, action, step_id, now, r),
        action == "reject"@ || action == "cancel"@,
    ensures
        r is Ok,
        !r->Ok_0.drive,
        after.cancelled,
        after.run.status is Cancelled,
        after.run.steps == before.run.steps,
        after.run.artifacts == before.run.artifacts,
        forall|i: int|
            0 <= i < before.run.steps@.len() && (#[trigger] before.run.steps@[i]).status is Running
                && before.run.steps@[i].task_id is Some ==> r->Ok_0.cancel_tasks@.contains(
                before.run.steps@[i].task_id->0,
            ),
{
    reveal_strlit("approve");
    reveal_strlit("reject");
    reveal_strlit("cancel");
    reveal_strlit("retry");
    assert("approve"@.len() == 7);
    assert("reject"@.len() == 6);
    assert("cancel"@.len() == 6);
    assert("retry"@.len() == 5);
    assert("reject"@[0] == 'r');
    assert("cancel"@[0] == 'c');
    let steps = before.run.steps@;
    let tasks = r->Ok_0.cancel_tasks@;
    assert forall|i: int|
        0 <= i < steps.len() && (#[trigger] steps[i]).status is Running && steps[i].task_id
            is Some implies tasks.contains(steps[i].task_id->0) by {
        running_tasks_hold(steps, i);
    }
}

/// A task that is cancelled with a run is the task of a running step.
pub proof fn cancelled_tasks_ran(
    before: WorkflowRecord,
    after: WorkflowRecord,
    action: Seq<char>,
    step_id: Option<String>,
    now: u64,
    r: Result<ControlOutcome, WorkflowError>,
    k: int,
) -> (i: int)
    requires
        controlled(before, after, action, step_id, now, r),
        r is Ok,
        0 <= k < r->Ok_0.cancel_tasks@.len(),
    ensures
        0 <= i < before.run.steps@.len(),
        before.run.steps@[i].status is Running,
        before.run.steps@[i].task_id == Some(r->Ok_0.cancel_tasks@[k]),
{
    running_tasks_run(before.run.steps@, k)
}

pub(crate) proof fn running_tasks_hold(steps: Seq<WorkflowStepState>, i: int)
    requires
        0 <= i < steps.len(),
        steps[i].status is Running,
        steps[i].task_id is Some,
    ensures
        running_tasks(steps).contains(steps[i].task_id->0),
    decreases steps.len(),
{
    let rest = running_tasks(steps.drop_last());
    let all = running_tasks(steps);
    if i == steps.len() - 1 {
        assert(all[rest.len() as int] == steps[i].task_id->0);
    } else {
        running_tasks_hold(steps.drop_last(), i);
        let k = choose|k: int| 0 <= k < rest.len() && rest[k] == steps[i].task_id->0;
        assert(all[k] == rest[k]);
    }
}

proof fn running_tasks_run(steps: Seq<WorkflowStepState>, k: int) -> (i: int)
    requires
        0 <= k < running_tasks(steps).len(),
    ensures
        0 <= i < steps.len(),
        steps[i].status is Running,
        steps[i].task_id == Some(running_tasks(steps)[k]),
    decreases steps.len(),
{
    let rest = running_tasks(steps.drop_last());
    if k < rest.len() {
        running_tasks_run(steps.drop_last(), k)
    } else {
        steps.len() - 1
    }
}

/// There are four actions; others are refused and change nothing.
pub proof fn other_actions_are_refused(
    before: WorkflowRecord,
    after: WorkflowRecord,
    action: Seq<char>,
    step_id: Option<String>,
    now: u64,
    r: Result<ControlOutcome, WorkflowError>,
)
    requires
        controlled(before, after, action, step_id, now, r),
        action != "approve"@,
        action != "reject"@,
        action != "cancel"@,
        action != "retry"@,
    ensures
        after == before,
        r is Err,
{
}

/// After a restart no step of an interrupted run runs; what was completed, failed or had not
/// begun stays.
pub proof fn interrupted_runs_stand_still(before: WorkflowRun, after: WorkflowRun, i: int)
    requires
        interrupted(before, after),
        0 <= i < before.steps@.len(),
    ensures
        after.status is Interrupted,
        after.error is Some,
        after.artifacts == before.artifacts,
        after.steps@.len() == before.steps@.len(),
        !(after.steps@[i].status is Running),
        before.steps@[i].status is Running ==> after.steps@[i].status is Interrupted
            && after.steps@[i].error is Some,
        !(before.steps@[i].status is Running) ==> after.steps@[i] == before.steps@[i],
{
    assert(interrupted_step(before.steps@[i], after.steps@[i]));
}

} // verus!
