//! The screens for subagent tasks and workflow runs.

use vstd::prelude::*;

use crate::geometry::Rect;
use crate::harness::SubagentTask;
use crate::harness::WorkflowArtifactSnapshot;
use crate::harness::WorkflowCatalogEntry;
use crate::harness::WorkflowPreview;
use crate::harness::WorkflowRunSnapshot;
use crate::harness::WorkflowStepSnapshot;
use crate::text;

verus! {

broadcast use vstd::string::group_string_axioms;

/// What a subagent has reported, as JSON text.
#[derive(Clone, Debug)]
pub struct TaskTranscript {
    pub task_id: String,
    pub events: Vec<String>,
}

/// The tasks and workflow runs, and which of them are selected.
#[derive(Clone, Debug)]
pub struct Boards {
    pub subagent_tasks: Vec<SubagentTask>,
    pub task_selected: usize,
    pub task_list_rect: Option<Rect>,
    pub task_list_offset: usize,
    pub inspected_subagent: Option<String>,
    pub subagent_transcripts: Vec<TaskTranscript>,
    pub workflow_runs: Vec<WorkflowRunSnapshot>,
    pub workflow_selected: usize,
    pub workflow_catalog: Vec<WorkflowCatalogEntry>,
    pub workflow_preview: Option<WorkflowPreview>,
    pub workflow_artifact: Option<WorkflowArtifactSnapshot>,
}

/// Empty lists.
pub open spec fn fresh(b: Boards) -> bool {
    &&& b.subagent_tasks@.len() == 0
    &&& b.task_selected == 0
    &&& b.task_list_rect is None
    &&& b.task_list_offset == 0
    &&& b.inspected_subagent is None
    &&& b.subagent_transcripts@.len() == 0
    &&& b.workflow_runs@.len() == 0
    &&& b.workflow_selected == 0
    &&& b.workflow_catalog@.len() == 0
    &&& b.workflow_preview is None
    &&& b.workflow_artifact is None
}

impl Default for Boards {
    fn default() -> (r: Self)
        ensures
            fresh(r),
    {
        Boards {
            subagent_tasks: Vec::new(),
            task_selected: 0,
            task_list_rect: None,
            task_list_offset: 0,
            inspected_subagent: None,
            subagent_transcripts: Vec::new(),
            workflow_runs: Vec::new(),
            workflow_selected: 0,
            workflow_catalog: Vec::new(),
            workflow_preview: None,
            workflow_artifact: None,
        }
    }
}

/// A run that is not over yet.
pub open spec fn run_open(run: WorkflowRunSnapshot) -> bool {
    run.status@ == "pending"@ || run.status@ == "running"@ || run.status@ == "paused"@
}

/// The first run that is not over yet.
pub open spec fn first_open(runs: Seq<WorkflowRunSnapshot>, k: int) -> bool {
    &&& 0 <= k < runs.len()
    &&& run_open(runs[k])
    &&& forall|j: int| 0 <= j < k ==> !run_open(#[trigger] runs[j])
}

/// A step stands for an action: an approval or a rejection answers a step that
/// waits, and a retry starts one again that failed or was interrupted.
pub open spec fn answers(step: WorkflowStepSnapshot, action: Seq<char>) -> bool {
    if action == "approve"@ || action == "reject"@ {
        step.status@ == "waiting"@
    } else if action == "retry"@ {
        step.status@ == "failed"@ || step.status@ == "interrupted"@
    } else {
        false
    }
}

/// The first step of a run that an action is for.
pub open spec fn step_for(run: WorkflowRunSnapshot, action: Seq<char>, k: int) -> bool {
    &&& 0 <= k < run.steps@.len()
    &&& answers(run.steps@[k], action)
    &&& forall|j: int| 0 <= j < k ==> !answers(#[trigger] run.steps@[j], action)
}

/// What an action on the selected run is sent with: the run, and the step that
/// the action is for. A cancellation is for the whole run. Without a run, or
/// without a step for the action, there is nothing to send.
pub open spec fn control_of(
    b: Boards,
    action: Seq<char>,
    r: Option<(String, Option<String>)>,
) -> bool {
    let i = b.workflow_selected as int;
    if i >= b.workflow_runs@.len() {
        r is None
    } else {
        let run = b.workflow_runs@[i];
        if action == "cancel"@ {
            r matches Some((run_id, step_id)) && run_id == run.run_id && step_id is None
        } else if exists|k: int| step_for(run, action, k) {
            exists|k: int| #[trigger]
                step_for(run, action, k) && (r matches Some((run_id, step_id)) && run_id
                    == run.run_id && step_id == Some(run.steps@[k].id))
        } else {
            r is None
        }
    }
}

fn step_answers(step: &WorkflowStepSnapshot, action: &str) -> (r: bool)
    ensures
        r == answers(*step, action@),
{
    let status: &str = step.status.as_str();
    if text::same_text(action, "approve") || text::same_text(action, "reject") {
        text::same_text(status, "waiting")
    } else if text::same_text(action, "retry") {
        text::same_text(status, "failed") || text::same_text(status, "interrupted")
    } else {
        false
    }
}

fn is_open(run: &WorkflowRunSnapshot) -> (r: bool)
    ensures
        r == run_open(*run),
{
    let status: &str = run.status.as_str();
    text::same_text(status, "pending") || text::same_text(status, "running") || text::same_text(
        status,
        "paused",
    )
}

impl Boards {
    /// The first run that is not over yet.
    pub fn workflow_widget(&self) -> (r: Option<usize>)
        ensures
            match r {
                Some(k) => first_open(self.workflow_runs@, k as int),
                None => forall|k: int| !first_open(self.workflow_runs@, k),
            },
    {
        let mut k: usize = 0;
        while k < self.workflow_runs.len()
            invariant
                k <= self.workflow_runs@.len(),
                forall|j: int| 0 <= j < k ==> !run_open(#[trigger] self.workflow_runs@[j]),
            decreases self.workflow_runs@.len() - k,
        {
            if is_open(&self.workflow_runs[k]) {
                return Some(k);
            }
            k += 1;
        }
        None
    }

    /// Something runs in the background: a task or a workflow run.
    pub open spec fn busy(self) -> bool {
        ||| exists|k: int|
            0 <= k < self.subagent_tasks@.len() && (#[trigger] self.subagent_tasks@[k]).status@
                == "running"@
        ||| exists|k: int|
            0 <= k < self.workflow_runs@.len() && (#[trigger] self.workflow_runs@[k]).status@
                == "running"@
    }

    /// Whether something runs in the background.
    pub fn has_background_work(&self) -> (r: bool)
        ensures
            r == self.busy(),
    {
        let mut k: usize = 0;
        while k < self.subagent_tasks.len()
            invariant
                k <= self.subagent_tasks@.len(),
                forall|j: int|
                    0 <= j < k ==> (#[trigger] self.subagent_tasks@[j]).status@ != "running"@,
            decreases self.subagent_tasks@.len() - k,
        {
            if text::same_text(self.subagent_tasks[k].status.as_str(), "running") {
                return true;
            }
            k += 1;
        }
        k = 0;
        while k < self.workflow_runs.len()
            invariant
                k <= self.workflow_runs@.len(),
                forall|j: int|
                    0 <= j < self.subagent_tasks@.len() ==> (
                    #[trigger] self.subagent_tasks@[j]).status@ != "running"@,
                forall|j: int|
                    0 <= j < k ==> (#[trigger] self.workflow_runs@[j]).status@ != "running"@,
            decreases self.workflow_runs@.len() - k,
        {
            if text::same_text(self.workflow_runs[k].status.as_str(), "running") {
                return true;
            }
            k += 1;
        }
        false
    }

    /// The task that is selected.
    pub fn selected_subagent_id(&self) -> (r: Option<String>)
        ensures
            match r {
                Some(id) => self.task_selected < self.subagent_tasks@.len() && id
                    == self.subagent_tasks@[self.task_selected as int].task_id,
                None => self.task_selected >= self.subagent_tasks@.len(),
            },
    {
        if self.task_selected < self.subagent_tasks.len() {
            Some(self.subagent_tasks[self.task_selected].task_id.clone())
        } else {
            None
        }
    }

    /// What an action on the selected run is sent with.
    pub fn selected_workflow_control(&self, action: &str) -> (r: Option<(String, Option<String>)>)
        ensures
            control_of(*self, action@, r),
    {
        let i: usize = self.workflow_selected;
        if i >= self.workflow_runs.len() {
            return None;
        }
        let run: &WorkflowRunSnapshot = &self.workflow_runs[i];
        if text::same_text(action, "cancel") {
            return Some((run.run_id.clone(), None));
        }
        let mut k: usize = 0;
        while k < run.steps.len()
            invariant
                i < self.workflow_runs@.len(),
                i == self.workflow_selected,
                run == self.workflow_runs@[i as int],
                action@ != "cancel"@,
                k <= run.steps@.len(),
                forall|j: int| 0 <= j < k ==> !answers(#[trigger] run.steps@[j], action@),
            decreases run.steps@.len() - k,
        {
            if step_answers(&run.steps[k], action) {
                assert(step_for(*run, action@, k as int));
                return Some((run.run_id.clone(), Some(run.steps[k].id.clone())));
            }
            k += 1;
        }
        None
    }

    /// The last artifact of the selected run.
    pub fn selected_workflow_artifact(&self) -> (r: Option<(String, String)>)
        ensures
            match r {
                Some((run_id, artifact_id)) => {
                    let i = self.workflow_selected as int;
                    &&& i < self.workflow_runs@.len()
                    &&& self.workflow_runs@[i].artifact_ids@.len() > 0
                    &&& run_id == self.workflow_runs@[i].run_id
                    &&& artifact_id == self.workflow_runs@[i].artifact_ids@.last()
                },
                None => {
                    let i = self.workflow_selected as int;
                    i >= self.workflow_runs@.len() || self.workflow_runs@[i].artifact_ids@.len()
                        == 0
                },
            },
    {
        let i: usize = self.workflow_selected;
        if i >= self.workflow_runs.len() {
            return None;
        }
        let run: &WorkflowRunSnapshot = &self.workflow_runs[i];
        if run.artifact_ids.len() == 0 {
            return None;
        }
        let id: String = run.artifact_ids[run.artifact_ids.len() - 1].clone();
        Some((run.run_id.clone(), id))
    }
}

/// An approval and a rejection are for a step that waits, a retry for one that failed or was
/// interrupted, and nothing else is for a step.
pub proof fn actions_are_for_their_steps(step: WorkflowStepSnapshot, action: Seq<char>)
    ensures
        action == "approve"@ || action == "reject"@ ==> (answers(step, action) <==> step.status@
            == "waiting"@),
        action == "retry"@ ==> (answers(step, action) <==> step.status@ == "failed"@
            || step.status@ == "interrupted"@),
        action != "approve"@ && action != "reject"@ && action != "retry"@ ==> !answers(
            step,
            action,
        ),
{
    reveal_strlit("approve");
    reveal_strlit("reject");
    reveal_strlit("retry");
    assert("approve"@.len() == 7);
    assert("reject"@.len() == 6);
    assert("retry"@.len() == 5);
}

/// An action is sent for the run that is selected: a cancellation for the whole run, the
/// others for a step that they are for.
pub proof fn actions_name_their_run(
    b: Boards,
    action: Seq<char>,
    r: Option<(String, Option<String>)>,
)
    requires
        control_of(b, action, r),
    ensures
        r matches Some((run_id, step_id)) ==> {
            &&& b.workflow_selected < b.workflow_runs@.len()
            &&& run_id == b.workflow_runs@[b.workflow_selected as int].run_id
            &&& action == "cancel"@ ==> step_id is None
            &&& action != "cancel"@ ==> step_id is Some
        },
        action == "cancel"@ && b.workflow_selected < b.workflow_runs@.len() ==> r is Some,
        b.workflow_selected >= b.workflow_runs@.len() ==> r is None,
{
}

/// An approval is sent for the first step that waits.
pub proof fn approvals_are_for_the_first_waiting_step(
    b: Boards,
    r: Option<(String, Option<String>)>,
    k: int,
)
    requires
        control_of(b, "approve"@, r),
        b.workflow_selected < b.workflow_runs@.len(),
        0 <= k < b.workflow_runs@[b.workflow_selected as int].steps@.len(),
        b.workflow_runs@[b.workflow_selected as int].steps@[k].status@ == "waiting"@,
        forall|j: int|
            0 <= j < k ==> (
            #[trigger] b.workflow_runs@[b.workflow_selected as int].steps@[j]).status@
                != "waiting"@,
    ensures
        r matches Some((_, step_id)) && step_id == Some(
            b.workflow_runs@[b.workflow_selected as int].steps@[k].id,
        ),
{
    reveal_strlit("approve");
    reveal_strlit("cancel");
    assert("approve"@.len() == 7);
    assert("cancel"@.len() == 6);
    let run = b.workflow_runs@[b.workflow_selected as int];
    assert(step_for(run, "approve"@, k)) by {
        assert forall|j: int| 0 <= j < k implies !answers(#[trigger] run.steps@[j], "approve"@) by {
            assert(run.steps@[j].status@ != "waiting"@);
        }
    }
    let m = choose|m: int| #[trigger]
        step_for(run, "approve"@, m) && (r matches Some((run_id, step_id)) && run_id == run.run_id
            && step_id == Some(run.steps@[m].id));
    if m < k {
        assert(!answers(run.steps@[m], "approve"@));
    } else if k < m {
        assert(!answers(run.steps@[k], "approve"@));
    }
}

/// A run is open while it waits to go on, runs, or is paused.
pub proof fn open_runs_are_not_over(run: WorkflowRunSnapshot)
    ensures
        run.status@ == "pending"@ || run.status@ == "running"@ || run.status@ == "paused"@
            ==> run_open(run),
        run.status@ == "completed"@ || run.status@ == "failed"@ || run.status@ == "cancelled"@
            || run.status@ == "interrupted"@ ==> !run_open(run),
{
    reveal_strlit("pending");
    reveal_strlit("running");
    reveal_strlit("paused");
    reveal_strlit("completed");
    reveal_strlit("failed");
    reveal_strlit("cancelled");
    reveal_strlit("interrupted");
    assert("pending"@.len() == 7);
    assert("running"@.len() == 7);
    assert("paused"@.len() == 6);
    assert("completed"@.len() == 9);
    assert("failed"@.len() == 6);
    assert("cancelled"@.len() == 9);
    assert("interrupted"@.len() == 11);
    assert("pending"@[0] == 'p');
    assert("running"@[0] == 'r');
    assert("paused"@[0] == 'p');
    assert("failed"@[0] == 'f');
    assert("completed"@[1] == 'o');
    assert("cancelled"@[1] == 'a');
}

/// Work in the background is a task or a run that is running.
pub proof fn running_work_is_seen(b: Boards, k: int)
    ensures
        0 <= k < b.subagent_tasks@.len() && b.subagent_tasks@[k].status@ == "running"@ ==> b.busy(),
        0 <= k < b.workflow_runs@.len() && b.workflow_runs@[k].status@ == "running"@ ==> b.busy(),
        b.subagent_tasks@.len() == 0 && b.workflow_runs@.len() == 0 ==> !b.busy(),
{
}

} // verus!
