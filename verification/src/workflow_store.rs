//! All workflow runs of the process: how they are shown, and who may touch them.

use vstd::prelude::*;

use crate::digest;
use crate::harness::{
    SessionId, WorkflowArtifactSnapshot, WorkflowCatalogEntry, WorkflowPreview,
    WorkflowPreviewStep, WorkflowRunSnapshot, WorkflowStepSnapshot,
};
use crate::text;
use crate::workflow;
use crate::workflow::{WorkflowDefinition, WorkflowError, WorkflowStepDefinition};
use crate::workflow_run;
use crate::workflow_run::{
    ControlOutcome, RunStatus, StepStatus, WorkflowArtifact, WorkflowRecord, WorkflowRun,
    WorkflowStepState,
};

verus! {

broadcast use vstd::string::group_string_axioms;

/// What the workflow coordinator reports.
#[derive(Clone, Debug)]
pub enum WorkflowNotice {
    Update { owner: SessionId, owner_path: String, snapshot: WorkflowRunSnapshot },
    Artifact { owner: SessionId, owner_path: String, artifact: WorkflowArtifactSnapshot },
}

/// The name of a step's kind.
pub open spec fn kind_name(step: WorkflowStepDefinition) -> Seq<char> {
    match step {
        WorkflowStepDefinition::Agent { .. } => "agent"@,
        WorkflowStepDefinition::Checkpoint { .. } => "checkpoint"@,
    }
}

/// The role of an agent step.
pub open spec fn role_of(step: WorkflowStepDefinition) -> Option<String> {
    match step {
        WorkflowStepDefinition::Agent { role, .. } => Some(role),
        WorkflowStepDefinition::Checkpoint { .. } => None,
    }
}

/// The model that an agent step names.
pub open spec fn model_of(step: WorkflowStepDefinition) -> Option<String> {
    match step {
        WorkflowStepDefinition::Agent { model, .. } => model,
        WorkflowStepDefinition::Checkpoint { .. } => None,
    }
}

/// An optional text as a list.
pub open spec fn as_list(o: Option<String>) -> Seq<String> {
    match o {
        Some(s) => seq![s],
        None => Seq::empty(),
    }
}

fn option_list(o: &Option<String>) -> (r: Vec<String>)
    ensures
        r@ == as_list(*o),
{
    let mut out: Vec<String> = Vec::new();
    match o {
        Some(s) => {
            out.push(s.clone());
        },
        None => {},
    }
    assert(out@ =~= as_list(*o));
    out
}

/// Whether `shown` is how a step of a run is shown.
pub open spec fn step_shown(step: WorkflowStepState, shown: WorkflowStepSnapshot) -> bool {
    &&& shown.id@ == step.definition.id_text()
    &&& shown.kind@ == kind_name(step.definition)
    &&& shown.status@ == step.status.wire_name()
    &&& shown.role == role_of(step.definition)
    &&& shown.model == model_of(step.definition)
    &&& shown.task_ids@ == as_list(step.task_id)
    &&& shown.artifact_ids@ == as_list(step.artifact_id)
    &&& shown.error == step.error
    &&& shown.attempt_count == step.attempt_count
}

/// How many steps are completed.
pub open spec fn count_completed(steps: Seq<WorkflowStepState>) -> nat
    decreases steps.len(),
{
    if steps.len() == 0 {
        0
    } else {
        count_completed(steps.drop_last()) + if steps.last().status is Completed {
            1nat
        } else {
            0nat
        }
    }
}

/// Whether `shown` is how a run is shown.
pub open spec fn run_shown(run: WorkflowRun, shown: WorkflowRunSnapshot) -> bool {
    &&& shown.run_id == run.run_id
    &&& shown.name == run.definition.name
    &&& shown.description == run.definition.description
    &&& shown.status@ == run.status.wire_name()
    &&& shown.current_step == run.current_step
    &&& shown.completed_steps == count_completed(run.steps@)
    &&& shown.total_steps == run.steps@.len()
    &&& shown.artifact_ids@ == run.artifacts@.map_values(|a: WorkflowArtifact| a.id)
    &&& shown.steps@.len() == run.steps@.len()
    &&& forall|i: int|
        0 <= i < run.steps@.len() ==> step_shown(run.steps@[i], #[trigger] shown.steps@[i])
    &&& shown.created_at_ms == run.created_at_ms
    &&& shown.updated_at_ms == run.updated_at_ms
    &&& shown.error == run.error
}

/// Progress never exceeds the number of steps, and reaches it exactly when all are done.
pub proof fn progress_is_bounded(steps: Seq<WorkflowStepState>)
    ensures
        count_completed(steps) <= steps.len(),
        count_completed(steps) == steps.len() <==> workflow_run::all_completed(steps),
    decreases steps.len(),
{
    if steps.len() > 0 {
        let rest = steps.drop_last();
        progress_is_bounded(rest);
        if workflow_run::all_completed(steps) {
            assert forall|i: int| 0 <= i < rest.len() implies (
            #[trigger] rest[i]).status is Completed by {
                assert(steps[i].status is Completed);
            }
        }
        if workflow_run::all_completed(rest) && steps.last().status is Completed {
            assert forall|i: int| 0 <= i < steps.len() implies (
            #[trigger] steps[i]).status is Completed by {
                if i < rest.len() {
                    assert(rest[i].status is Completed);
                }
            }
        }
    }
}

fn kind_text(step: &WorkflowStepDefinition) -> (r: String)
    ensures
        r@ == kind_name(*step),
{
    match step {
        WorkflowStepDefinition::Agent { .. } => "agent".to_owned(),
        WorkflowStepDefinition::Checkpoint { .. } => "checkpoint".to_owned(),
    }
}

fn role_text(step: &WorkflowStepDefinition) -> (r: Option<String>)
    ensures
        r == role_of(*step),
{
    match step {
        WorkflowStepDefinition::Agent { role, .. } => Some(role.clone()),
        WorkflowStepDefinition::Checkpoint { .. } => None,
    }
}

fn model_text(step: &WorkflowStepDefinition) -> (r: Option<String>)
    ensures
        r == model_of(*step),
{
    match step {
        WorkflowStepDefinition::Agent { model, .. } => text::copy_option(model),
        WorkflowStepDefinition::Checkpoint { .. } => None,
    }
}

/// How a run is shown.
pub fn snapshot(run: &WorkflowRun) -> (r: WorkflowRunSnapshot)
    ensures
        run_shown(*run, r),
{
    let mut steps: Vec<WorkflowStepSnapshot> = Vec::new();
    let mut done: usize = 0;
    let mut i: usize = 0;
    while i < run.steps.len()
        invariant
            i <= run.steps.len(),
            steps@.len() == i,
            done <= i,
            done == count_completed(run.steps@.take(i as int)),
            forall|j: int|
                0 <= j < i ==> step_shown(run.steps@[j], #[trigger] steps@[j]),
        decreases run.steps.len() - i,
    {
        let ghost part = run.steps@.take(i + 1);
        assert(part.drop_last() =~= run.steps@.take(i as int));
        assert(part.last() == run.steps@[i as int]);
        let step: &WorkflowStepState = &run.steps[i];
        if step.status == StepStatus::Completed {
            done += 1;
        }
        steps.push(
            WorkflowStepSnapshot {
                id: step.definition.id().clone(),
                kind: kind_text(&step.definition),
                status: step.status.label(),
                role: role_text(&step.definition),
                model: model_text(&step.definition),
                task_ids: option_list(&step.task_id),
                artifact_ids: option_list(&step.artifact_id),
                error: text::copy_option(&step.error),
                attempt_count: step.attempt_count,
            },
        );
        i += 1;
    }
    assert(run.steps@.take(run.steps@.len() as int) =~= run.steps@);
    let mut artifact_ids: Vec<String> = Vec::new();
    let mut k: usize = 0;
    while k < run.artifacts.len()
        invariant
            k <= run.artifacts.len(),
            artifact_ids@.len() == k,
            forall|j: int| 0 <= j < k ==> #[trigger] artifact_ids@[j] == run.artifacts@[j].id,
        decreases run.artifacts.len() - k,
    {
        artifact_ids.push(run.artifacts[k].id.clone());
        k += 1;
    }
    assert(artifact_ids@ =~= run.artifacts@.map_values(|a: WorkflowArtifact| a.id));
    WorkflowRunSnapshot {
        run_id: run.run_id.clone(),
        name: run.definition.name.clone(),
        description: text::copy_option(&run.definition.description),
        status: run.status.label(),
        current_step: text::copy_option(&run.current_step),
        completed_steps: done,
        total_steps: run.steps.len(),
        artifact_ids,
        steps,
        created_at_ms: run.created_at_ms,
        updated_at_ms: run.updated_at_ms,
        error: text::copy_option(&run.error),
    }
}

/// Whether `shown` is how a step is shown before it runs.
pub open spec fn step_previewed(step: WorkflowStepDefinition, shown: WorkflowPreviewStep) -> bool {
    &&& shown.id@ == step.id_text()
    &&& shown.kind@ == kind_name(step)
    &&& shown.role == role_of(step)
    &&& shown.model == model_of(step)
    &&& match step {
        WorkflowStepDefinition::Agent { thinking, capability, .. } => shown.description is None
            && shown.thinking == thinking && shown.capability == Some(capability),
        WorkflowStepDefinition::Checkpoint { description, .. } => shown.description == description
            && shown.thinking is None && shown.capability is None,
    }
    &&& shown.reports matches Some(reports)
    &&& reports@ == text::join(text::views(step.needs()), ", "@)
}

/// The workflow before it runs, with the hash of its serialised definition.
pub fn preview(definition: &WorkflowDefinition, serialized: &Vec<u8>, now: u64) -> (r:
    WorkflowPreview)
    ensures
        r.name == definition.name,
        r.version == 1,
        r.description == definition.description,
        r.definition_hash@ == digest::hex(digest::sha256(serialized@)),
        r.resolved_at_ms == now,
        r.readiness@ == "ready"@,
        r.steps@.len() == definition.steps@.len(),
        forall|i: int|
            0 <= i < r.steps@.len() ==> step_previewed(
                definition.steps@[i],
                #[trigger] r.steps@[i],
            ),
{
    let mut steps: Vec<WorkflowPreviewStep> = Vec::new();
    let mut i: usize = 0;
    while i < definition.steps.len()
        invariant
            i <= definition.steps.len(),
            steps@.len() == i,
            forall|j: int|
                0 <= j < i ==> step_previewed(definition.steps@[j], #[trigger] steps@[j]),
        decreases definition.steps.len() - i,
    {
        let step: &WorkflowStepDefinition = &definition.steps[i];
        let (description, thinking, capability): (
            Option<String>,
            Option<String>,
            Option<String>,
        ) = match step {
            WorkflowStepDefinition::Agent { thinking, capability, .. } => (
                None,
                text::copy_option(thinking),
                Some(capability.clone()),
            ),
            WorkflowStepDefinition::Checkpoint { description, .. } => (
                text::copy_option(description),
                None,
                None,
            ),
        };
        steps.push(
            WorkflowPreviewStep {
                id: step.id().clone(),
                kind: kind_text(step),
                description,
                role: role_text(step),
                model: model_text(step),
                thinking,
                capability,
                reports: Some(text::join_texts(step.dependencies(), ", ")),
            },
        );
        i += 1;
    }
    WorkflowPreview {
        name: definition.name.clone(),
        version: 1,
        description: text::copy_option(&definition.description),
        definition_hash: digest::sha256_hex(serialized),
        resolved_at_ms: now,
        steps,
        readiness: "ready".to_owned(),
    }
}

/// Whether a start is refused because the definition is not the one that was inspected.
/// Compares the expected hash, if any, with that of the serialised definition.
pub fn check_unchanged(workflow: &str, expected: &Option<String>, serialized: &Vec<u8>) -> (r:
    Result<(), WorkflowError>)
    ensures
        match expected {
            None => r is Ok,
            Some(hash) => if hash@ == digest::hex(digest::sha256(serialized@)) {
                r is Ok
            } else {
                r matches Err(WorkflowError::Changed { workflow: w }) && w@ == workflow@
            },
        },
{
    compare_hash(workflow, expected, &digest::sha256_hex(serialized))
}

/// Whether a start is refused because the definition has another hash than expected.
pub fn compare_hash(workflow: &str, expected: &Option<String>, actual: &String) -> (r: Result<
    (),
    WorkflowError,
>)
    ensures
        match expected {
            None => r is Ok,
            Some(hash) => if hash@ == actual@ {
                r is Ok
            } else {
                r matches Err(WorkflowError::Changed { workflow: w }) && w@ == workflow@
            },
        },
{
    match expected {
        Some(hash) => if *hash == *actual {
            Ok(())
        } else {
            Err(WorkflowError::Changed { workflow: workflow.to_owned() })
        },
        None => Ok(()),
    }
}

/// The names of the built-in workflows, in the order in which they are offered.
pub open spec fn catalog_names() -> Seq<Seq<char>> {
    seq!["production-change"@, "implement-review"@, "review"@]
}

/// The workflows that can be started: the built-in ones, then those of a trusted project.
pub fn catalog(project_names: &Vec<String>, project_trusted: bool) -> (r: Vec<WorkflowCatalogEntry>)
    ensures
        r@.len() == 3 + if project_trusted { project_names@.len() } else { 0 },
        forall|i: int|
            0 <= i < 3 ==> {
                &&& (#[trigger] r@[i]).name@ == catalog_names()[i]
                &&& r@[i].description matches Some(text)
                &&& text@ == workflow::builtin_description(catalog_names()[i])
                &&& r@[i].source@ == "builtin"@
                &&& r@[i].valid
                &&& r@[i].error is None
            },
        project_trusted ==> forall|i: int|
            0 <= i < project_names@.len() ==> {
                &&& (#[trigger] r@[3 + i]).name == project_names@[i]
                &&& r@[3 + i].description is None
                &&& r@[3 + i].source@ == "project"@
                &&& r@[3 + i].valid
                &&& r@[3 + i].error is None
            },
{
    let mut out: Vec<WorkflowCatalogEntry> = Vec::new();
    out.push(builtin_entry("production-change"));
    out.push(builtin_entry("implement-review"));
    out.push(builtin_entry("review"));
    if !project_trusted {
        return out;
    }
    let mut i: usize = 0;
    while i < project_names.len()
        invariant
            i <= project_names.len(),
            out@.len() == 3 + i,
            forall|j: int|
                0 <= j < 3 ==> {
                    &&& (#[trigger] out@[j]).name@ == catalog_names()[j]
                    &&& out@[j].description matches Some(text)
                    &&& text@ == workflow::builtin_description(catalog_names()[j])
                    &&& out@[j].source@ == "builtin"@
                    &&& out@[j].valid
                    &&& out@[j].error is None
                },
            forall|j: int|
                0 <= j < i ==> {
                    &&& (#[trigger] out@[3 + j]).name == project_names@[j]
                    &&& out@[3 + j].description is None
                    &&& out@[3 + j].source@ == "project"@
                    &&& out@[3 + j].valid
                    &&& out@[3 + j].error is None
                },
        decreases project_names.len() - i,
    {
        out.push(
            WorkflowCatalogEntry {
                name: project_names[i].clone(),
                description: None,
                source: "project".to_owned(),
                valid: true,
                error: None,
            },
        );
        i += 1;
    }
    out
}

fn builtin_entry(name: &str) -> (r: WorkflowCatalogEntry)
    requires
        name@ == "review"@ || workflow::changes(name@),
    ensures
        r.name@ == name@,
        r.description matches Some(text) && text@ == workflow::builtin_description(name@),
        r.source@ == "builtin"@,
        r.valid,
        r.error is None,
{
    let description: Option<String> = match workflow::builtin(name) {
        Some(definition) => definition.description,
        None => None,
    };
    WorkflowCatalogEntry {
        name: name.to_owned(),
        description,
        source: "builtin".to_owned(),
        valid: true,
        error: None,
    }
}

/// The host calls that concern workflows.
#[derive(Clone, Copy, Debug, PartialEq, Eq, Structural)]
pub enum WorkflowCall {
    Check,
    Start,
    Status,
    Control,
    Artifact,
    Catalog,
    Preview,
}

/// Which call a name stands for.
pub open spec fn call_named(name: Seq<char>) -> Option<WorkflowCall> {
    if name == "workflow_check"@ {
        Some(WorkflowCall::Check)
    } else if name == "workflow_start"@ {
        Some(WorkflowCall::Start)
    } else if name == "workflow_status"@ {
        Some(WorkflowCall::Status)
    } else if name == "workflow_control"@ {
        Some(WorkflowCall::Control)
    } else if name == "artifact_read"@ || name == "workflow_artifact_read"@ {
        Some(WorkflowCall::Artifact)
    } else if name == "workflow_catalog"@ {
        Some(WorkflowCall::Catalog)
    } else if name == "workflow_preview"@ {
        Some(WorkflowCall::Preview)
    } else {
        None
    }
}

/// Which call a name stands for.
pub fn workflow_call(name: &str) -> (r: Result<WorkflowCall, WorkflowError>)
    ensures
        match call_named(name@) {
            Some(call) => r == Ok::<WorkflowCall, WorkflowError>(call),
            None => r matches Err(WorkflowError::UnknownCall { name: n }) && n@ == name@,
        },
{
    if text::same_text(name, "workflow_check") {
        Ok(WorkflowCall::Check)
    } else if text::same_text(name, "workflow_start") {
        Ok(WorkflowCall::Start)
    } else if text::same_text(name, "workflow_status") {
        Ok(WorkflowCall::Status)
    } else if text::same_text(name, "workflow_control") {
        Ok(WorkflowCall::Control)
    } else if text::same_text(name, "artifact_read") || text::same_text(
        name,
        "workflow_artifact_read",
    ) {
        Ok(WorkflowCall::Artifact)
    } else if text::same_text(name, "workflow_catalog") {
        Ok(WorkflowCall::Catalog)
    } else if text::same_text(name, "workflow_preview") {
        Ok(WorkflowCall::Preview)
    } else {
        Err(WorkflowError::UnknownCall { name: name.to_owned() })
    }
}

/// How the result of a workflow call is shown, where it is shown at all.
#[derive(Clone, Copy, Debug, PartialEq, Eq, Structural)]
pub enum ShownResult {
    Catalog,
    Preview,
    Artifact,
}

/// How the result of a workflow call is shown.
pub open spec fn result_shown(name: Seq<char>) -> Option<ShownResult> {
    match call_named(name) {
        Some(WorkflowCall::Catalog) => Some(ShownResult::Catalog),
        Some(WorkflowCall::Preview) => Some(ShownResult::Preview),
        Some(WorkflowCall::Check) => Some(ShownResult::Preview),
        Some(WorkflowCall::Artifact) => Some(ShownResult::Artifact),
        _ => None,
    }
}

/// How the result of a workflow call is shown.
pub fn shown_result(name: &str) -> (r: Option<ShownResult>)
    ensures
        r == result_shown(name@),
{
    match workflow_call(name) {
        Ok(WorkflowCall::Catalog) => Some(ShownResult::Catalog),
        Ok(WorkflowCall::Preview) => Some(ShownResult::Preview),
        Ok(WorkflowCall::Check) => Some(ShownResult::Preview),
        Ok(WorkflowCall::Artifact) => Some(ShownResult::Artifact),
        _ => None,
    }
}

/// Whether the run at `i` has the identifier `id`.
pub open spec fn has_run(records: Seq<WorkflowRecord>, id: Seq<char>, i: int) -> bool {
    0 <= i < records.len() && records[i].run.run_id@ == id
}

/// Where the run `id` is stored, if it is.
pub open spec fn lookup(records: Seq<WorkflowRecord>, id: Seq<char>) -> Option<int> {
    if exists|i: int| has_run(records, id, i) {
        Some(choose|i: int| has_run(records, id, i))
    } else {
        None
    }
}

/// No run identifier occurs twice.
pub open spec fn distinct(records: Seq<WorkflowRecord>) -> bool {
    forall|i: int, j: int|
        0 <= i < j < records.len() ==> (#[trigger] records[i]).run.run_id@ != (
        #[trigger] records[j]).run.run_id@
}

/// Whether `error` is the refusal that `owner` gets for the run `id`, if any.
pub open spec fn refused(
    records: Seq<WorkflowRecord>,
    owner: Seq<char>,
    id: Seq<char>,
    error: WorkflowError,
) -> bool {
    match lookup(records, id) {
        None => error matches WorkflowError::Unknown { id: x } && x@ == id,
        Some(i) => records[i].run.owner@ != owner && (error matches WorkflowError::Foreign {
            id: x,
        } && x@ == id),
    }
}

/// Whether `owner` may touch the run `id`.
pub open spec fn granted(records: Seq<WorkflowRecord>, owner: Seq<char>, id: Seq<char>) -> bool {
    lookup(records, id) matches Some(i) && records[i].run.owner@ == owner
}

/// A run after its owner's runs were cancelled.
pub open spec fn cancelled_for(record: WorkflowRecord, owner: Seq<char>, now: u64) -> WorkflowRecord {
    if record.run.owner@ == owner && !record.run.status.halted() {
        WorkflowRecord {
            run: WorkflowRun {
                status: RunStatus::Cancelled,
                current_step: None,
                updated_at_ms: now,
                ..record.run
            },
            cancelled: true,
            ..record
        }
    } else {
        record
    }
}

/// The tasks to cancel with the runs of `owner`.
pub open spec fn tasks_to_cancel(records: Seq<WorkflowRecord>, owner: Seq<char>) -> Seq<String>
    decreases records.len(),
{
    if records.len() == 0 {
        Seq::empty()
    } else {
        let rest = tasks_to_cancel(records.drop_last(), owner);
        let last = records.last();
        if last.run.owner@ == owner && !last.run.status.halted() {
            rest + workflow_run::running_tasks(last.run.steps@)
        } else {
            rest
        }
    }
}

/// All runs of the process.
#[derive(Clone, Debug)]
pub struct WorkflowCoordinator {
    pub records: Vec<WorkflowRecord>,
}

impl WorkflowCoordinator {
    /// No run identifier occurs twice.
    pub open spec fn wf(&self) -> bool {
        distinct(self.records@)
    }

    /// A coordinator without runs.
    pub fn new() -> (r: WorkflowCoordinator)
        ensures
            r.records@.len() == 0,
            r.wf(),
    {
        WorkflowCoordinator { records: Vec::new() }
    }

    /// Where the run `id` is stored.
    pub fn find(&self, id: &str) -> (r: Option<usize>)
        requires
            self.wf(),
        ensures
            match r {
                Some(i) => lookup(self.records@, id@) == Some(i as int) && has_run(
                    self.records@,
                    id@,
                    i as int,
                ),
                None => lookup(self.records@, id@) is None,
            },
    {
        let mut i: usize = 0;
        while i < self.records.len()
            invariant
                self.wf(),
                i <= self.records.len(),
                forall|j: int| 0 <= j < i ==> !has_run(self.records@, id@, j),
            decreases self.records.len() - i,
        {
            if text::same_text(self.records[i].run.run_id.as_str(), id) {
                assert(has_run(self.records@, id@, i as int));
                return Some(i);
            }
            i += 1;
        }
        None
    }

    /// Where the run `id` is stored, for its owner only.
    pub fn owned_record(&self, owner: &SessionId, id: &str) -> (r: Result<usize, WorkflowError>)
        requires
            self.wf(),
        ensures
            match r {
                Ok(i) => granted(self.records@, owner@, id@) && lookup(self.records@, id@) == Some(
                    i as int,
                ) && i < self.records@.len(),
                Err(error) => refused(self.records@, owner@, id@, error),
            },
    {
        match self.find(id) {
            None => Err(WorkflowError::Unknown { id: id.to_owned() }),
            Some(i) => if self.records[i].run.owner.same(owner) {
                Ok(i)
            } else {
                Err(WorkflowError::Foreign { id: id.to_owned() })
            },
        }
    }

    /// Stores a run under its identifier, in place of an earlier one.
    pub fn insert(&mut self, record: WorkflowRecord)
        requires
            old(self).wf(),
        ensures
            final(self).wf(),
            final(self).records@ == (match lookup(old(self).records@, record.run.run_id@) {
                Some(i) => old(self).records@.update(i, record),
                None => old(self).records@.push(record),
            }),
    {
        match self.find(record.run.run_id.as_str()) {
            Some(i) => {
                self.records.set(i, record);
            },
            None => {
                assert forall|i: int| 0 <= i < self.records@.len() implies (
                #[trigger] self.records@[i]).run.run_id@ != record.run.run_id@ by {
                    assert(!has_run(self.records@, record.run.run_id@, i));
                }
                self.records.push(record);
            },
        }
    }

    /// Takes over a stored run that belongs to the session stored at `owner_path`: a run
    /// that is known gets the new owner, another one is added, interrupted if it was
    /// active. Returns whether the stored run must be written back.
    pub fn restore(&mut self, stored: WorkflowRun, owner: &SessionId, owner_path: &str) -> (r: bool)
        requires
            old(self).wf(),
        ensures
            final(self).wf(),
            stored.owner_path@ != owner_path@ ==> *final(self) == *old(self) && !r,
            stored.owner_path@ == owner_path@ ==> match lookup(old(self).records@, stored.run_id@) {
                Some(i) => !r && final(self).records@ == old(self).records@.update(
                    i,
                    WorkflowRecord {
                        run: WorkflowRun { owner: *owner, ..old(self).records@[i].run },
                        ..old(self).records@[i]
                    },
                ),
                None => {
                    &&& r == (stored.status is Pending || stored.status is Running)
                    &&& final(self).records@.len() == old(self).records@.len() + 1
                    &&& final(self).records@.drop_last() == old(self).records@
                    &&& ({
                        let added = final(self).records@.last();
                        &&& !added.cancelled
                        &&& !added.driving
                        &&& workflow_run::progresses(stored.steps@, added.run.steps@)
                        &&& if r {
                            workflow_run::interrupted(
                                WorkflowRun { owner: *owner, ..stored },
                                added.run,
                            )
                        } else {
                            added.run == (WorkflowRun { owner: *owner, ..stored })
                        }
                    })
                },
            },
    {
        if !text::same_text(stored.owner_path.as_str(), owner_path) {
            return false;
        }
        match self.find(stored.run_id.as_str()) {
            Some(i) => {
                self.records[i].run.owner = owner.copy();
                false
            },
            None => {
                let mut run = stored;
                run.owner = owner.copy();
                let changed: bool = run.interrupt();
                let ghost before = self.records@;
                self.insert(WorkflowRecord { run, cancelled: false, driving: false });
                assert(self.records@.drop_last() =~= before);
                changed
            },
        }
    }

    /// Approves, rejects, cancels or retries the run `id` for its owner.
    pub fn control(
        &mut self,
        owner: &SessionId,
        id: &str,
        action: &str,
        step_id: &Option<String>,
        now: u64,
    ) -> (r: Result<ControlOutcome, WorkflowError>)
        requires
            old(self).wf(),
        ensures
            final(self).wf(),
            !granted(old(self).records@, owner@, id@) ==> *final(self) == *old(self) && (
                r matches Err(error) && refused(old(self).records@, owner@, id@, error)),
            granted(old(self).records@, owner@, id@) ==> {
                let i = lookup(old(self).records@, id@)->0;
                &&& final(self).records@.len() == old(self).records@.len()
                &&& final(self).records@ == old(self).records@.update(i, final(self).records@[i])
                &&& workflow_run::controlled(
                    old(self).records@[i],
                    final(self).records@[i],
                    action@,
                    *step_id,
                    now,
                    r,
                )
            },
    {
        match self.owned_record(owner, id) {
            Err(error) => Err(error),
            Ok(i) => {
                let r = self.records[i].control(action, step_id, now);
                assert(self.records@ =~= old(self).records@.update(
                    i as int,
                    self.records@[i as int],
                ));
                assert(self.records@[i as int].run.run_id == old(
                    self,
                ).records@[i as int].run.run_id);
                r
            },
        }
    }

    /// Cancels the runs of `owner` that still go on; returns the tasks to cancel.
    pub fn cancel_owner(&mut self, owner: &SessionId, now: u64) -> (r: Vec<String>)
        requires
            old(self).wf(),
        ensures
            final(self).wf(),
            final(self).records@ == old(self).records@.map_values(
                |record: WorkflowRecord| cancelled_for(record, owner@, now),
            ),
            r@ == tasks_to_cancel(old(self).records@, owner@),
    {
        let mut tasks: Vec<String> = Vec::new();
        let mut i: usize = 0;
        while i < self.records.len()
            invariant
                i <= self.records.len(),
                self.records@.len() == old(self).records@.len(),
                tasks@ == tasks_to_cancel(old(self).records@.take(i as int), owner@),
                forall|j: int|
                    0 <= j < i ==> #[trigger] self.records@[j] == cancelled_for(
                        old(self).records@[j],
                        owner@,
                        now,
                    ),
                forall|j: int|
                    i <= j < self.records@.len() ==> #[trigger] self.records@[j]
                        == old(self).records@[j],
            decreases self.records.len() - i,
        {
            let ghost part = old(self).records@.take(i + 1);
            assert(part.drop_last() =~= old(self).records@.take(i as int));
            assert(part.last() == old(self).records@[i as int]);
            if self.records[i].run.owner.same(owner) && !workflow_run::terminal(
                self.records[i].run.status,
            ) {
                let none: Option<String> = None;
                proof {
                    reveal_strlit("cancel");
                    reveal_strlit("approve");
                    assert("cancel"@.len() != "approve"@.len());
                }
                match self.records[i].control("cancel", &none, now) {
                    Ok(outcome) => {
                        let mut more: Vec<String> = outcome.cancel_tasks;
                        tasks.append(&mut more);
                    },
                    Err(_) => {},
                }
            }
            i += 1;
        }
        assert(old(self).records@.take(old(self).records@.len() as int) =~= old(self).records@);
        assert(self.records@ =~= old(self).records@.map_values(
            |record: WorkflowRecord| cancelled_for(record, owner@, now),
        ));
        tasks
    }

    /// The runs of `owner`: the one with the given identifier, or all.
    pub fn snapshots(&self, owner: &SessionId, run_id: &Option<String>) -> (r: Result<
        Vec<WorkflowRunSnapshot>,
        WorkflowError,
    >)
        requires
            self.wf(),
        ensures
            match run_id {
                Some(id) => match r {
                    Ok(shown) => {
                        &&& granted(self.records@, owner@, id@)
                        &&& shown@.len() == 1
                        &&& run_shown(self.records@[lookup(self.records@, id@)->0].run, shown@[0])
                    },
                    Err(error) => refused(self.records@, owner@, id@, error),
                },
                None => {
                    &&& r matches Ok(shown)
                    &&& shown@.len() == owned_runs(self.records@, owner@).len()
                    &&& forall|i: int|
                        0 <= i < shown@.len() ==> run_shown(
                            owned_runs(self.records@, owner@)[i],
                            #[trigger] shown@[i],
                        )
                },
            },
    {
        let mut out: Vec<WorkflowRunSnapshot> = Vec::new();
        match run_id {
            Some(id) => {
                match self.owned_record(owner, id.as_str()) {
                    Ok(i) => {
                        out.push(snapshot(&self.records[i].run));
                        Ok(out)
                    },
                    Err(error) => Err(error),
                }
            },
            None => {
                let mut i: usize = 0;
                while i < self.records.len()
                    invariant
                        i <= self.records.len(),
                        out@.len() == owned_runs(self.records@.take(i as int), owner@).len(),
                        forall|j: int|
                            0 <= j < out@.len() ==> run_shown(
                                owned_runs(self.records@.take(i as int), owner@)[j],
                                #[trigger] out@[j],
                            ),
                    decreases self.records.len() - i,
                {
                    let ghost part = self.records@.take(i + 1);
                    assert(part.drop_last() =~= self.records@.take(i as int));
                    assert(part.last() == self.records@[i as int]);
                    if self.records[i].run.owner.same(owner) {
                        out.push(snapshot(&self.records[i].run));
                    }
                    i += 1;
                }
                assert(self.records@.take(self.records@.len() as int) =~= self.records@);
                Ok(out)
            },
        }
    }

    /// One artifact of the run `id`, for the run's owner only.
    pub fn artifact(&self, owner: &SessionId, id: &String, artifact_id: &str) -> (r: Result<
        WorkflowArtifactSnapshot,
        WorkflowError,
    >)
        requires
            self.wf(),
        ensures
            !granted(self.records@, owner@, id@) ==> (r matches Err(error) && refused(
                self.records@,
                owner@,
                id@,
                error,
            )),
            granted(self.records@, owner@, id@) ==> {
                let artifacts = self.records@[lookup(self.records@, id@)->0].run.artifacts@;
                match r {
                    Ok(shown) => exists|i: int|
                        {
                            &&& #[trigger] first_artifact(artifacts, artifact_id@, i)
                            &&& workflow_run::shows(*id, artifacts[i], false, shown)
                        },
                    Err(error) => {
                        &&& error matches WorkflowError::Artifact { id: x }
                        &&& x@ == artifact_id@
                        &&& forall|i: int|
                            0 <= i < artifacts.len() ==> (#[trigger] artifacts[i]).id@
                                != artifact_id@
                    },
                }
            },
    {
        let at: usize = match self.owned_record(owner, id.as_str()) {
            Ok(at) => at,
            Err(error) => {
                return Err(error);
            },
        };
        let artifacts: &Vec<WorkflowArtifact> = &self.records[at].run.artifacts;
        let mut i: usize = 0;
        while i < artifacts.len()
            invariant
                i <= artifacts.len(),
                granted(self.records@, owner@, id@),
                lookup(self.records@, id@) == Some(at as int),
                at < self.records@.len(),
                artifacts@ == self.records@[at as int].run.artifacts@,
                forall|j: int| 0 <= j < i ==> (#[trigger] artifacts@[j]).id@ != artifact_id@,
            decreases artifacts.len() - i,
        {
            if text::same_text(artifacts[i].id.as_str(), artifact_id) {
                assert(first_artifact(artifacts@, artifact_id@, i as int));
                return Ok(workflow_run::artifact_snapshot(id, &artifacts[i], false));
            }
            i += 1;
        }
        Err(WorkflowError::Artifact { id: artifact_id.to_owned() })
    }
}

/// Whether the first artifact with the identifier `id` is the one at `i`.
pub open spec fn first_artifact(artifacts: Seq<WorkflowArtifact>, id: Seq<char>, i: int) -> bool {
    &&& 0 <= i < artifacts.len()
    &&& artifacts[i].id@ == id
    &&& forall|j: int| 0 <= j < i ==> (#[trigger] artifacts[j]).id@ != id
}

/// The runs of `owner`, in order.
pub open spec fn owned_runs(records: Seq<WorkflowRecord>, owner: Seq<char>) -> Seq<WorkflowRun>
    decreases records.len(),
{
    if records.len() == 0 {
        Seq::empty()
    } else {
        let rest = owned_runs(records.drop_last(), owner);
        if records.last().run.owner@ == owner {
            rest.push(records.last().run)
        } else {
            rest
        }
    }
}

/// A session never sees or touches the run of another session.
pub proof fn runs_have_one_owner(
    records: Seq<WorkflowRecord>,
    a: Seq<char>,
    b: Seq<char>,
    id: Seq<char>,
)
    requires
        granted(records, a, id),
        a != b,
    ensures
        !granted(records, b, id),
{
}

/// Each completed step adds one to the progress of a run, and no other step does.
pub proof fn progress_counts_completed_steps(
    steps: Seq<WorkflowStepState>,
    step: WorkflowStepState,
)
    ensures
        count_completed(Seq::empty()) == 0,
        step.status is Completed ==> count_completed(steps.push(step)) == count_completed(steps)
            + 1,
        !(step.status is Completed) ==> count_completed(steps.push(step)) == count_completed(steps),
{
    assert(steps.push(step).drop_last() =~= steps);
}

/// A run is shown with its steps in their order, each with its name, where it stands, its
/// error and its attempts.
pub proof fn runs_are_shown_as_they_stand(run: WorkflowRun, shown: WorkflowRunSnapshot, i: int)
    requires
        run_shown(run, shown),
        0 <= i < run.steps@.len(),
    ensures
        shown.run_id == run.run_id,
        shown.name == run.definition.name,
        shown.total_steps == run.steps@.len(),
        shown.completed_steps <= shown.total_steps,
        shown.error == run.error,
        run.status is Paused ==> shown.status@ == "paused"@,
        run.status is Running ==> shown.status@ == "running"@,
        run.status is Completed ==> shown.status@ == "completed"@,
        run.status is Failed ==> shown.status@ == "failed"@,
        run.status is Cancelled ==> shown.status@ == "cancelled"@,
        run.status is Interrupted ==> shown.status@ == "interrupted"@,
        run.status is Pending ==> shown.status@ == "pending"@,
        shown.steps@[i].id@ == run.steps@[i].definition.id_text(),
        run.steps@[i].status is Waiting ==> shown.steps@[i].status@ == "waiting"@,
        run.steps@[i].status is Running ==> shown.steps@[i].status@ == "running"@,
        run.steps@[i].status is Completed ==> shown.steps@[i].status@ == "completed"@,
        run.steps@[i].status is Failed ==> shown.steps@[i].status@ == "failed"@,
        run.steps@[i].definition is Checkpoint ==> shown.steps@[i].kind@ == "checkpoint"@,
        run.steps@[i].definition is Agent ==> shown.steps@[i].kind@ == "agent"@,
        shown.steps@[i].error == run.steps@[i].error,
        shown.steps@[i].attempt_count == run.steps@[i].attempt_count,
        run.steps@[i].task_id matches Some(id) ==> shown.steps@[i].task_ids@.contains(id),
        run.steps@[i].artifact_id matches Some(id) ==> shown.steps@[i].artifact_ids@.contains(id),
{
    progress_is_bounded(run.steps@);
    assert(step_shown(run.steps@[i], shown.steps@[i]));
    match run.steps@[i].task_id {
        Some(id) => {
            assert(shown.steps@[i].task_ids@[0] == id);
        },
        None => {},
    }
    match run.steps@[i].artifact_id {
        Some(id) => {
            assert(shown.steps@[i].artifact_ids@[0] == id);
        },
        None => {},
    }
}

/// A step is shown before it runs with each step that it waits for.
pub proof fn previews_show_dependencies(
    step: WorkflowStepDefinition,
    shown: WorkflowPreviewStep,
    k: int,
) -> (r: (Seq<char>, Seq<char>))
    requires
        step_previewed(step, shown),
        0 <= k < step.needs().len(),
    ensures
        shown.id@ == step.id_text(),
        shown.reports is Some,
        shown.reports->0@ == r.0 + step.needs()[k]@ + r.1,
        step is Agent ==> shown.capability == Some(step->Agent_capability),
{
    text::joined_texts_stand_in_the_whole(text::views(step.needs()), ", "@, k)
}

/// The calls on workflows are known by their names.
pub proof fn workflow_calls_are_known_by_their_names(name: Seq<char>)
    ensures
        call_named(name) == Some(WorkflowCall::Check) <==> name == "workflow_check"@,
        call_named(name) == Some(WorkflowCall::Start) <==> name == "workflow_start"@,
        call_named(name) == Some(WorkflowCall::Status) <==> name == "workflow_status"@,
        call_named(name) == Some(WorkflowCall::Control) <==> name == "workflow_control"@,
        call_named(name) == Some(WorkflowCall::Artifact) <==> (name == "artifact_read"@ || name
            == "workflow_artifact_read"@),
        call_named(name) == Some(WorkflowCall::Catalog) <==> name == "workflow_catalog"@,
        call_named(name) == Some(WorkflowCall::Preview) <==> name == "workflow_preview"@,
        result_shown("workflow_catalog"@) == Some(ShownResult::Catalog),
        result_shown("workflow_preview"@) == Some(ShownResult::Preview),
        result_shown("artifact_read"@) == Some(ShownResult::Artifact),
        result_shown("workflow_start"@) is None,
        result_shown("workflow_control"@) is None,
{
    reveal_strlit("workflow_check");
    reveal_strlit("workflow_start");
    reveal_strlit("workflow_status");
    reveal_strlit("workflow_control");
    reveal_strlit("artifact_read");
    reveal_strlit("workflow_artifact_read");
    reveal_strlit("workflow_catalog");
    reveal_strlit("workflow_preview");
    assert("workflow_check"@.len() == 14);
    assert("workflow_start"@.len() == 14);
    assert("workflow_status"@.len() == 15);
    assert("workflow_control"@.len() == 16);
    assert("artifact_read"@.len() == 13);
    assert("workflow_artifact_read"@.len() == 22);
    assert("workflow_catalog"@.len() == 16);
    assert("workflow_preview"@.len() == 16);
    assert("workflow_check"@[9] == 'c');
    assert("workflow_start"@[9] == 's');
    assert("workflow_control"@[10] == 'o');
    assert("workflow_catalog"@[10] == 'a');
    assert("workflow_preview"@[10] == 'r');
}

/// Cancelling the runs of a session ends those that go on and leaves the others alone, its
/// own that stand still and those of other sessions.
pub proof fn cancelling_ends_what_goes_on(record: WorkflowRecord, owner: Seq<char>, now: u64)
    ensures
        record.run.owner@ != owner ==> cancelled_for(record, owner, now) == record,
        record.run.owner@ == owner && (record.run.status is Pending || record.run.status is Running)
            ==> cancelled_for(record, owner, now).run.status is Cancelled && cancelled_for(
            record,
            owner,
            now,
        ).cancelled,
        record.run.status is Completed || record.run.status is Failed || record.run.status is Paused
            || record.run.status is Interrupted ==> cancelled_for(record, owner, now) == record,
        cancelled_for(record, owner, now).run.steps == record.run.steps,
        cancelled_for(record, owner, now).run.artifacts == record.run.artifacts,
{
}

/// The tasks of the running steps are cancelled with the runs that go on.
pub proof fn running_steps_are_cancelled(
    records: Seq<WorkflowRecord>,
    owner: Seq<char>,
    i: int,
    k: int,
)
    requires
        0 <= i < records.len(),
        records[i].run.owner@ == owner,
        records[i].run.status is Pending || records[i].run.status is Running,
        0 <= k < records[i].run.steps@.len(),
        records[i].run.steps@[k].status is Running,
        records[i].run.steps@[k].task_id is Some,
    ensures
        tasks_to_cancel(records, owner).contains(records[i].run.steps@[k].task_id->0),
    decreases records.len(),
{
    let id = records[i].run.steps@[k].task_id->0;
    let rest = tasks_to_cancel(records.drop_last(), owner);
    let all = tasks_to_cancel(records, owner);
    if i == records.len() - 1 {
        let own = workflow_run::running_tasks(records[i].run.steps@);
        workflow_run::running_tasks_hold(records[i].run.steps@, k);
        let m = choose|m: int| 0 <= m < own.len() && own[m] == id;
        assert(all[rest.len() + m] == id);
    } else {
        running_steps_are_cancelled(records.drop_last(), owner, i, k);
        let m = choose|m: int| 0 <= m < rest.len() && rest[m] == id;
        assert(all[m] == id);
    }
}

/// The runs of a session are all of those that it owns.
pub proof fn owned_runs_are_listed(records: Seq<WorkflowRecord>, owner: Seq<char>, i: int)
    requires
        0 <= i < records.len(),
        records[i].run.owner@ == owner,
    ensures
        owned_runs(records, owner).contains(records[i].run),
    decreases records.len(),
{
    let rest = owned_runs(records.drop_last(), owner);
    let all = owned_runs(records, owner);
    if i == records.len() - 1 {
        assert(all[rest.len() as int] == records[i].run);
    } else {
        owned_runs_are_listed(records.drop_last(), owner, i);
        let m = choose|m: int| 0 <= m < rest.len() && rest[m] == records[i].run;
        assert(all[m] == records[i].run);
    }
}

/// No run of another session is listed.
pub proof fn listed_runs_are_owned(records: Seq<WorkflowRecord>, owner: Seq<char>, k: int) -> (i:
    int)
    requires
        0 <= k < owned_runs(records, owner).len(),
    ensures
        0 <= i < records.len(),
        records[i].run == owned_runs(records, owner)[k],
        records[i].run.owner@ == owner,
    decreases records.len(),
{
    let rest = owned_runs(records.drop_last(), owner);
    if k < rest.len() {
        listed_runs_are_owned(records.drop_last(), owner, k)
    } else {
        records.len() - 1
    }
}

/// A run is granted to its owner and to no other session.
pub proof fn owners_are_granted_their_runs(records: Seq<WorkflowRecord>, owner: Seq<char>, i: int)
    requires
        distinct(records),
        0 <= i < records.len(),
    ensures
        lookup(records, records[i].run.run_id@) == Some(i),
        granted(records, owner, records[i].run.run_id@) <==> records[i].run.owner@ == owner,
{
    let id = records[i].run.run_id@;
    assert(has_run(records, id, i));
    let k = choose|k: int| has_run(records, id, k);
    assert(has_run(records, id, k));
    if k < i {
        assert(records[k].run.run_id@ != records[i].run.run_id@);
    } else if i < k {
        assert(records[i].run.run_id@ != records[k].run.run_id@);
    }
}

/// Whoever asks for a run that is not there is told that it is unknown, and whoever asks for
/// the run of another session that it is foreign; either way the run asked for is named.
pub proof fn refusals_name_the_run(
    records: Seq<WorkflowRecord>,
    owner: Seq<char>,
    id: Seq<char>,
    error: WorkflowError,
)
    requires
        refused(records, owner, id, error),
    ensures
        (error is Unknown && error->Unknown_id@ == id) || (error is Foreign && error->Foreign_id@
            == id),
        error is Unknown <==> forall|i: int|
            0 <= i < records.len() ==> (#[trigger] records[i]).run.run_id@ != id,
        error is Foreign ==> exists|i: int|
            0 <= i < records.len() && (#[trigger] records[i]).run.run_id@ == id
                && records[i].run.owner@ != owner,
{
    if exists|i: int| has_run(records, id, i) {
        let i = choose|i: int| has_run(records, id, i);
        assert(has_run(records, id, i));
        assert(records[i].run.run_id@ == id);
    } else {
        assert forall|i: int| 0 <= i < records.len() implies (#[trigger] records[i]).run.run_id@
            != id by {
            assert(!has_run(records, id, i));
        }
    }
}

/// Of several artifacts of one name the first is meant.
pub proof fn the_first_artifact_of_a_name_is_meant(
    artifacts: Seq<WorkflowArtifact>,
    id: Seq<char>,
    i: int,
    k: int,
)
    requires
        first_artifact(artifacts, id, i),
        0 <= k < artifacts.len(),
        artifacts[k].id@ == id,
    ensures
        i <= k,
        artifacts[i].id@ == id,
{
}

} // verus!
