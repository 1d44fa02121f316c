//! Workflow definitions: steps, their dependency graph and its validation.

use vstd::prelude::*;

use crate::text;

verus! {

broadcast use vstd::string::group_string_axioms;

/// A named graph of steps.
#[derive(Clone, Debug)]
pub struct WorkflowDefinition {
    pub name: String,
    pub description: Option<String>,
    pub steps: Vec<WorkflowStepDefinition>,
}

/// One step: work for an agent, or a point at which a person has to approve.
#[derive(Clone, Debug)]
pub enum WorkflowStepDefinition {
    Agent {
        id: String,
        prompt: String,
        depends_on: Vec<String>,
        role: String,
        model: Option<String>,
        thinking: Option<String>,
        capability: String,
    },
    Checkpoint { id: String, description: Option<String>, depends_on: Vec<String> },
}

/// The contents of a step.
pub enum StepView {
    Agent {
        id: Seq<char>,
        prompt: Seq<char>,
        depends_on: Seq<Seq<char>>,
        role: Seq<char>,
        model: Option<String>,
        thinking: Option<String>,
        capability: Seq<char>,
    },
    Checkpoint { id: Seq<char>, description: Option<Seq<char>>, depends_on: Seq<Seq<char>> },
}

impl WorkflowStepDefinition {
    /// The contents of the step.
    pub open spec fn view(&self) -> StepView {
        match *self {
            WorkflowStepDefinition::Agent {
                id,
                prompt,
                depends_on,
                role,
                model,
                thinking,
                capability,
            } => StepView::Agent {
                id: id@,
                prompt: prompt@,
                depends_on: text::views(depends_on@),
                role: role@,
                model,
                thinking,
                capability: capability@,
            },
            WorkflowStepDefinition::Checkpoint { id, description, depends_on } =>
                StepView::Checkpoint {
                id: id@,
                description: match description {
                    Some(d) => Some(d@),
                    None => None,
                },
                depends_on: text::views(depends_on@),
            },
        }
    }

    /// The step's identifier.
    pub open spec fn id_text(&self) -> Seq<char> {
        match *self {
            WorkflowStepDefinition::Agent { id, .. } => id@,
            WorkflowStepDefinition::Checkpoint { id, .. } => id@,
        }
    }

    /// The identifiers that the step waits for.
    pub open spec fn needs(&self) -> Seq<String> {
        match *self {
            WorkflowStepDefinition::Agent { depends_on, .. } => depends_on@,
            WorkflowStepDefinition::Checkpoint { depends_on, .. } => depends_on@,
        }
    }

    /// Whether the step may change files.
    pub open spec fn writes(&self) -> bool {
        match *self {
            WorkflowStepDefinition::Agent { capability, .. } => capability@ != "read-only"@,
            WorkflowStepDefinition::Checkpoint { .. } => false,
        }
    }

    /// The step's identifier.
    pub fn id(&self) -> (r: &String)
        ensures
            r@ == self.id_text(),
    {
        match self {
            WorkflowStepDefinition::Agent { id, .. } => id,
            WorkflowStepDefinition::Checkpoint { id, .. } => id,
        }
    }

    /// The identifiers that the step waits for.
    pub fn dependencies(&self) -> (r: &Vec<String>)
        ensures
            r@ == self.needs(),
    {
        match self {
            WorkflowStepDefinition::Agent { depends_on, .. } => depends_on,
            WorkflowStepDefinition::Checkpoint { depends_on, .. } => depends_on,
        }
    }

    /// Whether the step may change files.
    pub fn is_writer(&self) -> (r: bool)
        ensures
            r == self.writes(),
    {
        match self {
            WorkflowStepDefinition::Agent { capability, .. } => !text::same_text(
                capability.as_str(),
                "read-only",
            ),
            WorkflowStepDefinition::Checkpoint { .. } => false,
        }
    }
}

/// Why a workflow is refused.
#[derive(Clone, Debug)]
pub enum WorkflowError {
    Empty,
    StepIds,
    Dependency { step: String, dependency: String },
    Cycle { step: String },
    Writers { left: String, right: String },
    Changed { workflow: String },
    Unknown { id: String },
    Foreign { id: String },
    NoCheckpoint,
    NoFailedStep,
    Action { action: String },
    Artifact { id: String },
    Untrusted { workflow: String },
    Capability { mode: String },
    UnknownCall { name: String },
}

impl WorkflowError {
    /// The refusal in words.
    pub open spec fn text(self) -> Seq<char> {
        match self {
            WorkflowError::Empty => "workflow name and steps must not be empty"@,
            WorkflowError::StepIds => "workflow step IDs must be unique and non-empty"@,
            WorkflowError::Dependency { step, dependency } => "step "@ + step@
                + " has invalid dependency "@ + dependency@,
            WorkflowError::Cycle { step } => "workflow dependency cycle at "@ + step@,
            WorkflowError::Writers { left, right } => "write-capable steps "@ + left@ + " and "@
                + right@ + " may run concurrently; add a dependency"@,
            WorkflowError::Changed { workflow } => "workflow "@ + workflow@
                + " changed after preflight; inspect it again before starting"@,
            WorkflowError::Unknown { id } => "unknown workflow: "@ + id@,
            WorkflowError::Foreign { id } => "workflow "@ + id@ + " belongs to another session"@,
            WorkflowError::NoCheckpoint => "workflow has no matching waiting checkpoint"@,
            WorkflowError::NoFailedStep => "workflow has no matching failed step"@,
            WorkflowError::Action { action } => "unknown workflow action: "@ + action@,
            WorkflowError::Artifact { id } => "unknown artifact: "@ + id@,
            WorkflowError::Untrusted { workflow } => "project workflow "@ + workflow@
                + " is unavailable until the project is trusted"@,
            WorkflowError::Capability { mode } => "unknown capability mode: "@ + mode@,
            WorkflowError::UnknownCall { name } => "unknown workflow host call: "@ + name@,
        }
    }

    /// The refusal in words.
    pub fn message(&self) -> (r: String)
        ensures
            r@ == self.text(),
    {
        match self {
            WorkflowError::Empty => "workflow name and steps must not be empty".to_owned(),
            WorkflowError::StepIds => "workflow step IDs must be unique and non-empty".to_owned(),
            WorkflowError::Dependency { step, dependency } => text::joined(
                text::joined3("step ", step.as_str(), " has invalid dependency ").as_str(),
                dependency.as_str(),
            ),
            WorkflowError::Cycle { step } => text::joined(
                "workflow dependency cycle at ",
                step.as_str(),
            ),
            WorkflowError::Writers { left, right } => text::joined3(
                text::joined3("write-capable steps ", left.as_str(), " and ").as_str(),
                right.as_str(),
                " may run concurrently; add a dependency",
            ),
            WorkflowError::Changed { workflow } => text::joined3(
                "workflow ",
                workflow.as_str(),
                " changed after preflight; inspect it again before starting",
            ),
            WorkflowError::Unknown { id } => text::joined("unknown workflow: ", id.as_str()),
            WorkflowError::Foreign { id } => text::joined3(
                "workflow ",
                id.as_str(),
                " belongs to another session",
            ),
            WorkflowError::NoCheckpoint =>
                "workflow has no matching waiting checkpoint".to_owned(),
            WorkflowError::NoFailedStep => "workflow has no matching failed step".to_owned(),
            WorkflowError::Action { action } => text::joined(
                "unknown workflow action: ",
                action.as_str(),
            ),
            WorkflowError::Artifact { id } => text::joined("unknown artifact: ", id.as_str()),
            WorkflowError::Untrusted { workflow } => text::joined3(
                "project workflow ",
                workflow.as_str(),
                " is unavailable until the project is trusted",
            ),
            WorkflowError::Capability { mode } => text::joined(
                "unknown capability mode: ",
                mode.as_str(),
            ),
            WorkflowError::UnknownCall { name } => text::joined(
                "unknown workflow host call: ",
                name.as_str(),
            ),
        }
    }
}

/// Whether the first step with the identifier `id` is the one at `j`.
pub open spec fn first_step(steps: Seq<WorkflowStepDefinition>, id: Seq<char>, j: int) -> bool {
    &&& 0 <= j < steps.len()
    &&& steps[j].id_text() == id
    &&& forall|k: int| 0 <= k < j ==> (#[trigger] steps[k]).id_text() != id
}

/// Whether `step` waits directly for the step at `j`.
pub open spec fn needs_step(
    steps: Seq<WorkflowStepDefinition>,
    step: WorkflowStepDefinition,
    j: int,
) -> bool {
    exists|k: int|
        0 <= k < step.needs().len() && first_step(steps, (#[trigger] step.needs()[k])@, j)
}

/// Whether `step` waits for the step at `j` over `n` steps in between.
pub open spec fn needs_over(
    steps: Seq<WorkflowStepDefinition>,
    step: WorkflowStepDefinition,
    j: int,
    n: nat,
) -> bool
    decreases n,
{
    if n == 0 {
        needs_step(steps, step, j)
    } else {
        exists|i: int|
            0 <= i < steps.len() && needs_over(steps, step, i, (n - 1) as nat)
                && #[trigger] needs_step(steps, steps[i], j)
    }
}

/// Whether `step` waits for the step at `j`, directly or through other steps.
pub open spec fn reaches(
    steps: Seq<WorkflowStepDefinition>,
    step: WorkflowStepDefinition,
    j: int,
) -> bool {
    exists|n: nat| needs_over(steps, step, j, n)
}

/// Whether `step` waits for `target`, directly or through other steps.
pub open spec fn depends(
    steps: Seq<WorkflowStepDefinition>,
    step: WorkflowStepDefinition,
    target: Seq<char>,
) -> bool {
    ||| text::lists(step.needs(), target)
    ||| exists|j: int|
        0 <= j < steps.len() && #[trigger] reaches(steps, step, j) && text::lists(
            steps[j].needs(),
            target,
        )
}

/// No step waits for itself.
pub open spec fn acyclic(steps: Seq<WorkflowStepDefinition>) -> bool {
    forall|i: int| 0 <= i < steps.len() ==> !reaches(steps, #[trigger] steps[i], i)
}

/// No identifier occurs twice, and none is blank.
pub open spec fn good_ids(steps: Seq<WorkflowStepDefinition>) -> bool {
    &&& forall|i: int, j: int|
        0 <= i < j < steps.len() ==> (#[trigger] steps[i]).id_text() != (
        #[trigger] steps[j]).id_text()
    &&& forall|i: int|
        0 <= i < steps.len() ==> text::trim((#[trigger] steps[i]).id_text()).len() > 0
}

/// Whether `id` names a step.
pub open spec fn names_step(steps: Seq<WorkflowStepDefinition>, id: Seq<char>) -> bool {
    exists|j: int| 0 <= j < steps.len() && (#[trigger] steps[j]).id_text() == id
}

/// Whether the dependency `k` of the step `i` names another step.
pub open spec fn good_need(steps: Seq<WorkflowStepDefinition>, i: int, k: int) -> bool {
    names_step(steps, steps[i].needs()[k]@) && steps[i].needs()[k]@ != steps[i].id_text()
}

/// Every dependency of the step `i` before `k` names another step.
pub open spec fn good_needs_upto(steps: Seq<WorkflowStepDefinition>, i: int, k: int) -> bool {
    forall|m: int| 0 <= m < k ==> #[trigger] good_need(steps, i, m)
}

/// Every dependency of the steps before `i` names another step.
pub open spec fn good_steps_upto(steps: Seq<WorkflowStepDefinition>, i: int) -> bool {
    forall|m: int|
        0 <= m < i ==> good_needs_upto(steps, m, (#[trigger] steps[m]).needs().len() as int)
}

/// Every dependency names another step.
pub open spec fn good_dependencies(steps: Seq<WorkflowStepDefinition>) -> bool {
    good_steps_upto(steps, steps.len() as int)
}

/// Of two different steps that may write, one waits for the other.
pub open spec fn ordered(steps: Seq<WorkflowStepDefinition>, i: int, j: int) -> bool {
    steps[i].writes() && steps[j].writes() ==> depends(steps, steps[i], steps[j].id_text())
        || depends(steps, steps[j], steps[i].id_text())
}

/// Steps that may write never run side by side.
pub open spec fn ordered_writers(steps: Seq<WorkflowStepDefinition>) -> bool {
    forall|i: int, j: int| 0 <= i < j < steps.len() ==> #[trigger] ordered(steps, i, j)
}

/// Whether the pair `i`, `j` is the first in order that is not ordered.
pub open spec fn first_unordered(steps: Seq<WorkflowStepDefinition>, i: int, j: int) -> bool {
    &&& 0 <= i < j < steps.len()
    &&& !ordered(steps, i, j)
    &&& forall|a: int, b: int|
        0 <= a < b < steps.len() && (a < i || (a == i && b < j)) ==> #[trigger] ordered(steps, a, b)
}

/// A definition that may be run.
pub open spec fn valid(definition: WorkflowDefinition) -> bool {
    let steps = definition.steps@;
    &&& text::trim(definition.name@).len() > 0
    &&& steps.len() > 0
    &&& good_ids(steps)
    &&& good_dependencies(steps)
    &&& acyclic(steps)
    &&& ordered_writers(steps)
}

/// Whether the step at `i` waits for itself, or for a step that waits for itself.
pub open spec fn doomed(steps: Seq<WorkflowStepDefinition>, i: int) -> bool {
    ||| reaches(steps, steps[i], i)
    ||| exists|c: int|
        0 <= c < steps.len() && #[trigger] reaches(steps, steps[i], c) && reaches(
            steps,
            steps[c],
            c,
        )
}

/// Whether the first dependency of the step at `i` that leads into a cycle is the step at
/// `j`.
pub open spec fn leads_on(steps: Seq<WorkflowStepDefinition>, i: int, j: int) -> bool {
    exists|k: int|
        {
            &&& 0 <= k < steps[i].needs().len()
            &&& first_step(steps, (#[trigger] steps[i].needs()[k])@, j)
            &&& doomed(steps, j)
            &&& forall|m: int, x: int|
                0 <= m < k && first_step(steps, (#[trigger] steps[i].needs()[m])@, x)
                    ==> !#[trigger] doomed(steps, x)
        }
}

/// Whether `rest` goes on from a path of different steps, each step by its first dependency
/// that leads into a cycle, up to the first step that comes up twice.
pub open spec fn closes(
    steps: Seq<WorkflowStepDefinition>,
    path: Seq<int>,
    rest: Seq<int>,
) -> bool {
    &&& rest.len() > 0
    &&& forall|n: int| 0 <= n < rest.len() ==> 0 <= #[trigger] rest[n] < steps.len()
    &&& doomed(steps, rest[0])
    &&& forall|n: int, m: int|
        0 <= n && m == n + 1 && m < rest.len() ==> leads_on(
            steps,
            #[trigger] rest[n],
            #[trigger] rest[m],
        )
    &&& path.contains(rest.last()) || rest.drop_last().contains(rest.last())
    &&& forall|n: int| 0 <= n < rest.len() - 1 ==> !path.contains(#[trigger] rest[n])
    &&& forall|n: int, m: int|
        0 <= n < m < rest.len() - 1 ==> #[trigger] rest[n] != #[trigger] rest[m]
}

/// Whether the step at `c` is the one that a cycle is reported at: from the first step that
/// leads into a cycle on, each time by the first dependency that does, it is the first one
/// that comes up twice.
pub open spec fn first_closed(steps: Seq<WorkflowStepDefinition>, c: int) -> bool {
    exists|rest: Seq<int>|
        {
            &&& #[trigger] closes(steps, Seq::empty(), rest)
            &&& forall|i: int| 0 <= i < rest[0] ==> !#[trigger] doomed(steps, i)
            &&& c == rest.last()
        }
}

/// The first step with the identifier `id`.
pub fn find_step(steps: &Vec<WorkflowStepDefinition>, id: &str) -> (r: Option<usize>)
    ensures
        match r {
            Some(j) => first_step(steps@, id@, j as int),
            None => !names_step(steps@, id@),
        },
{
    let mut i: usize = 0;
    while i < steps.len()
        invariant
            i <= steps.len(),
            forall|k: int| 0 <= k < i ==> (#[trigger] steps@[k]).id_text() != id@,
        decreases steps.len() - i,
    {
        if text::same_text(steps[i].id().as_str(), id) {
            return Some(i);
        }
        i += 1;
    }
    None
}

proof fn first_is_unique(steps: Seq<WorkflowStepDefinition>, id: Seq<char>, i: int, j: int)
    requires
        first_step(steps, id, i),
        first_step(steps, id, j),
    ensures
        i == j,
{
    if i < j {
        assert(steps[i].id_text() != id);
    } else if j < i {
        assert(steps[j].id_text() != id);
    }
}

pub(crate) proof fn reach_by_one(steps: Seq<WorkflowStepDefinition>, step: WorkflowStepDefinition, j: int)
    requires
        needs_step(steps, step, j),
    ensures
        reaches(steps, step, j),
{
    assert(needs_over(steps, step, j, 0));
}

pub(crate) proof fn reach_further(
    steps: Seq<WorkflowStepDefinition>,
    step: WorkflowStepDefinition,
    i: int,
    j: int,
)
    requires
        0 <= i < steps.len(),
        reaches(steps, step, i),
        needs_step(steps, steps[i], j),
    ensures
        reaches(steps, step, j),
{
    let n = choose|n: nat| needs_over(steps, step, i, n);
    assert(needs_over(steps, step, i, ((n + 1) - 1) as nat));
    assert(needs_over(steps, step, j, n + 1));
}

/// What a step reaches lies in every set that holds what it needs and is closed.
proof fn reach_stays(
    steps: Seq<WorkflowStepDefinition>,
    step: WorkflowStepDefinition,
    marked: Seq<bool>,
    j: int,
    n: nat,
)
    requires
        marked.len() == steps.len(),
        forall|i: int| #[trigger] needs_step(steps, step, i) ==> marked[i],
        forall|i: int, k: int|
            0 <= i < steps.len() && marked[i] && #[trigger] needs_step(steps, steps[i], k)
                ==> marked[k],
        needs_over(steps, step, j, n),
    ensures
        0 <= j < steps.len(),
        marked[j],
    decreases n,
{
    if n == 0 {
        let k = choose|k: int|
            0 <= k < step.needs().len() && first_step(steps, (#[trigger] step.needs()[k])@, j);
        assert(needs_step(steps, step, j));
    } else {
        let i = choose|i: int|
            0 <= i < steps.len() && needs_over(steps, step, i, (n - 1) as nat)
                && #[trigger] needs_step(steps, steps[i], j);
        reach_stays(steps, step, marked, i, (n - 1) as nat);
        assert(needs_step(steps, steps[i], j));
    }
}

/// How many entries are `false`.
spec fn unmarked(marked: Seq<bool>) -> nat
    decreases marked.len(),
{
    if marked.len() == 0 {
        0
    } else {
        unmarked(marked.drop_last()) + if marked.last() { 0nat } else { 1nat }
    }
}

proof fn marking_decreases(marked: Seq<bool>, i: int)
    requires
        0 <= i < marked.len(),
        !marked[i],
    ensures
        unmarked(marked.update(i, true)) + 1 == unmarked(marked),
    decreases marked.len(),
{
    let after = marked.update(i, true);
    if i == marked.len() - 1 {
        assert(after.drop_last() =~= marked.drop_last());
    } else {
        assert(after.drop_last() =~= marked.drop_last().update(i, true));
        marking_decreases(marked.drop_last(), i);
    }
}

/// The steps that `step` waits for, directly or through other steps.
fn reached(step: &WorkflowStepDefinition, steps: &Vec<WorkflowStepDefinition>) -> (r: Vec<bool>)
    ensures
        r@.len() == steps@.len(),
        forall|j: int| 0 <= j < steps@.len() ==> #[trigger] r@[j] == reaches(steps@, *step, j),
{
    let mut marked: Vec<bool> = Vec::new();
    let mut i: usize = 0;
    while i < steps.len()
        invariant
            i <= steps.len(),
            marked@.len() == i,
            forall|j: int| 0 <= j < i ==> !#[trigger] marked@[j],
        decreases steps.len() - i,
    {
        marked.push(false);
        i += 1;
    }
    mark_needs(step, step, steps, &mut marked);
    let mut settled: bool = false;
    while !settled
        invariant
            marked@.len() == steps@.len(),
            forall|j: int|
                0 <= j < steps@.len() && #[trigger] marked@[j] ==> reaches(steps@, *step, j),
            forall|j: int| #[trigger] needs_step(steps@, *step, j) ==> marked@[j],
            settled ==> forall|a: int, k: int|
                0 <= a < steps@.len() && marked@[a] && #[trigger] needs_step(steps@, steps@[a], k)
                    ==> marked@[k],
        decreases unmarked(marked@), if settled { 0int } else { 1int },
    {
        settled = true;
        let ghost before = marked@;
        let mut a: usize = 0;
        while a < steps.len()
            invariant
                a <= steps.len(),
                marked@.len() == steps@.len() == before.len(),
                forall|j: int|
                    0 <= j < steps@.len() && #[trigger] marked@[j] ==> reaches(steps@, *step, j),
                forall|j: int| 0 <= j < before.len() && #[trigger] before[j] ==> marked@[j],
                forall|j: int| #[trigger] needs_step(steps@, *step, j) ==> marked@[j],
                settled ==> marked@ == before,
                !settled ==> unmarked(marked@) < unmarked(before),
                settled ==> forall|b: int, k: int|
                    0 <= b < a && marked@[b] && #[trigger] needs_step(steps@, steps@[b], k)
                        ==> marked@[k],
                unmarked(marked@) <= unmarked(before),
            decreases steps.len() - a,
        {
            if marked[a] {
                let changed: bool = mark_needs(step, &steps[a], steps, &mut marked);
                if changed {
                    settled = false;
                }
            }
            a += 1;
        }
    }
    assert forall|j: int| 0 <= j < steps@.len() implies #[trigger] marked@[j] == reaches(
        steps@,
        *step,
        j,
    ) by {
        if reaches(steps@, *step, j) {
            let n = choose|n: nat| needs_over(steps@, *step, j, n);
            reach_stays(steps@, *step, marked@, j, n);
        }
    }
    marked
}

/// Marks the steps that `from` needs, where `from` is `start` or reached from it.
fn mark_needs(
    start: &WorkflowStepDefinition,
    from: &WorkflowStepDefinition,
    steps: &Vec<WorkflowStepDefinition>,
    marked: &mut Vec<bool>,
) -> (changed: bool)
    requires
        old(marked)@.len() == steps@.len(),
        forall|j: int|
            0 <= j < steps@.len() && #[trigger] old(marked)@[j] ==> reaches(steps@, *start, j),
        *from == *start || exists|i: int|
            0 <= i < steps@.len() && #[trigger] steps@[i] == *from && reaches(steps@, *start, i),
    ensures
        final(marked)@.len() == steps@.len(),
        forall|j: int|
            0 <= j < steps@.len() && #[trigger] final(marked)@[j] ==> reaches(steps@, *start, j),
        forall|j: int| 0 <= j < steps@.len() && #[trigger] old(marked)@[j] ==> final(marked)@[j],
        forall|j: int| #[trigger] needs_step(steps@, *from, j) ==> final(marked)@[j],
        !changed ==> final(marked)@ == old(marked)@,
        changed ==> unmarked(final(marked)@) < unmarked(old(marked)@),
{
    let needs: &Vec<String> = from.dependencies();
    let mut changed: bool = false;
    let mut k: usize = 0;
    while k < needs.len()
        invariant
            k <= needs.len(),
            needs@ == from.needs(),
            marked@.len() == steps@.len() == old(marked)@.len(),
            forall|j: int|
                0 <= j < steps@.len() && #[trigger] marked@[j] ==> reaches(steps@, *start, j),
            forall|j: int| 0 <= j < steps@.len() && #[trigger] old(marked)@[j] ==> marked@[j],
            forall|m: int, j: int|
                0 <= m < k && first_step(steps@, (#[trigger] from.needs()[m])@, j)
                    ==> #[trigger] marked@[j],
            !changed ==> marked@ == old(marked)@,
            changed ==> unmarked(marked@) < unmarked(old(marked)@),
            unmarked(marked@) <= unmarked(old(marked)@),
            *from == *start || exists|i: int|
                0 <= i < steps@.len() && #[trigger] steps@[i] == *from && reaches(
                    steps@,
                    *start,
                    i,
                ),
        decreases needs.len() - k,
    {
        let ghost before = marked@;
        match find_step(steps, needs[k].as_str()) {
            Some(j) => {
                proof {
                    assert(first_step(steps@, from.needs()[k as int]@, j as int));
                    assert(needs_step(steps@, *from, j as int));
                    if *from == *start {
                        reach_by_one(steps@, *start, j as int);
                    } else {
                        let i = choose|i: int|
                            0 <= i < steps@.len() && #[trigger] steps@[i] == *from && reaches(
                                steps@,
                                *start,
                                i,
                            );
                        reach_further(steps@, *start, i, j as int);
                    }
                    assert forall|x: int| first_step(steps@, from.needs()[k as int]@, x) implies x
                        == j by {
                        first_is_unique(steps@, from.needs()[k as int]@, x, j as int);
                    }
                }
                if !marked[j] {
                    proof {
                        marking_decreases(marked@, j as int);
                    }
                    marked.set(j, true);
                    changed = true;
                }
            },
            None => {},
        }
        assert forall|m: int, j: int|
            0 <= m < k + 1 && first_step(steps@, (#[trigger] from.needs()[m])@, j) implies
            #[trigger] marked@[j] by {
            if m < k {
                assert(before[j]);
            }
        }
        k += 1;
    }
    assert forall|j: int| #[trigger] needs_step(steps@, *from, j) implies marked@[j] by {
        let m = choose|m: int|
            0 <= m < from.needs().len() && first_step(steps@, (#[trigger] from.needs()[m])@, j);
        assert(marked@[j]);
    }
    changed
}

/// Whether `step` waits for `target`, directly or through other steps.
pub fn depends_transitively(
    step: &WorkflowStepDefinition,
    target: &str,
    steps: &Vec<WorkflowStepDefinition>,
) -> (r: bool)
    ensures
        r == depends(steps@, *step, target@),
{
    if text::list_has(step.dependencies(), target) {
        return true;
    }
    let marked: Vec<bool> = reached(step, steps);
    let mut i: usize = 0;
    while i < steps.len()
        invariant
            i <= steps.len() == marked.len(),
            forall|j: int|
                0 <= j < steps@.len() ==> #[trigger] marked@[j] == reaches(steps@, *step, j),
            forall|j: int|
                0 <= j < i && #[trigger] marked@[j] ==> !text::lists(steps@[j].needs(), target@),
        decreases steps.len() - i,
    {
        if marked[i] && text::list_has(steps[i].dependencies(), target) {
            assert(marked@[i as int]);
            return true;
        }
        i += 1;
    }
    assert forall|j: int| 0 <= j < steps@.len() && #[trigger] reaches(steps@, *step, j) implies
        !text::lists(steps@[j].needs(), target@) by {
        assert(marked@[j]);
    }
    false
}

/// The visited steps hold what they need, and none of them waits for itself.
spec fn explored(steps: Seq<WorkflowStepDefinition>, visited: Seq<bool>) -> bool {
    &&& visited.len() == steps.len()
    &&& forall|i: int, k: int|
        0 <= i < steps.len() && visited[i] && #[trigger] needs_step(steps, steps[i], k)
            ==> visited[k]
    &&& forall|i: int|
        0 <= i < steps.len() && #[trigger] visited[i] ==> !reaches(steps, steps[i], i)
}

/// No step is both on the current path and done.
spec fn apart(visiting: Seq<bool>, visited: Seq<bool>) -> bool {
    forall|i: int| 0 <= i < visited.len() ==> !(#[trigger] visited[i] && visiting[i])
}

proof fn reach_from_before(
    steps: Seq<WorkflowStepDefinition>,
    i: int,
    j: int,
    c: int,
    n: nat,
)
    requires
        0 <= i < steps.len(),
        0 <= j < steps.len(),
        needs_step(steps, steps[i], j),
        needs_over(steps, steps[j], c, n),
    ensures
        reaches(steps, steps[i], c),
    decreases n,
{
    reach_by_one(steps, steps[i], j);
    if n == 0 {
        reach_further(steps, steps[i], j, c);
    } else {
        let x = choose|x: int|
            0 <= x < steps.len() && needs_over(steps, steps[j], x, (n - 1) as nat)
                && #[trigger] needs_step(steps, steps[x], c);
        reach_from_before(steps, i, j, x, (n - 1) as nat);
        reach_further(steps, steps[i], x, c);
    }
}

/// Who waits for a step that leads into a cycle leads into one too.
proof fn doom_spreads(steps: Seq<WorkflowStepDefinition>, i: int, j: int)
    requires
        0 <= i < steps.len(),
        0 <= j < steps.len(),
        needs_step(steps, steps[i], j),
        doomed(steps, j),
    ensures
        doomed(steps, i),
{
    let c = if reaches(steps, steps[j], j) {
        reach_by_one(steps, steps[i], j);
        j
    } else {
        let c = choose|c: int|
            0 <= c < steps.len() && #[trigger] reaches(steps, steps[j], c) && reaches(
                steps,
                steps[c],
                c,
            );
        let n = choose|n: nat| needs_over(steps, steps[j], c, n);
        reach_from_before(steps, i, j, c, n);
        c
    };
    assert(reaches(steps, steps[i], c));
}

/// What was explored leads into no cycle.
proof fn explored_is_sound(steps: Seq<WorkflowStepDefinition>, visited: Seq<bool>, i: int)
    requires
        explored(steps, visited),
        0 <= i < steps.len(),
        visited[i],
    ensures
        !doomed(steps, i),
{
    assert forall|c: int| 0 <= c < steps.len() && #[trigger] reaches(steps, steps[i], c) implies !reaches(
        steps,
        steps[c],
        c,
    ) by {
        let n = choose|n: nat| needs_over(steps, steps[i], c, n);
        reach_stays(steps, steps[i], visited, c, n);
        assert(visited[c]);
    }
}

/// A step in front of what closes a cycle.
proof fn closes_before(
    steps: Seq<WorkflowStepDefinition>,
    path: Seq<int>,
    at: int,
    rest: Seq<int>,
)
    requires
        0 <= at < steps.len(),
        !path.contains(at),
        closes(steps, path.push(at), rest),
        leads_on(steps, at, rest[0]),
        doomed(steps, at),
    ensures
        closes(steps, path, seq![at] + rest),
{
    let all = seq![at] + rest;
    let longer = path.push(at);
    assert(longer[path.len() as int] == at);
    assert forall|n: int| 0 <= n < all.len() implies 0 <= #[trigger] all[n] < steps.len() by {
        if n > 0 {
            assert(all[n] == rest[n - 1]);
        }
    }
    assert forall|n: int, m: int| 0 <= n && m == n + 1 && m < all.len() implies leads_on(
        steps,
        #[trigger] all[n],
        #[trigger] all[m],
    ) by {
        assert(all[m] == rest[m - 1]);
        if n > 0 {
            assert(all[n] == rest[n - 1]);
        }
    }
    assert forall|n: int| 0 <= n < all.len() - 1 implies !path.contains(#[trigger] all[n]) by {
        if n > 0 {
            assert(all[n] == rest[n - 1]);
            if path.contains(all[n]) {
                let x = choose|x: int| 0 <= x < path.len() && path[x] == all[n];
                assert(longer[x] == rest[n - 1]);
            }
        }
    }
    assert forall|n: int, m: int| 0 <= n < m < all.len() - 1 implies #[trigger] all[n]
        != #[trigger] all[m] by {
        assert(all[m] == rest[m - 1]);
        if n > 0 {
            assert(all[n] == rest[n - 1]);
        } else {
            assert(longer.contains(at));
        }
    }
    let end = rest.last();
    assert(all.last() == end);
    assert(all.drop_last()[0] == at);
    if rest.drop_last().contains(end) {
        let x = choose|x: int| 0 <= x < rest.drop_last().len() && rest.drop_last()[x] == end;
        assert(all.drop_last()[x + 1] == end);
    } else {
        let x = choose|x: int| 0 <= x < longer.len() && longer[x] == end;
        if x < path.len() {
            assert(path[x] == end);
        }
    }
}

/// Explores depth first what the step `at` waits for. `path` is the way that led here, and
/// `visiting` marks it. Returns the step at which a cycle is found, if there is one on the
/// way.
fn visit(
    at: usize,
    steps: &Vec<WorkflowStepDefinition>,
    visiting: &mut Vec<bool>,
    visited: &mut Vec<bool>,
    Ghost(path): Ghost<Seq<int>>,
) -> (r: Result<(), usize>)
    requires
        at < steps@.len(),
        forall|v: int|
            0 <= v < steps@.len() ==> #[trigger] old(visiting)@[v] == path.contains(v),
        old(visiting)@.len() == steps@.len(),
        explored(steps@, old(visited)@),
        apart(old(visiting)@, old(visited)@),
        forall|v: int|
            0 <= v < steps@.len() && #[trigger] old(visiting)@[v] ==> reaches(
                steps@,
                steps@[v],
                at as int,
            ),
    ensures
        match r {
            Ok(_) => {
                &&& final(visiting)@ == old(visiting)@
                &&& explored(steps@, final(visited)@)
                &&& apart(final(visiting)@, final(visited)@)
                &&& final(visited)@[at as int]
                &&& forall|v: int|
                    0 <= v < steps@.len() && #[trigger] old(visited)@[v] ==> final(visited)@[v]
            },
            Err(c) => c < steps@.len() && reaches(steps@, steps@[c as int], c as int) && exists|
                rest: Seq<int>,
            |
                {
                    &&& #[trigger] closes(steps@, path, rest)
                    &&& rest[0] == at
                    &&& rest.last() == c
                },
        },
    decreases unmarked(old(visiting)@),
{
    if visited[at] {
        return Ok(());
    }
    if visiting[at] {
        assert(closes(steps@, path, seq![at as int]));
        return Err(at);
    }
    proof {
        marking_decreases(visiting@, at as int);
    }
    visiting.set(at, true);
    let ghost marks = visiting@;
    let ghost longer = path.push(at as int);
    assert forall|v: int| 0 <= v < steps@.len() implies #[trigger] marks[v] == longer.contains(v) by {
        assert(longer[path.len() as int] == at);
        if path.contains(v) {
            let x = choose|x: int| 0 <= x < path.len() && path[x] == v;
            assert(longer[x] == v);
        }
        if longer.contains(v) && v != at {
            let x = choose|x: int| 0 <= x < longer.len() && longer[x] == v;
            assert(path[x] == v);
        }
        assert(v != at ==> marks[v] == old(visiting)@[v]);
    }
    let needs: &Vec<String> = steps[at].dependencies();
    let mut k: usize = 0;
    while k < needs.len()
        invariant
            k <= needs.len(),
            at < steps@.len(),
            needs@ == steps@[at as int].needs(),
            visiting@ == marks,
            marks.len() == steps@.len(),
            marks == old(visiting)@.update(at as int, true),
            marks[at as int],
            longer == path.push(at as int),
            !path.contains(at as int),
            forall|v: int| 0 <= v < steps@.len() ==> #[trigger] marks[v] == longer.contains(v),
            unmarked(marks) < unmarked(old(visiting)@),
            explored(steps@, visited@),
            apart(visiting@, visited@),
            old(visiting)@.len() == steps@.len(),
            old(visited)@.len() == steps@.len(),
            forall|v: int|
                0 <= v < steps@.len() && #[trigger] old(visited)@[v] ==> visited@[v],
            forall|v: int|
                0 <= v < steps@.len() && #[trigger] old(visiting)@[v] ==> reaches(
                    steps@,
                    steps@[v],
                    at as int,
                ),
            forall|m: int, j: int|
                0 <= m < k && first_step(
                    steps@,
                    (#[trigger] steps@[at as int].needs()[m])@,
                    j,
                ) ==> #[trigger] visited@[j],
        decreases needs.len() - k,
    {
        match find_step(steps, needs[k].as_str()) {
            Some(j) => {
                let ghost before = visited@;
                proof {
                    assert(first_step(steps@, steps@[at as int].needs()[k as int]@, j as int));
                    assert(needs_step(steps@, steps@[at as int], j as int));
                    assert forall|v: int| 0 <= v < steps@.len() && #[trigger] marks[v] implies reaches(
                        steps@,
                        steps@[v],
                        j as int,
                    ) by {
                        if v == at {
                            reach_by_one(steps@, steps@[v], j as int);
                        } else {
                            assert(old(visiting)@[v]);
                            reach_further(steps@, steps@[v], at as int, j as int);
                        }
                    }
                }
                match visit(j, steps, visiting, visited, Ghost(longer)) {
                    Ok(_) => {},
                    Err(c) => {
                        proof {
                            let rest = choose|rest: Seq<int>|
                                {
                                    &&& #[trigger] closes(steps@, longer, rest)
                                    &&& rest[0] == j
                                    &&& rest.last() == c
                                };
                            assert forall|m: int, x: int|
                                0 <= m < k && first_step(
                                    steps@,
                                    (#[trigger] steps@[at as int].needs()[m])@,
                                    x,
                                ) implies !#[trigger] doomed(steps@, x) by {
                                assert(before[x]);
                                explored_is_sound(steps@, before, x);
                            }
                            assert(leads_on(steps@, at as int, j as int));
                            doom_spreads(steps@, at as int, j as int);
                            closes_before(steps@, path, at as int, rest);
                            assert((seq![at as int] + rest).last() == c);
                        }
                        return Err(c);
                    },
                }
                proof {
                    assert forall|m: int, x: int|
                        0 <= m < k + 1 && first_step(
                            steps@,
                            (#[trigger] steps@[at as int].needs()[m])@,
                            x,
                        ) implies #[trigger] visited@[x] by {
                        if m < k {
                            assert(before[x]);
                        } else {
                            first_is_unique(
                                steps@,
                                steps@[at as int].needs()[k as int]@,
                                x,
                                j as int,
                            );
                        }
                    }
                }
            },
            None => {
                proof {
                    assert forall|m: int, x: int|
                        0 <= m < k + 1 && first_step(
                            steps@,
                            (#[trigger] steps@[at as int].needs()[m])@,
                            x,
                        ) implies #[trigger] visited@[x] by {
                        if m == k {
                            assert(names_step(steps@, steps@[at as int].needs()[k as int]@));
                        }
                    }
                }
            },
        }
        k += 1;
    }
    let ghost done = visited@;
    proof {
        assert forall|j: int| #[trigger] needs_step(steps@, steps@[at as int], j) implies done[j] by {
            let m = choose|m: int|
                0 <= m < steps@[at as int].needs().len() && first_step(
                    steps@,
                    (#[trigger] steps@[at as int].needs()[m])@,
                    j,
                );
            assert(visited@[j]);
        }
        assert(!done[at as int]);
        if reaches(steps@, steps@[at as int], at as int) {
            let n = choose|n: nat| needs_over(steps@, steps@[at as int], at as int, n);
            reach_stays(steps@, steps@[at as int], done, at as int, n);
        }
    }
    visiting.set(at, false);
    visited.set(at, true);
    proof {
        assert(visiting@ =~= old(visiting)@);
        assert forall|i: int, x: int|
            0 <= i < steps@.len() && visited@[i] && #[trigger] needs_step(
                steps@,
                steps@[i],
                x,
            ) implies visited@[x] by {
            if i != at {
                assert(done[i]);
                assert(done[x]);
            } else {
                assert(done[x]);
            }
        }
        assert forall|i: int| 0 <= i < steps@.len() && #[trigger] visited@[i] implies !reaches(
            steps@,
            steps@[i],
            i,
        ) by {
            if i != at {
                assert(done[i]);
            }
        }
        assert forall|i: int| 0 <= i < visited@.len() implies !(#[trigger] visited@[i]
            && visiting@[i]) by {
            if i != at {
                assert(!(done[i] && marks[i]));
            }
        }
    }
    Ok(())
}

/// Whether a definition may be run, or the first reason why not. A cycle is reported at the
/// step that comes up twice first, from the first step on that leads into one.
pub fn validate_definition(definition: &WorkflowDefinition) -> (r: Result<(), WorkflowError>)
    ensures
        r is Ok <==> valid(*definition),
        ({
            let steps = definition.steps@;
            let named = text::trim(definition.name@).len() > 0 && steps.len() > 0;
            match r {
                Ok(_) => true,
                Err(WorkflowError::Empty) => !named,
                Err(WorkflowError::StepIds) => named && !good_ids(steps),
                Err(WorkflowError::Dependency { step, dependency }) => named && good_ids(steps)
                    && exists|i: int, k: int|
                    {
                        &&& 0 <= i < steps.len()
                        &&& 0 <= k < steps[i].needs().len()
                        &&& !#[trigger] good_need(steps, i, k)
                        &&& good_needs_upto(steps, i, k)
                        &&& good_steps_upto(steps, i)
                        &&& step@ == steps[i].id_text()
                        &&& dependency@ == steps[i].needs()[k]@
                    },
                Err(WorkflowError::Cycle { step }) => named && good_ids(steps) && good_dependencies(
                    steps,
                ) && !acyclic(steps) && exists|i: int|
                    0 <= i < steps.len() && #[trigger] first_closed(steps, i) && reaches(
                        steps,
                        steps[i],
                        i,
                    ) && step@ == steps[i].id_text(),
                Err(WorkflowError::Writers { left, right }) => named && good_ids(steps)
                    && good_dependencies(steps) && acyclic(steps) && exists|i: int, j: int|
                    {
                        &&& #[trigger] first_unordered(steps, i, j)
                        &&& left@ == steps[i].id_text()
                        &&& right@ == steps[j].id_text()
                    },
                Err(_) => false,
            }
        }),
{
    let steps: &Vec<WorkflowStepDefinition> = &definition.steps;
    let name: String = text::trimmed(definition.name.as_str());
    if name.as_str().is_empty() || steps.len() == 0 {
        return Err(WorkflowError::Empty);
    }
    if !check_ids(steps) {
        return Err(WorkflowError::StepIds);
    }
    match check_dependencies(steps) {
        Ok(_) => {},
        Err(error) => {
            return Err(error);
        },
    }
    match check_cycles(steps) {
        Ok(_) => {},
        Err(c) => {
            return Err(WorkflowError::Cycle { step: steps[c].id().clone() });
        },
    }
    match check_writers(steps) {
        Ok(_) => Ok(()),
        Err((i, j)) => {
            assert(first_unordered(steps@, i as int, j as int));
            Err(
                WorkflowError::Writers {
                    left: steps[i].id().clone(),
                    right: steps[j].id().clone(),
                },
            )
        },
    }
}

proof fn one_leads_on(steps: Seq<WorkflowStepDefinition>, i: int, a: int, b: int)
    requires
        leads_on(steps, i, a),
        leads_on(steps, i, b),
    ensures
        a == b,
{
    let k = choose|k: int|
        {
            &&& 0 <= k < steps[i].needs().len()
            &&& first_step(steps, (#[trigger] steps[i].needs()[k])@, a)
            &&& doomed(steps, a)
            &&& forall|m: int, x: int|
                0 <= m < k && first_step(steps, (#[trigger] steps[i].needs()[m])@, x)
                    ==> !#[trigger] doomed(steps, x)
        };
    let l = choose|l: int|
        {
            &&& 0 <= l < steps[i].needs().len()
            &&& first_step(steps, (#[trigger] steps[i].needs()[l])@, b)
            &&& doomed(steps, b)
            &&& forall|m: int, x: int|
                0 <= m < l && first_step(steps, (#[trigger] steps[i].needs()[m])@, x)
                    ==> !#[trigger] doomed(steps, x)
        };
    if k == l {
        first_is_unique(steps, steps[i].needs()[k]@, a, b);
    }
}

proof fn ways_agree(
    steps: Seq<WorkflowStepDefinition>,
    a: Seq<int>,
    b: Seq<int>,
    n: int,
)
    requires
        closes(steps, Seq::empty(), a),
        closes(steps, Seq::empty(), b),
        a[0] == b[0],
        0 <= n < a.len(),
        n < b.len(),
    ensures
        a[n] == b[n],
    decreases n,
{
    if n > 0 {
        ways_agree(steps, a, b, n - 1);
        assert(leads_on(steps, a[n - 1], a[n]));
        assert(leads_on(steps, b[n - 1], b[n]));
        one_leads_on(steps, a[n - 1], a[n], b[n]);
    }
}

proof fn no_way_is_longer(steps: Seq<WorkflowStepDefinition>, a: Seq<int>, b: Seq<int>)
    requires
        closes(steps, Seq::empty(), a),
        closes(steps, Seq::empty(), b),
        a[0] == b[0],
    ensures
        a.len() >= b.len(),
{
    if a.len() < b.len() {
        let x = choose|x: int| 0 <= x < a.drop_last().len() && a.drop_last()[x] == a.last();
        ways_agree(steps, a, b, x);
        ways_agree(steps, a, b, a.len() - 1);
        assert(b[x] == b[a.len() - 1]);
    }
}

/// There is one step that a cycle is reported at.
pub proof fn cycles_are_reported_once(steps: Seq<WorkflowStepDefinition>, i: int, j: int)
    requires
        first_closed(steps, i),
        first_closed(steps, j),
    ensures
        i == j,
{
    let a = choose|rest: Seq<int>|
        {
            &&& #[trigger] closes(steps, Seq::empty(), rest)
            &&& forall|x: int| 0 <= x < rest[0] ==> !#[trigger] doomed(steps, x)
            &&& i == rest.last()
        };
    let b = choose|rest: Seq<int>|
        {
            &&& #[trigger] closes(steps, Seq::empty(), rest)
            &&& forall|x: int| 0 <= x < rest[0] ==> !#[trigger] doomed(steps, x)
            &&& j == rest.last()
        };
    assert(doomed(steps, a[0]) && doomed(steps, b[0]));
    assert(a[0] == b[0]);
    no_way_is_longer(steps, a, b);
    no_way_is_longer(steps, b, a);
    ways_agree(steps, a, b, a.len() - 1);
}

/// Whether two lists hold the same steps, in whatever order.
pub open spec fn same_steps(
    a: Seq<WorkflowStepDefinition>,
    b: Seq<WorkflowStepDefinition>,
) -> bool {
    a.to_multiset() == b.to_multiset()
}

proof fn same_steps_contain(
    a: Seq<WorkflowStepDefinition>,
    b: Seq<WorkflowStepDefinition>,
    i: int,
) -> (j: int)
    requires
        same_steps(a, b),
        0 <= i < a.len(),
    ensures
        0 <= j < b.len(),
        b[j] == a[i],
{
    broadcast use vstd::seq_lib::group_to_multiset_ensures;

    assert(a.contains(a[i]));
    assert(a.to_multiset().count(a[i]) > 0);
    assert(b.contains(a[i]));
    choose|j: int| 0 <= j < b.len() && b[j] == a[i]
}

proof fn good_ids_carry_over(a: Seq<WorkflowStepDefinition>, b: Seq<WorkflowStepDefinition>)
    requires
        same_steps(a, b),
        good_ids(a),
    ensures
        a.len() == b.len(),
        good_ids(b),
{
    broadcast use vstd::seq_lib::group_to_multiset_ensures;

    assert(a.len() == a.to_multiset().len());
    assert(b.len() == b.to_multiset().len());
    assert(a.no_duplicates()) by {
        assert forall|i: int, j: int| 0 <= i < a.len() && 0 <= j < a.len() && i != j implies a[i]
            != a[j] by {
            if i < j {
                assert(a[i].id_text() != a[j].id_text());
            } else {
                assert(a[j].id_text() != a[i].id_text());
            }
        }
    }
    a.lemma_multiset_has_no_duplicates();
    b.lemma_multiset_has_no_duplicates_conv();
    assert forall|i: int, j: int| 0 <= i < j < b.len() implies (#[trigger] b[i]).id_text() != (
    #[trigger] b[j]).id_text() by {
        let p = same_steps_contain(b, a, i);
        let q = same_steps_contain(b, a, j);
        assert(b[i] != b[j]);
        if p < q {
            assert(a[p].id_text() != a[q].id_text());
        } else {
            assert(a[q].id_text() != a[p].id_text());
        }
    }
    assert forall|i: int| 0 <= i < b.len() implies text::trim((#[trigger] b[i]).id_text()).len()
        > 0 by {
        let p = same_steps_contain(b, a, i);
        assert(text::trim(a[p].id_text()).len() > 0);
    }
}

proof fn needs_carry_over(
    a: Seq<WorkflowStepDefinition>,
    b: Seq<WorkflowStepDefinition>,
    step: WorkflowStepDefinition,
    i: int,
    j: int,
)
    requires
        good_ids(b),
        needs_step(a, step, i),
        0 <= j < b.len(),
        b[j] == a[i],
    ensures
        needs_step(b, step, j),
{
    let k = choose|k: int|
        0 <= k < step.needs().len() && first_step(a, (#[trigger] step.needs()[k])@, i);
    assert forall|m: int| 0 <= m < j implies (#[trigger] b[m]).id_text() != step.needs()[k]@ by {
        assert(b[m].id_text() != b[j].id_text());
    }
    assert(first_step(b, step.needs()[k]@, j));
}

proof fn reaching_carries_over(
    a: Seq<WorkflowStepDefinition>,
    b: Seq<WorkflowStepDefinition>,
    step: WorkflowStepDefinition,
    i: int,
    j: int,
    n: nat,
)
    requires
        same_steps(a, b),
        good_ids(b),
        needs_over(a, step, i, n),
        0 <= j < b.len(),
        b[j] == a[i],
    ensures
        needs_over(b, step, j, n),
    decreases n,
{
    if n == 0 {
        needs_carry_over(a, b, step, i, j);
    } else {
        let x = choose|x: int|
            0 <= x < a.len() && needs_over(a, step, x, (n - 1) as nat) && #[trigger] needs_step(
                a,
                a[x],
                i,
            );
        let y = same_steps_contain(a, b, x);
        reaching_carries_over(a, b, step, x, y, (n - 1) as nat);
        needs_carry_over(a, b, b[y], i, j);
    }
}

proof fn dependence_carries_over(
    a: Seq<WorkflowStepDefinition>,
    b: Seq<WorkflowStepDefinition>,
    step: WorkflowStepDefinition,
    target: Seq<char>,
)
    requires
        same_steps(a, b),
        good_ids(b),
        depends(a, step, target),
    ensures
        depends(b, step, target),
{
    if !text::lists(step.needs(), target) {
        let i = choose|i: int|
            0 <= i < a.len() && #[trigger] reaches(a, step, i) && text::lists(
                a[i].needs(),
                target,
            );
        let n = choose|n: nat| needs_over(a, step, i, n);
        let j = same_steps_contain(a, b, i);
        reaching_carries_over(a, b, step, i, j, n);
        assert(reaches(b, step, j));
    }
}

proof fn validity_carries_over(a: WorkflowDefinition, b: WorkflowDefinition)
    requires
        a.name@ == b.name@,
        same_steps(a.steps@, b.steps@),
        valid(a),
    ensures
        valid(b),
{
    let s = a.steps@;
    let t = b.steps@;
    good_ids_carry_over(s, t);
    assert forall|m: int| 0 <= m < t.len() implies good_needs_upto(
        t,
        m,
        (#[trigger] t[m]).needs().len() as int,
    ) by {
        let p = same_steps_contain(t, s, m);
        assert(good_needs_upto(s, p, s[p].needs().len() as int));
        assert forall|k: int| 0 <= k < t[m].needs().len() implies #[trigger] good_need(t, m, k) by {
            assert(good_need(s, p, k));
            let x = choose|x: int|
                0 <= x < s.len() && (#[trigger] s[x]).id_text() == s[p].needs()[k]@;
            let y = same_steps_contain(s, t, x);
            assert(t[y].id_text() == t[m].needs()[k]@);
        }
    }
    assert forall|j: int| 0 <= j < t.len() implies !reaches(t, #[trigger] t[j], j) by {
        if reaches(t, t[j], j) {
            let n = choose|n: nat| needs_over(t, t[j], j, n);
            let i = same_steps_contain(t, s, j);
            reaching_carries_over(t, s, t[j], j, i, n);
            assert(reaches(s, s[i], i));
        }
    }
    assert forall|i: int, j: int| 0 <= i < j < t.len() implies #[trigger] ordered(t, i, j) by {
        let p = same_steps_contain(t, s, i);
        let q = same_steps_contain(t, s, j);
        assert(t[i].id_text() != t[j].id_text());
        if p < q {
            assert(ordered(s, p, q));
        } else {
            assert(ordered(s, q, p));
        }
        if t[i].writes() && t[j].writes() {
            if depends(s, t[i], t[j].id_text()) {
                dependence_carries_over(s, t, t[i], t[j].id_text());
            } else {
                dependence_carries_over(s, t, t[j], t[i].id_text());
            }
        }
    }
}

/// The order in which the steps of a workflow are written down does not change whether it
/// may be run.
pub proof fn order_does_not_matter(a: WorkflowDefinition, b: WorkflowDefinition)
    requires
        a.name@ == b.name@,
        same_steps(a.steps@, b.steps@),
    ensures
        valid(a) == valid(b),
{
    if valid(a) {
        validity_carries_over(a, b);
    }
    if valid(b) {
        validity_carries_over(b, a);
    }
}

fn check_ids(steps: &Vec<WorkflowStepDefinition>) -> (r: bool)
    ensures
        r == good_ids(steps@),
{
    let mut i: usize = 0;
    while i < steps.len()
        invariant
            i <= steps.len(),
            forall|a: int, b: int|
                0 <= a < b < steps@.len() && a < i ==> (#[trigger] steps@[a]).id_text() != (
                #[trigger] steps@[b]).id_text(),
            forall|a: int|
                0 <= a < i ==> text::trim((#[trigger] steps@[a]).id_text()).len() > 0,
        decreases steps.len() - i,
    {
        let trimmed: String = text::trimmed(steps[i].id().as_str());
        if trimmed.as_str().is_empty() {
            return false;
        }
        let mut j: usize = i + 1;
        while j < steps.len()
            invariant
                i < j <= steps.len(),
                forall|b: int|
                    i < b < j ==> steps@[i as int].id_text() != (#[trigger] steps@[b]).id_text(),
            decreases steps.len() - j,
        {
            if text::same_text(steps[i].id().as_str(), steps[j].id().as_str()) {
                assert(steps@[i as int].id_text() == steps@[j as int].id_text());
                return false;
            }
            j += 1;
        }
        i += 1;
    }
    true
}

fn check_dependencies(steps: &Vec<WorkflowStepDefinition>) -> (r: Result<(), WorkflowError>)
    ensures
        match r {
            Ok(_) => good_dependencies(steps@),
            Err(error) => {
                &&& error matches WorkflowError::Dependency { step, dependency }
                &&& exists|i: int, k: int|
                    {
                        &&& 0 <= i < steps@.len()
                        &&& 0 <= k < steps@[i].needs().len()
                        &&& !#[trigger] good_need(steps@, i, k)
                        &&& good_needs_upto(steps@, i, k)
                        &&& good_steps_upto(steps@, i)
                        &&& step@ == steps@[i].id_text()
                        &&& dependency@ == steps@[i].needs()[k]@
                    }
                &&& !good_dependencies(steps@)
            },
        },
{
    let mut i: usize = 0;
    while i < steps.len()
        invariant
            i <= steps.len(),
            good_steps_upto(steps@, i as int),
        decreases steps.len() - i,
    {
        let needs: &Vec<String> = steps[i].dependencies();
        let mut k: usize = 0;
        while k < needs.len()
            invariant
                i < steps.len(),
                needs@ == steps@[i as int].needs(),
                k <= needs.len(),
                good_needs_upto(steps@, i as int, k as int),
                good_steps_upto(steps@, i as int),
            decreases needs.len() - k,
        {
            let known: bool = find_step(steps, needs[k].as_str()).is_some();
            if !known || needs[k] == *steps[i].id() {
                assert(!good_need(steps@, i as int, k as int));
                assert(!good_needs_upto(steps@, i as int, steps@[i as int].needs().len() as int));
                assert(!good_dependencies(steps@));
                return Err(
                    WorkflowError::Dependency {
                        step: steps[i].id().clone(),
                        dependency: needs[k].clone(),
                    },
                );
            }
            assert(good_need(steps@, i as int, k as int));
            k += 1;
        }
        i += 1;
    }
    Ok(())
}

fn check_cycles(steps: &Vec<WorkflowStepDefinition>) -> (r: Result<(), usize>)
    ensures
        match r {
            Ok(_) => acyclic(steps@),
            Err(c) => c < steps@.len() && reaches(steps@, steps@[c as int], c as int)
                && first_closed(steps@, c as int),
        },
{
    let mut visited: Vec<bool> = Vec::new();
    let mut visiting: Vec<bool> = Vec::new();
    let mut i: usize = 0;
    while i < steps.len()
        invariant
            i <= steps.len(),
            visited@.len() == i == visiting@.len(),
            forall|j: int| 0 <= j < i ==> !#[trigger] visited@[j],
            forall|j: int| 0 <= j < i ==> !#[trigger] visiting@[j],
        decreases steps.len() - i,
    {
        visited.push(false);
        visiting.push(false);
        i += 1;
    }
    i = 0;
    while i < steps.len()
        invariant
            i <= steps.len(),
            visiting@.len() == steps@.len(),
            explored(steps@, visited@),
            forall|j: int| 0 <= j < steps@.len() ==> !#[trigger] visiting@[j],
            forall|j: int| 0 <= j < i ==> #[trigger] visited@[j],
        decreases steps.len() - i,
    {
        let ghost before = visited@;
        match visit(i, steps, &mut visiting, &mut visited, Ghost(Seq::empty())) {
            Ok(_) => {
                assert forall|j: int| 0 <= j < i + 1 implies #[trigger] visited@[j] by {
                    if j < i {
                        assert(before[j]);
                    }
                }
            },
            Err(c) => {
                proof {
                    let rest = choose|rest: Seq<int>|
                        {
                            &&& #[trigger] closes(steps@, Seq::empty(), rest)
                            &&& rest[0] == i
                            &&& rest.last() == c
                        };
                    assert forall|j: int| 0 <= j < rest[0] implies !#[trigger] doomed(steps@, j) by {
                        assert(before[j]);
                        explored_is_sound(steps@, before, j);
                    }
                }
                return Err(c);
            },
        }
        i += 1;
    }
    assert forall|j: int| 0 <= j < steps@.len() implies !reaches(
        steps@,
        #[trigger] steps@[j],
        j,
    ) by {
        assert(visited@[j]);
    }
    Ok(())
}

fn check_writers(steps: &Vec<WorkflowStepDefinition>) -> (r: Result<(), (usize, usize)>)
    ensures
        match r {
            Ok(_) => ordered_writers(steps@),
            Err((i, j)) => first_unordered(steps@, i as int, j as int) && !ordered_writers(steps@),
        },
{
    let mut i: usize = 0;
    while i < steps.len()
        invariant
            i <= steps.len(),
            forall|a: int, b: int|
                0 <= a < b < steps@.len() && a < i ==> #[trigger] ordered(steps@, a, b),
        decreases steps.len() - i,
    {
        let mut j: usize = i + 1;
        while j < steps.len()
            invariant
                i < j <= steps.len(),
                forall|a: int, b: int|
                    0 <= a < b < steps@.len() && (a < i || (a == i && b < j))
                        ==> #[trigger] ordered(steps@, a, b),
            decreases steps.len() - j,
        {
            if steps[i].is_writer() && steps[j].is_writer() && !depends_transitively(
                &steps[i],
                steps[j].id().as_str(),
                steps,
            ) && !depends_transitively(&steps[j], steps[i].id().as_str(), steps) {
                assert(!ordered(steps@, i as int, j as int));
                return Err((i, j));
            }
            assert(ordered(steps@, i as int, j as int));
            j += 1;
        }
        i += 1;
    }
    Ok(())
}

/// The role of a step that names none.
pub fn default_role() -> (r: String)
    ensures
        r@ == "general-purpose"@,
{
    "general-purpose".to_owned()
}

/// The capability of a step that names none.
pub fn default_capability() -> (r: String)
    ensures
        r@ == "read-only"@,
{
    "read-only".to_owned()
}

/// An agent step of a built-in workflow.
pub open spec fn agent_view(
    id: Seq<char>,
    prompt: Seq<char>,
    depends_on: Seq<Seq<char>>,
    capability: Seq<char>,
) -> StepView {
    StepView::Agent {
        id,
        prompt,
        depends_on,
        role: if capability == "read-only"@ {
            "explore"@
        } else {
            "general-purpose"@
        },
        model: None,
        thinking: None,
        capability,
    }
}

/// A checkpoint of a built-in workflow.
pub open spec fn checkpoint_view(id: Seq<char>, dependency: Seq<char>) -> StepView {
    StepView::Checkpoint {
        id,
        description: Some("Explicit approval before repository writes"@),
        depends_on: seq![dependency],
    }
}

/// The steps of the review workflow.
pub open spec fn review_steps() -> Seq<StepView> {
    seq![
        agent_view(
            "scope"@,
            "Identify the change surface and invariants."@,
            seq![],
            "read-only"@,
        ),
        agent_view(
            "correctness"@,
            "Review correctness and regressions."@,
            seq!["scope"@],
            "read-only"@,
        ),
        agent_view(
            "security"@,
            "Review trust boundaries and security."@,
            seq!["scope"@],
            "read-only"@,
        ),
        agent_view(
            "tests"@,
            "Review verification and missing tests."@,
            seq!["scope"@],
            "read-only"@,
        ),
        agent_view(
            "synthesis"@,
            "Reconcile and prioritize the independent findings."@,
            seq!["correctness"@, "security"@, "tests"@],
            "read-only"@,
        ),
    ]
}

/// The steps of the workflows that change the repository.
pub open spec fn change_steps() -> Seq<StepView> {
    seq![
        agent_view(
            "plan"@,
            "Inspect the repository and produce an implementation-ready plan."@,
            seq![],
            "read-only"@,
        ),
        checkpoint_view("approve-plan"@, "plan"@),
        agent_view(
            "implement"@,
            "Implement the approved plan and verify the change."@,
            seq!["approve-plan"@],
            "all"@,
        ),
        agent_view(
            "correctness"@,
            "Independently review correctness and regressions."@,
            seq!["implement"@],
            "read-only"@,
        ),
        agent_view(
            "security"@,
            "Independently review trust boundaries and security."@,
            seq!["implement"@],
            "read-only"@,
        ),
        agent_view(
            "verification"@,
            "Independently review verification evidence."@,
            seq!["implement"@],
            "read-only"@,
        ),
        agent_view(
            "repair"@,
            "Validate all findings, repair confirmed problems, and rerun checks."@,
            seq!["correctness"@, "security"@, "verification"@],
            "all"@,
        ),
        agent_view(
            "final-review"@,
            "Perform a final read-only ship review."@,
            seq!["repair"@],
            "read-only"@,
        ),
    ]
}

/// The contents of a list of steps.
pub open spec fn step_views(steps: Seq<WorkflowStepDefinition>) -> Seq<StepView> {
    steps.map_values(|s: WorkflowStepDefinition| s@)
}

fn agent(id: &str, prompt: &str, depends_on: Vec<String>, capability: &str) -> (r:
    WorkflowStepDefinition)
    ensures
        r@ == agent_view(id@, prompt@, text::views(depends_on@), capability@),
{
    WorkflowStepDefinition::Agent {
        id: id.to_owned(),
        prompt: prompt.to_owned(),
        depends_on,
        role: if text::same_text(capability, "read-only") {
            "explore".to_owned()
        } else {
            "general-purpose".to_owned()
        },
        model: None,
        thinking: None,
        capability: capability.to_owned(),
    }
}

fn checkpoint(id: &str, dependency: &str) -> (r: WorkflowStepDefinition)
    ensures
        r@ == checkpoint_view(id@, dependency@),
{
    let depends_on: Vec<String> = one(dependency);
    WorkflowStepDefinition::Checkpoint {
        id: id.to_owned(),
        description: Some("Explicit approval before repository writes".to_owned()),
        depends_on,
    }
}

fn none() -> (r: Vec<String>)
    ensures
        text::views(r@) == Seq::<Seq<char>>::empty(),
{
    let out: Vec<String> = Vec::new();
    assert(text::views(out@) =~= Seq::<Seq<char>>::empty());
    out
}

fn one(a: &str) -> (r: Vec<String>)
    ensures
        text::views(r@) == seq![a@],
{
    let mut out: Vec<String> = Vec::new();
    out.push(a.to_owned());
    assert(text::views(out@) =~= seq![a@]);
    out
}

fn three(a: &str, b: &str, c: &str) -> (r: Vec<String>)
    ensures
        text::views(r@) == seq![a@, b@, c@],
{
    let mut out: Vec<String> = Vec::new();
    out.push(a.to_owned());
    out.push(b.to_owned());
    out.push(c.to_owned());
    assert(text::views(out@) =~= seq![a@, b@, c@]);
    out
}

fn review_definition() -> (r: Vec<WorkflowStepDefinition>)
    ensures
        step_views(r@) == review_steps(),
{
    let mut steps: Vec<WorkflowStepDefinition> = Vec::new();
    steps.push(
        agent("scope", "Identify the change surface and invariants.", none(), "read-only"),
    );
    steps.push(
        agent("correctness", "Review correctness and regressions.", one("scope"), "read-only"),
    );
    steps.push(
        agent("security", "Review trust boundaries and security.", one("scope"), "read-only"),
    );
    steps.push(
        agent("tests", "Review verification and missing tests.", one("scope"), "read-only"),
    );
    steps.push(
        agent(
            "synthesis",
            "Reconcile and prioritize the independent findings.",
            three("correctness", "security", "tests"),
            "read-only",
        ),
    );
    assert(step_views(steps@) =~= review_steps());
    steps
}

fn change_definition() -> (r: Vec<WorkflowStepDefinition>)
    ensures
        step_views(r@) == change_steps(),
{
    let mut steps: Vec<WorkflowStepDefinition> = Vec::new();
    steps.push(
        agent(
            "plan",
            "Inspect the repository and produce an implementation-ready plan.",
            none(),
            "read-only",
        ),
    );
    steps.push(checkpoint("approve-plan", "plan"));
    steps.push(
        agent(
            "implement",
            "Implement the approved plan and verify the change.",
            one("approve-plan"),
            "all",
        ),
    );
    steps.push(
        agent(
            "correctness",
            "Independently review correctness and regressions.",
            one("implement"),
            "read-only",
        ),
    );
    steps.push(
        agent(
            "security",
            "Independently review trust boundaries and security.",
            one("implement"),
            "read-only",
        ),
    );
    steps.push(
        agent(
            "verification",
            "Independently review verification evidence.",
            one("implement"),
            "read-only",
        ),
    );
    steps.push(
        agent(
            "repair",
            "Validate all findings, repair confirmed problems, and rerun checks.",
            three("correctness", "security", "verification"),
            "all",
        ),
    );
    steps.push(
        agent(
            "final-review",
            "Perform a final read-only ship review.",
            one("repair"),
            "read-only",
        ),
    );
    assert(step_views(steps@) =~= change_steps());
    steps
}

/// Whether `name` is a workflow that changes the repository.
pub open spec fn changes(name: Seq<char>) -> bool {
    name == "implement-review"@ || name == "production-change"@
}

/// What the built-in workflow `name` is described as.
pub open spec fn builtin_description(name: Seq<char>) -> Seq<char> {
    if name == "review"@ {
        "Independent parallel review followed by synthesis."@
    } else {
        "Plan, approve, implement, review, and repair explicitly."@
    }
}

/// The built-in workflow `name`.
pub fn builtin(name: &str) -> (r: Option<WorkflowDefinition>)
    ensures
        r is Some <==> name@ == "review"@ || changes(name@),
        r matches Some(d) ==> {
            &&& d.name@ == name@
            &&& d.description matches Some(text)
            &&& text@ == builtin_description(name@)
            &&& step_views(d.steps@) == (if name@ == "review"@ {
                review_steps()
            } else {
                change_steps()
            })
        },
{
    if text::same_text(name, "review") {
        Some(
            WorkflowDefinition {
                name: name.to_owned(),
                description: Some(
                    "Independent parallel review followed by synthesis.".to_owned(),
                ),
                steps: review_definition(),
            },
        )
    } else if text::same_text(name, "implement-review") || text::same_text(
        name,
        "production-change",
    ) {
        Some(
            WorkflowDefinition {
                name: name.to_owned(),
                description: Some(
                    "Plan, approve, implement, review, and repair explicitly.".to_owned(),
                ),
                steps: change_definition(),
            },
        )
    } else {
        None
    }
}

/// Where a workflow comes from.
#[derive(Clone, Debug)]
pub enum DefinitionSource {
    Builtin(WorkflowDefinition),
    /// A file of the project.
    Project,
}

/// Where the workflow `name` comes from. Project files count only in a trusted project.
pub fn definition_source(name: &str, project_trusted: bool) -> (r: Result<
    DefinitionSource,
    WorkflowError,
>)
    ensures
        (name@ == "review"@ || changes(name@)) ==> {
            &&& r matches Ok(DefinitionSource::Builtin(d))
            &&& d.name@ == name@
            &&& d.description matches Some(text)
            &&& text@ == builtin_description(name@)
            &&& step_views(d.steps@) == (if name@ == "review"@ {
                review_steps()
            } else {
                change_steps()
            })
        },
        !(name@ == "review"@ || changes(name@)) && project_trusted ==> r matches Ok(
            DefinitionSource::Project,
        ),
        !(name@ == "review"@ || changes(name@)) && !project_trusted ==> (r matches Err(
            WorkflowError::Untrusted { workflow },
        ) && workflow@ == name@),
{
    match builtin(name) {
        Some(definition) => Ok(DefinitionSource::Builtin(definition)),
        None => if project_trusted {
            Ok(DefinitionSource::Project)
        } else {
            Err(WorkflowError::Untrusted { workflow: name.to_owned() })
        },
    }
}

/// A workflow that may be run has a name and steps, and every step has a name of its own.
pub proof fn valid_steps_have_names(definition: WorkflowDefinition, i: int, j: int)
    requires
        valid(definition),
        0 <= i < definition.steps@.len(),
        0 <= j < definition.steps@.len(),
    ensures
        definition.name@.len() > 0,
        definition.steps@[i].id_text().len() > 0,
        definition.steps@[i].id_text() == definition.steps@[j].id_text() ==> i == j,
{
    let steps = definition.steps@;
    let _ = text::trimming_takes_white_space(definition.name@);
    let _ = text::trimming_takes_white_space(steps[i].id_text());
    if i < j {
        assert(steps[i].id_text() != steps[j].id_text());
    } else if j < i {
        assert(steps[j].id_text() != steps[i].id_text());
    }
}

/// What a step waits for in a workflow that may be run is another one of its steps.
pub proof fn valid_steps_wait_for_others(definition: WorkflowDefinition, i: int, k: int) -> (j: int)
    requires
        valid(definition),
        0 <= i < definition.steps@.len(),
        0 <= k < definition.steps@[i].needs().len(),
    ensures
        0 <= j < definition.steps@.len(),
        j != i,
        definition.steps@[j].id_text() == definition.steps@[i].needs()[k]@,
{
    let steps = definition.steps@;
    assert(good_needs_upto(steps, i, steps[i].needs().len() as int));
    assert(good_need(steps, i, k));
    let id = steps[i].needs()[k]@;
    choose|j: int| 0 <= j < steps.len() && (#[trigger] steps[j]).id_text() == id
}

/// No two steps of a workflow that may be run wait for each other.
pub proof fn valid_steps_do_not_wait_for_each_other(
    definition: WorkflowDefinition,
    i: int,
    j: int,
    k: int,
    m: int,
)
    requires
        valid(definition),
        0 <= i < definition.steps@.len(),
        0 <= j < definition.steps@.len(),
        0 <= k < definition.steps@[i].needs().len(),
        0 <= m < definition.steps@[j].needs().len(),
    ensures
        !(definition.steps@[i].needs()[k]@ == definition.steps@[j].id_text()
            && definition.steps@[j].needs()[m]@ == definition.steps@[i].id_text()),
{
    let steps = definition.steps@;
    if steps[i].needs()[k]@ == steps[j].id_text() && steps[j].needs()[m]@ == steps[i].id_text() {
        assert(first_step(steps, steps[i].needs()[k]@, j)) by {
            assert forall|x: int| 0 <= x < j implies (#[trigger] steps[x]).id_text()
                != steps[j].id_text() by {}
        }
        assert(first_step(steps, steps[j].needs()[m]@, i)) by {
            assert forall|x: int| 0 <= x < i implies (#[trigger] steps[x]).id_text()
                != steps[i].id_text() by {}
        }
        assert(needs_step(steps, steps[i], j));
        assert(needs_step(steps, steps[j], i));
        reach_by_one(steps, steps[i], j);
        reach_further(steps, steps[i], j, i);
    }
}

/// Two agents that may both change files and wait for nothing are refused.
pub proof fn writers_side_by_side_are_refused(definition: WorkflowDefinition, i: int, j: int)
    requires
        0 <= i < j < definition.steps@.len(),
        definition.steps@[i] is Agent,
        definition.steps@[j] is Agent,
        definition.steps@[i]->Agent_capability@ != "read-only"@,
        definition.steps@[j]->Agent_capability@ != "read-only"@,
        definition.steps@[i].needs().len() == 0,
        definition.steps@[j].needs().len() == 0,
    ensures
        !valid(definition),
{
    let steps = definition.steps@;
    if valid(definition) {
        assert(ordered(steps, i, j));
        waiting_for_nothing_reaches_nothing(steps, steps[i]);
        waiting_for_nothing_reaches_nothing(steps, steps[j]);
    }
}

proof fn waiting_for_nothing_reaches_nothing(
    steps: Seq<WorkflowStepDefinition>,
    step: WorkflowStepDefinition,
)
    requires
        step.needs().len() == 0,
    ensures
        forall|j: int| !#[trigger] reaches(steps, step, j),
{
    assert forall|j: int| !#[trigger] reaches(steps, step, j) by {
        if reaches(steps, step, j) {
            let n = choose|n: nat| needs_over(steps, step, j, n);
            nothing_is_needed_over(steps, step, j, n);
        }
    }
}

proof fn nothing_is_needed_over(
    steps: Seq<WorkflowStepDefinition>,
    step: WorkflowStepDefinition,
    j: int,
    n: nat,
)
    requires
        step.needs().len() == 0,
    ensures
        !needs_over(steps, step, j, n),
    decreases n,
{
    if n > 0 && needs_over(steps, step, j, n) {
        let i = choose|i: int|
            0 <= i < steps.len() && needs_over(steps, step, i, (n - 1) as nat)
                && #[trigger] needs_step(steps, steps[i], j);
        nothing_is_needed_over(steps, step, i, (n - 1) as nat);
    }
}

/// Steps that only read, or only wait for a person, may run side by side.
pub proof fn readers_side_by_side_may_run(definition: WorkflowDefinition)
    requires
        text::trim(definition.name@).len() > 0,
        definition.steps@.len() > 0,
        forall|i: int, j: int|
            0 <= i < j < definition.steps@.len() ==> (#[trigger] definition.steps@[i]).id_text()
                != (#[trigger] definition.steps@[j]).id_text(),
        forall|i: int|
            0 <= i < definition.steps@.len() ==> {
                &&& text::trim((#[trigger] definition.steps@[i]).id_text()).len() > 0
                &&& definition.steps@[i].needs().len() == 0
                &&& definition.steps@[i] is Agent ==> definition.steps@[i]->Agent_capability@
                    == "read-only"@
            },
    ensures
        valid(definition),
{
    let steps = definition.steps@;
    assert forall|i: int| 0 <= i < steps.len() implies !reaches(steps, #[trigger] steps[i], i) by {
        waiting_for_nothing_reaches_nothing(steps, steps[i]);
    }
    assert forall|i: int, j: int| 0 <= i < j < steps.len() implies #[trigger] ordered(
        steps,
        i,
        j,
    ) by {
        assert(steps[i].needs().len() == 0);
    }
}

/// The built-in review changes nothing: all of its steps only read, the reviews wait for the
/// scope, and what is written in the end waits for all of them.
pub proof fn reviews_change_nothing()
    ensures
        forall|i: int|
            0 <= i < review_steps().len() ==> (#[trigger] review_steps()[i] matches StepView::Agent {
                capability,
                ..
            } && capability == "read-only"@),
        review_steps().len() == 5,
        forall|i: int|
            1 <= i < 4 ==> (#[trigger] review_steps()[i])->Agent_depends_on.contains(
                review_steps()[0]->Agent_id,
            ),
        forall|i: int|
            1 <= i < 4 ==> review_steps()[4]->Agent_depends_on.contains(
                (#[trigger] review_steps()[i])->Agent_id,
            ),
{
    let steps = review_steps();
    assert(steps[0]->Agent_id == "scope"@);
    assert(steps[1]->Agent_depends_on[0] == "scope"@);
    assert(steps[2]->Agent_depends_on[0] == "scope"@);
    assert(steps[3]->Agent_depends_on[0] == "scope"@);
    assert(steps[4]->Agent_depends_on[0] == steps[1]->Agent_id);
    assert(steps[4]->Agent_depends_on[1] == steps[2]->Agent_id);
    assert(steps[4]->Agent_depends_on[2] == steps[3]->Agent_id);
}

/// In the built-in workflows that change the repository, a plan that only reads comes first, a
/// person has to approve it, and the first step that may write waits for the approval. Only
/// the implementation and the repair may write, and the repair waits for all reviews.
pub proof fn changes_wait_for_an_approval()
    ensures
        change_steps().len() == 8,
        change_steps()[0] is Agent,
        change_steps()[1] is Checkpoint,
        change_steps()[1]->Checkpoint_depends_on.contains(change_steps()[0]->Agent_id),
        change_steps()[2]->Agent_depends_on.contains(change_steps()[1]->Checkpoint_id),
        forall|i: int|
            0 <= i < change_steps().len() && i != 1 ==> (#[trigger] change_steps()[i] matches
                StepView::Agent { capability, .. } && capability == (if i == 2 || i == 6 {
                "all"@
            } else {
                "read-only"@
            })),
        forall|i: int|
            3 <= i < 6 ==> (#[trigger] change_steps()[i])->Agent_depends_on.contains(
                change_steps()[2]->Agent_id,
            ) && change_steps()[6]->Agent_depends_on.contains(change_steps()[i]->Agent_id),
        change_steps()[7]->Agent_depends_on.contains(change_steps()[6]->Agent_id),
{
    let steps = change_steps();
    assert(steps[1]->Checkpoint_depends_on[0] == steps[0]->Agent_id);
    assert(steps[2]->Agent_depends_on[0] == steps[1]->Checkpoint_id);
    assert(steps[3]->Agent_depends_on[0] == steps[2]->Agent_id);
    assert(steps[4]->Agent_depends_on[0] == steps[2]->Agent_id);
    assert(steps[5]->Agent_depends_on[0] == steps[2]->Agent_id);
    assert(steps[6]->Agent_depends_on[0] == steps[3]->Agent_id);
    assert(steps[6]->Agent_depends_on[1] == steps[4]->Agent_id);
    assert(steps[6]->Agent_depends_on[2] == steps[5]->Agent_id);
    assert(steps[7]->Agent_depends_on[0] == steps[6]->Agent_id);
}

} // verus!
