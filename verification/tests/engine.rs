use torii::connection;
use torii::connection::Connection;
use torii::connection::Delivery;
use torii::connection::Response;
use torii::connection::WireMessage;
use torii::dispatch::UiCommand;
use torii::harness::AgentErrorKind;
use torii::harness::AgentEvent;
use torii::harness::AuthProviderInfo;
use torii::harness::CompactionPhase;
use torii::harness::MessageDelivery;
use torii::harness::MessageImage;
use torii::harness::PermissionDecision;
use torii::harness::SessionId;
use torii::harness::SessionPersistence;
use torii::harness::SubagentTask;
use torii::harness::ToolResult;
use torii::harness::Usage;
use torii::harness::WorkflowRunSnapshot;
use torii::mock::MockHarness;
use torii::requests;
use torii::requests::Command;
use torii::startup;
use torii::startup::session_persistence;
use torii::startup::SecretKey;
use torii::startup::SecretStep;
use torii::state_types::SettingValue;
use torii::supervisor;
use torii::supervisor::Resident;
use torii::supervisor::RuntimeStatus;
use torii::supervisor::SessionSupervisor;
use torii::task;
use torii::task::ChildInput;
use torii::task::ChildStep;
use torii::task::SpawnArgs;
use torii::task::TaskCoordinator;
use torii::task::TaskNotice;
use torii::task::TaskRequest;
use torii::task::TaskSnapshot;
use torii::task::TaskStatus;
use torii::update;
use torii::update::ArchiveBudget;
use torii::update::Download;
use torii::update::PathPart;
use torii::update::Platform;
use torii::update::Release;
use torii::update::ReleaseAsset;
use torii::update::UpdateCache;
use torii::update::UpdateCandidate;
use torii::update::UpdateError;
use torii::update::VersionFacts;
use torii::workflow::builtin;
use torii::workflow::default_role;
use torii::workflow::validate_definition;
use torii::workflow::WorkflowDefinition;
use torii::workflow::WorkflowError;
use torii::workflow::WorkflowStepDefinition;
use torii::workflow_run::Advance;
use torii::workflow_run::RunStatus;
use torii::workflow_run::StepStatus;
use torii::workflow_run::WorkflowRecord;
use torii::workflow_run::WorkflowRun;
use torii::workflow_store;
use torii::workflow_store::WorkflowCoordinator;

fn args(values: &[&str]) -> Vec<String> {
    values.iter().map(|value| (*value).to_string()).collect()
}

#[test]
fn parses_session_persistence_modes() {
    assert!(matches!(
        session_persistence(&args(&[])).unwrap(),
        SessionPersistence::Persistent
    ));
    assert!(matches!(
        session_persistence(&args(&["--continue"])).unwrap(),
        SessionPersistence::Continue
    ));
    assert!(matches!(
        session_persistence(&args(&["--no-session"])).unwrap(),
        SessionPersistence::InMemory
    ));
    assert!(matches!(
        session_persistence(&args(&["--session", "abc123"])).unwrap(),
        SessionPersistence::Open(target) if target == "abc123"
    ));
    assert!(matches!(
        session_persistence(&args(&["--fork", "abc123"])).unwrap(),
        SessionPersistence::Fork(target) if target == "abc123"
    ));
}

#[test]
fn rejects_conflicting_or_incomplete_session_flags() {
    assert!(session_persistence(&args(&["--session"])).is_err());
    assert!(session_persistence(&args(&["--fork"])).is_err());
    assert!(session_persistence(&args(&["--continue", "--no-session"])).is_err());
    assert!(session_persistence(&args(&["--session", "one", "--fork", "two"])).is_err());
}

#[test]
fn argument_errors_are_worded() {
    assert_eq!(
        session_persistence(&args(&["--session"])).unwrap_err().message(),
        "--session requires a path or session ID"
    );
    assert_eq!(
        session_persistence(&args(&["--fork"])).unwrap_err().message(),
        "--fork requires a path or session ID"
    );
    assert_eq!(
        session_persistence(&args(&["-c", "--no-session"])).unwrap_err().message(),
        "--continue, --session, --fork, and --no-session are mutually exclusive"
    );
}

#[test]
fn providers_are_chosen_by_number() {
    assert_eq!(startup::choose_provider(3, " 2 \n").unwrap(), 1);
    assert_eq!(startup::choose_provider(3, "0").unwrap(), 0);
    assert_eq!(
        startup::choose_provider(0, "1").unwrap_err().message(),
        "Pi reported no authentication providers"
    );
    assert_eq!(
        startup::choose_provider(3, "two").unwrap_err().message(),
        "invalid provider selection"
    );
    assert_eq!(
        startup::choose_provider(3, "4").unwrap_err().message(),
        "provider selection out of range"
    );
}

#[test]
fn secrets_are_typed_behind_a_mask() {
    let mut secret = String::new();
    let plain = |character| SecretKey::Char {
        character,
        control: false,
    };
    assert_eq!(startup::type_secret(&mut secret, plain('k')), SecretStep::Continue);
    assert_eq!(startup::type_secret(&mut secret, plain('ë')), SecretStep::Continue);
    assert_eq!(startup::masked(&secret), "••");
    assert_eq!(
        startup::type_secret(&mut secret, SecretKey::Backspace),
        SecretStep::Continue
    );
    assert_eq!(secret, "k");
    let control = SecretKey::Char {
        character: 'c',
        control: true,
    };
    assert_eq!(startup::type_secret(&mut secret, control), SecretStep::Cancelled);
    assert_eq!(startup::type_secret(&mut secret, SecretKey::Enter), SecretStep::Done);
    assert_eq!(secret, "k");
}

fn writer(id: &str) -> WorkflowStepDefinition {
    WorkflowStepDefinition::Agent {
        id: id.into(),
        prompt: id.into(),
        depends_on: vec![],
        role: default_role(),
        model: None,
        thinking: None,
        capability: "all".into(),
    }
}

#[test]
fn rejects_unordered_writers() {
    let definition = WorkflowDefinition {
        name: "bad".into(),
        description: None,
        steps: vec![writer("a"), writer("b")],
    };
    assert!(validate_definition(&definition)
        .unwrap_err()
        .message()
        .contains("may run concurrently"));
}

#[test]
fn builtin_graphs_are_valid() {
    for name in ["review", "implement-review", "production-change"] {
        validate_definition(&builtin(name).unwrap()).unwrap();
    }
}

#[test]
fn malformed_graphs_are_refused() {
    let graph = |steps| WorkflowDefinition {
        name: "bad".into(),
        description: None,
        steps,
    };
    assert!(matches!(
        validate_definition(&graph(vec![])),
        Err(WorkflowError::Empty)
    ));
    assert!(matches!(
        validate_definition(&graph(vec![writer("a"), writer("a")])),
        Err(WorkflowError::StepIds)
    ));
    let waits = |id: &str, on: &str| WorkflowStepDefinition::Checkpoint {
        id: id.into(),
        description: None,
        depends_on: vec![on.into()],
    };
    assert!(matches!(
        validate_definition(&graph(vec![waits("a", "missing")])),
        Err(WorkflowError::Dependency { step, dependency }) if step == "a" && dependency == "missing"
    ));
    assert!(matches!(
        validate_definition(&graph(vec![waits("a", "b"), waits("b", "a")])),
        Err(WorkflowError::Cycle { step }) if step == "a"
    ));
    assert!(matches!(
        validate_definition(&graph(vec![waits("c", "a"), waits("b", "a"), waits("a", "b")])),
        Err(WorkflowError::Cycle { step }) if step == "a"
    ));
    assert!(builtin("unheard-of").is_none());
}

#[test]
fn the_order_of_steps_does_not_matter() {
    for name in ["review", "production-change"] {
        let mut definition = builtin(name).unwrap();
        definition.steps.reverse();
        assert!(validate_definition(&definition).is_ok());
    }
    let mut first = writer("a");
    if let WorkflowStepDefinition::Agent { depends_on, .. } = &mut first {
        depends_on.push("b".into());
    }
    let mut definition = WorkflowDefinition {
        name: "pair".into(),
        description: None,
        steps: vec![first, writer("b")],
    };
    assert!(validate_definition(&definition).is_ok());
    definition.steps.reverse();
    assert!(validate_definition(&definition).is_ok());
    definition.steps[1] = writer("a");
    assert!(validate_definition(&definition).is_err());
    definition.steps.reverse();
    assert!(validate_definition(&definition).is_err());
}

#[test]
fn stored_runs_come_back_whole_and_interrupted() {
    let mut stored = WorkflowRun::start(
        "wf-2".into(),
        SessionId("before".into()),
        "parent.jsonl".into(),
        "/work".into(),
        builtin("review").unwrap(),
        "look at the change".into(),
        1,
    );
    stored.status = RunStatus::Running;
    stored.steps[0].status = StepStatus::Running;
    stored.steps[0].attempt_count = 1;
    let steps = stored.steps.len();
    let mut coordinator = WorkflowCoordinator::new();
    let owner = SessionId("after".into());
    assert!(!coordinator.restore(stored.clone(), &owner, "other.jsonl"));
    assert!(coordinator.records.is_empty());
    assert!(coordinator.restore(stored, &owner, "parent.jsonl"));
    let run = &coordinator.records[0].run;
    assert_eq!(run.owner.0, "after");
    assert_eq!(run.input, "look at the change");
    assert_eq!(run.status, RunStatus::Interrupted);
    assert_eq!(run.steps.len(), steps);
    assert_eq!(run.steps[0].status, StepStatus::Interrupted);
    assert_eq!(run.steps[0].attempt_count, 1);
    assert_eq!(run.steps[1].status, StepStatus::Pending);
    let message = "Torii stopped while this workflow was active; retry explicitly";
    assert_eq!(run.steps[0].error.as_deref(), Some(message));
    assert_eq!(run.error.as_deref(), Some(message));
}

#[test]
fn checkpointed_workflow_persists_and_completes_after_approval() {
    let owner = SessionId("owner".into());
    let run = WorkflowRun::start(
        "wf-1".into(),
        SessionId("owner".into()),
        "parent.jsonl".into(),
        "/work".into(),
        builtin("implement-review").unwrap(),
        "implement the requested change".into(),
        1,
    );
    let mut record = WorkflowRecord {
        run,
        cancelled: false,
        driving: false,
    };
    assert!(record.begin_drive());
    assert!(!record.begin_drive());
    let mut artifacts = 0;
    let mut drive = |record: &mut WorkflowRecord| loop {
        match record.advance(2) {
            Advance::Launch(list) => {
                for index in list {
                    let request = record.run.step_request(index).unwrap();
                    assert!(request.is_some());
                    record.run.attach_task(index, format!("task-{index}"));
                    artifacts += 1;
                    let done = TaskStatus::Completed {
                        child: SessionId("child".into()),
                        output: "done".into(),
                    };
                    let artifact = record
                        .run
                        .settle_step(index, done, format!("artifact-{artifacts}"), 3)
                        .unwrap();
                    assert_eq!(artifact.content, "done");
                }
            }
            _ => break,
        }
    };
    drive(&mut record);
    assert_eq!(workflow_store::snapshot(&record.run).status, "paused");

    let mut coordinator = WorkflowCoordinator::new();
    coordinator.insert(record);
    let run_id = "wf-1".to_string();
    assert!(matches!(
        coordinator.control(
            &SessionId("other".into()),
            &run_id,
            "approve",
            &Some("approve-plan".into()),
            4
        ),
        Err(WorkflowError::Foreign { .. })
    ));
    let outcome = coordinator
        .control(&owner, &run_id, "approve", &Some("approve-plan".into()), 4)
        .unwrap();
    assert!(outcome.drive);
    drive(&mut coordinator.records[0]);
    let completed = coordinator
        .snapshots(&owner, &Some(run_id.clone()))
        .unwrap()
        .remove(0);
    assert_eq!(completed.status, "completed");
    assert_eq!(completed.completed_steps, completed.total_steps);
    assert_eq!(completed.artifact_ids.len(), 7);
    assert!(matches!(
        coordinator.control(&owner, &run_id, "approve", &Some("approve-plan".into()), 5),
        Err(WorkflowError::NoCheckpoint)
    ));
}

#[test]
fn changed_workflows_do_not_start() {
    let shown = workflow_store::preview(&builtin("review").unwrap(), &b"{}".to_vec(), 7);
    assert_eq!(
        shown.definition_hash,
        "44136fa355b3678a1146ad16f7e8649e94fb4fc21fe77e8310c060f61caaff8a"
    );
    assert_eq!(shown.resolved_at_ms, 7);
    assert!(workflow_store::check_unchanged(
        "review",
        &Some(shown.definition_hash.clone()),
        &b"{}".to_vec()
    )
    .is_ok());
    assert!(workflow_store::check_unchanged("review", &None, &b"{ }".to_vec()).is_ok());
    assert!(matches!(
        workflow_store::check_unchanged("review", &Some(shown.definition_hash), &b"{ }".to_vec()),
        Err(WorkflowError::Changed { workflow }) if workflow == "review"
    ));
}

fn resident() -> Resident {
    Resident::new(SessionId("session-1".into()), "/session.jsonl".into())
}

fn subagent(status: &str) -> Box<SubagentTask> {
    Box::new(SubagentTask {
        task_id: "task-1".into(),
        parent_session_id: "session-1".into(),
        child_session_id: Some("child-1".into()),
        child_session_path: None,
        description: "Inspect code".into(),
        subagent_type: "explore".into(),
        capability_mode: "execute".into(),
        isolation: "none".into(),
        background: true,
        status: status.into(),
        activity: status.into(),
        started_at_ms: 1,
        completed_at_ms: None,
        duration_ms: 1,
        output: None,
        error: None,
        failure_kind: None,
        model: None,
        thinking_level: None,
        worktree_path: None,
        cwd: None,
        workflow_run_id: None,
    })
}

fn workflow(status: &str) -> AgentEvent {
    AgentEvent::WorkflowUpdate {
        workflow: Box::new(WorkflowRunSnapshot {
            run_id: "wf-1".into(),
            name: "implement-review".into(),
            description: None,
            status: status.into(),
            current_step: None,
            completed_steps: 0,
            total_steps: 1,
            artifact_ids: Vec::new(),
            steps: Vec::new(),
            created_at_ms: 1,
            updated_at_ms: 1,
            error: None,
        }),
    }
}

fn turn_complete() -> AgentEvent {
    AgentEvent::TurnComplete {
        usage: Usage::default(),
        stop_reason: "end_turn".into(),
    }
}

#[test]
fn transcript_deltas_do_not_invalidate_runtime_sessions() {
    let mut resident = resident();
    assert!(!resident.observe(
        &AgentEvent::TextDelta {
            text: "streamed child detail".into(),
        },
        1
    ));
    assert!(resident.observe(&AgentEvent::SubagentUpdate { task: subagent("running") }, 1));
}

#[test]
fn dashboard_stays_running_after_parent_turn_while_child_is_active() {
    let mut supervisor = SessionSupervisor::new();
    let id = SessionId("session-1".into());
    supervisor.adopt("/session.jsonl".into(), SessionId("session-1".into()));
    supervisor.settle("/session.jsonl");
    supervisor.mark_running(&id, 1);

    supervisor.forward(
        "/session.jsonl",
        AgentEvent::SubagentUpdate { task: subagent("running") },
        false,
        2,
    );
    supervisor.forward("/session.jsonl", turn_complete(), false, 3);
    assert_eq!(supervisor.snapshots()[0].status, RuntimeStatus::Running);

    supervisor.forward(
        "/session.jsonl",
        AgentEvent::SubagentUpdate { task: subagent("completed") },
        false,
        4,
    );
    assert_eq!(supervisor.snapshots()[0].status, RuntimeStatus::Idle);
}

#[test]
fn workflow_lifecycle_drives_resident_running_and_attention_states() {
    let mut supervisor = SessionSupervisor::new();
    supervisor.adopt("/session.jsonl".into(), SessionId("session-1".into()));
    supervisor.settle("/session.jsonl");

    supervisor.forward("/session.jsonl", workflow("running"), false, 1);
    assert_eq!(supervisor.snapshots()[0].status, RuntimeStatus::Running);
    supervisor.forward("/session.jsonl", workflow("paused"), false, 2);
    assert_eq!(supervisor.snapshots()[0].status, RuntimeStatus::Attention);
    supervisor.forward("/session.jsonl", workflow("completed"), false, 3);
    assert_eq!(supervisor.snapshots()[0].status, RuntimeStatus::Idle);
}

#[test]
fn stopping_a_resident_clears_all_tracked_work() {
    let mut supervisor = SessionSupervisor::new();
    supervisor.adopt("/session.jsonl".into(), SessionId("session-1".into()));
    supervisor.settle("/session.jsonl");
    supervisor.forward(
        "/session.jsonl",
        AgentEvent::ToolCallStart {
            id: "orphan-tool".into(),
            name: "bash".into(),
            args: "{}".into(),
        },
        false,
        1,
    );
    supervisor.forward(
        "/session.jsonl",
        AgentEvent::SubagentUpdate { task: subagent("running") },
        false,
        2,
    );

    supervisor.stop("/session.jsonl").unwrap();

    let resident = &supervisor.residents[0];
    assert_eq!(resident.status, RuntimeStatus::Idle);
    assert!(!resident.turn_running);
    assert!(resident.running_tools.is_empty());
    assert!(resident.background_tasks.is_empty());
    assert!(supervisor.stop("/other.jsonl").is_err());
}

#[test]
fn resuming_an_interrupted_turn_does_not_look_like_running() {
    let mut supervisor = SessionSupervisor::new();
    supervisor.adopt("/session.jsonl".into(), SessionId("session-1".into()));
    supervisor.forward(
        "/session.jsonl",
        AgentEvent::UserMessage {
            text: "do the thing".into(),
        },
        true,
        1,
    );
    supervisor.forward(
        "/session.jsonl",
        AgentEvent::ToolCallStart {
            id: "t1".into(),
            name: "bash".into(),
            args: "{}".into(),
        },
        true,
        2,
    );
    supervisor.settle("/session.jsonl");

    let snapshot = &supervisor.snapshots()[0];
    assert_eq!(snapshot.status, RuntimeStatus::Idle);
    assert!(snapshot.started_at.is_none());
    assert!(!supervisor.residents[0].turn_running);
    assert!(supervisor.residents[0].running_tools.is_empty());
}

#[test]
fn resuming_with_a_failed_child_shows_attention_not_running() {
    let mut supervisor = SessionSupervisor::new();
    supervisor.adopt("/session.jsonl".into(), SessionId("session-1".into()));
    supervisor.forward(
        "/session.jsonl",
        AgentEvent::UserMessage {
            text: "spawn a child".into(),
        },
        true,
        1,
    );
    supervisor.forward(
        "/session.jsonl",
        AgentEvent::SubagentUpdate { task: subagent("interrupted") },
        true,
        2,
    );
    supervisor.forward("/session.jsonl", turn_complete(), true, 3);
    supervisor.settle("/session.jsonl");

    let snapshot = &supervisor.snapshots()[0];
    assert_eq!(snapshot.status, RuntimeStatus::Attention);
    assert!(snapshot.started_at.is_none());
}

#[test]
fn resuming_with_a_persisted_error_shows_attention() {
    let mut supervisor = SessionSupervisor::new();
    supervisor.adopt("/session.jsonl".into(), SessionId("session-1".into()));
    supervisor.forward(
        "/session.jsonl",
        AgentEvent::Error {
            kind: AgentErrorKind::Provider,
            message: "the provider refused".into(),
        },
        true,
        1,
    );
    supervisor.forward("/session.jsonl", turn_complete(), true, 2);
    supervisor.settle("/session.jsonl");

    let snapshot = &supervisor.snapshots()[0];
    assert_eq!(snapshot.status, RuntimeStatus::Attention);
    assert!(snapshot.started_at.is_none());
}

fn request(owner: &SessionId) -> TaskRequest {
    TaskRequest {
        owner: owner.copy(),
        owner_path: "parent.jsonl".into(),
        cwd: None,
        prompt: "test".into(),
        description: "test child".into(),
        model: None,
        thinking_level: None,
        tools: None,
        subagent_type: "general-purpose".into(),
        capability_mode: "all".into(),
        background: false,
        workflow_run_id: None,
        isolation: "none".into(),
        resume_path: None,
    }
}

fn completed(output: &str) -> TaskStatus {
    TaskStatus::Completed {
        child: SessionId("child".into()),
        output: output.into(),
    }
}

#[test]
fn task_runs_through_one_owned_terminal_transition() {
    let mut coordinator = TaskCoordinator::new();
    let owner = SessionId("parent".into());
    let launched = coordinator.spawn(&request(&owner), "task-1".into(), 1);
    assert!(matches!(launched.status, TaskStatus::Launching));

    let child = SessionId("child".into());
    coordinator
        .set_running("task-1", child.copy(), None, None, None)
        .unwrap();
    let mut output = String::new();
    let mut ended = None;
    for event in [
        AgentEvent::UserMessage {
            text: "test".into(),
        },
        AgentEvent::TextDelta {
            text: "do".into(),
        },
        AgentEvent::TextDelta {
            text: "ne".into(),
        },
        turn_complete(),
    ] {
        assert!(ended.is_none());
        if let ChildStep::Finish(status) =
            task::child_step(&mut output, &child, &ChildInput::Event(event))
        {
            ended = Some(status);
        }
    }
    let finished = coordinator.finish_if_live("task-1", ended.unwrap()).unwrap();
    assert!(matches!(
        finished.status,
        TaskStatus::Completed { output, .. } if output == "done"
    ));
    let again = TaskStatus::Failed {
        error: "late".into(),
    };
    assert!(coordinator.finish_if_live("task-1", again).is_none());
    assert!(matches!(
        coordinator.snapshot(&owner, "task-1").unwrap().status,
        TaskStatus::Completed { .. }
    ));
}

#[test]
fn broken_and_cancelled_children_end_their_tasks() {
    let child = SessionId("child".into());
    let mut output = "kept".to_string();
    assert!(matches!(
        task::child_step(&mut output, &child, &ChildInput::Lost("channel closed".into())),
        ChildStep::Finish(TaskStatus::Interrupted { error }) if error == "channel closed"
    ));
    assert!(matches!(
        task::child_step(&mut output, &child, &ChildInput::Cancelled),
        ChildStep::Finish(TaskStatus::Cancelled)
    ));
    let failure = AgentEvent::Error {
        kind: AgentErrorKind::Tool,
        message: "no".into(),
    };
    assert!(matches!(
        task::child_step(&mut output, &child, &ChildInput::Event(failure)),
        ChildStep::Finish(TaskStatus::Failed { error }) if error == "no"
    ));
    assert_eq!(output, "kept");
}

#[test]
fn live_tasks_belong_to_their_owner() {
    let mut coordinator = TaskCoordinator::new();
    let owner = SessionId("parent".into());
    let other = SessionId("other".into());
    coordinator.spawn(&request(&owner), "task-1".into(), 1);
    coordinator.spawn(&request(&other), "task-2".into(), 1);
    coordinator.spawn(&request(&owner), "task-3".into(), 1);
    assert_eq!(coordinator.live_tasks(&owner), vec!["task-1", "task-3"]);
    coordinator.cancel(&owner, "task-1").unwrap();
    assert_eq!(coordinator.live_tasks(&owner), vec!["task-3"]);
}

#[test]
fn failed_host_calls_are_answered_with_their_message() {
    let (answer, failed) = task::reply_of(Err("unknown task: x".into()));
    assert!(failed);
    assert_eq!(answer.content, "unknown task: x");
    assert!(answer.details.is_none());
    let (answer, failed) = task::reply_of(Ok(ToolResult {
        content: "done".into(),
        details: Some("{}".into()),
    }));
    assert!(!failed);
    assert_eq!(answer.content, "done");
    assert_eq!(answer.details.as_deref(), Some("{}"));
}

#[test]
fn owner_boundary_is_enforced() {
    let mut coordinator = TaskCoordinator::new();
    let owner = SessionId("parent".into());
    let launched = coordinator.spawn(&request(&owner), "task-1".into(), 1);

    assert!(coordinator
        .snapshot(&SessionId("other".into()), &launched.id)
        .is_err());
    coordinator.cancel(&owner, &launched.id).unwrap();
}

#[test]
fn cancellation_remains_terminal_across_launch_completion() {
    let mut coordinator = TaskCoordinator::new();
    let owner = SessionId("parent".into());
    let launched = coordinator.spawn(&request(&owner), "task-1".into(), 1);
    let cancelled = coordinator.cancel(&owner, &launched.id).unwrap();
    assert!(matches!(cancelled.snapshot.status, TaskStatus::Cancelled));

    coordinator.set_running("task-1", SessionId("child".into()), None, None, None);
    coordinator.finish_if_live("task-1", completed("done"));
    assert!(matches!(
        coordinator.snapshot(&owner, &launched.id).unwrap().status,
        TaskStatus::Cancelled
    ));
}

#[test]
fn completed_task_can_be_resumed_by_the_same_owner() {
    let mut coordinator = TaskCoordinator::new();
    let owner = SessionId("owner".into());
    coordinator.spawn(&request(&owner), "task-1".into(), 1);
    coordinator.set_running(
        "task-1",
        SessionId("child".into()),
        Some("child.jsonl".into()),
        None,
        None,
    );
    let args = || SpawnArgs {
        prompt: "continue".into(),
        description: "continued child".into(),
        subagent_type: None,
        background: None,
        capability_mode: None,
        isolation: None,
        resume_from: Some("task-1".into()),
        cwd: None,
        parent_cwd: None,
        parent_session_path: None,
        model: None,
        thinking_level: None,
    };
    assert!(coordinator
        .spawn_request(&owner, "parent.jsonl", args())
        .is_err());
    coordinator.finish_if_live("task-1", completed("done"));
    let resumed = coordinator
        .spawn_request(&owner, "parent.jsonl", args())
        .unwrap();
    assert_eq!(resumed.resume_path.as_deref(), Some("child.jsonl"));
    assert!(coordinator
        .spawn_request(&SessionId("other".into()), "parent.jsonl", args())
        .is_err());
}

#[test]
fn persisted_running_task_restores_as_interrupted() {
    let stored = TaskSnapshot {
        id: "persisted".into(),
        owner: SessionId("old-owner".into()),
        owner_path: "parent.jsonl".into(),
        description: "persisted task".into(),
        subagent_type: "general-purpose".into(),
        capability_mode: "all".into(),
        background: true,
        workflow_run_id: None,
        isolation: "none".into(),
        child_session_path: None,
        cwd: None,
        worktree_path: None,
        status: TaskStatus::Running {
            child: SessionId("lost-child".into()),
        },
        started_at_ms: 1,
    };
    let mut coordinator = TaskCoordinator::new();
    let owner = SessionId("new-owner".into());
    let outcome = coordinator.restore(stored, &owner, "parent.jsonl");
    assert!(outcome.persist.is_some());
    let restored = coordinator.snapshot(&owner, "persisted").unwrap();
    assert!(matches!(
        restored.status,
        TaskStatus::Interrupted { error } if error == task::stopped_message("task")
    ));
}

#[test]
fn tasks_are_announced_whole() {
    let snapshot = TaskSnapshot {
        id: "task-7".into(),
        owner: SessionId("owner".into()),
        owner_path: "parent.jsonl".into(),
        description: "look around".into(),
        subagent_type: "explore".into(),
        capability_mode: "read-only".into(),
        background: true,
        workflow_run_id: Some("wf-7".into()),
        isolation: "none".into(),
        child_session_path: Some("child.jsonl".into()),
        cwd: Some("/work".into()),
        worktree_path: None,
        status: TaskStatus::Completed {
            child: SessionId("child".into()),
            output: "found it".into(),
        },
        started_at_ms: 10,
    };
    let (owner, path, event) = supervisor::task_notice_event(TaskNotice::Update(snapshot), 25);
    assert_eq!(owner.0, "owner");
    assert_eq!(path, "parent.jsonl");
    let AgentEvent::SubagentUpdate { task } = event else {
        panic!("not an update");
    };
    assert_eq!(task.description, "look around");
    assert_eq!(task.child_session_id.as_deref(), Some("child"));
    assert_eq!(task.started_at_ms, 10);
    assert_eq!(task.completed_at_ms, Some(25));
    assert_eq!(task.duration_ms, 15);
    assert_eq!(task.output.as_deref(), Some("found it"));
    assert_eq!(task.workflow_run_id.as_deref(), Some("wf-7"));
}

fn linux() -> Platform {
    Platform {
        os: "linux".into(),
        arch: "x86_64".into(),
    }
}

#[test]
fn release_asset_matches_the_current_target() {
    for os in ["linux", "macos", "windows"] {
        let platform = Platform {
            os: os.into(),
            arch: "x86_64".into(),
        };
        let name = update::release_asset_name("1.2.3", &platform);
        assert!(name.starts_with("torii-v1.2.3-"));
        assert!(name.ends_with(if os == "windows" { ".zip" } else { ".tar.gz" }));
    }
    assert_eq!(
        update::release_asset_name("1.2.3", &linux()),
        "torii-v1.2.3-x86_64-unknown-linux-gnu.tar.gz"
    );
}

#[test]
fn version_pointers_are_validated_and_replaced() {
    let contents = update::write_pointer("current", "1.2.3").unwrap();
    assert_eq!(contents, "1.2.3\n");
    assert_eq!(update::read_pointer(&contents).as_deref(), Some("1.2.3"));
    assert!(update::write_pointer("current", "../escape").is_err());
    assert_eq!(update::read_pointer("../escape"), None);
    let writes = update::activation(&Some("1.2.2".into()), "1.2.3");
    let names: Vec<&str> = writes.iter().map(|write| write.name.as_str()).collect();
    assert_eq!(names, vec!["previous", "current", "pending"]);
}

fn release(tag: &str, digest: Option<&str>) -> Release {
    Release {
        tag_name: tag.into(),
        assets: vec![ReleaseAsset {
            name: "torii-v1.10.0-x86_64-unknown-linux-gnu.tar.gz".into(),
            browser_download_url: "https://example.com/torii".into(),
            size: 3,
            digest: digest.map(String::from),
        }],
    }
}

const ABC: &str = "ba7816bf8f01cfea414140de5dae2223b00361a396177a9cb410ff61f20015ad";

#[test]
fn only_newer_checked_releases_are_offered() {
    let digest = format!("sha256:{ABC}");
    let offered = update::evaluate_release(&release("v1.10.0", Some(&digest)), "1.9.0", &linux())
        .unwrap()
        .unwrap();
    assert_eq!(offered.version, "1.10.0");
    assert_eq!(offered.sha256, ABC);
    assert!(
        update::evaluate_release(&release("v1.10.0", Some(&digest)), "1.10.0", &linux())
            .unwrap()
            .is_none()
    );
    assert!(matches!(
        update::evaluate_release(&release("v1.10.0", None), "1.9.0", &linux()),
        Err(UpdateError::NoDigest { .. })
    ));
    assert!(matches!(
        update::evaluate_release(&release("v1.11.0", Some(&digest)), "1.9.0", &linux()),
        Err(UpdateError::NoAsset { version, .. }) if version == "1.11.0"
    ));
    assert!(matches!(
        update::evaluate_release(&release("next", Some(&digest)), "1.9.0", &linux()),
        Err(UpdateError::ReleaseVersion { tag }) if tag == "next"
    ));
    assert!(matches!(
        update::evaluate_release(&release("v1.10.0", Some(&digest)), "dev", &linux()),
        Err(UpdateError::CompiledVersion)
    ));

    let cache = Some(UpdateCache {
        checked_at_ms: 1_000,
        candidate: Some(offered.copy()),
    });
    let day = update::CHECK_INTERVAL_MS;
    assert!(matches!(
        update::cached_answer(false, &cache, 2_000, "1.9.0"),
        Ok(Some(Some(_)))
    ));
    assert!(matches!(
        update::cached_answer(false, &cache, 2_000, "2.0.0"),
        Ok(Some(None))
    ));
    assert!(matches!(update::cached_answer(true, &cache, 2_000, "1.9.0"), Ok(None)));
    let unreadable = Some(UpdateCache {
        checked_at_ms: 1_000,
        candidate: Some(UpdateCandidate {
            version: "next".into(),
            ..offered.copy()
        }),
    });
    assert!(matches!(update::cached_answer(false, &unreadable, 2_000, "1.9.0"), Ok(None)));
    let known = VersionFacts {
        current_known: true,
        other_known: true,
        other_greater: false,
    };
    assert!(matches!(update::answer_from(false, &cache, 2_000, known), Ok(Some(None))));
    assert!(matches!(
        update::judge_release(&release("v1.10.0", None), known, &linux()),
        Ok(None)
    ));
    assert!(matches!(
        update::cached_answer(false, &cache, 1_000 + day, "1.9.0"),
        Ok(None)
    ));
}

#[test]
fn downloads_are_checked_against_the_offer() {
    let candidate = UpdateCandidate {
        version: "1.10.0".into(),
        url: "https://example.com/torii".into(),
        asset_name: "torii.tar.gz".into(),
        size_bytes: 3,
        sha256: ABC.into(),
    };
    let mut download = Download::new();
    assert!(matches!(
        download.verify(&candidate),
        Err(UpdateError::Size { expected: 3, received: 0 })
    ));
    download.receive(&candidate, 3, &mut b"ab".to_vec());
    download.receive(&candidate, 3, &mut b"c".to_vec());
    assert!(download.verify(&candidate).is_ok());
    let mut other = Download::new();
    other.receive(&candidate, 3, &mut b"abd".to_vec());
    assert!(matches!(
        other.verify(&candidate),
        Err(UpdateError::Digest { expected, .. }) if expected == ABC
    ));
}

#[test]
fn archives_are_unpacked_within_bounds() {
    let mut budget = ArchiveBudget::new();
    let inside = vec![PathPart::Current, PathPart::Normal];
    assert!(budget.admit_tar(true, 10, &inside).is_ok());
    assert_eq!((budget.entries, budget.bytes), (1, 10));
    assert!(matches!(
        budget.admit_tar(true, 10, &vec![PathPart::Normal, PathPart::Other]),
        Err(UpdateError::UnsafePath)
    ));
    assert!(matches!(
        budget.admit_tar(false, 10, &inside),
        Err(UpdateError::NonFile)
    ));
    assert!(matches!(
        budget.admit_tar(true, u64::MAX, &inside),
        Err(UpdateError::TooLarge)
    ));
    assert!(matches!(
        ArchiveBudget::admit_zip(10_001),
        Err(UpdateError::TooManyEntries)
    ));
    let mut zip = ArchiveBudget::new();
    assert!(matches!(
        zip.admit_zip_entry(update::is_symbolic_link(Some(0o120_777)), 1, true),
        Err(UpdateError::SymbolicLink)
    ));
    assert!(zip
        .admit_zip_entry(update::is_symbolic_link(Some(0o100_644)), 1, true)
        .is_ok());
    assert!(matches!(
        update::validate_layout(true, false, "bin/torii", "libexec/torii-sidecar"),
        Err(UpdateError::Layout { .. })
    ));
}

#[test]
fn mock_harness_completes_a_turn() {
    let mut harness = MockHarness::default();
    let id = harness.open_session();
    assert_eq!(id.0, "mock-1");
    let events = harness.prompt(&id, "test").unwrap();
    assert!(matches!(events.last(), Some(AgentEvent::TurnComplete { .. })));
    assert!(matches!(
        &events[1],
        AgentEvent::TextDelta { text } if text == "I will handle: test\n\n"
    ));
    assert_eq!(
        harness.prompt(&SessionId("mock-9".into()), "test").unwrap_err(),
        "unknown session: mock-9"
    );
    let shell = harness.execute_bash(&id, "echo \"hi\"".into()).unwrap();
    assert!(matches!(
        &shell[0],
        AgentEvent::ToolCallStart { args, .. } if args == "{\"command\":\"echo \\\"hi\\\"\"}"
    ));
    let compaction = harness.compact(&id, Some("tests".into())).unwrap();
    assert!(matches!(
        &compaction[1],
        AgentEvent::Compaction { phase: CompactionPhase::End, summary: Some(summary), .. }
            if summary == "Compacted with custom instructions: tests"
    ));
}

fn line(command: Command) -> String {
    requests::request_line(command, &SessionId("s-1".into()), &"rust-1".to_string()).unwrap()
}

#[test]
fn requests_are_lines_of_json() {
    assert_eq!(
        line(Command::Prompt {
            text: "say \"hi\"\n".into()
        }),
        "{\"request_id\":\"rust-1\",\"session_id\":\"s-1\",\"text\":\"say \\\"hi\\\"\\n\",\"type\":\"prompt\"}\n"
    );
    assert_eq!(
        line(Command::Health),
        "{\"request_id\":\"rust-1\",\"type\":\"health\"}\n"
    );
    assert_eq!(
        line(Command::OpenSession {
            cwd: "/work".into(),
            persistence: SessionPersistence::Fork("abc".into()),
        }),
        "{\"cwd\":\"/work\",\"persistence\":{\"mode\":\"fork\",\"target\":\"abc\"},\"request_id\":\"rust-1\",\"type\":\"open_session\"}\n"
    );
    assert_eq!(
        line(Command::DeliverMessage {
            text: "go".into(),
            delivery: Some(MessageDelivery::FollowUp),
            images: vec![MessageImage {
                path: "/tmp/a.png".into(),
                mime_type: "image/png".into(),
            }],
        }),
        "{\"delivery\":\"follow_up\",\"images\":[{\"mime_type\":\"image/png\",\"path\":\"/tmp/a.png\"}],\"request_id\":\"rust-1\",\"session_id\":\"s-1\",\"text\":\"go\",\"type\":\"prompt\"}\n"
    );
    assert_eq!(
        line(Command::ReplyPermission {
            permission_id: "p".into(),
            decision: PermissionDecision::AllowOnce,
        }),
        "{\"decision\":\"AllowOnce\",\"permission_id\":\"p\",\"request_id\":\"rust-1\",\"session_id\":\"s-1\",\"type\":\"permission\"}\n"
    );
    assert_eq!(
        line(Command::SetRuntimeSetting {
            key: "auto_compaction".into(),
            value: SettingValue::Flag(false),
        }),
        "{\"key\":\"auto_compaction\",\"request_id\":\"rust-1\",\"session_id\":\"s-1\",\"type\":\"set_setting\",\"value\":false}\n"
    );
    assert_eq!(
        line(Command::SetScopedModels {
            models: vec!["a".into(), "b".into()],
        }),
        "{\"models\":[\"a\",\"b\"],\"request_id\":\"rust-1\",\"session_id\":\"s-1\",\"type\":\"set_scoped_models\"}\n"
    );
    assert_eq!(
        line(Command::StartWorkflow {
            workflow: "review".into(),
            input: "x".into(),
            parameters: Some(serde_json::Value::from(2)),
            expected_definition_hash: None,
        }),
        "{\"input\":\"x\",\"parameters\":2,\"request_id\":\"rust-1\",\"session_id\":\"s-1\",\"type\":\"workflow_start\",\"workflow\":\"review\"}\n"
    );
    assert_eq!(
        line(Command::Compact { instructions: None }),
        "{\"instructions\":null,\"request_id\":\"rust-1\",\"session_id\":\"s-1\",\"type\":\"compact\"}\n"
    );
    assert_eq!(Command::Compact { instructions: None }.timeout_ms(), 600_000);
    assert_eq!(Command::Cancel.timeout_ms(), 30_000);
    let abort = requests::commands_of(UiCommand::AbortAndRestoreQueue);
    assert!(matches!(abort[0], Command::Cancel));
    assert!(matches!(abort[1], Command::ClearQueue));
}

fn response(session: Option<&str>, history: Option<Vec<AgentEvent>>) -> Response {
    Response {
        session_id: session.map(String::from),
        models: None,
        files: None,
        resources: None,
        settings: None,
        providers: None,
        history,
        sessions: None,
        session_info: None,
        tree: None,
        rewinds: None,
    }
}

#[test]
fn answers_reach_the_request_once() {
    let mut connection = Connection::new();
    assert_eq!(connection.begin(Some("health".into())), "health");
    assert_eq!(connection.begin(None), "rust-1");
    assert_eq!(connection.begin(None), "rust-2");
    let answer = || WireMessage::Response {
        request_id: "rust-1".into(),
        response: response(None, None),
    };
    assert!(matches!(
        connection.receive(answer()),
        Delivery::Reply { request_id, reply: Ok(_) } if request_id == "rust-1"
    ));
    assert!(matches!(connection.receive(answer()), Delivery::Nobody));
    assert!(matches!(
        connection.receive(WireMessage::Error {
            request_id: Some("rust-2".into()),
            message: "no".into(),
        }),
        Delivery::Reply { reply: Err(message), .. } if message == "no"
    ));
    assert_eq!(connection.end(), vec!["health"]);
    assert!(connection.end().is_empty());
}

#[test]
fn sessions_replay_their_history_once() {
    let mut connection = Connection::new();
    let event = || AgentEvent::TextDelta {
        text: "hello".into(),
    };
    let (id, room) = connection
        .open(response(Some("s-1"), Some(vec![event(), event()])))
        .unwrap();
    assert_eq!((id.0.as_str(), room), ("s-1", 256));
    let long = (0..300).map(|_| event()).collect();
    assert_eq!(connection.open(response(Some("s-2"), Some(long))).unwrap().1, 316);
    assert_eq!(
        connection.open(response(None, None)).unwrap_err().message(),
        "Pi sidecar omitted session_id"
    );
    assert_eq!(connection.subscribe(&id).unwrap().len(), 2);
    assert!(connection.subscribe(&id).unwrap().is_empty());
    assert!(matches!(
        connection.receive(WireMessage::Event {
            session_id: "s-1".into(),
            event: event(),
        }),
        Delivery::Publish { .. }
    ));
    connection.close(&id);
    assert_eq!(
        connection.subscribe(&id).unwrap_err().message(),
        "unknown Pi session: s-1"
    );
    assert!(matches!(
        connection.receive(WireMessage::Event {
            session_id: "s-1".into(),
            event: event(),
        }),
        Delivery::Nobody
    ));
    assert!(connection.replacement(&id, None).unwrap().is_empty());
    assert!(connection.replacement(&id, Some(vec![event()])).is_err());
}

#[test]
fn greetings_name_the_protocol() {
    let ready = |protocol_version| WireMessage::Ready { protocol_version };
    assert!(connection::check_greeting(&ready(1)).is_ok());
    assert_eq!(
        connection::check_greeting(&ready(2)).unwrap_err().message(),
        "unsupported Pi sidecar protocol 2; expected 1"
    );
    let other = WireMessage::Error {
        request_id: None,
        message: "boom".into(),
    };
    assert_eq!(
        connection::check_greeting(&other).unwrap_err().message(),
        "Pi sidecar did not send a ready message"
    );
    assert_eq!(
        connection::session_stats(response(None, None)).unwrap_err().message(),
        "Pi sidecar omitted session info"
    );
}

#[test]
fn providers_with_credentials_are_marked() {
    let provider = |id: &str, configured| AuthProviderInfo {
        id: id.into(),
        display_name: id.to_uppercase(),
        auth_type: "api_key".into(),
        configured,
    };
    let choices =
        connection::provider_choices(&vec![provider("a", true), provider("b", false)]);
    assert_eq!(choices[0].display_name, "A  ✓ configured");
    assert_eq!(choices[1].display_name, "B");
}

#[test]
fn answers_are_shown_to_subscribers() {
    assert!(matches!(
        connection::shown_answer(&Command::SessionTree { user_only: true }, response(None, None)),
        Some(AgentEvent::SessionTree { entries, user_only: true }) if entries.is_empty()
    ));
    assert!(connection::shown_answer(&Command::Cancel, response(None, None)).is_none());
}
