//! What keys do in the views beside the transcript.

use vstd::prelude::*;

use crate::actions::KeyCode;
use crate::actions::KeyEvent;
use crate::boards;
use crate::boards::Boards;
use crate::dispatch::Effect;
use crate::dispatch::UiCommand;
use crate::geometry;
use crate::harness::AppUpdateStatus;
use crate::panes;
use crate::pickers;
use crate::screen;
use crate::scrolling::Scroll;
use crate::sessions;
use crate::sessions::SessionList;
use crate::state::AppState;
use crate::state::Header;
use crate::text;

verus! {

broadcast use vstd::string::group_string_axioms;

/// What a key asks of a view.
#[derive(Clone, Copy, Debug, PartialEq, Eq, Structural)]
pub enum ViewIntent {
    /// The view has no use for the key.
    Ignore,
    /// The view leaves the key to the transcript.
    Pass,
    ToggleTasks,
    Show { view: screen::View, rewind: bool },
    ScrollBack,
    ScrollForward,
    SelectRun { down: bool },
    ControlRun(char),
    ReadArtifact,
    SelectTask { down: bool },
    OpenTask,
    KillTask,
    SelectSession { down: bool },
    PageSessions { down: bool },
    FirstSession,
    LastSession,
    OpenSession,
    NewSession,
    InstallUpdate,
    DismissUpdate,
    RenameSession,
    DeleteSession,
    StopSession,
    CloseSession,
}

/// What a key asks of a view that shows one text.
pub open spec fn viewer_intent(code: KeyCode, back: screen::View) -> ViewIntent {
    match code {
        KeyCode::Esc => ViewIntent::Show { view: back, rewind: true },
        KeyCode::Char('q') => ViewIntent::Show { view: back, rewind: true },
        KeyCode::Up => ViewIntent::ScrollBack,
        KeyCode::Down => ViewIntent::ScrollForward,
        _ => ViewIntent::Ignore,
    }
}

/// What a key asks of the list of workflow runs.
pub open spec fn runs_intent(code: KeyCode) -> ViewIntent {
    match code {
        KeyCode::Esc => ViewIntent::Show { view: screen::View::Transcript, rewind: false },
        KeyCode::Up => ViewIntent::SelectRun { down: false },
        KeyCode::Down => ViewIntent::SelectRun { down: true },
        KeyCode::Enter => ViewIntent::ReadArtifact,
        KeyCode::Char(c) => if c == 'q' {
            ViewIntent::Show { view: screen::View::Transcript, rewind: false }
        } else if c == 'a' || c == 'd' || c == 'r' || c == 'x' {
            ViewIntent::ControlRun(c)
        } else if c == 'v' {
            ViewIntent::ReadArtifact
        } else {
            ViewIntent::Ignore
        },
        _ => ViewIntent::Ignore,
    }
}

/// What a key asks of the list of tasks.
pub open spec fn tasks_intent(code: KeyCode) -> ViewIntent {
    match code {
        KeyCode::Esc => ViewIntent::Show { view: screen::View::Transcript, rewind: false },
        KeyCode::Up => ViewIntent::SelectTask { down: false },
        KeyCode::Down => ViewIntent::SelectTask { down: true },
        KeyCode::Enter => ViewIntent::OpenTask,
        KeyCode::Char('k') => ViewIntent::KillTask,
        _ => ViewIntent::Ignore,
    }
}

/// What a key asks of the dashboard. An update can be installed when there is
/// one, and its notice dismissed as long as it is shown.
pub open spec fn dashboard_intent(code: KeyCode, update: Option<AppUpdateStatus>) -> ViewIntent {
    match code {
        KeyCode::Esc => ViewIntent::Show { view: screen::View::Transcript, rewind: false },
        KeyCode::Up => ViewIntent::SelectSession { down: false },
        KeyCode::Down => ViewIntent::SelectSession { down: true },
        KeyCode::PageUp => ViewIntent::PageSessions { down: false },
        KeyCode::PageDown => ViewIntent::PageSessions { down: true },
        KeyCode::Home => ViewIntent::FirstSession,
        KeyCode::End => ViewIntent::LastSession,
        KeyCode::Enter => ViewIntent::OpenSession,
        KeyCode::Char(c) => if c == 'n' {
            ViewIntent::NewSession
        } else if c == 'u' && update matches Some(AppUpdateStatus::Available { .. }) {
            ViewIntent::InstallUpdate
        } else if c == 'l' && update is Some {
            ViewIntent::DismissUpdate
        } else if c == 'r' {
            ViewIntent::RenameSession
        } else if c == 'd' {
            ViewIntent::DeleteSession
        } else if c == 's' {
            ViewIntent::StopSession
        } else if c == 'x' {
            ViewIntent::CloseSession
        } else {
            ViewIntent::Ignore
        },
        _ => ViewIntent::Ignore,
    }
}

/// What a key asks of a view.
pub open spec fn view_intent(
    view: screen::View,
    update: Option<AppUpdateStatus>,
    key: KeyEvent,
) -> ViewIntent {
    if key.code == KeyCode::Char('b') && key.modifiers.control {
        ViewIntent::ToggleTasks
    } else {
        match view {
            screen::View::BlockViewer => viewer_intent(key.code, screen::View::Transcript),
            screen::View::WorkflowArtifact => viewer_intent(key.code, screen::View::Workflows),
            screen::View::Workflows => runs_intent(key.code),
            screen::View::Tasks => tasks_intent(key.code),
            screen::View::Dashboard => dashboard_intent(key.code, update),
            screen::View::Subagent => if key.code == KeyCode::Esc || key.code == KeyCode::Char(
                'q',
            ) {
                ViewIntent::Show { view: screen::View::Tasks, rewind: true }
            } else {
                ViewIntent::Pass
            },
            screen::View::Transcript => ViewIntent::Pass,
        }
    }
}

/// The word for an action on a workflow run.
pub open spec fn control_word(c: char) -> Seq<char> {
    if c == 'a' {
        "approve"@
    } else if c == 'd' {
        "reject"@
    } else if c == 'r' {
        "retry"@
    } else {
        "cancel"@
    }
}

/// A place in a list after a step up or down.
pub open spec fn stepped_place(at: int, rows: int, count: int, down: bool) -> int {
    if down {
        geometry::min(at + rows, geometry::less(count, 1))
    } else {
        geometry::less(at, rows)
    }
}

/// Only the position of the transcript has changed.
pub open spec fn scrolled(before: AppState, after: AppState, to: int) -> bool {
    &&& after == (AppState {
        scroll: Scroll {
            scroll_from_bottom: after.scroll.scroll_from_bottom,
            ..before.scroll
        },
        ..before
    })
    &&& after.scroll.scroll_from_bottom == to
}

/// Only the selected workflow run has changed.
pub open spec fn run_selected(before: AppState, after: AppState, at: int) -> bool {
    &&& after == (AppState {
        boards: Boards { workflow_selected: after.boards.workflow_selected, ..before.boards },
        ..before
    })
    &&& after.boards.workflow_selected == at
}

/// Only the selected task has changed.
pub open spec fn task_selected(before: AppState, after: AppState, at: int) -> bool {
    &&& after == (AppState {
        boards: Boards { task_selected: after.boards.task_selected, ..before.boards },
        ..before
    })
    &&& after.boards.task_selected == at
}

/// Only the selected session has changed.
pub open spec fn session_selected(before: AppState, after: AppState, at: int) -> bool {
    &&& after == (AppState {
        sessions: SessionList {
            dashboard_selected: after.sessions.dashboard_selected,
            ..before.sessions
        },
        ..before
    })
    &&& after.sessions.dashboard_selected == at
}

/// The selected session of the dashboard is shown; the backend is asked for
/// it unless it is in use already.
pub open spec fn session_opened(before: AppState, after: AppState, effect: Effect) -> bool {
    let at = before.sessions.dashboard_selected as int;
    let list = before.sessions.available_sessions@;
    &&& after == (AppState {
        view: if list.len() > 0 {
            screen::View::Transcript
        } else {
            before.view
        },
        sessions: SessionList {
            available_sessions: after.sessions.available_sessions,
            ..before.sessions
        },
        ..before
    })
    &&& if at < list.len() && !list[at].current {
        &&& after.sessions.available_sessions@ == SessionList::made_current(list, at)
        &&& effect matches Effect::Send(UiCommand::ResumeSession(path))
        &&& path@ == list[at].path@
    } else {
        &&& after.sessions.available_sessions@ == list
        &&& effect == Effect::Nothing
    }
}

/// The installation of an update begins.
pub open spec fn update_begun(before: AppState, after: AppState, effect: Effect) -> bool {
    &&& effect == Effect::Send(UiCommand::InstallUpdate)
    &&& after == (AppState {
        header: Header { app_update: after.header.app_update, ..before.header },
        ..before
    })
    &&& match before.header.app_update {
        Some(AppUpdateStatus::Available { version, size_bytes }) => {
            &&& after.header.app_update matches Some(
                AppUpdateStatus::Downloading { version: shown, downloaded_bytes, total_bytes },
            )
            &&& shown@ == version@
            &&& downloaded_bytes == 0
            &&& total_bytes == size_bytes
        },
        _ => after.header.app_update == before.header.app_update,
    }
}

/// The backend is asked to do something with the selected session, if that is
/// possible.
pub open spec fn session_command(s: AppState, stop: bool, effect: Effect) -> bool {
    let at = s.sessions.dashboard_selected as int;
    let list = s.sessions.available_sessions@;
    let possible = if stop {
        sessions::actions_of(s.sessions).stop
    } else {
        sessions::actions_of(s.sessions).close
    };
    if possible && at < list.len() {
        if stop {
            effect matches Effect::Send(UiCommand::StopResident(path)) && path@ == list[at].path@
        } else {
            effect matches Effect::Send(UiCommand::CloseResident(path)) && path@ == list[at].path@
        }
    } else {
        effect == Effect::Nothing
    }
}

/// The backend is asked to act on the selected workflow run.
pub open spec fn run_command(s: AppState, c: char, effect: Effect) -> bool {
    exists|r: Option<(String, Option<String>)>| #[trigger]
        boards::control_of(s.boards, control_word(c), r) && match r {
            Some((run, step)) => effect matches Effect::Send(
                UiCommand::WorkflowControl { run_id, action, step_id },
            ) && run_id == run && action@ == control_word(c) && step_id == step,
            None => effect == Effect::Nothing,
        }
}

/// The backend is asked for the last artifact of the selected run.
pub open spec fn artifact_command(s: AppState, effect: Effect) -> bool {
    let i = s.boards.workflow_selected as int;
    let runs = s.boards.workflow_runs@;
    if i < runs.len() && runs[i].artifact_ids@.len() > 0 {
        &&& effect matches Effect::Send(UiCommand::ReadWorkflowArtifact { run_id, artifact_id })
        &&& run_id == runs[i].run_id
        &&& artifact_id == runs[i].artifact_ids@.last()
    } else {
        effect == Effect::Nothing
    }
}

/// What an intent does to a view, and what is left to do.
pub open spec fn view_done(
    before: AppState,
    after: AppState,
    intent: ViewIntent,
    page: int,
    effect: Effect,
) -> bool {
    let count = before.sessions.available_sessions@.len() as int;
    let at = before.sessions.dashboard_selected as int;
    match intent {
        ViewIntent::Ignore => after == before && effect == Effect::Nothing,
        ViewIntent::Pass => after == before && effect == Effect::Nothing,
        ViewIntent::ToggleTasks => effect == Effect::Nothing && after == (AppState {
            view: pickers::other_pane(before.view),
            ..before
        }),
        ViewIntent::Show { view, rewind } => effect == Effect::Nothing && after == (AppState {
            view,
            scroll: Scroll {
                scroll_from_bottom: if rewind {
                    0
                } else {
                    before.scroll.scroll_from_bottom
                },
                ..before.scroll
            },
            ..before
        }),
        ViewIntent::ScrollBack => effect == Effect::Nothing && scrolled(
            before,
            after,
            geometry::min(before.scroll.scroll_from_bottom + 3, usize::MAX as int),
        ),
        ViewIntent::ScrollForward => effect == Effect::Nothing && scrolled(
            before,
            after,
            geometry::less(before.scroll.scroll_from_bottom as int, 3),
        ),
        ViewIntent::SelectRun { down } => effect == Effect::Nothing && run_selected(
            before,
            after,
            stepped_place(
                before.boards.workflow_selected as int,
                1,
                before.boards.workflow_runs@.len() as int,
                down,
            ),
        ),
        ViewIntent::ControlRun(c) => after == before && run_command(before, c, effect),
        ViewIntent::ReadArtifact => after == before && artifact_command(before, effect),
        ViewIntent::SelectTask { down } => effect == Effect::Nothing && task_selected(
            before,
            after,
            stepped_place(
                before.boards.task_selected as int,
                1,
                before.boards.subagent_tasks@.len() as int,
                down,
            ),
        ),
        ViewIntent::OpenTask => effect == Effect::Nothing && panes::subagent_opened(before, after),
        ViewIntent::KillTask => {
            &&& after == before
            &&& if before.boards.task_selected < before.boards.subagent_tasks@.len() {
                &&& effect matches Effect::Send(UiCommand::KillTask(id))
                &&& id@ == before.boards.subagent_tasks@[before.boards.task_selected as int].task_id@
            } else {
                effect == Effect::Nothing
            }
        },
        ViewIntent::SelectSession { down } => effect == Effect::Nothing && session_selected(
            before,
            after,
            stepped_place(at, 1, count, down),
        ),
        ViewIntent::PageSessions { down } => effect == Effect::Nothing && session_selected(
            before,
            after,
            stepped_place(at, page, count, down),
        ),
        ViewIntent::FirstSession => effect == Effect::Nothing && session_selected(before, after, 0),
        ViewIntent::LastSession => effect == Effect::Nothing && session_selected(
            before,
            after,
            geometry::less(count, 1),
        ),
        ViewIntent::OpenSession => session_opened(before, after, effect),
        ViewIntent::NewSession => effect == Effect::Send(UiCommand::NewSession) && after == (
        AppState { view: screen::View::Transcript, ..before }),
        ViewIntent::InstallUpdate => update_begun(before, after, effect),
        ViewIntent::DismissUpdate => effect == Effect::Nothing && after == (AppState {
            header: Header { app_update: None, ..before.header },
            ..before
        }),
        ViewIntent::RenameSession => effect == Effect::Nothing && panes::dashboard_asks(
            before,
            after,
            false,
        ),
        ViewIntent::DeleteSession => effect == Effect::Nothing && panes::dashboard_asks(
            before,
            after,
            true,
        ),
        ViewIntent::StopSession => after == before && session_command(before, true, effect),
        ViewIntent::CloseSession => after == before && session_command(before, false, effect),
    }
}

/// What a key asks of a view that shows one text.
fn read_viewer_key(code: KeyCode, back: screen::View) -> (r: ViewIntent)
    ensures
        r == viewer_intent(code, back),
{
    match code {
        KeyCode::Esc => ViewIntent::Show { view: back, rewind: true },
        KeyCode::Char('q') => ViewIntent::Show { view: back, rewind: true },
        KeyCode::Up => ViewIntent::ScrollBack,
        KeyCode::Down => ViewIntent::ScrollForward,
        _ => ViewIntent::Ignore,
    }
}

/// What a key asks of the list of workflow runs.
fn read_runs_key(code: KeyCode) -> (r: ViewIntent)
    ensures
        r == runs_intent(code),
{
    match code {
        KeyCode::Esc => ViewIntent::Show { view: screen::View::Transcript, rewind: false },
        KeyCode::Up => ViewIntent::SelectRun { down: false },
        KeyCode::Down => ViewIntent::SelectRun { down: true },
        KeyCode::Enter => ViewIntent::ReadArtifact,
        KeyCode::Char(c) => if c == 'q' {
            ViewIntent::Show { view: screen::View::Transcript, rewind: false }
        } else if c == 'a' || c == 'd' || c == 'r' || c == 'x' {
            ViewIntent::ControlRun(c)
        } else if c == 'v' {
            ViewIntent::ReadArtifact
        } else {
            ViewIntent::Ignore
        },
        _ => ViewIntent::Ignore,
    }
}

/// What a key asks of the list of tasks.
fn read_tasks_key(code: KeyCode) -> (r: ViewIntent)
    ensures
        r == tasks_intent(code),
{
    match code {
        KeyCode::Esc => ViewIntent::Show { view: screen::View::Transcript, rewind: false },
        KeyCode::Up => ViewIntent::SelectTask { down: false },
        KeyCode::Down => ViewIntent::SelectTask { down: true },
        KeyCode::Enter => ViewIntent::OpenTask,
        KeyCode::Char('k') => ViewIntent::KillTask,
        _ => ViewIntent::Ignore,
    }
}

/// What a key asks of the dashboard.
fn read_dashboard_key(code: KeyCode, update: &Option<AppUpdateStatus>) -> (r: ViewIntent)
    ensures
        r == dashboard_intent(code, *update),
{
    match code {
        KeyCode::Esc => ViewIntent::Show { view: screen::View::Transcript, rewind: false },
        KeyCode::Up => ViewIntent::SelectSession { down: false },
        KeyCode::Down => ViewIntent::SelectSession { down: true },
        KeyCode::PageUp => ViewIntent::PageSessions { down: false },
        KeyCode::PageDown => ViewIntent::PageSessions { down: true },
        KeyCode::Home => ViewIntent::FirstSession,
        KeyCode::End => ViewIntent::LastSession,
        KeyCode::Enter => ViewIntent::OpenSession,
        KeyCode::Char(c) => if c == 'n' {
            ViewIntent::NewSession
        } else if c == 'u' && matches!(update, Some(AppUpdateStatus::Available { .. })) {
            ViewIntent::InstallUpdate
        } else if c == 'l' && update.is_some() {
            ViewIntent::DismissUpdate
        } else if c == 'r' {
            ViewIntent::RenameSession
        } else if c == 'd' {
            ViewIntent::DeleteSession
        } else if c == 's' {
            ViewIntent::StopSession
        } else if c == 'x' {
            ViewIntent::CloseSession
        } else {
            ViewIntent::Ignore
        },
        _ => ViewIntent::Ignore,
    }
}

/// What a key asks of a view.
pub fn read_view_key(view: screen::View, update: &Option<AppUpdateStatus>, key: KeyEvent) -> (r: ViewIntent)
    ensures
        r == view_intent(view, *update, key),
{
    if key.code == KeyCode::Char('b') && key.modifiers.control {
        ViewIntent::ToggleTasks
    } else {
        match view {
            screen::View::BlockViewer => read_viewer_key(key.code, screen::View::Transcript),
            screen::View::WorkflowArtifact => read_viewer_key(key.code, screen::View::Workflows),
            screen::View::Workflows => read_runs_key(key.code),
            screen::View::Tasks => read_tasks_key(key.code),
            screen::View::Dashboard => read_dashboard_key(key.code, update),
            screen::View::Subagent => if key.code == KeyCode::Esc || key.code == KeyCode::Char(
                'q',
            ) {
                ViewIntent::Show { view: screen::View::Tasks, rewind: true }
            } else {
                ViewIntent::Pass
            },
            screen::View::Transcript => ViewIntent::Pass,
        }
    }
}

/// A place in a list after a step up or down.
fn step_place(at: usize, rows: usize, count: usize, down: bool) -> (r: usize)
    ensures
        r == stepped_place(at as int, rows as int, count as int, down),
{
    if down {
        geometry::smaller(at.saturating_add(rows), count.saturating_sub(1))
    } else {
        at.saturating_sub(rows)
    }
}

impl AppState {
    fn control_run(&self, c: char) -> (r: Effect)
        ensures
            run_command(*self, c, r),
    {
        let word: &'static str = if c == 'a' {
            "approve"
        } else if c == 'd' {
            "reject"
        } else if c == 'r' {
            "retry"
        } else {
            "cancel"
        };
        let found: Option<(String, Option<String>)> = self.boards.selected_workflow_control(word);
        let ghost told = found;
        assert(boards::control_of(self.boards, control_word(c), told));
        match found {
            Some((run_id, step_id)) => Effect::Send(
                UiCommand::WorkflowControl { run_id, action: word.to_owned(), step_id },
            ),
            None => Effect::Nothing,
        }
    }

    fn read_artifact(&self) -> (r: Effect)
        ensures
            artifact_command(*self, r),
    {
        match self.boards.selected_workflow_artifact() {
            Some((run_id, artifact_id)) => Effect::Send(
                UiCommand::ReadWorkflowArtifact { run_id, artifact_id },
            ),
            None => Effect::Nothing,
        }
    }

    fn kill_task(&self) -> (r: Effect)
        ensures
            view_done(*self, *self, ViewIntent::KillTask, 0, r),
    {
        match self.boards.selected_subagent_id() {
            Some(id) => Effect::Send(UiCommand::KillTask(id)),
            None => Effect::Nothing,
        }
    }

    /// Shows the selected session of the dashboard.
    pub fn open_dashboard_session(&mut self) -> (r: Effect)
        ensures
            session_opened(*old(self), *final(self), r),
            old(self).wf() ==> final(self).wf(),
    {
        let path: Option<String> = self.sessions.activate_dashboard_session();
        if self.sessions.available_sessions.len() > 0 {
            self.view = screen::View::Transcript;
        }
        match path {
            Some(target) => Effect::Send(UiCommand::ResumeSession(target)),
            None => Effect::Nothing,
        }
    }

    fn begin_update(&mut self) -> (r: Effect)
        ensures
            update_begun(*old(self), *final(self), r),
            old(self).wf() ==> final(self).wf(),
    {
        if let Some(AppUpdateStatus::Available { version, size_bytes }) = &self.header.app_update {
            self.header.app_update = Some(
                AppUpdateStatus::Downloading {
                    version: version.clone(),
                    downloaded_bytes: 0,
                    total_bytes: *size_bytes,
                },
            );
        }
        Effect::Send(UiCommand::InstallUpdate)
    }

    fn command_session(&self, stop: bool) -> (r: Effect)
        ensures
            session_command(*self, stop, r),
    {
        let possible: sessions::DashboardActions = self.sessions.dashboard_actions();
        if (stop && possible.stop) || (!stop && possible.close) {
            if let Some(path) = self.sessions.dashboard_selected_path() {
                return if stop {
                    Effect::Send(UiCommand::StopResident(path))
                } else {
                    Effect::Send(UiCommand::CloseResident(path))
                };
            }
        }
        Effect::Nothing
    }

    fn walk_list(&mut self, intent: ViewIntent, page: usize)
        requires
            match intent {
                ViewIntent::SelectRun { .. } => true,
                ViewIntent::SelectTask { .. } => true,
                ViewIntent::SelectSession { .. } => true,
                ViewIntent::PageSessions { .. } => true,
                ViewIntent::FirstSession => true,
                ViewIntent::LastSession => true,
                _ => false,
            },
        ensures
            view_done(*old(self), *final(self), intent, page as int, Effect::Nothing),
            old(self).wf() ==> final(self).wf(),
    {
        match intent {
            ViewIntent::SelectRun { down } => {
                self.boards.workflow_selected = step_place(
                    self.boards.workflow_selected,
                    1,
                    self.boards.workflow_runs.len(),
                    down,
                );
            },
            ViewIntent::SelectTask { down } => {
                self.boards.task_selected = step_place(
                    self.boards.task_selected,
                    1,
                    self.boards.subagent_tasks.len(),
                    down,
                );
            },
            ViewIntent::SelectSession { down } => {
                self.sessions.dashboard_selected = step_place(
                    self.sessions.dashboard_selected,
                    1,
                    self.sessions.available_sessions.len(),
                    down,
                );
            },
            ViewIntent::PageSessions { down } => {
                self.sessions.dashboard_selected = step_place(
                    self.sessions.dashboard_selected,
                    page,
                    self.sessions.available_sessions.len(),
                    down,
                );
            },
            ViewIntent::FirstSession => {
                self.sessions.dashboard_selected = 0;
            },
            _ => {
                self.sessions.dashboard_selected = self.sessions.available_sessions.len()
                    .saturating_sub(1);
            },
        }
    }

    /// Does what a key asks of a view.
    pub fn perform_in_view(&mut self, intent: ViewIntent, page: usize) -> (r: Effect)
        ensures
            view_done(*old(self), *final(self), intent, page as int, r),
            old(self).wf() ==> final(self).wf(),
    {
        match intent {
            ViewIntent::Ignore => {},
            ViewIntent::Pass => {},
            ViewIntent::ToggleTasks => {
                self.view = if self.view == screen::View::Tasks {
                    screen::View::Transcript
                } else {
                    screen::View::Tasks
                };
            },
            ViewIntent::Show { view, rewind } => {
                self.view = view;
                if rewind {
                    self.scroll.scroll_from_bottom = 0;
                }
            },
            ViewIntent::ScrollBack => {
                self.scroll.scroll_from_bottom = self.scroll.scroll_from_bottom.saturating_add(3);
            },
            ViewIntent::ScrollForward => self.scroll.scroll_down(3),
            ViewIntent::ControlRun(c) => {
                return self.control_run(c);
            },
            ViewIntent::ReadArtifact => {
                return self.read_artifact();
            },
            ViewIntent::OpenTask => self.open_selected_subagent(),
            ViewIntent::KillTask => {
                return self.kill_task();
            },
            ViewIntent::OpenSession => {
                return self.open_dashboard_session();
            },
            ViewIntent::NewSession => {
                self.view = screen::View::Transcript;
                return Effect::Send(UiCommand::NewSession);
            },
            ViewIntent::InstallUpdate => {
                return self.begin_update();
            },
            ViewIntent::DismissUpdate => {
                self.header.app_update = None;
            },
            ViewIntent::RenameSession => self.begin_dashboard_rename(),
            ViewIntent::DeleteSession => self.begin_dashboard_delete(),
            ViewIntent::StopSession => {
                return self.command_session(true);
            },
            ViewIntent::CloseSession => {
                return self.command_session(false);
            },
            _ => self.walk_list(intent, page),
        }
        Effect::Nothing
    }
}

} // verus!
