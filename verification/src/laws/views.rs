//! What the frame shows, and what is told to those who ask from outside.

use vstd::prelude::*;
use vstd::string::*;
use crate::activity_frame::ActivityFrame;
use crate::app::bridge::{
    summaries_in, ControlAction, ControlOutcome, ProcessSummary, ResponseModel, SendOutcome,
    SessionSummary, WorkspaceRequest,
};
use crate::app::pointer::SidebarSelection;
use crate::app::projects::active_index;
use crate::app::scene::{NoticePlace, StatusContext};
use crate::app::{
    AppModel, CompletionMode, Focus, PointerShape, SettingsState, WorldModel,
};
use crate::effect::{Effect, EffectModel, Task};
use crate::geometry::Rect;
use crate::laws::lifecycle::{spawning, spawns};
use crate::location::{same_path, Location};
use crate::moment::Moment;
use crate::pane::pane_of;
use crate::process::{
    ExitIntent, PaneId, Process, ProcessKind, ProcessOrigin, ProcessState,
};
use crate::session::AgentSession;
use crate::workspace::Roster;

verus! {

/// The hints of the status bar follow the keys: those of a terminal while one has
/// the keys, and otherwise those of the row that is selected.
pub proof fn the_hints_follow_the_keys(app: AppModel, fits: bool)
    ensures
        ({
            let shown = app.scene(fits);
            let attached = app.focus != Focus::Sidebar;
            let chosen = app.roster.selected_process();
            let conversation = chosen is Some && chosen->0.kind == ProcessKind::Agent
                && chosen->0.origin == ProcessOrigin::Session;
            let project = app.catalog.cursor is Some;
            let bare = app.roster.processes.len() == 0;
            &&& attached && conversation ==> shown.status == StatusContext::TerminalAgentSession
            &&& attached && !conversation ==> shown.status == StatusContext::Terminal
            &&& !attached && project ==> shown.status == StatusContext::Project
            &&& !attached && !project && bare ==> shown.status == StatusContext::Empty
            &&& !attached && !project && !bare && conversation ==> shown.status
                == StatusContext::AgentSession
            &&& !attached && !project && !bare && !conversation ==> shown.status
                == StatusContext::Process
            &&& shown.sidebar_focused <==> app.focus == Focus::Sidebar
            &&& shown.leader <==> app.focus == Focus::Leader
            &&& shown.empty <==> bare
        }),
{
}

/// The frame names the active project, or the folder of the workspace where it is
/// not registered; its title is the name of the selected process.
pub proof fn the_frame_names_the_project_and_the_process(app: AppModel, fits: bool)
    ensures
        ({
            let shown = app.scene(fits);
            let active = active_index(app.catalog.projects, app.catalog.current);
            &&& active matches Some(index) ==> shown.active_project
                == app.catalog.projects[index].name@
            &&& active is None && app.catalog.current is Some ==> shown.active_project
                == app.catalog.current->0.label@
            &&& active is None && app.catalog.current is None ==> shown.active_project == "muster"@
            &&& app.roster.selected_process() matches Some(process) ==> shown.title
                == process.name@
            &&& app.roster.selected_process() is None ==> shown.title == "muster"@
            &&& app.catalog.cursor matches Some(row) ==> shown.selection
                == SidebarSelection::Project(row)
            &&& app.catalog.cursor is None ==> shown.selection == SidebarSelection::Process(
                app.roster.selected,
            )
        }),
{
}

/// Each other project is shown by its name, and by its folder too, after two
/// blanks, where another project has the same name.
pub proof fn the_frame_lists_the_other_projects(app: AppModel, row: usize, fits: bool)
    requires
        row < app.catalog.other_count(),
    ensures
        ({
            let shown = app.scene(fits).other_projects;
            let project = app.catalog.other_project(row)->0;
            let index = app.catalog.other_index(row as int);
            let shared = exists|other: int|
                0 <= other < app.catalog.projects.len() && other != index && (
                #[trigger] app.catalog.projects[other]).name@ == project.name@;
            &&& shown.len() == app.catalog.other_count()
            &&& !shared ==> shown[row as int] == project.name@
            &&& shared ==> shown[row as int] == project.name@ + "  "@ + project.config.label@
        }),
{
}

/// The frame counts the crashed processes, each once.
pub proof fn the_frame_counts_the_crashes(processes: Seq<Process>, process: Process)
    ensures
        crate::app::scene::crash_count(Seq::empty()) == 0,
        process.state == ProcessState::Crashed ==> crate::app::scene::crash_count(
            processes.push(process),
        ) == crate::app::scene::crash_count(processes) + 1,
        process.state != ProcessState::Crashed ==> crate::app::scene::crash_count(
            processes.push(process),
        ) == crate::app::scene::crash_count(processes),
{
    assert(processes.push(process).drop_last() =~= processes);
}

/// A notice floats where it fits and stands in the status bar where it does not.
pub proof fn a_notice_is_shown_where_it_fits(app: AppModel)
    ensures
        app.feedback.notice is Some ==> app.scene(true).notice == NoticePlace::Toast,
        app.feedback.notice is Some ==> app.scene(false).notice == NoticePlace::StatusBar,
        app.feedback.notice is None ==> app.scene(true).notice == NoticePlace::Nowhere,
        app.feedback.notice is None ==> app.scene(false).notice == NoticePlace::Nowhere,
{
}

/// The manager starts with the sidebar in charge, nothing over it, nothing running,
/// asked or queued, and its own project as the current and the launched one.
pub proof fn the_manager_starts_quietly(
    roster: Roster,
    area: Rect,
    current: Location,
    world: WorldModel,
    now: Moment,
)
    ensures
        ({
            let app = AppModel::created(roster, area, current, world, now);
            &&& app.running
            &&& app.focus == Focus::Sidebar
            &&& app.overlay is None
            &&& app.roster == roster
            &&& app.panes.len() == 0
            &&& app.catalog.current == Some(current)
            &&& app.catalog.launched == current
            &&& app.catalog.cursor is None
            &&& app.catalog.projects.len() == 0
            &&& app.feedback.notice is None && app.feedback.toast is None
            &&& app.settings == SettingsState::Unloaded
            &&& app.completion == CompletionMode::Inline
            &&& app.pending_switch is None
            &&& app.canvas.area == area
            &&& app.world == world
            &&& app.outbox.len() == 0 && app.waiting.len() == 0 && app.agenda.len() == 0
            &&& app.held.len() == 0
            &&& app.pointer.shape == PointerShape::Default
            &&& app.pointer.selection is None && app.pointer.clipboard is None
            &&& app.spinner.frame.index == 0
            &&& app.spinner.deadline == now.later(100)
            &&& forall|pane: PaneId| app.ledger.generation(pane) is None
        }),
{
}

/// A list of the processes has one summary for each, in the order of the sidebar.
pub proof fn every_process_is_summarized(app: AppModel, i: int)
    requires
        0 <= i < app.roster.processes.len(),
    ensures
        ({
            let response = app.response(WorkspaceRequest::ListProcesses);
            let process = app.roster.processes[i];
            &&& response is Processes
            &&& response->Processes_0.len() == app.roster.processes.len()
            &&& response->Processes_0[i].pane == process.id
            &&& response->Processes_0[i].name == process.name
            &&& response->Processes_0[i].kind == process.kind
            &&& response->Processes_0[i].state == process.state
            &&& response->Processes_0[i].activity == process.activity
        }),
{
}

/// The output of a pane is the text of the lines that it shows; a process without a
/// pane has said nothing, and a pane of no process is not known.
pub proof fn pane_output_is_what_the_pane_shows(app: AppModel, pane: PaneId)
    ensures
        ({
            let response = app.response(WorkspaceRequest::PaneOutput(pane));
            &&& pane_of(app.panes, pane) matches Some(found) ==> response
                == ResponseModel::PaneOutput(
                Some(
                    found.screen.span_text(
                        found.screen.view_top(),
                        0,
                        found.screen.view_top() + found.screen.rows - 1,
                        found.screen.cols as int,
                    ),
                ),
            )
            &&& pane_of(app.panes, pane) is None && app.roster.process(pane) is Some ==> response
                == ResponseModel::PaneOutput(Some(Seq::empty()))
            &&& pane_of(app.panes, pane) is None && app.roster.process(pane) is None ==> response
                == ResponseModel::PaneOutput(None)
        }),
{
}

/// Input from outside is delivered to a process that is alive, as it is; it is
/// refused for one that is not, and for one that is not known.
pub proof fn input_is_delivered_to_the_living(app: AppModel, pane: PaneId, data: String, now: Moment)
    ensures
        ({
            let request = WorkspaceRequest::SendInput { pane, data };
            let response = app.response(request);
            let known = app.roster.process(pane) is Some || pane_of(app.panes, pane) is Some;
            &&& app.alive(pane) ==> response == ResponseModel::Deliver(pane, data)
            &&& !app.alive(pane) && known ==> response == ResponseModel::Sent(
                SendOutcome::NotRunning,
            )
            &&& !known ==> response == ResponseModel::Sent(SendOutcome::Unknown)
            &&& app.requested(request, now) == app
        }),
{
}

/// A process that is not known is not controlled, and the caller is told so.
pub proof fn only_known_processes_are_controlled(
    app: AppModel,
    pane: PaneId,
    action: ControlAction,
    now: Moment,
)
    ensures
        ({
            let request = WorkspaceRequest::ControlProcess { pane, action };
            &&& app.roster.process(pane) is Some ==> app.response(request)
                == ResponseModel::Controlled(ControlOutcome::Requested)
            &&& app.roster.process(pane) is None ==> app.response(request)
                == ResponseModel::Controlled(ControlOutcome::Unknown)
            &&& app.roster.process(pane) is None ==> app.requested(request, now) == app
        }),
{
    reveal(AppModel::controlled);
}

/// A request to start a process starts it; one to stop it kills it where it has no
/// policy; one to restart it does the same to start it again.
pub proof fn a_control_request_acts_on_its_process(app: AppModel, pane: PaneId, now: Moment)
    requires
        app.roster.process(pane) is Some,
        app.roster.process(pane)->0.agent_session_id is None,
    ensures
        ({
            let process = app.roster.process(pane)->0;
            let start = WorkspaceRequest::ControlProcess { pane, action: ControlAction::Start };
            spawns(
                app,
                app.requested(start, now),
                pane,
                process.command,
                process.working_dir,
                None,
            )
        }),
        ({
            let process = app.roster.process(pane)->0;
            let stop = app.requested(
                WorkspaceRequest::ControlProcess { pane, action: ControlAction::Stop },
                now,
            );
            let again = app.requested(
                WorkspaceRequest::ControlProcess { pane, action: ControlAction::Restart },
                now,
            );
            let killed = app.outbox.push(EffectModel::Plain(Effect::Kill(pane)));
            let bare = process.stop is None && process.kind != ProcessKind::Command;
            let free = app.alive(pane) && app.life(pane)->0.exit_intent
                == ExitIntent::FollowPolicy;
            &&& bare && free ==> stop.outbox == killed && stop.waiting == app.waiting.push(
                Task::Killed { pane, restart: false, fallback: false },
            )
            &&& bare && free ==> again.outbox == killed && again.waiting == app.waiting.push(
                Task::Killed { pane, restart: true, fallback: false },
            )
            &&& !app.alive(pane) ==> stop.outbox == app.outbox
            &&& !app.alive(pane) ==> stop.roster.process(pane)->0.state == ProcessState::Exited
            &&& !app.alive(pane) ==> spawns(
                app,
                again,
                pane,
                process.command,
                process.working_dir,
                None,
            )
        }),
{
    reveal(AppModel::controlled);
    reveal(AppModel::launched);
    let process = app.roster.process(pane)->0;
    spawning(app, pane, process.command, process.working_dir, None, now);
    let off = app.bumped(pane).deactivated(pane);
    assert(off.roster == app.roster);
    crate::laws::states_are_kept(
        off,
        pane,
        ProcessState::Exited,
        crate::process::ActivityState::Idle,
        pane,
    );
}

/// A list of the conversations has those of the current project, in their order.
pub proof fn the_conversations_are_those_of_the_project(
    sessions: Seq<AgentSession>,
    session: AgentSession,
    project: Location,
)
    ensures
        summaries_in(Seq::empty(), project).len() == 0,
        same_path(session.project.path@, project.path@) ==> summaries_in(
            sessions.push(session),
            project,
        ) == summaries_in(sessions, project).push(
            SessionSummary {
                name: session.name,
                tool: session.tool,
                state: session.state,
                resumable: session.native_id is Some,
            },
        ),
        !same_path(session.project.path@, project.path@) ==> summaries_in(
            sessions.push(session),
            project,
        ) == summaries_in(sessions, project),
{
    assert(sessions.push(session).drop_last() =~= sessions);
}

/// Whoever asks for the conversations gets those of the current project, none
/// where there is no project, and learns where they could not be read.
pub proof fn the_conversations_are_told(app: AppModel)
    ensures
        app.catalog.current is None ==> app.response(WorkspaceRequest::ListSessions)
            == ResponseModel::Sessions(Seq::empty()),
        app.catalog.current is Some && app.world.has_store && app.world.sessions is Ok
            ==> app.response(WorkspaceRequest::ListSessions) == ResponseModel::Sessions(
            summaries_in(app.world.sessions->Ok_0, app.catalog.current->0),
        ),
        app.catalog.current is Some && app.world.has_store && app.world.sessions is Err
            ==> app.response(WorkspaceRequest::ListSessions) == ResponseModel::Unavailable,
        app.catalog.current is Some && !app.world.has_store ==> app.response(
            WorkspaceRequest::ListSessions,
        ) == ResponseModel::Sessions(summaries_in(Seq::empty(), app.catalog.current->0)),
{
}

} // verus!
