//! Requests from outside about the live workspace.

use vstd::prelude::*;
use crate::app::{App, AppModel};
use crate::location::{paths_agree, same_path, Location};
use crate::moment::Moment;
use crate::pane::pane_of;
use crate::process::{ActivityState, AgentTool, PaneId, Process, ProcessKind, ProcessState};
use crate::session::{AgentSession, AgentSessionState};
use crate::text::opt_text;

verus! {

/// What a process can be asked to do.
#[derive(Debug, Clone, Copy, PartialEq, Eq, Structural)]
pub enum ControlAction {
    /// Start.
    Start,
    /// Stop.
    Stop,
    /// Stop and start again.
    Restart,
}

/// What came of such a request.
#[derive(Debug, Clone, Copy, PartialEq, Eq, Structural)]
pub enum ControlOutcome {
    /// It is under way.
    Requested,
    /// There is no such process.
    Unknown,
}

/// What came of input for a process.
#[derive(Debug, Clone, Copy, PartialEq, Eq, Structural)]
pub enum SendOutcome {
    /// It was delivered.
    Delivered,
    /// The process is stopped.
    NotRunning,
    /// There is no such process.
    Unknown,
}

/// A process as the outside sees it.
#[derive(Debug)]
pub struct ProcessSummary {
    /// Pane.
    pub pane: PaneId,
    /// Name.
    pub name: String,
    /// Section.
    pub kind: ProcessKind,
    /// Where it stands in its lifecycle.
    pub state: ProcessState,
    /// What it appears to be doing.
    pub activity: ActivityState,
}

impl ProcessSummary {
    /// The summary of a process.
    pub open spec fn describing(process: Process) -> ProcessSummary {
        ProcessSummary {
            pane: process.id,
            name: process.name,
            kind: process.kind,
            state: process.state,
            activity: process.activity,
        }
    }

    /// Returns the summary of a process.
    pub fn of(process: &Process) -> (summary: ProcessSummary)
        ensures
            summary == ProcessSummary::describing(*process),
    {
        ProcessSummary {
            pane: process.id,
            name: process.name.clone(),
            kind: process.kind,
            state: process.state,
            activity: process.activity,
        }
    }
}

/// A recorded session as the outside sees it.
#[derive(Debug)]
pub struct SessionSummary {
    /// Name.
    pub name: String,
    /// Provider.
    pub tool: AgentTool,
    /// Recorded state.
    pub state: AgentSessionState,
    /// The provider's conversation is known, so that it can be resumed.
    pub resumable: bool,
}

impl SessionSummary {
    /// The summary of a session.
    pub open spec fn describing(session: AgentSession) -> SessionSummary {
        SessionSummary {
            name: session.name,
            tool: session.tool,
            state: session.state,
            resumable: session.native_id is Some,
        }
    }

    /// Returns the summary of a session.
    pub fn of(session: &AgentSession) -> (summary: SessionSummary)
        ensures
            summary == SessionSummary::describing(*session),
    {
        SessionSummary {
            name: session.name.clone(),
            tool: session.tool,
            state: session.state,
            resumable: session.native_id.is_some(),
        }
    }

    /// Returns the word for the recorded state.
    pub fn state_word(&self) -> (word: &'static str)
        ensures
            word@ == match self.state {
                AgentSessionState::Pending => "pending"@,
                AgentSessionState::Open => "open"@,
                AgentSessionState::Closed => "closed"@,
            },
    {
        match self.state {
            AgentSessionState::Pending => "pending",
            AgentSessionState::Open => "open",
            AgentSessionState::Closed => "closed",
        }
    }
}

/// A request from outside.
#[derive(Debug)]
pub enum WorkspaceRequest {
    /// The processes.
    ListProcesses,
    /// What a pane shows.
    PaneOutput(PaneId),
    /// Input for a pane.
    SendInput {
        /// Pane.
        pane: PaneId,
        /// Input.
        data: String,
    },
    /// A change of a process.
    ControlProcess {
        /// Pane.
        pane: PaneId,
        /// Change.
        action: ControlAction,
    },
    /// The recorded sessions of the project.
    ListSessions,
}

/// The answer to a request.
#[derive(Debug)]
pub enum WorkspaceResponse {
    /// The processes.
    Processes(Vec<ProcessSummary>),
    /// What a pane shows, if there is such a pane.
    PaneOutput(Option<String>),
    /// What came of input.
    Sent(SendOutcome),
    /// What came of a change.
    Controlled(ControlOutcome),
    /// The recorded sessions of the project.
    Sessions(Vec<SessionSummary>),
    /// The sessions could not be read.
    Unavailable,
    /// Input is to be written to a live process; `send_outcome` tells what came
    /// of it.
    Deliver {
        /// Pane.
        pane: PaneId,
        /// Input.
        data: String,
    },
}

/// What an answer to a request holds.
#[verifier::ext_equal]
pub enum ResponseModel {
    /// The processes.
    Processes(Seq<ProcessSummary>),
    /// What a pane shows, if there is such a pane.
    PaneOutput(Option<Seq<char>>),
    /// What came of input.
    Sent(SendOutcome),
    /// What came of a change.
    Controlled(ControlOutcome),
    /// The recorded sessions of the project.
    Sessions(Seq<SessionSummary>),
    /// The sessions could not be read.
    Unavailable,
    /// Input is to be written to a live process.
    Deliver(PaneId, String),
}

impl View for WorkspaceResponse {
    type V = ResponseModel;

    open spec fn view(&self) -> ResponseModel {
        match *self {
            WorkspaceResponse::Processes(list) => ResponseModel::Processes(list@),
            WorkspaceResponse::PaneOutput(text) => ResponseModel::PaneOutput(opt_text(text)),
            WorkspaceResponse::Sent(outcome) => ResponseModel::Sent(outcome),
            WorkspaceResponse::Controlled(outcome) => ResponseModel::Controlled(outcome),
            WorkspaceResponse::Sessions(list) => ResponseModel::Sessions(list@),
            WorkspaceResponse::Unavailable => ResponseModel::Unavailable,
            WorkspaceResponse::Deliver { pane, data } => ResponseModel::Deliver(pane, data),
        }
    }
}

/// The summaries of the sessions whose project has the same path, component by
/// component.
pub open spec fn summaries_in(sessions: Seq<AgentSession>, project: Location) -> Seq<
    SessionSummary,
>
    decreases sessions.len(),
{
    if sessions.len() == 0 {
        Seq::empty()
    } else {
        let rest = summaries_in(sessions.drop_last(), project);
        if same_path(sessions.last().project.path@, project.path@) {
            rest.push(SessionSummary::describing(sessions.last()))
        } else {
            rest
        }
    }
}

impl AppModel {
    /// The summaries of the processes.
    pub open spec fn process_summaries(self) -> Seq<ProcessSummary> {
        self.roster.processes.map_values(|process: Process| ProcessSummary::describing(process))
    }

    /// What a pane shows: nothing yet where its terminal has not started.
    pub open spec fn output_of(self, pane: PaneId) -> Option<Seq<char>> {
        match pane_of(self.panes, pane) {
            Some(found) => Some(
                found.screen.span_text(
                    found.screen.view_top(),
                    0,
                    found.screen.view_top() + found.screen.rows - 1,
                    found.screen.cols as int,
                ),
            ),
            None => if self.roster.process(pane) is Some {
                Some(Seq::empty())
            } else {
                None
            },
        }
    }

    /// The answer to input for a pane.
    pub open spec fn sending(self, pane: PaneId, data: String) -> ResponseModel {
        match pane_of(self.panes, pane) {
            Some(found) => if found.life.alive {
                ResponseModel::Deliver(pane, data)
            } else {
                ResponseModel::Sent(SendOutcome::NotRunning)
            },
            None => if self.roster.process(pane) is Some {
                ResponseModel::Sent(SendOutcome::NotRunning)
            } else {
                ResponseModel::Sent(SendOutcome::Unknown)
            },
        }
    }

    /// The recorded sessions of the project. A failure to read them is not
    /// mistaken for there being none.
    pub open spec fn session_summaries(self) -> ResponseModel {
        match self.catalog.current {
            Some(project) => match self.world.agent_sessions() {
                Ok(sessions) => ResponseModel::Sessions(summaries_in(sessions, project)),
                Err(_) => ResponseModel::Unavailable,
            },
            None => ResponseModel::Sessions(Seq::empty()),
        }
    }

    /// The application that was asked to change a process.
    #[verifier::opaque]
    pub open spec fn controlled(self, pane: PaneId, action: ControlAction, now: Moment) -> AppModel {
        if self.roster.process(pane) is None {
            self
        } else {
            match action {
                ControlAction::Start => self.pane_started(pane, now),
                ControlAction::Stop => self.pane_stopped(pane, now),
                ControlAction::Restart => self.pane_restarted(pane, now),
            }
        }
    }

    /// The application after a request.
    pub open spec fn requested(self, request: WorkspaceRequest, now: Moment) -> AppModel {
        match request {
            WorkspaceRequest::ControlProcess { pane, action } => self.controlled(pane, action, now),
            _ => self,
        }
    }

    /// The answer to a request.
    pub open spec fn response(self, request: WorkspaceRequest) -> ResponseModel {
        match request {
            WorkspaceRequest::ListProcesses => ResponseModel::Processes(self.process_summaries()),
            WorkspaceRequest::PaneOutput(pane) => ResponseModel::PaneOutput(self.output_of(pane)),
            WorkspaceRequest::SendInput { pane, data } => self.sending(pane, data),
            WorkspaceRequest::ControlProcess { pane, .. } => ResponseModel::Controlled(
                if self.roster.process(pane) is Some {
                    ControlOutcome::Requested
                } else {
                    ControlOutcome::Unknown
                },
            ),
            WorkspaceRequest::ListSessions => self.session_summaries(),
        }
    }
}

/// Returns what came of input that was written to a live process. A failed
/// write means that the process is stopped.
pub fn send_outcome(delivered: bool) -> (outcome: SendOutcome)
    ensures
        outcome == if delivered {
            SendOutcome::Delivered
        } else {
            SendOutcome::NotRunning
        },
{
    if delivered {
        SendOutcome::Delivered
    } else {
        SendOutcome::NotRunning
    }
}

impl App {
    /// Returns the summaries of the processes.
    fn summarize_processes(&self) -> (list: Vec<ProcessSummary>)
        ensures
            list@ == self@.process_summaries(),
    {
        let mut list: Vec<ProcessSummary> = Vec::new();
        let mut i: usize = 0;
        while i < self.workspace.processes.len()
            invariant
                i <= self.workspace.processes@.len(),
                list@.len() == i,
                forall|k: int|
                    0 <= k < i ==> #[trigger] list@[k] == ProcessSummary::describing(
                        self.workspace.processes@[k],
                    ),
            decreases self.workspace.processes@.len() - i,
        {
            list.push(ProcessSummary::of(&self.workspace.processes[i]));
            i = i + 1;
        }
        assert(list@ =~= self@.process_summaries());
        list
    }

    /// The latest on-screen text of `pane`. A live pane returns its screen; a
    /// process that exists but has not started its terminal yet returns empty;
    /// only an unknown pane returns nothing.
    pub fn pane_output(&self, pane: PaneId) -> (text: Option<String>)
        ensures
            opt_text(text) == self@.output_of(pane),
    {
        match self.panes.get(pane) {
            Some(found) => Some(found.screen.screen_text()),
            None => if self.workspace.process(pane).is_some() {
                let text: String = String::new();
                assert(text@ =~= Seq::<char>::empty());
                Some(text)
            } else {
                None
            },
        }
    }

    /// Decides what becomes of input for a pane. Distinguishes a live process,
    /// which receives it, from a stopped one and from an unknown pane.
    pub fn send_pane_input(&self, pane: PaneId, data: String) -> (response: WorkspaceResponse)
        ensures
            response@ == self@.sending(pane, data),
    {
        match self.panes.get(pane) {
            Some(found) => if found.life.alive {
                WorkspaceResponse::Deliver { pane, data }
            } else {
                WorkspaceResponse::Sent(SendOutcome::NotRunning)
            },
            None => if self.workspace.process(pane).is_some() {
                WorkspaceResponse::Sent(SendOutcome::NotRunning)
            } else {
                WorkspaceResponse::Sent(SendOutcome::Unknown)
            },
        }
    }

    /// Drives `pane`'s lifecycle through the very methods the keybindings use.
    pub fn control_process(&mut self, pane: PaneId, action: ControlAction, now: Moment) -> (outcome:
        ControlOutcome)
        ensures
            outcome == (if old(self)@.roster.process(pane) is Some {
                ControlOutcome::Requested
            } else {
                ControlOutcome::Unknown
            }),
            final(self)@ == old(self)@.controlled(pane, action, now),
    {
        proof {
            reveal(AppModel::controlled);
        }
        if self.workspace.process(pane).is_none() {
            return ControlOutcome::Unknown;
        }
        match action {
            ControlAction::Start => self.start_pane(pane, now),
            ControlAction::Stop => self.stop_pane(pane, now),
            ControlAction::Restart => self.restart_pane(pane, now),
        }
        ControlOutcome::Requested
    }

    /// This project's durable agent sessions. A store failure answers
    /// `Unavailable` rather than an empty list, so that "could not read" is
    /// never mistaken for "no sessions".
    pub fn session_response(&self) -> (response: WorkspaceResponse)
        ensures
            response@ == self@.session_summaries(),
    {
        let project: &Location = match &self.catalog.current {
            Some(project) => project,
            None => {
                let list: Vec<SessionSummary> = Vec::new();
                assert(list@ =~= Seq::<SessionSummary>::empty());
                return WorkspaceResponse::Sessions(list);
            },
        };
        match self.agent_sessions() {
            Ok(sessions) => {
                let mut list: Vec<SessionSummary> = Vec::new();
                let mut i: usize = 0;
                assert(list@ =~= summaries_in(sessions@.take(0), *project));
                while i < sessions.len()
                    invariant
                        i <= sessions@.len(),
                        list@ == summaries_in(sessions@.take(i as int), *project),
                    decreases sessions@.len() - i,
                {
                    assert(sessions@.take(i + 1).drop_last() =~= sessions@.take(i as int));
                    assert(sessions@.take(i + 1).last() == sessions@[i as int]);
                    if paths_agree(&sessions[i].project.path, &project.path) {
                        list.push(SessionSummary::of(&sessions[i]));
                    }
                    i = i + 1;
                }
                assert(sessions@.take(i as int) =~= sessions@);
                WorkspaceResponse::Sessions(list)
            },
            Err(_) => WorkspaceResponse::Unavailable,
        }
    }

    /// Answers a workspace request against live state.
    pub fn handle_workspace_request(&mut self, request: WorkspaceRequest, now: Moment) -> (response:
        WorkspaceResponse)
        ensures
            response@ == old(self)@.response(request),
            final(self)@ == old(self)@.requested(request, now),
    {
        match request {
            WorkspaceRequest::ListProcesses => WorkspaceResponse::Processes(
                self.summarize_processes(),
            ),
            WorkspaceRequest::PaneOutput(pane) => WorkspaceResponse::PaneOutput(
                self.pane_output(pane),
            ),
            WorkspaceRequest::SendInput { pane, data } => self.send_pane_input(pane, data),
            WorkspaceRequest::ControlProcess { pane, action } => WorkspaceResponse::Controlled(
                self.control_process(pane, action, now),
            ),
            WorkspaceRequest::ListSessions => self.session_response(),
        }
    }
}

/// A store that cannot be read is reported as such: an empty list of sessions
/// always means that the project has none, or that there is nothing to ask.
pub proof fn unreadable_sessions_are_not_absent_ones(app: AppModel)
    requires
        app.catalog.current is Some,
        app.world.agent_sessions() is Err,
    ensures
        app.response(WorkspaceRequest::ListSessions) == ResponseModel::Unavailable,
{
}

/// Only a request to change a process changes anything.
pub proof fn questions_change_nothing(app: AppModel, request: WorkspaceRequest, now: Moment)
    requires
        !(request is ControlProcess),
    ensures
        app.requested(request, now) == app,
{
}

} // verus!
