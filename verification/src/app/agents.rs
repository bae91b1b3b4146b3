//! Durable agent sessions in the workspace: binding, restoring, creating,
//! reopening and closing them.

use vstd::prelude::*;
use crate::app::{App, AppModel, Focus};
use crate::config::{ProcessSpec, WorkspaceConfig};
use crate::effect::{
    AgentSessionActivation, Effect, EffectModel, LaunchPurpose, Prepared, SessionModel, Task,
};
use crate::location::{copy_location, Location};
use crate::message::{Message, Prompt};
use crate::moment::Moment;
use crate::names::{agent_name_from, session_name};
use crate::overlay::{
    AgentPicker, AgentPickerItem, Overlay, OverlayModel, PickerModel,
};
use crate::pane::{pane_alive, pane_retiring, ConfigMembership, PaneLife, PaneModel};
use crate::process::{
    agent_tool_options, agent_tools, ActivityState, AgentTool, PaneId, Process, ProcessKind,
    ProcessOrigin, ProcessState, RestartPolicy,
};
use crate::session::{
    any_closed, find_session, has_closed, recent_of, recent_sessions, session_at, AgentSession,
    AgentSessionState, RECENT_AGENT_LIMIT,
};
use crate::text::{copy_opt, opt_text, same_text};
use crate::workspace::{
    a_link_is_found_again, next_id, position, position_is_the_first, replacing_keeps_order,
    session_position,
};

verus! {

/// Whether a process is a configured agent whose entry is still in the config.
pub open spec fn current_agent(process: Process, panes: Seq<PaneModel>) -> bool {
    process.kind == ProcessKind::Agent && process.origin == ProcessOrigin::Configured
        && !pane_retiring(panes, process.id)
}

/// Whether a configured agent still lacks its session.
pub open spec fn unlinked(process: Process, panes: Seq<PaneModel>) -> bool {
    current_agent(process, panes) && process.agent_session_id is None && process.agent_tool is Some
        && process.command is Some
}

/// The tasks for a list of processes that meet a condition, the first last.
pub open spec fn link_tasks(processes: Seq<Process>, panes: Seq<PaneModel>) -> Seq<Task>
    decreases processes.len(),
{
    if processes.len() == 0 {
        Seq::empty()
    } else {
        let rest = link_tasks(processes.drop_first(), panes);
        if unlinked(processes[0], panes) {
            rest.push(Task::LinkAgent(processes[0].id))
        } else {
            rest
        }
    }
}

/// The launches of what starts with the workspace, the first last.
pub open spec fn row_launches(processes: Seq<Process>) -> Seq<Task>
    decreases processes.len(),
{
    if processes.len() == 0 {
        Seq::empty()
    } else {
        let rest = row_launches(processes.drop_first());
        if processes[0].autostart {
            rest.push(Task::Launch { pane: processes[0].id, purpose: LaunchPurpose::Automatic })
        } else {
            rest
        }
    }
}

/// The names of the configured agents whose entries are still in the config.
pub open spec fn current_agent_names(processes: Seq<Process>, panes: Seq<PaneModel>) -> Seq<String>
    decreases processes.len(),
{
    if processes.len() == 0 {
        Seq::empty()
    } else {
        let rest = current_agent_names(processes.drop_last(), panes);
        if current_agent(processes.last(), panes) {
            rest.push(processes.last().name)
        } else {
            rest
        }
    }
}

/// The sessions to bring back, the first last.
pub open spec fn restorations(
    sessions: Seq<AgentSession>,
    project: Location,
    processes: Seq<Process>,
) -> Seq<Task>
    decreases sessions.len(),
{
    if sessions.len() == 0 {
        Seq::empty()
    } else {
        let rest = restorations(sessions.drop_first(), project, processes);
        if sessions[0].comes_back(project, processes) {
            rest.push(Task::RestoreSession(sessions[0]))
        } else {
            rest
        }
    }
}

/// The pane of a session that is still shutting down.
pub open spec fn closing_pane(
    processes: Seq<Process>,
    panes: Seq<PaneModel>,
    id: Seq<char>,
) -> Option<PaneId>
    decreases processes.len(),
{
    if processes.len() == 0 {
        None
    } else if opt_text(processes[0].agent_session_id) == Some(id) && pane_alive(
        panes,
        processes[0].id,
    ) && pane_retiring(panes, processes[0].id) {
        Some(processes[0].id)
    } else {
        closing_pane(processes.drop_first(), panes, id)
    }
}

/// The row of a session.
pub open spec fn session_row(
    session: AgentSession,
    command: Option<String>,
    id: PaneId,
) -> Process {
    Process {
        id,
        name: session.name,
        kind: ProcessKind::Agent,
        agent_tool: Some(session.tool),
        agent_session_id: Some(session.id),
        origin: ProcessOrigin::Session,
        command,
        working_dir: session.working_dir,
        restart: RestartPolicy::Never,
        autostart: command is Some,
        stop: None,
        state: ProcessState::Pending,
        activity: ActivityState::Idle,
    }
}

impl AppModel {
    /// The application with the binding of its configured agents on the agenda.
    #[verifier::opaque]
    pub open spec fn linking(self) -> AppModel {
        if self.catalog.current is Some && self.world.has_store {
            AppModel {
                agenda: self.agenda + link_tasks(self.roster.processes, self.panes),
                ..self
            }
        } else {
            self
        }
    }

    /// The application that asks for the session of a configured agent.
    #[verifier::opaque]
    pub open spec fn linking_one(self, pane: PaneId) -> AppModel {
        match self.roster.process(pane) {
            Some(process) => if self.catalog.current is Some && self.world.has_store
                && self.world.fresh_id is Some && unlinked(process, self.panes) {
                self.asked(
                    EffectModel::LinkConfigured(
                        SessionModel {
                            id: self.world.fresh_id->0@,
                            name: process.name@,
                            tool: process.agent_tool->0,
                            project: self.catalog.current->0,
                            launch_command: process.command->0@,
                            working_dir: None,
                            resume_command: None,
                            native_id: None,
                            configured_key: Some(process.name@),
                            state: AgentSessionState::Closed,
                            restore: None,
                            reopen: None,
                            owner_process: None,
                            owner_token: None,
                            running_token: None,
                            inferred_tool: process.agent_tool->0,
                        },
                    ),
                    Task::Linked(pane),
                )
            } else {
                self
            },
            None => self,
        }
    }

    /// The application that learned the session of a configured agent.
    #[verifier::opaque]
    pub open spec fn link_answered(
        self,
        pane: PaneId,
        linked: Result<String, String>,
        now: Moment,
    ) -> AppModel {
        match linked {
            Ok(session) => self.with_roster(self.roster.with_session(pane, session)),
            Err(error) => self.noted(Message::SessionStore(error), now),
        }
    }

    /// The application that returns orphaned sessions to history.
    #[verifier::opaque]
    pub open spec fn recovering(self) -> AppModel {
        if self.catalog.current is Some && self.world.has_store {
            self.asked(
                EffectModel::RetireOrphaned {
                    project: self.catalog.current->0,
                    live: current_agent_names(self.roster.processes, self.panes),
                },
                Task::OrphansRetired,
            )
        } else {
            self
        }
    }

    /// The application that learned how a write to the session history went.
    #[verifier::opaque]
    pub open spec fn history_answered(self, result: Result<(), String>, now: Moment) -> AppModel {
        match result {
            Ok(_) => self,
            Err(error) => self.noted(Message::SessionStore(error), now),
        }
    }

    /// The application with the launches of its workspace on the agenda.
    #[verifier::opaque]
    pub open spec fn launching_rows(self) -> AppModel {
        AppModel { agenda: self.agenda + row_launches(self.roster.processes), ..self }
    }

    /// The application with the open sessions of its project on the agenda.
    #[verifier::opaque]
    pub open spec fn restoring(self, now: Moment) -> AppModel {
        match self.catalog.current {
            None => self,
            Some(project) => match self.world.agent_sessions() {
                Err(error) => self.noted(Message::SessionStore(error), now),
                Ok(sessions) => AppModel {
                    agenda: self.agenda + restorations(sessions, project, self.roster.processes),
                    ..self
                },
            },
        }
    }

    /// Whether a running process owns the session that a pane is linked to, as
    /// far as the records can be read.
    pub open spec fn session_owned_elsewhere(self, pane: PaneId) -> bool {
        match (self.session_of(pane), self.world.agent_sessions()) {
            (Some(id), Ok(sessions)) => match session_at(sessions, id@) {
                Some(session) => session.owned(),
                None => false,
            },
            _ => false,
        }
    }

    /// The application that brings one session back: running where its
    /// conversation can be resumed, else as a stopped row.
    #[verifier::opaque]
    pub open spec fn session_restored(self, session: AgentSession, now: Moment) -> AppModel {
        match session.restore {
            Some(command) => self.session_inserted(
                session,
                AgentSessionActivation::StartDetached(command),
                now,
            ),
            None => self.session_inserted(session, AgentSessionActivation::Stopped, now).noted(
                Message::NotResumable,
                now,
            ),
        }
    }

    /// The application attached to the selected terminal, if asked to.
    pub open spec fn attached_if(self, attach: bool) -> AppModel {
        if attach {
            self.focused(Focus::Terminal)
        } else {
            self
        }
    }

    /// The application with a session's row selected and activated. A session
    /// that has a row keeps it; any other gets a new one.
    pub open spec fn session_inserted(
        self,
        session: AgentSession,
        activation: AgentSessionActivation,
        now: Moment,
    ) -> AppModel {
        let command = activation.starts();
        match session_position(self.roster.processes, session.id@) {
            Some(index) => {
                let pane = self.roster.processes[index].id;
                let chosen = self.with_roster(
                    self.roster.select(position(self.roster.processes, pane)->0 as usize),
                );
                let started = if command is Some && !self.alive(pane) {
                    chosen.spawning(pane, command, session.working_dir, now)
                } else {
                    chosen
                };
                started.attached_if(activation is StartAttached)
            },
            None => {
                let pane = next_id(self.roster.processes);
                let row = session_row(session, command, pane);
                let grown = self.roster.inserted(row);
                let at = crate::workspace::section_end(self.roster.processes, row.kind) as usize;
                let shown = self.with_roster(grown.select(at)).with_cursor(None).with_overlay(None);
                let started = if command is Some {
                    shown.spawning(pane, command, session.working_dir, now)
                } else {
                    shown
                };
                started.attached_if(activation is StartAttached)
            },
        }
    }

    /// The application that reopens a recorded session.
    #[verifier::opaque]
    pub open spec fn reopening(self, id: Seq<char>, now: Moment) -> AppModel {
        if self.pending_switch is Some {
            self.noted(Message::SwitchInProgress, now)
        } else {
            match self.world.agent_sessions() {
                Err(error) => self.noted(Message::SessionStore(error), now),
                Ok(sessions) => match session_at(sessions, id) {
                    None => self.noted(Message::NoRecentSession, now),
                    Some(session) => match session.reopen {
                        None => self.noted(Message::NotResumable, now),
                        Some(command) => self.asked(
                            EffectModel::Plain(
                                Effect::SetSessionState {
                                    session: session.id,
                                    state: AgentSessionState::Open,
                                },
                            ),
                            Task::Reopened { session, command },
                        ),
                    },
                },
            }
        }
    }

    /// The application that learned whether a session is recorded as open
    /// again. While its earlier pane still shuts down, it waits for that.
    #[verifier::opaque]
    pub open spec fn reopen_answered(
        self,
        session: AgentSession,
        command: String,
        result: Result<(), String>,
        now: Moment,
    ) -> AppModel {
        match result {
            Err(error) => self.noted(Message::SessionStore(error), now),
            Ok(_) => match closing_pane(self.roster.processes, self.panes, session.id@) {
                Some(pane) => self.with_ledger(self.ledger.with_reopen(pane, session.id)),
                None => self.session_inserted(
                    session,
                    AgentSessionActivation::StartAttached(command),
                    now,
                ),
            },
        }
    }

    /// The application that reopens the newest closed session of its project.
    #[verifier::opaque]
    pub open spec fn reopening_last(self, now: Moment) -> AppModel {
        match self.catalog.current {
            None => self,
            Some(project) => match self.world.agent_sessions() {
                Err(error) => self.noted(Message::SessionStore(error), now),
                Ok(sessions) => {
                    let newest = recent_sessions(sessions, project, 1);
                    if newest.len() > 0 {
                        self.reopening(newest[0].id@, now)
                    } else if any_closed(sessions, project) {
                        self.noted(Message::NotResumable, now)
                    } else {
                        self.noted(Message::NoRecentSession, now)
                    }
                },
            },
        }
    }

    /// The application without a stopped session that was closed.
    pub open spec fn session_gone(self, pane: PaneId) -> AppModel {
        self.with_ledger(self.ledger.without_reopen(pane)).retired(pane)
    }

    /// The application in which a killed session's row goes when it exits.
    pub open spec fn session_going(self, pane: PaneId) -> AppModel {
        let cleared = self.with_ledger(self.ledger.without_reopen(pane));
        match cleared.life(pane) {
            Some(life) => cleared.with_life(
                pane,
                PaneLife { membership: ConfigMembership::RetireOnExit, ..life },
            ),
            None => cleared,
        }
    }

    /// The application that closes a session: a stopped one is recorded as
    /// closed and goes, a running one is killed first.
    #[verifier::opaque]
    pub open spec fn session_closing(self, pane: PaneId) -> AppModel {
        let back = self.focused(Focus::Sidebar);
        let session = self.session_of(pane);
        if self.alive(pane) {
            back.asked(
                EffectModel::Plain(Effect::Kill(pane)),
                Task::CloseKilled { pane, session },
            )
        } else if session is Some && self.world.has_store {
            back.asked(
                EffectModel::Plain(
                    Effect::SetSessionState {
                        session: session->0,
                        state: AgentSessionState::Closed,
                    },
                ),
                Task::ClosedStopped(pane),
            )
        } else {
            back.session_gone(pane)
        }
    }

    /// The application that learned whether a stopped session is recorded as
    /// closed.
    #[verifier::opaque]
    pub open spec fn closed_stopped_answered(
        self,
        pane: PaneId,
        result: Result<(), String>,
        now: Moment,
    ) -> AppModel {
        match result {
            Ok(_) => self.session_gone(pane),
            Err(error) => self.noted(Message::SessionStore(error), now).with_overlay(None),
        }
    }

    /// The application that learned whether a session was killed.
    #[verifier::opaque]
    pub open spec fn close_kill_answered(
        self,
        pane: PaneId,
        session: Option<String>,
        delivered: bool,
        now: Moment,
    ) -> AppModel {
        if !delivered {
            self.noted(Message::StopDeliveryFailed, now)
        } else {
            let stopping = self.with_state(pane, ProcessState::Stopping);
            if session is Some && self.world.has_store {
                stopping.asked(
                    EffectModel::Plain(
                        Effect::SetSessionState {
                            session: session->0,
                            state: AgentSessionState::Closed,
                        },
                    ),
                    Task::ClosedRunning(pane),
                )
            } else {
                stopping.session_going(pane)
            }
        }
    }

    /// The application that learned whether a killed session is recorded as
    /// closed.
    #[verifier::opaque]
    pub open spec fn closed_running_answered(
        self,
        pane: PaneId,
        result: Result<(), String>,
        now: Moment,
    ) -> AppModel {
        match result {
            Ok(_) => self.session_going(pane),
            Err(error) => self.noted(Message::SessionStore(error), now).with_overlay(None),
        }
    }

    /// The application that closes a session, asking first if it runs.
    pub open spec fn session_close_confirmation(self, process: Process) -> AppModel {
        if self.alive(process.id) {
            self.with_overlay(
                Some(
                    OverlayModel::ConfirmSessionClose {
                        prompt: Prompt::CloseSession(process.name),
                        pane: process.id,
                    },
                ),
            )
        } else {
            self.session_closing(process.id)
        }
    }

    /// The application that closes the selected session. A configured agent
    /// stays, because the config owns it.
    #[verifier::opaque]
    pub open spec fn selected_close_confirmation(self, now: Moment) -> AppModel {
        match self.roster.selected_process() {
            Some(process) => if process.kind != ProcessKind::Agent {
                self
            } else if process.origin != ProcessOrigin::Session {
                self.noted(Message::ConfiguredClose, now)
            } else {
                self.session_close_confirmation(process)
            },
            None => self,
        }
    }

    /// The application with the agent picker open: the newest conversations to
    /// reopen, then every provider to start afresh.
    #[verifier::opaque]
    pub open spec fn picker_shown(self) -> AppModel {
        let recent = match self.catalog.current {
            Some(project) => match self.world.agent_sessions() {
                Ok(sessions) => recent_sessions(sessions, project, RECENT_AGENT_LIMIT as nat),
                Err(_) => Seq::empty(),
            },
            None => Seq::empty(),
        };
        let error = match self.world.agent_sessions() {
            Ok(_) => None,
            Err(error) => Some(Message::Outside(error)),
        };
        self.with_overlay(
            Some(
                OverlayModel::AgentPicker(
                    PickerModel { items: picker_items(recent), selected: 0, error },
                ),
            ),
        )
    }

    /// The application that creates a session. The provider's preset stands in
    /// for a missing command.
    #[verifier::opaque]
    pub open spec fn session_preparing(
        self,
        tool: AgentTool,
        name: Option<Seq<char>>,
        command: Option<Seq<char>>,
        resume: Option<Seq<char>>,
    ) -> AppModel {
        self.asked(
            EffectModel::Prepare {
                tool,
                name,
                command: if command is Some {
                    command
                } else {
                    self.world.presets.command(tool)
                },
                resume,
            },
            Task::Prepared,
        )
    }

    /// The application that learned what a new session needs, and records it.
    #[verifier::opaque]
    pub open spec fn session_prepared(self, prepared: Prepared, now: Moment) -> AppModel {
        if prepared.resume is Some && !prepared.resume_valid {
            self.complained(Message::ResumeTemplateInvalid, now)
        } else if self.catalog.current is None {
            self
        } else if prepared.command is None {
            self.complained(Message::CommandRequired, now)
        } else if prepared.resume is None && prepared.needs_resume {
            self.complained(Message::CompoundResumeRequired, now)
        } else if prepared.id is None {
            self.complained(Message::SessionStoreFailed, now)
        } else if prepared.launch is None {
            self.complained(Message::CommandRequired, now)
        } else {
            self.asked(
                EffectModel::Record(
                    SessionModel {
                        id: prepared.id->0@,
                        name: match prepared.name {
                            Some(name) => name@,
                            None => session_name(
                                self.world.names,
                                self.roster.processes,
                                self.world.presets.label(prepared.tool),
                                prepared.id->0@,
                            ),
                        },
                        tool: prepared.tool,
                        project: self.catalog.current->0,
                        launch_command: prepared.command->0@,
                        working_dir: None,
                        resume_command: opt_text(prepared.resume),
                        native_id: None,
                        configured_key: None,
                        state: AgentSessionState::Pending,
                        restore: None,
                        reopen: None,
                        owner_process: None,
                        owner_token: None,
                        running_token: None,
                        inferred_tool: prepared.tool,
                    },
                ),
                Task::Recorded(prepared.launch->0),
            )
        }
    }

    /// The application that learned whether a new session was recorded, and
    /// starts it.
    #[verifier::opaque]
    pub open spec fn session_recorded(
        self,
        launch: String,
        stored: Result<AgentSession, String>,
        now: Moment,
    ) -> AppModel {
        match stored {
            Err(error) => self.complained(Message::SessionStore(error), now),
            Ok(session) => self.session_inserted(
                session,
                AgentSessionActivation::StartAttached(launch),
                now,
            ),
        }
    }
}

/// The rows of the agent picker.
pub open spec fn picker_items(recent: Seq<AgentSession>) -> Seq<AgentPickerItem> {
    recent.map_values(|session: AgentSession| AgentPickerItem::Recent(session))
        + agent_tools().map_values(|tool: AgentTool| AgentPickerItem::New(tool))
}

impl App {
    /// Returns whether a process is a configured agent whose entry is still in
    /// the config.
    fn is_current_agent(&self, process: &Process) -> (current: bool)
        ensures
            current == current_agent(*process, self@.panes),
    {
        process.kind == ProcessKind::Agent && process.origin == ProcessOrigin::Configured
            && !self.panes.is_retiring(process.id)
    }

    /// Returns whether a configured agent still lacks its session.
    fn is_unlinked(&self, process: &Process) -> (lacking: bool)
        ensures
            lacking == unlinked(*process, self@.panes),
    {
        self.is_current_agent(process) && process.agent_session_id.is_none()
            && process.agent_tool.is_some() && process.command.is_some()
    }

    /// Binds every configured agent that lacks one to a durable session: puts
    /// one step for each on the agenda.
    pub fn link_configured_agent_sessions(&mut self)
        ensures
            final(self)@ == old(self)@.linking(),
    {
        proof {
            reveal(AppModel::linking);
        }
        if self.catalog.current.is_none() || !self.world.has_store {
            return;
        }
        let mut i: usize = self.workspace.processes.len();
        let ghost processes = self@.roster.processes;
        let ghost panes = self@.panes;
        assert(processes.skip(i as int).len() == 0);
        assert(self@.agenda + link_tasks(processes.skip(i as int), panes) =~= self@.agenda);
        while i > 0
            invariant
                i <= processes.len(),
                processes == old(self)@.roster.processes,
                panes == old(self)@.panes,
                self@ == (AppModel {
                    agenda: old(self)@.agenda + link_tasks(processes.skip(i as int), panes),
                    ..old(self)@
                }),
            decreases i,
        {
            i = i - 1;
            assert(processes.skip(i as int).drop_first() =~= processes.skip(i + 1));
            assert(processes.skip(i as int)[0] == processes[i as int]);
            if self.is_unlinked(&self.workspace.processes[i]) {
                self.defer(Task::LinkAgent(self.workspace.processes[i].id));
                assert(self@.agenda =~= old(self)@.agenda + link_tasks(
                    processes.skip(i as int),
                    panes,
                ));
            }
        }
        assert(processes.skip(0) =~= processes);
    }

    /// Asks for the session of one configured agent. The record that the store
    /// has for the project and the agent's key is reused, else the candidate is
    /// taken; both happen in one transaction of the store.
    pub fn link_agent(&mut self, pane: PaneId)
        ensures
            final(self)@ == old(self)@.linking_one(pane),
    {
        proof {
            reveal(AppModel::linking_one);
        }
        let effect: Effect = match self.workspace.process(pane) {
            Some(process) => {
                if !self.world.has_store || !self.is_unlinked(process) {
                    return;
                }
                let tool: AgentTool = match process.agent_tool {
                    Some(tool) => tool,
                    None => return,
                };
                let command: String = match &process.command {
                    Some(command) => command.clone(),
                    None => return,
                };
                let id: String = match copy_opt(&self.world.fresh_id) {
                    Some(id) => id,
                    None => return,
                };
                match copy_location(&self.catalog.current) {
                    Some(project) => Effect::LinkConfigured(
                        AgentSession {
                            id,
                            name: process.name.clone(),
                            tool,
                            project,
                            launch_command: command,
                            working_dir: None,
                            resume_command: None,
                            native_id: None,
                            configured_key: Some(process.name.clone()),
                            state: AgentSessionState::Closed,
                            restore: None,
                            reopen: None,
                            owner_process: None,
                            owner_token: None,
                            running_token: None,
                            inferred_tool: tool,
                        },
                    ),
                    None => return,
                }
            },
            None => return,
        };
        self.ask(effect, Task::Linked(pane));
    }

    /// Goes on with the session of a configured agent.
    pub fn handle_linked(
        &mut self,
        pane: PaneId,
        linked: Result<String, String>,
        now: Moment,
    )
        ensures
            final(self)@ == old(self)@.link_answered(pane, linked, now),
    {
        proof {
            reveal(AppModel::link_answered);
        }
        match linked {
            Ok(session) => self.workspace.set_agent_session_id(pane, session),
            Err(error) => self.set_notice(Message::SessionStore(error), now),
        }
    }

    /// Returns configured sessions with no matching workspace agent to history,
    /// so that a pin stranded by a crash between its two writes is recovered
    /// rather than left hidden.
    pub fn recover_orphaned_pins(&mut self)
        ensures
            final(self)@ == old(self)@.recovering(),
    {
        proof {
            reveal(AppModel::recovering);
        }
        if self.world.has_store {
            if let Some(project) = copy_location(&self.catalog.current) {
                let live: Vec<String> = self.live_agent_names();
                self.ask(Effect::RetireOrphaned { project, live }, Task::OrphansRetired);
            }
        }
    }

    /// Returns the names of the agents that are live: what is not to be
    /// returned to history, beside the agents in the config on disk.
    pub fn live_agent_names(&self) -> (names: Vec<String>)
        ensures
            names@ == current_agent_names(self@.roster.processes, self@.panes),
    {
        let mut names: Vec<String> = Vec::new();
        let mut i: usize = 0;
        let ghost processes = self@.roster.processes;
        assert(processes.take(0).len() == 0);
        while i < self.workspace.processes.len()
            invariant
                i <= processes.len(),
                processes == self@.roster.processes,
                names@ == current_agent_names(processes.take(i as int), self@.panes),
            decreases processes.len() - i,
        {
            assert(processes.take(i + 1).drop_last() =~= processes.take(i as int));
            assert(processes.take(i + 1).last() == processes[i as int]);
            if self.is_current_agent(&self.workspace.processes[i]) {
                names.push(self.workspace.processes[i].name.clone());
            }
            i = i + 1;
        }
        assert(processes.take(i as int) =~= processes);
        names
    }

    /// Goes on after a write to the session history.
    pub fn handle_history_written(&mut self, result: Result<(), String>, now: Moment)
        ensures
            final(self)@ == old(self)@.history_answered(result, now),
    {
        proof {
            reveal(AppModel::history_answered);
        }
        if let Err(error) = result {
            self.set_notice(Message::SessionStore(error), now);
        }
    }

    /// Puts the launch of every process that starts with the workspace on the
    /// agenda.
    pub fn launch_rows(&mut self)
        ensures
            final(self)@ == old(self)@.launching_rows(),
    {
        proof {
            reveal(AppModel::launching_rows);
        }
        let mut i: usize = self.workspace.processes.len();
        let ghost processes = self@.roster.processes;
        assert(processes.skip(i as int).len() == 0);
        assert(self@.agenda + row_launches(processes.skip(i as int)) =~= self@.agenda);
        while i > 0
            invariant
                i <= processes.len(),
                processes == old(self)@.roster.processes,
                self@ == (AppModel {
                    agenda: old(self)@.agenda + row_launches(processes.skip(i as int)),
                    ..old(self)@
                }),
            decreases i,
        {
            i = i - 1;
            assert(processes.skip(i as int).drop_first() =~= processes.skip(i + 1));
            assert(processes.skip(i as int)[0] == processes[i as int]);
            if self.workspace.processes[i].autostart {
                self.defer(
                    Task::Launch {
                        pane: self.workspace.processes[i].id,
                        purpose: LaunchPurpose::Automatic,
                    },
                );
                assert(self@.agenda =~= old(self)@.agenda + row_launches(
                    processes.skip(i as int),
                ));
            }
        }
        assert(processes.skip(0) =~= processes);
    }

    /// Puts the return of the active project's open sessions on the agenda.
    pub fn restore_open_agent_sessions(&mut self, now: Moment)
        ensures
            final(self)@ == old(self)@.restoring(now),
    {
        proof {
            reveal(AppModel::restoring);
        }
        let project: Location = match copy_location(&self.catalog.current) {
            Some(project) => project,
            None => return,
        };
        let sessions: Vec<AgentSession> = match self.agent_sessions() {
            Ok(sessions) => sessions,
            Err(error) => {
                self.set_notice(Message::SessionStore(error), now);
                return;
            },
        };
        let mut i: usize = sessions.len();
        let ghost processes = self@.roster.processes;
        assert(sessions@.skip(i as int).len() == 0);
        assert(self@.agenda + restorations(sessions@.skip(i as int), project, processes)
            =~= self@.agenda);
        while i > 0
            invariant
                i <= sessions@.len(),
                processes == old(self)@.roster.processes,
                self@ == (AppModel {
                    agenda: old(self)@.agenda + restorations(
                        sessions@.skip(i as int),
                        project,
                        processes,
                    ),
                    ..old(self)@
                }),
            decreases i,
        {
            i = i - 1;
            assert(sessions@.skip(i as int).drop_first() =~= sessions@.skip(i + 1));
            assert(sessions@.skip(i as int)[0] == sessions@[i as int]);
            let session: &AgentSession = &sessions[i];
            if session.configured_key.is_none() && session.state == AgentSessionState::Open
                && session.project.same_config_location(&project)
                && self.workspace.session_position_of(&session.id).is_none()
                && !session.session_owner_is_live() {
                self.defer(Task::RestoreSession(session.copied()));
                assert(self@.agenda =~= old(self)@.agenda + restorations(
                    sessions@.skip(i as int),
                    project,
                    processes,
                ));
            }
        }
        assert(sessions@.skip(0) =~= sessions@);
    }

    /// Returns whether a pane's linked agent session is currently owned by a live
    /// process. For a pane that does not run here, another instance that shares
    /// the project holds the conversation, so its launch is skipped. A pane without a session, or whose
    /// session cannot be read, counts as unowned.
    pub fn agent_session_owned_by_live_process(&self, pane: PaneId) -> (owned: bool)
        ensures
            owned == self@.session_owned_elsewhere(pane),
    {
        let id: String = match self.session_of(pane) {
            Some(id) => id,
            None => return false,
        };
        match self.agent_sessions() {
            Ok(sessions) => match find_session(&sessions, &id) {
                Some(session) => session.session_owner_is_live(),
                None => false,
            },
            Err(_) => false,
        }
    }

    /// Brings one open session back.
    pub fn restore_session(&mut self, session: AgentSession, now: Moment)
        ensures
            final(self)@ == old(self)@.session_restored(session, now),
    {
        proof {
            reveal(AppModel::session_restored);
        }
        match copy_opt(&session.restore) {
            Some(command) => self.insert_agent_session(
                session,
                AgentSessionActivation::StartDetached(command),
                now,
            ),
            None => {
                self.insert_agent_session(session, AgentSessionActivation::Stopped, now);
                self.set_notice(Message::NotResumable, now);
            },
        }
    }

    /// Inserts one persisted session as a process, applying its requested
    /// stopped, detached-start, or attached-start activation.
    pub fn insert_agent_session(
        &mut self,
        session: AgentSession,
        activation: AgentSessionActivation,
        now: Moment,
    )
        ensures
            final(self)@ == old(self)@.session_inserted(session, activation, now),
    {
        let command: Option<String> = activation.command();
        let attach: bool = activation.should_attach();
        match self.workspace.session_position_of(&session.id) {
            Some(index) => {
                let pane: PaneId = self.workspace.processes[index].id;
                proof {
                    crate::workspace::position_is_the_first(self@.roster.processes, pane);
                }
                if let Some(row) = self.workspace.position_of(pane) {
                    self.workspace.select_at(row);
                }
                if command.is_some() && !self.panes.is_alive(pane) {
                    self.spawn(pane, command, session.working_dir, now);
                }
            },
            None => {
                let pane: PaneId = self.workspace.next_pane_id();
                let row: Process = Process {
                    id: pane,
                    name: session.name,
                    kind: ProcessKind::Agent,
                    agent_tool: Some(session.tool),
                    agent_session_id: Some(session.id),
                    origin: ProcessOrigin::Session,
                    command: copy_opt(&command),
                    working_dir: copy_opt(&session.working_dir),
                    restart: RestartPolicy::Never,
                    autostart: command.is_some(),
                    stop: None,
                    state: ProcessState::Pending,
                    activity: ActivityState::Idle,
                };
                let index: usize = self.workspace.insert_in_section(row);
                self.workspace.select_at(index);
                self.catalog.cursor = None;
                self.overlay = None;
                if command.is_some() {
                    self.spawn(pane, command, session.working_dir, now);
                }
            },
        }
        if attach {
            self.focus = Focus::Terminal;
        }
    }

    /// Returns the pane of a session that is still shutting down.
    fn closing_pane_of(&self, id: &String) -> (pane: Option<PaneId>)
        ensures
            pane == closing_pane(self@.roster.processes, self@.panes, id@),
    {
        let mut i: usize = 0;
        let ghost processes = self@.roster.processes;
        assert(processes.skip(0) =~= processes);
        while i < self.workspace.processes.len()
            invariant
                i <= processes.len(),
                processes == self@.roster.processes,
                closing_pane(processes, self@.panes, id@) == closing_pane(
                    processes.skip(i as int),
                    self@.panes,
                    id@,
                ),
            decreases processes.len() - i,
        {
            assert(processes.skip(i as int)[0] == processes[i as int]);
            assert(processes.skip(i as int).drop_first() =~= processes.skip(i + 1));
            let process: &Process = &self.workspace.processes[i];
            let same: bool = match &process.agent_session_id {
                Some(session) => same_text(session, id),
                None => false,
            };
            if same && self.panes.is_alive(process.id) && self.panes.is_retiring(process.id) {
                return Some(process.id);
            }
            i = i + 1;
        }
        None
    }

    /// Reopens a persisted session with its provider-native command.
    pub fn reopen_agent_session(&mut self, id: &String, now: Moment)
        ensures
            final(self)@ == old(self)@.reopening(id@, now),
    {
        proof {
            reveal(AppModel::reopening);
        }
        if self.pending_switch.is_some() {
            self.set_notice(Message::SwitchInProgress, now);
            return;
        }
        let sessions: Vec<AgentSession> = match self.agent_sessions() {
            Ok(sessions) => sessions,
            Err(error) => {
                self.set_notice(Message::SessionStore(error), now);
                return;
            },
        };
        let session: AgentSession = match find_session(&sessions, id) {
            Some(session) => session,
            None => {
                self.set_notice(Message::NoRecentSession, now);
                return;
            },
        };
        match copy_opt(&session.reopen) {
            None => self.set_notice(Message::NotResumable, now),
            Some(command) => {
                let id: String = session.id.clone();
                self.ask(
                    Effect::SetSessionState { session: id, state: AgentSessionState::Open },
                    Task::Reopened { session, command },
                );
            },
        }
    }

    /// Goes on after a session was recorded as open again, or was not.
    pub fn handle_reopened(
        &mut self,
        session: AgentSession,
        command: String,
        result: Result<(), String>,
        now: Moment,
    )
        ensures
            final(self)@ == old(self)@.reopen_answered(session, command, result, now),
    {
        proof {
            reveal(AppModel::reopen_answered);
        }
        match result {
            Err(error) => self.set_notice(Message::SessionStore(error), now),
            Ok(_) => match self.closing_pane_of(&session.id) {
                Some(pane) => self.ledger.put_reopen(pane, session.id),
                None => self.insert_agent_session(
                    session,
                    AgentSessionActivation::StartAttached(command),
                    now,
                ),
            },
        }
    }

    /// Reopens the newest closed resumable session owned by this workspace.
    pub fn reopen_last_closed_session(&mut self, now: Moment)
        ensures
            final(self)@ == old(self)@.reopening_last(now),
    {
        proof {
            reveal(AppModel::reopening_last);
        }
        let project: Location = match copy_location(&self.catalog.current) {
            Some(project) => project,
            None => return,
        };
        let sessions: Vec<AgentSession> = match self.agent_sessions() {
            Ok(sessions) => sessions,
            Err(error) => {
                self.set_notice(Message::SessionStore(error), now);
                return;
            },
        };
        let newest: Vec<AgentSession> = recent_of(&sessions, &project, 1);
        if newest.len() > 0 {
            self.reopen_agent_session(&newest[0].id, now);
        } else if has_closed(&sessions, &project) {
            self.set_notice(Message::NotResumable, now);
        } else {
            self.set_notice(Message::NoRecentSession, now);
        }
    }

    /// Drops a stopped session that was closed.
    fn drop_session(&mut self, pane: PaneId)
        ensures
            final(self)@ == old(self)@.session_gone(pane),
    {
        let _ = self.ledger.take_reopen(pane);
        self.retire_pane(pane);
    }

    /// Lets a killed session's row go when it exits.
    fn retire_session(&mut self, pane: PaneId)
        ensures
            final(self)@ == old(self)@.session_going(pane),
    {
        let _ = self.ledger.take_reopen(pane);
        if let Some(mut life) = self.panes.life(pane) {
            life.membership = ConfigMembership::RetireOnExit;
            self.set_life(pane, life);
        }
    }

    /// Force-kills one runtime agent session and records it closed only after
    /// stop delivery succeeds. Its row retires on exit, or once it is recorded
    /// when it was already stopped, with focus returned to the sidebar first.
    pub fn close_agent_session(&mut self, pane: PaneId)
        ensures
            final(self)@ == old(self)@.session_closing(pane),
    {
        proof {
            reveal(AppModel::session_closing);
        }
        self.focus = Focus::Sidebar;
        let session: Option<String> = self.session_of(pane);
        if self.panes.is_alive(pane) {
            self.ask(Effect::Kill(pane), Task::CloseKilled { pane, session });
            return;
        }
        match session {
            Some(session) => {
                if self.world.has_store {
                    self.ask(
                        Effect::SetSessionState { session, state: AgentSessionState::Closed },
                        Task::ClosedStopped(pane),
                    );
                } else {
                    self.drop_session(pane);
                }
            },
            None => self.drop_session(pane),
        }
    }

    /// Reports that a session's state could not be recorded.
    fn fail_recording(&mut self, error: String, now: Moment)
        ensures
            final(self)@ == old(self)@.noted(Message::SessionStore(error), now).with_overlay(None),
    {
        self.set_notice(Message::SessionStore(error), now);
        self.overlay = None;
    }

    /// Goes on after a stopped session was recorded as closed, or was not.
    pub fn handle_closed_stopped(
        &mut self,
        pane: PaneId,
        result: Result<(), String>,
        now: Moment,
    )
        ensures
            final(self)@ == old(self)@.closed_stopped_answered(pane, result, now),
    {
        proof {
            reveal(AppModel::closed_stopped_answered);
        }
        match result {
            Ok(_) => self.drop_session(pane),
            Err(error) => self.fail_recording(error, now),
        }
    }

    /// Goes on after a session was killed, or was not.
    pub fn handle_close_killed(
        &mut self,
        pane: PaneId,
        session: Option<String>,
        delivered: bool,
        now: Moment,
    )
        ensures
            final(self)@ == old(self)@.close_kill_answered(pane, session, delivered, now),
    {
        proof {
            reveal(AppModel::close_kill_answered);
        }
        if !delivered {
            self.set_notice(Message::StopDeliveryFailed, now);
            return;
        }
        self.workspace.set_state(pane, ProcessState::Stopping);
        match session {
            Some(session) => {
                if self.world.has_store {
                    self.ask(
                        Effect::SetSessionState { session, state: AgentSessionState::Closed },
                        Task::ClosedRunning(pane),
                    );
                } else {
                    self.retire_session(pane);
                }
            },
            None => self.retire_session(pane),
        }
    }

    /// Goes on after a killed session was recorded as closed, or was not.
    pub fn handle_closed_running(
        &mut self,
        pane: PaneId,
        result: Result<(), String>,
        now: Moment,
    )
        ensures
            final(self)@ == old(self)@.closed_running_answered(pane, result, now),
    {
        proof {
            reveal(AppModel::closed_running_answered);
        }
        match result {
            Ok(_) => self.retire_session(pane),
            Err(error) => self.fail_recording(error, now),
        }
    }

    /// Closes a session, asking first if it runs.
    pub fn confirm_session_close(&mut self, pane: PaneId, name: String)
        ensures
            final(self)@ == (if old(self)@.alive(pane) {
                old(self)@.with_overlay(
                    Some(
                        OverlayModel::ConfirmSessionClose {
                            prompt: Prompt::CloseSession(name),
                            pane,
                        },
                    ),
                )
            } else {
                old(self)@.session_closing(pane)
            }),
    {
        proof {
            reveal(AppModel::session_closing);
        }
        if self.panes.is_alive(pane) {
            self.overlay =
            Some(Overlay::ConfirmSessionClose { prompt: Prompt::CloseSession(name), pane });
        } else {
            self.close_agent_session(pane);
        }
    }

    /// Confirms closing the selected runtime agent session. A configured agent
    /// remains pinned because its lifecycle is owned by the config.
    pub fn confirm_close_selected_session(&mut self, now: Moment)
        ensures
            final(self)@ == old(self)@.selected_close_confirmation(now),
    {
        proof {
            reveal(AppModel::selected_close_confirmation);
        }
        let (kind, origin, pane, name) = match self.workspace.selected_process() {
            Some(process) => (process.kind, process.origin, process.id, process.name.clone()),
            None => return,
        };
        if kind != ProcessKind::Agent {
            return;
        }
        if origin != ProcessOrigin::Session {
            self.set_notice(Message::ConfiguredClose, now);
            return;
        }
        self.confirm_session_close(pane, name);
    }

    /// Opens the quick agent picker with resumable history and fresh presets.
    pub fn open_agent_picker(&mut self)
        ensures
            final(self)@ == old(self)@.picker_shown(),
    {
        proof {
            reveal(AppModel::picker_shown);
        }
        let mut error: Option<Message> = None;
        let recent: Vec<AgentSession> = match self.agent_sessions() {
            Ok(sessions) => match &self.catalog.current {
                Some(project) => recent_of(&sessions, project, RECENT_AGENT_LIMIT),
                None => Vec::new(),
            },
            Err(problem) => {
                error = Some(Message::Outside(problem));
                Vec::new()
            },
        };
        let mut items: Vec<AgentPickerItem> = Vec::new();
        let mut i: usize = 0;
        while i < recent.len()
            invariant
                i <= recent@.len(),
                items@ == recent@.take(i as int).map_values(
                    |session: AgentSession| AgentPickerItem::Recent(session),
                ),
            decreases recent@.len() - i,
        {
            items.push(AgentPickerItem::Recent(recent[i].copied()));
            i = i + 1;
            assert(items@ =~= recent@.take(i as int).map_values(
                |session: AgentSession| AgentPickerItem::Recent(session),
            ));
        }
        assert(recent@.take(i as int) =~= recent@);
        let tools: Vec<AgentTool> = agent_tool_options();
        let ghost head = items@;
        let mut k: usize = 0;
        assert(items@ =~= head + tools@.take(0).map_values(
            |tool: AgentTool| AgentPickerItem::New(tool),
        ));
        while k < tools.len()
            invariant
                k <= tools@.len(),
                items@ == head + tools@.take(k as int).map_values(
                    |tool: AgentTool| AgentPickerItem::New(tool),
                ),
            decreases tools@.len() - k,
        {
            items.push(AgentPickerItem::New(tools[k]));
            k = k + 1;
            assert(items@ =~= head + tools@.take(k as int).map_values(
                |tool: AgentTool| AgentPickerItem::New(tool),
            ));
        }
        assert(tools@.take(k as int) =~= tools@);
        assert(items@ =~= picker_items(recent@));
        self.overlay = Some(Overlay::AgentPicker(AgentPicker { items, selected: 0, error }));
        assert(self@ =~= old(self)@.picker_shown());
    }

    /// Creates a new agent conversation: first asks what it needs.
    pub fn create_agent_session(
        &mut self,
        tool: AgentTool,
        name: Option<String>,
        command: Option<String>,
        resume_command: Option<String>,
    )
        ensures
            final(self)@ == old(self)@.session_preparing(
                tool,
                opt_text(name),
                opt_text(command),
                opt_text(resume_command),
            ),
    {
        proof {
            reveal(AppModel::session_preparing);
        }
        let command: Option<String> = match command {
            Some(command) => Some(command),
            None => self.world.presets.default_command(tool),
        };
        self.ask(
            Effect::Prepare { tool, name, command, resume: resume_command },
            Task::Prepared,
        );
    }

    /// Goes on with what a new conversation needs: records it.
    pub fn handle_prepared(&mut self, prepared: Prepared, now: Moment)
        ensures
            final(self)@ == old(self)@.session_prepared(prepared, now),
    {
        proof {
            reveal(AppModel::session_prepared);
        }
        if prepared.resume.is_some() && !prepared.resume_valid {
            self.report_error(Message::ResumeTemplateInvalid, now);
            return;
        }
        let project: Location = match copy_location(&self.catalog.current) {
            Some(project) => project,
            None => return,
        };
        let command: String = match prepared.command {
            Some(command) => command,
            None => {
                self.report_error(Message::CommandRequired, now);
                return;
            },
        };
        if prepared.resume.is_none() && prepared.needs_resume {
            self.report_error(Message::CompoundResumeRequired, now);
            return;
        }
        let id: String = match prepared.id {
            Some(id) => id,
            None => {
                self.report_error(Message::SessionStoreFailed, now);
                return;
            },
        };
        let launch: String = match prepared.launch {
            Some(launch) => launch,
            None => {
                self.report_error(Message::CommandRequired, now);
                return;
            },
        };
        let name: String = match prepared.name {
            Some(name) => name,
            None => {
                let label: String = self.world.presets.name(prepared.tool);
                agent_name_from(&self.world.names, &self.workspace, &label, &id)
            },
        };
        let session: AgentSession = AgentSession {
            id,
            name,
            tool: prepared.tool,
            project,
            launch_command: command,
            working_dir: None,
            resume_command: prepared.resume,
            native_id: None,
            configured_key: None,
            state: AgentSessionState::Pending,
            restore: None,
            reopen: None,
            owner_process: None,
            owner_token: None,
            running_token: None,
            inferred_tool: prepared.tool,
        };
        self.ask(Effect::Record(session), Task::Recorded(launch));
    }

    /// Goes on after a new conversation was recorded: launches and attaches it.
    pub fn handle_recorded(
        &mut self,
        launch: String,
        stored: Result<AgentSession, String>,
        now: Moment,
    )
        ensures
            final(self)@ == old(self)@.session_recorded(launch, stored, now),
    {
        proof {
            reveal(AppModel::session_recorded);
        }
        match stored {
            Err(error) => self.report_error(Message::SessionStore(error), now),
            Ok(session) => self.insert_agent_session(
                session,
                AgentSessionActivation::StartAttached(launch),
                now,
            ),
        }
    }
}

/// Returns the names of the agents whose sessions stay where they are: those
/// that are live and those that the config lists, which another instance may
/// have added meanwhile.
pub fn kept_agent_names(live: Vec<String>, config: &WorkspaceConfig) -> (names: Vec<String>)
    ensures
        names@ == live@ + config@.agents.map_values(|spec: ProcessSpec| spec.name),
{
    let mut names: Vec<String> = live;
    let ghost listed = config@.agents.map_values(|spec: ProcessSpec| spec.name);
    let mut i: usize = 0;
    assert(live@ + listed.take(0) =~= live@);
    while i < config.agents.len()
        invariant
            i <= config@.agents.len(),
            listed == config@.agents.map_values(|spec: ProcessSpec| spec.name),
            names@ == live@ + listed.take(i as int),
        decreases config@.agents.len() - i,
    {
        names.push(config.agents[i].name.clone());
        i = i + 1;
        assert(names@ =~= live@ + listed.take(i as int));
    }
    assert(listed.take(i as int) =~= listed);
    names
}

/// The binding of each configured agent that lacks its session is on the agenda
/// once, and that of no other process.
pub proof fn each_unlinked_agent_is_linked_once(processes: Seq<Process>, panes: Seq<PaneModel>)
    requires
        forall|i: int, j: int|
            0 <= i < j < processes.len() ==> #[trigger] processes[i].id != #[trigger] processes[j].id,
    ensures
        forall|task: Task|
            #[trigger]
            link_tasks(processes, panes).contains(task) <==> exists|i: int|
                0 <= i < processes.len() && unlinked(#[trigger] processes[i], panes) && task
                    == Task::LinkAgent(processes[i].id),
        link_tasks(processes, panes).no_duplicates(),
    decreases processes.len(),
{
    let tasks = link_tasks(processes, panes);
    if processes.len() > 0 {
        let rest = processes.drop_first();
        let others = link_tasks(rest, panes);
        assert forall|i: int, j: int| 0 <= i < j < rest.len() implies #[trigger] rest[i].id
            != #[trigger] rest[j].id by {
            assert(rest[i] == processes[i + 1]);
            assert(rest[j] == processes[j + 1]);
        }
        each_unlinked_agent_is_linked_once(rest, panes);
        let first = Task::LinkAgent(processes[0].id);
        assert(!others.contains(first)) by {
            if others.contains(first) {
                let i = choose|i: int|
                    0 <= i < rest.len() && unlinked(#[trigger] rest[i], panes) && first
                        == Task::LinkAgent(rest[i].id);
                assert(rest[i] == processes[i + 1]);
                assert(processes[0].id != processes[i + 1].id);
            }
        }
        assert forall|task: Task| #[trigger] tasks.contains(task) implies exists|i: int|
            0 <= i < processes.len() && unlinked(#[trigger] processes[i], panes) && task
                == Task::LinkAgent(processes[i].id) by {
            let at = choose|at: int| 0 <= at < tasks.len() && tasks[at] == task;
            if at < others.len() {
                assert(others[at] == task);
                assert(others.contains(task));
                let i = choose|i: int|
                    0 <= i < rest.len() && unlinked(#[trigger] rest[i], panes) && task
                        == Task::LinkAgent(rest[i].id);
                assert(rest[i] == processes[i + 1]);
            } else {
                assert(unlinked(processes[0], panes));
            }
        }
        assert forall|i: int| 0 <= i < processes.len() && unlinked(#[trigger] processes[i], panes)
            implies tasks.contains(Task::LinkAgent(processes[i].id)) by {
            if i == 0 {
                assert(tasks.last() == first);
            } else {
                assert(rest[i - 1] == processes[i]);
                let task = Task::LinkAgent(processes[i].id);
                assert(others.contains(task));
                let at = choose|at: int| 0 <= at < others.len() && others[at] == task;
                assert(tasks[at] == task);
            }
        }
        assert forall|i: int, j: int| 0 <= i < tasks.len() && 0 <= j < tasks.len() && i != j
            implies tasks[i] != tasks[j] by {
            if i < others.len() && j < others.len() {
                assert(others[i] != others[j]);
            } else if i < others.len() {
                assert(others.contains(others[i]));
            } else if j < others.len() {
                assert(others.contains(others[j]));
            }
        }
    }
}

/// An answer of the session store links the agent that was asked for and touches
/// no other process; a failure links none and is shown.
pub proof fn a_link_touches_one_agent(
    app: AppModel,
    pane: PaneId,
    linked: Result<String, String>,
    other: PaneId,
    now: Moment,
)
    ensures
        other != pane ==> app.link_answered(pane, linked, now).roster.process(other)
            == app.roster.process(other),
        linked is Ok && app.roster.process(pane) is Some ==> app.link_answered(
            pane,
            linked,
            now,
        ).roster.process(pane) == Some(
            Process { agent_session_id: Some(linked->Ok_0), ..app.roster.process(pane)->0 },
        ),
        linked is Err ==> app.link_answered(pane, linked, now) == app.noted(
            Message::SessionStore(linked->Err_0),
            now,
        ) && app.link_answered(pane, linked, now).roster == app.roster,
{
    reveal(AppModel::link_answered);
    a_link_is_found_again(app.roster, pane, other, linked->Ok_0);
}

/// The application after the session store gave each of some agents its session.
pub open spec fn links_answered(
    app: AppModel,
    answers: Seq<(PaneId, String)>,
    now: Moment,
) -> AppModel
    decreases answers.len(),
{
    if answers.len() == 0 {
        app
    } else {
        links_answered(app, answers.drop_last(), now).link_answered(
            answers.last().0,
            Ok(answers.last().1),
            now,
        )
    }
}

/// Answers of the session store change nothing of a process but its session, and
/// leave none without that they name.
proof fn answers_give_sessions(app: AppModel, answers: Seq<(PaneId, String)>, now: Moment)
    requires
        app.roster.orderly(),
    ensures
        ({
            let after = links_answered(app, answers, now);
            &&& after == (AppModel { roster: after.roster, ..app })
            &&& after.roster.orderly()
            &&& after.roster.processes.len() == app.roster.processes.len()
            &&& forall|i: int|
                #![trigger after.roster.processes[i]]
                0 <= i < app.roster.processes.len() ==> {
                    let before = app.roster.processes[i];
                    let process = after.roster.processes[i];
                    &&& process == (Process {
                        agent_session_id: process.agent_session_id,
                        ..before
                    })
                    &&& before.agent_session_id is Some ==> process.agent_session_id is Some
                    &&& (exists|j: int|
                        0 <= j < answers.len() && (#[trigger] answers[j]).0 == before.id)
                        ==> process.agent_session_id is Some
                }
        }),
    decreases answers.len(),
{
    reveal(AppModel::link_answered);
    if answers.len() > 0 {
        let earlier = answers.drop_last();
        answers_give_sessions(app, earlier, now);
        let middle = links_answered(app, earlier, now);
        let after = links_answered(app, answers, now);
        let pane = answers.last().0;
        position_is_the_first(middle.roster.processes, pane);
        if middle.roster.process(pane) is Some {
            let at = position(middle.roster.processes, pane)->0;
            replacing_keeps_order(middle.roster, at, after.roster.processes[at]);
        }
        assert forall|i: int| 0 <= i < app.roster.processes.len() implies {
            let before = app.roster.processes[i];
            let process = #[trigger] after.roster.processes[i];
            &&& process == (Process { agent_session_id: process.agent_session_id, ..before })
            &&& before.agent_session_id is Some ==> process.agent_session_id is Some
            &&& (exists|j: int| 0 <= j < answers.len() && (#[trigger] answers[j]).0 == before.id)
                ==> process.agent_session_id is Some
        } by {
            let before = app.roster.processes[i];
            let held = middle.roster.processes[i];
            if exists|j: int| 0 <= j < answers.len() && (#[trigger] answers[j]).0 == before.id {
                let j = choose|j: int|
                    0 <= j < answers.len() && (#[trigger] answers[j]).0 == before.id;
                if j < earlier.len() {
                    assert(earlier[j].0 == before.id);
                }
            }
        }
    }
}

/// Linking is idempotent: where no configured agent lacks its session it changes
/// nothing, and after every agent that lacked one got it, none lacks one.
pub proof fn linked_agents_are_not_linked_again(
    app: AppModel,
    answers: Seq<(PaneId, String)>,
    now: Moment,
)
    ensures
        (forall|i: int|
            0 <= i < app.roster.processes.len() ==> !unlinked(
                #[trigger] app.roster.processes[i],
                app.panes,
            )) ==> app.linking() == app,
        app.roster.orderly() && (forall|i: int|
            0 <= i < app.roster.processes.len() && unlinked(
                #[trigger] app.roster.processes[i],
                app.panes,
            ) ==> exists|j: int|
                0 <= j < answers.len() && (#[trigger] answers[j]).0 == app.roster.processes[i].id)
            ==> links_answered(app, answers, now).linking() == links_answered(app, answers, now),
{
    linking_the_linked_changes_nothing(app);
    let after = links_answered(app, answers, now);
    if app.roster.orderly() {
        answers_give_sessions(app, answers, now);
        linking_the_linked_changes_nothing(after);
    }
}

/// Where no configured agent lacks its session, linking changes nothing.
proof fn linking_the_linked_changes_nothing(app: AppModel)
    ensures
        (forall|i: int|
            0 <= i < app.roster.processes.len() ==> !unlinked(
                #[trigger] app.roster.processes[i],
                app.panes,
            )) ==> app.linking() == app,
{
    reveal(AppModel::linking);
    if forall|i: int|
        0 <= i < app.roster.processes.len() ==> !unlinked(
            #[trigger] app.roster.processes[i],
            app.panes,
        ) {
        no_agent_is_left(app.roster.processes, app.panes);
        assert(app.agenda + link_tasks(app.roster.processes, app.panes) =~= app.agenda);
    }
}

/// Where no configured agent lacks its session, none is to be linked.
proof fn no_agent_is_left(processes: Seq<Process>, panes: Seq<PaneModel>)
    requires
        forall|i: int|
            0 <= i < processes.len() ==> !unlinked(#[trigger] processes[i], panes),
    ensures
        link_tasks(processes, panes).len() == 0,
    decreases processes.len(),
{
    if processes.len() > 0 {
        let rest = processes.drop_first();
        assert forall|i: int| 0 <= i < rest.len() implies !unlinked(#[trigger] rest[i], panes) by {
            assert(rest[i] == processes[i + 1]);
        }
        no_agent_is_left(rest, panes);
    }
}

} // verus!
