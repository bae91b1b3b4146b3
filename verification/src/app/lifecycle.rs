//! The lifecycle of processes: starting, stopping and starting again.

use vstd::prelude::*;
use crate::activity::{strategy_of, ActivityTracker};
use crate::app::{App, AppModel};
use crate::effect::{Effect, EffectModel, LaunchPurpose, SpawnRequest, Task};
use crate::emulator::{opened_screen, TerminalEmulator};
use crate::geometry::{pane_size_of, PaneSize};
use crate::ledger::{
    backoff_millis, restart_delay, restart_delays_grow_up_to_a_bound, RESTART_BACKOFF_MAX_MILLIS,
    RESTART_STABLE_RUN_MILLIS,
};
use crate::location::{resolve_spawn_paths, spawn_directory};
use crate::message::Message;
use crate::moment::Moment;
use crate::pane::{
    a_finished_process_keeps_its_screen, life_of, pane_alive, pane_of, with_life, with_pane,
    without_pane, ConfigMembership, Pane, PaneLife, PaneModel,
};
use crate::process::{
    after_exit, exit_decision, ActivityState, AgentActivitySource, ExitDecision, ExitIntent,
    ExitOutcome, PaneId, ProcessState,
};
use crate::session::{find_session, session_at, AgentSessionState};
use crate::text::copy_opt;
use crate::workspace::a_changed_process_is_found_again;

verus! {

/// Lines of history that each pane's terminal retains.
pub const SCROLLBACK_LINES: usize = 1000;

/// What the next spawn of a pane runs: nothing can be run, or a command (the
/// login shell where it is absent) in a directory.
pub type SpawnDetails = Option<(Option<String>, Option<String>)>;

/// How often a restart was tried after one more attempt.
pub open spec fn one_more(attempts: u64) -> u64 {
    if attempts < u64::MAX {
        (attempts + 1) as u64
    } else {
        u64::MAX
    }
}

impl AppModel {
    /// The application with another lifetime in a pane.
    pub open spec fn with_life(self, pane: PaneId, life: PaneLife) -> AppModel {
        AppModel { panes: with_life(self.panes, pane, life), ..self }
    }

    /// The lifetime of a pane.
    pub open spec fn life(self, pane: PaneId) -> Option<PaneLife> {
        life_of(self.panes, pane)
    }

    /// Whether a pane's process is alive.
    pub open spec fn alive(self, pane: PaneId) -> bool {
        pane_alive(self.panes, pane)
    }

    /// The application with a process in another state.
    pub open spec fn with_state(self, pane: PaneId, state: ProcessState) -> AppModel {
        AppModel { roster: self.roster.with_state(pane, state), ..self }
    }

    /// The application with a process in another activity.
    pub open spec fn with_activity(self, pane: PaneId, activity: ActivityState) -> AppModel {
        AppModel { roster: self.roster.with_activity(pane, activity), ..self }
    }

    /// The application with a superseded spawn generation.
    pub open spec fn bumped(self, pane: PaneId) -> AppModel {
        AppModel { ledger: self.ledger.bumped(pane), ..self }
    }

    /// The application without the process of a pane, whose screen stays.
    pub open spec fn deactivated(self, pane: PaneId) -> AppModel {
        match self.life(pane) {
            Some(life) => self.with_life(pane, life.deactivated()),
            None => self,
        }
    }

    /// The application without a pane that no longer belongs in the workspace.
    pub open spec fn retired(self, pane: PaneId) -> AppModel {
        AppModel {
            panes: without_pane(self.panes, pane),
            ledger: self.ledger.retired(pane),
            roster: self.roster.removed(pane),
            ..self
        }
    }

    /// The application with a restart that follows after a backoff. A process
    /// that ran long enough starts counting anew.
    pub open spec fn restart_scheduled(self, pane: PaneId, started_at: Moment, now: Moment) -> AppModel {
        let attempts = if now.is_past(started_at, RESTART_STABLE_RUN_MILLIS) {
            0
        } else {
            self.ledger.attempts_of(pane)
        };
        let counted = AppModel {
            ledger: self.ledger.with_attempts(pane, one_more(attempts)),
            ..self
        };
        counted.bumped(pane).told(
            Effect::RespawnAfter {
                pane,
                generation: counted.ledger.next_generation(pane),
                millis: restart_delay(attempts) as u64,
            },
        )
    }

    /// The agent session of a pane's process.
    pub open spec fn session_of(self, pane: PaneId) -> Option<String> {
        match self.roster.process(pane) {
            Some(process) => process.agent_session_id,
            None => None,
        }
    }

    /// What the next spawn of a pane runs. A pane with a session runs what
    /// restores the session, and nothing when that is unknown.
    pub open spec fn command_of(self, pane: PaneId) -> Result<SpawnDetails, String> {
        match self.roster.process(pane) {
            None => Ok(None),
            Some(process) => match process.agent_session_id {
                None => Ok(Some((process.command, process.working_dir))),
                Some(session) => match self.world.agent_sessions() {
                    Err(error) => Err(error),
                    Ok(sessions) => match session_at(sessions, session@) {
                        None => Ok(None),
                        Some(found) => match found.restore {
                            None => Ok(None),
                            Some(command) => Ok(Some((Some(command), process.working_dir))),
                        },
                    },
                },
            },
        }
    }

    /// The application that asked for a process to be started.
    pub open spec fn spawning(
        self,
        pane: PaneId,
        command: Option<String>,
        working_dir: Option<String>,
        now: Moment,
    ) -> AppModel {
        let session = self.session_of(pane);
        let recorded = session is Some && self.world.has_store;
        let noted = if recorded && self.world.state_file is Err {
            self.bumped(pane).noted(Message::SessionStore(self.world.state_file->Err_0), now)
        } else {
            self.bumped(pane)
        };
        noted.asked(
            EffectModel::Plain(
                Effect::Spawn(
                    SpawnRequest {
                        pane,
                        generation: self.ledger.next_generation(pane),
                        command,
                        directory: spawn_directory(self.catalog.current, working_dir),
                        project: self.catalog.current,
                        session,
                        state_file: if recorded && self.world.state_file is Ok {
                            self.world.state_file->Ok_0
                        } else {
                            None
                        },
                        size: self.pane_size(),
                    },
                ),
            ),
            Task::Spawned { pane, session },
        )
    }

    /// The source of activity evidence of a pane's process.
    pub open spec fn evidence_of(self, pane: PaneId) -> AgentActivitySource {
        match self.roster.process(pane) {
            Some(process) => strategy_of(process),
            None => AgentActivitySource::Output,
        }
    }

    /// The application with a started process in a pane with a blank screen.
    pub open spec fn installed(self, pane: PaneId, now: Moment) -> AppModel {
        let fresh = PaneModel {
            id: pane,
            screen: opened_screen(
                self.pane_size().rows,
                self.pane_size().cols,
                SCROLLBACK_LINES,
                self.world.host_colors,
            ),
            life: PaneLife::started(self.ledger.next_scope, self.evidence_of(pane), now),
        };
        AppModel {
            ledger: self.ledger.scoped(),
            panes: with_pane(self.panes, fresh),
            roster: self.roster.with_state(pane, ProcessState::Running).with_activity(
                pane,
                ActivityState::Idle,
            ),
            ..self
        }
    }

    /// The application that learned whether a process started. One that did not
    /// is started again as its policy says for a failure, or has crashed.
    #[verifier::opaque]
    pub open spec fn spawn_answered(
        self,
        pane: PaneId,
        session: Option<String>,
        started: bool,
        now: Moment,
    ) -> AppModel {
        if started {
            if session is Some && self.world.has_store {
                self.asked(
                    EffectModel::Plain(
                        Effect::SetSessionState {
                            session: session->0,
                            state: AgentSessionState::Open,
                        },
                    ),
                    Task::SessionOpened(pane),
                )
            } else {
                self.installed(pane, now)
            }
        } else if self.roster.should_restart(pane, ExitOutcome::Failed) {
            self.deactivated(pane).with_state(pane, ProcessState::Restarting).restart_scheduled(
                pane,
                now,
                now,
            )
        } else {
            self.deactivated(pane).with_state(pane, ProcessState::Crashed)
        }
    }

    /// The application that learned whether a started session was recorded as
    /// open. A process whose session could not be recorded is killed.
    #[verifier::opaque]
    pub open spec fn session_open_answered(
        self,
        pane: PaneId,
        result: Result<(), String>,
        now: Moment,
    ) -> AppModel {
        match result {
            Ok(_) => self.installed(pane, now),
            Err(error) => self.told(Effect::Discard(pane)).deactivated(pane).with_state(
                pane,
                ProcessState::Crashed,
            ).noted(Message::SessionStore(error), now),
        }
    }

    /// The application that gave a pane up: its process is gone and crashed.
    pub open spec fn settled(self, pane: PaneId, message: Message, now: Moment) -> AppModel {
        self.deactivated(pane).with_state(pane, ProcessState::Crashed).noted(message, now)
    }

    /// Whether another instance holds the conversation of a pane that does not
    /// run here. A launch would lose the claim and crash the pane only after it
    /// needlessly started a provider.
    pub open spec fn held_elsewhere(self, pane: PaneId) -> bool {
        !self.alive(pane) && self.session_owned_elsewhere(pane)
    }

    /// The application that launches a pane, or says why it does not. A pane
    /// whose conversation another instance holds is not launched; a restart of it
    /// ends there.
    #[verifier::opaque]
    pub open spec fn launched(self, pane: PaneId, purpose: LaunchPurpose, now: Moment) -> AppModel {
        if self.held_elsewhere(pane) {
            match purpose {
                LaunchPurpose::Restart => self.deactivated(pane).with_state(
                    pane,
                    ProcessState::Crashed,
                ),
                _ => self,
            }
        } else {
            match self.command_of(pane) {
                Ok(Some(details)) => self.spawning(pane, details.0, details.1, now),
                Ok(None) => match purpose {
                    LaunchPurpose::Requested => self.noted(Message::NotResumable, now),
                    LaunchPurpose::Automatic => self,
                    LaunchPurpose::Restart => self.settled(pane, Message::NotResumable, now),
                },
                Err(error) => match purpose {
                    LaunchPurpose::Restart => self.settled(pane, Message::SessionStore(error), now),
                    _ => self.noted(Message::SessionStore(error), now),
                },
            }
        }
    }

    /// The application after a process exited.
    pub open spec fn exited(self, pane: PaneId, outcome: ExitOutcome, now: Moment) -> AppModel {
        match self.life(pane) {
            None => self,
            Some(life) => {
                let decision = exit_decision(
                    life.exit_intent,
                    life.membership == ConfigMembership::RetireOnExit,
                    self.roster.should_restart(pane, outcome),
                    outcome,
                );
                let idle = self.with_activity(pane, ActivityState::Idle);
                match decision {
                    ExitDecision::Retire => {
                        let reopen = crate::ledger::value_of(self.ledger.reopens, pane);
                        let cleared = AppModel { ledger: self.ledger.without_reopen(pane), ..self };
                        let gone = cleared.retired(pane);
                        let queued = match reopen {
                            Some(session) => gone.later(Task::Reopen(session)),
                            None => gone,
                        };
                        queued.later(Task::Advance(pane))
                    },
                    ExitDecision::Stop => idle.deactivated(pane).with_state(
                        pane,
                        ProcessState::Exited,
                    ).later(Task::Advance(pane)),
                    ExitDecision::RestartNow => {
                        let forgiven = AppModel {
                            ledger: idle.ledger.without_attempts(pane),
                            ..idle
                        };
                        forgiven.with_state(pane, ProcessState::Restarting).later(
                            Task::Advance(pane),
                        ).launched(pane, LaunchPurpose::Restart, now)
                    },
                    ExitDecision::RestartLater => idle.with_state(
                        pane,
                        ProcessState::Restarting,
                    ).deactivated(pane).restart_scheduled(pane, life.started_at, now).later(
                        Task::Advance(pane),
                    ),
                    ExitDecision::Settle(state) => idle.deactivated(pane).with_state(
                        pane,
                        state,
                    ).later(Task::Advance(pane)),
                }
            },
        }
    }
}

impl App {
    /// Replaces the lifetime of a pane.
    pub fn set_life(&mut self, pane: PaneId, life: PaneLife)
        ensures
            final(self)@ == old(self)@.with_life(pane, life),
    {
        self.panes.set_life(pane, life);
    }

    /// Invalidates pending respawns and returns the new generation.
    pub fn bump_generation(&mut self, pane: PaneId) -> (generation: u64)
        ensures
            generation == old(self)@.ledger.next_generation(pane),
            final(self)@ == old(self)@.bumped(pane),
    {
        self.ledger.bump_generation(pane)
    }

    /// Drops a live process while retaining the final terminal screen.
    pub fn deactivate(&mut self, pane: PaneId)
        ensures
            final(self)@ == old(self)@.deactivated(pane),
    {
        if let Some(mut life) = self.panes.life(pane) {
            life.deactivate();
            self.set_life(pane, life);
        }
    }

    /// Retires a process that no longer belongs in the workspace.
    pub fn retire_pane(&mut self, pane: PaneId)
        ensures
            final(self)@ == old(self)@.retired(pane),
    {
        self.panes.remove(pane);
        self.ledger.retire(pane);
        self.workspace.remove(pane);
    }

    /// Schedules a backoff restart and tags it with the current generation.
    pub fn schedule_restart(&mut self, pane: PaneId, started_at: Moment, now: Moment)
        ensures
            final(self)@ == old(self)@.restart_scheduled(pane, started_at, now),
    {
        let attempts: u64 = if now.elapsed_at_least(started_at, RESTART_STABLE_RUN_MILLIS) {
            0
        } else {
            self.ledger.attempts_of(pane)
        };
        let millis: u64 = backoff_millis(attempts);
        self.ledger.set_attempts(pane, attempts.saturating_add(1));
        let generation: u64 = self.bump_generation(pane);
        self.send(Effect::RespawnAfter { pane, generation, millis });
    }

    /// Returns the command and working directory for a pane's next spawn.
    pub fn command_of(&self, pane: PaneId) -> (details: Result<SpawnDetails, String>)
        ensures
            details == self@.command_of(pane),
    {
        let process = match self.workspace.process(pane) {
            Some(process) => process,
            None => return Ok(None),
        };
        let session: String = match &process.agent_session_id {
            Some(session) => session.clone(),
            None => {
                return Ok(Some((copy_opt(&process.command), copy_opt(&process.working_dir))));
            },
        };
        match self.agent_sessions() {
            Err(error) => Err(error),
            Ok(sessions) => match find_session(&sessions, &session) {
                None => Ok(None),
                Some(found) => match found.restore {
                    None => Ok(None),
                    Some(command) => Ok(Some((Some(command), copy_opt(&process.working_dir)))),
                },
            },
        }
    }

    /// Returns the agent session of a pane's process.
    pub fn session_of(&self, pane: PaneId) -> (session: Option<String>)
        ensures
            session == self@.session_of(pane),
    {
        match self.workspace.process(pane) {
            Some(process) => copy_opt(&process.agent_session_id),
            None => None,
        }
    }

    /// Spawns a process and connects its terminal to the runtime event stream.
    /// The outcome comes back as the answer to the question it asks.
    pub fn spawn(
        &mut self,
        pane: PaneId,
        command: Option<String>,
        working_dir: Option<String>,
        now: Moment,
    )
        ensures
            final(self)@ == old(self)@.spawning(pane, command, working_dir, now),
    {
        let session: Option<String> = self.session_of(pane);
        let generation: u64 = self.bump_generation(pane);
        let (project, directory) = resolve_spawn_paths(&self.catalog.current, &working_dir);
        let mut state_file: Option<String> = None;
        if session.is_some() && self.world.has_store {
            let found: Result<Option<String>, String> = match &self.world.state_file {
                Ok(path) => Ok(copy_opt(path)),
                Err(error) => Err(error.clone()),
            };
            match found {
                Ok(path) => {
                    state_file = path;
                },
                Err(error) => self.set_notice(Message::SessionStore(error), now),
            }
        }
        let task: Task = Task::Spawned { pane, session: copy_opt(&session) };
        let size: PaneSize = pane_size_of(self.canvas.area);
        self.ask(
            Effect::Spawn(
                SpawnRequest {
                    pane,
                    generation,
                    command,
                    directory,
                    project,
                    session,
                    state_file,
                    size,
                },
            ),
            task,
        );
    }

    /// Puts a started process into its pane, with a blank screen and a
    /// notification scope of its own.
    fn install(&mut self, pane: PaneId, now: Moment)
        ensures
            final(self)@ == old(self)@.installed(pane, now),
    {
        let activity: ActivityTracker = match self.workspace.process(pane) {
            Some(process) => ActivityTracker::for_process(process),
            None => ActivityTracker::new(),
        };
        let scope: u64 = self.ledger.allocate_notification_scope();
        let size: PaneSize = pane_size_of(self.canvas.area);
        self.panes.put(
            Pane {
                id: pane,
                screen: TerminalEmulator::new(
                    size.rows,
                    size.cols,
                    SCROLLBACK_LINES,
                    self.world.host_colors,
                ),
                life: PaneLife::start(scope, activity, now),
            },
        );
        self.workspace.set_state(pane, ProcessState::Running);
        self.workspace.set_activity(pane, ActivityState::Idle);
    }

    /// Goes on after a process started or failed to.
    pub fn handle_spawned(
        &mut self,
        pane: PaneId,
        session: Option<String>,
        started: bool,
        now: Moment,
    )
        ensures
            final(self)@ == old(self)@.spawn_answered(pane, session, started, now),
    {
        proof {
            reveal(AppModel::spawn_answered);
        }
        if started {
            match session {
                Some(session) => {
                    if self.world.has_store {
                        self.ask(
                            Effect::SetSessionState { session, state: AgentSessionState::Open },
                            Task::SessionOpened(pane),
                        );
                    } else {
                        self.install(pane, now);
                    }
                },
                None => self.install(pane, now),
            }
        } else {
            let again: bool = self.workspace.should_restart(pane, ExitOutcome::Failed);
            self.deactivate(pane);
            if again {
                self.workspace.set_state(pane, ProcessState::Restarting);
                self.schedule_restart(pane, now, now);
            } else {
                self.workspace.set_state(pane, ProcessState::Crashed);
            }
        }
    }

    /// Goes on after a started session was recorded as open, or was not.
    pub fn handle_session_opened(
        &mut self,
        pane: PaneId,
        result: Result<(), String>,
        now: Moment,
    )
        ensures
            final(self)@ == old(self)@.session_open_answered(pane, result, now),
    {
        proof {
            reveal(AppModel::session_open_answered);
        }
        match result {
            Ok(_) => self.install(pane, now),
            Err(error) => {
                self.send(Effect::Discard(pane));
                self.deactivate(pane);
                self.workspace.set_state(pane, ProcessState::Crashed);
                self.set_notice(Message::SessionStore(error), now);
            },
        }
    }

    /// Settles a restart that cannot go on.
    fn settle_restart(&mut self, pane: PaneId, message: Message, now: Moment)
        ensures
            final(self)@ == old(self)@.settled(pane, message, now),
    {
        self.deactivate(pane);
        self.workspace.set_state(pane, ProcessState::Crashed);
        self.set_notice(message, now);
    }

    /// Returns whether another instance holds the conversation of a pane that
    /// does not run here.
    pub fn is_held_elsewhere(&self, pane: PaneId) -> (held: bool)
        ensures
            held == self@.held_elsewhere(pane),
    {
        !self.panes.is_alive(pane) && self.agent_session_owned_by_live_process(pane)
    }

    /// Launches a pane, or says why not.
    pub fn launch(&mut self, pane: PaneId, purpose: LaunchPurpose, now: Moment)
        ensures
            final(self)@ == old(self)@.launched(pane, purpose, now),
    {
        proof {
            reveal(AppModel::launched);
        }
        if self.is_held_elsewhere(pane) {
            if let LaunchPurpose::Restart = purpose {
                self.deactivate(pane);
                self.workspace.set_state(pane, ProcessState::Crashed);
            }
            return;
        }
        match self.command_of(pane) {
            Ok(Some((command, working_dir))) => self.spawn(pane, command, working_dir, now),
            Ok(None) => match purpose {
                LaunchPurpose::Requested => self.set_notice(Message::NotResumable, now),
                LaunchPurpose::Automatic => {},
                LaunchPurpose::Restart => self.settle_restart(pane, Message::NotResumable, now),
            },
            Err(error) => match purpose {
                LaunchPurpose::Restart => {
                    self.settle_restart(pane, Message::SessionStore(error), now)
                },
                _ => self.set_notice(Message::SessionStore(error), now),
            },
        }
    }

    /// Applies the lifecycle decision to one exit event.
    pub fn handle_exit(&mut self, pane: PaneId, outcome: ExitOutcome, now: Moment)
        ensures
            final(self)@ == old(self)@.exited(pane, outcome, now),
    {
        let life: PaneLife = match self.panes.life(pane) {
            Some(life) => life,
            None => return,
        };
        let decision: ExitDecision = after_exit(
            life.exit_intent,
            life.membership == ConfigMembership::RetireOnExit,
            self.workspace.should_restart(pane, outcome),
            outcome,
        );
        if let ExitDecision::Retire = decision {
            let reopen: Option<String> = self.ledger.take_reopen(pane);
            self.retire_pane(pane);
            if let Some(session) = reopen {
                self.defer(Task::Reopen(session));
            }
            self.defer(Task::Advance(pane));
            return;
        }
        self.workspace.set_activity(pane, ActivityState::Idle);
        match decision {
            ExitDecision::Retire => {},
            ExitDecision::Stop => {
                self.deactivate(pane);
                self.workspace.set_state(pane, ProcessState::Exited);
                self.defer(Task::Advance(pane));
            },
            ExitDecision::RestartNow => {
                self.ledger.forget_attempts(pane);
                self.workspace.set_state(pane, ProcessState::Restarting);
                self.defer(Task::Advance(pane));
                self.launch(pane, LaunchPurpose::Restart, now);
            },
            ExitDecision::RestartLater => {
                self.workspace.set_state(pane, ProcessState::Restarting);
                self.deactivate(pane);
                self.schedule_restart(pane, life.started_at, now);
                self.defer(Task::Advance(pane));
            },
            ExitDecision::Settle(state) => {
                self.deactivate(pane);
                self.workspace.set_state(pane, state);
                self.defer(Task::Advance(pane));
            },
        }
    }
}

/// A conversation that another instance holds is not started here a second time:
/// neither a request nor an autostart changes anything, and no launch asks the
/// host for a process.
pub proof fn a_conversation_runs_in_one_place(
    app: AppModel,
    pane: PaneId,
    purpose: LaunchPurpose,
    now: Moment,
)
    requires
        app.held_elsewhere(pane),
    ensures
        purpose != LaunchPurpose::Restart ==> app.launched(pane, purpose, now) == app,
        app.launched(pane, purpose, now).outbox == app.outbox,
        app.launched(pane, purpose, now).waiting == app.waiting,
        app.pane_restarted(pane, now).outbox == app.outbox,
        app.pane_restarted(pane, now).waiting == app.waiting,
{
    reveal(AppModel::launched);
}

/// A process that exits keeps its last screen, unless its pane leaves the
/// workspace with it.
pub proof fn an_exit_keeps_the_last_screen(
    app: AppModel,
    pane: PaneId,
    outcome: ExitOutcome,
    now: Moment,
)
    requires
        app.life(pane) matches Some(life) && life.membership != ConfigMembership::RetireOnExit,
    ensures
        pane_of(app.exited(pane, outcome, now).panes, pane) matches Some(after) && after.screen
            == pane_of(app.panes, pane)->0.screen,
{
    reveal(AppModel::launched);
    a_finished_process_keeps_its_screen(app.panes, pane);
}

/// A process that nobody stopped and that exits is started again after a pause
/// exactly where its restart policy says so; the request for it is current, so
/// that it is not ignored when its time comes. Else a failure leaves it crashed
/// and a success leaves it exited.
pub proof fn an_exit_follows_the_restart_policy(
    app: AppModel,
    pane: PaneId,
    outcome: ExitOutcome,
    now: Moment,
)
    requires
        app.life(pane) matches Some(life) && life.membership != ConfigMembership::RetireOnExit
            && life.exit_intent == ExitIntent::FollowPolicy,
        app.roster.process(pane) is Some,
    ensures
        app.roster.should_restart(pane, outcome) ==> {
            let after = app.exited(pane, outcome, now);
            &&& after.roster.process(pane)->0.state == ProcessState::Restarting
            &&& after.outbox.len() == app.outbox.len() + 1
            &&& after.outbox.last() matches EffectModel::Plain(
                Effect::RespawnAfter { pane: again, generation, millis },
            ) && again == pane && after.ledger.generation(pane) == Some(generation) && millis
                <= RESTART_BACKOFF_MAX_MILLIS
        },
        !app.roster.should_restart(pane, outcome) ==> {
            let after = app.exited(pane, outcome, now);
            &&& after.roster.process(pane)->0.state == if outcome == ExitOutcome::Failed {
                ProcessState::Crashed
            } else {
                ProcessState::Exited
            }
            &&& after.outbox == app.outbox
        },
{
    let idle = app.roster.with_activity(pane, ActivityState::Idle);
    a_changed_process_is_found_again(app.roster, pane, ProcessState::Restarting, ActivityState::Idle);
    a_changed_process_is_found_again(idle, pane, ProcessState::Restarting, ActivityState::Idle);
    a_changed_process_is_found_again(idle, pane, ProcessState::Crashed, ActivityState::Idle);
    a_changed_process_is_found_again(idle, pane, ProcessState::Exited, ActivityState::Idle);
    assert forall|attempts: u64| #[trigger] restart_delay(attempts)
        <= RESTART_BACKOFF_MAX_MILLIS by {
        restart_delays_grow_up_to_a_bound(attempts);
    }
}

} // verus!
