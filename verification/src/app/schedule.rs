//! The order of things: answers meet the tasks that wait for them, the agenda is
//! worked off, and events reach their handlers.

use vstd::prelude::*;
use crate::app::entries::{appended_sections, edited_sections};
use crate::app::projects::sections_of;
use crate::app::{App, AppModel};
use crate::effect::{Reply, Task};
use crate::event::{InputEvent, RuntimeEvent};
use crate::form::texts;
use crate::geometry::Rect;
use crate::moment::Moment;

verus! {

impl AppModel {
    /// The application after an answer about a process. An answer of another kind
    /// than the question is ignored.
    #[verifier::opaque]
    pub open spec fn process_answered(self, task: Task, reply: Reply, now: Moment) -> AppModel {
        match task {
            Task::Spawned { pane, session } => match reply {
                Reply::Done(done) => self.spawn_answered(pane, session, done, now),
                _ => self,
            },
            Task::Paused { pane, pause } => match reply {
                Reply::Done(done) => self.pause_answered(pane, pause, done),
                _ => self,
            },
            Task::Terminated {
                pane,
                restart,
                grace_millis,
                spawn_generation,
                shutdown_generation,
            } => match reply {
                Reply::Done(done) => self.terminate_answered(
                    pane,
                    restart,
                    grace_millis,
                    spawn_generation,
                    shutdown_generation,
                    done,
                ),
                _ => self,
            },
            Task::Killed { pane, restart, fallback } => match reply {
                Reply::Done(done) => self.kill_answered(pane, restart, fallback, done, now),
                _ => self,
            },
            Task::ForceStopped(pane) => match reply {
                Reply::Done(done) => self.kill_answered(pane, false, false, done, now),
                _ => self,
            },
            Task::Escalated(pane) => match reply {
                Reply::Done(done) => self.escalation_answered(pane, done, now),
                _ => self,
            },
            Task::SwitchKilled(pane) => match reply {
                Reply::Done(done) => self.switch_kill_answered(pane, done),
                _ => self,
            },
            Task::CloseKilled { pane, session } => match reply {
                Reply::Done(done) => self.close_kill_answered(pane, session, done, now),
                _ => self,
            },
            _ => self,
        }
    }

    /// The application after an answer about a session. An answer of another kind
    /// than the question is ignored.
    #[verifier::opaque]
    pub open spec fn session_answered(self, task: Task, reply: Reply, now: Moment) -> AppModel {
        match task {
            Task::SessionOpened(pane) => match reply {
                Reply::Wrote(result) => self.session_open_answered(pane, result, now),
                _ => self,
            },
            Task::OrphansRetired => match reply {
                Reply::Wrote(result) => self.history_answered(result, now),
                _ => self,
            },
            Task::ClosedStopped(pane) => match reply {
                Reply::Wrote(result) => self.closed_stopped_answered(pane, result, now),
                _ => self,
            },
            Task::ClosedRunning(pane) => match reply {
                Reply::Wrote(result) => self.closed_running_answered(pane, result, now),
                _ => self,
            },
            Task::Reopened { session, command } => match reply {
                Reply::Wrote(result) => self.reopen_answered(session, command, result, now),
                _ => self,
            },
            Task::Linked(pane) => match reply {
                Reply::Linked(linked) => self.link_answered(pane, linked, now),
                _ => self,
            },
            Task::Prepared => match reply {
                Reply::Prepared(prepared) => self.session_prepared(prepared, now),
                _ => self,
            },
            Task::Recorded(launch) => match reply {
                Reply::Stored(stored) => self.session_recorded(launch, stored, now),
                _ => self,
            },
            _ => self,
        }
    }

    /// The application after an answer about a project. An answer of another kind
    /// than the question is ignored.
    #[verifier::opaque]
    pub open spec fn project_answered(self, task: Task, reply: Reply, now: Moment) -> AppModel {
        match task {
            Task::SwitchLoaded => match reply {
                Reply::Opened { config, .. } => self.switch_completed(sections_of(config)),
                _ => self,
            },
            Task::SwitcherOpened { row, project } => match reply {
                Reply::Opened { config, exists } => self.switcher_opened(
                    row,
                    project,
                    sections_of(config),
                    exists,
                    now,
                ),
                _ => self,
            },
            Task::ProjectOpened(project) => match reply {
                Reply::Opened { config, exists } => self.project_opened(
                    project,
                    sections_of(config),
                    exists,
                    now,
                ),
                _ => self,
            },
            Task::Previewed => match reply {
                Reply::Opened { config, .. } => self.previewed(sections_of(config)),
                _ => self,
            },
            Task::ScaffoldAdopted { project, preimage } => match reply {
                Reply::Opened { config, .. } => self.adoption_answered(
                    project,
                    preimage,
                    sections_of(config),
                    now,
                ),
                _ => self,
            },
            Task::Located => match reply {
                Reply::Located { name, place, exists } => self.project_located(name, place, exists),
                _ => self,
            },
            Task::SavedProject => match reply {
                Reply::Registered(result) => self.save_answered(result, now),
                _ => self,
            },
            Task::ScaffoldRegistered => match reply {
                Reply::Registered(result) => self.scaffold_registered(result, now),
                _ => self,
            },
            Task::OverwriteRegistered => match reply {
                Reply::Registered(result) => self.overwrite_registered(result, now),
                _ => self,
            },
            Task::Scaffolded { project, preimage } => match reply {
                Reply::Created(result) => self.scaffold_answered(project, preimage, result, now),
                _ => self,
            },
            Task::Overwritten => match reply {
                Reply::Wrote(result) => self.overwrite_answered(result, now),
                _ => self,
            },
            Task::ProjectRemoved => match reply {
                Reply::Wrote(result) => self.project_removal_answered(result, now),
                _ => self,
            },
            Task::SwitcherProjectRemoved => match reply {
                Reply::Wrote(result) => self.switcher_removal_answered(result),
                _ => self,
            },
            _ => self,
        }
    }

    /// The application after an answer about a config entry, the settings or a
    /// completion. An answer of another kind than the question is ignored.
    #[verifier::opaque]
    pub open spec fn entry_answered(self, task: Task, reply: Reply, now: Moment) -> AppModel {
        match task {
            Task::Appended(kind) => match reply {
                Reply::Appended(result) => self.append_answered(kind, appended_sections(result), now),
                _ => self,
            },
            Task::PinTransferred => match reply {
                Reply::Pinned(stored) => self.pin_transferred(stored, now),
                _ => self,
            },
            Task::PinAppended { seeded, displaced } => match reply {
                Reply::Appended(result) => self.pin_append_answered(
                    seeded,
                    displaced,
                    appended_sections(result),
                    now,
                ),
                _ => self,
            },
            Task::PinChecked { seeded, displaced } => match reply {
                Reply::Opened { config, .. } => self.pin_checked(
                    seeded,
                    displaced,
                    sections_of(config),
                ),
                _ => self,
            },
            Task::PinUndone => match reply {
                Reply::Wrote(result) => self.pin_undone(result, now),
                _ => self,
            },
            Task::EntryRemoved { target, occurrence } => match reply {
                Reply::Edited(result) => self.removal_answered(
                    target,
                    occurrence,
                    edited_sections(result),
                    now,
                ),
                _ => self,
            },
            Task::AutostartSet { pane, autostart } => match reply {
                Reply::Edited(result) => self.autostart_answered(
                    pane,
                    autostart,
                    edited_sections(result),
                    now,
                ),
                _ => self,
            },
            Task::SettingsSaved(desktop) => match reply {
                Reply::Wrote(result) => self.settings_saved(desktop, result, now),
                _ => self,
            },
            Task::Completed => match reply {
                Reply::Completions(list) => self.with_candidates(texts(list@)),
                _ => self,
            },
            _ => self,
        }
    }

    /// The application after an answer to a task.
    pub open spec fn answered(self, task: Task, reply: Reply, now: Moment) -> AppModel {
        match task {
            Task::Spawned { .. } => self.process_answered(task, reply, now),
            Task::Paused { .. } => self.process_answered(task, reply, now),
            Task::Terminated { .. } => self.process_answered(task, reply, now),
            Task::Killed { .. } => self.process_answered(task, reply, now),
            Task::ForceStopped(_) => self.process_answered(task, reply, now),
            Task::Escalated(_) => self.process_answered(task, reply, now),
            Task::SwitchKilled(_) => self.process_answered(task, reply, now),
            Task::CloseKilled { .. } => self.process_answered(task, reply, now),
            Task::SessionOpened(_) => self.session_answered(task, reply, now),
            Task::OrphansRetired => self.session_answered(task, reply, now),
            Task::ClosedStopped(_) => self.session_answered(task, reply, now),
            Task::ClosedRunning(_) => self.session_answered(task, reply, now),
            Task::Reopened { .. } => self.session_answered(task, reply, now),
            Task::Linked(_) => self.session_answered(task, reply, now),
            Task::Prepared => self.session_answered(task, reply, now),
            Task::Recorded(_) => self.session_answered(task, reply, now),
            Task::SwitchLoaded => self.project_answered(task, reply, now),
            Task::SwitcherOpened { .. } => self.project_answered(task, reply, now),
            Task::ProjectOpened(_) => self.project_answered(task, reply, now),
            Task::Previewed => self.project_answered(task, reply, now),
            Task::ScaffoldAdopted { .. } => self.project_answered(task, reply, now),
            Task::Located => self.project_answered(task, reply, now),
            Task::SavedProject => self.project_answered(task, reply, now),
            Task::ScaffoldRegistered => self.project_answered(task, reply, now),
            Task::OverwriteRegistered => self.project_answered(task, reply, now),
            Task::Scaffolded { .. } => self.project_answered(task, reply, now),
            Task::Overwritten => self.project_answered(task, reply, now),
            Task::ProjectRemoved => self.project_answered(task, reply, now),
            Task::SwitcherProjectRemoved => self.project_answered(task, reply, now),
            Task::Appended(_) => self.entry_answered(task, reply, now),
            Task::PinTransferred => self.entry_answered(task, reply, now),
            Task::PinAppended { .. } => self.entry_answered(task, reply, now),
            Task::PinChecked { .. } => self.entry_answered(task, reply, now),
            Task::PinUndone => self.entry_answered(task, reply, now),
            Task::EntryRemoved { .. } => self.entry_answered(task, reply, now),
            Task::AutostartSet { .. } => self.entry_answered(task, reply, now),
            Task::SettingsSaved(_) => self.entry_answered(task, reply, now),
            Task::Completed => self.entry_answered(task, reply, now),
            _ => self,
        }
    }

    /// The application after the answer to its oldest question.
    pub open spec fn replied(self, reply: Reply, now: Moment) -> AppModel {
        if self.waiting.len() == 0 {
            self
        } else {
            (AppModel { waiting: self.waiting.skip(1), ..self }).answered(
                self.waiting[0],
                reply,
                now,
            )
        }
    }

    /// The application after a task of its agenda.
    #[verifier::opaque]
    pub open spec fn done(self, task: Task, now: Moment) -> AppModel {
        match task {
            Task::Launch { pane, purpose } => self.launched(pane, purpose, now),
            Task::Advance(pane) => self.switch_advanced(pane),
            Task::Reopen(id) => self.reopening(id@, now),
            Task::LinkAgents => self.linking(),
            Task::LinkAgent(pane) => self.linking_one(pane),
            Task::RecoverOrphans => self.recovering(),
            Task::LaunchRows => self.launching_rows(),
            Task::RestoreSessions => self.restoring(now),
            Task::RestoreSession(session) => self.session_restored(session, now),
            Task::RefreshProjects => self.projects_refreshed(),
            _ => self,
        }
    }

    /// The application after the next task of its agenda. Nothing is done while
    /// an answer is awaited.
    pub open spec fn progressed(self, now: Moment) -> AppModel {
        if self.waiting.len() > 0 || self.agenda.len() == 0 {
            self
        } else {
            (AppModel { agenda: self.agenda.drop_last(), ..self }).done(self.agenda.last(), now)
        }
    }

    /// The application after input at the terminal.
    #[verifier::opaque]
    pub open spec fn input_handled(self, input: InputEvent, now: Moment) -> AppModel {
        match input {
            InputEvent::Key { key, escape } => self.key_handled(key, escape, now),
            InputEvent::Mouse { mouse, facts } => self.mouse_handled(mouse, facts, now),
            InputEvent::Paste(text) => self.pasted(text@, now),
            InputEvent::Resize { width, height } => self.resized(
                Rect { x: 0, y: 0, width, height },
            ),
            InputEvent::Other => self,
        }
    }

    /// The application after an event.
    #[verifier::opaque]
    pub open spec fn handled(self, event: RuntimeEvent, now: Moment) -> AppModel {
        match event {
            RuntimeEvent::Input(input) => self.input_handled(input, now),
            RuntimeEvent::Output { pane, generation, output } => self.output_handled(
                pane,
                generation,
                output@,
                now,
            ),
            RuntimeEvent::Respawn { pane, generation } => self.respawned(pane, generation, now),
            RuntimeEvent::ForceStop { pane, spawn_generation, shutdown_generation } =>
                self.force_stop_due(pane, spawn_generation, shutdown_generation),
            RuntimeEvent::Completions { generation, candidates } => self.completions_arrived(
                generation,
                texts(candidates@),
            ),
            RuntimeEvent::ConfigChanged { path, config } => self.config_changed(
                path@,
                sections_of(config),
            ),
            RuntimeEvent::Answer(reply) => self.replied(reply, now),
            RuntimeEvent::InputClosed => AppModel { running: false, ..self },
        }
    }
}

impl App {
    /// Goes on after an answer about a process.
    fn answer_process(&mut self, task: Task, reply: Reply, now: Moment)
        ensures
            final(self)@ == old(self)@.process_answered(task, reply, now),
    {
        proof {
            reveal(AppModel::process_answered);
        }
        match task {
            Task::Spawned { pane, session } => {
                if let Reply::Done(done) = reply {
                    self.handle_spawned(pane, session, done, now);
                }
            },
            Task::Paused { pane, pause } => {
                if let Reply::Done(done) = reply {
                    self.handle_paused(pane, pause, done);
                }
            },
            Task::Terminated { pane, restart, grace_millis, spawn_generation, shutdown_generation } => {
                if let Reply::Done(done) = reply {
                    self.handle_terminated(
                        pane,
                        restart,
                        grace_millis,
                        spawn_generation,
                        shutdown_generation,
                        done,
                    );
                }
            },
            Task::Killed { pane, restart, fallback } => {
                if let Reply::Done(done) = reply {
                    self.handle_killed(pane, restart, fallback, done, now);
                }
            },
            Task::ForceStopped(pane) => {
                if let Reply::Done(done) = reply {
                    self.handle_killed(pane, false, false, done, now);
                }
            },
            Task::Escalated(pane) => {
                if let Reply::Done(done) = reply {
                    self.handle_escalated(pane, done, now);
                }
            },
            Task::SwitchKilled(pane) => {
                if let Reply::Done(done) = reply {
                    self.handle_switch_killed(pane, done);
                }
            },
            Task::CloseKilled { pane, session } => {
                if let Reply::Done(done) = reply {
                    self.handle_close_killed(pane, session, done, now);
                }
            },
            _ => {},
        }
    }

    /// Goes on after an answer about a session.
    fn answer_session(&mut self, task: Task, reply: Reply, now: Moment)
        ensures
            final(self)@ == old(self)@.session_answered(task, reply, now),
    {
        proof {
            reveal(AppModel::session_answered);
        }
        match task {
            Task::SessionOpened(pane) => {
                if let Reply::Wrote(result) = reply {
                    self.handle_session_opened(pane, result, now);
                }
            },
            Task::OrphansRetired => {
                if let Reply::Wrote(result) = reply {
                    self.handle_history_written(result, now);
                }
            },
            Task::ClosedStopped(pane) => {
                if let Reply::Wrote(result) = reply {
                    self.handle_closed_stopped(pane, result, now);
                }
            },
            Task::ClosedRunning(pane) => {
                if let Reply::Wrote(result) = reply {
                    self.handle_closed_running(pane, result, now);
                }
            },
            Task::Reopened { session, command } => {
                if let Reply::Wrote(result) = reply {
                    self.handle_reopened(session, command, result, now);
                }
            },
            Task::Linked(pane) => {
                if let Reply::Linked(linked) = reply {
                    self.handle_linked(pane, linked, now);
                }
            },
            Task::Prepared => {
                if let Reply::Prepared(prepared) = reply {
                    self.handle_prepared(prepared, now);
                }
            },
            Task::Recorded(launch) => {
                if let Reply::Stored(stored) = reply {
                    self.handle_recorded(launch, stored, now);
                }
            },
            _ => {},
        }
    }

    /// Goes on after an answer about a project.
    fn answer_project(&mut self, task: Task, reply: Reply, now: Moment)
        ensures
            final(self)@ == old(self)@.project_answered(task, reply, now),
    {
        proof {
            reveal(AppModel::project_answered);
        }
        match task {
            Task::SwitchLoaded => {
                if let Reply::Opened { config, .. } = reply {
                    self.handle_switch_loaded(config);
                }
            },
            Task::SwitcherOpened { row, project } => {
                if let Reply::Opened { config, exists } = reply {
                    self.handle_switcher_opened(row, project, config, exists, now);
                }
            },
            Task::ProjectOpened(project) => {
                if let Reply::Opened { config, exists } = reply {
                    self.handle_project_opened(project, config, exists, now);
                }
            },
            Task::Previewed => {
                if let Reply::Opened { config, .. } = reply {
                    self.handle_previewed(config);
                }
            },
            Task::ScaffoldAdopted { project, preimage } => {
                if let Reply::Opened { config, .. } = reply {
                    self.handle_scaffold_adopted(project, preimage, config, now);
                }
            },
            Task::Located => {
                if let Reply::Located { name, place, exists } = reply {
                    self.handle_located(name, place, exists);
                }
            },
            Task::SavedProject => {
                if let Reply::Registered(result) = reply {
                    self.handle_saved_project(result, now);
                }
            },
            Task::ScaffoldRegistered => {
                if let Reply::Registered(result) = reply {
                    self.handle_scaffold_registered(result, now);
                }
            },
            Task::OverwriteRegistered => {
                if let Reply::Registered(result) = reply {
                    self.handle_overwrite_registered(result, now);
                }
            },
            Task::Scaffolded { project, preimage } => {
                if let Reply::Created(result) = reply {
                    self.handle_scaffolded(project, preimage, result, now);
                }
            },
            Task::Overwritten => {
                if let Reply::Wrote(result) = reply {
                    self.handle_overwritten(result, now);
                }
            },
            Task::ProjectRemoved => {
                if let Reply::Wrote(result) = reply {
                    self.handle_project_removed(result, now);
                }
            },
            Task::SwitcherProjectRemoved => {
                if let Reply::Wrote(result) = reply {
                    self.handle_switcher_project_removed(result);
                }
            },
            _ => {},
        }
    }

    /// Goes on after an answer about a config entry, the settings or a completion.
    fn answer_entry(&mut self, task: Task, reply: Reply, now: Moment)
        ensures
            final(self)@ == old(self)@.entry_answered(task, reply, now),
    {
        proof {
            reveal(AppModel::entry_answered);
        }
        match task {
            Task::Appended(kind) => {
                if let Reply::Appended(result) = reply {
                    self.handle_appended(kind, result, now);
                }
            },
            Task::PinTransferred => {
                if let Reply::Pinned(stored) = reply {
                    self.handle_pin_transferred(stored, now);
                }
            },
            Task::PinAppended { seeded, displaced } => {
                if let Reply::Appended(result) = reply {
                    self.handle_pin_appended(seeded, displaced, result, now);
                }
            },
            Task::PinChecked { seeded, displaced } => {
                if let Reply::Opened { config, .. } = reply {
                    self.roll_back_pin(seeded, displaced, &config);
                }
            },
            Task::PinUndone => {
                if let Reply::Wrote(result) = reply {
                    self.handle_pin_undone(result, now);
                }
            },
            Task::EntryRemoved { target, occurrence } => {
                if let Reply::Edited(result) = reply {
                    self.handle_entry_removed(&target, occurrence, result, now);
                }
            },
            Task::AutostartSet { pane, autostart } => {
                if let Reply::Edited(result) = reply {
                    self.handle_autostart_set(pane, autostart, result, now);
                }
            },
            Task::SettingsSaved(desktop) => {
                if let Reply::Wrote(result) = reply {
                    self.handle_settings_saved(desktop, result, now);
                }
            },
            Task::Completed => {
                if let Reply::Completions(list) = reply {
                    self.set_candidates(list);
                }
            },
            _ => {},
        }
    }

    /// Goes on after the answer to the oldest question.
    pub fn answer(&mut self, reply: Reply, now: Moment)
        ensures
            final(self)@ == old(self)@.replied(reply, now),
    {
        if self.io.waiting.len() == 0 {
            return;
        }
        let task: Task = self.io.waiting.remove(0);
        assert(self@.waiting =~= old(self)@.waiting.skip(1));
        match &task {
            Task::Spawned { .. } => self.answer_process(task, reply, now),
            Task::Paused { .. } => self.answer_process(task, reply, now),
            Task::Terminated { .. } => self.answer_process(task, reply, now),
            Task::Killed { .. } => self.answer_process(task, reply, now),
            Task::ForceStopped(_) => self.answer_process(task, reply, now),
            Task::Escalated(_) => self.answer_process(task, reply, now),
            Task::SwitchKilled(_) => self.answer_process(task, reply, now),
            Task::CloseKilled { .. } => self.answer_process(task, reply, now),
            Task::SessionOpened(_) => self.answer_session(task, reply, now),
            Task::OrphansRetired => self.answer_session(task, reply, now),
            Task::ClosedStopped(_) => self.answer_session(task, reply, now),
            Task::ClosedRunning(_) => self.answer_session(task, reply, now),
            Task::Reopened { .. } => self.answer_session(task, reply, now),
            Task::Linked(_) => self.answer_session(task, reply, now),
            Task::Prepared => self.answer_session(task, reply, now),
            Task::Recorded(_) => self.answer_session(task, reply, now),
            Task::SwitchLoaded => self.answer_project(task, reply, now),
            Task::SwitcherOpened { .. } => self.answer_project(task, reply, now),
            Task::ProjectOpened(_) => self.answer_project(task, reply, now),
            Task::Previewed => self.answer_project(task, reply, now),
            Task::ScaffoldAdopted { .. } => self.answer_project(task, reply, now),
            Task::Located => self.answer_project(task, reply, now),
            Task::SavedProject => self.answer_project(task, reply, now),
            Task::ScaffoldRegistered => self.answer_project(task, reply, now),
            Task::OverwriteRegistered => self.answer_project(task, reply, now),
            Task::Scaffolded { .. } => self.answer_project(task, reply, now),
            Task::Overwritten => self.answer_project(task, reply, now),
            Task::ProjectRemoved => self.answer_project(task, reply, now),
            Task::SwitcherProjectRemoved => self.answer_project(task, reply, now),
            Task::Appended(_) => self.answer_entry(task, reply, now),
            Task::PinTransferred => self.answer_entry(task, reply, now),
            Task::PinAppended { .. } => self.answer_entry(task, reply, now),
            Task::PinChecked { .. } => self.answer_entry(task, reply, now),
            Task::PinUndone => self.answer_entry(task, reply, now),
            Task::EntryRemoved { .. } => self.answer_entry(task, reply, now),
            Task::AutostartSet { .. } => self.answer_entry(task, reply, now),
            Task::SettingsSaved(_) => self.answer_entry(task, reply, now),
            Task::Completed => self.answer_entry(task, reply, now),
            _ => {},
        }
    }

    /// Carries out a task of the agenda.
    fn carry_out(&mut self, task: Task, now: Moment)
        ensures
            final(self)@ == old(self)@.done(task, now),
    {
        proof {
            reveal(AppModel::done);
        }
        match task {
            Task::Launch { pane, purpose } => self.launch(pane, purpose, now),
            Task::Advance(pane) => self.advance_pending_switch(pane),
            Task::Reopen(id) => self.reopen_agent_session(&id, now),
            Task::LinkAgents => self.link_configured_agent_sessions(),
            Task::LinkAgent(pane) => self.link_agent(pane),
            Task::RecoverOrphans => self.recover_orphaned_pins(),
            Task::LaunchRows => self.launch_rows(),
            Task::RestoreSessions => self.restore_open_agent_sessions(now),
            Task::RestoreSession(session) => self.restore_session(session, now),
            Task::RefreshProjects => self.refresh_projects(),
            _ => {},
        }
    }

    /// Carries out the next task of the agenda, unless an answer is awaited.
    /// Returns whether there was one.
    pub fn run_next(&mut self, now: Moment) -> (ran: bool)
        ensures
            ran == (old(self)@.waiting.len() == 0 && old(self)@.agenda.len() > 0),
            final(self)@ == old(self)@.progressed(now),
    {
        if self.io.waiting.len() > 0 {
            return false;
        }
        match self.io.agenda.pop() {
            Some(task) => {
                assert(self@.agenda =~= old(self)@.agenda.drop_last());
                self.carry_out(task, now);
                true
            },
            None => false,
        }
    }

    /// Routes a terminal input event.
    pub fn handle_input(&mut self, event: InputEvent, now: Moment)
        ensures
            final(self)@ == old(self)@.input_handled(event, now),
    {
        proof {
            reveal(AppModel::input_handled);
        }
        match event {
            InputEvent::Key { key, escape } => self.handle_key(key, escape, now),
            InputEvent::Mouse { mouse, facts } => self.handle_mouse(mouse, facts, now),
            InputEvent::Paste(text) => self.handle_paste(&text, now),
            InputEvent::Resize { width, height } => self.resize(Rect::new(0, 0, width, height)),
            InputEvent::Other => {},
        }
    }

    /// Hands an event to its handler.
    pub fn handle_event(&mut self, event: RuntimeEvent, now: Moment)
        ensures
            final(self)@ == old(self)@.handled(event, now),
    {
        proof {
            reveal(AppModel::handled);
        }
        match event {
            RuntimeEvent::Input(input) => self.handle_input(input, now),
            RuntimeEvent::Output { pane, generation, output } => {
                self.handle_output(pane, generation, output, now);
            },
            RuntimeEvent::Respawn { pane, generation } => {
                self.handle_respawn(pane, generation, now);
            },
            RuntimeEvent::ForceStop { pane, spawn_generation, shutdown_generation } => {
                self.handle_force_stop(pane, spawn_generation, shutdown_generation);
            },
            RuntimeEvent::Completions { generation, candidates } => {
                self.handle_completions(generation, candidates);
            },
            RuntimeEvent::ConfigChanged { path, config } => {
                self.handle_config_changed(&path, &config);
            },
            RuntimeEvent::Answer(reply) => self.answer(reply, now),
            RuntimeEvent::InputClosed => {
                self.running = false;
            },
        }
    }
}

/// An answer that nobody waits for changes nothing.
pub proof fn an_unasked_answer_changes_nothing(app: AppModel, reply: Reply, now: Moment)
    requires
        app.waiting.len() == 0,
    ensures
        app.replied(reply, now) == app,
{
}

/// The agenda rests while an answer is awaited.
pub proof fn the_agenda_waits_for_answers(app: AppModel, now: Moment)
    requires
        app.waiting.len() > 0,
    ensures
        app.progressed(now) == app,
{
}

} // verus!
