//! Pinning a recorded conversation as a configured agent.

use vstd::prelude::*;
use crate::app::entries::{appended_sections, NameChoice};
use crate::app::projects::sections_of;
use crate::app::{App, AppModel};
use crate::config::{
    occurrences, Identity, ProcessSpec, ProcessSpecMatcher, Sections, WorkspaceConfig,
};
use crate::effect::{Effect, EffectModel, SessionModel, SpecModel, Task};
use crate::location::{copy_location, resolve_spawn_paths, spawn_directory, Location};
use crate::message::Message;
use crate::moment::Moment;
use crate::process::ProcessKind;
use crate::session::{AgentSession, AgentSessionState};
use crate::text::{copy_opt, opt_text, trim, trimmed};

verus! {

/// The directory that a conversation ran in.
pub open spec fn folder_of(source: AgentSession) -> Option<Seq<char>> {
    match spawn_directory(Some(source.project), source.working_dir) {
        Some(directory) => Some(directory.words()),
        None => None,
    }
}

/// Returns the directory that a conversation ran in, resolved the same way as a
/// spawn resolves its own.
pub fn conversation_folder(source: &AgentSession) -> (folder: Option<String>)
    ensures
        opt_text(folder) == folder_of(*source),
{
    match resolve_spawn_paths(&Some(source.project.copied()), &source.working_dir).1 {
        Some(directory) => Some(directory.path()),
        None => None,
    }
}

/// The identity of the entry of a pinned conversation.
pub open spec fn pinned_identity(seeded: AgentSession) -> Identity {
    ProcessSpec::plain(seeded.name, Some(seeded.launch_command), seeded.working_dir).identity(
        ProcessKind::Agent,
    )
}

/// Whether a config holds the entry of a pinned conversation.
pub open spec fn pin_committed(config: Result<Sections, String>, seeded: AgentSession) -> bool {
    config matches Ok(config) && occurrences(
        ProcessKind::Agent,
        config.agents,
        pinned_identity(seeded),
    ) > 0
}

impl AppModel {
    /// The application that pins a conversation: hands its record over to a
    /// configured agent before the config names that agent. A conversation that
    /// still runs is not pinned.
    pub open spec fn conversation_pinning(
        self,
        source: AgentSession,
        input: Seq<char>,
        now: Moment,
    ) -> AppModel {
        match self.catalog.current {
            None => self,
            Some(project) => if source.owned() {
                self.complained(Message::PinSourceRunning, now)
            } else if source.native_id is None {
                self.noted(Message::NotResumable, now)
            } else {
                match self.name_choice(ProcessKind::Agent, trimmed(input)) {
                    NameChoice::Invalid => self,
                    NameChoice::Taken => self.complained(Message::NameTaken, now),
                    NameChoice::Chosen(name) => if !self.world.has_store {
                        self
                    } else {
                        self.asked(
                            EffectModel::Pin(
                                SessionModel {
                                    id: source.id@,
                                    name,
                                    tool: source.inferred_tool,
                                    project,
                                    launch_command: source.launch_command@,
                                    working_dir: folder_of(source),
                                    resume_command: opt_text(source.resume_command),
                                    native_id: opt_text(source.native_id),
                                    configured_key: Some(name),
                                    state: AgentSessionState::Closed,
                                    restore: None,
                                    reopen: None,
                                    owner_process: None,
                                    owner_token: None,
                                    running_token: None,
                                    inferred_tool: source.inferred_tool,
                                },
                            ),
                            Task::PinTransferred,
                        )
                    },
                }
            },
        }
    }

    /// The application that learned whether a conversation was handed over, and
    /// writes the agent's entry.
    #[verifier::opaque]
    pub open spec fn pin_transferred(
        self,
        stored: Result<(AgentSession, Vec<AgentSession>), String>,
        now: Moment,
    ) -> AppModel {
        match stored {
            Err(error) => self.complained(Message::SessionStore(error), now),
            Ok(pinned) => self.appending(
                ProcessKind::Agent,
                SpecModel {
                    name: pinned.0.name@,
                    command: Some(pinned.0.launch_command@),
                    working_dir: opt_text(pinned.0.working_dir),
                    restart: None,
                    autostart: None,
                    stop: None,
                    agent_tool: None,
                },
                Task::PinAppended { seeded: pinned.0, displaced: pinned.1 },
            ),
        }
    }

    /// The application that learned whether the entry of a pinned conversation
    /// was written. If not, it finds out whether another writer completed the
    /// pin before it undoes the hand-over.
    #[verifier::opaque]
    pub open spec fn pin_append_answered(
        self,
        seeded: AgentSession,
        displaced: Vec<AgentSession>,
        result: Result<(Sections, ProcessSpec, usize), String>,
        now: Moment,
    ) -> AppModel {
        match result {
            Ok(added) => self.entry_launching(ProcessKind::Agent, added.0, added.1, added.2),
            Err(_) => self.complained(Message::WorkspaceSave, now).asked(
                EffectModel::Plain(Effect::OpenWorkspace(seeded.project)),
                Task::PinChecked { seeded, displaced },
            ),
        }
    }

    /// The application that undoes the hand-over of a conversation and has the
    /// displaced records put back, unless the config holds its entry.
    #[verifier::opaque]
    pub open spec fn pin_checked(
        self,
        seeded: AgentSession,
        displaced: Vec<AgentSession>,
        config: Result<Sections, String>,
    ) -> AppModel {
        if pin_committed(config, seeded) {
            self
        } else {
            self.asked(
                EffectModel::Plain(Effect::Unpin { seeded, displaced }),
                Task::PinUndone,
            )
        }
    }

    /// The application that learned whether a hand-over was undone.
    #[verifier::opaque]
    pub open spec fn pin_undone(self, result: Result<(), String>, now: Moment) -> AppModel {
        match result {
            Ok(_) => self,
            Err(error) => self.complained(Message::SessionRollback(error), now),
        }
    }
}

impl App {
    /// Pins an existing conversation as a configured agent in the current
    /// workspace: a native, autostarting member that resumes that exact
    /// conversation and keeps running in its own folder. A blank name generates
    /// one.
    pub fn pin_conversation(&mut self, source: &AgentSession, name_input: &String, now: Moment)
        ensures
            final(self)@ == old(self)@.conversation_pinning(*source, name_input@, now),
    {
        let project: Location = match copy_location(&self.catalog.current) {
            Some(project) => project,
            None => return,
        };
        if source.session_owner_is_live() {
            self.report_error(Message::PinSourceRunning, now);
            return;
        }
        if source.native_id.is_none() {
            self.set_notice(Message::NotResumable, now);
            return;
        }
        let name: String = match self.resolve_configured_name(
            ProcessKind::Agent,
            trim(name_input),
            now,
        ) {
            Some(name) => name,
            None => return,
        };
        if !self.world.has_store {
            return;
        }
        let seeded: AgentSession = AgentSession {
            id: source.id.clone(),
            name: name.clone(),
            tool: source.inferred_tool,
            project,
            launch_command: source.launch_command.clone(),
            working_dir: conversation_folder(source),
            resume_command: copy_opt(&source.resume_command),
            native_id: copy_opt(&source.native_id),
            configured_key: Some(name),
            state: AgentSessionState::Closed,
            restore: None,
            reopen: None,
            owner_process: None,
            owner_token: None,
            running_token: None,
            inferred_tool: source.inferred_tool,
        };
        self.ask(Effect::Pin(seeded), Task::PinTransferred);
    }

    /// Goes on after a conversation was handed over, or was not.
    pub fn handle_pin_transferred(
        &mut self,
        stored: Result<(AgentSession, Vec<AgentSession>), String>,
        now: Moment,
    )
        ensures
            final(self)@ == old(self)@.pin_transferred(stored, now),
    {
        proof {
            reveal(AppModel::pin_transferred);
        }
        match stored {
            Err(error) => self.report_error(Message::SessionStore(error), now),
            Ok((seeded, displaced)) => {
                let spec: ProcessSpec = ProcessSpec::new(
                    seeded.name.clone(),
                    Some(seeded.launch_command.clone()),
                    copy_opt(&seeded.working_dir),
                );
                self.write_configured_spec(
                    ProcessKind::Agent,
                    spec,
                    Task::PinAppended { seeded, displaced },
                );
            },
        }
    }

    /// Goes on after the entry of a pinned conversation was written, or was
    /// not.
    pub fn handle_pin_appended(
        &mut self,
        seeded: AgentSession,
        displaced: Vec<AgentSession>,
        result: Result<(WorkspaceConfig, ProcessSpec, usize), String>,
        now: Moment,
    )
        ensures
            final(self)@ == old(self)@.pin_append_answered(
                seeded,
                displaced,
                appended_sections(result),
                now,
            ),
    {
        proof {
            reveal(AppModel::pin_append_answered);
        }
        match result {
            Ok((config, spec, occurrence)) => self.reconcile_configured_launch(
                ProcessKind::Agent,
                &config,
                &spec,
                occurrence,
            ),
            Err(_) => {
                self.report_error(Message::WorkspaceSave, now);
                let place: Location = seeded.project.copied();
                self.ask(Effect::OpenWorkspace(place), Task::PinChecked { seeded, displaced });
            },
        }
    }

    /// Rolls back a pin whose config write failed, with the records that it
    /// displaced put back so that the conversation is not stranded, unless the config holds an
    /// agent with this pin's exact specification: then another instance
    /// completed this same pin and owns the record.
    pub fn roll_back_pin(
        &mut self,
        seeded: AgentSession,
        displaced: Vec<AgentSession>,
        config: &Result<WorkspaceConfig, String>,
    )
        ensures
            final(self)@ == old(self)@.pin_checked(seeded, displaced, sections_of(*config)),
    {
        proof {
            reveal(AppModel::pin_checked);
        }
        let spec: ProcessSpec = ProcessSpec::new(
            seeded.name.clone(),
            Some(seeded.launch_command.clone()),
            copy_opt(&seeded.working_dir),
        );
        let target: ProcessSpecMatcher = ProcessSpecMatcher::of_spec(ProcessKind::Agent, &spec);
        let committed: bool = match config {
            Ok(config) => target.count(&config.agents) > 0,
            Err(_) => false,
        };
        if !committed {
            self.ask(Effect::Unpin { seeded, displaced }, Task::PinUndone);
        }
    }

    /// Goes on after a hand-over was undone, or was not. A failure leaves the
    /// session store inconsistent with the config, so it is surfaced.
    pub fn handle_pin_undone(&mut self, result: Result<(), String>, now: Moment)
        ensures
            final(self)@ == old(self)@.pin_undone(result, now),
    {
        proof {
            reveal(AppModel::pin_undone);
        }
        if let Err(error) = result {
            self.report_error(Message::SessionRollback(error), now);
        }
    }
}

/// A pin that another instance completed is not undone, and one that nobody
/// completed is.
pub proof fn only_orphaned_pins_are_undone(
    app: AppModel,
    seeded: AgentSession,
    displaced: Vec<AgentSession>,
    config: Result<Sections, String>,
)
    ensures
        pin_committed(config, seeded) ==> app.pin_checked(seeded, displaced, config) == app,
        !pin_committed(config, seeded) ==> app.pin_checked(seeded, displaced, config).outbox
            == app.outbox.push(EffectModel::Plain(Effect::Unpin { seeded, displaced })),
{
    reveal(AppModel::pin_checked);
}

/// A pin whose entry cannot be written is undone with exactly the records that
/// the hand-over displaced: they are kept from the answer to the hand-over, while
/// the entry is written, until the config shows that nobody wrote it. The failure
/// is reported, and neither the workspace nor the panes change on the way. A
/// hand-over that fails writes no entry.
pub proof fn a_failed_pin_restores_what_it_displaced(
    handed: AppModel,
    written: AppModel,
    checked: AppModel,
    seeded: AgentSession,
    displaced: Vec<AgentSession>,
    error: String,
    config: Result<Sections, String>,
    now: Moment,
)
    requires
        handed.catalog.current is Some,
        !pin_committed(config, seeded),
    ensures
        handed.pin_transferred(Ok((seeded, displaced)), now).waiting == handed.waiting.push(
            Task::PinAppended { seeded, displaced },
        ),
        ({
            let after = written.pin_append_answered(seeded, displaced, Err(error), now);
            &&& after.waiting == written.waiting.push(Task::PinChecked { seeded, displaced })
            &&& after.outbox == written.outbox.push(
                EffectModel::Plain(Effect::OpenWorkspace(seeded.project)),
            )
            &&& after == written.complained(Message::WorkspaceSave, now).asked(
                EffectModel::Plain(Effect::OpenWorkspace(seeded.project)),
                Task::PinChecked { seeded, displaced },
            )
            &&& after.roster == written.roster && after.panes == written.panes
        }),
        ({
            let after = checked.pin_checked(seeded, displaced, config);
            &&& after.outbox == checked.outbox.push(
                EffectModel::Plain(Effect::Unpin { seeded, displaced }),
            )
            &&& after.roster == checked.roster && after.panes == checked.panes
        }),
        handed.pin_transferred(Err(error), now) == handed.complained(
            Message::SessionStore(error),
            now,
        ),
{
    reveal(AppModel::pin_transferred);
    reveal(AppModel::pin_append_answered);
    reveal(AppModel::pin_checked);
}

} // verus!
