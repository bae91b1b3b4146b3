//! What the application asks of its host, and what the host answers.

use vstd::prelude::*;
use crate::config::{ProcessSpec, ProcessSpecMatcher, WorkspaceConfig};
use crate::generation::CompletionGeneration;
use crate::geometry::PaneSize;
use crate::location::{Directory, Location, Project};
use crate::process::{
    AgentTool, PaneId, ProcessKind, RestartPolicy, StopPolicy, StopSignal,
};
use crate::session::{AgentSession, AgentSessionState};
use crate::text::opt_text;

verus! {

/// A process to start in a pane.
#[derive(Debug)]
pub struct SpawnRequest {
    /// Pane.
    pub pane: PaneId,
    /// Generation that its output carries.
    pub generation: u64,
    /// Command line; the login shell where there is none.
    pub command: Option<String>,
    /// Directory to run in.
    pub directory: Option<Directory>,
    /// Config of the project, exported to the process.
    pub project: Option<Location>,
    /// Agent session, exported to the process.
    pub session: Option<String>,
    /// File that records agent sessions, exported to the process.
    pub state_file: Option<String>,
    /// Size of the terminal.
    pub size: PaneSize,
}

/// A desktop notification.
#[derive(Debug)]
pub struct Notification {
    /// Pane.
    pub pane: PaneId,
    /// Scope of its identifier.
    pub scope: u64,
    /// Name of the process.
    pub source: String,
    /// Title.
    pub title: Option<String>,
    /// Body.
    pub body: Option<String>,
    /// Identifier given by the process.
    pub identifier: Option<String>,
}

/// What the host is to do. The variants marked as questions are answered, in
/// the order in which they were asked.
#[allow(inconsistent_fields)]
#[derive(Debug)]
pub enum Effect {
    /// Question: start a process.
    Spawn(SpawnRequest),
    /// Question: kill a pane's process.
    Kill(PaneId),
    /// Kill a pane's process, whatever comes of it.
    Discard(PaneId),
    /// Question: ask a pane's process to stop.
    Terminate {
        /// Pane.
        pane: PaneId,
        /// Signal.
        signal: StopSignal,
        /// Time until it is killed.
        grace_millis: u64,
    },
    /// Question: pause a pane's process.
    Pause(PaneId),
    /// Question: resume a pane's process.
    Resume(PaneId),
    /// Write to a pane's process.
    Write {
        /// Pane.
        pane: PaneId,
        /// Bytes.
        bytes: Vec<u8>,
    },
    /// Write a held key of the extended keyboard protocol.
    WriteHeld {
        /// Pane.
        pane: PaneId,
        /// Encoding that the key was pressed with.
        encoding: u32,
        /// Key event.
        key: crate::input::KeyEvent,
    },
    /// Give a pane's terminal another size.
    ResizePane {
        /// Pane.
        pane: PaneId,
        /// Size.
        size: PaneSize,
    },
    /// Report back after a delay, so that a pane is started again.
    RespawnAfter {
        /// Pane.
        pane: PaneId,
        /// Generation to report.
        generation: u64,
        /// Delay.
        millis: u64,
    },
    /// Report back after a delay, so that a pane that will not stop is killed.
    ForceStopAfter {
        /// Pane.
        pane: PaneId,
        /// Spawn generation to report.
        spawn_generation: u64,
        /// Shutdown generation to report.
        shutdown_generation: u64,
        /// Delay.
        millis: u64,
    },
    /// Question: record the state of a session.
    SetSessionState {
        /// Session.
        session: String,
        /// State.
        state: AgentSessionState,
    },
    /// Question: find out what a new session needs.
    Prepare {
        /// Provider.
        tool: AgentTool,
        /// Typed name.
        name: Option<String>,
        /// Launch command.
        command: Option<String>,
        /// Typed resume command.
        resume: Option<String>,
    },
    /// Question: record a session.
    Record(AgentSession),
    /// Question: bind a configured agent to the session that its project and key
    /// have in the store, or to this one if there is none.
    LinkConfigured(AgentSession),
    /// Question: hand a recorded conversation over to a configured agent.
    Pin(AgentSession),
    /// Question: undo a hand-over, and put back the records that it displaced.
    Unpin {
        /// The record that was handed over.
        seeded: AgentSession,
        /// The records that it displaced.
        displaced: Vec<AgentSession>,
    },
    /// Question: return the sessions of vanished configured agents to history.
    RetireOrphaned {
        /// Project.
        project: Location,
        /// Names of the agents that are live here.
        live: Vec<String>,
    },
    /// Question: read the config at a place.
    OpenWorkspace(Location),
    /// Question: resolve the config of a new project.
    Locate {
        /// Name of the project.
        name: String,
        /// Folder of the project.
        folder: String,
    },
    /// Question: put a project into the registry.
    Register {
        /// Name.
        name: String,
        /// Config.
        place: Location,
    },
    /// Question: take the projects at a place out of the registry.
    Unregister(Location),
    /// Take a registration back, and put back the entries that it replaced.
    RollBack {
        /// The project that was registered.
        project: Project,
        /// The entries that it replaced.
        preimage: Vec<Project>,
    },
    /// Question: write a starter config at a place where there is none.
    CreateWorkspace(Location),
    /// Question: write a starter config at a place.
    SaveWorkspace(Location),
    /// Question: append an entry to a config.
    Append {
        /// Config.
        place: Location,
        /// Section.
        kind: ProcessKind,
        /// Entry.
        spec: ProcessSpec,
    },
    /// Question: take an entry out of a config.
    RemoveEntry {
        /// Config.
        place: Location,
        /// Identity of the entry.
        target: ProcessSpecMatcher,
        /// Which of the entries with that identity.
        occurrence: usize,
    },
    /// Question: set the autostart of an entry of a config.
    SetAutostart {
        /// Config.
        place: Location,
        /// Identity of the entry.
        target: ProcessSpecMatcher,
        /// Which of the entries with that identity.
        occurrence: usize,
        /// Autostart.
        autostart: bool,
    },
    /// Watch the config at a place.
    Watch(Location),
    /// Show a desktop notification.
    Notify(Notification),
    /// Close a desktop notification.
    CloseNotification {
        /// Pane.
        pane: PaneId,
        /// Scope of its identifier.
        scope: u64,
        /// Identifier.
        identifier: String,
    },
    /// Question: save the settings.
    SaveSettings(bool),
    /// Question: complete a directory at once.
    Complete(String),
    /// Complete a directory in the background.
    RequestCompletions {
        /// Generation to report.
        generation: CompletionGeneration,
        /// Text to complete.
        partial: String,
    },
    /// Open the selected process in an editor.
    OpenEditor(PaneId),
}

/// A new or transferred session.
#[verifier::ext_equal]
pub struct SessionModel {
    /// Identity.
    pub id: Seq<char>,
    /// Display name.
    pub name: Seq<char>,
    /// Provider.
    pub tool: AgentTool,
    /// Project.
    pub project: Location,
    /// Launch command.
    pub launch_command: Seq<char>,
    /// Directory of its own.
    pub working_dir: Option<Seq<char>>,
    /// Resume command.
    pub resume_command: Option<Seq<char>>,
    /// Provider's identity.
    pub native_id: Option<Seq<char>>,
    /// Name of the configured agent that owns it.
    pub configured_key: Option<Seq<char>>,
    /// Recorded state.
    pub state: AgentSessionState,
    /// Command that brings it back automatically.
    pub restore: Option<Seq<char>>,
    /// Command that reopens it on request.
    pub reopen: Option<Seq<char>>,
    /// Number of the process that was last launched for it.
    pub owner_process: Option<u32>,
    /// Token of that process.
    pub owner_token: Option<Seq<char>>,
    /// Token of the process that has that number now.
    pub running_token: Option<Seq<char>>,
    /// Provider that its launch command belongs to.
    pub inferred_tool: AgentTool,
}

impl View for AgentSession {
    type V = SessionModel;

    open spec fn view(&self) -> SessionModel {
        SessionModel {
            id: self.id@,
            name: self.name@,
            tool: self.tool,
            project: self.project,
            launch_command: self.launch_command@,
            working_dir: opt_text(self.working_dir),
            resume_command: opt_text(self.resume_command),
            native_id: opt_text(self.native_id),
            configured_key: opt_text(self.configured_key),
            state: self.state,
            restore: opt_text(self.restore),
            reopen: opt_text(self.reopen),
            owner_process: self.owner_process,
            owner_token: opt_text(self.owner_token),
            running_token: opt_text(self.running_token),
            inferred_tool: self.inferred_tool,
        }
    }
}

/// An entry of a config.
#[verifier::ext_equal]
pub struct SpecModel {
    /// Display name.
    pub name: Seq<char>,
    /// Command line.
    pub command: Option<Seq<char>>,
    /// Directory to launch in.
    pub working_dir: Option<Seq<char>>,
    /// Restart policy.
    pub restart: Option<RestartPolicy>,
    /// Autostart.
    pub autostart: Option<bool>,
    /// Stop policy.
    pub stop: Option<StopPolicy>,
    /// Provider that the command belongs to.
    pub agent_tool: Option<AgentTool>,
}

impl View for ProcessSpec {
    type V = SpecModel;

    open spec fn view(&self) -> SpecModel {
        SpecModel {
            name: self.name@,
            command: opt_text(self.command),
            working_dir: opt_text(self.working_dir),
            restart: self.restart,
            autostart: self.autostart,
            stop: self.stop,
            agent_tool: self.agent_tool,
        }
    }
}

/// What a desktop notification says.
#[verifier::ext_equal]
pub struct NotificationModel {
    /// Pane.
    pub pane: PaneId,
    /// Scope of its identifier.
    pub scope: u64,
    /// Name of the process.
    pub source: Seq<char>,
    /// Title.
    pub title: Option<Seq<char>>,
    /// Body.
    pub body: Option<Seq<char>>,
    /// Identifier given by the process.
    pub identifier: Option<Seq<char>>,
}

impl View for Notification {
    type V = NotificationModel;

    open spec fn view(&self) -> NotificationModel {
        NotificationModel {
            pane: self.pane,
            scope: self.scope,
            source: self.source@,
            title: opt_text(self.title),
            body: opt_text(self.body),
            identifier: opt_text(self.identifier),
        }
    }
}

/// What an effect says.
#[allow(inconsistent_fields)]
#[verifier::ext_equal]
pub enum EffectModel {
    /// An effect whose values were handed in from outside.
    Plain(Effect),
    /// Write to a pane's process.
    Write(PaneId, Seq<u8>),
    /// Find out what a new session needs.
    Prepare {
        /// Provider.
        tool: AgentTool,
        /// Typed name.
        name: Option<Seq<char>>,
        /// Launch command.
        command: Option<Seq<char>>,
        /// Typed resume command.
        resume: Option<Seq<char>>,
    },
    /// Record a session.
    Record(SessionModel),
    /// Bind a configured agent to its session.
    LinkConfigured(SessionModel),
    /// Hand a recorded conversation over to a configured agent.
    Pin(SessionModel),
    /// Return the sessions of vanished configured agents to history.
    RetireOrphaned {
        /// Project.
        project: Location,
        /// Names of the agents that are live here.
        live: Seq<String>,
    },
    /// Resolve the config of a new project.
    Locate {
        /// Name of the project.
        name: Seq<char>,
        /// Folder of the project.
        folder: Seq<char>,
    },
    /// Put a project into the registry.
    Register {
        /// Name.
        name: Seq<char>,
        /// Config.
        place: Location,
    },
    /// Append an entry to a config.
    Append {
        /// Config.
        place: Location,
        /// Section.
        kind: ProcessKind,
        /// Entry.
        spec: SpecModel,
    },
    /// Show a desktop notification.
    Notify(NotificationModel),
    /// Complete a directory at once.
    Complete(Seq<char>),
    /// Complete a directory in the background.
    RequestCompletions {
        /// Generation to report.
        generation: CompletionGeneration,
        /// Text to complete.
        partial: Seq<char>,
    },
}

impl View for Effect {
    type V = EffectModel;

    open spec fn view(&self) -> EffectModel {
        match *self {
            Effect::Write { pane, bytes } => EffectModel::Write(pane, bytes@),
            Effect::Prepare { tool, name, command, resume } => EffectModel::Prepare {
                tool,
                name: opt_text(name),
                command: opt_text(command),
                resume: opt_text(resume),
            },
            Effect::Record(session) => EffectModel::Record(session@),
            Effect::LinkConfigured(session) => EffectModel::LinkConfigured(session@),
            Effect::Pin(session) => EffectModel::Pin(session@),
            Effect::RetireOrphaned { project, live } => EffectModel::RetireOrphaned {
                project,
                live: live@,
            },
            Effect::Locate { name, folder } => EffectModel::Locate { name: name@, folder: folder@ },
            Effect::Register { name, place } => EffectModel::Register { name: name@, place },
            Effect::Append { place, kind, spec } => EffectModel::Append { place, kind, spec: spec@ },
            Effect::Notify(notification) => EffectModel::Notify(notification@),
            Effect::Complete(partial) => EffectModel::Complete(partial@),
            Effect::RequestCompletions { generation, partial } => EffectModel::RequestCompletions {
                generation,
                partial: partial@,
            },
            effect => EffectModel::Plain(effect),
        }
    }
}

/// What each effect says.
pub open spec fn effect_models(effects: Seq<Effect>) -> Seq<EffectModel> {
    effects.map_values(|effect: Effect| effect@)
}

/// Why a pane is launched, which decides what becomes of it when there is
/// nothing to launch.
#[derive(Debug, Clone, Copy, PartialEq, Eq, Structural)]
pub enum LaunchPurpose {
    /// The user asked for it.
    Requested,
    /// It starts by itself.
    Automatic,
    /// It follows an exit.
    Restart,
}

/// How a session enters the workspace.
#[derive(Debug)]
pub enum AgentSessionActivation {
    /// Show a closable row without starting a new provider conversation.
    Stopped,
    /// Start the provider conversation but keep keyboard focus in the sidebar.
    StartDetached(String),
    /// Start and attach the provider conversation immediately.
    StartAttached(String),
}

impl AgentSessionActivation {
    /// The command to spawn when this activation starts a child.
    pub open spec fn starts(self) -> Option<String> {
        match self {
            AgentSessionActivation::Stopped => None,
            AgentSessionActivation::StartDetached(command) => Some(command),
            AgentSessionActivation::StartAttached(command) => Some(command),
        }
    }

    /// Returns the command to spawn when this activation starts a child.
    pub fn command(&self) -> (command: Option<String>)
        ensures
            command == self.starts(),
    {
        match self {
            AgentSessionActivation::Stopped => None,
            AgentSessionActivation::StartDetached(command) => Some(command.clone()),
            AgentSessionActivation::StartAttached(command) => Some(command.clone()),
        }
    }

    /// Whether successful activation should attach keyboard focus to the pane.
    pub fn should_attach(&self) -> (attach: bool)
        ensures
            attach == (self is StartAttached),
    {
        match self {
            AgentSessionActivation::StartAttached(_) => true,
            _ => false,
        }
    }
}

/// A step that is left to do: either it waits for an answer, or it is on the
/// agenda.
#[allow(inconsistent_fields)]
#[derive(Debug)]
pub enum Task {
    /// Awaits whether a process started.
    Spawned {
        /// Pane.
        pane: PaneId,
        /// Agent session of the process.
        session: Option<String>,
    },
    /// Awaits the record that a session is open.
    SessionOpened(PaneId),
    /// Awaits whether a process was paused, or resumed.
    Paused {
        /// Pane.
        pane: PaneId,
        /// It was to be paused.
        pause: bool,
    },
    /// Awaits whether a graceful signal was delivered.
    Terminated {
        /// Pane.
        pane: PaneId,
        /// The process is to start again.
        restart: bool,
        /// Time until it is killed.
        grace_millis: u64,
        /// Spawn generation at the time.
        spawn_generation: Option<u64>,
        /// Shutdown generation of the request.
        shutdown_generation: u64,
    },
    /// Awaits whether a kill was delivered that stands for a graceful signal.
    Killed {
        /// Pane.
        pane: PaneId,
        /// The process is to start again.
        restart: bool,
        /// A graceful signal had failed.
        fallback: bool,
    },
    /// Awaits whether an immediate kill was delivered.
    ForceStopped(PaneId),
    /// Awaits whether the kill after the grace period was delivered.
    Escalated(PaneId),
    /// Awaits whether a pane was killed for a project switch.
    SwitchKilled(PaneId),
    /// Awaits the config of the project to switch to.
    SwitchLoaded,
    /// Awaits the config of a project picked in the switcher.
    SwitcherOpened {
        /// Row of the project.
        row: usize,
        /// Project.
        project: Project,
    },
    /// Awaits the config of a project picked in the sidebar.
    ProjectOpened(Project),
    /// Awaits the config that the switcher previews.
    Previewed,
    /// Awaits the session of a configured agent.
    Linked(PaneId),
    /// Awaits the return of orphaned sessions.
    OrphansRetired,
    /// Awaits the record that a stopped session is closed.
    ClosedStopped(PaneId),
    /// Awaits whether a session's process was killed.
    CloseKilled {
        /// Pane.
        pane: PaneId,
        /// Session.
        session: Option<String>,
    },
    /// Awaits the record that a killed session is closed.
    ClosedRunning(PaneId),
    /// Awaits the record that a session is open again.
    Reopened {
        /// Session.
        session: AgentSession,
        /// Command that reopens it.
        command: String,
    },
    /// Awaits what a new session needs.
    Prepared,
    /// Awaits the record of a new session.
    Recorded(String),
    /// Awaits the resolved config of a new project.
    Located,
    /// Awaits the registration of the current project.
    SavedProject,
    /// Awaits the registration of a project that is to get a starter config.
    ScaffoldRegistered,
    /// Awaits the registration of a project whose config is to be rewritten.
    OverwriteRegistered,
    /// Awaits the starter config of a registered project.
    Scaffolded {
        /// Project.
        project: Project,
        /// The registry entries that it replaced.
        preimage: Vec<Project>,
    },
    /// Awaits whether the config that was there first reads.
    ScaffoldAdopted {
        /// Project.
        project: Project,
        /// The registry entries that it replaced.
        preimage: Vec<Project>,
    },
    /// Awaits the rewritten config of a registered project.
    Overwritten,
    /// Awaits the removal of a project.
    ProjectRemoved,
    /// Awaits the removal of the project highlighted in the switcher.
    SwitcherProjectRemoved,
    /// Awaits a new entry of the config.
    Appended(ProcessKind),
    /// Awaits the hand-over of a conversation.
    PinTransferred,
    /// Awaits the config entry of a conversation that was handed over.
    PinAppended {
        /// The record that was handed over.
        seeded: AgentSession,
        /// The records that it displaced.
        displaced: Vec<AgentSession>,
    },
    /// Awaits the config that tells whether a hand-over was completed elsewhere.
    PinChecked {
        /// The record that was handed over.
        seeded: AgentSession,
        /// The records that it displaced.
        displaced: Vec<AgentSession>,
    },
    /// Awaits the undoing of a hand-over.
    PinUndone,
    /// Awaits the removal of a config entry.
    EntryRemoved {
        /// Identity of the entry.
        target: ProcessSpecMatcher,
        /// Which of the entries with that identity.
        occurrence: usize,
    },
    /// Awaits the autostart of a config entry.
    AutostartSet {
        /// Pane.
        pane: PaneId,
        /// Autostart.
        autostart: bool,
    },
    /// Awaits saved settings.
    SettingsSaved(bool),
    /// Awaits completions.
    Completed,
    /// On the agenda: launch a pane.
    Launch {
        /// Pane.
        pane: PaneId,
        /// Purpose.
        purpose: LaunchPurpose,
    },
    /// On the agenda: go on with a project switch after a pane has gone.
    Advance(PaneId),
    /// On the agenda: reopen a session.
    Reopen(String),
    /// On the agenda: bind the configured agents to their sessions.
    LinkAgents,
    /// On the agenda: bind one configured agent to its session.
    LinkAgent(PaneId),
    /// On the agenda: return orphaned sessions to history.
    RecoverOrphans,
    /// On the agenda: launch what starts with the workspace.
    LaunchRows,
    /// On the agenda: bring open sessions back.
    RestoreSessions,
    /// On the agenda: bring one session back.
    RestoreSession(AgentSession),
    /// On the agenda: refresh the list of projects.
    RefreshProjects,
}

/// What a new session needs.
#[derive(Debug)]
pub struct Prepared {
    /// Provider.
    pub tool: AgentTool,
    /// Name, when one was typed.
    pub name: Option<String>,
    /// Launch command, when there is one.
    pub command: Option<String>,
    /// Resume command, when one was typed.
    pub resume: Option<String>,
    /// The resume command can be expanded safely.
    pub resume_valid: bool,
    /// The launch command cannot be resumed without a resume command.
    pub needs_resume: bool,
    /// A fresh identity.
    pub id: Option<String>,
    /// Command that starts the conversation under that identity.
    pub launch: Option<String>,
}

/// An answer of the host.
#[derive(Debug)]
pub enum Reply {
    /// Whether something was done or delivered.
    Done(bool),
    /// How a write went.
    Wrote(Result<(), String>),
    /// The session that a configured agent is bound to.
    Linked(Result<String, String>),
    /// A recorded session, as it was recorded.
    Stored(Result<AgentSession, String>),
    /// A conversation that was handed over, and the records that it displaced.
    Pinned(Result<(AgentSession, Vec<AgentSession>), String>),
    /// What a new session needs.
    Prepared(Prepared),
    /// The config at a place, and whether there is a file.
    Opened {
        /// Config.
        config: Result<WorkspaceConfig, String>,
        /// There is a file.
        exists: bool,
    },
    /// The resolved config of a new project.
    Located {
        /// Name of the project.
        name: String,
        /// Config.
        place: Location,
        /// There is a file.
        exists: bool,
    },
    /// A registered project, and the registry entries that it replaced.
    Registered(Result<(Project, Vec<Project>), String>),
    /// Whether a starter config was written.
    Created(Result<bool, String>),
    /// An edited config, and whether the entry was found.
    Edited(Result<(WorkspaceConfig, bool), String>),
    /// A config with a new entry: the entry, and which of those with its
    /// identity it is.
    Appended(Result<(WorkspaceConfig, ProcessSpec, usize), String>),
    /// Completions.
    Completions(Vec<String>),
}

} // verus!
