use muster::app::agents::kept_agent_names;
use muster::app::bridge::{
    send_outcome, ControlAction, ControlOutcome, SendOutcome, WorkspaceRequest, WorkspaceResponse,
};
use muster::app::pointer::{
    PointerFacts, SidebarSelection, PANE_COPY_HIGHLIGHT_MILLIS, SELECTION_AUTOSCROLL_MILLIS,
    WHEEL_SCROLL_LINES,
};
use muster::app::forms::ADD_PROCESS_TITLE;
use muster::app::scene::{NoticePlace, StatusContext};
use muster::app::signals::{ProcessOutput, Signal, BELL_ESCALATION_DELAY_MILLIS};
use muster::app::{App, Focus, PointerShape, SettingsState, World};
use muster::activity::OUTPUT_IDLE_TIMEOUT_MILLIS;
use muster::config::{append_spec, starter_config, ProcessSpec, WorkspaceConfig};
use muster::effect::{Effect, Prepared, Reply, SpawnRequest};
use muster::event::{InputEvent, RuntimeEvent};
use muster::generation::CompletionGeneration;
use muster::geometry::{areas, pane_size_of, Areas, PaneSize, Rect, BORDER_THICKNESS, MIN_PANE_DIMENSION};
use muster::input::{
    KeyCode, KeyEvent, KeyEventKind, KeyModifiers, MouseButton, MouseEvent, MouseEventKind,
    LEADER_KEY,
};
use muster::location::{
    copy_projects, register_project, resolve_spawn_paths, rollback_registration, without_project,
    Location, Project,
};
use muster::message::{
    AGENT_COMMAND_REQUIRED, AGENT_COMPOUND_RESUME_REQUIRED, AGENT_RESUME_TEMPLATE_INVALID,
    AGENT_NAME_TAKEN, AGENT_SESSION_NOT_RESUMABLE, AGENT_SESSION_STORE_ERROR,
    AWAITING_INPUT_NOTICE, DELETE_ENTRY_GONE, FORCE_STOP_NOTICE, NO_ATTENTION_WAITING,
    PIN_SOURCE_STILL_RUNNING, PROJECT_SWITCH_IN_PROGRESS, SETTINGS_LOAD_ERROR,
    STOP_DELIVERY_FAILED_NOTICE, WORKSPACE_SAVE_ERROR,
};
use muster::moment::Moment;
use muster::overlay::{form_of, switcher_of, FormOverlay, Overlay, Switcher};
use muster::pane::{ConfigMembership, PaneLife};
use muster::process::{
    ActivityState, AgentTool, ExitIntent, ExitOutcome, PaneId, Preset, Presets, Process,
    ProcessKind, ProcessOrigin, ProcessState, RestartPolicy, StopPolicy, StopSignal,
};
use muster::selection::{edge_scroll_lines, BufferCell, Selection};
use muster::session::{copy_sessions, AgentSession, AgentSessionState};
use muster::workspace::Workspace;

const PANE: PaneId = 0;
const PROJECT_CONFIG_FILE: &str = "muster.yml";
/// Grace period used to verify policy propagation without slowing tests.
const TEST_STOP_GRACE_MILLIS: u64 = 7_000;
/// Where relative paths lead.
const FOLDER: &str = "/home/tester/place";

/// How spawns go.
#[derive(Clone, Copy, PartialEq)]
enum Spawns {
    Succeed,
    Fail,
    SucceedOnce,
}

/// How the store of agent sessions behaves.
#[derive(Clone, Copy, PartialEq)]
enum Store {
    Absent,
    Works,
    CannotWrite,
    CannotRead,
}

/// What a desktop notification carried.
struct Shown {
    identifier: Option<String>,
    scope: u64,
    body: Option<String>,
}

/// Everything around the application, in memory: it carries out effects, answers
/// questions, and remembers what it was asked to do.
struct Host {
    app: App,
    now: Moment,
    // Processes.
    spawn_mode: Spawns,
    spawns: Vec<SpawnRequest>,
    written: Vec<u8>,
    kills: usize,
    first_kill_fails: bool,
    terminates: usize,
    terminate_fails: bool,
    termination: Option<(StopSignal, u64)>,
    pause_fails: bool,
    respawns: Vec<(PaneId, u64, u64)>,
    held: Vec<(PaneId, u32, KeyEventKind)>,
    resized: Vec<(PaneId, PaneSize)>,
    // Registry.
    projects: Vec<Project>,
    saved_projects: Option<Vec<Project>>,
    registry_unreadable: bool,
    save_fails: bool,
    workspace: Option<WorkspaceConfig>,
    every_workspace_exists: bool,
    save_workspace_fails: bool,
    workspaces: Vec<(String, WorkspaceConfig)>,
    taken_back: Vec<Vec<String>>,
    // Sessions.
    store: Store,
    sessions: Vec<AgentSession>,
    next_session: usize,
    pinned: Vec<AgentSession>,
    displaced: Vec<AgentSession>,
    unpinned: Vec<(String, Vec<String>)>,
    live_names: Vec<String>,
    // The rest.
    has_notifier: bool,
    shown: Vec<Shown>,
    closed: Vec<(PaneId, String)>,
    saved_setting: Option<bool>,
    candidates: Vec<String>,
    requests: Vec<(CompletionGeneration, String)>,
}

fn at(millis: u64) -> Moment {
    Moment::new(millis * 1_000_000)
}

fn area() -> Rect {
    Rect::new(0, 0, 80, 24)
}

/// The provider's program, which is its name in lower case.
fn program(tool: AgentTool) -> String {
    format!("{tool:?}").to_lowercase()
}

fn preset(tool: AgentTool) -> Preset {
    Preset { label: format!("{tool:?}"), command: program(tool) }
}

fn presets() -> Presets {
    Presets {
        claude: preset(AgentTool::Claude),
        codex: preset(AgentTool::Codex),
        gemini: preset(AgentTool::Gemini),
        copilot: preset(AgentTool::Copilot),
    }
}

/// The config at a path; a relative one lies in the current folder.
fn place(path: &str) -> Location {
    let full = if path.starts_with('/') {
        path.to_string()
    } else {
        format!("{FOLDER}/{path}")
    };
    Location::new(path.to_string(), full.clone(), full.clone(), full)
}

fn project(name: &str, config: &str) -> Project {
    let opens_at = if config.starts_with('/') {
        Ok(place(config))
    } else {
        Err("unsupported relative project path".to_string())
    };
    Project { name: name.to_string(), config: place(config), opens_at }
}

fn spec(name: &str, command: &str) -> ProcessSpec {
    ProcessSpec::new(name.to_string(), Some(command.to_string()), None)
}

fn config(
    agents: Vec<ProcessSpec>,
    terminals: Vec<ProcessSpec>,
    commands: Vec<ProcessSpec>,
) -> WorkspaceConfig {
    WorkspaceConfig { agents, terminals, commands }
}

fn empty_config() -> WorkspaceConfig {
    config(vec![], vec![], vec![])
}

fn one_agent_config(name: &str) -> WorkspaceConfig {
    config(vec![spec(name, "true")], vec![], vec![])
}

fn process(id: PaneId, name: &str, kind: ProcessKind, command: &str) -> Process {
    let mut process = Process::new(id, name.to_string(), kind);
    process.command = Some(command.to_string());
    process
}

fn terminal(restart: RestartPolicy) -> Process {
    let mut process = process(PANE, "p", ProcessKind::Terminal, "true");
    process.restart = restart;
    process
}

/// Builds the opt-in shutdown policy used by command lifecycle tests.
fn test_stop_policy() -> StopPolicy {
    StopPolicy { signal: StopSignal::Interrupt, grace_millis: TEST_STOP_GRACE_MILLIS }
}

/// What a chunk of output signals.
fn signals_in(bytes: &[u8]) -> Vec<Signal> {
    let mut signals = Vec::new();
    let mut i = 0;
    while i < bytes.len() {
        if bytes[i] == 0x07 {
            signals.push(Signal::Notify { identifier: None, title: None, body: None });
            i += 1;
        } else if bytes[i..].starts_with(b"\x1b]") {
            let start = i + 2;
            let mut end = start;
            while bytes[end] != 0x07 && bytes[end] != 0x1b {
                end += 1;
            }
            let payload = String::from_utf8(bytes[start..end].to_vec()).expect("a text");
            signals.extend(signal_of(&payload));
            i = if bytes[end] == 0x07 { end + 1 } else { end + 2 };
        } else {
            while i < bytes.len() && bytes[i] != 0x07 && bytes[i] != 0x1b {
                i += 1;
            }
            signals.push(Signal::Output);
        }
    }
    signals
}

/// What one operating system command signals.
fn signal_of(payload: &str) -> Option<Signal> {
    let (code, rest) = payload.split_once(';')?;
    let some = |text: &str| Some(text.to_string());
    match code {
        "2" => Some(Signal::Title(rest.to_string())),
        "9" => match rest.strip_prefix("4;") {
            Some(progress) => Some(Signal::Progress(!progress.starts_with('0'))),
            None => Some(Signal::Notify { identifier: None, title: None, body: some(rest) }),
        },
        "99" => {
            let (meta, text) = rest.split_once(';')?;
            let value = |key: &str| {
                meta.split(':')
                    .find_map(|item| item.strip_prefix(key))
                    .map(|found| found.to_string())
            };
            if value("p=").as_deref() == Some("close") {
                value("i=").map(|identifier| Signal::Close { identifier })
            } else {
                Some(Signal::Notify { identifier: value("i="), title: some(text), body: None })
            }
        },
        "777" => {
            let mut parts = rest.split(';');
            parts.next();
            Some(Signal::Notify {
                identifier: None,
                title: parts.next().and_then(some),
                body: parts.next().and_then(some),
            })
        },
        _ => None,
    }
}

fn chunk(bytes: &[u8]) -> ProcessOutput {
    ProcessOutput::Chunk {
        bytes: bytes.to_vec(),
        signals: signals_in(bytes),
        protocol: 0,
        screen_epoch: 0,
    }
}

fn exited(outcome: ExitOutcome) -> ProcessOutput {
    ProcessOutput::Exited(outcome)
}

/// The command that takes a session's conversation up again.
fn resume_of(session: &AgentSession) -> Option<String> {
    let program = program(session.tool);
    match &session.native_id {
        Some(id) => Some(match session.tool {
            AgentTool::Codex => format!("{program} resume {id}"),
            _ => format!("{program} --resume {id}"),
        }),
        None => match session.tool {
            AgentTool::Claude => Some(format!("{program} --session-id {}", session.id)),
            _ => None,
        },
    }
}

impl Host {
    fn new(processes: Vec<Process>, current: &str) -> Host {
        let workspace = Workspace::new(processes);
        let world = World {
            sessions: Ok(vec![]),
            projects: Ok(vec![]),
            state_file: Ok(None),
            folder: FOLDER.to_string(),
            names: vec![],
            fresh_id: None,
            has_store: false,
            has_notifier: false,
            has_watcher: false,
            host_colors: None,
            presets: presets(),
        };
        let now = at(1_000);
        Host {
            app: App::new(workspace, area(), place(current), world, now),
            now,
            spawn_mode: Spawns::Succeed,
            spawns: vec![],
            written: vec![],
            kills: 0,
            first_kill_fails: false,
            terminates: 0,
            terminate_fails: false,
            termination: None,
            pause_fails: false,
            projects: vec![],
            saved_projects: None,
            registry_unreadable: false,
            save_fails: false,
            workspace: Some(empty_config()),
            every_workspace_exists: false,
            save_workspace_fails: false,
            workspaces: vec![],
            taken_back: vec![],
            store: Store::Absent,
            sessions: vec![],
            next_session: 0,
            pinned: vec![],
            displaced: vec![],
            unpinned: vec![],
            live_names: vec![],
            respawns: vec![],
            held: vec![],
            resized: vec![],
            has_notifier: false,
            shown: vec![],
            closed: vec![],
            saved_setting: None,
            candidates: vec![],
            requests: vec![],
        }
    }

    /// Starts the application.
    fn started(mut self) -> Host {
        self.act(|app, _| app.start());
        self
    }

    fn registered(&self) -> Result<Vec<Project>, String> {
        if self.registry_unreadable {
            return Err("the registry does not parse".to_string());
        }
        Ok(match &self.saved_projects {
            Some(saved) => copy_projects(saved),
            None => copy_projects(&self.projects),
        })
    }

    fn read_workspace(&self) -> Result<WorkspaceConfig, String> {
        match &self.workspace {
            Some(config) => Ok(config.copied()),
            None => Err("the config does not parse".to_string()),
        }
    }

    fn has_config(&self, place: &Location) -> bool {
        self.every_workspace_exists || self.workspaces.iter().any(|(path, _)| *path == place.path)
    }

    fn save_workspace(&mut self, place: &Location, config: WorkspaceConfig) -> Result<(), String> {
        if self.save_workspace_fails {
            return Err("the config cannot be written".to_string());
        }
        self.workspaces.push((place.path.clone(), config));
        Ok(())
    }

    fn save_projects(&mut self, projects: Vec<Project>) -> Result<(), String> {
        if self.save_fails {
            return Err("the registry cannot be written".to_string());
        }
        self.saved_projects = Some(projects);
        Ok(())
    }

    fn observe(&mut self) {
        let mut sessions = copy_sessions(&self.sessions);
        for session in sessions.iter_mut() {
            session.restore = match session.state {
                AgentSessionState::Pending => Some(session.launch_command.clone()),
                _ => resume_of(session),
            };
            session.reopen = resume_of(session);
        }
        let unreadable = self.store == Store::CannotRead;
        let world = World {
            sessions: if unreadable {
                Err("no state directory".to_string())
            } else if self.store == Store::Works {
                Ok(sessions)
            } else {
                Ok(vec![])
            },
            projects: self.registered(),
            state_file: if unreadable { Err("no state directory".to_string()) } else { Ok(None) },
            folder: FOLDER.to_string(),
            names: muster::names::draw_names(),
            fresh_id: Some(format!("agent-{}", self.spawns.len())),
            has_store: self.store != Store::Absent,
            has_notifier: self.has_notifier,
            has_watcher: false,
            host_colors: None,
            presets: presets(),
        };
        self.app.observe(world);
    }

    /// Lets the application act and carries everything out that follows.
    fn act(&mut self, action: impl FnOnce(&mut App, Moment)) {
        self.observe();
        action(&mut self.app, self.now);
        self.settle();
    }

    fn settle(&mut self) {
        loop {
            self.observe();
            let effects = self.app.take_effects();
            if effects.is_empty() {
                if !self.app.run_next(self.now) {
                    return;
                }
                continue;
            }
            for effect in effects {
                if let Some(reply) = self.perform(effect) {
                    self.observe();
                    self.app.handle_event(RuntimeEvent::Answer(reply), self.now);
                }
            }
        }
    }

    fn store_write(&self) -> Result<(), String> {
        match self.store {
            Store::CannotWrite | Store::CannotRead => Err("no state directory".to_string()),
            _ => Ok(()),
        }
    }

    fn perform(&mut self, effect: Effect) -> Option<Reply> {
        match effect {
            Effect::Spawn(request) => {
                let started = match self.spawn_mode {
                    Spawns::Succeed => true,
                    Spawns::Fail => false,
                    Spawns::SucceedOnce => self.spawns.is_empty(),
                };
                self.spawns.push(request);
                Some(Reply::Done(started))
            },
            Effect::Kill(_) => {
                self.kills += 1;
                Some(Reply::Done(!(self.first_kill_fails && self.kills == 1)))
            },
            Effect::Discard(_) => {
                self.kills += 1;
                None
            },
            Effect::Terminate { signal, grace_millis, .. } => {
                self.terminates += 1;
                self.termination = Some((signal, grace_millis));
                Some(Reply::Done(!self.terminate_fails))
            },
            Effect::Pause(_) | Effect::Resume(_) => Some(Reply::Done(!self.pause_fails)),
            Effect::Write { bytes, .. } => {
                self.written.extend_from_slice(&bytes);
                None
            },
            Effect::SetSessionState { session, state } => {
                let result = self.store_write();
                if result.is_ok() && self.store == Store::Works {
                    let index = self.sessions.iter().position(|found| found.id == session);
                    let Some(index) = index else {
                        return Some(Reply::Wrote(Err("no such session".to_string())));
                    };
                    let mut found = self.sessions.remove(index);
                    found.state = state;
                    self.sessions.push(found);
                }
                Some(Reply::Wrote(result))
            },
            Effect::Prepare { tool, name, command, resume } => {
                self.next_session += 1;
                let id = format!("session-{}", self.next_session);
                let compound = command.as_ref().is_some_and(|command| command.contains('|'));
                let launch = match (&command, tool) {
                    (Some(_), AgentTool::Claude) if compound => None,
                    (Some(command), AgentTool::Claude) => Some(format!("{command} --session-id {id}")),
                    (Some(command), _) => Some(command.clone()),
                    (None, _) => None,
                };
                Some(Reply::Prepared(Prepared {
                    tool,
                    name,
                    command,
                    resume_valid: resume
                        .as_ref()
                        .is_some_and(|resume| resume.contains("{session_id}")),
                    resume,
                    needs_resume: compound,
                    id: Some(id),
                    launch,
                }))
            },
            Effect::Record(session) => {
                if let Err(error) = self.store_write() {
                    return Some(Reply::Stored(Err(error)));
                }
                if self.store == Store::Works {
                    self.sessions.retain(|found| found.id != session.id);
                    self.sessions.push(session.copied());
                }
                Some(Reply::Stored(Ok(session)))
            },
            Effect::LinkConfigured(candidate) => {
                let key = candidate.configured_key.clone();
                if let Some(found) =
                    self.sessions.iter().find(|found| found.configured_key == key)
                {
                    return Some(Reply::Linked(Ok(found.id.clone())));
                }
                let id = candidate.id.clone();
                self.sessions.push(candidate);
                Some(Reply::Linked(Ok(id)))
            },
            Effect::Pin(session) => {
                if let Err(error) = self.store_write() {
                    return Some(Reply::Pinned(Err(error)));
                }
                self.pinned.push(session.copied());
                Some(Reply::Pinned(Ok((session, copy_sessions(&self.displaced)))))
            },
            Effect::Unpin { seeded, displaced } => {
                let restored = displaced.into_iter().map(|record| record.id).collect();
                self.unpinned.push((seeded.id, restored));
                Some(Reply::Wrote(Ok(())))
            },
            Effect::RetireOrphaned { live, .. } => {
                self.live_names = live;
                Some(Reply::Wrote(Ok(())))
            },
            Effect::OpenWorkspace(place) => Some(Reply::Opened {
                config: self.read_workspace(),
                exists: self.has_config(&place),
            }),
            Effect::Locate { name, folder } => {
                let found = place(&format!("{folder}/{PROJECT_CONFIG_FILE}"));
                let exists = self.has_config(&found);
                Some(Reply::Located { name, place: found, exists })
            },
            Effect::Register { name, place: stored } => Some(Reply::Registered(
                self.registered().and_then(|projects| {
                    let project = project(&name, &stored.identity);
                    let (list, preimage) = register_project(projects, project.copied());
                    self.save_projects(list).map(|_| (project, preimage))
                }),
            )),
            Effect::Unregister(place) => Some(Reply::Wrote(
                self.registered()
                    .and_then(|projects| self.save_projects(without_project(projects, &place))),
            )),
            Effect::RollBack { project, preimage } => {
                if let Ok(projects) = self.registered() {
                    let restored = rollback_registration(
                        projects,
                        &project.name,
                        &project.config,
                        &preimage,
                    );
                    let _ = self.save_projects(restored);
                }
                self.taken_back.push(preimage.into_iter().map(|entry| entry.name).collect());
                None
            },
            Effect::CreateWorkspace(place) => Some(Reply::Created(if self.has_config(&place) {
                Ok(false)
            } else {
                self.save_workspace(&place, starter_config()).map(|_| true)
            })),
            Effect::SaveWorkspace(place) => {
                Some(Reply::Wrote(self.save_workspace(&place, starter_config())))
            },
            Effect::Append { place, kind, spec } => Some(Reply::Appended(
                self.read_workspace().and_then(|config| {
                    let (edited, occurrence) = append_spec(config, kind, &spec);
                    self.save_workspace(&place, edited.copied())
                        .map(|_| (edited, spec, occurrence))
                }),
            )),
            Effect::RemoveEntry { place, target, occurrence } => Some(Reply::Edited(
                self.read_workspace().and_then(|config| {
                    let (edited, found) = target.without(config, occurrence);
                    if found {
                        self.save_workspace(&place, edited.copied())?;
                    }
                    Ok((edited, found))
                }),
            )),
            Effect::SetAutostart { place, target, occurrence, autostart } => Some(Reply::Edited(
                self.read_workspace().and_then(|config| {
                    let (edited, found) =
                        target.with_autostart(config, occurrence, Some(autostart));
                    if found {
                        self.save_workspace(&place, edited.copied())?;
                    }
                    Ok((edited, found))
                }),
            )),
            Effect::Notify(notification) => {
                self.shown.push(Shown {
                    identifier: notification.identifier,
                    scope: notification.scope,
                    body: notification.body,
                });
                None
            },
            Effect::CloseNotification { pane, identifier, .. } => {
                self.closed.push((pane, identifier));
                None
            },
            Effect::SaveSettings(desktop) => {
                self.saved_setting = Some(desktop);
                Some(Reply::Wrote(Ok(())))
            },
            Effect::Complete(_) => Some(Reply::Completions(self.candidates.clone())),
            Effect::RequestCompletions { generation, partial } => {
                self.requests.push((generation, partial));
                None
            },
            Effect::ResizePane { pane, size } => {
                self.resized.push((pane, size));
                None
            },
            Effect::WriteHeld { pane, encoding, key } => {
                self.held.push((pane, encoding, key.kind));
                None
            },
            Effect::RespawnAfter { pane, generation, millis } => {
                self.respawns.push((pane, generation, millis));
                None
            },
            Effect::ForceStopAfter { .. }
            | Effect::Watch(_)
            | Effect::OpenEditor(_) => None,
        }
    }

    // What the application shows.

    fn state(&self) -> ProcessState {
        self.state_in(PANE)
    }

    fn state_in(&self, pane: PaneId) -> ProcessState {
        self.app.workspace.process(pane).expect("a process").state
    }

    fn activity(&self) -> ActivityState {
        self.activity_in(PANE)
    }

    fn activity_in(&self, pane: PaneId) -> ActivityState {
        self.app.workspace.process(pane).expect("a process").activity
    }

    fn generation(&self, pane: PaneId) -> u64 {
        self.app.ledger.generation(pane).expect("a generation")
    }

    fn current_gen(&self) -> u64 {
        self.generation(PANE)
    }

    fn life(&self, pane: PaneId) -> PaneLife {
        self.app.panes.life(pane).expect("a pane")
    }

    fn alive(&self, pane: PaneId) -> bool {
        self.app.panes.is_alive(pane)
    }

    fn intent(&self) -> ExitIntent {
        self.life(PANE).exit_intent
    }

    fn shutdown_gen(&self) -> u64 {
        self.life(PANE).shutdown_generation
    }

    fn notice(&self) -> Option<String> {
        self.app.feedback.notice.as_ref().map(|message| message.text())
    }

    fn notice_contains(&self, text: &str) -> bool {
        self.notice().is_some_and(|notice| notice.contains(text))
    }

    fn names(&self) -> Vec<String> {
        self.app.workspace.processes.iter().map(|process| process.name.clone()).collect()
    }

    fn commands(&self) -> Vec<String> {
        self.app
            .workspace
            .processes
            .iter()
            .filter_map(|process| process.command.clone())
            .collect()
    }

    fn named(&self, name: &str) -> &Process {
        self.app
            .workspace
            .processes
            .iter()
            .find(|process| process.name == name)
            .expect("a process of that name")
    }

    fn selected(&self) -> &Process {
        self.app.workspace.selected_process().expect("a selected process")
    }

    fn form(&self) -> Option<&FormOverlay> {
        form_of(&self.app.overlay)
    }

    fn switcher(&self) -> Option<&Switcher> {
        switcher_of(&self.app.overlay)
    }

    fn confirmation_open(&self) -> bool {
        matches!(
            &self.app.overlay,
            Some(Overlay::ConfirmOverwrite { .. } | Overlay::ConfirmRemoval { .. })
        )
    }

    fn current(&self) -> Option<String> {
        self.app.catalog.current.as_ref().map(|place| place.path.clone())
    }

    fn saved_names(&self) -> Vec<String> {
        self.saved_projects
            .as_ref()
            .expect("the registry was saved")
            .iter()
            .map(|project| project.name.clone())
            .collect()
    }

    fn last_session(&self) -> &AgentSession {
        self.sessions.last().expect("a recorded session")
    }

    fn areas(&self) -> Areas {
        areas(area())
    }

    fn offset(&self) -> usize {
        self.app.pane_scroll_metrics(PANE).expect("pane metrics").offset
    }

    // What happens to it.

    fn output(&mut self, pane: PaneId, generation: u64, output: ProcessOutput) {
        self.act(|app, now| {
            app.handle_event(RuntimeEvent::Output { pane, generation, output }, now)
        });
    }

    fn emit(&mut self, bytes: &[u8]) {
        let generation = self.current_gen();
        self.output(PANE, generation, chunk(bytes));
    }

    fn exit(&mut self, outcome: ExitOutcome) {
        let generation = self.current_gen();
        self.output(PANE, generation, exited(outcome));
    }

    /// Feeds bytes into the selected pane's terminal.
    fn feed(&mut self, bytes: &[u8]) {
        self.app.panes.process(PANE, &bytes.to_vec());
    }

    fn feed_lines(&mut self, count: usize) {
        for line in 0..count {
            self.feed(format!("line {line}\r\n").as_bytes());
        }
    }

    fn key(&mut self, key: KeyEvent) {
        self.act(|app, now| app.handle_event(RuntimeEvent::Input(InputEvent::Key { key, escape: None }), now));
    }

    fn press(&mut self, code: KeyCode) {
        self.key(KeyEvent::new(code, KeyModifiers::none()));
    }

    fn leader(&mut self) {
        self.key(KeyEvent::new(
            KeyCode::Char(LEADER_KEY),
            KeyModifiers { shift: false, alt: false, control: true },
        ));
    }

    fn type_text(&mut self, text: &str) {
        for c in text.chars() {
            self.press(KeyCode::Char(c));
        }
    }

    fn mouse(&mut self, kind: MouseEventKind, column: u16, row: u16) {
        self.mouse_on(kind, column, row, None);
    }

    fn mouse_on(
        &mut self,
        kind: MouseEventKind,
        column: u16,
        row: u16,
        sidebar_row: Option<SidebarSelection>,
    ) {
        let mouse = MouseEvent { kind, column, row, modifiers: KeyModifiers::none() };
        let facts = PointerFacts { notice_region: None, toast_region: None, sidebar_row };
        self.act(|app, now| app.handle_input(InputEvent::Mouse { mouse, facts }, now));
    }

    fn down(&mut self, column: u16, row: u16) {
        self.mouse(MouseEventKind::Down(MouseButton::Left), column, row);
    }

    fn drag(&mut self, column: u16, row: u16) {
        self.mouse(MouseEventKind::Drag(MouseButton::Left), column, row);
    }

    fn up(&mut self, column: u16, row: u16) {
        self.mouse(MouseEventKind::Up(MouseButton::Left), column, row);
    }

    /// The first cell of the pane's text.
    fn corner(&self) -> (u16, u16) {
        let main = self.areas().main;
        (main.x + BORDER_THICKNESS, main.y + BORDER_THICKNESS)
    }

    fn clipboard(&mut self) -> Option<String> {
        self.app.take_pending_clipboard()
    }

    fn config_changed(&mut self, path: &str) {
        let config = self.read_workspace();
        let path = path.to_string();
        self.act(|app, now| {
            app.handle_event(RuntimeEvent::ConfigChanged { path, config }, now)
        });
    }

    fn create_session(&mut self, tool: AgentTool) -> PaneId {
        self.act(|app, _| app.create_agent_session(tool, None, None, None));
        self.selected().id
    }

    fn launch_session(&mut self, tool: AgentTool) -> PaneId {
        let values = vec![format!("{tool:?}"), String::new(), String::new()];
        self.act(|app, _| app.launch_agent_session(&values));
        self.selected().id
    }

    fn add_terminal(&mut self, name: &str, command: &str) {
        let (name, command) = (name.to_string(), command.to_string());
        self.act(|app, now| {
            app.add_configured_process(ProcessKind::Terminal, &name, &command, now)
        });
    }

    fn new_project(&mut self, name: &str, folder: &str) {
        let values = vec![name.to_string(), folder.to_string()];
        self.act(|app, _| app.new_project(&values));
    }

    fn force_stop(&mut self, spawn_generation: u64, shutdown_generation: u64) {
        self.act(|app, now| {
            app.handle_event(
                RuntimeEvent::ForceStop { pane: PANE, spawn_generation, shutdown_generation },
                now,
            )
        });
    }

    fn force_stop_now(&mut self) {
        let (spawn, shutdown) = (self.current_gen(), self.shutdown_gen());
        self.force_stop(spawn, shutdown);
    }

    fn stop_selected(&mut self) {
        self.act(|app, now| app.stop_selected(now));
    }

    fn restart_selected(&mut self) {
        self.act(|app, now| app.restart_selected(now));
    }

    fn open_switcher(&mut self) {
        self.act(|app, _| app.open_switcher());
    }

    fn switcher_key(&mut self, code: KeyCode) {
        self.act(|app, _| {
            app.handle_switcher_key(KeyEvent::new(code, KeyModifiers::none()))
        });
    }

    fn close_session(&mut self, pane: PaneId) {
        self.act(|app, _| app.close_agent_session(pane));
    }

    fn reopen_last(&mut self) {
        self.act(|app, now| app.reopen_last_closed_session(now));
    }

    /// Turns desktop notifications on, as a loaded settings file would.
    fn enable_desktop(&mut self) {
        self.has_notifier = true;
        self.act(|app, now| app.set_settings(Ok(true), now));
    }

    fn bodies(&self) -> Vec<Option<String>> {
        self.shown.iter().map(|shown| shown.body.clone()).collect()
    }

    /// Records what a provider calls a session's conversation.
    fn capture(&mut self, id: &str, native: &str) {
        let session = self
            .sessions
            .iter_mut()
            .find(|session| session.id == id)
            .expect("a recorded session");
        session.native_id = Some(native.to_string());
    }

    fn selected_session(&self) -> String {
        self.selected().agent_session_id.clone().expect("a session")
    }
}

fn app_with(restart: RestartPolicy) -> Host {
    Host::new(vec![terminal(restart)], "muster.yml").started()
}

fn app_with_stop_signals(kind: ProcessKind) -> Host {
    let stop = (kind == ProcessKind::Command).then_some(test_stop_policy());
    app_with_policy(kind, stop, RestartPolicy::Never)
}

fn app_with_policy(kind: ProcessKind, stop: Option<StopPolicy>, restart: RestartPolicy) -> Host {
    stopping_host(kind, stop, restart).started()
}

fn stopping_host(kind: ProcessKind, stop: Option<StopPolicy>, restart: RestartPolicy) -> Host {
    let mut process = process(PANE, "p", kind, "true");
    process.stop = stop;
    process.restart = restart;
    Host::new(vec![process], "muster.yml")
}

/// A live app whose first hard-stop delivery fails and second succeeds.
fn retrying(kind: ProcessKind, terminate_fails: bool, restart: RestartPolicy) -> Host {
    let stop = (kind == ProcessKind::Command).then_some(test_stop_policy());
    let mut host = stopping_host(kind, stop, restart);
    host.first_kill_fails = true;
    host.terminate_fails = terminate_fails;
    host.started()
}

fn failing_app(restart: RestartPolicy) -> Host {
    let mut host = Host::new(vec![terminal(restart)], "muster.yml");
    host.spawn_mode = Spawns::Fail;
    host.started()
}

/// An app started on a single "p" process, with `projects` registered and
/// `target` as the config every switch loads.
fn flow_app(projects: Vec<Project>, target: WorkspaceConfig, current: &str) -> Host {
    let mut host = Host::new(vec![terminal(RestartPolicy::Never)], current);
    host.projects = projects;
    host.workspace = Some(target);
    host.started()
}

/// An app that is not started, whose processes come from `loaded` and whose
/// config now reads `updated`.
fn loaded_app(loaded: &WorkspaceConfig, updated: WorkspaceConfig) -> Host {
    let mut host = Host::new(loaded.to_processes(), "/here/muster.yml");
    host.workspace = Some(updated);
    host
}

/// An empty app wired to recorded session state, after startup restoration.
fn agent_app(initial: Vec<AgentSession>) -> Host {
    let mut host = Host::new(vec![], "/here/muster.yml");
    host.store = Store::Works;
    host.sessions = initial;
    host.started()
}

fn session(id: &str, name: &str, tool: AgentTool, state: AgentSessionState) -> AgentSession {
    AgentSession {
        id: id.to_string(),
        name: name.to_string(),
        tool,
        project: place("/here/muster.yml"),
        launch_command: program(tool),
        working_dir: None,
        resume_command: None,
        native_id: None,
        configured_key: None,
        state,
        restore: None,
        reopen: None,
        owner_process: None,
        owner_token: None,
        running_token: None,
        inferred_tool: tool,
    }
}

/// A durable provider session for restoration and history tests.
fn persisted(tool: AgentTool, native: &str, state: AgentSessionState) -> AgentSession {
    let mut session = session(&format!("id-{native}"), "Ada", tool, state);
    session.native_id = Some(native.to_string());
    session
}

fn stale_terminal_app() -> Host {
    let stale = spec("stale", "stale-command").to_process(PANE, ProcessKind::Terminal);
    Host::new(vec![stale], "/here/muster.yml")
}

/// An app whose live model omits `stop` while the reloaded config writes the
/// equivalent default policy explicitly.
fn equivalent_stop_app() -> Host {
    let mut explicit = spec("server", "serve");
    explicit.stop = Some(StopPolicy::default_policy());
    loaded_app(
        &config(vec![], vec![], vec![spec("server", "serve")]),
        config(vec![], vec![], vec![explicit]),
    )
}

fn completing_app(candidates: &[&str]) -> Host {
    let mut host = Host::new(vec![terminal(RestartPolicy::Never)], "/here/muster.yml");
    host.candidates = candidates.iter().map(|text| text.to_string()).collect();
    host
}

// The pointer.

#[test]
fn mouse_aware_terminal_receives_sgr_pointer_input() {
    let mut host = app_with(RestartPolicy::Never);
    host.feed(b"\x1b[?1002h\x1b[?1006h");
    let (x, y) = host.corner();

    host.down(x, y);

    assert_eq!(host.written, b"\x1b[<0;1;1M".to_vec());
}

#[test]
fn drag_selection_copies_pane_text() {
    let mut host = app_with(RestartPolicy::Never);
    host.feed(b"hello world");
    let (x, y) = host.corner();

    host.down(x, y);
    host.drag(x + 4, y);
    host.up(x + 4, y);

    assert_eq!(host.clipboard(), Some("hello".to_string()));
    assert_eq!(host.clipboard(), None);
}

#[test]
fn click_without_drag_copies_nothing() {
    let mut host = app_with(RestartPolicy::Never);
    host.feed(b"hello world");
    let (x, y) = host.corner();

    host.down(x, y);
    host.up(x, y);

    assert_eq!(host.clipboard(), None);
}

#[test]
fn drag_from_sidebar_selects_nothing() {
    let mut host = app_with(RestartPolicy::Never);
    host.feed(b"hello world");
    let sidebar = host.areas().sidebar;
    let (x, y) = host.corner();

    host.down(sidebar.x + 1, sidebar.y + 1);
    host.drag(x + 5, y);
    host.up(x + 5, y);

    assert_eq!(host.clipboard(), None);
}

#[test]
fn wheel_scrolls_primary_screen_scrollback() {
    let mut host = app_with(RestartPolicy::Never);
    host.feed_lines(64);
    let (x, y) = host.corner();

    host.mouse(MouseEventKind::ScrollUp, x, y);

    assert_eq!(host.offset(), WHEEL_SCROLL_LINES);
}

#[test]
fn wheel_in_alternate_screen_sends_cursor_keys() {
    let mut host = app_with(RestartPolicy::Never);
    host.feed(b"\x1b[?1049h");
    let (x, y) = host.corner();

    host.mouse(MouseEventKind::ScrollDown, x, y);

    assert_eq!(host.written, b"\x1b[B".repeat(WHEEL_SCROLL_LINES));
}

#[test]
fn pane_click_focuses_the_terminal() {
    let mut host = app_with(RestartPolicy::Never);
    host.feed(b"hello");
    let (x, y) = host.corner();

    host.down(x, y);

    assert_eq!(host.app.focus, Focus::Terminal);
}

#[test]
fn double_click_copies_the_word_under_the_pointer() {
    let mut host = app_with(RestartPolicy::Never);
    host.feed(b"hello world");
    let (x, y) = host.corner();
    for _ in 0..2 {
        host.down(x + 7, y);
        host.up(x + 7, y);
    }

    assert_eq!(host.clipboard(), Some("world".to_string()));
    assert!(host.app.pointer.selection.is_some());
    let later = at(1_000 + PANE_COPY_HIGHLIGHT_MILLIS);
    assert!(host.app.advance_selection(later));
    assert!(host.app.pointer.selection.is_none());
}

#[test]
fn drag_past_top_edge_autoscrolls_into_scrollback() {
    let mut host = app_with(RestartPolicy::Never);
    host.feed_lines(64);
    let (x, top) = host.corner();
    let edge = host.areas().main.y;

    host.down(x, top);
    host.drag(x + 2, top);
    host.drag(x + 2, edge);

    let scrolled = host.offset();
    assert_eq!(scrolled, edge_scroll_lines(1));
    assert!(host.app.advance_selection(at(1_000 + SELECTION_AUTOSCROLL_MILLIS)));
    assert_eq!(host.offset(), scrolled + 1);
}

#[test]
fn wheel_extends_an_active_selection() {
    let mut host = app_with(RestartPolicy::Never);
    host.feed_lines(64);
    let (x, y) = host.corner();

    host.down(x, y);
    host.mouse(MouseEventKind::ScrollUp, x, y);
    host.up(x, y);

    let copied = host.clipboard().expect("wheel-extended copy");
    assert!(copied.contains("line 41"));
}

#[test]
fn extraction_walks_scrollback_chunks() {
    let mut host = app_with(RestartPolicy::Never);
    host.feed_lines(64);
    let mut selection = Selection::anchored(PANE, BufferCell { row: 0, column: 0 });
    selection.extend_to(BufferCell { row: 45, column: 3 });

    let text = host.app.extract_selection_text(PANE, selection).expect("spanning extraction");

    assert!(text.starts_with("line 0"));
    assert!(text.contains("line 30"));
    assert!(text.ends_with("line"));
    assert_eq!(host.offset(), 0);
}

#[test]
fn sidebar_click_selects_the_clicked_process() {
    let mut host = Host::new(
        vec![
            process(PANE, "first", ProcessKind::Terminal, "true"),
            process(1, "second", ProcessKind::Terminal, "true"),
        ],
        "muster.yml",
    )
    .started();
    let sidebar = host.areas().sidebar;

    host.mouse_on(
        MouseEventKind::Down(MouseButton::Left),
        sidebar.x + 1,
        sidebar.y + 3,
        Some(SidebarSelection::Process(1)),
    );

    assert_eq!(host.app.workspace.selected, 1);
    assert_eq!(host.app.focus, Focus::Sidebar);
}

#[test]
fn sidebar_click_on_dead_space_refocuses_the_sidebar() {
    let mut host = app_with(RestartPolicy::Never);
    host.feed(b"hello");
    let sidebar = host.areas().sidebar;
    let (x, y) = host.corner();
    host.down(x, y);
    assert_eq!(host.app.focus, Focus::Terminal);

    host.down(sidebar.x + 1, sidebar.y + sidebar.height - 1);

    assert_eq!(host.app.focus, Focus::Sidebar);
    assert_eq!(host.app.workspace.selected, 0);
}

#[test]
fn hovering_pane_text_requests_the_ibeam_pointer() {
    let mut host = app_with(RestartPolicy::Never);
    let sidebar = host.areas().sidebar;
    let (x, y) = host.corner();

    host.mouse(MouseEventKind::Moved, x, y);
    assert_eq!(host.app.take_pending_pointer_shape(), Some(PointerShape::Text));

    host.mouse(MouseEventKind::Moved, x + 1, y);
    assert_eq!(host.app.take_pending_pointer_shape(), None);

    host.mouse(MouseEventKind::Moved, sidebar.x + 1, sidebar.y + 1);
    assert_eq!(host.app.take_pending_pointer_shape(), Some(PointerShape::Default));
}

// Output and activity.

#[test]
fn failed_initial_agent_spawn_remains_a_pending_fresh_launch() {
    let mut host = Host::new(vec![], "muster.yml");
    host.store = Store::Works;
    host.spawn_mode = Spawns::Fail;
    let mut host = host.started();

    let pane = host.create_session(AgentTool::Codex);

    assert_eq!(host.state_in(pane), ProcessState::Crashed);
    assert_eq!(host.last_session().state, AgentSessionState::Pending);
    assert_eq!(host.last_session().launch_command, "codex");
    host.observe();
    let sessions = host.app.agent_sessions().expect("readable sessions");
    assert_eq!(sessions[0].restore.as_deref(), Some("codex"));
}

#[test]
fn exit_without_restart_keeps_the_parser_and_marks_crashed() {
    let mut host = app_with(RestartPolicy::Never);
    host.exit(ExitOutcome::Failed);

    assert!(host.app.panes.get(PANE).is_some(), "parser retained");
    assert!(!host.alive(PANE), "live handle dropped");
    assert_eq!(host.state(), ProcessState::Crashed);
}

#[test]
fn output_marks_the_process_working() {
    let mut host = app_with(RestartPolicy::Never);
    host.emit(b"compiling...");
    assert_eq!(host.activity(), ActivityState::Working);
}

#[test]
fn ordinary_output_returns_to_idle_after_becoming_quiet() {
    let mut host = app_with(RestartPolicy::Never);
    host.emit(b"prompt> ");
    let deadline = host
        .app
        .next_activity_deadline()
        .expect("ordinary output schedules an idle transition");

    assert!(host.app.expire_quiet_activity(deadline));
    assert_eq!(host.activity(), ActivityState::Idle);
    assert!(host.app.next_activity_deadline().is_none());
}

#[test]
fn explicit_progress_stays_working_until_a_protocol_update() {
    let mut host = app_with(RestartPolicy::Never);
    host.emit(b"\x1b]9;4;1;40\x07");
    host.emit(b"still working");

    assert!(host.app.next_activity_deadline().is_none());
    assert!(!host.app.expire_quiet_activity(at(1_000 + OUTPUT_IDLE_TIMEOUT_MILLIS)));
    assert_eq!(host.activity(), ActivityState::Working);
}

#[test]
fn a_foreground_terminal_bell_marks_awaiting_input_without_notifying() {
    let mut host = app_with(RestartPolicy::Never);
    host.enable_desktop();

    host.emit(b"\x07");

    assert_eq!(host.activity(), ActivityState::AwaitingInput);
    assert!(host.notice().is_none(), "the sidebar marker is sufficient in the foreground");
    assert_eq!(host.shown.len(), 0, "foreground shell bells stay local");
}

#[test]
fn a_title_only_notification_has_no_duplicate_desktop_body() {
    let mut host = app_with(RestartPolicy::Never);
    host.enable_desktop();

    host.emit(b"\x1b]99;;Hello world\x1b\\");

    assert!(host.notice_contains("Hello world"));
    assert_eq!(host.bodies(), [None]);
}

#[test]
fn an_st_terminated_notification_keeps_the_awaiting_marker() {
    let mut host = app_with(RestartPolicy::Never);
    host.emit(b"\x1b]777;notify;agent;done\x1b\\");
    assert_eq!(host.activity(), ActivityState::AwaitingInput);
}

#[test]
fn a_burst_of_foreground_bells_does_not_notify() {
    let mut host = app_with(RestartPolicy::Never);
    host.enable_desktop();

    for _ in 0..5 {
        host.emit(b"\x07");
    }
    assert_eq!(host.shown.len(), 0, "foreground shell bells stay local");
}

/// Adds a running terminal behind the selected one.
fn spawn_background(host: &mut Host, kind: ProcessKind) -> PaneId {
    let background = PANE + 1;
    host.app.workspace.insert_in_section(process(background, "background", kind, "sh"));
    host.act(|app, now| app.spawn(background, Some("sh".to_string()), None, now));
    background
}

#[test]
fn a_quiet_background_terminal_bell_escalates_once() {
    let mut host = app_with(RestartPolicy::Never);
    host.enable_desktop();
    let background = spawn_background(&mut host, ProcessKind::Terminal);
    let generation = host.generation(background);

    host.output(background, generation, chunk(b"\x07"));

    assert_eq!(host.shown.len(), 0, "the bell is initially sidebar-only");
    let deadline = host
        .app
        .next_activity_deadline()
        .expect("background bell has an escalation deadline");
    assert!(host.app.expire_quiet_activity(deadline));
    host.settle();

    assert_eq!(host.bodies(), [Some(AWAITING_INPUT_NOTICE.to_string())]);
}

#[test]
fn an_exited_background_terminal_cancels_its_pending_bell() {
    let mut host = app_with(RestartPolicy::Never);
    host.enable_desktop();
    let background = spawn_background(&mut host, ProcessKind::Terminal);
    let generation = host.generation(background);

    host.output(background, generation, chunk(b"\x07"));
    host.output(background, generation, exited(ExitOutcome::Succeeded));

    assert!(!host.app.expire_quiet_activity(at(1_000 + BELL_ESCALATION_DELAY_MILLIS)));
    host.settle();
    assert_eq!(host.shown.len(), 0);
}

#[test]
fn an_agent_bell_notifies_immediately() {
    let mut host =
        Host::new(vec![process(PANE, "agent", ProcessKind::Agent, "agent")], "muster.yml");
    host.enable_desktop();
    let mut host = host.started();

    host.emit(b"\x07");

    assert_eq!(host.bodies(), [Some(AWAITING_INPUT_NOTICE.to_string())]);
}

#[test]
fn kitty_update_and_close_identifiers_reach_the_notifier() {
    let mut host = app_with(RestartPolicy::Never);
    host.enable_desktop();

    host.emit(
        b"\x1b]99;i=build;first\x1b\\\x1b]99;i=build;second\x1b\\\x1b]99;i=build:p=close;\x1b\\",
    );

    let identifiers: Vec<String> =
        host.shown.iter().filter_map(|shown| shown.identifier.clone()).collect();
    assert_eq!(identifiers, ["build", "build"]);
    assert_eq!(host.closed, [(PANE, "build".to_string())]);
}

#[test]
fn a_reused_pane_gets_a_new_notification_scope_after_project_switch() {
    let mut host = app_with(RestartPolicy::Never);
    host.enable_desktop();

    host.emit(b"\x1b]99;i=build;old project\x1b\\");
    host.act(|app, _| app.load_project(&one_agent_config("new project"), place("new-project.yml")));
    host.emit(b"\x1b]99;i=build;new project\x1b\\");

    let scopes: Vec<u64> = host.shown.iter().map(|shown| shown.scope).collect();
    assert_eq!(scopes.len(), 2);
    assert_ne!(scopes[0], scopes[1]);
}

#[test]
fn desktop_off_suppresses_the_notification_but_not_the_notice() {
    let mut host = app_with(RestartPolicy::Never);
    host.has_notifier = true;
    host.app.settings = SettingsState::Loaded(false);

    host.emit(b"\x1b]9;attention requested\x07");

    assert!(host.notice().is_some(), "the in-app notice still shows");
    assert_eq!(host.shown.len(), 0, "no desktop notification while the setting is off");
}

#[test]
fn toggling_notifications_flips_and_persists_the_setting() {
    let mut host = app_with(RestartPolicy::Never);
    host.act(|app, now| app.set_settings(Ok(true), now));
    assert!(host.app.desktop_notifications_enabled(), "loads desktop-on");

    host.press(KeyCode::Char('N'));

    assert!(!host.app.desktop_notifications_enabled(), "the toggle flips the live setting");
    assert_eq!(host.saved_setting, Some(false), "the new value is persisted");
}

#[test]
fn a_settings_load_error_blocks_the_toggle_without_saving() {
    let mut host = app_with(RestartPolicy::Never);
    host.act(|app, now| app.set_settings(Err("malformed".to_string()), now));
    assert!(matches!(host.app.settings, SettingsState::LoadFailed(_)));

    host.press(KeyCode::Char('N'));

    assert_eq!(host.saved_setting, None, "the malformed file must not be replaced");
    assert!(
        host.notice_contains(SETTINGS_LOAD_ERROR),
        "the load failure is reported when the toggle is refused"
    );
}

// Lifecycle.

#[test]
fn a_restart_clears_the_awaiting_input_marker() {
    let mut host = app_with(RestartPolicy::Always);
    host.emit(b"\x07");
    assert_eq!(host.activity(), ActivityState::AwaitingInput);

    host.exit(ExitOutcome::Failed);
    assert_eq!(host.state(), ProcessState::Restarting);
    assert_eq!(
        host.activity(),
        ActivityState::Idle,
        "a process in restart backoff shows no attention marker"
    );
}

#[test]
fn spawn_failure_under_auto_restart_stays_in_backoff() {
    let host = failing_app(RestartPolicy::Always);

    assert_eq!(host.state(), ProcessState::Restarting);
    assert!(
        host.app.ledger.attempts_of(PANE) > 0,
        "a backoff retry must be scheduled after a failed spawn"
    );
}

#[test]
fn spawn_failure_without_restart_is_crashed() {
    let host = failing_app(RestartPolicy::Never);
    assert_eq!(host.state(), ProcessState::Crashed);
}

#[test]
fn pause_then_resume_toggles_state_while_the_process_stays_alive() {
    let mut host = app_with(RestartPolicy::Never);
    assert_eq!(host.state(), ProcessState::Running);

    host.act(|app, _| app.toggle_pause_selected());
    assert_eq!(host.state(), ProcessState::Paused);
    assert!(host.alive(PANE), "a paused process keeps its live handle");

    host.act(|app, _| app.toggle_pause_selected());
    assert_eq!(host.state(), ProcessState::Running);
}

#[test]
fn pausing_a_finished_process_is_a_noop() {
    let mut host = app_with(RestartPolicy::Never);
    host.stop_selected();
    host.exit(ExitOutcome::Succeeded);
    assert_eq!(host.state(), ProcessState::Exited);

    host.act(|app, _| app.toggle_pause_selected());
    assert_eq!(host.state(), ProcessState::Exited, "there is no live process to pause");
}

#[test]
fn a_failed_pause_signal_leaves_the_state_unchanged() {
    let mut host = app_with(RestartPolicy::Never);
    host.pause_fails = true;
    assert_eq!(host.state(), ProcessState::Running);

    host.act(|app, _| app.toggle_pause_selected());

    assert_eq!(
        host.state(),
        ProcessState::Running,
        "a failed pause signal must not flip the state"
    );
}

#[test]
fn user_stop_is_exited_not_crashed_even_on_nonzero_exit() {
    let mut host = app_with(RestartPolicy::Always);
    host.stop_selected();
    host.exit(ExitOutcome::Failed);

    assert_eq!(host.state(), ProcessState::Exited);
    assert!(!host.alive(PANE));
}

#[test]
fn repeated_manual_command_stop_reuses_one_graceful_escalation() {
    let mut host = app_with_stop_signals(ProcessKind::Command);
    host.stop_selected();
    host.stop_selected();

    assert_eq!(host.terminates, 1);
    assert_eq!(host.kills, 0);
    assert_eq!(host.termination, Some((StopSignal::Interrupt, TEST_STOP_GRACE_MILLIS)));
    assert_eq!(host.state(), ProcessState::Stopping);

    host.force_stop_now();
    assert_eq!(host.kills, 1);
    assert_eq!(host.notice().as_deref(), Some(FORCE_STOP_NOTICE));
}

#[test]
fn a_command_without_a_stop_policy_uses_graceful_defaults() {
    let mut host = app_with_policy(ProcessKind::Command, None, RestartPolicy::Never);

    host.stop_selected();

    assert_eq!(host.terminates, 1);
    assert_eq!(host.kills, 0);
    let policy = StopPolicy::default_policy();
    assert_eq!(host.termination, Some((policy.signal, policy.grace_millis)));
    assert_eq!(host.state(), ProcessState::Stopping);
}

#[test]
fn force_stop_bypasses_a_commands_graceful_policy() {
    let mut host = app_with_stop_signals(ProcessKind::Command);

    host.act(|app, _| app.force_stop_selected());

    assert_eq!(host.terminates, 0);
    assert_eq!(host.kills, 1);
    assert_eq!(host.state(), ProcessState::Stopping);
}

#[test]
fn restart_uses_a_commands_graceful_policy_then_respawns() {
    let mut host = app_with_stop_signals(ProcessKind::Command);

    host.restart_selected();

    assert_eq!(host.terminates, 1);
    assert_eq!(host.kills, 0);
    assert_eq!(host.state(), ProcessState::Stopping);
    assert_eq!(host.intent(), ExitIntent::RestartInFlight);

    host.exit(ExitOutcome::Succeeded);

    assert_eq!(host.state(), ProcessState::Running);
    assert!(host.alive(PANE));
}

#[test]
fn a_new_graceful_action_invalidates_the_previous_deadline() {
    let mut host = app_with_stop_signals(ProcessKind::Command);
    let spawn_generation = host.current_gen();

    host.stop_selected();
    let stale_shutdown = host.shutdown_gen();
    host.restart_selected();
    let current_shutdown = host.shutdown_gen();

    assert_ne!(stale_shutdown, current_shutdown);
    host.force_stop(spawn_generation, stale_shutdown);
    assert_eq!(host.kills, 0);
    assert_eq!(host.intent(), ExitIntent::RestartInFlight);

    host.force_stop(spawn_generation, current_shutdown);
    assert_eq!(host.kills, 1);
}

#[test]
fn a_command_stop_can_be_retried_after_both_signals_fail() {
    let mut host = retrying(ProcessKind::Command, true, RestartPolicy::Never);

    host.stop_selected();
    assert_eq!(host.intent(), ExitIntent::StopRetryable);

    host.stop_selected();
    host.stop_selected();

    assert_eq!(host.intent(), ExitIntent::StopInFlight);
    assert_eq!(host.terminates, 2);
    assert_eq!(host.kills, 2);
}

#[test]
fn a_terminal_stop_can_be_retried_after_kill_fails() {
    let mut host = retrying(ProcessKind::Terminal, true, RestartPolicy::Never);

    host.stop_selected();
    assert_eq!(host.intent(), ExitIntent::StopRetryable);

    host.stop_selected();
    host.stop_selected();

    assert_eq!(host.intent(), ExitIntent::StopInFlight);
    assert_eq!(host.terminates, 0);
    assert_eq!(host.kills, 2);
}

#[test]
fn a_command_stop_can_be_retried_after_escalation_fails() {
    let mut host = retrying(ProcessKind::Command, false, RestartPolicy::Never);

    host.stop_selected();
    host.force_stop_now();
    assert_eq!(host.intent(), ExitIntent::StopRetryable);

    host.stop_selected();
    host.force_stop_now();

    assert_eq!(host.intent(), ExitIntent::StopInFlight);
    assert_eq!(host.terminates, 2);
    assert_eq!(host.kills, 2);
}

#[test]
fn failed_stop_delivery_still_suppresses_restart_when_the_child_exits() {
    let mut host = retrying(ProcessKind::Command, true, RestartPolicy::Always);

    host.stop_selected();
    host.exit(ExitOutcome::Failed);

    assert_eq!(host.state(), ProcessState::Exited);
    assert!(!host.alive(PANE));
}

#[test]
fn a_manual_terminal_stop_remains_a_hard_kill() {
    let mut host = app_with_stop_signals(ProcessKind::Terminal);
    host.stop_selected();

    assert_eq!(host.terminates, 0);
    assert_eq!(host.kills, 1);
}

#[test]
fn a_project_switch_hard_kills_commands() {
    let mut host = app_with_stop_signals(ProcessKind::Command);
    host.act(|app, _| app.begin_switch(empty_config(), place("next.yml")));

    assert_eq!(host.terminates, 0);
    assert_eq!(host.kills, 1);
}

#[test]
fn restart_after_stop_wins_before_the_exit_arrives() {
    let mut host = app_with(RestartPolicy::Never);
    host.stop_selected();
    host.restart_selected();
    host.exit(ExitOutcome::Failed);

    assert_eq!(
        host.state(),
        ProcessState::Running,
        "the later restart must win over the pending stop"
    );
    assert!(host.alive(PANE), "the process was respawned");
}

#[test]
fn stale_respawn_after_manual_restart_is_ignored() {
    let mut host = app_with(RestartPolicy::Always);
    host.exit(ExitOutcome::Failed);
    let stale = host.current_gen();
    assert!(!host.alive(PANE));

    host.restart_selected();
    let current = host.current_gen();
    assert_ne!(current, stale);
    assert!(host.alive(PANE));

    host.act(|app, now| app.handle_respawn(PANE, stale, now));
    assert_eq!(host.current_gen(), current);
    assert!(host.alive(PANE));
}

#[test]
fn failed_forced_respawn_deactivates_the_pane() {
    let mut host = Host::new(vec![terminal(RestartPolicy::Never)], "muster.yml");
    host.spawn_mode = Spawns::SucceedOnce;
    let mut host = host.started();
    assert!(host.alive(PANE));

    host.restart_selected();
    host.exit(ExitOutcome::Failed);

    assert!(!host.alive(PANE));
    assert_eq!(host.state(), ProcessState::Crashed);
}

#[test]
fn double_leader_forwards_ctrl_a_to_the_terminal() {
    let mut host = app_with(RestartPolicy::Never);
    host.app.focus = Focus::Terminal;

    host.leader();
    host.leader();

    assert_eq!(host.written, vec![0x01]);
}

#[test]
fn repeated_key_is_forwarded_to_the_terminal() {
    let mut host = app_with(RestartPolicy::Never);
    host.app.focus = Focus::Terminal;

    let mut repeat = KeyEvent::new(KeyCode::Char('a'), KeyModifiers::none());
    repeat.kind = KeyEventKind::Repeat;
    host.key(repeat);

    assert_eq!(host.written, b"a".to_vec());
}

#[test]
fn pane_size_never_below_the_vt100_safe_minimum() {
    let size = pane_size_of(Rect::new(0, 0, 0, 0));
    assert!(size.rows >= MIN_PANE_DIMENSION);
    assert!(size.cols >= MIN_PANE_DIMENSION);
}

#[test]
fn shutdown_kills_every_live_process() {
    let mut host = Host::new(
        vec![
            process(0, "a", ProcessKind::Terminal, "true"),
            process(1, "b", ProcessKind::Terminal, "true"),
        ],
        "muster.yml",
    )
    .started();
    host.act(|app, _| app.shutdown());
    assert_eq!(host.kills, 2);
}

#[test]
fn output_from_a_superseded_generation_is_discarded() {
    let mut host = app_with(RestartPolicy::Never);
    let old_gen = host.current_gen();

    host.restart_selected();
    host.output(PANE, old_gen, exited(ExitOutcome::Failed));
    let new_gen = host.current_gen();
    assert_ne!(new_gen, old_gen);

    host.output(PANE, old_gen, chunk(b"stale"));
    host.output(PANE, new_gen, chunk(b"fresh"));

    let screen = host.app.panes.get(PANE).expect("a pane").screen.screen_text();
    assert!(screen.contains("fresh"));
    assert!(!screen.contains("stale"));
}

// Config changes.

#[test]
fn a_config_change_adds_new_processes_without_touching_running_ones() {
    let updated = config(vec![], vec![spec("p", "true")], vec![spec("q", "echo q")]);
    let mut host = flow_app(vec![], updated, "/here/muster.yml");
    assert_eq!(host.app.workspace.processes.len(), 1, "starts with the one process");

    host.config_changed("/here/muster.yml");

    assert_eq!(host.names(), ["p", "q"], "the new process is appended");
    assert_eq!(
        host.named("p").state,
        ProcessState::Running,
        "the already-running process is left untouched"
    );
    assert_eq!(
        host.named("q").state,
        ProcessState::Pending,
        "the new process appears stopped, not auto-started"
    );
}

#[test]
fn reconciliation_matches_by_full_spec_not_just_name() {
    let loaded = config(vec![], vec![], vec![spec("npm", "npm test")]);
    let updated = config(
        vec![],
        vec![],
        vec![spec("npm", "npm run dev"), spec("npm", "npm test")],
    );
    let mut host = loaded_app(&loaded, updated);

    host.config_changed("/here/muster.yml");

    assert_eq!(
        host.commands(),
        ["npm test", "npm run dev"],
        "the differently-commanded same-named spec is added; the matching one is not duplicated"
    );
}

#[test]
fn reconciliation_removes_a_stopped_process_dropped_from_config() {
    let loaded = config(vec![], vec![], vec![spec("a", "cmd-a"), spec("b", "cmd-b")]);
    let updated = config(vec![], vec![], vec![spec("a", "cmd-a")]);
    let mut host = loaded_app(&loaded, updated);

    host.config_changed("/here/muster.yml");

    assert_eq!(host.names(), ["a"], "the stopped process the config dropped is removed");
}

#[test]
fn reconciliation_keeps_a_running_process_absent_from_config() {
    let mut host = flow_app(vec![], empty_config(), "/here/muster.yml");

    host.config_changed("/here/muster.yml");

    assert!(
        host.names().contains(&"p".to_string()),
        "a running process not in the config is preserved"
    );
}

#[test]
fn reconciliation_replaces_a_stopped_process_whose_command_changed() {
    let loaded = config(vec![], vec![], vec![spec("test", "npm test")]);
    let updated = config(vec![], vec![], vec![spec("test", "npm run dev")]);
    let mut host = loaded_app(&loaded, updated);

    host.config_changed("/here/muster.yml");

    assert_eq!(
        host.commands(),
        ["npm run dev"],
        "the edited command replaces the old one, leaving no duplicate"
    );
}

#[test]
fn reconciliation_normalizes_equivalent_stop_defaults_for_a_stopped_command() {
    let mut host = equivalent_stop_app();
    let original_pane = host.app.workspace.processes[0].id;

    host.config_changed("/here/muster.yml");

    assert_eq!(host.app.workspace.processes.len(), 1);
    assert_eq!(host.app.workspace.processes[0].id, original_pane);
}

#[test]
fn reconciliation_normalizes_equivalent_stop_defaults_for_a_running_command() {
    let mut host = equivalent_stop_app();
    let pane = host.app.workspace.processes[0].id;
    host.act(|app, now| app.start_selected(now));

    host.config_changed("/here/muster.yml");

    assert_eq!(host.app.workspace.processes.len(), 1);
    assert_eq!(host.life(pane).membership, ConfigMembership::Listed);
}

#[test]
fn removing_a_project_drops_only_the_target_from_the_registry() {
    let projects = vec![project("keep", "/a/muster.yml"), project("drop", "/b/muster.yml")];
    let mut host = flow_app(projects, empty_config(), "/here/muster.yml");

    host.act(|app, _| app.remove_project(place("/b/muster.yml")));

    assert_eq!(host.saved_names(), ["keep"], "only the targeted project is removed");
}

#[test]
fn a_live_process_removed_from_config_is_retired_when_it_exits() {
    let mut host = flow_app(vec![], empty_config(), "/here/muster.yml");

    host.config_changed("/here/muster.yml");
    assert!(
        host.app.workspace.process(PANE).is_some(),
        "a running process is kept while alive"
    );

    host.act(|app, now| app.handle_exit(PANE, ExitOutcome::Succeeded, now));
    assert!(
        host.app.workspace.process(PANE).is_none(),
        "the orphaned process is removed once it exits"
    );
}

#[test]
fn reconciliation_reflects_a_restart_policy_change() {
    let with = |restart: RestartPolicy| {
        let mut spec = spec("w", "run");
        spec.restart = Some(restart);
        spec
    };
    let loaded = config(vec![], vec![], vec![with(RestartPolicy::Never)]);
    let updated = config(vec![], vec![], vec![with(RestartPolicy::Always)]);
    let mut host = loaded_app(&loaded, updated);

    host.config_changed("/here/muster.yml");

    let policies: Vec<RestartPolicy> =
        host.app.workspace.processes.iter().map(|process| process.restart).collect();
    assert_eq!(
        policies,
        vec![RestartPolicy::Always],
        "a restart-only edit is reflected, not ignored"
    );
}

#[test]
fn autostart_defaults_by_kind_and_can_be_overridden() {
    let mut eager = spec("eager", "true");
    eager.autostart = Some(true);
    let config = config(
        vec![],
        vec![ProcessSpec::new("term".to_string(), None, None)],
        vec![spec("cmd", "true"), eager],
    );
    let host = Host::new(config.to_processes(), "/here/muster.yml").started();

    assert_eq!(
        host.named("term").state,
        ProcessState::Running,
        "a terminal auto-starts by default"
    );
    assert_eq!(
        host.named("cmd").state,
        ProcessState::Pending,
        "a command stays stopped by default"
    );
    assert_eq!(
        host.named("eager").state,
        ProcessState::Running,
        "autostart: true starts a command anyway"
    );
}

#[test]
fn reconciliation_reflects_an_autostart_change() {
    let with = |autostart: bool| {
        let mut spec = spec("w", "run");
        spec.autostart = Some(autostart);
        spec
    };
    let loaded = config(vec![], vec![], vec![with(false)]);
    let updated = config(vec![], vec![], vec![with(true)]);
    let mut host = loaded_app(&loaded, updated);

    host.config_changed("/here/muster.yml");

    let autostarts: Vec<bool> =
        host.app.workspace.processes.iter().map(|process| process.autostart).collect();
    assert_eq!(
        autostarts,
        vec![true],
        "an autostart-only edit is reflected, not collapsed as no change"
    );
}

#[test]
fn a_config_change_for_a_different_path_is_ignored() {
    let mut host = flow_app(vec![], one_agent_config("a"), "/here/muster.yml");
    host.config_changed("/elsewhere/muster.yml");
    assert_eq!(
        host.app.workspace.processes.len(),
        1,
        "a change to some other project's config does not reconcile this one"
    );
}

// The sidebar.

#[test]
fn the_sidebar_navigates_into_project_rows_and_activates_them() {
    let projects = vec![project("one", "/a/muster.yml"), project("two", "/b/muster.yml")];
    let mut host = flow_app(projects, empty_config(), "/here/muster.yml");

    assert!(host.app.catalog.cursor.is_none(), "starts on the process list");
    host.press(KeyCode::Char('j'));
    assert_eq!(host.app.catalog.cursor, Some(0));
    host.press(KeyCode::Char('j'));
    assert_eq!(host.app.catalog.cursor, Some(1));
    host.press(KeyCode::Char('k'));
    assert_eq!(host.app.catalog.cursor, Some(0));
    host.press(KeyCode::Char('h'));
    assert!(host.app.catalog.cursor.is_none());

    host.press(KeyCode::Char('j'));
    host.press(KeyCode::Enter);
    assert!(host.app.catalog.cursor.is_none(), "activating clears the cursor");
    assert!(
        host.app.pending_switch.is_some(),
        "a switch into the project was initiated"
    );
}

#[test]
fn the_launched_project_stays_reachable_after_switching_away() {
    let projects = vec![project("one", "/a/muster.yml")];
    let host = flow_app(projects, empty_config(), "/here/muster.yml");
    assert!(
        host.app
            .catalog
            .projects
            .iter()
            .any(|project| project.config.path == "/here/muster.yml"),
        "the launched config is kept in the project list"
    );
}

#[test]
fn relative_projects_are_not_opened_from_the_ui() {
    let projects = vec![project("legacy", PROJECT_CONFIG_FILE)];
    let mut host = flow_app(projects, empty_config(), "/here/muster.yml");

    host.press(KeyCode::Char('j'));
    host.press(KeyCode::Enter);

    assert!(host.app.pending_switch.is_none());
    assert!(host.notice_contains("unsupported relative"));

    host.open_switcher();
    host.switcher_key(KeyCode::Enter);

    assert!(host.app.pending_switch.is_none());
    assert!(host.switcher().expect("an open switcher").error.is_some());
    assert_eq!(host.current().as_deref(), Some("/here/muster.yml"));
}

#[test]
fn process_actions_are_ignored_when_a_project_row_is_selected() {
    let projects = vec![project("one", "/a/muster.yml")];
    let mut host = flow_app(projects, empty_config(), "/here/muster.yml");

    host.press(KeyCode::Char('j'));
    assert_eq!(host.app.catalog.cursor, Some(0));

    host.press(KeyCode::Char('x'));
    assert_eq!(
        host.intent(),
        ExitIntent::FollowPolicy,
        "x on a project row leaves the active process running"
    );
}

#[test]
fn d_on_a_project_row_removes_it_after_confirmation() {
    let projects = vec![project("alpha", "/a/muster.yml"), project("beta", "/b/muster.yml")];
    let mut host = flow_app(projects, empty_config(), "/a/muster.yml");

    host.press(KeyCode::Char('j'));
    assert_eq!(host.app.catalog.cursor, Some(0));

    host.press(KeyCode::Char('d'));
    assert!(host.confirmation_open(), "d asks before removing");
    assert!(
        host.saved_projects.is_none(),
        "nothing is persisted until the confirmation is accepted"
    );

    host.press(KeyCode::Char('y'));
    assert_eq!(host.saved_names(), ["alpha"], "only the row's project goes");
}

#[test]
fn d_on_the_synthetic_launched_row_is_refused() {
    let projects = vec![project("saved", "/saved/muster.yml")];
    let mut host = flow_app(projects, empty_config(), "/here/muster.yml");
    host.app.catalog.current = Some(place("/saved/muster.yml"));
    host.act(|app, _| app.refresh_projects());
    assert!(host.app.catalog.synthetic, "the launched config is unsaved");

    host.press(KeyCode::Char('j'));
    assert_eq!(host.app.catalog.cursor, Some(0));

    host.press(KeyCode::Char('d'));
    assert!(!host.confirmation_open(), "no removal is offered for an unsaved project");
    assert!(host.notice().is_some(), "the user is told why nothing happened");
    assert!(host.saved_projects.is_none(), "the registry is not rewritten");
}

#[test]
fn t_on_a_process_row_toggles_autostart_and_persists_it() {
    let mut command = spec("cmd", "true");
    command.stop = Some(test_stop_policy());
    let config = config(vec![], vec![], vec![command]);
    let mut host = loaded_app(&config, config.copied()).started();

    assert!(!host.selected().autostart, "a command defaults to not auto-starting");

    host.press(KeyCode::Char('t'));

    assert!(host.selected().autostart, "t flips the live autostart flag");
    assert_eq!(host.workspaces.len(), 1, "the change is persisted once");
    assert_eq!(
        host.workspaces[0].1.commands[0].autostart,
        Some(true),
        "the command spec is saved with autostart on"
    );
    assert_eq!(
        host.workspaces[0].1.commands[0].stop,
        Some(test_stop_policy()),
        "changing autostart preserves the independent stop policy"
    );
}

#[test]
fn t_edits_the_spec_matching_the_selected_row_not_its_position() {
    let with = |autostart: bool| {
        let mut spec = spec("dup", "true");
        spec.autostart = Some(autostart);
        spec
    };
    let config = config(vec![], vec![], vec![with(false), with(true)]);
    let processes = config.to_processes();
    let mut host = Host::new(
        vec![processes[1].copied(), processes[0].copied()],
        "/here/muster.yml",
    );
    host.app.workspace.selected = 1;
    host.workspace = Some(config);

    host.press(KeyCode::Char('t'));

    let commands = &host.workspaces[0].1.commands;
    assert_eq!(
        commands[0].autostart,
        Some(true),
        "the spec the selected row resolves to (the false one) is flipped"
    );
    assert_eq!(
        commands[1].autostart,
        Some(true),
        "the already-true sibling is untouched"
    );
}

#[test]
fn t_persists_autostart_for_the_selected_identical_row() {
    let dup = || {
        let mut spec = spec("dup", "true");
        spec.autostart = Some(false);
        spec
    };
    let config = config(vec![], vec![], vec![dup(), dup()]);
    let mut host = loaded_app(&config, config.copied()).started();

    host.press(KeyCode::Char('j'));
    assert_eq!(host.app.workspace.selected, 1);
    host.press(KeyCode::Char('t'));

    let commands = &host.workspaces[0].1.commands;
    assert_eq!(
        commands[0].autostart,
        Some(false),
        "the first identical spec is left untouched"
    );
    assert_eq!(
        commands[1].autostart,
        Some(true),
        "the second spec, matching the selected row, is the one flipped"
    );
}

#[test]
fn t_on_an_untracked_process_does_not_report_persistence() {
    let mut host =
        Host::new(vec![process(PANE, "ghost", ProcessKind::Terminal, "true")], "/here/muster.yml");

    host.press(KeyCode::Char('t'));

    assert!(
        host.selected().autostart,
        "a process with no config entry keeps its live flag unchanged"
    );
    assert!(host.notice().is_some(), "the user is told the toggle was not persisted");
}

#[test]
fn a_failed_autostart_write_leaves_the_live_flag_unchanged() {
    let config = config(vec![], vec![], vec![spec("cmd", "true")]);
    let mut host = loaded_app(&config, config.copied());
    host.registry_unreadable = true;
    host.workspace = None;
    let mut host = host.started();

    assert!(!host.selected().autostart);
    host.press(KeyCode::Char('t'));

    assert!(
        !host.selected().autostart,
        "a failed write does not flip the live autostart flag"
    );
    assert!(host.notice().is_some(), "the failure is surfaced as a notice");
}

#[test]
fn the_help_overlay_opens_and_any_key_dismisses_it() {
    let mut host = app_with(RestartPolicy::Never);

    host.press(KeyCode::Char('?'));
    assert!(matches!(host.app.overlay, Some(Overlay::Help)), "? opens the keymap overlay");

    host.press(KeyCode::Char('q'));
    assert!(!matches!(host.app.overlay, Some(Overlay::Help)), "any key closes the overlay");
    assert!(host.app.is_running(), "the dismissing key is swallowed, not acted on");
}

// The switcher and the forms.

#[test]
fn saving_the_current_workspace_registers_it() {
    let mut host = flow_app(vec![], empty_config(), PROJECT_CONFIG_FILE);
    host.open_switcher();
    host.press(KeyCode::Char('s'));
    host.type_text("My Setup");
    host.press(KeyCode::Enter);

    assert!(host.form().is_none(), "the form closes on success");
    assert_eq!(host.saved_names(), ["My Setup"]);
    let saved = host.saved_projects.as_ref().expect("the registry was saved");
    assert_eq!(saved[0].config.path, format!("{FOLDER}/{PROJECT_CONFIG_FILE}"));
}

#[test]
fn canceling_a_switcher_form_restores_the_switcher() {
    let mut host = flow_app(vec![], empty_config(), "/here/muster.yml");
    host.open_switcher();
    host.press(KeyCode::Char('n'));
    assert!(matches!(host.app.overlay, Some(Overlay::Form(_))));

    host.press(KeyCode::Esc);

    assert!(matches!(host.app.overlay, Some(Overlay::Switcher(_))));
}

#[test]
fn creating_a_new_project_writes_a_starter_config_and_registers_it() {
    let mut host = flow_app(vec![], empty_config(), "/here/muster.yml");
    host.open_switcher();
    host.new_project("fresh", "/tmp/fresh-proj");

    assert_eq!(host.workspaces.len(), 1);
    assert_eq!(host.workspaces[0].0, "/tmp/fresh-proj/muster.yml");
    assert_eq!(
        host.workspaces[0].1.terminals.len(),
        1,
        "the starter config ships one terminal"
    );
    assert_eq!(host.saved_names(), ["fresh"]);
    let saved = host.saved_projects.as_ref().expect("the project was registered");
    assert_eq!(saved[0].config.path, "/tmp/fresh-proj/muster.yml");
}

#[test]
fn adding_a_process_writes_it_to_the_config() {
    let mut host = flow_app(vec![], one_agent_config("existing"), "/here/muster.yml");
    host.add_terminal("logs", "tail -f log");

    assert_eq!(host.workspaces.len(), 1);
    assert_eq!(host.workspaces[0].0, "/here/muster.yml");
    let config = &host.workspaces[0].1;
    assert_eq!(config.agents.len(), 1, "the existing agent is kept");
    assert_eq!(config.terminals.len(), 1);
    assert_eq!(config.terminals[0].name, "logs");
}

#[test]
fn adding_a_configured_process_preserves_agent_sessions() {
    let mut host = flow_app(vec![], empty_config(), "/here/muster.yml");
    let session = host.launch_session(AgentTool::Codex);
    let generation = host.generation(session);

    host.add_terminal("logs", "tail -f log");

    let process = host.app.workspace.process(session).expect("the session");
    assert_eq!(process.origin, ProcessOrigin::Session);
    assert_eq!(host.generation(session), generation);
    assert!(host.alive(session));
    assert!(host.app.pending_switch.is_none());
    assert_eq!(host.selected().id, session);
    let added = host.named("logs");
    assert_eq!(added.origin, ProcessOrigin::Configured);
    assert_eq!(added.state, ProcessState::Running);
}

#[test]
fn adding_a_process_does_not_start_an_unreconciled_disk_addition() {
    let config = config(vec![], vec![spec("external", "external-command")], vec![]);
    let mut host = flow_app(vec![], config, "/here/muster.yml");

    host.add_terminal("form", "form-command");

    assert_eq!(host.named("external").state, ProcessState::Pending);
    assert_eq!(host.named("form").state, ProcessState::Running);
}

#[test]
fn adding_a_process_starts_only_its_identical_spec_occurrence() {
    let config = config(vec![], vec![spec("duplicate", "same-command")], vec![]);
    let mut host = flow_app(vec![], config, "/here/muster.yml");

    host.add_terminal("duplicate", "same-command");

    let states: Vec<ProcessState> = host
        .app
        .workspace
        .processes
        .iter()
        .filter(|process| process.name == "duplicate")
        .map(|process| process.state)
        .collect();
    assert_eq!(states, vec![ProcessState::Pending, ProcessState::Running]);
}

#[test]
fn adding_a_process_does_not_start_an_unreconciled_replacement() {
    let config = config(vec![], vec![spec("p", "replacement-command")], vec![]);
    let mut host = flow_app(vec![], config, "/here/muster.yml");

    host.add_terminal("form", "form-command");

    let replacement = host
        .app
        .workspace
        .processes
        .iter()
        .find(|process| process.command.as_deref() == Some("replacement-command"))
        .expect("a replacement");
    assert_eq!(replacement.state, ProcessState::Pending);
    assert_eq!(host.named("form").state, ProcessState::Running);
}

#[test]
fn readding_a_stale_stopped_terminal_starts_the_reused_pane() {
    let mut host = stale_terminal_app().started();
    let generation = host.current_gen();
    host.exit(ExitOutcome::Succeeded);
    assert_eq!(host.state(), ProcessState::Exited);

    host.add_terminal("stale", "stale-command");

    assert_eq!(host.app.workspace.processes.len(), 1);
    assert_eq!(host.state(), ProcessState::Running);
    assert_ne!(host.current_gen(), generation);
}

#[test]
fn readding_a_stale_live_terminal_does_not_respawn_it() {
    let mut host = stale_terminal_app().started();
    let generation = host.current_gen();

    host.add_terminal("stale", "stale-command");

    assert_eq!(host.app.workspace.processes.len(), 1);
    assert_eq!(host.state(), ProcessState::Running);
    assert_eq!(host.current_gen(), generation);
}

// Agent sessions.

#[test]
fn launching_an_agent_session_does_not_write_the_config() {
    let mut host = flow_app(vec![], empty_config(), "/here/muster.yml");

    host.launch_session(AgentTool::Codex);

    let session = host.selected();
    assert_eq!(session.kind, ProcessKind::Agent);
    assert_eq!(session.origin, ProcessOrigin::Session);
    assert_eq!(session.agent_tool, Some(AgentTool::Codex));
    assert!(!session.name.is_empty());
    assert_eq!(session.command.as_deref(), Some("codex"));
    assert!(session.agent_session_id.is_some());
    assert!(session.autostart);
    assert_eq!(host.app.focus, Focus::Terminal);
    assert!(host.workspaces.is_empty());
}

#[test]
fn launching_an_agent_session_persists_identity_and_exports_correlation() {
    let mut host = agent_app(vec![]);

    host.create_session(AgentTool::Claude);

    let session = host.sessions.first().expect("a recorded session");
    assert_eq!(session.state, AgentSessionState::Open);
    assert_eq!(session.project.path, "/here/muster.yml");
    assert!(session.native_id.is_none());
    let request = host.spawns.last().expect("a spawn");
    assert_eq!(request.session.as_deref(), Some(session.id.as_str()));
    assert_eq!(
        request.command,
        Some(format!("{} --session-id {}", program(AgentTool::Claude), session.id))
    );
}

#[test]
fn working_agents_schedule_sidebar_animation() {
    let mut host = agent_app(vec![]);
    let pane = host.create_session(AgentTool::Claude);
    host.app.workspace.set_activity(pane, ActivityState::Working);
    let before = host.app.spinner.frame.glyph();
    let deadline = host.app.next_activity_frame_deadline().expect("a deadline");

    assert!(host.app.advance_activity_frame(deadline));
    assert_ne!(host.app.spinner.frame.glyph(), before);
    let next = host.app.next_activity_frame_deadline().expect("a deadline");
    assert!(next.nanos > deadline.nanos);
}

#[test]
fn working_commands_do_not_schedule_sidebar_animation() {
    let mut host = app_with(RestartPolicy::Never);
    host.app.workspace.set_activity(PANE, ActivityState::Working);

    assert!(host.app.next_activity_frame_deadline().is_none());
}

#[test]
fn paused_working_agents_do_not_schedule_animation() {
    let mut host = agent_app(vec![]);
    let pane = host.create_session(AgentTool::Claude);
    host.app.workspace.set_activity(pane, ActivityState::Working);

    host.act(|app, _| app.toggle_pause_selected());

    assert_eq!(host.state_in(pane), ProcessState::Paused);
    assert_eq!(host.activity_in(pane), ActivityState::Working);
    assert!(host.app.next_activity_frame_deadline().is_none());
}

#[test]
fn a_closed_agent_session_reopens_the_same_native_conversation() {
    let mut host = agent_app(vec![]);
    let pane = host.create_session(AgentTool::Codex);
    let generation = host.generation(pane);
    let id = host.selected_session();
    host.capture(&id, "codex-thread");

    host.close_session(pane);
    host.output(pane, generation, exited(ExitOutcome::Succeeded));
    assert_eq!(host.last_session().state, AgentSessionState::Closed);

    host.reopen_last();

    assert_eq!(host.last_session().state, AgentSessionState::Open);
    let rows = host
        .app
        .workspace
        .processes
        .iter()
        .filter(|process| process.agent_session_id.as_ref() == Some(&id))
        .count();
    assert_eq!(rows, 1);
    assert_eq!(
        host.spawns.last().expect("a spawn").command.as_deref(),
        Some("codex resume codex-thread")
    );
    assert_eq!(host.app.focus, Focus::Terminal);
}

#[test]
fn reopening_a_closing_session_respawns_after_its_exit() {
    let mut host = agent_app(vec![]);
    let pane = host.create_session(AgentTool::Codex);
    let generation = host.generation(pane);
    let id = host.selected_session();
    host.capture(&id, "codex-thread");

    host.close_session(pane);
    host.reopen_last();

    assert_eq!(host.spawns.len(), 1);
    assert_eq!(host.last_session().state, AgentSessionState::Open);
    assert_eq!(host.app.ledger.reopens.get(&pane), Some(&id));

    host.output(pane, generation, exited(ExitOutcome::Succeeded));

    assert_eq!(host.spawns.len(), 2);
    assert!(host.app.ledger.reopens.is_empty());
    assert_eq!(host.selected_session(), id);
    assert_eq!(host.app.focus, Focus::Terminal);
}

#[test]
fn closing_again_cancels_a_queued_session_reopen() {
    let mut host = agent_app(vec![]);
    let pane = host.create_session(AgentTool::Codex);
    let generation = host.generation(pane);
    let id = host.selected_session();
    host.capture(&id, "codex-thread");

    host.close_session(pane);
    host.reopen_last();
    assert_eq!(host.app.ledger.reopens.get(&pane), Some(&id));

    host.close_session(pane);
    host.output(pane, generation, exited(ExitOutcome::Succeeded));

    assert_eq!(host.spawns.len(), 1);
    assert!(host.app.ledger.reopens.is_empty());
    assert_eq!(host.last_session().state, AgentSessionState::Closed);
}

#[test]
fn reopening_is_rejected_while_a_project_switch_is_pending() {
    let session = persisted(AgentTool::Codex, "codex-thread", AgentSessionState::Closed);
    let mut host = agent_app(vec![session]);
    host.create_session(AgentTool::Claude);
    let spawned = host.spawns.len();

    host.act(|app, _| app.begin_switch(empty_config(), place("next.yml")));
    assert!(host.app.pending_switch.is_some());

    host.reopen_last();

    assert_eq!(host.spawns.len(), spawned);
    assert_eq!(host.notice().as_deref(), Some(PROJECT_SWITCH_IN_PROGRESS));
}

#[test]
fn an_uncaptured_agent_session_is_not_restarted_as_a_new_conversation() {
    let mut host = agent_app(vec![]);
    let pane = host.create_session(AgentTool::Codex);
    let generation = host.generation(pane);

    host.restart_selected();

    assert_eq!(host.state_in(pane), ProcessState::Running);
    assert_eq!(host.generation(pane), generation);
    assert_eq!(host.spawns.len(), 1);
    assert_eq!(host.notice().as_deref(), Some(AGENT_SESSION_NOT_RESUMABLE));
}

#[test]
fn restart_after_exit_surfaces_a_session_store_failure() {
    let mut host = agent_app(vec![]);
    let pane = host.create_session(AgentTool::Claude);
    let generation = host.generation(pane);
    let mut life = host.life(pane);
    life.exit_intent = ExitIntent::RestartInFlight;
    host.app.panes.set_life(pane, life);
    host.store = Store::CannotRead;

    host.output(pane, generation, exited(ExitOutcome::Failed));

    assert_eq!(host.state_in(pane), ProcessState::Crashed);
    let notice = host.notice().expect("a notice");
    assert!(notice.starts_with(AGENT_SESSION_STORE_ERROR));
}

#[test]
fn reopen_uses_the_latest_resumable_agent_session() {
    let older = persisted(AgentTool::Codex, "captured-thread", AgentSessionState::Closed);
    let older_id = older.id.clone();
    let newer = session("newer", "Grace", AgentTool::Gemini, AgentSessionState::Closed);
    let mut host = agent_app(vec![older, newer]);

    host.reopen_last();

    assert_eq!(host.app.workspace.processes[0].agent_session_id, Some(older_id));
    assert_eq!(host.spawns[0].command.as_deref(), Some("codex resume captured-thread"));
}

#[test]
fn startup_restores_only_open_agent_sessions() {
    let open = persisted(AgentTool::Gemini, "gemini-open", AgentSessionState::Open);
    let open_id = open.id.clone();
    let closed = persisted(AgentTool::Copilot, "copilot-closed", AgentSessionState::Closed);

    let host = agent_app(vec![open, closed]);

    assert_eq!(host.app.workspace.processes.len(), 1);
    assert_eq!(host.app.workspace.processes[0].agent_session_id, Some(open_id));
    assert_eq!(host.spawns[0].command.as_deref(), Some("gemini --resume gemini-open"));
    assert!(host.app.workspace.processes[0].autostart);
    assert_eq!(host.app.focus, Focus::Sidebar);
}

#[test]
fn startup_skips_an_open_session_with_a_live_owner() {
    let mut session = persisted(AgentTool::Codex, "owned-thread", AgentSessionState::Open);
    session.owner_process = Some(7);
    session.owner_token = Some("started at noon".to_string());
    session.running_token = Some("started at noon".to_string());

    let host = agent_app(vec![session]);

    assert!(host.app.workspace.processes.is_empty());
    assert!(host.spawns.is_empty());
}

#[test]
fn startup_restores_a_session_with_an_unverifiable_owner() {
    let mut session =
        persisted(AgentTool::Codex, "unverifiable-owner-thread", AgentSessionState::Open);
    session.owner_process = Some(7);
    session.running_token = Some("started at noon".to_string());

    let host = agent_app(vec![session]);

    assert_eq!(host.app.workspace.processes.len(), 1);
    assert_eq!(host.spawns.len(), 1);
}

#[test]
fn startup_retries_an_unconfirmed_assigned_agent_session() {
    let session = session("assigned-session", "Ada", AgentTool::Claude, AgentSessionState::Open);
    let id = session.id.clone();

    let host = agent_app(vec![session]);

    assert_eq!(host.app.workspace.processes[0].agent_session_id, Some(id));
    assert_eq!(
        host.spawns[0].command,
        Some(format!("{} --session-id assigned-session", program(AgentTool::Claude)))
    );
}

#[test]
fn startup_restores_an_uncaptured_session_as_a_closable_stopped_row() {
    let session = session("uncaptured", "Ada", AgentTool::Codex, AgentSessionState::Open);
    let id = session.id.clone();

    let mut host = agent_app(vec![session]);

    let pane = host.selected().id;
    assert_eq!(host.selected().agent_session_id, Some(id));
    assert_eq!(host.selected().state, ProcessState::Pending);
    assert!(host.app.panes.get(pane).is_none());
    assert!(host.spawns.is_empty());
    assert_eq!(host.notice().as_deref(), Some(AGENT_SESSION_NOT_RESUMABLE));

    host.press(KeyCode::Char('d'));

    assert!(host.app.workspace.process(pane).is_none());
    assert_eq!(host.last_session().state, AgentSessionState::Closed);
}

#[test]
fn quick_agent_launch_reports_session_store_failures() {
    let mut host = flow_app(vec![], empty_config(), "/here/muster.yml");
    host.store = Store::CannotWrite;
    host.act(|app, _| app.open_agent_picker());

    host.press(KeyCode::Enter);

    assert!(host
        .app
        .workspace
        .processes
        .iter()
        .all(|process| process.origin != ProcessOrigin::Session));
    assert!(host.notice_contains(AGENT_SESSION_STORE_ERROR));
}

#[test]
fn add_hotkey_launches_the_default_agent_preset() {
    let mut host = flow_app(vec![], empty_config(), "/here/muster.yml");

    host.press(KeyCode::Char('a'));
    assert_eq!(host.form().expect("a form").form.title(), ADD_PROCESS_TITLE);
    host.press(KeyCode::Enter);
    assert!(matches!(host.app.overlay, Some(Overlay::AgentPicker(_))));
    host.press(KeyCode::Enter);

    assert_eq!(host.selected().agent_tool, Some(AgentTool::Claude));
    assert_eq!(host.selected().origin, ProcessOrigin::Session);
}

#[test]
fn custom_agent_form_preserves_the_selected_provider() {
    let mut host = flow_app(vec![], empty_config(), "/here/muster.yml");
    host.act(|app, _| app.open_agent_session_form(AgentTool::Custom));

    assert_eq!(host.form().expect("a form").form.values()[0], "Custom");
    host.press(KeyCode::Tab);
    host.press(KeyCode::Tab);
    host.type_text("my-agent");
    host.press(KeyCode::Enter);

    assert_eq!(host.selected().agent_tool, Some(AgentTool::Custom));
    assert_eq!(host.selected().command.as_deref(), Some("my-agent"));
}

#[test]
fn invalid_resume_templates_are_rejected_before_agent_launch() {
    let mut host = agent_app(vec![]);
    host.act(|app, _| app.open_agent_session_form(AgentTool::Codex));
    host.press(KeyCode::Tab);
    host.press(KeyCode::Tab);
    host.press(KeyCode::Tab);
    host.type_text("agent --resume \"");

    host.press(KeyCode::Enter);

    let error = host.form().expect("a form").error.as_ref().map(|message| message.text());
    assert_eq!(error.as_deref(), Some(AGENT_RESUME_TEMPLATE_INVALID));
    assert!(host.sessions.is_empty());
    assert!(host.spawns.is_empty());
    assert!(host.app.workspace.processes.is_empty());
}

#[test]
fn compound_agent_commands_require_an_explicit_resume_template() {
    let mut host = agent_app(vec![]);
    let command = Some("codex | tee agent.log".to_string());
    host.act(|app, _| app.create_agent_session(AgentTool::Codex, None, command, None));

    assert_eq!(host.notice().as_deref(), Some(AGENT_COMPOUND_RESUME_REQUIRED));
    assert!(host.sessions.is_empty());
    assert!(host.spawns.is_empty());
}

#[test]
fn unsupported_fresh_agent_launch_is_not_persisted() {
    let mut host = agent_app(vec![]);
    let program = program(AgentTool::Claude);
    let command = Some(format!("{program} | tee agent.log"));
    let resume = Some(format!("{program} --resume {{session_id}} | tee agent.log"));
    host.act(|app, _| app.create_agent_session(AgentTool::Claude, None, command, resume));

    assert_eq!(host.notice().as_deref(), Some(AGENT_COMMAND_REQUIRED));
    assert!(host.sessions.is_empty());
    assert!(host.spawns.is_empty());
}

#[test]
fn closing_a_live_agent_session_retires_it_after_exit() {
    let mut host = flow_app(vec![], empty_config(), "/here/muster.yml");
    let pane = host.launch_session(AgentTool::Claude);
    let generation = host.generation(pane);

    host.leader();
    host.press(KeyCode::Char('d'));
    assert!(matches!(host.app.overlay, Some(Overlay::ConfirmSessionClose { .. })));
    host.press(KeyCode::Char('y'));
    assert_eq!(host.app.focus, Focus::Sidebar);
    assert_eq!(host.life(pane).membership, ConfigMembership::RetireOnExit);

    host.output(pane, generation, exited(ExitOutcome::Failed));
    assert!(host.app.workspace.process(pane).is_none());
    assert!(host.app.panes.get(pane).is_none());
    assert_eq!(host.app.focus, Focus::Sidebar);
}

#[test]
fn failed_agent_session_stop_does_not_persist_a_close() {
    let mut host = agent_app(vec![]);
    let pane = host.create_session(AgentTool::Claude);
    host.first_kill_fails = true;

    host.close_session(pane);

    assert_eq!(host.kills, 1);
    assert_eq!(host.last_session().state, AgentSessionState::Open);
    assert_eq!(host.life(pane).membership, ConfigMembership::Listed);
    assert!(host.alive(pane));
    assert_eq!(host.state_in(pane), ProcessState::Running);
    assert_eq!(host.notice().as_deref(), Some(STOP_DELIVERY_FAILED_NOTICE));

    host.close_session(pane);

    assert_eq!(host.kills, 2);
    assert_eq!(host.last_session().state, AgentSessionState::Closed);
    assert_eq!(host.life(pane).membership, ConfigMembership::RetireOnExit);
    assert_eq!(host.state_in(pane), ProcessState::Stopping);
}

#[test]
fn failed_session_close_persistence_keeps_the_session_recoverable() {
    let mut host = agent_app(vec![]);
    let pane = host.create_session(AgentTool::Claude);
    host.store = Store::CannotWrite;

    host.close_session(pane);

    assert_eq!(host.last_session().state, AgentSessionState::Open);
    assert_eq!(host.life(pane).membership, ConfigMembership::Listed);
    assert_eq!(host.state_in(pane), ProcessState::Stopping);
    assert!(host.notice_contains(AGENT_SESSION_STORE_ERROR));
}

#[test]
fn closing_session_exit_preserves_a_later_process_selection() {
    let mut host = flow_app(vec![], empty_config(), "/here/muster.yml");
    for (id, name) in [(PANE + 1, "q"), (PANE + 2, "r")] {
        host.app.workspace.insert_in_section(Process::new(
            id,
            name.to_string(),
            ProcessKind::Terminal,
        ));
    }
    let session = host.launch_session(AgentTool::Claude);
    let generation = host.generation(session);

    host.leader();
    host.press(KeyCode::Char('d'));
    host.press(KeyCode::Char('y'));
    host.press(KeyCode::Char('j'));
    host.press(KeyCode::Char('j'));
    assert_eq!(host.selected().name, "q");

    host.output(session, generation, exited(ExitOutcome::Failed));

    assert_eq!(host.selected().name, "q");
    assert_eq!(host.app.focus, Focus::Sidebar);
}

#[test]
fn closing_a_stopped_attached_session_returns_to_the_sidebar() {
    let mut host = flow_app(vec![], empty_config(), "/here/muster.yml");
    let pane = host.launch_session(AgentTool::Claude);
    let generation = host.generation(pane);
    host.output(pane, generation, exited(ExitOutcome::Succeeded));

    host.leader();
    host.press(KeyCode::Char('d'));

    assert!(host.app.workspace.process(pane).is_none());
    assert_eq!(host.app.focus, Focus::Sidebar);
    assert_eq!(host.selected().name, "p");
}

#[test]
fn a_codex_session_uses_title_changes_instead_of_plain_output() {
    let mut host = flow_app(vec![], empty_config(), "/here/muster.yml");
    let pane = host.launch_session(AgentTool::Codex);
    let generation = host.generation(pane);

    host.output(pane, generation, chunk(b"ordinary output"));
    assert_eq!(host.activity_in(pane), ActivityState::Idle);

    host.output(pane, generation, chunk(b"\x1b]2;Codex working\x07"));
    assert_eq!(host.activity_in(pane), ActivityState::Working);
}

#[test]
fn config_reconciliation_keeps_runtime_agent_sessions() {
    let mut host = flow_app(vec![], empty_config(), "/here/muster.yml");
    let pane = host.launch_session(AgentTool::Gemini);

    host.config_changed("/here/muster.yml");

    let process = host.app.workspace.process(pane).expect("the session");
    assert_eq!(process.origin, ProcessOrigin::Session);
}

#[test]
fn autostart_occurrences_exclude_identical_agent_sessions() {
    let mut spec = spec("agent", "true");
    spec.autostart = Some(false);
    let mut session = process(PANE, "agent", ProcessKind::Agent, "true");
    session.agent_tool = Some(AgentTool::Custom);
    session.origin = ProcessOrigin::Session;
    session.autostart = false;
    let configured = spec.to_process(PANE + 1, ProcessKind::Agent);
    let mut host = Host::new(vec![session, configured], "/here/muster.yml");
    host.app.workspace.selected = 1;
    host.workspace = Some(config(vec![spec], vec![], vec![]));

    host.press(KeyCode::Char('t'));

    assert_eq!(host.workspaces[0].1.agents[0].autostart, Some(true));
    assert!(
        host.selected().autostart,
        "the selected configured row reflects the persisted edit"
    );
    assert!(host.notice().is_none());
}

// Projects.

#[test]
fn removing_a_project_persists_the_shorter_list() {
    let projects = vec![project("alpha", "/a/muster.yml"), project("beta", "/b/muster.yml")];
    let mut host = flow_app(projects, empty_config(), "/a/muster.yml");
    host.open_switcher();
    host.press(KeyCode::Char('d'));

    assert_eq!(host.saved_names(), ["beta"]);
}

#[test]
fn creating_a_project_asks_before_overwriting_then_overwrites() {
    let mut host = flow_app(vec![], empty_config(), "/here/muster.yml");
    host.workspaces.push(("/taken/muster.yml".to_string(), empty_config()));
    host.open_switcher();
    host.act(|app, _| app.open_new_project_form());
    host.new_project("proj", "/taken");

    assert!(host.confirmation_open(), "an overwrite asks for confirmation");
    assert_eq!(host.workspaces.len(), 1, "nothing is written before confirming");
    assert!(host.saved_projects.is_none(), "nothing is registered before confirming");

    host.press(KeyCode::Enter);
    assert!(!host.confirmation_open(), "confirming closes the dialog");
    assert_eq!(host.saved_names()[0], "proj");
    assert!(
        host.workspaces.iter().any(|(path, _)| path == "/taken/muster.yml"),
        "the config is written on confirm"
    );
    assert_eq!(host.workspaces.len(), 2);
}

#[test]
fn declining_an_overwrite_writes_nothing() {
    let mut host = flow_app(vec![], empty_config(), "/here/muster.yml");
    host.workspaces.push(("/taken/muster.yml".to_string(), empty_config()));
    host.open_switcher();
    host.act(|app, _| app.open_new_project_form());
    host.new_project("proj", "/taken");

    host.press(KeyCode::Char('n'));

    assert!(!host.confirmation_open(), "declining closes the dialog");
    assert!(host.form().is_some(), "declining restores the populated form");
    assert!(host.saved_projects.is_none(), "nothing is registered");
    assert_eq!(host.workspaces.len(), 1, "only the pre-existing config remains");
}

#[test]
fn a_failed_confirmed_overwrite_keeps_the_form_for_retry() {
    let mut host = flow_app(vec![], empty_config(), "/here/muster.yml");
    host.workspaces.push(("/taken/muster.yml".to_string(), empty_config()));
    host.save_workspace_fails = true;
    host.open_switcher();
    host.act(|app, _| app.open_new_project_form());
    host.new_project("proj", "/taken");
    assert!(host.confirmation_open(), "an overwrite asks first");

    host.press(KeyCode::Enter);

    assert!(!host.confirmation_open(), "the confirmation closes");
    let form = host
        .form()
        .expect("the form is kept so the user can retry without refilling it");
    assert!(form.error.is_some(), "the failure is shown on the form");
}

#[test]
fn dropdown_navigation_keeps_the_highlight() {
    let mut host = completing_app(&["a", "b", "c"]).started();

    host.act(|app, _| app.open_new_project_form());
    host.press(KeyCode::Tab);
    host.press(KeyCode::Down);
    host.press(KeyCode::Down);

    assert_eq!(
        host.form().expect("a form").form.fields()[1].highlighted(),
        2,
        "arrows move the highlight through App, not reset it to the first"
    );
}

#[test]
fn accepting_a_completion_does_not_reopen_the_dropdown() {
    let mut host = completing_app(&["alpha", "beta"]).started();

    host.act(|app, _| app.open_new_project_form());
    host.type_text("proj");
    host.press(KeyCode::Tab);
    host.press(KeyCode::Down);
    host.press(KeyCode::Enter);

    let folder = &host.form().expect("a form").form.fields()[1];
    assert_eq!(folder.value(), "beta", "the accepted candidate fills the field");
    assert!(
        folder.candidates().is_empty(),
        "the dropdown stays closed after accepting, despite the completer offering more"
    );

    host.press(KeyCode::Enter);
    assert!(host.form().is_none(), "Enter submits instead of accepting a child");
}

#[test]
fn completion_worker_delivers_candidates_off_the_event_loop() {
    let mut host = Host::new(vec![], "/here/muster.yml");
    host.act(|app, _| app.use_completion_worker());

    host.act(|app, _| app.open_new_project_form());
    host.press(KeyCode::Tab);

    let (generation, _) = host.requests.pop().expect("a request for the worker");
    let candidates = vec!["alpha".to_string(), "beta".to_string()];
    host.act(|app, now| {
        app.handle_event(RuntimeEvent::Completions { generation, candidates }, now)
    });

    assert_eq!(
        host.form().expect("a form").form.fields()[1].candidates(),
        ["alpha", "beta"],
        "candidates arrive through the event channel"
    );
}

#[test]
fn a_superseded_completion_result_is_discarded() {
    let mut host = Host::new(vec![], "/here/muster.yml");
    host.act(|app, _| app.use_completion_worker());

    host.act(|app, _| app.open_new_project_form());
    host.press(KeyCode::Tab);
    host.type_text("x");

    host.act(|app, _| {
        app.handle_completions(CompletionGeneration::new(1), vec!["stale".to_string()])
    });

    let folder = &host.form().expect("a form").form.fields()[1];
    assert!(
        !folder.candidates().iter().any(|candidate| candidate == "stale"),
        "a result from a superseded generation is ignored"
    );
}

#[test]
fn editing_a_path_drops_stale_candidates_before_the_reply() {
    let mut host = Host::new(vec![], "/here/muster.yml");
    host.act(|app, _| app.use_completion_worker());

    host.act(|app, _| app.open_new_project_form());
    host.type_text("proj");
    host.press(KeyCode::Tab);
    host.act(|app, _| {
        app.handle_completions(
            CompletionGeneration::new(1),
            vec!["alpha".to_string(), "beta".to_string()],
        )
    });
    assert_eq!(
        host.form().expect("a form").form.fields()[1].candidates().len(),
        2,
        "the dropdown is populated before the edit"
    );

    host.type_text("z");
    let folder = &host.form().expect("a form").form.fields()[1];
    assert!(
        folder.candidates().is_empty(),
        "the stale dropdown closes the instant the value changes"
    );
    assert!(folder.value().ends_with('z'), "the typed character survives");

    host.press(KeyCode::Enter);
    assert!(host.form().is_none(), "Enter submits rather than accepting a stale candidate");
}

#[test]
fn a_failed_registry_read_is_not_overwritten() {
    let mut host = Host::new(vec![terminal(RestartPolicy::Never)], "/here/muster.yml");
    host.registry_unreadable = true;
    host.workspace = None;
    let mut host = host.started();

    host.act(|app, _| app.open_save_project_form());
    host.act(|app, _| app.save_current_project(&vec!["proj".to_string()]));

    assert!(host.saved_projects.is_none(), "an unreadable registry is never overwritten");
    assert!(
        host.form().expect("a form").error.is_some(),
        "the read failure is reported"
    );
}

#[test]
fn a_failed_workspace_write_still_registers_a_recoverable_project() {
    let mut host = flow_app(vec![], empty_config(), "/here/muster.yml");
    host.save_workspace_fails = true;

    host.act(|app, _| app.open_new_project_form());
    host.new_project("fresh", "/tmp/fresh");

    assert_eq!(host.saved_names()[0], "fresh");
    assert!(
        host.workspaces.is_empty(),
        "no config file is written when the write fails"
    );
    assert!(
        host.form().expect("a form").error.is_some(),
        "the write failure is reported"
    );
}

#[test]
fn a_failed_add_process_write_is_reported() {
    let mut host = flow_app(vec![], empty_config(), "/here/muster.yml");
    host.save_workspace_fails = true;

    host.act(|app, _| app.open_add_process_form());
    host.add_terminal("logs", "true");

    assert!(
        host.form().expect("a form").error.is_some(),
        "the write failure is reported, not silently swallowed"
    );
}

#[test]
fn a_failed_removal_preserves_the_list_and_reports() {
    let mut host = flow_app(
        vec![project("alpha", "/a/muster.yml"), project("beta", "/b/muster.yml")],
        empty_config(),
        "/here/muster.yml",
    );
    host.save_fails = true;

    host.open_switcher();
    host.act(|app, _| app.remove_selected_project());

    assert!(
        host.switcher().expect("an open switcher").error.is_some(),
        "the removal failure is reported in the switcher"
    );
    assert_eq!(
        host.registered().expect("a readable registry").len(),
        2,
        "the project list is preserved when the write fails"
    );
}

#[test]
fn opening_the_switcher_preselects_the_current_project() {
    let projects = vec![project("alpha", "/a/muster.yml"), project("beta", "/b/muster.yml")];
    let mut host = flow_app(projects, empty_config(), "/b/muster.yml");

    host.open_switcher();

    let switcher = host.switcher().expect("switcher is open");
    assert_eq!(switcher.projects.len(), 2);
    assert_eq!(switcher.selected, 1, "the current project is preselected");
}

#[test]
fn switcher_keeps_a_symlink_alias_distinct_from_its_target() {
    let target = "/link/shared/muster.yml";
    let mut host =
        flow_app(vec![project("target", target)], empty_config(), "/link/workspace/muster.yml");

    host.open_switcher();

    let switcher = host.switcher().expect("switcher is open");
    assert_eq!(switcher.current, None, "the target is not marked current");
    host.switcher_key(KeyCode::Enter);
    assert_eq!(
        host.app.pending_switch.as_ref().map(|pending| pending.place.path.as_str()),
        Some(target),
        "enter explicitly switches from the alias to the target"
    );
}

#[test]
fn a_relative_current_config_matches_an_absolute_registry_entry() {
    let absolute = format!("{FOLDER}/Cargo.toml");
    let projects =
        vec![project("other", "/nonexistent/muster.yml"), project("here", &absolute)];
    let mut host = flow_app(projects, empty_config(), "Cargo.toml");

    host.open_switcher();

    let switcher = host.switcher().expect("switcher is open");
    assert_eq!(
        switcher.selected, 1,
        "the current project is recognized despite differing path forms"
    );
}

#[test]
fn jumping_by_number_switches_after_the_old_process_exits() {
    let projects = vec![project("alpha", "/a/muster.yml"), project("beta", "/b/muster.yml")];
    let mut host = flow_app(projects, one_agent_config("switched"), "/a/muster.yml");
    assert_eq!(host.names(), ["p"]);

    host.open_switcher();
    host.switcher_key(KeyCode::Char('2'));

    assert!(host.switcher().is_none(), "a requested switch closes the overlay");
    assert_eq!(
        host.names(),
        ["p"],
        "the new project does not start until the old child exits"
    );

    host.exit(ExitOutcome::Succeeded);

    assert_eq!(host.names(), ["switched"]);
    assert_eq!(host.current().as_deref(), Some("/b/muster.yml"));
    assert!(
        host.app.panes.get(0).is_some(),
        "the switched-in process spawns once the old one exits"
    );
}

#[test]
fn switching_with_no_live_process_loads_immediately() {
    let projects = vec![project("alpha", "/a/muster.yml"), project("beta", "/b/muster.yml")];
    let mut host = flow_app(projects, one_agent_config("switched"), "/a/muster.yml");
    host.exit(ExitOutcome::Succeeded);
    assert!(!host.alive(PANE));

    host.open_switcher();
    host.switcher_key(KeyCode::Char('2'));

    assert_eq!(
        host.names(),
        ["switched"],
        "with no live children the switch happens at once"
    );
}

#[test]
fn escape_closes_the_switcher_without_switching() {
    let projects = vec![project("alpha", "/a/muster.yml")];
    let mut host = flow_app(projects, empty_config(), "/a/muster.yml");

    host.open_switcher();
    host.switcher_key(KeyCode::Esc);

    assert!(host.switcher().is_none());
    assert_eq!(host.names(), ["p"], "the workspace is unchanged");
}

#[test]
fn a_failed_switch_surfaces_an_error_and_stays_open() {
    let mut host = Host::new(vec![terminal(RestartPolicy::Never)], "/a/muster.yml");
    host.projects = vec![project("alpha", "/a/muster.yml")];
    host.workspace = None;
    host.every_workspace_exists = true;
    let mut host = host.started();

    host.open_switcher();
    host.switcher_key(KeyCode::Enter);

    let switcher = host.switcher().expect("stays open after a failed switch");
    assert!(switcher.error.is_some());
    assert_eq!(host.names(), ["p"], "the workspace is unchanged on failure");
}

#[test]
fn symlinked_launch_alias_survives_switching_to_its_registered_target() {
    let target = "/link/shared/muster.yml";
    let link = "/link/workspace/muster.yml";
    let mut host = Host::new(vec![], link);
    host.projects = vec![project("target", target)];
    let mut host = host.started();

    assert_eq!(host.app.catalog.projects.len(), 2);
    assert!(host.app.catalog.synthetic);

    host.act(|app, now| app.activate_other_project(0, now));
    assert_eq!(host.current().as_deref(), Some(target));
    host.act(|app, now| app.activate_other_project(0, now));
    assert_eq!(host.current().as_deref(), Some(link));
    let (project, directory) = resolve_spawn_paths(&host.app.catalog.current, &None);
    assert_eq!(project.expect("a project").path, link);
    assert_eq!(directory.expect("a directory").path(), "/link/workspace");
}

#[test]
fn registry_mutations_preserve_distinct_symlink_locations() {
    let (first, second) = ("/link/first/muster.yml", "/link/second/muster.yml");
    let mut host = flow_app(
        vec![project("first", first), project("second", second)],
        empty_config(),
        "/unrelated/muster.yml",
    );

    host.act(|app, _| app.handle_located("renamed".to_string(), place(first), false));
    let saved = host.saved_projects.as_ref().expect("the registry was saved");
    assert_eq!(saved.len(), 2);
    assert!(saved.iter().any(|project| project.config.path == second));

    host.act(|app, _| app.remove_project(place(first)));
    let saved = host.saved_projects.as_ref().expect("the registry was saved");
    assert_eq!(saved.len(), 1);
    assert_eq!(saved[0].config.path, second);
}

#[test]
fn a_relative_config_label_resolves_to_the_current_directory_name() {
    assert_eq!(
        place("muster.yml").label,
        "place",
        "a bare relative config is labeled by the working directory, not the app name"
    );
    assert_eq!(
        place("/x/proj/muster.yml").label,
        "proj",
        "an absolute config uses its parent directory name"
    );
}

#[test]
fn spawn_paths_are_anchored_to_the_workspace_config() {
    let config = Some(place("/work/space/muster.yml"));

    let (project, inherited) = resolve_spawn_paths(&config, &None);
    assert_eq!(project.expect("a project").path, "/work/space/muster.yml");
    assert_eq!(inherited.expect("a directory").path(), "/work/space");

    let relative = Some("services/api".to_string());
    let (_, resolved) = resolve_spawn_paths(&config, &relative);
    assert_eq!(resolved.expect("a directory").path(), "/work/space/services/api");

    let absolute = Some("/work/space/absolute-service".to_string());
    let (_, resolved) = resolve_spawn_paths(&config, &absolute);
    assert_eq!(resolved.expect("a directory").path(), "/work/space/absolute-service");
}

// What holds of the whole.

#[test]
fn an_exited_process_keeps_its_last_screen() {
    let mut host = app_with(RestartPolicy::Never);
    host.emit(b"last words");
    host.exit(ExitOutcome::Failed);
    let screen = &host.app.panes.get(PANE).expect("a pane").screen;
    assert!(screen.screen_text().contains("last words"));
}

#[test]
fn a_failure_is_restarted_after_a_growing_pause() {
    let mut host = app_with(RestartPolicy::OnFailure);
    for expected in [200, 400, 800] {
        host.exit(ExitOutcome::Failed);
        assert_eq!(host.state(), ProcessState::Restarting);
        let (pane, generation, millis) = *host.respawns.last().expect("a respawn");
        assert_eq!((pane, millis), (PANE, expected));
        host.act(|app, now| {
            app.handle_event(RuntimeEvent::Respawn { pane, generation }, now)
        });
        assert_eq!(host.state(), ProcessState::Running);
    }
    host.exit(ExitOutcome::Succeeded);
    assert_eq!(host.state(), ProcessState::Exited);
    assert_eq!(host.respawns.len(), 3, "a success is not restarted");
}

#[test]
fn a_stable_run_starts_the_pauses_anew() {
    let mut host = app_with(RestartPolicy::Always);
    host.exit(ExitOutcome::Failed);
    let (pane, generation, _) = host.respawns[0];
    host.act(|app, now| app.handle_event(RuntimeEvent::Respawn { pane, generation }, now));
    host.now = at(11_000);
    host.exit(ExitOutcome::Failed);
    assert_eq!(host.respawns[1].2, 200);
}

#[test]
fn a_crash_is_counted_whatever_is_selected() {
    let mut host = Host::new(
        vec![
            process(0, "a", ProcessKind::Terminal, "true"),
            process(1, "b", ProcessKind::Terminal, "true"),
        ],
        "/here/muster.yml",
    )
    .started();
    assert_eq!(host.app.render(true).crashed, 0);
    let generation = host.generation(1);
    host.output(1, generation, exited(ExitOutcome::Failed));
    assert_eq!(host.app.render(true).crashed, 1);
    host.press(KeyCode::Enter);
    let scene = host.app.render(true);
    assert_eq!((scene.crashed, scene.title.as_str()), (1, "a"));
}

#[test]
fn frames_show_labels_hints_and_notices() {
    let projects = vec![
        project("same", "/one/muster.yml"),
        project("same", "/two/muster.yml"),
        project("other", "/three/muster.yml"),
    ];
    let mut host = flow_app(projects, empty_config(), "/three/muster.yml");
    let scene = host.app.render(true);
    assert_eq!(scene.active_project, "other");
    assert_eq!(scene.other_projects, ["same  one", "same  two"]);
    assert_eq!(scene.status, StatusContext::Process);
    assert_eq!(scene.notice, NoticePlace::Nowhere);
    assert!(scene.sidebar_focused && !scene.empty && !scene.leader);

    host.press(KeyCode::Char('!'));
    assert_eq!(host.notice().as_deref(), Some(NO_ATTENTION_WAITING));
    assert_eq!(host.app.render(true).notice, NoticePlace::Toast);
    assert_eq!(host.app.render(false).notice, NoticePlace::StatusBar);

    host.press(KeyCode::Enter);
    assert_eq!(host.app.render(true).status, StatusContext::Terminal);
    host.leader();
    assert!(host.app.render(true).leader);
    host.press(KeyCode::Char('h'));
    host.press(KeyCode::Char('j'));
    assert_eq!(host.app.render(true).status, StatusContext::Project);

    let empty = Host::new(vec![], "/three/muster.yml").started();
    let scene = empty.app.render(true);
    assert!(scene.empty);
    assert_eq!((scene.status, scene.title.as_str()), (StatusContext::Empty, "muster"));
}

#[test]
fn attention_is_found_from_anywhere() {
    let mut host = Host::new(
        vec![
            process(0, "a", ProcessKind::Terminal, "true"),
            process(1, "b", ProcessKind::Terminal, "true"),
            process(2, "c", ProcessKind::Terminal, "true"),
        ],
        "/here/muster.yml",
    )
    .started();
    let generation = host.generation(2);
    host.output(2, generation, chunk(b"\x1b]9;look here\x07"));
    host.press(KeyCode::Char('!'));
    assert_eq!(host.selected().name, "c");
    assert_eq!(host.app.focus, Focus::Sidebar);

    host.app.workspace.select_at(0);
    host.press(KeyCode::Enter);
    host.leader();
    host.press(KeyCode::Char('!'));
    assert_eq!(host.selected().name, "c");
    assert_eq!(host.app.focus, Focus::Terminal);
}

#[test]
fn chords_do_what_sidebar_keys_do() {
    for c in ['n', 'a', 'A', 'o', '?'] {
        let mut beside = app_with(RestartPolicy::Never);
        beside.press(KeyCode::Char(c));
        let mut inside = app_with(RestartPolicy::Never);
        inside.press(KeyCode::Enter);
        inside.leader();
        inside.press(KeyCode::Char(c));
        assert_eq!(
            format!("{:?}", beside.app.overlay),
            format!("{:?}", inside.app.overlay)
        );
        assert!(inside.app.overlay.is_some());
    }
    let mut inside = app_with(RestartPolicy::Never);
    inside.press(KeyCode::Enter);
    inside.leader();
    inside.press(KeyCode::Char('q'));
    assert!(!inside.app.is_running());
}

#[test]
fn the_autostart_chord_acts_as_in_the_sidebar() {
    let config = config(vec![], vec![], vec![spec("cmd", "true")]);
    let mut host = loaded_app(&config, config.copied()).started();
    host.press(KeyCode::Enter);
    assert_eq!(host.app.focus, Focus::Terminal);
    assert!(!host.selected().autostart);

    host.leader();
    host.press(KeyCode::Char('t'));
    assert!(host.selected().autostart, "the chord flips the live flag");
    assert_eq!(host.workspaces.len(), 1);
    assert_eq!(host.workspaces[0].1.commands[0].autostart, Some(true));
    assert_eq!(host.app.focus, Focus::Terminal, "the terminal stays attached");

    host.press(KeyCode::Char('t'));
    assert_eq!(host.workspaces.len(), 1, "without the leader the key is typed");
}

#[test]
fn a_bell_asks_for_input_in_words() {
    let mut host =
        Host::new(vec![process(PANE, "agent", ProcessKind::Agent, "agent")], "muster.yml");
    host.enable_desktop();
    let mut host = host.started();
    host.emit(b"\x07");
    assert_eq!(host.bodies(), [Some("awaiting input".to_string())]);
    assert_eq!(host.notice().as_deref(), Some("agent: awaiting input"));
    host.emit(b"\x1b]9;look here\x07");
    assert_eq!(host.bodies()[1].as_deref(), Some("look here"));
}

#[test]
fn a_deleted_process_leaves_config_and_workspace() {
    let config = config(vec![], vec![spec("kept", "k"), spec("gone", "g")], vec![]);
    let mut host = loaded_app(&config, config.copied()).started();
    host.press(KeyCode::Char('j'));
    host.press(KeyCode::Char('d'));
    let Some(Overlay::ConfirmProcessRemoval { prompt, .. }) = &host.app.overlay else {
        panic!("a question is asked");
    };
    assert_eq!(prompt.text(), "Delete terminal 'gone' from muster.yml?");

    host.press(KeyCode::Char('z'));
    assert!(host.workspaces.is_empty(), "nothing happens unconfirmed");
    host.press(KeyCode::Char('y'));

    assert_eq!(host.workspaces[0].1.terminals.len(), 1);
    assert_eq!(host.workspaces[0].1.terminals[0].name, "kept");
    assert_eq!(host.kills, 1, "its process is stopped");
    let generation = host.generation(1);
    host.output(1, generation, exited(ExitOutcome::Failed));
    assert_eq!(host.names(), ["kept"]);
}

#[test]
fn a_deletion_of_a_vanished_entry_is_reported() {
    let config = config(vec![], vec![spec("gone", "g")], vec![]);
    let mut host = loaded_app(&config, empty_config());
    host.press(KeyCode::Char('d'));
    host.press(KeyCode::Char('y'));
    assert!(host.workspaces.is_empty());
    assert_eq!(host.notice().as_deref(), Some(DELETE_ENTRY_GONE));
}

#[test]
fn a_pinned_conversation_becomes_a_configured_agent() {
    let mut host = agent_app(vec![]);
    let mut source = persisted(AgentTool::Codex, "thread", AgentSessionState::Closed);
    source.project = place("/elsewhere/muster.yml");
    source.owner_process = Some(3);
    source.owner_token = Some("ended".to_string());
    host.act(|app, now| app.pin_conversation(&source, &" Ada ".to_string(), now));

    let seeded = &host.pinned[0];
    assert!(seeded.owner_process.is_none() && seeded.owner_token.is_none());
    assert_eq!((seeded.id.as_str(), seeded.name.as_str()), ("id-thread", "Ada"));
    assert_eq!(seeded.configured_key.as_deref(), Some("Ada"));
    assert_eq!(seeded.project.path, "/here/muster.yml");
    assert_eq!(seeded.working_dir.as_deref(), Some("/elsewhere"));
    let entry = &host.workspaces[0].1.agents[0];
    assert_eq!((entry.name.as_str(), entry.command.as_deref()), ("Ada", Some("codex")));
    assert_eq!(entry.working_dir.as_deref(), Some("/elsewhere"));
    assert!(host.unpinned.is_empty());
}

#[test]
fn a_pin_whose_entry_cannot_be_written_is_undone() {
    let mut host = agent_app(vec![]);
    host.save_workspace_fails = true;
    host.displaced = vec![
        persisted(AgentTool::Codex, "one", AgentSessionState::Closed),
        persisted(AgentTool::Codex, "two", AgentSessionState::Closed),
    ];
    let source = persisted(AgentTool::Codex, "thread", AgentSessionState::Closed);
    host.act(|app, now| app.pin_conversation(&source, &"Ada".to_string(), now));
    assert_eq!(host.pinned.len(), 1, "the hand-over came first");
    let restored = vec!["id-one".to_string(), "id-two".to_string()];
    assert_eq!(host.unpinned, [("id-thread".to_string(), restored)]);
    assert_eq!(host.notice().as_deref(), Some(WORKSPACE_SAVE_ERROR));
    assert!(host.names().is_empty(), "the workspace is unchanged");
}

#[test]
fn a_failed_hand_over_writes_no_entry() {
    let mut host = agent_app(vec![]);
    host.store = Store::CannotWrite;
    let source = persisted(AgentTool::Codex, "thread", AgentSessionState::Closed);
    host.act(|app, now| app.pin_conversation(&source, &"Ada".to_string(), now));
    assert!(host.pinned.is_empty() && host.workspaces.is_empty() && host.unpinned.is_empty());
    assert!(host.notice().is_some_and(|notice| notice.starts_with(AGENT_SESSION_STORE_ERROR)));
}

#[test]
fn a_conversation_held_elsewhere_is_not_launched() {
    let mut agent = spec("helper", "codex");
    agent.agent_tool = Some(AgentTool::Codex);
    let config = config(vec![agent], vec![], vec![]);
    let mut host = loaded_app(&config, config.copied());
    host.store = Store::Works;
    let mut held = persisted(AgentTool::Codex, "held", AgentSessionState::Closed);
    held.configured_key = Some("helper".to_string());
    held.owner_process = Some(3);
    held.owner_token = Some("t".to_string());
    held.running_token = Some("t".to_string());
    host.sessions = vec![held];
    let mut host = host.started();

    assert_eq!(host.named("helper").agent_session_id.as_deref(), Some("id-held"));
    let before = host.spawns.len();
    for action in ['s', 'r'] {
        host.press(KeyCode::Char(action));
    }
    assert_eq!(host.spawns.len(), before, "another instance holds the conversation");
    assert!(!host.spawns.iter().any(|request| request.session.as_deref() == Some("id-held")));

    host.sessions[0].running_token = None;
    host.press(KeyCode::Char('s'));
    let request = host.spawns.last().expect("a spawn");
    assert_eq!(request.session.as_deref(), Some("id-held"), "once it is free it starts");
}

#[test]
fn a_registration_taken_back_returns_what_it_replaced() {
    let mut host =
        flow_app(vec![project("old", "/new/muster.yml")], empty_config(), "/here/muster.yml");
    host.every_workspace_exists = true;
    host.workspace = None;
    host.act(|app, _| app.handle_located("fresh".to_string(), place("/new/muster.yml"), false));

    assert_eq!(host.taken_back, [vec!["old".to_string()]]);
    let saved = host.saved_projects.as_ref().expect("the registry was saved");
    let names: Vec<&str> = saved.iter().map(|project| project.name.as_str()).collect();
    assert_eq!(names, ["old"]);
}

#[test]
fn sessions_are_listed_by_the_components_of_their_project() {
    let mut near = persisted(AgentTool::Codex, "near", AgentSessionState::Closed);
    near.project = place("/here/./muster.yml");
    let mut far = persisted(AgentTool::Codex, "far", AgentSessionState::Closed);
    far.project = place("/there/muster.yml");
    let host = agent_app(vec![near, far]);
    let WorkspaceResponse::Sessions(list) = host.app.session_response() else {
        panic!("the sessions are readable");
    };
    assert_eq!(list.len(), 1);
}

#[test]
fn a_watched_config_is_the_current_one() {
    let mut host = app_with(RestartPolicy::Never);
    host.app.set_config_watcher();
    let effects = host.app.take_effects();
    assert!(matches!(&effects[..], [Effect::Watch(place)] if place.path == "muster.yml"));
}

#[test]
fn running_or_uncaptured_conversations_are_not_pinned() {
    let mut host = agent_app(vec![]);
    let mut source = persisted(AgentTool::Codex, "thread", AgentSessionState::Open);
    source.owner_process = Some(3);
    source.owner_token = Some("t".to_string());
    source.running_token = Some("t".to_string());
    host.act(|app, now| app.pin_conversation(&source, &"Ada".to_string(), now));
    assert_eq!(host.notice().as_deref(), Some(PIN_SOURCE_STILL_RUNNING));

    let source = session("s", "Ada", AgentTool::Codex, AgentSessionState::Closed);
    host.act(|app, now| app.pin_conversation(&source, &"Ada".to_string(), now));
    assert_eq!(host.notice().as_deref(), Some(AGENT_SESSION_NOT_RESUMABLE));
    assert!(host.pinned.is_empty());
}

#[test]
fn configured_agents_are_bound_to_sessions_of_their_own() {
    let mut agent = spec("helper", "codex");
    agent.agent_tool = Some(AgentTool::Codex);
    let config = config(vec![agent], vec![], vec![]);
    let mut host = loaded_app(&config, config.copied());
    host.store = Store::Works;
    let host = host.started();

    assert_eq!(host.live_names, ["helper"]);
    let record = host.last_session();
    assert_eq!(record.configured_key.as_deref(), Some("helper"));
    assert_eq!(record.state, AgentSessionState::Closed);
    assert_eq!(record.launch_command, "codex");
    assert!(record.owner_process.is_none() && record.owner_token.is_none());
    assert_eq!(host.named("helper").agent_session_id.as_ref(), Some(&record.id));
    let names = kept_agent_names(host.live_names.clone(), &one_agent_config("disk"));
    assert_eq!(names, ["helper", "disk"]);
}

#[test]
fn linked_agents_are_left_alone() {
    let mut agent = spec("helper", "codex");
    agent.agent_tool = Some(AgentTool::Codex);
    let config = config(vec![agent], vec![], vec![]);
    let mut host = loaded_app(&config, config.copied());
    host.store = Store::Works;
    let mut host = host.started();
    let linked = host.named("helper").agent_session_id.clone();
    assert!(linked.is_some());
    assert_eq!(host.sessions.len(), 1);

    host.app.link_configured_agent_sessions();
    assert!(host.app.io.agenda.is_empty(), "there is nothing left to link");
    assert!(host.app.take_effects().is_empty());
    assert_eq!(host.named("helper").agent_session_id, linked);
}

#[test]
fn an_owned_session_is_recognized() {
    let mut session = persisted(AgentTool::Codex, "thread", AgentSessionState::Open);
    let id = session.id.clone();
    session.owner_process = Some(3);
    session.owner_token = Some("t".to_string());
    let mut host = agent_app(vec![session]);
    let pane = host.selected().id;
    host.observe();
    assert!(!host.app.agent_session_owned_by_live_process(pane));
    let found = host.sessions.iter_mut().find(|found| found.id == id).expect("a session");
    found.running_token = Some("t".to_string());
    host.observe();
    assert!(host.app.agent_session_owned_by_live_process(pane));
    assert!(!host.app.agent_session_owned_by_live_process(99));
}

#[test]
fn taken_names_are_refused() {
    let mut host = flow_app(vec![], one_agent_config("Ada"), "/here/muster.yml");
    host.config_changed("/here/muster.yml");
    let (name, command) = ("Ada".to_string(), "codex".to_string());
    host.act(|app, now| {
        app.add_configured_process(ProcessKind::Agent, &name, &command, now)
    });
    assert_eq!(host.notice().as_deref(), Some(AGENT_NAME_TAKEN));
    assert!(host.workspaces.is_empty());
}

// The bridge.

fn ask(host: &mut Host, request: WorkspaceRequest) -> WorkspaceResponse {
    host.observe();
    let now = host.now;
    let response = host.app.handle_workspace_request(request, now);
    host.settle();
    response
}

#[test]
fn the_bridge_describes_processes_and_screens() {
    let mut host = app_with(RestartPolicy::Never);
    host.emit(b"hello");
    let WorkspaceResponse::Processes(list) = ask(&mut host, WorkspaceRequest::ListProcesses) else {
        panic!("a list of processes");
    };
    assert_eq!(list.len(), 1);
    assert_eq!((list[0].pane, list[0].name.as_str()), (PANE, "p"));
    assert_eq!(list[0].state, ProcessState::Running);
    assert_eq!(list[0].activity, ActivityState::Working);
    let response = ask(&mut host, WorkspaceRequest::PaneOutput(PANE));
    assert!(matches!(response, WorkspaceResponse::PaneOutput(Some(text)) if text.contains("hello")));
    let response = ask(&mut host, WorkspaceRequest::PaneOutput(9));
    assert!(matches!(response, WorkspaceResponse::PaneOutput(None)));
}

#[test]
fn the_bridge_delivers_input_to_live_processes() {
    let mut host = app_with(RestartPolicy::Never);
    let input = |pane| WorkspaceRequest::SendInput { pane, data: "ls".to_string() };
    let response = ask(&mut host, input(PANE));
    assert!(
        matches!(response, WorkspaceResponse::Deliver { pane: PANE, data } if data == "ls")
    );
    assert_eq!(send_outcome(true), SendOutcome::Delivered);
    assert_eq!(send_outcome(false), SendOutcome::NotRunning);
    assert!(matches!(
        ask(&mut host, input(9)),
        WorkspaceResponse::Sent(SendOutcome::Unknown)
    ));
    host.exit(ExitOutcome::Succeeded);
    assert!(matches!(
        ask(&mut host, input(PANE)),
        WorkspaceResponse::Sent(SendOutcome::NotRunning)
    ));
}

#[test]
fn the_bridge_controls_processes() {
    let mut host = app_with(RestartPolicy::Never);
    let control = |pane, action| WorkspaceRequest::ControlProcess { pane, action };
    assert!(matches!(
        ask(&mut host, control(9, ControlAction::Start)),
        WorkspaceResponse::Controlled(ControlOutcome::Unknown)
    ));
    assert!(matches!(
        ask(&mut host, control(PANE, ControlAction::Stop)),
        WorkspaceResponse::Controlled(ControlOutcome::Requested)
    ));
    assert_eq!(host.state(), ProcessState::Stopping);
    host.exit(ExitOutcome::Succeeded);
    ask(&mut host, control(PANE, ControlAction::Start));
    assert_eq!(host.state(), ProcessState::Running);
    ask(&mut host, control(PANE, ControlAction::Restart));
    assert_eq!(host.intent(), ExitIntent::RestartInFlight);
}

#[test]
fn the_bridge_tells_unreadable_sessions_from_none() {
    let session = persisted(AgentTool::Codex, "thread", AgentSessionState::Closed);
    let mut host = agent_app(vec![session]);
    let WorkspaceResponse::Sessions(list) = ask(&mut host, WorkspaceRequest::ListSessions) else {
        panic!("a list of sessions");
    };
    assert_eq!(list.len(), 1);
    assert!(list[0].resumable);
    assert_eq!(list[0].state_word(), "closed");
    host.store = Store::CannotRead;
    assert!(matches!(
        ask(&mut host, WorkspaceRequest::ListSessions),
        WorkspaceResponse::Unavailable
    ));
    host.store = Store::Absent;
    assert!(matches!(
        ask(&mut host, WorkspaceRequest::ListSessions),
        WorkspaceResponse::Sessions(list) if list.is_empty()
    ));
}

// Input.

#[test]
fn pastes_reach_forms_and_terminals() {
    let mut host = app_with(RestartPolicy::Never);
    let paste = |host: &mut Host, text: &str| {
        let text = text.to_string();
        host.act(|app, now| app.handle_input(InputEvent::Paste(text), now));
    };
    paste(&mut host, "ignored in the sidebar");
    assert!(host.written.is_empty());
    host.press(KeyCode::Enter);
    paste(&mut host, "plain");
    assert_eq!(host.written, b"plain");
    host.written.clear();
    host.feed(b"\x1b[?2004h");
    paste(&mut host, "two\nlines");
    assert_eq!(host.written, b"\x1b[200~two\nlines\x1b[201~");

    host.act(|app, _| app.open_new_project_form());
    paste(&mut host, "na\nme");
    assert_eq!(host.form().expect("a form").form.values()[0], "name");
}

#[test]
fn resizing_reaches_screens_and_children() {
    let mut host = app_with(RestartPolicy::Never);
    host.act(|app, now| {
        app.handle_input(InputEvent::Resize { width: 132, height: 43 }, now)
    });
    let size = pane_size_of(Rect::new(0, 0, 132, 43));
    assert_eq!(host.resized, [(PANE, size)]);
    let screen = &host.app.panes.get(PANE).expect("a pane").screen;
    assert_eq!(screen.size(), (size.rows, size.cols));
    host.act(|app, now| app.handle_input(InputEvent::Other, now));
    assert_eq!(host.resized.len(), 1);
}

#[test]
fn held_keys_are_released_where_they_were_pressed() {
    let mut host = app_with(RestartPolicy::Never);
    host.app.focus = Focus::Terminal;
    let event = |kind| {
        let mut key = KeyEvent::new(KeyCode::Char('a'), KeyModifiers::none());
        key.kind = kind;
        key
    };
    let send = |host: &mut Host, kind| {
        let key = event(kind);
        host.act(|app, now| {
            app.handle_input(InputEvent::Key { key, escape: Some(7) }, now)
        });
    };
    send(&mut host, KeyEventKind::Release);
    assert!(host.held.is_empty(), "nothing was pressed");
    send(&mut host, KeyEventKind::Press);
    send(&mut host, KeyEventKind::Repeat);
    host.app.focus = Focus::Sidebar;
    send(&mut host, KeyEventKind::Release);
    send(&mut host, KeyEventKind::Release);
    assert_eq!(
        host.held,
        [
            (PANE, 7, KeyEventKind::Press),
            (PANE, 7, KeyEventKind::Repeat),
            (PANE, 7, KeyEventKind::Release),
        ]
    );
}

#[test]
fn a_dismissing_click_reaches_nothing_else() {
    let mut host = app_with(RestartPolicy::Never);
    host.feed(b"hello");
    host.press(KeyCode::Char('!'));
    assert!(host.notice().is_some());
    let (x, y) = host.corner();
    let region = Some(Rect::new(x, y, 10, 3));
    for kind in [
        MouseEventKind::Down(MouseButton::Left),
        MouseEventKind::Drag(MouseButton::Left),
        MouseEventKind::Up(MouseButton::Left),
    ] {
        let mouse = MouseEvent { kind, column: x + 1, row: y, modifiers: KeyModifiers::none() };
        let facts =
            PointerFacts { notice_region: region, toast_region: None, sidebar_row: None };
        host.act(|app, now| app.handle_input(InputEvent::Mouse { mouse, facts }, now));
    }
    assert!(host.notice().is_none());
    assert_eq!(host.app.focus, Focus::Sidebar, "the click stays with the box");
    assert!(host.app.pointer.selection.is_none());
    host.down(x, y);
    assert_eq!(host.app.focus, Focus::Terminal, "the next click is an ordinary one");
}

#[test]
fn a_third_click_starts_over() {
    let mut host = app_with(RestartPolicy::Never);
    host.feed(b"hello world");
    let (x, y) = host.corner();
    for _ in 0..2 {
        host.down(x, y);
        host.up(x, y);
    }
    assert_eq!(host.clipboard(), Some("hello".to_string()));
    host.down(x, y);
    host.up(x, y);
    assert_eq!(host.clipboard(), None);
}

#[test]
fn selections_are_shown_where_they_are_in_view() {
    let mut host = app_with(RestartPolicy::Never);
    host.feed(b"hello world");
    let (x, y) = host.corner();
    host.down(x, y);
    host.drag(x + 4, y);
    host.app.refresh_selection_view();
    let (start, end) = host.app.pointer.view.expect("a span in view");
    assert_eq!((start.row, start.column, end.row, end.column), (0, 0, 0, 4));
    let tick = at(1_000 + SELECTION_AUTOSCROLL_MILLIS);
    assert_eq!(host.app.next_selection_deadline(), Some(tick), "the top row scrolls");
    host.press(KeyCode::Char('k'));
    assert!(host.app.pointer.selection.is_none(), "a key clears the selection");
}

#[test]
fn only_agents_and_enabled_settings_reach_the_desktop() {
    let mut host =
        Host::new(vec![process(PANE, "agent", ProcessKind::Agent, "agent")], "muster.yml");
    host.has_notifier = true;
    let mut host = host.started();
    host.emit(b"\x07");
    assert!(host.shown.is_empty(), "the settings are unknown");
    assert_eq!(host.activity(), ActivityState::AwaitingInput);
    host.enable_desktop();
    host.now = at(60_000);
    host.emit(b"\x07\x07\x07");
    assert_eq!(host.shown.len(), 1, "a burst is one alert");
}

#[test]
fn answers_without_questions_change_nothing() {
    let mut host = app_with(RestartPolicy::Never);
    host.act(|app, now| app.answer(Reply::Done(false), now));
    assert_eq!(host.state(), ProcessState::Running);
    assert!(host.alive(PANE));
}

#[test]
fn closed_input_ends_the_loop() {
    let mut host = app_with(RestartPolicy::Never);
    host.act(|app, now| app.handle_event(RuntimeEvent::InputClosed, now));
    assert!(!host.app.is_running());
}
