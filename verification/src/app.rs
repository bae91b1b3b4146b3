//! The running application: workspace state plus the live panes.
//!
//! The application performs no input or output of its own. A step appends what
//! the host is to do to an outbox; where it needs the outcome, it leaves a task
//! that waits for the answer. Work that follows later in the same step stands on
//! an agenda, of which the last entry is done first.

use vstd::prelude::*;
use crate::activity_frame::{ActivityFrame, ACTIVITY_FRAME_INTERVAL_MILLIS};
use crate::config::{Sections, WorkspaceConfig};
use crate::effect::{effect_models, Effect, EffectModel, Task};
use crate::generation::CompletionGeneration;
use crate::geometry::{frame_areas, inner_size, PaneSize, Rect};
use crate::input::KeyCode;
use crate::ledger::{Ledger, LedgerModel};
use crate::location::{Location, Project};
use crate::message::{Feedback, Message};
use crate::moment::Moment;
use crate::overlay::{overlay_model, report_in, shows_errors, with_error, Overlay, OverlayModel};
use crate::palette::HostColors;
use crate::pane::{PaneModel, Panes};
use crate::process::{PaneId, Presets};
use crate::selection::{BufferCell, GridCell, Selection};
use crate::session::AgentSession;
use crate::text::opt_text;
use crate::workspace::{Roster, Workspace};

pub mod agents;
pub mod bridge;
pub mod entries;
pub mod forms;
pub mod forwarding;
pub mod keys;
pub mod overlay_keys;
pub mod pinning;
pub mod lifecycle;
pub mod pointer;
pub mod projects;
pub mod scene;
pub mod schedule;
pub mod sidebar;
pub mod signals;
pub mod stopping;

verus! {

/// Which region currently has keyboard focus.
#[derive(Debug, Clone, Copy, PartialEq, Eq, Structural)]
pub enum Focus {
    /// The sidebar list is active: keys navigate and act on processes.
    Sidebar,
    /// A terminal is attached: keys pass through to its process.
    Terminal,
    /// A terminal is attached and the next key completes a leader command.
    Leader,
}

/// The cross-workspace settings, as far as they are known.
#[derive(Debug)]
pub enum SettingsState {
    /// The host has not provided settings yet.
    Unloaded,
    /// Settings loaded: whether desktop notifications are on.
    Loaded(bool),
    /// An existing settings file could not be read.
    LoadFailed(String),
}

/// How path completions are currently evaluated.
#[derive(Debug, Clone, Copy, PartialEq, Eq, Structural)]
pub enum CompletionMode {
    /// Complete at once.
    Inline,
    /// Dispatch requests to a background worker; the newest generation wins.
    Worker(CompletionGeneration),
}

/// What the host knows of the outside, handed in before each step.
#[derive(Debug)]
pub struct World {
    /// Recorded agent sessions, newest last.
    pub sessions: Result<Vec<AgentSession>, String>,
    /// Registered projects.
    pub projects: Result<Vec<Project>, String>,
    /// File that records agent sessions.
    pub state_file: Result<Option<String>, String>,
    /// Current directory.
    pub folder: String,
    /// Names drawn for this step.
    pub names: Vec<String>,
    /// An identity drawn for this step that no session has yet.
    pub fresh_id: Option<String>,
    /// There is a store of agent sessions.
    pub has_store: bool,
    /// There is a desktop notifier.
    pub has_notifier: bool,
    /// There is a config watcher.
    pub has_watcher: bool,
    /// Default colors of the host terminal, where they were detected.
    pub host_colors: Option<HostColors>,
    /// Names and commands of the providers.
    pub presets: Presets,
}

/// What the host knows of the outside.
#[verifier::ext_equal]
pub struct WorldModel {
    /// Recorded agent sessions, newest last.
    pub sessions: Result<Seq<AgentSession>, String>,
    /// Registered projects.
    pub projects: Result<Seq<Project>, String>,
    /// File that records agent sessions.
    pub state_file: Result<Option<String>, String>,
    /// Current directory.
    pub folder: String,
    /// Names drawn for this step.
    pub names: Seq<String>,
    /// An identity drawn for this step that no session has yet.
    pub fresh_id: Option<String>,
    /// There is a store of agent sessions.
    pub has_store: bool,
    /// There is a desktop notifier.
    pub has_notifier: bool,
    /// There is a config watcher.
    pub has_watcher: bool,
    /// Default colors of the host terminal, where they were detected.
    pub host_colors: Option<HostColors>,
    /// Names and commands of the providers.
    pub presets: Presets,
}

/// A result with the elements of its list.
pub open spec fn listed<T>(result: Result<Vec<T>, String>) -> Result<Seq<T>, String> {
    match result {
        Ok(list) => Ok(list@),
        Err(error) => Err(error),
    }
}

impl View for World {
    type V = WorldModel;

    open spec fn view(&self) -> WorldModel {
        WorldModel {
            sessions: listed(self.sessions),
            projects: listed(self.projects),
            state_file: self.state_file,
            folder: self.folder,
            names: self.names@,
            fresh_id: self.fresh_id,
            has_store: self.has_store,
            has_notifier: self.has_notifier,
            has_watcher: self.has_watcher,
            host_colors: self.host_colors,
            presets: self.presets,
        }
    }
}

impl WorldModel {
    /// The recorded sessions; none without a store.
    pub open spec fn agent_sessions(self) -> Result<Seq<AgentSession>, String> {
        if self.has_store {
            self.sessions
        } else {
            Ok(Seq::empty())
        }
    }
}

/// The projects that the application knows, and where it is among them.
#[derive(Debug)]
pub struct Catalog {
    /// Config of the active project.
    pub current: Option<Location>,
    /// Config that the application was launched with.
    pub launched: Location,
    /// The launched config appears only as a temporary row.
    pub synthetic: bool,
    /// Projects shown in the tree.
    pub projects: Vec<Project>,
    /// The selected row among the other projects.
    pub cursor: Option<usize>,
}

/// What the catalog holds.
#[verifier::ext_equal]
pub struct CatalogModel {
    /// Config of the active project.
    pub current: Option<Location>,
    /// Config that the application was launched with.
    pub launched: Location,
    /// The launched config appears only as a temporary row.
    pub synthetic: bool,
    /// Projects shown in the tree.
    pub projects: Seq<Project>,
    /// The selected row among the other projects.
    pub cursor: Option<usize>,
}

impl View for Catalog {
    type V = CatalogModel;

    open spec fn view(&self) -> CatalogModel {
        CatalogModel {
            current: self.current,
            launched: self.launched,
            synthetic: self.synthetic,
            projects: self.projects@,
            cursor: self.cursor,
        }
    }
}

/// A project switch deferred until the current children have exited, so that the
/// new workspace never contends with the old for ports or other resources.
pub struct PendingSwitch {
    /// Config to fall back to when it cannot be read again.
    pub config: WorkspaceConfig,
    /// Place of the config.
    pub place: Location,
    /// Panes that have not exited yet.
    pub waiting: Vec<PaneId>,
    /// The config is being read again.
    pub loading: bool,
}

/// What a deferred switch holds.
#[verifier::ext_equal]
pub struct SwitchModel {
    /// Config to fall back to.
    pub config: Sections,
    /// Place of the config.
    pub place: Location,
    /// Panes that have not exited yet.
    pub waiting: Seq<PaneId>,
    /// The config is being read again.
    pub loading: bool,
}

impl View for PendingSwitch {
    type V = SwitchModel;

    open spec fn view(&self) -> SwitchModel {
        SwitchModel {
            config: self.config@,
            place: self.place,
            waiting: self.waiting@,
            loading: self.loading,
        }
    }
}

/// What an optional deferred switch holds.
pub open spec fn switch_model(pending: Option<PendingSwitch>) -> Option<SwitchModel> {
    match pending {
        Some(pending) => Some(pending@),
        None => None,
    }
}

/// A key that a child knows to be held.
#[derive(Debug, Clone, Copy, PartialEq, Eq, Structural)]
pub struct HeldKey {
    /// Key.
    pub code: KeyCode,
    /// Pane that received the press.
    pub pane: PaneId,
    /// Spawn generation of that pane at the time.
    pub generation: u64,
    /// Encoding of the press.
    pub encoding: u32,
    /// Keyboard protocol at the time.
    pub protocol: u8,
    /// Screen at the time.
    pub screen_epoch: u64,
}

/// A pane press remembered briefly to recognize a double-click.
#[derive(Debug, Clone, Copy, PartialEq, Eq, Structural)]
pub struct PaneClick {
    /// Pane.
    pub pane: PaneId,
    /// Pressed cell.
    pub cell: BufferCell,
    /// When it was pressed.
    pub at: Moment,
}

/// An edge-drag autoscroll, with the last known place of the pointer.
#[derive(Debug, Clone, Copy, PartialEq, Eq, Structural)]
pub struct Autoscroll {
    /// It scrolls up.
    pub up: bool,
    /// Column of the pointer.
    pub column: u16,
    /// Row of the pointer.
    pub row: u16,
}

/// The shape of the pointer.
#[derive(Debug, Clone, Copy, PartialEq, Eq, Structural)]
pub enum PointerShape {
    /// The regular arrow.
    Default,
    /// An I-beam over selectable text.
    Text,
}

/// The state of pointer gestures.
#[derive(Debug)]
pub struct Pointer {
    /// The in-progress or lingering selection.
    pub selection: Option<Selection>,
    /// Active edge-drag autoscroll.
    pub autoscroll: Option<Autoscroll>,
    /// Next tick of the autoscroll.
    pub autoscroll_deadline: Option<Moment>,
    /// When a finished word-copy highlight disappears.
    pub clear_deadline: Option<Moment>,
    /// The last pane press.
    pub last_click: Option<PaneClick>,
    /// Span of the selection in the view, for the next frame.
    pub view: Option<(GridCell, GridCell)>,
    /// Text queued for the host clipboard.
    pub clipboard: Option<String>,
    /// Shape that the host shows.
    pub shape: PointerShape,
    /// Shape that the host has yet to show.
    pub pending_shape: Option<PointerShape>,
    /// The rest of a gesture that dismissed a message is swallowed.
    pub dismissing: bool,
}

/// What the state of pointer gestures holds.
#[verifier::ext_equal]
pub struct PointerModel {
    /// The in-progress or lingering selection.
    pub selection: Option<Selection>,
    /// Active edge-drag autoscroll.
    pub autoscroll: Option<Autoscroll>,
    /// Next tick of the autoscroll.
    pub autoscroll_deadline: Option<Moment>,
    /// When a finished word-copy highlight disappears.
    pub clear_deadline: Option<Moment>,
    /// The last pane press.
    pub last_click: Option<PaneClick>,
    /// Span of the selection in the view.
    pub view: Option<(GridCell, GridCell)>,
    /// Text queued for the host clipboard.
    pub clipboard: Option<Seq<char>>,
    /// Shape that the host shows.
    pub shape: PointerShape,
    /// Shape that the host has yet to show.
    pub pending_shape: Option<PointerShape>,
    /// The rest of a gesture that dismissed a message is swallowed.
    pub dismissing: bool,
}

impl View for Pointer {
    type V = PointerModel;

    open spec fn view(&self) -> PointerModel {
        PointerModel {
            selection: self.selection,
            autoscroll: self.autoscroll,
            autoscroll_deadline: self.autoscroll_deadline,
            clear_deadline: self.clear_deadline,
            last_click: self.last_click,
            view: self.view,
            clipboard: opt_text(self.clipboard),
            shape: self.shape,
            pending_shape: self.pending_shape,
            dismissing: self.dismissing,
        }
    }
}

/// The frame that is drawn.
#[derive(Debug, Clone, Copy, PartialEq, Eq, Structural)]
pub struct Canvas {
    /// The whole frame.
    pub area: Rect,
}

/// The spinner of working agents.
#[derive(Debug, Clone, Copy, PartialEq, Eq, Structural)]
pub struct Spinner {
    /// Current glyph.
    pub frame: ActivityFrame,
    /// When the next one is due.
    pub deadline: Moment,
}

/// Effects and tasks.
#[derive(Debug)]
pub struct Io {
    /// What the host is to do, in order.
    pub outbox: Vec<Effect>,
    /// What waits for answers, in the order of the questions.
    pub waiting: Vec<Task>,
    /// What is left to do, last entry first.
    pub agenda: Vec<Task>,
}

/// The running application.
pub struct App {
    /// Processes and the selection among them.
    pub workspace: Workspace,
    /// Managed panes.
    pub panes: Panes,
    /// Bookkeeping across panes.
    pub ledger: Ledger,
    /// Known projects.
    pub catalog: Catalog,
    /// What the host knows.
    pub world: World,
    /// Modal state.
    pub overlay: Option<Overlay>,
    /// Focused region.
    pub focus: Focus,
    /// The event loop goes on.
    pub running: bool,
    /// Transient messages.
    pub feedback: Feedback,
    /// Pointer gestures.
    pub pointer: Pointer,
    /// Drawn frame.
    pub canvas: Canvas,
    /// Spinner of working agents.
    pub spinner: Spinner,
    /// How path completions are evaluated.
    pub completion: CompletionMode,
    /// Settings.
    pub settings: SettingsState,
    /// Deferred project switch.
    pub pending_switch: Option<PendingSwitch>,
    /// Keys that children know to be held.
    pub held: Vec<HeldKey>,
    /// Effects and tasks.
    pub io: Io,
}

/// What the application holds.
#[verifier::ext_equal]
pub struct AppModel {
    /// Processes and the selection among them.
    pub roster: Roster,
    /// Managed panes.
    pub panes: Seq<PaneModel>,
    /// Bookkeeping across panes.
    pub ledger: LedgerModel,
    /// Known projects.
    pub catalog: CatalogModel,
    /// What the host knows.
    pub world: WorldModel,
    /// Modal state.
    pub overlay: Option<OverlayModel>,
    /// Focused region.
    pub focus: Focus,
    /// The event loop goes on.
    pub running: bool,
    /// Transient messages.
    pub feedback: Feedback,
    /// Pointer gestures.
    pub pointer: PointerModel,
    /// Drawn frame.
    pub canvas: Canvas,
    /// Spinner of working agents.
    pub spinner: Spinner,
    /// How path completions are evaluated.
    pub completion: CompletionMode,
    /// Settings.
    pub settings: SettingsState,
    /// Deferred project switch.
    pub pending_switch: Option<SwitchModel>,
    /// Keys that children know to be held.
    pub held: Seq<HeldKey>,
    /// What the host is to do.
    pub outbox: Seq<EffectModel>,
    /// What waits for answers.
    pub waiting: Seq<Task>,
    /// What is left to do.
    pub agenda: Seq<Task>,
}

impl View for App {
    type V = AppModel;

    open spec fn view(&self) -> AppModel {
        AppModel {
            roster: self.workspace@,
            panes: self.panes@,
            ledger: self.ledger@,
            catalog: self.catalog@,
            world: self.world@,
            overlay: overlay_model(self.overlay),
            focus: self.focus,
            running: self.running,
            feedback: self.feedback,
            pointer: self.pointer@,
            canvas: self.canvas,
            spinner: self.spinner,
            completion: self.completion,
            settings: self.settings,
            pending_switch: switch_model(self.pending_switch),
            held: self.held@,
            outbox: effect_models(self.io.outbox@),
            waiting: self.io.waiting@,
            agenda: self.io.agenda@,
        }
    }
}

impl AppModel {
    /// The size of the terminals in the frame.
    pub open spec fn pane_size(self) -> PaneSize {
        inner_size(frame_areas(self.canvas.area).main)
    }

    /// The application with an effect more.
    pub open spec fn sent(self, effect: EffectModel) -> AppModel {
        AppModel { outbox: self.outbox.push(effect), ..self }
    }

    /// The application with an effect more, whose values were handed in.
    pub open spec fn told(self, effect: Effect) -> AppModel {
        self.sent(EffectModel::Plain(effect))
    }

    /// The application with a question more, and the task that waits for its
    /// answer.
    pub open spec fn asked(self, effect: EffectModel, task: Task) -> AppModel {
        AppModel {
            outbox: self.outbox.push(effect),
            waiting: self.waiting.push(task),
            ..self
        }
    }

    /// The application with a task more on its agenda.
    pub open spec fn later(self, task: Task) -> AppModel {
        AppModel { agenda: self.agenda.push(task), ..self }
    }

    /// The application with a notice.
    pub open spec fn noted(self, message: Message, now: Moment) -> AppModel {
        AppModel { feedback: self.feedback.noted(message, now), ..self }
    }

    /// The application with an error in its active modal, or as a notice.
    pub open spec fn complained(self, message: Message, now: Moment) -> AppModel {
        let shown = AppModel { overlay: with_error(self.overlay, message), ..self };
        if shows_errors(self.overlay) {
            shown
        } else {
            self.noted(message, now)
        }
    }

    /// The application with the focus elsewhere.
    pub open spec fn focused(self, focus: Focus) -> AppModel {
        AppModel { focus, ..self }
    }

    /// The application with another overlay.
    pub open spec fn with_overlay(self, overlay: Option<OverlayModel>) -> AppModel {
        AppModel { overlay, ..self }
    }

    /// The application with other processes.
    pub open spec fn with_roster(self, roster: Roster) -> AppModel {
        AppModel { roster, ..self }
    }

    /// The application with other panes.
    pub open spec fn with_panes(self, panes: Seq<PaneModel>) -> AppModel {
        AppModel { panes, ..self }
    }

    /// The application with other bookkeeping.
    pub open spec fn with_ledger(self, ledger: LedgerModel) -> AppModel {
        AppModel { ledger, ..self }
    }

    /// The application with the cursor on another project row.
    pub open spec fn with_cursor(self, cursor: Option<usize>) -> AppModel {
        AppModel { catalog: CatalogModel { cursor, ..self.catalog }, ..self }
    }

    /// The application that was just created.
    pub open spec fn created(
        roster: Roster,
        area: Rect,
        current: Location,
        world: WorldModel,
        now: Moment,
    ) -> AppModel {
        AppModel {
            roster,
            panes: Seq::empty(),
            ledger: LedgerModel::blank(),
            catalog: CatalogModel {
                current: Some(current),
                launched: current,
                synthetic: false,
                projects: Seq::empty(),
                cursor: None,
            },
            world,
            overlay: None,
            focus: Focus::Sidebar,
            running: true,
            feedback: Feedback::silent(),
            pointer: PointerModel {
                selection: None,
                autoscroll: None,
                autoscroll_deadline: None,
                clear_deadline: None,
                last_click: None,
                view: None,
                clipboard: None,
                shape: PointerShape::Default,
                pending_shape: None,
                dismissing: false,
            },
            canvas: Canvas { area },
            spinner: Spinner {
                frame: ActivityFrame { index: 0 },
                deadline: now.later(ACTIVITY_FRAME_INTERVAL_MILLIS),
            },
            completion: CompletionMode::Inline,
            settings: SettingsState::Unloaded,
            pending_switch: None,
            held: Seq::empty(),
            outbox: Seq::empty(),
            waiting: Seq::empty(),
            agenda: Seq::empty(),
        }
    }
}

impl App {
    /// Creates the application sized to `area`, ready for `start`.
    pub fn new(
        workspace: Workspace,
        area: Rect,
        current_config: Location,
        world: World,
        now: Moment,
    ) -> (app: Self)
        ensures
            app@ == AppModel::created(workspace@, area, current_config, world@, now),
    {
        let app: App = App {
            workspace,
            panes: Panes::new(),
            ledger: Ledger::new(),
            catalog: Catalog {
                current: Some(current_config.copied()),
                launched: current_config,
                synthetic: false,
                projects: Vec::new(),
                cursor: None,
            },
            world,
            overlay: None,
            focus: Focus::Sidebar,
            running: true,
            feedback: Feedback::new(),
            pointer: Pointer {
                selection: None,
                autoscroll: None,
                autoscroll_deadline: None,
                clear_deadline: None,
                last_click: None,
                view: None,
                clipboard: None,
                shape: PointerShape::Default,
                pending_shape: None,
                dismissing: false,
            },
            canvas: Canvas { area },
            spinner: Spinner {
                frame: ActivityFrame::initial(),
                deadline: now.after_millis(ACTIVITY_FRAME_INTERVAL_MILLIS),
            },
            completion: CompletionMode::Inline,
            settings: SettingsState::Unloaded,
            pending_switch: None,
            held: Vec::new(),
            io: Io { outbox: Vec::new(), waiting: Vec::new(), agenda: Vec::new() },
        };
        assert(app@ =~= AppModel::created(workspace@, area, current_config, world@, now));
        app
    }

    /// Whether the event loop should keep running.
    pub fn is_running(&self) -> (running: bool)
        ensures
            running == self@.running,
    {
        self.running
    }

    /// Appends an effect.
    pub fn send(&mut self, effect: Effect)
        ensures
            final(self)@ == old(self)@.sent(effect@),
    {
        self.io.outbox.push(effect);
        assert(self@ =~= old(self)@.sent(effect@));
    }

    /// Appends a question and the task that waits for its answer.
    pub fn ask(&mut self, effect: Effect, task: Task)
        ensures
            final(self)@ == old(self)@.asked(effect@, task),
    {
        self.io.outbox.push(effect);
        self.io.waiting.push(task);
        assert(self@ =~= old(self)@.asked(effect@, task));
    }

    /// Puts a task on the agenda.
    pub fn defer(&mut self, task: Task)
        ensures
            final(self)@ == old(self)@.later(task),
    {
        self.io.agenda.push(task);
    }

    /// Shows a transient failure notice.
    pub fn set_notice(&mut self, message: Message, now: Moment)
        ensures
            final(self)@ == old(self)@.noted(message, now),
    {
        self.feedback.set_notice(message, now);
    }

    /// Reports an error in the active modal, falling back to a notice.
    pub fn report_error(&mut self, message: Message, now: Moment)
        ensures
            final(self)@ == old(self)@.complained(message, now),
    {
        if let Some(left) = report_in(&mut self.overlay, message) {
            self.set_notice(left, now);
        }
    }

    /// Takes what the host is to do, in order.
    pub fn take_effects(&mut self) -> (effects: Vec<Effect>)
        ensures
            effect_models(effects@) == old(self)@.outbox,
            final(self)@ == (AppModel { outbox: Seq::empty(), ..old(self)@ }),
    {
        let mut effects: Vec<Effect> = Vec::new();
        std::mem::swap(&mut self.io.outbox, &mut effects);
        assert(self@ =~= (AppModel { outbox: Seq::empty(), ..old(self)@ }));
        effects
    }

    /// Hands in what the host knows of the outside.
    pub fn observe(&mut self, world: World)
        ensures
            final(self)@ == (AppModel { world: world@, ..old(self)@ }),
    {
        self.world = world;
    }

    /// Returns the pane selected in the active workspace.
    pub fn selected_pane(&self) -> (pane: Option<PaneId>)
        ensures
            pane == self@.roster.selected_id(),
    {
        self.workspace.selected_id()
    }

    /// Returns the recorded sessions; none without a store.
    pub fn agent_sessions(&self) -> (sessions: Result<Vec<AgentSession>, String>)
        ensures
            listed(sessions) == self@.world.agent_sessions(),
    {
        if self.world.has_store {
            match &self.world.sessions {
                Ok(sessions) => Ok(crate::session::copy_sessions(sessions)),
                Err(error) => Err(error.clone()),
            }
        } else {
            let none: Vec<AgentSession> = Vec::new();
            assert(none@ =~= Seq::<AgentSession>::empty());
            Ok(none)
        }
    }
}

} // verus!
