//! What a frame shows, before it is drawn.

use vstd::prelude::*;
use vstd::string::*;
use crate::app::pointer::SidebarSelection;
use crate::app::projects::active_index;
use crate::app::{App, AppModel, CatalogModel, Focus};
use crate::emulator::{Screen, TerminalEmulator};
use crate::form::texts;
use crate::location::{project_at_is_the_first, Project, APP_NAME};
use crate::pane::pane_of;
use crate::process::{Process, ProcessKind, ProcessOrigin, ProcessState};
use crate::text::same_text;

verus! {

/// Between the name of a project and its folder.
pub const LABEL_GAP: &'static str = "  ";

/// The hints that the status bar shows.
#[derive(Debug, Clone, Copy, PartialEq, Eq, Structural)]
pub enum StatusContext {
    /// A terminal is attached.
    Terminal,
    /// A terminal with an agent session is attached.
    TerminalAgentSession,
    /// Another project is selected.
    Project,
    /// There is no process.
    Empty,
    /// An agent session is selected.
    AgentSession,
    /// A process is selected.
    Process,
}

/// Where the notice is shown.
#[derive(Debug, Clone, Copy, PartialEq, Eq, Structural)]
pub enum NoticePlace {
    /// There is none.
    Nowhere,
    /// In a box over the pane.
    Toast,
    /// In the status bar.
    StatusBar,
}

/// What a frame shows.
#[derive(Debug)]
pub struct Scene {
    /// Header of the active project.
    pub active_project: String,
    /// Rows of the other projects.
    pub other_projects: Vec<String>,
    /// Selected row.
    pub selection: SidebarSelection,
    /// The sidebar is focused, and not the pane.
    pub sidebar_focused: bool,
    /// Title of the pane.
    pub title: String,
    /// There is no process.
    pub empty: bool,
    /// Number of crashed processes.
    pub crashed: usize,
    /// Hints of the status bar.
    pub status: StatusContext,
    /// The leader chord is half entered.
    pub leader: bool,
    /// Where the notice is shown.
    pub notice: NoticePlace,
}

/// What a frame shows, over mathematical values.
#[verifier::ext_equal]
pub struct SceneModel {
    /// Header of the active project.
    pub active_project: Seq<char>,
    /// Rows of the other projects.
    pub other_projects: Seq<Seq<char>>,
    /// Selected row.
    pub selection: SidebarSelection,
    /// The sidebar is focused, and not the pane.
    pub sidebar_focused: bool,
    /// Title of the pane.
    pub title: Seq<char>,
    /// There is no process.
    pub empty: bool,
    /// Number of crashed processes.
    pub crashed: nat,
    /// Hints of the status bar.
    pub status: StatusContext,
    /// The leader chord is half entered.
    pub leader: bool,
    /// Where the notice is shown.
    pub notice: NoticePlace,
}

impl View for Scene {
    type V = SceneModel;

    open spec fn view(&self) -> SceneModel {
        SceneModel {
            active_project: self.active_project@,
            other_projects: texts(self.other_projects@),
            selection: self.selection,
            sidebar_focused: self.sidebar_focused,
            title: self.title@,
            empty: self.empty,
            crashed: self.crashed as nat,
            status: self.status,
            leader: self.leader,
            notice: self.notice,
        }
    }
}

/// Whether another project has the name of one.
pub open spec fn name_is_shared(projects: Seq<Project>, index: int) -> bool {
    exists|other: int|
        0 <= other < projects.len() && other != index && (#[trigger] projects[other]).name@
            == projects[index].name@
}

/// The row of a project: its name, and its folder where another project has the
/// same name.
pub open spec fn project_label(projects: Seq<Project>, index: int) -> Seq<char> {
    if name_is_shared(projects, index) {
        projects[index].name@ + LABEL_GAP@ + projects[index].config.label@
    } else {
        projects[index].name@
    }
}

/// The number of processes that crashed.
pub open spec fn crash_count(processes: Seq<Process>) -> nat
    decreases processes.len(),
{
    if processes.len() == 0 {
        0
    } else if processes.last().state == ProcessState::Crashed {
        crash_count(processes.drop_last()) + 1
    } else {
        crash_count(processes.drop_last())
    }
}

impl CatalogModel {
    /// The header of the active project: its registered name, else its folder,
    /// else the name of the application.
    pub open spec fn active_label(self) -> Seq<char> {
        match active_index(self.projects, self.current) {
            Some(index) => self.projects[index].name@,
            None => match self.current {
                Some(place) => place.label@,
                None => APP_NAME@,
            },
        }
    }

    /// The rows of the other projects.
    pub open spec fn other_labels(self) -> Seq<Seq<char>> {
        Seq::new(
            self.other_count(),
            |row: int| project_label(self.projects, self.other_index(row)),
        )
    }
}

impl AppModel {
    /// Whether the selected row is an agent session.
    pub open spec fn on_agent_session(self) -> bool {
        self.roster.selected_process() matches Some(process) && process.kind == ProcessKind::Agent
            && process.origin == ProcessOrigin::Session
    }

    /// The hints of the status bar.
    pub open spec fn hints(self) -> StatusContext {
        if self.focus != Focus::Sidebar {
            if self.on_agent_session() {
                StatusContext::TerminalAgentSession
            } else {
                StatusContext::Terminal
            }
        } else if self.catalog.cursor is Some {
            StatusContext::Project
        } else if self.roster.processes.len() == 0 {
            StatusContext::Empty
        } else if self.on_agent_session() {
            StatusContext::AgentSession
        } else {
            StatusContext::Process
        }
    }

    /// The selected row of the sidebar.
    pub open spec fn sidebar_row(self) -> SidebarSelection {
        match self.catalog.cursor {
            Some(cursor) => SidebarSelection::Project(cursor),
            None => SidebarSelection::Process(self.roster.selected),
        }
    }

    /// The title of the pane.
    pub open spec fn pane_title(self) -> Seq<char> {
        match self.roster.selected_process() {
            Some(process) => process.name@,
            None => APP_NAME@,
        }
    }

    /// The screen of the pane; a finished process keeps its last one.
    pub open spec fn pane_screen(self) -> Option<Screen> {
        match self.roster.selected_process() {
            Some(process) => match pane_of(self.panes, process.id) {
                Some(found) => Some(found.screen),
                None => None,
            },
            None => None,
        }
    }

    /// Where the notice is shown: over the pane where it fits, else in the
    /// status bar.
    pub open spec fn notice_place(self, fits: bool) -> NoticePlace {
        if self.feedback.notice is None {
            NoticePlace::Nowhere
        } else if fits {
            NoticePlace::Toast
        } else {
            NoticePlace::StatusBar
        }
    }

    /// What a frame shows.
    pub open spec fn scene(self, notice_fits: bool) -> SceneModel {
        SceneModel {
            active_project: self.catalog.active_label(),
            other_projects: self.catalog.other_labels(),
            selection: self.sidebar_row(),
            sidebar_focused: self.focus == Focus::Sidebar,
            title: self.pane_title(),
            empty: self.roster.processes.len() == 0,
            crashed: crash_count(self.roster.processes),
            status: self.hints(),
            leader: self.focus == Focus::Leader,
            notice: self.notice_place(notice_fits),
        }
    }
}

/// Returns the row of a project.
fn label_project(projects: &Vec<Project>, index: usize) -> (label: String)
    requires
        index < projects@.len(),
    ensures
        label@ == project_label(projects@, index as int),
{
    let mut shared: bool = false;
    let mut i: usize = 0;
    while i < projects.len()
        invariant
            i <= projects@.len(),
            index < projects@.len(),
            shared ==> name_is_shared(projects@, index as int),
            !shared ==> forall|other: int|
                0 <= other < i && other != index ==> (#[trigger] projects@[other]).name@
                    != projects@[index as int].name@,
        decreases projects@.len() - i,
    {
        if i != index && same_text(&projects[i].name, &projects[index].name) {
            assert(projects@[i as int].name@ == projects@[index as int].name@);
            shared = true;
        }
        i = i + 1;
    }
    let mut label: String = projects[index].name.clone();
    if shared {
        label.append(LABEL_GAP);
        label.append(projects[index].config.label.as_str());
    }
    label
}

/// Returns the number of processes that crashed.
fn count_crashed(processes: &Vec<Process>) -> (count: usize)
    ensures
        count == crash_count(processes@),
{
    let mut count: usize = 0;
    let mut i: usize = 0;
    while i < processes.len()
        invariant
            i <= processes@.len(),
            count <= i,
            count == crash_count(processes@.take(i as int)),
        decreases processes@.len() - i,
    {
        assert(processes@.take(i + 1).drop_last() =~= processes@.take(i as int));
        assert(processes@.take(i + 1).last() == processes@[i as int]);
        if processes[i].state == ProcessState::Crashed {
            count = count + 1;
        }
        i = i + 1;
    }
    assert(processes@.take(i as int) =~= processes@);
    count
}

impl App {
    /// The active project's display name: its registered name, else the config's
    /// parent directory, else the app name - so its header is never blank.
    pub fn active_project_label(&self) -> (label: String)
        ensures
            label@ == self@.catalog.active_label(),
    {
        if let Some(index) = self.current_project_index(&self.catalog.projects) {
            return self.catalog.projects[index].name.clone();
        }
        match &self.catalog.current {
            Some(place) => place.label.clone(),
            None => APP_NAME.to_string(),
        }
    }

    /// Returns the rows of the other projects.
    fn other_project_labels(&self) -> (labels: Vec<String>)
        ensures
            texts(labels@) == self@.catalog.other_labels(),
    {
        let rows: Vec<usize> = self.other_projects();
        let mut labels: Vec<String> = Vec::new();
        let mut i: usize = 0;
        proof {
            if self@.catalog.current is Some {
                project_at_is_the_first(self@.catalog.projects, self@.catalog.current->0);
            }
        }
        while i < rows.len()
            invariant
                i <= rows@.len(),
                rows@.len() == self@.catalog.other_count(),
                forall|row: int|
                    0 <= row < rows@.len() ==> (#[trigger] rows@[row]) as int
                        == self@.catalog.other_index(row) && rows@[row]
                        < self@.catalog.projects.len(),
                labels@.len() == i,
                forall|row: int|
                    0 <= row < i ==> (#[trigger] labels@[row])@ == project_label(
                        self@.catalog.projects,
                        self@.catalog.other_index(row),
                    ),
            decreases rows@.len() - i,
        {
            assert(rows@[i as int] as int == self@.catalog.other_index(i as int));
            labels.push(label_project(&self.catalog.projects, rows[i]));
            i = i + 1;
        }
        assert(texts(labels@) =~= self@.catalog.other_labels());
        labels
    }

    /// The sidebar display inputs shared by rendering and click hit-testing.
    pub fn sidebar_context(&self) -> (context: (String, Vec<String>, SidebarSelection))
        ensures
            context.0@ == self@.catalog.active_label(),
            texts(context.1@) == self@.catalog.other_labels(),
            context.2 == self@.sidebar_row(),
    {
        let selection: SidebarSelection = match self.catalog.cursor {
            Some(cursor) => SidebarSelection::Project(cursor),
            None => SidebarSelection::Process(self.workspace.selected),
        };
        (self.active_project_label(), self.other_project_labels(), selection)
    }

    /// Whether the selected row is a runtime-managed agent session.
    pub fn selected_is_agent_session(&self) -> (session: bool)
        ensures
            session == self@.on_agent_session(),
    {
        match self.workspace.selected_process() {
            Some(process) => process.kind == ProcessKind::Agent && process.origin
                == ProcessOrigin::Session,
            None => false,
        }
    }

    /// The slim hint set the status bar advertises for the current focus and
    /// sidebar selection.
    pub fn status_context(&self) -> (status: StatusContext)
        ensures
            status == self@.hints(),
    {
        if self.focus != Focus::Sidebar {
            return if self.selected_is_agent_session() {
                StatusContext::TerminalAgentSession
            } else {
                StatusContext::Terminal
            };
        }
        if self.catalog.cursor.is_some() {
            StatusContext::Project
        } else if self.workspace.processes.len() == 0 {
            StatusContext::Empty
        } else if self.selected_is_agent_session() {
            StatusContext::AgentSession
        } else {
            StatusContext::Process
        }
    }

    /// The title and the emulator of the currently focused pane. A finished pane
    /// still has its emulator, so its last screen keeps rendering.
    pub fn focused_view(&self) -> (view: (String, Option<&TerminalEmulator>))
        ensures
            view.0@ == self@.pane_title(),
            match view.1 {
                Some(screen) => self@.pane_screen() == Some(screen@),
                None => self@.pane_screen() is None,
            },
    {
        match self.workspace.selected_process() {
            Some(process) => {
                let screen: Option<&TerminalEmulator> = match self.panes.get(process.id) {
                    Some(found) => Some(&found.screen),
                    None => None,
                };
                (process.name.clone(), screen)
            },
            None => (APP_NAME.to_string(), None),
        }
    }

    /// Collects what a frame shows. `notice_fits` says whether a box with the
    /// notice fits over the pane.
    pub fn render(&self, notice_fits: bool) -> (scene: Scene)
        ensures
            scene@ == self@.scene(notice_fits),
    {
        let (active_project, other_projects, selection): (
            String,
            Vec<String>,
            SidebarSelection,
        ) = self.sidebar_context();
        let (title, _): (String, Option<&TerminalEmulator>) = self.focused_view();
        let notice: NoticePlace = if self.feedback.notice.is_none() {
            NoticePlace::Nowhere
        } else if notice_fits {
            NoticePlace::Toast
        } else {
            NoticePlace::StatusBar
        };
        Scene {
            active_project,
            other_projects,
            selection,
            sidebar_focused: self.focus == Focus::Sidebar,
            title,
            empty: self.workspace.processes.len() == 0,
            crashed: count_crashed(&self.workspace.processes),
            status: self.status_context(),
            leader: self.focus == Focus::Leader,
            notice,
        }
    }
}

/// A failure is never invisible: whatever fits, a notice is shown somewhere.
pub proof fn notices_are_always_shown(app: AppModel, fits: bool)
    requires
        app.feedback.notice is Some,
    ensures
        app.scene(fits).notice != NoticePlace::Nowhere,
{
}

/// Projects with one name are told apart by their folders.
pub proof fn shared_names_carry_their_folder(projects: Seq<Project>, a: int, b: int)
    requires
        0 <= a < projects.len(),
        0 <= b < projects.len(),
        a != b,
        projects[a].name@ == projects[b].name@,
        projects[a].config.label@ != projects[b].config.label@,
    ensures
        project_label(projects, a) != project_label(projects, b),
{
    assert(projects[b].name@ == projects[a].name@);
    assert(name_is_shared(projects, a));
    assert(name_is_shared(projects, b));
    let head = projects[a].name@ + LABEL_GAP@;
    let x = projects[a].config.label@;
    let y = projects[b].config.label@;
    if head + x == head + y {
        assert((head + x).skip(head.len() as int) =~= x);
        assert((head + y).skip(head.len() as int) =~= y);
    }
}

/// A failed process raises an alert that is visible from any pane: whatever is
/// selected, focused or laid over it, the frame counts the crash.
pub proof fn a_crash_is_visible_from_anywhere(app: AppModel, index: int, fits: bool)
    requires
        0 <= index < app.roster.processes.len(),
        app.roster.processes[index].state == ProcessState::Crashed,
    ensures
        app.scene(fits).crashed > 0,
{
    one_crash_counts(app.roster.processes, index);
}

/// A crashed process is counted.
proof fn one_crash_counts(processes: Seq<Process>, index: int)
    requires
        0 <= index < processes.len(),
        processes[index].state == ProcessState::Crashed,
    ensures
        crash_count(processes) > 0,
    decreases processes.len(),
{
    if index < processes.len() - 1 {
        one_crash_counts(processes.drop_last(), index);
    }
}

} // verus!
