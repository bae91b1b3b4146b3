//! The known projects, live reloads, and switching between projects.

use vstd::prelude::*;
use crate::app::{App, AppModel, CatalogModel, Focus, PendingSwitch, SwitchModel, WorldModel};
use crate::config::{Sections, WorkspaceConfig};
use crate::effect::{Effect, EffectModel, Task};
use crate::ledger::{other_ids, LedgerModel};
use crate::location::{
    copy_location, copy_projects, find_project, paths_agree, project_at, project_at_is_the_first,
    same_path, same_place, Location, Project,
};
use crate::message::{Message, Prompt};
use crate::moment::Moment;
use crate::overlay::{
    set_switcher_error, set_switcher_preview, set_switcher_row, switcher_in, switcher_of,
    with_switcher, Overlay, OverlayModel, Switcher, SwitcherModel,
};
use crate::pane::{
    alive_panes, life_of, with_life, without_pane, ConfigMembership, PaneLife, PaneModel, Panes,
};
use crate::process::{ExitIntent, PaneId, ProcessKind};
use crate::reconcile::{ids_of, reconciled, sweep, Reconciliation};
use crate::text::{is_blank, trim, trimmed};
use crate::workspace::{Roster, Workspace};

verus! {

/// Whether a text can name a project or a process.
pub open spec fn is_name(text: Seq<char>) -> bool {
    trimmed(text).len() > 0
}

/// Returns whether a text can name a project or a process.
pub fn can_name(text: &String) -> (valid: bool)
    ensures
        valid == is_name(text@),
{
    !is_blank(&trim(text))
}

/// The panes with another membership in some of them.
pub open spec fn with_membership(
    panes: Seq<PaneModel>,
    ids: Seq<PaneId>,
    membership: ConfigMembership,
) -> Seq<PaneModel>
    decreases ids.len(),
{
    if ids.len() == 0 {
        panes
    } else {
        let rest = with_membership(panes, ids.drop_last(), membership);
        match life_of(rest, ids.last()) {
            Some(life) => with_life(rest, ids.last(), PaneLife { membership, ..life }),
            None => rest,
        }
    }
}

/// The panes without some of them.
pub open spec fn without_panes(panes: Seq<PaneModel>, ids: Seq<PaneId>) -> Seq<PaneModel>
    decreases ids.len(),
{
    if ids.len() == 0 {
        panes
    } else {
        without_pane(without_panes(panes, ids.drop_last()), ids.last())
    }
}

/// The bookkeeping without some panes.
pub open spec fn retired_all(ledger: LedgerModel, ids: Seq<PaneId>) -> LedgerModel
    decreases ids.len(),
{
    if ids.len() == 0 {
        ledger
    } else {
        retired_all(ledger, ids.drop_last()).retired(ids.last())
    }
}

/// The position of the active project among projects.
pub open spec fn active_index(projects: Seq<Project>, current: Option<Location>) -> Option<int> {
    match current {
        Some(place) => project_at(projects, place),
        None => None,
    }
}

/// The tasks that start a workspace, the first of them last.
pub open spec fn startup() -> Seq<Task> {
    seq![
        Task::RefreshProjects,
        Task::RestoreSessions,
        Task::LaunchRows,
        Task::RecoverOrphans,
        Task::LinkAgents,
    ]
}

impl CatalogModel {
    /// The number of projects other than the active one.
    pub open spec fn other_count(self) -> nat {
        match active_index(self.projects, self.current) {
            Some(_) => (self.projects.len() - 1) as nat,
            None => self.projects.len(),
        }
    }

    /// The position of the project in the row `row` of the other projects.
    pub open spec fn other_index(self, row: int) -> int {
        match active_index(self.projects, self.current) {
            Some(active) => if row < active {
                row
            } else {
                row + 1
            },
            None => row,
        }
    }

    /// The project in the row `row` of the other projects.
    pub open spec fn other_project(self, row: usize) -> Option<Project> {
        if row < self.other_count() {
            Some(self.projects[self.other_index(row as int)])
        } else {
            None
        }
    }

    /// Whether a project is the unsaved row of the launched config.
    pub open spec fn unsaved(self, project: Project) -> bool {
        self.synthetic && same_place(project.config, self.launched)
    }
}

impl AppModel {
    /// The application with the registered projects in its tree. The launched
    /// config has a row of its own when it is not among them, so that switching
    /// away from it is never a dead end.
    #[verifier::opaque]
    pub open spec fn projects_refreshed(self) -> AppModel {
        let found = match self.world.projects {
            Ok(projects) => projects,
            Err(_) => Seq::empty(),
        };
        let launched = self.catalog.launched;
        let missing = project_at(found, launched) is None && is_name(launched.label@);
        AppModel {
            catalog: CatalogModel {
                projects: if missing {
                    seq![
                        Project { name: launched.label, config: launched, opens_at: Ok(launched) },
                    ] + found
                } else {
                    found
                },
                synthetic: missing,
                ..self.catalog
            },
            ..self
        }
    }

    /// The application that watches the active project's config.
    pub open spec fn rewatched(self) -> AppModel {
        if self.world.has_watcher && self.catalog.current is Some {
            self.told(Effect::Watch(self.catalog.current->0))
        } else {
            self
        }
    }

    /// The application in line with a changed config: surviving processes are
    /// not disturbed, live ones that lost their entry retire on exit, and
    /// stopped ones go.
    pub open spec fn reconciled_with(self, config: Sections) -> AppModel {
        let live = alive_panes(self.panes);
        let swept = sweep(self.roster.processes, config.entries(), live, self.ledger.deleted);
        AppModel {
            roster: reconciled(self.roster, config, live, self.ledger.deleted),
            panes: without_panes(
                with_membership(
                    with_membership(self.panes, ids_of(swept.matched), ConfigMembership::Listed),
                    swept.retiring,
                    ConfigMembership::RetireOnExit,
                ),
                swept.removed,
            ),
            ledger: retired_all(self.ledger, swept.removed),
            ..self
        }
    }

    /// The application after a watched config changed on disk.
    #[verifier::opaque]
    pub open spec fn config_changed(
        self,
        path: Seq<char>,
        config: Result<Sections, String>,
    ) -> AppModel {
        match self.catalog.current {
            Some(current) => if same_path(current.normalized@, path) && config is Ok {
                self.reconciled_with(config->Ok_0).later(Task::LinkAgents)
            } else {
                self
            },
            None => self,
        }
    }

    /// The application with a freshly loaded project, ready to start it.
    pub open spec fn project_loaded(self, config: Sections, place: Location) -> AppModel {
        let cleared = AppModel {
            panes: Seq::empty(),
            ledger: self.ledger.reloaded(),
            roster: Roster { processes: config.processes(), selected: 0 },
            catalog: CatalogModel { current: Some(place), ..self.catalog },
            focus: Focus::Sidebar,
            ..self.all_discarded()
        };
        cleared.rewatched().starting()
    }

    /// The application with its startup on the agenda.
    pub open spec fn starting(self) -> AppModel {
        AppModel { agenda: self.agenda + startup(), ..self }
    }

    /// The application that kills panes for a project switch.
    pub open spec fn switch_kills(self, ids: Seq<PaneId>) -> AppModel
        decreases ids.len(),
    {
        if ids.len() == 0 {
            self
        } else {
            self.switch_kills(ids.drop_last()).intending(
                ids.last(),
                ExitIntent::requested(false, false),
            ).asked(EffectModel::Plain(Effect::Kill(ids.last())), Task::SwitchKilled(ids.last()))
        }
    }

    /// The application that begins to switch: with live panes, the switch waits
    /// for their exits.
    pub open spec fn switch_begun(self, config: Sections, place: Location) -> AppModel {
        let live = alive_panes(self.panes);
        let forgetful = AppModel { ledger: self.ledger.without_reopens(), ..self };
        if live.len() == 0 {
            forgetful.project_loaded(config, place)
        } else {
            AppModel {
                pending_switch: Some(
                    SwitchModel { config, place, waiting: live, loading: false },
                ),
                ..forgetful.switch_kills(live)
            }
        }
    }

    /// The application that learned whether a pane was killed for a switch.
    #[verifier::opaque]
    pub open spec fn switch_kill_answered(self, pane: PaneId, delivered: bool) -> AppModel {
        if delivered {
            self.intending(pane, ExitIntent::requested(false, true))
        } else {
            self
        }
    }

    /// The application after one old pane of a deferred switch has gone. When
    /// none is left, the config is read again.
    #[verifier::opaque]
    pub open spec fn switch_advanced(self, pane: PaneId) -> AppModel {
        match self.pending_switch {
            Some(pending) => if pending.loading {
                self
            } else {
                let waiting = other_ids(pending.waiting, pane);
                if waiting.len() == 0 {
                    (AppModel {
                        pending_switch: Some(SwitchModel { waiting, loading: true, ..pending }),
                        ..self
                    }).asked(
                        EffectModel::Plain(Effect::OpenWorkspace(pending.place)),
                        Task::SwitchLoaded,
                    )
                } else {
                    AppModel { pending_switch: Some(SwitchModel { waiting, ..pending }), ..self }
                }
            },
            None => self,
        }
    }

    /// The application that completes a deferred switch, with the config as it
    /// was when the switch began if it does not read now.
    #[verifier::opaque]
    pub open spec fn switch_completed(self, config: Result<Sections, String>) -> AppModel {
        match self.pending_switch {
            Some(pending) => (AppModel { pending_switch: None, ..self }).project_loaded(
                match config {
                    Ok(config) => config,
                    Err(_) => pending.config,
                },
                pending.place,
            ),
            None => self,
        }
    }

    /// The application that asks before a project is removed.
    pub open spec fn removal_confirmation(self, project: Project, prompt: Prompt) -> AppModel {
        self.with_cursor(None).with_overlay(
            Some(OverlayModel::ConfirmRemoval { prompt, place: project.config }),
        )
    }

    /// The application that could not open a project: a missing config offers
    /// the removal of its stale entry, an unreadable one is reported.
    pub open spec fn open_failed(
        self,
        project: Project,
        error: String,
        exists: bool,
        now: Moment,
    ) -> AppModel {
        if exists {
            self.noted(Message::ProjectOpen { name: project.name, error }, now)
        } else {
            self.removal_confirmation(project, Prompt::MissingConfig(project.name))
        }
    }

    /// The application with an error at a row of its switcher.
    pub open spec fn switcher_failed(self, row: usize, error: String) -> AppModel {
        match switcher_in(self.overlay) {
            Some(switcher) => self.with_overlay(
                with_switcher(
                    self.overlay,
                    SwitcherModel {
                        selected: row,
                        error: Some(Message::Outside(error)),
                        ..switcher
                    },
                ),
            ),
            None => self,
        }
    }

    /// The application that opens the project at a row of its switcher.
    #[verifier::opaque]
    pub open spec fn switching_to(self, row: usize) -> AppModel {
        match switcher_in(self.overlay) {
            Some(switcher) => if row < switcher.projects.len() {
                let project = switcher.projects[row as int];
                match project.opens_at {
                    Ok(place) => self.asked(
                        EffectModel::Plain(Effect::OpenWorkspace(place)),
                        Task::SwitcherOpened { row, project },
                    ),
                    Err(error) => self.switcher_failed(row, error),
                }
            } else {
                self
            },
            None => self,
        }
    }

    /// The application that learned the config of a project picked in the
    /// switcher.
    #[verifier::opaque]
    pub open spec fn switcher_opened(
        self,
        row: usize,
        project: Project,
        config: Result<Sections, String>,
        exists: bool,
        now: Moment,
    ) -> AppModel {
        match project.opens_at {
            Err(error) => self.switcher_failed(row, error),
            Ok(place) => match config {
                Ok(config) => self.switch_begun(config, place).with_overlay(None),
                Err(error) => if exists {
                    self.switcher_failed(row, error)
                } else {
                    self.open_failed(project, error, exists, now)
                },
            },
        }
    }

    /// The application that opens a row of the other projects.
    #[verifier::opaque]
    pub open spec fn activating(self, row: usize, now: Moment) -> AppModel {
        match self.catalog.other_project(row) {
            None => self,
            Some(project) => match project.opens_at {
                Ok(place) => self.asked(
                    EffectModel::Plain(Effect::OpenWorkspace(place)),
                    Task::ProjectOpened(project),
                ),
                Err(error) => self.noted(Message::Outside(error), now),
            },
        }
    }

    /// The application that learned the config of a project picked in the
    /// sidebar.
    #[verifier::opaque]
    pub open spec fn project_opened(
        self,
        project: Project,
        config: Result<Sections, String>,
        exists: bool,
        now: Moment,
    ) -> AppModel {
        match project.opens_at {
            Err(error) => self.noted(Message::Outside(error), now),
            Ok(place) => match config {
                Ok(config) => self.with_cursor(None).switch_begun(config, place),
                Err(error) => self.open_failed(project, error, exists, now),
            },
        }
    }

    /// The application that asks before the project on the selected row is
    /// removed. The unsaved row of the launched config has nothing to remove.
    #[verifier::opaque]
    pub open spec fn selected_removal_confirmation(self, now: Moment) -> AppModel {
        match self.catalog.cursor {
            None => self,
            Some(row) => match self.catalog.other_project(row) {
                None => self,
                Some(project) => if self.catalog.unsaved(project) {
                    self.noted(Message::CannotRemoveLaunched, now)
                } else {
                    self.removal_confirmation(project, Prompt::RemoveProject(project.name))
                },
            },
        }
    }

    /// The application that learned whether a project was removed.
    #[verifier::opaque]
    pub open spec fn project_removal_answered(
        self,
        result: Result<(), String>,
        now: Moment,
    ) -> AppModel {
        match result {
            Ok(_) => self.with_cursor(None).projects_refreshed(),
            Err(error) => self.noted(Message::Outside(error), now),
        }
    }

    /// The application that removes the project highlighted in its switcher.
    #[verifier::opaque]
    pub open spec fn switcher_removing(self) -> AppModel {
        match switcher_in(self.overlay) {
            Some(switcher) => if switcher.selected < switcher.projects.len() {
                self.asked(
                    EffectModel::Plain(
                        Effect::Unregister(switcher.projects[switcher.selected as int].config),
                    ),
                    Task::SwitcherProjectRemoved,
                )
            } else {
                self
            },
            None => self,
        }
    }

    /// The application that learned whether the project highlighted in its
    /// switcher was removed.
    #[verifier::opaque]
    pub open spec fn switcher_removal_answered(self, result: Result<(), String>) -> AppModel {
        match result {
            Ok(_) => self.projects_refreshed().switcher_refreshed(),
            Err(error) => match switcher_in(self.overlay) {
                Some(switcher) => self.with_overlay(
                    with_switcher(
                        self.overlay,
                        SwitcherModel { error: Some(Message::Outside(error)), ..switcher },
                    ),
                ),
                None => self,
            },
        }
    }

    /// The switcher over the registry as it is now.
    pub open spec fn fresh_switcher(self, clamp: bool) -> SwitcherModel {
        let projects = match self.world.projects {
            Ok(projects) => projects,
            Err(_) => Seq::empty(),
        };
        let current = match active_index(projects, self.catalog.current) {
            Some(index) => Some(index as usize),
            None => None,
        };
        let wanted = match current {
            Some(index) => index,
            None => 0,
        };
        SwitcherModel {
            projects,
            selected: if clamp && wanted >= projects.len() {
                0
            } else {
                wanted
            },
            current,
            error: match self.world.projects {
                Ok(_) => None,
                Err(error) => Some(Message::Outside(error)),
            },
            preview: Seq::empty(),
        }
    }

    /// The application that asks for the preview of its switcher's highlighted
    /// project. A project that cannot be found has none.
    #[verifier::opaque]
    pub open spec fn previewing(self) -> AppModel {
        match switcher_in(self.overlay) {
            Some(switcher) => if switcher.selected < switcher.projects.len() {
                match switcher.projects[switcher.selected as int].opens_at {
                    Ok(place) => self.asked(
                        EffectModel::Plain(Effect::OpenWorkspace(place)),
                        Task::Previewed,
                    ),
                    Err(_) => self.with_overlay(
                        with_switcher(
                            self.overlay,
                            SwitcherModel { preview: Seq::empty(), ..switcher },
                        ),
                    ),
                }
            } else {
                self
            },
            None => self,
        }
    }

    /// The application with a switcher over the registry as it is now.
    #[verifier::opaque]
    pub open spec fn switcher_shown(self) -> AppModel {
        self.with_overlay(
            Some(OverlayModel::Switcher(self.fresh_switcher(false))),
        ).previewing()
    }

    /// The application with its open switcher reloaded.
    pub open spec fn switcher_refreshed(self) -> AppModel {
        if switcher_in(self.overlay) is Some {
            self.with_overlay(
                Some(OverlayModel::Switcher(self.fresh_switcher(true))),
            ).previewing()
        } else {
            self
        }
    }

    /// The application that learned what its switcher previews.
    #[verifier::opaque]
    pub open spec fn previewed(self, config: Result<Sections, String>) -> AppModel {
        match switcher_in(self.overlay) {
            Some(switcher) => self.with_overlay(
                with_switcher(
                    self.overlay,
                    SwitcherModel {
                        preview: match config {
                            Ok(config) => config.preview(),
                            Err(_) => Seq::empty(),
                        },
                        ..switcher
                    },
                ),
            ),
            None => self,
        }
    }
}

/// A read config, section by section.
pub open spec fn sections_of(config: Result<WorkspaceConfig, String>) -> Result<Sections, String> {
    match config {
        Ok(config) => Ok(config@),
        Err(error) => Err(error),
    }
}

impl Panes {
    /// Sets the membership of some panes.
    pub fn set_membership(&mut self, ids: &Vec<PaneId>, membership: ConfigMembership)
        ensures
            final(self)@ == with_membership(old(self)@, ids@, membership),
    {
        let mut i: usize = 0;
        while i < ids.len()
            invariant
                i <= ids@.len(),
                self@ == with_membership(old(self)@, ids@.take(i as int), membership),
            decreases ids@.len() - i,
        {
            assert(ids@.take(i + 1).drop_last() =~= ids@.take(i as int));
            assert(ids@.take(i + 1).last() == ids@[i as int]);
            if let Some(mut life) = self.life(ids[i]) {
                life.membership = membership;
                self.set_life(ids[i], life);
            }
            i = i + 1;
        }
        assert(ids@.take(i as int) =~= ids@);
    }

    /// Takes some panes out.
    pub fn remove_all(&mut self, ids: &Vec<PaneId>)
        ensures
            final(self)@ == without_panes(old(self)@, ids@),
    {
        let mut i: usize = 0;
        while i < ids.len()
            invariant
                i <= ids@.len(),
                self@ == without_panes(old(self)@, ids@.take(i as int)),
            decreases ids@.len() - i,
        {
            assert(ids@.take(i + 1).drop_last() =~= ids@.take(i as int));
            assert(ids@.take(i + 1).last() == ids@[i as int]);
            self.remove(ids[i]);
            i = i + 1;
        }
        assert(ids@.take(i as int) =~= ids@);
    }
}

impl App {
    /// Returns the position of the active project among projects.
    pub fn current_project_index(&self, projects: &Vec<Project>) -> (found: Option<usize>)
        ensures
            match found {
                Some(index) => active_index(projects@, self@.catalog.current) == Some(index as int)
                    && index < projects@.len(),
                None => active_index(projects@, self@.catalog.current) is None,
            },
    {
        match &self.catalog.current {
            Some(place) => find_project(projects, place),
            None => None,
        }
    }

    /// Reloads the cached registered-project list shown in the sidebar tree.
    pub fn refresh_projects(&mut self)
        ensures
            final(self)@ == old(self)@.projects_refreshed(),
    {
        proof {
            reveal(AppModel::projects_refreshed);
        }
        let mut projects: Vec<Project> = match &self.world.projects {
            Ok(projects) => copy_projects(projects),
            Err(_) => Vec::new(),
        };
        let registered: bool = find_project(&projects, &self.catalog.launched).is_some();
        let missing: bool = !registered && can_name(&self.catalog.launched.label);
        if missing {
            let launched: Project = Project {
                name: self.catalog.launched.label.clone(),
                config: self.catalog.launched.copied(),
                opens_at: Ok(self.catalog.launched.copied()),
            };
            let mut list: Vec<Project> = vec![launched];
            list.append(&mut projects);
            self.catalog.projects = list;
        } else {
            self.catalog.projects = projects;
        }
        self.catalog.synthetic = missing;
        assert(self@ =~= old(self)@.projects_refreshed());
    }

    /// Re-points the config watcher at the active project's config.
    pub fn rewatch_config(&mut self)
        ensures
            final(self)@ == old(self)@.rewatched(),
    {
        if self.world.has_watcher {
            if let Some(place) = copy_location(&self.catalog.current) {
                self.send(Effect::Watch(place));
            }
        }
    }

    /// Learns that configs are watched from now on, and has the active project's
    /// one watched, so that an edit from outside shows up without a restart.
    pub fn set_config_watcher(&mut self)
        ensures
            final(self)@ == (AppModel {
                world: WorldModel { has_watcher: true, ..old(self)@.world },
                ..old(self)@
            }).rewatched(),
    {
        self.world.has_watcher = true;
        self.rewatch_config();
    }

    /// Applies changed disk configuration without bouncing surviving processes.
    pub fn reconcile_config(&mut self, config: &WorkspaceConfig)
        ensures
            final(self)@ == old(self)@.reconciled_with(config@),
    {
        let live: Vec<PaneId> = self.panes.alive();
        let outcome: Reconciliation = Reconciliation::apply(
            &self.workspace,
            config,
            &live,
            &self.ledger.deleted,
        );
        self.panes.set_membership(&outcome.matched, ConfigMembership::Listed);
        self.panes.set_membership(&outcome.retiring, ConfigMembership::RetireOnExit);
        self.panes.remove_all(&outcome.removed);
        let mut i: usize = 0;
        let ghost ledger = self.ledger@;
        let ghost before = self@;
        while i < outcome.removed.len()
            invariant
                i <= outcome.removed@.len(),
                self@ == (AppModel {
                    ledger: retired_all(ledger, outcome.removed@.take(i as int)),
                    ..before
                }),
            decreases outcome.removed@.len() - i,
        {
            assert(outcome.removed@.take(i + 1).drop_last() =~= outcome.removed@.take(i as int));
            assert(outcome.removed@.take(i + 1).last() == outcome.removed@[i as int]);
            self.ledger.retire(outcome.removed[i]);
            i = i + 1;
        }
        assert(outcome.removed@.take(i as int) =~= outcome.removed@);
        self.workspace = outcome.workspace;
    }

    /// Reconciles the active workspace when its watched configuration changes.
    /// `path` is the normalized path that changed, `config` what is read there.
    pub fn handle_config_changed(&mut self, path: &String, config: &Result<WorkspaceConfig, String>)
        ensures
            final(self)@ == old(self)@.config_changed(path@, sections_of(*config)),
    {
        proof {
            reveal(AppModel::config_changed);
        }
        let matches: bool = match &self.catalog.current {
            Some(current) => paths_agree(&current.normalized, path),
            None => false,
        };
        if matches {
            if let Ok(config) = config {
                self.reconcile_config(config);
                self.defer(Task::LinkAgents);
            }
        }
    }

    /// Puts the startup of the workspace on the agenda.
    pub fn start(&mut self)
        ensures
            final(self)@ == old(self)@.starting(),
    {
        self.defer(Task::RefreshProjects);
        self.defer(Task::RestoreSessions);
        self.defer(Task::LaunchRows);
        self.defer(Task::RecoverOrphans);
        self.defer(Task::LinkAgents);
        assert(self@ =~= old(self)@.starting());
    }

    /// Replaces the current workspace and starts its configured processes.
    pub fn load_project(&mut self, config: &WorkspaceConfig, place: Location)
        ensures
            final(self)@ == old(self)@.project_loaded(config@, place),
    {
        self.discard_all();
        self.panes = Panes::new();
        self.ledger.reload();
        self.workspace = Workspace::new(config.to_processes());
        self.catalog.current = Some(place);
        self.focus = Focus::Sidebar;
        self.rewatch_config();
        self.start();
    }

    /// Stops live panes and defers loading until their exit events arrive.
    pub fn begin_switch(&mut self, config: WorkspaceConfig, place: Location)
        ensures
            final(self)@ == old(self)@.switch_begun(config@, place),
    {
        self.ledger.clear_reopens();
        let live: Vec<PaneId> = self.panes.alive();
        if live.len() == 0 {
            self.load_project(&config, place);
            return;
        }
        let ghost before = self@;
        let mut i: usize = 0;
        while i < live.len()
            invariant
                i <= live@.len(),
                self@ == before.switch_kills(live@.take(i as int)),
            decreases live@.len() - i,
        {
            assert(live@.take(i + 1).drop_last() =~= live@.take(i as int));
            assert(live@.take(i + 1).last() == live@[i as int]);
            let pane: PaneId = live[i];
            self.set_intent(pane, ExitIntent::of_request(false, false));
            self.ask(Effect::Kill(pane), Task::SwitchKilled(pane));
            i = i + 1;
        }
        assert(live@.take(i as int) =~= live@);
        self.pending_switch =
        Some(PendingSwitch { config, place, waiting: live, loading: false });
    }

    /// Goes on after a pane was killed for a switch, or was not.
    pub fn handle_switch_killed(&mut self, pane: PaneId, delivered: bool)
        ensures
            final(self)@ == old(self)@.switch_kill_answered(pane, delivered),
    {
        proof {
            reveal(AppModel::switch_kill_answered);
        }
        if delivered {
            self.set_intent(pane, ExitIntent::of_request(false, true));
        }
    }

    /// Advances a deferred switch after one old pane exits.
    pub fn advance_pending_switch(&mut self, pane: PaneId)
        ensures
            final(self)@ == old(self)@.switch_advanced(pane),
    {
        proof {
            reveal(AppModel::switch_advanced);
        }
        let mut ready: Option<Location> = None;
        match &mut self.pending_switch {
            Some(pending) => {
                if !pending.loading {
                    pending.waiting = without_id(&pending.waiting, pane);
                    if pending.waiting.len() == 0 {
                        pending.loading = true;
                        ready = Some(pending.place.copied());
                    }
                }
            },
            None => {},
        }
        if let Some(place) = ready {
            self.ask(Effect::OpenWorkspace(place), Task::SwitchLoaded);
        }
    }

    /// Completes a deferred switch with the config as it reads now.
    pub fn handle_switch_loaded(&mut self, config: Result<WorkspaceConfig, String>)
        ensures
            final(self)@ == old(self)@.switch_completed(sections_of(config)),
    {
        proof {
            reveal(AppModel::switch_completed);
        }
        match self.pending_switch.take() {
            Some(pending) => {
                match config {
                    Ok(config) => self.load_project(&config, pending.place),
                    Err(_) => self.load_project(&pending.config, pending.place),
                }
            },
            None => {},
        }
    }

    /// Opens a confirmation to remove a project from the registry.
    fn confirm_remove_project(&mut self, place: Location, prompt: Prompt)
        ensures
            final(self)@ == old(self)@.with_cursor(None).with_overlay(
                Some(OverlayModel::ConfirmRemoval { prompt, place }),
            ),
    {
        self.catalog.cursor = None;
        self.overlay = Some(Overlay::ConfirmRemoval { prompt, place });
    }

    /// Handles a project whose config could not be opened.
    fn report_project_open_failure(
        &mut self,
        project: Project,
        error: String,
        exists: bool,
        now: Moment,
    )
        ensures
            final(self)@ == old(self)@.open_failed(project, error, exists, now),
    {
        if exists {
            self.set_notice(Message::ProjectOpen { name: project.name, error }, now);
        } else {
            self.confirm_remove_project(project.config, Prompt::MissingConfig(project.name));
        }
    }

    /// Shows an error at a row of the switcher.
    fn fail_switcher(&mut self, row: usize, error: String)
        ensures
            final(self)@ == old(self)@.switcher_failed(row, error),
    {
        set_switcher_row(&mut self.overlay, row);
        set_switcher_error(&mut self.overlay, Message::Outside(error));
        assert(self@ =~= old(self)@.switcher_failed(row, error));
    }

    /// Switches to the project at a row of the project switcher.
    pub fn switch_to(&mut self, row: usize)
        ensures
            final(self)@ == old(self)@.switching_to(row),
    {
        proof {
            reveal(AppModel::switching_to);
        }
        let project: Project = match switcher_of(&self.overlay) {
            Some(switcher) => {
                if row < switcher.projects.len() {
                    switcher.projects[row].copied()
                } else {
                    return;
                }
            },
            None => return,
        };
        let opens: Result<Location, String> = match &project.opens_at {
            Ok(place) => Ok(place.copied()),
            Err(error) => Err(error.clone()),
        };
        match opens {
            Ok(place) => self.ask(
                Effect::OpenWorkspace(place),
                Task::SwitcherOpened { row, project },
            ),
            Err(error) => self.fail_switcher(row, error),
        }
    }

    /// Goes on with the config of a project picked in the switcher.
    pub fn handle_switcher_opened(
        &mut self,
        row: usize,
        project: Project,
        config: Result<WorkspaceConfig, String>,
        exists: bool,
        now: Moment,
    )
        ensures
            final(self)@ == old(self)@.switcher_opened(
                row,
                project,
                sections_of(config),
                exists,
                now,
            ),
    {
        proof {
            reveal(AppModel::switcher_opened);
        }
        let opens: Result<Location, String> = match &project.opens_at {
            Ok(place) => Ok(place.copied()),
            Err(error) => Err(error.clone()),
        };
        match opens {
            Err(error) => self.fail_switcher(row, error),
            Ok(place) => match config {
                Ok(config) => {
                    self.begin_switch(config, place);
                    self.overlay = None;
                },
                Err(error) => {
                    if exists {
                        self.fail_switcher(row, error);
                    } else {
                        self.report_project_open_failure(project, error, exists, now);
                    }
                },
            },
        }
    }

    /// Returns the positions of every project that is not the active one, in
    /// registry order.
    pub fn other_projects(&self) -> (rows: Vec<usize>)
        ensures
            rows@.len() == self@.catalog.other_count(),
            forall|row: int|
                0 <= row < rows@.len() ==> (#[trigger] rows@[row]) as int
                    == self@.catalog.other_index(row),
    {
        let active: Option<usize> = self.current_project_index(&self.catalog.projects);
        let mut rows: Vec<usize> = Vec::new();
        let mut i: usize = 0;
        while i < self.catalog.projects.len()
            invariant
                i <= self.catalog.projects@.len(),
                match active {
                    Some(index) => active_index(self.catalog.projects@, self.catalog.current)
                        == Some(index as int) && index < self.catalog.projects@.len(),
                    None => active_index(self.catalog.projects@, self.catalog.current) is None,
                },
                rows@.len() == match active {
                    Some(index) => if i <= index {
                        i as int
                    } else {
                        i - 1
                    },
                    None => i as int,
                },
                forall|row: int|
                    0 <= row < rows@.len() ==> (#[trigger] rows@[row]) as int
                        == self@.catalog.other_index(row),
            decreases self.catalog.projects@.len() - i,
        {
            let skipped: bool = match active {
                Some(index) => index == i,
                None => false,
            };
            if !skipped {
                rows.push(i);
            }
            i = i + 1;
        }
        rows
    }

    /// Returns the number of projects that are not the active one.
    pub fn other_project_count(&self) -> (count: usize)
        ensures
            count == self@.catalog.other_count(),
    {
        self.other_projects().len()
    }

    /// Returns the project in a row of the other projects.
    pub fn other_project(&self, row: usize) -> (project: Option<Project>)
        ensures
            project == self@.catalog.other_project(row),
    {
        let rows: Vec<usize> = self.other_projects();
        proof {
            if self@.catalog.current is Some {
                project_at_is_the_first(self@.catalog.projects, self@.catalog.current->0);
            }
        }
        if row < rows.len() {
            Some(self.catalog.projects[rows[row]].copied())
        } else {
            None
        }
    }

    /// Switches to a row of the other projects, making it active.
    pub fn activate_other_project(&mut self, row: usize, now: Moment)
        ensures
            final(self)@ == old(self)@.activating(row, now),
    {
        proof {
            reveal(AppModel::activating);
        }
        let project: Project = match self.other_project(row) {
            Some(project) => project,
            None => return,
        };
        let opens: Result<Location, String> = match &project.opens_at {
            Ok(place) => Ok(place.copied()),
            Err(error) => Err(error.clone()),
        };
        match opens {
            Ok(place) => self.ask(Effect::OpenWorkspace(place), Task::ProjectOpened(project)),
            Err(error) => self.set_notice(Message::Outside(error), now),
        }
    }

    /// Goes on with the config of a project picked in the sidebar.
    pub fn handle_project_opened(
        &mut self,
        project: Project,
        config: Result<WorkspaceConfig, String>,
        exists: bool,
        now: Moment,
    )
        ensures
            final(self)@ == old(self)@.project_opened(project, sections_of(config), exists, now),
    {
        proof {
            reveal(AppModel::project_opened);
        }
        let opens: Result<Location, String> = match &project.opens_at {
            Ok(place) => Ok(place.copied()),
            Err(error) => Err(error.clone()),
        };
        match opens {
            Err(error) => self.set_notice(Message::Outside(error), now),
            Ok(place) => match config {
                Ok(config) => {
                    self.catalog.cursor = None;
                    self.begin_switch(config, place);
                },
                Err(error) => self.report_project_open_failure(project, error, exists, now),
            },
        }
    }

    /// Confirms removal of the project on the selected sidebar row.
    pub fn confirm_remove_selected_project(&mut self, now: Moment)
        ensures
            final(self)@ == old(self)@.selected_removal_confirmation(now),
    {
        proof {
            reveal(AppModel::selected_removal_confirmation);
        }
        let row: usize = match self.catalog.cursor {
            Some(row) => row,
            None => return,
        };
        let project: Project = match self.other_project(row) {
            Some(project) => project,
            None => return,
        };
        if self.catalog.synthetic && project.config.same_config_location(&self.catalog.launched) {
            self.set_notice(Message::CannotRemoveLaunched, now);
            return;
        }
        self.confirm_remove_project(project.config, Prompt::RemoveProject(project.name));
    }

    /// Removes the registered project at a place from the registry.
    pub fn remove_project(&mut self, place: Location)
        ensures
            final(self)@ == old(self)@.asked(
                EffectModel::Plain(Effect::Unregister(place)),
                Task::ProjectRemoved,
            ),
    {
        self.ask(Effect::Unregister(place), Task::ProjectRemoved);
    }

    /// Goes on after a project was removed, or was not.
    pub fn handle_project_removed(&mut self, result: Result<(), String>, now: Moment)
        ensures
            final(self)@ == old(self)@.project_removal_answered(result, now),
    {
        proof {
            reveal(AppModel::project_removal_answered);
        }
        match result {
            Ok(_) => {
                self.catalog.cursor = None;
                self.refresh_projects();
            },
            Err(error) => self.set_notice(Message::Outside(error), now),
        }
    }

    /// Removes the project highlighted in the switcher from the registry.
    pub fn remove_selected_project(&mut self)
        ensures
            final(self)@ == old(self)@.switcher_removing(),
    {
        proof {
            reveal(AppModel::switcher_removing);
        }
        let place: Location = match switcher_of(&self.overlay) {
            Some(switcher) => {
                if switcher.selected < switcher.projects.len() {
                    switcher.projects[switcher.selected].config.copied()
                } else {
                    return;
                }
            },
            None => return,
        };
        self.ask(Effect::Unregister(place), Task::SwitcherProjectRemoved);
    }

    /// Goes on after the project highlighted in the switcher was removed, or
    /// was not.
    pub fn handle_switcher_project_removed(&mut self, result: Result<(), String>)
        ensures
            final(self)@ == old(self)@.switcher_removal_answered(result),
    {
        proof {
            reveal(AppModel::switcher_removal_answered);
        }
        match result {
            Ok(_) => {
                self.refresh_projects();
                self.refresh_switcher();
            },
            Err(error) => {
                set_switcher_error(&mut self.overlay, Message::Outside(error));
                assert(self@ =~= old(self)@.switcher_removal_answered(result));
            },
        }
    }

    /// Builds a switcher over the registry as it is now.
    fn build_switcher(&self, clamp: bool) -> (switcher: Switcher)
        ensures
            switcher@ == self@.fresh_switcher(clamp),
    {
        let mut error: Option<Message> = None;
        let projects: Vec<Project> = match &self.world.projects {
            Ok(projects) => copy_projects(projects),
            Err(problem) => {
                error = Some(Message::Outside(problem.clone()));
                Vec::new()
            },
        };
        let current: Option<usize> = self.current_project_index(&projects);
        let wanted: usize = match current {
            Some(index) => index,
            None => 0,
        };
        let selected: usize = if clamp && wanted >= projects.len() {
            0
        } else {
            wanted
        };
        let switcher: Switcher = Switcher {
            projects,
            selected,
            current,
            error,
            preview: Vec::new(),
        };
        assert(switcher@ =~= self@.fresh_switcher(clamp));
        switcher
    }

    /// Asks for the preview of the switcher's highlighted project.
    pub fn update_switcher_preview(&mut self)
        ensures
            final(self)@ == old(self)@.previewing(),
    {
        proof {
            reveal(AppModel::previewing);
        }
        let opens: Option<Location> = match switcher_of(&self.overlay) {
            Some(switcher) => {
                if switcher.selected < switcher.projects.len() {
                    match &switcher.projects[switcher.selected].opens_at {
                        Ok(place) => Some(place.copied()),
                        Err(_) => None,
                    }
                } else {
                    return;
                }
            },
            None => return,
        };
        match opens {
            Some(place) => self.ask(Effect::OpenWorkspace(place), Task::Previewed),
            None => {
                set_switcher_preview(&mut self.overlay, Vec::new());
                assert(self@ =~= old(self)@.previewing());
            },
        }
    }

    /// Opens the project switcher, reloading the registry so that edits on disk
    /// are picked up. Highlights the current project, else the first one.
    pub fn open_switcher(&mut self)
        ensures
            final(self)@ == old(self)@.switcher_shown(),
    {
        proof {
            reveal(AppModel::switcher_shown);
        }
        let switcher: Switcher = self.build_switcher(false);
        self.overlay = Some(Overlay::Switcher(switcher));
        self.update_switcher_preview();
    }

    /// Reloads the open switcher from the registry after a change.
    pub fn refresh_switcher(&mut self)
        ensures
            final(self)@ == old(self)@.switcher_refreshed(),
    {
        if switcher_of(&self.overlay).is_some() {
            let switcher: Switcher = self.build_switcher(true);
            self.overlay = Some(Overlay::Switcher(switcher));
            self.update_switcher_preview();
        }
    }

    /// Goes on with the config that the switcher previews.
    pub fn handle_previewed(&mut self, config: Result<WorkspaceConfig, String>)
        ensures
            final(self)@ == old(self)@.previewed(sections_of(config)),
    {
        proof {
            reveal(AppModel::previewed);
        }
        let preview: Vec<(ProcessKind, String)> = match config {
            Ok(config) => config.config_preview(),
            Err(_) => Vec::new(),
        };
        set_switcher_preview(&mut self.overlay, preview);
        assert(self@ =~= old(self)@.previewed(sections_of(config)));
    }
}

/// Returns the identities other than one.
fn without_id(ids: &Vec<PaneId>, id: PaneId) -> (rest: Vec<PaneId>)
    ensures
        rest@ == other_ids(ids@, id),
{
    let mut rest: Vec<PaneId> = Vec::new();
    let mut i: usize = 0;
    assert(ids@.take(0).len() == 0);
    while i < ids.len()
        invariant
            i <= ids@.len(),
            rest@ == other_ids(ids@.take(i as int), id),
        decreases ids@.len() - i,
    {
        assert(ids@.take(i + 1).drop_last() =~= ids@.take(i as int));
        if ids[i] != id {
            rest.push(ids[i]);
        }
        i = i + 1;
    }
    assert(ids@.take(i as int) =~= ids@);
    rest
}

/// A switch never loads the new project while an old process may still hold
/// its resources: with a live pane, nothing of the workspace changes yet.
pub proof fn a_switch_waits_for_live_panes(app: AppModel, config: Sections, place: Location)
    requires
        alive_panes(app.panes).len() > 0,
    ensures
        app.switch_begun(config, place).roster == app.roster,
        app.switch_begun(config, place).catalog == app.catalog,
        app.switch_begun(config, place).pending_switch matches Some(pending) && pending.config
            == config && pending.place == place && pending.waiting == alive_panes(app.panes),
{
    switch_kills_keep_the_workspace(
        AppModel { ledger: app.ledger.without_reopens(), ..app },
        alive_panes(app.panes),
    );
}

/// Killing panes for a switch changes nothing but their exit intents.
proof fn switch_kills_keep_the_workspace(app: AppModel, ids: Seq<PaneId>)
    ensures
        app.switch_kills(ids).roster == app.roster,
        app.switch_kills(ids).catalog == app.catalog,
    decreases ids.len(),
{
    if ids.len() > 0 {
        switch_kills_keep_the_workspace(app, ids.drop_last());
    }
}

/// The launched config always has a row in the tree, saved or not, whenever its
/// label can name one.
pub proof fn the_launched_project_stays_reachable(app: AppModel)
    requires
        is_name(app.catalog.launched.label@),
    ensures
        project_at(app.projects_refreshed().catalog.projects, app.catalog.launched) is Some,
{
    reveal(AppModel::projects_refreshed);
    let projects = app.projects_refreshed().catalog.projects;
    project_at_is_the_first(projects, app.catalog.launched);
    if app.projects_refreshed().catalog.synthetic {
        assert(same_place(projects[0].config, app.catalog.launched));
    }
}

/// A change of some other file leaves the workspace as it is.
pub proof fn other_files_change_nothing(
    app: AppModel,
    path: Seq<char>,
    config: Result<Sections, String>,
)
    requires
        app.catalog.current matches Some(current) ==> !same_path(current.normalized@, path),
    ensures
        app.config_changed(path, config) == app,
{
    reveal(AppModel::config_changed);
}

} // verus!
