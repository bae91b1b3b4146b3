//! Opening, listing and removing projects: which file is read or unregistered,
//! and what the workspace shows afterwards.

use vstd::prelude::*;
use crate::app::projects::active_index;
use crate::app::{AppModel, CatalogModel, Focus, SwitchModel};
use crate::config::{ProcessSpec, Sections, WorkspaceConfig};
use crate::effect::{Effect, EffectModel, Reply, Task};
use crate::input::KeyCode;
use crate::laws::{answers, answers_arrive, fresh, in_sidebar, pressed, sidebar_presses, told};
use crate::location::{project_at, project_at_is_the_first, same_place, Location, Project};
use crate::message::{Message, Prompt};
use crate::moment::Moment;
use crate::overlay::{OverlayModel, SwitcherModel};
use crate::pane::{alive_panes, PaneLife};
use crate::process::{
    ActivityState, ExitIntent, PaneId, Process, ProcessKind, ProcessOrigin, ProcessState,
    RestartPolicy,
};

verus! {

/// Whether a process is the row of an entry that was just read: everything that
/// the entry says, and otherwise the defaults, in which an agent or a terminal
/// starts by itself and a command does not.
pub open spec fn stands_for_entry(
    process: Process,
    spec: ProcessSpec,
    kind: ProcessKind,
    index: int,
) -> bool {
    &&& process.id == index
    &&& process.kind == kind
    &&& process.name == spec.name
    &&& process.command == spec.command
    &&& process.working_dir == spec.working_dir
    &&& process.stop == spec.stop
    &&& process.restart == if spec.restart is Some {
        spec.restart->0
    } else {
        RestartPolicy::Never
    }
    &&& process.autostart == if spec.autostart is Some {
        spec.autostart->0
    } else {
        kind != ProcessKind::Command
    }
    &&& process.agent_tool == if kind == ProcessKind::Agent {
        spec.agent_tool
    } else {
        None
    }
    &&& process.agent_session_id is None
    &&& process.origin == ProcessOrigin::Configured
    &&& process.state == ProcessState::Pending
    &&& process.activity == ActivityState::Idle
}

/// Whether the rows are the entries of a config: its agents, then its terminals,
/// then its commands, each in the order of the file and numbered from zero.
pub open spec fn lists(processes: Seq<Process>, config: Sections) -> bool {
    let agents = config.agents.len() as int;
    let terminals = config.terminals.len() as int;
    let commands = config.commands.len() as int;
    &&& processes.len() == agents + terminals + commands
    &&& forall|i: int|
        0 <= i < agents ==> stands_for_entry(
            #[trigger] processes[i],
            config.agents[i],
            ProcessKind::Agent,
            i,
        )
    &&& forall|i: int|
        agents <= i < agents + terminals ==> stands_for_entry(
            #[trigger] processes[i],
            config.terminals[i - agents],
            ProcessKind::Terminal,
            i,
        )
    &&& forall|i: int|
        agents + terminals <= i < processes.len() ==> stands_for_entry(
            #[trigger] processes[i],
            config.commands[i - agents - terminals],
            ProcessKind::Command,
            i,
        )
}

/// A config is listed entry by entry, in the order of its sections.
pub proof fn a_config_is_listed_in_order(config: Sections)
    requires
        config.agents.len() + config.terminals.len() + config.commands.len() <= u64::MAX,
    ensures
        lists(config.processes(), config),
{
    let entries = config.entries();
    let agents = config.agents.len() as int;
    let terminals = config.terminals.len() as int;
    assert forall|i: int| 0 <= i < agents implies stands_for_entry(
        #[trigger] config.processes()[i],
        config.agents[i],
        ProcessKind::Agent,
        i,
    ) by {
        assert(entries[i].spec == config.agents[i]);
        assert(entries[i].kind == ProcessKind::Agent);
    }
    assert forall|i: int| agents <= i < agents + terminals implies stands_for_entry(
        #[trigger] config.processes()[i],
        config.terminals[i - agents],
        ProcessKind::Terminal,
        i,
    ) by {
        assert(entries[i].spec == config.terminals[i - agents]);
        assert(entries[i].kind == ProcessKind::Terminal);
    }
    assert forall|i: int| agents + terminals <= i < config.processes().len() implies stands_for_entry(
        #[trigger] config.processes()[i],
        config.commands[i - agents - terminals],
        ProcessKind::Command,
        i,
    ) by {
        assert(entries[i].spec == config.commands[i - agents - terminals]);
        assert(entries[i].kind == ProcessKind::Command);
    }
}

/// Whether a project's workspace replaced the one before it: its file is the
/// current one and is watched, its entries are the rows, no pane is left, and
/// what a start needs is queued, the links of agents to be done first and the
/// refresh of the projects last.
pub open spec fn shows_workspace(
    before: AppModel,
    after: AppModel,
    config: Sections,
    place: Location,
) -> bool {
    &&& after.catalog.current == Some(place)
    &&& after.catalog.projects == before.catalog.projects
    &&& lists(after.roster.processes, config)
    &&& after.roster.selected == 0
    &&& after.panes.len() == 0
    &&& after.focus == Focus::Sidebar
    &&& before.world.has_watcher ==> after.outbox.len() > 0 && after.outbox.last()
        == EffectModel::Plain(Effect::Watch(place))
    &&& after.agenda == before.agenda + seq![
        Task::RefreshProjects,
        Task::RestoreSessions,
        Task::LaunchRows,
        Task::RecoverOrphans,
        Task::LinkAgents,
    ]
    &&& after.ledger.deleted.len() == 0
    &&& after.ledger.attempts == Map::<u64, u64>::empty()
    &&& after.ledger.reopens == Map::<u64, String>::empty()
    &&& after.ledger.generations == before.ledger.generations
}

proof fn loading(app: AppModel, config: Sections, place: Location)
    requires
        config.agents.len() + config.terminals.len() + config.commands.len() <= u64::MAX,
    ensures
        shows_workspace(app, app.project_loaded(config, place), config, place),
{
    a_config_is_listed_in_order(config);
}

/// Whether a switch to a project waits for the processes that are still alive:
/// each of them is killed, and nothing else changes yet.
pub open spec fn waits_to_switch(
    before: AppModel,
    after: AppModel,
    place: Location,
) -> bool {
    &&& after.roster == before.roster
    &&& after.catalog.current == before.catalog.current
    &&& after.pending_switch is Some
    &&& after.pending_switch->0.place == place
    &&& after.pending_switch->0.waiting == alive_panes(before.panes)
    &&& !after.pending_switch->0.loading
    &&& after.outbox == before.outbox + alive_panes(before.panes).map_values(
        |pane: PaneId| EffectModel::Plain(Effect::Kill(pane)),
    )
}

proof fn kills_go_out(app: AppModel, ids: Seq<PaneId>)
    ensures
        app.switch_kills(ids).outbox == app.outbox + ids.map_values(
            |pane: PaneId| EffectModel::Plain(Effect::Kill(pane)),
        ),
        app.switch_kills(ids).roster == app.roster,
        app.switch_kills(ids).catalog == app.catalog,
        app.switch_kills(ids).overlay == app.overlay,
    decreases ids.len(),
{
    let kill = |pane: PaneId| EffectModel::Plain(Effect::Kill(pane));
    if ids.len() == 0 {
        assert(ids.map_values(kill) =~= Seq::<EffectModel>::empty());
        assert(app.outbox + ids.map_values(kill) =~= app.outbox);
    } else {
        kills_go_out(app, ids.drop_last());
        assert(ids.map_values(kill) =~= ids.drop_last().map_values(kill).push(kill(ids.last())));
        assert(app.outbox + ids.map_values(kill) =~= (app.outbox + ids.drop_last().map_values(
            kill,
        )).push(kill(ids.last())));
    }
}

proof fn switching(app: AppModel, config: Sections, place: Location)
    requires
        config.agents.len() + config.terminals.len() + config.commands.len() <= u64::MAX,
    ensures
        alive_panes(app.panes).len() == 0 ==> shows_workspace(
            app,
            app.switch_begun(config, place),
            config,
            place,
        ),
        alive_panes(app.panes).len() > 0 ==> waits_to_switch(
            app,
            app.switch_begun(config, place),
            place,
        ),
        app.switch_begun(config, place).catalog.cursor == app.catalog.cursor,
{
    let forgetful = AppModel { ledger: app.ledger.without_reopens(), ..app };
    loading(forgetful, config, place);
    kills_go_out(forgetful, alive_panes(app.panes));
}

/// Picking a project in the switcher, with enter or by its digit, reads the file
/// that the project opens at, and no other; and the workspace that follows is
/// made of the entries of that file, under that place.
pub proof fn a_picked_project_is_the_one_opened(
    app: AppModel,
    later: AppModel,
    switcher: SwitcherModel,
    row: usize,
    code: KeyCode,
    place: Location,
    stored: spec_fn(Location) -> WorkspaceConfig,
    now: Moment,
    after: Moment,
)
    requires
        app.overlay == Some(OverlayModel::Switcher(switcher)),
        code == KeyCode::Enter && row == switcher.selected || code == KeyCode::Char(
            (0x31 + row) as char,
        ) && row < 9,
        row < switcher.projects.len(),
        switcher.projects[row as int].opens_at == Ok::<Location, String>(place),
        stored(place)@.agents.len() + stored(place)@.terminals.len() + stored(
            place,
        )@.commands.len() <= u64::MAX,
        answers(later, pressed(app, code, now)),
    ensures
        ({
            let asked = pressed(app, code, now);
            let read = asked.outbox.last()->Plain_0->OpenWorkspace_0;
            let done = told(later, Reply::Opened { config: Ok(stored(read)), exists: true }, after);
            &&& asked.outbox == app.outbox.push(EffectModel::Plain(Effect::OpenWorkspace(place)))
            &&& asked.roster == app.roster
            &&& asked.overlay == app.overlay
            &&& done.overlay is None
            &&& alive_panes(later.panes).len() == 0 ==> shows_workspace(
                later,
                done,
                stored(place)@,
                place,
            )
            &&& alive_panes(later.panes).len() > 0 ==> waits_to_switch(later, done, place)
        }),
{
    reveal(AppModel::handled);
    reveal(AppModel::input_handled);
    reveal(AppModel::key_handled);
    reveal(AppModel::switcher_key);
    reveal(AppModel::switching_to);
    reveal(AppModel::project_answered);
    reveal(AppModel::switcher_opened);
    let project = switcher.projects[row as int];
    let asked = pressed(app, code, now);
    let task = Task::SwitcherOpened { row, project };
    assert(asked.outbox == app.outbox.push(EffectModel::Plain(Effect::OpenWorkspace(place))));
    assert(asked.waiting.last() == task);
    let reply = Reply::Opened { config: Ok(stored(place)), exists: true };
    answers_arrive(later, task, reply, after);
    switching(
        AppModel { waiting: later.waiting.skip(1), ..later },
        stored(place)@,
        place,
    );
}

/// The project under the sidebar's cursor is opened in the same way, by enter, the
/// right arrow or `l`.
pub proof fn the_chosen_project_is_the_one_opened(
    app: AppModel,
    later: AppModel,
    row: usize,
    project: Project,
    code: KeyCode,
    place: Location,
    stored: spec_fn(Location) -> WorkspaceConfig,
    now: Moment,
    after: Moment,
)
    requires
        in_sidebar(app),
        app.catalog.cursor == Some(row),
        app.catalog.other_project(row) == Some(project),
        code == KeyCode::Enter || code == KeyCode::Right || code == KeyCode::Char('l'),
        project.opens_at == Ok::<Location, String>(place),
        stored(place)@.agents.len() + stored(place)@.terminals.len() + stored(
            place,
        )@.commands.len() <= u64::MAX,
        answers(later, pressed(app, code, now)),
    ensures
        ({
            let asked = pressed(app, code, now);
            let read = asked.outbox.last()->Plain_0->OpenWorkspace_0;
            let done = told(later, Reply::Opened { config: Ok(stored(read)), exists: true }, after);
            &&& asked.outbox == app.outbox.push(EffectModel::Plain(Effect::OpenWorkspace(place)))
            &&& asked.roster == app.roster
            &&& asked.focus == Focus::Sidebar
            &&& done.catalog.cursor is None
            &&& alive_panes(later.panes).len() == 0 ==> shows_workspace(
                later,
                done,
                stored(place)@,
                place,
            )
            &&& alive_panes(later.panes).len() > 0 ==> waits_to_switch(later, done, place)
        }),
{
    reveal(AppModel::sidebar_key);
    reveal(AppModel::sidebar_chosen);
    reveal(AppModel::activating);
    reveal(AppModel::project_answered);
    reveal(AppModel::project_opened);
    sidebar_presses(app, code, now);
    let task = Task::ProjectOpened(project);
    let reply = Reply::Opened { config: Ok(stored(place)), exists: true };
    answers_arrive(later, task, reply, after);
    let taken = AppModel { waiting: later.waiting.skip(1), ..later };
    let moved = taken.with_cursor(None);
    switching(moved, stored(place)@, place);
}

/// The other projects are all the registered ones but the active one, in their
/// order; the active one is the first that stands where the workspace does.
pub proof fn the_other_projects_are_all_but_the_active(catalog: CatalogModel, i: int)
    requires
        0 <= i < catalog.projects.len() <= usize::MAX,
    ensures
        ({
            let active = active_index(catalog.projects, catalog.current);
            &&& active is None ==> catalog.other_project(i as usize) == Some(catalog.projects[i])
            &&& active is Some && i < active->0 ==> catalog.other_project(i as usize) == Some(
                catalog.projects[i],
            )
            &&& active is Some && i > active->0 ==> catalog.other_project((i - 1) as usize) == Some(
                catalog.projects[i],
            )
            &&& active is Some ==> catalog.other_count() == catalog.projects.len() - 1
            &&& active is None ==> catalog.other_count() == catalog.projects.len()
            &&& active == Some(i) ==> catalog.current is Some && same_place(
                catalog.projects[i].config,
                catalog.current->0,
            )
            &&& catalog.other_project(catalog.other_count() as usize) is None
        }),
{
    match catalog.current {
        Some(place) => project_at_is_the_first(catalog.projects, place),
        None => {},
    }
}

/// Once the last process that a switch waits for is gone, the project's file is
/// read again, and what it says then is what the workspace shows.
pub proof fn a_delayed_switch_reads_the_project_again(
    app: AppModel,
    later: AppModel,
    pane: PaneId,
    config: WorkspaceConfig,
    now: Moment,
    after: Moment,
)
    requires
        app.waiting.len() == 0,
        app.agenda.len() > 0,
        app.agenda.last() == Task::Advance(pane),
        app.pending_switch is Some,
        !app.pending_switch->0.loading,
        app.pending_switch->0.waiting == seq![pane],
        later.pending_switch == app.progressed(now).pending_switch,
        answers(later, app.progressed(now)),
        config@.agents.len() + config@.terminals.len() + config@.commands.len() <= u64::MAX,
    ensures
        ({
            let place = app.pending_switch->0.place;
            let asked = app.progressed(now);
            let done = told(later, Reply::Opened { config: Ok(config), exists: true }, after);
            &&& asked.outbox == app.outbox.push(EffectModel::Plain(Effect::OpenWorkspace(place)))
            &&& asked.agenda == app.agenda.drop_last()
            &&& asked.roster == app.roster
            &&& done.pending_switch is None
            &&& shows_workspace(later, done, config@, place)
        }),
{
    reveal(AppModel::done);
    reveal(AppModel::switch_advanced);
    reveal(AppModel::project_answered);
    reveal(AppModel::switch_completed);
    reveal_with_fuel(crate::ledger::other_ids, 2);
    assert(seq![pane].drop_last() =~= Seq::<PaneId>::empty());
    answers_arrive(
        later,
        Task::SwitchLoaded,
        Reply::Opened { config: Ok(config), exists: true },
        after,
    );
    let taken = AppModel { waiting: later.waiting.skip(1), ..later };
    loading(
        AppModel { pending_switch: None, ..taken },
        config@,
        app.pending_switch->0.place,
    );
}

/// A process that a switch does not wait for last leaves the switch waiting for
/// the others, and nothing is read.
pub proof fn a_switch_waits_for_every_process(
    app: AppModel,
    pane: PaneId,
    other: PaneId,
    now: Moment,
)
    requires
        app.waiting.len() == 0,
        app.agenda.len() > 0,
        app.agenda.last() == Task::Advance(pane),
        app.pending_switch is Some,
        !app.pending_switch->0.loading,
        app.pending_switch->0.waiting == seq![pane, other],
        pane != other,
    ensures
        app.progressed(now).outbox == app.outbox,
        app.progressed(now).roster == app.roster,
        app.progressed(now).pending_switch == Some(
            SwitchModel { waiting: seq![other], ..app.pending_switch->0 },
        ),
{
    reveal(AppModel::done);
    reveal(AppModel::switch_advanced);
    reveal_with_fuel(crate::ledger::other_ids, 3);
    let ids = seq![pane, other];
    assert(ids.drop_last() =~= seq![pane]);
    assert(ids.drop_last().drop_last() =~= Seq::<PaneId>::empty());
    assert(crate::ledger::other_ids(ids, pane) =~= seq![other]);
}

/// A project whose file cannot be read stays in the switcher with the host's
/// words; one whose file is gone is offered for removal by its own place.
pub proof fn an_unreadable_project_is_reported(
    app: AppModel,
    later: AppModel,
    switcher: SwitcherModel,
    place: Location,
    error: String,
    exists: bool,
    now: Moment,
    after: Moment,
)
    requires
        app.overlay == Some(OverlayModel::Switcher(switcher)),
        switcher.selected < switcher.projects.len(),
        switcher.projects[switcher.selected as int].opens_at == Ok::<Location, String>(place),
        later.overlay == app.overlay,
        answers(later, pressed(app, KeyCode::Enter, now)),
    ensures
        ({
            let project = switcher.projects[switcher.selected as int];
            let done = told(later, Reply::Opened { config: Err(error), exists }, after);
            &&& done.roster == later.roster
            &&& done.outbox == later.outbox
            &&& done.catalog.current == later.catalog.current
            &&& exists ==> done.overlay == Some(
                OverlayModel::Switcher(
                    SwitcherModel { error: Some(Message::Outside(error)), ..switcher },
                ),
            )
            &&& !exists ==> done.overlay == Some(
                OverlayModel::ConfirmRemoval {
                    prompt: Prompt::MissingConfig(project.name),
                    place: project.config,
                },
            )
        }),
{
    reveal(AppModel::handled);
    reveal(AppModel::input_handled);
    reveal(AppModel::key_handled);
    reveal(AppModel::switcher_key);
    reveal(AppModel::switching_to);
    reveal(AppModel::project_answered);
    reveal(AppModel::switcher_opened);
    let project = switcher.projects[switcher.selected as int];
    let task = Task::SwitcherOpened { row: switcher.selected, project };
    assert(pressed(app, KeyCode::Enter, now).waiting.last() == task);
    answers_arrive(later, task, Reply::Opened { config: Err(error), exists }, after);
}

/// A project that opens nowhere says why, and nothing is read for it.
pub proof fn a_project_without_a_place_is_not_read(
    app: AppModel,
    switcher: SwitcherModel,
    error: String,
    now: Moment,
)
    requires
        app.overlay == Some(OverlayModel::Switcher(switcher)),
        switcher.selected < switcher.projects.len(),
        switcher.projects[switcher.selected as int].opens_at == Err::<Location, String>(error),
    ensures
        pressed(app, KeyCode::Enter, now).outbox == app.outbox,
        pressed(app, KeyCode::Enter, now).waiting == app.waiting,
        pressed(app, KeyCode::Enter, now).overlay == Some(
            OverlayModel::Switcher(
                SwitcherModel { error: Some(Message::Outside(error)), ..switcher },
            ),
        ),
{
    reveal(AppModel::handled);
    reveal(AppModel::input_handled);
    reveal(AppModel::key_handled);
    reveal(AppModel::switcher_key);
    reveal(AppModel::switching_to);
}

/// In the sidebar the failure is a notice that names the project, and a missing
/// file is offered for removal.
pub proof fn an_unreadable_choice_is_reported(
    app: AppModel,
    later: AppModel,
    row: usize,
    project: Project,
    place: Location,
    error: String,
    exists: bool,
    now: Moment,
    after: Moment,
)
    requires
        in_sidebar(app),
        app.catalog.cursor == Some(row),
        app.catalog.other_project(row) == Some(project),
        project.opens_at == Ok::<Location, String>(place),
        answers(later, pressed(app, KeyCode::Enter, now)),
    ensures
        ({
            let done = told(later, Reply::Opened { config: Err(error), exists }, after);
            &&& done.roster == later.roster
            &&& done.outbox == later.outbox
            &&& done.catalog.current == later.catalog.current
            &&& exists ==> done.feedback.notice == Some(
                Message::ProjectOpen { name: project.name, error },
            ) && done.overlay == later.overlay
            &&& !exists ==> done.catalog.cursor is None && done.overlay == Some(
                OverlayModel::ConfirmRemoval {
                    prompt: Prompt::MissingConfig(project.name),
                    place: project.config,
                },
            )
        }),
{
    reveal(AppModel::sidebar_key);
    reveal(AppModel::sidebar_chosen);
    reveal(AppModel::activating);
    reveal(AppModel::project_answered);
    reveal(AppModel::project_opened);
    sidebar_presses(app, KeyCode::Enter, now);
    answers_arrive(
        later,
        Task::ProjectOpened(project),
        Reply::Opened { config: Err(error), exists },
        after,
    );
}

/// `d` on a project asks before it removes it, by the place of that project; only
/// the launched project that was never saved cannot be removed.
pub proof fn a_removal_is_confirmed_for_that_project(
    app: AppModel,
    row: usize,
    project: Project,
    now: Moment,
)
    requires
        in_sidebar(app),
        app.catalog.cursor == Some(row),
        app.catalog.other_project(row) == Some(project),
    ensures
        ({
            let unsaved = app.catalog.synthetic && same_place(
                project.config,
                app.catalog.launched,
            );
            let shown = pressed(app, KeyCode::Char('d'), now);
            &&& shown.outbox == app.outbox
            &&& unsaved ==> shown.overlay is None && shown.feedback.notice == Some(
                Message::CannotRemoveLaunched,
            )
            &&& !unsaved ==> shown.overlay == Some(
                OverlayModel::ConfirmRemoval {
                    prompt: Prompt::RemoveProject(project.name),
                    place: project.config,
                },
            ) && shown.catalog.cursor is None
        }),
{
    reveal(AppModel::sidebar_key);
    reveal(AppModel::selected_removal_confirmation);
    sidebar_presses(app, KeyCode::Char('d'), now);
}

/// A confirmed removal unregisters exactly the place that was asked about, and
/// then the projects are listed anew; `n` and escape leave everything as it was.
pub proof fn a_confirmed_removal_unregisters_its_place(
    app: AppModel,
    later: AppModel,
    prompt: Prompt,
    place: Location,
    code: KeyCode,
    error: String,
    now: Moment,
    after: Moment,
)
    requires
        app.overlay == Some(OverlayModel::ConfirmRemoval { prompt, place }),
        code == KeyCode::Enter || code == KeyCode::Char('y'),
        answers(later, pressed(app, code, now)),
    ensures
        ({
            let asked = pressed(app, code, now);
            let done = told(later, Reply::Wrote(Ok(())), after);
            let failed = told(later, Reply::Wrote(Err(error)), after);
            &&& asked.outbox == app.outbox.push(EffectModel::Plain(Effect::Unregister(place)))
            &&& asked.overlay is None
            &&& done.catalog.cursor is None
            &&& done.outbox == later.outbox
            &&& lists_projects(later, done)
            &&& failed.feedback.notice == Some(Message::Outside(error))
            &&& failed.catalog == later.catalog
            &&& pressed(app, KeyCode::Esc, now) == fresh(app).with_overlay(None)
            &&& pressed(app, KeyCode::Char('n'), now) == fresh(app).with_overlay(None)
        }),
{
    reveal(AppModel::handled);
    reveal(AppModel::input_handled);
    reveal(AppModel::key_handled);
    reveal(AppModel::confirm_key);
    reveal(AppModel::confirmed);
    reveal(AppModel::overlay_closed);
    reveal(AppModel::project_answered);
    reveal(AppModel::project_removal_answered);
    assert(pressed(app, code, now).waiting.last() == Task::ProjectRemoved);
    answers_arrive(later, Task::ProjectRemoved, Reply::Wrote(Ok(())), after);
    answers_arrive(later, Task::ProjectRemoved, Reply::Wrote(Err(error)), after);
    listing((AppModel { waiting: later.waiting.skip(1), ..later }).with_cursor(None));
    reveal(AppModel::projects_refreshed);
}

/// The projects of the registry, none where it cannot be read.
pub open spec fn registry(app: AppModel) -> Seq<Project> {
    match app.world.projects {
        Ok(projects) => projects,
        Err(_) => Seq::empty(),
    }
}

/// Whether the projects are those of the registry, with the launched one before
/// them where the registry lacks it and it has a name.
pub open spec fn lists_projects(before: AppModel, after: AppModel) -> bool {
    let launched = before.catalog.launched;
    let found = registry(before);
    let known = exists|i: int|
        0 <= i < found.len() && same_place((#[trigger] found[i]).config, launched);
    let added = Project { name: launched.label, config: launched, opens_at: Ok(launched) };
    let blank = crate::text::trimmed(launched.label@).len() == 0;
    &&& known || blank ==> after.catalog.projects == found && !after.catalog.synthetic
    &&& !known && !blank ==> after.catalog.projects == seq![added] + found
        && after.catalog.synthetic
    &&& after.catalog.current == before.catalog.current
    &&& after.catalog.launched == launched
}

proof fn listing(app: AppModel)
    ensures
        lists_projects(app, app.projects_refreshed()),
{
    reveal(AppModel::projects_refreshed);
    let found = registry(app);
    project_at_is_the_first(found, app.catalog.launched);
}

/// A refresh lists the projects of the registry, and keeps the launched one
/// reachable.
pub proof fn a_refresh_lists_the_registry(app: AppModel, now: Moment)
    requires
        app.waiting.len() == 0,
        app.agenda.len() > 0,
        app.agenda.last() == Task::RefreshProjects,
    ensures
        lists_projects(app, app.progressed(now)),
        app.progressed(now).agenda == app.agenda.drop_last(),
        app.progressed(now).outbox == app.outbox,
{
    reveal(AppModel::done);
    listing(AppModel { agenda: app.agenda.drop_last(), ..app });
    reveal(AppModel::projects_refreshed);
}

/// `d` in the switcher unregisters the selected project's own place.
pub proof fn the_switcher_removes_its_selection(
    app: AppModel,
    later: AppModel,
    switcher: SwitcherModel,
    error: String,
    now: Moment,
    after: Moment,
)
    requires
        app.overlay == Some(OverlayModel::Switcher(switcher)),
        switcher.selected < switcher.projects.len(),
        later.overlay == app.overlay,
        answers(later, pressed(app, KeyCode::Char('d'), now)),
    ensures
        ({
            let asked = pressed(app, KeyCode::Char('d'), now);
            let done = told(later, Reply::Wrote(Ok(())), after);
            let failed = told(later, Reply::Wrote(Err(error)), after);
            &&& asked.outbox == app.outbox.push(
                EffectModel::Plain(
                    Effect::Unregister(switcher.projects[switcher.selected as int].config),
                ),
            )
            &&& asked.overlay == app.overlay
            &&& lists_projects(later, done)
            &&& done.overlay is Some
            &&& done.overlay->0 is Switcher
            &&& done.overlay->0->Switcher_0.projects == registry(later)
            &&& failed.overlay == Some(
                OverlayModel::Switcher(
                    SwitcherModel { error: Some(Message::Outside(error)), ..switcher },
                ),
            )
            &&& failed.catalog == later.catalog
        }),
{
    reveal(AppModel::handled);
    reveal(AppModel::input_handled);
    reveal(AppModel::key_handled);
    reveal(AppModel::switcher_key);
    reveal(AppModel::switcher_removing);
    reveal(AppModel::project_answered);
    reveal(AppModel::switcher_removal_answered);
    reveal(AppModel::previewing);
    assert(pressed(app, KeyCode::Char('d'), now).waiting.last() == Task::SwitcherProjectRemoved);
    answers_arrive(later, Task::SwitcherProjectRemoved, Reply::Wrote(Ok(())), after);
    answers_arrive(later, Task::SwitcherProjectRemoved, Reply::Wrote(Err(error)), after);
    let taken = AppModel { waiting: later.waiting.skip(1), ..later };
    listing(taken);
    reveal(AppModel::projects_refreshed);
}

/// `o` shows the projects of the registry, with the current one selected where it
/// is among them and the first otherwise, and previews the selected one.
pub proof fn the_switcher_shows_the_registry(app: AppModel, now: Moment)
    requires
        in_sidebar(app),
        app.world.projects is Ok,
        app.world.projects->Ok_0.len() <= usize::MAX,
    ensures
        ({
            let projects = app.world.projects->Ok_0;
            let shown = pressed(app, KeyCode::Char('o'), now);
            let switcher = shown.overlay->0->Switcher_0;
            &&& shown.overlay is Some && shown.overlay->0 is Switcher
            &&& switcher.projects == projects
            &&& switcher.error is None
            &&& switcher.preview.len() == 0
            &&& switcher.current is Some ==> switcher.selected == switcher.current->0
                && switcher.selected < projects.len() && app.catalog.current is Some && same_place(
                projects[switcher.selected as int].config,
                app.catalog.current->0,
            )
            &&& switcher.current is None ==> switcher.selected == 0
            &&& switcher.current is None && app.catalog.current is Some ==> forall|i: int|
                0 <= i < projects.len() ==> !same_place(
                    (#[trigger] projects[i]).config,
                    app.catalog.current->0,
                )
            &&& switcher.selected < projects.len() && projects[switcher.selected as int].opens_at
                is Ok ==> shown.outbox == app.outbox.push(
                EffectModel::Plain(
                    Effect::OpenWorkspace(projects[switcher.selected as int].opens_at->Ok_0),
                ),
            ) && shown.waiting == app.waiting.push(Task::Previewed)
            &&& switcher.selected >= projects.len() ==> shown.outbox == app.outbox
        }),
{
    reveal(AppModel::sidebar_key);
    reveal(AppModel::common_shortcut);
    reveal(AppModel::switcher_shown);
    reveal(AppModel::previewing);
    sidebar_presses(app, KeyCode::Char('o'), now);
    match app.catalog.current {
        Some(place) => project_at_is_the_first(app.world.projects->Ok_0, place),
        None => {},
    }
}

/// Moving in the switcher selects the next or the previous project, round the
/// ends, and previews that one: what it would list, kind by kind.
pub proof fn a_preview_shows_the_selected_project(
    app: AppModel,
    later: AppModel,
    switcher: SwitcherModel,
    code: KeyCode,
    config: WorkspaceConfig,
    now: Moment,
    after: Moment,
)
    requires
        app.overlay == Some(OverlayModel::Switcher(switcher)),
        switcher.selected < switcher.projects.len() <= usize::MAX,
        code == KeyCode::Down || code == KeyCode::Char('j') || code == KeyCode::Up || code
            == KeyCode::Char('k'),
        answers(later, pressed(app, code, now)),
        later.overlay == pressed(app, code, now).overlay,
        switcher.projects[pressed(app, code, now).overlay->0->Switcher_0.selected as int].opens_at
            is Ok,
    ensures
        ({
            let count = switcher.projects.len() as int;
            let down = code == KeyCode::Down || code == KeyCode::Char('j');
            let asked = pressed(app, code, now);
            let moved = asked.overlay->0->Switcher_0;
            let done = told(later, Reply::Opened { config: Ok(config), exists: true }, after);
            let preview = done.overlay->0->Switcher_0.preview;
            let agents = config@.agents.len() as int;
            let terminals = config@.terminals.len() as int;
            &&& asked.overlay is Some && asked.overlay->0 is Switcher
            &&& moved == (SwitcherModel { selected: moved.selected, ..switcher })
            &&& down && switcher.selected + 1 < count ==> moved.selected == switcher.selected + 1
            &&& down && switcher.selected + 1 == count ==> moved.selected == 0
            &&& !down && switcher.selected > 0 ==> moved.selected == switcher.selected - 1
            &&& !down && switcher.selected == 0 ==> moved.selected == count - 1
            &&& asked.outbox == app.outbox.push(
                EffectModel::Plain(
                    Effect::OpenWorkspace(
                        switcher.projects[moved.selected as int].opens_at->Ok_0,
                    ),
                ),
            )
            &&& done.overlay is Some && done.overlay->0 is Switcher
            &&& done.overlay->0->Switcher_0 == (SwitcherModel { preview, ..moved })
            &&& preview.len() == agents + terminals + config@.commands.len()
            &&& forall|i: int|
                0 <= i < agents ==> #[trigger] preview[i] == (
                    ProcessKind::Agent,
                    config@.agents[i].name,
                )
            &&& forall|i: int|
                agents <= i < agents + terminals ==> #[trigger] preview[i] == (
                    ProcessKind::Terminal,
                    config@.terminals[i - agents].name,
                )
            &&& forall|i: int|
                agents + terminals <= i < preview.len() ==> #[trigger] preview[i] == (
                    ProcessKind::Command,
                    config@.commands[i - agents - terminals].name,
                )
        }),
{
    reveal(AppModel::handled);
    reveal(AppModel::input_handled);
    reveal(AppModel::key_handled);
    reveal(AppModel::switcher_key);
    reveal(AppModel::switcher_moved);
    reveal(AppModel::previewing);
    reveal(AppModel::project_answered);
    reveal(AppModel::previewed);
    let count = switcher.projects.len() as int;
    let asked = pressed(app, code, now);
    assert(asked.waiting.last() == Task::Previewed);
    if switcher.selected + 1 < count {
        assert((switcher.selected + 1) % count == switcher.selected + 1) by (nonlinear_arith)
            requires
                0 <= switcher.selected,
                switcher.selected + 1 < count,
        ;
    } else {
        assert((switcher.selected + 1) % count == 0) by (nonlinear_arith)
            requires
                switcher.selected + 1 == count,
        ;
    }
    answers_arrive(
        later,
        Task::Previewed,
        Reply::Opened { config: Ok(config), exists: true },
        after,
    );
}

/// A switch whose file can no longer be read shows what was read of it before.
pub proof fn an_unreadable_switch_shows_what_was_read(
    later: AppModel,
    error: String,
    exists: bool,
    now: Moment,
)
    requires
        later.waiting.len() > 0,
        later.waiting[0] == Task::SwitchLoaded,
        later.pending_switch is Some,
        ({
            let config = later.pending_switch->0.config;
            config.agents.len() + config.terminals.len() + config.commands.len() <= u64::MAX
        }),
    ensures
        shows_workspace(
            later,
            told(later, Reply::Opened { config: Err(error), exists }, now),
            later.pending_switch->0.config,
            later.pending_switch->0.place,
        ),
        told(later, Reply::Opened { config: Err(error), exists }, now).pending_switch is None,
{
    reveal(AppModel::project_answered);
    reveal(AppModel::switch_completed);
    answers_arrive(later, Task::SwitchLoaded, Reply::Opened { config: Err(error), exists }, now);
    let taken = AppModel { waiting: later.waiting.skip(1), ..later };
    loading(
        AppModel { pending_switch: None, ..taken },
        later.pending_switch->0.config,
        later.pending_switch->0.place,
    );
}

/// A kill that a switch sent marks its process as stopping for good; one that was
/// not delivered leaves it as it was.
pub proof fn a_switch_stops_its_processes(later: AppModel, pane: PaneId, now: Moment)
    requires
        later.waiting.len() > 0,
        later.waiting[0] == Task::SwitchKilled(pane),
        later.life(pane) is Some,
    ensures
        told(later, Reply::Done(true), now).life(pane) == Some(
            PaneLife { exit_intent: ExitIntent::StopInFlight, ..later.life(pane)->0 },
        ),
        told(later, Reply::Done(true), now).outbox == later.outbox,
        told(later, Reply::Done(false), now).panes == later.panes,
{
    reveal(AppModel::process_answered);
    reveal(AppModel::switch_kill_answered);
    answers_arrive(later, Task::SwitchKilled(pane), Reply::Done(true), now);
    answers_arrive(later, Task::SwitchKilled(pane), Reply::Done(false), now);
    let taken = AppModel { waiting: later.waiting.skip(1), ..later };
    crate::laws::lives_are_kept(
        taken,
        pane,
        PaneLife { exit_intent: ExitIntent::StopInFlight, ..taken.life(pane)->0 },
        pane,
    );
}

/// A workspace that is replaced discards the children that are still alive, each
/// once and in order, before the new project is watched.
pub proof fn a_replaced_workspace_discards_its_children(
    app: AppModel,
    config: Sections,
    place: Location,
    i: int,
)
    requires
        0 <= i < alive_panes(app.panes).len(),
    ensures
        ({
            let after = app.project_loaded(config, place);
            let live = alive_panes(app.panes);
            &&& after.outbox.len() == app.outbox.len() + live.len() + if app.world.has_watcher {
                1int
            } else {
                0
            }
            &&& after.outbox[app.outbox.len() + i] == EffectModel::Plain(Effect::Discard(live[i]))
        }),
{
}

} // verus!
