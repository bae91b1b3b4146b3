//! The entries of the project's config: adding, deleting and switching them, and
//! what a changed config does to the workspace.

use vstd::prelude::*;
use crate::app::entries::{process_for, standing_for};
use crate::app::projects::{with_membership, without_panes};
use crate::app::{AppModel, Focus};
use crate::config::{
    Identity, ProcessSpec, ProcessSpecMatcher, Sections, WorkspaceConfig,
};
use crate::effect::{Effect, EffectModel, LaunchPurpose, Reply, Task};
use crate::event::RuntimeEvent;
use crate::input::KeyCode;
use crate::laws::{answers, answers_arrive, fresh, in_sidebar, pressed, sidebar_presses, told};
use crate::location::{same_path, same_place, Location};
use crate::message::{Message, Prompt};
use crate::moment::Moment;
use crate::overlay::OverlayModel;
use crate::pane::{
    a_lifetime_change_touches_one_pane, alive_panes, life_of, pane_of, panes_are_put_and_removed,
    ConfigMembership, PaneLife, PaneModel,
};
use crate::process::{
    PaneId, Process, ProcessKind, ProcessOrigin, ProcessState, StopPolicy, StopSignal,
};
use crate::reconcile::{configured_count, entry_count, ids_of, sweep};
use crate::workspace::{position, position_is_the_first};

verus! {

/// Whether a matcher names an entry by everything that the config says of the
/// process: its kind, name, command, directory, restart policy and start, and its
/// stop policy, which for a command without one is an interrupt and five seconds.
pub open spec fn names_entry(target: ProcessSpecMatcher, process: Process) -> bool {
    &&& target.kind == process.kind
    &&& target.name == process.name
    &&& target.command == process.command
    &&& target.working_dir == process.working_dir
    &&& target.restart == process.restart
    &&& target.autostart == process.autostart
    &&& process.stop is Some ==> target.stop == process.stop
    &&& process.stop is None && process.kind == ProcessKind::Command ==> target.stop == Some(
        StopPolicy { signal: StopSignal::Interrupt, grace_millis: 5_000 },
    )
    &&& process.stop is None && process.kind != ProcessKind::Command ==> target.stop is None
}

/// `t` turns the start of a configured process over: the host is asked to write the
/// opposite into the entry of exactly that process, and once it is written the
/// process has it.
pub proof fn a_toggled_start_is_the_opposite_one(
    app: AppModel,
    place: Location,
    process: Process,
    later: AppModel,
    config: WorkspaceConfig,
    error: String,
    other: PaneId,
    now: Moment,
)
    requires
        in_sidebar(app),
        app.catalog.cursor is None,
        app.catalog.current == Some(place),
        app.roster.selected_process() == Some(process),
        process.origin == ProcessOrigin::Configured,
        app.roster.process(process.id) == Some(process),
        !crate::pane::pane_retiring(app.panes, process.id),
        app.roster.processes.len() <= usize::MAX,
        answers(later, pressed(app, KeyCode::Char('t'), now)),
        later.roster.process(process.id) is Some,
    ensures
        ({
            let asked = pressed(app, KeyCode::Char('t'), now);
            let sent = asked.outbox.last()->Plain_0;
            let done = told(later, Reply::Edited(Ok((config, true))), now);
            let missed = told(later, Reply::Edited(Ok((config, false))), now);
            let failed = told(later, Reply::Edited(Err(error)), now);
            &&& asked.outbox == app.outbox.push(EffectModel::Plain(sent))
            &&& sent is SetAutostart
            &&& sent->SetAutostart_place == place
            &&& sent->SetAutostart_autostart == !process.autostart
            &&& names_entry(sent->SetAutostart_target, process)
            &&& process_for(
                app.roster.processes,
                app.panes,
                sent->SetAutostart_target@,
                sent->SetAutostart_occurrence as nat,
            ) == Some(process)
            &&& asked.roster == app.roster
            &&& done.roster.process(process.id) == Some(
                Process {
                    autostart: !process.autostart,
                    ..later.roster.process(process.id)->0
                },
            )
            &&& other != process.id ==> done.roster.process(other) == later.roster.process(other)
            &&& missed.roster == later.roster
            &&& missed.feedback.notice == Some(Message::AutostartUntracked)
            &&& failed.roster == later.roster
            &&& failed.feedback.notice == Some(Message::WorkspaceSave)
        }),
{
    reveal(AppModel::sidebar_key);
    reveal(AppModel::autostart_toggling);
    reveal(AppModel::entry_answered);
    reveal(AppModel::autostart_answered);
    sidebar_presses(app, KeyCode::Char('t'), now);
    let id = process.id;
    its_entry_is_counted(app.roster.processes, app.panes, process);
    crate::app::entries::an_occurrence_leads_back_to_its_row(
        app.roster.processes,
        app.panes,
        process.identity(),
        id,
    );
    let task = Task::AutostartSet { pane: id, autostart: !process.autostart };
    answers_arrive(later, task, Reply::Edited(Ok((config, true))), now);
    answers_arrive(later, task, Reply::Edited(Ok((config, false))), now);
    answers_arrive(later, task, Reply::Edited(Err(error)), now);
    starts_are_kept(later, id, !process.autostart, other);
}

proof fn starts_are_kept(app: AppModel, id: PaneId, autostart: bool, other: PaneId)
    requires
        app.roster.process(id) is Some,
    ensures
        app.roster.with_autostart(id, autostart).process(id) == Some(
            Process { autostart, ..app.roster.process(id)->0 },
        ),
        other != id ==> app.roster.with_autostart(id, autostart).process(other)
            == app.roster.process(other),
{
    let before = app.roster.processes;
    let after = app.roster.with_autostart(id, autostart).processes;
    position_is_the_first(before, id);
    position_is_the_first(before, other);
    position_is_the_first(after, id);
    position_is_the_first(after, other);
    let index = position(before, id)->0;
    assert forall|i: int| 0 <= i < before.len() implies (#[trigger] after[i]).id == before[i].id by {}
    assert forall|i: int| 0 <= i < index implies (#[trigger] after[i]).id != id by {
        assert(before[i].id != id);
    }
    assert(after[index].id == id);
    crate::workspace::position_unique(after, id, index);
    if other != id {
        match position(before, other) {
            Some(at) => {
                assert forall|i: int| 0 <= i < at implies (#[trigger] after[i]).id != other by {
                    assert(before[i].id != other);
                }
                assert(after[at].id == other);
                crate::workspace::position_unique(after, other, at);
            },
            None => {
                match position(after, other) {
                    Some(at) => {
                        assert(before[at].id == other);
                    },
                    None => {},
                }
            },
        }
    }
}

/// The process that an occurrence leads to is the one of that id.
proof fn its_entry_is_counted(processes: Seq<Process>, panes: Seq<PaneModel>, process: Process)
    requires
        position(processes, process.id) is Some,
        processes[position(processes, process.id)->0] == process,
        process.origin == ProcessOrigin::Configured,
        !crate::pane::pane_retiring(panes, process.id),
    ensures
        crate::app::entries::occurrence_of(processes, panes, process.identity(), process.id)
            is Some,
        crate::app::entries::occurrence_of(
            processes,
            panes,
            process.identity(),
            process.id,
        )->0 <= processes.len(),
        process_for(
            processes,
            panes,
            process.identity(),
            crate::app::entries::occurrence_of(
                processes,
                panes,
                process.identity(),
                process.id,
            )->0,
        ) == Some(process),
    decreases processes.len(),
{
    let target = process.identity();
    let id = process.id;
    position_is_the_first(processes, id);
    let index = position(processes, id)->0;
    if index < processes.len() - 1 {
        let rest = processes.drop_last();
        assert(rest[index] == process);
        assert forall|i: int| 0 <= i < index implies (#[trigger] rest[i]).id != id by {
            assert(processes[i].id != id);
        }
        crate::workspace::position_unique(rest, id, index);
        its_entry_is_counted(rest, panes, process);
        let number = crate::app::entries::occurrence_of(rest, panes, target, id)->0;
        let flags = standing_for(processes, panes, target);
        assert(flags.drop_last() =~= standing_for(rest, panes, target));
        crate::config::nth_set_is_the_nth(flags.drop_last(), number);
    } else {
        let rest = processes.drop_last();
        assert forall|i: int| 0 <= i < rest.len() implies (#[trigger] rest[i]).id != id by {
            assert(processes[i].id != id);
        }
        not_counted(rest, panes, target, id);
        let flags = standing_for(processes, panes, target);
        assert(flags.drop_last() =~= standing_for(rest, panes, target));
        assert(flags.last());
        crate::config::nth_set_is_the_nth(
            flags.drop_last(),
            crate::config::count_set(flags.drop_last()),
        );
        counts_are_bounded(flags.drop_last());
    }
}

proof fn counts_are_bounded(flags: Seq<bool>)
    ensures
        crate::config::count_set(flags) <= flags.len(),
    decreases flags.len(),
{
    if flags.len() > 0 {
        counts_are_bounded(flags.drop_last());
    }
}

proof fn not_counted(processes: Seq<Process>, panes: Seq<PaneModel>, target: Identity, id: PaneId)
    requires
        forall|i: int| 0 <= i < processes.len() ==> (#[trigger] processes[i]).id != id,
    ensures
        crate::app::entries::occurrence_of(processes, panes, target, id) is None,
    decreases processes.len(),
{
    if processes.len() > 0 {
        let rest = processes.drop_last();
        assert forall|i: int| 0 <= i < rest.len() implies (#[trigger] rest[i]).id != id by {
            assert(rest[i] == processes[i]);
        }
        not_counted(rest, panes, target, id);
        assert(processes[processes.len() - 1].id != id);
    }
}

/// `t` on a conversation changes nothing: open ones come back by themselves.
pub proof fn a_conversation_has_no_start_of_its_own(app: AppModel, process: Process, now: Moment)
    requires
        in_sidebar(app),
        app.catalog.cursor is None,
        app.catalog.current is Some,
        app.roster.selected_process() == Some(process),
        process.origin == ProcessOrigin::Session,
    ensures
        pressed(app, KeyCode::Char('t'), now).outbox == app.outbox,
        pressed(app, KeyCode::Char('t'), now).roster == app.roster,
        pressed(app, KeyCode::Char('t'), now).feedback.notice == Some(Message::SessionAutostart),
{
    reveal(AppModel::sidebar_key);
    reveal(AppModel::autostart_toggling);
    sidebar_presses(app, KeyCode::Char('t'), now);
}

/// `d` on a configured process asks first, by its kind and its name; what it asks
/// about is the entry of exactly that process in the current project.
pub proof fn a_deletion_is_confirmed_for_that_process(
    app: AppModel,
    place: Location,
    process: Process,
    now: Moment,
)
    requires
        in_sidebar(app),
        app.catalog.cursor is None,
        app.catalog.current == Some(place),
        app.roster.selected_process() == Some(process),
        process.origin == ProcessOrigin::Configured,
        app.roster.process(process.id) == Some(process),
        !crate::pane::pane_retiring(app.panes, process.id),
        app.roster.processes.len() <= usize::MAX,
    ensures
        ({
            let shown = pressed(app, KeyCode::Char('d'), now);
            let asked = shown.overlay->0;
            &&& shown.overlay is Some
            &&& asked is ConfirmProcessRemoval
            &&& asked->ConfirmProcessRemoval_prompt == (Prompt::DeleteProcess {
                kind: process.kind,
                name: process.name,
            })
            &&& asked->ConfirmProcessRemoval_place == place
            &&& names_entry(asked->ConfirmProcessRemoval_target, process)
            &&& process_for(
                app.roster.processes,
                app.panes,
                asked->ConfirmProcessRemoval_target@,
                asked->ConfirmProcessRemoval_occurrence as nat,
            ) == Some(process)
            &&& shown.outbox == app.outbox
            &&& shown.roster == app.roster
        }),
{
    reveal(AppModel::sidebar_key);
    reveal(AppModel::delete_confirmation);
    sidebar_presses(app, KeyCode::Char('d'), now);
    its_entry_is_counted(app.roster.processes, app.panes, process);
}

/// A confirmed deletion asks the host to remove that entry from that project, and
/// only while the project is still the current one.
pub proof fn a_confirmed_deletion_removes_that_entry(
    app: AppModel,
    prompt: Prompt,
    target: ProcessSpecMatcher,
    occurrence: usize,
    place: Location,
    code: KeyCode,
    now: Moment,
)
    requires
        app.overlay == Some(
            OverlayModel::ConfirmProcessRemoval { prompt, target, occurrence, place },
        ),
        code == KeyCode::Enter || code == KeyCode::Char('y'),
    ensures
        ({
            let after = pressed(app, code, now);
            let current = app.catalog.current is Some && same_place(
                app.catalog.current->0,
                place,
            );
            &&& after.overlay is None
            &&& after.roster == app.roster
            &&& current ==> after.outbox == app.outbox.push(
                EffectModel::Plain(Effect::RemoveEntry { place, target, occurrence }),
            ) && after.waiting == app.waiting.push(Task::EntryRemoved { target, occurrence })
            &&& !current ==> after.outbox == app.outbox && after.feedback.notice == Some(
                Message::DeleteProjectChanged,
            )
            &&& pressed(app, KeyCode::Esc, now) == fresh(app).with_overlay(None)
            &&& pressed(app, KeyCode::Char('n'), now) == fresh(app).with_overlay(None)
        }),
{
    reveal(AppModel::handled);
    reveal(AppModel::input_handled);
    reveal(AppModel::key_handled);
    reveal(AppModel::confirm_key);
    reveal(AppModel::confirmed);
    reveal(AppModel::entry_removing);
    reveal(AppModel::overlay_closed);
}

/// Once the entry is removed, its process is asked to stop where it still runs, and
/// the sidebar has the keys; an entry that was not there, or a config that could
/// not be written, leaves everything as it was.
pub proof fn a_deleted_process_is_stopped(
    later: AppModel,
    target: ProcessSpecMatcher,
    occurrence: usize,
    process: Process,
    config: WorkspaceConfig,
    error: String,
    now: Moment,
)
    requires
        later.waiting.len() > 0,
        later.waiting[0] == (Task::EntryRemoved { target, occurrence }),
        process_for(later.roster.processes, later.panes, target@, occurrence as nat) == Some(
            process,
        ),
        later.roster.process(process.id) == Some(process),
        later.life(process.id) is Some,
        later.life(process.id)->0.alive,
        later.life(process.id)->0.exit_intent == crate::process::ExitIntent::FollowPolicy,
        process.stop is None,
        process.kind != ProcessKind::Command,
    ensures
        ({
            let done = told(later, Reply::Edited(Ok((config, true))), now);
            let missed = told(later, Reply::Edited(Ok((config, false))), now);
            let failed = told(later, Reply::Edited(Err(error)), now);
            &&& done.focus == Focus::Sidebar
            &&& done.outbox.len() > later.outbox.len()
            &&& done.outbox[later.outbox.len() as int] == EffectModel::Plain(
                Effect::Kill(process.id),
            )
            &&& missed.roster == later.roster && missed.outbox == later.outbox
            &&& missed.feedback.notice == Some(Message::DeleteEntryGone)
            &&& failed.roster == later.roster && failed.outbox == later.outbox
            &&& failed.feedback.notice == Some(Message::WorkspaceSave)
        }),
{
    let task = Task::EntryRemoved { target, occurrence };
    let taken = AppModel { waiting: later.waiting.skip(1), ..later };
    let back = taken.focused(Focus::Sidebar);
    let stopping = back.deleted_stopping(process.id, now);
    assert(stopping.outbox == later.outbox.push(EffectModel::Plain(Effect::Kill(process.id))));
    assert(stopping.focus == Focus::Sidebar);
    a_reload_sends_nothing(stopping, config@);
    assert(told(later, Reply::Edited(Ok((config, true))), now) == stopping.reconciled_with(
        config@,
    ).recovering()) by {
        reveal(AppModel::entry_answered);
        reveal(AppModel::removal_answered);
        answers_arrive(later, task, Reply::Edited(Ok((config, true))), now);
    }
    recovering_appends(stopping.reconciled_with(config@));
    assert(told(later, Reply::Edited(Ok((config, false))), now) == taken.noted(
        Message::DeleteEntryGone,
        now,
    )) by {
        reveal(AppModel::entry_answered);
        reveal(AppModel::removal_answered);
        answers_arrive(later, task, Reply::Edited(Ok((config, false))), now);
    }
    assert(told(later, Reply::Edited(Err(error)), now) == taken.noted(
        Message::WorkspaceSave,
        now,
    )) by {
        reveal(AppModel::entry_answered);
        reveal(AppModel::removal_answered);
        answers_arrive(later, task, Reply::Edited(Err(error)), now);
    }
}

proof fn a_reload_sends_nothing(app: AppModel, config: Sections)
    ensures
        app.reconciled_with(config).outbox == app.outbox,
        app.reconciled_with(config).focus == app.focus,
{
}

proof fn recovering_appends(app: AppModel)
    ensures
        app.recovering().focus == app.focus,
        app.outbox.len() <= app.recovering().outbox.len(),
        forall|i: int|
            0 <= i < app.outbox.len() ==> #[trigger] app.recovering().outbox[i] == app.outbox[i],
{
    reveal(AppModel::recovering);
}

/// An appended entry is shown from the config as it was written, its form is gone,
/// and its process is queued to start where it starts by itself.
pub proof fn an_appended_entry_is_shown_and_started(
    later: AppModel,
    kind: ProcessKind,
    config: WorkspaceConfig,
    spec: ProcessSpec,
    occurrence: usize,
    now: Moment,
)
    requires
        later.waiting.len() > 0,
        later.waiting[0] == Task::Appended(kind),
    ensures
        ({
            let done = told(later, Reply::Appended(Ok((config, spec, occurrence))), now);
            let row = process_for(
                done.roster.processes,
                done.panes,
                spec.identity(kind),
                occurrence as nat,
            );
            let starts = row is Some && row->0.autostart && !row->0.state.active();
            &&& done.overlay is None
            &&& done.outbox == later.outbox
            &&& done.roster == crate::reconcile::reconciled(
                later.roster,
                config@,
                alive_panes(later.panes),
                later.ledger.deleted,
            )
            &&& starts ==> done.agenda == later.agenda.push(
                Task::Launch { pane: row->0.id, purpose: LaunchPurpose::Automatic },
            ).push(Task::LinkAgents)
            &&& !starts ==> done.agenda == later.agenda.push(Task::LinkAgents)
        }),
{
    reveal(AppModel::entry_answered);
    reveal(AppModel::append_answered);
    answers_arrive(
        later,
        Task::Appended(kind),
        Reply::Appended(Ok((config, spec, occurrence))),
        now,
    );
}

/// A changed config is taken over when it is the current project's and can be read:
/// then every entry of it has a row, the agents are linked next, and nothing is
/// sent. Any other change is ignored.
pub proof fn a_changed_config_is_taken_over(
    app: AppModel,
    path: String,
    config: WorkspaceConfig,
    error: String,
    id: Identity,
    now: Moment,
)
    requires
        app.catalog.current is Some,
        app.ledger.deleted.len() == 0,
    ensures
        ({
            let after = app.handled(RuntimeEvent::ConfigChanged { path, config: Ok(config) }, now);
            let current = same_path(app.catalog.current->0.normalized@, path@);
            &&& current ==> configured_count(after.roster.processes, id) >= entry_count(
                config@.entries(),
                id,
            )
            &&& current ==> after.agenda == app.agenda.push(Task::LinkAgents)
            &&& current ==> after.outbox == app.outbox && after.waiting == app.waiting
            &&& !current ==> after == app
            &&& app.handled(RuntimeEvent::ConfigChanged { path, config: Err(error) }, now) == app
        }),
{
    reveal(AppModel::handled);
    reveal(AppModel::config_changed);
    crate::reconcile::a_reload_lists_every_entry(
        app.roster,
        config@,
        alive_panes(app.panes),
        id,
    );
    assert(app.ledger.deleted =~= Seq::<PaneId>::empty());
}

/// A process that a changed config no longer lists goes when it is over: one that
/// does not run leaves the workspace with its pane, and one that runs stays until
/// it exits, marked to go then.
pub proof fn an_unlisted_process_goes_when_it_is_over(
    app: AppModel,
    config: Sections,
    i: int,
)
    requires
        app.roster.orderly(),
        0 <= i < app.roster.processes.len(),
        app.roster.processes[i].origin == ProcessOrigin::Configured,
        app.ledger.deleted.contains(app.roster.processes[i].id) || entry_count(
            config.entries(),
            app.roster.processes[i].identity(),
        ) == 0,
    ensures
        ({
            let process = app.roster.processes[i];
            let after = app.reconciled_with(config);
            let runs = alive_panes(app.panes).contains(process.id);
            &&& runs ==> after.roster.processes.contains(process)
            &&& runs && app.life(process.id) is Some ==> life_of(after.panes, process.id) == Some(
                PaneLife {
                    membership: ConfigMembership::RetireOnExit,
                    ..app.life(process.id)->0
                },
            )
            &&& !runs ==> !sweep(
                app.roster.processes,
                config.entries(),
                alive_panes(app.panes),
                app.ledger.deleted,
            ).kept.contains(process)
        }),
{
    let process = app.roster.processes[i];
    let live = alive_panes(app.panes);
    let deleted = app.ledger.deleted;
    let entries = config.entries();
    let swept = sweep(app.roster.processes, entries, live, deleted);
    crate::reconcile::a_sweep_sorts_the_processes(app.roster.processes, entries, live, deleted, i);
    assert((crate::workspace::Roster { processes: app.roster.processes, selected: 0 }).orderly());
    if live.contains(process.id) {
        crate::reconcile::running_processes_and_sessions_survive(
            app.roster,
            config,
            live,
            deleted,
            i,
        );
        let listed = with_membership(app.panes, ids_of(swept.matched), ConfigMembership::Listed);
        members_are_marked(
            app.panes,
            ids_of(swept.matched),
            ConfigMembership::Listed,
            process.id,
        );
        members_are_marked(listed, swept.retiring, ConfigMembership::RetireOnExit, process.id);
        let marked = with_membership(listed, swept.retiring, ConfigMembership::RetireOnExit);
        if swept.removed.contains(process.id) {
            crate::reconcile::only_stopped_configured_processes_go(
                app.roster.processes,
                entries,
                live,
                deleted,
                process.id,
            );
        }
        others_stay(marked, swept.removed, process.id);
    } else {
        crate::reconcile::a_removed_process_is_not_kept(
            app.roster.processes,
            entries,
            live,
            deleted,
            i,
        );
    }
}

/// Marking panes changes the mark of exactly those panes.
pub proof fn members_are_marked(
    panes: Seq<PaneModel>,
    ids: Seq<PaneId>,
    membership: ConfigMembership,
    id: PaneId,
)
    ensures
        ({
            let after = with_membership(panes, ids, membership);
            &&& !ids.contains(id) ==> pane_of(after, id) == pane_of(panes, id)
            &&& ids.contains(id) && life_of(panes, id) is Some ==> life_of(after, id) == Some(
                PaneLife { membership, ..life_of(panes, id)->0 },
            )
            &&& life_of(panes, id) is None ==> life_of(after, id) is None
        }),
    decreases ids.len(),
{
    if ids.len() > 0 {
        let rest = ids.drop_last();
        members_are_marked(panes, rest, membership, id);
        let before = with_membership(panes, rest, membership);
        let last = ids.last();
        if !ids.contains(id) {
            assert(!rest.contains(id)) by {
                if rest.contains(id) {
                    let k = choose|k: int| 0 <= k < rest.len() && rest[k] == id;
                    assert(ids[k] == id);
                }
            }
            assert(last != id) by {
                assert(ids[ids.len() - 1] == last);
            }
        } else if last != id {
            let k = choose|k: int| 0 <= k < ids.len() && ids[k] == id;
            assert(rest[k] == id);
            assert(rest.contains(id));
        }
        match life_of(before, last) {
            Some(life) => {
                a_lifetime_change_touches_one_pane(
                    before,
                    last,
                    PaneLife { membership, ..life },
                    id,
                );
            },
            None => {},
        }
    }
}

proof fn others_stay(panes: Seq<PaneModel>, ids: Seq<PaneId>, id: PaneId)
    requires
        !ids.contains(id),
    ensures
        pane_of(without_panes(panes, ids), id) == pane_of(panes, id),
    decreases ids.len(),
{
    if ids.len() > 0 {
        let rest = ids.drop_last();
        assert(!rest.contains(id)) by {
            if rest.contains(id) {
                let k = choose|k: int| 0 <= k < rest.len() && rest[k] == id;
                assert(ids[k] == id);
            }
        }
        assert(ids.last() != id) by {
            assert(ids[ids.len() - 1] == ids.last());
        }
        others_stay(panes, rest, id);
        let before = without_panes(panes, rest);
        let gone = PaneModel { id: ids.last(), ..before[0] };
        panes_are_put_and_removed(before, gone, id);
    }
}

/// The rows that start by themselves are launched in the order of the sidebar.
pub proof fn rows_are_launched_in_order(first: Seq<Process>, second: Seq<Process>, process: Process)
    ensures
        crate::app::agents::row_launches(first + second) == crate::app::agents::row_launches(second)
            + crate::app::agents::row_launches(first),
        process.autostart ==> crate::app::agents::row_launches(seq![process]) == seq![
            Task::Launch { pane: process.id, purpose: LaunchPurpose::Automatic },
        ],
        !process.autostart ==> crate::app::agents::row_launches(seq![process]).len() == 0,
    decreases first.len(),
{
    reveal_with_fuel(crate::app::agents::row_launches, 2);
    let all = first + second;
    assert(seq![process].drop_first() =~= Seq::<Process>::empty());
    if process.autostart {
        assert(crate::app::agents::row_launches(seq![process]) =~= seq![
            Task::Launch { pane: process.id, purpose: LaunchPurpose::Automatic },
        ]);
    }
    if first.len() == 0 {
        assert(all =~= second);
        assert(crate::app::agents::row_launches(second) + crate::app::agents::row_launches(first)
            =~= crate::app::agents::row_launches(second));
    } else {
        assert(all.drop_first() =~= first.drop_first() + second);
        rows_are_launched_in_order(first.drop_first(), second, process);
        assert(crate::app::agents::row_launches(all)
            =~= crate::app::agents::row_launches(second) + crate::app::agents::row_launches(first));
    }
}

/// The start of a workspace launches its rows, and links its agents.
pub proof fn a_start_launches_the_rows(app: AppModel, now: Moment)
    requires
        app.waiting.len() == 0,
        app.agenda.len() > 0,
    ensures
        app.agenda.last() == Task::LaunchRows ==> app.progressed(now) == (AppModel {
            agenda: app.agenda.drop_last() + crate::app::agents::row_launches(
                app.roster.processes,
            ),
            ..app
        }),
        app.agenda.last() == Task::LinkAgents && app.catalog.current is Some && app.world.has_store
            ==> app.progressed(now) == (AppModel {
            agenda: app.agenda.drop_last() + crate::app::agents::link_tasks(
                app.roster.processes,
                app.panes,
            ),
            ..app
        }),
{
    reveal(AppModel::done);
    reveal(AppModel::launching_rows);
    reveal(AppModel::linking);
}

/// A process that is already going cannot be deleted again, nor its start switched.
pub proof fn a_going_process_is_left_alone(app: AppModel, process: Process, now: Moment)
    requires
        in_sidebar(app),
        app.catalog.cursor is None,
        app.catalog.current is Some,
        app.roster.selected_process() == Some(process),
        process.origin == ProcessOrigin::Configured,
        crate::pane::pane_retiring(app.panes, process.id),
    ensures
        ({
            let deleted = pressed(app, KeyCode::Char('d'), now);
            let switched = pressed(app, KeyCode::Char('t'), now);
            &&& deleted.overlay is None && deleted.outbox == app.outbox
            &&& deleted.feedback.notice == Some(Message::DeleteAlreadyRetiring)
            &&& switched.outbox == app.outbox && switched.roster == app.roster
            &&& switched.feedback.notice == Some(Message::AutostartUntracked)
        }),
{
    reveal(AppModel::sidebar_key);
    reveal(AppModel::delete_confirmation);
    reveal(AppModel::autostart_toggling);
    sidebar_presses(app, KeyCode::Char('d'), now);
    sidebar_presses(app, KeyCode::Char('t'), now);
    going_is_not_counted(app.roster.processes, app.panes, process.identity(), process.id);
}

proof fn going_is_not_counted(
    processes: Seq<Process>,
    panes: Seq<PaneModel>,
    target: Identity,
    id: PaneId,
)
    requires
        crate::pane::pane_retiring(panes, id),
    ensures
        crate::app::entries::occurrence_of(processes, panes, target, id) is None,
    decreases processes.len(),
{
    if processes.len() > 0 {
        going_is_not_counted(processes.drop_last(), panes, target, id);
    }
}

/// A deleted process is remembered as such, so that no equal entry stands for it
/// again.
pub proof fn a_deleted_process_is_remembered(app: AppModel, pane: PaneId, now: Moment)
    ensures
        app.deleted_stopping(pane, now).ledger.deleted.contains(pane),
        app.deleted_stopping(pane, now).roster == app.roster,
        !app.alive(pane) ==> app.deleted_stopping(pane, now).outbox == app.outbox,
{
    if !app.ledger.deleted.contains(pane) {
        assert(app.ledger.deleted.push(pane)[app.ledger.deleted.len() as int] == pane);
    }
}

/// A process whose entry is still in the config stays, and counts as listed again
/// where it was about to go.
pub proof fn a_listed_process_stays(app: AppModel, config: Sections, i: int)
    requires
        app.roster.orderly(),
        0 <= i < app.roster.processes.len(),
        app.roster.processes[i].origin == ProcessOrigin::Configured,
        app.ledger.deleted.len() == 0,
        entry_count(config.entries(), app.roster.processes[i].identity()) > 0,
        configured_count(app.roster.processes, app.roster.processes[i].identity()) == 1,
        app.life(app.roster.processes[i].id) is Some,
    ensures
        ({
            let process = app.roster.processes[i];
            let swept = sweep(
                app.roster.processes,
                config.entries(),
                alive_panes(app.panes),
                app.ledger.deleted,
            );
            &&& swept.kept.contains(process)
            &&& swept.matched.contains(process)
            &&& life_of(
                with_membership(app.panes, ids_of(swept.matched), ConfigMembership::Listed),
                process.id,
            ) == Some(
                PaneLife { membership: ConfigMembership::Listed, ..app.life(process.id)->0 },
            )
        }),
{
    let process = app.roster.processes[i];
    let live = alive_panes(app.panes);
    let swept = sweep(app.roster.processes, config.entries(), live, app.ledger.deleted);
    crate::reconcile::a_sweep_sorts_the_processes(
        app.roster.processes,
        config.entries(),
        live,
        app.ledger.deleted,
        i,
    );
    let k = choose|k: int| 0 <= k < swept.matched.len() && swept.matched[k] == process;
    assert(ids_of(swept.matched)[k] == process.id);
    members_are_marked(
        app.panes,
        ids_of(swept.matched),
        ConfigMembership::Listed,
        process.id,
    );
}

/// A process that a reload removes leaves nothing behind: neither its pane nor what
/// was counted of it.
pub proof fn a_removed_process_leaves_nothing(app: AppModel, config: Sections, id: PaneId)
    requires
        sweep(
            app.roster.processes,
            config.entries(),
            alive_panes(app.panes),
            app.ledger.deleted,
        ).removed.contains(id),
    ensures
        app.reconciled_with(config).ledger.generation(id) is None,
        app.reconciled_with(config).ledger.attempts_of(id) == 0,
        (forall|i: int, j: int|
            0 <= i < j < app.panes.len() ==> (#[trigger] app.panes[i]).id != (
            #[trigger] app.panes[j]).id) ==> pane_of(app.reconciled_with(config).panes, id) is None,
{
    let swept = sweep(
        app.roster.processes,
        config.entries(),
        alive_panes(app.panes),
        app.ledger.deleted,
    );
    retired_for_good(app.ledger, swept.removed, id);
    if forall|i: int, j: int|
        0 <= i < j < app.panes.len() ==> (#[trigger] app.panes[i]).id != (
        #[trigger] app.panes[j]).id {
        let listed = with_membership(app.panes, ids_of(swept.matched), ConfigMembership::Listed);
        let marked = with_membership(listed, swept.retiring, ConfigMembership::RetireOnExit);
        marking_keeps_the_numbers(app.panes, ids_of(swept.matched), ConfigMembership::Listed);
        marking_keeps_the_numbers(listed, swept.retiring, ConfigMembership::RetireOnExit);
        assert forall|i: int, j: int| 0 <= i < j < marked.len() implies (#[trigger] marked[i]).id
            != (#[trigger] marked[j]).id by {
            assert(listed[i].id != listed[j].id) by {
                assert(app.panes[i].id != app.panes[j].id);
            }
        }
        removed_panes_are_gone(marked, swept.removed, id);
    }
}

proof fn marking_keeps_the_numbers(
    panes: Seq<PaneModel>,
    ids: Seq<PaneId>,
    membership: ConfigMembership,
)
    ensures
        with_membership(panes, ids, membership).len() == panes.len(),
        forall|i: int|
            0 <= i < panes.len() ==> (#[trigger] with_membership(panes, ids, membership)[i]).id
                == panes[i].id,
    decreases ids.len(),
{
    if ids.len() > 0 {
        marking_keeps_the_numbers(panes, ids.drop_last(), membership);
        let before = with_membership(panes, ids.drop_last(), membership);
        crate::pane::pane_place_is_the_first(before, ids.last());
    }
}

proof fn retired_for_good(ledger: crate::ledger::LedgerModel, ids: Seq<PaneId>, id: PaneId)
    requires
        ids.contains(id),
    ensures
        crate::app::projects::retired_all(ledger, ids).generation(id) is None,
        crate::app::projects::retired_all(ledger, ids).attempts_of(id) == 0,
    decreases ids.len(),
{
    let rest = ids.drop_last();
    if ids.last() != id {
        let k = choose|k: int| 0 <= k < ids.len() && ids[k] == id;
        assert(rest[k] == id);
        assert(rest.contains(id));
        retired_for_good(ledger, rest, id);
    }
}

/// A pane that is taken out of panes with different numbers is found no more.
pub proof fn removed_panes_are_gone(panes: Seq<PaneModel>, ids: Seq<PaneId>, id: PaneId)
    requires
        ids.contains(id),
        forall|i: int, j: int|
            0 <= i < j < panes.len() ==> (#[trigger] panes[i]).id != (#[trigger] panes[j]).id,
    ensures
        pane_of(without_panes(panes, ids), id) is None,
        forall|i: int, j: int|
            0 <= i < j < without_panes(panes, ids).len() ==> (#[trigger] without_panes(
                panes,
                ids,
            )[i]).id != (#[trigger] without_panes(panes, ids)[j]).id,
    decreases ids.len(),
{
    let rest = ids.drop_last();
    let before = without_panes(panes, rest);
    stay_apart(panes, rest);
    crate::pane::pane_place_is_the_first(before, ids.last());
    let after = without_panes(panes, ids);
    crate::pane::pane_place_is_the_first(after, id);
    crate::pane::pane_place_is_the_first(before, id);
    stay_apart(panes, ids);
    if ids.last() == id {
        match crate::pane::pane_place(after, id) {
            Some(at) => {
                let gone = crate::pane::pane_place(before, id);
                match gone {
                    Some(index) => {
                        let from = if at < index {
                            at
                        } else {
                            at + 1
                        };
                        assert(after[at] == before[from]);
                        assert(before[from].id == before[index].id);
                    },
                    None => {},
                }
            },
            None => {},
        }
    } else {
        let k = choose|k: int| 0 <= k < ids.len() && ids[k] == id;
        assert(rest[k] == id);
        assert(rest.contains(id));
        removed_panes_are_gone(panes, rest, id);
        panes_are_put_and_removed(before, PaneModel { id: ids.last(), ..before[0] }, id);
    }
}

proof fn stay_apart(panes: Seq<PaneModel>, ids: Seq<PaneId>)
    requires
        forall|i: int, j: int|
            0 <= i < j < panes.len() ==> (#[trigger] panes[i]).id != (#[trigger] panes[j]).id,
    ensures
        forall|i: int, j: int|
            0 <= i < j < without_panes(panes, ids).len() ==> (#[trigger] without_panes(
                panes,
                ids,
            )[i]).id != (#[trigger] without_panes(panes, ids)[j]).id,
    decreases ids.len(),
{
    if ids.len() > 0 {
        let before = without_panes(panes, ids.drop_last());
        let after = without_panes(panes, ids);
        stay_apart(panes, ids.drop_last());
        crate::pane::pane_place_is_the_first(before, ids.last());
        match crate::pane::pane_place(before, ids.last()) {
            Some(index) => {
                assert forall|i: int, j: int| 0 <= i < j < after.len() implies (
                #[trigger] after[i]).id != (#[trigger] after[j]).id by {
                    let a = if i < index {
                        i
                    } else {
                        i + 1
                    };
                    let b = if j < index {
                        j
                    } else {
                        j + 1
                    };
                    assert(after[i] == before[a]);
                    assert(after[j] == before[b]);
                }
            },
            None => {},
        }
    }
}

} // verus!
