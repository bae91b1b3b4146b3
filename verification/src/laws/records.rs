//! Records: the entries of a config, the rows of a workspace, the names that are
//! given, and the registry of projects.

use vstd::prelude::*;
use vstd::string::*;
use crate::app::forms::tool_index;
use crate::config::{Identity, ProcessSpec, Sections};
use crate::ledger::LedgerModel;
use crate::location::{projects_elsewhere, registered, same_place, Project};
use crate::names::{
    configured_name, fallback_name, first_free, free_number, is_free, numbered_name, session_name,
};
use crate::process::{
    agent_tools, effective_stop, ActivityState, AgentTool, ExitOutcome, PaneId, Process, ProcessKind,
    ProcessOrigin, ProcessState, RestartPolicy, StopPolicy, StopSignal,
};
use crate::text::{decimal_text, trimmed};
use crate::workspace::{name_used, section_end, section_end_bounds, Roster};

verus! {

/// An appended entry is the last of its own section, and the other sections stay.
pub proof fn an_entry_is_appended_to_its_section(
    config: Sections,
    kind: ProcessKind,
    spec: ProcessSpec,
)
    ensures
        kind == ProcessKind::Agent ==> config.appended(kind, spec) == (Sections {
            agents: config.agents.push(spec),
            terminals: config.terminals,
            commands: config.commands,
        }),
        kind == ProcessKind::Terminal ==> config.appended(kind, spec) == (Sections {
            agents: config.agents,
            terminals: config.terminals.push(spec),
            commands: config.commands,
        }),
        kind == ProcessKind::Command ==> config.appended(kind, spec) == (Sections {
            agents: config.agents,
            terminals: config.terminals,
            commands: config.commands.push(spec),
        }),
{
}

/// An edit of one entry touches the entry that it names, counted among those that
/// say the same: taking it out closes the gap, and its start is set as asked. An
/// entry that is not there changes nothing.
pub proof fn an_edit_touches_the_named_entry(
    config: Sections,
    id: Identity,
    occurrence: nat,
    autostart: Option<bool>,
    i: int,
)
    requires
        0 <= i < config.section(id.kind).len(),
    ensures
        config.place_of(id, occurrence) == Some(i) ==> {
            let specs = config.section(id.kind);
            let without = config.without(id, occurrence).section(id.kind);
            let set = config.with_autostart(id, occurrence, autostart).section(id.kind);
            &&& specs[i].identity(id.kind) == id
            &&& without == specs.take(i) + specs.skip(i + 1)
            &&& set.len() == specs.len()
            &&& set[i] == (ProcessSpec { autostart, ..specs[i] })
        },
        config.place_of(id, occurrence) is None ==> config.without(id, occurrence) == config
            && config.with_autostart(id, occurrence, autostart) == config,
{
    let specs = config.section(id.kind);
    let flags = crate::config::spec_flags(id.kind, specs, id);
    crate::config::nth_set_is_the_nth(flags, occurrence);
    if config.place_of(id, occurrence) == Some(i) {
        assert(specs.remove(i) =~= specs.take(i) + specs.skip(i + 1));
    }
}

/// The first of several equal entries is the occurrence zero, the next one the
/// occurrence one, and so on.
pub proof fn equal_entries_are_counted_in_order(flags: Seq<bool>, i: int)
    requires
        0 <= i < flags.len(),
        flags[i],
    ensures
        crate::config::nth_set(flags, crate::config::count_set(flags.take(i))) == Some(i),
        crate::config::count_set(flags.take(0)) == 0,
        crate::config::count_set(flags.take(i + 1)) == crate::config::count_set(flags.take(i)) + 1,
    decreases flags.len(),
{
    assert(flags.take(i + 1).drop_last() =~= flags.take(i));
    let n = crate::config::count_set(flags.take(i));
    if i == flags.len() - 1 {
        assert(flags.drop_last() =~= flags.take(i));
        crate::config::nth_set_is_the_nth(flags.drop_last(), n);
    } else {
        let rest = flags.drop_last();
        assert(rest.take(i) =~= flags.take(i));
        assert(rest.take(i + 1) =~= flags.take(i + 1));
        equal_entries_are_counted_in_order(rest, i);
    }
}

/// What an entry is known by is everything that it says, with the defaults filled
/// in: no restart, a start unless it is a command, and for a command the stop by an
/// interrupt and five seconds.
pub proof fn an_entry_is_known_by_what_it_says(spec: ProcessSpec, kind: ProcessKind)
    ensures
        ({
            let id = spec.identity(kind);
            &&& id.kind == kind
            &&& id.name == spec.name@
            &&& id.command == crate::text::opt_text(spec.command)
            &&& id.working_dir == crate::text::opt_text(spec.working_dir)
            &&& spec.restart is None ==> id.restart == RestartPolicy::Never
            &&& spec.restart is Some ==> id.restart == spec.restart->0
            &&& spec.autostart is None ==> id.autostart == (kind != ProcessKind::Command)
            &&& spec.autostart is Some ==> id.autostart == spec.autostart->0
            &&& spec.stop is Some ==> id.stop == spec.stop
            &&& spec.stop is None && kind == ProcessKind::Command ==> id.stop == Some(
                StopPolicy { signal: StopSignal::Interrupt, grace_millis: 5_000 },
            )
            &&& spec.stop is None && kind != ProcessKind::Command ==> id.stop is None
        }),
{
}

/// A new row stands at the end of its section: agents first, then terminals, then
/// commands; the other rows keep their order.
pub proof fn a_new_row_ends_its_section(roster: Roster, process: Process, i: int)
    requires
        roster.orderly(),
        roster.processes.len() < usize::MAX,
        0 <= i < roster.processes.len(),
    ensures
        ({
            let after = roster.inserted(process).processes;
            let at = section_end(roster.processes, process.kind);
            let earlier = |other: ProcessKind| other == process.kind || other
                == ProcessKind::Agent || other == ProcessKind::Terminal && process.kind
                == ProcessKind::Command;
            &&& after.len() == roster.processes.len() + 1
            &&& after[at] == process
            &&& i < at ==> after[i] == roster.processes[i] && earlier(roster.processes[i].kind)
            &&& i >= at ==> after[i + 1] == roster.processes[i] && !earlier(
                roster.processes[i].kind,
            )
        }),
{
    section_end_bounds(roster.processes, process.kind);
    let at = section_end(roster.processes, process.kind);
    if i > at {
        assert(roster.processes[at].kind.rank() <= roster.processes[i].kind.rank());
    }
}

/// A number for a new pane is one more than the largest in use.
pub proof fn a_new_pane_gets_the_next_number(processes: Seq<Process>, i: int)
    requires
        0 <= i < processes.len(),
        forall|k: int| 0 <= k < processes.len() ==> (#[trigger] processes[k]).id <= processes[i].id,
        processes[i].id < u64::MAX,
    ensures
        crate::workspace::next_id(processes) == processes[i].id + 1,
        crate::workspace::next_id(Seq::empty()) == 0,
{
    crate::workspace::max_id_bounds(processes, i);
    largest_is_used(processes);
    let k = choose|k: int|
        0 <= k < processes.len() && (#[trigger] processes[k]).id == crate::workspace::max_id(
            processes,
        )->0;
    assert(processes[k].id <= processes[i].id);
}

proof fn largest_is_used(processes: Seq<Process>)
    requires
        processes.len() > 0,
    ensures
        crate::workspace::max_id(processes) is Some,
        exists|k: int|
            0 <= k < processes.len() && (#[trigger] processes[k]).id == crate::workspace::max_id(
                processes,
            )->0,
    decreases processes.len(),
{
    let rest = processes.drop_last();
    let last = processes.len() - 1;
    if rest.len() > 0 {
        largest_is_used(rest);
        let k = choose|k: int|
            0 <= k < rest.len() && (#[trigger] rest[k]).id == crate::workspace::max_id(rest)->0;
        assert(processes[k].id == rest[k].id);
    }
    assert(processes[last].id == processes.last().id);
}

/// The row that was selected stays selected when another row goes; when it goes
/// itself, the next one, or the new last one, is selected.
pub proof fn the_selection_outlives_a_row(roster: Roster, index: int)
    requires
        roster.orderly(),
        roster.selected < roster.processes.len() < usize::MAX,
        0 <= index < roster.processes.len(),
    ensures
        ({
            let after = roster.removed(roster.processes[index].id);
            &&& after.processes == roster.processes.take(index) + roster.processes.skip(index + 1)
            &&& index < roster.selected ==> after.selected == roster.selected - 1
            &&& index > roster.selected && roster.selected + 1 < roster.processes.len()
                ==> after.selected == roster.selected
            &&& index == roster.selected && roster.selected + 1 < roster.processes.len()
                ==> after.selected == roster.selected
            &&& index == roster.selected && roster.selected + 1 == roster.processes.len()
                && roster.selected > 0 ==> after.selected == roster.selected - 1
        }),
{
    let id = roster.processes[index].id;
    assert forall|k: int| 0 <= k < index implies (#[trigger] roster.processes[k]).id != id by {
        assert(roster.processes[k].id != roster.processes[index].id);
    }
    crate::workspace::position_unique(roster.processes, id, index);
    assert(roster.processes.remove(index) =~= roster.processes.take(index)
        + roster.processes.skip(index + 1));
}

/// A process is active while it runs, is paused, is stopping or is restarting; it
/// restarts as its policy says.
pub proof fn states_and_policies_mean_what_they_say(
    state: ProcessState,
    policy: RestartPolicy,
    outcome: ExitOutcome,
    kind: ProcessKind,
    stop: StopPolicy,
)
    ensures
        state.active() <==> state == ProcessState::Running || state == ProcessState::Paused || state
            == ProcessState::Stopping || state == ProcessState::Restarting,
        crate::process::restarts(policy, outcome) <==> policy == RestartPolicy::Always || policy
            == RestartPolicy::OnFailure && outcome == ExitOutcome::Failed,
        effective_stop(kind, Some(stop)) == Some(stop),
        effective_stop(ProcessKind::Command, None) == Some(
            StopPolicy { signal: StopSignal::Interrupt, grace_millis: 5_000 },
        ),
        effective_stop(ProcessKind::Agent, None) is None,
        effective_stop(ProcessKind::Terminal, None) is None,
{
}

/// A session is called by the first drawn name that is not blank and that no
/// process has; where there is none, by its tool and the first eight characters of
/// its id.
pub proof fn a_session_gets_the_first_free_name(
    names: Seq<String>,
    processes: Seq<Process>,
    label: Seq<char>,
    id: Seq<char>,
    k: int,
)
    requires
        0 <= k <= names.len(),
        forall|i: int|
            0 <= i < k ==> trimmed((#[trigger] names[i])@).len() == 0 || exists|j: int|
                0 <= j < processes.len() && (#[trigger] processes[j]).name@ == names[i]@,
        k < names.len() ==> trimmed(names[k]@).len() > 0 && forall|j: int|
            0 <= j < processes.len() ==> (#[trigger] processes[j]).name@ != names[k]@,
    ensures
        k < names.len() ==> session_name(names, processes, label, id) == names[k]@,
        k == names.len() && id.len() >= 8 ==> session_name(names, processes, label, id) == label
            + " "@ + id.take(8),
        k == names.len() && id.len() < 8 ==> session_name(names, processes, label, id) == label
            + " "@ + id,
        k < names.len() ==> configured_name(names, processes) == Some(names[k]@),
{
    free_name_found(names, processes, k);
    if id.len() == 8 {
        assert(id.take(8) =~= id);
    }
}

proof fn free_name_found(names: Seq<String>, processes: Seq<Process>, k: int)
    requires
        0 <= k <= names.len(),
        forall|i: int|
            0 <= i < k ==> trimmed((#[trigger] names[i])@).len() == 0 || exists|j: int|
                0 <= j < processes.len() && (#[trigger] processes[j]).name@ == names[i]@,
        k < names.len() ==> trimmed(names[k]@).len() > 0 && forall|j: int|
            0 <= j < processes.len() ==> (#[trigger] processes[j]).name@ != names[k]@,
    ensures
        k < names.len() ==> first_free(names, processes) == Some(names[k]),
        k == names.len() ==> first_free(names, processes) is None,
    decreases names.len(),
{
    if names.len() > 0 {
        if k > 0 {
            assert(!is_free(names[0]@, processes));
            let rest = names.drop_first();
            assert forall|i: int| 0 <= i < k - 1 implies trimmed((#[trigger] rest[i])@).len() == 0
                || exists|j: int|
                0 <= j < processes.len() && (#[trigger] processes[j]).name@ == rest[i]@ by {
                assert(rest[i] == names[i + 1]);
            }
            if k < names.len() {
                assert(rest[k - 1] == names[k]);
            }
            free_name_found(rest, processes, k - 1);
        } else {
            assert(is_free(names[0]@, processes));
        }
    }
}

/// A configured agent without a drawn name is called `Agent` and a number.
pub proof fn numbered_names_say_agent(number: nat)
    ensures
        numbered_name(number) == "Agent"@ + " "@ + decimal_text(number),
{
}

/// A registered project is the only one at its place, and stands last; the others
/// stay.
pub proof fn a_registered_project_stands_last(projects: Seq<Project>, project: Project, i: int)
    requires
        0 <= i < projects.len(),
    ensures
        registered(projects, project).last() == project,
        !same_place(projects[i].config, project.config) ==> registered(projects, project).contains(
            projects[i],
        ),
        forall|k: int|
            0 <= k < registered(projects, project).len() - 1 ==> !same_place(
                (#[trigger] registered(projects, project)[k]).config,
                project.config,
            ),
{
    let elsewhere = |other: Project| !same_place(other.config, project.config);
    let rest = projects.filter(elsewhere);
    let all = registered(projects, project);
    assert(all == rest.push(project));
    broadcast use vstd::seq_lib::group_filter_ensures;

    if elsewhere(projects[i]) {
        assert(rest.contains(projects[i]));
        let k = choose|k: int| 0 <= k < rest.len() && rest[k] == projects[i];
        assert(all[k] == projects[i]);
    }
    assert forall|k: int| 0 <= k < all.len() - 1 implies !same_place(
        (#[trigger] all[k]).config,
        project.config,
    ) by {
        assert(all[k] == rest[k]);
        assert(elsewhere(rest[k]));
    }
}

/// What is counted of a pane is counted for it alone: its run, its restarts and the
/// conversation that waits for it.
pub proof fn panes_are_counted_apart(
    ledger: LedgerModel,
    pane: PaneId,
    other: PaneId,
    attempts: u64,
    session: String,
)
    requires
        other != pane,
    ensures
        ledger.with_attempts(pane, attempts).attempts_of(pane) == attempts,
        ledger.with_attempts(pane, attempts).attempts_of(other) == ledger.attempts_of(other),
        ledger.without_attempts(pane).attempts_of(pane) == 0,
        ledger.without_attempts(pane).attempts_of(other) == ledger.attempts_of(other),
        ledger.with_reopen(pane, session).reopens[pane] == session,
        ledger.with_reopen(pane, session).reopens.contains_key(pane),
        !ledger.without_reopen(pane).reopens.contains_key(pane),
        ledger.retired(pane).generation(pane) is None,
        ledger.retired(pane).generation(other) == ledger.generation(other),
        ledger.retired(pane).attempts_of(pane) == 0,
        ledger.with_deleted(pane).deleted.contains(pane),
        ledger.next_generation(pane) == (match ledger.generation(pane) {
            Some(number) => if number == u64::MAX {
                0
            } else {
                (number + 1) as u64
            },
            None => 1,
        }),
{
    if !ledger.deleted.contains(pane) {
        assert(ledger.deleted.push(pane)[ledger.deleted.len() as int] == pane);
    }
}

/// A number that is given is free, and every smaller one is some process's name.
pub proof fn the_lowest_free_number_is_given(processes: Seq<Process>, from: nat, to: nat, number: nat)
    requires
        free_number(processes, from, to) == Some(number),
    ensures
        from <= number <= to,
        forall|i: int|
            0 <= i < processes.len() ==> (#[trigger] processes[i]).name@ != numbered_name(number),
        forall|smaller: nat|
            from <= smaller < number ==> exists|i: int|
                0 <= i < processes.len() && (#[trigger] processes[i]).name@
                    == #[trigger] numbered_name(smaller),
    decreases to + 1 - from,
{
    if name_used(processes, numbered_name(from)) {
        the_lowest_free_number_is_given(processes, from + 1, to, number);
    }
}

/// An entry becomes a row with what it says: its name, command and directory, its
/// provider where it is an agent, and what it says of restarts, starts and stops. The
/// row is no conversation and has not run.
pub proof fn a_row_is_what_its_entry_says(spec: ProcessSpec, id: PaneId, kind: ProcessKind)
    ensures
        ({
            let row = spec.as_process(id, kind);
            &&& row.id == id && row.kind == kind
            &&& row.name == spec.name
            &&& row.command == spec.command && row.working_dir == spec.working_dir
            &&& kind == ProcessKind::Agent ==> row.agent_tool == spec.agent_tool
            &&& kind != ProcessKind::Agent ==> row.agent_tool is None
            &&& spec.restart is Some ==> row.restart == spec.restart->0
            &&& spec.restart is None ==> row.restart == RestartPolicy::Never
            &&& spec.autostart is Some ==> row.autostart == spec.autostart->0
            &&& spec.autostart is None ==> row.autostart == (kind != ProcessKind::Command)
            &&& row.stop == spec.stop
            &&& row.agent_session_id is None && row.origin == ProcessOrigin::Configured
            &&& row.state == ProcessState::Pending && row.activity == ActivityState::Idle
        }),
{
}

/// A provider stands in the list of providers where its index says.
pub proof fn a_provider_stands_at_its_index(tool: AgentTool)
    ensures
        tool_index(tool) < agent_tools().len(),
        agent_tools()[tool_index(tool) as int] == tool,
{
}

/// A reload forgets the restarts in a row, the conversations to reopen and the panes
/// deleted by hand. A run that it finds is still told from an earlier one.
pub proof fn a_reload_forgets_what_was_pending(ledger: LedgerModel, pane: u64)
    ensures
        !ledger.reloaded().attempts.dom().contains(pane),
        !ledger.reloaded().reopens.dom().contains(pane),
        ledger.reloaded().deleted.len() == 0,
        ledger.reloaded().generations == ledger.generations,
        ledger.reloaded().next_scope == ledger.next_scope,
{
}

} // verus!
