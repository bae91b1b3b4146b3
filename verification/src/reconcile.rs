//! Bringing a running workspace in line with a changed configuration.

use vstd::prelude::*;
use crate::config::{Entry, Identity, ProcessSpecMatcher, Sections, WorkspaceConfig};
use crate::process::{PaneId, Process, ProcessOrigin};
use crate::workspace::{
    inserting_keeps_order, next_id, next_id_is_unused, position, position_is_the_first,
    section_end_bounds, Roster, Workspace,
};

verus! {

/// Returns whether `ids` holds `id`.
pub fn holds_id(ids: &Vec<PaneId>, id: PaneId) -> (held: bool)
    ensures
        held == ids@.contains(id),
{
    let mut i: usize = 0;
    while i < ids.len()
        invariant
            i <= ids@.len(),
            forall|j: int| 0 <= j < i ==> ids@[j] != id,
        decreases ids@.len() - i,
    {
        if ids[i] == id {
            return true;
        }
        i = i + 1;
    }
    false
}

/// The position of the first entry with the identity `id`.
pub open spec fn first_entry(entries: Seq<Entry>, id: Identity) -> Option<int>
    decreases entries.len(),
{
    if entries.len() == 0 {
        None
    } else {
        match first_entry(entries.drop_last(), id) {
            Some(index) => Some(index),
            None => if entries.last().identity() == id {
                Some(entries.len() - 1)
            } else {
                None
            },
        }
    }
}

/// The position found holds an entry with the identity; it is found exactly
/// when there is one.
proof fn first_entry_is_one(entries: Seq<Entry>, id: Identity)
    ensures
        first_entry(entries, id) matches Some(index) ==> 0 <= index < entries.len()
            && entries[index].identity() == id,
        first_entry(entries, id) is None ==> forall|i: int|
            0 <= i < entries.len() ==> (#[trigger] entries[i]).identity() != id,
    decreases entries.len(),
{
    if entries.len() > 0 {
        let rest = entries.drop_last();
        first_entry_is_one(rest, id);
        assert forall|i: int| 0 <= i < rest.len() implies entries[i] == rest[i] by {}
    }
}

/// Returns the position of the first entry with the matcher's identity.
fn find_entry(entries: &Vec<Entry>, matcher: &ProcessSpecMatcher) -> (found: Option<usize>)
    ensures
        match found {
            Some(index) => first_entry(entries@, matcher@) == Some(index as int),
            None => first_entry(entries@, matcher@) is None,
        },
        found matches Some(index) ==> index < entries@.len(),
{
    let mut found: Option<usize> = None;
    let mut i: usize = 0;
    while i < entries.len()
        invariant
            i <= entries@.len(),
            match found {
                Some(index) => first_entry(entries@.take(i as int), matcher@) == Some(index as int)
                    && index < i,
                None => first_entry(entries@.take(i as int), matcher@) is None,
            },
        decreases entries@.len() - i,
    {
        assert(entries@.take(i + 1).drop_last() =~= entries@.take(i as int));
        assert(entries@.take(i + 1).last() == entries@[i as int]);
        if found.is_none() {
            let other = ProcessSpecMatcher::of_spec(entries[i].kind, &entries[i].spec);
            if matcher.same(&other) {
                found = Some(i);
            }
        }
        i = i + 1;
    }
    assert(entries@.take(entries@.len() as int) =~= entries@);
    found
}

/// What a walk over the processes of a workspace makes of a configuration.
#[verifier::ext_equal]
pub struct Sweep {
    /// Processes that stay, in order and unchanged.
    pub kept: Seq<Process>,
    /// Those of them that an entry of the configuration stands for.
    pub matched: Seq<Process>,
    /// Those of them that go when they exit.
    pub retiring: Seq<PaneId>,
    /// Processes that go at once.
    pub removed: Seq<PaneId>,
    /// Entries that no process stands for yet.
    pub rest: Seq<Entry>,
}

/// What becomes of one process: a session stays; a configured process takes
/// the first free entry of its identity and stays; without one it stays until
/// it exits while it is alive, and goes at once when it is not. A process that
/// was deleted by hand takes no entry.
pub open spec fn sweep_one(
    before: Sweep,
    process: Process,
    live: Seq<PaneId>,
    deleted: Seq<PaneId>,
) -> Sweep {
    let free = first_entry(before.rest, process.identity());
    if process.origin == ProcessOrigin::Session {
        Sweep { kept: before.kept.push(process), ..before }
    } else if !deleted.contains(process.id) && free is Some {
        Sweep {
            kept: before.kept.push(process),
            matched: before.matched.push(process),
            rest: before.rest.remove(free->0),
            ..before
        }
    } else if live.contains(process.id) {
        Sweep {
            kept: before.kept.push(process),
            retiring: before.retiring.push(process.id),
            ..before
        }
    } else {
        Sweep { removed: before.removed.push(process.id), ..before }
    }
}

/// What becomes of all processes, in order.
pub open spec fn sweep(
    processes: Seq<Process>,
    entries: Seq<Entry>,
    live: Seq<PaneId>,
    deleted: Seq<PaneId>,
) -> Sweep
    decreases processes.len(),
{
    if processes.len() == 0 {
        Sweep {
            kept: Seq::empty(),
            matched: Seq::empty(),
            retiring: Seq::empty(),
            removed: Seq::empty(),
            rest: entries,
        }
    } else {
        sweep_one(
            sweep(processes.drop_last(), entries, live, deleted),
            processes.last(),
            live,
            deleted,
        )
    }
}

/// The position that stays selected: that of the process selected before,
/// where it is kept, else the same position, else the last.
pub open spec fn reselected(kept: Seq<Process>, before: Roster) -> usize {
    let followed = match before.selected_id() {
        Some(id) => position(kept, id),
        None => None,
    };
    match followed {
        Some(index) => index as usize,
        None => if before.selected < kept.len() {
            before.selected
        } else if kept.len() > 0 {
            (kept.len() - 1) as usize
        } else {
            0
        },
    }
}

/// The workspace with one pending process added for each entry, in order.
pub open spec fn with_entries(roster: Roster, rest: Seq<Entry>) -> Roster
    decreases rest.len(),
{
    if rest.len() == 0 {
        roster
    } else {
        let before = with_entries(roster, rest.drop_last());
        before.inserted(rest.last().spec.as_process(next_id(before.processes), rest.last().kind))
    }
}

/// The workspace that a reconciliation leads to.
pub open spec fn reconciled(
    before: Roster,
    config: Sections,
    live: Seq<PaneId>,
    deleted: Seq<PaneId>,
) -> Roster {
    let swept = sweep(before.processes, config.entries(), live, deleted);
    with_entries(
        Roster { processes: swept.kept, selected: reselected(swept.kept, before) },
        swept.rest,
    )
}

/// The identities of a list of processes.
pub open spec fn ids_of(processes: Seq<Process>) -> Seq<PaneId> {
    processes.map_values(|process: Process| process.id)
}

/// The outcome of a reconciliation.
pub struct Reconciliation {
    /// The workspace that it leads to.
    pub workspace: Workspace,
    /// Panes that an entry of the configuration stands for.
    pub matched: Vec<PaneId>,
    /// Panes that go when they exit.
    pub retiring: Vec<PaneId>,
    /// Panes that go at once.
    pub removed: Vec<PaneId>,
}

impl Reconciliation {
    /// Brings `workspace` in line with `config`. Panes in `live` have a child;
    /// panes in `deleted` were deleted by hand.
    pub fn apply(
        workspace: &Workspace,
        config: &WorkspaceConfig,
        live: &Vec<PaneId>,
        deleted: &Vec<PaneId>,
    ) -> (outcome: Reconciliation)
        ensures
            outcome.workspace@ == reconciled(workspace@, config@, live@, deleted@),
            ({
                let swept = sweep(workspace@.processes, config@.entries(), live@, deleted@);
                &&& outcome.matched@ == ids_of(swept.matched)
                &&& outcome.retiring@ == swept.retiring
                &&& outcome.removed@ == swept.removed
            }),
    {
        let ghost processes = workspace@.processes;
        let ghost entries = config@.entries();
        let mut rest = config.entries();
        let mut kept: Vec<Process> = Vec::new();
        let mut matched: Vec<PaneId> = Vec::new();
        let mut retiring: Vec<PaneId> = Vec::new();
        let mut removed: Vec<PaneId> = Vec::new();
        let mut i: usize = 0;
        while i < workspace.processes.len()
            invariant
                i <= processes.len(),
                processes == workspace@.processes,
                entries == config@.entries(),
                ({
                    let swept = sweep(processes.take(i as int), entries, live@, deleted@);
                    &&& kept@ == swept.kept
                    &&& matched@ == ids_of(swept.matched)
                    &&& retiring@ == swept.retiring
                    &&& removed@ == swept.removed
                    &&& rest@ == swept.rest
                }),
            decreases processes.len() - i,
        {
            assert(processes.take(i + 1).drop_last() =~= processes.take(i as int));
            assert(processes.take(i + 1).last() == processes[i as int]);
            let ghost before = sweep(processes.take(i as int), entries, live@, deleted@);
            let process = workspace.processes[i].copied();
            let id: PaneId = process.id;
            if process.origin == ProcessOrigin::Session {
                kept.push(process);
            } else {
                let matcher = ProcessSpecMatcher::of(&process);
                let free = if holds_id(deleted, id) {
                    None
                } else {
                    find_entry(&rest, &matcher)
                };
                match free {
                    Some(index) => {
                        let _ = rest.remove(index);
                        matched.push(id);
                        proof {
                            assert(ids_of(before.matched.push(process)) =~= ids_of(
                                before.matched,
                            ).push(id));
                        }
                        kept.push(process);
                    },
                    None => if holds_id(live, id) {
                        retiring.push(id);
                        kept.push(process);
                    } else {
                        removed.push(id);
                    },
                }
            }
            i = i + 1;
        }
        assert(processes.take(processes.len() as int) =~= processes);
        let selected: usize = reselect(&kept, workspace);
        let mut after = Workspace { processes: kept, selected };
        let ghost start = after@;
        let mut j: usize = 0;
        assert(rest@.take(0) =~= Seq::empty());
        while j < rest.len()
            invariant
                j <= rest@.len(),
                after@ == with_entries(start, rest@.take(j as int)),
            decreases rest@.len() - j,
        {
            assert(rest@.take(j + 1).drop_last() =~= rest@.take(j as int));
            let id: PaneId = after.next_pane_id();
            let process = rest[j].spec.to_process(id, rest[j].kind);
            let _ = after.insert_in_section(process);
            j = j + 1;
        }
        assert(rest@.take(rest@.len() as int) =~= rest@);
        Reconciliation { workspace: after, matched, retiring, removed }
    }
}

/// Returns the position that stays selected among the kept processes.
fn reselect(kept: &Vec<Process>, before: &Workspace) -> (selected: usize)
    ensures
        selected == reselected(kept@, before@),
{
    let followed = match before.selected_id() {
        Some(id) => position_in(kept, id),
        None => None,
    };
    match followed {
        Some(index) => index,
        None => if before.selected < kept.len() {
            before.selected
        } else if kept.len() > 0 {
            kept.len() - 1
        } else {
            0
        },
    }
}

/// Returns the position of the process `id` in a list.
fn position_in(processes: &Vec<Process>, id: PaneId) -> (found: Option<usize>)
    ensures
        match found {
            Some(index) => position(processes@, id) == Some(index as int),
            None => position(processes@, id) is None,
        },
{
    let mut i: usize = 0;
    while i < processes.len()
        invariant
            i <= processes@.len(),
            forall|j: int| 0 <= j < i ==> (#[trigger] processes@[j]).id != id,
        decreases processes@.len() - i,
    {
        if processes[i].id == id {
            proof {
                crate::workspace::position_unique(processes@, id, i as int);
            }
            return Some(i);
        }
        i = i + 1;
    }
    proof {
        position_is_the_first(processes@, id);
    }
    None
}

/// Adding processes for entries keeps those that were there.
proof fn adding_keeps(roster: Roster, rest: Seq<Entry>, process: Process)
    requires
        roster.processes.contains(process),
    ensures
        with_entries(roster, rest).processes.contains(process),
    decreases rest.len(),
{
    if rest.len() > 0 {
        adding_keeps(roster, rest.drop_last(), process);
        let before = with_entries(roster, rest.drop_last());
        let added = rest.last().spec.as_process(next_id(before.processes), rest.last().kind);
        insertion_keeps(before, added, process);
    }
}

/// Inserting one process keeps those that were there, and itself is there.
proof fn insertion_keeps(before: Roster, added: Process, process: Process)
    ensures
        before.processes.contains(process) ==> before.inserted(added).processes.contains(process),
        before.inserted(added).processes.contains(added),
{
    section_end_bounds(before.processes, added.kind);
    let index = crate::workspace::section_end(before.processes, added.kind);
    let after = before.inserted(added).processes;
    assert(after[index] == added);
    if before.processes.contains(process) {
        let i = choose|i: int| 0 <= i < before.processes.len() && before.processes[i] == process;
        if i < index {
            assert(after[i] == process);
        } else {
            assert(after[i + 1] == process);
        }
    }
}

/// A sweep keeps every session and every live process.
proof fn sweep_keeps(
    processes: Seq<Process>,
    entries: Seq<Entry>,
    live: Seq<PaneId>,
    deleted: Seq<PaneId>,
    i: int,
)
    requires
        0 <= i < processes.len(),
        processes[i].origin == ProcessOrigin::Session || live.contains(processes[i].id),
    ensures
        sweep(processes, entries, live, deleted).kept.contains(processes[i]),
    decreases processes.len(),
{
    let before = sweep(processes.drop_last(), entries, live, deleted);
    let after = sweep(processes, entries, live, deleted);
    if i < processes.len() - 1 {
        sweep_keeps(processes.drop_last(), entries, live, deleted, i);
        let j = choose|j: int| 0 <= j < before.kept.len() && before.kept[j] == processes[i];
        assert(after.kept[j] == processes[i]);
    } else {
        assert(after.kept.last() == processes[i]);
    }
}

/// Reloading a configuration leaves running processes and agent sessions
/// untouched: each of them is in the new workspace exactly as it was in the
/// old one.
pub proof fn running_processes_and_sessions_survive(
    before: Roster,
    config: Sections,
    live: Seq<PaneId>,
    deleted: Seq<PaneId>,
    i: int,
)
    requires
        0 <= i < before.processes.len(),
        before.processes[i].origin == ProcessOrigin::Session || live.contains(
            before.processes[i].id,
        ),
    ensures
        reconciled(before, config, live, deleted).processes.contains(before.processes[i]),
{
    let swept = sweep(before.processes, config.entries(), live, deleted);
    sweep_keeps(before.processes, config.entries(), live, deleted, i);
    adding_keeps(
        Roster { processes: swept.kept, selected: reselected(swept.kept, before) },
        swept.rest,
        before.processes[i],
    );
}

/// How many entries have the identity `id`.
pub open spec fn entry_count(entries: Seq<Entry>, id: Identity) -> nat
    decreases entries.len(),
{
    if entries.len() == 0 {
        0
    } else {
        entry_count(entries.drop_last(), id) + if entries.last().identity() == id {
            1nat
        } else {
            0nat
        }
    }
}

/// How many processes have the identity `id`.
pub open spec fn process_count(processes: Seq<Process>, id: Identity) -> nat
    decreases processes.len(),
{
    if processes.len() == 0 {
        0
    } else {
        process_count(processes.drop_last(), id) + if processes.last().identity() == id {
            1nat
        } else {
            0nat
        }
    }
}

/// Taking an entry out lowers the count of its identity by one and no other.
proof fn removing_counts(entries: Seq<Entry>, index: int, id: Identity)
    requires
        0 <= index < entries.len(),
    ensures
        entry_count(entries, id) == entry_count(entries.remove(index), id) + if entries[index].identity()
            == id {
            1nat
        } else {
            0nat
        },
    decreases entries.len(),
{
    let rest = entries.drop_last();
    if index == entries.len() - 1 {
        assert(entries.remove(index) =~= rest);
    } else {
        removing_counts(rest, index, id);
        assert(entries.remove(index).drop_last() =~= rest.remove(index));
        assert(entries.remove(index).last() == entries.last());
    }
}

/// Pushing a process raises the count of its identity by one and no other.
proof fn pushing_counts(processes: Seq<Process>, process: Process, id: Identity)
    ensures
        process_count(processes.push(process), id) == process_count(processes, id)
            + if process.identity() == id {
            1nat
        } else {
            0nat
        },
{
    assert(processes.push(process).drop_last() =~= processes);
}

/// Every entry of a configuration is stood for exactly once: for each identity,
/// the processes that took an entry and the entries that are still to become
/// processes add up to the entries of the configuration.
pub proof fn every_entry_is_stood_for_once(
    processes: Seq<Process>,
    entries: Seq<Entry>,
    live: Seq<PaneId>,
    deleted: Seq<PaneId>,
    id: Identity,
)
    ensures
        ({
            let swept = sweep(processes, entries, live, deleted);
            process_count(swept.matched, id) + entry_count(swept.rest, id) == entry_count(
                entries,
                id,
            )
        }),
    decreases processes.len(),
{
    if processes.len() > 0 {
        let process = processes.last();
        every_entry_is_stood_for_once(processes.drop_last(), entries, live, deleted, id);
        let before = sweep(processes.drop_last(), entries, live, deleted);
        let free = first_entry(before.rest, process.identity());
        first_entry_is_one(before.rest, process.identity());
        if process.origin != ProcessOrigin::Session && !deleted.contains(process.id)
            && free is Some {
            removing_counts(before.rest, free->0, id);
            pushing_counts(before.matched, process, id);
        }
    }
}

/// How many configured processes have the identity `id`.
pub open spec fn configured_count(processes: Seq<Process>, id: Identity) -> nat
    decreases processes.len(),
{
    if processes.len() == 0 {
        0
    } else {
        configured_count(processes.drop_last(), id) + if processes.last().origin
            == ProcessOrigin::Configured && processes.last().identity() == id {
            1nat
        } else {
            0nat
        }
    }
}

/// A count of zero says that no entry has the identity.
proof fn no_entry_counts_zero(entries: Seq<Entry>, id: Identity)
    requires
        forall|i: int| 0 <= i < entries.len() ==> (#[trigger] entries[i]).identity() != id,
    ensures
        entry_count(entries, id) == 0,
    decreases entries.len(),
{
    if entries.len() > 0 {
        no_entry_counts_zero(entries.drop_last(), id);
        assert(entries.last() == entries[entries.len() - 1]);
    }
}

/// An entry counts towards its identity.
proof fn an_entry_counts(entries: Seq<Entry>, index: int)
    requires
        0 <= index < entries.len(),
    ensures
        entry_count(entries, entries[index].identity()) > 0,
    decreases entries.len(),
{
    if index < entries.len() - 1 {
        an_entry_counts(entries.drop_last(), index);
    }
}

/// With nothing deleted by hand, the processes of an identity take as many
/// entries as there are of either, and those that are kept are at least as
/// many.
proof fn matching_counts(
    processes: Seq<Process>,
    entries: Seq<Entry>,
    live: Seq<PaneId>,
    id: Identity,
)
    ensures
        ({
            let swept = sweep(processes, entries, live, Seq::empty());
            let wanted = entry_count(entries, id);
            let there = configured_count(processes, id);
            &&& entry_count(swept.rest, id) == if wanted > there {
                (wanted - there) as nat
            } else {
                0
            }
            &&& configured_count(swept.kept, id) + entry_count(swept.rest, id) >= wanted
        }),
    decreases processes.len(),
{
    if processes.len() > 0 {
        let process = processes.last();
        matching_counts(processes.drop_last(), entries, live, id);
        let before = sweep(processes.drop_last(), entries, live, Seq::empty());
        let after = sweep(processes, entries, live, Seq::empty());
        let free = first_entry(before.rest, process.identity());
        first_entry_is_one(before.rest, process.identity());
        assert(before.kept.push(process).drop_last() =~= before.kept);
        if process.origin == ProcessOrigin::Configured {
            if free is Some {
                removing_counts(before.rest, free->0, id);
                if process.identity() == id {
                    an_entry_counts(before.rest, free->0);
                }
            } else {
                no_entry_counts_zero(before.rest, process.identity());
            }
        }
    }
}

/// Inserting a configured process raises the count of its identity by one and
/// no other.
proof fn inserting_counts(processes: Seq<Process>, index: int, process: Process, id: Identity)
    requires
        0 <= index <= processes.len(),
    ensures
        configured_count(processes.insert(index, process), id) == configured_count(processes, id)
            + if process.origin == ProcessOrigin::Configured && process.identity() == id {
            1nat
        } else {
            0nat
        },
    decreases processes.len(),
{
    let after = processes.insert(index, process);
    if index == processes.len() {
        assert(after.drop_last() =~= processes);
    } else {
        inserting_counts(processes.drop_last(), index, process, id);
        assert(after.drop_last() =~= processes.drop_last().insert(index, process));
        assert(after.last() == processes.last());
    }
}

/// Adding processes for entries raises the counts by those of the entries.
proof fn adding_counts(roster: Roster, rest: Seq<Entry>, id: Identity)
    ensures
        configured_count(with_entries(roster, rest).processes, id) == configured_count(
            roster.processes,
            id,
        ) + entry_count(rest, id),
    decreases rest.len(),
{
    if rest.len() > 0 {
        adding_counts(roster, rest.drop_last(), id);
        let before = with_entries(roster, rest.drop_last());
        let added = rest.last().spec.as_process(next_id(before.processes), rest.last().kind);
        section_end_bounds(before.processes, added.kind);
        inserting_counts(
            before.processes,
            crate::workspace::section_end(before.processes, added.kind),
            added,
            id,
        );
        crate::config::a_process_keeps_the_identity_of_its_spec(
            rest.last().spec,
            next_id(before.processes),
            rest.last().kind,
        );
    }
}

/// Reloading a configuration that was just reloaded adds nothing: every entry
/// finds the process that stands for it.
pub proof fn a_second_reload_adds_nothing(
    before: Roster,
    config: Sections,
    live: Seq<PaneId>,
    live_later: Seq<PaneId>,
)
    ensures
        sweep(
            reconciled(before, config, live, Seq::empty()).processes,
            config.entries(),
            live_later,
            Seq::empty(),
        ).rest.len() == 0,
{
    let entries = config.entries();
    let swept = sweep(before.processes, entries, live, Seq::empty());
    let start = Roster { processes: swept.kept, selected: reselected(swept.kept, before) };
    let after = reconciled(before, config, live, Seq::empty());
    let again = sweep(after.processes, entries, live_later, Seq::empty());
    if again.rest.len() > 0 {
        let id = again.rest[0].identity();
        matching_counts(before.processes, entries, live, id);
        adding_counts(start, swept.rest, id);
        matching_counts(after.processes, entries, live_later, id);
        an_entry_counts(again.rest, 0);
    }
}

/// A process is taken out of the workspace by a reload only when it is a
/// configured process without a child.
pub proof fn only_stopped_configured_processes_go(
    processes: Seq<Process>,
    entries: Seq<Entry>,
    live: Seq<PaneId>,
    deleted: Seq<PaneId>,
    id: PaneId,
)
    requires
        sweep(processes, entries, live, deleted).removed.contains(id),
    ensures
        !live.contains(id),
        exists|i: int|
            0 <= i < processes.len() && (#[trigger] processes[i]).id == id && processes[i].origin
                == ProcessOrigin::Configured,
    decreases processes.len(),
{
    if processes.len() > 0 {
        let process = processes.last();
        let before = sweep(processes.drop_last(), entries, live, deleted);
        let after = sweep(processes, entries, live, deleted);
        let j = choose|j: int| 0 <= j < after.removed.len() && after.removed[j] == id;
        if j < before.removed.len() {
            assert(before.removed[j] == id);
            only_stopped_configured_processes_go(
                processes.drop_last(),
                entries,
                live,
                deleted,
                id,
            );
            let i = choose|i: int|
                0 <= i < processes.drop_last().len() && (#[trigger] processes.drop_last()[i]).id
                    == id && processes.drop_last()[i].origin == ProcessOrigin::Configured;
            assert(processes[i].id == id);
        } else {
            assert(processes[processes.len() - 1].id == id);
        }
    }
}

/// What a sweep keeps of an orderly list is orderly, and comes from the list.
proof fn sweep_keeps_order(
    processes: Seq<Process>,
    entries: Seq<Entry>,
    live: Seq<PaneId>,
    deleted: Seq<PaneId>,
)
    requires
        (Roster { processes, selected: 0 }).orderly(),
    ensures
        ({
            let kept = sweep(processes, entries, live, deleted).kept;
            &&& (Roster { processes: kept, selected: 0 }).orderly()
            &&& kept.len() <= processes.len()
            &&& sweep(processes, entries, live, deleted).rest.len() <= entries.len()
            &&& forall|i: int| 0 <= i < kept.len() ==> processes.contains(#[trigger] kept[i])
        }),
    decreases processes.len(),
{
    if processes.len() > 0 {
        let rest = processes.drop_last();
        assert forall|i: int| 0 <= i < rest.len() implies rest[i] == processes[i] by {}
        sweep_keeps_order(rest, entries, live, deleted);
        let before = sweep(rest, entries, live, deleted);
        let after = sweep(processes, entries, live, deleted);
        first_entry_is_one(before.rest, processes.last().identity());
        assert forall|i: int| 0 <= i < before.kept.len() implies ({
            let kept = #[trigger] before.kept[i];
            &&& processes.contains(kept)
            &&& kept.id != processes.last().id
            &&& kept.kind.rank() <= processes.last().kind.rank()
        }) by {
            let j = choose|j: int| 0 <= j < rest.len() && rest[j] == before.kept[i];
            assert(processes[j] == before.kept[i]);
        }
        assert(processes.contains(processes.last()));
        assert(after.kept == before.kept || after.kept == before.kept.push(processes.last()));
    }
}

/// Adding processes for entries keeps a workspace orderly.
proof fn adding_keeps_order(roster: Roster, rest: Seq<Entry>)
    requires
        roster.orderly(),
        roster.processes.len() + rest.len() < usize::MAX,
    ensures
        with_entries(roster, rest).orderly(),
        with_entries(roster, rest).processes.len() == roster.processes.len() + rest.len(),
    decreases rest.len(),
{
    if rest.len() > 0 {
        adding_keeps_order(roster, rest.drop_last());
        let before = with_entries(roster, rest.drop_last());
        next_id_is_unused(before.processes);
        inserting_keeps_order(
            before,
            rest.last().spec.as_process(next_id(before.processes), rest.last().kind),
        );
        section_end_bounds(before.processes, rest.last().kind);
    }
}

/// Reloading a configuration keeps a workspace orderly: identities stay unique,
/// sections stay together, and the selection stays at a process.
pub proof fn a_reload_keeps_a_workspace_orderly(
    before: Roster,
    config: Sections,
    live: Seq<PaneId>,
    deleted: Seq<PaneId>,
)
    requires
        before.orderly(),
        before.processes.len() + config.entries().len() < usize::MAX,
    ensures
        reconciled(before, config, live, deleted).orderly(),
{
    let swept = sweep(before.processes, config.entries(), live, deleted);
    sweep_keeps_order(before.processes, config.entries(), live, deleted);
    if before.selected_id() is Some {
        position_is_the_first(swept.kept, before.selected_id()->0);
    }
    adding_keeps_order(
        Roster { processes: swept.kept, selected: reselected(swept.kept, before) },
        swept.rest,
    );
}

/// A sweep sorts the configured processes: one that is deleted, or that no entry
/// stands for any more, is retired where it still runs and removed where it does
/// not; and one whose entry is still there, and who is the only one of its kind,
/// stays for that entry.
pub proof fn a_sweep_sorts_the_processes(
    processes: Seq<Process>,
    entries: Seq<Entry>,
    live: Seq<PaneId>,
    deleted: Seq<PaneId>,
    i: int,
)
    requires
        0 <= i < processes.len(),
        processes[i].origin == ProcessOrigin::Configured,
    ensures
        ({
            let swept = sweep(processes, entries, live, deleted);
            let process = processes[i];
            let unlisted = deleted.contains(process.id) || entry_count(entries, process.identity())
                == 0;
            let alone = deleted.len() == 0 && entry_count(entries, process.identity()) > 0
                && configured_count(processes, process.identity()) == 1;
            &&& unlisted && live.contains(process.id) ==> swept.kept.contains(process)
                && swept.retiring.contains(process.id)
            &&& unlisted && !live.contains(process.id) ==> swept.removed.contains(process.id)
            &&& alone ==> swept.kept.contains(process) && swept.matched.contains(process)
        }),
    decreases processes.len(),
{
    let rest = processes.drop_last();
    let before = sweep(rest, entries, live, deleted);
    let after = sweep(processes, entries, live, deleted);
    let process = processes[i];
    let id = process.identity();
    if i < processes.len() - 1 {
        a_sweep_sorts_the_processes(rest, entries, live, deleted, i);
        assert(rest[i] == process);
        counting_is_monotone(rest, i);
        if before.kept.contains(process) {
            let j = choose|j: int| 0 <= j < before.kept.len() && before.kept[j] == process;
            assert(after.kept[j] == process);
        }
        if before.matched.contains(process) {
            let j = choose|j: int| 0 <= j < before.matched.len() && before.matched[j] == process;
            assert(after.matched[j] == process);
        }
        if before.retiring.contains(process.id) {
            let j = choose|j: int|
                0 <= j < before.retiring.len() && before.retiring[j] == process.id;
            assert(after.retiring[j] == process.id);
        }
        if before.removed.contains(process.id) {
            let j = choose|j: int|
                0 <= j < before.removed.len() && before.removed[j] == process.id;
            assert(after.removed[j] == process.id);
        }
    } else {
        every_entry_is_stood_for_once(rest, entries, live, deleted, id);
        first_entry_is_one(before.rest, id);
        let free = first_entry(before.rest, id);
        if free is Some {
            an_entry_counts(before.rest, free->0);
        }
        if deleted.len() == 0 && entry_count(entries, id) > 0 && configured_count(processes, id)
            == 1 {
            assert(deleted =~= Seq::<PaneId>::empty());
            matching_counts(rest, entries, live, id);
            assert(configured_count(rest, id) == 0);
            if free is None {
                no_entry_counts_zero(before.rest, id);
            }
            assert(after.matched.last() == process);
        }
        assert(after.kept.len() > before.kept.len() ==> after.kept.last() == process);
        assert(after.retiring.len() > before.retiring.len() ==> after.retiring.last()
            == process.id);
        assert(after.removed.len() > before.removed.len() ==> after.removed.last() == process.id);
    }
}

proof fn counting_is_monotone(processes: Seq<Process>, i: int)
    requires
        0 <= i < processes.len(),
        processes[i].origin == ProcessOrigin::Configured,
    ensures
        configured_count(processes, processes[i].identity()) >= 1,
    decreases processes.len(),
{
    if i < processes.len() - 1 {
        assert(processes.drop_last()[i] == processes[i]);
        counting_is_monotone(processes.drop_last(), i);
    }
}

/// A removed process is in the list no more, and what is kept comes from the list.
pub proof fn a_removed_process_is_not_kept(
    processes: Seq<Process>,
    entries: Seq<Entry>,
    live: Seq<PaneId>,
    deleted: Seq<PaneId>,
    i: int,
)
    requires
        0 <= i < processes.len(),
        (Roster { processes, selected: 0 }).orderly(),
        sweep(processes, entries, live, deleted).removed.contains(processes[i].id),
    ensures
        !sweep(processes, entries, live, deleted).kept.contains(processes[i]),
    decreases processes.len(),
{
    let rest = processes.drop_last();
    let before = sweep(rest, entries, live, deleted);
    let after = sweep(processes, entries, live, deleted);
    assert((Roster { processes: rest, selected: 0 }).orderly()) by {
        assert forall|a: int, b: int| 0 <= a < b < rest.len() implies #[trigger] rest[a].id
            != #[trigger] rest[b].id && rest[a].kind.rank() <= rest[b].kind.rank() by {
            assert(processes[a].id != processes[b].id);
            assert(processes[a].kind.rank() <= processes[b].kind.rank());
        }
    }
    sweep_keeps_order(rest, entries, live, deleted);
    let last = processes.len() - 1;
    let j = choose|j: int| 0 <= j < after.removed.len() && after.removed[j] == processes[i].id;
    if i < last {
        assert(rest[i] == processes[i]);
        assert(processes[i].id != processes[last].id);
        assert(before.removed[j] == processes[i].id);
        a_removed_process_is_not_kept(rest, entries, live, deleted, i);
        if after.kept.contains(processes[i]) {
            let k = choose|k: int| 0 <= k < after.kept.len() && after.kept[k] == processes[i];
            assert(before.kept[k] == processes[i]);
        }
    } else {
        if j < before.removed.len() {
            assert(before.removed.contains(processes[i].id));
            only_stopped_configured_processes_go(rest, entries, live, deleted, processes[i].id);
            let k = choose|k: int|
                0 <= k < rest.len() && (#[trigger] rest[k]).id == processes[i].id && rest[k].origin
                    == ProcessOrigin::Configured;
            assert(processes[k].id == processes[last].id);
        }
        if after.kept.contains(processes[i]) {
            let k = choose|k: int| 0 <= k < after.kept.len() && after.kept[k] == processes[i];
            assert(k < before.kept.len());
            assert(rest.contains(before.kept[k]));
            let a = choose|a: int| 0 <= a < rest.len() && rest[a] == before.kept[k];
            assert(processes[a].id == processes[last].id);
        }
    }
}

/// Every entry of a reloaded configuration has a row: of each identity there are at
/// least as many configured processes as entries.
pub proof fn a_reload_lists_every_entry(
    before: Roster,
    config: Sections,
    live: Seq<PaneId>,
    id: Identity,
)
    ensures
        configured_count(reconciled(before, config, live, Seq::empty()).processes, id)
            >= entry_count(config.entries(), id),
{
    matching_counts(before.processes, config.entries(), live, id);
    let swept = sweep(before.processes, config.entries(), live, Seq::empty());
    adding_counts(
        Roster { processes: swept.kept, selected: reselected(swept.kept, before) },
        swept.rest,
        id,
    );
}

/// A row that a reload adds is that of an entry of the configuration, not started
/// yet; every other row was there before.
pub proof fn a_reload_adds_only_entries(
    before: Roster,
    config: Sections,
    live: Seq<PaneId>,
    deleted: Seq<PaneId>,
    process: Process,
)
    requires
        before.orderly(),
        reconciled(before, config, live, deleted).processes.contains(process),
    ensures
        before.processes.contains(process) || exists|i: int|
            0 <= i < config.entries().len() && process == (
            #[trigger] config.entries()[i]).spec.as_process(process.id, config.entries()[i].kind),
{
    let swept = sweep(before.processes, config.entries(), live, deleted);
    let start = Roster { processes: swept.kept, selected: reselected(swept.kept, before) };
    assert((Roster { processes: before.processes, selected: 0 }).orderly());
    sweep_keeps_order(before.processes, config.entries(), live, deleted);
    rest_are_entries(before.processes, config.entries(), live, deleted);
    added_rows(start, swept.rest, process);
    if swept.kept.contains(process) {
        let k = choose|k: int| 0 <= k < swept.kept.len() && swept.kept[k] == process;
        assert(before.processes.contains(swept.kept[k]));
    } else {
        let k = choose|k: int|
            0 <= k < swept.rest.len() && process == (#[trigger] swept.rest[k]).spec.as_process(
                process.id,
                swept.rest[k].kind,
            );
        assert(config.entries().contains(swept.rest[k]));
        let i = choose|i: int|
            0 <= i < config.entries().len() && config.entries()[i] == swept.rest[k];
        assert(config.entries()[i] == swept.rest[k]);
    }
}

proof fn rest_are_entries(
    processes: Seq<Process>,
    entries: Seq<Entry>,
    live: Seq<PaneId>,
    deleted: Seq<PaneId>,
)
    ensures
        forall|i: int|
            0 <= i < sweep(processes, entries, live, deleted).rest.len() ==> entries.contains(
                #[trigger] sweep(processes, entries, live, deleted).rest[i],
            ),
    decreases processes.len(),
{
    if processes.len() > 0 {
        rest_are_entries(processes.drop_last(), entries, live, deleted);
        let before = sweep(processes.drop_last(), entries, live, deleted);
        let after = sweep(processes, entries, live, deleted);
        let free = first_entry(before.rest, processes.last().identity());
        first_entry_is_one(before.rest, processes.last().identity());
        assert forall|i: int| 0 <= i < after.rest.len() implies entries.contains(
            #[trigger] after.rest[i],
        ) by {
            if after.rest.len() < before.rest.len() {
                if i < free->0 {
                    assert(after.rest[i] == before.rest[i]);
                } else {
                    assert(after.rest[i] == before.rest[i + 1]);
                }
            } else {
                assert(after.rest[i] == before.rest[i]);
            }
        }
    }
}

proof fn added_rows(roster: Roster, rest: Seq<Entry>, process: Process)
    ensures
        with_entries(roster, rest).processes.contains(process) ==> roster.processes.contains(
            process,
        ) || exists|k: int|
            0 <= k < rest.len() && process == (#[trigger] rest[k]).spec.as_process(
                process.id,
                rest[k].kind,
            ),
    decreases rest.len(),
{
    if rest.len() > 0 {
        added_rows(roster, rest.drop_last(), process);
        let before = with_entries(roster, rest.drop_last());
        let added = rest.last().spec.as_process(next_id(before.processes), rest.last().kind);
        let after = before.inserted(added);
        section_end_bounds(before.processes, added.kind);
        let at = crate::workspace::section_end(before.processes, added.kind);
        if after.processes.contains(process) {
            let j = choose|j: int| 0 <= j < after.processes.len() && after.processes[j] == process;
            if j == at {
                assert(rest[rest.len() - 1] == rest.last());
            } else {
                let from = if j < at {
                    j
                } else {
                    j - 1
                };
                assert(before.processes[from] == process);
                assert(before.processes.contains(process));
                if !roster.processes.contains(process) {
                    let k = choose|k: int|
                        0 <= k < rest.drop_last().len() && process == (
                        #[trigger] rest.drop_last()[k]).spec.as_process(
                            process.id,
                            rest.drop_last()[k].kind,
                        );
                    assert(rest[k] == rest.drop_last()[k]);
                }
            }
        }
    }
}

/// The selected process stays selected over a reload, as long as it is kept.
pub proof fn a_reload_keeps_the_selection(
    before: Roster,
    config: Sections,
    live: Seq<PaneId>,
    deleted: Seq<PaneId>,
)
    requires
        before.orderly(),
        before.selected < before.processes.len(),
        before.processes.len() + config.entries().len() < usize::MAX,
        sweep(before.processes, config.entries(), live, deleted).kept.contains(
            before.processes[before.selected as int],
        ),
    ensures
        reconciled(before, config, live, deleted).selected_process() == before.selected_process(),
{
    let swept = sweep(before.processes, config.entries(), live, deleted);
    let process = before.processes[before.selected as int];
    assert((Roster { processes: before.processes, selected: 0 }).orderly());
    sweep_keeps_order(before.processes, config.entries(), live, deleted);
    let k = choose|k: int| 0 <= k < swept.kept.len() && swept.kept[k] == process;
    let kept = Roster { processes: swept.kept, selected: 0 };
    assert forall|i: int| 0 <= i < k implies (#[trigger] swept.kept[i]).id != process.id by {
        assert(kept.processes[i].id != kept.processes[k].id);
    }
    crate::workspace::position_unique(swept.kept, process.id, k);
    let start = Roster { processes: swept.kept, selected: reselected(swept.kept, before) };
    assert(start.selected_process() == Some(process));
    selection_survives(start, swept.rest);
}

proof fn selection_survives(roster: Roster, rest: Seq<Entry>)
    requires
        roster.selected < roster.processes.len(),
        roster.processes.len() + rest.len() < usize::MAX,
    ensures
        with_entries(roster, rest).selected_process() == roster.selected_process(),
        with_entries(roster, rest).processes.len() == roster.processes.len() + rest.len(),
        with_entries(roster, rest).selected < with_entries(roster, rest).processes.len(),
    decreases rest.len(),
{
    if rest.len() > 0 {
        selection_survives(roster, rest.drop_last());
        let before = with_entries(roster, rest.drop_last());
        let added = rest.last().spec.as_process(next_id(before.processes), rest.last().kind);
        section_end_bounds(before.processes, added.kind);
        crate::workspace::the_selection_follows_its_process(before, added, 0);
    }
}

} // verus!
