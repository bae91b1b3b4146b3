//! The ordered list of processes and the selection in it.

use vstd::prelude::*;
use crate::process::{
    policy_restarts, restarts, ActivityState, ExitOutcome, PaneId, Process, ProcessKind,
    ProcessState,
};
use crate::text::{opt_text, same_text};

verus! {

/// The processes of the active project and which of them is selected.
#[derive(Debug)]
pub struct Workspace {
    /// Processes, section by section.
    pub processes: Vec<Process>,
    /// Position of the selected process.
    pub selected: usize,
}

/// A workspace as a sequence of processes and a selected position.
#[verifier::ext_equal]
pub struct Roster {
    /// Processes, section by section.
    pub processes: Seq<Process>,
    /// Position of the selected process.
    pub selected: usize,
}

impl View for Workspace {
    type V = Roster;

    open spec fn view(&self) -> Roster {
        Roster { processes: self.processes@, selected: self.selected }
    }
}

/// The position of the first process with the identity `id`.
pub open spec fn position(processes: Seq<Process>, id: PaneId) -> Option<int>
    decreases processes.len(),
{
    if processes.len() == 0 {
        None
    } else {
        match position(processes.drop_last(), id) {
            Some(index) => Some(index),
            None => if processes.last().id == id {
                Some(processes.len() - 1)
            } else {
                None
            },
        }
    }
}

/// The position found is that of the first process with the identity; it is
/// found exactly when there is one.
pub proof fn position_is_the_first(processes: Seq<Process>, id: PaneId)
    ensures
        position(processes, id) matches Some(index) ==> 0 <= index < processes.len()
            && processes[index].id == id && forall|i: int|
            0 <= i < index ==> (#[trigger] processes[i]).id != id,
        position(processes, id) is None ==> forall|i: int|
            0 <= i < processes.len() ==> (#[trigger] processes[i]).id != id,
    decreases processes.len(),
{
    if processes.len() > 0 {
        let rest = processes.drop_last();
        position_is_the_first(rest, id);
        assert forall|i: int| 0 <= i < rest.len() implies processes[i] == rest[i] by {}
    }
}

/// The position of the first of a sequence is where the identity first occurs.
pub proof fn position_unique(processes: Seq<Process>, id: PaneId, index: int)
    requires
        0 <= index < processes.len(),
        processes[index].id == id,
        forall|i: int| 0 <= i < index ==> (#[trigger] processes[i]).id != id,
    ensures
        position(processes, id) == Some(index),
{
    position_is_the_first(processes, id);
    if position(processes, id) is Some {
        let found = position(processes, id)->0;
        if found < index {
            assert(processes[found].id != id);
        }
    }
}

/// The largest identity in use, if any.
pub open spec fn max_id(processes: Seq<Process>) -> Option<PaneId>
    decreases processes.len(),
{
    if processes.len() == 0 {
        None
    } else {
        let last = processes.last().id;
        match max_id(processes.drop_last()) {
            Some(id) => if id < last {
                Some(last)
            } else {
                Some(id)
            },
            None => Some(last),
        }
    }
}

/// No identity in use exceeds the largest.
pub proof fn max_id_bounds(processes: Seq<Process>, i: int)
    requires
        0 <= i < processes.len(),
    ensures
        max_id(processes) is Some,
        processes[i].id <= max_id(processes)->0,
    decreases processes.len(),
{
    if i < processes.len() - 1 {
        max_id_bounds(processes.drop_last(), i);
    }
}

/// The smallest identity from `from` on that no process uses, searched through
/// as many candidates as there are processes and one more.
pub open spec fn first_unused(processes: Seq<Process>, from: nat, fuel: nat) -> nat
    decreases fuel,
{
    if fuel == 0 || position(processes, from as u64) is None {
        from
    } else {
        first_unused(processes, from + 1, (fuel - 1) as nat)
    }
}

/// The identity that the next process gets: one more than the largest in use,
/// zero where there is none. Where the largest is the last there is, it is the
/// smallest unused one.
pub open spec fn next_id(processes: Seq<Process>) -> PaneId {
    match max_id(processes) {
        None => 0,
        Some(id) => if id < u64::MAX {
            (id + 1) as u64
        } else {
            first_unused(processes, 0, processes.len()) as u64
        },
    }
}

/// The position at which a process of `kind` is inserted: behind the last of
/// its section.
pub open spec fn section_end(processes: Seq<Process>, kind: ProcessKind) -> int
    decreases processes.len(),
{
    if processes.len() == 0 {
        0
    } else if section_end(processes.drop_last(), kind) < processes.len() - 1 {
        section_end(processes.drop_last(), kind)
    } else if processes.last().kind.rank() > kind.rank() {
        processes.len() - 1
    } else {
        processes.len() as int
    }
}

/// The section ends behind every leading process whose section does not come
/// later.
pub proof fn section_end_bounds(processes: Seq<Process>, kind: ProcessKind)
    ensures
        0 <= section_end(processes, kind) <= processes.len(),
        forall|i: int|
            0 <= i < section_end(processes, kind) ==> (#[trigger] processes[i]).kind.rank()
                <= kind.rank(),
        section_end(processes, kind) < processes.len() ==> processes[section_end(
            processes,
            kind,
        )].kind.rank() > kind.rank(),
    decreases processes.len(),
{
    if processes.len() > 0 {
        let rest = processes.drop_last();
        section_end_bounds(rest, kind);
        assert forall|i: int| 0 <= i < rest.len() implies processes[i] == rest[i] by {}
    }
}

/// Whether any process carries `name`.
pub open spec fn name_used(processes: Seq<Process>, name: Seq<char>) -> bool {
    exists|i: int| 0 <= i < processes.len() && (#[trigger] processes[i]).name@ == name
}

/// The position of the first process that belongs to the durable session `id`.
pub open spec fn session_position(processes: Seq<Process>, id: Seq<char>) -> Option<int>
    decreases processes.len(),
{
    if processes.len() == 0 {
        None
    } else {
        match session_position(processes.drop_last(), id) {
            Some(index) => Some(index),
            None => if opt_text(processes.last().agent_session_id) == Some(id) {
                Some(processes.len() - 1)
            } else {
                None
            },
        }
    }
}

impl Roster {
    /// The process with the identity `id`.
    pub open spec fn process(self, id: PaneId) -> Option<Process> {
        match position(self.processes, id) {
            Some(index) => Some(self.processes[index]),
            None => None,
        }
    }

    /// The selected process.
    pub open spec fn selected_process(self) -> Option<Process> {
        if self.selected < self.processes.len() {
            Some(self.processes[self.selected as int])
        } else {
            None
        }
    }

    /// The identity of the selected process.
    pub open spec fn selected_id(self) -> Option<PaneId> {
        match self.selected_process() {
            Some(process) => Some(process.id),
            None => None,
        }
    }

    /// The workspace with the process `id` replaced by `process`.
    pub open spec fn with_process(self, id: PaneId, process: Process) -> Roster {
        match position(self.processes, id) {
            Some(index) => Roster { processes: self.processes.update(index, process), ..self },
            None => self,
        }
    }

    /// The workspace with the process `id` in another state.
    pub open spec fn with_state(self, id: PaneId, state: ProcessState) -> Roster {
        match self.process(id) {
            Some(process) => self.with_process(id, Process { state, ..process }),
            None => self,
        }
    }

    /// The workspace with the process `id` doing something else.
    pub open spec fn with_activity(self, id: PaneId, activity: ActivityState) -> Roster {
        match self.process(id) {
            Some(process) => self.with_process(id, Process { activity, ..process }),
            None => self,
        }
    }

    /// The workspace with the autostart of the process `id` replaced.
    pub open spec fn with_autostart(self, id: PaneId, autostart: bool) -> Roster {
        match self.process(id) {
            Some(process) => self.with_process(id, Process { autostart, ..process }),
            None => self,
        }
    }

    /// The workspace with the process `id` linked to a durable session.
    pub open spec fn with_session(self, id: PaneId, session: String) -> Roster {
        match self.process(id) {
            Some(process) => self.with_process(
                id,
                Process { agent_session_id: Some(session), ..process },
            ),
            None => self,
        }
    }

    /// The workspace with another position selected, where there is one.
    pub open spec fn select(self, index: usize) -> Roster {
        if index < self.processes.len() {
            Roster { selected: index, ..self }
        } else {
            self
        }
    }

    /// The workspace with the next process selected, wrapping to the first.
    pub open spec fn next(self) -> Roster {
        if self.selected + 1 < self.processes.len() {
            Roster { selected: (self.selected + 1) as usize, ..self }
        } else {
            Roster { selected: 0, ..self }
        }
    }

    /// The workspace with the previous process selected, wrapping to the last.
    pub open spec fn previous(self) -> Roster {
        if self.selected > 0 {
            Roster { selected: (self.selected - 1) as usize, ..self }
        } else if self.processes.len() > 0 {
            Roster { selected: (self.processes.len() - 1) as usize, ..self }
        } else {
            self
        }
    }

    /// The workspace with `process` added to its section; the selected process
    /// stays selected.
    pub open spec fn inserted(self, process: Process) -> Roster {
        let index = section_end(self.processes, process.kind);
        Roster {
            processes: self.processes.insert(index, process),
            selected: if index <= self.selected < self.processes.len() {
                (self.selected + 1) as usize
            } else {
                self.selected
            },
        }
    }

    /// The workspace without the process `id`; the selected process stays
    /// selected, and where it is the one that goes its neighbour is.
    pub open spec fn removed(self, id: PaneId) -> Roster {
        match position(self.processes, id) {
            Some(index) => Roster {
                processes: self.processes.remove(index),
                selected: if index < self.selected {
                    (self.selected - 1) as usize
                } else if self.selected + 1 == self.processes.len() && self.selected > 0 {
                    (self.selected - 1) as usize
                } else {
                    self.selected
                },
            },
            None => self,
        }
    }

    /// Whether the restart policy of the process `id` starts it again.
    pub open spec fn should_restart(self, id: PaneId, outcome: ExitOutcome) -> bool {
        match self.process(id) {
            Some(process) => restarts(process.restart, outcome),
            None => false,
        }
    }
}

impl Workspace {
    /// A workspace over `processes` with the first one selected.
    pub fn new(processes: Vec<Process>) -> (workspace: Self)
        ensures
            workspace@ == (Roster { processes: processes@, selected: 0 }),
    {
        Workspace { processes, selected: 0 }
    }

    /// Returns the position of the process `id`.
    pub fn position_of(&self, id: PaneId) -> (found: Option<usize>)
        ensures
            match found {
                Some(index) => position(self@.processes, id) == Some(index as int),
                None => position(self@.processes, id) is None,
            },
            found matches Some(index) ==> index < self@.processes.len()
                && self@.processes[index as int].id == id,
    {
        let mut i: usize = 0;
        while i < self.processes.len()
            invariant
                i <= self.processes@.len(),
                forall|j: int| 0 <= j < i ==> (#[trigger] self.processes@[j]).id != id,
            decreases self.processes@.len() - i,
        {
            if self.processes[i].id == id {
                proof {
                    position_unique(self@.processes, id, i as int);
                }
                return Some(i);
            }
            i = i + 1;
        }
        proof {
            position_is_the_first(self@.processes, id);
        }
        None
    }

    /// Returns the process `id`.
    pub fn process(&self, id: PaneId) -> (found: Option<&Process>)
        ensures
            match found {
                Some(process) => self@.process(id) == Some(*process),
                None => self@.process(id) is None,
            },
    {
        match self.position_of(id) {
            Some(index) => Some(&self.processes[index]),
            None => None,
        }
    }

    /// Returns the selected process.
    pub fn selected_process(&self) -> (found: Option<&Process>)
        ensures
            match found {
                Some(process) => self@.selected_process() == Some(*process),
                None => self@.selected_process() is None,
            },
    {
        if self.selected < self.processes.len() {
            Some(&self.processes[self.selected])
        } else {
            None
        }
    }

    /// Returns the identity of the selected process.
    pub fn selected_id(&self) -> (id: Option<PaneId>)
        ensures
            id == self@.selected_id(),
    {
        match self.selected_process() {
            Some(process) => Some(process.id),
            None => None,
        }
    }

    /// Puts the process `id` in another state.
    pub fn set_state(&mut self, id: PaneId, state: ProcessState)
        ensures
            final(self)@ == old(self)@.with_state(id, state),
    {
        if let Some(index) = self.position_of(id) {
            let mut process = self.processes[index].copied();
            process.state = state;
            self.processes.set(index, process);
        }
    }

    /// Records what the process `id` appears to be doing.
    pub fn set_activity(&mut self, id: PaneId, activity: ActivityState)
        ensures
            final(self)@ == old(self)@.with_activity(id, activity),
    {
        if let Some(index) = self.position_of(id) {
            let mut process = self.processes[index].copied();
            process.activity = activity;
            self.processes.set(index, process);
        }
    }

    /// Replaces the autostart of the process `id`.
    pub fn set_autostart(&mut self, id: PaneId, autostart: bool)
        ensures
            final(self)@ == old(self)@.with_autostart(id, autostart),
    {
        if let Some(index) = self.position_of(id) {
            let mut process = self.processes[index].copied();
            process.autostart = autostart;
            self.processes.set(index, process);
        }
    }

    /// Links the process `id` to a durable session.
    pub fn set_agent_session_id(&mut self, id: PaneId, session: String)
        ensures
            final(self)@ == old(self)@.with_session(id, session),
    {
        if let Some(index) = self.position_of(id) {
            let mut process = self.processes[index].copied();
            process.agent_session_id = Some(session);
            self.processes.set(index, process);
        }
    }

    /// Selects the process at `index`, where there is one.
    pub fn select_at(&mut self, index: usize)
        ensures
            final(self)@ == old(self)@.select(index),
    {
        if index < self.processes.len() {
            self.selected = index;
        }
    }

    /// Selects the next process, wrapping to the first.
    pub fn select_next(&mut self)
        ensures
            final(self)@ == old(self)@.next(),
    {
        if self.selected < self.processes.len() && self.selected + 1 < self.processes.len() {
            self.selected = self.selected + 1;
        } else {
            self.selected = 0;
        }
    }

    /// Selects the previous process, wrapping to the last.
    pub fn select_previous(&mut self)
        ensures
            final(self)@ == old(self)@.previous(),
    {
        if self.selected > 0 {
            self.selected = self.selected - 1;
        } else if self.processes.len() > 0 {
            self.selected = self.processes.len() - 1;
        }
    }

    /// Adds `process` to its section, keeps the selected process selected and
    /// returns where the new one stands.
    pub fn insert_in_section(&mut self, process: Process) -> (index: usize)
        ensures
            final(self)@ == old(self)@.inserted(process),
            index == section_end(old(self)@.processes, process.kind),
            index < final(self)@.processes.len(),
    {
        let rank: u8 = process.kind.section();
        let mut index: usize = 0;
        proof {
            section_end_bounds(self@.processes, process.kind);
        }
        while index < self.processes.len() && self.processes[index].kind.section() <= rank
            invariant
                rank == process.kind.rank(),
                index <= section_end(self@.processes, process.kind) <= self.processes@.len(),
                section_end(self@.processes, process.kind) < self.processes@.len()
                    ==> self.processes@[section_end(
                    self@.processes,
                    process.kind,
                )].kind.rank() > rank,
                forall|i: int|
                    0 <= i < section_end(self@.processes, process.kind) ==> (
                    #[trigger] self.processes@[i]).kind.rank() <= rank,
            decreases self.processes@.len() - index,
        {
            index = index + 1;
        }
        let len: usize = self.processes.len();
        self.processes.insert(index, process);
        if index <= self.selected && self.selected < len {
            self.selected = self.selected + 1;
        }
        index
    }

    /// Takes the process `id` out, keeping the selected process selected.
    pub fn remove(&mut self, id: PaneId)
        ensures
            final(self)@ == old(self)@.removed(id),
    {
        if let Some(index) = self.position_of(id) {
            let len: usize = self.processes.len();
            let _ = self.processes.remove(index);
            if index < self.selected {
                self.selected = self.selected - 1;
            } else if self.selected < len && self.selected + 1 == len && self.selected > 0 {
                self.selected = self.selected - 1;
            }
        }
    }

    /// Returns whether the restart policy of the process `id` starts it again.
    pub fn should_restart(&self, id: PaneId, outcome: ExitOutcome) -> (again: bool)
        ensures
            again == self@.should_restart(id, outcome),
    {
        match self.process(id) {
            Some(process) => policy_restarts(process.restart, outcome),
            None => false,
        }
    }

    /// Returns whether any process carries `name`.
    pub fn name_in_use(&self, name: &String) -> (used: bool)
        ensures
            used == name_used(self@.processes, name@),
    {
        let mut i: usize = 0;
        while i < self.processes.len()
            invariant
                i <= self.processes@.len(),
                forall|j: int| 0 <= j < i ==> (#[trigger] self.processes@[j]).name@ != name@,
            decreases self.processes@.len() - i,
        {
            if same_text(&self.processes[i].name, name) {
                return true;
            }
            i = i + 1;
        }
        false
    }

    /// Returns the position of the process that belongs to the session `id`.
    pub fn session_position_of(&self, id: &String) -> (found: Option<usize>)
        ensures
            match found {
                Some(index) => session_position(self@.processes, id@) == Some(index as int),
                None => session_position(self@.processes, id@) is None,
            },
            found matches Some(index) ==> index < self@.processes.len(),
    {
        let mut found: Option<usize> = None;
        let mut i: usize = 0;
        while i < self.processes.len()
            invariant
                i <= self.processes@.len(),
                match found {
                    Some(index) => session_position(self@.processes.take(i as int), id@) == Some(
                        index as int,
                    ) && index < i,
                    None => session_position(self@.processes.take(i as int), id@) is None,
                },
            decreases self.processes@.len() - i,
        {
            assert(self@.processes.take(i + 1).drop_last() =~= self@.processes.take(i as int));
            assert(self@.processes.take(i + 1).last() == self@.processes[i as int]);
            if found.is_none() {
                if let Some(session) = &self.processes[i].agent_session_id {
                    if same_text(session, id) {
                        found = Some(i);
                    }
                }
            }
            i = i + 1;
        }
        assert(self@.processes.take(self.processes@.len() as int) =~= self@.processes);
        found
    }

    /// Returns the identity that the next process gets.
    pub fn next_pane_id(&self) -> (id: PaneId)
        ensures
            id == next_id(self@.processes),
            position(self@.processes, id) is None,
    {
        let mut largest: Option<PaneId> = None;
        let mut i: usize = 0;
        while i < self.processes.len()
            invariant
                i <= self.processes@.len(),
                largest == max_id(self@.processes.take(i as int)),
            decreases self.processes@.len() - i,
        {
            assert(self@.processes.take(i + 1).drop_last() =~= self@.processes.take(i as int));
            assert(self@.processes.take(i + 1).last() == self@.processes[i as int]);
            let id: PaneId = self.processes[i].id;
            largest = match largest {
                Some(other) => if other < id {
                    Some(id)
                } else {
                    Some(other)
                },
                None => Some(id),
            };
            i = i + 1;
        }
        assert(self@.processes.take(self.processes@.len() as int) =~= self@.processes);
        proof {
            next_id_is_unused(self@.processes);
        }
        match largest {
            None => 0,
            Some(id) => if id < u64::MAX {
                id + 1
            } else {
                self.smallest_unused_id()
            },
        }
    }

    /// Returns the smallest identity that no process uses.
    fn smallest_unused_id(&self) -> (id: PaneId)
        ensures
            id == first_unused(self@.processes, 0, self@.processes.len()),
    {
        let len: usize = self.processes.len();
        let mut candidate: usize = 0;
        while candidate < len
            invariant
                candidate <= len == self@.processes.len(),
                first_unused(self@.processes, 0, self@.processes.len()) == first_unused(
                    self@.processes,
                    candidate as nat,
                    (len - candidate) as nat,
                ),
            decreases len - candidate,
        {
            if self.position_of(candidate as u64).is_none() {
                return candidate as u64;
            }
            candidate = candidate + 1;
        }
        candidate as u64
    }
}

/// The search for an unused identity from zero succeeds: there are more
/// candidates than processes.
proof fn first_unused_succeeds(processes: Seq<Process>, from: nat, fuel: nat)
    requires
        from + fuel == processes.len(),
        processes.len() <= u64::MAX,
        forall|id: u64| (id as nat) < from ==> position(processes, id) is Some,
    ensures
        from <= first_unused(processes, from, fuel) <= processes.len(),
        position(processes, first_unused(processes, from, fuel) as u64) is None,
    decreases fuel,
{
    if position(processes, from as u64) is None {
    } else if fuel == 0 {
        // Every identity from zero to the number of processes would be in use.
        ids_fit_the_processes(processes, from);
    } else {
        assert forall|id: u64| (id as nat) < from + 1 implies position(processes, id) is Some by {
            if id as nat == from {
                assert(id == from as u64);
            }
        }
        first_unused_succeeds(processes, from + 1, (fuel - 1) as nat);
    }
}

/// No more identities are in use than there are processes.
proof fn ids_fit_the_processes(processes: Seq<Process>, upto: nat)
    requires
        upto <= u64::MAX,
        forall|id: u64| (id as nat) <= upto ==> position(processes, id) is Some,
    ensures
        upto < processes.len(),
{
    let ids = processes.map_values(|process: Process| process.id as int);
    let range = vstd::set_lib::set_int_range(0, upto as int + 1);
    vstd::set_lib::lemma_int_range(0, upto as int + 1);
    ids.lemma_cardinality_of_set();
    assert forall|id: int| range.contains(id) implies ids.to_set().contains(id) by {
        position_is_the_first(processes, id as u64);
        let index = position(processes, id as u64)->0;
        assert(ids[index] == id);
    }
    vstd::set_lib::lemma_len_subset(range, ids.to_set());
}

/// The identity that the next process gets is not in use.
pub proof fn next_id_is_unused(processes: Seq<Process>)
    requires
        processes.len() <= u64::MAX,
    ensures
        position(processes, next_id(processes)) is None,
{
    let id = next_id(processes);
    match max_id(processes) {
        None => {},
        Some(largest) => {
            if largest < u64::MAX {
                position_is_the_first(processes, id);
                if position(processes, id) is Some {
                    max_id_bounds(processes, position(processes, id)->0);
                }
            } else {
                first_unused_succeeds(processes, 0, processes.len());
            }
        },
    }
}

/// Changing the state, the activity or the autostart of one process leaves
/// every other process, and the selection, as they were.
pub proof fn a_change_touches_one_process(
    roster: Roster,
    id: PaneId,
    other: PaneId,
    state: ProcessState,
    activity: ActivityState,
)
    requires
        id != other,
    ensures
        roster.with_state(id, state).process(other) == roster.process(other),
        roster.with_activity(id, activity).process(other) == roster.process(other),
        roster.with_state(id, state).selected == roster.selected,
        roster.with_activity(id, activity).selected == roster.selected,
        roster.with_state(id, state).processes.len() == roster.processes.len(),
{
    position_is_the_first(roster.processes, id);
    position_is_the_first(roster.processes, other);
    if roster.process(id) is Some {
        let process = roster.process(id)->0;
        update_keeps_positions(roster.processes, id, Process { state, ..process }, other);
        update_keeps_positions(roster.processes, id, Process { activity, ..process }, other);
    }
}

/// Replacing a process by one of the same identity moves no other.
proof fn update_keeps_positions(
    processes: Seq<Process>,
    id: PaneId,
    process: Process,
    other: PaneId,
)
    requires
        position(processes, id) is Some,
        process.id == id,
    ensures
        position(processes.update(position(processes, id)->0, process), other) == position(
            processes,
            other,
        ),
{
    let index = position(processes, id)->0;
    let after = processes.update(index, process);
    position_is_the_first(processes, id);
    position_is_the_first(processes, other);
    position_is_the_first(after, other);
    assert forall|i: int| 0 <= i < processes.len() implies after[i].id == processes[i].id by {}
    match position(processes, other) {
        Some(found) => {
            assert forall|i: int| 0 <= i < found implies (#[trigger] after[i]).id != other by {
                assert(processes[i].id != other);
            }
            position_unique(after, other, found);
        },
        None => {
            if position(after, other) is Some {
                let found = position(after, other)->0;
                assert(processes[found].id == other);
            }
        },
    }
}

/// A process in another state or activity is found under its identity, and is
/// otherwise what it was.
pub proof fn a_changed_process_is_found_again(
    roster: Roster,
    id: PaneId,
    state: ProcessState,
    activity: ActivityState,
)
    ensures
        roster.process(id) matches Some(process) ==> {
            &&& roster.with_state(id, state).process(id) == Some(Process { state, ..process })
            &&& roster.with_activity(id, activity).process(id) == Some(
                Process { activity, ..process },
            )
        },
{
    position_is_the_first(roster.processes, id);
    if roster.process(id) is Some {
        let process = roster.process(id)->0;
        update_keeps_positions(roster.processes, id, Process { state, ..process }, id);
        update_keeps_positions(roster.processes, id, Process { activity, ..process }, id);
    }
}

/// A process that was linked to a session is found again with it, and every other
/// one as it was.
pub proof fn a_link_is_found_again(roster: Roster, id: PaneId, other: PaneId, session: String)
    ensures
        roster.process(id) matches Some(process) ==> roster.with_session(id, session).process(id)
            == Some(Process { agent_session_id: Some(session), ..process }),
        other != id ==> roster.with_session(id, session).process(other) == roster.process(other),
        roster.with_session(id, session).selected == roster.selected,
{
    position_is_the_first(roster.processes, id);
    position_is_the_first(roster.processes, other);
    if roster.process(id) is Some {
        let linked = Process { agent_session_id: Some(session), ..roster.process(id)->0 };
        update_keeps_positions(roster.processes, id, linked, id);
        update_keeps_positions(roster.processes, id, linked, other);
    }
}

/// Adding a process to its section keeps the selected process selected, and
/// taking out another one does too.
pub proof fn the_selection_follows_its_process(roster: Roster, process: Process, id: PaneId)
    requires
        roster.selected < roster.processes.len(),
        roster.processes.len() < usize::MAX,
    ensures
        roster.inserted(process).selected_process() == roster.selected_process(),
        position(roster.processes, id) != Some(roster.selected as int) ==> roster.removed(
            id,
        ).selected_process() == roster.selected_process(),
{
    section_end_bounds(roster.processes, process.kind);
    position_is_the_first(roster.processes, id);
}

/// Selecting the next process and then the previous one, or the other way
/// round, comes back to where it started.
pub proof fn next_and_previous_undo_each_other(roster: Roster)
    requires
        roster.selected < roster.processes.len() <= usize::MAX,
    ensures
        roster.next().previous() == roster,
        roster.previous().next() == roster,
{
}

impl Roster {
    /// The processes are told apart by their identities and stand section by
    /// section, and the selection is at one of them, or at the top of an empty
    /// list.
    pub open spec fn orderly(self) -> bool {
        &&& forall|i: int, j: int|
            0 <= i < j < self.processes.len() ==> #[trigger] self.processes[i].id
                != #[trigger] self.processes[j].id
        &&& forall|i: int, j: int|
            0 <= i < j < self.processes.len() ==> #[trigger] self.processes[i].kind.rank()
                <= #[trigger] self.processes[j].kind.rank()
        &&& self.selected == 0 || self.selected < self.processes.len()
    }
}

/// Replacing a process by one of its identity and section keeps a workspace
/// orderly.
pub proof fn replacing_keeps_order(roster: Roster, index: int, process: Process)
    requires
        roster.orderly(),
        0 <= index < roster.processes.len(),
        process.id == roster.processes[index].id,
        process.kind == roster.processes[index].kind,
    ensures
        (Roster { processes: roster.processes.update(index, process), ..roster }).orderly(),
{
    let after = roster.processes.update(index, process);
    assert forall|i: int| 0 <= i < after.len() implies (#[trigger] after[i]).id
        == roster.processes[i].id && after[i].kind == roster.processes[i].kind by {}
}

/// Adding a process with an unused identity keeps a workspace orderly.
pub proof fn inserting_keeps_order(roster: Roster, process: Process)
    requires
        roster.orderly(),
        roster.processes.len() < usize::MAX,
        position(roster.processes, process.id) is None,
    ensures
        roster.inserted(process).orderly(),
{
    let before = roster.processes;
    let end = section_end(before, process.kind);
    section_end_bounds(before, process.kind);
    position_is_the_first(before, process.id);
    let after = before.insert(end, process);
    assert forall|i: int, j: int| 0 <= i < j < after.len() implies #[trigger] after[i].id
        != #[trigger] after[j].id && after[i].kind.rank() <= after[j].kind.rank() by {
        let earlier = if i < end {
            i
        } else {
            i - 1
        };
        let later = if j < end {
            j
        } else {
            j - 1
        };
        if i == end {
            assert(after[j] == before[j - 1]);
            if end < j - 1 {
                assert(before[end].kind.rank() <= before[j - 1].kind.rank());
            }
        } else if j == end {
            assert(after[i] == before[i]);
        } else {
            assert(after[i] == before[earlier]);
            assert(after[j] == before[later]);
        }
    }
}

/// Taking a process out keeps a workspace orderly.
proof fn removing_keeps_order(roster: Roster, id: PaneId)
    requires
        roster.orderly(),
        roster.processes.len() < usize::MAX,
    ensures
        roster.removed(id).orderly(),
{
    let before = roster.processes;
    position_is_the_first(before, id);
    if position(before, id) is Some {
        let index = position(before, id)->0;
        let after = before.remove(index);
        assert forall|i: int, j: int| 0 <= i < j < after.len() implies #[trigger] after[i].id
            != #[trigger] after[j].id && after[i].kind.rank() <= after[j].kind.rank() by {
            let earlier = if i < index {
                i
            } else {
                i + 1
            };
            let later = if j < index {
                j
            } else {
                j + 1
            };
            assert(after[i] == before[earlier]);
            assert(after[j] == before[later]);
        }
    }
}

/// Whatever the user does to an orderly workspace leaves it orderly: moving the
/// selection, changing a process, adding one with the next identity and taking
/// one out.
pub proof fn changes_keep_a_workspace_orderly(
    roster: Roster,
    id: PaneId,
    process: Process,
    state: ProcessState,
    activity: ActivityState,
    index: usize,
)
    requires
        roster.orderly(),
        roster.processes.len() < usize::MAX,
        process.id == next_id(roster.processes),
    ensures
        roster.with_state(id, state).orderly(),
        roster.with_activity(id, activity).orderly(),
        roster.select(index).orderly(),
        roster.next().orderly(),
        roster.previous().orderly(),
        roster.inserted(process).orderly(),
        roster.removed(id).orderly(),
{
    position_is_the_first(roster.processes, id);
    next_id_is_unused(roster.processes);
    if roster.process(id) is Some {
        let found = roster.process(id)->0;
        let index = position(roster.processes, id)->0;
        replacing_keeps_order(roster, index, Process { state, ..found });
        replacing_keeps_order(roster, index, Process { activity, ..found });
    }
    inserting_keeps_order(roster, process);
    removing_keeps_order(roster, id);
}

} // verus!
