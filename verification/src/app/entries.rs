//! Entries of the config: finding, adding, deleting and changing them.

use vstd::prelude::*;
use crate::app::projects::{can_name, is_name};
use crate::app::{App, AppModel, Focus};
use crate::config::{
    count_set, find_nth, nth_set, Identity, ProcessSpec, ProcessSpecMatcher, Sections,
    WorkspaceConfig,
};
use crate::effect::{Effect, EffectModel, LaunchPurpose, SpecModel, Task};
use crate::location::{copy_location, same_place, Location};
use crate::message::{Message, Prompt};
use crate::moment::Moment;
use crate::names::{configured_name, configured_name_from};
use crate::overlay::{Overlay, OverlayModel};
use crate::pane::{pane_retiring, PaneModel};
use crate::process::{PaneId, Process, ProcessKind, ProcessOrigin};
use crate::text::{is_blank, opt_text, same_text, trim, trimmed};

verus! {

/// Whether a process stands for an entry of the config with an identity. A row
/// that retires stands for none: its entry is gone.
pub open spec fn stands_for(process: Process, panes: Seq<PaneModel>, target: Identity) -> bool {
    process.origin == ProcessOrigin::Configured && !pane_retiring(panes, process.id)
        && process.identity() == target
}

/// Which processes stand for entries with an identity.
pub open spec fn standing_for(
    processes: Seq<Process>,
    panes: Seq<PaneModel>,
    target: Identity,
) -> Seq<bool> {
    processes.map_values(|process: Process| stands_for(process, panes, target))
}

/// The process that stands for one of the entries with an identity.
pub open spec fn process_for(
    processes: Seq<Process>,
    panes: Seq<PaneModel>,
    target: Identity,
    occurrence: nat,
) -> Option<Process> {
    match nth_set(standing_for(processes, panes, target), occurrence) {
        Some(index) => Some(processes[index]),
        None => None,
    }
}

/// Which of the entries with an identity a pane stands for.
pub open spec fn occurrence_of(
    processes: Seq<Process>,
    panes: Seq<PaneModel>,
    target: Identity,
    pane: PaneId,
) -> Option<nat>
    decreases processes.len(),
{
    if processes.len() == 0 {
        None
    } else {
        let rest = processes.drop_last();
        match occurrence_of(rest, panes, target, pane) {
            Some(number) => Some(number),
            None => if stands_for(processes.last(), panes, target) && processes.last().id == pane {
                Some(count_set(standing_for(rest, panes, target)))
            } else {
                None
            },
        }
    }
}

/// Whether a configured agent bears a name. Its name is its durable session
/// key; terminals and commands may share it.
pub open spec fn agent_name_taken(processes: Seq<Process>, name: Seq<char>) -> bool {
    exists|i: int|
        0 <= i < processes.len() && (#[trigger] processes[i]).kind == ProcessKind::Agent
            && processes[i].origin == ProcessOrigin::Configured && processes[i].name@ == name
}

/// The name of a new entry, or why it has none.
pub enum NameChoice {
    /// The name.
    Chosen(Seq<char>),
    /// Another agent bears it.
    Taken,
    /// It is no name.
    Invalid,
}

impl AppModel {
    /// The name of a new entry: an agent without one gets one that is free.
    pub open spec fn name_choice(self, kind: ProcessKind, input: Seq<char>) -> NameChoice {
        if kind == ProcessKind::Agent && input.len() == 0 {
            match configured_name(self.world.names, self.roster.processes) {
                Some(name) => NameChoice::Chosen(name),
                None => NameChoice::Invalid,
            }
        } else if !is_name(input) {
            NameChoice::Invalid
        } else if kind == ProcessKind::Agent && agent_name_taken(self.roster.processes, input) {
            NameChoice::Taken
        } else {
            NameChoice::Chosen(input)
        }
    }

    /// The application that writes a new entry to the config.
    pub open spec fn appending(self, kind: ProcessKind, spec: SpecModel, task: Task) -> AppModel {
        match self.catalog.current {
            Some(place) => self.asked(EffectModel::Append { place, kind, spec }, task),
            None => self,
        }
    }

    /// The application that adds a process to the config. An agent needs a
    /// command; a terminal without one is a login shell.
    pub open spec fn entry_added(
        self,
        kind: ProcessKind,
        name: Seq<char>,
        command: Seq<char>,
        now: Moment,
    ) -> AppModel {
        match self.name_choice(kind, trimmed(name)) {
            NameChoice::Invalid => self,
            NameChoice::Taken => self.complained(Message::NameTaken, now),
            NameChoice::Chosen(name) => {
                let line = trimmed(command);
                if kind == ProcessKind::Agent && line.len() == 0 {
                    self.complained(Message::CommandRequired, now)
                } else {
                    self.appending(
                        kind,
                        SpecModel {
                            name,
                            command: if line.len() == 0 {
                                None
                            } else {
                                Some(line)
                            },
                            working_dir: None,
                            restart: None,
                            autostart: None,
                            stop: None,
                            agent_tool: None,
                        },
                        Task::Appended(kind),
                    )
                }
            },
        }
    }

    /// The application in line with a config to which an entry was added, with
    /// the launch of that entry's process on the agenda.
    pub open spec fn entry_launching(
        self,
        kind: ProcessKind,
        config: Sections,
        spec: ProcessSpec,
        occurrence: usize,
    ) -> AppModel {
        let reloaded = self.with_overlay(None).reconciled_with(config);
        let queued = match process_for(
            reloaded.roster.processes,
            reloaded.panes,
            spec.identity(kind),
            occurrence as nat,
        ) {
            Some(process) => if process.autostart && !process.state.active() {
                reloaded.later(
                    Task::Launch { pane: process.id, purpose: LaunchPurpose::Automatic },
                )
            } else {
                reloaded
            },
            None => reloaded,
        };
        queued.later(Task::LinkAgents)
    }

    /// The application that learned whether an entry was added.
    #[verifier::opaque]
    pub open spec fn append_answered(
        self,
        kind: ProcessKind,
        result: Result<(Sections, ProcessSpec, usize), String>,
        now: Moment,
    ) -> AppModel {
        match result {
            Ok(added) => self.entry_launching(kind, added.0, added.1, added.2),
            Err(_) => self.complained(Message::WorkspaceSave, now),
        }
    }

    /// The application that deletes the selected configured process, or closes
    /// the selected session; both are confirmed first.
    #[verifier::opaque]
    pub open spec fn delete_confirmation(self, now: Moment) -> AppModel {
        match self.roster.selected_process() {
            None => self,
            Some(process) => if process.origin == ProcessOrigin::Configured {
                match self.catalog.current {
                    None => self,
                    Some(place) => match occurrence_of(
                        self.roster.processes,
                        self.panes,
                        process.identity(),
                        process.id,
                    ) {
                        None => self.noted(Message::DeleteAlreadyRetiring, now),
                        Some(occurrence) => self.with_overlay(
                            Some(
                                OverlayModel::ConfirmProcessRemoval {
                                    prompt: Prompt::DeleteProcess {
                                        kind: process.kind,
                                        name: process.name,
                                    },
                                    target: ProcessSpecMatcher::for_process(process),
                                    occurrence: occurrence as usize,
                                    place,
                                },
                            ),
                        ),
                    },
                }
            } else if process.kind != ProcessKind::Agent {
                self
            } else {
                self.session_close_confirmation(process)
            },
        }
    }

    /// The application that takes an entry out of the config. Once the project
    /// has moved on, nothing is deleted.
    #[verifier::opaque]
    pub open spec fn entry_removing(
        self,
        target: ProcessSpecMatcher,
        occurrence: usize,
        place: Location,
        now: Moment,
    ) -> AppModel {
        if self.catalog.current matches Some(current) && same_place(current, place) {
            self.asked(
                EffectModel::Plain(Effect::RemoveEntry { place, target, occurrence }),
                Task::EntryRemoved { target, occurrence },
            )
        } else {
            self.noted(Message::DeleteProjectChanged, now)
        }
    }

    /// The application that stops the process of a deleted entry, gracefully,
    /// unless it is being stopped already.
    pub open spec fn deleted_stopping(self, pane: PaneId, now: Moment) -> AppModel {
        let marked = self.with_ledger(self.ledger.with_deleted(pane));
        match marked.life(pane) {
            Some(life) => if life.alive && life.exit_intent.takes_stop() {
                marked.stop_requested(pane, false, now)
            } else {
                marked
            },
            None => marked,
        }
    }

    /// The application that learned whether an entry was taken out of the
    /// config. Its process is stopped and retires, and the agent's session
    /// returns to history.
    #[verifier::opaque]
    pub open spec fn removal_answered(
        self,
        target: ProcessSpecMatcher,
        occurrence: usize,
        result: Result<(Sections, bool), String>,
        now: Moment,
    ) -> AppModel {
        match result {
            Err(_) => self.noted(Message::WorkspaceSave, now),
            Ok(edited) => if !edited.1 {
                self.noted(Message::DeleteEntryGone, now)
            } else {
                let back = self.focused(Focus::Sidebar);
                let stopping = match process_for(
                    self.roster.processes,
                    self.panes,
                    target@,
                    occurrence as nat,
                ) {
                    Some(process) => back.deleted_stopping(process.id, now),
                    None => back,
                };
                stopping.reconciled_with(edited.0).recovering()
            },
        }
    }

    /// The application that flips the autostart of the selected process.
    #[verifier::opaque]
    pub open spec fn autostart_toggling(self, now: Moment) -> AppModel {
        match (self.catalog.current, self.roster.selected_process()) {
            (Some(place), Some(process)) => if process.origin == ProcessOrigin::Session {
                self.noted(Message::SessionAutostart, now)
            } else {
                match occurrence_of(
                    self.roster.processes,
                    self.panes,
                    process.identity(),
                    process.id,
                ) {
                    None => self.noted(Message::AutostartUntracked, now),
                    Some(occurrence) => self.asked(
                        EffectModel::Plain(
                            Effect::SetAutostart {
                                place,
                                target: ProcessSpecMatcher::for_process(process),
                                occurrence: occurrence as usize,
                                autostart: !process.autostart,
                            },
                        ),
                        Task::AutostartSet { pane: process.id, autostart: !process.autostart },
                    ),
                }
            },
            _ => self,
        }
    }

    /// The application that learned whether the autostart was written. The row
    /// changes only when an entry did.
    #[verifier::opaque]
    pub open spec fn autostart_answered(
        self,
        pane: PaneId,
        autostart: bool,
        result: Result<(Sections, bool), String>,
        now: Moment,
    ) -> AppModel {
        match result {
            Err(_) => self.noted(Message::WorkspaceSave, now),
            Ok(edited) => if edited.1 {
                self.with_roster(self.roster.with_autostart(pane, autostart))
            } else {
                self.noted(Message::AutostartUntracked, now)
            },
        }
    }
}

/// An edited config, section by section.
pub open spec fn edited_sections(result: Result<(WorkspaceConfig, bool), String>) -> Result<
    (Sections, bool),
    String,
> {
    match result {
        Ok(edited) => Ok((edited.0@, edited.1)),
        Err(error) => Err(error),
    }
}

/// A config with an entry added, section by section.
pub open spec fn appended_sections(
    result: Result<(WorkspaceConfig, ProcessSpec, usize), String>,
) -> Result<(Sections, ProcessSpec, usize), String> {
    match result {
        Ok(added) => Ok((added.0@, added.1, added.2)),
        Err(error) => Err(error),
    }
}

/// An occurrence is one of the processes before it.
proof fn occurrence_is_small(
    processes: Seq<Process>,
    panes: Seq<PaneModel>,
    target: Identity,
    pane: PaneId,
)
    ensures
        occurrence_of(processes, panes, target, pane) matches Some(number) ==> number
            < processes.len(),
    decreases processes.len(),
{
    if processes.len() > 0 {
        let rest = processes.drop_last();
        occurrence_is_small(rest, panes, target, pane);
        count_is_small(standing_for(rest, panes, target));
    }
}

/// No more flags are set than there are.
proof fn count_is_small(flags: Seq<bool>)
    ensures
        count_set(flags) <= flags.len(),
    decreases flags.len(),
{
    if flags.len() > 0 {
        count_is_small(flags.drop_last());
    }
}

/// The occurrence that a pane is given leads back to a process with that pane's
/// identity: a change addressed by it reaches the row that the user picked.
pub proof fn an_occurrence_leads_back_to_its_row(
    processes: Seq<Process>,
    panes: Seq<PaneModel>,
    target: Identity,
    pane: PaneId,
)
    ensures
        occurrence_of(processes, panes, target, pane) matches Some(number) ==> process_for(
            processes,
            panes,
            target,
            number,
        ) matches Some(process) && process.id == pane && stands_for(process, panes, target),
    decreases processes.len(),
{
    if processes.len() > 0 {
        let rest = processes.drop_last();
        let flags = standing_for(processes, panes, target);
        an_occurrence_leads_back_to_its_row(rest, panes, target, pane);
        assert(flags.drop_last() =~= standing_for(rest, panes, target));
        match occurrence_of(rest, panes, target, pane) {
            Some(number) => {
                crate::config::nth_set_is_the_nth(flags.drop_last(), number);
                let index = nth_set(flags.drop_last(), number)->0;
                assert(rest[index] == processes[index]);
                nth_set_of_prefix(flags, number);
            },
            None => {
                if stands_for(processes.last(), panes, target) && processes.last().id == pane {
                    let number = count_set(flags.drop_last());
                    assert(flags.last());
                    nth_set_at_end(flags);
                }
            },
        }
    }
}

/// A flag found in a prefix is found in the whole.
proof fn nth_set_of_prefix(flags: Seq<bool>, n: nat)
    requires
        flags.len() > 0,
        nth_set(flags.drop_last(), n) is Some,
    ensures
        nth_set(flags, n) == nth_set(flags.drop_last(), n),
{
    reveal_with_fuel(nth_set, 2);
}

/// The last flag, when it is set, is the one after all set flags before it.
proof fn nth_set_at_end(flags: Seq<bool>)
    requires
        flags.len() > 0,
        flags.last(),
    ensures
        nth_set(flags, count_set(flags.drop_last())) == Some(flags.len() - 1),
{
    nth_set_beyond(flags.drop_last());
}

/// There is no flag behind the last set one.
proof fn nth_set_beyond(flags: Seq<bool>)
    ensures
        nth_set(flags, count_set(flags)) is None,
{
    crate::config::nth_set_is_the_nth(flags, count_set(flags));
}

impl App {
    /// Returns whether a process stands for an entry with an identity.
    fn stands_for_entry(&self, process: &Process, target: &ProcessSpecMatcher) -> (stands: bool)
        ensures
            stands == stands_for(*process, self@.panes, target@),
    {
        process.origin == ProcessOrigin::Configured && !self.panes.is_retiring(process.id)
            && target.matches_process(process)
    }

    /// Returns which processes stand for entries with an identity.
    fn entry_flags(&self, target: &ProcessSpecMatcher) -> (flags: Vec<bool>)
        ensures
            flags@ == standing_for(self@.roster.processes, self@.panes, target@),
    {
        let mut flags: Vec<bool> = Vec::new();
        let mut i: usize = 0;
        while i < self.workspace.processes.len()
            invariant
                i <= self.workspace.processes@.len(),
                flags@ == standing_for(
                    self@.roster.processes.take(i as int),
                    self@.panes,
                    target@,
                ),
            decreases self.workspace.processes@.len() - i,
        {
            flags.push(self.stands_for_entry(&self.workspace.processes[i], target));
            i = i + 1;
            assert(flags@ =~= standing_for(
                self@.roster.processes.take(i as int),
                self@.panes,
                target@,
            ));
        }
        assert(self@.roster.processes.take(i as int) =~= self@.roster.processes);
        flags
    }

    /// Returns the process that stands for one of the entries with an identity.
    pub fn configured_process_for_spec_occurrence(
        &self,
        target: &ProcessSpecMatcher,
        occurrence: usize,
    ) -> (found: Option<&Process>)
        ensures
            match found {
                Some(process) => process_for(
                    self@.roster.processes,
                    self@.panes,
                    target@,
                    occurrence as nat,
                ) == Some(*process),
                None => process_for(
                    self@.roster.processes,
                    self@.panes,
                    target@,
                    occurrence as nat,
                ) is None,
            },
    {
        let flags: Vec<bool> = self.entry_flags(target);
        match find_nth(&flags, occurrence) {
            Some(index) => {
                proof {
                    crate::config::nth_set_is_the_nth(flags@, occurrence as nat);
                }
                Some(&self.workspace.processes[index])
            },
            None => None,
        }
    }

    /// Returns which of the entries with an identity a pane stands for. `None`
    /// for a pane that stands for none, such as one that retires.
    pub fn configured_occurrence_of(&self, target: &ProcessSpecMatcher, pane: PaneId) -> (number:
        Option<usize>)
        ensures
            match number {
                Some(number) => occurrence_of(
                    self@.roster.processes,
                    self@.panes,
                    target@,
                    pane,
                ) == Some(number as nat),
                None => occurrence_of(self@.roster.processes, self@.panes, target@, pane) is None,
            },
    {
        let mut i: usize = 0;
        let mut count: usize = 0;
        let mut found: Option<usize> = None;
        let ghost processes = self@.roster.processes;
        let ghost panes = self@.panes;
        assert(processes.take(0).len() == 0);
        assert(standing_for(processes.take(0), panes, target@).len() == 0);
        while i < self.workspace.processes.len()
            invariant
                i <= processes.len(),
                processes == self@.roster.processes,
                processes == self.workspace.processes@,
                panes == self@.panes,
                count <= i,
                count == count_set(standing_for(processes.take(i as int), panes, target@)),
                match found {
                    Some(number) => occurrence_of(
                        processes.take(i as int),
                        panes,
                        target@,
                        pane,
                    ) == Some(number as nat),
                    None => occurrence_of(processes.take(i as int), panes, target@, pane) is None,
                },
            decreases processes.len() - i,
        {
            let ghost longer = processes.take(i + 1);
            assert(longer.drop_last() =~= processes.take(i as int));
            assert(longer.last() == processes[i as int]);
            assert(standing_for(longer, panes, target@).drop_last() =~= standing_for(
                processes.take(i as int),
                panes,
                target@,
            ));
            let process: &Process = &self.workspace.processes[i];
            if self.stands_for_entry(process, target) {
                if found.is_none() && process.id == pane {
                    found = Some(count);
                }
                count = count + 1;
            }
            i = i + 1;
        }
        assert(processes.take(i as int) =~= processes);
        found
    }

    /// Returns whether a configured agent already uses a name.
    fn configured_agent_name_taken(&self, name: &String) -> (taken: bool)
        ensures
            taken == agent_name_taken(self@.roster.processes, name@),
    {
        let mut i: usize = 0;
        while i < self.workspace.processes.len()
            invariant
                i <= self.workspace.processes@.len(),
                forall|j: int|
                    0 <= j < i ==> !((#[trigger] self@.roster.processes[j]).kind
                        == ProcessKind::Agent && self@.roster.processes[j].origin
                        == ProcessOrigin::Configured && self@.roster.processes[j].name@ == name@),
            decreases self.workspace.processes@.len() - i,
        {
            let process: &Process = &self.workspace.processes[i];
            if process.kind == ProcessKind::Agent && process.origin == ProcessOrigin::Configured
                && same_text(&process.name, name) {
                assert(self@.roster.processes[i as int].name@ == name@);
                return true;
            }
            i = i + 1;
        }
        false
    }

    /// Resolves the name of a new configured process. An agent's name is
    /// optional and must be unique among the project's agents: a blank input
    /// generates a fresh name, while a provided one is rejected if it collides.
    /// Terminals and commands require a name and silently reject a blank one.
    pub fn resolve_configured_name(
        &mut self,
        kind: ProcessKind,
        input: String,
        now: Moment,
    ) -> (name: Option<String>)
        ensures
            match old(self)@.name_choice(kind, input@) {
                NameChoice::Chosen(chosen) => name matches Some(name) && name@ == chosen
                    && final(self)@ == old(self)@,
                NameChoice::Taken => name is None && final(self)@ == old(self)@.complained(
                    Message::NameTaken,
                    now,
                ),
                NameChoice::Invalid => name is None && final(self)@ == old(self)@,
            },
    {
        if kind == ProcessKind::Agent && is_blank(&input) {
            return configured_name_from(&self.world.names, &self.workspace);
        }
        if !can_name(&input) {
            return None;
        }
        if kind == ProcessKind::Agent && self.configured_agent_name_taken(&input) {
            self.report_error(Message::NameTaken, now);
            return None;
        }
        Some(input)
    }

    /// Asks for a new entry to be appended to the config through the registry's
    /// locked read-modify-write.
    pub fn write_configured_spec(&mut self, kind: ProcessKind, spec: ProcessSpec, task: Task)
        ensures
            final(self)@ == old(self)@.appending(kind, spec@, task),
    {
        if let Some(place) = copy_location(&self.catalog.current) {
            self.ask(Effect::Append { place, kind, spec }, task);
        }
    }

    /// Adds a persistent terminal, command, or agent.
    pub fn add_configured_process(
        &mut self,
        kind: ProcessKind,
        name: &String,
        command: &String,
        now: Moment,
    )
        ensures
            final(self)@ == old(self)@.entry_added(kind, name@, command@, now),
    {
        let name: String = match self.resolve_configured_name(kind, trim(name), now) {
            Some(name) => name,
            None => return,
        };
        let line: String = trim(command);
        let command: Option<String> = if is_blank(&line) {
            None
        } else {
            Some(line)
        };
        if kind == ProcessKind::Agent && command.is_none() {
            self.report_error(Message::CommandRequired, now);
            return;
        }
        self.persist_configured_process(kind, name, command, None);
    }

    /// Persists a resolved configured process. `working_dir` pins the process
    /// to a directory other than the workspace folder.
    pub fn persist_configured_process(
        &mut self,
        kind: ProcessKind,
        name: String,
        command: Option<String>,
        working_dir: Option<String>,
    )
        ensures
            final(self)@ == old(self)@.appending(
                kind,
                SpecModel {
                    name: name@,
                    command: opt_text(command),
                    working_dir: opt_text(working_dir),
                    restart: None,
                    autostart: None,
                    stop: None,
                    agent_tool: None,
                },
                Task::Appended(kind),
            ),
    {
        self.write_configured_spec(
            kind,
            ProcessSpec::new(name, command, working_dir),
            Task::Appended(kind),
        );
    }

    /// Reconciles a just-written config in place and launches the appended
    /// process.
    pub fn reconcile_configured_launch(
        &mut self,
        kind: ProcessKind,
        config: &WorkspaceConfig,
        spec: &ProcessSpec,
        occurrence: usize,
    )
        ensures
            final(self)@ == old(self)@.entry_launching(kind, config@, *spec, occurrence),
    {
        self.overlay = None;
        self.reconcile_config(config);
        let target: ProcessSpecMatcher = ProcessSpecMatcher::of_spec(kind, spec);
        let launch: Option<PaneId> = match self.configured_process_for_spec_occurrence(
            &target,
            occurrence,
        ) {
            Some(process) => if process.autostart && !process.state.is_active() {
                Some(process.id)
            } else {
                None
            },
            None => None,
        };
        if let Some(pane) = launch {
            self.defer(Task::Launch { pane, purpose: LaunchPurpose::Automatic });
        }
        self.defer(Task::LinkAgents);
    }

    /// Goes on after an entry was appended, or was not.
    pub fn handle_appended(
        &mut self,
        kind: ProcessKind,
        result: Result<(WorkspaceConfig, ProcessSpec, usize), String>,
        now: Moment,
    )
        ensures
            final(self)@ == old(self)@.append_answered(kind, appended_sections(result), now),
    {
        proof {
            reveal(AppModel::append_answered);
        }
        match result {
            Ok((config, spec, occurrence)) => {
                self.reconcile_configured_launch(kind, &config, &spec, occurrence);
            },
            Err(_) => self.report_error(Message::WorkspaceSave, now),
        }
    }

    /// On a process row, either deletes a configured process from the config or
    /// closes a disposable runtime agent session. Both are confirmed first.
    pub fn confirm_delete_selected(&mut self, now: Moment)
        ensures
            final(self)@ == old(self)@.delete_confirmation(now),
    {
        proof {
            reveal(AppModel::delete_confirmation);
        }
        let process: Process = match self.workspace.selected_process() {
            Some(process) => process.copied(),
            None => return,
        };
        if process.origin == ProcessOrigin::Configured {
            let place: Location = match copy_location(&self.catalog.current) {
                Some(place) => place,
                None => return,
            };
            let target: ProcessSpecMatcher = ProcessSpecMatcher::of(&process);
            let occurrence: usize = match self.configured_occurrence_of(&target, process.id) {
                Some(occurrence) => occurrence,
                None => {
                    self.set_notice(Message::DeleteAlreadyRetiring, now);
                    return;
                },
            };
            self.overlay =
            Some(
                Overlay::ConfirmProcessRemoval {
                    prompt: Prompt::DeleteProcess { kind: process.kind, name: process.name },
                    target,
                    occurrence,
                    place,
                },
            );
            return;
        }
        if process.kind != ProcessKind::Agent {
            return;
        }
        self.confirm_session_close(process.id, process.name);
    }

    /// Deletes one of the configured processes with an identity from the config
    /// at a place. The row is resolved by identity, not by a stored pane, so
    /// that a reconcile that reused the pane cannot delete the wrong entry.
    pub fn remove_configured_process(
        &mut self,
        target: ProcessSpecMatcher,
        occurrence: usize,
        place: Location,
        now: Moment,
    )
        ensures
            final(self)@ == old(self)@.entry_removing(target, occurrence, place, now),
    {
        proof {
            reveal(AppModel::entry_removing);
        }
        let same: bool = match &self.catalog.current {
            Some(current) => current.same_config_location(&place),
            None => false,
        };
        if !same {
            self.set_notice(Message::DeleteProjectChanged, now);
            return;
        }
        let task: Task = Task::EntryRemoved { target: target.copied(), occurrence };
        self.ask(Effect::RemoveEntry { place, target, occurrence }, task);
    }

    /// Stops the process of a deleted entry through the same graceful path as
    /// any stop, and pins its retirement to the pane that the user picked.
    fn stop_deleted(&mut self, pane: PaneId, now: Moment)
        ensures
            final(self)@ == old(self)@.deleted_stopping(pane, now),
    {
        self.ledger.mark_deleted(pane);
        if let Some(life) = self.panes.life(pane) {
            if life.alive && life.exit_intent.accepts_stop_request() {
                self.request_graceful_transition(pane, false, now);
            }
        }
    }

    /// Goes on after an entry was taken out of the config, or was not.
    pub fn handle_entry_removed(
        &mut self,
        target: &ProcessSpecMatcher,
        occurrence: usize,
        result: Result<(WorkspaceConfig, bool), String>,
        now: Moment,
    )
        ensures
            final(self)@ == old(self)@.removal_answered(
                *target,
                occurrence,
                edited_sections(result),
                now,
            ),
    {
        proof {
            reveal(AppModel::removal_answered);
        }
        let config: WorkspaceConfig = match result {
            Err(_) => {
                self.set_notice(Message::WorkspaceSave, now);
                return;
            },
            Ok((config, hit)) => {
                if !hit {
                    self.set_notice(Message::DeleteEntryGone, now);
                    return;
                }
                config
            },
        };
        self.focus = Focus::Sidebar;
        let pane: Option<PaneId> = match self.configured_process_for_spec_occurrence(
            target,
            occurrence,
        ) {
            Some(process) => Some(process.id),
            None => None,
        };
        if let Some(pane) = pane {
            self.stop_deleted(pane, now);
        }
        self.reconcile_config(&config);
        self.recover_orphaned_pins();
    }

    /// Flips the selected process's autostart on or off. The explicit value is
    /// written to the matching entry first.
    pub fn toggle_selected_autostart(&mut self, now: Moment)
        ensures
            final(self)@ == old(self)@.autostart_toggling(now),
    {
        proof {
            reveal(AppModel::autostart_toggling);
        }
        let place: Location = match copy_location(&self.catalog.current) {
            Some(place) => place,
            None => return,
        };
        let process: Process = match self.workspace.selected_process() {
            Some(process) => process.copied(),
            None => return,
        };
        if process.origin == ProcessOrigin::Session {
            self.set_notice(Message::SessionAutostart, now);
            return;
        }
        let target: ProcessSpecMatcher = ProcessSpecMatcher::of(&process);
        let occurrence: usize = match self.configured_occurrence_of(&target, process.id) {
            Some(occurrence) => occurrence,
            None => {
                self.set_notice(Message::AutostartUntracked, now);
                return;
            },
        };
        let autostart: bool = !process.autostart;
        self.ask(
            Effect::SetAutostart { place, target, occurrence, autostart },
            Task::AutostartSet { pane: process.id, autostart },
        );
    }

    /// Goes on after the autostart was written, or was not.
    pub fn handle_autostart_set(
        &mut self,
        pane: PaneId,
        autostart: bool,
        result: Result<(WorkspaceConfig, bool), String>,
        now: Moment,
    )
        ensures
            final(self)@ == old(self)@.autostart_answered(
                pane,
                autostart,
                edited_sections(result),
                now,
            ),
    {
        proof {
            reveal(AppModel::autostart_answered);
        }
        match result {
            Err(_) => self.set_notice(Message::WorkspaceSave, now),
            Ok((_, edited)) => {
                if edited {
                    self.workspace.set_autostart(pane, autostart);
                } else {
                    self.set_notice(Message::AutostartUntracked, now);
                }
            },
        }
    }
}

} // verus!
