//! Workspace configurations and the edits made to them.

use vstd::prelude::*;
use crate::process::{
    effective_stop, effective_stop_of, ActivityState, AgentTool, PaneId, Process, ProcessKind,
    ProcessOrigin, ProcessState, RestartPolicy, StopPolicy,
};
use crate::text::{copy_opt, opt_text, same_opt_text, same_text};
use crate::workspace::Roster;

verus! {

/// Name of the workspace configuration file inside a project's folder.
pub const WORKSPACE_FILE_NAME: &'static str = "muster.yml";

/// Name of the terminal that a new project starts with.
pub const STARTER_TERMINAL: &'static str = "Terminal";

/// One configured process.
#[derive(Debug)]
pub struct ProcessSpec {
    /// Display name.
    pub name: String,
    /// Command line; the login shell where there is none.
    pub command: Option<String>,
    /// Directory to launch in, where it is not the workspace's.
    pub working_dir: Option<String>,
    /// When the process is started again on its own; never where it is absent.
    pub restart: Option<RestartPolicy>,
    /// Whether the process starts with the workspace; by kind where absent.
    pub autostart: Option<bool>,
    /// Configured stop policy.
    pub stop: Option<StopPolicy>,
    /// Provider that the command belongs to, for an agent.
    pub agent_tool: Option<AgentTool>,
}

/// What tells one configured process from another: everything that decides how
/// it runs, with defaults filled in.
pub struct Identity {
    /// Section.
    pub kind: ProcessKind,
    /// Display name.
    pub name: Seq<char>,
    /// Command line.
    pub command: Option<Seq<char>>,
    /// Launch directory.
    pub working_dir: Option<Seq<char>>,
    /// Restart policy.
    pub restart: RestartPolicy,
    /// Whether it starts with the workspace.
    pub autostart: bool,
    /// The stop policy that governs.
    pub stop: Option<StopPolicy>,
}

impl ProcessSpec {
    /// A specification that leaves everything but the name and command to the
    /// defaults.
    pub fn new(name: String, command: Option<String>, working_dir: Option<String>) -> (spec: Self)
        ensures
            spec == ProcessSpec::plain(name, command, working_dir),
    {
        ProcessSpec {
            name,
            command,
            working_dir,
            restart: None,
            autostart: None,
            stop: None,
            agent_tool: None,
        }
    }

    /// The specification that leaves everything but its name, command and
    /// directory to the defaults.
    pub open spec fn plain(
        name: String,
        command: Option<String>,
        working_dir: Option<String>,
    ) -> ProcessSpec {
        ProcessSpec {
            name,
            command,
            working_dir,
            restart: None,
            autostart: None,
            stop: None,
            agent_tool: None,
        }
    }

    /// The restart policy with its default filled in.
    pub open spec fn policy(self) -> RestartPolicy {
        match self.restart {
            Some(restart) => restart,
            None => RestartPolicy::Never,
        }
    }

    /// Whether the process starts with the workspace, by kind where unsaid.
    pub open spec fn starts(self, kind: ProcessKind) -> bool {
        match self.autostart {
            Some(autostart) => autostart,
            None => kind.starts_by_default(),
        }
    }

    /// What tells this process from another in the section `kind`.
    pub open spec fn identity(self, kind: ProcessKind) -> Identity {
        Identity {
            kind,
            name: self.name@,
            command: opt_text(self.command),
            working_dir: opt_text(self.working_dir),
            restart: self.policy(),
            autostart: self.starts(kind),
            stop: effective_stop(kind, self.stop),
        }
    }

    /// The pending process that this specification describes.
    pub open spec fn as_process(self, id: PaneId, kind: ProcessKind) -> Process {
        Process {
            id,
            name: self.name,
            kind,
            agent_tool: if kind == ProcessKind::Agent {
                self.agent_tool
            } else {
                None
            },
            agent_session_id: None,
            origin: ProcessOrigin::Configured,
            command: self.command,
            working_dir: self.working_dir,
            restart: self.policy(),
            autostart: self.starts(kind),
            stop: self.stop,
            state: ProcessState::Pending,
            activity: ActivityState::Idle,
        }
    }

    /// Returns a copy of this specification.
    pub fn copied(&self) -> (copy: ProcessSpec)
        ensures
            copy == *self,
    {
        ProcessSpec {
            name: self.name.clone(),
            command: copy_opt(&self.command),
            working_dir: copy_opt(&self.working_dir),
            restart: self.restart,
            autostart: self.autostart,
            stop: self.stop,
            agent_tool: self.agent_tool,
        }
    }

    /// Returns the restart policy with its default filled in.
    pub fn restart_policy(&self) -> (policy: RestartPolicy)
        ensures
            policy == self.policy(),
    {
        match self.restart {
            Some(restart) => restart,
            None => RestartPolicy::Never,
        }
    }

    /// Returns whether the process starts with the workspace.
    pub fn autostarts(&self, kind: ProcessKind) -> (starts: bool)
        ensures
            starts == self.starts(kind),
    {
        match self.autostart {
            Some(autostart) => autostart,
            None => kind != ProcessKind::Command,
        }
    }

    /// Returns the pending process that this specification describes.
    pub fn to_process(&self, id: PaneId, kind: ProcessKind) -> (process: Process)
        ensures
            process == self.as_process(id, kind),
    {
        Process {
            id,
            name: self.name.clone(),
            kind,
            agent_tool: if kind == ProcessKind::Agent {
                self.agent_tool
            } else {
                None
            },
            agent_session_id: None,
            origin: ProcessOrigin::Configured,
            command: copy_opt(&self.command),
            working_dir: copy_opt(&self.working_dir),
            restart: self.restart_policy(),
            autostart: self.autostarts(kind),
            stop: self.stop,
            state: ProcessState::Pending,
            activity: ActivityState::Idle,
        }
    }
}

impl Process {
    /// What tells this process from another configured one.
    pub open spec fn identity(self) -> Identity {
        Identity {
            kind: self.kind,
            name: self.name@,
            command: opt_text(self.command),
            working_dir: opt_text(self.working_dir),
            restart: self.restart,
            autostart: self.autostart,
            stop: effective_stop(self.kind, self.stop),
        }
    }
}

/// A specification and the process made from it have the same identity.
pub proof fn a_process_keeps_the_identity_of_its_spec(
    spec: ProcessSpec,
    id: PaneId,
    kind: ProcessKind,
)
    ensures
        spec.as_process(id, kind).identity() == spec.identity(kind),
{
}

/// Writing the standard stop policy of a command out changes nothing about its
/// identity.
pub proof fn the_standard_stop_policy_may_be_written_out(spec: ProcessSpec)
    requires
        spec.stop is None,
    ensures
        (ProcessSpec { stop: Some(StopPolicy::standard()), ..spec }).identity(ProcessKind::Command)
            == spec.identity(ProcessKind::Command),
{
}

/// Recognises the configured processes that share one identity.
#[derive(Debug)]
pub struct ProcessSpecMatcher {
    /// Section.
    pub kind: ProcessKind,
    /// Display name.
    pub name: String,
    /// Command line.
    pub command: Option<String>,
    /// Launch directory.
    pub working_dir: Option<String>,
    /// Restart policy.
    pub restart: RestartPolicy,
    /// Whether it starts with the workspace.
    pub autostart: bool,
    /// The stop policy that governs.
    pub stop: Option<StopPolicy>,
}

impl View for ProcessSpecMatcher {
    type V = Identity;

    open spec fn view(&self) -> Identity {
        Identity {
            kind: self.kind,
            name: self.name@,
            command: opt_text(self.command),
            working_dir: opt_text(self.working_dir),
            restart: self.restart,
            autostart: self.autostart,
            stop: self.stop,
        }
    }
}

impl ProcessSpecMatcher {
    /// The matcher of a process's identity.
    pub open spec fn for_process(process: Process) -> ProcessSpecMatcher {
        ProcessSpecMatcher {
            kind: process.kind,
            name: process.name,
            command: process.command,
            working_dir: process.working_dir,
            restart: process.restart,
            autostart: process.autostart,
            stop: effective_stop(process.kind, process.stop),
        }
    }

    /// Returns the matcher of a process's identity.
    pub fn of(process: &Process) -> (matcher: Self)
        ensures
            matcher@ == process.identity(),
            matcher == ProcessSpecMatcher::for_process(*process),
    {
        ProcessSpecMatcher {
            kind: process.kind,
            name: process.name.clone(),
            command: copy_opt(&process.command),
            working_dir: copy_opt(&process.working_dir),
            restart: process.restart,
            autostart: process.autostart,
            stop: effective_stop_of(process.kind, process.stop),
        }
    }

    /// Returns the matcher of a specification's identity in its section.
    pub fn of_spec(kind: ProcessKind, spec: &ProcessSpec) -> (matcher: Self)
        ensures
            matcher@ == spec.identity(kind),
    {
        ProcessSpecMatcher {
            kind,
            name: spec.name.clone(),
            command: copy_opt(&spec.command),
            working_dir: copy_opt(&spec.working_dir),
            restart: spec.restart_policy(),
            autostart: spec.autostarts(kind),
            stop: effective_stop_of(kind, spec.stop),
        }
    }

    /// Returns a copy of this matcher.
    pub fn copied(&self) -> (copy: ProcessSpecMatcher)
        ensures
            copy == *self,
    {
        ProcessSpecMatcher {
            kind: self.kind,
            name: self.name.clone(),
            command: copy_opt(&self.command),
            working_dir: copy_opt(&self.working_dir),
            restart: self.restart,
            autostart: self.autostart,
            stop: self.stop,
        }
    }

    /// Returns whether two matchers recognise the same identity.
    pub fn same(&self, other: &ProcessSpecMatcher) -> (same: bool)
        ensures
            same == (self@ == other@),
    {
        self.kind == other.kind && same_text(&self.name, &other.name) && same_opt_text(
            &self.command,
            &other.command,
        ) && same_opt_text(&self.working_dir, &other.working_dir) && self.restart == other.restart
            && self.autostart == other.autostart && same_policy(self.stop, other.stop)
    }

    /// Returns whether a specification of the matcher's section has its
    /// identity.
    pub fn matches(&self, spec: &ProcessSpec) -> (matched: bool)
        ensures
            matched == (spec.identity(self.kind) == self@),
    {
        self.same(&ProcessSpecMatcher::of_spec(self.kind, spec))
    }

    /// Returns whether a process has the matcher's identity.
    pub fn matches_process(&self, process: &Process) -> (matched: bool)
        ensures
            matched == (process.identity() == self@),
    {
        self.same(&ProcessSpecMatcher::of(process))
    }
}

/// Returns whether two optional policies are the same.
fn same_policy(a: Option<StopPolicy>, b: Option<StopPolicy>) -> (same: bool)
    ensures
        same == (a == b),
{
    match a {
        Some(x) => match b {
            Some(y) => x == y,
            None => false,
        },
        None => b.is_none(),
    }
}

/// How many of `flags` are set.
pub open spec fn count_set(flags: Seq<bool>) -> nat
    decreases flags.len(),
{
    if flags.len() == 0 {
        0
    } else {
        count_set(flags.drop_last()) + if flags.last() {
            1nat
        } else {
            0nat
        }
    }
}

/// The position of the set flag before which exactly `n` others are set.
pub open spec fn nth_set(flags: Seq<bool>, n: nat) -> Option<int>
    decreases flags.len(),
{
    if flags.len() == 0 {
        None
    } else {
        match nth_set(flags.drop_last(), n) {
            Some(index) => Some(index),
            None => if flags.last() && count_set(flags.drop_last()) == n {
                Some(flags.len() - 1)
            } else {
                None
            },
        }
    }
}

/// The position found by [`nth_set`] is a set flag with `n` set flags before
/// it; it is found exactly when more than `n` flags are set.
pub proof fn nth_set_is_the_nth(flags: Seq<bool>, n: nat)
    ensures
        nth_set(flags, n) is Some <==> n < count_set(flags),
        nth_set(flags, n) matches Some(index) ==> 0 <= index < flags.len() && flags[index]
            && count_set(flags.take(index)) == n,
    decreases flags.len(),
{
    if flags.len() > 0 {
        let rest = flags.drop_last();
        nth_set_is_the_nth(rest, n);
        match nth_set(rest, n) {
            Some(index) => {
                assert(flags.take(index) =~= rest.take(index));
            },
            None => {
                assert(flags.take(flags.len() - 1) =~= rest);
            },
        }
    }
}

/// Returns the position of the set flag before which exactly `n` are set.
pub fn find_nth(flags: &Vec<bool>, n: usize) -> (found: Option<usize>)
    ensures
        match found {
            Some(index) => nth_set(flags@, n as nat) == Some(index as int),
            None => nth_set(flags@, n as nat) is None,
        },
        found matches Some(index) ==> index < flags@.len(),
{
    let mut seen: usize = 0;
    let mut i: usize = 0;
    assert(flags@.take(0) =~= Seq::empty());
    while i < flags.len()
        invariant
            i <= flags@.len(),
            seen <= i,
            seen == count_set(flags@.take(i as int)),
            nth_set(flags@.take(i as int), n as nat) is None,
        decreases flags@.len() - i,
    {
        assert(flags@.take(i + 1).drop_last() =~= flags@.take(i as int));
        assert(flags@.take(i + 1).last() == flags@[i as int]);
        if flags[i] {
            if seen == n {
                proof {
                    nth_set_is_stable(flags@, i + 1, n as nat);
                }
                return Some(i);
            }
            seen = seen + 1;
        }
        i = i + 1;
    }
    assert(flags@.take(flags@.len() as int) =~= flags@);
    None
}

/// A position found among the first flags is the position found among all.
proof fn nth_set_is_stable(flags: Seq<bool>, upto: int, n: nat)
    requires
        0 <= upto <= flags.len(),
        nth_set(flags.take(upto), n) is Some,
    ensures
        nth_set(flags, n) == nth_set(flags.take(upto), n),
    decreases flags.len(),
{
    if upto == flags.len() {
        assert(flags.take(upto) =~= flags);
    } else {
        assert(flags.drop_last().take(upto) =~= flags.take(upto));
        nth_set_is_stable(flags.drop_last(), upto, n);
    }
}

/// The configured processes of one workspace, by section.
#[derive(Debug)]
pub struct WorkspaceConfig {
    /// Agents.
    pub agents: Vec<ProcessSpec>,
    /// Terminals.
    pub terminals: Vec<ProcessSpec>,
    /// Commands.
    pub commands: Vec<ProcessSpec>,
}

/// The sections of a configuration as sequences.
#[verifier::ext_equal]
pub struct Sections {
    /// Agents.
    pub agents: Seq<ProcessSpec>,
    /// Terminals.
    pub terminals: Seq<ProcessSpec>,
    /// Commands.
    pub commands: Seq<ProcessSpec>,
}

impl View for WorkspaceConfig {
    type V = Sections;

    open spec fn view(&self) -> Sections {
        Sections {
            agents: self.agents@,
            terminals: self.terminals@,
            commands: self.commands@,
        }
    }
}

/// A specification together with its section.
#[derive(Debug)]
pub struct Entry {
    /// Section.
    pub kind: ProcessKind,
    /// Specification.
    pub spec: ProcessSpec,
}

impl Entry {
    /// What tells the entry's process from another.
    pub open spec fn identity(self) -> Identity {
        self.spec.identity(self.kind)
    }
}

/// The entries of one section.
pub open spec fn entries_of(kind: ProcessKind, specs: Seq<ProcessSpec>) -> Seq<Entry> {
    specs.map_values(|spec: ProcessSpec| Entry { kind, spec })
}

/// The flags of the specifications that have the identity `id`.
pub open spec fn spec_flags(kind: ProcessKind, specs: Seq<ProcessSpec>, id: Identity) -> Seq<bool> {
    specs.map_values(|spec: ProcessSpec| spec.identity(kind) == id)
}

/// How many of the specifications have the identity `id`.
pub open spec fn occurrences(kind: ProcessKind, specs: Seq<ProcessSpec>, id: Identity) -> nat {
    count_set(spec_flags(kind, specs, id))
}

impl Sections {
    /// The specifications of one section.
    pub open spec fn section(self, kind: ProcessKind) -> Seq<ProcessSpec> {
        match kind {
            ProcessKind::Agent => self.agents,
            ProcessKind::Terminal => self.terminals,
            ProcessKind::Command => self.commands,
        }
    }

    /// The configuration with one section replaced.
    pub open spec fn with_section(self, kind: ProcessKind, specs: Seq<ProcessSpec>) -> Sections {
        match kind {
            ProcessKind::Agent => Sections { agents: specs, ..self },
            ProcessKind::Terminal => Sections { terminals: specs, ..self },
            ProcessKind::Command => Sections { commands: specs, ..self },
        }
    }

    /// Every entry: agents, then terminals, then commands.
    pub open spec fn entries(self) -> Seq<Entry> {
        entries_of(ProcessKind::Agent, self.agents) + entries_of(
            ProcessKind::Terminal,
            self.terminals,
        ) + entries_of(ProcessKind::Command, self.commands)
    }

    /// The configuration with `spec` added at the end of the section `kind`.
    pub open spec fn appended(self, kind: ProcessKind, spec: ProcessSpec) -> Sections {
        self.with_section(kind, self.section(kind).push(spec))
    }

    /// The position, in its section, of an occurrence of the identity `id`.
    pub open spec fn place_of(self, id: Identity, occurrence: nat) -> Option<int> {
        nth_set(spec_flags(id.kind, self.section(id.kind), id), occurrence)
    }

    /// The configuration without one occurrence of the identity `id`.
    pub open spec fn without(self, id: Identity, occurrence: nat) -> Sections {
        match self.place_of(id, occurrence) {
            Some(place) => self.with_section(id.kind, self.section(id.kind).remove(place)),
            None => self,
        }
    }

    /// The configuration with the autostart of one occurrence of the identity
    /// `id` replaced.
    pub open spec fn with_autostart(
        self,
        id: Identity,
        occurrence: nat,
        autostart: Option<bool>,
    ) -> Sections {
        match self.place_of(id, occurrence) {
            Some(place) => self.with_section(
                id.kind,
                self.section(id.kind).update(
                    place,
                    ProcessSpec { autostart, ..self.section(id.kind)[place] },
                ),
            ),
            None => self,
        }
    }

    /// The processes of a workspace loaded afresh, numbered in order.
    pub open spec fn processes(self) -> Seq<Process> {
        Seq::new(
            self.entries().len(),
            |i: int| self.entries()[i].spec.as_process(i as u64, self.entries()[i].kind),
        )
    }

    /// The rows that a preview of the configuration shows.
    pub open spec fn preview(self) -> Seq<(ProcessKind, String)> {
        self.entries().map_values(|entry: Entry| (entry.kind, entry.spec.name))
    }
}

/// Returns a copy of a list of specifications.
pub fn copy_specs(specs: &Vec<ProcessSpec>) -> (copy: Vec<ProcessSpec>)
    ensures
        copy@ == specs@,
{
    let mut copy: Vec<ProcessSpec> = Vec::new();
    let mut i: usize = 0;
    while i < specs.len()
        invariant
            i <= specs@.len(),
            copy@ == specs@.take(i as int),
        decreases specs@.len() - i,
    {
        copy.push(specs[i].copied());
        i = i + 1;
        assert(copy@ =~= specs@.take(i as int));
    }
    assert(copy@ =~= specs@);
    copy
}

/// Appends the entries of one section to a list.
fn push_entries(entries: &mut Vec<Entry>, kind: ProcessKind, specs: &Vec<ProcessSpec>)
    ensures
        final(entries)@ == old(entries)@ + entries_of(kind, specs@),
{
    let mut i: usize = 0;
    while i < specs.len()
        invariant
            i <= specs@.len(),
            entries@ == old(entries)@ + entries_of(kind, specs@.take(i as int)),
        decreases specs@.len() - i,
    {
        entries.push(Entry { kind, spec: specs[i].copied() });
        i = i + 1;
        assert(entries@ =~= old(entries)@ + entries_of(kind, specs@.take(i as int)));
    }
    assert(specs@.take(specs@.len() as int) =~= specs@);
}

impl WorkspaceConfig {
    /// Returns a copy of this configuration.
    pub fn copied(&self) -> (copy: WorkspaceConfig)
        ensures
            copy@ == self@,
    {
        WorkspaceConfig {
            agents: copy_specs(&self.agents),
            terminals: copy_specs(&self.terminals),
            commands: copy_specs(&self.commands),
        }
    }

    /// Returns the specifications of one section.
    pub fn section(&self, kind: ProcessKind) -> (specs: &Vec<ProcessSpec>)
        ensures
            specs@ == self@.section(kind),
    {
        match kind {
            ProcessKind::Agent => &self.agents,
            ProcessKind::Terminal => &self.terminals,
            ProcessKind::Command => &self.commands,
        }
    }

    /// Returns this configuration with one section replaced.
    pub fn with_section(self, kind: ProcessKind, specs: Vec<ProcessSpec>) -> (config: Self)
        ensures
            config@ == self@.with_section(kind, specs@),
    {
        match kind {
            ProcessKind::Agent => WorkspaceConfig {
                agents: specs,
                terminals: self.terminals,
                commands: self.commands,
            },
            ProcessKind::Terminal => WorkspaceConfig {
                agents: self.agents,
                terminals: specs,
                commands: self.commands,
            },
            ProcessKind::Command => WorkspaceConfig {
                agents: self.agents,
                terminals: self.terminals,
                commands: specs,
            },
        }
    }

    /// Returns every entry: agents, then terminals, then commands.
    pub fn entries(&self) -> (entries: Vec<Entry>)
        ensures
            entries@ == self@.entries(),
    {
        let mut entries: Vec<Entry> = Vec::new();
        push_entries(&mut entries, ProcessKind::Agent, &self.agents);
        push_entries(&mut entries, ProcessKind::Terminal, &self.terminals);
        push_entries(&mut entries, ProcessKind::Command, &self.commands);
        assert(entries@ =~= self@.entries());
        entries
    }

    /// Returns the processes of a workspace loaded afresh, numbered in order.
    pub fn to_processes(&self) -> (processes: Vec<Process>)
        ensures
            processes@ == self@.processes(),
    {
        let entries = self.entries();
        let mut processes: Vec<Process> = Vec::new();
        let mut i: usize = 0;
        while i < entries.len()
            invariant
                i <= entries@.len(),
                entries@ == self@.entries(),
                processes@ == self@.processes().take(i as int),
            decreases entries@.len() - i,
        {
            processes.push(entries[i].spec.to_process(i as u64, entries[i].kind));
            i = i + 1;
            assert(processes@ =~= self@.processes().take(i as int));
        }
        assert(processes@ =~= self@.processes());
        processes
    }

    /// Converts the configuration's sections to the kind and name rows that it
    /// previews.
    pub fn config_preview(&self) -> (rows: Vec<(ProcessKind, String)>)
        ensures
            rows@ == self@.preview(),
    {
        let entries = self.entries();
        let mut rows: Vec<(ProcessKind, String)> = Vec::new();
        let mut i: usize = 0;
        while i < entries.len()
            invariant
                i <= entries@.len(),
                entries@ == self@.entries(),
                rows@ == self@.preview().take(i as int),
            decreases entries@.len() - i,
        {
            rows.push((entries[i].kind, entries[i].spec.name.clone()));
            i = i + 1;
            assert(rows@ =~= self@.preview().take(i as int));
        }
        assert(rows@ =~= self@.preview());
        rows
    }
}

impl ProcessSpecMatcher {
    /// Returns the flags of the specifications with the matcher's identity.
    fn flags(&self, specs: &Vec<ProcessSpec>) -> (flags: Vec<bool>)
        ensures
            flags@ == spec_flags(self.kind, specs@, self@),
    {
        let mut flags: Vec<bool> = Vec::new();
        let mut i: usize = 0;
        while i < specs.len()
            invariant
                i <= specs@.len(),
                flags@ == spec_flags(self.kind, specs@, self@).take(i as int),
            decreases specs@.len() - i,
        {
            flags.push(self.matches(&specs[i]));
            i = i + 1;
            assert(flags@ =~= spec_flags(self.kind, specs@, self@).take(i as int));
        }
        assert(flags@ =~= spec_flags(self.kind, specs@, self@));
        flags
    }

    /// Returns how many of the specifications have the matcher's identity.
    pub fn count(&self, specs: &Vec<ProcessSpec>) -> (count: usize)
        ensures
            count == occurrences(self.kind, specs@, self@),
    {
        let flags = self.flags(specs);
        let mut count: usize = 0;
        let mut i: usize = 0;
        assert(flags@.take(0) =~= Seq::empty());
        while i < flags.len()
            invariant
                i <= flags@.len(),
                count <= i,
                count == count_set(flags@.take(i as int)),
            decreases flags@.len() - i,
        {
            assert(flags@.take(i + 1).drop_last() =~= flags@.take(i as int));
            if flags[i] {
                count = count + 1;
            }
            i = i + 1;
        }
        assert(flags@.take(flags@.len() as int) =~= flags@);
        count
    }

    /// Returns the configuration without one occurrence of the matcher's
    /// identity, and whether there was one to take out.
    pub fn without(&self, config: WorkspaceConfig, occurrence: usize) -> (edited: (
        WorkspaceConfig,
        bool,
    ))
        ensures
            edited.0@ == config@.without(self@, occurrence as nat),
            edited.1 == (config@.place_of(self@, occurrence as nat) is Some),
    {
        let mut specs = copy_specs(config.section(self.kind));
        let flags = self.flags(&specs);
        match find_nth(&flags, occurrence) {
            Some(place) => {
                let _ = specs.remove(place);
                (config.with_section(self.kind, specs), true)
            },
            None => (config, false),
        }
    }

    /// Returns the configuration with the autostart of one occurrence of the
    /// matcher's identity replaced, and whether there was one to edit.
    pub fn with_autostart(
        &self,
        config: WorkspaceConfig,
        occurrence: usize,
        autostart: Option<bool>,
    ) -> (edited: (WorkspaceConfig, bool))
        ensures
            edited.0@ == config@.with_autostart(self@, occurrence as nat, autostart),
            edited.1 == (config@.place_of(self@, occurrence as nat) is Some),
    {
        let mut specs = copy_specs(config.section(self.kind));
        let flags = self.flags(&specs);
        match find_nth(&flags, occurrence) {
            Some(place) => {
                let old_spec = specs[place].copied();
                let spec = ProcessSpec {
                    name: old_spec.name,
                    command: old_spec.command,
                    working_dir: old_spec.working_dir,
                    restart: old_spec.restart,
                    autostart,
                    stop: old_spec.stop,
                    agent_tool: old_spec.agent_tool,
                };
                specs.set(place, spec);
                (config.with_section(self.kind, specs), true)
            },
            None => (config, false),
        }
    }
}

/// Returns the configuration with `spec` added at the end of its section, and
/// how many entries of the same identity stood there before it.
pub fn append_spec(config: WorkspaceConfig, kind: ProcessKind, spec: &ProcessSpec) -> (edited: (
    WorkspaceConfig,
    usize,
))
    ensures
        edited.0@ == config@.appended(kind, *spec),
        edited.1 == occurrences(kind, config@.section(kind), spec.identity(kind)),
{
    let matcher = ProcessSpecMatcher::of_spec(kind, spec);
    let occurrence: usize = matcher.count(config.section(kind));
    let mut specs = copy_specs(config.section(kind));
    specs.push(spec.copied());
    (config.with_section(kind, specs), occurrence)
}

/// Returns a starter workspace for a new project: a single terminal running the
/// login shell, so the project is immediately usable.
pub fn starter_config() -> (config: WorkspaceConfig)
    ensures
        config@.agents.len() == 0,
        config@.commands.len() == 0,
        config@.terminals.len() == 1,
        config@.terminals[0].name@ == STARTER_TERMINAL@,
        config@.terminals[0] == ProcessSpec::plain(config@.terminals[0].name, None, None),
{
    let mut terminals: Vec<ProcessSpec> = Vec::new();
    terminals.push(ProcessSpec::new(STARTER_TERMINAL.to_string(), None, None));
    WorkspaceConfig { agents: Vec::new(), terminals, commands: Vec::new() }
}

/// The entry that an append adds is found again at the occurrence that the
/// append reports, as the last one of its section, and taking it out gives the
/// configuration back.
pub proof fn an_appended_spec_is_its_own_occurrence(
    config: Sections,
    kind: ProcessKind,
    spec: ProcessSpec,
)
    ensures
        ({
            let id = spec.identity(kind);
            let occurrence = occurrences(kind, config.section(kind), id);
            let after = config.appended(kind, spec);
            &&& after.place_of(id, occurrence) == Some(config.section(kind).len() as int)
            &&& after.without(id, occurrence) == config
        }),
{
    let id = spec.identity(kind);
    let specs = config.section(kind);
    let occurrence = occurrences(kind, specs, id);
    let after = config.appended(kind, spec);
    let flags = spec_flags(kind, specs, id);
    assert(spec_flags(kind, specs.push(spec), id) =~= flags.push(true));
    assert(flags.push(true).drop_last() =~= flags);
    nth_set_is_the_nth(flags, occurrence);
    assert(specs.push(spec).remove(specs.len() as int) =~= specs);
    assert(after.section(kind) == specs.push(spec));
    assert(after.without(id, occurrence) =~= config);
}

/// Editing the autostart of one occurrence leaves every other entry of the
/// configuration as it was, in its place.
pub proof fn an_autostart_edit_touches_one_entry(
    config: Sections,
    id: Identity,
    occurrence: nat,
    autostart: Option<bool>,
    kind: ProcessKind,
    i: int,
)
    requires
        0 <= i < config.section(kind).len(),
        kind != id.kind || config.place_of(id, occurrence) != Some(i),
    ensures
        config.with_autostart(id, occurrence, autostart).section(kind).len() == config.section(
            kind,
        ).len(),
        config.with_autostart(id, occurrence, autostart).section(kind)[i] == config.section(kind)[i],
{
    nth_set_is_the_nth(spec_flags(id.kind, config.section(id.kind), id), occurrence);
}

/// A freshly loaded workspace is orderly.
pub proof fn a_loaded_workspace_is_orderly(config: Sections)
    requires
        config.entries().len() <= u64::MAX,
    ensures
        (Roster { processes: config.processes(), selected: 0 }).orderly(),
{
    let processes = config.processes();
    let entries = config.entries();
    assert forall|i: int| 0 <= i < processes.len() implies #[trigger] processes[i].id == i
        && processes[i].kind == entries[i].kind by {}
}

} // verus!
