//! Managed processes and the rules of their lifecycle.

use vstd::prelude::*;
use crate::text::{copy_opt, opt_text};

verus! {

/// Identity of a pane and of the process that it shows.
pub type PaneId = u64;

/// The section of a workspace that a process belongs to.
#[derive(Debug, Clone, Copy, PartialEq, Eq, Structural)]
pub enum ProcessKind {
    /// A coding agent.
    Agent,
    /// An interactive terminal.
    Terminal,
    /// A command.
    Command,
}

impl ProcessKind {
    /// Position of the kind's section in the sidebar.
    pub open spec fn rank(self) -> int {
        match self {
            ProcessKind::Agent => 0,
            ProcessKind::Terminal => 1,
            ProcessKind::Command => 2,
        }
    }

    /// Returns the position of the kind's section in the sidebar.
    pub fn section(self) -> (rank: u8)
        ensures
            rank == self.rank(),
    {
        match self {
            ProcessKind::Agent => 0,
            ProcessKind::Terminal => 1,
            ProcessKind::Command => 2,
        }
    }

    /// Whether a process of this kind starts with its workspace when its
    /// configuration does not say: commands wait for the user.
    pub open spec fn starts_by_default(self) -> bool {
        self != ProcessKind::Command
    }
}

/// Where a process stands in its lifecycle.
#[derive(Debug, Clone, Copy, PartialEq, Eq, Structural)]
pub enum ProcessState {
    /// Not started yet.
    Pending,
    /// Alive.
    Running,
    /// Alive but suspended.
    Paused,
    /// Asked to stop and not gone yet.
    Stopping,
    /// Waiting to be started again.
    Restarting,
    /// Ended in an orderly way.
    Exited,
    /// Ended in failure.
    Crashed,
}

impl ProcessState {
    /// Whether a child exists or is about to exist in this state.
    pub open spec fn active(self) -> bool {
        match self {
            ProcessState::Running | ProcessState::Paused | ProcessState::Stopping
            | ProcessState::Restarting => true,
            ProcessState::Pending | ProcessState::Exited | ProcessState::Crashed => false,
        }
    }

    /// Returns whether a child exists or is about to exist in this state.
    pub fn is_active(self) -> (active: bool)
        ensures
            active == self.active(),
    {
        match self {
            ProcessState::Running | ProcessState::Paused | ProcessState::Stopping
            | ProcessState::Restarting => true,
            ProcessState::Pending | ProcessState::Exited | ProcessState::Crashed => false,
        }
    }
}

/// What a running process appears to be doing.
#[derive(Debug, Clone, Copy, PartialEq, Eq, Structural)]
pub enum ActivityState {
    /// Nothing noticeable.
    Idle,
    /// At work.
    Working,
    /// Waiting for the user.
    AwaitingInput,
}

/// Who a process came from.
#[derive(Debug, Clone, Copy, PartialEq, Eq, Structural)]
pub enum ProcessOrigin {
    /// The workspace configuration.
    Configured,
    /// A runtime agent session.
    Session,
}

/// When a finished process is started again on its own.
#[derive(Debug, Clone, Copy, PartialEq, Eq, Structural)]
pub enum RestartPolicy {
    /// Never.
    Never,
    /// After a failure.
    OnFailure,
    /// After every exit.
    Always,
}

/// How a child ended.
#[derive(Debug, Clone, Copy, PartialEq, Eq, Structural)]
pub enum ExitOutcome {
    /// With success.
    Succeeded,
    /// With a failure.
    Failed,
}

/// Signal that asks a child to stop.
#[derive(Debug, Clone, Copy, PartialEq, Eq, Structural)]
pub enum StopSignal {
    /// The interrupt signal.
    Interrupt,
    /// The termination signal.
    Terminate,
    /// The hang-up signal.
    Hangup,
    /// The quit signal.
    Quit,
}

/// How a child is asked to stop and how long it may take.
#[derive(Debug, Clone, Copy, PartialEq, Eq, Structural)]
pub struct StopPolicy {
    /// Signal sent first.
    pub signal: StopSignal,
    /// Milliseconds before the child is killed.
    pub grace_millis: u64,
}

/// Milliseconds that a command gets when its configuration names no policy.
pub const DEFAULT_GRACE_MILLIS: u64 = 5_000;

impl StopPolicy {
    /// The policy of a command whose configuration names none.
    pub open spec fn standard() -> StopPolicy {
        StopPolicy { signal: StopSignal::Interrupt, grace_millis: DEFAULT_GRACE_MILLIS }
    }

    /// Returns the policy of a command whose configuration names none.
    pub fn default_policy() -> (policy: StopPolicy)
        ensures
            policy == StopPolicy::standard(),
    {
        StopPolicy { signal: StopSignal::Interrupt, grace_millis: DEFAULT_GRACE_MILLIS }
    }
}

/// The policy that governs a stop: the configured one, else the standard one
/// for a command, else none.
pub open spec fn effective_stop(kind: ProcessKind, stop: Option<StopPolicy>) -> Option<StopPolicy> {
    match stop {
        Some(policy) => Some(policy),
        None => if kind == ProcessKind::Command {
            Some(StopPolicy::standard())
        } else {
            None
        },
    }
}

/// Returns the policy that governs a stop.
pub fn effective_stop_of(kind: ProcessKind, stop: Option<StopPolicy>) -> (policy: Option<StopPolicy>)
    ensures
        policy == effective_stop(kind, stop),
{
    match stop {
        Some(policy) => Some(policy),
        None => if kind == ProcessKind::Command {
            Some(StopPolicy::default_policy())
        } else {
            None
        },
    }
}

/// A provider of coding agents.
#[derive(Debug, Clone, Copy, PartialEq, Eq, Structural)]
pub enum AgentTool {
    /// The first provider.
    Claude,
    /// The second provider.
    Codex,
    /// The third provider.
    Gemini,
    /// The fourth provider.
    Copilot,
    /// A command of the user's own.
    Custom,
}

/// Which terminal evidence shows that an agent is at work.
#[derive(Debug, Clone, Copy, PartialEq, Eq, Structural)]
pub enum AgentActivitySource {
    /// Any output.
    Output,
    /// A change of the terminal title.
    Title,
}

/// Display name of a command of the user's own.
pub const CUSTOM_LABEL: &'static str = "Custom";

impl AgentTool {
    /// The evidence that this provider's agents give of their work.
    pub open spec fn evidence(self) -> AgentActivitySource {
        if self == AgentTool::Codex {
            AgentActivitySource::Title
        } else {
            AgentActivitySource::Output
        }
    }

    /// Returns the evidence that this provider's agents give of their work.
    pub fn activity_source(self) -> (source: AgentActivitySource)
        ensures
            source == self.evidence(),
    {
        if self == AgentTool::Codex {
            AgentActivitySource::Title
        } else {
            AgentActivitySource::Output
        }
    }
}

/// What a provider is called and how it is launched.
#[derive(Debug)]
pub struct Preset {
    /// Display name.
    pub label: String,
    /// Command that launches the provider.
    pub command: String,
}

/// What the providers are called and how they are launched.
#[derive(Debug)]
pub struct Presets {
    /// The first provider.
    pub claude: Preset,
    /// The second provider.
    pub codex: Preset,
    /// The third provider.
    pub gemini: Preset,
    /// The fourth provider.
    pub copilot: Preset,
}

impl Presets {
    /// The preset of a provider; a command of the user's own has none.
    pub open spec fn of(self, tool: AgentTool) -> Option<Preset> {
        match tool {
            AgentTool::Claude => Some(self.claude),
            AgentTool::Codex => Some(self.codex),
            AgentTool::Gemini => Some(self.gemini),
            AgentTool::Copilot => Some(self.copilot),
            AgentTool::Custom => None,
        }
    }

    /// The display name of a provider.
    pub open spec fn label(self, tool: AgentTool) -> Seq<char> {
        match self.of(tool) {
            Some(preset) => preset.label@,
            None => CUSTOM_LABEL@,
        }
    }

    /// The command that launches a provider, where it has one of its own.
    pub open spec fn command(self, tool: AgentTool) -> Option<Seq<char>> {
        match self.of(tool) {
            Some(preset) => Some(preset.command@),
            None => None,
        }
    }

    /// Returns the preset of a provider.
    fn get(&self, tool: AgentTool) -> (preset: Option<&Preset>)
        ensures
            match preset {
                Some(found) => self.of(tool) == Some(*found),
                None => self.of(tool) is None,
            },
    {
        match tool {
            AgentTool::Claude => Some(&self.claude),
            AgentTool::Codex => Some(&self.codex),
            AgentTool::Gemini => Some(&self.gemini),
            AgentTool::Copilot => Some(&self.copilot),
            AgentTool::Custom => None,
        }
    }

    /// Returns the display name of a provider.
    pub fn name(&self, tool: AgentTool) -> (name: String)
        ensures
            name@ == self.label(tool),
    {
        match self.get(tool) {
            Some(preset) => preset.label.clone(),
            None => CUSTOM_LABEL.to_string(),
        }
    }

    /// Returns the command that launches a provider, where it has one.
    pub fn default_command(&self, tool: AgentTool) -> (command: Option<String>)
        ensures
            opt_text(command) == self.command(tool),
    {
        match self.get(tool) {
            Some(preset) => Some(preset.command.clone()),
            None => None,
        }
    }
}

/// Every provider, in the order in which they are offered.
pub open spec fn agent_tools() -> Seq<AgentTool> {
    seq![
        AgentTool::Claude,
        AgentTool::Codex,
        AgentTool::Gemini,
        AgentTool::Copilot,
        AgentTool::Custom,
    ]
}

/// Returns every provider, in the order in which they are offered.
pub fn agent_tool_options() -> (tools: Vec<AgentTool>)
    ensures
        tools@ == agent_tools(),
{
    let tools: Vec<AgentTool> = vec![
        AgentTool::Claude,
        AgentTool::Codex,
        AgentTool::Gemini,
        AgentTool::Copilot,
        AgentTool::Custom,
    ];
    assert(tools@ =~= agent_tools());
    tools
}

/// A process of the workspace.
#[derive(Debug)]
pub struct Process {
    /// Identity of the process and of its pane.
    pub id: PaneId,
    /// Display name.
    pub name: String,
    /// Section that it belongs to.
    pub kind: ProcessKind,
    /// Provider, for an agent.
    pub agent_tool: Option<AgentTool>,
    /// Durable session, for an agent that has one.
    pub agent_session_id: Option<String>,
    /// Where it came from.
    pub origin: ProcessOrigin,
    /// Command line; the login shell where there is none.
    pub command: Option<String>,
    /// Directory to launch in, where it is not the workspace's.
    pub working_dir: Option<String>,
    /// When it is started again on its own.
    pub restart: RestartPolicy,
    /// Whether it starts with the workspace.
    pub autostart: bool,
    /// Configured stop policy.
    pub stop: Option<StopPolicy>,
    /// Where it stands in its lifecycle.
    pub state: ProcessState,
    /// What it appears to be doing.
    pub activity: ActivityState,
}

impl Process {
    /// A pending, configured process that starts with the workspace and has no
    /// command of its own.
    pub fn new(id: PaneId, name: String, kind: ProcessKind) -> (process: Process)
        ensures
            process == (Process {
                id,
                name,
                kind,
                agent_tool: None,
                agent_session_id: None,
                origin: ProcessOrigin::Configured,
                command: None,
                working_dir: None,
                restart: RestartPolicy::Never,
                autostart: true,
                stop: None,
                state: ProcessState::Pending,
                activity: ActivityState::Idle,
            }),
    {
        Process {
            id,
            name,
            kind,
            agent_tool: None,
            agent_session_id: None,
            origin: ProcessOrigin::Configured,
            command: None,
            working_dir: None,
            restart: RestartPolicy::Never,
            autostart: true,
            stop: None,
            state: ProcessState::Pending,
            activity: ActivityState::Idle,
        }
    }

    /// Returns a copy of this process.
    pub fn copied(&self) -> (copy: Process)
        ensures
            copy == *self,
    {
        Process {
            id: self.id,
            name: self.name.clone(),
            kind: self.kind,
            agent_tool: self.agent_tool,
            agent_session_id: copy_opt(&self.agent_session_id),
            origin: self.origin,
            command: copy_opt(&self.command),
            working_dir: copy_opt(&self.working_dir),
            restart: self.restart,
            autostart: self.autostart,
            stop: self.stop,
            state: self.state,
            activity: self.activity,
        }
    }
}

/// Whether a policy starts a process again after an exit.
pub open spec fn restarts(policy: RestartPolicy, outcome: ExitOutcome) -> bool {
    match policy {
        RestartPolicy::Never => false,
        RestartPolicy::OnFailure => outcome == ExitOutcome::Failed,
        RestartPolicy::Always => true,
    }
}

/// Returns whether a policy starts a process again after an exit.
pub fn policy_restarts(policy: RestartPolicy, outcome: ExitOutcome) -> (again: bool)
    ensures
        again == restarts(policy, outcome),
{
    match policy {
        RestartPolicy::Never => false,
        RestartPolicy::OnFailure => outcome == ExitOutcome::Failed,
        RestartPolicy::Always => true,
    }
}

/// What the user asked of a live child, and whether the request reached it.
#[derive(Debug, Clone, Copy, PartialEq, Eq, Structural)]
pub enum ExitIntent {
    /// Nothing: an exit follows the restart policy.
    FollowPolicy,
    /// A stop that was delivered.
    StopInFlight,
    /// A stop whose delivery may be tried again.
    StopRetryable,
    /// A restart that was delivered.
    RestartInFlight,
    /// A restart whose delivery may be tried again.
    RestartRetryable,
}

impl ExitIntent {
    /// Whether a stop may be requested: not while one is in flight.
    pub open spec fn takes_stop(self) -> bool {
        self != ExitIntent::StopInFlight
    }

    /// Returns whether a stop may be requested.
    pub fn accepts_stop_request(self) -> (accepts: bool)
        ensures
            accepts == self.takes_stop(),
    {
        self != ExitIntent::StopInFlight
    }

    /// Whether a restart may be requested: not while one is in flight.
    pub open spec fn takes_restart(self) -> bool {
        self != ExitIntent::RestartInFlight
    }

    /// Returns whether a restart may be requested.
    pub fn accepts_restart_request(self) -> (accepts: bool)
        ensures
            accepts == self.takes_restart(),
    {
        self != ExitIntent::RestartInFlight
    }

    /// Whether a request is in flight, so that its deadline may kill the child.
    pub open spec fn in_flight(self) -> bool {
        self == ExitIntent::StopInFlight || self == ExitIntent::RestartInFlight
    }

    /// Returns whether a request is in flight.
    pub fn awaits_force_stop(self) -> (awaits: bool)
        ensures
            awaits == self.in_flight(),
    {
        self == ExitIntent::StopInFlight || self == ExitIntent::RestartInFlight
    }

    /// The intent of a request: the newer request replaces the older one, and
    /// it is in flight exactly when it was delivered.
    pub open spec fn requested(restart: bool, delivered: bool) -> ExitIntent {
        if restart {
            if delivered {
                ExitIntent::RestartInFlight
            } else {
                ExitIntent::RestartRetryable
            }
        } else {
            if delivered {
                ExitIntent::StopInFlight
            } else {
                ExitIntent::StopRetryable
            }
        }
    }

    /// Returns the intent of a request and its delivery.
    pub fn of_request(restart: bool, delivered: bool) -> (intent: ExitIntent)
        ensures
            intent == ExitIntent::requested(restart, delivered),
    {
        if restart {
            if delivered {
                ExitIntent::RestartInFlight
            } else {
                ExitIntent::RestartRetryable
            }
        } else {
            if delivered {
                ExitIntent::StopInFlight
            } else {
                ExitIntent::StopRetryable
            }
        }
    }

    /// The intent after a kill at the deadline could not be delivered: the
    /// request stays, and may be tried again.
    pub open spec fn retryable(self) -> ExitIntent {
        match self {
            ExitIntent::StopInFlight => ExitIntent::StopRetryable,
            ExitIntent::RestartInFlight => ExitIntent::RestartRetryable,
            other => other,
        }
    }

    /// Returns the intent after a kill at the deadline could not be delivered.
    pub fn force_stop_delivery_failed(self) -> (intent: ExitIntent)
        ensures
            intent == self.retryable(),
    {
        match self {
            ExitIntent::StopInFlight => ExitIntent::StopRetryable,
            ExitIntent::RestartInFlight => ExitIntent::RestartRetryable,
            other => other,
        }
    }
}

/// What follows from the exit of a child.
#[derive(Debug, Clone, Copy, PartialEq, Eq, Structural)]
pub enum ExitDecision {
    /// The process no longer belongs to the workspace: it disappears.
    Retire,
    /// The user stopped it.
    Stop,
    /// The user asked for a restart.
    RestartNow,
    /// Its policy starts it again after a pause.
    RestartLater,
    /// It stays ended in the given state.
    Settle(ProcessState),
}

/// The decision after an exit: a retiring process goes, else the user's request
/// rules, else the restart policy, else the outcome.
pub open spec fn exit_decision(
    intent: ExitIntent,
    retiring: bool,
    restarting: bool,
    outcome: ExitOutcome,
) -> ExitDecision {
    if retiring {
        ExitDecision::Retire
    } else {
        match intent {
            ExitIntent::StopInFlight | ExitIntent::StopRetryable => ExitDecision::Stop,
            ExitIntent::RestartInFlight | ExitIntent::RestartRetryable => ExitDecision::RestartNow,
            ExitIntent::FollowPolicy => if restarting {
                ExitDecision::RestartLater
            } else if outcome == ExitOutcome::Failed {
                ExitDecision::Settle(ProcessState::Crashed)
            } else {
                ExitDecision::Settle(ProcessState::Exited)
            },
        }
    }
}

/// Returns the decision after an exit.
pub fn after_exit(
    intent: ExitIntent,
    retiring: bool,
    restarting: bool,
    outcome: ExitOutcome,
) -> (decision: ExitDecision)
    ensures
        decision == exit_decision(intent, retiring, restarting, outcome),
{
    if retiring {
        ExitDecision::Retire
    } else {
        match intent {
            ExitIntent::StopInFlight | ExitIntent::StopRetryable => ExitDecision::Stop,
            ExitIntent::RestartInFlight | ExitIntent::RestartRetryable => ExitDecision::RestartNow,
            ExitIntent::FollowPolicy => if restarting {
                ExitDecision::RestartLater
            } else if outcome == ExitOutcome::Failed {
                ExitDecision::Settle(ProcessState::Crashed)
            } else {
                ExitDecision::Settle(ProcessState::Exited)
            },
        }
    }
}

/// A requested stop, delivered or not, never lets the restart policy start the
/// process again, and its exit never counts as a crash.
pub proof fn a_stop_request_suppresses_restart(
    delivered: bool,
    restarting: bool,
    outcome: ExitOutcome,
)
    ensures
        exit_decision(ExitIntent::requested(false, delivered), false, restarting, outcome)
            == ExitDecision::Stop,
{
}

/// The later of two requests decides what an exit leads to, whatever was asked
/// before and whether or not either was delivered.
pub proof fn the_later_request_wins(
    delivered: bool,
    restarting: bool,
    outcome: ExitOutcome,
)
    ensures
        exit_decision(ExitIntent::requested(true, delivered), false, restarting, outcome)
            == ExitDecision::RestartNow,
        ExitIntent::requested(true, true).takes_stop(),
        ExitIntent::requested(false, true).takes_restart(),
{
}

} // verus!
