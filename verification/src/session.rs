//! Durable agent sessions and which of them to bring back.

use vstd::prelude::*;
use crate::location::{same_place, Location};
use crate::process::{AgentTool, Process};
use crate::text::{copy_opt, same_text};
use crate::workspace::session_position;

verus! {

/// How many resumable conversations the agent picker offers.
pub const RECENT_AGENT_LIMIT: usize = 5;

/// The recorded state of a session.
#[derive(Debug, Clone, Copy, PartialEq, Eq, Structural)]
pub enum AgentSessionState {
    /// It was created and has not started yet.
    Pending,
    /// It is open.
    Open,
    /// It was closed.
    Closed,
}

/// A durable conversation with a coding agent.
#[derive(Debug)]
pub struct AgentSession {
    /// Identity.
    pub id: String,
    /// Display name.
    pub name: String,
    /// Provider.
    pub tool: AgentTool,
    /// Config of the project it belongs to.
    pub project: Location,
    /// Command that launches the provider.
    pub launch_command: String,
    /// Directory of its own.
    pub working_dir: Option<String>,
    /// Command that resumes the provider's conversation.
    pub resume_command: Option<String>,
    /// Provider's own identity of the conversation.
    pub native_id: Option<String>,
    /// Name of the configured agent that owns it.
    pub configured_key: Option<String>,
    /// Recorded state.
    pub state: AgentSessionState,
    /// Command that brings it back automatically, when there is a safe one.
    pub restore: Option<String>,
    /// Command that reopens it on request, when there is a safe one.
    pub reopen: Option<String>,
    /// Number of the process that was last launched for it.
    pub owner_process: Option<u32>,
    /// Token that tells that process from a later one of the same number.
    pub owner_token: Option<String>,
    /// Token of the process that has that number now, if there is one.
    pub running_token: Option<String>,
    /// Provider that its launch command belongs to.
    pub inferred_tool: AgentTool,
}

impl AgentSession {
    /// Returns a copy of the session.
    pub fn copied(&self) -> (copy: AgentSession)
        ensures
            copy == *self,
    {
        AgentSession {
            id: self.id.clone(),
            name: self.name.clone(),
            tool: self.tool,
            project: self.project.copied(),
            launch_command: self.launch_command.clone(),
            working_dir: copy_opt(&self.working_dir),
            resume_command: copy_opt(&self.resume_command),
            native_id: copy_opt(&self.native_id),
            configured_key: copy_opt(&self.configured_key),
            state: self.state,
            restore: copy_opt(&self.restore),
            reopen: copy_opt(&self.reopen),
            owner_process: self.owner_process,
            owner_token: copy_opt(&self.owner_token),
            running_token: copy_opt(&self.running_token),
            inferred_tool: self.inferred_tool,
        }
    }

    /// Whether a running process still owns the session. A process number alone
    /// proves nothing, since another process may have it by now.
    pub open spec fn owned(self) -> bool {
        &&& self.owner_process is Some
        &&& self.owner_token is Some
        &&& self.running_token is Some
        &&& self.owner_token->0@ == self.running_token->0@
    }

    /// Returns whether a running process still owns the session.
    pub fn session_owner_is_live(&self) -> (live: bool)
        ensures
            live == self.owned(),
    {
        if self.owner_process.is_none() {
            return false;
        }
        match (&self.owner_token, &self.running_token) {
            (Some(expected), Some(running)) => same_text(expected, running),
            _ => false,
        }
    }

    /// Whether this is a closed conversation of the project's own history, as
    /// opposed to a record that the config drives.
    pub open spec fn closed_in(self, project: Location) -> bool {
        self.configured_key is None && self.state == AgentSessionState::Closed && same_place(
            self.project,
            project,
        )
    }

    /// Returns whether this is a closed conversation of the project's history.
    pub fn is_closed_in(&self, project: &Location) -> (closed: bool)
        ensures
            closed == self.closed_in(*project),
    {
        self.configured_key.is_none() && self.state == AgentSessionState::Closed
            && self.project.same_config_location(project)
    }

    /// Whether the session comes back when its project is opened: it was open,
    /// no row of the workspace shows it, and no running process owns it.
    pub open spec fn comes_back(self, project: Location, processes: Seq<Process>) -> bool {
        self.configured_key is None && self.state == AgentSessionState::Open && same_place(
            self.project,
            project,
        ) && session_position(processes, self.id@) is None && !self.owned()
    }
}

/// Returns a copy of a list of sessions.
pub fn copy_sessions(sessions: &Vec<AgentSession>) -> (copy: Vec<AgentSession>)
    ensures
        copy@ == sessions@,
{
    let mut copy: Vec<AgentSession> = Vec::new();
    let mut i: usize = 0;
    while i < sessions.len()
        invariant
            i <= sessions@.len(),
            copy@ == sessions@.take(i as int),
        decreases sessions@.len() - i,
    {
        copy.push(sessions[i].copied());
        i = i + 1;
        assert(copy@ =~= sessions@.take(i as int));
    }
    assert(sessions@.take(i as int) =~= sessions@);
    copy
}

/// The first session with an identity.
pub open spec fn session_at(sessions: Seq<AgentSession>, id: Seq<char>) -> Option<AgentSession>
    decreases sessions.len(),
{
    if sessions.len() == 0 {
        None
    } else if sessions[0].id@ == id {
        Some(sessions[0])
    } else {
        session_at(sessions.drop_first(), id)
    }
}

/// Returns the first session with an identity.
pub fn find_session(sessions: &Vec<AgentSession>, id: &String) -> (found: Option<AgentSession>)
    ensures
        found == session_at(sessions@, id@),
{
    let mut i: usize = 0;
    assert(sessions@.skip(0) =~= sessions@);
    while i < sessions.len()
        invariant
            i <= sessions@.len(),
            session_at(sessions@, id@) == session_at(sessions@.skip(i as int), id@),
        decreases sessions@.len() - i,
    {
        if same_text(&sessions[i].id, id) {
            return Some(sessions[i].copied());
        }
        assert(sessions@.skip(i as int).drop_first() =~= sessions@.skip(i + 1));
        i = i + 1;
    }
    None
}

/// At most `limit` closed conversations of a project that can be reopened,
/// newest first. The newest stands last in `sessions`.
pub open spec fn recent_sessions(
    sessions: Seq<AgentSession>,
    project: Location,
    limit: nat,
) -> Seq<AgentSession>
    decreases sessions.len(),
{
    if sessions.len() == 0 || limit == 0 {
        Seq::empty()
    } else {
        let last = sessions.last();
        if last.closed_in(project) && last.reopen is Some {
            seq![last] + recent_sessions(sessions.drop_last(), project, (limit - 1) as nat)
        } else {
            recent_sessions(sessions.drop_last(), project, limit)
        }
    }
}

/// Returns the newest closed conversations of a project that can be reopened.
pub fn recent_of(sessions: &Vec<AgentSession>, project: &Location, limit: usize) -> (recent: Vec<
    AgentSession,
>)
    ensures
        recent@ == recent_sessions(sessions@, *project, limit as nat),
{
    let mut recent: Vec<AgentSession> = Vec::new();
    let mut end: usize = sessions.len();
    assert(sessions@.take(end as int) =~= sessions@);
    while end > 0 && recent.len() < limit
        invariant
            end <= sessions@.len(),
            recent@.len() <= limit,
            recent_sessions(sessions@, *project, limit as nat) == recent@ + recent_sessions(
                sessions@.take(end as int),
                *project,
                (limit - recent@.len()) as nat,
            ),
        decreases end,
    {
        let ghost rest = sessions@.take(end as int);
        assert(rest.drop_last() =~= sessions@.take(end - 1));
        assert(rest.last() == sessions@[end - 1]);
        let ghost before = recent@;
        end = end - 1;
        if sessions[end].is_closed_in(project) && sessions[end].reopen.is_some() {
            recent.push(sessions[end].copied());
            assert(before + (seq![rest.last()] + recent_sessions(
                rest.drop_last(),
                *project,
                (limit - before.len() - 1) as nat,
            )) =~= recent@ + recent_sessions(
                rest.drop_last(),
                *project,
                (limit - before.len() - 1) as nat,
            ));
        }
    }
    assert(recent@ + Seq::<AgentSession>::empty() =~= recent@);
    recent
}

/// Everything that the picker offers can be reopened in the project it was asked
/// for, and there are never too many.
pub proof fn recent_sessions_can_be_reopened(
    sessions: Seq<AgentSession>,
    project: Location,
    limit: nat,
)
    ensures
        recent_sessions(sessions, project, limit).len() <= limit,
        forall|i: int|
            0 <= i < recent_sessions(sessions, project, limit).len() ==> {
                let session = #[trigger] recent_sessions(sessions, project, limit)[i];
                session.closed_in(project) && session.reopen is Some
            },
    decreases sessions.len(),
{
    if sessions.len() > 0 && limit > 0 {
        let rest = sessions.drop_last();
        recent_sessions_can_be_reopened(rest, project, limit);
        recent_sessions_can_be_reopened(rest, project, (limit - 1) as nat);
    }
}

/// Whether any conversation of a project is closed.
pub open spec fn any_closed(sessions: Seq<AgentSession>, project: Location) -> bool {
    exists|i: int| 0 <= i < sessions.len() && (#[trigger] sessions[i]).closed_in(project)
}

/// Returns whether any conversation of a project is closed.
pub fn has_closed(sessions: &Vec<AgentSession>, project: &Location) -> (closed: bool)
    ensures
        closed == any_closed(sessions@, *project),
{
    let mut i: usize = 0;
    while i < sessions.len()
        invariant
            i <= sessions@.len(),
            forall|j: int| 0 <= j < i ==> !(#[trigger] sessions@[j]).closed_in(*project),
        decreases sessions@.len() - i,
    {
        if sessions[i].is_closed_in(project) {
            return true;
        }
        i = i + 1;
    }
    false
}

} // verus!
