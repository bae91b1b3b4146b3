//! Agent conversations: recording, reopening, closing and restoring them.

use vstd::prelude::*;
use crate::app::agents::{current_agent, current_agent_names, restorations, unlinked};
use crate::app::{AppModel, Focus};
use crate::effect::{
    Effect, EffectModel, Prepared, Reply, SessionModel, SpawnRequest, Task,
};
use crate::input::KeyCode;
use crate::laws::lifecycle::{spawning, spawns};
use crate::laws::{
    answers, answers_arrive, fresh, in_sidebar, lives_are_kept, pressed, sidebar_presses,
    states_are_kept, told,
};
use crate::location::{same_place, Location};
use crate::message::{Message, Prompt};
use crate::moment::Moment;
use crate::overlay::{
    AgentPickerItem, FormIntent, FormOverlayModel, OverlayModel, PickerModel, SwitcherModel,
};
use crate::pane::{pane_place_is_the_first, ConfigMembership, PaneLife};
use crate::process::{
    ActivityState, AgentTool, PaneId, Process, ProcessKind, ProcessOrigin, ProcessState,
    RestartPolicy,
};
use crate::session::{recent_sessions, session_at, AgentSession, AgentSessionState};
use crate::text::opt_text;
use crate::workspace::{
    next_id, next_id_is_unused, position, position_is_the_first, position_unique,
    section_end, section_end_bounds, session_position, Roster,
};

verus! {

/// Whether the selected row is a new one for a conversation: an agent of its tool
/// and its name, that runs in its directory and is never restarted.
pub open spec fn shows_conversation(
    before: AppModel,
    after: AppModel,
    session: AgentSession,
    command: Option<String>,
    pane: PaneId,
) -> bool {
    &&& before.roster.process(pane) is None
    &&& after.roster.selected_process() == Some(
        Process {
            id: pane,
            name: session.name,
            kind: ProcessKind::Agent,
            agent_tool: Some(session.tool),
            agent_session_id: Some(session.id),
            origin: ProcessOrigin::Session,
            command,
            working_dir: session.working_dir,
            restart: RestartPolicy::Never,
            autostart: command is Some,
            stop: None,
            state: ProcessState::Pending,
            activity: ActivityState::Idle,
        },
    )
    &&& after.roster.processes.len() == before.roster.processes.len() + 1
    &&& after.catalog.cursor is None
    &&& after.overlay is None
}

proof fn inserting(
    app: AppModel,
    session: AgentSession,
    activation: crate::effect::AgentSessionActivation,
    now: Moment,
)
    requires
        session_position(app.roster.processes, session.id@) is None,
        app.roster.processes.len() < usize::MAX,
    ensures
        ({
            let after = app.session_inserted(session, activation, now);
            let pane = next_id(app.roster.processes);
            let command = activation.starts();
            &&& shows_conversation(app, after, session, command, pane)
            &&& command is Some ==> spawns(
                app,
                after,
                pane,
                command,
                session.working_dir,
                Some(session.id),
            )
            &&& command is None ==> after.outbox == app.outbox && after.waiting == app.waiting
            &&& activation is StartAttached ==> after.focus == Focus::Terminal
            &&& !(activation is StartAttached) ==> after.focus == app.focus
        }),
{
    let pane = next_id(app.roster.processes);
    let command = activation.starts();
    let row = crate::app::agents::session_row(session, command, pane);
    let at = section_end(app.roster.processes, row.kind);
    section_end_bounds(app.roster.processes, row.kind);
    next_id_is_unused(app.roster.processes);
    position_is_the_first(app.roster.processes, pane);
    let grown = app.roster.inserted(row);
    assert(grown.processes[at] == row);
    assert forall|i: int| 0 <= i < at implies (#[trigger] grown.processes[i]).id != pane by {
        assert(grown.processes[i] == app.roster.processes[i]);
    }
    position_unique(grown.processes, pane, at);
    let shown = app.with_roster(grown.select(at as usize)).with_cursor(None).with_overlay(None);
    assert(shown.session_of(pane) == Some(session.id));
    spawning(shown, pane, command, session.working_dir, Some(session.id), now);
}

/// Choosing a recent conversation in the picker marks it as open, and once that is
/// recorded it is resumed by its own reopening command, in a row of its own that
/// takes the keys.
pub proof fn a_picked_conversation_is_resumed(
    app: AppModel,
    picker: PickerModel,
    listed: AgentSession,
    sessions: Seq<AgentSession>,
    session: AgentSession,
    command: String,
    later: AppModel,
    error: String,
    now: Moment,
)
    requires
        app.overlay == Some(OverlayModel::AgentPicker(picker)),
        picker.selected < picker.items.len(),
        picker.items[picker.selected as int] == AgentPickerItem::Recent(listed),
        app.pending_switch is None,
        app.world.has_store,
        app.world.sessions == Ok::<Seq<AgentSession>, String>(sessions),
        session_at(sessions, listed.id@) == Some(session),
        session.reopen == Some(command),
        answers(later, pressed(app, KeyCode::Enter, now)),
        session_position(later.roster.processes, session.id@) is None,
        later.roster.processes.len() < usize::MAX,
    ensures
        ({
            let asked = pressed(app, KeyCode::Enter, now);
            let done = told(later, Reply::Wrote(Ok(())), now);
            let failed = told(later, Reply::Wrote(Err(error)), now);
            let pane = next_id(later.roster.processes);
            let free = AppModel { waiting: later.waiting.skip(1), ..later };
            &&& asked.outbox == app.outbox.push(
                EffectModel::Plain(
                    Effect::SetSessionState {
                        session: session.id,
                        state: AgentSessionState::Open,
                    },
                ),
            )
            &&& asked.overlay is None
            &&& asked.roster == app.roster
            &&& shows_conversation(free, done, session, Some(command), pane)
            &&& spawns(
                free,
                done,
                pane,
                Some(command),
                session.working_dir,
                Some(session.id),
            )
            &&& done.focus == Focus::Terminal
            &&& failed.roster == later.roster
            &&& failed.outbox == later.outbox
            &&& failed.feedback.notice == Some(Message::SessionStore(error))
        }),
{
    reveal(AppModel::handled);
    reveal(AppModel::input_handled);
    reveal(AppModel::key_handled);
    reveal(AppModel::picker_key);
    reveal(AppModel::picker_chosen);
    reveal(AppModel::reopening);
    reveal(AppModel::session_answered);
    reveal(AppModel::reopen_answered);
    let task = Task::Reopened { session, command };
    assert(pressed(app, KeyCode::Enter, now).waiting.last() == task);
    answers_arrive(later, task, Reply::Wrote(Ok(())), now);
    answers_arrive(later, task, Reply::Wrote(Err(error)), now);
    let free = AppModel { waiting: later.waiting.skip(1), ..later };
    no_row_closes(free.roster.processes, free.panes, session.id@);
    inserting(
        free,
        session,
        crate::effect::AgentSessionActivation::StartAttached(command),
        now,
    );
}

proof fn no_row_closes(
    processes: Seq<Process>,
    panes: Seq<crate::pane::PaneModel>,
    id: Seq<char>,
)
    requires
        session_position(processes, id) is None,
    ensures
        crate::app::agents::closing_pane(processes, panes, id) is None,
    decreases processes.len(),
{
    no_session_row(processes, id);
    if processes.len() > 0 {
        let rest = processes.drop_first();
        assert forall|i: int| 0 <= i < rest.len() implies opt_text(
            (#[trigger] rest[i]).agent_session_id,
        ) != Some(id) by {
            assert(rest[i] == processes[i + 1]);
        }
        no_session_found(rest, id);
        no_row_closes(rest, panes, id);
    }
}

proof fn no_session_row(processes: Seq<Process>, id: Seq<char>)
    requires
        session_position(processes, id) is None,
    ensures
        forall|i: int|
            0 <= i < processes.len() ==> opt_text((#[trigger] processes[i]).agent_session_id)
                != Some(id),
    decreases processes.len(),
{
    if processes.len() > 0 {
        no_session_row(processes.drop_last(), id);
        assert forall|i: int| 0 <= i < processes.len() implies opt_text(
            (#[trigger] processes[i]).agent_session_id,
        ) != Some(id) by {
            if i < processes.len() - 1 {
                assert(processes[i] == processes.drop_last()[i]);
            }
        }
    }
}

proof fn no_session_found(processes: Seq<Process>, id: Seq<char>)
    requires
        forall|i: int|
            0 <= i < processes.len() ==> opt_text((#[trigger] processes[i]).agent_session_id)
                != Some(id),
    ensures
        session_position(processes, id) is None,
    decreases processes.len(),
{
    if processes.len() > 0 {
        assert forall|i: int| 0 <= i < processes.drop_last().len() implies opt_text(
            (#[trigger] processes.drop_last()[i]).agent_session_id,
        ) != Some(id) by {
            assert(processes.drop_last()[i] == processes[i]);
        }
        no_session_found(processes.drop_last(), id);
        assert(processes.last() == processes[processes.len() - 1]);
    }
}

/// A conversation is found by its id, and is the first with it.
pub proof fn a_conversation_is_found_by_its_id(sessions: Seq<AgentSession>, id: Seq<char>)
    ensures
        session_at(sessions, id) matches Some(session) ==> session.id@ == id && exists|i: int|
            0 <= i < sessions.len() && #[trigger] sessions[i] == session && forall|j: int|
                0 <= j < i ==> (#[trigger] sessions[j]).id@ != id,
        session_at(sessions, id) is None ==> forall|i: int|
            0 <= i < sessions.len() ==> (#[trigger] sessions[i]).id@ != id,
    decreases sessions.len(),
{
    if sessions.len() > 0 && sessions[0].id@ != id {
        let rest = sessions.drop_first();
        a_conversation_is_found_by_its_id(rest, id);
        match session_at(rest, id) {
            Some(session) => {
                let i = choose|i: int|
                    0 <= i < rest.len() && #[trigger] rest[i] == session && forall|j: int|
                        0 <= j < i ==> (#[trigger] rest[j]).id@ != id;
                assert(sessions[i + 1] == session);
                assert forall|j: int| 0 <= j < i + 1 implies (#[trigger] sessions[j]).id@ != id by {
                    if j > 0 {
                        assert(rest[j - 1] == sessions[j]);
                    }
                }
            },
            None => {
                assert forall|i: int| 0 <= i < sessions.len() implies (#[trigger] sessions[i]).id@
                    != id by {
                    if i > 0 {
                        assert(rest[i - 1] == sessions[i]);
                    }
                }
            },
        }
    } else if sessions.len() > 0 {
        assert(sessions[0] == session_at(sessions, id)->0);
    }
}

/// Whether a conversation can be reopened in a project: it belongs there, is no
/// configured agent's, was closed, and has a command to reopen it with.
pub open spec fn can_reopen(session: AgentSession, project: Location) -> bool {
    &&& session.configured_key is None
    &&& session.state == AgentSessionState::Closed
    &&& same_place(session.project, project)
    &&& session.reopen is Some
}

/// The newest conversation is the last of the list that can be reopened.
pub proof fn the_newest_conversation_is_the_last(
    sessions: Seq<AgentSession>,
    project: Location,
    k: int,
)
    requires
        0 <= k < sessions.len(),
        can_reopen(sessions[k], project),
        forall|i: int| k < i < sessions.len() ==> !can_reopen(#[trigger] sessions[i], project),
    ensures
        recent_sessions(sessions, project, 1) == seq![sessions[k]],
    decreases sessions.len(),
{
    if k == sessions.len() - 1 {
        assert(recent_sessions(sessions.drop_last(), project, 0) =~= Seq::empty());
        assert(recent_sessions(sessions, project, 1) =~= seq![sessions[k]]);
    } else {
        let rest = sessions.drop_last();
        assert(!can_reopen(sessions[sessions.len() - 1], project));
        assert(rest[k] == sessions[k]);
        assert forall|i: int| k < i < rest.len() implies !can_reopen(#[trigger] rest[i], project) by {
            assert(rest[i] == sessions[i]);
        }
        the_newest_conversation_is_the_last(rest, project, k);
    }
}

/// The recent conversations are given newest first: the last of the list that can be
/// reopened, and then those before it.
pub proof fn recent_conversations_are_newest_first(
    sessions: Seq<AgentSession>,
    project: Location,
    limit: nat,
    k: int,
)
    requires
        limit > 0,
        0 <= k < sessions.len(),
        can_reopen(sessions[k], project),
        forall|i: int| k < i < sessions.len() ==> !can_reopen(#[trigger] sessions[i], project),
    ensures
        recent_sessions(sessions, project, limit) == seq![sessions[k]] + recent_sessions(
            sessions.take(k),
            project,
            (limit - 1) as nat,
        ),
    decreases sessions.len(),
{
    let rest = sessions.drop_last();
    if k == sessions.len() - 1 {
        assert(rest =~= sessions.take(k));
    } else {
        assert(!can_reopen(sessions[sessions.len() - 1], project));
        assert(rest[k] == sessions[k]);
        assert forall|i: int| k < i < rest.len() implies !can_reopen(#[trigger] rest[i], project) by {
            assert(rest[i] == sessions[i]);
        }
        recent_conversations_are_newest_first(rest, project, limit, k);
        assert(rest.take(k) =~= sessions.take(k));
    }
}

/// `u` reopens the newest conversation of the current project that can be
/// reopened, and says so where there is none.
pub proof fn undo_reopens_the_newest_conversation(
    app: AppModel,
    sessions: Seq<AgentSession>,
    project: Location,
    k: int,
    now: Moment,
)
    requires
        in_sidebar(app),
        app.catalog.current == Some(project),
        app.pending_switch is None,
        app.world.has_store,
        app.world.sessions == Ok::<Seq<AgentSession>, String>(sessions),
        0 <= k < sessions.len(),
        can_reopen(sessions[k], project),
        forall|i: int| k < i < sessions.len() ==> !can_reopen(#[trigger] sessions[i], project),
        forall|i: int| 0 <= i < k ==> (#[trigger] sessions[i]).id@ != sessions[k].id@,
    ensures
        ({
            let asked = pressed(app, KeyCode::Char('u'), now);
            &&& asked.outbox == app.outbox.push(
                EffectModel::Plain(
                    Effect::SetSessionState {
                        session: sessions[k].id,
                        state: AgentSessionState::Open,
                    },
                ),
            )
            &&& asked.waiting == app.waiting.push(
                Task::Reopened { session: sessions[k], command: sessions[k].reopen->0 },
            )
        }),
{
    reveal(AppModel::sidebar_key);
    reveal(AppModel::common_shortcut);
    reveal(AppModel::reopening_last);
    reveal(AppModel::reopening);
    sidebar_presses(app, KeyCode::Char('u'), now);
    the_newest_conversation_is_the_last(sessions, project, k);
    let id = sessions[k].id@;
    a_conversation_is_found_by_its_id(sessions, id);
    match session_at(sessions, id) {
        Some(found) => {
            let i = choose|i: int|
                0 <= i < sessions.len() && #[trigger] sessions[i] == found && forall|j: int|
                    0 <= j < i ==> (#[trigger] sessions[j]).id@ != id;
            assert(i <= k) by {
                if i > k {
                    assert(sessions[k].id@ != id);
                }
            }
            assert(i >= k) by {
                if i < k {
                    assert(sessions[i].id@ != sessions[k].id@);
                }
            }
        },
        None => {
            assert(sessions[k].id@ != id);
        },
    }
}

/// Where nothing was closed in the project, `u` says that there is nothing to
/// reopen.
pub proof fn nothing_closed_is_nothing_to_reopen(
    app: AppModel,
    sessions: Seq<AgentSession>,
    project: Location,
    now: Moment,
)
    requires
        in_sidebar(app),
        app.catalog.current == Some(project),
        app.world.has_store,
        app.world.sessions == Ok::<Seq<AgentSession>, String>(sessions),
        forall|i: int|
            0 <= i < sessions.len() ==> (#[trigger] sessions[i]).state != AgentSessionState::Closed,
    ensures
        pressed(app, KeyCode::Char('u'), now).outbox == app.outbox,
        pressed(app, KeyCode::Char('u'), now).feedback.notice == Some(Message::NoRecentSession),
{
    reveal(AppModel::sidebar_key);
    reveal(AppModel::common_shortcut);
    reveal(AppModel::reopening_last);
    sidebar_presses(app, KeyCode::Char('u'), now);
    crate::session::recent_sessions_can_be_reopened(sessions, project, 1);
    let recent = recent_sessions(sessions, project, 1);
    if recent.len() > 0 {
        recent_are_listed(sessions, project, 1);
        assert(sessions.contains(recent[0]));
    }
}

proof fn recent_are_listed(sessions: Seq<AgentSession>, project: Location, limit: nat)
    ensures
        forall|i: int|
            0 <= i < recent_sessions(sessions, project, limit).len() ==> sessions.contains(
                #[trigger] recent_sessions(sessions, project, limit)[i],
            ),
    decreases sessions.len(),
{
    if sessions.len() > 0 && limit > 0 {
        let last = sessions.last();
        let rest = sessions.drop_last();
        let one = last.closed_in(project) && last.reopen is Some;
        let left = if one {
            (limit - 1) as nat
        } else {
            limit
        };
        recent_are_listed(rest, project, left);
        let all = recent_sessions(sessions, project, limit);
        let some = recent_sessions(rest, project, left);
        assert forall|i: int| 0 <= i < all.len() implies sessions.contains(#[trigger] all[i]) by {
            if one && i == 0 {
                assert(sessions[sessions.len() - 1] == last);
            } else {
                let j = if one {
                    i - 1
                } else {
                    i
                };
                assert(all[i] == some[j]);
                let k = choose|k: int| 0 <= k < rest.len() && rest[k] == some[j];
                assert(sessions[k] == some[j]);
            }
        }
    }
}

/// `A` shows the agents: the conversations that can be reopened, newest first and
/// at most five, and after them the five tools in their fixed order.
pub proof fn the_agents_are_recent_conversations_and_tools(
    app: AppModel,
    sessions: Seq<AgentSession>,
    project: Location,
    now: Moment,
)
    requires
        in_sidebar(app),
        app.catalog.current == Some(project),
        app.world.has_store,
        app.world.sessions == Ok::<Seq<AgentSession>, String>(sessions),
    ensures
        ({
            let shown = pressed(app, KeyCode::Char('A'), now);
            let items = shown.overlay->0->AgentPicker_0.items;
            let recent = recent_sessions(sessions, project, 5);
            &&& shown.overlay is Some && shown.overlay->0 is AgentPicker
            &&& shown.outbox == app.outbox
            &&& shown.overlay->0->AgentPicker_0.selected == 0
            &&& shown.overlay->0->AgentPicker_0.error is None
            &&& recent.len() <= 5
            &&& items.len() == recent.len() + 5
            &&& forall|i: int|
                0 <= i < recent.len() ==> #[trigger] items[i] == AgentPickerItem::Recent(recent[i])
            &&& forall|i: int|
                0 <= i < recent.len() ==> can_reopen(#[trigger] recent[i], project)
            &&& items[recent.len() as int] == AgentPickerItem::New(AgentTool::Claude)
            &&& items[recent.len() as int + 1] == AgentPickerItem::New(AgentTool::Codex)
            &&& items[recent.len() as int + 2] == AgentPickerItem::New(AgentTool::Gemini)
            &&& items[recent.len() as int + 3] == AgentPickerItem::New(AgentTool::Copilot)
            &&& items[recent.len() as int + 4] == AgentPickerItem::New(AgentTool::Custom)
        }),
{
    reveal(AppModel::sidebar_key);
    reveal(AppModel::common_shortcut);
    reveal(AppModel::picker_shown);
    sidebar_presses(app, KeyCode::Char('A'), now);
    crate::session::recent_sessions_can_be_reopened(sessions, project, 5);
}

/// Choosing a tool prepares a session of that tool with its own command; the
/// custom tool, and `e` on any tool, ask for the details first.
pub proof fn a_picked_tool_is_the_one_prepared(
    app: AppModel,
    picker: PickerModel,
    tool: AgentTool,
    now: Moment,
)
    requires
        app.overlay == Some(OverlayModel::AgentPicker(picker)),
        picker.selected < picker.items.len(),
        picker.items[picker.selected as int] == AgentPickerItem::New(tool),
    ensures
        ({
            let entered = pressed(app, KeyCode::Enter, now);
            let edited = pressed(app, KeyCode::Char('e'), now);
            let asks = |shown: AppModel| {
                &&& shown.overlay is Some && shown.overlay->0 is Form
                &&& shown.overlay->0->Form_0.intent == FormIntent::LaunchAgentSession
                &&& shown.overlay->0->Form_0.form.values().len() == 4
                &&& shown.overlay->0->Form_0.form.values()[0] == app.world.presets.label(tool)
                &&& shown.outbox == app.outbox
            };
            &&& tool != AgentTool::Custom ==> entered.overlay is None && entered.outbox
                == app.outbox.push(
                EffectModel::Prepare {
                    tool,
                    name: None,
                    command: app.world.presets.command(tool),
                    resume: None,
                },
            ) && entered.waiting == app.waiting.push(Task::Prepared)
            &&& tool == AgentTool::Custom ==> asks(entered)
            &&& asks(edited)
            &&& pressed(app, KeyCode::Esc, now) == fresh(app).with_overlay(None)
        }),
{
    reveal(AppModel::handled);
    reveal(AppModel::input_handled);
    reveal(AppModel::key_handled);
    reveal(AppModel::picker_key);
    reveal(AppModel::picker_chosen);
    reveal(AppModel::session_preparing);
    reveal(AppModel::form_opened);
    crate::app::forms::tools_stand_at_their_positions(app.world.presets, tool);
}

/// A session that the host prepared is recorded as pending in the current project,
/// with the tool, the id and the commands that were prepared, and then started by
/// the prepared launch command, in a row that takes the keys.
pub proof fn a_prepared_session_is_recorded_and_started(
    later: AppModel,
    prepared: Prepared,
    kept: AppModel,
    session: AgentSession,
    error: String,
    now: Moment,
)
    requires
        later.waiting.len() > 0,
        later.waiting[0] == Task::Prepared,
        later.catalog.current is Some,
        prepared.resume is Some ==> prepared.resume_valid,
        prepared.resume is None ==> !prepared.needs_resume,
        prepared.command is Some,
        prepared.id is Some,
        prepared.launch is Some,
        answers(kept, told(later, Reply::Prepared(prepared), now)),
        session_position(kept.roster.processes, session.id@) is None,
        kept.roster.processes.len() < usize::MAX,
        kept.overlay is None,
    ensures
        ({
            let asked = told(later, Reply::Prepared(prepared), now);
            let record = asked.outbox.last()->Record_0;
            let done = told(kept, Reply::Stored(Ok(session)), now);
            let failed = told(kept, Reply::Stored(Err(error)), now);
            let pane = next_id(kept.roster.processes);
            let free = AppModel { waiting: kept.waiting.skip(1), ..kept };
            &&& asked.outbox.len() == later.outbox.len() + 1
            &&& asked.outbox.last() == EffectModel::Record(record)
            &&& record.id == prepared.id->0@
            &&& record.tool == prepared.tool && record.inferred_tool == prepared.tool
            &&& record.project == later.catalog.current->0
            &&& record.launch_command == prepared.command->0@
            &&& record.resume_command == opt_text(prepared.resume)
            &&& record.state == AgentSessionState::Pending
            &&& record.configured_key is None && record.native_id is None
            &&& record.working_dir is None
            &&& prepared.name is Some ==> record.name == prepared.name->0@
            &&& shows_conversation(free, done, session, prepared.launch, pane)
            &&& spawns(
                free,
                done,
                pane,
                prepared.launch,
                session.working_dir,
                Some(session.id),
            )
            &&& done.focus == Focus::Terminal
            &&& failed.roster == kept.roster
            &&& failed.feedback.notice == Some(Message::SessionStore(error))
        }),
{
    reveal(AppModel::session_answered);
    reveal(AppModel::session_prepared);
    reveal(AppModel::session_recorded);
    answers_arrive(later, Task::Prepared, Reply::Prepared(prepared), now);
    let task = Task::Recorded(prepared.launch->0);
    answers_arrive(kept, task, Reply::Stored(Ok(session)), now);
    answers_arrive(kept, task, Reply::Stored(Err(error)), now);
    inserting(
        AppModel { waiting: kept.waiting.skip(1), ..kept },
        session,
        crate::effect::AgentSessionActivation::StartAttached(prepared.launch->0),
        now,
    );
}

/// A session that cannot be prepared is not recorded, and the reason is given: a
/// resume command that does not name the conversation, a missing command, a
/// command made of several that has no resume command, or a missing id.
pub proof fn an_unprepared_session_is_not_recorded(
    later: AppModel,
    prepared: Prepared,
    now: Moment,
)
    requires
        later.waiting.len() > 0,
        later.waiting[0] == Task::Prepared,
        later.catalog.current is Some,
        later.overlay is None,
    ensures
        ({
            let after = told(later, Reply::Prepared(prepared), now);
            let invalid = prepared.resume is Some && !prepared.resume_valid;
            let bare = !invalid && prepared.command is None;
            let compound = !invalid && !bare && prepared.resume is None && prepared.needs_resume;
            let nameless = !invalid && !bare && !compound && prepared.id is None;
            let idle = !invalid && !bare && !compound && !nameless && prepared.launch is None;
            &&& invalid || bare || compound || nameless || idle ==> after.outbox == later.outbox
                && after.roster == later.roster
            &&& invalid ==> after.feedback.notice == Some(Message::ResumeTemplateInvalid)
            &&& bare || idle ==> after.feedback.notice == Some(Message::CommandRequired)
            &&& compound ==> after.feedback.notice == Some(Message::CompoundResumeRequired)
            &&& nameless ==> after.feedback.notice == Some(Message::SessionStoreFailed)
        }),
{
    reveal(AppModel::session_answered);
    reveal(AppModel::session_prepared);
    answers_arrive(later, Task::Prepared, Reply::Prepared(prepared), now);
}

/// `d` on a running conversation asks first. A confirmed close kills its process
/// and records it as closed; its row then goes when the process exits.
pub proof fn a_running_conversation_is_closed_by_a_kill(
    app: AppModel,
    pane: PaneId,
    id: String,
    confirming: AppModel,
    prompt: Prompt,
    code: KeyCode,
    killed: AppModel,
    written: AppModel,
    error: String,
    now: Moment,
)
    requires
        in_sidebar(app),
        app.catalog.cursor is None,
        app.roster.selected_process() is Some,
        app.roster.selected_process()->0.id == pane,
        app.roster.selected_process()->0.kind == ProcessKind::Agent,
        app.roster.selected_process()->0.origin == ProcessOrigin::Session,
        app.alive(pane),
        confirming.overlay == Some(OverlayModel::ConfirmSessionClose { prompt, pane }),
        confirming.alive(pane),
        confirming.session_of(pane) == Some(id),
        code == KeyCode::Enter || code == KeyCode::Char('y'),
        answers(killed, pressed(confirming, code, now)),
        killed.world.has_store,
        killed.roster.process(pane) is Some,
        answers(written, told(killed, Reply::Done(true), now)),
        written.life(pane) is Some,
    ensures
        ({
            let asked = pressed(confirming, code, now);
            let stopping = told(killed, Reply::Done(true), now);
            let missed = told(killed, Reply::Done(false), now);
            let done = told(written, Reply::Wrote(Ok(())), now);
            let failed = told(written, Reply::Wrote(Err(error)), now);
            &&& pressed(app, KeyCode::Char('d'), now).overlay == Some(
                OverlayModel::ConfirmSessionClose {
                    prompt: Prompt::CloseSession(app.roster.selected_process()->0.name),
                    pane,
                },
            )
            &&& pressed(app, KeyCode::Char('d'), now).outbox == app.outbox
            &&& asked.outbox == confirming.outbox.push(EffectModel::Plain(Effect::Kill(pane)))
            &&& asked.overlay is None
            &&& asked.focus == Focus::Sidebar
            &&& stopping.outbox == killed.outbox.push(
                EffectModel::Plain(
                    Effect::SetSessionState { session: id, state: AgentSessionState::Closed },
                ),
            )
            &&& stopping.roster.process(pane)->0.state == ProcessState::Stopping
            &&& missed.outbox == killed.outbox
            &&& missed.roster == killed.roster
            &&& missed.feedback.notice == Some(Message::StopDeliveryFailed)
            &&& done.life(pane) == Some(
                PaneLife {
                    membership: ConfigMembership::RetireOnExit,
                    ..written.life(pane)->0
                },
            )
            &&& done.roster == written.roster
            &&& !done.ledger.reopens.contains_key(pane)
            &&& failed.roster == written.roster && failed.panes == written.panes
            &&& failed.feedback.notice == Some(Message::SessionStore(error))
        }),
{
    reveal(AppModel::sidebar_key);
    reveal(AppModel::delete_confirmation);
    sidebar_presses(app, KeyCode::Char('d'), now);
    reveal(AppModel::handled);
    reveal(AppModel::input_handled);
    reveal(AppModel::key_handled);
    reveal(AppModel::confirm_key);
    reveal(AppModel::confirmed);
    reveal(AppModel::session_closing);
    reveal(AppModel::process_answered);
    reveal(AppModel::session_answered);
    reveal(AppModel::close_kill_answered);
    reveal(AppModel::closed_running_answered);
    let task = Task::CloseKilled { pane, session: Some(id) };
    assert(pressed(confirming, code, now).waiting.last() == task);
    answers_arrive(killed, task, Reply::Done(true), now);
    answers_arrive(killed, task, Reply::Done(false), now);
    states_are_kept(
        AppModel { waiting: killed.waiting.skip(1), ..killed },
        pane,
        ProcessState::Stopping,
        ActivityState::Idle,
        pane,
    );
    answers_arrive(written, Task::ClosedRunning(pane), Reply::Wrote(Ok(())), now);
    answers_arrive(written, Task::ClosedRunning(pane), Reply::Wrote(Err(error)), now);
    let taken = AppModel { waiting: written.waiting.skip(1), ..written };
    let cleared = taken.with_ledger(taken.ledger.without_reopen(pane));
    lives_are_kept(
        cleared,
        pane,
        PaneLife { membership: ConfigMembership::RetireOnExit, ..cleared.life(pane)->0 },
        pane,
    );
}

/// A conversation that does not run is closed at once: it is recorded as closed,
/// and then its row goes.
pub proof fn a_stopped_conversation_is_closed_at_once(
    app: AppModel,
    pane: PaneId,
    id: String,
    written: AppModel,
    error: String,
    now: Moment,
)
    requires
        in_sidebar(app),
        app.catalog.cursor is None,
        app.roster.selected_process() is Some,
        app.roster.selected_process()->0.id == pane,
        app.roster.selected_process()->0.kind == ProcessKind::Agent,
        app.roster.selected_process()->0.origin == ProcessOrigin::Session,
        app.session_of(pane) == Some(id),
        !app.alive(pane),
        app.world.has_store,
        answers(written, pressed(app, KeyCode::Char('d'), now)),
        written.roster.orderly(),
        written.roster.process(pane) is Some,
    ensures
        ({
            let asked = pressed(app, KeyCode::Char('d'), now);
            let done = told(written, Reply::Wrote(Ok(())), now);
            let failed = told(written, Reply::Wrote(Err(error)), now);
            &&& asked.outbox == app.outbox.push(
                EffectModel::Plain(
                    Effect::SetSessionState { session: id, state: AgentSessionState::Closed },
                ),
            )
            &&& asked.overlay is None
            &&& done.roster.process(pane) is None
            &&& done.roster.processes.len() == written.roster.processes.len() - 1
            &&& done.outbox == written.outbox
            &&& done.ledger.generation(pane) is None
            &&& failed.roster == written.roster
            &&& failed.feedback.notice == Some(Message::SessionStore(error))
        }),
{
    reveal(AppModel::sidebar_key);
    reveal(AppModel::delete_confirmation);
    reveal(AppModel::session_closing);
    reveal(AppModel::session_answered);
    reveal(AppModel::closed_stopped_answered);
    sidebar_presses(app, KeyCode::Char('d'), now);
    let task = Task::ClosedStopped(pane);
    answers_arrive(written, task, Reply::Wrote(Ok(())), now);
    answers_arrive(written, task, Reply::Wrote(Err(error)), now);
    removing(written.roster, pane);
}

/// A removed row is found no more.
pub proof fn removing(roster: Roster, pane: PaneId)
    requires
        roster.orderly(),
        roster.process(pane) is Some,
    ensures
        roster.removed(pane).process(pane) is None,
        roster.removed(pane).processes.len() == roster.processes.len() - 1,
{
    position_is_the_first(roster.processes, pane);
    let index = position(roster.processes, pane)->0;
    let after = roster.removed(pane);
    position_is_the_first(after.processes, pane);
    match position(after.processes, pane) {
        Some(place) => {
            let from = if place < index {
                place
            } else {
                place + 1
            };
            assert(after.processes[place] == roster.processes[from]);
            assert(roster.processes[from].id == roster.processes[index].id);
        },
        None => {},
    }
}

/// Whether a conversation comes back with its project: it was left open there, is
/// no configured agent's, has no row yet, and no process elsewhere holds it.
pub open spec fn left_open(
    session: AgentSession,
    project: Location,
    processes: Seq<Process>,
) -> bool {
    &&& session.configured_key is None
    &&& session.state == AgentSessionState::Open
    &&& same_place(session.project, project)
    &&& forall|i: int|
        0 <= i < processes.len() ==> opt_text((#[trigger] processes[i]).agent_session_id) != Some(
            session.id@,
        )
    &&& !(session.owner_process is Some && session.owner_token is Some && session.running_token
        is Some && session.owner_token->0@ == session.running_token->0@)
}

/// When a workspace starts, each conversation that was left open in it is queued to
/// be restored, and no other.
pub proof fn open_conversations_are_restored(
    app: AppModel,
    sessions: Seq<AgentSession>,
    project: Location,
    now: Moment,
)
    requires
        app.waiting.len() == 0,
        app.agenda.len() > 0,
        app.agenda.last() == Task::RestoreSessions,
        app.catalog.current == Some(project),
        app.world.has_store,
        app.world.sessions == Ok::<Seq<AgentSession>, String>(sessions),
    ensures
        ({
            let after = app.progressed(now);
            let queued = after.agenda.skip(app.agenda.len() - 1);
            &&& after.agenda.take(app.agenda.len() - 1) == app.agenda.drop_last()
            &&& after.outbox == app.outbox
            &&& forall|session: AgentSession|
                #[trigger] queued.contains(Task::RestoreSession(session)) <==> sessions.contains(
                    session,
                ) && left_open(session, project, app.roster.processes)
        }),
{
    reveal(AppModel::done);
    reveal(AppModel::restoring);
    restorations_are_the_open_ones(sessions, project, app.roster.processes);
    let after = app.progressed(now);
    let queued = restorations(sessions, project, app.roster.processes);
    assert(after.agenda == app.agenda.drop_last() + queued);
    assert(after.agenda.skip(app.agenda.len() - 1) =~= queued);
    assert(after.agenda.take(app.agenda.len() - 1) =~= app.agenda.drop_last());
}

proof fn restorations_are_the_open_ones(
    sessions: Seq<AgentSession>,
    project: Location,
    processes: Seq<Process>,
)
    ensures
        forall|session: AgentSession|
            #[trigger] restorations(sessions, project, processes).contains(
                Task::RestoreSession(session),
            ) <==> sessions.contains(session) && left_open(session, project, processes),
    decreases sessions.len(),
{
    if sessions.len() > 0 {
        let first = sessions[0];
        let rest = sessions.drop_first();
        restorations_are_the_open_ones(rest, project, processes);
        if session_position(processes, first.id@) is None {
            no_session_row(processes, first.id@);
        } else {
            session_rows(processes, first.id@);
        }
        assert(first.comes_back(project, processes) <==> left_open(first, project, processes));
        let all = restorations(sessions, project, processes);
        let some = restorations(rest, project, processes);
        assert forall|session: AgentSession|
            #[trigger] all.contains(Task::RestoreSession(session)) <==> sessions.contains(session)
                && left_open(session, project, processes) by {
            let task = Task::RestoreSession(session);
            if all.contains(task) {
                let i = choose|i: int| 0 <= i < all.len() && all[i] == task;
                if i < some.len() {
                    assert(some[i] == task);
                    assert(some.contains(task));
                    let k = choose|k: int| 0 <= k < rest.len() && rest[k] == session;
                    assert(sessions[k + 1] == session);
                } else {
                    assert(sessions[0] == session);
                }
            }
            if sessions.contains(session) && left_open(session, project, processes) {
                let k = choose|k: int| 0 <= k < sessions.len() && sessions[k] == session;
                if k == 0 {
                    assert(all.last() == task);
                } else {
                    assert(rest[k - 1] == session);
                    assert(some.contains(task));
                    let i = choose|i: int| 0 <= i < some.len() && some[i] == task;
                    assert(all[i] == task);
                }
            }
        }
    }
}

proof fn session_rows(processes: Seq<Process>, id: Seq<char>)
    requires
        session_position(processes, id) is Some,
    ensures
        exists|i: int|
            0 <= i < processes.len() && opt_text((#[trigger] processes[i]).agent_session_id)
                == Some(id),
    decreases processes.len(),
{
    if processes.len() > 0 {
        if session_position(processes.drop_last(), id) is Some {
            session_rows(processes.drop_last(), id);
            let i = choose|i: int|
                0 <= i < processes.drop_last().len() && opt_text(
                    (#[trigger] processes.drop_last()[i]).agent_session_id,
                ) == Some(id);
            assert(processes[i] == processes.drop_last()[i]);
        } else {
            assert(processes[processes.len() - 1] == processes.last());
        }
    }
}

/// A restored conversation gets its row and is started by its restore command
/// without taking the keys; one that cannot be restored gets its row and a notice.
pub proof fn a_restored_conversation_starts_in_the_background(
    app: AppModel,
    session: AgentSession,
    now: Moment,
)
    requires
        app.waiting.len() == 0,
        app.agenda.len() > 0,
        app.agenda.last() == Task::RestoreSession(session),
        session_position(app.roster.processes, session.id@) is None,
        app.roster.processes.len() < usize::MAX,
    ensures
        ({
            let after = app.progressed(now);
            let pane = next_id(app.roster.processes);
            &&& shows_conversation(app, after, session, session.restore, pane)
            &&& after.focus == app.focus
            &&& session.restore is Some ==> spawns(
                app,
                after,
                pane,
                session.restore,
                session.working_dir,
                Some(session.id),
            )
            &&& session.restore is None ==> after.outbox == app.outbox && after.feedback.notice
                == Some(Message::NotResumable)
        }),
{
    reveal(AppModel::done);
    reveal(AppModel::session_restored);
    let popped = AppModel { agenda: app.agenda.drop_last(), ..app };
    match session.restore {
        Some(command) => inserting(
            popped,
            session,
            crate::effect::AgentSessionActivation::StartDetached(command),
            now,
        ),
        None => inserting(
            popped,
            session,
            crate::effect::AgentSessionActivation::Stopped,
            now,
        ),
    }
}

/// An agent of the config that has no conversation yet is linked to a closed one
/// under a fresh id: of its tool, its name and its command, and kept under its
/// name in the current project.
pub proof fn an_agent_is_linked_by_its_name(app: AppModel, pane: PaneId, now: Moment)
    requires
        app.waiting.len() == 0,
        app.agenda.len() > 0,
        app.agenda.last() == Task::LinkAgent(pane),
        app.catalog.current is Some,
        app.world.has_store,
        app.world.fresh_id is Some,
        app.roster.process(pane) is Some,
        unlinked(app.roster.process(pane)->0, app.panes),
    ensures
        ({
            let process = app.roster.process(pane)->0;
            let after = app.progressed(now);
            let record = after.outbox.last()->LinkConfigured_0;
            &&& after.outbox.len() == app.outbox.len() + 1
            &&& after.outbox.last() == EffectModel::LinkConfigured(record)
            &&& record.id == app.world.fresh_id->0@
            &&& record.name == process.name@
            &&& record.configured_key == Some(process.name@)
            &&& record.tool == process.agent_tool->0
            &&& record.launch_command == process.command->0@
            &&& record.project == app.catalog.current->0
            &&& record.state == AgentSessionState::Closed
            &&& after.waiting == app.waiting.push(Task::Linked(pane))
            &&& after.roster == app.roster
        }),
{
    reveal(AppModel::done);
    reveal(AppModel::linking_one);
}

/// Whether an agent is in need of a conversation: it is configured, still listed,
/// of a known tool, has a command, and has no conversation yet.
pub proof fn only_bare_configured_agents_are_linked(
    process: Process,
    panes: Seq<crate::pane::PaneModel>,
)
    ensures
        unlinked(process, panes) <==> {
            &&& process.kind == ProcessKind::Agent
            &&& process.origin == ProcessOrigin::Configured
            &&& process.agent_session_id is None
            &&& process.agent_tool is Some
            &&& process.command is Some
            &&& !(crate::pane::life_of(panes, process.id) is Some && crate::pane::life_of(
                panes,
                process.id,
            )->0.membership == ConfigMembership::RetireOnExit)
        },
{
}

/// The conversations of configured agents that are no longer listed are retired:
/// the host is told the project and the names of the agents that are.
pub proof fn orphans_are_all_but_the_listed_agents(app: AppModel, now: Moment)
    requires
        app.waiting.len() == 0,
        app.agenda.len() > 0,
        app.agenda.last() == Task::RecoverOrphans,
        app.catalog.current is Some,
        app.world.has_store,
    ensures
        ({
            let after = app.progressed(now);
            let live = after.outbox.last()->RetireOrphaned_live;
            &&& after.outbox == app.outbox.push(
                EffectModel::RetireOrphaned { project: app.catalog.current->0, live },
            )
            &&& after.waiting == app.waiting.push(Task::OrphansRetired)
            &&& forall|name: String|
                #[trigger] live.contains(name) <==> exists|i: int|
                    0 <= i < app.roster.processes.len() && (
                    #[trigger] app.roster.processes[i]).name == name
                        && app.roster.processes[i].kind == ProcessKind::Agent
                        && app.roster.processes[i].origin == ProcessOrigin::Configured
                        && !crate::pane::pane_retiring(app.panes, app.roster.processes[i].id)
        }),
{
    reveal(AppModel::done);
    reveal(AppModel::recovering);
    agent_names(app.roster.processes, app.panes);
}

proof fn agent_names(processes: Seq<Process>, panes: Seq<crate::pane::PaneModel>)
    ensures
        forall|name: String|
            #[trigger] current_agent_names(processes, panes).contains(name) <==> exists|i: int|
                0 <= i < processes.len() && (#[trigger] processes[i]).name == name
                    && processes[i].kind == ProcessKind::Agent && processes[i].origin
                    == ProcessOrigin::Configured && !crate::pane::pane_retiring(
                    panes,
                    processes[i].id,
                ),
    decreases processes.len(),
{
    if processes.len() > 0 {
        let rest = processes.drop_last();
        agent_names(rest, panes);
        let all = current_agent_names(processes, panes);
        let some = current_agent_names(rest, panes);
        assert forall|name: String|
            #[trigger] all.contains(name) <==> exists|i: int|
                0 <= i < processes.len() && (#[trigger] processes[i]).name == name
                    && processes[i].kind == ProcessKind::Agent && processes[i].origin
                    == ProcessOrigin::Configured && !crate::pane::pane_retiring(
                    panes,
                    processes[i].id,
                ) by {
            if all.contains(name) {
                let k = choose|k: int| 0 <= k < all.len() && all[k] == name;
                if k < some.len() {
                    assert(some[k] == name);
                    assert(some.contains(name));
                    let i = choose|i: int|
                        0 <= i < rest.len() && (#[trigger] rest[i]).name == name && rest[i].kind
                            == ProcessKind::Agent && rest[i].origin == ProcessOrigin::Configured
                            && !crate::pane::pane_retiring(panes, rest[i].id);
                    assert(processes[i] == rest[i]);
                } else {
                    assert(processes[processes.len() - 1].name == name);
                }
            }
            if exists|i: int|
                0 <= i < processes.len() && (#[trigger] processes[i]).name == name
                    && processes[i].kind == ProcessKind::Agent && processes[i].origin
                    == ProcessOrigin::Configured && !crate::pane::pane_retiring(
                    panes,
                    processes[i].id,
                ) {
                let i = choose|i: int|
                    0 <= i < processes.len() && (#[trigger] processes[i]).name == name
                        && processes[i].kind == ProcessKind::Agent && processes[i].origin
                        == ProcessOrigin::Configured && !crate::pane::pane_retiring(
                        panes,
                        processes[i].id,
                    );
                if i < rest.len() {
                    assert(rest[i] == processes[i]);
                    assert(some.contains(name));
                    let k = choose|k: int| 0 <= k < some.len() && some[k] == name;
                    assert(all[k] == name);
                } else {
                    assert(current_agent(processes.last(), panes));
                    assert(all[all.len() - 1] == name);
                }
            }
        }
    }
}

/// A conversation that has its row already is shown in it: the row is selected, and
/// is started only where it does not run.
pub proof fn a_resumed_conversation_keeps_its_row(
    later: AppModel,
    session: AgentSession,
    command: String,
    index: int,
    now: Moment,
)
    requires
        later.waiting.len() > 0,
        later.waiting[0] == (Task::Reopened { session, command }),
        later.roster.orderly(),
        later.roster.processes.len() <= usize::MAX,
        session_position(later.roster.processes, session.id@) == Some(index),
        0 <= index < later.roster.processes.len(),
        later.roster.processes[index].agent_session_id == Some(session.id),
        crate::app::agents::closing_pane(later.roster.processes, later.panes, session.id@) is None,
    ensures
        ({
            let done = told(later, Reply::Wrote(Ok(())), now);
            let pane = later.roster.processes[index].id;
            let free = AppModel { waiting: later.waiting.skip(1), ..later };
            &&& done.roster.selected == index
            &&& done.roster.processes == later.roster.processes
            &&& done.focus == Focus::Terminal
            &&& later.alive(pane) ==> done.outbox == later.outbox
            &&& !later.alive(pane) ==> spawns(
                free,
                done,
                pane,
                Some(command),
                session.working_dir,
                Some(session.id),
            )
        }),
{
    reveal(AppModel::session_answered);
    reveal(AppModel::reopen_answered);
    answers_arrive(later, Task::Reopened { session, command }, Reply::Wrote(Ok(())), now);
    let free = AppModel { waiting: later.waiting.skip(1), ..later };
    let pane = later.roster.processes[index].id;
    assert forall|i: int| 0 <= i < index implies (#[trigger] later.roster.processes[i]).id
        != pane by {
        assert(later.roster.processes[i].id != later.roster.processes[index].id);
    }
    position_unique(later.roster.processes, pane, index);
    let chosen = free.with_roster(free.roster.select(index as usize));
    spawning(chosen, pane, Some(command), session.working_dir, Some(session.id), now);
}

/// A conversation whose row is still closing is reopened when that row is gone: it
/// is kept for the exit of that row, and nothing is started.
pub proof fn a_closing_conversation_is_reopened_later(
    later: AppModel,
    session: AgentSession,
    command: String,
    pane: PaneId,
    now: Moment,
)
    requires
        later.waiting.len() > 0,
        later.waiting[0] == (Task::Reopened { session, command }),
        crate::app::agents::closing_pane(later.roster.processes, later.panes, session.id@) == Some(
            pane,
        ),
    ensures
        ({
            let done = told(later, Reply::Wrote(Ok(())), now);
            &&& done.outbox == later.outbox
            &&& done.roster == later.roster
            &&& done.ledger.reopens.contains_key(pane)
            &&& done.ledger.reopens[pane] == session.id
        }),
{
    reveal(AppModel::session_answered);
    reveal(AppModel::reopen_answered);
    answers_arrive(later, Task::Reopened { session, command }, Reply::Wrote(Ok(())), now);
}

/// While a switch of projects is under way, no conversation is reopened.
pub proof fn a_switch_forbids_reopening(app: AppModel, id: Seq<char>, now: Moment)
    requires
        app.pending_switch is Some,
    ensures
        app.reopening(id, now).outbox == app.outbox,
        app.reopening(id, now).waiting == app.waiting,
        app.reopening(id, now).feedback.notice == Some(Message::SwitchInProgress),
{
    reveal(AppModel::reopening);
}

/// A queued reopening reopens that conversation.
pub proof fn a_queued_reopening_reopens_its_conversation(
    app: AppModel,
    id: String,
    sessions: Seq<AgentSession>,
    session: AgentSession,
    now: Moment,
)
    requires
        app.waiting.len() == 0,
        app.agenda.len() > 0,
        app.agenda.last() == Task::Reopen(id),
        app.pending_switch is None,
        app.world.has_store,
        app.world.sessions == Ok::<Seq<AgentSession>, String>(sessions),
        session_at(sessions, id@) == Some(session),
        session.reopen is Some,
    ensures
        app.progressed(now).outbox == app.outbox.push(
            EffectModel::Plain(
                Effect::SetSessionState { session: session.id, state: AgentSessionState::Open },
            ),
        ),
        app.progressed(now).waiting == app.waiting.push(
            Task::Reopened { session, command: session.reopen->0 },
        ),
{
    reveal(AppModel::done);
    reveal(AppModel::reopening);
}

/// A conversation is held elsewhere when a process that is known by its number and
/// its token is the one that runs now.
pub proof fn a_conversation_is_held_by_the_process_that_runs_it(session: AgentSession)
    ensures
        session.owned() <==> session.owner_process is Some && session.owner_token is Some
            && session.running_token is Some && session.owner_token->0@
            == session.running_token->0@,
{
}

/// What cannot be reopened is not: a conversation that is not recorded, one without
/// a command to reopen it with, and any where the records cannot be read. The user
/// reads which it is.
pub proof fn what_cannot_be_reopened_is_not(
    app: AppModel,
    id: Seq<char>,
    error: String,
    now: Moment,
)
    requires
        app.pending_switch is None,
        app.world.has_store,
    ensures
        ({
            let after = app.reopening(id, now);
            let unread = app.world.sessions == Err::<Seq<AgentSession>, String>(error);
            let found = session_at(app.world.sessions->Ok_0, id);
            let unknown = app.world.sessions is Ok && found is None;
            let lost = app.world.sessions is Ok && found is Some && found->0.reopen is None;
            &&& unread || unknown || lost ==> after.outbox == app.outbox && after.waiting
                == app.waiting
            &&& unread ==> after.feedback.notice == Some(Message::SessionStore(error))
            &&& unknown ==> after.feedback.notice == Some(Message::NoRecentSession)
            &&& lost ==> after.feedback.notice == Some(Message::NotResumable)
        }),
{
    reveal(AppModel::reopening);
}

/// Where conversations were closed in the project but none can be reopened, `u` says
/// that they cannot be resumed.
pub proof fn closed_for_good_is_not_resumable(
    app: AppModel,
    sessions: Seq<AgentSession>,
    project: Location,
    k: int,
    now: Moment,
)
    requires
        in_sidebar(app),
        app.catalog.current == Some(project),
        app.world.has_store,
        app.world.sessions == Ok::<Seq<AgentSession>, String>(sessions),
        0 <= k < sessions.len(),
        sessions[k].configured_key is None,
        sessions[k].state == AgentSessionState::Closed,
        same_place(sessions[k].project, project),
        forall|i: int| 0 <= i < sessions.len() ==> (#[trigger] sessions[i]).reopen is None,
    ensures
        pressed(app, KeyCode::Char('u'), now).outbox == app.outbox,
        pressed(app, KeyCode::Char('u'), now).feedback.notice == Some(Message::NotResumable),
{
    reveal(AppModel::sidebar_key);
    reveal(AppModel::common_shortcut);
    reveal(AppModel::reopening_last);
    sidebar_presses(app, KeyCode::Char('u'), now);
    crate::session::recent_sessions_can_be_reopened(sessions, project, 1);
    let recent = recent_sessions(sessions, project, 1);
    if recent.len() > 0 {
        recent_are_listed(sessions, project, 1);
        assert(sessions.contains(recent[0]));
    }
    assert(sessions[k].closed_in(project));
}

/// A session without a name gets one: the first free name that was drawn, or one made
/// of its tool's label and its id.
pub proof fn an_unnamed_session_is_named(later: AppModel, prepared: Prepared, now: Moment)
    requires
        later.waiting.len() > 0,
        later.waiting[0] == Task::Prepared,
        later.catalog.current is Some,
        prepared.resume is Some ==> prepared.resume_valid,
        prepared.resume is None ==> !prepared.needs_resume,
        prepared.command is Some,
        prepared.id is Some,
        prepared.launch is Some,
        prepared.name is None,
    ensures
        told(later, Reply::Prepared(prepared), now).outbox.last()->Record_0.name
            == crate::names::session_name(
            later.world.names,
            later.roster.processes,
            later.world.presets.label(prepared.tool),
            prepared.id->0@,
        ),
{
    reveal(AppModel::session_answered);
    reveal(AppModel::session_prepared);
    answers_arrive(later, Task::Prepared, Reply::Prepared(prepared), now);
}

/// Records that cannot be read are no reason to hide the tools: they are shown with
/// the error, and no conversation is offered.
pub proof fn unread_conversations_leave_the_tools(app: AppModel, error: String, now: Moment)
    requires
        in_sidebar(app),
        app.world.has_store,
        app.world.sessions == Err::<Seq<AgentSession>, String>(error),
    ensures
        ({
            let picker = pressed(app, KeyCode::Char('A'), now).overlay->0->AgentPicker_0;
            &&& picker.error == Some(Message::Outside(error))
            &&& picker.items.len() == 5
            &&& forall|i: int| 0 <= i < 5 ==> (#[trigger] picker.items[i]) is New
        }),
{
    reveal(AppModel::sidebar_key);
    reveal(AppModel::common_shortcut);
    reveal(AppModel::picker_shown);
    sidebar_presses(app, KeyCode::Char('A'), now);
}

/// A record that the host could not write is reported.
pub proof fn an_unwritten_record_is_reported(
    later: AppModel,
    pane: PaneId,
    id: String,
    error: String,
    now: Moment,
)
    requires
        later.waiting.len() > 0,
    ensures
        later.waiting[0] == Task::OrphansRetired ==> {
            let after = told(later, Reply::Wrote(Err(error)), now);
            &&& after.feedback.notice == Some(Message::SessionStore(error))
            &&& after.roster == later.roster && after.outbox == later.outbox
            &&& told(later, Reply::Wrote(Ok(())), now) == (AppModel {
                waiting: later.waiting.skip(1),
                ..later
            })
        },
        later.waiting[0] == Task::Linked(pane) ==> {
            let after = told(later, Reply::Linked(Err(error)), now);
            let linked = told(later, Reply::Linked(Ok(id)), now);
            &&& after.feedback.notice == Some(Message::SessionStore(error))
            &&& after.roster == later.roster && after.outbox == later.outbox
            &&& later.roster.process(pane) is Some ==> linked.roster.process(pane) == Some(
                Process { agent_session_id: Some(id), ..later.roster.process(pane)->0 },
            )
        },
{
    reveal(AppModel::session_answered);
    reveal(AppModel::history_answered);
    reveal(AppModel::link_answered);
    answers_arrive(later, later.waiting[0], Reply::Wrote(Err(error)), now);
    answers_arrive(later, later.waiting[0], Reply::Wrote(Ok(())), now);
    answers_arrive(later, later.waiting[0], Reply::Linked(Err(error)), now);
    answers_arrive(later, later.waiting[0], Reply::Linked(Ok(id)), now);
    crate::workspace::a_link_is_found_again(later.roster, pane, pane, id);
}

/// A row that is closing is one of that conversation, whose process is still alive
/// and is to go when it exits.
pub proof fn a_closing_row_is_alive_and_going(
    processes: Seq<Process>,
    panes: Seq<crate::pane::PaneModel>,
    id: Seq<char>,
)
    ensures
        crate::app::agents::closing_pane(processes, panes, id) matches Some(pane) ==> {
            &&& crate::pane::pane_alive(panes, pane)
            &&& crate::pane::pane_retiring(panes, pane)
            &&& exists|i: int|
                0 <= i < processes.len() && (#[trigger] processes[i]).id == pane && opt_text(
                    processes[i].agent_session_id,
                ) == Some(id)
        },
        crate::app::agents::closing_pane(processes, panes, id) is None ==> forall|i: int|
            0 <= i < processes.len() && opt_text((#[trigger] processes[i]).agent_session_id)
                == Some(id) ==> !crate::pane::pane_alive(panes, processes[i].id)
                || !crate::pane::pane_retiring(panes, processes[i].id),
    decreases processes.len(),
{
    if processes.len() > 0 {
        let rest = processes.drop_first();
        a_closing_row_is_alive_and_going(rest, panes, id);
        match crate::app::agents::closing_pane(processes, panes, id) {
            Some(pane) => {
                if !(opt_text(processes[0].agent_session_id) == Some(id)
                    && crate::pane::pane_alive(panes, processes[0].id)
                    && crate::pane::pane_retiring(panes, processes[0].id)) {
                    let i = choose|i: int|
                        0 <= i < rest.len() && (#[trigger] rest[i]).id == pane && opt_text(
                            rest[i].agent_session_id,
                        ) == Some(id);
                    assert(processes[i + 1] == rest[i]);
                } else {
                    assert(processes[0].id == pane);
                }
            },
            None => {
                assert forall|i: int|
                    0 <= i < processes.len() && opt_text((#[trigger] processes[i]).agent_session_id)
                        == Some(id) implies !crate::pane::pane_alive(panes, processes[i].id)
                    || !crate::pane::pane_retiring(panes, processes[i].id) by {
                    if i > 0 {
                        assert(rest[i - 1] == processes[i]);
                    }
                }
            },
        }
    }
}

} // verus!
