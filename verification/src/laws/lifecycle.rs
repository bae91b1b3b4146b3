//! Starting a process, and what follows when it ends: what is spawned, when it is
//! spawned again, and in which state it is left.

use vstd::prelude::*;
use crate::activity::{ActivityEvidence, ActivityTracker};
use crate::app::signals::ProcessOutput;
use crate::app::AppModel;
use crate::effect::{Effect, EffectModel, LaunchPurpose, Reply, SpawnRequest, Task};
use crate::emulator::opened_screen;
use crate::event::RuntimeEvent;
use crate::input::KeyCode;
use crate::laws::{
    answers, answers_arrive, fresh, in_sidebar, lives_are_kept, pressed, sidebar_presses,
    states_are_kept, told,
};
use crate::ledger::{power_of_two, restart_delay};
use crate::location::{Directory, Location};
use crate::message::Message;
use crate::moment::Moment;
use crate::pane::{pane_of, panes_are_put_and_removed, ConfigMembership, PaneLife, PaneModel};
use crate::process::{
    ActivityState, AgentActivitySource, AgentTool, ExitIntent, ExitOutcome, PaneId, Process,
    ProcessKind, ProcessState, RestartPolicy,
};
use crate::session::{session_at, AgentSession, AgentSessionState};

verus! {

/// Whether a process runs in a directory: the one it is configured with, under the
/// project's folder where it is a relative path; without one, the project's
/// folder.
pub open spec fn runs_in(
    project: Option<Location>,
    configured: Option<String>,
    directory: Option<Directory>,
) -> bool {
    let folder = if project is Some {
        project->0.folder
    } else {
        None
    };
    let absolute = configured is Some && configured->0@.len() > 0 && configured->0@[0] == '/';
    &&& configured is None && folder is None ==> directory is None
    &&& configured is None && folder is Some ==> directory == Some(Directory::Given(folder->0))
    &&& configured is Some && (absolute || folder is None) ==> directory == Some(
        Directory::Given(configured->0),
    )
    &&& configured is Some && !absolute && folder is Some ==> directory == Some(
        Directory::Under { folder: folder->0, relative: configured->0 },
    )
}

/// Whether one process is being started: the one request that goes out is for this
/// pane, with this command, in the directory of the process, at the size of the
/// pane, and under a generation that was never used for the pane's last run.
pub open spec fn spawns(
    before: AppModel,
    after: AppModel,
    pane: PaneId,
    command: Option<String>,
    working_dir: Option<String>,
    session: Option<String>,
) -> bool {
    let request = after.outbox.last()->Plain_0->Spawn_0;
    &&& after.outbox.len() == before.outbox.len() + 1
    &&& after.outbox.drop_last() == before.outbox
    &&& after.outbox.last() == EffectModel::Plain(Effect::Spawn(request))
    &&& request.pane == pane
    &&& request.command == command
    &&& request.project == before.catalog.current
    &&& request.session == session
    &&& runs_in(before.catalog.current, working_dir, request.directory)
    &&& request.size == before.pane_size()
    &&& after.ledger.generation(pane) == Some(request.generation)
    &&& before.ledger.generation(pane) != Some(request.generation)
    &&& request.state_file == if session is Some && before.world.has_store
        && before.world.state_file is Ok {
        before.world.state_file->Ok_0
    } else {
        None
    }
    &&& after.waiting == before.waiting.push(Task::Spawned { pane, session })
}

/// A request to start a process is made of what the process says.
pub proof fn spawning(
    app: AppModel,
    pane: PaneId,
    command: Option<String>,
    working_dir: Option<String>,
    session: Option<String>,
    now: Moment,
)
    requires
        app.session_of(pane) == session,
    ensures
        spawns(
            app,
            app.spawning(pane, command, working_dir, now),
            pane,
            command,
            working_dir,
            session,
        ),
        app.spawning(pane, command, working_dir, now).panes == app.panes,
        app.spawning(pane, command, working_dir, now).roster == app.roster,
        session is None ==> app.spawning(pane, command, working_dir, now).feedback == app.feedback,
{
    crate::ledger::a_new_generation_makes_old_events_stale(app.ledger, pane, pane);
    let after = app.spawning(pane, command, working_dir, now);
    assert(after.outbox.drop_last() =~= app.outbox);
}

/// `s` on a process that does not run starts it: by its own command, in its own
/// directory.
pub proof fn a_start_runs_the_process_as_configured(app: AppModel, pane: PaneId, now: Moment)
    requires
        in_sidebar(app),
        app.catalog.cursor is None,
        app.roster.selected_id() == Some(pane),
        app.roster.process(pane) is Some,
        app.roster.process(pane)->0.agent_session_id is None,
        !app.alive(pane),
    ensures
        ({
            let process = app.roster.process(pane)->0;
            spawns(
                app,
                pressed(app, KeyCode::Char('s'), now),
                pane,
                process.command,
                process.working_dir,
                None,
            )
        }),
        ({
            let process = app.roster.process(pane)->0;
            spawns(
                app,
                pressed(app, KeyCode::Char('r'), now),
                pane,
                process.command,
                process.working_dir,
                None,
            )
        }),
{
    reveal(AppModel::sidebar_key);
    reveal(AppModel::process_shortcut);
    reveal(AppModel::selected_toggled);
    reveal(AppModel::selected_restarted);
    reveal(AppModel::launched);
    sidebar_presses(app, KeyCode::Char('s'), now);
    sidebar_presses(app, KeyCode::Char('r'), now);
    let process = app.roster.process(pane)->0;
    spawning(fresh(app), pane, process.command, process.working_dir, None, now);
}

/// A process of a recorded conversation is started by the command that restores
/// that conversation, and its state file goes with it.
pub proof fn a_conversation_is_started_by_its_restore_command(
    app: AppModel,
    pane: PaneId,
    id: String,
    sessions: Seq<AgentSession>,
    session: AgentSession,
    now: Moment,
)
    requires
        in_sidebar(app),
        app.catalog.cursor is None,
        app.roster.selected_id() == Some(pane),
        app.roster.process(pane) is Some,
        app.roster.process(pane)->0.agent_session_id == Some(id),
        !app.alive(pane),
        app.world.has_store,
        app.world.sessions == Ok::<Seq<AgentSession>, String>(sessions),
        session_at(sessions, id@) == Some(session),
        !session.owned(),
    ensures
        session.restore is Some ==> spawns(
            app,
            pressed(app, KeyCode::Char('s'), now),
            pane,
            session.restore,
            app.roster.process(pane)->0.working_dir,
            Some(id),
        ),
        session.restore is None ==> pressed(app, KeyCode::Char('s'), now).outbox == app.outbox
            && pressed(app, KeyCode::Char('s'), now).feedback.notice == Some(Message::NotResumable),
{
    reveal(AppModel::sidebar_key);
    reveal(AppModel::process_shortcut);
    reveal(AppModel::selected_toggled);
    reveal(AppModel::launched);
    sidebar_presses(app, KeyCode::Char('s'), now);
    spawning(
        fresh(app),
        pane,
        session.restore,
        app.roster.process(pane)->0.working_dir,
        Some(id),
        now,
    );
}

/// Whether a pane holds a child that was just started: an empty screen of the
/// pane's size with a thousand lines of history, alive since now, with no shutdown
/// asked of it; and its process is running and idle.
pub open spec fn just_started(
    before: AppModel,
    after: AppModel,
    pane: PaneId,
    source: AgentActivitySource,
    now: Moment,
) -> bool {
    let size = before.pane_size();
    &&& pane_of(after.panes, pane) == Some(
        PaneModel {
            id: pane,
            screen: opened_screen(size.rows, size.cols, 1000, before.world.host_colors),
            life: PaneLife {
                notification_scope: before.ledger.next_scope,
                activity: ActivityTracker {
                    strategy: source,
                    evidence: ActivityEvidence::Unscheduled,
                    last_title: None,
                },
                last_bell: None,
                pending_bell: None,
                alive: true,
                started_at: now,
                exit_intent: ExitIntent::FollowPolicy,
                shutdown_generation: 0,
                membership: ConfigMembership::Listed,
                protocol: 0,
                screen_epoch: 0,
            },
        },
    )
    &&& after.ledger.next_scope != before.ledger.next_scope
    &&& after.ledger.generations == before.ledger.generations
    &&& after.outbox == before.outbox
    &&& after.roster.process(pane)->0.state == ProcessState::Running
    &&& after.roster.process(pane)->0.activity == ActivityState::Idle
}

/// The evidence by which a process is seen to work: its title for a Codex agent,
/// its output otherwise.
pub open spec fn evidence_for(process: Process) -> AgentActivitySource {
    if process.kind == ProcessKind::Agent && process.agent_tool == Some(AgentTool::Codex) {
        AgentActivitySource::Title
    } else {
        AgentActivitySource::Output
    }
}

proof fn installing(app: AppModel, pane: PaneId, now: Moment)
    requires
        app.roster.process(pane) is Some,
    ensures
        just_started(
            app,
            app.installed(pane, now),
            pane,
            evidence_for(app.roster.process(pane)->0),
            now,
        ),
{
    let after = app.installed(pane, now);
    let fresh = PaneModel {
        id: pane,
        screen: opened_screen(
            app.pane_size().rows,
            app.pane_size().cols,
            crate::app::lifecycle::SCROLLBACK_LINES,
            app.world.host_colors,
        ),
        life: PaneLife::started(app.ledger.next_scope, app.evidence_of(pane), now),
    };
    panes_are_put_and_removed(app.panes, fresh, pane);
    states_are_kept(app, pane, ProcessState::Running, ActivityState::Idle, pane);
    let running = app.with_state(pane, ProcessState::Running);
    states_are_kept(running, pane, ProcessState::Running, ActivityState::Idle, pane);
}

/// A child that the host started is running in an empty pane.
pub proof fn a_started_process_runs(later: AppModel, pane: PaneId, now: Moment)
    requires
        later.waiting.len() > 0,
        later.waiting[0] == (Task::Spawned { pane, session: None }),
        later.roster.process(pane) is Some,
    ensures
        just_started(
            later,
            told(later, Reply::Done(true), now),
            pane,
            evidence_for(later.roster.process(pane)->0),
            now,
        ),
{
    reveal(AppModel::process_answered);
    reveal(AppModel::spawn_answered);
    answers_arrive(
        later,
        Task::Spawned { pane, session: None },
        Reply::Done(true),
        now,
    );
    installing(AppModel { waiting: later.waiting.skip(1), ..later }, pane, now);
}

/// A child of a recorded conversation is shown once the record says that the
/// conversation is open; if that cannot be written, the child is discarded and the
/// process has crashed.
pub proof fn a_started_conversation_is_recorded_as_open(
    later: AppModel,
    written: AppModel,
    pane: PaneId,
    id: String,
    error: String,
    now: Moment,
)
    requires
        later.waiting.len() > 0,
        later.waiting[0] == (Task::Spawned { pane, session: Some(id) }),
        later.world.has_store,
        answers(written, told(later, Reply::Done(true), now)),
        written.roster.process(pane) is Some,
    ensures
        ({
            let asked = told(later, Reply::Done(true), now);
            let failed = told(written, Reply::Wrote(Err(error)), now);
            &&& asked.outbox == later.outbox.push(
                EffectModel::Plain(
                    Effect::SetSessionState { session: id, state: AgentSessionState::Open },
                ),
            )
            &&& asked.roster == later.roster
            &&& just_started(
                written,
                told(written, Reply::Wrote(Ok(())), now),
                pane,
                evidence_for(written.roster.process(pane)->0),
                now,
            )
            &&& failed.outbox == written.outbox.push(EffectModel::Plain(Effect::Discard(pane)))
            &&& failed.roster.process(pane)->0.state == ProcessState::Crashed
            &&& failed.feedback.notice == Some(Message::SessionStore(error))
            &&& !failed.alive(pane)
        }),
{
    reveal(AppModel::process_answered);
    reveal(AppModel::spawn_answered);
    reveal(AppModel::session_answered);
    reveal(AppModel::session_open_answered);
    answers_arrive(
        later,
        Task::Spawned { pane, session: Some(id) },
        Reply::Done(true),
        now,
    );
    answers_arrive(written, Task::SessionOpened(pane), Reply::Wrote(Ok(())), now);
    answers_arrive(written, Task::SessionOpened(pane), Reply::Wrote(Err(error)), now);
    let taken = AppModel { waiting: written.waiting.skip(1), ..written };
    installing(taken, pane, now);
    let told = taken.told(Effect::Discard(pane));
    switching_off(told, pane);
    states_are_kept(
        told.deactivated(pane),
        pane,
        ProcessState::Crashed,
        ActivityState::Idle,
        pane,
    );
}

proof fn switching_off(app: AppModel, pane: PaneId)
    ensures
        !app.deactivated(pane).alive(pane),
        app.deactivated(pane).roster == app.roster,
        app.life(pane) is Some ==> app.deactivated(pane).life(pane) is Some,
        app.life(pane) matches Some(life) ==> app.deactivated(pane).life(pane)->0.exit_intent
            == ExitIntent::FollowPolicy,
{
    match app.life(pane) {
        Some(life) => lives_are_kept(app, pane, life.deactivated(), pane),
        None => {},
    }
}

/// The wait before a restart doubles from a fifth of a second up to five seconds,
/// and stays there.
pub proof fn restarts_wait_ever_longer(attempts: u64)
    ensures
        restart_delay(0) == 200,
        restart_delay(1) == 400,
        restart_delay(2) == 800,
        restart_delay(3) == 1_600,
        restart_delay(4) == 3_200,
        attempts >= 5 ==> restart_delay(attempts) == 5_000,
{
    reveal_with_fuel(power_of_two, 6);
}

/// The wait before the next start: a fifth of a second where the last run was ten
/// seconds or longer, and otherwise by the number of restarts since such a run.
pub open spec fn wait_before_restart(before: AppModel, pane: PaneId, ran: int) -> nat {
    if ran >= 10_000 * 1_000_000 {
        200
    } else {
        restart_delay(before.ledger.attempts_of(pane))
    }
}

/// Whether a process is about to be started again: it is restarting, one timer for
/// it is set, under a generation that no run had before, and the attempt counts.
pub open spec fn restarts_later(
    before: AppModel,
    after: AppModel,
    pane: PaneId,
    ran: int,
) -> bool {
    let generation = after.ledger.generation(pane)->0;
    &&& after.outbox == before.outbox.push(
        EffectModel::Plain(
            Effect::RespawnAfter {
                pane,
                generation,
                millis: wait_before_restart(before, pane, ran) as u64,
            },
        ),
    )
    &&& after.ledger.generation(pane) is Some
    &&& before.ledger.generation(pane) != after.ledger.generation(pane)
    &&& after.roster.process(pane)->0.state == ProcessState::Restarting
    &&& !after.alive(pane)
    &&& after.waiting == before.waiting
    &&& ran >= 10_000 * 1_000_000 ==> after.ledger.attempts_of(pane) == 1
    &&& ran < 10_000 * 1_000_000 && before.ledger.attempts_of(pane) < u64::MAX
        ==> after.ledger.attempts_of(pane) == before.ledger.attempts_of(pane) + 1
}

proof fn scheduling(app: AppModel, pane: PaneId, started_at: Moment, now: Moment)
    requires
        app.roster.process(pane) is Some,
        app.roster.process(pane)->0.state == ProcessState::Restarting,
        !app.alive(pane),
    ensures
        restarts_later(
            app,
            app.restart_scheduled(pane, started_at, now),
            pane,
            now.nanos - started_at.nanos,
        ),
{
    restarts_wait_ever_longer(0);
    let attempts = if now.is_past(started_at, crate::ledger::RESTART_STABLE_RUN_MILLIS) {
        0
    } else {
        app.ledger.attempts_of(pane)
    };
    crate::ledger::restart_delays_grow_up_to_a_bound(attempts);
    let counted = app.ledger.with_attempts(pane, crate::app::lifecycle::one_more(attempts));
    crate::ledger::a_new_generation_makes_old_events_stale(counted, pane, pane);
}

/// A child that could not be started has crashed, or is started again after a wait
/// where its policy restarts failures.
pub proof fn a_failed_start_follows_the_restart_policy(
    later: AppModel,
    pane: PaneId,
    session: Option<String>,
    now: Moment,
)
    requires
        later.waiting.len() > 0,
        later.waiting[0] == (Task::Spawned { pane, session }),
        later.roster.process(pane) is Some,
    ensures
        ({
            let never = later.roster.process(pane)->0.restart == RestartPolicy::Never;
            let after = told(later, Reply::Done(false), now);
            &&& never ==> after.outbox == later.outbox
            &&& never ==> after.roster.process(pane)->0.state == ProcessState::Crashed
            &&& never ==> !after.alive(pane)
            &&& !never ==> restarts_later(
                AppModel { waiting: later.waiting.skip(1), ..later },
                after,
                pane,
                0,
            )
        }),
{
    reveal(AppModel::process_answered);
    reveal(AppModel::spawn_answered);
    answers_arrive(later, Task::Spawned { pane, session }, Reply::Done(false), now);
    let taken = AppModel { waiting: later.waiting.skip(1), ..later };
    switching_off(taken, pane);
    let off = taken.deactivated(pane);
    states_are_kept(off, pane, ProcessState::Crashed, ActivityState::Idle, pane);
    states_are_kept(off, pane, ProcessState::Restarting, ActivityState::Idle, pane);
    scheduling(off.with_state(pane, ProcessState::Restarting), pane, now, now);
}

/// A process that ends by itself is started again as its policy says: never, after
/// a failure, or always. If it is not, a failure has crashed it and a success has
/// ended it.
pub proof fn an_exit_is_answered_by_the_restart_policy(
    app: AppModel,
    pane: PaneId,
    generation: u64,
    outcome: ExitOutcome,
    now: Moment,
)
    requires
        app.ledger.generation(pane) == Some(generation),
        app.life(pane) is Some,
        app.life(pane)->0.membership == ConfigMembership::Listed,
        app.life(pane)->0.exit_intent == ExitIntent::FollowPolicy,
        app.roster.process(pane) is Some,
    ensures
        ({
            let policy = app.roster.process(pane)->0.restart;
            let again = policy == RestartPolicy::Always || policy == RestartPolicy::OnFailure
                && outcome == ExitOutcome::Failed;
            let after = app.handled(
                RuntimeEvent::Output { pane, generation, output: ProcessOutput::Exited(outcome) },
                now,
            );
            &&& after.roster.process(pane)->0.activity == ActivityState::Idle
            &&& after.agenda == app.agenda.push(Task::Advance(pane))
            &&& !after.alive(pane)
            &&& again ==> restarts_later(
                app,
                after,
                pane,
                now.nanos - app.life(pane)->0.started_at.nanos,
            )
            &&& !again ==> after.outbox == app.outbox
            &&& !again && outcome == ExitOutcome::Failed ==> after.roster.process(pane)->0.state
                == ProcessState::Crashed
            &&& !again && outcome == ExitOutcome::Succeeded ==> after.roster.process(pane)->0.state
                == ProcessState::Exited
        }),
{
    reveal(AppModel::handled);
    reveal(AppModel::output_handled);
    let life = app.life(pane)->0;
    states_are_kept(app, pane, ProcessState::Exited, ActivityState::Idle, pane);
    let idle = app.with_activity(pane, ActivityState::Idle);
    switching_off(idle, pane);
    let off = idle.deactivated(pane);
    states_are_kept(off, pane, ProcessState::Exited, ActivityState::Idle, pane);
    states_are_kept(off, pane, ProcessState::Crashed, ActivityState::Idle, pane);
    states_are_kept(idle, pane, ProcessState::Restarting, ActivityState::Idle, pane);
    let waiting = idle.with_state(pane, ProcessState::Restarting);
    switching_off(waiting, pane);
    scheduling(waiting.deactivated(pane), pane, life.started_at, now);
}

/// A process that was asked to restart is started again at once when it exits,
/// however it exits, and its restarts so far no longer count.
pub proof fn a_requested_restart_starts_at_once(
    app: AppModel,
    pane: PaneId,
    generation: u64,
    outcome: ExitOutcome,
    now: Moment,
)
    requires
        app.ledger.generation(pane) == Some(generation),
        app.life(pane) is Some,
        app.life(pane)->0.alive,
        app.life(pane)->0.membership == ConfigMembership::Listed,
        app.life(pane)->0.exit_intent == ExitIntent::RestartInFlight || app.life(
            pane,
        )->0.exit_intent == ExitIntent::RestartRetryable,
        app.roster.process(pane) is Some,
        app.roster.process(pane)->0.agent_session_id is None,
    ensures
        ({
            let process = app.roster.process(pane)->0;
            let after = app.handled(
                RuntimeEvent::Output { pane, generation, output: ProcessOutput::Exited(outcome) },
                now,
            );
            &&& spawns(app, after, pane, process.command, process.working_dir, None)
            &&& after.roster.process(pane)->0.state == ProcessState::Restarting
            &&& after.ledger.attempts_of(pane) == 0
            &&& after.agenda == app.agenda.push(Task::Advance(pane))
        }),
{
    reveal(AppModel::handled);
    reveal(AppModel::output_handled);
    reveal(AppModel::launched);
    let process = app.roster.process(pane)->0;
    crate::workspace::a_changed_process_is_found_again(
        app.roster,
        pane,
        ProcessState::Restarting,
        ActivityState::Idle,
    );
    let idle = app.with_activity(pane, ActivityState::Idle);
    crate::workspace::a_changed_process_is_found_again(
        idle.roster,
        pane,
        ProcessState::Restarting,
        ActivityState::Idle,
    );
    let forgiven = AppModel { ledger: idle.ledger.without_attempts(pane), ..idle };
    let ready = forgiven.with_state(pane, ProcessState::Restarting).later(Task::Advance(pane));
    spawning(ready, pane, process.command, process.working_dir, None, now);
    crate::ledger::a_new_generation_makes_old_events_stale(ready.ledger, pane, pane);
}

/// The timer of a restart starts the process, as configured, unless another run
/// came in between.
pub proof fn a_due_restart_starts_the_process(
    app: AppModel,
    pane: PaneId,
    generation: u64,
    now: Moment,
)
    requires
        app.roster.process(pane) is Some,
        app.roster.process(pane)->0.agent_session_id is None,
    ensures
        ({
            let process = app.roster.process(pane)->0;
            let after = app.handled(RuntimeEvent::Respawn { pane, generation }, now);
            &&& app.ledger.generation(pane) == Some(generation) ==> spawns(
                app,
                after,
                pane,
                process.command,
                process.working_dir,
                None,
            )
            &&& app.ledger.generation(pane) != Some(generation) ==> after == app
        }),
{
    reveal(AppModel::handled);
    reveal(AppModel::respawned);
    reveal(AppModel::launched);
    let process = app.roster.process(pane)->0;
    spawning(app, pane, process.command, process.working_dir, None, now);
}

/// A queued launch starts its process; and a launch of a process that runs nowhere
/// else never starts another one.
pub proof fn a_queued_launch_starts_its_process(
    app: AppModel,
    pane: PaneId,
    purpose: LaunchPurpose,
    now: Moment,
)
    requires
        app.waiting.len() == 0,
        app.agenda.len() > 0,
        app.agenda.last() == (Task::Launch { pane, purpose }),
        app.roster.process(pane) is Some,
        app.roster.process(pane)->0.agent_session_id is None,
    ensures
        ({
            let process = app.roster.process(pane)->0;
            spawns(
                app,
                app.progressed(now),
                pane,
                process.command,
                process.working_dir,
                None,
            )
        }),
        app.progressed(now).agenda == app.agenda.drop_last(),
{
    reveal(AppModel::done);
    reveal(AppModel::launched);
    let process = app.roster.process(pane)->0;
    let popped = AppModel { agenda: app.agenda.drop_last(), ..app };
    spawning(popped, pane, process.command, process.working_dir, None, now);
}

/// A process whose entry is gone disappears when it exits, with its pane and with
/// everything that was counted of it; a conversation whose reopening waits for
/// this exit is then reopened.
pub proof fn a_retired_process_disappears_when_it_exits(
    app: AppModel,
    pane: PaneId,
    generation: u64,
    outcome: ExitOutcome,
    now: Moment,
)
    requires
        app.ledger.generation(pane) == Some(generation),
        app.life(pane) is Some,
        app.life(pane)->0.membership == ConfigMembership::RetireOnExit,
        app.roster.orderly(),
        app.roster.process(pane) is Some,
    ensures
        ({
            let after = app.handled(
                RuntimeEvent::Output { pane, generation, output: ProcessOutput::Exited(outcome) },
                now,
            );
            &&& after.outbox == app.outbox
            &&& after.roster.process(pane) is None
            &&& after.roster.processes.len() == app.roster.processes.len() - 1
            &&& after.panes.len() == app.panes.len() - 1
            &&& after.ledger.generation(pane) is None
            &&& after.ledger.attempts_of(pane) == 0
            &&& !after.ledger.reopens.contains_key(pane)
            &&& app.ledger.reopens.contains_key(pane) ==> after.agenda == app.agenda.push(
                Task::Reopen(app.ledger.reopens[pane]),
            ).push(Task::Advance(pane))
            &&& !app.ledger.reopens.contains_key(pane) ==> after.agenda == app.agenda.push(
                Task::Advance(pane),
            )
        }),
{
    reveal(AppModel::handled);
    reveal(AppModel::output_handled);
    crate::workspace::position_is_the_first(app.roster.processes, pane);
    let after = app.exited(pane, outcome, now);
    crate::pane::pane_place_is_the_first(app.panes, pane);
    let index = crate::workspace::position(app.roster.processes, pane)->0;
    crate::workspace::position_is_the_first(after.roster.processes, pane);
    match crate::workspace::position(after.roster.processes, pane) {
        Some(place) => {
            let from = if place < index {
                place
            } else {
                place + 1
            };
            assert(after.roster.processes[place] == app.roster.processes[from]);
            assert(app.roster.processes[from].id == app.roster.processes[index].id);
        },
        None => {},
    }
}

/// A restart that cannot be made ends in a crash, and the user reads why: the
/// conversation cannot be resumed, or its record cannot be read.
pub proof fn a_restart_that_cannot_be_made_is_a_crash(
    app: AppModel,
    pane: PaneId,
    generation: u64,
    id: String,
    error: String,
    now: Moment,
)
    requires
        app.ledger.generation(pane) == Some(generation),
        app.roster.process(pane) is Some,
        app.roster.process(pane)->0.agent_session_id == Some(id),
        app.world.has_store,
    ensures
        ({
            let after = app.handled(RuntimeEvent::Respawn { pane, generation }, now);
            let unread = app.world.sessions == Err::<Seq<AgentSession>, String>(error);
            let unknown = app.world.sessions is Ok && session_at(
                app.world.sessions->Ok_0,
                id@,
            ) is None;
            &&& unread || unknown ==> after.outbox == app.outbox && after.waiting == app.waiting
            &&& unread || unknown ==> after.roster.process(pane)->0.state == ProcessState::Crashed
            &&& unread || unknown ==> !after.alive(pane)
            &&& unread ==> after.feedback.notice == Some(Message::SessionStore(error))
            &&& unknown ==> after.feedback.notice == Some(Message::NotResumable)
        }),
{
    reveal(AppModel::handled);
    reveal(AppModel::respawned);
    reveal(AppModel::launched);
    switching_off(app, pane);
    states_are_kept(
        app.deactivated(pane),
        pane,
        ProcessState::Crashed,
        ActivityState::Idle,
        pane,
    );
}

/// A state file that cannot be found is reported, and the conversation is started
/// without it.
pub proof fn a_missing_state_file_is_reported(
    app: AppModel,
    pane: PaneId,
    id: String,
    error: String,
    command: Option<String>,
    working_dir: Option<String>,
    now: Moment,
)
    requires
        app.session_of(pane) == Some(id),
        app.world.has_store,
        app.world.state_file == Err::<Option<String>, String>(error),
    ensures
        app.spawning(pane, command, working_dir, now).feedback.notice == Some(
            Message::SessionStore(error),
        ),
        app.spawning(pane, command, working_dir, now).outbox.last()->Plain_0->Spawn_0.state_file
            is None,
{
}

/// A conversation whose owner is another running instance is not started here: the
/// key for it asks for nothing and leaves the row as it was, and a restart of it
/// ends in a crash without a second child.
pub proof fn a_conversation_of_another_instance_is_left_alone(
    app: AppModel,
    pane: PaneId,
    generation: u64,
    id: String,
    sessions: Seq<AgentSession>,
    session: AgentSession,
    now: Moment,
)
    requires
        app.roster.process(pane) is Some,
        app.roster.process(pane)->0.agent_session_id == Some(id),
        !app.alive(pane),
        app.world.has_store,
        app.world.sessions == Ok::<Seq<AgentSession>, String>(sessions),
        session_at(sessions, id@) == Some(session),
        session.owner_process is Some,
        session.owner_token is Some,
        session.running_token is Some,
        session.owner_token->0@ == session.running_token->0@,
    ensures
        in_sidebar(app) && app.catalog.cursor is None && app.roster.selected_id() == Some(pane)
            ==> {
            let after = pressed(app, KeyCode::Char('s'), now);
            &&& after.outbox == app.outbox
            &&& after.waiting == app.waiting
            &&& after.roster == app.roster
            &&& after.panes == app.panes
        },
        app.ledger.generation(pane) == Some(generation) ==> {
            let after = app.handled(RuntimeEvent::Respawn { pane, generation }, now);
            &&& after.outbox == app.outbox
            &&& after.waiting == app.waiting
            &&& after.roster.process(pane)->0.state == ProcessState::Crashed
            &&& !after.alive(pane)
        },
{
    reveal(AppModel::launched);
    if in_sidebar(app) && app.catalog.cursor is None && app.roster.selected_id() == Some(pane) {
        reveal(AppModel::sidebar_key);
        reveal(AppModel::process_shortcut);
        reveal(AppModel::selected_toggled);
        sidebar_presses(app, KeyCode::Char('s'), now);
    }
    reveal(AppModel::handled);
    reveal(AppModel::respawned);
    switching_off(app, pane);
    states_are_kept(
        app.deactivated(pane),
        pane,
        ProcessState::Crashed,
        ActivityState::Idle,
        pane,
    );
}

} // verus!
