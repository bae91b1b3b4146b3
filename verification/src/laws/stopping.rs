//! Stopping, pausing and killing a process: what is sent to it, and what state it
//! ends in.

use vstd::prelude::*;
use crate::app::signals::ProcessOutput;
use crate::app::AppModel;
use crate::effect::{Effect, EffectModel, Reply, Task};
use crate::event::RuntimeEvent;
use crate::input::KeyCode;
use crate::laws::{
    answers, answers_arrive, fresh, in_sidebar, lives_are_kept, pressed, sidebar_presses,
    states_are_kept, told,
};
use crate::message::Message;
use crate::moment::Moment;
use crate::pane::{ConfigMembership, PaneLife};
use crate::process::{
    ActivityState, ExitIntent, ExitOutcome, PaneId, Process, ProcessKind, ProcessState, StopPolicy,
    StopSignal,
};

verus! {

/// Whether the sidebar stands on a process whose child is alive.
pub open spec fn on_live_process(app: AppModel, pane: PaneId) -> bool {
    &&& in_sidebar(app)
    &&& app.catalog.cursor is None
    &&& app.roster.selected_id() == Some(pane)
    &&& app.roster.process(pane) is Some
    &&& app.life(pane) is Some
    &&& app.life(pane)->0.alive
}

/// Whether a policy is the one that a process is stopped by: its own, or for a
/// command without one, an interrupt and five seconds.
pub open spec fn stopped_by(process: Process, policy: StopPolicy) -> bool {
    ||| process.stop == Some(policy)
    ||| {
        &&& process.stop is None
        &&& process.kind == ProcessKind::Command
        &&& policy.signal == StopSignal::Interrupt
        &&& policy.grace_millis == 5_000
    }
}

/// `p` pauses a process that is not paused, and resumes one that is: once the
/// host has done so, the process is paused, or running again. If the host cannot
/// do it, the process stays as it is.
pub proof fn a_pause_is_undone_by_a_resume(
    app: AppModel,
    later: AppModel,
    pane: PaneId,
    now: Moment,
    then: Moment,
)
    requires
        on_live_process(app, pane),
        app.life(pane)->0.exit_intent == ExitIntent::FollowPolicy,
        answers(later, pressed(app, KeyCode::Char('p'), now)),
        later.roster.process(pane) is Some,
    ensures
        ({
            let paused = app.roster.process(pane)->0.state == ProcessState::Paused;
            let asked = pressed(app, KeyCode::Char('p'), now);
            let done = told(later, Reply::Done(true), then);
            &&& paused ==> asked.outbox == app.outbox.push(EffectModel::Plain(Effect::Resume(pane)))
            &&& !paused ==> asked.outbox == app.outbox.push(EffectModel::Plain(Effect::Pause(pane)))
            &&& asked.roster == app.roster
            &&& asked.panes == app.panes
            &&& paused ==> done.roster.process(pane)->0.state == ProcessState::Running
            &&& !paused ==> done.roster.process(pane)->0.state == ProcessState::Paused
            &&& done.outbox == later.outbox
            &&& told(later, Reply::Done(false), then).roster == later.roster
        }),
{
    reveal(AppModel::sidebar_key);
    reveal(AppModel::process_shortcut);
    reveal(AppModel::selected_pause_toggled);
    reveal(AppModel::pause_answered);
    reveal(AppModel::process_answered);
    sidebar_presses(app, KeyCode::Char('p'), now);
    let task = pressed(app, KeyCode::Char('p'), now).waiting.last();
    answers_arrive(later, task, Reply::Done(true), then);
    answers_arrive(later, task, Reply::Done(false), then);
    states_are_kept(later, pane, ProcessState::Running, ActivityState::Idle, pane);
    states_are_kept(later, pane, ProcessState::Paused, ActivityState::Idle, pane);
}

/// A process whose shutdown is under way is neither paused nor resumed.
pub proof fn a_stopping_process_is_not_paused(app: AppModel, pane: PaneId, now: Moment)
    requires
        on_live_process(app, pane),
        app.life(pane)->0.exit_intent != ExitIntent::FollowPolicy,
    ensures
        pressed(app, KeyCode::Char('p'), now) == fresh(app),
{
    reveal(AppModel::sidebar_key);
    reveal(AppModel::process_shortcut);
    reveal(AppModel::selected_pause_toggled);
    sidebar_presses(app, KeyCode::Char('p'), now);
}

/// What is known of an application that asked a process to stop by a policy: the
/// signal of the policy goes out, and the request gets a number of its own.
pub open spec fn asks_politely(
    app: AppModel,
    asked: AppModel,
    pane: PaneId,
    policy: StopPolicy,
    restart: bool,
) -> bool {
    &&& asked.outbox == app.outbox.push(
        EffectModel::Plain(
            Effect::Terminate { pane, signal: policy.signal, grace_millis: policy.grace_millis },
        ),
    )
    &&& asked.roster == app.roster
    &&& asked.ledger == app.ledger
    &&& asked.life(pane) is Some
    &&& asked.life(pane)->0.alive
    &&& asked.life(pane)->0.shutdown_generation != app.life(pane)->0.shutdown_generation
    &&& asked.life(pane)->0.exit_intent == if restart {
        ExitIntent::RestartRetryable
    } else {
        ExitIntent::StopRetryable
    }
}

/// What is known once the signal has reached the process: it is stopping, and a
/// kill is due after the grace of the policy, for this run and this request.
pub open spec fn waits_out_the_grace(
    app: AppModel,
    asked: AppModel,
    later: AppModel,
    done: AppModel,
    pane: PaneId,
    policy: StopPolicy,
    restart: bool,
) -> bool {
    &&& done.outbox == later.outbox.push(
        EffectModel::Plain(
            Effect::ForceStopAfter {
                pane,
                spawn_generation: app.ledger.generation(pane)->0,
                shutdown_generation: asked.life(pane)->0.shutdown_generation,
                millis: policy.grace_millis,
            },
        ),
    )
    &&& done.roster.process(pane)->0.state == ProcessState::Stopping
    &&& done.life(pane) == Some(
        PaneLife {
            exit_intent: if restart {
                ExitIntent::RestartInFlight
            } else {
                ExitIntent::StopInFlight
            },
            ..later.life(pane)->0
        },
    )
}

/// What is known where the signal did not reach the process: it is killed
/// instead, and the user learns of it.
pub open spec fn kills_instead(
    later: AppModel,
    done: AppModel,
    pane: PaneId,
) -> bool {
    &&& done.outbox == later.outbox.push(EffectModel::Plain(Effect::Kill(pane)))
    &&& done.roster == later.roster
    &&& done.panes == later.panes
}

proof fn polite_requests(
    app: AppModel,
    later: AppModel,
    pane: PaneId,
    policy: StopPolicy,
    restart: bool,
    now: Moment,
    then: Moment,
)
    requires
        app.life(pane) is Some,
        app.life(pane)->0.alive,
        app.roster.process(pane) is Some,
        stopped_by(app.roster.process(pane)->0, policy),
        app.ledger.generation(pane) is Some,
        answers(later, app.stop_requested(pane, restart, now)),
        later.life(pane) is Some,
        later.roster.process(pane) is Some,
    ensures
        asks_politely(app, app.stop_requested(pane, restart, now), pane, policy, restart),
        waits_out_the_grace(
            app,
            app.stop_requested(pane, restart, now),
            later,
            told(later, Reply::Done(true), then),
            pane,
            policy,
            restart,
        ),
        kills_instead(later, told(later, Reply::Done(false), then), pane),
        told(later, Reply::Done(false), then).waiting == later.waiting.skip(1).push(
            Task::Killed { pane, restart, fallback: true },
        ),
{
    reveal(AppModel::process_answered);
    reveal(AppModel::terminate_answered);
    let asked = app.stop_requested(pane, restart, now);
    let life = AppModel::asked_to_stop(app.life(pane)->0, restart);
    lives_are_kept(app, pane, life, pane);
    let task = asked.waiting.last();
    answers_arrive(later, task, Reply::Done(true), then);
    answers_arrive(later, task, Reply::Done(false), then);
    let taken = AppModel { waiting: later.waiting.skip(1), ..later };
    let intent = ExitIntent::requested(restart, true);
    let meant = PaneLife { exit_intent: intent, ..taken.life(pane)->0 };
    lives_are_kept(taken, pane, meant, pane);
    states_are_kept(
        taken.with_life(pane, meant),
        pane,
        ProcessState::Stopping,
        ActivityState::Idle,
        pane,
    );
}

/// `s` asks a running process to stop by the signal of its policy. Once the
/// signal is delivered the process is stopping, and its kill is due after exactly
/// the grace of the policy. A signal that cannot be delivered becomes a kill.
pub proof fn a_stop_waits_out_the_grace_of_its_policy(
    app: AppModel,
    later: AppModel,
    pane: PaneId,
    policy: StopPolicy,
    now: Moment,
    then: Moment,
)
    requires
        on_live_process(app, pane),
        stopped_by(app.roster.process(pane)->0, policy),
        app.life(pane)->0.exit_intent != ExitIntent::StopInFlight,
        app.ledger.generation(pane) is Some,
        answers(later, pressed(app, KeyCode::Char('s'), now)),
        later.life(pane) is Some,
        later.roster.process(pane) is Some,
    ensures
        asks_politely(app, pressed(app, KeyCode::Char('s'), now), pane, policy, false),
        waits_out_the_grace(
            app,
            pressed(app, KeyCode::Char('s'), now),
            later,
            told(later, Reply::Done(true), then),
            pane,
            policy,
            false,
        ),
        kills_instead(later, told(later, Reply::Done(false), then), pane),
{
    reveal(AppModel::sidebar_key);
    reveal(AppModel::process_shortcut);
    reveal(AppModel::selected_toggled);
    sidebar_presses(app, KeyCode::Char('s'), now);
    polite_requests(fresh(app), later, pane, policy, false, now, then);
}

/// `r` stops a running process in the same way, to start it again once it is
/// gone.
pub proof fn a_restart_waits_out_the_grace_of_its_policy(
    app: AppModel,
    later: AppModel,
    pane: PaneId,
    policy: StopPolicy,
    now: Moment,
    then: Moment,
)
    requires
        on_live_process(app, pane),
        app.roster.process(pane)->0.agent_session_id is None,
        stopped_by(app.roster.process(pane)->0, policy),
        app.life(pane)->0.exit_intent != ExitIntent::RestartInFlight,
        app.ledger.generation(pane) is Some,
        answers(later, pressed(app, KeyCode::Char('r'), now)),
        later.life(pane) is Some,
        later.roster.process(pane) is Some,
    ensures
        asks_politely(app, pressed(app, KeyCode::Char('r'), now), pane, policy, true),
        waits_out_the_grace(
            app,
            pressed(app, KeyCode::Char('r'), now),
            later,
            told(later, Reply::Done(true), then),
            pane,
            policy,
            true,
        ),
        kills_instead(later, told(later, Reply::Done(false), then), pane),
{
    reveal(AppModel::sidebar_key);
    reveal(AppModel::process_shortcut);
    reveal(AppModel::selected_restarted);
    sidebar_presses(app, KeyCode::Char('r'), now);
    polite_requests(fresh(app), later, pane, policy, true, now, then);
}

/// A process without a policy, an agent or a terminal, is killed at once when it
/// is asked to stop, and is then stopping.
pub proof fn a_process_without_a_policy_is_killed(
    app: AppModel,
    later: AppModel,
    pane: PaneId,
    now: Moment,
    then: Moment,
)
    requires
        on_live_process(app, pane),
        app.roster.process(pane)->0.stop is None,
        app.roster.process(pane)->0.kind != ProcessKind::Command,
        app.life(pane)->0.exit_intent != ExitIntent::StopInFlight,
        answers(later, pressed(app, KeyCode::Char('s'), now)),
        later.life(pane) is Some,
        later.roster.process(pane) is Some,
    ensures
        ({
            let asked = pressed(app, KeyCode::Char('s'), now);
            let done = told(later, Reply::Done(true), then);
            let missed = told(later, Reply::Done(false), then);
            &&& asked.outbox == app.outbox.push(EffectModel::Plain(Effect::Kill(pane)))
            &&& asked.roster == app.roster
            &&& done.outbox == later.outbox
            &&& done.feedback == later.feedback
            &&& done.roster.process(pane)->0.state == ProcessState::Stopping
            &&& done.life(pane)->0.exit_intent == ExitIntent::StopInFlight
            &&& missed.outbox == later.outbox
            &&& missed.roster == later.roster
            &&& missed.feedback.notice == Some(Message::StopDeliveryFailed)
            &&& missed.life(pane)->0.exit_intent == ExitIntent::StopRetryable
        }),
{
    reveal(AppModel::sidebar_key);
    reveal(AppModel::process_shortcut);
    reveal(AppModel::selected_toggled);
    sidebar_presses(app, KeyCode::Char('s'), now);
    let task = pressed(app, KeyCode::Char('s'), now).waiting.last();
    assert(task == Task::Killed { pane, restart: false, fallback: false });
    kills_are_answered(later, pane, task, false, false, then);
}

proof fn kills_are_answered(
    later: AppModel,
    pane: PaneId,
    task: Task,
    restart: bool,
    fallback: bool,
    then: Moment,
)
    requires
        later.waiting.len() > 0,
        later.waiting[0] == task,
        task == (Task::Killed { pane, restart, fallback }) || !restart && !fallback && task
            == Task::ForceStopped(pane),
        later.life(pane) is Some,
        later.roster.process(pane) is Some,
    ensures
        ({
            let done = told(later, Reply::Done(true), then);
            let missed = told(later, Reply::Done(false), then);
            &&& done.outbox == later.outbox
            &&& !fallback ==> done.feedback == later.feedback
            &&& fallback ==> done.feedback.notice == Some(Message::GracefulFallback)
            &&& done.roster.process(pane)->0.state == ProcessState::Stopping
            &&& done.life(pane)->0.exit_intent == if restart {
                ExitIntent::RestartInFlight
            } else {
                ExitIntent::StopInFlight
            }
            &&& missed.outbox == later.outbox
            &&& missed.roster == later.roster
            &&& missed.feedback.notice == Some(Message::StopDeliveryFailed)
            &&& missed.life(pane)->0.exit_intent == if restart {
                ExitIntent::RestartRetryable
            } else {
                ExitIntent::StopRetryable
            }
        }),
{
    reveal(AppModel::process_answered);
    reveal(AppModel::kill_answered);
    answers_arrive(later, task, Reply::Done(true), then);
    answers_arrive(later, task, Reply::Done(false), then);
    let taken = AppModel { waiting: later.waiting.skip(1), ..later };
    let life = taken.life(pane)->0;
    let meant = PaneLife { exit_intent: ExitIntent::requested(restart, true), ..life };
    let missed = PaneLife { exit_intent: ExitIntent::requested(restart, false), ..life };
    lives_are_kept(taken, pane, meant, pane);
    lives_are_kept(taken, pane, missed, pane);
    states_are_kept(
        taken.with_life(pane, meant),
        pane,
        ProcessState::Stopping,
        ActivityState::Idle,
        pane,
    );
}

/// `x` kills a running process whatever its policy says, and it is then stopping
/// for good.
pub proof fn a_forced_stop_kills(
    app: AppModel,
    later: AppModel,
    pane: PaneId,
    now: Moment,
    then: Moment,
)
    requires
        on_live_process(app, pane),
        answers(later, pressed(app, KeyCode::Char('x'), now)),
        later.life(pane) is Some,
        later.roster.process(pane) is Some,
    ensures
        ({
            let asked = pressed(app, KeyCode::Char('x'), now);
            let done = told(later, Reply::Done(true), then);
            let missed = told(later, Reply::Done(false), then);
            &&& asked.outbox == app.outbox.push(EffectModel::Plain(Effect::Kill(pane)))
            &&& asked.roster == app.roster
            &&& asked.life(pane)->0.exit_intent == ExitIntent::StopRetryable
            &&& asked.life(pane)->0.shutdown_generation != app.life(pane)->0.shutdown_generation
            &&& done.outbox == later.outbox
            &&& done.roster.process(pane)->0.state == ProcessState::Stopping
            &&& done.life(pane)->0.exit_intent == ExitIntent::StopInFlight
            &&& missed.roster == later.roster
            &&& missed.feedback.notice == Some(Message::StopDeliveryFailed)
            &&& missed.life(pane)->0.exit_intent == ExitIntent::StopRetryable
        }),
{
    reveal(AppModel::sidebar_key);
    reveal(AppModel::process_shortcut);
    reveal(AppModel::selected_force_stopped);
    sidebar_presses(app, KeyCode::Char('x'), now);
    lives_are_kept(
        fresh(app),
        pane,
        AppModel::asked_to_stop(app.life(pane)->0, false),
        pane,
    );
    kills_are_answered(later, pane, Task::ForceStopped(pane), false, false, then);
}

/// Where the polite signal failed and the kill that follows it is delivered, the
/// process is stopping and the user reads that the shutdown was forced.
pub proof fn a_failed_signal_ends_in_a_forced_stop(
    later: AppModel,
    pane: PaneId,
    restart: bool,
    then: Moment,
)
    requires
        later.waiting.len() > 0,
        later.waiting[0] == (Task::Killed { pane, restart, fallback: true }),
        later.life(pane) is Some,
        later.roster.process(pane) is Some,
    ensures
        ({
            let done = told(later, Reply::Done(true), then);
            &&& done.roster.process(pane)->0.state == ProcessState::Stopping
            &&& done.feedback.notice == Some(Message::GracefulFallback)
            &&& done.outbox == later.outbox
            &&& done.life(pane)->0.exit_intent == if restart {
                ExitIntent::RestartInFlight
            } else {
                ExitIntent::StopInFlight
            }
        }),
{
    kills_are_answered(
        later,
        pane,
        Task::Killed { pane, restart, fallback: true },
        restart,
        true,
        then,
    );
}

/// A process that outlives its grace is killed: the kill that was scheduled for
/// this run and this request goes out once, and a second timer for the same
/// request finds it spent.
pub proof fn an_outlived_grace_is_followed_by_a_kill(
    app: AppModel,
    later: AppModel,
    pane: PaneId,
    spawn_generation: u64,
    shutdown_generation: u64,
    now: Moment,
    then: Moment,
)
    requires
        app.life(pane) is Some,
        app.life(pane)->0.alive,
        app.life(pane)->0.exit_intent == ExitIntent::StopInFlight || app.life(pane)->0.exit_intent
            == ExitIntent::RestartInFlight,
        app.life(pane)->0.shutdown_generation == shutdown_generation,
        app.ledger.generation(pane) == Some(spawn_generation),
        later.waiting.len() > 0,
        later.waiting[0] == app.handled(
            RuntimeEvent::ForceStop { pane, spawn_generation, shutdown_generation },
            now,
        ).waiting.last(),
        later.life(pane) is Some,
        later.roster.process(pane) is Some,
    ensures
        ({
            let due = RuntimeEvent::ForceStop { pane, spawn_generation, shutdown_generation };
            let asked = app.handled(due, now);
            let done = told(later, Reply::Done(true), then);
            let missed = told(later, Reply::Done(false), then);
            &&& asked.outbox == app.outbox.push(EffectModel::Plain(Effect::Kill(pane)))
            &&& asked.handled(due, now) == asked
            &&& asked.roster == app.roster
            &&& done.roster.process(pane)->0.state == ProcessState::Stopping
            &&& done.feedback.notice == Some(Message::ForceStopped)
            &&& done.panes == later.panes
            &&& missed.roster == later.roster
            &&& missed.feedback.notice == Some(Message::StopDeliveryFailed)
            &&& later.life(pane)->0.exit_intent == ExitIntent::StopInFlight
                ==> missed.life(pane)->0.exit_intent == ExitIntent::StopRetryable
            &&& later.life(pane)->0.exit_intent == ExitIntent::RestartInFlight
                ==> missed.life(pane)->0.exit_intent == ExitIntent::RestartRetryable
        }),
{
    reveal(AppModel::handled);
    reveal(AppModel::force_stop_due);
    reveal(AppModel::process_answered);
    reveal(AppModel::escalation_answered);
    let life = app.life(pane)->0;
    let spent = PaneLife {
        shutdown_generation: crate::generation::successor(life.shutdown_generation),
        ..life
    };
    lives_are_kept(app, pane, spent, pane);
    answers_arrive(later, Task::Escalated(pane), Reply::Done(true), then);
    answers_arrive(later, Task::Escalated(pane), Reply::Done(false), then);
    let taken = AppModel { waiting: later.waiting.skip(1), ..later };
    let kept = taken.life(pane)->0;
    lives_are_kept(
        taken,
        pane,
        PaneLife { exit_intent: kept.exit_intent.retryable(), ..kept },
        pane,
    );
    states_are_kept(taken, pane, ProcessState::Stopping, ActivityState::Idle, pane);
}

/// A process that was asked to stop is over when it exits, however it exits and
/// whatever its restart policy: nothing is started, and its pane is no longer
/// alive.
pub proof fn a_requested_stop_ends_in_an_exit(
    app: AppModel,
    pane: PaneId,
    generation: u64,
    outcome: ExitOutcome,
    now: Moment,
)
    requires
        app.ledger.generation(pane) == Some(generation),
        app.life(pane) is Some,
        app.life(pane)->0.membership == ConfigMembership::Listed,
        app.life(pane)->0.exit_intent == ExitIntent::StopInFlight || app.life(pane)->0.exit_intent
            == ExitIntent::StopRetryable,
        app.roster.process(pane) is Some,
    ensures
        ({
            let after = app.handled(
                RuntimeEvent::Output { pane, generation, output: ProcessOutput::Exited(outcome) },
                now,
            );
            &&& after.outbox == app.outbox
            &&& after.waiting == app.waiting
            &&& after.agenda == app.agenda.push(Task::Advance(pane))
            &&& after.roster.process(pane)->0.state == ProcessState::Exited
            &&& after.roster.process(pane)->0.activity == ActivityState::Idle
            &&& after.life(pane) is Some
            &&& !after.life(pane)->0.alive
            &&& after.life(pane)->0.exit_intent == ExitIntent::FollowPolicy
        }),
{
    reveal(AppModel::handled);
    reveal(AppModel::output_handled);
    states_are_kept(app, pane, ProcessState::Exited, ActivityState::Idle, pane);
    let idle = app.with_activity(pane, ActivityState::Idle);
    let off = idle.deactivated(pane);
    lives_are_kept(idle, pane, idle.life(pane)->0.deactivated(), pane);
    states_are_kept(off, pane, ProcessState::Exited, ActivityState::Idle, pane);
}

/// `x` on a process that does not run ends it for good: it has exited, and a restart
/// that was still due no longer comes.
pub proof fn a_forced_stop_cancels_a_restart(
    app: AppModel,
    pane: PaneId,
    generation: u64,
    now: Moment,
    then: Moment,
)
    requires
        in_sidebar(app),
        app.catalog.cursor is None,
        app.roster.selected_id() == Some(pane),
        app.roster.process(pane) is Some,
        !app.alive(pane),
        app.ledger.generation(pane) == Some(generation),
    ensures
        ({
            let after = pressed(app, KeyCode::Char('x'), now);
            &&& after.outbox == app.outbox
            &&& after.roster.process(pane)->0.state == ProcessState::Exited
            &&& !after.alive(pane)
            &&& after.handled(RuntimeEvent::Respawn { pane, generation }, then) == after
        }),
{
    reveal(AppModel::sidebar_key);
    reveal(AppModel::process_shortcut);
    reveal(AppModel::selected_force_stopped);
    reveal(AppModel::handled);
    reveal(AppModel::respawned);
    sidebar_presses(app, KeyCode::Char('x'), now);
    crate::ledger::a_new_generation_makes_old_events_stale(app.ledger, pane, pane);
    let bumped = fresh(app).bumped(pane);
    match bumped.life(pane) {
        Some(life) => lives_are_kept(bumped, pane, life.deactivated(), pane),
        None => {},
    }
    states_are_kept(
        bumped.deactivated(pane),
        pane,
        ProcessState::Exited,
        ActivityState::Idle,
        pane,
    );
}

/// A stop or a restart that is under way is not asked for again; but a restart may
/// still follow a stop, and a stop a restart.
pub proof fn a_request_under_way_is_not_repeated(app: AppModel, pane: PaneId, now: Moment)
    requires
        on_live_process(app, pane),
        app.roster.process(pane)->0.agent_session_id is None,
    ensures
        ({
            let intent = app.life(pane)->0.exit_intent;
            let stop = pressed(app, KeyCode::Char('s'), now);
            let again = pressed(app, KeyCode::Char('r'), now);
            &&& intent == ExitIntent::StopInFlight ==> stop == fresh(app)
            &&& intent == ExitIntent::RestartInFlight ==> again == fresh(app)
            &&& intent == ExitIntent::StopInFlight ==> again.outbox.len() == app.outbox.len() + 1
                && again.life(pane)->0.exit_intent == ExitIntent::RestartRetryable
            &&& intent == ExitIntent::RestartInFlight ==> stop.outbox.len() == app.outbox.len() + 1
                && stop.life(pane)->0.exit_intent == ExitIntent::StopRetryable
        }),
{
    reveal(AppModel::sidebar_key);
    reveal(AppModel::process_shortcut);
    reveal(AppModel::selected_toggled);
    reveal(AppModel::selected_restarted);
    sidebar_presses(app, KeyCode::Char('s'), now);
    sidebar_presses(app, KeyCode::Char('r'), now);
    let life = app.life(pane)->0;
    lives_are_kept(fresh(app), pane, AppModel::asked_to_stop(life, true), pane);
    lives_are_kept(fresh(app), pane, AppModel::asked_to_stop(life, false), pane);
}

} // verus!
