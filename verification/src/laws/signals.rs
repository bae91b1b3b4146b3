//! Activity and alerts: what a process is seen to do, when the user is told, and
//! when it is over.

use vstd::prelude::*;
use vstd::string::*;
use crate::activity::{ActivityEvidence, ActivityTracker};
use crate::activity_frame::frame_glyph;
use crate::app::signals::{nearest_deadline, ProcessOutput, Signal};
use crate::app::AppModel;
use crate::effect::{Effect, EffectModel, NotificationModel};
use crate::event::RuntimeEvent;
use crate::laws::{lives_are_kept, states_are_kept};
use crate::message::Message;
use crate::moment::Moment;
use crate::pane::{PaneLife, PaneModel};
use crate::process::{
    ActivityState, AgentActivitySource, PaneId, Process, ProcessKind, ProcessState,
};
use crate::text::opt_text;

verus! {

/// What a chunk of output says is heard after the chunk is shown, one signal after
/// the other.
pub proof fn signals_are_heard_in_order(
    app: AppModel,
    pane: PaneId,
    generation: u64,
    bytes: Vec<u8>,
    signals: Vec<Signal>,
    protocol: u8,
    screen_epoch: u64,
    first: Seq<Signal>,
    signal: Signal,
    now: Moment,
)
    requires
        app.ledger.generation(pane) == Some(generation),
        app.life(pane) is Some,
        signals@ == first.push(signal),
    ensures
        app.handled(
            RuntimeEvent::Output {
                pane,
                generation,
                output: ProcessOutput::Chunk { bytes, signals, protocol, screen_epoch },
            },
            now,
        ) == app.fed(pane, bytes@, protocol, screen_epoch).all_signalled(
            pane,
            first,
            now,
        ).signalled(pane, signal, now),
        app.all_signalled(pane, Seq::empty(), now) == app,
{
    reveal(AppModel::handled);
    reveal(AppModel::output_handled);
    assert(signals@.drop_last() =~= first);
}

/// Output makes a process that is watched by its output work, from now for a
/// second; it says nothing of one that is watched by its title.
pub proof fn output_is_work(app: AppModel, pane: PaneId, now: Moment)
    requires
        app.life(pane) is Some,
        app.life(pane)->0.pending_bell is None,
        app.roster.process(pane) is Some,
    ensures
        ({
            let after = app.signalled(pane, Signal::Output, now);
            let before = app.life(pane)->0.activity;
            let watched = before.strategy == AgentActivitySource::Output;
            &&& watched ==> after.roster.process(pane)->0.activity == ActivityState::Working
            &&& watched && before.evidence != ActivityEvidence::ExplicitProgress ==> after.life(
                pane,
            )->0.activity.evidence == ActivityEvidence::Recent(now)
            &&& watched && before.evidence == ActivityEvidence::ExplicitProgress ==> after.life(
                pane,
            )->0.activity.evidence == ActivityEvidence::ExplicitProgress
            &&& !watched ==> after.roster == app.roster
            &&& !watched ==> after.life(pane) == app.life(pane)
            &&& after.outbox == app.outbox && after.feedback == app.feedback
        }),
{
    let life = app.life(pane)->0;
    let seen = PaneLife { activity: life.activity.after_output(now), ..life };
    lives_are_kept(app, pane, seen, pane);
    states_are_kept(
        app.with_life(pane, seen),
        pane,
        ProcessState::Running,
        ActivityState::Working,
        pane,
    );
}

/// A new title makes a process that is watched by its title work, from now for a
/// second; the same title again, or a title of another process, says nothing.
pub proof fn a_new_title_is_work(app: AppModel, pane: PaneId, title: String, now: Moment)
    requires
        app.life(pane) is Some,
        app.roster.process(pane) is Some,
    ensures
        ({
            let after = app.signalled(pane, Signal::Title(title), now);
            let before = app.life(pane)->0.activity;
            let news = before.strategy == AgentActivitySource::Title && opt_text(before.last_title)
                != Some(title@);
            &&& news ==> after.roster.process(pane)->0.activity == ActivityState::Working
            &&& news ==> after.life(pane)->0.activity.last_title == Some(title)
            &&& news && before.evidence != ActivityEvidence::ExplicitProgress ==> after.life(
                pane,
            )->0.activity.evidence == ActivityEvidence::Recent(now)
            &&& !news ==> after.roster == app.roster && after.life(pane) == app.life(pane)
            &&& after.outbox == app.outbox
        }),
{
    let life = app.life(pane)->0;
    let seen = PaneLife { activity: life.activity.after_title(now, title), ..life };
    lives_are_kept(app, pane, seen, pane);
    states_are_kept(
        app.with_life(pane, seen),
        pane,
        ProcessState::Running,
        ActivityState::Working,
        pane,
    );
}

/// A program that reports progress works until it reports its end, and then waits
/// for input.
pub proof fn progress_is_work_until_its_end(app: AppModel, pane: PaneId, now: Moment)
    requires
        app.life(pane) is Some,
        app.roster.process(pane) is Some,
    ensures
        ({
            let begun = app.signalled(pane, Signal::Progress(true), now);
            let ended = app.signalled(pane, Signal::Progress(false), now);
            &&& begun.roster.process(pane)->0.activity == ActivityState::Working
            &&& begun.life(pane)->0.activity.evidence == ActivityEvidence::ExplicitProgress
            &&& ended.roster.process(pane)->0.activity == ActivityState::AwaitingInput
            &&& ended.life(pane)->0.activity.evidence == ActivityEvidence::Unscheduled
            &&& begun.outbox == app.outbox && ended.outbox == app.outbox
        }),
{
    let life = app.life(pane)->0;
    let begun = PaneLife { activity: life.activity.after_progress(true), ..life };
    let ended = PaneLife { activity: life.activity.after_progress(false), ..life };
    lives_are_kept(app, pane, begun, pane);
    lives_are_kept(app, pane, ended, pane);
    states_are_kept(
        app.with_life(pane, begun),
        pane,
        ProcessState::Running,
        ActivityState::Working,
        pane,
    );
    states_are_kept(
        app.with_life(pane, ended),
        pane,
        ProcessState::Running,
        ActivityState::AwaitingInput,
        pane,
    );
}

/// Whether the user is alerted for a process: always by a notice, and on the
/// desktop, with everything that the program said, where that is switched on.
pub open spec fn alerts(
    before: AppModel,
    after: AppModel,
    message: Message,
    notification: NotificationModel,
) -> bool {
    let desktop = before.desktop_notifications() && before.world.has_notifier;
    &&& after.feedback.notice == Some(message)
    &&& desktop ==> after.outbox == before.outbox.push(EffectModel::Notify(notification))
    &&& !desktop ==> after.outbox == before.outbox
}

/// A notification makes its process wait for input, and alerts the user with its
/// text, or with its title where it has no text.
pub proof fn a_notification_alerts_with_its_text(
    app: AppModel,
    pane: PaneId,
    identifier: Option<String>,
    title: Option<String>,
    body: Option<String>,
    now: Moment,
)
    requires
        app.life(pane) is Some,
        app.roster.process(pane) is Some,
        title is Some || body is Some,
    ensures
        ({
            let process = app.roster.process(pane)->0;
            let after = app.signalled(pane, Signal::Notify { identifier, title, body }, now);
            &&& after.roster.process(pane)->0.activity == ActivityState::AwaitingInput
            &&& after.life(pane)->0.activity.evidence == ActivityEvidence::Unscheduled
            &&& alerts(
                app,
                after,
                Message::Raised {
                    name: process.name,
                    text: if body is Some {
                        body->0
                    } else {
                        title->0
                    },
                },
                NotificationModel {
                    pane,
                    scope: app.life(pane)->0.notification_scope,
                    source: process.name@,
                    title: opt_text(title),
                    body: opt_text(body),
                    identifier: opt_text(identifier),
                },
            )
        }),
{
    attending(app, pane);
}

proof fn attending(app: AppModel, pane: PaneId)
    requires
        app.life(pane) is Some,
        app.roster.process(pane) is Some,
    ensures
        ({
            let life = app.life(pane)->0;
            let attentive = PaneLife { activity: life.activity.after_attention(), ..life };
            let seen = app.with_life(pane, attentive).with_activity(
                pane,
                ActivityState::AwaitingInput,
            );
            &&& seen.life(pane) == Some(attentive)
            &&& seen.roster.process(pane) == Some(
                Process {
                    activity: ActivityState::AwaitingInput,
                    ..app.roster.process(pane)->0
                },
            )
            &&& seen.roster.selected_id() == app.roster.selected_id()
        }),
{
    let life = app.life(pane)->0;
    let attentive = PaneLife { activity: life.activity.after_attention(), ..life };
    lives_are_kept(app, pane, attentive, pane);
    let marked = app.with_life(pane, attentive);
    crate::workspace::a_changed_process_is_found_again(
        marked.roster,
        pane,
        ProcessState::Running,
        ActivityState::AwaitingInput,
    );
    crate::workspace::position_is_the_first(app.roster.processes, pane);
}

/// A bell makes its process wait for input. That of an agent alerts at once, but
/// not within three seconds of the last one; that of another process alerts two
/// seconds later, unless it is the selected one.
pub proof fn a_bell_alerts_by_the_kind_of_its_process(
    app: AppModel,
    pane: PaneId,
    identifier: Option<String>,
    now: Moment,
)
    requires
        app.life(pane) is Some,
        app.roster.process(pane) is Some,
    ensures
        ({
            let process = app.roster.process(pane)->0;
            let life = app.life(pane)->0;
            let after = app.signalled(
                pane,
                Signal::Notify { identifier, title: None, body: None },
                now,
            );
            let counts = life.last_bell is None || now.nanos - life.last_bell->0.nanos >= 3_000
                * 1_000_000;
            let agent = process.kind == ProcessKind::Agent;
            let selected = app.roster.selected_id() == Some(pane);
            &&& after.roster.process(pane)->0.activity == ActivityState::AwaitingInput
            &&& !counts ==> after.outbox == app.outbox && after.feedback == app.feedback
            &&& counts ==> after.life(pane)->0.last_bell == Some(now)
            &&& counts && agent ==> alerts(
                app,
                after,
                Message::Rang(process.name),
                NotificationModel {
                    pane,
                    scope: life.notification_scope,
                    source: process.name@,
                    title: None,
                    body: Some("awaiting input"@),
                    identifier: opt_text(identifier),
                },
            )
            &&& counts && !agent ==> after.outbox == app.outbox && after.feedback == app.feedback
            &&& counts && !agent && !selected ==> after.life(pane)->0.pending_bell == Some(
                now.later(2_000),
            )
            &&& counts && !agent && selected ==> after.life(pane)->0.pending_bell
                == life.pending_bell
        }),
{
    attending(app, pane);
    let life = app.life(pane)->0;
    let attentive = PaneLife { activity: life.activity.after_attention(), ..life };
    let seen = app.with_life(pane, attentive).with_activity(pane, ActivityState::AwaitingInput);
    let rung = PaneLife { last_bell: Some(now), ..attentive };
    lives_are_kept(seen, pane, rung, pane);
    lives_are_kept(
        seen.with_life(pane, rung),
        pane,
        PaneLife { pending_bell: Some(now.later(2_000)), ..rung },
        pane,
    );
}

/// Output after a bell puts the bell off by two seconds from then, and is not taken
/// for work.
pub proof fn output_puts_a_bell_off(app: AppModel, pane: PaneId, now: Moment)
    requires
        app.life(pane) is Some,
        app.life(pane)->0.pending_bell is Some,
    ensures
        ({
            let after = app.signalled(pane, Signal::Output, now);
            &&& after.life(pane) == Some(
                PaneLife { pending_bell: Some(now.later(2_000)), ..app.life(pane)->0 },
            )
            &&& after.roster == app.roster
            &&& after.outbox == app.outbox
        }),
{
    let life = app.life(pane)->0;
    lives_are_kept(
        app,
        pane,
        PaneLife { pending_bell: Some(now.later(2_000)), ..life },
        pane,
    );
}

/// A program that takes its notification back has it closed, under its own pane,
/// run and identifier.
pub proof fn a_closed_notification_is_the_programs_own(
    app: AppModel,
    pane: PaneId,
    identifier: String,
    now: Moment,
)
    requires
        app.life(pane) is Some,
    ensures
        ({
            let after = app.signalled(pane, Signal::Close { identifier }, now);
            &&& app.world.has_notifier ==> after == (AppModel {
                outbox: app.outbox.push(
                    EffectModel::Plain(
                        Effect::CloseNotification {
                            pane,
                            scope: app.life(pane)->0.notification_scope,
                            identifier,
                        },
                    ),
                ),
                ..app
            })
            &&& !app.world.has_notifier ==> after == app
        }),
{
}

/// Whether what was last seen of a process is a second old.
pub open spec fn gone_quiet(app: AppModel, pane: PaneId, now: Moment) -> bool {
    &&& app.life(pane) is Some
    &&& app.life(pane)->0.activity.evidence is Recent
    &&& app.life(pane)->0.activity.evidence->Recent_0.later(1_000).nanos <= now.nanos
}

/// A process that nothing was seen of for a second is idle; the others stay as they
/// are. Each pane is looked at once.
pub proof fn quiet_processes_become_idle(
    app: AppModel,
    ids: Seq<PaneId>,
    pane: PaneId,
    now: Moment,
)
    requires
        ids.no_duplicates(),
        app.roster.process(pane) is Some,
    ensures
        ({
            let after = app.quieted(ids, now);
            &&& ids.contains(pane) && gone_quiet(app, pane, now) ==> after.roster.process(
                pane,
            )->0.activity == ActivityState::Idle && after.life(
                pane,
            )->0.activity.evidence == ActivityEvidence::Unscheduled
            &&& !ids.contains(pane) || !gone_quiet(app, pane, now) ==> after.roster.process(pane)
                == app.roster.process(pane) && after.life(pane) == app.life(pane)
            &&& after.roster.process(pane) is Some
            &&& after.outbox == app.outbox && after.feedback == app.feedback
            &&& after.roster.selected_id() == app.roster.selected_id()
        }),
    decreases ids.len(),
{
    if ids.len() > 0 {
        let rest = ids.drop_last();
        let last = ids.last();
        assert(rest.no_duplicates());
        quiet_processes_become_idle(app, rest, pane, now);
        let before = app.quieted(rest, now);
        if ids.contains(pane) && last != pane {
            let k = choose|k: int| 0 <= k < ids.len() && ids[k] == pane;
            assert(rest[k] == pane);
            assert(rest.contains(pane));
        }
        if rest.contains(pane) {
            let k = choose|k: int| 0 <= k < rest.len() && rest[k] == pane;
            assert(ids[k] == pane);
            assert(ids[ids.len() - 1] == last);
            assert(last != pane);
        }
        if last == pane {
            assert(ids[ids.len() - 1] == pane);
        }
        if before.is_quiet(last, now) {
            let life = before.life(last)->0;
            let calm = PaneLife { activity: life.activity.after_expiry(now), ..life };
            lives_are_kept(before, last, calm, pane);
            let marked = before.with_life(last, calm);
            crate::workspace::a_changed_process_is_found_again(
                marked.roster,
                last,
                ProcessState::Running,
                ActivityState::Idle,
            );
            states_are_kept(marked, last, ProcessState::Running, ActivityState::Idle, pane);
            crate::workspace::position_is_the_first(marked.roster.processes, last);
        }
    }
}

/// A bell that is due alerts the user once, unless its process is the selected one
/// by then.
pub proof fn a_due_bell_alerts_once(app: AppModel, pane: PaneId, due: Moment, now: Moment)
    requires
        app.life(pane) is Some,
        app.life(pane)->0.pending_bell == Some(due),
        app.roster.process(pane) is Some,
    ensures
        ({
            let process = app.roster.process(pane)->0;
            let after = app.belled(seq![pane], now);
            let selected = app.roster.selected_id() == Some(pane);
            &&& due.nanos > now.nanos ==> after == app
            &&& due.nanos <= now.nanos ==> after.life(pane)->0.pending_bell is None
            &&& due.nanos <= now.nanos && !selected ==> alerts(
                app,
                after,
                Message::Rang(process.name),
                NotificationModel {
                    pane,
                    scope: app.life(pane)->0.notification_scope,
                    source: process.name@,
                    title: None,
                    body: Some("awaiting input"@),
                    identifier: None,
                },
            )
            &&& due.nanos <= now.nanos && selected ==> after.outbox == app.outbox
                && after.feedback == app.feedback
            &&& after.roster == app.roster
        }),
{
    reveal_with_fuel(AppModel::belled, 2);
    assert(seq![pane].drop_last() =~= Seq::<PaneId>::empty());
    lives_are_kept(
        app,
        pane,
        PaneLife { pending_bell: None, ..app.life(pane)->0 },
        pane,
    );
}

/// The time of the next look at the panes is the earliest at which any of them goes
/// quiet or rings.
pub proof fn the_next_look_is_at_the_earliest_deadline(panes: Seq<PaneModel>, i: int)
    requires
        0 <= i < panes.len(),
    ensures
        panes[i].life.pending_bell matches Some(due) ==> nearest_deadline(panes) is Some
            && nearest_deadline(panes)->0.nanos <= due.nanos,
        panes[i].life.activity.evidence matches ActivityEvidence::Recent(seen) ==> nearest_deadline(
            panes,
        ) is Some && nearest_deadline(panes)->0.nanos <= seen.later(1_000).nanos,
        nearest_deadline(panes) is Some ==> exists|k: int|
            0 <= k < panes.len() && {
                ||| (#[trigger] panes[k]).life.pending_bell == nearest_deadline(panes)
                ||| panes[k].life.activity.evidence is Recent && Some(
                    panes[k].life.activity.evidence->Recent_0.later(1_000),
                ) == nearest_deadline(panes)
            },
    decreases panes.len(),
{
    let rest = panes.drop_last();
    let last = panes.len() - 1;
    assert(panes[last] == panes.last());
    if rest.len() > 0 {
        let j = if i < last {
            i
        } else {
            0
        };
        the_next_look_is_at_the_earliest_deadline(rest, j);
        assert(rest[j] == panes[j]);
        if nearest_deadline(rest) is Some {
            let k = choose|k: int|
                0 <= k < rest.len() && {
                    ||| (#[trigger] rest[k]).life.pending_bell == nearest_deadline(rest)
                    ||| rest[k].life.activity.evidence is Recent && Some(
                        rest[k].life.activity.evidence->Recent_0.later(1_000),
                    ) == nearest_deadline(rest)
                };
            assert(panes[k] == rest[k]);
        }
    }
}

/// The spinner turns while an agent is running and working: by one of ten steps
/// each tenth of a second, and not otherwise.
pub proof fn the_spinner_turns_while_an_agent_works(app: AppModel, i: int, now: Moment)
    requires
        0 <= i < app.roster.processes.len(),
        app.roster.processes[i].kind == ProcessKind::Agent,
        app.roster.processes[i].state == ProcessState::Running,
        app.roster.processes[i].activity == ActivityState::Working,
        app.spinner.frame.index < 10,
    ensures
        app.spinner.deadline.nanos <= now.nanos ==> {
            &&& app.spun(now).spinner.frame.index == (if app.spinner.frame.index == 9 {
                0
            } else {
                app.spinner.frame.index + 1
            })
            &&& app.spun(now).spinner.deadline == now.later(100)
        },
        app.spinner.deadline.nanos > now.nanos ==> app.spun(now) == app,
{
    assert(crate::app::signals::working_agent(app.roster.processes[i]));
}

/// Without a working agent the spinner stands still.
pub proof fn the_spinner_rests_without_work(app: AppModel, now: Moment)
    requires
        forall|i: int|
            0 <= i < app.roster.processes.len() ==> (#[trigger] app.roster.processes[i]).kind
                != ProcessKind::Agent || app.roster.processes[i].state != ProcessState::Running
                || app.roster.processes[i].activity != ActivityState::Working,
    ensures
        app.spun(now) == app,
        app.spinner_deadline() is None,
{
}

/// The ten frames of the spinner are the dots of a turning circle.
pub proof fn the_frames_turn(index: nat)
    ensures
        frame_glyph(0) == '\u{280b}',
        frame_glyph(1) == '\u{2819}',
        frame_glyph(2) == '\u{2839}',
        frame_glyph(3) == '\u{2838}',
        frame_glyph(4) == '\u{283c}',
        frame_glyph(5) == '\u{2834}',
        frame_glyph(6) == '\u{2826}',
        frame_glyph(7) == '\u{2827}',
        frame_glyph(8) == '\u{2807}',
        frame_glyph(9) == '\u{280f}',
{
}

/// A look at the panes makes the quiet processes idle, whatever else it does.
pub proof fn a_look_at_the_panes_finds_the_quiet_ones(app: AppModel, pane: PaneId, now: Moment)
    requires
        crate::app::signals::pane_ids(app.panes).no_duplicates(),
        crate::app::signals::pane_ids(app.panes).contains(pane),
        app.roster.process(pane) is Some,
    ensures
        gone_quiet(app, pane, now) ==> app.activity_expired(now).roster.process(pane)->0.activity
            == ActivityState::Idle,
        !gone_quiet(app, pane, now) ==> app.activity_expired(now).roster.process(pane)
            == app.roster.process(pane),
{
    let ids = crate::app::signals::pane_ids(app.panes);
    quiet_processes_become_idle(app, ids, pane, now);
    bells_change_no_process(app.quieted(ids, now), ids, now);
}

proof fn bells_change_no_process(app: AppModel, ids: Seq<PaneId>, now: Moment)
    ensures
        app.belled(ids, now).roster == app.roster,
    decreases ids.len(),
{
    if ids.len() > 0 {
        bells_change_no_process(app, ids.drop_last(), now);
    }
}

} // verus!
