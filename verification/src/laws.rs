//! What holds of the manager as a whole.
//!
//! Each law follows an event from the user or the host through to the effects
//! that it sends out and to the state that the answers leave behind. It names
//! the effect, the bytes, the words or the state that has to come of the event,
//! so it says what the manager does without saying how.

use vstd::prelude::*;
use crate::app::{AppModel, Focus};
use crate::effect::{Reply, Task};
use crate::event::{InputEvent, RuntimeEvent};
use crate::input::{KeyCode, KeyEvent, KeyEventKind, KeyModifiers};
use crate::moment::Moment;
use crate::pane::{a_lifetime_change_touches_one_pane, pane_of, PaneLife};
use crate::process::{ActivityState, PaneId, ProcessState};
use crate::workspace::{a_change_touches_one_process, a_changed_process_is_found_again};

pub mod editing;
pub mod encoding;
pub mod entries;
pub mod forms;
pub mod keys;
pub mod lifecycle;
pub mod places;
pub mod pointer;
pub mod projects;
pub mod records;
pub mod screens;
pub mod sessions;
pub mod signals;
pub mod stopping;
pub mod terminal;
pub mod views;
pub mod words;

verus! {

/// The press of a key without modifiers.
pub open spec fn press(code: KeyCode) -> KeyEvent {
    KeyEvent {
        code,
        modifiers: KeyModifiers { shift: false, alt: false, control: false },
        kind: KeyEventKind::Press,
    }
}

/// The application after a key is pressed.
pub open spec fn pressed(app: AppModel, code: KeyCode, now: Moment) -> AppModel {
    app.handled(
        RuntimeEvent::Input(InputEvent::Key { key: press(code), escape: None }),
        now,
    )
}

/// The application after the host answers the oldest request.
pub open spec fn told(app: AppModel, reply: Reply, now: Moment) -> AppModel {
    app.handled(RuntimeEvent::Answer(reply), now)
}

/// Whether the next answer that `later` takes is the one to the request that
/// `asked` made last. In between anything may have happened.
pub open spec fn answers(later: AppModel, asked: AppModel) -> bool {
    asked.waiting.len() > 0 && later.waiting.len() > 0 && later.waiting[0] == asked.waiting.last()
}

/// Whether keys go to the sidebar.
pub open spec fn in_sidebar(app: AppModel) -> bool {
    app.overlay is None && app.focus == Focus::Sidebar
}

/// The application whose notice and text selection a key press has cleared.
pub open spec fn fresh(app: AppModel) -> AppModel {
    (AppModel { feedback: app.feedback.unnoted(), ..app }).unselected()
}

/// A key pressed in the sidebar is one of the sidebar's keys.
pub proof fn sidebar_presses(app: AppModel, code: KeyCode, now: Moment)
    requires
        in_sidebar(app),
    ensures
        pressed(app, code, now) == fresh(app).sidebar_key(code, now),
{
    reveal(AppModel::handled);
    reveal(AppModel::input_handled);
    reveal(AppModel::key_handled);
    reveal(AppModel::focused_key);
}

/// An answer reaches the oldest task that waits.
pub proof fn answers_arrive(app: AppModel, task: Task, reply: Reply, now: Moment)
    requires
        app.waiting.len() > 0,
        app.waiting[0] == task,
    ensures
        told(app, reply, now) == (AppModel { waiting: app.waiting.skip(1), ..app }).answered(
            task,
            reply,
            now,
        ),
{
    reveal(AppModel::handled);
}

/// A pane holds the lifetime that it was given, and no other pane changes.
pub proof fn lives_are_kept(app: AppModel, pane: PaneId, life: PaneLife, other: PaneId)
    ensures
        app.life(pane) is Some ==> app.with_life(pane, life).life(pane) == Some(life),
        app.life(pane) is Some ==> pane_of(app.with_life(pane, life).panes, pane)->0.screen
            == pane_of(app.panes, pane)->0.screen,
        other != pane ==> app.with_life(pane, life).life(other) == app.life(other),
        app.life(pane) is None ==> app.with_life(pane, life) == app,
{
    a_lifetime_change_touches_one_pane(app.panes, pane, life, pane);
    a_lifetime_change_touches_one_pane(app.panes, pane, life, other);
}

/// A process has the state that it was given, and no other process changes.
pub proof fn states_are_kept(
    app: AppModel,
    pane: PaneId,
    state: ProcessState,
    activity: ActivityState,
    other: PaneId,
)
    ensures
        app.roster.process(pane) matches Some(process) ==> {
            &&& app.with_state(pane, state).roster.process(pane) matches Some(after)
            &&& after.state == state && after.activity == process.activity && after.id
                == process.id && after.command == process.command
        },
        app.roster.process(pane) matches Some(process) ==> {
            &&& app.with_activity(pane, activity).roster.process(pane) matches Some(after)
            &&& after.activity == activity && after.state == process.state
        },
        other != pane ==> app.with_state(pane, state).roster.process(other)
            == app.roster.process(other),
        other != pane ==> app.with_activity(pane, activity).roster.process(other)
            == app.roster.process(other),
{
    a_changed_process_is_found_again(app.roster, pane, state, activity);
    if other != pane {
        a_change_touches_one_process(app.roster, pane, other, state, activity);
    }
}

} // verus!
